use sparkle_impostor::message::Reaction;
use sparkle_impostor::{CheckBehavior, Error, MessageRecord, MessageSource, MessageSourceBuilder};

fn valid() -> MessageRecord {
    MessageRecord {
        id: 900,
        channel_id: 40,
        guild_id: Some(3),
        author_id: 1,
        author_name: "author".to_owned(),
        author_nick: None,
        content: "hello".to_owned(),
        kind: 0,
        flags: None,
        has_activity: false,
        has_application: false,
        has_thread: false,
        has_role_subscription: false,
        tts: false,
        has_sticker: false,
        has_attachment: false,
        has_component: false,
        has_invalid_component: false,
        reactions: vec![],
    }
}

fn rejected(record: &MessageRecord) -> Error {
    MessageSource::from_message(record).err().unwrap()
}

#[test]
fn builder_defaults() {
    assert!(!MessageSourceBuilder::new().ignore_threads);
    assert!(MessageSourceBuilder::new().ignore_threads().ignore_threads);
}

#[test]
fn valid_message_makes_source() {
    let mut record = valid();
    record.author_nick = Some("nick".to_owned());
    record.kind = 19;
    let source = MessageSource::from_message(&record).unwrap();
    assert_eq!(source.source_id, 900);
    assert_eq!(source.channel_id, 40);
    assert_eq!(source.guild_id, Some(3));
    assert_eq!(source.username, "nick");
    assert_eq!(source.content, "hello");
    assert_eq!(source.webhook_name, "Message Cloner");
    assert!(source.response.is_none());
    let source = source.webhook_name("Cloner".to_owned());
    assert_eq!(source.webhook_name, "Cloner");
}

#[test]
fn username_falls_back_to_author_name() {
    let source = MessageSource::from_message(&valid()).unwrap();
    assert_eq!(source.username, "author");
}

#[test]
fn rich_presence() {
    let mut record = valid();
    record.has_activity = true;
    assert_eq!(rejected(&record), Error::RichPresence);
}

#[test]
fn thread_created() {
    let mut record = valid();
    record.flags = Some(1 << 5);
    assert_eq!(rejected(&record), Error::Thread);
    let mut record = valid();
    record.id = record.channel_id;
    assert_eq!(rejected(&record), Error::Thread);
}

#[test]
fn voice() {
    let mut record = valid();
    record.flags = Some((1 << 13) | 1);
    assert_eq!(rejected(&record), Error::Voice);
}

#[test]
fn system() {
    let mut record = valid();
    record.kind = 7;
    assert_eq!(rejected(&record), Error::System);
    let mut record = valid();
    record.has_role_subscription = true;
    assert_eq!(rejected(&record), Error::System);
}

#[test]
fn content_too_long() {
    let mut record = valid();
    record.content = "a".repeat(2_001);
    assert_eq!(rejected(&record), Error::ContentInvalid);
    record.content = "a".repeat(2_000);
    assert!(MessageSource::from_message(&record).is_ok());
}

#[test]
fn not_in_guild() {
    let mut record = valid();
    record.guild_id = None;
    assert_eq!(rejected(&record), Error::NotInGuild);
}

#[test]
fn first_failing_check_wins() {
    let mut record = valid();
    record.kind = 7;
    record.flags = Some(1 << 13);
    assert_eq!(rejected(&record), Error::Voice);
}

#[test]
fn sticker_attachment_component() {
    let mut record = valid();
    record.has_sticker = true;
    record.has_attachment = true;
    record.has_invalid_component = true;
    let source = MessageSource::from_message(&record).unwrap();
    assert_eq!(source.check_sticker(), Err(Error::Sticker));
    assert_eq!(source.check_attachment(), Err(Error::Attachment));
    assert_eq!(source.check_component(), Err(Error::Component));
    let plain = MessageSource::from_message(&valid()).unwrap();
    assert_eq!(plain.check_sticker(), Ok(()));
    assert_eq!(plain.check_attachment(), Ok(()));
    assert_eq!(plain.check_component(), Ok(()));
}

fn with_reactions(reactions: Vec<Reaction>) -> MessageSource {
    let mut record = valid();
    record.reactions = reactions;
    MessageSource::from_message(&record).unwrap()
}

#[test]
fn reaction_checks() {
    let unicode = Reaction { emoji_id: None, count: 1 };
    let twice = Reaction { emoji_id: None, count: 2 };
    let custom = Reaction { emoji_id: Some(8), count: 1 };
    let source = with_reactions(vec![unicode, twice]);
    assert_eq!(source.check_reaction(CheckBehavior::NoReaction), Err(Error::Reaction));
    assert_eq!(source.check_reaction(CheckBehavior::Limit(1)), Err(Error::ReactionAboveLimit(1)));
    assert_eq!(source.check_reaction(CheckBehavior::Limit(2)), Ok(()));
    assert_eq!(source.check_reaction(CheckBehavior::CountOne), Err(Error::ReactionCountMultiple));
    assert_eq!(source.check_reaction(CheckBehavior::Unicode), Ok(()));
    assert_eq!(source.check_reaction(CheckBehavior::NotExternal), Ok(()));
    let source = with_reactions(vec![custom]);
    assert_eq!(source.check_reaction(CheckBehavior::Unicode), Err(Error::ReactionCustom));
    let empty = with_reactions(vec![]);
    assert_eq!(empty.check_reaction(CheckBehavior::NoReaction), Ok(()));
}

#[test]
fn check_not_external() {
    let custom = Reaction { emoji_id: Some(8), count: 1 };
    let mut source = with_reactions(vec![custom]);
    assert!(source.needs_guild_emojis(CheckBehavior::NotExternal));
    assert!(!source.needs_guild_emojis(CheckBehavior::Unicode));
    source.set_guild_emojis(vec![1, 2]);
    assert!(!source.needs_guild_emojis(CheckBehavior::NotExternal));
    assert_eq!(source.check_reaction(CheckBehavior::NotExternal), Err(Error::ReactionExternal));
    let mut source = with_reactions(vec![custom]);
    source.set_guild_emojis(vec![8]);
    source.set_guild_emojis(vec![1]);
    assert_eq!(source.check_reaction(CheckBehavior::NotExternal), Ok(()));
}

#[test]
fn reactions_before_create() {
    let unicode = Reaction { emoji_id: None, count: 1 };
    let source = with_reactions(vec![unicode]);
    assert_eq!(source.reactions_to_create(), Err(Error::NotCreated));
}

#[test]
fn reactions_keep_guild_emojis_only() {
    let unicode = Reaction { emoji_id: None, count: 3 };
    let own = Reaction { emoji_id: Some(8), count: 1 };
    let external = Reaction { emoji_id: Some(9), count: 1 };
    let mut source = with_reactions(vec![unicode, external, own]);
    source.set_guild_emojis(vec![8]);
    source.record_created(1_000);
    assert_eq!(source.reactions_to_create(), Ok(vec![0, 2]));
    let mut only_external = with_reactions(vec![external]);
    only_external.set_guild_emojis(vec![8]);
    assert_eq!(only_external.reactions_to_create(), Ok(vec![]));
}

#[test]
fn builder_accepts_message_outside_guild() {
    let mut record = valid();
    record.guild_id = None;
    record.author_name = "ab".to_owned();
    let source = MessageSourceBuilder::new().build_from_message(&record).unwrap();
    assert_eq!(source.guild_id, None);
    assert_eq!(source.source_id, 900);
    assert!(matches!(source.thread_info, sparkle_impostor::thread::Info::Unknown));
}

#[test]
fn builder_accepts_id_equal_to_channel() {
    let mut record = valid();
    record.id = record.channel_id;
    assert!(MessageSourceBuilder::new().build_from_message(&record).is_ok());
}

#[test]
fn builder_ignoring_threads_is_not_in_thread() {
    let source = MessageSourceBuilder::new()
        .ignore_threads()
        .build_from_message(&valid())
        .unwrap();
    assert!(matches!(source.thread_info, sparkle_impostor::thread::Info::NotIn));
}

#[test]
fn builder_refusals_in_order() {
    let builder = MessageSourceBuilder::new();
    let refused = |record: &MessageRecord| builder.build_from_message(record).err().unwrap();
    let mut record = valid();
    record.author_name = "clyde".to_owned();
    assert_eq!(refused(&record), Error::UsernameInvalid);
    record.content = "a".repeat(2_001);
    assert_eq!(refused(&record), Error::ContentInvalid);
    record.kind = 7;
    assert_eq!(refused(&record), Error::System);
    record.flags = Some(1 << 13);
    assert_eq!(refused(&record), Error::Voice);
    record.has_thread = true;
    assert_eq!(refused(&record), Error::Thread);
    record.has_sticker = true;
    assert_eq!(refused(&record), Error::Sticker);
    record.reactions = vec![Reaction { emoji_id: None, count: 1 }];
    assert_eq!(refused(&record), Error::Reaction);
    record.has_component = true;
    assert_eq!(refused(&record), Error::Component);
    record.has_attachment = true;
    assert_eq!(refused(&record), Error::Attachment);
    record.has_application = true;
    assert_eq!(refused(&record), Error::RichPresence);
}

#[test]
fn created_keeps_other_fields() {
    let mut source = MessageSource::from_message(&valid()).unwrap();
    source.set_webhook(4, "token".to_owned());
    source.thread_info = sparkle_impostor::thread::Info::In(8);
    source.record_created(77);
    assert_eq!(source.response, Some(77));
    assert!(source.later_messages.is_source_created);
    assert_eq!(source.webhook, Some((4, "token".to_owned())));
    assert!(matches!(source.thread_info, sparkle_impostor::thread::Info::In(8)));
}

#[test]
fn builder_refuses_link_buttons_too() {
    let mut record = valid();
    record.has_component = true;
    assert_eq!(
        MessageSourceBuilder::new().build_from_message(&record).err(),
        Some(Error::Component)
    );
    let source = MessageSource::from_message(&record).unwrap();
    assert_eq!(source.check_component(), Ok(()));
}
