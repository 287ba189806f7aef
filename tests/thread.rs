use sparkle_impostor::thread::{Info, ThreadChannel, GUILD_FORUM};
use sparkle_impostor::webhook::ExecTarget;
use sparkle_impostor::{Error, MessageRecord, MessageSource};

fn source_in(id: u64, channel_id: u64) -> MessageSource {
    let record = MessageRecord {
        id,
        channel_id,
        guild_id: Some(3),
        author_id: 1,
        author_name: "author".to_owned(),
        author_nick: None,
        content: "thread".to_owned(),
        kind: 0,
        flags: None,
        has_activity: false,
        has_application: false,
        has_thread: false,
        has_role_subscription: false,
        tts: false,
        has_sticker: false,
        has_attachment: false,
        has_component: false,
        has_invalid_component: false,
        reactions: vec![],
    };
    MessageSource::from_message(&record).unwrap()
}

fn channel(id: u64, kind: u8, parent_id: Option<u64>) -> ThreadChannel {
    ThreadChannel {
        id,
        kind,
        parent_id,
        name: Some("sparkle impostor thread".to_owned()),
    }
}

#[test]
fn not_in_thread() {
    let mut source = source_in(500, 40);
    assert_eq!(source.thread_lookup(), Some(40));
    assert_eq!(source.handle_thread(Some(channel(40, 0, None))), Ok(None));
    assert!(matches!(source.thread_info, Info::NotIn));
    assert_eq!(source.channel_id, 40);
    assert_eq!(source.thread_lookup(), None);
}

#[test]
fn message_in_thread() {
    let mut source = source_in(500, 41);
    assert_eq!(source.handle_thread(Some(channel(41, 11, Some(40)))), Ok(None));
    assert!(matches!(source.thread_info, Info::In(41)));
    assert_eq!(source.channel_id, 40);
    assert_eq!(source.source_thread_id, Some(41));
    assert_eq!(source.source_channel_id, 41);
}

#[test]
fn thread_created_from_message() {
    let mut source = source_in(41, 40);
    assert_eq!(source.handle_thread(Some(channel(41, 11, Some(40)))), Ok(Some(40)));
    assert!(matches!(source.thread_info, Info::CreatedUnknown(_)));
    source.handle_thread_parent(0);
    assert!(matches!(&source.thread_info, Info::Created(t) if t.id == 41));
    assert_eq!(source.thread_info.id(), Some(41));
}

#[test]
fn forum_post() {
    let mut source = source_in(41, 40);
    assert_eq!(source.handle_thread(Some(channel(41, 11, Some(40)))), Ok(Some(40)));
    source.handle_thread_parent(GUILD_FORUM);
    assert!(matches!(source.thread_info, Info::CreatedPost(_)));
}

#[test]
fn thread_without_parent() {
    let mut source = source_in(500, 41);
    assert_eq!(
        source.handle_thread(Some(channel(41, 12, None))),
        Err(Error::MissingParent)
    );
    assert!(matches!(source.thread_info, Info::Unknown));
    assert_eq!(source.channel_id, 41);
}

#[test]
fn resolving_twice_changes_nothing() {
    let mut source = source_in(500, 41);
    source.handle_thread(Some(channel(41, 10, Some(40)))).unwrap();
    assert_eq!(source.thread_lookup(), None);
    assert_eq!(source.handle_thread(Some(channel(99, 11, Some(98)))), Ok(None));
    assert!(matches!(source.thread_info, Info::In(41)));
    assert_eq!(source.channel_id, 40);
    source.handle_thread_parent(GUILD_FORUM);
    assert!(matches!(source.thread_info, Info::In(41)));
}

#[test]
fn created_unknown_needs_no_fetch() {
    let mut source = source_in(41, 40);
    source.thread_info = Info::CreatedUnknown(channel(41, 11, Some(40)));
    assert_eq!(source.thread_lookup(), None);
    assert_eq!(source.handle_thread(None), Ok(Some(40)));
    assert_eq!(source.channel_id, 40);
}

#[test]
fn unknown_without_fetched_channel_waits() {
    let mut source = source_in(500, 41);
    assert_eq!(source.handle_thread(None), Ok(None));
    assert!(matches!(source.thread_info, Info::Unknown));
}

#[test]
fn forum_post_keeps_thread_name() {
    let mut source = source_in(41, 40);
    source.handle_thread(Some(channel(41, 11, Some(40)))).unwrap();
    source.handle_thread_parent(GUILD_FORUM);
    assert_eq!(
        source.exec_target(),
        Ok(ExecTarget::NewPost("sparkle impostor thread".to_owned()))
    );
}
