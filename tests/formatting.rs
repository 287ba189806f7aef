use sparkle_impostor::attachment::sticker_extension;
use sparkle_impostor::component::{filter_valid, has_invalid_components, ComponentShape, KeptComponent};
use sparkle_impostor::reference::{reference_preview, unknown_reference};
use sparkle_impostor::avatar::{choose_avatar, default_avatar_index, AvatarChoice};
use sparkle_impostor::thread::{Info, ThreadChannel};
use sparkle_impostor::username::UsernameError;
use sparkle_impostor::webhook::{ExecTarget, WebhookRecord};
use sparkle_impostor::{Error, MessageRecord, MessageSource};

fn source_named(name: &str, content: &str) -> MessageSource {
    let record = MessageRecord {
        id: 900,
        channel_id: 40,
        guild_id: Some(3),
        author_id: 1,
        author_name: name.to_owned(),
        author_nick: None,
        content: content.to_owned(),
        kind: 0,
        flags: None,
        has_activity: false,
        has_application: false,
        has_thread: false,
        has_role_subscription: false,
        tts: false,
        has_sticker: false,
        has_attachment: false,
        has_component: false,
        has_invalid_component: false,
        reactions: vec![],
    };
    MessageSource::from_message(&record).unwrap()
}

#[test]
fn username_sanitize_too_short() {
    let source = source_named("a", "x");
    assert_eq!(
        source.check_username(),
        Err(UsernameError { len: Some(1), substring: false })
    );
    let source = source.sanitize_username("a", "aa");
    assert_eq!(source.username, "aa");
    assert_eq!(source.check_username(), Ok(()));
}

#[test]
fn username_sanitize_too_long() {
    let source = source_named(&"a".repeat(81), "x").sanitize_username("a", "aa");
    assert_eq!(source.username, format!("{}...", "a".repeat(77)));
    assert_eq!(source.username.chars().count(), 80);
    assert_eq!(source.check_username(), Ok(()));
}

#[test]
fn username_sanitize_substring() {
    let source = source_named("clyde", "x");
    assert_eq!(
        source.check_username(),
        Err(UsernameError { len: None, substring: true })
    );
    assert_eq!(source.sanitize_username("a", "aa").username, "aa");
}

#[test]
fn username_valid_is_kept() {
    let source = source_named("sparkle", "x").sanitize_username("a", "aa");
    assert_eq!(source.username, "sparkle");
}

#[test]
fn attachment_link() {
    let mut source = source_named("author", "look");
    let urls = vec!["https://a/1.png".to_owned(), "https://a/2.txt".to_owned()];
    assert_eq!(source.append_urls(&urls), Ok(()));
    assert_eq!(source.content, "look\n\nhttps://a/1.png\nhttps://a/2.txt");
}

#[test]
fn attachment_link_content_too_long() {
    let mut source = source_named("author", &"a".repeat(1_990));
    let urls = vec!["https://a/1.png".to_owned()];
    assert_eq!(source.append_urls(&urls), Err(Error::ContentInvalid));
    assert_eq!(source.content, "a".repeat(1_990));
}

#[test]
fn attachment_link_exactly_at_ceiling() {
    let mut source = source_named("author", &"a".repeat(1_990));
    let urls = vec!["b".repeat(8)];
    assert_eq!(source.append_urls(&urls), Ok(()));
    assert_eq!(source.content.chars().count(), 2_000);
}

#[test]
fn default_avatars() {
    assert_eq!(default_avatar_index(0, 7), 2);
    assert_eq!(default_avatar_index(7 << 22, 0), 1);
    assert_eq!(choose_avatar(true, true, 1, 1), AvatarChoice::Guild);
    assert_eq!(choose_avatar(false, true, 1, 1), AvatarChoice::User);
    assert_eq!(choose_avatar(false, false, 5 << 22, 0), AvatarChoice::Default(5));
}

#[test]
fn webhook_is_found_by_name_and_token() {
    let source = source_named("author", "x");
    let hooks = vec![
        WebhookRecord { id: 1, name: Some("Message Cloner".to_owned()), token: None },
        WebhookRecord { id: 2, name: Some("Other".to_owned()), token: Some("t".to_owned()) },
        WebhookRecord { id: 3, name: Some("Message Cloner".to_owned()), token: Some("t".to_owned()) },
    ];
    assert_eq!(source.find_webhook(&hooks), Some(2));
    let mut without = hooks;
    without.pop();
    assert_eq!(source.find_webhook(&without), None);
}

#[test]
fn webhook_is_kept_once() {
    let mut source = source_named("author", "x");
    source.set_webhook(1, "a".to_owned());
    source.set_webhook(2, "b".to_owned());
    assert_eq!(source.webhook, Some((1, "a".to_owned())));
}

#[test]
fn exec_targets() {
    let mut source = source_named("author", "x");
    assert_eq!(source.exec_target(), Ok(ExecTarget::Channel));
    source.thread_info = Info::In(8);
    assert_eq!(source.exec_target(), Ok(ExecTarget::Thread(8)));
    source.thread_info = Info::CreatedPost(ThreadChannel {
        id: 9,
        kind: 11,
        parent_id: Some(40),
        name: Some("post".to_owned()),
    });
    assert_eq!(source.exec_target(), Ok(ExecTarget::NewPost("post".to_owned())));
    source.thread_info = Info::CreatedPost(ThreadChannel {
        id: 9,
        kind: 11,
        parent_id: Some(40),
        name: None,
    });
    assert_eq!(source.exec_target(), Err(Error::MissingThreadName));
}

#[test]
fn sticker_link_extensions() {
    assert_eq!(sticker_extension(1), Ok("png"));
    assert_eq!(sticker_extension(2), Ok("png"));
    assert_eq!(sticker_extension(4), Ok("gif"));
    assert_eq!(sticker_extension(3), Err(Error::StickerLinkInvalid));
}

#[test]
fn reference_previews() {
    assert_eq!(reference_preview("short"), "short...");
    let long = "x".repeat(120);
    assert_eq!(reference_preview(&long), format!("{}...", "x".repeat(97)));
    assert_eq!(unknown_reference(), "Unknown or deleted message");
}

#[test]
fn link_buttons_are_kept() {
    let shapes = vec![
        ComponentShape { is_action_row: true, is_link_button: false, children_link: vec![true, false, true] },
        ComponentShape { is_action_row: true, is_link_button: false, children_link: vec![false] },
        ComponentShape { is_action_row: false, is_link_button: true, children_link: vec![] },
    ];
    assert_eq!(
        filter_valid(&shapes),
        vec![
            KeptComponent { index: 0, children: vec![0, 2] },
            KeptComponent { index: 2, children: vec![] },
        ]
    );
    assert!(has_invalid_components(&shapes));
    let valid = vec![ComponentShape { is_action_row: true, is_link_button: false, children_link: vec![true] }];
    assert!(!has_invalid_components(&valid));
}
