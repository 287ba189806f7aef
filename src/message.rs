//! The snapshot of a chat message that cloning reads

use vstd::prelude::*;

verus! {

/// A reaction on a message
#[derive(Debug, Clone, Copy, PartialEq, Eq, Structural)]
pub struct Reaction {
    /// ID of the custom emoji, `None` for a unicode emoji
    pub emoji_id: Option<u64>,
    /// How many users reacted with the emoji
    pub count: u64,
}

/// A chat message as cloning reads it, with identifiers as plain integers
#[derive(Debug)]
pub struct MessageRecord {
    /// Message's ID
    pub id: u64,
    /// ID of the channel the message is in
    pub channel_id: u64,
    /// ID of the guild the message is in, if known
    pub guild_id: Option<u64>,
    /// ID of the message's author
    pub author_id: u64,
    /// Name of the message's author
    pub author_name: String,
    /// Nickname of the author in the guild, if any
    pub author_nick: Option<String>,
    /// Content of the message
    pub content: String,
    /// Type of the message, as the platform numbers it
    pub kind: u8,
    /// Flags of the message, as the platform's bits
    pub flags: Option<u64>,
    /// Whether the message is related to rich presence activity
    pub has_activity: bool,
    /// Whether the message is related to a rich presence application
    pub has_application: bool,
    /// Whether the message carries the thread created from it
    pub has_thread: bool,
    /// Whether the message has role subscription data
    pub has_role_subscription: bool,
    /// Whether the message has text-to-speech enabled
    pub tts: bool,
    /// Whether the message has a sticker
    pub has_sticker: bool,
    /// Whether the message has an attachment
    pub has_attachment: bool,
    /// Whether the message has any component
    pub has_component: bool,
    /// Whether the message has a component other than a link button
    pub has_invalid_component: bool,
    /// Reactions on the message
    pub reactions: Vec<Reaction>,
}

/// What a [`MessageRecord`] holds, with its strings as sequences of characters
pub struct MessageView {
    pub id: u64,
    pub channel_id: u64,
    pub guild_id: Option<u64>,
    pub author_id: u64,
    pub author_name: Seq<char>,
    pub author_nick: Option<Seq<char>>,
    pub content: Seq<char>,
    pub kind: u8,
    pub flags: Option<u64>,
    pub has_activity: bool,
    pub has_application: bool,
    pub has_thread: bool,
    pub has_role_subscription: bool,
    pub tts: bool,
    pub has_sticker: bool,
    pub has_attachment: bool,
    pub has_component: bool,
    pub has_invalid_component: bool,
    pub reactions: Seq<Reaction>,
}

/// The view of an optional string
pub open spec fn opt_string_view(s: Option<String>) -> Option<Seq<char>> {
    match s {
        Some(s) => Some(s@),
        None => None,
    }
}

impl View for MessageRecord {
    type V = MessageView;

    open spec fn view(&self) -> MessageView {
        MessageView {
            id: self.id,
            channel_id: self.channel_id,
            guild_id: self.guild_id,
            author_id: self.author_id,
            author_name: self.author_name@,
            author_nick: opt_string_view(self.author_nick),
            content: self.content@,
            kind: self.kind,
            flags: self.flags,
            has_activity: self.has_activity,
            has_application: self.has_application,
            has_thread: self.has_thread,
            has_role_subscription: self.has_role_subscription,
            tts: self.tts,
            has_sticker: self.has_sticker,
            has_attachment: self.has_attachment,
            has_component: self.has_component,
            has_invalid_component: self.has_invalid_component,
            reactions: self.reactions@,
        }
    }
}

/// The views of a sequence of messages
pub open spec fn views(s: Seq<MessageRecord>) -> Seq<MessageView> {
    s.map_values(|m: MessageRecord| m@)
}

fn copy_opt_string(s: &Option<String>) -> (r: Option<String>)
    ensures
        opt_string_view(r) == opt_string_view(*s),
{
    match s {
        Some(s) => Some(s.clone()),
        None => None,
    }
}

/// A copy of the reactions
pub fn copy_reactions(reactions: &Vec<Reaction>) -> (r: Vec<Reaction>)
    ensures
        r@ == reactions@,
{
    let mut r: Vec<Reaction> = Vec::new();
    let mut i: usize = 0;
    while i < reactions.len()
        invariant
            i <= reactions.len(),
            r@ == reactions@.take(i as int),
        decreases reactions.len() - i,
    {
        r.push(reactions[i]);
        i = i + 1;
        assert(r@ =~= reactions@.take(i as int));
    }
    assert(reactions@.take(reactions.len() as int) =~= reactions@);
    r
}

/// Flag of a message that a thread was started from
pub const HAS_THREAD: u64 = 32;

/// Flag of a voice message
pub const IS_VOICE_MESSAGE: u64 = 8192;

/// Whether the optional flags hold `flag`
pub open spec fn has_flag(flags: Option<u64>, flag: u64) -> bool {
    flags matches Some(f) && f & flag == flag
}

/// Relies on `MessageFlags::contains` of `twilight_model`, on flags built
/// with `MessageFlags::from_bits_truncate`, which keeps `HAS_THREAD`
/// (`1 << 5`) and `IS_VOICE_MESSAGE` (`1 << 13`).
#[verifier::external_body]
fn flags_contain(flags: u64, flag: u64) -> (r: bool)
    requires
        flag == HAS_THREAD || flag == IS_VOICE_MESSAGE,
    ensures
        r == (flags & flag == flag),
{
    twilight_model::channel::message::MessageFlags::from_bits_truncate(flags).contains(
        twilight_model::channel::message::MessageFlags::from_bits_truncate(flag),
    )
}

/// Whether the optional flags hold `flag`
pub fn has_flag_exec(flags: Option<u64>, flag: u64) -> (r: bool)
    requires
        flag == HAS_THREAD || flag == IS_VOICE_MESSAGE,
    ensures
        r == has_flag(flags, flag),
{
    match flags {
        Some(f) => flags_contain(f, flag),
        None => false,
    }
}

/// Whether message type `kind` is a regular message or a reply, numbered 0
/// and 19 by the platform
pub open spec fn is_regular_or_reply(kind: u8) -> bool {
    kind == 0 || kind == 19
}

/// Relies on `MessageType::from(u8)` of `twilight_model`, which maps 0 to
/// `MessageType::Regular`, 19 to `MessageType::Reply` and no other number to
/// either.
#[verifier::external_body]
pub(crate) fn kind_is_regular_or_reply(kind: u8) -> (r: bool)
    ensures
        r == is_regular_or_reply(kind),
{
    matches!(
        twilight_model::channel::message::MessageType::from(kind),
        twilight_model::channel::message::MessageType::Regular
            | twilight_model::channel::message::MessageType::Reply
    )
}

impl MessageRecord {
    /// A copy of the message
    pub fn duplicate(&self) -> (r: MessageRecord)
        ensures
            r@ == self@,
    {
        MessageRecord {
            id: self.id,
            channel_id: self.channel_id,
            guild_id: self.guild_id,
            author_id: self.author_id,
            author_name: self.author_name.clone(),
            author_nick: copy_opt_string(&self.author_nick),
            content: self.content.clone(),
            kind: self.kind,
            flags: self.flags,
            has_activity: self.has_activity,
            has_application: self.has_application,
            has_thread: self.has_thread,
            has_role_subscription: self.has_role_subscription,
            tts: self.tts,
            has_sticker: self.has_sticker,
            has_attachment: self.has_attachment,
            has_component: self.has_component,
            has_invalid_component: self.has_invalid_component,
            reactions: copy_reactions(&self.reactions),
        }
    }
}

} // verus!
