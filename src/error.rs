//! The error type of the library

use vstd::prelude::*;

verus! {

/// Why a message could not be cloned, discovered, resent or deleted
#[derive(Debug, Clone, Copy, PartialEq, Eq, Structural)]
pub enum Error {
    /// Message is not in a guild
    NotInGuild,
    /// Message is related to rich presence
    RichPresence,
    /// Message has a thread or a forum post created from it
    Thread,
    /// Message is a voice message
    Voice,
    /// Message is a system message
    System,
    /// Message has a non-URL component
    Component,
    /// Message has a sticker
    Sticker,
    /// Sticker in message can't be linked to
    StickerLinkInvalid,
    /// Message has an attachment
    Attachment,
    /// Message has a reaction
    Reaction,
    /// Message has more reaction emojis than the limit
    ReactionAboveLimit(u8),
    /// Message has a reaction emoji with count higher than one
    ReactionCountMultiple,
    /// Message has a reaction emoji that's not unicode
    ReactionCustom,
    /// Message has an external reaction emoji
    ReactionExternal,
    /// Message's content is longer than the platform allows
    ContentInvalid,
    /// Name of the message's author is not a valid webhook username
    UsernameInvalid,
    /// Message is not in the last `n` messages of its channel
    SourceAboveLimit(u16),
    /// Message has not been created yet
    NotCreated,
    /// Deleting the messages would use more than `n` requests
    DeleteRequestCountAboveLimit(u16),
    /// A thread has no parent channel
    MissingParent,
    /// A forum post to clone into has no name
    MissingThreadName,
    /// The age boundary of a deletion can't be represented in milliseconds
    /// since the Unix epoch
    ClockUnrepresentable,
    /// The platform rate-limited the request, and the retries ran out
    RateLimited,
    /// A request failed for another reason than a rate limit
    Network,
}

} // verus!
