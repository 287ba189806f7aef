//! Limits of the chat platform, as the validation crate states them

use vstd::prelude::*;

verus! {

/// Maximum number of characters in a message's content
pub open spec fn content_length_max_spec() -> nat {
    2000
}

/// Maximum number of messages in one bulk delete request
pub open spec fn bulk_delete_max_spec() -> nat {
    100
}

/// Relies on `twilight_validate::message::MESSAGE_CONTENT_LENGTH_MAX`, the
/// ceiling on a message's content in characters.
#[verifier::external_body]
pub(crate) fn content_length_max() -> (r: usize)
    ensures
        r == content_length_max_spec(),
{
    twilight_validate::message::MESSAGE_CONTENT_LENGTH_MAX
}

/// Relies on `twilight_validate::channel::CHANNEL_BULK_DELETE_MESSAGES_MAX`,
/// the most messages one bulk delete request takes.
#[verifier::external_body]
pub(crate) fn bulk_delete_max() -> (r: usize)
    ensures
        r == bulk_delete_max_spec(),
{
    twilight_validate::channel::CHANNEL_BULK_DELETE_MESSAGES_MAX
}

/// Relies on `twilight_validate::message::content`, which accepts a content
/// of at most `MESSAGE_CONTENT_LENGTH_MAX` characters.
#[verifier::external_body]
pub(crate) fn content_is_valid(content: &str) -> (r: bool)
    ensures
        r == (content@.len() <= content_length_max_spec()),
{
    twilight_validate::message::content(content).is_ok()
}

} // verus!
