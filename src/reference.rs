//! Describing the message a cloned reply refers to
//!
//! Webhook messages can't reply, so a clone of a reply carries an embed that
//! describes the message replied to.

use vstd::prelude::*;
use vstd::string::{StrSliceExecFns, StringExecFns};

verus! {

/// Characters of the referenced message's content shown in the embed
pub const PREVIEW_CHARS: usize = 97;

/// The description of a referenced message whose content is `content`
pub open spec fn preview_spec(content: Seq<char>) -> Seq<char> {
    content.take(
        if content.len() < PREVIEW_CHARS {
            content.len() as int
        } else {
            PREVIEW_CHARS as int
        },
    ) + "..."@
}

/// The description of a referenced message: the start of its content,
/// followed by "..."
pub fn reference_preview(content: &str) -> (r: String)
    ensures
        r@ == preview_spec(content@),
{
    let len = content.unicode_len();
    let end = if len < PREVIEW_CHARS {
        len
    } else {
        PREVIEW_CHARS
    };
    let mut r = content.substring_char(0, end).to_owned();
    r.append("...");
    r
}

/// The description of a referenced message that is unknown or deleted
pub fn unknown_reference() -> (r: String)
    ensures
        r@ == "Unknown or deleted message"@,
{
    "Unknown or deleted message".to_owned()
}

} // verus!
