//! Handling the author's name not being a valid webhook username
//!
//! Usernames and nicknames don't have the same requirements as webhook
//! usernames, so a name may have to be fixed before the message is cloned.

use vstd::prelude::*;
use vstd::string::{StrSliceExecFns, StringExecFns};

use crate::MessageSource;

verus! {

/// Fewest characters in a webhook username
pub const WEBHOOK_USERNAME_LIMIT_MIN: usize = 2;

/// Most characters in a webhook username
pub const WEBHOOK_USERNAME_LIMIT_MAX: usize = 80;

/// Why a webhook username is invalid
#[derive(Debug, Clone, Copy, PartialEq, Eq, Structural)]
pub struct UsernameError {
    /// The username's length in characters, if it is out of bounds
    pub len: Option<usize>,
    /// Whether the username is a name the platform reserves
    pub substring: bool,
}

/// Whether `name` is a name the platform reserves for itself
pub open spec fn is_reserved(name: Seq<char>) -> bool {
    name == "clyde"@
}

/// Whether the length of a username is within the platform's bounds
pub open spec fn len_in_bounds(len: nat) -> bool {
    WEBHOOK_USERNAME_LIMIT_MIN <= len <= WEBHOOK_USERNAME_LIMIT_MAX
}

/// What checking username `name` finds wrong with it
pub open spec fn username_error(name: Seq<char>) -> UsernameError {
    UsernameError {
        len: if len_in_bounds(name.len()) {
            None
        } else {
            Some(name.len() as usize)
        },
        substring: is_reserved(name),
    }
}

/// Relies on `twilight_validate::request::webhook_username`, which accepts
/// 2 to 80 characters other than exactly `"clyde"`, and otherwise reports
/// the out-of-bounds length and the reserved name it found.
#[verifier::external_body]
pub(crate) fn validate_webhook_username(name: &str) -> (r: Option<UsernameError>)
    ensures
        len_in_bounds(name@.len()) && !is_reserved(name@) ==> r is None,
        !(len_in_bounds(name@.len()) && !is_reserved(name@)) ==> r == Some(username_error(name@)),
{
    match twilight_validate::request::webhook_username(name) {
        Ok(()) => None,
        Err(e) => match e.into_parts().0 {
            twilight_validate::request::ValidationErrorType::WebhookUsername { len, substring } => {
                Some(UsernameError { len, substring: substring.is_some() })
            },
            _ => None,
        },
    }
}

/// The username after [`MessageSource::sanitize_username`]
pub open spec fn sanitized(name: Seq<char>, append: Seq<char>, replace: Seq<char>) -> Seq<char> {
    if is_reserved(name) {
        replace
    } else if name.len() < WEBHOOK_USERNAME_LIMIT_MIN {
        name + append
    } else if name.len() > WEBHOOK_USERNAME_LIMIT_MAX {
        name.take(WEBHOOK_USERNAME_LIMIT_MAX - 3) + "..."@
    } else {
        name
    }
}

impl MessageSource {
    /// Check that the author's username is a valid webhook username
    ///
    /// # Errors
    ///
    /// Returns what is wrong with the username if it is invalid
    pub fn check_username(&self) -> (r: Result<(), UsernameError>)
        ensures
            len_in_bounds(self.username@.len()) && !is_reserved(self.username@) ==> r == Ok::<
                (),
                UsernameError,
            >(()),
            !(len_in_bounds(self.username@.len()) && !is_reserved(self.username@)) ==> r
                == Err::<(), UsernameError>(username_error(self.username@)),
    {
        match validate_webhook_username(self.username.as_str()) {
            Some(e) => Err(e),
            None => Ok(()),
        }
    }

    /// Sanitize the username if it's invalid
    ///
    /// A username shorter than the minimum gets `append` appended, a longer
    /// one than the maximum is cut and ends with "...", and a reserved one is
    /// replaced by `replace`.
    pub fn sanitize_username(self, append: &str, replace: &str) -> (r: MessageSource)
        ensures
            r.username@ == sanitized(self.username@, append@, replace@),
            r == (MessageSource { username: r.username, ..self }),
    {
        proof {
            reveal_strlit("clyde");
        }
        let mut s = self;
        let ghost old_name = s.username@;
        if let Err(e) = s.check_username() {
            if e.len.is_some() {
                let len = s.username.as_str().unicode_len();
                if len < WEBHOOK_USERNAME_LIMIT_MIN {
                    s.username.append(append);
                }
                if len > WEBHOOK_USERNAME_LIMIT_MAX {
                    let mut cut = s.username.as_str().substring_char(
                        0,
                        WEBHOOK_USERNAME_LIMIT_MAX - 3,
                    ).to_owned();
                    proof {
                        reveal_strlit("...");
                    }
                    cut.append("...");
                    assert(cut@ =~= old_name.take(WEBHOOK_USERNAME_LIMIT_MAX - 3) + "..."@);
                    s.username = cut;
                }
            }
            if e.substring {
                s.username = replace.to_owned();
            }
            assert(s.username@ =~= sanitized(old_name, append@, replace@));
        }
        s
    }
}

} // verus!
