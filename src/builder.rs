//! Settings for making [`crate::MessageSource`]s

use vstd::prelude::*;

use crate::error::Error;
use crate::limits::{content_is_valid, content_length_max_spec};
use crate::message::{
    has_flag, has_flag_exec, is_regular_or_reply, kind_is_regular_or_reply, MessageRecord,
    MessageView, HAS_THREAD, IS_VOICE_MESSAGE,
};
use crate::thread;
use crate::username::{is_reserved, len_in_bounds};
use crate::MessageSource;

verus! {

/// Defines how to clone messages
#[derive(Debug, Clone, Copy, PartialEq, Eq, Structural)]
pub struct MessageSourceBuilder {
    /// See [`MessageSourceBuilder::ignore_threads`]
    pub ignore_threads: bool,
}

impl MessageSourceBuilder {
    /// Create a new, default builder
    pub fn new() -> (r: MessageSourceBuilder)
        ensures
            !r.ignore_threads,
    {
        MessageSourceBuilder { ignore_threads: false }
    }

    /// Don't handle the case of messages being in a thread
    ///
    /// When set and the message is in a thread, a few invalid requests will
    /// be made, so it's not recommended to set this unless the message is
    /// known not to be in a thread
    pub fn ignore_threads(self) -> (r: MessageSourceBuilder)
        ensures
            r.ignore_threads,
    {
        MessageSourceBuilder { ignore_threads: true }
    }
}

/// Why the builder refuses message `m`, if it does: the first of its checks
/// that fails
pub open spec fn build_rejection(m: MessageView) -> Option<Error> {
    if m.has_activity || m.has_application {
        Some(Error::RichPresence)
    } else if m.has_attachment {
        Some(Error::Attachment)
    } else if m.has_component {
        Some(Error::Component)
    } else if m.reactions.len() > 0 {
        Some(Error::Reaction)
    } else if m.has_sticker {
        Some(Error::Sticker)
    } else if m.has_thread || has_flag(m.flags, HAS_THREAD) {
        Some(Error::Thread)
    } else if has_flag(m.flags, IS_VOICE_MESSAGE) {
        Some(Error::Voice)
    } else if !is_regular_or_reply(m.kind) || m.has_role_subscription {
        Some(Error::System)
    } else if m.content.len() > content_length_max_spec() {
        Some(Error::ContentInvalid)
    } else if !len_in_bounds(m.author_name.len()) || is_reserved(m.author_name) {
        Some(Error::UsernameInvalid)
    } else {
        None
    }
}

impl MessageSourceBuilder {
    /// Create [`MessageSource`] from a [`MessageRecord`], refusing what can't
    /// be cloned faithfully
    ///
    /// With [`MessageSourceBuilder::ignore_threads`] set, the source is taken
    /// not to be in a thread and no thread is looked up.
    ///
    /// # Errors
    ///
    /// Returns [`Error::RichPresence`] if the message is related to rich
    /// presence; [`Error::Attachment`], [`Error::Component`],
    /// [`Error::Reaction`] or [`Error::Sticker`] if the message has one of
    /// those; [`Error::Thread`] if a thread was started from it;
    /// [`Error::Voice`] for a voice message; [`Error::System`] for a message
    /// that is no regular message or reply, or has role subscription data;
    /// [`Error::ContentInvalid`] if its content is too long; and
    /// [`Error::UsernameInvalid`] if the author's name is no valid webhook
    /// username
    pub fn build_from_message(self, message: &MessageRecord) -> (r: Result<MessageSource, Error>)
        ensures
            build_rejection(message@) matches Some(e) ==> r == Err::<MessageSource, Error>(e),
            build_rejection(message@) is None ==> (r matches Ok(s) && s.is_made_from(message@)
                && s.channel_id == message.channel_id && (self.ignore_threads ==> s.thread_info is NotIn)
                && (!self.ignore_threads ==> s.thread_info is Unknown)),
    {
        if message.has_activity || message.has_application {
            return Err(Error::RichPresence);
        }
        if message.has_attachment {
            return Err(Error::Attachment);
        }
        if message.has_component {
            return Err(Error::Component);
        }
        if message.reactions.len() > 0 {
            return Err(Error::Reaction);
        }
        if message.has_sticker {
            return Err(Error::Sticker);
        }
        if message.has_thread || has_flag_exec(message.flags, HAS_THREAD) {
            return Err(Error::Thread);
        }
        if has_flag_exec(message.flags, IS_VOICE_MESSAGE) {
            return Err(Error::Voice);
        }
        if !kind_is_regular_or_reply(message.kind) || message.has_role_subscription {
            return Err(Error::System);
        }
        if !content_is_valid(message.content.as_str()) {
            return Err(Error::ContentInvalid);
        }
        if crate::username::validate_webhook_username(message.author_name.as_str()).is_some() {
            return Err(Error::UsernameInvalid);
        }
        let mut source = MessageSource::fresh(message);
        if self.ignore_threads {
            source.thread_info = thread::Info::NotIn;
        }
        Ok(source)
    }
}

} // verus!
