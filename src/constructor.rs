//! Making a [`MessageSource`] from a [`MessageRecord`]

use vstd::prelude::*;

use crate::error::Error;
use crate::later_messages;
use crate::limits::{content_is_valid, content_length_max_spec};
use crate::message::{
    copy_reactions, has_flag, has_flag_exec, is_regular_or_reply, kind_is_regular_or_reply,
    opt_string_view, MessageRecord, MessageView, HAS_THREAD, IS_VOICE_MESSAGE,
};
use crate::thread;
use crate::MessageSource;

verus! {

/// Why a message can't be cloned, if it can't: the first of the checks of
/// [`MessageSource::from_message`] that fails
pub open spec fn rejection(m: MessageView) -> Option<Error> {
    if m.has_activity || m.has_application {
        Some(Error::RichPresence)
    } else if m.has_thread || m.id == m.channel_id || has_flag(m.flags, HAS_THREAD) {
        Some(Error::Thread)
    } else if has_flag(m.flags, IS_VOICE_MESSAGE) {
        Some(Error::Voice)
    } else if !is_regular_or_reply(m.kind) || m.has_role_subscription {
        Some(Error::System)
    } else if m.content.len() > content_length_max_spec() {
        Some(Error::ContentInvalid)
    } else if m.guild_id is None {
        Some(Error::NotInGuild)
    } else {
        None
    }
}

/// The name the message is cloned under: the author's nickname in the guild,
/// else their name
pub open spec fn username_of(m: MessageView) -> Seq<char> {
    match m.author_nick {
        Some(nick) => nick,
        None => m.author_name,
    }
}

impl MessageSource {
    /// Whether this is the source freshly made from message `m`
    pub open spec fn is_fresh_from(&self, m: MessageView) -> bool {
        &&& self.is_made_from(m)
        &&& self.channel_id == m.channel_id
        &&& self.thread_info is Unknown
    }

    /// Whether this source was made from message `m` and has not been used
    /// yet, whatever channel and thread it is sent to
    pub open spec fn is_made_from(&self, m: MessageView) -> bool {
        &&& self.source_id == m.id
        &&& self.source_channel_id == m.channel_id
        &&& self.source_thread_id is None
        &&& self.content@ == m.content
        &&& self.tts == m.tts
        &&& self.flags == m.flags
        &&& self.guild_id == m.guild_id
        &&& self.guild_emoji_ids is None
        &&& self.username@ == username_of(m)
        &&& self.webhook_name@ == "Message Cloner"@
        &&& self.has_sticker == m.has_sticker
        &&& self.has_attachment == m.has_attachment
        &&& self.has_invalid_component == m.has_invalid_component
        &&& self.reactions@ == m.reactions
        &&& self.later_messages.messages@.len() == 0
        &&& !self.later_messages.is_complete
        &&& !self.later_messages.is_source_created
        &&& !self.later_messages.is_later_message_sources_created
        &&& self.webhook is None
        &&& self.response is None
    }

    /// Create [`MessageSource`] from a [`MessageRecord`]
    ///
    /// # Errors
    ///
    /// Returns [`Error::RichPresence`] if the message is related to rich
    /// presence, which can't be recreated by bots
    ///
    /// Returns [`Error::Thread`] if the message has a thread or forum post
    /// created from it
    ///
    /// Returns [`Error::Voice`] if the message is a voice message, which bots
    /// currently can't create
    ///
    /// Returns [`Error::System`] if the message's type isn't a regular message
    /// or a reply, or has role subscription data
    ///
    /// Returns [`Error::ContentInvalid`] if the message's content is longer
    /// than the platform allows
    ///
    /// Returns [`Error::NotInGuild`] if the message is not in a guild
    pub fn from_message(message: &MessageRecord) -> (r: Result<MessageSource, Error>)
        ensures
            rejection(message@) matches Some(e) ==> r == Err::<MessageSource, Error>(e),
            rejection(message@) is None ==> (r matches Ok(s) && s.is_fresh_from(message@)),
    {
        if message.has_activity || message.has_application {
            return Err(Error::RichPresence);
        }
        if message.has_thread || message.id == message.channel_id || has_flag_exec(
            message.flags,
            HAS_THREAD,
        ) {
            return Err(Error::Thread);
        }
        if has_flag_exec(message.flags, IS_VOICE_MESSAGE) {
            return Err(Error::Voice);
        }
        if !kind_is_regular_or_reply(message.kind) || message.has_role_subscription {
            return Err(Error::System);
        }
        if !content_is_valid(message.content.as_str()) {
            return Err(Error::ContentInvalid);
        }
        if message.guild_id.is_none() {
            return Err(Error::NotInGuild);
        }
        Ok(MessageSource::fresh(message))
    }

    /// The source freshly made from `message`, without checking it
    pub(crate) fn fresh(message: &MessageRecord) -> (r: MessageSource)
        ensures
            r.is_fresh_from(message@),
    {
        let username = match &message.author_nick {
            Some(nick) => nick.clone(),
            None => message.author_name.clone(),
        };
        MessageSource {
            source_id: message.id,
            source_channel_id: message.channel_id,
            source_thread_id: None,
            content: message.content.clone(),
            tts: message.tts,
            flags: message.flags,
            channel_id: message.channel_id,
            guild_id: message.guild_id,
            guild_emoji_ids: None,
            username,
            webhook_name: "Message Cloner".to_owned(),
            has_sticker: message.has_sticker,
            has_attachment: message.has_attachment,
            has_invalid_component: message.has_invalid_component,
            reactions: copy_reactions(&message.reactions),
            thread_info: thread::Info::Unknown,
            later_messages: later_messages::Info::new(),
            webhook: None,
            response: None,
        }
    }

    /// Check that the message has no sticker
    ///
    /// # Errors
    ///
    /// Returns [`Error::Sticker`] if the message has a sticker
    pub fn check_sticker(&self) -> (r: Result<(), Error>)
        ensures
            r == (if self.has_sticker {
                Err::<(), Error>(Error::Sticker)
            } else {
                Ok(())
            }),
    {
        if self.has_sticker {
            return Err(Error::Sticker);
        }
        Ok(())
    }

    /// Check that the message has no attachment
    ///
    /// # Errors
    ///
    /// Returns [`Error::Attachment`] if the message has an attachment
    pub fn check_attachment(&self) -> (r: Result<(), Error>)
        ensures
            r == (if self.has_attachment {
                Err::<(), Error>(Error::Attachment)
            } else {
                Ok(())
            }),
    {
        if self.has_attachment {
            return Err(Error::Attachment);
        }
        Ok(())
    }

    /// Check that the message has no component other than a link button
    ///
    /// # Errors
    ///
    /// Returns [`Error::Component`] if the message has such a component
    pub fn check_component(&self) -> (r: Result<(), Error>)
        ensures
            r == (if self.has_invalid_component {
                Err::<(), Error>(Error::Component)
            } else {
                Ok(())
            }),
    {
        if self.has_invalid_component {
            return Err(Error::Component);
        }
        Ok(())
    }
}

} // verus!
