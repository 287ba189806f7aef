//! Clones a chat message, and the run of messages sent after it, into
//! another place while keeping their order, authors and content.
//!
//! The library holds the decisions of the cloning engine: where a message is
//! sent to when it sits in a thread, how the later messages are discovered
//! page by page, how messages of one author are merged, how rate-limited
//! executions are retried and how cloned messages are grouped for deletion.
//! The network calls themselves are made by the caller, which hands the
//! results back as plain values.

use vstd::prelude::*;

pub mod attachment;
pub mod avatar;
pub mod builder;
pub mod component;
pub mod constructor;
pub mod delete;
pub mod error;
pub mod later_messages;
pub mod limits;
pub mod message;
pub mod reaction;
pub mod reference;
pub mod retry;
pub mod run;
pub mod snowflake;
pub mod username;
pub mod webhook;
pub mod thread;

pub use crate::builder::MessageSourceBuilder;
pub use crate::error::Error;
pub use crate::message::MessageRecord;
pub use crate::reaction::CheckBehavior;

use crate::message::Reaction;

verus! {

/// A message that can be cloned
///
/// Fields starting with `source` describe the message cloned from; the others
/// describe the message to create, and may be changed before it is created,
/// for example to clone it to another channel.
#[derive(Debug)]
pub struct MessageSource {
    /// Source message's ID
    pub source_id: u64,
    /// ID of the channel the source message is in
    pub source_channel_id: u64,
    /// ID of the thread the source message is in
    pub source_thread_id: Option<u64>,
    /// Content of the message
    pub content: String,
    /// Whether the message has text-to-speech enabled
    pub tts: bool,
    /// Flags of the message, as the platform's bits
    pub flags: Option<u64>,
    /// ID of the channel the message is sent to
    ///
    /// If the message is in a thread, this is the thread's parent
    pub channel_id: u64,
    /// ID of the guild the message is in, if known
    pub guild_id: Option<u64>,
    /// Emoji IDs of the guild the message is in
    ///
    /// `None` if they have never been needed
    pub guild_emoji_ids: Option<Vec<u64>>,
    /// Username to create the message with
    pub username: String,
    /// Name of the webhook used to create the message
    pub webhook_name: String,
    /// Whether the source message has a sticker
    pub has_sticker: bool,
    /// Whether the source message has an attachment
    pub has_attachment: bool,
    /// Whether the source message has a component other than a link button
    pub has_invalid_component: bool,
    /// Reactions on the source message
    pub reactions: Vec<Reaction>,
    /// Info about the message's thread
    pub thread_info: thread::Info,
    /// Messages sent after the source
    pub later_messages: later_messages::Info,
    /// Webhook ID and token to execute to clone messages with
    pub webhook: Option<(u64, String)>,
    /// ID of the cloned message
    ///
    /// `None` until the message is created
    pub response: Option<u64>,
}

impl MessageSource {
    /// Set the name of the webhook to use for creating messages
    ///
    /// Defaults to *Message Cloner* if not called
    pub fn webhook_name(self, name: String) -> (r: MessageSource)
        ensures
            r.webhook_name == name,
            r == (MessageSource { webhook_name: name, ..self }),
    {
        let mut s = self;
        s.webhook_name = name;
        s
    }

    /// Records that the message was cloned as the message `message_id`
    pub fn record_created(&mut self, message_id: u64)
        ensures
            *final(self) == (MessageSource {
                response: Some(message_id),
                later_messages: later_messages::Info {
                    is_source_created: true,
                    ..old(self).later_messages
                },
                ..*old(self)
            }),
    {
        self.response = Some(message_id);
        self.later_messages.is_source_created = true;
    }
}

} // verus!
