//! Handling the message to clone being in a thread
//!
//! Whether the source message sits in a thread is learned from the platform:
//! [`MessageSource::thread_lookup`] names the channel to fetch, and the
//! caller hands the fetched channel to [`MessageSource::handle_thread`].

use vstd::prelude::*;

use crate::error::Error;
use crate::message::opt_string_view;
use crate::MessageSource;

verus! {

/// Type of a forum channel, as the platform numbers channel types
pub const GUILD_FORUM: u8 = 15;

/// Whether channel type `kind` is one of the thread types
pub open spec fn is_thread_kind(kind: u8) -> bool {
    kind == 10 || kind == 11 || kind == 12
}

/// Relies on `twilight_model::channel::ChannelType::is_thread`, true of the
/// announcement, public and private thread types, numbered 10, 11 and 12 by
/// `ChannelType::from(u8)`.
#[verifier::external_body]
fn channel_kind_is_thread(kind: u8) -> (r: bool)
    ensures
        r == is_thread_kind(kind),
{
    twilight_model::channel::ChannelType::from(kind).is_thread()
}

/// Relies on `ChannelType::from(u8)` of `twilight_model`, which maps 15 and
/// nothing else to `ChannelType::GuildForum`.
#[verifier::external_body]
fn channel_kind_is_forum(kind: u8) -> (r: bool)
    ensures
        r == (kind == GUILD_FORUM),
{
    twilight_model::channel::ChannelType::from(kind)
        == twilight_model::channel::ChannelType::GuildForum
}

/// A channel as thread handling reads it
#[derive(Debug)]
pub struct ThreadChannel {
    /// Channel's ID
    pub id: u64,
    /// Type of the channel, as the platform numbers channel types
    pub kind: u8,
    /// ID of the channel's parent, if any
    pub parent_id: Option<u64>,
    /// Name of the channel, if any
    pub name: Option<String>,
}

/// What a [`ThreadChannel`] holds, with its name as a sequence of characters
pub struct ThreadChannelView {
    pub id: u64,
    pub kind: u8,
    pub parent_id: Option<u64>,
    pub name: Option<Seq<char>>,
}

impl View for ThreadChannel {
    type V = ThreadChannelView;

    open spec fn view(&self) -> ThreadChannelView {
        ThreadChannelView {
            id: self.id,
            kind: self.kind,
            parent_id: self.parent_id,
            name: opt_string_view(self.name),
        }
    }
}

impl ThreadChannel {
    /// A copy of the channel
    pub fn duplicate(&self) -> (r: ThreadChannel)
        ensures
            r@ == self@,
    {
        ThreadChannel {
            id: self.id,
            kind: self.kind,
            parent_id: self.parent_id,
            name: match &self.name {
                Some(name) => Some(name.clone()),
                None => None,
            },
        }
    }
}

/// Thread [`MessageSource`] is in
#[derive(Debug)]
pub enum Info {
    /// Message is in a thread, but the thread hasn't been created from the
    /// message
    ///
    /// Wrapped value is the thread's ID
    In(u64),
    /// A non-post thread has been created from the message
    Created(ThreadChannel),
    /// A post in a forum channel has been created from the message
    CreatedPost(ThreadChannel),
    /// A thread has been created from the message, but it's not known whether
    /// it's a forum channel post or not
    CreatedUnknown(ThreadChannel),
    /// The message is not in a thread
    NotIn,
    /// Thread info hasn't been checked
    Unknown,
}

/// What an [`Info`] holds, with its channels as views
pub enum InfoView {
    In(u64),
    Created(ThreadChannelView),
    CreatedPost(ThreadChannelView),
    CreatedUnknown(ThreadChannelView),
    NotIn,
    Unknown,
}

impl View for Info {
    type V = InfoView;

    open spec fn view(&self) -> InfoView {
        match self {
            Info::In(id) => InfoView::In(*id),
            Info::Created(t) => InfoView::Created(t@),
            Info::CreatedPost(t) => InfoView::CreatedPost(t@),
            Info::CreatedUnknown(t) => InfoView::CreatedUnknown(t@),
            Info::NotIn => InfoView::NotIn,
            Info::Unknown => InfoView::Unknown,
        }
    }
}

impl Info {
    /// Whether the thread still has to be resolved
    pub open spec fn is_unresolved(&self) -> bool {
        self is Unknown || self is CreatedUnknown
    }

    /// ID of the thread, if the message is in one
    pub open spec fn id_spec(&self) -> Option<u64> {
        match self {
            Info::In(id) => Some(*id),
            Info::Created(t) => Some(t.id),
            Info::CreatedPost(t) => Some(t.id),
            Info::CreatedUnknown(t) => Some(t.id),
            _ => None,
        }
    }

    /// ID of the thread, if the message is in one
    pub fn id(&self) -> (r: Option<u64>)
        ensures
            r == self.id_spec(),
    {
        match self {
            Info::In(id) => Some(*id),
            Info::Created(thread) => Some(thread.id),
            Info::CreatedPost(thread) => Some(thread.id),
            Info::CreatedUnknown(thread) => Some(thread.id),
            _ => None,
        }
    }

    /// A copy of the thread info
    pub fn duplicate(&self) -> (r: Info)
        ensures
            r@ == self@,
            r.id_spec() == self.id_spec(),
    {
        match self {
            Info::In(id) => Info::In(*id),
            Info::Created(thread) => Info::Created(thread.duplicate()),
            Info::CreatedPost(thread) => Info::CreatedPost(thread.duplicate()),
            Info::CreatedUnknown(thread) => Info::CreatedUnknown(thread.duplicate()),
            Info::NotIn => Info::NotIn,
            Info::Unknown => Info::Unknown,
        }
    }
}

/// The thread a message's thread info ends up at
pub open spec fn thread_of(info: Info) -> Option<ThreadChannel> {
    match info {
        Info::Created(t) => Some(t),
        Info::CreatedPost(t) => Some(t),
        Info::CreatedUnknown(t) => Some(t),
        _ => None,
    }
}

impl MessageSource {
    /// The channel to fetch before [`MessageSource::handle_thread`], if any
    ///
    /// Only an unchecked thread info needs a channel to be fetched; once the
    /// thread is resolved, nothing more is looked up.
    pub fn thread_lookup(&self) -> (r: Option<u64>)
        ensures
            self.thread_info is Unknown ==> r == Some(self.channel_id),
            !(self.thread_info is Unknown) ==> r is None,
    {
        match self.thread_info {
            Info::Unknown => Some(self.channel_id),
            _ => None,
        }
    }

    /// Resolves the thread the message is in, with `fetched` the channel that
    /// [`MessageSource::thread_lookup`] named
    ///
    /// A channel that is no thread resolves to [`Info::NotIn`]. Otherwise the
    /// message is sent to the thread's parent; a thread created from the
    /// message itself (the two share their ID) is kept as
    /// [`Info::CreatedUnknown`], and the result names the parent channel,
    /// whose type [`MessageSource::handle_thread_parent`] then takes. Any
    /// other thread resolves to [`Info::In`]. A thread info that is resolved
    /// already is left as it is, and nothing is to be fetched.
    ///
    /// # Errors
    ///
    /// Returns [`Error::MissingParent`] if the thread has no parent, leaving
    /// the source unchanged
    pub fn handle_thread(&mut self, fetched: Option<ThreadChannel>) -> (r: Result<Option<u64>, Error>)
        ensures
            !old(self).thread_info.is_unresolved() ==> r == Ok::<Option<u64>, Error>(None)
                && *final(self) == *old(self),
            old(self).thread_info is Unknown && fetched is None ==> r == Ok::<
                Option<u64>,
                Error,
            >(None) && *final(self) == *old(self),
            ({
                let t = if old(self).thread_info is CreatedUnknown {
                    thread_of(old(self).thread_info)
                } else {
                    fetched
                };
                old(self).thread_info.is_unresolved() && t is Some ==> {
                    let t = t.unwrap();
                    &&& !is_thread_kind(t.kind) ==> r == Ok::<Option<u64>, Error>(None)
                        && final(self).thread_info is NotIn && final(self).channel_id == old(
                        self,
                    ).channel_id && final(self).source_thread_id == old(self).source_thread_id
                    &&& is_thread_kind(t.kind) && t.parent_id is None ==> r == Err::<
                        Option<u64>,
                        Error,
                    >(Error::MissingParent) && *final(self) == *old(self)
                    &&& is_thread_kind(t.kind) && t.parent_id is Some ==> {
                        &&& final(self).channel_id == t.parent_id.unwrap()
                        &&& final(self).source_thread_id == Some(t.id)
                        &&& final(self).thread_info.id_spec() == Some(t.id)
                        &&& old(self).source_id == t.id ==> final(self).thread_info@
                            == InfoView::CreatedUnknown(t@) && r == Ok::<Option<u64>, Error>(
                            t.parent_id,
                        )
                        &&& old(self).source_id != t.id ==> final(self).thread_info == Info::In(
                            t.id,
                        ) && r == Ok::<Option<u64>, Error>(None)
                    }
                }
            }),
            *final(self) == (MessageSource {
                channel_id: final(self).channel_id,
                source_thread_id: final(self).source_thread_id,
                thread_info: final(self).thread_info,
                ..*old(self)
            }),
    {
        if !matches!(self.thread_info, Info::Unknown | Info::CreatedUnknown(_)) {
            return Ok(None);
        }
        let thread = match &self.thread_info {
            Info::CreatedUnknown(thread) => thread.duplicate(),
            _ => match fetched {
                Some(thread) => thread,
                None => {
                    return Ok(None);
                },
            },
        };
        if !channel_kind_is_thread(thread.kind) {
            self.thread_info = Info::NotIn;
            return Ok(None);
        }
        let parent_id = match thread.parent_id {
            Some(parent_id) => parent_id,
            None => {
                return Err(Error::MissingParent);
            },
        };
        self.channel_id = parent_id;
        self.source_thread_id = Some(thread.id);
        if self.source_id == thread.id {
            self.thread_info = Info::CreatedUnknown(thread);
            Ok(Some(parent_id))
        } else {
            self.thread_info = Info::In(thread.id);
            Ok(None)
        }
    }

    /// Tells a thread created from the message apart by the type of its
    /// parent channel: a post when the parent is a forum, a thread otherwise
    pub fn handle_thread_parent(&mut self, parent_kind: u8)
        ensures
            old(self).thread_info matches Info::CreatedUnknown(t) ==> final(self).thread_info@
                == if parent_kind == GUILD_FORUM {
                InfoView::CreatedPost(t@)
            } else {
                InfoView::Created(t@)
            },
            final(self).thread_info.id_spec() == old(self).thread_info.id_spec(),
            !(old(self).thread_info is CreatedUnknown) ==> *final(self) == *old(self),
            *final(self) == (MessageSource { thread_info: final(self).thread_info, ..*old(self) }),
    {
        if let Info::CreatedUnknown(thread) = &self.thread_info {
            let thread = thread.duplicate();
            if channel_kind_is_forum(parent_kind) {
                self.thread_info = Info::CreatedPost(thread);
            } else {
                self.thread_info = Info::Created(thread);
            }
        }
    }
}

} // verus!
