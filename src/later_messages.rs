//! Discovering the messages sent after the source message, and merging the
//! adjacent ones of one author
//!
//! The platform hands channel history out in pages of at most a hundred
//! messages, newest first. The caller fetches each page that
//! [`Info::next_step`] asks for and hands it to [`Info::record_page`].

use vstd::prelude::*;
use vstd::string::{StrSliceExecFns, StringExecFns};

use crate::error::Error;
use crate::limits::{content_length_max, content_length_max_spec};
use crate::constructor::rejection;
use crate::message::{views, MessageRecord, MessageView};
use crate::MessageSource;

verus! {

/// Number of messages in a full page of channel history
pub const PAGE_SIZE: u16 = 100;

/// Info about the later messages in the channel
#[derive(Debug)]
pub struct Info {
    /// Messages sent later, oldest first
    pub messages: Vec<MessageRecord>,
    /// Whether there are no more messages
    pub is_complete: bool,
    /// Whether the source message has been cloned
    pub is_source_created: bool,
    /// Whether messages to clone have been made from the later messages
    pub is_later_message_sources_created: bool,
}

/// What discovering later messages needs next
#[derive(Debug, Clone, Copy, PartialEq, Eq, Structural)]
pub enum DiscoveryStep {
    /// All later messages are known
    Complete,
    /// Fetch up to `limit` messages sent after the message `after`
    Fetch { after: u64, limit: u16 },
}

/// Size of the pages fetched under `limit`: the limit, but at most a full page
pub open spec fn page_limit(limit: Option<u16>) -> u16 {
    match limit {
        Some(n) => if n < PAGE_SIZE {
            n
        } else {
            PAGE_SIZE
        },
        None => PAGE_SIZE,
    }
}

/// Whether a page of `len` messages is the last one of the channel's history:
/// only a page of exactly a full hundred messages asks for another fetch
pub open spec fn is_last_page(len: nat) -> bool {
    len != PAGE_SIZE as nat
}

/// The page as it is appended: oldest first, without the newest message when
/// `skip_newest` holds
pub open spec fn page_appended(page: Seq<MessageView>, skip_newest: bool) -> Seq<MessageView> {
    if skip_newest && page.len() > 0 {
        page.drop_first().reverse()
    } else {
        page.reverse()
    }
}

impl Info {
    /// Info of a source message whose later messages are not known yet
    pub fn new() -> (r: Info)
        ensures
            r.messages@.len() == 0,
            !r.is_complete,
            !r.is_source_created,
            !r.is_later_message_sources_created,
    {
        Info {
            messages: Vec::new(),
            is_complete: false,
            is_source_created: false,
            is_later_message_sources_created: false,
        }
    }

    /// The message that the next page starts after
    pub open spec fn cursor(&self, source_id: u64) -> u64 {
        if self.messages@.len() == 0 {
            source_id
        } else {
            self.messages@.last().id
        }
    }

    /// Whether `limit` messages or more are known to be sent later
    pub open spec fn reached(&self, limit: Option<u16>) -> bool {
        limit matches Some(n) && self.messages@.len() >= n
    }

    /// What discovering the messages sent after `source_id` needs next
    ///
    /// With a `limit`, fails with [`Error::SourceAboveLimit`] once that many
    /// later messages are known, and fetches pages of at most `limit`
    /// messages.
    pub fn next_step(&self, source_id: u64, limit: Option<u16>) -> (r: Result<
        DiscoveryStep,
        Error,
    >)
        ensures
            self.reached(limit) ==> r == Err::<DiscoveryStep, Error>(
                Error::SourceAboveLimit(limit.unwrap()),
            ),
            !self.reached(limit) && self.is_complete ==> r == Ok::<DiscoveryStep, Error>(
                DiscoveryStep::Complete,
            ),
            !self.reached(limit) && !self.is_complete ==> r == Ok::<DiscoveryStep, Error>(
                DiscoveryStep::Fetch { after: self.cursor(source_id), limit: page_limit(limit) },
            ),
    {
        if let Some(n) = limit {
            if self.messages.len() >= n as usize {
                return Err(Error::SourceAboveLimit(n));
            }
        }
        if self.is_complete {
            return Ok(DiscoveryStep::Complete);
        }
        let after = if self.messages.len() == 0 {
            source_id
        } else {
            self.messages[self.messages.len() - 1].id
        };
        let page_limit = match limit {
            Some(n) => if n < PAGE_SIZE {
                n
            } else {
                PAGE_SIZE
            },
            None => PAGE_SIZE,
        };
        Ok(DiscoveryStep::Fetch { after, limit: page_limit })
    }

    /// Whether the newest message of the next page is the clone of the source
    /// message, made in the channel that is searched
    pub open spec fn skips_newest(&self, same_channel: bool) -> bool {
        self.is_source_created && same_channel && self.messages@.len() == 0
    }

    /// Appends a fetched page, given newest first as the platform returns it
    ///
    /// `same_channel` tells whether clones are sent to the channel that is
    /// searched; then the first page's newest message is the clone of the
    /// source message and is left out. Any page but a full one of a hundred
    /// messages ends the discovery.
    pub fn record_page(&mut self, page: Vec<MessageRecord>, same_channel: bool)
        ensures
            final(self).is_complete == is_last_page(page@.len()),
            views(final(self).messages@) == views(old(self).messages@) + page_appended(
                views(page@),
                old(self).skips_newest(same_channel),
            ),
            final(self).is_source_created == old(self).is_source_created,
            final(self).is_later_message_sources_created
                == old(self).is_later_message_sources_created,
    {
        let ghost before = views(self.messages@);
        let ghost pv = views(page@);
        let skip = self.is_source_created && same_channel && self.messages.len() == 0;
        let len = page.len();
        self.is_complete = len != PAGE_SIZE as usize;
        let mut page = page;
        let stop: usize = if skip && len > 0 {
            1
        } else {
            0
        };
        let ghost appended = page_appended(pv, skip);
        assert(views(page@) =~= pv.take(len as int));
        let mut i: usize = len;
        while i > stop
            invariant
                stop <= i <= len,
                len == pv.len(),
                before == views(old(self).messages@),
                page@.len() == i,
                views(page@) == pv.take(i as int),
                stop == (if skip && len > 0 { 1int } else { 0int }),
                appended == (if skip && len > 0 { pv.drop_first().reverse() } else { pv.reverse() }),
                views(self.messages@) == before + appended.take(len - i),
                self.is_complete == is_last_page(len as nat),
                self.is_source_created == old(self).is_source_created,
                self.is_later_message_sources_created
                    == old(self).is_later_message_sources_created,
            decreases i,
        {
            let m = page.pop().unwrap();
            proof {
                assert(views(old(self).messages@) == before);
                assert(m@ == pv.take(i as int)[i - 1]);
                assert(appended[len - i] == pv[i - 1]);
                assert(appended.take(len - i + 1) =~= appended.take(len - i).push(m@));
            }
            let ghost prev = self.messages@;
            self.messages.push(m);
            proof {
                assert(views(self.messages@) =~= views(prev).push(m@));
                assert(views(self.messages@) =~= before + appended.take(len - i + 1));
            }
            i = i - 1;
            proof {
                assert(views(page@) =~= pv.take(i as int));
            }
        }
        assert(appended.take(len - stop) =~= appended);
    }
}

/// A page of a full hundred messages never ends the discovery, and a page of
/// none, of fewer than a hundred or of more than a hundred always does.
pub proof fn lemma_page_completion(len: nat)
    ensures
        len == PAGE_SIZE ==> !is_last_page(len),
        len < PAGE_SIZE ==> is_last_page(len),
        len > PAGE_SIZE ==> is_last_page(len),
{
}

/// Whether message `m` is appended to the group `group` that precedes it:
/// same author, and the joined content, with its separator, stays within
/// `ceiling` characters
pub open spec fn merges(group: MessageView, m: MessageView, ceiling: nat) -> bool {
    group.author_id == m.author_id && group.content.len() + m.content.len() < ceiling
}

/// The group `group` with message `m` appended on a new line
pub open spec fn merged(group: MessageView, m: MessageView) -> MessageView {
    MessageView { content: group.content.push('\n') + m.content, ..group }
}

/// Adjacent messages merged from left to right: each message joins the group
/// before it when [`merges`] allows, and starts a new group otherwise
pub open spec fn batch_spec(s: Seq<MessageView>, ceiling: nat) -> Seq<MessageView>
    decreases s.len(),
{
    if s.len() == 0 {
        Seq::empty()
    } else {
        let prev = batch_spec(s.drop_last(), ceiling);
        if prev.len() > 0 && merges(prev.last(), s.last(), ceiling) {
            prev.update(prev.len() - 1, merged(prev.last(), s.last()))
        } else {
            prev.push(s.last())
        }
    }
}

fn append_to_last(out: &mut Vec<MessageRecord>, m: &MessageRecord)
    requires
        old(out)@.len() > 0,
    ensures
        views(final(out)@) == views(old(out)@).update(
            old(out)@.len() - 1,
            merged(views(old(out)@).last(), m@),
        ),
{
    let ghost before = out@;
    let mut group = out.pop().unwrap();
    let ghost g0 = group@;
    proof {
        reveal_strlit("\n");
        assert(g0 == views(before).last());
    }
    group.content.append("\n");
    group.content.append(m.content.as_str());
    proof {
        assert(group.content@ =~= g0.content.push('\n') + m@.content);
        assert(group@ == merged(g0, m@));
    }
    out.push(group);
    assert(views(out@) =~= views(before).update(before.len() - 1, merged(views(before).last(), m@)));
}

/// Merges adjacent messages of one author into one message whose content
/// holds theirs, one per line, as long as the joined content stays within
/// `ceiling` characters
pub fn batch_with_ceiling(messages: &Vec<MessageRecord>, ceiling: usize) -> (r: Vec<
    MessageRecord,
>)
    ensures
        views(r@) == batch_spec(views(messages@), ceiling as nat),
{
    let ghost all = views(messages@);
    let mut out: Vec<MessageRecord> = Vec::new();
    let mut i: usize = 0;
    while i < messages.len()
        invariant
            i <= messages.len(),
            all == views(messages@),
            views(out@) == batch_spec(all.take(i as int), ceiling as nat),
        decreases messages.len() - i,
    {
        let m = &messages[i];
        let ghost prefix = all.take(i as int);
        proof {
            assert(all.take(i + 1).drop_last() =~= prefix);
            assert(all.take(i + 1).last() == m@);
        }
        let n = out.len();
        let joins = if n > 0 {
            let group = &out[n - 1];
            group.author_id == m.author_id && group.content.as_str().unicode_len().saturating_add(
                m.content.as_str().unicode_len(),
            ) < ceiling
        } else {
            false
        };
        if joins {
            append_to_last(&mut out, m);
        } else {
            let ghost before = out@;
            out.push(m.duplicate());
            proof {
                assert(views(out@) =~= views(before).push(m@));
            }
        }
        i = i + 1;
    }
    assert(all.take(messages.len() as int) =~= all);
    out
}

/// Merges adjacent messages of one author as [`batch_with_ceiling`] does,
/// within the platform's ceiling on a message's content
pub fn batch(messages: &Vec<MessageRecord>) -> (r: Vec<MessageRecord>)
    ensures
        views(r@) == batch_spec(views(messages@), content_length_max_spec()),
{
    batch_with_ceiling(messages, content_length_max())
}

/// Length of the messages' contents joined with one separator between each two
pub open spec fn joined_len(s: Seq<MessageView>) -> int
    decreases s.len(),
{
    if s.len() == 0 {
        0
    } else if s.len() == 1 {
        s[0].content.len() as int
    } else {
        joined_len(s.drop_last()) + 1 + s.last().content.len()
    }
}

/// Whether every message has the author of the first
pub open spec fn same_author(s: Seq<MessageView>) -> bool {
    forall|i: int| 0 <= i < s.len() ==> #[trigger] s[i].author_id == s[0].author_id
}

proof fn lemma_batch_fits(s: Seq<MessageView>, ceiling: nat)
    requires
        s.len() >= 1,
        same_author(s),
        joined_len(s) <= ceiling,
    ensures
        batch_spec(s, ceiling).len() == 1,
        batch_spec(s, ceiling)[0].content.len() == joined_len(s),
        batch_spec(s, ceiling)[0].author_id == s[0].author_id,
    decreases s.len(),
{
    if s.len() == 1 {
        assert(s.drop_last().len() == 0);
        assert(batch_spec(s.drop_last(), ceiling).len() == 0);
    } else {
        let d = s.drop_last();
        assert(same_author(d)) by {
            assert forall|i: int| 0 <= i < d.len() implies #[trigger] d[i].author_id
                == d[0].author_id by {
                assert(d[i] == s[i]);
            }
        }
        assert(joined_len(s) == joined_len(d) + 1 + s.last().content.len());
        lemma_batch_fits(d, ceiling);
        assert(s.last().author_id == s[0].author_id);
        let prev = batch_spec(d, ceiling);
        assert(merges(prev.last(), s.last(), ceiling));
        assert(merged(prev.last(), s.last()).content.len() == joined_len(s));
    }
}

/// Messages of one author whose contents, joined with separators, are exactly
/// as long as the ceiling end up in a single message; two or more whose joined
/// contents are one character longer end up in two.
pub proof fn lemma_batch_ceiling(s: Seq<MessageView>, ceiling: nat)
    requires
        s.len() >= 1,
        same_author(s),
    ensures
        joined_len(s) == ceiling ==> batch_spec(s, ceiling).len() == 1,
        joined_len(s) == ceiling + 1 && s.len() >= 2 ==> batch_spec(s, ceiling).len() == 2,
{
    if joined_len(s) == ceiling {
        lemma_batch_fits(s, ceiling);
    }
    if joined_len(s) == ceiling + 1 && s.len() >= 2 {
        let d = s.drop_last();
        assert(same_author(d)) by {
            assert forall|i: int| 0 <= i < d.len() implies #[trigger] d[i].author_id
                == d[0].author_id by {
                assert(d[i] == s[i]);
            }
        }
        lemma_batch_fits(d, ceiling);
    }
}

impl MessageSource {
    /// What discovering the messages sent after this one needs next; see
    /// [`Info::next_step`]
    ///
    /// Pages are fetched from the source message's channel.
    pub fn later_messages_step(&self, limit: Option<u16>) -> (r: Result<DiscoveryStep, Error>)
        ensures
            self.later_messages.reached(limit) ==> r == Err::<DiscoveryStep, Error>(
                Error::SourceAboveLimit(limit.unwrap()),
            ),
            !self.later_messages.reached(limit) && self.later_messages.is_complete ==> r == Ok::<
                DiscoveryStep,
                Error,
            >(DiscoveryStep::Complete),
            !self.later_messages.reached(limit) && !self.later_messages.is_complete ==> r == Ok::<
                DiscoveryStep,
                Error,
            >(
                DiscoveryStep::Fetch {
                    after: self.later_messages.cursor(self.source_id),
                    limit: page_limit(limit),
                },
            ),
    {
        self.later_messages.next_step(self.source_id, limit)
    }

    /// Appends a page of later messages, given newest first; see
    /// [`Info::record_page`]
    ///
    /// When the message is cloned into its own channel, the newest message of
    /// the first page is its clone and is left out.
    pub fn record_later_page(&mut self, page: Vec<MessageRecord>)
        ensures
            final(self).later_messages.is_complete == is_last_page(page@.len()),
            views(final(self).later_messages.messages@) == views(old(self).later_messages.messages@)
                + page_appended(
                views(page@),
                old(self).later_messages.skips_newest(
                    old(self).channel_id == old(self).source_channel_id,
                ),
            ),
            final(self).later_messages.is_source_created == old(
                self,
            ).later_messages.is_source_created,
            final(self).later_messages.is_later_message_sources_created == old(
                self,
            ).later_messages.is_later_message_sources_created,
            final(self).source_id == old(self).source_id,
            final(self).channel_id == old(self).channel_id,
            final(self).source_channel_id == old(self).source_channel_id,
    {
        let same_channel = self.channel_id == self.source_channel_id;
        self.later_messages.record_page(page, same_channel);
    }

    /// Sources for the later messages after merging the adjacent ones of one
    /// author (see [`batch`]), which reduces the number of executions needed
    /// to clone them; see [`MessageSource::later_message_sources`]
    pub fn later_messages_batched(&mut self) -> (r: Vec<Result<MessageSource, Error>>)
        ensures
            views(final(self).later_messages.messages@) == batch_spec(
                views(old(self).later_messages.messages@),
                content_length_max_spec(),
            ),
            final(self).later_messages.is_later_message_sources_created,
            final(self).later_messages.is_complete == old(self).later_messages.is_complete,
            final(self).later_messages.is_source_created == old(
                self,
            ).later_messages.is_source_created,
            final(self).source_id == old(self).source_id,
            final(self).channel_id == old(self).channel_id,
            r@.len() == final(self).later_messages.messages@.len(),
            forall|i: int|
                0 <= i < r@.len() ==> {
                    let m = #[trigger] final(self).later_messages.messages@[i]@;
                    &&& rejection(m) matches Some(e) ==> r@[i] == Err::<MessageSource, Error>(e)
                    &&& rejection(m) is None ==> (r@[i] matches Ok(s) && s.is_made_from(m)
                        && s.channel_id == old(self).channel_id && s.thread_info@ == old(
                        self,
                    ).thread_info@)
                },
    {
        let batched = batch(&self.later_messages.messages);
        self.later_messages.messages = batched;
        self.later_message_sources()
    }

    /// Sources for the later messages, in order, each sent to this message's
    /// channel and thread; an element is the error of a message that can't
    /// be cloned (see [`MessageSource::from_message`])
    pub fn later_message_sources(&mut self) -> (r: Vec<Result<MessageSource, Error>>)
        ensures
            final(self).later_messages.is_later_message_sources_created,
            final(self).later_messages.messages == old(self).later_messages.messages,
            final(self).later_messages.is_complete == old(self).later_messages.is_complete,
            final(self).later_messages.is_source_created == old(
                self,
            ).later_messages.is_source_created,
            final(self).source_id == old(self).source_id,
            final(self).channel_id == old(self).channel_id,
            final(self).thread_info == old(self).thread_info,
            r@.len() == old(self).later_messages.messages@.len(),
            forall|i: int|
                0 <= i < r@.len() ==> {
                    let m = #[trigger] old(self).later_messages.messages@[i]@;
                    &&& rejection(m) matches Some(e) ==> r@[i] == Err::<MessageSource, Error>(e)
                    &&& rejection(m) is None ==> (r@[i] matches Ok(s) && s.is_made_from(m)
                        && s.channel_id == old(self).channel_id && s.thread_info@ == old(
                        self,
                    ).thread_info@)
                },
    {
        self.later_messages.is_later_message_sources_created = true;
        let mut out: Vec<Result<MessageSource, Error>> = Vec::new();
        let mut i: usize = 0;
        while i < self.later_messages.messages.len()
            invariant
                i <= self.later_messages.messages.len(),
                out@.len() == i,
                self.later_messages.messages == old(self).later_messages.messages,
                self.thread_info == old(self).thread_info,
                self.channel_id == old(self).channel_id,
                forall|j: int|
                    0 <= j < i ==> {
                        let m = #[trigger] old(self).later_messages.messages@[j]@;
                        &&& rejection(m) matches Some(e) ==> out@[j] == Err::<MessageSource, Error>(
                            e,
                        )
                        &&& rejection(m) is None ==> (out@[j] matches Ok(s) && s.is_made_from(m)
                            && s.channel_id == old(self).channel_id && s.thread_info@
                            == old(self).thread_info@)
                    },
            decreases self.later_messages.messages.len() - i,
        {
            let made = MessageSource::from_message(&self.later_messages.messages[i]);
            let item = match made {
                Ok(source) => {
                    let mut source = source;
                    source.thread_info = self.thread_info.duplicate();
                    source.channel_id = self.channel_id;
                    Ok(source)
                },
                Err(e) => Err(e),
            };
            out.push(item);
            i = i + 1;
        }
        out
    }
}

} // verus!
