//! Grouping cloned messages for deletion
//!
//! The platform deletes up to a hundred messages in one bulk request, but only
//! messages younger than two weeks, and no fewer than two at once. Older
//! messages are deleted one request each.

use vstd::prelude::*;
use vstd::seq_lib::lemma_multiset_commutative;

use crate::error::Error;
use crate::limits::{bulk_delete_max, bulk_delete_max_spec};
use crate::message::views;
use crate::snowflake::{
    age_boundary, boundary_spec, boundary_unrepresentable, BULK_DELETE_AGE_MAX_MS,
};
use crate::MessageSource;

verus! {

broadcast use vstd::seq_lib::group_seq_properties;

/// Identifiers to delete, grouped by the request that deletes them
#[derive(Debug, PartialEq, Eq)]
pub struct DeletionPlan {
    /// Chunks of identifiers, each deleted by one bulk request
    pub bulk: Vec<Vec<u64>>,
    /// Identifiers deleted one request each
    pub single: Vec<u64>,
}

impl DeletionPlan {
    /// The bulk chunks as sequences
    pub open spec fn bulk_view(&self) -> Seq<Seq<u64>> {
        self.bulk@.map_values(|c: Vec<u64>| c@)
    }

    /// Number of requests that carrying out the plan takes
    pub open spec fn request_count(&self) -> int {
        self.bulk@.len() + self.single@.len() as int
    }

    /// Whether carrying out the plan would take more than `n` requests
    pub fn would_exceed_request_budget(&self, n: u16) -> (r: bool)
        ensures
            r == (self.request_count() > n as int),
    {
        if self.single.len() > n as usize {
            true
        } else {
            self.bulk.len() > n as usize - self.single.len()
        }
    }
}

/// Whether an identifier is at or above the age boundary, so young enough for
/// bulk deletion
pub open spec fn recent_pred(boundary: u64) -> spec_fn(u64) -> bool {
    |id: u64| id >= boundary
}

/// Whether an identifier is below the age boundary
pub open spec fn old_pred(boundary: u64) -> spec_fn(u64) -> bool {
    |id: u64| id < boundary
}

/// The identifiers young enough for bulk deletion, in their order
pub open spec fn recent_ids(ids: Seq<u64>, boundary: u64) -> Seq<u64> {
    ids.filter(recent_pred(boundary))
}

/// The identifiers too old for bulk deletion, in their order
pub open spec fn old_ids(ids: Seq<u64>, boundary: u64) -> Seq<u64> {
    ids.filter(old_pred(boundary))
}

/// Whether chunking the young identifiers would leave a chunk of one, which
/// bulk deletion refuses
pub open spec fn has_lone_recent(ids: Seq<u64>, boundary: u64) -> bool {
    recent_ids(ids, boundary).len() % bulk_delete_max_spec() == 1
}

/// The identifiers that are deleted in bulk
pub open spec fn bulk_ids(ids: Seq<u64>, boundary: u64) -> Seq<u64> {
    if has_lone_recent(ids, boundary) {
        recent_ids(ids, boundary).drop_last()
    } else {
        recent_ids(ids, boundary)
    }
}

/// The identifiers that are deleted one by one: the old ones, then the lone
/// young one if there is one
pub open spec fn single_ids(ids: Seq<u64>, boundary: u64) -> Seq<u64> {
    if has_lone_recent(ids, boundary) {
        old_ids(ids, boundary).push(recent_ids(ids, boundary).last())
    } else {
        old_ids(ids, boundary)
    }
}

/// Number of chunks of at most a hundred that `n` items fill
pub open spec fn chunk_count(n: int) -> int {
    (n + 99) / 100
}

/// The `j`th chunk of at most a hundred items of `s`
pub open spec fn chunk_at(s: Seq<u64>, j: int) -> Seq<u64> {
    s.subrange(100 * j, if 100 * j + 100 <= s.len() { 100 * j + 100 } else { s.len() as int })
}

/// `s` cut, in order, into chunks of a hundred items and a shorter last one
pub open spec fn chunks_of(s: Seq<u64>) -> Seq<Seq<u64>> {
    Seq::new(chunk_count(s.len() as int) as nat, |j: int| chunk_at(s, j))
}

/// What a deletion plan for `ids` is, given the age boundary
pub open spec fn plan_spec(plan: DeletionPlan, ids: Seq<u64>, boundary: u64) -> bool {
    &&& plan.bulk_view() == chunks_of(bulk_ids(ids, boundary))
    &&& plan.single@ == single_ids(ids, boundary)
}

/// Groups `ids` for deletion: identifiers at or above `boundary` (see
/// [`crate::snowflake::age_boundary`]) are chunked for bulk deletion, the
/// others are deleted one by one, and a chunk of one goes to the single ones.
pub fn plan_deletion(ids: &Vec<u64>, boundary: u64) -> (plan: DeletionPlan)
    ensures
        plan_spec(plan, ids@, boundary),
{
    let mut recent: Vec<u64> = Vec::new();
    let mut old: Vec<u64> = Vec::new();
    let mut i: usize = 0;
    while i < ids.len()
        invariant
            i <= ids.len(),
            recent@ == ids@.take(i as int).filter(recent_pred(boundary)),
            old@ == ids@.take(i as int).filter(old_pred(boundary)),
        decreases ids.len() - i,
    {
        let id = ids[i];
        proof {
            assert(ids@.take(i + 1) =~= ids@.take(i as int).push(id));
            ids@.take(i as int).lemma_filter_push(id, recent_pred(boundary));
            ids@.take(i as int).lemma_filter_push(id, old_pred(boundary));
        }
        if id >= boundary {
            recent.push(id);
        } else {
            old.push(id);
        }
        i = i + 1;
    }
    assert(ids@.take(ids.len() as int) =~= ids@);
    let max = bulk_delete_max();
    let mut single = old;
    if recent.len() % max == 1 {
        let last = recent.pop().unwrap();
        single.push(last);
    }
    assert(recent@ == bulk_ids(ids@, boundary));
    let mut bulk: Vec<Vec<u64>> = Vec::new();
    let mut start: usize = 0;
    while start < recent.len()
        invariant
            max == 100,
            start <= recent.len(),
            start == if 100 * bulk.len() <= recent.len() {
                100 * bulk.len()
            } else {
                recent.len() as int
            },
            bulk.len() == 0 || 100 * (bulk.len() - 1) < recent.len(),
            forall|j: int| 0 <= j < bulk.len() ==> #[trigger] bulk@[j]@ == chunk_at(recent@, j),
        decreases recent.len() - start,
    {
        let end: usize = if recent.len() - start > max {
            start + max
        } else {
            recent.len()
        };
        let mut chunk: Vec<u64> = Vec::new();
        let mut k: usize = start;
        while k < end
            invariant
                start <= k <= end <= recent.len(),
                chunk@ == recent@.subrange(start as int, k as int),
            decreases end - k,
        {
            chunk.push(recent[k]);
            k = k + 1;
        }
        assert(chunk@ == chunk_at(recent@, bulk.len() as int));
        bulk.push(chunk);
        start = end;
    }
    let plan = DeletionPlan { bulk, single };
    assert(plan.bulk_view() =~= chunks_of(bulk_ids(ids@, boundary)));
    plan
}


proof fn lemma_filter_partition(ids: Seq<u64>, boundary: u64)
    ensures
        ids.to_multiset() =~= recent_ids(ids, boundary).to_multiset().add(
            old_ids(ids, boundary).to_multiset(),
        ),
    decreases ids.len(),
{
    broadcast use vstd::seq_lib::group_to_multiset_ensures;

    if ids.len() == 0 {
        reveal(Seq::filter);
    } else {
        let d = ids.drop_last();
        let x = ids.last();
        lemma_filter_partition(d, boundary);
        assert(ids =~= d.push(x));
        d.lemma_filter_push(x, recent_pred(boundary));
        d.lemma_filter_push(x, old_pred(boundary));
    }
}

proof fn lemma_flatten_chunks(s: Seq<u64>)
    ensures
        chunks_of(s).flatten() =~= s,
    decreases s.len(),
{
    let c = chunks_of(s);
    if s.len() == 0 {
        assert(c.len() == 0);
    } else if s.len() <= 100 {
        assert(c.len() == 1);
        assert(c.drop_first().len() == 0);
        assert(c.drop_first().flatten() =~= Seq::<u64>::empty());
        assert(c.first() =~= s);
        assert(c.flatten() == c.first() + c.drop_first().flatten());
    } else {
        let t = s.subrange(100, s.len() as int);
        lemma_flatten_chunks(t);
        assert(c.drop_first().len() == chunks_of(t).len());
        assert forall|j: int| 0 <= j < c.drop_first().len() implies #[trigger] c.drop_first()[j]
            =~= chunks_of(t)[j] by {
            assert(c.drop_first()[j] == chunk_at(s, j + 1));
        }
        assert(c.drop_first() =~= chunks_of(t));
        assert(c.first() =~= s.subrange(0, 100));
        assert(c.first() + t =~= s);
        assert(c.flatten() == c.first() + c.drop_first().flatten());
    }
}

/// Deleting by plan removes every given identifier exactly once: the bulk
/// chunks, then the single identifiers, hold the given identifiers and no
/// others, each as often as it was given, and every bulk chunk holds from two
/// to a hundred identifiers.
pub proof fn lemma_plan_partitions(ids: Seq<u64>, boundary: u64)
    ensures
        (chunks_of(bulk_ids(ids, boundary)).flatten() + single_ids(
            ids,
            boundary,
        )).to_multiset() =~= ids.to_multiset(),
        forall|j: int|
            0 <= j < chunks_of(bulk_ids(ids, boundary)).len() ==> 2 <= #[trigger] chunks_of(
                bulk_ids(ids, boundary),
            )[j].len() <= bulk_delete_max_spec(),
{
    broadcast use vstd::seq_lib::group_to_multiset_ensures;

    let recent = recent_ids(ids, boundary);
    let old = old_ids(ids, boundary);
    let src = bulk_ids(ids, boundary);
    lemma_filter_partition(ids, boundary);
    lemma_flatten_chunks(src);
    if has_lone_recent(ids, boundary) {
        assert(recent =~= src.push(recent.last()));
        lemma_multiset_commutative(src, old.push(recent.last()));
        lemma_multiset_commutative(src, old);
        assert(src.to_multiset().add(old.push(recent.last()).to_multiset()) =~= src.push(
            recent.last(),
        ).to_multiset().add(old.to_multiset()));
    } else {
        lemma_multiset_commutative(src, old);
    }
    assert forall|j: int| 0 <= j < chunks_of(src).len() implies 2 <= #[trigger] chunks_of(
        src,
    )[j].len() <= 100 by {
        assert(src.len() % 100 != 1);
    }
}

/// The identifiers of the messages
pub open spec fn ids_of(s: Seq<crate::message::MessageView>) -> Seq<u64> {
    s.map_values(|m: crate::message::MessageView| m.id)
}

proof fn lemma_filter_all(ids: Seq<u64>, boundary: u64)
    requires
        forall|i: int| 0 <= i < ids.len() ==> #[trigger] ids[i] >= boundary,
    ensures
        recent_ids(ids, boundary) == ids,
        old_ids(ids, boundary) == Seq::<u64>::empty(),
    decreases ids.len(),
{
    if ids.len() == 0 {
        reveal(Seq::filter);
        assert(ids =~= Seq::<u64>::empty());
    } else {
        let d = ids.drop_last();
        assert forall|i: int| 0 <= i < d.len() implies #[trigger] d[i] >= boundary by {
            assert(d[i] == ids[i]);
        }
        lemma_filter_all(d, boundary);
        assert(ids =~= d.push(ids.last()));
        d.lemma_filter_push(ids.last(), recent_pred(boundary));
        d.lemma_filter_push(ids.last(), old_pred(boundary));
    }
}

/// When exactly one identifier is young enough for bulk deletion, nothing is
/// deleted in bulk: every identifier is deleted on its own, the old ones in
/// their order and then the young one.
pub proof fn lemma_lone_young_goes_single(ids: Seq<u64>, boundary: u64)
    requires
        recent_ids(ids, boundary).len() == 1,
    ensures
        chunks_of(bulk_ids(ids, boundary)).len() == 0,
        single_ids(ids, boundary) == old_ids(ids, boundary).push(recent_ids(ids, boundary)[0]),
        single_ids(ids, boundary).len() == ids.len(),
        single_ids(ids, boundary).to_multiset() =~= ids.to_multiset(),
{
    broadcast use vstd::seq_lib::group_to_multiset_ensures;

    let recent = recent_ids(ids, boundary);
    let old = old_ids(ids, boundary);
    lemma_filter_partition(ids, boundary);
    assert(recent =~= seq![recent[0]]);
    assert(old.push(recent[0]) =~= old + recent);
    lemma_multiset_commutative(old, recent);
    let single = single_ids(ids, boundary);
    assert(single.to_multiset() =~= ids.to_multiset());
    vstd::seq_lib::to_multiset_len(single);
    vstd::seq_lib::to_multiset_len(ids);
}

/// When every identifier is young enough for bulk deletion and chunking them
/// leaves no chunk of one, all of them are deleted in bulk, in chunks of a
/// hundred in their order, and none on its own; so deleting takes one
/// request per chunk.
pub proof fn lemma_all_young_in_bulk(ids: Seq<u64>, boundary: u64)
    requires
        forall|i: int| 0 <= i < ids.len() ==> #[trigger] ids[i] >= boundary,
        ids.len() % bulk_delete_max_spec() != 1,
    ensures
        chunks_of(bulk_ids(ids, boundary)) == chunks_of(ids),
        single_ids(ids, boundary) == Seq::<u64>::empty(),
        chunks_of(ids).len() == chunk_count(ids.len() as int),
{
    lemma_filter_all(ids, boundary);
}

/// A hundred and fifty young identifiers are deleted by two bulk requests,
/// of a hundred and of fifty, and no single one.
pub proof fn lemma_hundred_fifty_young(ids: Seq<u64>, boundary: u64)
    requires
        forall|i: int| 0 <= i < ids.len() ==> #[trigger] ids[i] >= boundary,
        ids.len() == 150,
    ensures
        chunks_of(bulk_ids(ids, boundary)).len() == 2,
        chunks_of(bulk_ids(ids, boundary))[0] == ids.take(100),
        chunks_of(bulk_ids(ids, boundary))[1] == ids.subrange(100, 150),
        single_ids(ids, boundary).len() == 0,
{
    lemma_all_young_in_bulk(ids, boundary);
    assert(chunks_of(ids)[0] =~= ids.take(100));
    assert(chunks_of(ids)[1] =~= ids.subrange(100, 150));
}

impl MessageSource {
    /// The messages to delete: the source message, then the later messages
    /// if sources were made for them
    pub open spec fn deletion_ids_spec(&self) -> Seq<u64> {
        if self.later_messages.is_later_message_sources_created {
            seq![self.source_id] + ids_of(views(self.later_messages.messages@))
        } else {
            seq![self.source_id]
        }
    }

    /// The messages to delete: the source message, then the later messages
    /// if [`MessageSource::later_message_sources`] was called
    pub fn deletion_ids(&self) -> (r: Vec<u64>)
        ensures
            r@ == self.deletion_ids_spec(),
    {
        let mut ids: Vec<u64> = Vec::new();
        ids.push(self.source_id);
        if self.later_messages.is_later_message_sources_created {
            let messages = &self.later_messages.messages;
            let mut i: usize = 0;
            while i < messages.len()
                invariant
                    i <= messages.len(),
                    messages@ == self.later_messages.messages@,
                    ids@ == seq![self.source_id] + ids_of(views(messages@)).take(i as int),
                decreases messages.len() - i,
            {
                ids.push(messages[i].id);
                i = i + 1;
                assert(ids@ =~= seq![self.source_id] + ids_of(views(messages@)).take(i as int));
            }
            assert(ids_of(views(messages@)).take(messages.len() as int) =~= ids_of(views(messages@)));
        }
        ids
    }

    /// How the messages are deleted at `now_ms` milliseconds since the Unix
    /// epoch: see [`plan_deletion`], with messages younger than two weeks
    /// deleted in bulk
    ///
    /// # Errors
    ///
    /// Returns [`Error::ClockUnrepresentable`] if two weeks before `now_ms`
    /// can't be represented
    pub fn messages_delete(&self, now_ms: u64) -> (r: Result<DeletionPlan, Error>)
        ensures
            boundary_unrepresentable(now_ms, BULK_DELETE_AGE_MAX_MS) ==> r == Err::<DeletionPlan, Error>(
                Error::ClockUnrepresentable,
            ),
            !boundary_unrepresentable(now_ms, BULK_DELETE_AGE_MAX_MS) ==> (r matches Ok(plan)
                && plan_spec(
                plan,
                self.deletion_ids_spec(),
                boundary_spec(now_ms, BULK_DELETE_AGE_MAX_MS) as u64,
            )),
    {
        let boundary = match age_boundary(now_ms, BULK_DELETE_AGE_MAX_MS) {
            Ok(boundary) => boundary,
            Err(e) => {
                return Err(e);
            },
        };
        let ids = self.deletion_ids();
        Ok(plan_deletion(&ids, boundary))
    }

    /// Check that deleting the messages at `now_ms` milliseconds since the
    /// Unix epoch would use at most `n` requests
    ///
    /// Each message older than two weeks uses one request, the younger ones
    /// one request per hundred, rounded up.
    ///
    /// # Errors
    ///
    /// Returns [`Error::DeleteRequestCountAboveLimit`] if deleting would use
    /// more than `n` requests
    ///
    /// Returns [`Error::ClockUnrepresentable`] if two weeks before `now_ms`
    /// can't be represented
    pub fn check_delete_request_count_in(&self, n: u16, now_ms: u64) -> (r: Result<(), Error>)
        ensures
            boundary_unrepresentable(now_ms, BULK_DELETE_AGE_MAX_MS) ==> r == Err::<(), Error>(
                Error::ClockUnrepresentable,
            ),
            !boundary_unrepresentable(now_ms, BULK_DELETE_AGE_MAX_MS) ==> {
                let b = boundary_spec(now_ms, BULK_DELETE_AGE_MAX_MS) as u64;
                let count = chunks_of(bulk_ids(self.deletion_ids_spec(), b)).len() + single_ids(
                    self.deletion_ids_spec(),
                    b,
                ).len();
                &&& count > n ==> r == Err::<(), Error>(Error::DeleteRequestCountAboveLimit(n))
                &&& count <= n ==> r == Ok::<(), Error>(())
            },
    {
        let plan = match self.messages_delete(now_ms) {
            Ok(plan) => plan,
            Err(e) => {
                return Err(e);
            },
        };
        assert(plan.bulk@.len() == plan.bulk_view().len());
        if plan.would_exceed_request_budget(n) {
            return Err(Error::DeleteRequestCountAboveLimit(n));
        }
        Ok(())
    }
}

} // verus!
