//! Cloning the later messages in order
//!
//! The caller executes the sources that [`sendable_indices`] names, one after
//! the other, each with its own [`crate::retry::Retrier`] bounded by
//! [`crate::retry::LATER_MESSAGE_RETRIES`], and stops the run at the first
//! execution that gives up.

use vstd::prelude::*;

use crate::error::Error;
use crate::MessageSource;

verus! {

/// Whether index `i` holds a source that can be cloned
pub open spec fn sendable_pred(sources: Seq<Result<MessageSource, Error>>) -> spec_fn(int) -> bool {
    |i: int| sources[i] is Ok
}

/// The indices `0..n`, in order
pub open spec fn indices(n: nat) -> Seq<int> {
    Seq::new(n, |i: int| i)
}

/// The positions of the sources to clone, in order; a message that failed
/// to make a source is skipped, and the run goes on without it
pub fn sendable_indices(sources: &Vec<Result<MessageSource, Error>>) -> (r: Vec<usize>)
    ensures
        r@.map_values(|i: usize| i as int) == indices(sources@.len()).filter(
            sendable_pred(sources@),
        ),
{
    let ghost pred = sendable_pred(sources@);
    let mut out: Vec<usize> = Vec::new();
    let mut i: usize = 0;
    while i < sources.len()
        invariant
            i <= sources.len(),
            pred == sendable_pred(sources@),
            out@.map_values(|k: usize| k as int) == indices(i as nat).filter(pred),
        decreases sources.len() - i,
    {
        proof {
            assert(indices((i + 1) as nat) =~= indices(i as nat).push(i as int));
            indices(i as nat).lemma_filter_push(i as int, pred);
        }
        let ghost before = out@;
        if sources[i].is_ok() {
            out.push(i);
            assert(out@.map_values(|k: usize| k as int) =~= before.map_values(|k: usize| k as int).push(i as int));
        }
        i = i + 1;
    }
    out
}

} // verus!
