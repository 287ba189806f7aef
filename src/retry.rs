//! Retrying executions that the platform rate-limited
//!
//! The caller performs each execution and reports how it ended to a
//! [`Retrier`], which says whether to stop or to try again. Only rate-limited
//! executions are tried again, up to a bound; no delay is added here.

use vstd::prelude::*;

use crate::error::Error;

verus! {

/// Retries of the execution that clones the source message
pub const CREATE_RETRIES: u8 = 5;

/// Retries of each execution that clones a later message
pub const LATER_MESSAGE_RETRIES: u8 = 3;

/// How one execution ended
#[derive(Debug, Clone, Copy, PartialEq, Eq, Structural)]
pub enum Outcome {
    /// The message was created, with this ID
    Created(u64),
    /// The platform rate-limited the execution
    RateLimited,
    /// The execution failed for another reason
    Failed,
}

/// What to do after an execution
#[derive(Debug, Clone, Copy, PartialEq, Eq, Structural)]
pub enum RetryStep {
    /// The message was created, with this ID
    Done(u64),
    /// Execute again
    Retry,
    /// Stop with this error
    GiveUp(Error),
}

/// Counts the attempts of one execution against its bound of retries
#[derive(Debug, Clone, Copy, PartialEq, Eq, Structural)]
pub struct Retrier {
    /// How many times a rate-limited execution is tried again
    pub max_retries: u8,
    /// Executions reported so far
    pub attempts: u16,
}

/// What follows the outcome of attempt number `attempts` (counted from zero)
/// under a bound of `max_retries` retries
pub open spec fn step_spec(attempts: nat, max_retries: nat, outcome: Outcome) -> RetryStep {
    match outcome {
        Outcome::Created(id) => RetryStep::Done(id),
        Outcome::Failed => RetryStep::GiveUp(Error::Network),
        Outcome::RateLimited => if attempts >= max_retries {
            RetryStep::GiveUp(Error::RateLimited)
        } else {
            RetryStep::Retry
        },
    }
}

/// Executing against a sink that answers attempt `k` with `outcomes[k]`,
/// starting at attempt `k`: the number of attempts made in all and the step
/// that ended the run
pub open spec fn run_from(max_retries: nat, outcomes: Seq<Outcome>, k: nat) -> (nat, RetryStep)
    decreases outcomes.len() - k,
{
    if k >= outcomes.len() {
        (k, RetryStep::Retry)
    } else if step_spec(k, max_retries, outcomes[k as int]) == RetryStep::Retry {
        run_from(max_retries, outcomes, k + 1)
    } else {
        (k + 1, step_spec(k, max_retries, outcomes[k as int]))
    }
}

impl Retrier {
    /// A retrier that has seen no attempt yet
    pub fn new(max_retries: u8) -> (r: Retrier)
        ensures
            r.max_retries == max_retries,
            r.attempts == 0,
    {
        Retrier { max_retries, attempts: 0 }
    }

    /// Whether the retrier has stopped taking outcomes
    pub open spec fn is_exhausted(&self) -> bool {
        self.attempts > self.max_retries
    }

    /// Records how an execution ended and says what to do next
    pub fn record(&mut self, outcome: Outcome) -> (r: RetryStep)
        requires
            !old(self).is_exhausted(),
        ensures
            final(self).max_retries == old(self).max_retries,
            final(self).attempts == old(self).attempts + 1,
            r == step_spec(old(self).attempts as nat, old(self).max_retries as nat, outcome),
    {
        let attempt = self.attempts;
        self.attempts = self.attempts + 1;
        match outcome {
            Outcome::Created(id) => RetryStep::Done(id),
            Outcome::Failed => RetryStep::GiveUp(Error::Network),
            Outcome::RateLimited => if attempt >= self.max_retries as u16 {
                RetryStep::GiveUp(Error::RateLimited)
            } else {
                RetryStep::Retry
            },
        }
    }
}

proof fn lemma_rate_limited_from(max_retries: nat, outcomes: Seq<Outcome>, k: nat)
    requires
        k <= max_retries,
        outcomes.len() > max_retries,
        forall|i: int| 0 <= i < outcomes.len() ==> #[trigger] outcomes[i] == Outcome::RateLimited,
    ensures
        run_from(max_retries, outcomes, k) == (max_retries + 1, RetryStep::GiveUp(Error::RateLimited)),
    decreases max_retries - k,
{
    if k < max_retries {
        lemma_rate_limited_from(max_retries, outcomes, k + 1);
    }
}

/// Against a sink that rate-limits every execution, a bound of `n` retries
/// makes exactly `n + 1` attempts and ends with the rate-limit error.
pub proof fn lemma_retry_bound(max_retries: nat, outcomes: Seq<Outcome>)
    requires
        outcomes.len() > max_retries,
        forall|i: int| 0 <= i < outcomes.len() ==> #[trigger] outcomes[i] == Outcome::RateLimited,
    ensures
        run_from(max_retries, outcomes, 0) == (max_retries + 1, RetryStep::GiveUp(Error::RateLimited)),
{
    lemma_rate_limited_from(max_retries, outcomes, 0);
}

} // verus!
