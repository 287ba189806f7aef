//! Creation times embedded in the platform's identifiers

use vstd::prelude::*;

use crate::error::Error;

verus! {

/// Milliseconds between the Unix epoch and the platform's epoch, the first
/// second of 2015
pub const DISCORD_EPOCH: u64 = 1_420_070_400_000;

/// An identifier keeps its creation time above its lowest 22 bits
pub const TIMESTAMP_SHIFT_FACTOR: u64 = 4_194_304;

/// Largest value an identifier's timestamp part can hold
pub const TIMESTAMP_PART_MAX: u64 = 4_398_046_511_103;

/// Two weeks in milliseconds, the age past which a message can't be bulk
/// deleted
pub const BULK_DELETE_AGE_MAX_MS: u64 = 1_209_600_000;

/// Creation time of `id`, in milliseconds since the Unix epoch
pub open spec fn timestamp_spec(id: u64) -> int {
    id as int / TIMESTAMP_SHIFT_FACTOR as int + DISCORD_EPOCH as int
}

/// The moment `window_ms` milliseconds before `now_ms`
pub open spec fn threshold_spec(now_ms: u64, window_ms: u64) -> int {
    now_ms as int - window_ms as int
}

/// Whether no identifier at or above a threshold can be written in 64 bits,
/// or the threshold lies before the Unix epoch
pub open spec fn boundary_unrepresentable(now_ms: u64, window_ms: u64) -> bool {
    threshold_spec(now_ms, window_ms) < 0 || threshold_spec(now_ms, window_ms)
        - DISCORD_EPOCH as int > TIMESTAMP_PART_MAX as int
}

/// The smallest identifier created at or after `now_ms - window_ms`
pub open spec fn boundary_spec(now_ms: u64, window_ms: u64) -> int {
    if threshold_spec(now_ms, window_ms) <= DISCORD_EPOCH as int {
        0
    } else {
        (threshold_spec(now_ms, window_ms) - DISCORD_EPOCH as int) * TIMESTAMP_SHIFT_FACTOR as int
    }
}

proof fn lemma_shift_is_division(id: u64)
    ensures
        id >> 22u64 == id / 4_194_304u64,
        id / 4_194_304u64 <= 4_398_046_511_103u64,
{
    assert(id >> 22u64 == id / 4_194_304u64) by (bit_vector);
    assert(id / 4_194_304u64 <= 4_398_046_511_103u64) by (bit_vector);
}

proof fn lemma_at_or_above(x: int, q: int, k: int)
    requires
        x >= 0,
        q >= 0,
        k > 0,
    ensures
        (x >= q * k) <==> (x / k >= q),
{
    vstd::arithmetic::div_mod::lemma_fundamental_div_mod(x, k);
    assert((x >= q * k) <==> (x / k >= q)) by (nonlinear_arith)
        requires
            x == k * (x / k) + x % k,
            0 <= x % k < k,
            q >= 0,
            k > 0,
    ;
}

/// Creation time of `id`, in milliseconds since the Unix epoch
pub fn timestamp(id: u64) -> (r: u64)
    ensures
        r == timestamp_spec(id),
{
    proof {
        lemma_shift_is_division(id);
    }
    (id >> 22u64) + DISCORD_EPOCH
}

/// The smallest identifier created at or after `now_ms - window_ms`, so that
/// an identifier is younger than the window exactly when it is at or above
/// the result
///
/// Fails with [`Error::ClockUnrepresentable`] when that moment lies before
/// the Unix epoch or past what an identifier can hold.
pub fn age_boundary(now_ms: u64, window_ms: u64) -> (r: Result<u64, Error>)
    ensures
        boundary_unrepresentable(now_ms, window_ms) <==> r == Err::<u64, Error>(
            Error::ClockUnrepresentable,
        ),
        !boundary_unrepresentable(now_ms, window_ms) ==> r == Ok::<u64, Error>(
            boundary_spec(now_ms, window_ms) as u64,
        ),
        r matches Ok(b) ==> forall|id: u64|
            #![trigger timestamp_spec(id)]
            (id >= b) <==> timestamp_spec(id) >= threshold_spec(now_ms, window_ms),
{
    if window_ms > now_ms {
        return Err(Error::ClockUnrepresentable);
    }
    let threshold: u64 = now_ms - window_ms;
    if threshold <= DISCORD_EPOCH {
        assert forall|id: u64| #![trigger timestamp_spec(id)]
            (id >= 0u64) <==> timestamp_spec(id) >= threshold_spec(now_ms, window_ms) by {}
        return Ok(0);
    }
    let part: u64 = threshold - DISCORD_EPOCH;
    if part > TIMESTAMP_PART_MAX {
        return Err(Error::ClockUnrepresentable);
    }
    let b: u64 = part * TIMESTAMP_SHIFT_FACTOR;
    assert forall|id: u64| #![trigger timestamp_spec(id)]
        (id >= b) <==> timestamp_spec(id) >= threshold_spec(now_ms, window_ms) by {
        lemma_at_or_above(id as int, part as int, TIMESTAMP_SHIFT_FACTOR as int);
    }
    Ok(b)
}

} // verus!
