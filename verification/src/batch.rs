//! Closed-loop batch sizing.
//!
//! Each miner sizes its next batch so that running it takes roughly the
//! configured kernel duration: the new size is the old one scaled by the
//! ratio of the desired duration to the observed one, clamped to
//! `1 ..= max_worksize`. The correction is proportional and monotone: a batch
//! that finished early never shrinks the next batch, and one that finished
//! late never grows it.

use vstd::arithmetic::div_mod::lemma_div_is_ordered;
use vstd::arithmetic::div_mod::lemma_div_multiples_vanish;
use vstd::arithmetic::mul::lemma_mul_inequality;
use vstd::prelude::*;

verus! {

/// The next batch size: the current size scaled by
/// `target_micros / elapsed_micros`, clamped to `1 ..= max_worksize`.
/// A batch observed to take no measurable time jumps straight to the bound.
pub open spec fn next_batch_size_spec(
    current: u64,
    elapsed_micros: u64,
    target_micros: u64,
    max_worksize: u64,
) -> int
    recommends
        1 <= current <= max_worksize,
{
    if elapsed_micros == 0 {
        max_worksize as int
    } else {
        let scaled = (current * target_micros) / (elapsed_micros as int);
        if scaled > max_worksize {
            max_worksize as int
        } else if scaled < 1 {
            1
        } else {
            scaled
        }
    }
}

/// Adapt the batch size after one batch: proportional closed-loop control,
/// clamped to `1 ..= max_worksize`. A batch that ran faster than the desired
/// cadence never decreases the size; one that ran slower never increases it;
/// a batch that hit the cadence exactly keeps the size unchanged.
pub fn next_batch_size(
    current: u64,
    elapsed_micros: u64,
    target_micros: u64,
    max_worksize: u64,
) -> (next: u64)
    requires
        1 <= current <= max_worksize,
    ensures
        next == next_batch_size_spec(current, elapsed_micros, target_micros, max_worksize),
        1 <= next <= max_worksize,
        elapsed_micros <= target_micros ==> next >= current,
        elapsed_micros >= target_micros && elapsed_micros > 0 ==> next <= current,
        elapsed_micros == target_micros && elapsed_micros > 0 ==> next == current,
{
    if elapsed_micros == 0 {
        proof {
            lemma_batch_adaptation_monotone(current, elapsed_micros, target_micros, max_worksize);
        }
        return max_worksize;
    }
    proof {
        lemma_mul_inequality(current as int, u64::MAX as int, target_micros as int);
        lemma_mul_inequality(target_micros as int, u64::MAX as int, u64::MAX as int);
    }
    let scaled: u128 = (current as u128) * (target_micros as u128) / (elapsed_micros as u128);
    let next: u64 = if scaled > (max_worksize as u128) {
        max_worksize
    } else if scaled < 1 {
        1
    } else {
        scaled as u64
    };
    proof {
        lemma_batch_adaptation_monotone(current, elapsed_micros, target_micros, max_worksize);
    }
    next
}

/// The closed-loop correction is monotone and oscillation-free: a batch
/// faster than the desired cadence never shrinks the next batch, a slower
/// one never grows it, and under stable timing that exactly meets the
/// cadence the size is a fixed point.
pub proof fn lemma_batch_adaptation_monotone(
    current: u64,
    elapsed_micros: u64,
    target_micros: u64,
    max_worksize: u64,
)
    requires
        1 <= current <= max_worksize,
    ensures
        1 <= next_batch_size_spec(current, elapsed_micros, target_micros, max_worksize)
            <= max_worksize,
        elapsed_micros <= target_micros ==> next_batch_size_spec(
            current,
            elapsed_micros,
            target_micros,
            max_worksize,
        ) >= current,
        elapsed_micros >= target_micros && elapsed_micros > 0 ==> next_batch_size_spec(
            current,
            elapsed_micros,
            target_micros,
            max_worksize,
        ) <= current,
        elapsed_micros == target_micros && elapsed_micros > 0 ==> next_batch_size_spec(
            current,
            elapsed_micros,
            target_micros,
            max_worksize,
        ) == current,
{
    if elapsed_micros > 0 {
        let c = current as int;
        let e = elapsed_micros as int;
        let t = target_micros as int;
        let scaled = (c * t) / e;
        lemma_div_multiples_vanish(c, e);
        if e <= t {
            lemma_mul_inequality(e, t, c);
            lemma_div_is_ordered(c * e, c * t, e);
            assert(scaled >= (c * e) / e);
        }
        if t <= e {
            lemma_mul_inequality(t, e, c);
            lemma_div_is_ordered(c * t, c * e, e);
            assert(scaled <= (c * e) / e);
        }
    }
}

} // verus!
