//! The fixed-duty triac test: one zero-cross-driven output at a constant
//! duty cycle, with 8-bit counters.

use vstd::prelude::*;
use crate::output::{
    clamp_percent, count_true, is_halfwave_run, lemma_fired_per_cycle, lemma_kth_crossing,
    lemma_run_fires_as_counted, next_index,
};

verus! {

/// Halfwaves per second at 50 Hz mains.
pub const HALFWAVES_PER_SECOND: u8 = 100;

/// The fixed duty cycle of the test, in percent.
pub const DUTY_CYCLE_PERCENT: u8 = 50;

/// Gate pulse length for the triac, in microseconds.
pub const TRIAC_PULSE_US: u64 = 2000;

/// Halfwaves per second in which the triac fires for a duty cycle in
/// percent; percentages above 100 count as 100.
pub fn percent_to_halfwave_count(percent: u8) -> (count: u8)
    ensures
        count == clamp_percent(percent as int) * (HALFWAVES_PER_SECOND as int) / 100,
        count == clamp_percent(percent as int),
        percent <= 100 ==> count == percent,
        percent > 100 ==> count == 100,
{
    let clamped: u8 = if percent < 100 { percent } else { 100 };
    ((clamped as u16 * HALFWAVES_PER_SECOND as u16) / 100) as u8
}

/// One zero crossing of the test: the index of the new halfwave within
/// the second, and whether the triac fires in it (in the first
/// `duty_halfwaves` halfwaves of each second).
pub fn next_halfwave(halfwave_idx: u8, duty_halfwaves: u8) -> (step: (u8, bool))
    requires
        halfwave_idx < u8::MAX,
    ensures
        step.0 == next_index(halfwave_idx as int),
        step.0 < HALFWAVES_PER_SECOND,
        step.1 == (step.0 < duty_halfwaves),
{
    let idx = (halfwave_idx + 1) % HALFWAVES_PER_SECOND;
    (idx, idx < duty_halfwaves)
}

/// The test's duty cycle: any 100 consecutive zero crossings, each step
/// from the index the one before handed back and firing in the first
/// `percent_to_halfwave_count(DUTY_CYCLE_PERCENT)` halfwaves, pulse the
/// gate exactly 50 times.
pub proof fn lemma_test_second(indices: Seq<int>, fired: Seq<bool>)
    requires
        is_halfwave_run(indices, fired, clamp_percent(DUTY_CYCLE_PERCENT as int)),
        fired.len() == 100,
        0 <= indices[0],
    ensures
        count_true(fired) == 50,
{
    lemma_run_fires_as_counted(indices, fired, 50);
    lemma_fired_per_cycle(indices[0], 50);
}

/// With the halfwave index at 0 before the first zero crossing, zero
/// crossing number `k`, the first being number 1, fires the triac exactly
/// when `k % 100 < 50`.
pub proof fn lemma_fixed_duty_crossing(indices: Seq<int>, fired: Seq<bool>)
    requires
        is_halfwave_run(indices, fired, clamp_percent(DUTY_CYCLE_PERCENT as int)),
        indices[0] == 0,
    ensures
        forall|k: int| 1 <= k <= fired.len() ==> #[trigger] fired[k - 1] == (k % 100 < 50),
{
    lemma_kth_crossing(indices, fired, 50);
}

} // verus!
