//! Zero-cross triac output: the share of mains halfwaves in which the
//! triac is fired.

use vstd::prelude::*;
use vstd::arithmetic::div_mod::{lemma_add_mod_noop_right, lemma_mod_add_multiples_vanish, lemma_small_mod};

verus! {

/// Mains halfwaves per second (50 Hz mains).
pub const HALFWAVES_PER_SECOND: u32 = 100;

/// Gate pulse length for the triac, in microseconds.
pub const TRIAC_PULSE_US: u32 = 2000;

/// A duty cycle in percent, capped at 100.
pub open spec fn clamp_percent(percent: int) -> int {
    if percent < 100 { percent } else { 100 }
}

/// Number of fired halfwaves per second for a duty cycle in percent.
pub open spec fn halfwave_count(percent: int) -> int {
    clamp_percent(percent) * (HALFWAVES_PER_SECOND as int) / 100
}

/// Converts a duty cycle in percent into the number of halfwaves per
/// second in which the triac fires; percentages above 100 count as 100.
pub fn percent_to_halfwave_count(percent: u32) -> (count: u32)
    ensures
        count == halfwave_count(percent as int),
        count == clamp_percent(percent as int),
        count <= HALFWAVES_PER_SECOND,
        percent <= 100 ==> count == percent,
        percent > 100 ==> count == 100,
{
    let clamped: u32 = if percent < 100 { percent } else { 100 };
    clamped * HALFWAVES_PER_SECOND / 100
}


/// Index of the halfwave that follows halfwave `idx` within one second.
pub open spec fn next_index(idx: int) -> int {
    (idx + 1) % (HALFWAVES_PER_SECOND as int)
}

/// Whether the triac fires in halfwave `idx` at the given duty cycle.
pub open spec fn fires(idx: int, duty_percent: int) -> bool {
    idx < halfwave_count(duty_percent)
}

/// Number of halfwaves in which the triac fires, firing in the first
/// `count` halfwaves of each second, during the `n` zero crossings that
/// follow halfwave `start`.
pub open spec fn fired_count(start: int, count: int, n: nat) -> int
    decreases n,
{
    if n == 0 {
        0
    } else {
        let idx = next_index(start);
        (if (idx < count) { 1int } else { 0int }) + fired_count(idx, count, (n - 1) as nat)
    }
}

/// Halfwave count law: a duty cycle of `p` percent fires in `p` of the 100
/// halfwaves of a second, and anything above 100 percent in all of them.
pub proof fn lemma_halfwave_count_is_percent(percent: int)
    ensures
        0 <= percent <= 100 ==> halfwave_count(percent) == percent,
        percent > 100 ==> halfwave_count(percent) == 100,
        percent >= 0 ==> 0 <= halfwave_count(percent) <= 100,
{
}

/// What happens at one zero crossing: the index of the new halfwave and
/// whether the triac gate is pulsed in it.
#[derive(Clone, Copy, Debug, PartialEq, Eq, Structural)]
pub struct HalfwaveStep {
    pub halfwave_idx: u32,
    pub fire: bool,
}

/// The decision taken at each zero crossing: advance the halfwave index
/// within the second and fire the triac in the first
/// `percent_to_halfwave_count(duty_percent)` halfwaves of it.
pub fn next_halfwave(halfwave_idx: u32, duty_percent: u32) -> (step: HalfwaveStep)
    requires
        halfwave_idx < u32::MAX,
    ensures
        step.halfwave_idx == next_index(halfwave_idx as int),
        step.halfwave_idx < HALFWAVES_PER_SECOND,
        step.fire == fires(step.halfwave_idx as int, duty_percent as int),
{
    let idx = (halfwave_idx + 1) % HALFWAVES_PER_SECOND;
    let fire = idx < percent_to_halfwave_count(duty_percent);
    HalfwaveStep { halfwave_idx: idx, fire }
}

/// Counting one more zero crossing adds the last one at the end.
proof fn lemma_fired_count_snoc(start: int, count: int, n: nat)
    requires
        0 <= start,
    ensures
        fired_count(start, count, n + 1) == fired_count(start, count, n) + (if ((start + n + 1) % 100 < count) {
            1int
        } else {
            0int
        }),
    decreases n,
{
    let idx = next_index(start);
    assert(fired_count(start, count, n + 1) == (if (idx < count) { 1int } else { 0int })
        + fired_count(idx, count, n));
    if n > 0 {
        lemma_fired_count_snoc(idx, count, (n - 1) as nat);
        assert((idx + (n - 1) + 1) % 100 == (start + n + 1) % 100) by {
            lemma_add_mod_noop_right(n as int, start + 1, 100);
        }
        assert(fired_count(start, count, n) == (if (idx < count) { 1int } else { 0int })
            + fired_count(idx, count, (n - 1) as nat));
    }
}

/// Starting right before halfwave 0, the first `n` halfwaves of a second
/// hold `min(n, count)` fired ones.
proof fn lemma_fired_count_from_last(count: int, n: nat)
    requires
        n <= 100,
        0 <= count,
    ensures
        fired_count(99, count, n) == if (n as int) < count {
            n as int
        } else {
            count
        },
    decreases n,
{
    if n > 0 {
        let m = (n - 1) as nat;
        lemma_fired_count_from_last(count, m);
        lemma_fired_count_snoc(99, count, m);
        assert((99 + m + 1) % 100 == m) by {
            lemma_mod_add_multiples_vanish(m as int, 100);
            lemma_small_mod(m, 100);
        }
    }
}

/// The count over a full second does not depend on where it starts.
proof fn lemma_fired_count_shift(start: int, count: int)
    requires
        0 <= start,
    ensures
        fired_count(start, count, 100) == fired_count(start + 1, count, 100),
{
    let idx = next_index(start);
    lemma_fired_count_snoc(start + 1, count, 99);
    assert(fired_count(start + 1, count, 99) == fired_count(idx, count, 99)) by {
        lemma_fired_count_same_phase(start + 1, idx, count, 99);
    }
    assert((start + 1 + 99 + 1) % 100 == idx) by {
        lemma_mod_add_multiples_vanish(start + 1, 100);
    }
}

/// Two starting halfwaves with the same index within the second give the
/// same counts.
proof fn lemma_fired_count_same_phase(a: int, b: int, count: int, n: nat)
    requires
        0 <= a,
        0 <= b,
        a % 100 == b % 100,
    ensures
        fired_count(a, count, n) == fired_count(b, count, n),
{
    if n > 0 {
        assert(next_index(a) == next_index(b)) by {
            lemma_add_mod_noop_right(1, a, 100);
            lemma_add_mod_noop_right(1, b, 100);
        }
    }
}

proof fn lemma_fired_count_up_to_last(start: int, count: int)
    requires
        0 <= start <= 99,
    ensures
        fired_count(start, count, 100) == fired_count(99, count, 100),
    decreases 99 - start,
{
    if start < 99 {
        lemma_fired_count_shift(start, count);
        lemma_fired_count_up_to_last(start + 1, count);
    }
}

/// Over any 100 consecutive zero crossings, firing in the first `count`
/// halfwaves of each second fires `min(count, 100)` times, wherever the
/// halfwave index started.
pub proof fn lemma_fired_per_cycle(start: int, count: int)
    requires
        0 <= start,
        0 <= count,
    ensures
        fired_count(start, count, 100) == if count < 100 { count } else { 100 },
{
    lemma_fired_count_same_phase(start, start % 100, count, 100);
    lemma_fired_count_up_to_last(start % 100, count);
    lemma_fired_count_from_last(count, 100);
}

/// Duty cycle law: over any 100 consecutive zero crossings (one second
/// of 50 Hz mains) the triac fires in exactly
/// `percent_to_halfwave_count(duty_percent)` halfwaves, wherever the
/// halfwave index started.
pub proof fn lemma_fired_per_second(start: int, duty_percent: int)
    requires
        0 <= start,
        0 <= duty_percent,
    ensures
        fired_count(start, halfwave_count(duty_percent), 100) == halfwave_count(duty_percent),
{
    lemma_fired_per_cycle(start, halfwave_count(duty_percent));
}

/// Number of `true` entries.
pub open spec fn count_true(fired: Seq<bool>) -> int
    decreases fired.len(),
{
    if fired.len() == 0 {
        0
    } else {
        (if fired[0] { 1int } else { 0int }) + count_true(fired.drop_first())
    }
}

/// A run of zero crossings: `indices[0]` is the halfwave index before the
/// first crossing; at crossing `i` the index moves on to `indices[i + 1]`
/// and the triac fires (`fired[i]`) exactly in the first `count`
/// halfwaves of the second, as each step's contract says.
pub open spec fn is_halfwave_run(indices: Seq<int>, fired: Seq<bool>, count: int) -> bool {
    &&& indices.len() == fired.len() + 1
    &&& forall|i: int|
        0 <= i < fired.len() ==> #[trigger] indices[i + 1] == next_index(indices[i]) && fired[i] == (
        indices[i + 1] < count)
}

/// A run of steps fires as often as the count over its crossings says.
pub proof fn lemma_run_fires_as_counted(indices: Seq<int>, fired: Seq<bool>, count: int)
    requires
        is_halfwave_run(indices, fired, count),
        0 <= indices[0],
    ensures
        count_true(fired) == fired_count(indices[0], count, fired.len()),
    decreases fired.len(),
{
    if fired.len() > 0 {
        let rest_indices = indices.drop_first();
        let rest_fired = fired.drop_first();
        assert(indices[0int + 1] == next_index(indices[0int]));
        assert forall|i: int| 0 <= i < rest_fired.len() implies #[trigger] rest_indices[i + 1] == next_index(
            rest_indices[i],
        ) && rest_fired[i] == (rest_indices[i + 1] < count) by {
            assert(indices[(i + 1) + 1] == next_index(indices[i + 1]));
        }
        lemma_run_fires_as_counted(rest_indices, rest_fired, count);
    }
}

/// Any 100 consecutive calls of [`next_halfwave`] with the same duty cycle,
/// each from the index the one before handed back, fire the triac in
/// exactly `percent_to_halfwave_count(duty_percent)` of them.
pub proof fn lemma_second_of_calls(indices: Seq<int>, fired: Seq<bool>, duty_percent: int)
    requires
        is_halfwave_run(indices, fired, halfwave_count(duty_percent)),
        fired.len() == 100,
        0 <= indices[0],
        0 <= duty_percent,
    ensures
        count_true(fired) == halfwave_count(duty_percent),
{
    lemma_run_fires_as_counted(indices, fired, halfwave_count(duty_percent));
    lemma_fired_per_second(indices[0], duty_percent);
}

/// Calling [`next_halfwave`] once with each halfwave index `0, 1, ..., 99`
/// in turn, with the same duty cycle, fires the triac in exactly
/// `percent_to_halfwave_count(duty_percent)` of the calls: `fired[i]` is
/// what the call with index `i` decides.
pub proof fn lemma_each_index_once(fired: Seq<bool>, duty_percent: int)
    requires
        fired.len() == 100,
        forall|i: int| 0 <= i < 100 ==> #[trigger] fired[i] == fires(next_index(i), duty_percent),
        0 <= duty_percent,
    ensures
        count_true(fired) == halfwave_count(duty_percent),
{
    let indices = Seq::new(101, |k: int| k % 100);
    assert forall|i: int| 0 <= i < fired.len() implies #[trigger] indices[i + 1] == next_index(indices[i])
        && fired[i] == (indices[i + 1] < halfwave_count(duty_percent)) by {
        assert(indices[i] == i);
        assert(fired[i] == fires(next_index(i), duty_percent));
    }
    lemma_second_of_calls(indices, fired, duty_percent);
}

/// Starting from halfwave 0, the index after crossing `k` is `k % 100`, so
/// crossing `k` fires exactly when `k % 100 < count`.
pub proof fn lemma_kth_crossing(indices: Seq<int>, fired: Seq<bool>, count: int)
    requires
        is_halfwave_run(indices, fired, count),
        indices[0] == 0,
    ensures
        forall|k: int| 0 <= k < indices.len() ==> #[trigger] indices[k] == k % 100,
        forall|k: int| 1 <= k <= fired.len() ==> #[trigger] fired[k - 1] == (k % 100 < count),
    decreases fired.len(),
{
    if fired.len() > 0 {
        let m = (fired.len() - 1) as int;
        let shorter_indices = indices.take(m + 1);
        let shorter_fired = fired.take(m);
        assert forall|i: int| 0 <= i < shorter_fired.len() implies #[trigger] shorter_indices[i + 1] == next_index(
            shorter_indices[i],
        ) && shorter_fired[i] == (shorter_indices[i + 1] < count) by {
            assert(indices[i + 1] == next_index(indices[i]));
        }
        lemma_kth_crossing(shorter_indices, shorter_fired, count);
        assert(indices[m + 1] == next_index(indices[m]));
        assert(indices[m] == shorter_indices[m]);
        assert((m % 100 + 1) % 100 == (m + 1) % 100) by {
            lemma_add_mod_noop_right(1, m, 100);
        }
        assert forall|k: int| 0 <= k < indices.len() implies #[trigger] indices[k] == k % 100 by {
            if k <= m {
                assert(indices[k] == shorter_indices[k]);
            }
        }
        assert forall|k: int| 1 <= k <= fired.len() implies #[trigger] fired[k - 1] == (k % 100 < count) by {
            assert(indices[(k - 1) + 1] == next_index(indices[k - 1]));
            assert(indices[k] == k % 100);
        }
    }
}

} // verus!
