//! A timer that fixes its start instant on first use.

use vstd::prelude::*;
use crate::clock::{now_ticks, instant_secs, ticks_per_second};

verus! {

/// Holds the clock reading, in ticks, taken on the first call of
/// [`OvenTimer::elapsed_secs`] since creation or the last
/// [`OvenTimer::clear`].
pub struct OvenTimer {
    instant: Option<u64>,
}

/// What `elapsed_secs` hands back for a timer whose instant is fixed.
pub open spec fn instant_seconds(instant: Option<u64>) -> int {
    match instant {
        Some(ticks) => ticks as int / ticks_per_second(),
        None => 0,
    }
}

/// `after` and `secs` are what a call of `elapsed_secs` at clock reading
/// `now` makes of `before`: a timer without an instant fixes it at `now`,
/// one with an instant keeps it, and the fixed instant's seconds since boot
/// come back.
pub open spec fn fixed_at(before: OvenTimer, after: OvenTimer, now: u64, secs: u64) -> bool {
    &&& before.instant() is None ==> after.instant() == Some(now)
    &&& before.instant() is Some ==> after.instant() == before.instant()
    &&& secs == instant_seconds(after.instant())
}

impl OvenTimer {
    /// The fixed instant, in clock ticks, if one was taken.
    pub closed spec fn instant(self) -> Option<u64> {
        self.instant
    }

    /// A timer without an instant.
    pub fn new() -> (timer: Self)
        ensures
            timer.instant() is None,
    {
        Self { instant: None }
    }

    /// The fixed instant in whole seconds since boot (not the time that has
    /// passed since it), where a timer without an instant first fixes it at
    /// the clock reading `now`.
    pub fn elapsed_secs_at(&mut self, now: u64) -> (secs: u64)
        ensures
            old(self).instant() is None ==> final(self).instant() == Some(now),
            old(self).instant() is Some ==> final(self).instant() == old(self).instant(),
            secs == instant_seconds(final(self).instant()),
            fixed_at(*old(self), *final(self), now, secs),
    {
        match self.instant {
            Some(start_instant) => instant_secs(start_instant),
            None => {
                self.instant = Some(now);
                instant_secs(now)
            },
        }
    }

    /// The fixed instant in whole seconds since boot (not the time that has
    /// passed since it); the first call after creation or `clear` fixes the
    /// instant at the current clock reading.
    pub fn elapsed_secs(&mut self) -> (secs: u64)
        ensures
            final(self).instant() is Some,
            old(self).instant() is Some ==> final(self).instant() == old(self).instant(),
            secs == instant_seconds(final(self).instant()),
            exists|now: u64| #[trigger] fixed_at(*old(self), *final(self), now, secs),
    {
        match self.instant {
            Some(start_instant) => {
                let secs = instant_secs(start_instant);
                assert(fixed_at(*old(self), *self, start_instant, secs));
                secs
            },
            None => {
                let now = now_ticks();
                self.elapsed_secs_at(now)
            },
        }
    }

    /// Drops the fixed instant.
    pub fn clear(&mut self)
        ensures
            final(self).instant() is None,
    {
        self.instant = None;
    }
}

/// First-call law: on a timer without an instant, a call at clock reading
/// `now` fixes the instant at `now` and hands back `now` in whole seconds
/// of a million ticks.
pub proof fn lemma_first_call_fixes_reading(before: OvenTimer, after: OvenTimer, now: u64, secs: u64)
    requires
        before.instant() is None,
        fixed_at(before, after, now, secs),
    ensures
        after.instant() == Some(now),
        secs == now / 1_000_000,
        secs * 1_000_000 <= now < (secs + 1) * 1_000_000,
{
}

/// Later-call law: on a timer whose instant is fixed at `start`, a call at
/// any clock reading keeps the instant and hands back `start` in whole
/// seconds of a million ticks.
pub proof fn lemma_later_call_keeps_instant(
    before: OvenTimer,
    after: OvenTimer,
    start: u64,
    now: u64,
    secs: u64,
)
    requires
        before.instant() == Some(start),
        fixed_at(before, after, now, secs),
    ensures
        after.instant() == Some(start),
        secs == start / 1_000_000,
{
}

/// After `clear`, the next call fixes the instant at that call's clock
/// reading: for a cleared timer `cleared`, and `after` the timer that call
/// leaves.
pub proof fn lemma_clear_restarts(cleared: OvenTimer, after: OvenTimer, now: u64, secs: int)
    requires
        cleared.instant() is None,
        cleared.instant() is None ==> after.instant() == Some(now),
        secs == instant_seconds(after.instant()),
    ensures
        after.instant() == Some(now),
        secs == now as int / ticks_per_second(),
{
}

/// Once the instant is fixed, `elapsed_secs` keeps handing back the same
/// value until `clear`: two calls in a row, the second on the timer the
/// first left, agree.
pub proof fn lemma_elapsed_secs_repeats(
    first: OvenTimer,
    between: OvenTimer,
    after: OvenTimer,
    first_secs: int,
    second_secs: int,
)
    requires
        between.instant() is Some,
        first.instant() is Some ==> between.instant() == first.instant(),
        first_secs == instant_seconds(between.instant()),
        after.instant() is Some,
        between.instant() is Some ==> after.instant() == between.instant(),
        second_secs == instant_seconds(after.instant()),
    ensures
        first_secs == second_secs,
        after.instant() == between.instant(),
{
}

} // verus!
