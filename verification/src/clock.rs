//! The monotonic clock of `embassy_time`, held as plain tick counts.

use vstd::prelude::*;

verus! {

/// Clock ticks per second of `embassy_time` as this crate builds it: the
/// crate turns on `tick-hz-1_000_000`, so `TICK_HZ` is one million, and a
/// build that selects any other rate as well fails to compile.
pub open spec fn ticks_per_second() -> int {
    1_000_000
}

/// Reads the clock: `embassy_time::Instant::now()`, handed back as its tick
/// count (`Instant::as_ticks`). The value is the time of the call, so
/// nothing is stated of it.
#[verifier::external_body]
pub(crate) fn now_ticks() -> u64 {
    embassy_time::Instant::now().as_ticks()
}

/// `embassy_time::Instant::as_secs` of the instant with the given tick
/// count (`Instant::from_ticks`): whole seconds since boot, which the
/// source computes as `ticks / TICK_HZ`.
#[verifier::external_body]
pub(crate) fn instant_secs(ticks: u64) -> (secs: u64)
    ensures
        secs == ticks as int / ticks_per_second(),
{
    embassy_time::Instant::from_ticks(ticks).as_secs()
}

/// `embassy_time::Duration::as_secs` of the duration with the given tick
/// count (`Duration::from_ticks`): whole seconds, rounded down, which the
/// source computes as `ticks / TICK_HZ`.
#[verifier::external_body]
pub(crate) fn duration_secs(ticks: u64) -> (secs: u64)
    ensures
        secs == ticks as int / ticks_per_second(),
{
    embassy_time::Duration::from_ticks(ticks).as_secs()
}

} // verus!
