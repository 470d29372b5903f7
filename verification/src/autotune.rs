//! The bookkeeping of the PID gain self-tuning: which adjustment a tuning
//! step makes, and how long the control error has stayed small.

use vstd::prelude::*;

verus! {

/// Steps with a small control error after which the integral gain is
/// raised.
pub const STABLE_THRESHOLD: u16 = 8;

/// The gain adjustment a tuning step makes.
#[derive(Clone, Copy, Debug, PartialEq, Eq, Structural)]
pub enum GainAdjustment {
    /// The error changed sign: lower P, raise D, lower I.
    DampOvershoot,
    /// The error is outside the error band: raise P.
    RaiseProportional,
    /// The error is inside the band; after more than `STABLE_THRESHOLD`
    /// such steps in a row, raise I.
    Steady { raise_integral: bool },
}

/// The adjustment of one tuning step and the new count of steps in a row
/// with a small error.
#[derive(Clone, Copy, Debug, PartialEq, Eq, Structural)]
pub struct TuneStep {
    pub adjustment: GainAdjustment,
    pub stable_cycles: u16,
}

/// Decides one tuning step from the count of steady steps so far, whether
/// the control error changed sign since the last step, and whether it lies
/// outside the error band.
pub fn tune_step(stable_cycles: u16, sign_flip: bool, large_error: bool) -> (step: TuneStep)
    ensures
        sign_flip ==> step.adjustment == GainAdjustment::DampOvershoot && step.stable_cycles == 0,
        !sign_flip && large_error ==> step.adjustment == GainAdjustment::RaiseProportional
            && step.stable_cycles == 0,
        !sign_flip && !large_error ==> {
            &&& step.stable_cycles == if stable_cycles < u16::MAX {
                stable_cycles + 1
            } else {
                u16::MAX as int
            }
            &&& step.adjustment == GainAdjustment::Steady {
                raise_integral: step.stable_cycles > STABLE_THRESHOLD,
            }
        },
{
    if sign_flip {
        TuneStep { adjustment: GainAdjustment::DampOvershoot, stable_cycles: 0 }
    } else if large_error {
        TuneStep { adjustment: GainAdjustment::RaiseProportional, stable_cycles: 0 }
    } else {
        let cycles = stable_cycles.saturating_add(1);
        TuneStep {
            adjustment: GainAdjustment::Steady { raise_integral: cycles > STABLE_THRESHOLD },
            stable_cycles: cycles,
        }
    }
}

} // verus!
