//! Starting and stopping the oven from its two buttons.

use vstd::prelude::*;
use crate::temperature::temp_config::CurveState;

verus! {

/// What one pass of the control loop does with the buttons.
#[derive(Clone, Copy, Debug, PartialEq, Eq, Structural)]
pub struct RunStep {
    /// The start button starts an oven that was not running.
    pub start: bool,
    /// The stop button stops an oven that was running (or was just
    /// started): the profile and the controller are reset.
    pub stop: bool,
    /// Whether the oven runs for the rest of the pass.
    pub running: bool,
}

/// One pass over the buttons: the start button (active high) starts a
/// stopped oven, then the stop button (active low) stops a running one.
pub fn run_step(should_run: bool, start_high: bool, stop_low: bool) -> (step: RunStep)
    ensures
        step.start == (start_high && !should_run),
        step.stop == (stop_low && (should_run || start_high)),
        step.running == ((should_run || start_high) && !stop_low),
        // Pressing stop always leaves the oven stopped.
        stop_low ==> !step.running,
        // Without a button the oven keeps doing what it did.
        (!start_high && !stop_low) ==> step.running == should_run && !step.start && !step.stop,
{
    let mut running = should_run;
    let start = start_high && !running;
    if start {
        running = true;
    }
    let stop = stop_low && running;
    if stop {
        running = false;
    }
    RunStep { start, stop, running }
}

/// Whether the reflow run is over: the oven is cooling down and the
/// reading is at or below the cooldown target. Then the oven is stopped
/// and the profile and the controller are reset.
pub fn cooldown_complete(stage: CurveState, at_or_below_target: bool) -> (done: bool)
    ensures
        done == (stage == CurveState::Cooldown && at_or_below_target),
{
    stage == CurveState::Cooldown && at_or_below_target
}

} // verus!
