//! The stages of the reflow profile and how the oven moves through them.
//!
//! Each stage ends when the oven has reached the stage's target
//! temperature or, for a stage with a nonzero time limit, when the stage
//! has lasted longer than that many seconds. Temperatures are compared
//! by the caller: the library receives, for each stage, whether the
//! current reading is at or above that stage's target.

use vstd::prelude::*;
use crate::clock::{now_ticks, duration_secs, ticks_per_second};

verus! {

/// The stages of the reflow profile, in the order the oven goes through
/// them.
#[derive(Clone, Copy, Debug, PartialEq, Eq, Structural)]
pub enum CurveState {
    Preheat,
    HeatSoak,
    Reflow,
    Cooldown,
}

impl CurveState {
    /// Position of the stage in the profile.
    pub open spec fn rank(self) -> int {
        match self {
            CurveState::Preheat => 0,
            CurveState::HeatSoak => 1,
            CurveState::Reflow => 2,
            CurveState::Cooldown => 3,
        }
    }

    /// The stage that follows; the oven stays in `Cooldown`.
    pub open spec fn next(self) -> CurveState {
        match self {
            CurveState::Preheat => CurveState::HeatSoak,
            CurveState::HeatSoak => CurveState::Reflow,
            CurveState::Reflow => CurveState::Cooldown,
            CurveState::Cooldown => CurveState::Cooldown,
        }
    }

    /// Position of the stage in the profile, as an index into per-stage
    /// tables.
    pub fn index(&self) -> (i: usize)
        ensures
            i as int == self.rank(),
            i < 4,
    {
        match self {
            CurveState::Preheat => 0,
            CurveState::HeatSoak => 1,
            CurveState::Reflow => 2,
            CurveState::Cooldown => 3,
        }
    }
}

/// Whether a stage is over: the temperature reached its target, or the
/// stage has a time limit and has lasted longer than it.
pub open spec fn stage_finished(time_limit: u64, elapsed_secs: u64, at_or_above_target: bool) -> bool {
    at_or_above_target || (time_limit != 0 && elapsed_secs > time_limit)
}

/// The stage the oven comes to when it enters `state` with a freshly
/// started stage timer: it moves on while the temperature is at or above
/// the target of the stage it is in, and comes to rest in `Cooldown` at
/// the latest, whatever the reading.
pub open spec fn settled(state: CurveState, at_or_above: Seq<bool>) -> CurveState
    decreases 3 - state.rank(),
{
    if !at_or_above[state.rank()] || state == CurveState::Cooldown {
        state
    } else {
        settled(state.next(), at_or_above)
    }
}

/// The stage the oven is in after bringing stage `stage`, which has
/// lasted `elapsed_secs`, up to date with a reading. `Cooldown` is the
/// last stage: the oven stays in it, holding its output, whatever the
/// reading.
pub open spec fn settle_result(
    stage: CurveState,
    limits: Seq<u64>,
    elapsed_secs: u64,
    at_or_above: Seq<bool>,
) -> CurveState {
    if stage == CurveState::Cooldown {
        stage
    } else if stage_finished(limits[stage.rank()], elapsed_secs, at_or_above[stage.rank()]) {
        settled(stage.next(), at_or_above)
    } else {
        stage
    }
}

/// Stages follow one another in profile order, one at a time: three steps
/// from any stage reach `Cooldown`, no step leads back to an earlier stage,
/// and the oven stays in `Cooldown`.
pub proof fn lemma_profile_order(state: CurveState)
    ensures
        state != CurveState::Cooldown ==> state.next().rank() == state.rank() + 1,
        state.next().rank() >= state.rank(),
        state.next().next().next() == CurveState::Cooldown,
        CurveState::Cooldown.next() == CurveState::Cooldown,
        0 <= state.rank() <= 3,
{
}

/// Moving on never leads back to an earlier stage, and comes to rest in
/// `Cooldown` or in a stage whose target the reading has not reached.
pub proof fn lemma_settled_not_earlier(state: CurveState, at_or_above: Seq<bool>)
    ensures
        settled(state, at_or_above).rank() >= state.rank(),
        settled(state, at_or_above) != CurveState::Cooldown ==> !at_or_above[settled(
            state,
            at_or_above,
        ).rank()],
    decreases 3 - state.rank(),
{
    if at_or_above[state.rank()] && state != CurveState::Cooldown {
        lemma_settled_not_earlier(state.next(), at_or_above);
    }
}

/// Bringing the profile up to date never moves it back, and leaves it in
/// `Cooldown` or in a stage whose target the reading has not reached.
pub proof fn lemma_settle_result_forward(
    stage: CurveState,
    limits: Seq<u64>,
    elapsed_secs: u64,
    at_or_above: Seq<bool>,
)
    ensures
        settle_result(stage, limits, elapsed_secs, at_or_above).rank() >= stage.rank(),
        settle_result(stage, limits, elapsed_secs, at_or_above) != CurveState::Cooldown
            ==> !at_or_above[settle_result(stage, limits, elapsed_secs, at_or_above).rank()],
{
    lemma_settled_not_earlier(stage.next(), at_or_above);
}

/// Bringing the profile up to date a second time with the same reading,
/// before the new stage's time limit has run out, changes nothing.
pub proof fn lemma_settle_result_idempotent(
    stage: CurveState,
    limits: Seq<u64>,
    first_elapsed: u64,
    second_elapsed: u64,
    at_or_above: Seq<bool>,
)
    requires
        ({
            let r = settle_result(stage, limits, first_elapsed, at_or_above);
            limits[r.rank()] == 0 || second_elapsed <= limits[r.rank()]
        }),
    ensures
        ({
            let r = settle_result(stage, limits, first_elapsed, at_or_above);
            settle_result(r, limits, second_elapsed, at_or_above) == r
        }),
{
    lemma_settle_result_forward(stage, limits, first_elapsed, at_or_above);
}

/// Three moves on from any stage reach `Cooldown`, and no move leads back:
/// for profiles `c0` to `c3`, each the one before it after a move.
pub proof fn lemma_three_moves_reach_cooldown(c0: TempConfig, c1: TempConfig, c2: TempConfig, c3: TempConfig)
    requires
        c1.stage() == c0.stage().next(),
        c2.stage() == c1.stage().next(),
        c3.stage() == c2.stage().next(),
    ensures
        c3.stage() == CurveState::Cooldown,
        c3.stage().next() == CurveState::Cooldown,
        c0.stage().rank() <= c1.stage().rank() <= c2.stage().rank() <= c3.stage().rank(),
{
}

/// Whole seconds from clock reading `start` to clock reading `now`.
pub open spec fn whole_seconds_between(start: u64, now: u64) -> int {
    (now - start) / ticks_per_second()
}

/// Whole seconds a stage that began at clock reading `start` has lasted
/// at clock reading `now`; a reading before the start counts as none.
pub open spec fn stage_secs(start: u64, now: u64) -> u64 {
    if now >= start {
        whole_seconds_between(start, now) as u64
    } else {
        0
    }
}

/// The reflow profile: the stage the oven is in, when that stage began,
/// and the time limit of each stage in seconds (0: no limit).
pub struct TempConfig {
    current_state: CurveState,
    timer: u64,
    time_limits: [u64; 4],
}

impl TempConfig {
    /// The stage the oven is in.
    pub closed spec fn stage(self) -> CurveState {
        self.current_state
    }

    /// The stage the oven is in.
    pub fn current_state(&self) -> (state: CurveState)
        ensures
            state == self.stage(),
    {
        self.current_state
    }

    /// Clock ticks at which the current stage began.
    pub closed spec fn timer_start(self) -> u64 {
        self.timer
    }

    /// Time limit of each stage in seconds, by rank; 0 means none.
    pub closed spec fn limits(self) -> Seq<u64> {
        self.time_limits@
    }

    /// A profile in `Preheat` whose stage timer starts at the clock
    /// reading `now`.
    pub fn new_at(time_limits: [u64; 4], now: u64) -> (config: Self)
        ensures
            config.stage() == CurveState::Preheat,
            config.limits() == time_limits@,
            config.timer_start() == now,
    {
        TempConfig { current_state: CurveState::Preheat, timer: now, time_limits }
    }

    /// A profile in `Preheat` whose stage timer starts now, by the clock.
    pub fn new(time_limits: [u64; 4]) -> (config: Self)
        ensures
            config.stage() == CurveState::Preheat,
            config.limits() == time_limits@,
    {
        Self::new_at(time_limits, now_ticks())
    }

    /// Goes back to `Preheat`; the stage timer keeps running.
    pub fn reset(&mut self)
        ensures
            final(self).stage() == CurveState::Preheat,
            final(self).limits() == old(self).limits(),
            final(self).timer_start() == old(self).timer_start(),
    {
        self.current_state = CurveState::Preheat;
    }

    /// Moves on to the next stage and restarts the stage timer at the clock
    /// reading `now`.
    fn advance_state(&mut self, now: u64)
        ensures
            final(self).stage() == old(self).stage().next(),
            final(self).limits() == old(self).limits(),
            final(self).timer_start() == now,
    {
        self.timer = now;
        self.current_state = match self.current_state {
            CurveState::Preheat => CurveState::HeatSoak,
            CurveState::HeatSoak => CurveState::Reflow,
            CurveState::Reflow => CurveState::Cooldown,
            CurveState::Cooldown => CurveState::Cooldown,
        };
    }

    /// Time limit of the given stage in seconds; 0 means none.
    pub fn time_limit(&self, state: CurveState) -> (limit: u64)
        ensures
            limit == self.limits()[state.rank()],
    {
        self.time_limits[state.index()]
    }

    /// Brings the profile up to date with a temperature reading, given how
    /// long the current stage has lasted and the clock reading `now`.
    /// `at_or_above[i]` tells whether the reading is at or above the target
    /// of the stage of rank `i`.
    ///
    /// If the current stage is over, the oven moves on and the stage timer
    /// restarts at `now`; it keeps moving on while the reading is at or
    /// above the target of the stage it has just entered, up to `Cooldown`
    /// at the latest: a stage entered here has just restarted its timer,
    /// so only its temperature target can end it within this call.
    /// `Cooldown` is the last stage: the oven stays in it and keeps the
    /// cooldown output; when it is over, only its timer restarts.
    /// Returns the stage the oven is in afterwards.
    pub fn settle_at(&mut self, elapsed_secs: u64, now: u64, at_or_above: [bool; 4]) -> (state: CurveState)
        ensures
            state == final(self).stage(),
            state == settle_result(old(self).stage(), old(self).limits(), elapsed_secs, at_or_above@),
            final(self).limits() == old(self).limits(),
            state != CurveState::Cooldown ==> !at_or_above@[state.rank()],
            old(self).stage() == CurveState::Cooldown ==> state == CurveState::Cooldown,
            old(self).stage() != CurveState::Cooldown && stage_finished(
                old(self).limits()[old(self).stage().rank()],
                elapsed_secs,
                at_or_above@[old(self).stage().rank()],
            ) ==> state == settled(old(self).stage().next(), at_or_above@),
            stage_finished(
                old(self).limits()[old(self).stage().rank()],
                elapsed_secs,
                at_or_above@[old(self).stage().rank()],
            ) ==> final(self).timer_start() == now,
            !stage_finished(
                old(self).limits()[old(self).stage().rank()],
                elapsed_secs,
                at_or_above@[old(self).stage().rank()],
            ) ==> *final(self) == *old(self),
            settled_at(*old(self), *final(self), elapsed_secs, now, at_or_above@, state),
    {
        let idx = self.current_state.index();
        let limit = self.time_limits[idx];
        if at_or_above[idx] || (limit != 0 && elapsed_secs > limit) {
            let ghost start = old(self).stage().next();
            self.advance_state(now);
            while at_or_above[self.current_state.index()] && self.current_state != CurveState::Cooldown
                invariant
                    settled(self.current_state, at_or_above@) == settled(start, at_or_above@),
                    old(self).stage() == CurveState::Cooldown ==> self.current_state == CurveState::Cooldown,
                    self.limits() == old(self).limits(),
                    self.timer_start() == now,
                decreases 3 - self.current_state.rank(),
            {
                self.advance_state(now);
            }
        }
        self.current_state
    }

    /// [`TempConfig::settle_at`] with the stage timer, where it restarts,
    /// restarting at the current clock reading.
    pub fn settle(&mut self, elapsed_secs: u64, at_or_above: [bool; 4]) -> (state: CurveState)
        ensures
            state == final(self).stage(),
            state == settle_result(old(self).stage(), old(self).limits(), elapsed_secs, at_or_above@),
            final(self).limits() == old(self).limits(),
            state != CurveState::Cooldown ==> !at_or_above@[state.rank()],
            old(self).stage() == CurveState::Cooldown ==> state == CurveState::Cooldown,
            old(self).stage() != CurveState::Cooldown && stage_finished(
                old(self).limits()[old(self).stage().rank()],
                elapsed_secs,
                at_or_above@[old(self).stage().rank()],
            ) ==> state == settled(old(self).stage().next(), at_or_above@),
            !stage_finished(
                old(self).limits()[old(self).stage().rank()],
                elapsed_secs,
                at_or_above@[old(self).stage().rank()],
            ) ==> *final(self) == *old(self),
            exists|now: u64| #[trigger] settled_at(*old(self), *final(self), elapsed_secs, now, at_or_above@, state),
    {
        let now = now_ticks();
        self.settle_at(elapsed_secs, now, at_or_above)
    }

    /// Whole seconds the current stage has lasted at the clock reading
    /// `now`; a reading before the stage's start counts as none.
    fn stage_elapsed_secs(&self, now: u64) -> (secs: u64)
        ensures
            secs == stage_secs(self.timer_start(), now),
    {
        // The clock never runs backwards, and the stage began at an
        // earlier reading of it, so `now` is not below the start.
        if now >= self.timer {
            duration_secs(now - self.timer)
        } else {
            0
        }
    }

    /// Brings the profile up to date with a temperature reading at the
    /// clock reading `now`: the current stage has lasted
    /// `stage_secs(timer_start, now)`, and where the stage timer restarts,
    /// it restarts at `now`; see [`TempConfig::settle_at`]. Returns the
    /// stage the oven is in afterwards.
    pub fn get_target_temp_at(&mut self, now: u64, at_or_above: [bool; 4]) -> (state: CurveState)
        ensures
            state == final(self).stage(),
            final(self).limits() == old(self).limits(),
            state == settle_result(
                old(self).stage(),
                old(self).limits(),
                stage_secs(old(self).timer_start(), now),
                at_or_above@,
            ),
            stage_finished(
                old(self).limits()[old(self).stage().rank()],
                stage_secs(old(self).timer_start(), now),
                at_or_above@[old(self).stage().rank()],
            ) ==> final(self).timer_start() == now,
            !stage_finished(
                old(self).limits()[old(self).stage().rank()],
                stage_secs(old(self).timer_start(), now),
                at_or_above@[old(self).stage().rank()],
            ) ==> *final(self) == *old(self),
            updated_at(*old(self), *final(self), now, at_or_above@, state),
    {
        let elapsed = self.stage_elapsed_secs(now);
        self.settle_at(elapsed, now, at_or_above)
    }

    /// Brings the profile up to date with a temperature reading at the
    /// current clock reading; see [`TempConfig::get_target_temp_at`].
    /// Returns the stage the oven is in afterwards.
    pub fn get_target_temp(&mut self, at_or_above: [bool; 4]) -> (state: CurveState)
        ensures
            state == final(self).stage(),
            final(self).limits() == old(self).limits(),
            state.rank() >= old(self).stage().rank(),
            state != CurveState::Cooldown ==> !at_or_above@[state.rank()],
            old(self).stage() == CurveState::Cooldown ==> state == CurveState::Cooldown,
            *final(self) == *old(self) || state == settled(old(self).stage().next(), at_or_above@),
            at_or_above@[old(self).stage().rank()] ==> state == settled(old(self).stage().next(), at_or_above@),
            (!at_or_above@[old(self).stage().rank()] && old(self).limits()[old(self).stage().rank()]
                == 0) ==> state == old(self).stage() && *final(self) == *old(self),
            exists|now: u64| #[trigger] updated_at(*old(self), *final(self), now, at_or_above@, state),
    {
        let now = now_ticks();
        let state = self.get_target_temp_at(now, at_or_above);
        proof {
            lemma_settle_result_forward(
                old(self).stage(),
                old(self).limits(),
                stage_secs(old(self).timer_start(), now),
                at_or_above@,
            );
        }
        state
    }
}


/// `after`, with result `state`, is what [`TempConfig::settle_at`] makes of
/// `before` for a stage that has lasted `elapsed_secs`, restarting the
/// stage timer, where it restarts, at clock reading `now`.
pub open spec fn settled_at(
    before: TempConfig,
    after: TempConfig,
    elapsed_secs: u64,
    now: u64,
    at_or_above: Seq<bool>,
    state: CurveState,
) -> bool {
    let finished = stage_finished(
        before.limits()[before.stage().rank()],
        elapsed_secs,
        at_or_above[before.stage().rank()],
    );
    &&& state == after.stage()
    &&& after.limits() == before.limits()
    &&& state == settle_result(before.stage(), before.limits(), elapsed_secs, at_or_above)
    &&& finished ==> after.timer_start() == now
    &&& !finished ==> after == before
}

/// `after`, with result `state`, is what bringing `before` up to date with
/// a temperature reading at clock reading `now` makes of it.
pub open spec fn updated_at(
    before: TempConfig,
    after: TempConfig,
    now: u64,
    at_or_above: Seq<bool>,
    state: CurveState,
) -> bool {
    settled_at(before, after, stage_secs(before.timer_start(), now), now, at_or_above, state)
}

/// More than `limit` whole seconds after `start`, counted in clock ticks at
/// one million per second.
proof fn lemma_seconds_in_ticks(start: u64, now: u64, limit: u64)
    requires
        now >= start,
    ensures
        (stage_secs(start, now) > limit) == (now >= start + (limit + 1) * 1_000_000),
{
    let d: int = now - start;
    assert(d / 1_000_000 > limit <==> d >= (limit + 1) * 1_000_000) by (nonlinear_arith)
        requires
            d >= 0,
            limit >= 0,
    ;
    assert(stage_secs(start, now) == d / 1_000_000);
}

/// Time limit law: a stage that is not `Cooldown`, has a time limit of
/// `limit` seconds and whose target the reading has not reached ends
/// exactly when the clock reads at least `limit + 1` whole seconds (of a
/// million ticks each) after the stage began; the oven then moves on to a
/// later stage whose timer starts at that reading. Before then nothing
/// changes.
pub proof fn lemma_time_limit_in_ticks(
    before: TempConfig,
    after: TempConfig,
    now: u64,
    at_or_above: Seq<bool>,
    state: CurveState,
)
    requires
        updated_at(before, after, now, at_or_above, state),
        before.stage() != CurveState::Cooldown,
        !at_or_above[before.stage().rank()],
        before.limits()[before.stage().rank()] != 0,
    ensures
        now >= before.timer_start() + (before.limits()[before.stage().rank()] + 1) * 1_000_000 ==> {
            &&& state.rank() > before.stage().rank()
            &&& after.timer_start() == now
        },
        now < before.timer_start() + (before.limits()[before.stage().rank()] + 1) * 1_000_000 ==> {
            &&& state == before.stage()
            &&& after == before
        },
{
    let limit = before.limits()[before.stage().rank()];
    if now >= before.timer_start() {
        lemma_seconds_in_ticks(before.timer_start(), now, limit);
    }
    lemma_settled_not_earlier(before.stage().next(), at_or_above);
}

/// A new profile's preheat time counts from the clock reading at which it
/// was made: with a preheat limit of `limit` seconds and the reading below
/// the preheat target, an update at clock reading `now` stays in `Preheat`
/// until `limit + 1` seconds of ticks have passed since `created`, and
/// moves on from then on.
pub proof fn lemma_new_profile_counts_from_creation(
    created_profile: TempConfig,
    after: TempConfig,
    created: u64,
    now: u64,
    at_or_above: Seq<bool>,
    state: CurveState,
)
    requires
        created_profile.stage() == CurveState::Preheat,
        created_profile.timer_start() == created,
        updated_at(created_profile, after, now, at_or_above, state),
        !at_or_above[0],
        created_profile.limits()[0] != 0,
    ensures
        now < created + (created_profile.limits()[0] + 1) * 1_000_000 ==> state == CurveState::Preheat,
        now >= created + (created_profile.limits()[0] + 1) * 1_000_000 ==> state != CurveState::Preheat,
{
    lemma_time_limit_in_ticks(created_profile, after, now, at_or_above, state);
}

/// A stage entered by a move at clock reading `entered` counts its time
/// from that reading: with its limit of `limit` seconds and the reading
/// below its target, an update at clock reading `now` stays in it until
/// `limit + 1` seconds of ticks have passed since `entered`, and moves on
/// from then on.
pub proof fn lemma_entered_stage_counts_from_entry(
    before: TempConfig,
    entered_profile: TempConfig,
    after: TempConfig,
    elapsed_secs: u64,
    entered: u64,
    now: u64,
    first_reading: Seq<bool>,
    second_reading: Seq<bool>,
    entered_stage: CurveState,
    state: CurveState,
)
    requires
        settled_at(before, entered_profile, elapsed_secs, entered, first_reading, entered_stage),
        entered_stage != before.stage(),
        entered_stage != CurveState::Cooldown,
        updated_at(entered_profile, after, now, second_reading, state),
        !second_reading[entered_stage.rank()],
        entered_profile.limits()[entered_stage.rank()] != 0,
    ensures
        now < entered + (entered_profile.limits()[entered_stage.rank()] + 1) * 1_000_000 ==> state
            == entered_stage,
        now >= entered + (entered_profile.limits()[entered_stage.rank()] + 1) * 1_000_000 ==> state.rank()
            > entered_stage.rank(),
{
    lemma_time_limit_in_ticks(entered_profile, after, now, second_reading, state);
}

} // verus!
