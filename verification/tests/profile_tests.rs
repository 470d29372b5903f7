use oven_control::temperature::temp_config::{CurveState, TempConfig};
use oven_control::oven_timer::OvenTimer;

fn wait_a_little() {
    let start = std::time::Instant::now();
    while start.elapsed() < std::time::Duration::from_millis(5) {}
}

const LIMITS: [u64; 4] = [0, 140, 0, 0];

#[test]
fn new_profile_starts_in_preheat() {
    let config = TempConfig::new(LIMITS);
    assert_eq!(config.current_state(), CurveState::Preheat);
    assert_eq!(config.time_limit(CurveState::HeatSoak), 140);
    assert_eq!(config.time_limit(CurveState::Cooldown), 0);
}

#[test]
fn stage_indices_follow_profile_order() {
    assert_eq!(CurveState::Preheat.index(), 0);
    assert_eq!(CurveState::HeatSoak.index(), 1);
    assert_eq!(CurveState::Reflow.index(), 2);
    assert_eq!(CurveState::Cooldown.index(), 3);
}

#[test]
fn settle_stays_below_target() {
    let mut config = TempConfig::new(LIMITS);
    assert_eq!(config.settle(1000, [false; 4]), CurveState::Preheat);
    assert_eq!(config.current_state(), CurveState::Preheat);
}

#[test]
fn settle_moves_on_at_target() {
    let mut config = TempConfig::new(LIMITS);
    assert_eq!(config.settle(0, [true, false, false, false]), CurveState::HeatSoak);
    assert_eq!(config.current_state(), CurveState::HeatSoak);
}

#[test]
fn settle_moves_through_several_stages() {
    let mut config = TempConfig::new(LIMITS);
    assert_eq!(config.settle(0, [true, true, false, false]), CurveState::Reflow);
    assert_eq!(config.settle(0, [true, true, true, false]), CurveState::Cooldown);
}

#[test]
fn settle_time_limit_ends_soak() {
    let mut config = TempConfig::new(LIMITS);
    config.settle(0, [true, false, false, false]);
    assert_eq!(config.settle(140, [false; 4]), CurveState::HeatSoak);
    assert_eq!(config.settle(141, [false; 4]), CurveState::Reflow);
    // Preheat has no limit: time alone never ends it.
    let mut fresh = TempConfig::new(LIMITS);
    assert_eq!(fresh.settle(u64::MAX, [false; 4]), CurveState::Preheat);
}

#[test]
fn settle_again_changes_nothing() {
    let mut config = TempConfig::new(LIMITS);
    let reading = [true, true, false, false];
    let first = config.settle(5, reading);
    let second = config.settle(0, reading);
    assert_eq!(first, second);
    assert_eq!(second, CurveState::Reflow);
}

#[test]
fn get_target_temp_catches_up() {
    let mut config = TempConfig::new(LIMITS);
    assert_eq!(config.get_target_temp([false; 4]), CurveState::Preheat);
    assert_eq!(config.get_target_temp([true, false, false, false]), CurveState::HeatSoak);
    assert_eq!(config.get_target_temp([true, true, false, false]), CurveState::Reflow);
}

#[test]
fn get_target_temp_enters_cooldown_at_peak() {
    // At the 245 C peak the reading is at or above all four targets
    // (130, 190, 245, 80): the oven enters Cooldown and stays there.
    let mut config = TempConfig::new(LIMITS);
    config.settle(0, [true, true, false, false]);
    assert_eq!(config.get_target_temp([true, true, true, true]), CurveState::Cooldown);
    assert_eq!(config.current_state(), CurveState::Cooldown);
}

#[test]
fn cooldown_holds_while_hot_and_after() {
    let mut config = TempConfig::new(LIMITS);
    config.settle(0, [true, true, true, false]);
    assert_eq!(config.current_state(), CurveState::Cooldown);
    assert_eq!(config.get_target_temp([true, true, true, true]), CurveState::Cooldown);
    assert_eq!(config.get_target_temp([true, false, false, true]), CurveState::Cooldown);
    assert_eq!(config.get_target_temp([false; 4]), CurveState::Cooldown);
    assert_eq!(config.settle(u64::MAX, [true; 4]), CurveState::Cooldown);
}

#[test]
fn reset_returns_to_preheat() {
    let mut config = TempConfig::new(LIMITS);
    config.settle(0, [true, true, true, false]);
    assert_eq!(config.current_state(), CurveState::Cooldown);
    config.reset();
    assert_eq!(config.current_state(), CurveState::Preheat);
    assert_eq!(config.time_limit(CurveState::HeatSoak), 140);
}

#[test]
fn stage_time_read_in_seconds() {
    // A one-second limit is not yet over a few milliseconds after the
    // stage began: the clock's ticks are turned into whole seconds.
    let mut config = TempConfig::new([1, 0, 0, 0]);
    wait_a_little();
    assert_eq!(config.get_target_temp([false; 4]), CurveState::Preheat);
}

#[test]
fn oven_timer_keeps_its_instant() {
    // Start the clock, so that the timer's instant is some ticks after it.
    let _config = TempConfig::new(LIMITS);
    wait_a_little();
    let mut timer = OvenTimer::new();
    let first = timer.elapsed_secs();
    assert_eq!(first, 0);
    wait_a_little();
    assert_eq!(timer.elapsed_secs(), first);
    timer.clear();
    assert_eq!(timer.elapsed_secs(), 0);
}

#[test]
fn new_at_starts_in_preheat() {
    let config = TempConfig::new_at(LIMITS, 42);
    assert_eq!(config.current_state(), CurveState::Preheat);
    assert_eq!(config.time_limit(CurveState::HeatSoak), 140);
}

#[test]
fn settle_at_moves_on_like_settle() {
    let mut config = TempConfig::new_at(LIMITS, 0);
    assert_eq!(config.settle_at(0, 5_000_000, [false; 4]), CurveState::Preheat);
    assert_eq!(config.settle_at(0, 6_000_000, [true, false, false, false]), CurveState::HeatSoak);
    assert_eq!(config.settle_at(141, 7_000_000, [false; 4]), CurveState::Reflow);
    assert_eq!(config.settle_at(0, 8_000_000, [true, true, true, true]), CurveState::Cooldown);
    assert_eq!(config.settle_at(0, 9_000_000, [true, true, true, true]), CurveState::Cooldown);
}

#[test]
fn soak_timer_restarts_on_entry() {
    // Enter the soak with its timer restarted far ahead of the clock: the
    // clock then reads no time spent in the soak, and its one-second limit
    // is not over.
    let mut config = TempConfig::new_at([0, 1, 0, 0], 0);
    assert_eq!(config.settle_at(0, u64::MAX / 2, [true, false, false, false]), CurveState::HeatSoak);
    assert_eq!(config.get_target_temp([false; 4]), CurveState::HeatSoak);
}

#[test]
fn oven_timer_fixes_given_reading() {
    let mut timer = OvenTimer::new();
    assert_eq!(timer.elapsed_secs_at(5_000_000), 5);
    assert_eq!(timer.elapsed_secs_at(9_000_000), 5);
    assert_eq!(timer.elapsed_secs(), 5);
    timer.clear();
    assert_eq!(timer.elapsed_secs_at(7_200_000), 7);
}

#[test]
fn soak_time_counts_from_its_entry() {
    let mut config = TempConfig::new_at(LIMITS, 0);
    // The soak begins one second after boot.
    assert_eq!(config.get_target_temp_at(1_000_000, [true, false, false, false]), CurveState::HeatSoak);
    // 140 s into the soak its limit is not yet over.
    assert_eq!(config.get_target_temp_at(141_000_000, [false; 4]), CurveState::HeatSoak);
    // 141 s into the soak it is.
    assert_eq!(config.get_target_temp_at(142_000_000, [false; 4]), CurveState::Reflow);
}

#[test]
fn clock_behind_stage_start_counts_no_time() {
    let mut config = TempConfig::new_at([5, 0, 0, 0], 10_000_000);
    assert_eq!(config.get_target_temp_at(0, [false; 4]), CurveState::Preheat);
    assert_eq!(config.get_target_temp_at(16_000_000, [false; 4]), CurveState::HeatSoak);
}
