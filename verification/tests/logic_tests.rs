use oven_control::autotune::{tune_step, GainAdjustment, TuneStep, STABLE_THRESHOLD};
use oven_control::run_control::{cooldown_complete, run_step, RunStep};
use oven_control::temperature::temp_config::CurveState;
use oven_control::temperature::temp_curve::{locate_point, CurvePosition};
use oven_control::temperature::temp_sensor::{Oversampler, OVERSAMPLE_COUNT};

fn measure(sample: u16) -> u16 {
    let mut s = Oversampler::new();
    while !s.is_complete() {
        s.add_sample(sample);
    }
    s.value()
}

#[test]
fn oversampling_twelve_bit_full_scale() {
    assert_eq!(measure(4095), 65520);
    assert_eq!(measure(1000), 16000);
    assert_eq!(measure(0), 0);
}

#[test]
fn oversampling_cuts_to_sixteen_bits() {
    // 256 * 65535 / 16 = 0xFFFF0, of which 16 bits remain.
    assert_eq!(measure(u16::MAX), 0xFFF0);
}

#[test]
fn oversampler_counts_readings() {
    let mut s = Oversampler::new();
    for i in 0..OVERSAMPLE_COUNT {
        assert!(!s.is_complete());
        s.add_sample((i % 16) as u16);
    }
    assert!(s.is_complete());
    // 16 rounds of 0..=15 sum to 1920; 1920 / 16 = 120.
    assert_eq!(s.value(), 120);
}

#[test]
fn curve_before_first_point() {
    assert_eq!(locate_point([10, 20, 30, 0, 0], 3, 5), CurvePosition::BeforeFirst);
}

#[test]
fn curve_between_points() {
    assert_eq!(
        locate_point([10, 20, 40, 0, 0], 3, 25),
        CurvePosition::Between { index: 2, since_prev: 5, span: 20 }
    );
    assert_eq!(
        locate_point([10, 20, 40, 0, 0], 3, 10),
        CurvePosition::Between { index: 1, since_prev: 0, span: 10 }
    );
}

#[test]
fn curve_after_last_point() {
    assert_eq!(locate_point([10, 20, 30, 0, 0], 3, 30), CurvePosition::AfterLast);
    assert_eq!(locate_point([10, 20, 30, 40, 50], 0, 1), CurvePosition::AfterLast);
}

#[test]
fn curve_reads_seconds_as_u32() {
    let wrapped = (1u64 << 32) + 5;
    assert_eq!(locate_point([10, 20, 30, 0, 0], 3, wrapped), CurvePosition::BeforeFirst);
}

#[test]
fn run_step_start_and_stop() {
    assert_eq!(run_step(false, true, false), RunStep { start: true, stop: false, running: true });
    assert_eq!(run_step(true, false, true), RunStep { start: false, stop: true, running: false });
    assert_eq!(run_step(false, true, true), RunStep { start: true, stop: true, running: false });
    assert_eq!(run_step(true, true, false), RunStep { start: false, stop: false, running: true });
    assert_eq!(run_step(false, false, true), RunStep { start: false, stop: false, running: false });
    assert_eq!(run_step(true, false, false), RunStep { start: false, stop: false, running: true });
    assert_eq!(run_step(false, false, false), RunStep { start: false, stop: false, running: false });
}

#[test]
fn tune_step_sign_flip_resets_count() {
    assert_eq!(
        tune_step(5, true, true),
        TuneStep { adjustment: GainAdjustment::DampOvershoot, stable_cycles: 0 }
    );
}

#[test]
fn tune_step_large_error_raises_p() {
    assert_eq!(
        tune_step(5, false, true),
        TuneStep { adjustment: GainAdjustment::RaiseProportional, stable_cycles: 0 }
    );
}

#[test]
fn tune_step_steady_raises_i_after_threshold() {
    let mut cycles = 0;
    for _ in 0..STABLE_THRESHOLD {
        let step = tune_step(cycles, false, false);
        assert_eq!(step.adjustment, GainAdjustment::Steady { raise_integral: false });
        cycles = step.stable_cycles;
    }
    assert_eq!(cycles, STABLE_THRESHOLD);
    assert_eq!(
        tune_step(cycles, false, false),
        TuneStep { adjustment: GainAdjustment::Steady { raise_integral: true }, stable_cycles: 9 }
    );
    assert_eq!(
        tune_step(u16::MAX, false, false),
        TuneStep { adjustment: GainAdjustment::Steady { raise_integral: true }, stable_cycles: u16::MAX }
    );
}

#[test]
fn curve_longer_than_its_table() {
    // A length beyond the table is read as long as a point lies after the moment.
    assert_eq!(
        locate_point([10, 20, 30, 40, 50], 9, 45),
        CurvePosition::Between { index: 4, since_prev: 5, span: 10 }
    );
    assert_eq!(locate_point([10, 20, 30, 40, 50], 200, 3), CurvePosition::BeforeFirst);
}

#[test]
fn cooldown_complete_only_in_cooldown() {
    assert!(cooldown_complete(CurveState::Cooldown, true));
    assert!(!cooldown_complete(CurveState::Cooldown, false));
    assert!(!cooldown_complete(CurveState::Reflow, true));
    assert!(!cooldown_complete(CurveState::Preheat, true));
}
