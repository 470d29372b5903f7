//! Control logic of a reflow oven: the zero-cross triac output, the
//! stages of the reflow profile, the oversampling of the temperature
//! sensor, the run/stop buttons and the bookkeeping of PID self-tuning,
//! each stated and proved. Temperatures and PID gains are floating point
//! and stay with the caller; the library receives the outcome of their
//! comparisons.

pub mod autotune;
pub mod clock;
pub mod duty_test;
pub mod output;
pub mod oven_timer;
pub mod run_control;
pub mod temperature;
