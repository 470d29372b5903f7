# oven_control

Control logic of a reflow oven, verified with Verus.

- `src/` — the verified library: the zero-cross triac output (`output`,
  `duty_test`), the stages of the reflow profile (`temperature::temp_config`),
  locating a moment on a temperature curve (`temperature::temp_curve`),
  oversampling of the sensor's ADC readings (`temperature::temp_sensor`), the
  run/stop buttons (`run_control`), the bookkeeping of PID self-tuning
  (`autotune`), a start-once timer (`oven_timer`) and the `embassy_time`
  clock it reads (`clock`).
- `app/` — the firmware around it: peripherals, async waits, logging and
  everything computed in floating point (PID control, RTD conversion,
  interpolation of the curve).
- `tests/` — tests of the library on concrete values.
