[package]
name = "oven_control"
version = "0.1.0"
edition = "2021"
publish = false

[dependencies]
embassy-time = { version = "=0.5.1", features = ["tick-hz-1_000_000"] }
pid = "=4.0.0"
pt-rtd = "=0.1.1"
embassy-stm32 = { version = "=0.6.0", features = ["stm32f103c8", "time-driver-any"] }
embassy-executor = "=0.10.0"
cortex-m = "=0.7.10"
defmt = "=1.2.0"
defmt-rtt = "=1.3.1"
panic-probe = "=1.0.0"

[dev-dependencies]
embassy-time = { version = "=0.5.1", features = ["std"] }
