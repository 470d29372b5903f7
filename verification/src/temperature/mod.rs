pub mod temp_config;
pub mod temp_sensor;
pub mod temp_curve;
