//! Drives a bipolar actuator through two unipolar PWM channels, for a two-actuator vehicle.
//!
//! Command values and duty cycles are fixed-point integers: `FULL_SCALE`
//! stands for `1.0`, so a duty cycle lies in `0..=FULL_SCALE` and a signed
//! command in `-FULL_SCALE..=FULL_SCALE`.
pub mod command;
pub mod driver;
pub mod interval;
