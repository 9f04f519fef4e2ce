//! Fan control for a Jetson board: the fan curve, the debounced actuator
//! state, the configuration rules and the text formats around them.
//!
//! The library computes and decides; reading the sensor, writing the PWM
//! control file, running the clock utility and sleeping are left to the caller.

pub mod clock;
pub mod config;
pub mod control;
pub mod curve;
pub mod fan;
pub mod ini;
pub mod text;
pub mod zone;
