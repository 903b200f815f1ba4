//! Board-support layer for a three-axis accelerometer: calibrated sensor
//! configuration, conversion of raw register readings to g-force units,
//! orientation tracking by exponential smoothing, and the sampling loop that
//! drives four on-board indicator LEDs from the sensed orientation.
//!
//! The physical transport (an I2C bus to the device) is an external
//! collaborator; it is modeled here as a channel that replays a script of
//! replies, so that every decision the layer makes about bus outcomes is
//! verified for all possible reply sequences.

pub mod channel;
pub mod compass;
pub mod config;
pub mod sampling;
pub mod tracker;
pub mod vector;
