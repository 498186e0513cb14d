//! A soft real-time sensing, control and actuation pipeline.
//!
//! Measurements are fixed-point integers with six decimal places
//! (`quantity::VALUE_SCALE` per unit); times and durations are whole
//! microseconds counted from the start of a run.

pub mod actuator;
pub mod commander;
pub mod log;
pub mod message;
pub mod mode;
pub mod pid;
pub mod quantity;
mod rng;
pub mod sensor;
pub mod stats;
