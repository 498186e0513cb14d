use vstd::prelude::*;

use crate::quantity::SensorType;

verus! {

/// A timestamped measurement of one quantity.
#[derive(Debug, Clone, Copy, PartialEq, Eq, Structural)]
pub struct SensorData {
    /// Sequence number, increasing per channel.
    pub id: u64,
    pub sensor_type: SensorType,
    /// Fixed-point value, six decimal places.
    pub value: i64,
    pub anomaly: bool,
    /// When the reading was generated, in microseconds.
    pub timestamp: u64,
    /// When local processing finished, if it did.
    pub processed_timestamp: Option<u64>,
}

/// A control instruction for the actuator of one quantity.
#[derive(Debug, Clone, Copy, PartialEq, Eq, Structural)]
pub struct Command {
    pub sensor_type: SensorType,
    /// Control effort, in the fixed-point scale of readings.
    pub magnitude: i128,
    /// When the command was issued, in microseconds.
    pub issued_at: u64,
    /// The sequence number of the reading it answers.
    pub reading_id: u64,
    /// When that reading was generated, in microseconds.
    pub generated_at: u64,
    /// Whether the magnitude came from the control law (rather than being
    /// the reading's value passed through).
    pub pid_derived: bool,
}

/// A report from an actuator to the sensor of its quantity.
#[derive(Debug, Clone, PartialEq, Eq)]
pub struct Feedback {
    pub is_ack: bool,
    /// Alert text; `"no"` or empty when there is nothing to report.
    pub error_msg: String,
    /// Calibration change requested, in the fixed-point scale of readings;
    /// zero requests none.
    pub recalibrate_offset: i64,
    /// When the feedback was produced, in microseconds.
    pub timestamp: u64,
}

/// Whether an alert text carries nothing to report.
pub open spec fn is_trivial_alert(s: Seq<char>) -> bool {
    s.len() == 0 || s == seq!['n', 'o']
}

} // verus!
