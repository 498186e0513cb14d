use vstd::prelude::*;

verus! {

/// Fixed-point scale of a measured value: one unit is a million steps.
pub const VALUE_SCALE: i64 = 1_000_000;

/// Largest magnitude a reading's value may have (one million units).
pub const VALUE_LIMIT: i64 = 1_000_000_000_000;

/// The controlled physical dimensions.
#[derive(Debug, Clone, Copy, PartialEq, Eq, Hash, Structural)]
pub enum SensorType {
    Force,
    Position,
    Temperature,
}

/// The anomaly table: Force outside [5, 60], |Position| above 0.5,
/// Temperature above 120.
pub open spec fn is_anomalous(t: SensorType, value: int) -> bool {
    match t {
        SensorType::Force => value < 5 * VALUE_SCALE || value > 60 * VALUE_SCALE,
        SensorType::Position => value > VALUE_SCALE / 2 || value < -(VALUE_SCALE / 2),
        SensorType::Temperature => value > 120 * VALUE_SCALE,
    }
}

/// The fixed setpoint the controller drives each quantity towards:
/// Force 30, Position 0, Temperature 240.
pub open spec fn setpoint_of(t: SensorType) -> int {
    match t {
        SensorType::Force => 30 * VALUE_SCALE,
        SensorType::Position => 0,
        SensorType::Temperature => 240 * VALUE_SCALE,
    }
}

/// Whether `value` of quantity `t` is outside its anomaly thresholds.
pub fn classify(t: SensorType, value: i64) -> (r: bool)
    ensures
        r == is_anomalous(t, value as int),
{
    match t {
        SensorType::Force => value < 5 * VALUE_SCALE || value > 60 * VALUE_SCALE,
        SensorType::Position => value > VALUE_SCALE / 2 || value < -(VALUE_SCALE / 2),
        SensorType::Temperature => value > 120 * VALUE_SCALE,
    }
}

/// The setpoint of quantity `t`.
pub fn setpoint(t: SensorType) -> (r: i64)
    ensures
        r as int == setpoint_of(t),
{
    match t {
        SensorType::Force => 30 * VALUE_SCALE,
        SensorType::Position => 0,
        SensorType::Temperature => 240 * VALUE_SCALE,
    }
}

} // verus!
