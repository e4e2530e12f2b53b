use vstd::prelude::*;

verus! {

/// Capacity of the telemetry channel between the sensors and the MQTT task.
pub const TELEMETRY_CAPACITY: usize = 8;

/// The sensor a reading comes from.
#[derive(Clone, Copy, Debug, PartialEq, Eq, Structural)]
pub enum SensorSource {
    Temperature,
    Moisture,
}

/// The unit of a reading's value.
#[derive(Clone, Copy, Debug, PartialEq, Eq, Structural)]
pub enum Unit {
    Celsius,
    Percentage,
    Raw,
}

/// One telemetry reading.
#[derive(Clone, Copy, Debug, PartialEq, Eq, Structural)]
pub struct SensorReading {
    pub source: SensorSource,
    pub unit: Unit,
    pub value: i32,
}

} // verus!
