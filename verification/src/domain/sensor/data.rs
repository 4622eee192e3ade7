//! Sensor data that can be published as JSON.

use vstd::prelude::*;

verus! {

/// Sensor data that can be rendered as a JSON document.
pub trait SensorData {
    fn to_json(&self) -> String;
}

} // verus!
