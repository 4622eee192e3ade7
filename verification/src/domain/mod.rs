//! Domain types: the vent and the air-quality sensor.

pub mod sensor;
pub mod vent;
