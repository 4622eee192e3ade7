//! Air-quality sensor data.

pub mod data;
pub mod readings;

pub use data::SensorData;
pub use readings::SensorReadings;
