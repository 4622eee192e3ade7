//! The MQTT endpoints.

pub mod mqtt_controller;
