//! Verified core of a BLE central gateway that controls a vent over
//! Bluetooth Low Energy and forwards air-quality readings to MQTT.
//!
//! The crate holds the decisions of the gateway: configuration validation,
//! the vent connection state machine, sensor frame decoding, request
//! validation for the HTTP API, error reporting and MQTT error throttling.
//! Everything that waits on hardware, the network or the clock is driven
//! from outside through plain values.

pub mod text;
pub mod configuration;
pub mod services;
pub mod domain;
pub mod error;
pub mod api;
pub mod service;
