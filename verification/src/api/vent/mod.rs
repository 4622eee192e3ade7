//! The BLE and vent endpoints.

pub mod vent_controller;
