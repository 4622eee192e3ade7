//! Services of the gateway: the Bluetooth side, the vent state machine and
//! the MQTT side.

pub mod ble;
pub mod mqtt_service;
pub mod vent_service;
