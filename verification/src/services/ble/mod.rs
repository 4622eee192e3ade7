//! Plain data exchanged with the Bluetooth backend, and its errors.

pub mod ble_backend;
pub mod error;
pub mod mock_ble_backend;

pub use ble_backend::{AdapterInfo, CharacteristicNotification, DeviceInfo, ManufacturerData};
pub use error::{BackendFailure, BleError};
pub use mock_ble_backend::MockBleBackend;
