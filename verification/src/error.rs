//! The gateway's error type, what each error reads as, and the HTTP status
//! that reports it.

use vstd::prelude::*;
use crate::configuration::ConfigError;
use crate::services::ble::error::BleError;

verus! {

/// Errors of the gateway, from every layer.
#[derive(Debug)]
pub enum AppError {
    /// A Bluetooth stack failure, by its description.
    Ble(String),
    /// A failure reported by the Bluetooth backend.
    BleBackend(BleError),
    /// An MQTT client failure, by its description.
    Mqtt(String),
    /// Unusable configuration.
    Config(ConfigError),
    /// No device with this id.
    DeviceNotFound(String),
    /// The host has no Bluetooth adapter.
    NoAdapter,
    /// No vent device is connected.
    NotConnected,
    /// The request is malformed.
    InvalidInput(String),
    /// An unexpected condition.
    Internal(String),
}

/// JSON body of an error answer.
#[derive(Debug)]
pub struct ErrorResponse {
    pub error: String,
}

impl AppError {
    /// The text of the error.
    pub open spec fn spec_message(&self) -> Seq<char> {
        match self {
            AppError::Ble(m) => "BLE error: "@ + m@,
            AppError::BleBackend(e) => "BLE backend error: "@ + e.spec_message(),
            AppError::Mqtt(m) => "MQTT error: "@ + m@,
            AppError::Config(e) => "Configuration error: "@ + e.spec_message(),
            AppError::DeviceNotFound(id) => "Device not found: "@ + id@,
            AppError::NoAdapter => "No Bluetooth adapter found"@,
            AppError::NotConnected => "Device not connected"@,
            AppError::InvalidInput(m) => "Invalid input: "@ + m@,
            AppError::Internal(m) => "Internal error: "@ + m@,
        }
    }

    /// The HTTP status code that reports the error.
    pub open spec fn spec_status_code(&self) -> u16 {
        match self {
            AppError::DeviceNotFound(_) => 404,
            AppError::NotConnected => 400,
            AppError::InvalidInput(_) => 400,
            AppError::NoAdapter => 503,
            _ => 500,
        }
    }

    /// The text of the error.
    pub fn message(&self) -> (r: String)
        ensures
            r@ == self.spec_message(),
    {
        match self {
            AppError::Ble(m) => String::from_str("BLE error: ").concat(m.as_str()),
            AppError::BleBackend(e) => String::from_str("BLE backend error: ").concat(
                e.message().as_str(),
            ),
            AppError::Mqtt(m) => String::from_str("MQTT error: ").concat(m.as_str()),
            AppError::Config(e) => String::from_str("Configuration error: ").concat(
                e.message().as_str(),
            ),
            AppError::DeviceNotFound(id) => String::from_str("Device not found: ").concat(
                id.as_str(),
            ),
            AppError::NoAdapter => String::from_str("No Bluetooth adapter found"),
            AppError::NotConnected => String::from_str("Device not connected"),
            AppError::InvalidInput(m) => String::from_str("Invalid input: ").concat(m.as_str()),
            AppError::Internal(m) => String::from_str("Internal error: ").concat(m.as_str()),
        }
    }

    /// The HTTP status code that reports the error.
    pub fn status_code(&self) -> (r: u16)
        ensures
            r == self.spec_status_code(),
    {
        match self {
            AppError::DeviceNotFound(_) => 404,
            AppError::NotConnected => 400,
            AppError::InvalidInput(_) => 400,
            AppError::NoAdapter => 503,
            _ => 500,
        }
    }

    /// The HTTP answer to the error: its status code and a JSON body that
    /// carries its text.
    pub fn into_response(self) -> (r: (u16, ErrorResponse))
        ensures
            r.0 == self.spec_status_code(),
            r.1.error@ == self.spec_message(),
    {
        let code = self.status_code();
        let error = self.message();
        (code, ErrorResponse { error })
    }
}

impl From<BleError> for AppError {
    fn from(e: BleError) -> (r: Self)
        ensures
            r == AppError::BleBackend(e),
    {
        AppError::BleBackend(e)
    }
}

impl vstd::std_specs::convert::FromSpecImpl<BleError> for AppError {
    open spec fn obeys_from_spec() -> bool {
        true
    }

    open spec fn from_spec(v: BleError) -> Self {
        AppError::BleBackend(v)
    }
}

impl From<ConfigError> for AppError {
    fn from(e: ConfigError) -> (r: Self)
        ensures
            r == AppError::Config(e),
    {
        AppError::Config(e)
    }
}

impl vstd::std_specs::convert::FromSpecImpl<ConfigError> for AppError {
    open spec fn obeys_from_spec() -> bool {
        true
    }

    open spec fn from_spec(v: ConfigError) -> Self {
        AppError::Config(v)
    }
}

impl From<String> for AppError {
    fn from(e: String) -> (r: Self)
        ensures
            r == AppError::Internal(e),
    {
        AppError::Internal(e)
    }
}

impl vstd::std_specs::convert::FromSpecImpl<String> for AppError {
    open spec fn obeys_from_spec() -> bool {
        true
    }

    open spec fn from_spec(v: String) -> Self {
        AppError::Internal(v)
    }
}

} // verus!
