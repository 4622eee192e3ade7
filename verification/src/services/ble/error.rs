//! Errors reported by the Bluetooth backend.

use vstd::prelude::*;

verus! {

/// A failed Bluetooth operation.
#[derive(Debug)]
pub enum BleError {
    NoAdapter,
    DeviceNotFound,
    NotConnected,
    Timeout,
    InvalidUuid(String),
    CharacteristicNotFound,
    Backend(String),
}

impl BleError {
    /// The text that describes the error.
    pub open spec fn spec_message(&self) -> Seq<char> {
        match self {
            BleError::NoAdapter => "No Bluetooth adapter available"@,
            BleError::DeviceNotFound => "Device not found"@,
            BleError::NotConnected => "Device not connected"@,
            BleError::Timeout => "Operation timed out"@,
            BleError::InvalidUuid(u) => "Invalid UUID: "@ + u@,
            BleError::CharacteristicNotFound => "Characteristic not found"@,
            BleError::Backend(m) => "Backend error: "@ + m@,
        }
    }

    /// The text that describes the error.
    pub fn message(&self) -> (r: String)
        ensures
            r@ == self.spec_message(),
    {
        match self {
            BleError::NoAdapter => String::from_str("No Bluetooth adapter available"),
            BleError::DeviceNotFound => String::from_str("Device not found"),
            BleError::NotConnected => String::from_str("Device not connected"),
            BleError::Timeout => String::from_str("Operation timed out"),
            BleError::InvalidUuid(u) => String::from_str("Invalid UUID: ").concat(u.as_str()),
            BleError::CharacteristicNotFound => String::from_str("Characteristic not found"),
            BleError::Backend(m) => String::from_str("Backend error: ").concat(m.as_str()),
        }
    }
}

impl Clone for BleError {
    fn clone(&self) -> (r: Self)
        ensures
            r == *self,
    {
        match self {
            BleError::NoAdapter => BleError::NoAdapter,
            BleError::DeviceNotFound => BleError::DeviceNotFound,
            BleError::NotConnected => BleError::NotConnected,
            BleError::Timeout => BleError::Timeout,
            BleError::InvalidUuid(u) => BleError::InvalidUuid(u.clone()),
            BleError::CharacteristicNotFound => BleError::CharacteristicNotFound,
            BleError::Backend(m) => BleError::Backend(m.clone()),
        }
    }
}

/// A failure of the platform Bluetooth stack, by the cases the gateway
/// tells apart.
#[derive(Debug)]
pub enum BackendFailure {
    /// The stack knows no such device.
    DeviceNotFound,
    /// The stack gave up waiting.
    TimedOut,
    /// Any other failure, by its description.
    Other(String),
}

impl BleError {
    /// The backend error that reports a failure of the platform stack.
    pub fn from_backend(failure: BackendFailure) -> (r: BleError)
        ensures
            match failure {
                BackendFailure::DeviceNotFound => r == BleError::DeviceNotFound,
                BackendFailure::TimedOut => r == BleError::Timeout,
                BackendFailure::Other(m) => r == BleError::Backend(m),
            },
    {
        match failure {
            BackendFailure::DeviceNotFound => BleError::DeviceNotFound,
            BackendFailure::TimedOut => BleError::Timeout,
            BackendFailure::Other(m) => BleError::Backend(m),
        }
    }
}

} // verus!
