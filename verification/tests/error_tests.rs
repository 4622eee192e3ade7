use ble_central_gateway::configuration::ConfigError;
use ble_central_gateway::error::AppError;
use ble_central_gateway::services::ble::{BackendFailure, BleError};

#[test]
fn app_error_messages() {
    assert_eq!(AppError::Ble("Device not found".to_string()).message(), "BLE error: Device not found");
    assert_eq!(
        AppError::BleBackend(BleError::Timeout).message(),
        "BLE backend error: Operation timed out"
    );
    assert_eq!(AppError::Mqtt("refused".to_string()).message(), "MQTT error: refused");
    assert_eq!(
        AppError::Config(ConfigError::Message("bad".to_string())).message(),
        "Configuration error: bad"
    );
    assert_eq!(AppError::DeviceNotFound("d1".to_string()).message(), "Device not found: d1");
    assert_eq!(AppError::NoAdapter.message(), "No Bluetooth adapter found");
    assert_eq!(AppError::NotConnected.message(), "Device not connected");
    assert_eq!(AppError::InvalidInput("x".to_string()).message(), "Invalid input: x");
    assert_eq!(AppError::Internal("y".to_string()).message(), "Internal error: y");
}

#[test]
fn app_error_status_codes() {
    assert_eq!(AppError::DeviceNotFound("d".to_string()).status_code(), 404);
    assert_eq!(AppError::NotConnected.status_code(), 400);
    assert_eq!(AppError::InvalidInput("x".to_string()).status_code(), 400);
    assert_eq!(AppError::NoAdapter.status_code(), 503);
    assert_eq!(AppError::Ble("x".to_string()).status_code(), 500);
    assert_eq!(AppError::BleBackend(BleError::NoAdapter).status_code(), 500);
    assert_eq!(AppError::Mqtt("x".to_string()).status_code(), 500);
    assert_eq!(AppError::Config(ConfigError::Message("x".to_string())).status_code(), 500);
    assert_eq!(AppError::Internal("x".to_string()).status_code(), 500);
}

#[test]
fn error_response_carries_code_and_text() {
    let (code, body) = AppError::NotConnected.into_response();
    assert_eq!(code, 400);
    assert_eq!(body.error, "Device not connected");
    let (code, body) = AppError::InvalidInput("Missing 'topic' field".to_string()).into_response();
    assert_eq!(code, 400);
    assert_eq!(body.error, "Invalid input: Missing 'topic' field");
}

#[test]
fn ble_error_messages() {
    assert_eq!(BleError::NoAdapter.message(), "No Bluetooth adapter available");
    assert_eq!(BleError::DeviceNotFound.message(), "Device not found");
    assert_eq!(BleError::NotConnected.message(), "Device not connected");
    assert_eq!(BleError::Timeout.message(), "Operation timed out");
    assert_eq!(BleError::InvalidUuid("zz".to_string()).message(), "Invalid UUID: zz");
    assert_eq!(BleError::CharacteristicNotFound.message(), "Characteristic not found");
    assert_eq!(BleError::Backend("dbus".to_string()).message(), "Backend error: dbus");
}

#[test]
fn conversions_into_app_error() {
    assert!(matches!(AppError::from(BleError::Timeout), AppError::BleBackend(BleError::Timeout)));
    match AppError::from("Invalid listen address".to_string()) {
        AppError::Internal(m) => assert_eq!(m, "Invalid listen address"),
        _ => panic!("a text is an internal error"),
    }
    match AppError::from(ConfigError::Message("m".to_string())) {
        AppError::Config(ConfigError::Message(m)) => assert_eq!(m, "m"),
        _ => panic!("a configuration error stays one"),
    }
}

#[test]
fn platform_failures_map_to_backend_errors() {
    assert!(matches!(BleError::from_backend(BackendFailure::DeviceNotFound), BleError::DeviceNotFound));
    assert!(matches!(BleError::from_backend(BackendFailure::TimedOut), BleError::Timeout));
    match BleError::from_backend(BackendFailure::Other("Permission denied".to_string())) {
        BleError::Backend(m) => assert_eq!(m, "Permission denied"),
        _ => panic!("other failures keep their text"),
    }
}
