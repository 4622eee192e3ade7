use ble_central_gateway::configuration::{valid_log_level, ApiConfig, BleConfig, MqttConfig, Settings};

fn create_valid_settings() -> Settings {
    Settings {
        api: ApiConfig {
            host: "127.0.0.1".to_string(),
            port: 8080,
            log_level: "debug".to_string(),
        },
        mqtt: MqttConfig {
            broker: "localhost".to_string(),
            port: 1883,
            client_id: "test".to_string(),
            keep_alive_secs: 5,
            topic: "sensors/vent".to_string(),
            manufacturer_id: 0xFFFF,
        },
        ble: BleConfig {
            enable_scan: true,
            scan_auto_start: Some(true),
            connection_timeout_secs: 10,
            observer_timeout_secs: 5,
        },
    }
}

fn error_text(settings: &Settings) -> String {
    let result = settings.validate();
    assert!(result.is_err());
    result.unwrap_err().message()
}

#[test]
fn test_listen_address_format() {
    let settings = create_valid_settings();
    assert_eq!(settings.listen_address(), "127.0.0.1:8080");
}

#[test]
fn test_validation_valid_config() {
    let settings = create_valid_settings();
    assert!(settings.validate().is_ok());
}

#[test]
fn test_validation_api_port_zero() {
    let mut settings = create_valid_settings();
    settings.api.port = 0;
    let result = settings.validate();
    assert!(result.is_err());
    assert!(result.unwrap_err().message().contains("port must be greater than 0"));
}

#[test]
fn test_validation_api_host_empty() {
    let mut settings = create_valid_settings();
    settings.api.host = String::new();
    let result = settings.validate();
    assert!(result.is_err());
    assert!(result.unwrap_err().message().contains("host cannot be empty"));
}

#[test]
fn test_validation_log_level_invalid() {
    let mut settings = create_valid_settings();
    settings.api.log_level = "invalid".to_string();
    let result = settings.validate();
    assert!(result.is_err());
    assert!(result.unwrap_err().message().contains("Must be one of"));
}

#[test]
fn test_validation_log_level_case_insensitive() {
    let mut settings = create_valid_settings();
    settings.api.log_level = "INFO".to_string();
    assert!(settings.validate().is_ok());

    settings.api.log_level = "Error".to_string();
    assert!(settings.validate().is_ok());
}

#[test]
fn test_validation_mqtt_broker_empty() {
    let mut settings = create_valid_settings();
    settings.mqtt.broker = String::new();
    let result = settings.validate();
    assert!(result.is_err());
    assert!(result.unwrap_err().message().contains("broker cannot be empty"));
}

#[test]
fn test_validation_mqtt_port_zero() {
    let mut settings = create_valid_settings();
    settings.mqtt.port = 0;
    let result = settings.validate();
    assert!(result.is_err());
    assert!(result.unwrap_err().message().contains("port must be greater than 0"));
}

#[test]
fn test_validation_mqtt_client_id_empty() {
    let mut settings = create_valid_settings();
    settings.mqtt.client_id = String::new();
    let result = settings.validate();
    assert!(result.is_err());
    assert!(result.unwrap_err().message().contains("client_id cannot be empty"));
}

#[test]
fn test_validation_mqtt_topic_empty() {
    let mut settings = create_valid_settings();
    settings.mqtt.topic = String::new();
    let result = settings.validate();
    assert!(result.is_err());
    assert!(result.unwrap_err().message().contains("topic cannot be empty"));
}

#[test]
fn test_validation_mqtt_keep_alive_zero() {
    let mut settings = create_valid_settings();
    settings.mqtt.keep_alive_secs = 0;
    let result = settings.validate();
    assert!(result.is_err());
    assert!(result.unwrap_err().message().contains("keep_alive_secs must be greater than 0"));
}

#[test]
fn test_validation_mqtt_keep_alive_too_large() {
    let mut settings = create_valid_settings();
    settings.mqtt.keep_alive_secs = 70000;
    let result = settings.validate();
    assert!(result.is_err());
    assert!(result
        .unwrap_err()
        .message()
        .contains("keep_alive_secs must be less than or equal to 65535"));
}

#[test]
fn test_validation_ble_connection_timeout_zero() {
    let mut settings = create_valid_settings();
    settings.ble.connection_timeout_secs = 0;
    let result = settings.validate();
    assert!(result.is_err());
    assert!(result
        .unwrap_err()
        .message()
        .contains("connection_timeout_secs must be greater than 0"));
}

#[test]
fn test_validation_ble_connection_timeout_too_large() {
    let mut settings = create_valid_settings();
    settings.ble.connection_timeout_secs = 400;
    let result = settings.validate();
    assert!(result.is_err());
    assert!(result.unwrap_err().message().contains("should not exceed 300 seconds"));
}

#[test]
fn test_validation_ble_observer_timeout_zero() {
    let mut settings = create_valid_settings();
    settings.ble.observer_timeout_secs = 0;
    let result = settings.validate();
    assert!(result.is_err());
    assert!(result
        .unwrap_err()
        .message()
        .contains("observer_timeout_secs must be greater than 0"));
}

#[test]
fn test_validation_ble_observer_timeout_too_large() {
    let mut settings = create_valid_settings();
    settings.ble.observer_timeout_secs = 100;
    let result = settings.validate();
    assert!(result.is_err());
    assert!(result.unwrap_err().message().contains("should not exceed 60 seconds"));
}

#[test]
fn listen_address_renders_port_in_decimal() {
    let mut settings = create_valid_settings();
    settings.api.host = "0.0.0.0".to_string();
    settings.api.port = 65535;
    assert_eq!(settings.listen_address(), "0.0.0.0:65535");
    settings.api.port = 7;
    assert_eq!(settings.listen_address(), "0.0.0.0:7");
}

#[test]
fn validation_reports_exact_messages() {
    let mut settings = create_valid_settings();
    settings.api.log_level = "verbose".to_string();
    assert_eq!(
        error_text(&settings),
        "Invalid log level 'verbose'. Must be one of: trace, debug, info, warn, error"
    );

    let mut settings = create_valid_settings();
    settings.ble.connection_timeout_secs = 301;
    assert_eq!(
        error_text(&settings),
        "BLE connection_timeout_secs should not exceed 300 seconds (5 minutes)"
    );
}

#[test]
fn validation_reports_the_first_broken_rule() {
    let mut settings = create_valid_settings();
    settings.api.port = 0;
    settings.mqtt.broker = String::new();
    settings.ble.observer_timeout_secs = 0;
    assert_eq!(error_text(&settings), "API port must be greater than 0");

    let mut settings = create_valid_settings();
    settings.mqtt.topic = String::new();
    settings.mqtt.keep_alive_secs = 0;
    assert_eq!(error_text(&settings), "MQTT topic cannot be empty");
}

#[test]
fn validation_accepts_the_boundaries() {
    let mut settings = create_valid_settings();
    settings.mqtt.keep_alive_secs = 65535;
    settings.ble.connection_timeout_secs = 300;
    settings.ble.observer_timeout_secs = 60;
    assert!(settings.validate().is_ok());
    settings.ble.observer_timeout_secs = 61;
    assert_eq!(error_text(&settings), "BLE observer_timeout_secs should not exceed 60 seconds");
}

#[test]
fn log_levels_are_matched_ignoring_ascii_case() {
    for level in ["trace", "DEBUG", "Info", "wArN", "ERROR"] {
        assert!(valid_log_level(level), "{} should be accepted", level);
    }
    for level in ["", "inf", "infos", "critical", "İNFO", "warn "] {
        assert!(!valid_log_level(level), "{} should be rejected", level);
    }
}

#[test]
fn case_of_log_level_does_not_change_the_verdict() {
    let mut lower = create_valid_settings();
    lower.api.log_level = "warn".to_string();
    let mut upper = create_valid_settings();
    upper.api.log_level = "WARN".to_string();
    assert_eq!(lower.validate().is_ok(), upper.validate().is_ok());
}

#[test]
fn scanning_on_start_is_off_unless_configured() {
    let mut settings = create_valid_settings();
    assert!(settings.ble.scan_on_start());
    settings.ble.scan_auto_start = Some(false);
    assert!(!settings.ble.scan_on_start());
    settings.ble.scan_auto_start = None;
    assert!(!settings.ble.scan_on_start());
}
