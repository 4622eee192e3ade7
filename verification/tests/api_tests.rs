use ble_central_gateway::api::health::health_controller::health_check;
use ble_central_gateway::api::mqtt::mqtt_controller::{
    default_qos, get_status, json_published, message_published, publish_json, publish_message,
    qos_from_level, JsonPublishRequest, PublishRequest,
};
use ble_central_gateway::api::vent::vent_controller::{ConnectRequest, ScanRequest, VentApiController};
use ble_central_gateway::domain::vent::vent::VentStatus;
use ble_central_gateway::error::AppError;
use ble_central_gateway::services::mqtt_service::QualityOfService;

fn invalid_input_text<T>(r: Result<T, AppError>) -> String {
    match r {
        Err(AppError::InvalidInput(m)) => m,
        _ => panic!("expected invalid input"),
    }
}

#[test]
fn test_invalid_qos() {
    let request = PublishRequest { topic: "t".to_string(), message: "m".to_string(), qos: 3 };
    assert_eq!(invalid_input_text(publish_message(&request)), "Invalid QoS value: 3. Must be 0, 1, or 2");
}

#[test]
fn qos_levels_map_to_delivery_guarantees() {
    assert_eq!(qos_from_level(0).unwrap(), QualityOfService::AtMostOnce);
    assert_eq!(qos_from_level(1).unwrap(), QualityOfService::AtLeastOnce);
    assert_eq!(qos_from_level(2).unwrap(), QualityOfService::ExactlyOnce);
    assert_eq!(invalid_input_text(qos_from_level(255)), "Invalid QoS value: 255. Must be 0, 1, or 2");
    assert_eq!(default_qos(), 0);
}

#[test]
fn publish_message_answers() {
    let request = PublishRequest { topic: "test/topic".to_string(), message: "hi".to_string(), qos: 1 };
    assert_eq!(publish_message(&request).unwrap(), QualityOfService::AtLeastOnce);
    let answer = message_published("test/topic");
    assert_eq!(answer.status, "published");
    assert_eq!(answer.message, "Message published to topic 'test/topic'");
    let answer = json_published("sensor/data");
    assert_eq!(answer.message, "JSON published to topic 'sensor/data'");
}

#[test]
fn publish_json_checks_topic_then_payload_then_qos() {
    let missing_topic = JsonPublishRequest { topic: None, qos: Some(9), has_payload: false };
    assert_eq!(invalid_input_text(publish_json(missing_topic)), "Missing 'topic' field");

    let missing_payload = JsonPublishRequest { topic: Some("t".to_string()), qos: Some(9), has_payload: false };
    assert_eq!(invalid_input_text(publish_json(missing_payload)), "Missing 'payload' field");

    let bad_qos = JsonPublishRequest { topic: Some("t".to_string()), qos: Some(5), has_payload: true };
    assert_eq!(invalid_input_text(publish_json(bad_qos)), "Invalid QoS value: 5. Must be 0, 1, or 2");

    let default = JsonPublishRequest { topic: Some("t".to_string()), qos: None, has_payload: true };
    let target = publish_json(default).unwrap();
    assert_eq!(target.topic, "t");
    assert_eq!(target.qos_value, 0);
    assert_eq!(target.qos, QualityOfService::AtMostOnce);
}

#[test]
fn publish_json_rejects_levels_above_two_as_given() {
    let wide = JsonPublishRequest { topic: Some("t".to_string()), qos: Some(256), has_payload: true };
    assert_eq!(invalid_input_text(publish_json(wide)), "Invalid QoS value: 256. Must be 0, 1, or 2");
    let wider = JsonPublishRequest { topic: Some("t".to_string()), qos: Some(258), has_payload: true };
    assert_eq!(invalid_input_text(publish_json(wider)), "Invalid QoS value: 258. Must be 0, 1, or 2");
    let exact = JsonPublishRequest { topic: Some("t".to_string()), qos: Some(2), has_payload: true };
    let target = publish_json(exact).unwrap();
    assert_eq!(target.qos_value, 2);
    assert_eq!(target.qos, QualityOfService::ExactlyOnce);
}

#[test]
fn mqtt_status_answers() {
    let answer = get_status();
    assert_eq!(answer.status, "connected");
    assert_eq!(answer.message, "MQTT service is active and monitoring sensor data");
}

#[test]
fn health_is_ok_when_an_adapter_is_present() {
    let ok = health_check("0.1.0".to_string(), 42, true);
    assert_eq!(ok.status, "ok");
    assert_eq!(ok.version, "0.1.0");
    assert_eq!(ok.uptime_seconds, 42);
    assert_eq!(ok.services.ble, "ok");
    assert_eq!(ok.services.mqtt, "ok");

    let no_adapter = health_check("0.1.0".to_string(), 0, false);
    assert_eq!(no_adapter.status, "degraded");
    assert_eq!(no_adapter.services.ble, "no_adapter");
    assert_eq!(no_adapter.services.mqtt, "ok");
}

#[test]
fn test_controller_creation() {
    let controller = VentApiController::new();
    let answer = controller.status(VentStatus::Connected);
    assert_eq!(answer.status, "Connected");
}

#[test]
fn vent_controller_success_answers() {
    let c = VentApiController::new();
    let scan = c.scan(ScanRequest { timeout_secs: Some(10) }, Ok(())).ok().unwrap();
    assert_eq!((scan.status.as_str(), scan.message.as_str()), ("scanning", "BLE scan started"));
    let open = c.open(Ok(())).ok().unwrap();
    assert_eq!((open.status.as_str(), open.message.as_str()), ("open", "Vent opened successfully"));
    let close = c.close(Ok(())).ok().unwrap();
    assert_eq!((close.status.as_str(), close.message.as_str()), ("closed", "Vent closed successfully"));
    let gone = c.disconnect(Ok(())).ok().unwrap();
    assert_eq!((gone.status.as_str(), gone.message.as_str()), ("disconnected", "Disconnected from device"));
    let stopped = c.stop_scan(Ok(())).ok().unwrap();
    assert_eq!((stopped.status.as_str(), stopped.message.as_str()), ("stopped", "BLE scanning stopped"));
    let connected = c.connect("dev-1".to_string(), Ok(())).ok().unwrap();
    assert_eq!(connected.status, "connected");
    assert_eq!(connected.device_id, "dev-1");
    assert_eq!(connected.message, "Successfully connected to device");
}

#[test]
fn vent_controller_failure_answers() {
    let c = VentApiController::new();
    let (code, body) = c.open(Err(AppError::NotConnected)).err().unwrap();
    assert_eq!(code, 500);
    assert_eq!(body.error, "Failed to open vent: Device not connected");
    let (code, body) = c.scan(ScanRequest { timeout_secs: None }, Err(AppError::NoAdapter)).err().unwrap();
    assert_eq!(code, 500);
    assert_eq!(body.error, "Failed to initialize scan: No Bluetooth adapter found");
    let (_, body) = c.connect("x".to_string(), Err(AppError::Internal("boom".to_string()))).err().unwrap();
    assert_eq!(body.error, "Failed to connect to device: Internal error: boom");
    let (_, body) = c.close(Err(AppError::NotConnected)).err().unwrap();
    assert_eq!(body.error, "Failed to close vent: Device not connected");
    let (_, body) = c.disconnect(Err(AppError::Mqtt("x".to_string()))).err().unwrap();
    assert_eq!(body.error, "Failed to disconnect: MQTT error: x");
    let (_, body) = c.stop_scan(Err(AppError::NoAdapter)).err().unwrap();
    assert_eq!(body.error, "Failed to stop scanning: No Bluetooth adapter found");
}

#[test]
fn connection_timeout_defaults_to_ten_seconds() {
    let c = VentApiController::new();
    let given = ConnectRequest { device_id: "d".to_string(), timeout_secs: Some(3) };
    let missing = ConnectRequest { device_id: "d".to_string(), timeout_secs: None };
    assert_eq!(c.connect_timeout(&given), 3);
    assert_eq!(c.connect_timeout(&missing), 10);
}

#[test]
fn status_names() {
    let c = VentApiController::new();
    assert_eq!(c.status(VentStatus::Disconnected).status, "Disconnected");
    assert_eq!(c.status(VentStatus::Open).status, "Open");
    assert_eq!(c.status(VentStatus::Closed).status, "Closed");
}

#[test]
fn test_get_status() {
    assert_eq!(get_status().status, "connected");
}
