use ble_central_gateway::domain::sensor::SensorReadings;
use ble_central_gateway::services::mqtt_service::{
    MqttServiceConfig, QualityOfService, SensorAdvertisement, SENSOR_MANUFACTURER_ID,
};

#[test]
fn test_sensor_data_parsing() {
    let data = vec![
        0x00, 0x05, // CO2: 1280 ppm
        0x90, 0x19, // Temperature: 6544 / 200 = 32.72°C
        0xC4, 0x09, // Humidity: 2500 / 100 = 25.0%
        0x1E, 0x00, // VOC index: 30 / 10 = 3
        0x78, 0x00, // PM1.0: 120 / 10 = 12.0 µg/m³
        0xB4, 0x00, // PM2.5: 180 / 10 = 18.0 µg/m³
    ];

    let readings = SensorReadings::from_manufacturer_data(&data);
    assert!(readings.is_some());

    let readings = readings.unwrap();
    assert_eq!(readings.co2, 1280);
    assert!((readings.temperature_raw as f32 / 200.0 - 32.72).abs() < 0.01);
    assert_eq!(readings.humidity_raw as f32 / 100.0, 25.0);
    assert_eq!(readings.voc_index, 3);
    assert_eq!(readings.pm1p0_raw as f32 / 10.0, 12.0);
    assert_eq!(readings.pm2p5_raw as f32 / 10.0, 18.0);
}

#[test]
fn test_sensor_data_parsing_invalid_length() {
    let data = vec![0x01, 0x02, 0x03];
    let readings = SensorReadings::from_manufacturer_data(&data);
    assert!(readings.is_none());
}

#[test]
fn sensor_payload_must_be_exactly_twelve_bytes() {
    assert!(SensorReadings::from_manufacturer_data(&[]).is_none());
    assert!(SensorReadings::from_manufacturer_data(&[0u8; 11]).is_none());
    assert!(SensorReadings::from_manufacturer_data(&[0u8; 13]).is_none());
    assert!(SensorReadings::from_manufacturer_data(&[0u8; 12]).is_some());
}

#[test]
fn negative_values_decode_in_twos_complement() {
    // temperature -10.0 °C = -2000 raw; VOC index -15 raw rounds toward zero to -1.
    let data = [
        0xFF, 0xFF, // co2 -1
        0x30, 0xF8, // -2000
        0x00, 0x80, // -32768
        0xF1, 0xFF, // -15
        0xFF, 0xFF, // 65535
        0x00, 0x80, // 32768
    ];
    let r = SensorReadings::from_manufacturer_data(&data).unwrap();
    assert_eq!(r.co2, -1);
    assert_eq!(r.temperature_raw, -2000);
    assert_eq!(r.humidity_raw, -32768);
    assert_eq!(r.voc_index, -1);
    assert_eq!(r.pm1p0_raw, 65535);
    assert_eq!(r.pm2p5_raw, 32768);
}

fn config(manufacturer_id: u16) -> MqttServiceConfig {
    MqttServiceConfig {
        broker: "127.0.0.1".to_string(),
        port: 18830,
        client_id: "test-client".to_string(),
        topic: "test/topic".to_string(),
        keep_alive_secs: 5,
        manufacturer_id,
    }
}

#[test]
fn test_observer_filters_manufacturer_id() {
    let config = config(SENSOR_MANUFACTURER_ID);
    let payload = [0x00, 0x05, 0x90, 0x19, 0xC4, 0x09, 0x1E, 0x00, 0x78, 0x00, 0xB4, 0x00];
    // The sensor's manufacturer id is forwarded.
    match config.readings_to_publish(0xFFFF, &payload) {
        SensorAdvertisement::Publish { readings, topic, qos } => {
            assert_eq!(Some(readings), SensorReadings::from_manufacturer_data(&payload));
            assert_eq!(topic, "test/topic");
            assert_eq!(qos, QualityOfService::AtLeastOnce);
        }
        other => panic!("the sensor's readings are published, not {:?}", other),
    }
    // Other manufacturers (here Apple) are ignored.
    assert!(matches!(config.readings_to_publish(0x0059, &payload), SensorAdvertisement::Ignored));
    // A payload that does not decode is not forwarded.
    assert!(matches!(config.readings_to_publish(0xFFFF, &payload[..11]), SensorAdvertisement::Malformed));
}

#[test]
fn only_the_sensor_manufacturer_is_forwarded() {
    let config = config(0x0059);
    let payload = [0u8; 12];
    assert!(matches!(config.readings_to_publish(0x0059, &payload), SensorAdvertisement::Ignored));
    assert!(matches!(config.readings_to_publish(0xFFFF, &payload), SensorAdvertisement::Publish { .. }));
}
