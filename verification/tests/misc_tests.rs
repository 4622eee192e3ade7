use ble_central_gateway::domain::vent::controller::VentController;
use ble_central_gateway::domain::vent::vent::VentState;
use ble_central_gateway::service::ServiceProvider;
use ble_central_gateway::services::ble::ble_backend::normalize_address;
use ble_central_gateway::text::{eq_ascii_lowercase, u64_to_decimal};

#[test]
fn decimal_rendering() {
    assert_eq!(u64_to_decimal(0), "0");
    assert_eq!(u64_to_decimal(9), "9");
    assert_eq!(u64_to_decimal(10), "10");
    assert_eq!(u64_to_decimal(8080), "8080");
    assert_eq!(u64_to_decimal(u64::MAX), u64::MAX.to_string());
}

#[test]
fn ascii_case_folding() {
    assert!(eq_ascii_lowercase("TrAcE", "trace"));
    assert!(!eq_ascii_lowercase("trac", "trace"));
    assert!(!eq_ascii_lowercase("tracE!", "trace"));
}

#[test]
fn vent_flap_opens_and_closes() {
    let mut controller = VentController::new();
    assert_eq!(controller.status(), VentState::Closed);
    controller.open();
    assert_eq!(controller.status(), VentState::Open);
    controller.close();
    assert_eq!(controller.status(), VentState::Closed);
}

#[test]
fn placeholder_addresses_are_dropped() {
    assert_eq!(normalize_address("00:00:00:00:00:00".to_string()), None);
    assert_eq!(
        normalize_address("C4:5B:BE:01:02:03".to_string()),
        Some("C4:5B:BE:01:02:03".to_string())
    );
}

#[test]
fn service_provider_shares_one_instance_of_each() {
    let provider = ServiceProvider::new();
    let logger = provider.logger.clone();
    assert_eq!(std::sync::Arc::strong_count(&logger), 2);
    assert_eq!(std::sync::Arc::strong_count(&provider.database), 1);
}
