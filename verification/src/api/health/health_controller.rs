//! The health report.

use vstd::prelude::*;

verus! {

/// Health of each service.
#[derive(Debug)]
pub struct ServiceHealth {
    pub ble: String,
    pub mqtt: String,
}

/// The health report of the gateway.
#[derive(Debug)]
pub struct HealthResponse {
    pub status: String,
    pub version: String,
    pub uptime_seconds: u64,
    pub services: ServiceHealth,
}

/// The health report from the probes. The Bluetooth service is `ok` when an
/// adapter is present, `no_adapter` otherwise. The MQTT service is always
/// `ok`: it runs for the whole life of the gateway and reconnects to the
/// broker on its own. The gateway is `ok` when both services are, `degraded`
/// otherwise.
pub fn health_check(version: String, uptime_seconds: u64, has_adapter: bool) -> (r: HealthResponse)
    ensures
        r.services.ble@ == (if has_adapter { "ok"@ } else { "no_adapter"@ }),
        r.services.mqtt@ == "ok"@,
        r.status@ == (if has_adapter { "ok"@ } else { "degraded"@ }),
        r.version == version,
        r.uptime_seconds == uptime_seconds,
{
    let ble = if has_adapter {
        String::from_str("ok")
    } else {
        String::from_str("no_adapter")
    };
    let mqtt = String::from_str("ok");
    let status = if has_adapter {
        String::from_str("ok")
    } else {
        String::from_str("degraded")
    };
    HealthResponse { status, version, uptime_seconds, services: ServiceHealth { ble, mqtt } }
}

} // verus!
