//! Application settings and their validation.

use vstd::prelude::*;
use crate::text::{ascii_lowercase, decimal, eq_ascii_lowercase, u64_to_decimal};

verus! {

/// A configuration that cannot be used, with the reason in words.
#[derive(Debug)]
pub enum ConfigError {
    Message(String),
}

impl ConfigError {
    /// The text of the error.
    pub open spec fn spec_message(&self) -> Seq<char> {
        match self {
            ConfigError::Message(m) => m@,
        }
    }

    /// The text of the error.
    pub fn message(&self) -> (r: String)
        ensures
            r@ == self.spec_message(),
    {
        match self {
            ConfigError::Message(m) => m.clone(),
        }
    }
}

/// The log levels the gateway accepts, compared without regard to ASCII case.
/// The names are all ASCII letters, and no other character lowercases to a
/// single one of them, so this accepts exactly the texts whose lowercase is
/// one of the names.
pub open spec fn is_valid_log_level(level: Seq<char>) -> bool {
    let l = ascii_lowercase(level);
    l == "trace"@ || l == "debug"@ || l == "info"@ || l == "warn"@ || l == "error"@
}

/// Whether `level` names one of the accepted log levels.
pub fn valid_log_level(level: &str) -> (r: bool)
    ensures
        r == is_valid_log_level(level@),
{
    eq_ascii_lowercase(level, "trace") || eq_ascii_lowercase(level, "debug")
        || eq_ascii_lowercase(level, "info") || eq_ascii_lowercase(level, "warn")
        || eq_ascii_lowercase(level, "error")
}

/// HTTP API settings.
#[derive(Debug)]
pub struct ApiConfig {
    pub host: String,
    pub port: u16,
    pub log_level: String,
}

/// MQTT broker settings.
#[derive(Debug)]
pub struct MqttConfig {
    pub broker: String,
    pub port: u16,
    pub client_id: String,
    pub keep_alive_secs: u64,
    pub topic: String,
    pub manufacturer_id: u16,
}

/// Bluetooth settings.
#[derive(Debug)]
pub struct BleConfig {
    pub enable_scan: bool,
    pub scan_auto_start: Option<bool>,
    pub connection_timeout_secs: u64,
    pub observer_timeout_secs: u64,
}

impl BleConfig {
    /// Whether scanning starts with the application; off unless configured.
    pub fn scan_on_start(&self) -> (r: bool)
        ensures
            r == (self.scan_auto_start == Some(true)),
    {
        match self.scan_auto_start {
            Some(start) => start,
            None => false,
        }
    }
}

/// Application configuration.
#[derive(Debug)]
pub struct Settings {
    pub api: ApiConfig,
    pub mqtt: MqttConfig,
    pub ble: BleConfig,
}

impl Settings {
    /// The first rule that the settings break, checked in a fixed order, as the
    /// message that reports it; `None` when the settings are usable.
    pub open spec fn validation_error(&self) -> Option<Seq<char>> {
        if self.api.port == 0 {
            Some("API port must be greater than 0"@)
        } else if self.api.host@.len() == 0 {
            Some("API host cannot be empty"@)
        } else if !is_valid_log_level(self.api.log_level@) {
            Some(
                "Invalid log level '"@ + self.api.log_level@
                    + "'. Must be one of: trace, debug, info, warn, error"@,
            )
        } else if self.mqtt.broker@.len() == 0 {
            Some("MQTT broker cannot be empty"@)
        } else if self.mqtt.port == 0 {
            Some("MQTT port must be greater than 0"@)
        } else if self.mqtt.client_id@.len() == 0 {
            Some("MQTT client_id cannot be empty"@)
        } else if self.mqtt.topic@.len() == 0 {
            Some("MQTT topic cannot be empty"@)
        } else if self.mqtt.keep_alive_secs == 0 {
            Some("MQTT keep_alive_secs must be greater than 0"@)
        } else if self.mqtt.keep_alive_secs > 65535 {
            Some("MQTT keep_alive_secs must be less than or equal to 65535"@)
        } else if self.ble.connection_timeout_secs == 0 {
            Some("BLE connection_timeout_secs must be greater than 0"@)
        } else if self.ble.connection_timeout_secs > 300 {
            Some("BLE connection_timeout_secs should not exceed 300 seconds (5 minutes)"@)
        } else if self.ble.observer_timeout_secs == 0 {
            Some("BLE observer_timeout_secs must be greater than 0"@)
        } else if self.ble.observer_timeout_secs > 60 {
            Some("BLE observer_timeout_secs should not exceed 60 seconds"@)
        } else {
            None
        }
    }

    /// Checks the configuration values; the error names the first rule broken.
    pub fn validate(&self) -> (r: Result<(), ConfigError>)
        ensures
            match r {
                Ok(()) => self.validation_error() is None,
                Err(e) => self.validation_error() == Some(e.spec_message()),
            },
    {
        if self.api.port == 0 {
            return Err(ConfigError::Message(String::from_str("API port must be greater than 0")));
        }
        if self.api.host.as_str().is_empty() {
            return Err(ConfigError::Message(String::from_str("API host cannot be empty")));
        }
        if !valid_log_level(self.api.log_level.as_str()) {
            let text = String::from_str("Invalid log level '").concat(self.api.log_level.as_str()).concat(
                "'. Must be one of: trace, debug, info, warn, error",
            );
            return Err(ConfigError::Message(text));
        }
        if self.mqtt.broker.as_str().is_empty() {
            return Err(ConfigError::Message(String::from_str("MQTT broker cannot be empty")));
        }
        if self.mqtt.port == 0 {
            return Err(ConfigError::Message(String::from_str("MQTT port must be greater than 0")));
        }
        if self.mqtt.client_id.as_str().is_empty() {
            return Err(ConfigError::Message(String::from_str("MQTT client_id cannot be empty")));
        }
        if self.mqtt.topic.as_str().is_empty() {
            return Err(ConfigError::Message(String::from_str("MQTT topic cannot be empty")));
        }
        if self.mqtt.keep_alive_secs == 0 {
            return Err(
                ConfigError::Message(
                    String::from_str("MQTT keep_alive_secs must be greater than 0"),
                ),
            );
        }
        if self.mqtt.keep_alive_secs > 65535 {
            return Err(
                ConfigError::Message(
                    String::from_str("MQTT keep_alive_secs must be less than or equal to 65535"),
                ),
            );
        }
        if self.ble.connection_timeout_secs == 0 {
            return Err(
                ConfigError::Message(
                    String::from_str("BLE connection_timeout_secs must be greater than 0"),
                ),
            );
        }
        if self.ble.connection_timeout_secs > 300 {
            return Err(
                ConfigError::Message(
                    String::from_str(
                        "BLE connection_timeout_secs should not exceed 300 seconds (5 minutes)",
                    ),
                ),
            );
        }
        if self.ble.observer_timeout_secs == 0 {
            return Err(
                ConfigError::Message(
                    String::from_str("BLE observer_timeout_secs must be greater than 0"),
                ),
            );
        }
        if self.ble.observer_timeout_secs > 60 {
            return Err(
                ConfigError::Message(
                    String::from_str("BLE observer_timeout_secs should not exceed 60 seconds"),
                ),
            );
        }
        Ok(())
    }

    /// `host:port` as the server binds it.
    pub open spec fn spec_listen_address(&self) -> Seq<char> {
        self.api.host@ + ":"@ + decimal(self.api.port as nat)
    }

    /// The full listen address (`host:port`).
    pub fn listen_address(&self) -> (r: String)
        ensures
            r@ == self.spec_listen_address(),
    {
        let host = self.api.host.clone();
        let with_colon = host.concat(":");
        with_colon.concat(u64_to_decimal(self.api.port as u64).as_str())
    }
}

/// `a` and `b` are the same settings except perhaps for the log level.
pub open spec fn same_but_log_level(a: &Settings, b: &Settings) -> bool {
    &&& a.api.host@ == b.api.host@
    &&& a.api.port == b.api.port
    &&& a.mqtt.broker@ == b.mqtt.broker@
    &&& a.mqtt.port == b.mqtt.port
    &&& a.mqtt.client_id@ == b.mqtt.client_id@
    &&& a.mqtt.keep_alive_secs == b.mqtt.keep_alive_secs
    &&& a.mqtt.topic@ == b.mqtt.topic@
    &&& a.ble.connection_timeout_secs == b.ble.connection_timeout_secs
    &&& a.ble.observer_timeout_secs == b.ble.observer_timeout_secs
}

/// The log level is checked without regard to ASCII case: settings that
/// differ only in the case of their log level are accepted or rejected
/// together.
pub proof fn log_level_check_ignores_case(a: &Settings, b: &Settings)
    requires
        same_but_log_level(a, b),
        ascii_lowercase(a.api.log_level@) == ascii_lowercase(b.api.log_level@),
    ensures
        (a.validation_error() is None) == (b.validation_error() is None),
{
}

/// Every rule of `Settings::validate` but the log level's holds.
pub open spec fn other_rules_hold(s: &Settings) -> bool {
    &&& s.api.port != 0
    &&& s.api.host@.len() > 0
    &&& s.mqtt.broker@.len() > 0
    &&& s.mqtt.port != 0
    &&& s.mqtt.client_id@.len() > 0
    &&& s.mqtt.topic@.len() > 0
    &&& 1 <= s.mqtt.keep_alive_secs <= 65535
    &&& 1 <= s.ble.connection_timeout_secs <= 300
    &&& 1 <= s.ble.observer_timeout_secs <= 60
}

/// The accepted log levels are trace, debug, info, warn and error, in any
/// ASCII case: settings that keep every other rule are usable exactly when
/// their log level lowercases to one of these names; any other level is
/// reported with its text and the list of accepted names.
pub proof fn accepted_log_levels(s: &Settings)
    requires
        other_rules_hold(s),
    ensures
        (s.validation_error() is None) <==> ({
            let l = ascii_lowercase(s.api.log_level@);
            l == "trace"@ || l == "debug"@ || l == "info"@ || l == "warn"@ || l == "error"@
        }),
        s.validation_error() is Some ==> s.validation_error() == Some(
            "Invalid log level '"@ + s.api.log_level@
                + "'. Must be one of: trace, debug, info, warn, error"@,
        ),
{
}

/// Settings are usable exactly when every rule holds: both ports are
/// non-zero, the API host, MQTT broker, client id and topic are not empty,
/// the keep-alive is between 1 and 65535 seconds, the connection timeout
/// between 1 and 300 seconds, the observer timeout between 1 and 60 seconds,
/// and the log level is one of the accepted names in any ASCII case.
pub proof fn usable_settings(s: &Settings)
    ensures
        (s.validation_error() is None) <==> other_rules_hold(s) && ({
            let l = ascii_lowercase(s.api.log_level@);
            l == "trace"@ || l == "debug"@ || l == "info"@ || l == "warn"@ || l == "error"@
        }),
{
}

} // verus!
