//! The MQTT side of the gateway: its settings, which sensor advertisements
//! are forwarded, and how repeated broker errors are reported.

use vstd::prelude::*;
use crate::configuration::MqttConfig;
use crate::domain::sensor::readings::{SensorReadings, SENSOR_PAYLOAD_LEN};

verus! {

/// Delivery guarantee of an MQTT publication.
#[derive(Clone, Copy, Debug, PartialEq, Eq, Structural)]
pub enum QualityOfService {
    AtMostOnce,
    AtLeastOnce,
    ExactlyOnce,
}

/// Settings of the MQTT service.
#[derive(Debug)]
pub struct MqttServiceConfig {
    pub broker: String,
    pub port: u16,
    pub client_id: String,
    pub topic: String,
    pub keep_alive_secs: u64,
    pub manufacturer_id: u16,
}

impl MqttServiceConfig {
    /// The MQTT service settings taken from the application configuration.
    pub fn from_mqtt_config(config: &MqttConfig) -> (r: Self)
        ensures
            r.broker@ == config.broker@,
            r.port == config.port,
            r.client_id@ == config.client_id@,
            r.topic@ == config.topic@,
            r.keep_alive_secs == config.keep_alive_secs,
            r.manufacturer_id == config.manufacturer_id,
    {
        MqttServiceConfig {
            broker: config.broker.clone(),
            port: config.port,
            client_id: config.client_id.clone(),
            topic: config.topic.clone(),
            keep_alive_secs: config.keep_alive_secs,
            manufacturer_id: config.manufacturer_id,
        }
    }

    /// What to do with a manufacturer advertisement: advertisements of other
    /// manufacturers than the sensor's (`SENSOR_MANUFACTURER_ID`) are
    /// ignored, a sensor payload that does not decode is malformed, and the
    /// readings of one that does are published to the configured topic at
    /// least once.
    pub fn readings_to_publish(&self, manufacturer_id: u16, data: &[u8]) -> (r: SensorAdvertisement)
        ensures
            manufacturer_id != SENSOR_MANUFACTURER_ID ==> r is Ignored,
            manufacturer_id == SENSOR_MANUFACTURER_ID && data@.len() != SENSOR_PAYLOAD_LEN
                ==> r is Malformed,
            manufacturer_id == SENSOR_MANUFACTURER_ID && data@.len() == SENSOR_PAYLOAD_LEN
                ==> (r matches SensorAdvertisement::Publish { readings, topic, qos }
                && readings == SensorReadings::decode(data@) && topic@ == self.topic@
                && qos == QualityOfService::AtLeastOnce),
    {
        if manufacturer_id != SENSOR_MANUFACTURER_ID {
            return SensorAdvertisement::Ignored;
        }
        match SensorReadings::from_manufacturer_data(data) {
            Some(readings) => SensorAdvertisement::Publish {
                readings,
                topic: self.topic.clone(),
                qos: QualityOfService::AtLeastOnce,
            },
            None => SensorAdvertisement::Malformed,
        }
    }
}

/// The fate of a manufacturer advertisement.
#[derive(Debug)]
pub enum SensorAdvertisement {
    /// Not from the sensor's manufacturer.
    Ignored,
    /// From the sensor's manufacturer, but not a sensor payload.
    Malformed,
    /// Readings to publish, where and how.
    Publish { readings: SensorReadings, topic: String, qos: QualityOfService },
}

/// The manufacturer id under which the air-quality sensor advertises.
pub const SENSOR_MANUFACTURER_ID: u16 = 0xFFFF;

/// What to log for one error of the MQTT event loop.
#[derive(Clone, Copy, Debug, PartialEq, Eq, Structural)]
pub enum ThrottleAction {
    /// A new error: log it; when a different error was repeating before,
    /// `resolved_after` is how many times that one occurred.
    Report { resolved_after: Option<u32> },
    /// The error has now repeated `repetitions` times: warn once and log no
    /// more repetitions of it.
    Suppress { repetitions: u32 },
    /// A repetition of the current error: log nothing.
    Silent,
}

/// The state of the error throttle by its values.
pub struct ThrottleView {
    pub last_error: Option<Seq<char>>,
    pub consecutive_count: u32,
    pub suppressed: bool,
}

/// The number of repetitions at which a repeated error is warned about.
pub const SUPPRESS_AFTER: u32 = 10;

impl ThrottleView {
    /// The state and the action after the event loop reports `error`.
    pub open spec fn step(self, error: Seq<char>) -> (ThrottleView, ThrottleAction) {
        if self.last_error == Some(error) {
            let count = (self.consecutive_count + 1) as u32;
            if count == SUPPRESS_AFTER && !self.suppressed {
                (
                    ThrottleView { consecutive_count: count, suppressed: true, ..self },
                    ThrottleAction::Suppress { repetitions: count },
                )
            } else {
                (ThrottleView { consecutive_count: count, ..self }, ThrottleAction::Silent)
            }
        } else {
            let resolved_after = if self.last_error is Some && self.consecutive_count > 0 {
                Some((self.consecutive_count + 1) as u32)
            } else {
                None
            };
            (
                ThrottleView { last_error: Some(error), consecutive_count: 0, suppressed: false },
                ThrottleAction::Report { resolved_after },
            )
        }
    }
}

/// Throttles the logging of MQTT event loop errors: each new error is
/// logged, and an error that keeps repeating is warned about once, at its
/// tenth repetition, and then no more.
pub struct ErrorThrottle {
    last_error: Option<String>,
    consecutive_count: u32,
    suppressed: bool,
}

impl View for ErrorThrottle {
    type V = ThrottleView;

    closed spec fn view(&self) -> ThrottleView {
        ThrottleView {
            last_error: match self.last_error {
                Some(e) => Some(e@),
                None => None,
            },
            consecutive_count: self.consecutive_count,
            suppressed: self.suppressed,
        }
    }
}

impl ErrorThrottle {
    /// A throttle that has seen no error.
    pub fn new() -> (r: Self)
        ensures
            r@ == (ThrottleView { last_error: None, consecutive_count: 0, suppressed: false }),
    {
        ErrorThrottle { last_error: None, consecutive_count: 0, suppressed: false }
    }

    /// How many times the current error has repeated since first seen.
    pub fn consecutive_count(&self) -> (r: u32)
        ensures
            r == self@.consecutive_count,
    {
        self.consecutive_count
    }

    /// Records one error of the event loop and says what to log.
    pub fn on_error(&mut self, error: String) -> (action: ThrottleAction)
        requires
            old(self)@.consecutive_count < u32::MAX,
        ensures
            (final(self)@, action) == old(self)@.step(error@),
    {
        let repeated = match &self.last_error {
            Some(last) => *last == error,
            None => false,
        };
        if repeated {
            self.consecutive_count = self.consecutive_count + 1;
            if self.consecutive_count == SUPPRESS_AFTER && !self.suppressed {
                self.suppressed = true;
                ThrottleAction::Suppress { repetitions: self.consecutive_count }
            } else {
                ThrottleAction::Silent
            }
        } else {
            let resolved_after = if self.last_error.is_some() && self.consecutive_count > 0 {
                Some(self.consecutive_count + 1)
            } else {
                None
            };
            self.last_error = Some(error);
            self.consecutive_count = 0;
            self.suppressed = false;
            ThrottleAction::Report { resolved_after }
        }
    }
}

/// The throttle after `k` more occurrences of `error`.
pub open spec fn repeated(v: ThrottleView, error: Seq<char>, k: nat) -> ThrottleView
    decreases k,
{
    if k == 0 {
        v
    } else {
        repeated(v, error, (k - 1) as nat).step(error).0
    }
}

/// A new error is reported when it first occurs; after `k` repetitions the
/// throttle counts `k` and is silenced from the tenth on, and among the
/// repetitions only the tenth is warned about.
pub proof fn repeated_error_is_warned_once(v: ThrottleView, error: Seq<char>, k: nat)
    requires
        v.last_error != Some(error),
        k < u32::MAX,
    ensures
        v.step(error).1 is Report,
        repeated(v.step(error).0, error, k).last_error == Some(error),
        repeated(v.step(error).0, error, k).consecutive_count == k,
        repeated(v.step(error).0, error, k).suppressed == (k >= SUPPRESS_AFTER),
        k >= 1 ==> (repeated(v.step(error).0, error, (k - 1) as nat).step(error).1 is Suppress
            <==> k == SUPPRESS_AFTER),
    decreases k,
{
    if k > 0 {
        repeated_error_is_warned_once(v, error, (k - 1) as nat);
    }
}

/// When a different error follows one that has repeated, the report of the
/// new error counts the occurrences of the old one (its first occurrence and
/// every repetition), whether or not the old one had been silenced; when the
/// old one never repeated, nothing is reported resolved.
pub proof fn next_error_reports_occurrences(v: ThrottleView, next: Seq<char>)
    requires
        v.last_error is Some,
        v.last_error != Some(next),
        v.consecutive_count < u32::MAX,
    ensures
        v.consecutive_count > 0 ==> v.step(next).1 == (ThrottleAction::Report {
            resolved_after: Some((v.consecutive_count + 1) as u32),
        }),
        v.consecutive_count == 0 ==> v.step(next).1 == (ThrottleAction::Report {
            resolved_after: None,
        }),
{
}

/// An error that occurs once and then repeats `k` times is reported, when a
/// different error follows, as resolved after `k + 1` occurrences, also
/// after it has been silenced at its tenth repetition.
pub proof fn repeated_error_resolves_after_its_occurrences(
    v: ThrottleView,
    error: Seq<char>,
    next: Seq<char>,
    k: nat,
)
    requires
        v.last_error != Some(error),
        next != error,
        1 <= k < u32::MAX,
    ensures
        repeated(v.step(error).0, error, k).step(next).1 == (ThrottleAction::Report {
            resolved_after: Some((k + 1) as u32),
        }),
{
    repeated_error_is_warned_once(v, error, k);
}

} // verus!
