//! Validation of MQTT publication requests and the answers of the MQTT
//! endpoints.

use vstd::prelude::*;
use crate::error::AppError;
use crate::services::mqtt_service::QualityOfService;
use crate::text::{decimal, u64_to_decimal};

verus! {

/// A request to publish a text message.
#[derive(Debug)]
pub struct PublishRequest {
    pub topic: String,
    pub message: String,
    /// 0 = at most once, 1 = at least once, 2 = exactly once.
    pub qos: u8,
}

/// The QoS level of a publication request that gives none.
pub fn default_qos() -> (r: u8)
    ensures
        r == 0,
{
    0
}

/// The answer to a publication.
#[derive(Debug)]
pub struct PublishResponse {
    pub status: String,
    pub message: String,
}

/// The answer to a status request.
#[derive(Debug)]
pub struct MqttStatusResponse {
    pub status: String,
    pub message: String,
}

/// The fields of a JSON publication request that decide its fate: the topic
/// when it is a string, the QoS level when it is an unsigned integer, and
/// whether a payload is present.
#[derive(Debug)]
pub struct JsonPublishRequest {
    pub topic: Option<String>,
    pub qos: Option<u64>,
    pub has_payload: bool,
}

/// Where and how a JSON payload is to be published.
#[derive(Debug)]
pub struct JsonPublishTarget {
    pub topic: String,
    /// The QoS level as the request gave it (0 when it gave none).
    pub qos_value: u64,
    pub qos: QualityOfService,
}

/// The QoS a level names, if any.
pub open spec fn qos_of_level(level: u64) -> Option<QualityOfService> {
    if level == 0 {
        Some(QualityOfService::AtMostOnce)
    } else if level == 1 {
        Some(QualityOfService::AtLeastOnce)
    } else if level == 2 {
        Some(QualityOfService::ExactlyOnce)
    } else {
        None
    }
}

/// The message that rejects a QoS level.
pub open spec fn invalid_qos_message(level: u64) -> Seq<char> {
    "Invalid QoS value: "@ + decimal(level as nat) + ". Must be 0, 1, or 2"@
}

/// Whether `r` is the error `InvalidInput` with the message `m`.
pub open spec fn is_invalid_input<T>(r: Result<T, AppError>, m: Seq<char>) -> bool {
    r matches Err(AppError::InvalidInput(text)) && text@ == m
}

/// The QoS of a level: 0, 1 and 2 are accepted, any other is invalid input.
pub fn qos_from_level(level: u8) -> (r: Result<QualityOfService, AppError>)
    ensures
        match qos_of_level(level as u64) {
            Some(q) => r == Ok::<QualityOfService, AppError>(q),
            None => is_invalid_input(r, invalid_qos_message(level as u64)),
        },
{
    qos_from_requested(level as u64)
}

fn qos_from_requested(level: u64) -> (r: Result<QualityOfService, AppError>)
    ensures
        match qos_of_level(level) {
            Some(q) => r == Ok::<QualityOfService, AppError>(q),
            None => is_invalid_input(r, invalid_qos_message(level)),
        },
{
    if level == 0 {
        Ok(QualityOfService::AtMostOnce)
    } else if level == 1 {
        Ok(QualityOfService::AtLeastOnce)
    } else if level == 2 {
        Ok(QualityOfService::ExactlyOnce)
    } else {
        let text = String::from_str("Invalid QoS value: ").concat(
            u64_to_decimal(level).as_str(),
        ).concat(". Must be 0, 1, or 2");
        Err(AppError::InvalidInput(text))
    }
}

/// The answer to a status request. The MQTT service runs for the whole life
/// of the gateway and reconnects to the broker on its own, so it always
/// reports itself active.
pub fn get_status() -> (r: MqttStatusResponse)
    ensures
        r.status@ == "connected"@,
        r.message@ == "MQTT service is active and monitoring sensor data"@,
{
    MqttStatusResponse {
        status: String::from_str("connected"),
        message: String::from_str("MQTT service is active and monitoring sensor data"),
    }
}

/// Decides a text publication: the QoS the request asks for, or the error
/// that rejects it.
pub fn publish_message(request: &PublishRequest) -> (r: Result<QualityOfService, AppError>)
    ensures
        match qos_of_level(request.qos as u64) {
            Some(q) => r == Ok::<QualityOfService, AppError>(q),
            None => is_invalid_input(r, invalid_qos_message(request.qos as u64)),
        },
{
    qos_from_level(request.qos)
}

/// The answer once a text message is published to `topic`.
pub fn message_published(topic: &str) -> (r: PublishResponse)
    ensures
        r.status@ == "published"@,
        r.message@ == "Message published to topic '"@ + topic@ + "'"@,
{
    PublishResponse {
        status: String::from_str("published"),
        message: String::from_str("Message published to topic '").concat(topic).concat("'"),
    }
}

/// Decides a JSON publication. The topic is required, then the payload; a
/// missing QoS level means 0, and any level other than 0, 1 and 2 is
/// rejected with the level as given.
pub fn publish_json(request: JsonPublishRequest) -> (r: Result<JsonPublishTarget, AppError>)
    ensures
        match request.topic {
            None => is_invalid_input(r, "Missing 'topic' field"@),
            Some(topic) => {
                let level: u64 = match request.qos {
                    Some(q) => q,
                    None => 0,
                };
                if !request.has_payload {
                    is_invalid_input(r, "Missing 'payload' field"@)
                } else {
                    match qos_of_level(level) {
                        Some(q) => r matches Ok(t) && t.topic == topic && t.qos_value == level
                            && t.qos == q,
                        None => is_invalid_input(r, invalid_qos_message(level)),
                    }
                }
            },
        },
{
    let topic = match request.topic {
        Some(topic) => topic,
        None => {
            return Err(AppError::InvalidInput(String::from_str("Missing 'topic' field")));
        },
    };
    let qos_value: u64 = match request.qos {
        Some(q) => q,
        None => 0,
    };
    if !request.has_payload {
        return Err(AppError::InvalidInput(String::from_str("Missing 'payload' field")));
    }
    let qos = qos_from_requested(qos_value)?;
    Ok(JsonPublishTarget { topic, qos_value, qos })
}

/// The answer once a JSON payload is published to `topic`.
pub fn json_published(topic: &str) -> (r: PublishResponse)
    ensures
        r.status@ == "published"@,
        r.message@ == "JSON published to topic '"@ + topic@ + "'"@,
{
    PublishResponse {
        status: String::from_str("published"),
        message: String::from_str("JSON published to topic '").concat(topic).concat("'"),
    }
}

/// The QoS levels are those of MQTT: exactly 0, 1 and 2 are accepted, level
/// 0 is at most once, 1 at least once and 2 exactly once, and no two levels
/// name the same QoS.
pub proof fn qos_levels_are_mqtts(a: u64, b: u64)
    ensures
        qos_of_level(a) is Some <==> a <= 2,
        a == 0 ==> qos_of_level(a) == Some(QualityOfService::AtMostOnce),
        a == 1 ==> qos_of_level(a) == Some(QualityOfService::AtLeastOnce),
        a == 2 ==> qos_of_level(a) == Some(QualityOfService::ExactlyOnce),
        qos_of_level(a) is Some && qos_of_level(a) == qos_of_level(b) ==> a == b,
{
}

} // verus!
