//! Answers of the BLE and vent endpoints.

use vstd::prelude::*;
use crate::domain::vent::vent::VentStatus;
use crate::error::AppError;

verus! {

/// A request to start scanning.
#[derive(Debug)]
pub struct ScanRequest {
    pub timeout_secs: Option<u64>,
}

/// A request to connect to a device.
#[derive(Debug)]
pub struct ConnectRequest {
    pub device_id: String,
    pub timeout_secs: Option<u64>,
}

/// A plain answer.
#[derive(Debug)]
pub struct MessageResponse {
    pub status: String,
    pub message: String,
}

/// The answer to a connection.
#[derive(Debug)]
pub struct ConnectResponse {
    pub status: String,
    pub device_id: String,
    pub message: String,
}

/// The answer to a status request.
#[derive(Debug)]
pub struct VentStatusResponse {
    pub status: String,
}

/// The JSON body of a failed request.
#[derive(Debug)]
pub struct ErrorResponse {
    pub error: String,
}

/// The HTTP status of a failed vent or BLE operation.
pub const INTERNAL_SERVER_ERROR: u16 = 500;

/// The connection timeout used when a connection request gives none.
pub const DEFAULT_CONNECT_TIMEOUT_SECS: u64 = 10;

/// Whether `r` answers a failed operation: status 500 and `prefix` followed
/// by the error's text.
pub open spec fn is_failure<T>(r: Result<T, (u16, ErrorResponse)>, prefix: Seq<char>, e: AppError) -> bool {
    r matches Err((code, body)) && code == INTERNAL_SERVER_ERROR && body.error@ == prefix
        + e.spec_message()
}

/// Whether `r` is the plain answer with `status` and `message`.
pub open spec fn is_message<E>(r: Result<MessageResponse, E>, status: Seq<char>, message: Seq<char>) -> bool {
    r matches Ok(m) && m.status@ == status && m.message@ == message
}

fn failure(prefix: &str, e: AppError) -> (r: (u16, ErrorResponse))
    ensures
        r.0 == INTERNAL_SERVER_ERROR,
        r.1.error@ == prefix@ + e.spec_message(),
{
    let text = String::from_str(prefix).concat(e.message().as_str());
    (INTERNAL_SERVER_ERROR, ErrorResponse { error: text })
}

fn message(status: &str, text: &str) -> (r: MessageResponse)
    ensures
        r.status@ == status@,
        r.message@ == text@,
{
    MessageResponse { status: String::from_str(status), message: String::from_str(text) }
}

/// Turns the outcomes of the vent service into API answers.
#[derive(Debug)]
pub struct VentApiController {}

impl VentApiController {
    pub fn new() -> (r: Self) {
        VentApiController {  }
    }

    /// The answer to a scan request, from the outcome of starting the scan.
    pub fn scan(&self, payload: ScanRequest, outcome: Result<(), AppError>) -> (r: Result<MessageResponse, (u16, ErrorResponse)>)
        ensures
            match outcome {
                Ok(()) => is_message(r, "scanning"@, "BLE scan started"@),
                Err(e) => is_failure(r, "Failed to initialize scan: "@, e),
            },
    {
        match outcome {
            Ok(()) => Ok(message("scanning", "BLE scan started")),
            Err(e) => Err(failure("Failed to initialize scan: ", e)),
        }
    }

    /// The connection timeout of a connection request: the one it gives, or
    /// ten seconds.
    pub fn connect_timeout(&self, payload: &ConnectRequest) -> (r: u64)
        ensures
            r == match payload.timeout_secs {
                Some(t) => t,
                None => DEFAULT_CONNECT_TIMEOUT_SECS,
            },
    {
        match payload.timeout_secs {
            Some(t) => t,
            None => DEFAULT_CONNECT_TIMEOUT_SECS,
        }
    }

    /// The answer to a connection request for `device_id`, from the outcome of
    /// the connection.
    pub fn connect(&self, device_id: String, outcome: Result<(), AppError>) -> (r: Result<ConnectResponse, (u16, ErrorResponse)>)
        ensures
            match outcome {
                Ok(()) => r matches Ok(c) && c.status@ == "connected"@ && c.device_id == device_id
                    && c.message@ == "Successfully connected to device"@,
                Err(e) => is_failure(r, "Failed to connect to device: "@, e),
            },
    {
        match outcome {
            Ok(()) => Ok(
                ConnectResponse {
                    status: String::from_str("connected"),
                    device_id,
                    message: String::from_str("Successfully connected to device"),
                },
            ),
            Err(e) => Err(failure("Failed to connect to device: ", e)),
        }
    }

    /// The answer to an open request, from the outcome of the command.
    pub fn open(&self, outcome: Result<(), AppError>) -> (r: Result<MessageResponse, (u16, ErrorResponse)>)
        ensures
            match outcome {
                Ok(()) => is_message(r, "open"@, "Vent opened successfully"@),
                Err(e) => is_failure(r, "Failed to open vent: "@, e),
            },
    {
        match outcome {
            Ok(()) => Ok(message("open", "Vent opened successfully")),
            Err(e) => Err(failure("Failed to open vent: ", e)),
        }
    }

    /// The answer to a close request, from the outcome of the command.
    pub fn close(&self, outcome: Result<(), AppError>) -> (r: Result<MessageResponse, (u16, ErrorResponse)>)
        ensures
            match outcome {
                Ok(()) => is_message(r, "closed"@, "Vent closed successfully"@),
                Err(e) => is_failure(r, "Failed to close vent: "@, e),
            },
    {
        match outcome {
            Ok(()) => Ok(message("closed", "Vent closed successfully")),
            Err(e) => Err(failure("Failed to close vent: ", e)),
        }
    }

    /// The answer to a status request: the status by its name.
    pub fn status(&self, status: VentStatus) -> (r: VentStatusResponse)
        ensures
            r.status@ == status.spec_name(),
    {
        VentStatusResponse { status: status.name() }
    }

    /// The answer to a disconnection request, from its outcome.
    pub fn disconnect(&self, outcome: Result<(), AppError>) -> (r: Result<MessageResponse, (u16, ErrorResponse)>)
        ensures
            match outcome {
                Ok(()) => is_message(r, "disconnected"@, "Disconnected from device"@),
                Err(e) => is_failure(r, "Failed to disconnect: "@, e),
            },
    {
        match outcome {
            Ok(()) => Ok(message("disconnected", "Disconnected from device")),
            Err(e) => Err(failure("Failed to disconnect: ", e)),
        }
    }

    /// The answer to a request to stop scanning, from its outcome.
    pub fn stop_scan(&self, outcome: Result<(), AppError>) -> (r: Result<MessageResponse, (u16, ErrorResponse)>)
        ensures
            match outcome {
                Ok(()) => is_message(r, "stopped"@, "BLE scanning stopped"@),
                Err(e) => is_failure(r, "Failed to stop scanning: "@, e),
            },
    {
        match outcome {
            Ok(()) => Ok(message("stopped", "BLE scanning stopped")),
            Err(e) => Err(failure("Failed to stop scanning: ", e)),
        }
    }
}

} // verus!
