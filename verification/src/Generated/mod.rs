//! The wire messages of the Vine protocol.
//!
//! - `GenericRequest`: request with id, method, JSON parameter bytes
//! - `GenericResponse`: response with id, result bytes or an error
//! - `GenericNotification`: fire-and-forget notification
//! - `RpcError`: JSON-RPC style error
//! - `CancelOperationRequest`: ask the peer to abort an in-flight request
//! - `Envelope`: one frame of a bidirectional stream

pub mod envelope;

use vstd::prelude::*;

verus! {

/// Placeholder for calls with no result.
pub struct Empty {}

/// A request: correlation id, method name, JSON-encoded parameter.
pub struct GenericRequest {
    pub request_identifier: u64,
    pub method: String,
    pub parameter: Vec<u8>,
}

/// A JSON-RPC style error.
pub struct RpcError {
    pub code: i32,
    pub message: String,
    pub data: Vec<u8>,
}

/// A response: the request's correlation id, the JSON-encoded result, or an error.
pub struct GenericResponse {
    pub request_identifier: u64,
    pub result: Vec<u8>,
    pub error: Option<RpcError>,
}

/// A fire-and-forget notification.
pub struct GenericNotification {
    pub method: String,
    pub parameter: Vec<u8>,
}

/// A request to abort the in-flight request `request_identifier_to_cancel`.
pub struct CancelOperationRequest {
    pub request_identifier_to_cancel: u64,
}

/// A generic data payload.
pub struct RpcDataPayload {
    pub data: Vec<u8>,
}

/// One frame of a bidirectional stream.
pub struct Envelope {
    pub payload: Option<envelope::Payload>,
    pub channel_id: u64,
}

} // verus!
