//! The structured errors of every operation that flows through Vine, their
//! messages, and their mapping to and from gRPC status codes.
//!
//! Errors that originate in a library below Vine (JSON encoding, the gRPC
//! transport, URI and socket-address parsing) are carried as their message.

use vstd::prelude::*;
use vstd::string::*;

use crate::Runtime::{
    MakeStatus, StatusCodeNumber, StatusMessageText, StatusRendered, grpc_status_code, grpc_status_message,
    grpc_status_rendered,
};
use crate::Strings::{Concat, DecimalU64, decimal};

verus! {

/// The errors of the Vine layer.
#[derive(Debug)]
pub enum VineError {
    /// No gRPC client for the side-car is in the connection pool.
    ClientNotConnected(String),
    /// A connection to the side-car could not be established.
    ConnectionFailed { SideCarIdentifier: String, Address: String, Reason: String },
    /// An established connection was lost.
    ConnectionLost(String),
    /// A call failed with a gRPC status.
    RPCError(String),
    /// A request got no response within its timeout.
    RequestTimeout { SideCarIdentifier: String, MethodName: String, TimeoutMilliseconds: u64 },
    /// A request was cancelled before it completed.
    RequestCanceled { SideCarIdentifier: String, MethodName: String },
    /// A JSON payload could not be encoded or decoded (the encoder's message).
    SerializationError(String),
    /// A message exceeds the size limit.
    MessageTooLarge { ActualSize: usize, MaxSize: usize },
    /// A message failed format validation.
    InvalidMessageFormat(String),
    /// The gRPC transport failed (the transport's message).
    TonicTransportError(String),
    /// A shared-state lock was poisoned by a panic in another thread.
    InternalLockError(String),
    /// An internal state that should never occur was reached.
    InvalidState(String),
    /// A URI failed to parse (the parser's message).
    InvalidUri(String),
    /// A socket address failed to parse (the parser's message).
    AddressParseError(String),
}

/// The mathematical value of a [`VineError`].
pub enum VineErrorV {
    ClientNotConnected(Seq<char>),
    ConnectionFailed { side_car: Seq<char>, address: Seq<char>, reason: Seq<char> },
    ConnectionLost(Seq<char>),
    RPCError(Seq<char>),
    RequestTimeout { side_car: Seq<char>, method: Seq<char>, timeout_ms: u64 },
    RequestCanceled { side_car: Seq<char>, method: Seq<char> },
    SerializationError(Seq<char>),
    MessageTooLarge { actual: usize, max: usize },
    InvalidMessageFormat(Seq<char>),
    TonicTransportError(Seq<char>),
    InternalLockError(Seq<char>),
    InvalidState(Seq<char>),
    InvalidUri(Seq<char>),
    AddressParseError(Seq<char>),
}

impl View for VineError {
    type V = VineErrorV;

    open spec fn view(&self) -> VineErrorV {
        match self {
            VineError::ClientNotConnected(s) => VineErrorV::ClientNotConnected(s@),
            VineError::ConnectionFailed { SideCarIdentifier, Address, Reason } =>
                VineErrorV::ConnectionFailed {
                side_car: SideCarIdentifier@,
                address: Address@,
                reason: Reason@,
            },
            VineError::ConnectionLost(s) => VineErrorV::ConnectionLost(s@),
            VineError::RPCError(s) => VineErrorV::RPCError(s@),
            VineError::RequestTimeout { SideCarIdentifier, MethodName, TimeoutMilliseconds } =>
                VineErrorV::RequestTimeout {
                side_car: SideCarIdentifier@,
                method: MethodName@,
                timeout_ms: *TimeoutMilliseconds,
            },
            VineError::RequestCanceled { SideCarIdentifier, MethodName } =>
                VineErrorV::RequestCanceled { side_car: SideCarIdentifier@, method: MethodName@ },
            VineError::SerializationError(s) => VineErrorV::SerializationError(s@),
            VineError::MessageTooLarge { ActualSize, MaxSize } => VineErrorV::MessageTooLarge {
                actual: *ActualSize,
                max: *MaxSize,
            },
            VineError::InvalidMessageFormat(s) => VineErrorV::InvalidMessageFormat(s@),
            VineError::TonicTransportError(s) => VineErrorV::TonicTransportError(s@),
            VineError::InternalLockError(s) => VineErrorV::InternalLockError(s@),
            VineError::InvalidState(s) => VineErrorV::InvalidState(s@),
            VineError::InvalidUri(s) => VineErrorV::InvalidUri(s@),
            VineError::AddressParseError(s) => VineErrorV::AddressParseError(s@),
        }
    }
}

/// The gRPC status codes.
#[derive(Debug)]
pub enum StatusCode {
    OK,
    Cancelled,
    Unknown,
    InvalidArgument,
    DeadlineExceeded,
    NotFound,
    AlreadyExists,
    PermissionDenied,
    ResourceExhausted,
    FailedPrecondition,
    Aborted,
    OutOfRange,
    Unimplemented,
    Internal,
    Unavailable,
    DataLoss,
    Unauthenticated,
}

/// The number gRPC assigns to each status code.
pub open spec fn status_number(c: StatusCode) -> i32 {
    match c {
        StatusCode::OK => 0,
        StatusCode::Cancelled => 1,
        StatusCode::Unknown => 2,
        StatusCode::InvalidArgument => 3,
        StatusCode::DeadlineExceeded => 4,
        StatusCode::NotFound => 5,
        StatusCode::AlreadyExists => 6,
        StatusCode::PermissionDenied => 7,
        StatusCode::ResourceExhausted => 8,
        StatusCode::FailedPrecondition => 9,
        StatusCode::Aborted => 10,
        StatusCode::OutOfRange => 11,
        StatusCode::Unimplemented => 12,
        StatusCode::Internal => 13,
        StatusCode::Unavailable => 14,
        StatusCode::DataLoss => 15,
        StatusCode::Unauthenticated => 16,
    }
}

/// The code a wire number stands for; numbers outside the table are `Unknown`.
pub open spec fn status_of_number(n: i32) -> StatusCode {
    if n == 0 {
        StatusCode::OK
    } else if n == 1 {
        StatusCode::Cancelled
    } else if n == 2 {
        StatusCode::Unknown
    } else if n == 3 {
        StatusCode::InvalidArgument
    } else if n == 4 {
        StatusCode::DeadlineExceeded
    } else if n == 5 {
        StatusCode::NotFound
    } else if n == 6 {
        StatusCode::AlreadyExists
    } else if n == 7 {
        StatusCode::PermissionDenied
    } else if n == 8 {
        StatusCode::ResourceExhausted
    } else if n == 9 {
        StatusCode::FailedPrecondition
    } else if n == 10 {
        StatusCode::Aborted
    } else if n == 11 {
        StatusCode::OutOfRange
    } else if n == 12 {
        StatusCode::Unimplemented
    } else if n == 13 {
        StatusCode::Internal
    } else if n == 14 {
        StatusCode::Unavailable
    } else if n == 15 {
        StatusCode::DataLoss
    } else if n == 16 {
        StatusCode::Unauthenticated
    } else {
        StatusCode::Unknown
    }
}

/// Numbering is one-to-one: a code's number gives the code back, and every
/// number of the table is some code's number.
pub proof fn lemma_status_numbers_round_trip(c: StatusCode, n: i32)
    ensures
        status_of_number(status_number(c)) == c,
        0 <= n <= 16 ==> status_number(status_of_number(n)) == n,
        !(0 <= n <= 16) ==> status_of_number(n) == StatusCode::Unknown,
{
}

impl StatusCode {
    /// The code's number on the wire.
    pub fn Number(&self) -> (r: i32)
        ensures
            r == status_number(*self),
    {
        match self {
            StatusCode::OK => 0,
            StatusCode::Cancelled => 1,
            StatusCode::Unknown => 2,
            StatusCode::InvalidArgument => 3,
            StatusCode::DeadlineExceeded => 4,
            StatusCode::NotFound => 5,
            StatusCode::AlreadyExists => 6,
            StatusCode::PermissionDenied => 7,
            StatusCode::ResourceExhausted => 8,
            StatusCode::FailedPrecondition => 9,
            StatusCode::Aborted => 10,
            StatusCode::OutOfRange => 11,
            StatusCode::Unimplemented => 12,
            StatusCode::Internal => 13,
            StatusCode::Unavailable => 14,
            StatusCode::DataLoss => 15,
            StatusCode::Unauthenticated => 16,
        }
    }

    /// The code a wire number stands for (see [`status_of_number`]).
    pub fn FromNumber(n: i32) -> (r: StatusCode)
        ensures
            r == status_of_number(n),
    {
        if n == 0 { StatusCode::OK }
        else if n == 1 { StatusCode::Cancelled }
        else if n == 3 { StatusCode::InvalidArgument }
        else if n == 4 { StatusCode::DeadlineExceeded }
        else if n == 5 { StatusCode::NotFound }
        else if n == 6 { StatusCode::AlreadyExists }
        else if n == 7 { StatusCode::PermissionDenied }
        else if n == 8 { StatusCode::ResourceExhausted }
        else if n == 9 { StatusCode::FailedPrecondition }
        else if n == 10 { StatusCode::Aborted }
        else if n == 11 { StatusCode::OutOfRange }
        else if n == 12 { StatusCode::Unimplemented }
        else if n == 13 { StatusCode::Internal }
        else if n == 14 { StatusCode::Unavailable }
        else if n == 15 { StatusCode::DataLoss }
        else if n == 16 { StatusCode::Unauthenticated }
        else { StatusCode::Unknown }
    }
}

/// A gRPC status: a code and a message.
pub struct TonicStatus {
    pub Code: StatusCode,
    pub Message: String,
}

/// The human-readable message of an error.
pub open spec fn error_message(e: VineErrorV) -> Seq<char> {
    match e {
        VineErrorV::ClientNotConnected(s) => "SideCar '"@ + s
            + "' not found or its gRPC client channel is not ready."@,
        VineErrorV::ConnectionFailed { side_car, address, reason } => "Failed to connect to sidecar '"@
            + side_car + "' at '"@ + address + "': "@ + reason,
        VineErrorV::ConnectionLost(s) => "Connection to sidecar '"@ + s + "' was lost"@,
        VineErrorV::RPCError(s) => "gRPC call failed: "@ + s,
        VineErrorV::RequestTimeout { side_car, method, timeout_ms } => "Request to sidecar '"@ + side_car
            + "' (method: '"@ + method + "') timed out after "@ + decimal(timeout_ms as nat) + "ms"@,
        VineErrorV::RequestCanceled { side_car, method } => "Request to sidecar '"@ + side_car
            + "' (method: '"@ + method + "') was canceled"@,
        VineErrorV::SerializationError(s) => "JSON serialization error for gRPC payload: "@ + s,
        VineErrorV::MessageTooLarge { actual, max } => "Message size "@ + decimal(actual as nat)
            + " bytes exceeds maximum allowed size "@ + decimal(max as nat) + " bytes"@,
        VineErrorV::InvalidMessageFormat(s) => "Invalid message format: "@ + s,
        VineErrorV::TonicTransportError(s) => "Tonic transport error: "@ + s,
        VineErrorV::InternalLockError(s) => "Internal state lock poisoned: "@ + s,
        VineErrorV::InvalidState(s) => "Invalid internal state detected: "@ + s,
        VineErrorV::InvalidUri(s) => "Invalid URI: "@ + s,
        VineErrorV::AddressParseError(s) => "Invalid Socket Address: "@ + s,
    }
}

/// Errors worth retrying: timeouts and connection or transport failures.
pub open spec fn is_recoverable(e: VineErrorV) -> bool {
    ||| e is RequestTimeout
    ||| e is ConnectionFailed
    ||| e is ConnectionLost
    ||| e is TonicTransportError
}

/// The status code an error is answered with.
pub open spec fn status_code_of(e: VineErrorV) -> StatusCode {
    match e {
        VineErrorV::RequestTimeout { .. } => StatusCode::DeadlineExceeded,
        VineErrorV::ClientNotConnected(_) => StatusCode::Unavailable,
        VineErrorV::ConnectionFailed { .. } => StatusCode::Unavailable,
        VineErrorV::SerializationError(_) => StatusCode::Internal,
        VineErrorV::InternalLockError(_) => StatusCode::Internal,
        VineErrorV::InvalidState(_) => StatusCode::Internal,
        VineErrorV::MessageTooLarge { .. } => StatusCode::ResourceExhausted,
        VineErrorV::InvalidMessageFormat(_) => StatusCode::InvalidArgument,
        VineErrorV::InvalidUri(_) => StatusCode::InvalidArgument,
        VineErrorV::AddressParseError(_) => StatusCode::InvalidArgument,
        VineErrorV::RequestCanceled { .. } => StatusCode::Cancelled,
        VineErrorV::RPCError(_) => StatusCode::Unknown,
        VineErrorV::ConnectionLost(_) => StatusCode::Aborted,
        VineErrorV::TonicTransportError(_) => StatusCode::Unavailable,
    }
}

/// The status message an error is answered with: a call failure's own message,
/// the error's message otherwise.
pub open spec fn status_message_of(e: VineErrorV) -> Seq<char> {
    match e {
        VineErrorV::RPCError(s) => s,
        _ => error_message(e),
    }
}

/// The error a gRPC status is turned into, from its code, its message, and
/// its full rendering (used for codes without a dedicated variant).
pub open spec fn error_from_status(code: StatusCode, message: Seq<char>, rendered: Seq<char>) -> VineErrorV {
    match code {
        StatusCode::DeadlineExceeded => VineErrorV::RPCError("Timeout: "@ + message),
        StatusCode::NotFound => VineErrorV::ClientNotConnected(message),
        StatusCode::AlreadyExists => VineErrorV::InvalidMessageFormat(message),
        StatusCode::InvalidArgument => VineErrorV::InvalidMessageFormat(message),
        StatusCode::OutOfRange => VineErrorV::InvalidMessageFormat(message),
        StatusCode::FailedPrecondition => VineErrorV::ConnectionLost(message),
        StatusCode::Aborted => VineErrorV::ConnectionLost(message),
        StatusCode::ResourceExhausted => VineErrorV::MessageTooLarge { actual: 0, max: 4194304 },
        StatusCode::Cancelled => VineErrorV::RequestCanceled { side_car: "unknown"@, method: "unknown"@ },
        StatusCode::Unavailable => VineErrorV::ConnectionFailed {
            side_car: "unknown"@,
            address: "unknown"@,
            reason: message,
        },
        _ => VineErrorV::RPCError(rendered),
    }
}

/// Each error is answered with a fixed gRPC code: timeouts with
/// `DeadlineExceeded` (4); a missing client, a failed connection and a transport
/// failure with `Unavailable` (14); encoding, lock and internal-state failures
/// with `Internal` (13); an oversize message with `ResourceExhausted` (8); a bad
/// format, URI or socket address with `InvalidArgument` (3); a cancellation with
/// `Cancelled` (1); a lost connection with `Aborted` (10); a failed call with
/// `Unknown` (2), whose status carries the call's own message.
pub proof fn lemma_status_code_table()
    ensures
        forall|s: Seq<char>, m: Seq<char>, t: u64|
            status_code_of((VineErrorV::RequestTimeout { side_car: s, method: m, timeout_ms: t }))
                == StatusCode::DeadlineExceeded && status_number(StatusCode::DeadlineExceeded) == 4,
        forall|s: Seq<char>|
            status_code_of(VineErrorV::ClientNotConnected(s)) == StatusCode::Unavailable,
        forall|s: Seq<char>, a: Seq<char>, r: Seq<char>|
            status_code_of((VineErrorV::ConnectionFailed { side_car: s, address: a, reason: r }))
                == StatusCode::Unavailable,
        forall|s: Seq<char>|
            status_code_of(VineErrorV::TonicTransportError(s)) == StatusCode::Unavailable,
        status_number(StatusCode::Unavailable) == 14,
        forall|s: Seq<char>|
            status_code_of(VineErrorV::SerializationError(s)) == StatusCode::Internal,
        forall|s: Seq<char>|
            status_code_of(VineErrorV::InternalLockError(s)) == StatusCode::Internal,
        forall|s: Seq<char>|
            status_code_of(VineErrorV::InvalidState(s)) == StatusCode::Internal,
        status_number(StatusCode::Internal) == 13,
        forall|a: usize, m: usize|
            status_code_of((VineErrorV::MessageTooLarge { actual: a, max: m })) == StatusCode::ResourceExhausted,
        status_number(StatusCode::ResourceExhausted) == 8,
        forall|s: Seq<char>|
            status_code_of(VineErrorV::InvalidMessageFormat(s)) == StatusCode::InvalidArgument,
        forall|s: Seq<char>|
            status_code_of(VineErrorV::InvalidUri(s)) == StatusCode::InvalidArgument,
        forall|s: Seq<char>|
            status_code_of(VineErrorV::AddressParseError(s)) == StatusCode::InvalidArgument,
        status_number(StatusCode::InvalidArgument) == 3,
        forall|s: Seq<char>, m: Seq<char>|
            status_code_of((VineErrorV::RequestCanceled { side_car: s, method: m })) == StatusCode::Cancelled,
        status_number(StatusCode::Cancelled) == 1,
        forall|s: Seq<char>|
            status_code_of(VineErrorV::ConnectionLost(s)) == StatusCode::Aborted,
        status_number(StatusCode::Aborted) == 10,
        forall|s: Seq<char>|
            status_code_of(VineErrorV::RPCError(s)) == StatusCode::Unknown && status_message_of(
                VineErrorV::RPCError(s),
            ) == s,
        status_number(StatusCode::Unknown) == 2,
{
}

/// Timeouts and connection or transport failures are worth retrying; no
/// other error is.
pub proof fn lemma_recoverable_table(s: Seq<char>, a: Seq<char>, r: Seq<char>, t: u64, n: usize, x: usize)
    ensures
        is_recoverable((VineErrorV::RequestTimeout { side_car: s, method: a, timeout_ms: t })),
        is_recoverable((VineErrorV::ConnectionFailed { side_car: s, address: a, reason: r })),
        is_recoverable(VineErrorV::ConnectionLost(s)),
        is_recoverable(VineErrorV::TonicTransportError(s)),
        !is_recoverable(VineErrorV::ClientNotConnected(s)),
        !is_recoverable(VineErrorV::RPCError(s)),
        !is_recoverable((VineErrorV::RequestCanceled { side_car: s, method: a })),
        !is_recoverable(VineErrorV::SerializationError(s)),
        !is_recoverable((VineErrorV::MessageTooLarge { actual: n, max: x })),
        !is_recoverable(VineErrorV::InvalidMessageFormat(s)),
        !is_recoverable(VineErrorV::InternalLockError(s)),
        !is_recoverable(VineErrorV::InvalidState(s)),
        !is_recoverable(VineErrorV::InvalidUri(s)),
        !is_recoverable(VineErrorV::AddressParseError(s)),
{
}

/// Each received status code turns into a fixed kind of error: `NotFound`
/// into a missing client named by the message; `AlreadyExists`,
/// `InvalidArgument` and `OutOfRange` into a bad format; `FailedPrecondition`
/// and `Aborted` into a lost connection (both carrying the message);
/// `Unavailable` into a failed connection whose reason is the message;
/// `DeadlineExceeded` into a failed call marked as a timeout;
/// `ResourceExhausted` into an oversize message at the 4 MB limit;
/// `Cancelled` into a cancellation; every other code into a failed call
/// carrying the status's full rendering. Lost and failed connections are the
/// recoverable ones among them.
pub proof fn lemma_status_error_table(m: Seq<char>, r: Seq<char>)
    ensures
        error_from_status(StatusCode::NotFound, m, r) == VineErrorV::ClientNotConnected(m),
        error_from_status(StatusCode::AlreadyExists, m, r) == VineErrorV::InvalidMessageFormat(m),
        error_from_status(StatusCode::InvalidArgument, m, r) == VineErrorV::InvalidMessageFormat(m),
        error_from_status(StatusCode::OutOfRange, m, r) == VineErrorV::InvalidMessageFormat(m),
        error_from_status(StatusCode::FailedPrecondition, m, r) == VineErrorV::ConnectionLost(m),
        error_from_status(StatusCode::Aborted, m, r) == VineErrorV::ConnectionLost(m),
        error_from_status(StatusCode::Unavailable, m, r) == (VineErrorV::ConnectionFailed {
            side_car: "unknown"@,
            address: "unknown"@,
            reason: m,
        }),
        error_from_status(StatusCode::DeadlineExceeded, m, r) == VineErrorV::RPCError("Timeout: "@ + m),
        error_from_status(StatusCode::ResourceExhausted, m, r) == (VineErrorV::MessageTooLarge {
            actual: 0,
            max: 4194304,
        }),
        error_from_status(StatusCode::Cancelled, m, r) == (VineErrorV::RequestCanceled {
            side_car: "unknown"@,
            method: "unknown"@,
        }),
        error_from_status(StatusCode::OK, m, r) == VineErrorV::RPCError(r),
        error_from_status(StatusCode::Unknown, m, r) == VineErrorV::RPCError(r),
        error_from_status(StatusCode::PermissionDenied, m, r) == VineErrorV::RPCError(r),
        error_from_status(StatusCode::Unimplemented, m, r) == VineErrorV::RPCError(r),
        error_from_status(StatusCode::Internal, m, r) == VineErrorV::RPCError(r),
        error_from_status(StatusCode::DataLoss, m, r) == VineErrorV::RPCError(r),
        error_from_status(StatusCode::Unauthenticated, m, r) == VineErrorV::RPCError(r),
        is_recoverable(error_from_status(StatusCode::Aborted, m, r)),
        is_recoverable(error_from_status(StatusCode::FailedPrecondition, m, r)),
        is_recoverable(error_from_status(StatusCode::Unavailable, m, r)),
        !is_recoverable(error_from_status(StatusCode::Internal, m, r)),
{
}

impl VineError {
    /// Whether the caller can sensibly retry the operation.
    pub fn IsRecoverable(&self) -> (r: bool)
        ensures
            r == is_recoverable(self@),
    {
        match self {
            VineError::RequestTimeout { .. } => true,
            VineError::ConnectionFailed { .. } => true,
            VineError::ConnectionLost(_) => true,
            VineError::TonicTransportError(_) => true,
            _ => false,
        }
    }

    /// The error's human-readable message.
    pub fn Message(&self) -> (r: String)
        ensures
            r@ == error_message(self@),
    {
        match self {
            VineError::ClientNotConnected(s) => {
                let mut m = Concat("SideCar '", s.as_str());
                m.append("' not found or its gRPC client channel is not ready.");
                m
            },
            VineError::ConnectionFailed { SideCarIdentifier, Address, Reason } => {
                let mut m = Concat("Failed to connect to sidecar '", SideCarIdentifier.as_str());
                m.append("' at '");
                m.append(Address.as_str());
                m.append("': ");
                m.append(Reason.as_str());
                m
            },
            VineError::ConnectionLost(s) => {
                let mut m = Concat("Connection to sidecar '", s.as_str());
                m.append("' was lost");
                m
            },
            VineError::RPCError(s) => Concat("gRPC call failed: ", s.as_str()),
            VineError::RequestTimeout { SideCarIdentifier, MethodName, TimeoutMilliseconds } => {
                let mut m = Concat("Request to sidecar '", SideCarIdentifier.as_str());
                m.append("' (method: '");
                m.append(MethodName.as_str());
                m.append("') timed out after ");
                m.append(DecimalU64(*TimeoutMilliseconds).as_str());
                m.append("ms");
                m
            },
            VineError::RequestCanceled { SideCarIdentifier, MethodName } => {
                let mut m = Concat("Request to sidecar '", SideCarIdentifier.as_str());
                m.append("' (method: '");
                m.append(MethodName.as_str());
                m.append("') was canceled");
                m
            },
            VineError::SerializationError(s) => Concat(
                "JSON serialization error for gRPC payload: ",
                s.as_str(),
            ),
            VineError::MessageTooLarge { ActualSize, MaxSize } => {
                let mut m = Concat("Message size ", DecimalU64(*ActualSize as u64).as_str());
                m.append(" bytes exceeds maximum allowed size ");
                m.append(DecimalU64(*MaxSize as u64).as_str());
                m.append(" bytes");
                m
            },
            VineError::InvalidMessageFormat(s) => Concat("Invalid message format: ", s.as_str()),
            VineError::TonicTransportError(s) => Concat("Tonic transport error: ", s.as_str()),
            VineError::InternalLockError(s) => Concat("Internal state lock poisoned: ", s.as_str()),
            VineError::InvalidState(s) => Concat("Invalid internal state detected: ", s.as_str()),
            VineError::InvalidUri(s) => Concat("Invalid URI: ", s.as_str()),
            VineError::AddressParseError(s) => Concat("Invalid Socket Address: ", s.as_str()),
        }
    }

    /// The gRPC status a handler answers this error with.
    pub fn ToTonicStatus(&self) -> (r: TonicStatus)
        ensures
            r.Code == status_code_of(self@),
            r.Message@ == status_message_of(self@),
    {
        let Code = match self {
            VineError::RequestTimeout { .. } => StatusCode::DeadlineExceeded,
            VineError::ClientNotConnected(_) => StatusCode::Unavailable,
            VineError::ConnectionFailed { .. } => StatusCode::Unavailable,
            VineError::SerializationError(_) => StatusCode::Internal,
            VineError::InternalLockError(_) => StatusCode::Internal,
            VineError::InvalidState(_) => StatusCode::Internal,
            VineError::MessageTooLarge { .. } => StatusCode::ResourceExhausted,
            VineError::InvalidMessageFormat(_) => StatusCode::InvalidArgument,
            VineError::InvalidUri(_) => StatusCode::InvalidArgument,
            VineError::AddressParseError(_) => StatusCode::InvalidArgument,
            VineError::RequestCanceled { .. } => StatusCode::Cancelled,
            VineError::RPCError(_) => StatusCode::Unknown,
            VineError::ConnectionLost(_) => StatusCode::Aborted,
            VineError::TonicTransportError(_) => StatusCode::Unavailable,
        };
        let Message = match self {
            VineError::RPCError(s) => s.clone(),
            _ => self.Message(),
        };
        TonicStatus { Code, Message }
    }

    /// The error a gRPC status is turned into (see [`error_from_status`]).
    pub fn FromStatus(Code: StatusCode, Message: &str, Rendered: &str) -> (r: VineError)
        ensures
            r@ == error_from_status(Code, Message@, Rendered@),
    {
        match Code {
            StatusCode::DeadlineExceeded => VineError::RPCError(Concat("Timeout: ", Message)),
            StatusCode::NotFound => VineError::ClientNotConnected(String::from_str(Message)),
            StatusCode::AlreadyExists => VineError::InvalidMessageFormat(String::from_str(Message)),
            StatusCode::InvalidArgument => VineError::InvalidMessageFormat(String::from_str(Message)),
            StatusCode::OutOfRange => VineError::InvalidMessageFormat(String::from_str(Message)),
            StatusCode::FailedPrecondition => VineError::ConnectionLost(String::from_str(Message)),
            StatusCode::Aborted => VineError::ConnectionLost(String::from_str(Message)),
            StatusCode::ResourceExhausted => VineError::MessageTooLarge { ActualSize: 0, MaxSize: 4194304 },
            StatusCode::Cancelled => VineError::RequestCanceled {
                SideCarIdentifier: String::from_str("unknown"),
                MethodName: String::from_str("unknown"),
            },
            StatusCode::Unavailable => VineError::ConnectionFailed {
                SideCarIdentifier: String::from_str("unknown"),
                Address: String::from_str("unknown"),
                Reason: String::from_str(Message),
            },
            _ => VineError::RPCError(String::from_str(Rendered)),
        }
    }

    /// The error a received gRPC status is turned into: [`error_from_status`]
    /// of its code, its message and its rendering.
    pub fn FromTonicStatus(Status: &tonic::Status) -> (r: VineError)
        ensures
            r@ == error_from_status(
                status_of_number(grpc_status_code(*Status)),
                grpc_status_message(*Status),
                grpc_status_rendered(*Status),
            ),
    {
        let Code = StatusCode::FromNumber(StatusCodeNumber(Status));
        let Message = StatusMessageText(Status);
        let Rendered = StatusRendered(Status);
        VineError::FromStatus(Code, Message.as_str(), Rendered.as_str())
    }

    /// The error for a poisoned shared-state lock, from the lock error's message.
    pub fn FromPoisonedLock(Rendered: &str) -> (r: VineError)
        ensures
            r@ == VineErrorV::InternalLockError("Shared state lock poisoned: "@ + Rendered@),
    {
        VineError::InternalLockError(Concat("Shared state lock poisoned: ", Rendered))
    }
}

impl TonicStatus {
    /// The `tonic::Status` with this code and message.
    pub fn IntoStatus(self) -> (r: tonic::Status)
        ensures
            grpc_status_code(r) == status_number(self.Code),
            grpc_status_message(r) == self.Message@,
    {
        let Number = self.Code.Number();
        MakeStatus(Number, self.Message)
    }
}

/// Convenience result alias for Vine operations.
pub type Result<T> = std::result::Result<T, VineError>;

} // verus!
