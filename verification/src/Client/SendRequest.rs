//! Sending a request to a side-car and awaiting its response.
//!
//! The flow of one request, whose waiting the embedder performs:
//! 1. [`CheckRequest`] admits it: refused while shutting down, for a method
//!    name outside 1..=128 bytes, or when already cancelled; otherwise it
//!    yields the timeout to apply (5 000 ms when 0 is asked, at most
//!    [`crate::DefaultRequestTimeoutMs`]).
//! 2. When a streaming multiplexer serves the side-car, it is tried first;
//!    [`AfterStreamingAttempt`] decides whether its outcome is final (an
//!    answer, or a timeout) or the unary path follows.
//! 3. [`PrepareUnary`] encodes the wire request: the parameter must encode
//!    and fit the size limit, a client must be pooled, and it takes the next
//!    request id.
//! 4. [`FinishUnary`] turns the call's outcome into the result, updates the
//!    side-car's health, and names the request to cancel at the peer after a
//!    timeout or a caller's cancellation.

use vstd::prelude::*;
use vstd::string::*;

use crate::Client::Shared::{
    ClientState, ClientStateV, DEFAULT_TIMEOUT_MS, MAX_MESSAGE_SIZE_BYTES, RecordSideCarFailure,
    UpdateSideCarActivity, ValidateMessageSize, activity_updated, record_failure,
};
use crate::Error::{VineError, VineErrorV};
use crate::Generated::{GenericRequest, RpcError};
use crate::Json::{Json, JsonV};
use crate::Strings::{Concat, DecimalI64, signed_decimal};
use crate::DefaultRequestTimeoutMs;

verus! {

/// The timeout applied to a request: the default for 0, the requested value
/// otherwise, never above the hard bound.
pub open spec fn effective_timeout(t: u64) -> u64 {
    if t == 0 {
        DEFAULT_TIMEOUT_MS
    } else if t > DefaultRequestTimeoutMs {
        DefaultRequestTimeoutMs
    } else {
        t
    }
}

/// Whether a request is admitted, and with which timeout.
pub open spec fn check_request(
    shutdown: bool,
    side_car: Seq<char>,
    method: &str,
    cancelled: bool,
    timeout: u64,
) -> Result<u64, VineErrorV> {
    if shutdown {
        Err(VineErrorV::ClientNotConnected(side_car))
    } else if method.len() == 0 || method.len() > 128 {
        Err(VineErrorV::RPCError("Method name must be between 1 and 128 characters"@))
    } else if cancelled {
        Err(VineErrorV::RequestCanceled { side_car, method: method@ })
    } else {
        Ok(effective_timeout(timeout))
    }
}

/// Every admitted request waits at least 1 ms and at most the hard bound.
pub proof fn lemma_timeout_is_bounded(t: u64)
    ensures
        1 <= effective_timeout(t) <= DefaultRequestTimeoutMs,
        0 < t <= DefaultRequestTimeoutMs ==> effective_timeout(t) == t,
{
}

/// Once the client is shutting down, every request is refused as not
/// connected, whatever its method, cancellation or timeout.
pub proof fn lemma_shutdown_refuses_every_request(side_car: Seq<char>, method: &str, cancelled: bool, timeout: u64)
    ensures
        check_request(true, side_car, method, cancelled, timeout) == Err::<u64, VineErrorV>(
            VineErrorV::ClientNotConnected(side_car),
        ),
{
}

/// The value of an admission result.
pub open spec fn timeout_result_view(r: Result<u64, VineError>) -> Result<u64, VineErrorV> {
    match r {
        Ok(t) => Ok(t),
        Err(e) => Err(e@),
    }
}

/// The value of a result of the library.
pub open spec fn result_view(r: Result<Json, VineError>) -> Result<JsonV, VineErrorV> {
    match r {
        Ok(v) => Ok(v@),
        Err(e) => Err(e@),
    }
}

/// Admits a request (see [`check_request`]).
pub fn CheckRequest<C>(
    State: &ClientState<C>,
    SideCarIdentifier: &str,
    Method: &str,
    Cancelled: bool,
    TimeoutMilliseconds: u64,
) -> (r: Result<u64, VineError>)
    ensures
        timeout_result_view(r) == check_request(
            State@.shutdown,
            SideCarIdentifier@,
            Method,
            Cancelled,
            TimeoutMilliseconds,
        ),
{
    if crate::Client::IsShuttingDown::Fn(State) {
        return Err(VineError::ClientNotConnected(String::from_str(SideCarIdentifier)));
    }
    if Method.len() == 0 || Method.len() > 128 {
        return Err(VineError::RPCError(String::from_str("Method name must be between 1 and 128 characters")));
    }
    if Cancelled {
        return Err(
            VineError::RequestCanceled {
                SideCarIdentifier: String::from_str(SideCarIdentifier),
                MethodName: String::from_str(Method),
            },
        );
    }
    if TimeoutMilliseconds == 0 {
        Ok(DEFAULT_TIMEOUT_MS)
    } else if TimeoutMilliseconds > DefaultRequestTimeoutMs {
        Ok(DefaultRequestTimeoutMs)
    } else {
        Ok(TimeoutMilliseconds)
    }
}

/// What the streaming attempt means for the request: its answer (the side-car
/// was active), the request's own timeout error when the stream timed out, or
/// nothing when any other failure sends the request down the unary path.
pub fn AfterStreamingAttempt<C>(
    State: &mut ClientState<C>,
    SideCarIdentifier: &str,
    Method: &str,
    TimeoutMilliseconds: u64,
    Outcome: Result<Json, VineError>,
) -> (r: Option<Result<Json, VineError>>)
    ensures
        match Outcome {
            Ok(v) => r matches Some(Ok(w)) && w@ == v@ && activity_updated(
                old(State)@,
                final(State)@,
                SideCarIdentifier@,
            ),
            Err(e) => final(State)@ == old(State)@ && if e is RequestTimeout {
                r matches Some(Err(f)) && f@ == (VineErrorV::RequestTimeout {
                    side_car: SideCarIdentifier@,
                    method: Method@,
                    timeout_ms: TimeoutMilliseconds,
                })
            } else {
                r is None
            },
        },
{
    match Outcome {
        Ok(v) => {
            UpdateSideCarActivity(State, SideCarIdentifier);
            Some(Ok(v))
        },
        Err(VineError::RequestTimeout { .. }) => Some(
            Err(
                VineError::RequestTimeout {
                    SideCarIdentifier: String::from_str(SideCarIdentifier),
                    MethodName: String::from_str(Method),
                    TimeoutMilliseconds,
                },
            ),
        ),
        Err(_) => None,
    }
}

/// Builds the wire request, from the encoder's outcome for the parameter:
/// an encoding failure, an oversize payload, or a side-car without a pooled
/// client refuses it; otherwise it takes the next request id, the only
/// change to the pool.
pub fn PrepareUnary<C>(
    State: &mut ClientState<C>,
    SideCarIdentifier: &str,
    Method: String,
    Parameters: Result<Vec<u8>, String>,
) -> (r: Result<GenericRequest, VineError>)
    ensures
        match Parameters {
            Err(m) => final(State)@ == old(State)@ && (r matches Err(e) && e@ == VineErrorV::RPCError(
                "Failed to serialize parameters: "@ + m@,
            )),
            Ok(bytes) => if bytes@.len() > MAX_MESSAGE_SIZE_BYTES {
                final(State)@ == old(State)@ && (r matches Err(e) && e@ == (VineErrorV::MessageTooLarge {
                    actual: bytes@.len() as usize,
                    max: MAX_MESSAGE_SIZE_BYTES,
                }))
            } else if !old(State)@.clients.contains_key(SideCarIdentifier@) {
                final(State)@ == old(State)@ && (r matches Err(e) && e@ == VineErrorV::ClientNotConnected(
                    SideCarIdentifier@,
                ))
            } else {
                &&& r matches Ok(req)
                &&& req.request_identifier == old(State)@.next_request_identifier
                &&& req.method == Method
                &&& req.parameter@ == bytes@
                &&& final(State)@ == (ClientStateV {
                    next_request_identifier: old(State)@.next_request_identifier.wrapping_add(1),
                    ..old(State)@
                })
            },
        },
{
    let ParameterBytes = match Parameters {
        Ok(b) => b,
        Err(m) => {
            return Err(VineError::RPCError(Concat("Failed to serialize parameters: ", m.as_str())));
        },
    };
    match ValidateMessageSize(ParameterBytes.as_slice()) {
        Ok(()) => {},
        Err(e) => {
            return Err(e);
        },
    }
    if !State.IsClientConnected(SideCarIdentifier) {
        return Err(VineError::ClientNotConnected(String::from_str(SideCarIdentifier)));
    }
    let Identifier = State.NextRequestIdentifier();
    Ok(GenericRequest { request_identifier: Identifier, method: Method, parameter: ParameterBytes })
}

/// How a unary call ended.
pub enum UnaryOutcome {
    /// The side-car answered: the decoding of its result bytes (or the
    /// decoder's message), and its error, if any.
    Responded { Result: Result<Json, String>, Error: Option<RpcError> },
    /// The call failed with a gRPC status (its rendering).
    Failed(String),
    /// No answer within the timeout.
    TimedOut,
    /// The caller cancelled while waiting.
    Cancelled,
}

/// The result of a finished unary call, and the request to cancel at the peer.
pub struct UnaryCompletion {
    pub Result: Result<Json, VineError>,
    pub CancelRequestIdentifier: Option<u64>,
}

/// The result a unary outcome gives.
pub open spec fn unary_result(
    side_car: Seq<char>,
    method: Seq<char>,
    timeout: u64,
    outcome: UnaryOutcome,
) -> Result<JsonV, VineErrorV> {
    match outcome {
        UnaryOutcome::Responded { Result, Error } => match Result {
            Err(m) => Err(VineErrorV::RPCError("Failed to deserialize response: "@ + m@)),
            Ok(v) => match Error {
                Some(e) => Err(
                    VineErrorV::RPCError(
                        "RPC error from sidecar: code="@ + signed_decimal(e.code as int) + ", message="@
                            + e.message@,
                    ),
                ),
                None => Ok(v@),
            },
        },
        UnaryOutcome::Failed(s) => Err(VineErrorV::RPCError("gRPC error: "@ + s@)),
        UnaryOutcome::TimedOut => Err(VineErrorV::RequestTimeout { side_car, method, timeout_ms: timeout }),
        UnaryOutcome::Cancelled => Err(VineErrorV::RequestCanceled { side_car, method }),
    }
}

/// Finishes a unary call: an answer marks the side-car active, a failure or a
/// timeout counts as one of its failures, a cancellation leaves its health
/// alone; a timeout or a cancellation also names the request to cancel at
/// the peer.
pub fn FinishUnary<C>(
    State: &mut ClientState<C>,
    SideCarIdentifier: &str,
    Method: &str,
    RequestIdentifier: u64,
    TimeoutMilliseconds: u64,
    Outcome: UnaryOutcome,
) -> (r: UnaryCompletion)
    ensures
        result_view(r.Result) == unary_result(SideCarIdentifier@, Method@, TimeoutMilliseconds, Outcome),
        match Outcome {
            UnaryOutcome::Responded { .. } => activity_updated(old(State)@, final(State)@, SideCarIdentifier@)
                && r.CancelRequestIdentifier is None,
            UnaryOutcome::Failed(_) => final(State)@ == record_failure(old(State)@, SideCarIdentifier@)
                && r.CancelRequestIdentifier is None,
            UnaryOutcome::TimedOut => final(State)@ == record_failure(old(State)@, SideCarIdentifier@)
                && r.CancelRequestIdentifier == Some(RequestIdentifier),
            UnaryOutcome::Cancelled => final(State)@ == old(State)@ && r.CancelRequestIdentifier == Some(
                RequestIdentifier,
            ),
        },
{
    match Outcome {
        UnaryOutcome::Responded { Result, Error } => {
            UpdateSideCarActivity(State, SideCarIdentifier);
            let Value = match Result {
                Ok(v) => v,
                Err(m) => {
                    return UnaryCompletion {
                        Result: Err(VineError::RPCError(Concat("Failed to deserialize response: ", m.as_str()))),
                        CancelRequestIdentifier: None,
                    };
                },
            };
            match Error {
                Some(e) => {
                    let mut m = Concat("RPC error from sidecar: code=", DecimalI64(e.code as i64).as_str());
                    m.append(", message=");
                    m.append(e.message.as_str());
                    UnaryCompletion { Result: Err(VineError::RPCError(m)), CancelRequestIdentifier: None }
                },
                None => UnaryCompletion { Result: Ok(Value), CancelRequestIdentifier: None },
            }
        },
        UnaryOutcome::Failed(s) => {
            RecordSideCarFailure(State, SideCarIdentifier);
            UnaryCompletion {
                Result: Err(VineError::RPCError(Concat("gRPC error: ", s.as_str()))),
                CancelRequestIdentifier: None,
            }
        },
        UnaryOutcome::TimedOut => {
            RecordSideCarFailure(State, SideCarIdentifier);
            UnaryCompletion {
                Result: Err(
                    VineError::RequestTimeout {
                        SideCarIdentifier: String::from_str(SideCarIdentifier),
                        MethodName: String::from_str(Method),
                        TimeoutMilliseconds,
                    },
                ),
                CancelRequestIdentifier: Some(RequestIdentifier),
            }
        },
        UnaryOutcome::Cancelled => UnaryCompletion {
            Result: Err(
                VineError::RequestCanceled {
                    SideCarIdentifier: String::from_str(SideCarIdentifier),
                    MethodName: String::from_str(Method),
                },
            ),
            CancelRequestIdentifier: Some(RequestIdentifier),
        },
    }
}

} // verus!
