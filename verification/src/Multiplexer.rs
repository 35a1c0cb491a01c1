//! The bidirectional streaming multiplexer: one stream per side-car.
//!
//! Outbound, notifications and requests become envelopes on the stream;
//! every request is parked under a fresh correlation id until its response
//! arrives, it times out, or the stream closes. Inbound, notifications fan out
//! to subscribers, responses wake the parked request with the same id,
//! reverse requests go to the installed handler (and are dropped without
//! one), and cancellations are accepted and ignored. When the stream ends,
//! every parked request is answered with a "stream closed" error.
//!
//! The embedder owns the stream itself and the waiting; this module decides
//! what every event means for the multiplexer's state.

use tokio::sync::{mpsc, oneshot};
use vstd::hash_map::StringHashMap;
use vstd::prelude::*;
use vstd::string::*;

use crate::Error::{VineError, VineErrorV};
use crate::Generated::envelope::Payload;
use crate::Generated::{
    CancelOperationRequest, Envelope, GenericNotification, GenericRequest, GenericResponse, RpcError,
};
use crate::Json::{Json, JsonV};
use crate::Runtime::{
    NewPendingTable, PendingInsert, PendingKeys, PendingRemove, PendingTable, pending_senders,
};
use crate::Strings::{Concat, DecimalI64, signed_decimal};

verus! {

/// Capacity of the outbound queue of one multiplexer.
pub const SINK_CAPACITY: usize = 1024;

/// The JSON-RPC error code a parked request receives when its stream closes.
pub const STREAM_CLOSED_CODE: i32 = -32099;

/// The multiplexers of the open streams, one per side-car identifier.
pub type SideCarRegistry<M> = StringHashMap<M>;

/// One multiplexer per side-car stream.
pub struct Multiplexer {
    SideCarIdentifier: String,
    Sink: mpsc::Sender<Envelope>,
    Pending: PendingTable,
    NextRequestIdentifier: u64,
    Closed: bool,
}

/// The mathematical value of a [`Multiplexer`]: its side-car, its outbound
/// queue, the ids of the parked requests, the next id, and whether the stream
/// has closed.
pub struct MultiplexerV {
    pub side_car: Seq<char>,
    pub sink: mpsc::Sender<Envelope>,
    pub pending: Map<u64, oneshot::Sender<GenericResponse>>,
    pub next_request_identifier: u64,
    pub closed: bool,
}

impl View for Multiplexer {
    type V = MultiplexerV;

    closed spec fn view(&self) -> MultiplexerV {
        MultiplexerV {
            side_car: self.SideCarIdentifier@,
            sink: self.Sink,
            pending: pending_senders(self.Pending),
            next_request_identifier: self.NextRequestIdentifier,
            closed: self.Closed,
        }
    }
}

impl MultiplexerV {
    /// Every parked id was handed out before: it lies in `1 .. next`.
    pub open spec fn ids_below_next(self) -> bool {
        &&& self.next_request_identifier >= 1
        &&& forall|k: u64| self.pending.contains_key(k) ==> 1 <= k < self.next_request_identifier
    }
}

/// The multiplexer after parking a request whose response goes to `reply`:
/// it is parked under the next id, which moves on by one (wrapping).
pub open spec fn park(v: MultiplexerV, reply: oneshot::Sender<GenericResponse>) -> MultiplexerV {
    MultiplexerV {
        pending: v.pending.insert(v.next_request_identifier, reply),
        next_request_identifier: v.next_request_identifier.wrapping_add(1),
        ..v
    }
}

/// The multiplexer after the request `id` leaves the parked set (answered,
/// timed out, or abandoned).
pub open spec fn unpark(v: MultiplexerV, id: u64) -> MultiplexerV {
    MultiplexerV { pending: v.pending.remove(id), ..v }
}

/// What an inbound frame asks of the embedder.
pub enum Inbound {
    /// Nothing: an empty frame, a cancellation, or a response nobody awaits.
    Ignore,
    /// Fan the notification out to subscribers.
    Publish { Method: String, Parameter: Vec<u8> },
    /// Hand the response to the parked request.
    Deliver { Reply: oneshot::Sender<GenericResponse>, Response: GenericResponse },
    /// Run the reverse request through the installed handler.
    Dispatch(GenericRequest),
    /// No handler is installed: drop the reverse request.
    DropRequest { Method: String, RequestIdentifier: u64 },
}

/// The result a response gives the request that awaited it: its error, null
/// for an empty result, else the decoding of the result bytes.
pub open spec fn response_result(response: GenericResponse, decoded: Result<Json, String>) -> Result<
    JsonV,
    VineErrorV,
> {
    match response.error {
        Some(e) => Err(
            VineErrorV::RPCError("code="@ + signed_decimal(e.code as int) + " message="@ + e.message@),
        ),
        None => if response.result@.len() == 0 {
            Ok(JsonV::Null)
        } else {
            match decoded {
                Ok(v) => Ok(v@),
                Err(m) => Err(VineErrorV::SerializationError(m@)),
            }
        },
    }
}

/// A request parked on a well-formed open stream gets an id no other parked
/// request holds; its reply sender is what that id then holds, and the
/// response that carries the id unparks it and leaves every other parked
/// request in place.
pub proof fn lemma_response_unparks_its_request(v: MultiplexerV, reply: oneshot::Sender<GenericResponse>)
    requires
        v.ids_below_next(),
        v.next_request_identifier < u64::MAX,
    ensures
        !v.pending.contains_key(v.next_request_identifier),
        park(v, reply).ids_below_next(),
        park(v, reply).pending[v.next_request_identifier] == reply,
        unpark(park(v, reply), v.next_request_identifier).pending == v.pending,
        park(v, reply).next_request_identifier != v.next_request_identifier,
{
    assert(unpark(park(v, reply), v.next_request_identifier).pending =~= v.pending);
}

/// Two requests parked one after the other get different ids.
pub proof fn lemma_consecutive_requests_get_distinct_ids(v: MultiplexerV, reply: oneshot::Sender<GenericResponse>)
    ensures
        park(v, reply).next_request_identifier != v.next_request_identifier,
        park(v, reply).pending.contains_key(v.next_request_identifier),
{
}

impl Multiplexer {
    /// A multiplexer for a freshly opened stream: nothing parked, first id 1, open.
    pub fn New(SideCarIdentifier: String, Sink: mpsc::Sender<Envelope>) -> (r: Multiplexer)
        ensures
            r@.side_car == SideCarIdentifier@,
            r@.sink == Sink,
            r@.pending == Map::<u64, oneshot::Sender<GenericResponse>>::empty(),
            r@.next_request_identifier == 1,
            !r@.closed,
            r@.ids_below_next(),
    {
        Multiplexer {
            SideCarIdentifier,
            Sink,
            Pending: NewPendingTable(),
            NextRequestIdentifier: 1,
            Closed: false,
        }
    }

    /// The outbound queue of the stream (the one it was made with).
    pub fn Sink(&self) -> (r: &mpsc::Sender<Envelope>)
        ensures
            *r == self@.sink,
    {
        &self.Sink
    }

    /// Whether the stream has closed; no further I/O is attempted on it.
    pub fn IsClosed(&self) -> (r: bool)
        ensures
            r == self@.closed,
    {
        self.Closed
    }

    /// The side-car this stream is paired with.
    pub fn SideCarIdentifierBorrow(&self) -> (r: &str)
        ensures
            r@ == self@.side_car,
    {
        self.SideCarIdentifier.as_str()
    }

    /// The frame for a fire-and-forget notification; a closed stream refuses it.
    pub fn Notify(&self, Method: String, Parameter: Vec<u8>) -> (r: Result<Envelope, VineError>)
        ensures
            self@.closed ==> (r matches Err(e) && e@ == VineErrorV::ClientNotConnected(self@.side_car)),
            !self@.closed ==> (r matches Ok(f) && f.channel_id == 0 && f.payload == Some(
                Payload::Notification(GenericNotification { method: Method, parameter: Parameter }),
            )),
    {
        if self.Closed {
            return Err(VineError::ClientNotConnected(self.SideCarIdentifier.clone()));
        }
        Ok(
            Envelope {
                payload: Some(Payload::Notification(GenericNotification { method: Method, parameter: Parameter })),
                channel_id: 0,
            },
        )
    }

    /// Parks a request under the next id and gives its frame; a closed stream
    /// refuses it and parks nothing.
    pub fn BeginRequest(
        &mut self,
        Method: String,
        Parameter: Vec<u8>,
        Reply: oneshot::Sender<GenericResponse>,
    ) -> (r: Result<(u64, Envelope), VineError>)
        ensures
            old(self)@.closed ==> final(self)@ == old(self)@ && (r matches Err(e) && e@
                == VineErrorV::ClientNotConnected(old(self)@.side_car)),
            !old(self)@.closed ==> {
                let id = old(self)@.next_request_identifier;
                &&& r matches Ok((i, f))
                &&& i == id
                &&& f.channel_id == 0
                &&& f.payload == Some(
                    Payload::Request(GenericRequest { request_identifier: id, method: Method, parameter: Parameter }),
                )
                &&& final(self)@ == park(old(self)@, Reply)
            },
            old(self)@.ids_below_next() && old(self)@.next_request_identifier < u64::MAX ==> {
                &&& final(self)@.ids_below_next()
                &&& !old(self)@.closed ==> !old(self)@.pending.contains_key(old(self)@.next_request_identifier)
            },
    {
        if self.Closed {
            return Err(VineError::ClientNotConnected(self.SideCarIdentifier.clone()));
        }
        let Identifier = self.NextRequestIdentifier;
        self.NextRequestIdentifier = self.NextRequestIdentifier.wrapping_add(1);
        PendingInsert(&mut self.Pending, Identifier, Reply);
        Ok(
            (
                Identifier,
                Envelope {
                    payload: Some(
                        Payload::Request(
                            GenericRequest { request_identifier: Identifier, method: Method, parameter: Parameter },
                        ),
                    ),
                    channel_id: 0,
                },
            ),
        )
    }

    /// The error of a frame the outbound sink refused.
    pub fn ClosedSinkError(&self) -> (r: VineError)
        ensures
            r@ == VineErrorV::RPCError("Sink closed for sidecar "@ + self@.side_car),
    {
        VineError::RPCError(Concat("Sink closed for sidecar ", self.SideCarIdentifier.as_str()))
    }

    /// The outbound queue refused the request's frame: it is unparked.
    pub fn SinkClosed(&mut self, RequestIdentifier: u64) -> (r: VineError)
        ensures
            r@ == VineErrorV::RPCError("Sink closed for sidecar "@ + old(self)@.side_car),
            final(self)@ == unpark(old(self)@, RequestIdentifier),
            old(self)@.ids_below_next() ==> final(self)@.ids_below_next(),
    {
        let _ = PendingRemove(&mut self.Pending, RequestIdentifier);
        VineError::RPCError(Concat("Sink closed for sidecar ", self.SideCarIdentifier.as_str()))
    }

    /// The result a response gives its request (see [`response_result`]),
    /// from the decoding of its result bytes.
    pub fn ResponseResult(Response: GenericResponse, Decoded: Result<Json, String>) -> (r: Result<Json, VineError>)
        ensures
            match r {
                Ok(v) => response_result(Response, Decoded) == Ok::<JsonV, VineErrorV>(v@),
                Err(e) => response_result(Response, Decoded) == Err::<JsonV, VineErrorV>(e@),
            },
    {
        match Response.error {
            Some(e) => {
                let mut m = Concat("code=", DecimalI64(e.code as i64).as_str());
                m.append(" message=");
                m.append(e.message.as_str());
                Err(VineError::RPCError(m))
            },
            None => {
                if Response.result.len() == 0 {
                    Ok(Json::Null)
                } else {
                    match Decoded {
                        Ok(v) => Ok(v),
                        Err(m) => Err(VineError::SerializationError(m)),
                    }
                }
            },
        }
    }

    /// The parked request's sender was dropped before a response came (the
    /// peer disconnected mid-request): it is unparked.
    pub fn ResponseDropped(&mut self, RequestIdentifier: u64) -> (r: VineError)
        ensures
            r@ == VineErrorV::RPCError("response sender closed (peer disconnect mid-request)"@),
            final(self)@ == unpark(old(self)@, RequestIdentifier),
            old(self)@.ids_below_next() ==> final(self)@.ids_below_next(),
    {
        let _ = PendingRemove(&mut self.Pending, RequestIdentifier);
        VineError::RPCError(String::from_str("response sender closed (peer disconnect mid-request)"))
    }

    /// No response within the timeout: the request is unparked.
    pub fn RequestTimedOut(&mut self, RequestIdentifier: u64, Method: String, TimeoutMilliseconds: u64) -> (r:
        VineError)
        ensures
            r@ == (VineErrorV::RequestTimeout {
                side_car: old(self)@.side_car,
                method: Method@,
                timeout_ms: TimeoutMilliseconds,
            }),
            final(self)@ == unpark(old(self)@, RequestIdentifier),
            old(self)@.ids_below_next() ==> final(self)@.ids_below_next(),
    {
        let _ = PendingRemove(&mut self.Pending, RequestIdentifier);
        VineError::RequestTimeout {
            SideCarIdentifier: self.SideCarIdentifier.clone(),
            MethodName: Method,
            TimeoutMilliseconds,
        }
    }

    /// The frame asking the peer to abort request `RequestIdentifier`; none on
    /// a closed stream (the cancellation then succeeds without sending).
    pub fn Cancel(&self, RequestIdentifier: u64) -> (r: Option<Envelope>)
        ensures
            self@.closed ==> r is None,
            !self@.closed ==> r == Some(
                Envelope {
                    payload: Some(
                        Payload::Cancel(CancelOperationRequest { request_identifier_to_cancel: RequestIdentifier }),
                    ),
                    channel_id: 0,
                },
            ),
    {
        if self.Closed {
            return None;
        }
        Some(
            Envelope {
                payload: Some(
                    Payload::Cancel(CancelOperationRequest { request_identifier_to_cancel: RequestIdentifier }),
                ),
                channel_id: 0,
            },
        )
    }

    /// What an inbound frame asks for. A response to a parked request
    /// unparks it and hands it over; a response to anything else is dropped.
    pub fn OnInboundFrame(&mut self, Frame: Envelope, HandlerInstalled: bool) -> (r: Inbound)
        ensures
            match Frame.payload {
                None => r is Ignore && final(self)@ == old(self)@,
                Some(Payload::Cancel(_)) => r is Ignore && final(self)@ == old(self)@,
                Some(Payload::Notification(n)) => r == Inbound::Publish { Method: n.method, Parameter: n.parameter }
                    && final(self)@ == old(self)@,
                Some(Payload::Request(q)) => final(self)@ == old(self)@ && if HandlerInstalled {
                    r == Inbound::Dispatch(q)
                } else {
                    r == (Inbound::DropRequest { Method: q.method, RequestIdentifier: q.request_identifier })
                },
                Some(Payload::Response(p)) => final(self)@ == unpark(old(self)@, p.request_identifier) && if old(self)@.pending.contains_key(p.request_identifier) {
                    r matches Inbound::Deliver { Reply, Response } && Response == p && Reply == old(self)@.pending[p.request_identifier]
                } else {
                    r is Ignore
                },
            },
            old(self)@.ids_below_next() ==> final(self)@.ids_below_next(),
    {
        match Frame.payload {
            None => Inbound::Ignore,
            Some(Payload::Cancel(_)) => Inbound::Ignore,
            Some(Payload::Notification(n)) => Inbound::Publish { Method: n.method, Parameter: n.parameter },
            Some(Payload::Request(q)) => {
                if HandlerInstalled {
                    Inbound::Dispatch(q)
                } else {
                    Inbound::DropRequest { Method: q.method, RequestIdentifier: q.request_identifier }
                }
            },
            Some(Payload::Response(p)) => match PendingRemove(&mut self.Pending, p.request_identifier) {
                Some(Reply) => Inbound::Deliver { Reply, Response: p },
                None => Inbound::Ignore,
            },
        }
    }

    /// The stream ended: it is marked closed, and every parked request is
    /// unparked with a `stream closed` error response under its own id.
    pub fn Close(&mut self) -> (r: Vec<(oneshot::Sender<GenericResponse>, GenericResponse)>)
        ensures
            final(self)@ == (MultiplexerV { pending: Map::<u64, oneshot::Sender<GenericResponse>>::empty(), closed: true, ..old(self)@ }),
            r@.len() == old(self)@.pending.len(),
            forall|i: int|
                0 <= i < r@.len() ==> {
                    let resp = #[trigger] r@[i].1;
                    &&& old(self)@.pending.contains_key(resp.request_identifier)
                    &&& r@[i].0 == old(self)@.pending[resp.request_identifier]
                    &&& resp.result@.len() == 0
                    &&& resp.error matches Some(e) && e.code == STREAM_CLOSED_CODE && e.message@ == "stream closed"@
                        && e.data@.len() == 0
                },
            forall|i: int, j: int|
                0 <= i < j < r@.len() ==> r@[i].1.request_identifier != r@[j].1.request_identifier,
            forall|k: u64|
                old(self)@.pending.contains_key(k) ==> exists|i: int|
                    0 <= i < r@.len() && #[trigger] r@[i].1.request_identifier == k,
    {
        self.Closed = true;
        let Keys = PendingKeys(&self.Pending);
        let ghost Before = pending_senders(self.Pending);
        let mut Drained: Vec<(oneshot::Sender<GenericResponse>, GenericResponse)> = Vec::new();
        let mut i: usize = 0;
        proof {
            Keys@.unique_seq_to_set();
        }
        while i < Keys.len()
            invariant
                0 <= i <= Keys@.len(),
                Keys@.no_duplicates(),
                Keys@.to_set() == Before.dom(),
                Keys@.len() == Before.len(),
                pending_senders(self.Pending) == Before.remove_keys(Keys@.subrange(0, i as int).to_set()),
                Drained@.len() == i,
                forall|j: int|
                    0 <= j < i ==> {
                        let resp = #[trigger] Drained@[j].1;
                        &&& resp.request_identifier == Keys@[j]
                        &&& Drained@[j].0 == Before[Keys@[j]]
                        &&& resp.result@.len() == 0
                        &&& resp.error matches Some(e) && e.code == STREAM_CLOSED_CODE && e.message@
                            == "stream closed"@ && e.data@.len() == 0
                    },
                self.Closed,
                self.SideCarIdentifier@ == old(self)@.side_car,
                self.Sink == old(self)@.sink,
                self.NextRequestIdentifier == old(self)@.next_request_identifier,
                Before == old(self)@.pending,
            decreases Keys@.len() - i,
        {
            let Key = Keys[i];
            proof {
                assert(Keys@.contains(Key));
                assert(!Keys@.subrange(0, i as int).contains(Key));
            }
            let Taken = PendingRemove(&mut self.Pending, Key);
            proof {
                assert(Keys@.subrange(0, i + 1) =~= Keys@.subrange(0, i as int) + seq![Key]);
                Seq::lemma_to_set_insert_commutes(Keys@.subrange(0, i as int), Key);
                assert(Before.remove_keys(Keys@.subrange(0, i + 1).to_set()) =~= Before.remove_keys(
                    Keys@.subrange(0, i as int).to_set(),
                ).remove(Key));
            }
            match Taken {
                Some(Reply) => {
                    let Response = GenericResponse {
                        request_identifier: Key,
                        result: Vec::new(),
                        error: Some(
                            RpcError { code: STREAM_CLOSED_CODE, message: String::from_str("stream closed"), data: Vec::new() },
                        ),
                    };
                    Drained.push((Reply, Response));
                },
                None => {
                    assert(false);
                },
            }
            i += 1;
        }
        proof {
            assert(Keys@.subrange(0, i as int) =~= Keys@);
            assert(pending_senders(self.Pending) =~= Map::<u64, oneshot::Sender<GenericResponse>>::empty());
            assert forall|k: u64| old(self)@.pending.contains_key(k) implies exists|j: int|
                0 <= j < Drained@.len() && #[trigger] Drained@[j].1.request_identifier == k by {
                assert(Keys@.to_set().contains(k));
                let j = choose|j: int| 0 <= j < Keys@.len() && Keys@[j] == k;
                assert(Drained@[j].1.request_identifier == k);
            }
        }
        Drained
    }

    /// The frame that answers a reverse request with the handler's response,
    /// under the request's own correlation id (whatever id the handler set).
    pub fn HandlerResponseFrame(RequestIdentifier: u64, Response: GenericResponse) -> (r: Envelope)
        ensures
            r.channel_id == 0,
            r.payload matches Some(Payload::Response(p)) && p.result == Response.result && p.error
                == Response.error && p.request_identifier == RequestIdentifier,
    {
        let mut Response = Response;
        Response.request_identifier = RequestIdentifier;
        Envelope { payload: Some(Payload::Response(Response)), channel_id: 0 }
    }

    /// The payload of an inbound notification: null when it carries no bytes
    /// or they do not decode, else their decoding.
    pub fn NotificationParameters(Parameter: &Vec<u8>, Decoded: Option<Json>) -> (r: Json)
        ensures
            Parameter@.len() == 0 ==> r@ == JsonV::Null,
            Parameter@.len() > 0 ==> match Decoded {
                Some(v) => r@ == v@,
                None => r@ == JsonV::Null,
            },
    {
        if Parameter.len() == 0 {
            return Json::Null;
        }
        match Decoded {
            Some(v) => v,
            None => Json::Null,
        }
    }

    /// An empty registry.
    pub fn NewRegistry<M>() -> (r: SideCarRegistry<M>)
        ensures
            r@ == Map::<Seq<char>, M>::empty(),
    {
        StringHashMap::new()
    }

    /// Registers a multiplexer for the side-car, replacing any earlier one.
    pub fn Register<M>(Registry: &mut StringHashMap<M>, SideCarIdentifier: &str, Entry: M)
        ensures
            final(Registry)@ == old(Registry)@.insert(SideCarIdentifier@, Entry),
    {
        Registry.insert(String::from_str(SideCarIdentifier), Entry);
    }

    /// The multiplexer registered for the side-car; none means the caller
    /// falls back to the unary path.
    pub fn Lookup<'a, M>(Registry: &'a StringHashMap<M>, SideCarIdentifier: &str) -> (r: Option<&'a M>)
        ensures
            match r {
                Some(m) => Registry@.contains_key(SideCarIdentifier@) && *m == Registry@[SideCarIdentifier@],
                None => !Registry@.contains_key(SideCarIdentifier@),
            },
    {
        Registry.get(SideCarIdentifier)
    }

    /// Drops the side-car's registry entry (when its stream closes).
    pub fn Deregister<M>(Registry: &mut StringHashMap<M>, SideCarIdentifier: &str)
        ensures
            final(Registry)@ == old(Registry)@.remove(SideCarIdentifier@),
    {
        Registry.remove(SideCarIdentifier);
    }

    /// Installs the handler for inbound reverse requests, replacing any earlier one.
    pub fn InstallRequestHandler<H>(Slot: &mut Option<H>, Handler: H)
        ensures
            *final(Slot) == Some(Handler),
    {
        *Slot = Some(Handler);
    }
}

} // verus!
