use tokio::sync::{mpsc, oneshot};
use vine::Error::VineError;
use vine::Generated::envelope::Payload;
use vine::Generated::{Envelope, GenericNotification, GenericRequest, GenericResponse, RpcError};
use vine::Json::{Json, JsonNumber};
use vine::Multiplexer::{Inbound, Multiplexer};

fn fresh(Name: &str) -> Multiplexer {
    let (Sink, _Stream) = mpsc::channel::<Envelope>(8);
    Multiplexer::New(Name.to_string(), Sink)
}

fn response(Id: u64, Result: Vec<u8>, Error: Option<RpcError>) -> Envelope {
    Envelope {
        payload: Some(Payload::Response(GenericResponse { request_identifier: Id, result: Result, error: Error })),
        channel_id: 0,
    }
}

#[test]
fn new_multiplexer_is_open() {
    let m = fresh("cocoon-main");
    assert!(!m.IsClosed());
    assert_eq!(m.SideCarIdentifierBorrow(), "cocoon-main");
}

#[test]
fn requests_get_consecutive_ids_and_responses_find_their_waiter() {
    let mut m = fresh("c");
    let (Reply1, Wait1) = oneshot::channel::<GenericResponse>();
    let (Reply2, _Wait2) = oneshot::channel::<GenericResponse>();
    let (Id1, Frame1) = m.BeginRequest("a".to_string(), vec![1], Reply1).ok().unwrap();
    let (Id2, _) = m.BeginRequest("b".to_string(), vec![], Reply2).ok().unwrap();
    assert_eq!((Id1, Id2), (1, 2));
    match Frame1.payload {
        Some(Payload::Request(GenericRequest { request_identifier, method, parameter })) => {
            assert_eq!((request_identifier, method.as_str(), parameter), (1, "a", vec![1]));
        },
        _ => panic!("expected a request frame"),
    }
    match m.OnInboundFrame(response(1, b"true".to_vec(), None), false) {
        Inbound::Deliver { Reply, Response } => {
            assert_eq!(Response.request_identifier, 1);
            Reply.send(Response).ok().unwrap();
        },
        _ => panic!("expected delivery"),
    }
    let mut Wait1 = Wait1;
    assert_eq!(Wait1.try_recv().ok().map(|r| r.result), Some(b"true".to_vec()));
    assert!(matches!(m.OnInboundFrame(response(1, vec![], None), false), Inbound::Ignore));
    assert!(matches!(m.OnInboundFrame(response(99, vec![], None), false), Inbound::Ignore));
}

#[test]
fn inbound_notifications_and_requests() {
    let mut m = fresh("c");
    let Note = Envelope {
        payload: Some(Payload::Notification(GenericNotification { method: "n".to_string(), parameter: vec![5] })),
        channel_id: 0,
    };
    match m.OnInboundFrame(Note, false) {
        Inbound::Publish { Method, Parameter } => assert_eq!((Method.as_str(), Parameter), ("n", vec![5])),
        _ => panic!("expected publish"),
    }
    let Request = || Envelope {
        payload: Some(Payload::Request(GenericRequest { request_identifier: 8, method: "q".to_string(), parameter: vec![] })),
        channel_id: 0,
    };
    assert!(matches!(m.OnInboundFrame(Request(), true), Inbound::Dispatch(GenericRequest { request_identifier: 8, .. })));
    assert!(matches!(
        m.OnInboundFrame(Request(), false),
        Inbound::DropRequest { RequestIdentifier: 8, .. }
    ));
    assert!(matches!(m.OnInboundFrame(Envelope { payload: None, channel_id: 0 }, true), Inbound::Ignore));
}

#[test]
fn response_results() {
    assert!(matches!(
        Multiplexer::ResponseResult(GenericResponse { request_identifier: 1, result: vec![], error: None }, Err("x".to_string())),
        Ok(Json::Null)
    ));
    assert!(matches!(
        Multiplexer::ResponseResult(
            GenericResponse { request_identifier: 1, result: b"3".to_vec(), error: None },
            Ok(Json::Number(JsonNumber::PosInt(3)))
        ),
        Ok(Json::Number(JsonNumber::PosInt(3)))
    ));
    match Multiplexer::ResponseResult(
        GenericResponse { request_identifier: 1, result: b"{".to_vec(), error: None },
        Err("EOF".to_string()),
    ) {
        Err(VineError::SerializationError(s)) => assert_eq!(s, "EOF"),
        other => panic!("{:?}", other),
    }
    match Multiplexer::ResponseResult(
        GenericResponse {
            request_identifier: 1,
            result: vec![],
            error: Some(RpcError { code: -32000, message: "bad".to_string(), data: vec![] }),
        },
        Ok(Json::Null),
    ) {
        Err(VineError::RPCError(s)) => assert_eq!(s, "code=-32000 message=bad"),
        other => panic!("{:?}", other),
    }
}

#[test]
fn timeouts_and_drops_forget_the_request() {
    let mut m = fresh("c");
    let (Reply, _Wait) = oneshot::channel::<GenericResponse>();
    let (Id, _) = m.BeginRequest("slow".to_string(), vec![], Reply).ok().unwrap();
    match m.RequestTimedOut(Id, "slow".to_string(), 250) {
        VineError::RequestTimeout { SideCarIdentifier, MethodName, TimeoutMilliseconds } => {
            assert_eq!((SideCarIdentifier.as_str(), MethodName.as_str(), TimeoutMilliseconds), ("c", "slow", 250));
        },
        other => panic!("{:?}", other),
    }
    assert!(matches!(m.OnInboundFrame(response(Id, vec![], None), false), Inbound::Ignore));
    assert!(matches!(m.SinkClosed(5), VineError::RPCError(s) if s == "Sink closed for sidecar c"));
    assert!(matches!(
        m.ResponseDropped(5),
        VineError::RPCError(s) if s == "response sender closed (peer disconnect mid-request)"
    ));
}

#[test]
fn close_drains_every_pending_request_with_stream_closed() {
    let mut m = fresh("c");
    let mut Waits = Vec::new();
    for _ in 0..3 {
        let (Reply, Wait) = oneshot::channel::<GenericResponse>();
        m.BeginRequest("r".to_string(), vec![], Reply).ok().unwrap();
        Waits.push(Wait);
    }
    let Drained = m.Close();
    assert!(m.IsClosed());
    let mut Ids: Vec<u64> = Drained.iter().map(|(_, r)| r.request_identifier).collect();
    Ids.sort();
    assert_eq!(Ids, vec![1, 2, 3]);
    for (Reply, Response) in Drained {
        let e = Response.error.as_ref().unwrap();
        assert_eq!((e.code, e.message.as_str()), (-32099, "stream closed"));
        Reply.send(Response).ok().unwrap();
    }
    for (Index, mut Wait) in Waits.into_iter().enumerate() {
        let Got = Wait.try_recv().ok().unwrap();
        assert_eq!(Got.request_identifier, Index as u64 + 1);
        assert_eq!(Got.error.map(|e| e.code), Some(-32099));
    }
    assert!(m.Close().is_empty());
    let (Reply, _Wait) = oneshot::channel::<GenericResponse>();
    assert!(matches!(m.BeginRequest("late".to_string(), vec![], Reply), Err(VineError::ClientNotConnected(s)) if s == "c"));
    assert!(m.Notify("n".to_string(), vec![]).is_err());
    assert!(m.Cancel(1).is_none());
}

#[test]
fn outbound_frames() {
    let m = fresh("c");
    match m.Notify("n".to_string(), vec![1]).ok().unwrap().payload {
        Some(Payload::Notification(n)) => assert_eq!((n.method.as_str(), n.parameter), ("n", vec![1])),
        _ => panic!("expected notification"),
    }
    assert!(matches!(
        m.Cancel(4).unwrap().payload,
        Some(Payload::Cancel(c)) if c.request_identifier_to_cancel == 4
    ));
    let Answer = Multiplexer::HandlerResponseFrame(6, GenericResponse { request_identifier: 0, result: vec![], error: None });
    assert!(matches!(Answer.payload, Some(Payload::Response(r)) if r.request_identifier == 6));
    let Kept = Multiplexer::HandlerResponseFrame(6, GenericResponse { request_identifier: 9, result: vec![], error: None });
    assert!(matches!(Kept.payload, Some(Payload::Response(r)) if r.request_identifier == 6));
}

#[test]
fn notification_parameters_default_to_null() {
    assert!(matches!(Multiplexer::NotificationParameters(&vec![], Some(Json::Bool(true))), Json::Null));
    assert!(matches!(Multiplexer::NotificationParameters(&vec![1], None), Json::Null));
    assert!(matches!(Multiplexer::NotificationParameters(&vec![1], Some(Json::Bool(true))), Json::Bool(true)));
}

#[test]
fn registry_and_handler_slot() {
    let mut Registry = Multiplexer::NewRegistry::<u8>();
    Multiplexer::Register(&mut Registry, "c", 1);
    assert_eq!(Multiplexer::Lookup(&Registry, "c"), Some(&1));
    Multiplexer::Register(&mut Registry, "c", 2);
    assert_eq!(Multiplexer::Lookup(&Registry, "c"), Some(&2));
    Multiplexer::Deregister(&mut Registry, "c");
    assert_eq!(Multiplexer::Lookup(&Registry, "c"), None);
    let mut Slot: Option<u8> = None;
    Multiplexer::InstallRequestHandler(&mut Slot, 3);
    assert_eq!(Slot, Some(3));
}

#[test]
fn sink_is_the_queue_the_multiplexer_was_made_with() {
    let (Sink, mut Stream) = mpsc::channel::<Envelope>(8);
    let m = Multiplexer::New("c".to_string(), Sink);
    let Frame = m.Cancel(3).unwrap();
    m.Sink().try_send(Frame).ok().unwrap();
    assert!(matches!(
        Stream.try_recv().ok().and_then(|f| f.payload),
        Some(Payload::Cancel(c)) if c.request_identifier_to_cancel == 3
    ));
}

#[test]
fn each_response_reaches_the_request_parked_under_its_id() {
    let mut m = fresh("c");
    let (Reply1, mut Wait1) = oneshot::channel::<GenericResponse>();
    let (Reply2, mut Wait2) = oneshot::channel::<GenericResponse>();
    m.BeginRequest("a".to_string(), vec![], Reply1).ok().unwrap();
    m.BeginRequest("b".to_string(), vec![], Reply2).ok().unwrap();
    match m.OnInboundFrame(response(2, b"2".to_vec(), None), false) {
        Inbound::Deliver { Reply, Response } => Reply.send(Response).ok().unwrap(),
        _ => panic!("expected delivery"),
    }
    assert!(Wait1.try_recv().is_err());
    assert_eq!(Wait2.try_recv().ok().map(|r| r.request_identifier), Some(2));
    match m.OnInboundFrame(response(1, b"1".to_vec(), None), false) {
        Inbound::Deliver { Reply, Response } => Reply.send(Response).ok().unwrap(),
        _ => panic!("expected delivery"),
    }
    assert_eq!(Wait1.try_recv().ok().map(|r| r.result), Some(b"1".to_vec()));
}
