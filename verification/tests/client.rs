use vine::Client::IsShuttingDown;
use vine::Client::MarkShutdown;
use vine::Client::NotificationFrame;
use vine::Client::SendRequest::{
    AfterStreamingAttempt, CheckRequest, FinishUnary, PrepareUnary, UnaryOutcome,
};
use vine::Client::Shared::{
    ClientState, ConnectionNotifiers, FireConnectionNotify, GetConnectionNotify, MAX_MESSAGE_SIZE_BYTES,
    RecordSideCarFailure, ShutdownFlagLoad, ShutdownFlagStore, UpdateSideCarActivity, ValidateMessageSize,
};
use vine::Client::SubscriberCount;
use vine::Client::WaitForClientConnection::{NextWaitStep, StartWait, WaitStep};
use vine::Error::VineError;
use vine::Generated::RpcError;
use vine::Json::{Json, JsonNumber};

fn failure_count(State: &ClientState<u32>, Id: &str) -> usize {
    State.Metadata(Id).map(|m| m.FailureCount).unwrap_or(usize::MAX)
}

#[test]
fn new_pool_is_empty_and_counts_from_one() {
    let mut State: ClientState<u32> = ClientState::new();
    assert!(!State.IsClientConnected("cocoon"));
    assert!(!ShutdownFlagLoad(&State));
    assert_eq!(State.NextRequestIdentifier(), 1);
    assert_eq!(State.NextRequestIdentifier(), 2);
}

#[test]
fn add_connection_pools_a_healthy_client() {
    let mut State: ClientState<u32> = ClientState::new();
    State.AddConnection("cocoon", 7);
    assert!(State.IsClientConnected("cocoon"));
    assert_eq!(State.Client("cocoon"), Some(&7));
    let Meta = State.Metadata("cocoon").unwrap();
    assert_eq!(Meta.FailureCount, 0);
    assert!(Meta.IsHealthy);
    assert!(State.Client("air").is_none());
}

#[test]
fn eleven_consecutive_failures_evict_the_client() {
    let mut State: ClientState<u32> = ClientState::new();
    State.AddConnection("cocoon", 1);
    State.AddConnection("air", 2);
    for k in 1..=10 {
        RecordSideCarFailure(&mut State, "cocoon");
        assert_eq!(failure_count(&State, "cocoon"), k);
        assert!(State.IsClientConnected("cocoon"));
        assert!(!State.Metadata("cocoon").unwrap().IsHealthy);
    }
    RecordSideCarFailure(&mut State, "cocoon");
    assert_eq!(failure_count(&State, "cocoon"), 11);
    assert!(!State.IsClientConnected("cocoon"));
    assert!(State.IsClientConnected("air"));
}

#[test]
fn success_resets_the_failure_count() {
    let mut State: ClientState<u32> = ClientState::new();
    State.AddConnection("cocoon", 1);
    RecordSideCarFailure(&mut State, "cocoon");
    RecordSideCarFailure(&mut State, "cocoon");
    UpdateSideCarActivity(&mut State, "cocoon");
    assert_eq!(failure_count(&State, "cocoon"), 0);
    assert!(State.Metadata("cocoon").unwrap().IsHealthy);
    RecordSideCarFailure(&mut State, "unknown");
    UpdateSideCarActivity(&mut State, "unknown");
    assert!(State.Metadata("unknown").is_none());
}

#[test]
fn shutdown_flag_round_trip() {
    let mut State: ClientState<u32> = ClientState::new();
    assert!(!IsShuttingDown::Fn(&State));
    MarkShutdown::Fn(&mut State);
    assert!(IsShuttingDown::Fn(&State));
    ShutdownFlagStore(&mut State, false);
    assert!(!ShutdownFlagLoad(&State));
}

#[test]
fn message_size_limit_is_inclusive() {
    assert_eq!(MAX_MESSAGE_SIZE_BYTES, 4194304);
    assert!(ValidateMessageSize(&vec![0u8; 4194304]).is_ok());
    match ValidateMessageSize(&vec![0u8; 4194305]) {
        Err(VineError::MessageTooLarge { ActualSize, MaxSize }) => {
            assert_eq!(ActualSize, 4194305);
            assert_eq!(MaxSize, 4194304);
        },
        _ => panic!("expected MessageTooLarge"),
    }
    assert!(ValidateMessageSize(&[]).is_ok());
}

#[test]
fn check_request_order_of_refusals_and_timeout_clamp() {
    let mut State: ClientState<u32> = ClientState::new();
    assert!(matches!(CheckRequest(&State, "c", "m", false, 0), Ok(5000)));
    assert!(matches!(CheckRequest(&State, "c", "m", false, 250), Ok(250)));
    assert!(matches!(CheckRequest(&State, "c", "m", false, 15000), Ok(15000)));
    assert!(matches!(CheckRequest(&State, "c", "m", false, 60000), Ok(15000)));
    assert!(matches!(CheckRequest(&State, "c", "", false, 10), Err(VineError::RPCError(_))));
    let Long = "x".repeat(129);
    assert!(matches!(CheckRequest(&State, "c", &Long, false, 10), Err(VineError::RPCError(_))));
    assert!(matches!(CheckRequest(&State, "c", &"x".repeat(128), false, 10), Ok(10)));
    match CheckRequest(&State, "c", "m", true, 10) {
        Err(VineError::RequestCanceled { SideCarIdentifier, MethodName }) => {
            assert_eq!(SideCarIdentifier, "c");
            assert_eq!(MethodName, "m");
        },
        _ => panic!("expected RequestCanceled"),
    }
    MarkShutdown::Fn(&mut State);
    match CheckRequest(&State, "c", "", true, 10) {
        Err(VineError::ClientNotConnected(s)) => assert_eq!(s, "c"),
        _ => panic!("expected ClientNotConnected"),
    }
}

#[test]
fn prepare_unary_assigns_ids_and_refuses() {
    let mut State: ClientState<u32> = ClientState::new();
    match PrepareUnary(&mut State, "c", "m".to_string(), Ok(vec![1])) {
        Err(VineError::ClientNotConnected(s)) => assert_eq!(s, "c"),
        _ => panic!("expected ClientNotConnected"),
    }
    State.AddConnection("c", 1);
    let First = PrepareUnary(&mut State, "c", "m".to_string(), Ok(vec![1, 2])).ok().unwrap();
    assert_eq!(First.request_identifier, 1);
    assert_eq!(First.method, "m");
    assert_eq!(First.parameter, vec![1, 2]);
    let Second = PrepareUnary(&mut State, "c", "n".to_string(), Ok(vec![])).ok().unwrap();
    assert_eq!(Second.request_identifier, 2);
    match PrepareUnary(&mut State, "c", "m".to_string(), Err("bad".to_string())) {
        Err(VineError::RPCError(s)) => assert_eq!(s, "Failed to serialize parameters: bad"),
        _ => panic!("expected RPCError"),
    }
    assert!(matches!(
        PrepareUnary(&mut State, "c", "m".to_string(), Ok(vec![0u8; 4194305])),
        Err(VineError::MessageTooLarge { .. })
    ));
    assert_eq!(State.NextRequestIdentifier(), 3);
}

#[test]
fn finish_unary_maps_each_outcome() {
    let mut State: ClientState<u32> = ClientState::new();
    State.AddConnection("c", 1);
    let Ok1 = FinishUnary(&mut State, "c", "m", 4, 1000, UnaryOutcome::Responded {
        Result: Ok(Json::Bool(true)),
        Error: None,
    });
    assert!(matches!(Ok1.Result, Ok(Json::Bool(true))));
    assert_eq!(Ok1.CancelRequestIdentifier, None);
    let Remote = FinishUnary(&mut State, "c", "m", 4, 1000, UnaryOutcome::Responded {
        Result: Ok(Json::Null),
        Error: Some(RpcError { code: -32601, message: "nope".to_string(), data: vec![] }),
    });
    match Remote.Result {
        Err(VineError::RPCError(s)) => assert_eq!(s, "RPC error from sidecar: code=-32601, message=nope"),
        _ => panic!("expected RPCError"),
    }
    let Bad = FinishUnary(&mut State, "c", "m", 4, 1000, UnaryOutcome::Responded {
        Result: Err("eof".to_string()),
        Error: None,
    });
    match Bad.Result {
        Err(VineError::RPCError(s)) => assert_eq!(s, "Failed to deserialize response: eof"),
        _ => panic!("expected RPCError"),
    }
    let Failed = FinishUnary(&mut State, "c", "m", 4, 1000, UnaryOutcome::Failed("down".to_string()));
    match Failed.Result {
        Err(VineError::RPCError(s)) => assert_eq!(s, "gRPC error: down"),
        _ => panic!("expected RPCError"),
    }
    assert_eq!(failure_count(&State, "c"), 1);
    let Timed = FinishUnary(&mut State, "c", "m", 4, 1000, UnaryOutcome::TimedOut);
    match Timed.Result {
        Err(VineError::RequestTimeout { SideCarIdentifier, MethodName, TimeoutMilliseconds }) => {
            assert_eq!(SideCarIdentifier, "c");
            assert_eq!(MethodName, "m");
            assert_eq!(TimeoutMilliseconds, 1000);
        },
        _ => panic!("expected RequestTimeout"),
    }
    assert_eq!(Timed.CancelRequestIdentifier, Some(4));
    assert_eq!(failure_count(&State, "c"), 2);
    let Cancelled = FinishUnary(&mut State, "c", "m", 5, 1000, UnaryOutcome::Cancelled);
    assert!(matches!(Cancelled.Result, Err(VineError::RequestCanceled { .. })));
    assert_eq!(Cancelled.CancelRequestIdentifier, Some(5));
    assert_eq!(failure_count(&State, "c"), 2);
}

#[test]
fn streaming_attempt_falls_back_except_on_timeout() {
    let mut State: ClientState<u32> = ClientState::new();
    State.AddConnection("c", 1);
    RecordSideCarFailure(&mut State, "c");
    let Done = AfterStreamingAttempt(&mut State, "c", "m", 100, Ok(Json::Number(JsonNumber::PosInt(3))));
    assert!(matches!(Done, Some(Ok(Json::Number(JsonNumber::PosInt(3))))));
    assert_eq!(failure_count(&State, "c"), 0);
    let Timeout = AfterStreamingAttempt(&mut State, "c", "m", 100, Err(VineError::RequestTimeout {
        SideCarIdentifier: "other".to_string(),
        MethodName: "other".to_string(),
        TimeoutMilliseconds: 1,
    }));
    match Timeout {
        Some(Err(VineError::RequestTimeout { SideCarIdentifier, MethodName, TimeoutMilliseconds })) => {
            assert_eq!((SideCarIdentifier.as_str(), MethodName.as_str(), TimeoutMilliseconds), ("c", "m", 100));
        },
        _ => panic!("expected RequestTimeout"),
    }
    assert!(AfterStreamingAttempt(&mut State, "c", "m", 100, Err(VineError::ConnectionLost("c".to_string()))).is_none());
}

#[test]
fn wait_steps() {
    assert_eq!(StartWait(true, true), Some(false));
    assert_eq!(StartWait(false, true), Some(true));
    assert_eq!(StartWait(false, false), None);
    assert!(matches!(NextWaitStep(true, true, 0), WaitStep::Answer(true)));
    assert!(matches!(NextWaitStep(false, true, 500), WaitStep::Answer(false)));
    assert!(matches!(NextWaitStep(false, false, 0), WaitStep::FinalCheck));
    assert!(matches!(NextWaitStep(false, false, 40), WaitStep::Wait(40)));
    assert!(matches!(NextWaitStep(false, false, 5000), WaitStep::Wait(100)));
}

#[test]
fn connection_notifiers_are_created_once() {
    let mut Notifiers = ConnectionNotifiers::new();
    assert!(FireConnectionNotify(&Notifiers, "c").is_none());
    let First = GetConnectionNotify(&mut Notifiers, "c");
    let Second = GetConnectionNotify(&mut Notifiers, "c");
    let Other = GetConnectionNotify(&mut Notifiers, "d");
    assert!(std::sync::Arc::ptr_eq(&First, &Second));
    assert!(!std::sync::Arc::ptr_eq(&First, &Other));
    let Fired = FireConnectionNotify(&Notifiers, "c").unwrap();
    assert!(std::sync::Arc::ptr_eq(&Fired, &First));
    assert!(FireConnectionNotify(&Notifiers, "e").is_none());
}

#[test]
fn subscriber_count_follows_receivers() {
    let (Sender, First) = tokio::sync::broadcast::channel::<NotificationFrame::Struct>(4);
    assert_eq!(SubscriberCount::Fn(&Sender), 1);
    let Second = Sender.subscribe();
    assert_eq!(SubscriberCount::Fn(&Sender), 2);
    drop(First);
    drop(Second);
    assert_eq!(SubscriberCount::Fn(&Sender), 0);
}
