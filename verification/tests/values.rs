use vine::DevLog::{EqIgnoreAsciiCase, FilterEnables};
use vine::Error::{StatusCode, VineError};
use vine::Json::{
    FieldText, GetEither, GetFirst3, Json, JsonNumber, Object2, ObjectOf, StrOr, Text, U64Of, Unsigned,
};
use vine::Strings::{
    Concat, DecimalI64, DecimalU64, EndsWith, ParseU64, StartsWith, StrEq, StripPrefix, StripSuffix,
    TailAfterBytes, TrimStartMatches,
};

fn members(j: &Json) -> Vec<String> {
    match j {
        Json::Object(m) => m.iter().map(|(k, _)| k.clone()).collect(),
        _ => vec![],
    }
}

#[test]
fn json_get_finds_the_first_occurrence() {
    let o = ObjectOf(vec![
        ("a".to_string(), Unsigned(1)),
        ("b".to_string(), Text("x")),
        ("a".to_string(), Unsigned(2)),
    ]);
    assert_eq!(o.get("a").and_then(|v| v.as_u64()), Some(1));
    assert_eq!(o.get("b").and_then(|v| v.as_str()), Some("x"));
    assert!(o.get("c").is_none());
    assert!(Json::Null.get("a").is_none());
    assert_eq!(members(&Object2("k", Json::Null, "l", Json::Bool(true))), vec!["k", "l"]);
}

#[test]
fn json_accessors() {
    assert_eq!(Json::Bool(true).as_bool(), Some(true));
    assert_eq!(Text("t").as_bool(), None);
    assert_eq!(Json::Number(JsonNumber::NegInt(-3)).as_u64(), None);
    assert_eq!(Json::Number(JsonNumber::Float("1.5".to_string())).as_u64(), None);
    assert_eq!(Unsigned(9).as_u64(), Some(9));
    assert_eq!(Json::Array(vec![Json::Null]).as_array().map(|a| a.len()), Some(1));
    assert!(Unsigned(1).as_str().is_none());
}

#[test]
fn json_field_helpers() {
    let o = ObjectOf(vec![("name".to_string(), Text("n")), ("handle".to_string(), Unsigned(5))]);
    assert_eq!(FieldText(&o, "name"), "n");
    assert_eq!(FieldText(&o, "handle"), "");
    assert_eq!(FieldText(&o, "missing"), "");
    assert_eq!(StrOr(o.get("missing"), "d"), "d");
    assert_eq!(StrOr(o.get("handle"), "d"), "d");
    assert_eq!(U64Of(o.get("handle")), Some(5));
    assert_eq!(U64Of(None), None);
    assert!(matches!(GetEither(&o, "x", "name"), Some(Json::String(_))));
    assert!(matches!(GetFirst3(&o, "x", "y", "handle"), Some(Json::Number(JsonNumber::PosInt(5)))));
    assert!(GetFirst3(&o, "x", "y", "z").is_none());
    let copy = o.deep_copy();
    assert_eq!(members(&copy), vec!["name", "handle"]);
}

#[test]
fn string_helpers() {
    assert!(StrEq("abc", "abc"));
    assert!(!StrEq("abc", "abd"));
    assert!(StartsWith("register_x", "register_"));
    assert!(!StartsWith("reg", "register_"));
    assert!(EndsWith("hover_provider", "_provider"));
    assert!(!EndsWith("hover", "_provider"));
    assert_eq!(StripPrefix("terminal:3", "terminal:"), Some("3"));
    assert_eq!(StripPrefix("x", "terminal:"), None);
    assert_eq!(StripSuffix("a_provider", "_provider"), Some("a"));
    assert_eq!(TrimStartMatches("terminal:terminal:7", "terminal:"), "7");
    assert_eq!(TrimStartMatches("7", "terminal:"), "7");
    assert_eq!(TrimStartMatches("abc", ""), "abc");
    assert_eq!(TailAfterBytes("debug.start", 6), "start");
    assert_eq!(TailAfterBytes("héllo", 3), "llo");
    assert_eq!(Concat("a", "bc"), "abc");
}

#[test]
fn parse_u64_matches_std() {
    for s in ["0", "42", "+7", "", "+", "-1", "1a", "18446744073709551615", "18446744073709551616", "007", " 1"] {
        assert_eq!(ParseU64(s), s.parse::<u64>().ok(), "input {:?}", s);
    }
}

#[test]
fn decimal_rendering() {
    assert_eq!(DecimalU64(0), "0");
    assert_eq!(DecimalU64(1234567890), "1234567890");
    assert_eq!(DecimalU64(u64::MAX), u64::MAX.to_string());
    assert_eq!(DecimalI64(-32099), "-32099");
    assert_eq!(DecimalI64(i64::MIN), i64::MIN.to_string());
    assert_eq!(DecimalI64(17), "17");
}

#[test]
fn dev_log_filter() {
    assert!(!FilterEnables("", "grpc"));
    assert!(FilterEnables("all", "grpc"));
    assert!(FilterEnables("1", "anything"));
    assert!(FilterEnables("true", "x"));
    assert!(FilterEnables("grpc,vine,boot", "vine"));
    assert!(FilterEnables(" Grpc , vine", "grpc"));
    assert!(FilterEnables("a,\tBOOT\n", "boot"));
    assert!(!FilterEnables("grpc,vine", "boot"));
    assert!(!FilterEnables("grpcx", "grpc"));
    assert!(!FilterEnables("All", "grpc"));
    assert!(FilterEnables(",", ""));
    assert!(!FilterEnables("x,y", ""));
}

fn message(e: VineError) -> String {
    e.Message()
}

#[test]
fn error_messages() {
    assert_eq!(
        message(VineError::ClientNotConnected("c".to_string())),
        "SideCar 'c' not found or its gRPC client channel is not ready."
    );
    assert_eq!(
        message(VineError::RequestTimeout {
            SideCarIdentifier: "c".to_string(),
            MethodName: "m".to_string(),
            TimeoutMilliseconds: 5000
        }),
        "Request to sidecar 'c' (method: 'm') timed out after 5000ms"
    );
    assert_eq!(
        message(VineError::MessageTooLarge { ActualSize: 5, MaxSize: 4 }),
        "Message size 5 bytes exceeds maximum allowed size 4 bytes"
    );
    assert_eq!(
        message(VineError::ConnectionFailed {
            SideCarIdentifier: "c".to_string(),
            Address: "a".to_string(),
            Reason: "r".to_string()
        }),
        "Failed to connect to sidecar 'c' at 'a': r"
    );
    assert_eq!(message(VineError::InvalidUri("u".to_string())), "Invalid URI: u");
}

#[test]
fn recoverable_errors() {
    assert!(VineError::ConnectionLost("c".to_string()).IsRecoverable());
    assert!(VineError::TonicTransportError("t".to_string()).IsRecoverable());
    assert!(!VineError::RPCError("x".to_string()).IsRecoverable());
    assert!(!VineError::MessageTooLarge { ActualSize: 1, MaxSize: 0 }.IsRecoverable());
}

#[test]
fn error_to_status() {
    let s = VineError::RPCError("boom".to_string()).ToTonicStatus();
    assert!(matches!(s.Code, StatusCode::Unknown));
    assert_eq!(s.Message, "boom");
    let t = VineError::MessageTooLarge { ActualSize: 2, MaxSize: 1 }.ToTonicStatus();
    assert!(matches!(t.Code, StatusCode::ResourceExhausted));
    assert_eq!(t.Message, "Message size 2 bytes exceeds maximum allowed size 1 bytes");
    assert!(matches!(VineError::ClientNotConnected("c".to_string()).ToTonicStatus().Code, StatusCode::Unavailable));
    assert!(matches!(VineError::ConnectionLost("c".to_string()).ToTonicStatus().Code, StatusCode::Aborted));
}

#[test]
fn status_to_error() {
    match VineError::FromStatus(StatusCode::DeadlineExceeded, "slow", "ignored") {
        VineError::RPCError(s) => assert_eq!(s, "Timeout: slow"),
        other => panic!("{:?}", other),
    }
    assert!(matches!(VineError::FromStatus(StatusCode::NotFound, "c", ""), VineError::ClientNotConnected(s) if s == "c"));
    assert!(matches!(
        VineError::FromStatus(StatusCode::ResourceExhausted, "", ""),
        VineError::MessageTooLarge { ActualSize: 0, MaxSize: 4194304 }
    ));
    assert!(matches!(
        VineError::FromStatus(StatusCode::Internal, "m", "status: Internal"),
        VineError::RPCError(s) if s == "status: Internal"
    ));
    match VineError::FromStatus(StatusCode::Unavailable, "refused", "") {
        VineError::ConnectionFailed { SideCarIdentifier, Address, Reason } => {
            assert_eq!((SideCarIdentifier.as_str(), Address.as_str(), Reason.as_str()), ("unknown", "unknown", "refused"));
        },
        other => panic!("{:?}", other),
    }
    assert!(matches!(
        VineError::FromPoisonedLock("p"),
        VineError::InternalLockError(s) if s == "Shared state lock poisoned: p"
    ));
}

#[test]
fn status_code_numbers_round_trip() {
    for n in 0..17 {
        assert_eq!(StatusCode::FromNumber(n).Number(), n);
    }
    assert!(matches!(StatusCode::FromNumber(99), StatusCode::Unknown));
}

#[test]
fn tonic_status_round_trip() {
    let e = VineError::FromTonicStatus(&tonic::Status::not_found("cocoon"));
    assert!(matches!(e, VineError::ClientNotConnected(s) if s == "cocoon"));
    let f = VineError::FromTonicStatus(&tonic::Status::deadline_exceeded("slow"));
    assert!(matches!(f, VineError::RPCError(s) if s == "Timeout: slow"));
    let g = VineError::FromTonicStatus(&tonic::Status::internal("oops"));
    assert!(matches!(g, VineError::RPCError(s) if s == tonic::Status::internal("oops").to_string()));
    let s = VineError::ClientNotConnected("c".to_string()).ToTonicStatus().IntoStatus();
    assert_eq!(s.code(), tonic::Code::Unavailable);
    assert_eq!(s.message(), "SideCar 'c' not found or its gRPC client channel is not ready.");
    let t = VineError::RPCError("raw".to_string()).ToTonicStatus().IntoStatus();
    assert_eq!((t.code(), t.message()), (tonic::Code::Unknown, "raw"));
}

#[test]
fn ascii_case_insensitive_equality() {
    assert!(EqIgnoreAsciiCase("SCM", "scm"));
    assert!(!EqIgnoreAsciiCase("scm", "scmx"));
    assert!(!EqIgnoreAsciiCase("Ä", "ä"));
}
