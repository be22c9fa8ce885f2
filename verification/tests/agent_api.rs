use wpressforge::agent::api::{
    authorised, response_status, same_secret, Admission, ReplayGuard, IDEMPOTENCY_WINDOW,
};
use wpressforge::common::error::Error;
use wpressforge::common::protocol::{
    Operation, OperationData, OperationEnvelope, OperationResult, PROTOCOL_VERSION,
};

const TOKEN: &str = "local-development-token-000001";

fn header() -> Option<String> {
    Some(format!("Bearer {TOKEN}"))
}

fn envelope(id: &str) -> OperationEnvelope {
    OperationEnvelope {
        protocol_version: PROTOCOL_VERSION,
        job_id: Some(4),
        request_id: id.to_string(),
        operation: Operation::Ping,
    }
}

#[test]
fn only_the_bearer_of_the_token_is_authorised() {
    assert!(authorised(&header(), TOKEN));
    assert!(!authorised(&Some(TOKEN.to_string()), TOKEN));
    assert!(!authorised(&Some("Bearer ".to_string()), TOKEN));
    assert!(!authorised(&None, TOKEN));
    assert!(same_secret("\u{e9}", "\u{e9}"));
    assert!(!same_secret("a", "b"));
    assert!(!same_secret("a", "ab"));
}

#[test]
fn a_request_runs_once() {
    let mut guard = ReplayGuard::new();
    match guard.receive_at(&header(), TOKEN, Ok(envelope("r1")), 5) {
        Admission::Run { job_id, operation } => {
            assert_eq!(job_id, Some(4));
            assert_eq!(operation.name(), "ping");
        }
        Admission::Answer { .. } => panic!("the first request runs"),
    }
    match guard.receive_at(&header(), TOKEN, Ok(envelope("r1")), 6) {
        Admission::Answer { status, result } => {
            assert_eq!(status, 200);
            assert!(result.success);
            assert!(matches!(result.data, OperationData::Empty));
        }
        Admission::Run { .. } => panic!("a replay does not run"),
    }
    assert!(!guard.already_handled_at("r2", 7));
    assert!(guard.already_handled_at("r1", 5 + IDEMPOTENCY_WINDOW - 1));
    assert!(!guard.already_handled_at("r1", 5 + IDEMPOTENCY_WINDOW));
}

#[test]
fn the_live_clock_recognises_a_replay_too() {
    let mut guard = ReplayGuard::new();
    let first = guard.receive(&header(), TOKEN, Ok(envelope("r1")));
    assert!(matches!(first, Admission::Run { .. }));
    let again = guard.receive(&header(), TOKEN, Ok(envelope("r1")));
    assert!(matches!(again, Admission::Answer { status: 200, .. }));
}

/// The status and the message that a request is turned away with.
fn refusal(
    header: Option<String>,
    body: Result<OperationEnvelope, String>,
) -> (u16, String) {
    let mut guard = ReplayGuard::new();
    match guard.receive_at(&header, TOKEN, body, 1) {
        Admission::Answer { status, result } => {
            assert!(!result.success);
            (status, result.error.expect("error").message())
        }
        Admission::Run { .. } => panic!("the request is refused"),
    }
}

#[test]
fn other_requests_are_refused() {
    assert_eq!(
        refusal(None, Ok(envelope("r"))),
        (401, Error::Unauthorized.message())
    );
    assert_eq!(
        refusal(header(), Err("no body".to_string())),
        (422, Error::invalid("no body").message())
    );
    let mut old = envelope("r");
    old.protocol_version = PROTOCOL_VERSION + 1;
    assert_eq!(
        refusal(header(), Ok(old)),
        (
            409,
            Error::invalid("protocol version 2 is not supported (agent speaks 1)").message()
        )
    );
}

#[test]
fn answers_go_out_with_the_status_of_their_error() {
    assert_eq!(response_status(&OperationResult::ok(OperationData::Empty)), 200);
    let cases = [
        (Error::NotFound("x".into()), 404),
        (Error::Conflict("x".into()), 409),
        (Error::Invalid("x".into()), 422),
        (Error::Unauthorized, 401),
        (Error::Unsupported("x".into()), 501),
        (Error::Command { command: "c".into(), status: 1, stderr: "e".into() }, 500),
        (Error::Unreachable("x".into()), 502),
        (Error::Internal("x".into()), 500),
    ];
    for (error, status) in cases {
        let shown = error.message();
        assert_eq!(response_status(&OperationResult::err(error)), status, "{shown}");
    }
}
