use codex_usage_dock::protocol::{
    handle_server_message, select_main_bucket, LineEvent, RateLimitsReadResult,
    RateLimitsUpdatedParams, Request, ServerMessage, Session, SessionError, SessionStep,
};
use codex_usage_dock::usage::{RateLimitBucket, RateLimitWindow};

fn bucket(tag: u64) -> RateLimitBucket {
    RateLimitBucket {
        primary: Some(RateLimitWindow {
            used_percent_bits: 1.0f64.to_bits(),
            window_duration_mins: tag,
            resets_at: 0,
        }),
        secondary: None,
    }
}

fn message() -> ServerMessage {
    ServerMessage {
        id: None,
        error: None,
        result: None,
        result_text: None,
        method: None,
        params: Err("invalid type: null".to_string()),
    }
}

fn read_result(result: RateLimitsReadResult) -> ServerMessage {
    ServerMessage { id: Some(1), result: Some(Ok(result)), ..message() }
}

#[test]
fn prefers_the_main_codex_bucket() {
    let primary = RateLimitBucket::default();
    let fallback = RateLimitBucket::default();
    let response = RateLimitsReadResult {
        rate_limits: Some(primary),
        rate_limits_by_limit_id: vec![("codex_other".into(), fallback)],
    };

    assert!(select_main_bucket(response).is_some());
}

#[test]
fn supports_the_multi_bucket_shape() {
    let response = RateLimitsReadResult {
        rate_limits: None,
        rate_limits_by_limit_id: vec![("codex".into(), RateLimitBucket::default())],
    };

    assert!(select_main_bucket(response).is_some());
}

#[test]
fn selection_order_single_then_codex_then_first() {
    let single = RateLimitsReadResult {
        rate_limits: Some(bucket(1)),
        rate_limits_by_limit_id: vec![("codex".into(), bucket(2))],
    };
    assert_eq!(select_main_bucket(single), Some(bucket(1)));

    let by_id = RateLimitsReadResult {
        rate_limits: None,
        rate_limits_by_limit_id: vec![
            ("codex_other".into(), bucket(3)),
            ("codex".into(), bucket(4)),
        ],
    };
    assert_eq!(select_main_bucket(by_id), Some(bucket(4)));

    let other = RateLimitsReadResult {
        rate_limits: None,
        rate_limits_by_limit_id: vec![("gpt".into(), bucket(5)), ("codex_x".into(), bucket(6))],
    };
    assert_eq!(select_main_bucket(other), Some(bucket(5)));

    let empty = RateLimitsReadResult { rate_limits: None, rate_limits_by_limit_id: vec![] };
    assert_eq!(select_main_bucket(empty), None);
}

#[test]
fn response_with_error_is_rejected() {
    let outcome = handle_server_message(ServerMessage {
        id: Some(3),
        error: Some("{\"code\":-1}".to_string()),
        ..message()
    });
    match outcome {
        Err(e) => assert_eq!(e.message(), "Could not read Codex usage: {\"code\":-1}"),
        Ok(_) => panic!("expected an error"),
    }
}

#[test]
fn response_with_result_applies_main_bucket() {
    let outcome = handle_server_message(read_result(RateLimitsReadResult {
        rate_limits: None,
        rate_limits_by_limit_id: vec![("codex".into(), bucket(7))],
    }));
    assert!(matches!(outcome, Ok(Some(b)) if b == bucket(7)));
}

#[test]
fn unparsable_result_and_update_end_the_session() {
    let outcome = handle_server_message(ServerMessage {
        id: Some(2),
        result: Some(Err("missing field".to_string())),
        ..message()
    });
    match outcome {
        Err(e) => assert_eq!(e.message(), "Could not parse Codex usage: missing field"),
        Ok(_) => panic!("expected an error"),
    }
    let outcome = handle_server_message(ServerMessage {
        method: Some("account/rateLimits/updated".to_string()),
        ..message()
    });
    match outcome {
        Err(e) => {
            assert_eq!(e.message(), "Could not parse a Codex usage update: invalid type: null")
        }
        Ok(_) => panic!("expected an error"),
    }
}

#[test]
fn update_notification_applies_its_bucket() {
    let outcome = handle_server_message(ServerMessage {
        method: Some("account/rateLimits/updated".to_string()),
        params: Ok(RateLimitsUpdatedParams { rate_limits: bucket(8) }),
        ..message()
    });
    assert!(matches!(outcome, Ok(Some(b)) if b == bucket(8)));
}

#[test]
fn other_messages_are_ignored() {
    let outcome = handle_server_message(ServerMessage {
        method: Some("thread/started".to_string()),
        params: Ok(RateLimitsUpdatedParams { rate_limits: bucket(9) }),
        ..message()
    });
    assert!(matches!(outcome, Ok(None)));
    assert!(matches!(handle_server_message(ServerMessage { id: Some(4), ..message() }), Ok(None)));
}

#[test]
fn handshake_then_reads_with_increasing_ids() {
    let (mut session, first) = Session::start();
    assert_eq!(first, Request::Initialize);
    assert!(!session.running);

    // A notification before the handshake is skipped, even a usage update.
    let early = session.on_line(LineEvent::Message(ServerMessage {
        method: Some("account/rateLimits/updated".to_string()),
        params: Ok(RateLimitsUpdatedParams { rate_limits: bucket(1) }),
        ..message()
    }));
    assert!(matches!(early, Ok(SessionStep::Continue)));
    assert!(!session.running);

    let ready = session.on_line(LineEvent::Message(ServerMessage { id: Some(0), ..message() }));
    assert!(matches!(ready, Ok(SessionStep::Ready { read_request_id: 1, init_result: None })));
    assert!(session.running);

    assert_eq!(session.on_refresh(), Request::ReadRateLimits { id: 2 });
    assert_eq!(session.on_refresh(), Request::ReadRateLimits { id: 3 });
    assert_eq!(session.last_request_id, 3);

    let applied = session.on_line(LineEvent::Message(ServerMessage {
        method: Some("account/rateLimits/updated".to_string()),
        params: Ok(RateLimitsUpdatedParams { rate_limits: bucket(2) }),
        ..message()
    }));
    assert!(matches!(applied, Ok(SessionStep::Apply(b)) if b == bucket(2)));
}

#[test]
fn rejected_initialization_ends_the_session() {
    let (mut session, _) = Session::start();
    let step = session.on_line(LineEvent::Message(ServerMessage {
        id: Some(0),
        error: Some("\"nope\"".to_string()),
        ..message()
    }));
    match step {
        Err(e) => assert_eq!(e.message(), "Codex App Server rejected initialization: \"nope\""),
        Ok(_) => panic!("expected an error"),
    }
}

#[test]
fn stream_failures_depend_on_phase() {
    let (mut session, _) = Session::start();
    match session.on_line(LineEvent::Closed) {
        Err(e) => assert_eq!(e.message(), "Codex App Server stopped during initialization"),
        Ok(_) => panic!("expected an error"),
    }
    session.on_line(LineEvent::Message(ServerMessage { id: Some(0), ..message() })).ok();
    match session.on_line(LineEvent::Closed) {
        Err(e) => assert_eq!(e.message(), "Codex App Server stopped"),
        Ok(_) => panic!("expected an error"),
    }
    match session.on_line(LineEvent::InvalidJson("EOF while parsing".to_string())) {
        Err(e) => assert_eq!(e.message(), "Codex App Server returned invalid JSON: EOF while parsing"),
        Ok(_) => panic!("expected an error"),
    }
    match session.on_line(LineEvent::ReadFailed("broken pipe".to_string())) {
        Err(e) => assert_eq!(e.message(), "Could not read Codex App Server output: broken pipe"),
        Ok(_) => panic!("expected an error"),
    }
}

#[test]
fn error_messages_read_as_shown() {
    let spawn = SessionError::SpawnFailed {
        binary: "codex".to_string(),
        detail: "No such file or directory (os error 2)".to_string(),
    };
    assert_eq!(
        spawn.message(),
        "Could not start Codex App Server at codex: No such file or directory (os error 2)"
    );
    assert_eq!(SessionError::StdinUnavailable.message(), "Codex App Server stdin was unavailable");
    assert_eq!(SessionError::StdoutUnavailable.message(), "Codex App Server stdout was unavailable");
    assert_eq!(SessionError::InitTimedOut.message(), "Codex App Server initialization timed out");
    assert_eq!(
        SessionError::SerializeFailed("x".to_string()).message(),
        "Could not serialize an App Server request: x"
    );
    assert_eq!(
        SessionError::WriteFailed("y".to_string()).message(),
        "Could not write to Codex App Server: y"
    );
    assert_eq!(
        SessionError::FlushFailed("z".to_string()).message(),
        "Could not flush Codex App Server input: z"
    );
}

#[test]
fn accepted_initialize_hands_back_its_result() {
    let (mut session, _) = Session::start();
    let skipped = session.on_line(LineEvent::Message(ServerMessage {
        method: Some("thread/started".to_string()),
        ..message()
    }));
    assert!(matches!(skipped, Ok(SessionStep::Continue)));
    let other_id = session.on_line(LineEvent::Message(ServerMessage {
        id: Some(1),
        result_text: Some("5".to_string()),
        ..message()
    }));
    assert!(matches!(other_id, Ok(SessionStep::Continue)));
    assert!(!session.running);
    let ready = session.on_line(LineEvent::Message(ServerMessage {
        id: Some(0),
        result_text: Some("{\"a\":1}".to_string()),
        ..message()
    }));
    assert_eq!(
        ready.ok(),
        Some(SessionStep::Ready { read_request_id: 1, init_result: Some("{\"a\":1}".to_string()) })
    );
    assert!(session.running);
}
