use ssh_clipboard::codec::{decode_response, encode_request, encode_response};
use ssh_clipboard::protocol::{ErrorCode, Request, RequestKind, Response, ResponseKind};
use ssh_clipboard::proxy::{
    daemon_down_reply, map_error_code, request_id_from_payload, response_bound,
    response_exit_code, unreadable_request_reply, ConnectAction, ConnectEvent, ConnectFailure, ConnectPlan,
    EXIT_DAEMON_NOT_RUNNING,
};

#[test]
fn exit_codes_follow_error_codes() {
    assert_eq!(map_error_code(ErrorCode::InvalidRequest), 2);
    assert_eq!(map_error_code(ErrorCode::InvalidUtf8), 2);
    assert_eq!(map_error_code(ErrorCode::VersionMismatch), 2);
    assert_eq!(map_error_code(ErrorCode::PayloadTooLarge), 3);
    assert_eq!(map_error_code(ErrorCode::DaemonNotRunning), 4);
    assert_eq!(map_error_code(ErrorCode::Internal), 5);
}

#[test]
fn response_exit_code_reads_the_payload() {
    let ok = encode_response(&Response { request_id: 1, kind: ResponseKind::Success });
    assert_eq!(response_exit_code(&ok), 0);
    let err = encode_response(&Response {
        request_id: 1,
        kind: ResponseKind::Error { code: ErrorCode::PayloadTooLarge, message: "x".to_string() },
    });
    assert_eq!(response_exit_code(&err), 3);
    assert_eq!(response_exit_code(&[1, 77]), 5);
}

#[test]
fn daemon_down_reply_carries_request_id() {
    let request = encode_request(&Request { request_id: 77, kind: RequestKind::Get });
    assert_eq!(request_id_from_payload(&request), 77);
    let reply = daemon_down_reply(&request, "daemon not running".to_string());
    let response = decode_response(&reply).unwrap();
    assert_eq!(response.request_id, 77);
    match response.kind {
        ResponseKind::Error { code, message } => {
            assert_eq!(code, ErrorCode::DaemonNotRunning);
            assert_eq!(message, "daemon not running");
            assert_eq!(map_error_code(code), EXIT_DAEMON_NOT_RUNNING);
        }
        other => panic!("unexpected response: {other:?}"),
    }
    let reply = daemon_down_reply(&[0xff], "down".to_string());
    assert_eq!(decode_response(&reply).unwrap().request_id, 0);
}

#[test]
fn response_bound_adds_overhead() {
    assert_eq!(response_bound(256), 1280);
    assert_eq!(response_bound(usize::MAX), usize::MAX);
}

#[test]
fn autostart_attempts_on_first_failure() {
    let mut plan = ConnectPlan::new(true);
    assert_eq!(plan.on_attempt(ConnectEvent::Refused), ConnectAction::SpawnDaemon);
    assert_eq!(plan.on_spawn(true), ConnectAction::Retry);
    assert_eq!(plan.on_attempt(ConnectEvent::Refused), ConnectAction::Retry);
    assert_eq!(
        plan.on_attempt(ConnectEvent::Refused),
        ConnectAction::GiveUp(ConnectFailure::Failed)
    );
    assert_eq!(plan.attempts, 3);
}

#[test]
fn without_autostart_first_failure_ends() {
    let mut plan = ConnectPlan::new(false);
    assert_eq!(
        plan.on_attempt(ConnectEvent::Refused),
        ConnectAction::GiveUp(ConnectFailure::Failed)
    );
    let mut plan = ConnectPlan::new(false);
    assert_eq!(
        plan.on_attempt(ConnectEvent::TimedOut),
        ConnectAction::GiveUp(ConnectFailure::Timeout)
    );
    let mut plan = ConnectPlan::new(false);
    assert_eq!(plan.on_attempt(ConnectEvent::Connected), ConnectAction::Proceed);
}

#[test]
fn failed_spawn_gives_up() {
    let mut plan = ConnectPlan::new(true);
    assert_eq!(plan.on_attempt(ConnectEvent::Refused), ConnectAction::SpawnDaemon);
    assert_eq!(plan.on_spawn(false), ConnectAction::GiveUp(ConnectFailure::AutostartFailed));
}

#[test]
fn unreadable_request_gets_internal_reply() {
    let (reply, code) = unreadable_request_reply("invalid request frame: invalid magic".to_string());
    assert_eq!(code, 5);
    let response = decode_response(&reply).unwrap();
    assert_eq!(response.request_id, 0);
    assert_eq!(
        response.kind,
        ResponseKind::Error {
            code: ErrorCode::Internal,
            message: "invalid request frame: invalid magic".to_string(),
        }
    );
    let (reply, code) = unreadable_request_reply("timed out".to_string());
    assert_eq!(code, 5);
    assert_eq!(decode_response(&reply).unwrap().request_id, 0);
}
