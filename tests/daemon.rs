use ssh_clipboard::codec::{decode_response, encode_request};
use ssh_clipboard::daemon::{
    framing_error_response, peer_rejection, peer_uid_matches, read_failure_response,
    socket_path_for, to_error_response, validate_set, ClipboardState, DaemonError,
};
use ssh_clipboard::framing::FramingError;
use ssh_clipboard::protocol::{
    ClipboardValue, ErrorCode, Request, RequestKind, Response, ResponseKind, CONTENT_TYPE_PNG,
    CONTENT_TYPE_TEXT,
};

fn text_value(data: &[u8], created_at: i64) -> ClipboardValue {
    ClipboardValue {
        content_type: CONTENT_TYPE_TEXT.to_string(),
        data: data.to_vec(),
        created_at,
    }
}

fn set(id: u64, value: ClipboardValue) -> Request {
    Request { request_id: id, kind: RequestKind::SetValue { value } }
}

fn error_code(response: &Response) -> ErrorCode {
    match &response.kind {
        ResponseKind::Error { code, .. } => *code,
        other => panic!("unexpected response: {other:?}"),
    }
}

#[test]
fn validate_set_rejects_invalid_utf8() {
    let value = text_value(&[0xff, 0xfe], 0);
    let err = validate_set(&value, 1024).unwrap_err();
    assert!(matches!(err, DaemonError::InvalidUtf8));
}

#[test]
fn validate_set_rejects_invalid_content_type() {
    let value = ClipboardValue {
        content_type: "application/octet-stream".to_string(),
        data: vec![1, 2, 3],
        created_at: 0,
    };
    let err = validate_set(&value, 1024).unwrap_err();
    assert!(matches!(err, DaemonError::InvalidContentType));
}

#[test]
fn validate_set_rejects_oversize() {
    let value = text_value(&[b'a'; 5], 0);
    let err = validate_set(&value, 4).unwrap_err();
    assert!(matches!(err, DaemonError::PayloadTooLarge));
}

#[test]
fn validate_set_accepts_png_without_utf8_check() {
    let value = ClipboardValue {
        content_type: CONTENT_TYPE_PNG.to_string(),
        data: vec![0x89, 0xff, 0xfe],
        created_at: 0,
    };
    assert!(validate_set(&value, 3).is_ok());
    assert_eq!(validate_set(&value, 2), Err(DaemonError::PayloadTooLarge));
}

#[test]
fn handle_request_preserves_request_id() {
    let mut state = ClipboardState::new(1024);
    let request = Request { request_id: 7, kind: RequestKind::Get };
    let response = state.handle_request(request);
    assert_eq!(response.request_id, 7);
}

#[test]
fn peer_uid_match_helper() {
    assert!(peer_uid_matches(1000, 1000));
    assert!(!peer_uid_matches(1001, 1000));
}

#[test]
fn peer_with_other_uid_is_turned_away() {
    assert!(peer_rejection(1000, 1000).is_none());
    let response = peer_rejection(1001, 1000).unwrap();
    assert_eq!(response.request_id, 0);
    assert_eq!(
        response.kind,
        ResponseKind::Error {
            code: ErrorCode::InvalidRequest,
            message: "peer credential check failed".to_string(),
        }
    );
}

#[test]
fn set_then_get_then_peek() {
    let mut state = ClipboardState::new(1024);
    let response = state.handle_request(set(1, text_value(b"hello", 123)));
    assert_eq!(response, Response { request_id: 1, kind: ResponseKind::Success });
    let response = state.handle_request(Request { request_id: 2, kind: RequestKind::Get });
    assert_eq!(
        response,
        Response { request_id: 2, kind: ResponseKind::Value { value: text_value(b"hello", 123) } }
    );
    let response = state.handle_request(Request { request_id: 3, kind: RequestKind::PeekMeta });
    assert_eq!(
        response,
        Response {
            request_id: 3,
            kind: ResponseKind::Meta {
                content_type: CONTENT_TYPE_TEXT.to_string(),
                size: 5,
                created_at: 123,
            },
        }
    );
}

#[test]
fn empty_store_answers_empty() {
    let mut state = ClipboardState::new(1024);
    let response = state.handle_request(Request { request_id: 4, kind: RequestKind::Get });
    assert_eq!(response.kind, ResponseKind::Empty);
    let response = state.handle_request(Request { request_id: 5, kind: RequestKind::PeekMeta });
    assert_eq!(response.kind, ResponseKind::Empty);
}

#[test]
fn oversize_set_keeps_prior_value() {
    let mut state = ClipboardState::new(4);
    state.handle_request(set(1, text_value(b"hey", 1)));
    let response = state.handle_request(set(2, text_value(b"hello", 2)));
    assert_eq!(error_code(&response), ErrorCode::PayloadTooLarge);
    let response = state.handle_request(Request { request_id: 3, kind: RequestKind::Get });
    assert_eq!(response.kind, ResponseKind::Value { value: text_value(b"hey", 1) });
}

#[test]
fn invalid_utf8_set_is_refused() {
    let mut state = ClipboardState::new(1024);
    let response = state.handle_request(set(1, text_value(&[0xff, 0xfe], 0)));
    assert_eq!(error_code(&response), ErrorCode::InvalidUtf8);
    assert!(state.value().is_none());
}

#[test]
fn unknown_content_type_is_refused() {
    let mut state = ClipboardState::new(1024);
    let value = ClipboardValue {
        content_type: "application/octet-stream".to_string(),
        data: vec![1, 2, 3],
        created_at: 0,
    };
    let response = state.handle_request(set(1, value));
    assert_eq!(
        response.kind,
        ResponseKind::Error {
            code: ErrorCode::InvalidRequest,
            message: "invalid content type".to_string(),
        }
    );
}

#[test]
fn later_accepted_set_wins() {
    let mut state = ClipboardState::new(1024);
    state.handle_request(set(1, text_value(b"one", 1)));
    state.handle_request(set(2, text_value(b"two", 2)));
    let bad = ClipboardValue { content_type: "x".to_string(), data: vec![], created_at: 3 };
    state.handle_request(set(3, bad));
    let response = state.handle_request(Request { request_id: 4, kind: RequestKind::Get });
    assert_eq!(response.kind, ResponseKind::Value { value: text_value(b"two", 2) });
}

#[test]
fn payload_that_does_not_decode_gets_invalid_request() {
    let mut state = ClipboardState::new(1024);
    let reply = state.respond_to_payload(&[9, 200]);
    let response = decode_response(&reply).unwrap();
    assert_eq!(response.request_id, 0);
    assert_eq!(error_code(&response), ErrorCode::InvalidRequest);
    let reply = state.respond_to_payload(&encode_request(&set(8, text_value(b"x", 1))));
    assert_eq!(
        decode_response(&reply).unwrap(),
        Response { request_id: 8, kind: ResponseKind::Success }
    );
}

#[test]
fn framing_errors_map_to_codes() {
    let cases = [
        (FramingError::InvalidMagic, ErrorCode::InvalidRequest),
        (FramingError::MagicNotFound, ErrorCode::InvalidRequest),
        (FramingError::UnsupportedVersion(3), ErrorCode::VersionMismatch),
        (FramingError::PayloadTooLarge(99), ErrorCode::PayloadTooLarge),
    ];
    for (err, code) in cases {
        let response = framing_error_response(&err, 0);
        assert_eq!(response.request_id, 0);
        assert_eq!(error_code(&response), code);
    }
    match framing_error_response(&FramingError::UnsupportedVersion(3), 0).kind {
        ResponseKind::Error { message, .. } => {
            assert_eq!(message, "version mismatch: unsupported version 3")
        }
        other => panic!("unexpected response: {other:?}"),
    }
}

#[test]
fn daemon_errors_map_to_replies() {
    assert_eq!(
        to_error_response(DaemonError::InvalidUtf8),
        ResponseKind::Error { code: ErrorCode::InvalidUtf8, message: "invalid utf-8".to_string() }
    );
    assert_eq!(
        to_error_response(DaemonError::PayloadTooLarge),
        ResponseKind::Error {
            code: ErrorCode::PayloadTooLarge,
            message: "payload too large".to_string(),
        }
    );
}

#[test]
fn socket_path_selection_order() {
    assert_eq!(
        socket_path_for(Some("/run/user/1000"), Some("/var/tmp"), 1000),
        "/run/user/1000/ssh_clipboard/daemon.sock"
    );
    assert_eq!(
        socket_path_for(None, Some("/var/tmp/"), 1000),
        "/var/tmp/ssh_clipboard-1000/daemon.sock"
    );
    assert_eq!(socket_path_for(None, None, 0), "/tmp/ssh_clipboard-0/daemon.sock");
}

#[test]
fn read_failures_become_error_replies() {
    let response = read_failure_response(Some(FramingError::PayloadTooLarge(20)), String::new());
    assert_eq!(
        response,
        Response {
            request_id: 0,
            kind: ResponseKind::Error {
                code: ErrorCode::PayloadTooLarge,
                message: "payload too large: 20 bytes".to_string(),
            },
        }
    );
    let response = read_failure_response(None, "read timeout".to_string());
    assert_eq!(error_code(&response), ErrorCode::Internal);
}
