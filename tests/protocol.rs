use ssh_clipboard::codec::{decode_request, decode_response, encode_request, encode_response};
use ssh_clipboard::protocol::{
    ClipboardValue, ErrorCode, Request, RequestKind, Response, ResponseKind, CONTENT_TYPE_PNG,
    CONTENT_TYPE_TEXT,
};

const REQUEST_V2_SET_FIXTURE: &[u8] = &[
    42, 0, 25, 116, 101, 120, 116, 47, 112, 108, 97, 105, 110, 59, 32, 99, 104, 97, 114, 115, 101,
    116, 61, 117, 116, 102, 45, 56, 5, 104, 101, 108, 108, 111, 246,
];

const RESPONSE_V2_ERROR_FIXTURE: &[u8] = &[7, 4, 1, 7, 116, 111, 111, 32, 98, 105, 103];

fn text_set_request(id: u64) -> Request {
    Request {
        request_id: id,
        kind: RequestKind::SetValue {
            value: ClipboardValue {
                content_type: CONTENT_TYPE_TEXT.to_string(),
                data: b"hello".to_vec(),
                created_at: 123,
            },
        },
    }
}

#[test]
fn request_round_trip_codec() {
    let request = text_set_request(42);
    let payload = encode_request(&request);
    let decoded = decode_request(&payload).unwrap();
    assert_eq!(decoded.request_id, 42);
    match decoded.kind {
        RequestKind::SetValue { value } => {
            assert_eq!(value.content_type, CONTENT_TYPE_TEXT);
            assert_eq!(value.data, b"hello");
            assert_eq!(value.created_at, 123);
        }
        other => panic!("unexpected request kind: {other:?}"),
    }
}

#[test]
fn response_round_trip_codec() {
    let response = Response {
        request_id: 7,
        kind: ResponseKind::Meta {
            content_type: CONTENT_TYPE_PNG.to_string(),
            size: 999,
            created_at: 456,
        },
    };
    let payload = encode_response(&response);
    let decoded = decode_response(&payload).unwrap();
    assert_eq!(decoded.request_id, 7);
    match decoded.kind {
        ResponseKind::Meta { content_type, size, created_at } => {
            assert_eq!(content_type, CONTENT_TYPE_PNG);
            assert_eq!(size, 999);
            assert_eq!(created_at, 456);
        }
        other => panic!("unexpected response kind: {other:?}"),
    }
}

#[test]
fn request_wire_fixture_is_stable() {
    let request = text_set_request(42);
    let payload = encode_request(&request);
    assert_eq!(payload, REQUEST_V2_SET_FIXTURE);
    let decoded = decode_request(REQUEST_V2_SET_FIXTURE).unwrap();
    assert_eq!(decoded.request_id, 42);
}

#[test]
fn response_wire_fixture_is_stable() {
    let response = Response {
        request_id: 7,
        kind: ResponseKind::Error {
            code: ErrorCode::PayloadTooLarge,
            message: "too big".to_string(),
        },
    };
    let payload = encode_response(&response);
    assert_eq!(payload, RESPONSE_V2_ERROR_FIXTURE);
    let decoded = decode_response(RESPONSE_V2_ERROR_FIXTURE).unwrap();
    assert_eq!(decoded.request_id, 7);
    assert_eq!(decoded, response);
}

#[test]
fn codec_rejects_truncated_payload() {
    let request = Request { request_id: 1, kind: RequestKind::Get };
    let mut payload = encode_request(&request);
    payload.pop();
    assert!(decode_request(&payload).is_none());
}

#[test]
fn every_request_kind_round_trips() {
    let requests = vec![
        text_set_request(0),
        text_set_request(u64::MAX),
        Request { request_id: 250, kind: RequestKind::Get },
        Request { request_id: 251, kind: RequestKind::PeekMeta },
        Request { request_id: 70_000, kind: RequestKind::Get },
        Request { request_id: 5_000_000_000, kind: RequestKind::PeekMeta },
        Request {
            request_id: 3,
            kind: RequestKind::SetValue {
                value: ClipboardValue {
                    content_type: "image/png".to_string(),
                    data: vec![0u8; 300],
                    created_at: i64::MIN,
                },
            },
        },
    ];
    for r in requests {
        let bytes = encode_request(&r);
        assert_eq!(decode_request(&bytes), Some(r.clone()));
        let mut longer = bytes.clone();
        longer.extend_from_slice(&[9, 9, 9]);
        assert_eq!(decode_request(&longer), Some(r));
    }
}

#[test]
fn every_response_kind_round_trips() {
    let responses = vec![
        Response { request_id: 1, kind: ResponseKind::Success },
        Response { request_id: 2, kind: ResponseKind::Empty },
        Response {
            request_id: 3,
            kind: ResponseKind::Value {
                value: ClipboardValue {
                    content_type: CONTENT_TYPE_TEXT.to_string(),
                    data: "héllo wörld".as_bytes().to_vec(),
                    created_at: -5,
                },
            },
        },
        Response {
            request_id: 4,
            kind: ResponseKind::Meta {
                content_type: CONTENT_TYPE_TEXT.to_string(),
                size: 1 << 40,
                created_at: i64::MAX,
            },
        },
        Response {
            request_id: 5,
            kind: ResponseKind::Error {
                code: ErrorCode::VersionMismatch,
                message: "ünïcode".to_string(),
            },
        },
    ];
    for r in responses {
        let bytes = encode_response(&r);
        assert_eq!(decode_response(&bytes), Some(r));
    }
}

#[test]
fn varint_and_zigzag_layout() {
    let r = Request { request_id: 251, kind: RequestKind::Get };
    assert_eq!(encode_request(&r), vec![251, 251, 0, 1]);
    let r = Request { request_id: 65_536, kind: RequestKind::Get };
    assert_eq!(encode_request(&r), vec![252, 0, 0, 1, 0, 1]);
    let r = Request {
        request_id: 1,
        kind: RequestKind::SetValue {
            value: ClipboardValue {
                content_type: String::new(),
                data: Vec::new(),
                created_at: -1,
            },
        },
    };
    assert_eq!(encode_request(&r), vec![1, 0, 0, 0, 1]);
}

#[test]
fn decode_rejects_unknown_tags_and_bad_utf8() {
    assert!(decode_request(&[1, 3]).is_none());
    assert!(decode_response(&[1, 5]).is_none());
    assert!(decode_response(&[1, 4, 6, 0]).is_none());
    assert!(decode_response(&[1, 4, 0, 1, 0xff]).is_none());
    assert!(decode_request(&[]).is_none());
    assert!(decode_request(&[255]).is_none());
}

#[test]
fn error_code_is_snake_case_in_json() {
    let encoded = format!("\"{}\"", ErrorCode::DaemonNotRunning.snake_case_name());
    assert_eq!(encoded, "\"daemon_not_running\"");
    let encoded = format!("\"{}\"", ErrorCode::VersionMismatch.snake_case_name());
    assert_eq!(encoded, "\"version_mismatch\"");
    assert_eq!(ErrorCode::InvalidUtf8.snake_case_name(), "invalid_utf8");
    assert_eq!(ErrorCode::PayloadTooLarge.snake_case_name(), "payload_too_large");
}
