use ssh_clipboard::codec::{decode_request, encode_request, encode_response};
use ssh_clipboard::framing::{encode_frame, parse_frame, parse_frame_resync, FrameRead, FramingError};
use ssh_clipboard::protocol::{Request, RequestKind, Response, ResponseKind, MAGIC, RESPONSE_OVERHEAD, VERSION};

fn payload_of(read: FrameRead) -> Vec<u8> {
    match read {
        FrameRead::Complete(r) => r.payload,
        other => panic!("unexpected read: {other:?}"),
    }
}

fn error_of(read: FrameRead) -> FramingError {
    match read {
        FrameRead::Failed(e) => e,
        other => panic!("unexpected read: {other:?}"),
    }
}

#[test]
fn round_trip_frame() {
    let request = Request { request_id: 1, kind: RequestKind::Get };
    let payload = encode_request(&request);
    let frame = encode_frame(&payload);
    let received = payload_of(parse_frame(&frame, 1024));
    let decoded = decode_request(&received).unwrap();
    assert!(matches!(decoded.kind, RequestKind::Get));
}

#[test]
fn rejects_oversized_payload() {
    let response = Response { request_id: 1, kind: ResponseKind::Success };
    let payload = encode_response(&response);
    let frame = encode_frame(&payload);
    assert!(matches!(parse_frame(&frame, 0), FrameRead::Failed(_)));
}

#[test]
fn rejects_invalid_magic() {
    let mut bytes = b"BAD!".to_vec();
    bytes.extend_from_slice(&VERSION.to_le_bytes());
    bytes.extend_from_slice(&0u32.to_le_bytes());
    assert_eq!(error_of(parse_frame(&bytes, 16)), FramingError::InvalidMagic);
}

#[test]
fn rejects_unsupported_version() {
    let mut bytes = MAGIC.to_vec();
    bytes.extend_from_slice(&(VERSION + 1).to_le_bytes());
    bytes.extend_from_slice(&0u32.to_le_bytes());
    assert!(matches!(
        error_of(parse_frame(&bytes, 16)),
        FramingError::UnsupportedVersion(_)
    ));
}

#[test]
fn resync_skips_garbage_prefix() {
    let request = Request { request_id: 9, kind: RequestKind::Get };
    let payload = encode_request(&request);
    let mut bytes = b"garbage!".to_vec();
    bytes.extend_from_slice(&encode_frame(&payload));
    match parse_frame_resync(&bytes, 1024, 64) {
        FrameRead::Complete(result) => {
            let decoded = decode_request(&result.payload).unwrap();
            assert!(matches!(decoded.kind, RequestKind::Get));
            assert!(result.discarded_bytes >= 8);
        }
        other => panic!("unexpected read: {other:?}"),
    }
}

#[test]
fn resync_fails_when_strict() {
    let request = Request { request_id: 9, kind: RequestKind::Get };
    let payload = encode_request(&request);
    let mut bytes = b"noise".to_vec();
    bytes.extend_from_slice(&encode_frame(&payload));
    assert_eq!(error_of(parse_frame(&bytes, 1024)), FramingError::InvalidMagic);
}

#[test]
fn frame_round_trip_random() {
    let mut seed: u32 = 12345;
    for len in [0usize, 1, 2, 7, 63, 255, 256, 511] {
        let payload: Vec<u8> = (0..len)
            .map(|_| {
                seed = seed.wrapping_mul(1_103_515_245).wrapping_add(12_345);
                (seed >> 16) as u8
            })
            .collect();
        let frame = encode_frame(&payload);
        assert_eq!(payload_of(parse_frame(&frame, 4096)), payload);
    }
}

#[test]
fn frame_rejects_payload_over_max() {
    for len in [1usize, 2, 100, 511] {
        let payload = vec![7u8; len];
        let frame = encode_frame(&payload);
        assert_eq!(
            error_of(parse_frame(&frame, len - 1)),
            FramingError::PayloadTooLarge(len as u32)
        );
        assert_eq!(
            error_of(parse_frame(&frame[..10], len - 1)),
            FramingError::PayloadTooLarge(len as u32)
        );
    }
}

#[test]
fn resync_past_motd_banner() {
    let get = encode_request(&Request { request_id: 2, kind: RequestKind::Get });
    let mut bytes = b"MOTD-line\n".to_vec();
    bytes.extend_from_slice(&encode_frame(&get));
    match parse_frame_resync(&bytes, 1024, 16) {
        FrameRead::Complete(result) => {
            assert_eq!(result.payload, get);
            assert_eq!(result.discarded_bytes, 10);
        }
        other => panic!("unexpected read: {other:?}"),
    }
    assert_eq!(error_of(parse_frame(&bytes, 1024)), FramingError::InvalidMagic);
}

#[test]
fn resync_gives_up_past_scan_cap() {
    let get = encode_request(&Request { request_id: 2, kind: RequestKind::Get });
    let mut bytes = vec![b'x'; 40];
    bytes.extend_from_slice(&encode_frame(&get));
    assert_eq!(error_of(parse_frame_resync(&bytes, 1024, 8)), FramingError::MagicNotFound);
}

#[test]
fn partial_input_asks_for_exactly_what_is_missing() {
    let frame = encode_frame(b"hello");
    assert_eq!(parse_frame(&frame[..0], 16), FrameRead::NeedMore(4));
    assert_eq!(parse_frame(&frame[..4], 16), FrameRead::NeedMore(2));
    assert_eq!(parse_frame(&frame[..6], 16), FrameRead::NeedMore(4));
    assert_eq!(parse_frame(&frame[..12], 16), FrameRead::NeedMore(3));
    assert_eq!(parse_frame_resync(b"xy", 16, 8), FrameRead::NeedMore(2));
}

#[test]
fn frame_header_layout() {
    let frame = encode_frame(&[1, 2, 3]);
    assert_eq!(frame, vec![0x53, 0x43, 0x42, 0x31, 2, 0, 3, 0, 0, 0, 1, 2, 3]);
}

#[test]
fn accepts_response_slightly_over_max_size() {
    let max_size = 256usize;
    let payload = vec![0u8; max_size + 1];
    let frame = encode_frame(&payload);
    let received = payload_of(parse_frame(&frame, max_size + RESPONSE_OVERHEAD));
    assert_eq!(received.len(), max_size + 1);
}
