use ssh_clipboard::local_clipboard::{decode_png, encode_png, write_image, RgbaImage};

fn sample_image() -> (RgbaImage, Vec<u8>) {
    let bytes = vec![255, 0, 0, 255, 0, 255, 0, 255, 0, 0, 255, 255, 255, 255, 0, 255];
    let image = RgbaImage { width: 2, height: 2, bytes: bytes.clone() };
    (image, bytes)
}

#[test]
fn encode_decode_round_trip() {
    let (image, pixel_bytes) = sample_image();
    let png = encode_png(image).unwrap();
    let decoded = decode_png(&png, 1024).unwrap();
    assert_eq!(decoded.width, 2);
    assert_eq!(decoded.height, 2);
    assert_eq!(decoded.bytes, pixel_bytes);
}

#[test]
fn decode_rejects_oversize() {
    let (image, _) = sample_image();
    let png = encode_png(image).unwrap();
    let err = decode_png(&png, 1).unwrap_err();
    assert!(err.contains("too large"));
    assert!(decode_png(&png, 15).is_err());
    assert!(decode_png(&png, 16).is_ok());
}

#[test]
fn decode_rejects_invalid_png() {
    let err = decode_png(b"not a png", 1024).unwrap_err();
    assert!(err.contains("png decode failed"));
}

#[test]
fn encode_refuses_wrong_byte_count() {
    let image = RgbaImage { width: 2, height: 2, bytes: vec![0; 15] };
    assert_eq!(encode_png(image).unwrap_err(), "invalid image buffer");
}

#[test]
fn writing_a_malformed_image_is_refused_first() {
    let image = RgbaImage { width: 3, height: 1, bytes: vec![0; 8] };
    assert_eq!(write_image(image).unwrap_err(), "invalid image buffer");
}
