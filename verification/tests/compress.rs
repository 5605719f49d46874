use rylus::compress::{
    compress_text, decompress_text, is_compressed_frame, strip_compression_prefix, COMPRESSED_FRAME_PREFIX,
};

const SMALL_JSON: &str = r#"{"type":"Heartbeat"}"#;
const LARGER_JSON: &str = r#"{"type":"PointerEvent","data":{"x":123.456,"y":789.012,"pressure":0.5,"buttons":1,"pointerType":"pen","tiltX":0,"tiltY":0}}{"type":"PointerEvent","data":{"x":124.0,"y":789.5,"pressure":0.6,"buttons":1,"pointerType":"pen","tiltX":1,"tiltY":2}}"#;

#[test]
fn is_compressed_frame_detects_prefix() {
    let mut data = vec![COMPRESSED_FRAME_PREFIX, 0x78, 0x9C];
    assert!(is_compressed_frame(&data));
    data[0] = 0x00;
    assert!(!is_compressed_frame(&data));
    assert!(!is_compressed_frame(&[]));
}

#[test]
fn strip_compression_prefix_removes_prefix_byte() {
    let data = vec![COMPRESSED_FRAME_PREFIX, 0xAA, 0xBB, 0xCC];
    assert_eq!(strip_compression_prefix(&data), &[0xAA, 0xBB, 0xCC]);
}

#[test]
fn strip_compression_prefix_passthrough_when_uncompressed() {
    let data = vec![0x00, 0xAA, 0xBB];
    assert_eq!(strip_compression_prefix(&data), &[0x00, 0xAA, 0xBB]);
}

#[test]
fn compression_prefix_byte_does_not_conflict_with_json_start() {
    assert_ne!(COMPRESSED_FRAME_PREFIX, b'{');
    assert_ne!(COMPRESSED_FRAME_PREFIX, b'[');
    assert_ne!(COMPRESSED_FRAME_PREFIX, b'"');
    assert_ne!(COMPRESSED_FRAME_PREFIX, b' ');
}

#[test]
fn compress_decompress_roundtrip_small_json() {
    let data = SMALL_JSON.as_bytes();
    let compressed = compress_text(data);
    assert!(compressed.len() > 1);
    assert_eq!(compressed[0], COMPRESSED_FRAME_PREFIX);
    let decompressed = decompress_text(&compressed[1..]).expect("decompress should succeed");
    assert_eq!(decompressed, data);
}

#[test]
fn compress_decompress_roundtrip_larger_json() {
    let data = LARGER_JSON.as_bytes();
    let compressed = compress_text(data);
    assert!(compressed.len() < data.len(), "compressed {} < data {}", compressed.len(), data.len());
    let decompressed = decompress_text(&compressed[1..]).expect("decompress should succeed");
    assert_eq!(decompressed, data);
}

#[test]
fn compressed_frame_has_valid_prefix() {
    let compressed = compress_text(b"hello");
    assert!(is_compressed_frame(&compressed));
}

#[test]
fn highly_repetitive_data_compresses_below_ten_percent() {
    let repetitive = "A".repeat(10_000);
    let compressed = compress_text(repetitive.as_bytes());
    assert!(compressed.len() < repetitive.len() / 10, "repetitive data should compress to <10%");
    let decompressed = decompress_text(&compressed[1..]).expect("decompress should succeed");
    assert_eq!(decompressed, repetitive.as_bytes());
}

#[test]
fn decompress_invalid_data_returns_error() {
    assert!(decompress_text(&[0xFF, 0xFE, 0xFD, 0xFC]).is_err());
}

#[test]
fn decompress_empty_input_does_not_panic() {
    let _ = decompress_text(&[]);
}

#[test]
fn realistic_protocol_messages_roundtrip() {
    let messages = vec![
        r#"{"Hello":{"version":"0.17.0"}}"#,
        r#"{"PointerEvent":{"x":100.5,"y":200.3,"pressure":0.75,"buttons":1}}"#,
        r#"{"BatchedPointerEvents":[{"x":1,"y":2},{"x":3,"y":4},{"x":5,"y":6},{"x":7,"y":8},{"x":9,"y":10}]}"#,
        r#"{"KeyboardEvent":{"code":"KeyA","key":"a","type":"keydown","modifiers":0}}"#,
    ];
    for msg in &messages {
        let data = msg.as_bytes();
        let compressed = compress_text(data);
        let decompressed = decompress_text(&compressed[1..]).expect("decompress should succeed");
        assert_eq!(decompressed, data, "roundtrip failed for: {msg}");
        assert!(compressed.len() < data.len() * 2, "compressed shouldn't be >2x data");
    }
}

#[test]
fn compressed_payload_is_not_the_input() {
    let data = b"abcabcabcabcabcabcabcabc";
    let compressed = compress_text(data);
    assert_ne!(&compressed[1..], &data[..]);
    assert_eq!(strip_compression_prefix(&compressed), &compressed[1..]);
}

#[test]
fn compressing_empty_input_gives_a_non_empty_stream() {
    let compressed = compress_text(b"");
    assert!(compressed.len() > 1);
    assert_eq!(decompress_text(&compressed[1..]).expect("decompress should succeed"), Vec::<u8>::new());
}
