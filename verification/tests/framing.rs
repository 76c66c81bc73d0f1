//! The length-prefixed framing: exact output, round trips, and the
//! malformed buffers that must be rejected.

use marionette::codec::{read_frame, scan_frame, write_frame, write_frame_bytes, FrameScan};
use marionette::error::MarionetteError;

#[test]
fn write_frame_exact() {
    assert_eq!(write_frame("hello"), b"5:hello".to_vec());
    assert_eq!(write_frame(""), b"0:".to_vec());
}

#[test]
fn write_frame_counts_bytes_not_chars() {
    // two characters, three bytes
    let out = write_frame("h\u{e9}");
    assert_eq!(out, b"3:h\xc3\xa9".to_vec());
}

#[test]
fn frame_roundtrip_ascii() {
    let bytes = write_frame("hello world");
    let (text, used) = read_frame(&bytes).unwrap();
    assert_eq!(text, "hello world");
    assert_eq!(used, bytes.len());
}

#[test]
fn frame_roundtrip_unicode() {
    let s = "caf\u{e9} \u{2603} \u{1f600}";
    let bytes = write_frame(s);
    let (text, used) = read_frame(&bytes).unwrap();
    assert_eq!(text, s);
    assert_eq!(used, bytes.len());
}

#[test]
fn frame_roundtrip_with_trailing_data() {
    let mut bytes = write_frame("abc");
    bytes.extend_from_slice(b"7:ignored");
    let (text, used) = read_frame(&bytes).unwrap();
    assert_eq!(text, "abc");
    assert_eq!(used, 5);
}

#[test]
fn missing_length_prefix_is_error() {
    assert_eq!(read_frame(b"no colon here"), Err(MarionetteError::Frame));
    assert_eq!(read_frame(b""), Err(MarionetteError::Frame));
}

#[test]
fn non_numeric_length_is_error() {
    assert_eq!(read_frame(b"5x:hello"), Err(MarionetteError::Frame));
    assert_eq!(read_frame(b":hello"), Err(MarionetteError::Frame));
    assert_eq!(read_frame(b"-5:hello"), Err(MarionetteError::Frame));
}

#[test]
fn plus_prefixed_length_is_accepted() {
    let (text, used) = read_frame(b"+3:abc").unwrap();
    assert_eq!(text, "abc");
    assert_eq!(used, 6);
}

#[test]
fn truncated_payload_is_error() {
    assert_eq!(read_frame(b"10:abc"), Err(MarionetteError::Frame));
}

#[test]
fn invalid_utf8_payload_is_error() {
    assert_eq!(read_frame(b"2:\xff\xfe"), Err(MarionetteError::Frame));
}

#[test]
fn oversized_length_is_error() {
    assert_eq!(
        read_frame(b"99999999999999999999999999:x"),
        Err(MarionetteError::Frame)
    );
}

#[test]
fn scan_reports_incomplete_buffers() {
    assert_eq!(scan_frame(b"12"), FrameScan::Incomplete);
    assert_eq!(scan_frame(b"5:ab"), FrameScan::Incomplete);
    match scan_frame(b"3:abc") {
        FrameScan::Complete(s, used) => {
            assert_eq!(s, "abc");
            assert_eq!(used, 5);
        }
        other => panic!("expected a complete frame, got {:?}", other),
    }
}

#[test]
fn framing_errors_are_fatal() {
    let err = read_frame(b"bogus").unwrap_err();
    assert!(err.is_fatal());
}

#[test]
fn write_frame_bytes_matches_write_frame() {
    assert_eq!(write_frame_bytes(b"hello"), write_frame("hello"));
}
