use ibapi::frame::{decode_body, decode_frame, encode_body, encode_frame, FrameError};

fn strings(items: &[&str]) -> Vec<String> {
    items.iter().map(|s| s.to_string()).collect()
}

#[test]
fn frame_round_trip_keeps_fields() {
    let fields = strings(&["15", "1", "DU1111111,", "", "ünïcødé €"]);
    let frame = encode_frame(&fields).unwrap();
    assert_eq!(decode_frame(&frame).unwrap(), fields);
}

#[test]
fn frame_has_big_endian_length_prefix() {
    let frame = encode_frame(&strings(&["9", "1", "100"])).unwrap();
    assert_eq!(frame, vec![0, 0, 0, 7, b'9', 0, b'1', 0, b'1', b'0', b'0']);
}

#[test]
fn single_empty_field_round_trips() {
    let fields = strings(&[""]);
    let frame = encode_frame(&fields).unwrap();
    assert_eq!(frame, vec![0, 0, 0, 0]);
    assert_eq!(decode_frame(&frame).unwrap(), fields);
}

#[test]
fn body_splits_on_each_nul() {
    let body = b"a\0\0b\0".to_vec();
    assert_eq!(decode_body(&body).unwrap(), strings(&["a", "", "b", ""]));
    assert_eq!(encode_body(&strings(&["a", "", "b", ""])), body);
}

#[test]
fn short_frame_is_truncated() {
    assert_eq!(decode_frame(&vec![0, 0, 1]), Err(FrameError::Truncated));
}

#[test]
fn wrong_length_prefix_is_refused() {
    assert_eq!(decode_frame(&vec![0, 0, 0, 5, b'a']), Err(FrameError::LengthMismatch));
}

#[test]
fn invalid_utf8_is_refused() {
    assert_eq!(decode_frame(&vec![0, 0, 0, 2, 0xff, 0xfe]), Err(FrameError::InvalidUtf8));
    assert_eq!(decode_body(&vec![b'a', 0, 0xc3]), Err(FrameError::InvalidUtf8));
}
