use ibapi::handshake::{
    handshake_from, handshake_request, parse_handshake, start_api_request, trim_trailing_non_numeric,
    HandshakeError, Timestamp, MAX_CLIENT_VERSION, MIN_CLIENT_VERSION,
};

fn fields(items: &[&str]) -> Vec<String> {
    items.iter().map(|s| s.to_string()).collect()
}

fn midnight_2023() -> Timestamp {
    Timestamp { year: 2023, month: 1, day: 1, hour: 0, minute: 0, second: 0, nanosecond: 0 }
}

#[test]
fn handshake_scenario_reads_version_and_time() {
    let reply = b"152\x0020230101 00:00:00 UTC".to_vec();
    let h = parse_handshake(&reply).unwrap();
    assert_eq!(h.server_version, 152);
    assert_eq!(h.conn_time, midnight_2023());
}

#[test]
fn handshake_reads_time_of_day() {
    let reply = b"176\x0020240229 13:45:07 EST".to_vec();
    let h = parse_handshake(&reply).unwrap();
    assert_eq!(h.conn_time, Timestamp { year: 2024, month: 2, day: 29, hour: 13, minute: 45, second: 7, nanosecond: 0 });
}

#[test]
fn handshake_errors() {
    assert_eq!(parse_handshake(&b"abc\x0020230101 00:00:00 UTC".to_vec()), Err(HandshakeError::BadVersion));
    assert_eq!(parse_handshake(&b"152".to_vec()), Err(HandshakeError::MissingTime));
    assert_eq!(parse_handshake(&b"152\x00yesterday".to_vec()), Err(HandshakeError::BadTime));
    assert_eq!(parse_handshake(&b"152\x0020231301 00:00:00".to_vec()), Err(HandshakeError::BadTime));
    assert_eq!(parse_handshake(&vec![b'1', 0, 0xff]), Err(HandshakeError::BadEncoding));
}

#[test]
fn handshake_from_given_time() {
    let t = midnight_2023();
    assert_eq!(handshake_from(&fields(&["152", "whatever"]), Some(t)).unwrap().server_version, 152);
    assert_eq!(handshake_from(&fields(&["152", "whatever"]), None), Err(HandshakeError::BadTime));
    assert_eq!(handshake_from(&fields(&["152"]), Some(t)), Err(HandshakeError::MissingTime));
    assert_eq!(handshake_from(&fields(&["-152", "x"]), Some(t)), Err(HandshakeError::BadVersion));
}

#[test]
fn trims_trailing_time_zone() {
    assert_eq!(trim_trailing_non_numeric("20230101 00:00:00 UTC"), "20230101 00:00:00");
    assert_eq!(trim_trailing_non_numeric("abc"), "");
    assert_eq!(trim_trailing_non_numeric("12"), "12");
}

#[test]
fn greeting_offers_version_range() {
    let bytes = handshake_request(MIN_CLIENT_VERSION, MAX_CLIENT_VERSION).unwrap();
    let mut expected = b"API\0".to_vec();
    let body = format!("v{}..{}", MIN_CLIENT_VERSION, MAX_CLIENT_VERSION);
    expected.extend((body.len() as u32).to_be_bytes());
    expected.extend(body.as_bytes());
    assert_eq!(bytes, expected);
    assert_eq!(&bytes[8..], b"v100..176");
}

#[test]
fn start_api_frame() {
    let bytes = start_api_request(-3).unwrap();
    let body = b"71\x002\x00-3\x00".to_vec();
    let mut expected = (body.len() as u32).to_be_bytes().to_vec();
    expected.extend(body);
    assert_eq!(bytes, expected);
}
