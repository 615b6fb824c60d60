use ibapi::decimal::{i64_text, parse_i64, parse_u32, u64_text};

#[test]
fn parses_signed_integers_like_std() {
    for text in ["0", "42", "+7", "-15", "007", "9223372036854775807", "-9223372036854775808"] {
        assert_eq!(parse_i64(text), text.parse::<i64>().ok(), "{text}");
    }
}

#[test]
fn refuses_what_std_refuses() {
    for text in ["", "+", "-", "1a", " 1", "9223372036854775808", "-9223372036854775809", "+-1"] {
        assert_eq!(parse_i64(text), None, "{text}");
        assert_eq!(text.parse::<i64>().ok(), None, "{text}");
    }
}

#[test]
fn parses_unsigned_like_std() {
    for text in ["152", "+3", "4294967295", "4294967296", "-0", "-1", "", "x"] {
        assert_eq!(parse_u32(text), text.parse::<u32>().ok(), "{text}");
    }
}

#[test]
fn writes_decimal_text() {
    assert_eq!(u64_text(0), "0");
    assert_eq!(u64_text(18446744073709551615), "18446744073709551615");
    assert_eq!(i64_text(-42), "-42");
    assert_eq!(i64_text(i64::MIN), "-9223372036854775808");
    assert_eq!(i64_text(100), "100");
}
