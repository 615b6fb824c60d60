use ibapi::kind::{parse_tag, MessageKind};
use std::collections::HashSet;

fn known_codes() -> Vec<i64> {
    let mut codes: Vec<i64> = (1..=21).collect();
    codes.extend([45, 46, 47]);
    codes.extend(49..=59);
    codes.extend(61..=107);
    codes
}

#[test]
fn every_known_tag_names_a_distinct_kind() {
    let codes = known_codes();
    assert_eq!(codes.len(), 82);
    let mut kinds = HashSet::new();
    let mut labels = HashSet::new();
    for code in codes {
        let kind = parse_tag(&code.to_string()).expect("known tag");
        assert_eq!(kind.code(), code);
        assert_eq!(MessageKind::from_code(code), Some(kind));
        assert!(kinds.insert(kind));
        assert!(labels.insert(kind.label()));
    }
}

#[test]
fn unknown_tags_name_no_kind() {
    for text in ["99999", "0", "22", "48", "60", "108", "-1", "abc", ""] {
        assert_eq!(parse_tag(text), None, "{text}");
    }
}

#[test]
fn bootstrap_tags() {
    assert_eq!(parse_tag("15"), Some(MessageKind::ManagedAccts));
    assert_eq!(parse_tag("9"), Some(MessageKind::NextValidId));
    assert_eq!(parse_tag("10"), Some(MessageKind::ContractData));
    assert_eq!(MessageKind::TickPrice.label(), "tick price");
}
