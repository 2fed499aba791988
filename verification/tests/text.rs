use ownable_cookie::caip::{namespace_len, parse_namespace, Namespace};
use ownable_cookie::msg::{parse_event_kind, EventKind, ExternalEventMsg, Response};
use ownable_cookie::text::{bool_text, copy_optional_text, same_text, u8_text};

#[test]
fn counters_are_written_in_decimal() {
    assert_eq!(u8_text(0), "0");
    assert_eq!(u8_text(3), "3");
    assert_eq!(u8_text(9), "9");
    assert_eq!(u8_text(10), "10");
    assert_eq!(u8_text(42), "42");
    assert_eq!(u8_text(99), "99");
    assert_eq!(u8_text(100), "100");
    assert_eq!(u8_text(101), "101");
    assert_eq!(u8_text(110), "110");
    assert_eq!(u8_text(255), "255");
}

#[test]
fn decimal_agrees_with_std_on_every_counter() {
    for n in 0..=255u8 {
        assert_eq!(u8_text(n), n.to_string());
    }
}

#[test]
fn flags_are_written_as_words() {
    assert_eq!(bool_text(true), "true");
    assert_eq!(bool_text(false), "false");
}

#[test]
fn texts_compare_by_their_characters() {
    assert!(same_text("lock", "lock"));
    assert!(!same_text("lock", "Lock"));
    assert!(!same_text("lock", "lock "));
    assert!(same_text("", ""));
    assert_eq!(copy_optional_text(&Some("a".to_string())), Some("a".to_string()));
    assert_eq!(copy_optional_text(&None), None);
}

#[test]
fn namespace_is_the_first_segment() {
    assert_eq!(namespace_len("eip155:1"), 6);
    assert_eq!(namespace_len("cosmos:foo"), 6);
    assert_eq!(namespace_len("eip155"), 6);
    assert_eq!(namespace_len(":1"), 0);
    assert_eq!(namespace_len(""), 0);
    assert_eq!(namespace_len("a:b:c"), 1);
}

#[test]
fn namespace_length_counts_characters_not_bytes() {
    assert_eq!(namespace_len("é\u{1F36A}:1"), 2);
}

#[test]
fn only_eip155_is_a_supported_namespace() {
    assert_eq!(parse_namespace("eip155:1"), Namespace::Eip155);
    assert_eq!(parse_namespace("eip155:137"), Namespace::Eip155);
    assert_eq!(parse_namespace("eip155"), Namespace::Eip155);
    assert_eq!(parse_namespace("eip155:"), Namespace::Eip155);
    assert_eq!(parse_namespace("eip155:1:2"), Namespace::Eip155);
    assert_eq!(parse_namespace("cosmos:foo"), Namespace::Unsupported);
    assert_eq!(parse_namespace("EIP155:1"), Namespace::Unsupported);
    assert_eq!(parse_namespace("eip1559:1"), Namespace::Unsupported);
    assert_eq!(parse_namespace("eip15:5"), Namespace::Unsupported);
    assert_eq!(parse_namespace(" eip155:1"), Namespace::Unsupported);
    assert_eq!(parse_namespace(":eip155"), Namespace::Unsupported);
    assert_eq!(parse_namespace(""), Namespace::Unsupported);
}

#[test]
fn responses_keep_their_attributes_in_order() {
    let response = Response::new()
        .add_attribute("method", "try_lock")
        .add_attribute("is_locked", "true");
    assert_eq!(response.attributes.len(), 2);
    assert_eq!(response.attributes[0].key, "method");
    assert_eq!(response.attributes[0].value, "try_lock");
    assert_eq!(response.attributes[1].key, "is_locked");
    assert_eq!(response.attributes[1].value, "true");
    assert!(Response::new().attributes.is_empty());
}

#[test]
fn event_attributes_are_found_by_key() {
    let event = ExternalEventMsg::new("lock".to_string(), None)
        .with_attribute("owner".to_string(), "first".to_string())
        .with_attribute("token_id".to_string(), "7".to_string())
        .with_attribute("owner".to_string(), "second".to_string());
    assert_eq!(event.attribute("owner"), "second");
    assert_eq!(event.attribute("token_id"), "7");
    assert_eq!(event.attribute("contract"), "");
    assert_eq!(event.event_type, "lock");
    assert_eq!(event.network, None);
}

#[test]
fn only_lock_is_a_known_event_kind() {
    assert_eq!(parse_event_kind("lock"), EventKind::Lock);
    assert_eq!(parse_event_kind("Lock"), EventKind::Unrecognized);
    assert_eq!(parse_event_kind("unlock"), EventKind::Unrecognized);
    assert_eq!(parse_event_kind("lock "), EventKind::Unrecognized);
    assert_eq!(parse_event_kind(""), EventKind::Unrecognized);
}
