use httpmcp_rust::json::{json_get, str_contains, str_starts_with, str_strip_prefix, to_text, JsonValue};

#[test]
fn encodes_scalars() {
    assert_eq!(to_text(&JsonValue::Null), "null");
    assert_eq!(to_text(&JsonValue::Bool(true)), "true");
    assert_eq!(to_text(&JsonValue::Bool(false)), "false");
    assert_eq!(to_text(&JsonValue::Int(0)), "0");
    assert_eq!(to_text(&JsonValue::Int(42)), "42");
    assert_eq!(to_text(&JsonValue::Int(-7)), "-7");
    assert_eq!(to_text(&JsonValue::Int(i64::MAX)), "9223372036854775807");
    assert_eq!(to_text(&JsonValue::Int(i64::MIN)), "-9223372036854775808");
    assert_eq!(to_text(&JsonValue::NumText("2.5e3".to_string())), "2.5e3");
}

#[test]
fn encodes_strings_with_escapes() {
    assert_eq!(to_text(&JsonValue::Str("ab".to_string())), "\"ab\"");
    assert_eq!(
        to_text(&JsonValue::Str("say \"hi\"\\now".to_string())),
        "\"say \\\"hi\\\"\\\\now\""
    );
    assert_eq!(
        to_text(&JsonValue::Str("a\nb\tc\rd".to_string())),
        "\"a\\nb\\tc\\rd\""
    );
    assert_eq!(
        to_text(&JsonValue::Str("\u{8}\u{c}\u{1f}".to_string())),
        "\"\\b\\f\\u001f\""
    );
    assert_eq!(to_text(&JsonValue::Str("héllo".to_string())), "\"héllo\"");
}

#[test]
fn encodes_arrays_and_objects() {
    assert_eq!(to_text(&JsonValue::Array(Vec::new())), "[]");
    assert_eq!(
        to_text(&JsonValue::Array(vec![
            JsonValue::Int(1),
            JsonValue::Int(2),
            JsonValue::Null,
        ])),
        "[1,2,null]"
    );
    assert_eq!(to_text(&JsonValue::Object(Vec::new())), "{}");
    let nested = JsonValue::Object(vec![
        ("a".to_string(), JsonValue::Int(1)),
        (
            "b".to_string(),
            JsonValue::Array(vec![JsonValue::Str("x".to_string())]),
        ),
    ]);
    assert_eq!(to_text(&nested), "{\"a\":1,\"b\":[\"x\"]}");
}

#[test]
fn object_lookup_takes_the_first_match() {
    let v = JsonValue::Object(vec![
        ("k".to_string(), JsonValue::Int(1)),
        ("k".to_string(), JsonValue::Int(2)),
    ]);
    assert_eq!(json_get(&v, "k"), Some(&JsonValue::Int(1)));
    assert_eq!(json_get(&v, "missing"), None);
    assert_eq!(json_get(&JsonValue::Null, "k"), None);
}

#[test]
fn string_search_helpers() {
    assert!(str_contains("application/json; charset=utf-8", "application/json"));
    assert!(str_contains("text/event-stream", "text/event-stream"));
    assert!(!str_contains("text/plain", "text/event-stream"));
    assert!(str_contains("anything", ""));

    assert!(str_starts_with("2024-11-05", "2024-"));
    assert!(!str_starts_with("2023-01-01", "2024-"));

    assert_eq!(
        str_strip_prefix("Bearer tok", "Bearer "),
        Some("tok".to_string())
    );
    assert_eq!(str_strip_prefix("Basic tok", "Bearer "), None);
}
