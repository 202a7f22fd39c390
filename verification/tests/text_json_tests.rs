use sashiko::json::{Json, JsonNumber};
use sashiko::text::{contains_double_dot, decimal_string, join_range, same_text, signed_decimal_string, starts_with_slash};

#[test]
fn decimal_strings_match_to_string() {
    for n in [0u64, 7, 10, 99, 100, 1234567890, u64::MAX] {
        assert_eq!(decimal_string(n), n.to_string());
    }
    for i in [0i64, 5, -5, -42, i64::MIN, i64::MAX] {
        assert_eq!(signed_decimal_string(i), i.to_string());
    }
}

#[test]
fn text_predicates() {
    assert!(contains_double_dot("a/../b"));
    assert!(contains_double_dot(".."));
    assert!(!contains_double_dot("a/./b"));
    assert!(!contains_double_dot(""));
    assert!(starts_with_slash("/x"));
    assert!(!starts_with_slash("x/"));
    assert!(!starts_with_slash(""));
    assert!(same_text("héllo", "héllo"));
    assert!(!same_text("hello", "hell"));
}

#[test]
fn join_range_joins_with_separator() {
    let lines = vec!["a".to_string(), "b".to_string(), "c".to_string()];
    assert_eq!(join_range(&lines, 0, 3, "\n"), "a\nb\nc");
    assert_eq!(join_range(&lines, 1, 2, ", "), "b");
    assert_eq!(join_range(&lines, 2, 2, "\n"), "");
}

#[test]
fn json_lookups_follow_serde_json() {
    let value = Json::Object(vec![
        ("name".to_string(), Json::String("x".to_string())),
        ("count".to_string(), Json::Number(JsonNumber::PosInt(4))),
        ("list".to_string(), Json::Array(vec![Json::Null])),
    ]);
    assert_eq!(value.get("name").and_then(|v| v.as_str()), Some("x"));
    assert_eq!(value.get("count").and_then(|v| v.as_u64()), Some(4));
    assert!(value.get("missing").is_none());
    assert_eq!(value.get("list").and_then(|v| v.as_array()).map(|a| a.len()), Some(1));
    assert!(Json::Null.get("name").is_none());
    assert_eq!(Json::Number(JsonNumber::NegInt(-1)).as_u64(), None);
    assert_eq!(Json::Number(JsonNumber::Float).as_u64(), None);
}

#[test]
fn json_builders() {
    let built = Json::empty_object()
        .with_member("a", Json::text("b"))
        .with_member("c", Json::empty_array().with_item(Json::Bool(true)));
    assert_eq!(built.get("a").and_then(|v| v.as_str()), Some("b"));
    assert!(matches!(built.get("c"), Some(Json::Array(items)) if items.len() == 1));
}
