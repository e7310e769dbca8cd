use codex_gateway::codec::{encode_line, from_json, parse, to_json, to_text};
use codex_gateway::ident::fresh_id;
use codex_gateway::json::{Json, field, nothing, one};

#[test]
fn texts_are_compact_and_sorted() {
    let value = parse("{ \"b\" : [1, -2, 2.5, true, null], \"a\" : \"x\\ny\" }").unwrap();
    assert_eq!(to_text(&value), "{\"a\":\"x\\ny\",\"b\":[1,-2,2.5,true,null]}");
}

#[test]
fn malformed_texts_are_refused() {
    assert!(parse("").is_none());
    assert!(parse("{").is_none());
    assert!(parse("1 2").is_none());
    assert!(parse("{\"a\":1,}").is_none());
    assert!(matches!(parse("null"), Some(Json::Null)));
}

#[test]
fn later_keys_count() {
    let value = parse("{\"a\": 1, \"a\": 2}").unwrap();
    assert_eq!(value.get("a").and_then(Json::as_u64), Some(2));
    let built = Json::object(vec![("a", Json::unsigned(1)), ("a", Json::unsigned(2))]);
    assert_eq!(built.get("a").and_then(Json::as_u64), Some(2));
    assert_eq!(to_text(&built), "{\"a\":2}");
    let mixed = Json::object(vec![
        ("a", Json::unsigned(1)),
        ("b", Json::unsigned(2)),
        ("a", Json::unsigned(3)),
        ("c", Json::unsigned(4)),
        ("a", Json::unsigned(5)),
        ("b", Json::Null),
    ]);
    assert_eq!(to_text(&mixed), "{\"a\":5,\"b\":null,\"c\":4}");
}

#[test]
fn values_pass_through_unchanged() {
    let text = "{\"a\":[{\"b\":null},false,\"\u{e9}\",18446744073709551615,-9223372036854775808,0.1]}";
    let value = parse(text).unwrap();
    assert_eq!(to_text(&from_json(to_json(&value))), text);
    assert_eq!(to_text(&value.clone()), text);
    assert_eq!(
        to_json(&value),
        serde_json::from_str::<serde_json::Value>(text).unwrap()
    );
}

#[test]
fn lines_end_where_they_should() {
    let message = field("text", Json::text("a\nb\r\u{1}"));
    let line = encode_line(&message);
    assert_eq!(line, b"{\"text\":\"a\\nb\\r\\u0001\"}\n");
    assert_eq!(line.iter().filter(|byte| **byte == b'\n').count(), 1);
}

#[test]
fn numbers_are_read_where_they_fit() {
    assert_eq!(Json::unsigned(u64::MAX).as_u64(), Some(u64::MAX));
    assert_eq!(Json::signed(-1).as_u64(), None);
    assert_eq!(Json::signed(7).as_u64(), Some(7));
    assert_eq!(parse("1.0").unwrap().as_u64(), None);
    assert_eq!(parse("18446744073709551616").unwrap().as_u64(), None);
    assert_eq!(to_text(&Json::signed(-32601)), "-32601");
    assert_eq!(Json::text("7").as_u64(), None);
}

#[test]
fn values_are_read_by_their_kind() {
    let value = parse("{\"outer\": {\"inner\": \"x\"}, \"flag\": true, \"none\": null}").unwrap();
    assert_eq!(value.text_in("outer", "inner"), Some("x"));
    assert_eq!(value.text_in("outer", "other"), None);
    assert_eq!(value.text_in("flag", "inner"), None);
    assert_eq!(value.text_at("flag"), None);
    assert_eq!(value.get("flag").and_then(Json::as_bool), Some(true));
    assert_eq!(value.get("none").map(Json::is_null), Some(true));
    assert_eq!(value.get("outer").and_then(Json::as_bool), None);
    assert_eq!(value.at("outer", "inner").and_then(Json::as_str), Some("x"));
    assert!(Json::Null.get("x").is_none());
}

#[test]
fn fields_are_added_and_replaced() {
    let value = Json::Null.with("a", Json::Bool(true)).with("a", Json::Null).with("b", nothing());
    assert_eq!(to_text(&value), "{\"a\":null,\"b\":[]}");
    assert_eq!(to_text(&one(value)), "[{\"a\":null,\"b\":[]}]");
}

#[test]
fn identifiers_are_fresh() {
    let id = fresh_id("call_");
    let other = fresh_id("call_");
    assert_ne!(id, other);
    assert_eq!(id.len(), 5 + 32);
    let uuid = id.strip_prefix("call_").unwrap();
    assert!(uuid.bytes().all(|byte| byte.is_ascii_digit() || (b'a'..=b'f').contains(&byte)));
    assert_eq!(uuid.as_bytes()[12], b'4');
    assert!(b"89ab".contains(&uuid.as_bytes()[16]));
}
