//! What the rest is written with: JSON values, texts, maps and errors.

use deepseek_harness_sdk_rs::json::{parse_json, parse_json_bytes, write_json, Json};
use deepseek_harness_sdk_rs::text::{
    decimal_i64, decimal_u64, ends_with, join, lists_text, same_text, starts_with, to_chars,
    trim_trailing,
};
use deepseek_harness_sdk_rs::text_map::TextMap;
use deepseek_harness_sdk_rs::SdkError;

fn json(text: &str) -> Json {
    parse_json(text).expect("valid JSON")
}

#[test]
fn json_reads_and_writes() {
    let text = r#"{"a":[1,-2,"x\n\u0001",null,true],"b":{"c":{}}}"#;
    assert_eq!(write_json(&json(text)), text);
    assert_eq!(parse_json_bytes(text.as_bytes()), Ok(json(text)));
    assert_eq!(write_json(&json("1.5")), "1.5");
    assert_eq!(
        parse_json("[1,"),
        Err("EOF while parsing a value at line 1 column 3".to_string())
    );
    assert!(parse_json_bytes(&[255]).is_err());
    assert!(parse_json("1 2").is_err());
}

#[test]
fn json_values_are_asked_by_shape() {
    let value = json(r#"{"n": 7, "s": "t", "l": [0], "o": {}, "f": 0.5, "big": 9223372036854775808}"#);
    assert_eq!(value.get("n").and_then(Json::as_i64), Some(7));
    assert_eq!(value.get("f").and_then(Json::as_i64), None);
    assert_eq!(value.get("big").and_then(Json::as_i64), None);
    assert_eq!(value.get_str("s"), Some("t"));
    assert_eq!(value.get_str("n"), None);
    assert_eq!(value.get("l").and_then(Json::as_array).map(|l| l.len()), Some(1));
    assert!(value.get("o").expect("o").is_object());
    assert!(!value.get("l").expect("l").is_object());
    assert_eq!(value.get("missing"), None);
    assert_eq!(Json::Null.get("x"), None);
    assert_eq!(Json::text("x").as_str(), Some("x"));
}

#[test]
fn json_values_are_built() {
    let value = Json::empty_object()
        .with("a", Json::natural(u64::MAX))
        .with("b", Json::integer(-1))
        .with("a", Json::Null);
    assert_eq!(write_json(&value), r#"{"a":null,"b":-1}"#);
    assert_eq!(value.get("a"), Some(&Json::Null));
    assert_eq!(Json::Null.with("a", Json::Null), Json::Null);
    assert_eq!(write_json(&Json::natural(u64::MAX)), "18446744073709551615");
    assert_eq!(value.clone(), value);
}

#[test]
fn later_members_count() {
    assert_eq!(json(r#"{"a": 1, "a": 2}"#).get("a"), Some(&json("2")));
}

#[test]
fn texts_are_compared_and_cut() {
    assert!(same_text("héllo", "héllo"));
    assert!(!same_text("hello", "hell"));
    assert!(starts_with("héllo", "hé"));
    assert!(!starts_with("h", "he"));
    assert!(ends_with("name.whl", ".whl"));
    assert!(!ends_with("whl", ".whl"));
    assert!(ends_with("x", ""));
    assert_eq!(trim_trailing("a//", '/'), "a");
    assert_eq!(trim_trailing("//", '/'), "");
    assert_eq!(trim_trailing("a/b", '/'), "a/b");
    assert_eq!(to_chars("aé"), vec!['a', 'é']);
}

#[test]
fn texts_are_joined_and_listed() {
    let lines = vec!["a".to_string(), "b".to_string(), String::new()];
    assert_eq!(join(&lines, "\n"), "a\nb\n");
    assert_eq!(join(&vec![], "\n"), "");
    assert!(lists_text(&lines, "b"));
    assert!(!lists_text(&lines, "c"));
}

#[test]
fn numbers_are_spelled_in_decimal() {
    assert_eq!(decimal_u64(0), "0");
    assert_eq!(decimal_u64(u64::MAX), "18446744073709551615");
    assert_eq!(decimal_i64(-10), "-10");
    assert_eq!(decimal_i64(i64::MIN), "-9223372036854775808");
}

#[test]
fn maps_are_keyed_by_text() {
    let mut map = TextMap::new();
    assert!(!map.contains("a"));
    map.insert("a".to_string(), 1);
    map.insert("b".to_string(), 2);
    map.insert("a".to_string(), 3);
    assert_eq!(map.get("a"), Some(&3));
    let mut keys = map.keys();
    keys.sort();
    assert_eq!(keys, vec!["a", "b"]);
    map.remove("a");
    map.remove("a");
    assert_eq!(map.get("a"), None);
    assert_eq!(map.get("b"), Some(&2));
}

#[test]
fn every_error_has_its_text() {
    let closed = SdkError::transport_closed("gone", Some(7), &vec!["x".to_string(), "y".to_string()]);
    assert_eq!(closed.message(), "gone\nexit code: 7\nstderr tail:\nx\ny");
    assert_eq!(
        SdkError::transport_closed("gone", None, &vec![]).message(),
        "gone"
    );
    assert_eq!(
        SdkError::request_timeout("m", Some(1), &vec![]).message(),
        "m timed out waiting for DeepSeek Harness runtime\nexit code: 1"
    );
    assert_eq!(SdkError::protocol("odd").message(), "odd");
    let io = SdkError::Io {
        source: "disk full".to_string(),
    };
    assert_eq!(io.message(), "io error: disk full");
    assert_eq!(
        SdkError::NestedRuntime.message(),
        "the deepseek-harness-sdk-rs sync API cannot be called from within an async runtime"
    );
    let resolve = SdkError::RuntimeResolve {
        message: "no wheel".to_string(),
    };
    assert_eq!(resolve.message(), "no wheel");
    let response = SdkError::JsonRpcResponse {
        code: Some(-1),
        message: "refused".to_string(),
        data: Some(Json::Null),
    };
    assert_eq!(response.message(), "refused");
    for error in [closed, io, resolve, response] {
        assert_eq!(error.clone(), error);
    }
}
