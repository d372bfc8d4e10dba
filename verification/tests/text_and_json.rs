//! Text, JSON and errors as they cross a boundary.

use nemo_relay_callbacks::error::FlowError;
use nemo_relay_callbacks::json::{c_str_to_json, json_to_c_string, object, Json, Member};
use nemo_relay_callbacks::text::{c_string, has_nul};

fn json(text: &str) -> Json {
    Json::from_text(text).unwrap()
}

#[test]
fn c_strings_have_no_embedded_nul() {
    assert!(has_nul("a\0b"));
    assert!(!has_nul("ab"));
    assert_eq!(c_string("ab"), "ab");
    assert_eq!(c_string("a\0b"), "");
    assert_eq!(c_string(""), "");
}

#[test]
fn json_is_opened_one_level() {
    assert_eq!(json(" null "), Json::Null);
    assert_eq!(json(r#""a\nb""#), Json::String("a\nb".into()));
    assert_eq!(
        json(r#"[1, "x", {"b": 2, "a": [ ]}]"#),
        Json::Array(vec!["1".into(), "\"x\"".into(), r#"{"a":[],"b":2}"#.into()])
    );
    assert_eq!(json("true"), Json::Other("true".into()));
    assert_eq!(json("{ }"), Json::Other("{}".into()));
    assert!(Json::from_text("{").unwrap_err().contains("EOF"));
}

#[test]
fn json_is_written_compactly() {
    for text in [
        "null",
        "true",
        "-1.5",
        r#""q\"\\\u0000""#,
        "[]",
        r#"[1,"x",[2,3],{"a":null}]"#,
        r#"{"a":1,"b":[]}"#,
    ] {
        assert_eq!(json(text).to_text(), text);
    }
    assert!(Json::Null.is_null());
    assert!(!json("[]").is_null());
}

#[test]
fn strings_survive_the_boundary() {
    for text in ["", "plain", "quote \" and \\", "line\nbreak", "nul \0 inside", "\u{1f600}"] {
        let value = Json::String(text.to_string());
        let c = json_to_c_string(&value);
        assert!(!has_nul(&c));
        assert_eq!(c_str_to_json(&Some(c.into_bytes())), Some(value));
    }
}

#[test]
fn values_make_arrays_and_objects() {
    let values = vec![json("1"), json("[2]"), Json::String("x".into()), Json::Null];
    assert_eq!(Json::array(&values).to_text(), r#"[1,[2],"x",null]"#);
    let members = vec![
        Member { key: "a", value: "1".into() },
        Member { key: "b", value: "[]".into() },
    ];
    assert_eq!(object(&members).to_text(), r#"{"a":1,"b":[]}"#);
    assert_eq!(object(&Vec::new()).to_text(), "{}");
}

#[test]
fn json_arguments_must_be_utf8() {
    assert_eq!(c_str_to_json(&None), None);
    assert_eq!(c_str_to_json(&Some(vec![b'"', 0xff, b'"'])), None);
    assert_eq!(c_str_to_json(&Some(b"nope".to_vec())), None);
    assert_eq!(c_str_to_json(&Some(b"null".to_vec())), Some(Json::Null));
}

#[test]
fn errors_read_by_their_kind() {
    let cases = [
        (FlowError::AlreadyExists("x".into()), "already exists: x"),
        (FlowError::NotFound("x".into()), "not found: x"),
        (FlowError::InvalidArgument("x".into()), "invalid argument: x"),
        (FlowError::GuardrailRejected("x".into()), "guardrail rejected: x"),
        (FlowError::ScopeStackEmpty, "scope stack empty"),
        (FlowError::Internal("x".into()), "internal error: x"),
    ];
    for (error, text) in cases {
        assert_eq!(error.message(), text);
    }
}

#[test]
fn strings_are_escaped_where_they_must_be() {
    let literal = |text: &str| Json::String(text.to_string()).to_text();
    assert_eq!(literal(""), r#""""#);
    assert_eq!(literal("\"\\/"), r#""\"\\/""#);
    assert_eq!(literal("\u{8}\t\n\u{c}\r"), r#""\b\t\n\f\r""#);
    assert_eq!(literal("\0\u{1}\u{b}\u{1a}\u{1f}"), r#""\u0000\u0001\u000b\u001a\u001f""#);
    assert_eq!(literal(" \u{7f}\u{e9}\u{2028}\u{1f600}"), "\" \u{7f}\u{e9}\u{2028}\u{1f600}\"");
}

#[test]
fn what_was_read_reads_back() {
    let deepest = "[".repeat(127) + &"]".repeat(127);
    for text in [
        "null",
        "false",
        "0.1",
        "-0",
        "1e300",
        "5e-324",
        "2.2250738585072011e-308",
        "1.7976931348623157e308",
        "0.30000000000000004441",
        "18446744073709551615",
        "-9223372036854775808",
        "123456789012345678901234567890",
        r#"{"b": [1.25, {"a": "\u0000😀"}], "a": -1E-7, "a": 3.0}"#,
        deepest.as_str(),
    ] {
        let value = json(text);
        let c = json_to_c_string(&value);
        assert!(!has_nul(&c));
        assert_eq!(c_str_to_json(&Some(c.into_bytes())), Some(value));
    }
}
