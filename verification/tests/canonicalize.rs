//! Canonical JSON.

use einvoice_bridge::domain::canonicalize::{
    canonicalize_json, canonicalize_json_bytes, from_jcs,
};
use einvoice_bridge::domain::ubl::UblInvoice;
use einvoice_bridge::domain::DomainError;
use serde_json::Value;

fn parsed(text: &str) -> Value {
    serde_json::from_str(text).unwrap()
}

#[test]
fn sorts_object_keys_lexicographically() {
    let input = parsed(r#"{"b": 1, "a": 2, "c": 3}"#);
    assert_eq!(
        canonicalize_json(&input).unwrap(),
        r#"{"a":2,"b":1,"c":3}"#
    );
}

#[test]
fn strips_insignificant_whitespace() {
    let input: Value = serde_json::from_str(r#"{ "a" : 1 , "b" : [ 2 , 3 ] }"#).unwrap();
    assert_eq!(
        canonicalize_json(&input).unwrap(),
        r#"{"a":1,"b":[2,3]}"#
    );
}

#[test]
fn arrays_preserve_their_order() {
    let input = parsed("[3, 1, 2]");
    assert_eq!(canonicalize_json(&input).unwrap(), "[3,1,2]");
}

#[test]
fn nested_objects_are_sorted_recursively() {
    let input = parsed(r#"{"outer": {"z": 1, "a": 2}, "first": "hi"}"#);
    assert_eq!(
        canonicalize_json(&input).unwrap(),
        r#"{"first":"hi","outer":{"a":2,"z":1}}"#
    );
}

#[test]
fn numbers_use_ecmascript_tostring() {
    // Trailing zeros stripped, exponential picked when shorter, integers stay integers.
    let input = parsed(r#"{ "n": [4.50, 2e-3, 1e30, 100, 0] }"#);
    assert_eq!(
        canonicalize_json(&input).unwrap(),
        r#"{"n":[4.5,0.002,1e+30,100,0]}"#
    );
}

#[test]
fn named_escapes_quote_and_backslash() {
    // \n and \t use named escapes; quote and backslash are escaped.
    let input = Value::from("a\nb\tc\"d\\e");
    assert_eq!(
        canonicalize_json(&input).unwrap(),
        r#""a\nb\tc\"d\\e""#
    );
}

#[test]
fn unicode_above_ascii_is_emitted_verbatim() {
    // RFC 8785 emits non-control non-ASCII characters as raw UTF-8,
    // not \uXXXX escapes.
    let input = Value::from("€");
    assert_eq!(canonicalize_json(&input).unwrap(), "\"€\"");
}

#[test]
fn round_trip_canonical_is_idempotent() {
    let input = parsed(r#"{"z": 1, "a": [3, 2, 1], "m": {"y": true, "x": null}}"#);
    let once = canonicalize_json(&input).unwrap();
    let parsed: Value = serde_json::from_str(&once).unwrap();
    let twice = canonicalize_json(&parsed).unwrap();
    assert_eq!(once, twice);
}

#[test]
fn member_order_does_not_show() {
    let expected = r#"{"a":{"x":1,"y":2},"b":[true]}"#;
    for text in [
        r#"{"a":{"x":1,"y":2},"b":[true]}"#,
        r#"{"b":[true],"a":{"x":1,"y":2}}"#,
        r#"{"b":[true],"a":{"y":2,"x":1}}"#,
    ] {
        assert_eq!(canonicalize_json(&parsed(text)).unwrap(), expected);
    }
}

#[test]
fn blanks_stay_inside_strings_only() {
    let input = parsed("{ \"a b\" : [ \"c \\\" d\" ,\n1 ,\ttrue ] }");
    assert_eq!(canonicalize_json(&input).unwrap(), r#"{"a b":["c \" d",1,true]}"#);
}

#[test]
fn canonical_bytes_are_the_utf8_of_the_text() {
    let input = parsed(r#"{"b": "€", "a": 1}"#);
    assert_eq!(
        canonicalize_json_bytes(&input).unwrap(),
        r#"{"a":1,"b":"€"}"#.as_bytes()
    );
}

#[test]
fn serializer_errors_are_canonicalisation_errors() {
    let error = from_jcs(Err("oh no".to_string())).unwrap_err();
    assert!(matches!(&error, DomainError::Canonicalize(why) if why == "oh no"));
    assert_eq!(error.message(), "canonicalisation failed: oh no");
    assert_eq!(from_jcs(Ok("[]".to_string())).unwrap(), "[]");
}

#[test]
fn no_payload_makes_a_document_yet() {
    let error = match UblInvoice::from_pos_payload(&parsed("{}")) {
        Ok(_) => panic!("no payload is supported"),
        Err(error) => error,
    };
    assert_eq!(error.message(), "invalid invoice payload: not yet implemented");
}

#[test]
fn canonical_text_is_stable() {
    for text in [
        r#"{"a!":1,"a":2,"A":{"z":[],"y":{}}}"#,
        "[1e19,-1e19,9223372036854775808.0,-9223372036854775808.0,18446744073709551615]",
        "[1.8446744073709552e19,1e21,1e20,5e-324,1.7976931348623157e308,-0.0,100.0,0.1]",
        r#"["\u0000\u001f\u007f","\"","\\","😀€"]"#,
        "null",
        r#"{"a":"{\"$serde_json::private::RawValue\":\"1\"}"}"#,
        r#"{"!":1,"$serde_json::private::RawValue":"2"}"#,
    ] {
        let once = canonicalize_json(&parsed(text)).unwrap();
        let twice = canonicalize_json(&parsed(&once)).unwrap();
        assert_eq!(once, twice);
    }
    assert_eq!(
        canonicalize_json(&parsed("[-0.0,100.0,1e20,1e21]")).unwrap(),
        "[0,100,100000000000000000000,1e+21]"
    );
}
