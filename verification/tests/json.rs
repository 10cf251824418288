use maplibre_style_spec::json::{decimal, describe_unexpected, json_to_text, JsonDecode, JsonNumber, JsonValue};

fn doc(v: &serde_json::Value) -> JsonValue {
    match v {
        serde_json::Value::Null => JsonValue::Null,
        serde_json::Value::Bool(b) => JsonValue::Bool(*b),
        serde_json::Value::Number(n) => JsonValue::Number(JsonNumber::new(n.to_string())),
        serde_json::Value::String(s) => JsonValue::String(s.clone()),
        serde_json::Value::Array(a) => JsonValue::Array(a.iter().map(doc).collect()),
        serde_json::Value::Object(o) => {
            JsonValue::Object(o.iter().map(|(k, v)| (k.clone(), doc(v))).collect())
        }
    }
}

#[test]
fn prints_as_serde_json_does() {
    for text in [
        "null",
        "true",
        "[1,2.5,-3]",
        r#"{"a":[],"b":{"c":"x\"y\n"}}"#,
        r#""tab\there""#,
        "[]",
        "{}",
    ] {
        let v: serde_json::Value = serde_json::from_str(text).unwrap();
        assert_eq!(json_to_text(&doc(&v)), v.to_string());
    }
}

#[test]
fn decimal_text() {
    assert_eq!(decimal(0), "0");
    assert_eq!(decimal(7), "7");
    assert_eq!(decimal(1234567), "1234567");
}

#[test]
fn wrong_types_are_named_as_serde_json_names_them() {
    for text in ["null", "true", "-12", "0.5", "1e+16", "1.5e-7", "[]", "{}", "\"plain\"", "\"quote \\\" and \\\\ backslash\"", "\"new\\nline\\t\\u007f\\u200b\u{00e9}\""] {
        let v: serde_json::Value = serde_json::from_str(text).unwrap();
        let expected = serde_json::from_value::<std::collections::BTreeMap<String, bool>>(v.clone());
        let message = format!("invalid type: {}, expected a map", describe_unexpected(&doc(&v)));
        match expected {
            Err(e) => assert_eq!(message, e.to_string(), "{text}"),
            Ok(_) => assert_eq!(text, "{}"),
        }
    }
}

#[test]
fn type_errors_read_as_serde_json_writes_them() {
    for text in ["5", "1.5", "2e+20", "true", "null", "[1]", "{}", "\"x\""] {
        let v: serde_json::Value = serde_json::from_str(text).unwrap();
        if let Err(expected) = serde_json::from_value::<String>(v.clone()) {
            assert_eq!(String::decode(&doc(&v)).unwrap_err(), expected.to_string());
        }
        if let Err(expected) = serde_json::from_value::<bool>(v.clone()) {
            assert_eq!(bool::decode(&doc(&v)).unwrap_err(), expected.to_string());
        }
        if let Err(expected) = serde_json::from_value::<serde_json::Number>(v.clone()) {
            assert_eq!(JsonNumber::decode(&doc(&v)).unwrap_err(), expected.to_string());
        }
        if let Err(expected) = serde_json::from_value::<Vec<bool>>(v.clone()) {
            assert_eq!(<Vec<bool> as JsonDecode>::decode(&doc(&v)).unwrap_err(), expected.to_string());
        }
        if let Err(expected) = serde_json::from_value::<[bool; 2]>(v.clone()) {
            assert_eq!(<[bool; 2] as JsonDecode>::decode(&doc(&v)).unwrap_err(), expected.to_string());
        }
    }
    let short: serde_json::Value = serde_json::from_str("[true]").unwrap();
    let expected = serde_json::from_value::<[bool; 2]>(short.clone()).unwrap_err().to_string();
    assert_eq!(<[bool; 2] as JsonDecode>::decode(&doc(&short)).unwrap_err(), expected);
    let long: serde_json::Value = serde_json::from_str("[true, false, true]").unwrap();
    let expected = serde_json::from_value::<[bool; 2]>(long.clone()).unwrap_err().to_string();
    assert_eq!(<[bool; 2] as JsonDecode>::decode(&doc(&long)).unwrap_err(), expected);
}

#[test]
fn strings_are_escaped_as_serde_json_escapes_them() {
    let s = "q\"b\\\u{8}\t\n\u{c}\r\u{1}\u{1f}\u{7f}é/";
    let text = json_to_text(&JsonValue::String(s.to_string()));
    assert_eq!(text, "\"q\\\"b\\\\\\b\\t\\n\\f\\r\\u0001\\u001f\u{7f}é/\"");
    assert_eq!(text, serde_json::to_string(s).unwrap());
}
