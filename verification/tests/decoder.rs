use maplibre_style_spec::json::{JsonDecode, JsonNumber, JsonValue};
use maplibre_style_spec::spec::decoder::{EnumValues, ParsedItem, StyleReference, TopLevelItem};

fn doc(v: &serde_json::Value) -> JsonValue {
    match v {
        serde_json::Value::Null => JsonValue::Null,
        serde_json::Value::Bool(b) => JsonValue::Bool(*b),
        serde_json::Value::Number(n) => JsonValue::Number(JsonNumber::new(n.to_string())),
        serde_json::Value::String(s) => JsonValue::String(s.clone()),
        serde_json::Value::Array(a) => JsonValue::Array(a.iter().map(doc).collect()),
        serde_json::Value::Object(o) => {
            JsonValue::Object(o.iter().map(|(k, v)| (k.clone(), doc(v))).collect())
        }
    }
}

fn parse(text: &str) -> JsonValue {
    let v: serde_json::Value = serde_json::from_str(text).unwrap();
    doc(&v)
}

#[test]
fn reads_a_reference() {
    let r = StyleReference::decode(&parse(
        r#"{"$version": 8, "$root": {"name": {"type": "string", "doc": "The name."}},
            "names": ["a", "b"], "count": {"type": "number", "doc": "How many."}}"#,
    ))
    .unwrap();
    assert_eq!(r.version, 8);
    assert_eq!(r.root.len(), 1);
    assert_eq!(r.root[0].0, "name");
    assert_eq!(r.root[0].1.doc(), "The name.");
    assert_eq!(r.fields.len(), 2);
    assert!(matches!(&r.fields[0].1, TopLevelItem::Item(ParsedItem::Number { .. })));
    assert!(matches!(&r.fields[1].1, TopLevelItem::OneOf(l) if l == &vec!["a".to_string(), "b".to_string()]));
}

#[test]
fn a_reference_needs_a_small_whole_version() {
    let missing = StyleReference::decode(&parse(r#"{"$root": {}}"#)).unwrap_err();
    assert_eq!(missing, "missing field `$version`");
    let big = StyleReference::decode(&parse(r#"{"$version": 300, "$root": {}}"#)).unwrap_err();
    assert_eq!(big, "invalid value: integer `300`, expected u8");
    let negative = StyleReference::decode(&parse(r#"{"$version": -1, "$root": {}}"#)).unwrap_err();
    assert_eq!(negative, "invalid value: integer `-1`, expected u8");
    let fraction = StyleReference::decode(&parse(r#"{"$version": 8.5, "$root": {}}"#)).unwrap_err();
    assert_eq!(fraction, "invalid type: floating point `8.5`, expected u8");
    let root = StyleReference::decode(&parse(r#"{"$version": 8}"#)).unwrap_err();
    assert_eq!(root, "missing field `$root`");
}

#[test]
fn an_item_rejects_unknown_fields() {
    let e = ParsedItem::decode(&parse(r#"{"type": "number", "doc": "x", "colour": 1}"#)).unwrap_err();
    assert_eq!(
        e,
        "unknown field `colour`, expected one of `doc`, `default`, `expression`, `property-type`, `sdk-support`, `maximum`, `minimum`, `transition`, `units`, `example`, `period`, `requires`"
    );
    let e = ParsedItem::decode(&parse(r#"{"type": "number"}"#)).unwrap_err();
    assert_eq!(e, "missing field `doc`");
    let e = ParsedItem::decode(&parse(r#"{"doc": "x"}"#)).unwrap_err();
    assert_eq!(e, "missing field `type`");
    let e = ParsedItem::decode(&parse(r#"{"type": "vector"}"#)).unwrap_err();
    assert!(e.starts_with("unknown variant `vector`, expected one of `number`, `enum`, `array`"), "{e}");
}

#[test]
fn other_items_keep_their_entries() {
    let item = ParsedItem::decode(&parse(r#"{"type": "string", "doc": "A name.", "default": "x"}"#)).unwrap();
    match &item {
        ParsedItem::String(v) => assert_eq!(v, &parse(r#"{"doc": "A name.", "default": "x"}"#)),
        _ => panic!("not a string item"),
    }
    assert_eq!(item.doc(), "A name.");
    let bare = ParsedItem::decode(&parse(r#"{"type": "*"}"#)).unwrap();
    assert_eq!(bare.doc(), "");
}

#[test]
fn enum_values_are_plain_or_described() {
    let plain = EnumValues::decode(&parse(r#"[1, "a"]"#)).unwrap();
    assert!(matches!(plain, EnumValues::Simple(v) if v.len() == 2));
    let described = EnumValues::decode(&parse(r#"{"a": {"doc": "The a."}}"#)).unwrap();
    match described {
        EnumValues::Complex(v) => {
            assert_eq!(v[0].0, "a");
            assert_eq!(v[0].1.doc(), "The a.");
        }
        _ => panic!("not described"),
    }
    let e = EnumValues::decode(&parse(r#"{"a": 1}"#)).unwrap_err();
    assert_eq!(e, "data did not match any variant of untagged enum EnumValues");
}

#[test]
fn a_top_level_item_that_matches_nothing() {
    let e = TopLevelItem::decode(&parse("7")).unwrap_err();
    assert_eq!(e, "data did not match any variant of untagged enum TopLevelItem");
}

fn entry(k: &str, v: JsonValue) -> (String, JsonValue) {
    (k.to_string(), v)
}

fn integer(n: &str) -> JsonValue {
    JsonValue::Number(JsonNumber::new(n.to_string()))
}

#[test]
fn an_item_reports_the_first_wrong_entry_in_document_order() {
    let wrong_doc_first = JsonValue::Object(vec![
        entry("type", JsonValue::String("number".to_string())),
        entry("doc", integer("5")),
        entry("colour", integer("1")),
    ]);
    let e = ParsedItem::decode(&wrong_doc_first).unwrap_err();
    assert_eq!(e, "invalid type: integer `5`, expected a string");
    let unknown_first = JsonValue::Object(vec![
        entry("type", JsonValue::String("number".to_string())),
        entry("colour", integer("1")),
        entry("doc", integer("5")),
    ]);
    let e = ParsedItem::decode(&unknown_first).unwrap_err();
    assert!(e.starts_with("unknown field `colour`"), "{e}");
    let expression = JsonValue::Object(vec![
        entry("type", JsonValue::String("number".to_string())),
        entry("doc", JsonValue::String("x".to_string())),
        entry(
            "expression",
            JsonValue::Object(vec![entry("parameters", integer("3")), entry("zoom", integer("1"))]),
        ),
    ]);
    let e = ParsedItem::decode(&expression).unwrap_err();
    assert_eq!(e, "invalid type: integer `3`, expected a sequence");
    let missing = JsonValue::Object(vec![
        entry("type", JsonValue::String("number".to_string())),
        entry("doc", JsonValue::String("x".to_string())),
        entry("expression", JsonValue::Object(vec![entry("parameters", JsonValue::Array(vec![]))])),
    ]);
    let e = ParsedItem::decode(&missing).unwrap_err();
    assert_eq!(e, "missing field `interpolated`");
}

#[test]
fn described_values_keep_the_last_entry_of_a_key() {
    let described = |d: &str| JsonValue::Object(vec![entry("doc", JsonValue::String(d.to_string()))]);
    let v = JsonValue::Object(vec![
        entry("a", described("first a")),
        entry("b", described("the b")),
        entry("a", described("last a")),
    ]);
    match EnumValues::decode(&v).unwrap() {
        EnumValues::Complex(e) => {
            assert_eq!(e.len(), 2);
            assert_eq!(e[0].0, "b");
            assert_eq!(e[1].0, "a");
            assert_eq!(e[1].1.doc(), "last a");
        }
        _ => panic!("not described"),
    }
}
