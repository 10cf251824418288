use maplibre_style_spec::json::{JsonDecode, JsonNumber, JsonValue};
use maplibre_style_spec::spec::decoder::StyleReference;
use maplibre_style_spec::spec::generator::{generate_spec_scope, to_upper_camel_case, try_generate_spec_scope};

fn doc(v: &serde_json::Value) -> JsonValue {
    match v {
        serde_json::Value::Null => JsonValue::Null,
        serde_json::Value::Bool(b) => JsonValue::Bool(*b),
        serde_json::Value::Number(n) => JsonValue::Number(JsonNumber::new(n.to_string())),
        serde_json::Value::String(s) => JsonValue::String(s.clone()),
        serde_json::Value::Array(a) => JsonValue::Array(a.iter().map(doc).collect()),
        serde_json::Value::Object(o) => {
            JsonValue::Object(o.iter().map(|(k, v)| (k.clone(), doc(v))).collect())
        }
    }
}

fn reference(text: &str) -> StyleReference {
    let v: serde_json::Value = serde_json::from_str(text).unwrap();
    StyleReference::decode(&doc(&v)).unwrap()
}

#[test]
fn test_to_upper_camel_case() {
    assert_eq!(to_upper_camel_case("my_struct_name"), "MyStructName");
    assert_eq!(to_upper_camel_case("hello world"), "HelloWorld");
    assert_eq!(to_upper_camel_case("123abc"), "123abc");
    assert_eq!(to_upper_camel_case("__weird__name__"), "WeirdName");
    assert_eq!(to_upper_camel_case("alreadyCamel"), "Alreadycamel");
}

#[test]
fn camel_case_of_separators_only_is_empty() {
    assert_eq!(to_upper_camel_case(""), "");
    assert_eq!(to_upper_camel_case("-_ ."), "");
    assert_eq!(to_upper_camel_case("a-b"), "AB");
}

#[test]
fn camel_case_splits_at_a_separator() {
    // The UpperCamelCase form of `a + sep + b` is that of `a` followed by that of `b`.
    let whole = to_upper_camel_case("line-cap");
    let parts = to_upper_camel_case("line") + &to_upper_camel_case("cap");
    assert_eq!(whole, parts);
    assert_eq!(whole, "LineCap");
}

#[test]
fn test_generate_spec_items() {
    let reference = reference(
        r#"{
            "$version": 8,
            "$root": {},
            "number_one": {
              "doc": "A number between 0 and 10.",
              "type": "number",
              "default": 0
            }
        }"#,
    );
    let expected = "/// This is a Maplibre Style Specification
#[derive(serde::Deserialise, PartialEq, Debug, Clone)]
pub struct MaplibreStyleSpecification;

/// A number between 0 and 10.
#[derive(serde::Deserialise, PartialEq, Debug, Clone)]
pub struct NumberOne(serde_json::Number);

impl Default for NumberOne {
    fn default() {
        0
    }
}";
    assert_eq!(generate_spec_scope(reference), expected);
}

#[test]
fn test_generate_spec_groups() {
    // A group of string items: code for string items is not written yet, so the reference is
    // refused rather than generated.
    let reference = reference(
        r#"{
            "$version": 8,
            "$root": {},
            "names": {
              "name_one": {
                "type": "string",
                "default": "default_name"
              }
            }
        }"#,
    );
    assert_eq!(try_generate_spec_scope(reference), None);
}

#[test]
fn a_generable_reference_is_generated() {
    let reference = reference(r#"{"$version": 8, "$root": {}, "numbers": ["a", "b"]}"#);
    let text = try_generate_spec_scope(reference).unwrap();
    assert!(text.contains("pub enum Numbers {"), "{text}");
}

#[test]
fn camel_case_ignores_the_case_of_ascii_names() {
    for name in ["my_struct_name", "hello world", "__weird__name__", "alreadyCamel", "Line-CAP-7x"] {
        let r = to_upper_camel_case(name);
        assert_eq!(r, to_upper_camel_case(&name.to_ascii_lowercase()));
        assert_eq!(r, to_upper_camel_case(&name.to_ascii_uppercase()));
    }
}

#[test]
fn test_generate_spec_oneof() {
    let reference = reference(
        r#"{
            "$version": 8,
            "$root": {},
            "number_one": {
              "type": "number",
              "doc": "A number between 0 and 20.",
              "default": 1.0,
              "default": 2.0,
              "minimum": 0.0,
              "maximum": 10.0
            },
            "number_two": {
              "type": "number",
              "doc": "A number between 0 and 20.",
              "default": 2.0,
              "minimum": 0.0,
              "maximum": 20.0
            },
            "numbers": ["number_one", "number_two"]
        }"#,
    );
    let expected = "/// This is a Maplibre Style Specification
#[derive(serde::Deserialise, PartialEq, Debug, Clone)]
pub struct MaplibreStyleSpecification;

/// A number between 0 and 20.
#[derive(serde::Deserialise, PartialEq, Debug, Clone)]
pub struct NumberOne(serde_json::Number);

impl Default for NumberOne {
    fn default() {
        2.0
    }
}

/// A number between 0 and 20.
#[derive(serde::Deserialise, PartialEq, Debug, Clone)]
pub struct NumberTwo(serde_json::Number);

impl Default for NumberTwo {
    fn default() {
        2.0
    }
}

#[derive(serde::Deserialise, PartialEq, Debug, Clone)]
pub enum Numbers {
    #[serde(rename=\"number_one\")]
    NumberOne(NumberOne),
    #[serde(rename=\"number_two\")]
    NumberTwo(NumberTwo),
}";
    assert_eq!(generate_spec_scope(reference), expected);
}

#[test]
fn generates_root_fields_with_their_docs() {
    let reference = reference(
        r#"{
            "$version": 8,
            "$root": {
                "version": {"type": "enum", "doc": "Style specification version number.", "values": [8]},
                "name": {"type": "string", "doc": "A human-readable name for the style."}
            }
        }"#,
    );
    let text = generate_spec_scope(reference);
    let expected = "/// This is a Maplibre Style Specification
#[derive(serde::Deserialise, PartialEq, Debug, Clone)]
pub struct MaplibreStyleSpecification {
    /// A human-readable name for the style.
    pub name: Name,
    /// Style specification version number.
    pub version: Version,
}";
    assert_eq!(text, expected);
}

#[test]
fn generates_an_enum_with_a_default() {
    let reference = reference(
        r#"{
            "$version": 8,
            "$root": {},
            "line-cap": {
                "type": "enum",
                "doc": "The display of line endings.",
                "values": ["butt", "round"],
                "default": "butt"
            }
        }"#,
    );
    let text = generate_spec_scope(reference);
    assert!(text.contains("/// The display of line endings.\n"), "{text}");
    assert!(text.contains("#[derive(serde::Deserialise, PartialEq, Eq, Debug, Clone, Copy)]\npub enum LineCap {"), "{text}");
    assert!(text.contains("serde(rename=\"butt\")\n    Butt,"), "{text}");
    assert!(text.contains("serde(rename=\"round\")\n    Round,"), "{text}");
    assert!(text.contains("impl Default for LineCap {\n    fn default() {\n        \"butt\"\n    }\n}"), "{text}");
}

#[test]
fn generates_a_byte_struct_for_numeric_values() {
    let reference = reference(
        r#"{
            "$version": 8,
            "$root": {},
            "version": {"type": "enum", "doc": "The version.", "values": [8]}
        }"#,
    );
    let text = generate_spec_scope(reference);
    assert!(text.ends_with("/// The version.\n#[derive(serde::Deserialise, PartialEq, Eq, Debug, Clone, Copy)]\npub struct Version(u8);"), "{text}");
}

#[test]
fn generates_a_group_and_a_choice() {
    let reference = reference(
        r#"{
            "$version": 8,
            "$root": {},
            "sizes": {
                "size_one": {"type": "number", "doc": "The first size."}
            },
            "one_of": ["size_one", "size_two"]
        }"#,
    );
    let text = generate_spec_scope(reference);
    assert!(text.contains("#[derive(serde::Deserialise, PartialEq, Debug, Clone)]\npub struct Sizes {\n    /// The first size.\n    pub size_one: SizeOne,\n}"), "{text}");
    assert!(text.contains("/// The first size.\n#[derive(serde::Deserialise, PartialEq, Debug, Clone)]\npub struct SizeOne(serde_json::Number);"), "{text}");
    assert!(text.contains("pub enum OneOf {\n    #[serde(rename=\"size_one\")]\n    SizeOne(SizeOne),\n    #[serde(rename=\"size_two\")]\n    SizeTwo(SizeTwo),\n}"), "{text}");
}

#[test]
fn generates_described_enum_values() {
    let reference = reference(
        r#"{
            "$version": 8,
            "$root": {},
            "anchor": {
                "type": "enum",
                "doc": "The anchor.",
                "values": {"map": {"doc": "Aligned to the map."}}
            }
        }"#,
    );
    let text = generate_spec_scope(reference);
    assert!(text.contains("pub enum Anchor {\n    #[serde(rename=\"map\")]\n    /// Aligned to the map.\n    Map,\n}"), "{text}");
}
