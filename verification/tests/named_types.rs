use maplibre_style_spec::json::{JsonDecode, JsonEncode, JsonNumber, JsonValue};
use maplibre_style_spec::spec::named_types::{
    InterpolationName, Light, LightAnchor, LightIntensity, LightPosition, PromoteId, PropertyType, TerrainExaggeration,
    Transition,
};

fn doc(v: &serde_json::Value) -> JsonValue {
    match v {
        serde_json::Value::Null => JsonValue::Null,
        serde_json::Value::Bool(b) => JsonValue::Bool(*b),
        serde_json::Value::Number(n) => JsonValue::Number(JsonNumber::new(n.to_string())),
        serde_json::Value::String(s) => JsonValue::String(s.clone()),
        serde_json::Value::Array(a) => JsonValue::Array(a.iter().map(doc).collect()),
        serde_json::Value::Object(o) => {
            JsonValue::Object(o.iter().map(|(k, v)| (k.clone(), doc(v))).collect())
        }
    }
}

fn parse(text: &str) -> JsonValue {
    let v: serde_json::Value = serde_json::from_str(text).unwrap();
    doc(&v)
}

#[test]
fn test_example_light_anchor_decodes() {
    let example = parse("\"map\"");
    let _ = LightAnchor::decode(&example).expect("example should decode");
}

#[test]
fn test_example_light_position_decodes() {
    let example = parse("[1.5, 90, 80]");
    let _ = LightPosition::decode(&example).expect("example should decode");
}

#[test]
fn interpolation_examples_decode() {
    for example in [r#"["cubic-bezier",2,3,2,3]"#, r#"["exponential",2]"#, r#"["linear"]"#] {
        let _ = InterpolationName::decode(&parse(example)).expect("example should decode");
    }
    assert_eq!(InterpolationName::decode(&parse(r#"["linear"]"#)).unwrap(), InterpolationName::Linear);
}

#[test]
fn interpolation_errors() {
    assert_eq!(InterpolationName::decode(&parse("[]")).unwrap_err(), "missing operator");
    assert_eq!(
        InterpolationName::decode(&parse(r#"["linear", 1]"#)).unwrap_err(),
        "invalid length 2, expected fewer elements in array"
    );
    assert_eq!(
        InterpolationName::decode(&parse(r#"["cubic-bezier", 1]"#)).unwrap_err(),
        "missing field `y1`"
    );
    assert_eq!(
        InterpolationName::decode(&parse(r#"["exponential", "x"]"#)).unwrap_err(),
        "invalid type: string \"x\", expected a JSON number"
    );
    assert_eq!(
        InterpolationName::decode(&parse(r#"["step"]"#)).unwrap_err(),
        "unknown variant `step`, expected one of `cubic-bezier`, `exponential`, `linear`"
    );
    assert_eq!(InterpolationName::decode(&parse("[1]")).unwrap_err(), "invalid type: integer `1`, expected a string");
    assert_eq!(
        InterpolationName::decode(&parse("{}")).unwrap_err(),
        "invalid type: map, expected an InterpolationName expression (example: [\"cubic-bezier\",2,3,2,3])"
    );
}

#[test]
fn interpolation_is_written_with_its_variant_name() {
    assert_eq!(InterpolationName::Linear.encode(), parse("\"Linear\""));
    let e = InterpolationName::decode(&parse(r#"["exponential",2]"#)).unwrap();
    assert_eq!(e.encode(), parse(r#"{"Exponential": 2}"#));
}

#[test]
fn promote_id_keeps_keys_in_order() {
    let p = PromoteId::decode(&parse(r#"{"b": "x", "a": "y"}"#)).unwrap();
    let star = p.star.clone().unwrap();
    assert_eq!(star.len(), 2);
    assert_eq!(star[0].0, "a");
    assert_eq!(star[1].0, "b");
    assert_eq!(PromoteId::decode(&p.encode()).unwrap(), p);
}

#[test]
fn promote_id_without_string_values_has_no_map() {
    let p = PromoteId::decode(&parse(r#"{"a": 1}"#)).unwrap();
    assert!(p.star.is_none());
    assert_eq!(p.encode(), parse("{}"));
    assert_eq!(PromoteId::decode(&parse("\"a\"")).unwrap_err(), "invalid type: string \"a\", expected struct PromoteId");
}

#[test]
fn property_type_is_null() {
    assert!(PropertyType::decode(&JsonValue::Null).is_ok());
    assert!(PropertyType::decode(&parse("1")).is_err());
    assert_eq!(PropertyType.encode(), JsonValue::Null);
}

#[test]
fn defaults_are_the_numbers_serde_json_writes() {
    let half = serde_json::Number::from_f64(0.5).unwrap().to_string();
    assert_eq!(LightIntensity::default().encode(), JsonValue::Number(JsonNumber::new(half)));
    let one = serde_json::Number::from_f64(1.0).unwrap().to_string();
    assert_eq!(TerrainExaggeration::default().encode(), JsonValue::Number(JsonNumber::new(one)));
}

#[test]
fn light_round_trips() {
    let text = r#"{"anchor": "viewport", "color": "red", "intensity": 0.4, "position": [1.15, 210, 30]}"#;
    let light = Light::decode(&parse(text)).unwrap();
    assert_eq!(light.anchor, Some(LightAnchor::Viewport));
    let again = Light::decode(&light.encode()).unwrap();
    assert_eq!(again, light);
}

#[test]
fn an_unknown_anchor_is_refused() {
    let e = LightAnchor::decode(&parse("\"north\"")).unwrap_err();
    assert_eq!(e, "unknown variant `north`, expected `map` or `viewport`");
}

#[test]
fn a_struct_reads_from_an_array_of_its_fields() {
    let t = Transition::decode(&parse("[100, 200]")).unwrap();
    assert_eq!(t, Transition::decode(&parse(r#"{"delay": 100, "duration": 200}"#)).unwrap());
    assert_eq!(
        Transition::decode(&parse("[100]")).unwrap_err(),
        "invalid length 1, expected struct Transition with 2 elements"
    );
    assert_eq!(
        Transition::decode(&parse("[1, 2, 3]")).unwrap_err(),
        "invalid length 3, expected fewer elements in array"
    );
    assert_eq!(Transition::decode(&parse("true")).unwrap_err(), "invalid type: boolean `true`, expected struct Transition");
}

#[test]
fn a_unit_value_reads_from_a_single_entry_object() {
    assert_eq!(LightAnchor::decode(&parse(r#"{"map": null}"#)).unwrap(), LightAnchor::MapValue);
    assert_eq!(
        LightAnchor::decode(&parse(r#"{"map": null, "viewport": null}"#)).unwrap_err(),
        "invalid value: map, expected map with a single key"
    );
    assert_eq!(LightAnchor::decode(&parse(r#"{"map": 1}"#)).unwrap_err(), "invalid type: integer `1`, expected unit");
    assert_eq!(LightAnchor::decode(&parse("1")).unwrap_err(), "invalid type: integer `1`, expected string or map");
}
