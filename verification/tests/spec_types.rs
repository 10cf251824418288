use maplibre_style_spec::json::{JsonDecode, JsonEncode, JsonNumber, JsonValue};
use maplibre_style_spec::spec::{Base, LayoutCircle, Visibility};

fn number(t: &str) -> JsonValue {
    JsonValue::Number(JsonNumber::new(t.to_string()))
}

#[test]
fn the_interpolation_base_defaults_to_one() {
    assert_eq!(Base::default().encode(), number("1"));
}

#[test]
fn a_circle_layout_reads_its_fields() {
    let v = JsonValue::Object(vec![
        ("circle-sort-key".to_string(), number("3")),
        ("visibility".to_string(), JsonValue::String("none".to_string())),
    ]);
    let layout = LayoutCircle::decode(&v).unwrap();
    assert_eq!(layout.visibility, Visibility::NoneValue);
    let missing = JsonValue::Object(vec![("circle-sort-key".to_string(), number("3"))]);
    assert_eq!(LayoutCircle::decode(&missing).unwrap_err(), "missing field `visibility`");
    let wrong = JsonValue::Object(vec![("circle-sort-key".to_string(), JsonValue::Bool(true))]);
    assert_eq!(
        LayoutCircle::decode(&wrong).unwrap_err(),
        "invalid type: boolean `true`, expected a JSON number"
    );
}
