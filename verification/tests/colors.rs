use maplibre_style_spec::colors::{default_color, ColorValue};
use maplibre_style_spec::json::{JsonDecode, JsonEncode, JsonValue};
use maplibre_style_spec::spec::named_types::{LightColor, SkySkyColor};

#[test]
fn css_colors_parse() {
    let red = ColorValue::parse("red").expect("a named color");
    assert_eq!(red.text(), "red");
    assert_eq!(red.color(), color::parse_color("red").unwrap());
    assert!(ColorValue::parse("#12ab").is_some());
    assert!(ColorValue::parse("rgb(1, 2, 3)").is_some());
    assert!(ColorValue::parse("not a color").is_none());
}

#[test]
fn a_six_digit_color_is_a_default() {
    let white = default_color("#ffffff");
    assert_eq!(white.text(), "#ffffff");
    assert_eq!(white.color(), color::parse_color("#ffffff").unwrap());
}

#[test]
fn colors_read_from_strings() {
    let c = ColorValue::decode(&JsonValue::String("blue".to_string())).unwrap();
    assert_eq!(c.encode(), JsonValue::String("blue".to_string()));
    assert!(ColorValue::decode(&JsonValue::String("bleu".to_string())).is_err());
    assert!(ColorValue::decode(&JsonValue::Bool(true)).is_err());
}

#[test]
fn color_defaults() {
    assert_eq!(LightColor::default().encode(), JsonValue::String("#ffffff".to_string()));
    assert_eq!(SkySkyColor::default().encode(), JsonValue::String("#88C6FC".to_string()));
}

#[test]
fn a_color_holds_what_the_color_crate_parses_from_its_text() {
    for text in ["#ff0000", "#88C6FC", "rgba(0, 0, 0, 0)", "royalblue"] {
        let held = maplibre_style_spec::colors::ColorValue::parse(text).unwrap().color();
        let expected = color::parse_color(text).unwrap();
        assert_eq!(held.components, expected.components, "{text}");
        assert_eq!(held.cs, expected.cs, "{text}");
    }
}
