use maplibre_style_spec::json::{JsonDecode, JsonEncode, JsonNumber, JsonValue};
use maplibre_style_spec::spec::layers::{AnyLayer, LayerFilter, TypedLayer};

fn doc(v: &serde_json::Value) -> JsonValue {
    match v {
        serde_json::Value::Null => JsonValue::Null,
        serde_json::Value::Bool(b) => JsonValue::Bool(*b),
        serde_json::Value::Number(n) => JsonValue::Number(JsonNumber::new(n.to_string())),
        serde_json::Value::String(s) => JsonValue::String(s.clone()),
        serde_json::Value::Array(a) => JsonValue::Array(a.iter().map(doc).collect()),
        serde_json::Value::Object(o) => {
            JsonValue::Object(o.iter().map(|(k, v)| (k.clone(), doc(v))).collect())
        }
    }
}

fn parse(text: &str) -> JsonValue {
    let v: serde_json::Value = serde_json::from_str(text).unwrap();
    doc(&v)
}

#[test]
fn reads_a_typed_layer() {
    let layer = AnyLayer::decode(&parse(
        r##"{"id": "water", "type": "fill", "source": "base", "source-layer": "water",
            "paint": {"fill-color": "#00f"}, "layout": {"visibility": "visible"}}"##,
    ))
    .unwrap();
    assert_eq!(layer.id().as_str(), "water");
    assert_eq!(layer.layer_type(), Some("fill"));
    assert_eq!(layer.source(), Some("base"));
    assert_eq!(layer.source_layer(), Some("water"));
    assert!(layer.common().is_some());
    match &layer {
        AnyLayer::Typed(TypedLayer::Fill { paint, layout, .. }) => {
            assert!(paint.is_some());
            assert!(layout.is_some());
        }
        _ => panic!("not a fill layer"),
    }
}

#[test]
fn reads_a_ref_layer() {
    let layer = AnyLayer::decode(&parse(r#"{"id": "copy", "ref": "water"}"#)).unwrap();
    assert!(matches!(layer, AnyLayer::Ref(_)));
    assert_eq!(layer.id().as_str(), "copy");
    assert_eq!(layer.layer_type(), None);
    assert_eq!(layer.source(), None);
    assert!(layer.common().is_none());
}

#[test]
fn an_unknown_layer_type_is_refused() {
    let e = TypedLayer::decode(&parse(r#"{"id": "x", "type": "sky"}"#)).unwrap_err();
    assert_eq!(
        e,
        "unknown variant `sky`, expected one of `background`, `circle`, `color-relief`, `fill`, `fill-extrusion`, `heatmap`, `hillshade`, `line`, `raster`, `symbol`"
    );
    let e = TypedLayer::decode(&parse(r#"{"id": "x"}"#)).unwrap_err();
    assert_eq!(e, "missing field `type`");
    let e = AnyLayer::decode(&parse(r#"{"type": "fill"}"#)).unwrap_err();
    assert_eq!(
        e,
        "AnyLayer: no variant matched. Expected Typed(TypedLayer) | Ref(RefLayer). Errors: [Typed: missing field `id`; Ref: missing field `id`]"
    );
}

#[test]
fn a_layer_round_trips() {
    let text = r#"{"id": "roads", "type": "line", "source": "base", "minzoom": 4,
                   "filter": ["==", "class", "road"], "paint": {"line-width": 2}}"#;
    let layer = TypedLayer::decode(&parse(text)).unwrap();
    let written = layer.encode();
    assert_eq!(TypedLayer::decode(&written).unwrap(), layer);
    match &written {
        JsonValue::Object(entries) => assert_eq!(entries[0], ("type".to_string(), JsonValue::String("line".to_string()))),
        _ => panic!("not an object"),
    }
}

#[test]
fn common_fields_can_be_changed() {
    let mut layer = TypedLayer::decode(&parse(r#"{"id": "a", "type": "background"}"#)).unwrap();
    let id = TypedLayer::decode(&parse(r#"{"id": "b", "type": "circle"}"#)).unwrap().common().id.clone();
    layer.common_mut().id = id;
    assert_eq!(layer.common().id.as_str(), "b");
    assert_eq!(layer.layer_type(), "background");
    let mut any = AnyLayer::Typed(layer);
    if let Some(c) = any.common_mut() {
        c.source = None;
    }
    assert_eq!(any.id().as_str(), "b");
}

#[test]
fn literal_filters() {
    assert_eq!(LayerFilter::from_value(parse("true")).as_literal_bool(), Some(true));
    assert_eq!(LayerFilter::from_value(parse(r#"["literal", false]"#)).as_literal_bool(), Some(false));
    assert_eq!(LayerFilter::from_value(parse(r#"["literal", 1]"#)).as_literal_bool(), None);
    assert_eq!(LayerFilter::from_value(parse(r#"["==", "a", 1]"#)).as_literal_bool(), None);
    let mut f = LayerFilter::from_value(parse("false"));
    *f.as_value_mut() = JsonValue::Bool(true);
    assert_eq!(f.as_value(), &JsonValue::Bool(true));
}

#[test]
fn a_ref_layer_reads_from_an_array() {
    let layer = AnyLayer::decode(&parse(r#"["copy", "water"]"#)).unwrap();
    assert_eq!(layer.id().as_str(), "copy");
    assert!(matches!(layer, AnyLayer::Ref(_)));
}

#[test]
fn a_typed_layer_reports_paint_and_layout_in_document_order() {
    let entries = |first: &str, second: &str| {
        JsonValue::Object(vec![
            ("id".to_string(), JsonValue::String("water".to_string())),
            ("type".to_string(), JsonValue::String("fill".to_string())),
            (first.to_string(), JsonValue::Number(JsonNumber::new("1".to_string()))),
            (second.to_string(), JsonValue::Number(JsonNumber::new("2".to_string()))),
        ])
    };
    let e = TypedLayer::decode(&entries("layout", "paint")).unwrap_err();
    assert_eq!(e, "invalid type: integer `1`, expected struct FillLayoutLayer");
    let e = TypedLayer::decode(&entries("paint", "layout")).unwrap_err();
    assert_eq!(e, "invalid type: integer `1`, expected struct FillPaintLayer");
}
