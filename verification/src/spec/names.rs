use vstd::prelude::*;
use crate::json::{Json, JsonDecode, JsonEncode};
use crate::spec::{
    Anchor, CirclePitchAlignment, CirclePitchScale, CircleTranslateAnchor, Colorspace, Encoding, ExpressionName, FillExtrusionTranslateAnchor, FillTranslateAnchor, FilterOperator, GeometryType, HillshadeIlluminationAnchor, HillshadeMethod, IconAnchor, IconOverlap, IconPitchAlignment, IconRotationAlignment, IconTextFit, IconTranslateAnchor, LineCap, LineJoin, LineTranslateAnchor, RasterResampling, Scheme, SymbolPlacement, SymbolZOrder, TextAnchor, TextJustify, TextOverlap, TextPitchAlignment, TextRotationAlignment, TextTransform, TextTranslateAnchor, Visibility,
};

verus! {

impl ExpressionName {
    /// Each value is read from, and written as, the name that the style specification gives
    /// it: the document holding that name reads as the value.
    pub proof fn lemma_read_by_name()
        ensures
            <ExpressionName as JsonDecode>::decodes(Json::Str("acos"@), ExpressionName::Arccosine),
            <ExpressionName as JsonDecode>::decodes(Json::Str("case"@), ExpressionName::Case),
            <ExpressionName as JsonDecode>::decodes(Json::Str("rgb"@), ExpressionName::Rgb),
            <ExpressionName as JsonDecode>::decodes(Json::Str("concat"@), ExpressionName::Concat),
            <ExpressionName as JsonDecode>::decodes(Json::Str("get"@), ExpressionName::Get),
            <ExpressionName as JsonDecode>::decodes(Json::Str("floor"@), ExpressionName::Floor),
            <ExpressionName as JsonDecode>::decodes(Json::Str("+"@), ExpressionName::Plus),
            <ExpressionName as JsonDecode>::decodes(Json::Str("all"@), ExpressionName::All),
            <ExpressionName as JsonDecode>::decodes(Json::Str("var"@), ExpressionName::Var),
            <ExpressionName as JsonDecode>::decodes(Json::Str("within"@), ExpressionName::Within),
            <ExpressionName as JsonDecode>::decodes(Json::Str("to-rgba"@), ExpressionName::ToRgba),
            <ExpressionName as JsonDecode>::decodes(Json::Str("coalesce"@), ExpressionName::Coalesce),
            <ExpressionName as JsonDecode>::decodes(Json::Str("tan"@), ExpressionName::Tan),
            <ExpressionName as JsonDecode>::decodes(Json::Str("accumulated"@), ExpressionName::Accumulated),
            <ExpressionName as JsonDecode>::decodes(Json::Str("/"@), ExpressionName::Slash),
            <ExpressionName as JsonDecode>::decodes(Json::Str("heatmap-density"@), ExpressionName::HeatmapDensity),
            <ExpressionName as JsonDecode>::decodes(Json::Str("match"@), ExpressionName::Match),
            <ExpressionName as JsonDecode>::decodes(Json::Str("feature-state"@), ExpressionName::FeatureState),
            <ExpressionName as JsonDecode>::decodes(Json::Str("properties"@), ExpressionName::Properties),
            <ExpressionName as JsonDecode>::decodes(Json::Str("!"@), ExpressionName::Not),
            <ExpressionName as JsonDecode>::decodes(Json::Str("pi"@), ExpressionName::Pi),
            <ExpressionName as JsonDecode>::decodes(Json::Str("object"@), ExpressionName::Object),
            <ExpressionName as JsonDecode>::decodes(Json::Str("downcase"@), ExpressionName::Downcase),
            <ExpressionName as JsonDecode>::decodes(Json::Str("has"@), ExpressionName::Has),
            <ExpressionName as JsonDecode>::decodes(Json::Str("asin"@), ExpressionName::Asin),
            <ExpressionName as JsonDecode>::decodes(Json::Str("step"@), ExpressionName::Step),
            <ExpressionName as JsonDecode>::decodes(Json::Str("ln2"@), ExpressionName::Ln2),
            <ExpressionName as JsonDecode>::decodes(Json::Str("^"@), ExpressionName::Power),
            <ExpressionName as JsonDecode>::decodes(Json::Str("max"@), ExpressionName::Max),
            <ExpressionName as JsonDecode>::decodes(Json::Str("<="@), ExpressionName::Lessequal),
            <ExpressionName as JsonDecode>::decodes(Json::Str("*"@), ExpressionName::Star),
            <ExpressionName as JsonDecode>::decodes(Json::Str("image"@), ExpressionName::Image),
            <ExpressionName as JsonDecode>::decodes(Json::Str("to-number"@), ExpressionName::ToNumber),
            <ExpressionName as JsonDecode>::decodes(Json::Str("in"@), ExpressionName::In),
            <ExpressionName as JsonDecode>::decodes(Json::Str("any"@), ExpressionName::Any),
            <ExpressionName as JsonDecode>::decodes(Json::Str("interpolate-lab"@), ExpressionName::InterpolateLab),
            <ExpressionName as JsonDecode>::decodes(Json::Str("index-of"@), ExpressionName::IndexOf),
            <ExpressionName as JsonDecode>::decodes(Json::Str("number-format"@), ExpressionName::NumberFormat),
            <ExpressionName as JsonDecode>::decodes(Json::Str("id"@), ExpressionName::Id),
            <ExpressionName as JsonDecode>::decodes(Json::Str("at"@), ExpressionName::At),
            <ExpressionName as JsonDecode>::decodes(Json::Str("log10"@), ExpressionName::Log10),
            <ExpressionName as JsonDecode>::decodes(Json::Str("upcase"@), ExpressionName::Upcase),
            <ExpressionName as JsonDecode>::decodes(Json::Str("rgba"@), ExpressionName::Rgba),
            <ExpressionName as JsonDecode>::decodes(Json::Str("to-string"@), ExpressionName::ToString),
            <ExpressionName as JsonDecode>::decodes(Json::Str("let"@), ExpressionName::Let),
            <ExpressionName as JsonDecode>::decodes(Json::Str("length"@), ExpressionName::Length),
            <ExpressionName as JsonDecode>::decodes(Json::Str("distance"@), ExpressionName::Distance),
            <ExpressionName as JsonDecode>::decodes(Json::Str(">"@), ExpressionName::Greater),
            <ExpressionName as JsonDecode>::decodes(Json::Str("to-boolean"@), ExpressionName::ToBoolean),
            <ExpressionName as JsonDecode>::decodes(Json::Str("log2"@), ExpressionName::Log2),
            <ExpressionName as JsonDecode>::decodes(Json::Str("atan"@), ExpressionName::Atan),
            <ExpressionName as JsonDecode>::decodes(Json::Str("<"@), ExpressionName::Less),
            <ExpressionName as JsonDecode>::decodes(Json::Str("typeof"@), ExpressionName::Typeof),
            <ExpressionName as JsonDecode>::decodes(Json::Str("=="@), ExpressionName::Equal),
            <ExpressionName as JsonDecode>::decodes(Json::Str("geometry-type"@), ExpressionName::GeometryType),
            <ExpressionName as JsonDecode>::decodes(Json::Str("sqrt"@), ExpressionName::Sqrt),
            <ExpressionName as JsonDecode>::decodes(Json::Str("collator"@), ExpressionName::Collator),
            <ExpressionName as JsonDecode>::decodes(Json::Str("e"@), ExpressionName::E),
            <ExpressionName as JsonDecode>::decodes(Json::Str("cos"@), ExpressionName::Cos),
            <ExpressionName as JsonDecode>::decodes(Json::Str("zoom"@), ExpressionName::Zoom),
            <ExpressionName as JsonDecode>::decodes(Json::Str("array"@), ExpressionName::Array),
            <ExpressionName as JsonDecode>::decodes(Json::Str(">="@), ExpressionName::Greaterequal),
            <ExpressionName as JsonDecode>::decodes(Json::Str("string"@), ExpressionName::String),
            <ExpressionName as JsonDecode>::decodes(Json::Str("!="@), ExpressionName::NotEqual),
            <ExpressionName as JsonDecode>::decodes(Json::Str("ln"@), ExpressionName::Ln),
            <ExpressionName as JsonDecode>::decodes(Json::Str("sin"@), ExpressionName::Sin),
            <ExpressionName as JsonDecode>::decodes(Json::Str("abs"@), ExpressionName::Absolute),
            <ExpressionName as JsonDecode>::decodes(Json::Str("boolean"@), ExpressionName::Boolean),
            <ExpressionName as JsonDecode>::decodes(Json::Str("to-color"@), ExpressionName::ToColor),
            <ExpressionName as JsonDecode>::decodes(Json::Str("global-state"@), ExpressionName::GlobalState),
            <ExpressionName as JsonDecode>::decodes(Json::Str("ceil"@), ExpressionName::Ceil),
            <ExpressionName as JsonDecode>::decodes(Json::Str("%"@), ExpressionName::Percentage),
            <ExpressionName as JsonDecode>::decodes(Json::Str("min"@), ExpressionName::Min),
            <ExpressionName as JsonDecode>::decodes(Json::Str("interpolate"@), ExpressionName::Interpolate),
            <ExpressionName as JsonDecode>::decodes(Json::Str("interpolate-hcl"@), ExpressionName::InterpolateHcl),
            <ExpressionName as JsonDecode>::decodes(Json::Str("line-progress"@), ExpressionName::LineProgress),
            <ExpressionName as JsonDecode>::decodes(Json::Str("number"@), ExpressionName::Number),
            <ExpressionName as JsonDecode>::decodes(Json::Str("slice"@), ExpressionName::Slice),
            <ExpressionName as JsonDecode>::decodes(Json::Str("elevation"@), ExpressionName::Elevation),
            <ExpressionName as JsonDecode>::decodes(Json::Str("format"@), ExpressionName::Format),
            <ExpressionName as JsonDecode>::decodes(Json::Str("round"@), ExpressionName::Round),
            <ExpressionName as JsonDecode>::decodes(Json::Str("-"@), ExpressionName::Minus),
            <ExpressionName as JsonDecode>::decodes(Json::Str("resolved-locale"@), ExpressionName::ResolvedLocale),
            <ExpressionName as JsonDecode>::decodes(Json::Str("literal"@), ExpressionName::Literal),
            <ExpressionName as JsonDecode>::decodes(Json::Str("is-supported-script"@), ExpressionName::IsSupportedScript),
    {
    }
}

impl FilterOperator {
    /// Each value is read from, and written as, the name that the style specification gives
    /// it: the document holding that name reads as the value.
    pub proof fn lemma_read_by_name()
        ensures
            <FilterOperator as JsonDecode>::decodes(Json::Str("has"@), FilterOperator::Has),
            <FilterOperator as JsonDecode>::decodes(Json::Str("none"@), FilterOperator::NoneValue),
            <FilterOperator as JsonDecode>::decodes(Json::Str("!in"@), FilterOperator::NotIn),
            <FilterOperator as JsonDecode>::decodes(Json::Str("any"@), FilterOperator::Any),
            <FilterOperator as JsonDecode>::decodes(Json::Str("<="@), FilterOperator::Lessequal),
            <FilterOperator as JsonDecode>::decodes(Json::Str("<"@), FilterOperator::Less),
            <FilterOperator as JsonDecode>::decodes(Json::Str(">="@), FilterOperator::Greaterequal),
            <FilterOperator as JsonDecode>::decodes(Json::Str("!has"@), FilterOperator::NotHas),
            <FilterOperator as JsonDecode>::decodes(Json::Str("in"@), FilterOperator::In),
            <FilterOperator as JsonDecode>::decodes(Json::Str("!="@), FilterOperator::NotEqual),
            <FilterOperator as JsonDecode>::decodes(Json::Str("=="@), FilterOperator::Equal),
            <FilterOperator as JsonDecode>::decodes(Json::Str(">"@), FilterOperator::Greater),
            <FilterOperator as JsonDecode>::decodes(Json::Str("all"@), FilterOperator::All),
    {
    }
}

impl Colorspace {
    /// Each value is read from, and written as, the name that the style specification gives
    /// it, and a document holding one of these names reads as that value and no other.
    pub proof fn lemma_read_by_name()
        ensures
            forall|x: Colorspace| <Colorspace as JsonDecode>::decodes(Json::Str("lab"@), x) <==> x == Colorspace::Lab,
            forall|x: Colorspace| <Colorspace as JsonDecode>::decodes(Json::Str("hcl"@), x) <==> x == Colorspace::Hcl,
            forall|x: Colorspace| <Colorspace as JsonDecode>::decodes(Json::Str("rgb"@), x) <==> x == Colorspace::Rgb,
    {
        reveal_strlit("hcl");
        reveal_strlit("rgb");
        reveal_strlit("lab");
        assert("hcl"@[0] != "lab"@[0]);
        assert("lab"@[0] != "rgb"@[0]);
        assert("hcl"@[0] != "rgb"@[0]);
    }
}

impl GeometryType {
    /// Each value is read from, and written as, the name that the style specification gives
    /// it, and a document holding one of these names reads as that value and no other.
    pub proof fn lemma_read_by_name()
        ensures
            forall|x: GeometryType| <GeometryType as JsonDecode>::decodes(Json::Str("Point"@), x) <==> x == GeometryType::Point,
            forall|x: GeometryType| <GeometryType as JsonDecode>::decodes(Json::Str("LineString"@), x) <==> x == GeometryType::Linestring,
            forall|x: GeometryType| <GeometryType as JsonDecode>::decodes(Json::Str("Polygon"@), x) <==> x == GeometryType::Polygon,
    {
        reveal_strlit("Polygon");
        reveal_strlit("LineString");
        reveal_strlit("Point");
        assert("LineString"@.len() != "Point"@.len());
        assert("Point"@.len() != "Polygon"@.len());
        assert("LineString"@.len() != "Polygon"@.len());
    }
}

impl Visibility {
    /// Each value is read from, and written as, the name that the style specification gives
    /// it, and a document holding one of these names reads as that value and no other.
    pub proof fn lemma_read_by_name()
        ensures
            forall|x: Visibility| <Visibility as JsonDecode>::decodes(Json::Str("visible"@), x) <==> x == Visibility::Visible,
            forall|x: Visibility| <Visibility as JsonDecode>::decodes(Json::Str("none"@), x) <==> x == Visibility::NoneValue,
    {
        reveal_strlit("visible");
        reveal_strlit("none");
        assert("none"@.len() != "visible"@.len());
    }
}

impl LineCap {
    /// Each value is read from, and written as, the name that the style specification gives
    /// it, and a document holding one of these names reads as that value and no other.
    pub proof fn lemma_read_by_name()
        ensures
            forall|x: LineCap| <LineCap as JsonDecode>::decodes(Json::Str("butt"@), x) <==> x == LineCap::Butt,
            forall|x: LineCap| <LineCap as JsonDecode>::decodes(Json::Str("square"@), x) <==> x == LineCap::Square,
            forall|x: LineCap| <LineCap as JsonDecode>::decodes(Json::Str("round"@), x) <==> x == LineCap::Round,
    {
        reveal_strlit("butt");
        reveal_strlit("square");
        reveal_strlit("round");
        assert("butt"@.len() != "square"@.len());
        assert("butt"@.len() != "round"@.len());
        assert("round"@.len() != "square"@.len());
    }
}

impl LineJoin {
    /// Each value is read from, and written as, the name that the style specification gives
    /// it, and a document holding one of these names reads as that value and no other.
    pub proof fn lemma_read_by_name()
        ensures
            forall|x: LineJoin| <LineJoin as JsonDecode>::decodes(Json::Str("bevel"@), x) <==> x == LineJoin::Bevel,
            forall|x: LineJoin| <LineJoin as JsonDecode>::decodes(Json::Str("round"@), x) <==> x == LineJoin::Round,
            forall|x: LineJoin| <LineJoin as JsonDecode>::decodes(Json::Str("miter"@), x) <==> x == LineJoin::Miter,
    {
        reveal_strlit("bevel");
        reveal_strlit("miter");
        reveal_strlit("round");
        assert("bevel"@[0] != "miter"@[0]);
        assert("bevel"@[0] != "round"@[0]);
        assert("miter"@[0] != "round"@[0]);
    }
}

impl IconAnchor {
    /// Each value is read from, and written as, the name that the style specification gives
    /// it, and a document holding one of these names reads as that value and no other.
    pub proof fn lemma_read_by_name()
        ensures
            forall|x: IconAnchor| <IconAnchor as JsonDecode>::decodes(Json::Str("top-left"@), x) <==> x == IconAnchor::TopLeft,
            forall|x: IconAnchor| <IconAnchor as JsonDecode>::decodes(Json::Str("top"@), x) <==> x == IconAnchor::Top,
            forall|x: IconAnchor| <IconAnchor as JsonDecode>::decodes(Json::Str("left"@), x) <==> x == IconAnchor::Left,
            forall|x: IconAnchor| <IconAnchor as JsonDecode>::decodes(Json::Str("bottom"@), x) <==> x == IconAnchor::Bottom,
            forall|x: IconAnchor| <IconAnchor as JsonDecode>::decodes(Json::Str("top-right"@), x) <==> x == IconAnchor::TopRight,
            forall|x: IconAnchor| <IconAnchor as JsonDecode>::decodes(Json::Str("bottom-left"@), x) <==> x == IconAnchor::BottomLeft,
            forall|x: IconAnchor| <IconAnchor as JsonDecode>::decodes(Json::Str("center"@), x) <==> x == IconAnchor::Center,
            forall|x: IconAnchor| <IconAnchor as JsonDecode>::decodes(Json::Str("bottom-right"@), x) <==> x == IconAnchor::BottomRight,
            forall|x: IconAnchor| <IconAnchor as JsonDecode>::decodes(Json::Str("right"@), x) <==> x == IconAnchor::Right,
    {
        reveal_strlit("bottom-left");
        reveal_strlit("center");
        reveal_strlit("left");
        reveal_strlit("bottom-right");
        reveal_strlit("bottom");
        reveal_strlit("top-right");
        reveal_strlit("right");
        reveal_strlit("top");
        reveal_strlit("top-left");
        assert("top"@.len() != "top-left"@.len());
        assert("bottom-left"@.len() != "right"@.len());
        assert("bottom-left"@.len() != "top"@.len());
        assert("bottom-right"@.len() != "center"@.len());
        assert("right"@.len() != "top-left"@.len());
        assert("bottom-left"@.len() != "left"@.len());
        assert("bottom"@.len() != "bottom-right"@.len());
        assert("right"@.len() != "top-right"@.len());
        assert("center"@.len() != "top-left"@.len());
        assert("center"@.len() != "top-right"@.len());
        assert("bottom"@.len() != "bottom-left"@.len());
        assert("bottom-left"@.len() != "top-right"@.len());
        assert("bottom"@[0] != "center"@[0]);
        assert("bottom-right"@.len() != "right"@.len());
        assert("bottom"@.len() != "top"@.len());
        assert("right"@.len() != "top"@.len());
        assert("bottom"@.len() != "right"@.len());
        assert("left"@.len() != "top-right"@.len());
        assert("top-left"@.len() != "top-right"@.len());
        assert("bottom-right"@.len() != "top-left"@.len());
        assert("bottom-right"@.len() != "top"@.len());
        assert("center"@.len() != "right"@.len());
        assert("left"@.len() != "right"@.len());
        assert("left"@.len() != "top-left"@.len());
        assert("bottom-left"@.len() != "center"@.len());
        assert("bottom"@.len() != "left"@.len());
        assert("bottom-right"@.len() != "left"@.len());
        assert("bottom-right"@.len() != "top-right"@.len());
        assert("top"@.len() != "top-right"@.len());
        assert("bottom-left"@.len() != "top-left"@.len());
        assert("center"@.len() != "top"@.len());
        assert("bottom-left"@.len() != "bottom-right"@.len());
        assert("bottom"@.len() != "top-right"@.len());
        assert("bottom"@.len() != "top-left"@.len());
        assert("center"@.len() != "left"@.len());
        assert("left"@.len() != "top"@.len());
    }
}

impl IconOverlap {
    /// Each value is read from, and written as, the name that the style specification gives
    /// it, and a document holding one of these names reads as that value and no other.
    pub proof fn lemma_read_by_name()
        ensures
            forall|x: IconOverlap| <IconOverlap as JsonDecode>::decodes(Json::Str("cooperative"@), x) <==> x == IconOverlap::Cooperative,
            forall|x: IconOverlap| <IconOverlap as JsonDecode>::decodes(Json::Str("always"@), x) <==> x == IconOverlap::Always,
            forall|x: IconOverlap| <IconOverlap as JsonDecode>::decodes(Json::Str("never"@), x) <==> x == IconOverlap::Never,
    {
        reveal_strlit("never");
        reveal_strlit("always");
        reveal_strlit("cooperative");
        assert("cooperative"@.len() != "never"@.len());
        assert("always"@.len() != "never"@.len());
        assert("always"@.len() != "cooperative"@.len());
    }
}

impl IconPitchAlignment {
    /// Each value is read from, and written as, the name that the style specification gives
    /// it, and a document holding one of these names reads as that value and no other.
    pub proof fn lemma_read_by_name()
        ensures
            forall|x: IconPitchAlignment| <IconPitchAlignment as JsonDecode>::decodes(Json::Str("viewport"@), x) <==> x == IconPitchAlignment::Viewport,
            forall|x: IconPitchAlignment| <IconPitchAlignment as JsonDecode>::decodes(Json::Str("map"@), x) <==> x == IconPitchAlignment::MapValue,
            forall|x: IconPitchAlignment| <IconPitchAlignment as JsonDecode>::decodes(Json::Str("auto"@), x) <==> x == IconPitchAlignment::Auto,
    {
        reveal_strlit("auto");
        reveal_strlit("viewport");
        reveal_strlit("map");
        assert("map"@.len() != "viewport"@.len());
        assert("auto"@.len() != "viewport"@.len());
        assert("auto"@.len() != "map"@.len());
    }
}

impl IconRotationAlignment {
    /// Each value is read from, and written as, the name that the style specification gives
    /// it, and a document holding one of these names reads as that value and no other.
    pub proof fn lemma_read_by_name()
        ensures
            forall|x: IconRotationAlignment| <IconRotationAlignment as JsonDecode>::decodes(Json::Str("viewport"@), x) <==> x == IconRotationAlignment::Viewport,
            forall|x: IconRotationAlignment| <IconRotationAlignment as JsonDecode>::decodes(Json::Str("auto"@), x) <==> x == IconRotationAlignment::Auto,
            forall|x: IconRotationAlignment| <IconRotationAlignment as JsonDecode>::decodes(Json::Str("map"@), x) <==> x == IconRotationAlignment::MapValue,
    {
        reveal_strlit("auto");
        reveal_strlit("viewport");
        reveal_strlit("map");
        assert("map"@.len() != "viewport"@.len());
        assert("auto"@.len() != "viewport"@.len());
        assert("auto"@.len() != "map"@.len());
    }
}

impl IconTextFit {
    /// Each value is read from, and written as, the name that the style specification gives
    /// it, and a document holding one of these names reads as that value and no other.
    pub proof fn lemma_read_by_name()
        ensures
            forall|x: IconTextFit| <IconTextFit as JsonDecode>::decodes(Json::Str("none"@), x) <==> x == IconTextFit::NoneValue,
            forall|x: IconTextFit| <IconTextFit as JsonDecode>::decodes(Json::Str("width"@), x) <==> x == IconTextFit::Width,
            forall|x: IconTextFit| <IconTextFit as JsonDecode>::decodes(Json::Str("height"@), x) <==> x == IconTextFit::Height,
            forall|x: IconTextFit| <IconTextFit as JsonDecode>::decodes(Json::Str("both"@), x) <==> x == IconTextFit::Both,
    {
        reveal_strlit("height");
        reveal_strlit("none");
        reveal_strlit("width");
        reveal_strlit("both");
        assert("both"@.len() != "width"@.len());
        assert("height"@.len() != "none"@.len());
        assert("none"@.len() != "width"@.len());
        assert("both"@[0] != "none"@[0]);
        assert("height"@.len() != "width"@.len());
        assert("both"@.len() != "height"@.len());
    }
}

impl SymbolPlacement {
    /// Each value is read from, and written as, the name that the style specification gives
    /// it, and a document holding one of these names reads as that value and no other.
    pub proof fn lemma_read_by_name()
        ensures
            forall|x: SymbolPlacement| <SymbolPlacement as JsonDecode>::decodes(Json::Str("point"@), x) <==> x == SymbolPlacement::Point,
            forall|x: SymbolPlacement| <SymbolPlacement as JsonDecode>::decodes(Json::Str("line"@), x) <==> x == SymbolPlacement::Line,
            forall|x: SymbolPlacement| <SymbolPlacement as JsonDecode>::decodes(Json::Str("line-center"@), x) <==> x == SymbolPlacement::LineCenter,
    {
        reveal_strlit("point");
        reveal_strlit("line");
        reveal_strlit("line-center");
        assert("line-center"@.len() != "point"@.len());
        assert("line"@.len() != "point"@.len());
        assert("line"@.len() != "line-center"@.len());
    }
}

impl SymbolZOrder {
    /// Each value is read from, and written as, the name that the style specification gives
    /// it, and a document holding one of these names reads as that value and no other.
    pub proof fn lemma_read_by_name()
        ensures
            forall|x: SymbolZOrder| <SymbolZOrder as JsonDecode>::decodes(Json::Str("viewport-y"@), x) <==> x == SymbolZOrder::ViewportY,
            forall|x: SymbolZOrder| <SymbolZOrder as JsonDecode>::decodes(Json::Str("source"@), x) <==> x == SymbolZOrder::Source,
            forall|x: SymbolZOrder| <SymbolZOrder as JsonDecode>::decodes(Json::Str("auto"@), x) <==> x == SymbolZOrder::Auto,
    {
        reveal_strlit("source");
        reveal_strlit("auto");
        reveal_strlit("viewport-y");
        assert("auto"@.len() != "source"@.len());
        assert("auto"@.len() != "viewport-y"@.len());
        assert("source"@.len() != "viewport-y"@.len());
    }
}

impl TextAnchor {
    /// Each value is read from, and written as, the name that the style specification gives
    /// it, and a document holding one of these names reads as that value and no other.
    pub proof fn lemma_read_by_name()
        ensures
            forall|x: TextAnchor| <TextAnchor as JsonDecode>::decodes(Json::Str("top-left"@), x) <==> x == TextAnchor::TopLeft,
            forall|x: TextAnchor| <TextAnchor as JsonDecode>::decodes(Json::Str("bottom-right"@), x) <==> x == TextAnchor::BottomRight,
            forall|x: TextAnchor| <TextAnchor as JsonDecode>::decodes(Json::Str("left"@), x) <==> x == TextAnchor::Left,
            forall|x: TextAnchor| <TextAnchor as JsonDecode>::decodes(Json::Str("top"@), x) <==> x == TextAnchor::Top,
            forall|x: TextAnchor| <TextAnchor as JsonDecode>::decodes(Json::Str("right"@), x) <==> x == TextAnchor::Right,
            forall|x: TextAnchor| <TextAnchor as JsonDecode>::decodes(Json::Str("center"@), x) <==> x == TextAnchor::Center,
            forall|x: TextAnchor| <TextAnchor as JsonDecode>::decodes(Json::Str("top-right"@), x) <==> x == TextAnchor::TopRight,
            forall|x: TextAnchor| <TextAnchor as JsonDecode>::decodes(Json::Str("bottom-left"@), x) <==> x == TextAnchor::BottomLeft,
            forall|x: TextAnchor| <TextAnchor as JsonDecode>::decodes(Json::Str("bottom"@), x) <==> x == TextAnchor::Bottom,
    {
        reveal_strlit("bottom-left");
        reveal_strlit("center");
        reveal_strlit("left");
        reveal_strlit("bottom-right");
        reveal_strlit("bottom");
        reveal_strlit("top-right");
        reveal_strlit("right");
        reveal_strlit("top");
        reveal_strlit("top-left");
        assert("top"@.len() != "top-left"@.len());
        assert("bottom-left"@.len() != "right"@.len());
        assert("bottom-left"@.len() != "top"@.len());
        assert("bottom-right"@.len() != "center"@.len());
        assert("right"@.len() != "top-left"@.len());
        assert("bottom-left"@.len() != "left"@.len());
        assert("bottom"@.len() != "bottom-right"@.len());
        assert("right"@.len() != "top-right"@.len());
        assert("center"@.len() != "top-left"@.len());
        assert("center"@.len() != "top-right"@.len());
        assert("bottom"@.len() != "bottom-left"@.len());
        assert("bottom-left"@.len() != "top-right"@.len());
        assert("bottom"@[0] != "center"@[0]);
        assert("bottom-right"@.len() != "right"@.len());
        assert("bottom"@.len() != "top"@.len());
        assert("right"@.len() != "top"@.len());
        assert("bottom"@.len() != "right"@.len());
        assert("left"@.len() != "top-right"@.len());
        assert("top-left"@.len() != "top-right"@.len());
        assert("bottom-right"@.len() != "top-left"@.len());
        assert("bottom-right"@.len() != "top"@.len());
        assert("center"@.len() != "right"@.len());
        assert("left"@.len() != "right"@.len());
        assert("left"@.len() != "top-left"@.len());
        assert("bottom-left"@.len() != "center"@.len());
        assert("bottom"@.len() != "left"@.len());
        assert("bottom-right"@.len() != "left"@.len());
        assert("bottom-right"@.len() != "top-right"@.len());
        assert("top"@.len() != "top-right"@.len());
        assert("bottom-left"@.len() != "top-left"@.len());
        assert("center"@.len() != "top"@.len());
        assert("bottom-left"@.len() != "bottom-right"@.len());
        assert("bottom"@.len() != "top-right"@.len());
        assert("bottom"@.len() != "top-left"@.len());
        assert("center"@.len() != "left"@.len());
        assert("left"@.len() != "top"@.len());
    }
}

impl TextJustify {
    /// Each value is read from, and written as, the name that the style specification gives
    /// it, and a document holding one of these names reads as that value and no other.
    pub proof fn lemma_read_by_name()
        ensures
            forall|x: TextJustify| <TextJustify as JsonDecode>::decodes(Json::Str("auto"@), x) <==> x == TextJustify::Auto,
            forall|x: TextJustify| <TextJustify as JsonDecode>::decodes(Json::Str("right"@), x) <==> x == TextJustify::Right,
            forall|x: TextJustify| <TextJustify as JsonDecode>::decodes(Json::Str("left"@), x) <==> x == TextJustify::Left,
            forall|x: TextJustify| <TextJustify as JsonDecode>::decodes(Json::Str("center"@), x) <==> x == TextJustify::Center,
    {
        reveal_strlit("center");
        reveal_strlit("left");
        reveal_strlit("auto");
        reveal_strlit("right");
        assert("auto"@[0] != "left"@[0]);
        assert("center"@.len() != "right"@.len());
        assert("left"@.len() != "right"@.len());
        assert("auto"@.len() != "center"@.len());
        assert("auto"@.len() != "right"@.len());
        assert("center"@.len() != "left"@.len());
    }
}

impl TextOverlap {
    /// Each value is read from, and written as, the name that the style specification gives
    /// it, and a document holding one of these names reads as that value and no other.
    pub proof fn lemma_read_by_name()
        ensures
            forall|x: TextOverlap| <TextOverlap as JsonDecode>::decodes(Json::Str("always"@), x) <==> x == TextOverlap::Always,
            forall|x: TextOverlap| <TextOverlap as JsonDecode>::decodes(Json::Str("never"@), x) <==> x == TextOverlap::Never,
            forall|x: TextOverlap| <TextOverlap as JsonDecode>::decodes(Json::Str("cooperative"@), x) <==> x == TextOverlap::Cooperative,
    {
        reveal_strlit("never");
        reveal_strlit("always");
        reveal_strlit("cooperative");
        assert("cooperative"@.len() != "never"@.len());
        assert("always"@.len() != "never"@.len());
        assert("always"@.len() != "cooperative"@.len());
    }
}

impl TextPitchAlignment {
    /// Each value is read from, and written as, the name that the style specification gives
    /// it, and a document holding one of these names reads as that value and no other.
    pub proof fn lemma_read_by_name()
        ensures
            forall|x: TextPitchAlignment| <TextPitchAlignment as JsonDecode>::decodes(Json::Str("map"@), x) <==> x == TextPitchAlignment::MapValue,
            forall|x: TextPitchAlignment| <TextPitchAlignment as JsonDecode>::decodes(Json::Str("viewport"@), x) <==> x == TextPitchAlignment::Viewport,
            forall|x: TextPitchAlignment| <TextPitchAlignment as JsonDecode>::decodes(Json::Str("auto"@), x) <==> x == TextPitchAlignment::Auto,
    {
        reveal_strlit("auto");
        reveal_strlit("viewport");
        reveal_strlit("map");
        assert("map"@.len() != "viewport"@.len());
        assert("auto"@.len() != "viewport"@.len());
        assert("auto"@.len() != "map"@.len());
    }
}

impl TextRotationAlignment {
    /// Each value is read from, and written as, the name that the style specification gives
    /// it, and a document holding one of these names reads as that value and no other.
    pub proof fn lemma_read_by_name()
        ensures
            forall|x: TextRotationAlignment| <TextRotationAlignment as JsonDecode>::decodes(Json::Str("viewport-glyph"@), x) <==> x == TextRotationAlignment::ViewportGlyph,
            forall|x: TextRotationAlignment| <TextRotationAlignment as JsonDecode>::decodes(Json::Str("auto"@), x) <==> x == TextRotationAlignment::Auto,
            forall|x: TextRotationAlignment| <TextRotationAlignment as JsonDecode>::decodes(Json::Str("viewport"@), x) <==> x == TextRotationAlignment::Viewport,
            forall|x: TextRotationAlignment| <TextRotationAlignment as JsonDecode>::decodes(Json::Str("map"@), x) <==> x == TextRotationAlignment::MapValue,
    {
        reveal_strlit("auto");
        reveal_strlit("viewport");
        reveal_strlit("viewport-glyph");
        reveal_strlit("map");
        assert("map"@.len() != "viewport-glyph"@.len());
        assert("map"@.len() != "viewport"@.len());
        assert("auto"@.len() != "viewport"@.len());
        assert("viewport"@.len() != "viewport-glyph"@.len());
        assert("auto"@.len() != "viewport-glyph"@.len());
        assert("auto"@.len() != "map"@.len());
    }
}

impl TextTransform {
    /// Each value is read from, and written as, the name that the style specification gives
    /// it, and a document holding one of these names reads as that value and no other.
    pub proof fn lemma_read_by_name()
        ensures
            forall|x: TextTransform| <TextTransform as JsonDecode>::decodes(Json::Str("none"@), x) <==> x == TextTransform::NoneValue,
            forall|x: TextTransform| <TextTransform as JsonDecode>::decodes(Json::Str("lowercase"@), x) <==> x == TextTransform::Lowercase,
            forall|x: TextTransform| <TextTransform as JsonDecode>::decodes(Json::Str("uppercase"@), x) <==> x == TextTransform::Uppercase,
    {
        reveal_strlit("uppercase");
        reveal_strlit("none");
        reveal_strlit("lowercase");
        assert("lowercase"@[0] != "uppercase"@[0]);
        assert("lowercase"@.len() != "none"@.len());
        assert("none"@.len() != "uppercase"@.len());
    }
}

impl Anchor {
    /// Each value is read from, and written as, the name that the style specification gives
    /// it, and a document holding one of these names reads as that value and no other.
    pub proof fn lemma_read_by_name()
        ensures
            forall|x: Anchor| <Anchor as JsonDecode>::decodes(Json::Str("map"@), x) <==> x == Anchor::MapValue,
            forall|x: Anchor| <Anchor as JsonDecode>::decodes(Json::Str("viewport"@), x) <==> x == Anchor::Viewport,
    {
        reveal_strlit("viewport");
        reveal_strlit("map");
        assert("map"@.len() != "viewport"@.len());
    }
}

impl CirclePitchAlignment {
    /// Each value is read from, and written as, the name that the style specification gives
    /// it, and a document holding one of these names reads as that value and no other.
    pub proof fn lemma_read_by_name()
        ensures
            forall|x: CirclePitchAlignment| <CirclePitchAlignment as JsonDecode>::decodes(Json::Str("viewport"@), x) <==> x == CirclePitchAlignment::Viewport,
            forall|x: CirclePitchAlignment| <CirclePitchAlignment as JsonDecode>::decodes(Json::Str("map"@), x) <==> x == CirclePitchAlignment::MapValue,
    {
        reveal_strlit("viewport");
        reveal_strlit("map");
        assert("map"@.len() != "viewport"@.len());
    }
}

impl CirclePitchScale {
    /// Each value is read from, and written as, the name that the style specification gives
    /// it, and a document holding one of these names reads as that value and no other.
    pub proof fn lemma_read_by_name()
        ensures
            forall|x: CirclePitchScale| <CirclePitchScale as JsonDecode>::decodes(Json::Str("map"@), x) <==> x == CirclePitchScale::MapValue,
            forall|x: CirclePitchScale| <CirclePitchScale as JsonDecode>::decodes(Json::Str("viewport"@), x) <==> x == CirclePitchScale::Viewport,
    {
        reveal_strlit("viewport");
        reveal_strlit("map");
        assert("map"@.len() != "viewport"@.len());
    }
}

impl CircleTranslateAnchor {
    /// Each value is read from, and written as, the name that the style specification gives
    /// it, and a document holding one of these names reads as that value and no other.
    pub proof fn lemma_read_by_name()
        ensures
            forall|x: CircleTranslateAnchor| <CircleTranslateAnchor as JsonDecode>::decodes(Json::Str("viewport"@), x) <==> x == CircleTranslateAnchor::Viewport,
            forall|x: CircleTranslateAnchor| <CircleTranslateAnchor as JsonDecode>::decodes(Json::Str("map"@), x) <==> x == CircleTranslateAnchor::MapValue,
    {
        reveal_strlit("viewport");
        reveal_strlit("map");
        assert("map"@.len() != "viewport"@.len());
    }
}

impl FillTranslateAnchor {
    /// Each value is read from, and written as, the name that the style specification gives
    /// it, and a document holding one of these names reads as that value and no other.
    pub proof fn lemma_read_by_name()
        ensures
            forall|x: FillTranslateAnchor| <FillTranslateAnchor as JsonDecode>::decodes(Json::Str("map"@), x) <==> x == FillTranslateAnchor::MapValue,
            forall|x: FillTranslateAnchor| <FillTranslateAnchor as JsonDecode>::decodes(Json::Str("viewport"@), x) <==> x == FillTranslateAnchor::Viewport,
    {
        reveal_strlit("viewport");
        reveal_strlit("map");
        assert("map"@.len() != "viewport"@.len());
    }
}

impl FillExtrusionTranslateAnchor {
    /// Each value is read from, and written as, the name that the style specification gives
    /// it, and a document holding one of these names reads as that value and no other.
    pub proof fn lemma_read_by_name()
        ensures
            forall|x: FillExtrusionTranslateAnchor| <FillExtrusionTranslateAnchor as JsonDecode>::decodes(Json::Str("viewport"@), x) <==> x == FillExtrusionTranslateAnchor::Viewport,
            forall|x: FillExtrusionTranslateAnchor| <FillExtrusionTranslateAnchor as JsonDecode>::decodes(Json::Str("map"@), x) <==> x == FillExtrusionTranslateAnchor::MapValue,
    {
        reveal_strlit("viewport");
        reveal_strlit("map");
        assert("map"@.len() != "viewport"@.len());
    }
}

impl HillshadeIlluminationAnchor {
    /// Each value is read from, and written as, the name that the style specification gives
    /// it, and a document holding one of these names reads as that value and no other.
    pub proof fn lemma_read_by_name()
        ensures
            forall|x: HillshadeIlluminationAnchor| <HillshadeIlluminationAnchor as JsonDecode>::decodes(Json::Str("map"@), x) <==> x == HillshadeIlluminationAnchor::MapValue,
            forall|x: HillshadeIlluminationAnchor| <HillshadeIlluminationAnchor as JsonDecode>::decodes(Json::Str("viewport"@), x) <==> x == HillshadeIlluminationAnchor::Viewport,
    {
        reveal_strlit("viewport");
        reveal_strlit("map");
        assert("map"@.len() != "viewport"@.len());
    }
}

impl HillshadeMethod {
    /// Each value is read from, and written as, the name that the style specification gives
    /// it, and a document holding one of these names reads as that value and no other.
    pub proof fn lemma_read_by_name()
        ensures
            forall|x: HillshadeMethod| <HillshadeMethod as JsonDecode>::decodes(Json::Str("combined"@), x) <==> x == HillshadeMethod::Combined,
            forall|x: HillshadeMethod| <HillshadeMethod as JsonDecode>::decodes(Json::Str("standard"@), x) <==> x == HillshadeMethod::Standard,
            forall|x: HillshadeMethod| <HillshadeMethod as JsonDecode>::decodes(Json::Str("multidirectional"@), x) <==> x == HillshadeMethod::Multidirectional,
            forall|x: HillshadeMethod| <HillshadeMethod as JsonDecode>::decodes(Json::Str("basic"@), x) <==> x == HillshadeMethod::Basic,
            forall|x: HillshadeMethod| <HillshadeMethod as JsonDecode>::decodes(Json::Str("igor"@), x) <==> x == HillshadeMethod::Igor,
    {
        reveal_strlit("combined");
        reveal_strlit("basic");
        reveal_strlit("multidirectional");
        reveal_strlit("standard");
        reveal_strlit("igor");
        assert("combined"@.len() != "igor"@.len());
        assert("basic"@.len() != "combined"@.len());
        assert("basic"@.len() != "standard"@.len());
        assert("igor"@.len() != "multidirectional"@.len());
        assert("combined"@[0] != "standard"@[0]);
        assert("combined"@.len() != "multidirectional"@.len());
        assert("basic"@.len() != "multidirectional"@.len());
        assert("multidirectional"@.len() != "standard"@.len());
        assert("basic"@.len() != "igor"@.len());
        assert("igor"@.len() != "standard"@.len());
    }
}

impl LineTranslateAnchor {
    /// Each value is read from, and written as, the name that the style specification gives
    /// it, and a document holding one of these names reads as that value and no other.
    pub proof fn lemma_read_by_name()
        ensures
            forall|x: LineTranslateAnchor| <LineTranslateAnchor as JsonDecode>::decodes(Json::Str("map"@), x) <==> x == LineTranslateAnchor::MapValue,
            forall|x: LineTranslateAnchor| <LineTranslateAnchor as JsonDecode>::decodes(Json::Str("viewport"@), x) <==> x == LineTranslateAnchor::Viewport,
    {
        reveal_strlit("viewport");
        reveal_strlit("map");
        assert("map"@.len() != "viewport"@.len());
    }
}

impl RasterResampling {
    /// Each value is read from, and written as, the name that the style specification gives
    /// it, and a document holding one of these names reads as that value and no other.
    pub proof fn lemma_read_by_name()
        ensures
            forall|x: RasterResampling| <RasterResampling as JsonDecode>::decodes(Json::Str("nearest"@), x) <==> x == RasterResampling::Nearest,
            forall|x: RasterResampling| <RasterResampling as JsonDecode>::decodes(Json::Str("linear"@), x) <==> x == RasterResampling::Linear,
    {
        reveal_strlit("nearest");
        reveal_strlit("linear");
        assert("linear"@.len() != "nearest"@.len());
    }
}

impl IconTranslateAnchor {
    /// Each value is read from, and written as, the name that the style specification gives
    /// it, and a document holding one of these names reads as that value and no other.
    pub proof fn lemma_read_by_name()
        ensures
            forall|x: IconTranslateAnchor| <IconTranslateAnchor as JsonDecode>::decodes(Json::Str("map"@), x) <==> x == IconTranslateAnchor::MapValue,
            forall|x: IconTranslateAnchor| <IconTranslateAnchor as JsonDecode>::decodes(Json::Str("viewport"@), x) <==> x == IconTranslateAnchor::Viewport,
    {
        reveal_strlit("viewport");
        reveal_strlit("map");
        assert("map"@.len() != "viewport"@.len());
    }
}

impl TextTranslateAnchor {
    /// Each value is read from, and written as, the name that the style specification gives
    /// it, and a document holding one of these names reads as that value and no other.
    pub proof fn lemma_read_by_name()
        ensures
            forall|x: TextTranslateAnchor| <TextTranslateAnchor as JsonDecode>::decodes(Json::Str("map"@), x) <==> x == TextTranslateAnchor::MapValue,
            forall|x: TextTranslateAnchor| <TextTranslateAnchor as JsonDecode>::decodes(Json::Str("viewport"@), x) <==> x == TextTranslateAnchor::Viewport,
    {
        reveal_strlit("viewport");
        reveal_strlit("map");
        assert("map"@.len() != "viewport"@.len());
    }
}

impl Scheme {
    /// Each value is read from, and written as, the name that the style specification gives
    /// it, and a document holding one of these names reads as that value and no other.
    pub proof fn lemma_read_by_name()
        ensures
            forall|x: Scheme| <Scheme as JsonDecode>::decodes(Json::Str("tms"@), x) <==> x == Scheme::Tms,
            forall|x: Scheme| <Scheme as JsonDecode>::decodes(Json::Str("xyz"@), x) <==> x == Scheme::Xyz,
    {
        reveal_strlit("xyz");
        reveal_strlit("tms");
        assert("tms"@[0] != "xyz"@[0]);
    }
}

impl Encoding {
    /// Each value is read from, and written as, the name that the style specification gives
    /// it, and a document holding one of these names reads as that value and no other.
    pub proof fn lemma_read_by_name()
        ensures
            forall|x: Encoding| <Encoding as JsonDecode>::decodes(Json::Str("mapbox"@), x) <==> x == Encoding::Mapbox,
            forall|x: Encoding| <Encoding as JsonDecode>::decodes(Json::Str("terrarium"@), x) <==> x == Encoding::Terrarium,
            forall|x: Encoding| <Encoding as JsonDecode>::decodes(Json::Str("custom"@), x) <==> x == Encoding::Custom,
    {
        reveal_strlit("mapbox");
        reveal_strlit("custom");
        reveal_strlit("terrarium");
        assert("custom"@[0] != "mapbox"@[0]);
        assert("mapbox"@.len() != "terrarium"@.len());
        assert("custom"@.len() != "terrarium"@.len());
    }
}

} // verus!
