pub mod decoder;
pub mod expression;
pub mod generator;
pub mod layers;
pub mod named_types;
pub mod names;
pub mod scope;

use vstd::prelude::*;
use crate::colors::{ColorValue, default_color};
use crate::json::{
    Json, JsonDecode, JsonEncode, JsonNumber, JsonValue, decode_req_field, decode_seq_req, entries_model, length_error, make_length_error,
    make_type_error, make_unknown_variant, req_field_accepts, req_field_decodes, req_field_rejection,
    seq_req_accepts, seq_req_decodes, seq_req_rejection, str_eq, type_error, unknown_variant, first_with_key,
    key_seen_before, lookup, missing_field, get_field, make_missing_field,
};

verus! {

#[derive(PartialEq, Eq, Debug, Clone, Copy)]
pub enum ExpressionName {
    /// Logical negation. Returns `true` if the input is `false`, and `false` if the input is `true`.
    ///
    ///  - [Create and style clusters](https://maplibre.org/maplibre-gl-js/docs/examples/create-and-style-clusters/)
    Not,
    /// Returns `true` if the input values are not equal, `false` otherwise. The comparison is strictly typed: values of different runtime types are always considered unequal. Cases where the types are known to be different at parse time are considered invalid and will produce a parse error. Accepts an optional `collator` argument to control locale-dependent string comparisons.
    ///
    ///  - [Display HTML clusters with custom properties](https://maplibre.org/maplibre-gl-js/docs/examples/display-html-clusters-with-custom-properties/)
    NotEqual,
    /// Returns the remainder after integer division of the first input by the second.
    Percentage,
    /// Returns the product of the inputs.
    Star,
    /// Returns the sum of the inputs.
    Plus,
    /// For two inputs, returns the result of subtracting the second input from the first. For a single input, returns the result of subtracting it from 0.
    Minus,
    /// Returns the result of floating point division of the first input by the second.
    ///
    ///  - [Visualize population density](https://maplibre.org/maplibre-gl-js/docs/examples/visualize-population-density/)
    Slash,
    /// Returns `true` if the first input is strictly less than the second, `false` otherwise. The arguments are required to be either both strings or both numbers; if during evaluation they are not, expression evaluation produces an error. Cases where this constraint is known not to hold at parse time are considered in valid and will produce a parse error. Accepts an optional `collator` argument to control locale-dependent string comparisons.
    ///
    ///  - [Display HTML clusters with custom properties](https://maplibre.org/maplibre-gl-js/docs/examples/display-html-clusters-with-custom-properties/)
    Less,
    /// Returns `true` if the first input is less than or equal to the second, `false` otherwise. The arguments are required to be either both strings or both numbers; if during evaluation they are not, expression evaluation produces an error. Cases where this constraint is known not to hold at parse time are considered in valid and will produce a parse error. Accepts an optional `collator` argument to control locale-dependent string comparisons.
    Lessequal,
    /// Returns `true` if the input values are equal, `false` otherwise. The comparison is strictly typed: values of different runtime types are always considered unequal. Cases where the types are known to be different at parse time are considered invalid and will produce a parse error. Accepts an optional `collator` argument to control locale-dependent string comparisons.
    ///
    ///  - [Add multiple geometries from one GeoJSON source](https://maplibre.org/maplibre-gl-js/docs/examples/multiple-geometries/)
    ///
    ///  - [Create a time slider](https://maplibre.org/maplibre-gl-js/docs/examples/timeline-animation/)
    ///
    ///  - [Display buildings in 3D](https://maplibre.org/maplibre-gl-js/docs/examples/display-buildings-in-3d/)
    ///
    ///  - [Filter symbols by toggling a list](https://maplibre.org/maplibre-gl-js/docs/examples/filter-symbols-by-toggling-a-list/)
    Equal,
    /// Returns `true` if the first input is strictly greater than the second, `false` otherwise. The arguments are required to be either both strings or both numbers; if during evaluation they are not, expression evaluation produces an error. Cases where this constraint is known not to hold at parse time are considered in valid and will produce a parse error. Accepts an optional `collator` argument to control locale-dependent string comparisons.
    Greater,
    /// Returns `true` if the first input is greater than or equal to the second, `false` otherwise. The arguments are required to be either both strings or both numbers; if during evaluation they are not, expression evaluation produces an error. Cases where this constraint is known not to hold at parse time are considered in valid and will produce a parse error. Accepts an optional `collator` argument to control locale-dependent string comparisons.
    ///
    ///  - [Display HTML clusters with custom properties](https://maplibre.org/maplibre-gl-js/docs/examples/display-html-clusters-with-custom-properties/)
    Greaterequal,
    /// Returns the result of raising the first input to the power specified by the second.
    Power,
    /// Returns the absolute value of the input.
    Absolute,
    /// Gets the value of a cluster property accumulated so far. Can only be used in the `clusterProperties` option of a clustered GeoJSON source.
    Accumulated,
    /// Returns the arccosine of the input.
    Arccosine,
    /// Returns `true` if all the inputs are `true`, `false` otherwise. The inputs are evaluated in order, and evaluation is short-circuiting: once an input expression evaluates to `false`, the result is `false` and no further input expressions are evaluated.
    ///
    ///  - [Display HTML clusters with custom properties](https://maplibre.org/maplibre-gl-js/docs/examples/display-html-clusters-with-custom-properties/)
    All,
    /// Returns `true` if any of the inputs are `true`, `false` otherwise. The inputs are evaluated in order, and evaluation is short-circuiting: once an input expression evaluates to `true`, the result is `true` and no further input expressions are evaluated.
    Any,
    /// Asserts that the input is an array (optionally with a specific item type and length). If, when the input expression is evaluated, it is not of the asserted type or length, then this assertion will cause the whole expression to be aborted.
    Array,
    /// Returns the arcsine of the input.
    Asin,
    /// Retrieves an item from an array.
    At,
    /// Returns the arctangent of the input.
    Atan,
    /// Asserts that the input value is a boolean. If multiple values are provided, each one is evaluated in order until a boolean is obtained. If none of the inputs are booleans, the expression is an error.
    ///
    ///  - [Create a hover effect](https://maplibre.org/maplibre-gl-js/docs/examples/create-a-hover-effect/)
    Boolean,
    /// Selects the first output whose corresponding test condition evaluates to true, or the fallback value otherwise.
    ///
    ///  - [Create a hover effect](https://maplibre.org/maplibre-gl-js/docs/examples/create-a-hover-effect/)
    ///
    ///  - [Display HTML clusters with custom properties](https://maplibre.org/maplibre-gl-js/docs/examples/display-html-clusters-with-custom-properties/)
    Case,
    /// Returns the smallest integer that is greater than or equal to the input.
    Ceil,
    /// Evaluates each expression in turn until the first non-null value is obtained, and returns that value.
    ///
    ///  - [Use a fallback image](https://maplibre.org/maplibre-gl-js/docs/examples/use-a-fallback-image/)
    Coalesce,
    /// Returns a `collator` for use in locale-dependent comparison operations. The `case-sensitive` and `diacritic-sensitive` options default to `false`. The `locale` argument specifies the IETF language tag of the locale to use. If none is provided, the default locale is used. If the requested locale is not available, the `collator` will use a system-defined fallback locale. Use `resolved-locale` to test the results of locale fallback behavior.
    Collator,
    /// Returns a `string` consisting of the concatenation of the inputs. Each input is converted to a string as if by `to-string`.
    ///
    ///  - [Add a generated icon to the map](https://maplibre.org/maplibre-gl-js/docs/examples/add-a-generated-icon-to-the-map/)
    ///
    ///  - [Create a time slider](https://maplibre.org/maplibre-gl-js/docs/examples/create-a-time-slider/)
    ///
    ///  - [Use a fallback image](https://maplibre.org/maplibre-gl-js/docs/examples/fallback-image/)
    ///
    ///  - [Variable label placement](https://maplibre.org/maplibre-gl-js/docs/examples/variable-label-placement/)
    Concat,
    /// Returns the cosine of the input.
    Cos,
    /// Returns the shortest distance in meters between the evaluated feature and the input geometry. The input value can be a valid GeoJSON of type `Point`, `MultiPoint`, `LineString`, `MultiLineString`, `Polygon`, `MultiPolygon`, `Feature`, or `FeatureCollection`. Distance values returned may vary in precision due to loss in precision from encoding geometries, particularly below zoom level 13.
    Distance,
    /// Returns the input string converted to lowercase. Follows the Unicode Default Case Conversion algorithm and the locale-insensitive case mappings in the Unicode Character Database.
    ///
    ///  - [Change the case of labels](https://maplibre.org/maplibre-gl-js/docs/examples/change-case-of-labels/)
    Downcase,
    /// Returns the mathematical constant e.
    E,
    /// Gets the elevation of a pixel (in meters above the vertical datum reference of the `raster-dem` tiles) from a `raster-dem` source. Can only be used in the `color-relief-color` property of a `color-relief` layer.
    Elevation,
    /// Retrieves a property value from the current feature's state. Returns null if the requested property is not present on the feature's state. A feature's state is not part of the GeoJSON or vector tile data, and must be set programmatically on each feature. When `source.promoteId` is not provided, features are identified by their `id` attribute, which must be an integer or a string that can be cast to an integer. When `source.promoteId` is provided, features are identified by their `promoteId` property, which may be a number, string, or any primitive data type. Note that ["feature-state"] can only be used with paint properties that support data-driven styling.
    ///
    ///  - [Create a hover effect](https://maplibre.org/maplibre-gl-js/docs/examples/create-a-hover-effect/)
    FeatureState,
    /// Returns the largest integer that is less than or equal to the input.
    Floor,
    /// Returns a `formatted` string for displaying mixed-format text in the `text-field` property. The input may contain a string literal or expression, including an [`'image'`](#image) expression. Strings may be followed by a style override object that supports the following properties:
    ///
    /// - `"text-font"`: Overrides the font stack specified by the root layout property.
    ///
    /// - `"text-color"`: Overrides the color specified by the root paint property.
    ///
    /// - `"font-scale"`: Applies a scaling factor on `text-size` as specified by the root layout property.
    ///
    /// - `"vertical-align"`: Aligns vertically text section or image in relation to the row it belongs to. Possible values are:
    ///  - `"bottom"` *default*: align the bottom of this section with the bottom of other sections.
    /// <img alt="Visual representation of bottom alignment" src="https://github.com/user-attachments/assets/0474a2fd-a4b2-417c-9187-7a13a28695bc"/>
    ///  - `"center"`: align the center of this section with the center of other sections.
    /// <img alt="Visual representation of center alignment" src="https://github.com/user-attachments/assets/92237455-be6d-4c5d-b8f6-8127effc1950"/>
    ///  - `"top"`: align the top of this section with the top of other sections.
    /// <img alt="Visual representation of top alignment" src="https://github.com/user-attachments/assets/45dccb28-d977-4abb-a006-4ea9792b7c53"/>
    ///  - Refer to [the design proposal](https://github.com/maplibre/maplibre-style-spec/issues/832) for more details.
    ///
    ///  - [Change the case of labels](https://maplibre.org/maplibre-gl-js/docs/examples/change-case-of-labels/)
    ///
    ///  - [Display and style rich text labels](https://maplibre.org/maplibre-gl-js/docs/examples/display-and-style-rich-text-labels/)
    Format,
    /// Returns the feature's simple geometry type: `Point`, `LineString`, or `Polygon`. `MultiPoint`, `MultiLineString`, and `MultiPolygon` are returned as `Point`, `LineString`, and `Polygon`, respectively.
    GeometryType,
    /// Retrieves a property value from the current feature's properties, or from another object if a second argument is provided. Returns null if the requested property is missing.
    ///
    ///  - [Change the case of labels](https://maplibre.org/maplibre-gl-js/docs/examples/change-case-of-labels/)
    ///
    ///  - [Display HTML clusters with custom properties](https://maplibre.org/maplibre-gl-js/docs/examples/display-html-clusters-with-custom-properties/)
    ///
    ///  - [Extrude polygons for 3D indoor mapping](https://maplibre.org/maplibre-gl-js/docs/examples/extrude-polygons-for-3d-indoor-mapping/)
    Get,
    /// Retrieves a property value from global state that can be set with platform-specific APIs. Defaults can be provided using the [`state`](https://maplibre.org/maplibre-style-spec/root/#state) root property. Returns `null` if no value nor default value is set for the retrieved property.
    GlobalState,
    /// Tests for the presence of a property value in the current feature's properties, or from another object if a second argument is provided.
    ///
    ///  - [Create and style clusters](https://maplibre.org/maplibre-gl-js/docs/examples/create-and-style-clusters/)
    Has,
    /// Gets the kernel density estimation of a pixel in a heatmap layer, which is a relative measure of how many data points are crowded around a particular pixel. Can only be used in the `heatmap-color` property.
    HeatmapDensity,
    /// Gets the feature's id, if it has one.
    Id,
    /// Returns an `image` type for use in `icon-image`, `*-pattern` entries and as a section in the `format` expression. If set, the `image` argument will check that the requested image exists in the style and will return either the resolved image name or `null`, depending on whether or not the image is currently in the style. This validation process is synchronous and requires the image to have been added to the style before requesting it in the `image` argument.
    ///
    ///  - [Use a fallback image](https://maplibre.org/maplibre-gl-js/docs/examples/use-a-fallback-image/)
    Image,
    /// Determines whether an item exists in an array or a substring exists in a string.
    ///
    ///  - [Measure distances](https://maplibre.org/maplibre-gl-js/docs/examples/measure-distances/)
    In,
    /// Returns the first position at which an item can be found in an array or a substring can be found in a string, or `-1` if the input cannot be found. Accepts an optional index from where to begin the search. In a string, a UTF-16 surrogate pair counts as a single position.
    IndexOf,
    /// Produces continuous, smooth results by interpolating between pairs of input and output values ("stops"). The `input` may be any numeric expression (e.g., `["get", "population"]`). Stop inputs must be numeric literals in strictly ascending order. The output type must be `number`, `array<number>`, `color`, `array<color>`, or `projection`.
    ///
    /// Interpolation types:
    ///
    /// - `["linear"]`, or an expression returning one of those types: Interpolates linearly between the pair of stops just less than and just greater than the input.
    ///
    /// - `["exponential", base]`: Interpolates exponentially between the stops just less than and just greater than the input. `base` controls the rate at which the output increases: higher values make the output increase more towards the high end of the range. With values close to 1 the output increases linearly.
    ///
    /// - `["cubic-bezier", x1, y1, x2, y2]`: Interpolates using the cubic bezier curve defined by the given control points.
    ///
    ///  - [Animate map camera around a point](https://maplibre.org/maplibre-gl-js/docs/examples/animate-camera-around-point/)
    ///
    ///  - [Change building color based on zoom level](https://maplibre.org/maplibre-gl-js/docs/examples/change-building-color-based-on-zoom-level/)
    ///
    ///  - [Create a heatmap layer](https://maplibre.org/maplibre-gl-js/docs/examples/heatmap-layer/)
    ///
    ///  - [Visualize population density](https://maplibre.org/maplibre-gl-js/docs/examples/visualize-population-density/)
    Interpolate,
    /// Produces continuous, smooth results by interpolating between pairs of input and output values ("stops"). Works like `interpolate`, but the output type must be `color` or `array<color>`, and the interpolation is performed in the Hue-Chroma-Luminance color space.
    InterpolateHcl,
    /// Produces continuous, smooth results by interpolating between pairs of input and output values ("stops"). Works like `interpolate`, but the output type must be `color` or `array<color>`, and the interpolation is performed in the CIELAB color space.
    InterpolateLab,
    /// Returns `true` if the input string is expected to render legibly. Returns `false` if the input string contains sections that cannot be rendered without potential loss of meaning (e.g. Indic scripts that require complex text shaping, or right-to-left scripts if the `mapbox-gl-rtl-text` plugin is not in use in MapLibre GL JS).
    IsSupportedScript,
    /// Gets the length of an array or string. In a string, a UTF-16 surrogate pair counts as a single position.
    Length,
    /// Binds expressions to named variables, which can then be referenced in the result expression using `["var", "variable_name"]`.
    ///
    ///  - [Visualize population density](https://maplibre.org/maplibre-gl-js/docs/examples/visualize-population-density/)
    Let,
    /// Gets the progress along a gradient line. Can only be used in the `line-gradient` property.
    LineProgress,
    /// Provides a literal array or object value.
    ///
    ///  - [Display and style rich text labels](https://maplibre.org/maplibre-gl-js/docs/examples/display-and-style-rich-text-labels/)
    Literal,
    /// Returns the natural logarithm of the input.
    Ln,
    /// Returns the mathematical constant ln(2).
    Ln2,
    /// Returns the base-ten logarithm of the input.
    Log10,
    /// Returns the base-two logarithm of the input.
    Log2,
    /// Selects the output whose label value matches the input value, or the fallback value if no match is found. The input can be any expression (e.g. `["get", "building_type"]`). Each label must be either:
    ///
    ///  - a single literal value; or
    ///
    ///  - an array of literal values, whose values must be all strings or all numbers (e.g. `[100, 101]` or `["c", "b"]`). The input matches if any of the values in the array matches, similar to the `"in"` operator.
    ///
    /// Each label must be unique. If the input type does not match the type of the labels, the result will be the fallback value.
    Match,
    /// Returns the maximum value of the inputs.
    Max,
    /// Returns the minimum value of the inputs.
    Min,
    /// Asserts that the input value is a number. If multiple values are provided, each one is evaluated in order until a number is obtained. If none of the inputs are numbers, the expression is an error.
    Number,
    /// Converts the input number into a string representation using the providing formatting rules. If set, the `locale` argument specifies the locale to use, as a BCP 47 language tag. If set, the `currency` argument specifies an ISO 4217 code to use for currency-style formatting. If set, the `min-fraction-digits` and `max-fraction-digits` arguments specify the minimum and maximum number of fractional digits to include.
    ///
    ///  - [Display HTML clusters with custom properties](https://maplibre.org/maplibre-gl-js/docs/examples/display-html-clusters-with-custom-properties/)
    NumberFormat,
    /// Asserts that the input value is an object. If multiple values are provided, each one is evaluated in order until an object is obtained. If none of the inputs are objects, the expression is an error.
    Object,
    /// Returns the mathematical constant pi.
    Pi,
    /// Gets the feature properties object.  Note that in some cases, it may be more efficient to use ["get", "property_name"] directly.
    Properties,
    /// Returns the IETF language tag of the locale being used by the provided `collator`. This can be used to determine the default system locale, or to determine if a requested locale was successfully loaded.
    ResolvedLocale,
    /// Creates a color value from red, green, and blue components, which must range between 0 and 255, and an alpha component of 1. If any component is out of range, the expression is an error.
    Rgb,
    /// Creates a color value from red, green, blue components, which must range between 0 and 255, and an alpha component which must range between 0 and 1. If any component is out of range, the expression is an error.
    Rgba,
    /// Rounds the input to the nearest integer. Halfway values are rounded away from zero. For example, `["round", -1.5]` evaluates to -2.
    Round,
    /// Returns the sine of the input.
    Sin,
    /// Returns a subarray from an array or a substring from a string from a specified start index, or between a start index and an end index if set. The return value is inclusive of the start index but not of the end index. In a string, a UTF-16 surrogate pair counts as a single position.
    Slice,
    /// Returns the square root of the input.
    Sqrt,
    /// Produces discrete, stepped results by evaluating a piecewise-constant function defined by pairs of input and output values ("stops"). The `input` may be any numeric expression (e.g., `["get", "population"]`). Stop inputs must be numeric literals in strictly ascending order.
    ///
    /// Returns the output value of the stop just less than the input, or the first output if the input is less than the first stop.
    ///
    ///  - [Create and style clusters](https://maplibre.org/maplibre-gl-js/docs/examples/create-and-style-clusters/)
    Step,
    /// Asserts that the input value is a string. If multiple values are provided, each one is evaluated in order until a string is obtained. If none of the inputs are strings, the expression is an error.
    String,
    /// Returns the tangent of the input.
    Tan,
    /// Converts the input value to a boolean. The result is `false` when the input is an empty string, 0, `false`, `null`, or `NaN`; otherwise it is `true`.
    ToBoolean,
    /// Converts the input value to a color. If multiple values are provided, each one is evaluated in order until the first successful conversion is obtained. If none of the inputs can be converted, the expression is an error.
    ///
    ///  - [Visualize population density](https://maplibre.org/maplibre-gl-js/docs/examples/visualize-population-density/)
    ToColor,
    /// Converts the input value to a number, if possible. If the input is `null` or `false`, the result is 0. If the input is `true`, the result is 1. If the input is a string, it is converted to a number as specified by the ["ToNumber Applied to the String Type" algorithm](https://tc39.github.io/ecma262/#sec-tonumber-applied-to-the-string-type) of the ECMAScript Language Specification. If multiple values are provided, each one is evaluated in order until the first successful conversion is obtained. If none of the inputs can be converted, the expression is an error.
    ToNumber,
    /// Returns a four-element array containing the input color's red, green, blue, and alpha components, in that order.
    ToRgba,
    /// Converts the input value to a string. If the input is `null`, the result is `""`. If the input is a boolean, the result is `"true"` or `"false"`. If the input is a number, it is converted to a string as specified by the ["NumberToString" algorithm](https://tc39.github.io/ecma262/#sec-tostring-applied-to-the-number-type) of the ECMAScript Language Specification. If the input is a color, it is converted to a string of the form `"rgba(r,g,b,a)"`, where `r`, `g`, and `b` are numerals ranging from 0 to 255, and `a` ranges from 0 to 1. Otherwise, the input is converted to a string in the format specified by the [`JSON.stringify`](https://tc39.github.io/ecma262/#sec-json.stringify) function of the ECMAScript Language Specification.
    ///
    ///  - [Create a time slider](https://maplibre.org/maplibre-gl-js/docs/examples/create-a-time-slider/)
    ToString,
    /// Returns a string describing the type of the given value.
    Typeof,
    /// Returns the input string converted to uppercase. Follows the Unicode Default Case Conversion algorithm and the locale-insensitive case mappings in the Unicode Character Database.
    ///
    ///  - [Change the case of labels](https://maplibre.org/maplibre-gl-js/docs/examples/change-case-of-labels/)
    Upcase,
    /// References variable bound using `let`.
    ///
    ///  - [Visualize population density](https://maplibre.org/maplibre-gl-js/docs/examples/visualize-population-density/)
    Var,
    /// Returns `true` if the evaluated feature is fully contained inside a boundary of the input geometry, `false` otherwise. The input value can be a valid GeoJSON of type `Polygon`, `MultiPolygon`, `Feature`, or `FeatureCollection`. Supported features for evaluation:
    ///
    /// - `Point`: Returns `false` if a point is on the boundary or falls outside the boundary.
    ///
    /// - `LineString`: Returns `false` if any part of a line falls outside the boundary, the line intersects the boundary, or a line's endpoint is on the boundary.
    Within,
    /// Gets the current zoom level.  Note that in style layout and paint properties, ["zoom"] may only appear as the input to a top-level "step" or "interpolate" expression.
    Zoom,
}

impl ExpressionName {
    /// The name that stands for the value in a style document.
    pub open spec fn spec_name(self) -> Seq<char> {
        match self {
            ExpressionName::Not => "!"@,
            ExpressionName::NotEqual => "!="@,
            ExpressionName::Percentage => "%"@,
            ExpressionName::Star => "*"@,
            ExpressionName::Plus => "+"@,
            ExpressionName::Minus => "-"@,
            ExpressionName::Slash => "/"@,
            ExpressionName::Less => "<"@,
            ExpressionName::Lessequal => "<="@,
            ExpressionName::Equal => "=="@,
            ExpressionName::Greater => ">"@,
            ExpressionName::Greaterequal => ">="@,
            ExpressionName::Power => "^"@,
            ExpressionName::Absolute => "abs"@,
            ExpressionName::Accumulated => "accumulated"@,
            ExpressionName::Arccosine => "acos"@,
            ExpressionName::All => "all"@,
            ExpressionName::Any => "any"@,
            ExpressionName::Array => "array"@,
            ExpressionName::Asin => "asin"@,
            ExpressionName::At => "at"@,
            ExpressionName::Atan => "atan"@,
            ExpressionName::Boolean => "boolean"@,
            ExpressionName::Case => "case"@,
            ExpressionName::Ceil => "ceil"@,
            ExpressionName::Coalesce => "coalesce"@,
            ExpressionName::Collator => "collator"@,
            ExpressionName::Concat => "concat"@,
            ExpressionName::Cos => "cos"@,
            ExpressionName::Distance => "distance"@,
            ExpressionName::Downcase => "downcase"@,
            ExpressionName::E => "e"@,
            ExpressionName::Elevation => "elevation"@,
            ExpressionName::FeatureState => "feature-state"@,
            ExpressionName::Floor => "floor"@,
            ExpressionName::Format => "format"@,
            ExpressionName::GeometryType => "geometry-type"@,
            ExpressionName::Get => "get"@,
            ExpressionName::GlobalState => "global-state"@,
            ExpressionName::Has => "has"@,
            ExpressionName::HeatmapDensity => "heatmap-density"@,
            ExpressionName::Id => "id"@,
            ExpressionName::Image => "image"@,
            ExpressionName::In => "in"@,
            ExpressionName::IndexOf => "index-of"@,
            ExpressionName::Interpolate => "interpolate"@,
            ExpressionName::InterpolateHcl => "interpolate-hcl"@,
            ExpressionName::InterpolateLab => "interpolate-lab"@,
            ExpressionName::IsSupportedScript => "is-supported-script"@,
            ExpressionName::Length => "length"@,
            ExpressionName::Let => "let"@,
            ExpressionName::LineProgress => "line-progress"@,
            ExpressionName::Literal => "literal"@,
            ExpressionName::Ln => "ln"@,
            ExpressionName::Ln2 => "ln2"@,
            ExpressionName::Log10 => "log10"@,
            ExpressionName::Log2 => "log2"@,
            ExpressionName::Match => "match"@,
            ExpressionName::Max => "max"@,
            ExpressionName::Min => "min"@,
            ExpressionName::Number => "number"@,
            ExpressionName::NumberFormat => "number-format"@,
            ExpressionName::Object => "object"@,
            ExpressionName::Pi => "pi"@,
            ExpressionName::Properties => "properties"@,
            ExpressionName::ResolvedLocale => "resolved-locale"@,
            ExpressionName::Rgb => "rgb"@,
            ExpressionName::Rgba => "rgba"@,
            ExpressionName::Round => "round"@,
            ExpressionName::Sin => "sin"@,
            ExpressionName::Slice => "slice"@,
            ExpressionName::Sqrt => "sqrt"@,
            ExpressionName::Step => "step"@,
            ExpressionName::String => "string"@,
            ExpressionName::Tan => "tan"@,
            ExpressionName::ToBoolean => "to-boolean"@,
            ExpressionName::ToColor => "to-color"@,
            ExpressionName::ToNumber => "to-number"@,
            ExpressionName::ToRgba => "to-rgba"@,
            ExpressionName::ToString => "to-string"@,
            ExpressionName::Typeof => "typeof"@,
            ExpressionName::Upcase => "upcase"@,
            ExpressionName::Var => "var"@,
            ExpressionName::Within => "within"@,
            ExpressionName::Zoom => "zoom"@,
        }
    }

    /// The name that stands for the value in a style document.
    pub fn name(&self) -> (r: &'static str)
        ensures
            r@ == self.spec_name(),
    {
        match self {
            ExpressionName::Not => "!",
            ExpressionName::NotEqual => "!=",
            ExpressionName::Percentage => "%",
            ExpressionName::Star => "*",
            ExpressionName::Plus => "+",
            ExpressionName::Minus => "-",
            ExpressionName::Slash => "/",
            ExpressionName::Less => "<",
            ExpressionName::Lessequal => "<=",
            ExpressionName::Equal => "==",
            ExpressionName::Greater => ">",
            ExpressionName::Greaterequal => ">=",
            ExpressionName::Power => "^",
            ExpressionName::Absolute => "abs",
            ExpressionName::Accumulated => "accumulated",
            ExpressionName::Arccosine => "acos",
            ExpressionName::All => "all",
            ExpressionName::Any => "any",
            ExpressionName::Array => "array",
            ExpressionName::Asin => "asin",
            ExpressionName::At => "at",
            ExpressionName::Atan => "atan",
            ExpressionName::Boolean => "boolean",
            ExpressionName::Case => "case",
            ExpressionName::Ceil => "ceil",
            ExpressionName::Coalesce => "coalesce",
            ExpressionName::Collator => "collator",
            ExpressionName::Concat => "concat",
            ExpressionName::Cos => "cos",
            ExpressionName::Distance => "distance",
            ExpressionName::Downcase => "downcase",
            ExpressionName::E => "e",
            ExpressionName::Elevation => "elevation",
            ExpressionName::FeatureState => "feature-state",
            ExpressionName::Floor => "floor",
            ExpressionName::Format => "format",
            ExpressionName::GeometryType => "geometry-type",
            ExpressionName::Get => "get",
            ExpressionName::GlobalState => "global-state",
            ExpressionName::Has => "has",
            ExpressionName::HeatmapDensity => "heatmap-density",
            ExpressionName::Id => "id",
            ExpressionName::Image => "image",
            ExpressionName::In => "in",
            ExpressionName::IndexOf => "index-of",
            ExpressionName::Interpolate => "interpolate",
            ExpressionName::InterpolateHcl => "interpolate-hcl",
            ExpressionName::InterpolateLab => "interpolate-lab",
            ExpressionName::IsSupportedScript => "is-supported-script",
            ExpressionName::Length => "length",
            ExpressionName::Let => "let",
            ExpressionName::LineProgress => "line-progress",
            ExpressionName::Literal => "literal",
            ExpressionName::Ln => "ln",
            ExpressionName::Ln2 => "ln2",
            ExpressionName::Log10 => "log10",
            ExpressionName::Log2 => "log2",
            ExpressionName::Match => "match",
            ExpressionName::Max => "max",
            ExpressionName::Min => "min",
            ExpressionName::Number => "number",
            ExpressionName::NumberFormat => "number-format",
            ExpressionName::Object => "object",
            ExpressionName::Pi => "pi",
            ExpressionName::Properties => "properties",
            ExpressionName::ResolvedLocale => "resolved-locale",
            ExpressionName::Rgb => "rgb",
            ExpressionName::Rgba => "rgba",
            ExpressionName::Round => "round",
            ExpressionName::Sin => "sin",
            ExpressionName::Slice => "slice",
            ExpressionName::Sqrt => "sqrt",
            ExpressionName::Step => "step",
            ExpressionName::String => "string",
            ExpressionName::Tan => "tan",
            ExpressionName::ToBoolean => "to-boolean",
            ExpressionName::ToColor => "to-color",
            ExpressionName::ToNumber => "to-number",
            ExpressionName::ToRgba => "to-rgba",
            ExpressionName::ToString => "to-string",
            ExpressionName::Typeof => "typeof",
            ExpressionName::Upcase => "upcase",
            ExpressionName::Var => "var",
            ExpressionName::Within => "within",
            ExpressionName::Zoom => "zoom",
        }
    }

    /// The value that a name stands for, if any.
    pub fn from_name(s: &str) -> (r: Option<ExpressionName>)
        ensures
            r matches Some(x) ==> x.spec_name() == s@,
            r is None ==> forall|x: ExpressionName| x.spec_name() != s@,
    {
        if str_eq(s, "!") {
            Some(ExpressionName::Not)
        } else if str_eq(s, "!=") {
            Some(ExpressionName::NotEqual)
        } else if str_eq(s, "%") {
            Some(ExpressionName::Percentage)
        } else if str_eq(s, "*") {
            Some(ExpressionName::Star)
        } else if str_eq(s, "+") {
            Some(ExpressionName::Plus)
        } else if str_eq(s, "-") {
            Some(ExpressionName::Minus)
        } else if str_eq(s, "/") {
            Some(ExpressionName::Slash)
        } else if str_eq(s, "<") {
            Some(ExpressionName::Less)
        } else if str_eq(s, "<=") {
            Some(ExpressionName::Lessequal)
        } else if str_eq(s, "==") {
            Some(ExpressionName::Equal)
        } else if str_eq(s, ">") {
            Some(ExpressionName::Greater)
        } else if str_eq(s, ">=") {
            Some(ExpressionName::Greaterequal)
        } else if str_eq(s, "^") {
            Some(ExpressionName::Power)
        } else if str_eq(s, "abs") {
            Some(ExpressionName::Absolute)
        } else if str_eq(s, "accumulated") {
            Some(ExpressionName::Accumulated)
        } else if str_eq(s, "acos") {
            Some(ExpressionName::Arccosine)
        } else if str_eq(s, "all") {
            Some(ExpressionName::All)
        } else if str_eq(s, "any") {
            Some(ExpressionName::Any)
        } else if str_eq(s, "array") {
            Some(ExpressionName::Array)
        } else if str_eq(s, "asin") {
            Some(ExpressionName::Asin)
        } else if str_eq(s, "at") {
            Some(ExpressionName::At)
        } else if str_eq(s, "atan") {
            Some(ExpressionName::Atan)
        } else if str_eq(s, "boolean") {
            Some(ExpressionName::Boolean)
        } else if str_eq(s, "case") {
            Some(ExpressionName::Case)
        } else if str_eq(s, "ceil") {
            Some(ExpressionName::Ceil)
        } else if str_eq(s, "coalesce") {
            Some(ExpressionName::Coalesce)
        } else if str_eq(s, "collator") {
            Some(ExpressionName::Collator)
        } else if str_eq(s, "concat") {
            Some(ExpressionName::Concat)
        } else if str_eq(s, "cos") {
            Some(ExpressionName::Cos)
        } else if str_eq(s, "distance") {
            Some(ExpressionName::Distance)
        } else if str_eq(s, "downcase") {
            Some(ExpressionName::Downcase)
        } else if str_eq(s, "e") {
            Some(ExpressionName::E)
        } else if str_eq(s, "elevation") {
            Some(ExpressionName::Elevation)
        } else if str_eq(s, "feature-state") {
            Some(ExpressionName::FeatureState)
        } else if str_eq(s, "floor") {
            Some(ExpressionName::Floor)
        } else if str_eq(s, "format") {
            Some(ExpressionName::Format)
        } else if str_eq(s, "geometry-type") {
            Some(ExpressionName::GeometryType)
        } else if str_eq(s, "get") {
            Some(ExpressionName::Get)
        } else if str_eq(s, "global-state") {
            Some(ExpressionName::GlobalState)
        } else if str_eq(s, "has") {
            Some(ExpressionName::Has)
        } else if str_eq(s, "heatmap-density") {
            Some(ExpressionName::HeatmapDensity)
        } else if str_eq(s, "id") {
            Some(ExpressionName::Id)
        } else if str_eq(s, "image") {
            Some(ExpressionName::Image)
        } else if str_eq(s, "in") {
            Some(ExpressionName::In)
        } else if str_eq(s, "index-of") {
            Some(ExpressionName::IndexOf)
        } else if str_eq(s, "interpolate") {
            Some(ExpressionName::Interpolate)
        } else if str_eq(s, "interpolate-hcl") {
            Some(ExpressionName::InterpolateHcl)
        } else if str_eq(s, "interpolate-lab") {
            Some(ExpressionName::InterpolateLab)
        } else if str_eq(s, "is-supported-script") {
            Some(ExpressionName::IsSupportedScript)
        } else if str_eq(s, "length") {
            Some(ExpressionName::Length)
        } else if str_eq(s, "let") {
            Some(ExpressionName::Let)
        } else if str_eq(s, "line-progress") {
            Some(ExpressionName::LineProgress)
        } else if str_eq(s, "literal") {
            Some(ExpressionName::Literal)
        } else if str_eq(s, "ln") {
            Some(ExpressionName::Ln)
        } else if str_eq(s, "ln2") {
            Some(ExpressionName::Ln2)
        } else if str_eq(s, "log10") {
            Some(ExpressionName::Log10)
        } else if str_eq(s, "log2") {
            Some(ExpressionName::Log2)
        } else if str_eq(s, "match") {
            Some(ExpressionName::Match)
        } else if str_eq(s, "max") {
            Some(ExpressionName::Max)
        } else if str_eq(s, "min") {
            Some(ExpressionName::Min)
        } else if str_eq(s, "number") {
            Some(ExpressionName::Number)
        } else if str_eq(s, "number-format") {
            Some(ExpressionName::NumberFormat)
        } else if str_eq(s, "object") {
            Some(ExpressionName::Object)
        } else if str_eq(s, "pi") {
            Some(ExpressionName::Pi)
        } else if str_eq(s, "properties") {
            Some(ExpressionName::Properties)
        } else if str_eq(s, "resolved-locale") {
            Some(ExpressionName::ResolvedLocale)
        } else if str_eq(s, "rgb") {
            Some(ExpressionName::Rgb)
        } else if str_eq(s, "rgba") {
            Some(ExpressionName::Rgba)
        } else if str_eq(s, "round") {
            Some(ExpressionName::Round)
        } else if str_eq(s, "sin") {
            Some(ExpressionName::Sin)
        } else if str_eq(s, "slice") {
            Some(ExpressionName::Slice)
        } else if str_eq(s, "sqrt") {
            Some(ExpressionName::Sqrt)
        } else if str_eq(s, "step") {
            Some(ExpressionName::Step)
        } else if str_eq(s, "string") {
            Some(ExpressionName::String)
        } else if str_eq(s, "tan") {
            Some(ExpressionName::Tan)
        } else if str_eq(s, "to-boolean") {
            Some(ExpressionName::ToBoolean)
        } else if str_eq(s, "to-color") {
            Some(ExpressionName::ToColor)
        } else if str_eq(s, "to-number") {
            Some(ExpressionName::ToNumber)
        } else if str_eq(s, "to-rgba") {
            Some(ExpressionName::ToRgba)
        } else if str_eq(s, "to-string") {
            Some(ExpressionName::ToString)
        } else if str_eq(s, "typeof") {
            Some(ExpressionName::Typeof)
        } else if str_eq(s, "upcase") {
            Some(ExpressionName::Upcase)
        } else if str_eq(s, "var") {
            Some(ExpressionName::Var)
        } else if str_eq(s, "within") {
            Some(ExpressionName::Within)
        } else if str_eq(s, "zoom") {
            Some(ExpressionName::Zoom)
        } else {
            None
        }
    }
}

impl JsonDecode for ExpressionName {
    /// The name of a value, or an object whose one entry has the name as its key and `null`.
    open spec fn accepts(v: Json) -> bool {
        ||| (v is Str && exists|x: ExpressionName| x.spec_name() == v->Str_0)
        ||| (v is Object && v->Object_0.len() == 1 && v->Object_0[0].1 is Null && exists|x: ExpressionName| x.spec_name() == v->Object_0[0].0)
    }

    open spec fn decodes(v: Json, x: Self) -> bool {
        ||| v == Json::Str(x.spec_name())
        ||| (v is Object && v->Object_0.len() == 1 && v->Object_0[0] == (x.spec_name(), Json::Null))
    }

    open spec fn rejection(v: Json) -> Seq<char> {
        if v is Str {
            unknown_variant(v->Str_0) + ", expected one of `!`, `!=`, `%`, `*`, `+`, `-`, `/`, `<`, `<=`, `==`, `>`, `>=`, `^`, `abs`, `accumulated`, `acos`, `all`, `any`, `array`, `asin`, `at`, `atan`, `boolean`, `case`, `ceil`, `coalesce`, `collator`, `concat`, `cos`, `distance`, `downcase`, `e`, `elevation`, `feature-state`, `floor`, `format`, `geometry-type`, `get`, `global-state`, `has`, `heatmap-density`, `id`, `image`, `in`, `index-of`, `interpolate`, `interpolate-hcl`, `interpolate-lab`, `is-supported-script`, `length`, `let`, `line-progress`, `literal`, `ln`, `ln2`, `log10`, `log2`, `match`, `max`, `min`, `number`, `number-format`, `object`, `pi`, `properties`, `resolved-locale`, `rgb`, `rgba`, `round`, `sin`, `slice`, `sqrt`, `step`, `string`, `tan`, `to-boolean`, `to-color`, `to-number`, `to-rgba`, `to-string`, `typeof`, `upcase`, `var`, `within`, `zoom`"@
        } else if v is Object {
            let o = v->Object_0;
            if o.len() != 1 {
                "invalid value: map, expected map with a single key"@
            } else if !(exists|x: ExpressionName| x.spec_name() == o[0].0) {
                unknown_variant(o[0].0) + ", expected one of `!`, `!=`, `%`, `*`, `+`, `-`, `/`, `<`, `<=`, `==`, `>`, `>=`, `^`, `abs`, `accumulated`, `acos`, `all`, `any`, `array`, `asin`, `at`, `atan`, `boolean`, `case`, `ceil`, `coalesce`, `collator`, `concat`, `cos`, `distance`, `downcase`, `e`, `elevation`, `feature-state`, `floor`, `format`, `geometry-type`, `get`, `global-state`, `has`, `heatmap-density`, `id`, `image`, `in`, `index-of`, `interpolate`, `interpolate-hcl`, `interpolate-lab`, `is-supported-script`, `length`, `let`, `line-progress`, `literal`, `ln`, `ln2`, `log10`, `log2`, `match`, `max`, `min`, `number`, `number-format`, `object`, `pi`, `properties`, `resolved-locale`, `rgb`, `rgba`, `round`, `sin`, `slice`, `sqrt`, `step`, `string`, `tan`, `to-boolean`, `to-color`, `to-number`, `to-rgba`, `to-string`, `typeof`, `upcase`, `var`, `within`, `zoom`"@
            } else {
                type_error(o[0].1, "unit"@)
            }
        } else {
            type_error(v, "string or map"@)
        }
    }

    fn decode(v: &JsonValue) -> (r: Result<Self, String>) {
        match v {
            JsonValue::String(s) => match Self::from_name(s.as_str()) {
                Some(x) => Ok(x),
                None => {
                    let mut m = make_unknown_variant(s.as_str());
                    m.append(", expected one of `!`, `!=`, `%`, `*`, `+`, `-`, `/`, `<`, `<=`, `==`, `>`, `>=`, `^`, `abs`, `accumulated`, `acos`, `all`, `any`, `array`, `asin`, `at`, `atan`, `boolean`, `case`, `ceil`, `coalesce`, `collator`, `concat`, `cos`, `distance`, `downcase`, `e`, `elevation`, `feature-state`, `floor`, `format`, `geometry-type`, `get`, `global-state`, `has`, `heatmap-density`, `id`, `image`, `in`, `index-of`, `interpolate`, `interpolate-hcl`, `interpolate-lab`, `is-supported-script`, `length`, `let`, `line-progress`, `literal`, `ln`, `ln2`, `log10`, `log2`, `match`, `max`, `min`, `number`, `number-format`, `object`, `pi`, `properties`, `resolved-locale`, `rgb`, `rgba`, `round`, `sin`, `slice`, `sqrt`, `step`, `string`, `tan`, `to-boolean`, `to-color`, `to-number`, `to-rgba`, `to-string`, `typeof`, `upcase`, `var`, `within`, `zoom`");
                    Err(m)
                },
            },
            JsonValue::Object(fields) => {
                if fields.len() != 1 {
                    return Err("invalid value: map, expected map with a single key".to_string());
                }
                proof {
                    assert(entries_model(*fields)[0] == (fields@[0].0@, fields@[0].1.model()));
                }
                match Self::from_name(fields[0].0.as_str()) {
                    Some(x) => match &fields[0].1 {
                        JsonValue::Null => Ok(x),
                        _ => Err(make_type_error(&fields[0].1, "unit")),
                    },
                    None => {
                        let mut m = make_unknown_variant(fields[0].0.as_str());
                        m.append(", expected one of `!`, `!=`, `%`, `*`, `+`, `-`, `/`, `<`, `<=`, `==`, `>`, `>=`, `^`, `abs`, `accumulated`, `acos`, `all`, `any`, `array`, `asin`, `at`, `atan`, `boolean`, `case`, `ceil`, `coalesce`, `collator`, `concat`, `cos`, `distance`, `downcase`, `e`, `elevation`, `feature-state`, `floor`, `format`, `geometry-type`, `get`, `global-state`, `has`, `heatmap-density`, `id`, `image`, `in`, `index-of`, `interpolate`, `interpolate-hcl`, `interpolate-lab`, `is-supported-script`, `length`, `let`, `line-progress`, `literal`, `ln`, `ln2`, `log10`, `log2`, `match`, `max`, `min`, `number`, `number-format`, `object`, `pi`, `properties`, `resolved-locale`, `rgb`, `rgba`, `round`, `sin`, `slice`, `sqrt`, `step`, `string`, `tan`, `to-boolean`, `to-color`, `to-number`, `to-rgba`, `to-string`, `typeof`, `upcase`, `var`, `within`, `zoom`");
                        Err(m)
                    },
                }
            },
            _ => Err(make_type_error(v, "string or map")),
        }
    }
}

/// The filter operator.
#[derive(PartialEq, Eq, Debug, Clone, Copy)]
pub enum FilterOperator {
    /// `["!=", key, value]` inequality: `feature[key] ≠ value`
    NotEqual,
    /// `["!has", key]` `feature[key]` does not exist
    NotHas,
    /// `["!in", key, v0, ..., vn]` set exclusion: `feature[key] ∉ {v0, ..., vn}`
    NotIn,
    /// `["<", key, value]` less than: `feature[key] < value`
    Less,
    /// `["<=", key, value]` less than or equal: `feature[key] ≤ value`
    Lessequal,
    /// `["==", key, value]` equality: `feature[key] = value`
    Equal,
    /// `[">", key, value]` greater than: `feature[key] > value`
    Greater,
    /// `[">=", key, value]` greater than or equal: `feature[key] ≥ value`
    Greaterequal,
    /// `["all", f0, ..., fn]` logical `AND`: `f0 ∧ ... ∧ fn`
    All,
    /// `["any", f0, ..., fn]` logical `OR`: `f0 ∨ ... ∨ fn`
    Any,
    /// `["has", key]` `feature[key]` exists
    Has,
    /// `["in", key, v0, ..., vn]` set inclusion: `feature[key] ∈ {v0, ..., vn}`
    In,
    /// `["none", f0, ..., fn]` logical `NOR`: `¬f0 ∧ ... ∧ ¬fn`
    NoneValue,
}

impl FilterOperator {
    /// The name that stands for the value in a style document.
    pub open spec fn spec_name(self) -> Seq<char> {
        match self {
            FilterOperator::NotEqual => "!="@,
            FilterOperator::NotHas => "!has"@,
            FilterOperator::NotIn => "!in"@,
            FilterOperator::Less => "<"@,
            FilterOperator::Lessequal => "<="@,
            FilterOperator::Equal => "=="@,
            FilterOperator::Greater => ">"@,
            FilterOperator::Greaterequal => ">="@,
            FilterOperator::All => "all"@,
            FilterOperator::Any => "any"@,
            FilterOperator::Has => "has"@,
            FilterOperator::In => "in"@,
            FilterOperator::NoneValue => "none"@,
        }
    }

    /// The name that stands for the value in a style document.
    pub fn name(&self) -> (r: &'static str)
        ensures
            r@ == self.spec_name(),
    {
        match self {
            FilterOperator::NotEqual => "!=",
            FilterOperator::NotHas => "!has",
            FilterOperator::NotIn => "!in",
            FilterOperator::Less => "<",
            FilterOperator::Lessequal => "<=",
            FilterOperator::Equal => "==",
            FilterOperator::Greater => ">",
            FilterOperator::Greaterequal => ">=",
            FilterOperator::All => "all",
            FilterOperator::Any => "any",
            FilterOperator::Has => "has",
            FilterOperator::In => "in",
            FilterOperator::NoneValue => "none",
        }
    }

    /// The value that a name stands for, if any.
    pub fn from_name(s: &str) -> (r: Option<FilterOperator>)
        ensures
            r matches Some(x) ==> x.spec_name() == s@,
            r is None ==> forall|x: FilterOperator| x.spec_name() != s@,
    {
        if str_eq(s, "!=") {
            Some(FilterOperator::NotEqual)
        } else if str_eq(s, "!has") {
            Some(FilterOperator::NotHas)
        } else if str_eq(s, "!in") {
            Some(FilterOperator::NotIn)
        } else if str_eq(s, "<") {
            Some(FilterOperator::Less)
        } else if str_eq(s, "<=") {
            Some(FilterOperator::Lessequal)
        } else if str_eq(s, "==") {
            Some(FilterOperator::Equal)
        } else if str_eq(s, ">") {
            Some(FilterOperator::Greater)
        } else if str_eq(s, ">=") {
            Some(FilterOperator::Greaterequal)
        } else if str_eq(s, "all") {
            Some(FilterOperator::All)
        } else if str_eq(s, "any") {
            Some(FilterOperator::Any)
        } else if str_eq(s, "has") {
            Some(FilterOperator::Has)
        } else if str_eq(s, "in") {
            Some(FilterOperator::In)
        } else if str_eq(s, "none") {
            Some(FilterOperator::NoneValue)
        } else {
            None
        }
    }
}

impl JsonDecode for FilterOperator {
    /// The name of a value, or an object whose one entry has the name as its key and `null`.
    open spec fn accepts(v: Json) -> bool {
        ||| (v is Str && exists|x: FilterOperator| x.spec_name() == v->Str_0)
        ||| (v is Object && v->Object_0.len() == 1 && v->Object_0[0].1 is Null && exists|x: FilterOperator| x.spec_name() == v->Object_0[0].0)
    }

    open spec fn decodes(v: Json, x: Self) -> bool {
        ||| v == Json::Str(x.spec_name())
        ||| (v is Object && v->Object_0.len() == 1 && v->Object_0[0] == (x.spec_name(), Json::Null))
    }

    open spec fn rejection(v: Json) -> Seq<char> {
        if v is Str {
            unknown_variant(v->Str_0) + ", expected one of `!=`, `!has`, `!in`, `<`, `<=`, `==`, `>`, `>=`, `all`, `any`, `has`, `in`, `none`"@
        } else if v is Object {
            let o = v->Object_0;
            if o.len() != 1 {
                "invalid value: map, expected map with a single key"@
            } else if !(exists|x: FilterOperator| x.spec_name() == o[0].0) {
                unknown_variant(o[0].0) + ", expected one of `!=`, `!has`, `!in`, `<`, `<=`, `==`, `>`, `>=`, `all`, `any`, `has`, `in`, `none`"@
            } else {
                type_error(o[0].1, "unit"@)
            }
        } else {
            type_error(v, "string or map"@)
        }
    }

    fn decode(v: &JsonValue) -> (r: Result<Self, String>) {
        match v {
            JsonValue::String(s) => match Self::from_name(s.as_str()) {
                Some(x) => Ok(x),
                None => {
                    let mut m = make_unknown_variant(s.as_str());
                    m.append(", expected one of `!=`, `!has`, `!in`, `<`, `<=`, `==`, `>`, `>=`, `all`, `any`, `has`, `in`, `none`");
                    Err(m)
                },
            },
            JsonValue::Object(fields) => {
                if fields.len() != 1 {
                    return Err("invalid value: map, expected map with a single key".to_string());
                }
                proof {
                    assert(entries_model(*fields)[0] == (fields@[0].0@, fields@[0].1.model()));
                }
                match Self::from_name(fields[0].0.as_str()) {
                    Some(x) => match &fields[0].1 {
                        JsonValue::Null => Ok(x),
                        _ => Err(make_type_error(&fields[0].1, "unit")),
                    },
                    None => {
                        let mut m = make_unknown_variant(fields[0].0.as_str());
                        m.append(", expected one of `!=`, `!has`, `!in`, `<`, `<=`, `==`, `>`, `>=`, `all`, `any`, `has`, `in`, `none`");
                        Err(m)
                    },
                }
            },
            _ => Err(make_type_error(v, "string or map")),
        }
    }
}

/// The exponential base of the interpolation curve. It controls the rate at which the result increases. Higher values make the result increase more towards the high end of the range. With `1` the stops are interpolated linearly.
///
/// Range: 0..
#[derive(PartialEq, Debug, Clone)]
pub struct Base(JsonNumber);

impl View for Base {
    type V = Seq<char>;

    closed spec fn view(&self) -> Seq<char> {
        self.0@
    }
}

impl JsonDecode for Base {
    open spec fn accepts(v: Json) -> bool {
        v is Number
    }

    open spec fn decodes(v: Json, x: Self) -> bool {
        v == Json::Number(x@)
    }

    open spec fn rejection(v: Json) -> Seq<char> {
        JsonNumber::rejection(v)
    }

    fn decode(v: &JsonValue) -> (r: Result<Self, String>) {
        match JsonNumber::decode(v) {
            Ok(x) => Ok(Base(x)),
            Err(e) => Err(e),
        }
    }
}

impl JsonEncode for Base {
    open spec fn to_json(self) -> Json {
        Json::Number(self@)
    }

    open spec fn round_trips(self) -> bool {
        true
    }

    fn encode(&self) -> (r: JsonValue) {
        JsonNumber::encode(&self.0)
    }

    proof fn lemma_round_trip(self) {
        JsonNumber::lemma_round_trip(self.0);
    }
}

impl Default for Base {
    fn default() -> (r: Self)
        ensures
            r.to_json() == Json::Number("1"@),
    {
        let r = Base(JsonNumber::from_literal("1"));
        r
    }
}

/// The color space in which colors interpolated. Interpolating colors in perceptual color spaces like LAB and HCL tend to produce color ramps that look more consistent and produce colors that can be differentiated more easily than those interpolated in RGB space.
#[derive(PartialEq, Eq, Debug, Clone, Copy)]
pub enum Colorspace {
    /// Use the HCL color space to interpolate color values, interpolating the Hue, Chroma, and Luminance channels individually.
    Hcl,
    /// Use the LAB color space to interpolate color values.
    Lab,
    /// Use the RGB color space to interpolate color values
    Rgb,
}

impl Colorspace {
    /// The name that stands for the value in a style document.
    pub open spec fn spec_name(self) -> Seq<char> {
        match self {
            Colorspace::Hcl => "hcl"@,
            Colorspace::Lab => "lab"@,
            Colorspace::Rgb => "rgb"@,
        }
    }

    /// The name that stands for the value in a style document.
    pub fn name(&self) -> (r: &'static str)
        ensures
            r@ == self.spec_name(),
    {
        match self {
            Colorspace::Hcl => "hcl",
            Colorspace::Lab => "lab",
            Colorspace::Rgb => "rgb",
        }
    }

    /// The value that a name stands for, if any.
    pub fn from_name(s: &str) -> (r: Option<Colorspace>)
        ensures
            r matches Some(x) ==> x.spec_name() == s@,
            r is None ==> forall|x: Colorspace| x.spec_name() != s@,
    {
        if str_eq(s, "hcl") {
            Some(Colorspace::Hcl)
        } else if str_eq(s, "lab") {
            Some(Colorspace::Lab)
        } else if str_eq(s, "rgb") {
            Some(Colorspace::Rgb)
        } else {
            None
        }
    }
}

impl JsonDecode for Colorspace {
    /// The name of a value, or an object whose one entry has the name as its key and `null`.
    open spec fn accepts(v: Json) -> bool {
        ||| (v is Str && exists|x: Colorspace| x.spec_name() == v->Str_0)
        ||| (v is Object && v->Object_0.len() == 1 && v->Object_0[0].1 is Null && exists|x: Colorspace| x.spec_name() == v->Object_0[0].0)
    }

    open spec fn decodes(v: Json, x: Self) -> bool {
        ||| v == Json::Str(x.spec_name())
        ||| (v is Object && v->Object_0.len() == 1 && v->Object_0[0] == (x.spec_name(), Json::Null))
    }

    open spec fn rejection(v: Json) -> Seq<char> {
        if v is Str {
            unknown_variant(v->Str_0) + ", expected one of `hcl`, `lab`, `rgb`"@
        } else if v is Object {
            let o = v->Object_0;
            if o.len() != 1 {
                "invalid value: map, expected map with a single key"@
            } else if !(exists|x: Colorspace| x.spec_name() == o[0].0) {
                unknown_variant(o[0].0) + ", expected one of `hcl`, `lab`, `rgb`"@
            } else {
                type_error(o[0].1, "unit"@)
            }
        } else {
            type_error(v, "string or map"@)
        }
    }

    fn decode(v: &JsonValue) -> (r: Result<Self, String>) {
        match v {
            JsonValue::String(s) => match Self::from_name(s.as_str()) {
                Some(x) => Ok(x),
                None => {
                    let mut m = make_unknown_variant(s.as_str());
                    m.append(", expected one of `hcl`, `lab`, `rgb`");
                    Err(m)
                },
            },
            JsonValue::Object(fields) => {
                if fields.len() != 1 {
                    return Err("invalid value: map, expected map with a single key".to_string());
                }
                proof {
                    assert(entries_model(*fields)[0] == (fields@[0].0@, fields@[0].1.model()));
                }
                match Self::from_name(fields[0].0.as_str()) {
                    Some(x) => match &fields[0].1 {
                        JsonValue::Null => Ok(x),
                        _ => Err(make_type_error(&fields[0].1, "unit")),
                    },
                    None => {
                        let mut m = make_unknown_variant(fields[0].0.as_str());
                        m.append(", expected one of `hcl`, `lab`, `rgb`");
                        Err(m)
                    },
                }
            },
            _ => Err(make_type_error(v, "string or map")),
        }
    }
}

impl Default for Colorspace {
    fn default() -> (r: Self)
        ensures
            r == Colorspace::Rgb,
    {
        Colorspace::Rgb
    }
}

/// A value to serve as a fallback function result when a value isn't otherwise available. It is used in the following circumstances:
///
/// * In categorical functions, when the feature value does not match any of the stop domain values.
///
/// * In property and zoom-and-property functions, when a feature does not contain a value for the specified property.
///
/// * In identity functions, when the feature value is not valid for the style property (for example, if the function is being used for a `circle-color` property but the feature property value is not a string or not a valid color).
///
/// * In interval or exponential property and zoom-and-property functions, when the feature value is not numeric.
///
/// If no default is provided, the style property's default is used in these circumstances.
#[derive(PartialEq, Debug, Clone)]
pub struct DefaultStruct(JsonValue);

impl View for DefaultStruct {
    type V = Json;

    closed spec fn view(&self) -> Json {
        self.0.model()
    }
}

impl JsonDecode for DefaultStruct {
    open spec fn accepts(v: Json) -> bool {
        true
    }

    open spec fn decodes(v: Json, x: Self) -> bool {
        v == x@
    }

    open spec fn rejection(v: Json) -> Seq<char> {
        JsonValue::rejection(v)
    }

    fn decode(v: &JsonValue) -> (r: Result<Self, String>) {
        match JsonValue::decode(v) {
            Ok(x) => Ok(DefaultStruct(x)),
            Err(e) => Err(e),
        }
    }
}

/// The name of a feature property to use as the function input.
#[derive(PartialEq, Debug, Clone)]
pub struct Property(JsonValue);

impl View for Property {
    type V = Json;

    closed spec fn view(&self) -> Json {
        self.0.model()
    }
}

impl JsonDecode for Property {
    open spec fn accepts(v: Json) -> bool {
        true
    }

    open spec fn decodes(v: Json, x: Self) -> bool {
        v == x@
    }

    open spec fn rejection(v: Json) -> Seq<char> {
        JsonValue::rejection(v)
    }

    fn decode(v: &JsonValue) -> (r: Result<Self, String>) {
        match JsonValue::decode(v) {
            Ok(x) => Ok(Property(x)),
            Err(e) => Err(e),
        }
    }
}

/// An array of stops.
#[derive(PartialEq, Debug, Clone)]
pub struct Stops(JsonValue);

impl View for Stops {
    type V = Json;

    closed spec fn view(&self) -> Json {
        self.0.model()
    }
}

impl JsonDecode for Stops {
    open spec fn accepts(v: Json) -> bool {
        true
    }

    open spec fn decodes(v: Json, x: Self) -> bool {
        v == x@
    }

    open spec fn rejection(v: Json) -> Seq<char> {
        JsonValue::rejection(v)
    }

    fn decode(v: &JsonValue) -> (r: Result<Self, String>) {
        match JsonValue::decode(v) {
            Ok(x) => Ok(Stops(x)),
            Err(e) => Err(e),
        }
    }
}

/// Zoom level and value pair.
///
/// Range: 0..=24
#[derive(PartialEq, Debug, Clone)]
pub struct FunctionStop(JsonValue);

impl View for FunctionStop {
    type V = Json;

    closed spec fn view(&self) -> Json {
        self.0.model()
    }
}

impl JsonDecode for FunctionStop {
    open spec fn accepts(v: Json) -> bool {
        true
    }

    open spec fn decodes(v: Json, x: Self) -> bool {
        v == x@
    }

    open spec fn rejection(v: Json) -> Seq<char> {
        JsonValue::rejection(v)
    }

    fn decode(v: &JsonValue) -> (r: Result<Self, String>) {
        match JsonValue::decode(v) {
            Ok(x) => Ok(FunctionStop(x)),
            Err(e) => Err(e),
        }
    }
}

/// The geometry type for the filter to select.
#[derive(PartialEq, Eq, Debug, Clone, Copy)]
pub enum GeometryType {
    /// Filter to line geometries.
    Linestring,
    /// Filter to point geometries.
    Point,
    /// Filter to polygon geometries.
    Polygon,
}

impl GeometryType {
    /// The name that stands for the value in a style document.
    pub open spec fn spec_name(self) -> Seq<char> {
        match self {
            GeometryType::Linestring => "LineString"@,
            GeometryType::Point => "Point"@,
            GeometryType::Polygon => "Polygon"@,
        }
    }

    /// The name that stands for the value in a style document.
    pub fn name(&self) -> (r: &'static str)
        ensures
            r@ == self.spec_name(),
    {
        match self {
            GeometryType::Linestring => "LineString",
            GeometryType::Point => "Point",
            GeometryType::Polygon => "Polygon",
        }
    }

    /// The value that a name stands for, if any.
    pub fn from_name(s: &str) -> (r: Option<GeometryType>)
        ensures
            r matches Some(x) ==> x.spec_name() == s@,
            r is None ==> forall|x: GeometryType| x.spec_name() != s@,
    {
        if str_eq(s, "LineString") {
            Some(GeometryType::Linestring)
        } else if str_eq(s, "Point") {
            Some(GeometryType::Point)
        } else if str_eq(s, "Polygon") {
            Some(GeometryType::Polygon)
        } else {
            None
        }
    }
}

impl JsonDecode for GeometryType {
    /// The name of a value, or an object whose one entry has the name as its key and `null`.
    open spec fn accepts(v: Json) -> bool {
        ||| (v is Str && exists|x: GeometryType| x.spec_name() == v->Str_0)
        ||| (v is Object && v->Object_0.len() == 1 && v->Object_0[0].1 is Null && exists|x: GeometryType| x.spec_name() == v->Object_0[0].0)
    }

    open spec fn decodes(v: Json, x: Self) -> bool {
        ||| v == Json::Str(x.spec_name())
        ||| (v is Object && v->Object_0.len() == 1 && v->Object_0[0] == (x.spec_name(), Json::Null))
    }

    open spec fn rejection(v: Json) -> Seq<char> {
        if v is Str {
            unknown_variant(v->Str_0) + ", expected one of `LineString`, `Point`, `Polygon`"@
        } else if v is Object {
            let o = v->Object_0;
            if o.len() != 1 {
                "invalid value: map, expected map with a single key"@
            } else if !(exists|x: GeometryType| x.spec_name() == o[0].0) {
                unknown_variant(o[0].0) + ", expected one of `LineString`, `Point`, `Polygon`"@
            } else {
                type_error(o[0].1, "unit"@)
            }
        } else {
            type_error(v, "string or map"@)
        }
    }

    fn decode(v: &JsonValue) -> (r: Result<Self, String>) {
        match v {
            JsonValue::String(s) => match Self::from_name(s.as_str()) {
                Some(x) => Ok(x),
                None => {
                    let mut m = make_unknown_variant(s.as_str());
                    m.append(", expected one of `LineString`, `Point`, `Polygon`");
                    Err(m)
                },
            },
            JsonValue::Object(fields) => {
                if fields.len() != 1 {
                    return Err("invalid value: map, expected map with a single key".to_string());
                }
                proof {
                    assert(entries_model(*fields)[0] == (fields@[0].0@, fields@[0].1.model()));
                }
                match Self::from_name(fields[0].0.as_str()) {
                    Some(x) => match &fields[0].1 {
                        JsonValue::Null => Ok(x),
                        _ => Err(make_type_error(&fields[0].1, "unit")),
                    },
                    None => {
                        let mut m = make_unknown_variant(fields[0].0.as_str());
                        m.append(", expected one of `LineString`, `Point`, `Polygon`");
                        Err(m)
                    },
                }
            },
            _ => Err(make_type_error(v, "string or map")),
        }
    }
}

/// Unique layer name.
#[derive(PartialEq, Debug, Clone)]
pub struct Id(JsonValue);

impl View for Id {
    type V = Json;

    closed spec fn view(&self) -> Json {
        self.0.model()
    }
}

impl JsonDecode for Id {
    open spec fn accepts(v: Json) -> bool {
        true
    }

    open spec fn decodes(v: Json, x: Self) -> bool {
        v == x@
    }

    open spec fn rejection(v: Json) -> Seq<char> {
        JsonValue::rejection(v)
    }

    fn decode(v: &JsonValue) -> (r: Result<Self, String>) {
        match JsonValue::decode(v) {
            Ok(x) => Ok(Id(x)),
            Err(e) => Err(e),
        }
    }
}

/// Arbitrary properties useful to track with the layer, but do not influence rendering. Properties should be prefixed to avoid collisions, like 'maplibre:'.
#[derive(PartialEq, Debug, Clone)]
pub struct Metadata(JsonValue);

impl View for Metadata {
    type V = Json;

    closed spec fn view(&self) -> Json {
        self.0.model()
    }
}

impl JsonDecode for Metadata {
    open spec fn accepts(v: Json) -> bool {
        true
    }

    open spec fn decodes(v: Json, x: Self) -> bool {
        v == x@
    }

    open spec fn rejection(v: Json) -> Seq<char> {
        JsonValue::rejection(v)
    }

    fn decode(v: &JsonValue) -> (r: Result<Self, String>) {
        match JsonValue::decode(v) {
            Ok(x) => Ok(Metadata(x)),
            Err(e) => Err(e),
        }
    }
}

/// Layer to use from a vector tile source. Required for vector tile sources; prohibited for all other source types, including GeoJSON sources.
#[derive(PartialEq, Debug, Clone)]
pub struct SourceLayer(JsonValue);

impl View for SourceLayer {
    type V = Json;

    closed spec fn view(&self) -> Json {
        self.0.model()
    }
}

impl JsonDecode for SourceLayer {
    open spec fn accepts(v: Json) -> bool {
        true
    }

    open spec fn decodes(v: Json, x: Self) -> bool {
        v == x@
    }

    open spec fn rejection(v: Json) -> Seq<char> {
        JsonValue::rejection(v)
    }

    fn decode(v: &JsonValue) -> (r: Result<Self, String>) {
        match JsonValue::decode(v) {
            Ok(x) => Ok(SourceLayer(x)),
            Err(e) => Err(e),
        }
    }
}

#[derive(PartialEq, Debug, Clone)]
pub struct LayoutBackground {
    /// Whether this layer is displayed.
    pub visibility: Visibility,
}

impl JsonDecode for LayoutBackground {
    /// An object with the fields by their keys, or an array with the fields in order.
    open spec fn accepts(v: Json) -> bool {
        ||| (v is Object && {
            let o = v->Object_0;
            &&& req_field_accepts::<Visibility>(o, "visibility"@)
        })
        ||| (v is Array && {
            let a = v->Array_0;
            &&& seq_req_accepts::<Visibility>(a, 0)
            &&& a.len() <= 1
        })
    }

    open spec fn decodes(v: Json, x: Self) -> bool {
        ||| (v is Object && {
            let o = v->Object_0;
            &&& req_field_decodes::<Visibility>(o, "visibility"@, x.visibility)
        })
        ||| (v is Array && {
            let a = v->Array_0;
            &&& seq_req_decodes::<Visibility>(a, 0, x.visibility)
        })
    }

    /// For an object, the first entry in order whose value does not read as its field, else the
    /// first required field that is missing.
    open spec fn rejection(v: Json) -> Seq<char> {
        if v is Object {
            let o = v->Object_0;
            match Self::first_fault(o, 0) {
                Some(m) => m,
                None => if lookup(o, "visibility"@) is None {
                    missing_field("visibility"@)
                } else {
                    Seq::empty()
                },
            }
        } else if v is Array {
            let a = v->Array_0;
            if !seq_req_accepts::<Visibility>(a, 0) {
                seq_req_rejection::<Visibility>(a, 0, "struct LayoutBackground with 1 element"@)
            } else if a.len() > 1 {
                length_error(a.len())
            } else {
                Seq::empty()
            }
        } else {
            type_error(v, "struct LayoutBackground"@)
        }
    }

    fn decode(v: &JsonValue) -> (r: Result<Self, String>) {
        match v {
            JsonValue::Object(fields) => {
                let visibility = match decode_req_field::<Visibility>(fields, "visibility") {
                    Ok(x) => x,
                    Err(_) => return Err(Self::object_rejection(fields)),
                };
                Ok(LayoutBackground { visibility })
            },
            JsonValue::Array(a) => {
                let visibility = match decode_seq_req::<Visibility>(a, 0, "struct LayoutBackground with 1 element") {
                    Ok(x) => x,
                    Err(e) => return Err(e),
                };
                if a.len() > 1 {
                    return Err(make_length_error(a.len()));
                }
                Ok(LayoutBackground { visibility })
            },
            _ => Err(make_type_error(v, "struct LayoutBackground")),
        }
    }
}

impl LayoutBackground {
    /// What is wrong with the value `w` of an entry with key `k`, where `k` is the key of a field.
    pub open spec fn field_fault(k: Seq<char>, w: Json) -> Option<Seq<char>> {
        if k == "visibility"@ {
            if Visibility::accepts(w) {
                None
            } else {
                Some(Visibility::rejection(w))
            }
        } else {
            None
        }
    }

    /// The message of the first entry of `o`, from entry `i` on and among the first entries of
    /// their keys, whose value does not read as its field, if any.
    pub open spec fn first_fault(o: Seq<(Seq<char>, Json)>, i: int) -> Option<Seq<char>>
        decreases o.len() - i,
    {
        if i < 0 || i >= o.len() {
            None
        } else if first_with_key(o, i) && Self::field_fault(o[i].0, o[i].1) is Some {
            Self::field_fault(o[i].0, o[i].1)
        } else {
            Self::first_fault(o, i + 1)
        }
    }

    fn find_field_fault(k: &str, w: &JsonValue) -> (r: Option<String>)
        ensures
            match r {
                Some(m) => Self::field_fault(k@, w.model()) == Some(m@),
                None => Self::field_fault(k@, w.model()) is None,
            },
    {
        if str_eq(k, "visibility") {
            match Visibility::decode(w) {
                Ok(_) => None,
                Err(e) => Some(e),
            }
        } else {
            None
        }
    }

    fn object_rejection(fields: &Vec<(String, JsonValue)>) -> (r: String)
        ensures
            r@ == Self::rejection(JsonValue::Object(*fields).model()),
    {
        let ghost o = entries_model(*fields);
        let mut i: usize = 0;
        while i < fields.len()
            invariant
                o == entries_model(*fields),
                o.len() == fields.len(),
                i <= fields.len(),
                Self::first_fault(o, 0) == Self::first_fault(o, i as int),
            decreases fields.len() - i,
        {
            proof {
                assert(o[i as int] == (fields@[i as int].0@, fields@[i as int].1.model()));
            }
            if !key_seen_before(fields, i) {
                match Self::find_field_fault(fields[i].0.as_str(), &fields[i].1) {
                    Some(m) => {
                        return m;
                    },
                    None => {},
                }
            }
            i += 1;
        }
        if get_field(fields, "visibility").is_none() {
            return make_missing_field("visibility");
        }
        String::new()
    }
}

/// Whether this layer is displayed.
#[derive(PartialEq, Eq, Debug, Clone, Copy)]
pub enum Visibility {
    /// The layer is not shown.
    NoneValue,
    /// The layer is shown.
    Visible,
}

impl Visibility {
    /// The name that stands for the value in a style document.
    pub open spec fn spec_name(self) -> Seq<char> {
        match self {
            Visibility::NoneValue => "none"@,
            Visibility::Visible => "visible"@,
        }
    }

    /// The name that stands for the value in a style document.
    pub fn name(&self) -> (r: &'static str)
        ensures
            r@ == self.spec_name(),
    {
        match self {
            Visibility::NoneValue => "none",
            Visibility::Visible => "visible",
        }
    }

    /// The value that a name stands for, if any.
    pub fn from_name(s: &str) -> (r: Option<Visibility>)
        ensures
            r matches Some(x) ==> x.spec_name() == s@,
            r is None ==> forall|x: Visibility| x.spec_name() != s@,
    {
        if str_eq(s, "none") {
            Some(Visibility::NoneValue)
        } else if str_eq(s, "visible") {
            Some(Visibility::Visible)
        } else {
            None
        }
    }
}

impl JsonDecode for Visibility {
    /// The name of a value, or an object whose one entry has the name as its key and `null`.
    open spec fn accepts(v: Json) -> bool {
        ||| (v is Str && exists|x: Visibility| x.spec_name() == v->Str_0)
        ||| (v is Object && v->Object_0.len() == 1 && v->Object_0[0].1 is Null && exists|x: Visibility| x.spec_name() == v->Object_0[0].0)
    }

    open spec fn decodes(v: Json, x: Self) -> bool {
        ||| v == Json::Str(x.spec_name())
        ||| (v is Object && v->Object_0.len() == 1 && v->Object_0[0] == (x.spec_name(), Json::Null))
    }

    open spec fn rejection(v: Json) -> Seq<char> {
        if v is Str {
            unknown_variant(v->Str_0) + ", expected `none` or `visible`"@
        } else if v is Object {
            let o = v->Object_0;
            if o.len() != 1 {
                "invalid value: map, expected map with a single key"@
            } else if !(exists|x: Visibility| x.spec_name() == o[0].0) {
                unknown_variant(o[0].0) + ", expected `none` or `visible`"@
            } else {
                type_error(o[0].1, "unit"@)
            }
        } else {
            type_error(v, "string or map"@)
        }
    }

    fn decode(v: &JsonValue) -> (r: Result<Self, String>) {
        match v {
            JsonValue::String(s) => match Self::from_name(s.as_str()) {
                Some(x) => Ok(x),
                None => {
                    let mut m = make_unknown_variant(s.as_str());
                    m.append(", expected `none` or `visible`");
                    Err(m)
                },
            },
            JsonValue::Object(fields) => {
                if fields.len() != 1 {
                    return Err("invalid value: map, expected map with a single key".to_string());
                }
                proof {
                    assert(entries_model(*fields)[0] == (fields@[0].0@, fields@[0].1.model()));
                }
                match Self::from_name(fields[0].0.as_str()) {
                    Some(x) => match &fields[0].1 {
                        JsonValue::Null => Ok(x),
                        _ => Err(make_type_error(&fields[0].1, "unit")),
                    },
                    None => {
                        let mut m = make_unknown_variant(fields[0].0.as_str());
                        m.append(", expected `none` or `visible`");
                        Err(m)
                    },
                }
            },
            _ => Err(make_type_error(v, "string or map")),
        }
    }
}

impl Default for Visibility {
    fn default() -> (r: Self)
        ensures
            r == Visibility::Visible,
    {
        Visibility::Visible
    }
}

#[derive(PartialEq, Debug, Clone)]
pub struct LayoutCircle {
    /// Sorts features in ascending order based on this value. Features with a higher sort key will appear above features with a lower sort key.
    pub circle_sort_key: CircleSortKey,
    /// Whether this layer is displayed.
    pub visibility: Visibility,
}

impl JsonDecode for LayoutCircle {
    /// An object with the fields by their keys, or an array with the fields in order.
    open spec fn accepts(v: Json) -> bool {
        ||| (v is Object && {
            let o = v->Object_0;
            &&& req_field_accepts::<CircleSortKey>(o, "circle-sort-key"@)
            &&& req_field_accepts::<Visibility>(o, "visibility"@)
        })
        ||| (v is Array && {
            let a = v->Array_0;
            &&& seq_req_accepts::<CircleSortKey>(a, 0)
            &&& seq_req_accepts::<Visibility>(a, 1)
            &&& a.len() <= 2
        })
    }

    open spec fn decodes(v: Json, x: Self) -> bool {
        ||| (v is Object && {
            let o = v->Object_0;
            &&& req_field_decodes::<CircleSortKey>(o, "circle-sort-key"@, x.circle_sort_key)
            &&& req_field_decodes::<Visibility>(o, "visibility"@, x.visibility)
        })
        ||| (v is Array && {
            let a = v->Array_0;
            &&& seq_req_decodes::<CircleSortKey>(a, 0, x.circle_sort_key)
            &&& seq_req_decodes::<Visibility>(a, 1, x.visibility)
        })
    }

    /// For an object, the first entry in order whose value does not read as its field, else the
    /// first required field that is missing.
    open spec fn rejection(v: Json) -> Seq<char> {
        if v is Object {
            let o = v->Object_0;
            match Self::first_fault(o, 0) {
                Some(m) => m,
                None => if lookup(o, "circle-sort-key"@) is None {
                    missing_field("circle-sort-key"@)
                } else if lookup(o, "visibility"@) is None {
                    missing_field("visibility"@)
                } else {
                    Seq::empty()
                },
            }
        } else if v is Array {
            let a = v->Array_0;
            if !seq_req_accepts::<CircleSortKey>(a, 0) {
                seq_req_rejection::<CircleSortKey>(a, 0, "struct LayoutCircle with 2 elements"@)
            } else if !seq_req_accepts::<Visibility>(a, 1) {
                seq_req_rejection::<Visibility>(a, 1, "struct LayoutCircle with 2 elements"@)
            } else if a.len() > 2 {
                length_error(a.len())
            } else {
                Seq::empty()
            }
        } else {
            type_error(v, "struct LayoutCircle"@)
        }
    }

    fn decode(v: &JsonValue) -> (r: Result<Self, String>) {
        match v {
            JsonValue::Object(fields) => {
                let circle_sort_key = match decode_req_field::<CircleSortKey>(fields, "circle-sort-key") {
                    Ok(x) => x,
                    Err(_) => return Err(Self::object_rejection(fields)),
                };
                let visibility = match decode_req_field::<Visibility>(fields, "visibility") {
                    Ok(x) => x,
                    Err(_) => return Err(Self::object_rejection(fields)),
                };
                Ok(LayoutCircle { circle_sort_key, visibility })
            },
            JsonValue::Array(a) => {
                let circle_sort_key = match decode_seq_req::<CircleSortKey>(a, 0, "struct LayoutCircle with 2 elements") {
                    Ok(x) => x,
                    Err(e) => return Err(e),
                };
                let visibility = match decode_seq_req::<Visibility>(a, 1, "struct LayoutCircle with 2 elements") {
                    Ok(x) => x,
                    Err(e) => return Err(e),
                };
                if a.len() > 2 {
                    return Err(make_length_error(a.len()));
                }
                Ok(LayoutCircle { circle_sort_key, visibility })
            },
            _ => Err(make_type_error(v, "struct LayoutCircle")),
        }
    }
}

impl LayoutCircle {
    /// What is wrong with the value `w` of an entry with key `k`, where `k` is the key of a field.
    pub open spec fn field_fault(k: Seq<char>, w: Json) -> Option<Seq<char>> {
        if k == "circle-sort-key"@ {
            if CircleSortKey::accepts(w) {
                None
            } else {
                Some(CircleSortKey::rejection(w))
            }
        } else if k == "visibility"@ {
            if Visibility::accepts(w) {
                None
            } else {
                Some(Visibility::rejection(w))
            }
        } else {
            None
        }
    }

    /// The message of the first entry of `o`, from entry `i` on and among the first entries of
    /// their keys, whose value does not read as its field, if any.
    pub open spec fn first_fault(o: Seq<(Seq<char>, Json)>, i: int) -> Option<Seq<char>>
        decreases o.len() - i,
    {
        if i < 0 || i >= o.len() {
            None
        } else if first_with_key(o, i) && Self::field_fault(o[i].0, o[i].1) is Some {
            Self::field_fault(o[i].0, o[i].1)
        } else {
            Self::first_fault(o, i + 1)
        }
    }

    fn find_field_fault(k: &str, w: &JsonValue) -> (r: Option<String>)
        ensures
            match r {
                Some(m) => Self::field_fault(k@, w.model()) == Some(m@),
                None => Self::field_fault(k@, w.model()) is None,
            },
    {
        if str_eq(k, "circle-sort-key") {
            match CircleSortKey::decode(w) {
                Ok(_) => None,
                Err(e) => Some(e),
            }
        } else if str_eq(k, "visibility") {
            match Visibility::decode(w) {
                Ok(_) => None,
                Err(e) => Some(e),
            }
        } else {
            None
        }
    }

    fn object_rejection(fields: &Vec<(String, JsonValue)>) -> (r: String)
        ensures
            r@ == Self::rejection(JsonValue::Object(*fields).model()),
    {
        let ghost o = entries_model(*fields);
        let mut i: usize = 0;
        while i < fields.len()
            invariant
                o == entries_model(*fields),
                o.len() == fields.len(),
                i <= fields.len(),
                Self::first_fault(o, 0) == Self::first_fault(o, i as int),
            decreases fields.len() - i,
        {
            proof {
                assert(o[i as int] == (fields@[i as int].0@, fields@[i as int].1.model()));
            }
            if !key_seen_before(fields, i) {
                match Self::find_field_fault(fields[i].0.as_str(), &fields[i].1) {
                    Some(m) => {
                        return m;
                    },
                    None => {},
                }
            }
            i += 1;
        }
        if get_field(fields, "circle-sort-key").is_none() {
            return make_missing_field("circle-sort-key");
        }
        if get_field(fields, "visibility").is_none() {
            return make_missing_field("visibility");
        }
        String::new()
    }
}

/// Sorts features in ascending order based on this value. Features with a higher sort key will appear above features with a lower sort key.
#[derive(PartialEq, Debug, Clone)]
pub struct CircleSortKey(JsonNumber);

impl View for CircleSortKey {
    type V = Seq<char>;

    closed spec fn view(&self) -> Seq<char> {
        self.0@
    }
}

impl JsonDecode for CircleSortKey {
    open spec fn accepts(v: Json) -> bool {
        v is Number
    }

    open spec fn decodes(v: Json, x: Self) -> bool {
        v == Json::Number(x@)
    }

    open spec fn rejection(v: Json) -> Seq<char> {
        JsonNumber::rejection(v)
    }

    fn decode(v: &JsonValue) -> (r: Result<Self, String>) {
        match JsonNumber::decode(v) {
            Ok(x) => Ok(CircleSortKey(x)),
            Err(e) => Err(e),
        }
    }
}

#[derive(PartialEq, Debug, Clone)]
pub struct LayoutColorRelief {
    /// Whether this layer is displayed.
    pub visibility: Visibility,
}

impl JsonDecode for LayoutColorRelief {
    /// An object with the fields by their keys, or an array with the fields in order.
    open spec fn accepts(v: Json) -> bool {
        ||| (v is Object && {
            let o = v->Object_0;
            &&& req_field_accepts::<Visibility>(o, "visibility"@)
        })
        ||| (v is Array && {
            let a = v->Array_0;
            &&& seq_req_accepts::<Visibility>(a, 0)
            &&& a.len() <= 1
        })
    }

    open spec fn decodes(v: Json, x: Self) -> bool {
        ||| (v is Object && {
            let o = v->Object_0;
            &&& req_field_decodes::<Visibility>(o, "visibility"@, x.visibility)
        })
        ||| (v is Array && {
            let a = v->Array_0;
            &&& seq_req_decodes::<Visibility>(a, 0, x.visibility)
        })
    }

    /// For an object, the first entry in order whose value does not read as its field, else the
    /// first required field that is missing.
    open spec fn rejection(v: Json) -> Seq<char> {
        if v is Object {
            let o = v->Object_0;
            match Self::first_fault(o, 0) {
                Some(m) => m,
                None => if lookup(o, "visibility"@) is None {
                    missing_field("visibility"@)
                } else {
                    Seq::empty()
                },
            }
        } else if v is Array {
            let a = v->Array_0;
            if !seq_req_accepts::<Visibility>(a, 0) {
                seq_req_rejection::<Visibility>(a, 0, "struct LayoutColorRelief with 1 element"@)
            } else if a.len() > 1 {
                length_error(a.len())
            } else {
                Seq::empty()
            }
        } else {
            type_error(v, "struct LayoutColorRelief"@)
        }
    }

    fn decode(v: &JsonValue) -> (r: Result<Self, String>) {
        match v {
            JsonValue::Object(fields) => {
                let visibility = match decode_req_field::<Visibility>(fields, "visibility") {
                    Ok(x) => x,
                    Err(_) => return Err(Self::object_rejection(fields)),
                };
                Ok(LayoutColorRelief { visibility })
            },
            JsonValue::Array(a) => {
                let visibility = match decode_seq_req::<Visibility>(a, 0, "struct LayoutColorRelief with 1 element") {
                    Ok(x) => x,
                    Err(e) => return Err(e),
                };
                if a.len() > 1 {
                    return Err(make_length_error(a.len()));
                }
                Ok(LayoutColorRelief { visibility })
            },
            _ => Err(make_type_error(v, "struct LayoutColorRelief")),
        }
    }
}

impl LayoutColorRelief {
    /// What is wrong with the value `w` of an entry with key `k`, where `k` is the key of a field.
    pub open spec fn field_fault(k: Seq<char>, w: Json) -> Option<Seq<char>> {
        if k == "visibility"@ {
            if Visibility::accepts(w) {
                None
            } else {
                Some(Visibility::rejection(w))
            }
        } else {
            None
        }
    }

    /// The message of the first entry of `o`, from entry `i` on and among the first entries of
    /// their keys, whose value does not read as its field, if any.
    pub open spec fn first_fault(o: Seq<(Seq<char>, Json)>, i: int) -> Option<Seq<char>>
        decreases o.len() - i,
    {
        if i < 0 || i >= o.len() {
            None
        } else if first_with_key(o, i) && Self::field_fault(o[i].0, o[i].1) is Some {
            Self::field_fault(o[i].0, o[i].1)
        } else {
            Self::first_fault(o, i + 1)
        }
    }

    fn find_field_fault(k: &str, w: &JsonValue) -> (r: Option<String>)
        ensures
            match r {
                Some(m) => Self::field_fault(k@, w.model()) == Some(m@),
                None => Self::field_fault(k@, w.model()) is None,
            },
    {
        if str_eq(k, "visibility") {
            match Visibility::decode(w) {
                Ok(_) => None,
                Err(e) => Some(e),
            }
        } else {
            None
        }
    }

    fn object_rejection(fields: &Vec<(String, JsonValue)>) -> (r: String)
        ensures
            r@ == Self::rejection(JsonValue::Object(*fields).model()),
    {
        let ghost o = entries_model(*fields);
        let mut i: usize = 0;
        while i < fields.len()
            invariant
                o == entries_model(*fields),
                o.len() == fields.len(),
                i <= fields.len(),
                Self::first_fault(o, 0) == Self::first_fault(o, i as int),
            decreases fields.len() - i,
        {
            proof {
                assert(o[i as int] == (fields@[i as int].0@, fields@[i as int].1.model()));
            }
            if !key_seen_before(fields, i) {
                match Self::find_field_fault(fields[i].0.as_str(), &fields[i].1) {
                    Some(m) => {
                        return m;
                    },
                    None => {},
                }
            }
            i += 1;
        }
        if get_field(fields, "visibility").is_none() {
            return make_missing_field("visibility");
        }
        String::new()
    }
}

#[derive(PartialEq, Debug, Clone)]
pub struct LayoutFill {
    /// Sorts features in ascending order based on this value. Features with a higher sort key will appear above features with a lower sort key.
    pub fill_sort_key: FillSortKey,
    /// Whether this layer is displayed.
    pub visibility: Visibility,
}

impl JsonDecode for LayoutFill {
    /// An object with the fields by their keys, or an array with the fields in order.
    open spec fn accepts(v: Json) -> bool {
        ||| (v is Object && {
            let o = v->Object_0;
            &&& req_field_accepts::<FillSortKey>(o, "fill-sort-key"@)
            &&& req_field_accepts::<Visibility>(o, "visibility"@)
        })
        ||| (v is Array && {
            let a = v->Array_0;
            &&& seq_req_accepts::<FillSortKey>(a, 0)
            &&& seq_req_accepts::<Visibility>(a, 1)
            &&& a.len() <= 2
        })
    }

    open spec fn decodes(v: Json, x: Self) -> bool {
        ||| (v is Object && {
            let o = v->Object_0;
            &&& req_field_decodes::<FillSortKey>(o, "fill-sort-key"@, x.fill_sort_key)
            &&& req_field_decodes::<Visibility>(o, "visibility"@, x.visibility)
        })
        ||| (v is Array && {
            let a = v->Array_0;
            &&& seq_req_decodes::<FillSortKey>(a, 0, x.fill_sort_key)
            &&& seq_req_decodes::<Visibility>(a, 1, x.visibility)
        })
    }

    /// For an object, the first entry in order whose value does not read as its field, else the
    /// first required field that is missing.
    open spec fn rejection(v: Json) -> Seq<char> {
        if v is Object {
            let o = v->Object_0;
            match Self::first_fault(o, 0) {
                Some(m) => m,
                None => if lookup(o, "fill-sort-key"@) is None {
                    missing_field("fill-sort-key"@)
                } else if lookup(o, "visibility"@) is None {
                    missing_field("visibility"@)
                } else {
                    Seq::empty()
                },
            }
        } else if v is Array {
            let a = v->Array_0;
            if !seq_req_accepts::<FillSortKey>(a, 0) {
                seq_req_rejection::<FillSortKey>(a, 0, "struct LayoutFill with 2 elements"@)
            } else if !seq_req_accepts::<Visibility>(a, 1) {
                seq_req_rejection::<Visibility>(a, 1, "struct LayoutFill with 2 elements"@)
            } else if a.len() > 2 {
                length_error(a.len())
            } else {
                Seq::empty()
            }
        } else {
            type_error(v, "struct LayoutFill"@)
        }
    }

    fn decode(v: &JsonValue) -> (r: Result<Self, String>) {
        match v {
            JsonValue::Object(fields) => {
                let fill_sort_key = match decode_req_field::<FillSortKey>(fields, "fill-sort-key") {
                    Ok(x) => x,
                    Err(_) => return Err(Self::object_rejection(fields)),
                };
                let visibility = match decode_req_field::<Visibility>(fields, "visibility") {
                    Ok(x) => x,
                    Err(_) => return Err(Self::object_rejection(fields)),
                };
                Ok(LayoutFill { fill_sort_key, visibility })
            },
            JsonValue::Array(a) => {
                let fill_sort_key = match decode_seq_req::<FillSortKey>(a, 0, "struct LayoutFill with 2 elements") {
                    Ok(x) => x,
                    Err(e) => return Err(e),
                };
                let visibility = match decode_seq_req::<Visibility>(a, 1, "struct LayoutFill with 2 elements") {
                    Ok(x) => x,
                    Err(e) => return Err(e),
                };
                if a.len() > 2 {
                    return Err(make_length_error(a.len()));
                }
                Ok(LayoutFill { fill_sort_key, visibility })
            },
            _ => Err(make_type_error(v, "struct LayoutFill")),
        }
    }
}

impl LayoutFill {
    /// What is wrong with the value `w` of an entry with key `k`, where `k` is the key of a field.
    pub open spec fn field_fault(k: Seq<char>, w: Json) -> Option<Seq<char>> {
        if k == "fill-sort-key"@ {
            if FillSortKey::accepts(w) {
                None
            } else {
                Some(FillSortKey::rejection(w))
            }
        } else if k == "visibility"@ {
            if Visibility::accepts(w) {
                None
            } else {
                Some(Visibility::rejection(w))
            }
        } else {
            None
        }
    }

    /// The message of the first entry of `o`, from entry `i` on and among the first entries of
    /// their keys, whose value does not read as its field, if any.
    pub open spec fn first_fault(o: Seq<(Seq<char>, Json)>, i: int) -> Option<Seq<char>>
        decreases o.len() - i,
    {
        if i < 0 || i >= o.len() {
            None
        } else if first_with_key(o, i) && Self::field_fault(o[i].0, o[i].1) is Some {
            Self::field_fault(o[i].0, o[i].1)
        } else {
            Self::first_fault(o, i + 1)
        }
    }

    fn find_field_fault(k: &str, w: &JsonValue) -> (r: Option<String>)
        ensures
            match r {
                Some(m) => Self::field_fault(k@, w.model()) == Some(m@),
                None => Self::field_fault(k@, w.model()) is None,
            },
    {
        if str_eq(k, "fill-sort-key") {
            match FillSortKey::decode(w) {
                Ok(_) => None,
                Err(e) => Some(e),
            }
        } else if str_eq(k, "visibility") {
            match Visibility::decode(w) {
                Ok(_) => None,
                Err(e) => Some(e),
            }
        } else {
            None
        }
    }

    fn object_rejection(fields: &Vec<(String, JsonValue)>) -> (r: String)
        ensures
            r@ == Self::rejection(JsonValue::Object(*fields).model()),
    {
        let ghost o = entries_model(*fields);
        let mut i: usize = 0;
        while i < fields.len()
            invariant
                o == entries_model(*fields),
                o.len() == fields.len(),
                i <= fields.len(),
                Self::first_fault(o, 0) == Self::first_fault(o, i as int),
            decreases fields.len() - i,
        {
            proof {
                assert(o[i as int] == (fields@[i as int].0@, fields@[i as int].1.model()));
            }
            if !key_seen_before(fields, i) {
                match Self::find_field_fault(fields[i].0.as_str(), &fields[i].1) {
                    Some(m) => {
                        return m;
                    },
                    None => {},
                }
            }
            i += 1;
        }
        if get_field(fields, "fill-sort-key").is_none() {
            return make_missing_field("fill-sort-key");
        }
        if get_field(fields, "visibility").is_none() {
            return make_missing_field("visibility");
        }
        String::new()
    }
}

/// Sorts features in ascending order based on this value. Features with a higher sort key will appear above features with a lower sort key.
#[derive(PartialEq, Debug, Clone)]
pub struct FillSortKey(JsonNumber);

impl View for FillSortKey {
    type V = Seq<char>;

    closed spec fn view(&self) -> Seq<char> {
        self.0@
    }
}

impl JsonDecode for FillSortKey {
    open spec fn accepts(v: Json) -> bool {
        v is Number
    }

    open spec fn decodes(v: Json, x: Self) -> bool {
        v == Json::Number(x@)
    }

    open spec fn rejection(v: Json) -> Seq<char> {
        JsonNumber::rejection(v)
    }

    fn decode(v: &JsonValue) -> (r: Result<Self, String>) {
        match JsonNumber::decode(v) {
            Ok(x) => Ok(FillSortKey(x)),
            Err(e) => Err(e),
        }
    }
}

#[derive(PartialEq, Debug, Clone)]
pub struct LayoutFillExtrusion {
    /// Whether this layer is displayed.
    pub visibility: Visibility,
}

impl JsonDecode for LayoutFillExtrusion {
    /// An object with the fields by their keys, or an array with the fields in order.
    open spec fn accepts(v: Json) -> bool {
        ||| (v is Object && {
            let o = v->Object_0;
            &&& req_field_accepts::<Visibility>(o, "visibility"@)
        })
        ||| (v is Array && {
            let a = v->Array_0;
            &&& seq_req_accepts::<Visibility>(a, 0)
            &&& a.len() <= 1
        })
    }

    open spec fn decodes(v: Json, x: Self) -> bool {
        ||| (v is Object && {
            let o = v->Object_0;
            &&& req_field_decodes::<Visibility>(o, "visibility"@, x.visibility)
        })
        ||| (v is Array && {
            let a = v->Array_0;
            &&& seq_req_decodes::<Visibility>(a, 0, x.visibility)
        })
    }

    /// For an object, the first entry in order whose value does not read as its field, else the
    /// first required field that is missing.
    open spec fn rejection(v: Json) -> Seq<char> {
        if v is Object {
            let o = v->Object_0;
            match Self::first_fault(o, 0) {
                Some(m) => m,
                None => if lookup(o, "visibility"@) is None {
                    missing_field("visibility"@)
                } else {
                    Seq::empty()
                },
            }
        } else if v is Array {
            let a = v->Array_0;
            if !seq_req_accepts::<Visibility>(a, 0) {
                seq_req_rejection::<Visibility>(a, 0, "struct LayoutFillExtrusion with 1 element"@)
            } else if a.len() > 1 {
                length_error(a.len())
            } else {
                Seq::empty()
            }
        } else {
            type_error(v, "struct LayoutFillExtrusion"@)
        }
    }

    fn decode(v: &JsonValue) -> (r: Result<Self, String>) {
        match v {
            JsonValue::Object(fields) => {
                let visibility = match decode_req_field::<Visibility>(fields, "visibility") {
                    Ok(x) => x,
                    Err(_) => return Err(Self::object_rejection(fields)),
                };
                Ok(LayoutFillExtrusion { visibility })
            },
            JsonValue::Array(a) => {
                let visibility = match decode_seq_req::<Visibility>(a, 0, "struct LayoutFillExtrusion with 1 element") {
                    Ok(x) => x,
                    Err(e) => return Err(e),
                };
                if a.len() > 1 {
                    return Err(make_length_error(a.len()));
                }
                Ok(LayoutFillExtrusion { visibility })
            },
            _ => Err(make_type_error(v, "struct LayoutFillExtrusion")),
        }
    }
}

impl LayoutFillExtrusion {
    /// What is wrong with the value `w` of an entry with key `k`, where `k` is the key of a field.
    pub open spec fn field_fault(k: Seq<char>, w: Json) -> Option<Seq<char>> {
        if k == "visibility"@ {
            if Visibility::accepts(w) {
                None
            } else {
                Some(Visibility::rejection(w))
            }
        } else {
            None
        }
    }

    /// The message of the first entry of `o`, from entry `i` on and among the first entries of
    /// their keys, whose value does not read as its field, if any.
    pub open spec fn first_fault(o: Seq<(Seq<char>, Json)>, i: int) -> Option<Seq<char>>
        decreases o.len() - i,
    {
        if i < 0 || i >= o.len() {
            None
        } else if first_with_key(o, i) && Self::field_fault(o[i].0, o[i].1) is Some {
            Self::field_fault(o[i].0, o[i].1)
        } else {
            Self::first_fault(o, i + 1)
        }
    }

    fn find_field_fault(k: &str, w: &JsonValue) -> (r: Option<String>)
        ensures
            match r {
                Some(m) => Self::field_fault(k@, w.model()) == Some(m@),
                None => Self::field_fault(k@, w.model()) is None,
            },
    {
        if str_eq(k, "visibility") {
            match Visibility::decode(w) {
                Ok(_) => None,
                Err(e) => Some(e),
            }
        } else {
            None
        }
    }

    fn object_rejection(fields: &Vec<(String, JsonValue)>) -> (r: String)
        ensures
            r@ == Self::rejection(JsonValue::Object(*fields).model()),
    {
        let ghost o = entries_model(*fields);
        let mut i: usize = 0;
        while i < fields.len()
            invariant
                o == entries_model(*fields),
                o.len() == fields.len(),
                i <= fields.len(),
                Self::first_fault(o, 0) == Self::first_fault(o, i as int),
            decreases fields.len() - i,
        {
            proof {
                assert(o[i as int] == (fields@[i as int].0@, fields@[i as int].1.model()));
            }
            if !key_seen_before(fields, i) {
                match Self::find_field_fault(fields[i].0.as_str(), &fields[i].1) {
                    Some(m) => {
                        return m;
                    },
                    None => {},
                }
            }
            i += 1;
        }
        if get_field(fields, "visibility").is_none() {
            return make_missing_field("visibility");
        }
        String::new()
    }
}

#[derive(PartialEq, Debug, Clone)]
pub struct LayoutHeatmap {
    /// Whether this layer is displayed.
    pub visibility: Visibility,
}

impl JsonDecode for LayoutHeatmap {
    /// An object with the fields by their keys, or an array with the fields in order.
    open spec fn accepts(v: Json) -> bool {
        ||| (v is Object && {
            let o = v->Object_0;
            &&& req_field_accepts::<Visibility>(o, "visibility"@)
        })
        ||| (v is Array && {
            let a = v->Array_0;
            &&& seq_req_accepts::<Visibility>(a, 0)
            &&& a.len() <= 1
        })
    }

    open spec fn decodes(v: Json, x: Self) -> bool {
        ||| (v is Object && {
            let o = v->Object_0;
            &&& req_field_decodes::<Visibility>(o, "visibility"@, x.visibility)
        })
        ||| (v is Array && {
            let a = v->Array_0;
            &&& seq_req_decodes::<Visibility>(a, 0, x.visibility)
        })
    }

    /// For an object, the first entry in order whose value does not read as its field, else the
    /// first required field that is missing.
    open spec fn rejection(v: Json) -> Seq<char> {
        if v is Object {
            let o = v->Object_0;
            match Self::first_fault(o, 0) {
                Some(m) => m,
                None => if lookup(o, "visibility"@) is None {
                    missing_field("visibility"@)
                } else {
                    Seq::empty()
                },
            }
        } else if v is Array {
            let a = v->Array_0;
            if !seq_req_accepts::<Visibility>(a, 0) {
                seq_req_rejection::<Visibility>(a, 0, "struct LayoutHeatmap with 1 element"@)
            } else if a.len() > 1 {
                length_error(a.len())
            } else {
                Seq::empty()
            }
        } else {
            type_error(v, "struct LayoutHeatmap"@)
        }
    }

    fn decode(v: &JsonValue) -> (r: Result<Self, String>) {
        match v {
            JsonValue::Object(fields) => {
                let visibility = match decode_req_field::<Visibility>(fields, "visibility") {
                    Ok(x) => x,
                    Err(_) => return Err(Self::object_rejection(fields)),
                };
                Ok(LayoutHeatmap { visibility })
            },
            JsonValue::Array(a) => {
                let visibility = match decode_seq_req::<Visibility>(a, 0, "struct LayoutHeatmap with 1 element") {
                    Ok(x) => x,
                    Err(e) => return Err(e),
                };
                if a.len() > 1 {
                    return Err(make_length_error(a.len()));
                }
                Ok(LayoutHeatmap { visibility })
            },
            _ => Err(make_type_error(v, "struct LayoutHeatmap")),
        }
    }
}

impl LayoutHeatmap {
    /// What is wrong with the value `w` of an entry with key `k`, where `k` is the key of a field.
    pub open spec fn field_fault(k: Seq<char>, w: Json) -> Option<Seq<char>> {
        if k == "visibility"@ {
            if Visibility::accepts(w) {
                None
            } else {
                Some(Visibility::rejection(w))
            }
        } else {
            None
        }
    }

    /// The message of the first entry of `o`, from entry `i` on and among the first entries of
    /// their keys, whose value does not read as its field, if any.
    pub open spec fn first_fault(o: Seq<(Seq<char>, Json)>, i: int) -> Option<Seq<char>>
        decreases o.len() - i,
    {
        if i < 0 || i >= o.len() {
            None
        } else if first_with_key(o, i) && Self::field_fault(o[i].0, o[i].1) is Some {
            Self::field_fault(o[i].0, o[i].1)
        } else {
            Self::first_fault(o, i + 1)
        }
    }

    fn find_field_fault(k: &str, w: &JsonValue) -> (r: Option<String>)
        ensures
            match r {
                Some(m) => Self::field_fault(k@, w.model()) == Some(m@),
                None => Self::field_fault(k@, w.model()) is None,
            },
    {
        if str_eq(k, "visibility") {
            match Visibility::decode(w) {
                Ok(_) => None,
                Err(e) => Some(e),
            }
        } else {
            None
        }
    }

    fn object_rejection(fields: &Vec<(String, JsonValue)>) -> (r: String)
        ensures
            r@ == Self::rejection(JsonValue::Object(*fields).model()),
    {
        let ghost o = entries_model(*fields);
        let mut i: usize = 0;
        while i < fields.len()
            invariant
                o == entries_model(*fields),
                o.len() == fields.len(),
                i <= fields.len(),
                Self::first_fault(o, 0) == Self::first_fault(o, i as int),
            decreases fields.len() - i,
        {
            proof {
                assert(o[i as int] == (fields@[i as int].0@, fields@[i as int].1.model()));
            }
            if !key_seen_before(fields, i) {
                match Self::find_field_fault(fields[i].0.as_str(), &fields[i].1) {
                    Some(m) => {
                        return m;
                    },
                    None => {},
                }
            }
            i += 1;
        }
        if get_field(fields, "visibility").is_none() {
            return make_missing_field("visibility");
        }
        String::new()
    }
}

#[derive(PartialEq, Debug, Clone)]
pub struct LayoutHillshade {
    /// Whether this layer is displayed.
    pub visibility: Visibility,
}

impl JsonDecode for LayoutHillshade {
    /// An object with the fields by their keys, or an array with the fields in order.
    open spec fn accepts(v: Json) -> bool {
        ||| (v is Object && {
            let o = v->Object_0;
            &&& req_field_accepts::<Visibility>(o, "visibility"@)
        })
        ||| (v is Array && {
            let a = v->Array_0;
            &&& seq_req_accepts::<Visibility>(a, 0)
            &&& a.len() <= 1
        })
    }

    open spec fn decodes(v: Json, x: Self) -> bool {
        ||| (v is Object && {
            let o = v->Object_0;
            &&& req_field_decodes::<Visibility>(o, "visibility"@, x.visibility)
        })
        ||| (v is Array && {
            let a = v->Array_0;
            &&& seq_req_decodes::<Visibility>(a, 0, x.visibility)
        })
    }

    /// For an object, the first entry in order whose value does not read as its field, else the
    /// first required field that is missing.
    open spec fn rejection(v: Json) -> Seq<char> {
        if v is Object {
            let o = v->Object_0;
            match Self::first_fault(o, 0) {
                Some(m) => m,
                None => if lookup(o, "visibility"@) is None {
                    missing_field("visibility"@)
                } else {
                    Seq::empty()
                },
            }
        } else if v is Array {
            let a = v->Array_0;
            if !seq_req_accepts::<Visibility>(a, 0) {
                seq_req_rejection::<Visibility>(a, 0, "struct LayoutHillshade with 1 element"@)
            } else if a.len() > 1 {
                length_error(a.len())
            } else {
                Seq::empty()
            }
        } else {
            type_error(v, "struct LayoutHillshade"@)
        }
    }

    fn decode(v: &JsonValue) -> (r: Result<Self, String>) {
        match v {
            JsonValue::Object(fields) => {
                let visibility = match decode_req_field::<Visibility>(fields, "visibility") {
                    Ok(x) => x,
                    Err(_) => return Err(Self::object_rejection(fields)),
                };
                Ok(LayoutHillshade { visibility })
            },
            JsonValue::Array(a) => {
                let visibility = match decode_seq_req::<Visibility>(a, 0, "struct LayoutHillshade with 1 element") {
                    Ok(x) => x,
                    Err(e) => return Err(e),
                };
                if a.len() > 1 {
                    return Err(make_length_error(a.len()));
                }
                Ok(LayoutHillshade { visibility })
            },
            _ => Err(make_type_error(v, "struct LayoutHillshade")),
        }
    }
}

impl LayoutHillshade {
    /// What is wrong with the value `w` of an entry with key `k`, where `k` is the key of a field.
    pub open spec fn field_fault(k: Seq<char>, w: Json) -> Option<Seq<char>> {
        if k == "visibility"@ {
            if Visibility::accepts(w) {
                None
            } else {
                Some(Visibility::rejection(w))
            }
        } else {
            None
        }
    }

    /// The message of the first entry of `o`, from entry `i` on and among the first entries of
    /// their keys, whose value does not read as its field, if any.
    pub open spec fn first_fault(o: Seq<(Seq<char>, Json)>, i: int) -> Option<Seq<char>>
        decreases o.len() - i,
    {
        if i < 0 || i >= o.len() {
            None
        } else if first_with_key(o, i) && Self::field_fault(o[i].0, o[i].1) is Some {
            Self::field_fault(o[i].0, o[i].1)
        } else {
            Self::first_fault(o, i + 1)
        }
    }

    fn find_field_fault(k: &str, w: &JsonValue) -> (r: Option<String>)
        ensures
            match r {
                Some(m) => Self::field_fault(k@, w.model()) == Some(m@),
                None => Self::field_fault(k@, w.model()) is None,
            },
    {
        if str_eq(k, "visibility") {
            match Visibility::decode(w) {
                Ok(_) => None,
                Err(e) => Some(e),
            }
        } else {
            None
        }
    }

    fn object_rejection(fields: &Vec<(String, JsonValue)>) -> (r: String)
        ensures
            r@ == Self::rejection(JsonValue::Object(*fields).model()),
    {
        let ghost o = entries_model(*fields);
        let mut i: usize = 0;
        while i < fields.len()
            invariant
                o == entries_model(*fields),
                o.len() == fields.len(),
                i <= fields.len(),
                Self::first_fault(o, 0) == Self::first_fault(o, i as int),
            decreases fields.len() - i,
        {
            proof {
                assert(o[i as int] == (fields@[i as int].0@, fields@[i as int].1.model()));
            }
            if !key_seen_before(fields, i) {
                match Self::find_field_fault(fields[i].0.as_str(), &fields[i].1) {
                    Some(m) => {
                        return m;
                    },
                    None => {},
                }
            }
            i += 1;
        }
        if get_field(fields, "visibility").is_none() {
            return make_missing_field("visibility");
        }
        String::new()
    }
}

#[derive(PartialEq, Debug, Clone)]
pub struct LayoutLine {
    /// The display of line endings.
    pub line_cap: LineCap,
    /// The display of lines when joining.
    pub line_join: LineJoin,
    /// Used to automatically convert miter joins to bevel joins for sharp angles.
    pub line_miter_limit: LineMiterLimit,
    /// Used to automatically convert round joins to miter joins for shallow angles.
    pub line_round_limit: LineRoundLimit,
    /// Sorts features in ascending order based on this value. Features with a higher sort key will appear above features with a lower sort key.
    pub line_sort_key: LineSortKey,
    /// Whether this layer is displayed.
    pub visibility: Visibility,
}

impl JsonDecode for LayoutLine {
    /// An object with the fields by their keys, or an array with the fields in order.
    open spec fn accepts(v: Json) -> bool {
        ||| (v is Object && {
            let o = v->Object_0;
            &&& req_field_accepts::<LineCap>(o, "line-cap"@)
            &&& req_field_accepts::<LineJoin>(o, "line-join"@)
            &&& req_field_accepts::<LineMiterLimit>(o, "line-miter-limit"@)
            &&& req_field_accepts::<LineRoundLimit>(o, "line-round-limit"@)
            &&& req_field_accepts::<LineSortKey>(o, "line-sort-key"@)
            &&& req_field_accepts::<Visibility>(o, "visibility"@)
        })
        ||| (v is Array && {
            let a = v->Array_0;
            &&& seq_req_accepts::<LineCap>(a, 0)
            &&& seq_req_accepts::<LineJoin>(a, 1)
            &&& seq_req_accepts::<LineMiterLimit>(a, 2)
            &&& seq_req_accepts::<LineRoundLimit>(a, 3)
            &&& seq_req_accepts::<LineSortKey>(a, 4)
            &&& seq_req_accepts::<Visibility>(a, 5)
            &&& a.len() <= 6
        })
    }

    open spec fn decodes(v: Json, x: Self) -> bool {
        ||| (v is Object && {
            let o = v->Object_0;
            &&& req_field_decodes::<LineCap>(o, "line-cap"@, x.line_cap)
            &&& req_field_decodes::<LineJoin>(o, "line-join"@, x.line_join)
            &&& req_field_decodes::<LineMiterLimit>(o, "line-miter-limit"@, x.line_miter_limit)
            &&& req_field_decodes::<LineRoundLimit>(o, "line-round-limit"@, x.line_round_limit)
            &&& req_field_decodes::<LineSortKey>(o, "line-sort-key"@, x.line_sort_key)
            &&& req_field_decodes::<Visibility>(o, "visibility"@, x.visibility)
        })
        ||| (v is Array && {
            let a = v->Array_0;
            &&& seq_req_decodes::<LineCap>(a, 0, x.line_cap)
            &&& seq_req_decodes::<LineJoin>(a, 1, x.line_join)
            &&& seq_req_decodes::<LineMiterLimit>(a, 2, x.line_miter_limit)
            &&& seq_req_decodes::<LineRoundLimit>(a, 3, x.line_round_limit)
            &&& seq_req_decodes::<LineSortKey>(a, 4, x.line_sort_key)
            &&& seq_req_decodes::<Visibility>(a, 5, x.visibility)
        })
    }

    /// For an object, the first entry in order whose value does not read as its field, else the
    /// first required field that is missing.
    open spec fn rejection(v: Json) -> Seq<char> {
        if v is Object {
            let o = v->Object_0;
            match Self::first_fault(o, 0) {
                Some(m) => m,
                None => if lookup(o, "line-cap"@) is None {
                    missing_field("line-cap"@)
                } else if lookup(o, "line-join"@) is None {
                    missing_field("line-join"@)
                } else if lookup(o, "line-miter-limit"@) is None {
                    missing_field("line-miter-limit"@)
                } else if lookup(o, "line-round-limit"@) is None {
                    missing_field("line-round-limit"@)
                } else if lookup(o, "line-sort-key"@) is None {
                    missing_field("line-sort-key"@)
                } else if lookup(o, "visibility"@) is None {
                    missing_field("visibility"@)
                } else {
                    Seq::empty()
                },
            }
        } else if v is Array {
            let a = v->Array_0;
            if !seq_req_accepts::<LineCap>(a, 0) {
                seq_req_rejection::<LineCap>(a, 0, "struct LayoutLine with 6 elements"@)
            } else if !seq_req_accepts::<LineJoin>(a, 1) {
                seq_req_rejection::<LineJoin>(a, 1, "struct LayoutLine with 6 elements"@)
            } else if !seq_req_accepts::<LineMiterLimit>(a, 2) {
                seq_req_rejection::<LineMiterLimit>(a, 2, "struct LayoutLine with 6 elements"@)
            } else if !seq_req_accepts::<LineRoundLimit>(a, 3) {
                seq_req_rejection::<LineRoundLimit>(a, 3, "struct LayoutLine with 6 elements"@)
            } else if !seq_req_accepts::<LineSortKey>(a, 4) {
                seq_req_rejection::<LineSortKey>(a, 4, "struct LayoutLine with 6 elements"@)
            } else if !seq_req_accepts::<Visibility>(a, 5) {
                seq_req_rejection::<Visibility>(a, 5, "struct LayoutLine with 6 elements"@)
            } else if a.len() > 6 {
                length_error(a.len())
            } else {
                Seq::empty()
            }
        } else {
            type_error(v, "struct LayoutLine"@)
        }
    }

    fn decode(v: &JsonValue) -> (r: Result<Self, String>) {
        match v {
            JsonValue::Object(fields) => {
                let line_cap = match decode_req_field::<LineCap>(fields, "line-cap") {
                    Ok(x) => x,
                    Err(_) => return Err(Self::object_rejection(fields)),
                };
                let line_join = match decode_req_field::<LineJoin>(fields, "line-join") {
                    Ok(x) => x,
                    Err(_) => return Err(Self::object_rejection(fields)),
                };
                let line_miter_limit = match decode_req_field::<LineMiterLimit>(fields, "line-miter-limit") {
                    Ok(x) => x,
                    Err(_) => return Err(Self::object_rejection(fields)),
                };
                let line_round_limit = match decode_req_field::<LineRoundLimit>(fields, "line-round-limit") {
                    Ok(x) => x,
                    Err(_) => return Err(Self::object_rejection(fields)),
                };
                let line_sort_key = match decode_req_field::<LineSortKey>(fields, "line-sort-key") {
                    Ok(x) => x,
                    Err(_) => return Err(Self::object_rejection(fields)),
                };
                let visibility = match decode_req_field::<Visibility>(fields, "visibility") {
                    Ok(x) => x,
                    Err(_) => return Err(Self::object_rejection(fields)),
                };
                Ok(LayoutLine { line_cap, line_join, line_miter_limit, line_round_limit, line_sort_key, visibility })
            },
            JsonValue::Array(a) => {
                let line_cap = match decode_seq_req::<LineCap>(a, 0, "struct LayoutLine with 6 elements") {
                    Ok(x) => x,
                    Err(e) => return Err(e),
                };
                let line_join = match decode_seq_req::<LineJoin>(a, 1, "struct LayoutLine with 6 elements") {
                    Ok(x) => x,
                    Err(e) => return Err(e),
                };
                let line_miter_limit = match decode_seq_req::<LineMiterLimit>(a, 2, "struct LayoutLine with 6 elements") {
                    Ok(x) => x,
                    Err(e) => return Err(e),
                };
                let line_round_limit = match decode_seq_req::<LineRoundLimit>(a, 3, "struct LayoutLine with 6 elements") {
                    Ok(x) => x,
                    Err(e) => return Err(e),
                };
                let line_sort_key = match decode_seq_req::<LineSortKey>(a, 4, "struct LayoutLine with 6 elements") {
                    Ok(x) => x,
                    Err(e) => return Err(e),
                };
                let visibility = match decode_seq_req::<Visibility>(a, 5, "struct LayoutLine with 6 elements") {
                    Ok(x) => x,
                    Err(e) => return Err(e),
                };
                if a.len() > 6 {
                    return Err(make_length_error(a.len()));
                }
                Ok(LayoutLine { line_cap, line_join, line_miter_limit, line_round_limit, line_sort_key, visibility })
            },
            _ => Err(make_type_error(v, "struct LayoutLine")),
        }
    }
}

impl LayoutLine {
    /// What is wrong with the value `w` of an entry with key `k`, where `k` is the key of a field.
    pub open spec fn field_fault(k: Seq<char>, w: Json) -> Option<Seq<char>> {
        if k == "line-cap"@ {
            if LineCap::accepts(w) {
                None
            } else {
                Some(LineCap::rejection(w))
            }
        } else if k == "line-join"@ {
            if LineJoin::accepts(w) {
                None
            } else {
                Some(LineJoin::rejection(w))
            }
        } else if k == "line-miter-limit"@ {
            if LineMiterLimit::accepts(w) {
                None
            } else {
                Some(LineMiterLimit::rejection(w))
            }
        } else if k == "line-round-limit"@ {
            if LineRoundLimit::accepts(w) {
                None
            } else {
                Some(LineRoundLimit::rejection(w))
            }
        } else if k == "line-sort-key"@ {
            if LineSortKey::accepts(w) {
                None
            } else {
                Some(LineSortKey::rejection(w))
            }
        } else if k == "visibility"@ {
            if Visibility::accepts(w) {
                None
            } else {
                Some(Visibility::rejection(w))
            }
        } else {
            None
        }
    }

    /// The message of the first entry of `o`, from entry `i` on and among the first entries of
    /// their keys, whose value does not read as its field, if any.
    pub open spec fn first_fault(o: Seq<(Seq<char>, Json)>, i: int) -> Option<Seq<char>>
        decreases o.len() - i,
    {
        if i < 0 || i >= o.len() {
            None
        } else if first_with_key(o, i) && Self::field_fault(o[i].0, o[i].1) is Some {
            Self::field_fault(o[i].0, o[i].1)
        } else {
            Self::first_fault(o, i + 1)
        }
    }

    fn find_field_fault(k: &str, w: &JsonValue) -> (r: Option<String>)
        ensures
            match r {
                Some(m) => Self::field_fault(k@, w.model()) == Some(m@),
                None => Self::field_fault(k@, w.model()) is None,
            },
    {
        if str_eq(k, "line-cap") {
            match LineCap::decode(w) {
                Ok(_) => None,
                Err(e) => Some(e),
            }
        } else if str_eq(k, "line-join") {
            match LineJoin::decode(w) {
                Ok(_) => None,
                Err(e) => Some(e),
            }
        } else if str_eq(k, "line-miter-limit") {
            match LineMiterLimit::decode(w) {
                Ok(_) => None,
                Err(e) => Some(e),
            }
        } else if str_eq(k, "line-round-limit") {
            match LineRoundLimit::decode(w) {
                Ok(_) => None,
                Err(e) => Some(e),
            }
        } else if str_eq(k, "line-sort-key") {
            match LineSortKey::decode(w) {
                Ok(_) => None,
                Err(e) => Some(e),
            }
        } else if str_eq(k, "visibility") {
            match Visibility::decode(w) {
                Ok(_) => None,
                Err(e) => Some(e),
            }
        } else {
            None
        }
    }

    fn object_rejection(fields: &Vec<(String, JsonValue)>) -> (r: String)
        ensures
            r@ == Self::rejection(JsonValue::Object(*fields).model()),
    {
        let ghost o = entries_model(*fields);
        let mut i: usize = 0;
        while i < fields.len()
            invariant
                o == entries_model(*fields),
                o.len() == fields.len(),
                i <= fields.len(),
                Self::first_fault(o, 0) == Self::first_fault(o, i as int),
            decreases fields.len() - i,
        {
            proof {
                assert(o[i as int] == (fields@[i as int].0@, fields@[i as int].1.model()));
            }
            if !key_seen_before(fields, i) {
                match Self::find_field_fault(fields[i].0.as_str(), &fields[i].1) {
                    Some(m) => {
                        return m;
                    },
                    None => {},
                }
            }
            i += 1;
        }
        if get_field(fields, "line-cap").is_none() {
            return make_missing_field("line-cap");
        }
        if get_field(fields, "line-join").is_none() {
            return make_missing_field("line-join");
        }
        if get_field(fields, "line-miter-limit").is_none() {
            return make_missing_field("line-miter-limit");
        }
        if get_field(fields, "line-round-limit").is_none() {
            return make_missing_field("line-round-limit");
        }
        if get_field(fields, "line-sort-key").is_none() {
            return make_missing_field("line-sort-key");
        }
        if get_field(fields, "visibility").is_none() {
            return make_missing_field("visibility");
        }
        String::new()
    }
}

/// The display of line endings.
#[derive(PartialEq, Eq, Debug, Clone, Copy)]
pub enum LineCap {
    /// A cap with a squared-off end which is drawn to the exact endpoint of the line.
    Butt,
    /// A cap with a rounded end which is drawn beyond the endpoint of the line at a radius of one-half of the line's width and centered on the endpoint of the line.
    Round,
    /// A cap with a squared-off end which is drawn beyond the endpoint of the line at a distance of one-half of the line's width.
    Square,
}

impl LineCap {
    /// The name that stands for the value in a style document.
    pub open spec fn spec_name(self) -> Seq<char> {
        match self {
            LineCap::Butt => "butt"@,
            LineCap::Round => "round"@,
            LineCap::Square => "square"@,
        }
    }

    /// The name that stands for the value in a style document.
    pub fn name(&self) -> (r: &'static str)
        ensures
            r@ == self.spec_name(),
    {
        match self {
            LineCap::Butt => "butt",
            LineCap::Round => "round",
            LineCap::Square => "square",
        }
    }

    /// The value that a name stands for, if any.
    pub fn from_name(s: &str) -> (r: Option<LineCap>)
        ensures
            r matches Some(x) ==> x.spec_name() == s@,
            r is None ==> forall|x: LineCap| x.spec_name() != s@,
    {
        if str_eq(s, "butt") {
            Some(LineCap::Butt)
        } else if str_eq(s, "round") {
            Some(LineCap::Round)
        } else if str_eq(s, "square") {
            Some(LineCap::Square)
        } else {
            None
        }
    }
}

impl JsonDecode for LineCap {
    /// The name of a value, or an object whose one entry has the name as its key and `null`.
    open spec fn accepts(v: Json) -> bool {
        ||| (v is Str && exists|x: LineCap| x.spec_name() == v->Str_0)
        ||| (v is Object && v->Object_0.len() == 1 && v->Object_0[0].1 is Null && exists|x: LineCap| x.spec_name() == v->Object_0[0].0)
    }

    open spec fn decodes(v: Json, x: Self) -> bool {
        ||| v == Json::Str(x.spec_name())
        ||| (v is Object && v->Object_0.len() == 1 && v->Object_0[0] == (x.spec_name(), Json::Null))
    }

    open spec fn rejection(v: Json) -> Seq<char> {
        if v is Str {
            unknown_variant(v->Str_0) + ", expected one of `butt`, `round`, `square`"@
        } else if v is Object {
            let o = v->Object_0;
            if o.len() != 1 {
                "invalid value: map, expected map with a single key"@
            } else if !(exists|x: LineCap| x.spec_name() == o[0].0) {
                unknown_variant(o[0].0) + ", expected one of `butt`, `round`, `square`"@
            } else {
                type_error(o[0].1, "unit"@)
            }
        } else {
            type_error(v, "string or map"@)
        }
    }

    fn decode(v: &JsonValue) -> (r: Result<Self, String>) {
        match v {
            JsonValue::String(s) => match Self::from_name(s.as_str()) {
                Some(x) => Ok(x),
                None => {
                    let mut m = make_unknown_variant(s.as_str());
                    m.append(", expected one of `butt`, `round`, `square`");
                    Err(m)
                },
            },
            JsonValue::Object(fields) => {
                if fields.len() != 1 {
                    return Err("invalid value: map, expected map with a single key".to_string());
                }
                proof {
                    assert(entries_model(*fields)[0] == (fields@[0].0@, fields@[0].1.model()));
                }
                match Self::from_name(fields[0].0.as_str()) {
                    Some(x) => match &fields[0].1 {
                        JsonValue::Null => Ok(x),
                        _ => Err(make_type_error(&fields[0].1, "unit")),
                    },
                    None => {
                        let mut m = make_unknown_variant(fields[0].0.as_str());
                        m.append(", expected one of `butt`, `round`, `square`");
                        Err(m)
                    },
                }
            },
            _ => Err(make_type_error(v, "string or map")),
        }
    }
}

impl Default for LineCap {
    fn default() -> (r: Self)
        ensures
            r == LineCap::Butt,
    {
        LineCap::Butt
    }
}

/// The display of lines when joining.
#[derive(PartialEq, Eq, Debug, Clone, Copy)]
pub enum LineJoin {
    /// A join with a squared-off end which is drawn beyond the endpoint of the line at a distance of one-half of the line's width.
    Bevel,
    /// A join with a sharp, angled corner which is drawn with the outer sides beyond the endpoint of the path until they meet.
    Miter,
    /// A join with a rounded end which is drawn beyond the endpoint of the line at a radius of one-half of the line's width and centered on the endpoint of the line.
    Round,
}

impl LineJoin {
    /// The name that stands for the value in a style document.
    pub open spec fn spec_name(self) -> Seq<char> {
        match self {
            LineJoin::Bevel => "bevel"@,
            LineJoin::Miter => "miter"@,
            LineJoin::Round => "round"@,
        }
    }

    /// The name that stands for the value in a style document.
    pub fn name(&self) -> (r: &'static str)
        ensures
            r@ == self.spec_name(),
    {
        match self {
            LineJoin::Bevel => "bevel",
            LineJoin::Miter => "miter",
            LineJoin::Round => "round",
        }
    }

    /// The value that a name stands for, if any.
    pub fn from_name(s: &str) -> (r: Option<LineJoin>)
        ensures
            r matches Some(x) ==> x.spec_name() == s@,
            r is None ==> forall|x: LineJoin| x.spec_name() != s@,
    {
        if str_eq(s, "bevel") {
            Some(LineJoin::Bevel)
        } else if str_eq(s, "miter") {
            Some(LineJoin::Miter)
        } else if str_eq(s, "round") {
            Some(LineJoin::Round)
        } else {
            None
        }
    }
}

impl JsonDecode for LineJoin {
    /// The name of a value, or an object whose one entry has the name as its key and `null`.
    open spec fn accepts(v: Json) -> bool {
        ||| (v is Str && exists|x: LineJoin| x.spec_name() == v->Str_0)
        ||| (v is Object && v->Object_0.len() == 1 && v->Object_0[0].1 is Null && exists|x: LineJoin| x.spec_name() == v->Object_0[0].0)
    }

    open spec fn decodes(v: Json, x: Self) -> bool {
        ||| v == Json::Str(x.spec_name())
        ||| (v is Object && v->Object_0.len() == 1 && v->Object_0[0] == (x.spec_name(), Json::Null))
    }

    open spec fn rejection(v: Json) -> Seq<char> {
        if v is Str {
            unknown_variant(v->Str_0) + ", expected one of `bevel`, `miter`, `round`"@
        } else if v is Object {
            let o = v->Object_0;
            if o.len() != 1 {
                "invalid value: map, expected map with a single key"@
            } else if !(exists|x: LineJoin| x.spec_name() == o[0].0) {
                unknown_variant(o[0].0) + ", expected one of `bevel`, `miter`, `round`"@
            } else {
                type_error(o[0].1, "unit"@)
            }
        } else {
            type_error(v, "string or map"@)
        }
    }

    fn decode(v: &JsonValue) -> (r: Result<Self, String>) {
        match v {
            JsonValue::String(s) => match Self::from_name(s.as_str()) {
                Some(x) => Ok(x),
                None => {
                    let mut m = make_unknown_variant(s.as_str());
                    m.append(", expected one of `bevel`, `miter`, `round`");
                    Err(m)
                },
            },
            JsonValue::Object(fields) => {
                if fields.len() != 1 {
                    return Err("invalid value: map, expected map with a single key".to_string());
                }
                proof {
                    assert(entries_model(*fields)[0] == (fields@[0].0@, fields@[0].1.model()));
                }
                match Self::from_name(fields[0].0.as_str()) {
                    Some(x) => match &fields[0].1 {
                        JsonValue::Null => Ok(x),
                        _ => Err(make_type_error(&fields[0].1, "unit")),
                    },
                    None => {
                        let mut m = make_unknown_variant(fields[0].0.as_str());
                        m.append(", expected one of `bevel`, `miter`, `round`");
                        Err(m)
                    },
                }
            },
            _ => Err(make_type_error(v, "string or map")),
        }
    }
}

impl Default for LineJoin {
    fn default() -> (r: Self)
        ensures
            r == LineJoin::Miter,
    {
        LineJoin::Miter
    }
}

/// Used to automatically convert miter joins to bevel joins for sharp angles.
#[derive(PartialEq, Debug, Clone)]
pub struct LineMiterLimit(JsonNumber);

impl View for LineMiterLimit {
    type V = Seq<char>;

    closed spec fn view(&self) -> Seq<char> {
        self.0@
    }
}

impl JsonDecode for LineMiterLimit {
    open spec fn accepts(v: Json) -> bool {
        v is Number
    }

    open spec fn decodes(v: Json, x: Self) -> bool {
        v == Json::Number(x@)
    }

    open spec fn rejection(v: Json) -> Seq<char> {
        JsonNumber::rejection(v)
    }

    fn decode(v: &JsonValue) -> (r: Result<Self, String>) {
        match JsonNumber::decode(v) {
            Ok(x) => Ok(LineMiterLimit(x)),
            Err(e) => Err(e),
        }
    }
}

impl JsonEncode for LineMiterLimit {
    open spec fn to_json(self) -> Json {
        Json::Number(self@)
    }

    open spec fn round_trips(self) -> bool {
        true
    }

    fn encode(&self) -> (r: JsonValue) {
        JsonNumber::encode(&self.0)
    }

    proof fn lemma_round_trip(self) {
        JsonNumber::lemma_round_trip(self.0);
    }
}

impl Default for LineMiterLimit {
    fn default() -> (r: Self)
        ensures
            r.to_json() == Json::Number("2"@),
    {
        let r = LineMiterLimit(JsonNumber::from_literal("2"));
        r
    }
}

/// Used to automatically convert round joins to miter joins for shallow angles.
#[derive(PartialEq, Debug, Clone)]
pub struct LineRoundLimit(JsonNumber);

impl View for LineRoundLimit {
    type V = Seq<char>;

    closed spec fn view(&self) -> Seq<char> {
        self.0@
    }
}

impl JsonDecode for LineRoundLimit {
    open spec fn accepts(v: Json) -> bool {
        v is Number
    }

    open spec fn decodes(v: Json, x: Self) -> bool {
        v == Json::Number(x@)
    }

    open spec fn rejection(v: Json) -> Seq<char> {
        JsonNumber::rejection(v)
    }

    fn decode(v: &JsonValue) -> (r: Result<Self, String>) {
        match JsonNumber::decode(v) {
            Ok(x) => Ok(LineRoundLimit(x)),
            Err(e) => Err(e),
        }
    }
}

/// Sorts features in ascending order based on this value. Features with a higher sort key will appear above features with a lower sort key.
#[derive(PartialEq, Debug, Clone)]
pub struct LineSortKey(JsonNumber);

impl View for LineSortKey {
    type V = Seq<char>;

    closed spec fn view(&self) -> Seq<char> {
        self.0@
    }
}

impl JsonDecode for LineSortKey {
    open spec fn accepts(v: Json) -> bool {
        v is Number
    }

    open spec fn decodes(v: Json, x: Self) -> bool {
        v == Json::Number(x@)
    }

    open spec fn rejection(v: Json) -> Seq<char> {
        JsonNumber::rejection(v)
    }

    fn decode(v: &JsonValue) -> (r: Result<Self, String>) {
        match JsonNumber::decode(v) {
            Ok(x) => Ok(LineSortKey(x)),
            Err(e) => Err(e),
        }
    }
}

#[derive(PartialEq, Debug, Clone)]
pub struct LayoutRaster {
    /// Whether this layer is displayed.
    pub visibility: Visibility,
}

impl JsonDecode for LayoutRaster {
    /// An object with the fields by their keys, or an array with the fields in order.
    open spec fn accepts(v: Json) -> bool {
        ||| (v is Object && {
            let o = v->Object_0;
            &&& req_field_accepts::<Visibility>(o, "visibility"@)
        })
        ||| (v is Array && {
            let a = v->Array_0;
            &&& seq_req_accepts::<Visibility>(a, 0)
            &&& a.len() <= 1
        })
    }

    open spec fn decodes(v: Json, x: Self) -> bool {
        ||| (v is Object && {
            let o = v->Object_0;
            &&& req_field_decodes::<Visibility>(o, "visibility"@, x.visibility)
        })
        ||| (v is Array && {
            let a = v->Array_0;
            &&& seq_req_decodes::<Visibility>(a, 0, x.visibility)
        })
    }

    /// For an object, the first entry in order whose value does not read as its field, else the
    /// first required field that is missing.
    open spec fn rejection(v: Json) -> Seq<char> {
        if v is Object {
            let o = v->Object_0;
            match Self::first_fault(o, 0) {
                Some(m) => m,
                None => if lookup(o, "visibility"@) is None {
                    missing_field("visibility"@)
                } else {
                    Seq::empty()
                },
            }
        } else if v is Array {
            let a = v->Array_0;
            if !seq_req_accepts::<Visibility>(a, 0) {
                seq_req_rejection::<Visibility>(a, 0, "struct LayoutRaster with 1 element"@)
            } else if a.len() > 1 {
                length_error(a.len())
            } else {
                Seq::empty()
            }
        } else {
            type_error(v, "struct LayoutRaster"@)
        }
    }

    fn decode(v: &JsonValue) -> (r: Result<Self, String>) {
        match v {
            JsonValue::Object(fields) => {
                let visibility = match decode_req_field::<Visibility>(fields, "visibility") {
                    Ok(x) => x,
                    Err(_) => return Err(Self::object_rejection(fields)),
                };
                Ok(LayoutRaster { visibility })
            },
            JsonValue::Array(a) => {
                let visibility = match decode_seq_req::<Visibility>(a, 0, "struct LayoutRaster with 1 element") {
                    Ok(x) => x,
                    Err(e) => return Err(e),
                };
                if a.len() > 1 {
                    return Err(make_length_error(a.len()));
                }
                Ok(LayoutRaster { visibility })
            },
            _ => Err(make_type_error(v, "struct LayoutRaster")),
        }
    }
}

impl LayoutRaster {
    /// What is wrong with the value `w` of an entry with key `k`, where `k` is the key of a field.
    pub open spec fn field_fault(k: Seq<char>, w: Json) -> Option<Seq<char>> {
        if k == "visibility"@ {
            if Visibility::accepts(w) {
                None
            } else {
                Some(Visibility::rejection(w))
            }
        } else {
            None
        }
    }

    /// The message of the first entry of `o`, from entry `i` on and among the first entries of
    /// their keys, whose value does not read as its field, if any.
    pub open spec fn first_fault(o: Seq<(Seq<char>, Json)>, i: int) -> Option<Seq<char>>
        decreases o.len() - i,
    {
        if i < 0 || i >= o.len() {
            None
        } else if first_with_key(o, i) && Self::field_fault(o[i].0, o[i].1) is Some {
            Self::field_fault(o[i].0, o[i].1)
        } else {
            Self::first_fault(o, i + 1)
        }
    }

    fn find_field_fault(k: &str, w: &JsonValue) -> (r: Option<String>)
        ensures
            match r {
                Some(m) => Self::field_fault(k@, w.model()) == Some(m@),
                None => Self::field_fault(k@, w.model()) is None,
            },
    {
        if str_eq(k, "visibility") {
            match Visibility::decode(w) {
                Ok(_) => None,
                Err(e) => Some(e),
            }
        } else {
            None
        }
    }

    fn object_rejection(fields: &Vec<(String, JsonValue)>) -> (r: String)
        ensures
            r@ == Self::rejection(JsonValue::Object(*fields).model()),
    {
        let ghost o = entries_model(*fields);
        let mut i: usize = 0;
        while i < fields.len()
            invariant
                o == entries_model(*fields),
                o.len() == fields.len(),
                i <= fields.len(),
                Self::first_fault(o, 0) == Self::first_fault(o, i as int),
            decreases fields.len() - i,
        {
            proof {
                assert(o[i as int] == (fields@[i as int].0@, fields@[i as int].1.model()));
            }
            if !key_seen_before(fields, i) {
                match Self::find_field_fault(fields[i].0.as_str(), &fields[i].1) {
                    Some(m) => {
                        return m;
                    },
                    None => {},
                }
            }
            i += 1;
        }
        if get_field(fields, "visibility").is_none() {
            return make_missing_field("visibility");
        }
        String::new()
    }
}

#[derive(PartialEq, Debug, Clone)]
pub struct LayoutSymbol {
    /// If true, the icon will be visible even if it collides with other previously drawn symbols.
    pub icon_allow_overlap: IconAllowOverlap,
    /// Part of the icon placed closest to the anchor.
    pub icon_anchor: IconAnchor,
    /// If true, other symbols can be visible even if they collide with the icon.
    pub icon_ignore_placement: IconIgnorePlacement,
    /// Name of image in sprite to use for drawing an image background.
    pub icon_image: IconImage,
    /// If true, the icon may be flipped to prevent it from being rendered upside-down.
    pub icon_keep_upright: IconKeepUpright,
    /// Offset distance of icon from its anchor. Positive values indicate right and down, while negative values indicate left and up. Each component is multiplied by the value of `icon-size` to obtain the final offset in pixels. When combined with `icon-rotate` the offset will be as if the rotated direction was up.
    pub icon_offset: IconOffset,
    /// If true, text will display without their corresponding icons when the icon collides with other symbols and the text does not.
    pub icon_optional: IconOptional,
    /// Allows for control over whether to show an icon when it overlaps other symbols on the map. If `icon-overlap` is not set, `icon-allow-overlap` is used instead.
    pub icon_overlap: IconOverlap,
    /// Size of additional area round the icon bounding box used for detecting symbol collisions.
    pub icon_padding: IconPadding,
    /// Orientation of icon when map is pitched.
    pub icon_pitch_alignment: IconPitchAlignment,
    /// Rotates the icon clockwise.
    pub icon_rotate: IconRotate,
    /// In combination with `symbol-placement`, determines the rotation behavior of icons.
    pub icon_rotation_alignment: IconRotationAlignment,
    /// Scales the original size of the icon by the provided factor. The new pixel size of the image will be the original pixel size multiplied by `icon-size`. 1 is the original size; 3 triples the size of the image.
    pub icon_size: IconSize,
    /// Scales the icon to fit around the associated text.
    pub icon_text_fit: IconTextFit,
    /// Size of the additional area added to dimensions determined by `icon-text-fit`, in clockwise order: top, right, bottom, left.
    pub icon_text_fit_padding: IconTextFitPadding,
    /// If true, the symbols will not cross tile edges to avoid mutual collisions. Recommended in layers that don't have enough padding in the vector tile to prevent collisions, or if it is a point symbol layer placed after a line symbol layer. When using a client that supports global collision detection, like MapLibre GL JS version 0.42.0 or greater, enabling this property is not needed to prevent clipped labels at tile boundaries.
    pub symbol_avoid_edges: SymbolAvoidEdges,
    /// Label placement relative to its geometry.
    pub symbol_placement: SymbolPlacement,
    /// Sorts features in ascending order based on this value. Features with lower sort keys are drawn and placed first.  When `icon-allow-overlap` or `text-allow-overlap` is `false`, features with a lower sort key will have priority during placement. When `icon-allow-overlap` or `text-allow-overlap` is set to `true`, features with a higher sort key will overlap over features with a lower sort key.
    pub symbol_sort_key: SymbolSortKey,
    /// Distance between two symbol anchors.
    pub symbol_spacing: SymbolSpacing,
    /// Determines whether overlapping symbols in the same layer are rendered in the order that they appear in the data source or by their y-position relative to the viewport. To control the order and prioritization of symbols otherwise, use `symbol-sort-key`.
    pub symbol_z_order: SymbolZOrder,
    /// If true, the text will be visible even if it collides with other previously drawn symbols.
    pub text_allow_overlap: TextAllowOverlap,
    /// Part of the text placed closest to the anchor.
    pub text_anchor: TextAnchor,
    /// Value to use for a text label. If a plain `string` is provided, it will be treated as a `formatted` with default/inherited formatting options.
    pub text_field: TextField,
    /// Fonts to use for displaying text. If the `glyphs` root property is specified, this array is joined together and interpreted as a font stack name. Otherwise, it is interpreted as a cascading fallback list of local font names.
    pub text_font: TextFont,
    /// If true, other symbols can be visible even if they collide with the text.
    pub text_ignore_placement: TextIgnorePlacement,
    /// Text justification options.
    pub text_justify: TextJustify,
    /// If true, the text may be flipped vertically to prevent it from being rendered upside-down.
    pub text_keep_upright: TextKeepUpright,
    /// Text tracking amount.
    pub text_letter_spacing: TextLetterSpacing,
    /// Text leading value for multi-line text.
    pub text_line_height: TextLineHeight,
    /// Maximum angle change between adjacent characters.
    pub text_max_angle: TextMaxAngle,
    /// The maximum line width for text wrapping.
    pub text_max_width: TextMaxWidth,
    /// Offset distance of text from its anchor. Positive values indicate right and down, while negative values indicate left and up. If used with text-variable-anchor, input values will be taken as absolute values. Offsets along the x- and y-axis will be applied automatically based on the anchor position.
    pub text_offset: TextOffset,
    /// If true, icons will display without their corresponding text when the text collides with other symbols and the icon does not.
    pub text_optional: TextOptional,
    /// Allows for control over whether to show symbol text when it overlaps other symbols on the map. If `text-overlap` is not set, `text-allow-overlap` is used instead
    pub text_overlap: TextOverlap,
    /// Size of the additional area around the text bounding box used for detecting symbol collisions.
    pub text_padding: TextPadding,
    /// Orientation of text when map is pitched.
    pub text_pitch_alignment: TextPitchAlignment,
    /// Radial offset of text, in the direction of the symbol's anchor. Useful in combination with `text-variable-anchor`, which defaults to using the two-dimensional `text-offset` if present.
    pub text_radial_offset: TextRadialOffset,
    /// Rotates the text clockwise.
    pub text_rotate: TextRotate,
    /// In combination with `symbol-placement`, determines the rotation behavior of the individual glyphs forming the text.
    pub text_rotation_alignment: TextRotationAlignment,
    /// Font size.
    pub text_size: TextSize,
    /// Specifies how to capitalize text, similar to the CSS `text-transform` property.
    pub text_transform: TextTransform,
    /// To increase the chance of placing high-priority labels on the map, you can provide an array of `text-anchor` locations: the renderer will attempt to place the label at each location, in order, before moving onto the next label. Use `text-justify: auto` to choose justification based on anchor position. To apply an offset, use the `text-radial-offset` or the two-dimensional `text-offset`.
    pub text_variable_anchor: TextVariableAnchor,
    /// To increase the chance of placing high-priority labels on the map, you can provide an array of `text-anchor` locations, each paired with an offset value. The renderer will attempt to place the label at each location, in order, before moving on to the next location+offset. Use `text-justify: auto` to choose justification based on anchor position.
    ///
    ///  The length of the array must be even, and must alternate between enum and point entries. i.e., each anchor location must be accompanied by a point, and that point defines the offset when the corresponding anchor location is used. Positive offset values indicate right and down, while negative values indicate left and up. Anchor locations may repeat, allowing the renderer to try multiple offsets to try and place a label using the same anchor.
    ///
    ///  When present, this property takes precedence over `text-anchor`, `text-variable-anchor`, `text-offset`, and `text-radial-offset`.
    ///
    ///  ```json
    ///
    ///  { "text-variable-anchor-offset": ["top", [0, 4], "left", [3,0], "bottom", [1, 1]] }
    ///
    ///  ```
    ///
    ///  When the renderer chooses the `top` anchor, `[0, 4]` will be used for `text-offset`; the text will be shifted down by 4 ems.
    ///
    ///  When the renderer chooses the `left` anchor, `[3, 0]` will be used for `text-offset`; the text will be shifted right by 3 ems.
    pub text_variable_anchor_offset: TextVariableAnchorOffset,
    /// The property allows control over a symbol's orientation. Note that the property values act as a hint, so that a symbol whose language doesn’t support the provided orientation will be laid out in its natural orientation. Example: English point symbol will be rendered horizontally even if array value contains single 'vertical' enum value. The order of elements in an array define priority order for the placement of an orientation variant.
    pub text_writing_mode: TextWritingMode,
    /// Whether this layer is displayed.
    pub visibility: Visibility,
}

impl JsonDecode for LayoutSymbol {
    /// An object with the fields by their keys, or an array with the fields in order.
    open spec fn accepts(v: Json) -> bool {
        ||| (v is Object && {
            let o = v->Object_0;
            &&& req_field_accepts::<IconAllowOverlap>(o, "icon-allow-overlap"@)
            &&& req_field_accepts::<IconAnchor>(o, "icon-anchor"@)
            &&& req_field_accepts::<IconIgnorePlacement>(o, "icon-ignore-placement"@)
            &&& req_field_accepts::<IconImage>(o, "icon-image"@)
            &&& req_field_accepts::<IconKeepUpright>(o, "icon-keep-upright"@)
            &&& req_field_accepts::<IconOffset>(o, "icon-offset"@)
            &&& req_field_accepts::<IconOptional>(o, "icon-optional"@)
            &&& req_field_accepts::<IconOverlap>(o, "icon-overlap"@)
            &&& req_field_accepts::<IconPadding>(o, "icon-padding"@)
            &&& req_field_accepts::<IconPitchAlignment>(o, "icon-pitch-alignment"@)
            &&& req_field_accepts::<IconRotate>(o, "icon-rotate"@)
            &&& req_field_accepts::<IconRotationAlignment>(o, "icon-rotation-alignment"@)
            &&& req_field_accepts::<IconSize>(o, "icon-size"@)
            &&& req_field_accepts::<IconTextFit>(o, "icon-text-fit"@)
            &&& req_field_accepts::<IconTextFitPadding>(o, "icon-text-fit-padding"@)
            &&& req_field_accepts::<SymbolAvoidEdges>(o, "symbol-avoid-edges"@)
            &&& req_field_accepts::<SymbolPlacement>(o, "symbol-placement"@)
            &&& req_field_accepts::<SymbolSortKey>(o, "symbol-sort-key"@)
            &&& req_field_accepts::<SymbolSpacing>(o, "symbol-spacing"@)
            &&& req_field_accepts::<SymbolZOrder>(o, "symbol-z-order"@)
            &&& req_field_accepts::<TextAllowOverlap>(o, "text-allow-overlap"@)
            &&& req_field_accepts::<TextAnchor>(o, "text-anchor"@)
            &&& req_field_accepts::<TextField>(o, "text-field"@)
            &&& req_field_accepts::<TextFont>(o, "text-font"@)
            &&& req_field_accepts::<TextIgnorePlacement>(o, "text-ignore-placement"@)
            &&& req_field_accepts::<TextJustify>(o, "text-justify"@)
            &&& req_field_accepts::<TextKeepUpright>(o, "text-keep-upright"@)
            &&& req_field_accepts::<TextLetterSpacing>(o, "text-letter-spacing"@)
            &&& req_field_accepts::<TextLineHeight>(o, "text-line-height"@)
            &&& req_field_accepts::<TextMaxAngle>(o, "text-max-angle"@)
            &&& req_field_accepts::<TextMaxWidth>(o, "text-max-width"@)
            &&& req_field_accepts::<TextOffset>(o, "text-offset"@)
            &&& req_field_accepts::<TextOptional>(o, "text-optional"@)
            &&& req_field_accepts::<TextOverlap>(o, "text-overlap"@)
            &&& req_field_accepts::<TextPadding>(o, "text-padding"@)
            &&& req_field_accepts::<TextPitchAlignment>(o, "text-pitch-alignment"@)
            &&& req_field_accepts::<TextRadialOffset>(o, "text-radial-offset"@)
            &&& req_field_accepts::<TextRotate>(o, "text-rotate"@)
            &&& req_field_accepts::<TextRotationAlignment>(o, "text-rotation-alignment"@)
            &&& req_field_accepts::<TextSize>(o, "text-size"@)
            &&& req_field_accepts::<TextTransform>(o, "text-transform"@)
            &&& req_field_accepts::<TextVariableAnchor>(o, "text-variable-anchor"@)
            &&& req_field_accepts::<TextVariableAnchorOffset>(o, "text-variable-anchor-offset"@)
            &&& req_field_accepts::<TextWritingMode>(o, "text-writing-mode"@)
            &&& req_field_accepts::<Visibility>(o, "visibility"@)
        })
        ||| (v is Array && {
            let a = v->Array_0;
            &&& seq_req_accepts::<IconAllowOverlap>(a, 0)
            &&& seq_req_accepts::<IconAnchor>(a, 1)
            &&& seq_req_accepts::<IconIgnorePlacement>(a, 2)
            &&& seq_req_accepts::<IconImage>(a, 3)
            &&& seq_req_accepts::<IconKeepUpright>(a, 4)
            &&& seq_req_accepts::<IconOffset>(a, 5)
            &&& seq_req_accepts::<IconOptional>(a, 6)
            &&& seq_req_accepts::<IconOverlap>(a, 7)
            &&& seq_req_accepts::<IconPadding>(a, 8)
            &&& seq_req_accepts::<IconPitchAlignment>(a, 9)
            &&& seq_req_accepts::<IconRotate>(a, 10)
            &&& seq_req_accepts::<IconRotationAlignment>(a, 11)
            &&& seq_req_accepts::<IconSize>(a, 12)
            &&& seq_req_accepts::<IconTextFit>(a, 13)
            &&& seq_req_accepts::<IconTextFitPadding>(a, 14)
            &&& seq_req_accepts::<SymbolAvoidEdges>(a, 15)
            &&& seq_req_accepts::<SymbolPlacement>(a, 16)
            &&& seq_req_accepts::<SymbolSortKey>(a, 17)
            &&& seq_req_accepts::<SymbolSpacing>(a, 18)
            &&& seq_req_accepts::<SymbolZOrder>(a, 19)
            &&& seq_req_accepts::<TextAllowOverlap>(a, 20)
            &&& seq_req_accepts::<TextAnchor>(a, 21)
            &&& seq_req_accepts::<TextField>(a, 22)
            &&& seq_req_accepts::<TextFont>(a, 23)
            &&& seq_req_accepts::<TextIgnorePlacement>(a, 24)
            &&& seq_req_accepts::<TextJustify>(a, 25)
            &&& seq_req_accepts::<TextKeepUpright>(a, 26)
            &&& seq_req_accepts::<TextLetterSpacing>(a, 27)
            &&& seq_req_accepts::<TextLineHeight>(a, 28)
            &&& seq_req_accepts::<TextMaxAngle>(a, 29)
            &&& seq_req_accepts::<TextMaxWidth>(a, 30)
            &&& seq_req_accepts::<TextOffset>(a, 31)
            &&& seq_req_accepts::<TextOptional>(a, 32)
            &&& seq_req_accepts::<TextOverlap>(a, 33)
            &&& seq_req_accepts::<TextPadding>(a, 34)
            &&& seq_req_accepts::<TextPitchAlignment>(a, 35)
            &&& seq_req_accepts::<TextRadialOffset>(a, 36)
            &&& seq_req_accepts::<TextRotate>(a, 37)
            &&& seq_req_accepts::<TextRotationAlignment>(a, 38)
            &&& seq_req_accepts::<TextSize>(a, 39)
            &&& seq_req_accepts::<TextTransform>(a, 40)
            &&& seq_req_accepts::<TextVariableAnchor>(a, 41)
            &&& seq_req_accepts::<TextVariableAnchorOffset>(a, 42)
            &&& seq_req_accepts::<TextWritingMode>(a, 43)
            &&& seq_req_accepts::<Visibility>(a, 44)
            &&& a.len() <= 45
        })
    }

    open spec fn decodes(v: Json, x: Self) -> bool {
        ||| (v is Object && {
            let o = v->Object_0;
            &&& req_field_decodes::<IconAllowOverlap>(o, "icon-allow-overlap"@, x.icon_allow_overlap)
            &&& req_field_decodes::<IconAnchor>(o, "icon-anchor"@, x.icon_anchor)
            &&& req_field_decodes::<IconIgnorePlacement>(o, "icon-ignore-placement"@, x.icon_ignore_placement)
            &&& req_field_decodes::<IconImage>(o, "icon-image"@, x.icon_image)
            &&& req_field_decodes::<IconKeepUpright>(o, "icon-keep-upright"@, x.icon_keep_upright)
            &&& req_field_decodes::<IconOffset>(o, "icon-offset"@, x.icon_offset)
            &&& req_field_decodes::<IconOptional>(o, "icon-optional"@, x.icon_optional)
            &&& req_field_decodes::<IconOverlap>(o, "icon-overlap"@, x.icon_overlap)
            &&& req_field_decodes::<IconPadding>(o, "icon-padding"@, x.icon_padding)
            &&& req_field_decodes::<IconPitchAlignment>(o, "icon-pitch-alignment"@, x.icon_pitch_alignment)
            &&& req_field_decodes::<IconRotate>(o, "icon-rotate"@, x.icon_rotate)
            &&& req_field_decodes::<IconRotationAlignment>(o, "icon-rotation-alignment"@, x.icon_rotation_alignment)
            &&& req_field_decodes::<IconSize>(o, "icon-size"@, x.icon_size)
            &&& req_field_decodes::<IconTextFit>(o, "icon-text-fit"@, x.icon_text_fit)
            &&& req_field_decodes::<IconTextFitPadding>(o, "icon-text-fit-padding"@, x.icon_text_fit_padding)
            &&& req_field_decodes::<SymbolAvoidEdges>(o, "symbol-avoid-edges"@, x.symbol_avoid_edges)
            &&& req_field_decodes::<SymbolPlacement>(o, "symbol-placement"@, x.symbol_placement)
            &&& req_field_decodes::<SymbolSortKey>(o, "symbol-sort-key"@, x.symbol_sort_key)
            &&& req_field_decodes::<SymbolSpacing>(o, "symbol-spacing"@, x.symbol_spacing)
            &&& req_field_decodes::<SymbolZOrder>(o, "symbol-z-order"@, x.symbol_z_order)
            &&& req_field_decodes::<TextAllowOverlap>(o, "text-allow-overlap"@, x.text_allow_overlap)
            &&& req_field_decodes::<TextAnchor>(o, "text-anchor"@, x.text_anchor)
            &&& req_field_decodes::<TextField>(o, "text-field"@, x.text_field)
            &&& req_field_decodes::<TextFont>(o, "text-font"@, x.text_font)
            &&& req_field_decodes::<TextIgnorePlacement>(o, "text-ignore-placement"@, x.text_ignore_placement)
            &&& req_field_decodes::<TextJustify>(o, "text-justify"@, x.text_justify)
            &&& req_field_decodes::<TextKeepUpright>(o, "text-keep-upright"@, x.text_keep_upright)
            &&& req_field_decodes::<TextLetterSpacing>(o, "text-letter-spacing"@, x.text_letter_spacing)
            &&& req_field_decodes::<TextLineHeight>(o, "text-line-height"@, x.text_line_height)
            &&& req_field_decodes::<TextMaxAngle>(o, "text-max-angle"@, x.text_max_angle)
            &&& req_field_decodes::<TextMaxWidth>(o, "text-max-width"@, x.text_max_width)
            &&& req_field_decodes::<TextOffset>(o, "text-offset"@, x.text_offset)
            &&& req_field_decodes::<TextOptional>(o, "text-optional"@, x.text_optional)
            &&& req_field_decodes::<TextOverlap>(o, "text-overlap"@, x.text_overlap)
            &&& req_field_decodes::<TextPadding>(o, "text-padding"@, x.text_padding)
            &&& req_field_decodes::<TextPitchAlignment>(o, "text-pitch-alignment"@, x.text_pitch_alignment)
            &&& req_field_decodes::<TextRadialOffset>(o, "text-radial-offset"@, x.text_radial_offset)
            &&& req_field_decodes::<TextRotate>(o, "text-rotate"@, x.text_rotate)
            &&& req_field_decodes::<TextRotationAlignment>(o, "text-rotation-alignment"@, x.text_rotation_alignment)
            &&& req_field_decodes::<TextSize>(o, "text-size"@, x.text_size)
            &&& req_field_decodes::<TextTransform>(o, "text-transform"@, x.text_transform)
            &&& req_field_decodes::<TextVariableAnchor>(o, "text-variable-anchor"@, x.text_variable_anchor)
            &&& req_field_decodes::<TextVariableAnchorOffset>(o, "text-variable-anchor-offset"@, x.text_variable_anchor_offset)
            &&& req_field_decodes::<TextWritingMode>(o, "text-writing-mode"@, x.text_writing_mode)
            &&& req_field_decodes::<Visibility>(o, "visibility"@, x.visibility)
        })
        ||| (v is Array && {
            let a = v->Array_0;
            &&& seq_req_decodes::<IconAllowOverlap>(a, 0, x.icon_allow_overlap)
            &&& seq_req_decodes::<IconAnchor>(a, 1, x.icon_anchor)
            &&& seq_req_decodes::<IconIgnorePlacement>(a, 2, x.icon_ignore_placement)
            &&& seq_req_decodes::<IconImage>(a, 3, x.icon_image)
            &&& seq_req_decodes::<IconKeepUpright>(a, 4, x.icon_keep_upright)
            &&& seq_req_decodes::<IconOffset>(a, 5, x.icon_offset)
            &&& seq_req_decodes::<IconOptional>(a, 6, x.icon_optional)
            &&& seq_req_decodes::<IconOverlap>(a, 7, x.icon_overlap)
            &&& seq_req_decodes::<IconPadding>(a, 8, x.icon_padding)
            &&& seq_req_decodes::<IconPitchAlignment>(a, 9, x.icon_pitch_alignment)
            &&& seq_req_decodes::<IconRotate>(a, 10, x.icon_rotate)
            &&& seq_req_decodes::<IconRotationAlignment>(a, 11, x.icon_rotation_alignment)
            &&& seq_req_decodes::<IconSize>(a, 12, x.icon_size)
            &&& seq_req_decodes::<IconTextFit>(a, 13, x.icon_text_fit)
            &&& seq_req_decodes::<IconTextFitPadding>(a, 14, x.icon_text_fit_padding)
            &&& seq_req_decodes::<SymbolAvoidEdges>(a, 15, x.symbol_avoid_edges)
            &&& seq_req_decodes::<SymbolPlacement>(a, 16, x.symbol_placement)
            &&& seq_req_decodes::<SymbolSortKey>(a, 17, x.symbol_sort_key)
            &&& seq_req_decodes::<SymbolSpacing>(a, 18, x.symbol_spacing)
            &&& seq_req_decodes::<SymbolZOrder>(a, 19, x.symbol_z_order)
            &&& seq_req_decodes::<TextAllowOverlap>(a, 20, x.text_allow_overlap)
            &&& seq_req_decodes::<TextAnchor>(a, 21, x.text_anchor)
            &&& seq_req_decodes::<TextField>(a, 22, x.text_field)
            &&& seq_req_decodes::<TextFont>(a, 23, x.text_font)
            &&& seq_req_decodes::<TextIgnorePlacement>(a, 24, x.text_ignore_placement)
            &&& seq_req_decodes::<TextJustify>(a, 25, x.text_justify)
            &&& seq_req_decodes::<TextKeepUpright>(a, 26, x.text_keep_upright)
            &&& seq_req_decodes::<TextLetterSpacing>(a, 27, x.text_letter_spacing)
            &&& seq_req_decodes::<TextLineHeight>(a, 28, x.text_line_height)
            &&& seq_req_decodes::<TextMaxAngle>(a, 29, x.text_max_angle)
            &&& seq_req_decodes::<TextMaxWidth>(a, 30, x.text_max_width)
            &&& seq_req_decodes::<TextOffset>(a, 31, x.text_offset)
            &&& seq_req_decodes::<TextOptional>(a, 32, x.text_optional)
            &&& seq_req_decodes::<TextOverlap>(a, 33, x.text_overlap)
            &&& seq_req_decodes::<TextPadding>(a, 34, x.text_padding)
            &&& seq_req_decodes::<TextPitchAlignment>(a, 35, x.text_pitch_alignment)
            &&& seq_req_decodes::<TextRadialOffset>(a, 36, x.text_radial_offset)
            &&& seq_req_decodes::<TextRotate>(a, 37, x.text_rotate)
            &&& seq_req_decodes::<TextRotationAlignment>(a, 38, x.text_rotation_alignment)
            &&& seq_req_decodes::<TextSize>(a, 39, x.text_size)
            &&& seq_req_decodes::<TextTransform>(a, 40, x.text_transform)
            &&& seq_req_decodes::<TextVariableAnchor>(a, 41, x.text_variable_anchor)
            &&& seq_req_decodes::<TextVariableAnchorOffset>(a, 42, x.text_variable_anchor_offset)
            &&& seq_req_decodes::<TextWritingMode>(a, 43, x.text_writing_mode)
            &&& seq_req_decodes::<Visibility>(a, 44, x.visibility)
        })
    }

    /// For an object, the first entry in order whose value does not read as its field, else the
    /// first required field that is missing.
    open spec fn rejection(v: Json) -> Seq<char> {
        if v is Object {
            let o = v->Object_0;
            match Self::first_fault(o, 0) {
                Some(m) => m,
                None => if lookup(o, "icon-allow-overlap"@) is None {
                    missing_field("icon-allow-overlap"@)
                } else if lookup(o, "icon-anchor"@) is None {
                    missing_field("icon-anchor"@)
                } else if lookup(o, "icon-ignore-placement"@) is None {
                    missing_field("icon-ignore-placement"@)
                } else if lookup(o, "icon-image"@) is None {
                    missing_field("icon-image"@)
                } else if lookup(o, "icon-keep-upright"@) is None {
                    missing_field("icon-keep-upright"@)
                } else if lookup(o, "icon-offset"@) is None {
                    missing_field("icon-offset"@)
                } else if lookup(o, "icon-optional"@) is None {
                    missing_field("icon-optional"@)
                } else if lookup(o, "icon-overlap"@) is None {
                    missing_field("icon-overlap"@)
                } else if lookup(o, "icon-padding"@) is None {
                    missing_field("icon-padding"@)
                } else if lookup(o, "icon-pitch-alignment"@) is None {
                    missing_field("icon-pitch-alignment"@)
                } else if lookup(o, "icon-rotate"@) is None {
                    missing_field("icon-rotate"@)
                } else if lookup(o, "icon-rotation-alignment"@) is None {
                    missing_field("icon-rotation-alignment"@)
                } else if lookup(o, "icon-size"@) is None {
                    missing_field("icon-size"@)
                } else if lookup(o, "icon-text-fit"@) is None {
                    missing_field("icon-text-fit"@)
                } else if lookup(o, "icon-text-fit-padding"@) is None {
                    missing_field("icon-text-fit-padding"@)
                } else if lookup(o, "symbol-avoid-edges"@) is None {
                    missing_field("symbol-avoid-edges"@)
                } else if lookup(o, "symbol-placement"@) is None {
                    missing_field("symbol-placement"@)
                } else if lookup(o, "symbol-sort-key"@) is None {
                    missing_field("symbol-sort-key"@)
                } else if lookup(o, "symbol-spacing"@) is None {
                    missing_field("symbol-spacing"@)
                } else if lookup(o, "symbol-z-order"@) is None {
                    missing_field("symbol-z-order"@)
                } else if lookup(o, "text-allow-overlap"@) is None {
                    missing_field("text-allow-overlap"@)
                } else if lookup(o, "text-anchor"@) is None {
                    missing_field("text-anchor"@)
                } else if lookup(o, "text-field"@) is None {
                    missing_field("text-field"@)
                } else if lookup(o, "text-font"@) is None {
                    missing_field("text-font"@)
                } else if lookup(o, "text-ignore-placement"@) is None {
                    missing_field("text-ignore-placement"@)
                } else if lookup(o, "text-justify"@) is None {
                    missing_field("text-justify"@)
                } else if lookup(o, "text-keep-upright"@) is None {
                    missing_field("text-keep-upright"@)
                } else if lookup(o, "text-letter-spacing"@) is None {
                    missing_field("text-letter-spacing"@)
                } else if lookup(o, "text-line-height"@) is None {
                    missing_field("text-line-height"@)
                } else if lookup(o, "text-max-angle"@) is None {
                    missing_field("text-max-angle"@)
                } else if lookup(o, "text-max-width"@) is None {
                    missing_field("text-max-width"@)
                } else if lookup(o, "text-offset"@) is None {
                    missing_field("text-offset"@)
                } else if lookup(o, "text-optional"@) is None {
                    missing_field("text-optional"@)
                } else if lookup(o, "text-overlap"@) is None {
                    missing_field("text-overlap"@)
                } else if lookup(o, "text-padding"@) is None {
                    missing_field("text-padding"@)
                } else if lookup(o, "text-pitch-alignment"@) is None {
                    missing_field("text-pitch-alignment"@)
                } else if lookup(o, "text-radial-offset"@) is None {
                    missing_field("text-radial-offset"@)
                } else if lookup(o, "text-rotate"@) is None {
                    missing_field("text-rotate"@)
                } else if lookup(o, "text-rotation-alignment"@) is None {
                    missing_field("text-rotation-alignment"@)
                } else if lookup(o, "text-size"@) is None {
                    missing_field("text-size"@)
                } else if lookup(o, "text-transform"@) is None {
                    missing_field("text-transform"@)
                } else if lookup(o, "text-variable-anchor"@) is None {
                    missing_field("text-variable-anchor"@)
                } else if lookup(o, "text-variable-anchor-offset"@) is None {
                    missing_field("text-variable-anchor-offset"@)
                } else if lookup(o, "text-writing-mode"@) is None {
                    missing_field("text-writing-mode"@)
                } else if lookup(o, "visibility"@) is None {
                    missing_field("visibility"@)
                } else {
                    Seq::empty()
                },
            }
        } else if v is Array {
            let a = v->Array_0;
            if !seq_req_accepts::<IconAllowOverlap>(a, 0) {
                seq_req_rejection::<IconAllowOverlap>(a, 0, "struct LayoutSymbol with 45 elements"@)
            } else if !seq_req_accepts::<IconAnchor>(a, 1) {
                seq_req_rejection::<IconAnchor>(a, 1, "struct LayoutSymbol with 45 elements"@)
            } else if !seq_req_accepts::<IconIgnorePlacement>(a, 2) {
                seq_req_rejection::<IconIgnorePlacement>(a, 2, "struct LayoutSymbol with 45 elements"@)
            } else if !seq_req_accepts::<IconImage>(a, 3) {
                seq_req_rejection::<IconImage>(a, 3, "struct LayoutSymbol with 45 elements"@)
            } else if !seq_req_accepts::<IconKeepUpright>(a, 4) {
                seq_req_rejection::<IconKeepUpright>(a, 4, "struct LayoutSymbol with 45 elements"@)
            } else if !seq_req_accepts::<IconOffset>(a, 5) {
                seq_req_rejection::<IconOffset>(a, 5, "struct LayoutSymbol with 45 elements"@)
            } else if !seq_req_accepts::<IconOptional>(a, 6) {
                seq_req_rejection::<IconOptional>(a, 6, "struct LayoutSymbol with 45 elements"@)
            } else if !seq_req_accepts::<IconOverlap>(a, 7) {
                seq_req_rejection::<IconOverlap>(a, 7, "struct LayoutSymbol with 45 elements"@)
            } else if !seq_req_accepts::<IconPadding>(a, 8) {
                seq_req_rejection::<IconPadding>(a, 8, "struct LayoutSymbol with 45 elements"@)
            } else if !seq_req_accepts::<IconPitchAlignment>(a, 9) {
                seq_req_rejection::<IconPitchAlignment>(a, 9, "struct LayoutSymbol with 45 elements"@)
            } else if !seq_req_accepts::<IconRotate>(a, 10) {
                seq_req_rejection::<IconRotate>(a, 10, "struct LayoutSymbol with 45 elements"@)
            } else if !seq_req_accepts::<IconRotationAlignment>(a, 11) {
                seq_req_rejection::<IconRotationAlignment>(a, 11, "struct LayoutSymbol with 45 elements"@)
            } else if !seq_req_accepts::<IconSize>(a, 12) {
                seq_req_rejection::<IconSize>(a, 12, "struct LayoutSymbol with 45 elements"@)
            } else if !seq_req_accepts::<IconTextFit>(a, 13) {
                seq_req_rejection::<IconTextFit>(a, 13, "struct LayoutSymbol with 45 elements"@)
            } else if !seq_req_accepts::<IconTextFitPadding>(a, 14) {
                seq_req_rejection::<IconTextFitPadding>(a, 14, "struct LayoutSymbol with 45 elements"@)
            } else if !seq_req_accepts::<SymbolAvoidEdges>(a, 15) {
                seq_req_rejection::<SymbolAvoidEdges>(a, 15, "struct LayoutSymbol with 45 elements"@)
            } else if !seq_req_accepts::<SymbolPlacement>(a, 16) {
                seq_req_rejection::<SymbolPlacement>(a, 16, "struct LayoutSymbol with 45 elements"@)
            } else if !seq_req_accepts::<SymbolSortKey>(a, 17) {
                seq_req_rejection::<SymbolSortKey>(a, 17, "struct LayoutSymbol with 45 elements"@)
            } else if !seq_req_accepts::<SymbolSpacing>(a, 18) {
                seq_req_rejection::<SymbolSpacing>(a, 18, "struct LayoutSymbol with 45 elements"@)
            } else if !seq_req_accepts::<SymbolZOrder>(a, 19) {
                seq_req_rejection::<SymbolZOrder>(a, 19, "struct LayoutSymbol with 45 elements"@)
            } else if !seq_req_accepts::<TextAllowOverlap>(a, 20) {
                seq_req_rejection::<TextAllowOverlap>(a, 20, "struct LayoutSymbol with 45 elements"@)
            } else if !seq_req_accepts::<TextAnchor>(a, 21) {
                seq_req_rejection::<TextAnchor>(a, 21, "struct LayoutSymbol with 45 elements"@)
            } else if !seq_req_accepts::<TextField>(a, 22) {
                seq_req_rejection::<TextField>(a, 22, "struct LayoutSymbol with 45 elements"@)
            } else if !seq_req_accepts::<TextFont>(a, 23) {
                seq_req_rejection::<TextFont>(a, 23, "struct LayoutSymbol with 45 elements"@)
            } else if !seq_req_accepts::<TextIgnorePlacement>(a, 24) {
                seq_req_rejection::<TextIgnorePlacement>(a, 24, "struct LayoutSymbol with 45 elements"@)
            } else if !seq_req_accepts::<TextJustify>(a, 25) {
                seq_req_rejection::<TextJustify>(a, 25, "struct LayoutSymbol with 45 elements"@)
            } else if !seq_req_accepts::<TextKeepUpright>(a, 26) {
                seq_req_rejection::<TextKeepUpright>(a, 26, "struct LayoutSymbol with 45 elements"@)
            } else if !seq_req_accepts::<TextLetterSpacing>(a, 27) {
                seq_req_rejection::<TextLetterSpacing>(a, 27, "struct LayoutSymbol with 45 elements"@)
            } else if !seq_req_accepts::<TextLineHeight>(a, 28) {
                seq_req_rejection::<TextLineHeight>(a, 28, "struct LayoutSymbol with 45 elements"@)
            } else if !seq_req_accepts::<TextMaxAngle>(a, 29) {
                seq_req_rejection::<TextMaxAngle>(a, 29, "struct LayoutSymbol with 45 elements"@)
            } else if !seq_req_accepts::<TextMaxWidth>(a, 30) {
                seq_req_rejection::<TextMaxWidth>(a, 30, "struct LayoutSymbol with 45 elements"@)
            } else if !seq_req_accepts::<TextOffset>(a, 31) {
                seq_req_rejection::<TextOffset>(a, 31, "struct LayoutSymbol with 45 elements"@)
            } else if !seq_req_accepts::<TextOptional>(a, 32) {
                seq_req_rejection::<TextOptional>(a, 32, "struct LayoutSymbol with 45 elements"@)
            } else if !seq_req_accepts::<TextOverlap>(a, 33) {
                seq_req_rejection::<TextOverlap>(a, 33, "struct LayoutSymbol with 45 elements"@)
            } else if !seq_req_accepts::<TextPadding>(a, 34) {
                seq_req_rejection::<TextPadding>(a, 34, "struct LayoutSymbol with 45 elements"@)
            } else if !seq_req_accepts::<TextPitchAlignment>(a, 35) {
                seq_req_rejection::<TextPitchAlignment>(a, 35, "struct LayoutSymbol with 45 elements"@)
            } else if !seq_req_accepts::<TextRadialOffset>(a, 36) {
                seq_req_rejection::<TextRadialOffset>(a, 36, "struct LayoutSymbol with 45 elements"@)
            } else if !seq_req_accepts::<TextRotate>(a, 37) {
                seq_req_rejection::<TextRotate>(a, 37, "struct LayoutSymbol with 45 elements"@)
            } else if !seq_req_accepts::<TextRotationAlignment>(a, 38) {
                seq_req_rejection::<TextRotationAlignment>(a, 38, "struct LayoutSymbol with 45 elements"@)
            } else if !seq_req_accepts::<TextSize>(a, 39) {
                seq_req_rejection::<TextSize>(a, 39, "struct LayoutSymbol with 45 elements"@)
            } else if !seq_req_accepts::<TextTransform>(a, 40) {
                seq_req_rejection::<TextTransform>(a, 40, "struct LayoutSymbol with 45 elements"@)
            } else if !seq_req_accepts::<TextVariableAnchor>(a, 41) {
                seq_req_rejection::<TextVariableAnchor>(a, 41, "struct LayoutSymbol with 45 elements"@)
            } else if !seq_req_accepts::<TextVariableAnchorOffset>(a, 42) {
                seq_req_rejection::<TextVariableAnchorOffset>(a, 42, "struct LayoutSymbol with 45 elements"@)
            } else if !seq_req_accepts::<TextWritingMode>(a, 43) {
                seq_req_rejection::<TextWritingMode>(a, 43, "struct LayoutSymbol with 45 elements"@)
            } else if !seq_req_accepts::<Visibility>(a, 44) {
                seq_req_rejection::<Visibility>(a, 44, "struct LayoutSymbol with 45 elements"@)
            } else if a.len() > 45 {
                length_error(a.len())
            } else {
                Seq::empty()
            }
        } else {
            type_error(v, "struct LayoutSymbol"@)
        }
    }

    fn decode(v: &JsonValue) -> (r: Result<Self, String>) {
        match v {
            JsonValue::Object(fields) => {
                let icon_allow_overlap = match decode_req_field::<IconAllowOverlap>(fields, "icon-allow-overlap") {
                    Ok(x) => x,
                    Err(_) => return Err(Self::object_rejection(fields)),
                };
                let icon_anchor = match decode_req_field::<IconAnchor>(fields, "icon-anchor") {
                    Ok(x) => x,
                    Err(_) => return Err(Self::object_rejection(fields)),
                };
                let icon_ignore_placement = match decode_req_field::<IconIgnorePlacement>(fields, "icon-ignore-placement") {
                    Ok(x) => x,
                    Err(_) => return Err(Self::object_rejection(fields)),
                };
                let icon_image = match decode_req_field::<IconImage>(fields, "icon-image") {
                    Ok(x) => x,
                    Err(_) => return Err(Self::object_rejection(fields)),
                };
                let icon_keep_upright = match decode_req_field::<IconKeepUpright>(fields, "icon-keep-upright") {
                    Ok(x) => x,
                    Err(_) => return Err(Self::object_rejection(fields)),
                };
                let icon_offset = match decode_req_field::<IconOffset>(fields, "icon-offset") {
                    Ok(x) => x,
                    Err(_) => return Err(Self::object_rejection(fields)),
                };
                let icon_optional = match decode_req_field::<IconOptional>(fields, "icon-optional") {
                    Ok(x) => x,
                    Err(_) => return Err(Self::object_rejection(fields)),
                };
                let icon_overlap = match decode_req_field::<IconOverlap>(fields, "icon-overlap") {
                    Ok(x) => x,
                    Err(_) => return Err(Self::object_rejection(fields)),
                };
                let icon_padding = match decode_req_field::<IconPadding>(fields, "icon-padding") {
                    Ok(x) => x,
                    Err(_) => return Err(Self::object_rejection(fields)),
                };
                let icon_pitch_alignment = match decode_req_field::<IconPitchAlignment>(fields, "icon-pitch-alignment") {
                    Ok(x) => x,
                    Err(_) => return Err(Self::object_rejection(fields)),
                };
                let icon_rotate = match decode_req_field::<IconRotate>(fields, "icon-rotate") {
                    Ok(x) => x,
                    Err(_) => return Err(Self::object_rejection(fields)),
                };
                let icon_rotation_alignment = match decode_req_field::<IconRotationAlignment>(fields, "icon-rotation-alignment") {
                    Ok(x) => x,
                    Err(_) => return Err(Self::object_rejection(fields)),
                };
                let icon_size = match decode_req_field::<IconSize>(fields, "icon-size") {
                    Ok(x) => x,
                    Err(_) => return Err(Self::object_rejection(fields)),
                };
                let icon_text_fit = match decode_req_field::<IconTextFit>(fields, "icon-text-fit") {
                    Ok(x) => x,
                    Err(_) => return Err(Self::object_rejection(fields)),
                };
                let icon_text_fit_padding = match decode_req_field::<IconTextFitPadding>(fields, "icon-text-fit-padding") {
                    Ok(x) => x,
                    Err(_) => return Err(Self::object_rejection(fields)),
                };
                let symbol_avoid_edges = match decode_req_field::<SymbolAvoidEdges>(fields, "symbol-avoid-edges") {
                    Ok(x) => x,
                    Err(_) => return Err(Self::object_rejection(fields)),
                };
                let symbol_placement = match decode_req_field::<SymbolPlacement>(fields, "symbol-placement") {
                    Ok(x) => x,
                    Err(_) => return Err(Self::object_rejection(fields)),
                };
                let symbol_sort_key = match decode_req_field::<SymbolSortKey>(fields, "symbol-sort-key") {
                    Ok(x) => x,
                    Err(_) => return Err(Self::object_rejection(fields)),
                };
                let symbol_spacing = match decode_req_field::<SymbolSpacing>(fields, "symbol-spacing") {
                    Ok(x) => x,
                    Err(_) => return Err(Self::object_rejection(fields)),
                };
                let symbol_z_order = match decode_req_field::<SymbolZOrder>(fields, "symbol-z-order") {
                    Ok(x) => x,
                    Err(_) => return Err(Self::object_rejection(fields)),
                };
                let text_allow_overlap = match decode_req_field::<TextAllowOverlap>(fields, "text-allow-overlap") {
                    Ok(x) => x,
                    Err(_) => return Err(Self::object_rejection(fields)),
                };
                let text_anchor = match decode_req_field::<TextAnchor>(fields, "text-anchor") {
                    Ok(x) => x,
                    Err(_) => return Err(Self::object_rejection(fields)),
                };
                let text_field = match decode_req_field::<TextField>(fields, "text-field") {
                    Ok(x) => x,
                    Err(_) => return Err(Self::object_rejection(fields)),
                };
                let text_font = match decode_req_field::<TextFont>(fields, "text-font") {
                    Ok(x) => x,
                    Err(_) => return Err(Self::object_rejection(fields)),
                };
                let text_ignore_placement = match decode_req_field::<TextIgnorePlacement>(fields, "text-ignore-placement") {
                    Ok(x) => x,
                    Err(_) => return Err(Self::object_rejection(fields)),
                };
                let text_justify = match decode_req_field::<TextJustify>(fields, "text-justify") {
                    Ok(x) => x,
                    Err(_) => return Err(Self::object_rejection(fields)),
                };
                let text_keep_upright = match decode_req_field::<TextKeepUpright>(fields, "text-keep-upright") {
                    Ok(x) => x,
                    Err(_) => return Err(Self::object_rejection(fields)),
                };
                let text_letter_spacing = match decode_req_field::<TextLetterSpacing>(fields, "text-letter-spacing") {
                    Ok(x) => x,
                    Err(_) => return Err(Self::object_rejection(fields)),
                };
                let text_line_height = match decode_req_field::<TextLineHeight>(fields, "text-line-height") {
                    Ok(x) => x,
                    Err(_) => return Err(Self::object_rejection(fields)),
                };
                let text_max_angle = match decode_req_field::<TextMaxAngle>(fields, "text-max-angle") {
                    Ok(x) => x,
                    Err(_) => return Err(Self::object_rejection(fields)),
                };
                let text_max_width = match decode_req_field::<TextMaxWidth>(fields, "text-max-width") {
                    Ok(x) => x,
                    Err(_) => return Err(Self::object_rejection(fields)),
                };
                let text_offset = match decode_req_field::<TextOffset>(fields, "text-offset") {
                    Ok(x) => x,
                    Err(_) => return Err(Self::object_rejection(fields)),
                };
                let text_optional = match decode_req_field::<TextOptional>(fields, "text-optional") {
                    Ok(x) => x,
                    Err(_) => return Err(Self::object_rejection(fields)),
                };
                let text_overlap = match decode_req_field::<TextOverlap>(fields, "text-overlap") {
                    Ok(x) => x,
                    Err(_) => return Err(Self::object_rejection(fields)),
                };
                let text_padding = match decode_req_field::<TextPadding>(fields, "text-padding") {
                    Ok(x) => x,
                    Err(_) => return Err(Self::object_rejection(fields)),
                };
                let text_pitch_alignment = match decode_req_field::<TextPitchAlignment>(fields, "text-pitch-alignment") {
                    Ok(x) => x,
                    Err(_) => return Err(Self::object_rejection(fields)),
                };
                let text_radial_offset = match decode_req_field::<TextRadialOffset>(fields, "text-radial-offset") {
                    Ok(x) => x,
                    Err(_) => return Err(Self::object_rejection(fields)),
                };
                let text_rotate = match decode_req_field::<TextRotate>(fields, "text-rotate") {
                    Ok(x) => x,
                    Err(_) => return Err(Self::object_rejection(fields)),
                };
                let text_rotation_alignment = match decode_req_field::<TextRotationAlignment>(fields, "text-rotation-alignment") {
                    Ok(x) => x,
                    Err(_) => return Err(Self::object_rejection(fields)),
                };
                let text_size = match decode_req_field::<TextSize>(fields, "text-size") {
                    Ok(x) => x,
                    Err(_) => return Err(Self::object_rejection(fields)),
                };
                let text_transform = match decode_req_field::<TextTransform>(fields, "text-transform") {
                    Ok(x) => x,
                    Err(_) => return Err(Self::object_rejection(fields)),
                };
                let text_variable_anchor = match decode_req_field::<TextVariableAnchor>(fields, "text-variable-anchor") {
                    Ok(x) => x,
                    Err(_) => return Err(Self::object_rejection(fields)),
                };
                let text_variable_anchor_offset = match decode_req_field::<TextVariableAnchorOffset>(fields, "text-variable-anchor-offset") {
                    Ok(x) => x,
                    Err(_) => return Err(Self::object_rejection(fields)),
                };
                let text_writing_mode = match decode_req_field::<TextWritingMode>(fields, "text-writing-mode") {
                    Ok(x) => x,
                    Err(_) => return Err(Self::object_rejection(fields)),
                };
                let visibility = match decode_req_field::<Visibility>(fields, "visibility") {
                    Ok(x) => x,
                    Err(_) => return Err(Self::object_rejection(fields)),
                };
                Ok(LayoutSymbol { icon_allow_overlap, icon_anchor, icon_ignore_placement, icon_image, icon_keep_upright, icon_offset, icon_optional, icon_overlap, icon_padding, icon_pitch_alignment, icon_rotate, icon_rotation_alignment, icon_size, icon_text_fit, icon_text_fit_padding, symbol_avoid_edges, symbol_placement, symbol_sort_key, symbol_spacing, symbol_z_order, text_allow_overlap, text_anchor, text_field, text_font, text_ignore_placement, text_justify, text_keep_upright, text_letter_spacing, text_line_height, text_max_angle, text_max_width, text_offset, text_optional, text_overlap, text_padding, text_pitch_alignment, text_radial_offset, text_rotate, text_rotation_alignment, text_size, text_transform, text_variable_anchor, text_variable_anchor_offset, text_writing_mode, visibility })
            },
            JsonValue::Array(a) => {
                let icon_allow_overlap = match decode_seq_req::<IconAllowOverlap>(a, 0, "struct LayoutSymbol with 45 elements") {
                    Ok(x) => x,
                    Err(e) => return Err(e),
                };
                let icon_anchor = match decode_seq_req::<IconAnchor>(a, 1, "struct LayoutSymbol with 45 elements") {
                    Ok(x) => x,
                    Err(e) => return Err(e),
                };
                let icon_ignore_placement = match decode_seq_req::<IconIgnorePlacement>(a, 2, "struct LayoutSymbol with 45 elements") {
                    Ok(x) => x,
                    Err(e) => return Err(e),
                };
                let icon_image = match decode_seq_req::<IconImage>(a, 3, "struct LayoutSymbol with 45 elements") {
                    Ok(x) => x,
                    Err(e) => return Err(e),
                };
                let icon_keep_upright = match decode_seq_req::<IconKeepUpright>(a, 4, "struct LayoutSymbol with 45 elements") {
                    Ok(x) => x,
                    Err(e) => return Err(e),
                };
                let icon_offset = match decode_seq_req::<IconOffset>(a, 5, "struct LayoutSymbol with 45 elements") {
                    Ok(x) => x,
                    Err(e) => return Err(e),
                };
                let icon_optional = match decode_seq_req::<IconOptional>(a, 6, "struct LayoutSymbol with 45 elements") {
                    Ok(x) => x,
                    Err(e) => return Err(e),
                };
                let icon_overlap = match decode_seq_req::<IconOverlap>(a, 7, "struct LayoutSymbol with 45 elements") {
                    Ok(x) => x,
                    Err(e) => return Err(e),
                };
                let icon_padding = match decode_seq_req::<IconPadding>(a, 8, "struct LayoutSymbol with 45 elements") {
                    Ok(x) => x,
                    Err(e) => return Err(e),
                };
                let icon_pitch_alignment = match decode_seq_req::<IconPitchAlignment>(a, 9, "struct LayoutSymbol with 45 elements") {
                    Ok(x) => x,
                    Err(e) => return Err(e),
                };
                let icon_rotate = match decode_seq_req::<IconRotate>(a, 10, "struct LayoutSymbol with 45 elements") {
                    Ok(x) => x,
                    Err(e) => return Err(e),
                };
                let icon_rotation_alignment = match decode_seq_req::<IconRotationAlignment>(a, 11, "struct LayoutSymbol with 45 elements") {
                    Ok(x) => x,
                    Err(e) => return Err(e),
                };
                let icon_size = match decode_seq_req::<IconSize>(a, 12, "struct LayoutSymbol with 45 elements") {
                    Ok(x) => x,
                    Err(e) => return Err(e),
                };
                let icon_text_fit = match decode_seq_req::<IconTextFit>(a, 13, "struct LayoutSymbol with 45 elements") {
                    Ok(x) => x,
                    Err(e) => return Err(e),
                };
                let icon_text_fit_padding = match decode_seq_req::<IconTextFitPadding>(a, 14, "struct LayoutSymbol with 45 elements") {
                    Ok(x) => x,
                    Err(e) => return Err(e),
                };
                let symbol_avoid_edges = match decode_seq_req::<SymbolAvoidEdges>(a, 15, "struct LayoutSymbol with 45 elements") {
                    Ok(x) => x,
                    Err(e) => return Err(e),
                };
                let symbol_placement = match decode_seq_req::<SymbolPlacement>(a, 16, "struct LayoutSymbol with 45 elements") {
                    Ok(x) => x,
                    Err(e) => return Err(e),
                };
                let symbol_sort_key = match decode_seq_req::<SymbolSortKey>(a, 17, "struct LayoutSymbol with 45 elements") {
                    Ok(x) => x,
                    Err(e) => return Err(e),
                };
                let symbol_spacing = match decode_seq_req::<SymbolSpacing>(a, 18, "struct LayoutSymbol with 45 elements") {
                    Ok(x) => x,
                    Err(e) => return Err(e),
                };
                let symbol_z_order = match decode_seq_req::<SymbolZOrder>(a, 19, "struct LayoutSymbol with 45 elements") {
                    Ok(x) => x,
                    Err(e) => return Err(e),
                };
                let text_allow_overlap = match decode_seq_req::<TextAllowOverlap>(a, 20, "struct LayoutSymbol with 45 elements") {
                    Ok(x) => x,
                    Err(e) => return Err(e),
                };
                let text_anchor = match decode_seq_req::<TextAnchor>(a, 21, "struct LayoutSymbol with 45 elements") {
                    Ok(x) => x,
                    Err(e) => return Err(e),
                };
                let text_field = match decode_seq_req::<TextField>(a, 22, "struct LayoutSymbol with 45 elements") {
                    Ok(x) => x,
                    Err(e) => return Err(e),
                };
                let text_font = match decode_seq_req::<TextFont>(a, 23, "struct LayoutSymbol with 45 elements") {
                    Ok(x) => x,
                    Err(e) => return Err(e),
                };
                let text_ignore_placement = match decode_seq_req::<TextIgnorePlacement>(a, 24, "struct LayoutSymbol with 45 elements") {
                    Ok(x) => x,
                    Err(e) => return Err(e),
                };
                let text_justify = match decode_seq_req::<TextJustify>(a, 25, "struct LayoutSymbol with 45 elements") {
                    Ok(x) => x,
                    Err(e) => return Err(e),
                };
                let text_keep_upright = match decode_seq_req::<TextKeepUpright>(a, 26, "struct LayoutSymbol with 45 elements") {
                    Ok(x) => x,
                    Err(e) => return Err(e),
                };
                let text_letter_spacing = match decode_seq_req::<TextLetterSpacing>(a, 27, "struct LayoutSymbol with 45 elements") {
                    Ok(x) => x,
                    Err(e) => return Err(e),
                };
                let text_line_height = match decode_seq_req::<TextLineHeight>(a, 28, "struct LayoutSymbol with 45 elements") {
                    Ok(x) => x,
                    Err(e) => return Err(e),
                };
                let text_max_angle = match decode_seq_req::<TextMaxAngle>(a, 29, "struct LayoutSymbol with 45 elements") {
                    Ok(x) => x,
                    Err(e) => return Err(e),
                };
                let text_max_width = match decode_seq_req::<TextMaxWidth>(a, 30, "struct LayoutSymbol with 45 elements") {
                    Ok(x) => x,
                    Err(e) => return Err(e),
                };
                let text_offset = match decode_seq_req::<TextOffset>(a, 31, "struct LayoutSymbol with 45 elements") {
                    Ok(x) => x,
                    Err(e) => return Err(e),
                };
                let text_optional = match decode_seq_req::<TextOptional>(a, 32, "struct LayoutSymbol with 45 elements") {
                    Ok(x) => x,
                    Err(e) => return Err(e),
                };
                let text_overlap = match decode_seq_req::<TextOverlap>(a, 33, "struct LayoutSymbol with 45 elements") {
                    Ok(x) => x,
                    Err(e) => return Err(e),
                };
                let text_padding = match decode_seq_req::<TextPadding>(a, 34, "struct LayoutSymbol with 45 elements") {
                    Ok(x) => x,
                    Err(e) => return Err(e),
                };
                let text_pitch_alignment = match decode_seq_req::<TextPitchAlignment>(a, 35, "struct LayoutSymbol with 45 elements") {
                    Ok(x) => x,
                    Err(e) => return Err(e),
                };
                let text_radial_offset = match decode_seq_req::<TextRadialOffset>(a, 36, "struct LayoutSymbol with 45 elements") {
                    Ok(x) => x,
                    Err(e) => return Err(e),
                };
                let text_rotate = match decode_seq_req::<TextRotate>(a, 37, "struct LayoutSymbol with 45 elements") {
                    Ok(x) => x,
                    Err(e) => return Err(e),
                };
                let text_rotation_alignment = match decode_seq_req::<TextRotationAlignment>(a, 38, "struct LayoutSymbol with 45 elements") {
                    Ok(x) => x,
                    Err(e) => return Err(e),
                };
                let text_size = match decode_seq_req::<TextSize>(a, 39, "struct LayoutSymbol with 45 elements") {
                    Ok(x) => x,
                    Err(e) => return Err(e),
                };
                let text_transform = match decode_seq_req::<TextTransform>(a, 40, "struct LayoutSymbol with 45 elements") {
                    Ok(x) => x,
                    Err(e) => return Err(e),
                };
                let text_variable_anchor = match decode_seq_req::<TextVariableAnchor>(a, 41, "struct LayoutSymbol with 45 elements") {
                    Ok(x) => x,
                    Err(e) => return Err(e),
                };
                let text_variable_anchor_offset = match decode_seq_req::<TextVariableAnchorOffset>(a, 42, "struct LayoutSymbol with 45 elements") {
                    Ok(x) => x,
                    Err(e) => return Err(e),
                };
                let text_writing_mode = match decode_seq_req::<TextWritingMode>(a, 43, "struct LayoutSymbol with 45 elements") {
                    Ok(x) => x,
                    Err(e) => return Err(e),
                };
                let visibility = match decode_seq_req::<Visibility>(a, 44, "struct LayoutSymbol with 45 elements") {
                    Ok(x) => x,
                    Err(e) => return Err(e),
                };
                if a.len() > 45 {
                    return Err(make_length_error(a.len()));
                }
                Ok(LayoutSymbol { icon_allow_overlap, icon_anchor, icon_ignore_placement, icon_image, icon_keep_upright, icon_offset, icon_optional, icon_overlap, icon_padding, icon_pitch_alignment, icon_rotate, icon_rotation_alignment, icon_size, icon_text_fit, icon_text_fit_padding, symbol_avoid_edges, symbol_placement, symbol_sort_key, symbol_spacing, symbol_z_order, text_allow_overlap, text_anchor, text_field, text_font, text_ignore_placement, text_justify, text_keep_upright, text_letter_spacing, text_line_height, text_max_angle, text_max_width, text_offset, text_optional, text_overlap, text_padding, text_pitch_alignment, text_radial_offset, text_rotate, text_rotation_alignment, text_size, text_transform, text_variable_anchor, text_variable_anchor_offset, text_writing_mode, visibility })
            },
            _ => Err(make_type_error(v, "struct LayoutSymbol")),
        }
    }
}

impl LayoutSymbol {
    /// What is wrong with the value `w` of an entry with key `k`, where `k` is the key of a field.
    pub open spec fn field_fault(k: Seq<char>, w: Json) -> Option<Seq<char>> {
        if k == "icon-allow-overlap"@ {
            if IconAllowOverlap::accepts(w) {
                None
            } else {
                Some(IconAllowOverlap::rejection(w))
            }
        } else if k == "icon-anchor"@ {
            if IconAnchor::accepts(w) {
                None
            } else {
                Some(IconAnchor::rejection(w))
            }
        } else if k == "icon-ignore-placement"@ {
            if IconIgnorePlacement::accepts(w) {
                None
            } else {
                Some(IconIgnorePlacement::rejection(w))
            }
        } else if k == "icon-image"@ {
            if IconImage::accepts(w) {
                None
            } else {
                Some(IconImage::rejection(w))
            }
        } else if k == "icon-keep-upright"@ {
            if IconKeepUpright::accepts(w) {
                None
            } else {
                Some(IconKeepUpright::rejection(w))
            }
        } else if k == "icon-offset"@ {
            if IconOffset::accepts(w) {
                None
            } else {
                Some(IconOffset::rejection(w))
            }
        } else if k == "icon-optional"@ {
            if IconOptional::accepts(w) {
                None
            } else {
                Some(IconOptional::rejection(w))
            }
        } else if k == "icon-overlap"@ {
            if IconOverlap::accepts(w) {
                None
            } else {
                Some(IconOverlap::rejection(w))
            }
        } else if k == "icon-padding"@ {
            if IconPadding::accepts(w) {
                None
            } else {
                Some(IconPadding::rejection(w))
            }
        } else if k == "icon-pitch-alignment"@ {
            if IconPitchAlignment::accepts(w) {
                None
            } else {
                Some(IconPitchAlignment::rejection(w))
            }
        } else if k == "icon-rotate"@ {
            if IconRotate::accepts(w) {
                None
            } else {
                Some(IconRotate::rejection(w))
            }
        } else if k == "icon-rotation-alignment"@ {
            if IconRotationAlignment::accepts(w) {
                None
            } else {
                Some(IconRotationAlignment::rejection(w))
            }
        } else if k == "icon-size"@ {
            if IconSize::accepts(w) {
                None
            } else {
                Some(IconSize::rejection(w))
            }
        } else if k == "icon-text-fit"@ {
            if IconTextFit::accepts(w) {
                None
            } else {
                Some(IconTextFit::rejection(w))
            }
        } else if k == "icon-text-fit-padding"@ {
            if IconTextFitPadding::accepts(w) {
                None
            } else {
                Some(IconTextFitPadding::rejection(w))
            }
        } else if k == "symbol-avoid-edges"@ {
            if SymbolAvoidEdges::accepts(w) {
                None
            } else {
                Some(SymbolAvoidEdges::rejection(w))
            }
        } else if k == "symbol-placement"@ {
            if SymbolPlacement::accepts(w) {
                None
            } else {
                Some(SymbolPlacement::rejection(w))
            }
        } else if k == "symbol-sort-key"@ {
            if SymbolSortKey::accepts(w) {
                None
            } else {
                Some(SymbolSortKey::rejection(w))
            }
        } else if k == "symbol-spacing"@ {
            if SymbolSpacing::accepts(w) {
                None
            } else {
                Some(SymbolSpacing::rejection(w))
            }
        } else if k == "symbol-z-order"@ {
            if SymbolZOrder::accepts(w) {
                None
            } else {
                Some(SymbolZOrder::rejection(w))
            }
        } else if k == "text-allow-overlap"@ {
            if TextAllowOverlap::accepts(w) {
                None
            } else {
                Some(TextAllowOverlap::rejection(w))
            }
        } else if k == "text-anchor"@ {
            if TextAnchor::accepts(w) {
                None
            } else {
                Some(TextAnchor::rejection(w))
            }
        } else if k == "text-field"@ {
            if TextField::accepts(w) {
                None
            } else {
                Some(TextField::rejection(w))
            }
        } else if k == "text-font"@ {
            if TextFont::accepts(w) {
                None
            } else {
                Some(TextFont::rejection(w))
            }
        } else if k == "text-ignore-placement"@ {
            if TextIgnorePlacement::accepts(w) {
                None
            } else {
                Some(TextIgnorePlacement::rejection(w))
            }
        } else if k == "text-justify"@ {
            if TextJustify::accepts(w) {
                None
            } else {
                Some(TextJustify::rejection(w))
            }
        } else if k == "text-keep-upright"@ {
            if TextKeepUpright::accepts(w) {
                None
            } else {
                Some(TextKeepUpright::rejection(w))
            }
        } else if k == "text-letter-spacing"@ {
            if TextLetterSpacing::accepts(w) {
                None
            } else {
                Some(TextLetterSpacing::rejection(w))
            }
        } else if k == "text-line-height"@ {
            if TextLineHeight::accepts(w) {
                None
            } else {
                Some(TextLineHeight::rejection(w))
            }
        } else if k == "text-max-angle"@ {
            if TextMaxAngle::accepts(w) {
                None
            } else {
                Some(TextMaxAngle::rejection(w))
            }
        } else if k == "text-max-width"@ {
            if TextMaxWidth::accepts(w) {
                None
            } else {
                Some(TextMaxWidth::rejection(w))
            }
        } else if k == "text-offset"@ {
            if TextOffset::accepts(w) {
                None
            } else {
                Some(TextOffset::rejection(w))
            }
        } else if k == "text-optional"@ {
            if TextOptional::accepts(w) {
                None
            } else {
                Some(TextOptional::rejection(w))
            }
        } else if k == "text-overlap"@ {
            if TextOverlap::accepts(w) {
                None
            } else {
                Some(TextOverlap::rejection(w))
            }
        } else if k == "text-padding"@ {
            if TextPadding::accepts(w) {
                None
            } else {
                Some(TextPadding::rejection(w))
            }
        } else if k == "text-pitch-alignment"@ {
            if TextPitchAlignment::accepts(w) {
                None
            } else {
                Some(TextPitchAlignment::rejection(w))
            }
        } else if k == "text-radial-offset"@ {
            if TextRadialOffset::accepts(w) {
                None
            } else {
                Some(TextRadialOffset::rejection(w))
            }
        } else if k == "text-rotate"@ {
            if TextRotate::accepts(w) {
                None
            } else {
                Some(TextRotate::rejection(w))
            }
        } else if k == "text-rotation-alignment"@ {
            if TextRotationAlignment::accepts(w) {
                None
            } else {
                Some(TextRotationAlignment::rejection(w))
            }
        } else if k == "text-size"@ {
            if TextSize::accepts(w) {
                None
            } else {
                Some(TextSize::rejection(w))
            }
        } else if k == "text-transform"@ {
            if TextTransform::accepts(w) {
                None
            } else {
                Some(TextTransform::rejection(w))
            }
        } else if k == "text-variable-anchor"@ {
            if TextVariableAnchor::accepts(w) {
                None
            } else {
                Some(TextVariableAnchor::rejection(w))
            }
        } else if k == "text-variable-anchor-offset"@ {
            if TextVariableAnchorOffset::accepts(w) {
                None
            } else {
                Some(TextVariableAnchorOffset::rejection(w))
            }
        } else if k == "text-writing-mode"@ {
            if TextWritingMode::accepts(w) {
                None
            } else {
                Some(TextWritingMode::rejection(w))
            }
        } else if k == "visibility"@ {
            if Visibility::accepts(w) {
                None
            } else {
                Some(Visibility::rejection(w))
            }
        } else {
            None
        }
    }

    /// The message of the first entry of `o`, from entry `i` on and among the first entries of
    /// their keys, whose value does not read as its field, if any.
    pub open spec fn first_fault(o: Seq<(Seq<char>, Json)>, i: int) -> Option<Seq<char>>
        decreases o.len() - i,
    {
        if i < 0 || i >= o.len() {
            None
        } else if first_with_key(o, i) && Self::field_fault(o[i].0, o[i].1) is Some {
            Self::field_fault(o[i].0, o[i].1)
        } else {
            Self::first_fault(o, i + 1)
        }
    }

    fn find_field_fault(k: &str, w: &JsonValue) -> (r: Option<String>)
        ensures
            match r {
                Some(m) => Self::field_fault(k@, w.model()) == Some(m@),
                None => Self::field_fault(k@, w.model()) is None,
            },
    {
        if str_eq(k, "icon-allow-overlap") {
            match IconAllowOverlap::decode(w) {
                Ok(_) => None,
                Err(e) => Some(e),
            }
        } else if str_eq(k, "icon-anchor") {
            match IconAnchor::decode(w) {
                Ok(_) => None,
                Err(e) => Some(e),
            }
        } else if str_eq(k, "icon-ignore-placement") {
            match IconIgnorePlacement::decode(w) {
                Ok(_) => None,
                Err(e) => Some(e),
            }
        } else if str_eq(k, "icon-image") {
            match IconImage::decode(w) {
                Ok(_) => None,
                Err(e) => Some(e),
            }
        } else if str_eq(k, "icon-keep-upright") {
            match IconKeepUpright::decode(w) {
                Ok(_) => None,
                Err(e) => Some(e),
            }
        } else if str_eq(k, "icon-offset") {
            match IconOffset::decode(w) {
                Ok(_) => None,
                Err(e) => Some(e),
            }
        } else if str_eq(k, "icon-optional") {
            match IconOptional::decode(w) {
                Ok(_) => None,
                Err(e) => Some(e),
            }
        } else if str_eq(k, "icon-overlap") {
            match IconOverlap::decode(w) {
                Ok(_) => None,
                Err(e) => Some(e),
            }
        } else if str_eq(k, "icon-padding") {
            match IconPadding::decode(w) {
                Ok(_) => None,
                Err(e) => Some(e),
            }
        } else if str_eq(k, "icon-pitch-alignment") {
            match IconPitchAlignment::decode(w) {
                Ok(_) => None,
                Err(e) => Some(e),
            }
        } else if str_eq(k, "icon-rotate") {
            match IconRotate::decode(w) {
                Ok(_) => None,
                Err(e) => Some(e),
            }
        } else if str_eq(k, "icon-rotation-alignment") {
            match IconRotationAlignment::decode(w) {
                Ok(_) => None,
                Err(e) => Some(e),
            }
        } else if str_eq(k, "icon-size") {
            match IconSize::decode(w) {
                Ok(_) => None,
                Err(e) => Some(e),
            }
        } else if str_eq(k, "icon-text-fit") {
            match IconTextFit::decode(w) {
                Ok(_) => None,
                Err(e) => Some(e),
            }
        } else if str_eq(k, "icon-text-fit-padding") {
            match IconTextFitPadding::decode(w) {
                Ok(_) => None,
                Err(e) => Some(e),
            }
        } else if str_eq(k, "symbol-avoid-edges") {
            match SymbolAvoidEdges::decode(w) {
                Ok(_) => None,
                Err(e) => Some(e),
            }
        } else if str_eq(k, "symbol-placement") {
            match SymbolPlacement::decode(w) {
                Ok(_) => None,
                Err(e) => Some(e),
            }
        } else if str_eq(k, "symbol-sort-key") {
            match SymbolSortKey::decode(w) {
                Ok(_) => None,
                Err(e) => Some(e),
            }
        } else if str_eq(k, "symbol-spacing") {
            match SymbolSpacing::decode(w) {
                Ok(_) => None,
                Err(e) => Some(e),
            }
        } else if str_eq(k, "symbol-z-order") {
            match SymbolZOrder::decode(w) {
                Ok(_) => None,
                Err(e) => Some(e),
            }
        } else if str_eq(k, "text-allow-overlap") {
            match TextAllowOverlap::decode(w) {
                Ok(_) => None,
                Err(e) => Some(e),
            }
        } else if str_eq(k, "text-anchor") {
            match TextAnchor::decode(w) {
                Ok(_) => None,
                Err(e) => Some(e),
            }
        } else if str_eq(k, "text-field") {
            match TextField::decode(w) {
                Ok(_) => None,
                Err(e) => Some(e),
            }
        } else if str_eq(k, "text-font") {
            match TextFont::decode(w) {
                Ok(_) => None,
                Err(e) => Some(e),
            }
        } else if str_eq(k, "text-ignore-placement") {
            match TextIgnorePlacement::decode(w) {
                Ok(_) => None,
                Err(e) => Some(e),
            }
        } else if str_eq(k, "text-justify") {
            match TextJustify::decode(w) {
                Ok(_) => None,
                Err(e) => Some(e),
            }
        } else if str_eq(k, "text-keep-upright") {
            match TextKeepUpright::decode(w) {
                Ok(_) => None,
                Err(e) => Some(e),
            }
        } else if str_eq(k, "text-letter-spacing") {
            match TextLetterSpacing::decode(w) {
                Ok(_) => None,
                Err(e) => Some(e),
            }
        } else if str_eq(k, "text-line-height") {
            match TextLineHeight::decode(w) {
                Ok(_) => None,
                Err(e) => Some(e),
            }
        } else if str_eq(k, "text-max-angle") {
            match TextMaxAngle::decode(w) {
                Ok(_) => None,
                Err(e) => Some(e),
            }
        } else if str_eq(k, "text-max-width") {
            match TextMaxWidth::decode(w) {
                Ok(_) => None,
                Err(e) => Some(e),
            }
        } else if str_eq(k, "text-offset") {
            match TextOffset::decode(w) {
                Ok(_) => None,
                Err(e) => Some(e),
            }
        } else if str_eq(k, "text-optional") {
            match TextOptional::decode(w) {
                Ok(_) => None,
                Err(e) => Some(e),
            }
        } else if str_eq(k, "text-overlap") {
            match TextOverlap::decode(w) {
                Ok(_) => None,
                Err(e) => Some(e),
            }
        } else if str_eq(k, "text-padding") {
            match TextPadding::decode(w) {
                Ok(_) => None,
                Err(e) => Some(e),
            }
        } else if str_eq(k, "text-pitch-alignment") {
            match TextPitchAlignment::decode(w) {
                Ok(_) => None,
                Err(e) => Some(e),
            }
        } else if str_eq(k, "text-radial-offset") {
            match TextRadialOffset::decode(w) {
                Ok(_) => None,
                Err(e) => Some(e),
            }
        } else if str_eq(k, "text-rotate") {
            match TextRotate::decode(w) {
                Ok(_) => None,
                Err(e) => Some(e),
            }
        } else if str_eq(k, "text-rotation-alignment") {
            match TextRotationAlignment::decode(w) {
                Ok(_) => None,
                Err(e) => Some(e),
            }
        } else if str_eq(k, "text-size") {
            match TextSize::decode(w) {
                Ok(_) => None,
                Err(e) => Some(e),
            }
        } else if str_eq(k, "text-transform") {
            match TextTransform::decode(w) {
                Ok(_) => None,
                Err(e) => Some(e),
            }
        } else if str_eq(k, "text-variable-anchor") {
            match TextVariableAnchor::decode(w) {
                Ok(_) => None,
                Err(e) => Some(e),
            }
        } else if str_eq(k, "text-variable-anchor-offset") {
            match TextVariableAnchorOffset::decode(w) {
                Ok(_) => None,
                Err(e) => Some(e),
            }
        } else if str_eq(k, "text-writing-mode") {
            match TextWritingMode::decode(w) {
                Ok(_) => None,
                Err(e) => Some(e),
            }
        } else if str_eq(k, "visibility") {
            match Visibility::decode(w) {
                Ok(_) => None,
                Err(e) => Some(e),
            }
        } else {
            None
        }
    }

    fn object_rejection(fields: &Vec<(String, JsonValue)>) -> (r: String)
        ensures
            r@ == Self::rejection(JsonValue::Object(*fields).model()),
    {
        let ghost o = entries_model(*fields);
        let mut i: usize = 0;
        while i < fields.len()
            invariant
                o == entries_model(*fields),
                o.len() == fields.len(),
                i <= fields.len(),
                Self::first_fault(o, 0) == Self::first_fault(o, i as int),
            decreases fields.len() - i,
        {
            proof {
                assert(o[i as int] == (fields@[i as int].0@, fields@[i as int].1.model()));
            }
            if !key_seen_before(fields, i) {
                match Self::find_field_fault(fields[i].0.as_str(), &fields[i].1) {
                    Some(m) => {
                        return m;
                    },
                    None => {},
                }
            }
            i += 1;
        }
        if get_field(fields, "icon-allow-overlap").is_none() {
            return make_missing_field("icon-allow-overlap");
        }
        if get_field(fields, "icon-anchor").is_none() {
            return make_missing_field("icon-anchor");
        }
        if get_field(fields, "icon-ignore-placement").is_none() {
            return make_missing_field("icon-ignore-placement");
        }
        if get_field(fields, "icon-image").is_none() {
            return make_missing_field("icon-image");
        }
        if get_field(fields, "icon-keep-upright").is_none() {
            return make_missing_field("icon-keep-upright");
        }
        if get_field(fields, "icon-offset").is_none() {
            return make_missing_field("icon-offset");
        }
        if get_field(fields, "icon-optional").is_none() {
            return make_missing_field("icon-optional");
        }
        if get_field(fields, "icon-overlap").is_none() {
            return make_missing_field("icon-overlap");
        }
        if get_field(fields, "icon-padding").is_none() {
            return make_missing_field("icon-padding");
        }
        if get_field(fields, "icon-pitch-alignment").is_none() {
            return make_missing_field("icon-pitch-alignment");
        }
        if get_field(fields, "icon-rotate").is_none() {
            return make_missing_field("icon-rotate");
        }
        if get_field(fields, "icon-rotation-alignment").is_none() {
            return make_missing_field("icon-rotation-alignment");
        }
        if get_field(fields, "icon-size").is_none() {
            return make_missing_field("icon-size");
        }
        if get_field(fields, "icon-text-fit").is_none() {
            return make_missing_field("icon-text-fit");
        }
        if get_field(fields, "icon-text-fit-padding").is_none() {
            return make_missing_field("icon-text-fit-padding");
        }
        if get_field(fields, "symbol-avoid-edges").is_none() {
            return make_missing_field("symbol-avoid-edges");
        }
        if get_field(fields, "symbol-placement").is_none() {
            return make_missing_field("symbol-placement");
        }
        if get_field(fields, "symbol-sort-key").is_none() {
            return make_missing_field("symbol-sort-key");
        }
        if get_field(fields, "symbol-spacing").is_none() {
            return make_missing_field("symbol-spacing");
        }
        if get_field(fields, "symbol-z-order").is_none() {
            return make_missing_field("symbol-z-order");
        }
        if get_field(fields, "text-allow-overlap").is_none() {
            return make_missing_field("text-allow-overlap");
        }
        if get_field(fields, "text-anchor").is_none() {
            return make_missing_field("text-anchor");
        }
        if get_field(fields, "text-field").is_none() {
            return make_missing_field("text-field");
        }
        if get_field(fields, "text-font").is_none() {
            return make_missing_field("text-font");
        }
        if get_field(fields, "text-ignore-placement").is_none() {
            return make_missing_field("text-ignore-placement");
        }
        if get_field(fields, "text-justify").is_none() {
            return make_missing_field("text-justify");
        }
        if get_field(fields, "text-keep-upright").is_none() {
            return make_missing_field("text-keep-upright");
        }
        if get_field(fields, "text-letter-spacing").is_none() {
            return make_missing_field("text-letter-spacing");
        }
        if get_field(fields, "text-line-height").is_none() {
            return make_missing_field("text-line-height");
        }
        if get_field(fields, "text-max-angle").is_none() {
            return make_missing_field("text-max-angle");
        }
        if get_field(fields, "text-max-width").is_none() {
            return make_missing_field("text-max-width");
        }
        if get_field(fields, "text-offset").is_none() {
            return make_missing_field("text-offset");
        }
        if get_field(fields, "text-optional").is_none() {
            return make_missing_field("text-optional");
        }
        if get_field(fields, "text-overlap").is_none() {
            return make_missing_field("text-overlap");
        }
        if get_field(fields, "text-padding").is_none() {
            return make_missing_field("text-padding");
        }
        if get_field(fields, "text-pitch-alignment").is_none() {
            return make_missing_field("text-pitch-alignment");
        }
        if get_field(fields, "text-radial-offset").is_none() {
            return make_missing_field("text-radial-offset");
        }
        if get_field(fields, "text-rotate").is_none() {
            return make_missing_field("text-rotate");
        }
        if get_field(fields, "text-rotation-alignment").is_none() {
            return make_missing_field("text-rotation-alignment");
        }
        if get_field(fields, "text-size").is_none() {
            return make_missing_field("text-size");
        }
        if get_field(fields, "text-transform").is_none() {
            return make_missing_field("text-transform");
        }
        if get_field(fields, "text-variable-anchor").is_none() {
            return make_missing_field("text-variable-anchor");
        }
        if get_field(fields, "text-variable-anchor-offset").is_none() {
            return make_missing_field("text-variable-anchor-offset");
        }
        if get_field(fields, "text-writing-mode").is_none() {
            return make_missing_field("text-writing-mode");
        }
        if get_field(fields, "visibility").is_none() {
            return make_missing_field("visibility");
        }
        String::new()
    }
}

/// If true, the icon will be visible even if it collides with other previously drawn symbols.
#[derive(PartialEq, Debug, Clone)]
pub struct IconAllowOverlap(JsonValue);

impl View for IconAllowOverlap {
    type V = Json;

    closed spec fn view(&self) -> Json {
        self.0.model()
    }
}

impl JsonDecode for IconAllowOverlap {
    open spec fn accepts(v: Json) -> bool {
        true
    }

    open spec fn decodes(v: Json, x: Self) -> bool {
        v == x@
    }

    open spec fn rejection(v: Json) -> Seq<char> {
        JsonValue::rejection(v)
    }

    fn decode(v: &JsonValue) -> (r: Result<Self, String>) {
        match JsonValue::decode(v) {
            Ok(x) => Ok(IconAllowOverlap(x)),
            Err(e) => Err(e),
        }
    }
}

/// Part of the icon placed closest to the anchor.
#[derive(PartialEq, Eq, Debug, Clone, Copy)]
pub enum IconAnchor {
    /// The bottom of the icon is placed closest to the anchor.
    Bottom,
    /// The bottom left corner of the icon is placed closest to the anchor.
    BottomLeft,
    /// The bottom right corner of the icon is placed closest to the anchor.
    BottomRight,
    /// The center of the icon is placed closest to the anchor.
    Center,
    /// The left side of the icon is placed closest to the anchor.
    Left,
    /// The right side of the icon is placed closest to the anchor.
    Right,
    /// The top of the icon is placed closest to the anchor.
    Top,
    /// The top left corner of the icon is placed closest to the anchor.
    TopLeft,
    /// The top right corner of the icon is placed closest to the anchor.
    TopRight,
}

impl IconAnchor {
    /// The name that stands for the value in a style document.
    pub open spec fn spec_name(self) -> Seq<char> {
        match self {
            IconAnchor::Bottom => "bottom"@,
            IconAnchor::BottomLeft => "bottom-left"@,
            IconAnchor::BottomRight => "bottom-right"@,
            IconAnchor::Center => "center"@,
            IconAnchor::Left => "left"@,
            IconAnchor::Right => "right"@,
            IconAnchor::Top => "top"@,
            IconAnchor::TopLeft => "top-left"@,
            IconAnchor::TopRight => "top-right"@,
        }
    }

    /// The name that stands for the value in a style document.
    pub fn name(&self) -> (r: &'static str)
        ensures
            r@ == self.spec_name(),
    {
        match self {
            IconAnchor::Bottom => "bottom",
            IconAnchor::BottomLeft => "bottom-left",
            IconAnchor::BottomRight => "bottom-right",
            IconAnchor::Center => "center",
            IconAnchor::Left => "left",
            IconAnchor::Right => "right",
            IconAnchor::Top => "top",
            IconAnchor::TopLeft => "top-left",
            IconAnchor::TopRight => "top-right",
        }
    }

    /// The value that a name stands for, if any.
    pub fn from_name(s: &str) -> (r: Option<IconAnchor>)
        ensures
            r matches Some(x) ==> x.spec_name() == s@,
            r is None ==> forall|x: IconAnchor| x.spec_name() != s@,
    {
        if str_eq(s, "bottom") {
            Some(IconAnchor::Bottom)
        } else if str_eq(s, "bottom-left") {
            Some(IconAnchor::BottomLeft)
        } else if str_eq(s, "bottom-right") {
            Some(IconAnchor::BottomRight)
        } else if str_eq(s, "center") {
            Some(IconAnchor::Center)
        } else if str_eq(s, "left") {
            Some(IconAnchor::Left)
        } else if str_eq(s, "right") {
            Some(IconAnchor::Right)
        } else if str_eq(s, "top") {
            Some(IconAnchor::Top)
        } else if str_eq(s, "top-left") {
            Some(IconAnchor::TopLeft)
        } else if str_eq(s, "top-right") {
            Some(IconAnchor::TopRight)
        } else {
            None
        }
    }
}

impl JsonDecode for IconAnchor {
    /// The name of a value, or an object whose one entry has the name as its key and `null`.
    open spec fn accepts(v: Json) -> bool {
        ||| (v is Str && exists|x: IconAnchor| x.spec_name() == v->Str_0)
        ||| (v is Object && v->Object_0.len() == 1 && v->Object_0[0].1 is Null && exists|x: IconAnchor| x.spec_name() == v->Object_0[0].0)
    }

    open spec fn decodes(v: Json, x: Self) -> bool {
        ||| v == Json::Str(x.spec_name())
        ||| (v is Object && v->Object_0.len() == 1 && v->Object_0[0] == (x.spec_name(), Json::Null))
    }

    open spec fn rejection(v: Json) -> Seq<char> {
        if v is Str {
            unknown_variant(v->Str_0) + ", expected one of `bottom`, `bottom-left`, `bottom-right`, `center`, `left`, `right`, `top`, `top-left`, `top-right`"@
        } else if v is Object {
            let o = v->Object_0;
            if o.len() != 1 {
                "invalid value: map, expected map with a single key"@
            } else if !(exists|x: IconAnchor| x.spec_name() == o[0].0) {
                unknown_variant(o[0].0) + ", expected one of `bottom`, `bottom-left`, `bottom-right`, `center`, `left`, `right`, `top`, `top-left`, `top-right`"@
            } else {
                type_error(o[0].1, "unit"@)
            }
        } else {
            type_error(v, "string or map"@)
        }
    }

    fn decode(v: &JsonValue) -> (r: Result<Self, String>) {
        match v {
            JsonValue::String(s) => match Self::from_name(s.as_str()) {
                Some(x) => Ok(x),
                None => {
                    let mut m = make_unknown_variant(s.as_str());
                    m.append(", expected one of `bottom`, `bottom-left`, `bottom-right`, `center`, `left`, `right`, `top`, `top-left`, `top-right`");
                    Err(m)
                },
            },
            JsonValue::Object(fields) => {
                if fields.len() != 1 {
                    return Err("invalid value: map, expected map with a single key".to_string());
                }
                proof {
                    assert(entries_model(*fields)[0] == (fields@[0].0@, fields@[0].1.model()));
                }
                match Self::from_name(fields[0].0.as_str()) {
                    Some(x) => match &fields[0].1 {
                        JsonValue::Null => Ok(x),
                        _ => Err(make_type_error(&fields[0].1, "unit")),
                    },
                    None => {
                        let mut m = make_unknown_variant(fields[0].0.as_str());
                        m.append(", expected one of `bottom`, `bottom-left`, `bottom-right`, `center`, `left`, `right`, `top`, `top-left`, `top-right`");
                        Err(m)
                    },
                }
            },
            _ => Err(make_type_error(v, "string or map")),
        }
    }
}

impl Default for IconAnchor {
    fn default() -> (r: Self)
        ensures
            r == IconAnchor::Center,
    {
        IconAnchor::Center
    }
}

/// If true, other symbols can be visible even if they collide with the icon.
#[derive(PartialEq, Debug, Clone)]
pub struct IconIgnorePlacement(JsonValue);

impl View for IconIgnorePlacement {
    type V = Json;

    closed spec fn view(&self) -> Json {
        self.0.model()
    }
}

impl JsonDecode for IconIgnorePlacement {
    open spec fn accepts(v: Json) -> bool {
        true
    }

    open spec fn decodes(v: Json, x: Self) -> bool {
        v == x@
    }

    open spec fn rejection(v: Json) -> Seq<char> {
        JsonValue::rejection(v)
    }

    fn decode(v: &JsonValue) -> (r: Result<Self, String>) {
        match JsonValue::decode(v) {
            Ok(x) => Ok(IconIgnorePlacement(x)),
            Err(e) => Err(e),
        }
    }
}

/// Name of image in sprite to use for drawing an image background.
#[derive(PartialEq, Debug, Clone)]
pub struct IconImage(JsonValue);

impl View for IconImage {
    type V = Json;

    closed spec fn view(&self) -> Json {
        self.0.model()
    }
}

impl JsonDecode for IconImage {
    open spec fn accepts(v: Json) -> bool {
        true
    }

    open spec fn decodes(v: Json, x: Self) -> bool {
        v == x@
    }

    open spec fn rejection(v: Json) -> Seq<char> {
        JsonValue::rejection(v)
    }

    fn decode(v: &JsonValue) -> (r: Result<Self, String>) {
        match JsonValue::decode(v) {
            Ok(x) => Ok(IconImage(x)),
            Err(e) => Err(e),
        }
    }
}

/// If true, the icon may be flipped to prevent it from being rendered upside-down.
#[derive(PartialEq, Debug, Clone)]
pub struct IconKeepUpright(JsonValue);

impl View for IconKeepUpright {
    type V = Json;

    closed spec fn view(&self) -> Json {
        self.0.model()
    }
}

impl JsonDecode for IconKeepUpright {
    open spec fn accepts(v: Json) -> bool {
        true
    }

    open spec fn decodes(v: Json, x: Self) -> bool {
        v == x@
    }

    open spec fn rejection(v: Json) -> Seq<char> {
        JsonValue::rejection(v)
    }

    fn decode(v: &JsonValue) -> (r: Result<Self, String>) {
        match JsonValue::decode(v) {
            Ok(x) => Ok(IconKeepUpright(x)),
            Err(e) => Err(e),
        }
    }
}

/// Offset distance of icon from its anchor. Positive values indicate right and down, while negative values indicate left and up. Each component is multiplied by the value of `icon-size` to obtain the final offset in pixels. When combined with `icon-rotate` the offset will be as if the rotated direction was up.
#[derive(PartialEq, Debug, Clone)]
pub struct IconOffset(JsonValue);

impl View for IconOffset {
    type V = Json;

    closed spec fn view(&self) -> Json {
        self.0.model()
    }
}

impl JsonDecode for IconOffset {
    open spec fn accepts(v: Json) -> bool {
        true
    }

    open spec fn decodes(v: Json, x: Self) -> bool {
        v == x@
    }

    open spec fn rejection(v: Json) -> Seq<char> {
        JsonValue::rejection(v)
    }

    fn decode(v: &JsonValue) -> (r: Result<Self, String>) {
        match JsonValue::decode(v) {
            Ok(x) => Ok(IconOffset(x)),
            Err(e) => Err(e),
        }
    }
}

/// If true, text will display without their corresponding icons when the icon collides with other symbols and the text does not.
#[derive(PartialEq, Debug, Clone)]
pub struct IconOptional(JsonValue);

impl View for IconOptional {
    type V = Json;

    closed spec fn view(&self) -> Json {
        self.0.model()
    }
}

impl JsonDecode for IconOptional {
    open spec fn accepts(v: Json) -> bool {
        true
    }

    open spec fn decodes(v: Json, x: Self) -> bool {
        v == x@
    }

    open spec fn rejection(v: Json) -> Seq<char> {
        JsonValue::rejection(v)
    }

    fn decode(v: &JsonValue) -> (r: Result<Self, String>) {
        match JsonValue::decode(v) {
            Ok(x) => Ok(IconOptional(x)),
            Err(e) => Err(e),
        }
    }
}

/// Allows for control over whether to show an icon when it overlaps other symbols on the map. If `icon-overlap` is not set, `icon-allow-overlap` is used instead.
#[derive(PartialEq, Eq, Debug, Clone, Copy)]
pub enum IconOverlap {
    /// The icon will be visible even if it collides with any other previously drawn symbol.
    Always,
    /// If the icon collides with another previously drawn symbol, the overlap mode for that symbol is checked. If the previous symbol was placed using `never` overlap mode, the new icon is hidden. If the previous symbol was placed using `always` or `cooperative` overlap mode, the new icon is visible.
    Cooperative,
    /// The icon will be hidden if it collides with any other previously drawn symbol.
    Never,
}

impl IconOverlap {
    /// The name that stands for the value in a style document.
    pub open spec fn spec_name(self) -> Seq<char> {
        match self {
            IconOverlap::Always => "always"@,
            IconOverlap::Cooperative => "cooperative"@,
            IconOverlap::Never => "never"@,
        }
    }

    /// The name that stands for the value in a style document.
    pub fn name(&self) -> (r: &'static str)
        ensures
            r@ == self.spec_name(),
    {
        match self {
            IconOverlap::Always => "always",
            IconOverlap::Cooperative => "cooperative",
            IconOverlap::Never => "never",
        }
    }

    /// The value that a name stands for, if any.
    pub fn from_name(s: &str) -> (r: Option<IconOverlap>)
        ensures
            r matches Some(x) ==> x.spec_name() == s@,
            r is None ==> forall|x: IconOverlap| x.spec_name() != s@,
    {
        if str_eq(s, "always") {
            Some(IconOverlap::Always)
        } else if str_eq(s, "cooperative") {
            Some(IconOverlap::Cooperative)
        } else if str_eq(s, "never") {
            Some(IconOverlap::Never)
        } else {
            None
        }
    }
}

impl JsonDecode for IconOverlap {
    /// The name of a value, or an object whose one entry has the name as its key and `null`.
    open spec fn accepts(v: Json) -> bool {
        ||| (v is Str && exists|x: IconOverlap| x.spec_name() == v->Str_0)
        ||| (v is Object && v->Object_0.len() == 1 && v->Object_0[0].1 is Null && exists|x: IconOverlap| x.spec_name() == v->Object_0[0].0)
    }

    open spec fn decodes(v: Json, x: Self) -> bool {
        ||| v == Json::Str(x.spec_name())
        ||| (v is Object && v->Object_0.len() == 1 && v->Object_0[0] == (x.spec_name(), Json::Null))
    }

    open spec fn rejection(v: Json) -> Seq<char> {
        if v is Str {
            unknown_variant(v->Str_0) + ", expected one of `always`, `cooperative`, `never`"@
        } else if v is Object {
            let o = v->Object_0;
            if o.len() != 1 {
                "invalid value: map, expected map with a single key"@
            } else if !(exists|x: IconOverlap| x.spec_name() == o[0].0) {
                unknown_variant(o[0].0) + ", expected one of `always`, `cooperative`, `never`"@
            } else {
                type_error(o[0].1, "unit"@)
            }
        } else {
            type_error(v, "string or map"@)
        }
    }

    fn decode(v: &JsonValue) -> (r: Result<Self, String>) {
        match v {
            JsonValue::String(s) => match Self::from_name(s.as_str()) {
                Some(x) => Ok(x),
                None => {
                    let mut m = make_unknown_variant(s.as_str());
                    m.append(", expected one of `always`, `cooperative`, `never`");
                    Err(m)
                },
            },
            JsonValue::Object(fields) => {
                if fields.len() != 1 {
                    return Err("invalid value: map, expected map with a single key".to_string());
                }
                proof {
                    assert(entries_model(*fields)[0] == (fields@[0].0@, fields@[0].1.model()));
                }
                match Self::from_name(fields[0].0.as_str()) {
                    Some(x) => match &fields[0].1 {
                        JsonValue::Null => Ok(x),
                        _ => Err(make_type_error(&fields[0].1, "unit")),
                    },
                    None => {
                        let mut m = make_unknown_variant(fields[0].0.as_str());
                        m.append(", expected one of `always`, `cooperative`, `never`");
                        Err(m)
                    },
                }
            },
            _ => Err(make_type_error(v, "string or map")),
        }
    }
}

/// Size of additional area round the icon bounding box used for detecting symbol collisions.
#[derive(PartialEq, Debug, Clone)]
pub struct IconPadding(JsonValue);

impl View for IconPadding {
    type V = Json;

    closed spec fn view(&self) -> Json {
        self.0.model()
    }
}

impl JsonDecode for IconPadding {
    open spec fn accepts(v: Json) -> bool {
        true
    }

    open spec fn decodes(v: Json, x: Self) -> bool {
        v == x@
    }

    open spec fn rejection(v: Json) -> Seq<char> {
        JsonValue::rejection(v)
    }

    fn decode(v: &JsonValue) -> (r: Result<Self, String>) {
        match JsonValue::decode(v) {
            Ok(x) => Ok(IconPadding(x)),
            Err(e) => Err(e),
        }
    }
}

/// Orientation of icon when map is pitched.
#[derive(PartialEq, Eq, Debug, Clone, Copy)]
pub enum IconPitchAlignment {
    /// Automatically matches the value of `icon-rotation-alignment`.
    Auto,
    /// The icon is aligned to the plane of the map.
    MapValue,
    /// The icon is aligned to the plane of the viewport.
    Viewport,
}

impl IconPitchAlignment {
    /// The name that stands for the value in a style document.
    pub open spec fn spec_name(self) -> Seq<char> {
        match self {
            IconPitchAlignment::Auto => "auto"@,
            IconPitchAlignment::MapValue => "map"@,
            IconPitchAlignment::Viewport => "viewport"@,
        }
    }

    /// The name that stands for the value in a style document.
    pub fn name(&self) -> (r: &'static str)
        ensures
            r@ == self.spec_name(),
    {
        match self {
            IconPitchAlignment::Auto => "auto",
            IconPitchAlignment::MapValue => "map",
            IconPitchAlignment::Viewport => "viewport",
        }
    }

    /// The value that a name stands for, if any.
    pub fn from_name(s: &str) -> (r: Option<IconPitchAlignment>)
        ensures
            r matches Some(x) ==> x.spec_name() == s@,
            r is None ==> forall|x: IconPitchAlignment| x.spec_name() != s@,
    {
        if str_eq(s, "auto") {
            Some(IconPitchAlignment::Auto)
        } else if str_eq(s, "map") {
            Some(IconPitchAlignment::MapValue)
        } else if str_eq(s, "viewport") {
            Some(IconPitchAlignment::Viewport)
        } else {
            None
        }
    }
}

impl JsonDecode for IconPitchAlignment {
    /// The name of a value, or an object whose one entry has the name as its key and `null`.
    open spec fn accepts(v: Json) -> bool {
        ||| (v is Str && exists|x: IconPitchAlignment| x.spec_name() == v->Str_0)
        ||| (v is Object && v->Object_0.len() == 1 && v->Object_0[0].1 is Null && exists|x: IconPitchAlignment| x.spec_name() == v->Object_0[0].0)
    }

    open spec fn decodes(v: Json, x: Self) -> bool {
        ||| v == Json::Str(x.spec_name())
        ||| (v is Object && v->Object_0.len() == 1 && v->Object_0[0] == (x.spec_name(), Json::Null))
    }

    open spec fn rejection(v: Json) -> Seq<char> {
        if v is Str {
            unknown_variant(v->Str_0) + ", expected one of `auto`, `map`, `viewport`"@
        } else if v is Object {
            let o = v->Object_0;
            if o.len() != 1 {
                "invalid value: map, expected map with a single key"@
            } else if !(exists|x: IconPitchAlignment| x.spec_name() == o[0].0) {
                unknown_variant(o[0].0) + ", expected one of `auto`, `map`, `viewport`"@
            } else {
                type_error(o[0].1, "unit"@)
            }
        } else {
            type_error(v, "string or map"@)
        }
    }

    fn decode(v: &JsonValue) -> (r: Result<Self, String>) {
        match v {
            JsonValue::String(s) => match Self::from_name(s.as_str()) {
                Some(x) => Ok(x),
                None => {
                    let mut m = make_unknown_variant(s.as_str());
                    m.append(", expected one of `auto`, `map`, `viewport`");
                    Err(m)
                },
            },
            JsonValue::Object(fields) => {
                if fields.len() != 1 {
                    return Err("invalid value: map, expected map with a single key".to_string());
                }
                proof {
                    assert(entries_model(*fields)[0] == (fields@[0].0@, fields@[0].1.model()));
                }
                match Self::from_name(fields[0].0.as_str()) {
                    Some(x) => match &fields[0].1 {
                        JsonValue::Null => Ok(x),
                        _ => Err(make_type_error(&fields[0].1, "unit")),
                    },
                    None => {
                        let mut m = make_unknown_variant(fields[0].0.as_str());
                        m.append(", expected one of `auto`, `map`, `viewport`");
                        Err(m)
                    },
                }
            },
            _ => Err(make_type_error(v, "string or map")),
        }
    }
}

impl Default for IconPitchAlignment {
    fn default() -> (r: Self)
        ensures
            r == IconPitchAlignment::Auto,
    {
        IconPitchAlignment::Auto
    }
}

/// Rotates the icon clockwise.
///
/// Range: ..every 360
#[derive(PartialEq, Debug, Clone)]
pub struct IconRotate(JsonNumber);

impl View for IconRotate {
    type V = Seq<char>;

    closed spec fn view(&self) -> Seq<char> {
        self.0@
    }
}

impl JsonDecode for IconRotate {
    open spec fn accepts(v: Json) -> bool {
        v is Number
    }

    open spec fn decodes(v: Json, x: Self) -> bool {
        v == Json::Number(x@)
    }

    open spec fn rejection(v: Json) -> Seq<char> {
        JsonNumber::rejection(v)
    }

    fn decode(v: &JsonValue) -> (r: Result<Self, String>) {
        match JsonNumber::decode(v) {
            Ok(x) => Ok(IconRotate(x)),
            Err(e) => Err(e),
        }
    }
}

impl JsonEncode for IconRotate {
    open spec fn to_json(self) -> Json {
        Json::Number(self@)
    }

    open spec fn round_trips(self) -> bool {
        true
    }

    fn encode(&self) -> (r: JsonValue) {
        JsonNumber::encode(&self.0)
    }

    proof fn lemma_round_trip(self) {
        JsonNumber::lemma_round_trip(self.0);
    }
}

impl Default for IconRotate {
    fn default() -> (r: Self)
        ensures
            r.to_json() == Json::Number("0"@),
    {
        let r = IconRotate(JsonNumber::from_literal("0"));
        r
    }
}

/// In combination with `symbol-placement`, determines the rotation behavior of icons.
#[derive(PartialEq, Eq, Debug, Clone, Copy)]
pub enum IconRotationAlignment {
    /// When `symbol-placement` is set to `point`, this is equivalent to `viewport`. When `symbol-placement` is set to `line` or `line-center`, this is equivalent to `map`.
    Auto,
    /// When `symbol-placement` is set to `point`, aligns icons east-west. When `symbol-placement` is set to `line` or `line-center`, aligns icon x-axes with the line.
    MapValue,
    /// Produces icons whose x-axes are aligned with the x-axis of the viewport, regardless of the value of `symbol-placement`.
    Viewport,
}

impl IconRotationAlignment {
    /// The name that stands for the value in a style document.
    pub open spec fn spec_name(self) -> Seq<char> {
        match self {
            IconRotationAlignment::Auto => "auto"@,
            IconRotationAlignment::MapValue => "map"@,
            IconRotationAlignment::Viewport => "viewport"@,
        }
    }

    /// The name that stands for the value in a style document.
    pub fn name(&self) -> (r: &'static str)
        ensures
            r@ == self.spec_name(),
    {
        match self {
            IconRotationAlignment::Auto => "auto",
            IconRotationAlignment::MapValue => "map",
            IconRotationAlignment::Viewport => "viewport",
        }
    }

    /// The value that a name stands for, if any.
    pub fn from_name(s: &str) -> (r: Option<IconRotationAlignment>)
        ensures
            r matches Some(x) ==> x.spec_name() == s@,
            r is None ==> forall|x: IconRotationAlignment| x.spec_name() != s@,
    {
        if str_eq(s, "auto") {
            Some(IconRotationAlignment::Auto)
        } else if str_eq(s, "map") {
            Some(IconRotationAlignment::MapValue)
        } else if str_eq(s, "viewport") {
            Some(IconRotationAlignment::Viewport)
        } else {
            None
        }
    }
}

impl JsonDecode for IconRotationAlignment {
    /// The name of a value, or an object whose one entry has the name as its key and `null`.
    open spec fn accepts(v: Json) -> bool {
        ||| (v is Str && exists|x: IconRotationAlignment| x.spec_name() == v->Str_0)
        ||| (v is Object && v->Object_0.len() == 1 && v->Object_0[0].1 is Null && exists|x: IconRotationAlignment| x.spec_name() == v->Object_0[0].0)
    }

    open spec fn decodes(v: Json, x: Self) -> bool {
        ||| v == Json::Str(x.spec_name())
        ||| (v is Object && v->Object_0.len() == 1 && v->Object_0[0] == (x.spec_name(), Json::Null))
    }

    open spec fn rejection(v: Json) -> Seq<char> {
        if v is Str {
            unknown_variant(v->Str_0) + ", expected one of `auto`, `map`, `viewport`"@
        } else if v is Object {
            let o = v->Object_0;
            if o.len() != 1 {
                "invalid value: map, expected map with a single key"@
            } else if !(exists|x: IconRotationAlignment| x.spec_name() == o[0].0) {
                unknown_variant(o[0].0) + ", expected one of `auto`, `map`, `viewport`"@
            } else {
                type_error(o[0].1, "unit"@)
            }
        } else {
            type_error(v, "string or map"@)
        }
    }

    fn decode(v: &JsonValue) -> (r: Result<Self, String>) {
        match v {
            JsonValue::String(s) => match Self::from_name(s.as_str()) {
                Some(x) => Ok(x),
                None => {
                    let mut m = make_unknown_variant(s.as_str());
                    m.append(", expected one of `auto`, `map`, `viewport`");
                    Err(m)
                },
            },
            JsonValue::Object(fields) => {
                if fields.len() != 1 {
                    return Err("invalid value: map, expected map with a single key".to_string());
                }
                proof {
                    assert(entries_model(*fields)[0] == (fields@[0].0@, fields@[0].1.model()));
                }
                match Self::from_name(fields[0].0.as_str()) {
                    Some(x) => match &fields[0].1 {
                        JsonValue::Null => Ok(x),
                        _ => Err(make_type_error(&fields[0].1, "unit")),
                    },
                    None => {
                        let mut m = make_unknown_variant(fields[0].0.as_str());
                        m.append(", expected one of `auto`, `map`, `viewport`");
                        Err(m)
                    },
                }
            },
            _ => Err(make_type_error(v, "string or map")),
        }
    }
}

impl Default for IconRotationAlignment {
    fn default() -> (r: Self)
        ensures
            r == IconRotationAlignment::Auto,
    {
        IconRotationAlignment::Auto
    }
}

/// Scales the original size of the icon by the provided factor. The new pixel size of the image will be the original pixel size multiplied by `icon-size`. 1 is the original size; 3 triples the size of the image.
///
/// Range: 0..
#[derive(PartialEq, Debug, Clone)]
pub struct IconSize(JsonNumber);

impl View for IconSize {
    type V = Seq<char>;

    closed spec fn view(&self) -> Seq<char> {
        self.0@
    }
}

impl JsonDecode for IconSize {
    open spec fn accepts(v: Json) -> bool {
        v is Number
    }

    open spec fn decodes(v: Json, x: Self) -> bool {
        v == Json::Number(x@)
    }

    open spec fn rejection(v: Json) -> Seq<char> {
        JsonNumber::rejection(v)
    }

    fn decode(v: &JsonValue) -> (r: Result<Self, String>) {
        match JsonNumber::decode(v) {
            Ok(x) => Ok(IconSize(x)),
            Err(e) => Err(e),
        }
    }
}

impl JsonEncode for IconSize {
    open spec fn to_json(self) -> Json {
        Json::Number(self@)
    }

    open spec fn round_trips(self) -> bool {
        true
    }

    fn encode(&self) -> (r: JsonValue) {
        JsonNumber::encode(&self.0)
    }

    proof fn lemma_round_trip(self) {
        JsonNumber::lemma_round_trip(self.0);
    }
}

impl Default for IconSize {
    fn default() -> (r: Self)
        ensures
            r.to_json() == Json::Number("1"@),
    {
        let r = IconSize(JsonNumber::from_literal("1"));
        r
    }
}

/// Scales the icon to fit around the associated text.
#[derive(PartialEq, Eq, Debug, Clone, Copy)]
pub enum IconTextFit {
    /// The icon is scaled in both x- and y-dimensions.
    Both,
    /// The icon is scaled in the y-dimension to fit the height of the text.
    Height,
    /// The icon is displayed at its intrinsic aspect ratio.
    NoneValue,
    /// The icon is scaled in the x-dimension to fit the width of the text.
    Width,
}

impl IconTextFit {
    /// The name that stands for the value in a style document.
    pub open spec fn spec_name(self) -> Seq<char> {
        match self {
            IconTextFit::Both => "both"@,
            IconTextFit::Height => "height"@,
            IconTextFit::NoneValue => "none"@,
            IconTextFit::Width => "width"@,
        }
    }

    /// The name that stands for the value in a style document.
    pub fn name(&self) -> (r: &'static str)
        ensures
            r@ == self.spec_name(),
    {
        match self {
            IconTextFit::Both => "both",
            IconTextFit::Height => "height",
            IconTextFit::NoneValue => "none",
            IconTextFit::Width => "width",
        }
    }

    /// The value that a name stands for, if any.
    pub fn from_name(s: &str) -> (r: Option<IconTextFit>)
        ensures
            r matches Some(x) ==> x.spec_name() == s@,
            r is None ==> forall|x: IconTextFit| x.spec_name() != s@,
    {
        if str_eq(s, "both") {
            Some(IconTextFit::Both)
        } else if str_eq(s, "height") {
            Some(IconTextFit::Height)
        } else if str_eq(s, "none") {
            Some(IconTextFit::NoneValue)
        } else if str_eq(s, "width") {
            Some(IconTextFit::Width)
        } else {
            None
        }
    }
}

impl JsonDecode for IconTextFit {
    /// The name of a value, or an object whose one entry has the name as its key and `null`.
    open spec fn accepts(v: Json) -> bool {
        ||| (v is Str && exists|x: IconTextFit| x.spec_name() == v->Str_0)
        ||| (v is Object && v->Object_0.len() == 1 && v->Object_0[0].1 is Null && exists|x: IconTextFit| x.spec_name() == v->Object_0[0].0)
    }

    open spec fn decodes(v: Json, x: Self) -> bool {
        ||| v == Json::Str(x.spec_name())
        ||| (v is Object && v->Object_0.len() == 1 && v->Object_0[0] == (x.spec_name(), Json::Null))
    }

    open spec fn rejection(v: Json) -> Seq<char> {
        if v is Str {
            unknown_variant(v->Str_0) + ", expected one of `both`, `height`, `none`, `width`"@
        } else if v is Object {
            let o = v->Object_0;
            if o.len() != 1 {
                "invalid value: map, expected map with a single key"@
            } else if !(exists|x: IconTextFit| x.spec_name() == o[0].0) {
                unknown_variant(o[0].0) + ", expected one of `both`, `height`, `none`, `width`"@
            } else {
                type_error(o[0].1, "unit"@)
            }
        } else {
            type_error(v, "string or map"@)
        }
    }

    fn decode(v: &JsonValue) -> (r: Result<Self, String>) {
        match v {
            JsonValue::String(s) => match Self::from_name(s.as_str()) {
                Some(x) => Ok(x),
                None => {
                    let mut m = make_unknown_variant(s.as_str());
                    m.append(", expected one of `both`, `height`, `none`, `width`");
                    Err(m)
                },
            },
            JsonValue::Object(fields) => {
                if fields.len() != 1 {
                    return Err("invalid value: map, expected map with a single key".to_string());
                }
                proof {
                    assert(entries_model(*fields)[0] == (fields@[0].0@, fields@[0].1.model()));
                }
                match Self::from_name(fields[0].0.as_str()) {
                    Some(x) => match &fields[0].1 {
                        JsonValue::Null => Ok(x),
                        _ => Err(make_type_error(&fields[0].1, "unit")),
                    },
                    None => {
                        let mut m = make_unknown_variant(fields[0].0.as_str());
                        m.append(", expected one of `both`, `height`, `none`, `width`");
                        Err(m)
                    },
                }
            },
            _ => Err(make_type_error(v, "string or map")),
        }
    }
}

impl Default for IconTextFit {
    fn default() -> (r: Self)
        ensures
            r == IconTextFit::NoneValue,
    {
        IconTextFit::NoneValue
    }
}

/// Size of the additional area added to dimensions determined by `icon-text-fit`, in clockwise order: top, right, bottom, left.
#[derive(PartialEq, Debug, Clone)]
pub struct IconTextFitPadding(JsonValue);

impl View for IconTextFitPadding {
    type V = Json;

    closed spec fn view(&self) -> Json {
        self.0.model()
    }
}

impl JsonDecode for IconTextFitPadding {
    open spec fn accepts(v: Json) -> bool {
        true
    }

    open spec fn decodes(v: Json, x: Self) -> bool {
        v == x@
    }

    open spec fn rejection(v: Json) -> Seq<char> {
        JsonValue::rejection(v)
    }

    fn decode(v: &JsonValue) -> (r: Result<Self, String>) {
        match JsonValue::decode(v) {
            Ok(x) => Ok(IconTextFitPadding(x)),
            Err(e) => Err(e),
        }
    }
}

/// If true, the symbols will not cross tile edges to avoid mutual collisions. Recommended in layers that don't have enough padding in the vector tile to prevent collisions, or if it is a point symbol layer placed after a line symbol layer. When using a client that supports global collision detection, like MapLibre GL JS version 0.42.0 or greater, enabling this property is not needed to prevent clipped labels at tile boundaries.
#[derive(PartialEq, Debug, Clone)]
pub struct SymbolAvoidEdges(JsonValue);

impl View for SymbolAvoidEdges {
    type V = Json;

    closed spec fn view(&self) -> Json {
        self.0.model()
    }
}

impl JsonDecode for SymbolAvoidEdges {
    open spec fn accepts(v: Json) -> bool {
        true
    }

    open spec fn decodes(v: Json, x: Self) -> bool {
        v == x@
    }

    open spec fn rejection(v: Json) -> Seq<char> {
        JsonValue::rejection(v)
    }

    fn decode(v: &JsonValue) -> (r: Result<Self, String>) {
        match JsonValue::decode(v) {
            Ok(x) => Ok(SymbolAvoidEdges(x)),
            Err(e) => Err(e),
        }
    }
}

/// Label placement relative to its geometry.
#[derive(PartialEq, Eq, Debug, Clone, Copy)]
pub enum SymbolPlacement {
    /// The label is placed along the line of the geometry. Can only be used on `LineString` and `Polygon` geometries.
    Line,
    /// The label is placed at the center of the line of the geometry. Can only be used on `LineString` and `Polygon` geometries. Note that a single feature in a vector tile may contain multiple line geometries.
    LineCenter,
    /// The label is placed at the point where the geometry is located.
    Point,
}

impl SymbolPlacement {
    /// The name that stands for the value in a style document.
    pub open spec fn spec_name(self) -> Seq<char> {
        match self {
            SymbolPlacement::Line => "line"@,
            SymbolPlacement::LineCenter => "line-center"@,
            SymbolPlacement::Point => "point"@,
        }
    }

    /// The name that stands for the value in a style document.
    pub fn name(&self) -> (r: &'static str)
        ensures
            r@ == self.spec_name(),
    {
        match self {
            SymbolPlacement::Line => "line",
            SymbolPlacement::LineCenter => "line-center",
            SymbolPlacement::Point => "point",
        }
    }

    /// The value that a name stands for, if any.
    pub fn from_name(s: &str) -> (r: Option<SymbolPlacement>)
        ensures
            r matches Some(x) ==> x.spec_name() == s@,
            r is None ==> forall|x: SymbolPlacement| x.spec_name() != s@,
    {
        if str_eq(s, "line") {
            Some(SymbolPlacement::Line)
        } else if str_eq(s, "line-center") {
            Some(SymbolPlacement::LineCenter)
        } else if str_eq(s, "point") {
            Some(SymbolPlacement::Point)
        } else {
            None
        }
    }
}

impl JsonDecode for SymbolPlacement {
    /// The name of a value, or an object whose one entry has the name as its key and `null`.
    open spec fn accepts(v: Json) -> bool {
        ||| (v is Str && exists|x: SymbolPlacement| x.spec_name() == v->Str_0)
        ||| (v is Object && v->Object_0.len() == 1 && v->Object_0[0].1 is Null && exists|x: SymbolPlacement| x.spec_name() == v->Object_0[0].0)
    }

    open spec fn decodes(v: Json, x: Self) -> bool {
        ||| v == Json::Str(x.spec_name())
        ||| (v is Object && v->Object_0.len() == 1 && v->Object_0[0] == (x.spec_name(), Json::Null))
    }

    open spec fn rejection(v: Json) -> Seq<char> {
        if v is Str {
            unknown_variant(v->Str_0) + ", expected one of `line`, `line-center`, `point`"@
        } else if v is Object {
            let o = v->Object_0;
            if o.len() != 1 {
                "invalid value: map, expected map with a single key"@
            } else if !(exists|x: SymbolPlacement| x.spec_name() == o[0].0) {
                unknown_variant(o[0].0) + ", expected one of `line`, `line-center`, `point`"@
            } else {
                type_error(o[0].1, "unit"@)
            }
        } else {
            type_error(v, "string or map"@)
        }
    }

    fn decode(v: &JsonValue) -> (r: Result<Self, String>) {
        match v {
            JsonValue::String(s) => match Self::from_name(s.as_str()) {
                Some(x) => Ok(x),
                None => {
                    let mut m = make_unknown_variant(s.as_str());
                    m.append(", expected one of `line`, `line-center`, `point`");
                    Err(m)
                },
            },
            JsonValue::Object(fields) => {
                if fields.len() != 1 {
                    return Err("invalid value: map, expected map with a single key".to_string());
                }
                proof {
                    assert(entries_model(*fields)[0] == (fields@[0].0@, fields@[0].1.model()));
                }
                match Self::from_name(fields[0].0.as_str()) {
                    Some(x) => match &fields[0].1 {
                        JsonValue::Null => Ok(x),
                        _ => Err(make_type_error(&fields[0].1, "unit")),
                    },
                    None => {
                        let mut m = make_unknown_variant(fields[0].0.as_str());
                        m.append(", expected one of `line`, `line-center`, `point`");
                        Err(m)
                    },
                }
            },
            _ => Err(make_type_error(v, "string or map")),
        }
    }
}

impl Default for SymbolPlacement {
    fn default() -> (r: Self)
        ensures
            r == SymbolPlacement::Point,
    {
        SymbolPlacement::Point
    }
}

/// Sorts features in ascending order based on this value. Features with lower sort keys are drawn and placed first.  When `icon-allow-overlap` or `text-allow-overlap` is `false`, features with a lower sort key will have priority during placement. When `icon-allow-overlap` or `text-allow-overlap` is set to `true`, features with a higher sort key will overlap over features with a lower sort key.
#[derive(PartialEq, Debug, Clone)]
pub struct SymbolSortKey(JsonNumber);

impl View for SymbolSortKey {
    type V = Seq<char>;

    closed spec fn view(&self) -> Seq<char> {
        self.0@
    }
}

impl JsonDecode for SymbolSortKey {
    open spec fn accepts(v: Json) -> bool {
        v is Number
    }

    open spec fn decodes(v: Json, x: Self) -> bool {
        v == Json::Number(x@)
    }

    open spec fn rejection(v: Json) -> Seq<char> {
        JsonNumber::rejection(v)
    }

    fn decode(v: &JsonValue) -> (r: Result<Self, String>) {
        match JsonNumber::decode(v) {
            Ok(x) => Ok(SymbolSortKey(x)),
            Err(e) => Err(e),
        }
    }
}

/// Distance between two symbol anchors.
///
/// Range: 1..
#[derive(PartialEq, Debug, Clone)]
pub struct SymbolSpacing(JsonNumber);

impl View for SymbolSpacing {
    type V = Seq<char>;

    closed spec fn view(&self) -> Seq<char> {
        self.0@
    }
}

impl JsonDecode for SymbolSpacing {
    open spec fn accepts(v: Json) -> bool {
        v is Number
    }

    open spec fn decodes(v: Json, x: Self) -> bool {
        v == Json::Number(x@)
    }

    open spec fn rejection(v: Json) -> Seq<char> {
        JsonNumber::rejection(v)
    }

    fn decode(v: &JsonValue) -> (r: Result<Self, String>) {
        match JsonNumber::decode(v) {
            Ok(x) => Ok(SymbolSpacing(x)),
            Err(e) => Err(e),
        }
    }
}

impl JsonEncode for SymbolSpacing {
    open spec fn to_json(self) -> Json {
        Json::Number(self@)
    }

    open spec fn round_trips(self) -> bool {
        true
    }

    fn encode(&self) -> (r: JsonValue) {
        JsonNumber::encode(&self.0)
    }

    proof fn lemma_round_trip(self) {
        JsonNumber::lemma_round_trip(self.0);
    }
}

impl Default for SymbolSpacing {
    fn default() -> (r: Self)
        ensures
            r.to_json() == Json::Number("250"@),
    {
        let r = SymbolSpacing(JsonNumber::from_literal("250"));
        r
    }
}

/// Determines whether overlapping symbols in the same layer are rendered in the order that they appear in the data source or by their y-position relative to the viewport. To control the order and prioritization of symbols otherwise, use `symbol-sort-key`.
#[derive(PartialEq, Eq, Debug, Clone, Copy)]
pub enum SymbolZOrder {
    /// Sorts symbols by `symbol-sort-key` if set. Otherwise, sorts symbols by their y-position relative to the viewport if `icon-allow-overlap` or `text-allow-overlap` is set to `true` or `icon-ignore-placement` or `text-ignore-placement` is `false`.
    Auto,
    /// Sorts symbols by `symbol-sort-key` if set. Otherwise, no sorting is applied; symbols are rendered in the same order as the source data.
    Source,
    /// Sorts symbols by their y-position relative to the viewport if `icon-allow-overlap` or `text-allow-overlap` is set to `true` or `icon-ignore-placement` or `text-ignore-placement` is `false`.
    ViewportY,
}

impl SymbolZOrder {
    /// The name that stands for the value in a style document.
    pub open spec fn spec_name(self) -> Seq<char> {
        match self {
            SymbolZOrder::Auto => "auto"@,
            SymbolZOrder::Source => "source"@,
            SymbolZOrder::ViewportY => "viewport-y"@,
        }
    }

    /// The name that stands for the value in a style document.
    pub fn name(&self) -> (r: &'static str)
        ensures
            r@ == self.spec_name(),
    {
        match self {
            SymbolZOrder::Auto => "auto",
            SymbolZOrder::Source => "source",
            SymbolZOrder::ViewportY => "viewport-y",
        }
    }

    /// The value that a name stands for, if any.
    pub fn from_name(s: &str) -> (r: Option<SymbolZOrder>)
        ensures
            r matches Some(x) ==> x.spec_name() == s@,
            r is None ==> forall|x: SymbolZOrder| x.spec_name() != s@,
    {
        if str_eq(s, "auto") {
            Some(SymbolZOrder::Auto)
        } else if str_eq(s, "source") {
            Some(SymbolZOrder::Source)
        } else if str_eq(s, "viewport-y") {
            Some(SymbolZOrder::ViewportY)
        } else {
            None
        }
    }
}

impl JsonDecode for SymbolZOrder {
    /// The name of a value, or an object whose one entry has the name as its key and `null`.
    open spec fn accepts(v: Json) -> bool {
        ||| (v is Str && exists|x: SymbolZOrder| x.spec_name() == v->Str_0)
        ||| (v is Object && v->Object_0.len() == 1 && v->Object_0[0].1 is Null && exists|x: SymbolZOrder| x.spec_name() == v->Object_0[0].0)
    }

    open spec fn decodes(v: Json, x: Self) -> bool {
        ||| v == Json::Str(x.spec_name())
        ||| (v is Object && v->Object_0.len() == 1 && v->Object_0[0] == (x.spec_name(), Json::Null))
    }

    open spec fn rejection(v: Json) -> Seq<char> {
        if v is Str {
            unknown_variant(v->Str_0) + ", expected one of `auto`, `source`, `viewport-y`"@
        } else if v is Object {
            let o = v->Object_0;
            if o.len() != 1 {
                "invalid value: map, expected map with a single key"@
            } else if !(exists|x: SymbolZOrder| x.spec_name() == o[0].0) {
                unknown_variant(o[0].0) + ", expected one of `auto`, `source`, `viewport-y`"@
            } else {
                type_error(o[0].1, "unit"@)
            }
        } else {
            type_error(v, "string or map"@)
        }
    }

    fn decode(v: &JsonValue) -> (r: Result<Self, String>) {
        match v {
            JsonValue::String(s) => match Self::from_name(s.as_str()) {
                Some(x) => Ok(x),
                None => {
                    let mut m = make_unknown_variant(s.as_str());
                    m.append(", expected one of `auto`, `source`, `viewport-y`");
                    Err(m)
                },
            },
            JsonValue::Object(fields) => {
                if fields.len() != 1 {
                    return Err("invalid value: map, expected map with a single key".to_string());
                }
                proof {
                    assert(entries_model(*fields)[0] == (fields@[0].0@, fields@[0].1.model()));
                }
                match Self::from_name(fields[0].0.as_str()) {
                    Some(x) => match &fields[0].1 {
                        JsonValue::Null => Ok(x),
                        _ => Err(make_type_error(&fields[0].1, "unit")),
                    },
                    None => {
                        let mut m = make_unknown_variant(fields[0].0.as_str());
                        m.append(", expected one of `auto`, `source`, `viewport-y`");
                        Err(m)
                    },
                }
            },
            _ => Err(make_type_error(v, "string or map")),
        }
    }
}

impl Default for SymbolZOrder {
    fn default() -> (r: Self)
        ensures
            r == SymbolZOrder::Auto,
    {
        SymbolZOrder::Auto
    }
}

/// If true, the text will be visible even if it collides with other previously drawn symbols.
#[derive(PartialEq, Debug, Clone)]
pub struct TextAllowOverlap(JsonValue);

impl View for TextAllowOverlap {
    type V = Json;

    closed spec fn view(&self) -> Json {
        self.0.model()
    }
}

impl JsonDecode for TextAllowOverlap {
    open spec fn accepts(v: Json) -> bool {
        true
    }

    open spec fn decodes(v: Json, x: Self) -> bool {
        v == x@
    }

    open spec fn rejection(v: Json) -> Seq<char> {
        JsonValue::rejection(v)
    }

    fn decode(v: &JsonValue) -> (r: Result<Self, String>) {
        match JsonValue::decode(v) {
            Ok(x) => Ok(TextAllowOverlap(x)),
            Err(e) => Err(e),
        }
    }
}

/// Part of the text placed closest to the anchor.
#[derive(PartialEq, Eq, Debug, Clone, Copy)]
pub enum TextAnchor {
    /// The bottom of the text is placed closest to the anchor.
    Bottom,
    /// The bottom left corner of the text is placed closest to the anchor.
    BottomLeft,
    /// The bottom right corner of the text is placed closest to the anchor.
    BottomRight,
    /// The center of the text is placed closest to the anchor.
    Center,
    /// The left side of the text is placed closest to the anchor.
    Left,
    /// The right side of the text is placed closest to the anchor.
    Right,
    /// The top of the text is placed closest to the anchor.
    Top,
    /// The top left corner of the text is placed closest to the anchor.
    TopLeft,
    /// The top right corner of the text is placed closest to the anchor.
    TopRight,
}

impl TextAnchor {
    /// The name that stands for the value in a style document.
    pub open spec fn spec_name(self) -> Seq<char> {
        match self {
            TextAnchor::Bottom => "bottom"@,
            TextAnchor::BottomLeft => "bottom-left"@,
            TextAnchor::BottomRight => "bottom-right"@,
            TextAnchor::Center => "center"@,
            TextAnchor::Left => "left"@,
            TextAnchor::Right => "right"@,
            TextAnchor::Top => "top"@,
            TextAnchor::TopLeft => "top-left"@,
            TextAnchor::TopRight => "top-right"@,
        }
    }

    /// The name that stands for the value in a style document.
    pub fn name(&self) -> (r: &'static str)
        ensures
            r@ == self.spec_name(),
    {
        match self {
            TextAnchor::Bottom => "bottom",
            TextAnchor::BottomLeft => "bottom-left",
            TextAnchor::BottomRight => "bottom-right",
            TextAnchor::Center => "center",
            TextAnchor::Left => "left",
            TextAnchor::Right => "right",
            TextAnchor::Top => "top",
            TextAnchor::TopLeft => "top-left",
            TextAnchor::TopRight => "top-right",
        }
    }

    /// The value that a name stands for, if any.
    pub fn from_name(s: &str) -> (r: Option<TextAnchor>)
        ensures
            r matches Some(x) ==> x.spec_name() == s@,
            r is None ==> forall|x: TextAnchor| x.spec_name() != s@,
    {
        if str_eq(s, "bottom") {
            Some(TextAnchor::Bottom)
        } else if str_eq(s, "bottom-left") {
            Some(TextAnchor::BottomLeft)
        } else if str_eq(s, "bottom-right") {
            Some(TextAnchor::BottomRight)
        } else if str_eq(s, "center") {
            Some(TextAnchor::Center)
        } else if str_eq(s, "left") {
            Some(TextAnchor::Left)
        } else if str_eq(s, "right") {
            Some(TextAnchor::Right)
        } else if str_eq(s, "top") {
            Some(TextAnchor::Top)
        } else if str_eq(s, "top-left") {
            Some(TextAnchor::TopLeft)
        } else if str_eq(s, "top-right") {
            Some(TextAnchor::TopRight)
        } else {
            None
        }
    }
}

impl JsonDecode for TextAnchor {
    /// The name of a value, or an object whose one entry has the name as its key and `null`.
    open spec fn accepts(v: Json) -> bool {
        ||| (v is Str && exists|x: TextAnchor| x.spec_name() == v->Str_0)
        ||| (v is Object && v->Object_0.len() == 1 && v->Object_0[0].1 is Null && exists|x: TextAnchor| x.spec_name() == v->Object_0[0].0)
    }

    open spec fn decodes(v: Json, x: Self) -> bool {
        ||| v == Json::Str(x.spec_name())
        ||| (v is Object && v->Object_0.len() == 1 && v->Object_0[0] == (x.spec_name(), Json::Null))
    }

    open spec fn rejection(v: Json) -> Seq<char> {
        if v is Str {
            unknown_variant(v->Str_0) + ", expected one of `bottom`, `bottom-left`, `bottom-right`, `center`, `left`, `right`, `top`, `top-left`, `top-right`"@
        } else if v is Object {
            let o = v->Object_0;
            if o.len() != 1 {
                "invalid value: map, expected map with a single key"@
            } else if !(exists|x: TextAnchor| x.spec_name() == o[0].0) {
                unknown_variant(o[0].0) + ", expected one of `bottom`, `bottom-left`, `bottom-right`, `center`, `left`, `right`, `top`, `top-left`, `top-right`"@
            } else {
                type_error(o[0].1, "unit"@)
            }
        } else {
            type_error(v, "string or map"@)
        }
    }

    fn decode(v: &JsonValue) -> (r: Result<Self, String>) {
        match v {
            JsonValue::String(s) => match Self::from_name(s.as_str()) {
                Some(x) => Ok(x),
                None => {
                    let mut m = make_unknown_variant(s.as_str());
                    m.append(", expected one of `bottom`, `bottom-left`, `bottom-right`, `center`, `left`, `right`, `top`, `top-left`, `top-right`");
                    Err(m)
                },
            },
            JsonValue::Object(fields) => {
                if fields.len() != 1 {
                    return Err("invalid value: map, expected map with a single key".to_string());
                }
                proof {
                    assert(entries_model(*fields)[0] == (fields@[0].0@, fields@[0].1.model()));
                }
                match Self::from_name(fields[0].0.as_str()) {
                    Some(x) => match &fields[0].1 {
                        JsonValue::Null => Ok(x),
                        _ => Err(make_type_error(&fields[0].1, "unit")),
                    },
                    None => {
                        let mut m = make_unknown_variant(fields[0].0.as_str());
                        m.append(", expected one of `bottom`, `bottom-left`, `bottom-right`, `center`, `left`, `right`, `top`, `top-left`, `top-right`");
                        Err(m)
                    },
                }
            },
            _ => Err(make_type_error(v, "string or map")),
        }
    }
}

impl Default for TextAnchor {
    fn default() -> (r: Self)
        ensures
            r == TextAnchor::Center,
    {
        TextAnchor::Center
    }
}

/// Value to use for a text label. If a plain `string` is provided, it will be treated as a `formatted` with default/inherited formatting options.
#[derive(PartialEq, Debug, Clone)]
pub struct TextField(JsonValue);

impl View for TextField {
    type V = Json;

    closed spec fn view(&self) -> Json {
        self.0.model()
    }
}

impl JsonDecode for TextField {
    open spec fn accepts(v: Json) -> bool {
        true
    }

    open spec fn decodes(v: Json, x: Self) -> bool {
        v == x@
    }

    open spec fn rejection(v: Json) -> Seq<char> {
        JsonValue::rejection(v)
    }

    fn decode(v: &JsonValue) -> (r: Result<Self, String>) {
        match JsonValue::decode(v) {
            Ok(x) => Ok(TextField(x)),
            Err(e) => Err(e),
        }
    }
}

/// Fonts to use for displaying text. If the `glyphs` root property is specified, this array is joined together and interpreted as a font stack name. Otherwise, it is interpreted as a cascading fallback list of local font names.
#[derive(PartialEq, Debug, Clone)]
pub struct TextFont(JsonValue);

impl View for TextFont {
    type V = Json;

    closed spec fn view(&self) -> Json {
        self.0.model()
    }
}

impl JsonDecode for TextFont {
    open spec fn accepts(v: Json) -> bool {
        true
    }

    open spec fn decodes(v: Json, x: Self) -> bool {
        v == x@
    }

    open spec fn rejection(v: Json) -> Seq<char> {
        JsonValue::rejection(v)
    }

    fn decode(v: &JsonValue) -> (r: Result<Self, String>) {
        match JsonValue::decode(v) {
            Ok(x) => Ok(TextFont(x)),
            Err(e) => Err(e),
        }
    }
}

/// If true, other symbols can be visible even if they collide with the text.
#[derive(PartialEq, Debug, Clone)]
pub struct TextIgnorePlacement(JsonValue);

impl View for TextIgnorePlacement {
    type V = Json;

    closed spec fn view(&self) -> Json {
        self.0.model()
    }
}

impl JsonDecode for TextIgnorePlacement {
    open spec fn accepts(v: Json) -> bool {
        true
    }

    open spec fn decodes(v: Json, x: Self) -> bool {
        v == x@
    }

    open spec fn rejection(v: Json) -> Seq<char> {
        JsonValue::rejection(v)
    }

    fn decode(v: &JsonValue) -> (r: Result<Self, String>) {
        match JsonValue::decode(v) {
            Ok(x) => Ok(TextIgnorePlacement(x)),
            Err(e) => Err(e),
        }
    }
}

/// Text justification options.
#[derive(PartialEq, Eq, Debug, Clone, Copy)]
pub enum TextJustify {
    /// The text is aligned towards the anchor position.
    Auto,
    /// The text is centered.
    Center,
    /// The text is aligned to the left.
    Left,
    /// The text is aligned to the right.
    Right,
}

impl TextJustify {
    /// The name that stands for the value in a style document.
    pub open spec fn spec_name(self) -> Seq<char> {
        match self {
            TextJustify::Auto => "auto"@,
            TextJustify::Center => "center"@,
            TextJustify::Left => "left"@,
            TextJustify::Right => "right"@,
        }
    }

    /// The name that stands for the value in a style document.
    pub fn name(&self) -> (r: &'static str)
        ensures
            r@ == self.spec_name(),
    {
        match self {
            TextJustify::Auto => "auto",
            TextJustify::Center => "center",
            TextJustify::Left => "left",
            TextJustify::Right => "right",
        }
    }

    /// The value that a name stands for, if any.
    pub fn from_name(s: &str) -> (r: Option<TextJustify>)
        ensures
            r matches Some(x) ==> x.spec_name() == s@,
            r is None ==> forall|x: TextJustify| x.spec_name() != s@,
    {
        if str_eq(s, "auto") {
            Some(TextJustify::Auto)
        } else if str_eq(s, "center") {
            Some(TextJustify::Center)
        } else if str_eq(s, "left") {
            Some(TextJustify::Left)
        } else if str_eq(s, "right") {
            Some(TextJustify::Right)
        } else {
            None
        }
    }
}

impl JsonDecode for TextJustify {
    /// The name of a value, or an object whose one entry has the name as its key and `null`.
    open spec fn accepts(v: Json) -> bool {
        ||| (v is Str && exists|x: TextJustify| x.spec_name() == v->Str_0)
        ||| (v is Object && v->Object_0.len() == 1 && v->Object_0[0].1 is Null && exists|x: TextJustify| x.spec_name() == v->Object_0[0].0)
    }

    open spec fn decodes(v: Json, x: Self) -> bool {
        ||| v == Json::Str(x.spec_name())
        ||| (v is Object && v->Object_0.len() == 1 && v->Object_0[0] == (x.spec_name(), Json::Null))
    }

    open spec fn rejection(v: Json) -> Seq<char> {
        if v is Str {
            unknown_variant(v->Str_0) + ", expected one of `auto`, `center`, `left`, `right`"@
        } else if v is Object {
            let o = v->Object_0;
            if o.len() != 1 {
                "invalid value: map, expected map with a single key"@
            } else if !(exists|x: TextJustify| x.spec_name() == o[0].0) {
                unknown_variant(o[0].0) + ", expected one of `auto`, `center`, `left`, `right`"@
            } else {
                type_error(o[0].1, "unit"@)
            }
        } else {
            type_error(v, "string or map"@)
        }
    }

    fn decode(v: &JsonValue) -> (r: Result<Self, String>) {
        match v {
            JsonValue::String(s) => match Self::from_name(s.as_str()) {
                Some(x) => Ok(x),
                None => {
                    let mut m = make_unknown_variant(s.as_str());
                    m.append(", expected one of `auto`, `center`, `left`, `right`");
                    Err(m)
                },
            },
            JsonValue::Object(fields) => {
                if fields.len() != 1 {
                    return Err("invalid value: map, expected map with a single key".to_string());
                }
                proof {
                    assert(entries_model(*fields)[0] == (fields@[0].0@, fields@[0].1.model()));
                }
                match Self::from_name(fields[0].0.as_str()) {
                    Some(x) => match &fields[0].1 {
                        JsonValue::Null => Ok(x),
                        _ => Err(make_type_error(&fields[0].1, "unit")),
                    },
                    None => {
                        let mut m = make_unknown_variant(fields[0].0.as_str());
                        m.append(", expected one of `auto`, `center`, `left`, `right`");
                        Err(m)
                    },
                }
            },
            _ => Err(make_type_error(v, "string or map")),
        }
    }
}

impl Default for TextJustify {
    fn default() -> (r: Self)
        ensures
            r == TextJustify::Center,
    {
        TextJustify::Center
    }
}

/// If true, the text may be flipped vertically to prevent it from being rendered upside-down.
#[derive(PartialEq, Debug, Clone)]
pub struct TextKeepUpright(JsonValue);

impl View for TextKeepUpright {
    type V = Json;

    closed spec fn view(&self) -> Json {
        self.0.model()
    }
}

impl JsonDecode for TextKeepUpright {
    open spec fn accepts(v: Json) -> bool {
        true
    }

    open spec fn decodes(v: Json, x: Self) -> bool {
        v == x@
    }

    open spec fn rejection(v: Json) -> Seq<char> {
        JsonValue::rejection(v)
    }

    fn decode(v: &JsonValue) -> (r: Result<Self, String>) {
        match JsonValue::decode(v) {
            Ok(x) => Ok(TextKeepUpright(x)),
            Err(e) => Err(e),
        }
    }
}

/// Text tracking amount.
#[derive(PartialEq, Debug, Clone)]
pub struct TextLetterSpacing(JsonNumber);

impl View for TextLetterSpacing {
    type V = Seq<char>;

    closed spec fn view(&self) -> Seq<char> {
        self.0@
    }
}

impl JsonDecode for TextLetterSpacing {
    open spec fn accepts(v: Json) -> bool {
        v is Number
    }

    open spec fn decodes(v: Json, x: Self) -> bool {
        v == Json::Number(x@)
    }

    open spec fn rejection(v: Json) -> Seq<char> {
        JsonNumber::rejection(v)
    }

    fn decode(v: &JsonValue) -> (r: Result<Self, String>) {
        match JsonNumber::decode(v) {
            Ok(x) => Ok(TextLetterSpacing(x)),
            Err(e) => Err(e),
        }
    }
}

impl JsonEncode for TextLetterSpacing {
    open spec fn to_json(self) -> Json {
        Json::Number(self@)
    }

    open spec fn round_trips(self) -> bool {
        true
    }

    fn encode(&self) -> (r: JsonValue) {
        JsonNumber::encode(&self.0)
    }

    proof fn lemma_round_trip(self) {
        JsonNumber::lemma_round_trip(self.0);
    }
}

impl Default for TextLetterSpacing {
    fn default() -> (r: Self)
        ensures
            r.to_json() == Json::Number("0"@),
    {
        let r = TextLetterSpacing(JsonNumber::from_literal("0"));
        r
    }
}

/// Text leading value for multi-line text.
#[derive(PartialEq, Debug, Clone)]
pub struct TextLineHeight(JsonNumber);

impl View for TextLineHeight {
    type V = Seq<char>;

    closed spec fn view(&self) -> Seq<char> {
        self.0@
    }
}

impl JsonDecode for TextLineHeight {
    open spec fn accepts(v: Json) -> bool {
        v is Number
    }

    open spec fn decodes(v: Json, x: Self) -> bool {
        v == Json::Number(x@)
    }

    open spec fn rejection(v: Json) -> Seq<char> {
        JsonNumber::rejection(v)
    }

    fn decode(v: &JsonValue) -> (r: Result<Self, String>) {
        match JsonNumber::decode(v) {
            Ok(x) => Ok(TextLineHeight(x)),
            Err(e) => Err(e),
        }
    }
}

/// Maximum angle change between adjacent characters.
#[derive(PartialEq, Debug, Clone)]
pub struct TextMaxAngle(JsonNumber);

impl View for TextMaxAngle {
    type V = Seq<char>;

    closed spec fn view(&self) -> Seq<char> {
        self.0@
    }
}

impl JsonDecode for TextMaxAngle {
    open spec fn accepts(v: Json) -> bool {
        v is Number
    }

    open spec fn decodes(v: Json, x: Self) -> bool {
        v == Json::Number(x@)
    }

    open spec fn rejection(v: Json) -> Seq<char> {
        JsonNumber::rejection(v)
    }

    fn decode(v: &JsonValue) -> (r: Result<Self, String>) {
        match JsonNumber::decode(v) {
            Ok(x) => Ok(TextMaxAngle(x)),
            Err(e) => Err(e),
        }
    }
}

impl JsonEncode for TextMaxAngle {
    open spec fn to_json(self) -> Json {
        Json::Number(self@)
    }

    open spec fn round_trips(self) -> bool {
        true
    }

    fn encode(&self) -> (r: JsonValue) {
        JsonNumber::encode(&self.0)
    }

    proof fn lemma_round_trip(self) {
        JsonNumber::lemma_round_trip(self.0);
    }
}

impl Default for TextMaxAngle {
    fn default() -> (r: Self)
        ensures
            r.to_json() == Json::Number("45"@),
    {
        let r = TextMaxAngle(JsonNumber::from_literal("45"));
        r
    }
}

/// The maximum line width for text wrapping.
///
/// Range: 0..
#[derive(PartialEq, Debug, Clone)]
pub struct TextMaxWidth(JsonNumber);

impl View for TextMaxWidth {
    type V = Seq<char>;

    closed spec fn view(&self) -> Seq<char> {
        self.0@
    }
}

impl JsonDecode for TextMaxWidth {
    open spec fn accepts(v: Json) -> bool {
        v is Number
    }

    open spec fn decodes(v: Json, x: Self) -> bool {
        v == Json::Number(x@)
    }

    open spec fn rejection(v: Json) -> Seq<char> {
        JsonNumber::rejection(v)
    }

    fn decode(v: &JsonValue) -> (r: Result<Self, String>) {
        match JsonNumber::decode(v) {
            Ok(x) => Ok(TextMaxWidth(x)),
            Err(e) => Err(e),
        }
    }
}

impl JsonEncode for TextMaxWidth {
    open spec fn to_json(self) -> Json {
        Json::Number(self@)
    }

    open spec fn round_trips(self) -> bool {
        true
    }

    fn encode(&self) -> (r: JsonValue) {
        JsonNumber::encode(&self.0)
    }

    proof fn lemma_round_trip(self) {
        JsonNumber::lemma_round_trip(self.0);
    }
}

impl Default for TextMaxWidth {
    fn default() -> (r: Self)
        ensures
            r.to_json() == Json::Number("10"@),
    {
        let r = TextMaxWidth(JsonNumber::from_literal("10"));
        r
    }
}

/// Offset distance of text from its anchor. Positive values indicate right and down, while negative values indicate left and up. If used with text-variable-anchor, input values will be taken as absolute values. Offsets along the x- and y-axis will be applied automatically based on the anchor position.
#[derive(PartialEq, Debug, Clone)]
pub struct TextOffset(JsonValue);

impl View for TextOffset {
    type V = Json;

    closed spec fn view(&self) -> Json {
        self.0.model()
    }
}

impl JsonDecode for TextOffset {
    open spec fn accepts(v: Json) -> bool {
        true
    }

    open spec fn decodes(v: Json, x: Self) -> bool {
        v == x@
    }

    open spec fn rejection(v: Json) -> Seq<char> {
        JsonValue::rejection(v)
    }

    fn decode(v: &JsonValue) -> (r: Result<Self, String>) {
        match JsonValue::decode(v) {
            Ok(x) => Ok(TextOffset(x)),
            Err(e) => Err(e),
        }
    }
}

/// If true, icons will display without their corresponding text when the text collides with other symbols and the icon does not.
#[derive(PartialEq, Debug, Clone)]
pub struct TextOptional(JsonValue);

impl View for TextOptional {
    type V = Json;

    closed spec fn view(&self) -> Json {
        self.0.model()
    }
}

impl JsonDecode for TextOptional {
    open spec fn accepts(v: Json) -> bool {
        true
    }

    open spec fn decodes(v: Json, x: Self) -> bool {
        v == x@
    }

    open spec fn rejection(v: Json) -> Seq<char> {
        JsonValue::rejection(v)
    }

    fn decode(v: &JsonValue) -> (r: Result<Self, String>) {
        match JsonValue::decode(v) {
            Ok(x) => Ok(TextOptional(x)),
            Err(e) => Err(e),
        }
    }
}

/// Allows for control over whether to show symbol text when it overlaps other symbols on the map. If `text-overlap` is not set, `text-allow-overlap` is used instead
#[derive(PartialEq, Eq, Debug, Clone, Copy)]
pub enum TextOverlap {
    /// The text will be visible even if it collides with any other previously drawn symbol.
    Always,
    /// If the text collides with another previously drawn symbol, the overlap mode for that symbol is checked. If the previous symbol was placed using `never` overlap mode, the new text is hidden. If the previous symbol was placed using `always` or `cooperative` overlap mode, the new text is visible.
    Cooperative,
    /// The text will be hidden if it collides with any other previously drawn symbol.
    Never,
}

impl TextOverlap {
    /// The name that stands for the value in a style document.
    pub open spec fn spec_name(self) -> Seq<char> {
        match self {
            TextOverlap::Always => "always"@,
            TextOverlap::Cooperative => "cooperative"@,
            TextOverlap::Never => "never"@,
        }
    }

    /// The name that stands for the value in a style document.
    pub fn name(&self) -> (r: &'static str)
        ensures
            r@ == self.spec_name(),
    {
        match self {
            TextOverlap::Always => "always",
            TextOverlap::Cooperative => "cooperative",
            TextOverlap::Never => "never",
        }
    }

    /// The value that a name stands for, if any.
    pub fn from_name(s: &str) -> (r: Option<TextOverlap>)
        ensures
            r matches Some(x) ==> x.spec_name() == s@,
            r is None ==> forall|x: TextOverlap| x.spec_name() != s@,
    {
        if str_eq(s, "always") {
            Some(TextOverlap::Always)
        } else if str_eq(s, "cooperative") {
            Some(TextOverlap::Cooperative)
        } else if str_eq(s, "never") {
            Some(TextOverlap::Never)
        } else {
            None
        }
    }
}

impl JsonDecode for TextOverlap {
    /// The name of a value, or an object whose one entry has the name as its key and `null`.
    open spec fn accepts(v: Json) -> bool {
        ||| (v is Str && exists|x: TextOverlap| x.spec_name() == v->Str_0)
        ||| (v is Object && v->Object_0.len() == 1 && v->Object_0[0].1 is Null && exists|x: TextOverlap| x.spec_name() == v->Object_0[0].0)
    }

    open spec fn decodes(v: Json, x: Self) -> bool {
        ||| v == Json::Str(x.spec_name())
        ||| (v is Object && v->Object_0.len() == 1 && v->Object_0[0] == (x.spec_name(), Json::Null))
    }

    open spec fn rejection(v: Json) -> Seq<char> {
        if v is Str {
            unknown_variant(v->Str_0) + ", expected one of `always`, `cooperative`, `never`"@
        } else if v is Object {
            let o = v->Object_0;
            if o.len() != 1 {
                "invalid value: map, expected map with a single key"@
            } else if !(exists|x: TextOverlap| x.spec_name() == o[0].0) {
                unknown_variant(o[0].0) + ", expected one of `always`, `cooperative`, `never`"@
            } else {
                type_error(o[0].1, "unit"@)
            }
        } else {
            type_error(v, "string or map"@)
        }
    }

    fn decode(v: &JsonValue) -> (r: Result<Self, String>) {
        match v {
            JsonValue::String(s) => match Self::from_name(s.as_str()) {
                Some(x) => Ok(x),
                None => {
                    let mut m = make_unknown_variant(s.as_str());
                    m.append(", expected one of `always`, `cooperative`, `never`");
                    Err(m)
                },
            },
            JsonValue::Object(fields) => {
                if fields.len() != 1 {
                    return Err("invalid value: map, expected map with a single key".to_string());
                }
                proof {
                    assert(entries_model(*fields)[0] == (fields@[0].0@, fields@[0].1.model()));
                }
                match Self::from_name(fields[0].0.as_str()) {
                    Some(x) => match &fields[0].1 {
                        JsonValue::Null => Ok(x),
                        _ => Err(make_type_error(&fields[0].1, "unit")),
                    },
                    None => {
                        let mut m = make_unknown_variant(fields[0].0.as_str());
                        m.append(", expected one of `always`, `cooperative`, `never`");
                        Err(m)
                    },
                }
            },
            _ => Err(make_type_error(v, "string or map")),
        }
    }
}

/// Size of the additional area around the text bounding box used for detecting symbol collisions.
///
/// Range: 0..
#[derive(PartialEq, Debug, Clone)]
pub struct TextPadding(JsonNumber);

impl View for TextPadding {
    type V = Seq<char>;

    closed spec fn view(&self) -> Seq<char> {
        self.0@
    }
}

impl JsonDecode for TextPadding {
    open spec fn accepts(v: Json) -> bool {
        v is Number
    }

    open spec fn decodes(v: Json, x: Self) -> bool {
        v == Json::Number(x@)
    }

    open spec fn rejection(v: Json) -> Seq<char> {
        JsonNumber::rejection(v)
    }

    fn decode(v: &JsonValue) -> (r: Result<Self, String>) {
        match JsonNumber::decode(v) {
            Ok(x) => Ok(TextPadding(x)),
            Err(e) => Err(e),
        }
    }
}

impl JsonEncode for TextPadding {
    open spec fn to_json(self) -> Json {
        Json::Number(self@)
    }

    open spec fn round_trips(self) -> bool {
        true
    }

    fn encode(&self) -> (r: JsonValue) {
        JsonNumber::encode(&self.0)
    }

    proof fn lemma_round_trip(self) {
        JsonNumber::lemma_round_trip(self.0);
    }
}

impl Default for TextPadding {
    fn default() -> (r: Self)
        ensures
            r.to_json() == Json::Number("2"@),
    {
        let r = TextPadding(JsonNumber::from_literal("2"));
        r
    }
}

/// Orientation of text when map is pitched.
#[derive(PartialEq, Eq, Debug, Clone, Copy)]
pub enum TextPitchAlignment {
    /// Automatically matches the value of `text-rotation-alignment`.
    Auto,
    /// The text is aligned to the plane of the map.
    MapValue,
    /// The text is aligned to the plane of the viewport.
    Viewport,
}

impl TextPitchAlignment {
    /// The name that stands for the value in a style document.
    pub open spec fn spec_name(self) -> Seq<char> {
        match self {
            TextPitchAlignment::Auto => "auto"@,
            TextPitchAlignment::MapValue => "map"@,
            TextPitchAlignment::Viewport => "viewport"@,
        }
    }

    /// The name that stands for the value in a style document.
    pub fn name(&self) -> (r: &'static str)
        ensures
            r@ == self.spec_name(),
    {
        match self {
            TextPitchAlignment::Auto => "auto",
            TextPitchAlignment::MapValue => "map",
            TextPitchAlignment::Viewport => "viewport",
        }
    }

    /// The value that a name stands for, if any.
    pub fn from_name(s: &str) -> (r: Option<TextPitchAlignment>)
        ensures
            r matches Some(x) ==> x.spec_name() == s@,
            r is None ==> forall|x: TextPitchAlignment| x.spec_name() != s@,
    {
        if str_eq(s, "auto") {
            Some(TextPitchAlignment::Auto)
        } else if str_eq(s, "map") {
            Some(TextPitchAlignment::MapValue)
        } else if str_eq(s, "viewport") {
            Some(TextPitchAlignment::Viewport)
        } else {
            None
        }
    }
}

impl JsonDecode for TextPitchAlignment {
    /// The name of a value, or an object whose one entry has the name as its key and `null`.
    open spec fn accepts(v: Json) -> bool {
        ||| (v is Str && exists|x: TextPitchAlignment| x.spec_name() == v->Str_0)
        ||| (v is Object && v->Object_0.len() == 1 && v->Object_0[0].1 is Null && exists|x: TextPitchAlignment| x.spec_name() == v->Object_0[0].0)
    }

    open spec fn decodes(v: Json, x: Self) -> bool {
        ||| v == Json::Str(x.spec_name())
        ||| (v is Object && v->Object_0.len() == 1 && v->Object_0[0] == (x.spec_name(), Json::Null))
    }

    open spec fn rejection(v: Json) -> Seq<char> {
        if v is Str {
            unknown_variant(v->Str_0) + ", expected one of `auto`, `map`, `viewport`"@
        } else if v is Object {
            let o = v->Object_0;
            if o.len() != 1 {
                "invalid value: map, expected map with a single key"@
            } else if !(exists|x: TextPitchAlignment| x.spec_name() == o[0].0) {
                unknown_variant(o[0].0) + ", expected one of `auto`, `map`, `viewport`"@
            } else {
                type_error(o[0].1, "unit"@)
            }
        } else {
            type_error(v, "string or map"@)
        }
    }

    fn decode(v: &JsonValue) -> (r: Result<Self, String>) {
        match v {
            JsonValue::String(s) => match Self::from_name(s.as_str()) {
                Some(x) => Ok(x),
                None => {
                    let mut m = make_unknown_variant(s.as_str());
                    m.append(", expected one of `auto`, `map`, `viewport`");
                    Err(m)
                },
            },
            JsonValue::Object(fields) => {
                if fields.len() != 1 {
                    return Err("invalid value: map, expected map with a single key".to_string());
                }
                proof {
                    assert(entries_model(*fields)[0] == (fields@[0].0@, fields@[0].1.model()));
                }
                match Self::from_name(fields[0].0.as_str()) {
                    Some(x) => match &fields[0].1 {
                        JsonValue::Null => Ok(x),
                        _ => Err(make_type_error(&fields[0].1, "unit")),
                    },
                    None => {
                        let mut m = make_unknown_variant(fields[0].0.as_str());
                        m.append(", expected one of `auto`, `map`, `viewport`");
                        Err(m)
                    },
                }
            },
            _ => Err(make_type_error(v, "string or map")),
        }
    }
}

impl Default for TextPitchAlignment {
    fn default() -> (r: Self)
        ensures
            r == TextPitchAlignment::Auto,
    {
        TextPitchAlignment::Auto
    }
}

/// Radial offset of text, in the direction of the symbol's anchor. Useful in combination with `text-variable-anchor`, which defaults to using the two-dimensional `text-offset` if present.
#[derive(PartialEq, Debug, Clone)]
pub struct TextRadialOffset(JsonNumber);

impl View for TextRadialOffset {
    type V = Seq<char>;

    closed spec fn view(&self) -> Seq<char> {
        self.0@
    }
}

impl JsonDecode for TextRadialOffset {
    open spec fn accepts(v: Json) -> bool {
        v is Number
    }

    open spec fn decodes(v: Json, x: Self) -> bool {
        v == Json::Number(x@)
    }

    open spec fn rejection(v: Json) -> Seq<char> {
        JsonNumber::rejection(v)
    }

    fn decode(v: &JsonValue) -> (r: Result<Self, String>) {
        match JsonNumber::decode(v) {
            Ok(x) => Ok(TextRadialOffset(x)),
            Err(e) => Err(e),
        }
    }
}

impl JsonEncode for TextRadialOffset {
    open spec fn to_json(self) -> Json {
        Json::Number(self@)
    }

    open spec fn round_trips(self) -> bool {
        true
    }

    fn encode(&self) -> (r: JsonValue) {
        JsonNumber::encode(&self.0)
    }

    proof fn lemma_round_trip(self) {
        JsonNumber::lemma_round_trip(self.0);
    }
}

impl Default for TextRadialOffset {
    fn default() -> (r: Self)
        ensures
            r.to_json() == Json::Number("0"@),
    {
        let r = TextRadialOffset(JsonNumber::from_literal("0"));
        r
    }
}

/// Rotates the text clockwise.
///
/// Range: ..every 360
#[derive(PartialEq, Debug, Clone)]
pub struct TextRotate(JsonNumber);

impl View for TextRotate {
    type V = Seq<char>;

    closed spec fn view(&self) -> Seq<char> {
        self.0@
    }
}

impl JsonDecode for TextRotate {
    open spec fn accepts(v: Json) -> bool {
        v is Number
    }

    open spec fn decodes(v: Json, x: Self) -> bool {
        v == Json::Number(x@)
    }

    open spec fn rejection(v: Json) -> Seq<char> {
        JsonNumber::rejection(v)
    }

    fn decode(v: &JsonValue) -> (r: Result<Self, String>) {
        match JsonNumber::decode(v) {
            Ok(x) => Ok(TextRotate(x)),
            Err(e) => Err(e),
        }
    }
}

impl JsonEncode for TextRotate {
    open spec fn to_json(self) -> Json {
        Json::Number(self@)
    }

    open spec fn round_trips(self) -> bool {
        true
    }

    fn encode(&self) -> (r: JsonValue) {
        JsonNumber::encode(&self.0)
    }

    proof fn lemma_round_trip(self) {
        JsonNumber::lemma_round_trip(self.0);
    }
}

impl Default for TextRotate {
    fn default() -> (r: Self)
        ensures
            r.to_json() == Json::Number("0"@),
    {
        let r = TextRotate(JsonNumber::from_literal("0"));
        r
    }
}

/// In combination with `symbol-placement`, determines the rotation behavior of the individual glyphs forming the text.
#[derive(PartialEq, Eq, Debug, Clone, Copy)]
pub enum TextRotationAlignment {
    /// When `symbol-placement` is set to `point`, this is equivalent to `viewport`. When `symbol-placement` is set to `line` or `line-center`, this is equivalent to `map`.
    Auto,
    /// When `symbol-placement` is set to `point`, aligns text east-west. When `symbol-placement` is set to `line` or `line-center`, aligns text x-axes with the line.
    MapValue,
    /// Produces glyphs whose x-axes are aligned with the x-axis of the viewport, regardless of the value of `symbol-placement`.
    Viewport,
    /// When `symbol-placement` is set to `point`, aligns text to the x-axis of the viewport. When `symbol-placement` is set to `line` or `line-center`, aligns glyphs to the x-axis of the viewport and places them along the line.
    ViewportGlyph,
}

impl TextRotationAlignment {
    /// The name that stands for the value in a style document.
    pub open spec fn spec_name(self) -> Seq<char> {
        match self {
            TextRotationAlignment::Auto => "auto"@,
            TextRotationAlignment::MapValue => "map"@,
            TextRotationAlignment::Viewport => "viewport"@,
            TextRotationAlignment::ViewportGlyph => "viewport-glyph"@,
        }
    }

    /// The name that stands for the value in a style document.
    pub fn name(&self) -> (r: &'static str)
        ensures
            r@ == self.spec_name(),
    {
        match self {
            TextRotationAlignment::Auto => "auto",
            TextRotationAlignment::MapValue => "map",
            TextRotationAlignment::Viewport => "viewport",
            TextRotationAlignment::ViewportGlyph => "viewport-glyph",
        }
    }

    /// The value that a name stands for, if any.
    pub fn from_name(s: &str) -> (r: Option<TextRotationAlignment>)
        ensures
            r matches Some(x) ==> x.spec_name() == s@,
            r is None ==> forall|x: TextRotationAlignment| x.spec_name() != s@,
    {
        if str_eq(s, "auto") {
            Some(TextRotationAlignment::Auto)
        } else if str_eq(s, "map") {
            Some(TextRotationAlignment::MapValue)
        } else if str_eq(s, "viewport") {
            Some(TextRotationAlignment::Viewport)
        } else if str_eq(s, "viewport-glyph") {
            Some(TextRotationAlignment::ViewportGlyph)
        } else {
            None
        }
    }
}

impl JsonDecode for TextRotationAlignment {
    /// The name of a value, or an object whose one entry has the name as its key and `null`.
    open spec fn accepts(v: Json) -> bool {
        ||| (v is Str && exists|x: TextRotationAlignment| x.spec_name() == v->Str_0)
        ||| (v is Object && v->Object_0.len() == 1 && v->Object_0[0].1 is Null && exists|x: TextRotationAlignment| x.spec_name() == v->Object_0[0].0)
    }

    open spec fn decodes(v: Json, x: Self) -> bool {
        ||| v == Json::Str(x.spec_name())
        ||| (v is Object && v->Object_0.len() == 1 && v->Object_0[0] == (x.spec_name(), Json::Null))
    }

    open spec fn rejection(v: Json) -> Seq<char> {
        if v is Str {
            unknown_variant(v->Str_0) + ", expected one of `auto`, `map`, `viewport`, `viewport-glyph`"@
        } else if v is Object {
            let o = v->Object_0;
            if o.len() != 1 {
                "invalid value: map, expected map with a single key"@
            } else if !(exists|x: TextRotationAlignment| x.spec_name() == o[0].0) {
                unknown_variant(o[0].0) + ", expected one of `auto`, `map`, `viewport`, `viewport-glyph`"@
            } else {
                type_error(o[0].1, "unit"@)
            }
        } else {
            type_error(v, "string or map"@)
        }
    }

    fn decode(v: &JsonValue) -> (r: Result<Self, String>) {
        match v {
            JsonValue::String(s) => match Self::from_name(s.as_str()) {
                Some(x) => Ok(x),
                None => {
                    let mut m = make_unknown_variant(s.as_str());
                    m.append(", expected one of `auto`, `map`, `viewport`, `viewport-glyph`");
                    Err(m)
                },
            },
            JsonValue::Object(fields) => {
                if fields.len() != 1 {
                    return Err("invalid value: map, expected map with a single key".to_string());
                }
                proof {
                    assert(entries_model(*fields)[0] == (fields@[0].0@, fields@[0].1.model()));
                }
                match Self::from_name(fields[0].0.as_str()) {
                    Some(x) => match &fields[0].1 {
                        JsonValue::Null => Ok(x),
                        _ => Err(make_type_error(&fields[0].1, "unit")),
                    },
                    None => {
                        let mut m = make_unknown_variant(fields[0].0.as_str());
                        m.append(", expected one of `auto`, `map`, `viewport`, `viewport-glyph`");
                        Err(m)
                    },
                }
            },
            _ => Err(make_type_error(v, "string or map")),
        }
    }
}

impl Default for TextRotationAlignment {
    fn default() -> (r: Self)
        ensures
            r == TextRotationAlignment::Auto,
    {
        TextRotationAlignment::Auto
    }
}

/// Font size.
///
/// Range: 0..
#[derive(PartialEq, Debug, Clone)]
pub struct TextSize(JsonNumber);

impl View for TextSize {
    type V = Seq<char>;

    closed spec fn view(&self) -> Seq<char> {
        self.0@
    }
}

impl JsonDecode for TextSize {
    open spec fn accepts(v: Json) -> bool {
        v is Number
    }

    open spec fn decodes(v: Json, x: Self) -> bool {
        v == Json::Number(x@)
    }

    open spec fn rejection(v: Json) -> Seq<char> {
        JsonNumber::rejection(v)
    }

    fn decode(v: &JsonValue) -> (r: Result<Self, String>) {
        match JsonNumber::decode(v) {
            Ok(x) => Ok(TextSize(x)),
            Err(e) => Err(e),
        }
    }
}

impl JsonEncode for TextSize {
    open spec fn to_json(self) -> Json {
        Json::Number(self@)
    }

    open spec fn round_trips(self) -> bool {
        true
    }

    fn encode(&self) -> (r: JsonValue) {
        JsonNumber::encode(&self.0)
    }

    proof fn lemma_round_trip(self) {
        JsonNumber::lemma_round_trip(self.0);
    }
}

impl Default for TextSize {
    fn default() -> (r: Self)
        ensures
            r.to_json() == Json::Number("16"@),
    {
        let r = TextSize(JsonNumber::from_literal("16"));
        r
    }
}

/// Specifies how to capitalize text, similar to the CSS `text-transform` property.
#[derive(PartialEq, Eq, Debug, Clone, Copy)]
pub enum TextTransform {
    /// Forces all letters to be displayed in lowercase.
    Lowercase,
    /// The text is not altered.
    NoneValue,
    /// Forces all letters to be displayed in uppercase.
    Uppercase,
}

impl TextTransform {
    /// The name that stands for the value in a style document.
    pub open spec fn spec_name(self) -> Seq<char> {
        match self {
            TextTransform::Lowercase => "lowercase"@,
            TextTransform::NoneValue => "none"@,
            TextTransform::Uppercase => "uppercase"@,
        }
    }

    /// The name that stands for the value in a style document.
    pub fn name(&self) -> (r: &'static str)
        ensures
            r@ == self.spec_name(),
    {
        match self {
            TextTransform::Lowercase => "lowercase",
            TextTransform::NoneValue => "none",
            TextTransform::Uppercase => "uppercase",
        }
    }

    /// The value that a name stands for, if any.
    pub fn from_name(s: &str) -> (r: Option<TextTransform>)
        ensures
            r matches Some(x) ==> x.spec_name() == s@,
            r is None ==> forall|x: TextTransform| x.spec_name() != s@,
    {
        if str_eq(s, "lowercase") {
            Some(TextTransform::Lowercase)
        } else if str_eq(s, "none") {
            Some(TextTransform::NoneValue)
        } else if str_eq(s, "uppercase") {
            Some(TextTransform::Uppercase)
        } else {
            None
        }
    }
}

impl JsonDecode for TextTransform {
    /// The name of a value, or an object whose one entry has the name as its key and `null`.
    open spec fn accepts(v: Json) -> bool {
        ||| (v is Str && exists|x: TextTransform| x.spec_name() == v->Str_0)
        ||| (v is Object && v->Object_0.len() == 1 && v->Object_0[0].1 is Null && exists|x: TextTransform| x.spec_name() == v->Object_0[0].0)
    }

    open spec fn decodes(v: Json, x: Self) -> bool {
        ||| v == Json::Str(x.spec_name())
        ||| (v is Object && v->Object_0.len() == 1 && v->Object_0[0] == (x.spec_name(), Json::Null))
    }

    open spec fn rejection(v: Json) -> Seq<char> {
        if v is Str {
            unknown_variant(v->Str_0) + ", expected one of `lowercase`, `none`, `uppercase`"@
        } else if v is Object {
            let o = v->Object_0;
            if o.len() != 1 {
                "invalid value: map, expected map with a single key"@
            } else if !(exists|x: TextTransform| x.spec_name() == o[0].0) {
                unknown_variant(o[0].0) + ", expected one of `lowercase`, `none`, `uppercase`"@
            } else {
                type_error(o[0].1, "unit"@)
            }
        } else {
            type_error(v, "string or map"@)
        }
    }

    fn decode(v: &JsonValue) -> (r: Result<Self, String>) {
        match v {
            JsonValue::String(s) => match Self::from_name(s.as_str()) {
                Some(x) => Ok(x),
                None => {
                    let mut m = make_unknown_variant(s.as_str());
                    m.append(", expected one of `lowercase`, `none`, `uppercase`");
                    Err(m)
                },
            },
            JsonValue::Object(fields) => {
                if fields.len() != 1 {
                    return Err("invalid value: map, expected map with a single key".to_string());
                }
                proof {
                    assert(entries_model(*fields)[0] == (fields@[0].0@, fields@[0].1.model()));
                }
                match Self::from_name(fields[0].0.as_str()) {
                    Some(x) => match &fields[0].1 {
                        JsonValue::Null => Ok(x),
                        _ => Err(make_type_error(&fields[0].1, "unit")),
                    },
                    None => {
                        let mut m = make_unknown_variant(fields[0].0.as_str());
                        m.append(", expected one of `lowercase`, `none`, `uppercase`");
                        Err(m)
                    },
                }
            },
            _ => Err(make_type_error(v, "string or map")),
        }
    }
}

impl Default for TextTransform {
    fn default() -> (r: Self)
        ensures
            r == TextTransform::NoneValue,
    {
        TextTransform::NoneValue
    }
}

/// To increase the chance of placing high-priority labels on the map, you can provide an array of `text-anchor` locations: the renderer will attempt to place the label at each location, in order, before moving onto the next label. Use `text-justify: auto` to choose justification based on anchor position. To apply an offset, use the `text-radial-offset` or the two-dimensional `text-offset`.
#[derive(PartialEq, Debug, Clone)]
pub struct TextVariableAnchor(JsonValue);

impl View for TextVariableAnchor {
    type V = Json;

    closed spec fn view(&self) -> Json {
        self.0.model()
    }
}

impl JsonDecode for TextVariableAnchor {
    open spec fn accepts(v: Json) -> bool {
        true
    }

    open spec fn decodes(v: Json, x: Self) -> bool {
        v == x@
    }

    open spec fn rejection(v: Json) -> Seq<char> {
        JsonValue::rejection(v)
    }

    fn decode(v: &JsonValue) -> (r: Result<Self, String>) {
        match JsonValue::decode(v) {
            Ok(x) => Ok(TextVariableAnchor(x)),
            Err(e) => Err(e),
        }
    }
}

/// To increase the chance of placing high-priority labels on the map, you can provide an array of `text-anchor` locations, each paired with an offset value. The renderer will attempt to place the label at each location, in order, before moving on to the next location+offset. Use `text-justify: auto` to choose justification based on anchor position.
///
///  The length of the array must be even, and must alternate between enum and point entries. i.e., each anchor location must be accompanied by a point, and that point defines the offset when the corresponding anchor location is used. Positive offset values indicate right and down, while negative values indicate left and up. Anchor locations may repeat, allowing the renderer to try multiple offsets to try and place a label using the same anchor.
///
///  When present, this property takes precedence over `text-anchor`, `text-variable-anchor`, `text-offset`, and `text-radial-offset`.
///
///  ```json
///
///  { "text-variable-anchor-offset": ["top", [0, 4], "left", [3,0], "bottom", [1, 1]] }
///
///  ```
///
///  When the renderer chooses the `top` anchor, `[0, 4]` will be used for `text-offset`; the text will be shifted down by 4 ems.
///
///  When the renderer chooses the `left` anchor, `[3, 0]` will be used for `text-offset`; the text will be shifted right by 3 ems.
#[derive(PartialEq, Debug, Clone)]
pub struct TextVariableAnchorOffset(JsonValue);

impl View for TextVariableAnchorOffset {
    type V = Json;

    closed spec fn view(&self) -> Json {
        self.0.model()
    }
}

impl JsonDecode for TextVariableAnchorOffset {
    open spec fn accepts(v: Json) -> bool {
        true
    }

    open spec fn decodes(v: Json, x: Self) -> bool {
        v == x@
    }

    open spec fn rejection(v: Json) -> Seq<char> {
        JsonValue::rejection(v)
    }

    fn decode(v: &JsonValue) -> (r: Result<Self, String>) {
        match JsonValue::decode(v) {
            Ok(x) => Ok(TextVariableAnchorOffset(x)),
            Err(e) => Err(e),
        }
    }
}

/// The property allows control over a symbol's orientation. Note that the property values act as a hint, so that a symbol whose language doesn’t support the provided orientation will be laid out in its natural orientation. Example: English point symbol will be rendered horizontally even if array value contains single 'vertical' enum value. The order of elements in an array define priority order for the placement of an orientation variant.
#[derive(PartialEq, Debug, Clone)]
pub struct TextWritingMode(JsonValue);

impl View for TextWritingMode {
    type V = Json;

    closed spec fn view(&self) -> Json {
        self.0.model()
    }
}

impl JsonDecode for TextWritingMode {
    open spec fn accepts(v: Json) -> bool {
        true
    }

    open spec fn decodes(v: Json, x: Self) -> bool {
        v == x@
    }

    open spec fn rejection(v: Json) -> Seq<char> {
        JsonValue::rejection(v)
    }

    fn decode(v: &JsonValue) -> (r: Result<Self, String>) {
        match JsonValue::decode(v) {
            Ok(x) => Ok(TextWritingMode(x)),
            Err(e) => Err(e),
        }
    }
}

#[derive(PartialEq, Debug, Clone)]
pub struct Light {
    /// Whether extruded geometries are lit relative to the map or viewport.
    pub anchor: Anchor,
    /// Color tint for lighting extruded geometries.
    pub color: Color,
    /// Intensity of lighting (on a scale from 0 to 1). Higher numbers will present as more extreme contrast.
    pub intensity: Intensity,
    /// Position of the light source relative to lit (extruded) geometries, in [r radial coordinate, a azimuthal angle, p polar angle] where r indicates the distance from the center of the base of an object to its light, a indicates the position of the light relative to 0° (0° when `light.anchor` is set to `viewport` corresponds to the top of the viewport, or 0° when `light.anchor` is set to `map` corresponds to due north, and degrees proceed clockwise), and p indicates the height of the light (from 0°, directly above, to 180°, directly below).
    pub position: Position,
}

impl JsonDecode for Light {
    /// An object with the fields by their keys, or an array with the fields in order.
    open spec fn accepts(v: Json) -> bool {
        ||| (v is Object && {
            let o = v->Object_0;
            &&& req_field_accepts::<Anchor>(o, "anchor"@)
            &&& req_field_accepts::<Color>(o, "color"@)
            &&& req_field_accepts::<Intensity>(o, "intensity"@)
            &&& req_field_accepts::<Position>(o, "position"@)
        })
        ||| (v is Array && {
            let a = v->Array_0;
            &&& seq_req_accepts::<Anchor>(a, 0)
            &&& seq_req_accepts::<Color>(a, 1)
            &&& seq_req_accepts::<Intensity>(a, 2)
            &&& seq_req_accepts::<Position>(a, 3)
            &&& a.len() <= 4
        })
    }

    open spec fn decodes(v: Json, x: Self) -> bool {
        ||| (v is Object && {
            let o = v->Object_0;
            &&& req_field_decodes::<Anchor>(o, "anchor"@, x.anchor)
            &&& req_field_decodes::<Color>(o, "color"@, x.color)
            &&& req_field_decodes::<Intensity>(o, "intensity"@, x.intensity)
            &&& req_field_decodes::<Position>(o, "position"@, x.position)
        })
        ||| (v is Array && {
            let a = v->Array_0;
            &&& seq_req_decodes::<Anchor>(a, 0, x.anchor)
            &&& seq_req_decodes::<Color>(a, 1, x.color)
            &&& seq_req_decodes::<Intensity>(a, 2, x.intensity)
            &&& seq_req_decodes::<Position>(a, 3, x.position)
        })
    }

    /// For an object, the first entry in order whose value does not read as its field, else the
    /// first required field that is missing.
    open spec fn rejection(v: Json) -> Seq<char> {
        if v is Object {
            let o = v->Object_0;
            match Self::first_fault(o, 0) {
                Some(m) => m,
                None => if lookup(o, "anchor"@) is None {
                    missing_field("anchor"@)
                } else if lookup(o, "color"@) is None {
                    missing_field("color"@)
                } else if lookup(o, "intensity"@) is None {
                    missing_field("intensity"@)
                } else if lookup(o, "position"@) is None {
                    missing_field("position"@)
                } else {
                    Seq::empty()
                },
            }
        } else if v is Array {
            let a = v->Array_0;
            if !seq_req_accepts::<Anchor>(a, 0) {
                seq_req_rejection::<Anchor>(a, 0, "struct Light with 4 elements"@)
            } else if !seq_req_accepts::<Color>(a, 1) {
                seq_req_rejection::<Color>(a, 1, "struct Light with 4 elements"@)
            } else if !seq_req_accepts::<Intensity>(a, 2) {
                seq_req_rejection::<Intensity>(a, 2, "struct Light with 4 elements"@)
            } else if !seq_req_accepts::<Position>(a, 3) {
                seq_req_rejection::<Position>(a, 3, "struct Light with 4 elements"@)
            } else if a.len() > 4 {
                length_error(a.len())
            } else {
                Seq::empty()
            }
        } else {
            type_error(v, "struct Light"@)
        }
    }

    fn decode(v: &JsonValue) -> (r: Result<Self, String>) {
        match v {
            JsonValue::Object(fields) => {
                let anchor = match decode_req_field::<Anchor>(fields, "anchor") {
                    Ok(x) => x,
                    Err(_) => return Err(Self::object_rejection(fields)),
                };
                let color = match decode_req_field::<Color>(fields, "color") {
                    Ok(x) => x,
                    Err(_) => return Err(Self::object_rejection(fields)),
                };
                let intensity = match decode_req_field::<Intensity>(fields, "intensity") {
                    Ok(x) => x,
                    Err(_) => return Err(Self::object_rejection(fields)),
                };
                let position = match decode_req_field::<Position>(fields, "position") {
                    Ok(x) => x,
                    Err(_) => return Err(Self::object_rejection(fields)),
                };
                Ok(Light { anchor, color, intensity, position })
            },
            JsonValue::Array(a) => {
                let anchor = match decode_seq_req::<Anchor>(a, 0, "struct Light with 4 elements") {
                    Ok(x) => x,
                    Err(e) => return Err(e),
                };
                let color = match decode_seq_req::<Color>(a, 1, "struct Light with 4 elements") {
                    Ok(x) => x,
                    Err(e) => return Err(e),
                };
                let intensity = match decode_seq_req::<Intensity>(a, 2, "struct Light with 4 elements") {
                    Ok(x) => x,
                    Err(e) => return Err(e),
                };
                let position = match decode_seq_req::<Position>(a, 3, "struct Light with 4 elements") {
                    Ok(x) => x,
                    Err(e) => return Err(e),
                };
                if a.len() > 4 {
                    return Err(make_length_error(a.len()));
                }
                Ok(Light { anchor, color, intensity, position })
            },
            _ => Err(make_type_error(v, "struct Light")),
        }
    }
}

impl Light {
    /// What is wrong with the value `w` of an entry with key `k`, where `k` is the key of a field.
    pub open spec fn field_fault(k: Seq<char>, w: Json) -> Option<Seq<char>> {
        if k == "anchor"@ {
            if Anchor::accepts(w) {
                None
            } else {
                Some(Anchor::rejection(w))
            }
        } else if k == "color"@ {
            if Color::accepts(w) {
                None
            } else {
                Some(Color::rejection(w))
            }
        } else if k == "intensity"@ {
            if Intensity::accepts(w) {
                None
            } else {
                Some(Intensity::rejection(w))
            }
        } else if k == "position"@ {
            if Position::accepts(w) {
                None
            } else {
                Some(Position::rejection(w))
            }
        } else {
            None
        }
    }

    /// The message of the first entry of `o`, from entry `i` on and among the first entries of
    /// their keys, whose value does not read as its field, if any.
    pub open spec fn first_fault(o: Seq<(Seq<char>, Json)>, i: int) -> Option<Seq<char>>
        decreases o.len() - i,
    {
        if i < 0 || i >= o.len() {
            None
        } else if first_with_key(o, i) && Self::field_fault(o[i].0, o[i].1) is Some {
            Self::field_fault(o[i].0, o[i].1)
        } else {
            Self::first_fault(o, i + 1)
        }
    }

    fn find_field_fault(k: &str, w: &JsonValue) -> (r: Option<String>)
        ensures
            match r {
                Some(m) => Self::field_fault(k@, w.model()) == Some(m@),
                None => Self::field_fault(k@, w.model()) is None,
            },
    {
        if str_eq(k, "anchor") {
            match Anchor::decode(w) {
                Ok(_) => None,
                Err(e) => Some(e),
            }
        } else if str_eq(k, "color") {
            match Color::decode(w) {
                Ok(_) => None,
                Err(e) => Some(e),
            }
        } else if str_eq(k, "intensity") {
            match Intensity::decode(w) {
                Ok(_) => None,
                Err(e) => Some(e),
            }
        } else if str_eq(k, "position") {
            match Position::decode(w) {
                Ok(_) => None,
                Err(e) => Some(e),
            }
        } else {
            None
        }
    }

    fn object_rejection(fields: &Vec<(String, JsonValue)>) -> (r: String)
        ensures
            r@ == Self::rejection(JsonValue::Object(*fields).model()),
    {
        let ghost o = entries_model(*fields);
        let mut i: usize = 0;
        while i < fields.len()
            invariant
                o == entries_model(*fields),
                o.len() == fields.len(),
                i <= fields.len(),
                Self::first_fault(o, 0) == Self::first_fault(o, i as int),
            decreases fields.len() - i,
        {
            proof {
                assert(o[i as int] == (fields@[i as int].0@, fields@[i as int].1.model()));
            }
            if !key_seen_before(fields, i) {
                match Self::find_field_fault(fields[i].0.as_str(), &fields[i].1) {
                    Some(m) => {
                        return m;
                    },
                    None => {},
                }
            }
            i += 1;
        }
        if get_field(fields, "anchor").is_none() {
            return make_missing_field("anchor");
        }
        if get_field(fields, "color").is_none() {
            return make_missing_field("color");
        }
        if get_field(fields, "intensity").is_none() {
            return make_missing_field("intensity");
        }
        if get_field(fields, "position").is_none() {
            return make_missing_field("position");
        }
        String::new()
    }
}

/// Whether extruded geometries are lit relative to the map or viewport.
#[derive(PartialEq, Eq, Debug, Clone, Copy)]
pub enum Anchor {
    /// The position of the light source is aligned to the rotation of the map.
    MapValue,
    /// The position of the light source is aligned to the rotation of the viewport.
    Viewport,
}

impl Anchor {
    /// The name that stands for the value in a style document.
    pub open spec fn spec_name(self) -> Seq<char> {
        match self {
            Anchor::MapValue => "map"@,
            Anchor::Viewport => "viewport"@,
        }
    }

    /// The name that stands for the value in a style document.
    pub fn name(&self) -> (r: &'static str)
        ensures
            r@ == self.spec_name(),
    {
        match self {
            Anchor::MapValue => "map",
            Anchor::Viewport => "viewport",
        }
    }

    /// The value that a name stands for, if any.
    pub fn from_name(s: &str) -> (r: Option<Anchor>)
        ensures
            r matches Some(x) ==> x.spec_name() == s@,
            r is None ==> forall|x: Anchor| x.spec_name() != s@,
    {
        if str_eq(s, "map") {
            Some(Anchor::MapValue)
        } else if str_eq(s, "viewport") {
            Some(Anchor::Viewport)
        } else {
            None
        }
    }
}

impl JsonDecode for Anchor {
    /// The name of a value, or an object whose one entry has the name as its key and `null`.
    open spec fn accepts(v: Json) -> bool {
        ||| (v is Str && exists|x: Anchor| x.spec_name() == v->Str_0)
        ||| (v is Object && v->Object_0.len() == 1 && v->Object_0[0].1 is Null && exists|x: Anchor| x.spec_name() == v->Object_0[0].0)
    }

    open spec fn decodes(v: Json, x: Self) -> bool {
        ||| v == Json::Str(x.spec_name())
        ||| (v is Object && v->Object_0.len() == 1 && v->Object_0[0] == (x.spec_name(), Json::Null))
    }

    open spec fn rejection(v: Json) -> Seq<char> {
        if v is Str {
            unknown_variant(v->Str_0) + ", expected `map` or `viewport`"@
        } else if v is Object {
            let o = v->Object_0;
            if o.len() != 1 {
                "invalid value: map, expected map with a single key"@
            } else if !(exists|x: Anchor| x.spec_name() == o[0].0) {
                unknown_variant(o[0].0) + ", expected `map` or `viewport`"@
            } else {
                type_error(o[0].1, "unit"@)
            }
        } else {
            type_error(v, "string or map"@)
        }
    }

    fn decode(v: &JsonValue) -> (r: Result<Self, String>) {
        match v {
            JsonValue::String(s) => match Self::from_name(s.as_str()) {
                Some(x) => Ok(x),
                None => {
                    let mut m = make_unknown_variant(s.as_str());
                    m.append(", expected `map` or `viewport`");
                    Err(m)
                },
            },
            JsonValue::Object(fields) => {
                if fields.len() != 1 {
                    return Err("invalid value: map, expected map with a single key".to_string());
                }
                proof {
                    assert(entries_model(*fields)[0] == (fields@[0].0@, fields@[0].1.model()));
                }
                match Self::from_name(fields[0].0.as_str()) {
                    Some(x) => match &fields[0].1 {
                        JsonValue::Null => Ok(x),
                        _ => Err(make_type_error(&fields[0].1, "unit")),
                    },
                    None => {
                        let mut m = make_unknown_variant(fields[0].0.as_str());
                        m.append(", expected `map` or `viewport`");
                        Err(m)
                    },
                }
            },
            _ => Err(make_type_error(v, "string or map")),
        }
    }
}

impl Default for Anchor {
    fn default() -> (r: Self)
        ensures
            r == Anchor::Viewport,
    {
        Anchor::Viewport
    }
}

/// Color tint for lighting extruded geometries.
#[derive(PartialEq, Debug, Clone)]
pub struct Color(ColorValue);

impl JsonDecode for Color {
    closed spec fn accepts(v: Json) -> bool {
        ColorValue::accepts(v)
    }

    closed spec fn decodes(v: Json, x: Self) -> bool {
        ColorValue::decodes(v, x.0)
    }

    closed spec fn rejection(v: Json) -> Seq<char> {
        ColorValue::rejection(v)
    }

    fn decode(v: &JsonValue) -> (r: Result<Self, String>) {
        match ColorValue::decode(v) {
            Ok(x) => Ok(Color(x)),
            Err(e) => Err(e),
        }
    }
}

impl JsonEncode for Color {
    closed spec fn to_json(self) -> Json {
        ColorValue::to_json(self.0)
    }

    closed spec fn round_trips(self) -> bool {
        ColorValue::round_trips(self.0)
    }

    fn encode(&self) -> (r: JsonValue) {
        ColorValue::encode(&self.0)
    }

    proof fn lemma_round_trip(self) {
        ColorValue::lemma_round_trip(self.0);
    }
}

impl Default for Color {
    fn default() -> (r: Self)
        ensures
            r.to_json() == Json::Str("#ffffff"@),
    {
        proof {
            reveal_strlit("#ffffff");
        }
        let r = Color(default_color("#ffffff"));
        r
    }
}

/// Intensity of lighting (on a scale from 0 to 1). Higher numbers will present as more extreme contrast.
///
/// Range: 0..=1
#[derive(PartialEq, Debug, Clone)]
pub struct Intensity(JsonNumber);

impl View for Intensity {
    type V = Seq<char>;

    closed spec fn view(&self) -> Seq<char> {
        self.0@
    }
}

impl JsonDecode for Intensity {
    open spec fn accepts(v: Json) -> bool {
        v is Number
    }

    open spec fn decodes(v: Json, x: Self) -> bool {
        v == Json::Number(x@)
    }

    open spec fn rejection(v: Json) -> Seq<char> {
        JsonNumber::rejection(v)
    }

    fn decode(v: &JsonValue) -> (r: Result<Self, String>) {
        match JsonNumber::decode(v) {
            Ok(x) => Ok(Intensity(x)),
            Err(e) => Err(e),
        }
    }
}

/// Position of the light source relative to lit (extruded) geometries, in [r radial coordinate, a azimuthal angle, p polar angle] where r indicates the distance from the center of the base of an object to its light, a indicates the position of the light relative to 0° (0° when `light.anchor` is set to `viewport` corresponds to the top of the viewport, or 0° when `light.anchor` is set to `map` corresponds to due north, and degrees proceed clockwise), and p indicates the height of the light (from 0°, directly above, to 180°, directly below).
#[derive(PartialEq, Debug, Clone)]
pub struct Position(JsonValue);

impl View for Position {
    type V = Json;

    closed spec fn view(&self) -> Json {
        self.0.model()
    }
}

impl JsonDecode for Position {
    open spec fn accepts(v: Json) -> bool {
        true
    }

    open spec fn decodes(v: Json, x: Self) -> bool {
        v == x@
    }

    open spec fn rejection(v: Json) -> Seq<char> {
        JsonValue::rejection(v)
    }

    fn decode(v: &JsonValue) -> (r: Result<Self, String>) {
        match JsonValue::decode(v) {
            Ok(x) => Ok(Position(x)),
            Err(e) => Err(e),
        }
    }
}

#[derive(PartialEq, Debug, Clone)]
pub struct PaintBackground {
    /// The color with which the background will be drawn.
    pub background_color: BackgroundColor,
    /// The opacity at which the background will be drawn.
    pub background_opacity: BackgroundOpacity,
    /// Name of image in sprite to use for drawing an image background. For seamless patterns, image width and height must be a factor of two (2, 4, 8, ..., 512). Note that zoom-dependent expressions will be evaluated only at integer zoom levels.
    pub background_pattern: BackgroundPattern,
}

impl JsonDecode for PaintBackground {
    /// An object with the fields by their keys, or an array with the fields in order.
    open spec fn accepts(v: Json) -> bool {
        ||| (v is Object && {
            let o = v->Object_0;
            &&& req_field_accepts::<BackgroundColor>(o, "background-color"@)
            &&& req_field_accepts::<BackgroundOpacity>(o, "background-opacity"@)
            &&& req_field_accepts::<BackgroundPattern>(o, "background-pattern"@)
        })
        ||| (v is Array && {
            let a = v->Array_0;
            &&& seq_req_accepts::<BackgroundColor>(a, 0)
            &&& seq_req_accepts::<BackgroundOpacity>(a, 1)
            &&& seq_req_accepts::<BackgroundPattern>(a, 2)
            &&& a.len() <= 3
        })
    }

    open spec fn decodes(v: Json, x: Self) -> bool {
        ||| (v is Object && {
            let o = v->Object_0;
            &&& req_field_decodes::<BackgroundColor>(o, "background-color"@, x.background_color)
            &&& req_field_decodes::<BackgroundOpacity>(o, "background-opacity"@, x.background_opacity)
            &&& req_field_decodes::<BackgroundPattern>(o, "background-pattern"@, x.background_pattern)
        })
        ||| (v is Array && {
            let a = v->Array_0;
            &&& seq_req_decodes::<BackgroundColor>(a, 0, x.background_color)
            &&& seq_req_decodes::<BackgroundOpacity>(a, 1, x.background_opacity)
            &&& seq_req_decodes::<BackgroundPattern>(a, 2, x.background_pattern)
        })
    }

    /// For an object, the first entry in order whose value does not read as its field, else the
    /// first required field that is missing.
    open spec fn rejection(v: Json) -> Seq<char> {
        if v is Object {
            let o = v->Object_0;
            match Self::first_fault(o, 0) {
                Some(m) => m,
                None => if lookup(o, "background-color"@) is None {
                    missing_field("background-color"@)
                } else if lookup(o, "background-opacity"@) is None {
                    missing_field("background-opacity"@)
                } else if lookup(o, "background-pattern"@) is None {
                    missing_field("background-pattern"@)
                } else {
                    Seq::empty()
                },
            }
        } else if v is Array {
            let a = v->Array_0;
            if !seq_req_accepts::<BackgroundColor>(a, 0) {
                seq_req_rejection::<BackgroundColor>(a, 0, "struct PaintBackground with 3 elements"@)
            } else if !seq_req_accepts::<BackgroundOpacity>(a, 1) {
                seq_req_rejection::<BackgroundOpacity>(a, 1, "struct PaintBackground with 3 elements"@)
            } else if !seq_req_accepts::<BackgroundPattern>(a, 2) {
                seq_req_rejection::<BackgroundPattern>(a, 2, "struct PaintBackground with 3 elements"@)
            } else if a.len() > 3 {
                length_error(a.len())
            } else {
                Seq::empty()
            }
        } else {
            type_error(v, "struct PaintBackground"@)
        }
    }

    fn decode(v: &JsonValue) -> (r: Result<Self, String>) {
        match v {
            JsonValue::Object(fields) => {
                let background_color = match decode_req_field::<BackgroundColor>(fields, "background-color") {
                    Ok(x) => x,
                    Err(_) => return Err(Self::object_rejection(fields)),
                };
                let background_opacity = match decode_req_field::<BackgroundOpacity>(fields, "background-opacity") {
                    Ok(x) => x,
                    Err(_) => return Err(Self::object_rejection(fields)),
                };
                let background_pattern = match decode_req_field::<BackgroundPattern>(fields, "background-pattern") {
                    Ok(x) => x,
                    Err(_) => return Err(Self::object_rejection(fields)),
                };
                Ok(PaintBackground { background_color, background_opacity, background_pattern })
            },
            JsonValue::Array(a) => {
                let background_color = match decode_seq_req::<BackgroundColor>(a, 0, "struct PaintBackground with 3 elements") {
                    Ok(x) => x,
                    Err(e) => return Err(e),
                };
                let background_opacity = match decode_seq_req::<BackgroundOpacity>(a, 1, "struct PaintBackground with 3 elements") {
                    Ok(x) => x,
                    Err(e) => return Err(e),
                };
                let background_pattern = match decode_seq_req::<BackgroundPattern>(a, 2, "struct PaintBackground with 3 elements") {
                    Ok(x) => x,
                    Err(e) => return Err(e),
                };
                if a.len() > 3 {
                    return Err(make_length_error(a.len()));
                }
                Ok(PaintBackground { background_color, background_opacity, background_pattern })
            },
            _ => Err(make_type_error(v, "struct PaintBackground")),
        }
    }
}

impl PaintBackground {
    /// What is wrong with the value `w` of an entry with key `k`, where `k` is the key of a field.
    pub open spec fn field_fault(k: Seq<char>, w: Json) -> Option<Seq<char>> {
        if k == "background-color"@ {
            if BackgroundColor::accepts(w) {
                None
            } else {
                Some(BackgroundColor::rejection(w))
            }
        } else if k == "background-opacity"@ {
            if BackgroundOpacity::accepts(w) {
                None
            } else {
                Some(BackgroundOpacity::rejection(w))
            }
        } else if k == "background-pattern"@ {
            if BackgroundPattern::accepts(w) {
                None
            } else {
                Some(BackgroundPattern::rejection(w))
            }
        } else {
            None
        }
    }

    /// The message of the first entry of `o`, from entry `i` on and among the first entries of
    /// their keys, whose value does not read as its field, if any.
    pub open spec fn first_fault(o: Seq<(Seq<char>, Json)>, i: int) -> Option<Seq<char>>
        decreases o.len() - i,
    {
        if i < 0 || i >= o.len() {
            None
        } else if first_with_key(o, i) && Self::field_fault(o[i].0, o[i].1) is Some {
            Self::field_fault(o[i].0, o[i].1)
        } else {
            Self::first_fault(o, i + 1)
        }
    }

    fn find_field_fault(k: &str, w: &JsonValue) -> (r: Option<String>)
        ensures
            match r {
                Some(m) => Self::field_fault(k@, w.model()) == Some(m@),
                None => Self::field_fault(k@, w.model()) is None,
            },
    {
        if str_eq(k, "background-color") {
            match BackgroundColor::decode(w) {
                Ok(_) => None,
                Err(e) => Some(e),
            }
        } else if str_eq(k, "background-opacity") {
            match BackgroundOpacity::decode(w) {
                Ok(_) => None,
                Err(e) => Some(e),
            }
        } else if str_eq(k, "background-pattern") {
            match BackgroundPattern::decode(w) {
                Ok(_) => None,
                Err(e) => Some(e),
            }
        } else {
            None
        }
    }

    fn object_rejection(fields: &Vec<(String, JsonValue)>) -> (r: String)
        ensures
            r@ == Self::rejection(JsonValue::Object(*fields).model()),
    {
        let ghost o = entries_model(*fields);
        let mut i: usize = 0;
        while i < fields.len()
            invariant
                o == entries_model(*fields),
                o.len() == fields.len(),
                i <= fields.len(),
                Self::first_fault(o, 0) == Self::first_fault(o, i as int),
            decreases fields.len() - i,
        {
            proof {
                assert(o[i as int] == (fields@[i as int].0@, fields@[i as int].1.model()));
            }
            if !key_seen_before(fields, i) {
                match Self::find_field_fault(fields[i].0.as_str(), &fields[i].1) {
                    Some(m) => {
                        return m;
                    },
                    None => {},
                }
            }
            i += 1;
        }
        if get_field(fields, "background-color").is_none() {
            return make_missing_field("background-color");
        }
        if get_field(fields, "background-opacity").is_none() {
            return make_missing_field("background-opacity");
        }
        if get_field(fields, "background-pattern").is_none() {
            return make_missing_field("background-pattern");
        }
        String::new()
    }
}

/// The color with which the background will be drawn.
#[derive(PartialEq, Debug, Clone)]
pub struct BackgroundColor(ColorValue);

impl JsonDecode for BackgroundColor {
    closed spec fn accepts(v: Json) -> bool {
        ColorValue::accepts(v)
    }

    closed spec fn decodes(v: Json, x: Self) -> bool {
        ColorValue::decodes(v, x.0)
    }

    closed spec fn rejection(v: Json) -> Seq<char> {
        ColorValue::rejection(v)
    }

    fn decode(v: &JsonValue) -> (r: Result<Self, String>) {
        match ColorValue::decode(v) {
            Ok(x) => Ok(BackgroundColor(x)),
            Err(e) => Err(e),
        }
    }
}

impl JsonEncode for BackgroundColor {
    closed spec fn to_json(self) -> Json {
        ColorValue::to_json(self.0)
    }

    closed spec fn round_trips(self) -> bool {
        ColorValue::round_trips(self.0)
    }

    fn encode(&self) -> (r: JsonValue) {
        ColorValue::encode(&self.0)
    }

    proof fn lemma_round_trip(self) {
        ColorValue::lemma_round_trip(self.0);
    }
}

impl Default for BackgroundColor {
    fn default() -> (r: Self)
        ensures
            r.to_json() == Json::Str("#000000"@),
    {
        proof {
            reveal_strlit("#000000");
        }
        let r = BackgroundColor(default_color("#000000"));
        r
    }
}

/// The opacity at which the background will be drawn.
///
/// Range: 0..=1
#[derive(PartialEq, Debug, Clone)]
pub struct BackgroundOpacity(JsonNumber);

impl View for BackgroundOpacity {
    type V = Seq<char>;

    closed spec fn view(&self) -> Seq<char> {
        self.0@
    }
}

impl JsonDecode for BackgroundOpacity {
    open spec fn accepts(v: Json) -> bool {
        v is Number
    }

    open spec fn decodes(v: Json, x: Self) -> bool {
        v == Json::Number(x@)
    }

    open spec fn rejection(v: Json) -> Seq<char> {
        JsonNumber::rejection(v)
    }

    fn decode(v: &JsonValue) -> (r: Result<Self, String>) {
        match JsonNumber::decode(v) {
            Ok(x) => Ok(BackgroundOpacity(x)),
            Err(e) => Err(e),
        }
    }
}

impl JsonEncode for BackgroundOpacity {
    open spec fn to_json(self) -> Json {
        Json::Number(self@)
    }

    open spec fn round_trips(self) -> bool {
        true
    }

    fn encode(&self) -> (r: JsonValue) {
        JsonNumber::encode(&self.0)
    }

    proof fn lemma_round_trip(self) {
        JsonNumber::lemma_round_trip(self.0);
    }
}

impl Default for BackgroundOpacity {
    fn default() -> (r: Self)
        ensures
            r.to_json() == Json::Number("1"@),
    {
        let r = BackgroundOpacity(JsonNumber::from_literal("1"));
        r
    }
}

/// Name of image in sprite to use for drawing an image background. For seamless patterns, image width and height must be a factor of two (2, 4, 8, ..., 512). Note that zoom-dependent expressions will be evaluated only at integer zoom levels.
#[derive(PartialEq, Debug, Clone)]
pub struct BackgroundPattern(JsonValue);

impl View for BackgroundPattern {
    type V = Json;

    closed spec fn view(&self) -> Json {
        self.0.model()
    }
}

impl JsonDecode for BackgroundPattern {
    open spec fn accepts(v: Json) -> bool {
        true
    }

    open spec fn decodes(v: Json, x: Self) -> bool {
        v == x@
    }

    open spec fn rejection(v: Json) -> Seq<char> {
        JsonValue::rejection(v)
    }

    fn decode(v: &JsonValue) -> (r: Result<Self, String>) {
        match JsonValue::decode(v) {
            Ok(x) => Ok(BackgroundPattern(x)),
            Err(e) => Err(e),
        }
    }
}

#[derive(PartialEq, Debug, Clone)]
pub struct PaintCircle {
    /// Amount to blur the circle. 1 blurs the circle such that only the centerpoint is full opacity.
    pub circle_blur: CircleBlur,
    /// The fill color of the circle.
    pub circle_color: CircleColor,
    /// The opacity at which the circle will be drawn.
    pub circle_opacity: CircleOpacity,
    /// Orientation of circle when map is pitched.
    pub circle_pitch_alignment: CirclePitchAlignment,
    /// Controls the scaling behavior of the circle when the map is pitched.
    pub circle_pitch_scale: CirclePitchScale,
    /// Circle radius.
    pub circle_radius: CircleRadius,
    /// The stroke color of the circle.
    pub circle_stroke_color: CircleStrokeColor,
    /// The opacity of the circle's stroke.
    pub circle_stroke_opacity: CircleStrokeOpacity,
    /// The width of the circle's stroke. Strokes are placed outside of the `circle-radius`.
    pub circle_stroke_width: CircleStrokeWidth,
    /// The geometry's offset. Values are [x, y] where negatives indicate left and up, respectively.
    pub circle_translate: CircleTranslate,
    /// Controls the frame of reference for `circle-translate`.
    pub circle_translate_anchor: CircleTranslateAnchor,
}

impl JsonDecode for PaintCircle {
    /// An object with the fields by their keys, or an array with the fields in order.
    open spec fn accepts(v: Json) -> bool {
        ||| (v is Object && {
            let o = v->Object_0;
            &&& req_field_accepts::<CircleBlur>(o, "circle-blur"@)
            &&& req_field_accepts::<CircleColor>(o, "circle-color"@)
            &&& req_field_accepts::<CircleOpacity>(o, "circle-opacity"@)
            &&& req_field_accepts::<CirclePitchAlignment>(o, "circle-pitch-alignment"@)
            &&& req_field_accepts::<CirclePitchScale>(o, "circle-pitch-scale"@)
            &&& req_field_accepts::<CircleRadius>(o, "circle-radius"@)
            &&& req_field_accepts::<CircleStrokeColor>(o, "circle-stroke-color"@)
            &&& req_field_accepts::<CircleStrokeOpacity>(o, "circle-stroke-opacity"@)
            &&& req_field_accepts::<CircleStrokeWidth>(o, "circle-stroke-width"@)
            &&& req_field_accepts::<CircleTranslate>(o, "circle-translate"@)
            &&& req_field_accepts::<CircleTranslateAnchor>(o, "circle-translate-anchor"@)
        })
        ||| (v is Array && {
            let a = v->Array_0;
            &&& seq_req_accepts::<CircleBlur>(a, 0)
            &&& seq_req_accepts::<CircleColor>(a, 1)
            &&& seq_req_accepts::<CircleOpacity>(a, 2)
            &&& seq_req_accepts::<CirclePitchAlignment>(a, 3)
            &&& seq_req_accepts::<CirclePitchScale>(a, 4)
            &&& seq_req_accepts::<CircleRadius>(a, 5)
            &&& seq_req_accepts::<CircleStrokeColor>(a, 6)
            &&& seq_req_accepts::<CircleStrokeOpacity>(a, 7)
            &&& seq_req_accepts::<CircleStrokeWidth>(a, 8)
            &&& seq_req_accepts::<CircleTranslate>(a, 9)
            &&& seq_req_accepts::<CircleTranslateAnchor>(a, 10)
            &&& a.len() <= 11
        })
    }

    open spec fn decodes(v: Json, x: Self) -> bool {
        ||| (v is Object && {
            let o = v->Object_0;
            &&& req_field_decodes::<CircleBlur>(o, "circle-blur"@, x.circle_blur)
            &&& req_field_decodes::<CircleColor>(o, "circle-color"@, x.circle_color)
            &&& req_field_decodes::<CircleOpacity>(o, "circle-opacity"@, x.circle_opacity)
            &&& req_field_decodes::<CirclePitchAlignment>(o, "circle-pitch-alignment"@, x.circle_pitch_alignment)
            &&& req_field_decodes::<CirclePitchScale>(o, "circle-pitch-scale"@, x.circle_pitch_scale)
            &&& req_field_decodes::<CircleRadius>(o, "circle-radius"@, x.circle_radius)
            &&& req_field_decodes::<CircleStrokeColor>(o, "circle-stroke-color"@, x.circle_stroke_color)
            &&& req_field_decodes::<CircleStrokeOpacity>(o, "circle-stroke-opacity"@, x.circle_stroke_opacity)
            &&& req_field_decodes::<CircleStrokeWidth>(o, "circle-stroke-width"@, x.circle_stroke_width)
            &&& req_field_decodes::<CircleTranslate>(o, "circle-translate"@, x.circle_translate)
            &&& req_field_decodes::<CircleTranslateAnchor>(o, "circle-translate-anchor"@, x.circle_translate_anchor)
        })
        ||| (v is Array && {
            let a = v->Array_0;
            &&& seq_req_decodes::<CircleBlur>(a, 0, x.circle_blur)
            &&& seq_req_decodes::<CircleColor>(a, 1, x.circle_color)
            &&& seq_req_decodes::<CircleOpacity>(a, 2, x.circle_opacity)
            &&& seq_req_decodes::<CirclePitchAlignment>(a, 3, x.circle_pitch_alignment)
            &&& seq_req_decodes::<CirclePitchScale>(a, 4, x.circle_pitch_scale)
            &&& seq_req_decodes::<CircleRadius>(a, 5, x.circle_radius)
            &&& seq_req_decodes::<CircleStrokeColor>(a, 6, x.circle_stroke_color)
            &&& seq_req_decodes::<CircleStrokeOpacity>(a, 7, x.circle_stroke_opacity)
            &&& seq_req_decodes::<CircleStrokeWidth>(a, 8, x.circle_stroke_width)
            &&& seq_req_decodes::<CircleTranslate>(a, 9, x.circle_translate)
            &&& seq_req_decodes::<CircleTranslateAnchor>(a, 10, x.circle_translate_anchor)
        })
    }

    /// For an object, the first entry in order whose value does not read as its field, else the
    /// first required field that is missing.
    open spec fn rejection(v: Json) -> Seq<char> {
        if v is Object {
            let o = v->Object_0;
            match Self::first_fault(o, 0) {
                Some(m) => m,
                None => if lookup(o, "circle-blur"@) is None {
                    missing_field("circle-blur"@)
                } else if lookup(o, "circle-color"@) is None {
                    missing_field("circle-color"@)
                } else if lookup(o, "circle-opacity"@) is None {
                    missing_field("circle-opacity"@)
                } else if lookup(o, "circle-pitch-alignment"@) is None {
                    missing_field("circle-pitch-alignment"@)
                } else if lookup(o, "circle-pitch-scale"@) is None {
                    missing_field("circle-pitch-scale"@)
                } else if lookup(o, "circle-radius"@) is None {
                    missing_field("circle-radius"@)
                } else if lookup(o, "circle-stroke-color"@) is None {
                    missing_field("circle-stroke-color"@)
                } else if lookup(o, "circle-stroke-opacity"@) is None {
                    missing_field("circle-stroke-opacity"@)
                } else if lookup(o, "circle-stroke-width"@) is None {
                    missing_field("circle-stroke-width"@)
                } else if lookup(o, "circle-translate"@) is None {
                    missing_field("circle-translate"@)
                } else if lookup(o, "circle-translate-anchor"@) is None {
                    missing_field("circle-translate-anchor"@)
                } else {
                    Seq::empty()
                },
            }
        } else if v is Array {
            let a = v->Array_0;
            if !seq_req_accepts::<CircleBlur>(a, 0) {
                seq_req_rejection::<CircleBlur>(a, 0, "struct PaintCircle with 11 elements"@)
            } else if !seq_req_accepts::<CircleColor>(a, 1) {
                seq_req_rejection::<CircleColor>(a, 1, "struct PaintCircle with 11 elements"@)
            } else if !seq_req_accepts::<CircleOpacity>(a, 2) {
                seq_req_rejection::<CircleOpacity>(a, 2, "struct PaintCircle with 11 elements"@)
            } else if !seq_req_accepts::<CirclePitchAlignment>(a, 3) {
                seq_req_rejection::<CirclePitchAlignment>(a, 3, "struct PaintCircle with 11 elements"@)
            } else if !seq_req_accepts::<CirclePitchScale>(a, 4) {
                seq_req_rejection::<CirclePitchScale>(a, 4, "struct PaintCircle with 11 elements"@)
            } else if !seq_req_accepts::<CircleRadius>(a, 5) {
                seq_req_rejection::<CircleRadius>(a, 5, "struct PaintCircle with 11 elements"@)
            } else if !seq_req_accepts::<CircleStrokeColor>(a, 6) {
                seq_req_rejection::<CircleStrokeColor>(a, 6, "struct PaintCircle with 11 elements"@)
            } else if !seq_req_accepts::<CircleStrokeOpacity>(a, 7) {
                seq_req_rejection::<CircleStrokeOpacity>(a, 7, "struct PaintCircle with 11 elements"@)
            } else if !seq_req_accepts::<CircleStrokeWidth>(a, 8) {
                seq_req_rejection::<CircleStrokeWidth>(a, 8, "struct PaintCircle with 11 elements"@)
            } else if !seq_req_accepts::<CircleTranslate>(a, 9) {
                seq_req_rejection::<CircleTranslate>(a, 9, "struct PaintCircle with 11 elements"@)
            } else if !seq_req_accepts::<CircleTranslateAnchor>(a, 10) {
                seq_req_rejection::<CircleTranslateAnchor>(a, 10, "struct PaintCircle with 11 elements"@)
            } else if a.len() > 11 {
                length_error(a.len())
            } else {
                Seq::empty()
            }
        } else {
            type_error(v, "struct PaintCircle"@)
        }
    }

    fn decode(v: &JsonValue) -> (r: Result<Self, String>) {
        match v {
            JsonValue::Object(fields) => {
                let circle_blur = match decode_req_field::<CircleBlur>(fields, "circle-blur") {
                    Ok(x) => x,
                    Err(_) => return Err(Self::object_rejection(fields)),
                };
                let circle_color = match decode_req_field::<CircleColor>(fields, "circle-color") {
                    Ok(x) => x,
                    Err(_) => return Err(Self::object_rejection(fields)),
                };
                let circle_opacity = match decode_req_field::<CircleOpacity>(fields, "circle-opacity") {
                    Ok(x) => x,
                    Err(_) => return Err(Self::object_rejection(fields)),
                };
                let circle_pitch_alignment = match decode_req_field::<CirclePitchAlignment>(fields, "circle-pitch-alignment") {
                    Ok(x) => x,
                    Err(_) => return Err(Self::object_rejection(fields)),
                };
                let circle_pitch_scale = match decode_req_field::<CirclePitchScale>(fields, "circle-pitch-scale") {
                    Ok(x) => x,
                    Err(_) => return Err(Self::object_rejection(fields)),
                };
                let circle_radius = match decode_req_field::<CircleRadius>(fields, "circle-radius") {
                    Ok(x) => x,
                    Err(_) => return Err(Self::object_rejection(fields)),
                };
                let circle_stroke_color = match decode_req_field::<CircleStrokeColor>(fields, "circle-stroke-color") {
                    Ok(x) => x,
                    Err(_) => return Err(Self::object_rejection(fields)),
                };
                let circle_stroke_opacity = match decode_req_field::<CircleStrokeOpacity>(fields, "circle-stroke-opacity") {
                    Ok(x) => x,
                    Err(_) => return Err(Self::object_rejection(fields)),
                };
                let circle_stroke_width = match decode_req_field::<CircleStrokeWidth>(fields, "circle-stroke-width") {
                    Ok(x) => x,
                    Err(_) => return Err(Self::object_rejection(fields)),
                };
                let circle_translate = match decode_req_field::<CircleTranslate>(fields, "circle-translate") {
                    Ok(x) => x,
                    Err(_) => return Err(Self::object_rejection(fields)),
                };
                let circle_translate_anchor = match decode_req_field::<CircleTranslateAnchor>(fields, "circle-translate-anchor") {
                    Ok(x) => x,
                    Err(_) => return Err(Self::object_rejection(fields)),
                };
                Ok(PaintCircle { circle_blur, circle_color, circle_opacity, circle_pitch_alignment, circle_pitch_scale, circle_radius, circle_stroke_color, circle_stroke_opacity, circle_stroke_width, circle_translate, circle_translate_anchor })
            },
            JsonValue::Array(a) => {
                let circle_blur = match decode_seq_req::<CircleBlur>(a, 0, "struct PaintCircle with 11 elements") {
                    Ok(x) => x,
                    Err(e) => return Err(e),
                };
                let circle_color = match decode_seq_req::<CircleColor>(a, 1, "struct PaintCircle with 11 elements") {
                    Ok(x) => x,
                    Err(e) => return Err(e),
                };
                let circle_opacity = match decode_seq_req::<CircleOpacity>(a, 2, "struct PaintCircle with 11 elements") {
                    Ok(x) => x,
                    Err(e) => return Err(e),
                };
                let circle_pitch_alignment = match decode_seq_req::<CirclePitchAlignment>(a, 3, "struct PaintCircle with 11 elements") {
                    Ok(x) => x,
                    Err(e) => return Err(e),
                };
                let circle_pitch_scale = match decode_seq_req::<CirclePitchScale>(a, 4, "struct PaintCircle with 11 elements") {
                    Ok(x) => x,
                    Err(e) => return Err(e),
                };
                let circle_radius = match decode_seq_req::<CircleRadius>(a, 5, "struct PaintCircle with 11 elements") {
                    Ok(x) => x,
                    Err(e) => return Err(e),
                };
                let circle_stroke_color = match decode_seq_req::<CircleStrokeColor>(a, 6, "struct PaintCircle with 11 elements") {
                    Ok(x) => x,
                    Err(e) => return Err(e),
                };
                let circle_stroke_opacity = match decode_seq_req::<CircleStrokeOpacity>(a, 7, "struct PaintCircle with 11 elements") {
                    Ok(x) => x,
                    Err(e) => return Err(e),
                };
                let circle_stroke_width = match decode_seq_req::<CircleStrokeWidth>(a, 8, "struct PaintCircle with 11 elements") {
                    Ok(x) => x,
                    Err(e) => return Err(e),
                };
                let circle_translate = match decode_seq_req::<CircleTranslate>(a, 9, "struct PaintCircle with 11 elements") {
                    Ok(x) => x,
                    Err(e) => return Err(e),
                };
                let circle_translate_anchor = match decode_seq_req::<CircleTranslateAnchor>(a, 10, "struct PaintCircle with 11 elements") {
                    Ok(x) => x,
                    Err(e) => return Err(e),
                };
                if a.len() > 11 {
                    return Err(make_length_error(a.len()));
                }
                Ok(PaintCircle { circle_blur, circle_color, circle_opacity, circle_pitch_alignment, circle_pitch_scale, circle_radius, circle_stroke_color, circle_stroke_opacity, circle_stroke_width, circle_translate, circle_translate_anchor })
            },
            _ => Err(make_type_error(v, "struct PaintCircle")),
        }
    }
}

impl PaintCircle {
    /// What is wrong with the value `w` of an entry with key `k`, where `k` is the key of a field.
    pub open spec fn field_fault(k: Seq<char>, w: Json) -> Option<Seq<char>> {
        if k == "circle-blur"@ {
            if CircleBlur::accepts(w) {
                None
            } else {
                Some(CircleBlur::rejection(w))
            }
        } else if k == "circle-color"@ {
            if CircleColor::accepts(w) {
                None
            } else {
                Some(CircleColor::rejection(w))
            }
        } else if k == "circle-opacity"@ {
            if CircleOpacity::accepts(w) {
                None
            } else {
                Some(CircleOpacity::rejection(w))
            }
        } else if k == "circle-pitch-alignment"@ {
            if CirclePitchAlignment::accepts(w) {
                None
            } else {
                Some(CirclePitchAlignment::rejection(w))
            }
        } else if k == "circle-pitch-scale"@ {
            if CirclePitchScale::accepts(w) {
                None
            } else {
                Some(CirclePitchScale::rejection(w))
            }
        } else if k == "circle-radius"@ {
            if CircleRadius::accepts(w) {
                None
            } else {
                Some(CircleRadius::rejection(w))
            }
        } else if k == "circle-stroke-color"@ {
            if CircleStrokeColor::accepts(w) {
                None
            } else {
                Some(CircleStrokeColor::rejection(w))
            }
        } else if k == "circle-stroke-opacity"@ {
            if CircleStrokeOpacity::accepts(w) {
                None
            } else {
                Some(CircleStrokeOpacity::rejection(w))
            }
        } else if k == "circle-stroke-width"@ {
            if CircleStrokeWidth::accepts(w) {
                None
            } else {
                Some(CircleStrokeWidth::rejection(w))
            }
        } else if k == "circle-translate"@ {
            if CircleTranslate::accepts(w) {
                None
            } else {
                Some(CircleTranslate::rejection(w))
            }
        } else if k == "circle-translate-anchor"@ {
            if CircleTranslateAnchor::accepts(w) {
                None
            } else {
                Some(CircleTranslateAnchor::rejection(w))
            }
        } else {
            None
        }
    }

    /// The message of the first entry of `o`, from entry `i` on and among the first entries of
    /// their keys, whose value does not read as its field, if any.
    pub open spec fn first_fault(o: Seq<(Seq<char>, Json)>, i: int) -> Option<Seq<char>>
        decreases o.len() - i,
    {
        if i < 0 || i >= o.len() {
            None
        } else if first_with_key(o, i) && Self::field_fault(o[i].0, o[i].1) is Some {
            Self::field_fault(o[i].0, o[i].1)
        } else {
            Self::first_fault(o, i + 1)
        }
    }

    fn find_field_fault(k: &str, w: &JsonValue) -> (r: Option<String>)
        ensures
            match r {
                Some(m) => Self::field_fault(k@, w.model()) == Some(m@),
                None => Self::field_fault(k@, w.model()) is None,
            },
    {
        if str_eq(k, "circle-blur") {
            match CircleBlur::decode(w) {
                Ok(_) => None,
                Err(e) => Some(e),
            }
        } else if str_eq(k, "circle-color") {
            match CircleColor::decode(w) {
                Ok(_) => None,
                Err(e) => Some(e),
            }
        } else if str_eq(k, "circle-opacity") {
            match CircleOpacity::decode(w) {
                Ok(_) => None,
                Err(e) => Some(e),
            }
        } else if str_eq(k, "circle-pitch-alignment") {
            match CirclePitchAlignment::decode(w) {
                Ok(_) => None,
                Err(e) => Some(e),
            }
        } else if str_eq(k, "circle-pitch-scale") {
            match CirclePitchScale::decode(w) {
                Ok(_) => None,
                Err(e) => Some(e),
            }
        } else if str_eq(k, "circle-radius") {
            match CircleRadius::decode(w) {
                Ok(_) => None,
                Err(e) => Some(e),
            }
        } else if str_eq(k, "circle-stroke-color") {
            match CircleStrokeColor::decode(w) {
                Ok(_) => None,
                Err(e) => Some(e),
            }
        } else if str_eq(k, "circle-stroke-opacity") {
            match CircleStrokeOpacity::decode(w) {
                Ok(_) => None,
                Err(e) => Some(e),
            }
        } else if str_eq(k, "circle-stroke-width") {
            match CircleStrokeWidth::decode(w) {
                Ok(_) => None,
                Err(e) => Some(e),
            }
        } else if str_eq(k, "circle-translate") {
            match CircleTranslate::decode(w) {
                Ok(_) => None,
                Err(e) => Some(e),
            }
        } else if str_eq(k, "circle-translate-anchor") {
            match CircleTranslateAnchor::decode(w) {
                Ok(_) => None,
                Err(e) => Some(e),
            }
        } else {
            None
        }
    }

    fn object_rejection(fields: &Vec<(String, JsonValue)>) -> (r: String)
        ensures
            r@ == Self::rejection(JsonValue::Object(*fields).model()),
    {
        let ghost o = entries_model(*fields);
        let mut i: usize = 0;
        while i < fields.len()
            invariant
                o == entries_model(*fields),
                o.len() == fields.len(),
                i <= fields.len(),
                Self::first_fault(o, 0) == Self::first_fault(o, i as int),
            decreases fields.len() - i,
        {
            proof {
                assert(o[i as int] == (fields@[i as int].0@, fields@[i as int].1.model()));
            }
            if !key_seen_before(fields, i) {
                match Self::find_field_fault(fields[i].0.as_str(), &fields[i].1) {
                    Some(m) => {
                        return m;
                    },
                    None => {},
                }
            }
            i += 1;
        }
        if get_field(fields, "circle-blur").is_none() {
            return make_missing_field("circle-blur");
        }
        if get_field(fields, "circle-color").is_none() {
            return make_missing_field("circle-color");
        }
        if get_field(fields, "circle-opacity").is_none() {
            return make_missing_field("circle-opacity");
        }
        if get_field(fields, "circle-pitch-alignment").is_none() {
            return make_missing_field("circle-pitch-alignment");
        }
        if get_field(fields, "circle-pitch-scale").is_none() {
            return make_missing_field("circle-pitch-scale");
        }
        if get_field(fields, "circle-radius").is_none() {
            return make_missing_field("circle-radius");
        }
        if get_field(fields, "circle-stroke-color").is_none() {
            return make_missing_field("circle-stroke-color");
        }
        if get_field(fields, "circle-stroke-opacity").is_none() {
            return make_missing_field("circle-stroke-opacity");
        }
        if get_field(fields, "circle-stroke-width").is_none() {
            return make_missing_field("circle-stroke-width");
        }
        if get_field(fields, "circle-translate").is_none() {
            return make_missing_field("circle-translate");
        }
        if get_field(fields, "circle-translate-anchor").is_none() {
            return make_missing_field("circle-translate-anchor");
        }
        String::new()
    }
}

/// Amount to blur the circle. 1 blurs the circle such that only the centerpoint is full opacity.
#[derive(PartialEq, Debug, Clone)]
pub struct CircleBlur(JsonNumber);

impl View for CircleBlur {
    type V = Seq<char>;

    closed spec fn view(&self) -> Seq<char> {
        self.0@
    }
}

impl JsonDecode for CircleBlur {
    open spec fn accepts(v: Json) -> bool {
        v is Number
    }

    open spec fn decodes(v: Json, x: Self) -> bool {
        v == Json::Number(x@)
    }

    open spec fn rejection(v: Json) -> Seq<char> {
        JsonNumber::rejection(v)
    }

    fn decode(v: &JsonValue) -> (r: Result<Self, String>) {
        match JsonNumber::decode(v) {
            Ok(x) => Ok(CircleBlur(x)),
            Err(e) => Err(e),
        }
    }
}

impl JsonEncode for CircleBlur {
    open spec fn to_json(self) -> Json {
        Json::Number(self@)
    }

    open spec fn round_trips(self) -> bool {
        true
    }

    fn encode(&self) -> (r: JsonValue) {
        JsonNumber::encode(&self.0)
    }

    proof fn lemma_round_trip(self) {
        JsonNumber::lemma_round_trip(self.0);
    }
}

impl Default for CircleBlur {
    fn default() -> (r: Self)
        ensures
            r.to_json() == Json::Number("0"@),
    {
        let r = CircleBlur(JsonNumber::from_literal("0"));
        r
    }
}

/// The fill color of the circle.
#[derive(PartialEq, Debug, Clone)]
pub struct CircleColor(ColorValue);

impl JsonDecode for CircleColor {
    closed spec fn accepts(v: Json) -> bool {
        ColorValue::accepts(v)
    }

    closed spec fn decodes(v: Json, x: Self) -> bool {
        ColorValue::decodes(v, x.0)
    }

    closed spec fn rejection(v: Json) -> Seq<char> {
        ColorValue::rejection(v)
    }

    fn decode(v: &JsonValue) -> (r: Result<Self, String>) {
        match ColorValue::decode(v) {
            Ok(x) => Ok(CircleColor(x)),
            Err(e) => Err(e),
        }
    }
}

impl JsonEncode for CircleColor {
    closed spec fn to_json(self) -> Json {
        ColorValue::to_json(self.0)
    }

    closed spec fn round_trips(self) -> bool {
        ColorValue::round_trips(self.0)
    }

    fn encode(&self) -> (r: JsonValue) {
        ColorValue::encode(&self.0)
    }

    proof fn lemma_round_trip(self) {
        ColorValue::lemma_round_trip(self.0);
    }
}

impl Default for CircleColor {
    fn default() -> (r: Self)
        ensures
            r.to_json() == Json::Str("#000000"@),
    {
        proof {
            reveal_strlit("#000000");
        }
        let r = CircleColor(default_color("#000000"));
        r
    }
}

/// The opacity at which the circle will be drawn.
///
/// Range: 0..=1
#[derive(PartialEq, Debug, Clone)]
pub struct CircleOpacity(JsonNumber);

impl View for CircleOpacity {
    type V = Seq<char>;

    closed spec fn view(&self) -> Seq<char> {
        self.0@
    }
}

impl JsonDecode for CircleOpacity {
    open spec fn accepts(v: Json) -> bool {
        v is Number
    }

    open spec fn decodes(v: Json, x: Self) -> bool {
        v == Json::Number(x@)
    }

    open spec fn rejection(v: Json) -> Seq<char> {
        JsonNumber::rejection(v)
    }

    fn decode(v: &JsonValue) -> (r: Result<Self, String>) {
        match JsonNumber::decode(v) {
            Ok(x) => Ok(CircleOpacity(x)),
            Err(e) => Err(e),
        }
    }
}

impl JsonEncode for CircleOpacity {
    open spec fn to_json(self) -> Json {
        Json::Number(self@)
    }

    open spec fn round_trips(self) -> bool {
        true
    }

    fn encode(&self) -> (r: JsonValue) {
        JsonNumber::encode(&self.0)
    }

    proof fn lemma_round_trip(self) {
        JsonNumber::lemma_round_trip(self.0);
    }
}

impl Default for CircleOpacity {
    fn default() -> (r: Self)
        ensures
            r.to_json() == Json::Number("1"@),
    {
        let r = CircleOpacity(JsonNumber::from_literal("1"));
        r
    }
}

/// Orientation of circle when map is pitched.
#[derive(PartialEq, Eq, Debug, Clone, Copy)]
pub enum CirclePitchAlignment {
    /// The circle is aligned to the plane of the map.
    MapValue,
    /// The circle is aligned to the plane of the viewport.
    Viewport,
}

impl CirclePitchAlignment {
    /// The name that stands for the value in a style document.
    pub open spec fn spec_name(self) -> Seq<char> {
        match self {
            CirclePitchAlignment::MapValue => "map"@,
            CirclePitchAlignment::Viewport => "viewport"@,
        }
    }

    /// The name that stands for the value in a style document.
    pub fn name(&self) -> (r: &'static str)
        ensures
            r@ == self.spec_name(),
    {
        match self {
            CirclePitchAlignment::MapValue => "map",
            CirclePitchAlignment::Viewport => "viewport",
        }
    }

    /// The value that a name stands for, if any.
    pub fn from_name(s: &str) -> (r: Option<CirclePitchAlignment>)
        ensures
            r matches Some(x) ==> x.spec_name() == s@,
            r is None ==> forall|x: CirclePitchAlignment| x.spec_name() != s@,
    {
        if str_eq(s, "map") {
            Some(CirclePitchAlignment::MapValue)
        } else if str_eq(s, "viewport") {
            Some(CirclePitchAlignment::Viewport)
        } else {
            None
        }
    }
}

impl JsonDecode for CirclePitchAlignment {
    /// The name of a value, or an object whose one entry has the name as its key and `null`.
    open spec fn accepts(v: Json) -> bool {
        ||| (v is Str && exists|x: CirclePitchAlignment| x.spec_name() == v->Str_0)
        ||| (v is Object && v->Object_0.len() == 1 && v->Object_0[0].1 is Null && exists|x: CirclePitchAlignment| x.spec_name() == v->Object_0[0].0)
    }

    open spec fn decodes(v: Json, x: Self) -> bool {
        ||| v == Json::Str(x.spec_name())
        ||| (v is Object && v->Object_0.len() == 1 && v->Object_0[0] == (x.spec_name(), Json::Null))
    }

    open spec fn rejection(v: Json) -> Seq<char> {
        if v is Str {
            unknown_variant(v->Str_0) + ", expected `map` or `viewport`"@
        } else if v is Object {
            let o = v->Object_0;
            if o.len() != 1 {
                "invalid value: map, expected map with a single key"@
            } else if !(exists|x: CirclePitchAlignment| x.spec_name() == o[0].0) {
                unknown_variant(o[0].0) + ", expected `map` or `viewport`"@
            } else {
                type_error(o[0].1, "unit"@)
            }
        } else {
            type_error(v, "string or map"@)
        }
    }

    fn decode(v: &JsonValue) -> (r: Result<Self, String>) {
        match v {
            JsonValue::String(s) => match Self::from_name(s.as_str()) {
                Some(x) => Ok(x),
                None => {
                    let mut m = make_unknown_variant(s.as_str());
                    m.append(", expected `map` or `viewport`");
                    Err(m)
                },
            },
            JsonValue::Object(fields) => {
                if fields.len() != 1 {
                    return Err("invalid value: map, expected map with a single key".to_string());
                }
                proof {
                    assert(entries_model(*fields)[0] == (fields@[0].0@, fields@[0].1.model()));
                }
                match Self::from_name(fields[0].0.as_str()) {
                    Some(x) => match &fields[0].1 {
                        JsonValue::Null => Ok(x),
                        _ => Err(make_type_error(&fields[0].1, "unit")),
                    },
                    None => {
                        let mut m = make_unknown_variant(fields[0].0.as_str());
                        m.append(", expected `map` or `viewport`");
                        Err(m)
                    },
                }
            },
            _ => Err(make_type_error(v, "string or map")),
        }
    }
}

impl Default for CirclePitchAlignment {
    fn default() -> (r: Self)
        ensures
            r == CirclePitchAlignment::Viewport,
    {
        CirclePitchAlignment::Viewport
    }
}

/// Controls the scaling behavior of the circle when the map is pitched.
#[derive(PartialEq, Eq, Debug, Clone, Copy)]
pub enum CirclePitchScale {
    /// Circles are scaled according to their apparent distance to the camera.
    MapValue,
    /// Circles are not scaled.
    Viewport,
}

impl CirclePitchScale {
    /// The name that stands for the value in a style document.
    pub open spec fn spec_name(self) -> Seq<char> {
        match self {
            CirclePitchScale::MapValue => "map"@,
            CirclePitchScale::Viewport => "viewport"@,
        }
    }

    /// The name that stands for the value in a style document.
    pub fn name(&self) -> (r: &'static str)
        ensures
            r@ == self.spec_name(),
    {
        match self {
            CirclePitchScale::MapValue => "map",
            CirclePitchScale::Viewport => "viewport",
        }
    }

    /// The value that a name stands for, if any.
    pub fn from_name(s: &str) -> (r: Option<CirclePitchScale>)
        ensures
            r matches Some(x) ==> x.spec_name() == s@,
            r is None ==> forall|x: CirclePitchScale| x.spec_name() != s@,
    {
        if str_eq(s, "map") {
            Some(CirclePitchScale::MapValue)
        } else if str_eq(s, "viewport") {
            Some(CirclePitchScale::Viewport)
        } else {
            None
        }
    }
}

impl JsonDecode for CirclePitchScale {
    /// The name of a value, or an object whose one entry has the name as its key and `null`.
    open spec fn accepts(v: Json) -> bool {
        ||| (v is Str && exists|x: CirclePitchScale| x.spec_name() == v->Str_0)
        ||| (v is Object && v->Object_0.len() == 1 && v->Object_0[0].1 is Null && exists|x: CirclePitchScale| x.spec_name() == v->Object_0[0].0)
    }

    open spec fn decodes(v: Json, x: Self) -> bool {
        ||| v == Json::Str(x.spec_name())
        ||| (v is Object && v->Object_0.len() == 1 && v->Object_0[0] == (x.spec_name(), Json::Null))
    }

    open spec fn rejection(v: Json) -> Seq<char> {
        if v is Str {
            unknown_variant(v->Str_0) + ", expected `map` or `viewport`"@
        } else if v is Object {
            let o = v->Object_0;
            if o.len() != 1 {
                "invalid value: map, expected map with a single key"@
            } else if !(exists|x: CirclePitchScale| x.spec_name() == o[0].0) {
                unknown_variant(o[0].0) + ", expected `map` or `viewport`"@
            } else {
                type_error(o[0].1, "unit"@)
            }
        } else {
            type_error(v, "string or map"@)
        }
    }

    fn decode(v: &JsonValue) -> (r: Result<Self, String>) {
        match v {
            JsonValue::String(s) => match Self::from_name(s.as_str()) {
                Some(x) => Ok(x),
                None => {
                    let mut m = make_unknown_variant(s.as_str());
                    m.append(", expected `map` or `viewport`");
                    Err(m)
                },
            },
            JsonValue::Object(fields) => {
                if fields.len() != 1 {
                    return Err("invalid value: map, expected map with a single key".to_string());
                }
                proof {
                    assert(entries_model(*fields)[0] == (fields@[0].0@, fields@[0].1.model()));
                }
                match Self::from_name(fields[0].0.as_str()) {
                    Some(x) => match &fields[0].1 {
                        JsonValue::Null => Ok(x),
                        _ => Err(make_type_error(&fields[0].1, "unit")),
                    },
                    None => {
                        let mut m = make_unknown_variant(fields[0].0.as_str());
                        m.append(", expected `map` or `viewport`");
                        Err(m)
                    },
                }
            },
            _ => Err(make_type_error(v, "string or map")),
        }
    }
}

impl Default for CirclePitchScale {
    fn default() -> (r: Self)
        ensures
            r == CirclePitchScale::MapValue,
    {
        CirclePitchScale::MapValue
    }
}

/// Circle radius.
///
/// Range: 0..
#[derive(PartialEq, Debug, Clone)]
pub struct CircleRadius(JsonNumber);

impl View for CircleRadius {
    type V = Seq<char>;

    closed spec fn view(&self) -> Seq<char> {
        self.0@
    }
}

impl JsonDecode for CircleRadius {
    open spec fn accepts(v: Json) -> bool {
        v is Number
    }

    open spec fn decodes(v: Json, x: Self) -> bool {
        v == Json::Number(x@)
    }

    open spec fn rejection(v: Json) -> Seq<char> {
        JsonNumber::rejection(v)
    }

    fn decode(v: &JsonValue) -> (r: Result<Self, String>) {
        match JsonNumber::decode(v) {
            Ok(x) => Ok(CircleRadius(x)),
            Err(e) => Err(e),
        }
    }
}

impl JsonEncode for CircleRadius {
    open spec fn to_json(self) -> Json {
        Json::Number(self@)
    }

    open spec fn round_trips(self) -> bool {
        true
    }

    fn encode(&self) -> (r: JsonValue) {
        JsonNumber::encode(&self.0)
    }

    proof fn lemma_round_trip(self) {
        JsonNumber::lemma_round_trip(self.0);
    }
}

impl Default for CircleRadius {
    fn default() -> (r: Self)
        ensures
            r.to_json() == Json::Number("5"@),
    {
        let r = CircleRadius(JsonNumber::from_literal("5"));
        r
    }
}

/// The stroke color of the circle.
#[derive(PartialEq, Debug, Clone)]
pub struct CircleStrokeColor(ColorValue);

impl JsonDecode for CircleStrokeColor {
    closed spec fn accepts(v: Json) -> bool {
        ColorValue::accepts(v)
    }

    closed spec fn decodes(v: Json, x: Self) -> bool {
        ColorValue::decodes(v, x.0)
    }

    closed spec fn rejection(v: Json) -> Seq<char> {
        ColorValue::rejection(v)
    }

    fn decode(v: &JsonValue) -> (r: Result<Self, String>) {
        match ColorValue::decode(v) {
            Ok(x) => Ok(CircleStrokeColor(x)),
            Err(e) => Err(e),
        }
    }
}

impl JsonEncode for CircleStrokeColor {
    closed spec fn to_json(self) -> Json {
        ColorValue::to_json(self.0)
    }

    closed spec fn round_trips(self) -> bool {
        ColorValue::round_trips(self.0)
    }

    fn encode(&self) -> (r: JsonValue) {
        ColorValue::encode(&self.0)
    }

    proof fn lemma_round_trip(self) {
        ColorValue::lemma_round_trip(self.0);
    }
}

impl Default for CircleStrokeColor {
    fn default() -> (r: Self)
        ensures
            r.to_json() == Json::Str("#000000"@),
    {
        proof {
            reveal_strlit("#000000");
        }
        let r = CircleStrokeColor(default_color("#000000"));
        r
    }
}

/// The opacity of the circle's stroke.
///
/// Range: 0..=1
#[derive(PartialEq, Debug, Clone)]
pub struct CircleStrokeOpacity(JsonNumber);

impl View for CircleStrokeOpacity {
    type V = Seq<char>;

    closed spec fn view(&self) -> Seq<char> {
        self.0@
    }
}

impl JsonDecode for CircleStrokeOpacity {
    open spec fn accepts(v: Json) -> bool {
        v is Number
    }

    open spec fn decodes(v: Json, x: Self) -> bool {
        v == Json::Number(x@)
    }

    open spec fn rejection(v: Json) -> Seq<char> {
        JsonNumber::rejection(v)
    }

    fn decode(v: &JsonValue) -> (r: Result<Self, String>) {
        match JsonNumber::decode(v) {
            Ok(x) => Ok(CircleStrokeOpacity(x)),
            Err(e) => Err(e),
        }
    }
}

impl JsonEncode for CircleStrokeOpacity {
    open spec fn to_json(self) -> Json {
        Json::Number(self@)
    }

    open spec fn round_trips(self) -> bool {
        true
    }

    fn encode(&self) -> (r: JsonValue) {
        JsonNumber::encode(&self.0)
    }

    proof fn lemma_round_trip(self) {
        JsonNumber::lemma_round_trip(self.0);
    }
}

impl Default for CircleStrokeOpacity {
    fn default() -> (r: Self)
        ensures
            r.to_json() == Json::Number("1"@),
    {
        let r = CircleStrokeOpacity(JsonNumber::from_literal("1"));
        r
    }
}

/// The width of the circle's stroke. Strokes are placed outside of the `circle-radius`.
///
/// Range: 0..
#[derive(PartialEq, Debug, Clone)]
pub struct CircleStrokeWidth(JsonNumber);

impl View for CircleStrokeWidth {
    type V = Seq<char>;

    closed spec fn view(&self) -> Seq<char> {
        self.0@
    }
}

impl JsonDecode for CircleStrokeWidth {
    open spec fn accepts(v: Json) -> bool {
        v is Number
    }

    open spec fn decodes(v: Json, x: Self) -> bool {
        v == Json::Number(x@)
    }

    open spec fn rejection(v: Json) -> Seq<char> {
        JsonNumber::rejection(v)
    }

    fn decode(v: &JsonValue) -> (r: Result<Self, String>) {
        match JsonNumber::decode(v) {
            Ok(x) => Ok(CircleStrokeWidth(x)),
            Err(e) => Err(e),
        }
    }
}

impl JsonEncode for CircleStrokeWidth {
    open spec fn to_json(self) -> Json {
        Json::Number(self@)
    }

    open spec fn round_trips(self) -> bool {
        true
    }

    fn encode(&self) -> (r: JsonValue) {
        JsonNumber::encode(&self.0)
    }

    proof fn lemma_round_trip(self) {
        JsonNumber::lemma_round_trip(self.0);
    }
}

impl Default for CircleStrokeWidth {
    fn default() -> (r: Self)
        ensures
            r.to_json() == Json::Number("0"@),
    {
        let r = CircleStrokeWidth(JsonNumber::from_literal("0"));
        r
    }
}

/// The geometry's offset. Values are [x, y] where negatives indicate left and up, respectively.
#[derive(PartialEq, Debug, Clone)]
pub struct CircleTranslate(JsonValue);

impl View for CircleTranslate {
    type V = Json;

    closed spec fn view(&self) -> Json {
        self.0.model()
    }
}

impl JsonDecode for CircleTranslate {
    open spec fn accepts(v: Json) -> bool {
        true
    }

    open spec fn decodes(v: Json, x: Self) -> bool {
        v == x@
    }

    open spec fn rejection(v: Json) -> Seq<char> {
        JsonValue::rejection(v)
    }

    fn decode(v: &JsonValue) -> (r: Result<Self, String>) {
        match JsonValue::decode(v) {
            Ok(x) => Ok(CircleTranslate(x)),
            Err(e) => Err(e),
        }
    }
}

/// Controls the frame of reference for `circle-translate`.
#[derive(PartialEq, Eq, Debug, Clone, Copy)]
pub enum CircleTranslateAnchor {
    /// The circle is translated relative to the map.
    MapValue,
    /// The circle is translated relative to the viewport.
    Viewport,
}

impl CircleTranslateAnchor {
    /// The name that stands for the value in a style document.
    pub open spec fn spec_name(self) -> Seq<char> {
        match self {
            CircleTranslateAnchor::MapValue => "map"@,
            CircleTranslateAnchor::Viewport => "viewport"@,
        }
    }

    /// The name that stands for the value in a style document.
    pub fn name(&self) -> (r: &'static str)
        ensures
            r@ == self.spec_name(),
    {
        match self {
            CircleTranslateAnchor::MapValue => "map",
            CircleTranslateAnchor::Viewport => "viewport",
        }
    }

    /// The value that a name stands for, if any.
    pub fn from_name(s: &str) -> (r: Option<CircleTranslateAnchor>)
        ensures
            r matches Some(x) ==> x.spec_name() == s@,
            r is None ==> forall|x: CircleTranslateAnchor| x.spec_name() != s@,
    {
        if str_eq(s, "map") {
            Some(CircleTranslateAnchor::MapValue)
        } else if str_eq(s, "viewport") {
            Some(CircleTranslateAnchor::Viewport)
        } else {
            None
        }
    }
}

impl JsonDecode for CircleTranslateAnchor {
    /// The name of a value, or an object whose one entry has the name as its key and `null`.
    open spec fn accepts(v: Json) -> bool {
        ||| (v is Str && exists|x: CircleTranslateAnchor| x.spec_name() == v->Str_0)
        ||| (v is Object && v->Object_0.len() == 1 && v->Object_0[0].1 is Null && exists|x: CircleTranslateAnchor| x.spec_name() == v->Object_0[0].0)
    }

    open spec fn decodes(v: Json, x: Self) -> bool {
        ||| v == Json::Str(x.spec_name())
        ||| (v is Object && v->Object_0.len() == 1 && v->Object_0[0] == (x.spec_name(), Json::Null))
    }

    open spec fn rejection(v: Json) -> Seq<char> {
        if v is Str {
            unknown_variant(v->Str_0) + ", expected `map` or `viewport`"@
        } else if v is Object {
            let o = v->Object_0;
            if o.len() != 1 {
                "invalid value: map, expected map with a single key"@
            } else if !(exists|x: CircleTranslateAnchor| x.spec_name() == o[0].0) {
                unknown_variant(o[0].0) + ", expected `map` or `viewport`"@
            } else {
                type_error(o[0].1, "unit"@)
            }
        } else {
            type_error(v, "string or map"@)
        }
    }

    fn decode(v: &JsonValue) -> (r: Result<Self, String>) {
        match v {
            JsonValue::String(s) => match Self::from_name(s.as_str()) {
                Some(x) => Ok(x),
                None => {
                    let mut m = make_unknown_variant(s.as_str());
                    m.append(", expected `map` or `viewport`");
                    Err(m)
                },
            },
            JsonValue::Object(fields) => {
                if fields.len() != 1 {
                    return Err("invalid value: map, expected map with a single key".to_string());
                }
                proof {
                    assert(entries_model(*fields)[0] == (fields@[0].0@, fields@[0].1.model()));
                }
                match Self::from_name(fields[0].0.as_str()) {
                    Some(x) => match &fields[0].1 {
                        JsonValue::Null => Ok(x),
                        _ => Err(make_type_error(&fields[0].1, "unit")),
                    },
                    None => {
                        let mut m = make_unknown_variant(fields[0].0.as_str());
                        m.append(", expected `map` or `viewport`");
                        Err(m)
                    },
                }
            },
            _ => Err(make_type_error(v, "string or map")),
        }
    }
}

impl Default for CircleTranslateAnchor {
    fn default() -> (r: Self)
        ensures
            r == CircleTranslateAnchor::MapValue,
    {
        CircleTranslateAnchor::MapValue
    }
}

#[derive(PartialEq, Debug, Clone)]
pub struct PaintColorRelief {
    /// Defines the color of each pixel based on its elevation. Should be an expression that uses `["elevation"]` as input.
    pub color_relief_color: ColorReliefColor,
    /// The opacity at which the color-relief will be drawn.
    pub color_relief_opacity: ColorReliefOpacity,
}

impl JsonDecode for PaintColorRelief {
    /// An object with the fields by their keys, or an array with the fields in order.
    open spec fn accepts(v: Json) -> bool {
        ||| (v is Object && {
            let o = v->Object_0;
            &&& req_field_accepts::<ColorReliefColor>(o, "color-relief-color"@)
            &&& req_field_accepts::<ColorReliefOpacity>(o, "color-relief-opacity"@)
        })
        ||| (v is Array && {
            let a = v->Array_0;
            &&& seq_req_accepts::<ColorReliefColor>(a, 0)
            &&& seq_req_accepts::<ColorReliefOpacity>(a, 1)
            &&& a.len() <= 2
        })
    }

    open spec fn decodes(v: Json, x: Self) -> bool {
        ||| (v is Object && {
            let o = v->Object_0;
            &&& req_field_decodes::<ColorReliefColor>(o, "color-relief-color"@, x.color_relief_color)
            &&& req_field_decodes::<ColorReliefOpacity>(o, "color-relief-opacity"@, x.color_relief_opacity)
        })
        ||| (v is Array && {
            let a = v->Array_0;
            &&& seq_req_decodes::<ColorReliefColor>(a, 0, x.color_relief_color)
            &&& seq_req_decodes::<ColorReliefOpacity>(a, 1, x.color_relief_opacity)
        })
    }

    /// For an object, the first entry in order whose value does not read as its field, else the
    /// first required field that is missing.
    open spec fn rejection(v: Json) -> Seq<char> {
        if v is Object {
            let o = v->Object_0;
            match Self::first_fault(o, 0) {
                Some(m) => m,
                None => if lookup(o, "color-relief-color"@) is None {
                    missing_field("color-relief-color"@)
                } else if lookup(o, "color-relief-opacity"@) is None {
                    missing_field("color-relief-opacity"@)
                } else {
                    Seq::empty()
                },
            }
        } else if v is Array {
            let a = v->Array_0;
            if !seq_req_accepts::<ColorReliefColor>(a, 0) {
                seq_req_rejection::<ColorReliefColor>(a, 0, "struct PaintColorRelief with 2 elements"@)
            } else if !seq_req_accepts::<ColorReliefOpacity>(a, 1) {
                seq_req_rejection::<ColorReliefOpacity>(a, 1, "struct PaintColorRelief with 2 elements"@)
            } else if a.len() > 2 {
                length_error(a.len())
            } else {
                Seq::empty()
            }
        } else {
            type_error(v, "struct PaintColorRelief"@)
        }
    }

    fn decode(v: &JsonValue) -> (r: Result<Self, String>) {
        match v {
            JsonValue::Object(fields) => {
                let color_relief_color = match decode_req_field::<ColorReliefColor>(fields, "color-relief-color") {
                    Ok(x) => x,
                    Err(_) => return Err(Self::object_rejection(fields)),
                };
                let color_relief_opacity = match decode_req_field::<ColorReliefOpacity>(fields, "color-relief-opacity") {
                    Ok(x) => x,
                    Err(_) => return Err(Self::object_rejection(fields)),
                };
                Ok(PaintColorRelief { color_relief_color, color_relief_opacity })
            },
            JsonValue::Array(a) => {
                let color_relief_color = match decode_seq_req::<ColorReliefColor>(a, 0, "struct PaintColorRelief with 2 elements") {
                    Ok(x) => x,
                    Err(e) => return Err(e),
                };
                let color_relief_opacity = match decode_seq_req::<ColorReliefOpacity>(a, 1, "struct PaintColorRelief with 2 elements") {
                    Ok(x) => x,
                    Err(e) => return Err(e),
                };
                if a.len() > 2 {
                    return Err(make_length_error(a.len()));
                }
                Ok(PaintColorRelief { color_relief_color, color_relief_opacity })
            },
            _ => Err(make_type_error(v, "struct PaintColorRelief")),
        }
    }
}

impl PaintColorRelief {
    /// What is wrong with the value `w` of an entry with key `k`, where `k` is the key of a field.
    pub open spec fn field_fault(k: Seq<char>, w: Json) -> Option<Seq<char>> {
        if k == "color-relief-color"@ {
            if ColorReliefColor::accepts(w) {
                None
            } else {
                Some(ColorReliefColor::rejection(w))
            }
        } else if k == "color-relief-opacity"@ {
            if ColorReliefOpacity::accepts(w) {
                None
            } else {
                Some(ColorReliefOpacity::rejection(w))
            }
        } else {
            None
        }
    }

    /// The message of the first entry of `o`, from entry `i` on and among the first entries of
    /// their keys, whose value does not read as its field, if any.
    pub open spec fn first_fault(o: Seq<(Seq<char>, Json)>, i: int) -> Option<Seq<char>>
        decreases o.len() - i,
    {
        if i < 0 || i >= o.len() {
            None
        } else if first_with_key(o, i) && Self::field_fault(o[i].0, o[i].1) is Some {
            Self::field_fault(o[i].0, o[i].1)
        } else {
            Self::first_fault(o, i + 1)
        }
    }

    fn find_field_fault(k: &str, w: &JsonValue) -> (r: Option<String>)
        ensures
            match r {
                Some(m) => Self::field_fault(k@, w.model()) == Some(m@),
                None => Self::field_fault(k@, w.model()) is None,
            },
    {
        if str_eq(k, "color-relief-color") {
            match ColorReliefColor::decode(w) {
                Ok(_) => None,
                Err(e) => Some(e),
            }
        } else if str_eq(k, "color-relief-opacity") {
            match ColorReliefOpacity::decode(w) {
                Ok(_) => None,
                Err(e) => Some(e),
            }
        } else {
            None
        }
    }

    fn object_rejection(fields: &Vec<(String, JsonValue)>) -> (r: String)
        ensures
            r@ == Self::rejection(JsonValue::Object(*fields).model()),
    {
        let ghost o = entries_model(*fields);
        let mut i: usize = 0;
        while i < fields.len()
            invariant
                o == entries_model(*fields),
                o.len() == fields.len(),
                i <= fields.len(),
                Self::first_fault(o, 0) == Self::first_fault(o, i as int),
            decreases fields.len() - i,
        {
            proof {
                assert(o[i as int] == (fields@[i as int].0@, fields@[i as int].1.model()));
            }
            if !key_seen_before(fields, i) {
                match Self::find_field_fault(fields[i].0.as_str(), &fields[i].1) {
                    Some(m) => {
                        return m;
                    },
                    None => {},
                }
            }
            i += 1;
        }
        if get_field(fields, "color-relief-color").is_none() {
            return make_missing_field("color-relief-color");
        }
        if get_field(fields, "color-relief-opacity").is_none() {
            return make_missing_field("color-relief-opacity");
        }
        String::new()
    }
}

/// Defines the color of each pixel based on its elevation. Should be an expression that uses `["elevation"]` as input.
#[derive(PartialEq, Debug, Clone)]
pub struct ColorReliefColor(ColorValue);

impl JsonDecode for ColorReliefColor {
    closed spec fn accepts(v: Json) -> bool {
        ColorValue::accepts(v)
    }

    closed spec fn decodes(v: Json, x: Self) -> bool {
        ColorValue::decodes(v, x.0)
    }

    closed spec fn rejection(v: Json) -> Seq<char> {
        ColorValue::rejection(v)
    }

    fn decode(v: &JsonValue) -> (r: Result<Self, String>) {
        match ColorValue::decode(v) {
            Ok(x) => Ok(ColorReliefColor(x)),
            Err(e) => Err(e),
        }
    }
}

/// The opacity at which the color-relief will be drawn.
///
/// Range: 0..=1
#[derive(PartialEq, Debug, Clone)]
pub struct ColorReliefOpacity(JsonNumber);

impl View for ColorReliefOpacity {
    type V = Seq<char>;

    closed spec fn view(&self) -> Seq<char> {
        self.0@
    }
}

impl JsonDecode for ColorReliefOpacity {
    open spec fn accepts(v: Json) -> bool {
        v is Number
    }

    open spec fn decodes(v: Json, x: Self) -> bool {
        v == Json::Number(x@)
    }

    open spec fn rejection(v: Json) -> Seq<char> {
        JsonNumber::rejection(v)
    }

    fn decode(v: &JsonValue) -> (r: Result<Self, String>) {
        match JsonNumber::decode(v) {
            Ok(x) => Ok(ColorReliefOpacity(x)),
            Err(e) => Err(e),
        }
    }
}

impl JsonEncode for ColorReliefOpacity {
    open spec fn to_json(self) -> Json {
        Json::Number(self@)
    }

    open spec fn round_trips(self) -> bool {
        true
    }

    fn encode(&self) -> (r: JsonValue) {
        JsonNumber::encode(&self.0)
    }

    proof fn lemma_round_trip(self) {
        JsonNumber::lemma_round_trip(self.0);
    }
}

impl Default for ColorReliefOpacity {
    fn default() -> (r: Self)
        ensures
            r.to_json() == Json::Number("1"@),
    {
        let r = ColorReliefOpacity(JsonNumber::from_literal("1"));
        r
    }
}

#[derive(PartialEq, Debug, Clone)]
pub struct PaintFill {
    /// Whether or not the fill should be antialiased.
    pub fill_antialias: FillAntialias,
    /// The color of the filled part of this layer. This color can be specified as `rgba` with an alpha component and the color's opacity will not affect the opacity of the 1px stroke, if it is used.
    pub fill_color: FillColor,
    /// The opacity of the entire fill layer. In contrast to the `fill-color`, this value will also affect the 1px stroke around the fill, if the stroke is used.
    pub fill_opacity: FillOpacity,
    /// The outline color of the fill. Matches the value of `fill-color` if unspecified.
    pub fill_outline_color: FillOutlineColor,
    /// Name of image in sprite to use for drawing image fills. For seamless patterns, image width and height must be a factor of two (2, 4, 8, ..., 512). Note that zoom-dependent expressions will be evaluated only at integer zoom levels.
    pub fill_pattern: FillPattern,
    /// The geometry's offset. Values are [x, y] where negatives indicate left and up, respectively.
    pub fill_translate: FillTranslate,
    /// Controls the frame of reference for `fill-translate`.
    pub fill_translate_anchor: FillTranslateAnchor,
}

impl JsonDecode for PaintFill {
    /// An object with the fields by their keys, or an array with the fields in order.
    open spec fn accepts(v: Json) -> bool {
        ||| (v is Object && {
            let o = v->Object_0;
            &&& req_field_accepts::<FillAntialias>(o, "fill-antialias"@)
            &&& req_field_accepts::<FillColor>(o, "fill-color"@)
            &&& req_field_accepts::<FillOpacity>(o, "fill-opacity"@)
            &&& req_field_accepts::<FillOutlineColor>(o, "fill-outline-color"@)
            &&& req_field_accepts::<FillPattern>(o, "fill-pattern"@)
            &&& req_field_accepts::<FillTranslate>(o, "fill-translate"@)
            &&& req_field_accepts::<FillTranslateAnchor>(o, "fill-translate-anchor"@)
        })
        ||| (v is Array && {
            let a = v->Array_0;
            &&& seq_req_accepts::<FillAntialias>(a, 0)
            &&& seq_req_accepts::<FillColor>(a, 1)
            &&& seq_req_accepts::<FillOpacity>(a, 2)
            &&& seq_req_accepts::<FillOutlineColor>(a, 3)
            &&& seq_req_accepts::<FillPattern>(a, 4)
            &&& seq_req_accepts::<FillTranslate>(a, 5)
            &&& seq_req_accepts::<FillTranslateAnchor>(a, 6)
            &&& a.len() <= 7
        })
    }

    open spec fn decodes(v: Json, x: Self) -> bool {
        ||| (v is Object && {
            let o = v->Object_0;
            &&& req_field_decodes::<FillAntialias>(o, "fill-antialias"@, x.fill_antialias)
            &&& req_field_decodes::<FillColor>(o, "fill-color"@, x.fill_color)
            &&& req_field_decodes::<FillOpacity>(o, "fill-opacity"@, x.fill_opacity)
            &&& req_field_decodes::<FillOutlineColor>(o, "fill-outline-color"@, x.fill_outline_color)
            &&& req_field_decodes::<FillPattern>(o, "fill-pattern"@, x.fill_pattern)
            &&& req_field_decodes::<FillTranslate>(o, "fill-translate"@, x.fill_translate)
            &&& req_field_decodes::<FillTranslateAnchor>(o, "fill-translate-anchor"@, x.fill_translate_anchor)
        })
        ||| (v is Array && {
            let a = v->Array_0;
            &&& seq_req_decodes::<FillAntialias>(a, 0, x.fill_antialias)
            &&& seq_req_decodes::<FillColor>(a, 1, x.fill_color)
            &&& seq_req_decodes::<FillOpacity>(a, 2, x.fill_opacity)
            &&& seq_req_decodes::<FillOutlineColor>(a, 3, x.fill_outline_color)
            &&& seq_req_decodes::<FillPattern>(a, 4, x.fill_pattern)
            &&& seq_req_decodes::<FillTranslate>(a, 5, x.fill_translate)
            &&& seq_req_decodes::<FillTranslateAnchor>(a, 6, x.fill_translate_anchor)
        })
    }

    /// For an object, the first entry in order whose value does not read as its field, else the
    /// first required field that is missing.
    open spec fn rejection(v: Json) -> Seq<char> {
        if v is Object {
            let o = v->Object_0;
            match Self::first_fault(o, 0) {
                Some(m) => m,
                None => if lookup(o, "fill-antialias"@) is None {
                    missing_field("fill-antialias"@)
                } else if lookup(o, "fill-color"@) is None {
                    missing_field("fill-color"@)
                } else if lookup(o, "fill-opacity"@) is None {
                    missing_field("fill-opacity"@)
                } else if lookup(o, "fill-outline-color"@) is None {
                    missing_field("fill-outline-color"@)
                } else if lookup(o, "fill-pattern"@) is None {
                    missing_field("fill-pattern"@)
                } else if lookup(o, "fill-translate"@) is None {
                    missing_field("fill-translate"@)
                } else if lookup(o, "fill-translate-anchor"@) is None {
                    missing_field("fill-translate-anchor"@)
                } else {
                    Seq::empty()
                },
            }
        } else if v is Array {
            let a = v->Array_0;
            if !seq_req_accepts::<FillAntialias>(a, 0) {
                seq_req_rejection::<FillAntialias>(a, 0, "struct PaintFill with 7 elements"@)
            } else if !seq_req_accepts::<FillColor>(a, 1) {
                seq_req_rejection::<FillColor>(a, 1, "struct PaintFill with 7 elements"@)
            } else if !seq_req_accepts::<FillOpacity>(a, 2) {
                seq_req_rejection::<FillOpacity>(a, 2, "struct PaintFill with 7 elements"@)
            } else if !seq_req_accepts::<FillOutlineColor>(a, 3) {
                seq_req_rejection::<FillOutlineColor>(a, 3, "struct PaintFill with 7 elements"@)
            } else if !seq_req_accepts::<FillPattern>(a, 4) {
                seq_req_rejection::<FillPattern>(a, 4, "struct PaintFill with 7 elements"@)
            } else if !seq_req_accepts::<FillTranslate>(a, 5) {
                seq_req_rejection::<FillTranslate>(a, 5, "struct PaintFill with 7 elements"@)
            } else if !seq_req_accepts::<FillTranslateAnchor>(a, 6) {
                seq_req_rejection::<FillTranslateAnchor>(a, 6, "struct PaintFill with 7 elements"@)
            } else if a.len() > 7 {
                length_error(a.len())
            } else {
                Seq::empty()
            }
        } else {
            type_error(v, "struct PaintFill"@)
        }
    }

    fn decode(v: &JsonValue) -> (r: Result<Self, String>) {
        match v {
            JsonValue::Object(fields) => {
                let fill_antialias = match decode_req_field::<FillAntialias>(fields, "fill-antialias") {
                    Ok(x) => x,
                    Err(_) => return Err(Self::object_rejection(fields)),
                };
                let fill_color = match decode_req_field::<FillColor>(fields, "fill-color") {
                    Ok(x) => x,
                    Err(_) => return Err(Self::object_rejection(fields)),
                };
                let fill_opacity = match decode_req_field::<FillOpacity>(fields, "fill-opacity") {
                    Ok(x) => x,
                    Err(_) => return Err(Self::object_rejection(fields)),
                };
                let fill_outline_color = match decode_req_field::<FillOutlineColor>(fields, "fill-outline-color") {
                    Ok(x) => x,
                    Err(_) => return Err(Self::object_rejection(fields)),
                };
                let fill_pattern = match decode_req_field::<FillPattern>(fields, "fill-pattern") {
                    Ok(x) => x,
                    Err(_) => return Err(Self::object_rejection(fields)),
                };
                let fill_translate = match decode_req_field::<FillTranslate>(fields, "fill-translate") {
                    Ok(x) => x,
                    Err(_) => return Err(Self::object_rejection(fields)),
                };
                let fill_translate_anchor = match decode_req_field::<FillTranslateAnchor>(fields, "fill-translate-anchor") {
                    Ok(x) => x,
                    Err(_) => return Err(Self::object_rejection(fields)),
                };
                Ok(PaintFill { fill_antialias, fill_color, fill_opacity, fill_outline_color, fill_pattern, fill_translate, fill_translate_anchor })
            },
            JsonValue::Array(a) => {
                let fill_antialias = match decode_seq_req::<FillAntialias>(a, 0, "struct PaintFill with 7 elements") {
                    Ok(x) => x,
                    Err(e) => return Err(e),
                };
                let fill_color = match decode_seq_req::<FillColor>(a, 1, "struct PaintFill with 7 elements") {
                    Ok(x) => x,
                    Err(e) => return Err(e),
                };
                let fill_opacity = match decode_seq_req::<FillOpacity>(a, 2, "struct PaintFill with 7 elements") {
                    Ok(x) => x,
                    Err(e) => return Err(e),
                };
                let fill_outline_color = match decode_seq_req::<FillOutlineColor>(a, 3, "struct PaintFill with 7 elements") {
                    Ok(x) => x,
                    Err(e) => return Err(e),
                };
                let fill_pattern = match decode_seq_req::<FillPattern>(a, 4, "struct PaintFill with 7 elements") {
                    Ok(x) => x,
                    Err(e) => return Err(e),
                };
                let fill_translate = match decode_seq_req::<FillTranslate>(a, 5, "struct PaintFill with 7 elements") {
                    Ok(x) => x,
                    Err(e) => return Err(e),
                };
                let fill_translate_anchor = match decode_seq_req::<FillTranslateAnchor>(a, 6, "struct PaintFill with 7 elements") {
                    Ok(x) => x,
                    Err(e) => return Err(e),
                };
                if a.len() > 7 {
                    return Err(make_length_error(a.len()));
                }
                Ok(PaintFill { fill_antialias, fill_color, fill_opacity, fill_outline_color, fill_pattern, fill_translate, fill_translate_anchor })
            },
            _ => Err(make_type_error(v, "struct PaintFill")),
        }
    }
}

impl PaintFill {
    /// What is wrong with the value `w` of an entry with key `k`, where `k` is the key of a field.
    pub open spec fn field_fault(k: Seq<char>, w: Json) -> Option<Seq<char>> {
        if k == "fill-antialias"@ {
            if FillAntialias::accepts(w) {
                None
            } else {
                Some(FillAntialias::rejection(w))
            }
        } else if k == "fill-color"@ {
            if FillColor::accepts(w) {
                None
            } else {
                Some(FillColor::rejection(w))
            }
        } else if k == "fill-opacity"@ {
            if FillOpacity::accepts(w) {
                None
            } else {
                Some(FillOpacity::rejection(w))
            }
        } else if k == "fill-outline-color"@ {
            if FillOutlineColor::accepts(w) {
                None
            } else {
                Some(FillOutlineColor::rejection(w))
            }
        } else if k == "fill-pattern"@ {
            if FillPattern::accepts(w) {
                None
            } else {
                Some(FillPattern::rejection(w))
            }
        } else if k == "fill-translate"@ {
            if FillTranslate::accepts(w) {
                None
            } else {
                Some(FillTranslate::rejection(w))
            }
        } else if k == "fill-translate-anchor"@ {
            if FillTranslateAnchor::accepts(w) {
                None
            } else {
                Some(FillTranslateAnchor::rejection(w))
            }
        } else {
            None
        }
    }

    /// The message of the first entry of `o`, from entry `i` on and among the first entries of
    /// their keys, whose value does not read as its field, if any.
    pub open spec fn first_fault(o: Seq<(Seq<char>, Json)>, i: int) -> Option<Seq<char>>
        decreases o.len() - i,
    {
        if i < 0 || i >= o.len() {
            None
        } else if first_with_key(o, i) && Self::field_fault(o[i].0, o[i].1) is Some {
            Self::field_fault(o[i].0, o[i].1)
        } else {
            Self::first_fault(o, i + 1)
        }
    }

    fn find_field_fault(k: &str, w: &JsonValue) -> (r: Option<String>)
        ensures
            match r {
                Some(m) => Self::field_fault(k@, w.model()) == Some(m@),
                None => Self::field_fault(k@, w.model()) is None,
            },
    {
        if str_eq(k, "fill-antialias") {
            match FillAntialias::decode(w) {
                Ok(_) => None,
                Err(e) => Some(e),
            }
        } else if str_eq(k, "fill-color") {
            match FillColor::decode(w) {
                Ok(_) => None,
                Err(e) => Some(e),
            }
        } else if str_eq(k, "fill-opacity") {
            match FillOpacity::decode(w) {
                Ok(_) => None,
                Err(e) => Some(e),
            }
        } else if str_eq(k, "fill-outline-color") {
            match FillOutlineColor::decode(w) {
                Ok(_) => None,
                Err(e) => Some(e),
            }
        } else if str_eq(k, "fill-pattern") {
            match FillPattern::decode(w) {
                Ok(_) => None,
                Err(e) => Some(e),
            }
        } else if str_eq(k, "fill-translate") {
            match FillTranslate::decode(w) {
                Ok(_) => None,
                Err(e) => Some(e),
            }
        } else if str_eq(k, "fill-translate-anchor") {
            match FillTranslateAnchor::decode(w) {
                Ok(_) => None,
                Err(e) => Some(e),
            }
        } else {
            None
        }
    }

    fn object_rejection(fields: &Vec<(String, JsonValue)>) -> (r: String)
        ensures
            r@ == Self::rejection(JsonValue::Object(*fields).model()),
    {
        let ghost o = entries_model(*fields);
        let mut i: usize = 0;
        while i < fields.len()
            invariant
                o == entries_model(*fields),
                o.len() == fields.len(),
                i <= fields.len(),
                Self::first_fault(o, 0) == Self::first_fault(o, i as int),
            decreases fields.len() - i,
        {
            proof {
                assert(o[i as int] == (fields@[i as int].0@, fields@[i as int].1.model()));
            }
            if !key_seen_before(fields, i) {
                match Self::find_field_fault(fields[i].0.as_str(), &fields[i].1) {
                    Some(m) => {
                        return m;
                    },
                    None => {},
                }
            }
            i += 1;
        }
        if get_field(fields, "fill-antialias").is_none() {
            return make_missing_field("fill-antialias");
        }
        if get_field(fields, "fill-color").is_none() {
            return make_missing_field("fill-color");
        }
        if get_field(fields, "fill-opacity").is_none() {
            return make_missing_field("fill-opacity");
        }
        if get_field(fields, "fill-outline-color").is_none() {
            return make_missing_field("fill-outline-color");
        }
        if get_field(fields, "fill-pattern").is_none() {
            return make_missing_field("fill-pattern");
        }
        if get_field(fields, "fill-translate").is_none() {
            return make_missing_field("fill-translate");
        }
        if get_field(fields, "fill-translate-anchor").is_none() {
            return make_missing_field("fill-translate-anchor");
        }
        String::new()
    }
}

/// Whether or not the fill should be antialiased.
#[derive(PartialEq, Debug, Clone)]
pub struct FillAntialias(JsonValue);

impl View for FillAntialias {
    type V = Json;

    closed spec fn view(&self) -> Json {
        self.0.model()
    }
}

impl JsonDecode for FillAntialias {
    open spec fn accepts(v: Json) -> bool {
        true
    }

    open spec fn decodes(v: Json, x: Self) -> bool {
        v == x@
    }

    open spec fn rejection(v: Json) -> Seq<char> {
        JsonValue::rejection(v)
    }

    fn decode(v: &JsonValue) -> (r: Result<Self, String>) {
        match JsonValue::decode(v) {
            Ok(x) => Ok(FillAntialias(x)),
            Err(e) => Err(e),
        }
    }
}

/// The color of the filled part of this layer. This color can be specified as `rgba` with an alpha component and the color's opacity will not affect the opacity of the 1px stroke, if it is used.
#[derive(PartialEq, Debug, Clone)]
pub struct FillColor(ColorValue);

impl JsonDecode for FillColor {
    closed spec fn accepts(v: Json) -> bool {
        ColorValue::accepts(v)
    }

    closed spec fn decodes(v: Json, x: Self) -> bool {
        ColorValue::decodes(v, x.0)
    }

    closed spec fn rejection(v: Json) -> Seq<char> {
        ColorValue::rejection(v)
    }

    fn decode(v: &JsonValue) -> (r: Result<Self, String>) {
        match ColorValue::decode(v) {
            Ok(x) => Ok(FillColor(x)),
            Err(e) => Err(e),
        }
    }
}

impl JsonEncode for FillColor {
    closed spec fn to_json(self) -> Json {
        ColorValue::to_json(self.0)
    }

    closed spec fn round_trips(self) -> bool {
        ColorValue::round_trips(self.0)
    }

    fn encode(&self) -> (r: JsonValue) {
        ColorValue::encode(&self.0)
    }

    proof fn lemma_round_trip(self) {
        ColorValue::lemma_round_trip(self.0);
    }
}

impl Default for FillColor {
    fn default() -> (r: Self)
        ensures
            r.to_json() == Json::Str("#000000"@),
    {
        proof {
            reveal_strlit("#000000");
        }
        let r = FillColor(default_color("#000000"));
        r
    }
}

/// The opacity of the entire fill layer. In contrast to the `fill-color`, this value will also affect the 1px stroke around the fill, if the stroke is used.
///
/// Range: 0..=1
#[derive(PartialEq, Debug, Clone)]
pub struct FillOpacity(JsonNumber);

impl View for FillOpacity {
    type V = Seq<char>;

    closed spec fn view(&self) -> Seq<char> {
        self.0@
    }
}

impl JsonDecode for FillOpacity {
    open spec fn accepts(v: Json) -> bool {
        v is Number
    }

    open spec fn decodes(v: Json, x: Self) -> bool {
        v == Json::Number(x@)
    }

    open spec fn rejection(v: Json) -> Seq<char> {
        JsonNumber::rejection(v)
    }

    fn decode(v: &JsonValue) -> (r: Result<Self, String>) {
        match JsonNumber::decode(v) {
            Ok(x) => Ok(FillOpacity(x)),
            Err(e) => Err(e),
        }
    }
}

impl JsonEncode for FillOpacity {
    open spec fn to_json(self) -> Json {
        Json::Number(self@)
    }

    open spec fn round_trips(self) -> bool {
        true
    }

    fn encode(&self) -> (r: JsonValue) {
        JsonNumber::encode(&self.0)
    }

    proof fn lemma_round_trip(self) {
        JsonNumber::lemma_round_trip(self.0);
    }
}

impl Default for FillOpacity {
    fn default() -> (r: Self)
        ensures
            r.to_json() == Json::Number("1"@),
    {
        let r = FillOpacity(JsonNumber::from_literal("1"));
        r
    }
}

/// The outline color of the fill. Matches the value of `fill-color` if unspecified.
#[derive(PartialEq, Debug, Clone)]
pub struct FillOutlineColor(ColorValue);

impl JsonDecode for FillOutlineColor {
    closed spec fn accepts(v: Json) -> bool {
        ColorValue::accepts(v)
    }

    closed spec fn decodes(v: Json, x: Self) -> bool {
        ColorValue::decodes(v, x.0)
    }

    closed spec fn rejection(v: Json) -> Seq<char> {
        ColorValue::rejection(v)
    }

    fn decode(v: &JsonValue) -> (r: Result<Self, String>) {
        match ColorValue::decode(v) {
            Ok(x) => Ok(FillOutlineColor(x)),
            Err(e) => Err(e),
        }
    }
}

/// Name of image in sprite to use for drawing image fills. For seamless patterns, image width and height must be a factor of two (2, 4, 8, ..., 512). Note that zoom-dependent expressions will be evaluated only at integer zoom levels.
#[derive(PartialEq, Debug, Clone)]
pub struct FillPattern(JsonValue);

impl View for FillPattern {
    type V = Json;

    closed spec fn view(&self) -> Json {
        self.0.model()
    }
}

impl JsonDecode for FillPattern {
    open spec fn accepts(v: Json) -> bool {
        true
    }

    open spec fn decodes(v: Json, x: Self) -> bool {
        v == x@
    }

    open spec fn rejection(v: Json) -> Seq<char> {
        JsonValue::rejection(v)
    }

    fn decode(v: &JsonValue) -> (r: Result<Self, String>) {
        match JsonValue::decode(v) {
            Ok(x) => Ok(FillPattern(x)),
            Err(e) => Err(e),
        }
    }
}

/// The geometry's offset. Values are [x, y] where negatives indicate left and up, respectively.
#[derive(PartialEq, Debug, Clone)]
pub struct FillTranslate(JsonValue);

impl View for FillTranslate {
    type V = Json;

    closed spec fn view(&self) -> Json {
        self.0.model()
    }
}

impl JsonDecode for FillTranslate {
    open spec fn accepts(v: Json) -> bool {
        true
    }

    open spec fn decodes(v: Json, x: Self) -> bool {
        v == x@
    }

    open spec fn rejection(v: Json) -> Seq<char> {
        JsonValue::rejection(v)
    }

    fn decode(v: &JsonValue) -> (r: Result<Self, String>) {
        match JsonValue::decode(v) {
            Ok(x) => Ok(FillTranslate(x)),
            Err(e) => Err(e),
        }
    }
}

/// Controls the frame of reference for `fill-translate`.
#[derive(PartialEq, Eq, Debug, Clone, Copy)]
pub enum FillTranslateAnchor {
    /// The fill is translated relative to the map.
    MapValue,
    /// The fill is translated relative to the viewport.
    Viewport,
}

impl FillTranslateAnchor {
    /// The name that stands for the value in a style document.
    pub open spec fn spec_name(self) -> Seq<char> {
        match self {
            FillTranslateAnchor::MapValue => "map"@,
            FillTranslateAnchor::Viewport => "viewport"@,
        }
    }

    /// The name that stands for the value in a style document.
    pub fn name(&self) -> (r: &'static str)
        ensures
            r@ == self.spec_name(),
    {
        match self {
            FillTranslateAnchor::MapValue => "map",
            FillTranslateAnchor::Viewport => "viewport",
        }
    }

    /// The value that a name stands for, if any.
    pub fn from_name(s: &str) -> (r: Option<FillTranslateAnchor>)
        ensures
            r matches Some(x) ==> x.spec_name() == s@,
            r is None ==> forall|x: FillTranslateAnchor| x.spec_name() != s@,
    {
        if str_eq(s, "map") {
            Some(FillTranslateAnchor::MapValue)
        } else if str_eq(s, "viewport") {
            Some(FillTranslateAnchor::Viewport)
        } else {
            None
        }
    }
}

impl JsonDecode for FillTranslateAnchor {
    /// The name of a value, or an object whose one entry has the name as its key and `null`.
    open spec fn accepts(v: Json) -> bool {
        ||| (v is Str && exists|x: FillTranslateAnchor| x.spec_name() == v->Str_0)
        ||| (v is Object && v->Object_0.len() == 1 && v->Object_0[0].1 is Null && exists|x: FillTranslateAnchor| x.spec_name() == v->Object_0[0].0)
    }

    open spec fn decodes(v: Json, x: Self) -> bool {
        ||| v == Json::Str(x.spec_name())
        ||| (v is Object && v->Object_0.len() == 1 && v->Object_0[0] == (x.spec_name(), Json::Null))
    }

    open spec fn rejection(v: Json) -> Seq<char> {
        if v is Str {
            unknown_variant(v->Str_0) + ", expected `map` or `viewport`"@
        } else if v is Object {
            let o = v->Object_0;
            if o.len() != 1 {
                "invalid value: map, expected map with a single key"@
            } else if !(exists|x: FillTranslateAnchor| x.spec_name() == o[0].0) {
                unknown_variant(o[0].0) + ", expected `map` or `viewport`"@
            } else {
                type_error(o[0].1, "unit"@)
            }
        } else {
            type_error(v, "string or map"@)
        }
    }

    fn decode(v: &JsonValue) -> (r: Result<Self, String>) {
        match v {
            JsonValue::String(s) => match Self::from_name(s.as_str()) {
                Some(x) => Ok(x),
                None => {
                    let mut m = make_unknown_variant(s.as_str());
                    m.append(", expected `map` or `viewport`");
                    Err(m)
                },
            },
            JsonValue::Object(fields) => {
                if fields.len() != 1 {
                    return Err("invalid value: map, expected map with a single key".to_string());
                }
                proof {
                    assert(entries_model(*fields)[0] == (fields@[0].0@, fields@[0].1.model()));
                }
                match Self::from_name(fields[0].0.as_str()) {
                    Some(x) => match &fields[0].1 {
                        JsonValue::Null => Ok(x),
                        _ => Err(make_type_error(&fields[0].1, "unit")),
                    },
                    None => {
                        let mut m = make_unknown_variant(fields[0].0.as_str());
                        m.append(", expected `map` or `viewport`");
                        Err(m)
                    },
                }
            },
            _ => Err(make_type_error(v, "string or map")),
        }
    }
}

impl Default for FillTranslateAnchor {
    fn default() -> (r: Self)
        ensures
            r == FillTranslateAnchor::MapValue,
    {
        FillTranslateAnchor::MapValue
    }
}

#[derive(PartialEq, Debug, Clone)]
pub struct PaintFillExtrusion {
    /// The height with which to extrude the base of this layer. Must be less than or equal to `fill-extrusion-height`.
    pub fill_extrusion_base: FillExtrusionBase,
    /// The base color of the extruded fill. The extrusion's surfaces will be shaded differently based on this color in combination with the root `light` settings. If this color is specified as `rgba` with an alpha component, the alpha component will be ignored; use `fill-extrusion-opacity` to set layer opacity.
    pub fill_extrusion_color: FillExtrusionColor,
    /// The height with which to extrude this layer.
    pub fill_extrusion_height: FillExtrusionHeight,
    /// The opacity of the entire fill extrusion layer. This is rendered on a per-layer, not per-feature, basis, and data-driven styling is not available.
    pub fill_extrusion_opacity: FillExtrusionOpacity,
    /// Name of image in sprite to use for drawing images on extruded fills. For seamless patterns, image width and height must be a factor of two (2, 4, 8, ..., 512). Note that zoom-dependent expressions will be evaluated only at integer zoom levels.
    pub fill_extrusion_pattern: FillExtrusionPattern,
    /// The geometry's offset. Values are [x, y] where negatives indicate left and up (on the flat plane), respectively.
    pub fill_extrusion_translate: FillExtrusionTranslate,
    /// Controls the frame of reference for `fill-extrusion-translate`.
    pub fill_extrusion_translate_anchor: FillExtrusionTranslateAnchor,
    /// Whether to apply a vertical gradient to the sides of a fill-extrusion layer. If true, sides will be shaded slightly darker farther down.
    pub fill_extrusion_vertical_gradient: FillExtrusionVerticalGradient,
}

impl JsonDecode for PaintFillExtrusion {
    /// An object with the fields by their keys, or an array with the fields in order.
    open spec fn accepts(v: Json) -> bool {
        ||| (v is Object && {
            let o = v->Object_0;
            &&& req_field_accepts::<FillExtrusionBase>(o, "fill-extrusion-base"@)
            &&& req_field_accepts::<FillExtrusionColor>(o, "fill-extrusion-color"@)
            &&& req_field_accepts::<FillExtrusionHeight>(o, "fill-extrusion-height"@)
            &&& req_field_accepts::<FillExtrusionOpacity>(o, "fill-extrusion-opacity"@)
            &&& req_field_accepts::<FillExtrusionPattern>(o, "fill-extrusion-pattern"@)
            &&& req_field_accepts::<FillExtrusionTranslate>(o, "fill-extrusion-translate"@)
            &&& req_field_accepts::<FillExtrusionTranslateAnchor>(o, "fill-extrusion-translate-anchor"@)
            &&& req_field_accepts::<FillExtrusionVerticalGradient>(o, "fill-extrusion-vertical-gradient"@)
        })
        ||| (v is Array && {
            let a = v->Array_0;
            &&& seq_req_accepts::<FillExtrusionBase>(a, 0)
            &&& seq_req_accepts::<FillExtrusionColor>(a, 1)
            &&& seq_req_accepts::<FillExtrusionHeight>(a, 2)
            &&& seq_req_accepts::<FillExtrusionOpacity>(a, 3)
            &&& seq_req_accepts::<FillExtrusionPattern>(a, 4)
            &&& seq_req_accepts::<FillExtrusionTranslate>(a, 5)
            &&& seq_req_accepts::<FillExtrusionTranslateAnchor>(a, 6)
            &&& seq_req_accepts::<FillExtrusionVerticalGradient>(a, 7)
            &&& a.len() <= 8
        })
    }

    open spec fn decodes(v: Json, x: Self) -> bool {
        ||| (v is Object && {
            let o = v->Object_0;
            &&& req_field_decodes::<FillExtrusionBase>(o, "fill-extrusion-base"@, x.fill_extrusion_base)
            &&& req_field_decodes::<FillExtrusionColor>(o, "fill-extrusion-color"@, x.fill_extrusion_color)
            &&& req_field_decodes::<FillExtrusionHeight>(o, "fill-extrusion-height"@, x.fill_extrusion_height)
            &&& req_field_decodes::<FillExtrusionOpacity>(o, "fill-extrusion-opacity"@, x.fill_extrusion_opacity)
            &&& req_field_decodes::<FillExtrusionPattern>(o, "fill-extrusion-pattern"@, x.fill_extrusion_pattern)
            &&& req_field_decodes::<FillExtrusionTranslate>(o, "fill-extrusion-translate"@, x.fill_extrusion_translate)
            &&& req_field_decodes::<FillExtrusionTranslateAnchor>(o, "fill-extrusion-translate-anchor"@, x.fill_extrusion_translate_anchor)
            &&& req_field_decodes::<FillExtrusionVerticalGradient>(o, "fill-extrusion-vertical-gradient"@, x.fill_extrusion_vertical_gradient)
        })
        ||| (v is Array && {
            let a = v->Array_0;
            &&& seq_req_decodes::<FillExtrusionBase>(a, 0, x.fill_extrusion_base)
            &&& seq_req_decodes::<FillExtrusionColor>(a, 1, x.fill_extrusion_color)
            &&& seq_req_decodes::<FillExtrusionHeight>(a, 2, x.fill_extrusion_height)
            &&& seq_req_decodes::<FillExtrusionOpacity>(a, 3, x.fill_extrusion_opacity)
            &&& seq_req_decodes::<FillExtrusionPattern>(a, 4, x.fill_extrusion_pattern)
            &&& seq_req_decodes::<FillExtrusionTranslate>(a, 5, x.fill_extrusion_translate)
            &&& seq_req_decodes::<FillExtrusionTranslateAnchor>(a, 6, x.fill_extrusion_translate_anchor)
            &&& seq_req_decodes::<FillExtrusionVerticalGradient>(a, 7, x.fill_extrusion_vertical_gradient)
        })
    }

    /// For an object, the first entry in order whose value does not read as its field, else the
    /// first required field that is missing.
    open spec fn rejection(v: Json) -> Seq<char> {
        if v is Object {
            let o = v->Object_0;
            match Self::first_fault(o, 0) {
                Some(m) => m,
                None => if lookup(o, "fill-extrusion-base"@) is None {
                    missing_field("fill-extrusion-base"@)
                } else if lookup(o, "fill-extrusion-color"@) is None {
                    missing_field("fill-extrusion-color"@)
                } else if lookup(o, "fill-extrusion-height"@) is None {
                    missing_field("fill-extrusion-height"@)
                } else if lookup(o, "fill-extrusion-opacity"@) is None {
                    missing_field("fill-extrusion-opacity"@)
                } else if lookup(o, "fill-extrusion-pattern"@) is None {
                    missing_field("fill-extrusion-pattern"@)
                } else if lookup(o, "fill-extrusion-translate"@) is None {
                    missing_field("fill-extrusion-translate"@)
                } else if lookup(o, "fill-extrusion-translate-anchor"@) is None {
                    missing_field("fill-extrusion-translate-anchor"@)
                } else if lookup(o, "fill-extrusion-vertical-gradient"@) is None {
                    missing_field("fill-extrusion-vertical-gradient"@)
                } else {
                    Seq::empty()
                },
            }
        } else if v is Array {
            let a = v->Array_0;
            if !seq_req_accepts::<FillExtrusionBase>(a, 0) {
                seq_req_rejection::<FillExtrusionBase>(a, 0, "struct PaintFillExtrusion with 8 elements"@)
            } else if !seq_req_accepts::<FillExtrusionColor>(a, 1) {
                seq_req_rejection::<FillExtrusionColor>(a, 1, "struct PaintFillExtrusion with 8 elements"@)
            } else if !seq_req_accepts::<FillExtrusionHeight>(a, 2) {
                seq_req_rejection::<FillExtrusionHeight>(a, 2, "struct PaintFillExtrusion with 8 elements"@)
            } else if !seq_req_accepts::<FillExtrusionOpacity>(a, 3) {
                seq_req_rejection::<FillExtrusionOpacity>(a, 3, "struct PaintFillExtrusion with 8 elements"@)
            } else if !seq_req_accepts::<FillExtrusionPattern>(a, 4) {
                seq_req_rejection::<FillExtrusionPattern>(a, 4, "struct PaintFillExtrusion with 8 elements"@)
            } else if !seq_req_accepts::<FillExtrusionTranslate>(a, 5) {
                seq_req_rejection::<FillExtrusionTranslate>(a, 5, "struct PaintFillExtrusion with 8 elements"@)
            } else if !seq_req_accepts::<FillExtrusionTranslateAnchor>(a, 6) {
                seq_req_rejection::<FillExtrusionTranslateAnchor>(a, 6, "struct PaintFillExtrusion with 8 elements"@)
            } else if !seq_req_accepts::<FillExtrusionVerticalGradient>(a, 7) {
                seq_req_rejection::<FillExtrusionVerticalGradient>(a, 7, "struct PaintFillExtrusion with 8 elements"@)
            } else if a.len() > 8 {
                length_error(a.len())
            } else {
                Seq::empty()
            }
        } else {
            type_error(v, "struct PaintFillExtrusion"@)
        }
    }

    fn decode(v: &JsonValue) -> (r: Result<Self, String>) {
        match v {
            JsonValue::Object(fields) => {
                let fill_extrusion_base = match decode_req_field::<FillExtrusionBase>(fields, "fill-extrusion-base") {
                    Ok(x) => x,
                    Err(_) => return Err(Self::object_rejection(fields)),
                };
                let fill_extrusion_color = match decode_req_field::<FillExtrusionColor>(fields, "fill-extrusion-color") {
                    Ok(x) => x,
                    Err(_) => return Err(Self::object_rejection(fields)),
                };
                let fill_extrusion_height = match decode_req_field::<FillExtrusionHeight>(fields, "fill-extrusion-height") {
                    Ok(x) => x,
                    Err(_) => return Err(Self::object_rejection(fields)),
                };
                let fill_extrusion_opacity = match decode_req_field::<FillExtrusionOpacity>(fields, "fill-extrusion-opacity") {
                    Ok(x) => x,
                    Err(_) => return Err(Self::object_rejection(fields)),
                };
                let fill_extrusion_pattern = match decode_req_field::<FillExtrusionPattern>(fields, "fill-extrusion-pattern") {
                    Ok(x) => x,
                    Err(_) => return Err(Self::object_rejection(fields)),
                };
                let fill_extrusion_translate = match decode_req_field::<FillExtrusionTranslate>(fields, "fill-extrusion-translate") {
                    Ok(x) => x,
                    Err(_) => return Err(Self::object_rejection(fields)),
                };
                let fill_extrusion_translate_anchor = match decode_req_field::<FillExtrusionTranslateAnchor>(fields, "fill-extrusion-translate-anchor") {
                    Ok(x) => x,
                    Err(_) => return Err(Self::object_rejection(fields)),
                };
                let fill_extrusion_vertical_gradient = match decode_req_field::<FillExtrusionVerticalGradient>(fields, "fill-extrusion-vertical-gradient") {
                    Ok(x) => x,
                    Err(_) => return Err(Self::object_rejection(fields)),
                };
                Ok(PaintFillExtrusion { fill_extrusion_base, fill_extrusion_color, fill_extrusion_height, fill_extrusion_opacity, fill_extrusion_pattern, fill_extrusion_translate, fill_extrusion_translate_anchor, fill_extrusion_vertical_gradient })
            },
            JsonValue::Array(a) => {
                let fill_extrusion_base = match decode_seq_req::<FillExtrusionBase>(a, 0, "struct PaintFillExtrusion with 8 elements") {
                    Ok(x) => x,
                    Err(e) => return Err(e),
                };
                let fill_extrusion_color = match decode_seq_req::<FillExtrusionColor>(a, 1, "struct PaintFillExtrusion with 8 elements") {
                    Ok(x) => x,
                    Err(e) => return Err(e),
                };
                let fill_extrusion_height = match decode_seq_req::<FillExtrusionHeight>(a, 2, "struct PaintFillExtrusion with 8 elements") {
                    Ok(x) => x,
                    Err(e) => return Err(e),
                };
                let fill_extrusion_opacity = match decode_seq_req::<FillExtrusionOpacity>(a, 3, "struct PaintFillExtrusion with 8 elements") {
                    Ok(x) => x,
                    Err(e) => return Err(e),
                };
                let fill_extrusion_pattern = match decode_seq_req::<FillExtrusionPattern>(a, 4, "struct PaintFillExtrusion with 8 elements") {
                    Ok(x) => x,
                    Err(e) => return Err(e),
                };
                let fill_extrusion_translate = match decode_seq_req::<FillExtrusionTranslate>(a, 5, "struct PaintFillExtrusion with 8 elements") {
                    Ok(x) => x,
                    Err(e) => return Err(e),
                };
                let fill_extrusion_translate_anchor = match decode_seq_req::<FillExtrusionTranslateAnchor>(a, 6, "struct PaintFillExtrusion with 8 elements") {
                    Ok(x) => x,
                    Err(e) => return Err(e),
                };
                let fill_extrusion_vertical_gradient = match decode_seq_req::<FillExtrusionVerticalGradient>(a, 7, "struct PaintFillExtrusion with 8 elements") {
                    Ok(x) => x,
                    Err(e) => return Err(e),
                };
                if a.len() > 8 {
                    return Err(make_length_error(a.len()));
                }
                Ok(PaintFillExtrusion { fill_extrusion_base, fill_extrusion_color, fill_extrusion_height, fill_extrusion_opacity, fill_extrusion_pattern, fill_extrusion_translate, fill_extrusion_translate_anchor, fill_extrusion_vertical_gradient })
            },
            _ => Err(make_type_error(v, "struct PaintFillExtrusion")),
        }
    }
}

impl PaintFillExtrusion {
    /// What is wrong with the value `w` of an entry with key `k`, where `k` is the key of a field.
    pub open spec fn field_fault(k: Seq<char>, w: Json) -> Option<Seq<char>> {
        if k == "fill-extrusion-base"@ {
            if FillExtrusionBase::accepts(w) {
                None
            } else {
                Some(FillExtrusionBase::rejection(w))
            }
        } else if k == "fill-extrusion-color"@ {
            if FillExtrusionColor::accepts(w) {
                None
            } else {
                Some(FillExtrusionColor::rejection(w))
            }
        } else if k == "fill-extrusion-height"@ {
            if FillExtrusionHeight::accepts(w) {
                None
            } else {
                Some(FillExtrusionHeight::rejection(w))
            }
        } else if k == "fill-extrusion-opacity"@ {
            if FillExtrusionOpacity::accepts(w) {
                None
            } else {
                Some(FillExtrusionOpacity::rejection(w))
            }
        } else if k == "fill-extrusion-pattern"@ {
            if FillExtrusionPattern::accepts(w) {
                None
            } else {
                Some(FillExtrusionPattern::rejection(w))
            }
        } else if k == "fill-extrusion-translate"@ {
            if FillExtrusionTranslate::accepts(w) {
                None
            } else {
                Some(FillExtrusionTranslate::rejection(w))
            }
        } else if k == "fill-extrusion-translate-anchor"@ {
            if FillExtrusionTranslateAnchor::accepts(w) {
                None
            } else {
                Some(FillExtrusionTranslateAnchor::rejection(w))
            }
        } else if k == "fill-extrusion-vertical-gradient"@ {
            if FillExtrusionVerticalGradient::accepts(w) {
                None
            } else {
                Some(FillExtrusionVerticalGradient::rejection(w))
            }
        } else {
            None
        }
    }

    /// The message of the first entry of `o`, from entry `i` on and among the first entries of
    /// their keys, whose value does not read as its field, if any.
    pub open spec fn first_fault(o: Seq<(Seq<char>, Json)>, i: int) -> Option<Seq<char>>
        decreases o.len() - i,
    {
        if i < 0 || i >= o.len() {
            None
        } else if first_with_key(o, i) && Self::field_fault(o[i].0, o[i].1) is Some {
            Self::field_fault(o[i].0, o[i].1)
        } else {
            Self::first_fault(o, i + 1)
        }
    }

    fn find_field_fault(k: &str, w: &JsonValue) -> (r: Option<String>)
        ensures
            match r {
                Some(m) => Self::field_fault(k@, w.model()) == Some(m@),
                None => Self::field_fault(k@, w.model()) is None,
            },
    {
        if str_eq(k, "fill-extrusion-base") {
            match FillExtrusionBase::decode(w) {
                Ok(_) => None,
                Err(e) => Some(e),
            }
        } else if str_eq(k, "fill-extrusion-color") {
            match FillExtrusionColor::decode(w) {
                Ok(_) => None,
                Err(e) => Some(e),
            }
        } else if str_eq(k, "fill-extrusion-height") {
            match FillExtrusionHeight::decode(w) {
                Ok(_) => None,
                Err(e) => Some(e),
            }
        } else if str_eq(k, "fill-extrusion-opacity") {
            match FillExtrusionOpacity::decode(w) {
                Ok(_) => None,
                Err(e) => Some(e),
            }
        } else if str_eq(k, "fill-extrusion-pattern") {
            match FillExtrusionPattern::decode(w) {
                Ok(_) => None,
                Err(e) => Some(e),
            }
        } else if str_eq(k, "fill-extrusion-translate") {
            match FillExtrusionTranslate::decode(w) {
                Ok(_) => None,
                Err(e) => Some(e),
            }
        } else if str_eq(k, "fill-extrusion-translate-anchor") {
            match FillExtrusionTranslateAnchor::decode(w) {
                Ok(_) => None,
                Err(e) => Some(e),
            }
        } else if str_eq(k, "fill-extrusion-vertical-gradient") {
            match FillExtrusionVerticalGradient::decode(w) {
                Ok(_) => None,
                Err(e) => Some(e),
            }
        } else {
            None
        }
    }

    fn object_rejection(fields: &Vec<(String, JsonValue)>) -> (r: String)
        ensures
            r@ == Self::rejection(JsonValue::Object(*fields).model()),
    {
        let ghost o = entries_model(*fields);
        let mut i: usize = 0;
        while i < fields.len()
            invariant
                o == entries_model(*fields),
                o.len() == fields.len(),
                i <= fields.len(),
                Self::first_fault(o, 0) == Self::first_fault(o, i as int),
            decreases fields.len() - i,
        {
            proof {
                assert(o[i as int] == (fields@[i as int].0@, fields@[i as int].1.model()));
            }
            if !key_seen_before(fields, i) {
                match Self::find_field_fault(fields[i].0.as_str(), &fields[i].1) {
                    Some(m) => {
                        return m;
                    },
                    None => {},
                }
            }
            i += 1;
        }
        if get_field(fields, "fill-extrusion-base").is_none() {
            return make_missing_field("fill-extrusion-base");
        }
        if get_field(fields, "fill-extrusion-color").is_none() {
            return make_missing_field("fill-extrusion-color");
        }
        if get_field(fields, "fill-extrusion-height").is_none() {
            return make_missing_field("fill-extrusion-height");
        }
        if get_field(fields, "fill-extrusion-opacity").is_none() {
            return make_missing_field("fill-extrusion-opacity");
        }
        if get_field(fields, "fill-extrusion-pattern").is_none() {
            return make_missing_field("fill-extrusion-pattern");
        }
        if get_field(fields, "fill-extrusion-translate").is_none() {
            return make_missing_field("fill-extrusion-translate");
        }
        if get_field(fields, "fill-extrusion-translate-anchor").is_none() {
            return make_missing_field("fill-extrusion-translate-anchor");
        }
        if get_field(fields, "fill-extrusion-vertical-gradient").is_none() {
            return make_missing_field("fill-extrusion-vertical-gradient");
        }
        String::new()
    }
}

/// The height with which to extrude the base of this layer. Must be less than or equal to `fill-extrusion-height`.
///
/// Range: 0..
#[derive(PartialEq, Debug, Clone)]
pub struct FillExtrusionBase(JsonNumber);

impl View for FillExtrusionBase {
    type V = Seq<char>;

    closed spec fn view(&self) -> Seq<char> {
        self.0@
    }
}

impl JsonDecode for FillExtrusionBase {
    open spec fn accepts(v: Json) -> bool {
        v is Number
    }

    open spec fn decodes(v: Json, x: Self) -> bool {
        v == Json::Number(x@)
    }

    open spec fn rejection(v: Json) -> Seq<char> {
        JsonNumber::rejection(v)
    }

    fn decode(v: &JsonValue) -> (r: Result<Self, String>) {
        match JsonNumber::decode(v) {
            Ok(x) => Ok(FillExtrusionBase(x)),
            Err(e) => Err(e),
        }
    }
}

impl JsonEncode for FillExtrusionBase {
    open spec fn to_json(self) -> Json {
        Json::Number(self@)
    }

    open spec fn round_trips(self) -> bool {
        true
    }

    fn encode(&self) -> (r: JsonValue) {
        JsonNumber::encode(&self.0)
    }

    proof fn lemma_round_trip(self) {
        JsonNumber::lemma_round_trip(self.0);
    }
}

impl Default for FillExtrusionBase {
    fn default() -> (r: Self)
        ensures
            r.to_json() == Json::Number("0"@),
    {
        let r = FillExtrusionBase(JsonNumber::from_literal("0"));
        r
    }
}

/// The base color of the extruded fill. The extrusion's surfaces will be shaded differently based on this color in combination with the root `light` settings. If this color is specified as `rgba` with an alpha component, the alpha component will be ignored; use `fill-extrusion-opacity` to set layer opacity.
#[derive(PartialEq, Debug, Clone)]
pub struct FillExtrusionColor(ColorValue);

impl JsonDecode for FillExtrusionColor {
    closed spec fn accepts(v: Json) -> bool {
        ColorValue::accepts(v)
    }

    closed spec fn decodes(v: Json, x: Self) -> bool {
        ColorValue::decodes(v, x.0)
    }

    closed spec fn rejection(v: Json) -> Seq<char> {
        ColorValue::rejection(v)
    }

    fn decode(v: &JsonValue) -> (r: Result<Self, String>) {
        match ColorValue::decode(v) {
            Ok(x) => Ok(FillExtrusionColor(x)),
            Err(e) => Err(e),
        }
    }
}

impl JsonEncode for FillExtrusionColor {
    closed spec fn to_json(self) -> Json {
        ColorValue::to_json(self.0)
    }

    closed spec fn round_trips(self) -> bool {
        ColorValue::round_trips(self.0)
    }

    fn encode(&self) -> (r: JsonValue) {
        ColorValue::encode(&self.0)
    }

    proof fn lemma_round_trip(self) {
        ColorValue::lemma_round_trip(self.0);
    }
}

impl Default for FillExtrusionColor {
    fn default() -> (r: Self)
        ensures
            r.to_json() == Json::Str("#000000"@),
    {
        proof {
            reveal_strlit("#000000");
        }
        let r = FillExtrusionColor(default_color("#000000"));
        r
    }
}

/// The height with which to extrude this layer.
///
/// Range: 0..
#[derive(PartialEq, Debug, Clone)]
pub struct FillExtrusionHeight(JsonNumber);

impl View for FillExtrusionHeight {
    type V = Seq<char>;

    closed spec fn view(&self) -> Seq<char> {
        self.0@
    }
}

impl JsonDecode for FillExtrusionHeight {
    open spec fn accepts(v: Json) -> bool {
        v is Number
    }

    open spec fn decodes(v: Json, x: Self) -> bool {
        v == Json::Number(x@)
    }

    open spec fn rejection(v: Json) -> Seq<char> {
        JsonNumber::rejection(v)
    }

    fn decode(v: &JsonValue) -> (r: Result<Self, String>) {
        match JsonNumber::decode(v) {
            Ok(x) => Ok(FillExtrusionHeight(x)),
            Err(e) => Err(e),
        }
    }
}

impl JsonEncode for FillExtrusionHeight {
    open spec fn to_json(self) -> Json {
        Json::Number(self@)
    }

    open spec fn round_trips(self) -> bool {
        true
    }

    fn encode(&self) -> (r: JsonValue) {
        JsonNumber::encode(&self.0)
    }

    proof fn lemma_round_trip(self) {
        JsonNumber::lemma_round_trip(self.0);
    }
}

impl Default for FillExtrusionHeight {
    fn default() -> (r: Self)
        ensures
            r.to_json() == Json::Number("0"@),
    {
        let r = FillExtrusionHeight(JsonNumber::from_literal("0"));
        r
    }
}

/// The opacity of the entire fill extrusion layer. This is rendered on a per-layer, not per-feature, basis, and data-driven styling is not available.
///
/// Range: 0..=1
#[derive(PartialEq, Debug, Clone)]
pub struct FillExtrusionOpacity(JsonNumber);

impl View for FillExtrusionOpacity {
    type V = Seq<char>;

    closed spec fn view(&self) -> Seq<char> {
        self.0@
    }
}

impl JsonDecode for FillExtrusionOpacity {
    open spec fn accepts(v: Json) -> bool {
        v is Number
    }

    open spec fn decodes(v: Json, x: Self) -> bool {
        v == Json::Number(x@)
    }

    open spec fn rejection(v: Json) -> Seq<char> {
        JsonNumber::rejection(v)
    }

    fn decode(v: &JsonValue) -> (r: Result<Self, String>) {
        match JsonNumber::decode(v) {
            Ok(x) => Ok(FillExtrusionOpacity(x)),
            Err(e) => Err(e),
        }
    }
}

impl JsonEncode for FillExtrusionOpacity {
    open spec fn to_json(self) -> Json {
        Json::Number(self@)
    }

    open spec fn round_trips(self) -> bool {
        true
    }

    fn encode(&self) -> (r: JsonValue) {
        JsonNumber::encode(&self.0)
    }

    proof fn lemma_round_trip(self) {
        JsonNumber::lemma_round_trip(self.0);
    }
}

impl Default for FillExtrusionOpacity {
    fn default() -> (r: Self)
        ensures
            r.to_json() == Json::Number("1"@),
    {
        let r = FillExtrusionOpacity(JsonNumber::from_literal("1"));
        r
    }
}

/// Name of image in sprite to use for drawing images on extruded fills. For seamless patterns, image width and height must be a factor of two (2, 4, 8, ..., 512). Note that zoom-dependent expressions will be evaluated only at integer zoom levels.
#[derive(PartialEq, Debug, Clone)]
pub struct FillExtrusionPattern(JsonValue);

impl View for FillExtrusionPattern {
    type V = Json;

    closed spec fn view(&self) -> Json {
        self.0.model()
    }
}

impl JsonDecode for FillExtrusionPattern {
    open spec fn accepts(v: Json) -> bool {
        true
    }

    open spec fn decodes(v: Json, x: Self) -> bool {
        v == x@
    }

    open spec fn rejection(v: Json) -> Seq<char> {
        JsonValue::rejection(v)
    }

    fn decode(v: &JsonValue) -> (r: Result<Self, String>) {
        match JsonValue::decode(v) {
            Ok(x) => Ok(FillExtrusionPattern(x)),
            Err(e) => Err(e),
        }
    }
}

/// The geometry's offset. Values are [x, y] where negatives indicate left and up (on the flat plane), respectively.
#[derive(PartialEq, Debug, Clone)]
pub struct FillExtrusionTranslate(JsonValue);

impl View for FillExtrusionTranslate {
    type V = Json;

    closed spec fn view(&self) -> Json {
        self.0.model()
    }
}

impl JsonDecode for FillExtrusionTranslate {
    open spec fn accepts(v: Json) -> bool {
        true
    }

    open spec fn decodes(v: Json, x: Self) -> bool {
        v == x@
    }

    open spec fn rejection(v: Json) -> Seq<char> {
        JsonValue::rejection(v)
    }

    fn decode(v: &JsonValue) -> (r: Result<Self, String>) {
        match JsonValue::decode(v) {
            Ok(x) => Ok(FillExtrusionTranslate(x)),
            Err(e) => Err(e),
        }
    }
}

/// Controls the frame of reference for `fill-extrusion-translate`.
#[derive(PartialEq, Eq, Debug, Clone, Copy)]
pub enum FillExtrusionTranslateAnchor {
    /// The fill extrusion is translated relative to the map.
    MapValue,
    /// The fill extrusion is translated relative to the viewport.
    Viewport,
}

impl FillExtrusionTranslateAnchor {
    /// The name that stands for the value in a style document.
    pub open spec fn spec_name(self) -> Seq<char> {
        match self {
            FillExtrusionTranslateAnchor::MapValue => "map"@,
            FillExtrusionTranslateAnchor::Viewport => "viewport"@,
        }
    }

    /// The name that stands for the value in a style document.
    pub fn name(&self) -> (r: &'static str)
        ensures
            r@ == self.spec_name(),
    {
        match self {
            FillExtrusionTranslateAnchor::MapValue => "map",
            FillExtrusionTranslateAnchor::Viewport => "viewport",
        }
    }

    /// The value that a name stands for, if any.
    pub fn from_name(s: &str) -> (r: Option<FillExtrusionTranslateAnchor>)
        ensures
            r matches Some(x) ==> x.spec_name() == s@,
            r is None ==> forall|x: FillExtrusionTranslateAnchor| x.spec_name() != s@,
    {
        if str_eq(s, "map") {
            Some(FillExtrusionTranslateAnchor::MapValue)
        } else if str_eq(s, "viewport") {
            Some(FillExtrusionTranslateAnchor::Viewport)
        } else {
            None
        }
    }
}

impl JsonDecode for FillExtrusionTranslateAnchor {
    /// The name of a value, or an object whose one entry has the name as its key and `null`.
    open spec fn accepts(v: Json) -> bool {
        ||| (v is Str && exists|x: FillExtrusionTranslateAnchor| x.spec_name() == v->Str_0)
        ||| (v is Object && v->Object_0.len() == 1 && v->Object_0[0].1 is Null && exists|x: FillExtrusionTranslateAnchor| x.spec_name() == v->Object_0[0].0)
    }

    open spec fn decodes(v: Json, x: Self) -> bool {
        ||| v == Json::Str(x.spec_name())
        ||| (v is Object && v->Object_0.len() == 1 && v->Object_0[0] == (x.spec_name(), Json::Null))
    }

    open spec fn rejection(v: Json) -> Seq<char> {
        if v is Str {
            unknown_variant(v->Str_0) + ", expected `map` or `viewport`"@
        } else if v is Object {
            let o = v->Object_0;
            if o.len() != 1 {
                "invalid value: map, expected map with a single key"@
            } else if !(exists|x: FillExtrusionTranslateAnchor| x.spec_name() == o[0].0) {
                unknown_variant(o[0].0) + ", expected `map` or `viewport`"@
            } else {
                type_error(o[0].1, "unit"@)
            }
        } else {
            type_error(v, "string or map"@)
        }
    }

    fn decode(v: &JsonValue) -> (r: Result<Self, String>) {
        match v {
            JsonValue::String(s) => match Self::from_name(s.as_str()) {
                Some(x) => Ok(x),
                None => {
                    let mut m = make_unknown_variant(s.as_str());
                    m.append(", expected `map` or `viewport`");
                    Err(m)
                },
            },
            JsonValue::Object(fields) => {
                if fields.len() != 1 {
                    return Err("invalid value: map, expected map with a single key".to_string());
                }
                proof {
                    assert(entries_model(*fields)[0] == (fields@[0].0@, fields@[0].1.model()));
                }
                match Self::from_name(fields[0].0.as_str()) {
                    Some(x) => match &fields[0].1 {
                        JsonValue::Null => Ok(x),
                        _ => Err(make_type_error(&fields[0].1, "unit")),
                    },
                    None => {
                        let mut m = make_unknown_variant(fields[0].0.as_str());
                        m.append(", expected `map` or `viewport`");
                        Err(m)
                    },
                }
            },
            _ => Err(make_type_error(v, "string or map")),
        }
    }
}

impl Default for FillExtrusionTranslateAnchor {
    fn default() -> (r: Self)
        ensures
            r == FillExtrusionTranslateAnchor::MapValue,
    {
        FillExtrusionTranslateAnchor::MapValue
    }
}

/// Whether to apply a vertical gradient to the sides of a fill-extrusion layer. If true, sides will be shaded slightly darker farther down.
#[derive(PartialEq, Debug, Clone)]
pub struct FillExtrusionVerticalGradient(JsonValue);

impl View for FillExtrusionVerticalGradient {
    type V = Json;

    closed spec fn view(&self) -> Json {
        self.0.model()
    }
}

impl JsonDecode for FillExtrusionVerticalGradient {
    open spec fn accepts(v: Json) -> bool {
        true
    }

    open spec fn decodes(v: Json, x: Self) -> bool {
        v == x@
    }

    open spec fn rejection(v: Json) -> Seq<char> {
        JsonValue::rejection(v)
    }

    fn decode(v: &JsonValue) -> (r: Result<Self, String>) {
        match JsonValue::decode(v) {
            Ok(x) => Ok(FillExtrusionVerticalGradient(x)),
            Err(e) => Err(e),
        }
    }
}

#[derive(PartialEq, Debug, Clone)]
pub struct PaintHeatmap {
    /// Defines the color of each pixel based on its density value in a heatmap.  Should be an expression that uses `["heatmap-density"]` as input.
    pub heatmap_color: HeatmapColor,
    /// Similar to `heatmap-weight` but controls the intensity of the heatmap globally. Primarily used for adjusting the heatmap based on zoom level.
    pub heatmap_intensity: HeatmapIntensity,
    /// The global opacity at which the heatmap layer will be drawn.
    pub heatmap_opacity: HeatmapOpacity,
    /// Radius of influence of one heatmap point in pixels. Increasing the value makes the heatmap smoother, but less detailed.
    pub heatmap_radius: HeatmapRadius,
    /// A measure of how much an individual point contributes to the heatmap. A value of 10 would be equivalent to having 10 points of weight 1 in the same spot. Especially useful when combined with clustering.
    pub heatmap_weight: HeatmapWeight,
}

impl JsonDecode for PaintHeatmap {
    /// An object with the fields by their keys, or an array with the fields in order.
    open spec fn accepts(v: Json) -> bool {
        ||| (v is Object && {
            let o = v->Object_0;
            &&& req_field_accepts::<HeatmapColor>(o, "heatmap-color"@)
            &&& req_field_accepts::<HeatmapIntensity>(o, "heatmap-intensity"@)
            &&& req_field_accepts::<HeatmapOpacity>(o, "heatmap-opacity"@)
            &&& req_field_accepts::<HeatmapRadius>(o, "heatmap-radius"@)
            &&& req_field_accepts::<HeatmapWeight>(o, "heatmap-weight"@)
        })
        ||| (v is Array && {
            let a = v->Array_0;
            &&& seq_req_accepts::<HeatmapColor>(a, 0)
            &&& seq_req_accepts::<HeatmapIntensity>(a, 1)
            &&& seq_req_accepts::<HeatmapOpacity>(a, 2)
            &&& seq_req_accepts::<HeatmapRadius>(a, 3)
            &&& seq_req_accepts::<HeatmapWeight>(a, 4)
            &&& a.len() <= 5
        })
    }

    open spec fn decodes(v: Json, x: Self) -> bool {
        ||| (v is Object && {
            let o = v->Object_0;
            &&& req_field_decodes::<HeatmapColor>(o, "heatmap-color"@, x.heatmap_color)
            &&& req_field_decodes::<HeatmapIntensity>(o, "heatmap-intensity"@, x.heatmap_intensity)
            &&& req_field_decodes::<HeatmapOpacity>(o, "heatmap-opacity"@, x.heatmap_opacity)
            &&& req_field_decodes::<HeatmapRadius>(o, "heatmap-radius"@, x.heatmap_radius)
            &&& req_field_decodes::<HeatmapWeight>(o, "heatmap-weight"@, x.heatmap_weight)
        })
        ||| (v is Array && {
            let a = v->Array_0;
            &&& seq_req_decodes::<HeatmapColor>(a, 0, x.heatmap_color)
            &&& seq_req_decodes::<HeatmapIntensity>(a, 1, x.heatmap_intensity)
            &&& seq_req_decodes::<HeatmapOpacity>(a, 2, x.heatmap_opacity)
            &&& seq_req_decodes::<HeatmapRadius>(a, 3, x.heatmap_radius)
            &&& seq_req_decodes::<HeatmapWeight>(a, 4, x.heatmap_weight)
        })
    }

    /// For an object, the first entry in order whose value does not read as its field, else the
    /// first required field that is missing.
    open spec fn rejection(v: Json) -> Seq<char> {
        if v is Object {
            let o = v->Object_0;
            match Self::first_fault(o, 0) {
                Some(m) => m,
                None => if lookup(o, "heatmap-color"@) is None {
                    missing_field("heatmap-color"@)
                } else if lookup(o, "heatmap-intensity"@) is None {
                    missing_field("heatmap-intensity"@)
                } else if lookup(o, "heatmap-opacity"@) is None {
                    missing_field("heatmap-opacity"@)
                } else if lookup(o, "heatmap-radius"@) is None {
                    missing_field("heatmap-radius"@)
                } else if lookup(o, "heatmap-weight"@) is None {
                    missing_field("heatmap-weight"@)
                } else {
                    Seq::empty()
                },
            }
        } else if v is Array {
            let a = v->Array_0;
            if !seq_req_accepts::<HeatmapColor>(a, 0) {
                seq_req_rejection::<HeatmapColor>(a, 0, "struct PaintHeatmap with 5 elements"@)
            } else if !seq_req_accepts::<HeatmapIntensity>(a, 1) {
                seq_req_rejection::<HeatmapIntensity>(a, 1, "struct PaintHeatmap with 5 elements"@)
            } else if !seq_req_accepts::<HeatmapOpacity>(a, 2) {
                seq_req_rejection::<HeatmapOpacity>(a, 2, "struct PaintHeatmap with 5 elements"@)
            } else if !seq_req_accepts::<HeatmapRadius>(a, 3) {
                seq_req_rejection::<HeatmapRadius>(a, 3, "struct PaintHeatmap with 5 elements"@)
            } else if !seq_req_accepts::<HeatmapWeight>(a, 4) {
                seq_req_rejection::<HeatmapWeight>(a, 4, "struct PaintHeatmap with 5 elements"@)
            } else if a.len() > 5 {
                length_error(a.len())
            } else {
                Seq::empty()
            }
        } else {
            type_error(v, "struct PaintHeatmap"@)
        }
    }

    fn decode(v: &JsonValue) -> (r: Result<Self, String>) {
        match v {
            JsonValue::Object(fields) => {
                let heatmap_color = match decode_req_field::<HeatmapColor>(fields, "heatmap-color") {
                    Ok(x) => x,
                    Err(_) => return Err(Self::object_rejection(fields)),
                };
                let heatmap_intensity = match decode_req_field::<HeatmapIntensity>(fields, "heatmap-intensity") {
                    Ok(x) => x,
                    Err(_) => return Err(Self::object_rejection(fields)),
                };
                let heatmap_opacity = match decode_req_field::<HeatmapOpacity>(fields, "heatmap-opacity") {
                    Ok(x) => x,
                    Err(_) => return Err(Self::object_rejection(fields)),
                };
                let heatmap_radius = match decode_req_field::<HeatmapRadius>(fields, "heatmap-radius") {
                    Ok(x) => x,
                    Err(_) => return Err(Self::object_rejection(fields)),
                };
                let heatmap_weight = match decode_req_field::<HeatmapWeight>(fields, "heatmap-weight") {
                    Ok(x) => x,
                    Err(_) => return Err(Self::object_rejection(fields)),
                };
                Ok(PaintHeatmap { heatmap_color, heatmap_intensity, heatmap_opacity, heatmap_radius, heatmap_weight })
            },
            JsonValue::Array(a) => {
                let heatmap_color = match decode_seq_req::<HeatmapColor>(a, 0, "struct PaintHeatmap with 5 elements") {
                    Ok(x) => x,
                    Err(e) => return Err(e),
                };
                let heatmap_intensity = match decode_seq_req::<HeatmapIntensity>(a, 1, "struct PaintHeatmap with 5 elements") {
                    Ok(x) => x,
                    Err(e) => return Err(e),
                };
                let heatmap_opacity = match decode_seq_req::<HeatmapOpacity>(a, 2, "struct PaintHeatmap with 5 elements") {
                    Ok(x) => x,
                    Err(e) => return Err(e),
                };
                let heatmap_radius = match decode_seq_req::<HeatmapRadius>(a, 3, "struct PaintHeatmap with 5 elements") {
                    Ok(x) => x,
                    Err(e) => return Err(e),
                };
                let heatmap_weight = match decode_seq_req::<HeatmapWeight>(a, 4, "struct PaintHeatmap with 5 elements") {
                    Ok(x) => x,
                    Err(e) => return Err(e),
                };
                if a.len() > 5 {
                    return Err(make_length_error(a.len()));
                }
                Ok(PaintHeatmap { heatmap_color, heatmap_intensity, heatmap_opacity, heatmap_radius, heatmap_weight })
            },
            _ => Err(make_type_error(v, "struct PaintHeatmap")),
        }
    }
}

impl PaintHeatmap {
    /// What is wrong with the value `w` of an entry with key `k`, where `k` is the key of a field.
    pub open spec fn field_fault(k: Seq<char>, w: Json) -> Option<Seq<char>> {
        if k == "heatmap-color"@ {
            if HeatmapColor::accepts(w) {
                None
            } else {
                Some(HeatmapColor::rejection(w))
            }
        } else if k == "heatmap-intensity"@ {
            if HeatmapIntensity::accepts(w) {
                None
            } else {
                Some(HeatmapIntensity::rejection(w))
            }
        } else if k == "heatmap-opacity"@ {
            if HeatmapOpacity::accepts(w) {
                None
            } else {
                Some(HeatmapOpacity::rejection(w))
            }
        } else if k == "heatmap-radius"@ {
            if HeatmapRadius::accepts(w) {
                None
            } else {
                Some(HeatmapRadius::rejection(w))
            }
        } else if k == "heatmap-weight"@ {
            if HeatmapWeight::accepts(w) {
                None
            } else {
                Some(HeatmapWeight::rejection(w))
            }
        } else {
            None
        }
    }

    /// The message of the first entry of `o`, from entry `i` on and among the first entries of
    /// their keys, whose value does not read as its field, if any.
    pub open spec fn first_fault(o: Seq<(Seq<char>, Json)>, i: int) -> Option<Seq<char>>
        decreases o.len() - i,
    {
        if i < 0 || i >= o.len() {
            None
        } else if first_with_key(o, i) && Self::field_fault(o[i].0, o[i].1) is Some {
            Self::field_fault(o[i].0, o[i].1)
        } else {
            Self::first_fault(o, i + 1)
        }
    }

    fn find_field_fault(k: &str, w: &JsonValue) -> (r: Option<String>)
        ensures
            match r {
                Some(m) => Self::field_fault(k@, w.model()) == Some(m@),
                None => Self::field_fault(k@, w.model()) is None,
            },
    {
        if str_eq(k, "heatmap-color") {
            match HeatmapColor::decode(w) {
                Ok(_) => None,
                Err(e) => Some(e),
            }
        } else if str_eq(k, "heatmap-intensity") {
            match HeatmapIntensity::decode(w) {
                Ok(_) => None,
                Err(e) => Some(e),
            }
        } else if str_eq(k, "heatmap-opacity") {
            match HeatmapOpacity::decode(w) {
                Ok(_) => None,
                Err(e) => Some(e),
            }
        } else if str_eq(k, "heatmap-radius") {
            match HeatmapRadius::decode(w) {
                Ok(_) => None,
                Err(e) => Some(e),
            }
        } else if str_eq(k, "heatmap-weight") {
            match HeatmapWeight::decode(w) {
                Ok(_) => None,
                Err(e) => Some(e),
            }
        } else {
            None
        }
    }

    fn object_rejection(fields: &Vec<(String, JsonValue)>) -> (r: String)
        ensures
            r@ == Self::rejection(JsonValue::Object(*fields).model()),
    {
        let ghost o = entries_model(*fields);
        let mut i: usize = 0;
        while i < fields.len()
            invariant
                o == entries_model(*fields),
                o.len() == fields.len(),
                i <= fields.len(),
                Self::first_fault(o, 0) == Self::first_fault(o, i as int),
            decreases fields.len() - i,
        {
            proof {
                assert(o[i as int] == (fields@[i as int].0@, fields@[i as int].1.model()));
            }
            if !key_seen_before(fields, i) {
                match Self::find_field_fault(fields[i].0.as_str(), &fields[i].1) {
                    Some(m) => {
                        return m;
                    },
                    None => {},
                }
            }
            i += 1;
        }
        if get_field(fields, "heatmap-color").is_none() {
            return make_missing_field("heatmap-color");
        }
        if get_field(fields, "heatmap-intensity").is_none() {
            return make_missing_field("heatmap-intensity");
        }
        if get_field(fields, "heatmap-opacity").is_none() {
            return make_missing_field("heatmap-opacity");
        }
        if get_field(fields, "heatmap-radius").is_none() {
            return make_missing_field("heatmap-radius");
        }
        if get_field(fields, "heatmap-weight").is_none() {
            return make_missing_field("heatmap-weight");
        }
        String::new()
    }
}

/// Defines the color of each pixel based on its density value in a heatmap.  Should be an expression that uses `["heatmap-density"]` as input.
#[derive(PartialEq, Debug, Clone)]
pub struct HeatmapColor(ColorValue);

impl JsonDecode for HeatmapColor {
    closed spec fn accepts(v: Json) -> bool {
        ColorValue::accepts(v)
    }

    closed spec fn decodes(v: Json, x: Self) -> bool {
        ColorValue::decodes(v, x.0)
    }

    closed spec fn rejection(v: Json) -> Seq<char> {
        ColorValue::rejection(v)
    }

    fn decode(v: &JsonValue) -> (r: Result<Self, String>) {
        match ColorValue::decode(v) {
            Ok(x) => Ok(HeatmapColor(x)),
            Err(e) => Err(e),
        }
    }
}

/// Similar to `heatmap-weight` but controls the intensity of the heatmap globally. Primarily used for adjusting the heatmap based on zoom level.
///
/// Range: 0..
#[derive(PartialEq, Debug, Clone)]
pub struct HeatmapIntensity(JsonNumber);

impl View for HeatmapIntensity {
    type V = Seq<char>;

    closed spec fn view(&self) -> Seq<char> {
        self.0@
    }
}

impl JsonDecode for HeatmapIntensity {
    open spec fn accepts(v: Json) -> bool {
        v is Number
    }

    open spec fn decodes(v: Json, x: Self) -> bool {
        v == Json::Number(x@)
    }

    open spec fn rejection(v: Json) -> Seq<char> {
        JsonNumber::rejection(v)
    }

    fn decode(v: &JsonValue) -> (r: Result<Self, String>) {
        match JsonNumber::decode(v) {
            Ok(x) => Ok(HeatmapIntensity(x)),
            Err(e) => Err(e),
        }
    }
}

impl JsonEncode for HeatmapIntensity {
    open spec fn to_json(self) -> Json {
        Json::Number(self@)
    }

    open spec fn round_trips(self) -> bool {
        true
    }

    fn encode(&self) -> (r: JsonValue) {
        JsonNumber::encode(&self.0)
    }

    proof fn lemma_round_trip(self) {
        JsonNumber::lemma_round_trip(self.0);
    }
}

impl Default for HeatmapIntensity {
    fn default() -> (r: Self)
        ensures
            r.to_json() == Json::Number("1"@),
    {
        let r = HeatmapIntensity(JsonNumber::from_literal("1"));
        r
    }
}

/// The global opacity at which the heatmap layer will be drawn.
///
/// Range: 0..=1
#[derive(PartialEq, Debug, Clone)]
pub struct HeatmapOpacity(JsonNumber);

impl View for HeatmapOpacity {
    type V = Seq<char>;

    closed spec fn view(&self) -> Seq<char> {
        self.0@
    }
}

impl JsonDecode for HeatmapOpacity {
    open spec fn accepts(v: Json) -> bool {
        v is Number
    }

    open spec fn decodes(v: Json, x: Self) -> bool {
        v == Json::Number(x@)
    }

    open spec fn rejection(v: Json) -> Seq<char> {
        JsonNumber::rejection(v)
    }

    fn decode(v: &JsonValue) -> (r: Result<Self, String>) {
        match JsonNumber::decode(v) {
            Ok(x) => Ok(HeatmapOpacity(x)),
            Err(e) => Err(e),
        }
    }
}

impl JsonEncode for HeatmapOpacity {
    open spec fn to_json(self) -> Json {
        Json::Number(self@)
    }

    open spec fn round_trips(self) -> bool {
        true
    }

    fn encode(&self) -> (r: JsonValue) {
        JsonNumber::encode(&self.0)
    }

    proof fn lemma_round_trip(self) {
        JsonNumber::lemma_round_trip(self.0);
    }
}

impl Default for HeatmapOpacity {
    fn default() -> (r: Self)
        ensures
            r.to_json() == Json::Number("1"@),
    {
        let r = HeatmapOpacity(JsonNumber::from_literal("1"));
        r
    }
}

/// Radius of influence of one heatmap point in pixels. Increasing the value makes the heatmap smoother, but less detailed.
///
/// Range: 1..
#[derive(PartialEq, Debug, Clone)]
pub struct HeatmapRadius(JsonNumber);

impl View for HeatmapRadius {
    type V = Seq<char>;

    closed spec fn view(&self) -> Seq<char> {
        self.0@
    }
}

impl JsonDecode for HeatmapRadius {
    open spec fn accepts(v: Json) -> bool {
        v is Number
    }

    open spec fn decodes(v: Json, x: Self) -> bool {
        v == Json::Number(x@)
    }

    open spec fn rejection(v: Json) -> Seq<char> {
        JsonNumber::rejection(v)
    }

    fn decode(v: &JsonValue) -> (r: Result<Self, String>) {
        match JsonNumber::decode(v) {
            Ok(x) => Ok(HeatmapRadius(x)),
            Err(e) => Err(e),
        }
    }
}

impl JsonEncode for HeatmapRadius {
    open spec fn to_json(self) -> Json {
        Json::Number(self@)
    }

    open spec fn round_trips(self) -> bool {
        true
    }

    fn encode(&self) -> (r: JsonValue) {
        JsonNumber::encode(&self.0)
    }

    proof fn lemma_round_trip(self) {
        JsonNumber::lemma_round_trip(self.0);
    }
}

impl Default for HeatmapRadius {
    fn default() -> (r: Self)
        ensures
            r.to_json() == Json::Number("30"@),
    {
        let r = HeatmapRadius(JsonNumber::from_literal("30"));
        r
    }
}

/// A measure of how much an individual point contributes to the heatmap. A value of 10 would be equivalent to having 10 points of weight 1 in the same spot. Especially useful when combined with clustering.
///
/// Range: 0..
#[derive(PartialEq, Debug, Clone)]
pub struct HeatmapWeight(JsonNumber);

impl View for HeatmapWeight {
    type V = Seq<char>;

    closed spec fn view(&self) -> Seq<char> {
        self.0@
    }
}

impl JsonDecode for HeatmapWeight {
    open spec fn accepts(v: Json) -> bool {
        v is Number
    }

    open spec fn decodes(v: Json, x: Self) -> bool {
        v == Json::Number(x@)
    }

    open spec fn rejection(v: Json) -> Seq<char> {
        JsonNumber::rejection(v)
    }

    fn decode(v: &JsonValue) -> (r: Result<Self, String>) {
        match JsonNumber::decode(v) {
            Ok(x) => Ok(HeatmapWeight(x)),
            Err(e) => Err(e),
        }
    }
}

impl JsonEncode for HeatmapWeight {
    open spec fn to_json(self) -> Json {
        Json::Number(self@)
    }

    open spec fn round_trips(self) -> bool {
        true
    }

    fn encode(&self) -> (r: JsonValue) {
        JsonNumber::encode(&self.0)
    }

    proof fn lemma_round_trip(self) {
        JsonNumber::lemma_round_trip(self.0);
    }
}

impl Default for HeatmapWeight {
    fn default() -> (r: Self)
        ensures
            r.to_json() == Json::Number("1"@),
    {
        let r = HeatmapWeight(JsonNumber::from_literal("1"));
        r
    }
}

/// The shading color used to accentuate rugged terrain like sharp cliffs and gorges.
#[derive(PartialEq, Debug, Clone)]
pub struct HillshadeAccentColor(ColorValue);

impl JsonDecode for HillshadeAccentColor {
    closed spec fn accepts(v: Json) -> bool {
        ColorValue::accepts(v)
    }

    closed spec fn decodes(v: Json, x: Self) -> bool {
        ColorValue::decodes(v, x.0)
    }

    closed spec fn rejection(v: Json) -> Seq<char> {
        ColorValue::rejection(v)
    }

    fn decode(v: &JsonValue) -> (r: Result<Self, String>) {
        match ColorValue::decode(v) {
            Ok(x) => Ok(HillshadeAccentColor(x)),
            Err(e) => Err(e),
        }
    }
}

impl JsonEncode for HillshadeAccentColor {
    closed spec fn to_json(self) -> Json {
        ColorValue::to_json(self.0)
    }

    closed spec fn round_trips(self) -> bool {
        ColorValue::round_trips(self.0)
    }

    fn encode(&self) -> (r: JsonValue) {
        ColorValue::encode(&self.0)
    }

    proof fn lemma_round_trip(self) {
        ColorValue::lemma_round_trip(self.0);
    }
}

impl Default for HillshadeAccentColor {
    fn default() -> (r: Self)
        ensures
            r.to_json() == Json::Str("#000000"@),
    {
        proof {
            reveal_strlit("#000000");
        }
        let r = HillshadeAccentColor(default_color("#000000"));
        r
    }
}

/// Intensity of the hillshade
///
/// Range: 0..=1
#[derive(PartialEq, Debug, Clone)]
pub struct HillshadeExaggeration(JsonNumber);

impl View for HillshadeExaggeration {
    type V = Seq<char>;

    closed spec fn view(&self) -> Seq<char> {
        self.0@
    }
}

impl JsonDecode for HillshadeExaggeration {
    open spec fn accepts(v: Json) -> bool {
        v is Number
    }

    open spec fn decodes(v: Json, x: Self) -> bool {
        v == Json::Number(x@)
    }

    open spec fn rejection(v: Json) -> Seq<char> {
        JsonNumber::rejection(v)
    }

    fn decode(v: &JsonValue) -> (r: Result<Self, String>) {
        match JsonNumber::decode(v) {
            Ok(x) => Ok(HillshadeExaggeration(x)),
            Err(e) => Err(e),
        }
    }
}

/// The altitude of the light source(s) used to generate the hillshading with 0 as sunset and 90 as noon. Only when `hillshade-method` is set to `multidirectional` can you specify multiple light sources.
///
/// Range: 0..=90
#[derive(PartialEq, Debug, Clone)]
pub struct HillshadeIlluminationAltitude(JsonValue);

impl View for HillshadeIlluminationAltitude {
    type V = Json;

    closed spec fn view(&self) -> Json {
        self.0.model()
    }
}

impl JsonDecode for HillshadeIlluminationAltitude {
    open spec fn accepts(v: Json) -> bool {
        true
    }

    open spec fn decodes(v: Json, x: Self) -> bool {
        v == x@
    }

    open spec fn rejection(v: Json) -> Seq<char> {
        JsonValue::rejection(v)
    }

    fn decode(v: &JsonValue) -> (r: Result<Self, String>) {
        match JsonValue::decode(v) {
            Ok(x) => Ok(HillshadeIlluminationAltitude(x)),
            Err(e) => Err(e),
        }
    }
}

/// Direction of light source when map is rotated.
#[derive(PartialEq, Eq, Debug, Clone, Copy)]
pub enum HillshadeIlluminationAnchor {
    /// The hillshade illumination is relative to the north direction.
    MapValue,
    /// The hillshade illumination is relative to the top of the viewport.
    Viewport,
}

impl HillshadeIlluminationAnchor {
    /// The name that stands for the value in a style document.
    pub open spec fn spec_name(self) -> Seq<char> {
        match self {
            HillshadeIlluminationAnchor::MapValue => "map"@,
            HillshadeIlluminationAnchor::Viewport => "viewport"@,
        }
    }

    /// The name that stands for the value in a style document.
    pub fn name(&self) -> (r: &'static str)
        ensures
            r@ == self.spec_name(),
    {
        match self {
            HillshadeIlluminationAnchor::MapValue => "map",
            HillshadeIlluminationAnchor::Viewport => "viewport",
        }
    }

    /// The value that a name stands for, if any.
    pub fn from_name(s: &str) -> (r: Option<HillshadeIlluminationAnchor>)
        ensures
            r matches Some(x) ==> x.spec_name() == s@,
            r is None ==> forall|x: HillshadeIlluminationAnchor| x.spec_name() != s@,
    {
        if str_eq(s, "map") {
            Some(HillshadeIlluminationAnchor::MapValue)
        } else if str_eq(s, "viewport") {
            Some(HillshadeIlluminationAnchor::Viewport)
        } else {
            None
        }
    }
}

impl JsonDecode for HillshadeIlluminationAnchor {
    /// The name of a value, or an object whose one entry has the name as its key and `null`.
    open spec fn accepts(v: Json) -> bool {
        ||| (v is Str && exists|x: HillshadeIlluminationAnchor| x.spec_name() == v->Str_0)
        ||| (v is Object && v->Object_0.len() == 1 && v->Object_0[0].1 is Null && exists|x: HillshadeIlluminationAnchor| x.spec_name() == v->Object_0[0].0)
    }

    open spec fn decodes(v: Json, x: Self) -> bool {
        ||| v == Json::Str(x.spec_name())
        ||| (v is Object && v->Object_0.len() == 1 && v->Object_0[0] == (x.spec_name(), Json::Null))
    }

    open spec fn rejection(v: Json) -> Seq<char> {
        if v is Str {
            unknown_variant(v->Str_0) + ", expected `map` or `viewport`"@
        } else if v is Object {
            let o = v->Object_0;
            if o.len() != 1 {
                "invalid value: map, expected map with a single key"@
            } else if !(exists|x: HillshadeIlluminationAnchor| x.spec_name() == o[0].0) {
                unknown_variant(o[0].0) + ", expected `map` or `viewport`"@
            } else {
                type_error(o[0].1, "unit"@)
            }
        } else {
            type_error(v, "string or map"@)
        }
    }

    fn decode(v: &JsonValue) -> (r: Result<Self, String>) {
        match v {
            JsonValue::String(s) => match Self::from_name(s.as_str()) {
                Some(x) => Ok(x),
                None => {
                    let mut m = make_unknown_variant(s.as_str());
                    m.append(", expected `map` or `viewport`");
                    Err(m)
                },
            },
            JsonValue::Object(fields) => {
                if fields.len() != 1 {
                    return Err("invalid value: map, expected map with a single key".to_string());
                }
                proof {
                    assert(entries_model(*fields)[0] == (fields@[0].0@, fields@[0].1.model()));
                }
                match Self::from_name(fields[0].0.as_str()) {
                    Some(x) => match &fields[0].1 {
                        JsonValue::Null => Ok(x),
                        _ => Err(make_type_error(&fields[0].1, "unit")),
                    },
                    None => {
                        let mut m = make_unknown_variant(fields[0].0.as_str());
                        m.append(", expected `map` or `viewport`");
                        Err(m)
                    },
                }
            },
            _ => Err(make_type_error(v, "string or map")),
        }
    }
}

impl Default for HillshadeIlluminationAnchor {
    fn default() -> (r: Self)
        ensures
            r == HillshadeIlluminationAnchor::Viewport,
    {
        HillshadeIlluminationAnchor::Viewport
    }
}

/// The direction of the light source(s) used to generate the hillshading with 0 as the top of the viewport if `hillshade-illumination-anchor` is set to `viewport` and due north if `hillshade-illumination-anchor` is set to `map`. Only when `hillshade-method` is set to `multidirectional` can you specify multiple light sources.
///
/// Range: 0..=359
#[derive(PartialEq, Debug, Clone)]
pub struct HillshadeIlluminationDirection(JsonValue);

impl View for HillshadeIlluminationDirection {
    type V = Json;

    closed spec fn view(&self) -> Json {
        self.0.model()
    }
}

impl JsonDecode for HillshadeIlluminationDirection {
    open spec fn accepts(v: Json) -> bool {
        true
    }

    open spec fn decodes(v: Json, x: Self) -> bool {
        v == x@
    }

    open spec fn rejection(v: Json) -> Seq<char> {
        JsonValue::rejection(v)
    }

    fn decode(v: &JsonValue) -> (r: Result<Self, String>) {
        match JsonValue::decode(v) {
            Ok(x) => Ok(HillshadeIlluminationDirection(x)),
            Err(e) => Err(e),
        }
    }
}

/// The hillshade algorithm to use, one of `standard`, `basic`, `combined`, `igor`, or `multidirectional`. ![image](assets/hillshade_methods.png)
#[derive(PartialEq, Eq, Debug, Clone, Copy)]
pub enum HillshadeMethod {
    /// Basic hillshade. Uses a simple physics model where the reflected light intensity is proportional to the cosine of the angle between the incident light and the surface normal. Similar to GDAL's `gdaldem` default algorithm.
    Basic,
    /// Hillshade algorithm whose intensity scales with slope. Similar to GDAL's `gdaldem` with `-combined` option.
    Combined,
    /// Hillshade algorithm which tries to minimize effects on other map features beneath. Similar to GDAL's `gdaldem` with `-igor` option.
    Igor,
    /// Hillshade with multiple illumination directions. Uses the basic hillshade model with multiple independent light sources.
    Multidirectional,
    /// The legacy hillshade method.
    Standard,
}

impl HillshadeMethod {
    /// The name that stands for the value in a style document.
    pub open spec fn spec_name(self) -> Seq<char> {
        match self {
            HillshadeMethod::Basic => "basic"@,
            HillshadeMethod::Combined => "combined"@,
            HillshadeMethod::Igor => "igor"@,
            HillshadeMethod::Multidirectional => "multidirectional"@,
            HillshadeMethod::Standard => "standard"@,
        }
    }

    /// The name that stands for the value in a style document.
    pub fn name(&self) -> (r: &'static str)
        ensures
            r@ == self.spec_name(),
    {
        match self {
            HillshadeMethod::Basic => "basic",
            HillshadeMethod::Combined => "combined",
            HillshadeMethod::Igor => "igor",
            HillshadeMethod::Multidirectional => "multidirectional",
            HillshadeMethod::Standard => "standard",
        }
    }

    /// The value that a name stands for, if any.
    pub fn from_name(s: &str) -> (r: Option<HillshadeMethod>)
        ensures
            r matches Some(x) ==> x.spec_name() == s@,
            r is None ==> forall|x: HillshadeMethod| x.spec_name() != s@,
    {
        if str_eq(s, "basic") {
            Some(HillshadeMethod::Basic)
        } else if str_eq(s, "combined") {
            Some(HillshadeMethod::Combined)
        } else if str_eq(s, "igor") {
            Some(HillshadeMethod::Igor)
        } else if str_eq(s, "multidirectional") {
            Some(HillshadeMethod::Multidirectional)
        } else if str_eq(s, "standard") {
            Some(HillshadeMethod::Standard)
        } else {
            None
        }
    }
}

impl JsonDecode for HillshadeMethod {
    /// The name of a value, or an object whose one entry has the name as its key and `null`.
    open spec fn accepts(v: Json) -> bool {
        ||| (v is Str && exists|x: HillshadeMethod| x.spec_name() == v->Str_0)
        ||| (v is Object && v->Object_0.len() == 1 && v->Object_0[0].1 is Null && exists|x: HillshadeMethod| x.spec_name() == v->Object_0[0].0)
    }

    open spec fn decodes(v: Json, x: Self) -> bool {
        ||| v == Json::Str(x.spec_name())
        ||| (v is Object && v->Object_0.len() == 1 && v->Object_0[0] == (x.spec_name(), Json::Null))
    }

    open spec fn rejection(v: Json) -> Seq<char> {
        if v is Str {
            unknown_variant(v->Str_0) + ", expected one of `basic`, `combined`, `igor`, `multidirectional`, `standard`"@
        } else if v is Object {
            let o = v->Object_0;
            if o.len() != 1 {
                "invalid value: map, expected map with a single key"@
            } else if !(exists|x: HillshadeMethod| x.spec_name() == o[0].0) {
                unknown_variant(o[0].0) + ", expected one of `basic`, `combined`, `igor`, `multidirectional`, `standard`"@
            } else {
                type_error(o[0].1, "unit"@)
            }
        } else {
            type_error(v, "string or map"@)
        }
    }

    fn decode(v: &JsonValue) -> (r: Result<Self, String>) {
        match v {
            JsonValue::String(s) => match Self::from_name(s.as_str()) {
                Some(x) => Ok(x),
                None => {
                    let mut m = make_unknown_variant(s.as_str());
                    m.append(", expected one of `basic`, `combined`, `igor`, `multidirectional`, `standard`");
                    Err(m)
                },
            },
            JsonValue::Object(fields) => {
                if fields.len() != 1 {
                    return Err("invalid value: map, expected map with a single key".to_string());
                }
                proof {
                    assert(entries_model(*fields)[0] == (fields@[0].0@, fields@[0].1.model()));
                }
                match Self::from_name(fields[0].0.as_str()) {
                    Some(x) => match &fields[0].1 {
                        JsonValue::Null => Ok(x),
                        _ => Err(make_type_error(&fields[0].1, "unit")),
                    },
                    None => {
                        let mut m = make_unknown_variant(fields[0].0.as_str());
                        m.append(", expected one of `basic`, `combined`, `igor`, `multidirectional`, `standard`");
                        Err(m)
                    },
                }
            },
            _ => Err(make_type_error(v, "string or map")),
        }
    }
}

impl Default for HillshadeMethod {
    fn default() -> (r: Self)
        ensures
            r == HillshadeMethod::Standard,
    {
        HillshadeMethod::Standard
    }
}

#[derive(PartialEq, Debug, Clone)]
pub struct PaintLine {
    /// Blur applied to the line, in pixels.
    pub line_blur: LineBlur,
    /// The color with which the line will be drawn.
    pub line_color: LineColor,
    /// Specifies the lengths of the alternating dashes and gaps that form the dash pattern. The lengths are later scaled by the line width. To convert a dash length to pixels, multiply the length by the current line width. GeoJSON sources with `lineMetrics: true` specified won't render dashed lines to the expected scale. Zoom-dependent expressions will be evaluated only at integer zoom levels. The only way to create an array value is using `["literal", [...]]`; arrays cannot be read from or derived from feature properties.
    pub line_dasharray: LineDasharray,
    /// Draws a line casing outside of a line's actual path. Value indicates the width of the inner gap.
    pub line_gap_width: LineGapWidth,
    /// Defines a gradient with which to color a line feature. Can only be used with GeoJSON sources that specify `"lineMetrics": true`.
    pub line_gradient: LineGradient,
    /// The line's offset. For linear features, a positive value offsets the line to the right, relative to the direction of the line, and a negative value to the left. For polygon features, a positive value results in an inset, and a negative value results in an outset.
    pub line_offset: LineOffset,
    /// The opacity at which the line will be drawn.
    pub line_opacity: LineOpacity,
    /// Name of image in sprite to use for drawing image lines. For seamless patterns, image width must be a factor of two (2, 4, 8, ..., 512). Note that zoom-dependent expressions will be evaluated only at integer zoom levels.
    pub line_pattern: LinePattern,
    /// The geometry's offset. Values are [x, y] where negatives indicate left and up, respectively.
    pub line_translate: LineTranslate,
    /// Controls the frame of reference for `line-translate`.
    pub line_translate_anchor: LineTranslateAnchor,
    /// Stroke thickness.
    pub line_width: LineWidth,
}

impl JsonDecode for PaintLine {
    /// An object with the fields by their keys, or an array with the fields in order.
    open spec fn accepts(v: Json) -> bool {
        ||| (v is Object && {
            let o = v->Object_0;
            &&& req_field_accepts::<LineBlur>(o, "line-blur"@)
            &&& req_field_accepts::<LineColor>(o, "line-color"@)
            &&& req_field_accepts::<LineDasharray>(o, "line-dasharray"@)
            &&& req_field_accepts::<LineGapWidth>(o, "line-gap-width"@)
            &&& req_field_accepts::<LineGradient>(o, "line-gradient"@)
            &&& req_field_accepts::<LineOffset>(o, "line-offset"@)
            &&& req_field_accepts::<LineOpacity>(o, "line-opacity"@)
            &&& req_field_accepts::<LinePattern>(o, "line-pattern"@)
            &&& req_field_accepts::<LineTranslate>(o, "line-translate"@)
            &&& req_field_accepts::<LineTranslateAnchor>(o, "line-translate-anchor"@)
            &&& req_field_accepts::<LineWidth>(o, "line-width"@)
        })
        ||| (v is Array && {
            let a = v->Array_0;
            &&& seq_req_accepts::<LineBlur>(a, 0)
            &&& seq_req_accepts::<LineColor>(a, 1)
            &&& seq_req_accepts::<LineDasharray>(a, 2)
            &&& seq_req_accepts::<LineGapWidth>(a, 3)
            &&& seq_req_accepts::<LineGradient>(a, 4)
            &&& seq_req_accepts::<LineOffset>(a, 5)
            &&& seq_req_accepts::<LineOpacity>(a, 6)
            &&& seq_req_accepts::<LinePattern>(a, 7)
            &&& seq_req_accepts::<LineTranslate>(a, 8)
            &&& seq_req_accepts::<LineTranslateAnchor>(a, 9)
            &&& seq_req_accepts::<LineWidth>(a, 10)
            &&& a.len() <= 11
        })
    }

    open spec fn decodes(v: Json, x: Self) -> bool {
        ||| (v is Object && {
            let o = v->Object_0;
            &&& req_field_decodes::<LineBlur>(o, "line-blur"@, x.line_blur)
            &&& req_field_decodes::<LineColor>(o, "line-color"@, x.line_color)
            &&& req_field_decodes::<LineDasharray>(o, "line-dasharray"@, x.line_dasharray)
            &&& req_field_decodes::<LineGapWidth>(o, "line-gap-width"@, x.line_gap_width)
            &&& req_field_decodes::<LineGradient>(o, "line-gradient"@, x.line_gradient)
            &&& req_field_decodes::<LineOffset>(o, "line-offset"@, x.line_offset)
            &&& req_field_decodes::<LineOpacity>(o, "line-opacity"@, x.line_opacity)
            &&& req_field_decodes::<LinePattern>(o, "line-pattern"@, x.line_pattern)
            &&& req_field_decodes::<LineTranslate>(o, "line-translate"@, x.line_translate)
            &&& req_field_decodes::<LineTranslateAnchor>(o, "line-translate-anchor"@, x.line_translate_anchor)
            &&& req_field_decodes::<LineWidth>(o, "line-width"@, x.line_width)
        })
        ||| (v is Array && {
            let a = v->Array_0;
            &&& seq_req_decodes::<LineBlur>(a, 0, x.line_blur)
            &&& seq_req_decodes::<LineColor>(a, 1, x.line_color)
            &&& seq_req_decodes::<LineDasharray>(a, 2, x.line_dasharray)
            &&& seq_req_decodes::<LineGapWidth>(a, 3, x.line_gap_width)
            &&& seq_req_decodes::<LineGradient>(a, 4, x.line_gradient)
            &&& seq_req_decodes::<LineOffset>(a, 5, x.line_offset)
            &&& seq_req_decodes::<LineOpacity>(a, 6, x.line_opacity)
            &&& seq_req_decodes::<LinePattern>(a, 7, x.line_pattern)
            &&& seq_req_decodes::<LineTranslate>(a, 8, x.line_translate)
            &&& seq_req_decodes::<LineTranslateAnchor>(a, 9, x.line_translate_anchor)
            &&& seq_req_decodes::<LineWidth>(a, 10, x.line_width)
        })
    }

    /// For an object, the first entry in order whose value does not read as its field, else the
    /// first required field that is missing.
    open spec fn rejection(v: Json) -> Seq<char> {
        if v is Object {
            let o = v->Object_0;
            match Self::first_fault(o, 0) {
                Some(m) => m,
                None => if lookup(o, "line-blur"@) is None {
                    missing_field("line-blur"@)
                } else if lookup(o, "line-color"@) is None {
                    missing_field("line-color"@)
                } else if lookup(o, "line-dasharray"@) is None {
                    missing_field("line-dasharray"@)
                } else if lookup(o, "line-gap-width"@) is None {
                    missing_field("line-gap-width"@)
                } else if lookup(o, "line-gradient"@) is None {
                    missing_field("line-gradient"@)
                } else if lookup(o, "line-offset"@) is None {
                    missing_field("line-offset"@)
                } else if lookup(o, "line-opacity"@) is None {
                    missing_field("line-opacity"@)
                } else if lookup(o, "line-pattern"@) is None {
                    missing_field("line-pattern"@)
                } else if lookup(o, "line-translate"@) is None {
                    missing_field("line-translate"@)
                } else if lookup(o, "line-translate-anchor"@) is None {
                    missing_field("line-translate-anchor"@)
                } else if lookup(o, "line-width"@) is None {
                    missing_field("line-width"@)
                } else {
                    Seq::empty()
                },
            }
        } else if v is Array {
            let a = v->Array_0;
            if !seq_req_accepts::<LineBlur>(a, 0) {
                seq_req_rejection::<LineBlur>(a, 0, "struct PaintLine with 11 elements"@)
            } else if !seq_req_accepts::<LineColor>(a, 1) {
                seq_req_rejection::<LineColor>(a, 1, "struct PaintLine with 11 elements"@)
            } else if !seq_req_accepts::<LineDasharray>(a, 2) {
                seq_req_rejection::<LineDasharray>(a, 2, "struct PaintLine with 11 elements"@)
            } else if !seq_req_accepts::<LineGapWidth>(a, 3) {
                seq_req_rejection::<LineGapWidth>(a, 3, "struct PaintLine with 11 elements"@)
            } else if !seq_req_accepts::<LineGradient>(a, 4) {
                seq_req_rejection::<LineGradient>(a, 4, "struct PaintLine with 11 elements"@)
            } else if !seq_req_accepts::<LineOffset>(a, 5) {
                seq_req_rejection::<LineOffset>(a, 5, "struct PaintLine with 11 elements"@)
            } else if !seq_req_accepts::<LineOpacity>(a, 6) {
                seq_req_rejection::<LineOpacity>(a, 6, "struct PaintLine with 11 elements"@)
            } else if !seq_req_accepts::<LinePattern>(a, 7) {
                seq_req_rejection::<LinePattern>(a, 7, "struct PaintLine with 11 elements"@)
            } else if !seq_req_accepts::<LineTranslate>(a, 8) {
                seq_req_rejection::<LineTranslate>(a, 8, "struct PaintLine with 11 elements"@)
            } else if !seq_req_accepts::<LineTranslateAnchor>(a, 9) {
                seq_req_rejection::<LineTranslateAnchor>(a, 9, "struct PaintLine with 11 elements"@)
            } else if !seq_req_accepts::<LineWidth>(a, 10) {
                seq_req_rejection::<LineWidth>(a, 10, "struct PaintLine with 11 elements"@)
            } else if a.len() > 11 {
                length_error(a.len())
            } else {
                Seq::empty()
            }
        } else {
            type_error(v, "struct PaintLine"@)
        }
    }

    fn decode(v: &JsonValue) -> (r: Result<Self, String>) {
        match v {
            JsonValue::Object(fields) => {
                let line_blur = match decode_req_field::<LineBlur>(fields, "line-blur") {
                    Ok(x) => x,
                    Err(_) => return Err(Self::object_rejection(fields)),
                };
                let line_color = match decode_req_field::<LineColor>(fields, "line-color") {
                    Ok(x) => x,
                    Err(_) => return Err(Self::object_rejection(fields)),
                };
                let line_dasharray = match decode_req_field::<LineDasharray>(fields, "line-dasharray") {
                    Ok(x) => x,
                    Err(_) => return Err(Self::object_rejection(fields)),
                };
                let line_gap_width = match decode_req_field::<LineGapWidth>(fields, "line-gap-width") {
                    Ok(x) => x,
                    Err(_) => return Err(Self::object_rejection(fields)),
                };
                let line_gradient = match decode_req_field::<LineGradient>(fields, "line-gradient") {
                    Ok(x) => x,
                    Err(_) => return Err(Self::object_rejection(fields)),
                };
                let line_offset = match decode_req_field::<LineOffset>(fields, "line-offset") {
                    Ok(x) => x,
                    Err(_) => return Err(Self::object_rejection(fields)),
                };
                let line_opacity = match decode_req_field::<LineOpacity>(fields, "line-opacity") {
                    Ok(x) => x,
                    Err(_) => return Err(Self::object_rejection(fields)),
                };
                let line_pattern = match decode_req_field::<LinePattern>(fields, "line-pattern") {
                    Ok(x) => x,
                    Err(_) => return Err(Self::object_rejection(fields)),
                };
                let line_translate = match decode_req_field::<LineTranslate>(fields, "line-translate") {
                    Ok(x) => x,
                    Err(_) => return Err(Self::object_rejection(fields)),
                };
                let line_translate_anchor = match decode_req_field::<LineTranslateAnchor>(fields, "line-translate-anchor") {
                    Ok(x) => x,
                    Err(_) => return Err(Self::object_rejection(fields)),
                };
                let line_width = match decode_req_field::<LineWidth>(fields, "line-width") {
                    Ok(x) => x,
                    Err(_) => return Err(Self::object_rejection(fields)),
                };
                Ok(PaintLine { line_blur, line_color, line_dasharray, line_gap_width, line_gradient, line_offset, line_opacity, line_pattern, line_translate, line_translate_anchor, line_width })
            },
            JsonValue::Array(a) => {
                let line_blur = match decode_seq_req::<LineBlur>(a, 0, "struct PaintLine with 11 elements") {
                    Ok(x) => x,
                    Err(e) => return Err(e),
                };
                let line_color = match decode_seq_req::<LineColor>(a, 1, "struct PaintLine with 11 elements") {
                    Ok(x) => x,
                    Err(e) => return Err(e),
                };
                let line_dasharray = match decode_seq_req::<LineDasharray>(a, 2, "struct PaintLine with 11 elements") {
                    Ok(x) => x,
                    Err(e) => return Err(e),
                };
                let line_gap_width = match decode_seq_req::<LineGapWidth>(a, 3, "struct PaintLine with 11 elements") {
                    Ok(x) => x,
                    Err(e) => return Err(e),
                };
                let line_gradient = match decode_seq_req::<LineGradient>(a, 4, "struct PaintLine with 11 elements") {
                    Ok(x) => x,
                    Err(e) => return Err(e),
                };
                let line_offset = match decode_seq_req::<LineOffset>(a, 5, "struct PaintLine with 11 elements") {
                    Ok(x) => x,
                    Err(e) => return Err(e),
                };
                let line_opacity = match decode_seq_req::<LineOpacity>(a, 6, "struct PaintLine with 11 elements") {
                    Ok(x) => x,
                    Err(e) => return Err(e),
                };
                let line_pattern = match decode_seq_req::<LinePattern>(a, 7, "struct PaintLine with 11 elements") {
                    Ok(x) => x,
                    Err(e) => return Err(e),
                };
                let line_translate = match decode_seq_req::<LineTranslate>(a, 8, "struct PaintLine with 11 elements") {
                    Ok(x) => x,
                    Err(e) => return Err(e),
                };
                let line_translate_anchor = match decode_seq_req::<LineTranslateAnchor>(a, 9, "struct PaintLine with 11 elements") {
                    Ok(x) => x,
                    Err(e) => return Err(e),
                };
                let line_width = match decode_seq_req::<LineWidth>(a, 10, "struct PaintLine with 11 elements") {
                    Ok(x) => x,
                    Err(e) => return Err(e),
                };
                if a.len() > 11 {
                    return Err(make_length_error(a.len()));
                }
                Ok(PaintLine { line_blur, line_color, line_dasharray, line_gap_width, line_gradient, line_offset, line_opacity, line_pattern, line_translate, line_translate_anchor, line_width })
            },
            _ => Err(make_type_error(v, "struct PaintLine")),
        }
    }
}

impl PaintLine {
    /// What is wrong with the value `w` of an entry with key `k`, where `k` is the key of a field.
    pub open spec fn field_fault(k: Seq<char>, w: Json) -> Option<Seq<char>> {
        if k == "line-blur"@ {
            if LineBlur::accepts(w) {
                None
            } else {
                Some(LineBlur::rejection(w))
            }
        } else if k == "line-color"@ {
            if LineColor::accepts(w) {
                None
            } else {
                Some(LineColor::rejection(w))
            }
        } else if k == "line-dasharray"@ {
            if LineDasharray::accepts(w) {
                None
            } else {
                Some(LineDasharray::rejection(w))
            }
        } else if k == "line-gap-width"@ {
            if LineGapWidth::accepts(w) {
                None
            } else {
                Some(LineGapWidth::rejection(w))
            }
        } else if k == "line-gradient"@ {
            if LineGradient::accepts(w) {
                None
            } else {
                Some(LineGradient::rejection(w))
            }
        } else if k == "line-offset"@ {
            if LineOffset::accepts(w) {
                None
            } else {
                Some(LineOffset::rejection(w))
            }
        } else if k == "line-opacity"@ {
            if LineOpacity::accepts(w) {
                None
            } else {
                Some(LineOpacity::rejection(w))
            }
        } else if k == "line-pattern"@ {
            if LinePattern::accepts(w) {
                None
            } else {
                Some(LinePattern::rejection(w))
            }
        } else if k == "line-translate"@ {
            if LineTranslate::accepts(w) {
                None
            } else {
                Some(LineTranslate::rejection(w))
            }
        } else if k == "line-translate-anchor"@ {
            if LineTranslateAnchor::accepts(w) {
                None
            } else {
                Some(LineTranslateAnchor::rejection(w))
            }
        } else if k == "line-width"@ {
            if LineWidth::accepts(w) {
                None
            } else {
                Some(LineWidth::rejection(w))
            }
        } else {
            None
        }
    }

    /// The message of the first entry of `o`, from entry `i` on and among the first entries of
    /// their keys, whose value does not read as its field, if any.
    pub open spec fn first_fault(o: Seq<(Seq<char>, Json)>, i: int) -> Option<Seq<char>>
        decreases o.len() - i,
    {
        if i < 0 || i >= o.len() {
            None
        } else if first_with_key(o, i) && Self::field_fault(o[i].0, o[i].1) is Some {
            Self::field_fault(o[i].0, o[i].1)
        } else {
            Self::first_fault(o, i + 1)
        }
    }

    fn find_field_fault(k: &str, w: &JsonValue) -> (r: Option<String>)
        ensures
            match r {
                Some(m) => Self::field_fault(k@, w.model()) == Some(m@),
                None => Self::field_fault(k@, w.model()) is None,
            },
    {
        if str_eq(k, "line-blur") {
            match LineBlur::decode(w) {
                Ok(_) => None,
                Err(e) => Some(e),
            }
        } else if str_eq(k, "line-color") {
            match LineColor::decode(w) {
                Ok(_) => None,
                Err(e) => Some(e),
            }
        } else if str_eq(k, "line-dasharray") {
            match LineDasharray::decode(w) {
                Ok(_) => None,
                Err(e) => Some(e),
            }
        } else if str_eq(k, "line-gap-width") {
            match LineGapWidth::decode(w) {
                Ok(_) => None,
                Err(e) => Some(e),
            }
        } else if str_eq(k, "line-gradient") {
            match LineGradient::decode(w) {
                Ok(_) => None,
                Err(e) => Some(e),
            }
        } else if str_eq(k, "line-offset") {
            match LineOffset::decode(w) {
                Ok(_) => None,
                Err(e) => Some(e),
            }
        } else if str_eq(k, "line-opacity") {
            match LineOpacity::decode(w) {
                Ok(_) => None,
                Err(e) => Some(e),
            }
        } else if str_eq(k, "line-pattern") {
            match LinePattern::decode(w) {
                Ok(_) => None,
                Err(e) => Some(e),
            }
        } else if str_eq(k, "line-translate") {
            match LineTranslate::decode(w) {
                Ok(_) => None,
                Err(e) => Some(e),
            }
        } else if str_eq(k, "line-translate-anchor") {
            match LineTranslateAnchor::decode(w) {
                Ok(_) => None,
                Err(e) => Some(e),
            }
        } else if str_eq(k, "line-width") {
            match LineWidth::decode(w) {
                Ok(_) => None,
                Err(e) => Some(e),
            }
        } else {
            None
        }
    }

    fn object_rejection(fields: &Vec<(String, JsonValue)>) -> (r: String)
        ensures
            r@ == Self::rejection(JsonValue::Object(*fields).model()),
    {
        let ghost o = entries_model(*fields);
        let mut i: usize = 0;
        while i < fields.len()
            invariant
                o == entries_model(*fields),
                o.len() == fields.len(),
                i <= fields.len(),
                Self::first_fault(o, 0) == Self::first_fault(o, i as int),
            decreases fields.len() - i,
        {
            proof {
                assert(o[i as int] == (fields@[i as int].0@, fields@[i as int].1.model()));
            }
            if !key_seen_before(fields, i) {
                match Self::find_field_fault(fields[i].0.as_str(), &fields[i].1) {
                    Some(m) => {
                        return m;
                    },
                    None => {},
                }
            }
            i += 1;
        }
        if get_field(fields, "line-blur").is_none() {
            return make_missing_field("line-blur");
        }
        if get_field(fields, "line-color").is_none() {
            return make_missing_field("line-color");
        }
        if get_field(fields, "line-dasharray").is_none() {
            return make_missing_field("line-dasharray");
        }
        if get_field(fields, "line-gap-width").is_none() {
            return make_missing_field("line-gap-width");
        }
        if get_field(fields, "line-gradient").is_none() {
            return make_missing_field("line-gradient");
        }
        if get_field(fields, "line-offset").is_none() {
            return make_missing_field("line-offset");
        }
        if get_field(fields, "line-opacity").is_none() {
            return make_missing_field("line-opacity");
        }
        if get_field(fields, "line-pattern").is_none() {
            return make_missing_field("line-pattern");
        }
        if get_field(fields, "line-translate").is_none() {
            return make_missing_field("line-translate");
        }
        if get_field(fields, "line-translate-anchor").is_none() {
            return make_missing_field("line-translate-anchor");
        }
        if get_field(fields, "line-width").is_none() {
            return make_missing_field("line-width");
        }
        String::new()
    }
}

/// Blur applied to the line, in pixels.
///
/// Range: 0..
#[derive(PartialEq, Debug, Clone)]
pub struct LineBlur(JsonNumber);

impl View for LineBlur {
    type V = Seq<char>;

    closed spec fn view(&self) -> Seq<char> {
        self.0@
    }
}

impl JsonDecode for LineBlur {
    open spec fn accepts(v: Json) -> bool {
        v is Number
    }

    open spec fn decodes(v: Json, x: Self) -> bool {
        v == Json::Number(x@)
    }

    open spec fn rejection(v: Json) -> Seq<char> {
        JsonNumber::rejection(v)
    }

    fn decode(v: &JsonValue) -> (r: Result<Self, String>) {
        match JsonNumber::decode(v) {
            Ok(x) => Ok(LineBlur(x)),
            Err(e) => Err(e),
        }
    }
}

impl JsonEncode for LineBlur {
    open spec fn to_json(self) -> Json {
        Json::Number(self@)
    }

    open spec fn round_trips(self) -> bool {
        true
    }

    fn encode(&self) -> (r: JsonValue) {
        JsonNumber::encode(&self.0)
    }

    proof fn lemma_round_trip(self) {
        JsonNumber::lemma_round_trip(self.0);
    }
}

impl Default for LineBlur {
    fn default() -> (r: Self)
        ensures
            r.to_json() == Json::Number("0"@),
    {
        let r = LineBlur(JsonNumber::from_literal("0"));
        r
    }
}

/// The color with which the line will be drawn.
#[derive(PartialEq, Debug, Clone)]
pub struct LineColor(ColorValue);

impl JsonDecode for LineColor {
    closed spec fn accepts(v: Json) -> bool {
        ColorValue::accepts(v)
    }

    closed spec fn decodes(v: Json, x: Self) -> bool {
        ColorValue::decodes(v, x.0)
    }

    closed spec fn rejection(v: Json) -> Seq<char> {
        ColorValue::rejection(v)
    }

    fn decode(v: &JsonValue) -> (r: Result<Self, String>) {
        match ColorValue::decode(v) {
            Ok(x) => Ok(LineColor(x)),
            Err(e) => Err(e),
        }
    }
}

impl JsonEncode for LineColor {
    closed spec fn to_json(self) -> Json {
        ColorValue::to_json(self.0)
    }

    closed spec fn round_trips(self) -> bool {
        ColorValue::round_trips(self.0)
    }

    fn encode(&self) -> (r: JsonValue) {
        ColorValue::encode(&self.0)
    }

    proof fn lemma_round_trip(self) {
        ColorValue::lemma_round_trip(self.0);
    }
}

impl Default for LineColor {
    fn default() -> (r: Self)
        ensures
            r.to_json() == Json::Str("#000000"@),
    {
        proof {
            reveal_strlit("#000000");
        }
        let r = LineColor(default_color("#000000"));
        r
    }
}

/// Specifies the lengths of the alternating dashes and gaps that form the dash pattern. The lengths are later scaled by the line width. To convert a dash length to pixels, multiply the length by the current line width. GeoJSON sources with `lineMetrics: true` specified won't render dashed lines to the expected scale. Zoom-dependent expressions will be evaluated only at integer zoom levels. The only way to create an array value is using `["literal", [...]]`; arrays cannot be read from or derived from feature properties.
///
/// Range: 0..
#[derive(PartialEq, Debug, Clone)]
pub struct LineDasharray(JsonValue);

impl View for LineDasharray {
    type V = Json;

    closed spec fn view(&self) -> Json {
        self.0.model()
    }
}

impl JsonDecode for LineDasharray {
    open spec fn accepts(v: Json) -> bool {
        true
    }

    open spec fn decodes(v: Json, x: Self) -> bool {
        v == x@
    }

    open spec fn rejection(v: Json) -> Seq<char> {
        JsonValue::rejection(v)
    }

    fn decode(v: &JsonValue) -> (r: Result<Self, String>) {
        match JsonValue::decode(v) {
            Ok(x) => Ok(LineDasharray(x)),
            Err(e) => Err(e),
        }
    }
}

/// Draws a line casing outside of a line's actual path. Value indicates the width of the inner gap.
///
/// Range: 0..
#[derive(PartialEq, Debug, Clone)]
pub struct LineGapWidth(JsonNumber);

impl View for LineGapWidth {
    type V = Seq<char>;

    closed spec fn view(&self) -> Seq<char> {
        self.0@
    }
}

impl JsonDecode for LineGapWidth {
    open spec fn accepts(v: Json) -> bool {
        v is Number
    }

    open spec fn decodes(v: Json, x: Self) -> bool {
        v == Json::Number(x@)
    }

    open spec fn rejection(v: Json) -> Seq<char> {
        JsonNumber::rejection(v)
    }

    fn decode(v: &JsonValue) -> (r: Result<Self, String>) {
        match JsonNumber::decode(v) {
            Ok(x) => Ok(LineGapWidth(x)),
            Err(e) => Err(e),
        }
    }
}

impl JsonEncode for LineGapWidth {
    open spec fn to_json(self) -> Json {
        Json::Number(self@)
    }

    open spec fn round_trips(self) -> bool {
        true
    }

    fn encode(&self) -> (r: JsonValue) {
        JsonNumber::encode(&self.0)
    }

    proof fn lemma_round_trip(self) {
        JsonNumber::lemma_round_trip(self.0);
    }
}

impl Default for LineGapWidth {
    fn default() -> (r: Self)
        ensures
            r.to_json() == Json::Number("0"@),
    {
        let r = LineGapWidth(JsonNumber::from_literal("0"));
        r
    }
}

/// Defines a gradient with which to color a line feature. Can only be used with GeoJSON sources that specify `"lineMetrics": true`.
#[derive(PartialEq, Debug, Clone)]
pub struct LineGradient(ColorValue);

impl JsonDecode for LineGradient {
    closed spec fn accepts(v: Json) -> bool {
        ColorValue::accepts(v)
    }

    closed spec fn decodes(v: Json, x: Self) -> bool {
        ColorValue::decodes(v, x.0)
    }

    closed spec fn rejection(v: Json) -> Seq<char> {
        ColorValue::rejection(v)
    }

    fn decode(v: &JsonValue) -> (r: Result<Self, String>) {
        match ColorValue::decode(v) {
            Ok(x) => Ok(LineGradient(x)),
            Err(e) => Err(e),
        }
    }
}

/// The line's offset. For linear features, a positive value offsets the line to the right, relative to the direction of the line, and a negative value to the left. For polygon features, a positive value results in an inset, and a negative value results in an outset.
#[derive(PartialEq, Debug, Clone)]
pub struct LineOffset(JsonNumber);

impl View for LineOffset {
    type V = Seq<char>;

    closed spec fn view(&self) -> Seq<char> {
        self.0@
    }
}

impl JsonDecode for LineOffset {
    open spec fn accepts(v: Json) -> bool {
        v is Number
    }

    open spec fn decodes(v: Json, x: Self) -> bool {
        v == Json::Number(x@)
    }

    open spec fn rejection(v: Json) -> Seq<char> {
        JsonNumber::rejection(v)
    }

    fn decode(v: &JsonValue) -> (r: Result<Self, String>) {
        match JsonNumber::decode(v) {
            Ok(x) => Ok(LineOffset(x)),
            Err(e) => Err(e),
        }
    }
}

impl JsonEncode for LineOffset {
    open spec fn to_json(self) -> Json {
        Json::Number(self@)
    }

    open spec fn round_trips(self) -> bool {
        true
    }

    fn encode(&self) -> (r: JsonValue) {
        JsonNumber::encode(&self.0)
    }

    proof fn lemma_round_trip(self) {
        JsonNumber::lemma_round_trip(self.0);
    }
}

impl Default for LineOffset {
    fn default() -> (r: Self)
        ensures
            r.to_json() == Json::Number("0"@),
    {
        let r = LineOffset(JsonNumber::from_literal("0"));
        r
    }
}

/// The opacity at which the line will be drawn.
///
/// Range: 0..=1
#[derive(PartialEq, Debug, Clone)]
pub struct LineOpacity(JsonNumber);

impl View for LineOpacity {
    type V = Seq<char>;

    closed spec fn view(&self) -> Seq<char> {
        self.0@
    }
}

impl JsonDecode for LineOpacity {
    open spec fn accepts(v: Json) -> bool {
        v is Number
    }

    open spec fn decodes(v: Json, x: Self) -> bool {
        v == Json::Number(x@)
    }

    open spec fn rejection(v: Json) -> Seq<char> {
        JsonNumber::rejection(v)
    }

    fn decode(v: &JsonValue) -> (r: Result<Self, String>) {
        match JsonNumber::decode(v) {
            Ok(x) => Ok(LineOpacity(x)),
            Err(e) => Err(e),
        }
    }
}

impl JsonEncode for LineOpacity {
    open spec fn to_json(self) -> Json {
        Json::Number(self@)
    }

    open spec fn round_trips(self) -> bool {
        true
    }

    fn encode(&self) -> (r: JsonValue) {
        JsonNumber::encode(&self.0)
    }

    proof fn lemma_round_trip(self) {
        JsonNumber::lemma_round_trip(self.0);
    }
}

impl Default for LineOpacity {
    fn default() -> (r: Self)
        ensures
            r.to_json() == Json::Number("1"@),
    {
        let r = LineOpacity(JsonNumber::from_literal("1"));
        r
    }
}

/// Name of image in sprite to use for drawing image lines. For seamless patterns, image width must be a factor of two (2, 4, 8, ..., 512). Note that zoom-dependent expressions will be evaluated only at integer zoom levels.
#[derive(PartialEq, Debug, Clone)]
pub struct LinePattern(JsonValue);

impl View for LinePattern {
    type V = Json;

    closed spec fn view(&self) -> Json {
        self.0.model()
    }
}

impl JsonDecode for LinePattern {
    open spec fn accepts(v: Json) -> bool {
        true
    }

    open spec fn decodes(v: Json, x: Self) -> bool {
        v == x@
    }

    open spec fn rejection(v: Json) -> Seq<char> {
        JsonValue::rejection(v)
    }

    fn decode(v: &JsonValue) -> (r: Result<Self, String>) {
        match JsonValue::decode(v) {
            Ok(x) => Ok(LinePattern(x)),
            Err(e) => Err(e),
        }
    }
}

/// The geometry's offset. Values are [x, y] where negatives indicate left and up, respectively.
#[derive(PartialEq, Debug, Clone)]
pub struct LineTranslate(JsonValue);

impl View for LineTranslate {
    type V = Json;

    closed spec fn view(&self) -> Json {
        self.0.model()
    }
}

impl JsonDecode for LineTranslate {
    open spec fn accepts(v: Json) -> bool {
        true
    }

    open spec fn decodes(v: Json, x: Self) -> bool {
        v == x@
    }

    open spec fn rejection(v: Json) -> Seq<char> {
        JsonValue::rejection(v)
    }

    fn decode(v: &JsonValue) -> (r: Result<Self, String>) {
        match JsonValue::decode(v) {
            Ok(x) => Ok(LineTranslate(x)),
            Err(e) => Err(e),
        }
    }
}

/// Controls the frame of reference for `line-translate`.
#[derive(PartialEq, Eq, Debug, Clone, Copy)]
pub enum LineTranslateAnchor {
    /// The line is translated relative to the map.
    MapValue,
    /// The line is translated relative to the viewport.
    Viewport,
}

impl LineTranslateAnchor {
    /// The name that stands for the value in a style document.
    pub open spec fn spec_name(self) -> Seq<char> {
        match self {
            LineTranslateAnchor::MapValue => "map"@,
            LineTranslateAnchor::Viewport => "viewport"@,
        }
    }

    /// The name that stands for the value in a style document.
    pub fn name(&self) -> (r: &'static str)
        ensures
            r@ == self.spec_name(),
    {
        match self {
            LineTranslateAnchor::MapValue => "map",
            LineTranslateAnchor::Viewport => "viewport",
        }
    }

    /// The value that a name stands for, if any.
    pub fn from_name(s: &str) -> (r: Option<LineTranslateAnchor>)
        ensures
            r matches Some(x) ==> x.spec_name() == s@,
            r is None ==> forall|x: LineTranslateAnchor| x.spec_name() != s@,
    {
        if str_eq(s, "map") {
            Some(LineTranslateAnchor::MapValue)
        } else if str_eq(s, "viewport") {
            Some(LineTranslateAnchor::Viewport)
        } else {
            None
        }
    }
}

impl JsonDecode for LineTranslateAnchor {
    /// The name of a value, or an object whose one entry has the name as its key and `null`.
    open spec fn accepts(v: Json) -> bool {
        ||| (v is Str && exists|x: LineTranslateAnchor| x.spec_name() == v->Str_0)
        ||| (v is Object && v->Object_0.len() == 1 && v->Object_0[0].1 is Null && exists|x: LineTranslateAnchor| x.spec_name() == v->Object_0[0].0)
    }

    open spec fn decodes(v: Json, x: Self) -> bool {
        ||| v == Json::Str(x.spec_name())
        ||| (v is Object && v->Object_0.len() == 1 && v->Object_0[0] == (x.spec_name(), Json::Null))
    }

    open spec fn rejection(v: Json) -> Seq<char> {
        if v is Str {
            unknown_variant(v->Str_0) + ", expected `map` or `viewport`"@
        } else if v is Object {
            let o = v->Object_0;
            if o.len() != 1 {
                "invalid value: map, expected map with a single key"@
            } else if !(exists|x: LineTranslateAnchor| x.spec_name() == o[0].0) {
                unknown_variant(o[0].0) + ", expected `map` or `viewport`"@
            } else {
                type_error(o[0].1, "unit"@)
            }
        } else {
            type_error(v, "string or map"@)
        }
    }

    fn decode(v: &JsonValue) -> (r: Result<Self, String>) {
        match v {
            JsonValue::String(s) => match Self::from_name(s.as_str()) {
                Some(x) => Ok(x),
                None => {
                    let mut m = make_unknown_variant(s.as_str());
                    m.append(", expected `map` or `viewport`");
                    Err(m)
                },
            },
            JsonValue::Object(fields) => {
                if fields.len() != 1 {
                    return Err("invalid value: map, expected map with a single key".to_string());
                }
                proof {
                    assert(entries_model(*fields)[0] == (fields@[0].0@, fields@[0].1.model()));
                }
                match Self::from_name(fields[0].0.as_str()) {
                    Some(x) => match &fields[0].1 {
                        JsonValue::Null => Ok(x),
                        _ => Err(make_type_error(&fields[0].1, "unit")),
                    },
                    None => {
                        let mut m = make_unknown_variant(fields[0].0.as_str());
                        m.append(", expected `map` or `viewport`");
                        Err(m)
                    },
                }
            },
            _ => Err(make_type_error(v, "string or map")),
        }
    }
}

impl Default for LineTranslateAnchor {
    fn default() -> (r: Self)
        ensures
            r == LineTranslateAnchor::MapValue,
    {
        LineTranslateAnchor::MapValue
    }
}

/// Stroke thickness.
///
/// Range: 0..
#[derive(PartialEq, Debug, Clone)]
pub struct LineWidth(JsonNumber);

impl View for LineWidth {
    type V = Seq<char>;

    closed spec fn view(&self) -> Seq<char> {
        self.0@
    }
}

impl JsonDecode for LineWidth {
    open spec fn accepts(v: Json) -> bool {
        v is Number
    }

    open spec fn decodes(v: Json, x: Self) -> bool {
        v == Json::Number(x@)
    }

    open spec fn rejection(v: Json) -> Seq<char> {
        JsonNumber::rejection(v)
    }

    fn decode(v: &JsonValue) -> (r: Result<Self, String>) {
        match JsonNumber::decode(v) {
            Ok(x) => Ok(LineWidth(x)),
            Err(e) => Err(e),
        }
    }
}

impl JsonEncode for LineWidth {
    open spec fn to_json(self) -> Json {
        Json::Number(self@)
    }

    open spec fn round_trips(self) -> bool {
        true
    }

    fn encode(&self) -> (r: JsonValue) {
        JsonNumber::encode(&self.0)
    }

    proof fn lemma_round_trip(self) {
        JsonNumber::lemma_round_trip(self.0);
    }
}

impl Default for LineWidth {
    fn default() -> (r: Self)
        ensures
            r.to_json() == Json::Number("1"@),
    {
        let r = LineWidth(JsonNumber::from_literal("1"));
        r
    }
}

#[derive(PartialEq, Debug, Clone)]
pub struct PaintRaster {
    /// Increase or reduce the brightness of the image. The value is the maximum brightness.
    pub raster_brightness_max: RasterBrightnessMax,
    /// Increase or reduce the brightness of the image. The value is the minimum brightness.
    pub raster_brightness_min: RasterBrightnessMin,
    /// Increase or reduce the contrast of the image.
    pub raster_contrast: RasterContrast,
    /// Fade duration when a new tile is added, or when a video is started or its coordinates are updated.
    pub raster_fade_duration: RasterFadeDuration,
    /// Rotates hues around the color wheel.
    pub raster_hue_rotate: RasterHueRotate,
    /// The opacity at which the image will be drawn.
    pub raster_opacity: RasterOpacity,
    /// The resampling/interpolation method to use for overscaling, also known as texture magnification filter
    pub raster_resampling: RasterResampling,
    /// Increase or reduce the saturation of the image.
    pub raster_saturation: RasterSaturation,
}

impl JsonDecode for PaintRaster {
    /// An object with the fields by their keys, or an array with the fields in order.
    open spec fn accepts(v: Json) -> bool {
        ||| (v is Object && {
            let o = v->Object_0;
            &&& req_field_accepts::<RasterBrightnessMax>(o, "raster-brightness-max"@)
            &&& req_field_accepts::<RasterBrightnessMin>(o, "raster-brightness-min"@)
            &&& req_field_accepts::<RasterContrast>(o, "raster-contrast"@)
            &&& req_field_accepts::<RasterFadeDuration>(o, "raster-fade-duration"@)
            &&& req_field_accepts::<RasterHueRotate>(o, "raster-hue-rotate"@)
            &&& req_field_accepts::<RasterOpacity>(o, "raster-opacity"@)
            &&& req_field_accepts::<RasterResampling>(o, "raster-resampling"@)
            &&& req_field_accepts::<RasterSaturation>(o, "raster-saturation"@)
        })
        ||| (v is Array && {
            let a = v->Array_0;
            &&& seq_req_accepts::<RasterBrightnessMax>(a, 0)
            &&& seq_req_accepts::<RasterBrightnessMin>(a, 1)
            &&& seq_req_accepts::<RasterContrast>(a, 2)
            &&& seq_req_accepts::<RasterFadeDuration>(a, 3)
            &&& seq_req_accepts::<RasterHueRotate>(a, 4)
            &&& seq_req_accepts::<RasterOpacity>(a, 5)
            &&& seq_req_accepts::<RasterResampling>(a, 6)
            &&& seq_req_accepts::<RasterSaturation>(a, 7)
            &&& a.len() <= 8
        })
    }

    open spec fn decodes(v: Json, x: Self) -> bool {
        ||| (v is Object && {
            let o = v->Object_0;
            &&& req_field_decodes::<RasterBrightnessMax>(o, "raster-brightness-max"@, x.raster_brightness_max)
            &&& req_field_decodes::<RasterBrightnessMin>(o, "raster-brightness-min"@, x.raster_brightness_min)
            &&& req_field_decodes::<RasterContrast>(o, "raster-contrast"@, x.raster_contrast)
            &&& req_field_decodes::<RasterFadeDuration>(o, "raster-fade-duration"@, x.raster_fade_duration)
            &&& req_field_decodes::<RasterHueRotate>(o, "raster-hue-rotate"@, x.raster_hue_rotate)
            &&& req_field_decodes::<RasterOpacity>(o, "raster-opacity"@, x.raster_opacity)
            &&& req_field_decodes::<RasterResampling>(o, "raster-resampling"@, x.raster_resampling)
            &&& req_field_decodes::<RasterSaturation>(o, "raster-saturation"@, x.raster_saturation)
        })
        ||| (v is Array && {
            let a = v->Array_0;
            &&& seq_req_decodes::<RasterBrightnessMax>(a, 0, x.raster_brightness_max)
            &&& seq_req_decodes::<RasterBrightnessMin>(a, 1, x.raster_brightness_min)
            &&& seq_req_decodes::<RasterContrast>(a, 2, x.raster_contrast)
            &&& seq_req_decodes::<RasterFadeDuration>(a, 3, x.raster_fade_duration)
            &&& seq_req_decodes::<RasterHueRotate>(a, 4, x.raster_hue_rotate)
            &&& seq_req_decodes::<RasterOpacity>(a, 5, x.raster_opacity)
            &&& seq_req_decodes::<RasterResampling>(a, 6, x.raster_resampling)
            &&& seq_req_decodes::<RasterSaturation>(a, 7, x.raster_saturation)
        })
    }

    /// For an object, the first entry in order whose value does not read as its field, else the
    /// first required field that is missing.
    open spec fn rejection(v: Json) -> Seq<char> {
        if v is Object {
            let o = v->Object_0;
            match Self::first_fault(o, 0) {
                Some(m) => m,
                None => if lookup(o, "raster-brightness-max"@) is None {
                    missing_field("raster-brightness-max"@)
                } else if lookup(o, "raster-brightness-min"@) is None {
                    missing_field("raster-brightness-min"@)
                } else if lookup(o, "raster-contrast"@) is None {
                    missing_field("raster-contrast"@)
                } else if lookup(o, "raster-fade-duration"@) is None {
                    missing_field("raster-fade-duration"@)
                } else if lookup(o, "raster-hue-rotate"@) is None {
                    missing_field("raster-hue-rotate"@)
                } else if lookup(o, "raster-opacity"@) is None {
                    missing_field("raster-opacity"@)
                } else if lookup(o, "raster-resampling"@) is None {
                    missing_field("raster-resampling"@)
                } else if lookup(o, "raster-saturation"@) is None {
                    missing_field("raster-saturation"@)
                } else {
                    Seq::empty()
                },
            }
        } else if v is Array {
            let a = v->Array_0;
            if !seq_req_accepts::<RasterBrightnessMax>(a, 0) {
                seq_req_rejection::<RasterBrightnessMax>(a, 0, "struct PaintRaster with 8 elements"@)
            } else if !seq_req_accepts::<RasterBrightnessMin>(a, 1) {
                seq_req_rejection::<RasterBrightnessMin>(a, 1, "struct PaintRaster with 8 elements"@)
            } else if !seq_req_accepts::<RasterContrast>(a, 2) {
                seq_req_rejection::<RasterContrast>(a, 2, "struct PaintRaster with 8 elements"@)
            } else if !seq_req_accepts::<RasterFadeDuration>(a, 3) {
                seq_req_rejection::<RasterFadeDuration>(a, 3, "struct PaintRaster with 8 elements"@)
            } else if !seq_req_accepts::<RasterHueRotate>(a, 4) {
                seq_req_rejection::<RasterHueRotate>(a, 4, "struct PaintRaster with 8 elements"@)
            } else if !seq_req_accepts::<RasterOpacity>(a, 5) {
                seq_req_rejection::<RasterOpacity>(a, 5, "struct PaintRaster with 8 elements"@)
            } else if !seq_req_accepts::<RasterResampling>(a, 6) {
                seq_req_rejection::<RasterResampling>(a, 6, "struct PaintRaster with 8 elements"@)
            } else if !seq_req_accepts::<RasterSaturation>(a, 7) {
                seq_req_rejection::<RasterSaturation>(a, 7, "struct PaintRaster with 8 elements"@)
            } else if a.len() > 8 {
                length_error(a.len())
            } else {
                Seq::empty()
            }
        } else {
            type_error(v, "struct PaintRaster"@)
        }
    }

    fn decode(v: &JsonValue) -> (r: Result<Self, String>) {
        match v {
            JsonValue::Object(fields) => {
                let raster_brightness_max = match decode_req_field::<RasterBrightnessMax>(fields, "raster-brightness-max") {
                    Ok(x) => x,
                    Err(_) => return Err(Self::object_rejection(fields)),
                };
                let raster_brightness_min = match decode_req_field::<RasterBrightnessMin>(fields, "raster-brightness-min") {
                    Ok(x) => x,
                    Err(_) => return Err(Self::object_rejection(fields)),
                };
                let raster_contrast = match decode_req_field::<RasterContrast>(fields, "raster-contrast") {
                    Ok(x) => x,
                    Err(_) => return Err(Self::object_rejection(fields)),
                };
                let raster_fade_duration = match decode_req_field::<RasterFadeDuration>(fields, "raster-fade-duration") {
                    Ok(x) => x,
                    Err(_) => return Err(Self::object_rejection(fields)),
                };
                let raster_hue_rotate = match decode_req_field::<RasterHueRotate>(fields, "raster-hue-rotate") {
                    Ok(x) => x,
                    Err(_) => return Err(Self::object_rejection(fields)),
                };
                let raster_opacity = match decode_req_field::<RasterOpacity>(fields, "raster-opacity") {
                    Ok(x) => x,
                    Err(_) => return Err(Self::object_rejection(fields)),
                };
                let raster_resampling = match decode_req_field::<RasterResampling>(fields, "raster-resampling") {
                    Ok(x) => x,
                    Err(_) => return Err(Self::object_rejection(fields)),
                };
                let raster_saturation = match decode_req_field::<RasterSaturation>(fields, "raster-saturation") {
                    Ok(x) => x,
                    Err(_) => return Err(Self::object_rejection(fields)),
                };
                Ok(PaintRaster { raster_brightness_max, raster_brightness_min, raster_contrast, raster_fade_duration, raster_hue_rotate, raster_opacity, raster_resampling, raster_saturation })
            },
            JsonValue::Array(a) => {
                let raster_brightness_max = match decode_seq_req::<RasterBrightnessMax>(a, 0, "struct PaintRaster with 8 elements") {
                    Ok(x) => x,
                    Err(e) => return Err(e),
                };
                let raster_brightness_min = match decode_seq_req::<RasterBrightnessMin>(a, 1, "struct PaintRaster with 8 elements") {
                    Ok(x) => x,
                    Err(e) => return Err(e),
                };
                let raster_contrast = match decode_seq_req::<RasterContrast>(a, 2, "struct PaintRaster with 8 elements") {
                    Ok(x) => x,
                    Err(e) => return Err(e),
                };
                let raster_fade_duration = match decode_seq_req::<RasterFadeDuration>(a, 3, "struct PaintRaster with 8 elements") {
                    Ok(x) => x,
                    Err(e) => return Err(e),
                };
                let raster_hue_rotate = match decode_seq_req::<RasterHueRotate>(a, 4, "struct PaintRaster with 8 elements") {
                    Ok(x) => x,
                    Err(e) => return Err(e),
                };
                let raster_opacity = match decode_seq_req::<RasterOpacity>(a, 5, "struct PaintRaster with 8 elements") {
                    Ok(x) => x,
                    Err(e) => return Err(e),
                };
                let raster_resampling = match decode_seq_req::<RasterResampling>(a, 6, "struct PaintRaster with 8 elements") {
                    Ok(x) => x,
                    Err(e) => return Err(e),
                };
                let raster_saturation = match decode_seq_req::<RasterSaturation>(a, 7, "struct PaintRaster with 8 elements") {
                    Ok(x) => x,
                    Err(e) => return Err(e),
                };
                if a.len() > 8 {
                    return Err(make_length_error(a.len()));
                }
                Ok(PaintRaster { raster_brightness_max, raster_brightness_min, raster_contrast, raster_fade_duration, raster_hue_rotate, raster_opacity, raster_resampling, raster_saturation })
            },
            _ => Err(make_type_error(v, "struct PaintRaster")),
        }
    }
}

impl PaintRaster {
    /// What is wrong with the value `w` of an entry with key `k`, where `k` is the key of a field.
    pub open spec fn field_fault(k: Seq<char>, w: Json) -> Option<Seq<char>> {
        if k == "raster-brightness-max"@ {
            if RasterBrightnessMax::accepts(w) {
                None
            } else {
                Some(RasterBrightnessMax::rejection(w))
            }
        } else if k == "raster-brightness-min"@ {
            if RasterBrightnessMin::accepts(w) {
                None
            } else {
                Some(RasterBrightnessMin::rejection(w))
            }
        } else if k == "raster-contrast"@ {
            if RasterContrast::accepts(w) {
                None
            } else {
                Some(RasterContrast::rejection(w))
            }
        } else if k == "raster-fade-duration"@ {
            if RasterFadeDuration::accepts(w) {
                None
            } else {
                Some(RasterFadeDuration::rejection(w))
            }
        } else if k == "raster-hue-rotate"@ {
            if RasterHueRotate::accepts(w) {
                None
            } else {
                Some(RasterHueRotate::rejection(w))
            }
        } else if k == "raster-opacity"@ {
            if RasterOpacity::accepts(w) {
                None
            } else {
                Some(RasterOpacity::rejection(w))
            }
        } else if k == "raster-resampling"@ {
            if RasterResampling::accepts(w) {
                None
            } else {
                Some(RasterResampling::rejection(w))
            }
        } else if k == "raster-saturation"@ {
            if RasterSaturation::accepts(w) {
                None
            } else {
                Some(RasterSaturation::rejection(w))
            }
        } else {
            None
        }
    }

    /// The message of the first entry of `o`, from entry `i` on and among the first entries of
    /// their keys, whose value does not read as its field, if any.
    pub open spec fn first_fault(o: Seq<(Seq<char>, Json)>, i: int) -> Option<Seq<char>>
        decreases o.len() - i,
    {
        if i < 0 || i >= o.len() {
            None
        } else if first_with_key(o, i) && Self::field_fault(o[i].0, o[i].1) is Some {
            Self::field_fault(o[i].0, o[i].1)
        } else {
            Self::first_fault(o, i + 1)
        }
    }

    fn find_field_fault(k: &str, w: &JsonValue) -> (r: Option<String>)
        ensures
            match r {
                Some(m) => Self::field_fault(k@, w.model()) == Some(m@),
                None => Self::field_fault(k@, w.model()) is None,
            },
    {
        if str_eq(k, "raster-brightness-max") {
            match RasterBrightnessMax::decode(w) {
                Ok(_) => None,
                Err(e) => Some(e),
            }
        } else if str_eq(k, "raster-brightness-min") {
            match RasterBrightnessMin::decode(w) {
                Ok(_) => None,
                Err(e) => Some(e),
            }
        } else if str_eq(k, "raster-contrast") {
            match RasterContrast::decode(w) {
                Ok(_) => None,
                Err(e) => Some(e),
            }
        } else if str_eq(k, "raster-fade-duration") {
            match RasterFadeDuration::decode(w) {
                Ok(_) => None,
                Err(e) => Some(e),
            }
        } else if str_eq(k, "raster-hue-rotate") {
            match RasterHueRotate::decode(w) {
                Ok(_) => None,
                Err(e) => Some(e),
            }
        } else if str_eq(k, "raster-opacity") {
            match RasterOpacity::decode(w) {
                Ok(_) => None,
                Err(e) => Some(e),
            }
        } else if str_eq(k, "raster-resampling") {
            match RasterResampling::decode(w) {
                Ok(_) => None,
                Err(e) => Some(e),
            }
        } else if str_eq(k, "raster-saturation") {
            match RasterSaturation::decode(w) {
                Ok(_) => None,
                Err(e) => Some(e),
            }
        } else {
            None
        }
    }

    fn object_rejection(fields: &Vec<(String, JsonValue)>) -> (r: String)
        ensures
            r@ == Self::rejection(JsonValue::Object(*fields).model()),
    {
        let ghost o = entries_model(*fields);
        let mut i: usize = 0;
        while i < fields.len()
            invariant
                o == entries_model(*fields),
                o.len() == fields.len(),
                i <= fields.len(),
                Self::first_fault(o, 0) == Self::first_fault(o, i as int),
            decreases fields.len() - i,
        {
            proof {
                assert(o[i as int] == (fields@[i as int].0@, fields@[i as int].1.model()));
            }
            if !key_seen_before(fields, i) {
                match Self::find_field_fault(fields[i].0.as_str(), &fields[i].1) {
                    Some(m) => {
                        return m;
                    },
                    None => {},
                }
            }
            i += 1;
        }
        if get_field(fields, "raster-brightness-max").is_none() {
            return make_missing_field("raster-brightness-max");
        }
        if get_field(fields, "raster-brightness-min").is_none() {
            return make_missing_field("raster-brightness-min");
        }
        if get_field(fields, "raster-contrast").is_none() {
            return make_missing_field("raster-contrast");
        }
        if get_field(fields, "raster-fade-duration").is_none() {
            return make_missing_field("raster-fade-duration");
        }
        if get_field(fields, "raster-hue-rotate").is_none() {
            return make_missing_field("raster-hue-rotate");
        }
        if get_field(fields, "raster-opacity").is_none() {
            return make_missing_field("raster-opacity");
        }
        if get_field(fields, "raster-resampling").is_none() {
            return make_missing_field("raster-resampling");
        }
        if get_field(fields, "raster-saturation").is_none() {
            return make_missing_field("raster-saturation");
        }
        String::new()
    }
}

/// Increase or reduce the brightness of the image. The value is the maximum brightness.
///
/// Range: 0..=1
#[derive(PartialEq, Debug, Clone)]
pub struct RasterBrightnessMax(JsonNumber);

impl View for RasterBrightnessMax {
    type V = Seq<char>;

    closed spec fn view(&self) -> Seq<char> {
        self.0@
    }
}

impl JsonDecode for RasterBrightnessMax {
    open spec fn accepts(v: Json) -> bool {
        v is Number
    }

    open spec fn decodes(v: Json, x: Self) -> bool {
        v == Json::Number(x@)
    }

    open spec fn rejection(v: Json) -> Seq<char> {
        JsonNumber::rejection(v)
    }

    fn decode(v: &JsonValue) -> (r: Result<Self, String>) {
        match JsonNumber::decode(v) {
            Ok(x) => Ok(RasterBrightnessMax(x)),
            Err(e) => Err(e),
        }
    }
}

impl JsonEncode for RasterBrightnessMax {
    open spec fn to_json(self) -> Json {
        Json::Number(self@)
    }

    open spec fn round_trips(self) -> bool {
        true
    }

    fn encode(&self) -> (r: JsonValue) {
        JsonNumber::encode(&self.0)
    }

    proof fn lemma_round_trip(self) {
        JsonNumber::lemma_round_trip(self.0);
    }
}

impl Default for RasterBrightnessMax {
    fn default() -> (r: Self)
        ensures
            r.to_json() == Json::Number("1"@),
    {
        let r = RasterBrightnessMax(JsonNumber::from_literal("1"));
        r
    }
}

/// Increase or reduce the brightness of the image. The value is the minimum brightness.
///
/// Range: 0..=1
#[derive(PartialEq, Debug, Clone)]
pub struct RasterBrightnessMin(JsonNumber);

impl View for RasterBrightnessMin {
    type V = Seq<char>;

    closed spec fn view(&self) -> Seq<char> {
        self.0@
    }
}

impl JsonDecode for RasterBrightnessMin {
    open spec fn accepts(v: Json) -> bool {
        v is Number
    }

    open spec fn decodes(v: Json, x: Self) -> bool {
        v == Json::Number(x@)
    }

    open spec fn rejection(v: Json) -> Seq<char> {
        JsonNumber::rejection(v)
    }

    fn decode(v: &JsonValue) -> (r: Result<Self, String>) {
        match JsonNumber::decode(v) {
            Ok(x) => Ok(RasterBrightnessMin(x)),
            Err(e) => Err(e),
        }
    }
}

impl JsonEncode for RasterBrightnessMin {
    open spec fn to_json(self) -> Json {
        Json::Number(self@)
    }

    open spec fn round_trips(self) -> bool {
        true
    }

    fn encode(&self) -> (r: JsonValue) {
        JsonNumber::encode(&self.0)
    }

    proof fn lemma_round_trip(self) {
        JsonNumber::lemma_round_trip(self.0);
    }
}

impl Default for RasterBrightnessMin {
    fn default() -> (r: Self)
        ensures
            r.to_json() == Json::Number("0"@),
    {
        let r = RasterBrightnessMin(JsonNumber::from_literal("0"));
        r
    }
}

/// Increase or reduce the contrast of the image.
///
/// Range: -1..=1
#[derive(PartialEq, Debug, Clone)]
pub struct RasterContrast(JsonNumber);

impl View for RasterContrast {
    type V = Seq<char>;

    closed spec fn view(&self) -> Seq<char> {
        self.0@
    }
}

impl JsonDecode for RasterContrast {
    open spec fn accepts(v: Json) -> bool {
        v is Number
    }

    open spec fn decodes(v: Json, x: Self) -> bool {
        v == Json::Number(x@)
    }

    open spec fn rejection(v: Json) -> Seq<char> {
        JsonNumber::rejection(v)
    }

    fn decode(v: &JsonValue) -> (r: Result<Self, String>) {
        match JsonNumber::decode(v) {
            Ok(x) => Ok(RasterContrast(x)),
            Err(e) => Err(e),
        }
    }
}

impl JsonEncode for RasterContrast {
    open spec fn to_json(self) -> Json {
        Json::Number(self@)
    }

    open spec fn round_trips(self) -> bool {
        true
    }

    fn encode(&self) -> (r: JsonValue) {
        JsonNumber::encode(&self.0)
    }

    proof fn lemma_round_trip(self) {
        JsonNumber::lemma_round_trip(self.0);
    }
}

impl Default for RasterContrast {
    fn default() -> (r: Self)
        ensures
            r.to_json() == Json::Number("0"@),
    {
        let r = RasterContrast(JsonNumber::from_literal("0"));
        r
    }
}

/// Fade duration when a new tile is added, or when a video is started or its coordinates are updated.
///
/// Range: 0..
#[derive(PartialEq, Debug, Clone)]
pub struct RasterFadeDuration(JsonNumber);

impl View for RasterFadeDuration {
    type V = Seq<char>;

    closed spec fn view(&self) -> Seq<char> {
        self.0@
    }
}

impl JsonDecode for RasterFadeDuration {
    open spec fn accepts(v: Json) -> bool {
        v is Number
    }

    open spec fn decodes(v: Json, x: Self) -> bool {
        v == Json::Number(x@)
    }

    open spec fn rejection(v: Json) -> Seq<char> {
        JsonNumber::rejection(v)
    }

    fn decode(v: &JsonValue) -> (r: Result<Self, String>) {
        match JsonNumber::decode(v) {
            Ok(x) => Ok(RasterFadeDuration(x)),
            Err(e) => Err(e),
        }
    }
}

impl JsonEncode for RasterFadeDuration {
    open spec fn to_json(self) -> Json {
        Json::Number(self@)
    }

    open spec fn round_trips(self) -> bool {
        true
    }

    fn encode(&self) -> (r: JsonValue) {
        JsonNumber::encode(&self.0)
    }

    proof fn lemma_round_trip(self) {
        JsonNumber::lemma_round_trip(self.0);
    }
}

impl Default for RasterFadeDuration {
    fn default() -> (r: Self)
        ensures
            r.to_json() == Json::Number("300"@),
    {
        let r = RasterFadeDuration(JsonNumber::from_literal("300"));
        r
    }
}

/// Rotates hues around the color wheel.
///
/// Range: ..every 360
#[derive(PartialEq, Debug, Clone)]
pub struct RasterHueRotate(JsonNumber);

impl View for RasterHueRotate {
    type V = Seq<char>;

    closed spec fn view(&self) -> Seq<char> {
        self.0@
    }
}

impl JsonDecode for RasterHueRotate {
    open spec fn accepts(v: Json) -> bool {
        v is Number
    }

    open spec fn decodes(v: Json, x: Self) -> bool {
        v == Json::Number(x@)
    }

    open spec fn rejection(v: Json) -> Seq<char> {
        JsonNumber::rejection(v)
    }

    fn decode(v: &JsonValue) -> (r: Result<Self, String>) {
        match JsonNumber::decode(v) {
            Ok(x) => Ok(RasterHueRotate(x)),
            Err(e) => Err(e),
        }
    }
}

impl JsonEncode for RasterHueRotate {
    open spec fn to_json(self) -> Json {
        Json::Number(self@)
    }

    open spec fn round_trips(self) -> bool {
        true
    }

    fn encode(&self) -> (r: JsonValue) {
        JsonNumber::encode(&self.0)
    }

    proof fn lemma_round_trip(self) {
        JsonNumber::lemma_round_trip(self.0);
    }
}

impl Default for RasterHueRotate {
    fn default() -> (r: Self)
        ensures
            r.to_json() == Json::Number("0"@),
    {
        let r = RasterHueRotate(JsonNumber::from_literal("0"));
        r
    }
}

/// The opacity at which the image will be drawn.
///
/// Range: 0..=1
#[derive(PartialEq, Debug, Clone)]
pub struct RasterOpacity(JsonNumber);

impl View for RasterOpacity {
    type V = Seq<char>;

    closed spec fn view(&self) -> Seq<char> {
        self.0@
    }
}

impl JsonDecode for RasterOpacity {
    open spec fn accepts(v: Json) -> bool {
        v is Number
    }

    open spec fn decodes(v: Json, x: Self) -> bool {
        v == Json::Number(x@)
    }

    open spec fn rejection(v: Json) -> Seq<char> {
        JsonNumber::rejection(v)
    }

    fn decode(v: &JsonValue) -> (r: Result<Self, String>) {
        match JsonNumber::decode(v) {
            Ok(x) => Ok(RasterOpacity(x)),
            Err(e) => Err(e),
        }
    }
}

impl JsonEncode for RasterOpacity {
    open spec fn to_json(self) -> Json {
        Json::Number(self@)
    }

    open spec fn round_trips(self) -> bool {
        true
    }

    fn encode(&self) -> (r: JsonValue) {
        JsonNumber::encode(&self.0)
    }

    proof fn lemma_round_trip(self) {
        JsonNumber::lemma_round_trip(self.0);
    }
}

impl Default for RasterOpacity {
    fn default() -> (r: Self)
        ensures
            r.to_json() == Json::Number("1"@),
    {
        let r = RasterOpacity(JsonNumber::from_literal("1"));
        r
    }
}

/// The resampling/interpolation method to use for overscaling, also known as texture magnification filter
#[derive(PartialEq, Eq, Debug, Clone, Copy)]
pub enum RasterResampling {
    /// (Bi)linear filtering interpolates pixel values using the weighted average of the four closest original source pixels creating a smooth but blurry look when overscaled
    Linear,
    /// Nearest neighbor filtering interpolates pixel values using the nearest original source pixel creating a sharp but pixelated look when overscaled
    Nearest,
}

impl RasterResampling {
    /// The name that stands for the value in a style document.
    pub open spec fn spec_name(self) -> Seq<char> {
        match self {
            RasterResampling::Linear => "linear"@,
            RasterResampling::Nearest => "nearest"@,
        }
    }

    /// The name that stands for the value in a style document.
    pub fn name(&self) -> (r: &'static str)
        ensures
            r@ == self.spec_name(),
    {
        match self {
            RasterResampling::Linear => "linear",
            RasterResampling::Nearest => "nearest",
        }
    }

    /// The value that a name stands for, if any.
    pub fn from_name(s: &str) -> (r: Option<RasterResampling>)
        ensures
            r matches Some(x) ==> x.spec_name() == s@,
            r is None ==> forall|x: RasterResampling| x.spec_name() != s@,
    {
        if str_eq(s, "linear") {
            Some(RasterResampling::Linear)
        } else if str_eq(s, "nearest") {
            Some(RasterResampling::Nearest)
        } else {
            None
        }
    }
}

impl JsonDecode for RasterResampling {
    /// The name of a value, or an object whose one entry has the name as its key and `null`.
    open spec fn accepts(v: Json) -> bool {
        ||| (v is Str && exists|x: RasterResampling| x.spec_name() == v->Str_0)
        ||| (v is Object && v->Object_0.len() == 1 && v->Object_0[0].1 is Null && exists|x: RasterResampling| x.spec_name() == v->Object_0[0].0)
    }

    open spec fn decodes(v: Json, x: Self) -> bool {
        ||| v == Json::Str(x.spec_name())
        ||| (v is Object && v->Object_0.len() == 1 && v->Object_0[0] == (x.spec_name(), Json::Null))
    }

    open spec fn rejection(v: Json) -> Seq<char> {
        if v is Str {
            unknown_variant(v->Str_0) + ", expected `linear` or `nearest`"@
        } else if v is Object {
            let o = v->Object_0;
            if o.len() != 1 {
                "invalid value: map, expected map with a single key"@
            } else if !(exists|x: RasterResampling| x.spec_name() == o[0].0) {
                unknown_variant(o[0].0) + ", expected `linear` or `nearest`"@
            } else {
                type_error(o[0].1, "unit"@)
            }
        } else {
            type_error(v, "string or map"@)
        }
    }

    fn decode(v: &JsonValue) -> (r: Result<Self, String>) {
        match v {
            JsonValue::String(s) => match Self::from_name(s.as_str()) {
                Some(x) => Ok(x),
                None => {
                    let mut m = make_unknown_variant(s.as_str());
                    m.append(", expected `linear` or `nearest`");
                    Err(m)
                },
            },
            JsonValue::Object(fields) => {
                if fields.len() != 1 {
                    return Err("invalid value: map, expected map with a single key".to_string());
                }
                proof {
                    assert(entries_model(*fields)[0] == (fields@[0].0@, fields@[0].1.model()));
                }
                match Self::from_name(fields[0].0.as_str()) {
                    Some(x) => match &fields[0].1 {
                        JsonValue::Null => Ok(x),
                        _ => Err(make_type_error(&fields[0].1, "unit")),
                    },
                    None => {
                        let mut m = make_unknown_variant(fields[0].0.as_str());
                        m.append(", expected `linear` or `nearest`");
                        Err(m)
                    },
                }
            },
            _ => Err(make_type_error(v, "string or map")),
        }
    }
}

impl Default for RasterResampling {
    fn default() -> (r: Self)
        ensures
            r == RasterResampling::Linear,
    {
        RasterResampling::Linear
    }
}

/// Increase or reduce the saturation of the image.
///
/// Range: -1..=1
#[derive(PartialEq, Debug, Clone)]
pub struct RasterSaturation(JsonNumber);

impl View for RasterSaturation {
    type V = Seq<char>;

    closed spec fn view(&self) -> Seq<char> {
        self.0@
    }
}

impl JsonDecode for RasterSaturation {
    open spec fn accepts(v: Json) -> bool {
        v is Number
    }

    open spec fn decodes(v: Json, x: Self) -> bool {
        v == Json::Number(x@)
    }

    open spec fn rejection(v: Json) -> Seq<char> {
        JsonNumber::rejection(v)
    }

    fn decode(v: &JsonValue) -> (r: Result<Self, String>) {
        match JsonNumber::decode(v) {
            Ok(x) => Ok(RasterSaturation(x)),
            Err(e) => Err(e),
        }
    }
}

impl JsonEncode for RasterSaturation {
    open spec fn to_json(self) -> Json {
        Json::Number(self@)
    }

    open spec fn round_trips(self) -> bool {
        true
    }

    fn encode(&self) -> (r: JsonValue) {
        JsonNumber::encode(&self.0)
    }

    proof fn lemma_round_trip(self) {
        JsonNumber::lemma_round_trip(self.0);
    }
}

impl Default for RasterSaturation {
    fn default() -> (r: Self)
        ensures
            r.to_json() == Json::Number("0"@),
    {
        let r = RasterSaturation(JsonNumber::from_literal("0"));
        r
    }
}

#[derive(PartialEq, Debug, Clone)]
pub struct PaintSymbol {
    /// The color of the icon. This can only be used with SDF icons.
    pub icon_color: IconColor,
    /// Fade out the halo towards the outside.
    pub icon_halo_blur: IconHaloBlur,
    /// The color of the icon's halo. Icon halos can only be used with SDF icons.
    pub icon_halo_color: IconHaloColor,
    /// Distance of halo to the icon outline.
    ///
    /// The unit is in pixels only for SDF sprites that were created with a blur radius of 8, multiplied by the display density. I.e., the radius needs to be 16 for `@2x` sprites, etc.
    pub icon_halo_width: IconHaloWidth,
    /// The opacity at which the icon will be drawn.
    pub icon_opacity: IconOpacity,
    /// Distance that the icon's anchor is moved from its original placement. Positive values indicate right and down, while negative values indicate left and up.
    pub icon_translate: IconTranslate,
    /// Controls the frame of reference for `icon-translate`.
    pub icon_translate_anchor: IconTranslateAnchor,
    /// The color with which the text will be drawn.
    pub text_color: TextColor,
    /// The halo's fadeout distance towards the outside.
    pub text_halo_blur: TextHaloBlur,
    /// The color of the text's halo, which helps it stand out from backgrounds.
    pub text_halo_color: TextHaloColor,
    /// Distance of halo to the font outline. Max text halo width is 1/4 of the font-size.
    pub text_halo_width: TextHaloWidth,
    /// The opacity at which the text will be drawn.
    pub text_opacity: TextOpacity,
    /// Distance that the text's anchor is moved from its original placement. Positive values indicate right and down, while negative values indicate left and up.
    pub text_translate: TextTranslate,
    /// Controls the frame of reference for `text-translate`.
    pub text_translate_anchor: TextTranslateAnchor,
}

impl JsonDecode for PaintSymbol {
    /// An object with the fields by their keys, or an array with the fields in order.
    open spec fn accepts(v: Json) -> bool {
        ||| (v is Object && {
            let o = v->Object_0;
            &&& req_field_accepts::<IconColor>(o, "icon-color"@)
            &&& req_field_accepts::<IconHaloBlur>(o, "icon-halo-blur"@)
            &&& req_field_accepts::<IconHaloColor>(o, "icon-halo-color"@)
            &&& req_field_accepts::<IconHaloWidth>(o, "icon-halo-width"@)
            &&& req_field_accepts::<IconOpacity>(o, "icon-opacity"@)
            &&& req_field_accepts::<IconTranslate>(o, "icon-translate"@)
            &&& req_field_accepts::<IconTranslateAnchor>(o, "icon-translate-anchor"@)
            &&& req_field_accepts::<TextColor>(o, "text-color"@)
            &&& req_field_accepts::<TextHaloBlur>(o, "text-halo-blur"@)
            &&& req_field_accepts::<TextHaloColor>(o, "text-halo-color"@)
            &&& req_field_accepts::<TextHaloWidth>(o, "text-halo-width"@)
            &&& req_field_accepts::<TextOpacity>(o, "text-opacity"@)
            &&& req_field_accepts::<TextTranslate>(o, "text-translate"@)
            &&& req_field_accepts::<TextTranslateAnchor>(o, "text-translate-anchor"@)
        })
        ||| (v is Array && {
            let a = v->Array_0;
            &&& seq_req_accepts::<IconColor>(a, 0)
            &&& seq_req_accepts::<IconHaloBlur>(a, 1)
            &&& seq_req_accepts::<IconHaloColor>(a, 2)
            &&& seq_req_accepts::<IconHaloWidth>(a, 3)
            &&& seq_req_accepts::<IconOpacity>(a, 4)
            &&& seq_req_accepts::<IconTranslate>(a, 5)
            &&& seq_req_accepts::<IconTranslateAnchor>(a, 6)
            &&& seq_req_accepts::<TextColor>(a, 7)
            &&& seq_req_accepts::<TextHaloBlur>(a, 8)
            &&& seq_req_accepts::<TextHaloColor>(a, 9)
            &&& seq_req_accepts::<TextHaloWidth>(a, 10)
            &&& seq_req_accepts::<TextOpacity>(a, 11)
            &&& seq_req_accepts::<TextTranslate>(a, 12)
            &&& seq_req_accepts::<TextTranslateAnchor>(a, 13)
            &&& a.len() <= 14
        })
    }

    open spec fn decodes(v: Json, x: Self) -> bool {
        ||| (v is Object && {
            let o = v->Object_0;
            &&& req_field_decodes::<IconColor>(o, "icon-color"@, x.icon_color)
            &&& req_field_decodes::<IconHaloBlur>(o, "icon-halo-blur"@, x.icon_halo_blur)
            &&& req_field_decodes::<IconHaloColor>(o, "icon-halo-color"@, x.icon_halo_color)
            &&& req_field_decodes::<IconHaloWidth>(o, "icon-halo-width"@, x.icon_halo_width)
            &&& req_field_decodes::<IconOpacity>(o, "icon-opacity"@, x.icon_opacity)
            &&& req_field_decodes::<IconTranslate>(o, "icon-translate"@, x.icon_translate)
            &&& req_field_decodes::<IconTranslateAnchor>(o, "icon-translate-anchor"@, x.icon_translate_anchor)
            &&& req_field_decodes::<TextColor>(o, "text-color"@, x.text_color)
            &&& req_field_decodes::<TextHaloBlur>(o, "text-halo-blur"@, x.text_halo_blur)
            &&& req_field_decodes::<TextHaloColor>(o, "text-halo-color"@, x.text_halo_color)
            &&& req_field_decodes::<TextHaloWidth>(o, "text-halo-width"@, x.text_halo_width)
            &&& req_field_decodes::<TextOpacity>(o, "text-opacity"@, x.text_opacity)
            &&& req_field_decodes::<TextTranslate>(o, "text-translate"@, x.text_translate)
            &&& req_field_decodes::<TextTranslateAnchor>(o, "text-translate-anchor"@, x.text_translate_anchor)
        })
        ||| (v is Array && {
            let a = v->Array_0;
            &&& seq_req_decodes::<IconColor>(a, 0, x.icon_color)
            &&& seq_req_decodes::<IconHaloBlur>(a, 1, x.icon_halo_blur)
            &&& seq_req_decodes::<IconHaloColor>(a, 2, x.icon_halo_color)
            &&& seq_req_decodes::<IconHaloWidth>(a, 3, x.icon_halo_width)
            &&& seq_req_decodes::<IconOpacity>(a, 4, x.icon_opacity)
            &&& seq_req_decodes::<IconTranslate>(a, 5, x.icon_translate)
            &&& seq_req_decodes::<IconTranslateAnchor>(a, 6, x.icon_translate_anchor)
            &&& seq_req_decodes::<TextColor>(a, 7, x.text_color)
            &&& seq_req_decodes::<TextHaloBlur>(a, 8, x.text_halo_blur)
            &&& seq_req_decodes::<TextHaloColor>(a, 9, x.text_halo_color)
            &&& seq_req_decodes::<TextHaloWidth>(a, 10, x.text_halo_width)
            &&& seq_req_decodes::<TextOpacity>(a, 11, x.text_opacity)
            &&& seq_req_decodes::<TextTranslate>(a, 12, x.text_translate)
            &&& seq_req_decodes::<TextTranslateAnchor>(a, 13, x.text_translate_anchor)
        })
    }

    /// For an object, the first entry in order whose value does not read as its field, else the
    /// first required field that is missing.
    open spec fn rejection(v: Json) -> Seq<char> {
        if v is Object {
            let o = v->Object_0;
            match Self::first_fault(o, 0) {
                Some(m) => m,
                None => if lookup(o, "icon-color"@) is None {
                    missing_field("icon-color"@)
                } else if lookup(o, "icon-halo-blur"@) is None {
                    missing_field("icon-halo-blur"@)
                } else if lookup(o, "icon-halo-color"@) is None {
                    missing_field("icon-halo-color"@)
                } else if lookup(o, "icon-halo-width"@) is None {
                    missing_field("icon-halo-width"@)
                } else if lookup(o, "icon-opacity"@) is None {
                    missing_field("icon-opacity"@)
                } else if lookup(o, "icon-translate"@) is None {
                    missing_field("icon-translate"@)
                } else if lookup(o, "icon-translate-anchor"@) is None {
                    missing_field("icon-translate-anchor"@)
                } else if lookup(o, "text-color"@) is None {
                    missing_field("text-color"@)
                } else if lookup(o, "text-halo-blur"@) is None {
                    missing_field("text-halo-blur"@)
                } else if lookup(o, "text-halo-color"@) is None {
                    missing_field("text-halo-color"@)
                } else if lookup(o, "text-halo-width"@) is None {
                    missing_field("text-halo-width"@)
                } else if lookup(o, "text-opacity"@) is None {
                    missing_field("text-opacity"@)
                } else if lookup(o, "text-translate"@) is None {
                    missing_field("text-translate"@)
                } else if lookup(o, "text-translate-anchor"@) is None {
                    missing_field("text-translate-anchor"@)
                } else {
                    Seq::empty()
                },
            }
        } else if v is Array {
            let a = v->Array_0;
            if !seq_req_accepts::<IconColor>(a, 0) {
                seq_req_rejection::<IconColor>(a, 0, "struct PaintSymbol with 14 elements"@)
            } else if !seq_req_accepts::<IconHaloBlur>(a, 1) {
                seq_req_rejection::<IconHaloBlur>(a, 1, "struct PaintSymbol with 14 elements"@)
            } else if !seq_req_accepts::<IconHaloColor>(a, 2) {
                seq_req_rejection::<IconHaloColor>(a, 2, "struct PaintSymbol with 14 elements"@)
            } else if !seq_req_accepts::<IconHaloWidth>(a, 3) {
                seq_req_rejection::<IconHaloWidth>(a, 3, "struct PaintSymbol with 14 elements"@)
            } else if !seq_req_accepts::<IconOpacity>(a, 4) {
                seq_req_rejection::<IconOpacity>(a, 4, "struct PaintSymbol with 14 elements"@)
            } else if !seq_req_accepts::<IconTranslate>(a, 5) {
                seq_req_rejection::<IconTranslate>(a, 5, "struct PaintSymbol with 14 elements"@)
            } else if !seq_req_accepts::<IconTranslateAnchor>(a, 6) {
                seq_req_rejection::<IconTranslateAnchor>(a, 6, "struct PaintSymbol with 14 elements"@)
            } else if !seq_req_accepts::<TextColor>(a, 7) {
                seq_req_rejection::<TextColor>(a, 7, "struct PaintSymbol with 14 elements"@)
            } else if !seq_req_accepts::<TextHaloBlur>(a, 8) {
                seq_req_rejection::<TextHaloBlur>(a, 8, "struct PaintSymbol with 14 elements"@)
            } else if !seq_req_accepts::<TextHaloColor>(a, 9) {
                seq_req_rejection::<TextHaloColor>(a, 9, "struct PaintSymbol with 14 elements"@)
            } else if !seq_req_accepts::<TextHaloWidth>(a, 10) {
                seq_req_rejection::<TextHaloWidth>(a, 10, "struct PaintSymbol with 14 elements"@)
            } else if !seq_req_accepts::<TextOpacity>(a, 11) {
                seq_req_rejection::<TextOpacity>(a, 11, "struct PaintSymbol with 14 elements"@)
            } else if !seq_req_accepts::<TextTranslate>(a, 12) {
                seq_req_rejection::<TextTranslate>(a, 12, "struct PaintSymbol with 14 elements"@)
            } else if !seq_req_accepts::<TextTranslateAnchor>(a, 13) {
                seq_req_rejection::<TextTranslateAnchor>(a, 13, "struct PaintSymbol with 14 elements"@)
            } else if a.len() > 14 {
                length_error(a.len())
            } else {
                Seq::empty()
            }
        } else {
            type_error(v, "struct PaintSymbol"@)
        }
    }

    fn decode(v: &JsonValue) -> (r: Result<Self, String>) {
        match v {
            JsonValue::Object(fields) => {
                let icon_color = match decode_req_field::<IconColor>(fields, "icon-color") {
                    Ok(x) => x,
                    Err(_) => return Err(Self::object_rejection(fields)),
                };
                let icon_halo_blur = match decode_req_field::<IconHaloBlur>(fields, "icon-halo-blur") {
                    Ok(x) => x,
                    Err(_) => return Err(Self::object_rejection(fields)),
                };
                let icon_halo_color = match decode_req_field::<IconHaloColor>(fields, "icon-halo-color") {
                    Ok(x) => x,
                    Err(_) => return Err(Self::object_rejection(fields)),
                };
                let icon_halo_width = match decode_req_field::<IconHaloWidth>(fields, "icon-halo-width") {
                    Ok(x) => x,
                    Err(_) => return Err(Self::object_rejection(fields)),
                };
                let icon_opacity = match decode_req_field::<IconOpacity>(fields, "icon-opacity") {
                    Ok(x) => x,
                    Err(_) => return Err(Self::object_rejection(fields)),
                };
                let icon_translate = match decode_req_field::<IconTranslate>(fields, "icon-translate") {
                    Ok(x) => x,
                    Err(_) => return Err(Self::object_rejection(fields)),
                };
                let icon_translate_anchor = match decode_req_field::<IconTranslateAnchor>(fields, "icon-translate-anchor") {
                    Ok(x) => x,
                    Err(_) => return Err(Self::object_rejection(fields)),
                };
                let text_color = match decode_req_field::<TextColor>(fields, "text-color") {
                    Ok(x) => x,
                    Err(_) => return Err(Self::object_rejection(fields)),
                };
                let text_halo_blur = match decode_req_field::<TextHaloBlur>(fields, "text-halo-blur") {
                    Ok(x) => x,
                    Err(_) => return Err(Self::object_rejection(fields)),
                };
                let text_halo_color = match decode_req_field::<TextHaloColor>(fields, "text-halo-color") {
                    Ok(x) => x,
                    Err(_) => return Err(Self::object_rejection(fields)),
                };
                let text_halo_width = match decode_req_field::<TextHaloWidth>(fields, "text-halo-width") {
                    Ok(x) => x,
                    Err(_) => return Err(Self::object_rejection(fields)),
                };
                let text_opacity = match decode_req_field::<TextOpacity>(fields, "text-opacity") {
                    Ok(x) => x,
                    Err(_) => return Err(Self::object_rejection(fields)),
                };
                let text_translate = match decode_req_field::<TextTranslate>(fields, "text-translate") {
                    Ok(x) => x,
                    Err(_) => return Err(Self::object_rejection(fields)),
                };
                let text_translate_anchor = match decode_req_field::<TextTranslateAnchor>(fields, "text-translate-anchor") {
                    Ok(x) => x,
                    Err(_) => return Err(Self::object_rejection(fields)),
                };
                Ok(PaintSymbol { icon_color, icon_halo_blur, icon_halo_color, icon_halo_width, icon_opacity, icon_translate, icon_translate_anchor, text_color, text_halo_blur, text_halo_color, text_halo_width, text_opacity, text_translate, text_translate_anchor })
            },
            JsonValue::Array(a) => {
                let icon_color = match decode_seq_req::<IconColor>(a, 0, "struct PaintSymbol with 14 elements") {
                    Ok(x) => x,
                    Err(e) => return Err(e),
                };
                let icon_halo_blur = match decode_seq_req::<IconHaloBlur>(a, 1, "struct PaintSymbol with 14 elements") {
                    Ok(x) => x,
                    Err(e) => return Err(e),
                };
                let icon_halo_color = match decode_seq_req::<IconHaloColor>(a, 2, "struct PaintSymbol with 14 elements") {
                    Ok(x) => x,
                    Err(e) => return Err(e),
                };
                let icon_halo_width = match decode_seq_req::<IconHaloWidth>(a, 3, "struct PaintSymbol with 14 elements") {
                    Ok(x) => x,
                    Err(e) => return Err(e),
                };
                let icon_opacity = match decode_seq_req::<IconOpacity>(a, 4, "struct PaintSymbol with 14 elements") {
                    Ok(x) => x,
                    Err(e) => return Err(e),
                };
                let icon_translate = match decode_seq_req::<IconTranslate>(a, 5, "struct PaintSymbol with 14 elements") {
                    Ok(x) => x,
                    Err(e) => return Err(e),
                };
                let icon_translate_anchor = match decode_seq_req::<IconTranslateAnchor>(a, 6, "struct PaintSymbol with 14 elements") {
                    Ok(x) => x,
                    Err(e) => return Err(e),
                };
                let text_color = match decode_seq_req::<TextColor>(a, 7, "struct PaintSymbol with 14 elements") {
                    Ok(x) => x,
                    Err(e) => return Err(e),
                };
                let text_halo_blur = match decode_seq_req::<TextHaloBlur>(a, 8, "struct PaintSymbol with 14 elements") {
                    Ok(x) => x,
                    Err(e) => return Err(e),
                };
                let text_halo_color = match decode_seq_req::<TextHaloColor>(a, 9, "struct PaintSymbol with 14 elements") {
                    Ok(x) => x,
                    Err(e) => return Err(e),
                };
                let text_halo_width = match decode_seq_req::<TextHaloWidth>(a, 10, "struct PaintSymbol with 14 elements") {
                    Ok(x) => x,
                    Err(e) => return Err(e),
                };
                let text_opacity = match decode_seq_req::<TextOpacity>(a, 11, "struct PaintSymbol with 14 elements") {
                    Ok(x) => x,
                    Err(e) => return Err(e),
                };
                let text_translate = match decode_seq_req::<TextTranslate>(a, 12, "struct PaintSymbol with 14 elements") {
                    Ok(x) => x,
                    Err(e) => return Err(e),
                };
                let text_translate_anchor = match decode_seq_req::<TextTranslateAnchor>(a, 13, "struct PaintSymbol with 14 elements") {
                    Ok(x) => x,
                    Err(e) => return Err(e),
                };
                if a.len() > 14 {
                    return Err(make_length_error(a.len()));
                }
                Ok(PaintSymbol { icon_color, icon_halo_blur, icon_halo_color, icon_halo_width, icon_opacity, icon_translate, icon_translate_anchor, text_color, text_halo_blur, text_halo_color, text_halo_width, text_opacity, text_translate, text_translate_anchor })
            },
            _ => Err(make_type_error(v, "struct PaintSymbol")),
        }
    }
}

impl PaintSymbol {
    /// What is wrong with the value `w` of an entry with key `k`, where `k` is the key of a field.
    pub open spec fn field_fault(k: Seq<char>, w: Json) -> Option<Seq<char>> {
        if k == "icon-color"@ {
            if IconColor::accepts(w) {
                None
            } else {
                Some(IconColor::rejection(w))
            }
        } else if k == "icon-halo-blur"@ {
            if IconHaloBlur::accepts(w) {
                None
            } else {
                Some(IconHaloBlur::rejection(w))
            }
        } else if k == "icon-halo-color"@ {
            if IconHaloColor::accepts(w) {
                None
            } else {
                Some(IconHaloColor::rejection(w))
            }
        } else if k == "icon-halo-width"@ {
            if IconHaloWidth::accepts(w) {
                None
            } else {
                Some(IconHaloWidth::rejection(w))
            }
        } else if k == "icon-opacity"@ {
            if IconOpacity::accepts(w) {
                None
            } else {
                Some(IconOpacity::rejection(w))
            }
        } else if k == "icon-translate"@ {
            if IconTranslate::accepts(w) {
                None
            } else {
                Some(IconTranslate::rejection(w))
            }
        } else if k == "icon-translate-anchor"@ {
            if IconTranslateAnchor::accepts(w) {
                None
            } else {
                Some(IconTranslateAnchor::rejection(w))
            }
        } else if k == "text-color"@ {
            if TextColor::accepts(w) {
                None
            } else {
                Some(TextColor::rejection(w))
            }
        } else if k == "text-halo-blur"@ {
            if TextHaloBlur::accepts(w) {
                None
            } else {
                Some(TextHaloBlur::rejection(w))
            }
        } else if k == "text-halo-color"@ {
            if TextHaloColor::accepts(w) {
                None
            } else {
                Some(TextHaloColor::rejection(w))
            }
        } else if k == "text-halo-width"@ {
            if TextHaloWidth::accepts(w) {
                None
            } else {
                Some(TextHaloWidth::rejection(w))
            }
        } else if k == "text-opacity"@ {
            if TextOpacity::accepts(w) {
                None
            } else {
                Some(TextOpacity::rejection(w))
            }
        } else if k == "text-translate"@ {
            if TextTranslate::accepts(w) {
                None
            } else {
                Some(TextTranslate::rejection(w))
            }
        } else if k == "text-translate-anchor"@ {
            if TextTranslateAnchor::accepts(w) {
                None
            } else {
                Some(TextTranslateAnchor::rejection(w))
            }
        } else {
            None
        }
    }

    /// The message of the first entry of `o`, from entry `i` on and among the first entries of
    /// their keys, whose value does not read as its field, if any.
    pub open spec fn first_fault(o: Seq<(Seq<char>, Json)>, i: int) -> Option<Seq<char>>
        decreases o.len() - i,
    {
        if i < 0 || i >= o.len() {
            None
        } else if first_with_key(o, i) && Self::field_fault(o[i].0, o[i].1) is Some {
            Self::field_fault(o[i].0, o[i].1)
        } else {
            Self::first_fault(o, i + 1)
        }
    }

    fn find_field_fault(k: &str, w: &JsonValue) -> (r: Option<String>)
        ensures
            match r {
                Some(m) => Self::field_fault(k@, w.model()) == Some(m@),
                None => Self::field_fault(k@, w.model()) is None,
            },
    {
        if str_eq(k, "icon-color") {
            match IconColor::decode(w) {
                Ok(_) => None,
                Err(e) => Some(e),
            }
        } else if str_eq(k, "icon-halo-blur") {
            match IconHaloBlur::decode(w) {
                Ok(_) => None,
                Err(e) => Some(e),
            }
        } else if str_eq(k, "icon-halo-color") {
            match IconHaloColor::decode(w) {
                Ok(_) => None,
                Err(e) => Some(e),
            }
        } else if str_eq(k, "icon-halo-width") {
            match IconHaloWidth::decode(w) {
                Ok(_) => None,
                Err(e) => Some(e),
            }
        } else if str_eq(k, "icon-opacity") {
            match IconOpacity::decode(w) {
                Ok(_) => None,
                Err(e) => Some(e),
            }
        } else if str_eq(k, "icon-translate") {
            match IconTranslate::decode(w) {
                Ok(_) => None,
                Err(e) => Some(e),
            }
        } else if str_eq(k, "icon-translate-anchor") {
            match IconTranslateAnchor::decode(w) {
                Ok(_) => None,
                Err(e) => Some(e),
            }
        } else if str_eq(k, "text-color") {
            match TextColor::decode(w) {
                Ok(_) => None,
                Err(e) => Some(e),
            }
        } else if str_eq(k, "text-halo-blur") {
            match TextHaloBlur::decode(w) {
                Ok(_) => None,
                Err(e) => Some(e),
            }
        } else if str_eq(k, "text-halo-color") {
            match TextHaloColor::decode(w) {
                Ok(_) => None,
                Err(e) => Some(e),
            }
        } else if str_eq(k, "text-halo-width") {
            match TextHaloWidth::decode(w) {
                Ok(_) => None,
                Err(e) => Some(e),
            }
        } else if str_eq(k, "text-opacity") {
            match TextOpacity::decode(w) {
                Ok(_) => None,
                Err(e) => Some(e),
            }
        } else if str_eq(k, "text-translate") {
            match TextTranslate::decode(w) {
                Ok(_) => None,
                Err(e) => Some(e),
            }
        } else if str_eq(k, "text-translate-anchor") {
            match TextTranslateAnchor::decode(w) {
                Ok(_) => None,
                Err(e) => Some(e),
            }
        } else {
            None
        }
    }

    fn object_rejection(fields: &Vec<(String, JsonValue)>) -> (r: String)
        ensures
            r@ == Self::rejection(JsonValue::Object(*fields).model()),
    {
        let ghost o = entries_model(*fields);
        let mut i: usize = 0;
        while i < fields.len()
            invariant
                o == entries_model(*fields),
                o.len() == fields.len(),
                i <= fields.len(),
                Self::first_fault(o, 0) == Self::first_fault(o, i as int),
            decreases fields.len() - i,
        {
            proof {
                assert(o[i as int] == (fields@[i as int].0@, fields@[i as int].1.model()));
            }
            if !key_seen_before(fields, i) {
                match Self::find_field_fault(fields[i].0.as_str(), &fields[i].1) {
                    Some(m) => {
                        return m;
                    },
                    None => {},
                }
            }
            i += 1;
        }
        if get_field(fields, "icon-color").is_none() {
            return make_missing_field("icon-color");
        }
        if get_field(fields, "icon-halo-blur").is_none() {
            return make_missing_field("icon-halo-blur");
        }
        if get_field(fields, "icon-halo-color").is_none() {
            return make_missing_field("icon-halo-color");
        }
        if get_field(fields, "icon-halo-width").is_none() {
            return make_missing_field("icon-halo-width");
        }
        if get_field(fields, "icon-opacity").is_none() {
            return make_missing_field("icon-opacity");
        }
        if get_field(fields, "icon-translate").is_none() {
            return make_missing_field("icon-translate");
        }
        if get_field(fields, "icon-translate-anchor").is_none() {
            return make_missing_field("icon-translate-anchor");
        }
        if get_field(fields, "text-color").is_none() {
            return make_missing_field("text-color");
        }
        if get_field(fields, "text-halo-blur").is_none() {
            return make_missing_field("text-halo-blur");
        }
        if get_field(fields, "text-halo-color").is_none() {
            return make_missing_field("text-halo-color");
        }
        if get_field(fields, "text-halo-width").is_none() {
            return make_missing_field("text-halo-width");
        }
        if get_field(fields, "text-opacity").is_none() {
            return make_missing_field("text-opacity");
        }
        if get_field(fields, "text-translate").is_none() {
            return make_missing_field("text-translate");
        }
        if get_field(fields, "text-translate-anchor").is_none() {
            return make_missing_field("text-translate-anchor");
        }
        String::new()
    }
}

/// The color of the icon. This can only be used with SDF icons.
#[derive(PartialEq, Debug, Clone)]
pub struct IconColor(ColorValue);

impl JsonDecode for IconColor {
    closed spec fn accepts(v: Json) -> bool {
        ColorValue::accepts(v)
    }

    closed spec fn decodes(v: Json, x: Self) -> bool {
        ColorValue::decodes(v, x.0)
    }

    closed spec fn rejection(v: Json) -> Seq<char> {
        ColorValue::rejection(v)
    }

    fn decode(v: &JsonValue) -> (r: Result<Self, String>) {
        match ColorValue::decode(v) {
            Ok(x) => Ok(IconColor(x)),
            Err(e) => Err(e),
        }
    }
}

impl JsonEncode for IconColor {
    closed spec fn to_json(self) -> Json {
        ColorValue::to_json(self.0)
    }

    closed spec fn round_trips(self) -> bool {
        ColorValue::round_trips(self.0)
    }

    fn encode(&self) -> (r: JsonValue) {
        ColorValue::encode(&self.0)
    }

    proof fn lemma_round_trip(self) {
        ColorValue::lemma_round_trip(self.0);
    }
}

impl Default for IconColor {
    fn default() -> (r: Self)
        ensures
            r.to_json() == Json::Str("#000000"@),
    {
        proof {
            reveal_strlit("#000000");
        }
        let r = IconColor(default_color("#000000"));
        r
    }
}

/// Fade out the halo towards the outside.
///
/// Range: 0..
#[derive(PartialEq, Debug, Clone)]
pub struct IconHaloBlur(JsonNumber);

impl View for IconHaloBlur {
    type V = Seq<char>;

    closed spec fn view(&self) -> Seq<char> {
        self.0@
    }
}

impl JsonDecode for IconHaloBlur {
    open spec fn accepts(v: Json) -> bool {
        v is Number
    }

    open spec fn decodes(v: Json, x: Self) -> bool {
        v == Json::Number(x@)
    }

    open spec fn rejection(v: Json) -> Seq<char> {
        JsonNumber::rejection(v)
    }

    fn decode(v: &JsonValue) -> (r: Result<Self, String>) {
        match JsonNumber::decode(v) {
            Ok(x) => Ok(IconHaloBlur(x)),
            Err(e) => Err(e),
        }
    }
}

impl JsonEncode for IconHaloBlur {
    open spec fn to_json(self) -> Json {
        Json::Number(self@)
    }

    open spec fn round_trips(self) -> bool {
        true
    }

    fn encode(&self) -> (r: JsonValue) {
        JsonNumber::encode(&self.0)
    }

    proof fn lemma_round_trip(self) {
        JsonNumber::lemma_round_trip(self.0);
    }
}

impl Default for IconHaloBlur {
    fn default() -> (r: Self)
        ensures
            r.to_json() == Json::Number("0"@),
    {
        let r = IconHaloBlur(JsonNumber::from_literal("0"));
        r
    }
}

/// The color of the icon's halo. Icon halos can only be used with SDF icons.
#[derive(PartialEq, Debug, Clone)]
pub struct IconHaloColor(ColorValue);

impl JsonDecode for IconHaloColor {
    closed spec fn accepts(v: Json) -> bool {
        ColorValue::accepts(v)
    }

    closed spec fn decodes(v: Json, x: Self) -> bool {
        ColorValue::decodes(v, x.0)
    }

    closed spec fn rejection(v: Json) -> Seq<char> {
        ColorValue::rejection(v)
    }

    fn decode(v: &JsonValue) -> (r: Result<Self, String>) {
        match ColorValue::decode(v) {
            Ok(x) => Ok(IconHaloColor(x)),
            Err(e) => Err(e),
        }
    }
}

/// Distance of halo to the icon outline.
///
/// The unit is in pixels only for SDF sprites that were created with a blur radius of 8, multiplied by the display density. I.e., the radius needs to be 16 for `@2x` sprites, etc.
///
/// Range: 0..
#[derive(PartialEq, Debug, Clone)]
pub struct IconHaloWidth(JsonNumber);

impl View for IconHaloWidth {
    type V = Seq<char>;

    closed spec fn view(&self) -> Seq<char> {
        self.0@
    }
}

impl JsonDecode for IconHaloWidth {
    open spec fn accepts(v: Json) -> bool {
        v is Number
    }

    open spec fn decodes(v: Json, x: Self) -> bool {
        v == Json::Number(x@)
    }

    open spec fn rejection(v: Json) -> Seq<char> {
        JsonNumber::rejection(v)
    }

    fn decode(v: &JsonValue) -> (r: Result<Self, String>) {
        match JsonNumber::decode(v) {
            Ok(x) => Ok(IconHaloWidth(x)),
            Err(e) => Err(e),
        }
    }
}

impl JsonEncode for IconHaloWidth {
    open spec fn to_json(self) -> Json {
        Json::Number(self@)
    }

    open spec fn round_trips(self) -> bool {
        true
    }

    fn encode(&self) -> (r: JsonValue) {
        JsonNumber::encode(&self.0)
    }

    proof fn lemma_round_trip(self) {
        JsonNumber::lemma_round_trip(self.0);
    }
}

impl Default for IconHaloWidth {
    fn default() -> (r: Self)
        ensures
            r.to_json() == Json::Number("0"@),
    {
        let r = IconHaloWidth(JsonNumber::from_literal("0"));
        r
    }
}

/// The opacity at which the icon will be drawn.
///
/// Range: 0..=1
#[derive(PartialEq, Debug, Clone)]
pub struct IconOpacity(JsonNumber);

impl View for IconOpacity {
    type V = Seq<char>;

    closed spec fn view(&self) -> Seq<char> {
        self.0@
    }
}

impl JsonDecode for IconOpacity {
    open spec fn accepts(v: Json) -> bool {
        v is Number
    }

    open spec fn decodes(v: Json, x: Self) -> bool {
        v == Json::Number(x@)
    }

    open spec fn rejection(v: Json) -> Seq<char> {
        JsonNumber::rejection(v)
    }

    fn decode(v: &JsonValue) -> (r: Result<Self, String>) {
        match JsonNumber::decode(v) {
            Ok(x) => Ok(IconOpacity(x)),
            Err(e) => Err(e),
        }
    }
}

impl JsonEncode for IconOpacity {
    open spec fn to_json(self) -> Json {
        Json::Number(self@)
    }

    open spec fn round_trips(self) -> bool {
        true
    }

    fn encode(&self) -> (r: JsonValue) {
        JsonNumber::encode(&self.0)
    }

    proof fn lemma_round_trip(self) {
        JsonNumber::lemma_round_trip(self.0);
    }
}

impl Default for IconOpacity {
    fn default() -> (r: Self)
        ensures
            r.to_json() == Json::Number("1"@),
    {
        let r = IconOpacity(JsonNumber::from_literal("1"));
        r
    }
}

/// Distance that the icon's anchor is moved from its original placement. Positive values indicate right and down, while negative values indicate left and up.
#[derive(PartialEq, Debug, Clone)]
pub struct IconTranslate(JsonValue);

impl View for IconTranslate {
    type V = Json;

    closed spec fn view(&self) -> Json {
        self.0.model()
    }
}

impl JsonDecode for IconTranslate {
    open spec fn accepts(v: Json) -> bool {
        true
    }

    open spec fn decodes(v: Json, x: Self) -> bool {
        v == x@
    }

    open spec fn rejection(v: Json) -> Seq<char> {
        JsonValue::rejection(v)
    }

    fn decode(v: &JsonValue) -> (r: Result<Self, String>) {
        match JsonValue::decode(v) {
            Ok(x) => Ok(IconTranslate(x)),
            Err(e) => Err(e),
        }
    }
}

/// Controls the frame of reference for `icon-translate`.
#[derive(PartialEq, Eq, Debug, Clone, Copy)]
pub enum IconTranslateAnchor {
    /// Icons are translated relative to the map.
    MapValue,
    /// Icons are translated relative to the viewport.
    Viewport,
}

impl IconTranslateAnchor {
    /// The name that stands for the value in a style document.
    pub open spec fn spec_name(self) -> Seq<char> {
        match self {
            IconTranslateAnchor::MapValue => "map"@,
            IconTranslateAnchor::Viewport => "viewport"@,
        }
    }

    /// The name that stands for the value in a style document.
    pub fn name(&self) -> (r: &'static str)
        ensures
            r@ == self.spec_name(),
    {
        match self {
            IconTranslateAnchor::MapValue => "map",
            IconTranslateAnchor::Viewport => "viewport",
        }
    }

    /// The value that a name stands for, if any.
    pub fn from_name(s: &str) -> (r: Option<IconTranslateAnchor>)
        ensures
            r matches Some(x) ==> x.spec_name() == s@,
            r is None ==> forall|x: IconTranslateAnchor| x.spec_name() != s@,
    {
        if str_eq(s, "map") {
            Some(IconTranslateAnchor::MapValue)
        } else if str_eq(s, "viewport") {
            Some(IconTranslateAnchor::Viewport)
        } else {
            None
        }
    }
}

impl JsonDecode for IconTranslateAnchor {
    /// The name of a value, or an object whose one entry has the name as its key and `null`.
    open spec fn accepts(v: Json) -> bool {
        ||| (v is Str && exists|x: IconTranslateAnchor| x.spec_name() == v->Str_0)
        ||| (v is Object && v->Object_0.len() == 1 && v->Object_0[0].1 is Null && exists|x: IconTranslateAnchor| x.spec_name() == v->Object_0[0].0)
    }

    open spec fn decodes(v: Json, x: Self) -> bool {
        ||| v == Json::Str(x.spec_name())
        ||| (v is Object && v->Object_0.len() == 1 && v->Object_0[0] == (x.spec_name(), Json::Null))
    }

    open spec fn rejection(v: Json) -> Seq<char> {
        if v is Str {
            unknown_variant(v->Str_0) + ", expected `map` or `viewport`"@
        } else if v is Object {
            let o = v->Object_0;
            if o.len() != 1 {
                "invalid value: map, expected map with a single key"@
            } else if !(exists|x: IconTranslateAnchor| x.spec_name() == o[0].0) {
                unknown_variant(o[0].0) + ", expected `map` or `viewport`"@
            } else {
                type_error(o[0].1, "unit"@)
            }
        } else {
            type_error(v, "string or map"@)
        }
    }

    fn decode(v: &JsonValue) -> (r: Result<Self, String>) {
        match v {
            JsonValue::String(s) => match Self::from_name(s.as_str()) {
                Some(x) => Ok(x),
                None => {
                    let mut m = make_unknown_variant(s.as_str());
                    m.append(", expected `map` or `viewport`");
                    Err(m)
                },
            },
            JsonValue::Object(fields) => {
                if fields.len() != 1 {
                    return Err("invalid value: map, expected map with a single key".to_string());
                }
                proof {
                    assert(entries_model(*fields)[0] == (fields@[0].0@, fields@[0].1.model()));
                }
                match Self::from_name(fields[0].0.as_str()) {
                    Some(x) => match &fields[0].1 {
                        JsonValue::Null => Ok(x),
                        _ => Err(make_type_error(&fields[0].1, "unit")),
                    },
                    None => {
                        let mut m = make_unknown_variant(fields[0].0.as_str());
                        m.append(", expected `map` or `viewport`");
                        Err(m)
                    },
                }
            },
            _ => Err(make_type_error(v, "string or map")),
        }
    }
}

impl Default for IconTranslateAnchor {
    fn default() -> (r: Self)
        ensures
            r == IconTranslateAnchor::MapValue,
    {
        IconTranslateAnchor::MapValue
    }
}

/// The color with which the text will be drawn.
#[derive(PartialEq, Debug, Clone)]
pub struct TextColor(ColorValue);

impl JsonDecode for TextColor {
    closed spec fn accepts(v: Json) -> bool {
        ColorValue::accepts(v)
    }

    closed spec fn decodes(v: Json, x: Self) -> bool {
        ColorValue::decodes(v, x.0)
    }

    closed spec fn rejection(v: Json) -> Seq<char> {
        ColorValue::rejection(v)
    }

    fn decode(v: &JsonValue) -> (r: Result<Self, String>) {
        match ColorValue::decode(v) {
            Ok(x) => Ok(TextColor(x)),
            Err(e) => Err(e),
        }
    }
}

impl JsonEncode for TextColor {
    closed spec fn to_json(self) -> Json {
        ColorValue::to_json(self.0)
    }

    closed spec fn round_trips(self) -> bool {
        ColorValue::round_trips(self.0)
    }

    fn encode(&self) -> (r: JsonValue) {
        ColorValue::encode(&self.0)
    }

    proof fn lemma_round_trip(self) {
        ColorValue::lemma_round_trip(self.0);
    }
}

impl Default for TextColor {
    fn default() -> (r: Self)
        ensures
            r.to_json() == Json::Str("#000000"@),
    {
        proof {
            reveal_strlit("#000000");
        }
        let r = TextColor(default_color("#000000"));
        r
    }
}

/// The halo's fadeout distance towards the outside.
///
/// Range: 0..
#[derive(PartialEq, Debug, Clone)]
pub struct TextHaloBlur(JsonNumber);

impl View for TextHaloBlur {
    type V = Seq<char>;

    closed spec fn view(&self) -> Seq<char> {
        self.0@
    }
}

impl JsonDecode for TextHaloBlur {
    open spec fn accepts(v: Json) -> bool {
        v is Number
    }

    open spec fn decodes(v: Json, x: Self) -> bool {
        v == Json::Number(x@)
    }

    open spec fn rejection(v: Json) -> Seq<char> {
        JsonNumber::rejection(v)
    }

    fn decode(v: &JsonValue) -> (r: Result<Self, String>) {
        match JsonNumber::decode(v) {
            Ok(x) => Ok(TextHaloBlur(x)),
            Err(e) => Err(e),
        }
    }
}

impl JsonEncode for TextHaloBlur {
    open spec fn to_json(self) -> Json {
        Json::Number(self@)
    }

    open spec fn round_trips(self) -> bool {
        true
    }

    fn encode(&self) -> (r: JsonValue) {
        JsonNumber::encode(&self.0)
    }

    proof fn lemma_round_trip(self) {
        JsonNumber::lemma_round_trip(self.0);
    }
}

impl Default for TextHaloBlur {
    fn default() -> (r: Self)
        ensures
            r.to_json() == Json::Number("0"@),
    {
        let r = TextHaloBlur(JsonNumber::from_literal("0"));
        r
    }
}

/// The color of the text's halo, which helps it stand out from backgrounds.
#[derive(PartialEq, Debug, Clone)]
pub struct TextHaloColor(ColorValue);

impl JsonDecode for TextHaloColor {
    closed spec fn accepts(v: Json) -> bool {
        ColorValue::accepts(v)
    }

    closed spec fn decodes(v: Json, x: Self) -> bool {
        ColorValue::decodes(v, x.0)
    }

    closed spec fn rejection(v: Json) -> Seq<char> {
        ColorValue::rejection(v)
    }

    fn decode(v: &JsonValue) -> (r: Result<Self, String>) {
        match ColorValue::decode(v) {
            Ok(x) => Ok(TextHaloColor(x)),
            Err(e) => Err(e),
        }
    }
}

/// Distance of halo to the font outline. Max text halo width is 1/4 of the font-size.
///
/// Range: 0..
#[derive(PartialEq, Debug, Clone)]
pub struct TextHaloWidth(JsonNumber);

impl View for TextHaloWidth {
    type V = Seq<char>;

    closed spec fn view(&self) -> Seq<char> {
        self.0@
    }
}

impl JsonDecode for TextHaloWidth {
    open spec fn accepts(v: Json) -> bool {
        v is Number
    }

    open spec fn decodes(v: Json, x: Self) -> bool {
        v == Json::Number(x@)
    }

    open spec fn rejection(v: Json) -> Seq<char> {
        JsonNumber::rejection(v)
    }

    fn decode(v: &JsonValue) -> (r: Result<Self, String>) {
        match JsonNumber::decode(v) {
            Ok(x) => Ok(TextHaloWidth(x)),
            Err(e) => Err(e),
        }
    }
}

impl JsonEncode for TextHaloWidth {
    open spec fn to_json(self) -> Json {
        Json::Number(self@)
    }

    open spec fn round_trips(self) -> bool {
        true
    }

    fn encode(&self) -> (r: JsonValue) {
        JsonNumber::encode(&self.0)
    }

    proof fn lemma_round_trip(self) {
        JsonNumber::lemma_round_trip(self.0);
    }
}

impl Default for TextHaloWidth {
    fn default() -> (r: Self)
        ensures
            r.to_json() == Json::Number("0"@),
    {
        let r = TextHaloWidth(JsonNumber::from_literal("0"));
        r
    }
}

/// The opacity at which the text will be drawn.
///
/// Range: 0..=1
#[derive(PartialEq, Debug, Clone)]
pub struct TextOpacity(JsonNumber);

impl View for TextOpacity {
    type V = Seq<char>;

    closed spec fn view(&self) -> Seq<char> {
        self.0@
    }
}

impl JsonDecode for TextOpacity {
    open spec fn accepts(v: Json) -> bool {
        v is Number
    }

    open spec fn decodes(v: Json, x: Self) -> bool {
        v == Json::Number(x@)
    }

    open spec fn rejection(v: Json) -> Seq<char> {
        JsonNumber::rejection(v)
    }

    fn decode(v: &JsonValue) -> (r: Result<Self, String>) {
        match JsonNumber::decode(v) {
            Ok(x) => Ok(TextOpacity(x)),
            Err(e) => Err(e),
        }
    }
}

impl JsonEncode for TextOpacity {
    open spec fn to_json(self) -> Json {
        Json::Number(self@)
    }

    open spec fn round_trips(self) -> bool {
        true
    }

    fn encode(&self) -> (r: JsonValue) {
        JsonNumber::encode(&self.0)
    }

    proof fn lemma_round_trip(self) {
        JsonNumber::lemma_round_trip(self.0);
    }
}

impl Default for TextOpacity {
    fn default() -> (r: Self)
        ensures
            r.to_json() == Json::Number("1"@),
    {
        let r = TextOpacity(JsonNumber::from_literal("1"));
        r
    }
}

/// Distance that the text's anchor is moved from its original placement. Positive values indicate right and down, while negative values indicate left and up.
#[derive(PartialEq, Debug, Clone)]
pub struct TextTranslate(JsonValue);

impl View for TextTranslate {
    type V = Json;

    closed spec fn view(&self) -> Json {
        self.0.model()
    }
}

impl JsonDecode for TextTranslate {
    open spec fn accepts(v: Json) -> bool {
        true
    }

    open spec fn decodes(v: Json, x: Self) -> bool {
        v == x@
    }

    open spec fn rejection(v: Json) -> Seq<char> {
        JsonValue::rejection(v)
    }

    fn decode(v: &JsonValue) -> (r: Result<Self, String>) {
        match JsonValue::decode(v) {
            Ok(x) => Ok(TextTranslate(x)),
            Err(e) => Err(e),
        }
    }
}

/// Controls the frame of reference for `text-translate`.
#[derive(PartialEq, Eq, Debug, Clone, Copy)]
pub enum TextTranslateAnchor {
    /// The text is translated relative to the map.
    MapValue,
    /// The text is translated relative to the viewport.
    Viewport,
}

impl TextTranslateAnchor {
    /// The name that stands for the value in a style document.
    pub open spec fn spec_name(self) -> Seq<char> {
        match self {
            TextTranslateAnchor::MapValue => "map"@,
            TextTranslateAnchor::Viewport => "viewport"@,
        }
    }

    /// The name that stands for the value in a style document.
    pub fn name(&self) -> (r: &'static str)
        ensures
            r@ == self.spec_name(),
    {
        match self {
            TextTranslateAnchor::MapValue => "map",
            TextTranslateAnchor::Viewport => "viewport",
        }
    }

    /// The value that a name stands for, if any.
    pub fn from_name(s: &str) -> (r: Option<TextTranslateAnchor>)
        ensures
            r matches Some(x) ==> x.spec_name() == s@,
            r is None ==> forall|x: TextTranslateAnchor| x.spec_name() != s@,
    {
        if str_eq(s, "map") {
            Some(TextTranslateAnchor::MapValue)
        } else if str_eq(s, "viewport") {
            Some(TextTranslateAnchor::Viewport)
        } else {
            None
        }
    }
}

impl JsonDecode for TextTranslateAnchor {
    /// The name of a value, or an object whose one entry has the name as its key and `null`.
    open spec fn accepts(v: Json) -> bool {
        ||| (v is Str && exists|x: TextTranslateAnchor| x.spec_name() == v->Str_0)
        ||| (v is Object && v->Object_0.len() == 1 && v->Object_0[0].1 is Null && exists|x: TextTranslateAnchor| x.spec_name() == v->Object_0[0].0)
    }

    open spec fn decodes(v: Json, x: Self) -> bool {
        ||| v == Json::Str(x.spec_name())
        ||| (v is Object && v->Object_0.len() == 1 && v->Object_0[0] == (x.spec_name(), Json::Null))
    }

    open spec fn rejection(v: Json) -> Seq<char> {
        if v is Str {
            unknown_variant(v->Str_0) + ", expected `map` or `viewport`"@
        } else if v is Object {
            let o = v->Object_0;
            if o.len() != 1 {
                "invalid value: map, expected map with a single key"@
            } else if !(exists|x: TextTranslateAnchor| x.spec_name() == o[0].0) {
                unknown_variant(o[0].0) + ", expected `map` or `viewport`"@
            } else {
                type_error(o[0].1, "unit"@)
            }
        } else {
            type_error(v, "string or map"@)
        }
    }

    fn decode(v: &JsonValue) -> (r: Result<Self, String>) {
        match v {
            JsonValue::String(s) => match Self::from_name(s.as_str()) {
                Some(x) => Ok(x),
                None => {
                    let mut m = make_unknown_variant(s.as_str());
                    m.append(", expected `map` or `viewport`");
                    Err(m)
                },
            },
            JsonValue::Object(fields) => {
                if fields.len() != 1 {
                    return Err("invalid value: map, expected map with a single key".to_string());
                }
                proof {
                    assert(entries_model(*fields)[0] == (fields@[0].0@, fields@[0].1.model()));
                }
                match Self::from_name(fields[0].0.as_str()) {
                    Some(x) => match &fields[0].1 {
                        JsonValue::Null => Ok(x),
                        _ => Err(make_type_error(&fields[0].1, "unit")),
                    },
                    None => {
                        let mut m = make_unknown_variant(fields[0].0.as_str());
                        m.append(", expected `map` or `viewport`");
                        Err(m)
                    },
                }
            },
            _ => Err(make_type_error(v, "string or map")),
        }
    }
}

impl Default for TextTranslateAnchor {
    fn default() -> (r: Self)
        ensures
            r == TextTranslateAnchor::MapValue,
    {
        TextTranslateAnchor::MapValue
    }
}

#[derive(PartialEq, Debug, Clone)]
pub struct PropertyType {
    /// Property should be specified using a color ramp from which the output color can be sampled based on a property calculation.
    pub color_ramp: ColorRamp,
    /// Property is constant across all zoom levels and property values.
    pub constant: Constant,
    /// Property is non-interpolable; rather, its values will be cross-faded to smoothly transition between integer zooms.
    pub cross_faded: CrossFaded,
    /// Property is non-interpolable; rather, its values will be cross-faded to smoothly transition between integer zooms. It can be represented using a property expression.
    pub cross_faded_data_driven: CrossFadedDataDriven,
    /// Property is interpolable but cannot be represented using a property expression.
    pub data_constant: DataConstant,
    /// Property is interpolable and can be represented using a property expression.
    pub data_driven: DataDriven,
}

impl JsonDecode for PropertyType {
    /// An object with the fields by their keys, or an array with the fields in order.
    open spec fn accepts(v: Json) -> bool {
        ||| (v is Object && {
            let o = v->Object_0;
            &&& req_field_accepts::<ColorRamp>(o, "color-ramp"@)
            &&& req_field_accepts::<Constant>(o, "constant"@)
            &&& req_field_accepts::<CrossFaded>(o, "cross-faded"@)
            &&& req_field_accepts::<CrossFadedDataDriven>(o, "cross-faded-data-driven"@)
            &&& req_field_accepts::<DataConstant>(o, "data-constant"@)
            &&& req_field_accepts::<DataDriven>(o, "data-driven"@)
        })
        ||| (v is Array && {
            let a = v->Array_0;
            &&& seq_req_accepts::<ColorRamp>(a, 0)
            &&& seq_req_accepts::<Constant>(a, 1)
            &&& seq_req_accepts::<CrossFaded>(a, 2)
            &&& seq_req_accepts::<CrossFadedDataDriven>(a, 3)
            &&& seq_req_accepts::<DataConstant>(a, 4)
            &&& seq_req_accepts::<DataDriven>(a, 5)
            &&& a.len() <= 6
        })
    }

    open spec fn decodes(v: Json, x: Self) -> bool {
        ||| (v is Object && {
            let o = v->Object_0;
            &&& req_field_decodes::<ColorRamp>(o, "color-ramp"@, x.color_ramp)
            &&& req_field_decodes::<Constant>(o, "constant"@, x.constant)
            &&& req_field_decodes::<CrossFaded>(o, "cross-faded"@, x.cross_faded)
            &&& req_field_decodes::<CrossFadedDataDriven>(o, "cross-faded-data-driven"@, x.cross_faded_data_driven)
            &&& req_field_decodes::<DataConstant>(o, "data-constant"@, x.data_constant)
            &&& req_field_decodes::<DataDriven>(o, "data-driven"@, x.data_driven)
        })
        ||| (v is Array && {
            let a = v->Array_0;
            &&& seq_req_decodes::<ColorRamp>(a, 0, x.color_ramp)
            &&& seq_req_decodes::<Constant>(a, 1, x.constant)
            &&& seq_req_decodes::<CrossFaded>(a, 2, x.cross_faded)
            &&& seq_req_decodes::<CrossFadedDataDriven>(a, 3, x.cross_faded_data_driven)
            &&& seq_req_decodes::<DataConstant>(a, 4, x.data_constant)
            &&& seq_req_decodes::<DataDriven>(a, 5, x.data_driven)
        })
    }

    /// For an object, the first entry in order whose value does not read as its field, else the
    /// first required field that is missing.
    open spec fn rejection(v: Json) -> Seq<char> {
        if v is Object {
            let o = v->Object_0;
            match Self::first_fault(o, 0) {
                Some(m) => m,
                None => if lookup(o, "color-ramp"@) is None {
                    missing_field("color-ramp"@)
                } else if lookup(o, "constant"@) is None {
                    missing_field("constant"@)
                } else if lookup(o, "cross-faded"@) is None {
                    missing_field("cross-faded"@)
                } else if lookup(o, "cross-faded-data-driven"@) is None {
                    missing_field("cross-faded-data-driven"@)
                } else if lookup(o, "data-constant"@) is None {
                    missing_field("data-constant"@)
                } else if lookup(o, "data-driven"@) is None {
                    missing_field("data-driven"@)
                } else {
                    Seq::empty()
                },
            }
        } else if v is Array {
            let a = v->Array_0;
            if !seq_req_accepts::<ColorRamp>(a, 0) {
                seq_req_rejection::<ColorRamp>(a, 0, "struct PropertyType with 6 elements"@)
            } else if !seq_req_accepts::<Constant>(a, 1) {
                seq_req_rejection::<Constant>(a, 1, "struct PropertyType with 6 elements"@)
            } else if !seq_req_accepts::<CrossFaded>(a, 2) {
                seq_req_rejection::<CrossFaded>(a, 2, "struct PropertyType with 6 elements"@)
            } else if !seq_req_accepts::<CrossFadedDataDriven>(a, 3) {
                seq_req_rejection::<CrossFadedDataDriven>(a, 3, "struct PropertyType with 6 elements"@)
            } else if !seq_req_accepts::<DataConstant>(a, 4) {
                seq_req_rejection::<DataConstant>(a, 4, "struct PropertyType with 6 elements"@)
            } else if !seq_req_accepts::<DataDriven>(a, 5) {
                seq_req_rejection::<DataDriven>(a, 5, "struct PropertyType with 6 elements"@)
            } else if a.len() > 6 {
                length_error(a.len())
            } else {
                Seq::empty()
            }
        } else {
            type_error(v, "struct PropertyType"@)
        }
    }

    fn decode(v: &JsonValue) -> (r: Result<Self, String>) {
        match v {
            JsonValue::Object(fields) => {
                let color_ramp = match decode_req_field::<ColorRamp>(fields, "color-ramp") {
                    Ok(x) => x,
                    Err(_) => return Err(Self::object_rejection(fields)),
                };
                let constant = match decode_req_field::<Constant>(fields, "constant") {
                    Ok(x) => x,
                    Err(_) => return Err(Self::object_rejection(fields)),
                };
                let cross_faded = match decode_req_field::<CrossFaded>(fields, "cross-faded") {
                    Ok(x) => x,
                    Err(_) => return Err(Self::object_rejection(fields)),
                };
                let cross_faded_data_driven = match decode_req_field::<CrossFadedDataDriven>(fields, "cross-faded-data-driven") {
                    Ok(x) => x,
                    Err(_) => return Err(Self::object_rejection(fields)),
                };
                let data_constant = match decode_req_field::<DataConstant>(fields, "data-constant") {
                    Ok(x) => x,
                    Err(_) => return Err(Self::object_rejection(fields)),
                };
                let data_driven = match decode_req_field::<DataDriven>(fields, "data-driven") {
                    Ok(x) => x,
                    Err(_) => return Err(Self::object_rejection(fields)),
                };
                Ok(PropertyType { color_ramp, constant, cross_faded, cross_faded_data_driven, data_constant, data_driven })
            },
            JsonValue::Array(a) => {
                let color_ramp = match decode_seq_req::<ColorRamp>(a, 0, "struct PropertyType with 6 elements") {
                    Ok(x) => x,
                    Err(e) => return Err(e),
                };
                let constant = match decode_seq_req::<Constant>(a, 1, "struct PropertyType with 6 elements") {
                    Ok(x) => x,
                    Err(e) => return Err(e),
                };
                let cross_faded = match decode_seq_req::<CrossFaded>(a, 2, "struct PropertyType with 6 elements") {
                    Ok(x) => x,
                    Err(e) => return Err(e),
                };
                let cross_faded_data_driven = match decode_seq_req::<CrossFadedDataDriven>(a, 3, "struct PropertyType with 6 elements") {
                    Ok(x) => x,
                    Err(e) => return Err(e),
                };
                let data_constant = match decode_seq_req::<DataConstant>(a, 4, "struct PropertyType with 6 elements") {
                    Ok(x) => x,
                    Err(e) => return Err(e),
                };
                let data_driven = match decode_seq_req::<DataDriven>(a, 5, "struct PropertyType with 6 elements") {
                    Ok(x) => x,
                    Err(e) => return Err(e),
                };
                if a.len() > 6 {
                    return Err(make_length_error(a.len()));
                }
                Ok(PropertyType { color_ramp, constant, cross_faded, cross_faded_data_driven, data_constant, data_driven })
            },
            _ => Err(make_type_error(v, "struct PropertyType")),
        }
    }
}

impl PropertyType {
    /// What is wrong with the value `w` of an entry with key `k`, where `k` is the key of a field.
    pub open spec fn field_fault(k: Seq<char>, w: Json) -> Option<Seq<char>> {
        if k == "color-ramp"@ {
            if ColorRamp::accepts(w) {
                None
            } else {
                Some(ColorRamp::rejection(w))
            }
        } else if k == "constant"@ {
            if Constant::accepts(w) {
                None
            } else {
                Some(Constant::rejection(w))
            }
        } else if k == "cross-faded"@ {
            if CrossFaded::accepts(w) {
                None
            } else {
                Some(CrossFaded::rejection(w))
            }
        } else if k == "cross-faded-data-driven"@ {
            if CrossFadedDataDriven::accepts(w) {
                None
            } else {
                Some(CrossFadedDataDriven::rejection(w))
            }
        } else if k == "data-constant"@ {
            if DataConstant::accepts(w) {
                None
            } else {
                Some(DataConstant::rejection(w))
            }
        } else if k == "data-driven"@ {
            if DataDriven::accepts(w) {
                None
            } else {
                Some(DataDriven::rejection(w))
            }
        } else {
            None
        }
    }

    /// The message of the first entry of `o`, from entry `i` on and among the first entries of
    /// their keys, whose value does not read as its field, if any.
    pub open spec fn first_fault(o: Seq<(Seq<char>, Json)>, i: int) -> Option<Seq<char>>
        decreases o.len() - i,
    {
        if i < 0 || i >= o.len() {
            None
        } else if first_with_key(o, i) && Self::field_fault(o[i].0, o[i].1) is Some {
            Self::field_fault(o[i].0, o[i].1)
        } else {
            Self::first_fault(o, i + 1)
        }
    }

    fn find_field_fault(k: &str, w: &JsonValue) -> (r: Option<String>)
        ensures
            match r {
                Some(m) => Self::field_fault(k@, w.model()) == Some(m@),
                None => Self::field_fault(k@, w.model()) is None,
            },
    {
        if str_eq(k, "color-ramp") {
            match ColorRamp::decode(w) {
                Ok(_) => None,
                Err(e) => Some(e),
            }
        } else if str_eq(k, "constant") {
            match Constant::decode(w) {
                Ok(_) => None,
                Err(e) => Some(e),
            }
        } else if str_eq(k, "cross-faded") {
            match CrossFaded::decode(w) {
                Ok(_) => None,
                Err(e) => Some(e),
            }
        } else if str_eq(k, "cross-faded-data-driven") {
            match CrossFadedDataDriven::decode(w) {
                Ok(_) => None,
                Err(e) => Some(e),
            }
        } else if str_eq(k, "data-constant") {
            match DataConstant::decode(w) {
                Ok(_) => None,
                Err(e) => Some(e),
            }
        } else if str_eq(k, "data-driven") {
            match DataDriven::decode(w) {
                Ok(_) => None,
                Err(e) => Some(e),
            }
        } else {
            None
        }
    }

    fn object_rejection(fields: &Vec<(String, JsonValue)>) -> (r: String)
        ensures
            r@ == Self::rejection(JsonValue::Object(*fields).model()),
    {
        let ghost o = entries_model(*fields);
        let mut i: usize = 0;
        while i < fields.len()
            invariant
                o == entries_model(*fields),
                o.len() == fields.len(),
                i <= fields.len(),
                Self::first_fault(o, 0) == Self::first_fault(o, i as int),
            decreases fields.len() - i,
        {
            proof {
                assert(o[i as int] == (fields@[i as int].0@, fields@[i as int].1.model()));
            }
            if !key_seen_before(fields, i) {
                match Self::find_field_fault(fields[i].0.as_str(), &fields[i].1) {
                    Some(m) => {
                        return m;
                    },
                    None => {},
                }
            }
            i += 1;
        }
        if get_field(fields, "color-ramp").is_none() {
            return make_missing_field("color-ramp");
        }
        if get_field(fields, "constant").is_none() {
            return make_missing_field("constant");
        }
        if get_field(fields, "cross-faded").is_none() {
            return make_missing_field("cross-faded");
        }
        if get_field(fields, "cross-faded-data-driven").is_none() {
            return make_missing_field("cross-faded-data-driven");
        }
        if get_field(fields, "data-constant").is_none() {
            return make_missing_field("data-constant");
        }
        if get_field(fields, "data-driven").is_none() {
            return make_missing_field("data-driven");
        }
        String::new()
    }
}

/// Property should be specified using a color ramp from which the output color can be sampled based on a property calculation.
#[derive(PartialEq, Debug, Clone)]
pub struct ColorRamp(JsonValue);

impl View for ColorRamp {
    type V = Json;

    closed spec fn view(&self) -> Json {
        self.0.model()
    }
}

impl JsonDecode for ColorRamp {
    open spec fn accepts(v: Json) -> bool {
        true
    }

    open spec fn decodes(v: Json, x: Self) -> bool {
        v == x@
    }

    open spec fn rejection(v: Json) -> Seq<char> {
        JsonValue::rejection(v)
    }

    fn decode(v: &JsonValue) -> (r: Result<Self, String>) {
        match JsonValue::decode(v) {
            Ok(x) => Ok(ColorRamp(x)),
            Err(e) => Err(e),
        }
    }
}

/// Property is constant across all zoom levels and property values.
#[derive(PartialEq, Debug, Clone)]
pub struct Constant(JsonValue);

impl View for Constant {
    type V = Json;

    closed spec fn view(&self) -> Json {
        self.0.model()
    }
}

impl JsonDecode for Constant {
    open spec fn accepts(v: Json) -> bool {
        true
    }

    open spec fn decodes(v: Json, x: Self) -> bool {
        v == x@
    }

    open spec fn rejection(v: Json) -> Seq<char> {
        JsonValue::rejection(v)
    }

    fn decode(v: &JsonValue) -> (r: Result<Self, String>) {
        match JsonValue::decode(v) {
            Ok(x) => Ok(Constant(x)),
            Err(e) => Err(e),
        }
    }
}

/// Property is non-interpolable; rather, its values will be cross-faded to smoothly transition between integer zooms.
#[derive(PartialEq, Debug, Clone)]
pub struct CrossFaded(JsonValue);

impl View for CrossFaded {
    type V = Json;

    closed spec fn view(&self) -> Json {
        self.0.model()
    }
}

impl JsonDecode for CrossFaded {
    open spec fn accepts(v: Json) -> bool {
        true
    }

    open spec fn decodes(v: Json, x: Self) -> bool {
        v == x@
    }

    open spec fn rejection(v: Json) -> Seq<char> {
        JsonValue::rejection(v)
    }

    fn decode(v: &JsonValue) -> (r: Result<Self, String>) {
        match JsonValue::decode(v) {
            Ok(x) => Ok(CrossFaded(x)),
            Err(e) => Err(e),
        }
    }
}

/// Property is non-interpolable; rather, its values will be cross-faded to smoothly transition between integer zooms. It can be represented using a property expression.
#[derive(PartialEq, Debug, Clone)]
pub struct CrossFadedDataDriven(JsonValue);

impl View for CrossFadedDataDriven {
    type V = Json;

    closed spec fn view(&self) -> Json {
        self.0.model()
    }
}

impl JsonDecode for CrossFadedDataDriven {
    open spec fn accepts(v: Json) -> bool {
        true
    }

    open spec fn decodes(v: Json, x: Self) -> bool {
        v == x@
    }

    open spec fn rejection(v: Json) -> Seq<char> {
        JsonValue::rejection(v)
    }

    fn decode(v: &JsonValue) -> (r: Result<Self, String>) {
        match JsonValue::decode(v) {
            Ok(x) => Ok(CrossFadedDataDriven(x)),
            Err(e) => Err(e),
        }
    }
}

/// Property is interpolable but cannot be represented using a property expression.
#[derive(PartialEq, Debug, Clone)]
pub struct DataConstant(JsonValue);

impl View for DataConstant {
    type V = Json;

    closed spec fn view(&self) -> Json {
        self.0.model()
    }
}

impl JsonDecode for DataConstant {
    open spec fn accepts(v: Json) -> bool {
        true
    }

    open spec fn decodes(v: Json, x: Self) -> bool {
        v == x@
    }

    open spec fn rejection(v: Json) -> Seq<char> {
        JsonValue::rejection(v)
    }

    fn decode(v: &JsonValue) -> (r: Result<Self, String>) {
        match JsonValue::decode(v) {
            Ok(x) => Ok(DataConstant(x)),
            Err(e) => Err(e),
        }
    }
}

/// Property is interpolable and can be represented using a property expression.
#[derive(PartialEq, Debug, Clone)]
pub struct DataDriven(JsonValue);

impl View for DataDriven {
    type V = Json;

    closed spec fn view(&self) -> Json {
        self.0.model()
    }
}

impl JsonDecode for DataDriven {
    open spec fn accepts(v: Json) -> bool {
        true
    }

    open spec fn decodes(v: Json, x: Self) -> bool {
        v == x@
    }

    open spec fn rejection(v: Json) -> Seq<char> {
        JsonValue::rejection(v)
    }

    fn decode(v: &JsonValue) -> (r: Result<Self, String>) {
        match JsonValue::decode(v) {
            Ok(x) => Ok(DataDriven(x)),
            Err(e) => Err(e),
        }
    }
}

#[derive(PartialEq, Debug, Clone)]
pub struct Sky {
    /// How to blend the atmosphere. Where 1 is visible atmosphere and 0 is hidden. It is best to interpolate this expression when using globe projection.
    pub atmosphere_blend: AtmosphereBlend,
    /// The base color for the fog. Requires 3D terrain.
    pub fog_color: FogColor,
    /// How to blend the fog over the 3D terrain. Where 0 is the map center and 1 is the horizon.
    pub fog_ground_blend: FogGroundBlend,
    /// The base color at the horizon.
    pub horizon_color: HorizonColor,
    /// How to blend the fog color and the horizon color. Where 0 is using the horizon color only and 1 is using the fog color only.
    pub horizon_fog_blend: HorizonFogBlend,
    /// The base color for the sky.
    pub sky_color: SkyColor,
    /// How to blend the sky color and the horizon color. Where 1 is blending the color at the middle of the sky and 0 is not blending at all and using the sky color only.
    pub sky_horizon_blend: SkyHorizonBlend,
}

impl JsonDecode for Sky {
    /// An object with the fields by their keys, or an array with the fields in order.
    open spec fn accepts(v: Json) -> bool {
        ||| (v is Object && {
            let o = v->Object_0;
            &&& req_field_accepts::<AtmosphereBlend>(o, "atmosphere-blend"@)
            &&& req_field_accepts::<FogColor>(o, "fog-color"@)
            &&& req_field_accepts::<FogGroundBlend>(o, "fog-ground-blend"@)
            &&& req_field_accepts::<HorizonColor>(o, "horizon-color"@)
            &&& req_field_accepts::<HorizonFogBlend>(o, "horizon-fog-blend"@)
            &&& req_field_accepts::<SkyColor>(o, "sky-color"@)
            &&& req_field_accepts::<SkyHorizonBlend>(o, "sky-horizon-blend"@)
        })
        ||| (v is Array && {
            let a = v->Array_0;
            &&& seq_req_accepts::<AtmosphereBlend>(a, 0)
            &&& seq_req_accepts::<FogColor>(a, 1)
            &&& seq_req_accepts::<FogGroundBlend>(a, 2)
            &&& seq_req_accepts::<HorizonColor>(a, 3)
            &&& seq_req_accepts::<HorizonFogBlend>(a, 4)
            &&& seq_req_accepts::<SkyColor>(a, 5)
            &&& seq_req_accepts::<SkyHorizonBlend>(a, 6)
            &&& a.len() <= 7
        })
    }

    open spec fn decodes(v: Json, x: Self) -> bool {
        ||| (v is Object && {
            let o = v->Object_0;
            &&& req_field_decodes::<AtmosphereBlend>(o, "atmosphere-blend"@, x.atmosphere_blend)
            &&& req_field_decodes::<FogColor>(o, "fog-color"@, x.fog_color)
            &&& req_field_decodes::<FogGroundBlend>(o, "fog-ground-blend"@, x.fog_ground_blend)
            &&& req_field_decodes::<HorizonColor>(o, "horizon-color"@, x.horizon_color)
            &&& req_field_decodes::<HorizonFogBlend>(o, "horizon-fog-blend"@, x.horizon_fog_blend)
            &&& req_field_decodes::<SkyColor>(o, "sky-color"@, x.sky_color)
            &&& req_field_decodes::<SkyHorizonBlend>(o, "sky-horizon-blend"@, x.sky_horizon_blend)
        })
        ||| (v is Array && {
            let a = v->Array_0;
            &&& seq_req_decodes::<AtmosphereBlend>(a, 0, x.atmosphere_blend)
            &&& seq_req_decodes::<FogColor>(a, 1, x.fog_color)
            &&& seq_req_decodes::<FogGroundBlend>(a, 2, x.fog_ground_blend)
            &&& seq_req_decodes::<HorizonColor>(a, 3, x.horizon_color)
            &&& seq_req_decodes::<HorizonFogBlend>(a, 4, x.horizon_fog_blend)
            &&& seq_req_decodes::<SkyColor>(a, 5, x.sky_color)
            &&& seq_req_decodes::<SkyHorizonBlend>(a, 6, x.sky_horizon_blend)
        })
    }

    /// For an object, the first entry in order whose value does not read as its field, else the
    /// first required field that is missing.
    open spec fn rejection(v: Json) -> Seq<char> {
        if v is Object {
            let o = v->Object_0;
            match Self::first_fault(o, 0) {
                Some(m) => m,
                None => if lookup(o, "atmosphere-blend"@) is None {
                    missing_field("atmosphere-blend"@)
                } else if lookup(o, "fog-color"@) is None {
                    missing_field("fog-color"@)
                } else if lookup(o, "fog-ground-blend"@) is None {
                    missing_field("fog-ground-blend"@)
                } else if lookup(o, "horizon-color"@) is None {
                    missing_field("horizon-color"@)
                } else if lookup(o, "horizon-fog-blend"@) is None {
                    missing_field("horizon-fog-blend"@)
                } else if lookup(o, "sky-color"@) is None {
                    missing_field("sky-color"@)
                } else if lookup(o, "sky-horizon-blend"@) is None {
                    missing_field("sky-horizon-blend"@)
                } else {
                    Seq::empty()
                },
            }
        } else if v is Array {
            let a = v->Array_0;
            if !seq_req_accepts::<AtmosphereBlend>(a, 0) {
                seq_req_rejection::<AtmosphereBlend>(a, 0, "struct Sky with 7 elements"@)
            } else if !seq_req_accepts::<FogColor>(a, 1) {
                seq_req_rejection::<FogColor>(a, 1, "struct Sky with 7 elements"@)
            } else if !seq_req_accepts::<FogGroundBlend>(a, 2) {
                seq_req_rejection::<FogGroundBlend>(a, 2, "struct Sky with 7 elements"@)
            } else if !seq_req_accepts::<HorizonColor>(a, 3) {
                seq_req_rejection::<HorizonColor>(a, 3, "struct Sky with 7 elements"@)
            } else if !seq_req_accepts::<HorizonFogBlend>(a, 4) {
                seq_req_rejection::<HorizonFogBlend>(a, 4, "struct Sky with 7 elements"@)
            } else if !seq_req_accepts::<SkyColor>(a, 5) {
                seq_req_rejection::<SkyColor>(a, 5, "struct Sky with 7 elements"@)
            } else if !seq_req_accepts::<SkyHorizonBlend>(a, 6) {
                seq_req_rejection::<SkyHorizonBlend>(a, 6, "struct Sky with 7 elements"@)
            } else if a.len() > 7 {
                length_error(a.len())
            } else {
                Seq::empty()
            }
        } else {
            type_error(v, "struct Sky"@)
        }
    }

    fn decode(v: &JsonValue) -> (r: Result<Self, String>) {
        match v {
            JsonValue::Object(fields) => {
                let atmosphere_blend = match decode_req_field::<AtmosphereBlend>(fields, "atmosphere-blend") {
                    Ok(x) => x,
                    Err(_) => return Err(Self::object_rejection(fields)),
                };
                let fog_color = match decode_req_field::<FogColor>(fields, "fog-color") {
                    Ok(x) => x,
                    Err(_) => return Err(Self::object_rejection(fields)),
                };
                let fog_ground_blend = match decode_req_field::<FogGroundBlend>(fields, "fog-ground-blend") {
                    Ok(x) => x,
                    Err(_) => return Err(Self::object_rejection(fields)),
                };
                let horizon_color = match decode_req_field::<HorizonColor>(fields, "horizon-color") {
                    Ok(x) => x,
                    Err(_) => return Err(Self::object_rejection(fields)),
                };
                let horizon_fog_blend = match decode_req_field::<HorizonFogBlend>(fields, "horizon-fog-blend") {
                    Ok(x) => x,
                    Err(_) => return Err(Self::object_rejection(fields)),
                };
                let sky_color = match decode_req_field::<SkyColor>(fields, "sky-color") {
                    Ok(x) => x,
                    Err(_) => return Err(Self::object_rejection(fields)),
                };
                let sky_horizon_blend = match decode_req_field::<SkyHorizonBlend>(fields, "sky-horizon-blend") {
                    Ok(x) => x,
                    Err(_) => return Err(Self::object_rejection(fields)),
                };
                Ok(Sky { atmosphere_blend, fog_color, fog_ground_blend, horizon_color, horizon_fog_blend, sky_color, sky_horizon_blend })
            },
            JsonValue::Array(a) => {
                let atmosphere_blend = match decode_seq_req::<AtmosphereBlend>(a, 0, "struct Sky with 7 elements") {
                    Ok(x) => x,
                    Err(e) => return Err(e),
                };
                let fog_color = match decode_seq_req::<FogColor>(a, 1, "struct Sky with 7 elements") {
                    Ok(x) => x,
                    Err(e) => return Err(e),
                };
                let fog_ground_blend = match decode_seq_req::<FogGroundBlend>(a, 2, "struct Sky with 7 elements") {
                    Ok(x) => x,
                    Err(e) => return Err(e),
                };
                let horizon_color = match decode_seq_req::<HorizonColor>(a, 3, "struct Sky with 7 elements") {
                    Ok(x) => x,
                    Err(e) => return Err(e),
                };
                let horizon_fog_blend = match decode_seq_req::<HorizonFogBlend>(a, 4, "struct Sky with 7 elements") {
                    Ok(x) => x,
                    Err(e) => return Err(e),
                };
                let sky_color = match decode_seq_req::<SkyColor>(a, 5, "struct Sky with 7 elements") {
                    Ok(x) => x,
                    Err(e) => return Err(e),
                };
                let sky_horizon_blend = match decode_seq_req::<SkyHorizonBlend>(a, 6, "struct Sky with 7 elements") {
                    Ok(x) => x,
                    Err(e) => return Err(e),
                };
                if a.len() > 7 {
                    return Err(make_length_error(a.len()));
                }
                Ok(Sky { atmosphere_blend, fog_color, fog_ground_blend, horizon_color, horizon_fog_blend, sky_color, sky_horizon_blend })
            },
            _ => Err(make_type_error(v, "struct Sky")),
        }
    }
}

impl Sky {
    /// What is wrong with the value `w` of an entry with key `k`, where `k` is the key of a field.
    pub open spec fn field_fault(k: Seq<char>, w: Json) -> Option<Seq<char>> {
        if k == "atmosphere-blend"@ {
            if AtmosphereBlend::accepts(w) {
                None
            } else {
                Some(AtmosphereBlend::rejection(w))
            }
        } else if k == "fog-color"@ {
            if FogColor::accepts(w) {
                None
            } else {
                Some(FogColor::rejection(w))
            }
        } else if k == "fog-ground-blend"@ {
            if FogGroundBlend::accepts(w) {
                None
            } else {
                Some(FogGroundBlend::rejection(w))
            }
        } else if k == "horizon-color"@ {
            if HorizonColor::accepts(w) {
                None
            } else {
                Some(HorizonColor::rejection(w))
            }
        } else if k == "horizon-fog-blend"@ {
            if HorizonFogBlend::accepts(w) {
                None
            } else {
                Some(HorizonFogBlend::rejection(w))
            }
        } else if k == "sky-color"@ {
            if SkyColor::accepts(w) {
                None
            } else {
                Some(SkyColor::rejection(w))
            }
        } else if k == "sky-horizon-blend"@ {
            if SkyHorizonBlend::accepts(w) {
                None
            } else {
                Some(SkyHorizonBlend::rejection(w))
            }
        } else {
            None
        }
    }

    /// The message of the first entry of `o`, from entry `i` on and among the first entries of
    /// their keys, whose value does not read as its field, if any.
    pub open spec fn first_fault(o: Seq<(Seq<char>, Json)>, i: int) -> Option<Seq<char>>
        decreases o.len() - i,
    {
        if i < 0 || i >= o.len() {
            None
        } else if first_with_key(o, i) && Self::field_fault(o[i].0, o[i].1) is Some {
            Self::field_fault(o[i].0, o[i].1)
        } else {
            Self::first_fault(o, i + 1)
        }
    }

    fn find_field_fault(k: &str, w: &JsonValue) -> (r: Option<String>)
        ensures
            match r {
                Some(m) => Self::field_fault(k@, w.model()) == Some(m@),
                None => Self::field_fault(k@, w.model()) is None,
            },
    {
        if str_eq(k, "atmosphere-blend") {
            match AtmosphereBlend::decode(w) {
                Ok(_) => None,
                Err(e) => Some(e),
            }
        } else if str_eq(k, "fog-color") {
            match FogColor::decode(w) {
                Ok(_) => None,
                Err(e) => Some(e),
            }
        } else if str_eq(k, "fog-ground-blend") {
            match FogGroundBlend::decode(w) {
                Ok(_) => None,
                Err(e) => Some(e),
            }
        } else if str_eq(k, "horizon-color") {
            match HorizonColor::decode(w) {
                Ok(_) => None,
                Err(e) => Some(e),
            }
        } else if str_eq(k, "horizon-fog-blend") {
            match HorizonFogBlend::decode(w) {
                Ok(_) => None,
                Err(e) => Some(e),
            }
        } else if str_eq(k, "sky-color") {
            match SkyColor::decode(w) {
                Ok(_) => None,
                Err(e) => Some(e),
            }
        } else if str_eq(k, "sky-horizon-blend") {
            match SkyHorizonBlend::decode(w) {
                Ok(_) => None,
                Err(e) => Some(e),
            }
        } else {
            None
        }
    }

    fn object_rejection(fields: &Vec<(String, JsonValue)>) -> (r: String)
        ensures
            r@ == Self::rejection(JsonValue::Object(*fields).model()),
    {
        let ghost o = entries_model(*fields);
        let mut i: usize = 0;
        while i < fields.len()
            invariant
                o == entries_model(*fields),
                o.len() == fields.len(),
                i <= fields.len(),
                Self::first_fault(o, 0) == Self::first_fault(o, i as int),
            decreases fields.len() - i,
        {
            proof {
                assert(o[i as int] == (fields@[i as int].0@, fields@[i as int].1.model()));
            }
            if !key_seen_before(fields, i) {
                match Self::find_field_fault(fields[i].0.as_str(), &fields[i].1) {
                    Some(m) => {
                        return m;
                    },
                    None => {},
                }
            }
            i += 1;
        }
        if get_field(fields, "atmosphere-blend").is_none() {
            return make_missing_field("atmosphere-blend");
        }
        if get_field(fields, "fog-color").is_none() {
            return make_missing_field("fog-color");
        }
        if get_field(fields, "fog-ground-blend").is_none() {
            return make_missing_field("fog-ground-blend");
        }
        if get_field(fields, "horizon-color").is_none() {
            return make_missing_field("horizon-color");
        }
        if get_field(fields, "horizon-fog-blend").is_none() {
            return make_missing_field("horizon-fog-blend");
        }
        if get_field(fields, "sky-color").is_none() {
            return make_missing_field("sky-color");
        }
        if get_field(fields, "sky-horizon-blend").is_none() {
            return make_missing_field("sky-horizon-blend");
        }
        String::new()
    }
}

/// How to blend the atmosphere. Where 1 is visible atmosphere and 0 is hidden. It is best to interpolate this expression when using globe projection.
///
/// Range: 0..=1
#[derive(PartialEq, Debug, Clone)]
pub struct AtmosphereBlend(JsonNumber);

impl View for AtmosphereBlend {
    type V = Seq<char>;

    closed spec fn view(&self) -> Seq<char> {
        self.0@
    }
}

impl JsonDecode for AtmosphereBlend {
    open spec fn accepts(v: Json) -> bool {
        v is Number
    }

    open spec fn decodes(v: Json, x: Self) -> bool {
        v == Json::Number(x@)
    }

    open spec fn rejection(v: Json) -> Seq<char> {
        JsonNumber::rejection(v)
    }

    fn decode(v: &JsonValue) -> (r: Result<Self, String>) {
        match JsonNumber::decode(v) {
            Ok(x) => Ok(AtmosphereBlend(x)),
            Err(e) => Err(e),
        }
    }
}

/// The base color for the fog. Requires 3D terrain.
#[derive(PartialEq, Debug, Clone)]
pub struct FogColor(ColorValue);

impl JsonDecode for FogColor {
    closed spec fn accepts(v: Json) -> bool {
        ColorValue::accepts(v)
    }

    closed spec fn decodes(v: Json, x: Self) -> bool {
        ColorValue::decodes(v, x.0)
    }

    closed spec fn rejection(v: Json) -> Seq<char> {
        ColorValue::rejection(v)
    }

    fn decode(v: &JsonValue) -> (r: Result<Self, String>) {
        match ColorValue::decode(v) {
            Ok(x) => Ok(FogColor(x)),
            Err(e) => Err(e),
        }
    }
}

impl JsonEncode for FogColor {
    closed spec fn to_json(self) -> Json {
        ColorValue::to_json(self.0)
    }

    closed spec fn round_trips(self) -> bool {
        ColorValue::round_trips(self.0)
    }

    fn encode(&self) -> (r: JsonValue) {
        ColorValue::encode(&self.0)
    }

    proof fn lemma_round_trip(self) {
        ColorValue::lemma_round_trip(self.0);
    }
}

impl Default for FogColor {
    fn default() -> (r: Self)
        ensures
            r.to_json() == Json::Str("#ffffff"@),
    {
        proof {
            reveal_strlit("#ffffff");
        }
        let r = FogColor(default_color("#ffffff"));
        r
    }
}

/// How to blend the fog over the 3D terrain. Where 0 is the map center and 1 is the horizon.
///
/// Range: 0..=1
#[derive(PartialEq, Debug, Clone)]
pub struct FogGroundBlend(JsonNumber);

impl View for FogGroundBlend {
    type V = Seq<char>;

    closed spec fn view(&self) -> Seq<char> {
        self.0@
    }
}

impl JsonDecode for FogGroundBlend {
    open spec fn accepts(v: Json) -> bool {
        v is Number
    }

    open spec fn decodes(v: Json, x: Self) -> bool {
        v == Json::Number(x@)
    }

    open spec fn rejection(v: Json) -> Seq<char> {
        JsonNumber::rejection(v)
    }

    fn decode(v: &JsonValue) -> (r: Result<Self, String>) {
        match JsonNumber::decode(v) {
            Ok(x) => Ok(FogGroundBlend(x)),
            Err(e) => Err(e),
        }
    }
}

/// The base color at the horizon.
#[derive(PartialEq, Debug, Clone)]
pub struct HorizonColor(ColorValue);

impl JsonDecode for HorizonColor {
    closed spec fn accepts(v: Json) -> bool {
        ColorValue::accepts(v)
    }

    closed spec fn decodes(v: Json, x: Self) -> bool {
        ColorValue::decodes(v, x.0)
    }

    closed spec fn rejection(v: Json) -> Seq<char> {
        ColorValue::rejection(v)
    }

    fn decode(v: &JsonValue) -> (r: Result<Self, String>) {
        match ColorValue::decode(v) {
            Ok(x) => Ok(HorizonColor(x)),
            Err(e) => Err(e),
        }
    }
}

impl JsonEncode for HorizonColor {
    closed spec fn to_json(self) -> Json {
        ColorValue::to_json(self.0)
    }

    closed spec fn round_trips(self) -> bool {
        ColorValue::round_trips(self.0)
    }

    fn encode(&self) -> (r: JsonValue) {
        ColorValue::encode(&self.0)
    }

    proof fn lemma_round_trip(self) {
        ColorValue::lemma_round_trip(self.0);
    }
}

impl Default for HorizonColor {
    fn default() -> (r: Self)
        ensures
            r.to_json() == Json::Str("#ffffff"@),
    {
        proof {
            reveal_strlit("#ffffff");
        }
        let r = HorizonColor(default_color("#ffffff"));
        r
    }
}

/// How to blend the fog color and the horizon color. Where 0 is using the horizon color only and 1 is using the fog color only.
///
/// Range: 0..=1
#[derive(PartialEq, Debug, Clone)]
pub struct HorizonFogBlend(JsonNumber);

impl View for HorizonFogBlend {
    type V = Seq<char>;

    closed spec fn view(&self) -> Seq<char> {
        self.0@
    }
}

impl JsonDecode for HorizonFogBlend {
    open spec fn accepts(v: Json) -> bool {
        v is Number
    }

    open spec fn decodes(v: Json, x: Self) -> bool {
        v == Json::Number(x@)
    }

    open spec fn rejection(v: Json) -> Seq<char> {
        JsonNumber::rejection(v)
    }

    fn decode(v: &JsonValue) -> (r: Result<Self, String>) {
        match JsonNumber::decode(v) {
            Ok(x) => Ok(HorizonFogBlend(x)),
            Err(e) => Err(e),
        }
    }
}

/// The base color for the sky.
#[derive(PartialEq, Debug, Clone)]
pub struct SkyColor(ColorValue);

impl JsonDecode for SkyColor {
    closed spec fn accepts(v: Json) -> bool {
        ColorValue::accepts(v)
    }

    closed spec fn decodes(v: Json, x: Self) -> bool {
        ColorValue::decodes(v, x.0)
    }

    closed spec fn rejection(v: Json) -> Seq<char> {
        ColorValue::rejection(v)
    }

    fn decode(v: &JsonValue) -> (r: Result<Self, String>) {
        match ColorValue::decode(v) {
            Ok(x) => Ok(SkyColor(x)),
            Err(e) => Err(e),
        }
    }
}

impl JsonEncode for SkyColor {
    closed spec fn to_json(self) -> Json {
        ColorValue::to_json(self.0)
    }

    closed spec fn round_trips(self) -> bool {
        ColorValue::round_trips(self.0)
    }

    fn encode(&self) -> (r: JsonValue) {
        ColorValue::encode(&self.0)
    }

    proof fn lemma_round_trip(self) {
        ColorValue::lemma_round_trip(self.0);
    }
}

impl Default for SkyColor {
    fn default() -> (r: Self)
        ensures
            r.to_json() == Json::Str("#88C6FC"@),
    {
        proof {
            reveal_strlit("#88C6FC");
        }
        let r = SkyColor(default_color("#88C6FC"));
        r
    }
}

/// How to blend the sky color and the horizon color. Where 1 is blending the color at the middle of the sky and 0 is not blending at all and using the sky color only.
///
/// Range: 0..=1
#[derive(PartialEq, Debug, Clone)]
pub struct SkyHorizonBlend(JsonNumber);

impl View for SkyHorizonBlend {
    type V = Seq<char>;

    closed spec fn view(&self) -> Seq<char> {
        self.0@
    }
}

impl JsonDecode for SkyHorizonBlend {
    open spec fn accepts(v: Json) -> bool {
        v is Number
    }

    open spec fn decodes(v: Json, x: Self) -> bool {
        v == Json::Number(x@)
    }

    open spec fn rejection(v: Json) -> Seq<char> {
        JsonNumber::rejection(v)
    }

    fn decode(v: &JsonValue) -> (r: Result<Self, String>) {
        match JsonNumber::decode(v) {
            Ok(x) => Ok(SkyHorizonBlend(x)),
            Err(e) => Err(e),
        }
    }
}

/// Size of the tile buffer on each side. A value of 0 produces no buffer. A value of 512 produces a buffer as wide as the tile itself. Larger values produce fewer rendering artifacts near tile edges and slower performance.
///
/// Range: 0..=512
#[derive(PartialEq, Debug, Clone)]
pub struct Buffer(JsonNumber);

impl View for Buffer {
    type V = Seq<char>;

    closed spec fn view(&self) -> Seq<char> {
        self.0@
    }
}

impl JsonDecode for Buffer {
    open spec fn accepts(v: Json) -> bool {
        v is Number
    }

    open spec fn decodes(v: Json, x: Self) -> bool {
        v == Json::Number(x@)
    }

    open spec fn rejection(v: Json) -> Seq<char> {
        JsonNumber::rejection(v)
    }

    fn decode(v: &JsonValue) -> (r: Result<Self, String>) {
        match JsonNumber::decode(v) {
            Ok(x) => Ok(Buffer(x)),
            Err(e) => Err(e),
        }
    }
}

impl JsonEncode for Buffer {
    open spec fn to_json(self) -> Json {
        Json::Number(self@)
    }

    open spec fn round_trips(self) -> bool {
        true
    }

    fn encode(&self) -> (r: JsonValue) {
        JsonNumber::encode(&self.0)
    }

    proof fn lemma_round_trip(self) {
        JsonNumber::lemma_round_trip(self.0);
    }
}

impl Default for Buffer {
    fn default() -> (r: Self)
        ensures
            r.to_json() == Json::Number("128"@),
    {
        let r = Buffer(JsonNumber::from_literal("128"));
        r
    }
}

/// If the data is a collection of point features, setting this to true clusters the points by radius into groups. Cluster groups become new `Point` features in the source with additional properties:
///
///  * `cluster` Is `true` if the point is a cluster
///
///  * `cluster_id` A unique id for the cluster to be used in conjunction with the [cluster inspection methods](https://maplibre.org/maplibre-gl-js/docs/API/classes/GeoJSONSource/#getclusterexpansionzoom)
///
///  * `point_count` Number of original points grouped into this cluster
///
///  * `point_count_abbreviated` An abbreviated point count
#[derive(PartialEq, Debug, Clone)]
pub struct Cluster(JsonValue);

impl View for Cluster {
    type V = Json;

    closed spec fn view(&self) -> Json {
        self.0.model()
    }
}

impl JsonDecode for Cluster {
    open spec fn accepts(v: Json) -> bool {
        true
    }

    open spec fn decodes(v: Json, x: Self) -> bool {
        v == x@
    }

    open spec fn rejection(v: Json) -> Seq<char> {
        JsonValue::rejection(v)
    }

    fn decode(v: &JsonValue) -> (r: Result<Self, String>) {
        match JsonValue::decode(v) {
            Ok(x) => Ok(Cluster(x)),
            Err(e) => Err(e),
        }
    }
}

/// Max zoom on which to cluster points if clustering is enabled. Defaults to one zoom less than maxzoom (so that last zoom features are not clustered). Clusters are re-evaluated at integer zoom levels so setting clusterMaxZoom to 14 means the clusters will be displayed until z15.
#[derive(PartialEq, Debug, Clone)]
pub struct Clustermaxzoom(JsonNumber);

impl View for Clustermaxzoom {
    type V = Seq<char>;

    closed spec fn view(&self) -> Seq<char> {
        self.0@
    }
}

impl JsonDecode for Clustermaxzoom {
    open spec fn accepts(v: Json) -> bool {
        v is Number
    }

    open spec fn decodes(v: Json, x: Self) -> bool {
        v == Json::Number(x@)
    }

    open spec fn rejection(v: Json) -> Seq<char> {
        JsonNumber::rejection(v)
    }

    fn decode(v: &JsonValue) -> (r: Result<Self, String>) {
        match JsonNumber::decode(v) {
            Ok(x) => Ok(Clustermaxzoom(x)),
            Err(e) => Err(e),
        }
    }
}

/// Minimum number of points necessary to form a cluster if clustering is enabled. Defaults to `2`.
#[derive(PartialEq, Debug, Clone)]
pub struct Clusterminpoints(JsonNumber);

impl View for Clusterminpoints {
    type V = Seq<char>;

    closed spec fn view(&self) -> Seq<char> {
        self.0@
    }
}

impl JsonDecode for Clusterminpoints {
    open spec fn accepts(v: Json) -> bool {
        v is Number
    }

    open spec fn decodes(v: Json, x: Self) -> bool {
        v == Json::Number(x@)
    }

    open spec fn rejection(v: Json) -> Seq<char> {
        JsonNumber::rejection(v)
    }

    fn decode(v: &JsonValue) -> (r: Result<Self, String>) {
        match JsonNumber::decode(v) {
            Ok(x) => Ok(Clusterminpoints(x)),
            Err(e) => Err(e),
        }
    }
}

/// An object defining custom properties on the generated clusters if clustering is enabled, aggregating values from clustered points. Has the form `{"property_name": [operator, map_expression]}`. `operator` is any expression function that accepts at least 2 operands (e.g. `"+"` or `"max"`) — it accumulates the property value from clusters/points the cluster contains; `map_expression` produces the value of a single point.
///
/// Example: `{"sum": ["+", ["get", "scalerank"]]}`.
///
/// For more advanced use cases, in place of `operator`, you can use a custom reduce expression that references a special `["accumulated"]` value, e.g.:
///
/// `{"sum": [["+", ["accumulated"], ["get", "sum"]], ["get", "scalerank"]]}`
#[derive(PartialEq, Debug, Clone)]
pub struct Clusterproperties(JsonValue);

impl View for Clusterproperties {
    type V = Json;

    closed spec fn view(&self) -> Json {
        self.0.model()
    }
}

impl JsonDecode for Clusterproperties {
    open spec fn accepts(v: Json) -> bool {
        true
    }

    open spec fn decodes(v: Json, x: Self) -> bool {
        v == x@
    }

    open spec fn rejection(v: Json) -> Seq<char> {
        JsonValue::rejection(v)
    }

    fn decode(v: &JsonValue) -> (r: Result<Self, String>) {
        match JsonValue::decode(v) {
            Ok(x) => Ok(Clusterproperties(x)),
            Err(e) => Err(e),
        }
    }
}

/// Radius of each cluster if clustering is enabled. A value of 512 indicates a radius equal to the width of a tile.
///
/// Range: 0..
#[derive(PartialEq, Debug, Clone)]
pub struct Clusterradius(JsonNumber);

impl View for Clusterradius {
    type V = Seq<char>;

    closed spec fn view(&self) -> Seq<char> {
        self.0@
    }
}

impl JsonDecode for Clusterradius {
    open spec fn accepts(v: Json) -> bool {
        v is Number
    }

    open spec fn decodes(v: Json, x: Self) -> bool {
        v == Json::Number(x@)
    }

    open spec fn rejection(v: Json) -> Seq<char> {
        JsonNumber::rejection(v)
    }

    fn decode(v: &JsonValue) -> (r: Result<Self, String>) {
        match JsonNumber::decode(v) {
            Ok(x) => Ok(Clusterradius(x)),
            Err(e) => Err(e),
        }
    }
}

impl JsonEncode for Clusterradius {
    open spec fn to_json(self) -> Json {
        Json::Number(self@)
    }

    open spec fn round_trips(self) -> bool {
        true
    }

    fn encode(&self) -> (r: JsonValue) {
        JsonNumber::encode(&self.0)
    }

    proof fn lemma_round_trip(self) {
        JsonNumber::lemma_round_trip(self.0);
    }
}

impl Default for Clusterradius {
    fn default() -> (r: Self)
        ensures
            r.to_json() == Json::Number("50"@),
    {
        let r = Clusterradius(JsonNumber::from_literal("50"));
        r
    }
}

/// A URL to a GeoJSON file, or inline GeoJSON.
#[derive(PartialEq, Debug, Clone)]
pub struct Data(JsonValue);

impl View for Data {
    type V = Json;

    closed spec fn view(&self) -> Json {
        self.0.model()
    }
}

impl JsonDecode for Data {
    open spec fn accepts(v: Json) -> bool {
        true
    }

    open spec fn decodes(v: Json, x: Self) -> bool {
        v == x@
    }

    open spec fn rejection(v: Json) -> Seq<char> {
        JsonValue::rejection(v)
    }

    fn decode(v: &JsonValue) -> (r: Result<Self, String>) {
        match JsonValue::decode(v) {
            Ok(x) => Ok(Data(x)),
            Err(e) => Err(e),
        }
    }
}

/// Whether to generate ids for the geojson features. When enabled, the `feature.id` property will be auto assigned based on its index in the `features` array, over-writing any previous values.
#[derive(PartialEq, Debug, Clone)]
pub struct Generateid(JsonValue);

impl View for Generateid {
    type V = Json;

    closed spec fn view(&self) -> Json {
        self.0.model()
    }
}

impl JsonDecode for Generateid {
    open spec fn accepts(v: Json) -> bool {
        true
    }

    open spec fn decodes(v: Json, x: Self) -> bool {
        v == x@
    }

    open spec fn rejection(v: Json) -> Seq<char> {
        JsonValue::rejection(v)
    }

    fn decode(v: &JsonValue) -> (r: Result<Self, String>) {
        match JsonValue::decode(v) {
            Ok(x) => Ok(Generateid(x)),
            Err(e) => Err(e),
        }
    }
}

/// Whether to calculate line distance metrics. This is required for line layers that specify `line-gradient` values.
#[derive(PartialEq, Debug, Clone)]
pub struct Linemetrics(JsonValue);

impl View for Linemetrics {
    type V = Json;

    closed spec fn view(&self) -> Json {
        self.0.model()
    }
}

impl JsonDecode for Linemetrics {
    open spec fn accepts(v: Json) -> bool {
        true
    }

    open spec fn decodes(v: Json, x: Self) -> bool {
        v == x@
    }

    open spec fn rejection(v: Json) -> Seq<char> {
        JsonValue::rejection(v)
    }

    fn decode(v: &JsonValue) -> (r: Result<Self, String>) {
        match JsonValue::decode(v) {
            Ok(x) => Ok(Linemetrics(x)),
            Err(e) => Err(e),
        }
    }
}

/// Douglas-Peucker simplification tolerance (higher means simpler geometries and faster performance).
#[derive(PartialEq, Debug, Clone)]
pub struct Tolerance(JsonNumber);

impl View for Tolerance {
    type V = Seq<char>;

    closed spec fn view(&self) -> Seq<char> {
        self.0@
    }
}

impl JsonDecode for Tolerance {
    open spec fn accepts(v: Json) -> bool {
        v is Number
    }

    open spec fn decodes(v: Json, x: Self) -> bool {
        v == Json::Number(x@)
    }

    open spec fn rejection(v: Json) -> Seq<char> {
        JsonNumber::rejection(v)
    }

    fn decode(v: &JsonValue) -> (r: Result<Self, String>) {
        match JsonNumber::decode(v) {
            Ok(x) => Ok(Tolerance(x)),
            Err(e) => Err(e),
        }
    }
}

/// Influences the y direction of the tile coordinates. The global-mercator (aka Spherical Mercator) profile is assumed.
#[derive(PartialEq, Eq, Debug, Clone, Copy)]
pub enum Scheme {
    /// OSGeo spec scheme.
    Tms,
    /// Slippy map tilenames scheme.
    Xyz,
}

impl Scheme {
    /// The name that stands for the value in a style document.
    pub open spec fn spec_name(self) -> Seq<char> {
        match self {
            Scheme::Tms => "tms"@,
            Scheme::Xyz => "xyz"@,
        }
    }

    /// The name that stands for the value in a style document.
    pub fn name(&self) -> (r: &'static str)
        ensures
            r@ == self.spec_name(),
    {
        match self {
            Scheme::Tms => "tms",
            Scheme::Xyz => "xyz",
        }
    }

    /// The value that a name stands for, if any.
    pub fn from_name(s: &str) -> (r: Option<Scheme>)
        ensures
            r matches Some(x) ==> x.spec_name() == s@,
            r is None ==> forall|x: Scheme| x.spec_name() != s@,
    {
        if str_eq(s, "tms") {
            Some(Scheme::Tms)
        } else if str_eq(s, "xyz") {
            Some(Scheme::Xyz)
        } else {
            None
        }
    }
}

impl JsonDecode for Scheme {
    /// The name of a value, or an object whose one entry has the name as its key and `null`.
    open spec fn accepts(v: Json) -> bool {
        ||| (v is Str && exists|x: Scheme| x.spec_name() == v->Str_0)
        ||| (v is Object && v->Object_0.len() == 1 && v->Object_0[0].1 is Null && exists|x: Scheme| x.spec_name() == v->Object_0[0].0)
    }

    open spec fn decodes(v: Json, x: Self) -> bool {
        ||| v == Json::Str(x.spec_name())
        ||| (v is Object && v->Object_0.len() == 1 && v->Object_0[0] == (x.spec_name(), Json::Null))
    }

    open spec fn rejection(v: Json) -> Seq<char> {
        if v is Str {
            unknown_variant(v->Str_0) + ", expected `tms` or `xyz`"@
        } else if v is Object {
            let o = v->Object_0;
            if o.len() != 1 {
                "invalid value: map, expected map with a single key"@
            } else if !(exists|x: Scheme| x.spec_name() == o[0].0) {
                unknown_variant(o[0].0) + ", expected `tms` or `xyz`"@
            } else {
                type_error(o[0].1, "unit"@)
            }
        } else {
            type_error(v, "string or map"@)
        }
    }

    fn decode(v: &JsonValue) -> (r: Result<Self, String>) {
        match v {
            JsonValue::String(s) => match Self::from_name(s.as_str()) {
                Some(x) => Ok(x),
                None => {
                    let mut m = make_unknown_variant(s.as_str());
                    m.append(", expected `tms` or `xyz`");
                    Err(m)
                },
            },
            JsonValue::Object(fields) => {
                if fields.len() != 1 {
                    return Err("invalid value: map, expected map with a single key".to_string());
                }
                proof {
                    assert(entries_model(*fields)[0] == (fields@[0].0@, fields@[0].1.model()));
                }
                match Self::from_name(fields[0].0.as_str()) {
                    Some(x) => match &fields[0].1 {
                        JsonValue::Null => Ok(x),
                        _ => Err(make_type_error(&fields[0].1, "unit")),
                    },
                    None => {
                        let mut m = make_unknown_variant(fields[0].0.as_str());
                        m.append(", expected `tms` or `xyz`");
                        Err(m)
                    },
                }
            },
            _ => Err(make_type_error(v, "string or map")),
        }
    }
}

impl Default for Scheme {
    fn default() -> (r: Self)
        ensures
            r == Scheme::Xyz,
    {
        Scheme::Xyz
    }
}

/// Value that will be added to the encoding mix when decoding. Only used on custom encodings.
#[derive(PartialEq, Debug, Clone)]
pub struct Baseshift(JsonNumber);

impl View for Baseshift {
    type V = Seq<char>;

    closed spec fn view(&self) -> Seq<char> {
        self.0@
    }
}

impl JsonDecode for Baseshift {
    open spec fn accepts(v: Json) -> bool {
        v is Number
    }

    open spec fn decodes(v: Json, x: Self) -> bool {
        v == Json::Number(x@)
    }

    open spec fn rejection(v: Json) -> Seq<char> {
        JsonNumber::rejection(v)
    }

    fn decode(v: &JsonValue) -> (r: Result<Self, String>) {
        match JsonNumber::decode(v) {
            Ok(x) => Ok(Baseshift(x)),
            Err(e) => Err(e),
        }
    }
}

/// Value that will be multiplied by the blue channel value when decoding. Only used on custom encodings.
#[derive(PartialEq, Debug, Clone)]
pub struct Bluefactor(JsonNumber);

impl View for Bluefactor {
    type V = Seq<char>;

    closed spec fn view(&self) -> Seq<char> {
        self.0@
    }
}

impl JsonDecode for Bluefactor {
    open spec fn accepts(v: Json) -> bool {
        v is Number
    }

    open spec fn decodes(v: Json, x: Self) -> bool {
        v == Json::Number(x@)
    }

    open spec fn rejection(v: Json) -> Seq<char> {
        JsonNumber::rejection(v)
    }

    fn decode(v: &JsonValue) -> (r: Result<Self, String>) {
        match JsonNumber::decode(v) {
            Ok(x) => Ok(Bluefactor(x)),
            Err(e) => Err(e),
        }
    }
}

/// The encoding used by this source. Mapbox Terrain RGB is used by default.
#[derive(PartialEq, Eq, Debug, Clone, Copy)]
pub enum Encoding {
    /// Decodes tiles using the redFactor, blueFactor, greenFactor, baseShift parameters.
    Custom,
    /// Mapbox Terrain RGB tiles. See https://www.mapbox.com/help/access-elevation-data/#mapbox-terrain-rgb for more info.
    Mapbox,
    /// Terrarium format PNG tiles. See https://aws.amazon.com/es/public-datasets/terrain/ for more info.
    Terrarium,
}

impl Encoding {
    /// The name that stands for the value in a style document.
    pub open spec fn spec_name(self) -> Seq<char> {
        match self {
            Encoding::Custom => "custom"@,
            Encoding::Mapbox => "mapbox"@,
            Encoding::Terrarium => "terrarium"@,
        }
    }

    /// The name that stands for the value in a style document.
    pub fn name(&self) -> (r: &'static str)
        ensures
            r@ == self.spec_name(),
    {
        match self {
            Encoding::Custom => "custom",
            Encoding::Mapbox => "mapbox",
            Encoding::Terrarium => "terrarium",
        }
    }

    /// The value that a name stands for, if any.
    pub fn from_name(s: &str) -> (r: Option<Encoding>)
        ensures
            r matches Some(x) ==> x.spec_name() == s@,
            r is None ==> forall|x: Encoding| x.spec_name() != s@,
    {
        if str_eq(s, "custom") {
            Some(Encoding::Custom)
        } else if str_eq(s, "mapbox") {
            Some(Encoding::Mapbox)
        } else if str_eq(s, "terrarium") {
            Some(Encoding::Terrarium)
        } else {
            None
        }
    }
}

impl JsonDecode for Encoding {
    /// The name of a value, or an object whose one entry has the name as its key and `null`.
    open spec fn accepts(v: Json) -> bool {
        ||| (v is Str && exists|x: Encoding| x.spec_name() == v->Str_0)
        ||| (v is Object && v->Object_0.len() == 1 && v->Object_0[0].1 is Null && exists|x: Encoding| x.spec_name() == v->Object_0[0].0)
    }

    open spec fn decodes(v: Json, x: Self) -> bool {
        ||| v == Json::Str(x.spec_name())
        ||| (v is Object && v->Object_0.len() == 1 && v->Object_0[0] == (x.spec_name(), Json::Null))
    }

    open spec fn rejection(v: Json) -> Seq<char> {
        if v is Str {
            unknown_variant(v->Str_0) + ", expected one of `custom`, `mapbox`, `terrarium`"@
        } else if v is Object {
            let o = v->Object_0;
            if o.len() != 1 {
                "invalid value: map, expected map with a single key"@
            } else if !(exists|x: Encoding| x.spec_name() == o[0].0) {
                unknown_variant(o[0].0) + ", expected one of `custom`, `mapbox`, `terrarium`"@
            } else {
                type_error(o[0].1, "unit"@)
            }
        } else {
            type_error(v, "string or map"@)
        }
    }

    fn decode(v: &JsonValue) -> (r: Result<Self, String>) {
        match v {
            JsonValue::String(s) => match Self::from_name(s.as_str()) {
                Some(x) => Ok(x),
                None => {
                    let mut m = make_unknown_variant(s.as_str());
                    m.append(", expected one of `custom`, `mapbox`, `terrarium`");
                    Err(m)
                },
            },
            JsonValue::Object(fields) => {
                if fields.len() != 1 {
                    return Err("invalid value: map, expected map with a single key".to_string());
                }
                proof {
                    assert(entries_model(*fields)[0] == (fields@[0].0@, fields@[0].1.model()));
                }
                match Self::from_name(fields[0].0.as_str()) {
                    Some(x) => match &fields[0].1 {
                        JsonValue::Null => Ok(x),
                        _ => Err(make_type_error(&fields[0].1, "unit")),
                    },
                    None => {
                        let mut m = make_unknown_variant(fields[0].0.as_str());
                        m.append(", expected one of `custom`, `mapbox`, `terrarium`");
                        Err(m)
                    },
                }
            },
            _ => Err(make_type_error(v, "string or map")),
        }
    }
}

impl Default for Encoding {
    fn default() -> (r: Self)
        ensures
            r == Encoding::Mapbox,
    {
        Encoding::Mapbox
    }
}

/// Value that will be multiplied by the green channel value when decoding. Only used on custom encodings.
#[derive(PartialEq, Debug, Clone)]
pub struct Greenfactor(JsonNumber);

impl View for Greenfactor {
    type V = Seq<char>;

    closed spec fn view(&self) -> Seq<char> {
        self.0@
    }
}

impl JsonDecode for Greenfactor {
    open spec fn accepts(v: Json) -> bool {
        v is Number
    }

    open spec fn decodes(v: Json, x: Self) -> bool {
        v == Json::Number(x@)
    }

    open spec fn rejection(v: Json) -> Seq<char> {
        JsonNumber::rejection(v)
    }

    fn decode(v: &JsonValue) -> (r: Result<Self, String>) {
        match JsonNumber::decode(v) {
            Ok(x) => Ok(Greenfactor(x)),
            Err(e) => Err(e),
        }
    }
}

/// Value that will be multiplied by the red channel value when decoding. Only used on custom encodings.
#[derive(PartialEq, Debug, Clone)]
pub struct Redfactor(JsonNumber);

impl View for Redfactor {
    type V = Seq<char>;

    closed spec fn view(&self) -> Seq<char> {
        self.0@
    }
}

impl JsonDecode for Redfactor {
    open spec fn accepts(v: Json) -> bool {
        v is Number
    }

    open spec fn decodes(v: Json, x: Self) -> bool {
        v == Json::Number(x@)
    }

    open spec fn rejection(v: Json) -> Seq<char> {
        JsonNumber::rejection(v)
    }

    fn decode(v: &JsonValue) -> (r: Result<Self, String>) {
        match JsonNumber::decode(v) {
            Ok(x) => Ok(Redfactor(x)),
            Err(e) => Err(e),
        }
    }
}

/// URLs to video content in order of preferred format.
#[derive(PartialEq, Debug, Clone)]
pub struct Urls(JsonValue);

impl View for Urls {
    type V = Json;

    closed spec fn view(&self) -> Json {
        self.0.model()
    }
}

impl JsonDecode for Urls {
    open spec fn accepts(v: Json) -> bool {
        true
    }

    open spec fn decodes(v: Json, x: Self) -> bool {
        v == x@
    }

    open spec fn rejection(v: Json) -> Seq<char> {
        JsonValue::rejection(v)
    }

    fn decode(v: &JsonValue) -> (r: Result<Self, String>) {
        match JsonValue::decode(v) {
            Ok(x) => Ok(Urls(x)),
            Err(e) => Err(e),
        }
    }
}

/// The exaggeration of the terrain - how high it will look.
///
/// Range: 0..
#[derive(PartialEq, Debug, Clone)]
pub struct Exaggeration(JsonNumber);

impl View for Exaggeration {
    type V = Seq<char>;

    closed spec fn view(&self) -> Seq<char> {
        self.0@
    }
}

impl JsonDecode for Exaggeration {
    open spec fn accepts(v: Json) -> bool {
        v is Number
    }

    open spec fn decodes(v: Json, x: Self) -> bool {
        v == Json::Number(x@)
    }

    open spec fn rejection(v: Json) -> Seq<char> {
        JsonNumber::rejection(v)
    }

    fn decode(v: &JsonValue) -> (r: Result<Self, String>) {
        match JsonNumber::decode(v) {
            Ok(x) => Ok(Exaggeration(x)),
            Err(e) => Err(e),
        }
    }
}

#[derive(PartialEq, Debug, Clone)]
pub struct Transition {
    /// Length of time before a transition begins.
    pub delay: Delay,
    /// Time allotted for transitions to complete.
    pub duration: Duration,
}

impl JsonDecode for Transition {
    /// An object with the fields by their keys, or an array with the fields in order.
    open spec fn accepts(v: Json) -> bool {
        ||| (v is Object && {
            let o = v->Object_0;
            &&& req_field_accepts::<Delay>(o, "delay"@)
            &&& req_field_accepts::<Duration>(o, "duration"@)
        })
        ||| (v is Array && {
            let a = v->Array_0;
            &&& seq_req_accepts::<Delay>(a, 0)
            &&& seq_req_accepts::<Duration>(a, 1)
            &&& a.len() <= 2
        })
    }

    open spec fn decodes(v: Json, x: Self) -> bool {
        ||| (v is Object && {
            let o = v->Object_0;
            &&& req_field_decodes::<Delay>(o, "delay"@, x.delay)
            &&& req_field_decodes::<Duration>(o, "duration"@, x.duration)
        })
        ||| (v is Array && {
            let a = v->Array_0;
            &&& seq_req_decodes::<Delay>(a, 0, x.delay)
            &&& seq_req_decodes::<Duration>(a, 1, x.duration)
        })
    }

    /// For an object, the first entry in order whose value does not read as its field, else the
    /// first required field that is missing.
    open spec fn rejection(v: Json) -> Seq<char> {
        if v is Object {
            let o = v->Object_0;
            match Self::first_fault(o, 0) {
                Some(m) => m,
                None => if lookup(o, "delay"@) is None {
                    missing_field("delay"@)
                } else if lookup(o, "duration"@) is None {
                    missing_field("duration"@)
                } else {
                    Seq::empty()
                },
            }
        } else if v is Array {
            let a = v->Array_0;
            if !seq_req_accepts::<Delay>(a, 0) {
                seq_req_rejection::<Delay>(a, 0, "struct Transition with 2 elements"@)
            } else if !seq_req_accepts::<Duration>(a, 1) {
                seq_req_rejection::<Duration>(a, 1, "struct Transition with 2 elements"@)
            } else if a.len() > 2 {
                length_error(a.len())
            } else {
                Seq::empty()
            }
        } else {
            type_error(v, "struct Transition"@)
        }
    }

    fn decode(v: &JsonValue) -> (r: Result<Self, String>) {
        match v {
            JsonValue::Object(fields) => {
                let delay = match decode_req_field::<Delay>(fields, "delay") {
                    Ok(x) => x,
                    Err(_) => return Err(Self::object_rejection(fields)),
                };
                let duration = match decode_req_field::<Duration>(fields, "duration") {
                    Ok(x) => x,
                    Err(_) => return Err(Self::object_rejection(fields)),
                };
                Ok(Transition { delay, duration })
            },
            JsonValue::Array(a) => {
                let delay = match decode_seq_req::<Delay>(a, 0, "struct Transition with 2 elements") {
                    Ok(x) => x,
                    Err(e) => return Err(e),
                };
                let duration = match decode_seq_req::<Duration>(a, 1, "struct Transition with 2 elements") {
                    Ok(x) => x,
                    Err(e) => return Err(e),
                };
                if a.len() > 2 {
                    return Err(make_length_error(a.len()));
                }
                Ok(Transition { delay, duration })
            },
            _ => Err(make_type_error(v, "struct Transition")),
        }
    }
}

impl Transition {
    /// What is wrong with the value `w` of an entry with key `k`, where `k` is the key of a field.
    pub open spec fn field_fault(k: Seq<char>, w: Json) -> Option<Seq<char>> {
        if k == "delay"@ {
            if Delay::accepts(w) {
                None
            } else {
                Some(Delay::rejection(w))
            }
        } else if k == "duration"@ {
            if Duration::accepts(w) {
                None
            } else {
                Some(Duration::rejection(w))
            }
        } else {
            None
        }
    }

    /// The message of the first entry of `o`, from entry `i` on and among the first entries of
    /// their keys, whose value does not read as its field, if any.
    pub open spec fn first_fault(o: Seq<(Seq<char>, Json)>, i: int) -> Option<Seq<char>>
        decreases o.len() - i,
    {
        if i < 0 || i >= o.len() {
            None
        } else if first_with_key(o, i) && Self::field_fault(o[i].0, o[i].1) is Some {
            Self::field_fault(o[i].0, o[i].1)
        } else {
            Self::first_fault(o, i + 1)
        }
    }

    fn find_field_fault(k: &str, w: &JsonValue) -> (r: Option<String>)
        ensures
            match r {
                Some(m) => Self::field_fault(k@, w.model()) == Some(m@),
                None => Self::field_fault(k@, w.model()) is None,
            },
    {
        if str_eq(k, "delay") {
            match Delay::decode(w) {
                Ok(_) => None,
                Err(e) => Some(e),
            }
        } else if str_eq(k, "duration") {
            match Duration::decode(w) {
                Ok(_) => None,
                Err(e) => Some(e),
            }
        } else {
            None
        }
    }

    fn object_rejection(fields: &Vec<(String, JsonValue)>) -> (r: String)
        ensures
            r@ == Self::rejection(JsonValue::Object(*fields).model()),
    {
        let ghost o = entries_model(*fields);
        let mut i: usize = 0;
        while i < fields.len()
            invariant
                o == entries_model(*fields),
                o.len() == fields.len(),
                i <= fields.len(),
                Self::first_fault(o, 0) == Self::first_fault(o, i as int),
            decreases fields.len() - i,
        {
            proof {
                assert(o[i as int] == (fields@[i as int].0@, fields@[i as int].1.model()));
            }
            if !key_seen_before(fields, i) {
                match Self::find_field_fault(fields[i].0.as_str(), &fields[i].1) {
                    Some(m) => {
                        return m;
                    },
                    None => {},
                }
            }
            i += 1;
        }
        if get_field(fields, "delay").is_none() {
            return make_missing_field("delay");
        }
        if get_field(fields, "duration").is_none() {
            return make_missing_field("duration");
        }
        String::new()
    }
}

/// Length of time before a transition begins.
///
/// Range: 0..
#[derive(PartialEq, Debug, Clone)]
pub struct Delay(JsonNumber);

impl View for Delay {
    type V = Seq<char>;

    closed spec fn view(&self) -> Seq<char> {
        self.0@
    }
}

impl JsonDecode for Delay {
    open spec fn accepts(v: Json) -> bool {
        v is Number
    }

    open spec fn decodes(v: Json, x: Self) -> bool {
        v == Json::Number(x@)
    }

    open spec fn rejection(v: Json) -> Seq<char> {
        JsonNumber::rejection(v)
    }

    fn decode(v: &JsonValue) -> (r: Result<Self, String>) {
        match JsonNumber::decode(v) {
            Ok(x) => Ok(Delay(x)),
            Err(e) => Err(e),
        }
    }
}

impl JsonEncode for Delay {
    open spec fn to_json(self) -> Json {
        Json::Number(self@)
    }

    open spec fn round_trips(self) -> bool {
        true
    }

    fn encode(&self) -> (r: JsonValue) {
        JsonNumber::encode(&self.0)
    }

    proof fn lemma_round_trip(self) {
        JsonNumber::lemma_round_trip(self.0);
    }
}

impl Default for Delay {
    fn default() -> (r: Self)
        ensures
            r.to_json() == Json::Number("0"@),
    {
        let r = Delay(JsonNumber::from_literal("0"));
        r
    }
}

/// Time allotted for transitions to complete.
///
/// Range: 0..
#[derive(PartialEq, Debug, Clone)]
pub struct Duration(JsonNumber);

impl View for Duration {
    type V = Seq<char>;

    closed spec fn view(&self) -> Seq<char> {
        self.0@
    }
}

impl JsonDecode for Duration {
    open spec fn accepts(v: Json) -> bool {
        v is Number
    }

    open spec fn decodes(v: Json, x: Self) -> bool {
        v == Json::Number(x@)
    }

    open spec fn rejection(v: Json) -> Seq<char> {
        JsonNumber::rejection(v)
    }

    fn decode(v: &JsonValue) -> (r: Result<Self, String>) {
        match JsonNumber::decode(v) {
            Ok(x) => Ok(Duration(x)),
            Err(e) => Err(e),
        }
    }
}

impl JsonEncode for Duration {
    open spec fn to_json(self) -> Json {
        Json::Number(self@)
    }

    open spec fn round_trips(self) -> bool {
        true
    }

    fn encode(&self) -> (r: JsonValue) {
        JsonNumber::encode(&self.0)
    }

    proof fn lemma_round_trip(self) {
        JsonNumber::lemma_round_trip(self.0);
    }
}

impl Default for Duration {
    fn default() -> (r: Self)
        ensures
            r.to_json() == Json::Number("300"@),
    {
        let r = Duration(JsonNumber::from_literal("300"));
        r
    }
}

} // verus!
