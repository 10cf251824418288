use vstd::prelude::*;
use crate::json::{Json, JsonDecode, JsonEncode, JsonNumber, JsonValue, make_type_error, type_error};
use crate::spec::ExpressionName;

verus! {

/// An expression: an array whose first item is the name of an [`ExpressionName`] operator.
pub open spec fn is_expression(v: Json) -> bool {
    &&& v is Array
    &&& v->Array_0.len() > 0
    &&& v->Array_0[0] is Str
    &&& exists|n: ExpressionName| n.spec_name() == v->Array_0[0]->Str_0
}

/// Whether a document is an expression.
pub fn check_expression(v: &JsonValue) -> (r: bool)
    ensures
        r == is_expression(v.model()),
{
    match v {
        JsonValue::Array(a) => {
            if a.len() == 0 {
                return false;
            }
            proof {
                assert(v.model()->Array_0[0] == a@[0].model());
            }
            match &a[0] {
                JsonValue::String(s) => match ExpressionName::from_name(s.as_str()) {
                    Some(_) => true,
                    None => false,
                },
                _ => false,
            }
        },
        _ => false,
    }
}

/// A numeric expression, kept as the document it is written with: an array whose first item names an
/// expression operator.
#[derive(PartialEq, Debug, Clone)]
pub struct Number(JsonValue);

impl JsonDecode for Number {
    closed spec fn accepts(v: Json) -> bool {
        is_expression(v)
    }

    closed spec fn decodes(v: Json, x: Self) -> bool {
        x.0.model() == v
    }

    closed spec fn rejection(v: Json) -> Seq<char> {
        type_error(v, "an expression"@)
    }

    fn decode(v: &JsonValue) -> (r: Result<Self, String>) {
        if check_expression(v) {
            Ok(Number(v.duplicate()))
        } else {
            Err(make_type_error(v, "an expression"))
        }
    }
}

impl JsonEncode for Number {
    closed spec fn to_json(self) -> Json {
        self.0.model()
    }

    closed spec fn round_trips(self) -> bool {
        is_expression(self.0.model())
    }

    fn encode(&self) -> (r: JsonValue) {
        self.0.duplicate()
    }

    proof fn lemma_round_trip(self) {
    }
}

/// A color expression, kept as the document it is written with: an array whose first item names an
/// expression operator.
#[derive(PartialEq, Debug, Clone)]
pub struct Color(JsonValue);

impl JsonDecode for Color {
    closed spec fn accepts(v: Json) -> bool {
        is_expression(v)
    }

    closed spec fn decodes(v: Json, x: Self) -> bool {
        x.0.model() == v
    }

    closed spec fn rejection(v: Json) -> Seq<char> {
        type_error(v, "an expression"@)
    }

    fn decode(v: &JsonValue) -> (r: Result<Self, String>) {
        if check_expression(v) {
            Ok(Color(v.duplicate()))
        } else {
            Err(make_type_error(v, "an expression"))
        }
    }
}

impl JsonEncode for Color {
    closed spec fn to_json(self) -> Json {
        self.0.model()
    }

    closed spec fn round_trips(self) -> bool {
        is_expression(self.0.model())
    }

    fn encode(&self) -> (r: JsonValue) {
        self.0.duplicate()
    }

    proof fn lemma_round_trip(self) {
    }
}

/// An expression giving a color or an array of colors, kept as the document it is written with: an array whose first item names an
/// expression operator.
#[derive(PartialEq, Debug, Clone)]
pub struct ColorOrArrayOfColor(JsonValue);

impl JsonDecode for ColorOrArrayOfColor {
    closed spec fn accepts(v: Json) -> bool {
        is_expression(v)
    }

    closed spec fn decodes(v: Json, x: Self) -> bool {
        x.0.model() == v
    }

    closed spec fn rejection(v: Json) -> Seq<char> {
        type_error(v, "an expression"@)
    }

    fn decode(v: &JsonValue) -> (r: Result<Self, String>) {
        if check_expression(v) {
            Ok(ColorOrArrayOfColor(v.duplicate()))
        } else {
            Err(make_type_error(v, "an expression"))
        }
    }
}

impl JsonEncode for ColorOrArrayOfColor {
    closed spec fn to_json(self) -> Json {
        self.0.model()
    }

    closed spec fn round_trips(self) -> bool {
        is_expression(self.0.model())
    }

    fn encode(&self) -> (r: JsonValue) {
        self.0.duplicate()
    }

    proof fn lemma_round_trip(self) {
    }
}

/// An interpolation expression giving a number, a color, arrays of them, or a projection, kept as the document it is written with: an array whose first item names an
/// expression operator.
#[derive(PartialEq, Debug, Clone)]
pub struct NumberOrArrayOfNumberOrColorOrArrayOfColorOrProjection(JsonValue);

impl JsonDecode for NumberOrArrayOfNumberOrColorOrArrayOfColorOrProjection {
    closed spec fn accepts(v: Json) -> bool {
        is_expression(v)
    }

    closed spec fn decodes(v: Json, x: Self) -> bool {
        x.0.model() == v
    }

    closed spec fn rejection(v: Json) -> Seq<char> {
        type_error(v, "an expression"@)
    }

    fn decode(v: &JsonValue) -> (r: Result<Self, String>) {
        if check_expression(v) {
            Ok(NumberOrArrayOfNumberOrColorOrArrayOfColorOrProjection(v.duplicate()))
        } else {
            Err(make_type_error(v, "an expression"))
        }
    }
}

impl JsonEncode for NumberOrArrayOfNumberOrColorOrArrayOfColorOrProjection {
    closed spec fn to_json(self) -> Json {
        self.0.model()
    }

    closed spec fn round_trips(self) -> bool {
        is_expression(self.0.model())
    }

    fn encode(&self) -> (r: JsonValue) {
        self.0.duplicate()
    }

    proof fn lemma_round_trip(self) {
    }
}

/// Any document, kept as written.
#[derive(PartialEq, Debug, Clone)]
pub struct Any(JsonValue);

impl JsonDecode for Any {
    closed spec fn accepts(v: Json) -> bool {
        true
    }

    closed spec fn decodes(v: Json, x: Self) -> bool {
        x.0.model() == v
    }

    closed spec fn rejection(v: Json) -> Seq<char> {
        Seq::empty()
    }

    fn decode(v: &JsonValue) -> (r: Result<Self, String>) {
        Ok(Any(v.duplicate()))
    }
}

impl JsonEncode for Any {
    closed spec fn to_json(self) -> Json {
        self.0.model()
    }

    closed spec fn round_trips(self) -> bool {
        true
    }

    fn encode(&self) -> (r: JsonValue) {
        self.0.duplicate()
    }

    proof fn lemma_round_trip(self) {
    }
}

/// A number written as a literal.
#[derive(PartialEq, Debug, Clone)]
pub struct NumberLiteral(JsonNumber);

impl JsonDecode for NumberLiteral {
    closed spec fn accepts(v: Json) -> bool {
        v is Number
    }

    closed spec fn decodes(v: Json, x: Self) -> bool {
        v == Json::Number(x.0@)
    }

    closed spec fn rejection(v: Json) -> Seq<char> {
        type_error(v, "a JSON number"@)
    }

    fn decode(v: &JsonValue) -> (r: Result<Self, String>) {
        match v {
            JsonValue::Number(n) => Ok(NumberLiteral(n.duplicate())),
            _ => Err(make_type_error(v, "a JSON number")),
        }
    }
}

impl JsonEncode for NumberLiteral {
    closed spec fn to_json(self) -> Json {
        Json::Number(self.0@)
    }

    closed spec fn round_trips(self) -> bool {
        true
    }

    fn encode(&self) -> (r: JsonValue) {
        JsonValue::Number(self.0.duplicate())
    }

    proof fn lemma_round_trip(self) {
    }
}

} // verus!
