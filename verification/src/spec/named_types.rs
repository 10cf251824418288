#![allow(clippy::large_enum_variant)]
use vstd::prelude::*;
use crate::colors::{ColorValue, default_color};
use crate::json::{
    Json, JsonDecode, JsonEncode, JsonNumber, JsonValue, decode_opt_field, decode_req_field, entries_model, get_field, keyed_by, lookup, make_missing_field, missing_field,
    lemma_lookup_flatten, lemma_lookup_opt_entry, lemma_lookup_req_entry, make_type_error, make_unknown_variant,
    opt_entry, opt_field_accepts, opt_field_decodes, opt_field_rejection, others_differ, push_nul_entry, push_opt_entry, nul_entry, lemma_lookup_nul_entry,
    push_req_entry, req_entry, req_field_accepts, req_field_decodes, req_field_rejection, str_eq, type_error,
    unknown_variant, decode_seq_opt, decode_seq_req, seq_opt_accepts, seq_opt_decodes, seq_opt_rejection,
    seq_req_accepts, seq_req_decodes, seq_req_rejection, first_with_key, key_seen_before, items_model, length_error, make_length_error,
};
use crate::spec::expression::{Any, Color, ColorOrArrayOfColor, Number, NumberLiteral, NumberOrArrayOfNumberOrColorOrArrayOfColorOrProjection};

verus! {

/// A filter selects specific features from a layer.
#[derive(PartialEq, Debug, Clone, Copy)]
pub struct Filter(bool);

impl View for Filter {
    type V = bool;

    closed spec fn view(&self) -> bool {
        self.0
    }
}

impl JsonDecode for Filter {
    open spec fn accepts(v: Json) -> bool {
        v is Bool
    }

    open spec fn decodes(v: Json, x: Self) -> bool {
        v == Json::Bool(x@)
    }

    open spec fn rejection(v: Json) -> Seq<char> {
        bool::rejection(v)
    }

    fn decode(v: &JsonValue) -> (r: Result<Self, String>) {
        match bool::decode(v) {
            Ok(x) => Ok(Filter(x)),
            Err(e) => Err(e),
        }
    }
}

impl JsonEncode for Filter {
    open spec fn to_json(self) -> Json {
        Json::Bool(self@)
    }

    open spec fn round_trips(self) -> bool {
        true
    }

    fn encode(&self) -> (r: JsonValue) {
        bool::encode(&self.0)
    }

    proof fn lemma_round_trip(self) {
        bool::lemma_round_trip(self.0);
    }
}

#[derive(PartialEq, Debug, Clone)]
pub struct StyleFunction {
    /// The exponential base of the interpolation curve. It controls the rate at which the result increases. Higher values make the result increase more towards the high end of the range. With `1` the stops are interpolated linearly.
    ///
    /// Range: 0..
    pub base: Option<FunctionBase>,
    /// The color space in which colors interpolated. Interpolating colors in perceptual color spaces like LAB and HCL tend to produce color ramps that look more consistent and produce colors that can be differentiated more easily than those interpolated in RGB space.
    pub color_space: Option<FunctionColorSpace>,
    /// A value to serve as a fallback function result when a value isn't otherwise available. It is used in the following circumstances:
    ///
    /// * In categorical functions, when the feature value does not match any of the stop domain values.
    ///
    /// * In property and zoom-and-property functions, when a feature does not contain a value for the specified property.
    ///
    /// * In identity functions, when the feature value is not valid for the style property (for example, if the function is being used for a `circle-color` property but the feature property value is not a string or not a valid color).
    ///
    /// * In interval or exponential property and zoom-and-property functions, when the feature value is not numeric.
    ///
    /// If no default is provided, the style property's default is used in these circumstances.
    pub default: Option<FunctionDefault>,
    /// An expression.
    pub expression: Option<FunctionExpression>,
    /// The name of a feature property to use as the function input.
    pub property: Option<FunctionProperty>,
    /// An array of stops.
    pub stops: Option<FunctionStops>,
    /// The interpolation strategy to use in function evaluation.
    pub type_: Option<FunctionType>,
}

impl JsonDecode for StyleFunction {
    /// An object with the fields by their keys, or an array with the fields in order.
    open spec fn accepts(v: Json) -> bool {
        ||| (v is Object && {
            let o = v->Object_0;
            &&& opt_field_accepts::<FunctionBase>(o, "base"@)
            &&& opt_field_accepts::<FunctionColorSpace>(o, "colorSpace"@)
            &&& opt_field_accepts::<FunctionDefault>(o, "default"@)
            &&& opt_field_accepts::<FunctionExpression>(o, "expression"@)
            &&& opt_field_accepts::<FunctionProperty>(o, "property"@)
            &&& opt_field_accepts::<FunctionStops>(o, "stops"@)
            &&& opt_field_accepts::<FunctionType>(o, "type"@)
        })
        ||| (v is Array && {
            let a = v->Array_0;
            &&& seq_opt_accepts::<FunctionBase>(a, 0, false)
            &&& seq_opt_accepts::<FunctionColorSpace>(a, 1, false)
            &&& seq_opt_accepts::<FunctionDefault>(a, 2, false)
            &&& seq_opt_accepts::<FunctionExpression>(a, 3, false)
            &&& seq_opt_accepts::<FunctionProperty>(a, 4, false)
            &&& seq_opt_accepts::<FunctionStops>(a, 5, false)
            &&& seq_opt_accepts::<FunctionType>(a, 6, false)
            &&& a.len() <= 7
        })
    }

    open spec fn decodes(v: Json, x: Self) -> bool {
        ||| (v is Object && {
            let o = v->Object_0;
            &&& opt_field_decodes::<FunctionBase>(o, "base"@, x.base)
            &&& opt_field_decodes::<FunctionColorSpace>(o, "colorSpace"@, x.color_space)
            &&& opt_field_decodes::<FunctionDefault>(o, "default"@, x.default)
            &&& opt_field_decodes::<FunctionExpression>(o, "expression"@, x.expression)
            &&& opt_field_decodes::<FunctionProperty>(o, "property"@, x.property)
            &&& opt_field_decodes::<FunctionStops>(o, "stops"@, x.stops)
            &&& opt_field_decodes::<FunctionType>(o, "type"@, x.type_)
        })
        ||| (v is Array && {
            let a = v->Array_0;
            &&& seq_opt_decodes::<FunctionBase>(a, 0, x.base)
            &&& seq_opt_decodes::<FunctionColorSpace>(a, 1, x.color_space)
            &&& seq_opt_decodes::<FunctionDefault>(a, 2, x.default)
            &&& seq_opt_decodes::<FunctionExpression>(a, 3, x.expression)
            &&& seq_opt_decodes::<FunctionProperty>(a, 4, x.property)
            &&& seq_opt_decodes::<FunctionStops>(a, 5, x.stops)
            &&& seq_opt_decodes::<FunctionType>(a, 6, x.type_)
        })
    }

    /// For an object, the first entry in order whose value does not read as its field, else the
    /// first required field that is missing.
    open spec fn rejection(v: Json) -> Seq<char> {
        if v is Object {
            let o = v->Object_0;
            match Self::first_fault(o, 0) {
                Some(m) => m,
                None => {
                    Seq::empty()
                },
            }
        } else if v is Array {
            let a = v->Array_0;
            if !seq_opt_accepts::<FunctionBase>(a, 0, false) {
                seq_opt_rejection::<FunctionBase>(a, 0, "struct StyleFunction with 7 elements"@)
            } else if !seq_opt_accepts::<FunctionColorSpace>(a, 1, false) {
                seq_opt_rejection::<FunctionColorSpace>(a, 1, "struct StyleFunction with 7 elements"@)
            } else if !seq_opt_accepts::<FunctionDefault>(a, 2, false) {
                seq_opt_rejection::<FunctionDefault>(a, 2, "struct StyleFunction with 7 elements"@)
            } else if !seq_opt_accepts::<FunctionExpression>(a, 3, false) {
                seq_opt_rejection::<FunctionExpression>(a, 3, "struct StyleFunction with 7 elements"@)
            } else if !seq_opt_accepts::<FunctionProperty>(a, 4, false) {
                seq_opt_rejection::<FunctionProperty>(a, 4, "struct StyleFunction with 7 elements"@)
            } else if !seq_opt_accepts::<FunctionStops>(a, 5, false) {
                seq_opt_rejection::<FunctionStops>(a, 5, "struct StyleFunction with 7 elements"@)
            } else if !seq_opt_accepts::<FunctionType>(a, 6, false) {
                seq_opt_rejection::<FunctionType>(a, 6, "struct StyleFunction with 7 elements"@)
            } else if a.len() > 7 {
                length_error(a.len())
            } else {
                Seq::empty()
            }
        } else {
            type_error(v, "struct StyleFunction"@)
        }
    }

    fn decode(v: &JsonValue) -> (r: Result<Self, String>) {
        match v {
            JsonValue::Object(fields) => {
                let base = match decode_opt_field::<FunctionBase>(fields, "base") {
                    Ok(x) => x,
                    Err(_) => return Err(Self::object_rejection(fields)),
                };
                let color_space = match decode_opt_field::<FunctionColorSpace>(fields, "colorSpace") {
                    Ok(x) => x,
                    Err(_) => return Err(Self::object_rejection(fields)),
                };
                let default = match decode_opt_field::<FunctionDefault>(fields, "default") {
                    Ok(x) => x,
                    Err(_) => return Err(Self::object_rejection(fields)),
                };
                let expression = match decode_opt_field::<FunctionExpression>(fields, "expression") {
                    Ok(x) => x,
                    Err(_) => return Err(Self::object_rejection(fields)),
                };
                let property = match decode_opt_field::<FunctionProperty>(fields, "property") {
                    Ok(x) => x,
                    Err(_) => return Err(Self::object_rejection(fields)),
                };
                let stops = match decode_opt_field::<FunctionStops>(fields, "stops") {
                    Ok(x) => x,
                    Err(_) => return Err(Self::object_rejection(fields)),
                };
                let type_ = match decode_opt_field::<FunctionType>(fields, "type") {
                    Ok(x) => x,
                    Err(_) => return Err(Self::object_rejection(fields)),
                };
                Ok(StyleFunction { base, color_space, default, expression, property, stops, type_ })
            },
            JsonValue::Array(a) => {
                let base = match decode_seq_opt::<FunctionBase>(a, 0, false, "struct StyleFunction with 7 elements") {
                    Ok(x) => x,
                    Err(e) => return Err(e),
                };
                let color_space = match decode_seq_opt::<FunctionColorSpace>(a, 1, false, "struct StyleFunction with 7 elements") {
                    Ok(x) => x,
                    Err(e) => return Err(e),
                };
                let default = match decode_seq_opt::<FunctionDefault>(a, 2, false, "struct StyleFunction with 7 elements") {
                    Ok(x) => x,
                    Err(e) => return Err(e),
                };
                let expression = match decode_seq_opt::<FunctionExpression>(a, 3, false, "struct StyleFunction with 7 elements") {
                    Ok(x) => x,
                    Err(e) => return Err(e),
                };
                let property = match decode_seq_opt::<FunctionProperty>(a, 4, false, "struct StyleFunction with 7 elements") {
                    Ok(x) => x,
                    Err(e) => return Err(e),
                };
                let stops = match decode_seq_opt::<FunctionStops>(a, 5, false, "struct StyleFunction with 7 elements") {
                    Ok(x) => x,
                    Err(e) => return Err(e),
                };
                let type_ = match decode_seq_opt::<FunctionType>(a, 6, false, "struct StyleFunction with 7 elements") {
                    Ok(x) => x,
                    Err(e) => return Err(e),
                };
                if a.len() > 7 {
                    return Err(make_length_error(a.len()));
                }
                Ok(StyleFunction { base, color_space, default, expression, property, stops, type_ })
            },
            _ => Err(make_type_error(v, "struct StyleFunction")),
        }
    }
}

impl StyleFunction {
    /// What is wrong with the value `w` of an entry with key `k`, where `k` is the key of a field.
    pub open spec fn field_fault(k: Seq<char>, w: Json) -> Option<Seq<char>> {
        if k == "base"@ {
            if w is Null || FunctionBase::accepts(w) {
                None
            } else {
                Some(FunctionBase::rejection(w))
            }
        } else if k == "colorSpace"@ {
            if w is Null || FunctionColorSpace::accepts(w) {
                None
            } else {
                Some(FunctionColorSpace::rejection(w))
            }
        } else if k == "default"@ {
            if w is Null || FunctionDefault::accepts(w) {
                None
            } else {
                Some(FunctionDefault::rejection(w))
            }
        } else if k == "expression"@ {
            if w is Null || FunctionExpression::accepts(w) {
                None
            } else {
                Some(FunctionExpression::rejection(w))
            }
        } else if k == "property"@ {
            if w is Null || FunctionProperty::accepts(w) {
                None
            } else {
                Some(FunctionProperty::rejection(w))
            }
        } else if k == "stops"@ {
            if w is Null || FunctionStops::accepts(w) {
                None
            } else {
                Some(FunctionStops::rejection(w))
            }
        } else if k == "type"@ {
            if w is Null || FunctionType::accepts(w) {
                None
            } else {
                Some(FunctionType::rejection(w))
            }
        } else {
            None
        }
    }

    /// The message of the first entry of `o`, from entry `i` on and among the first entries of
    /// their keys, whose value does not read as its field, if any.
    pub open spec fn first_fault(o: Seq<(Seq<char>, Json)>, i: int) -> Option<Seq<char>>
        decreases o.len() - i,
    {
        if i < 0 || i >= o.len() {
            None
        } else if first_with_key(o, i) && Self::field_fault(o[i].0, o[i].1) is Some {
            Self::field_fault(o[i].0, o[i].1)
        } else {
            Self::first_fault(o, i + 1)
        }
    }

    fn find_field_fault(k: &str, w: &JsonValue) -> (r: Option<String>)
        ensures
            match r {
                Some(m) => Self::field_fault(k@, w.model()) == Some(m@),
                None => Self::field_fault(k@, w.model()) is None,
            },
    {
        if str_eq(k, "base") {
            match w {
                JsonValue::Null => None,
                _ => match FunctionBase::decode(w) {
                    Ok(_) => None,
                    Err(e) => Some(e),
                },
            }
        } else if str_eq(k, "colorSpace") {
            match w {
                JsonValue::Null => None,
                _ => match FunctionColorSpace::decode(w) {
                    Ok(_) => None,
                    Err(e) => Some(e),
                },
            }
        } else if str_eq(k, "default") {
            match w {
                JsonValue::Null => None,
                _ => match FunctionDefault::decode(w) {
                    Ok(_) => None,
                    Err(e) => Some(e),
                },
            }
        } else if str_eq(k, "expression") {
            match w {
                JsonValue::Null => None,
                _ => match FunctionExpression::decode(w) {
                    Ok(_) => None,
                    Err(e) => Some(e),
                },
            }
        } else if str_eq(k, "property") {
            match w {
                JsonValue::Null => None,
                _ => match FunctionProperty::decode(w) {
                    Ok(_) => None,
                    Err(e) => Some(e),
                },
            }
        } else if str_eq(k, "stops") {
            match w {
                JsonValue::Null => None,
                _ => match FunctionStops::decode(w) {
                    Ok(_) => None,
                    Err(e) => Some(e),
                },
            }
        } else if str_eq(k, "type") {
            match w {
                JsonValue::Null => None,
                _ => match FunctionType::decode(w) {
                    Ok(_) => None,
                    Err(e) => Some(e),
                },
            }
        } else {
            None
        }
    }

    fn object_rejection(fields: &Vec<(String, JsonValue)>) -> (r: String)
        ensures
            r@ == Self::rejection(JsonValue::Object(*fields).model()),
    {
        let ghost o = entries_model(*fields);
        let mut i: usize = 0;
        while i < fields.len()
            invariant
                o == entries_model(*fields),
                o.len() == fields.len(),
                i <= fields.len(),
                Self::first_fault(o, 0) == Self::first_fault(o, i as int),
            decreases fields.len() - i,
        {
            proof {
                assert(o[i as int] == (fields@[i as int].0@, fields@[i as int].1.model()));
            }
            if !key_seen_before(fields, i) {
                match Self::find_field_fault(fields[i].0.as_str(), &fields[i].1) {
                    Some(m) => {
                        return m;
                    },
                    None => {},
                }
            }
            i += 1;
        }
        String::new()
    }
}

impl StyleFunction {
    /// The keys of the fields, in order.
    pub open spec fn field_keys() -> Seq<Seq<char>> {
        seq!["base"@, "colorSpace"@, "default"@, "expression"@, "property"@, "stops"@, "type"@]
    }

    /// The entries that each field is written as, in order.
    pub open spec fn field_entries(self) -> Seq<Seq<(Seq<char>, Json)>> {
        seq![nul_entry::<FunctionBase>("base"@, self.base), nul_entry::<FunctionColorSpace>("colorSpace"@, self.color_space), nul_entry::<FunctionDefault>("default"@, self.default), nul_entry::<FunctionExpression>("expression"@, self.expression), nul_entry::<FunctionProperty>("property"@, self.property), nul_entry::<FunctionStops>("stops"@, self.stops), nul_entry::<FunctionType>("type"@, self.type_)]
    }

    proof fn lemma_keys_differ(i: int)
        requires
            0 <= i < 7,
        ensures
            others_differ(Self::field_keys(), i),
    {
        reveal_strlit("base");
        assert("base"@.len() == 4);
        reveal_strlit("colorSpace");
        assert("colorSpace"@.len() == 10);
        reveal_strlit("default");
        assert("default"@.len() == 7);
        reveal_strlit("expression");
        assert("expression"@.len() == 10);
        reveal_strlit("property");
        assert("property"@.len() == 8);
        reveal_strlit("stops");
        assert("stops"@.len() == 5);
        reveal_strlit("type");
        assert("type"@.len() == 4);
        assert("base"@[0] != "type"@[0]);
        assert("colorSpace"@[0] != "expression"@[0]);
    }
}

impl JsonEncode for StyleFunction {
    open spec fn to_json(self) -> Json {
        Json::Object(self.field_entries().flatten())
    }

    open spec fn round_trips(self) -> bool {
        &&& (self.base matches Some(t) ==> t.round_trips() && !(t.to_json() is Null))
        &&& (self.color_space matches Some(t) ==> t.round_trips() && !(t.to_json() is Null))
        &&& (self.default matches Some(t) ==> t.round_trips() && !(t.to_json() is Null))
        &&& (self.expression matches Some(t) ==> t.round_trips() && !(t.to_json() is Null))
        &&& (self.property matches Some(t) ==> t.round_trips() && !(t.to_json() is Null))
        &&& (self.stops matches Some(t) ==> t.round_trips() && !(t.to_json() is Null))
        &&& (self.type_ matches Some(t) ==> t.round_trips() && !(t.to_json() is Null))
    }

    fn encode(&self) -> (r: JsonValue) {
        let mut out: Vec<(String, JsonValue)> = Vec::new();
        let ghost s0 = Seq::<Seq<(Seq<char>, Json)>>::empty();
        proof {
            assert(entries_model(out) =~= s0.flatten());
        }
        push_nul_entry::<FunctionBase>(&mut out, "base", &self.base);
        let ghost s1 = s0.push(nul_entry::<FunctionBase>("base"@, self.base));
        proof {
            s0.lemma_flatten_push(nul_entry::<FunctionBase>("base"@, self.base));
            assert(entries_model(out) =~= s1.flatten());
        }
        push_nul_entry::<FunctionColorSpace>(&mut out, "colorSpace", &self.color_space);
        let ghost s2 = s1.push(nul_entry::<FunctionColorSpace>("colorSpace"@, self.color_space));
        proof {
            s1.lemma_flatten_push(nul_entry::<FunctionColorSpace>("colorSpace"@, self.color_space));
            assert(entries_model(out) =~= s2.flatten());
        }
        push_nul_entry::<FunctionDefault>(&mut out, "default", &self.default);
        let ghost s3 = s2.push(nul_entry::<FunctionDefault>("default"@, self.default));
        proof {
            s2.lemma_flatten_push(nul_entry::<FunctionDefault>("default"@, self.default));
            assert(entries_model(out) =~= s3.flatten());
        }
        push_nul_entry::<FunctionExpression>(&mut out, "expression", &self.expression);
        let ghost s4 = s3.push(nul_entry::<FunctionExpression>("expression"@, self.expression));
        proof {
            s3.lemma_flatten_push(nul_entry::<FunctionExpression>("expression"@, self.expression));
            assert(entries_model(out) =~= s4.flatten());
        }
        push_nul_entry::<FunctionProperty>(&mut out, "property", &self.property);
        let ghost s5 = s4.push(nul_entry::<FunctionProperty>("property"@, self.property));
        proof {
            s4.lemma_flatten_push(nul_entry::<FunctionProperty>("property"@, self.property));
            assert(entries_model(out) =~= s5.flatten());
        }
        push_nul_entry::<FunctionStops>(&mut out, "stops", &self.stops);
        let ghost s6 = s5.push(nul_entry::<FunctionStops>("stops"@, self.stops));
        proof {
            s5.lemma_flatten_push(nul_entry::<FunctionStops>("stops"@, self.stops));
            assert(entries_model(out) =~= s6.flatten());
        }
        push_nul_entry::<FunctionType>(&mut out, "type", &self.type_);
        let ghost s7 = s6.push(nul_entry::<FunctionType>("type"@, self.type_));
        proof {
            s6.lemma_flatten_push(nul_entry::<FunctionType>("type"@, self.type_));
            assert(entries_model(out) =~= s7.flatten());
        }
        proof {
            assert(self.field_entries() == s7);
        }
        JsonValue::Object(out)
    }

    proof fn lemma_round_trip(self) {
        let keys = Self::field_keys();
        let es = self.field_entries();
        assert(keyed_by(es, keys));
        Self::lemma_keys_differ(0);
        lemma_lookup_flatten(es, keys, 0);
        lemma_lookup_nul_entry::<FunctionBase>("base"@, self.base, "base"@);
        if self.base is Some {
            self.base->0.lemma_round_trip();
        }
        Self::lemma_keys_differ(1);
        lemma_lookup_flatten(es, keys, 1);
        lemma_lookup_nul_entry::<FunctionColorSpace>("colorSpace"@, self.color_space, "colorSpace"@);
        if self.color_space is Some {
            self.color_space->0.lemma_round_trip();
        }
        Self::lemma_keys_differ(2);
        lemma_lookup_flatten(es, keys, 2);
        lemma_lookup_nul_entry::<FunctionDefault>("default"@, self.default, "default"@);
        if self.default is Some {
            self.default->0.lemma_round_trip();
        }
        Self::lemma_keys_differ(3);
        lemma_lookup_flatten(es, keys, 3);
        lemma_lookup_nul_entry::<FunctionExpression>("expression"@, self.expression, "expression"@);
        if self.expression is Some {
            self.expression->0.lemma_round_trip();
        }
        Self::lemma_keys_differ(4);
        lemma_lookup_flatten(es, keys, 4);
        lemma_lookup_nul_entry::<FunctionProperty>("property"@, self.property, "property"@);
        if self.property is Some {
            self.property->0.lemma_round_trip();
        }
        Self::lemma_keys_differ(5);
        lemma_lookup_flatten(es, keys, 5);
        lemma_lookup_nul_entry::<FunctionStops>("stops"@, self.stops, "stops"@);
        if self.stops is Some {
            self.stops->0.lemma_round_trip();
        }
        Self::lemma_keys_differ(6);
        lemma_lookup_flatten(es, keys, 6);
        lemma_lookup_nul_entry::<FunctionType>("type"@, self.type_, "type"@);
        if self.type_ is Some {
            self.type_->0.lemma_round_trip();
        }
    }
}

/// The exponential base of the interpolation curve. It controls the rate at which the result increases. Higher values make the result increase more towards the high end of the range. With `1` the stops are interpolated linearly.
///
/// Range: 0..
#[derive(PartialEq, Debug, Clone)]
pub struct FunctionBase(JsonNumber);

impl View for FunctionBase {
    type V = Seq<char>;

    closed spec fn view(&self) -> Seq<char> {
        self.0@
    }
}

impl JsonDecode for FunctionBase {
    open spec fn accepts(v: Json) -> bool {
        v is Number
    }

    open spec fn decodes(v: Json, x: Self) -> bool {
        v == Json::Number(x@)
    }

    open spec fn rejection(v: Json) -> Seq<char> {
        JsonNumber::rejection(v)
    }

    fn decode(v: &JsonValue) -> (r: Result<Self, String>) {
        match JsonNumber::decode(v) {
            Ok(x) => Ok(FunctionBase(x)),
            Err(e) => Err(e),
        }
    }
}

impl JsonEncode for FunctionBase {
    open spec fn to_json(self) -> Json {
        Json::Number(self@)
    }

    open spec fn round_trips(self) -> bool {
        true
    }

    fn encode(&self) -> (r: JsonValue) {
        JsonNumber::encode(&self.0)
    }

    proof fn lemma_round_trip(self) {
        JsonNumber::lemma_round_trip(self.0);
    }
}

impl Default for FunctionBase {
    fn default() -> (r: Self)
        ensures
            r.to_json() == Json::Number("1"@),
    {
        let r = FunctionBase(JsonNumber::from_literal("1"));
        r
    }
}

/// The color space in which colors interpolated. Interpolating colors in perceptual color spaces like LAB and HCL tend to produce color ramps that look more consistent and produce colors that can be differentiated more easily than those interpolated in RGB space.
#[derive(PartialEq, Eq, Debug, Clone, Copy)]
pub enum FunctionColorSpace {
    /// Use the HCL color space to interpolate color values, interpolating the Hue, Chroma, and Luminance channels individually.
    Hcl,
    /// Use the LAB color space to interpolate color values.
    Lab,
    /// Use the RGB color space to interpolate color values
    Rgb,
}

impl FunctionColorSpace {
    /// The name that stands for the value in a style document.
    pub open spec fn spec_name(self) -> Seq<char> {
        match self {
            FunctionColorSpace::Hcl => "hcl"@,
            FunctionColorSpace::Lab => "lab"@,
            FunctionColorSpace::Rgb => "rgb"@,
        }
    }

    /// The name that stands for the value in a style document.
    pub fn name(&self) -> (r: &'static str)
        ensures
            r@ == self.spec_name(),
    {
        match self {
            FunctionColorSpace::Hcl => "hcl",
            FunctionColorSpace::Lab => "lab",
            FunctionColorSpace::Rgb => "rgb",
        }
    }

    /// The value that a name stands for, if any.
    pub fn from_name(s: &str) -> (r: Option<FunctionColorSpace>)
        ensures
            r matches Some(x) ==> x.spec_name() == s@,
            r is None ==> forall|x: FunctionColorSpace| x.spec_name() != s@,
    {
        if str_eq(s, "hcl") {
            Some(FunctionColorSpace::Hcl)
        } else if str_eq(s, "lab") {
            Some(FunctionColorSpace::Lab)
        } else if str_eq(s, "rgb") {
            Some(FunctionColorSpace::Rgb)
        } else {
            None
        }
    }
}

impl FunctionColorSpace {
    /// Each value is read from, and written as, the name that the style specification gives
    /// it, and a document holding one of these names reads as that value and no other.
    pub proof fn lemma_read_by_name()
        ensures
            forall|x: FunctionColorSpace| <FunctionColorSpace as JsonDecode>::decodes(Json::Str("rgb"@), x) <==> x == FunctionColorSpace::Rgb,
            <FunctionColorSpace as JsonEncode>::to_json(FunctionColorSpace::Hcl) == Json::Str("hcl"@),
            forall|x: FunctionColorSpace| <FunctionColorSpace as JsonDecode>::decodes(Json::Str("lab"@), x) <==> x == FunctionColorSpace::Lab,
            forall|x: FunctionColorSpace| <FunctionColorSpace as JsonDecode>::decodes(Json::Str("hcl"@), x) <==> x == FunctionColorSpace::Hcl,
            <FunctionColorSpace as JsonEncode>::to_json(FunctionColorSpace::Lab) == Json::Str("lab"@),
            <FunctionColorSpace as JsonEncode>::to_json(FunctionColorSpace::Rgb) == Json::Str("rgb"@),
    {
        reveal_strlit("hcl");
        reveal_strlit("rgb");
        reveal_strlit("lab");
        assert("hcl"@[0] != "lab"@[0]);
        assert("lab"@[0] != "rgb"@[0]);
        assert("hcl"@[0] != "rgb"@[0]);
    }
}

impl JsonDecode for FunctionColorSpace {
    /// The name of a value, or an object whose one entry has the name as its key and `null`.
    open spec fn accepts(v: Json) -> bool {
        ||| (v is Str && exists|x: FunctionColorSpace| x.spec_name() == v->Str_0)
        ||| (v is Object && v->Object_0.len() == 1 && v->Object_0[0].1 is Null && exists|x: FunctionColorSpace| x.spec_name() == v->Object_0[0].0)
    }

    open spec fn decodes(v: Json, x: Self) -> bool {
        ||| v == Json::Str(x.spec_name())
        ||| (v is Object && v->Object_0.len() == 1 && v->Object_0[0] == (x.spec_name(), Json::Null))
    }

    open spec fn rejection(v: Json) -> Seq<char> {
        if v is Str {
            unknown_variant(v->Str_0) + ", expected one of `hcl`, `lab`, `rgb`"@
        } else if v is Object {
            let o = v->Object_0;
            if o.len() != 1 {
                "invalid value: map, expected map with a single key"@
            } else if !(exists|x: FunctionColorSpace| x.spec_name() == o[0].0) {
                unknown_variant(o[0].0) + ", expected one of `hcl`, `lab`, `rgb`"@
            } else {
                type_error(o[0].1, "unit"@)
            }
        } else {
            type_error(v, "string or map"@)
        }
    }

    fn decode(v: &JsonValue) -> (r: Result<Self, String>) {
        match v {
            JsonValue::String(s) => match Self::from_name(s.as_str()) {
                Some(x) => Ok(x),
                None => {
                    let mut m = make_unknown_variant(s.as_str());
                    m.append(", expected one of `hcl`, `lab`, `rgb`");
                    Err(m)
                },
            },
            JsonValue::Object(fields) => {
                if fields.len() != 1 {
                    return Err("invalid value: map, expected map with a single key".to_string());
                }
                proof {
                    assert(entries_model(*fields)[0] == (fields@[0].0@, fields@[0].1.model()));
                }
                match Self::from_name(fields[0].0.as_str()) {
                    Some(x) => match &fields[0].1 {
                        JsonValue::Null => Ok(x),
                        _ => Err(make_type_error(&fields[0].1, "unit")),
                    },
                    None => {
                        let mut m = make_unknown_variant(fields[0].0.as_str());
                        m.append(", expected one of `hcl`, `lab`, `rgb`");
                        Err(m)
                    },
                }
            },
            _ => Err(make_type_error(v, "string or map")),
        }
    }
}

impl JsonEncode for FunctionColorSpace {
    open spec fn to_json(self) -> Json {
        Json::Str(self.spec_name())
    }

    open spec fn round_trips(self) -> bool {
        true
    }

    fn encode(&self) -> (r: JsonValue) {
        JsonValue::String(self.name().to_string())
    }

    proof fn lemma_round_trip(self) {
    }
}

impl Default for FunctionColorSpace {
    fn default() -> (r: Self)
        ensures
            r == FunctionColorSpace::Rgb,
    {
        FunctionColorSpace::Rgb
    }
}

/// A value to serve as a fallback function result when a value isn't otherwise available. It is used in the following circumstances:
///
/// * In categorical functions, when the feature value does not match any of the stop domain values.
///
/// * In property and zoom-and-property functions, when a feature does not contain a value for the specified property.
///
/// * In identity functions, when the feature value is not valid for the style property (for example, if the function is being used for a `circle-color` property but the feature property value is not a string or not a valid color).
///
/// * In interval or exponential property and zoom-and-property functions, when the feature value is not numeric.
///
/// If no default is provided, the style property's default is used in these circumstances.
#[derive(PartialEq, Debug, Clone)]
pub struct FunctionDefault(JsonValue);

impl View for FunctionDefault {
    type V = Json;

    closed spec fn view(&self) -> Json {
        self.0.model()
    }
}

impl JsonDecode for FunctionDefault {
    open spec fn accepts(v: Json) -> bool {
        true
    }

    open spec fn decodes(v: Json, x: Self) -> bool {
        v == x@
    }

    open spec fn rejection(v: Json) -> Seq<char> {
        JsonValue::rejection(v)
    }

    fn decode(v: &JsonValue) -> (r: Result<Self, String>) {
        match JsonValue::decode(v) {
            Ok(x) => Ok(FunctionDefault(x)),
            Err(e) => Err(e),
        }
    }
}

impl JsonEncode for FunctionDefault {
    open spec fn to_json(self) -> Json {
        self@
    }

    open spec fn round_trips(self) -> bool {
        true
    }

    fn encode(&self) -> (r: JsonValue) {
        JsonValue::encode(&self.0)
    }

    proof fn lemma_round_trip(self) {
        JsonValue::lemma_round_trip(self.0);
    }
}

/// An expression.
#[derive(PartialEq, Debug, Clone)]
pub struct FunctionExpression(Any);

impl JsonDecode for FunctionExpression {
    closed spec fn accepts(v: Json) -> bool {
        Any::accepts(v)
    }

    closed spec fn decodes(v: Json, x: Self) -> bool {
        Any::decodes(v, x.0)
    }

    closed spec fn rejection(v: Json) -> Seq<char> {
        Any::rejection(v)
    }

    fn decode(v: &JsonValue) -> (r: Result<Self, String>) {
        match Any::decode(v) {
            Ok(x) => Ok(FunctionExpression(x)),
            Err(e) => Err(e),
        }
    }
}

impl JsonEncode for FunctionExpression {
    closed spec fn to_json(self) -> Json {
        Any::to_json(self.0)
    }

    closed spec fn round_trips(self) -> bool {
        Any::round_trips(self.0)
    }

    fn encode(&self) -> (r: JsonValue) {
        Any::encode(&self.0)
    }

    proof fn lemma_round_trip(self) {
        Any::lemma_round_trip(self.0);
    }
}

/// The name of a feature property to use as the function input.
#[derive(PartialEq, Debug, Clone)]
pub struct FunctionProperty(String);

impl View for FunctionProperty {
    type V = Seq<char>;

    closed spec fn view(&self) -> Seq<char> {
        self.0@
    }
}

impl JsonDecode for FunctionProperty {
    open spec fn accepts(v: Json) -> bool {
        v is Str
    }

    open spec fn decodes(v: Json, x: Self) -> bool {
        v == Json::Str(x@)
    }

    open spec fn rejection(v: Json) -> Seq<char> {
        String::rejection(v)
    }

    fn decode(v: &JsonValue) -> (r: Result<Self, String>) {
        match String::decode(v) {
            Ok(x) => Ok(FunctionProperty(x)),
            Err(e) => Err(e),
        }
    }
}

impl JsonEncode for FunctionProperty {
    open spec fn to_json(self) -> Json {
        Json::Str(self@)
    }

    open spec fn round_trips(self) -> bool {
        true
    }

    fn encode(&self) -> (r: JsonValue) {
        String::encode(&self.0)
    }

    proof fn lemma_round_trip(self) {
        String::lemma_round_trip(self.0);
    }
}

impl Default for FunctionProperty {
    fn default() -> (r: Self)
        ensures
            r.to_json() == Json::Str("$zoom"@),
    {
        let r = FunctionProperty("$zoom".to_string());
        r
    }
}

/// An array of stops.
#[derive(PartialEq, Debug, Clone)]
pub struct FunctionStops(Vec<FunctionStop>);

impl JsonDecode for FunctionStops {
    closed spec fn accepts(v: Json) -> bool {
        <Vec<FunctionStop> as JsonDecode>::accepts(v)
    }

    closed spec fn decodes(v: Json, x: Self) -> bool {
        <Vec<FunctionStop> as JsonDecode>::decodes(v, x.0)
    }

    closed spec fn rejection(v: Json) -> Seq<char> {
        <Vec<FunctionStop> as JsonDecode>::rejection(v)
    }

    fn decode(v: &JsonValue) -> (r: Result<Self, String>) {
        match <Vec<FunctionStop> as JsonDecode>::decode(v) {
            Ok(x) => Ok(FunctionStops(x)),
            Err(e) => Err(e),
        }
    }
}

impl JsonEncode for FunctionStops {
    closed spec fn to_json(self) -> Json {
        <Vec<FunctionStop> as JsonEncode>::to_json(self.0)
    }

    closed spec fn round_trips(self) -> bool {
        <Vec<FunctionStop> as JsonEncode>::round_trips(self.0)
    }

    fn encode(&self) -> (r: JsonValue) {
        <Vec<FunctionStop> as JsonEncode>::encode(&self.0)
    }

    proof fn lemma_round_trip(self) {
        <Vec<FunctionStop> as JsonEncode>::lemma_round_trip(self.0);
    }
}

/// The interpolation strategy to use in function evaluation.
#[derive(PartialEq, Eq, Debug, Clone, Copy)]
pub enum FunctionType {
    /// Return the output value of the stop equal to the function input.
    Categorical,
    /// Generate an output by interpolating between stops just less than and just greater than the function input.
    Exponential,
    /// Return the input value as the output value.
    Identity,
    /// Return the output value of the stop just less than the function input.
    Interval,
}

impl FunctionType {
    /// The name that stands for the value in a style document.
    pub open spec fn spec_name(self) -> Seq<char> {
        match self {
            FunctionType::Categorical => "categorical"@,
            FunctionType::Exponential => "exponential"@,
            FunctionType::Identity => "identity"@,
            FunctionType::Interval => "interval"@,
        }
    }

    /// The name that stands for the value in a style document.
    pub fn name(&self) -> (r: &'static str)
        ensures
            r@ == self.spec_name(),
    {
        match self {
            FunctionType::Categorical => "categorical",
            FunctionType::Exponential => "exponential",
            FunctionType::Identity => "identity",
            FunctionType::Interval => "interval",
        }
    }

    /// The value that a name stands for, if any.
    pub fn from_name(s: &str) -> (r: Option<FunctionType>)
        ensures
            r matches Some(x) ==> x.spec_name() == s@,
            r is None ==> forall|x: FunctionType| x.spec_name() != s@,
    {
        if str_eq(s, "categorical") {
            Some(FunctionType::Categorical)
        } else if str_eq(s, "exponential") {
            Some(FunctionType::Exponential)
        } else if str_eq(s, "identity") {
            Some(FunctionType::Identity)
        } else if str_eq(s, "interval") {
            Some(FunctionType::Interval)
        } else {
            None
        }
    }
}

impl FunctionType {
    /// Each value is read from, and written as, the name that the style specification gives
    /// it, and a document holding one of these names reads as that value and no other.
    pub proof fn lemma_read_by_name()
        ensures
            forall|x: FunctionType| <FunctionType as JsonDecode>::decodes(Json::Str("identity"@), x) <==> x == FunctionType::Identity,
            <FunctionType as JsonEncode>::to_json(FunctionType::Categorical) == Json::Str("categorical"@),
            <FunctionType as JsonEncode>::to_json(FunctionType::Interval) == Json::Str("interval"@),
            forall|x: FunctionType| <FunctionType as JsonDecode>::decodes(Json::Str("categorical"@), x) <==> x == FunctionType::Categorical,
            <FunctionType as JsonEncode>::to_json(FunctionType::Exponential) == Json::Str("exponential"@),
            forall|x: FunctionType| <FunctionType as JsonDecode>::decodes(Json::Str("exponential"@), x) <==> x == FunctionType::Exponential,
            <FunctionType as JsonEncode>::to_json(FunctionType::Identity) == Json::Str("identity"@),
            forall|x: FunctionType| <FunctionType as JsonDecode>::decodes(Json::Str("interval"@), x) <==> x == FunctionType::Interval,
    {
        reveal_strlit("identity");
        reveal_strlit("categorical");
        reveal_strlit("interval");
        reveal_strlit("exponential");
        assert("categorical"@.len() != "identity"@.len());
        assert("identity"@[1] != "interval"@[1]);
        assert("exponential"@.len() != "identity"@.len());
        assert("categorical"@.len() != "interval"@.len());
        assert("exponential"@.len() != "interval"@.len());
        assert("categorical"@[0] != "exponential"@[0]);
    }
}

impl JsonDecode for FunctionType {
    /// The name of a value, or an object whose one entry has the name as its key and `null`.
    open spec fn accepts(v: Json) -> bool {
        ||| (v is Str && exists|x: FunctionType| x.spec_name() == v->Str_0)
        ||| (v is Object && v->Object_0.len() == 1 && v->Object_0[0].1 is Null && exists|x: FunctionType| x.spec_name() == v->Object_0[0].0)
    }

    open spec fn decodes(v: Json, x: Self) -> bool {
        ||| v == Json::Str(x.spec_name())
        ||| (v is Object && v->Object_0.len() == 1 && v->Object_0[0] == (x.spec_name(), Json::Null))
    }

    open spec fn rejection(v: Json) -> Seq<char> {
        if v is Str {
            unknown_variant(v->Str_0) + ", expected one of `categorical`, `exponential`, `identity`, `interval`"@
        } else if v is Object {
            let o = v->Object_0;
            if o.len() != 1 {
                "invalid value: map, expected map with a single key"@
            } else if !(exists|x: FunctionType| x.spec_name() == o[0].0) {
                unknown_variant(o[0].0) + ", expected one of `categorical`, `exponential`, `identity`, `interval`"@
            } else {
                type_error(o[0].1, "unit"@)
            }
        } else {
            type_error(v, "string or map"@)
        }
    }

    fn decode(v: &JsonValue) -> (r: Result<Self, String>) {
        match v {
            JsonValue::String(s) => match Self::from_name(s.as_str()) {
                Some(x) => Ok(x),
                None => {
                    let mut m = make_unknown_variant(s.as_str());
                    m.append(", expected one of `categorical`, `exponential`, `identity`, `interval`");
                    Err(m)
                },
            },
            JsonValue::Object(fields) => {
                if fields.len() != 1 {
                    return Err("invalid value: map, expected map with a single key".to_string());
                }
                proof {
                    assert(entries_model(*fields)[0] == (fields@[0].0@, fields@[0].1.model()));
                }
                match Self::from_name(fields[0].0.as_str()) {
                    Some(x) => match &fields[0].1 {
                        JsonValue::Null => Ok(x),
                        _ => Err(make_type_error(&fields[0].1, "unit")),
                    },
                    None => {
                        let mut m = make_unknown_variant(fields[0].0.as_str());
                        m.append(", expected one of `categorical`, `exponential`, `identity`, `interval`");
                        Err(m)
                    },
                }
            },
            _ => Err(make_type_error(v, "string or map")),
        }
    }
}

impl JsonEncode for FunctionType {
    open spec fn to_json(self) -> Json {
        Json::Str(self.spec_name())
    }

    open spec fn round_trips(self) -> bool {
        true
    }

    fn encode(&self) -> (r: JsonValue) {
        JsonValue::String(self.name().to_string())
    }

    proof fn lemma_round_trip(self) {
    }
}

impl Default for FunctionType {
    fn default() -> (r: Self)
        ensures
            r == FunctionType::Exponential,
    {
        FunctionType::Exponential
    }
}

/// FunctionStopValue Values
#[derive(PartialEq, Debug, Clone)]
pub enum FunctionStopValue {
    Zero(JsonNumber),
    One(ColorValue),
}

impl JsonDecode for FunctionStopValue {
    open spec fn accepts(v: Json) -> bool {
        JsonNumber::accepts(v) || ColorValue::accepts(v)
    }

    open spec fn decodes(v: Json, x: Self) -> bool {
        match x {
            FunctionStopValue::Zero(t) => JsonNumber::accepts(v) && JsonNumber::decodes(v, t),
            FunctionStopValue::One(t) => !JsonNumber::accepts(v) && ColorValue::accepts(v) && ColorValue::decodes(v, t),
        }
    }

    open spec fn rejection(v: Json) -> Seq<char> {
        "data did not match any variant of untagged enum FunctionStopValue"@
    }

    fn decode(v: &JsonValue) -> (r: Result<Self, String>) {
        let e0 = match JsonNumber::decode(v) {
            Ok(x) => {
                return Ok(FunctionStopValue::Zero(x));
            },
            Err(e) => e,
        };
        let e1 = match ColorValue::decode(v) {
            Ok(x) => {
                return Ok(FunctionStopValue::One(x));
            },
            Err(e) => e,
        };
        Err("data did not match any variant of untagged enum FunctionStopValue".to_string())
    }
}

impl JsonEncode for FunctionStopValue {
    open spec fn to_json(self) -> Json {
        match self {
            FunctionStopValue::Zero(t) => JsonNumber::to_json(t),
            FunctionStopValue::One(t) => ColorValue::to_json(t),
        }
    }

    open spec fn round_trips(self) -> bool {
        match self {
            FunctionStopValue::Zero(t) => JsonNumber::round_trips(t),
            FunctionStopValue::One(t) => ColorValue::round_trips(t) && !JsonNumber::accepts(ColorValue::to_json(t)),
        }
    }

    fn encode(&self) -> (r: JsonValue) {
        match self {
            FunctionStopValue::Zero(t) => JsonNumber::encode(t),
            FunctionStopValue::One(t) => ColorValue::encode(t),
        }
    }

    proof fn lemma_round_trip(self) {
        match self {
            FunctionStopValue::Zero(t) => JsonNumber::lemma_round_trip(t),
            FunctionStopValue::One(t) => ColorValue::lemma_round_trip(t),
        }
    }
}

/// Zoom level and value pair.
///
/// Range: 0..=24
#[derive(PartialEq, Debug, Clone)]
pub struct FunctionStop(Box<[FunctionStopValue; 2]>);

impl JsonDecode for FunctionStop {
    closed spec fn accepts(v: Json) -> bool {
        <[FunctionStopValue; 2] as JsonDecode>::accepts(v)
    }

    closed spec fn decodes(v: Json, x: Self) -> bool {
        <[FunctionStopValue; 2] as JsonDecode>::decodes(v, *x.0)
    }

    closed spec fn rejection(v: Json) -> Seq<char> {
        <[FunctionStopValue; 2] as JsonDecode>::rejection(v)
    }

    fn decode(v: &JsonValue) -> (r: Result<Self, String>) {
        match <[FunctionStopValue; 2] as JsonDecode>::decode(v) {
            Ok(x) => Ok(FunctionStop(Box::new(x))),
            Err(e) => Err(e),
        }
    }
}

impl JsonEncode for FunctionStop {
    closed spec fn to_json(self) -> Json {
        <[FunctionStopValue; 2] as JsonEncode>::to_json((*self.0))
    }

    closed spec fn round_trips(self) -> bool {
        <[FunctionStopValue; 2] as JsonEncode>::round_trips((*self.0))
    }

    fn encode(&self) -> (r: JsonValue) {
        <[FunctionStopValue; 2] as JsonEncode>::encode(&(*self.0))
    }

    proof fn lemma_round_trip(self) {
        <[FunctionStopValue; 2] as JsonEncode>::lemma_round_trip((*self.0));
    }
}

/// The geometry type for the filter to select.
#[derive(PartialEq, Eq, Debug, Clone, Copy)]
pub enum GeometryType {
    /// Filter to line geometries.
    LineString,
    /// Filter to point geometries.
    Point,
    /// Filter to polygon geometries.
    Polygon,
}

impl GeometryType {
    /// The name that stands for the value in a style document.
    pub open spec fn spec_name(self) -> Seq<char> {
        match self {
            GeometryType::LineString => "LineString"@,
            GeometryType::Point => "Point"@,
            GeometryType::Polygon => "Polygon"@,
        }
    }

    /// The name that stands for the value in a style document.
    pub fn name(&self) -> (r: &'static str)
        ensures
            r@ == self.spec_name(),
    {
        match self {
            GeometryType::LineString => "LineString",
            GeometryType::Point => "Point",
            GeometryType::Polygon => "Polygon",
        }
    }

    /// The value that a name stands for, if any.
    pub fn from_name(s: &str) -> (r: Option<GeometryType>)
        ensures
            r matches Some(x) ==> x.spec_name() == s@,
            r is None ==> forall|x: GeometryType| x.spec_name() != s@,
    {
        if str_eq(s, "LineString") {
            Some(GeometryType::LineString)
        } else if str_eq(s, "Point") {
            Some(GeometryType::Point)
        } else if str_eq(s, "Polygon") {
            Some(GeometryType::Polygon)
        } else {
            None
        }
    }
}

impl GeometryType {
    /// Each value is read from, and written as, the name that the style specification gives
    /// it, and a document holding one of these names reads as that value and no other.
    pub proof fn lemma_read_by_name()
        ensures
            <GeometryType as JsonEncode>::to_json(GeometryType::Polygon) == Json::Str("Polygon"@),
            forall|x: GeometryType| <GeometryType as JsonDecode>::decodes(Json::Str("Point"@), x) <==> x == GeometryType::Point,
            forall|x: GeometryType| <GeometryType as JsonDecode>::decodes(Json::Str("Polygon"@), x) <==> x == GeometryType::Polygon,
            <GeometryType as JsonEncode>::to_json(GeometryType::Point) == Json::Str("Point"@),
            forall|x: GeometryType| <GeometryType as JsonDecode>::decodes(Json::Str("LineString"@), x) <==> x == GeometryType::LineString,
            <GeometryType as JsonEncode>::to_json(GeometryType::LineString) == Json::Str("LineString"@),
    {
        reveal_strlit("Polygon");
        reveal_strlit("LineString");
        reveal_strlit("Point");
        assert("LineString"@.len() != "Point"@.len());
        assert("Point"@.len() != "Polygon"@.len());
        assert("LineString"@.len() != "Polygon"@.len());
    }
}

impl JsonDecode for GeometryType {
    /// The name of a value, or an object whose one entry has the name as its key and `null`.
    open spec fn accepts(v: Json) -> bool {
        ||| (v is Str && exists|x: GeometryType| x.spec_name() == v->Str_0)
        ||| (v is Object && v->Object_0.len() == 1 && v->Object_0[0].1 is Null && exists|x: GeometryType| x.spec_name() == v->Object_0[0].0)
    }

    open spec fn decodes(v: Json, x: Self) -> bool {
        ||| v == Json::Str(x.spec_name())
        ||| (v is Object && v->Object_0.len() == 1 && v->Object_0[0] == (x.spec_name(), Json::Null))
    }

    open spec fn rejection(v: Json) -> Seq<char> {
        if v is Str {
            unknown_variant(v->Str_0) + ", expected one of `LineString`, `Point`, `Polygon`"@
        } else if v is Object {
            let o = v->Object_0;
            if o.len() != 1 {
                "invalid value: map, expected map with a single key"@
            } else if !(exists|x: GeometryType| x.spec_name() == o[0].0) {
                unknown_variant(o[0].0) + ", expected one of `LineString`, `Point`, `Polygon`"@
            } else {
                type_error(o[0].1, "unit"@)
            }
        } else {
            type_error(v, "string or map"@)
        }
    }

    fn decode(v: &JsonValue) -> (r: Result<Self, String>) {
        match v {
            JsonValue::String(s) => match Self::from_name(s.as_str()) {
                Some(x) => Ok(x),
                None => {
                    let mut m = make_unknown_variant(s.as_str());
                    m.append(", expected one of `LineString`, `Point`, `Polygon`");
                    Err(m)
                },
            },
            JsonValue::Object(fields) => {
                if fields.len() != 1 {
                    return Err("invalid value: map, expected map with a single key".to_string());
                }
                proof {
                    assert(entries_model(*fields)[0] == (fields@[0].0@, fields@[0].1.model()));
                }
                match Self::from_name(fields[0].0.as_str()) {
                    Some(x) => match &fields[0].1 {
                        JsonValue::Null => Ok(x),
                        _ => Err(make_type_error(&fields[0].1, "unit")),
                    },
                    None => {
                        let mut m = make_unknown_variant(fields[0].0.as_str());
                        m.append(", expected one of `LineString`, `Point`, `Polygon`");
                        Err(m)
                    },
                }
            },
            _ => Err(make_type_error(v, "string or map")),
        }
    }
}

impl JsonEncode for GeometryType {
    open spec fn to_json(self) -> Json {
        Json::Str(self.spec_name())
    }

    open spec fn round_trips(self) -> bool {
        true
    }

    fn encode(&self) -> (r: JsonValue) {
        JsonValue::String(self.name().to_string())
    }

    proof fn lemma_round_trip(self) {
    }
}

/// An interpolation defines how to transition between items. The first element of an interpolation array is a string naming the interpolation operator, e.g. `"linear"` or `"exponential"`. Elements that follow (if any) are the _arguments_ to the interpolation.
///
/// Range: 1..
#[derive(PartialEq, Debug, Clone)]
pub struct Interpolation(InterpolationName);

impl JsonDecode for Interpolation {
    closed spec fn accepts(v: Json) -> bool {
        InterpolationName::accepts(v)
    }

    closed spec fn decodes(v: Json, x: Self) -> bool {
        InterpolationName::decodes(v, x.0)
    }

    closed spec fn rejection(v: Json) -> Seq<char> {
        InterpolationName::rejection(v)
    }

    fn decode(v: &JsonValue) -> (r: Result<Self, String>) {
        match InterpolationName::decode(v) {
            Ok(x) => Ok(Interpolation(x)),
            Err(e) => Err(e),
        }
    }
}

impl JsonEncode for Interpolation {
    closed spec fn to_json(self) -> Json {
        InterpolationName::to_json(self.0)
    }

    closed spec fn round_trips(self) -> bool {
        InterpolationName::round_trips(self.0)
    }

    fn encode(&self) -> (r: JsonValue) {
        InterpolationName::encode(&self.0)
    }

    proof fn lemma_round_trip(self) {
        InterpolationName::lemma_round_trip(self.0);
    }
}

#[derive(PartialEq, Debug, Clone)]
pub struct Light {
    /// Whether extruded geometries are lit relative to the map or viewport.
    pub anchor: Option<LightAnchor>,
    /// Color tint for lighting extruded geometries.
    pub color: Option<LightColor>,
    /// Intensity of lighting (on a scale from 0 to 1). Higher numbers will present as more extreme contrast.
    ///
    /// Range: 0..=1
    pub intensity: Option<LightIntensity>,
    /// Position of the light source relative to lit (extruded) geometries, in [r radial coordinate, a azimuthal angle, p polar angle] where r indicates the distance from the center of the base of an object to its light, a indicates the position of the light relative to 0° (0° when `light.anchor` is set to `viewport` corresponds to the top of the viewport, or 0° when `light.anchor` is set to `map` corresponds to due north, and degrees proceed clockwise), and p indicates the height of the light (from 0°, directly above, to 180°, directly below).
    pub position: Option<LightPosition>,
}

impl JsonDecode for Light {
    /// An object with the fields by their keys, or an array with the fields in order.
    open spec fn accepts(v: Json) -> bool {
        ||| (v is Object && {
            let o = v->Object_0;
            &&& opt_field_accepts::<LightAnchor>(o, "anchor"@)
            &&& opt_field_accepts::<LightColor>(o, "color"@)
            &&& opt_field_accepts::<LightIntensity>(o, "intensity"@)
            &&& opt_field_accepts::<LightPosition>(o, "position"@)
        })
        ||| (v is Array && {
            let a = v->Array_0;
            &&& seq_opt_accepts::<LightAnchor>(a, 0, false)
            &&& seq_opt_accepts::<LightColor>(a, 1, false)
            &&& seq_opt_accepts::<LightIntensity>(a, 2, false)
            &&& seq_opt_accepts::<LightPosition>(a, 3, false)
            &&& a.len() <= 4
        })
    }

    open spec fn decodes(v: Json, x: Self) -> bool {
        ||| (v is Object && {
            let o = v->Object_0;
            &&& opt_field_decodes::<LightAnchor>(o, "anchor"@, x.anchor)
            &&& opt_field_decodes::<LightColor>(o, "color"@, x.color)
            &&& opt_field_decodes::<LightIntensity>(o, "intensity"@, x.intensity)
            &&& opt_field_decodes::<LightPosition>(o, "position"@, x.position)
        })
        ||| (v is Array && {
            let a = v->Array_0;
            &&& seq_opt_decodes::<LightAnchor>(a, 0, x.anchor)
            &&& seq_opt_decodes::<LightColor>(a, 1, x.color)
            &&& seq_opt_decodes::<LightIntensity>(a, 2, x.intensity)
            &&& seq_opt_decodes::<LightPosition>(a, 3, x.position)
        })
    }

    /// For an object, the first entry in order whose value does not read as its field, else the
    /// first required field that is missing.
    open spec fn rejection(v: Json) -> Seq<char> {
        if v is Object {
            let o = v->Object_0;
            match Self::first_fault(o, 0) {
                Some(m) => m,
                None => {
                    Seq::empty()
                },
            }
        } else if v is Array {
            let a = v->Array_0;
            if !seq_opt_accepts::<LightAnchor>(a, 0, false) {
                seq_opt_rejection::<LightAnchor>(a, 0, "struct Light with 4 elements"@)
            } else if !seq_opt_accepts::<LightColor>(a, 1, false) {
                seq_opt_rejection::<LightColor>(a, 1, "struct Light with 4 elements"@)
            } else if !seq_opt_accepts::<LightIntensity>(a, 2, false) {
                seq_opt_rejection::<LightIntensity>(a, 2, "struct Light with 4 elements"@)
            } else if !seq_opt_accepts::<LightPosition>(a, 3, false) {
                seq_opt_rejection::<LightPosition>(a, 3, "struct Light with 4 elements"@)
            } else if a.len() > 4 {
                length_error(a.len())
            } else {
                Seq::empty()
            }
        } else {
            type_error(v, "struct Light"@)
        }
    }

    fn decode(v: &JsonValue) -> (r: Result<Self, String>) {
        match v {
            JsonValue::Object(fields) => {
                let anchor = match decode_opt_field::<LightAnchor>(fields, "anchor") {
                    Ok(x) => x,
                    Err(_) => return Err(Self::object_rejection(fields)),
                };
                let color = match decode_opt_field::<LightColor>(fields, "color") {
                    Ok(x) => x,
                    Err(_) => return Err(Self::object_rejection(fields)),
                };
                let intensity = match decode_opt_field::<LightIntensity>(fields, "intensity") {
                    Ok(x) => x,
                    Err(_) => return Err(Self::object_rejection(fields)),
                };
                let position = match decode_opt_field::<LightPosition>(fields, "position") {
                    Ok(x) => x,
                    Err(_) => return Err(Self::object_rejection(fields)),
                };
                Ok(Light { anchor, color, intensity, position })
            },
            JsonValue::Array(a) => {
                let anchor = match decode_seq_opt::<LightAnchor>(a, 0, false, "struct Light with 4 elements") {
                    Ok(x) => x,
                    Err(e) => return Err(e),
                };
                let color = match decode_seq_opt::<LightColor>(a, 1, false, "struct Light with 4 elements") {
                    Ok(x) => x,
                    Err(e) => return Err(e),
                };
                let intensity = match decode_seq_opt::<LightIntensity>(a, 2, false, "struct Light with 4 elements") {
                    Ok(x) => x,
                    Err(e) => return Err(e),
                };
                let position = match decode_seq_opt::<LightPosition>(a, 3, false, "struct Light with 4 elements") {
                    Ok(x) => x,
                    Err(e) => return Err(e),
                };
                if a.len() > 4 {
                    return Err(make_length_error(a.len()));
                }
                Ok(Light { anchor, color, intensity, position })
            },
            _ => Err(make_type_error(v, "struct Light")),
        }
    }
}

impl Light {
    /// What is wrong with the value `w` of an entry with key `k`, where `k` is the key of a field.
    pub open spec fn field_fault(k: Seq<char>, w: Json) -> Option<Seq<char>> {
        if k == "anchor"@ {
            if w is Null || LightAnchor::accepts(w) {
                None
            } else {
                Some(LightAnchor::rejection(w))
            }
        } else if k == "color"@ {
            if w is Null || LightColor::accepts(w) {
                None
            } else {
                Some(LightColor::rejection(w))
            }
        } else if k == "intensity"@ {
            if w is Null || LightIntensity::accepts(w) {
                None
            } else {
                Some(LightIntensity::rejection(w))
            }
        } else if k == "position"@ {
            if w is Null || LightPosition::accepts(w) {
                None
            } else {
                Some(LightPosition::rejection(w))
            }
        } else {
            None
        }
    }

    /// The message of the first entry of `o`, from entry `i` on and among the first entries of
    /// their keys, whose value does not read as its field, if any.
    pub open spec fn first_fault(o: Seq<(Seq<char>, Json)>, i: int) -> Option<Seq<char>>
        decreases o.len() - i,
    {
        if i < 0 || i >= o.len() {
            None
        } else if first_with_key(o, i) && Self::field_fault(o[i].0, o[i].1) is Some {
            Self::field_fault(o[i].0, o[i].1)
        } else {
            Self::first_fault(o, i + 1)
        }
    }

    fn find_field_fault(k: &str, w: &JsonValue) -> (r: Option<String>)
        ensures
            match r {
                Some(m) => Self::field_fault(k@, w.model()) == Some(m@),
                None => Self::field_fault(k@, w.model()) is None,
            },
    {
        if str_eq(k, "anchor") {
            match w {
                JsonValue::Null => None,
                _ => match LightAnchor::decode(w) {
                    Ok(_) => None,
                    Err(e) => Some(e),
                },
            }
        } else if str_eq(k, "color") {
            match w {
                JsonValue::Null => None,
                _ => match LightColor::decode(w) {
                    Ok(_) => None,
                    Err(e) => Some(e),
                },
            }
        } else if str_eq(k, "intensity") {
            match w {
                JsonValue::Null => None,
                _ => match LightIntensity::decode(w) {
                    Ok(_) => None,
                    Err(e) => Some(e),
                },
            }
        } else if str_eq(k, "position") {
            match w {
                JsonValue::Null => None,
                _ => match LightPosition::decode(w) {
                    Ok(_) => None,
                    Err(e) => Some(e),
                },
            }
        } else {
            None
        }
    }

    fn object_rejection(fields: &Vec<(String, JsonValue)>) -> (r: String)
        ensures
            r@ == Self::rejection(JsonValue::Object(*fields).model()),
    {
        let ghost o = entries_model(*fields);
        let mut i: usize = 0;
        while i < fields.len()
            invariant
                o == entries_model(*fields),
                o.len() == fields.len(),
                i <= fields.len(),
                Self::first_fault(o, 0) == Self::first_fault(o, i as int),
            decreases fields.len() - i,
        {
            proof {
                assert(o[i as int] == (fields@[i as int].0@, fields@[i as int].1.model()));
            }
            if !key_seen_before(fields, i) {
                match Self::find_field_fault(fields[i].0.as_str(), &fields[i].1) {
                    Some(m) => {
                        return m;
                    },
                    None => {},
                }
            }
            i += 1;
        }
        String::new()
    }
}

impl Light {
    /// The keys of the fields, in order.
    pub open spec fn field_keys() -> Seq<Seq<char>> {
        seq!["anchor"@, "color"@, "intensity"@, "position"@]
    }

    /// The entries that each field is written as, in order.
    pub open spec fn field_entries(self) -> Seq<Seq<(Seq<char>, Json)>> {
        seq![nul_entry::<LightAnchor>("anchor"@, self.anchor), nul_entry::<LightColor>("color"@, self.color), nul_entry::<LightIntensity>("intensity"@, self.intensity), nul_entry::<LightPosition>("position"@, self.position)]
    }

    proof fn lemma_keys_differ(i: int)
        requires
            0 <= i < 4,
        ensures
            others_differ(Self::field_keys(), i),
    {
        reveal_strlit("anchor");
        assert("anchor"@.len() == 6);
        reveal_strlit("color");
        assert("color"@.len() == 5);
        reveal_strlit("intensity");
        assert("intensity"@.len() == 9);
        reveal_strlit("position");
        assert("position"@.len() == 8);
    }
}

impl JsonEncode for Light {
    open spec fn to_json(self) -> Json {
        Json::Object(self.field_entries().flatten())
    }

    open spec fn round_trips(self) -> bool {
        &&& (self.anchor matches Some(t) ==> t.round_trips() && !(t.to_json() is Null))
        &&& (self.color matches Some(t) ==> t.round_trips() && !(t.to_json() is Null))
        &&& (self.intensity matches Some(t) ==> t.round_trips() && !(t.to_json() is Null))
        &&& (self.position matches Some(t) ==> t.round_trips() && !(t.to_json() is Null))
    }

    fn encode(&self) -> (r: JsonValue) {
        let mut out: Vec<(String, JsonValue)> = Vec::new();
        let ghost s0 = Seq::<Seq<(Seq<char>, Json)>>::empty();
        proof {
            assert(entries_model(out) =~= s0.flatten());
        }
        push_nul_entry::<LightAnchor>(&mut out, "anchor", &self.anchor);
        let ghost s1 = s0.push(nul_entry::<LightAnchor>("anchor"@, self.anchor));
        proof {
            s0.lemma_flatten_push(nul_entry::<LightAnchor>("anchor"@, self.anchor));
            assert(entries_model(out) =~= s1.flatten());
        }
        push_nul_entry::<LightColor>(&mut out, "color", &self.color);
        let ghost s2 = s1.push(nul_entry::<LightColor>("color"@, self.color));
        proof {
            s1.lemma_flatten_push(nul_entry::<LightColor>("color"@, self.color));
            assert(entries_model(out) =~= s2.flatten());
        }
        push_nul_entry::<LightIntensity>(&mut out, "intensity", &self.intensity);
        let ghost s3 = s2.push(nul_entry::<LightIntensity>("intensity"@, self.intensity));
        proof {
            s2.lemma_flatten_push(nul_entry::<LightIntensity>("intensity"@, self.intensity));
            assert(entries_model(out) =~= s3.flatten());
        }
        push_nul_entry::<LightPosition>(&mut out, "position", &self.position);
        let ghost s4 = s3.push(nul_entry::<LightPosition>("position"@, self.position));
        proof {
            s3.lemma_flatten_push(nul_entry::<LightPosition>("position"@, self.position));
            assert(entries_model(out) =~= s4.flatten());
        }
        proof {
            assert(self.field_entries() == s4);
        }
        JsonValue::Object(out)
    }

    proof fn lemma_round_trip(self) {
        let keys = Self::field_keys();
        let es = self.field_entries();
        assert(keyed_by(es, keys));
        Self::lemma_keys_differ(0);
        lemma_lookup_flatten(es, keys, 0);
        lemma_lookup_nul_entry::<LightAnchor>("anchor"@, self.anchor, "anchor"@);
        if self.anchor is Some {
            self.anchor->0.lemma_round_trip();
        }
        Self::lemma_keys_differ(1);
        lemma_lookup_flatten(es, keys, 1);
        lemma_lookup_nul_entry::<LightColor>("color"@, self.color, "color"@);
        if self.color is Some {
            self.color->0.lemma_round_trip();
        }
        Self::lemma_keys_differ(2);
        lemma_lookup_flatten(es, keys, 2);
        lemma_lookup_nul_entry::<LightIntensity>("intensity"@, self.intensity, "intensity"@);
        if self.intensity is Some {
            self.intensity->0.lemma_round_trip();
        }
        Self::lemma_keys_differ(3);
        lemma_lookup_flatten(es, keys, 3);
        lemma_lookup_nul_entry::<LightPosition>("position"@, self.position, "position"@);
        if self.position is Some {
            self.position->0.lemma_round_trip();
        }
    }
}

/// Whether extruded geometries are lit relative to the map or viewport.
#[derive(PartialEq, Eq, Debug, Clone, Copy)]
pub enum LightAnchor {
    /// The position of the light source is aligned to the rotation of the map.
    MapValue,
    /// The position of the light source is aligned to the rotation of the viewport.
    Viewport,
}

impl LightAnchor {
    /// The name that stands for the value in a style document.
    pub open spec fn spec_name(self) -> Seq<char> {
        match self {
            LightAnchor::MapValue => "map"@,
            LightAnchor::Viewport => "viewport"@,
        }
    }

    /// The name that stands for the value in a style document.
    pub fn name(&self) -> (r: &'static str)
        ensures
            r@ == self.spec_name(),
    {
        match self {
            LightAnchor::MapValue => "map",
            LightAnchor::Viewport => "viewport",
        }
    }

    /// The value that a name stands for, if any.
    pub fn from_name(s: &str) -> (r: Option<LightAnchor>)
        ensures
            r matches Some(x) ==> x.spec_name() == s@,
            r is None ==> forall|x: LightAnchor| x.spec_name() != s@,
    {
        if str_eq(s, "map") {
            Some(LightAnchor::MapValue)
        } else if str_eq(s, "viewport") {
            Some(LightAnchor::Viewport)
        } else {
            None
        }
    }
}

impl LightAnchor {
    /// Each value is read from, and written as, the name that the style specification gives
    /// it, and a document holding one of these names reads as that value and no other.
    pub proof fn lemma_read_by_name()
        ensures
            forall|x: LightAnchor| <LightAnchor as JsonDecode>::decodes(Json::Str("viewport"@), x) <==> x == LightAnchor::Viewport,
            <LightAnchor as JsonEncode>::to_json(LightAnchor::Viewport) == Json::Str("viewport"@),
            forall|x: LightAnchor| <LightAnchor as JsonDecode>::decodes(Json::Str("map"@), x) <==> x == LightAnchor::MapValue,
            <LightAnchor as JsonEncode>::to_json(LightAnchor::MapValue) == Json::Str("map"@),
    {
        reveal_strlit("viewport");
        reveal_strlit("map");
        assert("map"@.len() != "viewport"@.len());
    }
}

impl JsonDecode for LightAnchor {
    /// The name of a value, or an object whose one entry has the name as its key and `null`.
    open spec fn accepts(v: Json) -> bool {
        ||| (v is Str && exists|x: LightAnchor| x.spec_name() == v->Str_0)
        ||| (v is Object && v->Object_0.len() == 1 && v->Object_0[0].1 is Null && exists|x: LightAnchor| x.spec_name() == v->Object_0[0].0)
    }

    open spec fn decodes(v: Json, x: Self) -> bool {
        ||| v == Json::Str(x.spec_name())
        ||| (v is Object && v->Object_0.len() == 1 && v->Object_0[0] == (x.spec_name(), Json::Null))
    }

    open spec fn rejection(v: Json) -> Seq<char> {
        if v is Str {
            unknown_variant(v->Str_0) + ", expected `map` or `viewport`"@
        } else if v is Object {
            let o = v->Object_0;
            if o.len() != 1 {
                "invalid value: map, expected map with a single key"@
            } else if !(exists|x: LightAnchor| x.spec_name() == o[0].0) {
                unknown_variant(o[0].0) + ", expected `map` or `viewport`"@
            } else {
                type_error(o[0].1, "unit"@)
            }
        } else {
            type_error(v, "string or map"@)
        }
    }

    fn decode(v: &JsonValue) -> (r: Result<Self, String>) {
        match v {
            JsonValue::String(s) => match Self::from_name(s.as_str()) {
                Some(x) => Ok(x),
                None => {
                    let mut m = make_unknown_variant(s.as_str());
                    m.append(", expected `map` or `viewport`");
                    Err(m)
                },
            },
            JsonValue::Object(fields) => {
                if fields.len() != 1 {
                    return Err("invalid value: map, expected map with a single key".to_string());
                }
                proof {
                    assert(entries_model(*fields)[0] == (fields@[0].0@, fields@[0].1.model()));
                }
                match Self::from_name(fields[0].0.as_str()) {
                    Some(x) => match &fields[0].1 {
                        JsonValue::Null => Ok(x),
                        _ => Err(make_type_error(&fields[0].1, "unit")),
                    },
                    None => {
                        let mut m = make_unknown_variant(fields[0].0.as_str());
                        m.append(", expected `map` or `viewport`");
                        Err(m)
                    },
                }
            },
            _ => Err(make_type_error(v, "string or map")),
        }
    }
}

impl JsonEncode for LightAnchor {
    open spec fn to_json(self) -> Json {
        Json::Str(self.spec_name())
    }

    open spec fn round_trips(self) -> bool {
        true
    }

    fn encode(&self) -> (r: JsonValue) {
        JsonValue::String(self.name().to_string())
    }

    proof fn lemma_round_trip(self) {
    }
}

impl Default for LightAnchor {
    fn default() -> (r: Self)
        ensures
            r == LightAnchor::Viewport,
    {
        LightAnchor::Viewport
    }
}

/// Nested expression: ramp (`interpolate-hcl`, …) or [`Color`] operators.
#[derive(PartialEq, Debug, Clone)]
pub enum LightColorExpression {
    Color(Color),
    Ramp(ColorOrArrayOfColor),
}

impl JsonDecode for LightColorExpression {
    open spec fn accepts(v: Json) -> bool {
        Color::accepts(v) || ColorOrArrayOfColor::accepts(v)
    }

    open spec fn decodes(v: Json, x: Self) -> bool {
        match x {
            LightColorExpression::Color(t) => Color::accepts(v) && Color::decodes(v, t),
            LightColorExpression::Ramp(t) => !Color::accepts(v) && ColorOrArrayOfColor::accepts(v) && ColorOrArrayOfColor::decodes(v, t),
        }
    }

    open spec fn rejection(v: Json) -> Seq<char> {
        "data did not match any variant of untagged enum LightColorExpression"@
    }

    fn decode(v: &JsonValue) -> (r: Result<Self, String>) {
        let e0 = match Color::decode(v) {
            Ok(x) => {
                return Ok(LightColorExpression::Color(x));
            },
            Err(e) => e,
        };
        let e1 = match ColorOrArrayOfColor::decode(v) {
            Ok(x) => {
                return Ok(LightColorExpression::Ramp(x));
            },
            Err(e) => e,
        };
        Err("data did not match any variant of untagged enum LightColorExpression".to_string())
    }
}

impl JsonEncode for LightColorExpression {
    open spec fn to_json(self) -> Json {
        match self {
            LightColorExpression::Color(t) => Color::to_json(t),
            LightColorExpression::Ramp(t) => ColorOrArrayOfColor::to_json(t),
        }
    }

    open spec fn round_trips(self) -> bool {
        match self {
            LightColorExpression::Color(t) => Color::round_trips(t),
            LightColorExpression::Ramp(t) => ColorOrArrayOfColor::round_trips(t) && !Color::accepts(ColorOrArrayOfColor::to_json(t)),
        }
    }

    fn encode(&self) -> (r: JsonValue) {
        match self {
            LightColorExpression::Color(t) => Color::encode(t),
            LightColorExpression::Ramp(t) => ColorOrArrayOfColor::encode(t),
        }
    }

    proof fn lemma_round_trip(self) {
        match self {
            LightColorExpression::Color(t) => Color::lemma_round_trip(t),
            LightColorExpression::Ramp(t) => ColorOrArrayOfColor::lemma_round_trip(t),
        }
    }
}

/// Color tint for lighting extruded geometries.
#[derive(PartialEq, Debug, Clone)]
pub enum LightColor {
    Expr(Box<LightColorExpression>),
    Literal(JsonValue),
}

impl JsonDecode for LightColor {
    open spec fn accepts(v: Json) -> bool {
        LightColorExpression::accepts(v) || JsonValue::accepts(v)
    }

    open spec fn decodes(v: Json, x: Self) -> bool {
        match x {
            LightColor::Expr(t) => LightColorExpression::accepts(v) && LightColorExpression::decodes(v, *t),
            LightColor::Literal(t) => !LightColorExpression::accepts(v) && JsonValue::accepts(v) && JsonValue::decodes(v, t),
        }
    }

    open spec fn rejection(v: Json) -> Seq<char> {
        "data did not match any variant of untagged enum LightColor"@
    }

    fn decode(v: &JsonValue) -> (r: Result<Self, String>) {
        let e0 = match LightColorExpression::decode(v) {
            Ok(x) => {
                return Ok(LightColor::Expr(Box::new(x)));
            },
            Err(e) => e,
        };
        let e1 = match JsonValue::decode(v) {
            Ok(x) => {
                return Ok(LightColor::Literal(x));
            },
            Err(e) => e,
        };
        Err("data did not match any variant of untagged enum LightColor".to_string())
    }
}

impl JsonEncode for LightColor {
    open spec fn to_json(self) -> Json {
        match self {
            LightColor::Expr(t) => LightColorExpression::to_json(*t),
            LightColor::Literal(t) => JsonValue::to_json(t),
        }
    }

    open spec fn round_trips(self) -> bool {
        match self {
            LightColor::Expr(t) => LightColorExpression::round_trips(*t),
            LightColor::Literal(t) => JsonValue::round_trips(t) && !LightColorExpression::accepts(JsonValue::to_json(t)),
        }
    }

    fn encode(&self) -> (r: JsonValue) {
        match self {
            LightColor::Expr(t) => LightColorExpression::encode(&**t),
            LightColor::Literal(t) => JsonValue::encode(t),
        }
    }

    proof fn lemma_round_trip(self) {
        match self {
            LightColor::Expr(t) => LightColorExpression::lemma_round_trip(*t),
            LightColor::Literal(t) => JsonValue::lemma_round_trip(t),
        }
    }
}

impl Default for LightColor {
    fn default() -> (r: Self)
        ensures
            r.to_json() == Json::Str("#ffffff"@),
            r is Literal,
    {
        let r = LightColor::Literal(JsonValue::String("#ffffff".to_string()));
        r
    }
}

/// Nested expression: ramp (`interpolate` / …) or regular [`Number`] operators.
#[derive(PartialEq, Debug, Clone)]
pub enum LightIntensityExpression {
    Number(Number),
    Ramp(NumberOrArrayOfNumberOrColorOrArrayOfColorOrProjection),
}

impl JsonDecode for LightIntensityExpression {
    open spec fn accepts(v: Json) -> bool {
        Number::accepts(v) || NumberOrArrayOfNumberOrColorOrArrayOfColorOrProjection::accepts(v)
    }

    open spec fn decodes(v: Json, x: Self) -> bool {
        match x {
            LightIntensityExpression::Number(t) => Number::accepts(v) && Number::decodes(v, t),
            LightIntensityExpression::Ramp(t) => !Number::accepts(v) && NumberOrArrayOfNumberOrColorOrArrayOfColorOrProjection::accepts(v) && NumberOrArrayOfNumberOrColorOrArrayOfColorOrProjection::decodes(v, t),
        }
    }

    open spec fn rejection(v: Json) -> Seq<char> {
        "data did not match any variant of untagged enum LightIntensityExpression"@
    }

    fn decode(v: &JsonValue) -> (r: Result<Self, String>) {
        let e0 = match Number::decode(v) {
            Ok(x) => {
                return Ok(LightIntensityExpression::Number(x));
            },
            Err(e) => e,
        };
        let e1 = match NumberOrArrayOfNumberOrColorOrArrayOfColorOrProjection::decode(v) {
            Ok(x) => {
                return Ok(LightIntensityExpression::Ramp(x));
            },
            Err(e) => e,
        };
        Err("data did not match any variant of untagged enum LightIntensityExpression".to_string())
    }
}

impl JsonEncode for LightIntensityExpression {
    open spec fn to_json(self) -> Json {
        match self {
            LightIntensityExpression::Number(t) => Number::to_json(t),
            LightIntensityExpression::Ramp(t) => NumberOrArrayOfNumberOrColorOrArrayOfColorOrProjection::to_json(t),
        }
    }

    open spec fn round_trips(self) -> bool {
        match self {
            LightIntensityExpression::Number(t) => Number::round_trips(t),
            LightIntensityExpression::Ramp(t) => NumberOrArrayOfNumberOrColorOrArrayOfColorOrProjection::round_trips(t) && !Number::accepts(NumberOrArrayOfNumberOrColorOrArrayOfColorOrProjection::to_json(t)),
        }
    }

    fn encode(&self) -> (r: JsonValue) {
        match self {
            LightIntensityExpression::Number(t) => Number::encode(t),
            LightIntensityExpression::Ramp(t) => NumberOrArrayOfNumberOrColorOrArrayOfColorOrProjection::encode(t),
        }
    }

    proof fn lemma_round_trip(self) {
        match self {
            LightIntensityExpression::Number(t) => Number::lemma_round_trip(t),
            LightIntensityExpression::Ramp(t) => NumberOrArrayOfNumberOrColorOrArrayOfColorOrProjection::lemma_round_trip(t),
        }
    }
}

/// Intensity of lighting (on a scale from 0 to 1). Higher numbers will present as more extreme contrast.
///
/// Range: 0..=1
#[derive(PartialEq, Debug, Clone)]
pub enum LightIntensity {
    Expr(Box<LightIntensityExpression>),
    Literal(JsonNumber),
}

impl JsonDecode for LightIntensity {
    open spec fn accepts(v: Json) -> bool {
        LightIntensityExpression::accepts(v) || JsonNumber::accepts(v)
    }

    open spec fn decodes(v: Json, x: Self) -> bool {
        match x {
            LightIntensity::Expr(t) => LightIntensityExpression::accepts(v) && LightIntensityExpression::decodes(v, *t),
            LightIntensity::Literal(t) => !LightIntensityExpression::accepts(v) && JsonNumber::accepts(v) && JsonNumber::decodes(v, t),
        }
    }

    open spec fn rejection(v: Json) -> Seq<char> {
        "data did not match any variant of untagged enum LightIntensity"@
    }

    fn decode(v: &JsonValue) -> (r: Result<Self, String>) {
        let e0 = match LightIntensityExpression::decode(v) {
            Ok(x) => {
                return Ok(LightIntensity::Expr(Box::new(x)));
            },
            Err(e) => e,
        };
        let e1 = match JsonNumber::decode(v) {
            Ok(x) => {
                return Ok(LightIntensity::Literal(x));
            },
            Err(e) => e,
        };
        Err("data did not match any variant of untagged enum LightIntensity".to_string())
    }
}

impl JsonEncode for LightIntensity {
    open spec fn to_json(self) -> Json {
        match self {
            LightIntensity::Expr(t) => LightIntensityExpression::to_json(*t),
            LightIntensity::Literal(t) => JsonNumber::to_json(t),
        }
    }

    open spec fn round_trips(self) -> bool {
        match self {
            LightIntensity::Expr(t) => LightIntensityExpression::round_trips(*t),
            LightIntensity::Literal(t) => JsonNumber::round_trips(t) && !LightIntensityExpression::accepts(JsonNumber::to_json(t)),
        }
    }

    fn encode(&self) -> (r: JsonValue) {
        match self {
            LightIntensity::Expr(t) => LightIntensityExpression::encode(&**t),
            LightIntensity::Literal(t) => JsonNumber::encode(t),
        }
    }

    proof fn lemma_round_trip(self) {
        match self {
            LightIntensity::Expr(t) => LightIntensityExpression::lemma_round_trip(*t),
            LightIntensity::Literal(t) => JsonNumber::lemma_round_trip(t),
        }
    }
}

impl Default for LightIntensity {
    fn default() -> (r: Self)
        ensures
            r.to_json() == Json::Number("0.5"@),
            r is Literal,
    {
        let r = LightIntensity::Literal(JsonNumber::from_literal("0.5"));
        r
    }
}

/// Position of the light source relative to lit (extruded) geometries, in [r radial coordinate, a azimuthal angle, p polar angle] where r indicates the distance from the center of the base of an object to its light, a indicates the position of the light relative to 0° (0° when `light.anchor` is set to `viewport` corresponds to the top of the viewport, or 0° when `light.anchor` is set to `map` corresponds to due north, and degrees proceed clockwise), and p indicates the height of the light (from 0°, directly above, to 180°, directly below).
#[derive(PartialEq, Debug, Clone)]
pub struct LightPosition(Box<[JsonNumber; 3]>);

impl JsonDecode for LightPosition {
    closed spec fn accepts(v: Json) -> bool {
        <[JsonNumber; 3] as JsonDecode>::accepts(v)
    }

    closed spec fn decodes(v: Json, x: Self) -> bool {
        <[JsonNumber; 3] as JsonDecode>::decodes(v, *x.0)
    }

    closed spec fn rejection(v: Json) -> Seq<char> {
        <[JsonNumber; 3] as JsonDecode>::rejection(v)
    }

    fn decode(v: &JsonValue) -> (r: Result<Self, String>) {
        match <[JsonNumber; 3] as JsonDecode>::decode(v) {
            Ok(x) => Ok(LightPosition(Box::new(x))),
            Err(e) => Err(e),
        }
    }
}

impl JsonEncode for LightPosition {
    closed spec fn to_json(self) -> Json {
        <[JsonNumber; 3] as JsonEncode>::to_json((*self.0))
    }

    closed spec fn round_trips(self) -> bool {
        <[JsonNumber; 3] as JsonEncode>::round_trips((*self.0))
    }

    fn encode(&self) -> (r: JsonValue) {
        <[JsonNumber; 3] as JsonEncode>::encode(&(*self.0))
    }

    proof fn lemma_round_trip(self) {
        <[JsonNumber; 3] as JsonEncode>::lemma_round_trip((*self.0));
    }
}

impl Default for LightPosition {
    fn default() -> (r: Self)
        ensures
            r.to_json() == Json::Array(seq![Json::Number("1.15"@), Json::Number("210"@), Json::Number("30"@)]),
    {
        let r = LightPosition(Box::new([JsonNumber::from_literal("1.15"), JsonNumber::from_literal("210"), JsonNumber::from_literal("30")]));
        proof {
            assert(r.to_json() =~~= Json::Array(seq![Json::Number("1.15"@), Json::Number("210"@), Json::Number("30"@)]));
        }
        r
    }
}

#[derive(PartialEq, Debug, Clone)]
pub struct Projection {
    /// The projection definition type. Can be specified as a string, a transition state, or an expression.
    pub type_: Option<ProjectionType>,
}

impl JsonDecode for Projection {
    /// An object with the fields by their keys, or an array with the fields in order.
    open spec fn accepts(v: Json) -> bool {
        ||| (v is Object && {
            let o = v->Object_0;
            &&& opt_field_accepts::<ProjectionType>(o, "type"@)
        })
        ||| (v is Array && {
            let a = v->Array_0;
            &&& seq_opt_accepts::<ProjectionType>(a, 0, false)
            &&& a.len() <= 1
        })
    }

    open spec fn decodes(v: Json, x: Self) -> bool {
        ||| (v is Object && {
            let o = v->Object_0;
            &&& opt_field_decodes::<ProjectionType>(o, "type"@, x.type_)
        })
        ||| (v is Array && {
            let a = v->Array_0;
            &&& seq_opt_decodes::<ProjectionType>(a, 0, x.type_)
        })
    }

    /// For an object, the first entry in order whose value does not read as its field, else the
    /// first required field that is missing.
    open spec fn rejection(v: Json) -> Seq<char> {
        if v is Object {
            let o = v->Object_0;
            match Self::first_fault(o, 0) {
                Some(m) => m,
                None => {
                    Seq::empty()
                },
            }
        } else if v is Array {
            let a = v->Array_0;
            if !seq_opt_accepts::<ProjectionType>(a, 0, false) {
                seq_opt_rejection::<ProjectionType>(a, 0, "struct Projection with 1 element"@)
            } else if a.len() > 1 {
                length_error(a.len())
            } else {
                Seq::empty()
            }
        } else {
            type_error(v, "struct Projection"@)
        }
    }

    fn decode(v: &JsonValue) -> (r: Result<Self, String>) {
        match v {
            JsonValue::Object(fields) => {
                let type_ = match decode_opt_field::<ProjectionType>(fields, "type") {
                    Ok(x) => x,
                    Err(_) => return Err(Self::object_rejection(fields)),
                };
                Ok(Projection { type_ })
            },
            JsonValue::Array(a) => {
                let type_ = match decode_seq_opt::<ProjectionType>(a, 0, false, "struct Projection with 1 element") {
                    Ok(x) => x,
                    Err(e) => return Err(e),
                };
                if a.len() > 1 {
                    return Err(make_length_error(a.len()));
                }
                Ok(Projection { type_ })
            },
            _ => Err(make_type_error(v, "struct Projection")),
        }
    }
}

impl Projection {
    /// What is wrong with the value `w` of an entry with key `k`, where `k` is the key of a field.
    pub open spec fn field_fault(k: Seq<char>, w: Json) -> Option<Seq<char>> {
        if k == "type"@ {
            if w is Null || ProjectionType::accepts(w) {
                None
            } else {
                Some(ProjectionType::rejection(w))
            }
        } else {
            None
        }
    }

    /// The message of the first entry of `o`, from entry `i` on and among the first entries of
    /// their keys, whose value does not read as its field, if any.
    pub open spec fn first_fault(o: Seq<(Seq<char>, Json)>, i: int) -> Option<Seq<char>>
        decreases o.len() - i,
    {
        if i < 0 || i >= o.len() {
            None
        } else if first_with_key(o, i) && Self::field_fault(o[i].0, o[i].1) is Some {
            Self::field_fault(o[i].0, o[i].1)
        } else {
            Self::first_fault(o, i + 1)
        }
    }

    fn find_field_fault(k: &str, w: &JsonValue) -> (r: Option<String>)
        ensures
            match r {
                Some(m) => Self::field_fault(k@, w.model()) == Some(m@),
                None => Self::field_fault(k@, w.model()) is None,
            },
    {
        if str_eq(k, "type") {
            match w {
                JsonValue::Null => None,
                _ => match ProjectionType::decode(w) {
                    Ok(_) => None,
                    Err(e) => Some(e),
                },
            }
        } else {
            None
        }
    }

    fn object_rejection(fields: &Vec<(String, JsonValue)>) -> (r: String)
        ensures
            r@ == Self::rejection(JsonValue::Object(*fields).model()),
    {
        let ghost o = entries_model(*fields);
        let mut i: usize = 0;
        while i < fields.len()
            invariant
                o == entries_model(*fields),
                o.len() == fields.len(),
                i <= fields.len(),
                Self::first_fault(o, 0) == Self::first_fault(o, i as int),
            decreases fields.len() - i,
        {
            proof {
                assert(o[i as int] == (fields@[i as int].0@, fields@[i as int].1.model()));
            }
            if !key_seen_before(fields, i) {
                match Self::find_field_fault(fields[i].0.as_str(), &fields[i].1) {
                    Some(m) => {
                        return m;
                    },
                    None => {},
                }
            }
            i += 1;
        }
        String::new()
    }
}

impl Projection {
    /// The keys of the fields, in order.
    pub open spec fn field_keys() -> Seq<Seq<char>> {
        seq!["type"@]
    }

    /// The entries that each field is written as, in order.
    pub open spec fn field_entries(self) -> Seq<Seq<(Seq<char>, Json)>> {
        seq![nul_entry::<ProjectionType>("type"@, self.type_)]
    }

    proof fn lemma_keys_differ(i: int)
        requires
            0 <= i < 1,
        ensures
            others_differ(Self::field_keys(), i),
    {
        reveal_strlit("type");
        assert("type"@.len() == 4);
    }
}

impl JsonEncode for Projection {
    open spec fn to_json(self) -> Json {
        Json::Object(self.field_entries().flatten())
    }

    open spec fn round_trips(self) -> bool {
        &&& (self.type_ matches Some(t) ==> t.round_trips() && !(t.to_json() is Null))
    }

    fn encode(&self) -> (r: JsonValue) {
        let mut out: Vec<(String, JsonValue)> = Vec::new();
        let ghost s0 = Seq::<Seq<(Seq<char>, Json)>>::empty();
        proof {
            assert(entries_model(out) =~= s0.flatten());
        }
        push_nul_entry::<ProjectionType>(&mut out, "type", &self.type_);
        let ghost s1 = s0.push(nul_entry::<ProjectionType>("type"@, self.type_));
        proof {
            s0.lemma_flatten_push(nul_entry::<ProjectionType>("type"@, self.type_));
            assert(entries_model(out) =~= s1.flatten());
        }
        proof {
            assert(self.field_entries() == s1);
        }
        JsonValue::Object(out)
    }

    proof fn lemma_round_trip(self) {
        let keys = Self::field_keys();
        let es = self.field_entries();
        assert(keyed_by(es, keys));
        Self::lemma_keys_differ(0);
        lemma_lookup_flatten(es, keys, 0);
        lemma_lookup_nul_entry::<ProjectionType>("type"@, self.type_, "type"@);
        if self.type_ is Some {
            self.type_->0.lemma_round_trip();
        }
    }
}

/// The projection definition type. Can be specified as a string, a transition state, or an expression.
#[derive(PartialEq, Debug, Clone)]
pub enum ProjectionType {
    Expr(NumberOrArrayOfNumberOrColorOrArrayOfColorOrProjection),
    Literal(String),
}

impl JsonDecode for ProjectionType {
    open spec fn accepts(v: Json) -> bool {
        NumberOrArrayOfNumberOrColorOrArrayOfColorOrProjection::accepts(v) || String::accepts(v)
    }

    open spec fn decodes(v: Json, x: Self) -> bool {
        match x {
            ProjectionType::Expr(t) => NumberOrArrayOfNumberOrColorOrArrayOfColorOrProjection::accepts(v) && NumberOrArrayOfNumberOrColorOrArrayOfColorOrProjection::decodes(v, t),
            ProjectionType::Literal(t) => !NumberOrArrayOfNumberOrColorOrArrayOfColorOrProjection::accepts(v) && String::accepts(v) && String::decodes(v, t),
        }
    }

    open spec fn rejection(v: Json) -> Seq<char> {
        "data did not match any variant of untagged enum ProjectionType"@
    }

    fn decode(v: &JsonValue) -> (r: Result<Self, String>) {
        let e0 = match NumberOrArrayOfNumberOrColorOrArrayOfColorOrProjection::decode(v) {
            Ok(x) => {
                return Ok(ProjectionType::Expr(x));
            },
            Err(e) => e,
        };
        let e1 = match String::decode(v) {
            Ok(x) => {
                return Ok(ProjectionType::Literal(x));
            },
            Err(e) => e,
        };
        Err("data did not match any variant of untagged enum ProjectionType".to_string())
    }
}

impl JsonEncode for ProjectionType {
    open spec fn to_json(self) -> Json {
        match self {
            ProjectionType::Expr(t) => NumberOrArrayOfNumberOrColorOrArrayOfColorOrProjection::to_json(t),
            ProjectionType::Literal(t) => String::to_json(t),
        }
    }

    open spec fn round_trips(self) -> bool {
        match self {
            ProjectionType::Expr(t) => NumberOrArrayOfNumberOrColorOrArrayOfColorOrProjection::round_trips(t),
            ProjectionType::Literal(t) => String::round_trips(t) && !NumberOrArrayOfNumberOrColorOrArrayOfColorOrProjection::accepts(String::to_json(t)),
        }
    }

    fn encode(&self) -> (r: JsonValue) {
        match self {
            ProjectionType::Expr(t) => NumberOrArrayOfNumberOrColorOrArrayOfColorOrProjection::encode(t),
            ProjectionType::Literal(t) => String::encode(t),
        }
    }

    proof fn lemma_round_trip(self) {
        match self {
            ProjectionType::Expr(t) => NumberOrArrayOfNumberOrColorOrArrayOfColorOrProjection::lemma_round_trip(t),
            ProjectionType::Literal(t) => String::lemma_round_trip(t),
        }
    }
}

impl Default for ProjectionType {
    fn default() -> (r: Self)
        ensures
            r.to_json() == Json::Str("mercator"@),
            r is Literal,
    {
        let r = ProjectionType::Literal("mercator".to_string());
        r
    }
}

/// A name of a feature property to use as ID for feature state.
#[derive(PartialEq, Debug, Clone)]
pub struct PromoteIdStar(String);

impl View for PromoteIdStar {
    type V = Seq<char>;

    closed spec fn view(&self) -> Seq<char> {
        self.0@
    }
}

impl JsonDecode for PromoteIdStar {
    open spec fn accepts(v: Json) -> bool {
        v is Str
    }

    open spec fn decodes(v: Json, x: Self) -> bool {
        v == Json::Str(x@)
    }

    open spec fn rejection(v: Json) -> Seq<char> {
        String::rejection(v)
    }

    fn decode(v: &JsonValue) -> (r: Result<Self, String>) {
        match String::decode(v) {
            Ok(x) => Ok(PromoteIdStar(x)),
            Err(e) => Err(e),
        }
    }
}

impl JsonEncode for PromoteIdStar {
    open spec fn to_json(self) -> Json {
        Json::Str(self@)
    }

    open spec fn round_trips(self) -> bool {
        true
    }

    fn encode(&self) -> (r: JsonValue) {
        String::encode(&self.0)
    }

    proof fn lemma_round_trip(self) {
        String::lemma_round_trip(self.0);
    }
}

#[derive(PartialEq, Debug, Clone)]
pub struct Sky {
    /// How to blend the atmosphere. Where 1 is visible atmosphere and 0 is hidden. It is best to interpolate this expression when using globe projection.
    ///
    /// Range: 0..=1
    pub atmosphere_blend: Option<SkyAtmosphereBlend>,
    /// The base color for the fog. Requires 3D terrain.
    pub fog_color: Option<SkyFogColor>,
    /// How to blend the fog over the 3D terrain. Where 0 is the map center and 1 is the horizon.
    ///
    /// Range: 0..=1
    pub fog_ground_blend: Option<SkyFogGroundBlend>,
    /// The base color at the horizon.
    pub horizon_color: Option<SkyHorizonColor>,
    /// How to blend the fog color and the horizon color. Where 0 is using the horizon color only and 1 is using the fog color only.
    ///
    /// Range: 0..=1
    pub horizon_fog_blend: Option<SkyHorizonFogBlend>,
    /// The base color for the sky.
    pub sky_color: Option<SkySkyColor>,
    /// How to blend the sky color and the horizon color. Where 1 is blending the color at the middle of the sky and 0 is not blending at all and using the sky color only.
    ///
    /// Range: 0..=1
    pub sky_horizon_blend: Option<SkySkyHorizonBlend>,
}

impl JsonDecode for Sky {
    /// An object with the fields by their keys, or an array with the fields in order.
    open spec fn accepts(v: Json) -> bool {
        ||| (v is Object && {
            let o = v->Object_0;
            &&& opt_field_accepts::<SkyAtmosphereBlend>(o, "atmosphere-blend"@)
            &&& opt_field_accepts::<SkyFogColor>(o, "fog-color"@)
            &&& opt_field_accepts::<SkyFogGroundBlend>(o, "fog-ground-blend"@)
            &&& opt_field_accepts::<SkyHorizonColor>(o, "horizon-color"@)
            &&& opt_field_accepts::<SkyHorizonFogBlend>(o, "horizon-fog-blend"@)
            &&& opt_field_accepts::<SkySkyColor>(o, "sky-color"@)
            &&& opt_field_accepts::<SkySkyHorizonBlend>(o, "sky-horizon-blend"@)
        })
        ||| (v is Array && {
            let a = v->Array_0;
            &&& seq_opt_accepts::<SkyAtmosphereBlend>(a, 0, false)
            &&& seq_opt_accepts::<SkyFogColor>(a, 1, false)
            &&& seq_opt_accepts::<SkyFogGroundBlend>(a, 2, false)
            &&& seq_opt_accepts::<SkyHorizonColor>(a, 3, false)
            &&& seq_opt_accepts::<SkyHorizonFogBlend>(a, 4, false)
            &&& seq_opt_accepts::<SkySkyColor>(a, 5, false)
            &&& seq_opt_accepts::<SkySkyHorizonBlend>(a, 6, false)
            &&& a.len() <= 7
        })
    }

    open spec fn decodes(v: Json, x: Self) -> bool {
        ||| (v is Object && {
            let o = v->Object_0;
            &&& opt_field_decodes::<SkyAtmosphereBlend>(o, "atmosphere-blend"@, x.atmosphere_blend)
            &&& opt_field_decodes::<SkyFogColor>(o, "fog-color"@, x.fog_color)
            &&& opt_field_decodes::<SkyFogGroundBlend>(o, "fog-ground-blend"@, x.fog_ground_blend)
            &&& opt_field_decodes::<SkyHorizonColor>(o, "horizon-color"@, x.horizon_color)
            &&& opt_field_decodes::<SkyHorizonFogBlend>(o, "horizon-fog-blend"@, x.horizon_fog_blend)
            &&& opt_field_decodes::<SkySkyColor>(o, "sky-color"@, x.sky_color)
            &&& opt_field_decodes::<SkySkyHorizonBlend>(o, "sky-horizon-blend"@, x.sky_horizon_blend)
        })
        ||| (v is Array && {
            let a = v->Array_0;
            &&& seq_opt_decodes::<SkyAtmosphereBlend>(a, 0, x.atmosphere_blend)
            &&& seq_opt_decodes::<SkyFogColor>(a, 1, x.fog_color)
            &&& seq_opt_decodes::<SkyFogGroundBlend>(a, 2, x.fog_ground_blend)
            &&& seq_opt_decodes::<SkyHorizonColor>(a, 3, x.horizon_color)
            &&& seq_opt_decodes::<SkyHorizonFogBlend>(a, 4, x.horizon_fog_blend)
            &&& seq_opt_decodes::<SkySkyColor>(a, 5, x.sky_color)
            &&& seq_opt_decodes::<SkySkyHorizonBlend>(a, 6, x.sky_horizon_blend)
        })
    }

    /// For an object, the first entry in order whose value does not read as its field, else the
    /// first required field that is missing.
    open spec fn rejection(v: Json) -> Seq<char> {
        if v is Object {
            let o = v->Object_0;
            match Self::first_fault(o, 0) {
                Some(m) => m,
                None => {
                    Seq::empty()
                },
            }
        } else if v is Array {
            let a = v->Array_0;
            if !seq_opt_accepts::<SkyAtmosphereBlend>(a, 0, false) {
                seq_opt_rejection::<SkyAtmosphereBlend>(a, 0, "struct Sky with 7 elements"@)
            } else if !seq_opt_accepts::<SkyFogColor>(a, 1, false) {
                seq_opt_rejection::<SkyFogColor>(a, 1, "struct Sky with 7 elements"@)
            } else if !seq_opt_accepts::<SkyFogGroundBlend>(a, 2, false) {
                seq_opt_rejection::<SkyFogGroundBlend>(a, 2, "struct Sky with 7 elements"@)
            } else if !seq_opt_accepts::<SkyHorizonColor>(a, 3, false) {
                seq_opt_rejection::<SkyHorizonColor>(a, 3, "struct Sky with 7 elements"@)
            } else if !seq_opt_accepts::<SkyHorizonFogBlend>(a, 4, false) {
                seq_opt_rejection::<SkyHorizonFogBlend>(a, 4, "struct Sky with 7 elements"@)
            } else if !seq_opt_accepts::<SkySkyColor>(a, 5, false) {
                seq_opt_rejection::<SkySkyColor>(a, 5, "struct Sky with 7 elements"@)
            } else if !seq_opt_accepts::<SkySkyHorizonBlend>(a, 6, false) {
                seq_opt_rejection::<SkySkyHorizonBlend>(a, 6, "struct Sky with 7 elements"@)
            } else if a.len() > 7 {
                length_error(a.len())
            } else {
                Seq::empty()
            }
        } else {
            type_error(v, "struct Sky"@)
        }
    }

    fn decode(v: &JsonValue) -> (r: Result<Self, String>) {
        match v {
            JsonValue::Object(fields) => {
                let atmosphere_blend = match decode_opt_field::<SkyAtmosphereBlend>(fields, "atmosphere-blend") {
                    Ok(x) => x,
                    Err(_) => return Err(Self::object_rejection(fields)),
                };
                let fog_color = match decode_opt_field::<SkyFogColor>(fields, "fog-color") {
                    Ok(x) => x,
                    Err(_) => return Err(Self::object_rejection(fields)),
                };
                let fog_ground_blend = match decode_opt_field::<SkyFogGroundBlend>(fields, "fog-ground-blend") {
                    Ok(x) => x,
                    Err(_) => return Err(Self::object_rejection(fields)),
                };
                let horizon_color = match decode_opt_field::<SkyHorizonColor>(fields, "horizon-color") {
                    Ok(x) => x,
                    Err(_) => return Err(Self::object_rejection(fields)),
                };
                let horizon_fog_blend = match decode_opt_field::<SkyHorizonFogBlend>(fields, "horizon-fog-blend") {
                    Ok(x) => x,
                    Err(_) => return Err(Self::object_rejection(fields)),
                };
                let sky_color = match decode_opt_field::<SkySkyColor>(fields, "sky-color") {
                    Ok(x) => x,
                    Err(_) => return Err(Self::object_rejection(fields)),
                };
                let sky_horizon_blend = match decode_opt_field::<SkySkyHorizonBlend>(fields, "sky-horizon-blend") {
                    Ok(x) => x,
                    Err(_) => return Err(Self::object_rejection(fields)),
                };
                Ok(Sky { atmosphere_blend, fog_color, fog_ground_blend, horizon_color, horizon_fog_blend, sky_color, sky_horizon_blend })
            },
            JsonValue::Array(a) => {
                let atmosphere_blend = match decode_seq_opt::<SkyAtmosphereBlend>(a, 0, false, "struct Sky with 7 elements") {
                    Ok(x) => x,
                    Err(e) => return Err(e),
                };
                let fog_color = match decode_seq_opt::<SkyFogColor>(a, 1, false, "struct Sky with 7 elements") {
                    Ok(x) => x,
                    Err(e) => return Err(e),
                };
                let fog_ground_blend = match decode_seq_opt::<SkyFogGroundBlend>(a, 2, false, "struct Sky with 7 elements") {
                    Ok(x) => x,
                    Err(e) => return Err(e),
                };
                let horizon_color = match decode_seq_opt::<SkyHorizonColor>(a, 3, false, "struct Sky with 7 elements") {
                    Ok(x) => x,
                    Err(e) => return Err(e),
                };
                let horizon_fog_blend = match decode_seq_opt::<SkyHorizonFogBlend>(a, 4, false, "struct Sky with 7 elements") {
                    Ok(x) => x,
                    Err(e) => return Err(e),
                };
                let sky_color = match decode_seq_opt::<SkySkyColor>(a, 5, false, "struct Sky with 7 elements") {
                    Ok(x) => x,
                    Err(e) => return Err(e),
                };
                let sky_horizon_blend = match decode_seq_opt::<SkySkyHorizonBlend>(a, 6, false, "struct Sky with 7 elements") {
                    Ok(x) => x,
                    Err(e) => return Err(e),
                };
                if a.len() > 7 {
                    return Err(make_length_error(a.len()));
                }
                Ok(Sky { atmosphere_blend, fog_color, fog_ground_blend, horizon_color, horizon_fog_blend, sky_color, sky_horizon_blend })
            },
            _ => Err(make_type_error(v, "struct Sky")),
        }
    }
}

impl Sky {
    /// What is wrong with the value `w` of an entry with key `k`, where `k` is the key of a field.
    pub open spec fn field_fault(k: Seq<char>, w: Json) -> Option<Seq<char>> {
        if k == "atmosphere-blend"@ {
            if w is Null || SkyAtmosphereBlend::accepts(w) {
                None
            } else {
                Some(SkyAtmosphereBlend::rejection(w))
            }
        } else if k == "fog-color"@ {
            if w is Null || SkyFogColor::accepts(w) {
                None
            } else {
                Some(SkyFogColor::rejection(w))
            }
        } else if k == "fog-ground-blend"@ {
            if w is Null || SkyFogGroundBlend::accepts(w) {
                None
            } else {
                Some(SkyFogGroundBlend::rejection(w))
            }
        } else if k == "horizon-color"@ {
            if w is Null || SkyHorizonColor::accepts(w) {
                None
            } else {
                Some(SkyHorizonColor::rejection(w))
            }
        } else if k == "horizon-fog-blend"@ {
            if w is Null || SkyHorizonFogBlend::accepts(w) {
                None
            } else {
                Some(SkyHorizonFogBlend::rejection(w))
            }
        } else if k == "sky-color"@ {
            if w is Null || SkySkyColor::accepts(w) {
                None
            } else {
                Some(SkySkyColor::rejection(w))
            }
        } else if k == "sky-horizon-blend"@ {
            if w is Null || SkySkyHorizonBlend::accepts(w) {
                None
            } else {
                Some(SkySkyHorizonBlend::rejection(w))
            }
        } else {
            None
        }
    }

    /// The message of the first entry of `o`, from entry `i` on and among the first entries of
    /// their keys, whose value does not read as its field, if any.
    pub open spec fn first_fault(o: Seq<(Seq<char>, Json)>, i: int) -> Option<Seq<char>>
        decreases o.len() - i,
    {
        if i < 0 || i >= o.len() {
            None
        } else if first_with_key(o, i) && Self::field_fault(o[i].0, o[i].1) is Some {
            Self::field_fault(o[i].0, o[i].1)
        } else {
            Self::first_fault(o, i + 1)
        }
    }

    fn find_field_fault(k: &str, w: &JsonValue) -> (r: Option<String>)
        ensures
            match r {
                Some(m) => Self::field_fault(k@, w.model()) == Some(m@),
                None => Self::field_fault(k@, w.model()) is None,
            },
    {
        if str_eq(k, "atmosphere-blend") {
            match w {
                JsonValue::Null => None,
                _ => match SkyAtmosphereBlend::decode(w) {
                    Ok(_) => None,
                    Err(e) => Some(e),
                },
            }
        } else if str_eq(k, "fog-color") {
            match w {
                JsonValue::Null => None,
                _ => match SkyFogColor::decode(w) {
                    Ok(_) => None,
                    Err(e) => Some(e),
                },
            }
        } else if str_eq(k, "fog-ground-blend") {
            match w {
                JsonValue::Null => None,
                _ => match SkyFogGroundBlend::decode(w) {
                    Ok(_) => None,
                    Err(e) => Some(e),
                },
            }
        } else if str_eq(k, "horizon-color") {
            match w {
                JsonValue::Null => None,
                _ => match SkyHorizonColor::decode(w) {
                    Ok(_) => None,
                    Err(e) => Some(e),
                },
            }
        } else if str_eq(k, "horizon-fog-blend") {
            match w {
                JsonValue::Null => None,
                _ => match SkyHorizonFogBlend::decode(w) {
                    Ok(_) => None,
                    Err(e) => Some(e),
                },
            }
        } else if str_eq(k, "sky-color") {
            match w {
                JsonValue::Null => None,
                _ => match SkySkyColor::decode(w) {
                    Ok(_) => None,
                    Err(e) => Some(e),
                },
            }
        } else if str_eq(k, "sky-horizon-blend") {
            match w {
                JsonValue::Null => None,
                _ => match SkySkyHorizonBlend::decode(w) {
                    Ok(_) => None,
                    Err(e) => Some(e),
                },
            }
        } else {
            None
        }
    }

    fn object_rejection(fields: &Vec<(String, JsonValue)>) -> (r: String)
        ensures
            r@ == Self::rejection(JsonValue::Object(*fields).model()),
    {
        let ghost o = entries_model(*fields);
        let mut i: usize = 0;
        while i < fields.len()
            invariant
                o == entries_model(*fields),
                o.len() == fields.len(),
                i <= fields.len(),
                Self::first_fault(o, 0) == Self::first_fault(o, i as int),
            decreases fields.len() - i,
        {
            proof {
                assert(o[i as int] == (fields@[i as int].0@, fields@[i as int].1.model()));
            }
            if !key_seen_before(fields, i) {
                match Self::find_field_fault(fields[i].0.as_str(), &fields[i].1) {
                    Some(m) => {
                        return m;
                    },
                    None => {},
                }
            }
            i += 1;
        }
        String::new()
    }
}

impl Sky {
    /// The keys of the fields, in order.
    pub open spec fn field_keys() -> Seq<Seq<char>> {
        seq!["atmosphere-blend"@, "fog-color"@, "fog-ground-blend"@, "horizon-color"@, "horizon-fog-blend"@, "sky-color"@, "sky-horizon-blend"@]
    }

    /// The entries that each field is written as, in order.
    pub open spec fn field_entries(self) -> Seq<Seq<(Seq<char>, Json)>> {
        seq![nul_entry::<SkyAtmosphereBlend>("atmosphere-blend"@, self.atmosphere_blend), nul_entry::<SkyFogColor>("fog-color"@, self.fog_color), nul_entry::<SkyFogGroundBlend>("fog-ground-blend"@, self.fog_ground_blend), nul_entry::<SkyHorizonColor>("horizon-color"@, self.horizon_color), nul_entry::<SkyHorizonFogBlend>("horizon-fog-blend"@, self.horizon_fog_blend), nul_entry::<SkySkyColor>("sky-color"@, self.sky_color), nul_entry::<SkySkyHorizonBlend>("sky-horizon-blend"@, self.sky_horizon_blend)]
    }

    proof fn lemma_keys_differ(i: int)
        requires
            0 <= i < 7,
        ensures
            others_differ(Self::field_keys(), i),
    {
        reveal_strlit("atmosphere-blend");
        assert("atmosphere-blend"@.len() == 16);
        reveal_strlit("fog-color");
        assert("fog-color"@.len() == 9);
        reveal_strlit("fog-ground-blend");
        assert("fog-ground-blend"@.len() == 16);
        reveal_strlit("horizon-color");
        assert("horizon-color"@.len() == 13);
        reveal_strlit("horizon-fog-blend");
        assert("horizon-fog-blend"@.len() == 17);
        reveal_strlit("sky-color");
        assert("sky-color"@.len() == 9);
        reveal_strlit("sky-horizon-blend");
        assert("sky-horizon-blend"@.len() == 17);
        assert("atmosphere-blend"@[0] != "fog-ground-blend"@[0]);
        assert("fog-color"@[0] != "sky-color"@[0]);
        assert("horizon-fog-blend"@[0] != "sky-horizon-blend"@[0]);
    }
}

impl JsonEncode for Sky {
    open spec fn to_json(self) -> Json {
        Json::Object(self.field_entries().flatten())
    }

    open spec fn round_trips(self) -> bool {
        &&& (self.atmosphere_blend matches Some(t) ==> t.round_trips() && !(t.to_json() is Null))
        &&& (self.fog_color matches Some(t) ==> t.round_trips() && !(t.to_json() is Null))
        &&& (self.fog_ground_blend matches Some(t) ==> t.round_trips() && !(t.to_json() is Null))
        &&& (self.horizon_color matches Some(t) ==> t.round_trips() && !(t.to_json() is Null))
        &&& (self.horizon_fog_blend matches Some(t) ==> t.round_trips() && !(t.to_json() is Null))
        &&& (self.sky_color matches Some(t) ==> t.round_trips() && !(t.to_json() is Null))
        &&& (self.sky_horizon_blend matches Some(t) ==> t.round_trips() && !(t.to_json() is Null))
    }

    #[verifier::rlimit(30)]
    fn encode(&self) -> (r: JsonValue) {
        let mut out: Vec<(String, JsonValue)> = Vec::new();
        let ghost s0 = Seq::<Seq<(Seq<char>, Json)>>::empty();
        proof {
            assert(entries_model(out) =~= s0.flatten());
        }
        push_nul_entry::<SkyAtmosphereBlend>(&mut out, "atmosphere-blend", &self.atmosphere_blend);
        let ghost s1 = s0.push(nul_entry::<SkyAtmosphereBlend>("atmosphere-blend"@, self.atmosphere_blend));
        proof {
            s0.lemma_flatten_push(nul_entry::<SkyAtmosphereBlend>("atmosphere-blend"@, self.atmosphere_blend));
            assert(entries_model(out) =~= s1.flatten());
        }
        push_nul_entry::<SkyFogColor>(&mut out, "fog-color", &self.fog_color);
        let ghost s2 = s1.push(nul_entry::<SkyFogColor>("fog-color"@, self.fog_color));
        proof {
            s1.lemma_flatten_push(nul_entry::<SkyFogColor>("fog-color"@, self.fog_color));
            assert(entries_model(out) =~= s2.flatten());
        }
        push_nul_entry::<SkyFogGroundBlend>(&mut out, "fog-ground-blend", &self.fog_ground_blend);
        let ghost s3 = s2.push(nul_entry::<SkyFogGroundBlend>("fog-ground-blend"@, self.fog_ground_blend));
        proof {
            s2.lemma_flatten_push(nul_entry::<SkyFogGroundBlend>("fog-ground-blend"@, self.fog_ground_blend));
            assert(entries_model(out) =~= s3.flatten());
        }
        push_nul_entry::<SkyHorizonColor>(&mut out, "horizon-color", &self.horizon_color);
        let ghost s4 = s3.push(nul_entry::<SkyHorizonColor>("horizon-color"@, self.horizon_color));
        proof {
            s3.lemma_flatten_push(nul_entry::<SkyHorizonColor>("horizon-color"@, self.horizon_color));
            assert(entries_model(out) =~= s4.flatten());
        }
        push_nul_entry::<SkyHorizonFogBlend>(&mut out, "horizon-fog-blend", &self.horizon_fog_blend);
        let ghost s5 = s4.push(nul_entry::<SkyHorizonFogBlend>("horizon-fog-blend"@, self.horizon_fog_blend));
        proof {
            s4.lemma_flatten_push(nul_entry::<SkyHorizonFogBlend>("horizon-fog-blend"@, self.horizon_fog_blend));
            assert(entries_model(out) =~= s5.flatten());
        }
        push_nul_entry::<SkySkyColor>(&mut out, "sky-color", &self.sky_color);
        let ghost s6 = s5.push(nul_entry::<SkySkyColor>("sky-color"@, self.sky_color));
        proof {
            s5.lemma_flatten_push(nul_entry::<SkySkyColor>("sky-color"@, self.sky_color));
            assert(entries_model(out) =~= s6.flatten());
        }
        push_nul_entry::<SkySkyHorizonBlend>(&mut out, "sky-horizon-blend", &self.sky_horizon_blend);
        let ghost s7 = s6.push(nul_entry::<SkySkyHorizonBlend>("sky-horizon-blend"@, self.sky_horizon_blend));
        proof {
            s6.lemma_flatten_push(nul_entry::<SkySkyHorizonBlend>("sky-horizon-blend"@, self.sky_horizon_blend));
            assert(entries_model(out) =~= s7.flatten());
        }
        proof {
            assert(self.field_entries() == s7);
        }
        JsonValue::Object(out)
    }

    #[verifier::rlimit(30)]
    proof fn lemma_round_trip(self) {
        let keys = Self::field_keys();
        let es = self.field_entries();
        assert(keyed_by(es, keys));
        Self::lemma_keys_differ(0);
        lemma_lookup_flatten(es, keys, 0);
        lemma_lookup_nul_entry::<SkyAtmosphereBlend>("atmosphere-blend"@, self.atmosphere_blend, "atmosphere-blend"@);
        if self.atmosphere_blend is Some {
            self.atmosphere_blend->0.lemma_round_trip();
        }
        Self::lemma_keys_differ(1);
        lemma_lookup_flatten(es, keys, 1);
        lemma_lookup_nul_entry::<SkyFogColor>("fog-color"@, self.fog_color, "fog-color"@);
        if self.fog_color is Some {
            self.fog_color->0.lemma_round_trip();
        }
        Self::lemma_keys_differ(2);
        lemma_lookup_flatten(es, keys, 2);
        lemma_lookup_nul_entry::<SkyFogGroundBlend>("fog-ground-blend"@, self.fog_ground_blend, "fog-ground-blend"@);
        if self.fog_ground_blend is Some {
            self.fog_ground_blend->0.lemma_round_trip();
        }
        Self::lemma_keys_differ(3);
        lemma_lookup_flatten(es, keys, 3);
        lemma_lookup_nul_entry::<SkyHorizonColor>("horizon-color"@, self.horizon_color, "horizon-color"@);
        if self.horizon_color is Some {
            self.horizon_color->0.lemma_round_trip();
        }
        Self::lemma_keys_differ(4);
        lemma_lookup_flatten(es, keys, 4);
        lemma_lookup_nul_entry::<SkyHorizonFogBlend>("horizon-fog-blend"@, self.horizon_fog_blend, "horizon-fog-blend"@);
        if self.horizon_fog_blend is Some {
            self.horizon_fog_blend->0.lemma_round_trip();
        }
        Self::lemma_keys_differ(5);
        lemma_lookup_flatten(es, keys, 5);
        lemma_lookup_nul_entry::<SkySkyColor>("sky-color"@, self.sky_color, "sky-color"@);
        if self.sky_color is Some {
            self.sky_color->0.lemma_round_trip();
        }
        Self::lemma_keys_differ(6);
        lemma_lookup_flatten(es, keys, 6);
        lemma_lookup_nul_entry::<SkySkyHorizonBlend>("sky-horizon-blend"@, self.sky_horizon_blend, "sky-horizon-blend"@);
        if self.sky_horizon_blend is Some {
            self.sky_horizon_blend->0.lemma_round_trip();
        }
    }
}

/// Nested expression: ramp (`interpolate` / …) or regular [`Number`] operators.
#[derive(PartialEq, Debug, Clone)]
pub enum SkyAtmosphereBlendExpression {
    Number(Number),
    Ramp(NumberOrArrayOfNumberOrColorOrArrayOfColorOrProjection),
}

impl JsonDecode for SkyAtmosphereBlendExpression {
    open spec fn accepts(v: Json) -> bool {
        Number::accepts(v) || NumberOrArrayOfNumberOrColorOrArrayOfColorOrProjection::accepts(v)
    }

    open spec fn decodes(v: Json, x: Self) -> bool {
        match x {
            SkyAtmosphereBlendExpression::Number(t) => Number::accepts(v) && Number::decodes(v, t),
            SkyAtmosphereBlendExpression::Ramp(t) => !Number::accepts(v) && NumberOrArrayOfNumberOrColorOrArrayOfColorOrProjection::accepts(v) && NumberOrArrayOfNumberOrColorOrArrayOfColorOrProjection::decodes(v, t),
        }
    }

    open spec fn rejection(v: Json) -> Seq<char> {
        "data did not match any variant of untagged enum SkyAtmosphereBlendExpression"@
    }

    fn decode(v: &JsonValue) -> (r: Result<Self, String>) {
        let e0 = match Number::decode(v) {
            Ok(x) => {
                return Ok(SkyAtmosphereBlendExpression::Number(x));
            },
            Err(e) => e,
        };
        let e1 = match NumberOrArrayOfNumberOrColorOrArrayOfColorOrProjection::decode(v) {
            Ok(x) => {
                return Ok(SkyAtmosphereBlendExpression::Ramp(x));
            },
            Err(e) => e,
        };
        Err("data did not match any variant of untagged enum SkyAtmosphereBlendExpression".to_string())
    }
}

impl JsonEncode for SkyAtmosphereBlendExpression {
    open spec fn to_json(self) -> Json {
        match self {
            SkyAtmosphereBlendExpression::Number(t) => Number::to_json(t),
            SkyAtmosphereBlendExpression::Ramp(t) => NumberOrArrayOfNumberOrColorOrArrayOfColorOrProjection::to_json(t),
        }
    }

    open spec fn round_trips(self) -> bool {
        match self {
            SkyAtmosphereBlendExpression::Number(t) => Number::round_trips(t),
            SkyAtmosphereBlendExpression::Ramp(t) => NumberOrArrayOfNumberOrColorOrArrayOfColorOrProjection::round_trips(t) && !Number::accepts(NumberOrArrayOfNumberOrColorOrArrayOfColorOrProjection::to_json(t)),
        }
    }

    fn encode(&self) -> (r: JsonValue) {
        match self {
            SkyAtmosphereBlendExpression::Number(t) => Number::encode(t),
            SkyAtmosphereBlendExpression::Ramp(t) => NumberOrArrayOfNumberOrColorOrArrayOfColorOrProjection::encode(t),
        }
    }

    proof fn lemma_round_trip(self) {
        match self {
            SkyAtmosphereBlendExpression::Number(t) => Number::lemma_round_trip(t),
            SkyAtmosphereBlendExpression::Ramp(t) => NumberOrArrayOfNumberOrColorOrArrayOfColorOrProjection::lemma_round_trip(t),
        }
    }
}

/// How to blend the atmosphere. Where 1 is visible atmosphere and 0 is hidden. It is best to interpolate this expression when using globe projection.
///
/// Range: 0..=1
#[derive(PartialEq, Debug, Clone)]
pub enum SkyAtmosphereBlend {
    Expr(Box<SkyAtmosphereBlendExpression>),
    Literal(JsonNumber),
}

impl JsonDecode for SkyAtmosphereBlend {
    open spec fn accepts(v: Json) -> bool {
        SkyAtmosphereBlendExpression::accepts(v) || JsonNumber::accepts(v)
    }

    open spec fn decodes(v: Json, x: Self) -> bool {
        match x {
            SkyAtmosphereBlend::Expr(t) => SkyAtmosphereBlendExpression::accepts(v) && SkyAtmosphereBlendExpression::decodes(v, *t),
            SkyAtmosphereBlend::Literal(t) => !SkyAtmosphereBlendExpression::accepts(v) && JsonNumber::accepts(v) && JsonNumber::decodes(v, t),
        }
    }

    open spec fn rejection(v: Json) -> Seq<char> {
        "data did not match any variant of untagged enum SkyAtmosphereBlend"@
    }

    fn decode(v: &JsonValue) -> (r: Result<Self, String>) {
        let e0 = match SkyAtmosphereBlendExpression::decode(v) {
            Ok(x) => {
                return Ok(SkyAtmosphereBlend::Expr(Box::new(x)));
            },
            Err(e) => e,
        };
        let e1 = match JsonNumber::decode(v) {
            Ok(x) => {
                return Ok(SkyAtmosphereBlend::Literal(x));
            },
            Err(e) => e,
        };
        Err("data did not match any variant of untagged enum SkyAtmosphereBlend".to_string())
    }
}

impl JsonEncode for SkyAtmosphereBlend {
    open spec fn to_json(self) -> Json {
        match self {
            SkyAtmosphereBlend::Expr(t) => SkyAtmosphereBlendExpression::to_json(*t),
            SkyAtmosphereBlend::Literal(t) => JsonNumber::to_json(t),
        }
    }

    open spec fn round_trips(self) -> bool {
        match self {
            SkyAtmosphereBlend::Expr(t) => SkyAtmosphereBlendExpression::round_trips(*t),
            SkyAtmosphereBlend::Literal(t) => JsonNumber::round_trips(t) && !SkyAtmosphereBlendExpression::accepts(JsonNumber::to_json(t)),
        }
    }

    fn encode(&self) -> (r: JsonValue) {
        match self {
            SkyAtmosphereBlend::Expr(t) => SkyAtmosphereBlendExpression::encode(&**t),
            SkyAtmosphereBlend::Literal(t) => JsonNumber::encode(t),
        }
    }

    proof fn lemma_round_trip(self) {
        match self {
            SkyAtmosphereBlend::Expr(t) => SkyAtmosphereBlendExpression::lemma_round_trip(*t),
            SkyAtmosphereBlend::Literal(t) => JsonNumber::lemma_round_trip(t),
        }
    }
}

impl Default for SkyAtmosphereBlend {
    fn default() -> (r: Self)
        ensures
            r.to_json() == Json::Number("0.8"@),
            r is Literal,
    {
        let r = SkyAtmosphereBlend::Literal(JsonNumber::from_literal("0.8"));
        r
    }
}

/// Nested expression: ramp (`interpolate-hcl`, …) or [`Color`] operators.
#[derive(PartialEq, Debug, Clone)]
pub enum SkyFogColorExpression {
    Color(Color),
    Ramp(ColorOrArrayOfColor),
}

impl JsonDecode for SkyFogColorExpression {
    open spec fn accepts(v: Json) -> bool {
        Color::accepts(v) || ColorOrArrayOfColor::accepts(v)
    }

    open spec fn decodes(v: Json, x: Self) -> bool {
        match x {
            SkyFogColorExpression::Color(t) => Color::accepts(v) && Color::decodes(v, t),
            SkyFogColorExpression::Ramp(t) => !Color::accepts(v) && ColorOrArrayOfColor::accepts(v) && ColorOrArrayOfColor::decodes(v, t),
        }
    }

    open spec fn rejection(v: Json) -> Seq<char> {
        "data did not match any variant of untagged enum SkyFogColorExpression"@
    }

    fn decode(v: &JsonValue) -> (r: Result<Self, String>) {
        let e0 = match Color::decode(v) {
            Ok(x) => {
                return Ok(SkyFogColorExpression::Color(x));
            },
            Err(e) => e,
        };
        let e1 = match ColorOrArrayOfColor::decode(v) {
            Ok(x) => {
                return Ok(SkyFogColorExpression::Ramp(x));
            },
            Err(e) => e,
        };
        Err("data did not match any variant of untagged enum SkyFogColorExpression".to_string())
    }
}

impl JsonEncode for SkyFogColorExpression {
    open spec fn to_json(self) -> Json {
        match self {
            SkyFogColorExpression::Color(t) => Color::to_json(t),
            SkyFogColorExpression::Ramp(t) => ColorOrArrayOfColor::to_json(t),
        }
    }

    open spec fn round_trips(self) -> bool {
        match self {
            SkyFogColorExpression::Color(t) => Color::round_trips(t),
            SkyFogColorExpression::Ramp(t) => ColorOrArrayOfColor::round_trips(t) && !Color::accepts(ColorOrArrayOfColor::to_json(t)),
        }
    }

    fn encode(&self) -> (r: JsonValue) {
        match self {
            SkyFogColorExpression::Color(t) => Color::encode(t),
            SkyFogColorExpression::Ramp(t) => ColorOrArrayOfColor::encode(t),
        }
    }

    proof fn lemma_round_trip(self) {
        match self {
            SkyFogColorExpression::Color(t) => Color::lemma_round_trip(t),
            SkyFogColorExpression::Ramp(t) => ColorOrArrayOfColor::lemma_round_trip(t),
        }
    }
}

/// The base color for the fog. Requires 3D terrain.
#[derive(PartialEq, Debug, Clone)]
pub enum SkyFogColor {
    Expr(Box<SkyFogColorExpression>),
    Literal(JsonValue),
}

impl JsonDecode for SkyFogColor {
    open spec fn accepts(v: Json) -> bool {
        SkyFogColorExpression::accepts(v) || JsonValue::accepts(v)
    }

    open spec fn decodes(v: Json, x: Self) -> bool {
        match x {
            SkyFogColor::Expr(t) => SkyFogColorExpression::accepts(v) && SkyFogColorExpression::decodes(v, *t),
            SkyFogColor::Literal(t) => !SkyFogColorExpression::accepts(v) && JsonValue::accepts(v) && JsonValue::decodes(v, t),
        }
    }

    open spec fn rejection(v: Json) -> Seq<char> {
        "data did not match any variant of untagged enum SkyFogColor"@
    }

    fn decode(v: &JsonValue) -> (r: Result<Self, String>) {
        let e0 = match SkyFogColorExpression::decode(v) {
            Ok(x) => {
                return Ok(SkyFogColor::Expr(Box::new(x)));
            },
            Err(e) => e,
        };
        let e1 = match JsonValue::decode(v) {
            Ok(x) => {
                return Ok(SkyFogColor::Literal(x));
            },
            Err(e) => e,
        };
        Err("data did not match any variant of untagged enum SkyFogColor".to_string())
    }
}

impl JsonEncode for SkyFogColor {
    open spec fn to_json(self) -> Json {
        match self {
            SkyFogColor::Expr(t) => SkyFogColorExpression::to_json(*t),
            SkyFogColor::Literal(t) => JsonValue::to_json(t),
        }
    }

    open spec fn round_trips(self) -> bool {
        match self {
            SkyFogColor::Expr(t) => SkyFogColorExpression::round_trips(*t),
            SkyFogColor::Literal(t) => JsonValue::round_trips(t) && !SkyFogColorExpression::accepts(JsonValue::to_json(t)),
        }
    }

    fn encode(&self) -> (r: JsonValue) {
        match self {
            SkyFogColor::Expr(t) => SkyFogColorExpression::encode(&**t),
            SkyFogColor::Literal(t) => JsonValue::encode(t),
        }
    }

    proof fn lemma_round_trip(self) {
        match self {
            SkyFogColor::Expr(t) => SkyFogColorExpression::lemma_round_trip(*t),
            SkyFogColor::Literal(t) => JsonValue::lemma_round_trip(t),
        }
    }
}

impl Default for SkyFogColor {
    fn default() -> (r: Self)
        ensures
            r.to_json() == Json::Str("#ffffff"@),
            r is Literal,
    {
        let r = SkyFogColor::Literal(JsonValue::String("#ffffff".to_string()));
        r
    }
}

/// Nested expression: ramp (`interpolate` / …) or regular [`Number`] operators.
#[derive(PartialEq, Debug, Clone)]
pub enum SkyFogGroundBlendExpression {
    Number(Number),
    Ramp(NumberOrArrayOfNumberOrColorOrArrayOfColorOrProjection),
}

impl JsonDecode for SkyFogGroundBlendExpression {
    open spec fn accepts(v: Json) -> bool {
        Number::accepts(v) || NumberOrArrayOfNumberOrColorOrArrayOfColorOrProjection::accepts(v)
    }

    open spec fn decodes(v: Json, x: Self) -> bool {
        match x {
            SkyFogGroundBlendExpression::Number(t) => Number::accepts(v) && Number::decodes(v, t),
            SkyFogGroundBlendExpression::Ramp(t) => !Number::accepts(v) && NumberOrArrayOfNumberOrColorOrArrayOfColorOrProjection::accepts(v) && NumberOrArrayOfNumberOrColorOrArrayOfColorOrProjection::decodes(v, t),
        }
    }

    open spec fn rejection(v: Json) -> Seq<char> {
        "data did not match any variant of untagged enum SkyFogGroundBlendExpression"@
    }

    fn decode(v: &JsonValue) -> (r: Result<Self, String>) {
        let e0 = match Number::decode(v) {
            Ok(x) => {
                return Ok(SkyFogGroundBlendExpression::Number(x));
            },
            Err(e) => e,
        };
        let e1 = match NumberOrArrayOfNumberOrColorOrArrayOfColorOrProjection::decode(v) {
            Ok(x) => {
                return Ok(SkyFogGroundBlendExpression::Ramp(x));
            },
            Err(e) => e,
        };
        Err("data did not match any variant of untagged enum SkyFogGroundBlendExpression".to_string())
    }
}

impl JsonEncode for SkyFogGroundBlendExpression {
    open spec fn to_json(self) -> Json {
        match self {
            SkyFogGroundBlendExpression::Number(t) => Number::to_json(t),
            SkyFogGroundBlendExpression::Ramp(t) => NumberOrArrayOfNumberOrColorOrArrayOfColorOrProjection::to_json(t),
        }
    }

    open spec fn round_trips(self) -> bool {
        match self {
            SkyFogGroundBlendExpression::Number(t) => Number::round_trips(t),
            SkyFogGroundBlendExpression::Ramp(t) => NumberOrArrayOfNumberOrColorOrArrayOfColorOrProjection::round_trips(t) && !Number::accepts(NumberOrArrayOfNumberOrColorOrArrayOfColorOrProjection::to_json(t)),
        }
    }

    fn encode(&self) -> (r: JsonValue) {
        match self {
            SkyFogGroundBlendExpression::Number(t) => Number::encode(t),
            SkyFogGroundBlendExpression::Ramp(t) => NumberOrArrayOfNumberOrColorOrArrayOfColorOrProjection::encode(t),
        }
    }

    proof fn lemma_round_trip(self) {
        match self {
            SkyFogGroundBlendExpression::Number(t) => Number::lemma_round_trip(t),
            SkyFogGroundBlendExpression::Ramp(t) => NumberOrArrayOfNumberOrColorOrArrayOfColorOrProjection::lemma_round_trip(t),
        }
    }
}

/// How to blend the fog over the 3D terrain. Where 0 is the map center and 1 is the horizon.
///
/// Range: 0..=1
#[derive(PartialEq, Debug, Clone)]
pub enum SkyFogGroundBlend {
    Expr(Box<SkyFogGroundBlendExpression>),
    Literal(JsonNumber),
}

impl JsonDecode for SkyFogGroundBlend {
    open spec fn accepts(v: Json) -> bool {
        SkyFogGroundBlendExpression::accepts(v) || JsonNumber::accepts(v)
    }

    open spec fn decodes(v: Json, x: Self) -> bool {
        match x {
            SkyFogGroundBlend::Expr(t) => SkyFogGroundBlendExpression::accepts(v) && SkyFogGroundBlendExpression::decodes(v, *t),
            SkyFogGroundBlend::Literal(t) => !SkyFogGroundBlendExpression::accepts(v) && JsonNumber::accepts(v) && JsonNumber::decodes(v, t),
        }
    }

    open spec fn rejection(v: Json) -> Seq<char> {
        "data did not match any variant of untagged enum SkyFogGroundBlend"@
    }

    fn decode(v: &JsonValue) -> (r: Result<Self, String>) {
        let e0 = match SkyFogGroundBlendExpression::decode(v) {
            Ok(x) => {
                return Ok(SkyFogGroundBlend::Expr(Box::new(x)));
            },
            Err(e) => e,
        };
        let e1 = match JsonNumber::decode(v) {
            Ok(x) => {
                return Ok(SkyFogGroundBlend::Literal(x));
            },
            Err(e) => e,
        };
        Err("data did not match any variant of untagged enum SkyFogGroundBlend".to_string())
    }
}

impl JsonEncode for SkyFogGroundBlend {
    open spec fn to_json(self) -> Json {
        match self {
            SkyFogGroundBlend::Expr(t) => SkyFogGroundBlendExpression::to_json(*t),
            SkyFogGroundBlend::Literal(t) => JsonNumber::to_json(t),
        }
    }

    open spec fn round_trips(self) -> bool {
        match self {
            SkyFogGroundBlend::Expr(t) => SkyFogGroundBlendExpression::round_trips(*t),
            SkyFogGroundBlend::Literal(t) => JsonNumber::round_trips(t) && !SkyFogGroundBlendExpression::accepts(JsonNumber::to_json(t)),
        }
    }

    fn encode(&self) -> (r: JsonValue) {
        match self {
            SkyFogGroundBlend::Expr(t) => SkyFogGroundBlendExpression::encode(&**t),
            SkyFogGroundBlend::Literal(t) => JsonNumber::encode(t),
        }
    }

    proof fn lemma_round_trip(self) {
        match self {
            SkyFogGroundBlend::Expr(t) => SkyFogGroundBlendExpression::lemma_round_trip(*t),
            SkyFogGroundBlend::Literal(t) => JsonNumber::lemma_round_trip(t),
        }
    }
}

impl Default for SkyFogGroundBlend {
    fn default() -> (r: Self)
        ensures
            r.to_json() == Json::Number("0.5"@),
            r is Literal,
    {
        let r = SkyFogGroundBlend::Literal(JsonNumber::from_literal("0.5"));
        r
    }
}

/// Nested expression: ramp (`interpolate-hcl`, …) or [`Color`] operators.
#[derive(PartialEq, Debug, Clone)]
pub enum SkyHorizonColorExpression {
    Color(Color),
    Ramp(ColorOrArrayOfColor),
}

impl JsonDecode for SkyHorizonColorExpression {
    open spec fn accepts(v: Json) -> bool {
        Color::accepts(v) || ColorOrArrayOfColor::accepts(v)
    }

    open spec fn decodes(v: Json, x: Self) -> bool {
        match x {
            SkyHorizonColorExpression::Color(t) => Color::accepts(v) && Color::decodes(v, t),
            SkyHorizonColorExpression::Ramp(t) => !Color::accepts(v) && ColorOrArrayOfColor::accepts(v) && ColorOrArrayOfColor::decodes(v, t),
        }
    }

    open spec fn rejection(v: Json) -> Seq<char> {
        "data did not match any variant of untagged enum SkyHorizonColorExpression"@
    }

    fn decode(v: &JsonValue) -> (r: Result<Self, String>) {
        let e0 = match Color::decode(v) {
            Ok(x) => {
                return Ok(SkyHorizonColorExpression::Color(x));
            },
            Err(e) => e,
        };
        let e1 = match ColorOrArrayOfColor::decode(v) {
            Ok(x) => {
                return Ok(SkyHorizonColorExpression::Ramp(x));
            },
            Err(e) => e,
        };
        Err("data did not match any variant of untagged enum SkyHorizonColorExpression".to_string())
    }
}

impl JsonEncode for SkyHorizonColorExpression {
    open spec fn to_json(self) -> Json {
        match self {
            SkyHorizonColorExpression::Color(t) => Color::to_json(t),
            SkyHorizonColorExpression::Ramp(t) => ColorOrArrayOfColor::to_json(t),
        }
    }

    open spec fn round_trips(self) -> bool {
        match self {
            SkyHorizonColorExpression::Color(t) => Color::round_trips(t),
            SkyHorizonColorExpression::Ramp(t) => ColorOrArrayOfColor::round_trips(t) && !Color::accepts(ColorOrArrayOfColor::to_json(t)),
        }
    }

    fn encode(&self) -> (r: JsonValue) {
        match self {
            SkyHorizonColorExpression::Color(t) => Color::encode(t),
            SkyHorizonColorExpression::Ramp(t) => ColorOrArrayOfColor::encode(t),
        }
    }

    proof fn lemma_round_trip(self) {
        match self {
            SkyHorizonColorExpression::Color(t) => Color::lemma_round_trip(t),
            SkyHorizonColorExpression::Ramp(t) => ColorOrArrayOfColor::lemma_round_trip(t),
        }
    }
}

/// The base color at the horizon.
#[derive(PartialEq, Debug, Clone)]
pub enum SkyHorizonColor {
    Expr(Box<SkyHorizonColorExpression>),
    Literal(JsonValue),
}

impl JsonDecode for SkyHorizonColor {
    open spec fn accepts(v: Json) -> bool {
        SkyHorizonColorExpression::accepts(v) || JsonValue::accepts(v)
    }

    open spec fn decodes(v: Json, x: Self) -> bool {
        match x {
            SkyHorizonColor::Expr(t) => SkyHorizonColorExpression::accepts(v) && SkyHorizonColorExpression::decodes(v, *t),
            SkyHorizonColor::Literal(t) => !SkyHorizonColorExpression::accepts(v) && JsonValue::accepts(v) && JsonValue::decodes(v, t),
        }
    }

    open spec fn rejection(v: Json) -> Seq<char> {
        "data did not match any variant of untagged enum SkyHorizonColor"@
    }

    fn decode(v: &JsonValue) -> (r: Result<Self, String>) {
        let e0 = match SkyHorizonColorExpression::decode(v) {
            Ok(x) => {
                return Ok(SkyHorizonColor::Expr(Box::new(x)));
            },
            Err(e) => e,
        };
        let e1 = match JsonValue::decode(v) {
            Ok(x) => {
                return Ok(SkyHorizonColor::Literal(x));
            },
            Err(e) => e,
        };
        Err("data did not match any variant of untagged enum SkyHorizonColor".to_string())
    }
}

impl JsonEncode for SkyHorizonColor {
    open spec fn to_json(self) -> Json {
        match self {
            SkyHorizonColor::Expr(t) => SkyHorizonColorExpression::to_json(*t),
            SkyHorizonColor::Literal(t) => JsonValue::to_json(t),
        }
    }

    open spec fn round_trips(self) -> bool {
        match self {
            SkyHorizonColor::Expr(t) => SkyHorizonColorExpression::round_trips(*t),
            SkyHorizonColor::Literal(t) => JsonValue::round_trips(t) && !SkyHorizonColorExpression::accepts(JsonValue::to_json(t)),
        }
    }

    fn encode(&self) -> (r: JsonValue) {
        match self {
            SkyHorizonColor::Expr(t) => SkyHorizonColorExpression::encode(&**t),
            SkyHorizonColor::Literal(t) => JsonValue::encode(t),
        }
    }

    proof fn lemma_round_trip(self) {
        match self {
            SkyHorizonColor::Expr(t) => SkyHorizonColorExpression::lemma_round_trip(*t),
            SkyHorizonColor::Literal(t) => JsonValue::lemma_round_trip(t),
        }
    }
}

impl Default for SkyHorizonColor {
    fn default() -> (r: Self)
        ensures
            r.to_json() == Json::Str("#ffffff"@),
            r is Literal,
    {
        let r = SkyHorizonColor::Literal(JsonValue::String("#ffffff".to_string()));
        r
    }
}

/// Nested expression: ramp (`interpolate` / …) or regular [`Number`] operators.
#[derive(PartialEq, Debug, Clone)]
pub enum SkyHorizonFogBlendExpression {
    Number(Number),
    Ramp(NumberOrArrayOfNumberOrColorOrArrayOfColorOrProjection),
}

impl JsonDecode for SkyHorizonFogBlendExpression {
    open spec fn accepts(v: Json) -> bool {
        Number::accepts(v) || NumberOrArrayOfNumberOrColorOrArrayOfColorOrProjection::accepts(v)
    }

    open spec fn decodes(v: Json, x: Self) -> bool {
        match x {
            SkyHorizonFogBlendExpression::Number(t) => Number::accepts(v) && Number::decodes(v, t),
            SkyHorizonFogBlendExpression::Ramp(t) => !Number::accepts(v) && NumberOrArrayOfNumberOrColorOrArrayOfColorOrProjection::accepts(v) && NumberOrArrayOfNumberOrColorOrArrayOfColorOrProjection::decodes(v, t),
        }
    }

    open spec fn rejection(v: Json) -> Seq<char> {
        "data did not match any variant of untagged enum SkyHorizonFogBlendExpression"@
    }

    fn decode(v: &JsonValue) -> (r: Result<Self, String>) {
        let e0 = match Number::decode(v) {
            Ok(x) => {
                return Ok(SkyHorizonFogBlendExpression::Number(x));
            },
            Err(e) => e,
        };
        let e1 = match NumberOrArrayOfNumberOrColorOrArrayOfColorOrProjection::decode(v) {
            Ok(x) => {
                return Ok(SkyHorizonFogBlendExpression::Ramp(x));
            },
            Err(e) => e,
        };
        Err("data did not match any variant of untagged enum SkyHorizonFogBlendExpression".to_string())
    }
}

impl JsonEncode for SkyHorizonFogBlendExpression {
    open spec fn to_json(self) -> Json {
        match self {
            SkyHorizonFogBlendExpression::Number(t) => Number::to_json(t),
            SkyHorizonFogBlendExpression::Ramp(t) => NumberOrArrayOfNumberOrColorOrArrayOfColorOrProjection::to_json(t),
        }
    }

    open spec fn round_trips(self) -> bool {
        match self {
            SkyHorizonFogBlendExpression::Number(t) => Number::round_trips(t),
            SkyHorizonFogBlendExpression::Ramp(t) => NumberOrArrayOfNumberOrColorOrArrayOfColorOrProjection::round_trips(t) && !Number::accepts(NumberOrArrayOfNumberOrColorOrArrayOfColorOrProjection::to_json(t)),
        }
    }

    fn encode(&self) -> (r: JsonValue) {
        match self {
            SkyHorizonFogBlendExpression::Number(t) => Number::encode(t),
            SkyHorizonFogBlendExpression::Ramp(t) => NumberOrArrayOfNumberOrColorOrArrayOfColorOrProjection::encode(t),
        }
    }

    proof fn lemma_round_trip(self) {
        match self {
            SkyHorizonFogBlendExpression::Number(t) => Number::lemma_round_trip(t),
            SkyHorizonFogBlendExpression::Ramp(t) => NumberOrArrayOfNumberOrColorOrArrayOfColorOrProjection::lemma_round_trip(t),
        }
    }
}

/// How to blend the fog color and the horizon color. Where 0 is using the horizon color only and 1 is using the fog color only.
///
/// Range: 0..=1
#[derive(PartialEq, Debug, Clone)]
pub enum SkyHorizonFogBlend {
    Expr(Box<SkyHorizonFogBlendExpression>),
    Literal(JsonNumber),
}

impl JsonDecode for SkyHorizonFogBlend {
    open spec fn accepts(v: Json) -> bool {
        SkyHorizonFogBlendExpression::accepts(v) || JsonNumber::accepts(v)
    }

    open spec fn decodes(v: Json, x: Self) -> bool {
        match x {
            SkyHorizonFogBlend::Expr(t) => SkyHorizonFogBlendExpression::accepts(v) && SkyHorizonFogBlendExpression::decodes(v, *t),
            SkyHorizonFogBlend::Literal(t) => !SkyHorizonFogBlendExpression::accepts(v) && JsonNumber::accepts(v) && JsonNumber::decodes(v, t),
        }
    }

    open spec fn rejection(v: Json) -> Seq<char> {
        "data did not match any variant of untagged enum SkyHorizonFogBlend"@
    }

    fn decode(v: &JsonValue) -> (r: Result<Self, String>) {
        let e0 = match SkyHorizonFogBlendExpression::decode(v) {
            Ok(x) => {
                return Ok(SkyHorizonFogBlend::Expr(Box::new(x)));
            },
            Err(e) => e,
        };
        let e1 = match JsonNumber::decode(v) {
            Ok(x) => {
                return Ok(SkyHorizonFogBlend::Literal(x));
            },
            Err(e) => e,
        };
        Err("data did not match any variant of untagged enum SkyHorizonFogBlend".to_string())
    }
}

impl JsonEncode for SkyHorizonFogBlend {
    open spec fn to_json(self) -> Json {
        match self {
            SkyHorizonFogBlend::Expr(t) => SkyHorizonFogBlendExpression::to_json(*t),
            SkyHorizonFogBlend::Literal(t) => JsonNumber::to_json(t),
        }
    }

    open spec fn round_trips(self) -> bool {
        match self {
            SkyHorizonFogBlend::Expr(t) => SkyHorizonFogBlendExpression::round_trips(*t),
            SkyHorizonFogBlend::Literal(t) => JsonNumber::round_trips(t) && !SkyHorizonFogBlendExpression::accepts(JsonNumber::to_json(t)),
        }
    }

    fn encode(&self) -> (r: JsonValue) {
        match self {
            SkyHorizonFogBlend::Expr(t) => SkyHorizonFogBlendExpression::encode(&**t),
            SkyHorizonFogBlend::Literal(t) => JsonNumber::encode(t),
        }
    }

    proof fn lemma_round_trip(self) {
        match self {
            SkyHorizonFogBlend::Expr(t) => SkyHorizonFogBlendExpression::lemma_round_trip(*t),
            SkyHorizonFogBlend::Literal(t) => JsonNumber::lemma_round_trip(t),
        }
    }
}

impl Default for SkyHorizonFogBlend {
    fn default() -> (r: Self)
        ensures
            r.to_json() == Json::Number("0.8"@),
            r is Literal,
    {
        let r = SkyHorizonFogBlend::Literal(JsonNumber::from_literal("0.8"));
        r
    }
}

/// Nested expression: ramp (`interpolate-hcl`, …) or [`Color`] operators.
#[derive(PartialEq, Debug, Clone)]
pub enum SkySkyColorExpression {
    Color(Color),
    Ramp(ColorOrArrayOfColor),
}

impl JsonDecode for SkySkyColorExpression {
    open spec fn accepts(v: Json) -> bool {
        Color::accepts(v) || ColorOrArrayOfColor::accepts(v)
    }

    open spec fn decodes(v: Json, x: Self) -> bool {
        match x {
            SkySkyColorExpression::Color(t) => Color::accepts(v) && Color::decodes(v, t),
            SkySkyColorExpression::Ramp(t) => !Color::accepts(v) && ColorOrArrayOfColor::accepts(v) && ColorOrArrayOfColor::decodes(v, t),
        }
    }

    open spec fn rejection(v: Json) -> Seq<char> {
        "data did not match any variant of untagged enum SkySkyColorExpression"@
    }

    fn decode(v: &JsonValue) -> (r: Result<Self, String>) {
        let e0 = match Color::decode(v) {
            Ok(x) => {
                return Ok(SkySkyColorExpression::Color(x));
            },
            Err(e) => e,
        };
        let e1 = match ColorOrArrayOfColor::decode(v) {
            Ok(x) => {
                return Ok(SkySkyColorExpression::Ramp(x));
            },
            Err(e) => e,
        };
        Err("data did not match any variant of untagged enum SkySkyColorExpression".to_string())
    }
}

impl JsonEncode for SkySkyColorExpression {
    open spec fn to_json(self) -> Json {
        match self {
            SkySkyColorExpression::Color(t) => Color::to_json(t),
            SkySkyColorExpression::Ramp(t) => ColorOrArrayOfColor::to_json(t),
        }
    }

    open spec fn round_trips(self) -> bool {
        match self {
            SkySkyColorExpression::Color(t) => Color::round_trips(t),
            SkySkyColorExpression::Ramp(t) => ColorOrArrayOfColor::round_trips(t) && !Color::accepts(ColorOrArrayOfColor::to_json(t)),
        }
    }

    fn encode(&self) -> (r: JsonValue) {
        match self {
            SkySkyColorExpression::Color(t) => Color::encode(t),
            SkySkyColorExpression::Ramp(t) => ColorOrArrayOfColor::encode(t),
        }
    }

    proof fn lemma_round_trip(self) {
        match self {
            SkySkyColorExpression::Color(t) => Color::lemma_round_trip(t),
            SkySkyColorExpression::Ramp(t) => ColorOrArrayOfColor::lemma_round_trip(t),
        }
    }
}

/// The base color for the sky.
#[derive(PartialEq, Debug, Clone)]
pub enum SkySkyColor {
    Expr(Box<SkySkyColorExpression>),
    Literal(JsonValue),
}

impl JsonDecode for SkySkyColor {
    open spec fn accepts(v: Json) -> bool {
        SkySkyColorExpression::accepts(v) || JsonValue::accepts(v)
    }

    open spec fn decodes(v: Json, x: Self) -> bool {
        match x {
            SkySkyColor::Expr(t) => SkySkyColorExpression::accepts(v) && SkySkyColorExpression::decodes(v, *t),
            SkySkyColor::Literal(t) => !SkySkyColorExpression::accepts(v) && JsonValue::accepts(v) && JsonValue::decodes(v, t),
        }
    }

    open spec fn rejection(v: Json) -> Seq<char> {
        "data did not match any variant of untagged enum SkySkyColor"@
    }

    fn decode(v: &JsonValue) -> (r: Result<Self, String>) {
        let e0 = match SkySkyColorExpression::decode(v) {
            Ok(x) => {
                return Ok(SkySkyColor::Expr(Box::new(x)));
            },
            Err(e) => e,
        };
        let e1 = match JsonValue::decode(v) {
            Ok(x) => {
                return Ok(SkySkyColor::Literal(x));
            },
            Err(e) => e,
        };
        Err("data did not match any variant of untagged enum SkySkyColor".to_string())
    }
}

impl JsonEncode for SkySkyColor {
    open spec fn to_json(self) -> Json {
        match self {
            SkySkyColor::Expr(t) => SkySkyColorExpression::to_json(*t),
            SkySkyColor::Literal(t) => JsonValue::to_json(t),
        }
    }

    open spec fn round_trips(self) -> bool {
        match self {
            SkySkyColor::Expr(t) => SkySkyColorExpression::round_trips(*t),
            SkySkyColor::Literal(t) => JsonValue::round_trips(t) && !SkySkyColorExpression::accepts(JsonValue::to_json(t)),
        }
    }

    fn encode(&self) -> (r: JsonValue) {
        match self {
            SkySkyColor::Expr(t) => SkySkyColorExpression::encode(&**t),
            SkySkyColor::Literal(t) => JsonValue::encode(t),
        }
    }

    proof fn lemma_round_trip(self) {
        match self {
            SkySkyColor::Expr(t) => SkySkyColorExpression::lemma_round_trip(*t),
            SkySkyColor::Literal(t) => JsonValue::lemma_round_trip(t),
        }
    }
}

impl Default for SkySkyColor {
    fn default() -> (r: Self)
        ensures
            r.to_json() == Json::Str("#88C6FC"@),
            r is Literal,
    {
        let r = SkySkyColor::Literal(JsonValue::String("#88C6FC".to_string()));
        r
    }
}

/// Nested expression: ramp (`interpolate` / …) or regular [`Number`] operators.
#[derive(PartialEq, Debug, Clone)]
pub enum SkySkyHorizonBlendExpression {
    Number(Number),
    Ramp(NumberOrArrayOfNumberOrColorOrArrayOfColorOrProjection),
}

impl JsonDecode for SkySkyHorizonBlendExpression {
    open spec fn accepts(v: Json) -> bool {
        Number::accepts(v) || NumberOrArrayOfNumberOrColorOrArrayOfColorOrProjection::accepts(v)
    }

    open spec fn decodes(v: Json, x: Self) -> bool {
        match x {
            SkySkyHorizonBlendExpression::Number(t) => Number::accepts(v) && Number::decodes(v, t),
            SkySkyHorizonBlendExpression::Ramp(t) => !Number::accepts(v) && NumberOrArrayOfNumberOrColorOrArrayOfColorOrProjection::accepts(v) && NumberOrArrayOfNumberOrColorOrArrayOfColorOrProjection::decodes(v, t),
        }
    }

    open spec fn rejection(v: Json) -> Seq<char> {
        "data did not match any variant of untagged enum SkySkyHorizonBlendExpression"@
    }

    fn decode(v: &JsonValue) -> (r: Result<Self, String>) {
        let e0 = match Number::decode(v) {
            Ok(x) => {
                return Ok(SkySkyHorizonBlendExpression::Number(x));
            },
            Err(e) => e,
        };
        let e1 = match NumberOrArrayOfNumberOrColorOrArrayOfColorOrProjection::decode(v) {
            Ok(x) => {
                return Ok(SkySkyHorizonBlendExpression::Ramp(x));
            },
            Err(e) => e,
        };
        Err("data did not match any variant of untagged enum SkySkyHorizonBlendExpression".to_string())
    }
}

impl JsonEncode for SkySkyHorizonBlendExpression {
    open spec fn to_json(self) -> Json {
        match self {
            SkySkyHorizonBlendExpression::Number(t) => Number::to_json(t),
            SkySkyHorizonBlendExpression::Ramp(t) => NumberOrArrayOfNumberOrColorOrArrayOfColorOrProjection::to_json(t),
        }
    }

    open spec fn round_trips(self) -> bool {
        match self {
            SkySkyHorizonBlendExpression::Number(t) => Number::round_trips(t),
            SkySkyHorizonBlendExpression::Ramp(t) => NumberOrArrayOfNumberOrColorOrArrayOfColorOrProjection::round_trips(t) && !Number::accepts(NumberOrArrayOfNumberOrColorOrArrayOfColorOrProjection::to_json(t)),
        }
    }

    fn encode(&self) -> (r: JsonValue) {
        match self {
            SkySkyHorizonBlendExpression::Number(t) => Number::encode(t),
            SkySkyHorizonBlendExpression::Ramp(t) => NumberOrArrayOfNumberOrColorOrArrayOfColorOrProjection::encode(t),
        }
    }

    proof fn lemma_round_trip(self) {
        match self {
            SkySkyHorizonBlendExpression::Number(t) => Number::lemma_round_trip(t),
            SkySkyHorizonBlendExpression::Ramp(t) => NumberOrArrayOfNumberOrColorOrArrayOfColorOrProjection::lemma_round_trip(t),
        }
    }
}

/// How to blend the sky color and the horizon color. Where 1 is blending the color at the middle of the sky and 0 is not blending at all and using the sky color only.
///
/// Range: 0..=1
#[derive(PartialEq, Debug, Clone)]
pub enum SkySkyHorizonBlend {
    Expr(Box<SkySkyHorizonBlendExpression>),
    Literal(JsonNumber),
}

impl JsonDecode for SkySkyHorizonBlend {
    open spec fn accepts(v: Json) -> bool {
        SkySkyHorizonBlendExpression::accepts(v) || JsonNumber::accepts(v)
    }

    open spec fn decodes(v: Json, x: Self) -> bool {
        match x {
            SkySkyHorizonBlend::Expr(t) => SkySkyHorizonBlendExpression::accepts(v) && SkySkyHorizonBlendExpression::decodes(v, *t),
            SkySkyHorizonBlend::Literal(t) => !SkySkyHorizonBlendExpression::accepts(v) && JsonNumber::accepts(v) && JsonNumber::decodes(v, t),
        }
    }

    open spec fn rejection(v: Json) -> Seq<char> {
        "data did not match any variant of untagged enum SkySkyHorizonBlend"@
    }

    fn decode(v: &JsonValue) -> (r: Result<Self, String>) {
        let e0 = match SkySkyHorizonBlendExpression::decode(v) {
            Ok(x) => {
                return Ok(SkySkyHorizonBlend::Expr(Box::new(x)));
            },
            Err(e) => e,
        };
        let e1 = match JsonNumber::decode(v) {
            Ok(x) => {
                return Ok(SkySkyHorizonBlend::Literal(x));
            },
            Err(e) => e,
        };
        Err("data did not match any variant of untagged enum SkySkyHorizonBlend".to_string())
    }
}

impl JsonEncode for SkySkyHorizonBlend {
    open spec fn to_json(self) -> Json {
        match self {
            SkySkyHorizonBlend::Expr(t) => SkySkyHorizonBlendExpression::to_json(*t),
            SkySkyHorizonBlend::Literal(t) => JsonNumber::to_json(t),
        }
    }

    open spec fn round_trips(self) -> bool {
        match self {
            SkySkyHorizonBlend::Expr(t) => SkySkyHorizonBlendExpression::round_trips(*t),
            SkySkyHorizonBlend::Literal(t) => JsonNumber::round_trips(t) && !SkySkyHorizonBlendExpression::accepts(JsonNumber::to_json(t)),
        }
    }

    fn encode(&self) -> (r: JsonValue) {
        match self {
            SkySkyHorizonBlend::Expr(t) => SkySkyHorizonBlendExpression::encode(&**t),
            SkySkyHorizonBlend::Literal(t) => JsonNumber::encode(t),
        }
    }

    proof fn lemma_round_trip(self) {
        match self {
            SkySkyHorizonBlend::Expr(t) => SkySkyHorizonBlendExpression::lemma_round_trip(*t),
            SkySkyHorizonBlend::Literal(t) => JsonNumber::lemma_round_trip(t),
        }
    }
}

impl Default for SkySkyHorizonBlend {
    fn default() -> (r: Self)
        ensures
            r.to_json() == Json::Number("0.8"@),
            r is Literal,
    {
        let r = SkySkyHorizonBlend::Literal(JsonNumber::from_literal("0.8"));
        r
    }
}

#[derive(PartialEq, Debug, Clone)]
pub struct Terrain {
    /// The exaggeration of the terrain - how high it will look.
    ///
    /// Range: 0..
    pub exaggeration: Option<TerrainExaggeration>,
    /// The source for the terrain data.
    pub source: TerrainSource,
}

impl JsonDecode for Terrain {
    /// An object with the fields by their keys, or an array with the fields in order.
    open spec fn accepts(v: Json) -> bool {
        ||| (v is Object && {
            let o = v->Object_0;
            &&& opt_field_accepts::<TerrainExaggeration>(o, "exaggeration"@)
            &&& req_field_accepts::<TerrainSource>(o, "source"@)
        })
        ||| (v is Array && {
            let a = v->Array_0;
            &&& seq_opt_accepts::<TerrainExaggeration>(a, 0, false)
            &&& seq_req_accepts::<TerrainSource>(a, 1)
            &&& a.len() <= 2
        })
    }

    open spec fn decodes(v: Json, x: Self) -> bool {
        ||| (v is Object && {
            let o = v->Object_0;
            &&& opt_field_decodes::<TerrainExaggeration>(o, "exaggeration"@, x.exaggeration)
            &&& req_field_decodes::<TerrainSource>(o, "source"@, x.source)
        })
        ||| (v is Array && {
            let a = v->Array_0;
            &&& seq_opt_decodes::<TerrainExaggeration>(a, 0, x.exaggeration)
            &&& seq_req_decodes::<TerrainSource>(a, 1, x.source)
        })
    }

    /// For an object, the first entry in order whose value does not read as its field, else the
    /// first required field that is missing.
    open spec fn rejection(v: Json) -> Seq<char> {
        if v is Object {
            let o = v->Object_0;
            match Self::first_fault(o, 0) {
                Some(m) => m,
                None => if lookup(o, "source"@) is None {
                    missing_field("source"@)
                } else {
                    Seq::empty()
                },
            }
        } else if v is Array {
            let a = v->Array_0;
            if !seq_opt_accepts::<TerrainExaggeration>(a, 0, false) {
                seq_opt_rejection::<TerrainExaggeration>(a, 0, "struct Terrain with 2 elements"@)
            } else if !seq_req_accepts::<TerrainSource>(a, 1) {
                seq_req_rejection::<TerrainSource>(a, 1, "struct Terrain with 2 elements"@)
            } else if a.len() > 2 {
                length_error(a.len())
            } else {
                Seq::empty()
            }
        } else {
            type_error(v, "struct Terrain"@)
        }
    }

    fn decode(v: &JsonValue) -> (r: Result<Self, String>) {
        match v {
            JsonValue::Object(fields) => {
                let exaggeration = match decode_opt_field::<TerrainExaggeration>(fields, "exaggeration") {
                    Ok(x) => x,
                    Err(_) => return Err(Self::object_rejection(fields)),
                };
                let source = match decode_req_field::<TerrainSource>(fields, "source") {
                    Ok(x) => x,
                    Err(_) => return Err(Self::object_rejection(fields)),
                };
                Ok(Terrain { exaggeration, source })
            },
            JsonValue::Array(a) => {
                let exaggeration = match decode_seq_opt::<TerrainExaggeration>(a, 0, false, "struct Terrain with 2 elements") {
                    Ok(x) => x,
                    Err(e) => return Err(e),
                };
                let source = match decode_seq_req::<TerrainSource>(a, 1, "struct Terrain with 2 elements") {
                    Ok(x) => x,
                    Err(e) => return Err(e),
                };
                if a.len() > 2 {
                    return Err(make_length_error(a.len()));
                }
                Ok(Terrain { exaggeration, source })
            },
            _ => Err(make_type_error(v, "struct Terrain")),
        }
    }
}

impl Terrain {
    /// What is wrong with the value `w` of an entry with key `k`, where `k` is the key of a field.
    pub open spec fn field_fault(k: Seq<char>, w: Json) -> Option<Seq<char>> {
        if k == "exaggeration"@ {
            if w is Null || TerrainExaggeration::accepts(w) {
                None
            } else {
                Some(TerrainExaggeration::rejection(w))
            }
        } else if k == "source"@ {
            if TerrainSource::accepts(w) {
                None
            } else {
                Some(TerrainSource::rejection(w))
            }
        } else {
            None
        }
    }

    /// The message of the first entry of `o`, from entry `i` on and among the first entries of
    /// their keys, whose value does not read as its field, if any.
    pub open spec fn first_fault(o: Seq<(Seq<char>, Json)>, i: int) -> Option<Seq<char>>
        decreases o.len() - i,
    {
        if i < 0 || i >= o.len() {
            None
        } else if first_with_key(o, i) && Self::field_fault(o[i].0, o[i].1) is Some {
            Self::field_fault(o[i].0, o[i].1)
        } else {
            Self::first_fault(o, i + 1)
        }
    }

    fn find_field_fault(k: &str, w: &JsonValue) -> (r: Option<String>)
        ensures
            match r {
                Some(m) => Self::field_fault(k@, w.model()) == Some(m@),
                None => Self::field_fault(k@, w.model()) is None,
            },
    {
        if str_eq(k, "exaggeration") {
            match w {
                JsonValue::Null => None,
                _ => match TerrainExaggeration::decode(w) {
                    Ok(_) => None,
                    Err(e) => Some(e),
                },
            }
        } else if str_eq(k, "source") {
            match TerrainSource::decode(w) {
                Ok(_) => None,
                Err(e) => Some(e),
            }
        } else {
            None
        }
    }

    fn object_rejection(fields: &Vec<(String, JsonValue)>) -> (r: String)
        ensures
            r@ == Self::rejection(JsonValue::Object(*fields).model()),
    {
        let ghost o = entries_model(*fields);
        let mut i: usize = 0;
        while i < fields.len()
            invariant
                o == entries_model(*fields),
                o.len() == fields.len(),
                i <= fields.len(),
                Self::first_fault(o, 0) == Self::first_fault(o, i as int),
            decreases fields.len() - i,
        {
            proof {
                assert(o[i as int] == (fields@[i as int].0@, fields@[i as int].1.model()));
            }
            if !key_seen_before(fields, i) {
                match Self::find_field_fault(fields[i].0.as_str(), &fields[i].1) {
                    Some(m) => {
                        return m;
                    },
                    None => {},
                }
            }
            i += 1;
        }
        if get_field(fields, "source").is_none() {
            return make_missing_field("source");
        }
        String::new()
    }
}

impl Terrain {
    /// The keys of the fields, in order.
    pub open spec fn field_keys() -> Seq<Seq<char>> {
        seq!["exaggeration"@, "source"@]
    }

    /// The entries that each field is written as, in order.
    pub open spec fn field_entries(self) -> Seq<Seq<(Seq<char>, Json)>> {
        seq![nul_entry::<TerrainExaggeration>("exaggeration"@, self.exaggeration), req_entry::<TerrainSource>("source"@, self.source)]
    }

    proof fn lemma_keys_differ(i: int)
        requires
            0 <= i < 2,
        ensures
            others_differ(Self::field_keys(), i),
    {
        reveal_strlit("exaggeration");
        assert("exaggeration"@.len() == 12);
        reveal_strlit("source");
        assert("source"@.len() == 6);
    }
}

impl JsonEncode for Terrain {
    open spec fn to_json(self) -> Json {
        Json::Object(self.field_entries().flatten())
    }

    open spec fn round_trips(self) -> bool {
        &&& (self.exaggeration matches Some(t) ==> t.round_trips() && !(t.to_json() is Null))
        &&& self.source.round_trips()
    }

    fn encode(&self) -> (r: JsonValue) {
        let mut out: Vec<(String, JsonValue)> = Vec::new();
        let ghost s0 = Seq::<Seq<(Seq<char>, Json)>>::empty();
        proof {
            assert(entries_model(out) =~= s0.flatten());
        }
        push_nul_entry::<TerrainExaggeration>(&mut out, "exaggeration", &self.exaggeration);
        let ghost s1 = s0.push(nul_entry::<TerrainExaggeration>("exaggeration"@, self.exaggeration));
        proof {
            s0.lemma_flatten_push(nul_entry::<TerrainExaggeration>("exaggeration"@, self.exaggeration));
            assert(entries_model(out) =~= s1.flatten());
        }
        push_req_entry::<TerrainSource>(&mut out, "source", &self.source);
        let ghost s2 = s1.push(req_entry::<TerrainSource>("source"@, self.source));
        proof {
            s1.lemma_flatten_push(req_entry::<TerrainSource>("source"@, self.source));
            assert(entries_model(out) =~= s2.flatten());
        }
        proof {
            assert(self.field_entries() == s2);
        }
        JsonValue::Object(out)
    }

    proof fn lemma_round_trip(self) {
        let keys = Self::field_keys();
        let es = self.field_entries();
        assert(keyed_by(es, keys));
        Self::lemma_keys_differ(0);
        lemma_lookup_flatten(es, keys, 0);
        lemma_lookup_nul_entry::<TerrainExaggeration>("exaggeration"@, self.exaggeration, "exaggeration"@);
        if self.exaggeration is Some {
            self.exaggeration->0.lemma_round_trip();
        }
        Self::lemma_keys_differ(1);
        lemma_lookup_flatten(es, keys, 1);
        lemma_lookup_req_entry::<TerrainSource>("source"@, self.source, "source"@);
        self.source.lemma_round_trip();
    }
}

/// The exaggeration of the terrain - how high it will look.
///
/// Range: 0..
#[derive(PartialEq, Debug, Clone)]
pub struct TerrainExaggeration(JsonNumber);

impl View for TerrainExaggeration {
    type V = Seq<char>;

    closed spec fn view(&self) -> Seq<char> {
        self.0@
    }
}

impl JsonDecode for TerrainExaggeration {
    open spec fn accepts(v: Json) -> bool {
        v is Number
    }

    open spec fn decodes(v: Json, x: Self) -> bool {
        v == Json::Number(x@)
    }

    open spec fn rejection(v: Json) -> Seq<char> {
        JsonNumber::rejection(v)
    }

    fn decode(v: &JsonValue) -> (r: Result<Self, String>) {
        match JsonNumber::decode(v) {
            Ok(x) => Ok(TerrainExaggeration(x)),
            Err(e) => Err(e),
        }
    }
}

impl JsonEncode for TerrainExaggeration {
    open spec fn to_json(self) -> Json {
        Json::Number(self@)
    }

    open spec fn round_trips(self) -> bool {
        true
    }

    fn encode(&self) -> (r: JsonValue) {
        JsonNumber::encode(&self.0)
    }

    proof fn lemma_round_trip(self) {
        JsonNumber::lemma_round_trip(self.0);
    }
}

impl Default for TerrainExaggeration {
    fn default() -> (r: Self)
        ensures
            r.to_json() == Json::Number("1.0"@),
    {
        let r = TerrainExaggeration(JsonNumber::from_literal("1.0"));
        r
    }
}

/// The source for the terrain data.
#[derive(PartialEq, Debug, Clone)]
pub struct TerrainSource(String);

impl View for TerrainSource {
    type V = Seq<char>;

    closed spec fn view(&self) -> Seq<char> {
        self.0@
    }
}

impl JsonDecode for TerrainSource {
    open spec fn accepts(v: Json) -> bool {
        v is Str
    }

    open spec fn decodes(v: Json, x: Self) -> bool {
        v == Json::Str(x@)
    }

    open spec fn rejection(v: Json) -> Seq<char> {
        String::rejection(v)
    }

    fn decode(v: &JsonValue) -> (r: Result<Self, String>) {
        match String::decode(v) {
            Ok(x) => Ok(TerrainSource(x)),
            Err(e) => Err(e),
        }
    }
}

impl JsonEncode for TerrainSource {
    open spec fn to_json(self) -> Json {
        Json::Str(self@)
    }

    open spec fn round_trips(self) -> bool {
        true
    }

    fn encode(&self) -> (r: JsonValue) {
        String::encode(&self.0)
    }

    proof fn lemma_round_trip(self) {
        String::lemma_round_trip(self.0);
    }
}

#[derive(PartialEq, Debug, Clone)]
pub struct Transition {
    /// Length of time before a transition begins.
    ///
    /// Range: 0..
    pub delay: Option<TransitionDelay>,
    /// Time allotted for transitions to complete.
    ///
    /// Range: 0..
    pub duration: Option<TransitionDuration>,
}

impl JsonDecode for Transition {
    /// An object with the fields by their keys, or an array with the fields in order.
    open spec fn accepts(v: Json) -> bool {
        ||| (v is Object && {
            let o = v->Object_0;
            &&& opt_field_accepts::<TransitionDelay>(o, "delay"@)
            &&& opt_field_accepts::<TransitionDuration>(o, "duration"@)
        })
        ||| (v is Array && {
            let a = v->Array_0;
            &&& seq_opt_accepts::<TransitionDelay>(a, 0, false)
            &&& seq_opt_accepts::<TransitionDuration>(a, 1, false)
            &&& a.len() <= 2
        })
    }

    open spec fn decodes(v: Json, x: Self) -> bool {
        ||| (v is Object && {
            let o = v->Object_0;
            &&& opt_field_decodes::<TransitionDelay>(o, "delay"@, x.delay)
            &&& opt_field_decodes::<TransitionDuration>(o, "duration"@, x.duration)
        })
        ||| (v is Array && {
            let a = v->Array_0;
            &&& seq_opt_decodes::<TransitionDelay>(a, 0, x.delay)
            &&& seq_opt_decodes::<TransitionDuration>(a, 1, x.duration)
        })
    }

    /// For an object, the first entry in order whose value does not read as its field, else the
    /// first required field that is missing.
    open spec fn rejection(v: Json) -> Seq<char> {
        if v is Object {
            let o = v->Object_0;
            match Self::first_fault(o, 0) {
                Some(m) => m,
                None => {
                    Seq::empty()
                },
            }
        } else if v is Array {
            let a = v->Array_0;
            if !seq_opt_accepts::<TransitionDelay>(a, 0, false) {
                seq_opt_rejection::<TransitionDelay>(a, 0, "struct Transition with 2 elements"@)
            } else if !seq_opt_accepts::<TransitionDuration>(a, 1, false) {
                seq_opt_rejection::<TransitionDuration>(a, 1, "struct Transition with 2 elements"@)
            } else if a.len() > 2 {
                length_error(a.len())
            } else {
                Seq::empty()
            }
        } else {
            type_error(v, "struct Transition"@)
        }
    }

    fn decode(v: &JsonValue) -> (r: Result<Self, String>) {
        match v {
            JsonValue::Object(fields) => {
                let delay = match decode_opt_field::<TransitionDelay>(fields, "delay") {
                    Ok(x) => x,
                    Err(_) => return Err(Self::object_rejection(fields)),
                };
                let duration = match decode_opt_field::<TransitionDuration>(fields, "duration") {
                    Ok(x) => x,
                    Err(_) => return Err(Self::object_rejection(fields)),
                };
                Ok(Transition { delay, duration })
            },
            JsonValue::Array(a) => {
                let delay = match decode_seq_opt::<TransitionDelay>(a, 0, false, "struct Transition with 2 elements") {
                    Ok(x) => x,
                    Err(e) => return Err(e),
                };
                let duration = match decode_seq_opt::<TransitionDuration>(a, 1, false, "struct Transition with 2 elements") {
                    Ok(x) => x,
                    Err(e) => return Err(e),
                };
                if a.len() > 2 {
                    return Err(make_length_error(a.len()));
                }
                Ok(Transition { delay, duration })
            },
            _ => Err(make_type_error(v, "struct Transition")),
        }
    }
}

impl Transition {
    /// What is wrong with the value `w` of an entry with key `k`, where `k` is the key of a field.
    pub open spec fn field_fault(k: Seq<char>, w: Json) -> Option<Seq<char>> {
        if k == "delay"@ {
            if w is Null || TransitionDelay::accepts(w) {
                None
            } else {
                Some(TransitionDelay::rejection(w))
            }
        } else if k == "duration"@ {
            if w is Null || TransitionDuration::accepts(w) {
                None
            } else {
                Some(TransitionDuration::rejection(w))
            }
        } else {
            None
        }
    }

    /// The message of the first entry of `o`, from entry `i` on and among the first entries of
    /// their keys, whose value does not read as its field, if any.
    pub open spec fn first_fault(o: Seq<(Seq<char>, Json)>, i: int) -> Option<Seq<char>>
        decreases o.len() - i,
    {
        if i < 0 || i >= o.len() {
            None
        } else if first_with_key(o, i) && Self::field_fault(o[i].0, o[i].1) is Some {
            Self::field_fault(o[i].0, o[i].1)
        } else {
            Self::first_fault(o, i + 1)
        }
    }

    fn find_field_fault(k: &str, w: &JsonValue) -> (r: Option<String>)
        ensures
            match r {
                Some(m) => Self::field_fault(k@, w.model()) == Some(m@),
                None => Self::field_fault(k@, w.model()) is None,
            },
    {
        if str_eq(k, "delay") {
            match w {
                JsonValue::Null => None,
                _ => match TransitionDelay::decode(w) {
                    Ok(_) => None,
                    Err(e) => Some(e),
                },
            }
        } else if str_eq(k, "duration") {
            match w {
                JsonValue::Null => None,
                _ => match TransitionDuration::decode(w) {
                    Ok(_) => None,
                    Err(e) => Some(e),
                },
            }
        } else {
            None
        }
    }

    fn object_rejection(fields: &Vec<(String, JsonValue)>) -> (r: String)
        ensures
            r@ == Self::rejection(JsonValue::Object(*fields).model()),
    {
        let ghost o = entries_model(*fields);
        let mut i: usize = 0;
        while i < fields.len()
            invariant
                o == entries_model(*fields),
                o.len() == fields.len(),
                i <= fields.len(),
                Self::first_fault(o, 0) == Self::first_fault(o, i as int),
            decreases fields.len() - i,
        {
            proof {
                assert(o[i as int] == (fields@[i as int].0@, fields@[i as int].1.model()));
            }
            if !key_seen_before(fields, i) {
                match Self::find_field_fault(fields[i].0.as_str(), &fields[i].1) {
                    Some(m) => {
                        return m;
                    },
                    None => {},
                }
            }
            i += 1;
        }
        String::new()
    }
}

impl Transition {
    /// The keys of the fields, in order.
    pub open spec fn field_keys() -> Seq<Seq<char>> {
        seq!["delay"@, "duration"@]
    }

    /// The entries that each field is written as, in order.
    pub open spec fn field_entries(self) -> Seq<Seq<(Seq<char>, Json)>> {
        seq![nul_entry::<TransitionDelay>("delay"@, self.delay), nul_entry::<TransitionDuration>("duration"@, self.duration)]
    }

    proof fn lemma_keys_differ(i: int)
        requires
            0 <= i < 2,
        ensures
            others_differ(Self::field_keys(), i),
    {
        reveal_strlit("delay");
        assert("delay"@.len() == 5);
        reveal_strlit("duration");
        assert("duration"@.len() == 8);
    }
}

impl JsonEncode for Transition {
    open spec fn to_json(self) -> Json {
        Json::Object(self.field_entries().flatten())
    }

    open spec fn round_trips(self) -> bool {
        &&& (self.delay matches Some(t) ==> t.round_trips() && !(t.to_json() is Null))
        &&& (self.duration matches Some(t) ==> t.round_trips() && !(t.to_json() is Null))
    }

    fn encode(&self) -> (r: JsonValue) {
        let mut out: Vec<(String, JsonValue)> = Vec::new();
        let ghost s0 = Seq::<Seq<(Seq<char>, Json)>>::empty();
        proof {
            assert(entries_model(out) =~= s0.flatten());
        }
        push_nul_entry::<TransitionDelay>(&mut out, "delay", &self.delay);
        let ghost s1 = s0.push(nul_entry::<TransitionDelay>("delay"@, self.delay));
        proof {
            s0.lemma_flatten_push(nul_entry::<TransitionDelay>("delay"@, self.delay));
            assert(entries_model(out) =~= s1.flatten());
        }
        push_nul_entry::<TransitionDuration>(&mut out, "duration", &self.duration);
        let ghost s2 = s1.push(nul_entry::<TransitionDuration>("duration"@, self.duration));
        proof {
            s1.lemma_flatten_push(nul_entry::<TransitionDuration>("duration"@, self.duration));
            assert(entries_model(out) =~= s2.flatten());
        }
        proof {
            assert(self.field_entries() == s2);
        }
        JsonValue::Object(out)
    }

    proof fn lemma_round_trip(self) {
        let keys = Self::field_keys();
        let es = self.field_entries();
        assert(keyed_by(es, keys));
        Self::lemma_keys_differ(0);
        lemma_lookup_flatten(es, keys, 0);
        lemma_lookup_nul_entry::<TransitionDelay>("delay"@, self.delay, "delay"@);
        if self.delay is Some {
            self.delay->0.lemma_round_trip();
        }
        Self::lemma_keys_differ(1);
        lemma_lookup_flatten(es, keys, 1);
        lemma_lookup_nul_entry::<TransitionDuration>("duration"@, self.duration, "duration"@);
        if self.duration is Some {
            self.duration->0.lemma_round_trip();
        }
    }
}

/// Length of time before a transition begins.
///
/// Range: 0..
#[derive(PartialEq, Debug, Clone)]
pub struct TransitionDelay(JsonNumber);

impl View for TransitionDelay {
    type V = Seq<char>;

    closed spec fn view(&self) -> Seq<char> {
        self.0@
    }
}

impl JsonDecode for TransitionDelay {
    open spec fn accepts(v: Json) -> bool {
        v is Number
    }

    open spec fn decodes(v: Json, x: Self) -> bool {
        v == Json::Number(x@)
    }

    open spec fn rejection(v: Json) -> Seq<char> {
        JsonNumber::rejection(v)
    }

    fn decode(v: &JsonValue) -> (r: Result<Self, String>) {
        match JsonNumber::decode(v) {
            Ok(x) => Ok(TransitionDelay(x)),
            Err(e) => Err(e),
        }
    }
}

impl JsonEncode for TransitionDelay {
    open spec fn to_json(self) -> Json {
        Json::Number(self@)
    }

    open spec fn round_trips(self) -> bool {
        true
    }

    fn encode(&self) -> (r: JsonValue) {
        JsonNumber::encode(&self.0)
    }

    proof fn lemma_round_trip(self) {
        JsonNumber::lemma_round_trip(self.0);
    }
}

impl Default for TransitionDelay {
    fn default() -> (r: Self)
        ensures
            r.to_json() == Json::Number("0"@),
    {
        let r = TransitionDelay(JsonNumber::from_literal("0"));
        r
    }
}

/// Time allotted for transitions to complete.
///
/// Range: 0..
#[derive(PartialEq, Debug, Clone)]
pub struct TransitionDuration(JsonNumber);

impl View for TransitionDuration {
    type V = Seq<char>;

    closed spec fn view(&self) -> Seq<char> {
        self.0@
    }
}

impl JsonDecode for TransitionDuration {
    open spec fn accepts(v: Json) -> bool {
        v is Number
    }

    open spec fn decodes(v: Json, x: Self) -> bool {
        v == Json::Number(x@)
    }

    open spec fn rejection(v: Json) -> Seq<char> {
        JsonNumber::rejection(v)
    }

    fn decode(v: &JsonValue) -> (r: Result<Self, String>) {
        match JsonNumber::decode(v) {
            Ok(x) => Ok(TransitionDuration(x)),
            Err(e) => Err(e),
        }
    }
}

impl JsonEncode for TransitionDuration {
    open spec fn to_json(self) -> Json {
        Json::Number(self@)
    }

    open spec fn round_trips(self) -> bool {
        true
    }

    fn encode(&self) -> (r: JsonValue) {
        JsonNumber::encode(&self.0)
    }

    proof fn lemma_round_trip(self) {
        JsonNumber::lemma_round_trip(self.0);
    }
}

impl Default for TransitionDuration {
    fn default() -> (r: Self)
        ensures
            r.to_json() == Json::Number("300"@),
    {
        let r = TransitionDuration(JsonNumber::from_literal("300"));
        r
    }
}


/// First element in an interpolation array. May be followed by a number of arguments.
#[derive(PartialEq, Debug, Clone)]
pub enum InterpolationName {
    /// Interpolates using the cubic bézier curve defined by the given control points.
    CubicBezier(NumberLiteral, NumberLiteral, NumberLiteral, NumberLiteral),
    /// Interpolates exponentially between the stops just less than and just greater than the input.
    Exponential(NumberLiteral),
    /// Interpolates linearly between the pair of stops just less than and just greater than the input
    Linear,
}

/// What an interpolation is read from, as a message names it.
pub open spec fn interpolation_expecting() -> Seq<char> {
    "an InterpolationName expression (example: [\"cubic-bezier\",2,3,2,3])"@
}

/// Whether item `i` of `a` is there and reads as a number.
pub open spec fn arg_ok(a: Seq<Json>, i: int) -> bool {
    i < a.len() && NumberLiteral::accepts(a[i])
}

/// The message of item `i` of `a`, named `name`, that is missing or is no number.
pub open spec fn arg_rejection(a: Seq<Json>, i: int, name: Seq<char>) -> Seq<char> {
    if i < a.len() {
        NumberLiteral::rejection(a[i])
    } else {
        missing_field(name)
    }
}

/// Reads item `i` of `a`, named `name`, as a number.
fn decode_arg(a: &Vec<JsonValue>, i: usize, name: &str) -> (r: Result<NumberLiteral, String>)
    ensures
        r is Ok <==> arg_ok(items_model(*a), i as int),
        r matches Ok(x) ==> NumberLiteral::decodes(items_model(*a)[i as int], x),
        r matches Err(e) ==> e@ == arg_rejection(items_model(*a), i as int, name@),
{
    if i < a.len() {
        proof {
            assert(items_model(*a)[i as int] == a@[i as int].model());
        }
        NumberLiteral::decode(&a[i])
    } else {
        Err(make_missing_field(name))
    }
}

impl InterpolationName {
    /// The message of an array `a` whose operator is `op` and that does not read as an interpolation.
    pub open spec fn operator_rejection(op: Seq<char>, a: Seq<Json>) -> Seq<char> {
        if op == "cubic-bezier"@ {
            if !arg_ok(a, 1) {
                arg_rejection(a, 1, "x1"@)
            } else if !arg_ok(a, 2) {
                arg_rejection(a, 2, "y1"@)
            } else if !arg_ok(a, 3) {
                arg_rejection(a, 3, "x2"@)
            } else if !arg_ok(a, 4) {
                arg_rejection(a, 4, "y2"@)
            } else {
                length_error(a.len())
            }
        } else if op == "exponential"@ {
            if !arg_ok(a, 1) {
                arg_rejection(a, 1, "base"@)
            } else {
                length_error(a.len())
            }
        } else if op == "linear"@ {
            length_error(a.len())
        } else {
            unknown_variant(op) + ", expected one of `cubic-bezier`, `exponential`, `linear`"@
        }
    }
}

impl JsonDecode for InterpolationName {
    open spec fn accepts(v: Json) -> bool {
        v is Array && {
            let a = v->Array_0;
            &&& a.len() > 0
            &&& a[0] is Str
            &&& {
                let op = a[0]->Str_0;
                if op == "cubic-bezier"@ {
                    a.len() == 5 && arg_ok(a, 1) && arg_ok(a, 2) && arg_ok(a, 3) && arg_ok(a, 4)
                } else if op == "exponential"@ {
                    a.len() == 2 && arg_ok(a, 1)
                } else {
                    op == "linear"@ && a.len() == 1
                }
            }
        }
    }

    open spec fn decodes(v: Json, x: Self) -> bool {
        v is Array && {
            let a = v->Array_0;
            match x {
                InterpolationName::CubicBezier(x1, y1, x2, y2) => {
                    &&& a.len() == 5
                    &&& a[0] == Json::Str("cubic-bezier"@)
                    &&& NumberLiteral::decodes(a[1], x1)
                    &&& NumberLiteral::decodes(a[2], y1)
                    &&& NumberLiteral::decodes(a[3], x2)
                    &&& NumberLiteral::decodes(a[4], y2)
                },
                InterpolationName::Exponential(base) => {
                    &&& a.len() == 2
                    &&& a[0] == Json::Str("exponential"@)
                    &&& NumberLiteral::decodes(a[1], base)
                },
                InterpolationName::Linear => a.len() == 1 && a[0] == Json::Str("linear"@),
            }
        }
    }

    open spec fn rejection(v: Json) -> Seq<char> {
        if !(v is Array) {
            type_error(v, interpolation_expecting())
        } else {
            let a = v->Array_0;
            if a.len() == 0 {
                "missing operator"@
            } else if !(a[0] is Str) {
                type_error(a[0], "a string"@)
            } else {
                Self::operator_rejection(a[0]->Str_0, a)
            }
        }
    }

    fn decode(v: &JsonValue) -> (r: Result<Self, String>) {
        match v {
            JsonValue::Array(a) => {
                let ghost m = items_model(*a);
                if a.len() == 0 {
                    return Err("missing operator".to_string());
                }
                proof {
                    assert(m[0] == a@[0].model());
                }
                let op = match &a[0] {
                    JsonValue::String(s) => s.as_str(),
                    _ => return Err(make_type_error(&a[0], "a string")),
                };
                if str_eq(op, "cubic-bezier") {
                    let x1 = match decode_arg(a, 1, "x1") {
                        Ok(x) => x,
                        Err(e) => return Err(e),
                    };
                    let y1 = match decode_arg(a, 2, "y1") {
                        Ok(x) => x,
                        Err(e) => return Err(e),
                    };
                    let x2 = match decode_arg(a, 3, "x2") {
                        Ok(x) => x,
                        Err(e) => return Err(e),
                    };
                    let y2 = match decode_arg(a, 4, "y2") {
                        Ok(x) => x,
                        Err(e) => return Err(e),
                    };
                    if a.len() != 5 {
                        return Err(make_length_error(a.len()));
                    }
                    Ok(InterpolationName::CubicBezier(x1, y1, x2, y2))
                } else if str_eq(op, "exponential") {
                    let base = match decode_arg(a, 1, "base") {
                        Ok(x) => x,
                        Err(e) => return Err(e),
                    };
                    if a.len() != 2 {
                        return Err(make_length_error(a.len()));
                    }
                    Ok(InterpolationName::Exponential(base))
                } else if str_eq(op, "linear") {
                    if a.len() != 1 {
                        return Err(make_length_error(a.len()));
                    }
                    Ok(InterpolationName::Linear)
                } else {
                    let mut msg = make_unknown_variant(op);
                    msg.append(", expected one of `cubic-bezier`, `exponential`, `linear`");
                    Err(msg)
                }
            },
            _ => Err(make_type_error(
                v,
                "an InterpolationName expression (example: [\"cubic-bezier\",2,3,2,3])",
            )),
        }
    }
}

impl JsonEncode for InterpolationName {
    /// A value is written with its variant's name as the tag: an object from the name to the
    /// arguments, or the bare name for `Linear`.
    open spec fn to_json(self) -> Json {
        match self {
            InterpolationName::CubicBezier(x1, y1, x2, y2) => Json::Object(
                seq![("CubicBezier"@, Json::Array(seq![x1.to_json(), y1.to_json(), x2.to_json(), y2.to_json()]))],
            ),
            InterpolationName::Exponential(base) => Json::Object(seq![("Exponential"@, base.to_json())]),
            InterpolationName::Linear => Json::Str("Linear"@),
        }
    }

    /// The written form is not the form that is read, so no value comes back.
    open spec fn round_trips(self) -> bool {
        false
    }

    fn encode(&self) -> (r: JsonValue) {
        match self {
            InterpolationName::CubicBezier(x1, y1, x2, y2) => {
                let mut args: Vec<JsonValue> = Vec::new();
                args.push(x1.encode());
                args.push(y1.encode());
                args.push(x2.encode());
                args.push(y2.encode());
                let mut out: Vec<(String, JsonValue)> = Vec::new();
                let args = JsonValue::Array(args);
                proof {
                    assert(args.model()->Array_0 =~= seq![x1.to_json(), y1.to_json(), x2.to_json(), y2.to_json()]);
                }
                out.push(("CubicBezier".to_string(), args));
                let r = JsonValue::Object(out);
                proof {
                    assert(r.model()->Object_0 =~= self.to_json()->Object_0);
                }
                r
            },
            InterpolationName::Exponential(base) => {
                let mut out: Vec<(String, JsonValue)> = Vec::new();
                out.push(("Exponential".to_string(), base.encode()));
                let r = JsonValue::Object(out);
                proof {
                    assert(r.model()->Object_0 =~= self.to_json()->Object_0);
                }
                r
            },
            InterpolationName::Linear => JsonValue::String("Linear".to_string()),
        }
    }

    proof fn lemma_round_trip(self) {
    }
}

/// A value that is written as `null`.
#[derive(PartialEq, Debug, Clone)]
pub struct PropertyType;

impl JsonDecode for PropertyType {
    open spec fn accepts(v: Json) -> bool {
        v is Null
    }

    open spec fn decodes(v: Json, x: Self) -> bool {
        v is Null
    }

    open spec fn rejection(v: Json) -> Seq<char> {
        type_error(v, "unit struct PropertyType"@)
    }

    fn decode(v: &JsonValue) -> (r: Result<Self, String>) {
        match v {
            JsonValue::Null => Ok(PropertyType),
            _ => Err(make_type_error(v, "unit struct PropertyType")),
        }
    }
}

impl JsonEncode for PropertyType {
    open spec fn to_json(self) -> Json {
        Json::Null
    }

    open spec fn round_trips(self) -> bool {
        true
    }

    fn encode(&self) -> (r: JsonValue) {
        JsonValue::Null
    }

    proof fn lemma_round_trip(self) {
    }
}

/// Whether the text `a` comes before the text `b`, comparing character by character.
pub open spec fn text_less(a: Seq<char>, b: Seq<char>) -> bool
    decreases a.len(),
{
    if a.len() == 0 {
        b.len() > 0
    } else if b.len() == 0 {
        false
    } else if a[0] != b[0] {
        (a[0] as int) < (b[0] as int)
    } else {
        text_less(a.drop_first(), b.drop_first())
    }
}

proof fn lemma_text_less_irreflexive(a: Seq<char>)
    ensures
        !text_less(a, a),
    decreases a.len(),
{
    if a.len() > 0 {
        lemma_text_less_irreflexive(a.drop_first());
    }
}

proof fn lemma_text_less_transitive(a: Seq<char>, b: Seq<char>, c: Seq<char>)
    requires
        text_less(a, b),
        text_less(b, c),
    ensures
        text_less(a, c),
    decreases a.len(),
{
    if a.len() > 0 && b.len() > 0 && c.len() > 0 && a[0] == b[0] && b[0] == c[0] {
        lemma_text_less_transitive(a.drop_first(), b.drop_first(), c.drop_first());
    }
}

proof fn lemma_text_less_total(a: Seq<char>, b: Seq<char>)
    requires
        a != b,
    ensures
        text_less(a, b) || text_less(b, a),
    decreases a.len(),
{
    if a.len() > 0 && b.len() > 0 && a[0] == b[0] {
        if a.drop_first() == b.drop_first() {
            assert(a =~= seq![a[0]] + a.drop_first());
            assert(b =~= seq![b[0]] + b.drop_first());
        }
        lemma_text_less_total(a.drop_first(), b.drop_first());
    } else if a.len() > 0 && b.len() > 0 {
        assert((a[0] as int) != (b[0] as int));
    } else if a.len() == 0 && b.len() == 0 {
        assert(a =~= b);
    }
}

/// Whether `a` comes before `b`, comparing character by character.
pub fn text_before(a: &str, b: &str) -> (r: bool)
    ensures
        r == text_less(a@, b@),
{
    let la = a.unicode_len();
    let lb = b.unicode_len();
    let mut i: usize = 0;
    proof {
        assert(a@.skip(0) =~= a@);
        assert(b@.skip(0) =~= b@);
    }
    while i < la && i < lb
        invariant
            la == a@.len(),
            lb == b@.len(),
            i <= la,
            i <= lb,
            text_less(a@, b@) == text_less(a@.skip(i as int), b@.skip(i as int)),
        decreases la - i,
    {
        let ca = a.get_char(i);
        let cb = b.get_char(i);
        let ghost sa = a@.skip(i as int);
        let ghost sb = b@.skip(i as int);
        proof {
            assert(sa[0] == ca);
            assert(sb[0] == cb);
            assert(sa.drop_first() =~= a@.skip(i + 1));
            assert(sb.drop_first() =~= b@.skip(i + 1));
        }
        if ca != cb {
            return (ca as u32) < (cb as u32);
        }
        i += 1;
    }
    i < lb
}

/// The entries of a map of promoted properties, as texts.
pub open spec fn star_entries(s: Seq<(String, PromoteIdStar)>) -> Seq<(Seq<char>, Seq<char>)> {
    s.map_values(|e: (String, PromoteIdStar)| (e.0@, e.1@))
}

/// Whether each key of `s` comes before the keys that follow it.
pub open spec fn keys_increasing(s: Seq<(Seq<char>, Seq<char>)>) -> bool {
    forall|i: int, j: int| 0 <= i < j < s.len() ==> text_less(#[trigger] s[i].0, #[trigger] s[j].0)
}

/// The map from the keys of `s` to their values, where a later entry of a key wins.
pub open spec fn entries_map(s: Seq<(Seq<char>, Seq<char>)>) -> Map<Seq<char>, Seq<char>>
    decreases s.len(),
{
    if s.len() == 0 {
        Map::empty()
    } else {
        entries_map(s.drop_last()).insert(s.last().0, s.last().1)
    }
}

/// Whether every value of the object entries `o` is a string.
pub open spec fn all_strings(o: Seq<(Seq<char>, Json)>) -> bool {
    forall|i: int| 0 <= i < o.len() ==> (#[trigger] o[i]).1 is Str
}

/// The entries of `o` with each string value taken as its text.
pub open spec fn string_entries(o: Seq<(Seq<char>, Json)>) -> Seq<(Seq<char>, Seq<char>)> {
    o.map_values(|e: (Seq<char>, Json)| (e.0, e.1->Str_0))
}

proof fn lemma_entries_map_distinct(s: Seq<(Seq<char>, Seq<char>)>)
    requires
        keys_increasing(s),
    ensures
        forall|i: int| 0 <= i < s.len() ==> #[trigger] entries_map(s).contains_key(s[i].0) && entries_map(s)[s[i].0] == s[i].1,
        forall|k: Seq<char>| #[trigger] entries_map(s).contains_key(k) ==> exists|i: int| 0 <= i < s.len() && s[i].0 == k,
    decreases s.len(),
{
    if s.len() > 0 {
        let t = s.drop_last();
        assert forall|i: int, j: int| 0 <= i < j < t.len() implies text_less(#[trigger] t[i].0, #[trigger] t[j].0) by {
            assert(t[i] == s[i] && t[j] == s[j]);
        }
        lemma_entries_map_distinct(t);
        assert forall|i: int| 0 <= i < s.len() implies #[trigger] entries_map(s).contains_key(s[i].0) && entries_map(s)[s[i].0] == s[i].1 by {
            if i < s.len() - 1 {
                assert(t[i] == s[i]);
                assert(entries_map(t).contains_key(t[i].0));
                assert(text_less(s[i].0, s[s.len() - 1].0));
                lemma_text_less_irreflexive(s[i].0);
            }
        }
        assert forall|k: Seq<char>| #[trigger] entries_map(s).contains_key(k) implies exists|i: int| 0 <= i < s.len() && s[i].0 == k by {
            if k != s.last().0 {
                assert(entries_map(t).contains_key(k));
                let i = choose|i: int| 0 <= i < t.len() && t[i].0 == k;
                assert(s[i] == t[i]);
            }
        }
    }
}

/// Puts the entry `(k, v)` into the entries `star`, whose keys increase, in its place.
fn insert_entry(star: &mut Vec<(String, PromoteIdStar)>, k: String, v: PromoteIdStar)
    requires
        keys_increasing(star_entries(old(star)@)),
    ensures
        keys_increasing(star_entries(final(star)@)),
        entries_map(star_entries(final(star)@)) == entries_map(star_entries(old(star)@)).insert(k@, v@),
{
    let ghost s0 = star_entries(star@);
    let mut p: usize = 0;
    while p < star.len() && text_before(star[p].0.as_str(), k.as_str())
        invariant
            p <= star.len(),
            s0 == star_entries(star@),
            forall|j: int| 0 <= j < p ==> text_less(#[trigger] s0[j].0, k@),
        decreases star.len() - p,
    {
        p += 1;
    }
    proof {
        lemma_entries_map_distinct(s0);
    }
    if p < star.len() && str_eq(star[p].0.as_str(), k.as_str()) {
        star[p] = (k, v);
        let ghost s1 = star_entries(star@);
        proof {
            assert(s1 =~= s0.update(p as int, (k@, v@)));
            assert forall|i: int, j: int| 0 <= i < j < s1.len() implies text_less(#[trigger] s1[i].0, #[trigger] s1[j].0) by {
                assert(s1[i].0 == s0[i].0 && s1[j].0 == s0[j].0);
            }
            lemma_entries_map_distinct(s1);
            assert(entries_map(s1) =~= entries_map(s0).insert(k@, v@)) by {
                assert forall|key: Seq<char>| #[trigger] entries_map(s1).contains_key(key) <==> entries_map(s0).insert(k@, v@).contains_key(key) by {
                    if entries_map(s1).contains_key(key) {
                        let i = choose|i: int| 0 <= i < s1.len() && s1[i].0 == key;
                        assert(s0[i].0 == key);
                    }
                    if entries_map(s0).contains_key(key) {
                        let i = choose|i: int| 0 <= i < s0.len() && s0[i].0 == key;
                        assert(s1[i].0 == key);
                    }
                    assert(s1[p as int].0 == k@);
                }
                assert forall|key: Seq<char>| #[trigger] entries_map(s1).contains_key(key) implies entries_map(s1)[key] == entries_map(s0).insert(k@, v@)[key] by {
                    let i = choose|i: int| 0 <= i < s1.len() && s1[i].0 == key;
                    assert(s0[i].0 == key);
                    assert(entries_map(s1).contains_key(s1[i].0));
                    assert(entries_map(s0).contains_key(s0[i].0));
                    if i != p {
                        if i < p {
                            assert(text_less(s1[i].0, s1[p as int].0));
                        } else {
                            assert(text_less(s1[p as int].0, s1[i].0));
                        }
                        lemma_text_less_irreflexive(key);
                        assert(s1[i] == s0[i]);
                    }
                }
            }
        }
    } else {
        let ghost before = star@;
        star.insert(p, (k, v));
        let ghost s1 = star_entries(star@);
        proof {
            assert(s1 =~= s0.insert(p as int, (k@, v@)));
            if p < s0.len() {
                lemma_text_less_total(s0[p as int].0, k@);
            }
            assert forall|j: int| 0 <= j < s0.len() implies #[trigger] s0[j].0 != k@ by {
                if j < p {
                    lemma_text_less_irreflexive(k@);
                } else {
                    if j > p {
                        lemma_text_less_transitive(k@, s0[p as int].0, s0[j].0);
                    }
                    lemma_text_less_irreflexive(k@);
                }
            }
            assert forall|i: int, j: int| 0 <= i < j < s1.len() implies text_less(#[trigger] s1[i].0, #[trigger] s1[j].0) by {
                if j < p {
                    assert(s1[i] == s0[i] && s1[j] == s0[j]);
                } else if j == p {
                    assert(s1[i] == s0[i]);
                } else if i < p {
                    assert(s1[i] == s0[i] && s1[j] == s0[j - 1]);
                    lemma_text_less_total(s0[p as int].0, k@);
                    if j - 1 > p {
                        lemma_text_less_transitive(s0[i].0, k@, s0[p as int].0);
                        lemma_text_less_transitive(s0[i].0, s0[p as int].0, s0[j - 1].0);
                    } else {
                        lemma_text_less_transitive(s0[i].0, k@, s0[j - 1].0);
                    }
                } else if i == p {
                    assert(s1[j] == s0[j - 1]);
                    if j - 1 > p {
                        lemma_text_less_transitive(k@, s0[p as int].0, s0[j - 1].0);
                    }
                } else {
                    assert(s1[i] == s0[i - 1] && s1[j] == s0[j - 1]);
                }
            }
            lemma_entries_map_distinct(s1);
            assert(entries_map(s1) =~= entries_map(s0).insert(k@, v@)) by {
                assert forall|key: Seq<char>| #[trigger] entries_map(s1).contains_key(key) <==> entries_map(s0).insert(k@, v@).contains_key(key) by {
                    if entries_map(s1).contains_key(key) {
                        let i = choose|i: int| 0 <= i < s1.len() && s1[i].0 == key;
                        if i < p {
                            assert(s0[i] == s1[i]);
                        } else if i > p {
                            assert(s0[i - 1] == s1[i]);
                        }
                    }
                    if entries_map(s0).contains_key(key) {
                        let i = choose|i: int| 0 <= i < s0.len() && s0[i].0 == key;
                        if i < p {
                            assert(s1[i] == s0[i]);
                        } else {
                            assert(s1[i + 1] == s0[i]);
                        }
                    }
                    assert(s1[p as int].0 == k@);
                }
                assert forall|key: Seq<char>| #[trigger] entries_map(s1).contains_key(key) implies entries_map(s1)[key] == entries_map(s0).insert(k@, v@)[key] by {
                    let i = choose|i: int| 0 <= i < s1.len() && s1[i].0 == key;
                    assert(entries_map(s1).contains_key(s1[i].0));
                    if i < p {
                        assert(s0[i] == s1[i]);
                        assert(entries_map(s0).contains_key(s0[i].0));
                    } else if i > p {
                        assert(s0[i - 1] == s1[i]);
                        assert(entries_map(s0).contains_key(s0[i - 1].0));
                    }
                }
            }
        }
    }
}

/// The properties of features to use as their IDs, by source layer.
#[derive(PartialEq, Debug, Clone)]
pub struct PromoteId {
    /// A name of a feature property to use as ID for feature state, by source layer, in
    /// increasing order of the layer's name.
    pub star: Option<Vec<(String, PromoteIdStar)>>,
}

impl JsonDecode for PromoteId {
    open spec fn accepts(v: Json) -> bool {
        v is Object
    }

    /// The map is there when every value of the object is a string; a later entry of a key wins.
    open spec fn decodes(v: Json, x: Self) -> bool {
        v is Object && {
            let o = v->Object_0;
            match x.star {
                Some(s) => {
                    &&& all_strings(o)
                    &&& keys_increasing(star_entries(s@))
                    &&& entries_map(star_entries(s@)) == entries_map(string_entries(o))
                },
                None => !all_strings(o),
            }
        }
    }

    open spec fn rejection(v: Json) -> Seq<char> {
        type_error(v, "struct PromoteId"@)
    }

    fn decode(v: &JsonValue) -> (r: Result<Self, String>) {
        match v {
            JsonValue::Object(fields) => {
                let ghost o = entries_model(*fields);
                proof {
                    assert(v.model() == Json::Object(o));
                }
                let mut star: Vec<(String, PromoteIdStar)> = Vec::new();
                let mut i: usize = 0;
                proof {
                    assert(string_entries(o.take(0)) =~= Seq::<(Seq<char>, Seq<char>)>::empty());
                    assert(star_entries(star@) =~= Seq::<(Seq<char>, Seq<char>)>::empty());
                }
                while i < fields.len()
                    invariant
                        o == entries_model(*fields),
                        v.model() == Json::Object(o),
                        i <= fields.len(),
                        o.len() == fields.len(),
                        all_strings(o.take(i as int)),
                        keys_increasing(star_entries(star@)),
                        entries_map(star_entries(star@)) == entries_map(string_entries(o.take(i as int))),
                    decreases fields.len() - i,
                {
                    proof {
                        assert(o[i as int] == (fields@[i as int].0@, fields@[i as int].1.model()));
                    }
                    match &fields[i].1 {
                        JsonValue::String(s) => {
                            let ghost t = string_entries(o.take(i + 1));
                            proof {
                                assert(t.drop_last() =~= string_entries(o.take(i as int)));
                                assert(t.last() == (fields@[i as int].0@, s@));
                                assert(all_strings(o.take(i + 1))) by {
                                    assert forall|j: int| 0 <= j < i + 1 implies (#[trigger] o.take(i + 1)[j]).1 is Str by {
                                        if j < i {
                                            assert(o.take(i + 1)[j] == o.take(i as int)[j]);
                                        }
                                    }
                                }
                            }
                            insert_entry(&mut star, fields[i].0.clone(), PromoteIdStar(s.clone()));
                        },
                        _ => {
                            proof {
                                assert(!(o[i as int].1 is Str));
                            }
                            return Ok(PromoteId { star: None });
                        },
                    }
                    i += 1;
                }
                proof {
                    assert(o.take(o.len() as int) =~= o);
                }
                Ok(PromoteId { star: Some(star) })
            },
            _ => Err(make_type_error(v, "struct PromoteId")),
        }
    }
}

impl JsonEncode for PromoteId {
    open spec fn to_json(self) -> Json {
        match self.star {
            Some(s) => Json::Object(star_entries(s@).map_values(|e: (Seq<char>, Seq<char>)| (e.0, Json::Str(e.1)))),
            None => Json::Object(Seq::empty()),
        }
    }

    /// A map whose keys increase comes back; no map is written as an empty object, which
    /// reads as an empty map.
    open spec fn round_trips(self) -> bool {
        self.star matches Some(s) && keys_increasing(star_entries(s@))
    }

    fn encode(&self) -> (r: JsonValue) {
        let mut out: Vec<(String, JsonValue)> = Vec::new();
        match &self.star {
            Some(s) => {
                let mut i: usize = 0;
                while i < s.len()
                    invariant
                        self.star == Some(*s),
                        i <= s.len(),
                        entries_model(out) =~= self.to_json()->Object_0.take(i as int),
                    decreases s.len() - i,
                {
                    let ghost before = entries_model(out);
                    let key = s[i].0.clone();
                    let value = JsonValue::String(s[i].1.0.clone());
                    proof {
                        assert(key@ == s@[i as int].0@);
                        assert(value.model() == Json::Str(s@[i as int].1@));
                    }
                    out.push((key, value));
                    proof {
                        assert(entries_model(out) =~= before.push(self.to_json()->Object_0[i as int]));
                        assert(self.to_json()->Object_0.take(i + 1) =~= before.push(self.to_json()->Object_0[i as int]));
                    }
                    i += 1;
                }
                proof {
                    assert(self.to_json()->Object_0.take(s.len() as int) =~= self.to_json()->Object_0);
                }
            },
            None => {
                proof {
                    assert(entries_model(out) =~= self.to_json()->Object_0);
                }
            },
        }
        JsonValue::Object(out)
    }

    proof fn lemma_round_trip(self) {
        let s = self.star->0;
        let o = self.to_json()->Object_0;
        assert(string_entries(o) =~= star_entries(s@));
    }
}
} // verus!
