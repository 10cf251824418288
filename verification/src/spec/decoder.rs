use vstd::prelude::*;
use crate::json::{
    Json, JsonDecode, JsonNumber, JsonValue, decode_entries, decode_opt_field, decode_req_field, entries_accept,
    entries_decode, entries_model, keys_distinct, entry_values, first_rejection, get_field, lookup, make_missing_field,
    make_type_error, make_unknown_variant, missing_field, opt_field_accepts, opt_field_decodes, opt_field_rejection,
    req_field_accepts, req_field_decodes, req_field_rejection, str_eq, type_error, unknown_variant, decode_seq_req,
    seq_req_accepts, seq_req_decodes, seq_req_rejection, length_error, make_length_error, all_digits, digits_from,
    first_with_key, key_seen_before, digits_value, is_digit, is_integer_text,
};

verus! {

/// A style specification as its reference document describes it: the version, the fields of
/// the root object, and the other named items.
#[derive(PartialEq, Debug, Clone)]
pub struct StyleReference {
    pub version: u8,
    /// The entries of `$root`, as a map: one per key, the last of the document's entries with
    /// that key, in document order (`lemma_decoded_keys_distinct`: no key occurs twice).
    pub root: Vec<(String, ParsedItem)>,
    /// The other entries, as a map in the same way as `root`.
    pub fields: Vec<(String, TopLevelItem)>,
}

/// An entry of the reference: one item, a group of named items, or a choice among names.
#[derive(PartialEq, Debug, Clone)]
pub enum TopLevelItem {
    Item(ParsedItem),
    /// Named items, as a map: one entry per key, the last with that key.
    Group(Vec<(String, ParsedItem)>),
    OneOf(Vec<String>),
}

/// An item of the reference, by its `type`.
#[derive(PartialEq, Debug, Clone)]
pub enum ParsedItem {
    Number {
        doc: String,
        default: Option<JsonNumber>,
        expression: Option<Expression>,
        property_type: Option<String>,
        sdk_support: Option<JsonValue>,
        maximum: Option<JsonNumber>,
        minimum: Option<JsonNumber>,
        transition: Option<bool>,
        units: Option<String>,
        example: Option<JsonNumber>,
        period: Option<JsonNumber>,
        requirements: Option<Vec<Requirement>>,
    },
    Enum {
        doc: String,
        default: Option<JsonValue>,
        expression: Option<Expression>,
        property_type: Option<String>,
        sdk_support: Option<JsonValue>,
        values: EnumValues,
        transition: Option<bool>,
        example: Option<JsonValue>,
        required: Option<bool>,
        requirements: Option<Vec<Requirement>>,
    },
    Array(JsonValue),
    Color(JsonValue),
    String(JsonValue),
    Boolean(JsonValue),
    Star(JsonValue),
    PropertyType(JsonValue),
    ResolvedImage(JsonValue),
    PromoteId(JsonValue),
    NumberArray(JsonValue),
    ColorArray(JsonValue),
    VariableAnchorOffsetCollection(JsonValue),
    Transition(JsonValue),
    Terrain(JsonValue),
    State(JsonValue),
    Sprite(JsonValue),
    Sources(JsonValue),
    Source(JsonValue),
    Sky(JsonValue),
    ProjectionDefinition(JsonValue),
    Projection(JsonValue),
    Paint(JsonValue),
    Padding(JsonValue),
    Light(JsonValue),
    Layout(JsonValue),
    Formatted(JsonValue),
    Filter(JsonValue),
    Expression(JsonValue),
}

/// How a value is computed from the data of a feature.
#[derive(PartialEq, Eq, Debug, Clone)]
pub struct Expression {
    interpolated: bool,
    parameters: Vec<String>,
}

/// What a property requires of the others: that one is there, or that some have given values.
#[derive(PartialEq, Eq, Debug, Clone)]
pub enum Requirement {
    Exists(String),
    /// Required values by property name, as a map: one entry per key, the last with that key.
    Equals(Vec<(String, JsonValue)>),
}

/// The description of one value of an enumeration.
#[derive(PartialEq, Eq, Debug, Clone)]
pub struct EnumValue {
    doc: String,
}

/// The values of an enumeration: a plain list, or names with their descriptions.
#[derive(PartialEq, Eq, Debug, Clone)]
pub enum EnumValues {
    Simple(Vec<JsonValue>),
    /// Described values by name, as a map: one entry per key, the last with that key.
    Complex(Vec<(String, EnumValue)>),
}

impl StyleReference {
    /// The invariant of a reference: no key occurs twice among the entries of `$root`, nor
    /// among the other entries, as in the maps they stand for.
    pub open spec fn wf(self) -> bool {
        &&& keys_distinct(self.root@)
        &&& keys_distinct(self.fields@)
    }
}

impl TopLevelItem {
    /// The invariant of an entry: no key occurs twice in a group.
    pub open spec fn wf(self) -> bool {
        self matches TopLevelItem::Group(g) ==> keys_distinct(g@)
    }
}

impl Requirement {
    /// The invariant of a requirement: no property occurs twice among required values.
    pub open spec fn wf(self) -> bool {
        self matches Requirement::Equals(e) ==> keys_distinct(e@)
    }
}

impl EnumValues {
    /// The invariant of enumeration values: no name occurs twice among described values.
    pub open spec fn wf(self) -> bool {
        self matches EnumValues::Complex(e) ==> keys_distinct(e@)
    }
}

/// The sets of keys that an object may hold.
pub enum KeySet {
    Number,
    Enum,
    Expression,
}

/// Whether `k` is a key that an object of kind `s` may hold.
pub open spec fn key_known(s: KeySet, k: Seq<char>) -> bool {
    match s {
        KeySet::Number => k == "type"@ || k == "doc"@ || k == "default"@ || k == "expression"@ || k == "property-type"@ || k == "sdk-support"@ || k == "maximum"@ || k == "minimum"@ || k == "transition"@ || k == "units"@ || k == "example"@ || k == "period"@ || k == "requires"@,
        KeySet::Enum => k == "type"@ || k == "doc"@ || k == "default"@ || k == "expression"@ || k == "property-type"@ || k == "sdk-support"@ || k == "values"@ || k == "transition"@ || k == "example"@ || k == "required"@ || k == "requires"@,
        KeySet::Expression => k == "interpolated"@ || k == "parameters"@,
    }
}

fn is_key_known(s: &KeySet, k: &str) -> (r: bool)
    ensures
        r == key_known(*s, k@),
{
    match s {
        KeySet::Number => str_eq(k, "type") || str_eq(k, "doc") || str_eq(k, "default") || str_eq(k, "expression") || str_eq(k, "property-type") || str_eq(k, "sdk-support") || str_eq(k, "maximum") || str_eq(k, "minimum") || str_eq(k, "transition") || str_eq(k, "units") || str_eq(k, "example") || str_eq(k, "period") || str_eq(k, "requires"),
        KeySet::Enum => str_eq(k, "type") || str_eq(k, "doc") || str_eq(k, "default") || str_eq(k, "expression") || str_eq(k, "property-type") || str_eq(k, "sdk-support") || str_eq(k, "values") || str_eq(k, "transition") || str_eq(k, "example") || str_eq(k, "required") || str_eq(k, "requires"),
        KeySet::Expression => str_eq(k, "interpolated") || str_eq(k, "parameters"),
    }
}

/// The first key of the entries `o` that an object of kind `s` may not hold.
pub open spec fn first_unknown_key(s: KeySet, o: Seq<(Seq<char>, Json)>) -> Option<Seq<char>>
    decreases o.len(),
{
    if o.len() == 0 {
        None
    } else if !key_known(s, o[0].0) {
        Some(o[0].0)
    } else {
        first_unknown_key(s, o.drop_first())
    }
}

fn find_unknown_key<'a>(s: &KeySet, fields: &'a Vec<(String, JsonValue)>) -> (r: Option<&'a String>)
    ensures
        match r {
            Some(k) => first_unknown_key(*s, entries_model(*fields)) == Some(k@),
            None => first_unknown_key(*s, entries_model(*fields)) is None,
        },
{
    let ghost m = entries_model(*fields);
    let mut i: usize = 0;
    proof {
        assert(m.skip(0) =~= m);
    }
    while i < fields.len()
        invariant
            i <= fields.len(),
            m == entries_model(*fields),
            m.len() == fields.len(),
            first_unknown_key(*s, m) == first_unknown_key(*s, m.skip(i as int)),
        decreases fields.len() - i,
    {
        let ghost rest = m.skip(i as int);
        proof {
            assert(rest.drop_first() =~= m.skip(i + 1));
            assert(rest[0] == m[i as int]);
        }
        let k = &fields[i].0;
        if !is_key_known(s, k.as_str()) {
            return Some(k);
        }
        i += 1;
    }
    None
}

/// The message of a key that an object may not hold.
pub open spec fn unknown_field(k: Seq<char>, expected: Seq<char>) -> Seq<char> {
    "unknown field `"@ + k + "`, expected "@ + expected
}

fn make_unknown_field(k: &str, expected: &str) -> (r: String)
    ensures
        r@ == unknown_field(k@, expected@),
{
    let mut m = "unknown field `".to_string();
    m.append(k);
    m.append("`, expected ");
    m.append(expected);
    m
}

/// The entries `o` without those with key `k`.
pub open spec fn without_key(o: Seq<(Seq<char>, Json)>, k: Seq<char>) -> Seq<(Seq<char>, Json)>
    decreases o.len(),
{
    if o.len() == 0 {
        o
    } else if o.last().0 == k {
        without_key(o.drop_last(), k)
    } else {
        without_key(o.drop_last(), k).push(o.last())
    }
}

fn copy_without_key(fields: &Vec<(String, JsonValue)>, k: &str) -> (r: JsonValue)
    ensures
        r.model() == Json::Object(without_key(entries_model(*fields), k@)),
{
    let ghost m = entries_model(*fields);
    let mut out: Vec<(String, JsonValue)> = Vec::new();
    let mut i: usize = 0;
    proof {
        assert(m.take(0) =~= Seq::<(Seq<char>, Json)>::empty());
        assert(entries_model(out) =~= without_key(m.take(0), k@));
    }
    while i < fields.len()
        invariant
            i <= fields.len(),
            m == entries_model(*fields),
            m.len() == fields.len(),
            entries_model(out) == without_key(m.take(i as int), k@),
        decreases fields.len() - i,
    {
        proof {
            assert(m.take(i + 1).drop_last() =~= m.take(i as int));
            assert(m.take(i + 1).last() == m[i as int]);
            assert(m[i as int] == (fields@[i as int].0@, fields@[i as int].1.model()));
        }
        if !str_eq(fields[i].0.as_str(), k) {
            let ghost before = entries_model(out);
            let key = fields[i].0.clone();
            let value = fields[i].1.duplicate();
            out.push((key, value));
            proof {
                assert(entries_model(out) =~= before.push(m[i as int]));
            }
        }
        i += 1;
    }
    proof {
        assert(m.take(m.len() as int) =~= m);
    }
    JsonValue::Object(out)
}

/// What is wrong with the entry with key `k` and value `w` of an expression object: a key that
/// is no field, or a value that does not read as its field.
pub open spec fn expression_fault(k: Seq<char>, w: Json) -> Option<Seq<char>> {
    if !key_known(KeySet::Expression, k) {
        Some(unknown_field(k, "`interpolated` or `parameters`"@))
    } else if k == "interpolated"@ {
        if bool::accepts(w) {
            None
        } else {
            Some(bool::rejection(w))
        }
    } else if <Vec<String> as JsonDecode>::accepts(w) {
        None
    } else {
        Some(<Vec<String> as JsonDecode>::rejection(w))
    }
}

/// The message of the first entry of `o`, from entry `i` on and among the first entries of their
/// keys, that `expression_fault` finds wrong, if any.
pub open spec fn expression_first_fault(o: Seq<(Seq<char>, Json)>, i: int) -> Option<Seq<char>>
    decreases o.len() - i,
{
    if i < 0 || i >= o.len() {
        None
    } else if first_with_key(o, i) && expression_fault(o[i].0, o[i].1) is Some {
        expression_fault(o[i].0, o[i].1)
    } else {
        expression_first_fault(o, i + 1)
    }
}

fn find_expression_fault(k: &str, w: &JsonValue) -> (r: Option<String>)
    ensures
        match r {
            Some(m) => expression_fault(k@, w.model()) == Some(m@),
            None => expression_fault(k@, w.model()) is None,
        },
{
    if !is_key_known(&KeySet::Expression, k) {
        Some(make_unknown_field(k, "`interpolated` or `parameters`"))
    } else if str_eq(k, "interpolated") {
        match bool::decode(w) {
            Ok(_) => None,
            Err(e) => Some(e),
        }
    } else {
        match <Vec<String> as JsonDecode>::decode(w) {
            Ok(_) => None,
            Err(e) => Some(e),
        }
    }
}

/// The message of the first fault of the entries `fields`, in order, else of the first field
/// that is missing.
fn expression_rejection(fields: &Vec<(String, JsonValue)>) -> (r: String)
    ensures
        r@ == (match expression_first_fault(entries_model(*fields), 0) {
            Some(m) => m,
            None => if lookup(entries_model(*fields), "interpolated"@) is None {
                missing_field("interpolated"@)
            } else {
                missing_field("parameters"@)
            },
        }),
{
    let ghost o = entries_model(*fields);
    let mut i: usize = 0;
    while i < fields.len()
        invariant
            o == entries_model(*fields),
            o.len() == fields.len(),
            i <= fields.len(),
            expression_first_fault(o, 0) == expression_first_fault(o, i as int),
        decreases fields.len() - i,
    {
        proof {
            assert(o[i as int] == (fields@[i as int].0@, fields@[i as int].1.model()));
        }
        if !key_seen_before(fields, i) {
            match find_expression_fault(fields[i].0.as_str(), &fields[i].1) {
                Some(m) => {
                    return m;
                },
                None => {},
            }
        }
        i += 1;
    }
    if get_field(fields, "interpolated").is_none() {
        return make_missing_field("interpolated");
    }
    make_missing_field("parameters")
}

impl JsonDecode for Expression {
    /// An object with the two fields and no others, or an array with them in order.
    closed spec fn accepts(v: Json) -> bool {
        ||| (v is Object && {
            let o = v->Object_0;
            &&& first_unknown_key(KeySet::Expression, o) is None
            &&& req_field_accepts::<bool>(o, "interpolated"@)
            &&& req_field_accepts::<Vec<String>>(o, "parameters"@)
        })
        ||| (v is Array && {
            let a = v->Array_0;
            &&& seq_req_accepts::<bool>(a, 0)
            &&& seq_req_accepts::<Vec<String>>(a, 1)
            &&& a.len() <= 2
        })
    }

    closed spec fn decodes(v: Json, x: Self) -> bool {
        ||| (v is Object && {
            let o = v->Object_0;
            &&& req_field_decodes::<bool>(o, "interpolated"@, x.interpolated)
            &&& req_field_decodes::<Vec<String>>(o, "parameters"@, x.parameters)
        })
        ||| (v is Array && {
            let a = v->Array_0;
            &&& seq_req_decodes::<bool>(a, 0, x.interpolated)
            &&& seq_req_decodes::<Vec<String>>(a, 1, x.parameters)
        })
    }

    closed spec fn rejection(v: Json) -> Seq<char> {
        if v is Object {
            let o = v->Object_0;
            match expression_first_fault(o, 0) {
                Some(m) => m,
                None => if lookup(o, "interpolated"@) is None {
                    missing_field("interpolated"@)
                } else {
                    missing_field("parameters"@)
                },
            }
        } else if v is Array {
            let a = v->Array_0;
            if !seq_req_accepts::<bool>(a, 0) {
                seq_req_rejection::<bool>(a, 0, "struct Expression with 2 elements"@)
            } else if !seq_req_accepts::<Vec<String>>(a, 1) {
                seq_req_rejection::<Vec<String>>(a, 1, "struct Expression with 2 elements"@)
            } else {
                length_error(a.len())
            }
        } else {
            type_error(v, "struct Expression"@)
        }
    }

    fn decode(v: &JsonValue) -> (r: Result<Self, String>) {
        match v {
            JsonValue::Object(fields) => {
                match find_unknown_key(&KeySet::Expression, fields) {
                    Some(_) => return Err(expression_rejection(fields)),
                    None => {},
                }
                let interpolated = match decode_req_field::<bool>(fields, "interpolated") {
                    Ok(x) => x,
                    Err(_) => return Err(expression_rejection(fields)),
                };
                let parameters = match decode_req_field::<Vec<String>>(fields, "parameters") {
                    Ok(x) => x,
                    Err(_) => return Err(expression_rejection(fields)),
                };
                Ok(Expression { interpolated, parameters })
            },
            JsonValue::Array(a) => {
                let interpolated = match decode_seq_req::<bool>(a, 0, "struct Expression with 2 elements") {
                    Ok(x) => x,
                    Err(e) => return Err(e),
                };
                let parameters = match decode_seq_req::<Vec<String>>(a, 1, "struct Expression with 2 elements") {
                    Ok(x) => x,
                    Err(e) => return Err(e),
                };
                if a.len() > 2 {
                    return Err(make_length_error(a.len()));
                }
                Ok(Expression { interpolated, parameters })
            },
            _ => Err(make_type_error(v, "struct Expression")),
        }
    }
}

impl ParsedItem {
    /// The `type` that an item of this kind is written with.
    pub open spec fn tag(self) -> Seq<char> {
        match self {
            ParsedItem::Number { .. } => "number"@,
            ParsedItem::Enum { .. } => "enum"@,
            ParsedItem::Array(_) => "array"@,
            ParsedItem::Color(_) => "color"@,
            ParsedItem::String(_) => "string"@,
            ParsedItem::Boolean(_) => "boolean"@,
            ParsedItem::Star(_) => "*"@,
            ParsedItem::PropertyType(_) => "property-type"@,
            ParsedItem::ResolvedImage(_) => "resolvedImage"@,
            ParsedItem::PromoteId(_) => "promoteId"@,
            ParsedItem::NumberArray(_) => "numberArray"@,
            ParsedItem::ColorArray(_) => "colorArray"@,
            ParsedItem::VariableAnchorOffsetCollection(_) => "variableAnchorOffsetCollection"@,
            ParsedItem::Transition(_) => "transition"@,
            ParsedItem::Terrain(_) => "terrain"@,
            ParsedItem::State(_) => "state"@,
            ParsedItem::Sprite(_) => "sprite"@,
            ParsedItem::Sources(_) => "sources"@,
            ParsedItem::Source(_) => "source"@,
            ParsedItem::Sky(_) => "sky"@,
            ParsedItem::ProjectionDefinition(_) => "projectionDefinition"@,
            ParsedItem::Projection(_) => "projection"@,
            ParsedItem::Paint(_) => "paint"@,
            ParsedItem::Padding(_) => "padding"@,
            ParsedItem::Light(_) => "light"@,
            ParsedItem::Layout(_) => "layout"@,
            ParsedItem::Formatted(_) => "formatted"@,
            ParsedItem::Filter(_) => "filter"@,
            ParsedItem::Expression(_) => "expression"@,
        }
    }

    /// The description of the item: its `doc` entry, or nothing where it has none.
    pub open spec fn doc_text(self) -> Seq<char> {
        match self {
            ParsedItem::Number { doc, .. } => doc@,
            ParsedItem::Enum { doc, .. } => doc@,
            ParsedItem::Array(c) => json_doc(c.model()),
            ParsedItem::Color(c) => json_doc(c.model()),
            ParsedItem::String(c) => json_doc(c.model()),
            ParsedItem::Boolean(c) => json_doc(c.model()),
            ParsedItem::Star(c) => json_doc(c.model()),
            ParsedItem::PropertyType(c) => json_doc(c.model()),
            ParsedItem::ResolvedImage(c) => json_doc(c.model()),
            ParsedItem::PromoteId(c) => json_doc(c.model()),
            ParsedItem::NumberArray(c) => json_doc(c.model()),
            ParsedItem::ColorArray(c) => json_doc(c.model()),
            ParsedItem::VariableAnchorOffsetCollection(c) => json_doc(c.model()),
            ParsedItem::Transition(c) => json_doc(c.model()),
            ParsedItem::Terrain(c) => json_doc(c.model()),
            ParsedItem::State(c) => json_doc(c.model()),
            ParsedItem::Sprite(c) => json_doc(c.model()),
            ParsedItem::Sources(c) => json_doc(c.model()),
            ParsedItem::Source(c) => json_doc(c.model()),
            ParsedItem::Sky(c) => json_doc(c.model()),
            ParsedItem::ProjectionDefinition(c) => json_doc(c.model()),
            ParsedItem::Projection(c) => json_doc(c.model()),
            ParsedItem::Paint(c) => json_doc(c.model()),
            ParsedItem::Padding(c) => json_doc(c.model()),
            ParsedItem::Light(c) => json_doc(c.model()),
            ParsedItem::Layout(c) => json_doc(c.model()),
            ParsedItem::Formatted(c) => json_doc(c.model()),
            ParsedItem::Filter(c) => json_doc(c.model()),
            ParsedItem::Expression(c) => json_doc(c.model()),
        }
    }

    /// The description of the item.
    pub fn doc(&self) -> (r: String)
        ensures
            r@ == self.doc_text(),
    {
        match self {
            ParsedItem::Number { doc, .. } => doc.clone(),
            ParsedItem::Enum { doc, .. } => doc.clone(),
            ParsedItem::Array(c) => value_doc(c),
            ParsedItem::Color(c) => value_doc(c),
            ParsedItem::String(c) => value_doc(c),
            ParsedItem::Boolean(c) => value_doc(c),
            ParsedItem::Star(c) => value_doc(c),
            ParsedItem::PropertyType(c) => value_doc(c),
            ParsedItem::ResolvedImage(c) => value_doc(c),
            ParsedItem::PromoteId(c) => value_doc(c),
            ParsedItem::NumberArray(c) => value_doc(c),
            ParsedItem::ColorArray(c) => value_doc(c),
            ParsedItem::VariableAnchorOffsetCollection(c) => value_doc(c),
            ParsedItem::Transition(c) => value_doc(c),
            ParsedItem::Terrain(c) => value_doc(c),
            ParsedItem::State(c) => value_doc(c),
            ParsedItem::Sprite(c) => value_doc(c),
            ParsedItem::Sources(c) => value_doc(c),
            ParsedItem::Source(c) => value_doc(c),
            ParsedItem::Sky(c) => value_doc(c),
            ParsedItem::ProjectionDefinition(c) => value_doc(c),
            ParsedItem::Projection(c) => value_doc(c),
            ParsedItem::Paint(c) => value_doc(c),
            ParsedItem::Padding(c) => value_doc(c),
            ParsedItem::Light(c) => value_doc(c),
            ParsedItem::Layout(c) => value_doc(c),
            ParsedItem::Formatted(c) => value_doc(c),
            ParsedItem::Filter(c) => value_doc(c),
            ParsedItem::Expression(c) => value_doc(c),
        }
    }
}

/// The `doc` entry of an object, where it is a string, and otherwise nothing.
pub open spec fn json_doc(v: Json) -> Seq<char> {
    match v {
        Json::Object(o) => match lookup(o, "doc"@) {
            Some(Json::Str(d)) => d,
            _ => Seq::empty(),
        },
        _ => Seq::empty(),
    }
}

fn value_doc(c: &JsonValue) -> (r: String)
    ensures
        r@ == json_doc(c.model()),
{
    match c {
        JsonValue::Object(f) => match get_field(f, "doc") {
            Some(JsonValue::String(d)) => d.clone(),
            _ => String::new(),
        },
        _ => String::new(),
    }
}

/// Whether `name` is the `type` of an item that holds its entries as they are.
pub open spec fn is_value_tag(name: Seq<char>) -> bool {
    name == "array"@ || name == "color"@ || name == "string"@ || name == "boolean"@ || name == "*"@ || name == "property-type"@ || name == "resolvedImage"@ || name == "promoteId"@ || name == "numberArray"@ || name == "colorArray"@ || name == "variableAnchorOffsetCollection"@ || name == "transition"@ || name == "terrain"@ || name == "state"@ || name == "sprite"@ || name == "sources"@ || name == "source"@ || name == "sky"@ || name == "projectionDefinition"@ || name == "projection"@ || name == "paint"@ || name == "padding"@ || name == "light"@ || name == "layout"@ || name == "formatted"@ || name == "filter"@ || name == "expression"@
}

/// Whether the entries `o` of an object with the `type` `name` read as an item.
pub open spec fn item_accepts(name: Seq<char>, o: Seq<(Seq<char>, Json)>) -> bool {
    if name == "number"@ {
        &&& first_unknown_key(KeySet::Number, o) is None
        &&& req_field_accepts::<String>(o, "doc"@)
        &&& opt_field_accepts::<JsonNumber>(o, "default"@)
        &&& opt_field_accepts::<Expression>(o, "expression"@)
        &&& opt_field_accepts::<String>(o, "property-type"@)
        &&& opt_field_accepts::<JsonValue>(o, "sdk-support"@)
        &&& opt_field_accepts::<JsonNumber>(o, "maximum"@)
        &&& opt_field_accepts::<JsonNumber>(o, "minimum"@)
        &&& opt_field_accepts::<bool>(o, "transition"@)
        &&& opt_field_accepts::<String>(o, "units"@)
        &&& opt_field_accepts::<JsonNumber>(o, "example"@)
        &&& opt_field_accepts::<JsonNumber>(o, "period"@)
        &&& opt_field_accepts::<Vec<Requirement>>(o, "requires"@)
    } else if name == "enum"@ {
        &&& first_unknown_key(KeySet::Enum, o) is None
        &&& req_field_accepts::<String>(o, "doc"@)
        &&& opt_field_accepts::<JsonValue>(o, "default"@)
        &&& opt_field_accepts::<Expression>(o, "expression"@)
        &&& opt_field_accepts::<String>(o, "property-type"@)
        &&& opt_field_accepts::<JsonValue>(o, "sdk-support"@)
        &&& req_field_accepts::<EnumValues>(o, "values"@)
        &&& opt_field_accepts::<bool>(o, "transition"@)
        &&& opt_field_accepts::<JsonValue>(o, "example"@)
        &&& opt_field_accepts::<bool>(o, "required"@)
        &&& opt_field_accepts::<Vec<Requirement>>(o, "requires"@)
    } else {
        is_value_tag(name)
    }
}

/// The message of the entries `o` of an object with the `type` `name` that do not read as an item:
/// the first entry in order whose key is not a field or whose value does not read as its field,
/// else the first required field that is missing.
pub open spec fn item_rejection(name: Seq<char>, o: Seq<(Seq<char>, Json)>) -> Seq<char> {
    if name == "number"@ {
        match number_first_fault(o, 0) {
            Some(m) => m,
            None => if lookup(o, "doc"@) is None {
                missing_field("doc"@)
            } else {
                Seq::empty()
            },
        }
    } else if name == "enum"@ {
        match enum_first_fault(o, 0) {
            Some(m) => m,
            None => if lookup(o, "doc"@) is None {
                missing_field("doc"@)
            } else if lookup(o, "values"@) is None {
                missing_field("values"@)
            } else {
                Seq::empty()
            },
        }
    } else {
        unknown_variant(name) + ", expected one of `number`, `enum`, `array`, `color`, `string`, `boolean`, `*`, `property-type`, `resolvedImage`, `promoteId`, `numberArray`, `colorArray`, `variableAnchorOffsetCollection`, `transition`, `terrain`, `state`, `sprite`, `sources`, `source`, `sky`, `projectionDefinition`, `projection`, `paint`, `padding`, `light`, `layout`, `formatted`, `filter`, `expression`"@
    }
}
/// What is wrong with the entry with key `k` and value `w` of an object of kind `Number`: a key
/// that is no field, or a value that does not read as its field.
pub open spec fn number_fault(k: Seq<char>, w: Json) -> Option<Seq<char>> {
    if !key_known(KeySet::Number, k) {
        Some(unknown_field(k, "one of `doc`, `default`, `expression`, `property-type`, `sdk-support`, `maximum`, `minimum`, `transition`, `units`, `example`, `period`, `requires`"@))
    } else if k == "doc"@ {
        if String::accepts(w) {
            None
        } else {
            Some(String::rejection(w))
        }
    } else if k == "default"@ {
        if w is Null || JsonNumber::accepts(w) {
            None
        } else {
            Some(JsonNumber::rejection(w))
        }
    } else if k == "expression"@ {
        if w is Null || Expression::accepts(w) {
            None
        } else {
            Some(Expression::rejection(w))
        }
    } else if k == "property-type"@ {
        if w is Null || String::accepts(w) {
            None
        } else {
            Some(String::rejection(w))
        }
    } else if k == "sdk-support"@ {
        if w is Null || JsonValue::accepts(w) {
            None
        } else {
            Some(JsonValue::rejection(w))
        }
    } else if k == "maximum"@ {
        if w is Null || JsonNumber::accepts(w) {
            None
        } else {
            Some(JsonNumber::rejection(w))
        }
    } else if k == "minimum"@ {
        if w is Null || JsonNumber::accepts(w) {
            None
        } else {
            Some(JsonNumber::rejection(w))
        }
    } else if k == "transition"@ {
        if w is Null || bool::accepts(w) {
            None
        } else {
            Some(bool::rejection(w))
        }
    } else if k == "units"@ {
        if w is Null || String::accepts(w) {
            None
        } else {
            Some(String::rejection(w))
        }
    } else if k == "example"@ {
        if w is Null || JsonNumber::accepts(w) {
            None
        } else {
            Some(JsonNumber::rejection(w))
        }
    } else if k == "period"@ {
        if w is Null || JsonNumber::accepts(w) {
            None
        } else {
            Some(JsonNumber::rejection(w))
        }
    } else if k == "requires"@ {
        if w is Null || <Vec<Requirement> as JsonDecode>::accepts(w) {
            None
        } else {
            Some(<Vec<Requirement> as JsonDecode>::rejection(w))
        }
    } else {
        None
    }
}

/// The message of the first entry of `o`, from entry `i` on and among the first entries of their
/// keys, that `number_fault` finds wrong, if any.
pub open spec fn number_first_fault(o: Seq<(Seq<char>, Json)>, i: int) -> Option<Seq<char>>
    decreases o.len() - i,
{
    if i < 0 || i >= o.len() {
        None
    } else if first_with_key(o, i) && number_fault(o[i].0, o[i].1) is Some {
        number_fault(o[i].0, o[i].1)
    } else {
        number_first_fault(o, i + 1)
    }
}

fn find_number_fault(k: &str, w: &JsonValue) -> (r: Option<String>)
    ensures
        match r {
            Some(m) => number_fault(k@, w.model()) == Some(m@),
            None => number_fault(k@, w.model()) is None,
        },
{
    if !is_key_known(&KeySet::Number, k) {
        Some(make_unknown_field(k, "one of `doc`, `default`, `expression`, `property-type`, `sdk-support`, `maximum`, `minimum`, `transition`, `units`, `example`, `period`, `requires`"))
    } else if str_eq(k, "doc") {
        match String::decode(w) {
            Ok(_) => None,
            Err(e) => Some(e),
        }
    } else if str_eq(k, "default") {
        match w {
            JsonValue::Null => None,
            _ => match JsonNumber::decode(w) {
                Ok(_) => None,
                Err(e) => Some(e),
            },
        }
    } else if str_eq(k, "expression") {
        match w {
            JsonValue::Null => None,
            _ => match Expression::decode(w) {
                Ok(_) => None,
                Err(e) => Some(e),
            },
        }
    } else if str_eq(k, "property-type") {
        match w {
            JsonValue::Null => None,
            _ => match String::decode(w) {
                Ok(_) => None,
                Err(e) => Some(e),
            },
        }
    } else if str_eq(k, "sdk-support") {
        match w {
            JsonValue::Null => None,
            _ => match JsonValue::decode(w) {
                Ok(_) => None,
                Err(e) => Some(e),
            },
        }
    } else if str_eq(k, "maximum") {
        match w {
            JsonValue::Null => None,
            _ => match JsonNumber::decode(w) {
                Ok(_) => None,
                Err(e) => Some(e),
            },
        }
    } else if str_eq(k, "minimum") {
        match w {
            JsonValue::Null => None,
            _ => match JsonNumber::decode(w) {
                Ok(_) => None,
                Err(e) => Some(e),
            },
        }
    } else if str_eq(k, "transition") {
        match w {
            JsonValue::Null => None,
            _ => match bool::decode(w) {
                Ok(_) => None,
                Err(e) => Some(e),
            },
        }
    } else if str_eq(k, "units") {
        match w {
            JsonValue::Null => None,
            _ => match String::decode(w) {
                Ok(_) => None,
                Err(e) => Some(e),
            },
        }
    } else if str_eq(k, "example") {
        match w {
            JsonValue::Null => None,
            _ => match JsonNumber::decode(w) {
                Ok(_) => None,
                Err(e) => Some(e),
            },
        }
    } else if str_eq(k, "period") {
        match w {
            JsonValue::Null => None,
            _ => match JsonNumber::decode(w) {
                Ok(_) => None,
                Err(e) => Some(e),
            },
        }
    } else if str_eq(k, "requires") {
        match w {
            JsonValue::Null => None,
            _ => match <Vec<Requirement> as JsonDecode>::decode(w) {
                Ok(_) => None,
                Err(e) => Some(e),
            },
        }
    } else {
        None
    }
}

/// The message of the first fault of the entries `fields`, in order, else of the first required
/// field that is missing.
fn number_rejection(fields: &Vec<(String, JsonValue)>) -> (r: String)
    ensures
        r@ == (match number_first_fault(entries_model(*fields), 0) {
            Some(m) => m,
            None => if lookup(entries_model(*fields), "doc"@) is None {
                missing_field("doc"@)
            } else {
                Seq::empty()
            },
        }),
{
    let ghost o = entries_model(*fields);
    let mut i: usize = 0;
    while i < fields.len()
        invariant
            o == entries_model(*fields),
            o.len() == fields.len(),
            i <= fields.len(),
            number_first_fault(o, 0) == number_first_fault(o, i as int),
        decreases fields.len() - i,
    {
        proof {
            assert(o[i as int] == (fields@[i as int].0@, fields@[i as int].1.model()));
        }
        if !key_seen_before(fields, i) {
            match find_number_fault(fields[i].0.as_str(), &fields[i].1) {
                Some(m) => {
                    return m;
                },
                None => {},
            }
        }
        i += 1;
    }
    if get_field(fields, "doc").is_none() {
        return make_missing_field("doc");
    }
    String::new()
}

/// What is wrong with the entry with key `k` and value `w` of an object of kind `Enum`: a key
/// that is no field, or a value that does not read as its field.
pub open spec fn enum_fault(k: Seq<char>, w: Json) -> Option<Seq<char>> {
    if !key_known(KeySet::Enum, k) {
        Some(unknown_field(k, "one of `doc`, `default`, `expression`, `property-type`, `sdk-support`, `values`, `transition`, `example`, `required`, `requires`"@))
    } else if k == "doc"@ {
        if String::accepts(w) {
            None
        } else {
            Some(String::rejection(w))
        }
    } else if k == "default"@ {
        if w is Null || JsonValue::accepts(w) {
            None
        } else {
            Some(JsonValue::rejection(w))
        }
    } else if k == "expression"@ {
        if w is Null || Expression::accepts(w) {
            None
        } else {
            Some(Expression::rejection(w))
        }
    } else if k == "property-type"@ {
        if w is Null || String::accepts(w) {
            None
        } else {
            Some(String::rejection(w))
        }
    } else if k == "sdk-support"@ {
        if w is Null || JsonValue::accepts(w) {
            None
        } else {
            Some(JsonValue::rejection(w))
        }
    } else if k == "values"@ {
        if EnumValues::accepts(w) {
            None
        } else {
            Some(EnumValues::rejection(w))
        }
    } else if k == "transition"@ {
        if w is Null || bool::accepts(w) {
            None
        } else {
            Some(bool::rejection(w))
        }
    } else if k == "example"@ {
        if w is Null || JsonValue::accepts(w) {
            None
        } else {
            Some(JsonValue::rejection(w))
        }
    } else if k == "required"@ {
        if w is Null || bool::accepts(w) {
            None
        } else {
            Some(bool::rejection(w))
        }
    } else if k == "requires"@ {
        if w is Null || <Vec<Requirement> as JsonDecode>::accepts(w) {
            None
        } else {
            Some(<Vec<Requirement> as JsonDecode>::rejection(w))
        }
    } else {
        None
    }
}

/// The message of the first entry of `o`, from entry `i` on and among the first entries of their
/// keys, that `enum_fault` finds wrong, if any.
pub open spec fn enum_first_fault(o: Seq<(Seq<char>, Json)>, i: int) -> Option<Seq<char>>
    decreases o.len() - i,
{
    if i < 0 || i >= o.len() {
        None
    } else if first_with_key(o, i) && enum_fault(o[i].0, o[i].1) is Some {
        enum_fault(o[i].0, o[i].1)
    } else {
        enum_first_fault(o, i + 1)
    }
}

fn find_enum_fault(k: &str, w: &JsonValue) -> (r: Option<String>)
    ensures
        match r {
            Some(m) => enum_fault(k@, w.model()) == Some(m@),
            None => enum_fault(k@, w.model()) is None,
        },
{
    if !is_key_known(&KeySet::Enum, k) {
        Some(make_unknown_field(k, "one of `doc`, `default`, `expression`, `property-type`, `sdk-support`, `values`, `transition`, `example`, `required`, `requires`"))
    } else if str_eq(k, "doc") {
        match String::decode(w) {
            Ok(_) => None,
            Err(e) => Some(e),
        }
    } else if str_eq(k, "default") {
        match w {
            JsonValue::Null => None,
            _ => match JsonValue::decode(w) {
                Ok(_) => None,
                Err(e) => Some(e),
            },
        }
    } else if str_eq(k, "expression") {
        match w {
            JsonValue::Null => None,
            _ => match Expression::decode(w) {
                Ok(_) => None,
                Err(e) => Some(e),
            },
        }
    } else if str_eq(k, "property-type") {
        match w {
            JsonValue::Null => None,
            _ => match String::decode(w) {
                Ok(_) => None,
                Err(e) => Some(e),
            },
        }
    } else if str_eq(k, "sdk-support") {
        match w {
            JsonValue::Null => None,
            _ => match JsonValue::decode(w) {
                Ok(_) => None,
                Err(e) => Some(e),
            },
        }
    } else if str_eq(k, "values") {
        match EnumValues::decode(w) {
            Ok(_) => None,
            Err(e) => Some(e),
        }
    } else if str_eq(k, "transition") {
        match w {
            JsonValue::Null => None,
            _ => match bool::decode(w) {
                Ok(_) => None,
                Err(e) => Some(e),
            },
        }
    } else if str_eq(k, "example") {
        match w {
            JsonValue::Null => None,
            _ => match JsonValue::decode(w) {
                Ok(_) => None,
                Err(e) => Some(e),
            },
        }
    } else if str_eq(k, "required") {
        match w {
            JsonValue::Null => None,
            _ => match bool::decode(w) {
                Ok(_) => None,
                Err(e) => Some(e),
            },
        }
    } else if str_eq(k, "requires") {
        match w {
            JsonValue::Null => None,
            _ => match <Vec<Requirement> as JsonDecode>::decode(w) {
                Ok(_) => None,
                Err(e) => Some(e),
            },
        }
    } else {
        None
    }
}

/// The message of the first fault of the entries `fields`, in order, else of the first required
/// field that is missing.
fn enum_rejection(fields: &Vec<(String, JsonValue)>) -> (r: String)
    ensures
        r@ == (match enum_first_fault(entries_model(*fields), 0) {
            Some(m) => m,
            None => if lookup(entries_model(*fields), "doc"@) is None {
                missing_field("doc"@)
            } else if lookup(entries_model(*fields), "values"@) is None {
                missing_field("values"@)
            } else {
                Seq::empty()
            },
        }),
{
    let ghost o = entries_model(*fields);
    let mut i: usize = 0;
    while i < fields.len()
        invariant
            o == entries_model(*fields),
            o.len() == fields.len(),
            i <= fields.len(),
            enum_first_fault(o, 0) == enum_first_fault(o, i as int),
        decreases fields.len() - i,
    {
        proof {
            assert(o[i as int] == (fields@[i as int].0@, fields@[i as int].1.model()));
        }
        if !key_seen_before(fields, i) {
            match find_enum_fault(fields[i].0.as_str(), &fields[i].1) {
                Some(m) => {
                    return m;
                },
                None => {},
            }
        }
        i += 1;
    }
    if get_field(fields, "doc").is_none() {
        return make_missing_field("doc");
    }
    if get_field(fields, "values").is_none() {
        return make_missing_field("values");
    }
    String::new()
}


impl ParsedItem {
    proof fn lemma_tag_of_number_is_its_own()
        ensures
            forall|x: ParsedItem| x.tag() == "number"@ ==> x is Number,
    {
        reveal_strlit("source");
        reveal_strlit("layout");
        reveal_strlit("numberArray");
        reveal_strlit("sprite");
        reveal_strlit("formatted");
        reveal_strlit("state");
        reveal_strlit("transition");
        reveal_strlit("string");
        reveal_strlit("number");
        reveal_strlit("terrain");
        reveal_strlit("variableAnchorOffsetCollection");
        reveal_strlit("sources");
        reveal_strlit("*");
        reveal_strlit("paint");
        reveal_strlit("enum");
        reveal_strlit("filter");
        reveal_strlit("colorArray");
        reveal_strlit("projection");
        reveal_strlit("light");
        reveal_strlit("promoteId");
        reveal_strlit("padding");
        reveal_strlit("projectionDefinition");
        reveal_strlit("expression");
        reveal_strlit("color");
        reveal_strlit("array");
        reveal_strlit("sky");
        reveal_strlit("property-type");
        reveal_strlit("boolean");
        reveal_strlit("resolvedImage");
        assert("number"@.len() != "*"@.len());
        assert("number"@.len() != "transition"@.len());
        assert("number"@[0] != "string"@[0]);
        assert("number"@.len() != "light"@.len());
        assert("number"@.len() != "promoteId"@.len());
        assert("number"@.len() != "variableAnchorOffsetCollection"@.len());
        assert("number"@.len() != "projection"@.len());
        assert("number"@.len() != "property-type"@.len());
        assert("number"@[0] != "sprite"@[0]);
        assert("number"@[0] != "source"@[0]);
        assert("number"@.len() != "resolvedImage"@.len());
        assert("number"@[0] != "layout"@[0]);
        assert("number"@.len() != "expression"@.len());
        assert("number"@.len() != "sky"@.len());
        assert("number"@.len() != "colorArray"@.len());
        assert("number"@.len() != "projectionDefinition"@.len());
        assert("number"@.len() != "boolean"@.len());
        assert("number"@[0] != "filter"@[0]);
        assert("number"@.len() != "paint"@.len());
        assert("number"@.len() != "array"@.len());
        assert("number"@.len() != "enum"@.len());
        assert("number"@.len() != "color"@.len());
        assert("number"@.len() != "numberArray"@.len());
        assert("number"@.len() != "sources"@.len());
        assert("number"@.len() != "terrain"@.len());
        assert("number"@.len() != "state"@.len());
        assert("number"@.len() != "padding"@.len());
        assert("number"@.len() != "formatted"@.len());
    }

    proof fn lemma_tag_of_enum_is_its_own()
        ensures
            forall|x: ParsedItem| x.tag() == "enum"@ ==> x is Enum,
    {
        reveal_strlit("source");
        reveal_strlit("layout");
        reveal_strlit("numberArray");
        reveal_strlit("sprite");
        reveal_strlit("formatted");
        reveal_strlit("state");
        reveal_strlit("transition");
        reveal_strlit("string");
        reveal_strlit("number");
        reveal_strlit("terrain");
        reveal_strlit("variableAnchorOffsetCollection");
        reveal_strlit("sources");
        reveal_strlit("*");
        reveal_strlit("paint");
        reveal_strlit("enum");
        reveal_strlit("filter");
        reveal_strlit("colorArray");
        reveal_strlit("projection");
        reveal_strlit("light");
        reveal_strlit("promoteId");
        reveal_strlit("padding");
        reveal_strlit("projectionDefinition");
        reveal_strlit("expression");
        reveal_strlit("color");
        reveal_strlit("array");
        reveal_strlit("sky");
        reveal_strlit("property-type");
        reveal_strlit("boolean");
        reveal_strlit("resolvedImage");
        assert("enum"@.len() != "boolean"@.len());
        assert("enum"@.len() != "paint"@.len());
        assert("enum"@.len() != "resolvedImage"@.len());
        assert("enum"@.len() != "transition"@.len());
        assert("enum"@.len() != "sources"@.len());
        assert("enum"@.len() != "sprite"@.len());
        assert("enum"@.len() != "sky"@.len());
        assert("enum"@.len() != "expression"@.len());
        assert("enum"@.len() != "string"@.len());
        assert("enum"@.len() != "*"@.len());
        assert("enum"@.len() != "source"@.len());
        assert("enum"@.len() != "layout"@.len());
        assert("enum"@.len() != "array"@.len());
        assert("enum"@.len() != "property-type"@.len());
        assert("enum"@.len() != "light"@.len());
        assert("enum"@.len() != "terrain"@.len());
        assert("enum"@.len() != "numberArray"@.len());
        assert("enum"@.len() != "state"@.len());
        assert("enum"@.len() != "variableAnchorOffsetCollection"@.len());
        assert("enum"@.len() != "colorArray"@.len());
        assert("enum"@.len() != "color"@.len());
        assert("enum"@.len() != "projection"@.len());
        assert("enum"@.len() != "number"@.len());
        assert("enum"@.len() != "padding"@.len());
        assert("enum"@.len() != "promoteId"@.len());
        assert("enum"@.len() != "projectionDefinition"@.len());
        assert("enum"@.len() != "formatted"@.len());
        assert("enum"@.len() != "filter"@.len());
    }

    proof fn lemma_tag_of_array_is_its_own()
        ensures
            forall|x: ParsedItem| x.tag() == "array"@ ==> x is Array,
    {
        reveal_strlit("source");
        reveal_strlit("layout");
        reveal_strlit("numberArray");
        reveal_strlit("sprite");
        reveal_strlit("formatted");
        reveal_strlit("state");
        reveal_strlit("transition");
        reveal_strlit("string");
        reveal_strlit("number");
        reveal_strlit("terrain");
        reveal_strlit("variableAnchorOffsetCollection");
        reveal_strlit("sources");
        reveal_strlit("*");
        reveal_strlit("paint");
        reveal_strlit("enum");
        reveal_strlit("filter");
        reveal_strlit("colorArray");
        reveal_strlit("projection");
        reveal_strlit("light");
        reveal_strlit("promoteId");
        reveal_strlit("padding");
        reveal_strlit("projectionDefinition");
        reveal_strlit("expression");
        reveal_strlit("color");
        reveal_strlit("array");
        reveal_strlit("sky");
        reveal_strlit("property-type");
        reveal_strlit("boolean");
        reveal_strlit("resolvedImage");
        assert("array"@.len() != "source"@.len());
        assert("array"@.len() != "padding"@.len());
        assert("array"@.len() != "numberArray"@.len());
        assert("array"@.len() != "terrain"@.len());
        assert("array"@.len() != "boolean"@.len());
        assert("array"@.len() != "resolvedImage"@.len());
        assert("array"@.len() != "sky"@.len());
        assert("array"@.len() != "formatted"@.len());
        assert("array"@[0] != "light"@[0]);
        assert("array"@.len() != "variableAnchorOffsetCollection"@.len());
        assert("array"@.len() != "string"@.len());
        assert("array"@.len() != "enum"@.len());
        assert("array"@.len() != "sprite"@.len());
        assert("array"@.len() != "promoteId"@.len());
        assert("array"@.len() != "transition"@.len());
        assert("array"@.len() != "property-type"@.len());
        assert("array"@[0] != "color"@[0]);
        assert("array"@[0] != "paint"@[0]);
        assert("array"@[0] != "state"@[0]);
        assert("array"@.len() != "*"@.len());
        assert("array"@.len() != "projection"@.len());
        assert("array"@.len() != "expression"@.len());
        assert("array"@.len() != "projectionDefinition"@.len());
        assert("array"@.len() != "colorArray"@.len());
        assert("array"@.len() != "sources"@.len());
        assert("array"@.len() != "layout"@.len());
        assert("array"@.len() != "filter"@.len());
        assert("array"@.len() != "number"@.len());
    }

    proof fn lemma_tag_of_color_is_its_own()
        ensures
            forall|x: ParsedItem| x.tag() == "color"@ ==> x is Color,
    {
        reveal_strlit("source");
        reveal_strlit("layout");
        reveal_strlit("numberArray");
        reveal_strlit("sprite");
        reveal_strlit("formatted");
        reveal_strlit("state");
        reveal_strlit("transition");
        reveal_strlit("string");
        reveal_strlit("number");
        reveal_strlit("terrain");
        reveal_strlit("variableAnchorOffsetCollection");
        reveal_strlit("sources");
        reveal_strlit("*");
        reveal_strlit("paint");
        reveal_strlit("enum");
        reveal_strlit("filter");
        reveal_strlit("colorArray");
        reveal_strlit("projection");
        reveal_strlit("light");
        reveal_strlit("promoteId");
        reveal_strlit("padding");
        reveal_strlit("projectionDefinition");
        reveal_strlit("expression");
        reveal_strlit("color");
        reveal_strlit("array");
        reveal_strlit("sky");
        reveal_strlit("property-type");
        reveal_strlit("boolean");
        reveal_strlit("resolvedImage");
        assert("color"@.len() != "string"@.len());
        assert("color"@.len() != "resolvedImage"@.len());
        assert("color"@.len() != "projectionDefinition"@.len());
        assert("color"@[0] != "paint"@[0]);
        assert("color"@.len() != "layout"@.len());
        assert("color"@.len() != "expression"@.len());
        assert("color"@.len() != "transition"@.len());
        assert("color"@.len() != "sprite"@.len());
        assert("color"@.len() != "filter"@.len());
        assert("color"@.len() != "source"@.len());
        assert("color"@[0] != "state"@[0]);
        assert("color"@.len() != "sources"@.len());
        assert("color"@.len() != "property-type"@.len());
        assert("color"@.len() != "number"@.len());
        assert("color"@.len() != "enum"@.len());
        assert("color"@.len() != "formatted"@.len());
        assert("color"@[0] != "array"@[0]);
        assert("color"@[0] != "light"@[0]);
        assert("color"@.len() != "*"@.len());
        assert("color"@.len() != "terrain"@.len());
        assert("color"@.len() != "variableAnchorOffsetCollection"@.len());
        assert("color"@.len() != "projection"@.len());
        assert("color"@.len() != "padding"@.len());
        assert("color"@.len() != "sky"@.len());
        assert("color"@.len() != "boolean"@.len());
        assert("color"@.len() != "numberArray"@.len());
        assert("color"@.len() != "promoteId"@.len());
        assert("color"@.len() != "colorArray"@.len());
    }

    proof fn lemma_tag_of_string_is_its_own()
        ensures
            forall|x: ParsedItem| x.tag() == "string"@ ==> x is String,
    {
        reveal_strlit("source");
        reveal_strlit("layout");
        reveal_strlit("numberArray");
        reveal_strlit("sprite");
        reveal_strlit("formatted");
        reveal_strlit("state");
        reveal_strlit("transition");
        reveal_strlit("string");
        reveal_strlit("number");
        reveal_strlit("terrain");
        reveal_strlit("variableAnchorOffsetCollection");
        reveal_strlit("sources");
        reveal_strlit("*");
        reveal_strlit("paint");
        reveal_strlit("enum");
        reveal_strlit("filter");
        reveal_strlit("colorArray");
        reveal_strlit("projection");
        reveal_strlit("light");
        reveal_strlit("promoteId");
        reveal_strlit("padding");
        reveal_strlit("projectionDefinition");
        reveal_strlit("expression");
        reveal_strlit("color");
        reveal_strlit("array");
        reveal_strlit("sky");
        reveal_strlit("property-type");
        reveal_strlit("boolean");
        reveal_strlit("resolvedImage");
        assert("string"@[0] != "layout"@[0]);
        assert("string"@.len() != "formatted"@.len());
        assert("string"@.len() != "sources"@.len());
        assert("string"@.len() != "padding"@.len());
        assert("string"@.len() != "light"@.len());
        assert("string"@.len() != "projectionDefinition"@.len());
        assert("string"@.len() != "state"@.len());
        assert("string"@.len() != "promoteId"@.len());
        assert("string"@.len() != "sky"@.len());
        assert("string"@.len() != "*"@.len());
        assert("string"@[1] != "source"@[1]);
        assert("string"@.len() != "variableAnchorOffsetCollection"@.len());
        assert("string"@.len() != "boolean"@.len());
        assert("string"@.len() != "expression"@.len());
        assert("string"@[1] != "sprite"@[1]);
        assert("string"@.len() != "projection"@.len());
        assert("string"@[0] != "filter"@[0]);
        assert("string"@.len() != "property-type"@.len());
        assert("string"@[0] != "number"@[0]);
        assert("string"@.len() != "enum"@.len());
        assert("string"@.len() != "numberArray"@.len());
        assert("string"@.len() != "terrain"@.len());
        assert("string"@.len() != "array"@.len());
        assert("string"@.len() != "resolvedImage"@.len());
        assert("string"@.len() != "transition"@.len());
        assert("string"@.len() != "paint"@.len());
        assert("string"@.len() != "colorArray"@.len());
        assert("string"@.len() != "color"@.len());
    }

    proof fn lemma_tag_of_boolean_is_its_own()
        ensures
            forall|x: ParsedItem| x.tag() == "boolean"@ ==> x is Boolean,
    {
        reveal_strlit("source");
        reveal_strlit("layout");
        reveal_strlit("numberArray");
        reveal_strlit("sprite");
        reveal_strlit("formatted");
        reveal_strlit("state");
        reveal_strlit("transition");
        reveal_strlit("string");
        reveal_strlit("number");
        reveal_strlit("terrain");
        reveal_strlit("variableAnchorOffsetCollection");
        reveal_strlit("sources");
        reveal_strlit("*");
        reveal_strlit("paint");
        reveal_strlit("enum");
        reveal_strlit("filter");
        reveal_strlit("colorArray");
        reveal_strlit("projection");
        reveal_strlit("light");
        reveal_strlit("promoteId");
        reveal_strlit("padding");
        reveal_strlit("projectionDefinition");
        reveal_strlit("expression");
        reveal_strlit("color");
        reveal_strlit("array");
        reveal_strlit("sky");
        reveal_strlit("property-type");
        reveal_strlit("boolean");
        reveal_strlit("resolvedImage");
        assert("boolean"@.len() != "filter"@.len());
        assert("boolean"@.len() != "enum"@.len());
        assert("boolean"@.len() != "layout"@.len());
        assert("boolean"@.len() != "resolvedImage"@.len());
        assert("boolean"@.len() != "sky"@.len());
        assert("boolean"@.len() != "array"@.len());
        assert("boolean"@[0] != "padding"@[0]);
        assert("boolean"@.len() != "source"@.len());
        assert("boolean"@.len() != "projection"@.len());
        assert("boolean"@.len() != "paint"@.len());
        assert("boolean"@.len() != "transition"@.len());
        assert("boolean"@.len() != "number"@.len());
        assert("boolean"@.len() != "color"@.len());
        assert("boolean"@.len() != "colorArray"@.len());
        assert("boolean"@.len() != "sprite"@.len());
        assert("boolean"@.len() != "numberArray"@.len());
        assert("boolean"@.len() != "*"@.len());
        assert("boolean"@.len() != "projectionDefinition"@.len());
        assert("boolean"@.len() != "light"@.len());
        assert("boolean"@[0] != "sources"@[0]);
        assert("boolean"@.len() != "promoteId"@.len());
        assert("boolean"@.len() != "string"@.len());
        assert("boolean"@.len() != "formatted"@.len());
        assert("boolean"@.len() != "property-type"@.len());
        assert("boolean"@[0] != "terrain"@[0]);
        assert("boolean"@.len() != "state"@.len());
        assert("boolean"@.len() != "expression"@.len());
        assert("boolean"@.len() != "variableAnchorOffsetCollection"@.len());
    }

    proof fn lemma_tag_of_star_is_its_own()
        ensures
            forall|x: ParsedItem| x.tag() == "*"@ ==> x is Star,
    {
        reveal_strlit("source");
        reveal_strlit("layout");
        reveal_strlit("numberArray");
        reveal_strlit("sprite");
        reveal_strlit("formatted");
        reveal_strlit("state");
        reveal_strlit("transition");
        reveal_strlit("string");
        reveal_strlit("number");
        reveal_strlit("terrain");
        reveal_strlit("variableAnchorOffsetCollection");
        reveal_strlit("sources");
        reveal_strlit("*");
        reveal_strlit("paint");
        reveal_strlit("enum");
        reveal_strlit("filter");
        reveal_strlit("colorArray");
        reveal_strlit("projection");
        reveal_strlit("light");
        reveal_strlit("promoteId");
        reveal_strlit("padding");
        reveal_strlit("projectionDefinition");
        reveal_strlit("expression");
        reveal_strlit("color");
        reveal_strlit("array");
        reveal_strlit("sky");
        reveal_strlit("property-type");
        reveal_strlit("boolean");
        reveal_strlit("resolvedImage");
        assert("*"@.len() != "numberArray"@.len());
        assert("*"@.len() != "resolvedImage"@.len());
        assert("*"@.len() != "state"@.len());
        assert("*"@.len() != "number"@.len());
        assert("*"@.len() != "source"@.len());
        assert("*"@.len() != "terrain"@.len());
        assert("*"@.len() != "array"@.len());
        assert("*"@.len() != "transition"@.len());
        assert("*"@.len() != "filter"@.len());
        assert("*"@.len() != "boolean"@.len());
        assert("*"@.len() != "sky"@.len());
        assert("*"@.len() != "sources"@.len());
        assert("*"@.len() != "promoteId"@.len());
        assert("*"@.len() != "sprite"@.len());
        assert("*"@.len() != "enum"@.len());
        assert("*"@.len() != "variableAnchorOffsetCollection"@.len());
        assert("*"@.len() != "expression"@.len());
        assert("*"@.len() != "property-type"@.len());
        assert("*"@.len() != "string"@.len());
        assert("*"@.len() != "paint"@.len());
        assert("*"@.len() != "projectionDefinition"@.len());
        assert("*"@.len() != "layout"@.len());
        assert("*"@.len() != "light"@.len());
        assert("*"@.len() != "color"@.len());
        assert("*"@.len() != "colorArray"@.len());
        assert("*"@.len() != "padding"@.len());
        assert("*"@.len() != "projection"@.len());
        assert("*"@.len() != "formatted"@.len());
    }

    proof fn lemma_tag_of_property_type_is_its_own()
        ensures
            forall|x: ParsedItem| x.tag() == "property-type"@ ==> x is PropertyType,
    {
        reveal_strlit("source");
        reveal_strlit("layout");
        reveal_strlit("numberArray");
        reveal_strlit("sprite");
        reveal_strlit("formatted");
        reveal_strlit("state");
        reveal_strlit("transition");
        reveal_strlit("string");
        reveal_strlit("number");
        reveal_strlit("terrain");
        reveal_strlit("variableAnchorOffsetCollection");
        reveal_strlit("sources");
        reveal_strlit("*");
        reveal_strlit("paint");
        reveal_strlit("enum");
        reveal_strlit("filter");
        reveal_strlit("colorArray");
        reveal_strlit("projection");
        reveal_strlit("light");
        reveal_strlit("promoteId");
        reveal_strlit("padding");
        reveal_strlit("projectionDefinition");
        reveal_strlit("expression");
        reveal_strlit("color");
        reveal_strlit("array");
        reveal_strlit("sky");
        reveal_strlit("property-type");
        reveal_strlit("boolean");
        reveal_strlit("resolvedImage");
        assert("property-type"@.len() != "projection"@.len());
        assert("property-type"@.len() != "sources"@.len());
        assert("property-type"@[0] != "resolvedImage"@[0]);
        assert("property-type"@.len() != "source"@.len());
        assert("property-type"@.len() != "variableAnchorOffsetCollection"@.len());
        assert("property-type"@.len() != "filter"@.len());
        assert("property-type"@.len() != "terrain"@.len());
        assert("property-type"@.len() != "projectionDefinition"@.len());
        assert("property-type"@.len() != "color"@.len());
        assert("property-type"@.len() != "state"@.len());
        assert("property-type"@.len() != "formatted"@.len());
        assert("property-type"@.len() != "string"@.len());
        assert("property-type"@.len() != "colorArray"@.len());
        assert("property-type"@.len() != "layout"@.len());
        assert("property-type"@.len() != "number"@.len());
        assert("property-type"@.len() != "*"@.len());
        assert("property-type"@.len() != "light"@.len());
        assert("property-type"@.len() != "sky"@.len());
        assert("property-type"@.len() != "paint"@.len());
        assert("property-type"@.len() != "array"@.len());
        assert("property-type"@.len() != "transition"@.len());
        assert("property-type"@.len() != "boolean"@.len());
        assert("property-type"@.len() != "numberArray"@.len());
        assert("property-type"@.len() != "expression"@.len());
        assert("property-type"@.len() != "promoteId"@.len());
        assert("property-type"@.len() != "enum"@.len());
        assert("property-type"@.len() != "padding"@.len());
        assert("property-type"@.len() != "sprite"@.len());
    }

    proof fn lemma_tag_of_resolved_image_is_its_own()
        ensures
            forall|x: ParsedItem| x.tag() == "resolvedImage"@ ==> x is ResolvedImage,
    {
        reveal_strlit("source");
        reveal_strlit("layout");
        reveal_strlit("numberArray");
        reveal_strlit("sprite");
        reveal_strlit("formatted");
        reveal_strlit("state");
        reveal_strlit("transition");
        reveal_strlit("string");
        reveal_strlit("number");
        reveal_strlit("terrain");
        reveal_strlit("variableAnchorOffsetCollection");
        reveal_strlit("sources");
        reveal_strlit("*");
        reveal_strlit("paint");
        reveal_strlit("enum");
        reveal_strlit("filter");
        reveal_strlit("colorArray");
        reveal_strlit("projection");
        reveal_strlit("light");
        reveal_strlit("promoteId");
        reveal_strlit("padding");
        reveal_strlit("projectionDefinition");
        reveal_strlit("expression");
        reveal_strlit("color");
        reveal_strlit("array");
        reveal_strlit("sky");
        reveal_strlit("property-type");
        reveal_strlit("boolean");
        reveal_strlit("resolvedImage");
        assert("resolvedImage"@.len() != "expression"@.len());
        assert("resolvedImage"@.len() != "string"@.len());
        assert("resolvedImage"@.len() != "formatted"@.len());
        assert("resolvedImage"@.len() != "state"@.len());
        assert("resolvedImage"@.len() != "promoteId"@.len());
        assert("resolvedImage"@.len() != "padding"@.len());
        assert("resolvedImage"@.len() != "sprite"@.len());
        assert("resolvedImage"@.len() != "sources"@.len());
        assert("resolvedImage"@[0] != "property-type"@[0]);
        assert("resolvedImage"@.len() != "source"@.len());
        assert("resolvedImage"@.len() != "filter"@.len());
        assert("resolvedImage"@.len() != "number"@.len());
        assert("resolvedImage"@.len() != "paint"@.len());
        assert("resolvedImage"@.len() != "light"@.len());
        assert("resolvedImage"@.len() != "transition"@.len());
        assert("resolvedImage"@.len() != "colorArray"@.len());
        assert("resolvedImage"@.len() != "layout"@.len());
        assert("resolvedImage"@.len() != "sky"@.len());
        assert("resolvedImage"@.len() != "variableAnchorOffsetCollection"@.len());
        assert("resolvedImage"@.len() != "enum"@.len());
        assert("resolvedImage"@.len() != "*"@.len());
        assert("resolvedImage"@.len() != "numberArray"@.len());
        assert("resolvedImage"@.len() != "terrain"@.len());
        assert("resolvedImage"@.len() != "array"@.len());
        assert("resolvedImage"@.len() != "projectionDefinition"@.len());
        assert("resolvedImage"@.len() != "projection"@.len());
        assert("resolvedImage"@.len() != "boolean"@.len());
        assert("resolvedImage"@.len() != "color"@.len());
    }

    proof fn lemma_tag_of_promote_id_is_its_own()
        ensures
            forall|x: ParsedItem| x.tag() == "promoteId"@ ==> x is PromoteId,
    {
        reveal_strlit("source");
        reveal_strlit("layout");
        reveal_strlit("numberArray");
        reveal_strlit("sprite");
        reveal_strlit("formatted");
        reveal_strlit("state");
        reveal_strlit("transition");
        reveal_strlit("string");
        reveal_strlit("number");
        reveal_strlit("terrain");
        reveal_strlit("variableAnchorOffsetCollection");
        reveal_strlit("sources");
        reveal_strlit("*");
        reveal_strlit("paint");
        reveal_strlit("enum");
        reveal_strlit("filter");
        reveal_strlit("colorArray");
        reveal_strlit("projection");
        reveal_strlit("light");
        reveal_strlit("promoteId");
        reveal_strlit("padding");
        reveal_strlit("projectionDefinition");
        reveal_strlit("expression");
        reveal_strlit("color");
        reveal_strlit("array");
        reveal_strlit("sky");
        reveal_strlit("property-type");
        reveal_strlit("boolean");
        reveal_strlit("resolvedImage");
        assert("promoteId"@.len() != "numberArray"@.len());
        assert("promoteId"@[0] != "formatted"@[0]);
        assert("promoteId"@.len() != "paint"@.len());
        assert("promoteId"@.len() != "projection"@.len());
        assert("promoteId"@.len() != "resolvedImage"@.len());
        assert("promoteId"@.len() != "enum"@.len());
        assert("promoteId"@.len() != "projectionDefinition"@.len());
        assert("promoteId"@.len() != "sprite"@.len());
        assert("promoteId"@.len() != "transition"@.len());
        assert("promoteId"@.len() != "padding"@.len());
        assert("promoteId"@.len() != "source"@.len());
        assert("promoteId"@.len() != "expression"@.len());
        assert("promoteId"@.len() != "state"@.len());
        assert("promoteId"@.len() != "light"@.len());
        assert("promoteId"@.len() != "sources"@.len());
        assert("promoteId"@.len() != "filter"@.len());
        assert("promoteId"@.len() != "color"@.len());
        assert("promoteId"@.len() != "terrain"@.len());
        assert("promoteId"@.len() != "string"@.len());
        assert("promoteId"@.len() != "variableAnchorOffsetCollection"@.len());
        assert("promoteId"@.len() != "boolean"@.len());
        assert("promoteId"@.len() != "array"@.len());
        assert("promoteId"@.len() != "number"@.len());
        assert("promoteId"@.len() != "*"@.len());
        assert("promoteId"@.len() != "sky"@.len());
        assert("promoteId"@.len() != "property-type"@.len());
        assert("promoteId"@.len() != "layout"@.len());
        assert("promoteId"@.len() != "colorArray"@.len());
    }

    proof fn lemma_tag_of_number_array_is_its_own()
        ensures
            forall|x: ParsedItem| x.tag() == "numberArray"@ ==> x is NumberArray,
    {
        reveal_strlit("source");
        reveal_strlit("layout");
        reveal_strlit("numberArray");
        reveal_strlit("sprite");
        reveal_strlit("formatted");
        reveal_strlit("state");
        reveal_strlit("transition");
        reveal_strlit("string");
        reveal_strlit("number");
        reveal_strlit("terrain");
        reveal_strlit("variableAnchorOffsetCollection");
        reveal_strlit("sources");
        reveal_strlit("*");
        reveal_strlit("paint");
        reveal_strlit("enum");
        reveal_strlit("filter");
        reveal_strlit("colorArray");
        reveal_strlit("projection");
        reveal_strlit("light");
        reveal_strlit("promoteId");
        reveal_strlit("padding");
        reveal_strlit("projectionDefinition");
        reveal_strlit("expression");
        reveal_strlit("color");
        reveal_strlit("array");
        reveal_strlit("sky");
        reveal_strlit("property-type");
        reveal_strlit("boolean");
        reveal_strlit("resolvedImage");
        assert("numberArray"@.len() != "promoteId"@.len());
        assert("numberArray"@.len() != "property-type"@.len());
        assert("numberArray"@.len() != "variableAnchorOffsetCollection"@.len());
        assert("numberArray"@.len() != "filter"@.len());
        assert("numberArray"@.len() != "sources"@.len());
        assert("numberArray"@.len() != "terrain"@.len());
        assert("numberArray"@.len() != "boolean"@.len());
        assert("numberArray"@.len() != "projectionDefinition"@.len());
        assert("numberArray"@.len() != "colorArray"@.len());
        assert("numberArray"@.len() != "formatted"@.len());
        assert("numberArray"@.len() != "*"@.len());
        assert("numberArray"@.len() != "number"@.len());
        assert("numberArray"@.len() != "array"@.len());
        assert("numberArray"@.len() != "color"@.len());
        assert("numberArray"@.len() != "string"@.len());
        assert("numberArray"@.len() != "resolvedImage"@.len());
        assert("numberArray"@.len() != "state"@.len());
        assert("numberArray"@.len() != "light"@.len());
        assert("numberArray"@.len() != "expression"@.len());
        assert("numberArray"@.len() != "layout"@.len());
        assert("numberArray"@.len() != "padding"@.len());
        assert("numberArray"@.len() != "source"@.len());
        assert("numberArray"@.len() != "transition"@.len());
        assert("numberArray"@.len() != "paint"@.len());
        assert("numberArray"@.len() != "sprite"@.len());
        assert("numberArray"@.len() != "projection"@.len());
        assert("numberArray"@.len() != "enum"@.len());
        assert("numberArray"@.len() != "sky"@.len());
    }

    proof fn lemma_tag_of_color_array_is_its_own()
        ensures
            forall|x: ParsedItem| x.tag() == "colorArray"@ ==> x is ColorArray,
    {
        reveal_strlit("source");
        reveal_strlit("layout");
        reveal_strlit("numberArray");
        reveal_strlit("sprite");
        reveal_strlit("formatted");
        reveal_strlit("state");
        reveal_strlit("transition");
        reveal_strlit("string");
        reveal_strlit("number");
        reveal_strlit("terrain");
        reveal_strlit("variableAnchorOffsetCollection");
        reveal_strlit("sources");
        reveal_strlit("*");
        reveal_strlit("paint");
        reveal_strlit("enum");
        reveal_strlit("filter");
        reveal_strlit("colorArray");
        reveal_strlit("projection");
        reveal_strlit("light");
        reveal_strlit("promoteId");
        reveal_strlit("padding");
        reveal_strlit("projectionDefinition");
        reveal_strlit("expression");
        reveal_strlit("color");
        reveal_strlit("array");
        reveal_strlit("sky");
        reveal_strlit("property-type");
        reveal_strlit("boolean");
        reveal_strlit("resolvedImage");
        assert("colorArray"@[0] != "expression"@[0]);
        assert("colorArray"@[0] != "transition"@[0]);
        assert("colorArray"@.len() != "layout"@.len());
        assert("colorArray"@.len() != "variableAnchorOffsetCollection"@.len());
        assert("colorArray"@.len() != "number"@.len());
        assert("colorArray"@.len() != "resolvedImage"@.len());
        assert("colorArray"@.len() != "numberArray"@.len());
        assert("colorArray"@.len() != "promoteId"@.len());
        assert("colorArray"@.len() != "array"@.len());
        assert("colorArray"@.len() != "padding"@.len());
        assert("colorArray"@.len() != "property-type"@.len());
        assert("colorArray"@.len() != "source"@.len());
        assert("colorArray"@.len() != "color"@.len());
        assert("colorArray"@.len() != "formatted"@.len());
        assert("colorArray"@[0] != "projection"@[0]);
        assert("colorArray"@.len() != "state"@.len());
        assert("colorArray"@.len() != "light"@.len());
        assert("colorArray"@.len() != "projectionDefinition"@.len());
        assert("colorArray"@.len() != "sprite"@.len());
        assert("colorArray"@.len() != "boolean"@.len());
        assert("colorArray"@.len() != "*"@.len());
        assert("colorArray"@.len() != "paint"@.len());
        assert("colorArray"@.len() != "sky"@.len());
        assert("colorArray"@.len() != "terrain"@.len());
        assert("colorArray"@.len() != "enum"@.len());
        assert("colorArray"@.len() != "filter"@.len());
        assert("colorArray"@.len() != "sources"@.len());
        assert("colorArray"@.len() != "string"@.len());
    }

    proof fn lemma_tag_of_variable_anchor_offset_collection_is_its_own()
        ensures
            forall|x: ParsedItem| x.tag() == "variableAnchorOffsetCollection"@ ==> x is VariableAnchorOffsetCollection,
    {
        reveal_strlit("source");
        reveal_strlit("layout");
        reveal_strlit("numberArray");
        reveal_strlit("sprite");
        reveal_strlit("formatted");
        reveal_strlit("state");
        reveal_strlit("transition");
        reveal_strlit("string");
        reveal_strlit("number");
        reveal_strlit("terrain");
        reveal_strlit("variableAnchorOffsetCollection");
        reveal_strlit("sources");
        reveal_strlit("*");
        reveal_strlit("paint");
        reveal_strlit("enum");
        reveal_strlit("filter");
        reveal_strlit("colorArray");
        reveal_strlit("projection");
        reveal_strlit("light");
        reveal_strlit("promoteId");
        reveal_strlit("padding");
        reveal_strlit("projectionDefinition");
        reveal_strlit("expression");
        reveal_strlit("color");
        reveal_strlit("array");
        reveal_strlit("sky");
        reveal_strlit("property-type");
        reveal_strlit("boolean");
        reveal_strlit("resolvedImage");
        assert("variableAnchorOffsetCollection"@.len() != "promoteId"@.len());
        assert("variableAnchorOffsetCollection"@.len() != "paint"@.len());
        assert("variableAnchorOffsetCollection"@.len() != "sky"@.len());
        assert("variableAnchorOffsetCollection"@.len() != "sources"@.len());
        assert("variableAnchorOffsetCollection"@.len() != "light"@.len());
        assert("variableAnchorOffsetCollection"@.len() != "sprite"@.len());
        assert("variableAnchorOffsetCollection"@.len() != "expression"@.len());
        assert("variableAnchorOffsetCollection"@.len() != "transition"@.len());
        assert("variableAnchorOffsetCollection"@.len() != "numberArray"@.len());
        assert("variableAnchorOffsetCollection"@.len() != "filter"@.len());
        assert("variableAnchorOffsetCollection"@.len() != "state"@.len());
        assert("variableAnchorOffsetCollection"@.len() != "color"@.len());
        assert("variableAnchorOffsetCollection"@.len() != "projection"@.len());
        assert("variableAnchorOffsetCollection"@.len() != "property-type"@.len());
        assert("variableAnchorOffsetCollection"@.len() != "number"@.len());
        assert("variableAnchorOffsetCollection"@.len() != "projectionDefinition"@.len());
        assert("variableAnchorOffsetCollection"@.len() != "*"@.len());
        assert("variableAnchorOffsetCollection"@.len() != "string"@.len());
        assert("variableAnchorOffsetCollection"@.len() != "padding"@.len());
        assert("variableAnchorOffsetCollection"@.len() != "array"@.len());
        assert("variableAnchorOffsetCollection"@.len() != "enum"@.len());
        assert("variableAnchorOffsetCollection"@.len() != "layout"@.len());
        assert("variableAnchorOffsetCollection"@.len() != "boolean"@.len());
        assert("variableAnchorOffsetCollection"@.len() != "resolvedImage"@.len());
        assert("variableAnchorOffsetCollection"@.len() != "colorArray"@.len());
        assert("variableAnchorOffsetCollection"@.len() != "terrain"@.len());
        assert("variableAnchorOffsetCollection"@.len() != "formatted"@.len());
        assert("variableAnchorOffsetCollection"@.len() != "source"@.len());
    }

    proof fn lemma_tag_of_transition_is_its_own()
        ensures
            forall|x: ParsedItem| x.tag() == "transition"@ ==> x is Transition,
    {
        reveal_strlit("source");
        reveal_strlit("layout");
        reveal_strlit("numberArray");
        reveal_strlit("sprite");
        reveal_strlit("formatted");
        reveal_strlit("state");
        reveal_strlit("transition");
        reveal_strlit("string");
        reveal_strlit("number");
        reveal_strlit("terrain");
        reveal_strlit("variableAnchorOffsetCollection");
        reveal_strlit("sources");
        reveal_strlit("*");
        reveal_strlit("paint");
        reveal_strlit("enum");
        reveal_strlit("filter");
        reveal_strlit("colorArray");
        reveal_strlit("projection");
        reveal_strlit("light");
        reveal_strlit("promoteId");
        reveal_strlit("padding");
        reveal_strlit("projectionDefinition");
        reveal_strlit("expression");
        reveal_strlit("color");
        reveal_strlit("array");
        reveal_strlit("sky");
        reveal_strlit("property-type");
        reveal_strlit("boolean");
        reveal_strlit("resolvedImage");
        assert("transition"@.len() != "source"@.len());
        assert("transition"@.len() != "light"@.len());
        assert("transition"@.len() != "variableAnchorOffsetCollection"@.len());
        assert("transition"@.len() != "filter"@.len());
        assert("transition"@.len() != "string"@.len());
        assert("transition"@[0] != "colorArray"@[0]);
        assert("transition"@.len() != "property-type"@.len());
        assert("transition"@.len() != "layout"@.len());
        assert("transition"@.len() != "promoteId"@.len());
        assert("transition"@.len() != "sprite"@.len());
        assert("transition"@.len() != "number"@.len());
        assert("transition"@.len() != "sky"@.len());
        assert("transition"@.len() != "state"@.len());
        assert("transition"@.len() != "terrain"@.len());
        assert("transition"@.len() != "color"@.len());
        assert("transition"@.len() != "boolean"@.len());
        assert("transition"@.len() != "enum"@.len());
        assert("transition"@[0] != "projection"@[0]);
        assert("transition"@.len() != "formatted"@.len());
        assert("transition"@.len() != "numberArray"@.len());
        assert("transition"@.len() != "array"@.len());
        assert("transition"@.len() != "sources"@.len());
        assert("transition"@[0] != "expression"@[0]);
        assert("transition"@.len() != "resolvedImage"@.len());
        assert("transition"@.len() != "padding"@.len());
        assert("transition"@.len() != "projectionDefinition"@.len());
        assert("transition"@.len() != "paint"@.len());
        assert("transition"@.len() != "*"@.len());
    }

    proof fn lemma_tag_of_terrain_is_its_own()
        ensures
            forall|x: ParsedItem| x.tag() == "terrain"@ ==> x is Terrain,
    {
        reveal_strlit("source");
        reveal_strlit("layout");
        reveal_strlit("numberArray");
        reveal_strlit("sprite");
        reveal_strlit("formatted");
        reveal_strlit("state");
        reveal_strlit("transition");
        reveal_strlit("string");
        reveal_strlit("number");
        reveal_strlit("terrain");
        reveal_strlit("variableAnchorOffsetCollection");
        reveal_strlit("sources");
        reveal_strlit("*");
        reveal_strlit("paint");
        reveal_strlit("enum");
        reveal_strlit("filter");
        reveal_strlit("colorArray");
        reveal_strlit("projection");
        reveal_strlit("light");
        reveal_strlit("promoteId");
        reveal_strlit("padding");
        reveal_strlit("projectionDefinition");
        reveal_strlit("expression");
        reveal_strlit("color");
        reveal_strlit("array");
        reveal_strlit("sky");
        reveal_strlit("property-type");
        reveal_strlit("boolean");
        reveal_strlit("resolvedImage");
        assert("terrain"@.len() != "property-type"@.len());
        assert("terrain"@[0] != "boolean"@[0]);
        assert("terrain"@.len() != "array"@.len());
        assert("terrain"@.len() != "expression"@.len());
        assert("terrain"@.len() != "sprite"@.len());
        assert("terrain"@.len() != "layout"@.len());
        assert("terrain"@.len() != "projectionDefinition"@.len());
        assert("terrain"@.len() != "colorArray"@.len());
        assert("terrain"@.len() != "enum"@.len());
        assert("terrain"@.len() != "paint"@.len());
        assert("terrain"@.len() != "resolvedImage"@.len());
        assert("terrain"@.len() != "numberArray"@.len());
        assert("terrain"@.len() != "formatted"@.len());
        assert("terrain"@.len() != "filter"@.len());
        assert("terrain"@.len() != "transition"@.len());
        assert("terrain"@.len() != "color"@.len());
        assert("terrain"@.len() != "promoteId"@.len());
        assert("terrain"@[0] != "sources"@[0]);
        assert("terrain"@.len() != "projection"@.len());
        assert("terrain"@[0] != "padding"@[0]);
        assert("terrain"@.len() != "state"@.len());
        assert("terrain"@.len() != "sky"@.len());
        assert("terrain"@.len() != "*"@.len());
        assert("terrain"@.len() != "light"@.len());
        assert("terrain"@.len() != "number"@.len());
        assert("terrain"@.len() != "source"@.len());
        assert("terrain"@.len() != "variableAnchorOffsetCollection"@.len());
        assert("terrain"@.len() != "string"@.len());
    }

    proof fn lemma_tag_of_state_is_its_own()
        ensures
            forall|x: ParsedItem| x.tag() == "state"@ ==> x is State,
    {
        reveal_strlit("source");
        reveal_strlit("layout");
        reveal_strlit("numberArray");
        reveal_strlit("sprite");
        reveal_strlit("formatted");
        reveal_strlit("state");
        reveal_strlit("transition");
        reveal_strlit("string");
        reveal_strlit("number");
        reveal_strlit("terrain");
        reveal_strlit("variableAnchorOffsetCollection");
        reveal_strlit("sources");
        reveal_strlit("*");
        reveal_strlit("paint");
        reveal_strlit("enum");
        reveal_strlit("filter");
        reveal_strlit("colorArray");
        reveal_strlit("projection");
        reveal_strlit("light");
        reveal_strlit("promoteId");
        reveal_strlit("padding");
        reveal_strlit("projectionDefinition");
        reveal_strlit("expression");
        reveal_strlit("color");
        reveal_strlit("array");
        reveal_strlit("sky");
        reveal_strlit("property-type");
        reveal_strlit("boolean");
        reveal_strlit("resolvedImage");
        assert("state"@.len() != "numberArray"@.len());
        assert("state"@.len() != "*"@.len());
        assert("state"@.len() != "sprite"@.len());
        assert("state"@[0] != "paint"@[0]);
        assert("state"@.len() != "terrain"@.len());
        assert("state"@[0] != "light"@[0]);
        assert("state"@.len() != "boolean"@.len());
        assert("state"@.len() != "padding"@.len());
        assert("state"@.len() != "string"@.len());
        assert("state"@.len() != "property-type"@.len());
        assert("state"@.len() != "colorArray"@.len());
        assert("state"@.len() != "projectionDefinition"@.len());
        assert("state"@.len() != "expression"@.len());
        assert("state"@[0] != "array"@[0]);
        assert("state"@.len() != "sky"@.len());
        assert("state"@.len() != "resolvedImage"@.len());
        assert("state"@.len() != "projection"@.len());
        assert("state"@.len() != "sources"@.len());
        assert("state"@.len() != "layout"@.len());
        assert("state"@[0] != "color"@[0]);
        assert("state"@.len() != "enum"@.len());
        assert("state"@.len() != "promoteId"@.len());
        assert("state"@.len() != "filter"@.len());
        assert("state"@.len() != "formatted"@.len());
        assert("state"@.len() != "variableAnchorOffsetCollection"@.len());
        assert("state"@.len() != "number"@.len());
        assert("state"@.len() != "source"@.len());
        assert("state"@.len() != "transition"@.len());
    }

    proof fn lemma_tag_of_sprite_is_its_own()
        ensures
            forall|x: ParsedItem| x.tag() == "sprite"@ ==> x is Sprite,
    {
        reveal_strlit("source");
        reveal_strlit("layout");
        reveal_strlit("numberArray");
        reveal_strlit("sprite");
        reveal_strlit("formatted");
        reveal_strlit("state");
        reveal_strlit("transition");
        reveal_strlit("string");
        reveal_strlit("number");
        reveal_strlit("terrain");
        reveal_strlit("variableAnchorOffsetCollection");
        reveal_strlit("sources");
        reveal_strlit("*");
        reveal_strlit("paint");
        reveal_strlit("enum");
        reveal_strlit("filter");
        reveal_strlit("colorArray");
        reveal_strlit("projection");
        reveal_strlit("light");
        reveal_strlit("promoteId");
        reveal_strlit("padding");
        reveal_strlit("projectionDefinition");
        reveal_strlit("expression");
        reveal_strlit("color");
        reveal_strlit("array");
        reveal_strlit("sky");
        reveal_strlit("property-type");
        reveal_strlit("boolean");
        reveal_strlit("resolvedImage");
        assert("sprite"@.len() != "light"@.len());
        assert("sprite"@.len() != "expression"@.len());
        assert("sprite"@.len() != "property-type"@.len());
        assert("sprite"@.len() != "projectionDefinition"@.len());
        assert("sprite"@.len() != "transition"@.len());
        assert("sprite"@.len() != "enum"@.len());
        assert("sprite"@.len() != "*"@.len());
        assert("sprite"@.len() != "numberArray"@.len());
        assert("sprite"@.len() != "padding"@.len());
        assert("sprite"@[0] != "layout"@[0]);
        assert("sprite"@.len() != "state"@.len());
        assert("sprite"@.len() != "color"@.len());
        assert("sprite"@.len() != "colorArray"@.len());
        assert("sprite"@.len() != "terrain"@.len());
        assert("sprite"@[0] != "number"@[0]);
        assert("sprite"@.len() != "paint"@.len());
        assert("sprite"@.len() != "boolean"@.len());
        assert("sprite"@.len() != "sky"@.len());
        assert("sprite"@.len() != "formatted"@.len());
        assert("sprite"@.len() != "resolvedImage"@.len());
        assert("sprite"@[1] != "source"@[1]);
        assert("sprite"@.len() != "sources"@.len());
        assert("sprite"@.len() != "array"@.len());
        assert("sprite"@[0] != "filter"@[0]);
        assert("sprite"@.len() != "projection"@.len());
        assert("sprite"@.len() != "promoteId"@.len());
        assert("sprite"@.len() != "variableAnchorOffsetCollection"@.len());
        assert("sprite"@[1] != "string"@[1]);
    }

    proof fn lemma_tag_of_sources_is_its_own()
        ensures
            forall|x: ParsedItem| x.tag() == "sources"@ ==> x is Sources,
    {
        reveal_strlit("source");
        reveal_strlit("layout");
        reveal_strlit("numberArray");
        reveal_strlit("sprite");
        reveal_strlit("formatted");
        reveal_strlit("state");
        reveal_strlit("transition");
        reveal_strlit("string");
        reveal_strlit("number");
        reveal_strlit("terrain");
        reveal_strlit("variableAnchorOffsetCollection");
        reveal_strlit("sources");
        reveal_strlit("*");
        reveal_strlit("paint");
        reveal_strlit("enum");
        reveal_strlit("filter");
        reveal_strlit("colorArray");
        reveal_strlit("projection");
        reveal_strlit("light");
        reveal_strlit("promoteId");
        reveal_strlit("padding");
        reveal_strlit("projectionDefinition");
        reveal_strlit("expression");
        reveal_strlit("color");
        reveal_strlit("array");
        reveal_strlit("sky");
        reveal_strlit("property-type");
        reveal_strlit("boolean");
        reveal_strlit("resolvedImage");
        assert("sources"@.len() != "paint"@.len());
        assert("sources"@.len() != "color"@.len());
        assert("sources"@.len() != "resolvedImage"@.len());
        assert("sources"@.len() != "promoteId"@.len());
        assert("sources"@.len() != "state"@.len());
        assert("sources"@.len() != "sprite"@.len());
        assert("sources"@.len() != "numberArray"@.len());
        assert("sources"@[0] != "padding"@[0]);
        assert("sources"@.len() != "variableAnchorOffsetCollection"@.len());
        assert("sources"@.len() != "source"@.len());
        assert("sources"@.len() != "colorArray"@.len());
        assert("sources"@.len() != "transition"@.len());
        assert("sources"@.len() != "formatted"@.len());
        assert("sources"@.len() != "expression"@.len());
        assert("sources"@.len() != "number"@.len());
        assert("sources"@.len() != "enum"@.len());
        assert("sources"@.len() != "projection"@.len());
        assert("sources"@[0] != "terrain"@[0]);
        assert("sources"@.len() != "sky"@.len());
        assert("sources"@.len() != "layout"@.len());
        assert("sources"@.len() != "filter"@.len());
        assert("sources"@[0] != "boolean"@[0]);
        assert("sources"@.len() != "light"@.len());
        assert("sources"@.len() != "string"@.len());
        assert("sources"@.len() != "property-type"@.len());
        assert("sources"@.len() != "*"@.len());
        assert("sources"@.len() != "array"@.len());
        assert("sources"@.len() != "projectionDefinition"@.len());
    }

    proof fn lemma_tag_of_source_is_its_own()
        ensures
            forall|x: ParsedItem| x.tag() == "source"@ ==> x is Source,
    {
        reveal_strlit("source");
        reveal_strlit("layout");
        reveal_strlit("numberArray");
        reveal_strlit("sprite");
        reveal_strlit("formatted");
        reveal_strlit("state");
        reveal_strlit("transition");
        reveal_strlit("string");
        reveal_strlit("number");
        reveal_strlit("terrain");
        reveal_strlit("variableAnchorOffsetCollection");
        reveal_strlit("sources");
        reveal_strlit("*");
        reveal_strlit("paint");
        reveal_strlit("enum");
        reveal_strlit("filter");
        reveal_strlit("colorArray");
        reveal_strlit("projection");
        reveal_strlit("light");
        reveal_strlit("promoteId");
        reveal_strlit("padding");
        reveal_strlit("projectionDefinition");
        reveal_strlit("expression");
        reveal_strlit("color");
        reveal_strlit("array");
        reveal_strlit("sky");
        reveal_strlit("property-type");
        reveal_strlit("boolean");
        reveal_strlit("resolvedImage");
        assert("source"@.len() != "projection"@.len());
        assert("source"@.len() != "boolean"@.len());
        assert("source"@[0] != "number"@[0]);
        assert("source"@.len() != "color"@.len());
        assert("source"@.len() != "variableAnchorOffsetCollection"@.len());
        assert("source"@.len() != "paint"@.len());
        assert("source"@.len() != "padding"@.len());
        assert("source"@[0] != "filter"@[0]);
        assert("source"@.len() != "sky"@.len());
        assert("source"@.len() != "promoteId"@.len());
        assert("source"@[1] != "sprite"@[1]);
        assert("source"@[0] != "layout"@[0]);
        assert("source"@.len() != "projectionDefinition"@.len());
        assert("source"@[1] != "string"@[1]);
        assert("source"@.len() != "property-type"@.len());
        assert("source"@.len() != "terrain"@.len());
        assert("source"@.len() != "state"@.len());
        assert("source"@.len() != "transition"@.len());
        assert("source"@.len() != "sources"@.len());
        assert("source"@.len() != "*"@.len());
        assert("source"@.len() != "formatted"@.len());
        assert("source"@.len() != "colorArray"@.len());
        assert("source"@.len() != "light"@.len());
        assert("source"@.len() != "resolvedImage"@.len());
        assert("source"@.len() != "expression"@.len());
        assert("source"@.len() != "enum"@.len());
        assert("source"@.len() != "numberArray"@.len());
        assert("source"@.len() != "array"@.len());
    }

    proof fn lemma_tag_of_sky_is_its_own()
        ensures
            forall|x: ParsedItem| x.tag() == "sky"@ ==> x is Sky,
    {
        reveal_strlit("source");
        reveal_strlit("layout");
        reveal_strlit("numberArray");
        reveal_strlit("sprite");
        reveal_strlit("formatted");
        reveal_strlit("state");
        reveal_strlit("transition");
        reveal_strlit("string");
        reveal_strlit("number");
        reveal_strlit("terrain");
        reveal_strlit("variableAnchorOffsetCollection");
        reveal_strlit("sources");
        reveal_strlit("*");
        reveal_strlit("paint");
        reveal_strlit("enum");
        reveal_strlit("filter");
        reveal_strlit("colorArray");
        reveal_strlit("projection");
        reveal_strlit("light");
        reveal_strlit("promoteId");
        reveal_strlit("padding");
        reveal_strlit("projectionDefinition");
        reveal_strlit("expression");
        reveal_strlit("color");
        reveal_strlit("array");
        reveal_strlit("sky");
        reveal_strlit("property-type");
        reveal_strlit("boolean");
        reveal_strlit("resolvedImage");
        assert("sky"@.len() != "promoteId"@.len());
        assert("sky"@.len() != "enum"@.len());
        assert("sky"@.len() != "boolean"@.len());
        assert("sky"@.len() != "padding"@.len());
        assert("sky"@.len() != "property-type"@.len());
        assert("sky"@.len() != "transition"@.len());
        assert("sky"@.len() != "colorArray"@.len());
        assert("sky"@.len() != "layout"@.len());
        assert("sky"@.len() != "*"@.len());
        assert("sky"@.len() != "number"@.len());
        assert("sky"@.len() != "projection"@.len());
        assert("sky"@.len() != "source"@.len());
        assert("sky"@.len() != "paint"@.len());
        assert("sky"@.len() != "resolvedImage"@.len());
        assert("sky"@.len() != "array"@.len());
        assert("sky"@.len() != "sources"@.len());
        assert("sky"@.len() != "sprite"@.len());
        assert("sky"@.len() != "variableAnchorOffsetCollection"@.len());
        assert("sky"@.len() != "filter"@.len());
        assert("sky"@.len() != "color"@.len());
        assert("sky"@.len() != "light"@.len());
        assert("sky"@.len() != "terrain"@.len());
        assert("sky"@.len() != "string"@.len());
        assert("sky"@.len() != "expression"@.len());
        assert("sky"@.len() != "projectionDefinition"@.len());
        assert("sky"@.len() != "formatted"@.len());
        assert("sky"@.len() != "numberArray"@.len());
        assert("sky"@.len() != "state"@.len());
    }

    proof fn lemma_tag_of_projection_definition_is_its_own()
        ensures
            forall|x: ParsedItem| x.tag() == "projectionDefinition"@ ==> x is ProjectionDefinition,
    {
        reveal_strlit("source");
        reveal_strlit("layout");
        reveal_strlit("numberArray");
        reveal_strlit("sprite");
        reveal_strlit("formatted");
        reveal_strlit("state");
        reveal_strlit("transition");
        reveal_strlit("string");
        reveal_strlit("number");
        reveal_strlit("terrain");
        reveal_strlit("variableAnchorOffsetCollection");
        reveal_strlit("sources");
        reveal_strlit("*");
        reveal_strlit("paint");
        reveal_strlit("enum");
        reveal_strlit("filter");
        reveal_strlit("colorArray");
        reveal_strlit("projection");
        reveal_strlit("light");
        reveal_strlit("promoteId");
        reveal_strlit("padding");
        reveal_strlit("projectionDefinition");
        reveal_strlit("expression");
        reveal_strlit("color");
        reveal_strlit("array");
        reveal_strlit("sky");
        reveal_strlit("property-type");
        reveal_strlit("boolean");
        reveal_strlit("resolvedImage");
        assert("projectionDefinition"@.len() != "property-type"@.len());
        assert("projectionDefinition"@.len() != "boolean"@.len());
        assert("projectionDefinition"@.len() != "paint"@.len());
        assert("projectionDefinition"@.len() != "layout"@.len());
        assert("projectionDefinition"@.len() != "color"@.len());
        assert("projectionDefinition"@.len() != "array"@.len());
        assert("projectionDefinition"@.len() != "transition"@.len());
        assert("projectionDefinition"@.len() != "string"@.len());
        assert("projectionDefinition"@.len() != "resolvedImage"@.len());
        assert("projectionDefinition"@.len() != "variableAnchorOffsetCollection"@.len());
        assert("projectionDefinition"@.len() != "enum"@.len());
        assert("projectionDefinition"@.len() != "terrain"@.len());
        assert("projectionDefinition"@.len() != "formatted"@.len());
        assert("projectionDefinition"@.len() != "number"@.len());
        assert("projectionDefinition"@.len() != "sources"@.len());
        assert("projectionDefinition"@.len() != "numberArray"@.len());
        assert("projectionDefinition"@.len() != "promoteId"@.len());
        assert("projectionDefinition"@.len() != "colorArray"@.len());
        assert("projectionDefinition"@.len() != "*"@.len());
        assert("projectionDefinition"@.len() != "source"@.len());
        assert("projectionDefinition"@.len() != "state"@.len());
        assert("projectionDefinition"@.len() != "expression"@.len());
        assert("projectionDefinition"@.len() != "sky"@.len());
        assert("projectionDefinition"@.len() != "projection"@.len());
        assert("projectionDefinition"@.len() != "light"@.len());
        assert("projectionDefinition"@.len() != "filter"@.len());
        assert("projectionDefinition"@.len() != "padding"@.len());
        assert("projectionDefinition"@.len() != "sprite"@.len());
    }

    proof fn lemma_tag_of_projection_is_its_own()
        ensures
            forall|x: ParsedItem| x.tag() == "projection"@ ==> x is Projection,
    {
        reveal_strlit("source");
        reveal_strlit("layout");
        reveal_strlit("numberArray");
        reveal_strlit("sprite");
        reveal_strlit("formatted");
        reveal_strlit("state");
        reveal_strlit("transition");
        reveal_strlit("string");
        reveal_strlit("number");
        reveal_strlit("terrain");
        reveal_strlit("variableAnchorOffsetCollection");
        reveal_strlit("sources");
        reveal_strlit("*");
        reveal_strlit("paint");
        reveal_strlit("enum");
        reveal_strlit("filter");
        reveal_strlit("colorArray");
        reveal_strlit("projection");
        reveal_strlit("light");
        reveal_strlit("promoteId");
        reveal_strlit("padding");
        reveal_strlit("projectionDefinition");
        reveal_strlit("expression");
        reveal_strlit("color");
        reveal_strlit("array");
        reveal_strlit("sky");
        reveal_strlit("property-type");
        reveal_strlit("boolean");
        reveal_strlit("resolvedImage");
        assert("projection"@.len() != "number"@.len());
        assert("projection"@[0] != "expression"@[0]);
        assert("projection"@.len() != "string"@.len());
        assert("projection"@.len() != "enum"@.len());
        assert("projection"@.len() != "padding"@.len());
        assert("projection"@.len() != "sky"@.len());
        assert("projection"@.len() != "filter"@.len());
        assert("projection"@.len() != "sprite"@.len());
        assert("projection"@.len() != "terrain"@.len());
        assert("projection"@.len() != "variableAnchorOffsetCollection"@.len());
        assert("projection"@.len() != "state"@.len());
        assert("projection"@.len() != "sources"@.len());
        assert("projection"@.len() != "layout"@.len());
        assert("projection"@.len() != "property-type"@.len());
        assert("projection"@[0] != "colorArray"@[0]);
        assert("projection"@.len() != "resolvedImage"@.len());
        assert("projection"@.len() != "promoteId"@.len());
        assert("projection"@.len() != "paint"@.len());
        assert("projection"@.len() != "color"@.len());
        assert("projection"@.len() != "projectionDefinition"@.len());
        assert("projection"@.len() != "light"@.len());
        assert("projection"@.len() != "numberArray"@.len());
        assert("projection"@.len() != "source"@.len());
        assert("projection"@.len() != "boolean"@.len());
        assert("projection"@.len() != "*"@.len());
        assert("projection"@.len() != "array"@.len());
        assert("projection"@[0] != "transition"@[0]);
        assert("projection"@.len() != "formatted"@.len());
    }

    proof fn lemma_tag_of_paint_is_its_own()
        ensures
            forall|x: ParsedItem| x.tag() == "paint"@ ==> x is Paint,
    {
        reveal_strlit("source");
        reveal_strlit("layout");
        reveal_strlit("numberArray");
        reveal_strlit("sprite");
        reveal_strlit("formatted");
        reveal_strlit("state");
        reveal_strlit("transition");
        reveal_strlit("string");
        reveal_strlit("number");
        reveal_strlit("terrain");
        reveal_strlit("variableAnchorOffsetCollection");
        reveal_strlit("sources");
        reveal_strlit("*");
        reveal_strlit("paint");
        reveal_strlit("enum");
        reveal_strlit("filter");
        reveal_strlit("colorArray");
        reveal_strlit("projection");
        reveal_strlit("light");
        reveal_strlit("promoteId");
        reveal_strlit("padding");
        reveal_strlit("projectionDefinition");
        reveal_strlit("expression");
        reveal_strlit("color");
        reveal_strlit("array");
        reveal_strlit("sky");
        reveal_strlit("property-type");
        reveal_strlit("boolean");
        reveal_strlit("resolvedImage");
        assert("paint"@[0] != "color"@[0]);
        assert("paint"@.len() != "padding"@.len());
        assert("paint"@.len() != "layout"@.len());
        assert("paint"@.len() != "sources"@.len());
        assert("paint"@[0] != "state"@[0]);
        assert("paint"@[0] != "light"@[0]);
        assert("paint"@.len() != "number"@.len());
        assert("paint"@.len() != "resolvedImage"@.len());
        assert("paint"@.len() != "projection"@.len());
        assert("paint"@.len() != "property-type"@.len());
        assert("paint"@.len() != "projectionDefinition"@.len());
        assert("paint"@.len() != "formatted"@.len());
        assert("paint"@.len() != "*"@.len());
        assert("paint"@.len() != "colorArray"@.len());
        assert("paint"@.len() != "filter"@.len());
        assert("paint"@.len() != "transition"@.len());
        assert("paint"@[0] != "array"@[0]);
        assert("paint"@.len() != "expression"@.len());
        assert("paint"@.len() != "enum"@.len());
        assert("paint"@.len() != "promoteId"@.len());
        assert("paint"@.len() != "string"@.len());
        assert("paint"@.len() != "terrain"@.len());
        assert("paint"@.len() != "variableAnchorOffsetCollection"@.len());
        assert("paint"@.len() != "numberArray"@.len());
        assert("paint"@.len() != "boolean"@.len());
        assert("paint"@.len() != "sprite"@.len());
        assert("paint"@.len() != "sky"@.len());
        assert("paint"@.len() != "source"@.len());
    }

    proof fn lemma_tag_of_padding_is_its_own()
        ensures
            forall|x: ParsedItem| x.tag() == "padding"@ ==> x is Padding,
    {
        reveal_strlit("source");
        reveal_strlit("layout");
        reveal_strlit("numberArray");
        reveal_strlit("sprite");
        reveal_strlit("formatted");
        reveal_strlit("state");
        reveal_strlit("transition");
        reveal_strlit("string");
        reveal_strlit("number");
        reveal_strlit("terrain");
        reveal_strlit("variableAnchorOffsetCollection");
        reveal_strlit("sources");
        reveal_strlit("*");
        reveal_strlit("paint");
        reveal_strlit("enum");
        reveal_strlit("filter");
        reveal_strlit("colorArray");
        reveal_strlit("projection");
        reveal_strlit("light");
        reveal_strlit("promoteId");
        reveal_strlit("padding");
        reveal_strlit("projectionDefinition");
        reveal_strlit("expression");
        reveal_strlit("color");
        reveal_strlit("array");
        reveal_strlit("sky");
        reveal_strlit("property-type");
        reveal_strlit("boolean");
        reveal_strlit("resolvedImage");
        assert("padding"@[0] != "boolean"@[0]);
        assert("padding"@.len() != "projectionDefinition"@.len());
        assert("padding"@.len() != "paint"@.len());
        assert("padding"@.len() != "source"@.len());
        assert("padding"@.len() != "state"@.len());
        assert("padding"@.len() != "color"@.len());
        assert("padding"@.len() != "filter"@.len());
        assert("padding"@[0] != "terrain"@[0]);
        assert("padding"@.len() != "string"@.len());
        assert("padding"@.len() != "*"@.len());
        assert("padding"@.len() != "numberArray"@.len());
        assert("padding"@.len() != "expression"@.len());
        assert("padding"@.len() != "enum"@.len());
        assert("padding"@.len() != "variableAnchorOffsetCollection"@.len());
        assert("padding"@.len() != "light"@.len());
        assert("padding"@.len() != "colorArray"@.len());
        assert("padding"@.len() != "projection"@.len());
        assert("padding"@.len() != "number"@.len());
        assert("padding"@.len() != "resolvedImage"@.len());
        assert("padding"@.len() != "property-type"@.len());
        assert("padding"@.len() != "sky"@.len());
        assert("padding"@.len() != "promoteId"@.len());
        assert("padding"@.len() != "sprite"@.len());
        assert("padding"@.len() != "transition"@.len());
        assert("padding"@.len() != "layout"@.len());
        assert("padding"@.len() != "formatted"@.len());
        assert("padding"@.len() != "array"@.len());
        assert("padding"@[0] != "sources"@[0]);
    }

    proof fn lemma_tag_of_light_is_its_own()
        ensures
            forall|x: ParsedItem| x.tag() == "light"@ ==> x is Light,
    {
        reveal_strlit("source");
        reveal_strlit("layout");
        reveal_strlit("numberArray");
        reveal_strlit("sprite");
        reveal_strlit("formatted");
        reveal_strlit("state");
        reveal_strlit("transition");
        reveal_strlit("string");
        reveal_strlit("number");
        reveal_strlit("terrain");
        reveal_strlit("variableAnchorOffsetCollection");
        reveal_strlit("sources");
        reveal_strlit("*");
        reveal_strlit("paint");
        reveal_strlit("enum");
        reveal_strlit("filter");
        reveal_strlit("colorArray");
        reveal_strlit("projection");
        reveal_strlit("light");
        reveal_strlit("promoteId");
        reveal_strlit("padding");
        reveal_strlit("projectionDefinition");
        reveal_strlit("expression");
        reveal_strlit("color");
        reveal_strlit("array");
        reveal_strlit("sky");
        reveal_strlit("property-type");
        reveal_strlit("boolean");
        reveal_strlit("resolvedImage");
        assert("light"@.len() != "property-type"@.len());
        assert("light"@[0] != "array"@[0]);
        assert("light"@.len() != "terrain"@.len());
        assert("light"@.len() != "filter"@.len());
        assert("light"@.len() != "numberArray"@.len());
        assert("light"@.len() != "projection"@.len());
        assert("light"@.len() != "colorArray"@.len());
        assert("light"@.len() != "expression"@.len());
        assert("light"@.len() != "string"@.len());
        assert("light"@.len() != "sky"@.len());
        assert("light"@.len() != "sprite"@.len());
        assert("light"@.len() != "enum"@.len());
        assert("light"@[0] != "paint"@[0]);
        assert("light"@.len() != "sources"@.len());
        assert("light"@.len() != "resolvedImage"@.len());
        assert("light"@.len() != "promoteId"@.len());
        assert("light"@.len() != "*"@.len());
        assert("light"@.len() != "source"@.len());
        assert("light"@.len() != "variableAnchorOffsetCollection"@.len());
        assert("light"@.len() != "padding"@.len());
        assert("light"@.len() != "boolean"@.len());
        assert("light"@.len() != "formatted"@.len());
        assert("light"@.len() != "transition"@.len());
        assert("light"@.len() != "layout"@.len());
        assert("light"@.len() != "projectionDefinition"@.len());
        assert("light"@[0] != "state"@[0]);
        assert("light"@[0] != "color"@[0]);
        assert("light"@.len() != "number"@.len());
    }

    proof fn lemma_tag_of_layout_is_its_own()
        ensures
            forall|x: ParsedItem| x.tag() == "layout"@ ==> x is Layout,
    {
        reveal_strlit("source");
        reveal_strlit("layout");
        reveal_strlit("numberArray");
        reveal_strlit("sprite");
        reveal_strlit("formatted");
        reveal_strlit("state");
        reveal_strlit("transition");
        reveal_strlit("string");
        reveal_strlit("number");
        reveal_strlit("terrain");
        reveal_strlit("variableAnchorOffsetCollection");
        reveal_strlit("sources");
        reveal_strlit("*");
        reveal_strlit("paint");
        reveal_strlit("enum");
        reveal_strlit("filter");
        reveal_strlit("colorArray");
        reveal_strlit("projection");
        reveal_strlit("light");
        reveal_strlit("promoteId");
        reveal_strlit("padding");
        reveal_strlit("projectionDefinition");
        reveal_strlit("expression");
        reveal_strlit("color");
        reveal_strlit("array");
        reveal_strlit("sky");
        reveal_strlit("property-type");
        reveal_strlit("boolean");
        reveal_strlit("resolvedImage");
        assert("layout"@.len() != "variableAnchorOffsetCollection"@.len());
        assert("layout"@.len() != "boolean"@.len());
        assert("layout"@.len() != "transition"@.len());
        assert("layout"@.len() != "color"@.len());
        assert("layout"@.len() != "terrain"@.len());
        assert("layout"@.len() != "projectionDefinition"@.len());
        assert("layout"@.len() != "projection"@.len());
        assert("layout"@.len() != "padding"@.len());
        assert("layout"@.len() != "light"@.len());
        assert("layout"@[0] != "filter"@[0]);
        assert("layout"@.len() != "sky"@.len());
        assert("layout"@.len() != "array"@.len());
        assert("layout"@[0] != "number"@[0]);
        assert("layout"@.len() != "state"@.len());
        assert("layout"@.len() != "property-type"@.len());
        assert("layout"@[0] != "string"@[0]);
        assert("layout"@.len() != "numberArray"@.len());
        assert("layout"@[0] != "source"@[0]);
        assert("layout"@.len() != "*"@.len());
        assert("layout"@.len() != "expression"@.len());
        assert("layout"@.len() != "colorArray"@.len());
        assert("layout"@.len() != "enum"@.len());
        assert("layout"@.len() != "promoteId"@.len());
        assert("layout"@.len() != "sources"@.len());
        assert("layout"@.len() != "paint"@.len());
        assert("layout"@.len() != "resolvedImage"@.len());
        assert("layout"@.len() != "formatted"@.len());
        assert("layout"@[0] != "sprite"@[0]);
    }

    proof fn lemma_tag_of_formatted_is_its_own()
        ensures
            forall|x: ParsedItem| x.tag() == "formatted"@ ==> x is Formatted,
    {
        reveal_strlit("source");
        reveal_strlit("layout");
        reveal_strlit("numberArray");
        reveal_strlit("sprite");
        reveal_strlit("formatted");
        reveal_strlit("state");
        reveal_strlit("transition");
        reveal_strlit("string");
        reveal_strlit("number");
        reveal_strlit("terrain");
        reveal_strlit("variableAnchorOffsetCollection");
        reveal_strlit("sources");
        reveal_strlit("*");
        reveal_strlit("paint");
        reveal_strlit("enum");
        reveal_strlit("filter");
        reveal_strlit("colorArray");
        reveal_strlit("projection");
        reveal_strlit("light");
        reveal_strlit("promoteId");
        reveal_strlit("padding");
        reveal_strlit("projectionDefinition");
        reveal_strlit("expression");
        reveal_strlit("color");
        reveal_strlit("array");
        reveal_strlit("sky");
        reveal_strlit("property-type");
        reveal_strlit("boolean");
        reveal_strlit("resolvedImage");
        assert("formatted"@.len() != "enum"@.len());
        assert("formatted"@.len() != "sprite"@.len());
        assert("formatted"@.len() != "boolean"@.len());
        assert("formatted"@.len() != "paint"@.len());
        assert("formatted"@.len() != "light"@.len());
        assert("formatted"@.len() != "array"@.len());
        assert("formatted"@.len() != "layout"@.len());
        assert("formatted"@.len() != "padding"@.len());
        assert("formatted"@.len() != "sky"@.len());
        assert("formatted"@.len() != "color"@.len());
        assert("formatted"@.len() != "colorArray"@.len());
        assert("formatted"@.len() != "expression"@.len());
        assert("formatted"@.len() != "property-type"@.len());
        assert("formatted"@.len() != "sources"@.len());
        assert("formatted"@.len() != "source"@.len());
        assert("formatted"@.len() != "terrain"@.len());
        assert("formatted"@.len() != "string"@.len());
        assert("formatted"@.len() != "number"@.len());
        assert("formatted"@.len() != "projection"@.len());
        assert("formatted"@.len() != "transition"@.len());
        assert("formatted"@.len() != "filter"@.len());
        assert("formatted"@.len() != "numberArray"@.len());
        assert("formatted"@.len() != "state"@.len());
        assert("formatted"@[0] != "promoteId"@[0]);
        assert("formatted"@.len() != "variableAnchorOffsetCollection"@.len());
        assert("formatted"@.len() != "resolvedImage"@.len());
        assert("formatted"@.len() != "*"@.len());
        assert("formatted"@.len() != "projectionDefinition"@.len());
    }

    proof fn lemma_tag_of_filter_is_its_own()
        ensures
            forall|x: ParsedItem| x.tag() == "filter"@ ==> x is Filter,
    {
        reveal_strlit("source");
        reveal_strlit("layout");
        reveal_strlit("numberArray");
        reveal_strlit("sprite");
        reveal_strlit("formatted");
        reveal_strlit("state");
        reveal_strlit("transition");
        reveal_strlit("string");
        reveal_strlit("number");
        reveal_strlit("terrain");
        reveal_strlit("variableAnchorOffsetCollection");
        reveal_strlit("sources");
        reveal_strlit("*");
        reveal_strlit("paint");
        reveal_strlit("enum");
        reveal_strlit("filter");
        reveal_strlit("colorArray");
        reveal_strlit("projection");
        reveal_strlit("light");
        reveal_strlit("promoteId");
        reveal_strlit("padding");
        reveal_strlit("projectionDefinition");
        reveal_strlit("expression");
        reveal_strlit("color");
        reveal_strlit("array");
        reveal_strlit("sky");
        reveal_strlit("property-type");
        reveal_strlit("boolean");
        reveal_strlit("resolvedImage");
        assert("filter"@[0] != "layout"@[0]);
        assert("filter"@.len() != "transition"@.len());
        assert("filter"@.len() != "numberArray"@.len());
        assert("filter"@.len() != "variableAnchorOffsetCollection"@.len());
        assert("filter"@.len() != "formatted"@.len());
        assert("filter"@[0] != "sprite"@[0]);
        assert("filter"@.len() != "light"@.len());
        assert("filter"@.len() != "padding"@.len());
        assert("filter"@.len() != "projectionDefinition"@.len());
        assert("filter"@.len() != "sources"@.len());
        assert("filter"@[0] != "source"@[0]);
        assert("filter"@.len() != "sky"@.len());
        assert("filter"@[0] != "number"@[0]);
        assert("filter"@.len() != "projection"@.len());
        assert("filter"@.len() != "color"@.len());
        assert("filter"@.len() != "boolean"@.len());
        assert("filter"@.len() != "paint"@.len());
        assert("filter"@.len() != "array"@.len());
        assert("filter"@.len() != "*"@.len());
        assert("filter"@.len() != "expression"@.len());
        assert("filter"@.len() != "property-type"@.len());
        assert("filter"@.len() != "promoteId"@.len());
        assert("filter"@.len() != "state"@.len());
        assert("filter"@.len() != "colorArray"@.len());
        assert("filter"@[0] != "string"@[0]);
        assert("filter"@.len() != "resolvedImage"@.len());
        assert("filter"@.len() != "terrain"@.len());
        assert("filter"@.len() != "enum"@.len());
    }

    proof fn lemma_tag_of_expression_is_its_own()
        ensures
            forall|x: ParsedItem| x.tag() == "expression"@ ==> x is Expression,
    {
        reveal_strlit("source");
        reveal_strlit("layout");
        reveal_strlit("numberArray");
        reveal_strlit("sprite");
        reveal_strlit("formatted");
        reveal_strlit("state");
        reveal_strlit("transition");
        reveal_strlit("string");
        reveal_strlit("number");
        reveal_strlit("terrain");
        reveal_strlit("variableAnchorOffsetCollection");
        reveal_strlit("sources");
        reveal_strlit("*");
        reveal_strlit("paint");
        reveal_strlit("enum");
        reveal_strlit("filter");
        reveal_strlit("colorArray");
        reveal_strlit("projection");
        reveal_strlit("light");
        reveal_strlit("promoteId");
        reveal_strlit("padding");
        reveal_strlit("projectionDefinition");
        reveal_strlit("expression");
        reveal_strlit("color");
        reveal_strlit("array");
        reveal_strlit("sky");
        reveal_strlit("property-type");
        reveal_strlit("boolean");
        reveal_strlit("resolvedImage");
        assert("expression"@.len() != "state"@.len());
        assert("expression"@.len() != "string"@.len());
        assert("expression"@.len() != "projectionDefinition"@.len());
        assert("expression"@.len() != "formatted"@.len());
        assert("expression"@.len() != "light"@.len());
        assert("expression"@.len() != "sources"@.len());
        assert("expression"@.len() != "filter"@.len());
        assert("expression"@.len() != "source"@.len());
        assert("expression"@.len() != "array"@.len());
        assert("expression"@.len() != "variableAnchorOffsetCollection"@.len());
        assert("expression"@[0] != "projection"@[0]);
        assert("expression"@.len() != "property-type"@.len());
        assert("expression"@.len() != "*"@.len());
        assert("expression"@.len() != "numberArray"@.len());
        assert("expression"@.len() != "sky"@.len());
        assert("expression"@.len() != "enum"@.len());
        assert("expression"@.len() != "color"@.len());
        assert("expression"@.len() != "promoteId"@.len());
        assert("expression"@.len() != "terrain"@.len());
        assert("expression"@.len() != "padding"@.len());
        assert("expression"@.len() != "layout"@.len());
        assert("expression"@.len() != "number"@.len());
        assert("expression"@.len() != "resolvedImage"@.len());
        assert("expression"@[0] != "transition"@[0]);
        assert("expression"@.len() != "sprite"@.len());
        assert("expression"@.len() != "paint"@.len());
        assert("expression"@.len() != "boolean"@.len());
        assert("expression"@[0] != "colorArray"@[0]);
    }

    /// An item is read as the variant that its `type` names, and no other: `number` is `Number`, `enum` is `Enum`, `array` is `Array`, `color` is `Color`, `string` is `String`, `boolean` is `Boolean`, `*` is `Star`, `property-type` is `PropertyType`, `resolvedImage` is `ResolvedImage`, `promoteId` is `PromoteId`, `numberArray` is `NumberArray`, `colorArray` is `ColorArray`, `variableAnchorOffsetCollection` is `VariableAnchorOffsetCollection`, `transition` is `Transition`, `terrain` is `Terrain`, `state` is `State`, `sprite` is `Sprite`, `sources` is `Sources`, `source` is `Source`, `sky` is `Sky`, `projectionDefinition` is `ProjectionDefinition`, `projection` is `Projection`, `paint` is `Paint`, `padding` is `Padding`, `light` is `Light`, `layout` is `Layout`, `formatted` is `Formatted`, `filter` is `Filter`, `expression` is `Expression`.
    pub proof fn lemma_read_by_type()
        ensures
            forall|v: Json, x: ParsedItem| #[trigger] ParsedItem::decodes(v, x) ==> (lookup(v->Object_0, "type"@) == Some(Json::Str("filter"@)) <==> x is Filter),
            forall|v: Json, x: ParsedItem| #[trigger] ParsedItem::decodes(v, x) ==> (lookup(v->Object_0, "type"@) == Some(Json::Str("padding"@)) <==> x is Padding),
            forall|v: Json, x: ParsedItem| #[trigger] ParsedItem::decodes(v, x) ==> (lookup(v->Object_0, "type"@) == Some(Json::Str("numberArray"@)) <==> x is NumberArray),
            forall|v: Json, x: ParsedItem| #[trigger] ParsedItem::decodes(v, x) ==> (lookup(v->Object_0, "type"@) == Some(Json::Str("sky"@)) <==> x is Sky),
            forall|v: Json, x: ParsedItem| #[trigger] ParsedItem::decodes(v, x) ==> (lookup(v->Object_0, "type"@) == Some(Json::Str("property-type"@)) <==> x is PropertyType),
            forall|v: Json, x: ParsedItem| #[trigger] ParsedItem::decodes(v, x) ==> (lookup(v->Object_0, "type"@) == Some(Json::Str("resolvedImage"@)) <==> x is ResolvedImage),
            forall|v: Json, x: ParsedItem| #[trigger] ParsedItem::decodes(v, x) ==> (lookup(v->Object_0, "type"@) == Some(Json::Str("paint"@)) <==> x is Paint),
            forall|v: Json, x: ParsedItem| #[trigger] ParsedItem::decodes(v, x) ==> (lookup(v->Object_0, "type"@) == Some(Json::Str("number"@)) <==> x is Number),
            forall|v: Json, x: ParsedItem| #[trigger] ParsedItem::decodes(v, x) ==> (lookup(v->Object_0, "type"@) == Some(Json::Str("enum"@)) <==> x is Enum),
            forall|v: Json, x: ParsedItem| #[trigger] ParsedItem::decodes(v, x) ==> (lookup(v->Object_0, "type"@) == Some(Json::Str("sprite"@)) <==> x is Sprite),
            forall|v: Json, x: ParsedItem| #[trigger] ParsedItem::decodes(v, x) ==> (lookup(v->Object_0, "type"@) == Some(Json::Str("expression"@)) <==> x is Expression),
            forall|v: Json, x: ParsedItem| #[trigger] ParsedItem::decodes(v, x) ==> (lookup(v->Object_0, "type"@) == Some(Json::Str("boolean"@)) <==> x is Boolean),
            forall|v: Json, x: ParsedItem| #[trigger] ParsedItem::decodes(v, x) ==> (lookup(v->Object_0, "type"@) == Some(Json::Str("*"@)) <==> x is Star),
            forall|v: Json, x: ParsedItem| #[trigger] ParsedItem::decodes(v, x) ==> (lookup(v->Object_0, "type"@) == Some(Json::Str("transition"@)) <==> x is Transition),
            forall|v: Json, x: ParsedItem| #[trigger] ParsedItem::decodes(v, x) ==> (lookup(v->Object_0, "type"@) == Some(Json::Str("variableAnchorOffsetCollection"@)) <==> x is VariableAnchorOffsetCollection),
            forall|v: Json, x: ParsedItem| #[trigger] ParsedItem::decodes(v, x) ==> (lookup(v->Object_0, "type"@) == Some(Json::Str("colorArray"@)) <==> x is ColorArray),
            forall|v: Json, x: ParsedItem| #[trigger] ParsedItem::decodes(v, x) ==> (lookup(v->Object_0, "type"@) == Some(Json::Str("projectionDefinition"@)) <==> x is ProjectionDefinition),
            forall|v: Json, x: ParsedItem| #[trigger] ParsedItem::decodes(v, x) ==> (lookup(v->Object_0, "type"@) == Some(Json::Str("formatted"@)) <==> x is Formatted),
            forall|v: Json, x: ParsedItem| #[trigger] ParsedItem::decodes(v, x) ==> (lookup(v->Object_0, "type"@) == Some(Json::Str("light"@)) <==> x is Light),
            forall|v: Json, x: ParsedItem| #[trigger] ParsedItem::decodes(v, x) ==> (lookup(v->Object_0, "type"@) == Some(Json::Str("state"@)) <==> x is State),
            forall|v: Json, x: ParsedItem| #[trigger] ParsedItem::decodes(v, x) ==> (lookup(v->Object_0, "type"@) == Some(Json::Str("projection"@)) <==> x is Projection),
            forall|v: Json, x: ParsedItem| #[trigger] ParsedItem::decodes(v, x) ==> (lookup(v->Object_0, "type"@) == Some(Json::Str("array"@)) <==> x is Array),
            forall|v: Json, x: ParsedItem| #[trigger] ParsedItem::decodes(v, x) ==> (lookup(v->Object_0, "type"@) == Some(Json::Str("terrain"@)) <==> x is Terrain),
            forall|v: Json, x: ParsedItem| #[trigger] ParsedItem::decodes(v, x) ==> (lookup(v->Object_0, "type"@) == Some(Json::Str("string"@)) <==> x is String),
            forall|v: Json, x: ParsedItem| #[trigger] ParsedItem::decodes(v, x) ==> (lookup(v->Object_0, "type"@) == Some(Json::Str("color"@)) <==> x is Color),
            forall|v: Json, x: ParsedItem| #[trigger] ParsedItem::decodes(v, x) ==> (lookup(v->Object_0, "type"@) == Some(Json::Str("source"@)) <==> x is Source),
            forall|v: Json, x: ParsedItem| #[trigger] ParsedItem::decodes(v, x) ==> (lookup(v->Object_0, "type"@) == Some(Json::Str("sources"@)) <==> x is Sources),
            forall|v: Json, x: ParsedItem| #[trigger] ParsedItem::decodes(v, x) ==> (lookup(v->Object_0, "type"@) == Some(Json::Str("promoteId"@)) <==> x is PromoteId),
            forall|v: Json, x: ParsedItem| #[trigger] ParsedItem::decodes(v, x) ==> (lookup(v->Object_0, "type"@) == Some(Json::Str("layout"@)) <==> x is Layout),
    {
        Self::lemma_tag_of_string_is_its_own();
        Self::lemma_tag_of_projection_definition_is_its_own();
        Self::lemma_tag_of_filter_is_its_own();
        Self::lemma_tag_of_number_is_its_own();
        Self::lemma_tag_of_boolean_is_its_own();
        Self::lemma_tag_of_resolved_image_is_its_own();
        Self::lemma_tag_of_terrain_is_its_own();
        Self::lemma_tag_of_color_array_is_its_own();
        Self::lemma_tag_of_padding_is_its_own();
        Self::lemma_tag_of_projection_is_its_own();
        Self::lemma_tag_of_color_is_its_own();
        Self::lemma_tag_of_state_is_its_own();
        Self::lemma_tag_of_array_is_its_own();
        Self::lemma_tag_of_enum_is_its_own();
        Self::lemma_tag_of_sky_is_its_own();
        Self::lemma_tag_of_variable_anchor_offset_collection_is_its_own();
        Self::lemma_tag_of_layout_is_its_own();
        Self::lemma_tag_of_promote_id_is_its_own();
        Self::lemma_tag_of_light_is_its_own();
        Self::lemma_tag_of_star_is_its_own();
        Self::lemma_tag_of_expression_is_its_own();
        Self::lemma_tag_of_transition_is_its_own();
        Self::lemma_tag_of_sprite_is_its_own();
        Self::lemma_tag_of_property_type_is_its_own();
        Self::lemma_tag_of_paint_is_its_own();
        Self::lemma_tag_of_sources_is_its_own();
        Self::lemma_tag_of_formatted_is_its_own();
        Self::lemma_tag_of_source_is_its_own();
        Self::lemma_tag_of_number_array_is_its_own();
    }
}

impl JsonDecode for ParsedItem {
    open spec fn accepts(v: Json) -> bool {
        v is Object && match lookup(v->Object_0, "type"@) {
            Some(t) => t is Str && item_accepts(t->Str_0, v->Object_0),
            None => false,
        }
    }

    open spec fn decodes(v: Json, x: Self) -> bool {
        &&& v is Object
        &&& lookup(v->Object_0, "type"@) == Some(Json::Str(x.tag()))
        &&& match x {
            ParsedItem::Number { doc, default, expression, property_type, sdk_support, maximum, minimum, transition, units, example, period, requirements } => {
                &&& req_field_decodes::<String>(v->Object_0, "doc"@, doc)
                &&& opt_field_decodes::<JsonNumber>(v->Object_0, "default"@, default)
                &&& opt_field_decodes::<Expression>(v->Object_0, "expression"@, expression)
                &&& opt_field_decodes::<String>(v->Object_0, "property-type"@, property_type)
                &&& opt_field_decodes::<JsonValue>(v->Object_0, "sdk-support"@, sdk_support)
                &&& opt_field_decodes::<JsonNumber>(v->Object_0, "maximum"@, maximum)
                &&& opt_field_decodes::<JsonNumber>(v->Object_0, "minimum"@, minimum)
                &&& opt_field_decodes::<bool>(v->Object_0, "transition"@, transition)
                &&& opt_field_decodes::<String>(v->Object_0, "units"@, units)
                &&& opt_field_decodes::<JsonNumber>(v->Object_0, "example"@, example)
                &&& opt_field_decodes::<JsonNumber>(v->Object_0, "period"@, period)
                &&& opt_field_decodes::<Vec<Requirement>>(v->Object_0, "requires"@, requirements)
            },
            ParsedItem::Enum { doc, default, expression, property_type, sdk_support, values, transition, example, required, requirements } => {
                &&& req_field_decodes::<String>(v->Object_0, "doc"@, doc)
                &&& opt_field_decodes::<JsonValue>(v->Object_0, "default"@, default)
                &&& opt_field_decodes::<Expression>(v->Object_0, "expression"@, expression)
                &&& opt_field_decodes::<String>(v->Object_0, "property-type"@, property_type)
                &&& opt_field_decodes::<JsonValue>(v->Object_0, "sdk-support"@, sdk_support)
                &&& req_field_decodes::<EnumValues>(v->Object_0, "values"@, values)
                &&& opt_field_decodes::<bool>(v->Object_0, "transition"@, transition)
                &&& opt_field_decodes::<JsonValue>(v->Object_0, "example"@, example)
                &&& opt_field_decodes::<bool>(v->Object_0, "required"@, required)
                &&& opt_field_decodes::<Vec<Requirement>>(v->Object_0, "requires"@, requirements)
            },
            ParsedItem::Array(c) => c.model() == Json::Object(without_key(v->Object_0, "type"@)),
            ParsedItem::Color(c) => c.model() == Json::Object(without_key(v->Object_0, "type"@)),
            ParsedItem::String(c) => c.model() == Json::Object(without_key(v->Object_0, "type"@)),
            ParsedItem::Boolean(c) => c.model() == Json::Object(without_key(v->Object_0, "type"@)),
            ParsedItem::Star(c) => c.model() == Json::Object(without_key(v->Object_0, "type"@)),
            ParsedItem::PropertyType(c) => c.model() == Json::Object(without_key(v->Object_0, "type"@)),
            ParsedItem::ResolvedImage(c) => c.model() == Json::Object(without_key(v->Object_0, "type"@)),
            ParsedItem::PromoteId(c) => c.model() == Json::Object(without_key(v->Object_0, "type"@)),
            ParsedItem::NumberArray(c) => c.model() == Json::Object(without_key(v->Object_0, "type"@)),
            ParsedItem::ColorArray(c) => c.model() == Json::Object(without_key(v->Object_0, "type"@)),
            ParsedItem::VariableAnchorOffsetCollection(c) => c.model() == Json::Object(without_key(v->Object_0, "type"@)),
            ParsedItem::Transition(c) => c.model() == Json::Object(without_key(v->Object_0, "type"@)),
            ParsedItem::Terrain(c) => c.model() == Json::Object(without_key(v->Object_0, "type"@)),
            ParsedItem::State(c) => c.model() == Json::Object(without_key(v->Object_0, "type"@)),
            ParsedItem::Sprite(c) => c.model() == Json::Object(without_key(v->Object_0, "type"@)),
            ParsedItem::Sources(c) => c.model() == Json::Object(without_key(v->Object_0, "type"@)),
            ParsedItem::Source(c) => c.model() == Json::Object(without_key(v->Object_0, "type"@)),
            ParsedItem::Sky(c) => c.model() == Json::Object(without_key(v->Object_0, "type"@)),
            ParsedItem::ProjectionDefinition(c) => c.model() == Json::Object(without_key(v->Object_0, "type"@)),
            ParsedItem::Projection(c) => c.model() == Json::Object(without_key(v->Object_0, "type"@)),
            ParsedItem::Paint(c) => c.model() == Json::Object(without_key(v->Object_0, "type"@)),
            ParsedItem::Padding(c) => c.model() == Json::Object(without_key(v->Object_0, "type"@)),
            ParsedItem::Light(c) => c.model() == Json::Object(without_key(v->Object_0, "type"@)),
            ParsedItem::Layout(c) => c.model() == Json::Object(without_key(v->Object_0, "type"@)),
            ParsedItem::Formatted(c) => c.model() == Json::Object(without_key(v->Object_0, "type"@)),
            ParsedItem::Filter(c) => c.model() == Json::Object(without_key(v->Object_0, "type"@)),
            ParsedItem::Expression(c) => c.model() == Json::Object(without_key(v->Object_0, "type"@)),
        }
    }

    open spec fn rejection(v: Json) -> Seq<char> {
        if !(v is Object) {
            type_error(v, "internally tagged enum ParsedItem"@)
        } else {
            match lookup(v->Object_0, "type"@) {
                None => missing_field("type"@),
                Some(t) => if t is Str {
                    item_rejection(t->Str_0, v->Object_0)
                } else {
                    type_error(t, "variant identifier"@)
                },
            }
        }
    }

    fn decode(v: &JsonValue) -> (r: Result<Self, String>) {
        match v {
            JsonValue::Object(fields) => {
                let t = match get_field(fields, "type") {
                    Some(t) => t,
                    None => return Err(make_missing_field("type")),
                };
                let name = match t {
                    JsonValue::String(s) => s.as_str(),
                    _ => return Err(make_type_error(t, "variant identifier")),
                };
                if str_eq(name, "number") {
                    match find_unknown_key(&KeySet::Number, fields) {
                        Some(_) => return Err(number_rejection(fields)),
                        None => {},
                    }
                    let doc = match decode_req_field::<String>(fields, "doc") {
                        Ok(x) => x,
                        Err(_) => return Err(number_rejection(fields)),
                    };
                    let default = match decode_opt_field::<JsonNumber>(fields, "default") {
                        Ok(x) => x,
                        Err(_) => return Err(number_rejection(fields)),
                    };
                    let expression = match decode_opt_field::<Expression>(fields, "expression") {
                        Ok(x) => x,
                        Err(_) => return Err(number_rejection(fields)),
                    };
                    let property_type = match decode_opt_field::<String>(fields, "property-type") {
                        Ok(x) => x,
                        Err(_) => return Err(number_rejection(fields)),
                    };
                    let sdk_support = match decode_opt_field::<JsonValue>(fields, "sdk-support") {
                        Ok(x) => x,
                        Err(_) => return Err(number_rejection(fields)),
                    };
                    let maximum = match decode_opt_field::<JsonNumber>(fields, "maximum") {
                        Ok(x) => x,
                        Err(_) => return Err(number_rejection(fields)),
                    };
                    let minimum = match decode_opt_field::<JsonNumber>(fields, "minimum") {
                        Ok(x) => x,
                        Err(_) => return Err(number_rejection(fields)),
                    };
                    let transition = match decode_opt_field::<bool>(fields, "transition") {
                        Ok(x) => x,
                        Err(_) => return Err(number_rejection(fields)),
                    };
                    let units = match decode_opt_field::<String>(fields, "units") {
                        Ok(x) => x,
                        Err(_) => return Err(number_rejection(fields)),
                    };
                    let example = match decode_opt_field::<JsonNumber>(fields, "example") {
                        Ok(x) => x,
                        Err(_) => return Err(number_rejection(fields)),
                    };
                    let period = match decode_opt_field::<JsonNumber>(fields, "period") {
                        Ok(x) => x,
                        Err(_) => return Err(number_rejection(fields)),
                    };
                    let requirements = match decode_opt_field::<Vec<Requirement>>(fields, "requires") {
                        Ok(x) => x,
                        Err(_) => return Err(number_rejection(fields)),
                    };
                    Ok(ParsedItem::Number { doc, default, expression, property_type, sdk_support, maximum, minimum, transition, units, example, period, requirements })
                } else if str_eq(name, "enum") {
                    match find_unknown_key(&KeySet::Enum, fields) {
                        Some(_) => return Err(enum_rejection(fields)),
                        None => {},
                    }
                    let doc = match decode_req_field::<String>(fields, "doc") {
                        Ok(x) => x,
                        Err(_) => return Err(enum_rejection(fields)),
                    };
                    let default = match decode_opt_field::<JsonValue>(fields, "default") {
                        Ok(x) => x,
                        Err(_) => return Err(enum_rejection(fields)),
                    };
                    let expression = match decode_opt_field::<Expression>(fields, "expression") {
                        Ok(x) => x,
                        Err(_) => return Err(enum_rejection(fields)),
                    };
                    let property_type = match decode_opt_field::<String>(fields, "property-type") {
                        Ok(x) => x,
                        Err(_) => return Err(enum_rejection(fields)),
                    };
                    let sdk_support = match decode_opt_field::<JsonValue>(fields, "sdk-support") {
                        Ok(x) => x,
                        Err(_) => return Err(enum_rejection(fields)),
                    };
                    let values = match decode_req_field::<EnumValues>(fields, "values") {
                        Ok(x) => x,
                        Err(_) => return Err(enum_rejection(fields)),
                    };
                    let transition = match decode_opt_field::<bool>(fields, "transition") {
                        Ok(x) => x,
                        Err(_) => return Err(enum_rejection(fields)),
                    };
                    let example = match decode_opt_field::<JsonValue>(fields, "example") {
                        Ok(x) => x,
                        Err(_) => return Err(enum_rejection(fields)),
                    };
                    let required = match decode_opt_field::<bool>(fields, "required") {
                        Ok(x) => x,
                        Err(_) => return Err(enum_rejection(fields)),
                    };
                    let requirements = match decode_opt_field::<Vec<Requirement>>(fields, "requires") {
                        Ok(x) => x,
                        Err(_) => return Err(enum_rejection(fields)),
                    };
                    Ok(ParsedItem::Enum { doc, default, expression, property_type, sdk_support, values, transition, example, required, requirements })
                } else if str_eq(name, "array") {
                    Ok(ParsedItem::Array(copy_without_key(fields, "type")))
                } else if str_eq(name, "color") {
                    Ok(ParsedItem::Color(copy_without_key(fields, "type")))
                } else if str_eq(name, "string") {
                    Ok(ParsedItem::String(copy_without_key(fields, "type")))
                } else if str_eq(name, "boolean") {
                    Ok(ParsedItem::Boolean(copy_without_key(fields, "type")))
                } else if str_eq(name, "*") {
                    Ok(ParsedItem::Star(copy_without_key(fields, "type")))
                } else if str_eq(name, "property-type") {
                    Ok(ParsedItem::PropertyType(copy_without_key(fields, "type")))
                } else if str_eq(name, "resolvedImage") {
                    Ok(ParsedItem::ResolvedImage(copy_without_key(fields, "type")))
                } else if str_eq(name, "promoteId") {
                    Ok(ParsedItem::PromoteId(copy_without_key(fields, "type")))
                } else if str_eq(name, "numberArray") {
                    Ok(ParsedItem::NumberArray(copy_without_key(fields, "type")))
                } else if str_eq(name, "colorArray") {
                    Ok(ParsedItem::ColorArray(copy_without_key(fields, "type")))
                } else if str_eq(name, "variableAnchorOffsetCollection") {
                    Ok(ParsedItem::VariableAnchorOffsetCollection(copy_without_key(fields, "type")))
                } else if str_eq(name, "transition") {
                    Ok(ParsedItem::Transition(copy_without_key(fields, "type")))
                } else if str_eq(name, "terrain") {
                    Ok(ParsedItem::Terrain(copy_without_key(fields, "type")))
                } else if str_eq(name, "state") {
                    Ok(ParsedItem::State(copy_without_key(fields, "type")))
                } else if str_eq(name, "sprite") {
                    Ok(ParsedItem::Sprite(copy_without_key(fields, "type")))
                } else if str_eq(name, "sources") {
                    Ok(ParsedItem::Sources(copy_without_key(fields, "type")))
                } else if str_eq(name, "source") {
                    Ok(ParsedItem::Source(copy_without_key(fields, "type")))
                } else if str_eq(name, "sky") {
                    Ok(ParsedItem::Sky(copy_without_key(fields, "type")))
                } else if str_eq(name, "projectionDefinition") {
                    Ok(ParsedItem::ProjectionDefinition(copy_without_key(fields, "type")))
                } else if str_eq(name, "projection") {
                    Ok(ParsedItem::Projection(copy_without_key(fields, "type")))
                } else if str_eq(name, "paint") {
                    Ok(ParsedItem::Paint(copy_without_key(fields, "type")))
                } else if str_eq(name, "padding") {
                    Ok(ParsedItem::Padding(copy_without_key(fields, "type")))
                } else if str_eq(name, "light") {
                    Ok(ParsedItem::Light(copy_without_key(fields, "type")))
                } else if str_eq(name, "layout") {
                    Ok(ParsedItem::Layout(copy_without_key(fields, "type")))
                } else if str_eq(name, "formatted") {
                    Ok(ParsedItem::Formatted(copy_without_key(fields, "type")))
                } else if str_eq(name, "filter") {
                    Ok(ParsedItem::Filter(copy_without_key(fields, "type")))
                } else if str_eq(name, "expression") {
                    Ok(ParsedItem::Expression(copy_without_key(fields, "type")))
                } else {
                    let mut m = make_unknown_variant(name);
                    m.append(", expected one of `number`, `enum`, `array`, `color`, `string`, `boolean`, `*`, `property-type`, `resolvedImage`, `promoteId`, `numberArray`, `colorArray`, `variableAnchorOffsetCollection`, `transition`, `terrain`, `state`, `sprite`, `sources`, `source`, `sky`, `projectionDefinition`, `projection`, `paint`, `padding`, `light`, `layout`, `formatted`, `filter`, `expression`");
                    Err(m)
                }
            },
            _ => Err(make_type_error(v, "internally tagged enum ParsedItem")),
        }
    }
}

/// The message of a value that none of the forms of an untagged enumeration reads.
pub open spec fn no_variant(name: Seq<char>) -> Seq<char> {
    "data did not match any variant of untagged enum "@ + name
}

impl JsonDecode for Requirement {
    open spec fn accepts(v: Json) -> bool {
        v is Str || v is Object
    }

    open spec fn decodes(v: Json, x: Self) -> bool {
        x.wf() && match x {
            Requirement::Exists(s) => v == Json::Str(s@),
            Requirement::Equals(e) => v is Object && entries_decode::<JsonValue>(v->Object_0, e@),
        }
    }

    open spec fn rejection(v: Json) -> Seq<char> {
        no_variant("Requirement"@)
    }

    fn decode(v: &JsonValue) -> (r: Result<Self, String>) {
        match v {
            JsonValue::String(s) => Ok(Requirement::Exists(s.clone())),
            JsonValue::Object(fields) => {
                proof {
                    assert forall|i: int| 0 <= i < entries_model(*fields).len() implies JsonValue::accepts(
                        #[trigger] entries_model(*fields)[i].1,
                    ) by {}
                }
                match decode_entries::<JsonValue>(fields) {
                    Ok(e) => Ok(Requirement::Equals(e)),
                    Err(e) => Err(e),
                }
            },
            _ => {
                let mut m = "data did not match any variant of untagged enum ".to_string();
                m.append("Requirement");
                Err(m)
            },
        }
    }
}

impl JsonDecode for EnumValue {
    /// An object with a `doc` string, or an array with the `doc` string.
    closed spec fn accepts(v: Json) -> bool {
        ||| (v is Object && req_field_accepts::<String>(v->Object_0, "doc"@))
        ||| (v is Array && seq_req_accepts::<String>(v->Array_0, 0) && v->Array_0.len() <= 1)
    }

    closed spec fn decodes(v: Json, x: Self) -> bool {
        ||| (v is Object && req_field_decodes::<String>(v->Object_0, "doc"@, x.doc))
        ||| (v is Array && seq_req_decodes::<String>(v->Array_0, 0, x.doc))
    }

    closed spec fn rejection(v: Json) -> Seq<char> {
        if v is Object {
            req_field_rejection::<String>(v->Object_0, "doc"@)
        } else if v is Array {
            if !seq_req_accepts::<String>(v->Array_0, 0) {
                seq_req_rejection::<String>(v->Array_0, 0, "struct EnumValue with 1 element"@)
            } else {
                length_error(v->Array_0.len())
            }
        } else {
            type_error(v, "struct EnumValue"@)
        }
    }

    fn decode(v: &JsonValue) -> (r: Result<Self, String>) {
        match v {
            JsonValue::Object(fields) => match decode_req_field::<String>(fields, "doc") {
                Ok(doc) => Ok(EnumValue { doc }),
                Err(e) => Err(e),
            },
            JsonValue::Array(a) => {
                let doc = match decode_seq_req::<String>(a, 0, "struct EnumValue with 1 element") {
                    Ok(x) => x,
                    Err(e) => return Err(e),
                };
                if a.len() > 1 {
                    return Err(make_length_error(a.len()));
                }
                Ok(EnumValue { doc })
            },
            _ => Err(make_type_error(v, "struct EnumValue")),
        }
    }
}

impl EnumValue {
    /// The description of the value.
    pub closed spec fn doc_text(self) -> Seq<char> {
        self.doc@
    }

    /// The description of the value.
    pub fn doc(&self) -> (r: &str)
        ensures
            r@ == self.doc_text(),
    {
        self.doc.as_str()
    }
}

impl JsonDecode for EnumValues {
    open spec fn accepts(v: Json) -> bool {
        v is Array || (v is Object && entries_accept::<EnumValue>(v->Object_0))
    }

    open spec fn decodes(v: Json, x: Self) -> bool {
        x.wf() && match x {
            EnumValues::Simple(a) => <Vec<JsonValue> as JsonDecode>::decodes(v, a),
            EnumValues::Complex(e) => v is Object && entries_decode::<EnumValue>(v->Object_0, e@),
        }
    }

    open spec fn rejection(v: Json) -> Seq<char> {
        no_variant("EnumValues"@)
    }

    fn decode(v: &JsonValue) -> (r: Result<Self, String>) {
        match v {
            JsonValue::Array(_) => {
                proof {
                    assert forall|i: int| 0 <= i < v.model()->Array_0.len() implies JsonValue::accepts(
                        #[trigger] v.model()->Array_0[i],
                    ) by {}
                }
                match <Vec<JsonValue> as JsonDecode>::decode(v) {
                    Ok(a) => Ok(EnumValues::Simple(a)),
                    Err(e) => Err(e),
                }
            },
            JsonValue::Object(fields) => match decode_entries::<EnumValue>(fields) {
                Ok(e) => Ok(EnumValues::Complex(e)),
                Err(_) => {
                    let mut m = "data did not match any variant of untagged enum ".to_string();
                    m.append("EnumValues");
                    Err(m)
                },
            },
            _ => {
                let mut m = "data did not match any variant of untagged enum ".to_string();
                m.append("EnumValues");
                Err(m)
            },
        }
    }
}

impl JsonDecode for TopLevelItem {
    open spec fn accepts(v: Json) -> bool {
        ||| ParsedItem::accepts(v)
        ||| (v is Object && entries_accept::<ParsedItem>(v->Object_0))
        ||| <Vec<String> as JsonDecode>::accepts(v)
    }

    open spec fn decodes(v: Json, x: Self) -> bool {
        x.wf() && match x {
            TopLevelItem::Item(i) => ParsedItem::accepts(v) && ParsedItem::decodes(v, i),
            TopLevelItem::Group(g) => {
                &&& !ParsedItem::accepts(v)
                &&& v is Object
                &&& entries_decode::<ParsedItem>(v->Object_0, g@)
            },
            TopLevelItem::OneOf(l) => {
                &&& !ParsedItem::accepts(v)
                &&& !(v is Object && entries_accept::<ParsedItem>(v->Object_0))
                &&& <Vec<String> as JsonDecode>::decodes(v, l)
            },
        }
    }

    open spec fn rejection(v: Json) -> Seq<char> {
        no_variant("TopLevelItem"@)
    }

    fn decode(v: &JsonValue) -> (r: Result<Self, String>) {
        match ParsedItem::decode(v) {
            Ok(i) => {
                return Ok(TopLevelItem::Item(i));
            },
            Err(_) => {},
        }
        match v {
            JsonValue::Object(fields) => match decode_entries::<ParsedItem>(fields) {
                Ok(g) => {
                    return Ok(TopLevelItem::Group(g));
                },
                Err(_) => {},
            },
            _ => {},
        }
        match <Vec<String> as JsonDecode>::decode(v) {
            Ok(l) => Ok(TopLevelItem::OneOf(l)),
            Err(_) => {
                let mut m = "data did not match any variant of untagged enum ".to_string();
                m.append("TopLevelItem");
                Err(m)
            },
        }
    }
}

/// The version that the number text `t` stands for, where it is a whole number up to 255.
pub open spec fn version_number(t: Seq<char>) -> Option<u8> {
    if t.len() > 0 && all_digits(t) && digits_value(t) <= 255 {
        Some(digits_value(t) as u8)
    } else {
        None
    }
}

/// The message of a version that is no whole number up to 255.
pub open spec fn version_rejection(v: Json) -> Seq<char> {
    match v {
        Json::Number(t) => if is_integer_text(t) {
            "invalid value: integer `"@ + t + "`, expected u8"@
        } else {
            "invalid type: floating point `"@ + t + "`, expected u8"@
        },
        _ => type_error(v, "u8"@),
    }
}

/// The version that the number text `t` stands for, if it is a whole number up to 255.
pub(crate) fn parse_version(t: &str) -> (r: Option<u8>)
    ensures
        r == version_number(t@),
{
    let n = t.unicode_len();
    if n == 0 {
        return None;
    }
    if !digits_from(t, 0) {
        proof {
            assert(t@.skip(0) =~= t@);
        }
        return None;
    }
    proof {
        assert(t@.skip(0) =~= t@);
    }
    let mut value: u32 = 0;
    let mut i: usize = 0;
    proof {
        assert(t@.take(0) =~= Seq::<char>::empty());
    }
    while i < n
        invariant
            n == t@.len(),
            i <= n,
            all_digits(t@),
            value <= 256,
            value == (if digits_value(t@.take(i as int)) > 256 {
                256
            } else {
                digits_value(t@.take(i as int))
            }),
        decreases n - i,
    {
        let c = t.get_char(i);
        let d = (c as u32) - ('0' as u32);
        proof {
            assert(is_digit(t@[i as int]));
            assert(t@.take(i + 1).drop_last() =~= t@.take(i as int));
            assert(t@.take(i + 1).last() == c);
        }
        let next = value * 10 + d;
        value = if next > 256 {
            256
        } else {
            next
        };
        i += 1;
    }
    proof {
        assert(t@.take(n as int) =~= t@);
    }
    if value <= 255 {
        Some(value as u8)
    } else {
        None
    }
}

fn make_version_rejection(v: &JsonValue) -> (r: String)
    ensures
        r@ == version_rejection(v.model()),
{
    match v {
        JsonValue::Number(n) => {
            let t = n.as_text();
            let integer = if digits_from(t, 0) {
                proof {
                    assert(t@.skip(0) =~= t@);
                }
                true
            } else if t.unicode_len() > 0 && t.get_char(0) == '-' {
                proof {
                    assert(t@.skip(1) =~= t@.drop_first());
                    assert(t@.skip(0) =~= t@);
                }
                digits_from(t, 1)
            } else {
                proof {
                    assert(t@.skip(0) =~= t@);
                }
                false
            };
            let mut m = if integer {
                "invalid value: integer `".to_string()
            } else {
                "invalid type: floating point `".to_string()
            };
            m.append(t);
            m.append("`, expected u8");
            m
        },
        _ => make_type_error(v, "u8"),
    }
}

/// The entries of a reference other than its version and its root.
pub open spec fn other_entries(o: Seq<(Seq<char>, Json)>) -> Seq<(Seq<char>, Json)> {
    without_key(without_key(o, "$version"@), "$root"@)
}

impl JsonDecode for StyleReference {
    open spec fn accepts(v: Json) -> bool {
        v is Object && {
            let o = v->Object_0;
            &&& lookup(o, "$version"@) matches Some(Json::Number(t)) && version_number(t) is Some
            &&& lookup(o, "$root"@) matches Some(Json::Object(r)) && entries_accept::<ParsedItem>(r)
            &&& entries_accept::<TopLevelItem>(other_entries(o))
        }
    }

    open spec fn decodes(v: Json, x: Self) -> bool {
        x.wf() && v is Object && {
            let o = v->Object_0;
            &&& lookup(o, "$version"@) matches Some(Json::Number(t)) && version_number(t) == Some(x.version)
            &&& lookup(o, "$root"@) matches Some(Json::Object(r)) && entries_decode::<ParsedItem>(r, x.root@)
            &&& entries_decode::<TopLevelItem>(other_entries(o), x.fields@)
        }
    }

    open spec fn rejection(v: Json) -> Seq<char> {
        if !(v is Object) {
            type_error(v, "struct StyleReference"@)
        } else {
            let o = v->Object_0;
            match lookup(o, "$version"@) {
                None => missing_field("$version"@),
                Some(ver) => if !(ver matches Json::Number(t) && version_number(t) is Some) {
                    version_rejection(ver)
                } else {
                    match lookup(o, "$root"@) {
                        None => missing_field("$root"@),
                        Some(Json::Object(r)) => if !entries_accept::<ParsedItem>(r) {
                            first_rejection::<ParsedItem>(entry_values(r))
                        } else {
                            first_rejection::<TopLevelItem>(entry_values(other_entries(o)))
                        },
                        Some(other) => type_error(other, "a map"@),
                    }
                },
            }
        }
    }

    fn decode(v: &JsonValue) -> (r: Result<Self, String>) {
        match v {
            JsonValue::Object(fields) => {
                let version = match get_field(fields, "$version") {
                    None => return Err(make_missing_field("$version")),
                    Some(ver) => {
                        let parsed = match ver {
                            JsonValue::Number(n) => parse_version(n.as_text()),
                            _ => None,
                        };
                        match parsed {
                            Some(x) => x,
                            None => return Err(make_version_rejection(ver)),
                        }
                    },
                };
                let root = match get_field(fields, "$root") {
                    None => return Err(make_missing_field("$root")),
                    Some(JsonValue::Object(r)) => match decode_entries::<ParsedItem>(r) {
                        Ok(x) => x,
                        Err(e) => return Err(e),
                    },
                    Some(other) => return Err(make_type_error(other, "a map")),
                };
                let rest = copy_without_key(fields, "$version");
                let rest = match rest {
                    JsonValue::Object(f) => copy_without_key(&f, "$root"),
                    _ => rest,
                };
                let others = match rest {
                    JsonValue::Object(f) => match decode_entries::<TopLevelItem>(&f) {
                        Ok(x) => x,
                        Err(e) => return Err(e),
                    },
                    _ => Vec::new(),
                };
                Ok(StyleReference { version, root, fields: others })
            },
            _ => Err(make_type_error(v, "struct StyleReference")),
        }
    }
}

} // verus!
