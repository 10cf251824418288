#![allow(clippy::large_enum_variant)]
use vstd::prelude::*;
use crate::colors::{ColorValue, default_color};
use crate::json::{
    Json, JsonDecode, JsonEncode, JsonNumber, JsonValue, decode_opt_field, decode_req_field, entries_model, get_field, keyed_by, lookup, lemma_lookup_concat, make_missing_field, missing_field,
    lemma_lookup_flatten, lemma_lookup_opt_entry, lemma_lookup_req_entry, make_type_error, make_unknown_variant,
    lemma_lookup_none_for_other_keys, opt_entry, opt_field_accepts, opt_field_decodes, opt_field_rejection, others_differ, push_opt_entry,
    push_req_entry, req_entry, req_field_accepts, req_field_decodes, req_field_rejection, str_eq, type_error,
    unknown_variant, decode_seq_opt, decode_seq_req, seq_opt_accepts, seq_opt_decodes, seq_opt_rejection,
    seq_req_accepts, seq_req_decodes, seq_req_rejection, first_with_key, key_seen_before, comes_before, key_comes_before, length_error, make_length_error,
};
use crate::spec::expression::{Color, ColorOrArrayOfColor, Number, NumberOrArrayOfNumberOrColorOrArrayOfColorOrProjection};

verus! {

/// A filter expression — semantically a boolean expression or literal,
/// stored as a JSON document for lossless round-tripping.
#[derive(PartialEq, Debug, Clone)]
pub struct LayerFilter(JsonValue);

impl View for LayerFilter {
    type V = Json;

    closed spec fn view(&self) -> Json {
        self.0.model()
    }
}

impl JsonDecode for LayerFilter {
    open spec fn accepts(v: Json) -> bool {
        true
    }

    open spec fn decodes(v: Json, x: Self) -> bool {
        v == x@
    }

    open spec fn rejection(v: Json) -> Seq<char> {
        JsonValue::rejection(v)
    }

    fn decode(v: &JsonValue) -> (r: Result<Self, String>) {
        match JsonValue::decode(v) {
            Ok(x) => Ok(LayerFilter(x)),
            Err(e) => Err(e),
        }
    }
}

impl JsonEncode for LayerFilter {
    open spec fn to_json(self) -> Json {
        self@
    }

    open spec fn round_trips(self) -> bool {
        true
    }

    fn encode(&self) -> (r: JsonValue) {
        JsonValue::encode(&self.0)
    }

    proof fn lemma_round_trip(self) {
        JsonValue::lemma_round_trip(self.0);
    }
}

#[derive(PartialEq, Debug, Clone)]
pub struct Layer {
    /// A expression specifying conditions on source features. Only features that match the filter are displayed.
    pub filter: Option<LayerFilter>,
    /// Unique layer name.
    pub id: LayerId,
    /// The maximum zoom level for the layer. At zoom levels equal to or greater than the maxzoom, the layer will be hidden.
    pub maxzoom: Option<LayerMaxzoom>,
    /// Arbitrary properties useful to track with the layer, but do not influence rendering. Properties should be prefixed to avoid collisions, like 'maplibre:'.
    pub metadata: Option<LayerMetadata>,
    /// The minimum zoom level for the layer. At zoom levels less than the minzoom, the layer will be hidden.
    pub minzoom: Option<LayerMinzoom>,
    /// Name of a source description to be used for this layer. Required for all layer types except `background`.
    pub source: Option<LayerSource>,
    /// Layer to use from a vector tile source. Required for vector tile sources; prohibited for all other source types, including GeoJSON sources.
    pub source_layer: Option<LayerSourceLayer>,
}

impl JsonDecode for Layer {
    /// An object with the fields by their keys, or an array with the fields in order.
    open spec fn accepts(v: Json) -> bool {
        ||| (v is Object && {
            let o = v->Object_0;
            &&& opt_field_accepts::<LayerFilter>(o, "filter"@)
            &&& req_field_accepts::<LayerId>(o, "id"@)
            &&& opt_field_accepts::<LayerMaxzoom>(o, "maxzoom"@)
            &&& opt_field_accepts::<LayerMetadata>(o, "metadata"@)
            &&& opt_field_accepts::<LayerMinzoom>(o, "minzoom"@)
            &&& opt_field_accepts::<LayerSource>(o, "source"@)
            &&& opt_field_accepts::<LayerSourceLayer>(o, "source-layer"@)
        })
        ||| (v is Array && {
            let a = v->Array_0;
            &&& seq_opt_accepts::<LayerFilter>(a, 0, true)
            &&& seq_req_accepts::<LayerId>(a, 1)
            &&& seq_opt_accepts::<LayerMaxzoom>(a, 2, true)
            &&& seq_opt_accepts::<LayerMetadata>(a, 3, true)
            &&& seq_opt_accepts::<LayerMinzoom>(a, 4, true)
            &&& seq_opt_accepts::<LayerSource>(a, 5, true)
            &&& seq_opt_accepts::<LayerSourceLayer>(a, 6, true)
            &&& a.len() <= 7
        })
    }

    open spec fn decodes(v: Json, x: Self) -> bool {
        ||| (v is Object && {
            let o = v->Object_0;
            &&& opt_field_decodes::<LayerFilter>(o, "filter"@, x.filter)
            &&& req_field_decodes::<LayerId>(o, "id"@, x.id)
            &&& opt_field_decodes::<LayerMaxzoom>(o, "maxzoom"@, x.maxzoom)
            &&& opt_field_decodes::<LayerMetadata>(o, "metadata"@, x.metadata)
            &&& opt_field_decodes::<LayerMinzoom>(o, "minzoom"@, x.minzoom)
            &&& opt_field_decodes::<LayerSource>(o, "source"@, x.source)
            &&& opt_field_decodes::<LayerSourceLayer>(o, "source-layer"@, x.source_layer)
        })
        ||| (v is Array && {
            let a = v->Array_0;
            &&& seq_opt_decodes::<LayerFilter>(a, 0, x.filter)
            &&& seq_req_decodes::<LayerId>(a, 1, x.id)
            &&& seq_opt_decodes::<LayerMaxzoom>(a, 2, x.maxzoom)
            &&& seq_opt_decodes::<LayerMetadata>(a, 3, x.metadata)
            &&& seq_opt_decodes::<LayerMinzoom>(a, 4, x.minzoom)
            &&& seq_opt_decodes::<LayerSource>(a, 5, x.source)
            &&& seq_opt_decodes::<LayerSourceLayer>(a, 6, x.source_layer)
        })
    }

    /// For an object, the first entry in order whose value does not read as its field, else the
    /// first required field that is missing.
    open spec fn rejection(v: Json) -> Seq<char> {
        if v is Object {
            let o = v->Object_0;
            match Self::first_fault(o, 0) {
                Some(m) => m,
                None => if lookup(o, "id"@) is None {
                    missing_field("id"@)
                } else {
                    Seq::empty()
                },
            }
        } else if v is Array {
            let a = v->Array_0;
            if !seq_opt_accepts::<LayerFilter>(a, 0, true) {
                seq_opt_rejection::<LayerFilter>(a, 0, "struct Layer with 7 elements"@)
            } else if !seq_req_accepts::<LayerId>(a, 1) {
                seq_req_rejection::<LayerId>(a, 1, "struct Layer with 7 elements"@)
            } else if !seq_opt_accepts::<LayerMaxzoom>(a, 2, true) {
                seq_opt_rejection::<LayerMaxzoom>(a, 2, "struct Layer with 7 elements"@)
            } else if !seq_opt_accepts::<LayerMetadata>(a, 3, true) {
                seq_opt_rejection::<LayerMetadata>(a, 3, "struct Layer with 7 elements"@)
            } else if !seq_opt_accepts::<LayerMinzoom>(a, 4, true) {
                seq_opt_rejection::<LayerMinzoom>(a, 4, "struct Layer with 7 elements"@)
            } else if !seq_opt_accepts::<LayerSource>(a, 5, true) {
                seq_opt_rejection::<LayerSource>(a, 5, "struct Layer with 7 elements"@)
            } else if !seq_opt_accepts::<LayerSourceLayer>(a, 6, true) {
                seq_opt_rejection::<LayerSourceLayer>(a, 6, "struct Layer with 7 elements"@)
            } else if a.len() > 7 {
                length_error(a.len())
            } else {
                Seq::empty()
            }
        } else {
            type_error(v, "struct Layer"@)
        }
    }

    fn decode(v: &JsonValue) -> (r: Result<Self, String>) {
        match v {
            JsonValue::Object(fields) => {
                let filter = match decode_opt_field::<LayerFilter>(fields, "filter") {
                    Ok(x) => x,
                    Err(_) => return Err(Self::object_rejection(fields)),
                };
                let id = match decode_req_field::<LayerId>(fields, "id") {
                    Ok(x) => x,
                    Err(_) => return Err(Self::object_rejection(fields)),
                };
                let maxzoom = match decode_opt_field::<LayerMaxzoom>(fields, "maxzoom") {
                    Ok(x) => x,
                    Err(_) => return Err(Self::object_rejection(fields)),
                };
                let metadata = match decode_opt_field::<LayerMetadata>(fields, "metadata") {
                    Ok(x) => x,
                    Err(_) => return Err(Self::object_rejection(fields)),
                };
                let minzoom = match decode_opt_field::<LayerMinzoom>(fields, "minzoom") {
                    Ok(x) => x,
                    Err(_) => return Err(Self::object_rejection(fields)),
                };
                let source = match decode_opt_field::<LayerSource>(fields, "source") {
                    Ok(x) => x,
                    Err(_) => return Err(Self::object_rejection(fields)),
                };
                let source_layer = match decode_opt_field::<LayerSourceLayer>(fields, "source-layer") {
                    Ok(x) => x,
                    Err(_) => return Err(Self::object_rejection(fields)),
                };
                Ok(Layer { filter, id, maxzoom, metadata, minzoom, source, source_layer })
            },
            JsonValue::Array(a) => {
                let filter = match decode_seq_opt::<LayerFilter>(a, 0, true, "struct Layer with 7 elements") {
                    Ok(x) => x,
                    Err(e) => return Err(e),
                };
                let id = match decode_seq_req::<LayerId>(a, 1, "struct Layer with 7 elements") {
                    Ok(x) => x,
                    Err(e) => return Err(e),
                };
                let maxzoom = match decode_seq_opt::<LayerMaxzoom>(a, 2, true, "struct Layer with 7 elements") {
                    Ok(x) => x,
                    Err(e) => return Err(e),
                };
                let metadata = match decode_seq_opt::<LayerMetadata>(a, 3, true, "struct Layer with 7 elements") {
                    Ok(x) => x,
                    Err(e) => return Err(e),
                };
                let minzoom = match decode_seq_opt::<LayerMinzoom>(a, 4, true, "struct Layer with 7 elements") {
                    Ok(x) => x,
                    Err(e) => return Err(e),
                };
                let source = match decode_seq_opt::<LayerSource>(a, 5, true, "struct Layer with 7 elements") {
                    Ok(x) => x,
                    Err(e) => return Err(e),
                };
                let source_layer = match decode_seq_opt::<LayerSourceLayer>(a, 6, true, "struct Layer with 7 elements") {
                    Ok(x) => x,
                    Err(e) => return Err(e),
                };
                if a.len() > 7 {
                    return Err(make_length_error(a.len()));
                }
                Ok(Layer { filter, id, maxzoom, metadata, minzoom, source, source_layer })
            },
            _ => Err(make_type_error(v, "struct Layer")),
        }
    }
}

impl Layer {
    /// What is wrong with the value `w` of an entry with key `k`, where `k` is the key of a field.
    pub open spec fn field_fault(k: Seq<char>, w: Json) -> Option<Seq<char>> {
        if k == "filter"@ {
            if w is Null || LayerFilter::accepts(w) {
                None
            } else {
                Some(LayerFilter::rejection(w))
            }
        } else if k == "id"@ {
            if LayerId::accepts(w) {
                None
            } else {
                Some(LayerId::rejection(w))
            }
        } else if k == "maxzoom"@ {
            if w is Null || LayerMaxzoom::accepts(w) {
                None
            } else {
                Some(LayerMaxzoom::rejection(w))
            }
        } else if k == "metadata"@ {
            if w is Null || LayerMetadata::accepts(w) {
                None
            } else {
                Some(LayerMetadata::rejection(w))
            }
        } else if k == "minzoom"@ {
            if w is Null || LayerMinzoom::accepts(w) {
                None
            } else {
                Some(LayerMinzoom::rejection(w))
            }
        } else if k == "source"@ {
            if w is Null || LayerSource::accepts(w) {
                None
            } else {
                Some(LayerSource::rejection(w))
            }
        } else if k == "source-layer"@ {
            if w is Null || LayerSourceLayer::accepts(w) {
                None
            } else {
                Some(LayerSourceLayer::rejection(w))
            }
        } else {
            None
        }
    }

    /// The message of the first entry of `o`, from entry `i` on and among the first entries of
    /// their keys, whose value does not read as its field, if any.
    pub open spec fn first_fault(o: Seq<(Seq<char>, Json)>, i: int) -> Option<Seq<char>>
        decreases o.len() - i,
    {
        if i < 0 || i >= o.len() {
            None
        } else if first_with_key(o, i) && Self::field_fault(o[i].0, o[i].1) is Some {
            Self::field_fault(o[i].0, o[i].1)
        } else {
            Self::first_fault(o, i + 1)
        }
    }

    fn find_field_fault(k: &str, w: &JsonValue) -> (r: Option<String>)
        ensures
            match r {
                Some(m) => Self::field_fault(k@, w.model()) == Some(m@),
                None => Self::field_fault(k@, w.model()) is None,
            },
    {
        if str_eq(k, "filter") {
            match w {
                JsonValue::Null => None,
                _ => match LayerFilter::decode(w) {
                    Ok(_) => None,
                    Err(e) => Some(e),
                },
            }
        } else if str_eq(k, "id") {
            match LayerId::decode(w) {
                Ok(_) => None,
                Err(e) => Some(e),
            }
        } else if str_eq(k, "maxzoom") {
            match w {
                JsonValue::Null => None,
                _ => match LayerMaxzoom::decode(w) {
                    Ok(_) => None,
                    Err(e) => Some(e),
                },
            }
        } else if str_eq(k, "metadata") {
            match w {
                JsonValue::Null => None,
                _ => match LayerMetadata::decode(w) {
                    Ok(_) => None,
                    Err(e) => Some(e),
                },
            }
        } else if str_eq(k, "minzoom") {
            match w {
                JsonValue::Null => None,
                _ => match LayerMinzoom::decode(w) {
                    Ok(_) => None,
                    Err(e) => Some(e),
                },
            }
        } else if str_eq(k, "source") {
            match w {
                JsonValue::Null => None,
                _ => match LayerSource::decode(w) {
                    Ok(_) => None,
                    Err(e) => Some(e),
                },
            }
        } else if str_eq(k, "source-layer") {
            match w {
                JsonValue::Null => None,
                _ => match LayerSourceLayer::decode(w) {
                    Ok(_) => None,
                    Err(e) => Some(e),
                },
            }
        } else {
            None
        }
    }

    fn object_rejection(fields: &Vec<(String, JsonValue)>) -> (r: String)
        ensures
            r@ == Self::rejection(JsonValue::Object(*fields).model()),
    {
        let ghost o = entries_model(*fields);
        let mut i: usize = 0;
        while i < fields.len()
            invariant
                o == entries_model(*fields),
                o.len() == fields.len(),
                i <= fields.len(),
                Self::first_fault(o, 0) == Self::first_fault(o, i as int),
            decreases fields.len() - i,
        {
            proof {
                assert(o[i as int] == (fields@[i as int].0@, fields@[i as int].1.model()));
            }
            if !key_seen_before(fields, i) {
                match Self::find_field_fault(fields[i].0.as_str(), &fields[i].1) {
                    Some(m) => {
                        return m;
                    },
                    None => {},
                }
            }
            i += 1;
        }
        if get_field(fields, "id").is_none() {
            return make_missing_field("id");
        }
        String::new()
    }
}

impl Layer {
    /// The keys of the fields, in order.
    pub open spec fn field_keys() -> Seq<Seq<char>> {
        seq!["filter"@, "id"@, "maxzoom"@, "metadata"@, "minzoom"@, "source"@, "source-layer"@]
    }

    /// The entries that each field is written as, in order.
    pub open spec fn field_entries(self) -> Seq<Seq<(Seq<char>, Json)>> {
        seq![opt_entry::<LayerFilter>("filter"@, self.filter), req_entry::<LayerId>("id"@, self.id), opt_entry::<LayerMaxzoom>("maxzoom"@, self.maxzoom), opt_entry::<LayerMetadata>("metadata"@, self.metadata), opt_entry::<LayerMinzoom>("minzoom"@, self.minzoom), opt_entry::<LayerSource>("source"@, self.source), opt_entry::<LayerSourceLayer>("source-layer"@, self.source_layer)]
    }

    proof fn lemma_keys_differ(i: int)
        requires
            0 <= i < 7,
        ensures
            others_differ(Self::field_keys(), i),
    {
        reveal_strlit("filter");
        assert("filter"@.len() == 6);
        reveal_strlit("id");
        assert("id"@.len() == 2);
        reveal_strlit("maxzoom");
        assert("maxzoom"@.len() == 7);
        reveal_strlit("metadata");
        assert("metadata"@.len() == 8);
        reveal_strlit("minzoom");
        assert("minzoom"@.len() == 7);
        reveal_strlit("source");
        assert("source"@.len() == 6);
        reveal_strlit("source-layer");
        assert("source-layer"@.len() == 12);
        assert("filter"@[0] != "source"@[0]);
        assert("maxzoom"@[1] != "minzoom"@[1]);
    }
}

impl JsonEncode for Layer {
    open spec fn to_json(self) -> Json {
        Json::Object(self.field_entries().flatten())
    }

    open spec fn round_trips(self) -> bool {
        &&& (self.filter matches Some(t) ==> t.round_trips() && !(t.to_json() is Null))
        &&& self.id.round_trips()
        &&& (self.maxzoom matches Some(t) ==> t.round_trips() && !(t.to_json() is Null))
        &&& (self.metadata matches Some(t) ==> t.round_trips() && !(t.to_json() is Null))
        &&& (self.minzoom matches Some(t) ==> t.round_trips() && !(t.to_json() is Null))
        &&& (self.source matches Some(t) ==> t.round_trips() && !(t.to_json() is Null))
        &&& (self.source_layer matches Some(t) ==> t.round_trips() && !(t.to_json() is Null))
    }

    fn encode(&self) -> (r: JsonValue) {
        let mut out: Vec<(String, JsonValue)> = Vec::new();
        let ghost s0 = Seq::<Seq<(Seq<char>, Json)>>::empty();
        proof {
            assert(entries_model(out) =~= s0.flatten());
        }
        push_opt_entry::<LayerFilter>(&mut out, "filter", &self.filter);
        let ghost s1 = s0.push(opt_entry::<LayerFilter>("filter"@, self.filter));
        proof {
            s0.lemma_flatten_push(opt_entry::<LayerFilter>("filter"@, self.filter));
            assert(entries_model(out) =~= s1.flatten());
        }
        push_req_entry::<LayerId>(&mut out, "id", &self.id);
        let ghost s2 = s1.push(req_entry::<LayerId>("id"@, self.id));
        proof {
            s1.lemma_flatten_push(req_entry::<LayerId>("id"@, self.id));
            assert(entries_model(out) =~= s2.flatten());
        }
        push_opt_entry::<LayerMaxzoom>(&mut out, "maxzoom", &self.maxzoom);
        let ghost s3 = s2.push(opt_entry::<LayerMaxzoom>("maxzoom"@, self.maxzoom));
        proof {
            s2.lemma_flatten_push(opt_entry::<LayerMaxzoom>("maxzoom"@, self.maxzoom));
            assert(entries_model(out) =~= s3.flatten());
        }
        push_opt_entry::<LayerMetadata>(&mut out, "metadata", &self.metadata);
        let ghost s4 = s3.push(opt_entry::<LayerMetadata>("metadata"@, self.metadata));
        proof {
            s3.lemma_flatten_push(opt_entry::<LayerMetadata>("metadata"@, self.metadata));
            assert(entries_model(out) =~= s4.flatten());
        }
        push_opt_entry::<LayerMinzoom>(&mut out, "minzoom", &self.minzoom);
        let ghost s5 = s4.push(opt_entry::<LayerMinzoom>("minzoom"@, self.minzoom));
        proof {
            s4.lemma_flatten_push(opt_entry::<LayerMinzoom>("minzoom"@, self.minzoom));
            assert(entries_model(out) =~= s5.flatten());
        }
        push_opt_entry::<LayerSource>(&mut out, "source", &self.source);
        let ghost s6 = s5.push(opt_entry::<LayerSource>("source"@, self.source));
        proof {
            s5.lemma_flatten_push(opt_entry::<LayerSource>("source"@, self.source));
            assert(entries_model(out) =~= s6.flatten());
        }
        push_opt_entry::<LayerSourceLayer>(&mut out, "source-layer", &self.source_layer);
        let ghost s7 = s6.push(opt_entry::<LayerSourceLayer>("source-layer"@, self.source_layer));
        proof {
            s6.lemma_flatten_push(opt_entry::<LayerSourceLayer>("source-layer"@, self.source_layer));
            assert(entries_model(out) =~= s7.flatten());
        }
        proof {
            assert(self.field_entries() == s7);
        }
        JsonValue::Object(out)
    }

    proof fn lemma_round_trip(self) {
        let keys = Self::field_keys();
        let es = self.field_entries();
        assert(keyed_by(es, keys));
        Self::lemma_keys_differ(0);
        lemma_lookup_flatten(es, keys, 0);
        lemma_lookup_opt_entry::<LayerFilter>("filter"@, self.filter, "filter"@);
        if self.filter is Some {
            self.filter->0.lemma_round_trip();
        }
        Self::lemma_keys_differ(1);
        lemma_lookup_flatten(es, keys, 1);
        lemma_lookup_req_entry::<LayerId>("id"@, self.id, "id"@);
        self.id.lemma_round_trip();
        Self::lemma_keys_differ(2);
        lemma_lookup_flatten(es, keys, 2);
        lemma_lookup_opt_entry::<LayerMaxzoom>("maxzoom"@, self.maxzoom, "maxzoom"@);
        if self.maxzoom is Some {
            self.maxzoom->0.lemma_round_trip();
        }
        Self::lemma_keys_differ(3);
        lemma_lookup_flatten(es, keys, 3);
        lemma_lookup_opt_entry::<LayerMetadata>("metadata"@, self.metadata, "metadata"@);
        if self.metadata is Some {
            self.metadata->0.lemma_round_trip();
        }
        Self::lemma_keys_differ(4);
        lemma_lookup_flatten(es, keys, 4);
        lemma_lookup_opt_entry::<LayerMinzoom>("minzoom"@, self.minzoom, "minzoom"@);
        if self.minzoom is Some {
            self.minzoom->0.lemma_round_trip();
        }
        Self::lemma_keys_differ(5);
        lemma_lookup_flatten(es, keys, 5);
        lemma_lookup_opt_entry::<LayerSource>("source"@, self.source, "source"@);
        if self.source is Some {
            self.source->0.lemma_round_trip();
        }
        Self::lemma_keys_differ(6);
        lemma_lookup_flatten(es, keys, 6);
        lemma_lookup_opt_entry::<LayerSourceLayer>("source-layer"@, self.source_layer, "source-layer"@);
        if self.source_layer is Some {
            self.source_layer->0.lemma_round_trip();
        }
    }
}

/// Unique layer name.
#[derive(PartialEq, Debug, Clone)]
pub struct LayerId(String);

impl View for LayerId {
    type V = Seq<char>;

    closed spec fn view(&self) -> Seq<char> {
        self.0@
    }
}

impl JsonDecode for LayerId {
    open spec fn accepts(v: Json) -> bool {
        v is Str
    }

    open spec fn decodes(v: Json, x: Self) -> bool {
        v == Json::Str(x@)
    }

    open spec fn rejection(v: Json) -> Seq<char> {
        String::rejection(v)
    }

    fn decode(v: &JsonValue) -> (r: Result<Self, String>) {
        match String::decode(v) {
            Ok(x) => Ok(LayerId(x)),
            Err(e) => Err(e),
        }
    }
}

impl JsonEncode for LayerId {
    open spec fn to_json(self) -> Json {
        Json::Str(self@)
    }

    open spec fn round_trips(self) -> bool {
        true
    }

    fn encode(&self) -> (r: JsonValue) {
        String::encode(&self.0)
    }

    proof fn lemma_round_trip(self) {
        String::lemma_round_trip(self.0);
    }
}

/// The maximum zoom level for the layer. At zoom levels equal to or greater than the maxzoom, the layer will be hidden.
#[derive(PartialEq, Debug, Clone)]
pub struct LayerMaxzoom(JsonNumber);

impl View for LayerMaxzoom {
    type V = Seq<char>;

    closed spec fn view(&self) -> Seq<char> {
        self.0@
    }
}

impl JsonDecode for LayerMaxzoom {
    open spec fn accepts(v: Json) -> bool {
        v is Number
    }

    open spec fn decodes(v: Json, x: Self) -> bool {
        v == Json::Number(x@)
    }

    open spec fn rejection(v: Json) -> Seq<char> {
        JsonNumber::rejection(v)
    }

    fn decode(v: &JsonValue) -> (r: Result<Self, String>) {
        match JsonNumber::decode(v) {
            Ok(x) => Ok(LayerMaxzoom(x)),
            Err(e) => Err(e),
        }
    }
}

impl JsonEncode for LayerMaxzoom {
    open spec fn to_json(self) -> Json {
        Json::Number(self@)
    }

    open spec fn round_trips(self) -> bool {
        true
    }

    fn encode(&self) -> (r: JsonValue) {
        JsonNumber::encode(&self.0)
    }

    proof fn lemma_round_trip(self) {
        JsonNumber::lemma_round_trip(self.0);
    }
}

/// Arbitrary properties useful to track with the layer, but do not influence rendering. Properties should be prefixed to avoid collisions, like 'maplibre:'.
#[derive(PartialEq, Debug, Clone)]
pub struct LayerMetadata(JsonValue);

impl View for LayerMetadata {
    type V = Json;

    closed spec fn view(&self) -> Json {
        self.0.model()
    }
}

impl JsonDecode for LayerMetadata {
    open spec fn accepts(v: Json) -> bool {
        true
    }

    open spec fn decodes(v: Json, x: Self) -> bool {
        v == x@
    }

    open spec fn rejection(v: Json) -> Seq<char> {
        JsonValue::rejection(v)
    }

    fn decode(v: &JsonValue) -> (r: Result<Self, String>) {
        match JsonValue::decode(v) {
            Ok(x) => Ok(LayerMetadata(x)),
            Err(e) => Err(e),
        }
    }
}

impl JsonEncode for LayerMetadata {
    open spec fn to_json(self) -> Json {
        self@
    }

    open spec fn round_trips(self) -> bool {
        true
    }

    fn encode(&self) -> (r: JsonValue) {
        JsonValue::encode(&self.0)
    }

    proof fn lemma_round_trip(self) {
        JsonValue::lemma_round_trip(self.0);
    }
}

/// The minimum zoom level for the layer. At zoom levels less than the minzoom, the layer will be hidden.
#[derive(PartialEq, Debug, Clone)]
pub struct LayerMinzoom(JsonNumber);

impl View for LayerMinzoom {
    type V = Seq<char>;

    closed spec fn view(&self) -> Seq<char> {
        self.0@
    }
}

impl JsonDecode for LayerMinzoom {
    open spec fn accepts(v: Json) -> bool {
        v is Number
    }

    open spec fn decodes(v: Json, x: Self) -> bool {
        v == Json::Number(x@)
    }

    open spec fn rejection(v: Json) -> Seq<char> {
        JsonNumber::rejection(v)
    }

    fn decode(v: &JsonValue) -> (r: Result<Self, String>) {
        match JsonNumber::decode(v) {
            Ok(x) => Ok(LayerMinzoom(x)),
            Err(e) => Err(e),
        }
    }
}

impl JsonEncode for LayerMinzoom {
    open spec fn to_json(self) -> Json {
        Json::Number(self@)
    }

    open spec fn round_trips(self) -> bool {
        true
    }

    fn encode(&self) -> (r: JsonValue) {
        JsonNumber::encode(&self.0)
    }

    proof fn lemma_round_trip(self) {
        JsonNumber::lemma_round_trip(self.0);
    }
}

/// Name of a source description to be used for this layer. Required for all layer types except `background`.
#[derive(PartialEq, Debug, Clone)]
pub struct LayerSource(String);

impl View for LayerSource {
    type V = Seq<char>;

    closed spec fn view(&self) -> Seq<char> {
        self.0@
    }
}

impl JsonDecode for LayerSource {
    open spec fn accepts(v: Json) -> bool {
        v is Str
    }

    open spec fn decodes(v: Json, x: Self) -> bool {
        v == Json::Str(x@)
    }

    open spec fn rejection(v: Json) -> Seq<char> {
        String::rejection(v)
    }

    fn decode(v: &JsonValue) -> (r: Result<Self, String>) {
        match String::decode(v) {
            Ok(x) => Ok(LayerSource(x)),
            Err(e) => Err(e),
        }
    }
}

impl JsonEncode for LayerSource {
    open spec fn to_json(self) -> Json {
        Json::Str(self@)
    }

    open spec fn round_trips(self) -> bool {
        true
    }

    fn encode(&self) -> (r: JsonValue) {
        String::encode(&self.0)
    }

    proof fn lemma_round_trip(self) {
        String::lemma_round_trip(self.0);
    }
}

/// Layer to use from a vector tile source. Required for vector tile sources; prohibited for all other source types, including GeoJSON sources.
#[derive(PartialEq, Debug, Clone)]
pub struct LayerSourceLayer(String);

impl View for LayerSourceLayer {
    type V = Seq<char>;

    closed spec fn view(&self) -> Seq<char> {
        self.0@
    }
}

impl JsonDecode for LayerSourceLayer {
    open spec fn accepts(v: Json) -> bool {
        v is Str
    }

    open spec fn decodes(v: Json, x: Self) -> bool {
        v == Json::Str(x@)
    }

    open spec fn rejection(v: Json) -> Seq<char> {
        String::rejection(v)
    }

    fn decode(v: &JsonValue) -> (r: Result<Self, String>) {
        match String::decode(v) {
            Ok(x) => Ok(LayerSourceLayer(x)),
            Err(e) => Err(e),
        }
    }
}

impl JsonEncode for LayerSourceLayer {
    open spec fn to_json(self) -> Json {
        Json::Str(self@)
    }

    open spec fn round_trips(self) -> bool {
        true
    }

    fn encode(&self) -> (r: JsonValue) {
        String::encode(&self.0)
    }

    proof fn lemma_round_trip(self) {
        String::lemma_round_trip(self.0);
    }
}

#[derive(PartialEq, Debug, Clone)]
pub struct BackgroundLayoutLayer {
    /// Whether this layer is displayed.
    pub visibility: Option<BackgroundLayoutLayerVisibility>,
}

impl JsonDecode for BackgroundLayoutLayer {
    /// An object with the fields by their keys, or an array with the fields in order.
    open spec fn accepts(v: Json) -> bool {
        ||| (v is Object && {
            let o = v->Object_0;
            &&& opt_field_accepts::<BackgroundLayoutLayerVisibility>(o, "visibility"@)
        })
        ||| (v is Array && {
            let a = v->Array_0;
            &&& seq_opt_accepts::<BackgroundLayoutLayerVisibility>(a, 0, true)
            &&& a.len() <= 1
        })
    }

    open spec fn decodes(v: Json, x: Self) -> bool {
        ||| (v is Object && {
            let o = v->Object_0;
            &&& opt_field_decodes::<BackgroundLayoutLayerVisibility>(o, "visibility"@, x.visibility)
        })
        ||| (v is Array && {
            let a = v->Array_0;
            &&& seq_opt_decodes::<BackgroundLayoutLayerVisibility>(a, 0, x.visibility)
        })
    }

    /// For an object, the first entry in order whose value does not read as its field, else the
    /// first required field that is missing.
    open spec fn rejection(v: Json) -> Seq<char> {
        if v is Object {
            let o = v->Object_0;
            match Self::first_fault(o, 0) {
                Some(m) => m,
                None => {
                    Seq::empty()
                },
            }
        } else if v is Array {
            let a = v->Array_0;
            if !seq_opt_accepts::<BackgroundLayoutLayerVisibility>(a, 0, true) {
                seq_opt_rejection::<BackgroundLayoutLayerVisibility>(a, 0, "struct BackgroundLayoutLayer with 1 element"@)
            } else if a.len() > 1 {
                length_error(a.len())
            } else {
                Seq::empty()
            }
        } else {
            type_error(v, "struct BackgroundLayoutLayer"@)
        }
    }

    fn decode(v: &JsonValue) -> (r: Result<Self, String>) {
        match v {
            JsonValue::Object(fields) => {
                let visibility = match decode_opt_field::<BackgroundLayoutLayerVisibility>(fields, "visibility") {
                    Ok(x) => x,
                    Err(_) => return Err(Self::object_rejection(fields)),
                };
                Ok(BackgroundLayoutLayer { visibility })
            },
            JsonValue::Array(a) => {
                let visibility = match decode_seq_opt::<BackgroundLayoutLayerVisibility>(a, 0, true, "struct BackgroundLayoutLayer with 1 element") {
                    Ok(x) => x,
                    Err(e) => return Err(e),
                };
                if a.len() > 1 {
                    return Err(make_length_error(a.len()));
                }
                Ok(BackgroundLayoutLayer { visibility })
            },
            _ => Err(make_type_error(v, "struct BackgroundLayoutLayer")),
        }
    }
}

impl BackgroundLayoutLayer {
    /// What is wrong with the value `w` of an entry with key `k`, where `k` is the key of a field.
    pub open spec fn field_fault(k: Seq<char>, w: Json) -> Option<Seq<char>> {
        if k == "visibility"@ {
            if w is Null || BackgroundLayoutLayerVisibility::accepts(w) {
                None
            } else {
                Some(BackgroundLayoutLayerVisibility::rejection(w))
            }
        } else {
            None
        }
    }

    /// The message of the first entry of `o`, from entry `i` on and among the first entries of
    /// their keys, whose value does not read as its field, if any.
    pub open spec fn first_fault(o: Seq<(Seq<char>, Json)>, i: int) -> Option<Seq<char>>
        decreases o.len() - i,
    {
        if i < 0 || i >= o.len() {
            None
        } else if first_with_key(o, i) && Self::field_fault(o[i].0, o[i].1) is Some {
            Self::field_fault(o[i].0, o[i].1)
        } else {
            Self::first_fault(o, i + 1)
        }
    }

    fn find_field_fault(k: &str, w: &JsonValue) -> (r: Option<String>)
        ensures
            match r {
                Some(m) => Self::field_fault(k@, w.model()) == Some(m@),
                None => Self::field_fault(k@, w.model()) is None,
            },
    {
        if str_eq(k, "visibility") {
            match w {
                JsonValue::Null => None,
                _ => match BackgroundLayoutLayerVisibility::decode(w) {
                    Ok(_) => None,
                    Err(e) => Some(e),
                },
            }
        } else {
            None
        }
    }

    fn object_rejection(fields: &Vec<(String, JsonValue)>) -> (r: String)
        ensures
            r@ == Self::rejection(JsonValue::Object(*fields).model()),
    {
        let ghost o = entries_model(*fields);
        let mut i: usize = 0;
        while i < fields.len()
            invariant
                o == entries_model(*fields),
                o.len() == fields.len(),
                i <= fields.len(),
                Self::first_fault(o, 0) == Self::first_fault(o, i as int),
            decreases fields.len() - i,
        {
            proof {
                assert(o[i as int] == (fields@[i as int].0@, fields@[i as int].1.model()));
            }
            if !key_seen_before(fields, i) {
                match Self::find_field_fault(fields[i].0.as_str(), &fields[i].1) {
                    Some(m) => {
                        return m;
                    },
                    None => {},
                }
            }
            i += 1;
        }
        String::new()
    }
}

impl BackgroundLayoutLayer {
    /// The keys of the fields, in order.
    pub open spec fn field_keys() -> Seq<Seq<char>> {
        seq!["visibility"@]
    }

    /// The entries that each field is written as, in order.
    pub open spec fn field_entries(self) -> Seq<Seq<(Seq<char>, Json)>> {
        seq![opt_entry::<BackgroundLayoutLayerVisibility>("visibility"@, self.visibility)]
    }

    proof fn lemma_keys_differ(i: int)
        requires
            0 <= i < 1,
        ensures
            others_differ(Self::field_keys(), i),
    {
        reveal_strlit("visibility");
        assert("visibility"@.len() == 10);
    }
}

impl JsonEncode for BackgroundLayoutLayer {
    open spec fn to_json(self) -> Json {
        Json::Object(self.field_entries().flatten())
    }

    open spec fn round_trips(self) -> bool {
        &&& (self.visibility matches Some(t) ==> t.round_trips() && !(t.to_json() is Null))
    }

    fn encode(&self) -> (r: JsonValue) {
        let mut out: Vec<(String, JsonValue)> = Vec::new();
        let ghost s0 = Seq::<Seq<(Seq<char>, Json)>>::empty();
        proof {
            assert(entries_model(out) =~= s0.flatten());
        }
        push_opt_entry::<BackgroundLayoutLayerVisibility>(&mut out, "visibility", &self.visibility);
        let ghost s1 = s0.push(opt_entry::<BackgroundLayoutLayerVisibility>("visibility"@, self.visibility));
        proof {
            s0.lemma_flatten_push(opt_entry::<BackgroundLayoutLayerVisibility>("visibility"@, self.visibility));
            assert(entries_model(out) =~= s1.flatten());
        }
        proof {
            assert(self.field_entries() == s1);
        }
        JsonValue::Object(out)
    }

    proof fn lemma_round_trip(self) {
        let keys = Self::field_keys();
        let es = self.field_entries();
        assert(keyed_by(es, keys));
        Self::lemma_keys_differ(0);
        lemma_lookup_flatten(es, keys, 0);
        lemma_lookup_opt_entry::<BackgroundLayoutLayerVisibility>("visibility"@, self.visibility, "visibility"@);
        if self.visibility is Some {
            self.visibility->0.lemma_round_trip();
        }
    }
}

/// Whether this layer is displayed.
#[derive(PartialEq, Eq, Debug, Clone, Copy)]
pub enum BackgroundLayoutLayerVisibility {
    NoneValue,
    Visible,
}

impl BackgroundLayoutLayerVisibility {
    /// The name that stands for the value in a style document.
    pub open spec fn spec_name(self) -> Seq<char> {
        match self {
            BackgroundLayoutLayerVisibility::NoneValue => "none"@,
            BackgroundLayoutLayerVisibility::Visible => "visible"@,
        }
    }

    /// The name that stands for the value in a style document.
    pub fn name(&self) -> (r: &'static str)
        ensures
            r@ == self.spec_name(),
    {
        match self {
            BackgroundLayoutLayerVisibility::NoneValue => "none",
            BackgroundLayoutLayerVisibility::Visible => "visible",
        }
    }

    /// The value that a name stands for, if any.
    pub fn from_name(s: &str) -> (r: Option<BackgroundLayoutLayerVisibility>)
        ensures
            r matches Some(x) ==> x.spec_name() == s@,
            r is None ==> forall|x: BackgroundLayoutLayerVisibility| x.spec_name() != s@,
    {
        if str_eq(s, "none") {
            Some(BackgroundLayoutLayerVisibility::NoneValue)
        } else if str_eq(s, "visible") {
            Some(BackgroundLayoutLayerVisibility::Visible)
        } else {
            None
        }
    }
}

impl BackgroundLayoutLayerVisibility {
    /// Each value is read from, and written as, the name that the style specification gives
    /// it, and a document holding one of these names reads as that value and no other.
    pub proof fn lemma_read_by_name()
        ensures
            forall|x: BackgroundLayoutLayerVisibility| <BackgroundLayoutLayerVisibility as JsonDecode>::decodes(Json::Str("none"@), x) <==> x == BackgroundLayoutLayerVisibility::NoneValue,
            forall|x: BackgroundLayoutLayerVisibility| <BackgroundLayoutLayerVisibility as JsonDecode>::decodes(Json::Str("visible"@), x) <==> x == BackgroundLayoutLayerVisibility::Visible,
            <BackgroundLayoutLayerVisibility as JsonEncode>::to_json(BackgroundLayoutLayerVisibility::NoneValue) == Json::Str("none"@),
            <BackgroundLayoutLayerVisibility as JsonEncode>::to_json(BackgroundLayoutLayerVisibility::Visible) == Json::Str("visible"@),
    {
        reveal_strlit("visible");
        reveal_strlit("none");
        assert("none"@.len() != "visible"@.len());
    }
}

impl JsonDecode for BackgroundLayoutLayerVisibility {
    /// The name of a value, or an object whose one entry has the name as its key and `null`.
    open spec fn accepts(v: Json) -> bool {
        ||| (v is Str && exists|x: BackgroundLayoutLayerVisibility| x.spec_name() == v->Str_0)
        ||| (v is Object && v->Object_0.len() == 1 && v->Object_0[0].1 is Null && exists|x: BackgroundLayoutLayerVisibility| x.spec_name() == v->Object_0[0].0)
    }

    open spec fn decodes(v: Json, x: Self) -> bool {
        ||| v == Json::Str(x.spec_name())
        ||| (v is Object && v->Object_0.len() == 1 && v->Object_0[0] == (x.spec_name(), Json::Null))
    }

    open spec fn rejection(v: Json) -> Seq<char> {
        if v is Str {
            unknown_variant(v->Str_0) + ", expected `none` or `visible`"@
        } else if v is Object {
            let o = v->Object_0;
            if o.len() != 1 {
                "invalid value: map, expected map with a single key"@
            } else if !(exists|x: BackgroundLayoutLayerVisibility| x.spec_name() == o[0].0) {
                unknown_variant(o[0].0) + ", expected `none` or `visible`"@
            } else {
                type_error(o[0].1, "unit"@)
            }
        } else {
            type_error(v, "string or map"@)
        }
    }

    fn decode(v: &JsonValue) -> (r: Result<Self, String>) {
        match v {
            JsonValue::String(s) => match Self::from_name(s.as_str()) {
                Some(x) => Ok(x),
                None => {
                    let mut m = make_unknown_variant(s.as_str());
                    m.append(", expected `none` or `visible`");
                    Err(m)
                },
            },
            JsonValue::Object(fields) => {
                if fields.len() != 1 {
                    return Err("invalid value: map, expected map with a single key".to_string());
                }
                proof {
                    assert(entries_model(*fields)[0] == (fields@[0].0@, fields@[0].1.model()));
                }
                match Self::from_name(fields[0].0.as_str()) {
                    Some(x) => match &fields[0].1 {
                        JsonValue::Null => Ok(x),
                        _ => Err(make_type_error(&fields[0].1, "unit")),
                    },
                    None => {
                        let mut m = make_unknown_variant(fields[0].0.as_str());
                        m.append(", expected `none` or `visible`");
                        Err(m)
                    },
                }
            },
            _ => Err(make_type_error(v, "string or map")),
        }
    }
}

impl JsonEncode for BackgroundLayoutLayerVisibility {
    open spec fn to_json(self) -> Json {
        Json::Str(self.spec_name())
    }

    open spec fn round_trips(self) -> bool {
        true
    }

    fn encode(&self) -> (r: JsonValue) {
        JsonValue::String(self.name().to_string())
    }

    proof fn lemma_round_trip(self) {
    }
}

impl Default for BackgroundLayoutLayerVisibility {
    fn default() -> (r: Self)
        ensures
            r == BackgroundLayoutLayerVisibility::Visible,
    {
        BackgroundLayoutLayerVisibility::Visible
    }
}

#[derive(PartialEq, Debug, Clone)]
pub struct BackgroundPaintLayer {
    /// The color with which the background will be drawn.
    pub background_color: Option<BackgroundPaintLayerBackgroundColor>,
    /// The opacity at which the background will be drawn.
    pub background_opacity: Option<BackgroundPaintLayerBackgroundOpacity>,
    /// Name of image in sprite to use for drawing an image background. For seamless patterns, image width and height must be a factor of two (2, 4, 8, ..., 512). Note that zoom-dependent expressions will be evaluated only at integer zoom levels.
    pub background_pattern: Option<BackgroundPaintLayerBackgroundPattern>,
}

impl JsonDecode for BackgroundPaintLayer {
    /// An object with the fields by their keys, or an array with the fields in order.
    open spec fn accepts(v: Json) -> bool {
        ||| (v is Object && {
            let o = v->Object_0;
            &&& opt_field_accepts::<BackgroundPaintLayerBackgroundColor>(o, "background-color"@)
            &&& opt_field_accepts::<BackgroundPaintLayerBackgroundOpacity>(o, "background-opacity"@)
            &&& opt_field_accepts::<BackgroundPaintLayerBackgroundPattern>(o, "background-pattern"@)
        })
        ||| (v is Array && {
            let a = v->Array_0;
            &&& seq_opt_accepts::<BackgroundPaintLayerBackgroundColor>(a, 0, true)
            &&& seq_opt_accepts::<BackgroundPaintLayerBackgroundOpacity>(a, 1, true)
            &&& seq_opt_accepts::<BackgroundPaintLayerBackgroundPattern>(a, 2, true)
            &&& a.len() <= 3
        })
    }

    open spec fn decodes(v: Json, x: Self) -> bool {
        ||| (v is Object && {
            let o = v->Object_0;
            &&& opt_field_decodes::<BackgroundPaintLayerBackgroundColor>(o, "background-color"@, x.background_color)
            &&& opt_field_decodes::<BackgroundPaintLayerBackgroundOpacity>(o, "background-opacity"@, x.background_opacity)
            &&& opt_field_decodes::<BackgroundPaintLayerBackgroundPattern>(o, "background-pattern"@, x.background_pattern)
        })
        ||| (v is Array && {
            let a = v->Array_0;
            &&& seq_opt_decodes::<BackgroundPaintLayerBackgroundColor>(a, 0, x.background_color)
            &&& seq_opt_decodes::<BackgroundPaintLayerBackgroundOpacity>(a, 1, x.background_opacity)
            &&& seq_opt_decodes::<BackgroundPaintLayerBackgroundPattern>(a, 2, x.background_pattern)
        })
    }

    /// For an object, the first entry in order whose value does not read as its field, else the
    /// first required field that is missing.
    open spec fn rejection(v: Json) -> Seq<char> {
        if v is Object {
            let o = v->Object_0;
            match Self::first_fault(o, 0) {
                Some(m) => m,
                None => {
                    Seq::empty()
                },
            }
        } else if v is Array {
            let a = v->Array_0;
            if !seq_opt_accepts::<BackgroundPaintLayerBackgroundColor>(a, 0, true) {
                seq_opt_rejection::<BackgroundPaintLayerBackgroundColor>(a, 0, "struct BackgroundPaintLayer with 3 elements"@)
            } else if !seq_opt_accepts::<BackgroundPaintLayerBackgroundOpacity>(a, 1, true) {
                seq_opt_rejection::<BackgroundPaintLayerBackgroundOpacity>(a, 1, "struct BackgroundPaintLayer with 3 elements"@)
            } else if !seq_opt_accepts::<BackgroundPaintLayerBackgroundPattern>(a, 2, true) {
                seq_opt_rejection::<BackgroundPaintLayerBackgroundPattern>(a, 2, "struct BackgroundPaintLayer with 3 elements"@)
            } else if a.len() > 3 {
                length_error(a.len())
            } else {
                Seq::empty()
            }
        } else {
            type_error(v, "struct BackgroundPaintLayer"@)
        }
    }

    fn decode(v: &JsonValue) -> (r: Result<Self, String>) {
        match v {
            JsonValue::Object(fields) => {
                let background_color = match decode_opt_field::<BackgroundPaintLayerBackgroundColor>(fields, "background-color") {
                    Ok(x) => x,
                    Err(_) => return Err(Self::object_rejection(fields)),
                };
                let background_opacity = match decode_opt_field::<BackgroundPaintLayerBackgroundOpacity>(fields, "background-opacity") {
                    Ok(x) => x,
                    Err(_) => return Err(Self::object_rejection(fields)),
                };
                let background_pattern = match decode_opt_field::<BackgroundPaintLayerBackgroundPattern>(fields, "background-pattern") {
                    Ok(x) => x,
                    Err(_) => return Err(Self::object_rejection(fields)),
                };
                Ok(BackgroundPaintLayer { background_color, background_opacity, background_pattern })
            },
            JsonValue::Array(a) => {
                let background_color = match decode_seq_opt::<BackgroundPaintLayerBackgroundColor>(a, 0, true, "struct BackgroundPaintLayer with 3 elements") {
                    Ok(x) => x,
                    Err(e) => return Err(e),
                };
                let background_opacity = match decode_seq_opt::<BackgroundPaintLayerBackgroundOpacity>(a, 1, true, "struct BackgroundPaintLayer with 3 elements") {
                    Ok(x) => x,
                    Err(e) => return Err(e),
                };
                let background_pattern = match decode_seq_opt::<BackgroundPaintLayerBackgroundPattern>(a, 2, true, "struct BackgroundPaintLayer with 3 elements") {
                    Ok(x) => x,
                    Err(e) => return Err(e),
                };
                if a.len() > 3 {
                    return Err(make_length_error(a.len()));
                }
                Ok(BackgroundPaintLayer { background_color, background_opacity, background_pattern })
            },
            _ => Err(make_type_error(v, "struct BackgroundPaintLayer")),
        }
    }
}

impl BackgroundPaintLayer {
    /// What is wrong with the value `w` of an entry with key `k`, where `k` is the key of a field.
    pub open spec fn field_fault(k: Seq<char>, w: Json) -> Option<Seq<char>> {
        if k == "background-color"@ {
            if w is Null || BackgroundPaintLayerBackgroundColor::accepts(w) {
                None
            } else {
                Some(BackgroundPaintLayerBackgroundColor::rejection(w))
            }
        } else if k == "background-opacity"@ {
            if w is Null || BackgroundPaintLayerBackgroundOpacity::accepts(w) {
                None
            } else {
                Some(BackgroundPaintLayerBackgroundOpacity::rejection(w))
            }
        } else if k == "background-pattern"@ {
            if w is Null || BackgroundPaintLayerBackgroundPattern::accepts(w) {
                None
            } else {
                Some(BackgroundPaintLayerBackgroundPattern::rejection(w))
            }
        } else {
            None
        }
    }

    /// The message of the first entry of `o`, from entry `i` on and among the first entries of
    /// their keys, whose value does not read as its field, if any.
    pub open spec fn first_fault(o: Seq<(Seq<char>, Json)>, i: int) -> Option<Seq<char>>
        decreases o.len() - i,
    {
        if i < 0 || i >= o.len() {
            None
        } else if first_with_key(o, i) && Self::field_fault(o[i].0, o[i].1) is Some {
            Self::field_fault(o[i].0, o[i].1)
        } else {
            Self::first_fault(o, i + 1)
        }
    }

    fn find_field_fault(k: &str, w: &JsonValue) -> (r: Option<String>)
        ensures
            match r {
                Some(m) => Self::field_fault(k@, w.model()) == Some(m@),
                None => Self::field_fault(k@, w.model()) is None,
            },
    {
        if str_eq(k, "background-color") {
            match w {
                JsonValue::Null => None,
                _ => match BackgroundPaintLayerBackgroundColor::decode(w) {
                    Ok(_) => None,
                    Err(e) => Some(e),
                },
            }
        } else if str_eq(k, "background-opacity") {
            match w {
                JsonValue::Null => None,
                _ => match BackgroundPaintLayerBackgroundOpacity::decode(w) {
                    Ok(_) => None,
                    Err(e) => Some(e),
                },
            }
        } else if str_eq(k, "background-pattern") {
            match w {
                JsonValue::Null => None,
                _ => match BackgroundPaintLayerBackgroundPattern::decode(w) {
                    Ok(_) => None,
                    Err(e) => Some(e),
                },
            }
        } else {
            None
        }
    }

    fn object_rejection(fields: &Vec<(String, JsonValue)>) -> (r: String)
        ensures
            r@ == Self::rejection(JsonValue::Object(*fields).model()),
    {
        let ghost o = entries_model(*fields);
        let mut i: usize = 0;
        while i < fields.len()
            invariant
                o == entries_model(*fields),
                o.len() == fields.len(),
                i <= fields.len(),
                Self::first_fault(o, 0) == Self::first_fault(o, i as int),
            decreases fields.len() - i,
        {
            proof {
                assert(o[i as int] == (fields@[i as int].0@, fields@[i as int].1.model()));
            }
            if !key_seen_before(fields, i) {
                match Self::find_field_fault(fields[i].0.as_str(), &fields[i].1) {
                    Some(m) => {
                        return m;
                    },
                    None => {},
                }
            }
            i += 1;
        }
        String::new()
    }
}

impl BackgroundPaintLayer {
    /// The keys of the fields, in order.
    pub open spec fn field_keys() -> Seq<Seq<char>> {
        seq!["background-color"@, "background-opacity"@, "background-pattern"@]
    }

    /// The entries that each field is written as, in order.
    pub open spec fn field_entries(self) -> Seq<Seq<(Seq<char>, Json)>> {
        seq![opt_entry::<BackgroundPaintLayerBackgroundColor>("background-color"@, self.background_color), opt_entry::<BackgroundPaintLayerBackgroundOpacity>("background-opacity"@, self.background_opacity), opt_entry::<BackgroundPaintLayerBackgroundPattern>("background-pattern"@, self.background_pattern)]
    }

    proof fn lemma_keys_differ(i: int)
        requires
            0 <= i < 3,
        ensures
            others_differ(Self::field_keys(), i),
    {
        reveal_strlit("background-color");
        assert("background-color"@.len() == 16);
        reveal_strlit("background-opacity");
        assert("background-opacity"@.len() == 18);
        reveal_strlit("background-pattern");
        assert("background-pattern"@.len() == 18);
        assert("background-opacity"@[11] != "background-pattern"@[11]);
    }
}

impl JsonEncode for BackgroundPaintLayer {
    open spec fn to_json(self) -> Json {
        Json::Object(self.field_entries().flatten())
    }

    open spec fn round_trips(self) -> bool {
        &&& (self.background_color matches Some(t) ==> t.round_trips() && !(t.to_json() is Null))
        &&& (self.background_opacity matches Some(t) ==> t.round_trips() && !(t.to_json() is Null))
        &&& (self.background_pattern matches Some(t) ==> t.round_trips() && !(t.to_json() is Null))
    }

    fn encode(&self) -> (r: JsonValue) {
        let mut out: Vec<(String, JsonValue)> = Vec::new();
        let ghost s0 = Seq::<Seq<(Seq<char>, Json)>>::empty();
        proof {
            assert(entries_model(out) =~= s0.flatten());
        }
        push_opt_entry::<BackgroundPaintLayerBackgroundColor>(&mut out, "background-color", &self.background_color);
        let ghost s1 = s0.push(opt_entry::<BackgroundPaintLayerBackgroundColor>("background-color"@, self.background_color));
        proof {
            s0.lemma_flatten_push(opt_entry::<BackgroundPaintLayerBackgroundColor>("background-color"@, self.background_color));
            assert(entries_model(out) =~= s1.flatten());
        }
        push_opt_entry::<BackgroundPaintLayerBackgroundOpacity>(&mut out, "background-opacity", &self.background_opacity);
        let ghost s2 = s1.push(opt_entry::<BackgroundPaintLayerBackgroundOpacity>("background-opacity"@, self.background_opacity));
        proof {
            s1.lemma_flatten_push(opt_entry::<BackgroundPaintLayerBackgroundOpacity>("background-opacity"@, self.background_opacity));
            assert(entries_model(out) =~= s2.flatten());
        }
        push_opt_entry::<BackgroundPaintLayerBackgroundPattern>(&mut out, "background-pattern", &self.background_pattern);
        let ghost s3 = s2.push(opt_entry::<BackgroundPaintLayerBackgroundPattern>("background-pattern"@, self.background_pattern));
        proof {
            s2.lemma_flatten_push(opt_entry::<BackgroundPaintLayerBackgroundPattern>("background-pattern"@, self.background_pattern));
            assert(entries_model(out) =~= s3.flatten());
        }
        proof {
            assert(self.field_entries() == s3);
        }
        JsonValue::Object(out)
    }

    proof fn lemma_round_trip(self) {
        let keys = Self::field_keys();
        let es = self.field_entries();
        assert(keyed_by(es, keys));
        Self::lemma_keys_differ(0);
        lemma_lookup_flatten(es, keys, 0);
        lemma_lookup_opt_entry::<BackgroundPaintLayerBackgroundColor>("background-color"@, self.background_color, "background-color"@);
        if self.background_color is Some {
            self.background_color->0.lemma_round_trip();
        }
        Self::lemma_keys_differ(1);
        lemma_lookup_flatten(es, keys, 1);
        lemma_lookup_opt_entry::<BackgroundPaintLayerBackgroundOpacity>("background-opacity"@, self.background_opacity, "background-opacity"@);
        if self.background_opacity is Some {
            self.background_opacity->0.lemma_round_trip();
        }
        Self::lemma_keys_differ(2);
        lemma_lookup_flatten(es, keys, 2);
        lemma_lookup_opt_entry::<BackgroundPaintLayerBackgroundPattern>("background-pattern"@, self.background_pattern, "background-pattern"@);
        if self.background_pattern is Some {
            self.background_pattern->0.lemma_round_trip();
        }
    }
}

/// Nested expression: ramp (`interpolate-hcl`, …) or [`Color`] operators.
#[derive(PartialEq, Debug, Clone)]
pub enum BackgroundPaintLayerBackgroundColorExpression {
    Color(Color),
    Ramp(ColorOrArrayOfColor),
}

impl JsonDecode for BackgroundPaintLayerBackgroundColorExpression {
    open spec fn accepts(v: Json) -> bool {
        Color::accepts(v) || ColorOrArrayOfColor::accepts(v)
    }

    open spec fn decodes(v: Json, x: Self) -> bool {
        match x {
            BackgroundPaintLayerBackgroundColorExpression::Color(t) => Color::accepts(v) && Color::decodes(v, t),
            BackgroundPaintLayerBackgroundColorExpression::Ramp(t) => !Color::accepts(v) && ColorOrArrayOfColor::accepts(v) && ColorOrArrayOfColor::decodes(v, t),
        }
    }

    open spec fn rejection(v: Json) -> Seq<char> {
        "BackgroundPaintLayerBackgroundColorExpression: no variant matched. Expected Color(Color) | Ramp(ColorOrArrayOfColor). Errors: ["@ + "Color: "@ + Color::rejection(v) + "; Ramp: "@ + ColorOrArrayOfColor::rejection(v) + "]"@
    }

    fn decode(v: &JsonValue) -> (r: Result<Self, String>) {
        let e0 = match Color::decode(v) {
            Ok(x) => {
                return Ok(BackgroundPaintLayerBackgroundColorExpression::Color(x));
            },
            Err(e) => e,
        };
        let e1 = match ColorOrArrayOfColor::decode(v) {
            Ok(x) => {
                return Ok(BackgroundPaintLayerBackgroundColorExpression::Ramp(x));
            },
            Err(e) => e,
        };
        let mut m = "BackgroundPaintLayerBackgroundColorExpression: no variant matched. Expected Color(Color) | Ramp(ColorOrArrayOfColor). Errors: [".to_string();
        m.append("Color: ");
        m.append(e0.as_str());
        m.append("; Ramp: ");
        m.append(e1.as_str());
        m.append("]");
        Err(m)
    }
}

impl JsonEncode for BackgroundPaintLayerBackgroundColorExpression {
    open spec fn to_json(self) -> Json {
        match self {
            BackgroundPaintLayerBackgroundColorExpression::Color(t) => Color::to_json(t),
            BackgroundPaintLayerBackgroundColorExpression::Ramp(t) => ColorOrArrayOfColor::to_json(t),
        }
    }

    open spec fn round_trips(self) -> bool {
        match self {
            BackgroundPaintLayerBackgroundColorExpression::Color(t) => Color::round_trips(t),
            BackgroundPaintLayerBackgroundColorExpression::Ramp(t) => ColorOrArrayOfColor::round_trips(t) && !Color::accepts(ColorOrArrayOfColor::to_json(t)),
        }
    }

    fn encode(&self) -> (r: JsonValue) {
        match self {
            BackgroundPaintLayerBackgroundColorExpression::Color(t) => Color::encode(t),
            BackgroundPaintLayerBackgroundColorExpression::Ramp(t) => ColorOrArrayOfColor::encode(t),
        }
    }

    proof fn lemma_round_trip(self) {
        match self {
            BackgroundPaintLayerBackgroundColorExpression::Color(t) => Color::lemma_round_trip(t),
            BackgroundPaintLayerBackgroundColorExpression::Ramp(t) => ColorOrArrayOfColor::lemma_round_trip(t),
        }
    }
}

/// The color with which the background will be drawn.
#[derive(PartialEq, Debug, Clone)]
pub enum BackgroundPaintLayerBackgroundColor {
    Expr(Box<BackgroundPaintLayerBackgroundColorExpression>),
    Literal(JsonValue),
}

impl JsonDecode for BackgroundPaintLayerBackgroundColor {
    open spec fn accepts(v: Json) -> bool {
        BackgroundPaintLayerBackgroundColorExpression::accepts(v) || JsonValue::accepts(v)
    }

    open spec fn decodes(v: Json, x: Self) -> bool {
        match x {
            BackgroundPaintLayerBackgroundColor::Expr(t) => BackgroundPaintLayerBackgroundColorExpression::accepts(v) && BackgroundPaintLayerBackgroundColorExpression::decodes(v, *t),
            BackgroundPaintLayerBackgroundColor::Literal(t) => !BackgroundPaintLayerBackgroundColorExpression::accepts(v) && JsonValue::accepts(v) && JsonValue::decodes(v, t),
        }
    }

    open spec fn rejection(v: Json) -> Seq<char> {
        "BackgroundPaintLayerBackgroundColor: no variant matched. Expected Expr(BackgroundPaintLayerBackgroundColorExpression) | Literal(serde_json::Value). Errors: ["@ + "Expr: "@ + BackgroundPaintLayerBackgroundColorExpression::rejection(v) + "; Literal: "@ + JsonValue::rejection(v) + "]"@
    }

    fn decode(v: &JsonValue) -> (r: Result<Self, String>) {
        let e0 = match BackgroundPaintLayerBackgroundColorExpression::decode(v) {
            Ok(x) => {
                return Ok(BackgroundPaintLayerBackgroundColor::Expr(Box::new(x)));
            },
            Err(e) => e,
        };
        let e1 = match JsonValue::decode(v) {
            Ok(x) => {
                return Ok(BackgroundPaintLayerBackgroundColor::Literal(x));
            },
            Err(e) => e,
        };
        let mut m = "BackgroundPaintLayerBackgroundColor: no variant matched. Expected Expr(BackgroundPaintLayerBackgroundColorExpression) | Literal(serde_json::Value). Errors: [".to_string();
        m.append("Expr: ");
        m.append(e0.as_str());
        m.append("; Literal: ");
        m.append(e1.as_str());
        m.append("]");
        Err(m)
    }
}

impl JsonEncode for BackgroundPaintLayerBackgroundColor {
    open spec fn to_json(self) -> Json {
        match self {
            BackgroundPaintLayerBackgroundColor::Expr(t) => BackgroundPaintLayerBackgroundColorExpression::to_json(*t),
            BackgroundPaintLayerBackgroundColor::Literal(t) => JsonValue::to_json(t),
        }
    }

    open spec fn round_trips(self) -> bool {
        match self {
            BackgroundPaintLayerBackgroundColor::Expr(t) => BackgroundPaintLayerBackgroundColorExpression::round_trips(*t),
            BackgroundPaintLayerBackgroundColor::Literal(t) => JsonValue::round_trips(t) && !BackgroundPaintLayerBackgroundColorExpression::accepts(JsonValue::to_json(t)),
        }
    }

    fn encode(&self) -> (r: JsonValue) {
        match self {
            BackgroundPaintLayerBackgroundColor::Expr(t) => BackgroundPaintLayerBackgroundColorExpression::encode(&**t),
            BackgroundPaintLayerBackgroundColor::Literal(t) => JsonValue::encode(t),
        }
    }

    proof fn lemma_round_trip(self) {
        match self {
            BackgroundPaintLayerBackgroundColor::Expr(t) => BackgroundPaintLayerBackgroundColorExpression::lemma_round_trip(*t),
            BackgroundPaintLayerBackgroundColor::Literal(t) => JsonValue::lemma_round_trip(t),
        }
    }
}

impl Default for BackgroundPaintLayerBackgroundColor {
    fn default() -> (r: Self)
        ensures
            r.to_json() == Json::Str("#000000"@),
            r is Literal,
    {
        let r = BackgroundPaintLayerBackgroundColor::Literal(JsonValue::String("#000000".to_string()));
        r
    }
}

/// Nested expression: ramp (`interpolate` / …) or regular [`Number`] operators.
#[derive(PartialEq, Debug, Clone)]
pub enum BackgroundPaintLayerBackgroundOpacityExpression {
    Number(Number),
    Ramp(NumberOrArrayOfNumberOrColorOrArrayOfColorOrProjection),
}

impl JsonDecode for BackgroundPaintLayerBackgroundOpacityExpression {
    open spec fn accepts(v: Json) -> bool {
        Number::accepts(v) || NumberOrArrayOfNumberOrColorOrArrayOfColorOrProjection::accepts(v)
    }

    open spec fn decodes(v: Json, x: Self) -> bool {
        match x {
            BackgroundPaintLayerBackgroundOpacityExpression::Number(t) => Number::accepts(v) && Number::decodes(v, t),
            BackgroundPaintLayerBackgroundOpacityExpression::Ramp(t) => !Number::accepts(v) && NumberOrArrayOfNumberOrColorOrArrayOfColorOrProjection::accepts(v) && NumberOrArrayOfNumberOrColorOrArrayOfColorOrProjection::decodes(v, t),
        }
    }

    open spec fn rejection(v: Json) -> Seq<char> {
        "BackgroundPaintLayerBackgroundOpacityExpression: no variant matched. Expected Number(Number) | Ramp(NumberOrArrayOfNumberOrColorOrArrayOfColorOrProjection). Errors: ["@ + "Number: "@ + Number::rejection(v) + "; Ramp: "@ + NumberOrArrayOfNumberOrColorOrArrayOfColorOrProjection::rejection(v) + "]"@
    }

    fn decode(v: &JsonValue) -> (r: Result<Self, String>) {
        let e0 = match Number::decode(v) {
            Ok(x) => {
                return Ok(BackgroundPaintLayerBackgroundOpacityExpression::Number(x));
            },
            Err(e) => e,
        };
        let e1 = match NumberOrArrayOfNumberOrColorOrArrayOfColorOrProjection::decode(v) {
            Ok(x) => {
                return Ok(BackgroundPaintLayerBackgroundOpacityExpression::Ramp(x));
            },
            Err(e) => e,
        };
        let mut m = "BackgroundPaintLayerBackgroundOpacityExpression: no variant matched. Expected Number(Number) | Ramp(NumberOrArrayOfNumberOrColorOrArrayOfColorOrProjection). Errors: [".to_string();
        m.append("Number: ");
        m.append(e0.as_str());
        m.append("; Ramp: ");
        m.append(e1.as_str());
        m.append("]");
        Err(m)
    }
}

impl JsonEncode for BackgroundPaintLayerBackgroundOpacityExpression {
    open spec fn to_json(self) -> Json {
        match self {
            BackgroundPaintLayerBackgroundOpacityExpression::Number(t) => Number::to_json(t),
            BackgroundPaintLayerBackgroundOpacityExpression::Ramp(t) => NumberOrArrayOfNumberOrColorOrArrayOfColorOrProjection::to_json(t),
        }
    }

    open spec fn round_trips(self) -> bool {
        match self {
            BackgroundPaintLayerBackgroundOpacityExpression::Number(t) => Number::round_trips(t),
            BackgroundPaintLayerBackgroundOpacityExpression::Ramp(t) => NumberOrArrayOfNumberOrColorOrArrayOfColorOrProjection::round_trips(t) && !Number::accepts(NumberOrArrayOfNumberOrColorOrArrayOfColorOrProjection::to_json(t)),
        }
    }

    fn encode(&self) -> (r: JsonValue) {
        match self {
            BackgroundPaintLayerBackgroundOpacityExpression::Number(t) => Number::encode(t),
            BackgroundPaintLayerBackgroundOpacityExpression::Ramp(t) => NumberOrArrayOfNumberOrColorOrArrayOfColorOrProjection::encode(t),
        }
    }

    proof fn lemma_round_trip(self) {
        match self {
            BackgroundPaintLayerBackgroundOpacityExpression::Number(t) => Number::lemma_round_trip(t),
            BackgroundPaintLayerBackgroundOpacityExpression::Ramp(t) => NumberOrArrayOfNumberOrColorOrArrayOfColorOrProjection::lemma_round_trip(t),
        }
    }
}

/// The opacity at which the background will be drawn.
#[derive(PartialEq, Debug, Clone)]
pub enum BackgroundPaintLayerBackgroundOpacity {
    Expr(Box<BackgroundPaintLayerBackgroundOpacityExpression>),
    Literal(JsonNumber),
}

impl JsonDecode for BackgroundPaintLayerBackgroundOpacity {
    open spec fn accepts(v: Json) -> bool {
        BackgroundPaintLayerBackgroundOpacityExpression::accepts(v) || JsonNumber::accepts(v)
    }

    open spec fn decodes(v: Json, x: Self) -> bool {
        match x {
            BackgroundPaintLayerBackgroundOpacity::Expr(t) => BackgroundPaintLayerBackgroundOpacityExpression::accepts(v) && BackgroundPaintLayerBackgroundOpacityExpression::decodes(v, *t),
            BackgroundPaintLayerBackgroundOpacity::Literal(t) => !BackgroundPaintLayerBackgroundOpacityExpression::accepts(v) && JsonNumber::accepts(v) && JsonNumber::decodes(v, t),
        }
    }

    open spec fn rejection(v: Json) -> Seq<char> {
        "BackgroundPaintLayerBackgroundOpacity: no variant matched. Expected Expr(BackgroundPaintLayerBackgroundOpacityExpression) | Literal(serde_json::Number). Errors: ["@ + "Expr: "@ + BackgroundPaintLayerBackgroundOpacityExpression::rejection(v) + "; Literal: "@ + JsonNumber::rejection(v) + "]"@
    }

    fn decode(v: &JsonValue) -> (r: Result<Self, String>) {
        let e0 = match BackgroundPaintLayerBackgroundOpacityExpression::decode(v) {
            Ok(x) => {
                return Ok(BackgroundPaintLayerBackgroundOpacity::Expr(Box::new(x)));
            },
            Err(e) => e,
        };
        let e1 = match JsonNumber::decode(v) {
            Ok(x) => {
                return Ok(BackgroundPaintLayerBackgroundOpacity::Literal(x));
            },
            Err(e) => e,
        };
        let mut m = "BackgroundPaintLayerBackgroundOpacity: no variant matched. Expected Expr(BackgroundPaintLayerBackgroundOpacityExpression) | Literal(serde_json::Number). Errors: [".to_string();
        m.append("Expr: ");
        m.append(e0.as_str());
        m.append("; Literal: ");
        m.append(e1.as_str());
        m.append("]");
        Err(m)
    }
}

impl JsonEncode for BackgroundPaintLayerBackgroundOpacity {
    open spec fn to_json(self) -> Json {
        match self {
            BackgroundPaintLayerBackgroundOpacity::Expr(t) => BackgroundPaintLayerBackgroundOpacityExpression::to_json(*t),
            BackgroundPaintLayerBackgroundOpacity::Literal(t) => JsonNumber::to_json(t),
        }
    }

    open spec fn round_trips(self) -> bool {
        match self {
            BackgroundPaintLayerBackgroundOpacity::Expr(t) => BackgroundPaintLayerBackgroundOpacityExpression::round_trips(*t),
            BackgroundPaintLayerBackgroundOpacity::Literal(t) => JsonNumber::round_trips(t) && !BackgroundPaintLayerBackgroundOpacityExpression::accepts(JsonNumber::to_json(t)),
        }
    }

    fn encode(&self) -> (r: JsonValue) {
        match self {
            BackgroundPaintLayerBackgroundOpacity::Expr(t) => BackgroundPaintLayerBackgroundOpacityExpression::encode(&**t),
            BackgroundPaintLayerBackgroundOpacity::Literal(t) => JsonNumber::encode(t),
        }
    }

    proof fn lemma_round_trip(self) {
        match self {
            BackgroundPaintLayerBackgroundOpacity::Expr(t) => BackgroundPaintLayerBackgroundOpacityExpression::lemma_round_trip(*t),
            BackgroundPaintLayerBackgroundOpacity::Literal(t) => JsonNumber::lemma_round_trip(t),
        }
    }
}

impl Default for BackgroundPaintLayerBackgroundOpacity {
    fn default() -> (r: Self)
        ensures
            r.to_json() == Json::Number("1"@),
            r is Literal,
    {
        let r = BackgroundPaintLayerBackgroundOpacity::Literal(JsonNumber::from_literal("1"));
        r
    }
}

/// Name of image in sprite to use for drawing an image background. For seamless patterns, image width and height must be a factor of two (2, 4, 8, ..., 512). Note that zoom-dependent expressions will be evaluated only at integer zoom levels.
#[derive(PartialEq, Eq, Debug, Clone)]
pub struct BackgroundPaintLayerBackgroundPattern(String);

impl View for BackgroundPaintLayerBackgroundPattern {
    type V = Seq<char>;

    closed spec fn view(&self) -> Seq<char> {
        self.0@
    }
}

impl JsonDecode for BackgroundPaintLayerBackgroundPattern {
    open spec fn accepts(v: Json) -> bool {
        v is Str
    }

    open spec fn decodes(v: Json, x: Self) -> bool {
        v == Json::Str(x@)
    }

    open spec fn rejection(v: Json) -> Seq<char> {
        String::rejection(v)
    }

    fn decode(v: &JsonValue) -> (r: Result<Self, String>) {
        match String::decode(v) {
            Ok(x) => Ok(BackgroundPaintLayerBackgroundPattern(x)),
            Err(e) => Err(e),
        }
    }
}

impl JsonEncode for BackgroundPaintLayerBackgroundPattern {
    open spec fn to_json(self) -> Json {
        Json::Str(self@)
    }

    open spec fn round_trips(self) -> bool {
        true
    }

    fn encode(&self) -> (r: JsonValue) {
        String::encode(&self.0)
    }

    proof fn lemma_round_trip(self) {
        String::lemma_round_trip(self.0);
    }
}

#[derive(PartialEq, Debug, Clone)]
pub struct CircleLayoutLayer {
    /// Sorts features in ascending order based on this value. Features with a higher sort key will appear above features with a lower sort key.
    pub circle_sort_key: Option<CircleLayoutLayerCircleSortKey>,
    /// Whether this layer is displayed.
    pub visibility: Option<CircleLayoutLayerVisibility>,
}

impl JsonDecode for CircleLayoutLayer {
    /// An object with the fields by their keys, or an array with the fields in order.
    open spec fn accepts(v: Json) -> bool {
        ||| (v is Object && {
            let o = v->Object_0;
            &&& opt_field_accepts::<CircleLayoutLayerCircleSortKey>(o, "circle-sort-key"@)
            &&& opt_field_accepts::<CircleLayoutLayerVisibility>(o, "visibility"@)
        })
        ||| (v is Array && {
            let a = v->Array_0;
            &&& seq_opt_accepts::<CircleLayoutLayerCircleSortKey>(a, 0, true)
            &&& seq_opt_accepts::<CircleLayoutLayerVisibility>(a, 1, true)
            &&& a.len() <= 2
        })
    }

    open spec fn decodes(v: Json, x: Self) -> bool {
        ||| (v is Object && {
            let o = v->Object_0;
            &&& opt_field_decodes::<CircleLayoutLayerCircleSortKey>(o, "circle-sort-key"@, x.circle_sort_key)
            &&& opt_field_decodes::<CircleLayoutLayerVisibility>(o, "visibility"@, x.visibility)
        })
        ||| (v is Array && {
            let a = v->Array_0;
            &&& seq_opt_decodes::<CircleLayoutLayerCircleSortKey>(a, 0, x.circle_sort_key)
            &&& seq_opt_decodes::<CircleLayoutLayerVisibility>(a, 1, x.visibility)
        })
    }

    /// For an object, the first entry in order whose value does not read as its field, else the
    /// first required field that is missing.
    open spec fn rejection(v: Json) -> Seq<char> {
        if v is Object {
            let o = v->Object_0;
            match Self::first_fault(o, 0) {
                Some(m) => m,
                None => {
                    Seq::empty()
                },
            }
        } else if v is Array {
            let a = v->Array_0;
            if !seq_opt_accepts::<CircleLayoutLayerCircleSortKey>(a, 0, true) {
                seq_opt_rejection::<CircleLayoutLayerCircleSortKey>(a, 0, "struct CircleLayoutLayer with 2 elements"@)
            } else if !seq_opt_accepts::<CircleLayoutLayerVisibility>(a, 1, true) {
                seq_opt_rejection::<CircleLayoutLayerVisibility>(a, 1, "struct CircleLayoutLayer with 2 elements"@)
            } else if a.len() > 2 {
                length_error(a.len())
            } else {
                Seq::empty()
            }
        } else {
            type_error(v, "struct CircleLayoutLayer"@)
        }
    }

    fn decode(v: &JsonValue) -> (r: Result<Self, String>) {
        match v {
            JsonValue::Object(fields) => {
                let circle_sort_key = match decode_opt_field::<CircleLayoutLayerCircleSortKey>(fields, "circle-sort-key") {
                    Ok(x) => x,
                    Err(_) => return Err(Self::object_rejection(fields)),
                };
                let visibility = match decode_opt_field::<CircleLayoutLayerVisibility>(fields, "visibility") {
                    Ok(x) => x,
                    Err(_) => return Err(Self::object_rejection(fields)),
                };
                Ok(CircleLayoutLayer { circle_sort_key, visibility })
            },
            JsonValue::Array(a) => {
                let circle_sort_key = match decode_seq_opt::<CircleLayoutLayerCircleSortKey>(a, 0, true, "struct CircleLayoutLayer with 2 elements") {
                    Ok(x) => x,
                    Err(e) => return Err(e),
                };
                let visibility = match decode_seq_opt::<CircleLayoutLayerVisibility>(a, 1, true, "struct CircleLayoutLayer with 2 elements") {
                    Ok(x) => x,
                    Err(e) => return Err(e),
                };
                if a.len() > 2 {
                    return Err(make_length_error(a.len()));
                }
                Ok(CircleLayoutLayer { circle_sort_key, visibility })
            },
            _ => Err(make_type_error(v, "struct CircleLayoutLayer")),
        }
    }
}

impl CircleLayoutLayer {
    /// What is wrong with the value `w` of an entry with key `k`, where `k` is the key of a field.
    pub open spec fn field_fault(k: Seq<char>, w: Json) -> Option<Seq<char>> {
        if k == "circle-sort-key"@ {
            if w is Null || CircleLayoutLayerCircleSortKey::accepts(w) {
                None
            } else {
                Some(CircleLayoutLayerCircleSortKey::rejection(w))
            }
        } else if k == "visibility"@ {
            if w is Null || CircleLayoutLayerVisibility::accepts(w) {
                None
            } else {
                Some(CircleLayoutLayerVisibility::rejection(w))
            }
        } else {
            None
        }
    }

    /// The message of the first entry of `o`, from entry `i` on and among the first entries of
    /// their keys, whose value does not read as its field, if any.
    pub open spec fn first_fault(o: Seq<(Seq<char>, Json)>, i: int) -> Option<Seq<char>>
        decreases o.len() - i,
    {
        if i < 0 || i >= o.len() {
            None
        } else if first_with_key(o, i) && Self::field_fault(o[i].0, o[i].1) is Some {
            Self::field_fault(o[i].0, o[i].1)
        } else {
            Self::first_fault(o, i + 1)
        }
    }

    fn find_field_fault(k: &str, w: &JsonValue) -> (r: Option<String>)
        ensures
            match r {
                Some(m) => Self::field_fault(k@, w.model()) == Some(m@),
                None => Self::field_fault(k@, w.model()) is None,
            },
    {
        if str_eq(k, "circle-sort-key") {
            match w {
                JsonValue::Null => None,
                _ => match CircleLayoutLayerCircleSortKey::decode(w) {
                    Ok(_) => None,
                    Err(e) => Some(e),
                },
            }
        } else if str_eq(k, "visibility") {
            match w {
                JsonValue::Null => None,
                _ => match CircleLayoutLayerVisibility::decode(w) {
                    Ok(_) => None,
                    Err(e) => Some(e),
                },
            }
        } else {
            None
        }
    }

    fn object_rejection(fields: &Vec<(String, JsonValue)>) -> (r: String)
        ensures
            r@ == Self::rejection(JsonValue::Object(*fields).model()),
    {
        let ghost o = entries_model(*fields);
        let mut i: usize = 0;
        while i < fields.len()
            invariant
                o == entries_model(*fields),
                o.len() == fields.len(),
                i <= fields.len(),
                Self::first_fault(o, 0) == Self::first_fault(o, i as int),
            decreases fields.len() - i,
        {
            proof {
                assert(o[i as int] == (fields@[i as int].0@, fields@[i as int].1.model()));
            }
            if !key_seen_before(fields, i) {
                match Self::find_field_fault(fields[i].0.as_str(), &fields[i].1) {
                    Some(m) => {
                        return m;
                    },
                    None => {},
                }
            }
            i += 1;
        }
        String::new()
    }
}

impl CircleLayoutLayer {
    /// The keys of the fields, in order.
    pub open spec fn field_keys() -> Seq<Seq<char>> {
        seq!["circle-sort-key"@, "visibility"@]
    }

    /// The entries that each field is written as, in order.
    pub open spec fn field_entries(self) -> Seq<Seq<(Seq<char>, Json)>> {
        seq![opt_entry::<CircleLayoutLayerCircleSortKey>("circle-sort-key"@, self.circle_sort_key), opt_entry::<CircleLayoutLayerVisibility>("visibility"@, self.visibility)]
    }

    proof fn lemma_keys_differ(i: int)
        requires
            0 <= i < 2,
        ensures
            others_differ(Self::field_keys(), i),
    {
        reveal_strlit("circle-sort-key");
        assert("circle-sort-key"@.len() == 15);
        reveal_strlit("visibility");
        assert("visibility"@.len() == 10);
    }
}

impl JsonEncode for CircleLayoutLayer {
    open spec fn to_json(self) -> Json {
        Json::Object(self.field_entries().flatten())
    }

    open spec fn round_trips(self) -> bool {
        &&& (self.circle_sort_key matches Some(t) ==> t.round_trips() && !(t.to_json() is Null))
        &&& (self.visibility matches Some(t) ==> t.round_trips() && !(t.to_json() is Null))
    }

    fn encode(&self) -> (r: JsonValue) {
        let mut out: Vec<(String, JsonValue)> = Vec::new();
        let ghost s0 = Seq::<Seq<(Seq<char>, Json)>>::empty();
        proof {
            assert(entries_model(out) =~= s0.flatten());
        }
        push_opt_entry::<CircleLayoutLayerCircleSortKey>(&mut out, "circle-sort-key", &self.circle_sort_key);
        let ghost s1 = s0.push(opt_entry::<CircleLayoutLayerCircleSortKey>("circle-sort-key"@, self.circle_sort_key));
        proof {
            s0.lemma_flatten_push(opt_entry::<CircleLayoutLayerCircleSortKey>("circle-sort-key"@, self.circle_sort_key));
            assert(entries_model(out) =~= s1.flatten());
        }
        push_opt_entry::<CircleLayoutLayerVisibility>(&mut out, "visibility", &self.visibility);
        let ghost s2 = s1.push(opt_entry::<CircleLayoutLayerVisibility>("visibility"@, self.visibility));
        proof {
            s1.lemma_flatten_push(opt_entry::<CircleLayoutLayerVisibility>("visibility"@, self.visibility));
            assert(entries_model(out) =~= s2.flatten());
        }
        proof {
            assert(self.field_entries() == s2);
        }
        JsonValue::Object(out)
    }

    proof fn lemma_round_trip(self) {
        let keys = Self::field_keys();
        let es = self.field_entries();
        assert(keyed_by(es, keys));
        Self::lemma_keys_differ(0);
        lemma_lookup_flatten(es, keys, 0);
        lemma_lookup_opt_entry::<CircleLayoutLayerCircleSortKey>("circle-sort-key"@, self.circle_sort_key, "circle-sort-key"@);
        if self.circle_sort_key is Some {
            self.circle_sort_key->0.lemma_round_trip();
        }
        Self::lemma_keys_differ(1);
        lemma_lookup_flatten(es, keys, 1);
        lemma_lookup_opt_entry::<CircleLayoutLayerVisibility>("visibility"@, self.visibility, "visibility"@);
        if self.visibility is Some {
            self.visibility->0.lemma_round_trip();
        }
    }
}

/// Nested expression: ramp (`interpolate` / …) or regular [`Number`] operators.
#[derive(PartialEq, Debug, Clone)]
pub enum CircleLayoutLayerCircleSortKeyExpression {
    Number(Number),
    Ramp(NumberOrArrayOfNumberOrColorOrArrayOfColorOrProjection),
}

impl JsonDecode for CircleLayoutLayerCircleSortKeyExpression {
    open spec fn accepts(v: Json) -> bool {
        Number::accepts(v) || NumberOrArrayOfNumberOrColorOrArrayOfColorOrProjection::accepts(v)
    }

    open spec fn decodes(v: Json, x: Self) -> bool {
        match x {
            CircleLayoutLayerCircleSortKeyExpression::Number(t) => Number::accepts(v) && Number::decodes(v, t),
            CircleLayoutLayerCircleSortKeyExpression::Ramp(t) => !Number::accepts(v) && NumberOrArrayOfNumberOrColorOrArrayOfColorOrProjection::accepts(v) && NumberOrArrayOfNumberOrColorOrArrayOfColorOrProjection::decodes(v, t),
        }
    }

    open spec fn rejection(v: Json) -> Seq<char> {
        "CircleLayoutLayerCircleSortKeyExpression: no variant matched. Expected Number(Number) | Ramp(NumberOrArrayOfNumberOrColorOrArrayOfColorOrProjection). Errors: ["@ + "Number: "@ + Number::rejection(v) + "; Ramp: "@ + NumberOrArrayOfNumberOrColorOrArrayOfColorOrProjection::rejection(v) + "]"@
    }

    fn decode(v: &JsonValue) -> (r: Result<Self, String>) {
        let e0 = match Number::decode(v) {
            Ok(x) => {
                return Ok(CircleLayoutLayerCircleSortKeyExpression::Number(x));
            },
            Err(e) => e,
        };
        let e1 = match NumberOrArrayOfNumberOrColorOrArrayOfColorOrProjection::decode(v) {
            Ok(x) => {
                return Ok(CircleLayoutLayerCircleSortKeyExpression::Ramp(x));
            },
            Err(e) => e,
        };
        let mut m = "CircleLayoutLayerCircleSortKeyExpression: no variant matched. Expected Number(Number) | Ramp(NumberOrArrayOfNumberOrColorOrArrayOfColorOrProjection). Errors: [".to_string();
        m.append("Number: ");
        m.append(e0.as_str());
        m.append("; Ramp: ");
        m.append(e1.as_str());
        m.append("]");
        Err(m)
    }
}

impl JsonEncode for CircleLayoutLayerCircleSortKeyExpression {
    open spec fn to_json(self) -> Json {
        match self {
            CircleLayoutLayerCircleSortKeyExpression::Number(t) => Number::to_json(t),
            CircleLayoutLayerCircleSortKeyExpression::Ramp(t) => NumberOrArrayOfNumberOrColorOrArrayOfColorOrProjection::to_json(t),
        }
    }

    open spec fn round_trips(self) -> bool {
        match self {
            CircleLayoutLayerCircleSortKeyExpression::Number(t) => Number::round_trips(t),
            CircleLayoutLayerCircleSortKeyExpression::Ramp(t) => NumberOrArrayOfNumberOrColorOrArrayOfColorOrProjection::round_trips(t) && !Number::accepts(NumberOrArrayOfNumberOrColorOrArrayOfColorOrProjection::to_json(t)),
        }
    }

    fn encode(&self) -> (r: JsonValue) {
        match self {
            CircleLayoutLayerCircleSortKeyExpression::Number(t) => Number::encode(t),
            CircleLayoutLayerCircleSortKeyExpression::Ramp(t) => NumberOrArrayOfNumberOrColorOrArrayOfColorOrProjection::encode(t),
        }
    }

    proof fn lemma_round_trip(self) {
        match self {
            CircleLayoutLayerCircleSortKeyExpression::Number(t) => Number::lemma_round_trip(t),
            CircleLayoutLayerCircleSortKeyExpression::Ramp(t) => NumberOrArrayOfNumberOrColorOrArrayOfColorOrProjection::lemma_round_trip(t),
        }
    }
}

/// Sorts features in ascending order based on this value. Features with a higher sort key will appear above features with a lower sort key.
#[derive(PartialEq, Debug, Clone)]
pub enum CircleLayoutLayerCircleSortKey {
    Expr(Box<CircleLayoutLayerCircleSortKeyExpression>),
    Literal(JsonNumber),
}

impl JsonDecode for CircleLayoutLayerCircleSortKey {
    open spec fn accepts(v: Json) -> bool {
        CircleLayoutLayerCircleSortKeyExpression::accepts(v) || JsonNumber::accepts(v)
    }

    open spec fn decodes(v: Json, x: Self) -> bool {
        match x {
            CircleLayoutLayerCircleSortKey::Expr(t) => CircleLayoutLayerCircleSortKeyExpression::accepts(v) && CircleLayoutLayerCircleSortKeyExpression::decodes(v, *t),
            CircleLayoutLayerCircleSortKey::Literal(t) => !CircleLayoutLayerCircleSortKeyExpression::accepts(v) && JsonNumber::accepts(v) && JsonNumber::decodes(v, t),
        }
    }

    open spec fn rejection(v: Json) -> Seq<char> {
        "CircleLayoutLayerCircleSortKey: no variant matched. Expected Expr(CircleLayoutLayerCircleSortKeyExpression) | Literal(serde_json::Number). Errors: ["@ + "Expr: "@ + CircleLayoutLayerCircleSortKeyExpression::rejection(v) + "; Literal: "@ + JsonNumber::rejection(v) + "]"@
    }

    fn decode(v: &JsonValue) -> (r: Result<Self, String>) {
        let e0 = match CircleLayoutLayerCircleSortKeyExpression::decode(v) {
            Ok(x) => {
                return Ok(CircleLayoutLayerCircleSortKey::Expr(Box::new(x)));
            },
            Err(e) => e,
        };
        let e1 = match JsonNumber::decode(v) {
            Ok(x) => {
                return Ok(CircleLayoutLayerCircleSortKey::Literal(x));
            },
            Err(e) => e,
        };
        let mut m = "CircleLayoutLayerCircleSortKey: no variant matched. Expected Expr(CircleLayoutLayerCircleSortKeyExpression) | Literal(serde_json::Number). Errors: [".to_string();
        m.append("Expr: ");
        m.append(e0.as_str());
        m.append("; Literal: ");
        m.append(e1.as_str());
        m.append("]");
        Err(m)
    }
}

impl JsonEncode for CircleLayoutLayerCircleSortKey {
    open spec fn to_json(self) -> Json {
        match self {
            CircleLayoutLayerCircleSortKey::Expr(t) => CircleLayoutLayerCircleSortKeyExpression::to_json(*t),
            CircleLayoutLayerCircleSortKey::Literal(t) => JsonNumber::to_json(t),
        }
    }

    open spec fn round_trips(self) -> bool {
        match self {
            CircleLayoutLayerCircleSortKey::Expr(t) => CircleLayoutLayerCircleSortKeyExpression::round_trips(*t),
            CircleLayoutLayerCircleSortKey::Literal(t) => JsonNumber::round_trips(t) && !CircleLayoutLayerCircleSortKeyExpression::accepts(JsonNumber::to_json(t)),
        }
    }

    fn encode(&self) -> (r: JsonValue) {
        match self {
            CircleLayoutLayerCircleSortKey::Expr(t) => CircleLayoutLayerCircleSortKeyExpression::encode(&**t),
            CircleLayoutLayerCircleSortKey::Literal(t) => JsonNumber::encode(t),
        }
    }

    proof fn lemma_round_trip(self) {
        match self {
            CircleLayoutLayerCircleSortKey::Expr(t) => CircleLayoutLayerCircleSortKeyExpression::lemma_round_trip(*t),
            CircleLayoutLayerCircleSortKey::Literal(t) => JsonNumber::lemma_round_trip(t),
        }
    }
}

/// Whether this layer is displayed.
#[derive(PartialEq, Eq, Debug, Clone, Copy)]
pub enum CircleLayoutLayerVisibility {
    NoneValue,
    Visible,
}

impl CircleLayoutLayerVisibility {
    /// The name that stands for the value in a style document.
    pub open spec fn spec_name(self) -> Seq<char> {
        match self {
            CircleLayoutLayerVisibility::NoneValue => "none"@,
            CircleLayoutLayerVisibility::Visible => "visible"@,
        }
    }

    /// The name that stands for the value in a style document.
    pub fn name(&self) -> (r: &'static str)
        ensures
            r@ == self.spec_name(),
    {
        match self {
            CircleLayoutLayerVisibility::NoneValue => "none",
            CircleLayoutLayerVisibility::Visible => "visible",
        }
    }

    /// The value that a name stands for, if any.
    pub fn from_name(s: &str) -> (r: Option<CircleLayoutLayerVisibility>)
        ensures
            r matches Some(x) ==> x.spec_name() == s@,
            r is None ==> forall|x: CircleLayoutLayerVisibility| x.spec_name() != s@,
    {
        if str_eq(s, "none") {
            Some(CircleLayoutLayerVisibility::NoneValue)
        } else if str_eq(s, "visible") {
            Some(CircleLayoutLayerVisibility::Visible)
        } else {
            None
        }
    }
}

impl CircleLayoutLayerVisibility {
    /// Each value is read from, and written as, the name that the style specification gives
    /// it, and a document holding one of these names reads as that value and no other.
    pub proof fn lemma_read_by_name()
        ensures
            forall|x: CircleLayoutLayerVisibility| <CircleLayoutLayerVisibility as JsonDecode>::decodes(Json::Str("visible"@), x) <==> x == CircleLayoutLayerVisibility::Visible,
            <CircleLayoutLayerVisibility as JsonEncode>::to_json(CircleLayoutLayerVisibility::Visible) == Json::Str("visible"@),
            forall|x: CircleLayoutLayerVisibility| <CircleLayoutLayerVisibility as JsonDecode>::decodes(Json::Str("none"@), x) <==> x == CircleLayoutLayerVisibility::NoneValue,
            <CircleLayoutLayerVisibility as JsonEncode>::to_json(CircleLayoutLayerVisibility::NoneValue) == Json::Str("none"@),
    {
        reveal_strlit("visible");
        reveal_strlit("none");
        assert("none"@.len() != "visible"@.len());
    }
}

impl JsonDecode for CircleLayoutLayerVisibility {
    /// The name of a value, or an object whose one entry has the name as its key and `null`.
    open spec fn accepts(v: Json) -> bool {
        ||| (v is Str && exists|x: CircleLayoutLayerVisibility| x.spec_name() == v->Str_0)
        ||| (v is Object && v->Object_0.len() == 1 && v->Object_0[0].1 is Null && exists|x: CircleLayoutLayerVisibility| x.spec_name() == v->Object_0[0].0)
    }

    open spec fn decodes(v: Json, x: Self) -> bool {
        ||| v == Json::Str(x.spec_name())
        ||| (v is Object && v->Object_0.len() == 1 && v->Object_0[0] == (x.spec_name(), Json::Null))
    }

    open spec fn rejection(v: Json) -> Seq<char> {
        if v is Str {
            unknown_variant(v->Str_0) + ", expected `none` or `visible`"@
        } else if v is Object {
            let o = v->Object_0;
            if o.len() != 1 {
                "invalid value: map, expected map with a single key"@
            } else if !(exists|x: CircleLayoutLayerVisibility| x.spec_name() == o[0].0) {
                unknown_variant(o[0].0) + ", expected `none` or `visible`"@
            } else {
                type_error(o[0].1, "unit"@)
            }
        } else {
            type_error(v, "string or map"@)
        }
    }

    fn decode(v: &JsonValue) -> (r: Result<Self, String>) {
        match v {
            JsonValue::String(s) => match Self::from_name(s.as_str()) {
                Some(x) => Ok(x),
                None => {
                    let mut m = make_unknown_variant(s.as_str());
                    m.append(", expected `none` or `visible`");
                    Err(m)
                },
            },
            JsonValue::Object(fields) => {
                if fields.len() != 1 {
                    return Err("invalid value: map, expected map with a single key".to_string());
                }
                proof {
                    assert(entries_model(*fields)[0] == (fields@[0].0@, fields@[0].1.model()));
                }
                match Self::from_name(fields[0].0.as_str()) {
                    Some(x) => match &fields[0].1 {
                        JsonValue::Null => Ok(x),
                        _ => Err(make_type_error(&fields[0].1, "unit")),
                    },
                    None => {
                        let mut m = make_unknown_variant(fields[0].0.as_str());
                        m.append(", expected `none` or `visible`");
                        Err(m)
                    },
                }
            },
            _ => Err(make_type_error(v, "string or map")),
        }
    }
}

impl JsonEncode for CircleLayoutLayerVisibility {
    open spec fn to_json(self) -> Json {
        Json::Str(self.spec_name())
    }

    open spec fn round_trips(self) -> bool {
        true
    }

    fn encode(&self) -> (r: JsonValue) {
        JsonValue::String(self.name().to_string())
    }

    proof fn lemma_round_trip(self) {
    }
}

impl Default for CircleLayoutLayerVisibility {
    fn default() -> (r: Self)
        ensures
            r == CircleLayoutLayerVisibility::Visible,
    {
        CircleLayoutLayerVisibility::Visible
    }
}

#[derive(PartialEq, Debug, Clone)]
pub struct CirclePaintLayer {
    /// Amount to blur the circle. 1 blurs the circle such that only the centerpoint is full opacity.
    pub circle_blur: Option<CirclePaintLayerCircleBlur>,
    /// The fill color of the circle.
    pub circle_color: Option<CirclePaintLayerCircleColor>,
    /// The opacity at which the circle will be drawn.
    pub circle_opacity: Option<CirclePaintLayerCircleOpacity>,
    /// Orientation of circle when map is pitched.
    pub circle_pitch_alignment: Option<CirclePaintLayerCirclePitchAlignment>,
    /// Controls the scaling behavior of the circle when the map is pitched.
    pub circle_pitch_scale: Option<CirclePaintLayerCirclePitchScale>,
    /// Circle radius.
    pub circle_radius: Option<CirclePaintLayerCircleRadius>,
    /// The stroke color of the circle.
    pub circle_stroke_color: Option<CirclePaintLayerCircleStrokeColor>,
    /// The opacity of the circle's stroke.
    pub circle_stroke_opacity: Option<CirclePaintLayerCircleStrokeOpacity>,
    /// The width of the circle's stroke. Strokes are placed outside of the `circle-radius`.
    pub circle_stroke_width: Option<CirclePaintLayerCircleStrokeWidth>,
    /// The geometry's offset. Values are [x, y] where negatives indicate left and up, respectively.
    pub circle_translate: Option<CirclePaintLayerCircleTranslate>,
    /// Controls the frame of reference for `circle-translate`.
    pub circle_translate_anchor: Option<CirclePaintLayerCircleTranslateAnchor>,
}

impl JsonDecode for CirclePaintLayer {
    /// An object with the fields by their keys, or an array with the fields in order.
    open spec fn accepts(v: Json) -> bool {
        ||| (v is Object && {
            let o = v->Object_0;
            &&& opt_field_accepts::<CirclePaintLayerCircleBlur>(o, "circle-blur"@)
            &&& opt_field_accepts::<CirclePaintLayerCircleColor>(o, "circle-color"@)
            &&& opt_field_accepts::<CirclePaintLayerCircleOpacity>(o, "circle-opacity"@)
            &&& opt_field_accepts::<CirclePaintLayerCirclePitchAlignment>(o, "circle-pitch-alignment"@)
            &&& opt_field_accepts::<CirclePaintLayerCirclePitchScale>(o, "circle-pitch-scale"@)
            &&& opt_field_accepts::<CirclePaintLayerCircleRadius>(o, "circle-radius"@)
            &&& opt_field_accepts::<CirclePaintLayerCircleStrokeColor>(o, "circle-stroke-color"@)
            &&& opt_field_accepts::<CirclePaintLayerCircleStrokeOpacity>(o, "circle-stroke-opacity"@)
            &&& opt_field_accepts::<CirclePaintLayerCircleStrokeWidth>(o, "circle-stroke-width"@)
            &&& opt_field_accepts::<CirclePaintLayerCircleTranslate>(o, "circle-translate"@)
            &&& opt_field_accepts::<CirclePaintLayerCircleTranslateAnchor>(o, "circle-translate-anchor"@)
        })
        ||| (v is Array && {
            let a = v->Array_0;
            &&& seq_opt_accepts::<CirclePaintLayerCircleBlur>(a, 0, true)
            &&& seq_opt_accepts::<CirclePaintLayerCircleColor>(a, 1, true)
            &&& seq_opt_accepts::<CirclePaintLayerCircleOpacity>(a, 2, true)
            &&& seq_opt_accepts::<CirclePaintLayerCirclePitchAlignment>(a, 3, true)
            &&& seq_opt_accepts::<CirclePaintLayerCirclePitchScale>(a, 4, true)
            &&& seq_opt_accepts::<CirclePaintLayerCircleRadius>(a, 5, true)
            &&& seq_opt_accepts::<CirclePaintLayerCircleStrokeColor>(a, 6, true)
            &&& seq_opt_accepts::<CirclePaintLayerCircleStrokeOpacity>(a, 7, true)
            &&& seq_opt_accepts::<CirclePaintLayerCircleStrokeWidth>(a, 8, true)
            &&& seq_opt_accepts::<CirclePaintLayerCircleTranslate>(a, 9, true)
            &&& seq_opt_accepts::<CirclePaintLayerCircleTranslateAnchor>(a, 10, true)
            &&& a.len() <= 11
        })
    }

    open spec fn decodes(v: Json, x: Self) -> bool {
        ||| (v is Object && {
            let o = v->Object_0;
            &&& opt_field_decodes::<CirclePaintLayerCircleBlur>(o, "circle-blur"@, x.circle_blur)
            &&& opt_field_decodes::<CirclePaintLayerCircleColor>(o, "circle-color"@, x.circle_color)
            &&& opt_field_decodes::<CirclePaintLayerCircleOpacity>(o, "circle-opacity"@, x.circle_opacity)
            &&& opt_field_decodes::<CirclePaintLayerCirclePitchAlignment>(o, "circle-pitch-alignment"@, x.circle_pitch_alignment)
            &&& opt_field_decodes::<CirclePaintLayerCirclePitchScale>(o, "circle-pitch-scale"@, x.circle_pitch_scale)
            &&& opt_field_decodes::<CirclePaintLayerCircleRadius>(o, "circle-radius"@, x.circle_radius)
            &&& opt_field_decodes::<CirclePaintLayerCircleStrokeColor>(o, "circle-stroke-color"@, x.circle_stroke_color)
            &&& opt_field_decodes::<CirclePaintLayerCircleStrokeOpacity>(o, "circle-stroke-opacity"@, x.circle_stroke_opacity)
            &&& opt_field_decodes::<CirclePaintLayerCircleStrokeWidth>(o, "circle-stroke-width"@, x.circle_stroke_width)
            &&& opt_field_decodes::<CirclePaintLayerCircleTranslate>(o, "circle-translate"@, x.circle_translate)
            &&& opt_field_decodes::<CirclePaintLayerCircleTranslateAnchor>(o, "circle-translate-anchor"@, x.circle_translate_anchor)
        })
        ||| (v is Array && {
            let a = v->Array_0;
            &&& seq_opt_decodes::<CirclePaintLayerCircleBlur>(a, 0, x.circle_blur)
            &&& seq_opt_decodes::<CirclePaintLayerCircleColor>(a, 1, x.circle_color)
            &&& seq_opt_decodes::<CirclePaintLayerCircleOpacity>(a, 2, x.circle_opacity)
            &&& seq_opt_decodes::<CirclePaintLayerCirclePitchAlignment>(a, 3, x.circle_pitch_alignment)
            &&& seq_opt_decodes::<CirclePaintLayerCirclePitchScale>(a, 4, x.circle_pitch_scale)
            &&& seq_opt_decodes::<CirclePaintLayerCircleRadius>(a, 5, x.circle_radius)
            &&& seq_opt_decodes::<CirclePaintLayerCircleStrokeColor>(a, 6, x.circle_stroke_color)
            &&& seq_opt_decodes::<CirclePaintLayerCircleStrokeOpacity>(a, 7, x.circle_stroke_opacity)
            &&& seq_opt_decodes::<CirclePaintLayerCircleStrokeWidth>(a, 8, x.circle_stroke_width)
            &&& seq_opt_decodes::<CirclePaintLayerCircleTranslate>(a, 9, x.circle_translate)
            &&& seq_opt_decodes::<CirclePaintLayerCircleTranslateAnchor>(a, 10, x.circle_translate_anchor)
        })
    }

    /// For an object, the first entry in order whose value does not read as its field, else the
    /// first required field that is missing.
    open spec fn rejection(v: Json) -> Seq<char> {
        if v is Object {
            let o = v->Object_0;
            match Self::first_fault(o, 0) {
                Some(m) => m,
                None => {
                    Seq::empty()
                },
            }
        } else if v is Array {
            let a = v->Array_0;
            if !seq_opt_accepts::<CirclePaintLayerCircleBlur>(a, 0, true) {
                seq_opt_rejection::<CirclePaintLayerCircleBlur>(a, 0, "struct CirclePaintLayer with 11 elements"@)
            } else if !seq_opt_accepts::<CirclePaintLayerCircleColor>(a, 1, true) {
                seq_opt_rejection::<CirclePaintLayerCircleColor>(a, 1, "struct CirclePaintLayer with 11 elements"@)
            } else if !seq_opt_accepts::<CirclePaintLayerCircleOpacity>(a, 2, true) {
                seq_opt_rejection::<CirclePaintLayerCircleOpacity>(a, 2, "struct CirclePaintLayer with 11 elements"@)
            } else if !seq_opt_accepts::<CirclePaintLayerCirclePitchAlignment>(a, 3, true) {
                seq_opt_rejection::<CirclePaintLayerCirclePitchAlignment>(a, 3, "struct CirclePaintLayer with 11 elements"@)
            } else if !seq_opt_accepts::<CirclePaintLayerCirclePitchScale>(a, 4, true) {
                seq_opt_rejection::<CirclePaintLayerCirclePitchScale>(a, 4, "struct CirclePaintLayer with 11 elements"@)
            } else if !seq_opt_accepts::<CirclePaintLayerCircleRadius>(a, 5, true) {
                seq_opt_rejection::<CirclePaintLayerCircleRadius>(a, 5, "struct CirclePaintLayer with 11 elements"@)
            } else if !seq_opt_accepts::<CirclePaintLayerCircleStrokeColor>(a, 6, true) {
                seq_opt_rejection::<CirclePaintLayerCircleStrokeColor>(a, 6, "struct CirclePaintLayer with 11 elements"@)
            } else if !seq_opt_accepts::<CirclePaintLayerCircleStrokeOpacity>(a, 7, true) {
                seq_opt_rejection::<CirclePaintLayerCircleStrokeOpacity>(a, 7, "struct CirclePaintLayer with 11 elements"@)
            } else if !seq_opt_accepts::<CirclePaintLayerCircleStrokeWidth>(a, 8, true) {
                seq_opt_rejection::<CirclePaintLayerCircleStrokeWidth>(a, 8, "struct CirclePaintLayer with 11 elements"@)
            } else if !seq_opt_accepts::<CirclePaintLayerCircleTranslate>(a, 9, true) {
                seq_opt_rejection::<CirclePaintLayerCircleTranslate>(a, 9, "struct CirclePaintLayer with 11 elements"@)
            } else if !seq_opt_accepts::<CirclePaintLayerCircleTranslateAnchor>(a, 10, true) {
                seq_opt_rejection::<CirclePaintLayerCircleTranslateAnchor>(a, 10, "struct CirclePaintLayer with 11 elements"@)
            } else if a.len() > 11 {
                length_error(a.len())
            } else {
                Seq::empty()
            }
        } else {
            type_error(v, "struct CirclePaintLayer"@)
        }
    }

    fn decode(v: &JsonValue) -> (r: Result<Self, String>) {
        match v {
            JsonValue::Object(fields) => {
                let circle_blur = match decode_opt_field::<CirclePaintLayerCircleBlur>(fields, "circle-blur") {
                    Ok(x) => x,
                    Err(_) => return Err(Self::object_rejection(fields)),
                };
                let circle_color = match decode_opt_field::<CirclePaintLayerCircleColor>(fields, "circle-color") {
                    Ok(x) => x,
                    Err(_) => return Err(Self::object_rejection(fields)),
                };
                let circle_opacity = match decode_opt_field::<CirclePaintLayerCircleOpacity>(fields, "circle-opacity") {
                    Ok(x) => x,
                    Err(_) => return Err(Self::object_rejection(fields)),
                };
                let circle_pitch_alignment = match decode_opt_field::<CirclePaintLayerCirclePitchAlignment>(fields, "circle-pitch-alignment") {
                    Ok(x) => x,
                    Err(_) => return Err(Self::object_rejection(fields)),
                };
                let circle_pitch_scale = match decode_opt_field::<CirclePaintLayerCirclePitchScale>(fields, "circle-pitch-scale") {
                    Ok(x) => x,
                    Err(_) => return Err(Self::object_rejection(fields)),
                };
                let circle_radius = match decode_opt_field::<CirclePaintLayerCircleRadius>(fields, "circle-radius") {
                    Ok(x) => x,
                    Err(_) => return Err(Self::object_rejection(fields)),
                };
                let circle_stroke_color = match decode_opt_field::<CirclePaintLayerCircleStrokeColor>(fields, "circle-stroke-color") {
                    Ok(x) => x,
                    Err(_) => return Err(Self::object_rejection(fields)),
                };
                let circle_stroke_opacity = match decode_opt_field::<CirclePaintLayerCircleStrokeOpacity>(fields, "circle-stroke-opacity") {
                    Ok(x) => x,
                    Err(_) => return Err(Self::object_rejection(fields)),
                };
                let circle_stroke_width = match decode_opt_field::<CirclePaintLayerCircleStrokeWidth>(fields, "circle-stroke-width") {
                    Ok(x) => x,
                    Err(_) => return Err(Self::object_rejection(fields)),
                };
                let circle_translate = match decode_opt_field::<CirclePaintLayerCircleTranslate>(fields, "circle-translate") {
                    Ok(x) => x,
                    Err(_) => return Err(Self::object_rejection(fields)),
                };
                let circle_translate_anchor = match decode_opt_field::<CirclePaintLayerCircleTranslateAnchor>(fields, "circle-translate-anchor") {
                    Ok(x) => x,
                    Err(_) => return Err(Self::object_rejection(fields)),
                };
                Ok(CirclePaintLayer { circle_blur, circle_color, circle_opacity, circle_pitch_alignment, circle_pitch_scale, circle_radius, circle_stroke_color, circle_stroke_opacity, circle_stroke_width, circle_translate, circle_translate_anchor })
            },
            JsonValue::Array(a) => {
                let circle_blur = match decode_seq_opt::<CirclePaintLayerCircleBlur>(a, 0, true, "struct CirclePaintLayer with 11 elements") {
                    Ok(x) => x,
                    Err(e) => return Err(e),
                };
                let circle_color = match decode_seq_opt::<CirclePaintLayerCircleColor>(a, 1, true, "struct CirclePaintLayer with 11 elements") {
                    Ok(x) => x,
                    Err(e) => return Err(e),
                };
                let circle_opacity = match decode_seq_opt::<CirclePaintLayerCircleOpacity>(a, 2, true, "struct CirclePaintLayer with 11 elements") {
                    Ok(x) => x,
                    Err(e) => return Err(e),
                };
                let circle_pitch_alignment = match decode_seq_opt::<CirclePaintLayerCirclePitchAlignment>(a, 3, true, "struct CirclePaintLayer with 11 elements") {
                    Ok(x) => x,
                    Err(e) => return Err(e),
                };
                let circle_pitch_scale = match decode_seq_opt::<CirclePaintLayerCirclePitchScale>(a, 4, true, "struct CirclePaintLayer with 11 elements") {
                    Ok(x) => x,
                    Err(e) => return Err(e),
                };
                let circle_radius = match decode_seq_opt::<CirclePaintLayerCircleRadius>(a, 5, true, "struct CirclePaintLayer with 11 elements") {
                    Ok(x) => x,
                    Err(e) => return Err(e),
                };
                let circle_stroke_color = match decode_seq_opt::<CirclePaintLayerCircleStrokeColor>(a, 6, true, "struct CirclePaintLayer with 11 elements") {
                    Ok(x) => x,
                    Err(e) => return Err(e),
                };
                let circle_stroke_opacity = match decode_seq_opt::<CirclePaintLayerCircleStrokeOpacity>(a, 7, true, "struct CirclePaintLayer with 11 elements") {
                    Ok(x) => x,
                    Err(e) => return Err(e),
                };
                let circle_stroke_width = match decode_seq_opt::<CirclePaintLayerCircleStrokeWidth>(a, 8, true, "struct CirclePaintLayer with 11 elements") {
                    Ok(x) => x,
                    Err(e) => return Err(e),
                };
                let circle_translate = match decode_seq_opt::<CirclePaintLayerCircleTranslate>(a, 9, true, "struct CirclePaintLayer with 11 elements") {
                    Ok(x) => x,
                    Err(e) => return Err(e),
                };
                let circle_translate_anchor = match decode_seq_opt::<CirclePaintLayerCircleTranslateAnchor>(a, 10, true, "struct CirclePaintLayer with 11 elements") {
                    Ok(x) => x,
                    Err(e) => return Err(e),
                };
                if a.len() > 11 {
                    return Err(make_length_error(a.len()));
                }
                Ok(CirclePaintLayer { circle_blur, circle_color, circle_opacity, circle_pitch_alignment, circle_pitch_scale, circle_radius, circle_stroke_color, circle_stroke_opacity, circle_stroke_width, circle_translate, circle_translate_anchor })
            },
            _ => Err(make_type_error(v, "struct CirclePaintLayer")),
        }
    }
}

impl CirclePaintLayer {
    /// What is wrong with the value `w` of an entry with key `k`, where `k` is the key of a field.
    pub open spec fn field_fault(k: Seq<char>, w: Json) -> Option<Seq<char>> {
        if k == "circle-blur"@ {
            if w is Null || CirclePaintLayerCircleBlur::accepts(w) {
                None
            } else {
                Some(CirclePaintLayerCircleBlur::rejection(w))
            }
        } else if k == "circle-color"@ {
            if w is Null || CirclePaintLayerCircleColor::accepts(w) {
                None
            } else {
                Some(CirclePaintLayerCircleColor::rejection(w))
            }
        } else if k == "circle-opacity"@ {
            if w is Null || CirclePaintLayerCircleOpacity::accepts(w) {
                None
            } else {
                Some(CirclePaintLayerCircleOpacity::rejection(w))
            }
        } else if k == "circle-pitch-alignment"@ {
            if w is Null || CirclePaintLayerCirclePitchAlignment::accepts(w) {
                None
            } else {
                Some(CirclePaintLayerCirclePitchAlignment::rejection(w))
            }
        } else if k == "circle-pitch-scale"@ {
            if w is Null || CirclePaintLayerCirclePitchScale::accepts(w) {
                None
            } else {
                Some(CirclePaintLayerCirclePitchScale::rejection(w))
            }
        } else if k == "circle-radius"@ {
            if w is Null || CirclePaintLayerCircleRadius::accepts(w) {
                None
            } else {
                Some(CirclePaintLayerCircleRadius::rejection(w))
            }
        } else if k == "circle-stroke-color"@ {
            if w is Null || CirclePaintLayerCircleStrokeColor::accepts(w) {
                None
            } else {
                Some(CirclePaintLayerCircleStrokeColor::rejection(w))
            }
        } else if k == "circle-stroke-opacity"@ {
            if w is Null || CirclePaintLayerCircleStrokeOpacity::accepts(w) {
                None
            } else {
                Some(CirclePaintLayerCircleStrokeOpacity::rejection(w))
            }
        } else if k == "circle-stroke-width"@ {
            if w is Null || CirclePaintLayerCircleStrokeWidth::accepts(w) {
                None
            } else {
                Some(CirclePaintLayerCircleStrokeWidth::rejection(w))
            }
        } else if k == "circle-translate"@ {
            if w is Null || CirclePaintLayerCircleTranslate::accepts(w) {
                None
            } else {
                Some(CirclePaintLayerCircleTranslate::rejection(w))
            }
        } else if k == "circle-translate-anchor"@ {
            if w is Null || CirclePaintLayerCircleTranslateAnchor::accepts(w) {
                None
            } else {
                Some(CirclePaintLayerCircleTranslateAnchor::rejection(w))
            }
        } else {
            None
        }
    }

    /// The message of the first entry of `o`, from entry `i` on and among the first entries of
    /// their keys, whose value does not read as its field, if any.
    pub open spec fn first_fault(o: Seq<(Seq<char>, Json)>, i: int) -> Option<Seq<char>>
        decreases o.len() - i,
    {
        if i < 0 || i >= o.len() {
            None
        } else if first_with_key(o, i) && Self::field_fault(o[i].0, o[i].1) is Some {
            Self::field_fault(o[i].0, o[i].1)
        } else {
            Self::first_fault(o, i + 1)
        }
    }

    fn find_field_fault(k: &str, w: &JsonValue) -> (r: Option<String>)
        ensures
            match r {
                Some(m) => Self::field_fault(k@, w.model()) == Some(m@),
                None => Self::field_fault(k@, w.model()) is None,
            },
    {
        if str_eq(k, "circle-blur") {
            match w {
                JsonValue::Null => None,
                _ => match CirclePaintLayerCircleBlur::decode(w) {
                    Ok(_) => None,
                    Err(e) => Some(e),
                },
            }
        } else if str_eq(k, "circle-color") {
            match w {
                JsonValue::Null => None,
                _ => match CirclePaintLayerCircleColor::decode(w) {
                    Ok(_) => None,
                    Err(e) => Some(e),
                },
            }
        } else if str_eq(k, "circle-opacity") {
            match w {
                JsonValue::Null => None,
                _ => match CirclePaintLayerCircleOpacity::decode(w) {
                    Ok(_) => None,
                    Err(e) => Some(e),
                },
            }
        } else if str_eq(k, "circle-pitch-alignment") {
            match w {
                JsonValue::Null => None,
                _ => match CirclePaintLayerCirclePitchAlignment::decode(w) {
                    Ok(_) => None,
                    Err(e) => Some(e),
                },
            }
        } else if str_eq(k, "circle-pitch-scale") {
            match w {
                JsonValue::Null => None,
                _ => match CirclePaintLayerCirclePitchScale::decode(w) {
                    Ok(_) => None,
                    Err(e) => Some(e),
                },
            }
        } else if str_eq(k, "circle-radius") {
            match w {
                JsonValue::Null => None,
                _ => match CirclePaintLayerCircleRadius::decode(w) {
                    Ok(_) => None,
                    Err(e) => Some(e),
                },
            }
        } else if str_eq(k, "circle-stroke-color") {
            match w {
                JsonValue::Null => None,
                _ => match CirclePaintLayerCircleStrokeColor::decode(w) {
                    Ok(_) => None,
                    Err(e) => Some(e),
                },
            }
        } else if str_eq(k, "circle-stroke-opacity") {
            match w {
                JsonValue::Null => None,
                _ => match CirclePaintLayerCircleStrokeOpacity::decode(w) {
                    Ok(_) => None,
                    Err(e) => Some(e),
                },
            }
        } else if str_eq(k, "circle-stroke-width") {
            match w {
                JsonValue::Null => None,
                _ => match CirclePaintLayerCircleStrokeWidth::decode(w) {
                    Ok(_) => None,
                    Err(e) => Some(e),
                },
            }
        } else if str_eq(k, "circle-translate") {
            match w {
                JsonValue::Null => None,
                _ => match CirclePaintLayerCircleTranslate::decode(w) {
                    Ok(_) => None,
                    Err(e) => Some(e),
                },
            }
        } else if str_eq(k, "circle-translate-anchor") {
            match w {
                JsonValue::Null => None,
                _ => match CirclePaintLayerCircleTranslateAnchor::decode(w) {
                    Ok(_) => None,
                    Err(e) => Some(e),
                },
            }
        } else {
            None
        }
    }

    fn object_rejection(fields: &Vec<(String, JsonValue)>) -> (r: String)
        ensures
            r@ == Self::rejection(JsonValue::Object(*fields).model()),
    {
        let ghost o = entries_model(*fields);
        let mut i: usize = 0;
        while i < fields.len()
            invariant
                o == entries_model(*fields),
                o.len() == fields.len(),
                i <= fields.len(),
                Self::first_fault(o, 0) == Self::first_fault(o, i as int),
            decreases fields.len() - i,
        {
            proof {
                assert(o[i as int] == (fields@[i as int].0@, fields@[i as int].1.model()));
            }
            if !key_seen_before(fields, i) {
                match Self::find_field_fault(fields[i].0.as_str(), &fields[i].1) {
                    Some(m) => {
                        return m;
                    },
                    None => {},
                }
            }
            i += 1;
        }
        String::new()
    }
}

impl CirclePaintLayer {
    /// The keys of the fields, in order.
    pub open spec fn field_keys() -> Seq<Seq<char>> {
        seq!["circle-blur"@, "circle-color"@, "circle-opacity"@, "circle-pitch-alignment"@, "circle-pitch-scale"@, "circle-radius"@, "circle-stroke-color"@, "circle-stroke-opacity"@, "circle-stroke-width"@, "circle-translate"@, "circle-translate-anchor"@]
    }

    /// The entries that each field is written as, in order.
    pub open spec fn field_entries(self) -> Seq<Seq<(Seq<char>, Json)>> {
        seq![opt_entry::<CirclePaintLayerCircleBlur>("circle-blur"@, self.circle_blur), opt_entry::<CirclePaintLayerCircleColor>("circle-color"@, self.circle_color), opt_entry::<CirclePaintLayerCircleOpacity>("circle-opacity"@, self.circle_opacity), opt_entry::<CirclePaintLayerCirclePitchAlignment>("circle-pitch-alignment"@, self.circle_pitch_alignment), opt_entry::<CirclePaintLayerCirclePitchScale>("circle-pitch-scale"@, self.circle_pitch_scale), opt_entry::<CirclePaintLayerCircleRadius>("circle-radius"@, self.circle_radius), opt_entry::<CirclePaintLayerCircleStrokeColor>("circle-stroke-color"@, self.circle_stroke_color), opt_entry::<CirclePaintLayerCircleStrokeOpacity>("circle-stroke-opacity"@, self.circle_stroke_opacity), opt_entry::<CirclePaintLayerCircleStrokeWidth>("circle-stroke-width"@, self.circle_stroke_width), opt_entry::<CirclePaintLayerCircleTranslate>("circle-translate"@, self.circle_translate), opt_entry::<CirclePaintLayerCircleTranslateAnchor>("circle-translate-anchor"@, self.circle_translate_anchor)]
    }

    proof fn lemma_keys_differ(i: int)
        requires
            0 <= i < 11,
        ensures
            others_differ(Self::field_keys(), i),
    {
        reveal_strlit("circle-blur");
        assert("circle-blur"@.len() == 11);
        reveal_strlit("circle-color");
        assert("circle-color"@.len() == 12);
        reveal_strlit("circle-opacity");
        assert("circle-opacity"@.len() == 14);
        reveal_strlit("circle-pitch-alignment");
        assert("circle-pitch-alignment"@.len() == 22);
        reveal_strlit("circle-pitch-scale");
        assert("circle-pitch-scale"@.len() == 18);
        reveal_strlit("circle-radius");
        assert("circle-radius"@.len() == 13);
        reveal_strlit("circle-stroke-color");
        assert("circle-stroke-color"@.len() == 19);
        reveal_strlit("circle-stroke-opacity");
        assert("circle-stroke-opacity"@.len() == 21);
        reveal_strlit("circle-stroke-width");
        assert("circle-stroke-width"@.len() == 19);
        reveal_strlit("circle-translate");
        assert("circle-translate"@.len() == 16);
        reveal_strlit("circle-translate-anchor");
        assert("circle-translate-anchor"@.len() == 23);
        assert("circle-stroke-color"@[14] != "circle-stroke-width"@[14]);
    }
}

impl JsonEncode for CirclePaintLayer {
    open spec fn to_json(self) -> Json {
        Json::Object(self.field_entries().flatten())
    }

    open spec fn round_trips(self) -> bool {
        &&& (self.circle_blur matches Some(t) ==> t.round_trips() && !(t.to_json() is Null))
        &&& (self.circle_color matches Some(t) ==> t.round_trips() && !(t.to_json() is Null))
        &&& (self.circle_opacity matches Some(t) ==> t.round_trips() && !(t.to_json() is Null))
        &&& (self.circle_pitch_alignment matches Some(t) ==> t.round_trips() && !(t.to_json() is Null))
        &&& (self.circle_pitch_scale matches Some(t) ==> t.round_trips() && !(t.to_json() is Null))
        &&& (self.circle_radius matches Some(t) ==> t.round_trips() && !(t.to_json() is Null))
        &&& (self.circle_stroke_color matches Some(t) ==> t.round_trips() && !(t.to_json() is Null))
        &&& (self.circle_stroke_opacity matches Some(t) ==> t.round_trips() && !(t.to_json() is Null))
        &&& (self.circle_stroke_width matches Some(t) ==> t.round_trips() && !(t.to_json() is Null))
        &&& (self.circle_translate matches Some(t) ==> t.round_trips() && !(t.to_json() is Null))
        &&& (self.circle_translate_anchor matches Some(t) ==> t.round_trips() && !(t.to_json() is Null))
    }

    #[verifier::rlimit(30)]
    fn encode(&self) -> (r: JsonValue) {
        let mut out: Vec<(String, JsonValue)> = Vec::new();
        let ghost s0 = Seq::<Seq<(Seq<char>, Json)>>::empty();
        proof {
            assert(entries_model(out) =~= s0.flatten());
        }
        push_opt_entry::<CirclePaintLayerCircleBlur>(&mut out, "circle-blur", &self.circle_blur);
        let ghost s1 = s0.push(opt_entry::<CirclePaintLayerCircleBlur>("circle-blur"@, self.circle_blur));
        proof {
            s0.lemma_flatten_push(opt_entry::<CirclePaintLayerCircleBlur>("circle-blur"@, self.circle_blur));
            assert(entries_model(out) =~= s1.flatten());
        }
        push_opt_entry::<CirclePaintLayerCircleColor>(&mut out, "circle-color", &self.circle_color);
        let ghost s2 = s1.push(opt_entry::<CirclePaintLayerCircleColor>("circle-color"@, self.circle_color));
        proof {
            s1.lemma_flatten_push(opt_entry::<CirclePaintLayerCircleColor>("circle-color"@, self.circle_color));
            assert(entries_model(out) =~= s2.flatten());
        }
        push_opt_entry::<CirclePaintLayerCircleOpacity>(&mut out, "circle-opacity", &self.circle_opacity);
        let ghost s3 = s2.push(opt_entry::<CirclePaintLayerCircleOpacity>("circle-opacity"@, self.circle_opacity));
        proof {
            s2.lemma_flatten_push(opt_entry::<CirclePaintLayerCircleOpacity>("circle-opacity"@, self.circle_opacity));
            assert(entries_model(out) =~= s3.flatten());
        }
        push_opt_entry::<CirclePaintLayerCirclePitchAlignment>(&mut out, "circle-pitch-alignment", &self.circle_pitch_alignment);
        let ghost s4 = s3.push(opt_entry::<CirclePaintLayerCirclePitchAlignment>("circle-pitch-alignment"@, self.circle_pitch_alignment));
        proof {
            s3.lemma_flatten_push(opt_entry::<CirclePaintLayerCirclePitchAlignment>("circle-pitch-alignment"@, self.circle_pitch_alignment));
            assert(entries_model(out) =~= s4.flatten());
        }
        push_opt_entry::<CirclePaintLayerCirclePitchScale>(&mut out, "circle-pitch-scale", &self.circle_pitch_scale);
        let ghost s5 = s4.push(opt_entry::<CirclePaintLayerCirclePitchScale>("circle-pitch-scale"@, self.circle_pitch_scale));
        proof {
            s4.lemma_flatten_push(opt_entry::<CirclePaintLayerCirclePitchScale>("circle-pitch-scale"@, self.circle_pitch_scale));
            assert(entries_model(out) =~= s5.flatten());
        }
        push_opt_entry::<CirclePaintLayerCircleRadius>(&mut out, "circle-radius", &self.circle_radius);
        let ghost s6 = s5.push(opt_entry::<CirclePaintLayerCircleRadius>("circle-radius"@, self.circle_radius));
        proof {
            s5.lemma_flatten_push(opt_entry::<CirclePaintLayerCircleRadius>("circle-radius"@, self.circle_radius));
            assert(entries_model(out) =~= s6.flatten());
        }
        push_opt_entry::<CirclePaintLayerCircleStrokeColor>(&mut out, "circle-stroke-color", &self.circle_stroke_color);
        let ghost s7 = s6.push(opt_entry::<CirclePaintLayerCircleStrokeColor>("circle-stroke-color"@, self.circle_stroke_color));
        proof {
            s6.lemma_flatten_push(opt_entry::<CirclePaintLayerCircleStrokeColor>("circle-stroke-color"@, self.circle_stroke_color));
            assert(entries_model(out) =~= s7.flatten());
        }
        push_opt_entry::<CirclePaintLayerCircleStrokeOpacity>(&mut out, "circle-stroke-opacity", &self.circle_stroke_opacity);
        let ghost s8 = s7.push(opt_entry::<CirclePaintLayerCircleStrokeOpacity>("circle-stroke-opacity"@, self.circle_stroke_opacity));
        proof {
            s7.lemma_flatten_push(opt_entry::<CirclePaintLayerCircleStrokeOpacity>("circle-stroke-opacity"@, self.circle_stroke_opacity));
            assert(entries_model(out) =~= s8.flatten());
        }
        push_opt_entry::<CirclePaintLayerCircleStrokeWidth>(&mut out, "circle-stroke-width", &self.circle_stroke_width);
        let ghost s9 = s8.push(opt_entry::<CirclePaintLayerCircleStrokeWidth>("circle-stroke-width"@, self.circle_stroke_width));
        proof {
            s8.lemma_flatten_push(opt_entry::<CirclePaintLayerCircleStrokeWidth>("circle-stroke-width"@, self.circle_stroke_width));
            assert(entries_model(out) =~= s9.flatten());
        }
        push_opt_entry::<CirclePaintLayerCircleTranslate>(&mut out, "circle-translate", &self.circle_translate);
        let ghost s10 = s9.push(opt_entry::<CirclePaintLayerCircleTranslate>("circle-translate"@, self.circle_translate));
        proof {
            s9.lemma_flatten_push(opt_entry::<CirclePaintLayerCircleTranslate>("circle-translate"@, self.circle_translate));
            assert(entries_model(out) =~= s10.flatten());
        }
        push_opt_entry::<CirclePaintLayerCircleTranslateAnchor>(&mut out, "circle-translate-anchor", &self.circle_translate_anchor);
        let ghost s11 = s10.push(opt_entry::<CirclePaintLayerCircleTranslateAnchor>("circle-translate-anchor"@, self.circle_translate_anchor));
        proof {
            s10.lemma_flatten_push(opt_entry::<CirclePaintLayerCircleTranslateAnchor>("circle-translate-anchor"@, self.circle_translate_anchor));
            assert(entries_model(out) =~= s11.flatten());
        }
        proof {
            assert(self.field_entries() == s11);
        }
        JsonValue::Object(out)
    }

    #[verifier::rlimit(30)]
    proof fn lemma_round_trip(self) {
        let keys = Self::field_keys();
        let es = self.field_entries();
        assert(keyed_by(es, keys));
        Self::lemma_keys_differ(0);
        lemma_lookup_flatten(es, keys, 0);
        lemma_lookup_opt_entry::<CirclePaintLayerCircleBlur>("circle-blur"@, self.circle_blur, "circle-blur"@);
        if self.circle_blur is Some {
            self.circle_blur->0.lemma_round_trip();
        }
        Self::lemma_keys_differ(1);
        lemma_lookup_flatten(es, keys, 1);
        lemma_lookup_opt_entry::<CirclePaintLayerCircleColor>("circle-color"@, self.circle_color, "circle-color"@);
        if self.circle_color is Some {
            self.circle_color->0.lemma_round_trip();
        }
        Self::lemma_keys_differ(2);
        lemma_lookup_flatten(es, keys, 2);
        lemma_lookup_opt_entry::<CirclePaintLayerCircleOpacity>("circle-opacity"@, self.circle_opacity, "circle-opacity"@);
        if self.circle_opacity is Some {
            self.circle_opacity->0.lemma_round_trip();
        }
        Self::lemma_keys_differ(3);
        lemma_lookup_flatten(es, keys, 3);
        lemma_lookup_opt_entry::<CirclePaintLayerCirclePitchAlignment>("circle-pitch-alignment"@, self.circle_pitch_alignment, "circle-pitch-alignment"@);
        if self.circle_pitch_alignment is Some {
            self.circle_pitch_alignment->0.lemma_round_trip();
        }
        Self::lemma_keys_differ(4);
        lemma_lookup_flatten(es, keys, 4);
        lemma_lookup_opt_entry::<CirclePaintLayerCirclePitchScale>("circle-pitch-scale"@, self.circle_pitch_scale, "circle-pitch-scale"@);
        if self.circle_pitch_scale is Some {
            self.circle_pitch_scale->0.lemma_round_trip();
        }
        Self::lemma_keys_differ(5);
        lemma_lookup_flatten(es, keys, 5);
        lemma_lookup_opt_entry::<CirclePaintLayerCircleRadius>("circle-radius"@, self.circle_radius, "circle-radius"@);
        if self.circle_radius is Some {
            self.circle_radius->0.lemma_round_trip();
        }
        Self::lemma_keys_differ(6);
        lemma_lookup_flatten(es, keys, 6);
        lemma_lookup_opt_entry::<CirclePaintLayerCircleStrokeColor>("circle-stroke-color"@, self.circle_stroke_color, "circle-stroke-color"@);
        if self.circle_stroke_color is Some {
            self.circle_stroke_color->0.lemma_round_trip();
        }
        Self::lemma_keys_differ(7);
        lemma_lookup_flatten(es, keys, 7);
        lemma_lookup_opt_entry::<CirclePaintLayerCircleStrokeOpacity>("circle-stroke-opacity"@, self.circle_stroke_opacity, "circle-stroke-opacity"@);
        if self.circle_stroke_opacity is Some {
            self.circle_stroke_opacity->0.lemma_round_trip();
        }
        Self::lemma_keys_differ(8);
        lemma_lookup_flatten(es, keys, 8);
        lemma_lookup_opt_entry::<CirclePaintLayerCircleStrokeWidth>("circle-stroke-width"@, self.circle_stroke_width, "circle-stroke-width"@);
        if self.circle_stroke_width is Some {
            self.circle_stroke_width->0.lemma_round_trip();
        }
        Self::lemma_keys_differ(9);
        lemma_lookup_flatten(es, keys, 9);
        lemma_lookup_opt_entry::<CirclePaintLayerCircleTranslate>("circle-translate"@, self.circle_translate, "circle-translate"@);
        if self.circle_translate is Some {
            self.circle_translate->0.lemma_round_trip();
        }
        Self::lemma_keys_differ(10);
        lemma_lookup_flatten(es, keys, 10);
        lemma_lookup_opt_entry::<CirclePaintLayerCircleTranslateAnchor>("circle-translate-anchor"@, self.circle_translate_anchor, "circle-translate-anchor"@);
        if self.circle_translate_anchor is Some {
            self.circle_translate_anchor->0.lemma_round_trip();
        }
    }
}

/// Nested expression: ramp (`interpolate` / …) or regular [`Number`] operators.
#[derive(PartialEq, Debug, Clone)]
pub enum CirclePaintLayerCircleBlurExpression {
    Number(Number),
    Ramp(NumberOrArrayOfNumberOrColorOrArrayOfColorOrProjection),
}

impl JsonDecode for CirclePaintLayerCircleBlurExpression {
    open spec fn accepts(v: Json) -> bool {
        Number::accepts(v) || NumberOrArrayOfNumberOrColorOrArrayOfColorOrProjection::accepts(v)
    }

    open spec fn decodes(v: Json, x: Self) -> bool {
        match x {
            CirclePaintLayerCircleBlurExpression::Number(t) => Number::accepts(v) && Number::decodes(v, t),
            CirclePaintLayerCircleBlurExpression::Ramp(t) => !Number::accepts(v) && NumberOrArrayOfNumberOrColorOrArrayOfColorOrProjection::accepts(v) && NumberOrArrayOfNumberOrColorOrArrayOfColorOrProjection::decodes(v, t),
        }
    }

    open spec fn rejection(v: Json) -> Seq<char> {
        "CirclePaintLayerCircleBlurExpression: no variant matched. Expected Number(Number) | Ramp(NumberOrArrayOfNumberOrColorOrArrayOfColorOrProjection). Errors: ["@ + "Number: "@ + Number::rejection(v) + "; Ramp: "@ + NumberOrArrayOfNumberOrColorOrArrayOfColorOrProjection::rejection(v) + "]"@
    }

    fn decode(v: &JsonValue) -> (r: Result<Self, String>) {
        let e0 = match Number::decode(v) {
            Ok(x) => {
                return Ok(CirclePaintLayerCircleBlurExpression::Number(x));
            },
            Err(e) => e,
        };
        let e1 = match NumberOrArrayOfNumberOrColorOrArrayOfColorOrProjection::decode(v) {
            Ok(x) => {
                return Ok(CirclePaintLayerCircleBlurExpression::Ramp(x));
            },
            Err(e) => e,
        };
        let mut m = "CirclePaintLayerCircleBlurExpression: no variant matched. Expected Number(Number) | Ramp(NumberOrArrayOfNumberOrColorOrArrayOfColorOrProjection). Errors: [".to_string();
        m.append("Number: ");
        m.append(e0.as_str());
        m.append("; Ramp: ");
        m.append(e1.as_str());
        m.append("]");
        Err(m)
    }
}

impl JsonEncode for CirclePaintLayerCircleBlurExpression {
    open spec fn to_json(self) -> Json {
        match self {
            CirclePaintLayerCircleBlurExpression::Number(t) => Number::to_json(t),
            CirclePaintLayerCircleBlurExpression::Ramp(t) => NumberOrArrayOfNumberOrColorOrArrayOfColorOrProjection::to_json(t),
        }
    }

    open spec fn round_trips(self) -> bool {
        match self {
            CirclePaintLayerCircleBlurExpression::Number(t) => Number::round_trips(t),
            CirclePaintLayerCircleBlurExpression::Ramp(t) => NumberOrArrayOfNumberOrColorOrArrayOfColorOrProjection::round_trips(t) && !Number::accepts(NumberOrArrayOfNumberOrColorOrArrayOfColorOrProjection::to_json(t)),
        }
    }

    fn encode(&self) -> (r: JsonValue) {
        match self {
            CirclePaintLayerCircleBlurExpression::Number(t) => Number::encode(t),
            CirclePaintLayerCircleBlurExpression::Ramp(t) => NumberOrArrayOfNumberOrColorOrArrayOfColorOrProjection::encode(t),
        }
    }

    proof fn lemma_round_trip(self) {
        match self {
            CirclePaintLayerCircleBlurExpression::Number(t) => Number::lemma_round_trip(t),
            CirclePaintLayerCircleBlurExpression::Ramp(t) => NumberOrArrayOfNumberOrColorOrArrayOfColorOrProjection::lemma_round_trip(t),
        }
    }
}

/// Amount to blur the circle. 1 blurs the circle such that only the centerpoint is full opacity.
#[derive(PartialEq, Debug, Clone)]
pub enum CirclePaintLayerCircleBlur {
    Expr(Box<CirclePaintLayerCircleBlurExpression>),
    Literal(JsonNumber),
}

impl JsonDecode for CirclePaintLayerCircleBlur {
    open spec fn accepts(v: Json) -> bool {
        CirclePaintLayerCircleBlurExpression::accepts(v) || JsonNumber::accepts(v)
    }

    open spec fn decodes(v: Json, x: Self) -> bool {
        match x {
            CirclePaintLayerCircleBlur::Expr(t) => CirclePaintLayerCircleBlurExpression::accepts(v) && CirclePaintLayerCircleBlurExpression::decodes(v, *t),
            CirclePaintLayerCircleBlur::Literal(t) => !CirclePaintLayerCircleBlurExpression::accepts(v) && JsonNumber::accepts(v) && JsonNumber::decodes(v, t),
        }
    }

    open spec fn rejection(v: Json) -> Seq<char> {
        "CirclePaintLayerCircleBlur: no variant matched. Expected Expr(CirclePaintLayerCircleBlurExpression) | Literal(serde_json::Number). Errors: ["@ + "Expr: "@ + CirclePaintLayerCircleBlurExpression::rejection(v) + "; Literal: "@ + JsonNumber::rejection(v) + "]"@
    }

    fn decode(v: &JsonValue) -> (r: Result<Self, String>) {
        let e0 = match CirclePaintLayerCircleBlurExpression::decode(v) {
            Ok(x) => {
                return Ok(CirclePaintLayerCircleBlur::Expr(Box::new(x)));
            },
            Err(e) => e,
        };
        let e1 = match JsonNumber::decode(v) {
            Ok(x) => {
                return Ok(CirclePaintLayerCircleBlur::Literal(x));
            },
            Err(e) => e,
        };
        let mut m = "CirclePaintLayerCircleBlur: no variant matched. Expected Expr(CirclePaintLayerCircleBlurExpression) | Literal(serde_json::Number). Errors: [".to_string();
        m.append("Expr: ");
        m.append(e0.as_str());
        m.append("; Literal: ");
        m.append(e1.as_str());
        m.append("]");
        Err(m)
    }
}

impl JsonEncode for CirclePaintLayerCircleBlur {
    open spec fn to_json(self) -> Json {
        match self {
            CirclePaintLayerCircleBlur::Expr(t) => CirclePaintLayerCircleBlurExpression::to_json(*t),
            CirclePaintLayerCircleBlur::Literal(t) => JsonNumber::to_json(t),
        }
    }

    open spec fn round_trips(self) -> bool {
        match self {
            CirclePaintLayerCircleBlur::Expr(t) => CirclePaintLayerCircleBlurExpression::round_trips(*t),
            CirclePaintLayerCircleBlur::Literal(t) => JsonNumber::round_trips(t) && !CirclePaintLayerCircleBlurExpression::accepts(JsonNumber::to_json(t)),
        }
    }

    fn encode(&self) -> (r: JsonValue) {
        match self {
            CirclePaintLayerCircleBlur::Expr(t) => CirclePaintLayerCircleBlurExpression::encode(&**t),
            CirclePaintLayerCircleBlur::Literal(t) => JsonNumber::encode(t),
        }
    }

    proof fn lemma_round_trip(self) {
        match self {
            CirclePaintLayerCircleBlur::Expr(t) => CirclePaintLayerCircleBlurExpression::lemma_round_trip(*t),
            CirclePaintLayerCircleBlur::Literal(t) => JsonNumber::lemma_round_trip(t),
        }
    }
}

impl Default for CirclePaintLayerCircleBlur {
    fn default() -> (r: Self)
        ensures
            r.to_json() == Json::Number("0"@),
            r is Literal,
    {
        let r = CirclePaintLayerCircleBlur::Literal(JsonNumber::from_literal("0"));
        r
    }
}

/// Nested expression: ramp (`interpolate-hcl`, …) or [`Color`] operators.
#[derive(PartialEq, Debug, Clone)]
pub enum CirclePaintLayerCircleColorExpression {
    Color(Color),
    Ramp(ColorOrArrayOfColor),
}

impl JsonDecode for CirclePaintLayerCircleColorExpression {
    open spec fn accepts(v: Json) -> bool {
        Color::accepts(v) || ColorOrArrayOfColor::accepts(v)
    }

    open spec fn decodes(v: Json, x: Self) -> bool {
        match x {
            CirclePaintLayerCircleColorExpression::Color(t) => Color::accepts(v) && Color::decodes(v, t),
            CirclePaintLayerCircleColorExpression::Ramp(t) => !Color::accepts(v) && ColorOrArrayOfColor::accepts(v) && ColorOrArrayOfColor::decodes(v, t),
        }
    }

    open spec fn rejection(v: Json) -> Seq<char> {
        "CirclePaintLayerCircleColorExpression: no variant matched. Expected Color(Color) | Ramp(ColorOrArrayOfColor). Errors: ["@ + "Color: "@ + Color::rejection(v) + "; Ramp: "@ + ColorOrArrayOfColor::rejection(v) + "]"@
    }

    fn decode(v: &JsonValue) -> (r: Result<Self, String>) {
        let e0 = match Color::decode(v) {
            Ok(x) => {
                return Ok(CirclePaintLayerCircleColorExpression::Color(x));
            },
            Err(e) => e,
        };
        let e1 = match ColorOrArrayOfColor::decode(v) {
            Ok(x) => {
                return Ok(CirclePaintLayerCircleColorExpression::Ramp(x));
            },
            Err(e) => e,
        };
        let mut m = "CirclePaintLayerCircleColorExpression: no variant matched. Expected Color(Color) | Ramp(ColorOrArrayOfColor). Errors: [".to_string();
        m.append("Color: ");
        m.append(e0.as_str());
        m.append("; Ramp: ");
        m.append(e1.as_str());
        m.append("]");
        Err(m)
    }
}

impl JsonEncode for CirclePaintLayerCircleColorExpression {
    open spec fn to_json(self) -> Json {
        match self {
            CirclePaintLayerCircleColorExpression::Color(t) => Color::to_json(t),
            CirclePaintLayerCircleColorExpression::Ramp(t) => ColorOrArrayOfColor::to_json(t),
        }
    }

    open spec fn round_trips(self) -> bool {
        match self {
            CirclePaintLayerCircleColorExpression::Color(t) => Color::round_trips(t),
            CirclePaintLayerCircleColorExpression::Ramp(t) => ColorOrArrayOfColor::round_trips(t) && !Color::accepts(ColorOrArrayOfColor::to_json(t)),
        }
    }

    fn encode(&self) -> (r: JsonValue) {
        match self {
            CirclePaintLayerCircleColorExpression::Color(t) => Color::encode(t),
            CirclePaintLayerCircleColorExpression::Ramp(t) => ColorOrArrayOfColor::encode(t),
        }
    }

    proof fn lemma_round_trip(self) {
        match self {
            CirclePaintLayerCircleColorExpression::Color(t) => Color::lemma_round_trip(t),
            CirclePaintLayerCircleColorExpression::Ramp(t) => ColorOrArrayOfColor::lemma_round_trip(t),
        }
    }
}

/// The fill color of the circle.
#[derive(PartialEq, Debug, Clone)]
pub enum CirclePaintLayerCircleColor {
    Expr(Box<CirclePaintLayerCircleColorExpression>),
    Literal(JsonValue),
}

impl JsonDecode for CirclePaintLayerCircleColor {
    open spec fn accepts(v: Json) -> bool {
        CirclePaintLayerCircleColorExpression::accepts(v) || JsonValue::accepts(v)
    }

    open spec fn decodes(v: Json, x: Self) -> bool {
        match x {
            CirclePaintLayerCircleColor::Expr(t) => CirclePaintLayerCircleColorExpression::accepts(v) && CirclePaintLayerCircleColorExpression::decodes(v, *t),
            CirclePaintLayerCircleColor::Literal(t) => !CirclePaintLayerCircleColorExpression::accepts(v) && JsonValue::accepts(v) && JsonValue::decodes(v, t),
        }
    }

    open spec fn rejection(v: Json) -> Seq<char> {
        "CirclePaintLayerCircleColor: no variant matched. Expected Expr(CirclePaintLayerCircleColorExpression) | Literal(serde_json::Value). Errors: ["@ + "Expr: "@ + CirclePaintLayerCircleColorExpression::rejection(v) + "; Literal: "@ + JsonValue::rejection(v) + "]"@
    }

    fn decode(v: &JsonValue) -> (r: Result<Self, String>) {
        let e0 = match CirclePaintLayerCircleColorExpression::decode(v) {
            Ok(x) => {
                return Ok(CirclePaintLayerCircleColor::Expr(Box::new(x)));
            },
            Err(e) => e,
        };
        let e1 = match JsonValue::decode(v) {
            Ok(x) => {
                return Ok(CirclePaintLayerCircleColor::Literal(x));
            },
            Err(e) => e,
        };
        let mut m = "CirclePaintLayerCircleColor: no variant matched. Expected Expr(CirclePaintLayerCircleColorExpression) | Literal(serde_json::Value). Errors: [".to_string();
        m.append("Expr: ");
        m.append(e0.as_str());
        m.append("; Literal: ");
        m.append(e1.as_str());
        m.append("]");
        Err(m)
    }
}

impl JsonEncode for CirclePaintLayerCircleColor {
    open spec fn to_json(self) -> Json {
        match self {
            CirclePaintLayerCircleColor::Expr(t) => CirclePaintLayerCircleColorExpression::to_json(*t),
            CirclePaintLayerCircleColor::Literal(t) => JsonValue::to_json(t),
        }
    }

    open spec fn round_trips(self) -> bool {
        match self {
            CirclePaintLayerCircleColor::Expr(t) => CirclePaintLayerCircleColorExpression::round_trips(*t),
            CirclePaintLayerCircleColor::Literal(t) => JsonValue::round_trips(t) && !CirclePaintLayerCircleColorExpression::accepts(JsonValue::to_json(t)),
        }
    }

    fn encode(&self) -> (r: JsonValue) {
        match self {
            CirclePaintLayerCircleColor::Expr(t) => CirclePaintLayerCircleColorExpression::encode(&**t),
            CirclePaintLayerCircleColor::Literal(t) => JsonValue::encode(t),
        }
    }

    proof fn lemma_round_trip(self) {
        match self {
            CirclePaintLayerCircleColor::Expr(t) => CirclePaintLayerCircleColorExpression::lemma_round_trip(*t),
            CirclePaintLayerCircleColor::Literal(t) => JsonValue::lemma_round_trip(t),
        }
    }
}

impl Default for CirclePaintLayerCircleColor {
    fn default() -> (r: Self)
        ensures
            r.to_json() == Json::Str("#000000"@),
            r is Literal,
    {
        let r = CirclePaintLayerCircleColor::Literal(JsonValue::String("#000000".to_string()));
        r
    }
}

/// Nested expression: ramp (`interpolate` / …) or regular [`Number`] operators.
#[derive(PartialEq, Debug, Clone)]
pub enum CirclePaintLayerCircleOpacityExpression {
    Number(Number),
    Ramp(NumberOrArrayOfNumberOrColorOrArrayOfColorOrProjection),
}

impl JsonDecode for CirclePaintLayerCircleOpacityExpression {
    open spec fn accepts(v: Json) -> bool {
        Number::accepts(v) || NumberOrArrayOfNumberOrColorOrArrayOfColorOrProjection::accepts(v)
    }

    open spec fn decodes(v: Json, x: Self) -> bool {
        match x {
            CirclePaintLayerCircleOpacityExpression::Number(t) => Number::accepts(v) && Number::decodes(v, t),
            CirclePaintLayerCircleOpacityExpression::Ramp(t) => !Number::accepts(v) && NumberOrArrayOfNumberOrColorOrArrayOfColorOrProjection::accepts(v) && NumberOrArrayOfNumberOrColorOrArrayOfColorOrProjection::decodes(v, t),
        }
    }

    open spec fn rejection(v: Json) -> Seq<char> {
        "CirclePaintLayerCircleOpacityExpression: no variant matched. Expected Number(Number) | Ramp(NumberOrArrayOfNumberOrColorOrArrayOfColorOrProjection). Errors: ["@ + "Number: "@ + Number::rejection(v) + "; Ramp: "@ + NumberOrArrayOfNumberOrColorOrArrayOfColorOrProjection::rejection(v) + "]"@
    }

    fn decode(v: &JsonValue) -> (r: Result<Self, String>) {
        let e0 = match Number::decode(v) {
            Ok(x) => {
                return Ok(CirclePaintLayerCircleOpacityExpression::Number(x));
            },
            Err(e) => e,
        };
        let e1 = match NumberOrArrayOfNumberOrColorOrArrayOfColorOrProjection::decode(v) {
            Ok(x) => {
                return Ok(CirclePaintLayerCircleOpacityExpression::Ramp(x));
            },
            Err(e) => e,
        };
        let mut m = "CirclePaintLayerCircleOpacityExpression: no variant matched. Expected Number(Number) | Ramp(NumberOrArrayOfNumberOrColorOrArrayOfColorOrProjection). Errors: [".to_string();
        m.append("Number: ");
        m.append(e0.as_str());
        m.append("; Ramp: ");
        m.append(e1.as_str());
        m.append("]");
        Err(m)
    }
}

impl JsonEncode for CirclePaintLayerCircleOpacityExpression {
    open spec fn to_json(self) -> Json {
        match self {
            CirclePaintLayerCircleOpacityExpression::Number(t) => Number::to_json(t),
            CirclePaintLayerCircleOpacityExpression::Ramp(t) => NumberOrArrayOfNumberOrColorOrArrayOfColorOrProjection::to_json(t),
        }
    }

    open spec fn round_trips(self) -> bool {
        match self {
            CirclePaintLayerCircleOpacityExpression::Number(t) => Number::round_trips(t),
            CirclePaintLayerCircleOpacityExpression::Ramp(t) => NumberOrArrayOfNumberOrColorOrArrayOfColorOrProjection::round_trips(t) && !Number::accepts(NumberOrArrayOfNumberOrColorOrArrayOfColorOrProjection::to_json(t)),
        }
    }

    fn encode(&self) -> (r: JsonValue) {
        match self {
            CirclePaintLayerCircleOpacityExpression::Number(t) => Number::encode(t),
            CirclePaintLayerCircleOpacityExpression::Ramp(t) => NumberOrArrayOfNumberOrColorOrArrayOfColorOrProjection::encode(t),
        }
    }

    proof fn lemma_round_trip(self) {
        match self {
            CirclePaintLayerCircleOpacityExpression::Number(t) => Number::lemma_round_trip(t),
            CirclePaintLayerCircleOpacityExpression::Ramp(t) => NumberOrArrayOfNumberOrColorOrArrayOfColorOrProjection::lemma_round_trip(t),
        }
    }
}

/// The opacity at which the circle will be drawn.
#[derive(PartialEq, Debug, Clone)]
pub enum CirclePaintLayerCircleOpacity {
    Expr(Box<CirclePaintLayerCircleOpacityExpression>),
    Literal(JsonNumber),
}

impl JsonDecode for CirclePaintLayerCircleOpacity {
    open spec fn accepts(v: Json) -> bool {
        CirclePaintLayerCircleOpacityExpression::accepts(v) || JsonNumber::accepts(v)
    }

    open spec fn decodes(v: Json, x: Self) -> bool {
        match x {
            CirclePaintLayerCircleOpacity::Expr(t) => CirclePaintLayerCircleOpacityExpression::accepts(v) && CirclePaintLayerCircleOpacityExpression::decodes(v, *t),
            CirclePaintLayerCircleOpacity::Literal(t) => !CirclePaintLayerCircleOpacityExpression::accepts(v) && JsonNumber::accepts(v) && JsonNumber::decodes(v, t),
        }
    }

    open spec fn rejection(v: Json) -> Seq<char> {
        "CirclePaintLayerCircleOpacity: no variant matched. Expected Expr(CirclePaintLayerCircleOpacityExpression) | Literal(serde_json::Number). Errors: ["@ + "Expr: "@ + CirclePaintLayerCircleOpacityExpression::rejection(v) + "; Literal: "@ + JsonNumber::rejection(v) + "]"@
    }

    fn decode(v: &JsonValue) -> (r: Result<Self, String>) {
        let e0 = match CirclePaintLayerCircleOpacityExpression::decode(v) {
            Ok(x) => {
                return Ok(CirclePaintLayerCircleOpacity::Expr(Box::new(x)));
            },
            Err(e) => e,
        };
        let e1 = match JsonNumber::decode(v) {
            Ok(x) => {
                return Ok(CirclePaintLayerCircleOpacity::Literal(x));
            },
            Err(e) => e,
        };
        let mut m = "CirclePaintLayerCircleOpacity: no variant matched. Expected Expr(CirclePaintLayerCircleOpacityExpression) | Literal(serde_json::Number). Errors: [".to_string();
        m.append("Expr: ");
        m.append(e0.as_str());
        m.append("; Literal: ");
        m.append(e1.as_str());
        m.append("]");
        Err(m)
    }
}

impl JsonEncode for CirclePaintLayerCircleOpacity {
    open spec fn to_json(self) -> Json {
        match self {
            CirclePaintLayerCircleOpacity::Expr(t) => CirclePaintLayerCircleOpacityExpression::to_json(*t),
            CirclePaintLayerCircleOpacity::Literal(t) => JsonNumber::to_json(t),
        }
    }

    open spec fn round_trips(self) -> bool {
        match self {
            CirclePaintLayerCircleOpacity::Expr(t) => CirclePaintLayerCircleOpacityExpression::round_trips(*t),
            CirclePaintLayerCircleOpacity::Literal(t) => JsonNumber::round_trips(t) && !CirclePaintLayerCircleOpacityExpression::accepts(JsonNumber::to_json(t)),
        }
    }

    fn encode(&self) -> (r: JsonValue) {
        match self {
            CirclePaintLayerCircleOpacity::Expr(t) => CirclePaintLayerCircleOpacityExpression::encode(&**t),
            CirclePaintLayerCircleOpacity::Literal(t) => JsonNumber::encode(t),
        }
    }

    proof fn lemma_round_trip(self) {
        match self {
            CirclePaintLayerCircleOpacity::Expr(t) => CirclePaintLayerCircleOpacityExpression::lemma_round_trip(*t),
            CirclePaintLayerCircleOpacity::Literal(t) => JsonNumber::lemma_round_trip(t),
        }
    }
}

impl Default for CirclePaintLayerCircleOpacity {
    fn default() -> (r: Self)
        ensures
            r.to_json() == Json::Number("1"@),
            r is Literal,
    {
        let r = CirclePaintLayerCircleOpacity::Literal(JsonNumber::from_literal("1"));
        r
    }
}

/// Orientation of circle when map is pitched.
#[derive(PartialEq, Eq, Debug, Clone, Copy)]
pub enum CirclePaintLayerCirclePitchAlignment {
    MapValue,
    Viewport,
}

impl CirclePaintLayerCirclePitchAlignment {
    /// The name that stands for the value in a style document.
    pub open spec fn spec_name(self) -> Seq<char> {
        match self {
            CirclePaintLayerCirclePitchAlignment::MapValue => "map"@,
            CirclePaintLayerCirclePitchAlignment::Viewport => "viewport"@,
        }
    }

    /// The name that stands for the value in a style document.
    pub fn name(&self) -> (r: &'static str)
        ensures
            r@ == self.spec_name(),
    {
        match self {
            CirclePaintLayerCirclePitchAlignment::MapValue => "map",
            CirclePaintLayerCirclePitchAlignment::Viewport => "viewport",
        }
    }

    /// The value that a name stands for, if any.
    pub fn from_name(s: &str) -> (r: Option<CirclePaintLayerCirclePitchAlignment>)
        ensures
            r matches Some(x) ==> x.spec_name() == s@,
            r is None ==> forall|x: CirclePaintLayerCirclePitchAlignment| x.spec_name() != s@,
    {
        if str_eq(s, "map") {
            Some(CirclePaintLayerCirclePitchAlignment::MapValue)
        } else if str_eq(s, "viewport") {
            Some(CirclePaintLayerCirclePitchAlignment::Viewport)
        } else {
            None
        }
    }
}

impl CirclePaintLayerCirclePitchAlignment {
    /// Each value is read from, and written as, the name that the style specification gives
    /// it, and a document holding one of these names reads as that value and no other.
    pub proof fn lemma_read_by_name()
        ensures
            forall|x: CirclePaintLayerCirclePitchAlignment| <CirclePaintLayerCirclePitchAlignment as JsonDecode>::decodes(Json::Str("viewport"@), x) <==> x == CirclePaintLayerCirclePitchAlignment::Viewport,
            <CirclePaintLayerCirclePitchAlignment as JsonEncode>::to_json(CirclePaintLayerCirclePitchAlignment::MapValue) == Json::Str("map"@),
            <CirclePaintLayerCirclePitchAlignment as JsonEncode>::to_json(CirclePaintLayerCirclePitchAlignment::Viewport) == Json::Str("viewport"@),
            forall|x: CirclePaintLayerCirclePitchAlignment| <CirclePaintLayerCirclePitchAlignment as JsonDecode>::decodes(Json::Str("map"@), x) <==> x == CirclePaintLayerCirclePitchAlignment::MapValue,
    {
        reveal_strlit("viewport");
        reveal_strlit("map");
        assert("map"@.len() != "viewport"@.len());
    }
}

impl JsonDecode for CirclePaintLayerCirclePitchAlignment {
    /// The name of a value, or an object whose one entry has the name as its key and `null`.
    open spec fn accepts(v: Json) -> bool {
        ||| (v is Str && exists|x: CirclePaintLayerCirclePitchAlignment| x.spec_name() == v->Str_0)
        ||| (v is Object && v->Object_0.len() == 1 && v->Object_0[0].1 is Null && exists|x: CirclePaintLayerCirclePitchAlignment| x.spec_name() == v->Object_0[0].0)
    }

    open spec fn decodes(v: Json, x: Self) -> bool {
        ||| v == Json::Str(x.spec_name())
        ||| (v is Object && v->Object_0.len() == 1 && v->Object_0[0] == (x.spec_name(), Json::Null))
    }

    open spec fn rejection(v: Json) -> Seq<char> {
        if v is Str {
            unknown_variant(v->Str_0) + ", expected `map` or `viewport`"@
        } else if v is Object {
            let o = v->Object_0;
            if o.len() != 1 {
                "invalid value: map, expected map with a single key"@
            } else if !(exists|x: CirclePaintLayerCirclePitchAlignment| x.spec_name() == o[0].0) {
                unknown_variant(o[0].0) + ", expected `map` or `viewport`"@
            } else {
                type_error(o[0].1, "unit"@)
            }
        } else {
            type_error(v, "string or map"@)
        }
    }

    fn decode(v: &JsonValue) -> (r: Result<Self, String>) {
        match v {
            JsonValue::String(s) => match Self::from_name(s.as_str()) {
                Some(x) => Ok(x),
                None => {
                    let mut m = make_unknown_variant(s.as_str());
                    m.append(", expected `map` or `viewport`");
                    Err(m)
                },
            },
            JsonValue::Object(fields) => {
                if fields.len() != 1 {
                    return Err("invalid value: map, expected map with a single key".to_string());
                }
                proof {
                    assert(entries_model(*fields)[0] == (fields@[0].0@, fields@[0].1.model()));
                }
                match Self::from_name(fields[0].0.as_str()) {
                    Some(x) => match &fields[0].1 {
                        JsonValue::Null => Ok(x),
                        _ => Err(make_type_error(&fields[0].1, "unit")),
                    },
                    None => {
                        let mut m = make_unknown_variant(fields[0].0.as_str());
                        m.append(", expected `map` or `viewport`");
                        Err(m)
                    },
                }
            },
            _ => Err(make_type_error(v, "string or map")),
        }
    }
}

impl JsonEncode for CirclePaintLayerCirclePitchAlignment {
    open spec fn to_json(self) -> Json {
        Json::Str(self.spec_name())
    }

    open spec fn round_trips(self) -> bool {
        true
    }

    fn encode(&self) -> (r: JsonValue) {
        JsonValue::String(self.name().to_string())
    }

    proof fn lemma_round_trip(self) {
    }
}

impl Default for CirclePaintLayerCirclePitchAlignment {
    fn default() -> (r: Self)
        ensures
            r == CirclePaintLayerCirclePitchAlignment::Viewport,
    {
        CirclePaintLayerCirclePitchAlignment::Viewport
    }
}

/// Controls the scaling behavior of the circle when the map is pitched.
#[derive(PartialEq, Eq, Debug, Clone, Copy)]
pub enum CirclePaintLayerCirclePitchScale {
    MapValue,
    Viewport,
}

impl CirclePaintLayerCirclePitchScale {
    /// The name that stands for the value in a style document.
    pub open spec fn spec_name(self) -> Seq<char> {
        match self {
            CirclePaintLayerCirclePitchScale::MapValue => "map"@,
            CirclePaintLayerCirclePitchScale::Viewport => "viewport"@,
        }
    }

    /// The name that stands for the value in a style document.
    pub fn name(&self) -> (r: &'static str)
        ensures
            r@ == self.spec_name(),
    {
        match self {
            CirclePaintLayerCirclePitchScale::MapValue => "map",
            CirclePaintLayerCirclePitchScale::Viewport => "viewport",
        }
    }

    /// The value that a name stands for, if any.
    pub fn from_name(s: &str) -> (r: Option<CirclePaintLayerCirclePitchScale>)
        ensures
            r matches Some(x) ==> x.spec_name() == s@,
            r is None ==> forall|x: CirclePaintLayerCirclePitchScale| x.spec_name() != s@,
    {
        if str_eq(s, "map") {
            Some(CirclePaintLayerCirclePitchScale::MapValue)
        } else if str_eq(s, "viewport") {
            Some(CirclePaintLayerCirclePitchScale::Viewport)
        } else {
            None
        }
    }
}

impl CirclePaintLayerCirclePitchScale {
    /// Each value is read from, and written as, the name that the style specification gives
    /// it, and a document holding one of these names reads as that value and no other.
    pub proof fn lemma_read_by_name()
        ensures
            forall|x: CirclePaintLayerCirclePitchScale| <CirclePaintLayerCirclePitchScale as JsonDecode>::decodes(Json::Str("viewport"@), x) <==> x == CirclePaintLayerCirclePitchScale::Viewport,
            forall|x: CirclePaintLayerCirclePitchScale| <CirclePaintLayerCirclePitchScale as JsonDecode>::decodes(Json::Str("map"@), x) <==> x == CirclePaintLayerCirclePitchScale::MapValue,
            <CirclePaintLayerCirclePitchScale as JsonEncode>::to_json(CirclePaintLayerCirclePitchScale::MapValue) == Json::Str("map"@),
            <CirclePaintLayerCirclePitchScale as JsonEncode>::to_json(CirclePaintLayerCirclePitchScale::Viewport) == Json::Str("viewport"@),
    {
        reveal_strlit("viewport");
        reveal_strlit("map");
        assert("map"@.len() != "viewport"@.len());
    }
}

impl JsonDecode for CirclePaintLayerCirclePitchScale {
    /// The name of a value, or an object whose one entry has the name as its key and `null`.
    open spec fn accepts(v: Json) -> bool {
        ||| (v is Str && exists|x: CirclePaintLayerCirclePitchScale| x.spec_name() == v->Str_0)
        ||| (v is Object && v->Object_0.len() == 1 && v->Object_0[0].1 is Null && exists|x: CirclePaintLayerCirclePitchScale| x.spec_name() == v->Object_0[0].0)
    }

    open spec fn decodes(v: Json, x: Self) -> bool {
        ||| v == Json::Str(x.spec_name())
        ||| (v is Object && v->Object_0.len() == 1 && v->Object_0[0] == (x.spec_name(), Json::Null))
    }

    open spec fn rejection(v: Json) -> Seq<char> {
        if v is Str {
            unknown_variant(v->Str_0) + ", expected `map` or `viewport`"@
        } else if v is Object {
            let o = v->Object_0;
            if o.len() != 1 {
                "invalid value: map, expected map with a single key"@
            } else if !(exists|x: CirclePaintLayerCirclePitchScale| x.spec_name() == o[0].0) {
                unknown_variant(o[0].0) + ", expected `map` or `viewport`"@
            } else {
                type_error(o[0].1, "unit"@)
            }
        } else {
            type_error(v, "string or map"@)
        }
    }

    fn decode(v: &JsonValue) -> (r: Result<Self, String>) {
        match v {
            JsonValue::String(s) => match Self::from_name(s.as_str()) {
                Some(x) => Ok(x),
                None => {
                    let mut m = make_unknown_variant(s.as_str());
                    m.append(", expected `map` or `viewport`");
                    Err(m)
                },
            },
            JsonValue::Object(fields) => {
                if fields.len() != 1 {
                    return Err("invalid value: map, expected map with a single key".to_string());
                }
                proof {
                    assert(entries_model(*fields)[0] == (fields@[0].0@, fields@[0].1.model()));
                }
                match Self::from_name(fields[0].0.as_str()) {
                    Some(x) => match &fields[0].1 {
                        JsonValue::Null => Ok(x),
                        _ => Err(make_type_error(&fields[0].1, "unit")),
                    },
                    None => {
                        let mut m = make_unknown_variant(fields[0].0.as_str());
                        m.append(", expected `map` or `viewport`");
                        Err(m)
                    },
                }
            },
            _ => Err(make_type_error(v, "string or map")),
        }
    }
}

impl JsonEncode for CirclePaintLayerCirclePitchScale {
    open spec fn to_json(self) -> Json {
        Json::Str(self.spec_name())
    }

    open spec fn round_trips(self) -> bool {
        true
    }

    fn encode(&self) -> (r: JsonValue) {
        JsonValue::String(self.name().to_string())
    }

    proof fn lemma_round_trip(self) {
    }
}

impl Default for CirclePaintLayerCirclePitchScale {
    fn default() -> (r: Self)
        ensures
            r == CirclePaintLayerCirclePitchScale::MapValue,
    {
        CirclePaintLayerCirclePitchScale::MapValue
    }
}

/// Nested expression: ramp (`interpolate` / …) or regular [`Number`] operators.
#[derive(PartialEq, Debug, Clone)]
pub enum CirclePaintLayerCircleRadiusExpression {
    Number(Number),
    Ramp(NumberOrArrayOfNumberOrColorOrArrayOfColorOrProjection),
}

impl JsonDecode for CirclePaintLayerCircleRadiusExpression {
    open spec fn accepts(v: Json) -> bool {
        Number::accepts(v) || NumberOrArrayOfNumberOrColorOrArrayOfColorOrProjection::accepts(v)
    }

    open spec fn decodes(v: Json, x: Self) -> bool {
        match x {
            CirclePaintLayerCircleRadiusExpression::Number(t) => Number::accepts(v) && Number::decodes(v, t),
            CirclePaintLayerCircleRadiusExpression::Ramp(t) => !Number::accepts(v) && NumberOrArrayOfNumberOrColorOrArrayOfColorOrProjection::accepts(v) && NumberOrArrayOfNumberOrColorOrArrayOfColorOrProjection::decodes(v, t),
        }
    }

    open spec fn rejection(v: Json) -> Seq<char> {
        "CirclePaintLayerCircleRadiusExpression: no variant matched. Expected Number(Number) | Ramp(NumberOrArrayOfNumberOrColorOrArrayOfColorOrProjection). Errors: ["@ + "Number: "@ + Number::rejection(v) + "; Ramp: "@ + NumberOrArrayOfNumberOrColorOrArrayOfColorOrProjection::rejection(v) + "]"@
    }

    fn decode(v: &JsonValue) -> (r: Result<Self, String>) {
        let e0 = match Number::decode(v) {
            Ok(x) => {
                return Ok(CirclePaintLayerCircleRadiusExpression::Number(x));
            },
            Err(e) => e,
        };
        let e1 = match NumberOrArrayOfNumberOrColorOrArrayOfColorOrProjection::decode(v) {
            Ok(x) => {
                return Ok(CirclePaintLayerCircleRadiusExpression::Ramp(x));
            },
            Err(e) => e,
        };
        let mut m = "CirclePaintLayerCircleRadiusExpression: no variant matched. Expected Number(Number) | Ramp(NumberOrArrayOfNumberOrColorOrArrayOfColorOrProjection). Errors: [".to_string();
        m.append("Number: ");
        m.append(e0.as_str());
        m.append("; Ramp: ");
        m.append(e1.as_str());
        m.append("]");
        Err(m)
    }
}

impl JsonEncode for CirclePaintLayerCircleRadiusExpression {
    open spec fn to_json(self) -> Json {
        match self {
            CirclePaintLayerCircleRadiusExpression::Number(t) => Number::to_json(t),
            CirclePaintLayerCircleRadiusExpression::Ramp(t) => NumberOrArrayOfNumberOrColorOrArrayOfColorOrProjection::to_json(t),
        }
    }

    open spec fn round_trips(self) -> bool {
        match self {
            CirclePaintLayerCircleRadiusExpression::Number(t) => Number::round_trips(t),
            CirclePaintLayerCircleRadiusExpression::Ramp(t) => NumberOrArrayOfNumberOrColorOrArrayOfColorOrProjection::round_trips(t) && !Number::accepts(NumberOrArrayOfNumberOrColorOrArrayOfColorOrProjection::to_json(t)),
        }
    }

    fn encode(&self) -> (r: JsonValue) {
        match self {
            CirclePaintLayerCircleRadiusExpression::Number(t) => Number::encode(t),
            CirclePaintLayerCircleRadiusExpression::Ramp(t) => NumberOrArrayOfNumberOrColorOrArrayOfColorOrProjection::encode(t),
        }
    }

    proof fn lemma_round_trip(self) {
        match self {
            CirclePaintLayerCircleRadiusExpression::Number(t) => Number::lemma_round_trip(t),
            CirclePaintLayerCircleRadiusExpression::Ramp(t) => NumberOrArrayOfNumberOrColorOrArrayOfColorOrProjection::lemma_round_trip(t),
        }
    }
}

/// Circle radius.
#[derive(PartialEq, Debug, Clone)]
pub enum CirclePaintLayerCircleRadius {
    Expr(Box<CirclePaintLayerCircleRadiusExpression>),
    Literal(JsonNumber),
}

impl JsonDecode for CirclePaintLayerCircleRadius {
    open spec fn accepts(v: Json) -> bool {
        CirclePaintLayerCircleRadiusExpression::accepts(v) || JsonNumber::accepts(v)
    }

    open spec fn decodes(v: Json, x: Self) -> bool {
        match x {
            CirclePaintLayerCircleRadius::Expr(t) => CirclePaintLayerCircleRadiusExpression::accepts(v) && CirclePaintLayerCircleRadiusExpression::decodes(v, *t),
            CirclePaintLayerCircleRadius::Literal(t) => !CirclePaintLayerCircleRadiusExpression::accepts(v) && JsonNumber::accepts(v) && JsonNumber::decodes(v, t),
        }
    }

    open spec fn rejection(v: Json) -> Seq<char> {
        "CirclePaintLayerCircleRadius: no variant matched. Expected Expr(CirclePaintLayerCircleRadiusExpression) | Literal(serde_json::Number). Errors: ["@ + "Expr: "@ + CirclePaintLayerCircleRadiusExpression::rejection(v) + "; Literal: "@ + JsonNumber::rejection(v) + "]"@
    }

    fn decode(v: &JsonValue) -> (r: Result<Self, String>) {
        let e0 = match CirclePaintLayerCircleRadiusExpression::decode(v) {
            Ok(x) => {
                return Ok(CirclePaintLayerCircleRadius::Expr(Box::new(x)));
            },
            Err(e) => e,
        };
        let e1 = match JsonNumber::decode(v) {
            Ok(x) => {
                return Ok(CirclePaintLayerCircleRadius::Literal(x));
            },
            Err(e) => e,
        };
        let mut m = "CirclePaintLayerCircleRadius: no variant matched. Expected Expr(CirclePaintLayerCircleRadiusExpression) | Literal(serde_json::Number). Errors: [".to_string();
        m.append("Expr: ");
        m.append(e0.as_str());
        m.append("; Literal: ");
        m.append(e1.as_str());
        m.append("]");
        Err(m)
    }
}

impl JsonEncode for CirclePaintLayerCircleRadius {
    open spec fn to_json(self) -> Json {
        match self {
            CirclePaintLayerCircleRadius::Expr(t) => CirclePaintLayerCircleRadiusExpression::to_json(*t),
            CirclePaintLayerCircleRadius::Literal(t) => JsonNumber::to_json(t),
        }
    }

    open spec fn round_trips(self) -> bool {
        match self {
            CirclePaintLayerCircleRadius::Expr(t) => CirclePaintLayerCircleRadiusExpression::round_trips(*t),
            CirclePaintLayerCircleRadius::Literal(t) => JsonNumber::round_trips(t) && !CirclePaintLayerCircleRadiusExpression::accepts(JsonNumber::to_json(t)),
        }
    }

    fn encode(&self) -> (r: JsonValue) {
        match self {
            CirclePaintLayerCircleRadius::Expr(t) => CirclePaintLayerCircleRadiusExpression::encode(&**t),
            CirclePaintLayerCircleRadius::Literal(t) => JsonNumber::encode(t),
        }
    }

    proof fn lemma_round_trip(self) {
        match self {
            CirclePaintLayerCircleRadius::Expr(t) => CirclePaintLayerCircleRadiusExpression::lemma_round_trip(*t),
            CirclePaintLayerCircleRadius::Literal(t) => JsonNumber::lemma_round_trip(t),
        }
    }
}

impl Default for CirclePaintLayerCircleRadius {
    fn default() -> (r: Self)
        ensures
            r.to_json() == Json::Number("5"@),
            r is Literal,
    {
        let r = CirclePaintLayerCircleRadius::Literal(JsonNumber::from_literal("5"));
        r
    }
}

/// Nested expression: ramp (`interpolate-hcl`, …) or [`Color`] operators.
#[derive(PartialEq, Debug, Clone)]
pub enum CirclePaintLayerCircleStrokeColorExpression {
    Color(Color),
    Ramp(ColorOrArrayOfColor),
}

impl JsonDecode for CirclePaintLayerCircleStrokeColorExpression {
    open spec fn accepts(v: Json) -> bool {
        Color::accepts(v) || ColorOrArrayOfColor::accepts(v)
    }

    open spec fn decodes(v: Json, x: Self) -> bool {
        match x {
            CirclePaintLayerCircleStrokeColorExpression::Color(t) => Color::accepts(v) && Color::decodes(v, t),
            CirclePaintLayerCircleStrokeColorExpression::Ramp(t) => !Color::accepts(v) && ColorOrArrayOfColor::accepts(v) && ColorOrArrayOfColor::decodes(v, t),
        }
    }

    open spec fn rejection(v: Json) -> Seq<char> {
        "CirclePaintLayerCircleStrokeColorExpression: no variant matched. Expected Color(Color) | Ramp(ColorOrArrayOfColor). Errors: ["@ + "Color: "@ + Color::rejection(v) + "; Ramp: "@ + ColorOrArrayOfColor::rejection(v) + "]"@
    }

    fn decode(v: &JsonValue) -> (r: Result<Self, String>) {
        let e0 = match Color::decode(v) {
            Ok(x) => {
                return Ok(CirclePaintLayerCircleStrokeColorExpression::Color(x));
            },
            Err(e) => e,
        };
        let e1 = match ColorOrArrayOfColor::decode(v) {
            Ok(x) => {
                return Ok(CirclePaintLayerCircleStrokeColorExpression::Ramp(x));
            },
            Err(e) => e,
        };
        let mut m = "CirclePaintLayerCircleStrokeColorExpression: no variant matched. Expected Color(Color) | Ramp(ColorOrArrayOfColor). Errors: [".to_string();
        m.append("Color: ");
        m.append(e0.as_str());
        m.append("; Ramp: ");
        m.append(e1.as_str());
        m.append("]");
        Err(m)
    }
}

impl JsonEncode for CirclePaintLayerCircleStrokeColorExpression {
    open spec fn to_json(self) -> Json {
        match self {
            CirclePaintLayerCircleStrokeColorExpression::Color(t) => Color::to_json(t),
            CirclePaintLayerCircleStrokeColorExpression::Ramp(t) => ColorOrArrayOfColor::to_json(t),
        }
    }

    open spec fn round_trips(self) -> bool {
        match self {
            CirclePaintLayerCircleStrokeColorExpression::Color(t) => Color::round_trips(t),
            CirclePaintLayerCircleStrokeColorExpression::Ramp(t) => ColorOrArrayOfColor::round_trips(t) && !Color::accepts(ColorOrArrayOfColor::to_json(t)),
        }
    }

    fn encode(&self) -> (r: JsonValue) {
        match self {
            CirclePaintLayerCircleStrokeColorExpression::Color(t) => Color::encode(t),
            CirclePaintLayerCircleStrokeColorExpression::Ramp(t) => ColorOrArrayOfColor::encode(t),
        }
    }

    proof fn lemma_round_trip(self) {
        match self {
            CirclePaintLayerCircleStrokeColorExpression::Color(t) => Color::lemma_round_trip(t),
            CirclePaintLayerCircleStrokeColorExpression::Ramp(t) => ColorOrArrayOfColor::lemma_round_trip(t),
        }
    }
}

/// The stroke color of the circle.
#[derive(PartialEq, Debug, Clone)]
pub enum CirclePaintLayerCircleStrokeColor {
    Expr(Box<CirclePaintLayerCircleStrokeColorExpression>),
    Literal(JsonValue),
}

impl JsonDecode for CirclePaintLayerCircleStrokeColor {
    open spec fn accepts(v: Json) -> bool {
        CirclePaintLayerCircleStrokeColorExpression::accepts(v) || JsonValue::accepts(v)
    }

    open spec fn decodes(v: Json, x: Self) -> bool {
        match x {
            CirclePaintLayerCircleStrokeColor::Expr(t) => CirclePaintLayerCircleStrokeColorExpression::accepts(v) && CirclePaintLayerCircleStrokeColorExpression::decodes(v, *t),
            CirclePaintLayerCircleStrokeColor::Literal(t) => !CirclePaintLayerCircleStrokeColorExpression::accepts(v) && JsonValue::accepts(v) && JsonValue::decodes(v, t),
        }
    }

    open spec fn rejection(v: Json) -> Seq<char> {
        "CirclePaintLayerCircleStrokeColor: no variant matched. Expected Expr(CirclePaintLayerCircleStrokeColorExpression) | Literal(serde_json::Value). Errors: ["@ + "Expr: "@ + CirclePaintLayerCircleStrokeColorExpression::rejection(v) + "; Literal: "@ + JsonValue::rejection(v) + "]"@
    }

    fn decode(v: &JsonValue) -> (r: Result<Self, String>) {
        let e0 = match CirclePaintLayerCircleStrokeColorExpression::decode(v) {
            Ok(x) => {
                return Ok(CirclePaintLayerCircleStrokeColor::Expr(Box::new(x)));
            },
            Err(e) => e,
        };
        let e1 = match JsonValue::decode(v) {
            Ok(x) => {
                return Ok(CirclePaintLayerCircleStrokeColor::Literal(x));
            },
            Err(e) => e,
        };
        let mut m = "CirclePaintLayerCircleStrokeColor: no variant matched. Expected Expr(CirclePaintLayerCircleStrokeColorExpression) | Literal(serde_json::Value). Errors: [".to_string();
        m.append("Expr: ");
        m.append(e0.as_str());
        m.append("; Literal: ");
        m.append(e1.as_str());
        m.append("]");
        Err(m)
    }
}

impl JsonEncode for CirclePaintLayerCircleStrokeColor {
    open spec fn to_json(self) -> Json {
        match self {
            CirclePaintLayerCircleStrokeColor::Expr(t) => CirclePaintLayerCircleStrokeColorExpression::to_json(*t),
            CirclePaintLayerCircleStrokeColor::Literal(t) => JsonValue::to_json(t),
        }
    }

    open spec fn round_trips(self) -> bool {
        match self {
            CirclePaintLayerCircleStrokeColor::Expr(t) => CirclePaintLayerCircleStrokeColorExpression::round_trips(*t),
            CirclePaintLayerCircleStrokeColor::Literal(t) => JsonValue::round_trips(t) && !CirclePaintLayerCircleStrokeColorExpression::accepts(JsonValue::to_json(t)),
        }
    }

    fn encode(&self) -> (r: JsonValue) {
        match self {
            CirclePaintLayerCircleStrokeColor::Expr(t) => CirclePaintLayerCircleStrokeColorExpression::encode(&**t),
            CirclePaintLayerCircleStrokeColor::Literal(t) => JsonValue::encode(t),
        }
    }

    proof fn lemma_round_trip(self) {
        match self {
            CirclePaintLayerCircleStrokeColor::Expr(t) => CirclePaintLayerCircleStrokeColorExpression::lemma_round_trip(*t),
            CirclePaintLayerCircleStrokeColor::Literal(t) => JsonValue::lemma_round_trip(t),
        }
    }
}

impl Default for CirclePaintLayerCircleStrokeColor {
    fn default() -> (r: Self)
        ensures
            r.to_json() == Json::Str("#000000"@),
            r is Literal,
    {
        let r = CirclePaintLayerCircleStrokeColor::Literal(JsonValue::String("#000000".to_string()));
        r
    }
}

/// Nested expression: ramp (`interpolate` / …) or regular [`Number`] operators.
#[derive(PartialEq, Debug, Clone)]
pub enum CirclePaintLayerCircleStrokeOpacityExpression {
    Number(Number),
    Ramp(NumberOrArrayOfNumberOrColorOrArrayOfColorOrProjection),
}

impl JsonDecode for CirclePaintLayerCircleStrokeOpacityExpression {
    open spec fn accepts(v: Json) -> bool {
        Number::accepts(v) || NumberOrArrayOfNumberOrColorOrArrayOfColorOrProjection::accepts(v)
    }

    open spec fn decodes(v: Json, x: Self) -> bool {
        match x {
            CirclePaintLayerCircleStrokeOpacityExpression::Number(t) => Number::accepts(v) && Number::decodes(v, t),
            CirclePaintLayerCircleStrokeOpacityExpression::Ramp(t) => !Number::accepts(v) && NumberOrArrayOfNumberOrColorOrArrayOfColorOrProjection::accepts(v) && NumberOrArrayOfNumberOrColorOrArrayOfColorOrProjection::decodes(v, t),
        }
    }

    open spec fn rejection(v: Json) -> Seq<char> {
        "CirclePaintLayerCircleStrokeOpacityExpression: no variant matched. Expected Number(Number) | Ramp(NumberOrArrayOfNumberOrColorOrArrayOfColorOrProjection). Errors: ["@ + "Number: "@ + Number::rejection(v) + "; Ramp: "@ + NumberOrArrayOfNumberOrColorOrArrayOfColorOrProjection::rejection(v) + "]"@
    }

    fn decode(v: &JsonValue) -> (r: Result<Self, String>) {
        let e0 = match Number::decode(v) {
            Ok(x) => {
                return Ok(CirclePaintLayerCircleStrokeOpacityExpression::Number(x));
            },
            Err(e) => e,
        };
        let e1 = match NumberOrArrayOfNumberOrColorOrArrayOfColorOrProjection::decode(v) {
            Ok(x) => {
                return Ok(CirclePaintLayerCircleStrokeOpacityExpression::Ramp(x));
            },
            Err(e) => e,
        };
        let mut m = "CirclePaintLayerCircleStrokeOpacityExpression: no variant matched. Expected Number(Number) | Ramp(NumberOrArrayOfNumberOrColorOrArrayOfColorOrProjection). Errors: [".to_string();
        m.append("Number: ");
        m.append(e0.as_str());
        m.append("; Ramp: ");
        m.append(e1.as_str());
        m.append("]");
        Err(m)
    }
}

impl JsonEncode for CirclePaintLayerCircleStrokeOpacityExpression {
    open spec fn to_json(self) -> Json {
        match self {
            CirclePaintLayerCircleStrokeOpacityExpression::Number(t) => Number::to_json(t),
            CirclePaintLayerCircleStrokeOpacityExpression::Ramp(t) => NumberOrArrayOfNumberOrColorOrArrayOfColorOrProjection::to_json(t),
        }
    }

    open spec fn round_trips(self) -> bool {
        match self {
            CirclePaintLayerCircleStrokeOpacityExpression::Number(t) => Number::round_trips(t),
            CirclePaintLayerCircleStrokeOpacityExpression::Ramp(t) => NumberOrArrayOfNumberOrColorOrArrayOfColorOrProjection::round_trips(t) && !Number::accepts(NumberOrArrayOfNumberOrColorOrArrayOfColorOrProjection::to_json(t)),
        }
    }

    fn encode(&self) -> (r: JsonValue) {
        match self {
            CirclePaintLayerCircleStrokeOpacityExpression::Number(t) => Number::encode(t),
            CirclePaintLayerCircleStrokeOpacityExpression::Ramp(t) => NumberOrArrayOfNumberOrColorOrArrayOfColorOrProjection::encode(t),
        }
    }

    proof fn lemma_round_trip(self) {
        match self {
            CirclePaintLayerCircleStrokeOpacityExpression::Number(t) => Number::lemma_round_trip(t),
            CirclePaintLayerCircleStrokeOpacityExpression::Ramp(t) => NumberOrArrayOfNumberOrColorOrArrayOfColorOrProjection::lemma_round_trip(t),
        }
    }
}

/// The opacity of the circle's stroke.
#[derive(PartialEq, Debug, Clone)]
pub enum CirclePaintLayerCircleStrokeOpacity {
    Expr(Box<CirclePaintLayerCircleStrokeOpacityExpression>),
    Literal(JsonNumber),
}

impl JsonDecode for CirclePaintLayerCircleStrokeOpacity {
    open spec fn accepts(v: Json) -> bool {
        CirclePaintLayerCircleStrokeOpacityExpression::accepts(v) || JsonNumber::accepts(v)
    }

    open spec fn decodes(v: Json, x: Self) -> bool {
        match x {
            CirclePaintLayerCircleStrokeOpacity::Expr(t) => CirclePaintLayerCircleStrokeOpacityExpression::accepts(v) && CirclePaintLayerCircleStrokeOpacityExpression::decodes(v, *t),
            CirclePaintLayerCircleStrokeOpacity::Literal(t) => !CirclePaintLayerCircleStrokeOpacityExpression::accepts(v) && JsonNumber::accepts(v) && JsonNumber::decodes(v, t),
        }
    }

    open spec fn rejection(v: Json) -> Seq<char> {
        "CirclePaintLayerCircleStrokeOpacity: no variant matched. Expected Expr(CirclePaintLayerCircleStrokeOpacityExpression) | Literal(serde_json::Number). Errors: ["@ + "Expr: "@ + CirclePaintLayerCircleStrokeOpacityExpression::rejection(v) + "; Literal: "@ + JsonNumber::rejection(v) + "]"@
    }

    fn decode(v: &JsonValue) -> (r: Result<Self, String>) {
        let e0 = match CirclePaintLayerCircleStrokeOpacityExpression::decode(v) {
            Ok(x) => {
                return Ok(CirclePaintLayerCircleStrokeOpacity::Expr(Box::new(x)));
            },
            Err(e) => e,
        };
        let e1 = match JsonNumber::decode(v) {
            Ok(x) => {
                return Ok(CirclePaintLayerCircleStrokeOpacity::Literal(x));
            },
            Err(e) => e,
        };
        let mut m = "CirclePaintLayerCircleStrokeOpacity: no variant matched. Expected Expr(CirclePaintLayerCircleStrokeOpacityExpression) | Literal(serde_json::Number). Errors: [".to_string();
        m.append("Expr: ");
        m.append(e0.as_str());
        m.append("; Literal: ");
        m.append(e1.as_str());
        m.append("]");
        Err(m)
    }
}

impl JsonEncode for CirclePaintLayerCircleStrokeOpacity {
    open spec fn to_json(self) -> Json {
        match self {
            CirclePaintLayerCircleStrokeOpacity::Expr(t) => CirclePaintLayerCircleStrokeOpacityExpression::to_json(*t),
            CirclePaintLayerCircleStrokeOpacity::Literal(t) => JsonNumber::to_json(t),
        }
    }

    open spec fn round_trips(self) -> bool {
        match self {
            CirclePaintLayerCircleStrokeOpacity::Expr(t) => CirclePaintLayerCircleStrokeOpacityExpression::round_trips(*t),
            CirclePaintLayerCircleStrokeOpacity::Literal(t) => JsonNumber::round_trips(t) && !CirclePaintLayerCircleStrokeOpacityExpression::accepts(JsonNumber::to_json(t)),
        }
    }

    fn encode(&self) -> (r: JsonValue) {
        match self {
            CirclePaintLayerCircleStrokeOpacity::Expr(t) => CirclePaintLayerCircleStrokeOpacityExpression::encode(&**t),
            CirclePaintLayerCircleStrokeOpacity::Literal(t) => JsonNumber::encode(t),
        }
    }

    proof fn lemma_round_trip(self) {
        match self {
            CirclePaintLayerCircleStrokeOpacity::Expr(t) => CirclePaintLayerCircleStrokeOpacityExpression::lemma_round_trip(*t),
            CirclePaintLayerCircleStrokeOpacity::Literal(t) => JsonNumber::lemma_round_trip(t),
        }
    }
}

impl Default for CirclePaintLayerCircleStrokeOpacity {
    fn default() -> (r: Self)
        ensures
            r.to_json() == Json::Number("1"@),
            r is Literal,
    {
        let r = CirclePaintLayerCircleStrokeOpacity::Literal(JsonNumber::from_literal("1"));
        r
    }
}

/// Nested expression: ramp (`interpolate` / …) or regular [`Number`] operators.
#[derive(PartialEq, Debug, Clone)]
pub enum CirclePaintLayerCircleStrokeWidthExpression {
    Number(Number),
    Ramp(NumberOrArrayOfNumberOrColorOrArrayOfColorOrProjection),
}

impl JsonDecode for CirclePaintLayerCircleStrokeWidthExpression {
    open spec fn accepts(v: Json) -> bool {
        Number::accepts(v) || NumberOrArrayOfNumberOrColorOrArrayOfColorOrProjection::accepts(v)
    }

    open spec fn decodes(v: Json, x: Self) -> bool {
        match x {
            CirclePaintLayerCircleStrokeWidthExpression::Number(t) => Number::accepts(v) && Number::decodes(v, t),
            CirclePaintLayerCircleStrokeWidthExpression::Ramp(t) => !Number::accepts(v) && NumberOrArrayOfNumberOrColorOrArrayOfColorOrProjection::accepts(v) && NumberOrArrayOfNumberOrColorOrArrayOfColorOrProjection::decodes(v, t),
        }
    }

    open spec fn rejection(v: Json) -> Seq<char> {
        "CirclePaintLayerCircleStrokeWidthExpression: no variant matched. Expected Number(Number) | Ramp(NumberOrArrayOfNumberOrColorOrArrayOfColorOrProjection). Errors: ["@ + "Number: "@ + Number::rejection(v) + "; Ramp: "@ + NumberOrArrayOfNumberOrColorOrArrayOfColorOrProjection::rejection(v) + "]"@
    }

    fn decode(v: &JsonValue) -> (r: Result<Self, String>) {
        let e0 = match Number::decode(v) {
            Ok(x) => {
                return Ok(CirclePaintLayerCircleStrokeWidthExpression::Number(x));
            },
            Err(e) => e,
        };
        let e1 = match NumberOrArrayOfNumberOrColorOrArrayOfColorOrProjection::decode(v) {
            Ok(x) => {
                return Ok(CirclePaintLayerCircleStrokeWidthExpression::Ramp(x));
            },
            Err(e) => e,
        };
        let mut m = "CirclePaintLayerCircleStrokeWidthExpression: no variant matched. Expected Number(Number) | Ramp(NumberOrArrayOfNumberOrColorOrArrayOfColorOrProjection). Errors: [".to_string();
        m.append("Number: ");
        m.append(e0.as_str());
        m.append("; Ramp: ");
        m.append(e1.as_str());
        m.append("]");
        Err(m)
    }
}

impl JsonEncode for CirclePaintLayerCircleStrokeWidthExpression {
    open spec fn to_json(self) -> Json {
        match self {
            CirclePaintLayerCircleStrokeWidthExpression::Number(t) => Number::to_json(t),
            CirclePaintLayerCircleStrokeWidthExpression::Ramp(t) => NumberOrArrayOfNumberOrColorOrArrayOfColorOrProjection::to_json(t),
        }
    }

    open spec fn round_trips(self) -> bool {
        match self {
            CirclePaintLayerCircleStrokeWidthExpression::Number(t) => Number::round_trips(t),
            CirclePaintLayerCircleStrokeWidthExpression::Ramp(t) => NumberOrArrayOfNumberOrColorOrArrayOfColorOrProjection::round_trips(t) && !Number::accepts(NumberOrArrayOfNumberOrColorOrArrayOfColorOrProjection::to_json(t)),
        }
    }

    fn encode(&self) -> (r: JsonValue) {
        match self {
            CirclePaintLayerCircleStrokeWidthExpression::Number(t) => Number::encode(t),
            CirclePaintLayerCircleStrokeWidthExpression::Ramp(t) => NumberOrArrayOfNumberOrColorOrArrayOfColorOrProjection::encode(t),
        }
    }

    proof fn lemma_round_trip(self) {
        match self {
            CirclePaintLayerCircleStrokeWidthExpression::Number(t) => Number::lemma_round_trip(t),
            CirclePaintLayerCircleStrokeWidthExpression::Ramp(t) => NumberOrArrayOfNumberOrColorOrArrayOfColorOrProjection::lemma_round_trip(t),
        }
    }
}

/// The width of the circle's stroke. Strokes are placed outside of the `circle-radius`.
#[derive(PartialEq, Debug, Clone)]
pub enum CirclePaintLayerCircleStrokeWidth {
    Expr(Box<CirclePaintLayerCircleStrokeWidthExpression>),
    Literal(JsonNumber),
}

impl JsonDecode for CirclePaintLayerCircleStrokeWidth {
    open spec fn accepts(v: Json) -> bool {
        CirclePaintLayerCircleStrokeWidthExpression::accepts(v) || JsonNumber::accepts(v)
    }

    open spec fn decodes(v: Json, x: Self) -> bool {
        match x {
            CirclePaintLayerCircleStrokeWidth::Expr(t) => CirclePaintLayerCircleStrokeWidthExpression::accepts(v) && CirclePaintLayerCircleStrokeWidthExpression::decodes(v, *t),
            CirclePaintLayerCircleStrokeWidth::Literal(t) => !CirclePaintLayerCircleStrokeWidthExpression::accepts(v) && JsonNumber::accepts(v) && JsonNumber::decodes(v, t),
        }
    }

    open spec fn rejection(v: Json) -> Seq<char> {
        "CirclePaintLayerCircleStrokeWidth: no variant matched. Expected Expr(CirclePaintLayerCircleStrokeWidthExpression) | Literal(serde_json::Number). Errors: ["@ + "Expr: "@ + CirclePaintLayerCircleStrokeWidthExpression::rejection(v) + "; Literal: "@ + JsonNumber::rejection(v) + "]"@
    }

    fn decode(v: &JsonValue) -> (r: Result<Self, String>) {
        let e0 = match CirclePaintLayerCircleStrokeWidthExpression::decode(v) {
            Ok(x) => {
                return Ok(CirclePaintLayerCircleStrokeWidth::Expr(Box::new(x)));
            },
            Err(e) => e,
        };
        let e1 = match JsonNumber::decode(v) {
            Ok(x) => {
                return Ok(CirclePaintLayerCircleStrokeWidth::Literal(x));
            },
            Err(e) => e,
        };
        let mut m = "CirclePaintLayerCircleStrokeWidth: no variant matched. Expected Expr(CirclePaintLayerCircleStrokeWidthExpression) | Literal(serde_json::Number). Errors: [".to_string();
        m.append("Expr: ");
        m.append(e0.as_str());
        m.append("; Literal: ");
        m.append(e1.as_str());
        m.append("]");
        Err(m)
    }
}

impl JsonEncode for CirclePaintLayerCircleStrokeWidth {
    open spec fn to_json(self) -> Json {
        match self {
            CirclePaintLayerCircleStrokeWidth::Expr(t) => CirclePaintLayerCircleStrokeWidthExpression::to_json(*t),
            CirclePaintLayerCircleStrokeWidth::Literal(t) => JsonNumber::to_json(t),
        }
    }

    open spec fn round_trips(self) -> bool {
        match self {
            CirclePaintLayerCircleStrokeWidth::Expr(t) => CirclePaintLayerCircleStrokeWidthExpression::round_trips(*t),
            CirclePaintLayerCircleStrokeWidth::Literal(t) => JsonNumber::round_trips(t) && !CirclePaintLayerCircleStrokeWidthExpression::accepts(JsonNumber::to_json(t)),
        }
    }

    fn encode(&self) -> (r: JsonValue) {
        match self {
            CirclePaintLayerCircleStrokeWidth::Expr(t) => CirclePaintLayerCircleStrokeWidthExpression::encode(&**t),
            CirclePaintLayerCircleStrokeWidth::Literal(t) => JsonNumber::encode(t),
        }
    }

    proof fn lemma_round_trip(self) {
        match self {
            CirclePaintLayerCircleStrokeWidth::Expr(t) => CirclePaintLayerCircleStrokeWidthExpression::lemma_round_trip(*t),
            CirclePaintLayerCircleStrokeWidth::Literal(t) => JsonNumber::lemma_round_trip(t),
        }
    }
}

impl Default for CirclePaintLayerCircleStrokeWidth {
    fn default() -> (r: Self)
        ensures
            r.to_json() == Json::Number("0"@),
            r is Literal,
    {
        let r = CirclePaintLayerCircleStrokeWidth::Literal(JsonNumber::from_literal("0"));
        r
    }
}

/// The geometry's offset. Values are [x, y] where negatives indicate left and up, respectively.
#[derive(PartialEq, Debug, Clone)]
pub struct CirclePaintLayerCircleTranslate(Box<[JsonNumber; 2]>);

impl JsonDecode for CirclePaintLayerCircleTranslate {
    closed spec fn accepts(v: Json) -> bool {
        <[JsonNumber; 2] as JsonDecode>::accepts(v)
    }

    closed spec fn decodes(v: Json, x: Self) -> bool {
        <[JsonNumber; 2] as JsonDecode>::decodes(v, *x.0)
    }

    closed spec fn rejection(v: Json) -> Seq<char> {
        <[JsonNumber; 2] as JsonDecode>::rejection(v)
    }

    fn decode(v: &JsonValue) -> (r: Result<Self, String>) {
        match <[JsonNumber; 2] as JsonDecode>::decode(v) {
            Ok(x) => Ok(CirclePaintLayerCircleTranslate(Box::new(x))),
            Err(e) => Err(e),
        }
    }
}

impl JsonEncode for CirclePaintLayerCircleTranslate {
    closed spec fn to_json(self) -> Json {
        <[JsonNumber; 2] as JsonEncode>::to_json((*self.0))
    }

    closed spec fn round_trips(self) -> bool {
        <[JsonNumber; 2] as JsonEncode>::round_trips((*self.0))
    }

    fn encode(&self) -> (r: JsonValue) {
        <[JsonNumber; 2] as JsonEncode>::encode(&(*self.0))
    }

    proof fn lemma_round_trip(self) {
        <[JsonNumber; 2] as JsonEncode>::lemma_round_trip((*self.0));
    }
}

impl Default for CirclePaintLayerCircleTranslate {
    fn default() -> (r: Self)
        ensures
            r.to_json() == Json::Array(seq![Json::Number("0"@), Json::Number("0"@)]),
    {
        let r = CirclePaintLayerCircleTranslate(Box::new([JsonNumber::from_literal("0"), JsonNumber::from_literal("0")]));
        proof {
            assert(r.to_json() =~~= Json::Array(seq![Json::Number("0"@), Json::Number("0"@)]));
        }
        r
    }
}

/// Controls the frame of reference for `circle-translate`.
#[derive(PartialEq, Eq, Debug, Clone, Copy)]
pub enum CirclePaintLayerCircleTranslateAnchor {
    MapValue,
    Viewport,
}

impl CirclePaintLayerCircleTranslateAnchor {
    /// The name that stands for the value in a style document.
    pub open spec fn spec_name(self) -> Seq<char> {
        match self {
            CirclePaintLayerCircleTranslateAnchor::MapValue => "map"@,
            CirclePaintLayerCircleTranslateAnchor::Viewport => "viewport"@,
        }
    }

    /// The name that stands for the value in a style document.
    pub fn name(&self) -> (r: &'static str)
        ensures
            r@ == self.spec_name(),
    {
        match self {
            CirclePaintLayerCircleTranslateAnchor::MapValue => "map",
            CirclePaintLayerCircleTranslateAnchor::Viewport => "viewport",
        }
    }

    /// The value that a name stands for, if any.
    pub fn from_name(s: &str) -> (r: Option<CirclePaintLayerCircleTranslateAnchor>)
        ensures
            r matches Some(x) ==> x.spec_name() == s@,
            r is None ==> forall|x: CirclePaintLayerCircleTranslateAnchor| x.spec_name() != s@,
    {
        if str_eq(s, "map") {
            Some(CirclePaintLayerCircleTranslateAnchor::MapValue)
        } else if str_eq(s, "viewport") {
            Some(CirclePaintLayerCircleTranslateAnchor::Viewport)
        } else {
            None
        }
    }
}

impl CirclePaintLayerCircleTranslateAnchor {
    /// Each value is read from, and written as, the name that the style specification gives
    /// it, and a document holding one of these names reads as that value and no other.
    pub proof fn lemma_read_by_name()
        ensures
            <CirclePaintLayerCircleTranslateAnchor as JsonEncode>::to_json(CirclePaintLayerCircleTranslateAnchor::Viewport) == Json::Str("viewport"@),
            forall|x: CirclePaintLayerCircleTranslateAnchor| <CirclePaintLayerCircleTranslateAnchor as JsonDecode>::decodes(Json::Str("map"@), x) <==> x == CirclePaintLayerCircleTranslateAnchor::MapValue,
            <CirclePaintLayerCircleTranslateAnchor as JsonEncode>::to_json(CirclePaintLayerCircleTranslateAnchor::MapValue) == Json::Str("map"@),
            forall|x: CirclePaintLayerCircleTranslateAnchor| <CirclePaintLayerCircleTranslateAnchor as JsonDecode>::decodes(Json::Str("viewport"@), x) <==> x == CirclePaintLayerCircleTranslateAnchor::Viewport,
    {
        reveal_strlit("viewport");
        reveal_strlit("map");
        assert("map"@.len() != "viewport"@.len());
    }
}

impl JsonDecode for CirclePaintLayerCircleTranslateAnchor {
    /// The name of a value, or an object whose one entry has the name as its key and `null`.
    open spec fn accepts(v: Json) -> bool {
        ||| (v is Str && exists|x: CirclePaintLayerCircleTranslateAnchor| x.spec_name() == v->Str_0)
        ||| (v is Object && v->Object_0.len() == 1 && v->Object_0[0].1 is Null && exists|x: CirclePaintLayerCircleTranslateAnchor| x.spec_name() == v->Object_0[0].0)
    }

    open spec fn decodes(v: Json, x: Self) -> bool {
        ||| v == Json::Str(x.spec_name())
        ||| (v is Object && v->Object_0.len() == 1 && v->Object_0[0] == (x.spec_name(), Json::Null))
    }

    open spec fn rejection(v: Json) -> Seq<char> {
        if v is Str {
            unknown_variant(v->Str_0) + ", expected `map` or `viewport`"@
        } else if v is Object {
            let o = v->Object_0;
            if o.len() != 1 {
                "invalid value: map, expected map with a single key"@
            } else if !(exists|x: CirclePaintLayerCircleTranslateAnchor| x.spec_name() == o[0].0) {
                unknown_variant(o[0].0) + ", expected `map` or `viewport`"@
            } else {
                type_error(o[0].1, "unit"@)
            }
        } else {
            type_error(v, "string or map"@)
        }
    }

    fn decode(v: &JsonValue) -> (r: Result<Self, String>) {
        match v {
            JsonValue::String(s) => match Self::from_name(s.as_str()) {
                Some(x) => Ok(x),
                None => {
                    let mut m = make_unknown_variant(s.as_str());
                    m.append(", expected `map` or `viewport`");
                    Err(m)
                },
            },
            JsonValue::Object(fields) => {
                if fields.len() != 1 {
                    return Err("invalid value: map, expected map with a single key".to_string());
                }
                proof {
                    assert(entries_model(*fields)[0] == (fields@[0].0@, fields@[0].1.model()));
                }
                match Self::from_name(fields[0].0.as_str()) {
                    Some(x) => match &fields[0].1 {
                        JsonValue::Null => Ok(x),
                        _ => Err(make_type_error(&fields[0].1, "unit")),
                    },
                    None => {
                        let mut m = make_unknown_variant(fields[0].0.as_str());
                        m.append(", expected `map` or `viewport`");
                        Err(m)
                    },
                }
            },
            _ => Err(make_type_error(v, "string or map")),
        }
    }
}

impl JsonEncode for CirclePaintLayerCircleTranslateAnchor {
    open spec fn to_json(self) -> Json {
        Json::Str(self.spec_name())
    }

    open spec fn round_trips(self) -> bool {
        true
    }

    fn encode(&self) -> (r: JsonValue) {
        JsonValue::String(self.name().to_string())
    }

    proof fn lemma_round_trip(self) {
    }
}

impl Default for CirclePaintLayerCircleTranslateAnchor {
    fn default() -> (r: Self)
        ensures
            r == CirclePaintLayerCircleTranslateAnchor::MapValue,
    {
        CirclePaintLayerCircleTranslateAnchor::MapValue
    }
}

#[derive(PartialEq, Debug, Clone)]
pub struct ColorReliefLayoutLayer {
    /// Whether this layer is displayed.
    pub visibility: Option<ColorReliefLayoutLayerVisibility>,
}

impl JsonDecode for ColorReliefLayoutLayer {
    /// An object with the fields by their keys, or an array with the fields in order.
    open spec fn accepts(v: Json) -> bool {
        ||| (v is Object && {
            let o = v->Object_0;
            &&& opt_field_accepts::<ColorReliefLayoutLayerVisibility>(o, "visibility"@)
        })
        ||| (v is Array && {
            let a = v->Array_0;
            &&& seq_opt_accepts::<ColorReliefLayoutLayerVisibility>(a, 0, true)
            &&& a.len() <= 1
        })
    }

    open spec fn decodes(v: Json, x: Self) -> bool {
        ||| (v is Object && {
            let o = v->Object_0;
            &&& opt_field_decodes::<ColorReliefLayoutLayerVisibility>(o, "visibility"@, x.visibility)
        })
        ||| (v is Array && {
            let a = v->Array_0;
            &&& seq_opt_decodes::<ColorReliefLayoutLayerVisibility>(a, 0, x.visibility)
        })
    }

    /// For an object, the first entry in order whose value does not read as its field, else the
    /// first required field that is missing.
    open spec fn rejection(v: Json) -> Seq<char> {
        if v is Object {
            let o = v->Object_0;
            match Self::first_fault(o, 0) {
                Some(m) => m,
                None => {
                    Seq::empty()
                },
            }
        } else if v is Array {
            let a = v->Array_0;
            if !seq_opt_accepts::<ColorReliefLayoutLayerVisibility>(a, 0, true) {
                seq_opt_rejection::<ColorReliefLayoutLayerVisibility>(a, 0, "struct ColorReliefLayoutLayer with 1 element"@)
            } else if a.len() > 1 {
                length_error(a.len())
            } else {
                Seq::empty()
            }
        } else {
            type_error(v, "struct ColorReliefLayoutLayer"@)
        }
    }

    fn decode(v: &JsonValue) -> (r: Result<Self, String>) {
        match v {
            JsonValue::Object(fields) => {
                let visibility = match decode_opt_field::<ColorReliefLayoutLayerVisibility>(fields, "visibility") {
                    Ok(x) => x,
                    Err(_) => return Err(Self::object_rejection(fields)),
                };
                Ok(ColorReliefLayoutLayer { visibility })
            },
            JsonValue::Array(a) => {
                let visibility = match decode_seq_opt::<ColorReliefLayoutLayerVisibility>(a, 0, true, "struct ColorReliefLayoutLayer with 1 element") {
                    Ok(x) => x,
                    Err(e) => return Err(e),
                };
                if a.len() > 1 {
                    return Err(make_length_error(a.len()));
                }
                Ok(ColorReliefLayoutLayer { visibility })
            },
            _ => Err(make_type_error(v, "struct ColorReliefLayoutLayer")),
        }
    }
}

impl ColorReliefLayoutLayer {
    /// What is wrong with the value `w` of an entry with key `k`, where `k` is the key of a field.
    pub open spec fn field_fault(k: Seq<char>, w: Json) -> Option<Seq<char>> {
        if k == "visibility"@ {
            if w is Null || ColorReliefLayoutLayerVisibility::accepts(w) {
                None
            } else {
                Some(ColorReliefLayoutLayerVisibility::rejection(w))
            }
        } else {
            None
        }
    }

    /// The message of the first entry of `o`, from entry `i` on and among the first entries of
    /// their keys, whose value does not read as its field, if any.
    pub open spec fn first_fault(o: Seq<(Seq<char>, Json)>, i: int) -> Option<Seq<char>>
        decreases o.len() - i,
    {
        if i < 0 || i >= o.len() {
            None
        } else if first_with_key(o, i) && Self::field_fault(o[i].0, o[i].1) is Some {
            Self::field_fault(o[i].0, o[i].1)
        } else {
            Self::first_fault(o, i + 1)
        }
    }

    fn find_field_fault(k: &str, w: &JsonValue) -> (r: Option<String>)
        ensures
            match r {
                Some(m) => Self::field_fault(k@, w.model()) == Some(m@),
                None => Self::field_fault(k@, w.model()) is None,
            },
    {
        if str_eq(k, "visibility") {
            match w {
                JsonValue::Null => None,
                _ => match ColorReliefLayoutLayerVisibility::decode(w) {
                    Ok(_) => None,
                    Err(e) => Some(e),
                },
            }
        } else {
            None
        }
    }

    fn object_rejection(fields: &Vec<(String, JsonValue)>) -> (r: String)
        ensures
            r@ == Self::rejection(JsonValue::Object(*fields).model()),
    {
        let ghost o = entries_model(*fields);
        let mut i: usize = 0;
        while i < fields.len()
            invariant
                o == entries_model(*fields),
                o.len() == fields.len(),
                i <= fields.len(),
                Self::first_fault(o, 0) == Self::first_fault(o, i as int),
            decreases fields.len() - i,
        {
            proof {
                assert(o[i as int] == (fields@[i as int].0@, fields@[i as int].1.model()));
            }
            if !key_seen_before(fields, i) {
                match Self::find_field_fault(fields[i].0.as_str(), &fields[i].1) {
                    Some(m) => {
                        return m;
                    },
                    None => {},
                }
            }
            i += 1;
        }
        String::new()
    }
}

impl ColorReliefLayoutLayer {
    /// The keys of the fields, in order.
    pub open spec fn field_keys() -> Seq<Seq<char>> {
        seq!["visibility"@]
    }

    /// The entries that each field is written as, in order.
    pub open spec fn field_entries(self) -> Seq<Seq<(Seq<char>, Json)>> {
        seq![opt_entry::<ColorReliefLayoutLayerVisibility>("visibility"@, self.visibility)]
    }

    proof fn lemma_keys_differ(i: int)
        requires
            0 <= i < 1,
        ensures
            others_differ(Self::field_keys(), i),
    {
        reveal_strlit("visibility");
        assert("visibility"@.len() == 10);
    }
}

impl JsonEncode for ColorReliefLayoutLayer {
    open spec fn to_json(self) -> Json {
        Json::Object(self.field_entries().flatten())
    }

    open spec fn round_trips(self) -> bool {
        &&& (self.visibility matches Some(t) ==> t.round_trips() && !(t.to_json() is Null))
    }

    fn encode(&self) -> (r: JsonValue) {
        let mut out: Vec<(String, JsonValue)> = Vec::new();
        let ghost s0 = Seq::<Seq<(Seq<char>, Json)>>::empty();
        proof {
            assert(entries_model(out) =~= s0.flatten());
        }
        push_opt_entry::<ColorReliefLayoutLayerVisibility>(&mut out, "visibility", &self.visibility);
        let ghost s1 = s0.push(opt_entry::<ColorReliefLayoutLayerVisibility>("visibility"@, self.visibility));
        proof {
            s0.lemma_flatten_push(opt_entry::<ColorReliefLayoutLayerVisibility>("visibility"@, self.visibility));
            assert(entries_model(out) =~= s1.flatten());
        }
        proof {
            assert(self.field_entries() == s1);
        }
        JsonValue::Object(out)
    }

    proof fn lemma_round_trip(self) {
        let keys = Self::field_keys();
        let es = self.field_entries();
        assert(keyed_by(es, keys));
        Self::lemma_keys_differ(0);
        lemma_lookup_flatten(es, keys, 0);
        lemma_lookup_opt_entry::<ColorReliefLayoutLayerVisibility>("visibility"@, self.visibility, "visibility"@);
        if self.visibility is Some {
            self.visibility->0.lemma_round_trip();
        }
    }
}

/// Whether this layer is displayed.
#[derive(PartialEq, Eq, Debug, Clone, Copy)]
pub enum ColorReliefLayoutLayerVisibility {
    NoneValue,
    Visible,
}

impl ColorReliefLayoutLayerVisibility {
    /// The name that stands for the value in a style document.
    pub open spec fn spec_name(self) -> Seq<char> {
        match self {
            ColorReliefLayoutLayerVisibility::NoneValue => "none"@,
            ColorReliefLayoutLayerVisibility::Visible => "visible"@,
        }
    }

    /// The name that stands for the value in a style document.
    pub fn name(&self) -> (r: &'static str)
        ensures
            r@ == self.spec_name(),
    {
        match self {
            ColorReliefLayoutLayerVisibility::NoneValue => "none",
            ColorReliefLayoutLayerVisibility::Visible => "visible",
        }
    }

    /// The value that a name stands for, if any.
    pub fn from_name(s: &str) -> (r: Option<ColorReliefLayoutLayerVisibility>)
        ensures
            r matches Some(x) ==> x.spec_name() == s@,
            r is None ==> forall|x: ColorReliefLayoutLayerVisibility| x.spec_name() != s@,
    {
        if str_eq(s, "none") {
            Some(ColorReliefLayoutLayerVisibility::NoneValue)
        } else if str_eq(s, "visible") {
            Some(ColorReliefLayoutLayerVisibility::Visible)
        } else {
            None
        }
    }
}

impl ColorReliefLayoutLayerVisibility {
    /// Each value is read from, and written as, the name that the style specification gives
    /// it, and a document holding one of these names reads as that value and no other.
    pub proof fn lemma_read_by_name()
        ensures
            <ColorReliefLayoutLayerVisibility as JsonEncode>::to_json(ColorReliefLayoutLayerVisibility::NoneValue) == Json::Str("none"@),
            forall|x: ColorReliefLayoutLayerVisibility| <ColorReliefLayoutLayerVisibility as JsonDecode>::decodes(Json::Str("visible"@), x) <==> x == ColorReliefLayoutLayerVisibility::Visible,
            forall|x: ColorReliefLayoutLayerVisibility| <ColorReliefLayoutLayerVisibility as JsonDecode>::decodes(Json::Str("none"@), x) <==> x == ColorReliefLayoutLayerVisibility::NoneValue,
            <ColorReliefLayoutLayerVisibility as JsonEncode>::to_json(ColorReliefLayoutLayerVisibility::Visible) == Json::Str("visible"@),
    {
        reveal_strlit("visible");
        reveal_strlit("none");
        assert("none"@.len() != "visible"@.len());
    }
}

impl JsonDecode for ColorReliefLayoutLayerVisibility {
    /// The name of a value, or an object whose one entry has the name as its key and `null`.
    open spec fn accepts(v: Json) -> bool {
        ||| (v is Str && exists|x: ColorReliefLayoutLayerVisibility| x.spec_name() == v->Str_0)
        ||| (v is Object && v->Object_0.len() == 1 && v->Object_0[0].1 is Null && exists|x: ColorReliefLayoutLayerVisibility| x.spec_name() == v->Object_0[0].0)
    }

    open spec fn decodes(v: Json, x: Self) -> bool {
        ||| v == Json::Str(x.spec_name())
        ||| (v is Object && v->Object_0.len() == 1 && v->Object_0[0] == (x.spec_name(), Json::Null))
    }

    open spec fn rejection(v: Json) -> Seq<char> {
        if v is Str {
            unknown_variant(v->Str_0) + ", expected `none` or `visible`"@
        } else if v is Object {
            let o = v->Object_0;
            if o.len() != 1 {
                "invalid value: map, expected map with a single key"@
            } else if !(exists|x: ColorReliefLayoutLayerVisibility| x.spec_name() == o[0].0) {
                unknown_variant(o[0].0) + ", expected `none` or `visible`"@
            } else {
                type_error(o[0].1, "unit"@)
            }
        } else {
            type_error(v, "string or map"@)
        }
    }

    fn decode(v: &JsonValue) -> (r: Result<Self, String>) {
        match v {
            JsonValue::String(s) => match Self::from_name(s.as_str()) {
                Some(x) => Ok(x),
                None => {
                    let mut m = make_unknown_variant(s.as_str());
                    m.append(", expected `none` or `visible`");
                    Err(m)
                },
            },
            JsonValue::Object(fields) => {
                if fields.len() != 1 {
                    return Err("invalid value: map, expected map with a single key".to_string());
                }
                proof {
                    assert(entries_model(*fields)[0] == (fields@[0].0@, fields@[0].1.model()));
                }
                match Self::from_name(fields[0].0.as_str()) {
                    Some(x) => match &fields[0].1 {
                        JsonValue::Null => Ok(x),
                        _ => Err(make_type_error(&fields[0].1, "unit")),
                    },
                    None => {
                        let mut m = make_unknown_variant(fields[0].0.as_str());
                        m.append(", expected `none` or `visible`");
                        Err(m)
                    },
                }
            },
            _ => Err(make_type_error(v, "string or map")),
        }
    }
}

impl JsonEncode for ColorReliefLayoutLayerVisibility {
    open spec fn to_json(self) -> Json {
        Json::Str(self.spec_name())
    }

    open spec fn round_trips(self) -> bool {
        true
    }

    fn encode(&self) -> (r: JsonValue) {
        JsonValue::String(self.name().to_string())
    }

    proof fn lemma_round_trip(self) {
    }
}

impl Default for ColorReliefLayoutLayerVisibility {
    fn default() -> (r: Self)
        ensures
            r == ColorReliefLayoutLayerVisibility::Visible,
    {
        ColorReliefLayoutLayerVisibility::Visible
    }
}

#[derive(PartialEq, Debug, Clone)]
pub struct ColorReliefPaintLayer {
    /// Defines the color of each pixel based on its elevation. Should be an expression that uses `["elevation"]` as input.
    pub color_relief_color: Option<ColorReliefPaintLayerColorReliefColor>,
    /// The opacity at which the color-relief will be drawn.
    pub color_relief_opacity: Option<ColorReliefPaintLayerColorReliefOpacity>,
}

impl JsonDecode for ColorReliefPaintLayer {
    /// An object with the fields by their keys, or an array with the fields in order.
    open spec fn accepts(v: Json) -> bool {
        ||| (v is Object && {
            let o = v->Object_0;
            &&& opt_field_accepts::<ColorReliefPaintLayerColorReliefColor>(o, "color-relief-color"@)
            &&& opt_field_accepts::<ColorReliefPaintLayerColorReliefOpacity>(o, "color-relief-opacity"@)
        })
        ||| (v is Array && {
            let a = v->Array_0;
            &&& seq_opt_accepts::<ColorReliefPaintLayerColorReliefColor>(a, 0, true)
            &&& seq_opt_accepts::<ColorReliefPaintLayerColorReliefOpacity>(a, 1, true)
            &&& a.len() <= 2
        })
    }

    open spec fn decodes(v: Json, x: Self) -> bool {
        ||| (v is Object && {
            let o = v->Object_0;
            &&& opt_field_decodes::<ColorReliefPaintLayerColorReliefColor>(o, "color-relief-color"@, x.color_relief_color)
            &&& opt_field_decodes::<ColorReliefPaintLayerColorReliefOpacity>(o, "color-relief-opacity"@, x.color_relief_opacity)
        })
        ||| (v is Array && {
            let a = v->Array_0;
            &&& seq_opt_decodes::<ColorReliefPaintLayerColorReliefColor>(a, 0, x.color_relief_color)
            &&& seq_opt_decodes::<ColorReliefPaintLayerColorReliefOpacity>(a, 1, x.color_relief_opacity)
        })
    }

    /// For an object, the first entry in order whose value does not read as its field, else the
    /// first required field that is missing.
    open spec fn rejection(v: Json) -> Seq<char> {
        if v is Object {
            let o = v->Object_0;
            match Self::first_fault(o, 0) {
                Some(m) => m,
                None => {
                    Seq::empty()
                },
            }
        } else if v is Array {
            let a = v->Array_0;
            if !seq_opt_accepts::<ColorReliefPaintLayerColorReliefColor>(a, 0, true) {
                seq_opt_rejection::<ColorReliefPaintLayerColorReliefColor>(a, 0, "struct ColorReliefPaintLayer with 2 elements"@)
            } else if !seq_opt_accepts::<ColorReliefPaintLayerColorReliefOpacity>(a, 1, true) {
                seq_opt_rejection::<ColorReliefPaintLayerColorReliefOpacity>(a, 1, "struct ColorReliefPaintLayer with 2 elements"@)
            } else if a.len() > 2 {
                length_error(a.len())
            } else {
                Seq::empty()
            }
        } else {
            type_error(v, "struct ColorReliefPaintLayer"@)
        }
    }

    fn decode(v: &JsonValue) -> (r: Result<Self, String>) {
        match v {
            JsonValue::Object(fields) => {
                let color_relief_color = match decode_opt_field::<ColorReliefPaintLayerColorReliefColor>(fields, "color-relief-color") {
                    Ok(x) => x,
                    Err(_) => return Err(Self::object_rejection(fields)),
                };
                let color_relief_opacity = match decode_opt_field::<ColorReliefPaintLayerColorReliefOpacity>(fields, "color-relief-opacity") {
                    Ok(x) => x,
                    Err(_) => return Err(Self::object_rejection(fields)),
                };
                Ok(ColorReliefPaintLayer { color_relief_color, color_relief_opacity })
            },
            JsonValue::Array(a) => {
                let color_relief_color = match decode_seq_opt::<ColorReliefPaintLayerColorReliefColor>(a, 0, true, "struct ColorReliefPaintLayer with 2 elements") {
                    Ok(x) => x,
                    Err(e) => return Err(e),
                };
                let color_relief_opacity = match decode_seq_opt::<ColorReliefPaintLayerColorReliefOpacity>(a, 1, true, "struct ColorReliefPaintLayer with 2 elements") {
                    Ok(x) => x,
                    Err(e) => return Err(e),
                };
                if a.len() > 2 {
                    return Err(make_length_error(a.len()));
                }
                Ok(ColorReliefPaintLayer { color_relief_color, color_relief_opacity })
            },
            _ => Err(make_type_error(v, "struct ColorReliefPaintLayer")),
        }
    }
}

impl ColorReliefPaintLayer {
    /// What is wrong with the value `w` of an entry with key `k`, where `k` is the key of a field.
    pub open spec fn field_fault(k: Seq<char>, w: Json) -> Option<Seq<char>> {
        if k == "color-relief-color"@ {
            if w is Null || ColorReliefPaintLayerColorReliefColor::accepts(w) {
                None
            } else {
                Some(ColorReliefPaintLayerColorReliefColor::rejection(w))
            }
        } else if k == "color-relief-opacity"@ {
            if w is Null || ColorReliefPaintLayerColorReliefOpacity::accepts(w) {
                None
            } else {
                Some(ColorReliefPaintLayerColorReliefOpacity::rejection(w))
            }
        } else {
            None
        }
    }

    /// The message of the first entry of `o`, from entry `i` on and among the first entries of
    /// their keys, whose value does not read as its field, if any.
    pub open spec fn first_fault(o: Seq<(Seq<char>, Json)>, i: int) -> Option<Seq<char>>
        decreases o.len() - i,
    {
        if i < 0 || i >= o.len() {
            None
        } else if first_with_key(o, i) && Self::field_fault(o[i].0, o[i].1) is Some {
            Self::field_fault(o[i].0, o[i].1)
        } else {
            Self::first_fault(o, i + 1)
        }
    }

    fn find_field_fault(k: &str, w: &JsonValue) -> (r: Option<String>)
        ensures
            match r {
                Some(m) => Self::field_fault(k@, w.model()) == Some(m@),
                None => Self::field_fault(k@, w.model()) is None,
            },
    {
        if str_eq(k, "color-relief-color") {
            match w {
                JsonValue::Null => None,
                _ => match ColorReliefPaintLayerColorReliefColor::decode(w) {
                    Ok(_) => None,
                    Err(e) => Some(e),
                },
            }
        } else if str_eq(k, "color-relief-opacity") {
            match w {
                JsonValue::Null => None,
                _ => match ColorReliefPaintLayerColorReliefOpacity::decode(w) {
                    Ok(_) => None,
                    Err(e) => Some(e),
                },
            }
        } else {
            None
        }
    }

    fn object_rejection(fields: &Vec<(String, JsonValue)>) -> (r: String)
        ensures
            r@ == Self::rejection(JsonValue::Object(*fields).model()),
    {
        let ghost o = entries_model(*fields);
        let mut i: usize = 0;
        while i < fields.len()
            invariant
                o == entries_model(*fields),
                o.len() == fields.len(),
                i <= fields.len(),
                Self::first_fault(o, 0) == Self::first_fault(o, i as int),
            decreases fields.len() - i,
        {
            proof {
                assert(o[i as int] == (fields@[i as int].0@, fields@[i as int].1.model()));
            }
            if !key_seen_before(fields, i) {
                match Self::find_field_fault(fields[i].0.as_str(), &fields[i].1) {
                    Some(m) => {
                        return m;
                    },
                    None => {},
                }
            }
            i += 1;
        }
        String::new()
    }
}

impl ColorReliefPaintLayer {
    /// The keys of the fields, in order.
    pub open spec fn field_keys() -> Seq<Seq<char>> {
        seq!["color-relief-color"@, "color-relief-opacity"@]
    }

    /// The entries that each field is written as, in order.
    pub open spec fn field_entries(self) -> Seq<Seq<(Seq<char>, Json)>> {
        seq![opt_entry::<ColorReliefPaintLayerColorReliefColor>("color-relief-color"@, self.color_relief_color), opt_entry::<ColorReliefPaintLayerColorReliefOpacity>("color-relief-opacity"@, self.color_relief_opacity)]
    }

    proof fn lemma_keys_differ(i: int)
        requires
            0 <= i < 2,
        ensures
            others_differ(Self::field_keys(), i),
    {
        reveal_strlit("color-relief-color");
        assert("color-relief-color"@.len() == 18);
        reveal_strlit("color-relief-opacity");
        assert("color-relief-opacity"@.len() == 20);
    }
}

impl JsonEncode for ColorReliefPaintLayer {
    open spec fn to_json(self) -> Json {
        Json::Object(self.field_entries().flatten())
    }

    open spec fn round_trips(self) -> bool {
        &&& (self.color_relief_color matches Some(t) ==> t.round_trips() && !(t.to_json() is Null))
        &&& (self.color_relief_opacity matches Some(t) ==> t.round_trips() && !(t.to_json() is Null))
    }

    fn encode(&self) -> (r: JsonValue) {
        let mut out: Vec<(String, JsonValue)> = Vec::new();
        let ghost s0 = Seq::<Seq<(Seq<char>, Json)>>::empty();
        proof {
            assert(entries_model(out) =~= s0.flatten());
        }
        push_opt_entry::<ColorReliefPaintLayerColorReliefColor>(&mut out, "color-relief-color", &self.color_relief_color);
        let ghost s1 = s0.push(opt_entry::<ColorReliefPaintLayerColorReliefColor>("color-relief-color"@, self.color_relief_color));
        proof {
            s0.lemma_flatten_push(opt_entry::<ColorReliefPaintLayerColorReliefColor>("color-relief-color"@, self.color_relief_color));
            assert(entries_model(out) =~= s1.flatten());
        }
        push_opt_entry::<ColorReliefPaintLayerColorReliefOpacity>(&mut out, "color-relief-opacity", &self.color_relief_opacity);
        let ghost s2 = s1.push(opt_entry::<ColorReliefPaintLayerColorReliefOpacity>("color-relief-opacity"@, self.color_relief_opacity));
        proof {
            s1.lemma_flatten_push(opt_entry::<ColorReliefPaintLayerColorReliefOpacity>("color-relief-opacity"@, self.color_relief_opacity));
            assert(entries_model(out) =~= s2.flatten());
        }
        proof {
            assert(self.field_entries() == s2);
        }
        JsonValue::Object(out)
    }

    proof fn lemma_round_trip(self) {
        let keys = Self::field_keys();
        let es = self.field_entries();
        assert(keyed_by(es, keys));
        Self::lemma_keys_differ(0);
        lemma_lookup_flatten(es, keys, 0);
        lemma_lookup_opt_entry::<ColorReliefPaintLayerColorReliefColor>("color-relief-color"@, self.color_relief_color, "color-relief-color"@);
        if self.color_relief_color is Some {
            self.color_relief_color->0.lemma_round_trip();
        }
        Self::lemma_keys_differ(1);
        lemma_lookup_flatten(es, keys, 1);
        lemma_lookup_opt_entry::<ColorReliefPaintLayerColorReliefOpacity>("color-relief-opacity"@, self.color_relief_opacity, "color-relief-opacity"@);
        if self.color_relief_opacity is Some {
            self.color_relief_opacity->0.lemma_round_trip();
        }
    }
}

/// Nested expression: ramp (`interpolate-hcl`, …) or [`Color`] operators.
#[derive(PartialEq, Debug, Clone)]
pub enum ColorReliefPaintLayerColorReliefColorExpression {
    Color(Color),
    Ramp(ColorOrArrayOfColor),
}

impl JsonDecode for ColorReliefPaintLayerColorReliefColorExpression {
    open spec fn accepts(v: Json) -> bool {
        Color::accepts(v) || ColorOrArrayOfColor::accepts(v)
    }

    open spec fn decodes(v: Json, x: Self) -> bool {
        match x {
            ColorReliefPaintLayerColorReliefColorExpression::Color(t) => Color::accepts(v) && Color::decodes(v, t),
            ColorReliefPaintLayerColorReliefColorExpression::Ramp(t) => !Color::accepts(v) && ColorOrArrayOfColor::accepts(v) && ColorOrArrayOfColor::decodes(v, t),
        }
    }

    open spec fn rejection(v: Json) -> Seq<char> {
        "ColorReliefPaintLayerColorReliefColorExpression: no variant matched. Expected Color(Color) | Ramp(ColorOrArrayOfColor). Errors: ["@ + "Color: "@ + Color::rejection(v) + "; Ramp: "@ + ColorOrArrayOfColor::rejection(v) + "]"@
    }

    fn decode(v: &JsonValue) -> (r: Result<Self, String>) {
        let e0 = match Color::decode(v) {
            Ok(x) => {
                return Ok(ColorReliefPaintLayerColorReliefColorExpression::Color(x));
            },
            Err(e) => e,
        };
        let e1 = match ColorOrArrayOfColor::decode(v) {
            Ok(x) => {
                return Ok(ColorReliefPaintLayerColorReliefColorExpression::Ramp(x));
            },
            Err(e) => e,
        };
        let mut m = "ColorReliefPaintLayerColorReliefColorExpression: no variant matched. Expected Color(Color) | Ramp(ColorOrArrayOfColor). Errors: [".to_string();
        m.append("Color: ");
        m.append(e0.as_str());
        m.append("; Ramp: ");
        m.append(e1.as_str());
        m.append("]");
        Err(m)
    }
}

impl JsonEncode for ColorReliefPaintLayerColorReliefColorExpression {
    open spec fn to_json(self) -> Json {
        match self {
            ColorReliefPaintLayerColorReliefColorExpression::Color(t) => Color::to_json(t),
            ColorReliefPaintLayerColorReliefColorExpression::Ramp(t) => ColorOrArrayOfColor::to_json(t),
        }
    }

    open spec fn round_trips(self) -> bool {
        match self {
            ColorReliefPaintLayerColorReliefColorExpression::Color(t) => Color::round_trips(t),
            ColorReliefPaintLayerColorReliefColorExpression::Ramp(t) => ColorOrArrayOfColor::round_trips(t) && !Color::accepts(ColorOrArrayOfColor::to_json(t)),
        }
    }

    fn encode(&self) -> (r: JsonValue) {
        match self {
            ColorReliefPaintLayerColorReliefColorExpression::Color(t) => Color::encode(t),
            ColorReliefPaintLayerColorReliefColorExpression::Ramp(t) => ColorOrArrayOfColor::encode(t),
        }
    }

    proof fn lemma_round_trip(self) {
        match self {
            ColorReliefPaintLayerColorReliefColorExpression::Color(t) => Color::lemma_round_trip(t),
            ColorReliefPaintLayerColorReliefColorExpression::Ramp(t) => ColorOrArrayOfColor::lemma_round_trip(t),
        }
    }
}

/// Defines the color of each pixel based on its elevation. Should be an expression that uses `["elevation"]` as input.
#[derive(PartialEq, Debug, Clone)]
pub enum ColorReliefPaintLayerColorReliefColor {
    Expr(Box<ColorReliefPaintLayerColorReliefColorExpression>),
    Literal(JsonValue),
}

impl JsonDecode for ColorReliefPaintLayerColorReliefColor {
    open spec fn accepts(v: Json) -> bool {
        ColorReliefPaintLayerColorReliefColorExpression::accepts(v) || JsonValue::accepts(v)
    }

    open spec fn decodes(v: Json, x: Self) -> bool {
        match x {
            ColorReliefPaintLayerColorReliefColor::Expr(t) => ColorReliefPaintLayerColorReliefColorExpression::accepts(v) && ColorReliefPaintLayerColorReliefColorExpression::decodes(v, *t),
            ColorReliefPaintLayerColorReliefColor::Literal(t) => !ColorReliefPaintLayerColorReliefColorExpression::accepts(v) && JsonValue::accepts(v) && JsonValue::decodes(v, t),
        }
    }

    open spec fn rejection(v: Json) -> Seq<char> {
        "ColorReliefPaintLayerColorReliefColor: no variant matched. Expected Expr(ColorReliefPaintLayerColorReliefColorExpression) | Literal(serde_json::Value). Errors: ["@ + "Expr: "@ + ColorReliefPaintLayerColorReliefColorExpression::rejection(v) + "; Literal: "@ + JsonValue::rejection(v) + "]"@
    }

    fn decode(v: &JsonValue) -> (r: Result<Self, String>) {
        let e0 = match ColorReliefPaintLayerColorReliefColorExpression::decode(v) {
            Ok(x) => {
                return Ok(ColorReliefPaintLayerColorReliefColor::Expr(Box::new(x)));
            },
            Err(e) => e,
        };
        let e1 = match JsonValue::decode(v) {
            Ok(x) => {
                return Ok(ColorReliefPaintLayerColorReliefColor::Literal(x));
            },
            Err(e) => e,
        };
        let mut m = "ColorReliefPaintLayerColorReliefColor: no variant matched. Expected Expr(ColorReliefPaintLayerColorReliefColorExpression) | Literal(serde_json::Value). Errors: [".to_string();
        m.append("Expr: ");
        m.append(e0.as_str());
        m.append("; Literal: ");
        m.append(e1.as_str());
        m.append("]");
        Err(m)
    }
}

impl JsonEncode for ColorReliefPaintLayerColorReliefColor {
    open spec fn to_json(self) -> Json {
        match self {
            ColorReliefPaintLayerColorReliefColor::Expr(t) => ColorReliefPaintLayerColorReliefColorExpression::to_json(*t),
            ColorReliefPaintLayerColorReliefColor::Literal(t) => JsonValue::to_json(t),
        }
    }

    open spec fn round_trips(self) -> bool {
        match self {
            ColorReliefPaintLayerColorReliefColor::Expr(t) => ColorReliefPaintLayerColorReliefColorExpression::round_trips(*t),
            ColorReliefPaintLayerColorReliefColor::Literal(t) => JsonValue::round_trips(t) && !ColorReliefPaintLayerColorReliefColorExpression::accepts(JsonValue::to_json(t)),
        }
    }

    fn encode(&self) -> (r: JsonValue) {
        match self {
            ColorReliefPaintLayerColorReliefColor::Expr(t) => ColorReliefPaintLayerColorReliefColorExpression::encode(&**t),
            ColorReliefPaintLayerColorReliefColor::Literal(t) => JsonValue::encode(t),
        }
    }

    proof fn lemma_round_trip(self) {
        match self {
            ColorReliefPaintLayerColorReliefColor::Expr(t) => ColorReliefPaintLayerColorReliefColorExpression::lemma_round_trip(*t),
            ColorReliefPaintLayerColorReliefColor::Literal(t) => JsonValue::lemma_round_trip(t),
        }
    }
}

/// Nested expression: ramp (`interpolate` / …) or regular [`Number`] operators.
#[derive(PartialEq, Debug, Clone)]
pub enum ColorReliefPaintLayerColorReliefOpacityExpression {
    Number(Number),
    Ramp(NumberOrArrayOfNumberOrColorOrArrayOfColorOrProjection),
}

impl JsonDecode for ColorReliefPaintLayerColorReliefOpacityExpression {
    open spec fn accepts(v: Json) -> bool {
        Number::accepts(v) || NumberOrArrayOfNumberOrColorOrArrayOfColorOrProjection::accepts(v)
    }

    open spec fn decodes(v: Json, x: Self) -> bool {
        match x {
            ColorReliefPaintLayerColorReliefOpacityExpression::Number(t) => Number::accepts(v) && Number::decodes(v, t),
            ColorReliefPaintLayerColorReliefOpacityExpression::Ramp(t) => !Number::accepts(v) && NumberOrArrayOfNumberOrColorOrArrayOfColorOrProjection::accepts(v) && NumberOrArrayOfNumberOrColorOrArrayOfColorOrProjection::decodes(v, t),
        }
    }

    open spec fn rejection(v: Json) -> Seq<char> {
        "ColorReliefPaintLayerColorReliefOpacityExpression: no variant matched. Expected Number(Number) | Ramp(NumberOrArrayOfNumberOrColorOrArrayOfColorOrProjection). Errors: ["@ + "Number: "@ + Number::rejection(v) + "; Ramp: "@ + NumberOrArrayOfNumberOrColorOrArrayOfColorOrProjection::rejection(v) + "]"@
    }

    fn decode(v: &JsonValue) -> (r: Result<Self, String>) {
        let e0 = match Number::decode(v) {
            Ok(x) => {
                return Ok(ColorReliefPaintLayerColorReliefOpacityExpression::Number(x));
            },
            Err(e) => e,
        };
        let e1 = match NumberOrArrayOfNumberOrColorOrArrayOfColorOrProjection::decode(v) {
            Ok(x) => {
                return Ok(ColorReliefPaintLayerColorReliefOpacityExpression::Ramp(x));
            },
            Err(e) => e,
        };
        let mut m = "ColorReliefPaintLayerColorReliefOpacityExpression: no variant matched. Expected Number(Number) | Ramp(NumberOrArrayOfNumberOrColorOrArrayOfColorOrProjection). Errors: [".to_string();
        m.append("Number: ");
        m.append(e0.as_str());
        m.append("; Ramp: ");
        m.append(e1.as_str());
        m.append("]");
        Err(m)
    }
}

impl JsonEncode for ColorReliefPaintLayerColorReliefOpacityExpression {
    open spec fn to_json(self) -> Json {
        match self {
            ColorReliefPaintLayerColorReliefOpacityExpression::Number(t) => Number::to_json(t),
            ColorReliefPaintLayerColorReliefOpacityExpression::Ramp(t) => NumberOrArrayOfNumberOrColorOrArrayOfColorOrProjection::to_json(t),
        }
    }

    open spec fn round_trips(self) -> bool {
        match self {
            ColorReliefPaintLayerColorReliefOpacityExpression::Number(t) => Number::round_trips(t),
            ColorReliefPaintLayerColorReliefOpacityExpression::Ramp(t) => NumberOrArrayOfNumberOrColorOrArrayOfColorOrProjection::round_trips(t) && !Number::accepts(NumberOrArrayOfNumberOrColorOrArrayOfColorOrProjection::to_json(t)),
        }
    }

    fn encode(&self) -> (r: JsonValue) {
        match self {
            ColorReliefPaintLayerColorReliefOpacityExpression::Number(t) => Number::encode(t),
            ColorReliefPaintLayerColorReliefOpacityExpression::Ramp(t) => NumberOrArrayOfNumberOrColorOrArrayOfColorOrProjection::encode(t),
        }
    }

    proof fn lemma_round_trip(self) {
        match self {
            ColorReliefPaintLayerColorReliefOpacityExpression::Number(t) => Number::lemma_round_trip(t),
            ColorReliefPaintLayerColorReliefOpacityExpression::Ramp(t) => NumberOrArrayOfNumberOrColorOrArrayOfColorOrProjection::lemma_round_trip(t),
        }
    }
}

/// The opacity at which the color-relief will be drawn.
#[derive(PartialEq, Debug, Clone)]
pub enum ColorReliefPaintLayerColorReliefOpacity {
    Expr(Box<ColorReliefPaintLayerColorReliefOpacityExpression>),
    Literal(JsonNumber),
}

impl JsonDecode for ColorReliefPaintLayerColorReliefOpacity {
    open spec fn accepts(v: Json) -> bool {
        ColorReliefPaintLayerColorReliefOpacityExpression::accepts(v) || JsonNumber::accepts(v)
    }

    open spec fn decodes(v: Json, x: Self) -> bool {
        match x {
            ColorReliefPaintLayerColorReliefOpacity::Expr(t) => ColorReliefPaintLayerColorReliefOpacityExpression::accepts(v) && ColorReliefPaintLayerColorReliefOpacityExpression::decodes(v, *t),
            ColorReliefPaintLayerColorReliefOpacity::Literal(t) => !ColorReliefPaintLayerColorReliefOpacityExpression::accepts(v) && JsonNumber::accepts(v) && JsonNumber::decodes(v, t),
        }
    }

    open spec fn rejection(v: Json) -> Seq<char> {
        "ColorReliefPaintLayerColorReliefOpacity: no variant matched. Expected Expr(ColorReliefPaintLayerColorReliefOpacityExpression) | Literal(serde_json::Number). Errors: ["@ + "Expr: "@ + ColorReliefPaintLayerColorReliefOpacityExpression::rejection(v) + "; Literal: "@ + JsonNumber::rejection(v) + "]"@
    }

    fn decode(v: &JsonValue) -> (r: Result<Self, String>) {
        let e0 = match ColorReliefPaintLayerColorReliefOpacityExpression::decode(v) {
            Ok(x) => {
                return Ok(ColorReliefPaintLayerColorReliefOpacity::Expr(Box::new(x)));
            },
            Err(e) => e,
        };
        let e1 = match JsonNumber::decode(v) {
            Ok(x) => {
                return Ok(ColorReliefPaintLayerColorReliefOpacity::Literal(x));
            },
            Err(e) => e,
        };
        let mut m = "ColorReliefPaintLayerColorReliefOpacity: no variant matched. Expected Expr(ColorReliefPaintLayerColorReliefOpacityExpression) | Literal(serde_json::Number). Errors: [".to_string();
        m.append("Expr: ");
        m.append(e0.as_str());
        m.append("; Literal: ");
        m.append(e1.as_str());
        m.append("]");
        Err(m)
    }
}

impl JsonEncode for ColorReliefPaintLayerColorReliefOpacity {
    open spec fn to_json(self) -> Json {
        match self {
            ColorReliefPaintLayerColorReliefOpacity::Expr(t) => ColorReliefPaintLayerColorReliefOpacityExpression::to_json(*t),
            ColorReliefPaintLayerColorReliefOpacity::Literal(t) => JsonNumber::to_json(t),
        }
    }

    open spec fn round_trips(self) -> bool {
        match self {
            ColorReliefPaintLayerColorReliefOpacity::Expr(t) => ColorReliefPaintLayerColorReliefOpacityExpression::round_trips(*t),
            ColorReliefPaintLayerColorReliefOpacity::Literal(t) => JsonNumber::round_trips(t) && !ColorReliefPaintLayerColorReliefOpacityExpression::accepts(JsonNumber::to_json(t)),
        }
    }

    fn encode(&self) -> (r: JsonValue) {
        match self {
            ColorReliefPaintLayerColorReliefOpacity::Expr(t) => ColorReliefPaintLayerColorReliefOpacityExpression::encode(&**t),
            ColorReliefPaintLayerColorReliefOpacity::Literal(t) => JsonNumber::encode(t),
        }
    }

    proof fn lemma_round_trip(self) {
        match self {
            ColorReliefPaintLayerColorReliefOpacity::Expr(t) => ColorReliefPaintLayerColorReliefOpacityExpression::lemma_round_trip(*t),
            ColorReliefPaintLayerColorReliefOpacity::Literal(t) => JsonNumber::lemma_round_trip(t),
        }
    }
}

impl Default for ColorReliefPaintLayerColorReliefOpacity {
    fn default() -> (r: Self)
        ensures
            r.to_json() == Json::Number("1"@),
            r is Literal,
    {
        let r = ColorReliefPaintLayerColorReliefOpacity::Literal(JsonNumber::from_literal("1"));
        r
    }
}

#[derive(PartialEq, Debug, Clone)]
pub struct FillLayoutLayer {
    /// Sorts features in ascending order based on this value. Features with a higher sort key will appear above features with a lower sort key.
    pub fill_sort_key: Option<FillLayoutLayerFillSortKey>,
    /// Whether this layer is displayed.
    pub visibility: Option<FillLayoutLayerVisibility>,
}

impl JsonDecode for FillLayoutLayer {
    /// An object with the fields by their keys, or an array with the fields in order.
    open spec fn accepts(v: Json) -> bool {
        ||| (v is Object && {
            let o = v->Object_0;
            &&& opt_field_accepts::<FillLayoutLayerFillSortKey>(o, "fill-sort-key"@)
            &&& opt_field_accepts::<FillLayoutLayerVisibility>(o, "visibility"@)
        })
        ||| (v is Array && {
            let a = v->Array_0;
            &&& seq_opt_accepts::<FillLayoutLayerFillSortKey>(a, 0, true)
            &&& seq_opt_accepts::<FillLayoutLayerVisibility>(a, 1, true)
            &&& a.len() <= 2
        })
    }

    open spec fn decodes(v: Json, x: Self) -> bool {
        ||| (v is Object && {
            let o = v->Object_0;
            &&& opt_field_decodes::<FillLayoutLayerFillSortKey>(o, "fill-sort-key"@, x.fill_sort_key)
            &&& opt_field_decodes::<FillLayoutLayerVisibility>(o, "visibility"@, x.visibility)
        })
        ||| (v is Array && {
            let a = v->Array_0;
            &&& seq_opt_decodes::<FillLayoutLayerFillSortKey>(a, 0, x.fill_sort_key)
            &&& seq_opt_decodes::<FillLayoutLayerVisibility>(a, 1, x.visibility)
        })
    }

    /// For an object, the first entry in order whose value does not read as its field, else the
    /// first required field that is missing.
    open spec fn rejection(v: Json) -> Seq<char> {
        if v is Object {
            let o = v->Object_0;
            match Self::first_fault(o, 0) {
                Some(m) => m,
                None => {
                    Seq::empty()
                },
            }
        } else if v is Array {
            let a = v->Array_0;
            if !seq_opt_accepts::<FillLayoutLayerFillSortKey>(a, 0, true) {
                seq_opt_rejection::<FillLayoutLayerFillSortKey>(a, 0, "struct FillLayoutLayer with 2 elements"@)
            } else if !seq_opt_accepts::<FillLayoutLayerVisibility>(a, 1, true) {
                seq_opt_rejection::<FillLayoutLayerVisibility>(a, 1, "struct FillLayoutLayer with 2 elements"@)
            } else if a.len() > 2 {
                length_error(a.len())
            } else {
                Seq::empty()
            }
        } else {
            type_error(v, "struct FillLayoutLayer"@)
        }
    }

    fn decode(v: &JsonValue) -> (r: Result<Self, String>) {
        match v {
            JsonValue::Object(fields) => {
                let fill_sort_key = match decode_opt_field::<FillLayoutLayerFillSortKey>(fields, "fill-sort-key") {
                    Ok(x) => x,
                    Err(_) => return Err(Self::object_rejection(fields)),
                };
                let visibility = match decode_opt_field::<FillLayoutLayerVisibility>(fields, "visibility") {
                    Ok(x) => x,
                    Err(_) => return Err(Self::object_rejection(fields)),
                };
                Ok(FillLayoutLayer { fill_sort_key, visibility })
            },
            JsonValue::Array(a) => {
                let fill_sort_key = match decode_seq_opt::<FillLayoutLayerFillSortKey>(a, 0, true, "struct FillLayoutLayer with 2 elements") {
                    Ok(x) => x,
                    Err(e) => return Err(e),
                };
                let visibility = match decode_seq_opt::<FillLayoutLayerVisibility>(a, 1, true, "struct FillLayoutLayer with 2 elements") {
                    Ok(x) => x,
                    Err(e) => return Err(e),
                };
                if a.len() > 2 {
                    return Err(make_length_error(a.len()));
                }
                Ok(FillLayoutLayer { fill_sort_key, visibility })
            },
            _ => Err(make_type_error(v, "struct FillLayoutLayer")),
        }
    }
}

impl FillLayoutLayer {
    /// What is wrong with the value `w` of an entry with key `k`, where `k` is the key of a field.
    pub open spec fn field_fault(k: Seq<char>, w: Json) -> Option<Seq<char>> {
        if k == "fill-sort-key"@ {
            if w is Null || FillLayoutLayerFillSortKey::accepts(w) {
                None
            } else {
                Some(FillLayoutLayerFillSortKey::rejection(w))
            }
        } else if k == "visibility"@ {
            if w is Null || FillLayoutLayerVisibility::accepts(w) {
                None
            } else {
                Some(FillLayoutLayerVisibility::rejection(w))
            }
        } else {
            None
        }
    }

    /// The message of the first entry of `o`, from entry `i` on and among the first entries of
    /// their keys, whose value does not read as its field, if any.
    pub open spec fn first_fault(o: Seq<(Seq<char>, Json)>, i: int) -> Option<Seq<char>>
        decreases o.len() - i,
    {
        if i < 0 || i >= o.len() {
            None
        } else if first_with_key(o, i) && Self::field_fault(o[i].0, o[i].1) is Some {
            Self::field_fault(o[i].0, o[i].1)
        } else {
            Self::first_fault(o, i + 1)
        }
    }

    fn find_field_fault(k: &str, w: &JsonValue) -> (r: Option<String>)
        ensures
            match r {
                Some(m) => Self::field_fault(k@, w.model()) == Some(m@),
                None => Self::field_fault(k@, w.model()) is None,
            },
    {
        if str_eq(k, "fill-sort-key") {
            match w {
                JsonValue::Null => None,
                _ => match FillLayoutLayerFillSortKey::decode(w) {
                    Ok(_) => None,
                    Err(e) => Some(e),
                },
            }
        } else if str_eq(k, "visibility") {
            match w {
                JsonValue::Null => None,
                _ => match FillLayoutLayerVisibility::decode(w) {
                    Ok(_) => None,
                    Err(e) => Some(e),
                },
            }
        } else {
            None
        }
    }

    fn object_rejection(fields: &Vec<(String, JsonValue)>) -> (r: String)
        ensures
            r@ == Self::rejection(JsonValue::Object(*fields).model()),
    {
        let ghost o = entries_model(*fields);
        let mut i: usize = 0;
        while i < fields.len()
            invariant
                o == entries_model(*fields),
                o.len() == fields.len(),
                i <= fields.len(),
                Self::first_fault(o, 0) == Self::first_fault(o, i as int),
            decreases fields.len() - i,
        {
            proof {
                assert(o[i as int] == (fields@[i as int].0@, fields@[i as int].1.model()));
            }
            if !key_seen_before(fields, i) {
                match Self::find_field_fault(fields[i].0.as_str(), &fields[i].1) {
                    Some(m) => {
                        return m;
                    },
                    None => {},
                }
            }
            i += 1;
        }
        String::new()
    }
}

impl FillLayoutLayer {
    /// The keys of the fields, in order.
    pub open spec fn field_keys() -> Seq<Seq<char>> {
        seq!["fill-sort-key"@, "visibility"@]
    }

    /// The entries that each field is written as, in order.
    pub open spec fn field_entries(self) -> Seq<Seq<(Seq<char>, Json)>> {
        seq![opt_entry::<FillLayoutLayerFillSortKey>("fill-sort-key"@, self.fill_sort_key), opt_entry::<FillLayoutLayerVisibility>("visibility"@, self.visibility)]
    }

    proof fn lemma_keys_differ(i: int)
        requires
            0 <= i < 2,
        ensures
            others_differ(Self::field_keys(), i),
    {
        reveal_strlit("fill-sort-key");
        assert("fill-sort-key"@.len() == 13);
        reveal_strlit("visibility");
        assert("visibility"@.len() == 10);
    }
}

impl JsonEncode for FillLayoutLayer {
    open spec fn to_json(self) -> Json {
        Json::Object(self.field_entries().flatten())
    }

    open spec fn round_trips(self) -> bool {
        &&& (self.fill_sort_key matches Some(t) ==> t.round_trips() && !(t.to_json() is Null))
        &&& (self.visibility matches Some(t) ==> t.round_trips() && !(t.to_json() is Null))
    }

    fn encode(&self) -> (r: JsonValue) {
        let mut out: Vec<(String, JsonValue)> = Vec::new();
        let ghost s0 = Seq::<Seq<(Seq<char>, Json)>>::empty();
        proof {
            assert(entries_model(out) =~= s0.flatten());
        }
        push_opt_entry::<FillLayoutLayerFillSortKey>(&mut out, "fill-sort-key", &self.fill_sort_key);
        let ghost s1 = s0.push(opt_entry::<FillLayoutLayerFillSortKey>("fill-sort-key"@, self.fill_sort_key));
        proof {
            s0.lemma_flatten_push(opt_entry::<FillLayoutLayerFillSortKey>("fill-sort-key"@, self.fill_sort_key));
            assert(entries_model(out) =~= s1.flatten());
        }
        push_opt_entry::<FillLayoutLayerVisibility>(&mut out, "visibility", &self.visibility);
        let ghost s2 = s1.push(opt_entry::<FillLayoutLayerVisibility>("visibility"@, self.visibility));
        proof {
            s1.lemma_flatten_push(opt_entry::<FillLayoutLayerVisibility>("visibility"@, self.visibility));
            assert(entries_model(out) =~= s2.flatten());
        }
        proof {
            assert(self.field_entries() == s2);
        }
        JsonValue::Object(out)
    }

    proof fn lemma_round_trip(self) {
        let keys = Self::field_keys();
        let es = self.field_entries();
        assert(keyed_by(es, keys));
        Self::lemma_keys_differ(0);
        lemma_lookup_flatten(es, keys, 0);
        lemma_lookup_opt_entry::<FillLayoutLayerFillSortKey>("fill-sort-key"@, self.fill_sort_key, "fill-sort-key"@);
        if self.fill_sort_key is Some {
            self.fill_sort_key->0.lemma_round_trip();
        }
        Self::lemma_keys_differ(1);
        lemma_lookup_flatten(es, keys, 1);
        lemma_lookup_opt_entry::<FillLayoutLayerVisibility>("visibility"@, self.visibility, "visibility"@);
        if self.visibility is Some {
            self.visibility->0.lemma_round_trip();
        }
    }
}

/// Nested expression: ramp (`interpolate` / …) or regular [`Number`] operators.
#[derive(PartialEq, Debug, Clone)]
pub enum FillLayoutLayerFillSortKeyExpression {
    Number(Number),
    Ramp(NumberOrArrayOfNumberOrColorOrArrayOfColorOrProjection),
}

impl JsonDecode for FillLayoutLayerFillSortKeyExpression {
    open spec fn accepts(v: Json) -> bool {
        Number::accepts(v) || NumberOrArrayOfNumberOrColorOrArrayOfColorOrProjection::accepts(v)
    }

    open spec fn decodes(v: Json, x: Self) -> bool {
        match x {
            FillLayoutLayerFillSortKeyExpression::Number(t) => Number::accepts(v) && Number::decodes(v, t),
            FillLayoutLayerFillSortKeyExpression::Ramp(t) => !Number::accepts(v) && NumberOrArrayOfNumberOrColorOrArrayOfColorOrProjection::accepts(v) && NumberOrArrayOfNumberOrColorOrArrayOfColorOrProjection::decodes(v, t),
        }
    }

    open spec fn rejection(v: Json) -> Seq<char> {
        "FillLayoutLayerFillSortKeyExpression: no variant matched. Expected Number(Number) | Ramp(NumberOrArrayOfNumberOrColorOrArrayOfColorOrProjection). Errors: ["@ + "Number: "@ + Number::rejection(v) + "; Ramp: "@ + NumberOrArrayOfNumberOrColorOrArrayOfColorOrProjection::rejection(v) + "]"@
    }

    fn decode(v: &JsonValue) -> (r: Result<Self, String>) {
        let e0 = match Number::decode(v) {
            Ok(x) => {
                return Ok(FillLayoutLayerFillSortKeyExpression::Number(x));
            },
            Err(e) => e,
        };
        let e1 = match NumberOrArrayOfNumberOrColorOrArrayOfColorOrProjection::decode(v) {
            Ok(x) => {
                return Ok(FillLayoutLayerFillSortKeyExpression::Ramp(x));
            },
            Err(e) => e,
        };
        let mut m = "FillLayoutLayerFillSortKeyExpression: no variant matched. Expected Number(Number) | Ramp(NumberOrArrayOfNumberOrColorOrArrayOfColorOrProjection). Errors: [".to_string();
        m.append("Number: ");
        m.append(e0.as_str());
        m.append("; Ramp: ");
        m.append(e1.as_str());
        m.append("]");
        Err(m)
    }
}

impl JsonEncode for FillLayoutLayerFillSortKeyExpression {
    open spec fn to_json(self) -> Json {
        match self {
            FillLayoutLayerFillSortKeyExpression::Number(t) => Number::to_json(t),
            FillLayoutLayerFillSortKeyExpression::Ramp(t) => NumberOrArrayOfNumberOrColorOrArrayOfColorOrProjection::to_json(t),
        }
    }

    open spec fn round_trips(self) -> bool {
        match self {
            FillLayoutLayerFillSortKeyExpression::Number(t) => Number::round_trips(t),
            FillLayoutLayerFillSortKeyExpression::Ramp(t) => NumberOrArrayOfNumberOrColorOrArrayOfColorOrProjection::round_trips(t) && !Number::accepts(NumberOrArrayOfNumberOrColorOrArrayOfColorOrProjection::to_json(t)),
        }
    }

    fn encode(&self) -> (r: JsonValue) {
        match self {
            FillLayoutLayerFillSortKeyExpression::Number(t) => Number::encode(t),
            FillLayoutLayerFillSortKeyExpression::Ramp(t) => NumberOrArrayOfNumberOrColorOrArrayOfColorOrProjection::encode(t),
        }
    }

    proof fn lemma_round_trip(self) {
        match self {
            FillLayoutLayerFillSortKeyExpression::Number(t) => Number::lemma_round_trip(t),
            FillLayoutLayerFillSortKeyExpression::Ramp(t) => NumberOrArrayOfNumberOrColorOrArrayOfColorOrProjection::lemma_round_trip(t),
        }
    }
}

/// Sorts features in ascending order based on this value. Features with a higher sort key will appear above features with a lower sort key.
#[derive(PartialEq, Debug, Clone)]
pub enum FillLayoutLayerFillSortKey {
    Expr(Box<FillLayoutLayerFillSortKeyExpression>),
    Literal(JsonNumber),
}

impl JsonDecode for FillLayoutLayerFillSortKey {
    open spec fn accepts(v: Json) -> bool {
        FillLayoutLayerFillSortKeyExpression::accepts(v) || JsonNumber::accepts(v)
    }

    open spec fn decodes(v: Json, x: Self) -> bool {
        match x {
            FillLayoutLayerFillSortKey::Expr(t) => FillLayoutLayerFillSortKeyExpression::accepts(v) && FillLayoutLayerFillSortKeyExpression::decodes(v, *t),
            FillLayoutLayerFillSortKey::Literal(t) => !FillLayoutLayerFillSortKeyExpression::accepts(v) && JsonNumber::accepts(v) && JsonNumber::decodes(v, t),
        }
    }

    open spec fn rejection(v: Json) -> Seq<char> {
        "FillLayoutLayerFillSortKey: no variant matched. Expected Expr(FillLayoutLayerFillSortKeyExpression) | Literal(serde_json::Number). Errors: ["@ + "Expr: "@ + FillLayoutLayerFillSortKeyExpression::rejection(v) + "; Literal: "@ + JsonNumber::rejection(v) + "]"@
    }

    fn decode(v: &JsonValue) -> (r: Result<Self, String>) {
        let e0 = match FillLayoutLayerFillSortKeyExpression::decode(v) {
            Ok(x) => {
                return Ok(FillLayoutLayerFillSortKey::Expr(Box::new(x)));
            },
            Err(e) => e,
        };
        let e1 = match JsonNumber::decode(v) {
            Ok(x) => {
                return Ok(FillLayoutLayerFillSortKey::Literal(x));
            },
            Err(e) => e,
        };
        let mut m = "FillLayoutLayerFillSortKey: no variant matched. Expected Expr(FillLayoutLayerFillSortKeyExpression) | Literal(serde_json::Number). Errors: [".to_string();
        m.append("Expr: ");
        m.append(e0.as_str());
        m.append("; Literal: ");
        m.append(e1.as_str());
        m.append("]");
        Err(m)
    }
}

impl JsonEncode for FillLayoutLayerFillSortKey {
    open spec fn to_json(self) -> Json {
        match self {
            FillLayoutLayerFillSortKey::Expr(t) => FillLayoutLayerFillSortKeyExpression::to_json(*t),
            FillLayoutLayerFillSortKey::Literal(t) => JsonNumber::to_json(t),
        }
    }

    open spec fn round_trips(self) -> bool {
        match self {
            FillLayoutLayerFillSortKey::Expr(t) => FillLayoutLayerFillSortKeyExpression::round_trips(*t),
            FillLayoutLayerFillSortKey::Literal(t) => JsonNumber::round_trips(t) && !FillLayoutLayerFillSortKeyExpression::accepts(JsonNumber::to_json(t)),
        }
    }

    fn encode(&self) -> (r: JsonValue) {
        match self {
            FillLayoutLayerFillSortKey::Expr(t) => FillLayoutLayerFillSortKeyExpression::encode(&**t),
            FillLayoutLayerFillSortKey::Literal(t) => JsonNumber::encode(t),
        }
    }

    proof fn lemma_round_trip(self) {
        match self {
            FillLayoutLayerFillSortKey::Expr(t) => FillLayoutLayerFillSortKeyExpression::lemma_round_trip(*t),
            FillLayoutLayerFillSortKey::Literal(t) => JsonNumber::lemma_round_trip(t),
        }
    }
}

/// Whether this layer is displayed.
#[derive(PartialEq, Eq, Debug, Clone, Copy)]
pub enum FillLayoutLayerVisibility {
    NoneValue,
    Visible,
}

impl FillLayoutLayerVisibility {
    /// The name that stands for the value in a style document.
    pub open spec fn spec_name(self) -> Seq<char> {
        match self {
            FillLayoutLayerVisibility::NoneValue => "none"@,
            FillLayoutLayerVisibility::Visible => "visible"@,
        }
    }

    /// The name that stands for the value in a style document.
    pub fn name(&self) -> (r: &'static str)
        ensures
            r@ == self.spec_name(),
    {
        match self {
            FillLayoutLayerVisibility::NoneValue => "none",
            FillLayoutLayerVisibility::Visible => "visible",
        }
    }

    /// The value that a name stands for, if any.
    pub fn from_name(s: &str) -> (r: Option<FillLayoutLayerVisibility>)
        ensures
            r matches Some(x) ==> x.spec_name() == s@,
            r is None ==> forall|x: FillLayoutLayerVisibility| x.spec_name() != s@,
    {
        if str_eq(s, "none") {
            Some(FillLayoutLayerVisibility::NoneValue)
        } else if str_eq(s, "visible") {
            Some(FillLayoutLayerVisibility::Visible)
        } else {
            None
        }
    }
}

impl FillLayoutLayerVisibility {
    /// Each value is read from, and written as, the name that the style specification gives
    /// it, and a document holding one of these names reads as that value and no other.
    pub proof fn lemma_read_by_name()
        ensures
            forall|x: FillLayoutLayerVisibility| <FillLayoutLayerVisibility as JsonDecode>::decodes(Json::Str("none"@), x) <==> x == FillLayoutLayerVisibility::NoneValue,
            <FillLayoutLayerVisibility as JsonEncode>::to_json(FillLayoutLayerVisibility::NoneValue) == Json::Str("none"@),
            forall|x: FillLayoutLayerVisibility| <FillLayoutLayerVisibility as JsonDecode>::decodes(Json::Str("visible"@), x) <==> x == FillLayoutLayerVisibility::Visible,
            <FillLayoutLayerVisibility as JsonEncode>::to_json(FillLayoutLayerVisibility::Visible) == Json::Str("visible"@),
    {
        reveal_strlit("visible");
        reveal_strlit("none");
        assert("none"@.len() != "visible"@.len());
    }
}

impl JsonDecode for FillLayoutLayerVisibility {
    /// The name of a value, or an object whose one entry has the name as its key and `null`.
    open spec fn accepts(v: Json) -> bool {
        ||| (v is Str && exists|x: FillLayoutLayerVisibility| x.spec_name() == v->Str_0)
        ||| (v is Object && v->Object_0.len() == 1 && v->Object_0[0].1 is Null && exists|x: FillLayoutLayerVisibility| x.spec_name() == v->Object_0[0].0)
    }

    open spec fn decodes(v: Json, x: Self) -> bool {
        ||| v == Json::Str(x.spec_name())
        ||| (v is Object && v->Object_0.len() == 1 && v->Object_0[0] == (x.spec_name(), Json::Null))
    }

    open spec fn rejection(v: Json) -> Seq<char> {
        if v is Str {
            unknown_variant(v->Str_0) + ", expected `none` or `visible`"@
        } else if v is Object {
            let o = v->Object_0;
            if o.len() != 1 {
                "invalid value: map, expected map with a single key"@
            } else if !(exists|x: FillLayoutLayerVisibility| x.spec_name() == o[0].0) {
                unknown_variant(o[0].0) + ", expected `none` or `visible`"@
            } else {
                type_error(o[0].1, "unit"@)
            }
        } else {
            type_error(v, "string or map"@)
        }
    }

    fn decode(v: &JsonValue) -> (r: Result<Self, String>) {
        match v {
            JsonValue::String(s) => match Self::from_name(s.as_str()) {
                Some(x) => Ok(x),
                None => {
                    let mut m = make_unknown_variant(s.as_str());
                    m.append(", expected `none` or `visible`");
                    Err(m)
                },
            },
            JsonValue::Object(fields) => {
                if fields.len() != 1 {
                    return Err("invalid value: map, expected map with a single key".to_string());
                }
                proof {
                    assert(entries_model(*fields)[0] == (fields@[0].0@, fields@[0].1.model()));
                }
                match Self::from_name(fields[0].0.as_str()) {
                    Some(x) => match &fields[0].1 {
                        JsonValue::Null => Ok(x),
                        _ => Err(make_type_error(&fields[0].1, "unit")),
                    },
                    None => {
                        let mut m = make_unknown_variant(fields[0].0.as_str());
                        m.append(", expected `none` or `visible`");
                        Err(m)
                    },
                }
            },
            _ => Err(make_type_error(v, "string or map")),
        }
    }
}

impl JsonEncode for FillLayoutLayerVisibility {
    open spec fn to_json(self) -> Json {
        Json::Str(self.spec_name())
    }

    open spec fn round_trips(self) -> bool {
        true
    }

    fn encode(&self) -> (r: JsonValue) {
        JsonValue::String(self.name().to_string())
    }

    proof fn lemma_round_trip(self) {
    }
}

impl Default for FillLayoutLayerVisibility {
    fn default() -> (r: Self)
        ensures
            r == FillLayoutLayerVisibility::Visible,
    {
        FillLayoutLayerVisibility::Visible
    }
}

#[derive(PartialEq, Debug, Clone)]
pub struct FillPaintLayer {
    /// Whether or not the fill should be antialiased.
    pub fill_antialias: Option<FillPaintLayerFillAntialias>,
    /// The color of the filled part of this layer. This color can be specified as `rgba` with an alpha component and the color's opacity will not affect the opacity of the 1px stroke, if it is used.
    pub fill_color: Option<FillPaintLayerFillColor>,
    /// The opacity of the entire fill layer. In contrast to the `fill-color`, this value will also affect the 1px stroke around the fill, if the stroke is used.
    pub fill_opacity: Option<FillPaintLayerFillOpacity>,
    /// The outline color of the fill. Matches the value of `fill-color` if unspecified.
    pub fill_outline_color: Option<FillPaintLayerFillOutlineColor>,
    /// Name of image in sprite to use for drawing image fills. For seamless patterns, image width and height must be a factor of two (2, 4, 8, ..., 512). Note that zoom-dependent expressions will be evaluated only at integer zoom levels.
    pub fill_pattern: Option<FillPaintLayerFillPattern>,
    /// The geometry's offset. Values are [x, y] where negatives indicate left and up, respectively.
    pub fill_translate: Option<FillPaintLayerFillTranslate>,
    /// Controls the frame of reference for `fill-translate`.
    pub fill_translate_anchor: Option<FillPaintLayerFillTranslateAnchor>,
}

impl JsonDecode for FillPaintLayer {
    /// An object with the fields by their keys, or an array with the fields in order.
    open spec fn accepts(v: Json) -> bool {
        ||| (v is Object && {
            let o = v->Object_0;
            &&& opt_field_accepts::<FillPaintLayerFillAntialias>(o, "fill-antialias"@)
            &&& opt_field_accepts::<FillPaintLayerFillColor>(o, "fill-color"@)
            &&& opt_field_accepts::<FillPaintLayerFillOpacity>(o, "fill-opacity"@)
            &&& opt_field_accepts::<FillPaintLayerFillOutlineColor>(o, "fill-outline-color"@)
            &&& opt_field_accepts::<FillPaintLayerFillPattern>(o, "fill-pattern"@)
            &&& opt_field_accepts::<FillPaintLayerFillTranslate>(o, "fill-translate"@)
            &&& opt_field_accepts::<FillPaintLayerFillTranslateAnchor>(o, "fill-translate-anchor"@)
        })
        ||| (v is Array && {
            let a = v->Array_0;
            &&& seq_opt_accepts::<FillPaintLayerFillAntialias>(a, 0, true)
            &&& seq_opt_accepts::<FillPaintLayerFillColor>(a, 1, true)
            &&& seq_opt_accepts::<FillPaintLayerFillOpacity>(a, 2, true)
            &&& seq_opt_accepts::<FillPaintLayerFillOutlineColor>(a, 3, true)
            &&& seq_opt_accepts::<FillPaintLayerFillPattern>(a, 4, true)
            &&& seq_opt_accepts::<FillPaintLayerFillTranslate>(a, 5, true)
            &&& seq_opt_accepts::<FillPaintLayerFillTranslateAnchor>(a, 6, true)
            &&& a.len() <= 7
        })
    }

    open spec fn decodes(v: Json, x: Self) -> bool {
        ||| (v is Object && {
            let o = v->Object_0;
            &&& opt_field_decodes::<FillPaintLayerFillAntialias>(o, "fill-antialias"@, x.fill_antialias)
            &&& opt_field_decodes::<FillPaintLayerFillColor>(o, "fill-color"@, x.fill_color)
            &&& opt_field_decodes::<FillPaintLayerFillOpacity>(o, "fill-opacity"@, x.fill_opacity)
            &&& opt_field_decodes::<FillPaintLayerFillOutlineColor>(o, "fill-outline-color"@, x.fill_outline_color)
            &&& opt_field_decodes::<FillPaintLayerFillPattern>(o, "fill-pattern"@, x.fill_pattern)
            &&& opt_field_decodes::<FillPaintLayerFillTranslate>(o, "fill-translate"@, x.fill_translate)
            &&& opt_field_decodes::<FillPaintLayerFillTranslateAnchor>(o, "fill-translate-anchor"@, x.fill_translate_anchor)
        })
        ||| (v is Array && {
            let a = v->Array_0;
            &&& seq_opt_decodes::<FillPaintLayerFillAntialias>(a, 0, x.fill_antialias)
            &&& seq_opt_decodes::<FillPaintLayerFillColor>(a, 1, x.fill_color)
            &&& seq_opt_decodes::<FillPaintLayerFillOpacity>(a, 2, x.fill_opacity)
            &&& seq_opt_decodes::<FillPaintLayerFillOutlineColor>(a, 3, x.fill_outline_color)
            &&& seq_opt_decodes::<FillPaintLayerFillPattern>(a, 4, x.fill_pattern)
            &&& seq_opt_decodes::<FillPaintLayerFillTranslate>(a, 5, x.fill_translate)
            &&& seq_opt_decodes::<FillPaintLayerFillTranslateAnchor>(a, 6, x.fill_translate_anchor)
        })
    }

    /// For an object, the first entry in order whose value does not read as its field, else the
    /// first required field that is missing.
    open spec fn rejection(v: Json) -> Seq<char> {
        if v is Object {
            let o = v->Object_0;
            match Self::first_fault(o, 0) {
                Some(m) => m,
                None => {
                    Seq::empty()
                },
            }
        } else if v is Array {
            let a = v->Array_0;
            if !seq_opt_accepts::<FillPaintLayerFillAntialias>(a, 0, true) {
                seq_opt_rejection::<FillPaintLayerFillAntialias>(a, 0, "struct FillPaintLayer with 7 elements"@)
            } else if !seq_opt_accepts::<FillPaintLayerFillColor>(a, 1, true) {
                seq_opt_rejection::<FillPaintLayerFillColor>(a, 1, "struct FillPaintLayer with 7 elements"@)
            } else if !seq_opt_accepts::<FillPaintLayerFillOpacity>(a, 2, true) {
                seq_opt_rejection::<FillPaintLayerFillOpacity>(a, 2, "struct FillPaintLayer with 7 elements"@)
            } else if !seq_opt_accepts::<FillPaintLayerFillOutlineColor>(a, 3, true) {
                seq_opt_rejection::<FillPaintLayerFillOutlineColor>(a, 3, "struct FillPaintLayer with 7 elements"@)
            } else if !seq_opt_accepts::<FillPaintLayerFillPattern>(a, 4, true) {
                seq_opt_rejection::<FillPaintLayerFillPattern>(a, 4, "struct FillPaintLayer with 7 elements"@)
            } else if !seq_opt_accepts::<FillPaintLayerFillTranslate>(a, 5, true) {
                seq_opt_rejection::<FillPaintLayerFillTranslate>(a, 5, "struct FillPaintLayer with 7 elements"@)
            } else if !seq_opt_accepts::<FillPaintLayerFillTranslateAnchor>(a, 6, true) {
                seq_opt_rejection::<FillPaintLayerFillTranslateAnchor>(a, 6, "struct FillPaintLayer with 7 elements"@)
            } else if a.len() > 7 {
                length_error(a.len())
            } else {
                Seq::empty()
            }
        } else {
            type_error(v, "struct FillPaintLayer"@)
        }
    }

    fn decode(v: &JsonValue) -> (r: Result<Self, String>) {
        match v {
            JsonValue::Object(fields) => {
                let fill_antialias = match decode_opt_field::<FillPaintLayerFillAntialias>(fields, "fill-antialias") {
                    Ok(x) => x,
                    Err(_) => return Err(Self::object_rejection(fields)),
                };
                let fill_color = match decode_opt_field::<FillPaintLayerFillColor>(fields, "fill-color") {
                    Ok(x) => x,
                    Err(_) => return Err(Self::object_rejection(fields)),
                };
                let fill_opacity = match decode_opt_field::<FillPaintLayerFillOpacity>(fields, "fill-opacity") {
                    Ok(x) => x,
                    Err(_) => return Err(Self::object_rejection(fields)),
                };
                let fill_outline_color = match decode_opt_field::<FillPaintLayerFillOutlineColor>(fields, "fill-outline-color") {
                    Ok(x) => x,
                    Err(_) => return Err(Self::object_rejection(fields)),
                };
                let fill_pattern = match decode_opt_field::<FillPaintLayerFillPattern>(fields, "fill-pattern") {
                    Ok(x) => x,
                    Err(_) => return Err(Self::object_rejection(fields)),
                };
                let fill_translate = match decode_opt_field::<FillPaintLayerFillTranslate>(fields, "fill-translate") {
                    Ok(x) => x,
                    Err(_) => return Err(Self::object_rejection(fields)),
                };
                let fill_translate_anchor = match decode_opt_field::<FillPaintLayerFillTranslateAnchor>(fields, "fill-translate-anchor") {
                    Ok(x) => x,
                    Err(_) => return Err(Self::object_rejection(fields)),
                };
                Ok(FillPaintLayer { fill_antialias, fill_color, fill_opacity, fill_outline_color, fill_pattern, fill_translate, fill_translate_anchor })
            },
            JsonValue::Array(a) => {
                let fill_antialias = match decode_seq_opt::<FillPaintLayerFillAntialias>(a, 0, true, "struct FillPaintLayer with 7 elements") {
                    Ok(x) => x,
                    Err(e) => return Err(e),
                };
                let fill_color = match decode_seq_opt::<FillPaintLayerFillColor>(a, 1, true, "struct FillPaintLayer with 7 elements") {
                    Ok(x) => x,
                    Err(e) => return Err(e),
                };
                let fill_opacity = match decode_seq_opt::<FillPaintLayerFillOpacity>(a, 2, true, "struct FillPaintLayer with 7 elements") {
                    Ok(x) => x,
                    Err(e) => return Err(e),
                };
                let fill_outline_color = match decode_seq_opt::<FillPaintLayerFillOutlineColor>(a, 3, true, "struct FillPaintLayer with 7 elements") {
                    Ok(x) => x,
                    Err(e) => return Err(e),
                };
                let fill_pattern = match decode_seq_opt::<FillPaintLayerFillPattern>(a, 4, true, "struct FillPaintLayer with 7 elements") {
                    Ok(x) => x,
                    Err(e) => return Err(e),
                };
                let fill_translate = match decode_seq_opt::<FillPaintLayerFillTranslate>(a, 5, true, "struct FillPaintLayer with 7 elements") {
                    Ok(x) => x,
                    Err(e) => return Err(e),
                };
                let fill_translate_anchor = match decode_seq_opt::<FillPaintLayerFillTranslateAnchor>(a, 6, true, "struct FillPaintLayer with 7 elements") {
                    Ok(x) => x,
                    Err(e) => return Err(e),
                };
                if a.len() > 7 {
                    return Err(make_length_error(a.len()));
                }
                Ok(FillPaintLayer { fill_antialias, fill_color, fill_opacity, fill_outline_color, fill_pattern, fill_translate, fill_translate_anchor })
            },
            _ => Err(make_type_error(v, "struct FillPaintLayer")),
        }
    }
}

impl FillPaintLayer {
    /// What is wrong with the value `w` of an entry with key `k`, where `k` is the key of a field.
    pub open spec fn field_fault(k: Seq<char>, w: Json) -> Option<Seq<char>> {
        if k == "fill-antialias"@ {
            if w is Null || FillPaintLayerFillAntialias::accepts(w) {
                None
            } else {
                Some(FillPaintLayerFillAntialias::rejection(w))
            }
        } else if k == "fill-color"@ {
            if w is Null || FillPaintLayerFillColor::accepts(w) {
                None
            } else {
                Some(FillPaintLayerFillColor::rejection(w))
            }
        } else if k == "fill-opacity"@ {
            if w is Null || FillPaintLayerFillOpacity::accepts(w) {
                None
            } else {
                Some(FillPaintLayerFillOpacity::rejection(w))
            }
        } else if k == "fill-outline-color"@ {
            if w is Null || FillPaintLayerFillOutlineColor::accepts(w) {
                None
            } else {
                Some(FillPaintLayerFillOutlineColor::rejection(w))
            }
        } else if k == "fill-pattern"@ {
            if w is Null || FillPaintLayerFillPattern::accepts(w) {
                None
            } else {
                Some(FillPaintLayerFillPattern::rejection(w))
            }
        } else if k == "fill-translate"@ {
            if w is Null || FillPaintLayerFillTranslate::accepts(w) {
                None
            } else {
                Some(FillPaintLayerFillTranslate::rejection(w))
            }
        } else if k == "fill-translate-anchor"@ {
            if w is Null || FillPaintLayerFillTranslateAnchor::accepts(w) {
                None
            } else {
                Some(FillPaintLayerFillTranslateAnchor::rejection(w))
            }
        } else {
            None
        }
    }

    /// The message of the first entry of `o`, from entry `i` on and among the first entries of
    /// their keys, whose value does not read as its field, if any.
    pub open spec fn first_fault(o: Seq<(Seq<char>, Json)>, i: int) -> Option<Seq<char>>
        decreases o.len() - i,
    {
        if i < 0 || i >= o.len() {
            None
        } else if first_with_key(o, i) && Self::field_fault(o[i].0, o[i].1) is Some {
            Self::field_fault(o[i].0, o[i].1)
        } else {
            Self::first_fault(o, i + 1)
        }
    }

    fn find_field_fault(k: &str, w: &JsonValue) -> (r: Option<String>)
        ensures
            match r {
                Some(m) => Self::field_fault(k@, w.model()) == Some(m@),
                None => Self::field_fault(k@, w.model()) is None,
            },
    {
        if str_eq(k, "fill-antialias") {
            match w {
                JsonValue::Null => None,
                _ => match FillPaintLayerFillAntialias::decode(w) {
                    Ok(_) => None,
                    Err(e) => Some(e),
                },
            }
        } else if str_eq(k, "fill-color") {
            match w {
                JsonValue::Null => None,
                _ => match FillPaintLayerFillColor::decode(w) {
                    Ok(_) => None,
                    Err(e) => Some(e),
                },
            }
        } else if str_eq(k, "fill-opacity") {
            match w {
                JsonValue::Null => None,
                _ => match FillPaintLayerFillOpacity::decode(w) {
                    Ok(_) => None,
                    Err(e) => Some(e),
                },
            }
        } else if str_eq(k, "fill-outline-color") {
            match w {
                JsonValue::Null => None,
                _ => match FillPaintLayerFillOutlineColor::decode(w) {
                    Ok(_) => None,
                    Err(e) => Some(e),
                },
            }
        } else if str_eq(k, "fill-pattern") {
            match w {
                JsonValue::Null => None,
                _ => match FillPaintLayerFillPattern::decode(w) {
                    Ok(_) => None,
                    Err(e) => Some(e),
                },
            }
        } else if str_eq(k, "fill-translate") {
            match w {
                JsonValue::Null => None,
                _ => match FillPaintLayerFillTranslate::decode(w) {
                    Ok(_) => None,
                    Err(e) => Some(e),
                },
            }
        } else if str_eq(k, "fill-translate-anchor") {
            match w {
                JsonValue::Null => None,
                _ => match FillPaintLayerFillTranslateAnchor::decode(w) {
                    Ok(_) => None,
                    Err(e) => Some(e),
                },
            }
        } else {
            None
        }
    }

    fn object_rejection(fields: &Vec<(String, JsonValue)>) -> (r: String)
        ensures
            r@ == Self::rejection(JsonValue::Object(*fields).model()),
    {
        let ghost o = entries_model(*fields);
        let mut i: usize = 0;
        while i < fields.len()
            invariant
                o == entries_model(*fields),
                o.len() == fields.len(),
                i <= fields.len(),
                Self::first_fault(o, 0) == Self::first_fault(o, i as int),
            decreases fields.len() - i,
        {
            proof {
                assert(o[i as int] == (fields@[i as int].0@, fields@[i as int].1.model()));
            }
            if !key_seen_before(fields, i) {
                match Self::find_field_fault(fields[i].0.as_str(), &fields[i].1) {
                    Some(m) => {
                        return m;
                    },
                    None => {},
                }
            }
            i += 1;
        }
        String::new()
    }
}

impl FillPaintLayer {
    /// The keys of the fields, in order.
    pub open spec fn field_keys() -> Seq<Seq<char>> {
        seq!["fill-antialias"@, "fill-color"@, "fill-opacity"@, "fill-outline-color"@, "fill-pattern"@, "fill-translate"@, "fill-translate-anchor"@]
    }

    /// The entries that each field is written as, in order.
    pub open spec fn field_entries(self) -> Seq<Seq<(Seq<char>, Json)>> {
        seq![opt_entry::<FillPaintLayerFillAntialias>("fill-antialias"@, self.fill_antialias), opt_entry::<FillPaintLayerFillColor>("fill-color"@, self.fill_color), opt_entry::<FillPaintLayerFillOpacity>("fill-opacity"@, self.fill_opacity), opt_entry::<FillPaintLayerFillOutlineColor>("fill-outline-color"@, self.fill_outline_color), opt_entry::<FillPaintLayerFillPattern>("fill-pattern"@, self.fill_pattern), opt_entry::<FillPaintLayerFillTranslate>("fill-translate"@, self.fill_translate), opt_entry::<FillPaintLayerFillTranslateAnchor>("fill-translate-anchor"@, self.fill_translate_anchor)]
    }

    proof fn lemma_keys_differ(i: int)
        requires
            0 <= i < 7,
        ensures
            others_differ(Self::field_keys(), i),
    {
        reveal_strlit("fill-antialias");
        assert("fill-antialias"@.len() == 14);
        reveal_strlit("fill-color");
        assert("fill-color"@.len() == 10);
        reveal_strlit("fill-opacity");
        assert("fill-opacity"@.len() == 12);
        reveal_strlit("fill-outline-color");
        assert("fill-outline-color"@.len() == 18);
        reveal_strlit("fill-pattern");
        assert("fill-pattern"@.len() == 12);
        reveal_strlit("fill-translate");
        assert("fill-translate"@.len() == 14);
        reveal_strlit("fill-translate-anchor");
        assert("fill-translate-anchor"@.len() == 21);
        assert("fill-antialias"@[5] != "fill-translate"@[5]);
        assert("fill-opacity"@[5] != "fill-pattern"@[5]);
    }
}

impl JsonEncode for FillPaintLayer {
    open spec fn to_json(self) -> Json {
        Json::Object(self.field_entries().flatten())
    }

    open spec fn round_trips(self) -> bool {
        &&& (self.fill_antialias matches Some(t) ==> t.round_trips() && !(t.to_json() is Null))
        &&& (self.fill_color matches Some(t) ==> t.round_trips() && !(t.to_json() is Null))
        &&& (self.fill_opacity matches Some(t) ==> t.round_trips() && !(t.to_json() is Null))
        &&& (self.fill_outline_color matches Some(t) ==> t.round_trips() && !(t.to_json() is Null))
        &&& (self.fill_pattern matches Some(t) ==> t.round_trips() && !(t.to_json() is Null))
        &&& (self.fill_translate matches Some(t) ==> t.round_trips() && !(t.to_json() is Null))
        &&& (self.fill_translate_anchor matches Some(t) ==> t.round_trips() && !(t.to_json() is Null))
    }

    #[verifier::rlimit(30)]
    fn encode(&self) -> (r: JsonValue) {
        let mut out: Vec<(String, JsonValue)> = Vec::new();
        let ghost s0 = Seq::<Seq<(Seq<char>, Json)>>::empty();
        proof {
            assert(entries_model(out) =~= s0.flatten());
        }
        push_opt_entry::<FillPaintLayerFillAntialias>(&mut out, "fill-antialias", &self.fill_antialias);
        let ghost s1 = s0.push(opt_entry::<FillPaintLayerFillAntialias>("fill-antialias"@, self.fill_antialias));
        proof {
            s0.lemma_flatten_push(opt_entry::<FillPaintLayerFillAntialias>("fill-antialias"@, self.fill_antialias));
            assert(entries_model(out) =~= s1.flatten());
        }
        push_opt_entry::<FillPaintLayerFillColor>(&mut out, "fill-color", &self.fill_color);
        let ghost s2 = s1.push(opt_entry::<FillPaintLayerFillColor>("fill-color"@, self.fill_color));
        proof {
            s1.lemma_flatten_push(opt_entry::<FillPaintLayerFillColor>("fill-color"@, self.fill_color));
            assert(entries_model(out) =~= s2.flatten());
        }
        push_opt_entry::<FillPaintLayerFillOpacity>(&mut out, "fill-opacity", &self.fill_opacity);
        let ghost s3 = s2.push(opt_entry::<FillPaintLayerFillOpacity>("fill-opacity"@, self.fill_opacity));
        proof {
            s2.lemma_flatten_push(opt_entry::<FillPaintLayerFillOpacity>("fill-opacity"@, self.fill_opacity));
            assert(entries_model(out) =~= s3.flatten());
        }
        push_opt_entry::<FillPaintLayerFillOutlineColor>(&mut out, "fill-outline-color", &self.fill_outline_color);
        let ghost s4 = s3.push(opt_entry::<FillPaintLayerFillOutlineColor>("fill-outline-color"@, self.fill_outline_color));
        proof {
            s3.lemma_flatten_push(opt_entry::<FillPaintLayerFillOutlineColor>("fill-outline-color"@, self.fill_outline_color));
            assert(entries_model(out) =~= s4.flatten());
        }
        push_opt_entry::<FillPaintLayerFillPattern>(&mut out, "fill-pattern", &self.fill_pattern);
        let ghost s5 = s4.push(opt_entry::<FillPaintLayerFillPattern>("fill-pattern"@, self.fill_pattern));
        proof {
            s4.lemma_flatten_push(opt_entry::<FillPaintLayerFillPattern>("fill-pattern"@, self.fill_pattern));
            assert(entries_model(out) =~= s5.flatten());
        }
        push_opt_entry::<FillPaintLayerFillTranslate>(&mut out, "fill-translate", &self.fill_translate);
        let ghost s6 = s5.push(opt_entry::<FillPaintLayerFillTranslate>("fill-translate"@, self.fill_translate));
        proof {
            s5.lemma_flatten_push(opt_entry::<FillPaintLayerFillTranslate>("fill-translate"@, self.fill_translate));
            assert(entries_model(out) =~= s6.flatten());
        }
        push_opt_entry::<FillPaintLayerFillTranslateAnchor>(&mut out, "fill-translate-anchor", &self.fill_translate_anchor);
        let ghost s7 = s6.push(opt_entry::<FillPaintLayerFillTranslateAnchor>("fill-translate-anchor"@, self.fill_translate_anchor));
        proof {
            s6.lemma_flatten_push(opt_entry::<FillPaintLayerFillTranslateAnchor>("fill-translate-anchor"@, self.fill_translate_anchor));
            assert(entries_model(out) =~= s7.flatten());
        }
        proof {
            assert(self.field_entries() == s7);
        }
        JsonValue::Object(out)
    }

    #[verifier::rlimit(30)]
    proof fn lemma_round_trip(self) {
        let keys = Self::field_keys();
        let es = self.field_entries();
        assert(keyed_by(es, keys));
        Self::lemma_keys_differ(0);
        lemma_lookup_flatten(es, keys, 0);
        lemma_lookup_opt_entry::<FillPaintLayerFillAntialias>("fill-antialias"@, self.fill_antialias, "fill-antialias"@);
        if self.fill_antialias is Some {
            self.fill_antialias->0.lemma_round_trip();
        }
        Self::lemma_keys_differ(1);
        lemma_lookup_flatten(es, keys, 1);
        lemma_lookup_opt_entry::<FillPaintLayerFillColor>("fill-color"@, self.fill_color, "fill-color"@);
        if self.fill_color is Some {
            self.fill_color->0.lemma_round_trip();
        }
        Self::lemma_keys_differ(2);
        lemma_lookup_flatten(es, keys, 2);
        lemma_lookup_opt_entry::<FillPaintLayerFillOpacity>("fill-opacity"@, self.fill_opacity, "fill-opacity"@);
        if self.fill_opacity is Some {
            self.fill_opacity->0.lemma_round_trip();
        }
        Self::lemma_keys_differ(3);
        lemma_lookup_flatten(es, keys, 3);
        lemma_lookup_opt_entry::<FillPaintLayerFillOutlineColor>("fill-outline-color"@, self.fill_outline_color, "fill-outline-color"@);
        if self.fill_outline_color is Some {
            self.fill_outline_color->0.lemma_round_trip();
        }
        Self::lemma_keys_differ(4);
        lemma_lookup_flatten(es, keys, 4);
        lemma_lookup_opt_entry::<FillPaintLayerFillPattern>("fill-pattern"@, self.fill_pattern, "fill-pattern"@);
        if self.fill_pattern is Some {
            self.fill_pattern->0.lemma_round_trip();
        }
        Self::lemma_keys_differ(5);
        lemma_lookup_flatten(es, keys, 5);
        lemma_lookup_opt_entry::<FillPaintLayerFillTranslate>("fill-translate"@, self.fill_translate, "fill-translate"@);
        if self.fill_translate is Some {
            self.fill_translate->0.lemma_round_trip();
        }
        Self::lemma_keys_differ(6);
        lemma_lookup_flatten(es, keys, 6);
        lemma_lookup_opt_entry::<FillPaintLayerFillTranslateAnchor>("fill-translate-anchor"@, self.fill_translate_anchor, "fill-translate-anchor"@);
        if self.fill_translate_anchor is Some {
            self.fill_translate_anchor->0.lemma_round_trip();
        }
    }
}

/// Whether or not the fill should be antialiased.
#[derive(PartialEq, Debug, Clone, Copy)]
pub struct FillPaintLayerFillAntialias(bool);

impl View for FillPaintLayerFillAntialias {
    type V = bool;

    closed spec fn view(&self) -> bool {
        self.0
    }
}

impl JsonDecode for FillPaintLayerFillAntialias {
    open spec fn accepts(v: Json) -> bool {
        v is Bool
    }

    open spec fn decodes(v: Json, x: Self) -> bool {
        v == Json::Bool(x@)
    }

    open spec fn rejection(v: Json) -> Seq<char> {
        bool::rejection(v)
    }

    fn decode(v: &JsonValue) -> (r: Result<Self, String>) {
        match bool::decode(v) {
            Ok(x) => Ok(FillPaintLayerFillAntialias(x)),
            Err(e) => Err(e),
        }
    }
}

impl JsonEncode for FillPaintLayerFillAntialias {
    open spec fn to_json(self) -> Json {
        Json::Bool(self@)
    }

    open spec fn round_trips(self) -> bool {
        true
    }

    fn encode(&self) -> (r: JsonValue) {
        bool::encode(&self.0)
    }

    proof fn lemma_round_trip(self) {
        bool::lemma_round_trip(self.0);
    }
}

impl Default for FillPaintLayerFillAntialias {
    fn default() -> (r: Self)
        ensures
            r.to_json() == Json::Bool(true),
    {
        let r = FillPaintLayerFillAntialias(true);
        r
    }
}

/// Nested expression: ramp (`interpolate-hcl`, …) or [`Color`] operators.
#[derive(PartialEq, Debug, Clone)]
pub enum FillPaintLayerFillColorExpression {
    Color(Color),
    Ramp(ColorOrArrayOfColor),
}

impl JsonDecode for FillPaintLayerFillColorExpression {
    open spec fn accepts(v: Json) -> bool {
        Color::accepts(v) || ColorOrArrayOfColor::accepts(v)
    }

    open spec fn decodes(v: Json, x: Self) -> bool {
        match x {
            FillPaintLayerFillColorExpression::Color(t) => Color::accepts(v) && Color::decodes(v, t),
            FillPaintLayerFillColorExpression::Ramp(t) => !Color::accepts(v) && ColorOrArrayOfColor::accepts(v) && ColorOrArrayOfColor::decodes(v, t),
        }
    }

    open spec fn rejection(v: Json) -> Seq<char> {
        "FillPaintLayerFillColorExpression: no variant matched. Expected Color(Color) | Ramp(ColorOrArrayOfColor). Errors: ["@ + "Color: "@ + Color::rejection(v) + "; Ramp: "@ + ColorOrArrayOfColor::rejection(v) + "]"@
    }

    fn decode(v: &JsonValue) -> (r: Result<Self, String>) {
        let e0 = match Color::decode(v) {
            Ok(x) => {
                return Ok(FillPaintLayerFillColorExpression::Color(x));
            },
            Err(e) => e,
        };
        let e1 = match ColorOrArrayOfColor::decode(v) {
            Ok(x) => {
                return Ok(FillPaintLayerFillColorExpression::Ramp(x));
            },
            Err(e) => e,
        };
        let mut m = "FillPaintLayerFillColorExpression: no variant matched. Expected Color(Color) | Ramp(ColorOrArrayOfColor). Errors: [".to_string();
        m.append("Color: ");
        m.append(e0.as_str());
        m.append("; Ramp: ");
        m.append(e1.as_str());
        m.append("]");
        Err(m)
    }
}

impl JsonEncode for FillPaintLayerFillColorExpression {
    open spec fn to_json(self) -> Json {
        match self {
            FillPaintLayerFillColorExpression::Color(t) => Color::to_json(t),
            FillPaintLayerFillColorExpression::Ramp(t) => ColorOrArrayOfColor::to_json(t),
        }
    }

    open spec fn round_trips(self) -> bool {
        match self {
            FillPaintLayerFillColorExpression::Color(t) => Color::round_trips(t),
            FillPaintLayerFillColorExpression::Ramp(t) => ColorOrArrayOfColor::round_trips(t) && !Color::accepts(ColorOrArrayOfColor::to_json(t)),
        }
    }

    fn encode(&self) -> (r: JsonValue) {
        match self {
            FillPaintLayerFillColorExpression::Color(t) => Color::encode(t),
            FillPaintLayerFillColorExpression::Ramp(t) => ColorOrArrayOfColor::encode(t),
        }
    }

    proof fn lemma_round_trip(self) {
        match self {
            FillPaintLayerFillColorExpression::Color(t) => Color::lemma_round_trip(t),
            FillPaintLayerFillColorExpression::Ramp(t) => ColorOrArrayOfColor::lemma_round_trip(t),
        }
    }
}

/// The color of the filled part of this layer. This color can be specified as `rgba` with an alpha component and the color's opacity will not affect the opacity of the 1px stroke, if it is used.
#[derive(PartialEq, Debug, Clone)]
pub enum FillPaintLayerFillColor {
    Expr(Box<FillPaintLayerFillColorExpression>),
    Literal(JsonValue),
}

impl JsonDecode for FillPaintLayerFillColor {
    open spec fn accepts(v: Json) -> bool {
        FillPaintLayerFillColorExpression::accepts(v) || JsonValue::accepts(v)
    }

    open spec fn decodes(v: Json, x: Self) -> bool {
        match x {
            FillPaintLayerFillColor::Expr(t) => FillPaintLayerFillColorExpression::accepts(v) && FillPaintLayerFillColorExpression::decodes(v, *t),
            FillPaintLayerFillColor::Literal(t) => !FillPaintLayerFillColorExpression::accepts(v) && JsonValue::accepts(v) && JsonValue::decodes(v, t),
        }
    }

    open spec fn rejection(v: Json) -> Seq<char> {
        "FillPaintLayerFillColor: no variant matched. Expected Expr(FillPaintLayerFillColorExpression) | Literal(serde_json::Value). Errors: ["@ + "Expr: "@ + FillPaintLayerFillColorExpression::rejection(v) + "; Literal: "@ + JsonValue::rejection(v) + "]"@
    }

    fn decode(v: &JsonValue) -> (r: Result<Self, String>) {
        let e0 = match FillPaintLayerFillColorExpression::decode(v) {
            Ok(x) => {
                return Ok(FillPaintLayerFillColor::Expr(Box::new(x)));
            },
            Err(e) => e,
        };
        let e1 = match JsonValue::decode(v) {
            Ok(x) => {
                return Ok(FillPaintLayerFillColor::Literal(x));
            },
            Err(e) => e,
        };
        let mut m = "FillPaintLayerFillColor: no variant matched. Expected Expr(FillPaintLayerFillColorExpression) | Literal(serde_json::Value). Errors: [".to_string();
        m.append("Expr: ");
        m.append(e0.as_str());
        m.append("; Literal: ");
        m.append(e1.as_str());
        m.append("]");
        Err(m)
    }
}

impl JsonEncode for FillPaintLayerFillColor {
    open spec fn to_json(self) -> Json {
        match self {
            FillPaintLayerFillColor::Expr(t) => FillPaintLayerFillColorExpression::to_json(*t),
            FillPaintLayerFillColor::Literal(t) => JsonValue::to_json(t),
        }
    }

    open spec fn round_trips(self) -> bool {
        match self {
            FillPaintLayerFillColor::Expr(t) => FillPaintLayerFillColorExpression::round_trips(*t),
            FillPaintLayerFillColor::Literal(t) => JsonValue::round_trips(t) && !FillPaintLayerFillColorExpression::accepts(JsonValue::to_json(t)),
        }
    }

    fn encode(&self) -> (r: JsonValue) {
        match self {
            FillPaintLayerFillColor::Expr(t) => FillPaintLayerFillColorExpression::encode(&**t),
            FillPaintLayerFillColor::Literal(t) => JsonValue::encode(t),
        }
    }

    proof fn lemma_round_trip(self) {
        match self {
            FillPaintLayerFillColor::Expr(t) => FillPaintLayerFillColorExpression::lemma_round_trip(*t),
            FillPaintLayerFillColor::Literal(t) => JsonValue::lemma_round_trip(t),
        }
    }
}

impl Default for FillPaintLayerFillColor {
    fn default() -> (r: Self)
        ensures
            r.to_json() == Json::Str("#000000"@),
            r is Literal,
    {
        let r = FillPaintLayerFillColor::Literal(JsonValue::String("#000000".to_string()));
        r
    }
}

/// Nested expression: ramp (`interpolate` / …) or regular [`Number`] operators.
#[derive(PartialEq, Debug, Clone)]
pub enum FillPaintLayerFillOpacityExpression {
    Number(Number),
    Ramp(NumberOrArrayOfNumberOrColorOrArrayOfColorOrProjection),
}

impl JsonDecode for FillPaintLayerFillOpacityExpression {
    open spec fn accepts(v: Json) -> bool {
        Number::accepts(v) || NumberOrArrayOfNumberOrColorOrArrayOfColorOrProjection::accepts(v)
    }

    open spec fn decodes(v: Json, x: Self) -> bool {
        match x {
            FillPaintLayerFillOpacityExpression::Number(t) => Number::accepts(v) && Number::decodes(v, t),
            FillPaintLayerFillOpacityExpression::Ramp(t) => !Number::accepts(v) && NumberOrArrayOfNumberOrColorOrArrayOfColorOrProjection::accepts(v) && NumberOrArrayOfNumberOrColorOrArrayOfColorOrProjection::decodes(v, t),
        }
    }

    open spec fn rejection(v: Json) -> Seq<char> {
        "FillPaintLayerFillOpacityExpression: no variant matched. Expected Number(Number) | Ramp(NumberOrArrayOfNumberOrColorOrArrayOfColorOrProjection). Errors: ["@ + "Number: "@ + Number::rejection(v) + "; Ramp: "@ + NumberOrArrayOfNumberOrColorOrArrayOfColorOrProjection::rejection(v) + "]"@
    }

    fn decode(v: &JsonValue) -> (r: Result<Self, String>) {
        let e0 = match Number::decode(v) {
            Ok(x) => {
                return Ok(FillPaintLayerFillOpacityExpression::Number(x));
            },
            Err(e) => e,
        };
        let e1 = match NumberOrArrayOfNumberOrColorOrArrayOfColorOrProjection::decode(v) {
            Ok(x) => {
                return Ok(FillPaintLayerFillOpacityExpression::Ramp(x));
            },
            Err(e) => e,
        };
        let mut m = "FillPaintLayerFillOpacityExpression: no variant matched. Expected Number(Number) | Ramp(NumberOrArrayOfNumberOrColorOrArrayOfColorOrProjection). Errors: [".to_string();
        m.append("Number: ");
        m.append(e0.as_str());
        m.append("; Ramp: ");
        m.append(e1.as_str());
        m.append("]");
        Err(m)
    }
}

impl JsonEncode for FillPaintLayerFillOpacityExpression {
    open spec fn to_json(self) -> Json {
        match self {
            FillPaintLayerFillOpacityExpression::Number(t) => Number::to_json(t),
            FillPaintLayerFillOpacityExpression::Ramp(t) => NumberOrArrayOfNumberOrColorOrArrayOfColorOrProjection::to_json(t),
        }
    }

    open spec fn round_trips(self) -> bool {
        match self {
            FillPaintLayerFillOpacityExpression::Number(t) => Number::round_trips(t),
            FillPaintLayerFillOpacityExpression::Ramp(t) => NumberOrArrayOfNumberOrColorOrArrayOfColorOrProjection::round_trips(t) && !Number::accepts(NumberOrArrayOfNumberOrColorOrArrayOfColorOrProjection::to_json(t)),
        }
    }

    fn encode(&self) -> (r: JsonValue) {
        match self {
            FillPaintLayerFillOpacityExpression::Number(t) => Number::encode(t),
            FillPaintLayerFillOpacityExpression::Ramp(t) => NumberOrArrayOfNumberOrColorOrArrayOfColorOrProjection::encode(t),
        }
    }

    proof fn lemma_round_trip(self) {
        match self {
            FillPaintLayerFillOpacityExpression::Number(t) => Number::lemma_round_trip(t),
            FillPaintLayerFillOpacityExpression::Ramp(t) => NumberOrArrayOfNumberOrColorOrArrayOfColorOrProjection::lemma_round_trip(t),
        }
    }
}

/// The opacity of the entire fill layer. In contrast to the `fill-color`, this value will also affect the 1px stroke around the fill, if the stroke is used.
#[derive(PartialEq, Debug, Clone)]
pub enum FillPaintLayerFillOpacity {
    Expr(Box<FillPaintLayerFillOpacityExpression>),
    Literal(JsonNumber),
}

impl JsonDecode for FillPaintLayerFillOpacity {
    open spec fn accepts(v: Json) -> bool {
        FillPaintLayerFillOpacityExpression::accepts(v) || JsonNumber::accepts(v)
    }

    open spec fn decodes(v: Json, x: Self) -> bool {
        match x {
            FillPaintLayerFillOpacity::Expr(t) => FillPaintLayerFillOpacityExpression::accepts(v) && FillPaintLayerFillOpacityExpression::decodes(v, *t),
            FillPaintLayerFillOpacity::Literal(t) => !FillPaintLayerFillOpacityExpression::accepts(v) && JsonNumber::accepts(v) && JsonNumber::decodes(v, t),
        }
    }

    open spec fn rejection(v: Json) -> Seq<char> {
        "FillPaintLayerFillOpacity: no variant matched. Expected Expr(FillPaintLayerFillOpacityExpression) | Literal(serde_json::Number). Errors: ["@ + "Expr: "@ + FillPaintLayerFillOpacityExpression::rejection(v) + "; Literal: "@ + JsonNumber::rejection(v) + "]"@
    }

    fn decode(v: &JsonValue) -> (r: Result<Self, String>) {
        let e0 = match FillPaintLayerFillOpacityExpression::decode(v) {
            Ok(x) => {
                return Ok(FillPaintLayerFillOpacity::Expr(Box::new(x)));
            },
            Err(e) => e,
        };
        let e1 = match JsonNumber::decode(v) {
            Ok(x) => {
                return Ok(FillPaintLayerFillOpacity::Literal(x));
            },
            Err(e) => e,
        };
        let mut m = "FillPaintLayerFillOpacity: no variant matched. Expected Expr(FillPaintLayerFillOpacityExpression) | Literal(serde_json::Number). Errors: [".to_string();
        m.append("Expr: ");
        m.append(e0.as_str());
        m.append("; Literal: ");
        m.append(e1.as_str());
        m.append("]");
        Err(m)
    }
}

impl JsonEncode for FillPaintLayerFillOpacity {
    open spec fn to_json(self) -> Json {
        match self {
            FillPaintLayerFillOpacity::Expr(t) => FillPaintLayerFillOpacityExpression::to_json(*t),
            FillPaintLayerFillOpacity::Literal(t) => JsonNumber::to_json(t),
        }
    }

    open spec fn round_trips(self) -> bool {
        match self {
            FillPaintLayerFillOpacity::Expr(t) => FillPaintLayerFillOpacityExpression::round_trips(*t),
            FillPaintLayerFillOpacity::Literal(t) => JsonNumber::round_trips(t) && !FillPaintLayerFillOpacityExpression::accepts(JsonNumber::to_json(t)),
        }
    }

    fn encode(&self) -> (r: JsonValue) {
        match self {
            FillPaintLayerFillOpacity::Expr(t) => FillPaintLayerFillOpacityExpression::encode(&**t),
            FillPaintLayerFillOpacity::Literal(t) => JsonNumber::encode(t),
        }
    }

    proof fn lemma_round_trip(self) {
        match self {
            FillPaintLayerFillOpacity::Expr(t) => FillPaintLayerFillOpacityExpression::lemma_round_trip(*t),
            FillPaintLayerFillOpacity::Literal(t) => JsonNumber::lemma_round_trip(t),
        }
    }
}

impl Default for FillPaintLayerFillOpacity {
    fn default() -> (r: Self)
        ensures
            r.to_json() == Json::Number("1"@),
            r is Literal,
    {
        let r = FillPaintLayerFillOpacity::Literal(JsonNumber::from_literal("1"));
        r
    }
}

/// Nested expression: ramp (`interpolate-hcl`, …) or [`Color`] operators.
#[derive(PartialEq, Debug, Clone)]
pub enum FillPaintLayerFillOutlineColorExpression {
    Color(Color),
    Ramp(ColorOrArrayOfColor),
}

impl JsonDecode for FillPaintLayerFillOutlineColorExpression {
    open spec fn accepts(v: Json) -> bool {
        Color::accepts(v) || ColorOrArrayOfColor::accepts(v)
    }

    open spec fn decodes(v: Json, x: Self) -> bool {
        match x {
            FillPaintLayerFillOutlineColorExpression::Color(t) => Color::accepts(v) && Color::decodes(v, t),
            FillPaintLayerFillOutlineColorExpression::Ramp(t) => !Color::accepts(v) && ColorOrArrayOfColor::accepts(v) && ColorOrArrayOfColor::decodes(v, t),
        }
    }

    open spec fn rejection(v: Json) -> Seq<char> {
        "FillPaintLayerFillOutlineColorExpression: no variant matched. Expected Color(Color) | Ramp(ColorOrArrayOfColor). Errors: ["@ + "Color: "@ + Color::rejection(v) + "; Ramp: "@ + ColorOrArrayOfColor::rejection(v) + "]"@
    }

    fn decode(v: &JsonValue) -> (r: Result<Self, String>) {
        let e0 = match Color::decode(v) {
            Ok(x) => {
                return Ok(FillPaintLayerFillOutlineColorExpression::Color(x));
            },
            Err(e) => e,
        };
        let e1 = match ColorOrArrayOfColor::decode(v) {
            Ok(x) => {
                return Ok(FillPaintLayerFillOutlineColorExpression::Ramp(x));
            },
            Err(e) => e,
        };
        let mut m = "FillPaintLayerFillOutlineColorExpression: no variant matched. Expected Color(Color) | Ramp(ColorOrArrayOfColor). Errors: [".to_string();
        m.append("Color: ");
        m.append(e0.as_str());
        m.append("; Ramp: ");
        m.append(e1.as_str());
        m.append("]");
        Err(m)
    }
}

impl JsonEncode for FillPaintLayerFillOutlineColorExpression {
    open spec fn to_json(self) -> Json {
        match self {
            FillPaintLayerFillOutlineColorExpression::Color(t) => Color::to_json(t),
            FillPaintLayerFillOutlineColorExpression::Ramp(t) => ColorOrArrayOfColor::to_json(t),
        }
    }

    open spec fn round_trips(self) -> bool {
        match self {
            FillPaintLayerFillOutlineColorExpression::Color(t) => Color::round_trips(t),
            FillPaintLayerFillOutlineColorExpression::Ramp(t) => ColorOrArrayOfColor::round_trips(t) && !Color::accepts(ColorOrArrayOfColor::to_json(t)),
        }
    }

    fn encode(&self) -> (r: JsonValue) {
        match self {
            FillPaintLayerFillOutlineColorExpression::Color(t) => Color::encode(t),
            FillPaintLayerFillOutlineColorExpression::Ramp(t) => ColorOrArrayOfColor::encode(t),
        }
    }

    proof fn lemma_round_trip(self) {
        match self {
            FillPaintLayerFillOutlineColorExpression::Color(t) => Color::lemma_round_trip(t),
            FillPaintLayerFillOutlineColorExpression::Ramp(t) => ColorOrArrayOfColor::lemma_round_trip(t),
        }
    }
}

/// The outline color of the fill. Matches the value of `fill-color` if unspecified.
#[derive(PartialEq, Debug, Clone)]
pub enum FillPaintLayerFillOutlineColor {
    Expr(Box<FillPaintLayerFillOutlineColorExpression>),
    Literal(JsonValue),
}

impl JsonDecode for FillPaintLayerFillOutlineColor {
    open spec fn accepts(v: Json) -> bool {
        FillPaintLayerFillOutlineColorExpression::accepts(v) || JsonValue::accepts(v)
    }

    open spec fn decodes(v: Json, x: Self) -> bool {
        match x {
            FillPaintLayerFillOutlineColor::Expr(t) => FillPaintLayerFillOutlineColorExpression::accepts(v) && FillPaintLayerFillOutlineColorExpression::decodes(v, *t),
            FillPaintLayerFillOutlineColor::Literal(t) => !FillPaintLayerFillOutlineColorExpression::accepts(v) && JsonValue::accepts(v) && JsonValue::decodes(v, t),
        }
    }

    open spec fn rejection(v: Json) -> Seq<char> {
        "FillPaintLayerFillOutlineColor: no variant matched. Expected Expr(FillPaintLayerFillOutlineColorExpression) | Literal(serde_json::Value). Errors: ["@ + "Expr: "@ + FillPaintLayerFillOutlineColorExpression::rejection(v) + "; Literal: "@ + JsonValue::rejection(v) + "]"@
    }

    fn decode(v: &JsonValue) -> (r: Result<Self, String>) {
        let e0 = match FillPaintLayerFillOutlineColorExpression::decode(v) {
            Ok(x) => {
                return Ok(FillPaintLayerFillOutlineColor::Expr(Box::new(x)));
            },
            Err(e) => e,
        };
        let e1 = match JsonValue::decode(v) {
            Ok(x) => {
                return Ok(FillPaintLayerFillOutlineColor::Literal(x));
            },
            Err(e) => e,
        };
        let mut m = "FillPaintLayerFillOutlineColor: no variant matched. Expected Expr(FillPaintLayerFillOutlineColorExpression) | Literal(serde_json::Value). Errors: [".to_string();
        m.append("Expr: ");
        m.append(e0.as_str());
        m.append("; Literal: ");
        m.append(e1.as_str());
        m.append("]");
        Err(m)
    }
}

impl JsonEncode for FillPaintLayerFillOutlineColor {
    open spec fn to_json(self) -> Json {
        match self {
            FillPaintLayerFillOutlineColor::Expr(t) => FillPaintLayerFillOutlineColorExpression::to_json(*t),
            FillPaintLayerFillOutlineColor::Literal(t) => JsonValue::to_json(t),
        }
    }

    open spec fn round_trips(self) -> bool {
        match self {
            FillPaintLayerFillOutlineColor::Expr(t) => FillPaintLayerFillOutlineColorExpression::round_trips(*t),
            FillPaintLayerFillOutlineColor::Literal(t) => JsonValue::round_trips(t) && !FillPaintLayerFillOutlineColorExpression::accepts(JsonValue::to_json(t)),
        }
    }

    fn encode(&self) -> (r: JsonValue) {
        match self {
            FillPaintLayerFillOutlineColor::Expr(t) => FillPaintLayerFillOutlineColorExpression::encode(&**t),
            FillPaintLayerFillOutlineColor::Literal(t) => JsonValue::encode(t),
        }
    }

    proof fn lemma_round_trip(self) {
        match self {
            FillPaintLayerFillOutlineColor::Expr(t) => FillPaintLayerFillOutlineColorExpression::lemma_round_trip(*t),
            FillPaintLayerFillOutlineColor::Literal(t) => JsonValue::lemma_round_trip(t),
        }
    }
}

/// Name of image in sprite to use for drawing image fills. For seamless patterns, image width and height must be a factor of two (2, 4, 8, ..., 512). Note that zoom-dependent expressions will be evaluated only at integer zoom levels.
#[derive(PartialEq, Eq, Debug, Clone)]
pub struct FillPaintLayerFillPattern(String);

impl View for FillPaintLayerFillPattern {
    type V = Seq<char>;

    closed spec fn view(&self) -> Seq<char> {
        self.0@
    }
}

impl JsonDecode for FillPaintLayerFillPattern {
    open spec fn accepts(v: Json) -> bool {
        v is Str
    }

    open spec fn decodes(v: Json, x: Self) -> bool {
        v == Json::Str(x@)
    }

    open spec fn rejection(v: Json) -> Seq<char> {
        String::rejection(v)
    }

    fn decode(v: &JsonValue) -> (r: Result<Self, String>) {
        match String::decode(v) {
            Ok(x) => Ok(FillPaintLayerFillPattern(x)),
            Err(e) => Err(e),
        }
    }
}

impl JsonEncode for FillPaintLayerFillPattern {
    open spec fn to_json(self) -> Json {
        Json::Str(self@)
    }

    open spec fn round_trips(self) -> bool {
        true
    }

    fn encode(&self) -> (r: JsonValue) {
        String::encode(&self.0)
    }

    proof fn lemma_round_trip(self) {
        String::lemma_round_trip(self.0);
    }
}

/// The geometry's offset. Values are [x, y] where negatives indicate left and up, respectively.
#[derive(PartialEq, Debug, Clone)]
pub struct FillPaintLayerFillTranslate(Box<[JsonNumber; 2]>);

impl JsonDecode for FillPaintLayerFillTranslate {
    closed spec fn accepts(v: Json) -> bool {
        <[JsonNumber; 2] as JsonDecode>::accepts(v)
    }

    closed spec fn decodes(v: Json, x: Self) -> bool {
        <[JsonNumber; 2] as JsonDecode>::decodes(v, *x.0)
    }

    closed spec fn rejection(v: Json) -> Seq<char> {
        <[JsonNumber; 2] as JsonDecode>::rejection(v)
    }

    fn decode(v: &JsonValue) -> (r: Result<Self, String>) {
        match <[JsonNumber; 2] as JsonDecode>::decode(v) {
            Ok(x) => Ok(FillPaintLayerFillTranslate(Box::new(x))),
            Err(e) => Err(e),
        }
    }
}

impl JsonEncode for FillPaintLayerFillTranslate {
    closed spec fn to_json(self) -> Json {
        <[JsonNumber; 2] as JsonEncode>::to_json((*self.0))
    }

    closed spec fn round_trips(self) -> bool {
        <[JsonNumber; 2] as JsonEncode>::round_trips((*self.0))
    }

    fn encode(&self) -> (r: JsonValue) {
        <[JsonNumber; 2] as JsonEncode>::encode(&(*self.0))
    }

    proof fn lemma_round_trip(self) {
        <[JsonNumber; 2] as JsonEncode>::lemma_round_trip((*self.0));
    }
}

impl Default for FillPaintLayerFillTranslate {
    fn default() -> (r: Self)
        ensures
            r.to_json() == Json::Array(seq![Json::Number("0"@), Json::Number("0"@)]),
    {
        let r = FillPaintLayerFillTranslate(Box::new([JsonNumber::from_literal("0"), JsonNumber::from_literal("0")]));
        proof {
            assert(r.to_json() =~~= Json::Array(seq![Json::Number("0"@), Json::Number("0"@)]));
        }
        r
    }
}

/// Controls the frame of reference for `fill-translate`.
#[derive(PartialEq, Eq, Debug, Clone, Copy)]
pub enum FillPaintLayerFillTranslateAnchor {
    MapValue,
    Viewport,
}

impl FillPaintLayerFillTranslateAnchor {
    /// The name that stands for the value in a style document.
    pub open spec fn spec_name(self) -> Seq<char> {
        match self {
            FillPaintLayerFillTranslateAnchor::MapValue => "map"@,
            FillPaintLayerFillTranslateAnchor::Viewport => "viewport"@,
        }
    }

    /// The name that stands for the value in a style document.
    pub fn name(&self) -> (r: &'static str)
        ensures
            r@ == self.spec_name(),
    {
        match self {
            FillPaintLayerFillTranslateAnchor::MapValue => "map",
            FillPaintLayerFillTranslateAnchor::Viewport => "viewport",
        }
    }

    /// The value that a name stands for, if any.
    pub fn from_name(s: &str) -> (r: Option<FillPaintLayerFillTranslateAnchor>)
        ensures
            r matches Some(x) ==> x.spec_name() == s@,
            r is None ==> forall|x: FillPaintLayerFillTranslateAnchor| x.spec_name() != s@,
    {
        if str_eq(s, "map") {
            Some(FillPaintLayerFillTranslateAnchor::MapValue)
        } else if str_eq(s, "viewport") {
            Some(FillPaintLayerFillTranslateAnchor::Viewport)
        } else {
            None
        }
    }
}

impl FillPaintLayerFillTranslateAnchor {
    /// Each value is read from, and written as, the name that the style specification gives
    /// it, and a document holding one of these names reads as that value and no other.
    pub proof fn lemma_read_by_name()
        ensures
            forall|x: FillPaintLayerFillTranslateAnchor| <FillPaintLayerFillTranslateAnchor as JsonDecode>::decodes(Json::Str("map"@), x) <==> x == FillPaintLayerFillTranslateAnchor::MapValue,
            forall|x: FillPaintLayerFillTranslateAnchor| <FillPaintLayerFillTranslateAnchor as JsonDecode>::decodes(Json::Str("viewport"@), x) <==> x == FillPaintLayerFillTranslateAnchor::Viewport,
            <FillPaintLayerFillTranslateAnchor as JsonEncode>::to_json(FillPaintLayerFillTranslateAnchor::MapValue) == Json::Str("map"@),
            <FillPaintLayerFillTranslateAnchor as JsonEncode>::to_json(FillPaintLayerFillTranslateAnchor::Viewport) == Json::Str("viewport"@),
    {
        reveal_strlit("viewport");
        reveal_strlit("map");
        assert("map"@.len() != "viewport"@.len());
    }
}

impl JsonDecode for FillPaintLayerFillTranslateAnchor {
    /// The name of a value, or an object whose one entry has the name as its key and `null`.
    open spec fn accepts(v: Json) -> bool {
        ||| (v is Str && exists|x: FillPaintLayerFillTranslateAnchor| x.spec_name() == v->Str_0)
        ||| (v is Object && v->Object_0.len() == 1 && v->Object_0[0].1 is Null && exists|x: FillPaintLayerFillTranslateAnchor| x.spec_name() == v->Object_0[0].0)
    }

    open spec fn decodes(v: Json, x: Self) -> bool {
        ||| v == Json::Str(x.spec_name())
        ||| (v is Object && v->Object_0.len() == 1 && v->Object_0[0] == (x.spec_name(), Json::Null))
    }

    open spec fn rejection(v: Json) -> Seq<char> {
        if v is Str {
            unknown_variant(v->Str_0) + ", expected `map` or `viewport`"@
        } else if v is Object {
            let o = v->Object_0;
            if o.len() != 1 {
                "invalid value: map, expected map with a single key"@
            } else if !(exists|x: FillPaintLayerFillTranslateAnchor| x.spec_name() == o[0].0) {
                unknown_variant(o[0].0) + ", expected `map` or `viewport`"@
            } else {
                type_error(o[0].1, "unit"@)
            }
        } else {
            type_error(v, "string or map"@)
        }
    }

    fn decode(v: &JsonValue) -> (r: Result<Self, String>) {
        match v {
            JsonValue::String(s) => match Self::from_name(s.as_str()) {
                Some(x) => Ok(x),
                None => {
                    let mut m = make_unknown_variant(s.as_str());
                    m.append(", expected `map` or `viewport`");
                    Err(m)
                },
            },
            JsonValue::Object(fields) => {
                if fields.len() != 1 {
                    return Err("invalid value: map, expected map with a single key".to_string());
                }
                proof {
                    assert(entries_model(*fields)[0] == (fields@[0].0@, fields@[0].1.model()));
                }
                match Self::from_name(fields[0].0.as_str()) {
                    Some(x) => match &fields[0].1 {
                        JsonValue::Null => Ok(x),
                        _ => Err(make_type_error(&fields[0].1, "unit")),
                    },
                    None => {
                        let mut m = make_unknown_variant(fields[0].0.as_str());
                        m.append(", expected `map` or `viewport`");
                        Err(m)
                    },
                }
            },
            _ => Err(make_type_error(v, "string or map")),
        }
    }
}

impl JsonEncode for FillPaintLayerFillTranslateAnchor {
    open spec fn to_json(self) -> Json {
        Json::Str(self.spec_name())
    }

    open spec fn round_trips(self) -> bool {
        true
    }

    fn encode(&self) -> (r: JsonValue) {
        JsonValue::String(self.name().to_string())
    }

    proof fn lemma_round_trip(self) {
    }
}

impl Default for FillPaintLayerFillTranslateAnchor {
    fn default() -> (r: Self)
        ensures
            r == FillPaintLayerFillTranslateAnchor::MapValue,
    {
        FillPaintLayerFillTranslateAnchor::MapValue
    }
}

#[derive(PartialEq, Debug, Clone)]
pub struct FillExtrusionLayoutLayer {
    /// Whether this layer is displayed.
    pub visibility: Option<FillExtrusionLayoutLayerVisibility>,
}

impl JsonDecode for FillExtrusionLayoutLayer {
    /// An object with the fields by their keys, or an array with the fields in order.
    open spec fn accepts(v: Json) -> bool {
        ||| (v is Object && {
            let o = v->Object_0;
            &&& opt_field_accepts::<FillExtrusionLayoutLayerVisibility>(o, "visibility"@)
        })
        ||| (v is Array && {
            let a = v->Array_0;
            &&& seq_opt_accepts::<FillExtrusionLayoutLayerVisibility>(a, 0, true)
            &&& a.len() <= 1
        })
    }

    open spec fn decodes(v: Json, x: Self) -> bool {
        ||| (v is Object && {
            let o = v->Object_0;
            &&& opt_field_decodes::<FillExtrusionLayoutLayerVisibility>(o, "visibility"@, x.visibility)
        })
        ||| (v is Array && {
            let a = v->Array_0;
            &&& seq_opt_decodes::<FillExtrusionLayoutLayerVisibility>(a, 0, x.visibility)
        })
    }

    /// For an object, the first entry in order whose value does not read as its field, else the
    /// first required field that is missing.
    open spec fn rejection(v: Json) -> Seq<char> {
        if v is Object {
            let o = v->Object_0;
            match Self::first_fault(o, 0) {
                Some(m) => m,
                None => {
                    Seq::empty()
                },
            }
        } else if v is Array {
            let a = v->Array_0;
            if !seq_opt_accepts::<FillExtrusionLayoutLayerVisibility>(a, 0, true) {
                seq_opt_rejection::<FillExtrusionLayoutLayerVisibility>(a, 0, "struct FillExtrusionLayoutLayer with 1 element"@)
            } else if a.len() > 1 {
                length_error(a.len())
            } else {
                Seq::empty()
            }
        } else {
            type_error(v, "struct FillExtrusionLayoutLayer"@)
        }
    }

    fn decode(v: &JsonValue) -> (r: Result<Self, String>) {
        match v {
            JsonValue::Object(fields) => {
                let visibility = match decode_opt_field::<FillExtrusionLayoutLayerVisibility>(fields, "visibility") {
                    Ok(x) => x,
                    Err(_) => return Err(Self::object_rejection(fields)),
                };
                Ok(FillExtrusionLayoutLayer { visibility })
            },
            JsonValue::Array(a) => {
                let visibility = match decode_seq_opt::<FillExtrusionLayoutLayerVisibility>(a, 0, true, "struct FillExtrusionLayoutLayer with 1 element") {
                    Ok(x) => x,
                    Err(e) => return Err(e),
                };
                if a.len() > 1 {
                    return Err(make_length_error(a.len()));
                }
                Ok(FillExtrusionLayoutLayer { visibility })
            },
            _ => Err(make_type_error(v, "struct FillExtrusionLayoutLayer")),
        }
    }
}

impl FillExtrusionLayoutLayer {
    /// What is wrong with the value `w` of an entry with key `k`, where `k` is the key of a field.
    pub open spec fn field_fault(k: Seq<char>, w: Json) -> Option<Seq<char>> {
        if k == "visibility"@ {
            if w is Null || FillExtrusionLayoutLayerVisibility::accepts(w) {
                None
            } else {
                Some(FillExtrusionLayoutLayerVisibility::rejection(w))
            }
        } else {
            None
        }
    }

    /// The message of the first entry of `o`, from entry `i` on and among the first entries of
    /// their keys, whose value does not read as its field, if any.
    pub open spec fn first_fault(o: Seq<(Seq<char>, Json)>, i: int) -> Option<Seq<char>>
        decreases o.len() - i,
    {
        if i < 0 || i >= o.len() {
            None
        } else if first_with_key(o, i) && Self::field_fault(o[i].0, o[i].1) is Some {
            Self::field_fault(o[i].0, o[i].1)
        } else {
            Self::first_fault(o, i + 1)
        }
    }

    fn find_field_fault(k: &str, w: &JsonValue) -> (r: Option<String>)
        ensures
            match r {
                Some(m) => Self::field_fault(k@, w.model()) == Some(m@),
                None => Self::field_fault(k@, w.model()) is None,
            },
    {
        if str_eq(k, "visibility") {
            match w {
                JsonValue::Null => None,
                _ => match FillExtrusionLayoutLayerVisibility::decode(w) {
                    Ok(_) => None,
                    Err(e) => Some(e),
                },
            }
        } else {
            None
        }
    }

    fn object_rejection(fields: &Vec<(String, JsonValue)>) -> (r: String)
        ensures
            r@ == Self::rejection(JsonValue::Object(*fields).model()),
    {
        let ghost o = entries_model(*fields);
        let mut i: usize = 0;
        while i < fields.len()
            invariant
                o == entries_model(*fields),
                o.len() == fields.len(),
                i <= fields.len(),
                Self::first_fault(o, 0) == Self::first_fault(o, i as int),
            decreases fields.len() - i,
        {
            proof {
                assert(o[i as int] == (fields@[i as int].0@, fields@[i as int].1.model()));
            }
            if !key_seen_before(fields, i) {
                match Self::find_field_fault(fields[i].0.as_str(), &fields[i].1) {
                    Some(m) => {
                        return m;
                    },
                    None => {},
                }
            }
            i += 1;
        }
        String::new()
    }
}

impl FillExtrusionLayoutLayer {
    /// The keys of the fields, in order.
    pub open spec fn field_keys() -> Seq<Seq<char>> {
        seq!["visibility"@]
    }

    /// The entries that each field is written as, in order.
    pub open spec fn field_entries(self) -> Seq<Seq<(Seq<char>, Json)>> {
        seq![opt_entry::<FillExtrusionLayoutLayerVisibility>("visibility"@, self.visibility)]
    }

    proof fn lemma_keys_differ(i: int)
        requires
            0 <= i < 1,
        ensures
            others_differ(Self::field_keys(), i),
    {
        reveal_strlit("visibility");
        assert("visibility"@.len() == 10);
    }
}

impl JsonEncode for FillExtrusionLayoutLayer {
    open spec fn to_json(self) -> Json {
        Json::Object(self.field_entries().flatten())
    }

    open spec fn round_trips(self) -> bool {
        &&& (self.visibility matches Some(t) ==> t.round_trips() && !(t.to_json() is Null))
    }

    fn encode(&self) -> (r: JsonValue) {
        let mut out: Vec<(String, JsonValue)> = Vec::new();
        let ghost s0 = Seq::<Seq<(Seq<char>, Json)>>::empty();
        proof {
            assert(entries_model(out) =~= s0.flatten());
        }
        push_opt_entry::<FillExtrusionLayoutLayerVisibility>(&mut out, "visibility", &self.visibility);
        let ghost s1 = s0.push(opt_entry::<FillExtrusionLayoutLayerVisibility>("visibility"@, self.visibility));
        proof {
            s0.lemma_flatten_push(opt_entry::<FillExtrusionLayoutLayerVisibility>("visibility"@, self.visibility));
            assert(entries_model(out) =~= s1.flatten());
        }
        proof {
            assert(self.field_entries() == s1);
        }
        JsonValue::Object(out)
    }

    proof fn lemma_round_trip(self) {
        let keys = Self::field_keys();
        let es = self.field_entries();
        assert(keyed_by(es, keys));
        Self::lemma_keys_differ(0);
        lemma_lookup_flatten(es, keys, 0);
        lemma_lookup_opt_entry::<FillExtrusionLayoutLayerVisibility>("visibility"@, self.visibility, "visibility"@);
        if self.visibility is Some {
            self.visibility->0.lemma_round_trip();
        }
    }
}

/// Whether this layer is displayed.
#[derive(PartialEq, Eq, Debug, Clone, Copy)]
pub enum FillExtrusionLayoutLayerVisibility {
    NoneValue,
    Visible,
}

impl FillExtrusionLayoutLayerVisibility {
    /// The name that stands for the value in a style document.
    pub open spec fn spec_name(self) -> Seq<char> {
        match self {
            FillExtrusionLayoutLayerVisibility::NoneValue => "none"@,
            FillExtrusionLayoutLayerVisibility::Visible => "visible"@,
        }
    }

    /// The name that stands for the value in a style document.
    pub fn name(&self) -> (r: &'static str)
        ensures
            r@ == self.spec_name(),
    {
        match self {
            FillExtrusionLayoutLayerVisibility::NoneValue => "none",
            FillExtrusionLayoutLayerVisibility::Visible => "visible",
        }
    }

    /// The value that a name stands for, if any.
    pub fn from_name(s: &str) -> (r: Option<FillExtrusionLayoutLayerVisibility>)
        ensures
            r matches Some(x) ==> x.spec_name() == s@,
            r is None ==> forall|x: FillExtrusionLayoutLayerVisibility| x.spec_name() != s@,
    {
        if str_eq(s, "none") {
            Some(FillExtrusionLayoutLayerVisibility::NoneValue)
        } else if str_eq(s, "visible") {
            Some(FillExtrusionLayoutLayerVisibility::Visible)
        } else {
            None
        }
    }
}

impl FillExtrusionLayoutLayerVisibility {
    /// Each value is read from, and written as, the name that the style specification gives
    /// it, and a document holding one of these names reads as that value and no other.
    pub proof fn lemma_read_by_name()
        ensures
            <FillExtrusionLayoutLayerVisibility as JsonEncode>::to_json(FillExtrusionLayoutLayerVisibility::NoneValue) == Json::Str("none"@),
            <FillExtrusionLayoutLayerVisibility as JsonEncode>::to_json(FillExtrusionLayoutLayerVisibility::Visible) == Json::Str("visible"@),
            forall|x: FillExtrusionLayoutLayerVisibility| <FillExtrusionLayoutLayerVisibility as JsonDecode>::decodes(Json::Str("none"@), x) <==> x == FillExtrusionLayoutLayerVisibility::NoneValue,
            forall|x: FillExtrusionLayoutLayerVisibility| <FillExtrusionLayoutLayerVisibility as JsonDecode>::decodes(Json::Str("visible"@), x) <==> x == FillExtrusionLayoutLayerVisibility::Visible,
    {
        reveal_strlit("visible");
        reveal_strlit("none");
        assert("none"@.len() != "visible"@.len());
    }
}

impl JsonDecode for FillExtrusionLayoutLayerVisibility {
    /// The name of a value, or an object whose one entry has the name as its key and `null`.
    open spec fn accepts(v: Json) -> bool {
        ||| (v is Str && exists|x: FillExtrusionLayoutLayerVisibility| x.spec_name() == v->Str_0)
        ||| (v is Object && v->Object_0.len() == 1 && v->Object_0[0].1 is Null && exists|x: FillExtrusionLayoutLayerVisibility| x.spec_name() == v->Object_0[0].0)
    }

    open spec fn decodes(v: Json, x: Self) -> bool {
        ||| v == Json::Str(x.spec_name())
        ||| (v is Object && v->Object_0.len() == 1 && v->Object_0[0] == (x.spec_name(), Json::Null))
    }

    open spec fn rejection(v: Json) -> Seq<char> {
        if v is Str {
            unknown_variant(v->Str_0) + ", expected `none` or `visible`"@
        } else if v is Object {
            let o = v->Object_0;
            if o.len() != 1 {
                "invalid value: map, expected map with a single key"@
            } else if !(exists|x: FillExtrusionLayoutLayerVisibility| x.spec_name() == o[0].0) {
                unknown_variant(o[0].0) + ", expected `none` or `visible`"@
            } else {
                type_error(o[0].1, "unit"@)
            }
        } else {
            type_error(v, "string or map"@)
        }
    }

    fn decode(v: &JsonValue) -> (r: Result<Self, String>) {
        match v {
            JsonValue::String(s) => match Self::from_name(s.as_str()) {
                Some(x) => Ok(x),
                None => {
                    let mut m = make_unknown_variant(s.as_str());
                    m.append(", expected `none` or `visible`");
                    Err(m)
                },
            },
            JsonValue::Object(fields) => {
                if fields.len() != 1 {
                    return Err("invalid value: map, expected map with a single key".to_string());
                }
                proof {
                    assert(entries_model(*fields)[0] == (fields@[0].0@, fields@[0].1.model()));
                }
                match Self::from_name(fields[0].0.as_str()) {
                    Some(x) => match &fields[0].1 {
                        JsonValue::Null => Ok(x),
                        _ => Err(make_type_error(&fields[0].1, "unit")),
                    },
                    None => {
                        let mut m = make_unknown_variant(fields[0].0.as_str());
                        m.append(", expected `none` or `visible`");
                        Err(m)
                    },
                }
            },
            _ => Err(make_type_error(v, "string or map")),
        }
    }
}

impl JsonEncode for FillExtrusionLayoutLayerVisibility {
    open spec fn to_json(self) -> Json {
        Json::Str(self.spec_name())
    }

    open spec fn round_trips(self) -> bool {
        true
    }

    fn encode(&self) -> (r: JsonValue) {
        JsonValue::String(self.name().to_string())
    }

    proof fn lemma_round_trip(self) {
    }
}

impl Default for FillExtrusionLayoutLayerVisibility {
    fn default() -> (r: Self)
        ensures
            r == FillExtrusionLayoutLayerVisibility::Visible,
    {
        FillExtrusionLayoutLayerVisibility::Visible
    }
}

#[derive(PartialEq, Debug, Clone)]
pub struct FillExtrusionPaintLayer {
    /// The height with which to extrude the base of this layer. Must be less than or equal to `fill-extrusion-height`.
    pub fill_extrusion_base: Option<FillExtrusionPaintLayerFillExtrusionBase>,
    /// The base color of the extruded fill. The extrusion's surfaces will be shaded differently based on this color in combination with the root `light` settings. If this color is specified as `rgba` with an alpha component, the alpha component will be ignored; use `fill-extrusion-opacity` to set layer opacity.
    pub fill_extrusion_color: Option<FillExtrusionPaintLayerFillExtrusionColor>,
    /// The height with which to extrude this layer.
    pub fill_extrusion_height: Option<FillExtrusionPaintLayerFillExtrusionHeight>,
    /// The opacity of the entire fill extrusion layer. This is rendered on a per-layer, not per-feature, basis, and data-driven styling is not available.
    pub fill_extrusion_opacity: Option<FillExtrusionPaintLayerFillExtrusionOpacity>,
    /// Name of image in sprite to use for drawing images on extruded fills. For seamless patterns, image width and height must be a factor of two (2, 4, 8, ..., 512). Note that zoom-dependent expressions will be evaluated only at integer zoom levels.
    pub fill_extrusion_pattern: Option<FillExtrusionPaintLayerFillExtrusionPattern>,
    /// The geometry's offset. Values are [x, y] where negatives indicate left and up (on the flat plane), respectively.
    pub fill_extrusion_translate: Option<FillExtrusionPaintLayerFillExtrusionTranslate>,
    /// Controls the frame of reference for `fill-extrusion-translate`.
    pub fill_extrusion_translate_anchor: Option<FillExtrusionPaintLayerFillExtrusionTranslateAnchor>,
    /// Whether to apply a vertical gradient to the sides of a fill-extrusion layer. If true, sides will be shaded slightly darker farther down.
    pub fill_extrusion_vertical_gradient: Option<FillExtrusionPaintLayerFillExtrusionVerticalGradient>,
}

impl JsonDecode for FillExtrusionPaintLayer {
    /// An object with the fields by their keys, or an array with the fields in order.
    open spec fn accepts(v: Json) -> bool {
        ||| (v is Object && {
            let o = v->Object_0;
            &&& opt_field_accepts::<FillExtrusionPaintLayerFillExtrusionBase>(o, "fill-extrusion-base"@)
            &&& opt_field_accepts::<FillExtrusionPaintLayerFillExtrusionColor>(o, "fill-extrusion-color"@)
            &&& opt_field_accepts::<FillExtrusionPaintLayerFillExtrusionHeight>(o, "fill-extrusion-height"@)
            &&& opt_field_accepts::<FillExtrusionPaintLayerFillExtrusionOpacity>(o, "fill-extrusion-opacity"@)
            &&& opt_field_accepts::<FillExtrusionPaintLayerFillExtrusionPattern>(o, "fill-extrusion-pattern"@)
            &&& opt_field_accepts::<FillExtrusionPaintLayerFillExtrusionTranslate>(o, "fill-extrusion-translate"@)
            &&& opt_field_accepts::<FillExtrusionPaintLayerFillExtrusionTranslateAnchor>(o, "fill-extrusion-translate-anchor"@)
            &&& opt_field_accepts::<FillExtrusionPaintLayerFillExtrusionVerticalGradient>(o, "fill-extrusion-vertical-gradient"@)
        })
        ||| (v is Array && {
            let a = v->Array_0;
            &&& seq_opt_accepts::<FillExtrusionPaintLayerFillExtrusionBase>(a, 0, true)
            &&& seq_opt_accepts::<FillExtrusionPaintLayerFillExtrusionColor>(a, 1, true)
            &&& seq_opt_accepts::<FillExtrusionPaintLayerFillExtrusionHeight>(a, 2, true)
            &&& seq_opt_accepts::<FillExtrusionPaintLayerFillExtrusionOpacity>(a, 3, true)
            &&& seq_opt_accepts::<FillExtrusionPaintLayerFillExtrusionPattern>(a, 4, true)
            &&& seq_opt_accepts::<FillExtrusionPaintLayerFillExtrusionTranslate>(a, 5, true)
            &&& seq_opt_accepts::<FillExtrusionPaintLayerFillExtrusionTranslateAnchor>(a, 6, true)
            &&& seq_opt_accepts::<FillExtrusionPaintLayerFillExtrusionVerticalGradient>(a, 7, true)
            &&& a.len() <= 8
        })
    }

    open spec fn decodes(v: Json, x: Self) -> bool {
        ||| (v is Object && {
            let o = v->Object_0;
            &&& opt_field_decodes::<FillExtrusionPaintLayerFillExtrusionBase>(o, "fill-extrusion-base"@, x.fill_extrusion_base)
            &&& opt_field_decodes::<FillExtrusionPaintLayerFillExtrusionColor>(o, "fill-extrusion-color"@, x.fill_extrusion_color)
            &&& opt_field_decodes::<FillExtrusionPaintLayerFillExtrusionHeight>(o, "fill-extrusion-height"@, x.fill_extrusion_height)
            &&& opt_field_decodes::<FillExtrusionPaintLayerFillExtrusionOpacity>(o, "fill-extrusion-opacity"@, x.fill_extrusion_opacity)
            &&& opt_field_decodes::<FillExtrusionPaintLayerFillExtrusionPattern>(o, "fill-extrusion-pattern"@, x.fill_extrusion_pattern)
            &&& opt_field_decodes::<FillExtrusionPaintLayerFillExtrusionTranslate>(o, "fill-extrusion-translate"@, x.fill_extrusion_translate)
            &&& opt_field_decodes::<FillExtrusionPaintLayerFillExtrusionTranslateAnchor>(o, "fill-extrusion-translate-anchor"@, x.fill_extrusion_translate_anchor)
            &&& opt_field_decodes::<FillExtrusionPaintLayerFillExtrusionVerticalGradient>(o, "fill-extrusion-vertical-gradient"@, x.fill_extrusion_vertical_gradient)
        })
        ||| (v is Array && {
            let a = v->Array_0;
            &&& seq_opt_decodes::<FillExtrusionPaintLayerFillExtrusionBase>(a, 0, x.fill_extrusion_base)
            &&& seq_opt_decodes::<FillExtrusionPaintLayerFillExtrusionColor>(a, 1, x.fill_extrusion_color)
            &&& seq_opt_decodes::<FillExtrusionPaintLayerFillExtrusionHeight>(a, 2, x.fill_extrusion_height)
            &&& seq_opt_decodes::<FillExtrusionPaintLayerFillExtrusionOpacity>(a, 3, x.fill_extrusion_opacity)
            &&& seq_opt_decodes::<FillExtrusionPaintLayerFillExtrusionPattern>(a, 4, x.fill_extrusion_pattern)
            &&& seq_opt_decodes::<FillExtrusionPaintLayerFillExtrusionTranslate>(a, 5, x.fill_extrusion_translate)
            &&& seq_opt_decodes::<FillExtrusionPaintLayerFillExtrusionTranslateAnchor>(a, 6, x.fill_extrusion_translate_anchor)
            &&& seq_opt_decodes::<FillExtrusionPaintLayerFillExtrusionVerticalGradient>(a, 7, x.fill_extrusion_vertical_gradient)
        })
    }

    /// For an object, the first entry in order whose value does not read as its field, else the
    /// first required field that is missing.
    open spec fn rejection(v: Json) -> Seq<char> {
        if v is Object {
            let o = v->Object_0;
            match Self::first_fault(o, 0) {
                Some(m) => m,
                None => {
                    Seq::empty()
                },
            }
        } else if v is Array {
            let a = v->Array_0;
            if !seq_opt_accepts::<FillExtrusionPaintLayerFillExtrusionBase>(a, 0, true) {
                seq_opt_rejection::<FillExtrusionPaintLayerFillExtrusionBase>(a, 0, "struct FillExtrusionPaintLayer with 8 elements"@)
            } else if !seq_opt_accepts::<FillExtrusionPaintLayerFillExtrusionColor>(a, 1, true) {
                seq_opt_rejection::<FillExtrusionPaintLayerFillExtrusionColor>(a, 1, "struct FillExtrusionPaintLayer with 8 elements"@)
            } else if !seq_opt_accepts::<FillExtrusionPaintLayerFillExtrusionHeight>(a, 2, true) {
                seq_opt_rejection::<FillExtrusionPaintLayerFillExtrusionHeight>(a, 2, "struct FillExtrusionPaintLayer with 8 elements"@)
            } else if !seq_opt_accepts::<FillExtrusionPaintLayerFillExtrusionOpacity>(a, 3, true) {
                seq_opt_rejection::<FillExtrusionPaintLayerFillExtrusionOpacity>(a, 3, "struct FillExtrusionPaintLayer with 8 elements"@)
            } else if !seq_opt_accepts::<FillExtrusionPaintLayerFillExtrusionPattern>(a, 4, true) {
                seq_opt_rejection::<FillExtrusionPaintLayerFillExtrusionPattern>(a, 4, "struct FillExtrusionPaintLayer with 8 elements"@)
            } else if !seq_opt_accepts::<FillExtrusionPaintLayerFillExtrusionTranslate>(a, 5, true) {
                seq_opt_rejection::<FillExtrusionPaintLayerFillExtrusionTranslate>(a, 5, "struct FillExtrusionPaintLayer with 8 elements"@)
            } else if !seq_opt_accepts::<FillExtrusionPaintLayerFillExtrusionTranslateAnchor>(a, 6, true) {
                seq_opt_rejection::<FillExtrusionPaintLayerFillExtrusionTranslateAnchor>(a, 6, "struct FillExtrusionPaintLayer with 8 elements"@)
            } else if !seq_opt_accepts::<FillExtrusionPaintLayerFillExtrusionVerticalGradient>(a, 7, true) {
                seq_opt_rejection::<FillExtrusionPaintLayerFillExtrusionVerticalGradient>(a, 7, "struct FillExtrusionPaintLayer with 8 elements"@)
            } else if a.len() > 8 {
                length_error(a.len())
            } else {
                Seq::empty()
            }
        } else {
            type_error(v, "struct FillExtrusionPaintLayer"@)
        }
    }

    fn decode(v: &JsonValue) -> (r: Result<Self, String>) {
        match v {
            JsonValue::Object(fields) => {
                let fill_extrusion_base = match decode_opt_field::<FillExtrusionPaintLayerFillExtrusionBase>(fields, "fill-extrusion-base") {
                    Ok(x) => x,
                    Err(_) => return Err(Self::object_rejection(fields)),
                };
                let fill_extrusion_color = match decode_opt_field::<FillExtrusionPaintLayerFillExtrusionColor>(fields, "fill-extrusion-color") {
                    Ok(x) => x,
                    Err(_) => return Err(Self::object_rejection(fields)),
                };
                let fill_extrusion_height = match decode_opt_field::<FillExtrusionPaintLayerFillExtrusionHeight>(fields, "fill-extrusion-height") {
                    Ok(x) => x,
                    Err(_) => return Err(Self::object_rejection(fields)),
                };
                let fill_extrusion_opacity = match decode_opt_field::<FillExtrusionPaintLayerFillExtrusionOpacity>(fields, "fill-extrusion-opacity") {
                    Ok(x) => x,
                    Err(_) => return Err(Self::object_rejection(fields)),
                };
                let fill_extrusion_pattern = match decode_opt_field::<FillExtrusionPaintLayerFillExtrusionPattern>(fields, "fill-extrusion-pattern") {
                    Ok(x) => x,
                    Err(_) => return Err(Self::object_rejection(fields)),
                };
                let fill_extrusion_translate = match decode_opt_field::<FillExtrusionPaintLayerFillExtrusionTranslate>(fields, "fill-extrusion-translate") {
                    Ok(x) => x,
                    Err(_) => return Err(Self::object_rejection(fields)),
                };
                let fill_extrusion_translate_anchor = match decode_opt_field::<FillExtrusionPaintLayerFillExtrusionTranslateAnchor>(fields, "fill-extrusion-translate-anchor") {
                    Ok(x) => x,
                    Err(_) => return Err(Self::object_rejection(fields)),
                };
                let fill_extrusion_vertical_gradient = match decode_opt_field::<FillExtrusionPaintLayerFillExtrusionVerticalGradient>(fields, "fill-extrusion-vertical-gradient") {
                    Ok(x) => x,
                    Err(_) => return Err(Self::object_rejection(fields)),
                };
                Ok(FillExtrusionPaintLayer { fill_extrusion_base, fill_extrusion_color, fill_extrusion_height, fill_extrusion_opacity, fill_extrusion_pattern, fill_extrusion_translate, fill_extrusion_translate_anchor, fill_extrusion_vertical_gradient })
            },
            JsonValue::Array(a) => {
                let fill_extrusion_base = match decode_seq_opt::<FillExtrusionPaintLayerFillExtrusionBase>(a, 0, true, "struct FillExtrusionPaintLayer with 8 elements") {
                    Ok(x) => x,
                    Err(e) => return Err(e),
                };
                let fill_extrusion_color = match decode_seq_opt::<FillExtrusionPaintLayerFillExtrusionColor>(a, 1, true, "struct FillExtrusionPaintLayer with 8 elements") {
                    Ok(x) => x,
                    Err(e) => return Err(e),
                };
                let fill_extrusion_height = match decode_seq_opt::<FillExtrusionPaintLayerFillExtrusionHeight>(a, 2, true, "struct FillExtrusionPaintLayer with 8 elements") {
                    Ok(x) => x,
                    Err(e) => return Err(e),
                };
                let fill_extrusion_opacity = match decode_seq_opt::<FillExtrusionPaintLayerFillExtrusionOpacity>(a, 3, true, "struct FillExtrusionPaintLayer with 8 elements") {
                    Ok(x) => x,
                    Err(e) => return Err(e),
                };
                let fill_extrusion_pattern = match decode_seq_opt::<FillExtrusionPaintLayerFillExtrusionPattern>(a, 4, true, "struct FillExtrusionPaintLayer with 8 elements") {
                    Ok(x) => x,
                    Err(e) => return Err(e),
                };
                let fill_extrusion_translate = match decode_seq_opt::<FillExtrusionPaintLayerFillExtrusionTranslate>(a, 5, true, "struct FillExtrusionPaintLayer with 8 elements") {
                    Ok(x) => x,
                    Err(e) => return Err(e),
                };
                let fill_extrusion_translate_anchor = match decode_seq_opt::<FillExtrusionPaintLayerFillExtrusionTranslateAnchor>(a, 6, true, "struct FillExtrusionPaintLayer with 8 elements") {
                    Ok(x) => x,
                    Err(e) => return Err(e),
                };
                let fill_extrusion_vertical_gradient = match decode_seq_opt::<FillExtrusionPaintLayerFillExtrusionVerticalGradient>(a, 7, true, "struct FillExtrusionPaintLayer with 8 elements") {
                    Ok(x) => x,
                    Err(e) => return Err(e),
                };
                if a.len() > 8 {
                    return Err(make_length_error(a.len()));
                }
                Ok(FillExtrusionPaintLayer { fill_extrusion_base, fill_extrusion_color, fill_extrusion_height, fill_extrusion_opacity, fill_extrusion_pattern, fill_extrusion_translate, fill_extrusion_translate_anchor, fill_extrusion_vertical_gradient })
            },
            _ => Err(make_type_error(v, "struct FillExtrusionPaintLayer")),
        }
    }
}

impl FillExtrusionPaintLayer {
    /// What is wrong with the value `w` of an entry with key `k`, where `k` is the key of a field.
    pub open spec fn field_fault(k: Seq<char>, w: Json) -> Option<Seq<char>> {
        if k == "fill-extrusion-base"@ {
            if w is Null || FillExtrusionPaintLayerFillExtrusionBase::accepts(w) {
                None
            } else {
                Some(FillExtrusionPaintLayerFillExtrusionBase::rejection(w))
            }
        } else if k == "fill-extrusion-color"@ {
            if w is Null || FillExtrusionPaintLayerFillExtrusionColor::accepts(w) {
                None
            } else {
                Some(FillExtrusionPaintLayerFillExtrusionColor::rejection(w))
            }
        } else if k == "fill-extrusion-height"@ {
            if w is Null || FillExtrusionPaintLayerFillExtrusionHeight::accepts(w) {
                None
            } else {
                Some(FillExtrusionPaintLayerFillExtrusionHeight::rejection(w))
            }
        } else if k == "fill-extrusion-opacity"@ {
            if w is Null || FillExtrusionPaintLayerFillExtrusionOpacity::accepts(w) {
                None
            } else {
                Some(FillExtrusionPaintLayerFillExtrusionOpacity::rejection(w))
            }
        } else if k == "fill-extrusion-pattern"@ {
            if w is Null || FillExtrusionPaintLayerFillExtrusionPattern::accepts(w) {
                None
            } else {
                Some(FillExtrusionPaintLayerFillExtrusionPattern::rejection(w))
            }
        } else if k == "fill-extrusion-translate"@ {
            if w is Null || FillExtrusionPaintLayerFillExtrusionTranslate::accepts(w) {
                None
            } else {
                Some(FillExtrusionPaintLayerFillExtrusionTranslate::rejection(w))
            }
        } else if k == "fill-extrusion-translate-anchor"@ {
            if w is Null || FillExtrusionPaintLayerFillExtrusionTranslateAnchor::accepts(w) {
                None
            } else {
                Some(FillExtrusionPaintLayerFillExtrusionTranslateAnchor::rejection(w))
            }
        } else if k == "fill-extrusion-vertical-gradient"@ {
            if w is Null || FillExtrusionPaintLayerFillExtrusionVerticalGradient::accepts(w) {
                None
            } else {
                Some(FillExtrusionPaintLayerFillExtrusionVerticalGradient::rejection(w))
            }
        } else {
            None
        }
    }

    /// The message of the first entry of `o`, from entry `i` on and among the first entries of
    /// their keys, whose value does not read as its field, if any.
    pub open spec fn first_fault(o: Seq<(Seq<char>, Json)>, i: int) -> Option<Seq<char>>
        decreases o.len() - i,
    {
        if i < 0 || i >= o.len() {
            None
        } else if first_with_key(o, i) && Self::field_fault(o[i].0, o[i].1) is Some {
            Self::field_fault(o[i].0, o[i].1)
        } else {
            Self::first_fault(o, i + 1)
        }
    }

    fn find_field_fault(k: &str, w: &JsonValue) -> (r: Option<String>)
        ensures
            match r {
                Some(m) => Self::field_fault(k@, w.model()) == Some(m@),
                None => Self::field_fault(k@, w.model()) is None,
            },
    {
        if str_eq(k, "fill-extrusion-base") {
            match w {
                JsonValue::Null => None,
                _ => match FillExtrusionPaintLayerFillExtrusionBase::decode(w) {
                    Ok(_) => None,
                    Err(e) => Some(e),
                },
            }
        } else if str_eq(k, "fill-extrusion-color") {
            match w {
                JsonValue::Null => None,
                _ => match FillExtrusionPaintLayerFillExtrusionColor::decode(w) {
                    Ok(_) => None,
                    Err(e) => Some(e),
                },
            }
        } else if str_eq(k, "fill-extrusion-height") {
            match w {
                JsonValue::Null => None,
                _ => match FillExtrusionPaintLayerFillExtrusionHeight::decode(w) {
                    Ok(_) => None,
                    Err(e) => Some(e),
                },
            }
        } else if str_eq(k, "fill-extrusion-opacity") {
            match w {
                JsonValue::Null => None,
                _ => match FillExtrusionPaintLayerFillExtrusionOpacity::decode(w) {
                    Ok(_) => None,
                    Err(e) => Some(e),
                },
            }
        } else if str_eq(k, "fill-extrusion-pattern") {
            match w {
                JsonValue::Null => None,
                _ => match FillExtrusionPaintLayerFillExtrusionPattern::decode(w) {
                    Ok(_) => None,
                    Err(e) => Some(e),
                },
            }
        } else if str_eq(k, "fill-extrusion-translate") {
            match w {
                JsonValue::Null => None,
                _ => match FillExtrusionPaintLayerFillExtrusionTranslate::decode(w) {
                    Ok(_) => None,
                    Err(e) => Some(e),
                },
            }
        } else if str_eq(k, "fill-extrusion-translate-anchor") {
            match w {
                JsonValue::Null => None,
                _ => match FillExtrusionPaintLayerFillExtrusionTranslateAnchor::decode(w) {
                    Ok(_) => None,
                    Err(e) => Some(e),
                },
            }
        } else if str_eq(k, "fill-extrusion-vertical-gradient") {
            match w {
                JsonValue::Null => None,
                _ => match FillExtrusionPaintLayerFillExtrusionVerticalGradient::decode(w) {
                    Ok(_) => None,
                    Err(e) => Some(e),
                },
            }
        } else {
            None
        }
    }

    fn object_rejection(fields: &Vec<(String, JsonValue)>) -> (r: String)
        ensures
            r@ == Self::rejection(JsonValue::Object(*fields).model()),
    {
        let ghost o = entries_model(*fields);
        let mut i: usize = 0;
        while i < fields.len()
            invariant
                o == entries_model(*fields),
                o.len() == fields.len(),
                i <= fields.len(),
                Self::first_fault(o, 0) == Self::first_fault(o, i as int),
            decreases fields.len() - i,
        {
            proof {
                assert(o[i as int] == (fields@[i as int].0@, fields@[i as int].1.model()));
            }
            if !key_seen_before(fields, i) {
                match Self::find_field_fault(fields[i].0.as_str(), &fields[i].1) {
                    Some(m) => {
                        return m;
                    },
                    None => {},
                }
            }
            i += 1;
        }
        String::new()
    }
}

impl FillExtrusionPaintLayer {
    /// The keys of the fields, in order.
    pub open spec fn field_keys() -> Seq<Seq<char>> {
        seq!["fill-extrusion-base"@, "fill-extrusion-color"@, "fill-extrusion-height"@, "fill-extrusion-opacity"@, "fill-extrusion-pattern"@, "fill-extrusion-translate"@, "fill-extrusion-translate-anchor"@, "fill-extrusion-vertical-gradient"@]
    }

    /// The entries that each field is written as, in order.
    pub open spec fn field_entries(self) -> Seq<Seq<(Seq<char>, Json)>> {
        seq![opt_entry::<FillExtrusionPaintLayerFillExtrusionBase>("fill-extrusion-base"@, self.fill_extrusion_base), opt_entry::<FillExtrusionPaintLayerFillExtrusionColor>("fill-extrusion-color"@, self.fill_extrusion_color), opt_entry::<FillExtrusionPaintLayerFillExtrusionHeight>("fill-extrusion-height"@, self.fill_extrusion_height), opt_entry::<FillExtrusionPaintLayerFillExtrusionOpacity>("fill-extrusion-opacity"@, self.fill_extrusion_opacity), opt_entry::<FillExtrusionPaintLayerFillExtrusionPattern>("fill-extrusion-pattern"@, self.fill_extrusion_pattern), opt_entry::<FillExtrusionPaintLayerFillExtrusionTranslate>("fill-extrusion-translate"@, self.fill_extrusion_translate), opt_entry::<FillExtrusionPaintLayerFillExtrusionTranslateAnchor>("fill-extrusion-translate-anchor"@, self.fill_extrusion_translate_anchor), opt_entry::<FillExtrusionPaintLayerFillExtrusionVerticalGradient>("fill-extrusion-vertical-gradient"@, self.fill_extrusion_vertical_gradient)]
    }

    proof fn lemma_keys_differ(i: int)
        requires
            0 <= i < 8,
        ensures
            others_differ(Self::field_keys(), i),
    {
        reveal_strlit("fill-extrusion-base");
        assert("fill-extrusion-base"@.len() == 19);
        reveal_strlit("fill-extrusion-color");
        assert("fill-extrusion-color"@.len() == 20);
        reveal_strlit("fill-extrusion-height");
        assert("fill-extrusion-height"@.len() == 21);
        reveal_strlit("fill-extrusion-opacity");
        assert("fill-extrusion-opacity"@.len() == 22);
        reveal_strlit("fill-extrusion-pattern");
        assert("fill-extrusion-pattern"@.len() == 22);
        reveal_strlit("fill-extrusion-translate");
        assert("fill-extrusion-translate"@.len() == 24);
        reveal_strlit("fill-extrusion-translate-anchor");
        assert("fill-extrusion-translate-anchor"@.len() == 31);
        reveal_strlit("fill-extrusion-vertical-gradient");
        assert("fill-extrusion-vertical-gradient"@.len() == 32);
        assert("fill-extrusion-opacity"@[15] != "fill-extrusion-pattern"@[15]);
    }
}

impl JsonEncode for FillExtrusionPaintLayer {
    open spec fn to_json(self) -> Json {
        Json::Object(self.field_entries().flatten())
    }

    open spec fn round_trips(self) -> bool {
        &&& (self.fill_extrusion_base matches Some(t) ==> t.round_trips() && !(t.to_json() is Null))
        &&& (self.fill_extrusion_color matches Some(t) ==> t.round_trips() && !(t.to_json() is Null))
        &&& (self.fill_extrusion_height matches Some(t) ==> t.round_trips() && !(t.to_json() is Null))
        &&& (self.fill_extrusion_opacity matches Some(t) ==> t.round_trips() && !(t.to_json() is Null))
        &&& (self.fill_extrusion_pattern matches Some(t) ==> t.round_trips() && !(t.to_json() is Null))
        &&& (self.fill_extrusion_translate matches Some(t) ==> t.round_trips() && !(t.to_json() is Null))
        &&& (self.fill_extrusion_translate_anchor matches Some(t) ==> t.round_trips() && !(t.to_json() is Null))
        &&& (self.fill_extrusion_vertical_gradient matches Some(t) ==> t.round_trips() && !(t.to_json() is Null))
    }

    #[verifier::rlimit(30)]
    fn encode(&self) -> (r: JsonValue) {
        let mut out: Vec<(String, JsonValue)> = Vec::new();
        let ghost s0 = Seq::<Seq<(Seq<char>, Json)>>::empty();
        proof {
            assert(entries_model(out) =~= s0.flatten());
        }
        push_opt_entry::<FillExtrusionPaintLayerFillExtrusionBase>(&mut out, "fill-extrusion-base", &self.fill_extrusion_base);
        let ghost s1 = s0.push(opt_entry::<FillExtrusionPaintLayerFillExtrusionBase>("fill-extrusion-base"@, self.fill_extrusion_base));
        proof {
            s0.lemma_flatten_push(opt_entry::<FillExtrusionPaintLayerFillExtrusionBase>("fill-extrusion-base"@, self.fill_extrusion_base));
            assert(entries_model(out) =~= s1.flatten());
        }
        push_opt_entry::<FillExtrusionPaintLayerFillExtrusionColor>(&mut out, "fill-extrusion-color", &self.fill_extrusion_color);
        let ghost s2 = s1.push(opt_entry::<FillExtrusionPaintLayerFillExtrusionColor>("fill-extrusion-color"@, self.fill_extrusion_color));
        proof {
            s1.lemma_flatten_push(opt_entry::<FillExtrusionPaintLayerFillExtrusionColor>("fill-extrusion-color"@, self.fill_extrusion_color));
            assert(entries_model(out) =~= s2.flatten());
        }
        push_opt_entry::<FillExtrusionPaintLayerFillExtrusionHeight>(&mut out, "fill-extrusion-height", &self.fill_extrusion_height);
        let ghost s3 = s2.push(opt_entry::<FillExtrusionPaintLayerFillExtrusionHeight>("fill-extrusion-height"@, self.fill_extrusion_height));
        proof {
            s2.lemma_flatten_push(opt_entry::<FillExtrusionPaintLayerFillExtrusionHeight>("fill-extrusion-height"@, self.fill_extrusion_height));
            assert(entries_model(out) =~= s3.flatten());
        }
        push_opt_entry::<FillExtrusionPaintLayerFillExtrusionOpacity>(&mut out, "fill-extrusion-opacity", &self.fill_extrusion_opacity);
        let ghost s4 = s3.push(opt_entry::<FillExtrusionPaintLayerFillExtrusionOpacity>("fill-extrusion-opacity"@, self.fill_extrusion_opacity));
        proof {
            s3.lemma_flatten_push(opt_entry::<FillExtrusionPaintLayerFillExtrusionOpacity>("fill-extrusion-opacity"@, self.fill_extrusion_opacity));
            assert(entries_model(out) =~= s4.flatten());
        }
        push_opt_entry::<FillExtrusionPaintLayerFillExtrusionPattern>(&mut out, "fill-extrusion-pattern", &self.fill_extrusion_pattern);
        let ghost s5 = s4.push(opt_entry::<FillExtrusionPaintLayerFillExtrusionPattern>("fill-extrusion-pattern"@, self.fill_extrusion_pattern));
        proof {
            s4.lemma_flatten_push(opt_entry::<FillExtrusionPaintLayerFillExtrusionPattern>("fill-extrusion-pattern"@, self.fill_extrusion_pattern));
            assert(entries_model(out) =~= s5.flatten());
        }
        push_opt_entry::<FillExtrusionPaintLayerFillExtrusionTranslate>(&mut out, "fill-extrusion-translate", &self.fill_extrusion_translate);
        let ghost s6 = s5.push(opt_entry::<FillExtrusionPaintLayerFillExtrusionTranslate>("fill-extrusion-translate"@, self.fill_extrusion_translate));
        proof {
            s5.lemma_flatten_push(opt_entry::<FillExtrusionPaintLayerFillExtrusionTranslate>("fill-extrusion-translate"@, self.fill_extrusion_translate));
            assert(entries_model(out) =~= s6.flatten());
        }
        push_opt_entry::<FillExtrusionPaintLayerFillExtrusionTranslateAnchor>(&mut out, "fill-extrusion-translate-anchor", &self.fill_extrusion_translate_anchor);
        let ghost s7 = s6.push(opt_entry::<FillExtrusionPaintLayerFillExtrusionTranslateAnchor>("fill-extrusion-translate-anchor"@, self.fill_extrusion_translate_anchor));
        proof {
            s6.lemma_flatten_push(opt_entry::<FillExtrusionPaintLayerFillExtrusionTranslateAnchor>("fill-extrusion-translate-anchor"@, self.fill_extrusion_translate_anchor));
            assert(entries_model(out) =~= s7.flatten());
        }
        push_opt_entry::<FillExtrusionPaintLayerFillExtrusionVerticalGradient>(&mut out, "fill-extrusion-vertical-gradient", &self.fill_extrusion_vertical_gradient);
        let ghost s8 = s7.push(opt_entry::<FillExtrusionPaintLayerFillExtrusionVerticalGradient>("fill-extrusion-vertical-gradient"@, self.fill_extrusion_vertical_gradient));
        proof {
            s7.lemma_flatten_push(opt_entry::<FillExtrusionPaintLayerFillExtrusionVerticalGradient>("fill-extrusion-vertical-gradient"@, self.fill_extrusion_vertical_gradient));
            assert(entries_model(out) =~= s8.flatten());
        }
        proof {
            assert(self.field_entries() == s8);
        }
        JsonValue::Object(out)
    }

    #[verifier::rlimit(30)]
    proof fn lemma_round_trip(self) {
        let keys = Self::field_keys();
        let es = self.field_entries();
        assert(keyed_by(es, keys));
        Self::lemma_keys_differ(0);
        lemma_lookup_flatten(es, keys, 0);
        lemma_lookup_opt_entry::<FillExtrusionPaintLayerFillExtrusionBase>("fill-extrusion-base"@, self.fill_extrusion_base, "fill-extrusion-base"@);
        if self.fill_extrusion_base is Some {
            self.fill_extrusion_base->0.lemma_round_trip();
        }
        Self::lemma_keys_differ(1);
        lemma_lookup_flatten(es, keys, 1);
        lemma_lookup_opt_entry::<FillExtrusionPaintLayerFillExtrusionColor>("fill-extrusion-color"@, self.fill_extrusion_color, "fill-extrusion-color"@);
        if self.fill_extrusion_color is Some {
            self.fill_extrusion_color->0.lemma_round_trip();
        }
        Self::lemma_keys_differ(2);
        lemma_lookup_flatten(es, keys, 2);
        lemma_lookup_opt_entry::<FillExtrusionPaintLayerFillExtrusionHeight>("fill-extrusion-height"@, self.fill_extrusion_height, "fill-extrusion-height"@);
        if self.fill_extrusion_height is Some {
            self.fill_extrusion_height->0.lemma_round_trip();
        }
        Self::lemma_keys_differ(3);
        lemma_lookup_flatten(es, keys, 3);
        lemma_lookup_opt_entry::<FillExtrusionPaintLayerFillExtrusionOpacity>("fill-extrusion-opacity"@, self.fill_extrusion_opacity, "fill-extrusion-opacity"@);
        if self.fill_extrusion_opacity is Some {
            self.fill_extrusion_opacity->0.lemma_round_trip();
        }
        Self::lemma_keys_differ(4);
        lemma_lookup_flatten(es, keys, 4);
        lemma_lookup_opt_entry::<FillExtrusionPaintLayerFillExtrusionPattern>("fill-extrusion-pattern"@, self.fill_extrusion_pattern, "fill-extrusion-pattern"@);
        if self.fill_extrusion_pattern is Some {
            self.fill_extrusion_pattern->0.lemma_round_trip();
        }
        Self::lemma_keys_differ(5);
        lemma_lookup_flatten(es, keys, 5);
        lemma_lookup_opt_entry::<FillExtrusionPaintLayerFillExtrusionTranslate>("fill-extrusion-translate"@, self.fill_extrusion_translate, "fill-extrusion-translate"@);
        if self.fill_extrusion_translate is Some {
            self.fill_extrusion_translate->0.lemma_round_trip();
        }
        Self::lemma_keys_differ(6);
        lemma_lookup_flatten(es, keys, 6);
        lemma_lookup_opt_entry::<FillExtrusionPaintLayerFillExtrusionTranslateAnchor>("fill-extrusion-translate-anchor"@, self.fill_extrusion_translate_anchor, "fill-extrusion-translate-anchor"@);
        if self.fill_extrusion_translate_anchor is Some {
            self.fill_extrusion_translate_anchor->0.lemma_round_trip();
        }
        Self::lemma_keys_differ(7);
        lemma_lookup_flatten(es, keys, 7);
        lemma_lookup_opt_entry::<FillExtrusionPaintLayerFillExtrusionVerticalGradient>("fill-extrusion-vertical-gradient"@, self.fill_extrusion_vertical_gradient, "fill-extrusion-vertical-gradient"@);
        if self.fill_extrusion_vertical_gradient is Some {
            self.fill_extrusion_vertical_gradient->0.lemma_round_trip();
        }
    }
}

/// Nested expression: ramp (`interpolate` / …) or regular [`Number`] operators.
#[derive(PartialEq, Debug, Clone)]
pub enum FillExtrusionPaintLayerFillExtrusionBaseExpression {
    Number(Number),
    Ramp(NumberOrArrayOfNumberOrColorOrArrayOfColorOrProjection),
}

impl JsonDecode for FillExtrusionPaintLayerFillExtrusionBaseExpression {
    open spec fn accepts(v: Json) -> bool {
        Number::accepts(v) || NumberOrArrayOfNumberOrColorOrArrayOfColorOrProjection::accepts(v)
    }

    open spec fn decodes(v: Json, x: Self) -> bool {
        match x {
            FillExtrusionPaintLayerFillExtrusionBaseExpression::Number(t) => Number::accepts(v) && Number::decodes(v, t),
            FillExtrusionPaintLayerFillExtrusionBaseExpression::Ramp(t) => !Number::accepts(v) && NumberOrArrayOfNumberOrColorOrArrayOfColorOrProjection::accepts(v) && NumberOrArrayOfNumberOrColorOrArrayOfColorOrProjection::decodes(v, t),
        }
    }

    open spec fn rejection(v: Json) -> Seq<char> {
        "FillExtrusionPaintLayerFillExtrusionBaseExpression: no variant matched. Expected Number(Number) | Ramp(NumberOrArrayOfNumberOrColorOrArrayOfColorOrProjection). Errors: ["@ + "Number: "@ + Number::rejection(v) + "; Ramp: "@ + NumberOrArrayOfNumberOrColorOrArrayOfColorOrProjection::rejection(v) + "]"@
    }

    fn decode(v: &JsonValue) -> (r: Result<Self, String>) {
        let e0 = match Number::decode(v) {
            Ok(x) => {
                return Ok(FillExtrusionPaintLayerFillExtrusionBaseExpression::Number(x));
            },
            Err(e) => e,
        };
        let e1 = match NumberOrArrayOfNumberOrColorOrArrayOfColorOrProjection::decode(v) {
            Ok(x) => {
                return Ok(FillExtrusionPaintLayerFillExtrusionBaseExpression::Ramp(x));
            },
            Err(e) => e,
        };
        let mut m = "FillExtrusionPaintLayerFillExtrusionBaseExpression: no variant matched. Expected Number(Number) | Ramp(NumberOrArrayOfNumberOrColorOrArrayOfColorOrProjection). Errors: [".to_string();
        m.append("Number: ");
        m.append(e0.as_str());
        m.append("; Ramp: ");
        m.append(e1.as_str());
        m.append("]");
        Err(m)
    }
}

impl JsonEncode for FillExtrusionPaintLayerFillExtrusionBaseExpression {
    open spec fn to_json(self) -> Json {
        match self {
            FillExtrusionPaintLayerFillExtrusionBaseExpression::Number(t) => Number::to_json(t),
            FillExtrusionPaintLayerFillExtrusionBaseExpression::Ramp(t) => NumberOrArrayOfNumberOrColorOrArrayOfColorOrProjection::to_json(t),
        }
    }

    open spec fn round_trips(self) -> bool {
        match self {
            FillExtrusionPaintLayerFillExtrusionBaseExpression::Number(t) => Number::round_trips(t),
            FillExtrusionPaintLayerFillExtrusionBaseExpression::Ramp(t) => NumberOrArrayOfNumberOrColorOrArrayOfColorOrProjection::round_trips(t) && !Number::accepts(NumberOrArrayOfNumberOrColorOrArrayOfColorOrProjection::to_json(t)),
        }
    }

    fn encode(&self) -> (r: JsonValue) {
        match self {
            FillExtrusionPaintLayerFillExtrusionBaseExpression::Number(t) => Number::encode(t),
            FillExtrusionPaintLayerFillExtrusionBaseExpression::Ramp(t) => NumberOrArrayOfNumberOrColorOrArrayOfColorOrProjection::encode(t),
        }
    }

    proof fn lemma_round_trip(self) {
        match self {
            FillExtrusionPaintLayerFillExtrusionBaseExpression::Number(t) => Number::lemma_round_trip(t),
            FillExtrusionPaintLayerFillExtrusionBaseExpression::Ramp(t) => NumberOrArrayOfNumberOrColorOrArrayOfColorOrProjection::lemma_round_trip(t),
        }
    }
}

/// The height with which to extrude the base of this layer. Must be less than or equal to `fill-extrusion-height`.
#[derive(PartialEq, Debug, Clone)]
pub enum FillExtrusionPaintLayerFillExtrusionBase {
    Expr(Box<FillExtrusionPaintLayerFillExtrusionBaseExpression>),
    Literal(JsonNumber),
}

impl JsonDecode for FillExtrusionPaintLayerFillExtrusionBase {
    open spec fn accepts(v: Json) -> bool {
        FillExtrusionPaintLayerFillExtrusionBaseExpression::accepts(v) || JsonNumber::accepts(v)
    }

    open spec fn decodes(v: Json, x: Self) -> bool {
        match x {
            FillExtrusionPaintLayerFillExtrusionBase::Expr(t) => FillExtrusionPaintLayerFillExtrusionBaseExpression::accepts(v) && FillExtrusionPaintLayerFillExtrusionBaseExpression::decodes(v, *t),
            FillExtrusionPaintLayerFillExtrusionBase::Literal(t) => !FillExtrusionPaintLayerFillExtrusionBaseExpression::accepts(v) && JsonNumber::accepts(v) && JsonNumber::decodes(v, t),
        }
    }

    open spec fn rejection(v: Json) -> Seq<char> {
        "FillExtrusionPaintLayerFillExtrusionBase: no variant matched. Expected Expr(FillExtrusionPaintLayerFillExtrusionBaseExpression) | Literal(serde_json::Number). Errors: ["@ + "Expr: "@ + FillExtrusionPaintLayerFillExtrusionBaseExpression::rejection(v) + "; Literal: "@ + JsonNumber::rejection(v) + "]"@
    }

    fn decode(v: &JsonValue) -> (r: Result<Self, String>) {
        let e0 = match FillExtrusionPaintLayerFillExtrusionBaseExpression::decode(v) {
            Ok(x) => {
                return Ok(FillExtrusionPaintLayerFillExtrusionBase::Expr(Box::new(x)));
            },
            Err(e) => e,
        };
        let e1 = match JsonNumber::decode(v) {
            Ok(x) => {
                return Ok(FillExtrusionPaintLayerFillExtrusionBase::Literal(x));
            },
            Err(e) => e,
        };
        let mut m = "FillExtrusionPaintLayerFillExtrusionBase: no variant matched. Expected Expr(FillExtrusionPaintLayerFillExtrusionBaseExpression) | Literal(serde_json::Number). Errors: [".to_string();
        m.append("Expr: ");
        m.append(e0.as_str());
        m.append("; Literal: ");
        m.append(e1.as_str());
        m.append("]");
        Err(m)
    }
}

impl JsonEncode for FillExtrusionPaintLayerFillExtrusionBase {
    open spec fn to_json(self) -> Json {
        match self {
            FillExtrusionPaintLayerFillExtrusionBase::Expr(t) => FillExtrusionPaintLayerFillExtrusionBaseExpression::to_json(*t),
            FillExtrusionPaintLayerFillExtrusionBase::Literal(t) => JsonNumber::to_json(t),
        }
    }

    open spec fn round_trips(self) -> bool {
        match self {
            FillExtrusionPaintLayerFillExtrusionBase::Expr(t) => FillExtrusionPaintLayerFillExtrusionBaseExpression::round_trips(*t),
            FillExtrusionPaintLayerFillExtrusionBase::Literal(t) => JsonNumber::round_trips(t) && !FillExtrusionPaintLayerFillExtrusionBaseExpression::accepts(JsonNumber::to_json(t)),
        }
    }

    fn encode(&self) -> (r: JsonValue) {
        match self {
            FillExtrusionPaintLayerFillExtrusionBase::Expr(t) => FillExtrusionPaintLayerFillExtrusionBaseExpression::encode(&**t),
            FillExtrusionPaintLayerFillExtrusionBase::Literal(t) => JsonNumber::encode(t),
        }
    }

    proof fn lemma_round_trip(self) {
        match self {
            FillExtrusionPaintLayerFillExtrusionBase::Expr(t) => FillExtrusionPaintLayerFillExtrusionBaseExpression::lemma_round_trip(*t),
            FillExtrusionPaintLayerFillExtrusionBase::Literal(t) => JsonNumber::lemma_round_trip(t),
        }
    }
}

impl Default for FillExtrusionPaintLayerFillExtrusionBase {
    fn default() -> (r: Self)
        ensures
            r.to_json() == Json::Number("0"@),
            r is Literal,
    {
        let r = FillExtrusionPaintLayerFillExtrusionBase::Literal(JsonNumber::from_literal("0"));
        r
    }
}

/// Nested expression: ramp (`interpolate-hcl`, …) or [`Color`] operators.
#[derive(PartialEq, Debug, Clone)]
pub enum FillExtrusionPaintLayerFillExtrusionColorExpression {
    Color(Color),
    Ramp(ColorOrArrayOfColor),
}

impl JsonDecode for FillExtrusionPaintLayerFillExtrusionColorExpression {
    open spec fn accepts(v: Json) -> bool {
        Color::accepts(v) || ColorOrArrayOfColor::accepts(v)
    }

    open spec fn decodes(v: Json, x: Self) -> bool {
        match x {
            FillExtrusionPaintLayerFillExtrusionColorExpression::Color(t) => Color::accepts(v) && Color::decodes(v, t),
            FillExtrusionPaintLayerFillExtrusionColorExpression::Ramp(t) => !Color::accepts(v) && ColorOrArrayOfColor::accepts(v) && ColorOrArrayOfColor::decodes(v, t),
        }
    }

    open spec fn rejection(v: Json) -> Seq<char> {
        "FillExtrusionPaintLayerFillExtrusionColorExpression: no variant matched. Expected Color(Color) | Ramp(ColorOrArrayOfColor). Errors: ["@ + "Color: "@ + Color::rejection(v) + "; Ramp: "@ + ColorOrArrayOfColor::rejection(v) + "]"@
    }

    fn decode(v: &JsonValue) -> (r: Result<Self, String>) {
        let e0 = match Color::decode(v) {
            Ok(x) => {
                return Ok(FillExtrusionPaintLayerFillExtrusionColorExpression::Color(x));
            },
            Err(e) => e,
        };
        let e1 = match ColorOrArrayOfColor::decode(v) {
            Ok(x) => {
                return Ok(FillExtrusionPaintLayerFillExtrusionColorExpression::Ramp(x));
            },
            Err(e) => e,
        };
        let mut m = "FillExtrusionPaintLayerFillExtrusionColorExpression: no variant matched. Expected Color(Color) | Ramp(ColorOrArrayOfColor). Errors: [".to_string();
        m.append("Color: ");
        m.append(e0.as_str());
        m.append("; Ramp: ");
        m.append(e1.as_str());
        m.append("]");
        Err(m)
    }
}

impl JsonEncode for FillExtrusionPaintLayerFillExtrusionColorExpression {
    open spec fn to_json(self) -> Json {
        match self {
            FillExtrusionPaintLayerFillExtrusionColorExpression::Color(t) => Color::to_json(t),
            FillExtrusionPaintLayerFillExtrusionColorExpression::Ramp(t) => ColorOrArrayOfColor::to_json(t),
        }
    }

    open spec fn round_trips(self) -> bool {
        match self {
            FillExtrusionPaintLayerFillExtrusionColorExpression::Color(t) => Color::round_trips(t),
            FillExtrusionPaintLayerFillExtrusionColorExpression::Ramp(t) => ColorOrArrayOfColor::round_trips(t) && !Color::accepts(ColorOrArrayOfColor::to_json(t)),
        }
    }

    fn encode(&self) -> (r: JsonValue) {
        match self {
            FillExtrusionPaintLayerFillExtrusionColorExpression::Color(t) => Color::encode(t),
            FillExtrusionPaintLayerFillExtrusionColorExpression::Ramp(t) => ColorOrArrayOfColor::encode(t),
        }
    }

    proof fn lemma_round_trip(self) {
        match self {
            FillExtrusionPaintLayerFillExtrusionColorExpression::Color(t) => Color::lemma_round_trip(t),
            FillExtrusionPaintLayerFillExtrusionColorExpression::Ramp(t) => ColorOrArrayOfColor::lemma_round_trip(t),
        }
    }
}

/// The base color of the extruded fill. The extrusion's surfaces will be shaded differently based on this color in combination with the root `light` settings. If this color is specified as `rgba` with an alpha component, the alpha component will be ignored; use `fill-extrusion-opacity` to set layer opacity.
#[derive(PartialEq, Debug, Clone)]
pub enum FillExtrusionPaintLayerFillExtrusionColor {
    Expr(Box<FillExtrusionPaintLayerFillExtrusionColorExpression>),
    Literal(JsonValue),
}

impl JsonDecode for FillExtrusionPaintLayerFillExtrusionColor {
    open spec fn accepts(v: Json) -> bool {
        FillExtrusionPaintLayerFillExtrusionColorExpression::accepts(v) || JsonValue::accepts(v)
    }

    open spec fn decodes(v: Json, x: Self) -> bool {
        match x {
            FillExtrusionPaintLayerFillExtrusionColor::Expr(t) => FillExtrusionPaintLayerFillExtrusionColorExpression::accepts(v) && FillExtrusionPaintLayerFillExtrusionColorExpression::decodes(v, *t),
            FillExtrusionPaintLayerFillExtrusionColor::Literal(t) => !FillExtrusionPaintLayerFillExtrusionColorExpression::accepts(v) && JsonValue::accepts(v) && JsonValue::decodes(v, t),
        }
    }

    open spec fn rejection(v: Json) -> Seq<char> {
        "FillExtrusionPaintLayerFillExtrusionColor: no variant matched. Expected Expr(FillExtrusionPaintLayerFillExtrusionColorExpression) | Literal(serde_json::Value). Errors: ["@ + "Expr: "@ + FillExtrusionPaintLayerFillExtrusionColorExpression::rejection(v) + "; Literal: "@ + JsonValue::rejection(v) + "]"@
    }

    fn decode(v: &JsonValue) -> (r: Result<Self, String>) {
        let e0 = match FillExtrusionPaintLayerFillExtrusionColorExpression::decode(v) {
            Ok(x) => {
                return Ok(FillExtrusionPaintLayerFillExtrusionColor::Expr(Box::new(x)));
            },
            Err(e) => e,
        };
        let e1 = match JsonValue::decode(v) {
            Ok(x) => {
                return Ok(FillExtrusionPaintLayerFillExtrusionColor::Literal(x));
            },
            Err(e) => e,
        };
        let mut m = "FillExtrusionPaintLayerFillExtrusionColor: no variant matched. Expected Expr(FillExtrusionPaintLayerFillExtrusionColorExpression) | Literal(serde_json::Value). Errors: [".to_string();
        m.append("Expr: ");
        m.append(e0.as_str());
        m.append("; Literal: ");
        m.append(e1.as_str());
        m.append("]");
        Err(m)
    }
}

impl JsonEncode for FillExtrusionPaintLayerFillExtrusionColor {
    open spec fn to_json(self) -> Json {
        match self {
            FillExtrusionPaintLayerFillExtrusionColor::Expr(t) => FillExtrusionPaintLayerFillExtrusionColorExpression::to_json(*t),
            FillExtrusionPaintLayerFillExtrusionColor::Literal(t) => JsonValue::to_json(t),
        }
    }

    open spec fn round_trips(self) -> bool {
        match self {
            FillExtrusionPaintLayerFillExtrusionColor::Expr(t) => FillExtrusionPaintLayerFillExtrusionColorExpression::round_trips(*t),
            FillExtrusionPaintLayerFillExtrusionColor::Literal(t) => JsonValue::round_trips(t) && !FillExtrusionPaintLayerFillExtrusionColorExpression::accepts(JsonValue::to_json(t)),
        }
    }

    fn encode(&self) -> (r: JsonValue) {
        match self {
            FillExtrusionPaintLayerFillExtrusionColor::Expr(t) => FillExtrusionPaintLayerFillExtrusionColorExpression::encode(&**t),
            FillExtrusionPaintLayerFillExtrusionColor::Literal(t) => JsonValue::encode(t),
        }
    }

    proof fn lemma_round_trip(self) {
        match self {
            FillExtrusionPaintLayerFillExtrusionColor::Expr(t) => FillExtrusionPaintLayerFillExtrusionColorExpression::lemma_round_trip(*t),
            FillExtrusionPaintLayerFillExtrusionColor::Literal(t) => JsonValue::lemma_round_trip(t),
        }
    }
}

impl Default for FillExtrusionPaintLayerFillExtrusionColor {
    fn default() -> (r: Self)
        ensures
            r.to_json() == Json::Str("#000000"@),
            r is Literal,
    {
        let r = FillExtrusionPaintLayerFillExtrusionColor::Literal(JsonValue::String("#000000".to_string()));
        r
    }
}

/// Nested expression: ramp (`interpolate` / …) or regular [`Number`] operators.
#[derive(PartialEq, Debug, Clone)]
pub enum FillExtrusionPaintLayerFillExtrusionHeightExpression {
    Number(Number),
    Ramp(NumberOrArrayOfNumberOrColorOrArrayOfColorOrProjection),
}

impl JsonDecode for FillExtrusionPaintLayerFillExtrusionHeightExpression {
    open spec fn accepts(v: Json) -> bool {
        Number::accepts(v) || NumberOrArrayOfNumberOrColorOrArrayOfColorOrProjection::accepts(v)
    }

    open spec fn decodes(v: Json, x: Self) -> bool {
        match x {
            FillExtrusionPaintLayerFillExtrusionHeightExpression::Number(t) => Number::accepts(v) && Number::decodes(v, t),
            FillExtrusionPaintLayerFillExtrusionHeightExpression::Ramp(t) => !Number::accepts(v) && NumberOrArrayOfNumberOrColorOrArrayOfColorOrProjection::accepts(v) && NumberOrArrayOfNumberOrColorOrArrayOfColorOrProjection::decodes(v, t),
        }
    }

    open spec fn rejection(v: Json) -> Seq<char> {
        "FillExtrusionPaintLayerFillExtrusionHeightExpression: no variant matched. Expected Number(Number) | Ramp(NumberOrArrayOfNumberOrColorOrArrayOfColorOrProjection). Errors: ["@ + "Number: "@ + Number::rejection(v) + "; Ramp: "@ + NumberOrArrayOfNumberOrColorOrArrayOfColorOrProjection::rejection(v) + "]"@
    }

    fn decode(v: &JsonValue) -> (r: Result<Self, String>) {
        let e0 = match Number::decode(v) {
            Ok(x) => {
                return Ok(FillExtrusionPaintLayerFillExtrusionHeightExpression::Number(x));
            },
            Err(e) => e,
        };
        let e1 = match NumberOrArrayOfNumberOrColorOrArrayOfColorOrProjection::decode(v) {
            Ok(x) => {
                return Ok(FillExtrusionPaintLayerFillExtrusionHeightExpression::Ramp(x));
            },
            Err(e) => e,
        };
        let mut m = "FillExtrusionPaintLayerFillExtrusionHeightExpression: no variant matched. Expected Number(Number) | Ramp(NumberOrArrayOfNumberOrColorOrArrayOfColorOrProjection). Errors: [".to_string();
        m.append("Number: ");
        m.append(e0.as_str());
        m.append("; Ramp: ");
        m.append(e1.as_str());
        m.append("]");
        Err(m)
    }
}

impl JsonEncode for FillExtrusionPaintLayerFillExtrusionHeightExpression {
    open spec fn to_json(self) -> Json {
        match self {
            FillExtrusionPaintLayerFillExtrusionHeightExpression::Number(t) => Number::to_json(t),
            FillExtrusionPaintLayerFillExtrusionHeightExpression::Ramp(t) => NumberOrArrayOfNumberOrColorOrArrayOfColorOrProjection::to_json(t),
        }
    }

    open spec fn round_trips(self) -> bool {
        match self {
            FillExtrusionPaintLayerFillExtrusionHeightExpression::Number(t) => Number::round_trips(t),
            FillExtrusionPaintLayerFillExtrusionHeightExpression::Ramp(t) => NumberOrArrayOfNumberOrColorOrArrayOfColorOrProjection::round_trips(t) && !Number::accepts(NumberOrArrayOfNumberOrColorOrArrayOfColorOrProjection::to_json(t)),
        }
    }

    fn encode(&self) -> (r: JsonValue) {
        match self {
            FillExtrusionPaintLayerFillExtrusionHeightExpression::Number(t) => Number::encode(t),
            FillExtrusionPaintLayerFillExtrusionHeightExpression::Ramp(t) => NumberOrArrayOfNumberOrColorOrArrayOfColorOrProjection::encode(t),
        }
    }

    proof fn lemma_round_trip(self) {
        match self {
            FillExtrusionPaintLayerFillExtrusionHeightExpression::Number(t) => Number::lemma_round_trip(t),
            FillExtrusionPaintLayerFillExtrusionHeightExpression::Ramp(t) => NumberOrArrayOfNumberOrColorOrArrayOfColorOrProjection::lemma_round_trip(t),
        }
    }
}

/// The height with which to extrude this layer.
#[derive(PartialEq, Debug, Clone)]
pub enum FillExtrusionPaintLayerFillExtrusionHeight {
    Expr(Box<FillExtrusionPaintLayerFillExtrusionHeightExpression>),
    Literal(JsonNumber),
}

impl JsonDecode for FillExtrusionPaintLayerFillExtrusionHeight {
    open spec fn accepts(v: Json) -> bool {
        FillExtrusionPaintLayerFillExtrusionHeightExpression::accepts(v) || JsonNumber::accepts(v)
    }

    open spec fn decodes(v: Json, x: Self) -> bool {
        match x {
            FillExtrusionPaintLayerFillExtrusionHeight::Expr(t) => FillExtrusionPaintLayerFillExtrusionHeightExpression::accepts(v) && FillExtrusionPaintLayerFillExtrusionHeightExpression::decodes(v, *t),
            FillExtrusionPaintLayerFillExtrusionHeight::Literal(t) => !FillExtrusionPaintLayerFillExtrusionHeightExpression::accepts(v) && JsonNumber::accepts(v) && JsonNumber::decodes(v, t),
        }
    }

    open spec fn rejection(v: Json) -> Seq<char> {
        "FillExtrusionPaintLayerFillExtrusionHeight: no variant matched. Expected Expr(FillExtrusionPaintLayerFillExtrusionHeightExpression) | Literal(serde_json::Number). Errors: ["@ + "Expr: "@ + FillExtrusionPaintLayerFillExtrusionHeightExpression::rejection(v) + "; Literal: "@ + JsonNumber::rejection(v) + "]"@
    }

    fn decode(v: &JsonValue) -> (r: Result<Self, String>) {
        let e0 = match FillExtrusionPaintLayerFillExtrusionHeightExpression::decode(v) {
            Ok(x) => {
                return Ok(FillExtrusionPaintLayerFillExtrusionHeight::Expr(Box::new(x)));
            },
            Err(e) => e,
        };
        let e1 = match JsonNumber::decode(v) {
            Ok(x) => {
                return Ok(FillExtrusionPaintLayerFillExtrusionHeight::Literal(x));
            },
            Err(e) => e,
        };
        let mut m = "FillExtrusionPaintLayerFillExtrusionHeight: no variant matched. Expected Expr(FillExtrusionPaintLayerFillExtrusionHeightExpression) | Literal(serde_json::Number). Errors: [".to_string();
        m.append("Expr: ");
        m.append(e0.as_str());
        m.append("; Literal: ");
        m.append(e1.as_str());
        m.append("]");
        Err(m)
    }
}

impl JsonEncode for FillExtrusionPaintLayerFillExtrusionHeight {
    open spec fn to_json(self) -> Json {
        match self {
            FillExtrusionPaintLayerFillExtrusionHeight::Expr(t) => FillExtrusionPaintLayerFillExtrusionHeightExpression::to_json(*t),
            FillExtrusionPaintLayerFillExtrusionHeight::Literal(t) => JsonNumber::to_json(t),
        }
    }

    open spec fn round_trips(self) -> bool {
        match self {
            FillExtrusionPaintLayerFillExtrusionHeight::Expr(t) => FillExtrusionPaintLayerFillExtrusionHeightExpression::round_trips(*t),
            FillExtrusionPaintLayerFillExtrusionHeight::Literal(t) => JsonNumber::round_trips(t) && !FillExtrusionPaintLayerFillExtrusionHeightExpression::accepts(JsonNumber::to_json(t)),
        }
    }

    fn encode(&self) -> (r: JsonValue) {
        match self {
            FillExtrusionPaintLayerFillExtrusionHeight::Expr(t) => FillExtrusionPaintLayerFillExtrusionHeightExpression::encode(&**t),
            FillExtrusionPaintLayerFillExtrusionHeight::Literal(t) => JsonNumber::encode(t),
        }
    }

    proof fn lemma_round_trip(self) {
        match self {
            FillExtrusionPaintLayerFillExtrusionHeight::Expr(t) => FillExtrusionPaintLayerFillExtrusionHeightExpression::lemma_round_trip(*t),
            FillExtrusionPaintLayerFillExtrusionHeight::Literal(t) => JsonNumber::lemma_round_trip(t),
        }
    }
}

impl Default for FillExtrusionPaintLayerFillExtrusionHeight {
    fn default() -> (r: Self)
        ensures
            r.to_json() == Json::Number("0"@),
            r is Literal,
    {
        let r = FillExtrusionPaintLayerFillExtrusionHeight::Literal(JsonNumber::from_literal("0"));
        r
    }
}

/// Nested expression: ramp (`interpolate` / …) or regular [`Number`] operators.
#[derive(PartialEq, Debug, Clone)]
pub enum FillExtrusionPaintLayerFillExtrusionOpacityExpression {
    Number(Number),
    Ramp(NumberOrArrayOfNumberOrColorOrArrayOfColorOrProjection),
}

impl JsonDecode for FillExtrusionPaintLayerFillExtrusionOpacityExpression {
    open spec fn accepts(v: Json) -> bool {
        Number::accepts(v) || NumberOrArrayOfNumberOrColorOrArrayOfColorOrProjection::accepts(v)
    }

    open spec fn decodes(v: Json, x: Self) -> bool {
        match x {
            FillExtrusionPaintLayerFillExtrusionOpacityExpression::Number(t) => Number::accepts(v) && Number::decodes(v, t),
            FillExtrusionPaintLayerFillExtrusionOpacityExpression::Ramp(t) => !Number::accepts(v) && NumberOrArrayOfNumberOrColorOrArrayOfColorOrProjection::accepts(v) && NumberOrArrayOfNumberOrColorOrArrayOfColorOrProjection::decodes(v, t),
        }
    }

    open spec fn rejection(v: Json) -> Seq<char> {
        "FillExtrusionPaintLayerFillExtrusionOpacityExpression: no variant matched. Expected Number(Number) | Ramp(NumberOrArrayOfNumberOrColorOrArrayOfColorOrProjection). Errors: ["@ + "Number: "@ + Number::rejection(v) + "; Ramp: "@ + NumberOrArrayOfNumberOrColorOrArrayOfColorOrProjection::rejection(v) + "]"@
    }

    fn decode(v: &JsonValue) -> (r: Result<Self, String>) {
        let e0 = match Number::decode(v) {
            Ok(x) => {
                return Ok(FillExtrusionPaintLayerFillExtrusionOpacityExpression::Number(x));
            },
            Err(e) => e,
        };
        let e1 = match NumberOrArrayOfNumberOrColorOrArrayOfColorOrProjection::decode(v) {
            Ok(x) => {
                return Ok(FillExtrusionPaintLayerFillExtrusionOpacityExpression::Ramp(x));
            },
            Err(e) => e,
        };
        let mut m = "FillExtrusionPaintLayerFillExtrusionOpacityExpression: no variant matched. Expected Number(Number) | Ramp(NumberOrArrayOfNumberOrColorOrArrayOfColorOrProjection). Errors: [".to_string();
        m.append("Number: ");
        m.append(e0.as_str());
        m.append("; Ramp: ");
        m.append(e1.as_str());
        m.append("]");
        Err(m)
    }
}

impl JsonEncode for FillExtrusionPaintLayerFillExtrusionOpacityExpression {
    open spec fn to_json(self) -> Json {
        match self {
            FillExtrusionPaintLayerFillExtrusionOpacityExpression::Number(t) => Number::to_json(t),
            FillExtrusionPaintLayerFillExtrusionOpacityExpression::Ramp(t) => NumberOrArrayOfNumberOrColorOrArrayOfColorOrProjection::to_json(t),
        }
    }

    open spec fn round_trips(self) -> bool {
        match self {
            FillExtrusionPaintLayerFillExtrusionOpacityExpression::Number(t) => Number::round_trips(t),
            FillExtrusionPaintLayerFillExtrusionOpacityExpression::Ramp(t) => NumberOrArrayOfNumberOrColorOrArrayOfColorOrProjection::round_trips(t) && !Number::accepts(NumberOrArrayOfNumberOrColorOrArrayOfColorOrProjection::to_json(t)),
        }
    }

    fn encode(&self) -> (r: JsonValue) {
        match self {
            FillExtrusionPaintLayerFillExtrusionOpacityExpression::Number(t) => Number::encode(t),
            FillExtrusionPaintLayerFillExtrusionOpacityExpression::Ramp(t) => NumberOrArrayOfNumberOrColorOrArrayOfColorOrProjection::encode(t),
        }
    }

    proof fn lemma_round_trip(self) {
        match self {
            FillExtrusionPaintLayerFillExtrusionOpacityExpression::Number(t) => Number::lemma_round_trip(t),
            FillExtrusionPaintLayerFillExtrusionOpacityExpression::Ramp(t) => NumberOrArrayOfNumberOrColorOrArrayOfColorOrProjection::lemma_round_trip(t),
        }
    }
}

/// The opacity of the entire fill extrusion layer. This is rendered on a per-layer, not per-feature, basis, and data-driven styling is not available.
#[derive(PartialEq, Debug, Clone)]
pub enum FillExtrusionPaintLayerFillExtrusionOpacity {
    Expr(Box<FillExtrusionPaintLayerFillExtrusionOpacityExpression>),
    Literal(JsonNumber),
}

impl JsonDecode for FillExtrusionPaintLayerFillExtrusionOpacity {
    open spec fn accepts(v: Json) -> bool {
        FillExtrusionPaintLayerFillExtrusionOpacityExpression::accepts(v) || JsonNumber::accepts(v)
    }

    open spec fn decodes(v: Json, x: Self) -> bool {
        match x {
            FillExtrusionPaintLayerFillExtrusionOpacity::Expr(t) => FillExtrusionPaintLayerFillExtrusionOpacityExpression::accepts(v) && FillExtrusionPaintLayerFillExtrusionOpacityExpression::decodes(v, *t),
            FillExtrusionPaintLayerFillExtrusionOpacity::Literal(t) => !FillExtrusionPaintLayerFillExtrusionOpacityExpression::accepts(v) && JsonNumber::accepts(v) && JsonNumber::decodes(v, t),
        }
    }

    open spec fn rejection(v: Json) -> Seq<char> {
        "FillExtrusionPaintLayerFillExtrusionOpacity: no variant matched. Expected Expr(FillExtrusionPaintLayerFillExtrusionOpacityExpression) | Literal(serde_json::Number). Errors: ["@ + "Expr: "@ + FillExtrusionPaintLayerFillExtrusionOpacityExpression::rejection(v) + "; Literal: "@ + JsonNumber::rejection(v) + "]"@
    }

    fn decode(v: &JsonValue) -> (r: Result<Self, String>) {
        let e0 = match FillExtrusionPaintLayerFillExtrusionOpacityExpression::decode(v) {
            Ok(x) => {
                return Ok(FillExtrusionPaintLayerFillExtrusionOpacity::Expr(Box::new(x)));
            },
            Err(e) => e,
        };
        let e1 = match JsonNumber::decode(v) {
            Ok(x) => {
                return Ok(FillExtrusionPaintLayerFillExtrusionOpacity::Literal(x));
            },
            Err(e) => e,
        };
        let mut m = "FillExtrusionPaintLayerFillExtrusionOpacity: no variant matched. Expected Expr(FillExtrusionPaintLayerFillExtrusionOpacityExpression) | Literal(serde_json::Number). Errors: [".to_string();
        m.append("Expr: ");
        m.append(e0.as_str());
        m.append("; Literal: ");
        m.append(e1.as_str());
        m.append("]");
        Err(m)
    }
}

impl JsonEncode for FillExtrusionPaintLayerFillExtrusionOpacity {
    open spec fn to_json(self) -> Json {
        match self {
            FillExtrusionPaintLayerFillExtrusionOpacity::Expr(t) => FillExtrusionPaintLayerFillExtrusionOpacityExpression::to_json(*t),
            FillExtrusionPaintLayerFillExtrusionOpacity::Literal(t) => JsonNumber::to_json(t),
        }
    }

    open spec fn round_trips(self) -> bool {
        match self {
            FillExtrusionPaintLayerFillExtrusionOpacity::Expr(t) => FillExtrusionPaintLayerFillExtrusionOpacityExpression::round_trips(*t),
            FillExtrusionPaintLayerFillExtrusionOpacity::Literal(t) => JsonNumber::round_trips(t) && !FillExtrusionPaintLayerFillExtrusionOpacityExpression::accepts(JsonNumber::to_json(t)),
        }
    }

    fn encode(&self) -> (r: JsonValue) {
        match self {
            FillExtrusionPaintLayerFillExtrusionOpacity::Expr(t) => FillExtrusionPaintLayerFillExtrusionOpacityExpression::encode(&**t),
            FillExtrusionPaintLayerFillExtrusionOpacity::Literal(t) => JsonNumber::encode(t),
        }
    }

    proof fn lemma_round_trip(self) {
        match self {
            FillExtrusionPaintLayerFillExtrusionOpacity::Expr(t) => FillExtrusionPaintLayerFillExtrusionOpacityExpression::lemma_round_trip(*t),
            FillExtrusionPaintLayerFillExtrusionOpacity::Literal(t) => JsonNumber::lemma_round_trip(t),
        }
    }
}

impl Default for FillExtrusionPaintLayerFillExtrusionOpacity {
    fn default() -> (r: Self)
        ensures
            r.to_json() == Json::Number("1"@),
            r is Literal,
    {
        let r = FillExtrusionPaintLayerFillExtrusionOpacity::Literal(JsonNumber::from_literal("1"));
        r
    }
}

/// Name of image in sprite to use for drawing images on extruded fills. For seamless patterns, image width and height must be a factor of two (2, 4, 8, ..., 512). Note that zoom-dependent expressions will be evaluated only at integer zoom levels.
#[derive(PartialEq, Eq, Debug, Clone)]
pub struct FillExtrusionPaintLayerFillExtrusionPattern(String);

impl View for FillExtrusionPaintLayerFillExtrusionPattern {
    type V = Seq<char>;

    closed spec fn view(&self) -> Seq<char> {
        self.0@
    }
}

impl JsonDecode for FillExtrusionPaintLayerFillExtrusionPattern {
    open spec fn accepts(v: Json) -> bool {
        v is Str
    }

    open spec fn decodes(v: Json, x: Self) -> bool {
        v == Json::Str(x@)
    }

    open spec fn rejection(v: Json) -> Seq<char> {
        String::rejection(v)
    }

    fn decode(v: &JsonValue) -> (r: Result<Self, String>) {
        match String::decode(v) {
            Ok(x) => Ok(FillExtrusionPaintLayerFillExtrusionPattern(x)),
            Err(e) => Err(e),
        }
    }
}

impl JsonEncode for FillExtrusionPaintLayerFillExtrusionPattern {
    open spec fn to_json(self) -> Json {
        Json::Str(self@)
    }

    open spec fn round_trips(self) -> bool {
        true
    }

    fn encode(&self) -> (r: JsonValue) {
        String::encode(&self.0)
    }

    proof fn lemma_round_trip(self) {
        String::lemma_round_trip(self.0);
    }
}

/// The geometry's offset. Values are [x, y] where negatives indicate left and up (on the flat plane), respectively.
#[derive(PartialEq, Debug, Clone)]
pub struct FillExtrusionPaintLayerFillExtrusionTranslate(Box<[JsonNumber; 2]>);

impl JsonDecode for FillExtrusionPaintLayerFillExtrusionTranslate {
    closed spec fn accepts(v: Json) -> bool {
        <[JsonNumber; 2] as JsonDecode>::accepts(v)
    }

    closed spec fn decodes(v: Json, x: Self) -> bool {
        <[JsonNumber; 2] as JsonDecode>::decodes(v, *x.0)
    }

    closed spec fn rejection(v: Json) -> Seq<char> {
        <[JsonNumber; 2] as JsonDecode>::rejection(v)
    }

    fn decode(v: &JsonValue) -> (r: Result<Self, String>) {
        match <[JsonNumber; 2] as JsonDecode>::decode(v) {
            Ok(x) => Ok(FillExtrusionPaintLayerFillExtrusionTranslate(Box::new(x))),
            Err(e) => Err(e),
        }
    }
}

impl JsonEncode for FillExtrusionPaintLayerFillExtrusionTranslate {
    closed spec fn to_json(self) -> Json {
        <[JsonNumber; 2] as JsonEncode>::to_json((*self.0))
    }

    closed spec fn round_trips(self) -> bool {
        <[JsonNumber; 2] as JsonEncode>::round_trips((*self.0))
    }

    fn encode(&self) -> (r: JsonValue) {
        <[JsonNumber; 2] as JsonEncode>::encode(&(*self.0))
    }

    proof fn lemma_round_trip(self) {
        <[JsonNumber; 2] as JsonEncode>::lemma_round_trip((*self.0));
    }
}

impl Default for FillExtrusionPaintLayerFillExtrusionTranslate {
    fn default() -> (r: Self)
        ensures
            r.to_json() == Json::Array(seq![Json::Number("0"@), Json::Number("0"@)]),
    {
        let r = FillExtrusionPaintLayerFillExtrusionTranslate(Box::new([JsonNumber::from_literal("0"), JsonNumber::from_literal("0")]));
        proof {
            assert(r.to_json() =~~= Json::Array(seq![Json::Number("0"@), Json::Number("0"@)]));
        }
        r
    }
}

/// Controls the frame of reference for `fill-extrusion-translate`.
#[derive(PartialEq, Eq, Debug, Clone, Copy)]
pub enum FillExtrusionPaintLayerFillExtrusionTranslateAnchor {
    MapValue,
    Viewport,
}

impl FillExtrusionPaintLayerFillExtrusionTranslateAnchor {
    /// The name that stands for the value in a style document.
    pub open spec fn spec_name(self) -> Seq<char> {
        match self {
            FillExtrusionPaintLayerFillExtrusionTranslateAnchor::MapValue => "map"@,
            FillExtrusionPaintLayerFillExtrusionTranslateAnchor::Viewport => "viewport"@,
        }
    }

    /// The name that stands for the value in a style document.
    pub fn name(&self) -> (r: &'static str)
        ensures
            r@ == self.spec_name(),
    {
        match self {
            FillExtrusionPaintLayerFillExtrusionTranslateAnchor::MapValue => "map",
            FillExtrusionPaintLayerFillExtrusionTranslateAnchor::Viewport => "viewport",
        }
    }

    /// The value that a name stands for, if any.
    pub fn from_name(s: &str) -> (r: Option<FillExtrusionPaintLayerFillExtrusionTranslateAnchor>)
        ensures
            r matches Some(x) ==> x.spec_name() == s@,
            r is None ==> forall|x: FillExtrusionPaintLayerFillExtrusionTranslateAnchor| x.spec_name() != s@,
    {
        if str_eq(s, "map") {
            Some(FillExtrusionPaintLayerFillExtrusionTranslateAnchor::MapValue)
        } else if str_eq(s, "viewport") {
            Some(FillExtrusionPaintLayerFillExtrusionTranslateAnchor::Viewport)
        } else {
            None
        }
    }
}

impl FillExtrusionPaintLayerFillExtrusionTranslateAnchor {
    /// Each value is read from, and written as, the name that the style specification gives
    /// it, and a document holding one of these names reads as that value and no other.
    pub proof fn lemma_read_by_name()
        ensures
            <FillExtrusionPaintLayerFillExtrusionTranslateAnchor as JsonEncode>::to_json(FillExtrusionPaintLayerFillExtrusionTranslateAnchor::Viewport) == Json::Str("viewport"@),
            forall|x: FillExtrusionPaintLayerFillExtrusionTranslateAnchor| <FillExtrusionPaintLayerFillExtrusionTranslateAnchor as JsonDecode>::decodes(Json::Str("viewport"@), x) <==> x == FillExtrusionPaintLayerFillExtrusionTranslateAnchor::Viewport,
            forall|x: FillExtrusionPaintLayerFillExtrusionTranslateAnchor| <FillExtrusionPaintLayerFillExtrusionTranslateAnchor as JsonDecode>::decodes(Json::Str("map"@), x) <==> x == FillExtrusionPaintLayerFillExtrusionTranslateAnchor::MapValue,
            <FillExtrusionPaintLayerFillExtrusionTranslateAnchor as JsonEncode>::to_json(FillExtrusionPaintLayerFillExtrusionTranslateAnchor::MapValue) == Json::Str("map"@),
    {
        reveal_strlit("viewport");
        reveal_strlit("map");
        assert("map"@.len() != "viewport"@.len());
    }
}

impl JsonDecode for FillExtrusionPaintLayerFillExtrusionTranslateAnchor {
    /// The name of a value, or an object whose one entry has the name as its key and `null`.
    open spec fn accepts(v: Json) -> bool {
        ||| (v is Str && exists|x: FillExtrusionPaintLayerFillExtrusionTranslateAnchor| x.spec_name() == v->Str_0)
        ||| (v is Object && v->Object_0.len() == 1 && v->Object_0[0].1 is Null && exists|x: FillExtrusionPaintLayerFillExtrusionTranslateAnchor| x.spec_name() == v->Object_0[0].0)
    }

    open spec fn decodes(v: Json, x: Self) -> bool {
        ||| v == Json::Str(x.spec_name())
        ||| (v is Object && v->Object_0.len() == 1 && v->Object_0[0] == (x.spec_name(), Json::Null))
    }

    open spec fn rejection(v: Json) -> Seq<char> {
        if v is Str {
            unknown_variant(v->Str_0) + ", expected `map` or `viewport`"@
        } else if v is Object {
            let o = v->Object_0;
            if o.len() != 1 {
                "invalid value: map, expected map with a single key"@
            } else if !(exists|x: FillExtrusionPaintLayerFillExtrusionTranslateAnchor| x.spec_name() == o[0].0) {
                unknown_variant(o[0].0) + ", expected `map` or `viewport`"@
            } else {
                type_error(o[0].1, "unit"@)
            }
        } else {
            type_error(v, "string or map"@)
        }
    }

    fn decode(v: &JsonValue) -> (r: Result<Self, String>) {
        match v {
            JsonValue::String(s) => match Self::from_name(s.as_str()) {
                Some(x) => Ok(x),
                None => {
                    let mut m = make_unknown_variant(s.as_str());
                    m.append(", expected `map` or `viewport`");
                    Err(m)
                },
            },
            JsonValue::Object(fields) => {
                if fields.len() != 1 {
                    return Err("invalid value: map, expected map with a single key".to_string());
                }
                proof {
                    assert(entries_model(*fields)[0] == (fields@[0].0@, fields@[0].1.model()));
                }
                match Self::from_name(fields[0].0.as_str()) {
                    Some(x) => match &fields[0].1 {
                        JsonValue::Null => Ok(x),
                        _ => Err(make_type_error(&fields[0].1, "unit")),
                    },
                    None => {
                        let mut m = make_unknown_variant(fields[0].0.as_str());
                        m.append(", expected `map` or `viewport`");
                        Err(m)
                    },
                }
            },
            _ => Err(make_type_error(v, "string or map")),
        }
    }
}

impl JsonEncode for FillExtrusionPaintLayerFillExtrusionTranslateAnchor {
    open spec fn to_json(self) -> Json {
        Json::Str(self.spec_name())
    }

    open spec fn round_trips(self) -> bool {
        true
    }

    fn encode(&self) -> (r: JsonValue) {
        JsonValue::String(self.name().to_string())
    }

    proof fn lemma_round_trip(self) {
    }
}

impl Default for FillExtrusionPaintLayerFillExtrusionTranslateAnchor {
    fn default() -> (r: Self)
        ensures
            r == FillExtrusionPaintLayerFillExtrusionTranslateAnchor::MapValue,
    {
        FillExtrusionPaintLayerFillExtrusionTranslateAnchor::MapValue
    }
}

/// Whether to apply a vertical gradient to the sides of a fill-extrusion layer. If true, sides will be shaded slightly darker farther down.
#[derive(PartialEq, Debug, Clone, Copy)]
pub struct FillExtrusionPaintLayerFillExtrusionVerticalGradient(bool);

impl View for FillExtrusionPaintLayerFillExtrusionVerticalGradient {
    type V = bool;

    closed spec fn view(&self) -> bool {
        self.0
    }
}

impl JsonDecode for FillExtrusionPaintLayerFillExtrusionVerticalGradient {
    open spec fn accepts(v: Json) -> bool {
        v is Bool
    }

    open spec fn decodes(v: Json, x: Self) -> bool {
        v == Json::Bool(x@)
    }

    open spec fn rejection(v: Json) -> Seq<char> {
        bool::rejection(v)
    }

    fn decode(v: &JsonValue) -> (r: Result<Self, String>) {
        match bool::decode(v) {
            Ok(x) => Ok(FillExtrusionPaintLayerFillExtrusionVerticalGradient(x)),
            Err(e) => Err(e),
        }
    }
}

impl JsonEncode for FillExtrusionPaintLayerFillExtrusionVerticalGradient {
    open spec fn to_json(self) -> Json {
        Json::Bool(self@)
    }

    open spec fn round_trips(self) -> bool {
        true
    }

    fn encode(&self) -> (r: JsonValue) {
        bool::encode(&self.0)
    }

    proof fn lemma_round_trip(self) {
        bool::lemma_round_trip(self.0);
    }
}

impl Default for FillExtrusionPaintLayerFillExtrusionVerticalGradient {
    fn default() -> (r: Self)
        ensures
            r.to_json() == Json::Bool(true),
    {
        let r = FillExtrusionPaintLayerFillExtrusionVerticalGradient(true);
        r
    }
}

#[derive(PartialEq, Debug, Clone)]
pub struct HeatmapLayoutLayer {
    /// Whether this layer is displayed.
    pub visibility: Option<HeatmapLayoutLayerVisibility>,
}

impl JsonDecode for HeatmapLayoutLayer {
    /// An object with the fields by their keys, or an array with the fields in order.
    open spec fn accepts(v: Json) -> bool {
        ||| (v is Object && {
            let o = v->Object_0;
            &&& opt_field_accepts::<HeatmapLayoutLayerVisibility>(o, "visibility"@)
        })
        ||| (v is Array && {
            let a = v->Array_0;
            &&& seq_opt_accepts::<HeatmapLayoutLayerVisibility>(a, 0, true)
            &&& a.len() <= 1
        })
    }

    open spec fn decodes(v: Json, x: Self) -> bool {
        ||| (v is Object && {
            let o = v->Object_0;
            &&& opt_field_decodes::<HeatmapLayoutLayerVisibility>(o, "visibility"@, x.visibility)
        })
        ||| (v is Array && {
            let a = v->Array_0;
            &&& seq_opt_decodes::<HeatmapLayoutLayerVisibility>(a, 0, x.visibility)
        })
    }

    /// For an object, the first entry in order whose value does not read as its field, else the
    /// first required field that is missing.
    open spec fn rejection(v: Json) -> Seq<char> {
        if v is Object {
            let o = v->Object_0;
            match Self::first_fault(o, 0) {
                Some(m) => m,
                None => {
                    Seq::empty()
                },
            }
        } else if v is Array {
            let a = v->Array_0;
            if !seq_opt_accepts::<HeatmapLayoutLayerVisibility>(a, 0, true) {
                seq_opt_rejection::<HeatmapLayoutLayerVisibility>(a, 0, "struct HeatmapLayoutLayer with 1 element"@)
            } else if a.len() > 1 {
                length_error(a.len())
            } else {
                Seq::empty()
            }
        } else {
            type_error(v, "struct HeatmapLayoutLayer"@)
        }
    }

    fn decode(v: &JsonValue) -> (r: Result<Self, String>) {
        match v {
            JsonValue::Object(fields) => {
                let visibility = match decode_opt_field::<HeatmapLayoutLayerVisibility>(fields, "visibility") {
                    Ok(x) => x,
                    Err(_) => return Err(Self::object_rejection(fields)),
                };
                Ok(HeatmapLayoutLayer { visibility })
            },
            JsonValue::Array(a) => {
                let visibility = match decode_seq_opt::<HeatmapLayoutLayerVisibility>(a, 0, true, "struct HeatmapLayoutLayer with 1 element") {
                    Ok(x) => x,
                    Err(e) => return Err(e),
                };
                if a.len() > 1 {
                    return Err(make_length_error(a.len()));
                }
                Ok(HeatmapLayoutLayer { visibility })
            },
            _ => Err(make_type_error(v, "struct HeatmapLayoutLayer")),
        }
    }
}

impl HeatmapLayoutLayer {
    /// What is wrong with the value `w` of an entry with key `k`, where `k` is the key of a field.
    pub open spec fn field_fault(k: Seq<char>, w: Json) -> Option<Seq<char>> {
        if k == "visibility"@ {
            if w is Null || HeatmapLayoutLayerVisibility::accepts(w) {
                None
            } else {
                Some(HeatmapLayoutLayerVisibility::rejection(w))
            }
        } else {
            None
        }
    }

    /// The message of the first entry of `o`, from entry `i` on and among the first entries of
    /// their keys, whose value does not read as its field, if any.
    pub open spec fn first_fault(o: Seq<(Seq<char>, Json)>, i: int) -> Option<Seq<char>>
        decreases o.len() - i,
    {
        if i < 0 || i >= o.len() {
            None
        } else if first_with_key(o, i) && Self::field_fault(o[i].0, o[i].1) is Some {
            Self::field_fault(o[i].0, o[i].1)
        } else {
            Self::first_fault(o, i + 1)
        }
    }

    fn find_field_fault(k: &str, w: &JsonValue) -> (r: Option<String>)
        ensures
            match r {
                Some(m) => Self::field_fault(k@, w.model()) == Some(m@),
                None => Self::field_fault(k@, w.model()) is None,
            },
    {
        if str_eq(k, "visibility") {
            match w {
                JsonValue::Null => None,
                _ => match HeatmapLayoutLayerVisibility::decode(w) {
                    Ok(_) => None,
                    Err(e) => Some(e),
                },
            }
        } else {
            None
        }
    }

    fn object_rejection(fields: &Vec<(String, JsonValue)>) -> (r: String)
        ensures
            r@ == Self::rejection(JsonValue::Object(*fields).model()),
    {
        let ghost o = entries_model(*fields);
        let mut i: usize = 0;
        while i < fields.len()
            invariant
                o == entries_model(*fields),
                o.len() == fields.len(),
                i <= fields.len(),
                Self::first_fault(o, 0) == Self::first_fault(o, i as int),
            decreases fields.len() - i,
        {
            proof {
                assert(o[i as int] == (fields@[i as int].0@, fields@[i as int].1.model()));
            }
            if !key_seen_before(fields, i) {
                match Self::find_field_fault(fields[i].0.as_str(), &fields[i].1) {
                    Some(m) => {
                        return m;
                    },
                    None => {},
                }
            }
            i += 1;
        }
        String::new()
    }
}

impl HeatmapLayoutLayer {
    /// The keys of the fields, in order.
    pub open spec fn field_keys() -> Seq<Seq<char>> {
        seq!["visibility"@]
    }

    /// The entries that each field is written as, in order.
    pub open spec fn field_entries(self) -> Seq<Seq<(Seq<char>, Json)>> {
        seq![opt_entry::<HeatmapLayoutLayerVisibility>("visibility"@, self.visibility)]
    }

    proof fn lemma_keys_differ(i: int)
        requires
            0 <= i < 1,
        ensures
            others_differ(Self::field_keys(), i),
    {
        reveal_strlit("visibility");
        assert("visibility"@.len() == 10);
    }
}

impl JsonEncode for HeatmapLayoutLayer {
    open spec fn to_json(self) -> Json {
        Json::Object(self.field_entries().flatten())
    }

    open spec fn round_trips(self) -> bool {
        &&& (self.visibility matches Some(t) ==> t.round_trips() && !(t.to_json() is Null))
    }

    fn encode(&self) -> (r: JsonValue) {
        let mut out: Vec<(String, JsonValue)> = Vec::new();
        let ghost s0 = Seq::<Seq<(Seq<char>, Json)>>::empty();
        proof {
            assert(entries_model(out) =~= s0.flatten());
        }
        push_opt_entry::<HeatmapLayoutLayerVisibility>(&mut out, "visibility", &self.visibility);
        let ghost s1 = s0.push(opt_entry::<HeatmapLayoutLayerVisibility>("visibility"@, self.visibility));
        proof {
            s0.lemma_flatten_push(opt_entry::<HeatmapLayoutLayerVisibility>("visibility"@, self.visibility));
            assert(entries_model(out) =~= s1.flatten());
        }
        proof {
            assert(self.field_entries() == s1);
        }
        JsonValue::Object(out)
    }

    proof fn lemma_round_trip(self) {
        let keys = Self::field_keys();
        let es = self.field_entries();
        assert(keyed_by(es, keys));
        Self::lemma_keys_differ(0);
        lemma_lookup_flatten(es, keys, 0);
        lemma_lookup_opt_entry::<HeatmapLayoutLayerVisibility>("visibility"@, self.visibility, "visibility"@);
        if self.visibility is Some {
            self.visibility->0.lemma_round_trip();
        }
    }
}

/// Whether this layer is displayed.
#[derive(PartialEq, Eq, Debug, Clone, Copy)]
pub enum HeatmapLayoutLayerVisibility {
    NoneValue,
    Visible,
}

impl HeatmapLayoutLayerVisibility {
    /// The name that stands for the value in a style document.
    pub open spec fn spec_name(self) -> Seq<char> {
        match self {
            HeatmapLayoutLayerVisibility::NoneValue => "none"@,
            HeatmapLayoutLayerVisibility::Visible => "visible"@,
        }
    }

    /// The name that stands for the value in a style document.
    pub fn name(&self) -> (r: &'static str)
        ensures
            r@ == self.spec_name(),
    {
        match self {
            HeatmapLayoutLayerVisibility::NoneValue => "none",
            HeatmapLayoutLayerVisibility::Visible => "visible",
        }
    }

    /// The value that a name stands for, if any.
    pub fn from_name(s: &str) -> (r: Option<HeatmapLayoutLayerVisibility>)
        ensures
            r matches Some(x) ==> x.spec_name() == s@,
            r is None ==> forall|x: HeatmapLayoutLayerVisibility| x.spec_name() != s@,
    {
        if str_eq(s, "none") {
            Some(HeatmapLayoutLayerVisibility::NoneValue)
        } else if str_eq(s, "visible") {
            Some(HeatmapLayoutLayerVisibility::Visible)
        } else {
            None
        }
    }
}

impl HeatmapLayoutLayerVisibility {
    /// Each value is read from, and written as, the name that the style specification gives
    /// it, and a document holding one of these names reads as that value and no other.
    pub proof fn lemma_read_by_name()
        ensures
            <HeatmapLayoutLayerVisibility as JsonEncode>::to_json(HeatmapLayoutLayerVisibility::NoneValue) == Json::Str("none"@),
            forall|x: HeatmapLayoutLayerVisibility| <HeatmapLayoutLayerVisibility as JsonDecode>::decodes(Json::Str("none"@), x) <==> x == HeatmapLayoutLayerVisibility::NoneValue,
            forall|x: HeatmapLayoutLayerVisibility| <HeatmapLayoutLayerVisibility as JsonDecode>::decodes(Json::Str("visible"@), x) <==> x == HeatmapLayoutLayerVisibility::Visible,
            <HeatmapLayoutLayerVisibility as JsonEncode>::to_json(HeatmapLayoutLayerVisibility::Visible) == Json::Str("visible"@),
    {
        reveal_strlit("visible");
        reveal_strlit("none");
        assert("none"@.len() != "visible"@.len());
    }
}

impl JsonDecode for HeatmapLayoutLayerVisibility {
    /// The name of a value, or an object whose one entry has the name as its key and `null`.
    open spec fn accepts(v: Json) -> bool {
        ||| (v is Str && exists|x: HeatmapLayoutLayerVisibility| x.spec_name() == v->Str_0)
        ||| (v is Object && v->Object_0.len() == 1 && v->Object_0[0].1 is Null && exists|x: HeatmapLayoutLayerVisibility| x.spec_name() == v->Object_0[0].0)
    }

    open spec fn decodes(v: Json, x: Self) -> bool {
        ||| v == Json::Str(x.spec_name())
        ||| (v is Object && v->Object_0.len() == 1 && v->Object_0[0] == (x.spec_name(), Json::Null))
    }

    open spec fn rejection(v: Json) -> Seq<char> {
        if v is Str {
            unknown_variant(v->Str_0) + ", expected `none` or `visible`"@
        } else if v is Object {
            let o = v->Object_0;
            if o.len() != 1 {
                "invalid value: map, expected map with a single key"@
            } else if !(exists|x: HeatmapLayoutLayerVisibility| x.spec_name() == o[0].0) {
                unknown_variant(o[0].0) + ", expected `none` or `visible`"@
            } else {
                type_error(o[0].1, "unit"@)
            }
        } else {
            type_error(v, "string or map"@)
        }
    }

    fn decode(v: &JsonValue) -> (r: Result<Self, String>) {
        match v {
            JsonValue::String(s) => match Self::from_name(s.as_str()) {
                Some(x) => Ok(x),
                None => {
                    let mut m = make_unknown_variant(s.as_str());
                    m.append(", expected `none` or `visible`");
                    Err(m)
                },
            },
            JsonValue::Object(fields) => {
                if fields.len() != 1 {
                    return Err("invalid value: map, expected map with a single key".to_string());
                }
                proof {
                    assert(entries_model(*fields)[0] == (fields@[0].0@, fields@[0].1.model()));
                }
                match Self::from_name(fields[0].0.as_str()) {
                    Some(x) => match &fields[0].1 {
                        JsonValue::Null => Ok(x),
                        _ => Err(make_type_error(&fields[0].1, "unit")),
                    },
                    None => {
                        let mut m = make_unknown_variant(fields[0].0.as_str());
                        m.append(", expected `none` or `visible`");
                        Err(m)
                    },
                }
            },
            _ => Err(make_type_error(v, "string or map")),
        }
    }
}

impl JsonEncode for HeatmapLayoutLayerVisibility {
    open spec fn to_json(self) -> Json {
        Json::Str(self.spec_name())
    }

    open spec fn round_trips(self) -> bool {
        true
    }

    fn encode(&self) -> (r: JsonValue) {
        JsonValue::String(self.name().to_string())
    }

    proof fn lemma_round_trip(self) {
    }
}

impl Default for HeatmapLayoutLayerVisibility {
    fn default() -> (r: Self)
        ensures
            r == HeatmapLayoutLayerVisibility::Visible,
    {
        HeatmapLayoutLayerVisibility::Visible
    }
}

#[derive(PartialEq, Debug, Clone)]
pub struct HeatmapPaintLayer {
    /// Defines the color of each pixel based on its density value in a heatmap.  Should be an expression that uses `["heatmap-density"]` as input.
    pub heatmap_color: Option<HeatmapPaintLayerHeatmapColor>,
    /// Similar to `heatmap-weight` but controls the intensity of the heatmap globally. Primarily used for adjusting the heatmap based on zoom level.
    pub heatmap_intensity: Option<HeatmapPaintLayerHeatmapIntensity>,
    /// The global opacity at which the heatmap layer will be drawn.
    pub heatmap_opacity: Option<HeatmapPaintLayerHeatmapOpacity>,
    /// Radius of influence of one heatmap point in pixels. Increasing the value makes the heatmap smoother, but less detailed.
    pub heatmap_radius: Option<HeatmapPaintLayerHeatmapRadius>,
    /// A measure of how much an individual point contributes to the heatmap. A value of 10 would be equivalent to having 10 points of weight 1 in the same spot. Especially useful when combined with clustering.
    pub heatmap_weight: Option<HeatmapPaintLayerHeatmapWeight>,
}

impl JsonDecode for HeatmapPaintLayer {
    /// An object with the fields by their keys, or an array with the fields in order.
    open spec fn accepts(v: Json) -> bool {
        ||| (v is Object && {
            let o = v->Object_0;
            &&& opt_field_accepts::<HeatmapPaintLayerHeatmapColor>(o, "heatmap-color"@)
            &&& opt_field_accepts::<HeatmapPaintLayerHeatmapIntensity>(o, "heatmap-intensity"@)
            &&& opt_field_accepts::<HeatmapPaintLayerHeatmapOpacity>(o, "heatmap-opacity"@)
            &&& opt_field_accepts::<HeatmapPaintLayerHeatmapRadius>(o, "heatmap-radius"@)
            &&& opt_field_accepts::<HeatmapPaintLayerHeatmapWeight>(o, "heatmap-weight"@)
        })
        ||| (v is Array && {
            let a = v->Array_0;
            &&& seq_opt_accepts::<HeatmapPaintLayerHeatmapColor>(a, 0, true)
            &&& seq_opt_accepts::<HeatmapPaintLayerHeatmapIntensity>(a, 1, true)
            &&& seq_opt_accepts::<HeatmapPaintLayerHeatmapOpacity>(a, 2, true)
            &&& seq_opt_accepts::<HeatmapPaintLayerHeatmapRadius>(a, 3, true)
            &&& seq_opt_accepts::<HeatmapPaintLayerHeatmapWeight>(a, 4, true)
            &&& a.len() <= 5
        })
    }

    open spec fn decodes(v: Json, x: Self) -> bool {
        ||| (v is Object && {
            let o = v->Object_0;
            &&& opt_field_decodes::<HeatmapPaintLayerHeatmapColor>(o, "heatmap-color"@, x.heatmap_color)
            &&& opt_field_decodes::<HeatmapPaintLayerHeatmapIntensity>(o, "heatmap-intensity"@, x.heatmap_intensity)
            &&& opt_field_decodes::<HeatmapPaintLayerHeatmapOpacity>(o, "heatmap-opacity"@, x.heatmap_opacity)
            &&& opt_field_decodes::<HeatmapPaintLayerHeatmapRadius>(o, "heatmap-radius"@, x.heatmap_radius)
            &&& opt_field_decodes::<HeatmapPaintLayerHeatmapWeight>(o, "heatmap-weight"@, x.heatmap_weight)
        })
        ||| (v is Array && {
            let a = v->Array_0;
            &&& seq_opt_decodes::<HeatmapPaintLayerHeatmapColor>(a, 0, x.heatmap_color)
            &&& seq_opt_decodes::<HeatmapPaintLayerHeatmapIntensity>(a, 1, x.heatmap_intensity)
            &&& seq_opt_decodes::<HeatmapPaintLayerHeatmapOpacity>(a, 2, x.heatmap_opacity)
            &&& seq_opt_decodes::<HeatmapPaintLayerHeatmapRadius>(a, 3, x.heatmap_radius)
            &&& seq_opt_decodes::<HeatmapPaintLayerHeatmapWeight>(a, 4, x.heatmap_weight)
        })
    }

    /// For an object, the first entry in order whose value does not read as its field, else the
    /// first required field that is missing.
    open spec fn rejection(v: Json) -> Seq<char> {
        if v is Object {
            let o = v->Object_0;
            match Self::first_fault(o, 0) {
                Some(m) => m,
                None => {
                    Seq::empty()
                },
            }
        } else if v is Array {
            let a = v->Array_0;
            if !seq_opt_accepts::<HeatmapPaintLayerHeatmapColor>(a, 0, true) {
                seq_opt_rejection::<HeatmapPaintLayerHeatmapColor>(a, 0, "struct HeatmapPaintLayer with 5 elements"@)
            } else if !seq_opt_accepts::<HeatmapPaintLayerHeatmapIntensity>(a, 1, true) {
                seq_opt_rejection::<HeatmapPaintLayerHeatmapIntensity>(a, 1, "struct HeatmapPaintLayer with 5 elements"@)
            } else if !seq_opt_accepts::<HeatmapPaintLayerHeatmapOpacity>(a, 2, true) {
                seq_opt_rejection::<HeatmapPaintLayerHeatmapOpacity>(a, 2, "struct HeatmapPaintLayer with 5 elements"@)
            } else if !seq_opt_accepts::<HeatmapPaintLayerHeatmapRadius>(a, 3, true) {
                seq_opt_rejection::<HeatmapPaintLayerHeatmapRadius>(a, 3, "struct HeatmapPaintLayer with 5 elements"@)
            } else if !seq_opt_accepts::<HeatmapPaintLayerHeatmapWeight>(a, 4, true) {
                seq_opt_rejection::<HeatmapPaintLayerHeatmapWeight>(a, 4, "struct HeatmapPaintLayer with 5 elements"@)
            } else if a.len() > 5 {
                length_error(a.len())
            } else {
                Seq::empty()
            }
        } else {
            type_error(v, "struct HeatmapPaintLayer"@)
        }
    }

    fn decode(v: &JsonValue) -> (r: Result<Self, String>) {
        match v {
            JsonValue::Object(fields) => {
                let heatmap_color = match decode_opt_field::<HeatmapPaintLayerHeatmapColor>(fields, "heatmap-color") {
                    Ok(x) => x,
                    Err(_) => return Err(Self::object_rejection(fields)),
                };
                let heatmap_intensity = match decode_opt_field::<HeatmapPaintLayerHeatmapIntensity>(fields, "heatmap-intensity") {
                    Ok(x) => x,
                    Err(_) => return Err(Self::object_rejection(fields)),
                };
                let heatmap_opacity = match decode_opt_field::<HeatmapPaintLayerHeatmapOpacity>(fields, "heatmap-opacity") {
                    Ok(x) => x,
                    Err(_) => return Err(Self::object_rejection(fields)),
                };
                let heatmap_radius = match decode_opt_field::<HeatmapPaintLayerHeatmapRadius>(fields, "heatmap-radius") {
                    Ok(x) => x,
                    Err(_) => return Err(Self::object_rejection(fields)),
                };
                let heatmap_weight = match decode_opt_field::<HeatmapPaintLayerHeatmapWeight>(fields, "heatmap-weight") {
                    Ok(x) => x,
                    Err(_) => return Err(Self::object_rejection(fields)),
                };
                Ok(HeatmapPaintLayer { heatmap_color, heatmap_intensity, heatmap_opacity, heatmap_radius, heatmap_weight })
            },
            JsonValue::Array(a) => {
                let heatmap_color = match decode_seq_opt::<HeatmapPaintLayerHeatmapColor>(a, 0, true, "struct HeatmapPaintLayer with 5 elements") {
                    Ok(x) => x,
                    Err(e) => return Err(e),
                };
                let heatmap_intensity = match decode_seq_opt::<HeatmapPaintLayerHeatmapIntensity>(a, 1, true, "struct HeatmapPaintLayer with 5 elements") {
                    Ok(x) => x,
                    Err(e) => return Err(e),
                };
                let heatmap_opacity = match decode_seq_opt::<HeatmapPaintLayerHeatmapOpacity>(a, 2, true, "struct HeatmapPaintLayer with 5 elements") {
                    Ok(x) => x,
                    Err(e) => return Err(e),
                };
                let heatmap_radius = match decode_seq_opt::<HeatmapPaintLayerHeatmapRadius>(a, 3, true, "struct HeatmapPaintLayer with 5 elements") {
                    Ok(x) => x,
                    Err(e) => return Err(e),
                };
                let heatmap_weight = match decode_seq_opt::<HeatmapPaintLayerHeatmapWeight>(a, 4, true, "struct HeatmapPaintLayer with 5 elements") {
                    Ok(x) => x,
                    Err(e) => return Err(e),
                };
                if a.len() > 5 {
                    return Err(make_length_error(a.len()));
                }
                Ok(HeatmapPaintLayer { heatmap_color, heatmap_intensity, heatmap_opacity, heatmap_radius, heatmap_weight })
            },
            _ => Err(make_type_error(v, "struct HeatmapPaintLayer")),
        }
    }
}

impl HeatmapPaintLayer {
    /// What is wrong with the value `w` of an entry with key `k`, where `k` is the key of a field.
    pub open spec fn field_fault(k: Seq<char>, w: Json) -> Option<Seq<char>> {
        if k == "heatmap-color"@ {
            if w is Null || HeatmapPaintLayerHeatmapColor::accepts(w) {
                None
            } else {
                Some(HeatmapPaintLayerHeatmapColor::rejection(w))
            }
        } else if k == "heatmap-intensity"@ {
            if w is Null || HeatmapPaintLayerHeatmapIntensity::accepts(w) {
                None
            } else {
                Some(HeatmapPaintLayerHeatmapIntensity::rejection(w))
            }
        } else if k == "heatmap-opacity"@ {
            if w is Null || HeatmapPaintLayerHeatmapOpacity::accepts(w) {
                None
            } else {
                Some(HeatmapPaintLayerHeatmapOpacity::rejection(w))
            }
        } else if k == "heatmap-radius"@ {
            if w is Null || HeatmapPaintLayerHeatmapRadius::accepts(w) {
                None
            } else {
                Some(HeatmapPaintLayerHeatmapRadius::rejection(w))
            }
        } else if k == "heatmap-weight"@ {
            if w is Null || HeatmapPaintLayerHeatmapWeight::accepts(w) {
                None
            } else {
                Some(HeatmapPaintLayerHeatmapWeight::rejection(w))
            }
        } else {
            None
        }
    }

    /// The message of the first entry of `o`, from entry `i` on and among the first entries of
    /// their keys, whose value does not read as its field, if any.
    pub open spec fn first_fault(o: Seq<(Seq<char>, Json)>, i: int) -> Option<Seq<char>>
        decreases o.len() - i,
    {
        if i < 0 || i >= o.len() {
            None
        } else if first_with_key(o, i) && Self::field_fault(o[i].0, o[i].1) is Some {
            Self::field_fault(o[i].0, o[i].1)
        } else {
            Self::first_fault(o, i + 1)
        }
    }

    fn find_field_fault(k: &str, w: &JsonValue) -> (r: Option<String>)
        ensures
            match r {
                Some(m) => Self::field_fault(k@, w.model()) == Some(m@),
                None => Self::field_fault(k@, w.model()) is None,
            },
    {
        if str_eq(k, "heatmap-color") {
            match w {
                JsonValue::Null => None,
                _ => match HeatmapPaintLayerHeatmapColor::decode(w) {
                    Ok(_) => None,
                    Err(e) => Some(e),
                },
            }
        } else if str_eq(k, "heatmap-intensity") {
            match w {
                JsonValue::Null => None,
                _ => match HeatmapPaintLayerHeatmapIntensity::decode(w) {
                    Ok(_) => None,
                    Err(e) => Some(e),
                },
            }
        } else if str_eq(k, "heatmap-opacity") {
            match w {
                JsonValue::Null => None,
                _ => match HeatmapPaintLayerHeatmapOpacity::decode(w) {
                    Ok(_) => None,
                    Err(e) => Some(e),
                },
            }
        } else if str_eq(k, "heatmap-radius") {
            match w {
                JsonValue::Null => None,
                _ => match HeatmapPaintLayerHeatmapRadius::decode(w) {
                    Ok(_) => None,
                    Err(e) => Some(e),
                },
            }
        } else if str_eq(k, "heatmap-weight") {
            match w {
                JsonValue::Null => None,
                _ => match HeatmapPaintLayerHeatmapWeight::decode(w) {
                    Ok(_) => None,
                    Err(e) => Some(e),
                },
            }
        } else {
            None
        }
    }

    fn object_rejection(fields: &Vec<(String, JsonValue)>) -> (r: String)
        ensures
            r@ == Self::rejection(JsonValue::Object(*fields).model()),
    {
        let ghost o = entries_model(*fields);
        let mut i: usize = 0;
        while i < fields.len()
            invariant
                o == entries_model(*fields),
                o.len() == fields.len(),
                i <= fields.len(),
                Self::first_fault(o, 0) == Self::first_fault(o, i as int),
            decreases fields.len() - i,
        {
            proof {
                assert(o[i as int] == (fields@[i as int].0@, fields@[i as int].1.model()));
            }
            if !key_seen_before(fields, i) {
                match Self::find_field_fault(fields[i].0.as_str(), &fields[i].1) {
                    Some(m) => {
                        return m;
                    },
                    None => {},
                }
            }
            i += 1;
        }
        String::new()
    }
}

impl HeatmapPaintLayer {
    /// The keys of the fields, in order.
    pub open spec fn field_keys() -> Seq<Seq<char>> {
        seq!["heatmap-color"@, "heatmap-intensity"@, "heatmap-opacity"@, "heatmap-radius"@, "heatmap-weight"@]
    }

    /// The entries that each field is written as, in order.
    pub open spec fn field_entries(self) -> Seq<Seq<(Seq<char>, Json)>> {
        seq![opt_entry::<HeatmapPaintLayerHeatmapColor>("heatmap-color"@, self.heatmap_color), opt_entry::<HeatmapPaintLayerHeatmapIntensity>("heatmap-intensity"@, self.heatmap_intensity), opt_entry::<HeatmapPaintLayerHeatmapOpacity>("heatmap-opacity"@, self.heatmap_opacity), opt_entry::<HeatmapPaintLayerHeatmapRadius>("heatmap-radius"@, self.heatmap_radius), opt_entry::<HeatmapPaintLayerHeatmapWeight>("heatmap-weight"@, self.heatmap_weight)]
    }

    proof fn lemma_keys_differ(i: int)
        requires
            0 <= i < 5,
        ensures
            others_differ(Self::field_keys(), i),
    {
        reveal_strlit("heatmap-color");
        assert("heatmap-color"@.len() == 13);
        reveal_strlit("heatmap-intensity");
        assert("heatmap-intensity"@.len() == 17);
        reveal_strlit("heatmap-opacity");
        assert("heatmap-opacity"@.len() == 15);
        reveal_strlit("heatmap-radius");
        assert("heatmap-radius"@.len() == 14);
        reveal_strlit("heatmap-weight");
        assert("heatmap-weight"@.len() == 14);
        assert("heatmap-radius"@[8] != "heatmap-weight"@[8]);
    }
}

impl JsonEncode for HeatmapPaintLayer {
    open spec fn to_json(self) -> Json {
        Json::Object(self.field_entries().flatten())
    }

    open spec fn round_trips(self) -> bool {
        &&& (self.heatmap_color matches Some(t) ==> t.round_trips() && !(t.to_json() is Null))
        &&& (self.heatmap_intensity matches Some(t) ==> t.round_trips() && !(t.to_json() is Null))
        &&& (self.heatmap_opacity matches Some(t) ==> t.round_trips() && !(t.to_json() is Null))
        &&& (self.heatmap_radius matches Some(t) ==> t.round_trips() && !(t.to_json() is Null))
        &&& (self.heatmap_weight matches Some(t) ==> t.round_trips() && !(t.to_json() is Null))
    }

    #[verifier::rlimit(30)]
    fn encode(&self) -> (r: JsonValue) {
        let mut out: Vec<(String, JsonValue)> = Vec::new();
        let ghost s0 = Seq::<Seq<(Seq<char>, Json)>>::empty();
        proof {
            assert(entries_model(out) =~= s0.flatten());
        }
        push_opt_entry::<HeatmapPaintLayerHeatmapColor>(&mut out, "heatmap-color", &self.heatmap_color);
        let ghost s1 = s0.push(opt_entry::<HeatmapPaintLayerHeatmapColor>("heatmap-color"@, self.heatmap_color));
        proof {
            s0.lemma_flatten_push(opt_entry::<HeatmapPaintLayerHeatmapColor>("heatmap-color"@, self.heatmap_color));
            assert(entries_model(out) =~= s1.flatten());
        }
        push_opt_entry::<HeatmapPaintLayerHeatmapIntensity>(&mut out, "heatmap-intensity", &self.heatmap_intensity);
        let ghost s2 = s1.push(opt_entry::<HeatmapPaintLayerHeatmapIntensity>("heatmap-intensity"@, self.heatmap_intensity));
        proof {
            s1.lemma_flatten_push(opt_entry::<HeatmapPaintLayerHeatmapIntensity>("heatmap-intensity"@, self.heatmap_intensity));
            assert(entries_model(out) =~= s2.flatten());
        }
        push_opt_entry::<HeatmapPaintLayerHeatmapOpacity>(&mut out, "heatmap-opacity", &self.heatmap_opacity);
        let ghost s3 = s2.push(opt_entry::<HeatmapPaintLayerHeatmapOpacity>("heatmap-opacity"@, self.heatmap_opacity));
        proof {
            s2.lemma_flatten_push(opt_entry::<HeatmapPaintLayerHeatmapOpacity>("heatmap-opacity"@, self.heatmap_opacity));
            assert(entries_model(out) =~= s3.flatten());
        }
        push_opt_entry::<HeatmapPaintLayerHeatmapRadius>(&mut out, "heatmap-radius", &self.heatmap_radius);
        let ghost s4 = s3.push(opt_entry::<HeatmapPaintLayerHeatmapRadius>("heatmap-radius"@, self.heatmap_radius));
        proof {
            s3.lemma_flatten_push(opt_entry::<HeatmapPaintLayerHeatmapRadius>("heatmap-radius"@, self.heatmap_radius));
            assert(entries_model(out) =~= s4.flatten());
        }
        push_opt_entry::<HeatmapPaintLayerHeatmapWeight>(&mut out, "heatmap-weight", &self.heatmap_weight);
        let ghost s5 = s4.push(opt_entry::<HeatmapPaintLayerHeatmapWeight>("heatmap-weight"@, self.heatmap_weight));
        proof {
            s4.lemma_flatten_push(opt_entry::<HeatmapPaintLayerHeatmapWeight>("heatmap-weight"@, self.heatmap_weight));
            assert(entries_model(out) =~= s5.flatten());
        }
        proof {
            assert(self.field_entries() == s5);
        }
        JsonValue::Object(out)
    }

    #[verifier::rlimit(30)]
    proof fn lemma_round_trip(self) {
        let keys = Self::field_keys();
        let es = self.field_entries();
        assert(keyed_by(es, keys));
        Self::lemma_keys_differ(0);
        lemma_lookup_flatten(es, keys, 0);
        lemma_lookup_opt_entry::<HeatmapPaintLayerHeatmapColor>("heatmap-color"@, self.heatmap_color, "heatmap-color"@);
        if self.heatmap_color is Some {
            self.heatmap_color->0.lemma_round_trip();
        }
        Self::lemma_keys_differ(1);
        lemma_lookup_flatten(es, keys, 1);
        lemma_lookup_opt_entry::<HeatmapPaintLayerHeatmapIntensity>("heatmap-intensity"@, self.heatmap_intensity, "heatmap-intensity"@);
        if self.heatmap_intensity is Some {
            self.heatmap_intensity->0.lemma_round_trip();
        }
        Self::lemma_keys_differ(2);
        lemma_lookup_flatten(es, keys, 2);
        lemma_lookup_opt_entry::<HeatmapPaintLayerHeatmapOpacity>("heatmap-opacity"@, self.heatmap_opacity, "heatmap-opacity"@);
        if self.heatmap_opacity is Some {
            self.heatmap_opacity->0.lemma_round_trip();
        }
        Self::lemma_keys_differ(3);
        lemma_lookup_flatten(es, keys, 3);
        lemma_lookup_opt_entry::<HeatmapPaintLayerHeatmapRadius>("heatmap-radius"@, self.heatmap_radius, "heatmap-radius"@);
        if self.heatmap_radius is Some {
            self.heatmap_radius->0.lemma_round_trip();
        }
        Self::lemma_keys_differ(4);
        lemma_lookup_flatten(es, keys, 4);
        lemma_lookup_opt_entry::<HeatmapPaintLayerHeatmapWeight>("heatmap-weight"@, self.heatmap_weight, "heatmap-weight"@);
        if self.heatmap_weight is Some {
            self.heatmap_weight->0.lemma_round_trip();
        }
    }
}

/// Nested expression: ramp (`interpolate-hcl`, …) or [`Color`] operators.
#[derive(PartialEq, Debug, Clone)]
pub enum HeatmapPaintLayerHeatmapColorExpression {
    Color(Color),
    Ramp(ColorOrArrayOfColor),
}

impl JsonDecode for HeatmapPaintLayerHeatmapColorExpression {
    open spec fn accepts(v: Json) -> bool {
        Color::accepts(v) || ColorOrArrayOfColor::accepts(v)
    }

    open spec fn decodes(v: Json, x: Self) -> bool {
        match x {
            HeatmapPaintLayerHeatmapColorExpression::Color(t) => Color::accepts(v) && Color::decodes(v, t),
            HeatmapPaintLayerHeatmapColorExpression::Ramp(t) => !Color::accepts(v) && ColorOrArrayOfColor::accepts(v) && ColorOrArrayOfColor::decodes(v, t),
        }
    }

    open spec fn rejection(v: Json) -> Seq<char> {
        "HeatmapPaintLayerHeatmapColorExpression: no variant matched. Expected Color(Color) | Ramp(ColorOrArrayOfColor). Errors: ["@ + "Color: "@ + Color::rejection(v) + "; Ramp: "@ + ColorOrArrayOfColor::rejection(v) + "]"@
    }

    fn decode(v: &JsonValue) -> (r: Result<Self, String>) {
        let e0 = match Color::decode(v) {
            Ok(x) => {
                return Ok(HeatmapPaintLayerHeatmapColorExpression::Color(x));
            },
            Err(e) => e,
        };
        let e1 = match ColorOrArrayOfColor::decode(v) {
            Ok(x) => {
                return Ok(HeatmapPaintLayerHeatmapColorExpression::Ramp(x));
            },
            Err(e) => e,
        };
        let mut m = "HeatmapPaintLayerHeatmapColorExpression: no variant matched. Expected Color(Color) | Ramp(ColorOrArrayOfColor). Errors: [".to_string();
        m.append("Color: ");
        m.append(e0.as_str());
        m.append("; Ramp: ");
        m.append(e1.as_str());
        m.append("]");
        Err(m)
    }
}

impl JsonEncode for HeatmapPaintLayerHeatmapColorExpression {
    open spec fn to_json(self) -> Json {
        match self {
            HeatmapPaintLayerHeatmapColorExpression::Color(t) => Color::to_json(t),
            HeatmapPaintLayerHeatmapColorExpression::Ramp(t) => ColorOrArrayOfColor::to_json(t),
        }
    }

    open spec fn round_trips(self) -> bool {
        match self {
            HeatmapPaintLayerHeatmapColorExpression::Color(t) => Color::round_trips(t),
            HeatmapPaintLayerHeatmapColorExpression::Ramp(t) => ColorOrArrayOfColor::round_trips(t) && !Color::accepts(ColorOrArrayOfColor::to_json(t)),
        }
    }

    fn encode(&self) -> (r: JsonValue) {
        match self {
            HeatmapPaintLayerHeatmapColorExpression::Color(t) => Color::encode(t),
            HeatmapPaintLayerHeatmapColorExpression::Ramp(t) => ColorOrArrayOfColor::encode(t),
        }
    }

    proof fn lemma_round_trip(self) {
        match self {
            HeatmapPaintLayerHeatmapColorExpression::Color(t) => Color::lemma_round_trip(t),
            HeatmapPaintLayerHeatmapColorExpression::Ramp(t) => ColorOrArrayOfColor::lemma_round_trip(t),
        }
    }
}

/// Defines the color of each pixel based on its density value in a heatmap.  Should be an expression that uses `["heatmap-density"]` as input.
#[derive(PartialEq, Debug, Clone)]
pub enum HeatmapPaintLayerHeatmapColor {
    Expr(Box<HeatmapPaintLayerHeatmapColorExpression>),
    Literal(JsonValue),
}

impl JsonDecode for HeatmapPaintLayerHeatmapColor {
    open spec fn accepts(v: Json) -> bool {
        HeatmapPaintLayerHeatmapColorExpression::accepts(v) || JsonValue::accepts(v)
    }

    open spec fn decodes(v: Json, x: Self) -> bool {
        match x {
            HeatmapPaintLayerHeatmapColor::Expr(t) => HeatmapPaintLayerHeatmapColorExpression::accepts(v) && HeatmapPaintLayerHeatmapColorExpression::decodes(v, *t),
            HeatmapPaintLayerHeatmapColor::Literal(t) => !HeatmapPaintLayerHeatmapColorExpression::accepts(v) && JsonValue::accepts(v) && JsonValue::decodes(v, t),
        }
    }

    open spec fn rejection(v: Json) -> Seq<char> {
        "HeatmapPaintLayerHeatmapColor: no variant matched. Expected Expr(HeatmapPaintLayerHeatmapColorExpression) | Literal(serde_json::Value). Errors: ["@ + "Expr: "@ + HeatmapPaintLayerHeatmapColorExpression::rejection(v) + "; Literal: "@ + JsonValue::rejection(v) + "]"@
    }

    fn decode(v: &JsonValue) -> (r: Result<Self, String>) {
        let e0 = match HeatmapPaintLayerHeatmapColorExpression::decode(v) {
            Ok(x) => {
                return Ok(HeatmapPaintLayerHeatmapColor::Expr(Box::new(x)));
            },
            Err(e) => e,
        };
        let e1 = match JsonValue::decode(v) {
            Ok(x) => {
                return Ok(HeatmapPaintLayerHeatmapColor::Literal(x));
            },
            Err(e) => e,
        };
        let mut m = "HeatmapPaintLayerHeatmapColor: no variant matched. Expected Expr(HeatmapPaintLayerHeatmapColorExpression) | Literal(serde_json::Value). Errors: [".to_string();
        m.append("Expr: ");
        m.append(e0.as_str());
        m.append("; Literal: ");
        m.append(e1.as_str());
        m.append("]");
        Err(m)
    }
}

impl JsonEncode for HeatmapPaintLayerHeatmapColor {
    open spec fn to_json(self) -> Json {
        match self {
            HeatmapPaintLayerHeatmapColor::Expr(t) => HeatmapPaintLayerHeatmapColorExpression::to_json(*t),
            HeatmapPaintLayerHeatmapColor::Literal(t) => JsonValue::to_json(t),
        }
    }

    open spec fn round_trips(self) -> bool {
        match self {
            HeatmapPaintLayerHeatmapColor::Expr(t) => HeatmapPaintLayerHeatmapColorExpression::round_trips(*t),
            HeatmapPaintLayerHeatmapColor::Literal(t) => JsonValue::round_trips(t) && !HeatmapPaintLayerHeatmapColorExpression::accepts(JsonValue::to_json(t)),
        }
    }

    fn encode(&self) -> (r: JsonValue) {
        match self {
            HeatmapPaintLayerHeatmapColor::Expr(t) => HeatmapPaintLayerHeatmapColorExpression::encode(&**t),
            HeatmapPaintLayerHeatmapColor::Literal(t) => JsonValue::encode(t),
        }
    }

    proof fn lemma_round_trip(self) {
        match self {
            HeatmapPaintLayerHeatmapColor::Expr(t) => HeatmapPaintLayerHeatmapColorExpression::lemma_round_trip(*t),
            HeatmapPaintLayerHeatmapColor::Literal(t) => JsonValue::lemma_round_trip(t),
        }
    }
}

impl Default for HeatmapPaintLayerHeatmapColor {
    fn default() -> (r: Self)
        ensures
            r.to_json() == Json::Array(seq![Json::Str("interpolate"@), Json::Array(seq![Json::Str("linear"@)]), Json::Array(seq![Json::Str("heatmap-density"@)]), Json::Number("0"@), Json::Str("rgba(0, 0, 255, 0)"@), Json::Number("0.1"@), Json::Str("royalblue"@), Json::Number("0.3"@), Json::Str("cyan"@), Json::Number("0.5"@), Json::Str("lime"@), Json::Number("0.7"@), Json::Str("yellow"@), Json::Number("1"@), Json::Str("red"@)]),
            r is Literal,
    {
        let d2 = JsonValue::String("interpolate".to_string());
        let d4 = JsonValue::String("linear".to_string());
        let mut d3: Vec<JsonValue> = Vec::new();
        d3.push(d4);
        proof { assert(d3@[0].model() == Json::Str("linear"@)); }
        let d5 = JsonValue::Array(d3);
        proof { assert(d5.model()->Array_0 =~= seq![Json::Str("linear"@)]); }
        let d7 = JsonValue::String("heatmap-density".to_string());
        let mut d6: Vec<JsonValue> = Vec::new();
        d6.push(d7);
        proof { assert(d6@[0].model() == Json::Str("heatmap-density"@)); }
        let d8 = JsonValue::Array(d6);
        proof { assert(d8.model()->Array_0 =~= seq![Json::Str("heatmap-density"@)]); }
        let d9 = JsonValue::Number(JsonNumber::from_literal("0"));
        let d10 = JsonValue::String("rgba(0, 0, 255, 0)".to_string());
        let d11 = JsonValue::Number(JsonNumber::from_literal("0.1"));
        let d12 = JsonValue::String("royalblue".to_string());
        let d13 = JsonValue::Number(JsonNumber::from_literal("0.3"));
        let d14 = JsonValue::String("cyan".to_string());
        let d15 = JsonValue::Number(JsonNumber::from_literal("0.5"));
        let d16 = JsonValue::String("lime".to_string());
        let d17 = JsonValue::Number(JsonNumber::from_literal("0.7"));
        let d18 = JsonValue::String("yellow".to_string());
        let d19 = JsonValue::Number(JsonNumber::from_literal("1"));
        let d20 = JsonValue::String("red".to_string());
        let mut d1: Vec<JsonValue> = Vec::new();
        d1.push(d2);
        d1.push(d5);
        d1.push(d8);
        d1.push(d9);
        d1.push(d10);
        d1.push(d11);
        d1.push(d12);
        d1.push(d13);
        d1.push(d14);
        d1.push(d15);
        d1.push(d16);
        d1.push(d17);
        d1.push(d18);
        d1.push(d19);
        d1.push(d20);
        proof { assert(d1@[0].model() == Json::Str("interpolate"@)); assert(d1@[1].model() == Json::Array(seq![Json::Str("linear"@)])); assert(d1@[2].model() == Json::Array(seq![Json::Str("heatmap-density"@)])); assert(d1@[3].model() == Json::Number("0"@)); assert(d1@[4].model() == Json::Str("rgba(0, 0, 255, 0)"@)); assert(d1@[5].model() == Json::Number("0.1"@)); assert(d1@[6].model() == Json::Str("royalblue"@)); assert(d1@[7].model() == Json::Number("0.3"@)); assert(d1@[8].model() == Json::Str("cyan"@)); assert(d1@[9].model() == Json::Number("0.5"@)); assert(d1@[10].model() == Json::Str("lime"@)); assert(d1@[11].model() == Json::Number("0.7"@)); assert(d1@[12].model() == Json::Str("yellow"@)); assert(d1@[13].model() == Json::Number("1"@)); assert(d1@[14].model() == Json::Str("red"@)); }
        let d21 = JsonValue::Array(d1);
        proof { assert(d21.model()->Array_0 =~= seq![Json::Str("interpolate"@), Json::Array(seq![Json::Str("linear"@)]), Json::Array(seq![Json::Str("heatmap-density"@)]), Json::Number("0"@), Json::Str("rgba(0, 0, 255, 0)"@), Json::Number("0.1"@), Json::Str("royalblue"@), Json::Number("0.3"@), Json::Str("cyan"@), Json::Number("0.5"@), Json::Str("lime"@), Json::Number("0.7"@), Json::Str("yellow"@), Json::Number("1"@), Json::Str("red"@)]); }
        let r = HeatmapPaintLayerHeatmapColor::Literal(d21);
        r
    }
}

/// Nested expression: ramp (`interpolate` / …) or regular [`Number`] operators.
#[derive(PartialEq, Debug, Clone)]
pub enum HeatmapPaintLayerHeatmapIntensityExpression {
    Number(Number),
    Ramp(NumberOrArrayOfNumberOrColorOrArrayOfColorOrProjection),
}

impl JsonDecode for HeatmapPaintLayerHeatmapIntensityExpression {
    open spec fn accepts(v: Json) -> bool {
        Number::accepts(v) || NumberOrArrayOfNumberOrColorOrArrayOfColorOrProjection::accepts(v)
    }

    open spec fn decodes(v: Json, x: Self) -> bool {
        match x {
            HeatmapPaintLayerHeatmapIntensityExpression::Number(t) => Number::accepts(v) && Number::decodes(v, t),
            HeatmapPaintLayerHeatmapIntensityExpression::Ramp(t) => !Number::accepts(v) && NumberOrArrayOfNumberOrColorOrArrayOfColorOrProjection::accepts(v) && NumberOrArrayOfNumberOrColorOrArrayOfColorOrProjection::decodes(v, t),
        }
    }

    open spec fn rejection(v: Json) -> Seq<char> {
        "HeatmapPaintLayerHeatmapIntensityExpression: no variant matched. Expected Number(Number) | Ramp(NumberOrArrayOfNumberOrColorOrArrayOfColorOrProjection). Errors: ["@ + "Number: "@ + Number::rejection(v) + "; Ramp: "@ + NumberOrArrayOfNumberOrColorOrArrayOfColorOrProjection::rejection(v) + "]"@
    }

    fn decode(v: &JsonValue) -> (r: Result<Self, String>) {
        let e0 = match Number::decode(v) {
            Ok(x) => {
                return Ok(HeatmapPaintLayerHeatmapIntensityExpression::Number(x));
            },
            Err(e) => e,
        };
        let e1 = match NumberOrArrayOfNumberOrColorOrArrayOfColorOrProjection::decode(v) {
            Ok(x) => {
                return Ok(HeatmapPaintLayerHeatmapIntensityExpression::Ramp(x));
            },
            Err(e) => e,
        };
        let mut m = "HeatmapPaintLayerHeatmapIntensityExpression: no variant matched. Expected Number(Number) | Ramp(NumberOrArrayOfNumberOrColorOrArrayOfColorOrProjection). Errors: [".to_string();
        m.append("Number: ");
        m.append(e0.as_str());
        m.append("; Ramp: ");
        m.append(e1.as_str());
        m.append("]");
        Err(m)
    }
}

impl JsonEncode for HeatmapPaintLayerHeatmapIntensityExpression {
    open spec fn to_json(self) -> Json {
        match self {
            HeatmapPaintLayerHeatmapIntensityExpression::Number(t) => Number::to_json(t),
            HeatmapPaintLayerHeatmapIntensityExpression::Ramp(t) => NumberOrArrayOfNumberOrColorOrArrayOfColorOrProjection::to_json(t),
        }
    }

    open spec fn round_trips(self) -> bool {
        match self {
            HeatmapPaintLayerHeatmapIntensityExpression::Number(t) => Number::round_trips(t),
            HeatmapPaintLayerHeatmapIntensityExpression::Ramp(t) => NumberOrArrayOfNumberOrColorOrArrayOfColorOrProjection::round_trips(t) && !Number::accepts(NumberOrArrayOfNumberOrColorOrArrayOfColorOrProjection::to_json(t)),
        }
    }

    fn encode(&self) -> (r: JsonValue) {
        match self {
            HeatmapPaintLayerHeatmapIntensityExpression::Number(t) => Number::encode(t),
            HeatmapPaintLayerHeatmapIntensityExpression::Ramp(t) => NumberOrArrayOfNumberOrColorOrArrayOfColorOrProjection::encode(t),
        }
    }

    proof fn lemma_round_trip(self) {
        match self {
            HeatmapPaintLayerHeatmapIntensityExpression::Number(t) => Number::lemma_round_trip(t),
            HeatmapPaintLayerHeatmapIntensityExpression::Ramp(t) => NumberOrArrayOfNumberOrColorOrArrayOfColorOrProjection::lemma_round_trip(t),
        }
    }
}

/// Similar to `heatmap-weight` but controls the intensity of the heatmap globally. Primarily used for adjusting the heatmap based on zoom level.
#[derive(PartialEq, Debug, Clone)]
pub enum HeatmapPaintLayerHeatmapIntensity {
    Expr(Box<HeatmapPaintLayerHeatmapIntensityExpression>),
    Literal(JsonNumber),
}

impl JsonDecode for HeatmapPaintLayerHeatmapIntensity {
    open spec fn accepts(v: Json) -> bool {
        HeatmapPaintLayerHeatmapIntensityExpression::accepts(v) || JsonNumber::accepts(v)
    }

    open spec fn decodes(v: Json, x: Self) -> bool {
        match x {
            HeatmapPaintLayerHeatmapIntensity::Expr(t) => HeatmapPaintLayerHeatmapIntensityExpression::accepts(v) && HeatmapPaintLayerHeatmapIntensityExpression::decodes(v, *t),
            HeatmapPaintLayerHeatmapIntensity::Literal(t) => !HeatmapPaintLayerHeatmapIntensityExpression::accepts(v) && JsonNumber::accepts(v) && JsonNumber::decodes(v, t),
        }
    }

    open spec fn rejection(v: Json) -> Seq<char> {
        "HeatmapPaintLayerHeatmapIntensity: no variant matched. Expected Expr(HeatmapPaintLayerHeatmapIntensityExpression) | Literal(serde_json::Number). Errors: ["@ + "Expr: "@ + HeatmapPaintLayerHeatmapIntensityExpression::rejection(v) + "; Literal: "@ + JsonNumber::rejection(v) + "]"@
    }

    fn decode(v: &JsonValue) -> (r: Result<Self, String>) {
        let e0 = match HeatmapPaintLayerHeatmapIntensityExpression::decode(v) {
            Ok(x) => {
                return Ok(HeatmapPaintLayerHeatmapIntensity::Expr(Box::new(x)));
            },
            Err(e) => e,
        };
        let e1 = match JsonNumber::decode(v) {
            Ok(x) => {
                return Ok(HeatmapPaintLayerHeatmapIntensity::Literal(x));
            },
            Err(e) => e,
        };
        let mut m = "HeatmapPaintLayerHeatmapIntensity: no variant matched. Expected Expr(HeatmapPaintLayerHeatmapIntensityExpression) | Literal(serde_json::Number). Errors: [".to_string();
        m.append("Expr: ");
        m.append(e0.as_str());
        m.append("; Literal: ");
        m.append(e1.as_str());
        m.append("]");
        Err(m)
    }
}

impl JsonEncode for HeatmapPaintLayerHeatmapIntensity {
    open spec fn to_json(self) -> Json {
        match self {
            HeatmapPaintLayerHeatmapIntensity::Expr(t) => HeatmapPaintLayerHeatmapIntensityExpression::to_json(*t),
            HeatmapPaintLayerHeatmapIntensity::Literal(t) => JsonNumber::to_json(t),
        }
    }

    open spec fn round_trips(self) -> bool {
        match self {
            HeatmapPaintLayerHeatmapIntensity::Expr(t) => HeatmapPaintLayerHeatmapIntensityExpression::round_trips(*t),
            HeatmapPaintLayerHeatmapIntensity::Literal(t) => JsonNumber::round_trips(t) && !HeatmapPaintLayerHeatmapIntensityExpression::accepts(JsonNumber::to_json(t)),
        }
    }

    fn encode(&self) -> (r: JsonValue) {
        match self {
            HeatmapPaintLayerHeatmapIntensity::Expr(t) => HeatmapPaintLayerHeatmapIntensityExpression::encode(&**t),
            HeatmapPaintLayerHeatmapIntensity::Literal(t) => JsonNumber::encode(t),
        }
    }

    proof fn lemma_round_trip(self) {
        match self {
            HeatmapPaintLayerHeatmapIntensity::Expr(t) => HeatmapPaintLayerHeatmapIntensityExpression::lemma_round_trip(*t),
            HeatmapPaintLayerHeatmapIntensity::Literal(t) => JsonNumber::lemma_round_trip(t),
        }
    }
}

impl Default for HeatmapPaintLayerHeatmapIntensity {
    fn default() -> (r: Self)
        ensures
            r.to_json() == Json::Number("1"@),
            r is Literal,
    {
        let r = HeatmapPaintLayerHeatmapIntensity::Literal(JsonNumber::from_literal("1"));
        r
    }
}

/// Nested expression: ramp (`interpolate` / …) or regular [`Number`] operators.
#[derive(PartialEq, Debug, Clone)]
pub enum HeatmapPaintLayerHeatmapOpacityExpression {
    Number(Number),
    Ramp(NumberOrArrayOfNumberOrColorOrArrayOfColorOrProjection),
}

impl JsonDecode for HeatmapPaintLayerHeatmapOpacityExpression {
    open spec fn accepts(v: Json) -> bool {
        Number::accepts(v) || NumberOrArrayOfNumberOrColorOrArrayOfColorOrProjection::accepts(v)
    }

    open spec fn decodes(v: Json, x: Self) -> bool {
        match x {
            HeatmapPaintLayerHeatmapOpacityExpression::Number(t) => Number::accepts(v) && Number::decodes(v, t),
            HeatmapPaintLayerHeatmapOpacityExpression::Ramp(t) => !Number::accepts(v) && NumberOrArrayOfNumberOrColorOrArrayOfColorOrProjection::accepts(v) && NumberOrArrayOfNumberOrColorOrArrayOfColorOrProjection::decodes(v, t),
        }
    }

    open spec fn rejection(v: Json) -> Seq<char> {
        "HeatmapPaintLayerHeatmapOpacityExpression: no variant matched. Expected Number(Number) | Ramp(NumberOrArrayOfNumberOrColorOrArrayOfColorOrProjection). Errors: ["@ + "Number: "@ + Number::rejection(v) + "; Ramp: "@ + NumberOrArrayOfNumberOrColorOrArrayOfColorOrProjection::rejection(v) + "]"@
    }

    fn decode(v: &JsonValue) -> (r: Result<Self, String>) {
        let e0 = match Number::decode(v) {
            Ok(x) => {
                return Ok(HeatmapPaintLayerHeatmapOpacityExpression::Number(x));
            },
            Err(e) => e,
        };
        let e1 = match NumberOrArrayOfNumberOrColorOrArrayOfColorOrProjection::decode(v) {
            Ok(x) => {
                return Ok(HeatmapPaintLayerHeatmapOpacityExpression::Ramp(x));
            },
            Err(e) => e,
        };
        let mut m = "HeatmapPaintLayerHeatmapOpacityExpression: no variant matched. Expected Number(Number) | Ramp(NumberOrArrayOfNumberOrColorOrArrayOfColorOrProjection). Errors: [".to_string();
        m.append("Number: ");
        m.append(e0.as_str());
        m.append("; Ramp: ");
        m.append(e1.as_str());
        m.append("]");
        Err(m)
    }
}

impl JsonEncode for HeatmapPaintLayerHeatmapOpacityExpression {
    open spec fn to_json(self) -> Json {
        match self {
            HeatmapPaintLayerHeatmapOpacityExpression::Number(t) => Number::to_json(t),
            HeatmapPaintLayerHeatmapOpacityExpression::Ramp(t) => NumberOrArrayOfNumberOrColorOrArrayOfColorOrProjection::to_json(t),
        }
    }

    open spec fn round_trips(self) -> bool {
        match self {
            HeatmapPaintLayerHeatmapOpacityExpression::Number(t) => Number::round_trips(t),
            HeatmapPaintLayerHeatmapOpacityExpression::Ramp(t) => NumberOrArrayOfNumberOrColorOrArrayOfColorOrProjection::round_trips(t) && !Number::accepts(NumberOrArrayOfNumberOrColorOrArrayOfColorOrProjection::to_json(t)),
        }
    }

    fn encode(&self) -> (r: JsonValue) {
        match self {
            HeatmapPaintLayerHeatmapOpacityExpression::Number(t) => Number::encode(t),
            HeatmapPaintLayerHeatmapOpacityExpression::Ramp(t) => NumberOrArrayOfNumberOrColorOrArrayOfColorOrProjection::encode(t),
        }
    }

    proof fn lemma_round_trip(self) {
        match self {
            HeatmapPaintLayerHeatmapOpacityExpression::Number(t) => Number::lemma_round_trip(t),
            HeatmapPaintLayerHeatmapOpacityExpression::Ramp(t) => NumberOrArrayOfNumberOrColorOrArrayOfColorOrProjection::lemma_round_trip(t),
        }
    }
}

/// The global opacity at which the heatmap layer will be drawn.
#[derive(PartialEq, Debug, Clone)]
pub enum HeatmapPaintLayerHeatmapOpacity {
    Expr(Box<HeatmapPaintLayerHeatmapOpacityExpression>),
    Literal(JsonNumber),
}

impl JsonDecode for HeatmapPaintLayerHeatmapOpacity {
    open spec fn accepts(v: Json) -> bool {
        HeatmapPaintLayerHeatmapOpacityExpression::accepts(v) || JsonNumber::accepts(v)
    }

    open spec fn decodes(v: Json, x: Self) -> bool {
        match x {
            HeatmapPaintLayerHeatmapOpacity::Expr(t) => HeatmapPaintLayerHeatmapOpacityExpression::accepts(v) && HeatmapPaintLayerHeatmapOpacityExpression::decodes(v, *t),
            HeatmapPaintLayerHeatmapOpacity::Literal(t) => !HeatmapPaintLayerHeatmapOpacityExpression::accepts(v) && JsonNumber::accepts(v) && JsonNumber::decodes(v, t),
        }
    }

    open spec fn rejection(v: Json) -> Seq<char> {
        "HeatmapPaintLayerHeatmapOpacity: no variant matched. Expected Expr(HeatmapPaintLayerHeatmapOpacityExpression) | Literal(serde_json::Number). Errors: ["@ + "Expr: "@ + HeatmapPaintLayerHeatmapOpacityExpression::rejection(v) + "; Literal: "@ + JsonNumber::rejection(v) + "]"@
    }

    fn decode(v: &JsonValue) -> (r: Result<Self, String>) {
        let e0 = match HeatmapPaintLayerHeatmapOpacityExpression::decode(v) {
            Ok(x) => {
                return Ok(HeatmapPaintLayerHeatmapOpacity::Expr(Box::new(x)));
            },
            Err(e) => e,
        };
        let e1 = match JsonNumber::decode(v) {
            Ok(x) => {
                return Ok(HeatmapPaintLayerHeatmapOpacity::Literal(x));
            },
            Err(e) => e,
        };
        let mut m = "HeatmapPaintLayerHeatmapOpacity: no variant matched. Expected Expr(HeatmapPaintLayerHeatmapOpacityExpression) | Literal(serde_json::Number). Errors: [".to_string();
        m.append("Expr: ");
        m.append(e0.as_str());
        m.append("; Literal: ");
        m.append(e1.as_str());
        m.append("]");
        Err(m)
    }
}

impl JsonEncode for HeatmapPaintLayerHeatmapOpacity {
    open spec fn to_json(self) -> Json {
        match self {
            HeatmapPaintLayerHeatmapOpacity::Expr(t) => HeatmapPaintLayerHeatmapOpacityExpression::to_json(*t),
            HeatmapPaintLayerHeatmapOpacity::Literal(t) => JsonNumber::to_json(t),
        }
    }

    open spec fn round_trips(self) -> bool {
        match self {
            HeatmapPaintLayerHeatmapOpacity::Expr(t) => HeatmapPaintLayerHeatmapOpacityExpression::round_trips(*t),
            HeatmapPaintLayerHeatmapOpacity::Literal(t) => JsonNumber::round_trips(t) && !HeatmapPaintLayerHeatmapOpacityExpression::accepts(JsonNumber::to_json(t)),
        }
    }

    fn encode(&self) -> (r: JsonValue) {
        match self {
            HeatmapPaintLayerHeatmapOpacity::Expr(t) => HeatmapPaintLayerHeatmapOpacityExpression::encode(&**t),
            HeatmapPaintLayerHeatmapOpacity::Literal(t) => JsonNumber::encode(t),
        }
    }

    proof fn lemma_round_trip(self) {
        match self {
            HeatmapPaintLayerHeatmapOpacity::Expr(t) => HeatmapPaintLayerHeatmapOpacityExpression::lemma_round_trip(*t),
            HeatmapPaintLayerHeatmapOpacity::Literal(t) => JsonNumber::lemma_round_trip(t),
        }
    }
}

impl Default for HeatmapPaintLayerHeatmapOpacity {
    fn default() -> (r: Self)
        ensures
            r.to_json() == Json::Number("1"@),
            r is Literal,
    {
        let r = HeatmapPaintLayerHeatmapOpacity::Literal(JsonNumber::from_literal("1"));
        r
    }
}

/// Nested expression: ramp (`interpolate` / …) or regular [`Number`] operators.
#[derive(PartialEq, Debug, Clone)]
pub enum HeatmapPaintLayerHeatmapRadiusExpression {
    Number(Number),
    Ramp(NumberOrArrayOfNumberOrColorOrArrayOfColorOrProjection),
}

impl JsonDecode for HeatmapPaintLayerHeatmapRadiusExpression {
    open spec fn accepts(v: Json) -> bool {
        Number::accepts(v) || NumberOrArrayOfNumberOrColorOrArrayOfColorOrProjection::accepts(v)
    }

    open spec fn decodes(v: Json, x: Self) -> bool {
        match x {
            HeatmapPaintLayerHeatmapRadiusExpression::Number(t) => Number::accepts(v) && Number::decodes(v, t),
            HeatmapPaintLayerHeatmapRadiusExpression::Ramp(t) => !Number::accepts(v) && NumberOrArrayOfNumberOrColorOrArrayOfColorOrProjection::accepts(v) && NumberOrArrayOfNumberOrColorOrArrayOfColorOrProjection::decodes(v, t),
        }
    }

    open spec fn rejection(v: Json) -> Seq<char> {
        "HeatmapPaintLayerHeatmapRadiusExpression: no variant matched. Expected Number(Number) | Ramp(NumberOrArrayOfNumberOrColorOrArrayOfColorOrProjection). Errors: ["@ + "Number: "@ + Number::rejection(v) + "; Ramp: "@ + NumberOrArrayOfNumberOrColorOrArrayOfColorOrProjection::rejection(v) + "]"@
    }

    fn decode(v: &JsonValue) -> (r: Result<Self, String>) {
        let e0 = match Number::decode(v) {
            Ok(x) => {
                return Ok(HeatmapPaintLayerHeatmapRadiusExpression::Number(x));
            },
            Err(e) => e,
        };
        let e1 = match NumberOrArrayOfNumberOrColorOrArrayOfColorOrProjection::decode(v) {
            Ok(x) => {
                return Ok(HeatmapPaintLayerHeatmapRadiusExpression::Ramp(x));
            },
            Err(e) => e,
        };
        let mut m = "HeatmapPaintLayerHeatmapRadiusExpression: no variant matched. Expected Number(Number) | Ramp(NumberOrArrayOfNumberOrColorOrArrayOfColorOrProjection). Errors: [".to_string();
        m.append("Number: ");
        m.append(e0.as_str());
        m.append("; Ramp: ");
        m.append(e1.as_str());
        m.append("]");
        Err(m)
    }
}

impl JsonEncode for HeatmapPaintLayerHeatmapRadiusExpression {
    open spec fn to_json(self) -> Json {
        match self {
            HeatmapPaintLayerHeatmapRadiusExpression::Number(t) => Number::to_json(t),
            HeatmapPaintLayerHeatmapRadiusExpression::Ramp(t) => NumberOrArrayOfNumberOrColorOrArrayOfColorOrProjection::to_json(t),
        }
    }

    open spec fn round_trips(self) -> bool {
        match self {
            HeatmapPaintLayerHeatmapRadiusExpression::Number(t) => Number::round_trips(t),
            HeatmapPaintLayerHeatmapRadiusExpression::Ramp(t) => NumberOrArrayOfNumberOrColorOrArrayOfColorOrProjection::round_trips(t) && !Number::accepts(NumberOrArrayOfNumberOrColorOrArrayOfColorOrProjection::to_json(t)),
        }
    }

    fn encode(&self) -> (r: JsonValue) {
        match self {
            HeatmapPaintLayerHeatmapRadiusExpression::Number(t) => Number::encode(t),
            HeatmapPaintLayerHeatmapRadiusExpression::Ramp(t) => NumberOrArrayOfNumberOrColorOrArrayOfColorOrProjection::encode(t),
        }
    }

    proof fn lemma_round_trip(self) {
        match self {
            HeatmapPaintLayerHeatmapRadiusExpression::Number(t) => Number::lemma_round_trip(t),
            HeatmapPaintLayerHeatmapRadiusExpression::Ramp(t) => NumberOrArrayOfNumberOrColorOrArrayOfColorOrProjection::lemma_round_trip(t),
        }
    }
}

/// Radius of influence of one heatmap point in pixels. Increasing the value makes the heatmap smoother, but less detailed.
#[derive(PartialEq, Debug, Clone)]
pub enum HeatmapPaintLayerHeatmapRadius {
    Expr(Box<HeatmapPaintLayerHeatmapRadiusExpression>),
    Literal(JsonNumber),
}

impl JsonDecode for HeatmapPaintLayerHeatmapRadius {
    open spec fn accepts(v: Json) -> bool {
        HeatmapPaintLayerHeatmapRadiusExpression::accepts(v) || JsonNumber::accepts(v)
    }

    open spec fn decodes(v: Json, x: Self) -> bool {
        match x {
            HeatmapPaintLayerHeatmapRadius::Expr(t) => HeatmapPaintLayerHeatmapRadiusExpression::accepts(v) && HeatmapPaintLayerHeatmapRadiusExpression::decodes(v, *t),
            HeatmapPaintLayerHeatmapRadius::Literal(t) => !HeatmapPaintLayerHeatmapRadiusExpression::accepts(v) && JsonNumber::accepts(v) && JsonNumber::decodes(v, t),
        }
    }

    open spec fn rejection(v: Json) -> Seq<char> {
        "HeatmapPaintLayerHeatmapRadius: no variant matched. Expected Expr(HeatmapPaintLayerHeatmapRadiusExpression) | Literal(serde_json::Number). Errors: ["@ + "Expr: "@ + HeatmapPaintLayerHeatmapRadiusExpression::rejection(v) + "; Literal: "@ + JsonNumber::rejection(v) + "]"@
    }

    fn decode(v: &JsonValue) -> (r: Result<Self, String>) {
        let e0 = match HeatmapPaintLayerHeatmapRadiusExpression::decode(v) {
            Ok(x) => {
                return Ok(HeatmapPaintLayerHeatmapRadius::Expr(Box::new(x)));
            },
            Err(e) => e,
        };
        let e1 = match JsonNumber::decode(v) {
            Ok(x) => {
                return Ok(HeatmapPaintLayerHeatmapRadius::Literal(x));
            },
            Err(e) => e,
        };
        let mut m = "HeatmapPaintLayerHeatmapRadius: no variant matched. Expected Expr(HeatmapPaintLayerHeatmapRadiusExpression) | Literal(serde_json::Number). Errors: [".to_string();
        m.append("Expr: ");
        m.append(e0.as_str());
        m.append("; Literal: ");
        m.append(e1.as_str());
        m.append("]");
        Err(m)
    }
}

impl JsonEncode for HeatmapPaintLayerHeatmapRadius {
    open spec fn to_json(self) -> Json {
        match self {
            HeatmapPaintLayerHeatmapRadius::Expr(t) => HeatmapPaintLayerHeatmapRadiusExpression::to_json(*t),
            HeatmapPaintLayerHeatmapRadius::Literal(t) => JsonNumber::to_json(t),
        }
    }

    open spec fn round_trips(self) -> bool {
        match self {
            HeatmapPaintLayerHeatmapRadius::Expr(t) => HeatmapPaintLayerHeatmapRadiusExpression::round_trips(*t),
            HeatmapPaintLayerHeatmapRadius::Literal(t) => JsonNumber::round_trips(t) && !HeatmapPaintLayerHeatmapRadiusExpression::accepts(JsonNumber::to_json(t)),
        }
    }

    fn encode(&self) -> (r: JsonValue) {
        match self {
            HeatmapPaintLayerHeatmapRadius::Expr(t) => HeatmapPaintLayerHeatmapRadiusExpression::encode(&**t),
            HeatmapPaintLayerHeatmapRadius::Literal(t) => JsonNumber::encode(t),
        }
    }

    proof fn lemma_round_trip(self) {
        match self {
            HeatmapPaintLayerHeatmapRadius::Expr(t) => HeatmapPaintLayerHeatmapRadiusExpression::lemma_round_trip(*t),
            HeatmapPaintLayerHeatmapRadius::Literal(t) => JsonNumber::lemma_round_trip(t),
        }
    }
}

impl Default for HeatmapPaintLayerHeatmapRadius {
    fn default() -> (r: Self)
        ensures
            r.to_json() == Json::Number("30"@),
            r is Literal,
    {
        let r = HeatmapPaintLayerHeatmapRadius::Literal(JsonNumber::from_literal("30"));
        r
    }
}

/// Nested expression: ramp (`interpolate` / …) or regular [`Number`] operators.
#[derive(PartialEq, Debug, Clone)]
pub enum HeatmapPaintLayerHeatmapWeightExpression {
    Number(Number),
    Ramp(NumberOrArrayOfNumberOrColorOrArrayOfColorOrProjection),
}

impl JsonDecode for HeatmapPaintLayerHeatmapWeightExpression {
    open spec fn accepts(v: Json) -> bool {
        Number::accepts(v) || NumberOrArrayOfNumberOrColorOrArrayOfColorOrProjection::accepts(v)
    }

    open spec fn decodes(v: Json, x: Self) -> bool {
        match x {
            HeatmapPaintLayerHeatmapWeightExpression::Number(t) => Number::accepts(v) && Number::decodes(v, t),
            HeatmapPaintLayerHeatmapWeightExpression::Ramp(t) => !Number::accepts(v) && NumberOrArrayOfNumberOrColorOrArrayOfColorOrProjection::accepts(v) && NumberOrArrayOfNumberOrColorOrArrayOfColorOrProjection::decodes(v, t),
        }
    }

    open spec fn rejection(v: Json) -> Seq<char> {
        "HeatmapPaintLayerHeatmapWeightExpression: no variant matched. Expected Number(Number) | Ramp(NumberOrArrayOfNumberOrColorOrArrayOfColorOrProjection). Errors: ["@ + "Number: "@ + Number::rejection(v) + "; Ramp: "@ + NumberOrArrayOfNumberOrColorOrArrayOfColorOrProjection::rejection(v) + "]"@
    }

    fn decode(v: &JsonValue) -> (r: Result<Self, String>) {
        let e0 = match Number::decode(v) {
            Ok(x) => {
                return Ok(HeatmapPaintLayerHeatmapWeightExpression::Number(x));
            },
            Err(e) => e,
        };
        let e1 = match NumberOrArrayOfNumberOrColorOrArrayOfColorOrProjection::decode(v) {
            Ok(x) => {
                return Ok(HeatmapPaintLayerHeatmapWeightExpression::Ramp(x));
            },
            Err(e) => e,
        };
        let mut m = "HeatmapPaintLayerHeatmapWeightExpression: no variant matched. Expected Number(Number) | Ramp(NumberOrArrayOfNumberOrColorOrArrayOfColorOrProjection). Errors: [".to_string();
        m.append("Number: ");
        m.append(e0.as_str());
        m.append("; Ramp: ");
        m.append(e1.as_str());
        m.append("]");
        Err(m)
    }
}

impl JsonEncode for HeatmapPaintLayerHeatmapWeightExpression {
    open spec fn to_json(self) -> Json {
        match self {
            HeatmapPaintLayerHeatmapWeightExpression::Number(t) => Number::to_json(t),
            HeatmapPaintLayerHeatmapWeightExpression::Ramp(t) => NumberOrArrayOfNumberOrColorOrArrayOfColorOrProjection::to_json(t),
        }
    }

    open spec fn round_trips(self) -> bool {
        match self {
            HeatmapPaintLayerHeatmapWeightExpression::Number(t) => Number::round_trips(t),
            HeatmapPaintLayerHeatmapWeightExpression::Ramp(t) => NumberOrArrayOfNumberOrColorOrArrayOfColorOrProjection::round_trips(t) && !Number::accepts(NumberOrArrayOfNumberOrColorOrArrayOfColorOrProjection::to_json(t)),
        }
    }

    fn encode(&self) -> (r: JsonValue) {
        match self {
            HeatmapPaintLayerHeatmapWeightExpression::Number(t) => Number::encode(t),
            HeatmapPaintLayerHeatmapWeightExpression::Ramp(t) => NumberOrArrayOfNumberOrColorOrArrayOfColorOrProjection::encode(t),
        }
    }

    proof fn lemma_round_trip(self) {
        match self {
            HeatmapPaintLayerHeatmapWeightExpression::Number(t) => Number::lemma_round_trip(t),
            HeatmapPaintLayerHeatmapWeightExpression::Ramp(t) => NumberOrArrayOfNumberOrColorOrArrayOfColorOrProjection::lemma_round_trip(t),
        }
    }
}

/// A measure of how much an individual point contributes to the heatmap. A value of 10 would be equivalent to having 10 points of weight 1 in the same spot. Especially useful when combined with clustering.
#[derive(PartialEq, Debug, Clone)]
pub enum HeatmapPaintLayerHeatmapWeight {
    Expr(Box<HeatmapPaintLayerHeatmapWeightExpression>),
    Literal(JsonNumber),
}

impl JsonDecode for HeatmapPaintLayerHeatmapWeight {
    open spec fn accepts(v: Json) -> bool {
        HeatmapPaintLayerHeatmapWeightExpression::accepts(v) || JsonNumber::accepts(v)
    }

    open spec fn decodes(v: Json, x: Self) -> bool {
        match x {
            HeatmapPaintLayerHeatmapWeight::Expr(t) => HeatmapPaintLayerHeatmapWeightExpression::accepts(v) && HeatmapPaintLayerHeatmapWeightExpression::decodes(v, *t),
            HeatmapPaintLayerHeatmapWeight::Literal(t) => !HeatmapPaintLayerHeatmapWeightExpression::accepts(v) && JsonNumber::accepts(v) && JsonNumber::decodes(v, t),
        }
    }

    open spec fn rejection(v: Json) -> Seq<char> {
        "HeatmapPaintLayerHeatmapWeight: no variant matched. Expected Expr(HeatmapPaintLayerHeatmapWeightExpression) | Literal(serde_json::Number). Errors: ["@ + "Expr: "@ + HeatmapPaintLayerHeatmapWeightExpression::rejection(v) + "; Literal: "@ + JsonNumber::rejection(v) + "]"@
    }

    fn decode(v: &JsonValue) -> (r: Result<Self, String>) {
        let e0 = match HeatmapPaintLayerHeatmapWeightExpression::decode(v) {
            Ok(x) => {
                return Ok(HeatmapPaintLayerHeatmapWeight::Expr(Box::new(x)));
            },
            Err(e) => e,
        };
        let e1 = match JsonNumber::decode(v) {
            Ok(x) => {
                return Ok(HeatmapPaintLayerHeatmapWeight::Literal(x));
            },
            Err(e) => e,
        };
        let mut m = "HeatmapPaintLayerHeatmapWeight: no variant matched. Expected Expr(HeatmapPaintLayerHeatmapWeightExpression) | Literal(serde_json::Number). Errors: [".to_string();
        m.append("Expr: ");
        m.append(e0.as_str());
        m.append("; Literal: ");
        m.append(e1.as_str());
        m.append("]");
        Err(m)
    }
}

impl JsonEncode for HeatmapPaintLayerHeatmapWeight {
    open spec fn to_json(self) -> Json {
        match self {
            HeatmapPaintLayerHeatmapWeight::Expr(t) => HeatmapPaintLayerHeatmapWeightExpression::to_json(*t),
            HeatmapPaintLayerHeatmapWeight::Literal(t) => JsonNumber::to_json(t),
        }
    }

    open spec fn round_trips(self) -> bool {
        match self {
            HeatmapPaintLayerHeatmapWeight::Expr(t) => HeatmapPaintLayerHeatmapWeightExpression::round_trips(*t),
            HeatmapPaintLayerHeatmapWeight::Literal(t) => JsonNumber::round_trips(t) && !HeatmapPaintLayerHeatmapWeightExpression::accepts(JsonNumber::to_json(t)),
        }
    }

    fn encode(&self) -> (r: JsonValue) {
        match self {
            HeatmapPaintLayerHeatmapWeight::Expr(t) => HeatmapPaintLayerHeatmapWeightExpression::encode(&**t),
            HeatmapPaintLayerHeatmapWeight::Literal(t) => JsonNumber::encode(t),
        }
    }

    proof fn lemma_round_trip(self) {
        match self {
            HeatmapPaintLayerHeatmapWeight::Expr(t) => HeatmapPaintLayerHeatmapWeightExpression::lemma_round_trip(*t),
            HeatmapPaintLayerHeatmapWeight::Literal(t) => JsonNumber::lemma_round_trip(t),
        }
    }
}

impl Default for HeatmapPaintLayerHeatmapWeight {
    fn default() -> (r: Self)
        ensures
            r.to_json() == Json::Number("1"@),
            r is Literal,
    {
        let r = HeatmapPaintLayerHeatmapWeight::Literal(JsonNumber::from_literal("1"));
        r
    }
}

#[derive(PartialEq, Debug, Clone)]
pub struct HillshadeLayoutLayer {
    /// Whether this layer is displayed.
    pub visibility: Option<HillshadeLayoutLayerVisibility>,
}

impl JsonDecode for HillshadeLayoutLayer {
    /// An object with the fields by their keys, or an array with the fields in order.
    open spec fn accepts(v: Json) -> bool {
        ||| (v is Object && {
            let o = v->Object_0;
            &&& opt_field_accepts::<HillshadeLayoutLayerVisibility>(o, "visibility"@)
        })
        ||| (v is Array && {
            let a = v->Array_0;
            &&& seq_opt_accepts::<HillshadeLayoutLayerVisibility>(a, 0, true)
            &&& a.len() <= 1
        })
    }

    open spec fn decodes(v: Json, x: Self) -> bool {
        ||| (v is Object && {
            let o = v->Object_0;
            &&& opt_field_decodes::<HillshadeLayoutLayerVisibility>(o, "visibility"@, x.visibility)
        })
        ||| (v is Array && {
            let a = v->Array_0;
            &&& seq_opt_decodes::<HillshadeLayoutLayerVisibility>(a, 0, x.visibility)
        })
    }

    /// For an object, the first entry in order whose value does not read as its field, else the
    /// first required field that is missing.
    open spec fn rejection(v: Json) -> Seq<char> {
        if v is Object {
            let o = v->Object_0;
            match Self::first_fault(o, 0) {
                Some(m) => m,
                None => {
                    Seq::empty()
                },
            }
        } else if v is Array {
            let a = v->Array_0;
            if !seq_opt_accepts::<HillshadeLayoutLayerVisibility>(a, 0, true) {
                seq_opt_rejection::<HillshadeLayoutLayerVisibility>(a, 0, "struct HillshadeLayoutLayer with 1 element"@)
            } else if a.len() > 1 {
                length_error(a.len())
            } else {
                Seq::empty()
            }
        } else {
            type_error(v, "struct HillshadeLayoutLayer"@)
        }
    }

    fn decode(v: &JsonValue) -> (r: Result<Self, String>) {
        match v {
            JsonValue::Object(fields) => {
                let visibility = match decode_opt_field::<HillshadeLayoutLayerVisibility>(fields, "visibility") {
                    Ok(x) => x,
                    Err(_) => return Err(Self::object_rejection(fields)),
                };
                Ok(HillshadeLayoutLayer { visibility })
            },
            JsonValue::Array(a) => {
                let visibility = match decode_seq_opt::<HillshadeLayoutLayerVisibility>(a, 0, true, "struct HillshadeLayoutLayer with 1 element") {
                    Ok(x) => x,
                    Err(e) => return Err(e),
                };
                if a.len() > 1 {
                    return Err(make_length_error(a.len()));
                }
                Ok(HillshadeLayoutLayer { visibility })
            },
            _ => Err(make_type_error(v, "struct HillshadeLayoutLayer")),
        }
    }
}

impl HillshadeLayoutLayer {
    /// What is wrong with the value `w` of an entry with key `k`, where `k` is the key of a field.
    pub open spec fn field_fault(k: Seq<char>, w: Json) -> Option<Seq<char>> {
        if k == "visibility"@ {
            if w is Null || HillshadeLayoutLayerVisibility::accepts(w) {
                None
            } else {
                Some(HillshadeLayoutLayerVisibility::rejection(w))
            }
        } else {
            None
        }
    }

    /// The message of the first entry of `o`, from entry `i` on and among the first entries of
    /// their keys, whose value does not read as its field, if any.
    pub open spec fn first_fault(o: Seq<(Seq<char>, Json)>, i: int) -> Option<Seq<char>>
        decreases o.len() - i,
    {
        if i < 0 || i >= o.len() {
            None
        } else if first_with_key(o, i) && Self::field_fault(o[i].0, o[i].1) is Some {
            Self::field_fault(o[i].0, o[i].1)
        } else {
            Self::first_fault(o, i + 1)
        }
    }

    fn find_field_fault(k: &str, w: &JsonValue) -> (r: Option<String>)
        ensures
            match r {
                Some(m) => Self::field_fault(k@, w.model()) == Some(m@),
                None => Self::field_fault(k@, w.model()) is None,
            },
    {
        if str_eq(k, "visibility") {
            match w {
                JsonValue::Null => None,
                _ => match HillshadeLayoutLayerVisibility::decode(w) {
                    Ok(_) => None,
                    Err(e) => Some(e),
                },
            }
        } else {
            None
        }
    }

    fn object_rejection(fields: &Vec<(String, JsonValue)>) -> (r: String)
        ensures
            r@ == Self::rejection(JsonValue::Object(*fields).model()),
    {
        let ghost o = entries_model(*fields);
        let mut i: usize = 0;
        while i < fields.len()
            invariant
                o == entries_model(*fields),
                o.len() == fields.len(),
                i <= fields.len(),
                Self::first_fault(o, 0) == Self::first_fault(o, i as int),
            decreases fields.len() - i,
        {
            proof {
                assert(o[i as int] == (fields@[i as int].0@, fields@[i as int].1.model()));
            }
            if !key_seen_before(fields, i) {
                match Self::find_field_fault(fields[i].0.as_str(), &fields[i].1) {
                    Some(m) => {
                        return m;
                    },
                    None => {},
                }
            }
            i += 1;
        }
        String::new()
    }
}

impl HillshadeLayoutLayer {
    /// The keys of the fields, in order.
    pub open spec fn field_keys() -> Seq<Seq<char>> {
        seq!["visibility"@]
    }

    /// The entries that each field is written as, in order.
    pub open spec fn field_entries(self) -> Seq<Seq<(Seq<char>, Json)>> {
        seq![opt_entry::<HillshadeLayoutLayerVisibility>("visibility"@, self.visibility)]
    }

    proof fn lemma_keys_differ(i: int)
        requires
            0 <= i < 1,
        ensures
            others_differ(Self::field_keys(), i),
    {
        reveal_strlit("visibility");
        assert("visibility"@.len() == 10);
    }
}

impl JsonEncode for HillshadeLayoutLayer {
    open spec fn to_json(self) -> Json {
        Json::Object(self.field_entries().flatten())
    }

    open spec fn round_trips(self) -> bool {
        &&& (self.visibility matches Some(t) ==> t.round_trips() && !(t.to_json() is Null))
    }

    fn encode(&self) -> (r: JsonValue) {
        let mut out: Vec<(String, JsonValue)> = Vec::new();
        let ghost s0 = Seq::<Seq<(Seq<char>, Json)>>::empty();
        proof {
            assert(entries_model(out) =~= s0.flatten());
        }
        push_opt_entry::<HillshadeLayoutLayerVisibility>(&mut out, "visibility", &self.visibility);
        let ghost s1 = s0.push(opt_entry::<HillshadeLayoutLayerVisibility>("visibility"@, self.visibility));
        proof {
            s0.lemma_flatten_push(opt_entry::<HillshadeLayoutLayerVisibility>("visibility"@, self.visibility));
            assert(entries_model(out) =~= s1.flatten());
        }
        proof {
            assert(self.field_entries() == s1);
        }
        JsonValue::Object(out)
    }

    proof fn lemma_round_trip(self) {
        let keys = Self::field_keys();
        let es = self.field_entries();
        assert(keyed_by(es, keys));
        Self::lemma_keys_differ(0);
        lemma_lookup_flatten(es, keys, 0);
        lemma_lookup_opt_entry::<HillshadeLayoutLayerVisibility>("visibility"@, self.visibility, "visibility"@);
        if self.visibility is Some {
            self.visibility->0.lemma_round_trip();
        }
    }
}

/// Whether this layer is displayed.
#[derive(PartialEq, Eq, Debug, Clone, Copy)]
pub enum HillshadeLayoutLayerVisibility {
    NoneValue,
    Visible,
}

impl HillshadeLayoutLayerVisibility {
    /// The name that stands for the value in a style document.
    pub open spec fn spec_name(self) -> Seq<char> {
        match self {
            HillshadeLayoutLayerVisibility::NoneValue => "none"@,
            HillshadeLayoutLayerVisibility::Visible => "visible"@,
        }
    }

    /// The name that stands for the value in a style document.
    pub fn name(&self) -> (r: &'static str)
        ensures
            r@ == self.spec_name(),
    {
        match self {
            HillshadeLayoutLayerVisibility::NoneValue => "none",
            HillshadeLayoutLayerVisibility::Visible => "visible",
        }
    }

    /// The value that a name stands for, if any.
    pub fn from_name(s: &str) -> (r: Option<HillshadeLayoutLayerVisibility>)
        ensures
            r matches Some(x) ==> x.spec_name() == s@,
            r is None ==> forall|x: HillshadeLayoutLayerVisibility| x.spec_name() != s@,
    {
        if str_eq(s, "none") {
            Some(HillshadeLayoutLayerVisibility::NoneValue)
        } else if str_eq(s, "visible") {
            Some(HillshadeLayoutLayerVisibility::Visible)
        } else {
            None
        }
    }
}

impl HillshadeLayoutLayerVisibility {
    /// Each value is read from, and written as, the name that the style specification gives
    /// it, and a document holding one of these names reads as that value and no other.
    pub proof fn lemma_read_by_name()
        ensures
            forall|x: HillshadeLayoutLayerVisibility| <HillshadeLayoutLayerVisibility as JsonDecode>::decodes(Json::Str("none"@), x) <==> x == HillshadeLayoutLayerVisibility::NoneValue,
            <HillshadeLayoutLayerVisibility as JsonEncode>::to_json(HillshadeLayoutLayerVisibility::NoneValue) == Json::Str("none"@),
            <HillshadeLayoutLayerVisibility as JsonEncode>::to_json(HillshadeLayoutLayerVisibility::Visible) == Json::Str("visible"@),
            forall|x: HillshadeLayoutLayerVisibility| <HillshadeLayoutLayerVisibility as JsonDecode>::decodes(Json::Str("visible"@), x) <==> x == HillshadeLayoutLayerVisibility::Visible,
    {
        reveal_strlit("visible");
        reveal_strlit("none");
        assert("none"@.len() != "visible"@.len());
    }
}

impl JsonDecode for HillshadeLayoutLayerVisibility {
    /// The name of a value, or an object whose one entry has the name as its key and `null`.
    open spec fn accepts(v: Json) -> bool {
        ||| (v is Str && exists|x: HillshadeLayoutLayerVisibility| x.spec_name() == v->Str_0)
        ||| (v is Object && v->Object_0.len() == 1 && v->Object_0[0].1 is Null && exists|x: HillshadeLayoutLayerVisibility| x.spec_name() == v->Object_0[0].0)
    }

    open spec fn decodes(v: Json, x: Self) -> bool {
        ||| v == Json::Str(x.spec_name())
        ||| (v is Object && v->Object_0.len() == 1 && v->Object_0[0] == (x.spec_name(), Json::Null))
    }

    open spec fn rejection(v: Json) -> Seq<char> {
        if v is Str {
            unknown_variant(v->Str_0) + ", expected `none` or `visible`"@
        } else if v is Object {
            let o = v->Object_0;
            if o.len() != 1 {
                "invalid value: map, expected map with a single key"@
            } else if !(exists|x: HillshadeLayoutLayerVisibility| x.spec_name() == o[0].0) {
                unknown_variant(o[0].0) + ", expected `none` or `visible`"@
            } else {
                type_error(o[0].1, "unit"@)
            }
        } else {
            type_error(v, "string or map"@)
        }
    }

    fn decode(v: &JsonValue) -> (r: Result<Self, String>) {
        match v {
            JsonValue::String(s) => match Self::from_name(s.as_str()) {
                Some(x) => Ok(x),
                None => {
                    let mut m = make_unknown_variant(s.as_str());
                    m.append(", expected `none` or `visible`");
                    Err(m)
                },
            },
            JsonValue::Object(fields) => {
                if fields.len() != 1 {
                    return Err("invalid value: map, expected map with a single key".to_string());
                }
                proof {
                    assert(entries_model(*fields)[0] == (fields@[0].0@, fields@[0].1.model()));
                }
                match Self::from_name(fields[0].0.as_str()) {
                    Some(x) => match &fields[0].1 {
                        JsonValue::Null => Ok(x),
                        _ => Err(make_type_error(&fields[0].1, "unit")),
                    },
                    None => {
                        let mut m = make_unknown_variant(fields[0].0.as_str());
                        m.append(", expected `none` or `visible`");
                        Err(m)
                    },
                }
            },
            _ => Err(make_type_error(v, "string or map")),
        }
    }
}

impl JsonEncode for HillshadeLayoutLayerVisibility {
    open spec fn to_json(self) -> Json {
        Json::Str(self.spec_name())
    }

    open spec fn round_trips(self) -> bool {
        true
    }

    fn encode(&self) -> (r: JsonValue) {
        JsonValue::String(self.name().to_string())
    }

    proof fn lemma_round_trip(self) {
    }
}

impl Default for HillshadeLayoutLayerVisibility {
    fn default() -> (r: Self)
        ensures
            r == HillshadeLayoutLayerVisibility::Visible,
    {
        HillshadeLayoutLayerVisibility::Visible
    }
}

#[derive(PartialEq, Debug, Clone)]
pub struct HillshadePaintLayer {
    /// The shading color used to accentuate rugged terrain like sharp cliffs and gorges.
    pub hillshade_accent_color: Option<HillshadePaintLayerHillshadeAccentColor>,
    /// Intensity of the hillshade
    pub hillshade_exaggeration: Option<HillshadePaintLayerHillshadeExaggeration>,
    /// The shading color of areas that faces towards the light source(s). Only when `hillshade-method` is set to `multidirectional` can you specify multiple light sources.
    pub hillshade_highlight_color: Option<HillshadePaintLayerHillshadeHighlightColor>,
    /// The altitude of the light source(s) used to generate the hillshading with 0 as sunset and 90 as noon. Only when `hillshade-method` is set to `multidirectional` can you specify multiple light sources.
    pub hillshade_illumination_altitude: Option<HillshadePaintLayerHillshadeIlluminationAltitude>,
    /// Direction of light source when map is rotated.
    pub hillshade_illumination_anchor: Option<HillshadePaintLayerHillshadeIlluminationAnchor>,
    /// The direction of the light source(s) used to generate the hillshading with 0 as the top of the viewport if `hillshade-illumination-anchor` is set to `viewport` and due north if `hillshade-illumination-anchor` is set to `map`. Only when `hillshade-method` is set to `multidirectional` can you specify multiple light sources.
    pub hillshade_illumination_direction: Option<HillshadePaintLayerHillshadeIlluminationDirection>,
    /// The hillshade algorithm to use, one of `standard`, `basic`, `combined`, `igor`, or `multidirectional`. ![image](assets/hillshade_methods.png)
    pub hillshade_method: Option<HillshadePaintLayerHillshadeMethod>,
    /// The shading color of areas that face away from the light source(s). Only when `hillshade-method` is set to `multidirectional` can you specify multiple light sources.
    pub hillshade_shadow_color: Option<HillshadePaintLayerHillshadeShadowColor>,
}

impl JsonDecode for HillshadePaintLayer {
    /// An object with the fields by their keys, or an array with the fields in order.
    open spec fn accepts(v: Json) -> bool {
        ||| (v is Object && {
            let o = v->Object_0;
            &&& opt_field_accepts::<HillshadePaintLayerHillshadeAccentColor>(o, "hillshade-accent-color"@)
            &&& opt_field_accepts::<HillshadePaintLayerHillshadeExaggeration>(o, "hillshade-exaggeration"@)
            &&& opt_field_accepts::<HillshadePaintLayerHillshadeHighlightColor>(o, "hillshade-highlight-color"@)
            &&& opt_field_accepts::<HillshadePaintLayerHillshadeIlluminationAltitude>(o, "hillshade-illumination-altitude"@)
            &&& opt_field_accepts::<HillshadePaintLayerHillshadeIlluminationAnchor>(o, "hillshade-illumination-anchor"@)
            &&& opt_field_accepts::<HillshadePaintLayerHillshadeIlluminationDirection>(o, "hillshade-illumination-direction"@)
            &&& opt_field_accepts::<HillshadePaintLayerHillshadeMethod>(o, "hillshade-method"@)
            &&& opt_field_accepts::<HillshadePaintLayerHillshadeShadowColor>(o, "hillshade-shadow-color"@)
        })
        ||| (v is Array && {
            let a = v->Array_0;
            &&& seq_opt_accepts::<HillshadePaintLayerHillshadeAccentColor>(a, 0, true)
            &&& seq_opt_accepts::<HillshadePaintLayerHillshadeExaggeration>(a, 1, true)
            &&& seq_opt_accepts::<HillshadePaintLayerHillshadeHighlightColor>(a, 2, true)
            &&& seq_opt_accepts::<HillshadePaintLayerHillshadeIlluminationAltitude>(a, 3, true)
            &&& seq_opt_accepts::<HillshadePaintLayerHillshadeIlluminationAnchor>(a, 4, true)
            &&& seq_opt_accepts::<HillshadePaintLayerHillshadeIlluminationDirection>(a, 5, true)
            &&& seq_opt_accepts::<HillshadePaintLayerHillshadeMethod>(a, 6, true)
            &&& seq_opt_accepts::<HillshadePaintLayerHillshadeShadowColor>(a, 7, true)
            &&& a.len() <= 8
        })
    }

    open spec fn decodes(v: Json, x: Self) -> bool {
        ||| (v is Object && {
            let o = v->Object_0;
            &&& opt_field_decodes::<HillshadePaintLayerHillshadeAccentColor>(o, "hillshade-accent-color"@, x.hillshade_accent_color)
            &&& opt_field_decodes::<HillshadePaintLayerHillshadeExaggeration>(o, "hillshade-exaggeration"@, x.hillshade_exaggeration)
            &&& opt_field_decodes::<HillshadePaintLayerHillshadeHighlightColor>(o, "hillshade-highlight-color"@, x.hillshade_highlight_color)
            &&& opt_field_decodes::<HillshadePaintLayerHillshadeIlluminationAltitude>(o, "hillshade-illumination-altitude"@, x.hillshade_illumination_altitude)
            &&& opt_field_decodes::<HillshadePaintLayerHillshadeIlluminationAnchor>(o, "hillshade-illumination-anchor"@, x.hillshade_illumination_anchor)
            &&& opt_field_decodes::<HillshadePaintLayerHillshadeIlluminationDirection>(o, "hillshade-illumination-direction"@, x.hillshade_illumination_direction)
            &&& opt_field_decodes::<HillshadePaintLayerHillshadeMethod>(o, "hillshade-method"@, x.hillshade_method)
            &&& opt_field_decodes::<HillshadePaintLayerHillshadeShadowColor>(o, "hillshade-shadow-color"@, x.hillshade_shadow_color)
        })
        ||| (v is Array && {
            let a = v->Array_0;
            &&& seq_opt_decodes::<HillshadePaintLayerHillshadeAccentColor>(a, 0, x.hillshade_accent_color)
            &&& seq_opt_decodes::<HillshadePaintLayerHillshadeExaggeration>(a, 1, x.hillshade_exaggeration)
            &&& seq_opt_decodes::<HillshadePaintLayerHillshadeHighlightColor>(a, 2, x.hillshade_highlight_color)
            &&& seq_opt_decodes::<HillshadePaintLayerHillshadeIlluminationAltitude>(a, 3, x.hillshade_illumination_altitude)
            &&& seq_opt_decodes::<HillshadePaintLayerHillshadeIlluminationAnchor>(a, 4, x.hillshade_illumination_anchor)
            &&& seq_opt_decodes::<HillshadePaintLayerHillshadeIlluminationDirection>(a, 5, x.hillshade_illumination_direction)
            &&& seq_opt_decodes::<HillshadePaintLayerHillshadeMethod>(a, 6, x.hillshade_method)
            &&& seq_opt_decodes::<HillshadePaintLayerHillshadeShadowColor>(a, 7, x.hillshade_shadow_color)
        })
    }

    /// For an object, the first entry in order whose value does not read as its field, else the
    /// first required field that is missing.
    open spec fn rejection(v: Json) -> Seq<char> {
        if v is Object {
            let o = v->Object_0;
            match Self::first_fault(o, 0) {
                Some(m) => m,
                None => {
                    Seq::empty()
                },
            }
        } else if v is Array {
            let a = v->Array_0;
            if !seq_opt_accepts::<HillshadePaintLayerHillshadeAccentColor>(a, 0, true) {
                seq_opt_rejection::<HillshadePaintLayerHillshadeAccentColor>(a, 0, "struct HillshadePaintLayer with 8 elements"@)
            } else if !seq_opt_accepts::<HillshadePaintLayerHillshadeExaggeration>(a, 1, true) {
                seq_opt_rejection::<HillshadePaintLayerHillshadeExaggeration>(a, 1, "struct HillshadePaintLayer with 8 elements"@)
            } else if !seq_opt_accepts::<HillshadePaintLayerHillshadeHighlightColor>(a, 2, true) {
                seq_opt_rejection::<HillshadePaintLayerHillshadeHighlightColor>(a, 2, "struct HillshadePaintLayer with 8 elements"@)
            } else if !seq_opt_accepts::<HillshadePaintLayerHillshadeIlluminationAltitude>(a, 3, true) {
                seq_opt_rejection::<HillshadePaintLayerHillshadeIlluminationAltitude>(a, 3, "struct HillshadePaintLayer with 8 elements"@)
            } else if !seq_opt_accepts::<HillshadePaintLayerHillshadeIlluminationAnchor>(a, 4, true) {
                seq_opt_rejection::<HillshadePaintLayerHillshadeIlluminationAnchor>(a, 4, "struct HillshadePaintLayer with 8 elements"@)
            } else if !seq_opt_accepts::<HillshadePaintLayerHillshadeIlluminationDirection>(a, 5, true) {
                seq_opt_rejection::<HillshadePaintLayerHillshadeIlluminationDirection>(a, 5, "struct HillshadePaintLayer with 8 elements"@)
            } else if !seq_opt_accepts::<HillshadePaintLayerHillshadeMethod>(a, 6, true) {
                seq_opt_rejection::<HillshadePaintLayerHillshadeMethod>(a, 6, "struct HillshadePaintLayer with 8 elements"@)
            } else if !seq_opt_accepts::<HillshadePaintLayerHillshadeShadowColor>(a, 7, true) {
                seq_opt_rejection::<HillshadePaintLayerHillshadeShadowColor>(a, 7, "struct HillshadePaintLayer with 8 elements"@)
            } else if a.len() > 8 {
                length_error(a.len())
            } else {
                Seq::empty()
            }
        } else {
            type_error(v, "struct HillshadePaintLayer"@)
        }
    }

    fn decode(v: &JsonValue) -> (r: Result<Self, String>) {
        match v {
            JsonValue::Object(fields) => {
                let hillshade_accent_color = match decode_opt_field::<HillshadePaintLayerHillshadeAccentColor>(fields, "hillshade-accent-color") {
                    Ok(x) => x,
                    Err(_) => return Err(Self::object_rejection(fields)),
                };
                let hillshade_exaggeration = match decode_opt_field::<HillshadePaintLayerHillshadeExaggeration>(fields, "hillshade-exaggeration") {
                    Ok(x) => x,
                    Err(_) => return Err(Self::object_rejection(fields)),
                };
                let hillshade_highlight_color = match decode_opt_field::<HillshadePaintLayerHillshadeHighlightColor>(fields, "hillshade-highlight-color") {
                    Ok(x) => x,
                    Err(_) => return Err(Self::object_rejection(fields)),
                };
                let hillshade_illumination_altitude = match decode_opt_field::<HillshadePaintLayerHillshadeIlluminationAltitude>(fields, "hillshade-illumination-altitude") {
                    Ok(x) => x,
                    Err(_) => return Err(Self::object_rejection(fields)),
                };
                let hillshade_illumination_anchor = match decode_opt_field::<HillshadePaintLayerHillshadeIlluminationAnchor>(fields, "hillshade-illumination-anchor") {
                    Ok(x) => x,
                    Err(_) => return Err(Self::object_rejection(fields)),
                };
                let hillshade_illumination_direction = match decode_opt_field::<HillshadePaintLayerHillshadeIlluminationDirection>(fields, "hillshade-illumination-direction") {
                    Ok(x) => x,
                    Err(_) => return Err(Self::object_rejection(fields)),
                };
                let hillshade_method = match decode_opt_field::<HillshadePaintLayerHillshadeMethod>(fields, "hillshade-method") {
                    Ok(x) => x,
                    Err(_) => return Err(Self::object_rejection(fields)),
                };
                let hillshade_shadow_color = match decode_opt_field::<HillshadePaintLayerHillshadeShadowColor>(fields, "hillshade-shadow-color") {
                    Ok(x) => x,
                    Err(_) => return Err(Self::object_rejection(fields)),
                };
                Ok(HillshadePaintLayer { hillshade_accent_color, hillshade_exaggeration, hillshade_highlight_color, hillshade_illumination_altitude, hillshade_illumination_anchor, hillshade_illumination_direction, hillshade_method, hillshade_shadow_color })
            },
            JsonValue::Array(a) => {
                let hillshade_accent_color = match decode_seq_opt::<HillshadePaintLayerHillshadeAccentColor>(a, 0, true, "struct HillshadePaintLayer with 8 elements") {
                    Ok(x) => x,
                    Err(e) => return Err(e),
                };
                let hillshade_exaggeration = match decode_seq_opt::<HillshadePaintLayerHillshadeExaggeration>(a, 1, true, "struct HillshadePaintLayer with 8 elements") {
                    Ok(x) => x,
                    Err(e) => return Err(e),
                };
                let hillshade_highlight_color = match decode_seq_opt::<HillshadePaintLayerHillshadeHighlightColor>(a, 2, true, "struct HillshadePaintLayer with 8 elements") {
                    Ok(x) => x,
                    Err(e) => return Err(e),
                };
                let hillshade_illumination_altitude = match decode_seq_opt::<HillshadePaintLayerHillshadeIlluminationAltitude>(a, 3, true, "struct HillshadePaintLayer with 8 elements") {
                    Ok(x) => x,
                    Err(e) => return Err(e),
                };
                let hillshade_illumination_anchor = match decode_seq_opt::<HillshadePaintLayerHillshadeIlluminationAnchor>(a, 4, true, "struct HillshadePaintLayer with 8 elements") {
                    Ok(x) => x,
                    Err(e) => return Err(e),
                };
                let hillshade_illumination_direction = match decode_seq_opt::<HillshadePaintLayerHillshadeIlluminationDirection>(a, 5, true, "struct HillshadePaintLayer with 8 elements") {
                    Ok(x) => x,
                    Err(e) => return Err(e),
                };
                let hillshade_method = match decode_seq_opt::<HillshadePaintLayerHillshadeMethod>(a, 6, true, "struct HillshadePaintLayer with 8 elements") {
                    Ok(x) => x,
                    Err(e) => return Err(e),
                };
                let hillshade_shadow_color = match decode_seq_opt::<HillshadePaintLayerHillshadeShadowColor>(a, 7, true, "struct HillshadePaintLayer with 8 elements") {
                    Ok(x) => x,
                    Err(e) => return Err(e),
                };
                if a.len() > 8 {
                    return Err(make_length_error(a.len()));
                }
                Ok(HillshadePaintLayer { hillshade_accent_color, hillshade_exaggeration, hillshade_highlight_color, hillshade_illumination_altitude, hillshade_illumination_anchor, hillshade_illumination_direction, hillshade_method, hillshade_shadow_color })
            },
            _ => Err(make_type_error(v, "struct HillshadePaintLayer")),
        }
    }
}

impl HillshadePaintLayer {
    /// What is wrong with the value `w` of an entry with key `k`, where `k` is the key of a field.
    pub open spec fn field_fault(k: Seq<char>, w: Json) -> Option<Seq<char>> {
        if k == "hillshade-accent-color"@ {
            if w is Null || HillshadePaintLayerHillshadeAccentColor::accepts(w) {
                None
            } else {
                Some(HillshadePaintLayerHillshadeAccentColor::rejection(w))
            }
        } else if k == "hillshade-exaggeration"@ {
            if w is Null || HillshadePaintLayerHillshadeExaggeration::accepts(w) {
                None
            } else {
                Some(HillshadePaintLayerHillshadeExaggeration::rejection(w))
            }
        } else if k == "hillshade-highlight-color"@ {
            if w is Null || HillshadePaintLayerHillshadeHighlightColor::accepts(w) {
                None
            } else {
                Some(HillshadePaintLayerHillshadeHighlightColor::rejection(w))
            }
        } else if k == "hillshade-illumination-altitude"@ {
            if w is Null || HillshadePaintLayerHillshadeIlluminationAltitude::accepts(w) {
                None
            } else {
                Some(HillshadePaintLayerHillshadeIlluminationAltitude::rejection(w))
            }
        } else if k == "hillshade-illumination-anchor"@ {
            if w is Null || HillshadePaintLayerHillshadeIlluminationAnchor::accepts(w) {
                None
            } else {
                Some(HillshadePaintLayerHillshadeIlluminationAnchor::rejection(w))
            }
        } else if k == "hillshade-illumination-direction"@ {
            if w is Null || HillshadePaintLayerHillshadeIlluminationDirection::accepts(w) {
                None
            } else {
                Some(HillshadePaintLayerHillshadeIlluminationDirection::rejection(w))
            }
        } else if k == "hillshade-method"@ {
            if w is Null || HillshadePaintLayerHillshadeMethod::accepts(w) {
                None
            } else {
                Some(HillshadePaintLayerHillshadeMethod::rejection(w))
            }
        } else if k == "hillshade-shadow-color"@ {
            if w is Null || HillshadePaintLayerHillshadeShadowColor::accepts(w) {
                None
            } else {
                Some(HillshadePaintLayerHillshadeShadowColor::rejection(w))
            }
        } else {
            None
        }
    }

    /// The message of the first entry of `o`, from entry `i` on and among the first entries of
    /// their keys, whose value does not read as its field, if any.
    pub open spec fn first_fault(o: Seq<(Seq<char>, Json)>, i: int) -> Option<Seq<char>>
        decreases o.len() - i,
    {
        if i < 0 || i >= o.len() {
            None
        } else if first_with_key(o, i) && Self::field_fault(o[i].0, o[i].1) is Some {
            Self::field_fault(o[i].0, o[i].1)
        } else {
            Self::first_fault(o, i + 1)
        }
    }

    fn find_field_fault(k: &str, w: &JsonValue) -> (r: Option<String>)
        ensures
            match r {
                Some(m) => Self::field_fault(k@, w.model()) == Some(m@),
                None => Self::field_fault(k@, w.model()) is None,
            },
    {
        if str_eq(k, "hillshade-accent-color") {
            match w {
                JsonValue::Null => None,
                _ => match HillshadePaintLayerHillshadeAccentColor::decode(w) {
                    Ok(_) => None,
                    Err(e) => Some(e),
                },
            }
        } else if str_eq(k, "hillshade-exaggeration") {
            match w {
                JsonValue::Null => None,
                _ => match HillshadePaintLayerHillshadeExaggeration::decode(w) {
                    Ok(_) => None,
                    Err(e) => Some(e),
                },
            }
        } else if str_eq(k, "hillshade-highlight-color") {
            match w {
                JsonValue::Null => None,
                _ => match HillshadePaintLayerHillshadeHighlightColor::decode(w) {
                    Ok(_) => None,
                    Err(e) => Some(e),
                },
            }
        } else if str_eq(k, "hillshade-illumination-altitude") {
            match w {
                JsonValue::Null => None,
                _ => match HillshadePaintLayerHillshadeIlluminationAltitude::decode(w) {
                    Ok(_) => None,
                    Err(e) => Some(e),
                },
            }
        } else if str_eq(k, "hillshade-illumination-anchor") {
            match w {
                JsonValue::Null => None,
                _ => match HillshadePaintLayerHillshadeIlluminationAnchor::decode(w) {
                    Ok(_) => None,
                    Err(e) => Some(e),
                },
            }
        } else if str_eq(k, "hillshade-illumination-direction") {
            match w {
                JsonValue::Null => None,
                _ => match HillshadePaintLayerHillshadeIlluminationDirection::decode(w) {
                    Ok(_) => None,
                    Err(e) => Some(e),
                },
            }
        } else if str_eq(k, "hillshade-method") {
            match w {
                JsonValue::Null => None,
                _ => match HillshadePaintLayerHillshadeMethod::decode(w) {
                    Ok(_) => None,
                    Err(e) => Some(e),
                },
            }
        } else if str_eq(k, "hillshade-shadow-color") {
            match w {
                JsonValue::Null => None,
                _ => match HillshadePaintLayerHillshadeShadowColor::decode(w) {
                    Ok(_) => None,
                    Err(e) => Some(e),
                },
            }
        } else {
            None
        }
    }

    fn object_rejection(fields: &Vec<(String, JsonValue)>) -> (r: String)
        ensures
            r@ == Self::rejection(JsonValue::Object(*fields).model()),
    {
        let ghost o = entries_model(*fields);
        let mut i: usize = 0;
        while i < fields.len()
            invariant
                o == entries_model(*fields),
                o.len() == fields.len(),
                i <= fields.len(),
                Self::first_fault(o, 0) == Self::first_fault(o, i as int),
            decreases fields.len() - i,
        {
            proof {
                assert(o[i as int] == (fields@[i as int].0@, fields@[i as int].1.model()));
            }
            if !key_seen_before(fields, i) {
                match Self::find_field_fault(fields[i].0.as_str(), &fields[i].1) {
                    Some(m) => {
                        return m;
                    },
                    None => {},
                }
            }
            i += 1;
        }
        String::new()
    }
}

impl HillshadePaintLayer {
    /// The keys of the fields, in order.
    pub open spec fn field_keys() -> Seq<Seq<char>> {
        seq!["hillshade-accent-color"@, "hillshade-exaggeration"@, "hillshade-highlight-color"@, "hillshade-illumination-altitude"@, "hillshade-illumination-anchor"@, "hillshade-illumination-direction"@, "hillshade-method"@, "hillshade-shadow-color"@]
    }

    /// The entries that each field is written as, in order.
    pub open spec fn field_entries(self) -> Seq<Seq<(Seq<char>, Json)>> {
        seq![opt_entry::<HillshadePaintLayerHillshadeAccentColor>("hillshade-accent-color"@, self.hillshade_accent_color), opt_entry::<HillshadePaintLayerHillshadeExaggeration>("hillshade-exaggeration"@, self.hillshade_exaggeration), opt_entry::<HillshadePaintLayerHillshadeHighlightColor>("hillshade-highlight-color"@, self.hillshade_highlight_color), opt_entry::<HillshadePaintLayerHillshadeIlluminationAltitude>("hillshade-illumination-altitude"@, self.hillshade_illumination_altitude), opt_entry::<HillshadePaintLayerHillshadeIlluminationAnchor>("hillshade-illumination-anchor"@, self.hillshade_illumination_anchor), opt_entry::<HillshadePaintLayerHillshadeIlluminationDirection>("hillshade-illumination-direction"@, self.hillshade_illumination_direction), opt_entry::<HillshadePaintLayerHillshadeMethod>("hillshade-method"@, self.hillshade_method), opt_entry::<HillshadePaintLayerHillshadeShadowColor>("hillshade-shadow-color"@, self.hillshade_shadow_color)]
    }

    proof fn lemma_keys_differ(i: int)
        requires
            0 <= i < 8,
        ensures
            others_differ(Self::field_keys(), i),
    {
        reveal_strlit("hillshade-accent-color");
        assert("hillshade-accent-color"@.len() == 22);
        reveal_strlit("hillshade-exaggeration");
        assert("hillshade-exaggeration"@.len() == 22);
        reveal_strlit("hillshade-highlight-color");
        assert("hillshade-highlight-color"@.len() == 25);
        reveal_strlit("hillshade-illumination-altitude");
        assert("hillshade-illumination-altitude"@.len() == 31);
        reveal_strlit("hillshade-illumination-anchor");
        assert("hillshade-illumination-anchor"@.len() == 29);
        reveal_strlit("hillshade-illumination-direction");
        assert("hillshade-illumination-direction"@.len() == 32);
        reveal_strlit("hillshade-method");
        assert("hillshade-method"@.len() == 16);
        reveal_strlit("hillshade-shadow-color");
        assert("hillshade-shadow-color"@.len() == 22);
        assert("hillshade-accent-color"@[10] != "hillshade-exaggeration"@[10]);
        assert("hillshade-accent-color"@[10] != "hillshade-shadow-color"@[10]);
        assert("hillshade-exaggeration"@[10] != "hillshade-shadow-color"@[10]);
    }
}

impl JsonEncode for HillshadePaintLayer {
    open spec fn to_json(self) -> Json {
        Json::Object(self.field_entries().flatten())
    }

    open spec fn round_trips(self) -> bool {
        &&& (self.hillshade_accent_color matches Some(t) ==> t.round_trips() && !(t.to_json() is Null))
        &&& (self.hillshade_exaggeration matches Some(t) ==> t.round_trips() && !(t.to_json() is Null))
        &&& (self.hillshade_highlight_color matches Some(t) ==> t.round_trips() && !(t.to_json() is Null))
        &&& (self.hillshade_illumination_altitude matches Some(t) ==> t.round_trips() && !(t.to_json() is Null))
        &&& (self.hillshade_illumination_anchor matches Some(t) ==> t.round_trips() && !(t.to_json() is Null))
        &&& (self.hillshade_illumination_direction matches Some(t) ==> t.round_trips() && !(t.to_json() is Null))
        &&& (self.hillshade_method matches Some(t) ==> t.round_trips() && !(t.to_json() is Null))
        &&& (self.hillshade_shadow_color matches Some(t) ==> t.round_trips() && !(t.to_json() is Null))
    }

    #[verifier::rlimit(30)]
    fn encode(&self) -> (r: JsonValue) {
        let mut out: Vec<(String, JsonValue)> = Vec::new();
        let ghost s0 = Seq::<Seq<(Seq<char>, Json)>>::empty();
        proof {
            assert(entries_model(out) =~= s0.flatten());
        }
        push_opt_entry::<HillshadePaintLayerHillshadeAccentColor>(&mut out, "hillshade-accent-color", &self.hillshade_accent_color);
        let ghost s1 = s0.push(opt_entry::<HillshadePaintLayerHillshadeAccentColor>("hillshade-accent-color"@, self.hillshade_accent_color));
        proof {
            s0.lemma_flatten_push(opt_entry::<HillshadePaintLayerHillshadeAccentColor>("hillshade-accent-color"@, self.hillshade_accent_color));
            assert(entries_model(out) =~= s1.flatten());
        }
        push_opt_entry::<HillshadePaintLayerHillshadeExaggeration>(&mut out, "hillshade-exaggeration", &self.hillshade_exaggeration);
        let ghost s2 = s1.push(opt_entry::<HillshadePaintLayerHillshadeExaggeration>("hillshade-exaggeration"@, self.hillshade_exaggeration));
        proof {
            s1.lemma_flatten_push(opt_entry::<HillshadePaintLayerHillshadeExaggeration>("hillshade-exaggeration"@, self.hillshade_exaggeration));
            assert(entries_model(out) =~= s2.flatten());
        }
        push_opt_entry::<HillshadePaintLayerHillshadeHighlightColor>(&mut out, "hillshade-highlight-color", &self.hillshade_highlight_color);
        let ghost s3 = s2.push(opt_entry::<HillshadePaintLayerHillshadeHighlightColor>("hillshade-highlight-color"@, self.hillshade_highlight_color));
        proof {
            s2.lemma_flatten_push(opt_entry::<HillshadePaintLayerHillshadeHighlightColor>("hillshade-highlight-color"@, self.hillshade_highlight_color));
            assert(entries_model(out) =~= s3.flatten());
        }
        push_opt_entry::<HillshadePaintLayerHillshadeIlluminationAltitude>(&mut out, "hillshade-illumination-altitude", &self.hillshade_illumination_altitude);
        let ghost s4 = s3.push(opt_entry::<HillshadePaintLayerHillshadeIlluminationAltitude>("hillshade-illumination-altitude"@, self.hillshade_illumination_altitude));
        proof {
            s3.lemma_flatten_push(opt_entry::<HillshadePaintLayerHillshadeIlluminationAltitude>("hillshade-illumination-altitude"@, self.hillshade_illumination_altitude));
            assert(entries_model(out) =~= s4.flatten());
        }
        push_opt_entry::<HillshadePaintLayerHillshadeIlluminationAnchor>(&mut out, "hillshade-illumination-anchor", &self.hillshade_illumination_anchor);
        let ghost s5 = s4.push(opt_entry::<HillshadePaintLayerHillshadeIlluminationAnchor>("hillshade-illumination-anchor"@, self.hillshade_illumination_anchor));
        proof {
            s4.lemma_flatten_push(opt_entry::<HillshadePaintLayerHillshadeIlluminationAnchor>("hillshade-illumination-anchor"@, self.hillshade_illumination_anchor));
            assert(entries_model(out) =~= s5.flatten());
        }
        push_opt_entry::<HillshadePaintLayerHillshadeIlluminationDirection>(&mut out, "hillshade-illumination-direction", &self.hillshade_illumination_direction);
        let ghost s6 = s5.push(opt_entry::<HillshadePaintLayerHillshadeIlluminationDirection>("hillshade-illumination-direction"@, self.hillshade_illumination_direction));
        proof {
            s5.lemma_flatten_push(opt_entry::<HillshadePaintLayerHillshadeIlluminationDirection>("hillshade-illumination-direction"@, self.hillshade_illumination_direction));
            assert(entries_model(out) =~= s6.flatten());
        }
        push_opt_entry::<HillshadePaintLayerHillshadeMethod>(&mut out, "hillshade-method", &self.hillshade_method);
        let ghost s7 = s6.push(opt_entry::<HillshadePaintLayerHillshadeMethod>("hillshade-method"@, self.hillshade_method));
        proof {
            s6.lemma_flatten_push(opt_entry::<HillshadePaintLayerHillshadeMethod>("hillshade-method"@, self.hillshade_method));
            assert(entries_model(out) =~= s7.flatten());
        }
        push_opt_entry::<HillshadePaintLayerHillshadeShadowColor>(&mut out, "hillshade-shadow-color", &self.hillshade_shadow_color);
        let ghost s8 = s7.push(opt_entry::<HillshadePaintLayerHillshadeShadowColor>("hillshade-shadow-color"@, self.hillshade_shadow_color));
        proof {
            s7.lemma_flatten_push(opt_entry::<HillshadePaintLayerHillshadeShadowColor>("hillshade-shadow-color"@, self.hillshade_shadow_color));
            assert(entries_model(out) =~= s8.flatten());
        }
        proof {
            assert(self.field_entries() == s8);
        }
        JsonValue::Object(out)
    }

    #[verifier::rlimit(30)]
    proof fn lemma_round_trip(self) {
        let keys = Self::field_keys();
        let es = self.field_entries();
        assert(keyed_by(es, keys));
        Self::lemma_keys_differ(0);
        lemma_lookup_flatten(es, keys, 0);
        lemma_lookup_opt_entry::<HillshadePaintLayerHillshadeAccentColor>("hillshade-accent-color"@, self.hillshade_accent_color, "hillshade-accent-color"@);
        if self.hillshade_accent_color is Some {
            self.hillshade_accent_color->0.lemma_round_trip();
        }
        Self::lemma_keys_differ(1);
        lemma_lookup_flatten(es, keys, 1);
        lemma_lookup_opt_entry::<HillshadePaintLayerHillshadeExaggeration>("hillshade-exaggeration"@, self.hillshade_exaggeration, "hillshade-exaggeration"@);
        if self.hillshade_exaggeration is Some {
            self.hillshade_exaggeration->0.lemma_round_trip();
        }
        Self::lemma_keys_differ(2);
        lemma_lookup_flatten(es, keys, 2);
        lemma_lookup_opt_entry::<HillshadePaintLayerHillshadeHighlightColor>("hillshade-highlight-color"@, self.hillshade_highlight_color, "hillshade-highlight-color"@);
        if self.hillshade_highlight_color is Some {
            self.hillshade_highlight_color->0.lemma_round_trip();
        }
        Self::lemma_keys_differ(3);
        lemma_lookup_flatten(es, keys, 3);
        lemma_lookup_opt_entry::<HillshadePaintLayerHillshadeIlluminationAltitude>("hillshade-illumination-altitude"@, self.hillshade_illumination_altitude, "hillshade-illumination-altitude"@);
        if self.hillshade_illumination_altitude is Some {
            self.hillshade_illumination_altitude->0.lemma_round_trip();
        }
        Self::lemma_keys_differ(4);
        lemma_lookup_flatten(es, keys, 4);
        lemma_lookup_opt_entry::<HillshadePaintLayerHillshadeIlluminationAnchor>("hillshade-illumination-anchor"@, self.hillshade_illumination_anchor, "hillshade-illumination-anchor"@);
        if self.hillshade_illumination_anchor is Some {
            self.hillshade_illumination_anchor->0.lemma_round_trip();
        }
        Self::lemma_keys_differ(5);
        lemma_lookup_flatten(es, keys, 5);
        lemma_lookup_opt_entry::<HillshadePaintLayerHillshadeIlluminationDirection>("hillshade-illumination-direction"@, self.hillshade_illumination_direction, "hillshade-illumination-direction"@);
        if self.hillshade_illumination_direction is Some {
            self.hillshade_illumination_direction->0.lemma_round_trip();
        }
        Self::lemma_keys_differ(6);
        lemma_lookup_flatten(es, keys, 6);
        lemma_lookup_opt_entry::<HillshadePaintLayerHillshadeMethod>("hillshade-method"@, self.hillshade_method, "hillshade-method"@);
        if self.hillshade_method is Some {
            self.hillshade_method->0.lemma_round_trip();
        }
        Self::lemma_keys_differ(7);
        lemma_lookup_flatten(es, keys, 7);
        lemma_lookup_opt_entry::<HillshadePaintLayerHillshadeShadowColor>("hillshade-shadow-color"@, self.hillshade_shadow_color, "hillshade-shadow-color"@);
        if self.hillshade_shadow_color is Some {
            self.hillshade_shadow_color->0.lemma_round_trip();
        }
    }
}

/// Nested expression: ramp (`interpolate-hcl`, …) or [`Color`] operators.
#[derive(PartialEq, Debug, Clone)]
pub enum HillshadePaintLayerHillshadeAccentColorExpression {
    Color(Color),
    Ramp(ColorOrArrayOfColor),
}

impl JsonDecode for HillshadePaintLayerHillshadeAccentColorExpression {
    open spec fn accepts(v: Json) -> bool {
        Color::accepts(v) || ColorOrArrayOfColor::accepts(v)
    }

    open spec fn decodes(v: Json, x: Self) -> bool {
        match x {
            HillshadePaintLayerHillshadeAccentColorExpression::Color(t) => Color::accepts(v) && Color::decodes(v, t),
            HillshadePaintLayerHillshadeAccentColorExpression::Ramp(t) => !Color::accepts(v) && ColorOrArrayOfColor::accepts(v) && ColorOrArrayOfColor::decodes(v, t),
        }
    }

    open spec fn rejection(v: Json) -> Seq<char> {
        "HillshadePaintLayerHillshadeAccentColorExpression: no variant matched. Expected Color(Color) | Ramp(ColorOrArrayOfColor). Errors: ["@ + "Color: "@ + Color::rejection(v) + "; Ramp: "@ + ColorOrArrayOfColor::rejection(v) + "]"@
    }

    fn decode(v: &JsonValue) -> (r: Result<Self, String>) {
        let e0 = match Color::decode(v) {
            Ok(x) => {
                return Ok(HillshadePaintLayerHillshadeAccentColorExpression::Color(x));
            },
            Err(e) => e,
        };
        let e1 = match ColorOrArrayOfColor::decode(v) {
            Ok(x) => {
                return Ok(HillshadePaintLayerHillshadeAccentColorExpression::Ramp(x));
            },
            Err(e) => e,
        };
        let mut m = "HillshadePaintLayerHillshadeAccentColorExpression: no variant matched. Expected Color(Color) | Ramp(ColorOrArrayOfColor). Errors: [".to_string();
        m.append("Color: ");
        m.append(e0.as_str());
        m.append("; Ramp: ");
        m.append(e1.as_str());
        m.append("]");
        Err(m)
    }
}

impl JsonEncode for HillshadePaintLayerHillshadeAccentColorExpression {
    open spec fn to_json(self) -> Json {
        match self {
            HillshadePaintLayerHillshadeAccentColorExpression::Color(t) => Color::to_json(t),
            HillshadePaintLayerHillshadeAccentColorExpression::Ramp(t) => ColorOrArrayOfColor::to_json(t),
        }
    }

    open spec fn round_trips(self) -> bool {
        match self {
            HillshadePaintLayerHillshadeAccentColorExpression::Color(t) => Color::round_trips(t),
            HillshadePaintLayerHillshadeAccentColorExpression::Ramp(t) => ColorOrArrayOfColor::round_trips(t) && !Color::accepts(ColorOrArrayOfColor::to_json(t)),
        }
    }

    fn encode(&self) -> (r: JsonValue) {
        match self {
            HillshadePaintLayerHillshadeAccentColorExpression::Color(t) => Color::encode(t),
            HillshadePaintLayerHillshadeAccentColorExpression::Ramp(t) => ColorOrArrayOfColor::encode(t),
        }
    }

    proof fn lemma_round_trip(self) {
        match self {
            HillshadePaintLayerHillshadeAccentColorExpression::Color(t) => Color::lemma_round_trip(t),
            HillshadePaintLayerHillshadeAccentColorExpression::Ramp(t) => ColorOrArrayOfColor::lemma_round_trip(t),
        }
    }
}

/// The shading color used to accentuate rugged terrain like sharp cliffs and gorges.
#[derive(PartialEq, Debug, Clone)]
pub enum HillshadePaintLayerHillshadeAccentColor {
    Expr(Box<HillshadePaintLayerHillshadeAccentColorExpression>),
    Literal(JsonValue),
}

impl JsonDecode for HillshadePaintLayerHillshadeAccentColor {
    open spec fn accepts(v: Json) -> bool {
        HillshadePaintLayerHillshadeAccentColorExpression::accepts(v) || JsonValue::accepts(v)
    }

    open spec fn decodes(v: Json, x: Self) -> bool {
        match x {
            HillshadePaintLayerHillshadeAccentColor::Expr(t) => HillshadePaintLayerHillshadeAccentColorExpression::accepts(v) && HillshadePaintLayerHillshadeAccentColorExpression::decodes(v, *t),
            HillshadePaintLayerHillshadeAccentColor::Literal(t) => !HillshadePaintLayerHillshadeAccentColorExpression::accepts(v) && JsonValue::accepts(v) && JsonValue::decodes(v, t),
        }
    }

    open spec fn rejection(v: Json) -> Seq<char> {
        "HillshadePaintLayerHillshadeAccentColor: no variant matched. Expected Expr(HillshadePaintLayerHillshadeAccentColorExpression) | Literal(serde_json::Value). Errors: ["@ + "Expr: "@ + HillshadePaintLayerHillshadeAccentColorExpression::rejection(v) + "; Literal: "@ + JsonValue::rejection(v) + "]"@
    }

    fn decode(v: &JsonValue) -> (r: Result<Self, String>) {
        let e0 = match HillshadePaintLayerHillshadeAccentColorExpression::decode(v) {
            Ok(x) => {
                return Ok(HillshadePaintLayerHillshadeAccentColor::Expr(Box::new(x)));
            },
            Err(e) => e,
        };
        let e1 = match JsonValue::decode(v) {
            Ok(x) => {
                return Ok(HillshadePaintLayerHillshadeAccentColor::Literal(x));
            },
            Err(e) => e,
        };
        let mut m = "HillshadePaintLayerHillshadeAccentColor: no variant matched. Expected Expr(HillshadePaintLayerHillshadeAccentColorExpression) | Literal(serde_json::Value). Errors: [".to_string();
        m.append("Expr: ");
        m.append(e0.as_str());
        m.append("; Literal: ");
        m.append(e1.as_str());
        m.append("]");
        Err(m)
    }
}

impl JsonEncode for HillshadePaintLayerHillshadeAccentColor {
    open spec fn to_json(self) -> Json {
        match self {
            HillshadePaintLayerHillshadeAccentColor::Expr(t) => HillshadePaintLayerHillshadeAccentColorExpression::to_json(*t),
            HillshadePaintLayerHillshadeAccentColor::Literal(t) => JsonValue::to_json(t),
        }
    }

    open spec fn round_trips(self) -> bool {
        match self {
            HillshadePaintLayerHillshadeAccentColor::Expr(t) => HillshadePaintLayerHillshadeAccentColorExpression::round_trips(*t),
            HillshadePaintLayerHillshadeAccentColor::Literal(t) => JsonValue::round_trips(t) && !HillshadePaintLayerHillshadeAccentColorExpression::accepts(JsonValue::to_json(t)),
        }
    }

    fn encode(&self) -> (r: JsonValue) {
        match self {
            HillshadePaintLayerHillshadeAccentColor::Expr(t) => HillshadePaintLayerHillshadeAccentColorExpression::encode(&**t),
            HillshadePaintLayerHillshadeAccentColor::Literal(t) => JsonValue::encode(t),
        }
    }

    proof fn lemma_round_trip(self) {
        match self {
            HillshadePaintLayerHillshadeAccentColor::Expr(t) => HillshadePaintLayerHillshadeAccentColorExpression::lemma_round_trip(*t),
            HillshadePaintLayerHillshadeAccentColor::Literal(t) => JsonValue::lemma_round_trip(t),
        }
    }
}

impl Default for HillshadePaintLayerHillshadeAccentColor {
    fn default() -> (r: Self)
        ensures
            r.to_json() == Json::Str("#000000"@),
            r is Literal,
    {
        let r = HillshadePaintLayerHillshadeAccentColor::Literal(JsonValue::String("#000000".to_string()));
        r
    }
}

/// Nested expression: ramp (`interpolate` / …) or regular [`Number`] operators.
#[derive(PartialEq, Debug, Clone)]
pub enum HillshadePaintLayerHillshadeExaggerationExpression {
    Number(Number),
    Ramp(NumberOrArrayOfNumberOrColorOrArrayOfColorOrProjection),
}

impl JsonDecode for HillshadePaintLayerHillshadeExaggerationExpression {
    open spec fn accepts(v: Json) -> bool {
        Number::accepts(v) || NumberOrArrayOfNumberOrColorOrArrayOfColorOrProjection::accepts(v)
    }

    open spec fn decodes(v: Json, x: Self) -> bool {
        match x {
            HillshadePaintLayerHillshadeExaggerationExpression::Number(t) => Number::accepts(v) && Number::decodes(v, t),
            HillshadePaintLayerHillshadeExaggerationExpression::Ramp(t) => !Number::accepts(v) && NumberOrArrayOfNumberOrColorOrArrayOfColorOrProjection::accepts(v) && NumberOrArrayOfNumberOrColorOrArrayOfColorOrProjection::decodes(v, t),
        }
    }

    open spec fn rejection(v: Json) -> Seq<char> {
        "HillshadePaintLayerHillshadeExaggerationExpression: no variant matched. Expected Number(Number) | Ramp(NumberOrArrayOfNumberOrColorOrArrayOfColorOrProjection). Errors: ["@ + "Number: "@ + Number::rejection(v) + "; Ramp: "@ + NumberOrArrayOfNumberOrColorOrArrayOfColorOrProjection::rejection(v) + "]"@
    }

    fn decode(v: &JsonValue) -> (r: Result<Self, String>) {
        let e0 = match Number::decode(v) {
            Ok(x) => {
                return Ok(HillshadePaintLayerHillshadeExaggerationExpression::Number(x));
            },
            Err(e) => e,
        };
        let e1 = match NumberOrArrayOfNumberOrColorOrArrayOfColorOrProjection::decode(v) {
            Ok(x) => {
                return Ok(HillshadePaintLayerHillshadeExaggerationExpression::Ramp(x));
            },
            Err(e) => e,
        };
        let mut m = "HillshadePaintLayerHillshadeExaggerationExpression: no variant matched. Expected Number(Number) | Ramp(NumberOrArrayOfNumberOrColorOrArrayOfColorOrProjection). Errors: [".to_string();
        m.append("Number: ");
        m.append(e0.as_str());
        m.append("; Ramp: ");
        m.append(e1.as_str());
        m.append("]");
        Err(m)
    }
}

impl JsonEncode for HillshadePaintLayerHillshadeExaggerationExpression {
    open spec fn to_json(self) -> Json {
        match self {
            HillshadePaintLayerHillshadeExaggerationExpression::Number(t) => Number::to_json(t),
            HillshadePaintLayerHillshadeExaggerationExpression::Ramp(t) => NumberOrArrayOfNumberOrColorOrArrayOfColorOrProjection::to_json(t),
        }
    }

    open spec fn round_trips(self) -> bool {
        match self {
            HillshadePaintLayerHillshadeExaggerationExpression::Number(t) => Number::round_trips(t),
            HillshadePaintLayerHillshadeExaggerationExpression::Ramp(t) => NumberOrArrayOfNumberOrColorOrArrayOfColorOrProjection::round_trips(t) && !Number::accepts(NumberOrArrayOfNumberOrColorOrArrayOfColorOrProjection::to_json(t)),
        }
    }

    fn encode(&self) -> (r: JsonValue) {
        match self {
            HillshadePaintLayerHillshadeExaggerationExpression::Number(t) => Number::encode(t),
            HillshadePaintLayerHillshadeExaggerationExpression::Ramp(t) => NumberOrArrayOfNumberOrColorOrArrayOfColorOrProjection::encode(t),
        }
    }

    proof fn lemma_round_trip(self) {
        match self {
            HillshadePaintLayerHillshadeExaggerationExpression::Number(t) => Number::lemma_round_trip(t),
            HillshadePaintLayerHillshadeExaggerationExpression::Ramp(t) => NumberOrArrayOfNumberOrColorOrArrayOfColorOrProjection::lemma_round_trip(t),
        }
    }
}

/// Intensity of the hillshade
#[derive(PartialEq, Debug, Clone)]
pub enum HillshadePaintLayerHillshadeExaggeration {
    Expr(Box<HillshadePaintLayerHillshadeExaggerationExpression>),
    Literal(JsonNumber),
}

impl JsonDecode for HillshadePaintLayerHillshadeExaggeration {
    open spec fn accepts(v: Json) -> bool {
        HillshadePaintLayerHillshadeExaggerationExpression::accepts(v) || JsonNumber::accepts(v)
    }

    open spec fn decodes(v: Json, x: Self) -> bool {
        match x {
            HillshadePaintLayerHillshadeExaggeration::Expr(t) => HillshadePaintLayerHillshadeExaggerationExpression::accepts(v) && HillshadePaintLayerHillshadeExaggerationExpression::decodes(v, *t),
            HillshadePaintLayerHillshadeExaggeration::Literal(t) => !HillshadePaintLayerHillshadeExaggerationExpression::accepts(v) && JsonNumber::accepts(v) && JsonNumber::decodes(v, t),
        }
    }

    open spec fn rejection(v: Json) -> Seq<char> {
        "HillshadePaintLayerHillshadeExaggeration: no variant matched. Expected Expr(HillshadePaintLayerHillshadeExaggerationExpression) | Literal(serde_json::Number). Errors: ["@ + "Expr: "@ + HillshadePaintLayerHillshadeExaggerationExpression::rejection(v) + "; Literal: "@ + JsonNumber::rejection(v) + "]"@
    }

    fn decode(v: &JsonValue) -> (r: Result<Self, String>) {
        let e0 = match HillshadePaintLayerHillshadeExaggerationExpression::decode(v) {
            Ok(x) => {
                return Ok(HillshadePaintLayerHillshadeExaggeration::Expr(Box::new(x)));
            },
            Err(e) => e,
        };
        let e1 = match JsonNumber::decode(v) {
            Ok(x) => {
                return Ok(HillshadePaintLayerHillshadeExaggeration::Literal(x));
            },
            Err(e) => e,
        };
        let mut m = "HillshadePaintLayerHillshadeExaggeration: no variant matched. Expected Expr(HillshadePaintLayerHillshadeExaggerationExpression) | Literal(serde_json::Number). Errors: [".to_string();
        m.append("Expr: ");
        m.append(e0.as_str());
        m.append("; Literal: ");
        m.append(e1.as_str());
        m.append("]");
        Err(m)
    }
}

impl JsonEncode for HillshadePaintLayerHillshadeExaggeration {
    open spec fn to_json(self) -> Json {
        match self {
            HillshadePaintLayerHillshadeExaggeration::Expr(t) => HillshadePaintLayerHillshadeExaggerationExpression::to_json(*t),
            HillshadePaintLayerHillshadeExaggeration::Literal(t) => JsonNumber::to_json(t),
        }
    }

    open spec fn round_trips(self) -> bool {
        match self {
            HillshadePaintLayerHillshadeExaggeration::Expr(t) => HillshadePaintLayerHillshadeExaggerationExpression::round_trips(*t),
            HillshadePaintLayerHillshadeExaggeration::Literal(t) => JsonNumber::round_trips(t) && !HillshadePaintLayerHillshadeExaggerationExpression::accepts(JsonNumber::to_json(t)),
        }
    }

    fn encode(&self) -> (r: JsonValue) {
        match self {
            HillshadePaintLayerHillshadeExaggeration::Expr(t) => HillshadePaintLayerHillshadeExaggerationExpression::encode(&**t),
            HillshadePaintLayerHillshadeExaggeration::Literal(t) => JsonNumber::encode(t),
        }
    }

    proof fn lemma_round_trip(self) {
        match self {
            HillshadePaintLayerHillshadeExaggeration::Expr(t) => HillshadePaintLayerHillshadeExaggerationExpression::lemma_round_trip(*t),
            HillshadePaintLayerHillshadeExaggeration::Literal(t) => JsonNumber::lemma_round_trip(t),
        }
    }
}

impl Default for HillshadePaintLayerHillshadeExaggeration {
    fn default() -> (r: Self)
        ensures
            r.to_json() == Json::Number("0.5"@),
            r is Literal,
    {
        let r = HillshadePaintLayerHillshadeExaggeration::Literal(JsonNumber::from_literal("0.5"));
        r
    }
}

/// The shading color of areas that faces towards the light source(s). Only when `hillshade-method` is set to `multidirectional` can you specify multiple light sources.
#[derive(PartialEq, Debug, Clone)]
pub enum HillshadePaintLayerHillshadeHighlightColor {
    /// A color
    One(ColorValue),
    /// A set of colors
    Multiple(Vec<ColorValue>),
}

impl JsonDecode for HillshadePaintLayerHillshadeHighlightColor {
    open spec fn accepts(v: Json) -> bool {
        ColorValue::accepts(v) || <Vec<ColorValue> as JsonDecode>::accepts(v)
    }

    open spec fn decodes(v: Json, x: Self) -> bool {
        match x {
            HillshadePaintLayerHillshadeHighlightColor::One(t) => ColorValue::accepts(v) && ColorValue::decodes(v, t),
            HillshadePaintLayerHillshadeHighlightColor::Multiple(t) => !ColorValue::accepts(v) && <Vec<ColorValue> as JsonDecode>::accepts(v) && <Vec<ColorValue> as JsonDecode>::decodes(v, t),
        }
    }

    open spec fn rejection(v: Json) -> Seq<char> {
        "HillshadePaintLayerHillshadeHighlightColor: no variant matched. Expected One(color::DynamicColor) | Multiple(Vec<color::DynamicColor>). Errors: ["@ + "One: "@ + ColorValue::rejection(v) + "; Multiple: "@ + <Vec<ColorValue> as JsonDecode>::rejection(v) + "]"@
    }

    fn decode(v: &JsonValue) -> (r: Result<Self, String>) {
        let e0 = match ColorValue::decode(v) {
            Ok(x) => {
                return Ok(HillshadePaintLayerHillshadeHighlightColor::One(x));
            },
            Err(e) => e,
        };
        let e1 = match <Vec<ColorValue> as JsonDecode>::decode(v) {
            Ok(x) => {
                return Ok(HillshadePaintLayerHillshadeHighlightColor::Multiple(x));
            },
            Err(e) => e,
        };
        let mut m = "HillshadePaintLayerHillshadeHighlightColor: no variant matched. Expected One(color::DynamicColor) | Multiple(Vec<color::DynamicColor>). Errors: [".to_string();
        m.append("One: ");
        m.append(e0.as_str());
        m.append("; Multiple: ");
        m.append(e1.as_str());
        m.append("]");
        Err(m)
    }
}

impl JsonEncode for HillshadePaintLayerHillshadeHighlightColor {
    open spec fn to_json(self) -> Json {
        match self {
            HillshadePaintLayerHillshadeHighlightColor::One(t) => ColorValue::to_json(t),
            HillshadePaintLayerHillshadeHighlightColor::Multiple(t) => <Vec<ColorValue> as JsonEncode>::to_json(t),
        }
    }

    open spec fn round_trips(self) -> bool {
        match self {
            HillshadePaintLayerHillshadeHighlightColor::One(t) => ColorValue::round_trips(t),
            HillshadePaintLayerHillshadeHighlightColor::Multiple(t) => <Vec<ColorValue> as JsonEncode>::round_trips(t) && !ColorValue::accepts(<Vec<ColorValue> as JsonEncode>::to_json(t)),
        }
    }

    fn encode(&self) -> (r: JsonValue) {
        match self {
            HillshadePaintLayerHillshadeHighlightColor::One(t) => ColorValue::encode(t),
            HillshadePaintLayerHillshadeHighlightColor::Multiple(t) => <Vec<ColorValue> as JsonEncode>::encode(t),
        }
    }

    proof fn lemma_round_trip(self) {
        match self {
            HillshadePaintLayerHillshadeHighlightColor::One(t) => ColorValue::lemma_round_trip(t),
            HillshadePaintLayerHillshadeHighlightColor::Multiple(t) => <Vec<ColorValue> as JsonEncode>::lemma_round_trip(t),
        }
    }
}

impl Default for HillshadePaintLayerHillshadeHighlightColor {
    fn default() -> (r: Self)
        ensures
            r.to_json() == Json::Str("#FFFFFF"@),
            r is One,
    {
        proof {
            reveal_strlit("#FFFFFF");
        }
        let r = HillshadePaintLayerHillshadeHighlightColor::One(default_color("#FFFFFF"));
        r
    }
}

/// The altitude of the light source(s) used to generate the hillshading with 0 as sunset and 90 as noon. Only when `hillshade-method` is set to `multidirectional` can you specify multiple light sources.
#[derive(PartialEq, Debug, Clone)]
pub enum HillshadePaintLayerHillshadeIlluminationAltitude {
    One(JsonNumber),
    Many(Vec<JsonNumber>),
}

impl JsonDecode for HillshadePaintLayerHillshadeIlluminationAltitude {
    open spec fn accepts(v: Json) -> bool {
        JsonNumber::accepts(v) || <Vec<JsonNumber> as JsonDecode>::accepts(v)
    }

    open spec fn decodes(v: Json, x: Self) -> bool {
        match x {
            HillshadePaintLayerHillshadeIlluminationAltitude::One(t) => JsonNumber::accepts(v) && JsonNumber::decodes(v, t),
            HillshadePaintLayerHillshadeIlluminationAltitude::Many(t) => !JsonNumber::accepts(v) && <Vec<JsonNumber> as JsonDecode>::accepts(v) && <Vec<JsonNumber> as JsonDecode>::decodes(v, t),
        }
    }

    open spec fn rejection(v: Json) -> Seq<char> {
        "HillshadePaintLayerHillshadeIlluminationAltitude: no variant matched. Expected One(serde_json::Number) | Many(Vec<serde_json::Number>). Errors: ["@ + "One: "@ + JsonNumber::rejection(v) + "; Many: "@ + <Vec<JsonNumber> as JsonDecode>::rejection(v) + "]"@
    }

    fn decode(v: &JsonValue) -> (r: Result<Self, String>) {
        let e0 = match JsonNumber::decode(v) {
            Ok(x) => {
                return Ok(HillshadePaintLayerHillshadeIlluminationAltitude::One(x));
            },
            Err(e) => e,
        };
        let e1 = match <Vec<JsonNumber> as JsonDecode>::decode(v) {
            Ok(x) => {
                return Ok(HillshadePaintLayerHillshadeIlluminationAltitude::Many(x));
            },
            Err(e) => e,
        };
        let mut m = "HillshadePaintLayerHillshadeIlluminationAltitude: no variant matched. Expected One(serde_json::Number) | Many(Vec<serde_json::Number>). Errors: [".to_string();
        m.append("One: ");
        m.append(e0.as_str());
        m.append("; Many: ");
        m.append(e1.as_str());
        m.append("]");
        Err(m)
    }
}

impl JsonEncode for HillshadePaintLayerHillshadeIlluminationAltitude {
    open spec fn to_json(self) -> Json {
        match self {
            HillshadePaintLayerHillshadeIlluminationAltitude::One(t) => JsonNumber::to_json(t),
            HillshadePaintLayerHillshadeIlluminationAltitude::Many(t) => <Vec<JsonNumber> as JsonEncode>::to_json(t),
        }
    }

    open spec fn round_trips(self) -> bool {
        match self {
            HillshadePaintLayerHillshadeIlluminationAltitude::One(t) => JsonNumber::round_trips(t),
            HillshadePaintLayerHillshadeIlluminationAltitude::Many(t) => <Vec<JsonNumber> as JsonEncode>::round_trips(t) && !JsonNumber::accepts(<Vec<JsonNumber> as JsonEncode>::to_json(t)),
        }
    }

    fn encode(&self) -> (r: JsonValue) {
        match self {
            HillshadePaintLayerHillshadeIlluminationAltitude::One(t) => JsonNumber::encode(t),
            HillshadePaintLayerHillshadeIlluminationAltitude::Many(t) => <Vec<JsonNumber> as JsonEncode>::encode(t),
        }
    }

    proof fn lemma_round_trip(self) {
        match self {
            HillshadePaintLayerHillshadeIlluminationAltitude::One(t) => JsonNumber::lemma_round_trip(t),
            HillshadePaintLayerHillshadeIlluminationAltitude::Many(t) => <Vec<JsonNumber> as JsonEncode>::lemma_round_trip(t),
        }
    }
}

impl Default for HillshadePaintLayerHillshadeIlluminationAltitude {
    fn default() -> (r: Self)
        ensures
            r.to_json() == Json::Number("45"@),
            r is One,
    {
        let r = HillshadePaintLayerHillshadeIlluminationAltitude::One(JsonNumber::from_literal("45"));
        r
    }
}

/// Direction of light source when map is rotated.
#[derive(PartialEq, Eq, Debug, Clone, Copy)]
pub enum HillshadePaintLayerHillshadeIlluminationAnchor {
    MapValue,
    Viewport,
}

impl HillshadePaintLayerHillshadeIlluminationAnchor {
    /// The name that stands for the value in a style document.
    pub open spec fn spec_name(self) -> Seq<char> {
        match self {
            HillshadePaintLayerHillshadeIlluminationAnchor::MapValue => "map"@,
            HillshadePaintLayerHillshadeIlluminationAnchor::Viewport => "viewport"@,
        }
    }

    /// The name that stands for the value in a style document.
    pub fn name(&self) -> (r: &'static str)
        ensures
            r@ == self.spec_name(),
    {
        match self {
            HillshadePaintLayerHillshadeIlluminationAnchor::MapValue => "map",
            HillshadePaintLayerHillshadeIlluminationAnchor::Viewport => "viewport",
        }
    }

    /// The value that a name stands for, if any.
    pub fn from_name(s: &str) -> (r: Option<HillshadePaintLayerHillshadeIlluminationAnchor>)
        ensures
            r matches Some(x) ==> x.spec_name() == s@,
            r is None ==> forall|x: HillshadePaintLayerHillshadeIlluminationAnchor| x.spec_name() != s@,
    {
        if str_eq(s, "map") {
            Some(HillshadePaintLayerHillshadeIlluminationAnchor::MapValue)
        } else if str_eq(s, "viewport") {
            Some(HillshadePaintLayerHillshadeIlluminationAnchor::Viewport)
        } else {
            None
        }
    }
}

impl HillshadePaintLayerHillshadeIlluminationAnchor {
    /// Each value is read from, and written as, the name that the style specification gives
    /// it, and a document holding one of these names reads as that value and no other.
    pub proof fn lemma_read_by_name()
        ensures
            forall|x: HillshadePaintLayerHillshadeIlluminationAnchor| <HillshadePaintLayerHillshadeIlluminationAnchor as JsonDecode>::decodes(Json::Str("viewport"@), x) <==> x == HillshadePaintLayerHillshadeIlluminationAnchor::Viewport,
            <HillshadePaintLayerHillshadeIlluminationAnchor as JsonEncode>::to_json(HillshadePaintLayerHillshadeIlluminationAnchor::Viewport) == Json::Str("viewport"@),
            forall|x: HillshadePaintLayerHillshadeIlluminationAnchor| <HillshadePaintLayerHillshadeIlluminationAnchor as JsonDecode>::decodes(Json::Str("map"@), x) <==> x == HillshadePaintLayerHillshadeIlluminationAnchor::MapValue,
            <HillshadePaintLayerHillshadeIlluminationAnchor as JsonEncode>::to_json(HillshadePaintLayerHillshadeIlluminationAnchor::MapValue) == Json::Str("map"@),
    {
        reveal_strlit("viewport");
        reveal_strlit("map");
        assert("map"@.len() != "viewport"@.len());
    }
}

impl JsonDecode for HillshadePaintLayerHillshadeIlluminationAnchor {
    /// The name of a value, or an object whose one entry has the name as its key and `null`.
    open spec fn accepts(v: Json) -> bool {
        ||| (v is Str && exists|x: HillshadePaintLayerHillshadeIlluminationAnchor| x.spec_name() == v->Str_0)
        ||| (v is Object && v->Object_0.len() == 1 && v->Object_0[0].1 is Null && exists|x: HillshadePaintLayerHillshadeIlluminationAnchor| x.spec_name() == v->Object_0[0].0)
    }

    open spec fn decodes(v: Json, x: Self) -> bool {
        ||| v == Json::Str(x.spec_name())
        ||| (v is Object && v->Object_0.len() == 1 && v->Object_0[0] == (x.spec_name(), Json::Null))
    }

    open spec fn rejection(v: Json) -> Seq<char> {
        if v is Str {
            unknown_variant(v->Str_0) + ", expected `map` or `viewport`"@
        } else if v is Object {
            let o = v->Object_0;
            if o.len() != 1 {
                "invalid value: map, expected map with a single key"@
            } else if !(exists|x: HillshadePaintLayerHillshadeIlluminationAnchor| x.spec_name() == o[0].0) {
                unknown_variant(o[0].0) + ", expected `map` or `viewport`"@
            } else {
                type_error(o[0].1, "unit"@)
            }
        } else {
            type_error(v, "string or map"@)
        }
    }

    fn decode(v: &JsonValue) -> (r: Result<Self, String>) {
        match v {
            JsonValue::String(s) => match Self::from_name(s.as_str()) {
                Some(x) => Ok(x),
                None => {
                    let mut m = make_unknown_variant(s.as_str());
                    m.append(", expected `map` or `viewport`");
                    Err(m)
                },
            },
            JsonValue::Object(fields) => {
                if fields.len() != 1 {
                    return Err("invalid value: map, expected map with a single key".to_string());
                }
                proof {
                    assert(entries_model(*fields)[0] == (fields@[0].0@, fields@[0].1.model()));
                }
                match Self::from_name(fields[0].0.as_str()) {
                    Some(x) => match &fields[0].1 {
                        JsonValue::Null => Ok(x),
                        _ => Err(make_type_error(&fields[0].1, "unit")),
                    },
                    None => {
                        let mut m = make_unknown_variant(fields[0].0.as_str());
                        m.append(", expected `map` or `viewport`");
                        Err(m)
                    },
                }
            },
            _ => Err(make_type_error(v, "string or map")),
        }
    }
}

impl JsonEncode for HillshadePaintLayerHillshadeIlluminationAnchor {
    open spec fn to_json(self) -> Json {
        Json::Str(self.spec_name())
    }

    open spec fn round_trips(self) -> bool {
        true
    }

    fn encode(&self) -> (r: JsonValue) {
        JsonValue::String(self.name().to_string())
    }

    proof fn lemma_round_trip(self) {
    }
}

impl Default for HillshadePaintLayerHillshadeIlluminationAnchor {
    fn default() -> (r: Self)
        ensures
            r == HillshadePaintLayerHillshadeIlluminationAnchor::Viewport,
    {
        HillshadePaintLayerHillshadeIlluminationAnchor::Viewport
    }
}

/// The direction of the light source(s) used to generate the hillshading with 0 as the top of the viewport if `hillshade-illumination-anchor` is set to `viewport` and due north if `hillshade-illumination-anchor` is set to `map`. Only when `hillshade-method` is set to `multidirectional` can you specify multiple light sources.
#[derive(PartialEq, Debug, Clone)]
pub enum HillshadePaintLayerHillshadeIlluminationDirection {
    One(JsonNumber),
    Many(Vec<JsonNumber>),
}

impl JsonDecode for HillshadePaintLayerHillshadeIlluminationDirection {
    open spec fn accepts(v: Json) -> bool {
        JsonNumber::accepts(v) || <Vec<JsonNumber> as JsonDecode>::accepts(v)
    }

    open spec fn decodes(v: Json, x: Self) -> bool {
        match x {
            HillshadePaintLayerHillshadeIlluminationDirection::One(t) => JsonNumber::accepts(v) && JsonNumber::decodes(v, t),
            HillshadePaintLayerHillshadeIlluminationDirection::Many(t) => !JsonNumber::accepts(v) && <Vec<JsonNumber> as JsonDecode>::accepts(v) && <Vec<JsonNumber> as JsonDecode>::decodes(v, t),
        }
    }

    open spec fn rejection(v: Json) -> Seq<char> {
        "HillshadePaintLayerHillshadeIlluminationDirection: no variant matched. Expected One(serde_json::Number) | Many(Vec<serde_json::Number>). Errors: ["@ + "One: "@ + JsonNumber::rejection(v) + "; Many: "@ + <Vec<JsonNumber> as JsonDecode>::rejection(v) + "]"@
    }

    fn decode(v: &JsonValue) -> (r: Result<Self, String>) {
        let e0 = match JsonNumber::decode(v) {
            Ok(x) => {
                return Ok(HillshadePaintLayerHillshadeIlluminationDirection::One(x));
            },
            Err(e) => e,
        };
        let e1 = match <Vec<JsonNumber> as JsonDecode>::decode(v) {
            Ok(x) => {
                return Ok(HillshadePaintLayerHillshadeIlluminationDirection::Many(x));
            },
            Err(e) => e,
        };
        let mut m = "HillshadePaintLayerHillshadeIlluminationDirection: no variant matched. Expected One(serde_json::Number) | Many(Vec<serde_json::Number>). Errors: [".to_string();
        m.append("One: ");
        m.append(e0.as_str());
        m.append("; Many: ");
        m.append(e1.as_str());
        m.append("]");
        Err(m)
    }
}

impl JsonEncode for HillshadePaintLayerHillshadeIlluminationDirection {
    open spec fn to_json(self) -> Json {
        match self {
            HillshadePaintLayerHillshadeIlluminationDirection::One(t) => JsonNumber::to_json(t),
            HillshadePaintLayerHillshadeIlluminationDirection::Many(t) => <Vec<JsonNumber> as JsonEncode>::to_json(t),
        }
    }

    open spec fn round_trips(self) -> bool {
        match self {
            HillshadePaintLayerHillshadeIlluminationDirection::One(t) => JsonNumber::round_trips(t),
            HillshadePaintLayerHillshadeIlluminationDirection::Many(t) => <Vec<JsonNumber> as JsonEncode>::round_trips(t) && !JsonNumber::accepts(<Vec<JsonNumber> as JsonEncode>::to_json(t)),
        }
    }

    fn encode(&self) -> (r: JsonValue) {
        match self {
            HillshadePaintLayerHillshadeIlluminationDirection::One(t) => JsonNumber::encode(t),
            HillshadePaintLayerHillshadeIlluminationDirection::Many(t) => <Vec<JsonNumber> as JsonEncode>::encode(t),
        }
    }

    proof fn lemma_round_trip(self) {
        match self {
            HillshadePaintLayerHillshadeIlluminationDirection::One(t) => JsonNumber::lemma_round_trip(t),
            HillshadePaintLayerHillshadeIlluminationDirection::Many(t) => <Vec<JsonNumber> as JsonEncode>::lemma_round_trip(t),
        }
    }
}

impl Default for HillshadePaintLayerHillshadeIlluminationDirection {
    fn default() -> (r: Self)
        ensures
            r.to_json() == Json::Number("335"@),
            r is One,
    {
        let r = HillshadePaintLayerHillshadeIlluminationDirection::One(JsonNumber::from_literal("335"));
        r
    }
}

/// The hillshade algorithm to use, one of `standard`, `basic`, `combined`, `igor`, or `multidirectional`. ![image](assets/hillshade_methods.png)
#[derive(PartialEq, Eq, Debug, Clone, Copy)]
pub enum HillshadePaintLayerHillshadeMethod {
    Basic,
    Combined,
    Igor,
    Multidirectional,
    Standard,
}

impl HillshadePaintLayerHillshadeMethod {
    /// The name that stands for the value in a style document.
    pub open spec fn spec_name(self) -> Seq<char> {
        match self {
            HillshadePaintLayerHillshadeMethod::Basic => "basic"@,
            HillshadePaintLayerHillshadeMethod::Combined => "combined"@,
            HillshadePaintLayerHillshadeMethod::Igor => "igor"@,
            HillshadePaintLayerHillshadeMethod::Multidirectional => "multidirectional"@,
            HillshadePaintLayerHillshadeMethod::Standard => "standard"@,
        }
    }

    /// The name that stands for the value in a style document.
    pub fn name(&self) -> (r: &'static str)
        ensures
            r@ == self.spec_name(),
    {
        match self {
            HillshadePaintLayerHillshadeMethod::Basic => "basic",
            HillshadePaintLayerHillshadeMethod::Combined => "combined",
            HillshadePaintLayerHillshadeMethod::Igor => "igor",
            HillshadePaintLayerHillshadeMethod::Multidirectional => "multidirectional",
            HillshadePaintLayerHillshadeMethod::Standard => "standard",
        }
    }

    /// The value that a name stands for, if any.
    pub fn from_name(s: &str) -> (r: Option<HillshadePaintLayerHillshadeMethod>)
        ensures
            r matches Some(x) ==> x.spec_name() == s@,
            r is None ==> forall|x: HillshadePaintLayerHillshadeMethod| x.spec_name() != s@,
    {
        if str_eq(s, "basic") {
            Some(HillshadePaintLayerHillshadeMethod::Basic)
        } else if str_eq(s, "combined") {
            Some(HillshadePaintLayerHillshadeMethod::Combined)
        } else if str_eq(s, "igor") {
            Some(HillshadePaintLayerHillshadeMethod::Igor)
        } else if str_eq(s, "multidirectional") {
            Some(HillshadePaintLayerHillshadeMethod::Multidirectional)
        } else if str_eq(s, "standard") {
            Some(HillshadePaintLayerHillshadeMethod::Standard)
        } else {
            None
        }
    }
}

impl HillshadePaintLayerHillshadeMethod {
    /// Each value is read from, and written as, the name that the style specification gives
    /// it, and a document holding one of these names reads as that value and no other.
    pub proof fn lemma_read_by_name()
        ensures
            forall|x: HillshadePaintLayerHillshadeMethod| <HillshadePaintLayerHillshadeMethod as JsonDecode>::decodes(Json::Str("basic"@), x) <==> x == HillshadePaintLayerHillshadeMethod::Basic,
            <HillshadePaintLayerHillshadeMethod as JsonEncode>::to_json(HillshadePaintLayerHillshadeMethod::Igor) == Json::Str("igor"@),
            forall|x: HillshadePaintLayerHillshadeMethod| <HillshadePaintLayerHillshadeMethod as JsonDecode>::decodes(Json::Str("multidirectional"@), x) <==> x == HillshadePaintLayerHillshadeMethod::Multidirectional,
            <HillshadePaintLayerHillshadeMethod as JsonEncode>::to_json(HillshadePaintLayerHillshadeMethod::Combined) == Json::Str("combined"@),
            forall|x: HillshadePaintLayerHillshadeMethod| <HillshadePaintLayerHillshadeMethod as JsonDecode>::decodes(Json::Str("combined"@), x) <==> x == HillshadePaintLayerHillshadeMethod::Combined,
            <HillshadePaintLayerHillshadeMethod as JsonEncode>::to_json(HillshadePaintLayerHillshadeMethod::Basic) == Json::Str("basic"@),
            forall|x: HillshadePaintLayerHillshadeMethod| <HillshadePaintLayerHillshadeMethod as JsonDecode>::decodes(Json::Str("standard"@), x) <==> x == HillshadePaintLayerHillshadeMethod::Standard,
            forall|x: HillshadePaintLayerHillshadeMethod| <HillshadePaintLayerHillshadeMethod as JsonDecode>::decodes(Json::Str("igor"@), x) <==> x == HillshadePaintLayerHillshadeMethod::Igor,
            <HillshadePaintLayerHillshadeMethod as JsonEncode>::to_json(HillshadePaintLayerHillshadeMethod::Multidirectional) == Json::Str("multidirectional"@),
            <HillshadePaintLayerHillshadeMethod as JsonEncode>::to_json(HillshadePaintLayerHillshadeMethod::Standard) == Json::Str("standard"@),
    {
        reveal_strlit("combined");
        reveal_strlit("basic");
        reveal_strlit("multidirectional");
        reveal_strlit("standard");
        reveal_strlit("igor");
        assert("combined"@.len() != "igor"@.len());
        assert("basic"@.len() != "combined"@.len());
        assert("basic"@.len() != "standard"@.len());
        assert("igor"@.len() != "multidirectional"@.len());
        assert("combined"@[0] != "standard"@[0]);
        assert("combined"@.len() != "multidirectional"@.len());
        assert("basic"@.len() != "multidirectional"@.len());
        assert("multidirectional"@.len() != "standard"@.len());
        assert("basic"@.len() != "igor"@.len());
        assert("igor"@.len() != "standard"@.len());
    }
}

impl JsonDecode for HillshadePaintLayerHillshadeMethod {
    /// The name of a value, or an object whose one entry has the name as its key and `null`.
    open spec fn accepts(v: Json) -> bool {
        ||| (v is Str && exists|x: HillshadePaintLayerHillshadeMethod| x.spec_name() == v->Str_0)
        ||| (v is Object && v->Object_0.len() == 1 && v->Object_0[0].1 is Null && exists|x: HillshadePaintLayerHillshadeMethod| x.spec_name() == v->Object_0[0].0)
    }

    open spec fn decodes(v: Json, x: Self) -> bool {
        ||| v == Json::Str(x.spec_name())
        ||| (v is Object && v->Object_0.len() == 1 && v->Object_0[0] == (x.spec_name(), Json::Null))
    }

    open spec fn rejection(v: Json) -> Seq<char> {
        if v is Str {
            unknown_variant(v->Str_0) + ", expected one of `basic`, `combined`, `igor`, `multidirectional`, `standard`"@
        } else if v is Object {
            let o = v->Object_0;
            if o.len() != 1 {
                "invalid value: map, expected map with a single key"@
            } else if !(exists|x: HillshadePaintLayerHillshadeMethod| x.spec_name() == o[0].0) {
                unknown_variant(o[0].0) + ", expected one of `basic`, `combined`, `igor`, `multidirectional`, `standard`"@
            } else {
                type_error(o[0].1, "unit"@)
            }
        } else {
            type_error(v, "string or map"@)
        }
    }

    fn decode(v: &JsonValue) -> (r: Result<Self, String>) {
        match v {
            JsonValue::String(s) => match Self::from_name(s.as_str()) {
                Some(x) => Ok(x),
                None => {
                    let mut m = make_unknown_variant(s.as_str());
                    m.append(", expected one of `basic`, `combined`, `igor`, `multidirectional`, `standard`");
                    Err(m)
                },
            },
            JsonValue::Object(fields) => {
                if fields.len() != 1 {
                    return Err("invalid value: map, expected map with a single key".to_string());
                }
                proof {
                    assert(entries_model(*fields)[0] == (fields@[0].0@, fields@[0].1.model()));
                }
                match Self::from_name(fields[0].0.as_str()) {
                    Some(x) => match &fields[0].1 {
                        JsonValue::Null => Ok(x),
                        _ => Err(make_type_error(&fields[0].1, "unit")),
                    },
                    None => {
                        let mut m = make_unknown_variant(fields[0].0.as_str());
                        m.append(", expected one of `basic`, `combined`, `igor`, `multidirectional`, `standard`");
                        Err(m)
                    },
                }
            },
            _ => Err(make_type_error(v, "string or map")),
        }
    }
}

impl JsonEncode for HillshadePaintLayerHillshadeMethod {
    open spec fn to_json(self) -> Json {
        Json::Str(self.spec_name())
    }

    open spec fn round_trips(self) -> bool {
        true
    }

    fn encode(&self) -> (r: JsonValue) {
        JsonValue::String(self.name().to_string())
    }

    proof fn lemma_round_trip(self) {
    }
}

impl Default for HillshadePaintLayerHillshadeMethod {
    fn default() -> (r: Self)
        ensures
            r == HillshadePaintLayerHillshadeMethod::Standard,
    {
        HillshadePaintLayerHillshadeMethod::Standard
    }
}

/// The shading color of areas that face away from the light source(s). Only when `hillshade-method` is set to `multidirectional` can you specify multiple light sources.
#[derive(PartialEq, Debug, Clone)]
pub enum HillshadePaintLayerHillshadeShadowColor {
    /// A color
    One(ColorValue),
    /// A set of colors
    Multiple(Vec<ColorValue>),
}

impl JsonDecode for HillshadePaintLayerHillshadeShadowColor {
    open spec fn accepts(v: Json) -> bool {
        ColorValue::accepts(v) || <Vec<ColorValue> as JsonDecode>::accepts(v)
    }

    open spec fn decodes(v: Json, x: Self) -> bool {
        match x {
            HillshadePaintLayerHillshadeShadowColor::One(t) => ColorValue::accepts(v) && ColorValue::decodes(v, t),
            HillshadePaintLayerHillshadeShadowColor::Multiple(t) => !ColorValue::accepts(v) && <Vec<ColorValue> as JsonDecode>::accepts(v) && <Vec<ColorValue> as JsonDecode>::decodes(v, t),
        }
    }

    open spec fn rejection(v: Json) -> Seq<char> {
        "HillshadePaintLayerHillshadeShadowColor: no variant matched. Expected One(color::DynamicColor) | Multiple(Vec<color::DynamicColor>). Errors: ["@ + "One: "@ + ColorValue::rejection(v) + "; Multiple: "@ + <Vec<ColorValue> as JsonDecode>::rejection(v) + "]"@
    }

    fn decode(v: &JsonValue) -> (r: Result<Self, String>) {
        let e0 = match ColorValue::decode(v) {
            Ok(x) => {
                return Ok(HillshadePaintLayerHillshadeShadowColor::One(x));
            },
            Err(e) => e,
        };
        let e1 = match <Vec<ColorValue> as JsonDecode>::decode(v) {
            Ok(x) => {
                return Ok(HillshadePaintLayerHillshadeShadowColor::Multiple(x));
            },
            Err(e) => e,
        };
        let mut m = "HillshadePaintLayerHillshadeShadowColor: no variant matched. Expected One(color::DynamicColor) | Multiple(Vec<color::DynamicColor>). Errors: [".to_string();
        m.append("One: ");
        m.append(e0.as_str());
        m.append("; Multiple: ");
        m.append(e1.as_str());
        m.append("]");
        Err(m)
    }
}

impl JsonEncode for HillshadePaintLayerHillshadeShadowColor {
    open spec fn to_json(self) -> Json {
        match self {
            HillshadePaintLayerHillshadeShadowColor::One(t) => ColorValue::to_json(t),
            HillshadePaintLayerHillshadeShadowColor::Multiple(t) => <Vec<ColorValue> as JsonEncode>::to_json(t),
        }
    }

    open spec fn round_trips(self) -> bool {
        match self {
            HillshadePaintLayerHillshadeShadowColor::One(t) => ColorValue::round_trips(t),
            HillshadePaintLayerHillshadeShadowColor::Multiple(t) => <Vec<ColorValue> as JsonEncode>::round_trips(t) && !ColorValue::accepts(<Vec<ColorValue> as JsonEncode>::to_json(t)),
        }
    }

    fn encode(&self) -> (r: JsonValue) {
        match self {
            HillshadePaintLayerHillshadeShadowColor::One(t) => ColorValue::encode(t),
            HillshadePaintLayerHillshadeShadowColor::Multiple(t) => <Vec<ColorValue> as JsonEncode>::encode(t),
        }
    }

    proof fn lemma_round_trip(self) {
        match self {
            HillshadePaintLayerHillshadeShadowColor::One(t) => ColorValue::lemma_round_trip(t),
            HillshadePaintLayerHillshadeShadowColor::Multiple(t) => <Vec<ColorValue> as JsonEncode>::lemma_round_trip(t),
        }
    }
}

impl Default for HillshadePaintLayerHillshadeShadowColor {
    fn default() -> (r: Self)
        ensures
            r.to_json() == Json::Str("#000000"@),
            r is One,
    {
        proof {
            reveal_strlit("#000000");
        }
        let r = HillshadePaintLayerHillshadeShadowColor::One(default_color("#000000"));
        r
    }
}

#[derive(PartialEq, Debug, Clone)]
pub struct LineLayoutLayer {
    /// The display of line endings.
    pub line_cap: Option<LineLayoutLayerLineCap>,
    /// The display of lines when joining.
    pub line_join: Option<LineLayoutLayerLineJoin>,
    /// Used to automatically convert miter joins to bevel joins for sharp angles.
    pub line_miter_limit: Option<LineLayoutLayerLineMiterLimit>,
    /// Used to automatically convert round joins to miter joins for shallow angles.
    pub line_round_limit: Option<LineLayoutLayerLineRoundLimit>,
    /// Sorts features in ascending order based on this value. Features with a higher sort key will appear above features with a lower sort key.
    pub line_sort_key: Option<LineLayoutLayerLineSortKey>,
    /// Whether this layer is displayed.
    pub visibility: Option<LineLayoutLayerVisibility>,
}

impl JsonDecode for LineLayoutLayer {
    /// An object with the fields by their keys, or an array with the fields in order.
    open spec fn accepts(v: Json) -> bool {
        ||| (v is Object && {
            let o = v->Object_0;
            &&& opt_field_accepts::<LineLayoutLayerLineCap>(o, "line-cap"@)
            &&& opt_field_accepts::<LineLayoutLayerLineJoin>(o, "line-join"@)
            &&& opt_field_accepts::<LineLayoutLayerLineMiterLimit>(o, "line-miter-limit"@)
            &&& opt_field_accepts::<LineLayoutLayerLineRoundLimit>(o, "line-round-limit"@)
            &&& opt_field_accepts::<LineLayoutLayerLineSortKey>(o, "line-sort-key"@)
            &&& opt_field_accepts::<LineLayoutLayerVisibility>(o, "visibility"@)
        })
        ||| (v is Array && {
            let a = v->Array_0;
            &&& seq_opt_accepts::<LineLayoutLayerLineCap>(a, 0, true)
            &&& seq_opt_accepts::<LineLayoutLayerLineJoin>(a, 1, true)
            &&& seq_opt_accepts::<LineLayoutLayerLineMiterLimit>(a, 2, true)
            &&& seq_opt_accepts::<LineLayoutLayerLineRoundLimit>(a, 3, true)
            &&& seq_opt_accepts::<LineLayoutLayerLineSortKey>(a, 4, true)
            &&& seq_opt_accepts::<LineLayoutLayerVisibility>(a, 5, true)
            &&& a.len() <= 6
        })
    }

    open spec fn decodes(v: Json, x: Self) -> bool {
        ||| (v is Object && {
            let o = v->Object_0;
            &&& opt_field_decodes::<LineLayoutLayerLineCap>(o, "line-cap"@, x.line_cap)
            &&& opt_field_decodes::<LineLayoutLayerLineJoin>(o, "line-join"@, x.line_join)
            &&& opt_field_decodes::<LineLayoutLayerLineMiterLimit>(o, "line-miter-limit"@, x.line_miter_limit)
            &&& opt_field_decodes::<LineLayoutLayerLineRoundLimit>(o, "line-round-limit"@, x.line_round_limit)
            &&& opt_field_decodes::<LineLayoutLayerLineSortKey>(o, "line-sort-key"@, x.line_sort_key)
            &&& opt_field_decodes::<LineLayoutLayerVisibility>(o, "visibility"@, x.visibility)
        })
        ||| (v is Array && {
            let a = v->Array_0;
            &&& seq_opt_decodes::<LineLayoutLayerLineCap>(a, 0, x.line_cap)
            &&& seq_opt_decodes::<LineLayoutLayerLineJoin>(a, 1, x.line_join)
            &&& seq_opt_decodes::<LineLayoutLayerLineMiterLimit>(a, 2, x.line_miter_limit)
            &&& seq_opt_decodes::<LineLayoutLayerLineRoundLimit>(a, 3, x.line_round_limit)
            &&& seq_opt_decodes::<LineLayoutLayerLineSortKey>(a, 4, x.line_sort_key)
            &&& seq_opt_decodes::<LineLayoutLayerVisibility>(a, 5, x.visibility)
        })
    }

    /// For an object, the first entry in order whose value does not read as its field, else the
    /// first required field that is missing.
    open spec fn rejection(v: Json) -> Seq<char> {
        if v is Object {
            let o = v->Object_0;
            match Self::first_fault(o, 0) {
                Some(m) => m,
                None => {
                    Seq::empty()
                },
            }
        } else if v is Array {
            let a = v->Array_0;
            if !seq_opt_accepts::<LineLayoutLayerLineCap>(a, 0, true) {
                seq_opt_rejection::<LineLayoutLayerLineCap>(a, 0, "struct LineLayoutLayer with 6 elements"@)
            } else if !seq_opt_accepts::<LineLayoutLayerLineJoin>(a, 1, true) {
                seq_opt_rejection::<LineLayoutLayerLineJoin>(a, 1, "struct LineLayoutLayer with 6 elements"@)
            } else if !seq_opt_accepts::<LineLayoutLayerLineMiterLimit>(a, 2, true) {
                seq_opt_rejection::<LineLayoutLayerLineMiterLimit>(a, 2, "struct LineLayoutLayer with 6 elements"@)
            } else if !seq_opt_accepts::<LineLayoutLayerLineRoundLimit>(a, 3, true) {
                seq_opt_rejection::<LineLayoutLayerLineRoundLimit>(a, 3, "struct LineLayoutLayer with 6 elements"@)
            } else if !seq_opt_accepts::<LineLayoutLayerLineSortKey>(a, 4, true) {
                seq_opt_rejection::<LineLayoutLayerLineSortKey>(a, 4, "struct LineLayoutLayer with 6 elements"@)
            } else if !seq_opt_accepts::<LineLayoutLayerVisibility>(a, 5, true) {
                seq_opt_rejection::<LineLayoutLayerVisibility>(a, 5, "struct LineLayoutLayer with 6 elements"@)
            } else if a.len() > 6 {
                length_error(a.len())
            } else {
                Seq::empty()
            }
        } else {
            type_error(v, "struct LineLayoutLayer"@)
        }
    }

    fn decode(v: &JsonValue) -> (r: Result<Self, String>) {
        match v {
            JsonValue::Object(fields) => {
                let line_cap = match decode_opt_field::<LineLayoutLayerLineCap>(fields, "line-cap") {
                    Ok(x) => x,
                    Err(_) => return Err(Self::object_rejection(fields)),
                };
                let line_join = match decode_opt_field::<LineLayoutLayerLineJoin>(fields, "line-join") {
                    Ok(x) => x,
                    Err(_) => return Err(Self::object_rejection(fields)),
                };
                let line_miter_limit = match decode_opt_field::<LineLayoutLayerLineMiterLimit>(fields, "line-miter-limit") {
                    Ok(x) => x,
                    Err(_) => return Err(Self::object_rejection(fields)),
                };
                let line_round_limit = match decode_opt_field::<LineLayoutLayerLineRoundLimit>(fields, "line-round-limit") {
                    Ok(x) => x,
                    Err(_) => return Err(Self::object_rejection(fields)),
                };
                let line_sort_key = match decode_opt_field::<LineLayoutLayerLineSortKey>(fields, "line-sort-key") {
                    Ok(x) => x,
                    Err(_) => return Err(Self::object_rejection(fields)),
                };
                let visibility = match decode_opt_field::<LineLayoutLayerVisibility>(fields, "visibility") {
                    Ok(x) => x,
                    Err(_) => return Err(Self::object_rejection(fields)),
                };
                Ok(LineLayoutLayer { line_cap, line_join, line_miter_limit, line_round_limit, line_sort_key, visibility })
            },
            JsonValue::Array(a) => {
                let line_cap = match decode_seq_opt::<LineLayoutLayerLineCap>(a, 0, true, "struct LineLayoutLayer with 6 elements") {
                    Ok(x) => x,
                    Err(e) => return Err(e),
                };
                let line_join = match decode_seq_opt::<LineLayoutLayerLineJoin>(a, 1, true, "struct LineLayoutLayer with 6 elements") {
                    Ok(x) => x,
                    Err(e) => return Err(e),
                };
                let line_miter_limit = match decode_seq_opt::<LineLayoutLayerLineMiterLimit>(a, 2, true, "struct LineLayoutLayer with 6 elements") {
                    Ok(x) => x,
                    Err(e) => return Err(e),
                };
                let line_round_limit = match decode_seq_opt::<LineLayoutLayerLineRoundLimit>(a, 3, true, "struct LineLayoutLayer with 6 elements") {
                    Ok(x) => x,
                    Err(e) => return Err(e),
                };
                let line_sort_key = match decode_seq_opt::<LineLayoutLayerLineSortKey>(a, 4, true, "struct LineLayoutLayer with 6 elements") {
                    Ok(x) => x,
                    Err(e) => return Err(e),
                };
                let visibility = match decode_seq_opt::<LineLayoutLayerVisibility>(a, 5, true, "struct LineLayoutLayer with 6 elements") {
                    Ok(x) => x,
                    Err(e) => return Err(e),
                };
                if a.len() > 6 {
                    return Err(make_length_error(a.len()));
                }
                Ok(LineLayoutLayer { line_cap, line_join, line_miter_limit, line_round_limit, line_sort_key, visibility })
            },
            _ => Err(make_type_error(v, "struct LineLayoutLayer")),
        }
    }
}

impl LineLayoutLayer {
    /// What is wrong with the value `w` of an entry with key `k`, where `k` is the key of a field.
    pub open spec fn field_fault(k: Seq<char>, w: Json) -> Option<Seq<char>> {
        if k == "line-cap"@ {
            if w is Null || LineLayoutLayerLineCap::accepts(w) {
                None
            } else {
                Some(LineLayoutLayerLineCap::rejection(w))
            }
        } else if k == "line-join"@ {
            if w is Null || LineLayoutLayerLineJoin::accepts(w) {
                None
            } else {
                Some(LineLayoutLayerLineJoin::rejection(w))
            }
        } else if k == "line-miter-limit"@ {
            if w is Null || LineLayoutLayerLineMiterLimit::accepts(w) {
                None
            } else {
                Some(LineLayoutLayerLineMiterLimit::rejection(w))
            }
        } else if k == "line-round-limit"@ {
            if w is Null || LineLayoutLayerLineRoundLimit::accepts(w) {
                None
            } else {
                Some(LineLayoutLayerLineRoundLimit::rejection(w))
            }
        } else if k == "line-sort-key"@ {
            if w is Null || LineLayoutLayerLineSortKey::accepts(w) {
                None
            } else {
                Some(LineLayoutLayerLineSortKey::rejection(w))
            }
        } else if k == "visibility"@ {
            if w is Null || LineLayoutLayerVisibility::accepts(w) {
                None
            } else {
                Some(LineLayoutLayerVisibility::rejection(w))
            }
        } else {
            None
        }
    }

    /// The message of the first entry of `o`, from entry `i` on and among the first entries of
    /// their keys, whose value does not read as its field, if any.
    pub open spec fn first_fault(o: Seq<(Seq<char>, Json)>, i: int) -> Option<Seq<char>>
        decreases o.len() - i,
    {
        if i < 0 || i >= o.len() {
            None
        } else if first_with_key(o, i) && Self::field_fault(o[i].0, o[i].1) is Some {
            Self::field_fault(o[i].0, o[i].1)
        } else {
            Self::first_fault(o, i + 1)
        }
    }

    fn find_field_fault(k: &str, w: &JsonValue) -> (r: Option<String>)
        ensures
            match r {
                Some(m) => Self::field_fault(k@, w.model()) == Some(m@),
                None => Self::field_fault(k@, w.model()) is None,
            },
    {
        if str_eq(k, "line-cap") {
            match w {
                JsonValue::Null => None,
                _ => match LineLayoutLayerLineCap::decode(w) {
                    Ok(_) => None,
                    Err(e) => Some(e),
                },
            }
        } else if str_eq(k, "line-join") {
            match w {
                JsonValue::Null => None,
                _ => match LineLayoutLayerLineJoin::decode(w) {
                    Ok(_) => None,
                    Err(e) => Some(e),
                },
            }
        } else if str_eq(k, "line-miter-limit") {
            match w {
                JsonValue::Null => None,
                _ => match LineLayoutLayerLineMiterLimit::decode(w) {
                    Ok(_) => None,
                    Err(e) => Some(e),
                },
            }
        } else if str_eq(k, "line-round-limit") {
            match w {
                JsonValue::Null => None,
                _ => match LineLayoutLayerLineRoundLimit::decode(w) {
                    Ok(_) => None,
                    Err(e) => Some(e),
                },
            }
        } else if str_eq(k, "line-sort-key") {
            match w {
                JsonValue::Null => None,
                _ => match LineLayoutLayerLineSortKey::decode(w) {
                    Ok(_) => None,
                    Err(e) => Some(e),
                },
            }
        } else if str_eq(k, "visibility") {
            match w {
                JsonValue::Null => None,
                _ => match LineLayoutLayerVisibility::decode(w) {
                    Ok(_) => None,
                    Err(e) => Some(e),
                },
            }
        } else {
            None
        }
    }

    fn object_rejection(fields: &Vec<(String, JsonValue)>) -> (r: String)
        ensures
            r@ == Self::rejection(JsonValue::Object(*fields).model()),
    {
        let ghost o = entries_model(*fields);
        let mut i: usize = 0;
        while i < fields.len()
            invariant
                o == entries_model(*fields),
                o.len() == fields.len(),
                i <= fields.len(),
                Self::first_fault(o, 0) == Self::first_fault(o, i as int),
            decreases fields.len() - i,
        {
            proof {
                assert(o[i as int] == (fields@[i as int].0@, fields@[i as int].1.model()));
            }
            if !key_seen_before(fields, i) {
                match Self::find_field_fault(fields[i].0.as_str(), &fields[i].1) {
                    Some(m) => {
                        return m;
                    },
                    None => {},
                }
            }
            i += 1;
        }
        String::new()
    }
}

impl LineLayoutLayer {
    /// The keys of the fields, in order.
    pub open spec fn field_keys() -> Seq<Seq<char>> {
        seq!["line-cap"@, "line-join"@, "line-miter-limit"@, "line-round-limit"@, "line-sort-key"@, "visibility"@]
    }

    /// The entries that each field is written as, in order.
    pub open spec fn field_entries(self) -> Seq<Seq<(Seq<char>, Json)>> {
        seq![opt_entry::<LineLayoutLayerLineCap>("line-cap"@, self.line_cap), opt_entry::<LineLayoutLayerLineJoin>("line-join"@, self.line_join), opt_entry::<LineLayoutLayerLineMiterLimit>("line-miter-limit"@, self.line_miter_limit), opt_entry::<LineLayoutLayerLineRoundLimit>("line-round-limit"@, self.line_round_limit), opt_entry::<LineLayoutLayerLineSortKey>("line-sort-key"@, self.line_sort_key), opt_entry::<LineLayoutLayerVisibility>("visibility"@, self.visibility)]
    }

    proof fn lemma_keys_differ(i: int)
        requires
            0 <= i < 6,
        ensures
            others_differ(Self::field_keys(), i),
    {
        reveal_strlit("line-cap");
        assert("line-cap"@.len() == 8);
        reveal_strlit("line-join");
        assert("line-join"@.len() == 9);
        reveal_strlit("line-miter-limit");
        assert("line-miter-limit"@.len() == 16);
        reveal_strlit("line-round-limit");
        assert("line-round-limit"@.len() == 16);
        reveal_strlit("line-sort-key");
        assert("line-sort-key"@.len() == 13);
        reveal_strlit("visibility");
        assert("visibility"@.len() == 10);
        assert("line-miter-limit"@[5] != "line-round-limit"@[5]);
    }
}

impl JsonEncode for LineLayoutLayer {
    open spec fn to_json(self) -> Json {
        Json::Object(self.field_entries().flatten())
    }

    open spec fn round_trips(self) -> bool {
        &&& (self.line_cap matches Some(t) ==> t.round_trips() && !(t.to_json() is Null))
        &&& (self.line_join matches Some(t) ==> t.round_trips() && !(t.to_json() is Null))
        &&& (self.line_miter_limit matches Some(t) ==> t.round_trips() && !(t.to_json() is Null))
        &&& (self.line_round_limit matches Some(t) ==> t.round_trips() && !(t.to_json() is Null))
        &&& (self.line_sort_key matches Some(t) ==> t.round_trips() && !(t.to_json() is Null))
        &&& (self.visibility matches Some(t) ==> t.round_trips() && !(t.to_json() is Null))
    }

    fn encode(&self) -> (r: JsonValue) {
        let mut out: Vec<(String, JsonValue)> = Vec::new();
        let ghost s0 = Seq::<Seq<(Seq<char>, Json)>>::empty();
        proof {
            assert(entries_model(out) =~= s0.flatten());
        }
        push_opt_entry::<LineLayoutLayerLineCap>(&mut out, "line-cap", &self.line_cap);
        let ghost s1 = s0.push(opt_entry::<LineLayoutLayerLineCap>("line-cap"@, self.line_cap));
        proof {
            s0.lemma_flatten_push(opt_entry::<LineLayoutLayerLineCap>("line-cap"@, self.line_cap));
            assert(entries_model(out) =~= s1.flatten());
        }
        push_opt_entry::<LineLayoutLayerLineJoin>(&mut out, "line-join", &self.line_join);
        let ghost s2 = s1.push(opt_entry::<LineLayoutLayerLineJoin>("line-join"@, self.line_join));
        proof {
            s1.lemma_flatten_push(opt_entry::<LineLayoutLayerLineJoin>("line-join"@, self.line_join));
            assert(entries_model(out) =~= s2.flatten());
        }
        push_opt_entry::<LineLayoutLayerLineMiterLimit>(&mut out, "line-miter-limit", &self.line_miter_limit);
        let ghost s3 = s2.push(opt_entry::<LineLayoutLayerLineMiterLimit>("line-miter-limit"@, self.line_miter_limit));
        proof {
            s2.lemma_flatten_push(opt_entry::<LineLayoutLayerLineMiterLimit>("line-miter-limit"@, self.line_miter_limit));
            assert(entries_model(out) =~= s3.flatten());
        }
        push_opt_entry::<LineLayoutLayerLineRoundLimit>(&mut out, "line-round-limit", &self.line_round_limit);
        let ghost s4 = s3.push(opt_entry::<LineLayoutLayerLineRoundLimit>("line-round-limit"@, self.line_round_limit));
        proof {
            s3.lemma_flatten_push(opt_entry::<LineLayoutLayerLineRoundLimit>("line-round-limit"@, self.line_round_limit));
            assert(entries_model(out) =~= s4.flatten());
        }
        push_opt_entry::<LineLayoutLayerLineSortKey>(&mut out, "line-sort-key", &self.line_sort_key);
        let ghost s5 = s4.push(opt_entry::<LineLayoutLayerLineSortKey>("line-sort-key"@, self.line_sort_key));
        proof {
            s4.lemma_flatten_push(opt_entry::<LineLayoutLayerLineSortKey>("line-sort-key"@, self.line_sort_key));
            assert(entries_model(out) =~= s5.flatten());
        }
        push_opt_entry::<LineLayoutLayerVisibility>(&mut out, "visibility", &self.visibility);
        let ghost s6 = s5.push(opt_entry::<LineLayoutLayerVisibility>("visibility"@, self.visibility));
        proof {
            s5.lemma_flatten_push(opt_entry::<LineLayoutLayerVisibility>("visibility"@, self.visibility));
            assert(entries_model(out) =~= s6.flatten());
        }
        proof {
            assert(self.field_entries() == s6);
        }
        JsonValue::Object(out)
    }

    proof fn lemma_round_trip(self) {
        let keys = Self::field_keys();
        let es = self.field_entries();
        assert(keyed_by(es, keys));
        Self::lemma_keys_differ(0);
        lemma_lookup_flatten(es, keys, 0);
        lemma_lookup_opt_entry::<LineLayoutLayerLineCap>("line-cap"@, self.line_cap, "line-cap"@);
        if self.line_cap is Some {
            self.line_cap->0.lemma_round_trip();
        }
        Self::lemma_keys_differ(1);
        lemma_lookup_flatten(es, keys, 1);
        lemma_lookup_opt_entry::<LineLayoutLayerLineJoin>("line-join"@, self.line_join, "line-join"@);
        if self.line_join is Some {
            self.line_join->0.lemma_round_trip();
        }
        Self::lemma_keys_differ(2);
        lemma_lookup_flatten(es, keys, 2);
        lemma_lookup_opt_entry::<LineLayoutLayerLineMiterLimit>("line-miter-limit"@, self.line_miter_limit, "line-miter-limit"@);
        if self.line_miter_limit is Some {
            self.line_miter_limit->0.lemma_round_trip();
        }
        Self::lemma_keys_differ(3);
        lemma_lookup_flatten(es, keys, 3);
        lemma_lookup_opt_entry::<LineLayoutLayerLineRoundLimit>("line-round-limit"@, self.line_round_limit, "line-round-limit"@);
        if self.line_round_limit is Some {
            self.line_round_limit->0.lemma_round_trip();
        }
        Self::lemma_keys_differ(4);
        lemma_lookup_flatten(es, keys, 4);
        lemma_lookup_opt_entry::<LineLayoutLayerLineSortKey>("line-sort-key"@, self.line_sort_key, "line-sort-key"@);
        if self.line_sort_key is Some {
            self.line_sort_key->0.lemma_round_trip();
        }
        Self::lemma_keys_differ(5);
        lemma_lookup_flatten(es, keys, 5);
        lemma_lookup_opt_entry::<LineLayoutLayerVisibility>("visibility"@, self.visibility, "visibility"@);
        if self.visibility is Some {
            self.visibility->0.lemma_round_trip();
        }
    }
}

/// The display of line endings.
#[derive(PartialEq, Eq, Debug, Clone, Copy)]
pub enum LineLayoutLayerLineCap {
    Butt,
    Round,
    Square,
}

impl LineLayoutLayerLineCap {
    /// The name that stands for the value in a style document.
    pub open spec fn spec_name(self) -> Seq<char> {
        match self {
            LineLayoutLayerLineCap::Butt => "butt"@,
            LineLayoutLayerLineCap::Round => "round"@,
            LineLayoutLayerLineCap::Square => "square"@,
        }
    }

    /// The name that stands for the value in a style document.
    pub fn name(&self) -> (r: &'static str)
        ensures
            r@ == self.spec_name(),
    {
        match self {
            LineLayoutLayerLineCap::Butt => "butt",
            LineLayoutLayerLineCap::Round => "round",
            LineLayoutLayerLineCap::Square => "square",
        }
    }

    /// The value that a name stands for, if any.
    pub fn from_name(s: &str) -> (r: Option<LineLayoutLayerLineCap>)
        ensures
            r matches Some(x) ==> x.spec_name() == s@,
            r is None ==> forall|x: LineLayoutLayerLineCap| x.spec_name() != s@,
    {
        if str_eq(s, "butt") {
            Some(LineLayoutLayerLineCap::Butt)
        } else if str_eq(s, "round") {
            Some(LineLayoutLayerLineCap::Round)
        } else if str_eq(s, "square") {
            Some(LineLayoutLayerLineCap::Square)
        } else {
            None
        }
    }
}

impl LineLayoutLayerLineCap {
    /// Each value is read from, and written as, the name that the style specification gives
    /// it, and a document holding one of these names reads as that value and no other.
    pub proof fn lemma_read_by_name()
        ensures
            forall|x: LineLayoutLayerLineCap| <LineLayoutLayerLineCap as JsonDecode>::decodes(Json::Str("square"@), x) <==> x == LineLayoutLayerLineCap::Square,
            forall|x: LineLayoutLayerLineCap| <LineLayoutLayerLineCap as JsonDecode>::decodes(Json::Str("round"@), x) <==> x == LineLayoutLayerLineCap::Round,
            <LineLayoutLayerLineCap as JsonEncode>::to_json(LineLayoutLayerLineCap::Round) == Json::Str("round"@),
            <LineLayoutLayerLineCap as JsonEncode>::to_json(LineLayoutLayerLineCap::Butt) == Json::Str("butt"@),
            <LineLayoutLayerLineCap as JsonEncode>::to_json(LineLayoutLayerLineCap::Square) == Json::Str("square"@),
            forall|x: LineLayoutLayerLineCap| <LineLayoutLayerLineCap as JsonDecode>::decodes(Json::Str("butt"@), x) <==> x == LineLayoutLayerLineCap::Butt,
    {
        reveal_strlit("butt");
        reveal_strlit("square");
        reveal_strlit("round");
        assert("butt"@.len() != "square"@.len());
        assert("butt"@.len() != "round"@.len());
        assert("round"@.len() != "square"@.len());
    }
}

impl JsonDecode for LineLayoutLayerLineCap {
    /// The name of a value, or an object whose one entry has the name as its key and `null`.
    open spec fn accepts(v: Json) -> bool {
        ||| (v is Str && exists|x: LineLayoutLayerLineCap| x.spec_name() == v->Str_0)
        ||| (v is Object && v->Object_0.len() == 1 && v->Object_0[0].1 is Null && exists|x: LineLayoutLayerLineCap| x.spec_name() == v->Object_0[0].0)
    }

    open spec fn decodes(v: Json, x: Self) -> bool {
        ||| v == Json::Str(x.spec_name())
        ||| (v is Object && v->Object_0.len() == 1 && v->Object_0[0] == (x.spec_name(), Json::Null))
    }

    open spec fn rejection(v: Json) -> Seq<char> {
        if v is Str {
            unknown_variant(v->Str_0) + ", expected one of `butt`, `round`, `square`"@
        } else if v is Object {
            let o = v->Object_0;
            if o.len() != 1 {
                "invalid value: map, expected map with a single key"@
            } else if !(exists|x: LineLayoutLayerLineCap| x.spec_name() == o[0].0) {
                unknown_variant(o[0].0) + ", expected one of `butt`, `round`, `square`"@
            } else {
                type_error(o[0].1, "unit"@)
            }
        } else {
            type_error(v, "string or map"@)
        }
    }

    fn decode(v: &JsonValue) -> (r: Result<Self, String>) {
        match v {
            JsonValue::String(s) => match Self::from_name(s.as_str()) {
                Some(x) => Ok(x),
                None => {
                    let mut m = make_unknown_variant(s.as_str());
                    m.append(", expected one of `butt`, `round`, `square`");
                    Err(m)
                },
            },
            JsonValue::Object(fields) => {
                if fields.len() != 1 {
                    return Err("invalid value: map, expected map with a single key".to_string());
                }
                proof {
                    assert(entries_model(*fields)[0] == (fields@[0].0@, fields@[0].1.model()));
                }
                match Self::from_name(fields[0].0.as_str()) {
                    Some(x) => match &fields[0].1 {
                        JsonValue::Null => Ok(x),
                        _ => Err(make_type_error(&fields[0].1, "unit")),
                    },
                    None => {
                        let mut m = make_unknown_variant(fields[0].0.as_str());
                        m.append(", expected one of `butt`, `round`, `square`");
                        Err(m)
                    },
                }
            },
            _ => Err(make_type_error(v, "string or map")),
        }
    }
}

impl JsonEncode for LineLayoutLayerLineCap {
    open spec fn to_json(self) -> Json {
        Json::Str(self.spec_name())
    }

    open spec fn round_trips(self) -> bool {
        true
    }

    fn encode(&self) -> (r: JsonValue) {
        JsonValue::String(self.name().to_string())
    }

    proof fn lemma_round_trip(self) {
    }
}

impl Default for LineLayoutLayerLineCap {
    fn default() -> (r: Self)
        ensures
            r == LineLayoutLayerLineCap::Butt,
    {
        LineLayoutLayerLineCap::Butt
    }
}

/// The display of lines when joining.
#[derive(PartialEq, Eq, Debug, Clone, Copy)]
pub enum LineLayoutLayerLineJoin {
    Bevel,
    Miter,
    Round,
}

impl LineLayoutLayerLineJoin {
    /// The name that stands for the value in a style document.
    pub open spec fn spec_name(self) -> Seq<char> {
        match self {
            LineLayoutLayerLineJoin::Bevel => "bevel"@,
            LineLayoutLayerLineJoin::Miter => "miter"@,
            LineLayoutLayerLineJoin::Round => "round"@,
        }
    }

    /// The name that stands for the value in a style document.
    pub fn name(&self) -> (r: &'static str)
        ensures
            r@ == self.spec_name(),
    {
        match self {
            LineLayoutLayerLineJoin::Bevel => "bevel",
            LineLayoutLayerLineJoin::Miter => "miter",
            LineLayoutLayerLineJoin::Round => "round",
        }
    }

    /// The value that a name stands for, if any.
    pub fn from_name(s: &str) -> (r: Option<LineLayoutLayerLineJoin>)
        ensures
            r matches Some(x) ==> x.spec_name() == s@,
            r is None ==> forall|x: LineLayoutLayerLineJoin| x.spec_name() != s@,
    {
        if str_eq(s, "bevel") {
            Some(LineLayoutLayerLineJoin::Bevel)
        } else if str_eq(s, "miter") {
            Some(LineLayoutLayerLineJoin::Miter)
        } else if str_eq(s, "round") {
            Some(LineLayoutLayerLineJoin::Round)
        } else {
            None
        }
    }
}

impl LineLayoutLayerLineJoin {
    /// Each value is read from, and written as, the name that the style specification gives
    /// it, and a document holding one of these names reads as that value and no other.
    pub proof fn lemma_read_by_name()
        ensures
            forall|x: LineLayoutLayerLineJoin| <LineLayoutLayerLineJoin as JsonDecode>::decodes(Json::Str("round"@), x) <==> x == LineLayoutLayerLineJoin::Round,
            forall|x: LineLayoutLayerLineJoin| <LineLayoutLayerLineJoin as JsonDecode>::decodes(Json::Str("bevel"@), x) <==> x == LineLayoutLayerLineJoin::Bevel,
            <LineLayoutLayerLineJoin as JsonEncode>::to_json(LineLayoutLayerLineJoin::Bevel) == Json::Str("bevel"@),
            <LineLayoutLayerLineJoin as JsonEncode>::to_json(LineLayoutLayerLineJoin::Round) == Json::Str("round"@),
            <LineLayoutLayerLineJoin as JsonEncode>::to_json(LineLayoutLayerLineJoin::Miter) == Json::Str("miter"@),
            forall|x: LineLayoutLayerLineJoin| <LineLayoutLayerLineJoin as JsonDecode>::decodes(Json::Str("miter"@), x) <==> x == LineLayoutLayerLineJoin::Miter,
    {
        reveal_strlit("bevel");
        reveal_strlit("miter");
        reveal_strlit("round");
        assert("bevel"@[0] != "miter"@[0]);
        assert("bevel"@[0] != "round"@[0]);
        assert("miter"@[0] != "round"@[0]);
    }
}

impl JsonDecode for LineLayoutLayerLineJoin {
    /// The name of a value, or an object whose one entry has the name as its key and `null`.
    open spec fn accepts(v: Json) -> bool {
        ||| (v is Str && exists|x: LineLayoutLayerLineJoin| x.spec_name() == v->Str_0)
        ||| (v is Object && v->Object_0.len() == 1 && v->Object_0[0].1 is Null && exists|x: LineLayoutLayerLineJoin| x.spec_name() == v->Object_0[0].0)
    }

    open spec fn decodes(v: Json, x: Self) -> bool {
        ||| v == Json::Str(x.spec_name())
        ||| (v is Object && v->Object_0.len() == 1 && v->Object_0[0] == (x.spec_name(), Json::Null))
    }

    open spec fn rejection(v: Json) -> Seq<char> {
        if v is Str {
            unknown_variant(v->Str_0) + ", expected one of `bevel`, `miter`, `round`"@
        } else if v is Object {
            let o = v->Object_0;
            if o.len() != 1 {
                "invalid value: map, expected map with a single key"@
            } else if !(exists|x: LineLayoutLayerLineJoin| x.spec_name() == o[0].0) {
                unknown_variant(o[0].0) + ", expected one of `bevel`, `miter`, `round`"@
            } else {
                type_error(o[0].1, "unit"@)
            }
        } else {
            type_error(v, "string or map"@)
        }
    }

    fn decode(v: &JsonValue) -> (r: Result<Self, String>) {
        match v {
            JsonValue::String(s) => match Self::from_name(s.as_str()) {
                Some(x) => Ok(x),
                None => {
                    let mut m = make_unknown_variant(s.as_str());
                    m.append(", expected one of `bevel`, `miter`, `round`");
                    Err(m)
                },
            },
            JsonValue::Object(fields) => {
                if fields.len() != 1 {
                    return Err("invalid value: map, expected map with a single key".to_string());
                }
                proof {
                    assert(entries_model(*fields)[0] == (fields@[0].0@, fields@[0].1.model()));
                }
                match Self::from_name(fields[0].0.as_str()) {
                    Some(x) => match &fields[0].1 {
                        JsonValue::Null => Ok(x),
                        _ => Err(make_type_error(&fields[0].1, "unit")),
                    },
                    None => {
                        let mut m = make_unknown_variant(fields[0].0.as_str());
                        m.append(", expected one of `bevel`, `miter`, `round`");
                        Err(m)
                    },
                }
            },
            _ => Err(make_type_error(v, "string or map")),
        }
    }
}

impl JsonEncode for LineLayoutLayerLineJoin {
    open spec fn to_json(self) -> Json {
        Json::Str(self.spec_name())
    }

    open spec fn round_trips(self) -> bool {
        true
    }

    fn encode(&self) -> (r: JsonValue) {
        JsonValue::String(self.name().to_string())
    }

    proof fn lemma_round_trip(self) {
    }
}

impl Default for LineLayoutLayerLineJoin {
    fn default() -> (r: Self)
        ensures
            r == LineLayoutLayerLineJoin::Miter,
    {
        LineLayoutLayerLineJoin::Miter
    }
}

/// Nested expression: ramp (`interpolate` / …) or regular [`Number`] operators.
#[derive(PartialEq, Debug, Clone)]
pub enum LineLayoutLayerLineMiterLimitExpression {
    Number(Number),
    Ramp(NumberOrArrayOfNumberOrColorOrArrayOfColorOrProjection),
}

impl JsonDecode for LineLayoutLayerLineMiterLimitExpression {
    open spec fn accepts(v: Json) -> bool {
        Number::accepts(v) || NumberOrArrayOfNumberOrColorOrArrayOfColorOrProjection::accepts(v)
    }

    open spec fn decodes(v: Json, x: Self) -> bool {
        match x {
            LineLayoutLayerLineMiterLimitExpression::Number(t) => Number::accepts(v) && Number::decodes(v, t),
            LineLayoutLayerLineMiterLimitExpression::Ramp(t) => !Number::accepts(v) && NumberOrArrayOfNumberOrColorOrArrayOfColorOrProjection::accepts(v) && NumberOrArrayOfNumberOrColorOrArrayOfColorOrProjection::decodes(v, t),
        }
    }

    open spec fn rejection(v: Json) -> Seq<char> {
        "LineLayoutLayerLineMiterLimitExpression: no variant matched. Expected Number(Number) | Ramp(NumberOrArrayOfNumberOrColorOrArrayOfColorOrProjection). Errors: ["@ + "Number: "@ + Number::rejection(v) + "; Ramp: "@ + NumberOrArrayOfNumberOrColorOrArrayOfColorOrProjection::rejection(v) + "]"@
    }

    fn decode(v: &JsonValue) -> (r: Result<Self, String>) {
        let e0 = match Number::decode(v) {
            Ok(x) => {
                return Ok(LineLayoutLayerLineMiterLimitExpression::Number(x));
            },
            Err(e) => e,
        };
        let e1 = match NumberOrArrayOfNumberOrColorOrArrayOfColorOrProjection::decode(v) {
            Ok(x) => {
                return Ok(LineLayoutLayerLineMiterLimitExpression::Ramp(x));
            },
            Err(e) => e,
        };
        let mut m = "LineLayoutLayerLineMiterLimitExpression: no variant matched. Expected Number(Number) | Ramp(NumberOrArrayOfNumberOrColorOrArrayOfColorOrProjection). Errors: [".to_string();
        m.append("Number: ");
        m.append(e0.as_str());
        m.append("; Ramp: ");
        m.append(e1.as_str());
        m.append("]");
        Err(m)
    }
}

impl JsonEncode for LineLayoutLayerLineMiterLimitExpression {
    open spec fn to_json(self) -> Json {
        match self {
            LineLayoutLayerLineMiterLimitExpression::Number(t) => Number::to_json(t),
            LineLayoutLayerLineMiterLimitExpression::Ramp(t) => NumberOrArrayOfNumberOrColorOrArrayOfColorOrProjection::to_json(t),
        }
    }

    open spec fn round_trips(self) -> bool {
        match self {
            LineLayoutLayerLineMiterLimitExpression::Number(t) => Number::round_trips(t),
            LineLayoutLayerLineMiterLimitExpression::Ramp(t) => NumberOrArrayOfNumberOrColorOrArrayOfColorOrProjection::round_trips(t) && !Number::accepts(NumberOrArrayOfNumberOrColorOrArrayOfColorOrProjection::to_json(t)),
        }
    }

    fn encode(&self) -> (r: JsonValue) {
        match self {
            LineLayoutLayerLineMiterLimitExpression::Number(t) => Number::encode(t),
            LineLayoutLayerLineMiterLimitExpression::Ramp(t) => NumberOrArrayOfNumberOrColorOrArrayOfColorOrProjection::encode(t),
        }
    }

    proof fn lemma_round_trip(self) {
        match self {
            LineLayoutLayerLineMiterLimitExpression::Number(t) => Number::lemma_round_trip(t),
            LineLayoutLayerLineMiterLimitExpression::Ramp(t) => NumberOrArrayOfNumberOrColorOrArrayOfColorOrProjection::lemma_round_trip(t),
        }
    }
}

/// Used to automatically convert miter joins to bevel joins for sharp angles.
#[derive(PartialEq, Debug, Clone)]
pub enum LineLayoutLayerLineMiterLimit {
    Expr(Box<LineLayoutLayerLineMiterLimitExpression>),
    Literal(JsonNumber),
}

impl JsonDecode for LineLayoutLayerLineMiterLimit {
    open spec fn accepts(v: Json) -> bool {
        LineLayoutLayerLineMiterLimitExpression::accepts(v) || JsonNumber::accepts(v)
    }

    open spec fn decodes(v: Json, x: Self) -> bool {
        match x {
            LineLayoutLayerLineMiterLimit::Expr(t) => LineLayoutLayerLineMiterLimitExpression::accepts(v) && LineLayoutLayerLineMiterLimitExpression::decodes(v, *t),
            LineLayoutLayerLineMiterLimit::Literal(t) => !LineLayoutLayerLineMiterLimitExpression::accepts(v) && JsonNumber::accepts(v) && JsonNumber::decodes(v, t),
        }
    }

    open spec fn rejection(v: Json) -> Seq<char> {
        "LineLayoutLayerLineMiterLimit: no variant matched. Expected Expr(LineLayoutLayerLineMiterLimitExpression) | Literal(serde_json::Number). Errors: ["@ + "Expr: "@ + LineLayoutLayerLineMiterLimitExpression::rejection(v) + "; Literal: "@ + JsonNumber::rejection(v) + "]"@
    }

    fn decode(v: &JsonValue) -> (r: Result<Self, String>) {
        let e0 = match LineLayoutLayerLineMiterLimitExpression::decode(v) {
            Ok(x) => {
                return Ok(LineLayoutLayerLineMiterLimit::Expr(Box::new(x)));
            },
            Err(e) => e,
        };
        let e1 = match JsonNumber::decode(v) {
            Ok(x) => {
                return Ok(LineLayoutLayerLineMiterLimit::Literal(x));
            },
            Err(e) => e,
        };
        let mut m = "LineLayoutLayerLineMiterLimit: no variant matched. Expected Expr(LineLayoutLayerLineMiterLimitExpression) | Literal(serde_json::Number). Errors: [".to_string();
        m.append("Expr: ");
        m.append(e0.as_str());
        m.append("; Literal: ");
        m.append(e1.as_str());
        m.append("]");
        Err(m)
    }
}

impl JsonEncode for LineLayoutLayerLineMiterLimit {
    open spec fn to_json(self) -> Json {
        match self {
            LineLayoutLayerLineMiterLimit::Expr(t) => LineLayoutLayerLineMiterLimitExpression::to_json(*t),
            LineLayoutLayerLineMiterLimit::Literal(t) => JsonNumber::to_json(t),
        }
    }

    open spec fn round_trips(self) -> bool {
        match self {
            LineLayoutLayerLineMiterLimit::Expr(t) => LineLayoutLayerLineMiterLimitExpression::round_trips(*t),
            LineLayoutLayerLineMiterLimit::Literal(t) => JsonNumber::round_trips(t) && !LineLayoutLayerLineMiterLimitExpression::accepts(JsonNumber::to_json(t)),
        }
    }

    fn encode(&self) -> (r: JsonValue) {
        match self {
            LineLayoutLayerLineMiterLimit::Expr(t) => LineLayoutLayerLineMiterLimitExpression::encode(&**t),
            LineLayoutLayerLineMiterLimit::Literal(t) => JsonNumber::encode(t),
        }
    }

    proof fn lemma_round_trip(self) {
        match self {
            LineLayoutLayerLineMiterLimit::Expr(t) => LineLayoutLayerLineMiterLimitExpression::lemma_round_trip(*t),
            LineLayoutLayerLineMiterLimit::Literal(t) => JsonNumber::lemma_round_trip(t),
        }
    }
}

impl Default for LineLayoutLayerLineMiterLimit {
    fn default() -> (r: Self)
        ensures
            r.to_json() == Json::Number("2"@),
            r is Literal,
    {
        let r = LineLayoutLayerLineMiterLimit::Literal(JsonNumber::from_literal("2"));
        r
    }
}

/// Nested expression: ramp (`interpolate` / …) or regular [`Number`] operators.
#[derive(PartialEq, Debug, Clone)]
pub enum LineLayoutLayerLineRoundLimitExpression {
    Number(Number),
    Ramp(NumberOrArrayOfNumberOrColorOrArrayOfColorOrProjection),
}

impl JsonDecode for LineLayoutLayerLineRoundLimitExpression {
    open spec fn accepts(v: Json) -> bool {
        Number::accepts(v) || NumberOrArrayOfNumberOrColorOrArrayOfColorOrProjection::accepts(v)
    }

    open spec fn decodes(v: Json, x: Self) -> bool {
        match x {
            LineLayoutLayerLineRoundLimitExpression::Number(t) => Number::accepts(v) && Number::decodes(v, t),
            LineLayoutLayerLineRoundLimitExpression::Ramp(t) => !Number::accepts(v) && NumberOrArrayOfNumberOrColorOrArrayOfColorOrProjection::accepts(v) && NumberOrArrayOfNumberOrColorOrArrayOfColorOrProjection::decodes(v, t),
        }
    }

    open spec fn rejection(v: Json) -> Seq<char> {
        "LineLayoutLayerLineRoundLimitExpression: no variant matched. Expected Number(Number) | Ramp(NumberOrArrayOfNumberOrColorOrArrayOfColorOrProjection). Errors: ["@ + "Number: "@ + Number::rejection(v) + "; Ramp: "@ + NumberOrArrayOfNumberOrColorOrArrayOfColorOrProjection::rejection(v) + "]"@
    }

    fn decode(v: &JsonValue) -> (r: Result<Self, String>) {
        let e0 = match Number::decode(v) {
            Ok(x) => {
                return Ok(LineLayoutLayerLineRoundLimitExpression::Number(x));
            },
            Err(e) => e,
        };
        let e1 = match NumberOrArrayOfNumberOrColorOrArrayOfColorOrProjection::decode(v) {
            Ok(x) => {
                return Ok(LineLayoutLayerLineRoundLimitExpression::Ramp(x));
            },
            Err(e) => e,
        };
        let mut m = "LineLayoutLayerLineRoundLimitExpression: no variant matched. Expected Number(Number) | Ramp(NumberOrArrayOfNumberOrColorOrArrayOfColorOrProjection). Errors: [".to_string();
        m.append("Number: ");
        m.append(e0.as_str());
        m.append("; Ramp: ");
        m.append(e1.as_str());
        m.append("]");
        Err(m)
    }
}

impl JsonEncode for LineLayoutLayerLineRoundLimitExpression {
    open spec fn to_json(self) -> Json {
        match self {
            LineLayoutLayerLineRoundLimitExpression::Number(t) => Number::to_json(t),
            LineLayoutLayerLineRoundLimitExpression::Ramp(t) => NumberOrArrayOfNumberOrColorOrArrayOfColorOrProjection::to_json(t),
        }
    }

    open spec fn round_trips(self) -> bool {
        match self {
            LineLayoutLayerLineRoundLimitExpression::Number(t) => Number::round_trips(t),
            LineLayoutLayerLineRoundLimitExpression::Ramp(t) => NumberOrArrayOfNumberOrColorOrArrayOfColorOrProjection::round_trips(t) && !Number::accepts(NumberOrArrayOfNumberOrColorOrArrayOfColorOrProjection::to_json(t)),
        }
    }

    fn encode(&self) -> (r: JsonValue) {
        match self {
            LineLayoutLayerLineRoundLimitExpression::Number(t) => Number::encode(t),
            LineLayoutLayerLineRoundLimitExpression::Ramp(t) => NumberOrArrayOfNumberOrColorOrArrayOfColorOrProjection::encode(t),
        }
    }

    proof fn lemma_round_trip(self) {
        match self {
            LineLayoutLayerLineRoundLimitExpression::Number(t) => Number::lemma_round_trip(t),
            LineLayoutLayerLineRoundLimitExpression::Ramp(t) => NumberOrArrayOfNumberOrColorOrArrayOfColorOrProjection::lemma_round_trip(t),
        }
    }
}

/// Used to automatically convert round joins to miter joins for shallow angles.
#[derive(PartialEq, Debug, Clone)]
pub enum LineLayoutLayerLineRoundLimit {
    Expr(Box<LineLayoutLayerLineRoundLimitExpression>),
    Literal(JsonNumber),
}

impl JsonDecode for LineLayoutLayerLineRoundLimit {
    open spec fn accepts(v: Json) -> bool {
        LineLayoutLayerLineRoundLimitExpression::accepts(v) || JsonNumber::accepts(v)
    }

    open spec fn decodes(v: Json, x: Self) -> bool {
        match x {
            LineLayoutLayerLineRoundLimit::Expr(t) => LineLayoutLayerLineRoundLimitExpression::accepts(v) && LineLayoutLayerLineRoundLimitExpression::decodes(v, *t),
            LineLayoutLayerLineRoundLimit::Literal(t) => !LineLayoutLayerLineRoundLimitExpression::accepts(v) && JsonNumber::accepts(v) && JsonNumber::decodes(v, t),
        }
    }

    open spec fn rejection(v: Json) -> Seq<char> {
        "LineLayoutLayerLineRoundLimit: no variant matched. Expected Expr(LineLayoutLayerLineRoundLimitExpression) | Literal(serde_json::Number). Errors: ["@ + "Expr: "@ + LineLayoutLayerLineRoundLimitExpression::rejection(v) + "; Literal: "@ + JsonNumber::rejection(v) + "]"@
    }

    fn decode(v: &JsonValue) -> (r: Result<Self, String>) {
        let e0 = match LineLayoutLayerLineRoundLimitExpression::decode(v) {
            Ok(x) => {
                return Ok(LineLayoutLayerLineRoundLimit::Expr(Box::new(x)));
            },
            Err(e) => e,
        };
        let e1 = match JsonNumber::decode(v) {
            Ok(x) => {
                return Ok(LineLayoutLayerLineRoundLimit::Literal(x));
            },
            Err(e) => e,
        };
        let mut m = "LineLayoutLayerLineRoundLimit: no variant matched. Expected Expr(LineLayoutLayerLineRoundLimitExpression) | Literal(serde_json::Number). Errors: [".to_string();
        m.append("Expr: ");
        m.append(e0.as_str());
        m.append("; Literal: ");
        m.append(e1.as_str());
        m.append("]");
        Err(m)
    }
}

impl JsonEncode for LineLayoutLayerLineRoundLimit {
    open spec fn to_json(self) -> Json {
        match self {
            LineLayoutLayerLineRoundLimit::Expr(t) => LineLayoutLayerLineRoundLimitExpression::to_json(*t),
            LineLayoutLayerLineRoundLimit::Literal(t) => JsonNumber::to_json(t),
        }
    }

    open spec fn round_trips(self) -> bool {
        match self {
            LineLayoutLayerLineRoundLimit::Expr(t) => LineLayoutLayerLineRoundLimitExpression::round_trips(*t),
            LineLayoutLayerLineRoundLimit::Literal(t) => JsonNumber::round_trips(t) && !LineLayoutLayerLineRoundLimitExpression::accepts(JsonNumber::to_json(t)),
        }
    }

    fn encode(&self) -> (r: JsonValue) {
        match self {
            LineLayoutLayerLineRoundLimit::Expr(t) => LineLayoutLayerLineRoundLimitExpression::encode(&**t),
            LineLayoutLayerLineRoundLimit::Literal(t) => JsonNumber::encode(t),
        }
    }

    proof fn lemma_round_trip(self) {
        match self {
            LineLayoutLayerLineRoundLimit::Expr(t) => LineLayoutLayerLineRoundLimitExpression::lemma_round_trip(*t),
            LineLayoutLayerLineRoundLimit::Literal(t) => JsonNumber::lemma_round_trip(t),
        }
    }
}

impl Default for LineLayoutLayerLineRoundLimit {
    fn default() -> (r: Self)
        ensures
            r.to_json() == Json::Number("1.05"@),
            r is Literal,
    {
        let r = LineLayoutLayerLineRoundLimit::Literal(JsonNumber::from_literal("1.05"));
        r
    }
}

/// Nested expression: ramp (`interpolate` / …) or regular [`Number`] operators.
#[derive(PartialEq, Debug, Clone)]
pub enum LineLayoutLayerLineSortKeyExpression {
    Number(Number),
    Ramp(NumberOrArrayOfNumberOrColorOrArrayOfColorOrProjection),
}

impl JsonDecode for LineLayoutLayerLineSortKeyExpression {
    open spec fn accepts(v: Json) -> bool {
        Number::accepts(v) || NumberOrArrayOfNumberOrColorOrArrayOfColorOrProjection::accepts(v)
    }

    open spec fn decodes(v: Json, x: Self) -> bool {
        match x {
            LineLayoutLayerLineSortKeyExpression::Number(t) => Number::accepts(v) && Number::decodes(v, t),
            LineLayoutLayerLineSortKeyExpression::Ramp(t) => !Number::accepts(v) && NumberOrArrayOfNumberOrColorOrArrayOfColorOrProjection::accepts(v) && NumberOrArrayOfNumberOrColorOrArrayOfColorOrProjection::decodes(v, t),
        }
    }

    open spec fn rejection(v: Json) -> Seq<char> {
        "LineLayoutLayerLineSortKeyExpression: no variant matched. Expected Number(Number) | Ramp(NumberOrArrayOfNumberOrColorOrArrayOfColorOrProjection). Errors: ["@ + "Number: "@ + Number::rejection(v) + "; Ramp: "@ + NumberOrArrayOfNumberOrColorOrArrayOfColorOrProjection::rejection(v) + "]"@
    }

    fn decode(v: &JsonValue) -> (r: Result<Self, String>) {
        let e0 = match Number::decode(v) {
            Ok(x) => {
                return Ok(LineLayoutLayerLineSortKeyExpression::Number(x));
            },
            Err(e) => e,
        };
        let e1 = match NumberOrArrayOfNumberOrColorOrArrayOfColorOrProjection::decode(v) {
            Ok(x) => {
                return Ok(LineLayoutLayerLineSortKeyExpression::Ramp(x));
            },
            Err(e) => e,
        };
        let mut m = "LineLayoutLayerLineSortKeyExpression: no variant matched. Expected Number(Number) | Ramp(NumberOrArrayOfNumberOrColorOrArrayOfColorOrProjection). Errors: [".to_string();
        m.append("Number: ");
        m.append(e0.as_str());
        m.append("; Ramp: ");
        m.append(e1.as_str());
        m.append("]");
        Err(m)
    }
}

impl JsonEncode for LineLayoutLayerLineSortKeyExpression {
    open spec fn to_json(self) -> Json {
        match self {
            LineLayoutLayerLineSortKeyExpression::Number(t) => Number::to_json(t),
            LineLayoutLayerLineSortKeyExpression::Ramp(t) => NumberOrArrayOfNumberOrColorOrArrayOfColorOrProjection::to_json(t),
        }
    }

    open spec fn round_trips(self) -> bool {
        match self {
            LineLayoutLayerLineSortKeyExpression::Number(t) => Number::round_trips(t),
            LineLayoutLayerLineSortKeyExpression::Ramp(t) => NumberOrArrayOfNumberOrColorOrArrayOfColorOrProjection::round_trips(t) && !Number::accepts(NumberOrArrayOfNumberOrColorOrArrayOfColorOrProjection::to_json(t)),
        }
    }

    fn encode(&self) -> (r: JsonValue) {
        match self {
            LineLayoutLayerLineSortKeyExpression::Number(t) => Number::encode(t),
            LineLayoutLayerLineSortKeyExpression::Ramp(t) => NumberOrArrayOfNumberOrColorOrArrayOfColorOrProjection::encode(t),
        }
    }

    proof fn lemma_round_trip(self) {
        match self {
            LineLayoutLayerLineSortKeyExpression::Number(t) => Number::lemma_round_trip(t),
            LineLayoutLayerLineSortKeyExpression::Ramp(t) => NumberOrArrayOfNumberOrColorOrArrayOfColorOrProjection::lemma_round_trip(t),
        }
    }
}

/// Sorts features in ascending order based on this value. Features with a higher sort key will appear above features with a lower sort key.
#[derive(PartialEq, Debug, Clone)]
pub enum LineLayoutLayerLineSortKey {
    Expr(Box<LineLayoutLayerLineSortKeyExpression>),
    Literal(JsonNumber),
}

impl JsonDecode for LineLayoutLayerLineSortKey {
    open spec fn accepts(v: Json) -> bool {
        LineLayoutLayerLineSortKeyExpression::accepts(v) || JsonNumber::accepts(v)
    }

    open spec fn decodes(v: Json, x: Self) -> bool {
        match x {
            LineLayoutLayerLineSortKey::Expr(t) => LineLayoutLayerLineSortKeyExpression::accepts(v) && LineLayoutLayerLineSortKeyExpression::decodes(v, *t),
            LineLayoutLayerLineSortKey::Literal(t) => !LineLayoutLayerLineSortKeyExpression::accepts(v) && JsonNumber::accepts(v) && JsonNumber::decodes(v, t),
        }
    }

    open spec fn rejection(v: Json) -> Seq<char> {
        "LineLayoutLayerLineSortKey: no variant matched. Expected Expr(LineLayoutLayerLineSortKeyExpression) | Literal(serde_json::Number). Errors: ["@ + "Expr: "@ + LineLayoutLayerLineSortKeyExpression::rejection(v) + "; Literal: "@ + JsonNumber::rejection(v) + "]"@
    }

    fn decode(v: &JsonValue) -> (r: Result<Self, String>) {
        let e0 = match LineLayoutLayerLineSortKeyExpression::decode(v) {
            Ok(x) => {
                return Ok(LineLayoutLayerLineSortKey::Expr(Box::new(x)));
            },
            Err(e) => e,
        };
        let e1 = match JsonNumber::decode(v) {
            Ok(x) => {
                return Ok(LineLayoutLayerLineSortKey::Literal(x));
            },
            Err(e) => e,
        };
        let mut m = "LineLayoutLayerLineSortKey: no variant matched. Expected Expr(LineLayoutLayerLineSortKeyExpression) | Literal(serde_json::Number). Errors: [".to_string();
        m.append("Expr: ");
        m.append(e0.as_str());
        m.append("; Literal: ");
        m.append(e1.as_str());
        m.append("]");
        Err(m)
    }
}

impl JsonEncode for LineLayoutLayerLineSortKey {
    open spec fn to_json(self) -> Json {
        match self {
            LineLayoutLayerLineSortKey::Expr(t) => LineLayoutLayerLineSortKeyExpression::to_json(*t),
            LineLayoutLayerLineSortKey::Literal(t) => JsonNumber::to_json(t),
        }
    }

    open spec fn round_trips(self) -> bool {
        match self {
            LineLayoutLayerLineSortKey::Expr(t) => LineLayoutLayerLineSortKeyExpression::round_trips(*t),
            LineLayoutLayerLineSortKey::Literal(t) => JsonNumber::round_trips(t) && !LineLayoutLayerLineSortKeyExpression::accepts(JsonNumber::to_json(t)),
        }
    }

    fn encode(&self) -> (r: JsonValue) {
        match self {
            LineLayoutLayerLineSortKey::Expr(t) => LineLayoutLayerLineSortKeyExpression::encode(&**t),
            LineLayoutLayerLineSortKey::Literal(t) => JsonNumber::encode(t),
        }
    }

    proof fn lemma_round_trip(self) {
        match self {
            LineLayoutLayerLineSortKey::Expr(t) => LineLayoutLayerLineSortKeyExpression::lemma_round_trip(*t),
            LineLayoutLayerLineSortKey::Literal(t) => JsonNumber::lemma_round_trip(t),
        }
    }
}

/// Whether this layer is displayed.
#[derive(PartialEq, Eq, Debug, Clone, Copy)]
pub enum LineLayoutLayerVisibility {
    NoneValue,
    Visible,
}

impl LineLayoutLayerVisibility {
    /// The name that stands for the value in a style document.
    pub open spec fn spec_name(self) -> Seq<char> {
        match self {
            LineLayoutLayerVisibility::NoneValue => "none"@,
            LineLayoutLayerVisibility::Visible => "visible"@,
        }
    }

    /// The name that stands for the value in a style document.
    pub fn name(&self) -> (r: &'static str)
        ensures
            r@ == self.spec_name(),
    {
        match self {
            LineLayoutLayerVisibility::NoneValue => "none",
            LineLayoutLayerVisibility::Visible => "visible",
        }
    }

    /// The value that a name stands for, if any.
    pub fn from_name(s: &str) -> (r: Option<LineLayoutLayerVisibility>)
        ensures
            r matches Some(x) ==> x.spec_name() == s@,
            r is None ==> forall|x: LineLayoutLayerVisibility| x.spec_name() != s@,
    {
        if str_eq(s, "none") {
            Some(LineLayoutLayerVisibility::NoneValue)
        } else if str_eq(s, "visible") {
            Some(LineLayoutLayerVisibility::Visible)
        } else {
            None
        }
    }
}

impl LineLayoutLayerVisibility {
    /// Each value is read from, and written as, the name that the style specification gives
    /// it, and a document holding one of these names reads as that value and no other.
    pub proof fn lemma_read_by_name()
        ensures
            forall|x: LineLayoutLayerVisibility| <LineLayoutLayerVisibility as JsonDecode>::decodes(Json::Str("none"@), x) <==> x == LineLayoutLayerVisibility::NoneValue,
            <LineLayoutLayerVisibility as JsonEncode>::to_json(LineLayoutLayerVisibility::NoneValue) == Json::Str("none"@),
            <LineLayoutLayerVisibility as JsonEncode>::to_json(LineLayoutLayerVisibility::Visible) == Json::Str("visible"@),
            forall|x: LineLayoutLayerVisibility| <LineLayoutLayerVisibility as JsonDecode>::decodes(Json::Str("visible"@), x) <==> x == LineLayoutLayerVisibility::Visible,
    {
        reveal_strlit("visible");
        reveal_strlit("none");
        assert("none"@.len() != "visible"@.len());
    }
}

impl JsonDecode for LineLayoutLayerVisibility {
    /// The name of a value, or an object whose one entry has the name as its key and `null`.
    open spec fn accepts(v: Json) -> bool {
        ||| (v is Str && exists|x: LineLayoutLayerVisibility| x.spec_name() == v->Str_0)
        ||| (v is Object && v->Object_0.len() == 1 && v->Object_0[0].1 is Null && exists|x: LineLayoutLayerVisibility| x.spec_name() == v->Object_0[0].0)
    }

    open spec fn decodes(v: Json, x: Self) -> bool {
        ||| v == Json::Str(x.spec_name())
        ||| (v is Object && v->Object_0.len() == 1 && v->Object_0[0] == (x.spec_name(), Json::Null))
    }

    open spec fn rejection(v: Json) -> Seq<char> {
        if v is Str {
            unknown_variant(v->Str_0) + ", expected `none` or `visible`"@
        } else if v is Object {
            let o = v->Object_0;
            if o.len() != 1 {
                "invalid value: map, expected map with a single key"@
            } else if !(exists|x: LineLayoutLayerVisibility| x.spec_name() == o[0].0) {
                unknown_variant(o[0].0) + ", expected `none` or `visible`"@
            } else {
                type_error(o[0].1, "unit"@)
            }
        } else {
            type_error(v, "string or map"@)
        }
    }

    fn decode(v: &JsonValue) -> (r: Result<Self, String>) {
        match v {
            JsonValue::String(s) => match Self::from_name(s.as_str()) {
                Some(x) => Ok(x),
                None => {
                    let mut m = make_unknown_variant(s.as_str());
                    m.append(", expected `none` or `visible`");
                    Err(m)
                },
            },
            JsonValue::Object(fields) => {
                if fields.len() != 1 {
                    return Err("invalid value: map, expected map with a single key".to_string());
                }
                proof {
                    assert(entries_model(*fields)[0] == (fields@[0].0@, fields@[0].1.model()));
                }
                match Self::from_name(fields[0].0.as_str()) {
                    Some(x) => match &fields[0].1 {
                        JsonValue::Null => Ok(x),
                        _ => Err(make_type_error(&fields[0].1, "unit")),
                    },
                    None => {
                        let mut m = make_unknown_variant(fields[0].0.as_str());
                        m.append(", expected `none` or `visible`");
                        Err(m)
                    },
                }
            },
            _ => Err(make_type_error(v, "string or map")),
        }
    }
}

impl JsonEncode for LineLayoutLayerVisibility {
    open spec fn to_json(self) -> Json {
        Json::Str(self.spec_name())
    }

    open spec fn round_trips(self) -> bool {
        true
    }

    fn encode(&self) -> (r: JsonValue) {
        JsonValue::String(self.name().to_string())
    }

    proof fn lemma_round_trip(self) {
    }
}

impl Default for LineLayoutLayerVisibility {
    fn default() -> (r: Self)
        ensures
            r == LineLayoutLayerVisibility::Visible,
    {
        LineLayoutLayerVisibility::Visible
    }
}

#[derive(PartialEq, Debug, Clone)]
pub struct LinePaintLayer {
    /// Blur applied to the line, in pixels.
    pub line_blur: Option<LinePaintLayerLineBlur>,
    /// The color with which the line will be drawn.
    pub line_color: Option<LinePaintLayerLineColor>,
    /// Specifies the lengths of the alternating dashes and gaps that form the dash pattern. The lengths are later scaled by the line width. To convert a dash length to pixels, multiply the length by the current line width. GeoJSON sources with `lineMetrics: true` specified won't render dashed lines to the expected scale. Zoom-dependent expressions will be evaluated only at integer zoom levels. The only way to create an array value is using `["literal", [...]]`; arrays cannot be read from or derived from feature properties.
    pub line_dasharray: Option<LinePaintLayerLineDasharray>,
    /// Draws a line casing outside of a line's actual path. Value indicates the width of the inner gap.
    pub line_gap_width: Option<LinePaintLayerLineGapWidth>,
    /// Defines a gradient with which to color a line feature. Can only be used with GeoJSON sources that specify `"lineMetrics": true`.
    pub line_gradient: Option<LinePaintLayerLineGradient>,
    /// The line's offset. For linear features, a positive value offsets the line to the right, relative to the direction of the line, and a negative value to the left. For polygon features, a positive value results in an inset, and a negative value results in an outset.
    pub line_offset: Option<LinePaintLayerLineOffset>,
    /// The opacity at which the line will be drawn.
    pub line_opacity: Option<LinePaintLayerLineOpacity>,
    /// Name of image in sprite to use for drawing image lines. For seamless patterns, image width must be a factor of two (2, 4, 8, ..., 512). Note that zoom-dependent expressions will be evaluated only at integer zoom levels.
    pub line_pattern: Option<LinePaintLayerLinePattern>,
    /// The geometry's offset. Values are [x, y] where negatives indicate left and up, respectively.
    pub line_translate: Option<LinePaintLayerLineTranslate>,
    /// Controls the frame of reference for `line-translate`.
    pub line_translate_anchor: Option<LinePaintLayerLineTranslateAnchor>,
    /// Stroke thickness.
    pub line_width: Option<LinePaintLayerLineWidth>,
}

impl JsonDecode for LinePaintLayer {
    /// An object with the fields by their keys, or an array with the fields in order.
    open spec fn accepts(v: Json) -> bool {
        ||| (v is Object && {
            let o = v->Object_0;
            &&& opt_field_accepts::<LinePaintLayerLineBlur>(o, "line-blur"@)
            &&& opt_field_accepts::<LinePaintLayerLineColor>(o, "line-color"@)
            &&& opt_field_accepts::<LinePaintLayerLineDasharray>(o, "line-dasharray"@)
            &&& opt_field_accepts::<LinePaintLayerLineGapWidth>(o, "line-gap-width"@)
            &&& opt_field_accepts::<LinePaintLayerLineGradient>(o, "line-gradient"@)
            &&& opt_field_accepts::<LinePaintLayerLineOffset>(o, "line-offset"@)
            &&& opt_field_accepts::<LinePaintLayerLineOpacity>(o, "line-opacity"@)
            &&& opt_field_accepts::<LinePaintLayerLinePattern>(o, "line-pattern"@)
            &&& opt_field_accepts::<LinePaintLayerLineTranslate>(o, "line-translate"@)
            &&& opt_field_accepts::<LinePaintLayerLineTranslateAnchor>(o, "line-translate-anchor"@)
            &&& opt_field_accepts::<LinePaintLayerLineWidth>(o, "line-width"@)
        })
        ||| (v is Array && {
            let a = v->Array_0;
            &&& seq_opt_accepts::<LinePaintLayerLineBlur>(a, 0, true)
            &&& seq_opt_accepts::<LinePaintLayerLineColor>(a, 1, true)
            &&& seq_opt_accepts::<LinePaintLayerLineDasharray>(a, 2, true)
            &&& seq_opt_accepts::<LinePaintLayerLineGapWidth>(a, 3, true)
            &&& seq_opt_accepts::<LinePaintLayerLineGradient>(a, 4, true)
            &&& seq_opt_accepts::<LinePaintLayerLineOffset>(a, 5, true)
            &&& seq_opt_accepts::<LinePaintLayerLineOpacity>(a, 6, true)
            &&& seq_opt_accepts::<LinePaintLayerLinePattern>(a, 7, true)
            &&& seq_opt_accepts::<LinePaintLayerLineTranslate>(a, 8, true)
            &&& seq_opt_accepts::<LinePaintLayerLineTranslateAnchor>(a, 9, true)
            &&& seq_opt_accepts::<LinePaintLayerLineWidth>(a, 10, true)
            &&& a.len() <= 11
        })
    }

    open spec fn decodes(v: Json, x: Self) -> bool {
        ||| (v is Object && {
            let o = v->Object_0;
            &&& opt_field_decodes::<LinePaintLayerLineBlur>(o, "line-blur"@, x.line_blur)
            &&& opt_field_decodes::<LinePaintLayerLineColor>(o, "line-color"@, x.line_color)
            &&& opt_field_decodes::<LinePaintLayerLineDasharray>(o, "line-dasharray"@, x.line_dasharray)
            &&& opt_field_decodes::<LinePaintLayerLineGapWidth>(o, "line-gap-width"@, x.line_gap_width)
            &&& opt_field_decodes::<LinePaintLayerLineGradient>(o, "line-gradient"@, x.line_gradient)
            &&& opt_field_decodes::<LinePaintLayerLineOffset>(o, "line-offset"@, x.line_offset)
            &&& opt_field_decodes::<LinePaintLayerLineOpacity>(o, "line-opacity"@, x.line_opacity)
            &&& opt_field_decodes::<LinePaintLayerLinePattern>(o, "line-pattern"@, x.line_pattern)
            &&& opt_field_decodes::<LinePaintLayerLineTranslate>(o, "line-translate"@, x.line_translate)
            &&& opt_field_decodes::<LinePaintLayerLineTranslateAnchor>(o, "line-translate-anchor"@, x.line_translate_anchor)
            &&& opt_field_decodes::<LinePaintLayerLineWidth>(o, "line-width"@, x.line_width)
        })
        ||| (v is Array && {
            let a = v->Array_0;
            &&& seq_opt_decodes::<LinePaintLayerLineBlur>(a, 0, x.line_blur)
            &&& seq_opt_decodes::<LinePaintLayerLineColor>(a, 1, x.line_color)
            &&& seq_opt_decodes::<LinePaintLayerLineDasharray>(a, 2, x.line_dasharray)
            &&& seq_opt_decodes::<LinePaintLayerLineGapWidth>(a, 3, x.line_gap_width)
            &&& seq_opt_decodes::<LinePaintLayerLineGradient>(a, 4, x.line_gradient)
            &&& seq_opt_decodes::<LinePaintLayerLineOffset>(a, 5, x.line_offset)
            &&& seq_opt_decodes::<LinePaintLayerLineOpacity>(a, 6, x.line_opacity)
            &&& seq_opt_decodes::<LinePaintLayerLinePattern>(a, 7, x.line_pattern)
            &&& seq_opt_decodes::<LinePaintLayerLineTranslate>(a, 8, x.line_translate)
            &&& seq_opt_decodes::<LinePaintLayerLineTranslateAnchor>(a, 9, x.line_translate_anchor)
            &&& seq_opt_decodes::<LinePaintLayerLineWidth>(a, 10, x.line_width)
        })
    }

    /// For an object, the first entry in order whose value does not read as its field, else the
    /// first required field that is missing.
    open spec fn rejection(v: Json) -> Seq<char> {
        if v is Object {
            let o = v->Object_0;
            match Self::first_fault(o, 0) {
                Some(m) => m,
                None => {
                    Seq::empty()
                },
            }
        } else if v is Array {
            let a = v->Array_0;
            if !seq_opt_accepts::<LinePaintLayerLineBlur>(a, 0, true) {
                seq_opt_rejection::<LinePaintLayerLineBlur>(a, 0, "struct LinePaintLayer with 11 elements"@)
            } else if !seq_opt_accepts::<LinePaintLayerLineColor>(a, 1, true) {
                seq_opt_rejection::<LinePaintLayerLineColor>(a, 1, "struct LinePaintLayer with 11 elements"@)
            } else if !seq_opt_accepts::<LinePaintLayerLineDasharray>(a, 2, true) {
                seq_opt_rejection::<LinePaintLayerLineDasharray>(a, 2, "struct LinePaintLayer with 11 elements"@)
            } else if !seq_opt_accepts::<LinePaintLayerLineGapWidth>(a, 3, true) {
                seq_opt_rejection::<LinePaintLayerLineGapWidth>(a, 3, "struct LinePaintLayer with 11 elements"@)
            } else if !seq_opt_accepts::<LinePaintLayerLineGradient>(a, 4, true) {
                seq_opt_rejection::<LinePaintLayerLineGradient>(a, 4, "struct LinePaintLayer with 11 elements"@)
            } else if !seq_opt_accepts::<LinePaintLayerLineOffset>(a, 5, true) {
                seq_opt_rejection::<LinePaintLayerLineOffset>(a, 5, "struct LinePaintLayer with 11 elements"@)
            } else if !seq_opt_accepts::<LinePaintLayerLineOpacity>(a, 6, true) {
                seq_opt_rejection::<LinePaintLayerLineOpacity>(a, 6, "struct LinePaintLayer with 11 elements"@)
            } else if !seq_opt_accepts::<LinePaintLayerLinePattern>(a, 7, true) {
                seq_opt_rejection::<LinePaintLayerLinePattern>(a, 7, "struct LinePaintLayer with 11 elements"@)
            } else if !seq_opt_accepts::<LinePaintLayerLineTranslate>(a, 8, true) {
                seq_opt_rejection::<LinePaintLayerLineTranslate>(a, 8, "struct LinePaintLayer with 11 elements"@)
            } else if !seq_opt_accepts::<LinePaintLayerLineTranslateAnchor>(a, 9, true) {
                seq_opt_rejection::<LinePaintLayerLineTranslateAnchor>(a, 9, "struct LinePaintLayer with 11 elements"@)
            } else if !seq_opt_accepts::<LinePaintLayerLineWidth>(a, 10, true) {
                seq_opt_rejection::<LinePaintLayerLineWidth>(a, 10, "struct LinePaintLayer with 11 elements"@)
            } else if a.len() > 11 {
                length_error(a.len())
            } else {
                Seq::empty()
            }
        } else {
            type_error(v, "struct LinePaintLayer"@)
        }
    }

    fn decode(v: &JsonValue) -> (r: Result<Self, String>) {
        match v {
            JsonValue::Object(fields) => {
                let line_blur = match decode_opt_field::<LinePaintLayerLineBlur>(fields, "line-blur") {
                    Ok(x) => x,
                    Err(_) => return Err(Self::object_rejection(fields)),
                };
                let line_color = match decode_opt_field::<LinePaintLayerLineColor>(fields, "line-color") {
                    Ok(x) => x,
                    Err(_) => return Err(Self::object_rejection(fields)),
                };
                let line_dasharray = match decode_opt_field::<LinePaintLayerLineDasharray>(fields, "line-dasharray") {
                    Ok(x) => x,
                    Err(_) => return Err(Self::object_rejection(fields)),
                };
                let line_gap_width = match decode_opt_field::<LinePaintLayerLineGapWidth>(fields, "line-gap-width") {
                    Ok(x) => x,
                    Err(_) => return Err(Self::object_rejection(fields)),
                };
                let line_gradient = match decode_opt_field::<LinePaintLayerLineGradient>(fields, "line-gradient") {
                    Ok(x) => x,
                    Err(_) => return Err(Self::object_rejection(fields)),
                };
                let line_offset = match decode_opt_field::<LinePaintLayerLineOffset>(fields, "line-offset") {
                    Ok(x) => x,
                    Err(_) => return Err(Self::object_rejection(fields)),
                };
                let line_opacity = match decode_opt_field::<LinePaintLayerLineOpacity>(fields, "line-opacity") {
                    Ok(x) => x,
                    Err(_) => return Err(Self::object_rejection(fields)),
                };
                let line_pattern = match decode_opt_field::<LinePaintLayerLinePattern>(fields, "line-pattern") {
                    Ok(x) => x,
                    Err(_) => return Err(Self::object_rejection(fields)),
                };
                let line_translate = match decode_opt_field::<LinePaintLayerLineTranslate>(fields, "line-translate") {
                    Ok(x) => x,
                    Err(_) => return Err(Self::object_rejection(fields)),
                };
                let line_translate_anchor = match decode_opt_field::<LinePaintLayerLineTranslateAnchor>(fields, "line-translate-anchor") {
                    Ok(x) => x,
                    Err(_) => return Err(Self::object_rejection(fields)),
                };
                let line_width = match decode_opt_field::<LinePaintLayerLineWidth>(fields, "line-width") {
                    Ok(x) => x,
                    Err(_) => return Err(Self::object_rejection(fields)),
                };
                Ok(LinePaintLayer { line_blur, line_color, line_dasharray, line_gap_width, line_gradient, line_offset, line_opacity, line_pattern, line_translate, line_translate_anchor, line_width })
            },
            JsonValue::Array(a) => {
                let line_blur = match decode_seq_opt::<LinePaintLayerLineBlur>(a, 0, true, "struct LinePaintLayer with 11 elements") {
                    Ok(x) => x,
                    Err(e) => return Err(e),
                };
                let line_color = match decode_seq_opt::<LinePaintLayerLineColor>(a, 1, true, "struct LinePaintLayer with 11 elements") {
                    Ok(x) => x,
                    Err(e) => return Err(e),
                };
                let line_dasharray = match decode_seq_opt::<LinePaintLayerLineDasharray>(a, 2, true, "struct LinePaintLayer with 11 elements") {
                    Ok(x) => x,
                    Err(e) => return Err(e),
                };
                let line_gap_width = match decode_seq_opt::<LinePaintLayerLineGapWidth>(a, 3, true, "struct LinePaintLayer with 11 elements") {
                    Ok(x) => x,
                    Err(e) => return Err(e),
                };
                let line_gradient = match decode_seq_opt::<LinePaintLayerLineGradient>(a, 4, true, "struct LinePaintLayer with 11 elements") {
                    Ok(x) => x,
                    Err(e) => return Err(e),
                };
                let line_offset = match decode_seq_opt::<LinePaintLayerLineOffset>(a, 5, true, "struct LinePaintLayer with 11 elements") {
                    Ok(x) => x,
                    Err(e) => return Err(e),
                };
                let line_opacity = match decode_seq_opt::<LinePaintLayerLineOpacity>(a, 6, true, "struct LinePaintLayer with 11 elements") {
                    Ok(x) => x,
                    Err(e) => return Err(e),
                };
                let line_pattern = match decode_seq_opt::<LinePaintLayerLinePattern>(a, 7, true, "struct LinePaintLayer with 11 elements") {
                    Ok(x) => x,
                    Err(e) => return Err(e),
                };
                let line_translate = match decode_seq_opt::<LinePaintLayerLineTranslate>(a, 8, true, "struct LinePaintLayer with 11 elements") {
                    Ok(x) => x,
                    Err(e) => return Err(e),
                };
                let line_translate_anchor = match decode_seq_opt::<LinePaintLayerLineTranslateAnchor>(a, 9, true, "struct LinePaintLayer with 11 elements") {
                    Ok(x) => x,
                    Err(e) => return Err(e),
                };
                let line_width = match decode_seq_opt::<LinePaintLayerLineWidth>(a, 10, true, "struct LinePaintLayer with 11 elements") {
                    Ok(x) => x,
                    Err(e) => return Err(e),
                };
                if a.len() > 11 {
                    return Err(make_length_error(a.len()));
                }
                Ok(LinePaintLayer { line_blur, line_color, line_dasharray, line_gap_width, line_gradient, line_offset, line_opacity, line_pattern, line_translate, line_translate_anchor, line_width })
            },
            _ => Err(make_type_error(v, "struct LinePaintLayer")),
        }
    }
}

impl LinePaintLayer {
    /// What is wrong with the value `w` of an entry with key `k`, where `k` is the key of a field.
    pub open spec fn field_fault(k: Seq<char>, w: Json) -> Option<Seq<char>> {
        if k == "line-blur"@ {
            if w is Null || LinePaintLayerLineBlur::accepts(w) {
                None
            } else {
                Some(LinePaintLayerLineBlur::rejection(w))
            }
        } else if k == "line-color"@ {
            if w is Null || LinePaintLayerLineColor::accepts(w) {
                None
            } else {
                Some(LinePaintLayerLineColor::rejection(w))
            }
        } else if k == "line-dasharray"@ {
            if w is Null || LinePaintLayerLineDasharray::accepts(w) {
                None
            } else {
                Some(LinePaintLayerLineDasharray::rejection(w))
            }
        } else if k == "line-gap-width"@ {
            if w is Null || LinePaintLayerLineGapWidth::accepts(w) {
                None
            } else {
                Some(LinePaintLayerLineGapWidth::rejection(w))
            }
        } else if k == "line-gradient"@ {
            if w is Null || LinePaintLayerLineGradient::accepts(w) {
                None
            } else {
                Some(LinePaintLayerLineGradient::rejection(w))
            }
        } else if k == "line-offset"@ {
            if w is Null || LinePaintLayerLineOffset::accepts(w) {
                None
            } else {
                Some(LinePaintLayerLineOffset::rejection(w))
            }
        } else if k == "line-opacity"@ {
            if w is Null || LinePaintLayerLineOpacity::accepts(w) {
                None
            } else {
                Some(LinePaintLayerLineOpacity::rejection(w))
            }
        } else if k == "line-pattern"@ {
            if w is Null || LinePaintLayerLinePattern::accepts(w) {
                None
            } else {
                Some(LinePaintLayerLinePattern::rejection(w))
            }
        } else if k == "line-translate"@ {
            if w is Null || LinePaintLayerLineTranslate::accepts(w) {
                None
            } else {
                Some(LinePaintLayerLineTranslate::rejection(w))
            }
        } else if k == "line-translate-anchor"@ {
            if w is Null || LinePaintLayerLineTranslateAnchor::accepts(w) {
                None
            } else {
                Some(LinePaintLayerLineTranslateAnchor::rejection(w))
            }
        } else if k == "line-width"@ {
            if w is Null || LinePaintLayerLineWidth::accepts(w) {
                None
            } else {
                Some(LinePaintLayerLineWidth::rejection(w))
            }
        } else {
            None
        }
    }

    /// The message of the first entry of `o`, from entry `i` on and among the first entries of
    /// their keys, whose value does not read as its field, if any.
    pub open spec fn first_fault(o: Seq<(Seq<char>, Json)>, i: int) -> Option<Seq<char>>
        decreases o.len() - i,
    {
        if i < 0 || i >= o.len() {
            None
        } else if first_with_key(o, i) && Self::field_fault(o[i].0, o[i].1) is Some {
            Self::field_fault(o[i].0, o[i].1)
        } else {
            Self::first_fault(o, i + 1)
        }
    }

    fn find_field_fault(k: &str, w: &JsonValue) -> (r: Option<String>)
        ensures
            match r {
                Some(m) => Self::field_fault(k@, w.model()) == Some(m@),
                None => Self::field_fault(k@, w.model()) is None,
            },
    {
        if str_eq(k, "line-blur") {
            match w {
                JsonValue::Null => None,
                _ => match LinePaintLayerLineBlur::decode(w) {
                    Ok(_) => None,
                    Err(e) => Some(e),
                },
            }
        } else if str_eq(k, "line-color") {
            match w {
                JsonValue::Null => None,
                _ => match LinePaintLayerLineColor::decode(w) {
                    Ok(_) => None,
                    Err(e) => Some(e),
                },
            }
        } else if str_eq(k, "line-dasharray") {
            match w {
                JsonValue::Null => None,
                _ => match LinePaintLayerLineDasharray::decode(w) {
                    Ok(_) => None,
                    Err(e) => Some(e),
                },
            }
        } else if str_eq(k, "line-gap-width") {
            match w {
                JsonValue::Null => None,
                _ => match LinePaintLayerLineGapWidth::decode(w) {
                    Ok(_) => None,
                    Err(e) => Some(e),
                },
            }
        } else if str_eq(k, "line-gradient") {
            match w {
                JsonValue::Null => None,
                _ => match LinePaintLayerLineGradient::decode(w) {
                    Ok(_) => None,
                    Err(e) => Some(e),
                },
            }
        } else if str_eq(k, "line-offset") {
            match w {
                JsonValue::Null => None,
                _ => match LinePaintLayerLineOffset::decode(w) {
                    Ok(_) => None,
                    Err(e) => Some(e),
                },
            }
        } else if str_eq(k, "line-opacity") {
            match w {
                JsonValue::Null => None,
                _ => match LinePaintLayerLineOpacity::decode(w) {
                    Ok(_) => None,
                    Err(e) => Some(e),
                },
            }
        } else if str_eq(k, "line-pattern") {
            match w {
                JsonValue::Null => None,
                _ => match LinePaintLayerLinePattern::decode(w) {
                    Ok(_) => None,
                    Err(e) => Some(e),
                },
            }
        } else if str_eq(k, "line-translate") {
            match w {
                JsonValue::Null => None,
                _ => match LinePaintLayerLineTranslate::decode(w) {
                    Ok(_) => None,
                    Err(e) => Some(e),
                },
            }
        } else if str_eq(k, "line-translate-anchor") {
            match w {
                JsonValue::Null => None,
                _ => match LinePaintLayerLineTranslateAnchor::decode(w) {
                    Ok(_) => None,
                    Err(e) => Some(e),
                },
            }
        } else if str_eq(k, "line-width") {
            match w {
                JsonValue::Null => None,
                _ => match LinePaintLayerLineWidth::decode(w) {
                    Ok(_) => None,
                    Err(e) => Some(e),
                },
            }
        } else {
            None
        }
    }

    fn object_rejection(fields: &Vec<(String, JsonValue)>) -> (r: String)
        ensures
            r@ == Self::rejection(JsonValue::Object(*fields).model()),
    {
        let ghost o = entries_model(*fields);
        let mut i: usize = 0;
        while i < fields.len()
            invariant
                o == entries_model(*fields),
                o.len() == fields.len(),
                i <= fields.len(),
                Self::first_fault(o, 0) == Self::first_fault(o, i as int),
            decreases fields.len() - i,
        {
            proof {
                assert(o[i as int] == (fields@[i as int].0@, fields@[i as int].1.model()));
            }
            if !key_seen_before(fields, i) {
                match Self::find_field_fault(fields[i].0.as_str(), &fields[i].1) {
                    Some(m) => {
                        return m;
                    },
                    None => {},
                }
            }
            i += 1;
        }
        String::new()
    }
}

impl LinePaintLayer {
    /// The keys of the fields, in order.
    pub open spec fn field_keys() -> Seq<Seq<char>> {
        seq!["line-blur"@, "line-color"@, "line-dasharray"@, "line-gap-width"@, "line-gradient"@, "line-offset"@, "line-opacity"@, "line-pattern"@, "line-translate"@, "line-translate-anchor"@, "line-width"@]
    }

    /// The entries that each field is written as, in order.
    pub open spec fn field_entries(self) -> Seq<Seq<(Seq<char>, Json)>> {
        seq![opt_entry::<LinePaintLayerLineBlur>("line-blur"@, self.line_blur), opt_entry::<LinePaintLayerLineColor>("line-color"@, self.line_color), opt_entry::<LinePaintLayerLineDasharray>("line-dasharray"@, self.line_dasharray), opt_entry::<LinePaintLayerLineGapWidth>("line-gap-width"@, self.line_gap_width), opt_entry::<LinePaintLayerLineGradient>("line-gradient"@, self.line_gradient), opt_entry::<LinePaintLayerLineOffset>("line-offset"@, self.line_offset), opt_entry::<LinePaintLayerLineOpacity>("line-opacity"@, self.line_opacity), opt_entry::<LinePaintLayerLinePattern>("line-pattern"@, self.line_pattern), opt_entry::<LinePaintLayerLineTranslate>("line-translate"@, self.line_translate), opt_entry::<LinePaintLayerLineTranslateAnchor>("line-translate-anchor"@, self.line_translate_anchor), opt_entry::<LinePaintLayerLineWidth>("line-width"@, self.line_width)]
    }

    proof fn lemma_keys_differ(i: int)
        requires
            0 <= i < 11,
        ensures
            others_differ(Self::field_keys(), i),
    {
        reveal_strlit("line-blur");
        assert("line-blur"@.len() == 9);
        reveal_strlit("line-color");
        assert("line-color"@.len() == 10);
        reveal_strlit("line-dasharray");
        assert("line-dasharray"@.len() == 14);
        reveal_strlit("line-gap-width");
        assert("line-gap-width"@.len() == 14);
        reveal_strlit("line-gradient");
        assert("line-gradient"@.len() == 13);
        reveal_strlit("line-offset");
        assert("line-offset"@.len() == 11);
        reveal_strlit("line-opacity");
        assert("line-opacity"@.len() == 12);
        reveal_strlit("line-pattern");
        assert("line-pattern"@.len() == 12);
        reveal_strlit("line-translate");
        assert("line-translate"@.len() == 14);
        reveal_strlit("line-translate-anchor");
        assert("line-translate-anchor"@.len() == 21);
        reveal_strlit("line-width");
        assert("line-width"@.len() == 10);
        assert("line-color"@[5] != "line-width"@[5]);
        assert("line-dasharray"@[5] != "line-gap-width"@[5]);
        assert("line-dasharray"@[5] != "line-translate"@[5]);
        assert("line-gap-width"@[5] != "line-translate"@[5]);
        assert("line-opacity"@[5] != "line-pattern"@[5]);
    }
}

impl JsonEncode for LinePaintLayer {
    open spec fn to_json(self) -> Json {
        Json::Object(self.field_entries().flatten())
    }

    open spec fn round_trips(self) -> bool {
        &&& (self.line_blur matches Some(t) ==> t.round_trips() && !(t.to_json() is Null))
        &&& (self.line_color matches Some(t) ==> t.round_trips() && !(t.to_json() is Null))
        &&& (self.line_dasharray matches Some(t) ==> t.round_trips() && !(t.to_json() is Null))
        &&& (self.line_gap_width matches Some(t) ==> t.round_trips() && !(t.to_json() is Null))
        &&& (self.line_gradient matches Some(t) ==> t.round_trips() && !(t.to_json() is Null))
        &&& (self.line_offset matches Some(t) ==> t.round_trips() && !(t.to_json() is Null))
        &&& (self.line_opacity matches Some(t) ==> t.round_trips() && !(t.to_json() is Null))
        &&& (self.line_pattern matches Some(t) ==> t.round_trips() && !(t.to_json() is Null))
        &&& (self.line_translate matches Some(t) ==> t.round_trips() && !(t.to_json() is Null))
        &&& (self.line_translate_anchor matches Some(t) ==> t.round_trips() && !(t.to_json() is Null))
        &&& (self.line_width matches Some(t) ==> t.round_trips() && !(t.to_json() is Null))
    }

    #[verifier::rlimit(40)]
    fn encode(&self) -> (r: JsonValue) {
        let mut out: Vec<(String, JsonValue)> = Vec::new();
        let ghost s0 = Seq::<Seq<(Seq<char>, Json)>>::empty();
        proof {
            assert(entries_model(out) =~= s0.flatten());
        }
        push_opt_entry::<LinePaintLayerLineBlur>(&mut out, "line-blur", &self.line_blur);
        let ghost s1 = s0.push(opt_entry::<LinePaintLayerLineBlur>("line-blur"@, self.line_blur));
        proof {
            s0.lemma_flatten_push(opt_entry::<LinePaintLayerLineBlur>("line-blur"@, self.line_blur));
            assert(entries_model(out) =~= s1.flatten());
        }
        push_opt_entry::<LinePaintLayerLineColor>(&mut out, "line-color", &self.line_color);
        let ghost s2 = s1.push(opt_entry::<LinePaintLayerLineColor>("line-color"@, self.line_color));
        proof {
            s1.lemma_flatten_push(opt_entry::<LinePaintLayerLineColor>("line-color"@, self.line_color));
            assert(entries_model(out) =~= s2.flatten());
        }
        push_opt_entry::<LinePaintLayerLineDasharray>(&mut out, "line-dasharray", &self.line_dasharray);
        let ghost s3 = s2.push(opt_entry::<LinePaintLayerLineDasharray>("line-dasharray"@, self.line_dasharray));
        proof {
            s2.lemma_flatten_push(opt_entry::<LinePaintLayerLineDasharray>("line-dasharray"@, self.line_dasharray));
            assert(entries_model(out) =~= s3.flatten());
        }
        push_opt_entry::<LinePaintLayerLineGapWidth>(&mut out, "line-gap-width", &self.line_gap_width);
        let ghost s4 = s3.push(opt_entry::<LinePaintLayerLineGapWidth>("line-gap-width"@, self.line_gap_width));
        proof {
            s3.lemma_flatten_push(opt_entry::<LinePaintLayerLineGapWidth>("line-gap-width"@, self.line_gap_width));
            assert(entries_model(out) =~= s4.flatten());
        }
        push_opt_entry::<LinePaintLayerLineGradient>(&mut out, "line-gradient", &self.line_gradient);
        let ghost s5 = s4.push(opt_entry::<LinePaintLayerLineGradient>("line-gradient"@, self.line_gradient));
        proof {
            s4.lemma_flatten_push(opt_entry::<LinePaintLayerLineGradient>("line-gradient"@, self.line_gradient));
            assert(entries_model(out) =~= s5.flatten());
        }
        push_opt_entry::<LinePaintLayerLineOffset>(&mut out, "line-offset", &self.line_offset);
        let ghost s6 = s5.push(opt_entry::<LinePaintLayerLineOffset>("line-offset"@, self.line_offset));
        proof {
            s5.lemma_flatten_push(opt_entry::<LinePaintLayerLineOffset>("line-offset"@, self.line_offset));
            assert(entries_model(out) =~= s6.flatten());
        }
        push_opt_entry::<LinePaintLayerLineOpacity>(&mut out, "line-opacity", &self.line_opacity);
        let ghost s7 = s6.push(opt_entry::<LinePaintLayerLineOpacity>("line-opacity"@, self.line_opacity));
        proof {
            s6.lemma_flatten_push(opt_entry::<LinePaintLayerLineOpacity>("line-opacity"@, self.line_opacity));
            assert(entries_model(out) =~= s7.flatten());
        }
        push_opt_entry::<LinePaintLayerLinePattern>(&mut out, "line-pattern", &self.line_pattern);
        let ghost s8 = s7.push(opt_entry::<LinePaintLayerLinePattern>("line-pattern"@, self.line_pattern));
        proof {
            s7.lemma_flatten_push(opt_entry::<LinePaintLayerLinePattern>("line-pattern"@, self.line_pattern));
            assert(entries_model(out) =~= s8.flatten());
        }
        push_opt_entry::<LinePaintLayerLineTranslate>(&mut out, "line-translate", &self.line_translate);
        let ghost s9 = s8.push(opt_entry::<LinePaintLayerLineTranslate>("line-translate"@, self.line_translate));
        proof {
            s8.lemma_flatten_push(opt_entry::<LinePaintLayerLineTranslate>("line-translate"@, self.line_translate));
            assert(entries_model(out) =~= s9.flatten());
        }
        push_opt_entry::<LinePaintLayerLineTranslateAnchor>(&mut out, "line-translate-anchor", &self.line_translate_anchor);
        let ghost s10 = s9.push(opt_entry::<LinePaintLayerLineTranslateAnchor>("line-translate-anchor"@, self.line_translate_anchor));
        proof {
            s9.lemma_flatten_push(opt_entry::<LinePaintLayerLineTranslateAnchor>("line-translate-anchor"@, self.line_translate_anchor));
            assert(entries_model(out) =~= s10.flatten());
        }
        push_opt_entry::<LinePaintLayerLineWidth>(&mut out, "line-width", &self.line_width);
        let ghost s11 = s10.push(opt_entry::<LinePaintLayerLineWidth>("line-width"@, self.line_width));
        proof {
            s10.lemma_flatten_push(opt_entry::<LinePaintLayerLineWidth>("line-width"@, self.line_width));
            assert(entries_model(out) =~= s11.flatten());
        }
        proof {
            assert(self.field_entries() == s11);
        }
        JsonValue::Object(out)
    }

    #[verifier::rlimit(40)]
    proof fn lemma_round_trip(self) {
        let keys = Self::field_keys();
        let es = self.field_entries();
        assert(keyed_by(es, keys));
        Self::lemma_keys_differ(0);
        lemma_lookup_flatten(es, keys, 0);
        lemma_lookup_opt_entry::<LinePaintLayerLineBlur>("line-blur"@, self.line_blur, "line-blur"@);
        if self.line_blur is Some {
            self.line_blur->0.lemma_round_trip();
        }
        Self::lemma_keys_differ(1);
        lemma_lookup_flatten(es, keys, 1);
        lemma_lookup_opt_entry::<LinePaintLayerLineColor>("line-color"@, self.line_color, "line-color"@);
        if self.line_color is Some {
            self.line_color->0.lemma_round_trip();
        }
        Self::lemma_keys_differ(2);
        lemma_lookup_flatten(es, keys, 2);
        lemma_lookup_opt_entry::<LinePaintLayerLineDasharray>("line-dasharray"@, self.line_dasharray, "line-dasharray"@);
        if self.line_dasharray is Some {
            self.line_dasharray->0.lemma_round_trip();
        }
        Self::lemma_keys_differ(3);
        lemma_lookup_flatten(es, keys, 3);
        lemma_lookup_opt_entry::<LinePaintLayerLineGapWidth>("line-gap-width"@, self.line_gap_width, "line-gap-width"@);
        if self.line_gap_width is Some {
            self.line_gap_width->0.lemma_round_trip();
        }
        Self::lemma_keys_differ(4);
        lemma_lookup_flatten(es, keys, 4);
        lemma_lookup_opt_entry::<LinePaintLayerLineGradient>("line-gradient"@, self.line_gradient, "line-gradient"@);
        if self.line_gradient is Some {
            self.line_gradient->0.lemma_round_trip();
        }
        Self::lemma_keys_differ(5);
        lemma_lookup_flatten(es, keys, 5);
        lemma_lookup_opt_entry::<LinePaintLayerLineOffset>("line-offset"@, self.line_offset, "line-offset"@);
        if self.line_offset is Some {
            self.line_offset->0.lemma_round_trip();
        }
        Self::lemma_keys_differ(6);
        lemma_lookup_flatten(es, keys, 6);
        lemma_lookup_opt_entry::<LinePaintLayerLineOpacity>("line-opacity"@, self.line_opacity, "line-opacity"@);
        if self.line_opacity is Some {
            self.line_opacity->0.lemma_round_trip();
        }
        Self::lemma_keys_differ(7);
        lemma_lookup_flatten(es, keys, 7);
        lemma_lookup_opt_entry::<LinePaintLayerLinePattern>("line-pattern"@, self.line_pattern, "line-pattern"@);
        if self.line_pattern is Some {
            self.line_pattern->0.lemma_round_trip();
        }
        Self::lemma_keys_differ(8);
        lemma_lookup_flatten(es, keys, 8);
        lemma_lookup_opt_entry::<LinePaintLayerLineTranslate>("line-translate"@, self.line_translate, "line-translate"@);
        if self.line_translate is Some {
            self.line_translate->0.lemma_round_trip();
        }
        Self::lemma_keys_differ(9);
        lemma_lookup_flatten(es, keys, 9);
        lemma_lookup_opt_entry::<LinePaintLayerLineTranslateAnchor>("line-translate-anchor"@, self.line_translate_anchor, "line-translate-anchor"@);
        if self.line_translate_anchor is Some {
            self.line_translate_anchor->0.lemma_round_trip();
        }
        Self::lemma_keys_differ(10);
        lemma_lookup_flatten(es, keys, 10);
        lemma_lookup_opt_entry::<LinePaintLayerLineWidth>("line-width"@, self.line_width, "line-width"@);
        if self.line_width is Some {
            self.line_width->0.lemma_round_trip();
        }
    }
}

/// Nested expression: ramp (`interpolate` / …) or regular [`Number`] operators.
#[derive(PartialEq, Debug, Clone)]
pub enum LinePaintLayerLineBlurExpression {
    Number(Number),
    Ramp(NumberOrArrayOfNumberOrColorOrArrayOfColorOrProjection),
}

impl JsonDecode for LinePaintLayerLineBlurExpression {
    open spec fn accepts(v: Json) -> bool {
        Number::accepts(v) || NumberOrArrayOfNumberOrColorOrArrayOfColorOrProjection::accepts(v)
    }

    open spec fn decodes(v: Json, x: Self) -> bool {
        match x {
            LinePaintLayerLineBlurExpression::Number(t) => Number::accepts(v) && Number::decodes(v, t),
            LinePaintLayerLineBlurExpression::Ramp(t) => !Number::accepts(v) && NumberOrArrayOfNumberOrColorOrArrayOfColorOrProjection::accepts(v) && NumberOrArrayOfNumberOrColorOrArrayOfColorOrProjection::decodes(v, t),
        }
    }

    open spec fn rejection(v: Json) -> Seq<char> {
        "LinePaintLayerLineBlurExpression: no variant matched. Expected Number(Number) | Ramp(NumberOrArrayOfNumberOrColorOrArrayOfColorOrProjection). Errors: ["@ + "Number: "@ + Number::rejection(v) + "; Ramp: "@ + NumberOrArrayOfNumberOrColorOrArrayOfColorOrProjection::rejection(v) + "]"@
    }

    fn decode(v: &JsonValue) -> (r: Result<Self, String>) {
        let e0 = match Number::decode(v) {
            Ok(x) => {
                return Ok(LinePaintLayerLineBlurExpression::Number(x));
            },
            Err(e) => e,
        };
        let e1 = match NumberOrArrayOfNumberOrColorOrArrayOfColorOrProjection::decode(v) {
            Ok(x) => {
                return Ok(LinePaintLayerLineBlurExpression::Ramp(x));
            },
            Err(e) => e,
        };
        let mut m = "LinePaintLayerLineBlurExpression: no variant matched. Expected Number(Number) | Ramp(NumberOrArrayOfNumberOrColorOrArrayOfColorOrProjection). Errors: [".to_string();
        m.append("Number: ");
        m.append(e0.as_str());
        m.append("; Ramp: ");
        m.append(e1.as_str());
        m.append("]");
        Err(m)
    }
}

impl JsonEncode for LinePaintLayerLineBlurExpression {
    open spec fn to_json(self) -> Json {
        match self {
            LinePaintLayerLineBlurExpression::Number(t) => Number::to_json(t),
            LinePaintLayerLineBlurExpression::Ramp(t) => NumberOrArrayOfNumberOrColorOrArrayOfColorOrProjection::to_json(t),
        }
    }

    open spec fn round_trips(self) -> bool {
        match self {
            LinePaintLayerLineBlurExpression::Number(t) => Number::round_trips(t),
            LinePaintLayerLineBlurExpression::Ramp(t) => NumberOrArrayOfNumberOrColorOrArrayOfColorOrProjection::round_trips(t) && !Number::accepts(NumberOrArrayOfNumberOrColorOrArrayOfColorOrProjection::to_json(t)),
        }
    }

    fn encode(&self) -> (r: JsonValue) {
        match self {
            LinePaintLayerLineBlurExpression::Number(t) => Number::encode(t),
            LinePaintLayerLineBlurExpression::Ramp(t) => NumberOrArrayOfNumberOrColorOrArrayOfColorOrProjection::encode(t),
        }
    }

    proof fn lemma_round_trip(self) {
        match self {
            LinePaintLayerLineBlurExpression::Number(t) => Number::lemma_round_trip(t),
            LinePaintLayerLineBlurExpression::Ramp(t) => NumberOrArrayOfNumberOrColorOrArrayOfColorOrProjection::lemma_round_trip(t),
        }
    }
}

/// Blur applied to the line, in pixels.
#[derive(PartialEq, Debug, Clone)]
pub enum LinePaintLayerLineBlur {
    Expr(Box<LinePaintLayerLineBlurExpression>),
    Literal(JsonNumber),
}

impl JsonDecode for LinePaintLayerLineBlur {
    open spec fn accepts(v: Json) -> bool {
        LinePaintLayerLineBlurExpression::accepts(v) || JsonNumber::accepts(v)
    }

    open spec fn decodes(v: Json, x: Self) -> bool {
        match x {
            LinePaintLayerLineBlur::Expr(t) => LinePaintLayerLineBlurExpression::accepts(v) && LinePaintLayerLineBlurExpression::decodes(v, *t),
            LinePaintLayerLineBlur::Literal(t) => !LinePaintLayerLineBlurExpression::accepts(v) && JsonNumber::accepts(v) && JsonNumber::decodes(v, t),
        }
    }

    open spec fn rejection(v: Json) -> Seq<char> {
        "LinePaintLayerLineBlur: no variant matched. Expected Expr(LinePaintLayerLineBlurExpression) | Literal(serde_json::Number). Errors: ["@ + "Expr: "@ + LinePaintLayerLineBlurExpression::rejection(v) + "; Literal: "@ + JsonNumber::rejection(v) + "]"@
    }

    fn decode(v: &JsonValue) -> (r: Result<Self, String>) {
        let e0 = match LinePaintLayerLineBlurExpression::decode(v) {
            Ok(x) => {
                return Ok(LinePaintLayerLineBlur::Expr(Box::new(x)));
            },
            Err(e) => e,
        };
        let e1 = match JsonNumber::decode(v) {
            Ok(x) => {
                return Ok(LinePaintLayerLineBlur::Literal(x));
            },
            Err(e) => e,
        };
        let mut m = "LinePaintLayerLineBlur: no variant matched. Expected Expr(LinePaintLayerLineBlurExpression) | Literal(serde_json::Number). Errors: [".to_string();
        m.append("Expr: ");
        m.append(e0.as_str());
        m.append("; Literal: ");
        m.append(e1.as_str());
        m.append("]");
        Err(m)
    }
}

impl JsonEncode for LinePaintLayerLineBlur {
    open spec fn to_json(self) -> Json {
        match self {
            LinePaintLayerLineBlur::Expr(t) => LinePaintLayerLineBlurExpression::to_json(*t),
            LinePaintLayerLineBlur::Literal(t) => JsonNumber::to_json(t),
        }
    }

    open spec fn round_trips(self) -> bool {
        match self {
            LinePaintLayerLineBlur::Expr(t) => LinePaintLayerLineBlurExpression::round_trips(*t),
            LinePaintLayerLineBlur::Literal(t) => JsonNumber::round_trips(t) && !LinePaintLayerLineBlurExpression::accepts(JsonNumber::to_json(t)),
        }
    }

    fn encode(&self) -> (r: JsonValue) {
        match self {
            LinePaintLayerLineBlur::Expr(t) => LinePaintLayerLineBlurExpression::encode(&**t),
            LinePaintLayerLineBlur::Literal(t) => JsonNumber::encode(t),
        }
    }

    proof fn lemma_round_trip(self) {
        match self {
            LinePaintLayerLineBlur::Expr(t) => LinePaintLayerLineBlurExpression::lemma_round_trip(*t),
            LinePaintLayerLineBlur::Literal(t) => JsonNumber::lemma_round_trip(t),
        }
    }
}

impl Default for LinePaintLayerLineBlur {
    fn default() -> (r: Self)
        ensures
            r.to_json() == Json::Number("0"@),
            r is Literal,
    {
        let r = LinePaintLayerLineBlur::Literal(JsonNumber::from_literal("0"));
        r
    }
}

/// Nested expression: ramp (`interpolate-hcl`, …) or [`Color`] operators.
#[derive(PartialEq, Debug, Clone)]
pub enum LinePaintLayerLineColorExpression {
    Color(Color),
    Ramp(ColorOrArrayOfColor),
}

impl JsonDecode for LinePaintLayerLineColorExpression {
    open spec fn accepts(v: Json) -> bool {
        Color::accepts(v) || ColorOrArrayOfColor::accepts(v)
    }

    open spec fn decodes(v: Json, x: Self) -> bool {
        match x {
            LinePaintLayerLineColorExpression::Color(t) => Color::accepts(v) && Color::decodes(v, t),
            LinePaintLayerLineColorExpression::Ramp(t) => !Color::accepts(v) && ColorOrArrayOfColor::accepts(v) && ColorOrArrayOfColor::decodes(v, t),
        }
    }

    open spec fn rejection(v: Json) -> Seq<char> {
        "LinePaintLayerLineColorExpression: no variant matched. Expected Color(Color) | Ramp(ColorOrArrayOfColor). Errors: ["@ + "Color: "@ + Color::rejection(v) + "; Ramp: "@ + ColorOrArrayOfColor::rejection(v) + "]"@
    }

    fn decode(v: &JsonValue) -> (r: Result<Self, String>) {
        let e0 = match Color::decode(v) {
            Ok(x) => {
                return Ok(LinePaintLayerLineColorExpression::Color(x));
            },
            Err(e) => e,
        };
        let e1 = match ColorOrArrayOfColor::decode(v) {
            Ok(x) => {
                return Ok(LinePaintLayerLineColorExpression::Ramp(x));
            },
            Err(e) => e,
        };
        let mut m = "LinePaintLayerLineColorExpression: no variant matched. Expected Color(Color) | Ramp(ColorOrArrayOfColor). Errors: [".to_string();
        m.append("Color: ");
        m.append(e0.as_str());
        m.append("; Ramp: ");
        m.append(e1.as_str());
        m.append("]");
        Err(m)
    }
}

impl JsonEncode for LinePaintLayerLineColorExpression {
    open spec fn to_json(self) -> Json {
        match self {
            LinePaintLayerLineColorExpression::Color(t) => Color::to_json(t),
            LinePaintLayerLineColorExpression::Ramp(t) => ColorOrArrayOfColor::to_json(t),
        }
    }

    open spec fn round_trips(self) -> bool {
        match self {
            LinePaintLayerLineColorExpression::Color(t) => Color::round_trips(t),
            LinePaintLayerLineColorExpression::Ramp(t) => ColorOrArrayOfColor::round_trips(t) && !Color::accepts(ColorOrArrayOfColor::to_json(t)),
        }
    }

    fn encode(&self) -> (r: JsonValue) {
        match self {
            LinePaintLayerLineColorExpression::Color(t) => Color::encode(t),
            LinePaintLayerLineColorExpression::Ramp(t) => ColorOrArrayOfColor::encode(t),
        }
    }

    proof fn lemma_round_trip(self) {
        match self {
            LinePaintLayerLineColorExpression::Color(t) => Color::lemma_round_trip(t),
            LinePaintLayerLineColorExpression::Ramp(t) => ColorOrArrayOfColor::lemma_round_trip(t),
        }
    }
}

/// The color with which the line will be drawn.
#[derive(PartialEq, Debug, Clone)]
pub enum LinePaintLayerLineColor {
    Expr(Box<LinePaintLayerLineColorExpression>),
    Literal(JsonValue),
}

impl JsonDecode for LinePaintLayerLineColor {
    open spec fn accepts(v: Json) -> bool {
        LinePaintLayerLineColorExpression::accepts(v) || JsonValue::accepts(v)
    }

    open spec fn decodes(v: Json, x: Self) -> bool {
        match x {
            LinePaintLayerLineColor::Expr(t) => LinePaintLayerLineColorExpression::accepts(v) && LinePaintLayerLineColorExpression::decodes(v, *t),
            LinePaintLayerLineColor::Literal(t) => !LinePaintLayerLineColorExpression::accepts(v) && JsonValue::accepts(v) && JsonValue::decodes(v, t),
        }
    }

    open spec fn rejection(v: Json) -> Seq<char> {
        "LinePaintLayerLineColor: no variant matched. Expected Expr(LinePaintLayerLineColorExpression) | Literal(serde_json::Value). Errors: ["@ + "Expr: "@ + LinePaintLayerLineColorExpression::rejection(v) + "; Literal: "@ + JsonValue::rejection(v) + "]"@
    }

    fn decode(v: &JsonValue) -> (r: Result<Self, String>) {
        let e0 = match LinePaintLayerLineColorExpression::decode(v) {
            Ok(x) => {
                return Ok(LinePaintLayerLineColor::Expr(Box::new(x)));
            },
            Err(e) => e,
        };
        let e1 = match JsonValue::decode(v) {
            Ok(x) => {
                return Ok(LinePaintLayerLineColor::Literal(x));
            },
            Err(e) => e,
        };
        let mut m = "LinePaintLayerLineColor: no variant matched. Expected Expr(LinePaintLayerLineColorExpression) | Literal(serde_json::Value). Errors: [".to_string();
        m.append("Expr: ");
        m.append(e0.as_str());
        m.append("; Literal: ");
        m.append(e1.as_str());
        m.append("]");
        Err(m)
    }
}

impl JsonEncode for LinePaintLayerLineColor {
    open spec fn to_json(self) -> Json {
        match self {
            LinePaintLayerLineColor::Expr(t) => LinePaintLayerLineColorExpression::to_json(*t),
            LinePaintLayerLineColor::Literal(t) => JsonValue::to_json(t),
        }
    }

    open spec fn round_trips(self) -> bool {
        match self {
            LinePaintLayerLineColor::Expr(t) => LinePaintLayerLineColorExpression::round_trips(*t),
            LinePaintLayerLineColor::Literal(t) => JsonValue::round_trips(t) && !LinePaintLayerLineColorExpression::accepts(JsonValue::to_json(t)),
        }
    }

    fn encode(&self) -> (r: JsonValue) {
        match self {
            LinePaintLayerLineColor::Expr(t) => LinePaintLayerLineColorExpression::encode(&**t),
            LinePaintLayerLineColor::Literal(t) => JsonValue::encode(t),
        }
    }

    proof fn lemma_round_trip(self) {
        match self {
            LinePaintLayerLineColor::Expr(t) => LinePaintLayerLineColorExpression::lemma_round_trip(*t),
            LinePaintLayerLineColor::Literal(t) => JsonValue::lemma_round_trip(t),
        }
    }
}

impl Default for LinePaintLayerLineColor {
    fn default() -> (r: Self)
        ensures
            r.to_json() == Json::Str("#000000"@),
            r is Literal,
    {
        let r = LinePaintLayerLineColor::Literal(JsonValue::String("#000000".to_string()));
        r
    }
}

/// Specifies the lengths of the alternating dashes and gaps that form the dash pattern. The lengths are later scaled by the line width. To convert a dash length to pixels, multiply the length by the current line width. GeoJSON sources with `lineMetrics: true` specified won't render dashed lines to the expected scale. Zoom-dependent expressions will be evaluated only at integer zoom levels. The only way to create an array value is using `["literal", [...]]`; arrays cannot be read from or derived from feature properties.
#[derive(PartialEq, Debug, Clone)]
pub struct LinePaintLayerLineDasharray(Vec<JsonNumber>);

impl JsonDecode for LinePaintLayerLineDasharray {
    closed spec fn accepts(v: Json) -> bool {
        <Vec<JsonNumber> as JsonDecode>::accepts(v)
    }

    closed spec fn decodes(v: Json, x: Self) -> bool {
        <Vec<JsonNumber> as JsonDecode>::decodes(v, x.0)
    }

    closed spec fn rejection(v: Json) -> Seq<char> {
        <Vec<JsonNumber> as JsonDecode>::rejection(v)
    }

    fn decode(v: &JsonValue) -> (r: Result<Self, String>) {
        match <Vec<JsonNumber> as JsonDecode>::decode(v) {
            Ok(x) => Ok(LinePaintLayerLineDasharray(x)),
            Err(e) => Err(e),
        }
    }
}

impl JsonEncode for LinePaintLayerLineDasharray {
    closed spec fn to_json(self) -> Json {
        <Vec<JsonNumber> as JsonEncode>::to_json(self.0)
    }

    closed spec fn round_trips(self) -> bool {
        <Vec<JsonNumber> as JsonEncode>::round_trips(self.0)
    }

    fn encode(&self) -> (r: JsonValue) {
        <Vec<JsonNumber> as JsonEncode>::encode(&self.0)
    }

    proof fn lemma_round_trip(self) {
        <Vec<JsonNumber> as JsonEncode>::lemma_round_trip(self.0);
    }
}

/// Nested expression: ramp (`interpolate` / …) or regular [`Number`] operators.
#[derive(PartialEq, Debug, Clone)]
pub enum LinePaintLayerLineGapWidthExpression {
    Number(Number),
    Ramp(NumberOrArrayOfNumberOrColorOrArrayOfColorOrProjection),
}

impl JsonDecode for LinePaintLayerLineGapWidthExpression {
    open spec fn accepts(v: Json) -> bool {
        Number::accepts(v) || NumberOrArrayOfNumberOrColorOrArrayOfColorOrProjection::accepts(v)
    }

    open spec fn decodes(v: Json, x: Self) -> bool {
        match x {
            LinePaintLayerLineGapWidthExpression::Number(t) => Number::accepts(v) && Number::decodes(v, t),
            LinePaintLayerLineGapWidthExpression::Ramp(t) => !Number::accepts(v) && NumberOrArrayOfNumberOrColorOrArrayOfColorOrProjection::accepts(v) && NumberOrArrayOfNumberOrColorOrArrayOfColorOrProjection::decodes(v, t),
        }
    }

    open spec fn rejection(v: Json) -> Seq<char> {
        "LinePaintLayerLineGapWidthExpression: no variant matched. Expected Number(Number) | Ramp(NumberOrArrayOfNumberOrColorOrArrayOfColorOrProjection). Errors: ["@ + "Number: "@ + Number::rejection(v) + "; Ramp: "@ + NumberOrArrayOfNumberOrColorOrArrayOfColorOrProjection::rejection(v) + "]"@
    }

    fn decode(v: &JsonValue) -> (r: Result<Self, String>) {
        let e0 = match Number::decode(v) {
            Ok(x) => {
                return Ok(LinePaintLayerLineGapWidthExpression::Number(x));
            },
            Err(e) => e,
        };
        let e1 = match NumberOrArrayOfNumberOrColorOrArrayOfColorOrProjection::decode(v) {
            Ok(x) => {
                return Ok(LinePaintLayerLineGapWidthExpression::Ramp(x));
            },
            Err(e) => e,
        };
        let mut m = "LinePaintLayerLineGapWidthExpression: no variant matched. Expected Number(Number) | Ramp(NumberOrArrayOfNumberOrColorOrArrayOfColorOrProjection). Errors: [".to_string();
        m.append("Number: ");
        m.append(e0.as_str());
        m.append("; Ramp: ");
        m.append(e1.as_str());
        m.append("]");
        Err(m)
    }
}

impl JsonEncode for LinePaintLayerLineGapWidthExpression {
    open spec fn to_json(self) -> Json {
        match self {
            LinePaintLayerLineGapWidthExpression::Number(t) => Number::to_json(t),
            LinePaintLayerLineGapWidthExpression::Ramp(t) => NumberOrArrayOfNumberOrColorOrArrayOfColorOrProjection::to_json(t),
        }
    }

    open spec fn round_trips(self) -> bool {
        match self {
            LinePaintLayerLineGapWidthExpression::Number(t) => Number::round_trips(t),
            LinePaintLayerLineGapWidthExpression::Ramp(t) => NumberOrArrayOfNumberOrColorOrArrayOfColorOrProjection::round_trips(t) && !Number::accepts(NumberOrArrayOfNumberOrColorOrArrayOfColorOrProjection::to_json(t)),
        }
    }

    fn encode(&self) -> (r: JsonValue) {
        match self {
            LinePaintLayerLineGapWidthExpression::Number(t) => Number::encode(t),
            LinePaintLayerLineGapWidthExpression::Ramp(t) => NumberOrArrayOfNumberOrColorOrArrayOfColorOrProjection::encode(t),
        }
    }

    proof fn lemma_round_trip(self) {
        match self {
            LinePaintLayerLineGapWidthExpression::Number(t) => Number::lemma_round_trip(t),
            LinePaintLayerLineGapWidthExpression::Ramp(t) => NumberOrArrayOfNumberOrColorOrArrayOfColorOrProjection::lemma_round_trip(t),
        }
    }
}

/// Draws a line casing outside of a line's actual path. Value indicates the width of the inner gap.
#[derive(PartialEq, Debug, Clone)]
pub enum LinePaintLayerLineGapWidth {
    Expr(Box<LinePaintLayerLineGapWidthExpression>),
    Literal(JsonNumber),
}

impl JsonDecode for LinePaintLayerLineGapWidth {
    open spec fn accepts(v: Json) -> bool {
        LinePaintLayerLineGapWidthExpression::accepts(v) || JsonNumber::accepts(v)
    }

    open spec fn decodes(v: Json, x: Self) -> bool {
        match x {
            LinePaintLayerLineGapWidth::Expr(t) => LinePaintLayerLineGapWidthExpression::accepts(v) && LinePaintLayerLineGapWidthExpression::decodes(v, *t),
            LinePaintLayerLineGapWidth::Literal(t) => !LinePaintLayerLineGapWidthExpression::accepts(v) && JsonNumber::accepts(v) && JsonNumber::decodes(v, t),
        }
    }

    open spec fn rejection(v: Json) -> Seq<char> {
        "LinePaintLayerLineGapWidth: no variant matched. Expected Expr(LinePaintLayerLineGapWidthExpression) | Literal(serde_json::Number). Errors: ["@ + "Expr: "@ + LinePaintLayerLineGapWidthExpression::rejection(v) + "; Literal: "@ + JsonNumber::rejection(v) + "]"@
    }

    fn decode(v: &JsonValue) -> (r: Result<Self, String>) {
        let e0 = match LinePaintLayerLineGapWidthExpression::decode(v) {
            Ok(x) => {
                return Ok(LinePaintLayerLineGapWidth::Expr(Box::new(x)));
            },
            Err(e) => e,
        };
        let e1 = match JsonNumber::decode(v) {
            Ok(x) => {
                return Ok(LinePaintLayerLineGapWidth::Literal(x));
            },
            Err(e) => e,
        };
        let mut m = "LinePaintLayerLineGapWidth: no variant matched. Expected Expr(LinePaintLayerLineGapWidthExpression) | Literal(serde_json::Number). Errors: [".to_string();
        m.append("Expr: ");
        m.append(e0.as_str());
        m.append("; Literal: ");
        m.append(e1.as_str());
        m.append("]");
        Err(m)
    }
}

impl JsonEncode for LinePaintLayerLineGapWidth {
    open spec fn to_json(self) -> Json {
        match self {
            LinePaintLayerLineGapWidth::Expr(t) => LinePaintLayerLineGapWidthExpression::to_json(*t),
            LinePaintLayerLineGapWidth::Literal(t) => JsonNumber::to_json(t),
        }
    }

    open spec fn round_trips(self) -> bool {
        match self {
            LinePaintLayerLineGapWidth::Expr(t) => LinePaintLayerLineGapWidthExpression::round_trips(*t),
            LinePaintLayerLineGapWidth::Literal(t) => JsonNumber::round_trips(t) && !LinePaintLayerLineGapWidthExpression::accepts(JsonNumber::to_json(t)),
        }
    }

    fn encode(&self) -> (r: JsonValue) {
        match self {
            LinePaintLayerLineGapWidth::Expr(t) => LinePaintLayerLineGapWidthExpression::encode(&**t),
            LinePaintLayerLineGapWidth::Literal(t) => JsonNumber::encode(t),
        }
    }

    proof fn lemma_round_trip(self) {
        match self {
            LinePaintLayerLineGapWidth::Expr(t) => LinePaintLayerLineGapWidthExpression::lemma_round_trip(*t),
            LinePaintLayerLineGapWidth::Literal(t) => JsonNumber::lemma_round_trip(t),
        }
    }
}

impl Default for LinePaintLayerLineGapWidth {
    fn default() -> (r: Self)
        ensures
            r.to_json() == Json::Number("0"@),
            r is Literal,
    {
        let r = LinePaintLayerLineGapWidth::Literal(JsonNumber::from_literal("0"));
        r
    }
}

/// Nested expression: ramp (`interpolate-hcl`, …) or [`Color`] operators.
#[derive(PartialEq, Debug, Clone)]
pub enum LinePaintLayerLineGradientExpression {
    Color(Color),
    Ramp(ColorOrArrayOfColor),
}

impl JsonDecode for LinePaintLayerLineGradientExpression {
    open spec fn accepts(v: Json) -> bool {
        Color::accepts(v) || ColorOrArrayOfColor::accepts(v)
    }

    open spec fn decodes(v: Json, x: Self) -> bool {
        match x {
            LinePaintLayerLineGradientExpression::Color(t) => Color::accepts(v) && Color::decodes(v, t),
            LinePaintLayerLineGradientExpression::Ramp(t) => !Color::accepts(v) && ColorOrArrayOfColor::accepts(v) && ColorOrArrayOfColor::decodes(v, t),
        }
    }

    open spec fn rejection(v: Json) -> Seq<char> {
        "LinePaintLayerLineGradientExpression: no variant matched. Expected Color(Color) | Ramp(ColorOrArrayOfColor). Errors: ["@ + "Color: "@ + Color::rejection(v) + "; Ramp: "@ + ColorOrArrayOfColor::rejection(v) + "]"@
    }

    fn decode(v: &JsonValue) -> (r: Result<Self, String>) {
        let e0 = match Color::decode(v) {
            Ok(x) => {
                return Ok(LinePaintLayerLineGradientExpression::Color(x));
            },
            Err(e) => e,
        };
        let e1 = match ColorOrArrayOfColor::decode(v) {
            Ok(x) => {
                return Ok(LinePaintLayerLineGradientExpression::Ramp(x));
            },
            Err(e) => e,
        };
        let mut m = "LinePaintLayerLineGradientExpression: no variant matched. Expected Color(Color) | Ramp(ColorOrArrayOfColor). Errors: [".to_string();
        m.append("Color: ");
        m.append(e0.as_str());
        m.append("; Ramp: ");
        m.append(e1.as_str());
        m.append("]");
        Err(m)
    }
}

impl JsonEncode for LinePaintLayerLineGradientExpression {
    open spec fn to_json(self) -> Json {
        match self {
            LinePaintLayerLineGradientExpression::Color(t) => Color::to_json(t),
            LinePaintLayerLineGradientExpression::Ramp(t) => ColorOrArrayOfColor::to_json(t),
        }
    }

    open spec fn round_trips(self) -> bool {
        match self {
            LinePaintLayerLineGradientExpression::Color(t) => Color::round_trips(t),
            LinePaintLayerLineGradientExpression::Ramp(t) => ColorOrArrayOfColor::round_trips(t) && !Color::accepts(ColorOrArrayOfColor::to_json(t)),
        }
    }

    fn encode(&self) -> (r: JsonValue) {
        match self {
            LinePaintLayerLineGradientExpression::Color(t) => Color::encode(t),
            LinePaintLayerLineGradientExpression::Ramp(t) => ColorOrArrayOfColor::encode(t),
        }
    }

    proof fn lemma_round_trip(self) {
        match self {
            LinePaintLayerLineGradientExpression::Color(t) => Color::lemma_round_trip(t),
            LinePaintLayerLineGradientExpression::Ramp(t) => ColorOrArrayOfColor::lemma_round_trip(t),
        }
    }
}

/// Defines a gradient with which to color a line feature. Can only be used with GeoJSON sources that specify `"lineMetrics": true`.
#[derive(PartialEq, Debug, Clone)]
pub enum LinePaintLayerLineGradient {
    Expr(Box<LinePaintLayerLineGradientExpression>),
    Literal(JsonValue),
}

impl JsonDecode for LinePaintLayerLineGradient {
    open spec fn accepts(v: Json) -> bool {
        LinePaintLayerLineGradientExpression::accepts(v) || JsonValue::accepts(v)
    }

    open spec fn decodes(v: Json, x: Self) -> bool {
        match x {
            LinePaintLayerLineGradient::Expr(t) => LinePaintLayerLineGradientExpression::accepts(v) && LinePaintLayerLineGradientExpression::decodes(v, *t),
            LinePaintLayerLineGradient::Literal(t) => !LinePaintLayerLineGradientExpression::accepts(v) && JsonValue::accepts(v) && JsonValue::decodes(v, t),
        }
    }

    open spec fn rejection(v: Json) -> Seq<char> {
        "LinePaintLayerLineGradient: no variant matched. Expected Expr(LinePaintLayerLineGradientExpression) | Literal(serde_json::Value). Errors: ["@ + "Expr: "@ + LinePaintLayerLineGradientExpression::rejection(v) + "; Literal: "@ + JsonValue::rejection(v) + "]"@
    }

    fn decode(v: &JsonValue) -> (r: Result<Self, String>) {
        let e0 = match LinePaintLayerLineGradientExpression::decode(v) {
            Ok(x) => {
                return Ok(LinePaintLayerLineGradient::Expr(Box::new(x)));
            },
            Err(e) => e,
        };
        let e1 = match JsonValue::decode(v) {
            Ok(x) => {
                return Ok(LinePaintLayerLineGradient::Literal(x));
            },
            Err(e) => e,
        };
        let mut m = "LinePaintLayerLineGradient: no variant matched. Expected Expr(LinePaintLayerLineGradientExpression) | Literal(serde_json::Value). Errors: [".to_string();
        m.append("Expr: ");
        m.append(e0.as_str());
        m.append("; Literal: ");
        m.append(e1.as_str());
        m.append("]");
        Err(m)
    }
}

impl JsonEncode for LinePaintLayerLineGradient {
    open spec fn to_json(self) -> Json {
        match self {
            LinePaintLayerLineGradient::Expr(t) => LinePaintLayerLineGradientExpression::to_json(*t),
            LinePaintLayerLineGradient::Literal(t) => JsonValue::to_json(t),
        }
    }

    open spec fn round_trips(self) -> bool {
        match self {
            LinePaintLayerLineGradient::Expr(t) => LinePaintLayerLineGradientExpression::round_trips(*t),
            LinePaintLayerLineGradient::Literal(t) => JsonValue::round_trips(t) && !LinePaintLayerLineGradientExpression::accepts(JsonValue::to_json(t)),
        }
    }

    fn encode(&self) -> (r: JsonValue) {
        match self {
            LinePaintLayerLineGradient::Expr(t) => LinePaintLayerLineGradientExpression::encode(&**t),
            LinePaintLayerLineGradient::Literal(t) => JsonValue::encode(t),
        }
    }

    proof fn lemma_round_trip(self) {
        match self {
            LinePaintLayerLineGradient::Expr(t) => LinePaintLayerLineGradientExpression::lemma_round_trip(*t),
            LinePaintLayerLineGradient::Literal(t) => JsonValue::lemma_round_trip(t),
        }
    }
}

/// Nested expression: ramp (`interpolate` / …) or regular [`Number`] operators.
#[derive(PartialEq, Debug, Clone)]
pub enum LinePaintLayerLineOffsetExpression {
    Number(Number),
    Ramp(NumberOrArrayOfNumberOrColorOrArrayOfColorOrProjection),
}

impl JsonDecode for LinePaintLayerLineOffsetExpression {
    open spec fn accepts(v: Json) -> bool {
        Number::accepts(v) || NumberOrArrayOfNumberOrColorOrArrayOfColorOrProjection::accepts(v)
    }

    open spec fn decodes(v: Json, x: Self) -> bool {
        match x {
            LinePaintLayerLineOffsetExpression::Number(t) => Number::accepts(v) && Number::decodes(v, t),
            LinePaintLayerLineOffsetExpression::Ramp(t) => !Number::accepts(v) && NumberOrArrayOfNumberOrColorOrArrayOfColorOrProjection::accepts(v) && NumberOrArrayOfNumberOrColorOrArrayOfColorOrProjection::decodes(v, t),
        }
    }

    open spec fn rejection(v: Json) -> Seq<char> {
        "LinePaintLayerLineOffsetExpression: no variant matched. Expected Number(Number) | Ramp(NumberOrArrayOfNumberOrColorOrArrayOfColorOrProjection). Errors: ["@ + "Number: "@ + Number::rejection(v) + "; Ramp: "@ + NumberOrArrayOfNumberOrColorOrArrayOfColorOrProjection::rejection(v) + "]"@
    }

    fn decode(v: &JsonValue) -> (r: Result<Self, String>) {
        let e0 = match Number::decode(v) {
            Ok(x) => {
                return Ok(LinePaintLayerLineOffsetExpression::Number(x));
            },
            Err(e) => e,
        };
        let e1 = match NumberOrArrayOfNumberOrColorOrArrayOfColorOrProjection::decode(v) {
            Ok(x) => {
                return Ok(LinePaintLayerLineOffsetExpression::Ramp(x));
            },
            Err(e) => e,
        };
        let mut m = "LinePaintLayerLineOffsetExpression: no variant matched. Expected Number(Number) | Ramp(NumberOrArrayOfNumberOrColorOrArrayOfColorOrProjection). Errors: [".to_string();
        m.append("Number: ");
        m.append(e0.as_str());
        m.append("; Ramp: ");
        m.append(e1.as_str());
        m.append("]");
        Err(m)
    }
}

impl JsonEncode for LinePaintLayerLineOffsetExpression {
    open spec fn to_json(self) -> Json {
        match self {
            LinePaintLayerLineOffsetExpression::Number(t) => Number::to_json(t),
            LinePaintLayerLineOffsetExpression::Ramp(t) => NumberOrArrayOfNumberOrColorOrArrayOfColorOrProjection::to_json(t),
        }
    }

    open spec fn round_trips(self) -> bool {
        match self {
            LinePaintLayerLineOffsetExpression::Number(t) => Number::round_trips(t),
            LinePaintLayerLineOffsetExpression::Ramp(t) => NumberOrArrayOfNumberOrColorOrArrayOfColorOrProjection::round_trips(t) && !Number::accepts(NumberOrArrayOfNumberOrColorOrArrayOfColorOrProjection::to_json(t)),
        }
    }

    fn encode(&self) -> (r: JsonValue) {
        match self {
            LinePaintLayerLineOffsetExpression::Number(t) => Number::encode(t),
            LinePaintLayerLineOffsetExpression::Ramp(t) => NumberOrArrayOfNumberOrColorOrArrayOfColorOrProjection::encode(t),
        }
    }

    proof fn lemma_round_trip(self) {
        match self {
            LinePaintLayerLineOffsetExpression::Number(t) => Number::lemma_round_trip(t),
            LinePaintLayerLineOffsetExpression::Ramp(t) => NumberOrArrayOfNumberOrColorOrArrayOfColorOrProjection::lemma_round_trip(t),
        }
    }
}

/// The line's offset. For linear features, a positive value offsets the line to the right, relative to the direction of the line, and a negative value to the left. For polygon features, a positive value results in an inset, and a negative value results in an outset.
#[derive(PartialEq, Debug, Clone)]
pub enum LinePaintLayerLineOffset {
    Expr(Box<LinePaintLayerLineOffsetExpression>),
    Literal(JsonNumber),
}

impl JsonDecode for LinePaintLayerLineOffset {
    open spec fn accepts(v: Json) -> bool {
        LinePaintLayerLineOffsetExpression::accepts(v) || JsonNumber::accepts(v)
    }

    open spec fn decodes(v: Json, x: Self) -> bool {
        match x {
            LinePaintLayerLineOffset::Expr(t) => LinePaintLayerLineOffsetExpression::accepts(v) && LinePaintLayerLineOffsetExpression::decodes(v, *t),
            LinePaintLayerLineOffset::Literal(t) => !LinePaintLayerLineOffsetExpression::accepts(v) && JsonNumber::accepts(v) && JsonNumber::decodes(v, t),
        }
    }

    open spec fn rejection(v: Json) -> Seq<char> {
        "LinePaintLayerLineOffset: no variant matched. Expected Expr(LinePaintLayerLineOffsetExpression) | Literal(serde_json::Number). Errors: ["@ + "Expr: "@ + LinePaintLayerLineOffsetExpression::rejection(v) + "; Literal: "@ + JsonNumber::rejection(v) + "]"@
    }

    fn decode(v: &JsonValue) -> (r: Result<Self, String>) {
        let e0 = match LinePaintLayerLineOffsetExpression::decode(v) {
            Ok(x) => {
                return Ok(LinePaintLayerLineOffset::Expr(Box::new(x)));
            },
            Err(e) => e,
        };
        let e1 = match JsonNumber::decode(v) {
            Ok(x) => {
                return Ok(LinePaintLayerLineOffset::Literal(x));
            },
            Err(e) => e,
        };
        let mut m = "LinePaintLayerLineOffset: no variant matched. Expected Expr(LinePaintLayerLineOffsetExpression) | Literal(serde_json::Number). Errors: [".to_string();
        m.append("Expr: ");
        m.append(e0.as_str());
        m.append("; Literal: ");
        m.append(e1.as_str());
        m.append("]");
        Err(m)
    }
}

impl JsonEncode for LinePaintLayerLineOffset {
    open spec fn to_json(self) -> Json {
        match self {
            LinePaintLayerLineOffset::Expr(t) => LinePaintLayerLineOffsetExpression::to_json(*t),
            LinePaintLayerLineOffset::Literal(t) => JsonNumber::to_json(t),
        }
    }

    open spec fn round_trips(self) -> bool {
        match self {
            LinePaintLayerLineOffset::Expr(t) => LinePaintLayerLineOffsetExpression::round_trips(*t),
            LinePaintLayerLineOffset::Literal(t) => JsonNumber::round_trips(t) && !LinePaintLayerLineOffsetExpression::accepts(JsonNumber::to_json(t)),
        }
    }

    fn encode(&self) -> (r: JsonValue) {
        match self {
            LinePaintLayerLineOffset::Expr(t) => LinePaintLayerLineOffsetExpression::encode(&**t),
            LinePaintLayerLineOffset::Literal(t) => JsonNumber::encode(t),
        }
    }

    proof fn lemma_round_trip(self) {
        match self {
            LinePaintLayerLineOffset::Expr(t) => LinePaintLayerLineOffsetExpression::lemma_round_trip(*t),
            LinePaintLayerLineOffset::Literal(t) => JsonNumber::lemma_round_trip(t),
        }
    }
}

impl Default for LinePaintLayerLineOffset {
    fn default() -> (r: Self)
        ensures
            r.to_json() == Json::Number("0"@),
            r is Literal,
    {
        let r = LinePaintLayerLineOffset::Literal(JsonNumber::from_literal("0"));
        r
    }
}

/// Nested expression: ramp (`interpolate` / …) or regular [`Number`] operators.
#[derive(PartialEq, Debug, Clone)]
pub enum LinePaintLayerLineOpacityExpression {
    Number(Number),
    Ramp(NumberOrArrayOfNumberOrColorOrArrayOfColorOrProjection),
}

impl JsonDecode for LinePaintLayerLineOpacityExpression {
    open spec fn accepts(v: Json) -> bool {
        Number::accepts(v) || NumberOrArrayOfNumberOrColorOrArrayOfColorOrProjection::accepts(v)
    }

    open spec fn decodes(v: Json, x: Self) -> bool {
        match x {
            LinePaintLayerLineOpacityExpression::Number(t) => Number::accepts(v) && Number::decodes(v, t),
            LinePaintLayerLineOpacityExpression::Ramp(t) => !Number::accepts(v) && NumberOrArrayOfNumberOrColorOrArrayOfColorOrProjection::accepts(v) && NumberOrArrayOfNumberOrColorOrArrayOfColorOrProjection::decodes(v, t),
        }
    }

    open spec fn rejection(v: Json) -> Seq<char> {
        "LinePaintLayerLineOpacityExpression: no variant matched. Expected Number(Number) | Ramp(NumberOrArrayOfNumberOrColorOrArrayOfColorOrProjection). Errors: ["@ + "Number: "@ + Number::rejection(v) + "; Ramp: "@ + NumberOrArrayOfNumberOrColorOrArrayOfColorOrProjection::rejection(v) + "]"@
    }

    fn decode(v: &JsonValue) -> (r: Result<Self, String>) {
        let e0 = match Number::decode(v) {
            Ok(x) => {
                return Ok(LinePaintLayerLineOpacityExpression::Number(x));
            },
            Err(e) => e,
        };
        let e1 = match NumberOrArrayOfNumberOrColorOrArrayOfColorOrProjection::decode(v) {
            Ok(x) => {
                return Ok(LinePaintLayerLineOpacityExpression::Ramp(x));
            },
            Err(e) => e,
        };
        let mut m = "LinePaintLayerLineOpacityExpression: no variant matched. Expected Number(Number) | Ramp(NumberOrArrayOfNumberOrColorOrArrayOfColorOrProjection). Errors: [".to_string();
        m.append("Number: ");
        m.append(e0.as_str());
        m.append("; Ramp: ");
        m.append(e1.as_str());
        m.append("]");
        Err(m)
    }
}

impl JsonEncode for LinePaintLayerLineOpacityExpression {
    open spec fn to_json(self) -> Json {
        match self {
            LinePaintLayerLineOpacityExpression::Number(t) => Number::to_json(t),
            LinePaintLayerLineOpacityExpression::Ramp(t) => NumberOrArrayOfNumberOrColorOrArrayOfColorOrProjection::to_json(t),
        }
    }

    open spec fn round_trips(self) -> bool {
        match self {
            LinePaintLayerLineOpacityExpression::Number(t) => Number::round_trips(t),
            LinePaintLayerLineOpacityExpression::Ramp(t) => NumberOrArrayOfNumberOrColorOrArrayOfColorOrProjection::round_trips(t) && !Number::accepts(NumberOrArrayOfNumberOrColorOrArrayOfColorOrProjection::to_json(t)),
        }
    }

    fn encode(&self) -> (r: JsonValue) {
        match self {
            LinePaintLayerLineOpacityExpression::Number(t) => Number::encode(t),
            LinePaintLayerLineOpacityExpression::Ramp(t) => NumberOrArrayOfNumberOrColorOrArrayOfColorOrProjection::encode(t),
        }
    }

    proof fn lemma_round_trip(self) {
        match self {
            LinePaintLayerLineOpacityExpression::Number(t) => Number::lemma_round_trip(t),
            LinePaintLayerLineOpacityExpression::Ramp(t) => NumberOrArrayOfNumberOrColorOrArrayOfColorOrProjection::lemma_round_trip(t),
        }
    }
}

/// The opacity at which the line will be drawn.
#[derive(PartialEq, Debug, Clone)]
pub enum LinePaintLayerLineOpacity {
    Expr(Box<LinePaintLayerLineOpacityExpression>),
    Literal(JsonNumber),
}

impl JsonDecode for LinePaintLayerLineOpacity {
    open spec fn accepts(v: Json) -> bool {
        LinePaintLayerLineOpacityExpression::accepts(v) || JsonNumber::accepts(v)
    }

    open spec fn decodes(v: Json, x: Self) -> bool {
        match x {
            LinePaintLayerLineOpacity::Expr(t) => LinePaintLayerLineOpacityExpression::accepts(v) && LinePaintLayerLineOpacityExpression::decodes(v, *t),
            LinePaintLayerLineOpacity::Literal(t) => !LinePaintLayerLineOpacityExpression::accepts(v) && JsonNumber::accepts(v) && JsonNumber::decodes(v, t),
        }
    }

    open spec fn rejection(v: Json) -> Seq<char> {
        "LinePaintLayerLineOpacity: no variant matched. Expected Expr(LinePaintLayerLineOpacityExpression) | Literal(serde_json::Number). Errors: ["@ + "Expr: "@ + LinePaintLayerLineOpacityExpression::rejection(v) + "; Literal: "@ + JsonNumber::rejection(v) + "]"@
    }

    fn decode(v: &JsonValue) -> (r: Result<Self, String>) {
        let e0 = match LinePaintLayerLineOpacityExpression::decode(v) {
            Ok(x) => {
                return Ok(LinePaintLayerLineOpacity::Expr(Box::new(x)));
            },
            Err(e) => e,
        };
        let e1 = match JsonNumber::decode(v) {
            Ok(x) => {
                return Ok(LinePaintLayerLineOpacity::Literal(x));
            },
            Err(e) => e,
        };
        let mut m = "LinePaintLayerLineOpacity: no variant matched. Expected Expr(LinePaintLayerLineOpacityExpression) | Literal(serde_json::Number). Errors: [".to_string();
        m.append("Expr: ");
        m.append(e0.as_str());
        m.append("; Literal: ");
        m.append(e1.as_str());
        m.append("]");
        Err(m)
    }
}

impl JsonEncode for LinePaintLayerLineOpacity {
    open spec fn to_json(self) -> Json {
        match self {
            LinePaintLayerLineOpacity::Expr(t) => LinePaintLayerLineOpacityExpression::to_json(*t),
            LinePaintLayerLineOpacity::Literal(t) => JsonNumber::to_json(t),
        }
    }

    open spec fn round_trips(self) -> bool {
        match self {
            LinePaintLayerLineOpacity::Expr(t) => LinePaintLayerLineOpacityExpression::round_trips(*t),
            LinePaintLayerLineOpacity::Literal(t) => JsonNumber::round_trips(t) && !LinePaintLayerLineOpacityExpression::accepts(JsonNumber::to_json(t)),
        }
    }

    fn encode(&self) -> (r: JsonValue) {
        match self {
            LinePaintLayerLineOpacity::Expr(t) => LinePaintLayerLineOpacityExpression::encode(&**t),
            LinePaintLayerLineOpacity::Literal(t) => JsonNumber::encode(t),
        }
    }

    proof fn lemma_round_trip(self) {
        match self {
            LinePaintLayerLineOpacity::Expr(t) => LinePaintLayerLineOpacityExpression::lemma_round_trip(*t),
            LinePaintLayerLineOpacity::Literal(t) => JsonNumber::lemma_round_trip(t),
        }
    }
}

impl Default for LinePaintLayerLineOpacity {
    fn default() -> (r: Self)
        ensures
            r.to_json() == Json::Number("1"@),
            r is Literal,
    {
        let r = LinePaintLayerLineOpacity::Literal(JsonNumber::from_literal("1"));
        r
    }
}

/// Name of image in sprite to use for drawing image lines. For seamless patterns, image width must be a factor of two (2, 4, 8, ..., 512). Note that zoom-dependent expressions will be evaluated only at integer zoom levels.
#[derive(PartialEq, Eq, Debug, Clone)]
pub struct LinePaintLayerLinePattern(String);

impl View for LinePaintLayerLinePattern {
    type V = Seq<char>;

    closed spec fn view(&self) -> Seq<char> {
        self.0@
    }
}

impl JsonDecode for LinePaintLayerLinePattern {
    open spec fn accepts(v: Json) -> bool {
        v is Str
    }

    open spec fn decodes(v: Json, x: Self) -> bool {
        v == Json::Str(x@)
    }

    open spec fn rejection(v: Json) -> Seq<char> {
        String::rejection(v)
    }

    fn decode(v: &JsonValue) -> (r: Result<Self, String>) {
        match String::decode(v) {
            Ok(x) => Ok(LinePaintLayerLinePattern(x)),
            Err(e) => Err(e),
        }
    }
}

impl JsonEncode for LinePaintLayerLinePattern {
    open spec fn to_json(self) -> Json {
        Json::Str(self@)
    }

    open spec fn round_trips(self) -> bool {
        true
    }

    fn encode(&self) -> (r: JsonValue) {
        String::encode(&self.0)
    }

    proof fn lemma_round_trip(self) {
        String::lemma_round_trip(self.0);
    }
}

/// The geometry's offset. Values are [x, y] where negatives indicate left and up, respectively.
#[derive(PartialEq, Debug, Clone)]
pub struct LinePaintLayerLineTranslate(Box<[JsonNumber; 2]>);

impl JsonDecode for LinePaintLayerLineTranslate {
    closed spec fn accepts(v: Json) -> bool {
        <[JsonNumber; 2] as JsonDecode>::accepts(v)
    }

    closed spec fn decodes(v: Json, x: Self) -> bool {
        <[JsonNumber; 2] as JsonDecode>::decodes(v, *x.0)
    }

    closed spec fn rejection(v: Json) -> Seq<char> {
        <[JsonNumber; 2] as JsonDecode>::rejection(v)
    }

    fn decode(v: &JsonValue) -> (r: Result<Self, String>) {
        match <[JsonNumber; 2] as JsonDecode>::decode(v) {
            Ok(x) => Ok(LinePaintLayerLineTranslate(Box::new(x))),
            Err(e) => Err(e),
        }
    }
}

impl JsonEncode for LinePaintLayerLineTranslate {
    closed spec fn to_json(self) -> Json {
        <[JsonNumber; 2] as JsonEncode>::to_json((*self.0))
    }

    closed spec fn round_trips(self) -> bool {
        <[JsonNumber; 2] as JsonEncode>::round_trips((*self.0))
    }

    fn encode(&self) -> (r: JsonValue) {
        <[JsonNumber; 2] as JsonEncode>::encode(&(*self.0))
    }

    proof fn lemma_round_trip(self) {
        <[JsonNumber; 2] as JsonEncode>::lemma_round_trip((*self.0));
    }
}

impl Default for LinePaintLayerLineTranslate {
    fn default() -> (r: Self)
        ensures
            r.to_json() == Json::Array(seq![Json::Number("0"@), Json::Number("0"@)]),
    {
        let r = LinePaintLayerLineTranslate(Box::new([JsonNumber::from_literal("0"), JsonNumber::from_literal("0")]));
        proof {
            assert(r.to_json() =~~= Json::Array(seq![Json::Number("0"@), Json::Number("0"@)]));
        }
        r
    }
}

/// Controls the frame of reference for `line-translate`.
#[derive(PartialEq, Eq, Debug, Clone, Copy)]
pub enum LinePaintLayerLineTranslateAnchor {
    MapValue,
    Viewport,
}

impl LinePaintLayerLineTranslateAnchor {
    /// The name that stands for the value in a style document.
    pub open spec fn spec_name(self) -> Seq<char> {
        match self {
            LinePaintLayerLineTranslateAnchor::MapValue => "map"@,
            LinePaintLayerLineTranslateAnchor::Viewport => "viewport"@,
        }
    }

    /// The name that stands for the value in a style document.
    pub fn name(&self) -> (r: &'static str)
        ensures
            r@ == self.spec_name(),
    {
        match self {
            LinePaintLayerLineTranslateAnchor::MapValue => "map",
            LinePaintLayerLineTranslateAnchor::Viewport => "viewport",
        }
    }

    /// The value that a name stands for, if any.
    pub fn from_name(s: &str) -> (r: Option<LinePaintLayerLineTranslateAnchor>)
        ensures
            r matches Some(x) ==> x.spec_name() == s@,
            r is None ==> forall|x: LinePaintLayerLineTranslateAnchor| x.spec_name() != s@,
    {
        if str_eq(s, "map") {
            Some(LinePaintLayerLineTranslateAnchor::MapValue)
        } else if str_eq(s, "viewport") {
            Some(LinePaintLayerLineTranslateAnchor::Viewport)
        } else {
            None
        }
    }
}

impl LinePaintLayerLineTranslateAnchor {
    /// Each value is read from, and written as, the name that the style specification gives
    /// it, and a document holding one of these names reads as that value and no other.
    pub proof fn lemma_read_by_name()
        ensures
            <LinePaintLayerLineTranslateAnchor as JsonEncode>::to_json(LinePaintLayerLineTranslateAnchor::Viewport) == Json::Str("viewport"@),
            forall|x: LinePaintLayerLineTranslateAnchor| <LinePaintLayerLineTranslateAnchor as JsonDecode>::decodes(Json::Str("viewport"@), x) <==> x == LinePaintLayerLineTranslateAnchor::Viewport,
            forall|x: LinePaintLayerLineTranslateAnchor| <LinePaintLayerLineTranslateAnchor as JsonDecode>::decodes(Json::Str("map"@), x) <==> x == LinePaintLayerLineTranslateAnchor::MapValue,
            <LinePaintLayerLineTranslateAnchor as JsonEncode>::to_json(LinePaintLayerLineTranslateAnchor::MapValue) == Json::Str("map"@),
    {
        reveal_strlit("viewport");
        reveal_strlit("map");
        assert("map"@.len() != "viewport"@.len());
    }
}

impl JsonDecode for LinePaintLayerLineTranslateAnchor {
    /// The name of a value, or an object whose one entry has the name as its key and `null`.
    open spec fn accepts(v: Json) -> bool {
        ||| (v is Str && exists|x: LinePaintLayerLineTranslateAnchor| x.spec_name() == v->Str_0)
        ||| (v is Object && v->Object_0.len() == 1 && v->Object_0[0].1 is Null && exists|x: LinePaintLayerLineTranslateAnchor| x.spec_name() == v->Object_0[0].0)
    }

    open spec fn decodes(v: Json, x: Self) -> bool {
        ||| v == Json::Str(x.spec_name())
        ||| (v is Object && v->Object_0.len() == 1 && v->Object_0[0] == (x.spec_name(), Json::Null))
    }

    open spec fn rejection(v: Json) -> Seq<char> {
        if v is Str {
            unknown_variant(v->Str_0) + ", expected `map` or `viewport`"@
        } else if v is Object {
            let o = v->Object_0;
            if o.len() != 1 {
                "invalid value: map, expected map with a single key"@
            } else if !(exists|x: LinePaintLayerLineTranslateAnchor| x.spec_name() == o[0].0) {
                unknown_variant(o[0].0) + ", expected `map` or `viewport`"@
            } else {
                type_error(o[0].1, "unit"@)
            }
        } else {
            type_error(v, "string or map"@)
        }
    }

    fn decode(v: &JsonValue) -> (r: Result<Self, String>) {
        match v {
            JsonValue::String(s) => match Self::from_name(s.as_str()) {
                Some(x) => Ok(x),
                None => {
                    let mut m = make_unknown_variant(s.as_str());
                    m.append(", expected `map` or `viewport`");
                    Err(m)
                },
            },
            JsonValue::Object(fields) => {
                if fields.len() != 1 {
                    return Err("invalid value: map, expected map with a single key".to_string());
                }
                proof {
                    assert(entries_model(*fields)[0] == (fields@[0].0@, fields@[0].1.model()));
                }
                match Self::from_name(fields[0].0.as_str()) {
                    Some(x) => match &fields[0].1 {
                        JsonValue::Null => Ok(x),
                        _ => Err(make_type_error(&fields[0].1, "unit")),
                    },
                    None => {
                        let mut m = make_unknown_variant(fields[0].0.as_str());
                        m.append(", expected `map` or `viewport`");
                        Err(m)
                    },
                }
            },
            _ => Err(make_type_error(v, "string or map")),
        }
    }
}

impl JsonEncode for LinePaintLayerLineTranslateAnchor {
    open spec fn to_json(self) -> Json {
        Json::Str(self.spec_name())
    }

    open spec fn round_trips(self) -> bool {
        true
    }

    fn encode(&self) -> (r: JsonValue) {
        JsonValue::String(self.name().to_string())
    }

    proof fn lemma_round_trip(self) {
    }
}

impl Default for LinePaintLayerLineTranslateAnchor {
    fn default() -> (r: Self)
        ensures
            r == LinePaintLayerLineTranslateAnchor::MapValue,
    {
        LinePaintLayerLineTranslateAnchor::MapValue
    }
}

/// Nested expression: ramp (`interpolate` / …) or regular [`Number`] operators.
#[derive(PartialEq, Debug, Clone)]
pub enum LinePaintLayerLineWidthExpression {
    Number(Number),
    Ramp(NumberOrArrayOfNumberOrColorOrArrayOfColorOrProjection),
}

impl JsonDecode for LinePaintLayerLineWidthExpression {
    open spec fn accepts(v: Json) -> bool {
        Number::accepts(v) || NumberOrArrayOfNumberOrColorOrArrayOfColorOrProjection::accepts(v)
    }

    open spec fn decodes(v: Json, x: Self) -> bool {
        match x {
            LinePaintLayerLineWidthExpression::Number(t) => Number::accepts(v) && Number::decodes(v, t),
            LinePaintLayerLineWidthExpression::Ramp(t) => !Number::accepts(v) && NumberOrArrayOfNumberOrColorOrArrayOfColorOrProjection::accepts(v) && NumberOrArrayOfNumberOrColorOrArrayOfColorOrProjection::decodes(v, t),
        }
    }

    open spec fn rejection(v: Json) -> Seq<char> {
        "LinePaintLayerLineWidthExpression: no variant matched. Expected Number(Number) | Ramp(NumberOrArrayOfNumberOrColorOrArrayOfColorOrProjection). Errors: ["@ + "Number: "@ + Number::rejection(v) + "; Ramp: "@ + NumberOrArrayOfNumberOrColorOrArrayOfColorOrProjection::rejection(v) + "]"@
    }

    fn decode(v: &JsonValue) -> (r: Result<Self, String>) {
        let e0 = match Number::decode(v) {
            Ok(x) => {
                return Ok(LinePaintLayerLineWidthExpression::Number(x));
            },
            Err(e) => e,
        };
        let e1 = match NumberOrArrayOfNumberOrColorOrArrayOfColorOrProjection::decode(v) {
            Ok(x) => {
                return Ok(LinePaintLayerLineWidthExpression::Ramp(x));
            },
            Err(e) => e,
        };
        let mut m = "LinePaintLayerLineWidthExpression: no variant matched. Expected Number(Number) | Ramp(NumberOrArrayOfNumberOrColorOrArrayOfColorOrProjection). Errors: [".to_string();
        m.append("Number: ");
        m.append(e0.as_str());
        m.append("; Ramp: ");
        m.append(e1.as_str());
        m.append("]");
        Err(m)
    }
}

impl JsonEncode for LinePaintLayerLineWidthExpression {
    open spec fn to_json(self) -> Json {
        match self {
            LinePaintLayerLineWidthExpression::Number(t) => Number::to_json(t),
            LinePaintLayerLineWidthExpression::Ramp(t) => NumberOrArrayOfNumberOrColorOrArrayOfColorOrProjection::to_json(t),
        }
    }

    open spec fn round_trips(self) -> bool {
        match self {
            LinePaintLayerLineWidthExpression::Number(t) => Number::round_trips(t),
            LinePaintLayerLineWidthExpression::Ramp(t) => NumberOrArrayOfNumberOrColorOrArrayOfColorOrProjection::round_trips(t) && !Number::accepts(NumberOrArrayOfNumberOrColorOrArrayOfColorOrProjection::to_json(t)),
        }
    }

    fn encode(&self) -> (r: JsonValue) {
        match self {
            LinePaintLayerLineWidthExpression::Number(t) => Number::encode(t),
            LinePaintLayerLineWidthExpression::Ramp(t) => NumberOrArrayOfNumberOrColorOrArrayOfColorOrProjection::encode(t),
        }
    }

    proof fn lemma_round_trip(self) {
        match self {
            LinePaintLayerLineWidthExpression::Number(t) => Number::lemma_round_trip(t),
            LinePaintLayerLineWidthExpression::Ramp(t) => NumberOrArrayOfNumberOrColorOrArrayOfColorOrProjection::lemma_round_trip(t),
        }
    }
}

/// Stroke thickness.
#[derive(PartialEq, Debug, Clone)]
pub enum LinePaintLayerLineWidth {
    Expr(Box<LinePaintLayerLineWidthExpression>),
    Literal(JsonNumber),
}

impl JsonDecode for LinePaintLayerLineWidth {
    open spec fn accepts(v: Json) -> bool {
        LinePaintLayerLineWidthExpression::accepts(v) || JsonNumber::accepts(v)
    }

    open spec fn decodes(v: Json, x: Self) -> bool {
        match x {
            LinePaintLayerLineWidth::Expr(t) => LinePaintLayerLineWidthExpression::accepts(v) && LinePaintLayerLineWidthExpression::decodes(v, *t),
            LinePaintLayerLineWidth::Literal(t) => !LinePaintLayerLineWidthExpression::accepts(v) && JsonNumber::accepts(v) && JsonNumber::decodes(v, t),
        }
    }

    open spec fn rejection(v: Json) -> Seq<char> {
        "LinePaintLayerLineWidth: no variant matched. Expected Expr(LinePaintLayerLineWidthExpression) | Literal(serde_json::Number). Errors: ["@ + "Expr: "@ + LinePaintLayerLineWidthExpression::rejection(v) + "; Literal: "@ + JsonNumber::rejection(v) + "]"@
    }

    fn decode(v: &JsonValue) -> (r: Result<Self, String>) {
        let e0 = match LinePaintLayerLineWidthExpression::decode(v) {
            Ok(x) => {
                return Ok(LinePaintLayerLineWidth::Expr(Box::new(x)));
            },
            Err(e) => e,
        };
        let e1 = match JsonNumber::decode(v) {
            Ok(x) => {
                return Ok(LinePaintLayerLineWidth::Literal(x));
            },
            Err(e) => e,
        };
        let mut m = "LinePaintLayerLineWidth: no variant matched. Expected Expr(LinePaintLayerLineWidthExpression) | Literal(serde_json::Number). Errors: [".to_string();
        m.append("Expr: ");
        m.append(e0.as_str());
        m.append("; Literal: ");
        m.append(e1.as_str());
        m.append("]");
        Err(m)
    }
}

impl JsonEncode for LinePaintLayerLineWidth {
    open spec fn to_json(self) -> Json {
        match self {
            LinePaintLayerLineWidth::Expr(t) => LinePaintLayerLineWidthExpression::to_json(*t),
            LinePaintLayerLineWidth::Literal(t) => JsonNumber::to_json(t),
        }
    }

    open spec fn round_trips(self) -> bool {
        match self {
            LinePaintLayerLineWidth::Expr(t) => LinePaintLayerLineWidthExpression::round_trips(*t),
            LinePaintLayerLineWidth::Literal(t) => JsonNumber::round_trips(t) && !LinePaintLayerLineWidthExpression::accepts(JsonNumber::to_json(t)),
        }
    }

    fn encode(&self) -> (r: JsonValue) {
        match self {
            LinePaintLayerLineWidth::Expr(t) => LinePaintLayerLineWidthExpression::encode(&**t),
            LinePaintLayerLineWidth::Literal(t) => JsonNumber::encode(t),
        }
    }

    proof fn lemma_round_trip(self) {
        match self {
            LinePaintLayerLineWidth::Expr(t) => LinePaintLayerLineWidthExpression::lemma_round_trip(*t),
            LinePaintLayerLineWidth::Literal(t) => JsonNumber::lemma_round_trip(t),
        }
    }
}

impl Default for LinePaintLayerLineWidth {
    fn default() -> (r: Self)
        ensures
            r.to_json() == Json::Number("1"@),
            r is Literal,
    {
        let r = LinePaintLayerLineWidth::Literal(JsonNumber::from_literal("1"));
        r
    }
}

#[derive(PartialEq, Debug, Clone)]
pub struct RasterLayoutLayer {
    /// Whether this layer is displayed.
    pub visibility: Option<RasterLayoutLayerVisibility>,
}

impl JsonDecode for RasterLayoutLayer {
    /// An object with the fields by their keys, or an array with the fields in order.
    open spec fn accepts(v: Json) -> bool {
        ||| (v is Object && {
            let o = v->Object_0;
            &&& opt_field_accepts::<RasterLayoutLayerVisibility>(o, "visibility"@)
        })
        ||| (v is Array && {
            let a = v->Array_0;
            &&& seq_opt_accepts::<RasterLayoutLayerVisibility>(a, 0, true)
            &&& a.len() <= 1
        })
    }

    open spec fn decodes(v: Json, x: Self) -> bool {
        ||| (v is Object && {
            let o = v->Object_0;
            &&& opt_field_decodes::<RasterLayoutLayerVisibility>(o, "visibility"@, x.visibility)
        })
        ||| (v is Array && {
            let a = v->Array_0;
            &&& seq_opt_decodes::<RasterLayoutLayerVisibility>(a, 0, x.visibility)
        })
    }

    /// For an object, the first entry in order whose value does not read as its field, else the
    /// first required field that is missing.
    open spec fn rejection(v: Json) -> Seq<char> {
        if v is Object {
            let o = v->Object_0;
            match Self::first_fault(o, 0) {
                Some(m) => m,
                None => {
                    Seq::empty()
                },
            }
        } else if v is Array {
            let a = v->Array_0;
            if !seq_opt_accepts::<RasterLayoutLayerVisibility>(a, 0, true) {
                seq_opt_rejection::<RasterLayoutLayerVisibility>(a, 0, "struct RasterLayoutLayer with 1 element"@)
            } else if a.len() > 1 {
                length_error(a.len())
            } else {
                Seq::empty()
            }
        } else {
            type_error(v, "struct RasterLayoutLayer"@)
        }
    }

    fn decode(v: &JsonValue) -> (r: Result<Self, String>) {
        match v {
            JsonValue::Object(fields) => {
                let visibility = match decode_opt_field::<RasterLayoutLayerVisibility>(fields, "visibility") {
                    Ok(x) => x,
                    Err(_) => return Err(Self::object_rejection(fields)),
                };
                Ok(RasterLayoutLayer { visibility })
            },
            JsonValue::Array(a) => {
                let visibility = match decode_seq_opt::<RasterLayoutLayerVisibility>(a, 0, true, "struct RasterLayoutLayer with 1 element") {
                    Ok(x) => x,
                    Err(e) => return Err(e),
                };
                if a.len() > 1 {
                    return Err(make_length_error(a.len()));
                }
                Ok(RasterLayoutLayer { visibility })
            },
            _ => Err(make_type_error(v, "struct RasterLayoutLayer")),
        }
    }
}

impl RasterLayoutLayer {
    /// What is wrong with the value `w` of an entry with key `k`, where `k` is the key of a field.
    pub open spec fn field_fault(k: Seq<char>, w: Json) -> Option<Seq<char>> {
        if k == "visibility"@ {
            if w is Null || RasterLayoutLayerVisibility::accepts(w) {
                None
            } else {
                Some(RasterLayoutLayerVisibility::rejection(w))
            }
        } else {
            None
        }
    }

    /// The message of the first entry of `o`, from entry `i` on and among the first entries of
    /// their keys, whose value does not read as its field, if any.
    pub open spec fn first_fault(o: Seq<(Seq<char>, Json)>, i: int) -> Option<Seq<char>>
        decreases o.len() - i,
    {
        if i < 0 || i >= o.len() {
            None
        } else if first_with_key(o, i) && Self::field_fault(o[i].0, o[i].1) is Some {
            Self::field_fault(o[i].0, o[i].1)
        } else {
            Self::first_fault(o, i + 1)
        }
    }

    fn find_field_fault(k: &str, w: &JsonValue) -> (r: Option<String>)
        ensures
            match r {
                Some(m) => Self::field_fault(k@, w.model()) == Some(m@),
                None => Self::field_fault(k@, w.model()) is None,
            },
    {
        if str_eq(k, "visibility") {
            match w {
                JsonValue::Null => None,
                _ => match RasterLayoutLayerVisibility::decode(w) {
                    Ok(_) => None,
                    Err(e) => Some(e),
                },
            }
        } else {
            None
        }
    }

    fn object_rejection(fields: &Vec<(String, JsonValue)>) -> (r: String)
        ensures
            r@ == Self::rejection(JsonValue::Object(*fields).model()),
    {
        let ghost o = entries_model(*fields);
        let mut i: usize = 0;
        while i < fields.len()
            invariant
                o == entries_model(*fields),
                o.len() == fields.len(),
                i <= fields.len(),
                Self::first_fault(o, 0) == Self::first_fault(o, i as int),
            decreases fields.len() - i,
        {
            proof {
                assert(o[i as int] == (fields@[i as int].0@, fields@[i as int].1.model()));
            }
            if !key_seen_before(fields, i) {
                match Self::find_field_fault(fields[i].0.as_str(), &fields[i].1) {
                    Some(m) => {
                        return m;
                    },
                    None => {},
                }
            }
            i += 1;
        }
        String::new()
    }
}

impl RasterLayoutLayer {
    /// The keys of the fields, in order.
    pub open spec fn field_keys() -> Seq<Seq<char>> {
        seq!["visibility"@]
    }

    /// The entries that each field is written as, in order.
    pub open spec fn field_entries(self) -> Seq<Seq<(Seq<char>, Json)>> {
        seq![opt_entry::<RasterLayoutLayerVisibility>("visibility"@, self.visibility)]
    }

    proof fn lemma_keys_differ(i: int)
        requires
            0 <= i < 1,
        ensures
            others_differ(Self::field_keys(), i),
    {
        reveal_strlit("visibility");
        assert("visibility"@.len() == 10);
    }
}

impl JsonEncode for RasterLayoutLayer {
    open spec fn to_json(self) -> Json {
        Json::Object(self.field_entries().flatten())
    }

    open spec fn round_trips(self) -> bool {
        &&& (self.visibility matches Some(t) ==> t.round_trips() && !(t.to_json() is Null))
    }

    fn encode(&self) -> (r: JsonValue) {
        let mut out: Vec<(String, JsonValue)> = Vec::new();
        let ghost s0 = Seq::<Seq<(Seq<char>, Json)>>::empty();
        proof {
            assert(entries_model(out) =~= s0.flatten());
        }
        push_opt_entry::<RasterLayoutLayerVisibility>(&mut out, "visibility", &self.visibility);
        let ghost s1 = s0.push(opt_entry::<RasterLayoutLayerVisibility>("visibility"@, self.visibility));
        proof {
            s0.lemma_flatten_push(opt_entry::<RasterLayoutLayerVisibility>("visibility"@, self.visibility));
            assert(entries_model(out) =~= s1.flatten());
        }
        proof {
            assert(self.field_entries() == s1);
        }
        JsonValue::Object(out)
    }

    proof fn lemma_round_trip(self) {
        let keys = Self::field_keys();
        let es = self.field_entries();
        assert(keyed_by(es, keys));
        Self::lemma_keys_differ(0);
        lemma_lookup_flatten(es, keys, 0);
        lemma_lookup_opt_entry::<RasterLayoutLayerVisibility>("visibility"@, self.visibility, "visibility"@);
        if self.visibility is Some {
            self.visibility->0.lemma_round_trip();
        }
    }
}

/// Whether this layer is displayed.
#[derive(PartialEq, Eq, Debug, Clone, Copy)]
pub enum RasterLayoutLayerVisibility {
    NoneValue,
    Visible,
}

impl RasterLayoutLayerVisibility {
    /// The name that stands for the value in a style document.
    pub open spec fn spec_name(self) -> Seq<char> {
        match self {
            RasterLayoutLayerVisibility::NoneValue => "none"@,
            RasterLayoutLayerVisibility::Visible => "visible"@,
        }
    }

    /// The name that stands for the value in a style document.
    pub fn name(&self) -> (r: &'static str)
        ensures
            r@ == self.spec_name(),
    {
        match self {
            RasterLayoutLayerVisibility::NoneValue => "none",
            RasterLayoutLayerVisibility::Visible => "visible",
        }
    }

    /// The value that a name stands for, if any.
    pub fn from_name(s: &str) -> (r: Option<RasterLayoutLayerVisibility>)
        ensures
            r matches Some(x) ==> x.spec_name() == s@,
            r is None ==> forall|x: RasterLayoutLayerVisibility| x.spec_name() != s@,
    {
        if str_eq(s, "none") {
            Some(RasterLayoutLayerVisibility::NoneValue)
        } else if str_eq(s, "visible") {
            Some(RasterLayoutLayerVisibility::Visible)
        } else {
            None
        }
    }
}

impl RasterLayoutLayerVisibility {
    /// Each value is read from, and written as, the name that the style specification gives
    /// it, and a document holding one of these names reads as that value and no other.
    pub proof fn lemma_read_by_name()
        ensures
            forall|x: RasterLayoutLayerVisibility| <RasterLayoutLayerVisibility as JsonDecode>::decodes(Json::Str("visible"@), x) <==> x == RasterLayoutLayerVisibility::Visible,
            <RasterLayoutLayerVisibility as JsonEncode>::to_json(RasterLayoutLayerVisibility::Visible) == Json::Str("visible"@),
            <RasterLayoutLayerVisibility as JsonEncode>::to_json(RasterLayoutLayerVisibility::NoneValue) == Json::Str("none"@),
            forall|x: RasterLayoutLayerVisibility| <RasterLayoutLayerVisibility as JsonDecode>::decodes(Json::Str("none"@), x) <==> x == RasterLayoutLayerVisibility::NoneValue,
    {
        reveal_strlit("visible");
        reveal_strlit("none");
        assert("none"@.len() != "visible"@.len());
    }
}

impl JsonDecode for RasterLayoutLayerVisibility {
    /// The name of a value, or an object whose one entry has the name as its key and `null`.
    open spec fn accepts(v: Json) -> bool {
        ||| (v is Str && exists|x: RasterLayoutLayerVisibility| x.spec_name() == v->Str_0)
        ||| (v is Object && v->Object_0.len() == 1 && v->Object_0[0].1 is Null && exists|x: RasterLayoutLayerVisibility| x.spec_name() == v->Object_0[0].0)
    }

    open spec fn decodes(v: Json, x: Self) -> bool {
        ||| v == Json::Str(x.spec_name())
        ||| (v is Object && v->Object_0.len() == 1 && v->Object_0[0] == (x.spec_name(), Json::Null))
    }

    open spec fn rejection(v: Json) -> Seq<char> {
        if v is Str {
            unknown_variant(v->Str_0) + ", expected `none` or `visible`"@
        } else if v is Object {
            let o = v->Object_0;
            if o.len() != 1 {
                "invalid value: map, expected map with a single key"@
            } else if !(exists|x: RasterLayoutLayerVisibility| x.spec_name() == o[0].0) {
                unknown_variant(o[0].0) + ", expected `none` or `visible`"@
            } else {
                type_error(o[0].1, "unit"@)
            }
        } else {
            type_error(v, "string or map"@)
        }
    }

    fn decode(v: &JsonValue) -> (r: Result<Self, String>) {
        match v {
            JsonValue::String(s) => match Self::from_name(s.as_str()) {
                Some(x) => Ok(x),
                None => {
                    let mut m = make_unknown_variant(s.as_str());
                    m.append(", expected `none` or `visible`");
                    Err(m)
                },
            },
            JsonValue::Object(fields) => {
                if fields.len() != 1 {
                    return Err("invalid value: map, expected map with a single key".to_string());
                }
                proof {
                    assert(entries_model(*fields)[0] == (fields@[0].0@, fields@[0].1.model()));
                }
                match Self::from_name(fields[0].0.as_str()) {
                    Some(x) => match &fields[0].1 {
                        JsonValue::Null => Ok(x),
                        _ => Err(make_type_error(&fields[0].1, "unit")),
                    },
                    None => {
                        let mut m = make_unknown_variant(fields[0].0.as_str());
                        m.append(", expected `none` or `visible`");
                        Err(m)
                    },
                }
            },
            _ => Err(make_type_error(v, "string or map")),
        }
    }
}

impl JsonEncode for RasterLayoutLayerVisibility {
    open spec fn to_json(self) -> Json {
        Json::Str(self.spec_name())
    }

    open spec fn round_trips(self) -> bool {
        true
    }

    fn encode(&self) -> (r: JsonValue) {
        JsonValue::String(self.name().to_string())
    }

    proof fn lemma_round_trip(self) {
    }
}

impl Default for RasterLayoutLayerVisibility {
    fn default() -> (r: Self)
        ensures
            r == RasterLayoutLayerVisibility::Visible,
    {
        RasterLayoutLayerVisibility::Visible
    }
}

#[derive(PartialEq, Debug, Clone)]
pub struct RasterPaintLayer {
    /// Increase or reduce the brightness of the image. The value is the maximum brightness.
    pub raster_brightness_max: Option<RasterPaintLayerRasterBrightnessMax>,
    /// Increase or reduce the brightness of the image. The value is the minimum brightness.
    pub raster_brightness_min: Option<RasterPaintLayerRasterBrightnessMin>,
    /// Increase or reduce the contrast of the image.
    pub raster_contrast: Option<RasterPaintLayerRasterContrast>,
    /// Fade duration when a new tile is added, or when a video is started or its coordinates are updated.
    pub raster_fade_duration: Option<RasterPaintLayerRasterFadeDuration>,
    /// Rotates hues around the color wheel.
    pub raster_hue_rotate: Option<RasterPaintLayerRasterHueRotate>,
    /// The opacity at which the image will be drawn.
    pub raster_opacity: Option<RasterPaintLayerRasterOpacity>,
    /// The resampling/interpolation method to use for overscaling, also known as texture magnification filter
    pub raster_resampling: Option<RasterPaintLayerRasterResampling>,
    /// Increase or reduce the saturation of the image.
    pub raster_saturation: Option<RasterPaintLayerRasterSaturation>,
}

impl JsonDecode for RasterPaintLayer {
    /// An object with the fields by their keys, or an array with the fields in order.
    open spec fn accepts(v: Json) -> bool {
        ||| (v is Object && {
            let o = v->Object_0;
            &&& opt_field_accepts::<RasterPaintLayerRasterBrightnessMax>(o, "raster-brightness-max"@)
            &&& opt_field_accepts::<RasterPaintLayerRasterBrightnessMin>(o, "raster-brightness-min"@)
            &&& opt_field_accepts::<RasterPaintLayerRasterContrast>(o, "raster-contrast"@)
            &&& opt_field_accepts::<RasterPaintLayerRasterFadeDuration>(o, "raster-fade-duration"@)
            &&& opt_field_accepts::<RasterPaintLayerRasterHueRotate>(o, "raster-hue-rotate"@)
            &&& opt_field_accepts::<RasterPaintLayerRasterOpacity>(o, "raster-opacity"@)
            &&& opt_field_accepts::<RasterPaintLayerRasterResampling>(o, "raster-resampling"@)
            &&& opt_field_accepts::<RasterPaintLayerRasterSaturation>(o, "raster-saturation"@)
        })
        ||| (v is Array && {
            let a = v->Array_0;
            &&& seq_opt_accepts::<RasterPaintLayerRasterBrightnessMax>(a, 0, true)
            &&& seq_opt_accepts::<RasterPaintLayerRasterBrightnessMin>(a, 1, true)
            &&& seq_opt_accepts::<RasterPaintLayerRasterContrast>(a, 2, true)
            &&& seq_opt_accepts::<RasterPaintLayerRasterFadeDuration>(a, 3, true)
            &&& seq_opt_accepts::<RasterPaintLayerRasterHueRotate>(a, 4, true)
            &&& seq_opt_accepts::<RasterPaintLayerRasterOpacity>(a, 5, true)
            &&& seq_opt_accepts::<RasterPaintLayerRasterResampling>(a, 6, true)
            &&& seq_opt_accepts::<RasterPaintLayerRasterSaturation>(a, 7, true)
            &&& a.len() <= 8
        })
    }

    open spec fn decodes(v: Json, x: Self) -> bool {
        ||| (v is Object && {
            let o = v->Object_0;
            &&& opt_field_decodes::<RasterPaintLayerRasterBrightnessMax>(o, "raster-brightness-max"@, x.raster_brightness_max)
            &&& opt_field_decodes::<RasterPaintLayerRasterBrightnessMin>(o, "raster-brightness-min"@, x.raster_brightness_min)
            &&& opt_field_decodes::<RasterPaintLayerRasterContrast>(o, "raster-contrast"@, x.raster_contrast)
            &&& opt_field_decodes::<RasterPaintLayerRasterFadeDuration>(o, "raster-fade-duration"@, x.raster_fade_duration)
            &&& opt_field_decodes::<RasterPaintLayerRasterHueRotate>(o, "raster-hue-rotate"@, x.raster_hue_rotate)
            &&& opt_field_decodes::<RasterPaintLayerRasterOpacity>(o, "raster-opacity"@, x.raster_opacity)
            &&& opt_field_decodes::<RasterPaintLayerRasterResampling>(o, "raster-resampling"@, x.raster_resampling)
            &&& opt_field_decodes::<RasterPaintLayerRasterSaturation>(o, "raster-saturation"@, x.raster_saturation)
        })
        ||| (v is Array && {
            let a = v->Array_0;
            &&& seq_opt_decodes::<RasterPaintLayerRasterBrightnessMax>(a, 0, x.raster_brightness_max)
            &&& seq_opt_decodes::<RasterPaintLayerRasterBrightnessMin>(a, 1, x.raster_brightness_min)
            &&& seq_opt_decodes::<RasterPaintLayerRasterContrast>(a, 2, x.raster_contrast)
            &&& seq_opt_decodes::<RasterPaintLayerRasterFadeDuration>(a, 3, x.raster_fade_duration)
            &&& seq_opt_decodes::<RasterPaintLayerRasterHueRotate>(a, 4, x.raster_hue_rotate)
            &&& seq_opt_decodes::<RasterPaintLayerRasterOpacity>(a, 5, x.raster_opacity)
            &&& seq_opt_decodes::<RasterPaintLayerRasterResampling>(a, 6, x.raster_resampling)
            &&& seq_opt_decodes::<RasterPaintLayerRasterSaturation>(a, 7, x.raster_saturation)
        })
    }

    /// For an object, the first entry in order whose value does not read as its field, else the
    /// first required field that is missing.
    open spec fn rejection(v: Json) -> Seq<char> {
        if v is Object {
            let o = v->Object_0;
            match Self::first_fault(o, 0) {
                Some(m) => m,
                None => {
                    Seq::empty()
                },
            }
        } else if v is Array {
            let a = v->Array_0;
            if !seq_opt_accepts::<RasterPaintLayerRasterBrightnessMax>(a, 0, true) {
                seq_opt_rejection::<RasterPaintLayerRasterBrightnessMax>(a, 0, "struct RasterPaintLayer with 8 elements"@)
            } else if !seq_opt_accepts::<RasterPaintLayerRasterBrightnessMin>(a, 1, true) {
                seq_opt_rejection::<RasterPaintLayerRasterBrightnessMin>(a, 1, "struct RasterPaintLayer with 8 elements"@)
            } else if !seq_opt_accepts::<RasterPaintLayerRasterContrast>(a, 2, true) {
                seq_opt_rejection::<RasterPaintLayerRasterContrast>(a, 2, "struct RasterPaintLayer with 8 elements"@)
            } else if !seq_opt_accepts::<RasterPaintLayerRasterFadeDuration>(a, 3, true) {
                seq_opt_rejection::<RasterPaintLayerRasterFadeDuration>(a, 3, "struct RasterPaintLayer with 8 elements"@)
            } else if !seq_opt_accepts::<RasterPaintLayerRasterHueRotate>(a, 4, true) {
                seq_opt_rejection::<RasterPaintLayerRasterHueRotate>(a, 4, "struct RasterPaintLayer with 8 elements"@)
            } else if !seq_opt_accepts::<RasterPaintLayerRasterOpacity>(a, 5, true) {
                seq_opt_rejection::<RasterPaintLayerRasterOpacity>(a, 5, "struct RasterPaintLayer with 8 elements"@)
            } else if !seq_opt_accepts::<RasterPaintLayerRasterResampling>(a, 6, true) {
                seq_opt_rejection::<RasterPaintLayerRasterResampling>(a, 6, "struct RasterPaintLayer with 8 elements"@)
            } else if !seq_opt_accepts::<RasterPaintLayerRasterSaturation>(a, 7, true) {
                seq_opt_rejection::<RasterPaintLayerRasterSaturation>(a, 7, "struct RasterPaintLayer with 8 elements"@)
            } else if a.len() > 8 {
                length_error(a.len())
            } else {
                Seq::empty()
            }
        } else {
            type_error(v, "struct RasterPaintLayer"@)
        }
    }

    fn decode(v: &JsonValue) -> (r: Result<Self, String>) {
        match v {
            JsonValue::Object(fields) => {
                let raster_brightness_max = match decode_opt_field::<RasterPaintLayerRasterBrightnessMax>(fields, "raster-brightness-max") {
                    Ok(x) => x,
                    Err(_) => return Err(Self::object_rejection(fields)),
                };
                let raster_brightness_min = match decode_opt_field::<RasterPaintLayerRasterBrightnessMin>(fields, "raster-brightness-min") {
                    Ok(x) => x,
                    Err(_) => return Err(Self::object_rejection(fields)),
                };
                let raster_contrast = match decode_opt_field::<RasterPaintLayerRasterContrast>(fields, "raster-contrast") {
                    Ok(x) => x,
                    Err(_) => return Err(Self::object_rejection(fields)),
                };
                let raster_fade_duration = match decode_opt_field::<RasterPaintLayerRasterFadeDuration>(fields, "raster-fade-duration") {
                    Ok(x) => x,
                    Err(_) => return Err(Self::object_rejection(fields)),
                };
                let raster_hue_rotate = match decode_opt_field::<RasterPaintLayerRasterHueRotate>(fields, "raster-hue-rotate") {
                    Ok(x) => x,
                    Err(_) => return Err(Self::object_rejection(fields)),
                };
                let raster_opacity = match decode_opt_field::<RasterPaintLayerRasterOpacity>(fields, "raster-opacity") {
                    Ok(x) => x,
                    Err(_) => return Err(Self::object_rejection(fields)),
                };
                let raster_resampling = match decode_opt_field::<RasterPaintLayerRasterResampling>(fields, "raster-resampling") {
                    Ok(x) => x,
                    Err(_) => return Err(Self::object_rejection(fields)),
                };
                let raster_saturation = match decode_opt_field::<RasterPaintLayerRasterSaturation>(fields, "raster-saturation") {
                    Ok(x) => x,
                    Err(_) => return Err(Self::object_rejection(fields)),
                };
                Ok(RasterPaintLayer { raster_brightness_max, raster_brightness_min, raster_contrast, raster_fade_duration, raster_hue_rotate, raster_opacity, raster_resampling, raster_saturation })
            },
            JsonValue::Array(a) => {
                let raster_brightness_max = match decode_seq_opt::<RasterPaintLayerRasterBrightnessMax>(a, 0, true, "struct RasterPaintLayer with 8 elements") {
                    Ok(x) => x,
                    Err(e) => return Err(e),
                };
                let raster_brightness_min = match decode_seq_opt::<RasterPaintLayerRasterBrightnessMin>(a, 1, true, "struct RasterPaintLayer with 8 elements") {
                    Ok(x) => x,
                    Err(e) => return Err(e),
                };
                let raster_contrast = match decode_seq_opt::<RasterPaintLayerRasterContrast>(a, 2, true, "struct RasterPaintLayer with 8 elements") {
                    Ok(x) => x,
                    Err(e) => return Err(e),
                };
                let raster_fade_duration = match decode_seq_opt::<RasterPaintLayerRasterFadeDuration>(a, 3, true, "struct RasterPaintLayer with 8 elements") {
                    Ok(x) => x,
                    Err(e) => return Err(e),
                };
                let raster_hue_rotate = match decode_seq_opt::<RasterPaintLayerRasterHueRotate>(a, 4, true, "struct RasterPaintLayer with 8 elements") {
                    Ok(x) => x,
                    Err(e) => return Err(e),
                };
                let raster_opacity = match decode_seq_opt::<RasterPaintLayerRasterOpacity>(a, 5, true, "struct RasterPaintLayer with 8 elements") {
                    Ok(x) => x,
                    Err(e) => return Err(e),
                };
                let raster_resampling = match decode_seq_opt::<RasterPaintLayerRasterResampling>(a, 6, true, "struct RasterPaintLayer with 8 elements") {
                    Ok(x) => x,
                    Err(e) => return Err(e),
                };
                let raster_saturation = match decode_seq_opt::<RasterPaintLayerRasterSaturation>(a, 7, true, "struct RasterPaintLayer with 8 elements") {
                    Ok(x) => x,
                    Err(e) => return Err(e),
                };
                if a.len() > 8 {
                    return Err(make_length_error(a.len()));
                }
                Ok(RasterPaintLayer { raster_brightness_max, raster_brightness_min, raster_contrast, raster_fade_duration, raster_hue_rotate, raster_opacity, raster_resampling, raster_saturation })
            },
            _ => Err(make_type_error(v, "struct RasterPaintLayer")),
        }
    }
}

impl RasterPaintLayer {
    /// What is wrong with the value `w` of an entry with key `k`, where `k` is the key of a field.
    pub open spec fn field_fault(k: Seq<char>, w: Json) -> Option<Seq<char>> {
        if k == "raster-brightness-max"@ {
            if w is Null || RasterPaintLayerRasterBrightnessMax::accepts(w) {
                None
            } else {
                Some(RasterPaintLayerRasterBrightnessMax::rejection(w))
            }
        } else if k == "raster-brightness-min"@ {
            if w is Null || RasterPaintLayerRasterBrightnessMin::accepts(w) {
                None
            } else {
                Some(RasterPaintLayerRasterBrightnessMin::rejection(w))
            }
        } else if k == "raster-contrast"@ {
            if w is Null || RasterPaintLayerRasterContrast::accepts(w) {
                None
            } else {
                Some(RasterPaintLayerRasterContrast::rejection(w))
            }
        } else if k == "raster-fade-duration"@ {
            if w is Null || RasterPaintLayerRasterFadeDuration::accepts(w) {
                None
            } else {
                Some(RasterPaintLayerRasterFadeDuration::rejection(w))
            }
        } else if k == "raster-hue-rotate"@ {
            if w is Null || RasterPaintLayerRasterHueRotate::accepts(w) {
                None
            } else {
                Some(RasterPaintLayerRasterHueRotate::rejection(w))
            }
        } else if k == "raster-opacity"@ {
            if w is Null || RasterPaintLayerRasterOpacity::accepts(w) {
                None
            } else {
                Some(RasterPaintLayerRasterOpacity::rejection(w))
            }
        } else if k == "raster-resampling"@ {
            if w is Null || RasterPaintLayerRasterResampling::accepts(w) {
                None
            } else {
                Some(RasterPaintLayerRasterResampling::rejection(w))
            }
        } else if k == "raster-saturation"@ {
            if w is Null || RasterPaintLayerRasterSaturation::accepts(w) {
                None
            } else {
                Some(RasterPaintLayerRasterSaturation::rejection(w))
            }
        } else {
            None
        }
    }

    /// The message of the first entry of `o`, from entry `i` on and among the first entries of
    /// their keys, whose value does not read as its field, if any.
    pub open spec fn first_fault(o: Seq<(Seq<char>, Json)>, i: int) -> Option<Seq<char>>
        decreases o.len() - i,
    {
        if i < 0 || i >= o.len() {
            None
        } else if first_with_key(o, i) && Self::field_fault(o[i].0, o[i].1) is Some {
            Self::field_fault(o[i].0, o[i].1)
        } else {
            Self::first_fault(o, i + 1)
        }
    }

    fn find_field_fault(k: &str, w: &JsonValue) -> (r: Option<String>)
        ensures
            match r {
                Some(m) => Self::field_fault(k@, w.model()) == Some(m@),
                None => Self::field_fault(k@, w.model()) is None,
            },
    {
        if str_eq(k, "raster-brightness-max") {
            match w {
                JsonValue::Null => None,
                _ => match RasterPaintLayerRasterBrightnessMax::decode(w) {
                    Ok(_) => None,
                    Err(e) => Some(e),
                },
            }
        } else if str_eq(k, "raster-brightness-min") {
            match w {
                JsonValue::Null => None,
                _ => match RasterPaintLayerRasterBrightnessMin::decode(w) {
                    Ok(_) => None,
                    Err(e) => Some(e),
                },
            }
        } else if str_eq(k, "raster-contrast") {
            match w {
                JsonValue::Null => None,
                _ => match RasterPaintLayerRasterContrast::decode(w) {
                    Ok(_) => None,
                    Err(e) => Some(e),
                },
            }
        } else if str_eq(k, "raster-fade-duration") {
            match w {
                JsonValue::Null => None,
                _ => match RasterPaintLayerRasterFadeDuration::decode(w) {
                    Ok(_) => None,
                    Err(e) => Some(e),
                },
            }
        } else if str_eq(k, "raster-hue-rotate") {
            match w {
                JsonValue::Null => None,
                _ => match RasterPaintLayerRasterHueRotate::decode(w) {
                    Ok(_) => None,
                    Err(e) => Some(e),
                },
            }
        } else if str_eq(k, "raster-opacity") {
            match w {
                JsonValue::Null => None,
                _ => match RasterPaintLayerRasterOpacity::decode(w) {
                    Ok(_) => None,
                    Err(e) => Some(e),
                },
            }
        } else if str_eq(k, "raster-resampling") {
            match w {
                JsonValue::Null => None,
                _ => match RasterPaintLayerRasterResampling::decode(w) {
                    Ok(_) => None,
                    Err(e) => Some(e),
                },
            }
        } else if str_eq(k, "raster-saturation") {
            match w {
                JsonValue::Null => None,
                _ => match RasterPaintLayerRasterSaturation::decode(w) {
                    Ok(_) => None,
                    Err(e) => Some(e),
                },
            }
        } else {
            None
        }
    }

    fn object_rejection(fields: &Vec<(String, JsonValue)>) -> (r: String)
        ensures
            r@ == Self::rejection(JsonValue::Object(*fields).model()),
    {
        let ghost o = entries_model(*fields);
        let mut i: usize = 0;
        while i < fields.len()
            invariant
                o == entries_model(*fields),
                o.len() == fields.len(),
                i <= fields.len(),
                Self::first_fault(o, 0) == Self::first_fault(o, i as int),
            decreases fields.len() - i,
        {
            proof {
                assert(o[i as int] == (fields@[i as int].0@, fields@[i as int].1.model()));
            }
            if !key_seen_before(fields, i) {
                match Self::find_field_fault(fields[i].0.as_str(), &fields[i].1) {
                    Some(m) => {
                        return m;
                    },
                    None => {},
                }
            }
            i += 1;
        }
        String::new()
    }
}

impl RasterPaintLayer {
    /// The keys of the fields, in order.
    pub open spec fn field_keys() -> Seq<Seq<char>> {
        seq!["raster-brightness-max"@, "raster-brightness-min"@, "raster-contrast"@, "raster-fade-duration"@, "raster-hue-rotate"@, "raster-opacity"@, "raster-resampling"@, "raster-saturation"@]
    }

    /// The entries that each field is written as, in order.
    pub open spec fn field_entries(self) -> Seq<Seq<(Seq<char>, Json)>> {
        seq![opt_entry::<RasterPaintLayerRasterBrightnessMax>("raster-brightness-max"@, self.raster_brightness_max), opt_entry::<RasterPaintLayerRasterBrightnessMin>("raster-brightness-min"@, self.raster_brightness_min), opt_entry::<RasterPaintLayerRasterContrast>("raster-contrast"@, self.raster_contrast), opt_entry::<RasterPaintLayerRasterFadeDuration>("raster-fade-duration"@, self.raster_fade_duration), opt_entry::<RasterPaintLayerRasterHueRotate>("raster-hue-rotate"@, self.raster_hue_rotate), opt_entry::<RasterPaintLayerRasterOpacity>("raster-opacity"@, self.raster_opacity), opt_entry::<RasterPaintLayerRasterResampling>("raster-resampling"@, self.raster_resampling), opt_entry::<RasterPaintLayerRasterSaturation>("raster-saturation"@, self.raster_saturation)]
    }

    proof fn lemma_keys_differ(i: int)
        requires
            0 <= i < 8,
        ensures
            others_differ(Self::field_keys(), i),
    {
        reveal_strlit("raster-brightness-max");
        assert("raster-brightness-max"@.len() == 21);
        reveal_strlit("raster-brightness-min");
        assert("raster-brightness-min"@.len() == 21);
        reveal_strlit("raster-contrast");
        assert("raster-contrast"@.len() == 15);
        reveal_strlit("raster-fade-duration");
        assert("raster-fade-duration"@.len() == 20);
        reveal_strlit("raster-hue-rotate");
        assert("raster-hue-rotate"@.len() == 17);
        reveal_strlit("raster-opacity");
        assert("raster-opacity"@.len() == 14);
        reveal_strlit("raster-resampling");
        assert("raster-resampling"@.len() == 17);
        reveal_strlit("raster-saturation");
        assert("raster-saturation"@.len() == 17);
        assert("raster-brightness-max"@[19] != "raster-brightness-min"@[19]);
        assert("raster-hue-rotate"@[7] != "raster-resampling"@[7]);
        assert("raster-hue-rotate"@[7] != "raster-saturation"@[7]);
        assert("raster-resampling"@[7] != "raster-saturation"@[7]);
    }
}

impl JsonEncode for RasterPaintLayer {
    open spec fn to_json(self) -> Json {
        Json::Object(self.field_entries().flatten())
    }

    open spec fn round_trips(self) -> bool {
        &&& (self.raster_brightness_max matches Some(t) ==> t.round_trips() && !(t.to_json() is Null))
        &&& (self.raster_brightness_min matches Some(t) ==> t.round_trips() && !(t.to_json() is Null))
        &&& (self.raster_contrast matches Some(t) ==> t.round_trips() && !(t.to_json() is Null))
        &&& (self.raster_fade_duration matches Some(t) ==> t.round_trips() && !(t.to_json() is Null))
        &&& (self.raster_hue_rotate matches Some(t) ==> t.round_trips() && !(t.to_json() is Null))
        &&& (self.raster_opacity matches Some(t) ==> t.round_trips() && !(t.to_json() is Null))
        &&& (self.raster_resampling matches Some(t) ==> t.round_trips() && !(t.to_json() is Null))
        &&& (self.raster_saturation matches Some(t) ==> t.round_trips() && !(t.to_json() is Null))
    }

    #[verifier::rlimit(30)]
    fn encode(&self) -> (r: JsonValue) {
        let mut out: Vec<(String, JsonValue)> = Vec::new();
        let ghost s0 = Seq::<Seq<(Seq<char>, Json)>>::empty();
        proof {
            assert(entries_model(out) =~= s0.flatten());
        }
        push_opt_entry::<RasterPaintLayerRasterBrightnessMax>(&mut out, "raster-brightness-max", &self.raster_brightness_max);
        let ghost s1 = s0.push(opt_entry::<RasterPaintLayerRasterBrightnessMax>("raster-brightness-max"@, self.raster_brightness_max));
        proof {
            s0.lemma_flatten_push(opt_entry::<RasterPaintLayerRasterBrightnessMax>("raster-brightness-max"@, self.raster_brightness_max));
            assert(entries_model(out) =~= s1.flatten());
        }
        push_opt_entry::<RasterPaintLayerRasterBrightnessMin>(&mut out, "raster-brightness-min", &self.raster_brightness_min);
        let ghost s2 = s1.push(opt_entry::<RasterPaintLayerRasterBrightnessMin>("raster-brightness-min"@, self.raster_brightness_min));
        proof {
            s1.lemma_flatten_push(opt_entry::<RasterPaintLayerRasterBrightnessMin>("raster-brightness-min"@, self.raster_brightness_min));
            assert(entries_model(out) =~= s2.flatten());
        }
        push_opt_entry::<RasterPaintLayerRasterContrast>(&mut out, "raster-contrast", &self.raster_contrast);
        let ghost s3 = s2.push(opt_entry::<RasterPaintLayerRasterContrast>("raster-contrast"@, self.raster_contrast));
        proof {
            s2.lemma_flatten_push(opt_entry::<RasterPaintLayerRasterContrast>("raster-contrast"@, self.raster_contrast));
            assert(entries_model(out) =~= s3.flatten());
        }
        push_opt_entry::<RasterPaintLayerRasterFadeDuration>(&mut out, "raster-fade-duration", &self.raster_fade_duration);
        let ghost s4 = s3.push(opt_entry::<RasterPaintLayerRasterFadeDuration>("raster-fade-duration"@, self.raster_fade_duration));
        proof {
            s3.lemma_flatten_push(opt_entry::<RasterPaintLayerRasterFadeDuration>("raster-fade-duration"@, self.raster_fade_duration));
            assert(entries_model(out) =~= s4.flatten());
        }
        push_opt_entry::<RasterPaintLayerRasterHueRotate>(&mut out, "raster-hue-rotate", &self.raster_hue_rotate);
        let ghost s5 = s4.push(opt_entry::<RasterPaintLayerRasterHueRotate>("raster-hue-rotate"@, self.raster_hue_rotate));
        proof {
            s4.lemma_flatten_push(opt_entry::<RasterPaintLayerRasterHueRotate>("raster-hue-rotate"@, self.raster_hue_rotate));
            assert(entries_model(out) =~= s5.flatten());
        }
        push_opt_entry::<RasterPaintLayerRasterOpacity>(&mut out, "raster-opacity", &self.raster_opacity);
        let ghost s6 = s5.push(opt_entry::<RasterPaintLayerRasterOpacity>("raster-opacity"@, self.raster_opacity));
        proof {
            s5.lemma_flatten_push(opt_entry::<RasterPaintLayerRasterOpacity>("raster-opacity"@, self.raster_opacity));
            assert(entries_model(out) =~= s6.flatten());
        }
        push_opt_entry::<RasterPaintLayerRasterResampling>(&mut out, "raster-resampling", &self.raster_resampling);
        let ghost s7 = s6.push(opt_entry::<RasterPaintLayerRasterResampling>("raster-resampling"@, self.raster_resampling));
        proof {
            s6.lemma_flatten_push(opt_entry::<RasterPaintLayerRasterResampling>("raster-resampling"@, self.raster_resampling));
            assert(entries_model(out) =~= s7.flatten());
        }
        push_opt_entry::<RasterPaintLayerRasterSaturation>(&mut out, "raster-saturation", &self.raster_saturation);
        let ghost s8 = s7.push(opt_entry::<RasterPaintLayerRasterSaturation>("raster-saturation"@, self.raster_saturation));
        proof {
            s7.lemma_flatten_push(opt_entry::<RasterPaintLayerRasterSaturation>("raster-saturation"@, self.raster_saturation));
            assert(entries_model(out) =~= s8.flatten());
        }
        proof {
            assert(self.field_entries() == s8);
        }
        JsonValue::Object(out)
    }

    #[verifier::rlimit(30)]
    proof fn lemma_round_trip(self) {
        let keys = Self::field_keys();
        let es = self.field_entries();
        assert(keyed_by(es, keys));
        Self::lemma_keys_differ(0);
        lemma_lookup_flatten(es, keys, 0);
        lemma_lookup_opt_entry::<RasterPaintLayerRasterBrightnessMax>("raster-brightness-max"@, self.raster_brightness_max, "raster-brightness-max"@);
        if self.raster_brightness_max is Some {
            self.raster_brightness_max->0.lemma_round_trip();
        }
        Self::lemma_keys_differ(1);
        lemma_lookup_flatten(es, keys, 1);
        lemma_lookup_opt_entry::<RasterPaintLayerRasterBrightnessMin>("raster-brightness-min"@, self.raster_brightness_min, "raster-brightness-min"@);
        if self.raster_brightness_min is Some {
            self.raster_brightness_min->0.lemma_round_trip();
        }
        Self::lemma_keys_differ(2);
        lemma_lookup_flatten(es, keys, 2);
        lemma_lookup_opt_entry::<RasterPaintLayerRasterContrast>("raster-contrast"@, self.raster_contrast, "raster-contrast"@);
        if self.raster_contrast is Some {
            self.raster_contrast->0.lemma_round_trip();
        }
        Self::lemma_keys_differ(3);
        lemma_lookup_flatten(es, keys, 3);
        lemma_lookup_opt_entry::<RasterPaintLayerRasterFadeDuration>("raster-fade-duration"@, self.raster_fade_duration, "raster-fade-duration"@);
        if self.raster_fade_duration is Some {
            self.raster_fade_duration->0.lemma_round_trip();
        }
        Self::lemma_keys_differ(4);
        lemma_lookup_flatten(es, keys, 4);
        lemma_lookup_opt_entry::<RasterPaintLayerRasterHueRotate>("raster-hue-rotate"@, self.raster_hue_rotate, "raster-hue-rotate"@);
        if self.raster_hue_rotate is Some {
            self.raster_hue_rotate->0.lemma_round_trip();
        }
        Self::lemma_keys_differ(5);
        lemma_lookup_flatten(es, keys, 5);
        lemma_lookup_opt_entry::<RasterPaintLayerRasterOpacity>("raster-opacity"@, self.raster_opacity, "raster-opacity"@);
        if self.raster_opacity is Some {
            self.raster_opacity->0.lemma_round_trip();
        }
        Self::lemma_keys_differ(6);
        lemma_lookup_flatten(es, keys, 6);
        lemma_lookup_opt_entry::<RasterPaintLayerRasterResampling>("raster-resampling"@, self.raster_resampling, "raster-resampling"@);
        if self.raster_resampling is Some {
            self.raster_resampling->0.lemma_round_trip();
        }
        Self::lemma_keys_differ(7);
        lemma_lookup_flatten(es, keys, 7);
        lemma_lookup_opt_entry::<RasterPaintLayerRasterSaturation>("raster-saturation"@, self.raster_saturation, "raster-saturation"@);
        if self.raster_saturation is Some {
            self.raster_saturation->0.lemma_round_trip();
        }
    }
}

/// Nested expression: ramp (`interpolate` / …) or regular [`Number`] operators.
#[derive(PartialEq, Debug, Clone)]
pub enum RasterPaintLayerRasterBrightnessMaxExpression {
    Number(Number),
    Ramp(NumberOrArrayOfNumberOrColorOrArrayOfColorOrProjection),
}

impl JsonDecode for RasterPaintLayerRasterBrightnessMaxExpression {
    open spec fn accepts(v: Json) -> bool {
        Number::accepts(v) || NumberOrArrayOfNumberOrColorOrArrayOfColorOrProjection::accepts(v)
    }

    open spec fn decodes(v: Json, x: Self) -> bool {
        match x {
            RasterPaintLayerRasterBrightnessMaxExpression::Number(t) => Number::accepts(v) && Number::decodes(v, t),
            RasterPaintLayerRasterBrightnessMaxExpression::Ramp(t) => !Number::accepts(v) && NumberOrArrayOfNumberOrColorOrArrayOfColorOrProjection::accepts(v) && NumberOrArrayOfNumberOrColorOrArrayOfColorOrProjection::decodes(v, t),
        }
    }

    open spec fn rejection(v: Json) -> Seq<char> {
        "RasterPaintLayerRasterBrightnessMaxExpression: no variant matched. Expected Number(Number) | Ramp(NumberOrArrayOfNumberOrColorOrArrayOfColorOrProjection). Errors: ["@ + "Number: "@ + Number::rejection(v) + "; Ramp: "@ + NumberOrArrayOfNumberOrColorOrArrayOfColorOrProjection::rejection(v) + "]"@
    }

    fn decode(v: &JsonValue) -> (r: Result<Self, String>) {
        let e0 = match Number::decode(v) {
            Ok(x) => {
                return Ok(RasterPaintLayerRasterBrightnessMaxExpression::Number(x));
            },
            Err(e) => e,
        };
        let e1 = match NumberOrArrayOfNumberOrColorOrArrayOfColorOrProjection::decode(v) {
            Ok(x) => {
                return Ok(RasterPaintLayerRasterBrightnessMaxExpression::Ramp(x));
            },
            Err(e) => e,
        };
        let mut m = "RasterPaintLayerRasterBrightnessMaxExpression: no variant matched. Expected Number(Number) | Ramp(NumberOrArrayOfNumberOrColorOrArrayOfColorOrProjection). Errors: [".to_string();
        m.append("Number: ");
        m.append(e0.as_str());
        m.append("; Ramp: ");
        m.append(e1.as_str());
        m.append("]");
        Err(m)
    }
}

impl JsonEncode for RasterPaintLayerRasterBrightnessMaxExpression {
    open spec fn to_json(self) -> Json {
        match self {
            RasterPaintLayerRasterBrightnessMaxExpression::Number(t) => Number::to_json(t),
            RasterPaintLayerRasterBrightnessMaxExpression::Ramp(t) => NumberOrArrayOfNumberOrColorOrArrayOfColorOrProjection::to_json(t),
        }
    }

    open spec fn round_trips(self) -> bool {
        match self {
            RasterPaintLayerRasterBrightnessMaxExpression::Number(t) => Number::round_trips(t),
            RasterPaintLayerRasterBrightnessMaxExpression::Ramp(t) => NumberOrArrayOfNumberOrColorOrArrayOfColorOrProjection::round_trips(t) && !Number::accepts(NumberOrArrayOfNumberOrColorOrArrayOfColorOrProjection::to_json(t)),
        }
    }

    fn encode(&self) -> (r: JsonValue) {
        match self {
            RasterPaintLayerRasterBrightnessMaxExpression::Number(t) => Number::encode(t),
            RasterPaintLayerRasterBrightnessMaxExpression::Ramp(t) => NumberOrArrayOfNumberOrColorOrArrayOfColorOrProjection::encode(t),
        }
    }

    proof fn lemma_round_trip(self) {
        match self {
            RasterPaintLayerRasterBrightnessMaxExpression::Number(t) => Number::lemma_round_trip(t),
            RasterPaintLayerRasterBrightnessMaxExpression::Ramp(t) => NumberOrArrayOfNumberOrColorOrArrayOfColorOrProjection::lemma_round_trip(t),
        }
    }
}

/// Increase or reduce the brightness of the image. The value is the maximum brightness.
#[derive(PartialEq, Debug, Clone)]
pub enum RasterPaintLayerRasterBrightnessMax {
    Expr(Box<RasterPaintLayerRasterBrightnessMaxExpression>),
    Literal(JsonNumber),
}

impl JsonDecode for RasterPaintLayerRasterBrightnessMax {
    open spec fn accepts(v: Json) -> bool {
        RasterPaintLayerRasterBrightnessMaxExpression::accepts(v) || JsonNumber::accepts(v)
    }

    open spec fn decodes(v: Json, x: Self) -> bool {
        match x {
            RasterPaintLayerRasterBrightnessMax::Expr(t) => RasterPaintLayerRasterBrightnessMaxExpression::accepts(v) && RasterPaintLayerRasterBrightnessMaxExpression::decodes(v, *t),
            RasterPaintLayerRasterBrightnessMax::Literal(t) => !RasterPaintLayerRasterBrightnessMaxExpression::accepts(v) && JsonNumber::accepts(v) && JsonNumber::decodes(v, t),
        }
    }

    open spec fn rejection(v: Json) -> Seq<char> {
        "RasterPaintLayerRasterBrightnessMax: no variant matched. Expected Expr(RasterPaintLayerRasterBrightnessMaxExpression) | Literal(serde_json::Number). Errors: ["@ + "Expr: "@ + RasterPaintLayerRasterBrightnessMaxExpression::rejection(v) + "; Literal: "@ + JsonNumber::rejection(v) + "]"@
    }

    fn decode(v: &JsonValue) -> (r: Result<Self, String>) {
        let e0 = match RasterPaintLayerRasterBrightnessMaxExpression::decode(v) {
            Ok(x) => {
                return Ok(RasterPaintLayerRasterBrightnessMax::Expr(Box::new(x)));
            },
            Err(e) => e,
        };
        let e1 = match JsonNumber::decode(v) {
            Ok(x) => {
                return Ok(RasterPaintLayerRasterBrightnessMax::Literal(x));
            },
            Err(e) => e,
        };
        let mut m = "RasterPaintLayerRasterBrightnessMax: no variant matched. Expected Expr(RasterPaintLayerRasterBrightnessMaxExpression) | Literal(serde_json::Number). Errors: [".to_string();
        m.append("Expr: ");
        m.append(e0.as_str());
        m.append("; Literal: ");
        m.append(e1.as_str());
        m.append("]");
        Err(m)
    }
}

impl JsonEncode for RasterPaintLayerRasterBrightnessMax {
    open spec fn to_json(self) -> Json {
        match self {
            RasterPaintLayerRasterBrightnessMax::Expr(t) => RasterPaintLayerRasterBrightnessMaxExpression::to_json(*t),
            RasterPaintLayerRasterBrightnessMax::Literal(t) => JsonNumber::to_json(t),
        }
    }

    open spec fn round_trips(self) -> bool {
        match self {
            RasterPaintLayerRasterBrightnessMax::Expr(t) => RasterPaintLayerRasterBrightnessMaxExpression::round_trips(*t),
            RasterPaintLayerRasterBrightnessMax::Literal(t) => JsonNumber::round_trips(t) && !RasterPaintLayerRasterBrightnessMaxExpression::accepts(JsonNumber::to_json(t)),
        }
    }

    fn encode(&self) -> (r: JsonValue) {
        match self {
            RasterPaintLayerRasterBrightnessMax::Expr(t) => RasterPaintLayerRasterBrightnessMaxExpression::encode(&**t),
            RasterPaintLayerRasterBrightnessMax::Literal(t) => JsonNumber::encode(t),
        }
    }

    proof fn lemma_round_trip(self) {
        match self {
            RasterPaintLayerRasterBrightnessMax::Expr(t) => RasterPaintLayerRasterBrightnessMaxExpression::lemma_round_trip(*t),
            RasterPaintLayerRasterBrightnessMax::Literal(t) => JsonNumber::lemma_round_trip(t),
        }
    }
}

impl Default for RasterPaintLayerRasterBrightnessMax {
    fn default() -> (r: Self)
        ensures
            r.to_json() == Json::Number("1"@),
            r is Literal,
    {
        let r = RasterPaintLayerRasterBrightnessMax::Literal(JsonNumber::from_literal("1"));
        r
    }
}

/// Nested expression: ramp (`interpolate` / …) or regular [`Number`] operators.
#[derive(PartialEq, Debug, Clone)]
pub enum RasterPaintLayerRasterBrightnessMinExpression {
    Number(Number),
    Ramp(NumberOrArrayOfNumberOrColorOrArrayOfColorOrProjection),
}

impl JsonDecode for RasterPaintLayerRasterBrightnessMinExpression {
    open spec fn accepts(v: Json) -> bool {
        Number::accepts(v) || NumberOrArrayOfNumberOrColorOrArrayOfColorOrProjection::accepts(v)
    }

    open spec fn decodes(v: Json, x: Self) -> bool {
        match x {
            RasterPaintLayerRasterBrightnessMinExpression::Number(t) => Number::accepts(v) && Number::decodes(v, t),
            RasterPaintLayerRasterBrightnessMinExpression::Ramp(t) => !Number::accepts(v) && NumberOrArrayOfNumberOrColorOrArrayOfColorOrProjection::accepts(v) && NumberOrArrayOfNumberOrColorOrArrayOfColorOrProjection::decodes(v, t),
        }
    }

    open spec fn rejection(v: Json) -> Seq<char> {
        "RasterPaintLayerRasterBrightnessMinExpression: no variant matched. Expected Number(Number) | Ramp(NumberOrArrayOfNumberOrColorOrArrayOfColorOrProjection). Errors: ["@ + "Number: "@ + Number::rejection(v) + "; Ramp: "@ + NumberOrArrayOfNumberOrColorOrArrayOfColorOrProjection::rejection(v) + "]"@
    }

    fn decode(v: &JsonValue) -> (r: Result<Self, String>) {
        let e0 = match Number::decode(v) {
            Ok(x) => {
                return Ok(RasterPaintLayerRasterBrightnessMinExpression::Number(x));
            },
            Err(e) => e,
        };
        let e1 = match NumberOrArrayOfNumberOrColorOrArrayOfColorOrProjection::decode(v) {
            Ok(x) => {
                return Ok(RasterPaintLayerRasterBrightnessMinExpression::Ramp(x));
            },
            Err(e) => e,
        };
        let mut m = "RasterPaintLayerRasterBrightnessMinExpression: no variant matched. Expected Number(Number) | Ramp(NumberOrArrayOfNumberOrColorOrArrayOfColorOrProjection). Errors: [".to_string();
        m.append("Number: ");
        m.append(e0.as_str());
        m.append("; Ramp: ");
        m.append(e1.as_str());
        m.append("]");
        Err(m)
    }
}

impl JsonEncode for RasterPaintLayerRasterBrightnessMinExpression {
    open spec fn to_json(self) -> Json {
        match self {
            RasterPaintLayerRasterBrightnessMinExpression::Number(t) => Number::to_json(t),
            RasterPaintLayerRasterBrightnessMinExpression::Ramp(t) => NumberOrArrayOfNumberOrColorOrArrayOfColorOrProjection::to_json(t),
        }
    }

    open spec fn round_trips(self) -> bool {
        match self {
            RasterPaintLayerRasterBrightnessMinExpression::Number(t) => Number::round_trips(t),
            RasterPaintLayerRasterBrightnessMinExpression::Ramp(t) => NumberOrArrayOfNumberOrColorOrArrayOfColorOrProjection::round_trips(t) && !Number::accepts(NumberOrArrayOfNumberOrColorOrArrayOfColorOrProjection::to_json(t)),
        }
    }

    fn encode(&self) -> (r: JsonValue) {
        match self {
            RasterPaintLayerRasterBrightnessMinExpression::Number(t) => Number::encode(t),
            RasterPaintLayerRasterBrightnessMinExpression::Ramp(t) => NumberOrArrayOfNumberOrColorOrArrayOfColorOrProjection::encode(t),
        }
    }

    proof fn lemma_round_trip(self) {
        match self {
            RasterPaintLayerRasterBrightnessMinExpression::Number(t) => Number::lemma_round_trip(t),
            RasterPaintLayerRasterBrightnessMinExpression::Ramp(t) => NumberOrArrayOfNumberOrColorOrArrayOfColorOrProjection::lemma_round_trip(t),
        }
    }
}

/// Increase or reduce the brightness of the image. The value is the minimum brightness.
#[derive(PartialEq, Debug, Clone)]
pub enum RasterPaintLayerRasterBrightnessMin {
    Expr(Box<RasterPaintLayerRasterBrightnessMinExpression>),
    Literal(JsonNumber),
}

impl JsonDecode for RasterPaintLayerRasterBrightnessMin {
    open spec fn accepts(v: Json) -> bool {
        RasterPaintLayerRasterBrightnessMinExpression::accepts(v) || JsonNumber::accepts(v)
    }

    open spec fn decodes(v: Json, x: Self) -> bool {
        match x {
            RasterPaintLayerRasterBrightnessMin::Expr(t) => RasterPaintLayerRasterBrightnessMinExpression::accepts(v) && RasterPaintLayerRasterBrightnessMinExpression::decodes(v, *t),
            RasterPaintLayerRasterBrightnessMin::Literal(t) => !RasterPaintLayerRasterBrightnessMinExpression::accepts(v) && JsonNumber::accepts(v) && JsonNumber::decodes(v, t),
        }
    }

    open spec fn rejection(v: Json) -> Seq<char> {
        "RasterPaintLayerRasterBrightnessMin: no variant matched. Expected Expr(RasterPaintLayerRasterBrightnessMinExpression) | Literal(serde_json::Number). Errors: ["@ + "Expr: "@ + RasterPaintLayerRasterBrightnessMinExpression::rejection(v) + "; Literal: "@ + JsonNumber::rejection(v) + "]"@
    }

    fn decode(v: &JsonValue) -> (r: Result<Self, String>) {
        let e0 = match RasterPaintLayerRasterBrightnessMinExpression::decode(v) {
            Ok(x) => {
                return Ok(RasterPaintLayerRasterBrightnessMin::Expr(Box::new(x)));
            },
            Err(e) => e,
        };
        let e1 = match JsonNumber::decode(v) {
            Ok(x) => {
                return Ok(RasterPaintLayerRasterBrightnessMin::Literal(x));
            },
            Err(e) => e,
        };
        let mut m = "RasterPaintLayerRasterBrightnessMin: no variant matched. Expected Expr(RasterPaintLayerRasterBrightnessMinExpression) | Literal(serde_json::Number). Errors: [".to_string();
        m.append("Expr: ");
        m.append(e0.as_str());
        m.append("; Literal: ");
        m.append(e1.as_str());
        m.append("]");
        Err(m)
    }
}

impl JsonEncode for RasterPaintLayerRasterBrightnessMin {
    open spec fn to_json(self) -> Json {
        match self {
            RasterPaintLayerRasterBrightnessMin::Expr(t) => RasterPaintLayerRasterBrightnessMinExpression::to_json(*t),
            RasterPaintLayerRasterBrightnessMin::Literal(t) => JsonNumber::to_json(t),
        }
    }

    open spec fn round_trips(self) -> bool {
        match self {
            RasterPaintLayerRasterBrightnessMin::Expr(t) => RasterPaintLayerRasterBrightnessMinExpression::round_trips(*t),
            RasterPaintLayerRasterBrightnessMin::Literal(t) => JsonNumber::round_trips(t) && !RasterPaintLayerRasterBrightnessMinExpression::accepts(JsonNumber::to_json(t)),
        }
    }

    fn encode(&self) -> (r: JsonValue) {
        match self {
            RasterPaintLayerRasterBrightnessMin::Expr(t) => RasterPaintLayerRasterBrightnessMinExpression::encode(&**t),
            RasterPaintLayerRasterBrightnessMin::Literal(t) => JsonNumber::encode(t),
        }
    }

    proof fn lemma_round_trip(self) {
        match self {
            RasterPaintLayerRasterBrightnessMin::Expr(t) => RasterPaintLayerRasterBrightnessMinExpression::lemma_round_trip(*t),
            RasterPaintLayerRasterBrightnessMin::Literal(t) => JsonNumber::lemma_round_trip(t),
        }
    }
}

impl Default for RasterPaintLayerRasterBrightnessMin {
    fn default() -> (r: Self)
        ensures
            r.to_json() == Json::Number("0"@),
            r is Literal,
    {
        let r = RasterPaintLayerRasterBrightnessMin::Literal(JsonNumber::from_literal("0"));
        r
    }
}

/// Nested expression: ramp (`interpolate` / …) or regular [`Number`] operators.
#[derive(PartialEq, Debug, Clone)]
pub enum RasterPaintLayerRasterContrastExpression {
    Number(Number),
    Ramp(NumberOrArrayOfNumberOrColorOrArrayOfColorOrProjection),
}

impl JsonDecode for RasterPaintLayerRasterContrastExpression {
    open spec fn accepts(v: Json) -> bool {
        Number::accepts(v) || NumberOrArrayOfNumberOrColorOrArrayOfColorOrProjection::accepts(v)
    }

    open spec fn decodes(v: Json, x: Self) -> bool {
        match x {
            RasterPaintLayerRasterContrastExpression::Number(t) => Number::accepts(v) && Number::decodes(v, t),
            RasterPaintLayerRasterContrastExpression::Ramp(t) => !Number::accepts(v) && NumberOrArrayOfNumberOrColorOrArrayOfColorOrProjection::accepts(v) && NumberOrArrayOfNumberOrColorOrArrayOfColorOrProjection::decodes(v, t),
        }
    }

    open spec fn rejection(v: Json) -> Seq<char> {
        "RasterPaintLayerRasterContrastExpression: no variant matched. Expected Number(Number) | Ramp(NumberOrArrayOfNumberOrColorOrArrayOfColorOrProjection). Errors: ["@ + "Number: "@ + Number::rejection(v) + "; Ramp: "@ + NumberOrArrayOfNumberOrColorOrArrayOfColorOrProjection::rejection(v) + "]"@
    }

    fn decode(v: &JsonValue) -> (r: Result<Self, String>) {
        let e0 = match Number::decode(v) {
            Ok(x) => {
                return Ok(RasterPaintLayerRasterContrastExpression::Number(x));
            },
            Err(e) => e,
        };
        let e1 = match NumberOrArrayOfNumberOrColorOrArrayOfColorOrProjection::decode(v) {
            Ok(x) => {
                return Ok(RasterPaintLayerRasterContrastExpression::Ramp(x));
            },
            Err(e) => e,
        };
        let mut m = "RasterPaintLayerRasterContrastExpression: no variant matched. Expected Number(Number) | Ramp(NumberOrArrayOfNumberOrColorOrArrayOfColorOrProjection). Errors: [".to_string();
        m.append("Number: ");
        m.append(e0.as_str());
        m.append("; Ramp: ");
        m.append(e1.as_str());
        m.append("]");
        Err(m)
    }
}

impl JsonEncode for RasterPaintLayerRasterContrastExpression {
    open spec fn to_json(self) -> Json {
        match self {
            RasterPaintLayerRasterContrastExpression::Number(t) => Number::to_json(t),
            RasterPaintLayerRasterContrastExpression::Ramp(t) => NumberOrArrayOfNumberOrColorOrArrayOfColorOrProjection::to_json(t),
        }
    }

    open spec fn round_trips(self) -> bool {
        match self {
            RasterPaintLayerRasterContrastExpression::Number(t) => Number::round_trips(t),
            RasterPaintLayerRasterContrastExpression::Ramp(t) => NumberOrArrayOfNumberOrColorOrArrayOfColorOrProjection::round_trips(t) && !Number::accepts(NumberOrArrayOfNumberOrColorOrArrayOfColorOrProjection::to_json(t)),
        }
    }

    fn encode(&self) -> (r: JsonValue) {
        match self {
            RasterPaintLayerRasterContrastExpression::Number(t) => Number::encode(t),
            RasterPaintLayerRasterContrastExpression::Ramp(t) => NumberOrArrayOfNumberOrColorOrArrayOfColorOrProjection::encode(t),
        }
    }

    proof fn lemma_round_trip(self) {
        match self {
            RasterPaintLayerRasterContrastExpression::Number(t) => Number::lemma_round_trip(t),
            RasterPaintLayerRasterContrastExpression::Ramp(t) => NumberOrArrayOfNumberOrColorOrArrayOfColorOrProjection::lemma_round_trip(t),
        }
    }
}

/// Increase or reduce the contrast of the image.
#[derive(PartialEq, Debug, Clone)]
pub enum RasterPaintLayerRasterContrast {
    Expr(Box<RasterPaintLayerRasterContrastExpression>),
    Literal(JsonNumber),
}

impl JsonDecode for RasterPaintLayerRasterContrast {
    open spec fn accepts(v: Json) -> bool {
        RasterPaintLayerRasterContrastExpression::accepts(v) || JsonNumber::accepts(v)
    }

    open spec fn decodes(v: Json, x: Self) -> bool {
        match x {
            RasterPaintLayerRasterContrast::Expr(t) => RasterPaintLayerRasterContrastExpression::accepts(v) && RasterPaintLayerRasterContrastExpression::decodes(v, *t),
            RasterPaintLayerRasterContrast::Literal(t) => !RasterPaintLayerRasterContrastExpression::accepts(v) && JsonNumber::accepts(v) && JsonNumber::decodes(v, t),
        }
    }

    open spec fn rejection(v: Json) -> Seq<char> {
        "RasterPaintLayerRasterContrast: no variant matched. Expected Expr(RasterPaintLayerRasterContrastExpression) | Literal(serde_json::Number). Errors: ["@ + "Expr: "@ + RasterPaintLayerRasterContrastExpression::rejection(v) + "; Literal: "@ + JsonNumber::rejection(v) + "]"@
    }

    fn decode(v: &JsonValue) -> (r: Result<Self, String>) {
        let e0 = match RasterPaintLayerRasterContrastExpression::decode(v) {
            Ok(x) => {
                return Ok(RasterPaintLayerRasterContrast::Expr(Box::new(x)));
            },
            Err(e) => e,
        };
        let e1 = match JsonNumber::decode(v) {
            Ok(x) => {
                return Ok(RasterPaintLayerRasterContrast::Literal(x));
            },
            Err(e) => e,
        };
        let mut m = "RasterPaintLayerRasterContrast: no variant matched. Expected Expr(RasterPaintLayerRasterContrastExpression) | Literal(serde_json::Number). Errors: [".to_string();
        m.append("Expr: ");
        m.append(e0.as_str());
        m.append("; Literal: ");
        m.append(e1.as_str());
        m.append("]");
        Err(m)
    }
}

impl JsonEncode for RasterPaintLayerRasterContrast {
    open spec fn to_json(self) -> Json {
        match self {
            RasterPaintLayerRasterContrast::Expr(t) => RasterPaintLayerRasterContrastExpression::to_json(*t),
            RasterPaintLayerRasterContrast::Literal(t) => JsonNumber::to_json(t),
        }
    }

    open spec fn round_trips(self) -> bool {
        match self {
            RasterPaintLayerRasterContrast::Expr(t) => RasterPaintLayerRasterContrastExpression::round_trips(*t),
            RasterPaintLayerRasterContrast::Literal(t) => JsonNumber::round_trips(t) && !RasterPaintLayerRasterContrastExpression::accepts(JsonNumber::to_json(t)),
        }
    }

    fn encode(&self) -> (r: JsonValue) {
        match self {
            RasterPaintLayerRasterContrast::Expr(t) => RasterPaintLayerRasterContrastExpression::encode(&**t),
            RasterPaintLayerRasterContrast::Literal(t) => JsonNumber::encode(t),
        }
    }

    proof fn lemma_round_trip(self) {
        match self {
            RasterPaintLayerRasterContrast::Expr(t) => RasterPaintLayerRasterContrastExpression::lemma_round_trip(*t),
            RasterPaintLayerRasterContrast::Literal(t) => JsonNumber::lemma_round_trip(t),
        }
    }
}

impl Default for RasterPaintLayerRasterContrast {
    fn default() -> (r: Self)
        ensures
            r.to_json() == Json::Number("0"@),
            r is Literal,
    {
        let r = RasterPaintLayerRasterContrast::Literal(JsonNumber::from_literal("0"));
        r
    }
}

/// Nested expression: ramp (`interpolate` / …) or regular [`Number`] operators.
#[derive(PartialEq, Debug, Clone)]
pub enum RasterPaintLayerRasterFadeDurationExpression {
    Number(Number),
    Ramp(NumberOrArrayOfNumberOrColorOrArrayOfColorOrProjection),
}

impl JsonDecode for RasterPaintLayerRasterFadeDurationExpression {
    open spec fn accepts(v: Json) -> bool {
        Number::accepts(v) || NumberOrArrayOfNumberOrColorOrArrayOfColorOrProjection::accepts(v)
    }

    open spec fn decodes(v: Json, x: Self) -> bool {
        match x {
            RasterPaintLayerRasterFadeDurationExpression::Number(t) => Number::accepts(v) && Number::decodes(v, t),
            RasterPaintLayerRasterFadeDurationExpression::Ramp(t) => !Number::accepts(v) && NumberOrArrayOfNumberOrColorOrArrayOfColorOrProjection::accepts(v) && NumberOrArrayOfNumberOrColorOrArrayOfColorOrProjection::decodes(v, t),
        }
    }

    open spec fn rejection(v: Json) -> Seq<char> {
        "RasterPaintLayerRasterFadeDurationExpression: no variant matched. Expected Number(Number) | Ramp(NumberOrArrayOfNumberOrColorOrArrayOfColorOrProjection). Errors: ["@ + "Number: "@ + Number::rejection(v) + "; Ramp: "@ + NumberOrArrayOfNumberOrColorOrArrayOfColorOrProjection::rejection(v) + "]"@
    }

    fn decode(v: &JsonValue) -> (r: Result<Self, String>) {
        let e0 = match Number::decode(v) {
            Ok(x) => {
                return Ok(RasterPaintLayerRasterFadeDurationExpression::Number(x));
            },
            Err(e) => e,
        };
        let e1 = match NumberOrArrayOfNumberOrColorOrArrayOfColorOrProjection::decode(v) {
            Ok(x) => {
                return Ok(RasterPaintLayerRasterFadeDurationExpression::Ramp(x));
            },
            Err(e) => e,
        };
        let mut m = "RasterPaintLayerRasterFadeDurationExpression: no variant matched. Expected Number(Number) | Ramp(NumberOrArrayOfNumberOrColorOrArrayOfColorOrProjection). Errors: [".to_string();
        m.append("Number: ");
        m.append(e0.as_str());
        m.append("; Ramp: ");
        m.append(e1.as_str());
        m.append("]");
        Err(m)
    }
}

impl JsonEncode for RasterPaintLayerRasterFadeDurationExpression {
    open spec fn to_json(self) -> Json {
        match self {
            RasterPaintLayerRasterFadeDurationExpression::Number(t) => Number::to_json(t),
            RasterPaintLayerRasterFadeDurationExpression::Ramp(t) => NumberOrArrayOfNumberOrColorOrArrayOfColorOrProjection::to_json(t),
        }
    }

    open spec fn round_trips(self) -> bool {
        match self {
            RasterPaintLayerRasterFadeDurationExpression::Number(t) => Number::round_trips(t),
            RasterPaintLayerRasterFadeDurationExpression::Ramp(t) => NumberOrArrayOfNumberOrColorOrArrayOfColorOrProjection::round_trips(t) && !Number::accepts(NumberOrArrayOfNumberOrColorOrArrayOfColorOrProjection::to_json(t)),
        }
    }

    fn encode(&self) -> (r: JsonValue) {
        match self {
            RasterPaintLayerRasterFadeDurationExpression::Number(t) => Number::encode(t),
            RasterPaintLayerRasterFadeDurationExpression::Ramp(t) => NumberOrArrayOfNumberOrColorOrArrayOfColorOrProjection::encode(t),
        }
    }

    proof fn lemma_round_trip(self) {
        match self {
            RasterPaintLayerRasterFadeDurationExpression::Number(t) => Number::lemma_round_trip(t),
            RasterPaintLayerRasterFadeDurationExpression::Ramp(t) => NumberOrArrayOfNumberOrColorOrArrayOfColorOrProjection::lemma_round_trip(t),
        }
    }
}

/// Fade duration when a new tile is added, or when a video is started or its coordinates are updated.
#[derive(PartialEq, Debug, Clone)]
pub enum RasterPaintLayerRasterFadeDuration {
    Expr(Box<RasterPaintLayerRasterFadeDurationExpression>),
    Literal(JsonNumber),
}

impl JsonDecode for RasterPaintLayerRasterFadeDuration {
    open spec fn accepts(v: Json) -> bool {
        RasterPaintLayerRasterFadeDurationExpression::accepts(v) || JsonNumber::accepts(v)
    }

    open spec fn decodes(v: Json, x: Self) -> bool {
        match x {
            RasterPaintLayerRasterFadeDuration::Expr(t) => RasterPaintLayerRasterFadeDurationExpression::accepts(v) && RasterPaintLayerRasterFadeDurationExpression::decodes(v, *t),
            RasterPaintLayerRasterFadeDuration::Literal(t) => !RasterPaintLayerRasterFadeDurationExpression::accepts(v) && JsonNumber::accepts(v) && JsonNumber::decodes(v, t),
        }
    }

    open spec fn rejection(v: Json) -> Seq<char> {
        "RasterPaintLayerRasterFadeDuration: no variant matched. Expected Expr(RasterPaintLayerRasterFadeDurationExpression) | Literal(serde_json::Number). Errors: ["@ + "Expr: "@ + RasterPaintLayerRasterFadeDurationExpression::rejection(v) + "; Literal: "@ + JsonNumber::rejection(v) + "]"@
    }

    fn decode(v: &JsonValue) -> (r: Result<Self, String>) {
        let e0 = match RasterPaintLayerRasterFadeDurationExpression::decode(v) {
            Ok(x) => {
                return Ok(RasterPaintLayerRasterFadeDuration::Expr(Box::new(x)));
            },
            Err(e) => e,
        };
        let e1 = match JsonNumber::decode(v) {
            Ok(x) => {
                return Ok(RasterPaintLayerRasterFadeDuration::Literal(x));
            },
            Err(e) => e,
        };
        let mut m = "RasterPaintLayerRasterFadeDuration: no variant matched. Expected Expr(RasterPaintLayerRasterFadeDurationExpression) | Literal(serde_json::Number). Errors: [".to_string();
        m.append("Expr: ");
        m.append(e0.as_str());
        m.append("; Literal: ");
        m.append(e1.as_str());
        m.append("]");
        Err(m)
    }
}

impl JsonEncode for RasterPaintLayerRasterFadeDuration {
    open spec fn to_json(self) -> Json {
        match self {
            RasterPaintLayerRasterFadeDuration::Expr(t) => RasterPaintLayerRasterFadeDurationExpression::to_json(*t),
            RasterPaintLayerRasterFadeDuration::Literal(t) => JsonNumber::to_json(t),
        }
    }

    open spec fn round_trips(self) -> bool {
        match self {
            RasterPaintLayerRasterFadeDuration::Expr(t) => RasterPaintLayerRasterFadeDurationExpression::round_trips(*t),
            RasterPaintLayerRasterFadeDuration::Literal(t) => JsonNumber::round_trips(t) && !RasterPaintLayerRasterFadeDurationExpression::accepts(JsonNumber::to_json(t)),
        }
    }

    fn encode(&self) -> (r: JsonValue) {
        match self {
            RasterPaintLayerRasterFadeDuration::Expr(t) => RasterPaintLayerRasterFadeDurationExpression::encode(&**t),
            RasterPaintLayerRasterFadeDuration::Literal(t) => JsonNumber::encode(t),
        }
    }

    proof fn lemma_round_trip(self) {
        match self {
            RasterPaintLayerRasterFadeDuration::Expr(t) => RasterPaintLayerRasterFadeDurationExpression::lemma_round_trip(*t),
            RasterPaintLayerRasterFadeDuration::Literal(t) => JsonNumber::lemma_round_trip(t),
        }
    }
}

impl Default for RasterPaintLayerRasterFadeDuration {
    fn default() -> (r: Self)
        ensures
            r.to_json() == Json::Number("300"@),
            r is Literal,
    {
        let r = RasterPaintLayerRasterFadeDuration::Literal(JsonNumber::from_literal("300"));
        r
    }
}

/// Nested expression: ramp (`interpolate` / …) or regular [`Number`] operators.
#[derive(PartialEq, Debug, Clone)]
pub enum RasterPaintLayerRasterHueRotateExpression {
    Number(Number),
    Ramp(NumberOrArrayOfNumberOrColorOrArrayOfColorOrProjection),
}

impl JsonDecode for RasterPaintLayerRasterHueRotateExpression {
    open spec fn accepts(v: Json) -> bool {
        Number::accepts(v) || NumberOrArrayOfNumberOrColorOrArrayOfColorOrProjection::accepts(v)
    }

    open spec fn decodes(v: Json, x: Self) -> bool {
        match x {
            RasterPaintLayerRasterHueRotateExpression::Number(t) => Number::accepts(v) && Number::decodes(v, t),
            RasterPaintLayerRasterHueRotateExpression::Ramp(t) => !Number::accepts(v) && NumberOrArrayOfNumberOrColorOrArrayOfColorOrProjection::accepts(v) && NumberOrArrayOfNumberOrColorOrArrayOfColorOrProjection::decodes(v, t),
        }
    }

    open spec fn rejection(v: Json) -> Seq<char> {
        "RasterPaintLayerRasterHueRotateExpression: no variant matched. Expected Number(Number) | Ramp(NumberOrArrayOfNumberOrColorOrArrayOfColorOrProjection). Errors: ["@ + "Number: "@ + Number::rejection(v) + "; Ramp: "@ + NumberOrArrayOfNumberOrColorOrArrayOfColorOrProjection::rejection(v) + "]"@
    }

    fn decode(v: &JsonValue) -> (r: Result<Self, String>) {
        let e0 = match Number::decode(v) {
            Ok(x) => {
                return Ok(RasterPaintLayerRasterHueRotateExpression::Number(x));
            },
            Err(e) => e,
        };
        let e1 = match NumberOrArrayOfNumberOrColorOrArrayOfColorOrProjection::decode(v) {
            Ok(x) => {
                return Ok(RasterPaintLayerRasterHueRotateExpression::Ramp(x));
            },
            Err(e) => e,
        };
        let mut m = "RasterPaintLayerRasterHueRotateExpression: no variant matched. Expected Number(Number) | Ramp(NumberOrArrayOfNumberOrColorOrArrayOfColorOrProjection). Errors: [".to_string();
        m.append("Number: ");
        m.append(e0.as_str());
        m.append("; Ramp: ");
        m.append(e1.as_str());
        m.append("]");
        Err(m)
    }
}

impl JsonEncode for RasterPaintLayerRasterHueRotateExpression {
    open spec fn to_json(self) -> Json {
        match self {
            RasterPaintLayerRasterHueRotateExpression::Number(t) => Number::to_json(t),
            RasterPaintLayerRasterHueRotateExpression::Ramp(t) => NumberOrArrayOfNumberOrColorOrArrayOfColorOrProjection::to_json(t),
        }
    }

    open spec fn round_trips(self) -> bool {
        match self {
            RasterPaintLayerRasterHueRotateExpression::Number(t) => Number::round_trips(t),
            RasterPaintLayerRasterHueRotateExpression::Ramp(t) => NumberOrArrayOfNumberOrColorOrArrayOfColorOrProjection::round_trips(t) && !Number::accepts(NumberOrArrayOfNumberOrColorOrArrayOfColorOrProjection::to_json(t)),
        }
    }

    fn encode(&self) -> (r: JsonValue) {
        match self {
            RasterPaintLayerRasterHueRotateExpression::Number(t) => Number::encode(t),
            RasterPaintLayerRasterHueRotateExpression::Ramp(t) => NumberOrArrayOfNumberOrColorOrArrayOfColorOrProjection::encode(t),
        }
    }

    proof fn lemma_round_trip(self) {
        match self {
            RasterPaintLayerRasterHueRotateExpression::Number(t) => Number::lemma_round_trip(t),
            RasterPaintLayerRasterHueRotateExpression::Ramp(t) => NumberOrArrayOfNumberOrColorOrArrayOfColorOrProjection::lemma_round_trip(t),
        }
    }
}

/// Rotates hues around the color wheel.
#[derive(PartialEq, Debug, Clone)]
pub enum RasterPaintLayerRasterHueRotate {
    Expr(Box<RasterPaintLayerRasterHueRotateExpression>),
    Literal(JsonNumber),
}

impl JsonDecode for RasterPaintLayerRasterHueRotate {
    open spec fn accepts(v: Json) -> bool {
        RasterPaintLayerRasterHueRotateExpression::accepts(v) || JsonNumber::accepts(v)
    }

    open spec fn decodes(v: Json, x: Self) -> bool {
        match x {
            RasterPaintLayerRasterHueRotate::Expr(t) => RasterPaintLayerRasterHueRotateExpression::accepts(v) && RasterPaintLayerRasterHueRotateExpression::decodes(v, *t),
            RasterPaintLayerRasterHueRotate::Literal(t) => !RasterPaintLayerRasterHueRotateExpression::accepts(v) && JsonNumber::accepts(v) && JsonNumber::decodes(v, t),
        }
    }

    open spec fn rejection(v: Json) -> Seq<char> {
        "RasterPaintLayerRasterHueRotate: no variant matched. Expected Expr(RasterPaintLayerRasterHueRotateExpression) | Literal(serde_json::Number). Errors: ["@ + "Expr: "@ + RasterPaintLayerRasterHueRotateExpression::rejection(v) + "; Literal: "@ + JsonNumber::rejection(v) + "]"@
    }

    fn decode(v: &JsonValue) -> (r: Result<Self, String>) {
        let e0 = match RasterPaintLayerRasterHueRotateExpression::decode(v) {
            Ok(x) => {
                return Ok(RasterPaintLayerRasterHueRotate::Expr(Box::new(x)));
            },
            Err(e) => e,
        };
        let e1 = match JsonNumber::decode(v) {
            Ok(x) => {
                return Ok(RasterPaintLayerRasterHueRotate::Literal(x));
            },
            Err(e) => e,
        };
        let mut m = "RasterPaintLayerRasterHueRotate: no variant matched. Expected Expr(RasterPaintLayerRasterHueRotateExpression) | Literal(serde_json::Number). Errors: [".to_string();
        m.append("Expr: ");
        m.append(e0.as_str());
        m.append("; Literal: ");
        m.append(e1.as_str());
        m.append("]");
        Err(m)
    }
}

impl JsonEncode for RasterPaintLayerRasterHueRotate {
    open spec fn to_json(self) -> Json {
        match self {
            RasterPaintLayerRasterHueRotate::Expr(t) => RasterPaintLayerRasterHueRotateExpression::to_json(*t),
            RasterPaintLayerRasterHueRotate::Literal(t) => JsonNumber::to_json(t),
        }
    }

    open spec fn round_trips(self) -> bool {
        match self {
            RasterPaintLayerRasterHueRotate::Expr(t) => RasterPaintLayerRasterHueRotateExpression::round_trips(*t),
            RasterPaintLayerRasterHueRotate::Literal(t) => JsonNumber::round_trips(t) && !RasterPaintLayerRasterHueRotateExpression::accepts(JsonNumber::to_json(t)),
        }
    }

    fn encode(&self) -> (r: JsonValue) {
        match self {
            RasterPaintLayerRasterHueRotate::Expr(t) => RasterPaintLayerRasterHueRotateExpression::encode(&**t),
            RasterPaintLayerRasterHueRotate::Literal(t) => JsonNumber::encode(t),
        }
    }

    proof fn lemma_round_trip(self) {
        match self {
            RasterPaintLayerRasterHueRotate::Expr(t) => RasterPaintLayerRasterHueRotateExpression::lemma_round_trip(*t),
            RasterPaintLayerRasterHueRotate::Literal(t) => JsonNumber::lemma_round_trip(t),
        }
    }
}

impl Default for RasterPaintLayerRasterHueRotate {
    fn default() -> (r: Self)
        ensures
            r.to_json() == Json::Number("0"@),
            r is Literal,
    {
        let r = RasterPaintLayerRasterHueRotate::Literal(JsonNumber::from_literal("0"));
        r
    }
}

/// Nested expression: ramp (`interpolate` / …) or regular [`Number`] operators.
#[derive(PartialEq, Debug, Clone)]
pub enum RasterPaintLayerRasterOpacityExpression {
    Number(Number),
    Ramp(NumberOrArrayOfNumberOrColorOrArrayOfColorOrProjection),
}

impl JsonDecode for RasterPaintLayerRasterOpacityExpression {
    open spec fn accepts(v: Json) -> bool {
        Number::accepts(v) || NumberOrArrayOfNumberOrColorOrArrayOfColorOrProjection::accepts(v)
    }

    open spec fn decodes(v: Json, x: Self) -> bool {
        match x {
            RasterPaintLayerRasterOpacityExpression::Number(t) => Number::accepts(v) && Number::decodes(v, t),
            RasterPaintLayerRasterOpacityExpression::Ramp(t) => !Number::accepts(v) && NumberOrArrayOfNumberOrColorOrArrayOfColorOrProjection::accepts(v) && NumberOrArrayOfNumberOrColorOrArrayOfColorOrProjection::decodes(v, t),
        }
    }

    open spec fn rejection(v: Json) -> Seq<char> {
        "RasterPaintLayerRasterOpacityExpression: no variant matched. Expected Number(Number) | Ramp(NumberOrArrayOfNumberOrColorOrArrayOfColorOrProjection). Errors: ["@ + "Number: "@ + Number::rejection(v) + "; Ramp: "@ + NumberOrArrayOfNumberOrColorOrArrayOfColorOrProjection::rejection(v) + "]"@
    }

    fn decode(v: &JsonValue) -> (r: Result<Self, String>) {
        let e0 = match Number::decode(v) {
            Ok(x) => {
                return Ok(RasterPaintLayerRasterOpacityExpression::Number(x));
            },
            Err(e) => e,
        };
        let e1 = match NumberOrArrayOfNumberOrColorOrArrayOfColorOrProjection::decode(v) {
            Ok(x) => {
                return Ok(RasterPaintLayerRasterOpacityExpression::Ramp(x));
            },
            Err(e) => e,
        };
        let mut m = "RasterPaintLayerRasterOpacityExpression: no variant matched. Expected Number(Number) | Ramp(NumberOrArrayOfNumberOrColorOrArrayOfColorOrProjection). Errors: [".to_string();
        m.append("Number: ");
        m.append(e0.as_str());
        m.append("; Ramp: ");
        m.append(e1.as_str());
        m.append("]");
        Err(m)
    }
}

impl JsonEncode for RasterPaintLayerRasterOpacityExpression {
    open spec fn to_json(self) -> Json {
        match self {
            RasterPaintLayerRasterOpacityExpression::Number(t) => Number::to_json(t),
            RasterPaintLayerRasterOpacityExpression::Ramp(t) => NumberOrArrayOfNumberOrColorOrArrayOfColorOrProjection::to_json(t),
        }
    }

    open spec fn round_trips(self) -> bool {
        match self {
            RasterPaintLayerRasterOpacityExpression::Number(t) => Number::round_trips(t),
            RasterPaintLayerRasterOpacityExpression::Ramp(t) => NumberOrArrayOfNumberOrColorOrArrayOfColorOrProjection::round_trips(t) && !Number::accepts(NumberOrArrayOfNumberOrColorOrArrayOfColorOrProjection::to_json(t)),
        }
    }

    fn encode(&self) -> (r: JsonValue) {
        match self {
            RasterPaintLayerRasterOpacityExpression::Number(t) => Number::encode(t),
            RasterPaintLayerRasterOpacityExpression::Ramp(t) => NumberOrArrayOfNumberOrColorOrArrayOfColorOrProjection::encode(t),
        }
    }

    proof fn lemma_round_trip(self) {
        match self {
            RasterPaintLayerRasterOpacityExpression::Number(t) => Number::lemma_round_trip(t),
            RasterPaintLayerRasterOpacityExpression::Ramp(t) => NumberOrArrayOfNumberOrColorOrArrayOfColorOrProjection::lemma_round_trip(t),
        }
    }
}

/// The opacity at which the image will be drawn.
#[derive(PartialEq, Debug, Clone)]
pub enum RasterPaintLayerRasterOpacity {
    Expr(Box<RasterPaintLayerRasterOpacityExpression>),
    Literal(JsonNumber),
}

impl JsonDecode for RasterPaintLayerRasterOpacity {
    open spec fn accepts(v: Json) -> bool {
        RasterPaintLayerRasterOpacityExpression::accepts(v) || JsonNumber::accepts(v)
    }

    open spec fn decodes(v: Json, x: Self) -> bool {
        match x {
            RasterPaintLayerRasterOpacity::Expr(t) => RasterPaintLayerRasterOpacityExpression::accepts(v) && RasterPaintLayerRasterOpacityExpression::decodes(v, *t),
            RasterPaintLayerRasterOpacity::Literal(t) => !RasterPaintLayerRasterOpacityExpression::accepts(v) && JsonNumber::accepts(v) && JsonNumber::decodes(v, t),
        }
    }

    open spec fn rejection(v: Json) -> Seq<char> {
        "RasterPaintLayerRasterOpacity: no variant matched. Expected Expr(RasterPaintLayerRasterOpacityExpression) | Literal(serde_json::Number). Errors: ["@ + "Expr: "@ + RasterPaintLayerRasterOpacityExpression::rejection(v) + "; Literal: "@ + JsonNumber::rejection(v) + "]"@
    }

    fn decode(v: &JsonValue) -> (r: Result<Self, String>) {
        let e0 = match RasterPaintLayerRasterOpacityExpression::decode(v) {
            Ok(x) => {
                return Ok(RasterPaintLayerRasterOpacity::Expr(Box::new(x)));
            },
            Err(e) => e,
        };
        let e1 = match JsonNumber::decode(v) {
            Ok(x) => {
                return Ok(RasterPaintLayerRasterOpacity::Literal(x));
            },
            Err(e) => e,
        };
        let mut m = "RasterPaintLayerRasterOpacity: no variant matched. Expected Expr(RasterPaintLayerRasterOpacityExpression) | Literal(serde_json::Number). Errors: [".to_string();
        m.append("Expr: ");
        m.append(e0.as_str());
        m.append("; Literal: ");
        m.append(e1.as_str());
        m.append("]");
        Err(m)
    }
}

impl JsonEncode for RasterPaintLayerRasterOpacity {
    open spec fn to_json(self) -> Json {
        match self {
            RasterPaintLayerRasterOpacity::Expr(t) => RasterPaintLayerRasterOpacityExpression::to_json(*t),
            RasterPaintLayerRasterOpacity::Literal(t) => JsonNumber::to_json(t),
        }
    }

    open spec fn round_trips(self) -> bool {
        match self {
            RasterPaintLayerRasterOpacity::Expr(t) => RasterPaintLayerRasterOpacityExpression::round_trips(*t),
            RasterPaintLayerRasterOpacity::Literal(t) => JsonNumber::round_trips(t) && !RasterPaintLayerRasterOpacityExpression::accepts(JsonNumber::to_json(t)),
        }
    }

    fn encode(&self) -> (r: JsonValue) {
        match self {
            RasterPaintLayerRasterOpacity::Expr(t) => RasterPaintLayerRasterOpacityExpression::encode(&**t),
            RasterPaintLayerRasterOpacity::Literal(t) => JsonNumber::encode(t),
        }
    }

    proof fn lemma_round_trip(self) {
        match self {
            RasterPaintLayerRasterOpacity::Expr(t) => RasterPaintLayerRasterOpacityExpression::lemma_round_trip(*t),
            RasterPaintLayerRasterOpacity::Literal(t) => JsonNumber::lemma_round_trip(t),
        }
    }
}

impl Default for RasterPaintLayerRasterOpacity {
    fn default() -> (r: Self)
        ensures
            r.to_json() == Json::Number("1"@),
            r is Literal,
    {
        let r = RasterPaintLayerRasterOpacity::Literal(JsonNumber::from_literal("1"));
        r
    }
}

/// The resampling/interpolation method to use for overscaling, also known as texture magnification filter
#[derive(PartialEq, Eq, Debug, Clone, Copy)]
pub enum RasterPaintLayerRasterResampling {
    Linear,
    Nearest,
}

impl RasterPaintLayerRasterResampling {
    /// The name that stands for the value in a style document.
    pub open spec fn spec_name(self) -> Seq<char> {
        match self {
            RasterPaintLayerRasterResampling::Linear => "linear"@,
            RasterPaintLayerRasterResampling::Nearest => "nearest"@,
        }
    }

    /// The name that stands for the value in a style document.
    pub fn name(&self) -> (r: &'static str)
        ensures
            r@ == self.spec_name(),
    {
        match self {
            RasterPaintLayerRasterResampling::Linear => "linear",
            RasterPaintLayerRasterResampling::Nearest => "nearest",
        }
    }

    /// The value that a name stands for, if any.
    pub fn from_name(s: &str) -> (r: Option<RasterPaintLayerRasterResampling>)
        ensures
            r matches Some(x) ==> x.spec_name() == s@,
            r is None ==> forall|x: RasterPaintLayerRasterResampling| x.spec_name() != s@,
    {
        if str_eq(s, "linear") {
            Some(RasterPaintLayerRasterResampling::Linear)
        } else if str_eq(s, "nearest") {
            Some(RasterPaintLayerRasterResampling::Nearest)
        } else {
            None
        }
    }
}

impl RasterPaintLayerRasterResampling {
    /// Each value is read from, and written as, the name that the style specification gives
    /// it, and a document holding one of these names reads as that value and no other.
    pub proof fn lemma_read_by_name()
        ensures
            <RasterPaintLayerRasterResampling as JsonEncode>::to_json(RasterPaintLayerRasterResampling::Linear) == Json::Str("linear"@),
            forall|x: RasterPaintLayerRasterResampling| <RasterPaintLayerRasterResampling as JsonDecode>::decodes(Json::Str("linear"@), x) <==> x == RasterPaintLayerRasterResampling::Linear,
            forall|x: RasterPaintLayerRasterResampling| <RasterPaintLayerRasterResampling as JsonDecode>::decodes(Json::Str("nearest"@), x) <==> x == RasterPaintLayerRasterResampling::Nearest,
            <RasterPaintLayerRasterResampling as JsonEncode>::to_json(RasterPaintLayerRasterResampling::Nearest) == Json::Str("nearest"@),
    {
        reveal_strlit("nearest");
        reveal_strlit("linear");
        assert("linear"@.len() != "nearest"@.len());
    }
}

impl JsonDecode for RasterPaintLayerRasterResampling {
    /// The name of a value, or an object whose one entry has the name as its key and `null`.
    open spec fn accepts(v: Json) -> bool {
        ||| (v is Str && exists|x: RasterPaintLayerRasterResampling| x.spec_name() == v->Str_0)
        ||| (v is Object && v->Object_0.len() == 1 && v->Object_0[0].1 is Null && exists|x: RasterPaintLayerRasterResampling| x.spec_name() == v->Object_0[0].0)
    }

    open spec fn decodes(v: Json, x: Self) -> bool {
        ||| v == Json::Str(x.spec_name())
        ||| (v is Object && v->Object_0.len() == 1 && v->Object_0[0] == (x.spec_name(), Json::Null))
    }

    open spec fn rejection(v: Json) -> Seq<char> {
        if v is Str {
            unknown_variant(v->Str_0) + ", expected `linear` or `nearest`"@
        } else if v is Object {
            let o = v->Object_0;
            if o.len() != 1 {
                "invalid value: map, expected map with a single key"@
            } else if !(exists|x: RasterPaintLayerRasterResampling| x.spec_name() == o[0].0) {
                unknown_variant(o[0].0) + ", expected `linear` or `nearest`"@
            } else {
                type_error(o[0].1, "unit"@)
            }
        } else {
            type_error(v, "string or map"@)
        }
    }

    fn decode(v: &JsonValue) -> (r: Result<Self, String>) {
        match v {
            JsonValue::String(s) => match Self::from_name(s.as_str()) {
                Some(x) => Ok(x),
                None => {
                    let mut m = make_unknown_variant(s.as_str());
                    m.append(", expected `linear` or `nearest`");
                    Err(m)
                },
            },
            JsonValue::Object(fields) => {
                if fields.len() != 1 {
                    return Err("invalid value: map, expected map with a single key".to_string());
                }
                proof {
                    assert(entries_model(*fields)[0] == (fields@[0].0@, fields@[0].1.model()));
                }
                match Self::from_name(fields[0].0.as_str()) {
                    Some(x) => match &fields[0].1 {
                        JsonValue::Null => Ok(x),
                        _ => Err(make_type_error(&fields[0].1, "unit")),
                    },
                    None => {
                        let mut m = make_unknown_variant(fields[0].0.as_str());
                        m.append(", expected `linear` or `nearest`");
                        Err(m)
                    },
                }
            },
            _ => Err(make_type_error(v, "string or map")),
        }
    }
}

impl JsonEncode for RasterPaintLayerRasterResampling {
    open spec fn to_json(self) -> Json {
        Json::Str(self.spec_name())
    }

    open spec fn round_trips(self) -> bool {
        true
    }

    fn encode(&self) -> (r: JsonValue) {
        JsonValue::String(self.name().to_string())
    }

    proof fn lemma_round_trip(self) {
    }
}

impl Default for RasterPaintLayerRasterResampling {
    fn default() -> (r: Self)
        ensures
            r == RasterPaintLayerRasterResampling::Linear,
    {
        RasterPaintLayerRasterResampling::Linear
    }
}

/// Nested expression: ramp (`interpolate` / …) or regular [`Number`] operators.
#[derive(PartialEq, Debug, Clone)]
pub enum RasterPaintLayerRasterSaturationExpression {
    Number(Number),
    Ramp(NumberOrArrayOfNumberOrColorOrArrayOfColorOrProjection),
}

impl JsonDecode for RasterPaintLayerRasterSaturationExpression {
    open spec fn accepts(v: Json) -> bool {
        Number::accepts(v) || NumberOrArrayOfNumberOrColorOrArrayOfColorOrProjection::accepts(v)
    }

    open spec fn decodes(v: Json, x: Self) -> bool {
        match x {
            RasterPaintLayerRasterSaturationExpression::Number(t) => Number::accepts(v) && Number::decodes(v, t),
            RasterPaintLayerRasterSaturationExpression::Ramp(t) => !Number::accepts(v) && NumberOrArrayOfNumberOrColorOrArrayOfColorOrProjection::accepts(v) && NumberOrArrayOfNumberOrColorOrArrayOfColorOrProjection::decodes(v, t),
        }
    }

    open spec fn rejection(v: Json) -> Seq<char> {
        "RasterPaintLayerRasterSaturationExpression: no variant matched. Expected Number(Number) | Ramp(NumberOrArrayOfNumberOrColorOrArrayOfColorOrProjection). Errors: ["@ + "Number: "@ + Number::rejection(v) + "; Ramp: "@ + NumberOrArrayOfNumberOrColorOrArrayOfColorOrProjection::rejection(v) + "]"@
    }

    fn decode(v: &JsonValue) -> (r: Result<Self, String>) {
        let e0 = match Number::decode(v) {
            Ok(x) => {
                return Ok(RasterPaintLayerRasterSaturationExpression::Number(x));
            },
            Err(e) => e,
        };
        let e1 = match NumberOrArrayOfNumberOrColorOrArrayOfColorOrProjection::decode(v) {
            Ok(x) => {
                return Ok(RasterPaintLayerRasterSaturationExpression::Ramp(x));
            },
            Err(e) => e,
        };
        let mut m = "RasterPaintLayerRasterSaturationExpression: no variant matched. Expected Number(Number) | Ramp(NumberOrArrayOfNumberOrColorOrArrayOfColorOrProjection). Errors: [".to_string();
        m.append("Number: ");
        m.append(e0.as_str());
        m.append("; Ramp: ");
        m.append(e1.as_str());
        m.append("]");
        Err(m)
    }
}

impl JsonEncode for RasterPaintLayerRasterSaturationExpression {
    open spec fn to_json(self) -> Json {
        match self {
            RasterPaintLayerRasterSaturationExpression::Number(t) => Number::to_json(t),
            RasterPaintLayerRasterSaturationExpression::Ramp(t) => NumberOrArrayOfNumberOrColorOrArrayOfColorOrProjection::to_json(t),
        }
    }

    open spec fn round_trips(self) -> bool {
        match self {
            RasterPaintLayerRasterSaturationExpression::Number(t) => Number::round_trips(t),
            RasterPaintLayerRasterSaturationExpression::Ramp(t) => NumberOrArrayOfNumberOrColorOrArrayOfColorOrProjection::round_trips(t) && !Number::accepts(NumberOrArrayOfNumberOrColorOrArrayOfColorOrProjection::to_json(t)),
        }
    }

    fn encode(&self) -> (r: JsonValue) {
        match self {
            RasterPaintLayerRasterSaturationExpression::Number(t) => Number::encode(t),
            RasterPaintLayerRasterSaturationExpression::Ramp(t) => NumberOrArrayOfNumberOrColorOrArrayOfColorOrProjection::encode(t),
        }
    }

    proof fn lemma_round_trip(self) {
        match self {
            RasterPaintLayerRasterSaturationExpression::Number(t) => Number::lemma_round_trip(t),
            RasterPaintLayerRasterSaturationExpression::Ramp(t) => NumberOrArrayOfNumberOrColorOrArrayOfColorOrProjection::lemma_round_trip(t),
        }
    }
}

/// Increase or reduce the saturation of the image.
#[derive(PartialEq, Debug, Clone)]
pub enum RasterPaintLayerRasterSaturation {
    Expr(Box<RasterPaintLayerRasterSaturationExpression>),
    Literal(JsonNumber),
}

impl JsonDecode for RasterPaintLayerRasterSaturation {
    open spec fn accepts(v: Json) -> bool {
        RasterPaintLayerRasterSaturationExpression::accepts(v) || JsonNumber::accepts(v)
    }

    open spec fn decodes(v: Json, x: Self) -> bool {
        match x {
            RasterPaintLayerRasterSaturation::Expr(t) => RasterPaintLayerRasterSaturationExpression::accepts(v) && RasterPaintLayerRasterSaturationExpression::decodes(v, *t),
            RasterPaintLayerRasterSaturation::Literal(t) => !RasterPaintLayerRasterSaturationExpression::accepts(v) && JsonNumber::accepts(v) && JsonNumber::decodes(v, t),
        }
    }

    open spec fn rejection(v: Json) -> Seq<char> {
        "RasterPaintLayerRasterSaturation: no variant matched. Expected Expr(RasterPaintLayerRasterSaturationExpression) | Literal(serde_json::Number). Errors: ["@ + "Expr: "@ + RasterPaintLayerRasterSaturationExpression::rejection(v) + "; Literal: "@ + JsonNumber::rejection(v) + "]"@
    }

    fn decode(v: &JsonValue) -> (r: Result<Self, String>) {
        let e0 = match RasterPaintLayerRasterSaturationExpression::decode(v) {
            Ok(x) => {
                return Ok(RasterPaintLayerRasterSaturation::Expr(Box::new(x)));
            },
            Err(e) => e,
        };
        let e1 = match JsonNumber::decode(v) {
            Ok(x) => {
                return Ok(RasterPaintLayerRasterSaturation::Literal(x));
            },
            Err(e) => e,
        };
        let mut m = "RasterPaintLayerRasterSaturation: no variant matched. Expected Expr(RasterPaintLayerRasterSaturationExpression) | Literal(serde_json::Number). Errors: [".to_string();
        m.append("Expr: ");
        m.append(e0.as_str());
        m.append("; Literal: ");
        m.append(e1.as_str());
        m.append("]");
        Err(m)
    }
}

impl JsonEncode for RasterPaintLayerRasterSaturation {
    open spec fn to_json(self) -> Json {
        match self {
            RasterPaintLayerRasterSaturation::Expr(t) => RasterPaintLayerRasterSaturationExpression::to_json(*t),
            RasterPaintLayerRasterSaturation::Literal(t) => JsonNumber::to_json(t),
        }
    }

    open spec fn round_trips(self) -> bool {
        match self {
            RasterPaintLayerRasterSaturation::Expr(t) => RasterPaintLayerRasterSaturationExpression::round_trips(*t),
            RasterPaintLayerRasterSaturation::Literal(t) => JsonNumber::round_trips(t) && !RasterPaintLayerRasterSaturationExpression::accepts(JsonNumber::to_json(t)),
        }
    }

    fn encode(&self) -> (r: JsonValue) {
        match self {
            RasterPaintLayerRasterSaturation::Expr(t) => RasterPaintLayerRasterSaturationExpression::encode(&**t),
            RasterPaintLayerRasterSaturation::Literal(t) => JsonNumber::encode(t),
        }
    }

    proof fn lemma_round_trip(self) {
        match self {
            RasterPaintLayerRasterSaturation::Expr(t) => RasterPaintLayerRasterSaturationExpression::lemma_round_trip(*t),
            RasterPaintLayerRasterSaturation::Literal(t) => JsonNumber::lemma_round_trip(t),
        }
    }
}

impl Default for RasterPaintLayerRasterSaturation {
    fn default() -> (r: Self)
        ensures
            r.to_json() == Json::Number("0"@),
            r is Literal,
    {
        let r = RasterPaintLayerRasterSaturation::Literal(JsonNumber::from_literal("0"));
        r
    }
}

#[derive(PartialEq, Debug, Clone)]
pub struct SymbolLayoutLayer {
    /// If true, the icon will be visible even if it collides with other previously drawn symbols.
    pub icon_allow_overlap: Option<SymbolLayoutLayerIconAllowOverlap>,
    /// Part of the icon placed closest to the anchor.
    pub icon_anchor: Option<SymbolLayoutLayerIconAnchor>,
    /// If true, other symbols can be visible even if they collide with the icon.
    pub icon_ignore_placement: Option<SymbolLayoutLayerIconIgnorePlacement>,
    /// Name of image in sprite to use for drawing an image background.
    pub icon_image: Option<SymbolLayoutLayerIconImage>,
    /// If true, the icon may be flipped to prevent it from being rendered upside-down.
    pub icon_keep_upright: Option<SymbolLayoutLayerIconKeepUpright>,
    /// Offset distance of icon from its anchor. Positive values indicate right and down, while negative values indicate left and up. Each component is multiplied by the value of `icon-size` to obtain the final offset in pixels. When combined with `icon-rotate` the offset will be as if the rotated direction was up.
    pub icon_offset: Option<SymbolLayoutLayerIconOffset>,
    /// If true, text will display without their corresponding icons when the icon collides with other symbols and the text does not.
    pub icon_optional: Option<SymbolLayoutLayerIconOptional>,
    /// Allows for control over whether to show an icon when it overlaps other symbols on the map. If `icon-overlap` is not set, `icon-allow-overlap` is used instead.
    pub icon_overlap: Option<SymbolLayoutLayerIconOverlap>,
    /// Size of additional area round the icon bounding box used for detecting symbol collisions.
    pub icon_padding: Option<SymbolLayoutLayerIconPadding>,
    /// Orientation of icon when map is pitched.
    pub icon_pitch_alignment: Option<SymbolLayoutLayerIconPitchAlignment>,
    /// Rotates the icon clockwise.
    pub icon_rotate: Option<SymbolLayoutLayerIconRotate>,
    /// In combination with `symbol-placement`, determines the rotation behavior of icons.
    pub icon_rotation_alignment: Option<SymbolLayoutLayerIconRotationAlignment>,
    /// Scales the original size of the icon by the provided factor. The new pixel size of the image will be the original pixel size multiplied by `icon-size`. 1 is the original size; 3 triples the size of the image.
    pub icon_size: Option<SymbolLayoutLayerIconSize>,
    /// Scales the icon to fit around the associated text.
    pub icon_text_fit: Option<SymbolLayoutLayerIconTextFit>,
    /// Size of the additional area added to dimensions determined by `icon-text-fit`, in clockwise order: top, right, bottom, left.
    pub icon_text_fit_padding: Option<SymbolLayoutLayerIconTextFitPadding>,
    /// If true, the symbols will not cross tile edges to avoid mutual collisions. Recommended in layers that don't have enough padding in the vector tile to prevent collisions, or if it is a point symbol layer placed after a line symbol layer. When using a client that supports global collision detection, like MapLibre GL JS version 0.42.0 or greater, enabling this property is not needed to prevent clipped labels at tile boundaries.
    pub symbol_avoid_edges: Option<SymbolLayoutLayerSymbolAvoidEdges>,
    /// Label placement relative to its geometry.
    pub symbol_placement: Option<SymbolLayoutLayerSymbolPlacement>,
    /// Sorts features in ascending order based on this value. Features with lower sort keys are drawn and placed first.  When `icon-allow-overlap` or `text-allow-overlap` is `false`, features with a lower sort key will have priority during placement. When `icon-allow-overlap` or `text-allow-overlap` is set to `true`, features with a higher sort key will overlap over features with a lower sort key.
    pub symbol_sort_key: Option<SymbolLayoutLayerSymbolSortKey>,
    /// Distance between two symbol anchors.
    pub symbol_spacing: Option<SymbolLayoutLayerSymbolSpacing>,
    /// Determines whether overlapping symbols in the same layer are rendered in the order that they appear in the data source or by their y-position relative to the viewport. To control the order and prioritization of symbols otherwise, use `symbol-sort-key`.
    pub symbol_z_order: Option<SymbolLayoutLayerSymbolZOrder>,
    /// If true, the text will be visible even if it collides with other previously drawn symbols.
    pub text_allow_overlap: Option<SymbolLayoutLayerTextAllowOverlap>,
    /// Part of the text placed closest to the anchor.
    pub text_anchor: Option<SymbolLayoutLayerTextAnchor>,
    /// Value to use for a text label. If a plain `string` is provided, it will be treated as a `formatted` with default/inherited formatting options.
    pub text_field: Option<SymbolLayoutLayerTextField>,
    /// Fonts to use for displaying text. If the `glyphs` root property is specified, this array is joined together and interpreted as a font stack name. Otherwise, it is interpreted as a cascading fallback list of local font names.
    pub text_font: Option<SymbolLayoutLayerTextFont>,
    /// If true, other symbols can be visible even if they collide with the text.
    pub text_ignore_placement: Option<SymbolLayoutLayerTextIgnorePlacement>,
    /// Text justification options.
    pub text_justify: Option<SymbolLayoutLayerTextJustify>,
    /// If true, the text may be flipped vertically to prevent it from being rendered upside-down.
    pub text_keep_upright: Option<SymbolLayoutLayerTextKeepUpright>,
    /// Text tracking amount.
    pub text_letter_spacing: Option<SymbolLayoutLayerTextLetterSpacing>,
    /// Text leading value for multi-line text.
    pub text_line_height: Option<SymbolLayoutLayerTextLineHeight>,
    /// Maximum angle change between adjacent characters.
    pub text_max_angle: Option<SymbolLayoutLayerTextMaxAngle>,
    /// The maximum line width for text wrapping.
    pub text_max_width: Option<SymbolLayoutLayerTextMaxWidth>,
    /// Offset distance of text from its anchor. Positive values indicate right and down, while negative values indicate left and up. If used with text-variable-anchor, input values will be taken as absolute values. Offsets along the x- and y-axis will be applied automatically based on the anchor position.
    pub text_offset: Option<SymbolLayoutLayerTextOffset>,
    /// If true, icons will display without their corresponding text when the text collides with other symbols and the icon does not.
    pub text_optional: Option<SymbolLayoutLayerTextOptional>,
    /// Allows for control over whether to show symbol text when it overlaps other symbols on the map. If `text-overlap` is not set, `text-allow-overlap` is used instead
    pub text_overlap: Option<SymbolLayoutLayerTextOverlap>,
    /// Size of the additional area around the text bounding box used for detecting symbol collisions.
    pub text_padding: Option<SymbolLayoutLayerTextPadding>,
    /// Orientation of text when map is pitched.
    pub text_pitch_alignment: Option<SymbolLayoutLayerTextPitchAlignment>,
    /// Radial offset of text, in the direction of the symbol's anchor. Useful in combination with `text-variable-anchor`, which defaults to using the two-dimensional `text-offset` if present.
    pub text_radial_offset: Option<SymbolLayoutLayerTextRadialOffset>,
    /// Rotates the text clockwise.
    pub text_rotate: Option<SymbolLayoutLayerTextRotate>,
    /// In combination with `symbol-placement`, determines the rotation behavior of the individual glyphs forming the text.
    pub text_rotation_alignment: Option<SymbolLayoutLayerTextRotationAlignment>,
    /// Font size.
    pub text_size: Option<SymbolLayoutLayerTextSize>,
    /// Specifies how to capitalize text, similar to the CSS `text-transform` property.
    pub text_transform: Option<SymbolLayoutLayerTextTransform>,
    /// To increase the chance of placing high-priority labels on the map, you can provide an array of `text-anchor` locations: the renderer will attempt to place the label at each location, in order, before moving onto the next label. Use `text-justify: auto` to choose justification based on anchor position. To apply an offset, use the `text-radial-offset` or the two-dimensional `text-offset`.
    pub text_variable_anchor: Option<SymbolLayoutLayerTextVariableAnchor>,
    /// To increase the chance of placing high-priority labels on the map, you can provide an array of `text-anchor` locations, each paired with an offset value. The renderer will attempt to place the label at each location, in order, before moving on to the next location+offset. Use `text-justify: auto` to choose justification based on anchor position.
    ///
    ///  The length of the array must be even, and must alternate between enum and point entries. i.e., each anchor location must be accompanied by a point, and that point defines the offset when the corresponding anchor location is used. Positive offset values indicate right and down, while negative values indicate left and up. Anchor locations may repeat, allowing the renderer to try multiple offsets to try and place a label using the same anchor.
    ///
    ///  When present, this property takes precedence over `text-anchor`, `text-variable-anchor`, `text-offset`, and `text-radial-offset`.
    ///
    ///  ```json
    ///
    ///  { "text-variable-anchor-offset": ["top", [0, 4], "left", [3,0], "bottom", [1, 1]] }
    ///
    ///  ```
    ///
    ///  When the renderer chooses the `top` anchor, `[0, 4]` will be used for `text-offset`; the text will be shifted down by 4 ems.
    ///
    ///  When the renderer chooses the `left` anchor, `[3, 0]` will be used for `text-offset`; the text will be shifted right by 3 ems.
    pub text_variable_anchor_offset: Option<SymbolLayoutLayerTextVariableAnchorOffset>,
    /// The property allows control over a symbol's orientation. Note that the property values act as a hint, so that a symbol whose language doesn’t support the provided orientation will be laid out in its natural orientation. Example: English point symbol will be rendered horizontally even if array value contains single 'vertical' enum value. The order of elements in an array define priority order for the placement of an orientation variant.
    pub text_writing_mode: Option<SymbolLayoutLayerTextWritingMode>,
    /// Whether this layer is displayed.
    pub visibility: Option<SymbolLayoutLayerVisibility>,
}

impl JsonDecode for SymbolLayoutLayer {
    /// An object with the fields by their keys, or an array with the fields in order.
    open spec fn accepts(v: Json) -> bool {
        ||| (v is Object && {
            let o = v->Object_0;
            &&& opt_field_accepts::<SymbolLayoutLayerIconAllowOverlap>(o, "icon-allow-overlap"@)
            &&& opt_field_accepts::<SymbolLayoutLayerIconAnchor>(o, "icon-anchor"@)
            &&& opt_field_accepts::<SymbolLayoutLayerIconIgnorePlacement>(o, "icon-ignore-placement"@)
            &&& opt_field_accepts::<SymbolLayoutLayerIconImage>(o, "icon-image"@)
            &&& opt_field_accepts::<SymbolLayoutLayerIconKeepUpright>(o, "icon-keep-upright"@)
            &&& opt_field_accepts::<SymbolLayoutLayerIconOffset>(o, "icon-offset"@)
            &&& opt_field_accepts::<SymbolLayoutLayerIconOptional>(o, "icon-optional"@)
            &&& opt_field_accepts::<SymbolLayoutLayerIconOverlap>(o, "icon-overlap"@)
            &&& opt_field_accepts::<SymbolLayoutLayerIconPadding>(o, "icon-padding"@)
            &&& opt_field_accepts::<SymbolLayoutLayerIconPitchAlignment>(o, "icon-pitch-alignment"@)
            &&& opt_field_accepts::<SymbolLayoutLayerIconRotate>(o, "icon-rotate"@)
            &&& opt_field_accepts::<SymbolLayoutLayerIconRotationAlignment>(o, "icon-rotation-alignment"@)
            &&& opt_field_accepts::<SymbolLayoutLayerIconSize>(o, "icon-size"@)
            &&& opt_field_accepts::<SymbolLayoutLayerIconTextFit>(o, "icon-text-fit"@)
            &&& opt_field_accepts::<SymbolLayoutLayerIconTextFitPadding>(o, "icon-text-fit-padding"@)
            &&& opt_field_accepts::<SymbolLayoutLayerSymbolAvoidEdges>(o, "symbol-avoid-edges"@)
            &&& opt_field_accepts::<SymbolLayoutLayerSymbolPlacement>(o, "symbol-placement"@)
            &&& opt_field_accepts::<SymbolLayoutLayerSymbolSortKey>(o, "symbol-sort-key"@)
            &&& opt_field_accepts::<SymbolLayoutLayerSymbolSpacing>(o, "symbol-spacing"@)
            &&& opt_field_accepts::<SymbolLayoutLayerSymbolZOrder>(o, "symbol-z-order"@)
            &&& opt_field_accepts::<SymbolLayoutLayerTextAllowOverlap>(o, "text-allow-overlap"@)
            &&& opt_field_accepts::<SymbolLayoutLayerTextAnchor>(o, "text-anchor"@)
            &&& opt_field_accepts::<SymbolLayoutLayerTextField>(o, "text-field"@)
            &&& opt_field_accepts::<SymbolLayoutLayerTextFont>(o, "text-font"@)
            &&& opt_field_accepts::<SymbolLayoutLayerTextIgnorePlacement>(o, "text-ignore-placement"@)
            &&& opt_field_accepts::<SymbolLayoutLayerTextJustify>(o, "text-justify"@)
            &&& opt_field_accepts::<SymbolLayoutLayerTextKeepUpright>(o, "text-keep-upright"@)
            &&& opt_field_accepts::<SymbolLayoutLayerTextLetterSpacing>(o, "text-letter-spacing"@)
            &&& opt_field_accepts::<SymbolLayoutLayerTextLineHeight>(o, "text-line-height"@)
            &&& opt_field_accepts::<SymbolLayoutLayerTextMaxAngle>(o, "text-max-angle"@)
            &&& opt_field_accepts::<SymbolLayoutLayerTextMaxWidth>(o, "text-max-width"@)
            &&& opt_field_accepts::<SymbolLayoutLayerTextOffset>(o, "text-offset"@)
            &&& opt_field_accepts::<SymbolLayoutLayerTextOptional>(o, "text-optional"@)
            &&& opt_field_accepts::<SymbolLayoutLayerTextOverlap>(o, "text-overlap"@)
            &&& opt_field_accepts::<SymbolLayoutLayerTextPadding>(o, "text-padding"@)
            &&& opt_field_accepts::<SymbolLayoutLayerTextPitchAlignment>(o, "text-pitch-alignment"@)
            &&& opt_field_accepts::<SymbolLayoutLayerTextRadialOffset>(o, "text-radial-offset"@)
            &&& opt_field_accepts::<SymbolLayoutLayerTextRotate>(o, "text-rotate"@)
            &&& opt_field_accepts::<SymbolLayoutLayerTextRotationAlignment>(o, "text-rotation-alignment"@)
            &&& opt_field_accepts::<SymbolLayoutLayerTextSize>(o, "text-size"@)
            &&& opt_field_accepts::<SymbolLayoutLayerTextTransform>(o, "text-transform"@)
            &&& opt_field_accepts::<SymbolLayoutLayerTextVariableAnchor>(o, "text-variable-anchor"@)
            &&& opt_field_accepts::<SymbolLayoutLayerTextVariableAnchorOffset>(o, "text-variable-anchor-offset"@)
            &&& opt_field_accepts::<SymbolLayoutLayerTextWritingMode>(o, "text-writing-mode"@)
            &&& opt_field_accepts::<SymbolLayoutLayerVisibility>(o, "visibility"@)
        })
        ||| (v is Array && {
            let a = v->Array_0;
            &&& seq_opt_accepts::<SymbolLayoutLayerIconAllowOverlap>(a, 0, true)
            &&& seq_opt_accepts::<SymbolLayoutLayerIconAnchor>(a, 1, true)
            &&& seq_opt_accepts::<SymbolLayoutLayerIconIgnorePlacement>(a, 2, true)
            &&& seq_opt_accepts::<SymbolLayoutLayerIconImage>(a, 3, true)
            &&& seq_opt_accepts::<SymbolLayoutLayerIconKeepUpright>(a, 4, true)
            &&& seq_opt_accepts::<SymbolLayoutLayerIconOffset>(a, 5, true)
            &&& seq_opt_accepts::<SymbolLayoutLayerIconOptional>(a, 6, true)
            &&& seq_opt_accepts::<SymbolLayoutLayerIconOverlap>(a, 7, true)
            &&& seq_opt_accepts::<SymbolLayoutLayerIconPadding>(a, 8, true)
            &&& seq_opt_accepts::<SymbolLayoutLayerIconPitchAlignment>(a, 9, true)
            &&& seq_opt_accepts::<SymbolLayoutLayerIconRotate>(a, 10, true)
            &&& seq_opt_accepts::<SymbolLayoutLayerIconRotationAlignment>(a, 11, true)
            &&& seq_opt_accepts::<SymbolLayoutLayerIconSize>(a, 12, true)
            &&& seq_opt_accepts::<SymbolLayoutLayerIconTextFit>(a, 13, true)
            &&& seq_opt_accepts::<SymbolLayoutLayerIconTextFitPadding>(a, 14, true)
            &&& seq_opt_accepts::<SymbolLayoutLayerSymbolAvoidEdges>(a, 15, true)
            &&& seq_opt_accepts::<SymbolLayoutLayerSymbolPlacement>(a, 16, true)
            &&& seq_opt_accepts::<SymbolLayoutLayerSymbolSortKey>(a, 17, true)
            &&& seq_opt_accepts::<SymbolLayoutLayerSymbolSpacing>(a, 18, true)
            &&& seq_opt_accepts::<SymbolLayoutLayerSymbolZOrder>(a, 19, true)
            &&& seq_opt_accepts::<SymbolLayoutLayerTextAllowOverlap>(a, 20, true)
            &&& seq_opt_accepts::<SymbolLayoutLayerTextAnchor>(a, 21, true)
            &&& seq_opt_accepts::<SymbolLayoutLayerTextField>(a, 22, true)
            &&& seq_opt_accepts::<SymbolLayoutLayerTextFont>(a, 23, true)
            &&& seq_opt_accepts::<SymbolLayoutLayerTextIgnorePlacement>(a, 24, true)
            &&& seq_opt_accepts::<SymbolLayoutLayerTextJustify>(a, 25, true)
            &&& seq_opt_accepts::<SymbolLayoutLayerTextKeepUpright>(a, 26, true)
            &&& seq_opt_accepts::<SymbolLayoutLayerTextLetterSpacing>(a, 27, true)
            &&& seq_opt_accepts::<SymbolLayoutLayerTextLineHeight>(a, 28, true)
            &&& seq_opt_accepts::<SymbolLayoutLayerTextMaxAngle>(a, 29, true)
            &&& seq_opt_accepts::<SymbolLayoutLayerTextMaxWidth>(a, 30, true)
            &&& seq_opt_accepts::<SymbolLayoutLayerTextOffset>(a, 31, true)
            &&& seq_opt_accepts::<SymbolLayoutLayerTextOptional>(a, 32, true)
            &&& seq_opt_accepts::<SymbolLayoutLayerTextOverlap>(a, 33, true)
            &&& seq_opt_accepts::<SymbolLayoutLayerTextPadding>(a, 34, true)
            &&& seq_opt_accepts::<SymbolLayoutLayerTextPitchAlignment>(a, 35, true)
            &&& seq_opt_accepts::<SymbolLayoutLayerTextRadialOffset>(a, 36, true)
            &&& seq_opt_accepts::<SymbolLayoutLayerTextRotate>(a, 37, true)
            &&& seq_opt_accepts::<SymbolLayoutLayerTextRotationAlignment>(a, 38, true)
            &&& seq_opt_accepts::<SymbolLayoutLayerTextSize>(a, 39, true)
            &&& seq_opt_accepts::<SymbolLayoutLayerTextTransform>(a, 40, true)
            &&& seq_opt_accepts::<SymbolLayoutLayerTextVariableAnchor>(a, 41, true)
            &&& seq_opt_accepts::<SymbolLayoutLayerTextVariableAnchorOffset>(a, 42, true)
            &&& seq_opt_accepts::<SymbolLayoutLayerTextWritingMode>(a, 43, true)
            &&& seq_opt_accepts::<SymbolLayoutLayerVisibility>(a, 44, true)
            &&& a.len() <= 45
        })
    }

    open spec fn decodes(v: Json, x: Self) -> bool {
        ||| (v is Object && {
            let o = v->Object_0;
            &&& opt_field_decodes::<SymbolLayoutLayerIconAllowOverlap>(o, "icon-allow-overlap"@, x.icon_allow_overlap)
            &&& opt_field_decodes::<SymbolLayoutLayerIconAnchor>(o, "icon-anchor"@, x.icon_anchor)
            &&& opt_field_decodes::<SymbolLayoutLayerIconIgnorePlacement>(o, "icon-ignore-placement"@, x.icon_ignore_placement)
            &&& opt_field_decodes::<SymbolLayoutLayerIconImage>(o, "icon-image"@, x.icon_image)
            &&& opt_field_decodes::<SymbolLayoutLayerIconKeepUpright>(o, "icon-keep-upright"@, x.icon_keep_upright)
            &&& opt_field_decodes::<SymbolLayoutLayerIconOffset>(o, "icon-offset"@, x.icon_offset)
            &&& opt_field_decodes::<SymbolLayoutLayerIconOptional>(o, "icon-optional"@, x.icon_optional)
            &&& opt_field_decodes::<SymbolLayoutLayerIconOverlap>(o, "icon-overlap"@, x.icon_overlap)
            &&& opt_field_decodes::<SymbolLayoutLayerIconPadding>(o, "icon-padding"@, x.icon_padding)
            &&& opt_field_decodes::<SymbolLayoutLayerIconPitchAlignment>(o, "icon-pitch-alignment"@, x.icon_pitch_alignment)
            &&& opt_field_decodes::<SymbolLayoutLayerIconRotate>(o, "icon-rotate"@, x.icon_rotate)
            &&& opt_field_decodes::<SymbolLayoutLayerIconRotationAlignment>(o, "icon-rotation-alignment"@, x.icon_rotation_alignment)
            &&& opt_field_decodes::<SymbolLayoutLayerIconSize>(o, "icon-size"@, x.icon_size)
            &&& opt_field_decodes::<SymbolLayoutLayerIconTextFit>(o, "icon-text-fit"@, x.icon_text_fit)
            &&& opt_field_decodes::<SymbolLayoutLayerIconTextFitPadding>(o, "icon-text-fit-padding"@, x.icon_text_fit_padding)
            &&& opt_field_decodes::<SymbolLayoutLayerSymbolAvoidEdges>(o, "symbol-avoid-edges"@, x.symbol_avoid_edges)
            &&& opt_field_decodes::<SymbolLayoutLayerSymbolPlacement>(o, "symbol-placement"@, x.symbol_placement)
            &&& opt_field_decodes::<SymbolLayoutLayerSymbolSortKey>(o, "symbol-sort-key"@, x.symbol_sort_key)
            &&& opt_field_decodes::<SymbolLayoutLayerSymbolSpacing>(o, "symbol-spacing"@, x.symbol_spacing)
            &&& opt_field_decodes::<SymbolLayoutLayerSymbolZOrder>(o, "symbol-z-order"@, x.symbol_z_order)
            &&& opt_field_decodes::<SymbolLayoutLayerTextAllowOverlap>(o, "text-allow-overlap"@, x.text_allow_overlap)
            &&& opt_field_decodes::<SymbolLayoutLayerTextAnchor>(o, "text-anchor"@, x.text_anchor)
            &&& opt_field_decodes::<SymbolLayoutLayerTextField>(o, "text-field"@, x.text_field)
            &&& opt_field_decodes::<SymbolLayoutLayerTextFont>(o, "text-font"@, x.text_font)
            &&& opt_field_decodes::<SymbolLayoutLayerTextIgnorePlacement>(o, "text-ignore-placement"@, x.text_ignore_placement)
            &&& opt_field_decodes::<SymbolLayoutLayerTextJustify>(o, "text-justify"@, x.text_justify)
            &&& opt_field_decodes::<SymbolLayoutLayerTextKeepUpright>(o, "text-keep-upright"@, x.text_keep_upright)
            &&& opt_field_decodes::<SymbolLayoutLayerTextLetterSpacing>(o, "text-letter-spacing"@, x.text_letter_spacing)
            &&& opt_field_decodes::<SymbolLayoutLayerTextLineHeight>(o, "text-line-height"@, x.text_line_height)
            &&& opt_field_decodes::<SymbolLayoutLayerTextMaxAngle>(o, "text-max-angle"@, x.text_max_angle)
            &&& opt_field_decodes::<SymbolLayoutLayerTextMaxWidth>(o, "text-max-width"@, x.text_max_width)
            &&& opt_field_decodes::<SymbolLayoutLayerTextOffset>(o, "text-offset"@, x.text_offset)
            &&& opt_field_decodes::<SymbolLayoutLayerTextOptional>(o, "text-optional"@, x.text_optional)
            &&& opt_field_decodes::<SymbolLayoutLayerTextOverlap>(o, "text-overlap"@, x.text_overlap)
            &&& opt_field_decodes::<SymbolLayoutLayerTextPadding>(o, "text-padding"@, x.text_padding)
            &&& opt_field_decodes::<SymbolLayoutLayerTextPitchAlignment>(o, "text-pitch-alignment"@, x.text_pitch_alignment)
            &&& opt_field_decodes::<SymbolLayoutLayerTextRadialOffset>(o, "text-radial-offset"@, x.text_radial_offset)
            &&& opt_field_decodes::<SymbolLayoutLayerTextRotate>(o, "text-rotate"@, x.text_rotate)
            &&& opt_field_decodes::<SymbolLayoutLayerTextRotationAlignment>(o, "text-rotation-alignment"@, x.text_rotation_alignment)
            &&& opt_field_decodes::<SymbolLayoutLayerTextSize>(o, "text-size"@, x.text_size)
            &&& opt_field_decodes::<SymbolLayoutLayerTextTransform>(o, "text-transform"@, x.text_transform)
            &&& opt_field_decodes::<SymbolLayoutLayerTextVariableAnchor>(o, "text-variable-anchor"@, x.text_variable_anchor)
            &&& opt_field_decodes::<SymbolLayoutLayerTextVariableAnchorOffset>(o, "text-variable-anchor-offset"@, x.text_variable_anchor_offset)
            &&& opt_field_decodes::<SymbolLayoutLayerTextWritingMode>(o, "text-writing-mode"@, x.text_writing_mode)
            &&& opt_field_decodes::<SymbolLayoutLayerVisibility>(o, "visibility"@, x.visibility)
        })
        ||| (v is Array && {
            let a = v->Array_0;
            &&& seq_opt_decodes::<SymbolLayoutLayerIconAllowOverlap>(a, 0, x.icon_allow_overlap)
            &&& seq_opt_decodes::<SymbolLayoutLayerIconAnchor>(a, 1, x.icon_anchor)
            &&& seq_opt_decodes::<SymbolLayoutLayerIconIgnorePlacement>(a, 2, x.icon_ignore_placement)
            &&& seq_opt_decodes::<SymbolLayoutLayerIconImage>(a, 3, x.icon_image)
            &&& seq_opt_decodes::<SymbolLayoutLayerIconKeepUpright>(a, 4, x.icon_keep_upright)
            &&& seq_opt_decodes::<SymbolLayoutLayerIconOffset>(a, 5, x.icon_offset)
            &&& seq_opt_decodes::<SymbolLayoutLayerIconOptional>(a, 6, x.icon_optional)
            &&& seq_opt_decodes::<SymbolLayoutLayerIconOverlap>(a, 7, x.icon_overlap)
            &&& seq_opt_decodes::<SymbolLayoutLayerIconPadding>(a, 8, x.icon_padding)
            &&& seq_opt_decodes::<SymbolLayoutLayerIconPitchAlignment>(a, 9, x.icon_pitch_alignment)
            &&& seq_opt_decodes::<SymbolLayoutLayerIconRotate>(a, 10, x.icon_rotate)
            &&& seq_opt_decodes::<SymbolLayoutLayerIconRotationAlignment>(a, 11, x.icon_rotation_alignment)
            &&& seq_opt_decodes::<SymbolLayoutLayerIconSize>(a, 12, x.icon_size)
            &&& seq_opt_decodes::<SymbolLayoutLayerIconTextFit>(a, 13, x.icon_text_fit)
            &&& seq_opt_decodes::<SymbolLayoutLayerIconTextFitPadding>(a, 14, x.icon_text_fit_padding)
            &&& seq_opt_decodes::<SymbolLayoutLayerSymbolAvoidEdges>(a, 15, x.symbol_avoid_edges)
            &&& seq_opt_decodes::<SymbolLayoutLayerSymbolPlacement>(a, 16, x.symbol_placement)
            &&& seq_opt_decodes::<SymbolLayoutLayerSymbolSortKey>(a, 17, x.symbol_sort_key)
            &&& seq_opt_decodes::<SymbolLayoutLayerSymbolSpacing>(a, 18, x.symbol_spacing)
            &&& seq_opt_decodes::<SymbolLayoutLayerSymbolZOrder>(a, 19, x.symbol_z_order)
            &&& seq_opt_decodes::<SymbolLayoutLayerTextAllowOverlap>(a, 20, x.text_allow_overlap)
            &&& seq_opt_decodes::<SymbolLayoutLayerTextAnchor>(a, 21, x.text_anchor)
            &&& seq_opt_decodes::<SymbolLayoutLayerTextField>(a, 22, x.text_field)
            &&& seq_opt_decodes::<SymbolLayoutLayerTextFont>(a, 23, x.text_font)
            &&& seq_opt_decodes::<SymbolLayoutLayerTextIgnorePlacement>(a, 24, x.text_ignore_placement)
            &&& seq_opt_decodes::<SymbolLayoutLayerTextJustify>(a, 25, x.text_justify)
            &&& seq_opt_decodes::<SymbolLayoutLayerTextKeepUpright>(a, 26, x.text_keep_upright)
            &&& seq_opt_decodes::<SymbolLayoutLayerTextLetterSpacing>(a, 27, x.text_letter_spacing)
            &&& seq_opt_decodes::<SymbolLayoutLayerTextLineHeight>(a, 28, x.text_line_height)
            &&& seq_opt_decodes::<SymbolLayoutLayerTextMaxAngle>(a, 29, x.text_max_angle)
            &&& seq_opt_decodes::<SymbolLayoutLayerTextMaxWidth>(a, 30, x.text_max_width)
            &&& seq_opt_decodes::<SymbolLayoutLayerTextOffset>(a, 31, x.text_offset)
            &&& seq_opt_decodes::<SymbolLayoutLayerTextOptional>(a, 32, x.text_optional)
            &&& seq_opt_decodes::<SymbolLayoutLayerTextOverlap>(a, 33, x.text_overlap)
            &&& seq_opt_decodes::<SymbolLayoutLayerTextPadding>(a, 34, x.text_padding)
            &&& seq_opt_decodes::<SymbolLayoutLayerTextPitchAlignment>(a, 35, x.text_pitch_alignment)
            &&& seq_opt_decodes::<SymbolLayoutLayerTextRadialOffset>(a, 36, x.text_radial_offset)
            &&& seq_opt_decodes::<SymbolLayoutLayerTextRotate>(a, 37, x.text_rotate)
            &&& seq_opt_decodes::<SymbolLayoutLayerTextRotationAlignment>(a, 38, x.text_rotation_alignment)
            &&& seq_opt_decodes::<SymbolLayoutLayerTextSize>(a, 39, x.text_size)
            &&& seq_opt_decodes::<SymbolLayoutLayerTextTransform>(a, 40, x.text_transform)
            &&& seq_opt_decodes::<SymbolLayoutLayerTextVariableAnchor>(a, 41, x.text_variable_anchor)
            &&& seq_opt_decodes::<SymbolLayoutLayerTextVariableAnchorOffset>(a, 42, x.text_variable_anchor_offset)
            &&& seq_opt_decodes::<SymbolLayoutLayerTextWritingMode>(a, 43, x.text_writing_mode)
            &&& seq_opt_decodes::<SymbolLayoutLayerVisibility>(a, 44, x.visibility)
        })
    }

    /// For an object, the first entry in order whose value does not read as its field, else the
    /// first required field that is missing.
    open spec fn rejection(v: Json) -> Seq<char> {
        if v is Object {
            let o = v->Object_0;
            match Self::first_fault(o, 0) {
                Some(m) => m,
                None => {
                    Seq::empty()
                },
            }
        } else if v is Array {
            let a = v->Array_0;
            if !seq_opt_accepts::<SymbolLayoutLayerIconAllowOverlap>(a, 0, true) {
                seq_opt_rejection::<SymbolLayoutLayerIconAllowOverlap>(a, 0, "struct SymbolLayoutLayer with 45 elements"@)
            } else if !seq_opt_accepts::<SymbolLayoutLayerIconAnchor>(a, 1, true) {
                seq_opt_rejection::<SymbolLayoutLayerIconAnchor>(a, 1, "struct SymbolLayoutLayer with 45 elements"@)
            } else if !seq_opt_accepts::<SymbolLayoutLayerIconIgnorePlacement>(a, 2, true) {
                seq_opt_rejection::<SymbolLayoutLayerIconIgnorePlacement>(a, 2, "struct SymbolLayoutLayer with 45 elements"@)
            } else if !seq_opt_accepts::<SymbolLayoutLayerIconImage>(a, 3, true) {
                seq_opt_rejection::<SymbolLayoutLayerIconImage>(a, 3, "struct SymbolLayoutLayer with 45 elements"@)
            } else if !seq_opt_accepts::<SymbolLayoutLayerIconKeepUpright>(a, 4, true) {
                seq_opt_rejection::<SymbolLayoutLayerIconKeepUpright>(a, 4, "struct SymbolLayoutLayer with 45 elements"@)
            } else if !seq_opt_accepts::<SymbolLayoutLayerIconOffset>(a, 5, true) {
                seq_opt_rejection::<SymbolLayoutLayerIconOffset>(a, 5, "struct SymbolLayoutLayer with 45 elements"@)
            } else if !seq_opt_accepts::<SymbolLayoutLayerIconOptional>(a, 6, true) {
                seq_opt_rejection::<SymbolLayoutLayerIconOptional>(a, 6, "struct SymbolLayoutLayer with 45 elements"@)
            } else if !seq_opt_accepts::<SymbolLayoutLayerIconOverlap>(a, 7, true) {
                seq_opt_rejection::<SymbolLayoutLayerIconOverlap>(a, 7, "struct SymbolLayoutLayer with 45 elements"@)
            } else if !seq_opt_accepts::<SymbolLayoutLayerIconPadding>(a, 8, true) {
                seq_opt_rejection::<SymbolLayoutLayerIconPadding>(a, 8, "struct SymbolLayoutLayer with 45 elements"@)
            } else if !seq_opt_accepts::<SymbolLayoutLayerIconPitchAlignment>(a, 9, true) {
                seq_opt_rejection::<SymbolLayoutLayerIconPitchAlignment>(a, 9, "struct SymbolLayoutLayer with 45 elements"@)
            } else if !seq_opt_accepts::<SymbolLayoutLayerIconRotate>(a, 10, true) {
                seq_opt_rejection::<SymbolLayoutLayerIconRotate>(a, 10, "struct SymbolLayoutLayer with 45 elements"@)
            } else if !seq_opt_accepts::<SymbolLayoutLayerIconRotationAlignment>(a, 11, true) {
                seq_opt_rejection::<SymbolLayoutLayerIconRotationAlignment>(a, 11, "struct SymbolLayoutLayer with 45 elements"@)
            } else if !seq_opt_accepts::<SymbolLayoutLayerIconSize>(a, 12, true) {
                seq_opt_rejection::<SymbolLayoutLayerIconSize>(a, 12, "struct SymbolLayoutLayer with 45 elements"@)
            } else if !seq_opt_accepts::<SymbolLayoutLayerIconTextFit>(a, 13, true) {
                seq_opt_rejection::<SymbolLayoutLayerIconTextFit>(a, 13, "struct SymbolLayoutLayer with 45 elements"@)
            } else if !seq_opt_accepts::<SymbolLayoutLayerIconTextFitPadding>(a, 14, true) {
                seq_opt_rejection::<SymbolLayoutLayerIconTextFitPadding>(a, 14, "struct SymbolLayoutLayer with 45 elements"@)
            } else if !seq_opt_accepts::<SymbolLayoutLayerSymbolAvoidEdges>(a, 15, true) {
                seq_opt_rejection::<SymbolLayoutLayerSymbolAvoidEdges>(a, 15, "struct SymbolLayoutLayer with 45 elements"@)
            } else if !seq_opt_accepts::<SymbolLayoutLayerSymbolPlacement>(a, 16, true) {
                seq_opt_rejection::<SymbolLayoutLayerSymbolPlacement>(a, 16, "struct SymbolLayoutLayer with 45 elements"@)
            } else if !seq_opt_accepts::<SymbolLayoutLayerSymbolSortKey>(a, 17, true) {
                seq_opt_rejection::<SymbolLayoutLayerSymbolSortKey>(a, 17, "struct SymbolLayoutLayer with 45 elements"@)
            } else if !seq_opt_accepts::<SymbolLayoutLayerSymbolSpacing>(a, 18, true) {
                seq_opt_rejection::<SymbolLayoutLayerSymbolSpacing>(a, 18, "struct SymbolLayoutLayer with 45 elements"@)
            } else if !seq_opt_accepts::<SymbolLayoutLayerSymbolZOrder>(a, 19, true) {
                seq_opt_rejection::<SymbolLayoutLayerSymbolZOrder>(a, 19, "struct SymbolLayoutLayer with 45 elements"@)
            } else if !seq_opt_accepts::<SymbolLayoutLayerTextAllowOverlap>(a, 20, true) {
                seq_opt_rejection::<SymbolLayoutLayerTextAllowOverlap>(a, 20, "struct SymbolLayoutLayer with 45 elements"@)
            } else if !seq_opt_accepts::<SymbolLayoutLayerTextAnchor>(a, 21, true) {
                seq_opt_rejection::<SymbolLayoutLayerTextAnchor>(a, 21, "struct SymbolLayoutLayer with 45 elements"@)
            } else if !seq_opt_accepts::<SymbolLayoutLayerTextField>(a, 22, true) {
                seq_opt_rejection::<SymbolLayoutLayerTextField>(a, 22, "struct SymbolLayoutLayer with 45 elements"@)
            } else if !seq_opt_accepts::<SymbolLayoutLayerTextFont>(a, 23, true) {
                seq_opt_rejection::<SymbolLayoutLayerTextFont>(a, 23, "struct SymbolLayoutLayer with 45 elements"@)
            } else if !seq_opt_accepts::<SymbolLayoutLayerTextIgnorePlacement>(a, 24, true) {
                seq_opt_rejection::<SymbolLayoutLayerTextIgnorePlacement>(a, 24, "struct SymbolLayoutLayer with 45 elements"@)
            } else if !seq_opt_accepts::<SymbolLayoutLayerTextJustify>(a, 25, true) {
                seq_opt_rejection::<SymbolLayoutLayerTextJustify>(a, 25, "struct SymbolLayoutLayer with 45 elements"@)
            } else if !seq_opt_accepts::<SymbolLayoutLayerTextKeepUpright>(a, 26, true) {
                seq_opt_rejection::<SymbolLayoutLayerTextKeepUpright>(a, 26, "struct SymbolLayoutLayer with 45 elements"@)
            } else if !seq_opt_accepts::<SymbolLayoutLayerTextLetterSpacing>(a, 27, true) {
                seq_opt_rejection::<SymbolLayoutLayerTextLetterSpacing>(a, 27, "struct SymbolLayoutLayer with 45 elements"@)
            } else if !seq_opt_accepts::<SymbolLayoutLayerTextLineHeight>(a, 28, true) {
                seq_opt_rejection::<SymbolLayoutLayerTextLineHeight>(a, 28, "struct SymbolLayoutLayer with 45 elements"@)
            } else if !seq_opt_accepts::<SymbolLayoutLayerTextMaxAngle>(a, 29, true) {
                seq_opt_rejection::<SymbolLayoutLayerTextMaxAngle>(a, 29, "struct SymbolLayoutLayer with 45 elements"@)
            } else if !seq_opt_accepts::<SymbolLayoutLayerTextMaxWidth>(a, 30, true) {
                seq_opt_rejection::<SymbolLayoutLayerTextMaxWidth>(a, 30, "struct SymbolLayoutLayer with 45 elements"@)
            } else if !seq_opt_accepts::<SymbolLayoutLayerTextOffset>(a, 31, true) {
                seq_opt_rejection::<SymbolLayoutLayerTextOffset>(a, 31, "struct SymbolLayoutLayer with 45 elements"@)
            } else if !seq_opt_accepts::<SymbolLayoutLayerTextOptional>(a, 32, true) {
                seq_opt_rejection::<SymbolLayoutLayerTextOptional>(a, 32, "struct SymbolLayoutLayer with 45 elements"@)
            } else if !seq_opt_accepts::<SymbolLayoutLayerTextOverlap>(a, 33, true) {
                seq_opt_rejection::<SymbolLayoutLayerTextOverlap>(a, 33, "struct SymbolLayoutLayer with 45 elements"@)
            } else if !seq_opt_accepts::<SymbolLayoutLayerTextPadding>(a, 34, true) {
                seq_opt_rejection::<SymbolLayoutLayerTextPadding>(a, 34, "struct SymbolLayoutLayer with 45 elements"@)
            } else if !seq_opt_accepts::<SymbolLayoutLayerTextPitchAlignment>(a, 35, true) {
                seq_opt_rejection::<SymbolLayoutLayerTextPitchAlignment>(a, 35, "struct SymbolLayoutLayer with 45 elements"@)
            } else if !seq_opt_accepts::<SymbolLayoutLayerTextRadialOffset>(a, 36, true) {
                seq_opt_rejection::<SymbolLayoutLayerTextRadialOffset>(a, 36, "struct SymbolLayoutLayer with 45 elements"@)
            } else if !seq_opt_accepts::<SymbolLayoutLayerTextRotate>(a, 37, true) {
                seq_opt_rejection::<SymbolLayoutLayerTextRotate>(a, 37, "struct SymbolLayoutLayer with 45 elements"@)
            } else if !seq_opt_accepts::<SymbolLayoutLayerTextRotationAlignment>(a, 38, true) {
                seq_opt_rejection::<SymbolLayoutLayerTextRotationAlignment>(a, 38, "struct SymbolLayoutLayer with 45 elements"@)
            } else if !seq_opt_accepts::<SymbolLayoutLayerTextSize>(a, 39, true) {
                seq_opt_rejection::<SymbolLayoutLayerTextSize>(a, 39, "struct SymbolLayoutLayer with 45 elements"@)
            } else if !seq_opt_accepts::<SymbolLayoutLayerTextTransform>(a, 40, true) {
                seq_opt_rejection::<SymbolLayoutLayerTextTransform>(a, 40, "struct SymbolLayoutLayer with 45 elements"@)
            } else if !seq_opt_accepts::<SymbolLayoutLayerTextVariableAnchor>(a, 41, true) {
                seq_opt_rejection::<SymbolLayoutLayerTextVariableAnchor>(a, 41, "struct SymbolLayoutLayer with 45 elements"@)
            } else if !seq_opt_accepts::<SymbolLayoutLayerTextVariableAnchorOffset>(a, 42, true) {
                seq_opt_rejection::<SymbolLayoutLayerTextVariableAnchorOffset>(a, 42, "struct SymbolLayoutLayer with 45 elements"@)
            } else if !seq_opt_accepts::<SymbolLayoutLayerTextWritingMode>(a, 43, true) {
                seq_opt_rejection::<SymbolLayoutLayerTextWritingMode>(a, 43, "struct SymbolLayoutLayer with 45 elements"@)
            } else if !seq_opt_accepts::<SymbolLayoutLayerVisibility>(a, 44, true) {
                seq_opt_rejection::<SymbolLayoutLayerVisibility>(a, 44, "struct SymbolLayoutLayer with 45 elements"@)
            } else if a.len() > 45 {
                length_error(a.len())
            } else {
                Seq::empty()
            }
        } else {
            type_error(v, "struct SymbolLayoutLayer"@)
        }
    }

    fn decode(v: &JsonValue) -> (r: Result<Self, String>) {
        match v {
            JsonValue::Object(fields) => {
                let icon_allow_overlap = match decode_opt_field::<SymbolLayoutLayerIconAllowOverlap>(fields, "icon-allow-overlap") {
                    Ok(x) => x,
                    Err(_) => return Err(Self::object_rejection(fields)),
                };
                let icon_anchor = match decode_opt_field::<SymbolLayoutLayerIconAnchor>(fields, "icon-anchor") {
                    Ok(x) => x,
                    Err(_) => return Err(Self::object_rejection(fields)),
                };
                let icon_ignore_placement = match decode_opt_field::<SymbolLayoutLayerIconIgnorePlacement>(fields, "icon-ignore-placement") {
                    Ok(x) => x,
                    Err(_) => return Err(Self::object_rejection(fields)),
                };
                let icon_image = match decode_opt_field::<SymbolLayoutLayerIconImage>(fields, "icon-image") {
                    Ok(x) => x,
                    Err(_) => return Err(Self::object_rejection(fields)),
                };
                let icon_keep_upright = match decode_opt_field::<SymbolLayoutLayerIconKeepUpright>(fields, "icon-keep-upright") {
                    Ok(x) => x,
                    Err(_) => return Err(Self::object_rejection(fields)),
                };
                let icon_offset = match decode_opt_field::<SymbolLayoutLayerIconOffset>(fields, "icon-offset") {
                    Ok(x) => x,
                    Err(_) => return Err(Self::object_rejection(fields)),
                };
                let icon_optional = match decode_opt_field::<SymbolLayoutLayerIconOptional>(fields, "icon-optional") {
                    Ok(x) => x,
                    Err(_) => return Err(Self::object_rejection(fields)),
                };
                let icon_overlap = match decode_opt_field::<SymbolLayoutLayerIconOverlap>(fields, "icon-overlap") {
                    Ok(x) => x,
                    Err(_) => return Err(Self::object_rejection(fields)),
                };
                let icon_padding = match decode_opt_field::<SymbolLayoutLayerIconPadding>(fields, "icon-padding") {
                    Ok(x) => x,
                    Err(_) => return Err(Self::object_rejection(fields)),
                };
                let icon_pitch_alignment = match decode_opt_field::<SymbolLayoutLayerIconPitchAlignment>(fields, "icon-pitch-alignment") {
                    Ok(x) => x,
                    Err(_) => return Err(Self::object_rejection(fields)),
                };
                let icon_rotate = match decode_opt_field::<SymbolLayoutLayerIconRotate>(fields, "icon-rotate") {
                    Ok(x) => x,
                    Err(_) => return Err(Self::object_rejection(fields)),
                };
                let icon_rotation_alignment = match decode_opt_field::<SymbolLayoutLayerIconRotationAlignment>(fields, "icon-rotation-alignment") {
                    Ok(x) => x,
                    Err(_) => return Err(Self::object_rejection(fields)),
                };
                let icon_size = match decode_opt_field::<SymbolLayoutLayerIconSize>(fields, "icon-size") {
                    Ok(x) => x,
                    Err(_) => return Err(Self::object_rejection(fields)),
                };
                let icon_text_fit = match decode_opt_field::<SymbolLayoutLayerIconTextFit>(fields, "icon-text-fit") {
                    Ok(x) => x,
                    Err(_) => return Err(Self::object_rejection(fields)),
                };
                let icon_text_fit_padding = match decode_opt_field::<SymbolLayoutLayerIconTextFitPadding>(fields, "icon-text-fit-padding") {
                    Ok(x) => x,
                    Err(_) => return Err(Self::object_rejection(fields)),
                };
                let symbol_avoid_edges = match decode_opt_field::<SymbolLayoutLayerSymbolAvoidEdges>(fields, "symbol-avoid-edges") {
                    Ok(x) => x,
                    Err(_) => return Err(Self::object_rejection(fields)),
                };
                let symbol_placement = match decode_opt_field::<SymbolLayoutLayerSymbolPlacement>(fields, "symbol-placement") {
                    Ok(x) => x,
                    Err(_) => return Err(Self::object_rejection(fields)),
                };
                let symbol_sort_key = match decode_opt_field::<SymbolLayoutLayerSymbolSortKey>(fields, "symbol-sort-key") {
                    Ok(x) => x,
                    Err(_) => return Err(Self::object_rejection(fields)),
                };
                let symbol_spacing = match decode_opt_field::<SymbolLayoutLayerSymbolSpacing>(fields, "symbol-spacing") {
                    Ok(x) => x,
                    Err(_) => return Err(Self::object_rejection(fields)),
                };
                let symbol_z_order = match decode_opt_field::<SymbolLayoutLayerSymbolZOrder>(fields, "symbol-z-order") {
                    Ok(x) => x,
                    Err(_) => return Err(Self::object_rejection(fields)),
                };
                let text_allow_overlap = match decode_opt_field::<SymbolLayoutLayerTextAllowOverlap>(fields, "text-allow-overlap") {
                    Ok(x) => x,
                    Err(_) => return Err(Self::object_rejection(fields)),
                };
                let text_anchor = match decode_opt_field::<SymbolLayoutLayerTextAnchor>(fields, "text-anchor") {
                    Ok(x) => x,
                    Err(_) => return Err(Self::object_rejection(fields)),
                };
                let text_field = match decode_opt_field::<SymbolLayoutLayerTextField>(fields, "text-field") {
                    Ok(x) => x,
                    Err(_) => return Err(Self::object_rejection(fields)),
                };
                let text_font = match decode_opt_field::<SymbolLayoutLayerTextFont>(fields, "text-font") {
                    Ok(x) => x,
                    Err(_) => return Err(Self::object_rejection(fields)),
                };
                let text_ignore_placement = match decode_opt_field::<SymbolLayoutLayerTextIgnorePlacement>(fields, "text-ignore-placement") {
                    Ok(x) => x,
                    Err(_) => return Err(Self::object_rejection(fields)),
                };
                let text_justify = match decode_opt_field::<SymbolLayoutLayerTextJustify>(fields, "text-justify") {
                    Ok(x) => x,
                    Err(_) => return Err(Self::object_rejection(fields)),
                };
                let text_keep_upright = match decode_opt_field::<SymbolLayoutLayerTextKeepUpright>(fields, "text-keep-upright") {
                    Ok(x) => x,
                    Err(_) => return Err(Self::object_rejection(fields)),
                };
                let text_letter_spacing = match decode_opt_field::<SymbolLayoutLayerTextLetterSpacing>(fields, "text-letter-spacing") {
                    Ok(x) => x,
                    Err(_) => return Err(Self::object_rejection(fields)),
                };
                let text_line_height = match decode_opt_field::<SymbolLayoutLayerTextLineHeight>(fields, "text-line-height") {
                    Ok(x) => x,
                    Err(_) => return Err(Self::object_rejection(fields)),
                };
                let text_max_angle = match decode_opt_field::<SymbolLayoutLayerTextMaxAngle>(fields, "text-max-angle") {
                    Ok(x) => x,
                    Err(_) => return Err(Self::object_rejection(fields)),
                };
                let text_max_width = match decode_opt_field::<SymbolLayoutLayerTextMaxWidth>(fields, "text-max-width") {
                    Ok(x) => x,
                    Err(_) => return Err(Self::object_rejection(fields)),
                };
                let text_offset = match decode_opt_field::<SymbolLayoutLayerTextOffset>(fields, "text-offset") {
                    Ok(x) => x,
                    Err(_) => return Err(Self::object_rejection(fields)),
                };
                let text_optional = match decode_opt_field::<SymbolLayoutLayerTextOptional>(fields, "text-optional") {
                    Ok(x) => x,
                    Err(_) => return Err(Self::object_rejection(fields)),
                };
                let text_overlap = match decode_opt_field::<SymbolLayoutLayerTextOverlap>(fields, "text-overlap") {
                    Ok(x) => x,
                    Err(_) => return Err(Self::object_rejection(fields)),
                };
                let text_padding = match decode_opt_field::<SymbolLayoutLayerTextPadding>(fields, "text-padding") {
                    Ok(x) => x,
                    Err(_) => return Err(Self::object_rejection(fields)),
                };
                let text_pitch_alignment = match decode_opt_field::<SymbolLayoutLayerTextPitchAlignment>(fields, "text-pitch-alignment") {
                    Ok(x) => x,
                    Err(_) => return Err(Self::object_rejection(fields)),
                };
                let text_radial_offset = match decode_opt_field::<SymbolLayoutLayerTextRadialOffset>(fields, "text-radial-offset") {
                    Ok(x) => x,
                    Err(_) => return Err(Self::object_rejection(fields)),
                };
                let text_rotate = match decode_opt_field::<SymbolLayoutLayerTextRotate>(fields, "text-rotate") {
                    Ok(x) => x,
                    Err(_) => return Err(Self::object_rejection(fields)),
                };
                let text_rotation_alignment = match decode_opt_field::<SymbolLayoutLayerTextRotationAlignment>(fields, "text-rotation-alignment") {
                    Ok(x) => x,
                    Err(_) => return Err(Self::object_rejection(fields)),
                };
                let text_size = match decode_opt_field::<SymbolLayoutLayerTextSize>(fields, "text-size") {
                    Ok(x) => x,
                    Err(_) => return Err(Self::object_rejection(fields)),
                };
                let text_transform = match decode_opt_field::<SymbolLayoutLayerTextTransform>(fields, "text-transform") {
                    Ok(x) => x,
                    Err(_) => return Err(Self::object_rejection(fields)),
                };
                let text_variable_anchor = match decode_opt_field::<SymbolLayoutLayerTextVariableAnchor>(fields, "text-variable-anchor") {
                    Ok(x) => x,
                    Err(_) => return Err(Self::object_rejection(fields)),
                };
                let text_variable_anchor_offset = match decode_opt_field::<SymbolLayoutLayerTextVariableAnchorOffset>(fields, "text-variable-anchor-offset") {
                    Ok(x) => x,
                    Err(_) => return Err(Self::object_rejection(fields)),
                };
                let text_writing_mode = match decode_opt_field::<SymbolLayoutLayerTextWritingMode>(fields, "text-writing-mode") {
                    Ok(x) => x,
                    Err(_) => return Err(Self::object_rejection(fields)),
                };
                let visibility = match decode_opt_field::<SymbolLayoutLayerVisibility>(fields, "visibility") {
                    Ok(x) => x,
                    Err(_) => return Err(Self::object_rejection(fields)),
                };
                Ok(SymbolLayoutLayer { icon_allow_overlap, icon_anchor, icon_ignore_placement, icon_image, icon_keep_upright, icon_offset, icon_optional, icon_overlap, icon_padding, icon_pitch_alignment, icon_rotate, icon_rotation_alignment, icon_size, icon_text_fit, icon_text_fit_padding, symbol_avoid_edges, symbol_placement, symbol_sort_key, symbol_spacing, symbol_z_order, text_allow_overlap, text_anchor, text_field, text_font, text_ignore_placement, text_justify, text_keep_upright, text_letter_spacing, text_line_height, text_max_angle, text_max_width, text_offset, text_optional, text_overlap, text_padding, text_pitch_alignment, text_radial_offset, text_rotate, text_rotation_alignment, text_size, text_transform, text_variable_anchor, text_variable_anchor_offset, text_writing_mode, visibility })
            },
            JsonValue::Array(a) => {
                let icon_allow_overlap = match decode_seq_opt::<SymbolLayoutLayerIconAllowOverlap>(a, 0, true, "struct SymbolLayoutLayer with 45 elements") {
                    Ok(x) => x,
                    Err(e) => return Err(e),
                };
                let icon_anchor = match decode_seq_opt::<SymbolLayoutLayerIconAnchor>(a, 1, true, "struct SymbolLayoutLayer with 45 elements") {
                    Ok(x) => x,
                    Err(e) => return Err(e),
                };
                let icon_ignore_placement = match decode_seq_opt::<SymbolLayoutLayerIconIgnorePlacement>(a, 2, true, "struct SymbolLayoutLayer with 45 elements") {
                    Ok(x) => x,
                    Err(e) => return Err(e),
                };
                let icon_image = match decode_seq_opt::<SymbolLayoutLayerIconImage>(a, 3, true, "struct SymbolLayoutLayer with 45 elements") {
                    Ok(x) => x,
                    Err(e) => return Err(e),
                };
                let icon_keep_upright = match decode_seq_opt::<SymbolLayoutLayerIconKeepUpright>(a, 4, true, "struct SymbolLayoutLayer with 45 elements") {
                    Ok(x) => x,
                    Err(e) => return Err(e),
                };
                let icon_offset = match decode_seq_opt::<SymbolLayoutLayerIconOffset>(a, 5, true, "struct SymbolLayoutLayer with 45 elements") {
                    Ok(x) => x,
                    Err(e) => return Err(e),
                };
                let icon_optional = match decode_seq_opt::<SymbolLayoutLayerIconOptional>(a, 6, true, "struct SymbolLayoutLayer with 45 elements") {
                    Ok(x) => x,
                    Err(e) => return Err(e),
                };
                let icon_overlap = match decode_seq_opt::<SymbolLayoutLayerIconOverlap>(a, 7, true, "struct SymbolLayoutLayer with 45 elements") {
                    Ok(x) => x,
                    Err(e) => return Err(e),
                };
                let icon_padding = match decode_seq_opt::<SymbolLayoutLayerIconPadding>(a, 8, true, "struct SymbolLayoutLayer with 45 elements") {
                    Ok(x) => x,
                    Err(e) => return Err(e),
                };
                let icon_pitch_alignment = match decode_seq_opt::<SymbolLayoutLayerIconPitchAlignment>(a, 9, true, "struct SymbolLayoutLayer with 45 elements") {
                    Ok(x) => x,
                    Err(e) => return Err(e),
                };
                let icon_rotate = match decode_seq_opt::<SymbolLayoutLayerIconRotate>(a, 10, true, "struct SymbolLayoutLayer with 45 elements") {
                    Ok(x) => x,
                    Err(e) => return Err(e),
                };
                let icon_rotation_alignment = match decode_seq_opt::<SymbolLayoutLayerIconRotationAlignment>(a, 11, true, "struct SymbolLayoutLayer with 45 elements") {
                    Ok(x) => x,
                    Err(e) => return Err(e),
                };
                let icon_size = match decode_seq_opt::<SymbolLayoutLayerIconSize>(a, 12, true, "struct SymbolLayoutLayer with 45 elements") {
                    Ok(x) => x,
                    Err(e) => return Err(e),
                };
                let icon_text_fit = match decode_seq_opt::<SymbolLayoutLayerIconTextFit>(a, 13, true, "struct SymbolLayoutLayer with 45 elements") {
                    Ok(x) => x,
                    Err(e) => return Err(e),
                };
                let icon_text_fit_padding = match decode_seq_opt::<SymbolLayoutLayerIconTextFitPadding>(a, 14, true, "struct SymbolLayoutLayer with 45 elements") {
                    Ok(x) => x,
                    Err(e) => return Err(e),
                };
                let symbol_avoid_edges = match decode_seq_opt::<SymbolLayoutLayerSymbolAvoidEdges>(a, 15, true, "struct SymbolLayoutLayer with 45 elements") {
                    Ok(x) => x,
                    Err(e) => return Err(e),
                };
                let symbol_placement = match decode_seq_opt::<SymbolLayoutLayerSymbolPlacement>(a, 16, true, "struct SymbolLayoutLayer with 45 elements") {
                    Ok(x) => x,
                    Err(e) => return Err(e),
                };
                let symbol_sort_key = match decode_seq_opt::<SymbolLayoutLayerSymbolSortKey>(a, 17, true, "struct SymbolLayoutLayer with 45 elements") {
                    Ok(x) => x,
                    Err(e) => return Err(e),
                };
                let symbol_spacing = match decode_seq_opt::<SymbolLayoutLayerSymbolSpacing>(a, 18, true, "struct SymbolLayoutLayer with 45 elements") {
                    Ok(x) => x,
                    Err(e) => return Err(e),
                };
                let symbol_z_order = match decode_seq_opt::<SymbolLayoutLayerSymbolZOrder>(a, 19, true, "struct SymbolLayoutLayer with 45 elements") {
                    Ok(x) => x,
                    Err(e) => return Err(e),
                };
                let text_allow_overlap = match decode_seq_opt::<SymbolLayoutLayerTextAllowOverlap>(a, 20, true, "struct SymbolLayoutLayer with 45 elements") {
                    Ok(x) => x,
                    Err(e) => return Err(e),
                };
                let text_anchor = match decode_seq_opt::<SymbolLayoutLayerTextAnchor>(a, 21, true, "struct SymbolLayoutLayer with 45 elements") {
                    Ok(x) => x,
                    Err(e) => return Err(e),
                };
                let text_field = match decode_seq_opt::<SymbolLayoutLayerTextField>(a, 22, true, "struct SymbolLayoutLayer with 45 elements") {
                    Ok(x) => x,
                    Err(e) => return Err(e),
                };
                let text_font = match decode_seq_opt::<SymbolLayoutLayerTextFont>(a, 23, true, "struct SymbolLayoutLayer with 45 elements") {
                    Ok(x) => x,
                    Err(e) => return Err(e),
                };
                let text_ignore_placement = match decode_seq_opt::<SymbolLayoutLayerTextIgnorePlacement>(a, 24, true, "struct SymbolLayoutLayer with 45 elements") {
                    Ok(x) => x,
                    Err(e) => return Err(e),
                };
                let text_justify = match decode_seq_opt::<SymbolLayoutLayerTextJustify>(a, 25, true, "struct SymbolLayoutLayer with 45 elements") {
                    Ok(x) => x,
                    Err(e) => return Err(e),
                };
                let text_keep_upright = match decode_seq_opt::<SymbolLayoutLayerTextKeepUpright>(a, 26, true, "struct SymbolLayoutLayer with 45 elements") {
                    Ok(x) => x,
                    Err(e) => return Err(e),
                };
                let text_letter_spacing = match decode_seq_opt::<SymbolLayoutLayerTextLetterSpacing>(a, 27, true, "struct SymbolLayoutLayer with 45 elements") {
                    Ok(x) => x,
                    Err(e) => return Err(e),
                };
                let text_line_height = match decode_seq_opt::<SymbolLayoutLayerTextLineHeight>(a, 28, true, "struct SymbolLayoutLayer with 45 elements") {
                    Ok(x) => x,
                    Err(e) => return Err(e),
                };
                let text_max_angle = match decode_seq_opt::<SymbolLayoutLayerTextMaxAngle>(a, 29, true, "struct SymbolLayoutLayer with 45 elements") {
                    Ok(x) => x,
                    Err(e) => return Err(e),
                };
                let text_max_width = match decode_seq_opt::<SymbolLayoutLayerTextMaxWidth>(a, 30, true, "struct SymbolLayoutLayer with 45 elements") {
                    Ok(x) => x,
                    Err(e) => return Err(e),
                };
                let text_offset = match decode_seq_opt::<SymbolLayoutLayerTextOffset>(a, 31, true, "struct SymbolLayoutLayer with 45 elements") {
                    Ok(x) => x,
                    Err(e) => return Err(e),
                };
                let text_optional = match decode_seq_opt::<SymbolLayoutLayerTextOptional>(a, 32, true, "struct SymbolLayoutLayer with 45 elements") {
                    Ok(x) => x,
                    Err(e) => return Err(e),
                };
                let text_overlap = match decode_seq_opt::<SymbolLayoutLayerTextOverlap>(a, 33, true, "struct SymbolLayoutLayer with 45 elements") {
                    Ok(x) => x,
                    Err(e) => return Err(e),
                };
                let text_padding = match decode_seq_opt::<SymbolLayoutLayerTextPadding>(a, 34, true, "struct SymbolLayoutLayer with 45 elements") {
                    Ok(x) => x,
                    Err(e) => return Err(e),
                };
                let text_pitch_alignment = match decode_seq_opt::<SymbolLayoutLayerTextPitchAlignment>(a, 35, true, "struct SymbolLayoutLayer with 45 elements") {
                    Ok(x) => x,
                    Err(e) => return Err(e),
                };
                let text_radial_offset = match decode_seq_opt::<SymbolLayoutLayerTextRadialOffset>(a, 36, true, "struct SymbolLayoutLayer with 45 elements") {
                    Ok(x) => x,
                    Err(e) => return Err(e),
                };
                let text_rotate = match decode_seq_opt::<SymbolLayoutLayerTextRotate>(a, 37, true, "struct SymbolLayoutLayer with 45 elements") {
                    Ok(x) => x,
                    Err(e) => return Err(e),
                };
                let text_rotation_alignment = match decode_seq_opt::<SymbolLayoutLayerTextRotationAlignment>(a, 38, true, "struct SymbolLayoutLayer with 45 elements") {
                    Ok(x) => x,
                    Err(e) => return Err(e),
                };
                let text_size = match decode_seq_opt::<SymbolLayoutLayerTextSize>(a, 39, true, "struct SymbolLayoutLayer with 45 elements") {
                    Ok(x) => x,
                    Err(e) => return Err(e),
                };
                let text_transform = match decode_seq_opt::<SymbolLayoutLayerTextTransform>(a, 40, true, "struct SymbolLayoutLayer with 45 elements") {
                    Ok(x) => x,
                    Err(e) => return Err(e),
                };
                let text_variable_anchor = match decode_seq_opt::<SymbolLayoutLayerTextVariableAnchor>(a, 41, true, "struct SymbolLayoutLayer with 45 elements") {
                    Ok(x) => x,
                    Err(e) => return Err(e),
                };
                let text_variable_anchor_offset = match decode_seq_opt::<SymbolLayoutLayerTextVariableAnchorOffset>(a, 42, true, "struct SymbolLayoutLayer with 45 elements") {
                    Ok(x) => x,
                    Err(e) => return Err(e),
                };
                let text_writing_mode = match decode_seq_opt::<SymbolLayoutLayerTextWritingMode>(a, 43, true, "struct SymbolLayoutLayer with 45 elements") {
                    Ok(x) => x,
                    Err(e) => return Err(e),
                };
                let visibility = match decode_seq_opt::<SymbolLayoutLayerVisibility>(a, 44, true, "struct SymbolLayoutLayer with 45 elements") {
                    Ok(x) => x,
                    Err(e) => return Err(e),
                };
                if a.len() > 45 {
                    return Err(make_length_error(a.len()));
                }
                Ok(SymbolLayoutLayer { icon_allow_overlap, icon_anchor, icon_ignore_placement, icon_image, icon_keep_upright, icon_offset, icon_optional, icon_overlap, icon_padding, icon_pitch_alignment, icon_rotate, icon_rotation_alignment, icon_size, icon_text_fit, icon_text_fit_padding, symbol_avoid_edges, symbol_placement, symbol_sort_key, symbol_spacing, symbol_z_order, text_allow_overlap, text_anchor, text_field, text_font, text_ignore_placement, text_justify, text_keep_upright, text_letter_spacing, text_line_height, text_max_angle, text_max_width, text_offset, text_optional, text_overlap, text_padding, text_pitch_alignment, text_radial_offset, text_rotate, text_rotation_alignment, text_size, text_transform, text_variable_anchor, text_variable_anchor_offset, text_writing_mode, visibility })
            },
            _ => Err(make_type_error(v, "struct SymbolLayoutLayer")),
        }
    }
}

impl SymbolLayoutLayer {
    /// What is wrong with the value `w` of an entry with key `k`, where `k` is the key of a field.
    pub open spec fn field_fault(k: Seq<char>, w: Json) -> Option<Seq<char>> {
        if k == "icon-allow-overlap"@ {
            if w is Null || SymbolLayoutLayerIconAllowOverlap::accepts(w) {
                None
            } else {
                Some(SymbolLayoutLayerIconAllowOverlap::rejection(w))
            }
        } else if k == "icon-anchor"@ {
            if w is Null || SymbolLayoutLayerIconAnchor::accepts(w) {
                None
            } else {
                Some(SymbolLayoutLayerIconAnchor::rejection(w))
            }
        } else if k == "icon-ignore-placement"@ {
            if w is Null || SymbolLayoutLayerIconIgnorePlacement::accepts(w) {
                None
            } else {
                Some(SymbolLayoutLayerIconIgnorePlacement::rejection(w))
            }
        } else if k == "icon-image"@ {
            if w is Null || SymbolLayoutLayerIconImage::accepts(w) {
                None
            } else {
                Some(SymbolLayoutLayerIconImage::rejection(w))
            }
        } else if k == "icon-keep-upright"@ {
            if w is Null || SymbolLayoutLayerIconKeepUpright::accepts(w) {
                None
            } else {
                Some(SymbolLayoutLayerIconKeepUpright::rejection(w))
            }
        } else if k == "icon-offset"@ {
            if w is Null || SymbolLayoutLayerIconOffset::accepts(w) {
                None
            } else {
                Some(SymbolLayoutLayerIconOffset::rejection(w))
            }
        } else if k == "icon-optional"@ {
            if w is Null || SymbolLayoutLayerIconOptional::accepts(w) {
                None
            } else {
                Some(SymbolLayoutLayerIconOptional::rejection(w))
            }
        } else if k == "icon-overlap"@ {
            if w is Null || SymbolLayoutLayerIconOverlap::accepts(w) {
                None
            } else {
                Some(SymbolLayoutLayerIconOverlap::rejection(w))
            }
        } else if k == "icon-padding"@ {
            if w is Null || SymbolLayoutLayerIconPadding::accepts(w) {
                None
            } else {
                Some(SymbolLayoutLayerIconPadding::rejection(w))
            }
        } else if k == "icon-pitch-alignment"@ {
            if w is Null || SymbolLayoutLayerIconPitchAlignment::accepts(w) {
                None
            } else {
                Some(SymbolLayoutLayerIconPitchAlignment::rejection(w))
            }
        } else if k == "icon-rotate"@ {
            if w is Null || SymbolLayoutLayerIconRotate::accepts(w) {
                None
            } else {
                Some(SymbolLayoutLayerIconRotate::rejection(w))
            }
        } else if k == "icon-rotation-alignment"@ {
            if w is Null || SymbolLayoutLayerIconRotationAlignment::accepts(w) {
                None
            } else {
                Some(SymbolLayoutLayerIconRotationAlignment::rejection(w))
            }
        } else if k == "icon-size"@ {
            if w is Null || SymbolLayoutLayerIconSize::accepts(w) {
                None
            } else {
                Some(SymbolLayoutLayerIconSize::rejection(w))
            }
        } else if k == "icon-text-fit"@ {
            if w is Null || SymbolLayoutLayerIconTextFit::accepts(w) {
                None
            } else {
                Some(SymbolLayoutLayerIconTextFit::rejection(w))
            }
        } else if k == "icon-text-fit-padding"@ {
            if w is Null || SymbolLayoutLayerIconTextFitPadding::accepts(w) {
                None
            } else {
                Some(SymbolLayoutLayerIconTextFitPadding::rejection(w))
            }
        } else if k == "symbol-avoid-edges"@ {
            if w is Null || SymbolLayoutLayerSymbolAvoidEdges::accepts(w) {
                None
            } else {
                Some(SymbolLayoutLayerSymbolAvoidEdges::rejection(w))
            }
        } else if k == "symbol-placement"@ {
            if w is Null || SymbolLayoutLayerSymbolPlacement::accepts(w) {
                None
            } else {
                Some(SymbolLayoutLayerSymbolPlacement::rejection(w))
            }
        } else if k == "symbol-sort-key"@ {
            if w is Null || SymbolLayoutLayerSymbolSortKey::accepts(w) {
                None
            } else {
                Some(SymbolLayoutLayerSymbolSortKey::rejection(w))
            }
        } else if k == "symbol-spacing"@ {
            if w is Null || SymbolLayoutLayerSymbolSpacing::accepts(w) {
                None
            } else {
                Some(SymbolLayoutLayerSymbolSpacing::rejection(w))
            }
        } else if k == "symbol-z-order"@ {
            if w is Null || SymbolLayoutLayerSymbolZOrder::accepts(w) {
                None
            } else {
                Some(SymbolLayoutLayerSymbolZOrder::rejection(w))
            }
        } else if k == "text-allow-overlap"@ {
            if w is Null || SymbolLayoutLayerTextAllowOverlap::accepts(w) {
                None
            } else {
                Some(SymbolLayoutLayerTextAllowOverlap::rejection(w))
            }
        } else if k == "text-anchor"@ {
            if w is Null || SymbolLayoutLayerTextAnchor::accepts(w) {
                None
            } else {
                Some(SymbolLayoutLayerTextAnchor::rejection(w))
            }
        } else if k == "text-field"@ {
            if w is Null || SymbolLayoutLayerTextField::accepts(w) {
                None
            } else {
                Some(SymbolLayoutLayerTextField::rejection(w))
            }
        } else if k == "text-font"@ {
            if w is Null || SymbolLayoutLayerTextFont::accepts(w) {
                None
            } else {
                Some(SymbolLayoutLayerTextFont::rejection(w))
            }
        } else if k == "text-ignore-placement"@ {
            if w is Null || SymbolLayoutLayerTextIgnorePlacement::accepts(w) {
                None
            } else {
                Some(SymbolLayoutLayerTextIgnorePlacement::rejection(w))
            }
        } else if k == "text-justify"@ {
            if w is Null || SymbolLayoutLayerTextJustify::accepts(w) {
                None
            } else {
                Some(SymbolLayoutLayerTextJustify::rejection(w))
            }
        } else if k == "text-keep-upright"@ {
            if w is Null || SymbolLayoutLayerTextKeepUpright::accepts(w) {
                None
            } else {
                Some(SymbolLayoutLayerTextKeepUpright::rejection(w))
            }
        } else if k == "text-letter-spacing"@ {
            if w is Null || SymbolLayoutLayerTextLetterSpacing::accepts(w) {
                None
            } else {
                Some(SymbolLayoutLayerTextLetterSpacing::rejection(w))
            }
        } else if k == "text-line-height"@ {
            if w is Null || SymbolLayoutLayerTextLineHeight::accepts(w) {
                None
            } else {
                Some(SymbolLayoutLayerTextLineHeight::rejection(w))
            }
        } else if k == "text-max-angle"@ {
            if w is Null || SymbolLayoutLayerTextMaxAngle::accepts(w) {
                None
            } else {
                Some(SymbolLayoutLayerTextMaxAngle::rejection(w))
            }
        } else if k == "text-max-width"@ {
            if w is Null || SymbolLayoutLayerTextMaxWidth::accepts(w) {
                None
            } else {
                Some(SymbolLayoutLayerTextMaxWidth::rejection(w))
            }
        } else if k == "text-offset"@ {
            if w is Null || SymbolLayoutLayerTextOffset::accepts(w) {
                None
            } else {
                Some(SymbolLayoutLayerTextOffset::rejection(w))
            }
        } else if k == "text-optional"@ {
            if w is Null || SymbolLayoutLayerTextOptional::accepts(w) {
                None
            } else {
                Some(SymbolLayoutLayerTextOptional::rejection(w))
            }
        } else if k == "text-overlap"@ {
            if w is Null || SymbolLayoutLayerTextOverlap::accepts(w) {
                None
            } else {
                Some(SymbolLayoutLayerTextOverlap::rejection(w))
            }
        } else if k == "text-padding"@ {
            if w is Null || SymbolLayoutLayerTextPadding::accepts(w) {
                None
            } else {
                Some(SymbolLayoutLayerTextPadding::rejection(w))
            }
        } else if k == "text-pitch-alignment"@ {
            if w is Null || SymbolLayoutLayerTextPitchAlignment::accepts(w) {
                None
            } else {
                Some(SymbolLayoutLayerTextPitchAlignment::rejection(w))
            }
        } else if k == "text-radial-offset"@ {
            if w is Null || SymbolLayoutLayerTextRadialOffset::accepts(w) {
                None
            } else {
                Some(SymbolLayoutLayerTextRadialOffset::rejection(w))
            }
        } else if k == "text-rotate"@ {
            if w is Null || SymbolLayoutLayerTextRotate::accepts(w) {
                None
            } else {
                Some(SymbolLayoutLayerTextRotate::rejection(w))
            }
        } else if k == "text-rotation-alignment"@ {
            if w is Null || SymbolLayoutLayerTextRotationAlignment::accepts(w) {
                None
            } else {
                Some(SymbolLayoutLayerTextRotationAlignment::rejection(w))
            }
        } else if k == "text-size"@ {
            if w is Null || SymbolLayoutLayerTextSize::accepts(w) {
                None
            } else {
                Some(SymbolLayoutLayerTextSize::rejection(w))
            }
        } else if k == "text-transform"@ {
            if w is Null || SymbolLayoutLayerTextTransform::accepts(w) {
                None
            } else {
                Some(SymbolLayoutLayerTextTransform::rejection(w))
            }
        } else if k == "text-variable-anchor"@ {
            if w is Null || SymbolLayoutLayerTextVariableAnchor::accepts(w) {
                None
            } else {
                Some(SymbolLayoutLayerTextVariableAnchor::rejection(w))
            }
        } else if k == "text-variable-anchor-offset"@ {
            if w is Null || SymbolLayoutLayerTextVariableAnchorOffset::accepts(w) {
                None
            } else {
                Some(SymbolLayoutLayerTextVariableAnchorOffset::rejection(w))
            }
        } else if k == "text-writing-mode"@ {
            if w is Null || SymbolLayoutLayerTextWritingMode::accepts(w) {
                None
            } else {
                Some(SymbolLayoutLayerTextWritingMode::rejection(w))
            }
        } else if k == "visibility"@ {
            if w is Null || SymbolLayoutLayerVisibility::accepts(w) {
                None
            } else {
                Some(SymbolLayoutLayerVisibility::rejection(w))
            }
        } else {
            None
        }
    }

    /// The message of the first entry of `o`, from entry `i` on and among the first entries of
    /// their keys, whose value does not read as its field, if any.
    pub open spec fn first_fault(o: Seq<(Seq<char>, Json)>, i: int) -> Option<Seq<char>>
        decreases o.len() - i,
    {
        if i < 0 || i >= o.len() {
            None
        } else if first_with_key(o, i) && Self::field_fault(o[i].0, o[i].1) is Some {
            Self::field_fault(o[i].0, o[i].1)
        } else {
            Self::first_fault(o, i + 1)
        }
    }

    fn find_field_fault(k: &str, w: &JsonValue) -> (r: Option<String>)
        ensures
            match r {
                Some(m) => Self::field_fault(k@, w.model()) == Some(m@),
                None => Self::field_fault(k@, w.model()) is None,
            },
    {
        if str_eq(k, "icon-allow-overlap") {
            match w {
                JsonValue::Null => None,
                _ => match SymbolLayoutLayerIconAllowOverlap::decode(w) {
                    Ok(_) => None,
                    Err(e) => Some(e),
                },
            }
        } else if str_eq(k, "icon-anchor") {
            match w {
                JsonValue::Null => None,
                _ => match SymbolLayoutLayerIconAnchor::decode(w) {
                    Ok(_) => None,
                    Err(e) => Some(e),
                },
            }
        } else if str_eq(k, "icon-ignore-placement") {
            match w {
                JsonValue::Null => None,
                _ => match SymbolLayoutLayerIconIgnorePlacement::decode(w) {
                    Ok(_) => None,
                    Err(e) => Some(e),
                },
            }
        } else if str_eq(k, "icon-image") {
            match w {
                JsonValue::Null => None,
                _ => match SymbolLayoutLayerIconImage::decode(w) {
                    Ok(_) => None,
                    Err(e) => Some(e),
                },
            }
        } else if str_eq(k, "icon-keep-upright") {
            match w {
                JsonValue::Null => None,
                _ => match SymbolLayoutLayerIconKeepUpright::decode(w) {
                    Ok(_) => None,
                    Err(e) => Some(e),
                },
            }
        } else if str_eq(k, "icon-offset") {
            match w {
                JsonValue::Null => None,
                _ => match SymbolLayoutLayerIconOffset::decode(w) {
                    Ok(_) => None,
                    Err(e) => Some(e),
                },
            }
        } else if str_eq(k, "icon-optional") {
            match w {
                JsonValue::Null => None,
                _ => match SymbolLayoutLayerIconOptional::decode(w) {
                    Ok(_) => None,
                    Err(e) => Some(e),
                },
            }
        } else if str_eq(k, "icon-overlap") {
            match w {
                JsonValue::Null => None,
                _ => match SymbolLayoutLayerIconOverlap::decode(w) {
                    Ok(_) => None,
                    Err(e) => Some(e),
                },
            }
        } else if str_eq(k, "icon-padding") {
            match w {
                JsonValue::Null => None,
                _ => match SymbolLayoutLayerIconPadding::decode(w) {
                    Ok(_) => None,
                    Err(e) => Some(e),
                },
            }
        } else if str_eq(k, "icon-pitch-alignment") {
            match w {
                JsonValue::Null => None,
                _ => match SymbolLayoutLayerIconPitchAlignment::decode(w) {
                    Ok(_) => None,
                    Err(e) => Some(e),
                },
            }
        } else if str_eq(k, "icon-rotate") {
            match w {
                JsonValue::Null => None,
                _ => match SymbolLayoutLayerIconRotate::decode(w) {
                    Ok(_) => None,
                    Err(e) => Some(e),
                },
            }
        } else if str_eq(k, "icon-rotation-alignment") {
            match w {
                JsonValue::Null => None,
                _ => match SymbolLayoutLayerIconRotationAlignment::decode(w) {
                    Ok(_) => None,
                    Err(e) => Some(e),
                },
            }
        } else if str_eq(k, "icon-size") {
            match w {
                JsonValue::Null => None,
                _ => match SymbolLayoutLayerIconSize::decode(w) {
                    Ok(_) => None,
                    Err(e) => Some(e),
                },
            }
        } else if str_eq(k, "icon-text-fit") {
            match w {
                JsonValue::Null => None,
                _ => match SymbolLayoutLayerIconTextFit::decode(w) {
                    Ok(_) => None,
                    Err(e) => Some(e),
                },
            }
        } else if str_eq(k, "icon-text-fit-padding") {
            match w {
                JsonValue::Null => None,
                _ => match SymbolLayoutLayerIconTextFitPadding::decode(w) {
                    Ok(_) => None,
                    Err(e) => Some(e),
                },
            }
        } else if str_eq(k, "symbol-avoid-edges") {
            match w {
                JsonValue::Null => None,
                _ => match SymbolLayoutLayerSymbolAvoidEdges::decode(w) {
                    Ok(_) => None,
                    Err(e) => Some(e),
                },
            }
        } else if str_eq(k, "symbol-placement") {
            match w {
                JsonValue::Null => None,
                _ => match SymbolLayoutLayerSymbolPlacement::decode(w) {
                    Ok(_) => None,
                    Err(e) => Some(e),
                },
            }
        } else if str_eq(k, "symbol-sort-key") {
            match w {
                JsonValue::Null => None,
                _ => match SymbolLayoutLayerSymbolSortKey::decode(w) {
                    Ok(_) => None,
                    Err(e) => Some(e),
                },
            }
        } else if str_eq(k, "symbol-spacing") {
            match w {
                JsonValue::Null => None,
                _ => match SymbolLayoutLayerSymbolSpacing::decode(w) {
                    Ok(_) => None,
                    Err(e) => Some(e),
                },
            }
        } else if str_eq(k, "symbol-z-order") {
            match w {
                JsonValue::Null => None,
                _ => match SymbolLayoutLayerSymbolZOrder::decode(w) {
                    Ok(_) => None,
                    Err(e) => Some(e),
                },
            }
        } else if str_eq(k, "text-allow-overlap") {
            match w {
                JsonValue::Null => None,
                _ => match SymbolLayoutLayerTextAllowOverlap::decode(w) {
                    Ok(_) => None,
                    Err(e) => Some(e),
                },
            }
        } else if str_eq(k, "text-anchor") {
            match w {
                JsonValue::Null => None,
                _ => match SymbolLayoutLayerTextAnchor::decode(w) {
                    Ok(_) => None,
                    Err(e) => Some(e),
                },
            }
        } else if str_eq(k, "text-field") {
            match w {
                JsonValue::Null => None,
                _ => match SymbolLayoutLayerTextField::decode(w) {
                    Ok(_) => None,
                    Err(e) => Some(e),
                },
            }
        } else if str_eq(k, "text-font") {
            match w {
                JsonValue::Null => None,
                _ => match SymbolLayoutLayerTextFont::decode(w) {
                    Ok(_) => None,
                    Err(e) => Some(e),
                },
            }
        } else if str_eq(k, "text-ignore-placement") {
            match w {
                JsonValue::Null => None,
                _ => match SymbolLayoutLayerTextIgnorePlacement::decode(w) {
                    Ok(_) => None,
                    Err(e) => Some(e),
                },
            }
        } else if str_eq(k, "text-justify") {
            match w {
                JsonValue::Null => None,
                _ => match SymbolLayoutLayerTextJustify::decode(w) {
                    Ok(_) => None,
                    Err(e) => Some(e),
                },
            }
        } else if str_eq(k, "text-keep-upright") {
            match w {
                JsonValue::Null => None,
                _ => match SymbolLayoutLayerTextKeepUpright::decode(w) {
                    Ok(_) => None,
                    Err(e) => Some(e),
                },
            }
        } else if str_eq(k, "text-letter-spacing") {
            match w {
                JsonValue::Null => None,
                _ => match SymbolLayoutLayerTextLetterSpacing::decode(w) {
                    Ok(_) => None,
                    Err(e) => Some(e),
                },
            }
        } else if str_eq(k, "text-line-height") {
            match w {
                JsonValue::Null => None,
                _ => match SymbolLayoutLayerTextLineHeight::decode(w) {
                    Ok(_) => None,
                    Err(e) => Some(e),
                },
            }
        } else if str_eq(k, "text-max-angle") {
            match w {
                JsonValue::Null => None,
                _ => match SymbolLayoutLayerTextMaxAngle::decode(w) {
                    Ok(_) => None,
                    Err(e) => Some(e),
                },
            }
        } else if str_eq(k, "text-max-width") {
            match w {
                JsonValue::Null => None,
                _ => match SymbolLayoutLayerTextMaxWidth::decode(w) {
                    Ok(_) => None,
                    Err(e) => Some(e),
                },
            }
        } else if str_eq(k, "text-offset") {
            match w {
                JsonValue::Null => None,
                _ => match SymbolLayoutLayerTextOffset::decode(w) {
                    Ok(_) => None,
                    Err(e) => Some(e),
                },
            }
        } else if str_eq(k, "text-optional") {
            match w {
                JsonValue::Null => None,
                _ => match SymbolLayoutLayerTextOptional::decode(w) {
                    Ok(_) => None,
                    Err(e) => Some(e),
                },
            }
        } else if str_eq(k, "text-overlap") {
            match w {
                JsonValue::Null => None,
                _ => match SymbolLayoutLayerTextOverlap::decode(w) {
                    Ok(_) => None,
                    Err(e) => Some(e),
                },
            }
        } else if str_eq(k, "text-padding") {
            match w {
                JsonValue::Null => None,
                _ => match SymbolLayoutLayerTextPadding::decode(w) {
                    Ok(_) => None,
                    Err(e) => Some(e),
                },
            }
        } else if str_eq(k, "text-pitch-alignment") {
            match w {
                JsonValue::Null => None,
                _ => match SymbolLayoutLayerTextPitchAlignment::decode(w) {
                    Ok(_) => None,
                    Err(e) => Some(e),
                },
            }
        } else if str_eq(k, "text-radial-offset") {
            match w {
                JsonValue::Null => None,
                _ => match SymbolLayoutLayerTextRadialOffset::decode(w) {
                    Ok(_) => None,
                    Err(e) => Some(e),
                },
            }
        } else if str_eq(k, "text-rotate") {
            match w {
                JsonValue::Null => None,
                _ => match SymbolLayoutLayerTextRotate::decode(w) {
                    Ok(_) => None,
                    Err(e) => Some(e),
                },
            }
        } else if str_eq(k, "text-rotation-alignment") {
            match w {
                JsonValue::Null => None,
                _ => match SymbolLayoutLayerTextRotationAlignment::decode(w) {
                    Ok(_) => None,
                    Err(e) => Some(e),
                },
            }
        } else if str_eq(k, "text-size") {
            match w {
                JsonValue::Null => None,
                _ => match SymbolLayoutLayerTextSize::decode(w) {
                    Ok(_) => None,
                    Err(e) => Some(e),
                },
            }
        } else if str_eq(k, "text-transform") {
            match w {
                JsonValue::Null => None,
                _ => match SymbolLayoutLayerTextTransform::decode(w) {
                    Ok(_) => None,
                    Err(e) => Some(e),
                },
            }
        } else if str_eq(k, "text-variable-anchor") {
            match w {
                JsonValue::Null => None,
                _ => match SymbolLayoutLayerTextVariableAnchor::decode(w) {
                    Ok(_) => None,
                    Err(e) => Some(e),
                },
            }
        } else if str_eq(k, "text-variable-anchor-offset") {
            match w {
                JsonValue::Null => None,
                _ => match SymbolLayoutLayerTextVariableAnchorOffset::decode(w) {
                    Ok(_) => None,
                    Err(e) => Some(e),
                },
            }
        } else if str_eq(k, "text-writing-mode") {
            match w {
                JsonValue::Null => None,
                _ => match SymbolLayoutLayerTextWritingMode::decode(w) {
                    Ok(_) => None,
                    Err(e) => Some(e),
                },
            }
        } else if str_eq(k, "visibility") {
            match w {
                JsonValue::Null => None,
                _ => match SymbolLayoutLayerVisibility::decode(w) {
                    Ok(_) => None,
                    Err(e) => Some(e),
                },
            }
        } else {
            None
        }
    }

    fn object_rejection(fields: &Vec<(String, JsonValue)>) -> (r: String)
        ensures
            r@ == Self::rejection(JsonValue::Object(*fields).model()),
    {
        let ghost o = entries_model(*fields);
        let mut i: usize = 0;
        while i < fields.len()
            invariant
                o == entries_model(*fields),
                o.len() == fields.len(),
                i <= fields.len(),
                Self::first_fault(o, 0) == Self::first_fault(o, i as int),
            decreases fields.len() - i,
        {
            proof {
                assert(o[i as int] == (fields@[i as int].0@, fields@[i as int].1.model()));
            }
            if !key_seen_before(fields, i) {
                match Self::find_field_fault(fields[i].0.as_str(), &fields[i].1) {
                    Some(m) => {
                        return m;
                    },
                    None => {},
                }
            }
            i += 1;
        }
        String::new()
    }
}

impl SymbolLayoutLayer {
    /// The keys of the fields, in order.
    pub open spec fn field_keys() -> Seq<Seq<char>> {
        seq!["icon-allow-overlap"@, "icon-anchor"@, "icon-ignore-placement"@, "icon-image"@, "icon-keep-upright"@, "icon-offset"@, "icon-optional"@, "icon-overlap"@, "icon-padding"@, "icon-pitch-alignment"@, "icon-rotate"@, "icon-rotation-alignment"@, "icon-size"@, "icon-text-fit"@, "icon-text-fit-padding"@, "symbol-avoid-edges"@, "symbol-placement"@, "symbol-sort-key"@, "symbol-spacing"@, "symbol-z-order"@, "text-allow-overlap"@, "text-anchor"@, "text-field"@, "text-font"@, "text-ignore-placement"@, "text-justify"@, "text-keep-upright"@, "text-letter-spacing"@, "text-line-height"@, "text-max-angle"@, "text-max-width"@, "text-offset"@, "text-optional"@, "text-overlap"@, "text-padding"@, "text-pitch-alignment"@, "text-radial-offset"@, "text-rotate"@, "text-rotation-alignment"@, "text-size"@, "text-transform"@, "text-variable-anchor"@, "text-variable-anchor-offset"@, "text-writing-mode"@, "visibility"@]
    }

    /// The entries that each field is written as, in order.
    pub open spec fn field_entries(self) -> Seq<Seq<(Seq<char>, Json)>> {
        seq![opt_entry::<SymbolLayoutLayerIconAllowOverlap>("icon-allow-overlap"@, self.icon_allow_overlap), opt_entry::<SymbolLayoutLayerIconAnchor>("icon-anchor"@, self.icon_anchor), opt_entry::<SymbolLayoutLayerIconIgnorePlacement>("icon-ignore-placement"@, self.icon_ignore_placement), opt_entry::<SymbolLayoutLayerIconImage>("icon-image"@, self.icon_image), opt_entry::<SymbolLayoutLayerIconKeepUpright>("icon-keep-upright"@, self.icon_keep_upright), opt_entry::<SymbolLayoutLayerIconOffset>("icon-offset"@, self.icon_offset), opt_entry::<SymbolLayoutLayerIconOptional>("icon-optional"@, self.icon_optional), opt_entry::<SymbolLayoutLayerIconOverlap>("icon-overlap"@, self.icon_overlap), opt_entry::<SymbolLayoutLayerIconPadding>("icon-padding"@, self.icon_padding), opt_entry::<SymbolLayoutLayerIconPitchAlignment>("icon-pitch-alignment"@, self.icon_pitch_alignment), opt_entry::<SymbolLayoutLayerIconRotate>("icon-rotate"@, self.icon_rotate), opt_entry::<SymbolLayoutLayerIconRotationAlignment>("icon-rotation-alignment"@, self.icon_rotation_alignment), opt_entry::<SymbolLayoutLayerIconSize>("icon-size"@, self.icon_size), opt_entry::<SymbolLayoutLayerIconTextFit>("icon-text-fit"@, self.icon_text_fit), opt_entry::<SymbolLayoutLayerIconTextFitPadding>("icon-text-fit-padding"@, self.icon_text_fit_padding), opt_entry::<SymbolLayoutLayerSymbolAvoidEdges>("symbol-avoid-edges"@, self.symbol_avoid_edges), opt_entry::<SymbolLayoutLayerSymbolPlacement>("symbol-placement"@, self.symbol_placement), opt_entry::<SymbolLayoutLayerSymbolSortKey>("symbol-sort-key"@, self.symbol_sort_key), opt_entry::<SymbolLayoutLayerSymbolSpacing>("symbol-spacing"@, self.symbol_spacing), opt_entry::<SymbolLayoutLayerSymbolZOrder>("symbol-z-order"@, self.symbol_z_order), opt_entry::<SymbolLayoutLayerTextAllowOverlap>("text-allow-overlap"@, self.text_allow_overlap), opt_entry::<SymbolLayoutLayerTextAnchor>("text-anchor"@, self.text_anchor), opt_entry::<SymbolLayoutLayerTextField>("text-field"@, self.text_field), opt_entry::<SymbolLayoutLayerTextFont>("text-font"@, self.text_font), opt_entry::<SymbolLayoutLayerTextIgnorePlacement>("text-ignore-placement"@, self.text_ignore_placement), opt_entry::<SymbolLayoutLayerTextJustify>("text-justify"@, self.text_justify), opt_entry::<SymbolLayoutLayerTextKeepUpright>("text-keep-upright"@, self.text_keep_upright), opt_entry::<SymbolLayoutLayerTextLetterSpacing>("text-letter-spacing"@, self.text_letter_spacing), opt_entry::<SymbolLayoutLayerTextLineHeight>("text-line-height"@, self.text_line_height), opt_entry::<SymbolLayoutLayerTextMaxAngle>("text-max-angle"@, self.text_max_angle), opt_entry::<SymbolLayoutLayerTextMaxWidth>("text-max-width"@, self.text_max_width), opt_entry::<SymbolLayoutLayerTextOffset>("text-offset"@, self.text_offset), opt_entry::<SymbolLayoutLayerTextOptional>("text-optional"@, self.text_optional), opt_entry::<SymbolLayoutLayerTextOverlap>("text-overlap"@, self.text_overlap), opt_entry::<SymbolLayoutLayerTextPadding>("text-padding"@, self.text_padding), opt_entry::<SymbolLayoutLayerTextPitchAlignment>("text-pitch-alignment"@, self.text_pitch_alignment), opt_entry::<SymbolLayoutLayerTextRadialOffset>("text-radial-offset"@, self.text_radial_offset), opt_entry::<SymbolLayoutLayerTextRotate>("text-rotate"@, self.text_rotate), opt_entry::<SymbolLayoutLayerTextRotationAlignment>("text-rotation-alignment"@, self.text_rotation_alignment), opt_entry::<SymbolLayoutLayerTextSize>("text-size"@, self.text_size), opt_entry::<SymbolLayoutLayerTextTransform>("text-transform"@, self.text_transform), opt_entry::<SymbolLayoutLayerTextVariableAnchor>("text-variable-anchor"@, self.text_variable_anchor), opt_entry::<SymbolLayoutLayerTextVariableAnchorOffset>("text-variable-anchor-offset"@, self.text_variable_anchor_offset), opt_entry::<SymbolLayoutLayerTextWritingMode>("text-writing-mode"@, self.text_writing_mode), opt_entry::<SymbolLayoutLayerVisibility>("visibility"@, self.visibility)]
    }

    proof fn lemma_keys_differ(i: int)
        requires
            0 <= i < 45,
        ensures
            others_differ(Self::field_keys(), i),
    {
        reveal_strlit("icon-allow-overlap");
        assert("icon-allow-overlap"@.len() == 18);
        reveal_strlit("icon-anchor");
        assert("icon-anchor"@.len() == 11);
        reveal_strlit("icon-ignore-placement");
        assert("icon-ignore-placement"@.len() == 21);
        reveal_strlit("icon-image");
        assert("icon-image"@.len() == 10);
        reveal_strlit("icon-keep-upright");
        assert("icon-keep-upright"@.len() == 17);
        reveal_strlit("icon-offset");
        assert("icon-offset"@.len() == 11);
        reveal_strlit("icon-optional");
        assert("icon-optional"@.len() == 13);
        reveal_strlit("icon-overlap");
        assert("icon-overlap"@.len() == 12);
        reveal_strlit("icon-padding");
        assert("icon-padding"@.len() == 12);
        reveal_strlit("icon-pitch-alignment");
        assert("icon-pitch-alignment"@.len() == 20);
        reveal_strlit("icon-rotate");
        assert("icon-rotate"@.len() == 11);
        reveal_strlit("icon-rotation-alignment");
        assert("icon-rotation-alignment"@.len() == 23);
        reveal_strlit("icon-size");
        assert("icon-size"@.len() == 9);
        reveal_strlit("icon-text-fit");
        assert("icon-text-fit"@.len() == 13);
        reveal_strlit("icon-text-fit-padding");
        assert("icon-text-fit-padding"@.len() == 21);
        reveal_strlit("symbol-avoid-edges");
        assert("symbol-avoid-edges"@.len() == 18);
        reveal_strlit("symbol-placement");
        assert("symbol-placement"@.len() == 16);
        reveal_strlit("symbol-sort-key");
        assert("symbol-sort-key"@.len() == 15);
        reveal_strlit("symbol-spacing");
        assert("symbol-spacing"@.len() == 14);
        reveal_strlit("symbol-z-order");
        assert("symbol-z-order"@.len() == 14);
        reveal_strlit("text-allow-overlap");
        assert("text-allow-overlap"@.len() == 18);
        reveal_strlit("text-anchor");
        assert("text-anchor"@.len() == 11);
        reveal_strlit("text-field");
        assert("text-field"@.len() == 10);
        reveal_strlit("text-font");
        assert("text-font"@.len() == 9);
        reveal_strlit("text-ignore-placement");
        assert("text-ignore-placement"@.len() == 21);
        reveal_strlit("text-justify");
        assert("text-justify"@.len() == 12);
        reveal_strlit("text-keep-upright");
        assert("text-keep-upright"@.len() == 17);
        reveal_strlit("text-letter-spacing");
        assert("text-letter-spacing"@.len() == 19);
        reveal_strlit("text-line-height");
        assert("text-line-height"@.len() == 16);
        reveal_strlit("text-max-angle");
        assert("text-max-angle"@.len() == 14);
        reveal_strlit("text-max-width");
        assert("text-max-width"@.len() == 14);
        reveal_strlit("text-offset");
        assert("text-offset"@.len() == 11);
        reveal_strlit("text-optional");
        assert("text-optional"@.len() == 13);
        reveal_strlit("text-overlap");
        assert("text-overlap"@.len() == 12);
        reveal_strlit("text-padding");
        assert("text-padding"@.len() == 12);
        reveal_strlit("text-pitch-alignment");
        assert("text-pitch-alignment"@.len() == 20);
        reveal_strlit("text-radial-offset");
        assert("text-radial-offset"@.len() == 18);
        reveal_strlit("text-rotate");
        assert("text-rotate"@.len() == 11);
        reveal_strlit("text-rotation-alignment");
        assert("text-rotation-alignment"@.len() == 23);
        reveal_strlit("text-size");
        assert("text-size"@.len() == 9);
        reveal_strlit("text-transform");
        assert("text-transform"@.len() == 14);
        reveal_strlit("text-variable-anchor");
        assert("text-variable-anchor"@.len() == 20);
        reveal_strlit("text-variable-anchor-offset");
        assert("text-variable-anchor-offset"@.len() == 27);
        reveal_strlit("text-writing-mode");
        assert("text-writing-mode"@.len() == 17);
        reveal_strlit("visibility");
        assert("visibility"@.len() == 10);
        assert("icon-allow-overlap"@[0] != "symbol-avoid-edges"@[0]);
        assert("icon-allow-overlap"@[0] != "text-allow-overlap"@[0]);
        assert("icon-allow-overlap"@[0] != "text-radial-offset"@[0]);
        assert("icon-anchor"@[5] != "icon-offset"@[5]);
        assert("icon-anchor"@[5] != "icon-rotate"@[5]);
        assert("icon-anchor"@[0] != "text-anchor"@[0]);
        assert("icon-anchor"@[0] != "text-offset"@[0]);
        assert("icon-anchor"@[0] != "text-rotate"@[0]);
        assert("icon-ignore-placement"@[5] != "icon-text-fit-padding"@[5]);
        assert("icon-ignore-placement"@[0] != "text-ignore-placement"@[0]);
        assert("icon-image"@[0] != "text-field"@[0]);
        assert("icon-image"@[0] != "visibility"@[0]);
        assert("icon-keep-upright"@[0] != "text-keep-upright"@[0]);
        assert("icon-keep-upright"@[0] != "text-writing-mode"@[0]);
        assert("icon-offset"@[5] != "icon-rotate"@[5]);
        assert("icon-offset"@[0] != "text-anchor"@[0]);
        assert("icon-offset"@[0] != "text-offset"@[0]);
        assert("icon-offset"@[0] != "text-rotate"@[0]);
        assert("icon-optional"@[5] != "icon-text-fit"@[5]);
        assert("icon-optional"@[0] != "text-optional"@[0]);
        assert("icon-overlap"@[5] != "icon-padding"@[5]);
        assert("icon-overlap"@[0] != "text-justify"@[0]);
        assert("icon-overlap"@[0] != "text-overlap"@[0]);
        assert("icon-overlap"@[0] != "text-padding"@[0]);
        assert("icon-padding"@[0] != "text-justify"@[0]);
        assert("icon-padding"@[0] != "text-overlap"@[0]);
        assert("icon-padding"@[0] != "text-padding"@[0]);
        assert("icon-pitch-alignment"@[0] != "text-pitch-alignment"@[0]);
        assert("icon-pitch-alignment"@[0] != "text-variable-anchor"@[0]);
        assert("icon-rotate"@[0] != "text-anchor"@[0]);
        assert("icon-rotate"@[0] != "text-offset"@[0]);
        assert("icon-rotate"@[0] != "text-rotate"@[0]);
        assert("icon-rotation-alignment"@[0] != "text-rotation-alignment"@[0]);
        assert("icon-size"@[0] != "text-font"@[0]);
        assert("icon-size"@[0] != "text-size"@[0]);
        assert("icon-text-fit"@[0] != "text-optional"@[0]);
        assert("icon-text-fit-padding"@[0] != "text-ignore-placement"@[0]);
        assert("symbol-avoid-edges"@[0] != "text-allow-overlap"@[0]);
        assert("symbol-avoid-edges"@[0] != "text-radial-offset"@[0]);
        assert("symbol-placement"@[0] != "text-line-height"@[0]);
        assert("symbol-spacing"@[7] != "symbol-z-order"@[7]);
        assert("symbol-spacing"@[0] != "text-max-angle"@[0]);
        assert("symbol-spacing"@[0] != "text-max-width"@[0]);
        assert("symbol-spacing"@[0] != "text-transform"@[0]);
        assert("symbol-z-order"@[0] != "text-max-angle"@[0]);
        assert("symbol-z-order"@[0] != "text-max-width"@[0]);
        assert("symbol-z-order"@[0] != "text-transform"@[0]);
        assert("text-allow-overlap"@[5] != "text-radial-offset"@[5]);
        assert("text-anchor"@[5] != "text-offset"@[5]);
        assert("text-anchor"@[5] != "text-rotate"@[5]);
        assert("text-field"@[0] != "visibility"@[0]);
        assert("text-font"@[5] != "text-size"@[5]);
        assert("text-justify"@[5] != "text-overlap"@[5]);
        assert("text-justify"@[5] != "text-padding"@[5]);
        assert("text-keep-upright"@[5] != "text-writing-mode"@[5]);
        assert("text-max-angle"@[9] != "text-max-width"@[9]);
        assert("text-max-angle"@[5] != "text-transform"@[5]);
        assert("text-max-width"@[5] != "text-transform"@[5]);
        assert("text-offset"@[5] != "text-rotate"@[5]);
        assert("text-overlap"@[5] != "text-padding"@[5]);
        assert("text-pitch-alignment"@[5] != "text-variable-anchor"@[5]);
    }
}

impl JsonEncode for SymbolLayoutLayer {
    open spec fn to_json(self) -> Json {
        Json::Object(self.field_entries().flatten())
    }

    open spec fn round_trips(self) -> bool {
        &&& (self.icon_allow_overlap matches Some(t) ==> t.round_trips() && !(t.to_json() is Null))
        &&& (self.icon_anchor matches Some(t) ==> t.round_trips() && !(t.to_json() is Null))
        &&& (self.icon_ignore_placement matches Some(t) ==> t.round_trips() && !(t.to_json() is Null))
        &&& (self.icon_image matches Some(t) ==> t.round_trips() && !(t.to_json() is Null))
        &&& (self.icon_keep_upright matches Some(t) ==> t.round_trips() && !(t.to_json() is Null))
        &&& (self.icon_offset matches Some(t) ==> t.round_trips() && !(t.to_json() is Null))
        &&& (self.icon_optional matches Some(t) ==> t.round_trips() && !(t.to_json() is Null))
        &&& (self.icon_overlap matches Some(t) ==> t.round_trips() && !(t.to_json() is Null))
        &&& (self.icon_padding matches Some(t) ==> t.round_trips() && !(t.to_json() is Null))
        &&& (self.icon_pitch_alignment matches Some(t) ==> t.round_trips() && !(t.to_json() is Null))
        &&& (self.icon_rotate matches Some(t) ==> t.round_trips() && !(t.to_json() is Null))
        &&& (self.icon_rotation_alignment matches Some(t) ==> t.round_trips() && !(t.to_json() is Null))
        &&& (self.icon_size matches Some(t) ==> t.round_trips() && !(t.to_json() is Null))
        &&& (self.icon_text_fit matches Some(t) ==> t.round_trips() && !(t.to_json() is Null))
        &&& (self.icon_text_fit_padding matches Some(t) ==> t.round_trips() && !(t.to_json() is Null))
        &&& (self.symbol_avoid_edges matches Some(t) ==> t.round_trips() && !(t.to_json() is Null))
        &&& (self.symbol_placement matches Some(t) ==> t.round_trips() && !(t.to_json() is Null))
        &&& (self.symbol_sort_key matches Some(t) ==> t.round_trips() && !(t.to_json() is Null))
        &&& (self.symbol_spacing matches Some(t) ==> t.round_trips() && !(t.to_json() is Null))
        &&& (self.symbol_z_order matches Some(t) ==> t.round_trips() && !(t.to_json() is Null))
        &&& (self.text_allow_overlap matches Some(t) ==> t.round_trips() && !(t.to_json() is Null))
        &&& (self.text_anchor matches Some(t) ==> t.round_trips() && !(t.to_json() is Null))
        &&& (self.text_field matches Some(t) ==> t.round_trips() && !(t.to_json() is Null))
        &&& (self.text_font matches Some(t) ==> t.round_trips() && !(t.to_json() is Null))
        &&& (self.text_ignore_placement matches Some(t) ==> t.round_trips() && !(t.to_json() is Null))
        &&& (self.text_justify matches Some(t) ==> t.round_trips() && !(t.to_json() is Null))
        &&& (self.text_keep_upright matches Some(t) ==> t.round_trips() && !(t.to_json() is Null))
        &&& (self.text_letter_spacing matches Some(t) ==> t.round_trips() && !(t.to_json() is Null))
        &&& (self.text_line_height matches Some(t) ==> t.round_trips() && !(t.to_json() is Null))
        &&& (self.text_max_angle matches Some(t) ==> t.round_trips() && !(t.to_json() is Null))
        &&& (self.text_max_width matches Some(t) ==> t.round_trips() && !(t.to_json() is Null))
        &&& (self.text_offset matches Some(t) ==> t.round_trips() && !(t.to_json() is Null))
        &&& (self.text_optional matches Some(t) ==> t.round_trips() && !(t.to_json() is Null))
        &&& (self.text_overlap matches Some(t) ==> t.round_trips() && !(t.to_json() is Null))
        &&& (self.text_padding matches Some(t) ==> t.round_trips() && !(t.to_json() is Null))
        &&& (self.text_pitch_alignment matches Some(t) ==> t.round_trips() && !(t.to_json() is Null))
        &&& (self.text_radial_offset matches Some(t) ==> t.round_trips() && !(t.to_json() is Null))
        &&& (self.text_rotate matches Some(t) ==> t.round_trips() && !(t.to_json() is Null))
        &&& (self.text_rotation_alignment matches Some(t) ==> t.round_trips() && !(t.to_json() is Null))
        &&& (self.text_size matches Some(t) ==> t.round_trips() && !(t.to_json() is Null))
        &&& (self.text_transform matches Some(t) ==> t.round_trips() && !(t.to_json() is Null))
        &&& (self.text_variable_anchor matches Some(t) ==> t.round_trips() && !(t.to_json() is Null))
        &&& (self.text_variable_anchor_offset matches Some(t) ==> t.round_trips() && !(t.to_json() is Null))
        &&& (self.text_writing_mode matches Some(t) ==> t.round_trips() && !(t.to_json() is Null))
        &&& (self.visibility matches Some(t) ==> t.round_trips() && !(t.to_json() is Null))
    }

    #[verifier::rlimit(80)]
    fn encode(&self) -> (r: JsonValue) {
        let mut out: Vec<(String, JsonValue)> = Vec::new();
        let ghost s0 = Seq::<Seq<(Seq<char>, Json)>>::empty();
        proof {
            assert(entries_model(out) =~= s0.flatten());
        }
        push_opt_entry::<SymbolLayoutLayerIconAllowOverlap>(&mut out, "icon-allow-overlap", &self.icon_allow_overlap);
        let ghost s1 = s0.push(opt_entry::<SymbolLayoutLayerIconAllowOverlap>("icon-allow-overlap"@, self.icon_allow_overlap));
        proof {
            s0.lemma_flatten_push(opt_entry::<SymbolLayoutLayerIconAllowOverlap>("icon-allow-overlap"@, self.icon_allow_overlap));
            assert(entries_model(out) =~= s1.flatten());
        }
        push_opt_entry::<SymbolLayoutLayerIconAnchor>(&mut out, "icon-anchor", &self.icon_anchor);
        let ghost s2 = s1.push(opt_entry::<SymbolLayoutLayerIconAnchor>("icon-anchor"@, self.icon_anchor));
        proof {
            s1.lemma_flatten_push(opt_entry::<SymbolLayoutLayerIconAnchor>("icon-anchor"@, self.icon_anchor));
            assert(entries_model(out) =~= s2.flatten());
        }
        push_opt_entry::<SymbolLayoutLayerIconIgnorePlacement>(&mut out, "icon-ignore-placement", &self.icon_ignore_placement);
        let ghost s3 = s2.push(opt_entry::<SymbolLayoutLayerIconIgnorePlacement>("icon-ignore-placement"@, self.icon_ignore_placement));
        proof {
            s2.lemma_flatten_push(opt_entry::<SymbolLayoutLayerIconIgnorePlacement>("icon-ignore-placement"@, self.icon_ignore_placement));
            assert(entries_model(out) =~= s3.flatten());
        }
        push_opt_entry::<SymbolLayoutLayerIconImage>(&mut out, "icon-image", &self.icon_image);
        let ghost s4 = s3.push(opt_entry::<SymbolLayoutLayerIconImage>("icon-image"@, self.icon_image));
        proof {
            s3.lemma_flatten_push(opt_entry::<SymbolLayoutLayerIconImage>("icon-image"@, self.icon_image));
            assert(entries_model(out) =~= s4.flatten());
        }
        push_opt_entry::<SymbolLayoutLayerIconKeepUpright>(&mut out, "icon-keep-upright", &self.icon_keep_upright);
        let ghost s5 = s4.push(opt_entry::<SymbolLayoutLayerIconKeepUpright>("icon-keep-upright"@, self.icon_keep_upright));
        proof {
            s4.lemma_flatten_push(opt_entry::<SymbolLayoutLayerIconKeepUpright>("icon-keep-upright"@, self.icon_keep_upright));
            assert(entries_model(out) =~= s5.flatten());
        }
        push_opt_entry::<SymbolLayoutLayerIconOffset>(&mut out, "icon-offset", &self.icon_offset);
        let ghost s6 = s5.push(opt_entry::<SymbolLayoutLayerIconOffset>("icon-offset"@, self.icon_offset));
        proof {
            s5.lemma_flatten_push(opt_entry::<SymbolLayoutLayerIconOffset>("icon-offset"@, self.icon_offset));
            assert(entries_model(out) =~= s6.flatten());
        }
        push_opt_entry::<SymbolLayoutLayerIconOptional>(&mut out, "icon-optional", &self.icon_optional);
        let ghost s7 = s6.push(opt_entry::<SymbolLayoutLayerIconOptional>("icon-optional"@, self.icon_optional));
        proof {
            s6.lemma_flatten_push(opt_entry::<SymbolLayoutLayerIconOptional>("icon-optional"@, self.icon_optional));
            assert(entries_model(out) =~= s7.flatten());
        }
        push_opt_entry::<SymbolLayoutLayerIconOverlap>(&mut out, "icon-overlap", &self.icon_overlap);
        let ghost s8 = s7.push(opt_entry::<SymbolLayoutLayerIconOverlap>("icon-overlap"@, self.icon_overlap));
        proof {
            s7.lemma_flatten_push(opt_entry::<SymbolLayoutLayerIconOverlap>("icon-overlap"@, self.icon_overlap));
            assert(entries_model(out) =~= s8.flatten());
        }
        push_opt_entry::<SymbolLayoutLayerIconPadding>(&mut out, "icon-padding", &self.icon_padding);
        let ghost s9 = s8.push(opt_entry::<SymbolLayoutLayerIconPadding>("icon-padding"@, self.icon_padding));
        proof {
            s8.lemma_flatten_push(opt_entry::<SymbolLayoutLayerIconPadding>("icon-padding"@, self.icon_padding));
            assert(entries_model(out) =~= s9.flatten());
        }
        push_opt_entry::<SymbolLayoutLayerIconPitchAlignment>(&mut out, "icon-pitch-alignment", &self.icon_pitch_alignment);
        let ghost s10 = s9.push(opt_entry::<SymbolLayoutLayerIconPitchAlignment>("icon-pitch-alignment"@, self.icon_pitch_alignment));
        proof {
            s9.lemma_flatten_push(opt_entry::<SymbolLayoutLayerIconPitchAlignment>("icon-pitch-alignment"@, self.icon_pitch_alignment));
            assert(entries_model(out) =~= s10.flatten());
        }
        push_opt_entry::<SymbolLayoutLayerIconRotate>(&mut out, "icon-rotate", &self.icon_rotate);
        let ghost s11 = s10.push(opt_entry::<SymbolLayoutLayerIconRotate>("icon-rotate"@, self.icon_rotate));
        proof {
            s10.lemma_flatten_push(opt_entry::<SymbolLayoutLayerIconRotate>("icon-rotate"@, self.icon_rotate));
            assert(entries_model(out) =~= s11.flatten());
        }
        push_opt_entry::<SymbolLayoutLayerIconRotationAlignment>(&mut out, "icon-rotation-alignment", &self.icon_rotation_alignment);
        let ghost s12 = s11.push(opt_entry::<SymbolLayoutLayerIconRotationAlignment>("icon-rotation-alignment"@, self.icon_rotation_alignment));
        proof {
            s11.lemma_flatten_push(opt_entry::<SymbolLayoutLayerIconRotationAlignment>("icon-rotation-alignment"@, self.icon_rotation_alignment));
            assert(entries_model(out) =~= s12.flatten());
        }
        push_opt_entry::<SymbolLayoutLayerIconSize>(&mut out, "icon-size", &self.icon_size);
        let ghost s13 = s12.push(opt_entry::<SymbolLayoutLayerIconSize>("icon-size"@, self.icon_size));
        proof {
            s12.lemma_flatten_push(opt_entry::<SymbolLayoutLayerIconSize>("icon-size"@, self.icon_size));
            assert(entries_model(out) =~= s13.flatten());
        }
        push_opt_entry::<SymbolLayoutLayerIconTextFit>(&mut out, "icon-text-fit", &self.icon_text_fit);
        let ghost s14 = s13.push(opt_entry::<SymbolLayoutLayerIconTextFit>("icon-text-fit"@, self.icon_text_fit));
        proof {
            s13.lemma_flatten_push(opt_entry::<SymbolLayoutLayerIconTextFit>("icon-text-fit"@, self.icon_text_fit));
            assert(entries_model(out) =~= s14.flatten());
        }
        push_opt_entry::<SymbolLayoutLayerIconTextFitPadding>(&mut out, "icon-text-fit-padding", &self.icon_text_fit_padding);
        let ghost s15 = s14.push(opt_entry::<SymbolLayoutLayerIconTextFitPadding>("icon-text-fit-padding"@, self.icon_text_fit_padding));
        proof {
            s14.lemma_flatten_push(opt_entry::<SymbolLayoutLayerIconTextFitPadding>("icon-text-fit-padding"@, self.icon_text_fit_padding));
            assert(entries_model(out) =~= s15.flatten());
        }
        push_opt_entry::<SymbolLayoutLayerSymbolAvoidEdges>(&mut out, "symbol-avoid-edges", &self.symbol_avoid_edges);
        let ghost s16 = s15.push(opt_entry::<SymbolLayoutLayerSymbolAvoidEdges>("symbol-avoid-edges"@, self.symbol_avoid_edges));
        proof {
            s15.lemma_flatten_push(opt_entry::<SymbolLayoutLayerSymbolAvoidEdges>("symbol-avoid-edges"@, self.symbol_avoid_edges));
            assert(entries_model(out) =~= s16.flatten());
        }
        push_opt_entry::<SymbolLayoutLayerSymbolPlacement>(&mut out, "symbol-placement", &self.symbol_placement);
        let ghost s17 = s16.push(opt_entry::<SymbolLayoutLayerSymbolPlacement>("symbol-placement"@, self.symbol_placement));
        proof {
            s16.lemma_flatten_push(opt_entry::<SymbolLayoutLayerSymbolPlacement>("symbol-placement"@, self.symbol_placement));
            assert(entries_model(out) =~= s17.flatten());
        }
        push_opt_entry::<SymbolLayoutLayerSymbolSortKey>(&mut out, "symbol-sort-key", &self.symbol_sort_key);
        let ghost s18 = s17.push(opt_entry::<SymbolLayoutLayerSymbolSortKey>("symbol-sort-key"@, self.symbol_sort_key));
        proof {
            s17.lemma_flatten_push(opt_entry::<SymbolLayoutLayerSymbolSortKey>("symbol-sort-key"@, self.symbol_sort_key));
            assert(entries_model(out) =~= s18.flatten());
        }
        push_opt_entry::<SymbolLayoutLayerSymbolSpacing>(&mut out, "symbol-spacing", &self.symbol_spacing);
        let ghost s19 = s18.push(opt_entry::<SymbolLayoutLayerSymbolSpacing>("symbol-spacing"@, self.symbol_spacing));
        proof {
            s18.lemma_flatten_push(opt_entry::<SymbolLayoutLayerSymbolSpacing>("symbol-spacing"@, self.symbol_spacing));
            assert(entries_model(out) =~= s19.flatten());
        }
        push_opt_entry::<SymbolLayoutLayerSymbolZOrder>(&mut out, "symbol-z-order", &self.symbol_z_order);
        let ghost s20 = s19.push(opt_entry::<SymbolLayoutLayerSymbolZOrder>("symbol-z-order"@, self.symbol_z_order));
        proof {
            s19.lemma_flatten_push(opt_entry::<SymbolLayoutLayerSymbolZOrder>("symbol-z-order"@, self.symbol_z_order));
            assert(entries_model(out) =~= s20.flatten());
        }
        push_opt_entry::<SymbolLayoutLayerTextAllowOverlap>(&mut out, "text-allow-overlap", &self.text_allow_overlap);
        let ghost s21 = s20.push(opt_entry::<SymbolLayoutLayerTextAllowOverlap>("text-allow-overlap"@, self.text_allow_overlap));
        proof {
            s20.lemma_flatten_push(opt_entry::<SymbolLayoutLayerTextAllowOverlap>("text-allow-overlap"@, self.text_allow_overlap));
            assert(entries_model(out) =~= s21.flatten());
        }
        push_opt_entry::<SymbolLayoutLayerTextAnchor>(&mut out, "text-anchor", &self.text_anchor);
        let ghost s22 = s21.push(opt_entry::<SymbolLayoutLayerTextAnchor>("text-anchor"@, self.text_anchor));
        proof {
            s21.lemma_flatten_push(opt_entry::<SymbolLayoutLayerTextAnchor>("text-anchor"@, self.text_anchor));
            assert(entries_model(out) =~= s22.flatten());
        }
        push_opt_entry::<SymbolLayoutLayerTextField>(&mut out, "text-field", &self.text_field);
        let ghost s23 = s22.push(opt_entry::<SymbolLayoutLayerTextField>("text-field"@, self.text_field));
        proof {
            s22.lemma_flatten_push(opt_entry::<SymbolLayoutLayerTextField>("text-field"@, self.text_field));
            assert(entries_model(out) =~= s23.flatten());
        }
        push_opt_entry::<SymbolLayoutLayerTextFont>(&mut out, "text-font", &self.text_font);
        let ghost s24 = s23.push(opt_entry::<SymbolLayoutLayerTextFont>("text-font"@, self.text_font));
        proof {
            s23.lemma_flatten_push(opt_entry::<SymbolLayoutLayerTextFont>("text-font"@, self.text_font));
            assert(entries_model(out) =~= s24.flatten());
        }
        push_opt_entry::<SymbolLayoutLayerTextIgnorePlacement>(&mut out, "text-ignore-placement", &self.text_ignore_placement);
        let ghost s25 = s24.push(opt_entry::<SymbolLayoutLayerTextIgnorePlacement>("text-ignore-placement"@, self.text_ignore_placement));
        proof {
            s24.lemma_flatten_push(opt_entry::<SymbolLayoutLayerTextIgnorePlacement>("text-ignore-placement"@, self.text_ignore_placement));
            assert(entries_model(out) =~= s25.flatten());
        }
        push_opt_entry::<SymbolLayoutLayerTextJustify>(&mut out, "text-justify", &self.text_justify);
        let ghost s26 = s25.push(opt_entry::<SymbolLayoutLayerTextJustify>("text-justify"@, self.text_justify));
        proof {
            s25.lemma_flatten_push(opt_entry::<SymbolLayoutLayerTextJustify>("text-justify"@, self.text_justify));
            assert(entries_model(out) =~= s26.flatten());
        }
        push_opt_entry::<SymbolLayoutLayerTextKeepUpright>(&mut out, "text-keep-upright", &self.text_keep_upright);
        let ghost s27 = s26.push(opt_entry::<SymbolLayoutLayerTextKeepUpright>("text-keep-upright"@, self.text_keep_upright));
        proof {
            s26.lemma_flatten_push(opt_entry::<SymbolLayoutLayerTextKeepUpright>("text-keep-upright"@, self.text_keep_upright));
            assert(entries_model(out) =~= s27.flatten());
        }
        push_opt_entry::<SymbolLayoutLayerTextLetterSpacing>(&mut out, "text-letter-spacing", &self.text_letter_spacing);
        let ghost s28 = s27.push(opt_entry::<SymbolLayoutLayerTextLetterSpacing>("text-letter-spacing"@, self.text_letter_spacing));
        proof {
            s27.lemma_flatten_push(opt_entry::<SymbolLayoutLayerTextLetterSpacing>("text-letter-spacing"@, self.text_letter_spacing));
            assert(entries_model(out) =~= s28.flatten());
        }
        push_opt_entry::<SymbolLayoutLayerTextLineHeight>(&mut out, "text-line-height", &self.text_line_height);
        let ghost s29 = s28.push(opt_entry::<SymbolLayoutLayerTextLineHeight>("text-line-height"@, self.text_line_height));
        proof {
            s28.lemma_flatten_push(opt_entry::<SymbolLayoutLayerTextLineHeight>("text-line-height"@, self.text_line_height));
            assert(entries_model(out) =~= s29.flatten());
        }
        push_opt_entry::<SymbolLayoutLayerTextMaxAngle>(&mut out, "text-max-angle", &self.text_max_angle);
        let ghost s30 = s29.push(opt_entry::<SymbolLayoutLayerTextMaxAngle>("text-max-angle"@, self.text_max_angle));
        proof {
            s29.lemma_flatten_push(opt_entry::<SymbolLayoutLayerTextMaxAngle>("text-max-angle"@, self.text_max_angle));
            assert(entries_model(out) =~= s30.flatten());
        }
        push_opt_entry::<SymbolLayoutLayerTextMaxWidth>(&mut out, "text-max-width", &self.text_max_width);
        let ghost s31 = s30.push(opt_entry::<SymbolLayoutLayerTextMaxWidth>("text-max-width"@, self.text_max_width));
        proof {
            s30.lemma_flatten_push(opt_entry::<SymbolLayoutLayerTextMaxWidth>("text-max-width"@, self.text_max_width));
            assert(entries_model(out) =~= s31.flatten());
        }
        push_opt_entry::<SymbolLayoutLayerTextOffset>(&mut out, "text-offset", &self.text_offset);
        let ghost s32 = s31.push(opt_entry::<SymbolLayoutLayerTextOffset>("text-offset"@, self.text_offset));
        proof {
            s31.lemma_flatten_push(opt_entry::<SymbolLayoutLayerTextOffset>("text-offset"@, self.text_offset));
            assert(entries_model(out) =~= s32.flatten());
        }
        push_opt_entry::<SymbolLayoutLayerTextOptional>(&mut out, "text-optional", &self.text_optional);
        let ghost s33 = s32.push(opt_entry::<SymbolLayoutLayerTextOptional>("text-optional"@, self.text_optional));
        proof {
            s32.lemma_flatten_push(opt_entry::<SymbolLayoutLayerTextOptional>("text-optional"@, self.text_optional));
            assert(entries_model(out) =~= s33.flatten());
        }
        push_opt_entry::<SymbolLayoutLayerTextOverlap>(&mut out, "text-overlap", &self.text_overlap);
        let ghost s34 = s33.push(opt_entry::<SymbolLayoutLayerTextOverlap>("text-overlap"@, self.text_overlap));
        proof {
            s33.lemma_flatten_push(opt_entry::<SymbolLayoutLayerTextOverlap>("text-overlap"@, self.text_overlap));
            assert(entries_model(out) =~= s34.flatten());
        }
        push_opt_entry::<SymbolLayoutLayerTextPadding>(&mut out, "text-padding", &self.text_padding);
        let ghost s35 = s34.push(opt_entry::<SymbolLayoutLayerTextPadding>("text-padding"@, self.text_padding));
        proof {
            s34.lemma_flatten_push(opt_entry::<SymbolLayoutLayerTextPadding>("text-padding"@, self.text_padding));
            assert(entries_model(out) =~= s35.flatten());
        }
        push_opt_entry::<SymbolLayoutLayerTextPitchAlignment>(&mut out, "text-pitch-alignment", &self.text_pitch_alignment);
        let ghost s36 = s35.push(opt_entry::<SymbolLayoutLayerTextPitchAlignment>("text-pitch-alignment"@, self.text_pitch_alignment));
        proof {
            s35.lemma_flatten_push(opt_entry::<SymbolLayoutLayerTextPitchAlignment>("text-pitch-alignment"@, self.text_pitch_alignment));
            assert(entries_model(out) =~= s36.flatten());
        }
        push_opt_entry::<SymbolLayoutLayerTextRadialOffset>(&mut out, "text-radial-offset", &self.text_radial_offset);
        let ghost s37 = s36.push(opt_entry::<SymbolLayoutLayerTextRadialOffset>("text-radial-offset"@, self.text_radial_offset));
        proof {
            s36.lemma_flatten_push(opt_entry::<SymbolLayoutLayerTextRadialOffset>("text-radial-offset"@, self.text_radial_offset));
            assert(entries_model(out) =~= s37.flatten());
        }
        push_opt_entry::<SymbolLayoutLayerTextRotate>(&mut out, "text-rotate", &self.text_rotate);
        let ghost s38 = s37.push(opt_entry::<SymbolLayoutLayerTextRotate>("text-rotate"@, self.text_rotate));
        proof {
            s37.lemma_flatten_push(opt_entry::<SymbolLayoutLayerTextRotate>("text-rotate"@, self.text_rotate));
            assert(entries_model(out) =~= s38.flatten());
        }
        push_opt_entry::<SymbolLayoutLayerTextRotationAlignment>(&mut out, "text-rotation-alignment", &self.text_rotation_alignment);
        let ghost s39 = s38.push(opt_entry::<SymbolLayoutLayerTextRotationAlignment>("text-rotation-alignment"@, self.text_rotation_alignment));
        proof {
            s38.lemma_flatten_push(opt_entry::<SymbolLayoutLayerTextRotationAlignment>("text-rotation-alignment"@, self.text_rotation_alignment));
            assert(entries_model(out) =~= s39.flatten());
        }
        push_opt_entry::<SymbolLayoutLayerTextSize>(&mut out, "text-size", &self.text_size);
        let ghost s40 = s39.push(opt_entry::<SymbolLayoutLayerTextSize>("text-size"@, self.text_size));
        proof {
            s39.lemma_flatten_push(opt_entry::<SymbolLayoutLayerTextSize>("text-size"@, self.text_size));
            assert(entries_model(out) =~= s40.flatten());
        }
        push_opt_entry::<SymbolLayoutLayerTextTransform>(&mut out, "text-transform", &self.text_transform);
        let ghost s41 = s40.push(opt_entry::<SymbolLayoutLayerTextTransform>("text-transform"@, self.text_transform));
        proof {
            s40.lemma_flatten_push(opt_entry::<SymbolLayoutLayerTextTransform>("text-transform"@, self.text_transform));
            assert(entries_model(out) =~= s41.flatten());
        }
        push_opt_entry::<SymbolLayoutLayerTextVariableAnchor>(&mut out, "text-variable-anchor", &self.text_variable_anchor);
        let ghost s42 = s41.push(opt_entry::<SymbolLayoutLayerTextVariableAnchor>("text-variable-anchor"@, self.text_variable_anchor));
        proof {
            s41.lemma_flatten_push(opt_entry::<SymbolLayoutLayerTextVariableAnchor>("text-variable-anchor"@, self.text_variable_anchor));
            assert(entries_model(out) =~= s42.flatten());
        }
        push_opt_entry::<SymbolLayoutLayerTextVariableAnchorOffset>(&mut out, "text-variable-anchor-offset", &self.text_variable_anchor_offset);
        let ghost s43 = s42.push(opt_entry::<SymbolLayoutLayerTextVariableAnchorOffset>("text-variable-anchor-offset"@, self.text_variable_anchor_offset));
        proof {
            s42.lemma_flatten_push(opt_entry::<SymbolLayoutLayerTextVariableAnchorOffset>("text-variable-anchor-offset"@, self.text_variable_anchor_offset));
            assert(entries_model(out) =~= s43.flatten());
        }
        push_opt_entry::<SymbolLayoutLayerTextWritingMode>(&mut out, "text-writing-mode", &self.text_writing_mode);
        let ghost s44 = s43.push(opt_entry::<SymbolLayoutLayerTextWritingMode>("text-writing-mode"@, self.text_writing_mode));
        proof {
            s43.lemma_flatten_push(opt_entry::<SymbolLayoutLayerTextWritingMode>("text-writing-mode"@, self.text_writing_mode));
            assert(entries_model(out) =~= s44.flatten());
        }
        push_opt_entry::<SymbolLayoutLayerVisibility>(&mut out, "visibility", &self.visibility);
        let ghost s45 = s44.push(opt_entry::<SymbolLayoutLayerVisibility>("visibility"@, self.visibility));
        proof {
            s44.lemma_flatten_push(opt_entry::<SymbolLayoutLayerVisibility>("visibility"@, self.visibility));
            assert(entries_model(out) =~= s45.flatten());
        }
        proof {
            assert(self.field_entries() == s45);
        }
        JsonValue::Object(out)
    }

    #[verifier::rlimit(80)]
    proof fn lemma_round_trip(self) {
        let keys = Self::field_keys();
        let es = self.field_entries();
        assert(keyed_by(es, keys));
        Self::lemma_keys_differ(0);
        lemma_lookup_flatten(es, keys, 0);
        lemma_lookup_opt_entry::<SymbolLayoutLayerIconAllowOverlap>("icon-allow-overlap"@, self.icon_allow_overlap, "icon-allow-overlap"@);
        if self.icon_allow_overlap is Some {
            self.icon_allow_overlap->0.lemma_round_trip();
        }
        Self::lemma_keys_differ(1);
        lemma_lookup_flatten(es, keys, 1);
        lemma_lookup_opt_entry::<SymbolLayoutLayerIconAnchor>("icon-anchor"@, self.icon_anchor, "icon-anchor"@);
        if self.icon_anchor is Some {
            self.icon_anchor->0.lemma_round_trip();
        }
        Self::lemma_keys_differ(2);
        lemma_lookup_flatten(es, keys, 2);
        lemma_lookup_opt_entry::<SymbolLayoutLayerIconIgnorePlacement>("icon-ignore-placement"@, self.icon_ignore_placement, "icon-ignore-placement"@);
        if self.icon_ignore_placement is Some {
            self.icon_ignore_placement->0.lemma_round_trip();
        }
        Self::lemma_keys_differ(3);
        lemma_lookup_flatten(es, keys, 3);
        lemma_lookup_opt_entry::<SymbolLayoutLayerIconImage>("icon-image"@, self.icon_image, "icon-image"@);
        if self.icon_image is Some {
            self.icon_image->0.lemma_round_trip();
        }
        Self::lemma_keys_differ(4);
        lemma_lookup_flatten(es, keys, 4);
        lemma_lookup_opt_entry::<SymbolLayoutLayerIconKeepUpright>("icon-keep-upright"@, self.icon_keep_upright, "icon-keep-upright"@);
        if self.icon_keep_upright is Some {
            self.icon_keep_upright->0.lemma_round_trip();
        }
        Self::lemma_keys_differ(5);
        lemma_lookup_flatten(es, keys, 5);
        lemma_lookup_opt_entry::<SymbolLayoutLayerIconOffset>("icon-offset"@, self.icon_offset, "icon-offset"@);
        if self.icon_offset is Some {
            self.icon_offset->0.lemma_round_trip();
        }
        Self::lemma_keys_differ(6);
        lemma_lookup_flatten(es, keys, 6);
        lemma_lookup_opt_entry::<SymbolLayoutLayerIconOptional>("icon-optional"@, self.icon_optional, "icon-optional"@);
        if self.icon_optional is Some {
            self.icon_optional->0.lemma_round_trip();
        }
        Self::lemma_keys_differ(7);
        lemma_lookup_flatten(es, keys, 7);
        lemma_lookup_opt_entry::<SymbolLayoutLayerIconOverlap>("icon-overlap"@, self.icon_overlap, "icon-overlap"@);
        if self.icon_overlap is Some {
            self.icon_overlap->0.lemma_round_trip();
        }
        Self::lemma_keys_differ(8);
        lemma_lookup_flatten(es, keys, 8);
        lemma_lookup_opt_entry::<SymbolLayoutLayerIconPadding>("icon-padding"@, self.icon_padding, "icon-padding"@);
        if self.icon_padding is Some {
            self.icon_padding->0.lemma_round_trip();
        }
        Self::lemma_keys_differ(9);
        lemma_lookup_flatten(es, keys, 9);
        lemma_lookup_opt_entry::<SymbolLayoutLayerIconPitchAlignment>("icon-pitch-alignment"@, self.icon_pitch_alignment, "icon-pitch-alignment"@);
        if self.icon_pitch_alignment is Some {
            self.icon_pitch_alignment->0.lemma_round_trip();
        }
        Self::lemma_keys_differ(10);
        lemma_lookup_flatten(es, keys, 10);
        lemma_lookup_opt_entry::<SymbolLayoutLayerIconRotate>("icon-rotate"@, self.icon_rotate, "icon-rotate"@);
        if self.icon_rotate is Some {
            self.icon_rotate->0.lemma_round_trip();
        }
        Self::lemma_keys_differ(11);
        lemma_lookup_flatten(es, keys, 11);
        lemma_lookup_opt_entry::<SymbolLayoutLayerIconRotationAlignment>("icon-rotation-alignment"@, self.icon_rotation_alignment, "icon-rotation-alignment"@);
        if self.icon_rotation_alignment is Some {
            self.icon_rotation_alignment->0.lemma_round_trip();
        }
        Self::lemma_keys_differ(12);
        lemma_lookup_flatten(es, keys, 12);
        lemma_lookup_opt_entry::<SymbolLayoutLayerIconSize>("icon-size"@, self.icon_size, "icon-size"@);
        if self.icon_size is Some {
            self.icon_size->0.lemma_round_trip();
        }
        Self::lemma_keys_differ(13);
        lemma_lookup_flatten(es, keys, 13);
        lemma_lookup_opt_entry::<SymbolLayoutLayerIconTextFit>("icon-text-fit"@, self.icon_text_fit, "icon-text-fit"@);
        if self.icon_text_fit is Some {
            self.icon_text_fit->0.lemma_round_trip();
        }
        Self::lemma_keys_differ(14);
        lemma_lookup_flatten(es, keys, 14);
        lemma_lookup_opt_entry::<SymbolLayoutLayerIconTextFitPadding>("icon-text-fit-padding"@, self.icon_text_fit_padding, "icon-text-fit-padding"@);
        if self.icon_text_fit_padding is Some {
            self.icon_text_fit_padding->0.lemma_round_trip();
        }
        Self::lemma_keys_differ(15);
        lemma_lookup_flatten(es, keys, 15);
        lemma_lookup_opt_entry::<SymbolLayoutLayerSymbolAvoidEdges>("symbol-avoid-edges"@, self.symbol_avoid_edges, "symbol-avoid-edges"@);
        if self.symbol_avoid_edges is Some {
            self.symbol_avoid_edges->0.lemma_round_trip();
        }
        Self::lemma_keys_differ(16);
        lemma_lookup_flatten(es, keys, 16);
        lemma_lookup_opt_entry::<SymbolLayoutLayerSymbolPlacement>("symbol-placement"@, self.symbol_placement, "symbol-placement"@);
        if self.symbol_placement is Some {
            self.symbol_placement->0.lemma_round_trip();
        }
        Self::lemma_keys_differ(17);
        lemma_lookup_flatten(es, keys, 17);
        lemma_lookup_opt_entry::<SymbolLayoutLayerSymbolSortKey>("symbol-sort-key"@, self.symbol_sort_key, "symbol-sort-key"@);
        if self.symbol_sort_key is Some {
            self.symbol_sort_key->0.lemma_round_trip();
        }
        Self::lemma_keys_differ(18);
        lemma_lookup_flatten(es, keys, 18);
        lemma_lookup_opt_entry::<SymbolLayoutLayerSymbolSpacing>("symbol-spacing"@, self.symbol_spacing, "symbol-spacing"@);
        if self.symbol_spacing is Some {
            self.symbol_spacing->0.lemma_round_trip();
        }
        Self::lemma_keys_differ(19);
        lemma_lookup_flatten(es, keys, 19);
        lemma_lookup_opt_entry::<SymbolLayoutLayerSymbolZOrder>("symbol-z-order"@, self.symbol_z_order, "symbol-z-order"@);
        if self.symbol_z_order is Some {
            self.symbol_z_order->0.lemma_round_trip();
        }
        Self::lemma_keys_differ(20);
        lemma_lookup_flatten(es, keys, 20);
        lemma_lookup_opt_entry::<SymbolLayoutLayerTextAllowOverlap>("text-allow-overlap"@, self.text_allow_overlap, "text-allow-overlap"@);
        if self.text_allow_overlap is Some {
            self.text_allow_overlap->0.lemma_round_trip();
        }
        Self::lemma_keys_differ(21);
        lemma_lookup_flatten(es, keys, 21);
        lemma_lookup_opt_entry::<SymbolLayoutLayerTextAnchor>("text-anchor"@, self.text_anchor, "text-anchor"@);
        if self.text_anchor is Some {
            self.text_anchor->0.lemma_round_trip();
        }
        Self::lemma_keys_differ(22);
        lemma_lookup_flatten(es, keys, 22);
        lemma_lookup_opt_entry::<SymbolLayoutLayerTextField>("text-field"@, self.text_field, "text-field"@);
        if self.text_field is Some {
            self.text_field->0.lemma_round_trip();
        }
        Self::lemma_keys_differ(23);
        lemma_lookup_flatten(es, keys, 23);
        lemma_lookup_opt_entry::<SymbolLayoutLayerTextFont>("text-font"@, self.text_font, "text-font"@);
        if self.text_font is Some {
            self.text_font->0.lemma_round_trip();
        }
        Self::lemma_keys_differ(24);
        lemma_lookup_flatten(es, keys, 24);
        lemma_lookup_opt_entry::<SymbolLayoutLayerTextIgnorePlacement>("text-ignore-placement"@, self.text_ignore_placement, "text-ignore-placement"@);
        if self.text_ignore_placement is Some {
            self.text_ignore_placement->0.lemma_round_trip();
        }
        Self::lemma_keys_differ(25);
        lemma_lookup_flatten(es, keys, 25);
        lemma_lookup_opt_entry::<SymbolLayoutLayerTextJustify>("text-justify"@, self.text_justify, "text-justify"@);
        if self.text_justify is Some {
            self.text_justify->0.lemma_round_trip();
        }
        Self::lemma_keys_differ(26);
        lemma_lookup_flatten(es, keys, 26);
        lemma_lookup_opt_entry::<SymbolLayoutLayerTextKeepUpright>("text-keep-upright"@, self.text_keep_upright, "text-keep-upright"@);
        if self.text_keep_upright is Some {
            self.text_keep_upright->0.lemma_round_trip();
        }
        Self::lemma_keys_differ(27);
        lemma_lookup_flatten(es, keys, 27);
        lemma_lookup_opt_entry::<SymbolLayoutLayerTextLetterSpacing>("text-letter-spacing"@, self.text_letter_spacing, "text-letter-spacing"@);
        if self.text_letter_spacing is Some {
            self.text_letter_spacing->0.lemma_round_trip();
        }
        Self::lemma_keys_differ(28);
        lemma_lookup_flatten(es, keys, 28);
        lemma_lookup_opt_entry::<SymbolLayoutLayerTextLineHeight>("text-line-height"@, self.text_line_height, "text-line-height"@);
        if self.text_line_height is Some {
            self.text_line_height->0.lemma_round_trip();
        }
        Self::lemma_keys_differ(29);
        lemma_lookup_flatten(es, keys, 29);
        lemma_lookup_opt_entry::<SymbolLayoutLayerTextMaxAngle>("text-max-angle"@, self.text_max_angle, "text-max-angle"@);
        if self.text_max_angle is Some {
            self.text_max_angle->0.lemma_round_trip();
        }
        Self::lemma_keys_differ(30);
        lemma_lookup_flatten(es, keys, 30);
        lemma_lookup_opt_entry::<SymbolLayoutLayerTextMaxWidth>("text-max-width"@, self.text_max_width, "text-max-width"@);
        if self.text_max_width is Some {
            self.text_max_width->0.lemma_round_trip();
        }
        Self::lemma_keys_differ(31);
        lemma_lookup_flatten(es, keys, 31);
        lemma_lookup_opt_entry::<SymbolLayoutLayerTextOffset>("text-offset"@, self.text_offset, "text-offset"@);
        if self.text_offset is Some {
            self.text_offset->0.lemma_round_trip();
        }
        Self::lemma_keys_differ(32);
        lemma_lookup_flatten(es, keys, 32);
        lemma_lookup_opt_entry::<SymbolLayoutLayerTextOptional>("text-optional"@, self.text_optional, "text-optional"@);
        if self.text_optional is Some {
            self.text_optional->0.lemma_round_trip();
        }
        Self::lemma_keys_differ(33);
        lemma_lookup_flatten(es, keys, 33);
        lemma_lookup_opt_entry::<SymbolLayoutLayerTextOverlap>("text-overlap"@, self.text_overlap, "text-overlap"@);
        if self.text_overlap is Some {
            self.text_overlap->0.lemma_round_trip();
        }
        Self::lemma_keys_differ(34);
        lemma_lookup_flatten(es, keys, 34);
        lemma_lookup_opt_entry::<SymbolLayoutLayerTextPadding>("text-padding"@, self.text_padding, "text-padding"@);
        if self.text_padding is Some {
            self.text_padding->0.lemma_round_trip();
        }
        Self::lemma_keys_differ(35);
        lemma_lookup_flatten(es, keys, 35);
        lemma_lookup_opt_entry::<SymbolLayoutLayerTextPitchAlignment>("text-pitch-alignment"@, self.text_pitch_alignment, "text-pitch-alignment"@);
        if self.text_pitch_alignment is Some {
            self.text_pitch_alignment->0.lemma_round_trip();
        }
        Self::lemma_keys_differ(36);
        lemma_lookup_flatten(es, keys, 36);
        lemma_lookup_opt_entry::<SymbolLayoutLayerTextRadialOffset>("text-radial-offset"@, self.text_radial_offset, "text-radial-offset"@);
        if self.text_radial_offset is Some {
            self.text_radial_offset->0.lemma_round_trip();
        }
        Self::lemma_keys_differ(37);
        lemma_lookup_flatten(es, keys, 37);
        lemma_lookup_opt_entry::<SymbolLayoutLayerTextRotate>("text-rotate"@, self.text_rotate, "text-rotate"@);
        if self.text_rotate is Some {
            self.text_rotate->0.lemma_round_trip();
        }
        Self::lemma_keys_differ(38);
        lemma_lookup_flatten(es, keys, 38);
        lemma_lookup_opt_entry::<SymbolLayoutLayerTextRotationAlignment>("text-rotation-alignment"@, self.text_rotation_alignment, "text-rotation-alignment"@);
        if self.text_rotation_alignment is Some {
            self.text_rotation_alignment->0.lemma_round_trip();
        }
        Self::lemma_keys_differ(39);
        lemma_lookup_flatten(es, keys, 39);
        lemma_lookup_opt_entry::<SymbolLayoutLayerTextSize>("text-size"@, self.text_size, "text-size"@);
        if self.text_size is Some {
            self.text_size->0.lemma_round_trip();
        }
        Self::lemma_keys_differ(40);
        lemma_lookup_flatten(es, keys, 40);
        lemma_lookup_opt_entry::<SymbolLayoutLayerTextTransform>("text-transform"@, self.text_transform, "text-transform"@);
        if self.text_transform is Some {
            self.text_transform->0.lemma_round_trip();
        }
        Self::lemma_keys_differ(41);
        lemma_lookup_flatten(es, keys, 41);
        lemma_lookup_opt_entry::<SymbolLayoutLayerTextVariableAnchor>("text-variable-anchor"@, self.text_variable_anchor, "text-variable-anchor"@);
        if self.text_variable_anchor is Some {
            self.text_variable_anchor->0.lemma_round_trip();
        }
        Self::lemma_keys_differ(42);
        lemma_lookup_flatten(es, keys, 42);
        lemma_lookup_opt_entry::<SymbolLayoutLayerTextVariableAnchorOffset>("text-variable-anchor-offset"@, self.text_variable_anchor_offset, "text-variable-anchor-offset"@);
        if self.text_variable_anchor_offset is Some {
            self.text_variable_anchor_offset->0.lemma_round_trip();
        }
        Self::lemma_keys_differ(43);
        lemma_lookup_flatten(es, keys, 43);
        lemma_lookup_opt_entry::<SymbolLayoutLayerTextWritingMode>("text-writing-mode"@, self.text_writing_mode, "text-writing-mode"@);
        if self.text_writing_mode is Some {
            self.text_writing_mode->0.lemma_round_trip();
        }
        Self::lemma_keys_differ(44);
        lemma_lookup_flatten(es, keys, 44);
        lemma_lookup_opt_entry::<SymbolLayoutLayerVisibility>("visibility"@, self.visibility, "visibility"@);
        if self.visibility is Some {
            self.visibility->0.lemma_round_trip();
        }
    }
}

/// If true, the icon will be visible even if it collides with other previously drawn symbols.
#[derive(PartialEq, Debug, Clone, Copy)]
pub struct SymbolLayoutLayerIconAllowOverlap(bool);

impl View for SymbolLayoutLayerIconAllowOverlap {
    type V = bool;

    closed spec fn view(&self) -> bool {
        self.0
    }
}

impl JsonDecode for SymbolLayoutLayerIconAllowOverlap {
    open spec fn accepts(v: Json) -> bool {
        v is Bool
    }

    open spec fn decodes(v: Json, x: Self) -> bool {
        v == Json::Bool(x@)
    }

    open spec fn rejection(v: Json) -> Seq<char> {
        bool::rejection(v)
    }

    fn decode(v: &JsonValue) -> (r: Result<Self, String>) {
        match bool::decode(v) {
            Ok(x) => Ok(SymbolLayoutLayerIconAllowOverlap(x)),
            Err(e) => Err(e),
        }
    }
}

impl JsonEncode for SymbolLayoutLayerIconAllowOverlap {
    open spec fn to_json(self) -> Json {
        Json::Bool(self@)
    }

    open spec fn round_trips(self) -> bool {
        true
    }

    fn encode(&self) -> (r: JsonValue) {
        bool::encode(&self.0)
    }

    proof fn lemma_round_trip(self) {
        bool::lemma_round_trip(self.0);
    }
}

impl Default for SymbolLayoutLayerIconAllowOverlap {
    fn default() -> (r: Self)
        ensures
            r@ == false,
    {
        SymbolLayoutLayerIconAllowOverlap(false)
    }
}

/// Part of the icon placed closest to the anchor.
#[derive(PartialEq, Eq, Debug, Clone, Copy)]
pub enum SymbolLayoutLayerIconAnchor {
    Bottom,
    BottomLeft,
    BottomRight,
    Center,
    Left,
    Right,
    Top,
    TopLeft,
    TopRight,
}

impl SymbolLayoutLayerIconAnchor {
    /// The name that stands for the value in a style document.
    pub open spec fn spec_name(self) -> Seq<char> {
        match self {
            SymbolLayoutLayerIconAnchor::Bottom => "bottom"@,
            SymbolLayoutLayerIconAnchor::BottomLeft => "bottom-left"@,
            SymbolLayoutLayerIconAnchor::BottomRight => "bottom-right"@,
            SymbolLayoutLayerIconAnchor::Center => "center"@,
            SymbolLayoutLayerIconAnchor::Left => "left"@,
            SymbolLayoutLayerIconAnchor::Right => "right"@,
            SymbolLayoutLayerIconAnchor::Top => "top"@,
            SymbolLayoutLayerIconAnchor::TopLeft => "top-left"@,
            SymbolLayoutLayerIconAnchor::TopRight => "top-right"@,
        }
    }

    /// The name that stands for the value in a style document.
    pub fn name(&self) -> (r: &'static str)
        ensures
            r@ == self.spec_name(),
    {
        match self {
            SymbolLayoutLayerIconAnchor::Bottom => "bottom",
            SymbolLayoutLayerIconAnchor::BottomLeft => "bottom-left",
            SymbolLayoutLayerIconAnchor::BottomRight => "bottom-right",
            SymbolLayoutLayerIconAnchor::Center => "center",
            SymbolLayoutLayerIconAnchor::Left => "left",
            SymbolLayoutLayerIconAnchor::Right => "right",
            SymbolLayoutLayerIconAnchor::Top => "top",
            SymbolLayoutLayerIconAnchor::TopLeft => "top-left",
            SymbolLayoutLayerIconAnchor::TopRight => "top-right",
        }
    }

    /// The value that a name stands for, if any.
    pub fn from_name(s: &str) -> (r: Option<SymbolLayoutLayerIconAnchor>)
        ensures
            r matches Some(x) ==> x.spec_name() == s@,
            r is None ==> forall|x: SymbolLayoutLayerIconAnchor| x.spec_name() != s@,
    {
        if str_eq(s, "bottom") {
            Some(SymbolLayoutLayerIconAnchor::Bottom)
        } else if str_eq(s, "bottom-left") {
            Some(SymbolLayoutLayerIconAnchor::BottomLeft)
        } else if str_eq(s, "bottom-right") {
            Some(SymbolLayoutLayerIconAnchor::BottomRight)
        } else if str_eq(s, "center") {
            Some(SymbolLayoutLayerIconAnchor::Center)
        } else if str_eq(s, "left") {
            Some(SymbolLayoutLayerIconAnchor::Left)
        } else if str_eq(s, "right") {
            Some(SymbolLayoutLayerIconAnchor::Right)
        } else if str_eq(s, "top") {
            Some(SymbolLayoutLayerIconAnchor::Top)
        } else if str_eq(s, "top-left") {
            Some(SymbolLayoutLayerIconAnchor::TopLeft)
        } else if str_eq(s, "top-right") {
            Some(SymbolLayoutLayerIconAnchor::TopRight)
        } else {
            None
        }
    }
}

impl SymbolLayoutLayerIconAnchor {
    /// Each value is read from, and written as, the name that the style specification gives
    /// it, and a document holding one of these names reads as that value and no other.
    pub proof fn lemma_read_by_name()
        ensures
            forall|x: SymbolLayoutLayerIconAnchor| <SymbolLayoutLayerIconAnchor as JsonDecode>::decodes(Json::Str("center"@), x) <==> x == SymbolLayoutLayerIconAnchor::Center,
            forall|x: SymbolLayoutLayerIconAnchor| <SymbolLayoutLayerIconAnchor as JsonDecode>::decodes(Json::Str("top-right"@), x) <==> x == SymbolLayoutLayerIconAnchor::TopRight,
            <SymbolLayoutLayerIconAnchor as JsonEncode>::to_json(SymbolLayoutLayerIconAnchor::TopRight) == Json::Str("top-right"@),
            forall|x: SymbolLayoutLayerIconAnchor| <SymbolLayoutLayerIconAnchor as JsonDecode>::decodes(Json::Str("bottom"@), x) <==> x == SymbolLayoutLayerIconAnchor::Bottom,
            forall|x: SymbolLayoutLayerIconAnchor| <SymbolLayoutLayerIconAnchor as JsonDecode>::decodes(Json::Str("top-left"@), x) <==> x == SymbolLayoutLayerIconAnchor::TopLeft,
            <SymbolLayoutLayerIconAnchor as JsonEncode>::to_json(SymbolLayoutLayerIconAnchor::Right) == Json::Str("right"@),
            <SymbolLayoutLayerIconAnchor as JsonEncode>::to_json(SymbolLayoutLayerIconAnchor::BottomLeft) == Json::Str("bottom-left"@),
            <SymbolLayoutLayerIconAnchor as JsonEncode>::to_json(SymbolLayoutLayerIconAnchor::TopLeft) == Json::Str("top-left"@),
            <SymbolLayoutLayerIconAnchor as JsonEncode>::to_json(SymbolLayoutLayerIconAnchor::Bottom) == Json::Str("bottom"@),
            <SymbolLayoutLayerIconAnchor as JsonEncode>::to_json(SymbolLayoutLayerIconAnchor::Left) == Json::Str("left"@),
            forall|x: SymbolLayoutLayerIconAnchor| <SymbolLayoutLayerIconAnchor as JsonDecode>::decodes(Json::Str("top"@), x) <==> x == SymbolLayoutLayerIconAnchor::Top,
            <SymbolLayoutLayerIconAnchor as JsonEncode>::to_json(SymbolLayoutLayerIconAnchor::BottomRight) == Json::Str("bottom-right"@),
            forall|x: SymbolLayoutLayerIconAnchor| <SymbolLayoutLayerIconAnchor as JsonDecode>::decodes(Json::Str("bottom-left"@), x) <==> x == SymbolLayoutLayerIconAnchor::BottomLeft,
            forall|x: SymbolLayoutLayerIconAnchor| <SymbolLayoutLayerIconAnchor as JsonDecode>::decodes(Json::Str("left"@), x) <==> x == SymbolLayoutLayerIconAnchor::Left,
            forall|x: SymbolLayoutLayerIconAnchor| <SymbolLayoutLayerIconAnchor as JsonDecode>::decodes(Json::Str("right"@), x) <==> x == SymbolLayoutLayerIconAnchor::Right,
            <SymbolLayoutLayerIconAnchor as JsonEncode>::to_json(SymbolLayoutLayerIconAnchor::Top) == Json::Str("top"@),
            forall|x: SymbolLayoutLayerIconAnchor| <SymbolLayoutLayerIconAnchor as JsonDecode>::decodes(Json::Str("bottom-right"@), x) <==> x == SymbolLayoutLayerIconAnchor::BottomRight,
            <SymbolLayoutLayerIconAnchor as JsonEncode>::to_json(SymbolLayoutLayerIconAnchor::Center) == Json::Str("center"@),
    {
        reveal_strlit("bottom-left");
        reveal_strlit("center");
        reveal_strlit("left");
        reveal_strlit("bottom-right");
        reveal_strlit("bottom");
        reveal_strlit("top-right");
        reveal_strlit("right");
        reveal_strlit("top");
        reveal_strlit("top-left");
        assert("top"@.len() != "top-left"@.len());
        assert("bottom-left"@.len() != "right"@.len());
        assert("bottom-left"@.len() != "top"@.len());
        assert("bottom-right"@.len() != "center"@.len());
        assert("right"@.len() != "top-left"@.len());
        assert("bottom-left"@.len() != "left"@.len());
        assert("bottom"@.len() != "bottom-right"@.len());
        assert("right"@.len() != "top-right"@.len());
        assert("center"@.len() != "top-left"@.len());
        assert("center"@.len() != "top-right"@.len());
        assert("bottom"@.len() != "bottom-left"@.len());
        assert("bottom-left"@.len() != "top-right"@.len());
        assert("bottom"@[0] != "center"@[0]);
        assert("bottom-right"@.len() != "right"@.len());
        assert("bottom"@.len() != "top"@.len());
        assert("right"@.len() != "top"@.len());
        assert("bottom"@.len() != "right"@.len());
        assert("left"@.len() != "top-right"@.len());
        assert("top-left"@.len() != "top-right"@.len());
        assert("bottom-right"@.len() != "top-left"@.len());
        assert("bottom-right"@.len() != "top"@.len());
        assert("center"@.len() != "right"@.len());
        assert("left"@.len() != "right"@.len());
        assert("left"@.len() != "top-left"@.len());
        assert("bottom-left"@.len() != "center"@.len());
        assert("bottom"@.len() != "left"@.len());
        assert("bottom-right"@.len() != "left"@.len());
        assert("bottom-right"@.len() != "top-right"@.len());
        assert("top"@.len() != "top-right"@.len());
        assert("bottom-left"@.len() != "top-left"@.len());
        assert("center"@.len() != "top"@.len());
        assert("bottom-left"@.len() != "bottom-right"@.len());
        assert("bottom"@.len() != "top-right"@.len());
        assert("bottom"@.len() != "top-left"@.len());
        assert("center"@.len() != "left"@.len());
        assert("left"@.len() != "top"@.len());
    }
}

impl JsonDecode for SymbolLayoutLayerIconAnchor {
    /// The name of a value, or an object whose one entry has the name as its key and `null`.
    open spec fn accepts(v: Json) -> bool {
        ||| (v is Str && exists|x: SymbolLayoutLayerIconAnchor| x.spec_name() == v->Str_0)
        ||| (v is Object && v->Object_0.len() == 1 && v->Object_0[0].1 is Null && exists|x: SymbolLayoutLayerIconAnchor| x.spec_name() == v->Object_0[0].0)
    }

    open spec fn decodes(v: Json, x: Self) -> bool {
        ||| v == Json::Str(x.spec_name())
        ||| (v is Object && v->Object_0.len() == 1 && v->Object_0[0] == (x.spec_name(), Json::Null))
    }

    open spec fn rejection(v: Json) -> Seq<char> {
        if v is Str {
            unknown_variant(v->Str_0) + ", expected one of `bottom`, `bottom-left`, `bottom-right`, `center`, `left`, `right`, `top`, `top-left`, `top-right`"@
        } else if v is Object {
            let o = v->Object_0;
            if o.len() != 1 {
                "invalid value: map, expected map with a single key"@
            } else if !(exists|x: SymbolLayoutLayerIconAnchor| x.spec_name() == o[0].0) {
                unknown_variant(o[0].0) + ", expected one of `bottom`, `bottom-left`, `bottom-right`, `center`, `left`, `right`, `top`, `top-left`, `top-right`"@
            } else {
                type_error(o[0].1, "unit"@)
            }
        } else {
            type_error(v, "string or map"@)
        }
    }

    fn decode(v: &JsonValue) -> (r: Result<Self, String>) {
        match v {
            JsonValue::String(s) => match Self::from_name(s.as_str()) {
                Some(x) => Ok(x),
                None => {
                    let mut m = make_unknown_variant(s.as_str());
                    m.append(", expected one of `bottom`, `bottom-left`, `bottom-right`, `center`, `left`, `right`, `top`, `top-left`, `top-right`");
                    Err(m)
                },
            },
            JsonValue::Object(fields) => {
                if fields.len() != 1 {
                    return Err("invalid value: map, expected map with a single key".to_string());
                }
                proof {
                    assert(entries_model(*fields)[0] == (fields@[0].0@, fields@[0].1.model()));
                }
                match Self::from_name(fields[0].0.as_str()) {
                    Some(x) => match &fields[0].1 {
                        JsonValue::Null => Ok(x),
                        _ => Err(make_type_error(&fields[0].1, "unit")),
                    },
                    None => {
                        let mut m = make_unknown_variant(fields[0].0.as_str());
                        m.append(", expected one of `bottom`, `bottom-left`, `bottom-right`, `center`, `left`, `right`, `top`, `top-left`, `top-right`");
                        Err(m)
                    },
                }
            },
            _ => Err(make_type_error(v, "string or map")),
        }
    }
}

impl JsonEncode for SymbolLayoutLayerIconAnchor {
    open spec fn to_json(self) -> Json {
        Json::Str(self.spec_name())
    }

    open spec fn round_trips(self) -> bool {
        true
    }

    fn encode(&self) -> (r: JsonValue) {
        JsonValue::String(self.name().to_string())
    }

    proof fn lemma_round_trip(self) {
    }
}

impl Default for SymbolLayoutLayerIconAnchor {
    fn default() -> (r: Self)
        ensures
            r == SymbolLayoutLayerIconAnchor::Center,
    {
        SymbolLayoutLayerIconAnchor::Center
    }
}

/// If true, other symbols can be visible even if they collide with the icon.
#[derive(PartialEq, Debug, Clone, Copy)]
pub struct SymbolLayoutLayerIconIgnorePlacement(bool);

impl View for SymbolLayoutLayerIconIgnorePlacement {
    type V = bool;

    closed spec fn view(&self) -> bool {
        self.0
    }
}

impl JsonDecode for SymbolLayoutLayerIconIgnorePlacement {
    open spec fn accepts(v: Json) -> bool {
        v is Bool
    }

    open spec fn decodes(v: Json, x: Self) -> bool {
        v == Json::Bool(x@)
    }

    open spec fn rejection(v: Json) -> Seq<char> {
        bool::rejection(v)
    }

    fn decode(v: &JsonValue) -> (r: Result<Self, String>) {
        match bool::decode(v) {
            Ok(x) => Ok(SymbolLayoutLayerIconIgnorePlacement(x)),
            Err(e) => Err(e),
        }
    }
}

impl JsonEncode for SymbolLayoutLayerIconIgnorePlacement {
    open spec fn to_json(self) -> Json {
        Json::Bool(self@)
    }

    open spec fn round_trips(self) -> bool {
        true
    }

    fn encode(&self) -> (r: JsonValue) {
        bool::encode(&self.0)
    }

    proof fn lemma_round_trip(self) {
        bool::lemma_round_trip(self.0);
    }
}

impl Default for SymbolLayoutLayerIconIgnorePlacement {
    fn default() -> (r: Self)
        ensures
            r@ == false,
    {
        SymbolLayoutLayerIconIgnorePlacement(false)
    }
}

/// Name of image in sprite to use for drawing an image background.
#[derive(PartialEq, Eq, Debug, Clone)]
pub struct SymbolLayoutLayerIconImage(String);

impl View for SymbolLayoutLayerIconImage {
    type V = Seq<char>;

    closed spec fn view(&self) -> Seq<char> {
        self.0@
    }
}

impl JsonDecode for SymbolLayoutLayerIconImage {
    open spec fn accepts(v: Json) -> bool {
        v is Str
    }

    open spec fn decodes(v: Json, x: Self) -> bool {
        v == Json::Str(x@)
    }

    open spec fn rejection(v: Json) -> Seq<char> {
        String::rejection(v)
    }

    fn decode(v: &JsonValue) -> (r: Result<Self, String>) {
        match String::decode(v) {
            Ok(x) => Ok(SymbolLayoutLayerIconImage(x)),
            Err(e) => Err(e),
        }
    }
}

impl JsonEncode for SymbolLayoutLayerIconImage {
    open spec fn to_json(self) -> Json {
        Json::Str(self@)
    }

    open spec fn round_trips(self) -> bool {
        true
    }

    fn encode(&self) -> (r: JsonValue) {
        String::encode(&self.0)
    }

    proof fn lemma_round_trip(self) {
        String::lemma_round_trip(self.0);
    }
}

/// If true, the icon may be flipped to prevent it from being rendered upside-down.
#[derive(PartialEq, Debug, Clone, Copy)]
pub struct SymbolLayoutLayerIconKeepUpright(bool);

impl View for SymbolLayoutLayerIconKeepUpright {
    type V = bool;

    closed spec fn view(&self) -> bool {
        self.0
    }
}

impl JsonDecode for SymbolLayoutLayerIconKeepUpright {
    open spec fn accepts(v: Json) -> bool {
        v is Bool
    }

    open spec fn decodes(v: Json, x: Self) -> bool {
        v == Json::Bool(x@)
    }

    open spec fn rejection(v: Json) -> Seq<char> {
        bool::rejection(v)
    }

    fn decode(v: &JsonValue) -> (r: Result<Self, String>) {
        match bool::decode(v) {
            Ok(x) => Ok(SymbolLayoutLayerIconKeepUpright(x)),
            Err(e) => Err(e),
        }
    }
}

impl JsonEncode for SymbolLayoutLayerIconKeepUpright {
    open spec fn to_json(self) -> Json {
        Json::Bool(self@)
    }

    open spec fn round_trips(self) -> bool {
        true
    }

    fn encode(&self) -> (r: JsonValue) {
        bool::encode(&self.0)
    }

    proof fn lemma_round_trip(self) {
        bool::lemma_round_trip(self.0);
    }
}

impl Default for SymbolLayoutLayerIconKeepUpright {
    fn default() -> (r: Self)
        ensures
            r@ == false,
    {
        SymbolLayoutLayerIconKeepUpright(false)
    }
}

/// Offset distance of icon from its anchor. Positive values indicate right and down, while negative values indicate left and up. Each component is multiplied by the value of `icon-size` to obtain the final offset in pixels. When combined with `icon-rotate` the offset will be as if the rotated direction was up.
#[derive(PartialEq, Debug, Clone)]
pub struct SymbolLayoutLayerIconOffset(Box<[JsonNumber; 2]>);

impl JsonDecode for SymbolLayoutLayerIconOffset {
    closed spec fn accepts(v: Json) -> bool {
        <[JsonNumber; 2] as JsonDecode>::accepts(v)
    }

    closed spec fn decodes(v: Json, x: Self) -> bool {
        <[JsonNumber; 2] as JsonDecode>::decodes(v, *x.0)
    }

    closed spec fn rejection(v: Json) -> Seq<char> {
        <[JsonNumber; 2] as JsonDecode>::rejection(v)
    }

    fn decode(v: &JsonValue) -> (r: Result<Self, String>) {
        match <[JsonNumber; 2] as JsonDecode>::decode(v) {
            Ok(x) => Ok(SymbolLayoutLayerIconOffset(Box::new(x))),
            Err(e) => Err(e),
        }
    }
}

impl JsonEncode for SymbolLayoutLayerIconOffset {
    closed spec fn to_json(self) -> Json {
        <[JsonNumber; 2] as JsonEncode>::to_json((*self.0))
    }

    closed spec fn round_trips(self) -> bool {
        <[JsonNumber; 2] as JsonEncode>::round_trips((*self.0))
    }

    fn encode(&self) -> (r: JsonValue) {
        <[JsonNumber; 2] as JsonEncode>::encode(&(*self.0))
    }

    proof fn lemma_round_trip(self) {
        <[JsonNumber; 2] as JsonEncode>::lemma_round_trip((*self.0));
    }
}

impl Default for SymbolLayoutLayerIconOffset {
    fn default() -> (r: Self)
        ensures
            r.to_json() == Json::Array(seq![Json::Number("0"@), Json::Number("0"@)]),
    {
        let r = SymbolLayoutLayerIconOffset(Box::new([JsonNumber::from_literal("0"), JsonNumber::from_literal("0")]));
        proof {
            assert(r.to_json() =~~= Json::Array(seq![Json::Number("0"@), Json::Number("0"@)]));
        }
        r
    }
}

/// If true, text will display without their corresponding icons when the icon collides with other symbols and the text does not.
#[derive(PartialEq, Debug, Clone, Copy)]
pub struct SymbolLayoutLayerIconOptional(bool);

impl View for SymbolLayoutLayerIconOptional {
    type V = bool;

    closed spec fn view(&self) -> bool {
        self.0
    }
}

impl JsonDecode for SymbolLayoutLayerIconOptional {
    open spec fn accepts(v: Json) -> bool {
        v is Bool
    }

    open spec fn decodes(v: Json, x: Self) -> bool {
        v == Json::Bool(x@)
    }

    open spec fn rejection(v: Json) -> Seq<char> {
        bool::rejection(v)
    }

    fn decode(v: &JsonValue) -> (r: Result<Self, String>) {
        match bool::decode(v) {
            Ok(x) => Ok(SymbolLayoutLayerIconOptional(x)),
            Err(e) => Err(e),
        }
    }
}

impl JsonEncode for SymbolLayoutLayerIconOptional {
    open spec fn to_json(self) -> Json {
        Json::Bool(self@)
    }

    open spec fn round_trips(self) -> bool {
        true
    }

    fn encode(&self) -> (r: JsonValue) {
        bool::encode(&self.0)
    }

    proof fn lemma_round_trip(self) {
        bool::lemma_round_trip(self.0);
    }
}

impl Default for SymbolLayoutLayerIconOptional {
    fn default() -> (r: Self)
        ensures
            r@ == false,
    {
        SymbolLayoutLayerIconOptional(false)
    }
}

/// Allows for control over whether to show an icon when it overlaps other symbols on the map. If `icon-overlap` is not set, `icon-allow-overlap` is used instead.
#[derive(PartialEq, Eq, Debug, Clone, Copy)]
pub enum SymbolLayoutLayerIconOverlap {
    Always,
    Cooperative,
    Never,
}

impl SymbolLayoutLayerIconOverlap {
    /// The name that stands for the value in a style document.
    pub open spec fn spec_name(self) -> Seq<char> {
        match self {
            SymbolLayoutLayerIconOverlap::Always => "always"@,
            SymbolLayoutLayerIconOverlap::Cooperative => "cooperative"@,
            SymbolLayoutLayerIconOverlap::Never => "never"@,
        }
    }

    /// The name that stands for the value in a style document.
    pub fn name(&self) -> (r: &'static str)
        ensures
            r@ == self.spec_name(),
    {
        match self {
            SymbolLayoutLayerIconOverlap::Always => "always",
            SymbolLayoutLayerIconOverlap::Cooperative => "cooperative",
            SymbolLayoutLayerIconOverlap::Never => "never",
        }
    }

    /// The value that a name stands for, if any.
    pub fn from_name(s: &str) -> (r: Option<SymbolLayoutLayerIconOverlap>)
        ensures
            r matches Some(x) ==> x.spec_name() == s@,
            r is None ==> forall|x: SymbolLayoutLayerIconOverlap| x.spec_name() != s@,
    {
        if str_eq(s, "always") {
            Some(SymbolLayoutLayerIconOverlap::Always)
        } else if str_eq(s, "cooperative") {
            Some(SymbolLayoutLayerIconOverlap::Cooperative)
        } else if str_eq(s, "never") {
            Some(SymbolLayoutLayerIconOverlap::Never)
        } else {
            None
        }
    }
}

impl SymbolLayoutLayerIconOverlap {
    /// Each value is read from, and written as, the name that the style specification gives
    /// it, and a document holding one of these names reads as that value and no other.
    pub proof fn lemma_read_by_name()
        ensures
            <SymbolLayoutLayerIconOverlap as JsonEncode>::to_json(SymbolLayoutLayerIconOverlap::Cooperative) == Json::Str("cooperative"@),
            <SymbolLayoutLayerIconOverlap as JsonEncode>::to_json(SymbolLayoutLayerIconOverlap::Always) == Json::Str("always"@),
            <SymbolLayoutLayerIconOverlap as JsonEncode>::to_json(SymbolLayoutLayerIconOverlap::Never) == Json::Str("never"@),
            forall|x: SymbolLayoutLayerIconOverlap| <SymbolLayoutLayerIconOverlap as JsonDecode>::decodes(Json::Str("cooperative"@), x) <==> x == SymbolLayoutLayerIconOverlap::Cooperative,
            forall|x: SymbolLayoutLayerIconOverlap| <SymbolLayoutLayerIconOverlap as JsonDecode>::decodes(Json::Str("always"@), x) <==> x == SymbolLayoutLayerIconOverlap::Always,
            forall|x: SymbolLayoutLayerIconOverlap| <SymbolLayoutLayerIconOverlap as JsonDecode>::decodes(Json::Str("never"@), x) <==> x == SymbolLayoutLayerIconOverlap::Never,
    {
        reveal_strlit("never");
        reveal_strlit("always");
        reveal_strlit("cooperative");
        assert("cooperative"@.len() != "never"@.len());
        assert("always"@.len() != "never"@.len());
        assert("always"@.len() != "cooperative"@.len());
    }
}

impl JsonDecode for SymbolLayoutLayerIconOverlap {
    /// The name of a value, or an object whose one entry has the name as its key and `null`.
    open spec fn accepts(v: Json) -> bool {
        ||| (v is Str && exists|x: SymbolLayoutLayerIconOverlap| x.spec_name() == v->Str_0)
        ||| (v is Object && v->Object_0.len() == 1 && v->Object_0[0].1 is Null && exists|x: SymbolLayoutLayerIconOverlap| x.spec_name() == v->Object_0[0].0)
    }

    open spec fn decodes(v: Json, x: Self) -> bool {
        ||| v == Json::Str(x.spec_name())
        ||| (v is Object && v->Object_0.len() == 1 && v->Object_0[0] == (x.spec_name(), Json::Null))
    }

    open spec fn rejection(v: Json) -> Seq<char> {
        if v is Str {
            unknown_variant(v->Str_0) + ", expected one of `always`, `cooperative`, `never`"@
        } else if v is Object {
            let o = v->Object_0;
            if o.len() != 1 {
                "invalid value: map, expected map with a single key"@
            } else if !(exists|x: SymbolLayoutLayerIconOverlap| x.spec_name() == o[0].0) {
                unknown_variant(o[0].0) + ", expected one of `always`, `cooperative`, `never`"@
            } else {
                type_error(o[0].1, "unit"@)
            }
        } else {
            type_error(v, "string or map"@)
        }
    }

    fn decode(v: &JsonValue) -> (r: Result<Self, String>) {
        match v {
            JsonValue::String(s) => match Self::from_name(s.as_str()) {
                Some(x) => Ok(x),
                None => {
                    let mut m = make_unknown_variant(s.as_str());
                    m.append(", expected one of `always`, `cooperative`, `never`");
                    Err(m)
                },
            },
            JsonValue::Object(fields) => {
                if fields.len() != 1 {
                    return Err("invalid value: map, expected map with a single key".to_string());
                }
                proof {
                    assert(entries_model(*fields)[0] == (fields@[0].0@, fields@[0].1.model()));
                }
                match Self::from_name(fields[0].0.as_str()) {
                    Some(x) => match &fields[0].1 {
                        JsonValue::Null => Ok(x),
                        _ => Err(make_type_error(&fields[0].1, "unit")),
                    },
                    None => {
                        let mut m = make_unknown_variant(fields[0].0.as_str());
                        m.append(", expected one of `always`, `cooperative`, `never`");
                        Err(m)
                    },
                }
            },
            _ => Err(make_type_error(v, "string or map")),
        }
    }
}

impl JsonEncode for SymbolLayoutLayerIconOverlap {
    open spec fn to_json(self) -> Json {
        Json::Str(self.spec_name())
    }

    open spec fn round_trips(self) -> bool {
        true
    }

    fn encode(&self) -> (r: JsonValue) {
        JsonValue::String(self.name().to_string())
    }

    proof fn lemma_round_trip(self) {
    }
}

/// Size of additional area round the icon bounding box used for detecting symbol collisions.
#[derive(PartialEq, Debug, Clone)]
pub enum SymbolLayoutLayerIconPadding {
    /// A single value applies to all four sides
    One(Box<[JsonNumber; 1]>),
    /// two values apply to `[top/bottom, left/right]`
    Two(Box<[JsonNumber; 2]>),
    /// three values apply to `[top, left/right, bottom]`
    Three(Box<[JsonNumber; 3]>),
    /// four values apply to `[top, right, bottom, left]`
    Four(Box<[JsonNumber; 4]>),
}

impl JsonDecode for SymbolLayoutLayerIconPadding {
    open spec fn accepts(v: Json) -> bool {
        <[JsonNumber; 1] as JsonDecode>::accepts(v) || <[JsonNumber; 2] as JsonDecode>::accepts(v) || <[JsonNumber; 3] as JsonDecode>::accepts(v) || <[JsonNumber; 4] as JsonDecode>::accepts(v)
    }

    open spec fn decodes(v: Json, x: Self) -> bool {
        match x {
            SymbolLayoutLayerIconPadding::One(t) => <[JsonNumber; 1] as JsonDecode>::accepts(v) && <[JsonNumber; 1] as JsonDecode>::decodes(v, *t),
            SymbolLayoutLayerIconPadding::Two(t) => !<[JsonNumber; 1] as JsonDecode>::accepts(v) && <[JsonNumber; 2] as JsonDecode>::accepts(v) && <[JsonNumber; 2] as JsonDecode>::decodes(v, *t),
            SymbolLayoutLayerIconPadding::Three(t) => !<[JsonNumber; 1] as JsonDecode>::accepts(v) && !<[JsonNumber; 2] as JsonDecode>::accepts(v) && <[JsonNumber; 3] as JsonDecode>::accepts(v) && <[JsonNumber; 3] as JsonDecode>::decodes(v, *t),
            SymbolLayoutLayerIconPadding::Four(t) => !<[JsonNumber; 1] as JsonDecode>::accepts(v) && !<[JsonNumber; 2] as JsonDecode>::accepts(v) && !<[JsonNumber; 3] as JsonDecode>::accepts(v) && <[JsonNumber; 4] as JsonDecode>::accepts(v) && <[JsonNumber; 4] as JsonDecode>::decodes(v, *t),
        }
    }

    open spec fn rejection(v: Json) -> Seq<char> {
        "SymbolLayoutLayerIconPadding: no variant matched. Expected One([serde_json::Number; 1]) | Two([serde_json::Number; 2]) | Three([serde_json::Number; 3]) | Four([serde_json::Number; 4]). Errors: ["@ + "One: "@ + <[JsonNumber; 1] as JsonDecode>::rejection(v) + "; Two: "@ + <[JsonNumber; 2] as JsonDecode>::rejection(v) + "; Three: "@ + <[JsonNumber; 3] as JsonDecode>::rejection(v) + "; Four: "@ + <[JsonNumber; 4] as JsonDecode>::rejection(v) + "]"@
    }

    fn decode(v: &JsonValue) -> (r: Result<Self, String>) {
        let e0 = match <[JsonNumber; 1] as JsonDecode>::decode(v) {
            Ok(x) => {
                return Ok(SymbolLayoutLayerIconPadding::One(Box::new(x)));
            },
            Err(e) => e,
        };
        let e1 = match <[JsonNumber; 2] as JsonDecode>::decode(v) {
            Ok(x) => {
                return Ok(SymbolLayoutLayerIconPadding::Two(Box::new(x)));
            },
            Err(e) => e,
        };
        let e2 = match <[JsonNumber; 3] as JsonDecode>::decode(v) {
            Ok(x) => {
                return Ok(SymbolLayoutLayerIconPadding::Three(Box::new(x)));
            },
            Err(e) => e,
        };
        let e3 = match <[JsonNumber; 4] as JsonDecode>::decode(v) {
            Ok(x) => {
                return Ok(SymbolLayoutLayerIconPadding::Four(Box::new(x)));
            },
            Err(e) => e,
        };
        let mut m = "SymbolLayoutLayerIconPadding: no variant matched. Expected One([serde_json::Number; 1]) | Two([serde_json::Number; 2]) | Three([serde_json::Number; 3]) | Four([serde_json::Number; 4]). Errors: [".to_string();
        m.append("One: ");
        m.append(e0.as_str());
        m.append("; Two: ");
        m.append(e1.as_str());
        m.append("; Three: ");
        m.append(e2.as_str());
        m.append("; Four: ");
        m.append(e3.as_str());
        m.append("]");
        Err(m)
    }
}

impl JsonEncode for SymbolLayoutLayerIconPadding {
    open spec fn to_json(self) -> Json {
        match self {
            SymbolLayoutLayerIconPadding::One(t) => <[JsonNumber; 1] as JsonEncode>::to_json(*t),
            SymbolLayoutLayerIconPadding::Two(t) => <[JsonNumber; 2] as JsonEncode>::to_json(*t),
            SymbolLayoutLayerIconPadding::Three(t) => <[JsonNumber; 3] as JsonEncode>::to_json(*t),
            SymbolLayoutLayerIconPadding::Four(t) => <[JsonNumber; 4] as JsonEncode>::to_json(*t),
        }
    }

    open spec fn round_trips(self) -> bool {
        match self {
            SymbolLayoutLayerIconPadding::One(t) => <[JsonNumber; 1] as JsonEncode>::round_trips(*t),
            SymbolLayoutLayerIconPadding::Two(t) => <[JsonNumber; 2] as JsonEncode>::round_trips(*t) && !<[JsonNumber; 1] as JsonDecode>::accepts(<[JsonNumber; 2] as JsonEncode>::to_json(*t)),
            SymbolLayoutLayerIconPadding::Three(t) => <[JsonNumber; 3] as JsonEncode>::round_trips(*t) && !<[JsonNumber; 1] as JsonDecode>::accepts(<[JsonNumber; 3] as JsonEncode>::to_json(*t)) && !<[JsonNumber; 2] as JsonDecode>::accepts(<[JsonNumber; 3] as JsonEncode>::to_json(*t)),
            SymbolLayoutLayerIconPadding::Four(t) => <[JsonNumber; 4] as JsonEncode>::round_trips(*t) && !<[JsonNumber; 1] as JsonDecode>::accepts(<[JsonNumber; 4] as JsonEncode>::to_json(*t)) && !<[JsonNumber; 2] as JsonDecode>::accepts(<[JsonNumber; 4] as JsonEncode>::to_json(*t)) && !<[JsonNumber; 3] as JsonDecode>::accepts(<[JsonNumber; 4] as JsonEncode>::to_json(*t)),
        }
    }

    fn encode(&self) -> (r: JsonValue) {
        match self {
            SymbolLayoutLayerIconPadding::One(t) => <[JsonNumber; 1] as JsonEncode>::encode(&**t),
            SymbolLayoutLayerIconPadding::Two(t) => <[JsonNumber; 2] as JsonEncode>::encode(&**t),
            SymbolLayoutLayerIconPadding::Three(t) => <[JsonNumber; 3] as JsonEncode>::encode(&**t),
            SymbolLayoutLayerIconPadding::Four(t) => <[JsonNumber; 4] as JsonEncode>::encode(&**t),
        }
    }

    proof fn lemma_round_trip(self) {
        match self {
            SymbolLayoutLayerIconPadding::One(t) => <[JsonNumber; 1] as JsonEncode>::lemma_round_trip(*t),
            SymbolLayoutLayerIconPadding::Two(t) => <[JsonNumber; 2] as JsonEncode>::lemma_round_trip(*t),
            SymbolLayoutLayerIconPadding::Three(t) => <[JsonNumber; 3] as JsonEncode>::lemma_round_trip(*t),
            SymbolLayoutLayerIconPadding::Four(t) => <[JsonNumber; 4] as JsonEncode>::lemma_round_trip(*t),
        }
    }
}

impl Default for SymbolLayoutLayerIconPadding {
    fn default() -> (r: Self)
        ensures
            r.to_json() == Json::Array(seq![Json::Number("2"@)]),
            r is One,
    {
        let r = SymbolLayoutLayerIconPadding::One(Box::new([JsonNumber::from_literal("2")]));
        proof {
            assert(r.to_json() =~~= Json::Array(seq![Json::Number("2"@)]));
        }
        r
    }
}

/// Orientation of icon when map is pitched.
#[derive(PartialEq, Eq, Debug, Clone, Copy)]
pub enum SymbolLayoutLayerIconPitchAlignment {
    Auto,
    MapValue,
    Viewport,
}

impl SymbolLayoutLayerIconPitchAlignment {
    /// The name that stands for the value in a style document.
    pub open spec fn spec_name(self) -> Seq<char> {
        match self {
            SymbolLayoutLayerIconPitchAlignment::Auto => "auto"@,
            SymbolLayoutLayerIconPitchAlignment::MapValue => "map"@,
            SymbolLayoutLayerIconPitchAlignment::Viewport => "viewport"@,
        }
    }

    /// The name that stands for the value in a style document.
    pub fn name(&self) -> (r: &'static str)
        ensures
            r@ == self.spec_name(),
    {
        match self {
            SymbolLayoutLayerIconPitchAlignment::Auto => "auto",
            SymbolLayoutLayerIconPitchAlignment::MapValue => "map",
            SymbolLayoutLayerIconPitchAlignment::Viewport => "viewport",
        }
    }

    /// The value that a name stands for, if any.
    pub fn from_name(s: &str) -> (r: Option<SymbolLayoutLayerIconPitchAlignment>)
        ensures
            r matches Some(x) ==> x.spec_name() == s@,
            r is None ==> forall|x: SymbolLayoutLayerIconPitchAlignment| x.spec_name() != s@,
    {
        if str_eq(s, "auto") {
            Some(SymbolLayoutLayerIconPitchAlignment::Auto)
        } else if str_eq(s, "map") {
            Some(SymbolLayoutLayerIconPitchAlignment::MapValue)
        } else if str_eq(s, "viewport") {
            Some(SymbolLayoutLayerIconPitchAlignment::Viewport)
        } else {
            None
        }
    }
}

impl SymbolLayoutLayerIconPitchAlignment {
    /// Each value is read from, and written as, the name that the style specification gives
    /// it, and a document holding one of these names reads as that value and no other.
    pub proof fn lemma_read_by_name()
        ensures
            forall|x: SymbolLayoutLayerIconPitchAlignment| <SymbolLayoutLayerIconPitchAlignment as JsonDecode>::decodes(Json::Str("viewport"@), x) <==> x == SymbolLayoutLayerIconPitchAlignment::Viewport,
            <SymbolLayoutLayerIconPitchAlignment as JsonEncode>::to_json(SymbolLayoutLayerIconPitchAlignment::MapValue) == Json::Str("map"@),
            <SymbolLayoutLayerIconPitchAlignment as JsonEncode>::to_json(SymbolLayoutLayerIconPitchAlignment::Viewport) == Json::Str("viewport"@),
            forall|x: SymbolLayoutLayerIconPitchAlignment| <SymbolLayoutLayerIconPitchAlignment as JsonDecode>::decodes(Json::Str("auto"@), x) <==> x == SymbolLayoutLayerIconPitchAlignment::Auto,
            <SymbolLayoutLayerIconPitchAlignment as JsonEncode>::to_json(SymbolLayoutLayerIconPitchAlignment::Auto) == Json::Str("auto"@),
            forall|x: SymbolLayoutLayerIconPitchAlignment| <SymbolLayoutLayerIconPitchAlignment as JsonDecode>::decodes(Json::Str("map"@), x) <==> x == SymbolLayoutLayerIconPitchAlignment::MapValue,
    {
        reveal_strlit("auto");
        reveal_strlit("viewport");
        reveal_strlit("map");
        assert("map"@.len() != "viewport"@.len());
        assert("auto"@.len() != "viewport"@.len());
        assert("auto"@.len() != "map"@.len());
    }
}

impl JsonDecode for SymbolLayoutLayerIconPitchAlignment {
    /// The name of a value, or an object whose one entry has the name as its key and `null`.
    open spec fn accepts(v: Json) -> bool {
        ||| (v is Str && exists|x: SymbolLayoutLayerIconPitchAlignment| x.spec_name() == v->Str_0)
        ||| (v is Object && v->Object_0.len() == 1 && v->Object_0[0].1 is Null && exists|x: SymbolLayoutLayerIconPitchAlignment| x.spec_name() == v->Object_0[0].0)
    }

    open spec fn decodes(v: Json, x: Self) -> bool {
        ||| v == Json::Str(x.spec_name())
        ||| (v is Object && v->Object_0.len() == 1 && v->Object_0[0] == (x.spec_name(), Json::Null))
    }

    open spec fn rejection(v: Json) -> Seq<char> {
        if v is Str {
            unknown_variant(v->Str_0) + ", expected one of `auto`, `map`, `viewport`"@
        } else if v is Object {
            let o = v->Object_0;
            if o.len() != 1 {
                "invalid value: map, expected map with a single key"@
            } else if !(exists|x: SymbolLayoutLayerIconPitchAlignment| x.spec_name() == o[0].0) {
                unknown_variant(o[0].0) + ", expected one of `auto`, `map`, `viewport`"@
            } else {
                type_error(o[0].1, "unit"@)
            }
        } else {
            type_error(v, "string or map"@)
        }
    }

    fn decode(v: &JsonValue) -> (r: Result<Self, String>) {
        match v {
            JsonValue::String(s) => match Self::from_name(s.as_str()) {
                Some(x) => Ok(x),
                None => {
                    let mut m = make_unknown_variant(s.as_str());
                    m.append(", expected one of `auto`, `map`, `viewport`");
                    Err(m)
                },
            },
            JsonValue::Object(fields) => {
                if fields.len() != 1 {
                    return Err("invalid value: map, expected map with a single key".to_string());
                }
                proof {
                    assert(entries_model(*fields)[0] == (fields@[0].0@, fields@[0].1.model()));
                }
                match Self::from_name(fields[0].0.as_str()) {
                    Some(x) => match &fields[0].1 {
                        JsonValue::Null => Ok(x),
                        _ => Err(make_type_error(&fields[0].1, "unit")),
                    },
                    None => {
                        let mut m = make_unknown_variant(fields[0].0.as_str());
                        m.append(", expected one of `auto`, `map`, `viewport`");
                        Err(m)
                    },
                }
            },
            _ => Err(make_type_error(v, "string or map")),
        }
    }
}

impl JsonEncode for SymbolLayoutLayerIconPitchAlignment {
    open spec fn to_json(self) -> Json {
        Json::Str(self.spec_name())
    }

    open spec fn round_trips(self) -> bool {
        true
    }

    fn encode(&self) -> (r: JsonValue) {
        JsonValue::String(self.name().to_string())
    }

    proof fn lemma_round_trip(self) {
    }
}

impl Default for SymbolLayoutLayerIconPitchAlignment {
    fn default() -> (r: Self)
        ensures
            r == SymbolLayoutLayerIconPitchAlignment::Auto,
    {
        SymbolLayoutLayerIconPitchAlignment::Auto
    }
}

/// Nested expression: ramp (`interpolate` / …) or regular [`Number`] operators.
#[derive(PartialEq, Debug, Clone)]
pub enum SymbolLayoutLayerIconRotateExpression {
    Number(Number),
    Ramp(NumberOrArrayOfNumberOrColorOrArrayOfColorOrProjection),
}

impl JsonDecode for SymbolLayoutLayerIconRotateExpression {
    open spec fn accepts(v: Json) -> bool {
        Number::accepts(v) || NumberOrArrayOfNumberOrColorOrArrayOfColorOrProjection::accepts(v)
    }

    open spec fn decodes(v: Json, x: Self) -> bool {
        match x {
            SymbolLayoutLayerIconRotateExpression::Number(t) => Number::accepts(v) && Number::decodes(v, t),
            SymbolLayoutLayerIconRotateExpression::Ramp(t) => !Number::accepts(v) && NumberOrArrayOfNumberOrColorOrArrayOfColorOrProjection::accepts(v) && NumberOrArrayOfNumberOrColorOrArrayOfColorOrProjection::decodes(v, t),
        }
    }

    open spec fn rejection(v: Json) -> Seq<char> {
        "SymbolLayoutLayerIconRotateExpression: no variant matched. Expected Number(Number) | Ramp(NumberOrArrayOfNumberOrColorOrArrayOfColorOrProjection). Errors: ["@ + "Number: "@ + Number::rejection(v) + "; Ramp: "@ + NumberOrArrayOfNumberOrColorOrArrayOfColorOrProjection::rejection(v) + "]"@
    }

    fn decode(v: &JsonValue) -> (r: Result<Self, String>) {
        let e0 = match Number::decode(v) {
            Ok(x) => {
                return Ok(SymbolLayoutLayerIconRotateExpression::Number(x));
            },
            Err(e) => e,
        };
        let e1 = match NumberOrArrayOfNumberOrColorOrArrayOfColorOrProjection::decode(v) {
            Ok(x) => {
                return Ok(SymbolLayoutLayerIconRotateExpression::Ramp(x));
            },
            Err(e) => e,
        };
        let mut m = "SymbolLayoutLayerIconRotateExpression: no variant matched. Expected Number(Number) | Ramp(NumberOrArrayOfNumberOrColorOrArrayOfColorOrProjection). Errors: [".to_string();
        m.append("Number: ");
        m.append(e0.as_str());
        m.append("; Ramp: ");
        m.append(e1.as_str());
        m.append("]");
        Err(m)
    }
}

impl JsonEncode for SymbolLayoutLayerIconRotateExpression {
    open spec fn to_json(self) -> Json {
        match self {
            SymbolLayoutLayerIconRotateExpression::Number(t) => Number::to_json(t),
            SymbolLayoutLayerIconRotateExpression::Ramp(t) => NumberOrArrayOfNumberOrColorOrArrayOfColorOrProjection::to_json(t),
        }
    }

    open spec fn round_trips(self) -> bool {
        match self {
            SymbolLayoutLayerIconRotateExpression::Number(t) => Number::round_trips(t),
            SymbolLayoutLayerIconRotateExpression::Ramp(t) => NumberOrArrayOfNumberOrColorOrArrayOfColorOrProjection::round_trips(t) && !Number::accepts(NumberOrArrayOfNumberOrColorOrArrayOfColorOrProjection::to_json(t)),
        }
    }

    fn encode(&self) -> (r: JsonValue) {
        match self {
            SymbolLayoutLayerIconRotateExpression::Number(t) => Number::encode(t),
            SymbolLayoutLayerIconRotateExpression::Ramp(t) => NumberOrArrayOfNumberOrColorOrArrayOfColorOrProjection::encode(t),
        }
    }

    proof fn lemma_round_trip(self) {
        match self {
            SymbolLayoutLayerIconRotateExpression::Number(t) => Number::lemma_round_trip(t),
            SymbolLayoutLayerIconRotateExpression::Ramp(t) => NumberOrArrayOfNumberOrColorOrArrayOfColorOrProjection::lemma_round_trip(t),
        }
    }
}

/// Rotates the icon clockwise.
#[derive(PartialEq, Debug, Clone)]
pub enum SymbolLayoutLayerIconRotate {
    Expr(Box<SymbolLayoutLayerIconRotateExpression>),
    Literal(JsonNumber),
}

impl JsonDecode for SymbolLayoutLayerIconRotate {
    open spec fn accepts(v: Json) -> bool {
        SymbolLayoutLayerIconRotateExpression::accepts(v) || JsonNumber::accepts(v)
    }

    open spec fn decodes(v: Json, x: Self) -> bool {
        match x {
            SymbolLayoutLayerIconRotate::Expr(t) => SymbolLayoutLayerIconRotateExpression::accepts(v) && SymbolLayoutLayerIconRotateExpression::decodes(v, *t),
            SymbolLayoutLayerIconRotate::Literal(t) => !SymbolLayoutLayerIconRotateExpression::accepts(v) && JsonNumber::accepts(v) && JsonNumber::decodes(v, t),
        }
    }

    open spec fn rejection(v: Json) -> Seq<char> {
        "SymbolLayoutLayerIconRotate: no variant matched. Expected Expr(SymbolLayoutLayerIconRotateExpression) | Literal(serde_json::Number). Errors: ["@ + "Expr: "@ + SymbolLayoutLayerIconRotateExpression::rejection(v) + "; Literal: "@ + JsonNumber::rejection(v) + "]"@
    }

    fn decode(v: &JsonValue) -> (r: Result<Self, String>) {
        let e0 = match SymbolLayoutLayerIconRotateExpression::decode(v) {
            Ok(x) => {
                return Ok(SymbolLayoutLayerIconRotate::Expr(Box::new(x)));
            },
            Err(e) => e,
        };
        let e1 = match JsonNumber::decode(v) {
            Ok(x) => {
                return Ok(SymbolLayoutLayerIconRotate::Literal(x));
            },
            Err(e) => e,
        };
        let mut m = "SymbolLayoutLayerIconRotate: no variant matched. Expected Expr(SymbolLayoutLayerIconRotateExpression) | Literal(serde_json::Number). Errors: [".to_string();
        m.append("Expr: ");
        m.append(e0.as_str());
        m.append("; Literal: ");
        m.append(e1.as_str());
        m.append("]");
        Err(m)
    }
}

impl JsonEncode for SymbolLayoutLayerIconRotate {
    open spec fn to_json(self) -> Json {
        match self {
            SymbolLayoutLayerIconRotate::Expr(t) => SymbolLayoutLayerIconRotateExpression::to_json(*t),
            SymbolLayoutLayerIconRotate::Literal(t) => JsonNumber::to_json(t),
        }
    }

    open spec fn round_trips(self) -> bool {
        match self {
            SymbolLayoutLayerIconRotate::Expr(t) => SymbolLayoutLayerIconRotateExpression::round_trips(*t),
            SymbolLayoutLayerIconRotate::Literal(t) => JsonNumber::round_trips(t) && !SymbolLayoutLayerIconRotateExpression::accepts(JsonNumber::to_json(t)),
        }
    }

    fn encode(&self) -> (r: JsonValue) {
        match self {
            SymbolLayoutLayerIconRotate::Expr(t) => SymbolLayoutLayerIconRotateExpression::encode(&**t),
            SymbolLayoutLayerIconRotate::Literal(t) => JsonNumber::encode(t),
        }
    }

    proof fn lemma_round_trip(self) {
        match self {
            SymbolLayoutLayerIconRotate::Expr(t) => SymbolLayoutLayerIconRotateExpression::lemma_round_trip(*t),
            SymbolLayoutLayerIconRotate::Literal(t) => JsonNumber::lemma_round_trip(t),
        }
    }
}

impl Default for SymbolLayoutLayerIconRotate {
    fn default() -> (r: Self)
        ensures
            r.to_json() == Json::Number("0"@),
            r is Literal,
    {
        let r = SymbolLayoutLayerIconRotate::Literal(JsonNumber::from_literal("0"));
        r
    }
}

/// In combination with `symbol-placement`, determines the rotation behavior of icons.
#[derive(PartialEq, Eq, Debug, Clone, Copy)]
pub enum SymbolLayoutLayerIconRotationAlignment {
    Auto,
    MapValue,
    Viewport,
}

impl SymbolLayoutLayerIconRotationAlignment {
    /// The name that stands for the value in a style document.
    pub open spec fn spec_name(self) -> Seq<char> {
        match self {
            SymbolLayoutLayerIconRotationAlignment::Auto => "auto"@,
            SymbolLayoutLayerIconRotationAlignment::MapValue => "map"@,
            SymbolLayoutLayerIconRotationAlignment::Viewport => "viewport"@,
        }
    }

    /// The name that stands for the value in a style document.
    pub fn name(&self) -> (r: &'static str)
        ensures
            r@ == self.spec_name(),
    {
        match self {
            SymbolLayoutLayerIconRotationAlignment::Auto => "auto",
            SymbolLayoutLayerIconRotationAlignment::MapValue => "map",
            SymbolLayoutLayerIconRotationAlignment::Viewport => "viewport",
        }
    }

    /// The value that a name stands for, if any.
    pub fn from_name(s: &str) -> (r: Option<SymbolLayoutLayerIconRotationAlignment>)
        ensures
            r matches Some(x) ==> x.spec_name() == s@,
            r is None ==> forall|x: SymbolLayoutLayerIconRotationAlignment| x.spec_name() != s@,
    {
        if str_eq(s, "auto") {
            Some(SymbolLayoutLayerIconRotationAlignment::Auto)
        } else if str_eq(s, "map") {
            Some(SymbolLayoutLayerIconRotationAlignment::MapValue)
        } else if str_eq(s, "viewport") {
            Some(SymbolLayoutLayerIconRotationAlignment::Viewport)
        } else {
            None
        }
    }
}

impl SymbolLayoutLayerIconRotationAlignment {
    /// Each value is read from, and written as, the name that the style specification gives
    /// it, and a document holding one of these names reads as that value and no other.
    pub proof fn lemma_read_by_name()
        ensures
            forall|x: SymbolLayoutLayerIconRotationAlignment| <SymbolLayoutLayerIconRotationAlignment as JsonDecode>::decodes(Json::Str("viewport"@), x) <==> x == SymbolLayoutLayerIconRotationAlignment::Viewport,
            <SymbolLayoutLayerIconRotationAlignment as JsonEncode>::to_json(SymbolLayoutLayerIconRotationAlignment::Viewport) == Json::Str("viewport"@),
            <SymbolLayoutLayerIconRotationAlignment as JsonEncode>::to_json(SymbolLayoutLayerIconRotationAlignment::MapValue) == Json::Str("map"@),
            <SymbolLayoutLayerIconRotationAlignment as JsonEncode>::to_json(SymbolLayoutLayerIconRotationAlignment::Auto) == Json::Str("auto"@),
            forall|x: SymbolLayoutLayerIconRotationAlignment| <SymbolLayoutLayerIconRotationAlignment as JsonDecode>::decodes(Json::Str("auto"@), x) <==> x == SymbolLayoutLayerIconRotationAlignment::Auto,
            forall|x: SymbolLayoutLayerIconRotationAlignment| <SymbolLayoutLayerIconRotationAlignment as JsonDecode>::decodes(Json::Str("map"@), x) <==> x == SymbolLayoutLayerIconRotationAlignment::MapValue,
    {
        reveal_strlit("auto");
        reveal_strlit("viewport");
        reveal_strlit("map");
        assert("map"@.len() != "viewport"@.len());
        assert("auto"@.len() != "viewport"@.len());
        assert("auto"@.len() != "map"@.len());
    }
}

impl JsonDecode for SymbolLayoutLayerIconRotationAlignment {
    /// The name of a value, or an object whose one entry has the name as its key and `null`.
    open spec fn accepts(v: Json) -> bool {
        ||| (v is Str && exists|x: SymbolLayoutLayerIconRotationAlignment| x.spec_name() == v->Str_0)
        ||| (v is Object && v->Object_0.len() == 1 && v->Object_0[0].1 is Null && exists|x: SymbolLayoutLayerIconRotationAlignment| x.spec_name() == v->Object_0[0].0)
    }

    open spec fn decodes(v: Json, x: Self) -> bool {
        ||| v == Json::Str(x.spec_name())
        ||| (v is Object && v->Object_0.len() == 1 && v->Object_0[0] == (x.spec_name(), Json::Null))
    }

    open spec fn rejection(v: Json) -> Seq<char> {
        if v is Str {
            unknown_variant(v->Str_0) + ", expected one of `auto`, `map`, `viewport`"@
        } else if v is Object {
            let o = v->Object_0;
            if o.len() != 1 {
                "invalid value: map, expected map with a single key"@
            } else if !(exists|x: SymbolLayoutLayerIconRotationAlignment| x.spec_name() == o[0].0) {
                unknown_variant(o[0].0) + ", expected one of `auto`, `map`, `viewport`"@
            } else {
                type_error(o[0].1, "unit"@)
            }
        } else {
            type_error(v, "string or map"@)
        }
    }

    fn decode(v: &JsonValue) -> (r: Result<Self, String>) {
        match v {
            JsonValue::String(s) => match Self::from_name(s.as_str()) {
                Some(x) => Ok(x),
                None => {
                    let mut m = make_unknown_variant(s.as_str());
                    m.append(", expected one of `auto`, `map`, `viewport`");
                    Err(m)
                },
            },
            JsonValue::Object(fields) => {
                if fields.len() != 1 {
                    return Err("invalid value: map, expected map with a single key".to_string());
                }
                proof {
                    assert(entries_model(*fields)[0] == (fields@[0].0@, fields@[0].1.model()));
                }
                match Self::from_name(fields[0].0.as_str()) {
                    Some(x) => match &fields[0].1 {
                        JsonValue::Null => Ok(x),
                        _ => Err(make_type_error(&fields[0].1, "unit")),
                    },
                    None => {
                        let mut m = make_unknown_variant(fields[0].0.as_str());
                        m.append(", expected one of `auto`, `map`, `viewport`");
                        Err(m)
                    },
                }
            },
            _ => Err(make_type_error(v, "string or map")),
        }
    }
}

impl JsonEncode for SymbolLayoutLayerIconRotationAlignment {
    open spec fn to_json(self) -> Json {
        Json::Str(self.spec_name())
    }

    open spec fn round_trips(self) -> bool {
        true
    }

    fn encode(&self) -> (r: JsonValue) {
        JsonValue::String(self.name().to_string())
    }

    proof fn lemma_round_trip(self) {
    }
}

impl Default for SymbolLayoutLayerIconRotationAlignment {
    fn default() -> (r: Self)
        ensures
            r == SymbolLayoutLayerIconRotationAlignment::Auto,
    {
        SymbolLayoutLayerIconRotationAlignment::Auto
    }
}

/// Nested expression: ramp (`interpolate` / …) or regular [`Number`] operators.
#[derive(PartialEq, Debug, Clone)]
pub enum SymbolLayoutLayerIconSizeExpression {
    Number(Number),
    Ramp(NumberOrArrayOfNumberOrColorOrArrayOfColorOrProjection),
}

impl JsonDecode for SymbolLayoutLayerIconSizeExpression {
    open spec fn accepts(v: Json) -> bool {
        Number::accepts(v) || NumberOrArrayOfNumberOrColorOrArrayOfColorOrProjection::accepts(v)
    }

    open spec fn decodes(v: Json, x: Self) -> bool {
        match x {
            SymbolLayoutLayerIconSizeExpression::Number(t) => Number::accepts(v) && Number::decodes(v, t),
            SymbolLayoutLayerIconSizeExpression::Ramp(t) => !Number::accepts(v) && NumberOrArrayOfNumberOrColorOrArrayOfColorOrProjection::accepts(v) && NumberOrArrayOfNumberOrColorOrArrayOfColorOrProjection::decodes(v, t),
        }
    }

    open spec fn rejection(v: Json) -> Seq<char> {
        "SymbolLayoutLayerIconSizeExpression: no variant matched. Expected Number(Number) | Ramp(NumberOrArrayOfNumberOrColorOrArrayOfColorOrProjection). Errors: ["@ + "Number: "@ + Number::rejection(v) + "; Ramp: "@ + NumberOrArrayOfNumberOrColorOrArrayOfColorOrProjection::rejection(v) + "]"@
    }

    fn decode(v: &JsonValue) -> (r: Result<Self, String>) {
        let e0 = match Number::decode(v) {
            Ok(x) => {
                return Ok(SymbolLayoutLayerIconSizeExpression::Number(x));
            },
            Err(e) => e,
        };
        let e1 = match NumberOrArrayOfNumberOrColorOrArrayOfColorOrProjection::decode(v) {
            Ok(x) => {
                return Ok(SymbolLayoutLayerIconSizeExpression::Ramp(x));
            },
            Err(e) => e,
        };
        let mut m = "SymbolLayoutLayerIconSizeExpression: no variant matched. Expected Number(Number) | Ramp(NumberOrArrayOfNumberOrColorOrArrayOfColorOrProjection). Errors: [".to_string();
        m.append("Number: ");
        m.append(e0.as_str());
        m.append("; Ramp: ");
        m.append(e1.as_str());
        m.append("]");
        Err(m)
    }
}

impl JsonEncode for SymbolLayoutLayerIconSizeExpression {
    open spec fn to_json(self) -> Json {
        match self {
            SymbolLayoutLayerIconSizeExpression::Number(t) => Number::to_json(t),
            SymbolLayoutLayerIconSizeExpression::Ramp(t) => NumberOrArrayOfNumberOrColorOrArrayOfColorOrProjection::to_json(t),
        }
    }

    open spec fn round_trips(self) -> bool {
        match self {
            SymbolLayoutLayerIconSizeExpression::Number(t) => Number::round_trips(t),
            SymbolLayoutLayerIconSizeExpression::Ramp(t) => NumberOrArrayOfNumberOrColorOrArrayOfColorOrProjection::round_trips(t) && !Number::accepts(NumberOrArrayOfNumberOrColorOrArrayOfColorOrProjection::to_json(t)),
        }
    }

    fn encode(&self) -> (r: JsonValue) {
        match self {
            SymbolLayoutLayerIconSizeExpression::Number(t) => Number::encode(t),
            SymbolLayoutLayerIconSizeExpression::Ramp(t) => NumberOrArrayOfNumberOrColorOrArrayOfColorOrProjection::encode(t),
        }
    }

    proof fn lemma_round_trip(self) {
        match self {
            SymbolLayoutLayerIconSizeExpression::Number(t) => Number::lemma_round_trip(t),
            SymbolLayoutLayerIconSizeExpression::Ramp(t) => NumberOrArrayOfNumberOrColorOrArrayOfColorOrProjection::lemma_round_trip(t),
        }
    }
}

/// Scales the original size of the icon by the provided factor. The new pixel size of the image will be the original pixel size multiplied by `icon-size`. 1 is the original size; 3 triples the size of the image.
#[derive(PartialEq, Debug, Clone)]
pub enum SymbolLayoutLayerIconSize {
    Expr(Box<SymbolLayoutLayerIconSizeExpression>),
    Literal(JsonNumber),
}

impl JsonDecode for SymbolLayoutLayerIconSize {
    open spec fn accepts(v: Json) -> bool {
        SymbolLayoutLayerIconSizeExpression::accepts(v) || JsonNumber::accepts(v)
    }

    open spec fn decodes(v: Json, x: Self) -> bool {
        match x {
            SymbolLayoutLayerIconSize::Expr(t) => SymbolLayoutLayerIconSizeExpression::accepts(v) && SymbolLayoutLayerIconSizeExpression::decodes(v, *t),
            SymbolLayoutLayerIconSize::Literal(t) => !SymbolLayoutLayerIconSizeExpression::accepts(v) && JsonNumber::accepts(v) && JsonNumber::decodes(v, t),
        }
    }

    open spec fn rejection(v: Json) -> Seq<char> {
        "SymbolLayoutLayerIconSize: no variant matched. Expected Expr(SymbolLayoutLayerIconSizeExpression) | Literal(serde_json::Number). Errors: ["@ + "Expr: "@ + SymbolLayoutLayerIconSizeExpression::rejection(v) + "; Literal: "@ + JsonNumber::rejection(v) + "]"@
    }

    fn decode(v: &JsonValue) -> (r: Result<Self, String>) {
        let e0 = match SymbolLayoutLayerIconSizeExpression::decode(v) {
            Ok(x) => {
                return Ok(SymbolLayoutLayerIconSize::Expr(Box::new(x)));
            },
            Err(e) => e,
        };
        let e1 = match JsonNumber::decode(v) {
            Ok(x) => {
                return Ok(SymbolLayoutLayerIconSize::Literal(x));
            },
            Err(e) => e,
        };
        let mut m = "SymbolLayoutLayerIconSize: no variant matched. Expected Expr(SymbolLayoutLayerIconSizeExpression) | Literal(serde_json::Number). Errors: [".to_string();
        m.append("Expr: ");
        m.append(e0.as_str());
        m.append("; Literal: ");
        m.append(e1.as_str());
        m.append("]");
        Err(m)
    }
}

impl JsonEncode for SymbolLayoutLayerIconSize {
    open spec fn to_json(self) -> Json {
        match self {
            SymbolLayoutLayerIconSize::Expr(t) => SymbolLayoutLayerIconSizeExpression::to_json(*t),
            SymbolLayoutLayerIconSize::Literal(t) => JsonNumber::to_json(t),
        }
    }

    open spec fn round_trips(self) -> bool {
        match self {
            SymbolLayoutLayerIconSize::Expr(t) => SymbolLayoutLayerIconSizeExpression::round_trips(*t),
            SymbolLayoutLayerIconSize::Literal(t) => JsonNumber::round_trips(t) && !SymbolLayoutLayerIconSizeExpression::accepts(JsonNumber::to_json(t)),
        }
    }

    fn encode(&self) -> (r: JsonValue) {
        match self {
            SymbolLayoutLayerIconSize::Expr(t) => SymbolLayoutLayerIconSizeExpression::encode(&**t),
            SymbolLayoutLayerIconSize::Literal(t) => JsonNumber::encode(t),
        }
    }

    proof fn lemma_round_trip(self) {
        match self {
            SymbolLayoutLayerIconSize::Expr(t) => SymbolLayoutLayerIconSizeExpression::lemma_round_trip(*t),
            SymbolLayoutLayerIconSize::Literal(t) => JsonNumber::lemma_round_trip(t),
        }
    }
}

impl Default for SymbolLayoutLayerIconSize {
    fn default() -> (r: Self)
        ensures
            r.to_json() == Json::Number("1"@),
            r is Literal,
    {
        let r = SymbolLayoutLayerIconSize::Literal(JsonNumber::from_literal("1"));
        r
    }
}

/// Scales the icon to fit around the associated text.
#[derive(PartialEq, Eq, Debug, Clone, Copy)]
pub enum SymbolLayoutLayerIconTextFit {
    Both,
    Height,
    NoneValue,
    Width,
}

impl SymbolLayoutLayerIconTextFit {
    /// The name that stands for the value in a style document.
    pub open spec fn spec_name(self) -> Seq<char> {
        match self {
            SymbolLayoutLayerIconTextFit::Both => "both"@,
            SymbolLayoutLayerIconTextFit::Height => "height"@,
            SymbolLayoutLayerIconTextFit::NoneValue => "none"@,
            SymbolLayoutLayerIconTextFit::Width => "width"@,
        }
    }

    /// The name that stands for the value in a style document.
    pub fn name(&self) -> (r: &'static str)
        ensures
            r@ == self.spec_name(),
    {
        match self {
            SymbolLayoutLayerIconTextFit::Both => "both",
            SymbolLayoutLayerIconTextFit::Height => "height",
            SymbolLayoutLayerIconTextFit::NoneValue => "none",
            SymbolLayoutLayerIconTextFit::Width => "width",
        }
    }

    /// The value that a name stands for, if any.
    pub fn from_name(s: &str) -> (r: Option<SymbolLayoutLayerIconTextFit>)
        ensures
            r matches Some(x) ==> x.spec_name() == s@,
            r is None ==> forall|x: SymbolLayoutLayerIconTextFit| x.spec_name() != s@,
    {
        if str_eq(s, "both") {
            Some(SymbolLayoutLayerIconTextFit::Both)
        } else if str_eq(s, "height") {
            Some(SymbolLayoutLayerIconTextFit::Height)
        } else if str_eq(s, "none") {
            Some(SymbolLayoutLayerIconTextFit::NoneValue)
        } else if str_eq(s, "width") {
            Some(SymbolLayoutLayerIconTextFit::Width)
        } else {
            None
        }
    }
}

impl SymbolLayoutLayerIconTextFit {
    /// Each value is read from, and written as, the name that the style specification gives
    /// it, and a document holding one of these names reads as that value and no other.
    pub proof fn lemma_read_by_name()
        ensures
            <SymbolLayoutLayerIconTextFit as JsonEncode>::to_json(SymbolLayoutLayerIconTextFit::Height) == Json::Str("height"@),
            <SymbolLayoutLayerIconTextFit as JsonEncode>::to_json(SymbolLayoutLayerIconTextFit::Width) == Json::Str("width"@),
            <SymbolLayoutLayerIconTextFit as JsonEncode>::to_json(SymbolLayoutLayerIconTextFit::NoneValue) == Json::Str("none"@),
            forall|x: SymbolLayoutLayerIconTextFit| <SymbolLayoutLayerIconTextFit as JsonDecode>::decodes(Json::Str("height"@), x) <==> x == SymbolLayoutLayerIconTextFit::Height,
            forall|x: SymbolLayoutLayerIconTextFit| <SymbolLayoutLayerIconTextFit as JsonDecode>::decodes(Json::Str("width"@), x) <==> x == SymbolLayoutLayerIconTextFit::Width,
            <SymbolLayoutLayerIconTextFit as JsonEncode>::to_json(SymbolLayoutLayerIconTextFit::Both) == Json::Str("both"@),
            forall|x: SymbolLayoutLayerIconTextFit| <SymbolLayoutLayerIconTextFit as JsonDecode>::decodes(Json::Str("none"@), x) <==> x == SymbolLayoutLayerIconTextFit::NoneValue,
            forall|x: SymbolLayoutLayerIconTextFit| <SymbolLayoutLayerIconTextFit as JsonDecode>::decodes(Json::Str("both"@), x) <==> x == SymbolLayoutLayerIconTextFit::Both,
    {
        reveal_strlit("height");
        reveal_strlit("none");
        reveal_strlit("width");
        reveal_strlit("both");
        assert("both"@.len() != "width"@.len());
        assert("height"@.len() != "none"@.len());
        assert("none"@.len() != "width"@.len());
        assert("both"@[0] != "none"@[0]);
        assert("height"@.len() != "width"@.len());
        assert("both"@.len() != "height"@.len());
    }
}

impl JsonDecode for SymbolLayoutLayerIconTextFit {
    /// The name of a value, or an object whose one entry has the name as its key and `null`.
    open spec fn accepts(v: Json) -> bool {
        ||| (v is Str && exists|x: SymbolLayoutLayerIconTextFit| x.spec_name() == v->Str_0)
        ||| (v is Object && v->Object_0.len() == 1 && v->Object_0[0].1 is Null && exists|x: SymbolLayoutLayerIconTextFit| x.spec_name() == v->Object_0[0].0)
    }

    open spec fn decodes(v: Json, x: Self) -> bool {
        ||| v == Json::Str(x.spec_name())
        ||| (v is Object && v->Object_0.len() == 1 && v->Object_0[0] == (x.spec_name(), Json::Null))
    }

    open spec fn rejection(v: Json) -> Seq<char> {
        if v is Str {
            unknown_variant(v->Str_0) + ", expected one of `both`, `height`, `none`, `width`"@
        } else if v is Object {
            let o = v->Object_0;
            if o.len() != 1 {
                "invalid value: map, expected map with a single key"@
            } else if !(exists|x: SymbolLayoutLayerIconTextFit| x.spec_name() == o[0].0) {
                unknown_variant(o[0].0) + ", expected one of `both`, `height`, `none`, `width`"@
            } else {
                type_error(o[0].1, "unit"@)
            }
        } else {
            type_error(v, "string or map"@)
        }
    }

    fn decode(v: &JsonValue) -> (r: Result<Self, String>) {
        match v {
            JsonValue::String(s) => match Self::from_name(s.as_str()) {
                Some(x) => Ok(x),
                None => {
                    let mut m = make_unknown_variant(s.as_str());
                    m.append(", expected one of `both`, `height`, `none`, `width`");
                    Err(m)
                },
            },
            JsonValue::Object(fields) => {
                if fields.len() != 1 {
                    return Err("invalid value: map, expected map with a single key".to_string());
                }
                proof {
                    assert(entries_model(*fields)[0] == (fields@[0].0@, fields@[0].1.model()));
                }
                match Self::from_name(fields[0].0.as_str()) {
                    Some(x) => match &fields[0].1 {
                        JsonValue::Null => Ok(x),
                        _ => Err(make_type_error(&fields[0].1, "unit")),
                    },
                    None => {
                        let mut m = make_unknown_variant(fields[0].0.as_str());
                        m.append(", expected one of `both`, `height`, `none`, `width`");
                        Err(m)
                    },
                }
            },
            _ => Err(make_type_error(v, "string or map")),
        }
    }
}

impl JsonEncode for SymbolLayoutLayerIconTextFit {
    open spec fn to_json(self) -> Json {
        Json::Str(self.spec_name())
    }

    open spec fn round_trips(self) -> bool {
        true
    }

    fn encode(&self) -> (r: JsonValue) {
        JsonValue::String(self.name().to_string())
    }

    proof fn lemma_round_trip(self) {
    }
}

impl Default for SymbolLayoutLayerIconTextFit {
    fn default() -> (r: Self)
        ensures
            r == SymbolLayoutLayerIconTextFit::NoneValue,
    {
        SymbolLayoutLayerIconTextFit::NoneValue
    }
}

/// Size of the additional area added to dimensions determined by `icon-text-fit`, in clockwise order: top, right, bottom, left.
#[derive(PartialEq, Debug, Clone)]
pub struct SymbolLayoutLayerIconTextFitPadding(Box<[JsonNumber; 4]>);

impl JsonDecode for SymbolLayoutLayerIconTextFitPadding {
    closed spec fn accepts(v: Json) -> bool {
        <[JsonNumber; 4] as JsonDecode>::accepts(v)
    }

    closed spec fn decodes(v: Json, x: Self) -> bool {
        <[JsonNumber; 4] as JsonDecode>::decodes(v, *x.0)
    }

    closed spec fn rejection(v: Json) -> Seq<char> {
        <[JsonNumber; 4] as JsonDecode>::rejection(v)
    }

    fn decode(v: &JsonValue) -> (r: Result<Self, String>) {
        match <[JsonNumber; 4] as JsonDecode>::decode(v) {
            Ok(x) => Ok(SymbolLayoutLayerIconTextFitPadding(Box::new(x))),
            Err(e) => Err(e),
        }
    }
}

impl JsonEncode for SymbolLayoutLayerIconTextFitPadding {
    closed spec fn to_json(self) -> Json {
        <[JsonNumber; 4] as JsonEncode>::to_json((*self.0))
    }

    closed spec fn round_trips(self) -> bool {
        <[JsonNumber; 4] as JsonEncode>::round_trips((*self.0))
    }

    fn encode(&self) -> (r: JsonValue) {
        <[JsonNumber; 4] as JsonEncode>::encode(&(*self.0))
    }

    proof fn lemma_round_trip(self) {
        <[JsonNumber; 4] as JsonEncode>::lemma_round_trip((*self.0));
    }
}

impl Default for SymbolLayoutLayerIconTextFitPadding {
    fn default() -> (r: Self)
        ensures
            r.to_json() == Json::Array(seq![Json::Number("0"@), Json::Number("0"@), Json::Number("0"@), Json::Number("0"@)]),
    {
        let r = SymbolLayoutLayerIconTextFitPadding(Box::new([JsonNumber::from_literal("0"), JsonNumber::from_literal("0"), JsonNumber::from_literal("0"), JsonNumber::from_literal("0")]));
        proof {
            assert(r.to_json() =~~= Json::Array(seq![Json::Number("0"@), Json::Number("0"@), Json::Number("0"@), Json::Number("0"@)]));
        }
        r
    }
}

/// If true, the symbols will not cross tile edges to avoid mutual collisions. Recommended in layers that don't have enough padding in the vector tile to prevent collisions, or if it is a point symbol layer placed after a line symbol layer. When using a client that supports global collision detection, like MapLibre GL JS version 0.42.0 or greater, enabling this property is not needed to prevent clipped labels at tile boundaries.
#[derive(PartialEq, Debug, Clone, Copy)]
pub struct SymbolLayoutLayerSymbolAvoidEdges(bool);

impl View for SymbolLayoutLayerSymbolAvoidEdges {
    type V = bool;

    closed spec fn view(&self) -> bool {
        self.0
    }
}

impl JsonDecode for SymbolLayoutLayerSymbolAvoidEdges {
    open spec fn accepts(v: Json) -> bool {
        v is Bool
    }

    open spec fn decodes(v: Json, x: Self) -> bool {
        v == Json::Bool(x@)
    }

    open spec fn rejection(v: Json) -> Seq<char> {
        bool::rejection(v)
    }

    fn decode(v: &JsonValue) -> (r: Result<Self, String>) {
        match bool::decode(v) {
            Ok(x) => Ok(SymbolLayoutLayerSymbolAvoidEdges(x)),
            Err(e) => Err(e),
        }
    }
}

impl JsonEncode for SymbolLayoutLayerSymbolAvoidEdges {
    open spec fn to_json(self) -> Json {
        Json::Bool(self@)
    }

    open spec fn round_trips(self) -> bool {
        true
    }

    fn encode(&self) -> (r: JsonValue) {
        bool::encode(&self.0)
    }

    proof fn lemma_round_trip(self) {
        bool::lemma_round_trip(self.0);
    }
}

impl Default for SymbolLayoutLayerSymbolAvoidEdges {
    fn default() -> (r: Self)
        ensures
            r@ == false,
    {
        SymbolLayoutLayerSymbolAvoidEdges(false)
    }
}

/// Label placement relative to its geometry.
#[derive(PartialEq, Eq, Debug, Clone, Copy)]
pub enum SymbolLayoutLayerSymbolPlacement {
    Line,
    LineCenter,
    Point,
}

impl SymbolLayoutLayerSymbolPlacement {
    /// The name that stands for the value in a style document.
    pub open spec fn spec_name(self) -> Seq<char> {
        match self {
            SymbolLayoutLayerSymbolPlacement::Line => "line"@,
            SymbolLayoutLayerSymbolPlacement::LineCenter => "line-center"@,
            SymbolLayoutLayerSymbolPlacement::Point => "point"@,
        }
    }

    /// The name that stands for the value in a style document.
    pub fn name(&self) -> (r: &'static str)
        ensures
            r@ == self.spec_name(),
    {
        match self {
            SymbolLayoutLayerSymbolPlacement::Line => "line",
            SymbolLayoutLayerSymbolPlacement::LineCenter => "line-center",
            SymbolLayoutLayerSymbolPlacement::Point => "point",
        }
    }

    /// The value that a name stands for, if any.
    pub fn from_name(s: &str) -> (r: Option<SymbolLayoutLayerSymbolPlacement>)
        ensures
            r matches Some(x) ==> x.spec_name() == s@,
            r is None ==> forall|x: SymbolLayoutLayerSymbolPlacement| x.spec_name() != s@,
    {
        if str_eq(s, "line") {
            Some(SymbolLayoutLayerSymbolPlacement::Line)
        } else if str_eq(s, "line-center") {
            Some(SymbolLayoutLayerSymbolPlacement::LineCenter)
        } else if str_eq(s, "point") {
            Some(SymbolLayoutLayerSymbolPlacement::Point)
        } else {
            None
        }
    }
}

impl SymbolLayoutLayerSymbolPlacement {
    /// Each value is read from, and written as, the name that the style specification gives
    /// it, and a document holding one of these names reads as that value and no other.
    pub proof fn lemma_read_by_name()
        ensures
            <SymbolLayoutLayerSymbolPlacement as JsonEncode>::to_json(SymbolLayoutLayerSymbolPlacement::Line) == Json::Str("line"@),
            forall|x: SymbolLayoutLayerSymbolPlacement| <SymbolLayoutLayerSymbolPlacement as JsonDecode>::decodes(Json::Str("line-center"@), x) <==> x == SymbolLayoutLayerSymbolPlacement::LineCenter,
            forall|x: SymbolLayoutLayerSymbolPlacement| <SymbolLayoutLayerSymbolPlacement as JsonDecode>::decodes(Json::Str("line"@), x) <==> x == SymbolLayoutLayerSymbolPlacement::Line,
            forall|x: SymbolLayoutLayerSymbolPlacement| <SymbolLayoutLayerSymbolPlacement as JsonDecode>::decodes(Json::Str("point"@), x) <==> x == SymbolLayoutLayerSymbolPlacement::Point,
            <SymbolLayoutLayerSymbolPlacement as JsonEncode>::to_json(SymbolLayoutLayerSymbolPlacement::Point) == Json::Str("point"@),
            <SymbolLayoutLayerSymbolPlacement as JsonEncode>::to_json(SymbolLayoutLayerSymbolPlacement::LineCenter) == Json::Str("line-center"@),
    {
        reveal_strlit("point");
        reveal_strlit("line");
        reveal_strlit("line-center");
        assert("line-center"@.len() != "point"@.len());
        assert("line"@.len() != "point"@.len());
        assert("line"@.len() != "line-center"@.len());
    }
}

impl JsonDecode for SymbolLayoutLayerSymbolPlacement {
    /// The name of a value, or an object whose one entry has the name as its key and `null`.
    open spec fn accepts(v: Json) -> bool {
        ||| (v is Str && exists|x: SymbolLayoutLayerSymbolPlacement| x.spec_name() == v->Str_0)
        ||| (v is Object && v->Object_0.len() == 1 && v->Object_0[0].1 is Null && exists|x: SymbolLayoutLayerSymbolPlacement| x.spec_name() == v->Object_0[0].0)
    }

    open spec fn decodes(v: Json, x: Self) -> bool {
        ||| v == Json::Str(x.spec_name())
        ||| (v is Object && v->Object_0.len() == 1 && v->Object_0[0] == (x.spec_name(), Json::Null))
    }

    open spec fn rejection(v: Json) -> Seq<char> {
        if v is Str {
            unknown_variant(v->Str_0) + ", expected one of `line`, `line-center`, `point`"@
        } else if v is Object {
            let o = v->Object_0;
            if o.len() != 1 {
                "invalid value: map, expected map with a single key"@
            } else if !(exists|x: SymbolLayoutLayerSymbolPlacement| x.spec_name() == o[0].0) {
                unknown_variant(o[0].0) + ", expected one of `line`, `line-center`, `point`"@
            } else {
                type_error(o[0].1, "unit"@)
            }
        } else {
            type_error(v, "string or map"@)
        }
    }

    fn decode(v: &JsonValue) -> (r: Result<Self, String>) {
        match v {
            JsonValue::String(s) => match Self::from_name(s.as_str()) {
                Some(x) => Ok(x),
                None => {
                    let mut m = make_unknown_variant(s.as_str());
                    m.append(", expected one of `line`, `line-center`, `point`");
                    Err(m)
                },
            },
            JsonValue::Object(fields) => {
                if fields.len() != 1 {
                    return Err("invalid value: map, expected map with a single key".to_string());
                }
                proof {
                    assert(entries_model(*fields)[0] == (fields@[0].0@, fields@[0].1.model()));
                }
                match Self::from_name(fields[0].0.as_str()) {
                    Some(x) => match &fields[0].1 {
                        JsonValue::Null => Ok(x),
                        _ => Err(make_type_error(&fields[0].1, "unit")),
                    },
                    None => {
                        let mut m = make_unknown_variant(fields[0].0.as_str());
                        m.append(", expected one of `line`, `line-center`, `point`");
                        Err(m)
                    },
                }
            },
            _ => Err(make_type_error(v, "string or map")),
        }
    }
}

impl JsonEncode for SymbolLayoutLayerSymbolPlacement {
    open spec fn to_json(self) -> Json {
        Json::Str(self.spec_name())
    }

    open spec fn round_trips(self) -> bool {
        true
    }

    fn encode(&self) -> (r: JsonValue) {
        JsonValue::String(self.name().to_string())
    }

    proof fn lemma_round_trip(self) {
    }
}

impl Default for SymbolLayoutLayerSymbolPlacement {
    fn default() -> (r: Self)
        ensures
            r == SymbolLayoutLayerSymbolPlacement::Point,
    {
        SymbolLayoutLayerSymbolPlacement::Point
    }
}

/// Nested expression: ramp (`interpolate` / …) or regular [`Number`] operators.
#[derive(PartialEq, Debug, Clone)]
pub enum SymbolLayoutLayerSymbolSortKeyExpression {
    Number(Number),
    Ramp(NumberOrArrayOfNumberOrColorOrArrayOfColorOrProjection),
}

impl JsonDecode for SymbolLayoutLayerSymbolSortKeyExpression {
    open spec fn accepts(v: Json) -> bool {
        Number::accepts(v) || NumberOrArrayOfNumberOrColorOrArrayOfColorOrProjection::accepts(v)
    }

    open spec fn decodes(v: Json, x: Self) -> bool {
        match x {
            SymbolLayoutLayerSymbolSortKeyExpression::Number(t) => Number::accepts(v) && Number::decodes(v, t),
            SymbolLayoutLayerSymbolSortKeyExpression::Ramp(t) => !Number::accepts(v) && NumberOrArrayOfNumberOrColorOrArrayOfColorOrProjection::accepts(v) && NumberOrArrayOfNumberOrColorOrArrayOfColorOrProjection::decodes(v, t),
        }
    }

    open spec fn rejection(v: Json) -> Seq<char> {
        "SymbolLayoutLayerSymbolSortKeyExpression: no variant matched. Expected Number(Number) | Ramp(NumberOrArrayOfNumberOrColorOrArrayOfColorOrProjection). Errors: ["@ + "Number: "@ + Number::rejection(v) + "; Ramp: "@ + NumberOrArrayOfNumberOrColorOrArrayOfColorOrProjection::rejection(v) + "]"@
    }

    fn decode(v: &JsonValue) -> (r: Result<Self, String>) {
        let e0 = match Number::decode(v) {
            Ok(x) => {
                return Ok(SymbolLayoutLayerSymbolSortKeyExpression::Number(x));
            },
            Err(e) => e,
        };
        let e1 = match NumberOrArrayOfNumberOrColorOrArrayOfColorOrProjection::decode(v) {
            Ok(x) => {
                return Ok(SymbolLayoutLayerSymbolSortKeyExpression::Ramp(x));
            },
            Err(e) => e,
        };
        let mut m = "SymbolLayoutLayerSymbolSortKeyExpression: no variant matched. Expected Number(Number) | Ramp(NumberOrArrayOfNumberOrColorOrArrayOfColorOrProjection). Errors: [".to_string();
        m.append("Number: ");
        m.append(e0.as_str());
        m.append("; Ramp: ");
        m.append(e1.as_str());
        m.append("]");
        Err(m)
    }
}

impl JsonEncode for SymbolLayoutLayerSymbolSortKeyExpression {
    open spec fn to_json(self) -> Json {
        match self {
            SymbolLayoutLayerSymbolSortKeyExpression::Number(t) => Number::to_json(t),
            SymbolLayoutLayerSymbolSortKeyExpression::Ramp(t) => NumberOrArrayOfNumberOrColorOrArrayOfColorOrProjection::to_json(t),
        }
    }

    open spec fn round_trips(self) -> bool {
        match self {
            SymbolLayoutLayerSymbolSortKeyExpression::Number(t) => Number::round_trips(t),
            SymbolLayoutLayerSymbolSortKeyExpression::Ramp(t) => NumberOrArrayOfNumberOrColorOrArrayOfColorOrProjection::round_trips(t) && !Number::accepts(NumberOrArrayOfNumberOrColorOrArrayOfColorOrProjection::to_json(t)),
        }
    }

    fn encode(&self) -> (r: JsonValue) {
        match self {
            SymbolLayoutLayerSymbolSortKeyExpression::Number(t) => Number::encode(t),
            SymbolLayoutLayerSymbolSortKeyExpression::Ramp(t) => NumberOrArrayOfNumberOrColorOrArrayOfColorOrProjection::encode(t),
        }
    }

    proof fn lemma_round_trip(self) {
        match self {
            SymbolLayoutLayerSymbolSortKeyExpression::Number(t) => Number::lemma_round_trip(t),
            SymbolLayoutLayerSymbolSortKeyExpression::Ramp(t) => NumberOrArrayOfNumberOrColorOrArrayOfColorOrProjection::lemma_round_trip(t),
        }
    }
}

/// Sorts features in ascending order based on this value. Features with lower sort keys are drawn and placed first.  When `icon-allow-overlap` or `text-allow-overlap` is `false`, features with a lower sort key will have priority during placement. When `icon-allow-overlap` or `text-allow-overlap` is set to `true`, features with a higher sort key will overlap over features with a lower sort key.
#[derive(PartialEq, Debug, Clone)]
pub enum SymbolLayoutLayerSymbolSortKey {
    Expr(Box<SymbolLayoutLayerSymbolSortKeyExpression>),
    Literal(JsonNumber),
}

impl JsonDecode for SymbolLayoutLayerSymbolSortKey {
    open spec fn accepts(v: Json) -> bool {
        SymbolLayoutLayerSymbolSortKeyExpression::accepts(v) || JsonNumber::accepts(v)
    }

    open spec fn decodes(v: Json, x: Self) -> bool {
        match x {
            SymbolLayoutLayerSymbolSortKey::Expr(t) => SymbolLayoutLayerSymbolSortKeyExpression::accepts(v) && SymbolLayoutLayerSymbolSortKeyExpression::decodes(v, *t),
            SymbolLayoutLayerSymbolSortKey::Literal(t) => !SymbolLayoutLayerSymbolSortKeyExpression::accepts(v) && JsonNumber::accepts(v) && JsonNumber::decodes(v, t),
        }
    }

    open spec fn rejection(v: Json) -> Seq<char> {
        "SymbolLayoutLayerSymbolSortKey: no variant matched. Expected Expr(SymbolLayoutLayerSymbolSortKeyExpression) | Literal(serde_json::Number). Errors: ["@ + "Expr: "@ + SymbolLayoutLayerSymbolSortKeyExpression::rejection(v) + "; Literal: "@ + JsonNumber::rejection(v) + "]"@
    }

    fn decode(v: &JsonValue) -> (r: Result<Self, String>) {
        let e0 = match SymbolLayoutLayerSymbolSortKeyExpression::decode(v) {
            Ok(x) => {
                return Ok(SymbolLayoutLayerSymbolSortKey::Expr(Box::new(x)));
            },
            Err(e) => e,
        };
        let e1 = match JsonNumber::decode(v) {
            Ok(x) => {
                return Ok(SymbolLayoutLayerSymbolSortKey::Literal(x));
            },
            Err(e) => e,
        };
        let mut m = "SymbolLayoutLayerSymbolSortKey: no variant matched. Expected Expr(SymbolLayoutLayerSymbolSortKeyExpression) | Literal(serde_json::Number). Errors: [".to_string();
        m.append("Expr: ");
        m.append(e0.as_str());
        m.append("; Literal: ");
        m.append(e1.as_str());
        m.append("]");
        Err(m)
    }
}

impl JsonEncode for SymbolLayoutLayerSymbolSortKey {
    open spec fn to_json(self) -> Json {
        match self {
            SymbolLayoutLayerSymbolSortKey::Expr(t) => SymbolLayoutLayerSymbolSortKeyExpression::to_json(*t),
            SymbolLayoutLayerSymbolSortKey::Literal(t) => JsonNumber::to_json(t),
        }
    }

    open spec fn round_trips(self) -> bool {
        match self {
            SymbolLayoutLayerSymbolSortKey::Expr(t) => SymbolLayoutLayerSymbolSortKeyExpression::round_trips(*t),
            SymbolLayoutLayerSymbolSortKey::Literal(t) => JsonNumber::round_trips(t) && !SymbolLayoutLayerSymbolSortKeyExpression::accepts(JsonNumber::to_json(t)),
        }
    }

    fn encode(&self) -> (r: JsonValue) {
        match self {
            SymbolLayoutLayerSymbolSortKey::Expr(t) => SymbolLayoutLayerSymbolSortKeyExpression::encode(&**t),
            SymbolLayoutLayerSymbolSortKey::Literal(t) => JsonNumber::encode(t),
        }
    }

    proof fn lemma_round_trip(self) {
        match self {
            SymbolLayoutLayerSymbolSortKey::Expr(t) => SymbolLayoutLayerSymbolSortKeyExpression::lemma_round_trip(*t),
            SymbolLayoutLayerSymbolSortKey::Literal(t) => JsonNumber::lemma_round_trip(t),
        }
    }
}

/// Nested expression: ramp (`interpolate` / …) or regular [`Number`] operators.
#[derive(PartialEq, Debug, Clone)]
pub enum SymbolLayoutLayerSymbolSpacingExpression {
    Number(Number),
    Ramp(NumberOrArrayOfNumberOrColorOrArrayOfColorOrProjection),
}

impl JsonDecode for SymbolLayoutLayerSymbolSpacingExpression {
    open spec fn accepts(v: Json) -> bool {
        Number::accepts(v) || NumberOrArrayOfNumberOrColorOrArrayOfColorOrProjection::accepts(v)
    }

    open spec fn decodes(v: Json, x: Self) -> bool {
        match x {
            SymbolLayoutLayerSymbolSpacingExpression::Number(t) => Number::accepts(v) && Number::decodes(v, t),
            SymbolLayoutLayerSymbolSpacingExpression::Ramp(t) => !Number::accepts(v) && NumberOrArrayOfNumberOrColorOrArrayOfColorOrProjection::accepts(v) && NumberOrArrayOfNumberOrColorOrArrayOfColorOrProjection::decodes(v, t),
        }
    }

    open spec fn rejection(v: Json) -> Seq<char> {
        "SymbolLayoutLayerSymbolSpacingExpression: no variant matched. Expected Number(Number) | Ramp(NumberOrArrayOfNumberOrColorOrArrayOfColorOrProjection). Errors: ["@ + "Number: "@ + Number::rejection(v) + "; Ramp: "@ + NumberOrArrayOfNumberOrColorOrArrayOfColorOrProjection::rejection(v) + "]"@
    }

    fn decode(v: &JsonValue) -> (r: Result<Self, String>) {
        let e0 = match Number::decode(v) {
            Ok(x) => {
                return Ok(SymbolLayoutLayerSymbolSpacingExpression::Number(x));
            },
            Err(e) => e,
        };
        let e1 = match NumberOrArrayOfNumberOrColorOrArrayOfColorOrProjection::decode(v) {
            Ok(x) => {
                return Ok(SymbolLayoutLayerSymbolSpacingExpression::Ramp(x));
            },
            Err(e) => e,
        };
        let mut m = "SymbolLayoutLayerSymbolSpacingExpression: no variant matched. Expected Number(Number) | Ramp(NumberOrArrayOfNumberOrColorOrArrayOfColorOrProjection). Errors: [".to_string();
        m.append("Number: ");
        m.append(e0.as_str());
        m.append("; Ramp: ");
        m.append(e1.as_str());
        m.append("]");
        Err(m)
    }
}

impl JsonEncode for SymbolLayoutLayerSymbolSpacingExpression {
    open spec fn to_json(self) -> Json {
        match self {
            SymbolLayoutLayerSymbolSpacingExpression::Number(t) => Number::to_json(t),
            SymbolLayoutLayerSymbolSpacingExpression::Ramp(t) => NumberOrArrayOfNumberOrColorOrArrayOfColorOrProjection::to_json(t),
        }
    }

    open spec fn round_trips(self) -> bool {
        match self {
            SymbolLayoutLayerSymbolSpacingExpression::Number(t) => Number::round_trips(t),
            SymbolLayoutLayerSymbolSpacingExpression::Ramp(t) => NumberOrArrayOfNumberOrColorOrArrayOfColorOrProjection::round_trips(t) && !Number::accepts(NumberOrArrayOfNumberOrColorOrArrayOfColorOrProjection::to_json(t)),
        }
    }

    fn encode(&self) -> (r: JsonValue) {
        match self {
            SymbolLayoutLayerSymbolSpacingExpression::Number(t) => Number::encode(t),
            SymbolLayoutLayerSymbolSpacingExpression::Ramp(t) => NumberOrArrayOfNumberOrColorOrArrayOfColorOrProjection::encode(t),
        }
    }

    proof fn lemma_round_trip(self) {
        match self {
            SymbolLayoutLayerSymbolSpacingExpression::Number(t) => Number::lemma_round_trip(t),
            SymbolLayoutLayerSymbolSpacingExpression::Ramp(t) => NumberOrArrayOfNumberOrColorOrArrayOfColorOrProjection::lemma_round_trip(t),
        }
    }
}

/// Distance between two symbol anchors.
#[derive(PartialEq, Debug, Clone)]
pub enum SymbolLayoutLayerSymbolSpacing {
    Expr(Box<SymbolLayoutLayerSymbolSpacingExpression>),
    Literal(JsonNumber),
}

impl JsonDecode for SymbolLayoutLayerSymbolSpacing {
    open spec fn accepts(v: Json) -> bool {
        SymbolLayoutLayerSymbolSpacingExpression::accepts(v) || JsonNumber::accepts(v)
    }

    open spec fn decodes(v: Json, x: Self) -> bool {
        match x {
            SymbolLayoutLayerSymbolSpacing::Expr(t) => SymbolLayoutLayerSymbolSpacingExpression::accepts(v) && SymbolLayoutLayerSymbolSpacingExpression::decodes(v, *t),
            SymbolLayoutLayerSymbolSpacing::Literal(t) => !SymbolLayoutLayerSymbolSpacingExpression::accepts(v) && JsonNumber::accepts(v) && JsonNumber::decodes(v, t),
        }
    }

    open spec fn rejection(v: Json) -> Seq<char> {
        "SymbolLayoutLayerSymbolSpacing: no variant matched. Expected Expr(SymbolLayoutLayerSymbolSpacingExpression) | Literal(serde_json::Number). Errors: ["@ + "Expr: "@ + SymbolLayoutLayerSymbolSpacingExpression::rejection(v) + "; Literal: "@ + JsonNumber::rejection(v) + "]"@
    }

    fn decode(v: &JsonValue) -> (r: Result<Self, String>) {
        let e0 = match SymbolLayoutLayerSymbolSpacingExpression::decode(v) {
            Ok(x) => {
                return Ok(SymbolLayoutLayerSymbolSpacing::Expr(Box::new(x)));
            },
            Err(e) => e,
        };
        let e1 = match JsonNumber::decode(v) {
            Ok(x) => {
                return Ok(SymbolLayoutLayerSymbolSpacing::Literal(x));
            },
            Err(e) => e,
        };
        let mut m = "SymbolLayoutLayerSymbolSpacing: no variant matched. Expected Expr(SymbolLayoutLayerSymbolSpacingExpression) | Literal(serde_json::Number). Errors: [".to_string();
        m.append("Expr: ");
        m.append(e0.as_str());
        m.append("; Literal: ");
        m.append(e1.as_str());
        m.append("]");
        Err(m)
    }
}

impl JsonEncode for SymbolLayoutLayerSymbolSpacing {
    open spec fn to_json(self) -> Json {
        match self {
            SymbolLayoutLayerSymbolSpacing::Expr(t) => SymbolLayoutLayerSymbolSpacingExpression::to_json(*t),
            SymbolLayoutLayerSymbolSpacing::Literal(t) => JsonNumber::to_json(t),
        }
    }

    open spec fn round_trips(self) -> bool {
        match self {
            SymbolLayoutLayerSymbolSpacing::Expr(t) => SymbolLayoutLayerSymbolSpacingExpression::round_trips(*t),
            SymbolLayoutLayerSymbolSpacing::Literal(t) => JsonNumber::round_trips(t) && !SymbolLayoutLayerSymbolSpacingExpression::accepts(JsonNumber::to_json(t)),
        }
    }

    fn encode(&self) -> (r: JsonValue) {
        match self {
            SymbolLayoutLayerSymbolSpacing::Expr(t) => SymbolLayoutLayerSymbolSpacingExpression::encode(&**t),
            SymbolLayoutLayerSymbolSpacing::Literal(t) => JsonNumber::encode(t),
        }
    }

    proof fn lemma_round_trip(self) {
        match self {
            SymbolLayoutLayerSymbolSpacing::Expr(t) => SymbolLayoutLayerSymbolSpacingExpression::lemma_round_trip(*t),
            SymbolLayoutLayerSymbolSpacing::Literal(t) => JsonNumber::lemma_round_trip(t),
        }
    }
}

impl Default for SymbolLayoutLayerSymbolSpacing {
    fn default() -> (r: Self)
        ensures
            r.to_json() == Json::Number("250"@),
            r is Literal,
    {
        let r = SymbolLayoutLayerSymbolSpacing::Literal(JsonNumber::from_literal("250"));
        r
    }
}

/// Determines whether overlapping symbols in the same layer are rendered in the order that they appear in the data source or by their y-position relative to the viewport. To control the order and prioritization of symbols otherwise, use `symbol-sort-key`.
#[derive(PartialEq, Eq, Debug, Clone, Copy)]
pub enum SymbolLayoutLayerSymbolZOrder {
    Auto,
    Source,
    ViewportY,
}

impl SymbolLayoutLayerSymbolZOrder {
    /// The name that stands for the value in a style document.
    pub open spec fn spec_name(self) -> Seq<char> {
        match self {
            SymbolLayoutLayerSymbolZOrder::Auto => "auto"@,
            SymbolLayoutLayerSymbolZOrder::Source => "source"@,
            SymbolLayoutLayerSymbolZOrder::ViewportY => "viewport-y"@,
        }
    }

    /// The name that stands for the value in a style document.
    pub fn name(&self) -> (r: &'static str)
        ensures
            r@ == self.spec_name(),
    {
        match self {
            SymbolLayoutLayerSymbolZOrder::Auto => "auto",
            SymbolLayoutLayerSymbolZOrder::Source => "source",
            SymbolLayoutLayerSymbolZOrder::ViewportY => "viewport-y",
        }
    }

    /// The value that a name stands for, if any.
    pub fn from_name(s: &str) -> (r: Option<SymbolLayoutLayerSymbolZOrder>)
        ensures
            r matches Some(x) ==> x.spec_name() == s@,
            r is None ==> forall|x: SymbolLayoutLayerSymbolZOrder| x.spec_name() != s@,
    {
        if str_eq(s, "auto") {
            Some(SymbolLayoutLayerSymbolZOrder::Auto)
        } else if str_eq(s, "source") {
            Some(SymbolLayoutLayerSymbolZOrder::Source)
        } else if str_eq(s, "viewport-y") {
            Some(SymbolLayoutLayerSymbolZOrder::ViewportY)
        } else {
            None
        }
    }
}

impl SymbolLayoutLayerSymbolZOrder {
    /// Each value is read from, and written as, the name that the style specification gives
    /// it, and a document holding one of these names reads as that value and no other.
    pub proof fn lemma_read_by_name()
        ensures
            forall|x: SymbolLayoutLayerSymbolZOrder| <SymbolLayoutLayerSymbolZOrder as JsonDecode>::decodes(Json::Str("source"@), x) <==> x == SymbolLayoutLayerSymbolZOrder::Source,
            forall|x: SymbolLayoutLayerSymbolZOrder| <SymbolLayoutLayerSymbolZOrder as JsonDecode>::decodes(Json::Str("viewport-y"@), x) <==> x == SymbolLayoutLayerSymbolZOrder::ViewportY,
            forall|x: SymbolLayoutLayerSymbolZOrder| <SymbolLayoutLayerSymbolZOrder as JsonDecode>::decodes(Json::Str("auto"@), x) <==> x == SymbolLayoutLayerSymbolZOrder::Auto,
            <SymbolLayoutLayerSymbolZOrder as JsonEncode>::to_json(SymbolLayoutLayerSymbolZOrder::Auto) == Json::Str("auto"@),
            <SymbolLayoutLayerSymbolZOrder as JsonEncode>::to_json(SymbolLayoutLayerSymbolZOrder::Source) == Json::Str("source"@),
            <SymbolLayoutLayerSymbolZOrder as JsonEncode>::to_json(SymbolLayoutLayerSymbolZOrder::ViewportY) == Json::Str("viewport-y"@),
    {
        reveal_strlit("source");
        reveal_strlit("auto");
        reveal_strlit("viewport-y");
        assert("auto"@.len() != "source"@.len());
        assert("auto"@.len() != "viewport-y"@.len());
        assert("source"@.len() != "viewport-y"@.len());
    }
}

impl JsonDecode for SymbolLayoutLayerSymbolZOrder {
    /// The name of a value, or an object whose one entry has the name as its key and `null`.
    open spec fn accepts(v: Json) -> bool {
        ||| (v is Str && exists|x: SymbolLayoutLayerSymbolZOrder| x.spec_name() == v->Str_0)
        ||| (v is Object && v->Object_0.len() == 1 && v->Object_0[0].1 is Null && exists|x: SymbolLayoutLayerSymbolZOrder| x.spec_name() == v->Object_0[0].0)
    }

    open spec fn decodes(v: Json, x: Self) -> bool {
        ||| v == Json::Str(x.spec_name())
        ||| (v is Object && v->Object_0.len() == 1 && v->Object_0[0] == (x.spec_name(), Json::Null))
    }

    open spec fn rejection(v: Json) -> Seq<char> {
        if v is Str {
            unknown_variant(v->Str_0) + ", expected one of `auto`, `source`, `viewport-y`"@
        } else if v is Object {
            let o = v->Object_0;
            if o.len() != 1 {
                "invalid value: map, expected map with a single key"@
            } else if !(exists|x: SymbolLayoutLayerSymbolZOrder| x.spec_name() == o[0].0) {
                unknown_variant(o[0].0) + ", expected one of `auto`, `source`, `viewport-y`"@
            } else {
                type_error(o[0].1, "unit"@)
            }
        } else {
            type_error(v, "string or map"@)
        }
    }

    fn decode(v: &JsonValue) -> (r: Result<Self, String>) {
        match v {
            JsonValue::String(s) => match Self::from_name(s.as_str()) {
                Some(x) => Ok(x),
                None => {
                    let mut m = make_unknown_variant(s.as_str());
                    m.append(", expected one of `auto`, `source`, `viewport-y`");
                    Err(m)
                },
            },
            JsonValue::Object(fields) => {
                if fields.len() != 1 {
                    return Err("invalid value: map, expected map with a single key".to_string());
                }
                proof {
                    assert(entries_model(*fields)[0] == (fields@[0].0@, fields@[0].1.model()));
                }
                match Self::from_name(fields[0].0.as_str()) {
                    Some(x) => match &fields[0].1 {
                        JsonValue::Null => Ok(x),
                        _ => Err(make_type_error(&fields[0].1, "unit")),
                    },
                    None => {
                        let mut m = make_unknown_variant(fields[0].0.as_str());
                        m.append(", expected one of `auto`, `source`, `viewport-y`");
                        Err(m)
                    },
                }
            },
            _ => Err(make_type_error(v, "string or map")),
        }
    }
}

impl JsonEncode for SymbolLayoutLayerSymbolZOrder {
    open spec fn to_json(self) -> Json {
        Json::Str(self.spec_name())
    }

    open spec fn round_trips(self) -> bool {
        true
    }

    fn encode(&self) -> (r: JsonValue) {
        JsonValue::String(self.name().to_string())
    }

    proof fn lemma_round_trip(self) {
    }
}

impl Default for SymbolLayoutLayerSymbolZOrder {
    fn default() -> (r: Self)
        ensures
            r == SymbolLayoutLayerSymbolZOrder::Auto,
    {
        SymbolLayoutLayerSymbolZOrder::Auto
    }
}

/// If true, the text will be visible even if it collides with other previously drawn symbols.
#[derive(PartialEq, Debug, Clone, Copy)]
pub struct SymbolLayoutLayerTextAllowOverlap(bool);

impl View for SymbolLayoutLayerTextAllowOverlap {
    type V = bool;

    closed spec fn view(&self) -> bool {
        self.0
    }
}

impl JsonDecode for SymbolLayoutLayerTextAllowOverlap {
    open spec fn accepts(v: Json) -> bool {
        v is Bool
    }

    open spec fn decodes(v: Json, x: Self) -> bool {
        v == Json::Bool(x@)
    }

    open spec fn rejection(v: Json) -> Seq<char> {
        bool::rejection(v)
    }

    fn decode(v: &JsonValue) -> (r: Result<Self, String>) {
        match bool::decode(v) {
            Ok(x) => Ok(SymbolLayoutLayerTextAllowOverlap(x)),
            Err(e) => Err(e),
        }
    }
}

impl JsonEncode for SymbolLayoutLayerTextAllowOverlap {
    open spec fn to_json(self) -> Json {
        Json::Bool(self@)
    }

    open spec fn round_trips(self) -> bool {
        true
    }

    fn encode(&self) -> (r: JsonValue) {
        bool::encode(&self.0)
    }

    proof fn lemma_round_trip(self) {
        bool::lemma_round_trip(self.0);
    }
}

impl Default for SymbolLayoutLayerTextAllowOverlap {
    fn default() -> (r: Self)
        ensures
            r@ == false,
    {
        SymbolLayoutLayerTextAllowOverlap(false)
    }
}

/// Part of the text placed closest to the anchor.
#[derive(PartialEq, Eq, Debug, Clone, Copy)]
pub enum SymbolLayoutLayerTextAnchor {
    Bottom,
    BottomLeft,
    BottomRight,
    Center,
    Left,
    Right,
    Top,
    TopLeft,
    TopRight,
}

impl SymbolLayoutLayerTextAnchor {
    /// The name that stands for the value in a style document.
    pub open spec fn spec_name(self) -> Seq<char> {
        match self {
            SymbolLayoutLayerTextAnchor::Bottom => "bottom"@,
            SymbolLayoutLayerTextAnchor::BottomLeft => "bottom-left"@,
            SymbolLayoutLayerTextAnchor::BottomRight => "bottom-right"@,
            SymbolLayoutLayerTextAnchor::Center => "center"@,
            SymbolLayoutLayerTextAnchor::Left => "left"@,
            SymbolLayoutLayerTextAnchor::Right => "right"@,
            SymbolLayoutLayerTextAnchor::Top => "top"@,
            SymbolLayoutLayerTextAnchor::TopLeft => "top-left"@,
            SymbolLayoutLayerTextAnchor::TopRight => "top-right"@,
        }
    }

    /// The name that stands for the value in a style document.
    pub fn name(&self) -> (r: &'static str)
        ensures
            r@ == self.spec_name(),
    {
        match self {
            SymbolLayoutLayerTextAnchor::Bottom => "bottom",
            SymbolLayoutLayerTextAnchor::BottomLeft => "bottom-left",
            SymbolLayoutLayerTextAnchor::BottomRight => "bottom-right",
            SymbolLayoutLayerTextAnchor::Center => "center",
            SymbolLayoutLayerTextAnchor::Left => "left",
            SymbolLayoutLayerTextAnchor::Right => "right",
            SymbolLayoutLayerTextAnchor::Top => "top",
            SymbolLayoutLayerTextAnchor::TopLeft => "top-left",
            SymbolLayoutLayerTextAnchor::TopRight => "top-right",
        }
    }

    /// The value that a name stands for, if any.
    pub fn from_name(s: &str) -> (r: Option<SymbolLayoutLayerTextAnchor>)
        ensures
            r matches Some(x) ==> x.spec_name() == s@,
            r is None ==> forall|x: SymbolLayoutLayerTextAnchor| x.spec_name() != s@,
    {
        if str_eq(s, "bottom") {
            Some(SymbolLayoutLayerTextAnchor::Bottom)
        } else if str_eq(s, "bottom-left") {
            Some(SymbolLayoutLayerTextAnchor::BottomLeft)
        } else if str_eq(s, "bottom-right") {
            Some(SymbolLayoutLayerTextAnchor::BottomRight)
        } else if str_eq(s, "center") {
            Some(SymbolLayoutLayerTextAnchor::Center)
        } else if str_eq(s, "left") {
            Some(SymbolLayoutLayerTextAnchor::Left)
        } else if str_eq(s, "right") {
            Some(SymbolLayoutLayerTextAnchor::Right)
        } else if str_eq(s, "top") {
            Some(SymbolLayoutLayerTextAnchor::Top)
        } else if str_eq(s, "top-left") {
            Some(SymbolLayoutLayerTextAnchor::TopLeft)
        } else if str_eq(s, "top-right") {
            Some(SymbolLayoutLayerTextAnchor::TopRight)
        } else {
            None
        }
    }
}

impl SymbolLayoutLayerTextAnchor {
    /// Each value is read from, and written as, the name that the style specification gives
    /// it, and a document holding one of these names reads as that value and no other.
    pub proof fn lemma_read_by_name()
        ensures
            <SymbolLayoutLayerTextAnchor as JsonEncode>::to_json(SymbolLayoutLayerTextAnchor::Center) == Json::Str("center"@),
            forall|x: SymbolLayoutLayerTextAnchor| <SymbolLayoutLayerTextAnchor as JsonDecode>::decodes(Json::Str("bottom-left"@), x) <==> x == SymbolLayoutLayerTextAnchor::BottomLeft,
            <SymbolLayoutLayerTextAnchor as JsonEncode>::to_json(SymbolLayoutLayerTextAnchor::Right) == Json::Str("right"@),
            forall|x: SymbolLayoutLayerTextAnchor| <SymbolLayoutLayerTextAnchor as JsonDecode>::decodes(Json::Str("bottom-right"@), x) <==> x == SymbolLayoutLayerTextAnchor::BottomRight,
            <SymbolLayoutLayerTextAnchor as JsonEncode>::to_json(SymbolLayoutLayerTextAnchor::Bottom) == Json::Str("bottom"@),
            forall|x: SymbolLayoutLayerTextAnchor| <SymbolLayoutLayerTextAnchor as JsonDecode>::decodes(Json::Str("right"@), x) <==> x == SymbolLayoutLayerTextAnchor::Right,
            <SymbolLayoutLayerTextAnchor as JsonEncode>::to_json(SymbolLayoutLayerTextAnchor::BottomLeft) == Json::Str("bottom-left"@),
            <SymbolLayoutLayerTextAnchor as JsonEncode>::to_json(SymbolLayoutLayerTextAnchor::TopRight) == Json::Str("top-right"@),
            <SymbolLayoutLayerTextAnchor as JsonEncode>::to_json(SymbolLayoutLayerTextAnchor::Left) == Json::Str("left"@),
            <SymbolLayoutLayerTextAnchor as JsonEncode>::to_json(SymbolLayoutLayerTextAnchor::BottomRight) == Json::Str("bottom-right"@),
            forall|x: SymbolLayoutLayerTextAnchor| <SymbolLayoutLayerTextAnchor as JsonDecode>::decodes(Json::Str("top"@), x) <==> x == SymbolLayoutLayerTextAnchor::Top,
            forall|x: SymbolLayoutLayerTextAnchor| <SymbolLayoutLayerTextAnchor as JsonDecode>::decodes(Json::Str("center"@), x) <==> x == SymbolLayoutLayerTextAnchor::Center,
            forall|x: SymbolLayoutLayerTextAnchor| <SymbolLayoutLayerTextAnchor as JsonDecode>::decodes(Json::Str("left"@), x) <==> x == SymbolLayoutLayerTextAnchor::Left,
            forall|x: SymbolLayoutLayerTextAnchor| <SymbolLayoutLayerTextAnchor as JsonDecode>::decodes(Json::Str("bottom"@), x) <==> x == SymbolLayoutLayerTextAnchor::Bottom,
            forall|x: SymbolLayoutLayerTextAnchor| <SymbolLayoutLayerTextAnchor as JsonDecode>::decodes(Json::Str("top-left"@), x) <==> x == SymbolLayoutLayerTextAnchor::TopLeft,
            forall|x: SymbolLayoutLayerTextAnchor| <SymbolLayoutLayerTextAnchor as JsonDecode>::decodes(Json::Str("top-right"@), x) <==> x == SymbolLayoutLayerTextAnchor::TopRight,
            <SymbolLayoutLayerTextAnchor as JsonEncode>::to_json(SymbolLayoutLayerTextAnchor::Top) == Json::Str("top"@),
            <SymbolLayoutLayerTextAnchor as JsonEncode>::to_json(SymbolLayoutLayerTextAnchor::TopLeft) == Json::Str("top-left"@),
    {
        reveal_strlit("bottom-left");
        reveal_strlit("center");
        reveal_strlit("left");
        reveal_strlit("bottom-right");
        reveal_strlit("bottom");
        reveal_strlit("top-right");
        reveal_strlit("right");
        reveal_strlit("top");
        reveal_strlit("top-left");
        assert("top"@.len() != "top-left"@.len());
        assert("bottom-left"@.len() != "right"@.len());
        assert("bottom-left"@.len() != "top"@.len());
        assert("bottom-right"@.len() != "center"@.len());
        assert("right"@.len() != "top-left"@.len());
        assert("bottom-left"@.len() != "left"@.len());
        assert("bottom"@.len() != "bottom-right"@.len());
        assert("right"@.len() != "top-right"@.len());
        assert("center"@.len() != "top-left"@.len());
        assert("center"@.len() != "top-right"@.len());
        assert("bottom"@.len() != "bottom-left"@.len());
        assert("bottom-left"@.len() != "top-right"@.len());
        assert("bottom"@[0] != "center"@[0]);
        assert("bottom-right"@.len() != "right"@.len());
        assert("bottom"@.len() != "top"@.len());
        assert("right"@.len() != "top"@.len());
        assert("bottom"@.len() != "right"@.len());
        assert("left"@.len() != "top-right"@.len());
        assert("top-left"@.len() != "top-right"@.len());
        assert("bottom-right"@.len() != "top-left"@.len());
        assert("bottom-right"@.len() != "top"@.len());
        assert("center"@.len() != "right"@.len());
        assert("left"@.len() != "right"@.len());
        assert("left"@.len() != "top-left"@.len());
        assert("bottom-left"@.len() != "center"@.len());
        assert("bottom"@.len() != "left"@.len());
        assert("bottom-right"@.len() != "left"@.len());
        assert("bottom-right"@.len() != "top-right"@.len());
        assert("top"@.len() != "top-right"@.len());
        assert("bottom-left"@.len() != "top-left"@.len());
        assert("center"@.len() != "top"@.len());
        assert("bottom-left"@.len() != "bottom-right"@.len());
        assert("bottom"@.len() != "top-right"@.len());
        assert("bottom"@.len() != "top-left"@.len());
        assert("center"@.len() != "left"@.len());
        assert("left"@.len() != "top"@.len());
    }
}

impl JsonDecode for SymbolLayoutLayerTextAnchor {
    /// The name of a value, or an object whose one entry has the name as its key and `null`.
    open spec fn accepts(v: Json) -> bool {
        ||| (v is Str && exists|x: SymbolLayoutLayerTextAnchor| x.spec_name() == v->Str_0)
        ||| (v is Object && v->Object_0.len() == 1 && v->Object_0[0].1 is Null && exists|x: SymbolLayoutLayerTextAnchor| x.spec_name() == v->Object_0[0].0)
    }

    open spec fn decodes(v: Json, x: Self) -> bool {
        ||| v == Json::Str(x.spec_name())
        ||| (v is Object && v->Object_0.len() == 1 && v->Object_0[0] == (x.spec_name(), Json::Null))
    }

    open spec fn rejection(v: Json) -> Seq<char> {
        if v is Str {
            unknown_variant(v->Str_0) + ", expected one of `bottom`, `bottom-left`, `bottom-right`, `center`, `left`, `right`, `top`, `top-left`, `top-right`"@
        } else if v is Object {
            let o = v->Object_0;
            if o.len() != 1 {
                "invalid value: map, expected map with a single key"@
            } else if !(exists|x: SymbolLayoutLayerTextAnchor| x.spec_name() == o[0].0) {
                unknown_variant(o[0].0) + ", expected one of `bottom`, `bottom-left`, `bottom-right`, `center`, `left`, `right`, `top`, `top-left`, `top-right`"@
            } else {
                type_error(o[0].1, "unit"@)
            }
        } else {
            type_error(v, "string or map"@)
        }
    }

    fn decode(v: &JsonValue) -> (r: Result<Self, String>) {
        match v {
            JsonValue::String(s) => match Self::from_name(s.as_str()) {
                Some(x) => Ok(x),
                None => {
                    let mut m = make_unknown_variant(s.as_str());
                    m.append(", expected one of `bottom`, `bottom-left`, `bottom-right`, `center`, `left`, `right`, `top`, `top-left`, `top-right`");
                    Err(m)
                },
            },
            JsonValue::Object(fields) => {
                if fields.len() != 1 {
                    return Err("invalid value: map, expected map with a single key".to_string());
                }
                proof {
                    assert(entries_model(*fields)[0] == (fields@[0].0@, fields@[0].1.model()));
                }
                match Self::from_name(fields[0].0.as_str()) {
                    Some(x) => match &fields[0].1 {
                        JsonValue::Null => Ok(x),
                        _ => Err(make_type_error(&fields[0].1, "unit")),
                    },
                    None => {
                        let mut m = make_unknown_variant(fields[0].0.as_str());
                        m.append(", expected one of `bottom`, `bottom-left`, `bottom-right`, `center`, `left`, `right`, `top`, `top-left`, `top-right`");
                        Err(m)
                    },
                }
            },
            _ => Err(make_type_error(v, "string or map")),
        }
    }
}

impl JsonEncode for SymbolLayoutLayerTextAnchor {
    open spec fn to_json(self) -> Json {
        Json::Str(self.spec_name())
    }

    open spec fn round_trips(self) -> bool {
        true
    }

    fn encode(&self) -> (r: JsonValue) {
        JsonValue::String(self.name().to_string())
    }

    proof fn lemma_round_trip(self) {
    }
}

impl Default for SymbolLayoutLayerTextAnchor {
    fn default() -> (r: Self)
        ensures
            r == SymbolLayoutLayerTextAnchor::Center,
    {
        SymbolLayoutLayerTextAnchor::Center
    }
}

/// Value to use for a text label. If a plain `string` is provided, it will be treated as a `formatted` with default/inherited formatting options.
#[derive(PartialEq, Debug, Clone)]
pub struct SymbolLayoutLayerTextField(String);

impl View for SymbolLayoutLayerTextField {
    type V = Seq<char>;

    closed spec fn view(&self) -> Seq<char> {
        self.0@
    }
}

impl JsonDecode for SymbolLayoutLayerTextField {
    open spec fn accepts(v: Json) -> bool {
        v is Str
    }

    open spec fn decodes(v: Json, x: Self) -> bool {
        v == Json::Str(x@)
    }

    open spec fn rejection(v: Json) -> Seq<char> {
        String::rejection(v)
    }

    fn decode(v: &JsonValue) -> (r: Result<Self, String>) {
        match String::decode(v) {
            Ok(x) => Ok(SymbolLayoutLayerTextField(x)),
            Err(e) => Err(e),
        }
    }
}

impl JsonEncode for SymbolLayoutLayerTextField {
    open spec fn to_json(self) -> Json {
        Json::Str(self@)
    }

    open spec fn round_trips(self) -> bool {
        true
    }

    fn encode(&self) -> (r: JsonValue) {
        String::encode(&self.0)
    }

    proof fn lemma_round_trip(self) {
        String::lemma_round_trip(self.0);
    }
}

impl Default for SymbolLayoutLayerTextField {
    fn default() -> (r: Self)
        ensures
            r.to_json() == Json::Str(""@),
    {
        let r = SymbolLayoutLayerTextField("".to_string());
        r
    }
}

/// Fonts to use for displaying text. If the `glyphs` root property is specified, this array is joined together and interpreted as a font stack name. Otherwise, it is interpreted as a cascading fallback list of local font names.
#[derive(PartialEq, Debug, Clone)]
pub struct SymbolLayoutLayerTextFont(Vec<String>);

impl JsonDecode for SymbolLayoutLayerTextFont {
    closed spec fn accepts(v: Json) -> bool {
        <Vec<String> as JsonDecode>::accepts(v)
    }

    closed spec fn decodes(v: Json, x: Self) -> bool {
        <Vec<String> as JsonDecode>::decodes(v, x.0)
    }

    closed spec fn rejection(v: Json) -> Seq<char> {
        <Vec<String> as JsonDecode>::rejection(v)
    }

    fn decode(v: &JsonValue) -> (r: Result<Self, String>) {
        match <Vec<String> as JsonDecode>::decode(v) {
            Ok(x) => Ok(SymbolLayoutLayerTextFont(x)),
            Err(e) => Err(e),
        }
    }
}

impl JsonEncode for SymbolLayoutLayerTextFont {
    closed spec fn to_json(self) -> Json {
        <Vec<String> as JsonEncode>::to_json(self.0)
    }

    closed spec fn round_trips(self) -> bool {
        <Vec<String> as JsonEncode>::round_trips(self.0)
    }

    fn encode(&self) -> (r: JsonValue) {
        <Vec<String> as JsonEncode>::encode(&self.0)
    }

    proof fn lemma_round_trip(self) {
        <Vec<String> as JsonEncode>::lemma_round_trip(self.0);
    }
}

impl Default for SymbolLayoutLayerTextFont {
    fn default() -> (r: Self)
        ensures
            r.to_json() == Json::Array(seq![Json::Str("Open Sans Regular"@), Json::Str("Arial Unicode MS Regular"@)]),
    {
        let d2 = "Open Sans Regular".to_string();
        let d3 = "Arial Unicode MS Regular".to_string();
        let mut d1: Vec<String> = Vec::new();
        d1.push(d2);
        d1.push(d3);
        proof { assert(d1@[0]@ == "Open Sans Regular"@); assert(d1@[1]@ == "Arial Unicode MS Regular"@); }
        let r = SymbolLayoutLayerTextFont(d1);
        proof {
            assert(r.to_json()->Array_0 =~= Json::Array(seq![Json::Str("Open Sans Regular"@), Json::Str("Arial Unicode MS Regular"@)])->Array_0);
        }
        r
    }
}

/// If true, other symbols can be visible even if they collide with the text.
#[derive(PartialEq, Debug, Clone, Copy)]
pub struct SymbolLayoutLayerTextIgnorePlacement(bool);

impl View for SymbolLayoutLayerTextIgnorePlacement {
    type V = bool;

    closed spec fn view(&self) -> bool {
        self.0
    }
}

impl JsonDecode for SymbolLayoutLayerTextIgnorePlacement {
    open spec fn accepts(v: Json) -> bool {
        v is Bool
    }

    open spec fn decodes(v: Json, x: Self) -> bool {
        v == Json::Bool(x@)
    }

    open spec fn rejection(v: Json) -> Seq<char> {
        bool::rejection(v)
    }

    fn decode(v: &JsonValue) -> (r: Result<Self, String>) {
        match bool::decode(v) {
            Ok(x) => Ok(SymbolLayoutLayerTextIgnorePlacement(x)),
            Err(e) => Err(e),
        }
    }
}

impl JsonEncode for SymbolLayoutLayerTextIgnorePlacement {
    open spec fn to_json(self) -> Json {
        Json::Bool(self@)
    }

    open spec fn round_trips(self) -> bool {
        true
    }

    fn encode(&self) -> (r: JsonValue) {
        bool::encode(&self.0)
    }

    proof fn lemma_round_trip(self) {
        bool::lemma_round_trip(self.0);
    }
}

impl Default for SymbolLayoutLayerTextIgnorePlacement {
    fn default() -> (r: Self)
        ensures
            r@ == false,
    {
        SymbolLayoutLayerTextIgnorePlacement(false)
    }
}

/// Text justification options.
#[derive(PartialEq, Eq, Debug, Clone, Copy)]
pub enum SymbolLayoutLayerTextJustify {
    Auto,
    Center,
    Left,
    Right,
}

impl SymbolLayoutLayerTextJustify {
    /// The name that stands for the value in a style document.
    pub open spec fn spec_name(self) -> Seq<char> {
        match self {
            SymbolLayoutLayerTextJustify::Auto => "auto"@,
            SymbolLayoutLayerTextJustify::Center => "center"@,
            SymbolLayoutLayerTextJustify::Left => "left"@,
            SymbolLayoutLayerTextJustify::Right => "right"@,
        }
    }

    /// The name that stands for the value in a style document.
    pub fn name(&self) -> (r: &'static str)
        ensures
            r@ == self.spec_name(),
    {
        match self {
            SymbolLayoutLayerTextJustify::Auto => "auto",
            SymbolLayoutLayerTextJustify::Center => "center",
            SymbolLayoutLayerTextJustify::Left => "left",
            SymbolLayoutLayerTextJustify::Right => "right",
        }
    }

    /// The value that a name stands for, if any.
    pub fn from_name(s: &str) -> (r: Option<SymbolLayoutLayerTextJustify>)
        ensures
            r matches Some(x) ==> x.spec_name() == s@,
            r is None ==> forall|x: SymbolLayoutLayerTextJustify| x.spec_name() != s@,
    {
        if str_eq(s, "auto") {
            Some(SymbolLayoutLayerTextJustify::Auto)
        } else if str_eq(s, "center") {
            Some(SymbolLayoutLayerTextJustify::Center)
        } else if str_eq(s, "left") {
            Some(SymbolLayoutLayerTextJustify::Left)
        } else if str_eq(s, "right") {
            Some(SymbolLayoutLayerTextJustify::Right)
        } else {
            None
        }
    }
}

impl SymbolLayoutLayerTextJustify {
    /// Each value is read from, and written as, the name that the style specification gives
    /// it, and a document holding one of these names reads as that value and no other.
    pub proof fn lemma_read_by_name()
        ensures
            <SymbolLayoutLayerTextJustify as JsonEncode>::to_json(SymbolLayoutLayerTextJustify::Center) == Json::Str("center"@),
            forall|x: SymbolLayoutLayerTextJustify| <SymbolLayoutLayerTextJustify as JsonDecode>::decodes(Json::Str("right"@), x) <==> x == SymbolLayoutLayerTextJustify::Right,
            forall|x: SymbolLayoutLayerTextJustify| <SymbolLayoutLayerTextJustify as JsonDecode>::decodes(Json::Str("left"@), x) <==> x == SymbolLayoutLayerTextJustify::Left,
            forall|x: SymbolLayoutLayerTextJustify| <SymbolLayoutLayerTextJustify as JsonDecode>::decodes(Json::Str("center"@), x) <==> x == SymbolLayoutLayerTextJustify::Center,
            <SymbolLayoutLayerTextJustify as JsonEncode>::to_json(SymbolLayoutLayerTextJustify::Left) == Json::Str("left"@),
            <SymbolLayoutLayerTextJustify as JsonEncode>::to_json(SymbolLayoutLayerTextJustify::Right) == Json::Str("right"@),
            <SymbolLayoutLayerTextJustify as JsonEncode>::to_json(SymbolLayoutLayerTextJustify::Auto) == Json::Str("auto"@),
            forall|x: SymbolLayoutLayerTextJustify| <SymbolLayoutLayerTextJustify as JsonDecode>::decodes(Json::Str("auto"@), x) <==> x == SymbolLayoutLayerTextJustify::Auto,
    {
        reveal_strlit("center");
        reveal_strlit("left");
        reveal_strlit("auto");
        reveal_strlit("right");
        assert("auto"@[0] != "left"@[0]);
        assert("center"@.len() != "right"@.len());
        assert("left"@.len() != "right"@.len());
        assert("auto"@.len() != "center"@.len());
        assert("auto"@.len() != "right"@.len());
        assert("center"@.len() != "left"@.len());
    }
}

impl JsonDecode for SymbolLayoutLayerTextJustify {
    /// The name of a value, or an object whose one entry has the name as its key and `null`.
    open spec fn accepts(v: Json) -> bool {
        ||| (v is Str && exists|x: SymbolLayoutLayerTextJustify| x.spec_name() == v->Str_0)
        ||| (v is Object && v->Object_0.len() == 1 && v->Object_0[0].1 is Null && exists|x: SymbolLayoutLayerTextJustify| x.spec_name() == v->Object_0[0].0)
    }

    open spec fn decodes(v: Json, x: Self) -> bool {
        ||| v == Json::Str(x.spec_name())
        ||| (v is Object && v->Object_0.len() == 1 && v->Object_0[0] == (x.spec_name(), Json::Null))
    }

    open spec fn rejection(v: Json) -> Seq<char> {
        if v is Str {
            unknown_variant(v->Str_0) + ", expected one of `auto`, `center`, `left`, `right`"@
        } else if v is Object {
            let o = v->Object_0;
            if o.len() != 1 {
                "invalid value: map, expected map with a single key"@
            } else if !(exists|x: SymbolLayoutLayerTextJustify| x.spec_name() == o[0].0) {
                unknown_variant(o[0].0) + ", expected one of `auto`, `center`, `left`, `right`"@
            } else {
                type_error(o[0].1, "unit"@)
            }
        } else {
            type_error(v, "string or map"@)
        }
    }

    fn decode(v: &JsonValue) -> (r: Result<Self, String>) {
        match v {
            JsonValue::String(s) => match Self::from_name(s.as_str()) {
                Some(x) => Ok(x),
                None => {
                    let mut m = make_unknown_variant(s.as_str());
                    m.append(", expected one of `auto`, `center`, `left`, `right`");
                    Err(m)
                },
            },
            JsonValue::Object(fields) => {
                if fields.len() != 1 {
                    return Err("invalid value: map, expected map with a single key".to_string());
                }
                proof {
                    assert(entries_model(*fields)[0] == (fields@[0].0@, fields@[0].1.model()));
                }
                match Self::from_name(fields[0].0.as_str()) {
                    Some(x) => match &fields[0].1 {
                        JsonValue::Null => Ok(x),
                        _ => Err(make_type_error(&fields[0].1, "unit")),
                    },
                    None => {
                        let mut m = make_unknown_variant(fields[0].0.as_str());
                        m.append(", expected one of `auto`, `center`, `left`, `right`");
                        Err(m)
                    },
                }
            },
            _ => Err(make_type_error(v, "string or map")),
        }
    }
}

impl JsonEncode for SymbolLayoutLayerTextJustify {
    open spec fn to_json(self) -> Json {
        Json::Str(self.spec_name())
    }

    open spec fn round_trips(self) -> bool {
        true
    }

    fn encode(&self) -> (r: JsonValue) {
        JsonValue::String(self.name().to_string())
    }

    proof fn lemma_round_trip(self) {
    }
}

impl Default for SymbolLayoutLayerTextJustify {
    fn default() -> (r: Self)
        ensures
            r == SymbolLayoutLayerTextJustify::Center,
    {
        SymbolLayoutLayerTextJustify::Center
    }
}

/// If true, the text may be flipped vertically to prevent it from being rendered upside-down.
#[derive(PartialEq, Debug, Clone, Copy)]
pub struct SymbolLayoutLayerTextKeepUpright(bool);

impl View for SymbolLayoutLayerTextKeepUpright {
    type V = bool;

    closed spec fn view(&self) -> bool {
        self.0
    }
}

impl JsonDecode for SymbolLayoutLayerTextKeepUpright {
    open spec fn accepts(v: Json) -> bool {
        v is Bool
    }

    open spec fn decodes(v: Json, x: Self) -> bool {
        v == Json::Bool(x@)
    }

    open spec fn rejection(v: Json) -> Seq<char> {
        bool::rejection(v)
    }

    fn decode(v: &JsonValue) -> (r: Result<Self, String>) {
        match bool::decode(v) {
            Ok(x) => Ok(SymbolLayoutLayerTextKeepUpright(x)),
            Err(e) => Err(e),
        }
    }
}

impl JsonEncode for SymbolLayoutLayerTextKeepUpright {
    open spec fn to_json(self) -> Json {
        Json::Bool(self@)
    }

    open spec fn round_trips(self) -> bool {
        true
    }

    fn encode(&self) -> (r: JsonValue) {
        bool::encode(&self.0)
    }

    proof fn lemma_round_trip(self) {
        bool::lemma_round_trip(self.0);
    }
}

impl Default for SymbolLayoutLayerTextKeepUpright {
    fn default() -> (r: Self)
        ensures
            r.to_json() == Json::Bool(true),
    {
        let r = SymbolLayoutLayerTextKeepUpright(true);
        r
    }
}

/// Nested expression: ramp (`interpolate` / …) or regular [`Number`] operators.
#[derive(PartialEq, Debug, Clone)]
pub enum SymbolLayoutLayerTextLetterSpacingExpression {
    Number(Number),
    Ramp(NumberOrArrayOfNumberOrColorOrArrayOfColorOrProjection),
}

impl JsonDecode for SymbolLayoutLayerTextLetterSpacingExpression {
    open spec fn accepts(v: Json) -> bool {
        Number::accepts(v) || NumberOrArrayOfNumberOrColorOrArrayOfColorOrProjection::accepts(v)
    }

    open spec fn decodes(v: Json, x: Self) -> bool {
        match x {
            SymbolLayoutLayerTextLetterSpacingExpression::Number(t) => Number::accepts(v) && Number::decodes(v, t),
            SymbolLayoutLayerTextLetterSpacingExpression::Ramp(t) => !Number::accepts(v) && NumberOrArrayOfNumberOrColorOrArrayOfColorOrProjection::accepts(v) && NumberOrArrayOfNumberOrColorOrArrayOfColorOrProjection::decodes(v, t),
        }
    }

    open spec fn rejection(v: Json) -> Seq<char> {
        "SymbolLayoutLayerTextLetterSpacingExpression: no variant matched. Expected Number(Number) | Ramp(NumberOrArrayOfNumberOrColorOrArrayOfColorOrProjection). Errors: ["@ + "Number: "@ + Number::rejection(v) + "; Ramp: "@ + NumberOrArrayOfNumberOrColorOrArrayOfColorOrProjection::rejection(v) + "]"@
    }

    fn decode(v: &JsonValue) -> (r: Result<Self, String>) {
        let e0 = match Number::decode(v) {
            Ok(x) => {
                return Ok(SymbolLayoutLayerTextLetterSpacingExpression::Number(x));
            },
            Err(e) => e,
        };
        let e1 = match NumberOrArrayOfNumberOrColorOrArrayOfColorOrProjection::decode(v) {
            Ok(x) => {
                return Ok(SymbolLayoutLayerTextLetterSpacingExpression::Ramp(x));
            },
            Err(e) => e,
        };
        let mut m = "SymbolLayoutLayerTextLetterSpacingExpression: no variant matched. Expected Number(Number) | Ramp(NumberOrArrayOfNumberOrColorOrArrayOfColorOrProjection). Errors: [".to_string();
        m.append("Number: ");
        m.append(e0.as_str());
        m.append("; Ramp: ");
        m.append(e1.as_str());
        m.append("]");
        Err(m)
    }
}

impl JsonEncode for SymbolLayoutLayerTextLetterSpacingExpression {
    open spec fn to_json(self) -> Json {
        match self {
            SymbolLayoutLayerTextLetterSpacingExpression::Number(t) => Number::to_json(t),
            SymbolLayoutLayerTextLetterSpacingExpression::Ramp(t) => NumberOrArrayOfNumberOrColorOrArrayOfColorOrProjection::to_json(t),
        }
    }

    open spec fn round_trips(self) -> bool {
        match self {
            SymbolLayoutLayerTextLetterSpacingExpression::Number(t) => Number::round_trips(t),
            SymbolLayoutLayerTextLetterSpacingExpression::Ramp(t) => NumberOrArrayOfNumberOrColorOrArrayOfColorOrProjection::round_trips(t) && !Number::accepts(NumberOrArrayOfNumberOrColorOrArrayOfColorOrProjection::to_json(t)),
        }
    }

    fn encode(&self) -> (r: JsonValue) {
        match self {
            SymbolLayoutLayerTextLetterSpacingExpression::Number(t) => Number::encode(t),
            SymbolLayoutLayerTextLetterSpacingExpression::Ramp(t) => NumberOrArrayOfNumberOrColorOrArrayOfColorOrProjection::encode(t),
        }
    }

    proof fn lemma_round_trip(self) {
        match self {
            SymbolLayoutLayerTextLetterSpacingExpression::Number(t) => Number::lemma_round_trip(t),
            SymbolLayoutLayerTextLetterSpacingExpression::Ramp(t) => NumberOrArrayOfNumberOrColorOrArrayOfColorOrProjection::lemma_round_trip(t),
        }
    }
}

/// Text tracking amount.
#[derive(PartialEq, Debug, Clone)]
pub enum SymbolLayoutLayerTextLetterSpacing {
    Expr(Box<SymbolLayoutLayerTextLetterSpacingExpression>),
    Literal(JsonNumber),
}

impl JsonDecode for SymbolLayoutLayerTextLetterSpacing {
    open spec fn accepts(v: Json) -> bool {
        SymbolLayoutLayerTextLetterSpacingExpression::accepts(v) || JsonNumber::accepts(v)
    }

    open spec fn decodes(v: Json, x: Self) -> bool {
        match x {
            SymbolLayoutLayerTextLetterSpacing::Expr(t) => SymbolLayoutLayerTextLetterSpacingExpression::accepts(v) && SymbolLayoutLayerTextLetterSpacingExpression::decodes(v, *t),
            SymbolLayoutLayerTextLetterSpacing::Literal(t) => !SymbolLayoutLayerTextLetterSpacingExpression::accepts(v) && JsonNumber::accepts(v) && JsonNumber::decodes(v, t),
        }
    }

    open spec fn rejection(v: Json) -> Seq<char> {
        "SymbolLayoutLayerTextLetterSpacing: no variant matched. Expected Expr(SymbolLayoutLayerTextLetterSpacingExpression) | Literal(serde_json::Number). Errors: ["@ + "Expr: "@ + SymbolLayoutLayerTextLetterSpacingExpression::rejection(v) + "; Literal: "@ + JsonNumber::rejection(v) + "]"@
    }

    fn decode(v: &JsonValue) -> (r: Result<Self, String>) {
        let e0 = match SymbolLayoutLayerTextLetterSpacingExpression::decode(v) {
            Ok(x) => {
                return Ok(SymbolLayoutLayerTextLetterSpacing::Expr(Box::new(x)));
            },
            Err(e) => e,
        };
        let e1 = match JsonNumber::decode(v) {
            Ok(x) => {
                return Ok(SymbolLayoutLayerTextLetterSpacing::Literal(x));
            },
            Err(e) => e,
        };
        let mut m = "SymbolLayoutLayerTextLetterSpacing: no variant matched. Expected Expr(SymbolLayoutLayerTextLetterSpacingExpression) | Literal(serde_json::Number). Errors: [".to_string();
        m.append("Expr: ");
        m.append(e0.as_str());
        m.append("; Literal: ");
        m.append(e1.as_str());
        m.append("]");
        Err(m)
    }
}

impl JsonEncode for SymbolLayoutLayerTextLetterSpacing {
    open spec fn to_json(self) -> Json {
        match self {
            SymbolLayoutLayerTextLetterSpacing::Expr(t) => SymbolLayoutLayerTextLetterSpacingExpression::to_json(*t),
            SymbolLayoutLayerTextLetterSpacing::Literal(t) => JsonNumber::to_json(t),
        }
    }

    open spec fn round_trips(self) -> bool {
        match self {
            SymbolLayoutLayerTextLetterSpacing::Expr(t) => SymbolLayoutLayerTextLetterSpacingExpression::round_trips(*t),
            SymbolLayoutLayerTextLetterSpacing::Literal(t) => JsonNumber::round_trips(t) && !SymbolLayoutLayerTextLetterSpacingExpression::accepts(JsonNumber::to_json(t)),
        }
    }

    fn encode(&self) -> (r: JsonValue) {
        match self {
            SymbolLayoutLayerTextLetterSpacing::Expr(t) => SymbolLayoutLayerTextLetterSpacingExpression::encode(&**t),
            SymbolLayoutLayerTextLetterSpacing::Literal(t) => JsonNumber::encode(t),
        }
    }

    proof fn lemma_round_trip(self) {
        match self {
            SymbolLayoutLayerTextLetterSpacing::Expr(t) => SymbolLayoutLayerTextLetterSpacingExpression::lemma_round_trip(*t),
            SymbolLayoutLayerTextLetterSpacing::Literal(t) => JsonNumber::lemma_round_trip(t),
        }
    }
}

impl Default for SymbolLayoutLayerTextLetterSpacing {
    fn default() -> (r: Self)
        ensures
            r.to_json() == Json::Number("0"@),
            r is Literal,
    {
        let r = SymbolLayoutLayerTextLetterSpacing::Literal(JsonNumber::from_literal("0"));
        r
    }
}

/// Nested expression: ramp (`interpolate` / …) or regular [`Number`] operators.
#[derive(PartialEq, Debug, Clone)]
pub enum SymbolLayoutLayerTextLineHeightExpression {
    Number(Number),
    Ramp(NumberOrArrayOfNumberOrColorOrArrayOfColorOrProjection),
}

impl JsonDecode for SymbolLayoutLayerTextLineHeightExpression {
    open spec fn accepts(v: Json) -> bool {
        Number::accepts(v) || NumberOrArrayOfNumberOrColorOrArrayOfColorOrProjection::accepts(v)
    }

    open spec fn decodes(v: Json, x: Self) -> bool {
        match x {
            SymbolLayoutLayerTextLineHeightExpression::Number(t) => Number::accepts(v) && Number::decodes(v, t),
            SymbolLayoutLayerTextLineHeightExpression::Ramp(t) => !Number::accepts(v) && NumberOrArrayOfNumberOrColorOrArrayOfColorOrProjection::accepts(v) && NumberOrArrayOfNumberOrColorOrArrayOfColorOrProjection::decodes(v, t),
        }
    }

    open spec fn rejection(v: Json) -> Seq<char> {
        "SymbolLayoutLayerTextLineHeightExpression: no variant matched. Expected Number(Number) | Ramp(NumberOrArrayOfNumberOrColorOrArrayOfColorOrProjection). Errors: ["@ + "Number: "@ + Number::rejection(v) + "; Ramp: "@ + NumberOrArrayOfNumberOrColorOrArrayOfColorOrProjection::rejection(v) + "]"@
    }

    fn decode(v: &JsonValue) -> (r: Result<Self, String>) {
        let e0 = match Number::decode(v) {
            Ok(x) => {
                return Ok(SymbolLayoutLayerTextLineHeightExpression::Number(x));
            },
            Err(e) => e,
        };
        let e1 = match NumberOrArrayOfNumberOrColorOrArrayOfColorOrProjection::decode(v) {
            Ok(x) => {
                return Ok(SymbolLayoutLayerTextLineHeightExpression::Ramp(x));
            },
            Err(e) => e,
        };
        let mut m = "SymbolLayoutLayerTextLineHeightExpression: no variant matched. Expected Number(Number) | Ramp(NumberOrArrayOfNumberOrColorOrArrayOfColorOrProjection). Errors: [".to_string();
        m.append("Number: ");
        m.append(e0.as_str());
        m.append("; Ramp: ");
        m.append(e1.as_str());
        m.append("]");
        Err(m)
    }
}

impl JsonEncode for SymbolLayoutLayerTextLineHeightExpression {
    open spec fn to_json(self) -> Json {
        match self {
            SymbolLayoutLayerTextLineHeightExpression::Number(t) => Number::to_json(t),
            SymbolLayoutLayerTextLineHeightExpression::Ramp(t) => NumberOrArrayOfNumberOrColorOrArrayOfColorOrProjection::to_json(t),
        }
    }

    open spec fn round_trips(self) -> bool {
        match self {
            SymbolLayoutLayerTextLineHeightExpression::Number(t) => Number::round_trips(t),
            SymbolLayoutLayerTextLineHeightExpression::Ramp(t) => NumberOrArrayOfNumberOrColorOrArrayOfColorOrProjection::round_trips(t) && !Number::accepts(NumberOrArrayOfNumberOrColorOrArrayOfColorOrProjection::to_json(t)),
        }
    }

    fn encode(&self) -> (r: JsonValue) {
        match self {
            SymbolLayoutLayerTextLineHeightExpression::Number(t) => Number::encode(t),
            SymbolLayoutLayerTextLineHeightExpression::Ramp(t) => NumberOrArrayOfNumberOrColorOrArrayOfColorOrProjection::encode(t),
        }
    }

    proof fn lemma_round_trip(self) {
        match self {
            SymbolLayoutLayerTextLineHeightExpression::Number(t) => Number::lemma_round_trip(t),
            SymbolLayoutLayerTextLineHeightExpression::Ramp(t) => NumberOrArrayOfNumberOrColorOrArrayOfColorOrProjection::lemma_round_trip(t),
        }
    }
}

/// Text leading value for multi-line text.
#[derive(PartialEq, Debug, Clone)]
pub enum SymbolLayoutLayerTextLineHeight {
    Expr(Box<SymbolLayoutLayerTextLineHeightExpression>),
    Literal(JsonNumber),
}

impl JsonDecode for SymbolLayoutLayerTextLineHeight {
    open spec fn accepts(v: Json) -> bool {
        SymbolLayoutLayerTextLineHeightExpression::accepts(v) || JsonNumber::accepts(v)
    }

    open spec fn decodes(v: Json, x: Self) -> bool {
        match x {
            SymbolLayoutLayerTextLineHeight::Expr(t) => SymbolLayoutLayerTextLineHeightExpression::accepts(v) && SymbolLayoutLayerTextLineHeightExpression::decodes(v, *t),
            SymbolLayoutLayerTextLineHeight::Literal(t) => !SymbolLayoutLayerTextLineHeightExpression::accepts(v) && JsonNumber::accepts(v) && JsonNumber::decodes(v, t),
        }
    }

    open spec fn rejection(v: Json) -> Seq<char> {
        "SymbolLayoutLayerTextLineHeight: no variant matched. Expected Expr(SymbolLayoutLayerTextLineHeightExpression) | Literal(serde_json::Number). Errors: ["@ + "Expr: "@ + SymbolLayoutLayerTextLineHeightExpression::rejection(v) + "; Literal: "@ + JsonNumber::rejection(v) + "]"@
    }

    fn decode(v: &JsonValue) -> (r: Result<Self, String>) {
        let e0 = match SymbolLayoutLayerTextLineHeightExpression::decode(v) {
            Ok(x) => {
                return Ok(SymbolLayoutLayerTextLineHeight::Expr(Box::new(x)));
            },
            Err(e) => e,
        };
        let e1 = match JsonNumber::decode(v) {
            Ok(x) => {
                return Ok(SymbolLayoutLayerTextLineHeight::Literal(x));
            },
            Err(e) => e,
        };
        let mut m = "SymbolLayoutLayerTextLineHeight: no variant matched. Expected Expr(SymbolLayoutLayerTextLineHeightExpression) | Literal(serde_json::Number). Errors: [".to_string();
        m.append("Expr: ");
        m.append(e0.as_str());
        m.append("; Literal: ");
        m.append(e1.as_str());
        m.append("]");
        Err(m)
    }
}

impl JsonEncode for SymbolLayoutLayerTextLineHeight {
    open spec fn to_json(self) -> Json {
        match self {
            SymbolLayoutLayerTextLineHeight::Expr(t) => SymbolLayoutLayerTextLineHeightExpression::to_json(*t),
            SymbolLayoutLayerTextLineHeight::Literal(t) => JsonNumber::to_json(t),
        }
    }

    open spec fn round_trips(self) -> bool {
        match self {
            SymbolLayoutLayerTextLineHeight::Expr(t) => SymbolLayoutLayerTextLineHeightExpression::round_trips(*t),
            SymbolLayoutLayerTextLineHeight::Literal(t) => JsonNumber::round_trips(t) && !SymbolLayoutLayerTextLineHeightExpression::accepts(JsonNumber::to_json(t)),
        }
    }

    fn encode(&self) -> (r: JsonValue) {
        match self {
            SymbolLayoutLayerTextLineHeight::Expr(t) => SymbolLayoutLayerTextLineHeightExpression::encode(&**t),
            SymbolLayoutLayerTextLineHeight::Literal(t) => JsonNumber::encode(t),
        }
    }

    proof fn lemma_round_trip(self) {
        match self {
            SymbolLayoutLayerTextLineHeight::Expr(t) => SymbolLayoutLayerTextLineHeightExpression::lemma_round_trip(*t),
            SymbolLayoutLayerTextLineHeight::Literal(t) => JsonNumber::lemma_round_trip(t),
        }
    }
}

impl Default for SymbolLayoutLayerTextLineHeight {
    fn default() -> (r: Self)
        ensures
            r.to_json() == Json::Number("1.2"@),
            r is Literal,
    {
        let r = SymbolLayoutLayerTextLineHeight::Literal(JsonNumber::from_literal("1.2"));
        r
    }
}

/// Nested expression: ramp (`interpolate` / …) or regular [`Number`] operators.
#[derive(PartialEq, Debug, Clone)]
pub enum SymbolLayoutLayerTextMaxAngleExpression {
    Number(Number),
    Ramp(NumberOrArrayOfNumberOrColorOrArrayOfColorOrProjection),
}

impl JsonDecode for SymbolLayoutLayerTextMaxAngleExpression {
    open spec fn accepts(v: Json) -> bool {
        Number::accepts(v) || NumberOrArrayOfNumberOrColorOrArrayOfColorOrProjection::accepts(v)
    }

    open spec fn decodes(v: Json, x: Self) -> bool {
        match x {
            SymbolLayoutLayerTextMaxAngleExpression::Number(t) => Number::accepts(v) && Number::decodes(v, t),
            SymbolLayoutLayerTextMaxAngleExpression::Ramp(t) => !Number::accepts(v) && NumberOrArrayOfNumberOrColorOrArrayOfColorOrProjection::accepts(v) && NumberOrArrayOfNumberOrColorOrArrayOfColorOrProjection::decodes(v, t),
        }
    }

    open spec fn rejection(v: Json) -> Seq<char> {
        "SymbolLayoutLayerTextMaxAngleExpression: no variant matched. Expected Number(Number) | Ramp(NumberOrArrayOfNumberOrColorOrArrayOfColorOrProjection). Errors: ["@ + "Number: "@ + Number::rejection(v) + "; Ramp: "@ + NumberOrArrayOfNumberOrColorOrArrayOfColorOrProjection::rejection(v) + "]"@
    }

    fn decode(v: &JsonValue) -> (r: Result<Self, String>) {
        let e0 = match Number::decode(v) {
            Ok(x) => {
                return Ok(SymbolLayoutLayerTextMaxAngleExpression::Number(x));
            },
            Err(e) => e,
        };
        let e1 = match NumberOrArrayOfNumberOrColorOrArrayOfColorOrProjection::decode(v) {
            Ok(x) => {
                return Ok(SymbolLayoutLayerTextMaxAngleExpression::Ramp(x));
            },
            Err(e) => e,
        };
        let mut m = "SymbolLayoutLayerTextMaxAngleExpression: no variant matched. Expected Number(Number) | Ramp(NumberOrArrayOfNumberOrColorOrArrayOfColorOrProjection). Errors: [".to_string();
        m.append("Number: ");
        m.append(e0.as_str());
        m.append("; Ramp: ");
        m.append(e1.as_str());
        m.append("]");
        Err(m)
    }
}

impl JsonEncode for SymbolLayoutLayerTextMaxAngleExpression {
    open spec fn to_json(self) -> Json {
        match self {
            SymbolLayoutLayerTextMaxAngleExpression::Number(t) => Number::to_json(t),
            SymbolLayoutLayerTextMaxAngleExpression::Ramp(t) => NumberOrArrayOfNumberOrColorOrArrayOfColorOrProjection::to_json(t),
        }
    }

    open spec fn round_trips(self) -> bool {
        match self {
            SymbolLayoutLayerTextMaxAngleExpression::Number(t) => Number::round_trips(t),
            SymbolLayoutLayerTextMaxAngleExpression::Ramp(t) => NumberOrArrayOfNumberOrColorOrArrayOfColorOrProjection::round_trips(t) && !Number::accepts(NumberOrArrayOfNumberOrColorOrArrayOfColorOrProjection::to_json(t)),
        }
    }

    fn encode(&self) -> (r: JsonValue) {
        match self {
            SymbolLayoutLayerTextMaxAngleExpression::Number(t) => Number::encode(t),
            SymbolLayoutLayerTextMaxAngleExpression::Ramp(t) => NumberOrArrayOfNumberOrColorOrArrayOfColorOrProjection::encode(t),
        }
    }

    proof fn lemma_round_trip(self) {
        match self {
            SymbolLayoutLayerTextMaxAngleExpression::Number(t) => Number::lemma_round_trip(t),
            SymbolLayoutLayerTextMaxAngleExpression::Ramp(t) => NumberOrArrayOfNumberOrColorOrArrayOfColorOrProjection::lemma_round_trip(t),
        }
    }
}

/// Maximum angle change between adjacent characters.
#[derive(PartialEq, Debug, Clone)]
pub enum SymbolLayoutLayerTextMaxAngle {
    Expr(Box<SymbolLayoutLayerTextMaxAngleExpression>),
    Literal(JsonNumber),
}

impl JsonDecode for SymbolLayoutLayerTextMaxAngle {
    open spec fn accepts(v: Json) -> bool {
        SymbolLayoutLayerTextMaxAngleExpression::accepts(v) || JsonNumber::accepts(v)
    }

    open spec fn decodes(v: Json, x: Self) -> bool {
        match x {
            SymbolLayoutLayerTextMaxAngle::Expr(t) => SymbolLayoutLayerTextMaxAngleExpression::accepts(v) && SymbolLayoutLayerTextMaxAngleExpression::decodes(v, *t),
            SymbolLayoutLayerTextMaxAngle::Literal(t) => !SymbolLayoutLayerTextMaxAngleExpression::accepts(v) && JsonNumber::accepts(v) && JsonNumber::decodes(v, t),
        }
    }

    open spec fn rejection(v: Json) -> Seq<char> {
        "SymbolLayoutLayerTextMaxAngle: no variant matched. Expected Expr(SymbolLayoutLayerTextMaxAngleExpression) | Literal(serde_json::Number). Errors: ["@ + "Expr: "@ + SymbolLayoutLayerTextMaxAngleExpression::rejection(v) + "; Literal: "@ + JsonNumber::rejection(v) + "]"@
    }

    fn decode(v: &JsonValue) -> (r: Result<Self, String>) {
        let e0 = match SymbolLayoutLayerTextMaxAngleExpression::decode(v) {
            Ok(x) => {
                return Ok(SymbolLayoutLayerTextMaxAngle::Expr(Box::new(x)));
            },
            Err(e) => e,
        };
        let e1 = match JsonNumber::decode(v) {
            Ok(x) => {
                return Ok(SymbolLayoutLayerTextMaxAngle::Literal(x));
            },
            Err(e) => e,
        };
        let mut m = "SymbolLayoutLayerTextMaxAngle: no variant matched. Expected Expr(SymbolLayoutLayerTextMaxAngleExpression) | Literal(serde_json::Number). Errors: [".to_string();
        m.append("Expr: ");
        m.append(e0.as_str());
        m.append("; Literal: ");
        m.append(e1.as_str());
        m.append("]");
        Err(m)
    }
}

impl JsonEncode for SymbolLayoutLayerTextMaxAngle {
    open spec fn to_json(self) -> Json {
        match self {
            SymbolLayoutLayerTextMaxAngle::Expr(t) => SymbolLayoutLayerTextMaxAngleExpression::to_json(*t),
            SymbolLayoutLayerTextMaxAngle::Literal(t) => JsonNumber::to_json(t),
        }
    }

    open spec fn round_trips(self) -> bool {
        match self {
            SymbolLayoutLayerTextMaxAngle::Expr(t) => SymbolLayoutLayerTextMaxAngleExpression::round_trips(*t),
            SymbolLayoutLayerTextMaxAngle::Literal(t) => JsonNumber::round_trips(t) && !SymbolLayoutLayerTextMaxAngleExpression::accepts(JsonNumber::to_json(t)),
        }
    }

    fn encode(&self) -> (r: JsonValue) {
        match self {
            SymbolLayoutLayerTextMaxAngle::Expr(t) => SymbolLayoutLayerTextMaxAngleExpression::encode(&**t),
            SymbolLayoutLayerTextMaxAngle::Literal(t) => JsonNumber::encode(t),
        }
    }

    proof fn lemma_round_trip(self) {
        match self {
            SymbolLayoutLayerTextMaxAngle::Expr(t) => SymbolLayoutLayerTextMaxAngleExpression::lemma_round_trip(*t),
            SymbolLayoutLayerTextMaxAngle::Literal(t) => JsonNumber::lemma_round_trip(t),
        }
    }
}

impl Default for SymbolLayoutLayerTextMaxAngle {
    fn default() -> (r: Self)
        ensures
            r.to_json() == Json::Number("45"@),
            r is Literal,
    {
        let r = SymbolLayoutLayerTextMaxAngle::Literal(JsonNumber::from_literal("45"));
        r
    }
}

/// Nested expression: ramp (`interpolate` / …) or regular [`Number`] operators.
#[derive(PartialEq, Debug, Clone)]
pub enum SymbolLayoutLayerTextMaxWidthExpression {
    Number(Number),
    Ramp(NumberOrArrayOfNumberOrColorOrArrayOfColorOrProjection),
}

impl JsonDecode for SymbolLayoutLayerTextMaxWidthExpression {
    open spec fn accepts(v: Json) -> bool {
        Number::accepts(v) || NumberOrArrayOfNumberOrColorOrArrayOfColorOrProjection::accepts(v)
    }

    open spec fn decodes(v: Json, x: Self) -> bool {
        match x {
            SymbolLayoutLayerTextMaxWidthExpression::Number(t) => Number::accepts(v) && Number::decodes(v, t),
            SymbolLayoutLayerTextMaxWidthExpression::Ramp(t) => !Number::accepts(v) && NumberOrArrayOfNumberOrColorOrArrayOfColorOrProjection::accepts(v) && NumberOrArrayOfNumberOrColorOrArrayOfColorOrProjection::decodes(v, t),
        }
    }

    open spec fn rejection(v: Json) -> Seq<char> {
        "SymbolLayoutLayerTextMaxWidthExpression: no variant matched. Expected Number(Number) | Ramp(NumberOrArrayOfNumberOrColorOrArrayOfColorOrProjection). Errors: ["@ + "Number: "@ + Number::rejection(v) + "; Ramp: "@ + NumberOrArrayOfNumberOrColorOrArrayOfColorOrProjection::rejection(v) + "]"@
    }

    fn decode(v: &JsonValue) -> (r: Result<Self, String>) {
        let e0 = match Number::decode(v) {
            Ok(x) => {
                return Ok(SymbolLayoutLayerTextMaxWidthExpression::Number(x));
            },
            Err(e) => e,
        };
        let e1 = match NumberOrArrayOfNumberOrColorOrArrayOfColorOrProjection::decode(v) {
            Ok(x) => {
                return Ok(SymbolLayoutLayerTextMaxWidthExpression::Ramp(x));
            },
            Err(e) => e,
        };
        let mut m = "SymbolLayoutLayerTextMaxWidthExpression: no variant matched. Expected Number(Number) | Ramp(NumberOrArrayOfNumberOrColorOrArrayOfColorOrProjection). Errors: [".to_string();
        m.append("Number: ");
        m.append(e0.as_str());
        m.append("; Ramp: ");
        m.append(e1.as_str());
        m.append("]");
        Err(m)
    }
}

impl JsonEncode for SymbolLayoutLayerTextMaxWidthExpression {
    open spec fn to_json(self) -> Json {
        match self {
            SymbolLayoutLayerTextMaxWidthExpression::Number(t) => Number::to_json(t),
            SymbolLayoutLayerTextMaxWidthExpression::Ramp(t) => NumberOrArrayOfNumberOrColorOrArrayOfColorOrProjection::to_json(t),
        }
    }

    open spec fn round_trips(self) -> bool {
        match self {
            SymbolLayoutLayerTextMaxWidthExpression::Number(t) => Number::round_trips(t),
            SymbolLayoutLayerTextMaxWidthExpression::Ramp(t) => NumberOrArrayOfNumberOrColorOrArrayOfColorOrProjection::round_trips(t) && !Number::accepts(NumberOrArrayOfNumberOrColorOrArrayOfColorOrProjection::to_json(t)),
        }
    }

    fn encode(&self) -> (r: JsonValue) {
        match self {
            SymbolLayoutLayerTextMaxWidthExpression::Number(t) => Number::encode(t),
            SymbolLayoutLayerTextMaxWidthExpression::Ramp(t) => NumberOrArrayOfNumberOrColorOrArrayOfColorOrProjection::encode(t),
        }
    }

    proof fn lemma_round_trip(self) {
        match self {
            SymbolLayoutLayerTextMaxWidthExpression::Number(t) => Number::lemma_round_trip(t),
            SymbolLayoutLayerTextMaxWidthExpression::Ramp(t) => NumberOrArrayOfNumberOrColorOrArrayOfColorOrProjection::lemma_round_trip(t),
        }
    }
}

/// The maximum line width for text wrapping.
#[derive(PartialEq, Debug, Clone)]
pub enum SymbolLayoutLayerTextMaxWidth {
    Expr(Box<SymbolLayoutLayerTextMaxWidthExpression>),
    Literal(JsonNumber),
}

impl JsonDecode for SymbolLayoutLayerTextMaxWidth {
    open spec fn accepts(v: Json) -> bool {
        SymbolLayoutLayerTextMaxWidthExpression::accepts(v) || JsonNumber::accepts(v)
    }

    open spec fn decodes(v: Json, x: Self) -> bool {
        match x {
            SymbolLayoutLayerTextMaxWidth::Expr(t) => SymbolLayoutLayerTextMaxWidthExpression::accepts(v) && SymbolLayoutLayerTextMaxWidthExpression::decodes(v, *t),
            SymbolLayoutLayerTextMaxWidth::Literal(t) => !SymbolLayoutLayerTextMaxWidthExpression::accepts(v) && JsonNumber::accepts(v) && JsonNumber::decodes(v, t),
        }
    }

    open spec fn rejection(v: Json) -> Seq<char> {
        "SymbolLayoutLayerTextMaxWidth: no variant matched. Expected Expr(SymbolLayoutLayerTextMaxWidthExpression) | Literal(serde_json::Number). Errors: ["@ + "Expr: "@ + SymbolLayoutLayerTextMaxWidthExpression::rejection(v) + "; Literal: "@ + JsonNumber::rejection(v) + "]"@
    }

    fn decode(v: &JsonValue) -> (r: Result<Self, String>) {
        let e0 = match SymbolLayoutLayerTextMaxWidthExpression::decode(v) {
            Ok(x) => {
                return Ok(SymbolLayoutLayerTextMaxWidth::Expr(Box::new(x)));
            },
            Err(e) => e,
        };
        let e1 = match JsonNumber::decode(v) {
            Ok(x) => {
                return Ok(SymbolLayoutLayerTextMaxWidth::Literal(x));
            },
            Err(e) => e,
        };
        let mut m = "SymbolLayoutLayerTextMaxWidth: no variant matched. Expected Expr(SymbolLayoutLayerTextMaxWidthExpression) | Literal(serde_json::Number). Errors: [".to_string();
        m.append("Expr: ");
        m.append(e0.as_str());
        m.append("; Literal: ");
        m.append(e1.as_str());
        m.append("]");
        Err(m)
    }
}

impl JsonEncode for SymbolLayoutLayerTextMaxWidth {
    open spec fn to_json(self) -> Json {
        match self {
            SymbolLayoutLayerTextMaxWidth::Expr(t) => SymbolLayoutLayerTextMaxWidthExpression::to_json(*t),
            SymbolLayoutLayerTextMaxWidth::Literal(t) => JsonNumber::to_json(t),
        }
    }

    open spec fn round_trips(self) -> bool {
        match self {
            SymbolLayoutLayerTextMaxWidth::Expr(t) => SymbolLayoutLayerTextMaxWidthExpression::round_trips(*t),
            SymbolLayoutLayerTextMaxWidth::Literal(t) => JsonNumber::round_trips(t) && !SymbolLayoutLayerTextMaxWidthExpression::accepts(JsonNumber::to_json(t)),
        }
    }

    fn encode(&self) -> (r: JsonValue) {
        match self {
            SymbolLayoutLayerTextMaxWidth::Expr(t) => SymbolLayoutLayerTextMaxWidthExpression::encode(&**t),
            SymbolLayoutLayerTextMaxWidth::Literal(t) => JsonNumber::encode(t),
        }
    }

    proof fn lemma_round_trip(self) {
        match self {
            SymbolLayoutLayerTextMaxWidth::Expr(t) => SymbolLayoutLayerTextMaxWidthExpression::lemma_round_trip(*t),
            SymbolLayoutLayerTextMaxWidth::Literal(t) => JsonNumber::lemma_round_trip(t),
        }
    }
}

impl Default for SymbolLayoutLayerTextMaxWidth {
    fn default() -> (r: Self)
        ensures
            r.to_json() == Json::Number("10"@),
            r is Literal,
    {
        let r = SymbolLayoutLayerTextMaxWidth::Literal(JsonNumber::from_literal("10"));
        r
    }
}

/// Offset distance of text from its anchor. Positive values indicate right and down, while negative values indicate left and up. If used with text-variable-anchor, input values will be taken as absolute values. Offsets along the x- and y-axis will be applied automatically based on the anchor position.
#[derive(PartialEq, Debug, Clone)]
pub struct SymbolLayoutLayerTextOffset(Box<[JsonNumber; 2]>);

impl JsonDecode for SymbolLayoutLayerTextOffset {
    closed spec fn accepts(v: Json) -> bool {
        <[JsonNumber; 2] as JsonDecode>::accepts(v)
    }

    closed spec fn decodes(v: Json, x: Self) -> bool {
        <[JsonNumber; 2] as JsonDecode>::decodes(v, *x.0)
    }

    closed spec fn rejection(v: Json) -> Seq<char> {
        <[JsonNumber; 2] as JsonDecode>::rejection(v)
    }

    fn decode(v: &JsonValue) -> (r: Result<Self, String>) {
        match <[JsonNumber; 2] as JsonDecode>::decode(v) {
            Ok(x) => Ok(SymbolLayoutLayerTextOffset(Box::new(x))),
            Err(e) => Err(e),
        }
    }
}

impl JsonEncode for SymbolLayoutLayerTextOffset {
    closed spec fn to_json(self) -> Json {
        <[JsonNumber; 2] as JsonEncode>::to_json((*self.0))
    }

    closed spec fn round_trips(self) -> bool {
        <[JsonNumber; 2] as JsonEncode>::round_trips((*self.0))
    }

    fn encode(&self) -> (r: JsonValue) {
        <[JsonNumber; 2] as JsonEncode>::encode(&(*self.0))
    }

    proof fn lemma_round_trip(self) {
        <[JsonNumber; 2] as JsonEncode>::lemma_round_trip((*self.0));
    }
}

impl Default for SymbolLayoutLayerTextOffset {
    fn default() -> (r: Self)
        ensures
            r.to_json() == Json::Array(seq![Json::Number("0"@), Json::Number("0"@)]),
    {
        let r = SymbolLayoutLayerTextOffset(Box::new([JsonNumber::from_literal("0"), JsonNumber::from_literal("0")]));
        proof {
            assert(r.to_json() =~~= Json::Array(seq![Json::Number("0"@), Json::Number("0"@)]));
        }
        r
    }
}

/// If true, icons will display without their corresponding text when the text collides with other symbols and the icon does not.
#[derive(PartialEq, Debug, Clone, Copy)]
pub struct SymbolLayoutLayerTextOptional(bool);

impl View for SymbolLayoutLayerTextOptional {
    type V = bool;

    closed spec fn view(&self) -> bool {
        self.0
    }
}

impl JsonDecode for SymbolLayoutLayerTextOptional {
    open spec fn accepts(v: Json) -> bool {
        v is Bool
    }

    open spec fn decodes(v: Json, x: Self) -> bool {
        v == Json::Bool(x@)
    }

    open spec fn rejection(v: Json) -> Seq<char> {
        bool::rejection(v)
    }

    fn decode(v: &JsonValue) -> (r: Result<Self, String>) {
        match bool::decode(v) {
            Ok(x) => Ok(SymbolLayoutLayerTextOptional(x)),
            Err(e) => Err(e),
        }
    }
}

impl JsonEncode for SymbolLayoutLayerTextOptional {
    open spec fn to_json(self) -> Json {
        Json::Bool(self@)
    }

    open spec fn round_trips(self) -> bool {
        true
    }

    fn encode(&self) -> (r: JsonValue) {
        bool::encode(&self.0)
    }

    proof fn lemma_round_trip(self) {
        bool::lemma_round_trip(self.0);
    }
}

impl Default for SymbolLayoutLayerTextOptional {
    fn default() -> (r: Self)
        ensures
            r@ == false,
    {
        SymbolLayoutLayerTextOptional(false)
    }
}

/// Allows for control over whether to show symbol text when it overlaps other symbols on the map. If `text-overlap` is not set, `text-allow-overlap` is used instead
#[derive(PartialEq, Eq, Debug, Clone, Copy)]
pub enum SymbolLayoutLayerTextOverlap {
    Always,
    Cooperative,
    Never,
}

impl SymbolLayoutLayerTextOverlap {
    /// The name that stands for the value in a style document.
    pub open spec fn spec_name(self) -> Seq<char> {
        match self {
            SymbolLayoutLayerTextOverlap::Always => "always"@,
            SymbolLayoutLayerTextOverlap::Cooperative => "cooperative"@,
            SymbolLayoutLayerTextOverlap::Never => "never"@,
        }
    }

    /// The name that stands for the value in a style document.
    pub fn name(&self) -> (r: &'static str)
        ensures
            r@ == self.spec_name(),
    {
        match self {
            SymbolLayoutLayerTextOverlap::Always => "always",
            SymbolLayoutLayerTextOverlap::Cooperative => "cooperative",
            SymbolLayoutLayerTextOverlap::Never => "never",
        }
    }

    /// The value that a name stands for, if any.
    pub fn from_name(s: &str) -> (r: Option<SymbolLayoutLayerTextOverlap>)
        ensures
            r matches Some(x) ==> x.spec_name() == s@,
            r is None ==> forall|x: SymbolLayoutLayerTextOverlap| x.spec_name() != s@,
    {
        if str_eq(s, "always") {
            Some(SymbolLayoutLayerTextOverlap::Always)
        } else if str_eq(s, "cooperative") {
            Some(SymbolLayoutLayerTextOverlap::Cooperative)
        } else if str_eq(s, "never") {
            Some(SymbolLayoutLayerTextOverlap::Never)
        } else {
            None
        }
    }
}

impl SymbolLayoutLayerTextOverlap {
    /// Each value is read from, and written as, the name that the style specification gives
    /// it, and a document holding one of these names reads as that value and no other.
    pub proof fn lemma_read_by_name()
        ensures
            forall|x: SymbolLayoutLayerTextOverlap| <SymbolLayoutLayerTextOverlap as JsonDecode>::decodes(Json::Str("cooperative"@), x) <==> x == SymbolLayoutLayerTextOverlap::Cooperative,
            forall|x: SymbolLayoutLayerTextOverlap| <SymbolLayoutLayerTextOverlap as JsonDecode>::decodes(Json::Str("always"@), x) <==> x == SymbolLayoutLayerTextOverlap::Always,
            <SymbolLayoutLayerTextOverlap as JsonEncode>::to_json(SymbolLayoutLayerTextOverlap::Cooperative) == Json::Str("cooperative"@),
            <SymbolLayoutLayerTextOverlap as JsonEncode>::to_json(SymbolLayoutLayerTextOverlap::Always) == Json::Str("always"@),
            forall|x: SymbolLayoutLayerTextOverlap| <SymbolLayoutLayerTextOverlap as JsonDecode>::decodes(Json::Str("never"@), x) <==> x == SymbolLayoutLayerTextOverlap::Never,
            <SymbolLayoutLayerTextOverlap as JsonEncode>::to_json(SymbolLayoutLayerTextOverlap::Never) == Json::Str("never"@),
    {
        reveal_strlit("never");
        reveal_strlit("always");
        reveal_strlit("cooperative");
        assert("cooperative"@.len() != "never"@.len());
        assert("always"@.len() != "never"@.len());
        assert("always"@.len() != "cooperative"@.len());
    }
}

impl JsonDecode for SymbolLayoutLayerTextOverlap {
    /// The name of a value, or an object whose one entry has the name as its key and `null`.
    open spec fn accepts(v: Json) -> bool {
        ||| (v is Str && exists|x: SymbolLayoutLayerTextOverlap| x.spec_name() == v->Str_0)
        ||| (v is Object && v->Object_0.len() == 1 && v->Object_0[0].1 is Null && exists|x: SymbolLayoutLayerTextOverlap| x.spec_name() == v->Object_0[0].0)
    }

    open spec fn decodes(v: Json, x: Self) -> bool {
        ||| v == Json::Str(x.spec_name())
        ||| (v is Object && v->Object_0.len() == 1 && v->Object_0[0] == (x.spec_name(), Json::Null))
    }

    open spec fn rejection(v: Json) -> Seq<char> {
        if v is Str {
            unknown_variant(v->Str_0) + ", expected one of `always`, `cooperative`, `never`"@
        } else if v is Object {
            let o = v->Object_0;
            if o.len() != 1 {
                "invalid value: map, expected map with a single key"@
            } else if !(exists|x: SymbolLayoutLayerTextOverlap| x.spec_name() == o[0].0) {
                unknown_variant(o[0].0) + ", expected one of `always`, `cooperative`, `never`"@
            } else {
                type_error(o[0].1, "unit"@)
            }
        } else {
            type_error(v, "string or map"@)
        }
    }

    fn decode(v: &JsonValue) -> (r: Result<Self, String>) {
        match v {
            JsonValue::String(s) => match Self::from_name(s.as_str()) {
                Some(x) => Ok(x),
                None => {
                    let mut m = make_unknown_variant(s.as_str());
                    m.append(", expected one of `always`, `cooperative`, `never`");
                    Err(m)
                },
            },
            JsonValue::Object(fields) => {
                if fields.len() != 1 {
                    return Err("invalid value: map, expected map with a single key".to_string());
                }
                proof {
                    assert(entries_model(*fields)[0] == (fields@[0].0@, fields@[0].1.model()));
                }
                match Self::from_name(fields[0].0.as_str()) {
                    Some(x) => match &fields[0].1 {
                        JsonValue::Null => Ok(x),
                        _ => Err(make_type_error(&fields[0].1, "unit")),
                    },
                    None => {
                        let mut m = make_unknown_variant(fields[0].0.as_str());
                        m.append(", expected one of `always`, `cooperative`, `never`");
                        Err(m)
                    },
                }
            },
            _ => Err(make_type_error(v, "string or map")),
        }
    }
}

impl JsonEncode for SymbolLayoutLayerTextOverlap {
    open spec fn to_json(self) -> Json {
        Json::Str(self.spec_name())
    }

    open spec fn round_trips(self) -> bool {
        true
    }

    fn encode(&self) -> (r: JsonValue) {
        JsonValue::String(self.name().to_string())
    }

    proof fn lemma_round_trip(self) {
    }
}

/// Nested expression: ramp (`interpolate` / …) or regular [`Number`] operators.
#[derive(PartialEq, Debug, Clone)]
pub enum SymbolLayoutLayerTextPaddingExpression {
    Number(Number),
    Ramp(NumberOrArrayOfNumberOrColorOrArrayOfColorOrProjection),
}

impl JsonDecode for SymbolLayoutLayerTextPaddingExpression {
    open spec fn accepts(v: Json) -> bool {
        Number::accepts(v) || NumberOrArrayOfNumberOrColorOrArrayOfColorOrProjection::accepts(v)
    }

    open spec fn decodes(v: Json, x: Self) -> bool {
        match x {
            SymbolLayoutLayerTextPaddingExpression::Number(t) => Number::accepts(v) && Number::decodes(v, t),
            SymbolLayoutLayerTextPaddingExpression::Ramp(t) => !Number::accepts(v) && NumberOrArrayOfNumberOrColorOrArrayOfColorOrProjection::accepts(v) && NumberOrArrayOfNumberOrColorOrArrayOfColorOrProjection::decodes(v, t),
        }
    }

    open spec fn rejection(v: Json) -> Seq<char> {
        "SymbolLayoutLayerTextPaddingExpression: no variant matched. Expected Number(Number) | Ramp(NumberOrArrayOfNumberOrColorOrArrayOfColorOrProjection). Errors: ["@ + "Number: "@ + Number::rejection(v) + "; Ramp: "@ + NumberOrArrayOfNumberOrColorOrArrayOfColorOrProjection::rejection(v) + "]"@
    }

    fn decode(v: &JsonValue) -> (r: Result<Self, String>) {
        let e0 = match Number::decode(v) {
            Ok(x) => {
                return Ok(SymbolLayoutLayerTextPaddingExpression::Number(x));
            },
            Err(e) => e,
        };
        let e1 = match NumberOrArrayOfNumberOrColorOrArrayOfColorOrProjection::decode(v) {
            Ok(x) => {
                return Ok(SymbolLayoutLayerTextPaddingExpression::Ramp(x));
            },
            Err(e) => e,
        };
        let mut m = "SymbolLayoutLayerTextPaddingExpression: no variant matched. Expected Number(Number) | Ramp(NumberOrArrayOfNumberOrColorOrArrayOfColorOrProjection). Errors: [".to_string();
        m.append("Number: ");
        m.append(e0.as_str());
        m.append("; Ramp: ");
        m.append(e1.as_str());
        m.append("]");
        Err(m)
    }
}

impl JsonEncode for SymbolLayoutLayerTextPaddingExpression {
    open spec fn to_json(self) -> Json {
        match self {
            SymbolLayoutLayerTextPaddingExpression::Number(t) => Number::to_json(t),
            SymbolLayoutLayerTextPaddingExpression::Ramp(t) => NumberOrArrayOfNumberOrColorOrArrayOfColorOrProjection::to_json(t),
        }
    }

    open spec fn round_trips(self) -> bool {
        match self {
            SymbolLayoutLayerTextPaddingExpression::Number(t) => Number::round_trips(t),
            SymbolLayoutLayerTextPaddingExpression::Ramp(t) => NumberOrArrayOfNumberOrColorOrArrayOfColorOrProjection::round_trips(t) && !Number::accepts(NumberOrArrayOfNumberOrColorOrArrayOfColorOrProjection::to_json(t)),
        }
    }

    fn encode(&self) -> (r: JsonValue) {
        match self {
            SymbolLayoutLayerTextPaddingExpression::Number(t) => Number::encode(t),
            SymbolLayoutLayerTextPaddingExpression::Ramp(t) => NumberOrArrayOfNumberOrColorOrArrayOfColorOrProjection::encode(t),
        }
    }

    proof fn lemma_round_trip(self) {
        match self {
            SymbolLayoutLayerTextPaddingExpression::Number(t) => Number::lemma_round_trip(t),
            SymbolLayoutLayerTextPaddingExpression::Ramp(t) => NumberOrArrayOfNumberOrColorOrArrayOfColorOrProjection::lemma_round_trip(t),
        }
    }
}

/// Size of the additional area around the text bounding box used for detecting symbol collisions.
#[derive(PartialEq, Debug, Clone)]
pub enum SymbolLayoutLayerTextPadding {
    Expr(Box<SymbolLayoutLayerTextPaddingExpression>),
    Literal(JsonNumber),
}

impl JsonDecode for SymbolLayoutLayerTextPadding {
    open spec fn accepts(v: Json) -> bool {
        SymbolLayoutLayerTextPaddingExpression::accepts(v) || JsonNumber::accepts(v)
    }

    open spec fn decodes(v: Json, x: Self) -> bool {
        match x {
            SymbolLayoutLayerTextPadding::Expr(t) => SymbolLayoutLayerTextPaddingExpression::accepts(v) && SymbolLayoutLayerTextPaddingExpression::decodes(v, *t),
            SymbolLayoutLayerTextPadding::Literal(t) => !SymbolLayoutLayerTextPaddingExpression::accepts(v) && JsonNumber::accepts(v) && JsonNumber::decodes(v, t),
        }
    }

    open spec fn rejection(v: Json) -> Seq<char> {
        "SymbolLayoutLayerTextPadding: no variant matched. Expected Expr(SymbolLayoutLayerTextPaddingExpression) | Literal(serde_json::Number). Errors: ["@ + "Expr: "@ + SymbolLayoutLayerTextPaddingExpression::rejection(v) + "; Literal: "@ + JsonNumber::rejection(v) + "]"@
    }

    fn decode(v: &JsonValue) -> (r: Result<Self, String>) {
        let e0 = match SymbolLayoutLayerTextPaddingExpression::decode(v) {
            Ok(x) => {
                return Ok(SymbolLayoutLayerTextPadding::Expr(Box::new(x)));
            },
            Err(e) => e,
        };
        let e1 = match JsonNumber::decode(v) {
            Ok(x) => {
                return Ok(SymbolLayoutLayerTextPadding::Literal(x));
            },
            Err(e) => e,
        };
        let mut m = "SymbolLayoutLayerTextPadding: no variant matched. Expected Expr(SymbolLayoutLayerTextPaddingExpression) | Literal(serde_json::Number). Errors: [".to_string();
        m.append("Expr: ");
        m.append(e0.as_str());
        m.append("; Literal: ");
        m.append(e1.as_str());
        m.append("]");
        Err(m)
    }
}

impl JsonEncode for SymbolLayoutLayerTextPadding {
    open spec fn to_json(self) -> Json {
        match self {
            SymbolLayoutLayerTextPadding::Expr(t) => SymbolLayoutLayerTextPaddingExpression::to_json(*t),
            SymbolLayoutLayerTextPadding::Literal(t) => JsonNumber::to_json(t),
        }
    }

    open spec fn round_trips(self) -> bool {
        match self {
            SymbolLayoutLayerTextPadding::Expr(t) => SymbolLayoutLayerTextPaddingExpression::round_trips(*t),
            SymbolLayoutLayerTextPadding::Literal(t) => JsonNumber::round_trips(t) && !SymbolLayoutLayerTextPaddingExpression::accepts(JsonNumber::to_json(t)),
        }
    }

    fn encode(&self) -> (r: JsonValue) {
        match self {
            SymbolLayoutLayerTextPadding::Expr(t) => SymbolLayoutLayerTextPaddingExpression::encode(&**t),
            SymbolLayoutLayerTextPadding::Literal(t) => JsonNumber::encode(t),
        }
    }

    proof fn lemma_round_trip(self) {
        match self {
            SymbolLayoutLayerTextPadding::Expr(t) => SymbolLayoutLayerTextPaddingExpression::lemma_round_trip(*t),
            SymbolLayoutLayerTextPadding::Literal(t) => JsonNumber::lemma_round_trip(t),
        }
    }
}

impl Default for SymbolLayoutLayerTextPadding {
    fn default() -> (r: Self)
        ensures
            r.to_json() == Json::Number("2"@),
            r is Literal,
    {
        let r = SymbolLayoutLayerTextPadding::Literal(JsonNumber::from_literal("2"));
        r
    }
}

/// Orientation of text when map is pitched.
#[derive(PartialEq, Eq, Debug, Clone, Copy)]
pub enum SymbolLayoutLayerTextPitchAlignment {
    Auto,
    MapValue,
    Viewport,
}

impl SymbolLayoutLayerTextPitchAlignment {
    /// The name that stands for the value in a style document.
    pub open spec fn spec_name(self) -> Seq<char> {
        match self {
            SymbolLayoutLayerTextPitchAlignment::Auto => "auto"@,
            SymbolLayoutLayerTextPitchAlignment::MapValue => "map"@,
            SymbolLayoutLayerTextPitchAlignment::Viewport => "viewport"@,
        }
    }

    /// The name that stands for the value in a style document.
    pub fn name(&self) -> (r: &'static str)
        ensures
            r@ == self.spec_name(),
    {
        match self {
            SymbolLayoutLayerTextPitchAlignment::Auto => "auto",
            SymbolLayoutLayerTextPitchAlignment::MapValue => "map",
            SymbolLayoutLayerTextPitchAlignment::Viewport => "viewport",
        }
    }

    /// The value that a name stands for, if any.
    pub fn from_name(s: &str) -> (r: Option<SymbolLayoutLayerTextPitchAlignment>)
        ensures
            r matches Some(x) ==> x.spec_name() == s@,
            r is None ==> forall|x: SymbolLayoutLayerTextPitchAlignment| x.spec_name() != s@,
    {
        if str_eq(s, "auto") {
            Some(SymbolLayoutLayerTextPitchAlignment::Auto)
        } else if str_eq(s, "map") {
            Some(SymbolLayoutLayerTextPitchAlignment::MapValue)
        } else if str_eq(s, "viewport") {
            Some(SymbolLayoutLayerTextPitchAlignment::Viewport)
        } else {
            None
        }
    }
}

impl SymbolLayoutLayerTextPitchAlignment {
    /// Each value is read from, and written as, the name that the style specification gives
    /// it, and a document holding one of these names reads as that value and no other.
    pub proof fn lemma_read_by_name()
        ensures
            forall|x: SymbolLayoutLayerTextPitchAlignment| <SymbolLayoutLayerTextPitchAlignment as JsonDecode>::decodes(Json::Str("map"@), x) <==> x == SymbolLayoutLayerTextPitchAlignment::MapValue,
            forall|x: SymbolLayoutLayerTextPitchAlignment| <SymbolLayoutLayerTextPitchAlignment as JsonDecode>::decodes(Json::Str("viewport"@), x) <==> x == SymbolLayoutLayerTextPitchAlignment::Viewport,
            <SymbolLayoutLayerTextPitchAlignment as JsonEncode>::to_json(SymbolLayoutLayerTextPitchAlignment::Auto) == Json::Str("auto"@),
            <SymbolLayoutLayerTextPitchAlignment as JsonEncode>::to_json(SymbolLayoutLayerTextPitchAlignment::Viewport) == Json::Str("viewport"@),
            forall|x: SymbolLayoutLayerTextPitchAlignment| <SymbolLayoutLayerTextPitchAlignment as JsonDecode>::decodes(Json::Str("auto"@), x) <==> x == SymbolLayoutLayerTextPitchAlignment::Auto,
            <SymbolLayoutLayerTextPitchAlignment as JsonEncode>::to_json(SymbolLayoutLayerTextPitchAlignment::MapValue) == Json::Str("map"@),
    {
        reveal_strlit("auto");
        reveal_strlit("viewport");
        reveal_strlit("map");
        assert("map"@.len() != "viewport"@.len());
        assert("auto"@.len() != "viewport"@.len());
        assert("auto"@.len() != "map"@.len());
    }
}

impl JsonDecode for SymbolLayoutLayerTextPitchAlignment {
    /// The name of a value, or an object whose one entry has the name as its key and `null`.
    open spec fn accepts(v: Json) -> bool {
        ||| (v is Str && exists|x: SymbolLayoutLayerTextPitchAlignment| x.spec_name() == v->Str_0)
        ||| (v is Object && v->Object_0.len() == 1 && v->Object_0[0].1 is Null && exists|x: SymbolLayoutLayerTextPitchAlignment| x.spec_name() == v->Object_0[0].0)
    }

    open spec fn decodes(v: Json, x: Self) -> bool {
        ||| v == Json::Str(x.spec_name())
        ||| (v is Object && v->Object_0.len() == 1 && v->Object_0[0] == (x.spec_name(), Json::Null))
    }

    open spec fn rejection(v: Json) -> Seq<char> {
        if v is Str {
            unknown_variant(v->Str_0) + ", expected one of `auto`, `map`, `viewport`"@
        } else if v is Object {
            let o = v->Object_0;
            if o.len() != 1 {
                "invalid value: map, expected map with a single key"@
            } else if !(exists|x: SymbolLayoutLayerTextPitchAlignment| x.spec_name() == o[0].0) {
                unknown_variant(o[0].0) + ", expected one of `auto`, `map`, `viewport`"@
            } else {
                type_error(o[0].1, "unit"@)
            }
        } else {
            type_error(v, "string or map"@)
        }
    }

    fn decode(v: &JsonValue) -> (r: Result<Self, String>) {
        match v {
            JsonValue::String(s) => match Self::from_name(s.as_str()) {
                Some(x) => Ok(x),
                None => {
                    let mut m = make_unknown_variant(s.as_str());
                    m.append(", expected one of `auto`, `map`, `viewport`");
                    Err(m)
                },
            },
            JsonValue::Object(fields) => {
                if fields.len() != 1 {
                    return Err("invalid value: map, expected map with a single key".to_string());
                }
                proof {
                    assert(entries_model(*fields)[0] == (fields@[0].0@, fields@[0].1.model()));
                }
                match Self::from_name(fields[0].0.as_str()) {
                    Some(x) => match &fields[0].1 {
                        JsonValue::Null => Ok(x),
                        _ => Err(make_type_error(&fields[0].1, "unit")),
                    },
                    None => {
                        let mut m = make_unknown_variant(fields[0].0.as_str());
                        m.append(", expected one of `auto`, `map`, `viewport`");
                        Err(m)
                    },
                }
            },
            _ => Err(make_type_error(v, "string or map")),
        }
    }
}

impl JsonEncode for SymbolLayoutLayerTextPitchAlignment {
    open spec fn to_json(self) -> Json {
        Json::Str(self.spec_name())
    }

    open spec fn round_trips(self) -> bool {
        true
    }

    fn encode(&self) -> (r: JsonValue) {
        JsonValue::String(self.name().to_string())
    }

    proof fn lemma_round_trip(self) {
    }
}

impl Default for SymbolLayoutLayerTextPitchAlignment {
    fn default() -> (r: Self)
        ensures
            r == SymbolLayoutLayerTextPitchAlignment::Auto,
    {
        SymbolLayoutLayerTextPitchAlignment::Auto
    }
}

/// Nested expression: ramp (`interpolate` / …) or regular [`Number`] operators.
#[derive(PartialEq, Debug, Clone)]
pub enum SymbolLayoutLayerTextRadialOffsetExpression {
    Number(Number),
    Ramp(NumberOrArrayOfNumberOrColorOrArrayOfColorOrProjection),
}

impl JsonDecode for SymbolLayoutLayerTextRadialOffsetExpression {
    open spec fn accepts(v: Json) -> bool {
        Number::accepts(v) || NumberOrArrayOfNumberOrColorOrArrayOfColorOrProjection::accepts(v)
    }

    open spec fn decodes(v: Json, x: Self) -> bool {
        match x {
            SymbolLayoutLayerTextRadialOffsetExpression::Number(t) => Number::accepts(v) && Number::decodes(v, t),
            SymbolLayoutLayerTextRadialOffsetExpression::Ramp(t) => !Number::accepts(v) && NumberOrArrayOfNumberOrColorOrArrayOfColorOrProjection::accepts(v) && NumberOrArrayOfNumberOrColorOrArrayOfColorOrProjection::decodes(v, t),
        }
    }

    open spec fn rejection(v: Json) -> Seq<char> {
        "SymbolLayoutLayerTextRadialOffsetExpression: no variant matched. Expected Number(Number) | Ramp(NumberOrArrayOfNumberOrColorOrArrayOfColorOrProjection). Errors: ["@ + "Number: "@ + Number::rejection(v) + "; Ramp: "@ + NumberOrArrayOfNumberOrColorOrArrayOfColorOrProjection::rejection(v) + "]"@
    }

    fn decode(v: &JsonValue) -> (r: Result<Self, String>) {
        let e0 = match Number::decode(v) {
            Ok(x) => {
                return Ok(SymbolLayoutLayerTextRadialOffsetExpression::Number(x));
            },
            Err(e) => e,
        };
        let e1 = match NumberOrArrayOfNumberOrColorOrArrayOfColorOrProjection::decode(v) {
            Ok(x) => {
                return Ok(SymbolLayoutLayerTextRadialOffsetExpression::Ramp(x));
            },
            Err(e) => e,
        };
        let mut m = "SymbolLayoutLayerTextRadialOffsetExpression: no variant matched. Expected Number(Number) | Ramp(NumberOrArrayOfNumberOrColorOrArrayOfColorOrProjection). Errors: [".to_string();
        m.append("Number: ");
        m.append(e0.as_str());
        m.append("; Ramp: ");
        m.append(e1.as_str());
        m.append("]");
        Err(m)
    }
}

impl JsonEncode for SymbolLayoutLayerTextRadialOffsetExpression {
    open spec fn to_json(self) -> Json {
        match self {
            SymbolLayoutLayerTextRadialOffsetExpression::Number(t) => Number::to_json(t),
            SymbolLayoutLayerTextRadialOffsetExpression::Ramp(t) => NumberOrArrayOfNumberOrColorOrArrayOfColorOrProjection::to_json(t),
        }
    }

    open spec fn round_trips(self) -> bool {
        match self {
            SymbolLayoutLayerTextRadialOffsetExpression::Number(t) => Number::round_trips(t),
            SymbolLayoutLayerTextRadialOffsetExpression::Ramp(t) => NumberOrArrayOfNumberOrColorOrArrayOfColorOrProjection::round_trips(t) && !Number::accepts(NumberOrArrayOfNumberOrColorOrArrayOfColorOrProjection::to_json(t)),
        }
    }

    fn encode(&self) -> (r: JsonValue) {
        match self {
            SymbolLayoutLayerTextRadialOffsetExpression::Number(t) => Number::encode(t),
            SymbolLayoutLayerTextRadialOffsetExpression::Ramp(t) => NumberOrArrayOfNumberOrColorOrArrayOfColorOrProjection::encode(t),
        }
    }

    proof fn lemma_round_trip(self) {
        match self {
            SymbolLayoutLayerTextRadialOffsetExpression::Number(t) => Number::lemma_round_trip(t),
            SymbolLayoutLayerTextRadialOffsetExpression::Ramp(t) => NumberOrArrayOfNumberOrColorOrArrayOfColorOrProjection::lemma_round_trip(t),
        }
    }
}

/// Radial offset of text, in the direction of the symbol's anchor. Useful in combination with `text-variable-anchor`, which defaults to using the two-dimensional `text-offset` if present.
#[derive(PartialEq, Debug, Clone)]
pub enum SymbolLayoutLayerTextRadialOffset {
    Expr(Box<SymbolLayoutLayerTextRadialOffsetExpression>),
    Literal(JsonNumber),
}

impl JsonDecode for SymbolLayoutLayerTextRadialOffset {
    open spec fn accepts(v: Json) -> bool {
        SymbolLayoutLayerTextRadialOffsetExpression::accepts(v) || JsonNumber::accepts(v)
    }

    open spec fn decodes(v: Json, x: Self) -> bool {
        match x {
            SymbolLayoutLayerTextRadialOffset::Expr(t) => SymbolLayoutLayerTextRadialOffsetExpression::accepts(v) && SymbolLayoutLayerTextRadialOffsetExpression::decodes(v, *t),
            SymbolLayoutLayerTextRadialOffset::Literal(t) => !SymbolLayoutLayerTextRadialOffsetExpression::accepts(v) && JsonNumber::accepts(v) && JsonNumber::decodes(v, t),
        }
    }

    open spec fn rejection(v: Json) -> Seq<char> {
        "SymbolLayoutLayerTextRadialOffset: no variant matched. Expected Expr(SymbolLayoutLayerTextRadialOffsetExpression) | Literal(serde_json::Number). Errors: ["@ + "Expr: "@ + SymbolLayoutLayerTextRadialOffsetExpression::rejection(v) + "; Literal: "@ + JsonNumber::rejection(v) + "]"@
    }

    fn decode(v: &JsonValue) -> (r: Result<Self, String>) {
        let e0 = match SymbolLayoutLayerTextRadialOffsetExpression::decode(v) {
            Ok(x) => {
                return Ok(SymbolLayoutLayerTextRadialOffset::Expr(Box::new(x)));
            },
            Err(e) => e,
        };
        let e1 = match JsonNumber::decode(v) {
            Ok(x) => {
                return Ok(SymbolLayoutLayerTextRadialOffset::Literal(x));
            },
            Err(e) => e,
        };
        let mut m = "SymbolLayoutLayerTextRadialOffset: no variant matched. Expected Expr(SymbolLayoutLayerTextRadialOffsetExpression) | Literal(serde_json::Number). Errors: [".to_string();
        m.append("Expr: ");
        m.append(e0.as_str());
        m.append("; Literal: ");
        m.append(e1.as_str());
        m.append("]");
        Err(m)
    }
}

impl JsonEncode for SymbolLayoutLayerTextRadialOffset {
    open spec fn to_json(self) -> Json {
        match self {
            SymbolLayoutLayerTextRadialOffset::Expr(t) => SymbolLayoutLayerTextRadialOffsetExpression::to_json(*t),
            SymbolLayoutLayerTextRadialOffset::Literal(t) => JsonNumber::to_json(t),
        }
    }

    open spec fn round_trips(self) -> bool {
        match self {
            SymbolLayoutLayerTextRadialOffset::Expr(t) => SymbolLayoutLayerTextRadialOffsetExpression::round_trips(*t),
            SymbolLayoutLayerTextRadialOffset::Literal(t) => JsonNumber::round_trips(t) && !SymbolLayoutLayerTextRadialOffsetExpression::accepts(JsonNumber::to_json(t)),
        }
    }

    fn encode(&self) -> (r: JsonValue) {
        match self {
            SymbolLayoutLayerTextRadialOffset::Expr(t) => SymbolLayoutLayerTextRadialOffsetExpression::encode(&**t),
            SymbolLayoutLayerTextRadialOffset::Literal(t) => JsonNumber::encode(t),
        }
    }

    proof fn lemma_round_trip(self) {
        match self {
            SymbolLayoutLayerTextRadialOffset::Expr(t) => SymbolLayoutLayerTextRadialOffsetExpression::lemma_round_trip(*t),
            SymbolLayoutLayerTextRadialOffset::Literal(t) => JsonNumber::lemma_round_trip(t),
        }
    }
}

impl Default for SymbolLayoutLayerTextRadialOffset {
    fn default() -> (r: Self)
        ensures
            r.to_json() == Json::Number("0"@),
            r is Literal,
    {
        let r = SymbolLayoutLayerTextRadialOffset::Literal(JsonNumber::from_literal("0"));
        r
    }
}

/// Nested expression: ramp (`interpolate` / …) or regular [`Number`] operators.
#[derive(PartialEq, Debug, Clone)]
pub enum SymbolLayoutLayerTextRotateExpression {
    Number(Number),
    Ramp(NumberOrArrayOfNumberOrColorOrArrayOfColorOrProjection),
}

impl JsonDecode for SymbolLayoutLayerTextRotateExpression {
    open spec fn accepts(v: Json) -> bool {
        Number::accepts(v) || NumberOrArrayOfNumberOrColorOrArrayOfColorOrProjection::accepts(v)
    }

    open spec fn decodes(v: Json, x: Self) -> bool {
        match x {
            SymbolLayoutLayerTextRotateExpression::Number(t) => Number::accepts(v) && Number::decodes(v, t),
            SymbolLayoutLayerTextRotateExpression::Ramp(t) => !Number::accepts(v) && NumberOrArrayOfNumberOrColorOrArrayOfColorOrProjection::accepts(v) && NumberOrArrayOfNumberOrColorOrArrayOfColorOrProjection::decodes(v, t),
        }
    }

    open spec fn rejection(v: Json) -> Seq<char> {
        "SymbolLayoutLayerTextRotateExpression: no variant matched. Expected Number(Number) | Ramp(NumberOrArrayOfNumberOrColorOrArrayOfColorOrProjection). Errors: ["@ + "Number: "@ + Number::rejection(v) + "; Ramp: "@ + NumberOrArrayOfNumberOrColorOrArrayOfColorOrProjection::rejection(v) + "]"@
    }

    fn decode(v: &JsonValue) -> (r: Result<Self, String>) {
        let e0 = match Number::decode(v) {
            Ok(x) => {
                return Ok(SymbolLayoutLayerTextRotateExpression::Number(x));
            },
            Err(e) => e,
        };
        let e1 = match NumberOrArrayOfNumberOrColorOrArrayOfColorOrProjection::decode(v) {
            Ok(x) => {
                return Ok(SymbolLayoutLayerTextRotateExpression::Ramp(x));
            },
            Err(e) => e,
        };
        let mut m = "SymbolLayoutLayerTextRotateExpression: no variant matched. Expected Number(Number) | Ramp(NumberOrArrayOfNumberOrColorOrArrayOfColorOrProjection). Errors: [".to_string();
        m.append("Number: ");
        m.append(e0.as_str());
        m.append("; Ramp: ");
        m.append(e1.as_str());
        m.append("]");
        Err(m)
    }
}

impl JsonEncode for SymbolLayoutLayerTextRotateExpression {
    open spec fn to_json(self) -> Json {
        match self {
            SymbolLayoutLayerTextRotateExpression::Number(t) => Number::to_json(t),
            SymbolLayoutLayerTextRotateExpression::Ramp(t) => NumberOrArrayOfNumberOrColorOrArrayOfColorOrProjection::to_json(t),
        }
    }

    open spec fn round_trips(self) -> bool {
        match self {
            SymbolLayoutLayerTextRotateExpression::Number(t) => Number::round_trips(t),
            SymbolLayoutLayerTextRotateExpression::Ramp(t) => NumberOrArrayOfNumberOrColorOrArrayOfColorOrProjection::round_trips(t) && !Number::accepts(NumberOrArrayOfNumberOrColorOrArrayOfColorOrProjection::to_json(t)),
        }
    }

    fn encode(&self) -> (r: JsonValue) {
        match self {
            SymbolLayoutLayerTextRotateExpression::Number(t) => Number::encode(t),
            SymbolLayoutLayerTextRotateExpression::Ramp(t) => NumberOrArrayOfNumberOrColorOrArrayOfColorOrProjection::encode(t),
        }
    }

    proof fn lemma_round_trip(self) {
        match self {
            SymbolLayoutLayerTextRotateExpression::Number(t) => Number::lemma_round_trip(t),
            SymbolLayoutLayerTextRotateExpression::Ramp(t) => NumberOrArrayOfNumberOrColorOrArrayOfColorOrProjection::lemma_round_trip(t),
        }
    }
}

/// Rotates the text clockwise.
#[derive(PartialEq, Debug, Clone)]
pub enum SymbolLayoutLayerTextRotate {
    Expr(Box<SymbolLayoutLayerTextRotateExpression>),
    Literal(JsonNumber),
}

impl JsonDecode for SymbolLayoutLayerTextRotate {
    open spec fn accepts(v: Json) -> bool {
        SymbolLayoutLayerTextRotateExpression::accepts(v) || JsonNumber::accepts(v)
    }

    open spec fn decodes(v: Json, x: Self) -> bool {
        match x {
            SymbolLayoutLayerTextRotate::Expr(t) => SymbolLayoutLayerTextRotateExpression::accepts(v) && SymbolLayoutLayerTextRotateExpression::decodes(v, *t),
            SymbolLayoutLayerTextRotate::Literal(t) => !SymbolLayoutLayerTextRotateExpression::accepts(v) && JsonNumber::accepts(v) && JsonNumber::decodes(v, t),
        }
    }

    open spec fn rejection(v: Json) -> Seq<char> {
        "SymbolLayoutLayerTextRotate: no variant matched. Expected Expr(SymbolLayoutLayerTextRotateExpression) | Literal(serde_json::Number). Errors: ["@ + "Expr: "@ + SymbolLayoutLayerTextRotateExpression::rejection(v) + "; Literal: "@ + JsonNumber::rejection(v) + "]"@
    }

    fn decode(v: &JsonValue) -> (r: Result<Self, String>) {
        let e0 = match SymbolLayoutLayerTextRotateExpression::decode(v) {
            Ok(x) => {
                return Ok(SymbolLayoutLayerTextRotate::Expr(Box::new(x)));
            },
            Err(e) => e,
        };
        let e1 = match JsonNumber::decode(v) {
            Ok(x) => {
                return Ok(SymbolLayoutLayerTextRotate::Literal(x));
            },
            Err(e) => e,
        };
        let mut m = "SymbolLayoutLayerTextRotate: no variant matched. Expected Expr(SymbolLayoutLayerTextRotateExpression) | Literal(serde_json::Number). Errors: [".to_string();
        m.append("Expr: ");
        m.append(e0.as_str());
        m.append("; Literal: ");
        m.append(e1.as_str());
        m.append("]");
        Err(m)
    }
}

impl JsonEncode for SymbolLayoutLayerTextRotate {
    open spec fn to_json(self) -> Json {
        match self {
            SymbolLayoutLayerTextRotate::Expr(t) => SymbolLayoutLayerTextRotateExpression::to_json(*t),
            SymbolLayoutLayerTextRotate::Literal(t) => JsonNumber::to_json(t),
        }
    }

    open spec fn round_trips(self) -> bool {
        match self {
            SymbolLayoutLayerTextRotate::Expr(t) => SymbolLayoutLayerTextRotateExpression::round_trips(*t),
            SymbolLayoutLayerTextRotate::Literal(t) => JsonNumber::round_trips(t) && !SymbolLayoutLayerTextRotateExpression::accepts(JsonNumber::to_json(t)),
        }
    }

    fn encode(&self) -> (r: JsonValue) {
        match self {
            SymbolLayoutLayerTextRotate::Expr(t) => SymbolLayoutLayerTextRotateExpression::encode(&**t),
            SymbolLayoutLayerTextRotate::Literal(t) => JsonNumber::encode(t),
        }
    }

    proof fn lemma_round_trip(self) {
        match self {
            SymbolLayoutLayerTextRotate::Expr(t) => SymbolLayoutLayerTextRotateExpression::lemma_round_trip(*t),
            SymbolLayoutLayerTextRotate::Literal(t) => JsonNumber::lemma_round_trip(t),
        }
    }
}

impl Default for SymbolLayoutLayerTextRotate {
    fn default() -> (r: Self)
        ensures
            r.to_json() == Json::Number("0"@),
            r is Literal,
    {
        let r = SymbolLayoutLayerTextRotate::Literal(JsonNumber::from_literal("0"));
        r
    }
}

/// In combination with `symbol-placement`, determines the rotation behavior of the individual glyphs forming the text.
#[derive(PartialEq, Eq, Debug, Clone, Copy)]
pub enum SymbolLayoutLayerTextRotationAlignment {
    Auto,
    MapValue,
    Viewport,
    ViewportGlyph,
}

impl SymbolLayoutLayerTextRotationAlignment {
    /// The name that stands for the value in a style document.
    pub open spec fn spec_name(self) -> Seq<char> {
        match self {
            SymbolLayoutLayerTextRotationAlignment::Auto => "auto"@,
            SymbolLayoutLayerTextRotationAlignment::MapValue => "map"@,
            SymbolLayoutLayerTextRotationAlignment::Viewport => "viewport"@,
            SymbolLayoutLayerTextRotationAlignment::ViewportGlyph => "viewport-glyph"@,
        }
    }

    /// The name that stands for the value in a style document.
    pub fn name(&self) -> (r: &'static str)
        ensures
            r@ == self.spec_name(),
    {
        match self {
            SymbolLayoutLayerTextRotationAlignment::Auto => "auto",
            SymbolLayoutLayerTextRotationAlignment::MapValue => "map",
            SymbolLayoutLayerTextRotationAlignment::Viewport => "viewport",
            SymbolLayoutLayerTextRotationAlignment::ViewportGlyph => "viewport-glyph",
        }
    }

    /// The value that a name stands for, if any.
    pub fn from_name(s: &str) -> (r: Option<SymbolLayoutLayerTextRotationAlignment>)
        ensures
            r matches Some(x) ==> x.spec_name() == s@,
            r is None ==> forall|x: SymbolLayoutLayerTextRotationAlignment| x.spec_name() != s@,
    {
        if str_eq(s, "auto") {
            Some(SymbolLayoutLayerTextRotationAlignment::Auto)
        } else if str_eq(s, "map") {
            Some(SymbolLayoutLayerTextRotationAlignment::MapValue)
        } else if str_eq(s, "viewport") {
            Some(SymbolLayoutLayerTextRotationAlignment::Viewport)
        } else if str_eq(s, "viewport-glyph") {
            Some(SymbolLayoutLayerTextRotationAlignment::ViewportGlyph)
        } else {
            None
        }
    }
}

impl SymbolLayoutLayerTextRotationAlignment {
    /// Each value is read from, and written as, the name that the style specification gives
    /// it, and a document holding one of these names reads as that value and no other.
    pub proof fn lemma_read_by_name()
        ensures
            <SymbolLayoutLayerTextRotationAlignment as JsonEncode>::to_json(SymbolLayoutLayerTextRotationAlignment::Auto) == Json::Str("auto"@),
            <SymbolLayoutLayerTextRotationAlignment as JsonEncode>::to_json(SymbolLayoutLayerTextRotationAlignment::ViewportGlyph) == Json::Str("viewport-glyph"@),
            <SymbolLayoutLayerTextRotationAlignment as JsonEncode>::to_json(SymbolLayoutLayerTextRotationAlignment::Viewport) == Json::Str("viewport"@),
            forall|x: SymbolLayoutLayerTextRotationAlignment| <SymbolLayoutLayerTextRotationAlignment as JsonDecode>::decodes(Json::Str("map"@), x) <==> x == SymbolLayoutLayerTextRotationAlignment::MapValue,
            forall|x: SymbolLayoutLayerTextRotationAlignment| <SymbolLayoutLayerTextRotationAlignment as JsonDecode>::decodes(Json::Str("viewport-glyph"@), x) <==> x == SymbolLayoutLayerTextRotationAlignment::ViewportGlyph,
            <SymbolLayoutLayerTextRotationAlignment as JsonEncode>::to_json(SymbolLayoutLayerTextRotationAlignment::MapValue) == Json::Str("map"@),
            forall|x: SymbolLayoutLayerTextRotationAlignment| <SymbolLayoutLayerTextRotationAlignment as JsonDecode>::decodes(Json::Str("auto"@), x) <==> x == SymbolLayoutLayerTextRotationAlignment::Auto,
            forall|x: SymbolLayoutLayerTextRotationAlignment| <SymbolLayoutLayerTextRotationAlignment as JsonDecode>::decodes(Json::Str("viewport"@), x) <==> x == SymbolLayoutLayerTextRotationAlignment::Viewport,
    {
        reveal_strlit("auto");
        reveal_strlit("viewport");
        reveal_strlit("viewport-glyph");
        reveal_strlit("map");
        assert("map"@.len() != "viewport-glyph"@.len());
        assert("map"@.len() != "viewport"@.len());
        assert("auto"@.len() != "viewport"@.len());
        assert("viewport"@.len() != "viewport-glyph"@.len());
        assert("auto"@.len() != "viewport-glyph"@.len());
        assert("auto"@.len() != "map"@.len());
    }
}

impl JsonDecode for SymbolLayoutLayerTextRotationAlignment {
    /// The name of a value, or an object whose one entry has the name as its key and `null`.
    open spec fn accepts(v: Json) -> bool {
        ||| (v is Str && exists|x: SymbolLayoutLayerTextRotationAlignment| x.spec_name() == v->Str_0)
        ||| (v is Object && v->Object_0.len() == 1 && v->Object_0[0].1 is Null && exists|x: SymbolLayoutLayerTextRotationAlignment| x.spec_name() == v->Object_0[0].0)
    }

    open spec fn decodes(v: Json, x: Self) -> bool {
        ||| v == Json::Str(x.spec_name())
        ||| (v is Object && v->Object_0.len() == 1 && v->Object_0[0] == (x.spec_name(), Json::Null))
    }

    open spec fn rejection(v: Json) -> Seq<char> {
        if v is Str {
            unknown_variant(v->Str_0) + ", expected one of `auto`, `map`, `viewport`, `viewport-glyph`"@
        } else if v is Object {
            let o = v->Object_0;
            if o.len() != 1 {
                "invalid value: map, expected map with a single key"@
            } else if !(exists|x: SymbolLayoutLayerTextRotationAlignment| x.spec_name() == o[0].0) {
                unknown_variant(o[0].0) + ", expected one of `auto`, `map`, `viewport`, `viewport-glyph`"@
            } else {
                type_error(o[0].1, "unit"@)
            }
        } else {
            type_error(v, "string or map"@)
        }
    }

    fn decode(v: &JsonValue) -> (r: Result<Self, String>) {
        match v {
            JsonValue::String(s) => match Self::from_name(s.as_str()) {
                Some(x) => Ok(x),
                None => {
                    let mut m = make_unknown_variant(s.as_str());
                    m.append(", expected one of `auto`, `map`, `viewport`, `viewport-glyph`");
                    Err(m)
                },
            },
            JsonValue::Object(fields) => {
                if fields.len() != 1 {
                    return Err("invalid value: map, expected map with a single key".to_string());
                }
                proof {
                    assert(entries_model(*fields)[0] == (fields@[0].0@, fields@[0].1.model()));
                }
                match Self::from_name(fields[0].0.as_str()) {
                    Some(x) => match &fields[0].1 {
                        JsonValue::Null => Ok(x),
                        _ => Err(make_type_error(&fields[0].1, "unit")),
                    },
                    None => {
                        let mut m = make_unknown_variant(fields[0].0.as_str());
                        m.append(", expected one of `auto`, `map`, `viewport`, `viewport-glyph`");
                        Err(m)
                    },
                }
            },
            _ => Err(make_type_error(v, "string or map")),
        }
    }
}

impl JsonEncode for SymbolLayoutLayerTextRotationAlignment {
    open spec fn to_json(self) -> Json {
        Json::Str(self.spec_name())
    }

    open spec fn round_trips(self) -> bool {
        true
    }

    fn encode(&self) -> (r: JsonValue) {
        JsonValue::String(self.name().to_string())
    }

    proof fn lemma_round_trip(self) {
    }
}

impl Default for SymbolLayoutLayerTextRotationAlignment {
    fn default() -> (r: Self)
        ensures
            r == SymbolLayoutLayerTextRotationAlignment::Auto,
    {
        SymbolLayoutLayerTextRotationAlignment::Auto
    }
}

/// Nested expression: ramp (`interpolate` / …) or regular [`Number`] operators.
#[derive(PartialEq, Debug, Clone)]
pub enum SymbolLayoutLayerTextSizeExpression {
    Number(Number),
    Ramp(NumberOrArrayOfNumberOrColorOrArrayOfColorOrProjection),
}

impl JsonDecode for SymbolLayoutLayerTextSizeExpression {
    open spec fn accepts(v: Json) -> bool {
        Number::accepts(v) || NumberOrArrayOfNumberOrColorOrArrayOfColorOrProjection::accepts(v)
    }

    open spec fn decodes(v: Json, x: Self) -> bool {
        match x {
            SymbolLayoutLayerTextSizeExpression::Number(t) => Number::accepts(v) && Number::decodes(v, t),
            SymbolLayoutLayerTextSizeExpression::Ramp(t) => !Number::accepts(v) && NumberOrArrayOfNumberOrColorOrArrayOfColorOrProjection::accepts(v) && NumberOrArrayOfNumberOrColorOrArrayOfColorOrProjection::decodes(v, t),
        }
    }

    open spec fn rejection(v: Json) -> Seq<char> {
        "SymbolLayoutLayerTextSizeExpression: no variant matched. Expected Number(Number) | Ramp(NumberOrArrayOfNumberOrColorOrArrayOfColorOrProjection). Errors: ["@ + "Number: "@ + Number::rejection(v) + "; Ramp: "@ + NumberOrArrayOfNumberOrColorOrArrayOfColorOrProjection::rejection(v) + "]"@
    }

    fn decode(v: &JsonValue) -> (r: Result<Self, String>) {
        let e0 = match Number::decode(v) {
            Ok(x) => {
                return Ok(SymbolLayoutLayerTextSizeExpression::Number(x));
            },
            Err(e) => e,
        };
        let e1 = match NumberOrArrayOfNumberOrColorOrArrayOfColorOrProjection::decode(v) {
            Ok(x) => {
                return Ok(SymbolLayoutLayerTextSizeExpression::Ramp(x));
            },
            Err(e) => e,
        };
        let mut m = "SymbolLayoutLayerTextSizeExpression: no variant matched. Expected Number(Number) | Ramp(NumberOrArrayOfNumberOrColorOrArrayOfColorOrProjection). Errors: [".to_string();
        m.append("Number: ");
        m.append(e0.as_str());
        m.append("; Ramp: ");
        m.append(e1.as_str());
        m.append("]");
        Err(m)
    }
}

impl JsonEncode for SymbolLayoutLayerTextSizeExpression {
    open spec fn to_json(self) -> Json {
        match self {
            SymbolLayoutLayerTextSizeExpression::Number(t) => Number::to_json(t),
            SymbolLayoutLayerTextSizeExpression::Ramp(t) => NumberOrArrayOfNumberOrColorOrArrayOfColorOrProjection::to_json(t),
        }
    }

    open spec fn round_trips(self) -> bool {
        match self {
            SymbolLayoutLayerTextSizeExpression::Number(t) => Number::round_trips(t),
            SymbolLayoutLayerTextSizeExpression::Ramp(t) => NumberOrArrayOfNumberOrColorOrArrayOfColorOrProjection::round_trips(t) && !Number::accepts(NumberOrArrayOfNumberOrColorOrArrayOfColorOrProjection::to_json(t)),
        }
    }

    fn encode(&self) -> (r: JsonValue) {
        match self {
            SymbolLayoutLayerTextSizeExpression::Number(t) => Number::encode(t),
            SymbolLayoutLayerTextSizeExpression::Ramp(t) => NumberOrArrayOfNumberOrColorOrArrayOfColorOrProjection::encode(t),
        }
    }

    proof fn lemma_round_trip(self) {
        match self {
            SymbolLayoutLayerTextSizeExpression::Number(t) => Number::lemma_round_trip(t),
            SymbolLayoutLayerTextSizeExpression::Ramp(t) => NumberOrArrayOfNumberOrColorOrArrayOfColorOrProjection::lemma_round_trip(t),
        }
    }
}

/// Font size.
#[derive(PartialEq, Debug, Clone)]
pub enum SymbolLayoutLayerTextSize {
    Expr(Box<SymbolLayoutLayerTextSizeExpression>),
    Literal(JsonNumber),
}

impl JsonDecode for SymbolLayoutLayerTextSize {
    open spec fn accepts(v: Json) -> bool {
        SymbolLayoutLayerTextSizeExpression::accepts(v) || JsonNumber::accepts(v)
    }

    open spec fn decodes(v: Json, x: Self) -> bool {
        match x {
            SymbolLayoutLayerTextSize::Expr(t) => SymbolLayoutLayerTextSizeExpression::accepts(v) && SymbolLayoutLayerTextSizeExpression::decodes(v, *t),
            SymbolLayoutLayerTextSize::Literal(t) => !SymbolLayoutLayerTextSizeExpression::accepts(v) && JsonNumber::accepts(v) && JsonNumber::decodes(v, t),
        }
    }

    open spec fn rejection(v: Json) -> Seq<char> {
        "SymbolLayoutLayerTextSize: no variant matched. Expected Expr(SymbolLayoutLayerTextSizeExpression) | Literal(serde_json::Number). Errors: ["@ + "Expr: "@ + SymbolLayoutLayerTextSizeExpression::rejection(v) + "; Literal: "@ + JsonNumber::rejection(v) + "]"@
    }

    fn decode(v: &JsonValue) -> (r: Result<Self, String>) {
        let e0 = match SymbolLayoutLayerTextSizeExpression::decode(v) {
            Ok(x) => {
                return Ok(SymbolLayoutLayerTextSize::Expr(Box::new(x)));
            },
            Err(e) => e,
        };
        let e1 = match JsonNumber::decode(v) {
            Ok(x) => {
                return Ok(SymbolLayoutLayerTextSize::Literal(x));
            },
            Err(e) => e,
        };
        let mut m = "SymbolLayoutLayerTextSize: no variant matched. Expected Expr(SymbolLayoutLayerTextSizeExpression) | Literal(serde_json::Number). Errors: [".to_string();
        m.append("Expr: ");
        m.append(e0.as_str());
        m.append("; Literal: ");
        m.append(e1.as_str());
        m.append("]");
        Err(m)
    }
}

impl JsonEncode for SymbolLayoutLayerTextSize {
    open spec fn to_json(self) -> Json {
        match self {
            SymbolLayoutLayerTextSize::Expr(t) => SymbolLayoutLayerTextSizeExpression::to_json(*t),
            SymbolLayoutLayerTextSize::Literal(t) => JsonNumber::to_json(t),
        }
    }

    open spec fn round_trips(self) -> bool {
        match self {
            SymbolLayoutLayerTextSize::Expr(t) => SymbolLayoutLayerTextSizeExpression::round_trips(*t),
            SymbolLayoutLayerTextSize::Literal(t) => JsonNumber::round_trips(t) && !SymbolLayoutLayerTextSizeExpression::accepts(JsonNumber::to_json(t)),
        }
    }

    fn encode(&self) -> (r: JsonValue) {
        match self {
            SymbolLayoutLayerTextSize::Expr(t) => SymbolLayoutLayerTextSizeExpression::encode(&**t),
            SymbolLayoutLayerTextSize::Literal(t) => JsonNumber::encode(t),
        }
    }

    proof fn lemma_round_trip(self) {
        match self {
            SymbolLayoutLayerTextSize::Expr(t) => SymbolLayoutLayerTextSizeExpression::lemma_round_trip(*t),
            SymbolLayoutLayerTextSize::Literal(t) => JsonNumber::lemma_round_trip(t),
        }
    }
}

impl Default for SymbolLayoutLayerTextSize {
    fn default() -> (r: Self)
        ensures
            r.to_json() == Json::Number("16"@),
            r is Literal,
    {
        let r = SymbolLayoutLayerTextSize::Literal(JsonNumber::from_literal("16"));
        r
    }
}

/// Specifies how to capitalize text, similar to the CSS `text-transform` property.
#[derive(PartialEq, Eq, Debug, Clone, Copy)]
pub enum SymbolLayoutLayerTextTransform {
    Lowercase,
    NoneValue,
    Uppercase,
}

impl SymbolLayoutLayerTextTransform {
    /// The name that stands for the value in a style document.
    pub open spec fn spec_name(self) -> Seq<char> {
        match self {
            SymbolLayoutLayerTextTransform::Lowercase => "lowercase"@,
            SymbolLayoutLayerTextTransform::NoneValue => "none"@,
            SymbolLayoutLayerTextTransform::Uppercase => "uppercase"@,
        }
    }

    /// The name that stands for the value in a style document.
    pub fn name(&self) -> (r: &'static str)
        ensures
            r@ == self.spec_name(),
    {
        match self {
            SymbolLayoutLayerTextTransform::Lowercase => "lowercase",
            SymbolLayoutLayerTextTransform::NoneValue => "none",
            SymbolLayoutLayerTextTransform::Uppercase => "uppercase",
        }
    }

    /// The value that a name stands for, if any.
    pub fn from_name(s: &str) -> (r: Option<SymbolLayoutLayerTextTransform>)
        ensures
            r matches Some(x) ==> x.spec_name() == s@,
            r is None ==> forall|x: SymbolLayoutLayerTextTransform| x.spec_name() != s@,
    {
        if str_eq(s, "lowercase") {
            Some(SymbolLayoutLayerTextTransform::Lowercase)
        } else if str_eq(s, "none") {
            Some(SymbolLayoutLayerTextTransform::NoneValue)
        } else if str_eq(s, "uppercase") {
            Some(SymbolLayoutLayerTextTransform::Uppercase)
        } else {
            None
        }
    }
}

impl SymbolLayoutLayerTextTransform {
    /// Each value is read from, and written as, the name that the style specification gives
    /// it, and a document holding one of these names reads as that value and no other.
    pub proof fn lemma_read_by_name()
        ensures
            <SymbolLayoutLayerTextTransform as JsonEncode>::to_json(SymbolLayoutLayerTextTransform::Lowercase) == Json::Str("lowercase"@),
            <SymbolLayoutLayerTextTransform as JsonEncode>::to_json(SymbolLayoutLayerTextTransform::Uppercase) == Json::Str("uppercase"@),
            forall|x: SymbolLayoutLayerTextTransform| <SymbolLayoutLayerTextTransform as JsonDecode>::decodes(Json::Str("uppercase"@), x) <==> x == SymbolLayoutLayerTextTransform::Uppercase,
            forall|x: SymbolLayoutLayerTextTransform| <SymbolLayoutLayerTextTransform as JsonDecode>::decodes(Json::Str("none"@), x) <==> x == SymbolLayoutLayerTextTransform::NoneValue,
            <SymbolLayoutLayerTextTransform as JsonEncode>::to_json(SymbolLayoutLayerTextTransform::NoneValue) == Json::Str("none"@),
            forall|x: SymbolLayoutLayerTextTransform| <SymbolLayoutLayerTextTransform as JsonDecode>::decodes(Json::Str("lowercase"@), x) <==> x == SymbolLayoutLayerTextTransform::Lowercase,
    {
        reveal_strlit("uppercase");
        reveal_strlit("none");
        reveal_strlit("lowercase");
        assert("lowercase"@[0] != "uppercase"@[0]);
        assert("lowercase"@.len() != "none"@.len());
        assert("none"@.len() != "uppercase"@.len());
    }
}

impl JsonDecode for SymbolLayoutLayerTextTransform {
    /// The name of a value, or an object whose one entry has the name as its key and `null`.
    open spec fn accepts(v: Json) -> bool {
        ||| (v is Str && exists|x: SymbolLayoutLayerTextTransform| x.spec_name() == v->Str_0)
        ||| (v is Object && v->Object_0.len() == 1 && v->Object_0[0].1 is Null && exists|x: SymbolLayoutLayerTextTransform| x.spec_name() == v->Object_0[0].0)
    }

    open spec fn decodes(v: Json, x: Self) -> bool {
        ||| v == Json::Str(x.spec_name())
        ||| (v is Object && v->Object_0.len() == 1 && v->Object_0[0] == (x.spec_name(), Json::Null))
    }

    open spec fn rejection(v: Json) -> Seq<char> {
        if v is Str {
            unknown_variant(v->Str_0) + ", expected one of `lowercase`, `none`, `uppercase`"@
        } else if v is Object {
            let o = v->Object_0;
            if o.len() != 1 {
                "invalid value: map, expected map with a single key"@
            } else if !(exists|x: SymbolLayoutLayerTextTransform| x.spec_name() == o[0].0) {
                unknown_variant(o[0].0) + ", expected one of `lowercase`, `none`, `uppercase`"@
            } else {
                type_error(o[0].1, "unit"@)
            }
        } else {
            type_error(v, "string or map"@)
        }
    }

    fn decode(v: &JsonValue) -> (r: Result<Self, String>) {
        match v {
            JsonValue::String(s) => match Self::from_name(s.as_str()) {
                Some(x) => Ok(x),
                None => {
                    let mut m = make_unknown_variant(s.as_str());
                    m.append(", expected one of `lowercase`, `none`, `uppercase`");
                    Err(m)
                },
            },
            JsonValue::Object(fields) => {
                if fields.len() != 1 {
                    return Err("invalid value: map, expected map with a single key".to_string());
                }
                proof {
                    assert(entries_model(*fields)[0] == (fields@[0].0@, fields@[0].1.model()));
                }
                match Self::from_name(fields[0].0.as_str()) {
                    Some(x) => match &fields[0].1 {
                        JsonValue::Null => Ok(x),
                        _ => Err(make_type_error(&fields[0].1, "unit")),
                    },
                    None => {
                        let mut m = make_unknown_variant(fields[0].0.as_str());
                        m.append(", expected one of `lowercase`, `none`, `uppercase`");
                        Err(m)
                    },
                }
            },
            _ => Err(make_type_error(v, "string or map")),
        }
    }
}

impl JsonEncode for SymbolLayoutLayerTextTransform {
    open spec fn to_json(self) -> Json {
        Json::Str(self.spec_name())
    }

    open spec fn round_trips(self) -> bool {
        true
    }

    fn encode(&self) -> (r: JsonValue) {
        JsonValue::String(self.name().to_string())
    }

    proof fn lemma_round_trip(self) {
    }
}

impl Default for SymbolLayoutLayerTextTransform {
    fn default() -> (r: Self)
        ensures
            r == SymbolLayoutLayerTextTransform::NoneValue,
    {
        SymbolLayoutLayerTextTransform::NoneValue
    }
}

#[derive(PartialEq, Eq, Debug, Clone, Copy)]
pub enum SymbolLayoutLayerTextVariableAnchorValue {
    Bottom,
    BottomLeft,
    BottomRight,
    Center,
    Left,
    Right,
    Top,
    TopLeft,
    TopRight,
}

impl SymbolLayoutLayerTextVariableAnchorValue {
    /// The name that stands for the value in a style document.
    pub open spec fn spec_name(self) -> Seq<char> {
        match self {
            SymbolLayoutLayerTextVariableAnchorValue::Bottom => "bottom"@,
            SymbolLayoutLayerTextVariableAnchorValue::BottomLeft => "bottom-left"@,
            SymbolLayoutLayerTextVariableAnchorValue::BottomRight => "bottom-right"@,
            SymbolLayoutLayerTextVariableAnchorValue::Center => "center"@,
            SymbolLayoutLayerTextVariableAnchorValue::Left => "left"@,
            SymbolLayoutLayerTextVariableAnchorValue::Right => "right"@,
            SymbolLayoutLayerTextVariableAnchorValue::Top => "top"@,
            SymbolLayoutLayerTextVariableAnchorValue::TopLeft => "top-left"@,
            SymbolLayoutLayerTextVariableAnchorValue::TopRight => "top-right"@,
        }
    }

    /// The name that stands for the value in a style document.
    pub fn name(&self) -> (r: &'static str)
        ensures
            r@ == self.spec_name(),
    {
        match self {
            SymbolLayoutLayerTextVariableAnchorValue::Bottom => "bottom",
            SymbolLayoutLayerTextVariableAnchorValue::BottomLeft => "bottom-left",
            SymbolLayoutLayerTextVariableAnchorValue::BottomRight => "bottom-right",
            SymbolLayoutLayerTextVariableAnchorValue::Center => "center",
            SymbolLayoutLayerTextVariableAnchorValue::Left => "left",
            SymbolLayoutLayerTextVariableAnchorValue::Right => "right",
            SymbolLayoutLayerTextVariableAnchorValue::Top => "top",
            SymbolLayoutLayerTextVariableAnchorValue::TopLeft => "top-left",
            SymbolLayoutLayerTextVariableAnchorValue::TopRight => "top-right",
        }
    }

    /// The value that a name stands for, if any.
    pub fn from_name(s: &str) -> (r: Option<SymbolLayoutLayerTextVariableAnchorValue>)
        ensures
            r matches Some(x) ==> x.spec_name() == s@,
            r is None ==> forall|x: SymbolLayoutLayerTextVariableAnchorValue| x.spec_name() != s@,
    {
        if str_eq(s, "bottom") {
            Some(SymbolLayoutLayerTextVariableAnchorValue::Bottom)
        } else if str_eq(s, "bottom-left") {
            Some(SymbolLayoutLayerTextVariableAnchorValue::BottomLeft)
        } else if str_eq(s, "bottom-right") {
            Some(SymbolLayoutLayerTextVariableAnchorValue::BottomRight)
        } else if str_eq(s, "center") {
            Some(SymbolLayoutLayerTextVariableAnchorValue::Center)
        } else if str_eq(s, "left") {
            Some(SymbolLayoutLayerTextVariableAnchorValue::Left)
        } else if str_eq(s, "right") {
            Some(SymbolLayoutLayerTextVariableAnchorValue::Right)
        } else if str_eq(s, "top") {
            Some(SymbolLayoutLayerTextVariableAnchorValue::Top)
        } else if str_eq(s, "top-left") {
            Some(SymbolLayoutLayerTextVariableAnchorValue::TopLeft)
        } else if str_eq(s, "top-right") {
            Some(SymbolLayoutLayerTextVariableAnchorValue::TopRight)
        } else {
            None
        }
    }
}

impl SymbolLayoutLayerTextVariableAnchorValue {
    /// Each value is read from, and written as, the name that the style specification gives
    /// it, and a document holding one of these names reads as that value and no other.
    pub proof fn lemma_read_by_name()
        ensures
            forall|x: SymbolLayoutLayerTextVariableAnchorValue| <SymbolLayoutLayerTextVariableAnchorValue as JsonDecode>::decodes(Json::Str("left"@), x) <==> x == SymbolLayoutLayerTextVariableAnchorValue::Left,
            <SymbolLayoutLayerTextVariableAnchorValue as JsonEncode>::to_json(SymbolLayoutLayerTextVariableAnchorValue::Left) == Json::Str("left"@),
            <SymbolLayoutLayerTextVariableAnchorValue as JsonEncode>::to_json(SymbolLayoutLayerTextVariableAnchorValue::Bottom) == Json::Str("bottom"@),
            forall|x: SymbolLayoutLayerTextVariableAnchorValue| <SymbolLayoutLayerTextVariableAnchorValue as JsonDecode>::decodes(Json::Str("top-right"@), x) <==> x == SymbolLayoutLayerTextVariableAnchorValue::TopRight,
            forall|x: SymbolLayoutLayerTextVariableAnchorValue| <SymbolLayoutLayerTextVariableAnchorValue as JsonDecode>::decodes(Json::Str("bottom-left"@), x) <==> x == SymbolLayoutLayerTextVariableAnchorValue::BottomLeft,
            forall|x: SymbolLayoutLayerTextVariableAnchorValue| <SymbolLayoutLayerTextVariableAnchorValue as JsonDecode>::decodes(Json::Str("bottom"@), x) <==> x == SymbolLayoutLayerTextVariableAnchorValue::Bottom,
            <SymbolLayoutLayerTextVariableAnchorValue as JsonEncode>::to_json(SymbolLayoutLayerTextVariableAnchorValue::BottomRight) == Json::Str("bottom-right"@),
            <SymbolLayoutLayerTextVariableAnchorValue as JsonEncode>::to_json(SymbolLayoutLayerTextVariableAnchorValue::TopRight) == Json::Str("top-right"@),
            <SymbolLayoutLayerTextVariableAnchorValue as JsonEncode>::to_json(SymbolLayoutLayerTextVariableAnchorValue::BottomLeft) == Json::Str("bottom-left"@),
            <SymbolLayoutLayerTextVariableAnchorValue as JsonEncode>::to_json(SymbolLayoutLayerTextVariableAnchorValue::Center) == Json::Str("center"@),
            forall|x: SymbolLayoutLayerTextVariableAnchorValue| <SymbolLayoutLayerTextVariableAnchorValue as JsonDecode>::decodes(Json::Str("right"@), x) <==> x == SymbolLayoutLayerTextVariableAnchorValue::Right,
            forall|x: SymbolLayoutLayerTextVariableAnchorValue| <SymbolLayoutLayerTextVariableAnchorValue as JsonDecode>::decodes(Json::Str("top"@), x) <==> x == SymbolLayoutLayerTextVariableAnchorValue::Top,
            <SymbolLayoutLayerTextVariableAnchorValue as JsonEncode>::to_json(SymbolLayoutLayerTextVariableAnchorValue::TopLeft) == Json::Str("top-left"@),
            forall|x: SymbolLayoutLayerTextVariableAnchorValue| <SymbolLayoutLayerTextVariableAnchorValue as JsonDecode>::decodes(Json::Str("bottom-right"@), x) <==> x == SymbolLayoutLayerTextVariableAnchorValue::BottomRight,
            forall|x: SymbolLayoutLayerTextVariableAnchorValue| <SymbolLayoutLayerTextVariableAnchorValue as JsonDecode>::decodes(Json::Str("center"@), x) <==> x == SymbolLayoutLayerTextVariableAnchorValue::Center,
            <SymbolLayoutLayerTextVariableAnchorValue as JsonEncode>::to_json(SymbolLayoutLayerTextVariableAnchorValue::Top) == Json::Str("top"@),
            <SymbolLayoutLayerTextVariableAnchorValue as JsonEncode>::to_json(SymbolLayoutLayerTextVariableAnchorValue::Right) == Json::Str("right"@),
            forall|x: SymbolLayoutLayerTextVariableAnchorValue| <SymbolLayoutLayerTextVariableAnchorValue as JsonDecode>::decodes(Json::Str("top-left"@), x) <==> x == SymbolLayoutLayerTextVariableAnchorValue::TopLeft,
    {
        reveal_strlit("bottom-left");
        reveal_strlit("center");
        reveal_strlit("left");
        reveal_strlit("bottom-right");
        reveal_strlit("bottom");
        reveal_strlit("top-right");
        reveal_strlit("right");
        reveal_strlit("top");
        reveal_strlit("top-left");
        assert("top"@.len() != "top-left"@.len());
        assert("bottom-left"@.len() != "right"@.len());
        assert("bottom-left"@.len() != "top"@.len());
        assert("bottom-right"@.len() != "center"@.len());
        assert("right"@.len() != "top-left"@.len());
        assert("bottom-left"@.len() != "left"@.len());
        assert("bottom"@.len() != "bottom-right"@.len());
        assert("right"@.len() != "top-right"@.len());
        assert("center"@.len() != "top-left"@.len());
        assert("center"@.len() != "top-right"@.len());
        assert("bottom"@.len() != "bottom-left"@.len());
        assert("bottom-left"@.len() != "top-right"@.len());
        assert("bottom"@[0] != "center"@[0]);
        assert("bottom-right"@.len() != "right"@.len());
        assert("bottom"@.len() != "top"@.len());
        assert("right"@.len() != "top"@.len());
        assert("bottom"@.len() != "right"@.len());
        assert("left"@.len() != "top-right"@.len());
        assert("top-left"@.len() != "top-right"@.len());
        assert("bottom-right"@.len() != "top-left"@.len());
        assert("bottom-right"@.len() != "top"@.len());
        assert("center"@.len() != "right"@.len());
        assert("left"@.len() != "right"@.len());
        assert("left"@.len() != "top-left"@.len());
        assert("bottom-left"@.len() != "center"@.len());
        assert("bottom"@.len() != "left"@.len());
        assert("bottom-right"@.len() != "left"@.len());
        assert("bottom-right"@.len() != "top-right"@.len());
        assert("top"@.len() != "top-right"@.len());
        assert("bottom-left"@.len() != "top-left"@.len());
        assert("center"@.len() != "top"@.len());
        assert("bottom-left"@.len() != "bottom-right"@.len());
        assert("bottom"@.len() != "top-right"@.len());
        assert("bottom"@.len() != "top-left"@.len());
        assert("center"@.len() != "left"@.len());
        assert("left"@.len() != "top"@.len());
    }
}

impl JsonDecode for SymbolLayoutLayerTextVariableAnchorValue {
    /// The name of a value, or an object whose one entry has the name as its key and `null`.
    open spec fn accepts(v: Json) -> bool {
        ||| (v is Str && exists|x: SymbolLayoutLayerTextVariableAnchorValue| x.spec_name() == v->Str_0)
        ||| (v is Object && v->Object_0.len() == 1 && v->Object_0[0].1 is Null && exists|x: SymbolLayoutLayerTextVariableAnchorValue| x.spec_name() == v->Object_0[0].0)
    }

    open spec fn decodes(v: Json, x: Self) -> bool {
        ||| v == Json::Str(x.spec_name())
        ||| (v is Object && v->Object_0.len() == 1 && v->Object_0[0] == (x.spec_name(), Json::Null))
    }

    open spec fn rejection(v: Json) -> Seq<char> {
        if v is Str {
            unknown_variant(v->Str_0) + ", expected one of `bottom`, `bottom-left`, `bottom-right`, `center`, `left`, `right`, `top`, `top-left`, `top-right`"@
        } else if v is Object {
            let o = v->Object_0;
            if o.len() != 1 {
                "invalid value: map, expected map with a single key"@
            } else if !(exists|x: SymbolLayoutLayerTextVariableAnchorValue| x.spec_name() == o[0].0) {
                unknown_variant(o[0].0) + ", expected one of `bottom`, `bottom-left`, `bottom-right`, `center`, `left`, `right`, `top`, `top-left`, `top-right`"@
            } else {
                type_error(o[0].1, "unit"@)
            }
        } else {
            type_error(v, "string or map"@)
        }
    }

    fn decode(v: &JsonValue) -> (r: Result<Self, String>) {
        match v {
            JsonValue::String(s) => match Self::from_name(s.as_str()) {
                Some(x) => Ok(x),
                None => {
                    let mut m = make_unknown_variant(s.as_str());
                    m.append(", expected one of `bottom`, `bottom-left`, `bottom-right`, `center`, `left`, `right`, `top`, `top-left`, `top-right`");
                    Err(m)
                },
            },
            JsonValue::Object(fields) => {
                if fields.len() != 1 {
                    return Err("invalid value: map, expected map with a single key".to_string());
                }
                proof {
                    assert(entries_model(*fields)[0] == (fields@[0].0@, fields@[0].1.model()));
                }
                match Self::from_name(fields[0].0.as_str()) {
                    Some(x) => match &fields[0].1 {
                        JsonValue::Null => Ok(x),
                        _ => Err(make_type_error(&fields[0].1, "unit")),
                    },
                    None => {
                        let mut m = make_unknown_variant(fields[0].0.as_str());
                        m.append(", expected one of `bottom`, `bottom-left`, `bottom-right`, `center`, `left`, `right`, `top`, `top-left`, `top-right`");
                        Err(m)
                    },
                }
            },
            _ => Err(make_type_error(v, "string or map")),
        }
    }
}

impl JsonEncode for SymbolLayoutLayerTextVariableAnchorValue {
    open spec fn to_json(self) -> Json {
        Json::Str(self.spec_name())
    }

    open spec fn round_trips(self) -> bool {
        true
    }

    fn encode(&self) -> (r: JsonValue) {
        JsonValue::String(self.name().to_string())
    }

    proof fn lemma_round_trip(self) {
    }
}

/// To increase the chance of placing high-priority labels on the map, you can provide an array of `text-anchor` locations: the renderer will attempt to place the label at each location, in order, before moving onto the next label. Use `text-justify: auto` to choose justification based on anchor position. To apply an offset, use the `text-radial-offset` or the two-dimensional `text-offset`.
#[derive(PartialEq, Debug, Clone)]
pub struct SymbolLayoutLayerTextVariableAnchor(Vec<SymbolLayoutLayerTextVariableAnchorValue>);

impl JsonDecode for SymbolLayoutLayerTextVariableAnchor {
    closed spec fn accepts(v: Json) -> bool {
        <Vec<SymbolLayoutLayerTextVariableAnchorValue> as JsonDecode>::accepts(v)
    }

    closed spec fn decodes(v: Json, x: Self) -> bool {
        <Vec<SymbolLayoutLayerTextVariableAnchorValue> as JsonDecode>::decodes(v, x.0)
    }

    closed spec fn rejection(v: Json) -> Seq<char> {
        <Vec<SymbolLayoutLayerTextVariableAnchorValue> as JsonDecode>::rejection(v)
    }

    fn decode(v: &JsonValue) -> (r: Result<Self, String>) {
        match <Vec<SymbolLayoutLayerTextVariableAnchorValue> as JsonDecode>::decode(v) {
            Ok(x) => Ok(SymbolLayoutLayerTextVariableAnchor(x)),
            Err(e) => Err(e),
        }
    }
}

impl JsonEncode for SymbolLayoutLayerTextVariableAnchor {
    closed spec fn to_json(self) -> Json {
        <Vec<SymbolLayoutLayerTextVariableAnchorValue> as JsonEncode>::to_json(self.0)
    }

    closed spec fn round_trips(self) -> bool {
        <Vec<SymbolLayoutLayerTextVariableAnchorValue> as JsonEncode>::round_trips(self.0)
    }

    fn encode(&self) -> (r: JsonValue) {
        <Vec<SymbolLayoutLayerTextVariableAnchorValue> as JsonEncode>::encode(&self.0)
    }

    proof fn lemma_round_trip(self) {
        <Vec<SymbolLayoutLayerTextVariableAnchorValue> as JsonEncode>::lemma_round_trip(self.0);
    }
}

/// To increase the chance of placing high-priority labels on the map, you can provide an array of `text-anchor` locations, each paired with an offset value. The renderer will attempt to place the label at each location, in order, before moving on to the next location+offset. Use `text-justify: auto` to choose justification based on anchor position.
///
///  The length of the array must be even, and must alternate between enum and point entries. i.e., each anchor location must be accompanied by a point, and that point defines the offset when the corresponding anchor location is used. Positive offset values indicate right and down, while negative values indicate left and up. Anchor locations may repeat, allowing the renderer to try multiple offsets to try and place a label using the same anchor.
///
///  When present, this property takes precedence over `text-anchor`, `text-variable-anchor`, `text-offset`, and `text-radial-offset`.
///
///  ```json
///
///  { "text-variable-anchor-offset": ["top", [0, 4], "left", [3,0], "bottom", [1, 1]] }
///
///  ```
///
///  When the renderer chooses the `top` anchor, `[0, 4]` will be used for `text-offset`; the text will be shifted down by 4 ems.
///
///  When the renderer chooses the `left` anchor, `[3, 0]` will be used for `text-offset`; the text will be shifted right by 3 ems.
#[derive(PartialEq, Debug, Clone)]
pub struct SymbolLayoutLayerTextVariableAnchorOffset(JsonValue);

impl View for SymbolLayoutLayerTextVariableAnchorOffset {
    type V = Json;

    closed spec fn view(&self) -> Json {
        self.0.model()
    }
}

impl JsonDecode for SymbolLayoutLayerTextVariableAnchorOffset {
    open spec fn accepts(v: Json) -> bool {
        true
    }

    open spec fn decodes(v: Json, x: Self) -> bool {
        v == x@
    }

    open spec fn rejection(v: Json) -> Seq<char> {
        JsonValue::rejection(v)
    }

    fn decode(v: &JsonValue) -> (r: Result<Self, String>) {
        match JsonValue::decode(v) {
            Ok(x) => Ok(SymbolLayoutLayerTextVariableAnchorOffset(x)),
            Err(e) => Err(e),
        }
    }
}

impl JsonEncode for SymbolLayoutLayerTextVariableAnchorOffset {
    open spec fn to_json(self) -> Json {
        self@
    }

    open spec fn round_trips(self) -> bool {
        true
    }

    fn encode(&self) -> (r: JsonValue) {
        JsonValue::encode(&self.0)
    }

    proof fn lemma_round_trip(self) {
        JsonValue::lemma_round_trip(self.0);
    }
}

#[derive(PartialEq, Eq, Debug, Clone, Copy)]
pub enum SymbolLayoutLayerTextWritingModeValue {
    Horizontal,
    Vertical,
}

impl SymbolLayoutLayerTextWritingModeValue {
    /// The name that stands for the value in a style document.
    pub open spec fn spec_name(self) -> Seq<char> {
        match self {
            SymbolLayoutLayerTextWritingModeValue::Horizontal => "horizontal"@,
            SymbolLayoutLayerTextWritingModeValue::Vertical => "vertical"@,
        }
    }

    /// The name that stands for the value in a style document.
    pub fn name(&self) -> (r: &'static str)
        ensures
            r@ == self.spec_name(),
    {
        match self {
            SymbolLayoutLayerTextWritingModeValue::Horizontal => "horizontal",
            SymbolLayoutLayerTextWritingModeValue::Vertical => "vertical",
        }
    }

    /// The value that a name stands for, if any.
    pub fn from_name(s: &str) -> (r: Option<SymbolLayoutLayerTextWritingModeValue>)
        ensures
            r matches Some(x) ==> x.spec_name() == s@,
            r is None ==> forall|x: SymbolLayoutLayerTextWritingModeValue| x.spec_name() != s@,
    {
        if str_eq(s, "horizontal") {
            Some(SymbolLayoutLayerTextWritingModeValue::Horizontal)
        } else if str_eq(s, "vertical") {
            Some(SymbolLayoutLayerTextWritingModeValue::Vertical)
        } else {
            None
        }
    }
}

impl SymbolLayoutLayerTextWritingModeValue {
    /// Each value is read from, and written as, the name that the style specification gives
    /// it, and a document holding one of these names reads as that value and no other.
    pub proof fn lemma_read_by_name()
        ensures
            forall|x: SymbolLayoutLayerTextWritingModeValue| <SymbolLayoutLayerTextWritingModeValue as JsonDecode>::decodes(Json::Str("horizontal"@), x) <==> x == SymbolLayoutLayerTextWritingModeValue::Horizontal,
            <SymbolLayoutLayerTextWritingModeValue as JsonEncode>::to_json(SymbolLayoutLayerTextWritingModeValue::Vertical) == Json::Str("vertical"@),
            <SymbolLayoutLayerTextWritingModeValue as JsonEncode>::to_json(SymbolLayoutLayerTextWritingModeValue::Horizontal) == Json::Str("horizontal"@),
            forall|x: SymbolLayoutLayerTextWritingModeValue| <SymbolLayoutLayerTextWritingModeValue as JsonDecode>::decodes(Json::Str("vertical"@), x) <==> x == SymbolLayoutLayerTextWritingModeValue::Vertical,
    {
        reveal_strlit("vertical");
        reveal_strlit("horizontal");
        assert("horizontal"@.len() != "vertical"@.len());
    }
}

impl JsonDecode for SymbolLayoutLayerTextWritingModeValue {
    /// The name of a value, or an object whose one entry has the name as its key and `null`.
    open spec fn accepts(v: Json) -> bool {
        ||| (v is Str && exists|x: SymbolLayoutLayerTextWritingModeValue| x.spec_name() == v->Str_0)
        ||| (v is Object && v->Object_0.len() == 1 && v->Object_0[0].1 is Null && exists|x: SymbolLayoutLayerTextWritingModeValue| x.spec_name() == v->Object_0[0].0)
    }

    open spec fn decodes(v: Json, x: Self) -> bool {
        ||| v == Json::Str(x.spec_name())
        ||| (v is Object && v->Object_0.len() == 1 && v->Object_0[0] == (x.spec_name(), Json::Null))
    }

    open spec fn rejection(v: Json) -> Seq<char> {
        if v is Str {
            unknown_variant(v->Str_0) + ", expected `horizontal` or `vertical`"@
        } else if v is Object {
            let o = v->Object_0;
            if o.len() != 1 {
                "invalid value: map, expected map with a single key"@
            } else if !(exists|x: SymbolLayoutLayerTextWritingModeValue| x.spec_name() == o[0].0) {
                unknown_variant(o[0].0) + ", expected `horizontal` or `vertical`"@
            } else {
                type_error(o[0].1, "unit"@)
            }
        } else {
            type_error(v, "string or map"@)
        }
    }

    fn decode(v: &JsonValue) -> (r: Result<Self, String>) {
        match v {
            JsonValue::String(s) => match Self::from_name(s.as_str()) {
                Some(x) => Ok(x),
                None => {
                    let mut m = make_unknown_variant(s.as_str());
                    m.append(", expected `horizontal` or `vertical`");
                    Err(m)
                },
            },
            JsonValue::Object(fields) => {
                if fields.len() != 1 {
                    return Err("invalid value: map, expected map with a single key".to_string());
                }
                proof {
                    assert(entries_model(*fields)[0] == (fields@[0].0@, fields@[0].1.model()));
                }
                match Self::from_name(fields[0].0.as_str()) {
                    Some(x) => match &fields[0].1 {
                        JsonValue::Null => Ok(x),
                        _ => Err(make_type_error(&fields[0].1, "unit")),
                    },
                    None => {
                        let mut m = make_unknown_variant(fields[0].0.as_str());
                        m.append(", expected `horizontal` or `vertical`");
                        Err(m)
                    },
                }
            },
            _ => Err(make_type_error(v, "string or map")),
        }
    }
}

impl JsonEncode for SymbolLayoutLayerTextWritingModeValue {
    open spec fn to_json(self) -> Json {
        Json::Str(self.spec_name())
    }

    open spec fn round_trips(self) -> bool {
        true
    }

    fn encode(&self) -> (r: JsonValue) {
        JsonValue::String(self.name().to_string())
    }

    proof fn lemma_round_trip(self) {
    }
}

/// The property allows control over a symbol's orientation. Note that the property values act as a hint, so that a symbol whose language doesn’t support the provided orientation will be laid out in its natural orientation. Example: English point symbol will be rendered horizontally even if array value contains single 'vertical' enum value. The order of elements in an array define priority order for the placement of an orientation variant.
#[derive(PartialEq, Debug, Clone)]
pub struct SymbolLayoutLayerTextWritingMode(Vec<SymbolLayoutLayerTextWritingModeValue>);

impl JsonDecode for SymbolLayoutLayerTextWritingMode {
    closed spec fn accepts(v: Json) -> bool {
        <Vec<SymbolLayoutLayerTextWritingModeValue> as JsonDecode>::accepts(v)
    }

    closed spec fn decodes(v: Json, x: Self) -> bool {
        <Vec<SymbolLayoutLayerTextWritingModeValue> as JsonDecode>::decodes(v, x.0)
    }

    closed spec fn rejection(v: Json) -> Seq<char> {
        <Vec<SymbolLayoutLayerTextWritingModeValue> as JsonDecode>::rejection(v)
    }

    fn decode(v: &JsonValue) -> (r: Result<Self, String>) {
        match <Vec<SymbolLayoutLayerTextWritingModeValue> as JsonDecode>::decode(v) {
            Ok(x) => Ok(SymbolLayoutLayerTextWritingMode(x)),
            Err(e) => Err(e),
        }
    }
}

impl JsonEncode for SymbolLayoutLayerTextWritingMode {
    closed spec fn to_json(self) -> Json {
        <Vec<SymbolLayoutLayerTextWritingModeValue> as JsonEncode>::to_json(self.0)
    }

    closed spec fn round_trips(self) -> bool {
        <Vec<SymbolLayoutLayerTextWritingModeValue> as JsonEncode>::round_trips(self.0)
    }

    fn encode(&self) -> (r: JsonValue) {
        <Vec<SymbolLayoutLayerTextWritingModeValue> as JsonEncode>::encode(&self.0)
    }

    proof fn lemma_round_trip(self) {
        <Vec<SymbolLayoutLayerTextWritingModeValue> as JsonEncode>::lemma_round_trip(self.0);
    }
}

/// Whether this layer is displayed.
#[derive(PartialEq, Eq, Debug, Clone, Copy)]
pub enum SymbolLayoutLayerVisibility {
    NoneValue,
    Visible,
}

impl SymbolLayoutLayerVisibility {
    /// The name that stands for the value in a style document.
    pub open spec fn spec_name(self) -> Seq<char> {
        match self {
            SymbolLayoutLayerVisibility::NoneValue => "none"@,
            SymbolLayoutLayerVisibility::Visible => "visible"@,
        }
    }

    /// The name that stands for the value in a style document.
    pub fn name(&self) -> (r: &'static str)
        ensures
            r@ == self.spec_name(),
    {
        match self {
            SymbolLayoutLayerVisibility::NoneValue => "none",
            SymbolLayoutLayerVisibility::Visible => "visible",
        }
    }

    /// The value that a name stands for, if any.
    pub fn from_name(s: &str) -> (r: Option<SymbolLayoutLayerVisibility>)
        ensures
            r matches Some(x) ==> x.spec_name() == s@,
            r is None ==> forall|x: SymbolLayoutLayerVisibility| x.spec_name() != s@,
    {
        if str_eq(s, "none") {
            Some(SymbolLayoutLayerVisibility::NoneValue)
        } else if str_eq(s, "visible") {
            Some(SymbolLayoutLayerVisibility::Visible)
        } else {
            None
        }
    }
}

impl SymbolLayoutLayerVisibility {
    /// Each value is read from, and written as, the name that the style specification gives
    /// it, and a document holding one of these names reads as that value and no other.
    pub proof fn lemma_read_by_name()
        ensures
            <SymbolLayoutLayerVisibility as JsonEncode>::to_json(SymbolLayoutLayerVisibility::Visible) == Json::Str("visible"@),
            forall|x: SymbolLayoutLayerVisibility| <SymbolLayoutLayerVisibility as JsonDecode>::decodes(Json::Str("visible"@), x) <==> x == SymbolLayoutLayerVisibility::Visible,
            <SymbolLayoutLayerVisibility as JsonEncode>::to_json(SymbolLayoutLayerVisibility::NoneValue) == Json::Str("none"@),
            forall|x: SymbolLayoutLayerVisibility| <SymbolLayoutLayerVisibility as JsonDecode>::decodes(Json::Str("none"@), x) <==> x == SymbolLayoutLayerVisibility::NoneValue,
    {
        reveal_strlit("visible");
        reveal_strlit("none");
        assert("none"@.len() != "visible"@.len());
    }
}

impl JsonDecode for SymbolLayoutLayerVisibility {
    /// The name of a value, or an object whose one entry has the name as its key and `null`.
    open spec fn accepts(v: Json) -> bool {
        ||| (v is Str && exists|x: SymbolLayoutLayerVisibility| x.spec_name() == v->Str_0)
        ||| (v is Object && v->Object_0.len() == 1 && v->Object_0[0].1 is Null && exists|x: SymbolLayoutLayerVisibility| x.spec_name() == v->Object_0[0].0)
    }

    open spec fn decodes(v: Json, x: Self) -> bool {
        ||| v == Json::Str(x.spec_name())
        ||| (v is Object && v->Object_0.len() == 1 && v->Object_0[0] == (x.spec_name(), Json::Null))
    }

    open spec fn rejection(v: Json) -> Seq<char> {
        if v is Str {
            unknown_variant(v->Str_0) + ", expected `none` or `visible`"@
        } else if v is Object {
            let o = v->Object_0;
            if o.len() != 1 {
                "invalid value: map, expected map with a single key"@
            } else if !(exists|x: SymbolLayoutLayerVisibility| x.spec_name() == o[0].0) {
                unknown_variant(o[0].0) + ", expected `none` or `visible`"@
            } else {
                type_error(o[0].1, "unit"@)
            }
        } else {
            type_error(v, "string or map"@)
        }
    }

    fn decode(v: &JsonValue) -> (r: Result<Self, String>) {
        match v {
            JsonValue::String(s) => match Self::from_name(s.as_str()) {
                Some(x) => Ok(x),
                None => {
                    let mut m = make_unknown_variant(s.as_str());
                    m.append(", expected `none` or `visible`");
                    Err(m)
                },
            },
            JsonValue::Object(fields) => {
                if fields.len() != 1 {
                    return Err("invalid value: map, expected map with a single key".to_string());
                }
                proof {
                    assert(entries_model(*fields)[0] == (fields@[0].0@, fields@[0].1.model()));
                }
                match Self::from_name(fields[0].0.as_str()) {
                    Some(x) => match &fields[0].1 {
                        JsonValue::Null => Ok(x),
                        _ => Err(make_type_error(&fields[0].1, "unit")),
                    },
                    None => {
                        let mut m = make_unknown_variant(fields[0].0.as_str());
                        m.append(", expected `none` or `visible`");
                        Err(m)
                    },
                }
            },
            _ => Err(make_type_error(v, "string or map")),
        }
    }
}

impl JsonEncode for SymbolLayoutLayerVisibility {
    open spec fn to_json(self) -> Json {
        Json::Str(self.spec_name())
    }

    open spec fn round_trips(self) -> bool {
        true
    }

    fn encode(&self) -> (r: JsonValue) {
        JsonValue::String(self.name().to_string())
    }

    proof fn lemma_round_trip(self) {
    }
}

impl Default for SymbolLayoutLayerVisibility {
    fn default() -> (r: Self)
        ensures
            r == SymbolLayoutLayerVisibility::Visible,
    {
        SymbolLayoutLayerVisibility::Visible
    }
}

#[derive(PartialEq, Debug, Clone)]
pub struct SymbolPaintLayer {
    /// The color of the icon. This can only be used with SDF icons.
    pub icon_color: Option<SymbolPaintLayerIconColor>,
    /// Fade out the halo towards the outside.
    pub icon_halo_blur: Option<SymbolPaintLayerIconHaloBlur>,
    /// The color of the icon's halo. Icon halos can only be used with SDF icons.
    pub icon_halo_color: Option<SymbolPaintLayerIconHaloColor>,
    /// Distance of halo to the icon outline.
    ///
    /// The unit is in pixels only for SDF sprites that were created with a blur radius of 8, multiplied by the display density. I.e., the radius needs to be 16 for `@2x` sprites, etc.
    pub icon_halo_width: Option<SymbolPaintLayerIconHaloWidth>,
    /// The opacity at which the icon will be drawn.
    pub icon_opacity: Option<SymbolPaintLayerIconOpacity>,
    /// Distance that the icon's anchor is moved from its original placement. Positive values indicate right and down, while negative values indicate left and up.
    pub icon_translate: Option<SymbolPaintLayerIconTranslate>,
    /// Controls the frame of reference for `icon-translate`.
    pub icon_translate_anchor: Option<SymbolPaintLayerIconTranslateAnchor>,
    /// The color with which the text will be drawn.
    pub text_color: Option<SymbolPaintLayerTextColor>,
    /// The halo's fadeout distance towards the outside.
    pub text_halo_blur: Option<SymbolPaintLayerTextHaloBlur>,
    /// The color of the text's halo, which helps it stand out from backgrounds.
    pub text_halo_color: Option<SymbolPaintLayerTextHaloColor>,
    /// Distance of halo to the font outline. Max text halo width is 1/4 of the font-size.
    pub text_halo_width: Option<SymbolPaintLayerTextHaloWidth>,
    /// The opacity at which the text will be drawn.
    pub text_opacity: Option<SymbolPaintLayerTextOpacity>,
    /// Distance that the text's anchor is moved from its original placement. Positive values indicate right and down, while negative values indicate left and up.
    pub text_translate: Option<SymbolPaintLayerTextTranslate>,
    /// Controls the frame of reference for `text-translate`.
    pub text_translate_anchor: Option<SymbolPaintLayerTextTranslateAnchor>,
}

impl JsonDecode for SymbolPaintLayer {
    /// An object with the fields by their keys, or an array with the fields in order.
    open spec fn accepts(v: Json) -> bool {
        ||| (v is Object && {
            let o = v->Object_0;
            &&& opt_field_accepts::<SymbolPaintLayerIconColor>(o, "icon-color"@)
            &&& opt_field_accepts::<SymbolPaintLayerIconHaloBlur>(o, "icon-halo-blur"@)
            &&& opt_field_accepts::<SymbolPaintLayerIconHaloColor>(o, "icon-halo-color"@)
            &&& opt_field_accepts::<SymbolPaintLayerIconHaloWidth>(o, "icon-halo-width"@)
            &&& opt_field_accepts::<SymbolPaintLayerIconOpacity>(o, "icon-opacity"@)
            &&& opt_field_accepts::<SymbolPaintLayerIconTranslate>(o, "icon-translate"@)
            &&& opt_field_accepts::<SymbolPaintLayerIconTranslateAnchor>(o, "icon-translate-anchor"@)
            &&& opt_field_accepts::<SymbolPaintLayerTextColor>(o, "text-color"@)
            &&& opt_field_accepts::<SymbolPaintLayerTextHaloBlur>(o, "text-halo-blur"@)
            &&& opt_field_accepts::<SymbolPaintLayerTextHaloColor>(o, "text-halo-color"@)
            &&& opt_field_accepts::<SymbolPaintLayerTextHaloWidth>(o, "text-halo-width"@)
            &&& opt_field_accepts::<SymbolPaintLayerTextOpacity>(o, "text-opacity"@)
            &&& opt_field_accepts::<SymbolPaintLayerTextTranslate>(o, "text-translate"@)
            &&& opt_field_accepts::<SymbolPaintLayerTextTranslateAnchor>(o, "text-translate-anchor"@)
        })
        ||| (v is Array && {
            let a = v->Array_0;
            &&& seq_opt_accepts::<SymbolPaintLayerIconColor>(a, 0, true)
            &&& seq_opt_accepts::<SymbolPaintLayerIconHaloBlur>(a, 1, true)
            &&& seq_opt_accepts::<SymbolPaintLayerIconHaloColor>(a, 2, true)
            &&& seq_opt_accepts::<SymbolPaintLayerIconHaloWidth>(a, 3, true)
            &&& seq_opt_accepts::<SymbolPaintLayerIconOpacity>(a, 4, true)
            &&& seq_opt_accepts::<SymbolPaintLayerIconTranslate>(a, 5, true)
            &&& seq_opt_accepts::<SymbolPaintLayerIconTranslateAnchor>(a, 6, true)
            &&& seq_opt_accepts::<SymbolPaintLayerTextColor>(a, 7, true)
            &&& seq_opt_accepts::<SymbolPaintLayerTextHaloBlur>(a, 8, true)
            &&& seq_opt_accepts::<SymbolPaintLayerTextHaloColor>(a, 9, true)
            &&& seq_opt_accepts::<SymbolPaintLayerTextHaloWidth>(a, 10, true)
            &&& seq_opt_accepts::<SymbolPaintLayerTextOpacity>(a, 11, true)
            &&& seq_opt_accepts::<SymbolPaintLayerTextTranslate>(a, 12, true)
            &&& seq_opt_accepts::<SymbolPaintLayerTextTranslateAnchor>(a, 13, true)
            &&& a.len() <= 14
        })
    }

    open spec fn decodes(v: Json, x: Self) -> bool {
        ||| (v is Object && {
            let o = v->Object_0;
            &&& opt_field_decodes::<SymbolPaintLayerIconColor>(o, "icon-color"@, x.icon_color)
            &&& opt_field_decodes::<SymbolPaintLayerIconHaloBlur>(o, "icon-halo-blur"@, x.icon_halo_blur)
            &&& opt_field_decodes::<SymbolPaintLayerIconHaloColor>(o, "icon-halo-color"@, x.icon_halo_color)
            &&& opt_field_decodes::<SymbolPaintLayerIconHaloWidth>(o, "icon-halo-width"@, x.icon_halo_width)
            &&& opt_field_decodes::<SymbolPaintLayerIconOpacity>(o, "icon-opacity"@, x.icon_opacity)
            &&& opt_field_decodes::<SymbolPaintLayerIconTranslate>(o, "icon-translate"@, x.icon_translate)
            &&& opt_field_decodes::<SymbolPaintLayerIconTranslateAnchor>(o, "icon-translate-anchor"@, x.icon_translate_anchor)
            &&& opt_field_decodes::<SymbolPaintLayerTextColor>(o, "text-color"@, x.text_color)
            &&& opt_field_decodes::<SymbolPaintLayerTextHaloBlur>(o, "text-halo-blur"@, x.text_halo_blur)
            &&& opt_field_decodes::<SymbolPaintLayerTextHaloColor>(o, "text-halo-color"@, x.text_halo_color)
            &&& opt_field_decodes::<SymbolPaintLayerTextHaloWidth>(o, "text-halo-width"@, x.text_halo_width)
            &&& opt_field_decodes::<SymbolPaintLayerTextOpacity>(o, "text-opacity"@, x.text_opacity)
            &&& opt_field_decodes::<SymbolPaintLayerTextTranslate>(o, "text-translate"@, x.text_translate)
            &&& opt_field_decodes::<SymbolPaintLayerTextTranslateAnchor>(o, "text-translate-anchor"@, x.text_translate_anchor)
        })
        ||| (v is Array && {
            let a = v->Array_0;
            &&& seq_opt_decodes::<SymbolPaintLayerIconColor>(a, 0, x.icon_color)
            &&& seq_opt_decodes::<SymbolPaintLayerIconHaloBlur>(a, 1, x.icon_halo_blur)
            &&& seq_opt_decodes::<SymbolPaintLayerIconHaloColor>(a, 2, x.icon_halo_color)
            &&& seq_opt_decodes::<SymbolPaintLayerIconHaloWidth>(a, 3, x.icon_halo_width)
            &&& seq_opt_decodes::<SymbolPaintLayerIconOpacity>(a, 4, x.icon_opacity)
            &&& seq_opt_decodes::<SymbolPaintLayerIconTranslate>(a, 5, x.icon_translate)
            &&& seq_opt_decodes::<SymbolPaintLayerIconTranslateAnchor>(a, 6, x.icon_translate_anchor)
            &&& seq_opt_decodes::<SymbolPaintLayerTextColor>(a, 7, x.text_color)
            &&& seq_opt_decodes::<SymbolPaintLayerTextHaloBlur>(a, 8, x.text_halo_blur)
            &&& seq_opt_decodes::<SymbolPaintLayerTextHaloColor>(a, 9, x.text_halo_color)
            &&& seq_opt_decodes::<SymbolPaintLayerTextHaloWidth>(a, 10, x.text_halo_width)
            &&& seq_opt_decodes::<SymbolPaintLayerTextOpacity>(a, 11, x.text_opacity)
            &&& seq_opt_decodes::<SymbolPaintLayerTextTranslate>(a, 12, x.text_translate)
            &&& seq_opt_decodes::<SymbolPaintLayerTextTranslateAnchor>(a, 13, x.text_translate_anchor)
        })
    }

    /// For an object, the first entry in order whose value does not read as its field, else the
    /// first required field that is missing.
    open spec fn rejection(v: Json) -> Seq<char> {
        if v is Object {
            let o = v->Object_0;
            match Self::first_fault(o, 0) {
                Some(m) => m,
                None => {
                    Seq::empty()
                },
            }
        } else if v is Array {
            let a = v->Array_0;
            if !seq_opt_accepts::<SymbolPaintLayerIconColor>(a, 0, true) {
                seq_opt_rejection::<SymbolPaintLayerIconColor>(a, 0, "struct SymbolPaintLayer with 14 elements"@)
            } else if !seq_opt_accepts::<SymbolPaintLayerIconHaloBlur>(a, 1, true) {
                seq_opt_rejection::<SymbolPaintLayerIconHaloBlur>(a, 1, "struct SymbolPaintLayer with 14 elements"@)
            } else if !seq_opt_accepts::<SymbolPaintLayerIconHaloColor>(a, 2, true) {
                seq_opt_rejection::<SymbolPaintLayerIconHaloColor>(a, 2, "struct SymbolPaintLayer with 14 elements"@)
            } else if !seq_opt_accepts::<SymbolPaintLayerIconHaloWidth>(a, 3, true) {
                seq_opt_rejection::<SymbolPaintLayerIconHaloWidth>(a, 3, "struct SymbolPaintLayer with 14 elements"@)
            } else if !seq_opt_accepts::<SymbolPaintLayerIconOpacity>(a, 4, true) {
                seq_opt_rejection::<SymbolPaintLayerIconOpacity>(a, 4, "struct SymbolPaintLayer with 14 elements"@)
            } else if !seq_opt_accepts::<SymbolPaintLayerIconTranslate>(a, 5, true) {
                seq_opt_rejection::<SymbolPaintLayerIconTranslate>(a, 5, "struct SymbolPaintLayer with 14 elements"@)
            } else if !seq_opt_accepts::<SymbolPaintLayerIconTranslateAnchor>(a, 6, true) {
                seq_opt_rejection::<SymbolPaintLayerIconTranslateAnchor>(a, 6, "struct SymbolPaintLayer with 14 elements"@)
            } else if !seq_opt_accepts::<SymbolPaintLayerTextColor>(a, 7, true) {
                seq_opt_rejection::<SymbolPaintLayerTextColor>(a, 7, "struct SymbolPaintLayer with 14 elements"@)
            } else if !seq_opt_accepts::<SymbolPaintLayerTextHaloBlur>(a, 8, true) {
                seq_opt_rejection::<SymbolPaintLayerTextHaloBlur>(a, 8, "struct SymbolPaintLayer with 14 elements"@)
            } else if !seq_opt_accepts::<SymbolPaintLayerTextHaloColor>(a, 9, true) {
                seq_opt_rejection::<SymbolPaintLayerTextHaloColor>(a, 9, "struct SymbolPaintLayer with 14 elements"@)
            } else if !seq_opt_accepts::<SymbolPaintLayerTextHaloWidth>(a, 10, true) {
                seq_opt_rejection::<SymbolPaintLayerTextHaloWidth>(a, 10, "struct SymbolPaintLayer with 14 elements"@)
            } else if !seq_opt_accepts::<SymbolPaintLayerTextOpacity>(a, 11, true) {
                seq_opt_rejection::<SymbolPaintLayerTextOpacity>(a, 11, "struct SymbolPaintLayer with 14 elements"@)
            } else if !seq_opt_accepts::<SymbolPaintLayerTextTranslate>(a, 12, true) {
                seq_opt_rejection::<SymbolPaintLayerTextTranslate>(a, 12, "struct SymbolPaintLayer with 14 elements"@)
            } else if !seq_opt_accepts::<SymbolPaintLayerTextTranslateAnchor>(a, 13, true) {
                seq_opt_rejection::<SymbolPaintLayerTextTranslateAnchor>(a, 13, "struct SymbolPaintLayer with 14 elements"@)
            } else if a.len() > 14 {
                length_error(a.len())
            } else {
                Seq::empty()
            }
        } else {
            type_error(v, "struct SymbolPaintLayer"@)
        }
    }

    fn decode(v: &JsonValue) -> (r: Result<Self, String>) {
        match v {
            JsonValue::Object(fields) => {
                let icon_color = match decode_opt_field::<SymbolPaintLayerIconColor>(fields, "icon-color") {
                    Ok(x) => x,
                    Err(_) => return Err(Self::object_rejection(fields)),
                };
                let icon_halo_blur = match decode_opt_field::<SymbolPaintLayerIconHaloBlur>(fields, "icon-halo-blur") {
                    Ok(x) => x,
                    Err(_) => return Err(Self::object_rejection(fields)),
                };
                let icon_halo_color = match decode_opt_field::<SymbolPaintLayerIconHaloColor>(fields, "icon-halo-color") {
                    Ok(x) => x,
                    Err(_) => return Err(Self::object_rejection(fields)),
                };
                let icon_halo_width = match decode_opt_field::<SymbolPaintLayerIconHaloWidth>(fields, "icon-halo-width") {
                    Ok(x) => x,
                    Err(_) => return Err(Self::object_rejection(fields)),
                };
                let icon_opacity = match decode_opt_field::<SymbolPaintLayerIconOpacity>(fields, "icon-opacity") {
                    Ok(x) => x,
                    Err(_) => return Err(Self::object_rejection(fields)),
                };
                let icon_translate = match decode_opt_field::<SymbolPaintLayerIconTranslate>(fields, "icon-translate") {
                    Ok(x) => x,
                    Err(_) => return Err(Self::object_rejection(fields)),
                };
                let icon_translate_anchor = match decode_opt_field::<SymbolPaintLayerIconTranslateAnchor>(fields, "icon-translate-anchor") {
                    Ok(x) => x,
                    Err(_) => return Err(Self::object_rejection(fields)),
                };
                let text_color = match decode_opt_field::<SymbolPaintLayerTextColor>(fields, "text-color") {
                    Ok(x) => x,
                    Err(_) => return Err(Self::object_rejection(fields)),
                };
                let text_halo_blur = match decode_opt_field::<SymbolPaintLayerTextHaloBlur>(fields, "text-halo-blur") {
                    Ok(x) => x,
                    Err(_) => return Err(Self::object_rejection(fields)),
                };
                let text_halo_color = match decode_opt_field::<SymbolPaintLayerTextHaloColor>(fields, "text-halo-color") {
                    Ok(x) => x,
                    Err(_) => return Err(Self::object_rejection(fields)),
                };
                let text_halo_width = match decode_opt_field::<SymbolPaintLayerTextHaloWidth>(fields, "text-halo-width") {
                    Ok(x) => x,
                    Err(_) => return Err(Self::object_rejection(fields)),
                };
                let text_opacity = match decode_opt_field::<SymbolPaintLayerTextOpacity>(fields, "text-opacity") {
                    Ok(x) => x,
                    Err(_) => return Err(Self::object_rejection(fields)),
                };
                let text_translate = match decode_opt_field::<SymbolPaintLayerTextTranslate>(fields, "text-translate") {
                    Ok(x) => x,
                    Err(_) => return Err(Self::object_rejection(fields)),
                };
                let text_translate_anchor = match decode_opt_field::<SymbolPaintLayerTextTranslateAnchor>(fields, "text-translate-anchor") {
                    Ok(x) => x,
                    Err(_) => return Err(Self::object_rejection(fields)),
                };
                Ok(SymbolPaintLayer { icon_color, icon_halo_blur, icon_halo_color, icon_halo_width, icon_opacity, icon_translate, icon_translate_anchor, text_color, text_halo_blur, text_halo_color, text_halo_width, text_opacity, text_translate, text_translate_anchor })
            },
            JsonValue::Array(a) => {
                let icon_color = match decode_seq_opt::<SymbolPaintLayerIconColor>(a, 0, true, "struct SymbolPaintLayer with 14 elements") {
                    Ok(x) => x,
                    Err(e) => return Err(e),
                };
                let icon_halo_blur = match decode_seq_opt::<SymbolPaintLayerIconHaloBlur>(a, 1, true, "struct SymbolPaintLayer with 14 elements") {
                    Ok(x) => x,
                    Err(e) => return Err(e),
                };
                let icon_halo_color = match decode_seq_opt::<SymbolPaintLayerIconHaloColor>(a, 2, true, "struct SymbolPaintLayer with 14 elements") {
                    Ok(x) => x,
                    Err(e) => return Err(e),
                };
                let icon_halo_width = match decode_seq_opt::<SymbolPaintLayerIconHaloWidth>(a, 3, true, "struct SymbolPaintLayer with 14 elements") {
                    Ok(x) => x,
                    Err(e) => return Err(e),
                };
                let icon_opacity = match decode_seq_opt::<SymbolPaintLayerIconOpacity>(a, 4, true, "struct SymbolPaintLayer with 14 elements") {
                    Ok(x) => x,
                    Err(e) => return Err(e),
                };
                let icon_translate = match decode_seq_opt::<SymbolPaintLayerIconTranslate>(a, 5, true, "struct SymbolPaintLayer with 14 elements") {
                    Ok(x) => x,
                    Err(e) => return Err(e),
                };
                let icon_translate_anchor = match decode_seq_opt::<SymbolPaintLayerIconTranslateAnchor>(a, 6, true, "struct SymbolPaintLayer with 14 elements") {
                    Ok(x) => x,
                    Err(e) => return Err(e),
                };
                let text_color = match decode_seq_opt::<SymbolPaintLayerTextColor>(a, 7, true, "struct SymbolPaintLayer with 14 elements") {
                    Ok(x) => x,
                    Err(e) => return Err(e),
                };
                let text_halo_blur = match decode_seq_opt::<SymbolPaintLayerTextHaloBlur>(a, 8, true, "struct SymbolPaintLayer with 14 elements") {
                    Ok(x) => x,
                    Err(e) => return Err(e),
                };
                let text_halo_color = match decode_seq_opt::<SymbolPaintLayerTextHaloColor>(a, 9, true, "struct SymbolPaintLayer with 14 elements") {
                    Ok(x) => x,
                    Err(e) => return Err(e),
                };
                let text_halo_width = match decode_seq_opt::<SymbolPaintLayerTextHaloWidth>(a, 10, true, "struct SymbolPaintLayer with 14 elements") {
                    Ok(x) => x,
                    Err(e) => return Err(e),
                };
                let text_opacity = match decode_seq_opt::<SymbolPaintLayerTextOpacity>(a, 11, true, "struct SymbolPaintLayer with 14 elements") {
                    Ok(x) => x,
                    Err(e) => return Err(e),
                };
                let text_translate = match decode_seq_opt::<SymbolPaintLayerTextTranslate>(a, 12, true, "struct SymbolPaintLayer with 14 elements") {
                    Ok(x) => x,
                    Err(e) => return Err(e),
                };
                let text_translate_anchor = match decode_seq_opt::<SymbolPaintLayerTextTranslateAnchor>(a, 13, true, "struct SymbolPaintLayer with 14 elements") {
                    Ok(x) => x,
                    Err(e) => return Err(e),
                };
                if a.len() > 14 {
                    return Err(make_length_error(a.len()));
                }
                Ok(SymbolPaintLayer { icon_color, icon_halo_blur, icon_halo_color, icon_halo_width, icon_opacity, icon_translate, icon_translate_anchor, text_color, text_halo_blur, text_halo_color, text_halo_width, text_opacity, text_translate, text_translate_anchor })
            },
            _ => Err(make_type_error(v, "struct SymbolPaintLayer")),
        }
    }
}

impl SymbolPaintLayer {
    /// What is wrong with the value `w` of an entry with key `k`, where `k` is the key of a field.
    pub open spec fn field_fault(k: Seq<char>, w: Json) -> Option<Seq<char>> {
        if k == "icon-color"@ {
            if w is Null || SymbolPaintLayerIconColor::accepts(w) {
                None
            } else {
                Some(SymbolPaintLayerIconColor::rejection(w))
            }
        } else if k == "icon-halo-blur"@ {
            if w is Null || SymbolPaintLayerIconHaloBlur::accepts(w) {
                None
            } else {
                Some(SymbolPaintLayerIconHaloBlur::rejection(w))
            }
        } else if k == "icon-halo-color"@ {
            if w is Null || SymbolPaintLayerIconHaloColor::accepts(w) {
                None
            } else {
                Some(SymbolPaintLayerIconHaloColor::rejection(w))
            }
        } else if k == "icon-halo-width"@ {
            if w is Null || SymbolPaintLayerIconHaloWidth::accepts(w) {
                None
            } else {
                Some(SymbolPaintLayerIconHaloWidth::rejection(w))
            }
        } else if k == "icon-opacity"@ {
            if w is Null || SymbolPaintLayerIconOpacity::accepts(w) {
                None
            } else {
                Some(SymbolPaintLayerIconOpacity::rejection(w))
            }
        } else if k == "icon-translate"@ {
            if w is Null || SymbolPaintLayerIconTranslate::accepts(w) {
                None
            } else {
                Some(SymbolPaintLayerIconTranslate::rejection(w))
            }
        } else if k == "icon-translate-anchor"@ {
            if w is Null || SymbolPaintLayerIconTranslateAnchor::accepts(w) {
                None
            } else {
                Some(SymbolPaintLayerIconTranslateAnchor::rejection(w))
            }
        } else if k == "text-color"@ {
            if w is Null || SymbolPaintLayerTextColor::accepts(w) {
                None
            } else {
                Some(SymbolPaintLayerTextColor::rejection(w))
            }
        } else if k == "text-halo-blur"@ {
            if w is Null || SymbolPaintLayerTextHaloBlur::accepts(w) {
                None
            } else {
                Some(SymbolPaintLayerTextHaloBlur::rejection(w))
            }
        } else if k == "text-halo-color"@ {
            if w is Null || SymbolPaintLayerTextHaloColor::accepts(w) {
                None
            } else {
                Some(SymbolPaintLayerTextHaloColor::rejection(w))
            }
        } else if k == "text-halo-width"@ {
            if w is Null || SymbolPaintLayerTextHaloWidth::accepts(w) {
                None
            } else {
                Some(SymbolPaintLayerTextHaloWidth::rejection(w))
            }
        } else if k == "text-opacity"@ {
            if w is Null || SymbolPaintLayerTextOpacity::accepts(w) {
                None
            } else {
                Some(SymbolPaintLayerTextOpacity::rejection(w))
            }
        } else if k == "text-translate"@ {
            if w is Null || SymbolPaintLayerTextTranslate::accepts(w) {
                None
            } else {
                Some(SymbolPaintLayerTextTranslate::rejection(w))
            }
        } else if k == "text-translate-anchor"@ {
            if w is Null || SymbolPaintLayerTextTranslateAnchor::accepts(w) {
                None
            } else {
                Some(SymbolPaintLayerTextTranslateAnchor::rejection(w))
            }
        } else {
            None
        }
    }

    /// The message of the first entry of `o`, from entry `i` on and among the first entries of
    /// their keys, whose value does not read as its field, if any.
    pub open spec fn first_fault(o: Seq<(Seq<char>, Json)>, i: int) -> Option<Seq<char>>
        decreases o.len() - i,
    {
        if i < 0 || i >= o.len() {
            None
        } else if first_with_key(o, i) && Self::field_fault(o[i].0, o[i].1) is Some {
            Self::field_fault(o[i].0, o[i].1)
        } else {
            Self::first_fault(o, i + 1)
        }
    }

    fn find_field_fault(k: &str, w: &JsonValue) -> (r: Option<String>)
        ensures
            match r {
                Some(m) => Self::field_fault(k@, w.model()) == Some(m@),
                None => Self::field_fault(k@, w.model()) is None,
            },
    {
        if str_eq(k, "icon-color") {
            match w {
                JsonValue::Null => None,
                _ => match SymbolPaintLayerIconColor::decode(w) {
                    Ok(_) => None,
                    Err(e) => Some(e),
                },
            }
        } else if str_eq(k, "icon-halo-blur") {
            match w {
                JsonValue::Null => None,
                _ => match SymbolPaintLayerIconHaloBlur::decode(w) {
                    Ok(_) => None,
                    Err(e) => Some(e),
                },
            }
        } else if str_eq(k, "icon-halo-color") {
            match w {
                JsonValue::Null => None,
                _ => match SymbolPaintLayerIconHaloColor::decode(w) {
                    Ok(_) => None,
                    Err(e) => Some(e),
                },
            }
        } else if str_eq(k, "icon-halo-width") {
            match w {
                JsonValue::Null => None,
                _ => match SymbolPaintLayerIconHaloWidth::decode(w) {
                    Ok(_) => None,
                    Err(e) => Some(e),
                },
            }
        } else if str_eq(k, "icon-opacity") {
            match w {
                JsonValue::Null => None,
                _ => match SymbolPaintLayerIconOpacity::decode(w) {
                    Ok(_) => None,
                    Err(e) => Some(e),
                },
            }
        } else if str_eq(k, "icon-translate") {
            match w {
                JsonValue::Null => None,
                _ => match SymbolPaintLayerIconTranslate::decode(w) {
                    Ok(_) => None,
                    Err(e) => Some(e),
                },
            }
        } else if str_eq(k, "icon-translate-anchor") {
            match w {
                JsonValue::Null => None,
                _ => match SymbolPaintLayerIconTranslateAnchor::decode(w) {
                    Ok(_) => None,
                    Err(e) => Some(e),
                },
            }
        } else if str_eq(k, "text-color") {
            match w {
                JsonValue::Null => None,
                _ => match SymbolPaintLayerTextColor::decode(w) {
                    Ok(_) => None,
                    Err(e) => Some(e),
                },
            }
        } else if str_eq(k, "text-halo-blur") {
            match w {
                JsonValue::Null => None,
                _ => match SymbolPaintLayerTextHaloBlur::decode(w) {
                    Ok(_) => None,
                    Err(e) => Some(e),
                },
            }
        } else if str_eq(k, "text-halo-color") {
            match w {
                JsonValue::Null => None,
                _ => match SymbolPaintLayerTextHaloColor::decode(w) {
                    Ok(_) => None,
                    Err(e) => Some(e),
                },
            }
        } else if str_eq(k, "text-halo-width") {
            match w {
                JsonValue::Null => None,
                _ => match SymbolPaintLayerTextHaloWidth::decode(w) {
                    Ok(_) => None,
                    Err(e) => Some(e),
                },
            }
        } else if str_eq(k, "text-opacity") {
            match w {
                JsonValue::Null => None,
                _ => match SymbolPaintLayerTextOpacity::decode(w) {
                    Ok(_) => None,
                    Err(e) => Some(e),
                },
            }
        } else if str_eq(k, "text-translate") {
            match w {
                JsonValue::Null => None,
                _ => match SymbolPaintLayerTextTranslate::decode(w) {
                    Ok(_) => None,
                    Err(e) => Some(e),
                },
            }
        } else if str_eq(k, "text-translate-anchor") {
            match w {
                JsonValue::Null => None,
                _ => match SymbolPaintLayerTextTranslateAnchor::decode(w) {
                    Ok(_) => None,
                    Err(e) => Some(e),
                },
            }
        } else {
            None
        }
    }

    fn object_rejection(fields: &Vec<(String, JsonValue)>) -> (r: String)
        ensures
            r@ == Self::rejection(JsonValue::Object(*fields).model()),
    {
        let ghost o = entries_model(*fields);
        let mut i: usize = 0;
        while i < fields.len()
            invariant
                o == entries_model(*fields),
                o.len() == fields.len(),
                i <= fields.len(),
                Self::first_fault(o, 0) == Self::first_fault(o, i as int),
            decreases fields.len() - i,
        {
            proof {
                assert(o[i as int] == (fields@[i as int].0@, fields@[i as int].1.model()));
            }
            if !key_seen_before(fields, i) {
                match Self::find_field_fault(fields[i].0.as_str(), &fields[i].1) {
                    Some(m) => {
                        return m;
                    },
                    None => {},
                }
            }
            i += 1;
        }
        String::new()
    }
}

impl SymbolPaintLayer {
    /// The keys of the fields, in order.
    pub open spec fn field_keys() -> Seq<Seq<char>> {
        seq!["icon-color"@, "icon-halo-blur"@, "icon-halo-color"@, "icon-halo-width"@, "icon-opacity"@, "icon-translate"@, "icon-translate-anchor"@, "text-color"@, "text-halo-blur"@, "text-halo-color"@, "text-halo-width"@, "text-opacity"@, "text-translate"@, "text-translate-anchor"@]
    }

    /// The entries that each field is written as, in order.
    pub open spec fn field_entries(self) -> Seq<Seq<(Seq<char>, Json)>> {
        seq![opt_entry::<SymbolPaintLayerIconColor>("icon-color"@, self.icon_color), opt_entry::<SymbolPaintLayerIconHaloBlur>("icon-halo-blur"@, self.icon_halo_blur), opt_entry::<SymbolPaintLayerIconHaloColor>("icon-halo-color"@, self.icon_halo_color), opt_entry::<SymbolPaintLayerIconHaloWidth>("icon-halo-width"@, self.icon_halo_width), opt_entry::<SymbolPaintLayerIconOpacity>("icon-opacity"@, self.icon_opacity), opt_entry::<SymbolPaintLayerIconTranslate>("icon-translate"@, self.icon_translate), opt_entry::<SymbolPaintLayerIconTranslateAnchor>("icon-translate-anchor"@, self.icon_translate_anchor), opt_entry::<SymbolPaintLayerTextColor>("text-color"@, self.text_color), opt_entry::<SymbolPaintLayerTextHaloBlur>("text-halo-blur"@, self.text_halo_blur), opt_entry::<SymbolPaintLayerTextHaloColor>("text-halo-color"@, self.text_halo_color), opt_entry::<SymbolPaintLayerTextHaloWidth>("text-halo-width"@, self.text_halo_width), opt_entry::<SymbolPaintLayerTextOpacity>("text-opacity"@, self.text_opacity), opt_entry::<SymbolPaintLayerTextTranslate>("text-translate"@, self.text_translate), opt_entry::<SymbolPaintLayerTextTranslateAnchor>("text-translate-anchor"@, self.text_translate_anchor)]
    }

    proof fn lemma_keys_differ(i: int)
        requires
            0 <= i < 14,
        ensures
            others_differ(Self::field_keys(), i),
    {
        reveal_strlit("icon-color");
        assert("icon-color"@.len() == 10);
        reveal_strlit("icon-halo-blur");
        assert("icon-halo-blur"@.len() == 14);
        reveal_strlit("icon-halo-color");
        assert("icon-halo-color"@.len() == 15);
        reveal_strlit("icon-halo-width");
        assert("icon-halo-width"@.len() == 15);
        reveal_strlit("icon-opacity");
        assert("icon-opacity"@.len() == 12);
        reveal_strlit("icon-translate");
        assert("icon-translate"@.len() == 14);
        reveal_strlit("icon-translate-anchor");
        assert("icon-translate-anchor"@.len() == 21);
        reveal_strlit("text-color");
        assert("text-color"@.len() == 10);
        reveal_strlit("text-halo-blur");
        assert("text-halo-blur"@.len() == 14);
        reveal_strlit("text-halo-color");
        assert("text-halo-color"@.len() == 15);
        reveal_strlit("text-halo-width");
        assert("text-halo-width"@.len() == 15);
        reveal_strlit("text-opacity");
        assert("text-opacity"@.len() == 12);
        reveal_strlit("text-translate");
        assert("text-translate"@.len() == 14);
        reveal_strlit("text-translate-anchor");
        assert("text-translate-anchor"@.len() == 21);
        assert("icon-color"@[0] != "text-color"@[0]);
        assert("icon-halo-blur"@[5] != "icon-translate"@[5]);
        assert("icon-halo-blur"@[0] != "text-halo-blur"@[0]);
        assert("icon-halo-blur"@[0] != "text-translate"@[0]);
        assert("icon-halo-color"@[10] != "icon-halo-width"@[10]);
        assert("icon-halo-color"@[0] != "text-halo-color"@[0]);
        assert("icon-halo-color"@[0] != "text-halo-width"@[0]);
        assert("icon-halo-width"@[0] != "text-halo-color"@[0]);
        assert("icon-halo-width"@[0] != "text-halo-width"@[0]);
        assert("icon-opacity"@[0] != "text-opacity"@[0]);
        assert("icon-translate"@[0] != "text-halo-blur"@[0]);
        assert("icon-translate"@[0] != "text-translate"@[0]);
        assert("icon-translate-anchor"@[0] != "text-translate-anchor"@[0]);
        assert("text-halo-blur"@[5] != "text-translate"@[5]);
        assert("text-halo-color"@[10] != "text-halo-width"@[10]);
    }
}

impl JsonEncode for SymbolPaintLayer {
    open spec fn to_json(self) -> Json {
        Json::Object(self.field_entries().flatten())
    }

    open spec fn round_trips(self) -> bool {
        &&& (self.icon_color matches Some(t) ==> t.round_trips() && !(t.to_json() is Null))
        &&& (self.icon_halo_blur matches Some(t) ==> t.round_trips() && !(t.to_json() is Null))
        &&& (self.icon_halo_color matches Some(t) ==> t.round_trips() && !(t.to_json() is Null))
        &&& (self.icon_halo_width matches Some(t) ==> t.round_trips() && !(t.to_json() is Null))
        &&& (self.icon_opacity matches Some(t) ==> t.round_trips() && !(t.to_json() is Null))
        &&& (self.icon_translate matches Some(t) ==> t.round_trips() && !(t.to_json() is Null))
        &&& (self.icon_translate_anchor matches Some(t) ==> t.round_trips() && !(t.to_json() is Null))
        &&& (self.text_color matches Some(t) ==> t.round_trips() && !(t.to_json() is Null))
        &&& (self.text_halo_blur matches Some(t) ==> t.round_trips() && !(t.to_json() is Null))
        &&& (self.text_halo_color matches Some(t) ==> t.round_trips() && !(t.to_json() is Null))
        &&& (self.text_halo_width matches Some(t) ==> t.round_trips() && !(t.to_json() is Null))
        &&& (self.text_opacity matches Some(t) ==> t.round_trips() && !(t.to_json() is Null))
        &&& (self.text_translate matches Some(t) ==> t.round_trips() && !(t.to_json() is Null))
        &&& (self.text_translate_anchor matches Some(t) ==> t.round_trips() && !(t.to_json() is Null))
    }

    #[verifier::rlimit(40)]
    fn encode(&self) -> (r: JsonValue) {
        let mut out: Vec<(String, JsonValue)> = Vec::new();
        let ghost s0 = Seq::<Seq<(Seq<char>, Json)>>::empty();
        proof {
            assert(entries_model(out) =~= s0.flatten());
        }
        push_opt_entry::<SymbolPaintLayerIconColor>(&mut out, "icon-color", &self.icon_color);
        let ghost s1 = s0.push(opt_entry::<SymbolPaintLayerIconColor>("icon-color"@, self.icon_color));
        proof {
            s0.lemma_flatten_push(opt_entry::<SymbolPaintLayerIconColor>("icon-color"@, self.icon_color));
            assert(entries_model(out) =~= s1.flatten());
        }
        push_opt_entry::<SymbolPaintLayerIconHaloBlur>(&mut out, "icon-halo-blur", &self.icon_halo_blur);
        let ghost s2 = s1.push(opt_entry::<SymbolPaintLayerIconHaloBlur>("icon-halo-blur"@, self.icon_halo_blur));
        proof {
            s1.lemma_flatten_push(opt_entry::<SymbolPaintLayerIconHaloBlur>("icon-halo-blur"@, self.icon_halo_blur));
            assert(entries_model(out) =~= s2.flatten());
        }
        push_opt_entry::<SymbolPaintLayerIconHaloColor>(&mut out, "icon-halo-color", &self.icon_halo_color);
        let ghost s3 = s2.push(opt_entry::<SymbolPaintLayerIconHaloColor>("icon-halo-color"@, self.icon_halo_color));
        proof {
            s2.lemma_flatten_push(opt_entry::<SymbolPaintLayerIconHaloColor>("icon-halo-color"@, self.icon_halo_color));
            assert(entries_model(out) =~= s3.flatten());
        }
        push_opt_entry::<SymbolPaintLayerIconHaloWidth>(&mut out, "icon-halo-width", &self.icon_halo_width);
        let ghost s4 = s3.push(opt_entry::<SymbolPaintLayerIconHaloWidth>("icon-halo-width"@, self.icon_halo_width));
        proof {
            s3.lemma_flatten_push(opt_entry::<SymbolPaintLayerIconHaloWidth>("icon-halo-width"@, self.icon_halo_width));
            assert(entries_model(out) =~= s4.flatten());
        }
        push_opt_entry::<SymbolPaintLayerIconOpacity>(&mut out, "icon-opacity", &self.icon_opacity);
        let ghost s5 = s4.push(opt_entry::<SymbolPaintLayerIconOpacity>("icon-opacity"@, self.icon_opacity));
        proof {
            s4.lemma_flatten_push(opt_entry::<SymbolPaintLayerIconOpacity>("icon-opacity"@, self.icon_opacity));
            assert(entries_model(out) =~= s5.flatten());
        }
        push_opt_entry::<SymbolPaintLayerIconTranslate>(&mut out, "icon-translate", &self.icon_translate);
        let ghost s6 = s5.push(opt_entry::<SymbolPaintLayerIconTranslate>("icon-translate"@, self.icon_translate));
        proof {
            s5.lemma_flatten_push(opt_entry::<SymbolPaintLayerIconTranslate>("icon-translate"@, self.icon_translate));
            assert(entries_model(out) =~= s6.flatten());
        }
        push_opt_entry::<SymbolPaintLayerIconTranslateAnchor>(&mut out, "icon-translate-anchor", &self.icon_translate_anchor);
        let ghost s7 = s6.push(opt_entry::<SymbolPaintLayerIconTranslateAnchor>("icon-translate-anchor"@, self.icon_translate_anchor));
        proof {
            s6.lemma_flatten_push(opt_entry::<SymbolPaintLayerIconTranslateAnchor>("icon-translate-anchor"@, self.icon_translate_anchor));
            assert(entries_model(out) =~= s7.flatten());
        }
        push_opt_entry::<SymbolPaintLayerTextColor>(&mut out, "text-color", &self.text_color);
        let ghost s8 = s7.push(opt_entry::<SymbolPaintLayerTextColor>("text-color"@, self.text_color));
        proof {
            s7.lemma_flatten_push(opt_entry::<SymbolPaintLayerTextColor>("text-color"@, self.text_color));
            assert(entries_model(out) =~= s8.flatten());
        }
        push_opt_entry::<SymbolPaintLayerTextHaloBlur>(&mut out, "text-halo-blur", &self.text_halo_blur);
        let ghost s9 = s8.push(opt_entry::<SymbolPaintLayerTextHaloBlur>("text-halo-blur"@, self.text_halo_blur));
        proof {
            s8.lemma_flatten_push(opt_entry::<SymbolPaintLayerTextHaloBlur>("text-halo-blur"@, self.text_halo_blur));
            assert(entries_model(out) =~= s9.flatten());
        }
        push_opt_entry::<SymbolPaintLayerTextHaloColor>(&mut out, "text-halo-color", &self.text_halo_color);
        let ghost s10 = s9.push(opt_entry::<SymbolPaintLayerTextHaloColor>("text-halo-color"@, self.text_halo_color));
        proof {
            s9.lemma_flatten_push(opt_entry::<SymbolPaintLayerTextHaloColor>("text-halo-color"@, self.text_halo_color));
            assert(entries_model(out) =~= s10.flatten());
        }
        push_opt_entry::<SymbolPaintLayerTextHaloWidth>(&mut out, "text-halo-width", &self.text_halo_width);
        let ghost s11 = s10.push(opt_entry::<SymbolPaintLayerTextHaloWidth>("text-halo-width"@, self.text_halo_width));
        proof {
            s10.lemma_flatten_push(opt_entry::<SymbolPaintLayerTextHaloWidth>("text-halo-width"@, self.text_halo_width));
            assert(entries_model(out) =~= s11.flatten());
        }
        push_opt_entry::<SymbolPaintLayerTextOpacity>(&mut out, "text-opacity", &self.text_opacity);
        let ghost s12 = s11.push(opt_entry::<SymbolPaintLayerTextOpacity>("text-opacity"@, self.text_opacity));
        proof {
            s11.lemma_flatten_push(opt_entry::<SymbolPaintLayerTextOpacity>("text-opacity"@, self.text_opacity));
            assert(entries_model(out) =~= s12.flatten());
        }
        push_opt_entry::<SymbolPaintLayerTextTranslate>(&mut out, "text-translate", &self.text_translate);
        let ghost s13 = s12.push(opt_entry::<SymbolPaintLayerTextTranslate>("text-translate"@, self.text_translate));
        proof {
            s12.lemma_flatten_push(opt_entry::<SymbolPaintLayerTextTranslate>("text-translate"@, self.text_translate));
            assert(entries_model(out) =~= s13.flatten());
        }
        push_opt_entry::<SymbolPaintLayerTextTranslateAnchor>(&mut out, "text-translate-anchor", &self.text_translate_anchor);
        let ghost s14 = s13.push(opt_entry::<SymbolPaintLayerTextTranslateAnchor>("text-translate-anchor"@, self.text_translate_anchor));
        proof {
            s13.lemma_flatten_push(opt_entry::<SymbolPaintLayerTextTranslateAnchor>("text-translate-anchor"@, self.text_translate_anchor));
            assert(entries_model(out) =~= s14.flatten());
        }
        proof {
            assert(self.field_entries() == s14);
        }
        JsonValue::Object(out)
    }

    #[verifier::rlimit(40)]
    proof fn lemma_round_trip(self) {
        let keys = Self::field_keys();
        let es = self.field_entries();
        assert(keyed_by(es, keys));
        Self::lemma_keys_differ(0);
        lemma_lookup_flatten(es, keys, 0);
        lemma_lookup_opt_entry::<SymbolPaintLayerIconColor>("icon-color"@, self.icon_color, "icon-color"@);
        if self.icon_color is Some {
            self.icon_color->0.lemma_round_trip();
        }
        Self::lemma_keys_differ(1);
        lemma_lookup_flatten(es, keys, 1);
        lemma_lookup_opt_entry::<SymbolPaintLayerIconHaloBlur>("icon-halo-blur"@, self.icon_halo_blur, "icon-halo-blur"@);
        if self.icon_halo_blur is Some {
            self.icon_halo_blur->0.lemma_round_trip();
        }
        Self::lemma_keys_differ(2);
        lemma_lookup_flatten(es, keys, 2);
        lemma_lookup_opt_entry::<SymbolPaintLayerIconHaloColor>("icon-halo-color"@, self.icon_halo_color, "icon-halo-color"@);
        if self.icon_halo_color is Some {
            self.icon_halo_color->0.lemma_round_trip();
        }
        Self::lemma_keys_differ(3);
        lemma_lookup_flatten(es, keys, 3);
        lemma_lookup_opt_entry::<SymbolPaintLayerIconHaloWidth>("icon-halo-width"@, self.icon_halo_width, "icon-halo-width"@);
        if self.icon_halo_width is Some {
            self.icon_halo_width->0.lemma_round_trip();
        }
        Self::lemma_keys_differ(4);
        lemma_lookup_flatten(es, keys, 4);
        lemma_lookup_opt_entry::<SymbolPaintLayerIconOpacity>("icon-opacity"@, self.icon_opacity, "icon-opacity"@);
        if self.icon_opacity is Some {
            self.icon_opacity->0.lemma_round_trip();
        }
        Self::lemma_keys_differ(5);
        lemma_lookup_flatten(es, keys, 5);
        lemma_lookup_opt_entry::<SymbolPaintLayerIconTranslate>("icon-translate"@, self.icon_translate, "icon-translate"@);
        if self.icon_translate is Some {
            self.icon_translate->0.lemma_round_trip();
        }
        Self::lemma_keys_differ(6);
        lemma_lookup_flatten(es, keys, 6);
        lemma_lookup_opt_entry::<SymbolPaintLayerIconTranslateAnchor>("icon-translate-anchor"@, self.icon_translate_anchor, "icon-translate-anchor"@);
        if self.icon_translate_anchor is Some {
            self.icon_translate_anchor->0.lemma_round_trip();
        }
        Self::lemma_keys_differ(7);
        lemma_lookup_flatten(es, keys, 7);
        lemma_lookup_opt_entry::<SymbolPaintLayerTextColor>("text-color"@, self.text_color, "text-color"@);
        if self.text_color is Some {
            self.text_color->0.lemma_round_trip();
        }
        Self::lemma_keys_differ(8);
        lemma_lookup_flatten(es, keys, 8);
        lemma_lookup_opt_entry::<SymbolPaintLayerTextHaloBlur>("text-halo-blur"@, self.text_halo_blur, "text-halo-blur"@);
        if self.text_halo_blur is Some {
            self.text_halo_blur->0.lemma_round_trip();
        }
        Self::lemma_keys_differ(9);
        lemma_lookup_flatten(es, keys, 9);
        lemma_lookup_opt_entry::<SymbolPaintLayerTextHaloColor>("text-halo-color"@, self.text_halo_color, "text-halo-color"@);
        if self.text_halo_color is Some {
            self.text_halo_color->0.lemma_round_trip();
        }
        Self::lemma_keys_differ(10);
        lemma_lookup_flatten(es, keys, 10);
        lemma_lookup_opt_entry::<SymbolPaintLayerTextHaloWidth>("text-halo-width"@, self.text_halo_width, "text-halo-width"@);
        if self.text_halo_width is Some {
            self.text_halo_width->0.lemma_round_trip();
        }
        Self::lemma_keys_differ(11);
        lemma_lookup_flatten(es, keys, 11);
        lemma_lookup_opt_entry::<SymbolPaintLayerTextOpacity>("text-opacity"@, self.text_opacity, "text-opacity"@);
        if self.text_opacity is Some {
            self.text_opacity->0.lemma_round_trip();
        }
        Self::lemma_keys_differ(12);
        lemma_lookup_flatten(es, keys, 12);
        lemma_lookup_opt_entry::<SymbolPaintLayerTextTranslate>("text-translate"@, self.text_translate, "text-translate"@);
        if self.text_translate is Some {
            self.text_translate->0.lemma_round_trip();
        }
        Self::lemma_keys_differ(13);
        lemma_lookup_flatten(es, keys, 13);
        lemma_lookup_opt_entry::<SymbolPaintLayerTextTranslateAnchor>("text-translate-anchor"@, self.text_translate_anchor, "text-translate-anchor"@);
        if self.text_translate_anchor is Some {
            self.text_translate_anchor->0.lemma_round_trip();
        }
    }
}

/// Nested expression: ramp (`interpolate-hcl`, …) or [`Color`] operators.
#[derive(PartialEq, Debug, Clone)]
pub enum SymbolPaintLayerIconColorExpression {
    Color(Color),
    Ramp(ColorOrArrayOfColor),
}

impl JsonDecode for SymbolPaintLayerIconColorExpression {
    open spec fn accepts(v: Json) -> bool {
        Color::accepts(v) || ColorOrArrayOfColor::accepts(v)
    }

    open spec fn decodes(v: Json, x: Self) -> bool {
        match x {
            SymbolPaintLayerIconColorExpression::Color(t) => Color::accepts(v) && Color::decodes(v, t),
            SymbolPaintLayerIconColorExpression::Ramp(t) => !Color::accepts(v) && ColorOrArrayOfColor::accepts(v) && ColorOrArrayOfColor::decodes(v, t),
        }
    }

    open spec fn rejection(v: Json) -> Seq<char> {
        "SymbolPaintLayerIconColorExpression: no variant matched. Expected Color(Color) | Ramp(ColorOrArrayOfColor). Errors: ["@ + "Color: "@ + Color::rejection(v) + "; Ramp: "@ + ColorOrArrayOfColor::rejection(v) + "]"@
    }

    fn decode(v: &JsonValue) -> (r: Result<Self, String>) {
        let e0 = match Color::decode(v) {
            Ok(x) => {
                return Ok(SymbolPaintLayerIconColorExpression::Color(x));
            },
            Err(e) => e,
        };
        let e1 = match ColorOrArrayOfColor::decode(v) {
            Ok(x) => {
                return Ok(SymbolPaintLayerIconColorExpression::Ramp(x));
            },
            Err(e) => e,
        };
        let mut m = "SymbolPaintLayerIconColorExpression: no variant matched. Expected Color(Color) | Ramp(ColorOrArrayOfColor). Errors: [".to_string();
        m.append("Color: ");
        m.append(e0.as_str());
        m.append("; Ramp: ");
        m.append(e1.as_str());
        m.append("]");
        Err(m)
    }
}

impl JsonEncode for SymbolPaintLayerIconColorExpression {
    open spec fn to_json(self) -> Json {
        match self {
            SymbolPaintLayerIconColorExpression::Color(t) => Color::to_json(t),
            SymbolPaintLayerIconColorExpression::Ramp(t) => ColorOrArrayOfColor::to_json(t),
        }
    }

    open spec fn round_trips(self) -> bool {
        match self {
            SymbolPaintLayerIconColorExpression::Color(t) => Color::round_trips(t),
            SymbolPaintLayerIconColorExpression::Ramp(t) => ColorOrArrayOfColor::round_trips(t) && !Color::accepts(ColorOrArrayOfColor::to_json(t)),
        }
    }

    fn encode(&self) -> (r: JsonValue) {
        match self {
            SymbolPaintLayerIconColorExpression::Color(t) => Color::encode(t),
            SymbolPaintLayerIconColorExpression::Ramp(t) => ColorOrArrayOfColor::encode(t),
        }
    }

    proof fn lemma_round_trip(self) {
        match self {
            SymbolPaintLayerIconColorExpression::Color(t) => Color::lemma_round_trip(t),
            SymbolPaintLayerIconColorExpression::Ramp(t) => ColorOrArrayOfColor::lemma_round_trip(t),
        }
    }
}

/// The color of the icon. This can only be used with SDF icons.
#[derive(PartialEq, Debug, Clone)]
pub enum SymbolPaintLayerIconColor {
    Expr(Box<SymbolPaintLayerIconColorExpression>),
    Literal(JsonValue),
}

impl JsonDecode for SymbolPaintLayerIconColor {
    open spec fn accepts(v: Json) -> bool {
        SymbolPaintLayerIconColorExpression::accepts(v) || JsonValue::accepts(v)
    }

    open spec fn decodes(v: Json, x: Self) -> bool {
        match x {
            SymbolPaintLayerIconColor::Expr(t) => SymbolPaintLayerIconColorExpression::accepts(v) && SymbolPaintLayerIconColorExpression::decodes(v, *t),
            SymbolPaintLayerIconColor::Literal(t) => !SymbolPaintLayerIconColorExpression::accepts(v) && JsonValue::accepts(v) && JsonValue::decodes(v, t),
        }
    }

    open spec fn rejection(v: Json) -> Seq<char> {
        "SymbolPaintLayerIconColor: no variant matched. Expected Expr(SymbolPaintLayerIconColorExpression) | Literal(serde_json::Value). Errors: ["@ + "Expr: "@ + SymbolPaintLayerIconColorExpression::rejection(v) + "; Literal: "@ + JsonValue::rejection(v) + "]"@
    }

    fn decode(v: &JsonValue) -> (r: Result<Self, String>) {
        let e0 = match SymbolPaintLayerIconColorExpression::decode(v) {
            Ok(x) => {
                return Ok(SymbolPaintLayerIconColor::Expr(Box::new(x)));
            },
            Err(e) => e,
        };
        let e1 = match JsonValue::decode(v) {
            Ok(x) => {
                return Ok(SymbolPaintLayerIconColor::Literal(x));
            },
            Err(e) => e,
        };
        let mut m = "SymbolPaintLayerIconColor: no variant matched. Expected Expr(SymbolPaintLayerIconColorExpression) | Literal(serde_json::Value). Errors: [".to_string();
        m.append("Expr: ");
        m.append(e0.as_str());
        m.append("; Literal: ");
        m.append(e1.as_str());
        m.append("]");
        Err(m)
    }
}

impl JsonEncode for SymbolPaintLayerIconColor {
    open spec fn to_json(self) -> Json {
        match self {
            SymbolPaintLayerIconColor::Expr(t) => SymbolPaintLayerIconColorExpression::to_json(*t),
            SymbolPaintLayerIconColor::Literal(t) => JsonValue::to_json(t),
        }
    }

    open spec fn round_trips(self) -> bool {
        match self {
            SymbolPaintLayerIconColor::Expr(t) => SymbolPaintLayerIconColorExpression::round_trips(*t),
            SymbolPaintLayerIconColor::Literal(t) => JsonValue::round_trips(t) && !SymbolPaintLayerIconColorExpression::accepts(JsonValue::to_json(t)),
        }
    }

    fn encode(&self) -> (r: JsonValue) {
        match self {
            SymbolPaintLayerIconColor::Expr(t) => SymbolPaintLayerIconColorExpression::encode(&**t),
            SymbolPaintLayerIconColor::Literal(t) => JsonValue::encode(t),
        }
    }

    proof fn lemma_round_trip(self) {
        match self {
            SymbolPaintLayerIconColor::Expr(t) => SymbolPaintLayerIconColorExpression::lemma_round_trip(*t),
            SymbolPaintLayerIconColor::Literal(t) => JsonValue::lemma_round_trip(t),
        }
    }
}

impl Default for SymbolPaintLayerIconColor {
    fn default() -> (r: Self)
        ensures
            r.to_json() == Json::Str("#000000"@),
            r is Literal,
    {
        let r = SymbolPaintLayerIconColor::Literal(JsonValue::String("#000000".to_string()));
        r
    }
}

/// Nested expression: ramp (`interpolate` / …) or regular [`Number`] operators.
#[derive(PartialEq, Debug, Clone)]
pub enum SymbolPaintLayerIconHaloBlurExpression {
    Number(Number),
    Ramp(NumberOrArrayOfNumberOrColorOrArrayOfColorOrProjection),
}

impl JsonDecode for SymbolPaintLayerIconHaloBlurExpression {
    open spec fn accepts(v: Json) -> bool {
        Number::accepts(v) || NumberOrArrayOfNumberOrColorOrArrayOfColorOrProjection::accepts(v)
    }

    open spec fn decodes(v: Json, x: Self) -> bool {
        match x {
            SymbolPaintLayerIconHaloBlurExpression::Number(t) => Number::accepts(v) && Number::decodes(v, t),
            SymbolPaintLayerIconHaloBlurExpression::Ramp(t) => !Number::accepts(v) && NumberOrArrayOfNumberOrColorOrArrayOfColorOrProjection::accepts(v) && NumberOrArrayOfNumberOrColorOrArrayOfColorOrProjection::decodes(v, t),
        }
    }

    open spec fn rejection(v: Json) -> Seq<char> {
        "SymbolPaintLayerIconHaloBlurExpression: no variant matched. Expected Number(Number) | Ramp(NumberOrArrayOfNumberOrColorOrArrayOfColorOrProjection). Errors: ["@ + "Number: "@ + Number::rejection(v) + "; Ramp: "@ + NumberOrArrayOfNumberOrColorOrArrayOfColorOrProjection::rejection(v) + "]"@
    }

    fn decode(v: &JsonValue) -> (r: Result<Self, String>) {
        let e0 = match Number::decode(v) {
            Ok(x) => {
                return Ok(SymbolPaintLayerIconHaloBlurExpression::Number(x));
            },
            Err(e) => e,
        };
        let e1 = match NumberOrArrayOfNumberOrColorOrArrayOfColorOrProjection::decode(v) {
            Ok(x) => {
                return Ok(SymbolPaintLayerIconHaloBlurExpression::Ramp(x));
            },
            Err(e) => e,
        };
        let mut m = "SymbolPaintLayerIconHaloBlurExpression: no variant matched. Expected Number(Number) | Ramp(NumberOrArrayOfNumberOrColorOrArrayOfColorOrProjection). Errors: [".to_string();
        m.append("Number: ");
        m.append(e0.as_str());
        m.append("; Ramp: ");
        m.append(e1.as_str());
        m.append("]");
        Err(m)
    }
}

impl JsonEncode for SymbolPaintLayerIconHaloBlurExpression {
    open spec fn to_json(self) -> Json {
        match self {
            SymbolPaintLayerIconHaloBlurExpression::Number(t) => Number::to_json(t),
            SymbolPaintLayerIconHaloBlurExpression::Ramp(t) => NumberOrArrayOfNumberOrColorOrArrayOfColorOrProjection::to_json(t),
        }
    }

    open spec fn round_trips(self) -> bool {
        match self {
            SymbolPaintLayerIconHaloBlurExpression::Number(t) => Number::round_trips(t),
            SymbolPaintLayerIconHaloBlurExpression::Ramp(t) => NumberOrArrayOfNumberOrColorOrArrayOfColorOrProjection::round_trips(t) && !Number::accepts(NumberOrArrayOfNumberOrColorOrArrayOfColorOrProjection::to_json(t)),
        }
    }

    fn encode(&self) -> (r: JsonValue) {
        match self {
            SymbolPaintLayerIconHaloBlurExpression::Number(t) => Number::encode(t),
            SymbolPaintLayerIconHaloBlurExpression::Ramp(t) => NumberOrArrayOfNumberOrColorOrArrayOfColorOrProjection::encode(t),
        }
    }

    proof fn lemma_round_trip(self) {
        match self {
            SymbolPaintLayerIconHaloBlurExpression::Number(t) => Number::lemma_round_trip(t),
            SymbolPaintLayerIconHaloBlurExpression::Ramp(t) => NumberOrArrayOfNumberOrColorOrArrayOfColorOrProjection::lemma_round_trip(t),
        }
    }
}

/// Fade out the halo towards the outside.
#[derive(PartialEq, Debug, Clone)]
pub enum SymbolPaintLayerIconHaloBlur {
    Expr(Box<SymbolPaintLayerIconHaloBlurExpression>),
    Literal(JsonNumber),
}

impl JsonDecode for SymbolPaintLayerIconHaloBlur {
    open spec fn accepts(v: Json) -> bool {
        SymbolPaintLayerIconHaloBlurExpression::accepts(v) || JsonNumber::accepts(v)
    }

    open spec fn decodes(v: Json, x: Self) -> bool {
        match x {
            SymbolPaintLayerIconHaloBlur::Expr(t) => SymbolPaintLayerIconHaloBlurExpression::accepts(v) && SymbolPaintLayerIconHaloBlurExpression::decodes(v, *t),
            SymbolPaintLayerIconHaloBlur::Literal(t) => !SymbolPaintLayerIconHaloBlurExpression::accepts(v) && JsonNumber::accepts(v) && JsonNumber::decodes(v, t),
        }
    }

    open spec fn rejection(v: Json) -> Seq<char> {
        "SymbolPaintLayerIconHaloBlur: no variant matched. Expected Expr(SymbolPaintLayerIconHaloBlurExpression) | Literal(serde_json::Number). Errors: ["@ + "Expr: "@ + SymbolPaintLayerIconHaloBlurExpression::rejection(v) + "; Literal: "@ + JsonNumber::rejection(v) + "]"@
    }

    fn decode(v: &JsonValue) -> (r: Result<Self, String>) {
        let e0 = match SymbolPaintLayerIconHaloBlurExpression::decode(v) {
            Ok(x) => {
                return Ok(SymbolPaintLayerIconHaloBlur::Expr(Box::new(x)));
            },
            Err(e) => e,
        };
        let e1 = match JsonNumber::decode(v) {
            Ok(x) => {
                return Ok(SymbolPaintLayerIconHaloBlur::Literal(x));
            },
            Err(e) => e,
        };
        let mut m = "SymbolPaintLayerIconHaloBlur: no variant matched. Expected Expr(SymbolPaintLayerIconHaloBlurExpression) | Literal(serde_json::Number). Errors: [".to_string();
        m.append("Expr: ");
        m.append(e0.as_str());
        m.append("; Literal: ");
        m.append(e1.as_str());
        m.append("]");
        Err(m)
    }
}

impl JsonEncode for SymbolPaintLayerIconHaloBlur {
    open spec fn to_json(self) -> Json {
        match self {
            SymbolPaintLayerIconHaloBlur::Expr(t) => SymbolPaintLayerIconHaloBlurExpression::to_json(*t),
            SymbolPaintLayerIconHaloBlur::Literal(t) => JsonNumber::to_json(t),
        }
    }

    open spec fn round_trips(self) -> bool {
        match self {
            SymbolPaintLayerIconHaloBlur::Expr(t) => SymbolPaintLayerIconHaloBlurExpression::round_trips(*t),
            SymbolPaintLayerIconHaloBlur::Literal(t) => JsonNumber::round_trips(t) && !SymbolPaintLayerIconHaloBlurExpression::accepts(JsonNumber::to_json(t)),
        }
    }

    fn encode(&self) -> (r: JsonValue) {
        match self {
            SymbolPaintLayerIconHaloBlur::Expr(t) => SymbolPaintLayerIconHaloBlurExpression::encode(&**t),
            SymbolPaintLayerIconHaloBlur::Literal(t) => JsonNumber::encode(t),
        }
    }

    proof fn lemma_round_trip(self) {
        match self {
            SymbolPaintLayerIconHaloBlur::Expr(t) => SymbolPaintLayerIconHaloBlurExpression::lemma_round_trip(*t),
            SymbolPaintLayerIconHaloBlur::Literal(t) => JsonNumber::lemma_round_trip(t),
        }
    }
}

impl Default for SymbolPaintLayerIconHaloBlur {
    fn default() -> (r: Self)
        ensures
            r.to_json() == Json::Number("0"@),
            r is Literal,
    {
        let r = SymbolPaintLayerIconHaloBlur::Literal(JsonNumber::from_literal("0"));
        r
    }
}

/// Nested expression: ramp (`interpolate-hcl`, …) or [`Color`] operators.
#[derive(PartialEq, Debug, Clone)]
pub enum SymbolPaintLayerIconHaloColorExpression {
    Color(Color),
    Ramp(ColorOrArrayOfColor),
}

impl JsonDecode for SymbolPaintLayerIconHaloColorExpression {
    open spec fn accepts(v: Json) -> bool {
        Color::accepts(v) || ColorOrArrayOfColor::accepts(v)
    }

    open spec fn decodes(v: Json, x: Self) -> bool {
        match x {
            SymbolPaintLayerIconHaloColorExpression::Color(t) => Color::accepts(v) && Color::decodes(v, t),
            SymbolPaintLayerIconHaloColorExpression::Ramp(t) => !Color::accepts(v) && ColorOrArrayOfColor::accepts(v) && ColorOrArrayOfColor::decodes(v, t),
        }
    }

    open spec fn rejection(v: Json) -> Seq<char> {
        "SymbolPaintLayerIconHaloColorExpression: no variant matched. Expected Color(Color) | Ramp(ColorOrArrayOfColor). Errors: ["@ + "Color: "@ + Color::rejection(v) + "; Ramp: "@ + ColorOrArrayOfColor::rejection(v) + "]"@
    }

    fn decode(v: &JsonValue) -> (r: Result<Self, String>) {
        let e0 = match Color::decode(v) {
            Ok(x) => {
                return Ok(SymbolPaintLayerIconHaloColorExpression::Color(x));
            },
            Err(e) => e,
        };
        let e1 = match ColorOrArrayOfColor::decode(v) {
            Ok(x) => {
                return Ok(SymbolPaintLayerIconHaloColorExpression::Ramp(x));
            },
            Err(e) => e,
        };
        let mut m = "SymbolPaintLayerIconHaloColorExpression: no variant matched. Expected Color(Color) | Ramp(ColorOrArrayOfColor). Errors: [".to_string();
        m.append("Color: ");
        m.append(e0.as_str());
        m.append("; Ramp: ");
        m.append(e1.as_str());
        m.append("]");
        Err(m)
    }
}

impl JsonEncode for SymbolPaintLayerIconHaloColorExpression {
    open spec fn to_json(self) -> Json {
        match self {
            SymbolPaintLayerIconHaloColorExpression::Color(t) => Color::to_json(t),
            SymbolPaintLayerIconHaloColorExpression::Ramp(t) => ColorOrArrayOfColor::to_json(t),
        }
    }

    open spec fn round_trips(self) -> bool {
        match self {
            SymbolPaintLayerIconHaloColorExpression::Color(t) => Color::round_trips(t),
            SymbolPaintLayerIconHaloColorExpression::Ramp(t) => ColorOrArrayOfColor::round_trips(t) && !Color::accepts(ColorOrArrayOfColor::to_json(t)),
        }
    }

    fn encode(&self) -> (r: JsonValue) {
        match self {
            SymbolPaintLayerIconHaloColorExpression::Color(t) => Color::encode(t),
            SymbolPaintLayerIconHaloColorExpression::Ramp(t) => ColorOrArrayOfColor::encode(t),
        }
    }

    proof fn lemma_round_trip(self) {
        match self {
            SymbolPaintLayerIconHaloColorExpression::Color(t) => Color::lemma_round_trip(t),
            SymbolPaintLayerIconHaloColorExpression::Ramp(t) => ColorOrArrayOfColor::lemma_round_trip(t),
        }
    }
}

/// The color of the icon's halo. Icon halos can only be used with SDF icons.
#[derive(PartialEq, Debug, Clone)]
pub enum SymbolPaintLayerIconHaloColor {
    Expr(Box<SymbolPaintLayerIconHaloColorExpression>),
    Literal(JsonValue),
}

impl JsonDecode for SymbolPaintLayerIconHaloColor {
    open spec fn accepts(v: Json) -> bool {
        SymbolPaintLayerIconHaloColorExpression::accepts(v) || JsonValue::accepts(v)
    }

    open spec fn decodes(v: Json, x: Self) -> bool {
        match x {
            SymbolPaintLayerIconHaloColor::Expr(t) => SymbolPaintLayerIconHaloColorExpression::accepts(v) && SymbolPaintLayerIconHaloColorExpression::decodes(v, *t),
            SymbolPaintLayerIconHaloColor::Literal(t) => !SymbolPaintLayerIconHaloColorExpression::accepts(v) && JsonValue::accepts(v) && JsonValue::decodes(v, t),
        }
    }

    open spec fn rejection(v: Json) -> Seq<char> {
        "SymbolPaintLayerIconHaloColor: no variant matched. Expected Expr(SymbolPaintLayerIconHaloColorExpression) | Literal(serde_json::Value). Errors: ["@ + "Expr: "@ + SymbolPaintLayerIconHaloColorExpression::rejection(v) + "; Literal: "@ + JsonValue::rejection(v) + "]"@
    }

    fn decode(v: &JsonValue) -> (r: Result<Self, String>) {
        let e0 = match SymbolPaintLayerIconHaloColorExpression::decode(v) {
            Ok(x) => {
                return Ok(SymbolPaintLayerIconHaloColor::Expr(Box::new(x)));
            },
            Err(e) => e,
        };
        let e1 = match JsonValue::decode(v) {
            Ok(x) => {
                return Ok(SymbolPaintLayerIconHaloColor::Literal(x));
            },
            Err(e) => e,
        };
        let mut m = "SymbolPaintLayerIconHaloColor: no variant matched. Expected Expr(SymbolPaintLayerIconHaloColorExpression) | Literal(serde_json::Value). Errors: [".to_string();
        m.append("Expr: ");
        m.append(e0.as_str());
        m.append("; Literal: ");
        m.append(e1.as_str());
        m.append("]");
        Err(m)
    }
}

impl JsonEncode for SymbolPaintLayerIconHaloColor {
    open spec fn to_json(self) -> Json {
        match self {
            SymbolPaintLayerIconHaloColor::Expr(t) => SymbolPaintLayerIconHaloColorExpression::to_json(*t),
            SymbolPaintLayerIconHaloColor::Literal(t) => JsonValue::to_json(t),
        }
    }

    open spec fn round_trips(self) -> bool {
        match self {
            SymbolPaintLayerIconHaloColor::Expr(t) => SymbolPaintLayerIconHaloColorExpression::round_trips(*t),
            SymbolPaintLayerIconHaloColor::Literal(t) => JsonValue::round_trips(t) && !SymbolPaintLayerIconHaloColorExpression::accepts(JsonValue::to_json(t)),
        }
    }

    fn encode(&self) -> (r: JsonValue) {
        match self {
            SymbolPaintLayerIconHaloColor::Expr(t) => SymbolPaintLayerIconHaloColorExpression::encode(&**t),
            SymbolPaintLayerIconHaloColor::Literal(t) => JsonValue::encode(t),
        }
    }

    proof fn lemma_round_trip(self) {
        match self {
            SymbolPaintLayerIconHaloColor::Expr(t) => SymbolPaintLayerIconHaloColorExpression::lemma_round_trip(*t),
            SymbolPaintLayerIconHaloColor::Literal(t) => JsonValue::lemma_round_trip(t),
        }
    }
}

impl Default for SymbolPaintLayerIconHaloColor {
    fn default() -> (r: Self)
        ensures
            r.to_json() == Json::Str("rgba(0, 0, 0, 0)"@),
            r is Literal,
    {
        let r = SymbolPaintLayerIconHaloColor::Literal(JsonValue::String("rgba(0, 0, 0, 0)".to_string()));
        r
    }
}

/// Nested expression: ramp (`interpolate` / …) or regular [`Number`] operators.
#[derive(PartialEq, Debug, Clone)]
pub enum SymbolPaintLayerIconHaloWidthExpression {
    Number(Number),
    Ramp(NumberOrArrayOfNumberOrColorOrArrayOfColorOrProjection),
}

impl JsonDecode for SymbolPaintLayerIconHaloWidthExpression {
    open spec fn accepts(v: Json) -> bool {
        Number::accepts(v) || NumberOrArrayOfNumberOrColorOrArrayOfColorOrProjection::accepts(v)
    }

    open spec fn decodes(v: Json, x: Self) -> bool {
        match x {
            SymbolPaintLayerIconHaloWidthExpression::Number(t) => Number::accepts(v) && Number::decodes(v, t),
            SymbolPaintLayerIconHaloWidthExpression::Ramp(t) => !Number::accepts(v) && NumberOrArrayOfNumberOrColorOrArrayOfColorOrProjection::accepts(v) && NumberOrArrayOfNumberOrColorOrArrayOfColorOrProjection::decodes(v, t),
        }
    }

    open spec fn rejection(v: Json) -> Seq<char> {
        "SymbolPaintLayerIconHaloWidthExpression: no variant matched. Expected Number(Number) | Ramp(NumberOrArrayOfNumberOrColorOrArrayOfColorOrProjection). Errors: ["@ + "Number: "@ + Number::rejection(v) + "; Ramp: "@ + NumberOrArrayOfNumberOrColorOrArrayOfColorOrProjection::rejection(v) + "]"@
    }

    fn decode(v: &JsonValue) -> (r: Result<Self, String>) {
        let e0 = match Number::decode(v) {
            Ok(x) => {
                return Ok(SymbolPaintLayerIconHaloWidthExpression::Number(x));
            },
            Err(e) => e,
        };
        let e1 = match NumberOrArrayOfNumberOrColorOrArrayOfColorOrProjection::decode(v) {
            Ok(x) => {
                return Ok(SymbolPaintLayerIconHaloWidthExpression::Ramp(x));
            },
            Err(e) => e,
        };
        let mut m = "SymbolPaintLayerIconHaloWidthExpression: no variant matched. Expected Number(Number) | Ramp(NumberOrArrayOfNumberOrColorOrArrayOfColorOrProjection). Errors: [".to_string();
        m.append("Number: ");
        m.append(e0.as_str());
        m.append("; Ramp: ");
        m.append(e1.as_str());
        m.append("]");
        Err(m)
    }
}

impl JsonEncode for SymbolPaintLayerIconHaloWidthExpression {
    open spec fn to_json(self) -> Json {
        match self {
            SymbolPaintLayerIconHaloWidthExpression::Number(t) => Number::to_json(t),
            SymbolPaintLayerIconHaloWidthExpression::Ramp(t) => NumberOrArrayOfNumberOrColorOrArrayOfColorOrProjection::to_json(t),
        }
    }

    open spec fn round_trips(self) -> bool {
        match self {
            SymbolPaintLayerIconHaloWidthExpression::Number(t) => Number::round_trips(t),
            SymbolPaintLayerIconHaloWidthExpression::Ramp(t) => NumberOrArrayOfNumberOrColorOrArrayOfColorOrProjection::round_trips(t) && !Number::accepts(NumberOrArrayOfNumberOrColorOrArrayOfColorOrProjection::to_json(t)),
        }
    }

    fn encode(&self) -> (r: JsonValue) {
        match self {
            SymbolPaintLayerIconHaloWidthExpression::Number(t) => Number::encode(t),
            SymbolPaintLayerIconHaloWidthExpression::Ramp(t) => NumberOrArrayOfNumberOrColorOrArrayOfColorOrProjection::encode(t),
        }
    }

    proof fn lemma_round_trip(self) {
        match self {
            SymbolPaintLayerIconHaloWidthExpression::Number(t) => Number::lemma_round_trip(t),
            SymbolPaintLayerIconHaloWidthExpression::Ramp(t) => NumberOrArrayOfNumberOrColorOrArrayOfColorOrProjection::lemma_round_trip(t),
        }
    }
}

/// Distance of halo to the icon outline.
///
/// The unit is in pixels only for SDF sprites that were created with a blur radius of 8, multiplied by the display density. I.e., the radius needs to be 16 for `@2x` sprites, etc.
#[derive(PartialEq, Debug, Clone)]
pub enum SymbolPaintLayerIconHaloWidth {
    Expr(Box<SymbolPaintLayerIconHaloWidthExpression>),
    Literal(JsonNumber),
}

impl JsonDecode for SymbolPaintLayerIconHaloWidth {
    open spec fn accepts(v: Json) -> bool {
        SymbolPaintLayerIconHaloWidthExpression::accepts(v) || JsonNumber::accepts(v)
    }

    open spec fn decodes(v: Json, x: Self) -> bool {
        match x {
            SymbolPaintLayerIconHaloWidth::Expr(t) => SymbolPaintLayerIconHaloWidthExpression::accepts(v) && SymbolPaintLayerIconHaloWidthExpression::decodes(v, *t),
            SymbolPaintLayerIconHaloWidth::Literal(t) => !SymbolPaintLayerIconHaloWidthExpression::accepts(v) && JsonNumber::accepts(v) && JsonNumber::decodes(v, t),
        }
    }

    open spec fn rejection(v: Json) -> Seq<char> {
        "SymbolPaintLayerIconHaloWidth: no variant matched. Expected Expr(SymbolPaintLayerIconHaloWidthExpression) | Literal(serde_json::Number). Errors: ["@ + "Expr: "@ + SymbolPaintLayerIconHaloWidthExpression::rejection(v) + "; Literal: "@ + JsonNumber::rejection(v) + "]"@
    }

    fn decode(v: &JsonValue) -> (r: Result<Self, String>) {
        let e0 = match SymbolPaintLayerIconHaloWidthExpression::decode(v) {
            Ok(x) => {
                return Ok(SymbolPaintLayerIconHaloWidth::Expr(Box::new(x)));
            },
            Err(e) => e,
        };
        let e1 = match JsonNumber::decode(v) {
            Ok(x) => {
                return Ok(SymbolPaintLayerIconHaloWidth::Literal(x));
            },
            Err(e) => e,
        };
        let mut m = "SymbolPaintLayerIconHaloWidth: no variant matched. Expected Expr(SymbolPaintLayerIconHaloWidthExpression) | Literal(serde_json::Number). Errors: [".to_string();
        m.append("Expr: ");
        m.append(e0.as_str());
        m.append("; Literal: ");
        m.append(e1.as_str());
        m.append("]");
        Err(m)
    }
}

impl JsonEncode for SymbolPaintLayerIconHaloWidth {
    open spec fn to_json(self) -> Json {
        match self {
            SymbolPaintLayerIconHaloWidth::Expr(t) => SymbolPaintLayerIconHaloWidthExpression::to_json(*t),
            SymbolPaintLayerIconHaloWidth::Literal(t) => JsonNumber::to_json(t),
        }
    }

    open spec fn round_trips(self) -> bool {
        match self {
            SymbolPaintLayerIconHaloWidth::Expr(t) => SymbolPaintLayerIconHaloWidthExpression::round_trips(*t),
            SymbolPaintLayerIconHaloWidth::Literal(t) => JsonNumber::round_trips(t) && !SymbolPaintLayerIconHaloWidthExpression::accepts(JsonNumber::to_json(t)),
        }
    }

    fn encode(&self) -> (r: JsonValue) {
        match self {
            SymbolPaintLayerIconHaloWidth::Expr(t) => SymbolPaintLayerIconHaloWidthExpression::encode(&**t),
            SymbolPaintLayerIconHaloWidth::Literal(t) => JsonNumber::encode(t),
        }
    }

    proof fn lemma_round_trip(self) {
        match self {
            SymbolPaintLayerIconHaloWidth::Expr(t) => SymbolPaintLayerIconHaloWidthExpression::lemma_round_trip(*t),
            SymbolPaintLayerIconHaloWidth::Literal(t) => JsonNumber::lemma_round_trip(t),
        }
    }
}

impl Default for SymbolPaintLayerIconHaloWidth {
    fn default() -> (r: Self)
        ensures
            r.to_json() == Json::Number("0"@),
            r is Literal,
    {
        let r = SymbolPaintLayerIconHaloWidth::Literal(JsonNumber::from_literal("0"));
        r
    }
}

/// Nested expression: ramp (`interpolate` / …) or regular [`Number`] operators.
#[derive(PartialEq, Debug, Clone)]
pub enum SymbolPaintLayerIconOpacityExpression {
    Number(Number),
    Ramp(NumberOrArrayOfNumberOrColorOrArrayOfColorOrProjection),
}

impl JsonDecode for SymbolPaintLayerIconOpacityExpression {
    open spec fn accepts(v: Json) -> bool {
        Number::accepts(v) || NumberOrArrayOfNumberOrColorOrArrayOfColorOrProjection::accepts(v)
    }

    open spec fn decodes(v: Json, x: Self) -> bool {
        match x {
            SymbolPaintLayerIconOpacityExpression::Number(t) => Number::accepts(v) && Number::decodes(v, t),
            SymbolPaintLayerIconOpacityExpression::Ramp(t) => !Number::accepts(v) && NumberOrArrayOfNumberOrColorOrArrayOfColorOrProjection::accepts(v) && NumberOrArrayOfNumberOrColorOrArrayOfColorOrProjection::decodes(v, t),
        }
    }

    open spec fn rejection(v: Json) -> Seq<char> {
        "SymbolPaintLayerIconOpacityExpression: no variant matched. Expected Number(Number) | Ramp(NumberOrArrayOfNumberOrColorOrArrayOfColorOrProjection). Errors: ["@ + "Number: "@ + Number::rejection(v) + "; Ramp: "@ + NumberOrArrayOfNumberOrColorOrArrayOfColorOrProjection::rejection(v) + "]"@
    }

    fn decode(v: &JsonValue) -> (r: Result<Self, String>) {
        let e0 = match Number::decode(v) {
            Ok(x) => {
                return Ok(SymbolPaintLayerIconOpacityExpression::Number(x));
            },
            Err(e) => e,
        };
        let e1 = match NumberOrArrayOfNumberOrColorOrArrayOfColorOrProjection::decode(v) {
            Ok(x) => {
                return Ok(SymbolPaintLayerIconOpacityExpression::Ramp(x));
            },
            Err(e) => e,
        };
        let mut m = "SymbolPaintLayerIconOpacityExpression: no variant matched. Expected Number(Number) | Ramp(NumberOrArrayOfNumberOrColorOrArrayOfColorOrProjection). Errors: [".to_string();
        m.append("Number: ");
        m.append(e0.as_str());
        m.append("; Ramp: ");
        m.append(e1.as_str());
        m.append("]");
        Err(m)
    }
}

impl JsonEncode for SymbolPaintLayerIconOpacityExpression {
    open spec fn to_json(self) -> Json {
        match self {
            SymbolPaintLayerIconOpacityExpression::Number(t) => Number::to_json(t),
            SymbolPaintLayerIconOpacityExpression::Ramp(t) => NumberOrArrayOfNumberOrColorOrArrayOfColorOrProjection::to_json(t),
        }
    }

    open spec fn round_trips(self) -> bool {
        match self {
            SymbolPaintLayerIconOpacityExpression::Number(t) => Number::round_trips(t),
            SymbolPaintLayerIconOpacityExpression::Ramp(t) => NumberOrArrayOfNumberOrColorOrArrayOfColorOrProjection::round_trips(t) && !Number::accepts(NumberOrArrayOfNumberOrColorOrArrayOfColorOrProjection::to_json(t)),
        }
    }

    fn encode(&self) -> (r: JsonValue) {
        match self {
            SymbolPaintLayerIconOpacityExpression::Number(t) => Number::encode(t),
            SymbolPaintLayerIconOpacityExpression::Ramp(t) => NumberOrArrayOfNumberOrColorOrArrayOfColorOrProjection::encode(t),
        }
    }

    proof fn lemma_round_trip(self) {
        match self {
            SymbolPaintLayerIconOpacityExpression::Number(t) => Number::lemma_round_trip(t),
            SymbolPaintLayerIconOpacityExpression::Ramp(t) => NumberOrArrayOfNumberOrColorOrArrayOfColorOrProjection::lemma_round_trip(t),
        }
    }
}

/// The opacity at which the icon will be drawn.
#[derive(PartialEq, Debug, Clone)]
pub enum SymbolPaintLayerIconOpacity {
    Expr(Box<SymbolPaintLayerIconOpacityExpression>),
    Literal(JsonNumber),
}

impl JsonDecode for SymbolPaintLayerIconOpacity {
    open spec fn accepts(v: Json) -> bool {
        SymbolPaintLayerIconOpacityExpression::accepts(v) || JsonNumber::accepts(v)
    }

    open spec fn decodes(v: Json, x: Self) -> bool {
        match x {
            SymbolPaintLayerIconOpacity::Expr(t) => SymbolPaintLayerIconOpacityExpression::accepts(v) && SymbolPaintLayerIconOpacityExpression::decodes(v, *t),
            SymbolPaintLayerIconOpacity::Literal(t) => !SymbolPaintLayerIconOpacityExpression::accepts(v) && JsonNumber::accepts(v) && JsonNumber::decodes(v, t),
        }
    }

    open spec fn rejection(v: Json) -> Seq<char> {
        "SymbolPaintLayerIconOpacity: no variant matched. Expected Expr(SymbolPaintLayerIconOpacityExpression) | Literal(serde_json::Number). Errors: ["@ + "Expr: "@ + SymbolPaintLayerIconOpacityExpression::rejection(v) + "; Literal: "@ + JsonNumber::rejection(v) + "]"@
    }

    fn decode(v: &JsonValue) -> (r: Result<Self, String>) {
        let e0 = match SymbolPaintLayerIconOpacityExpression::decode(v) {
            Ok(x) => {
                return Ok(SymbolPaintLayerIconOpacity::Expr(Box::new(x)));
            },
            Err(e) => e,
        };
        let e1 = match JsonNumber::decode(v) {
            Ok(x) => {
                return Ok(SymbolPaintLayerIconOpacity::Literal(x));
            },
            Err(e) => e,
        };
        let mut m = "SymbolPaintLayerIconOpacity: no variant matched. Expected Expr(SymbolPaintLayerIconOpacityExpression) | Literal(serde_json::Number). Errors: [".to_string();
        m.append("Expr: ");
        m.append(e0.as_str());
        m.append("; Literal: ");
        m.append(e1.as_str());
        m.append("]");
        Err(m)
    }
}

impl JsonEncode for SymbolPaintLayerIconOpacity {
    open spec fn to_json(self) -> Json {
        match self {
            SymbolPaintLayerIconOpacity::Expr(t) => SymbolPaintLayerIconOpacityExpression::to_json(*t),
            SymbolPaintLayerIconOpacity::Literal(t) => JsonNumber::to_json(t),
        }
    }

    open spec fn round_trips(self) -> bool {
        match self {
            SymbolPaintLayerIconOpacity::Expr(t) => SymbolPaintLayerIconOpacityExpression::round_trips(*t),
            SymbolPaintLayerIconOpacity::Literal(t) => JsonNumber::round_trips(t) && !SymbolPaintLayerIconOpacityExpression::accepts(JsonNumber::to_json(t)),
        }
    }

    fn encode(&self) -> (r: JsonValue) {
        match self {
            SymbolPaintLayerIconOpacity::Expr(t) => SymbolPaintLayerIconOpacityExpression::encode(&**t),
            SymbolPaintLayerIconOpacity::Literal(t) => JsonNumber::encode(t),
        }
    }

    proof fn lemma_round_trip(self) {
        match self {
            SymbolPaintLayerIconOpacity::Expr(t) => SymbolPaintLayerIconOpacityExpression::lemma_round_trip(*t),
            SymbolPaintLayerIconOpacity::Literal(t) => JsonNumber::lemma_round_trip(t),
        }
    }
}

impl Default for SymbolPaintLayerIconOpacity {
    fn default() -> (r: Self)
        ensures
            r.to_json() == Json::Number("1"@),
            r is Literal,
    {
        let r = SymbolPaintLayerIconOpacity::Literal(JsonNumber::from_literal("1"));
        r
    }
}

/// Distance that the icon's anchor is moved from its original placement. Positive values indicate right and down, while negative values indicate left and up.
#[derive(PartialEq, Debug, Clone)]
pub struct SymbolPaintLayerIconTranslate(Box<[JsonNumber; 2]>);

impl JsonDecode for SymbolPaintLayerIconTranslate {
    closed spec fn accepts(v: Json) -> bool {
        <[JsonNumber; 2] as JsonDecode>::accepts(v)
    }

    closed spec fn decodes(v: Json, x: Self) -> bool {
        <[JsonNumber; 2] as JsonDecode>::decodes(v, *x.0)
    }

    closed spec fn rejection(v: Json) -> Seq<char> {
        <[JsonNumber; 2] as JsonDecode>::rejection(v)
    }

    fn decode(v: &JsonValue) -> (r: Result<Self, String>) {
        match <[JsonNumber; 2] as JsonDecode>::decode(v) {
            Ok(x) => Ok(SymbolPaintLayerIconTranslate(Box::new(x))),
            Err(e) => Err(e),
        }
    }
}

impl JsonEncode for SymbolPaintLayerIconTranslate {
    closed spec fn to_json(self) -> Json {
        <[JsonNumber; 2] as JsonEncode>::to_json((*self.0))
    }

    closed spec fn round_trips(self) -> bool {
        <[JsonNumber; 2] as JsonEncode>::round_trips((*self.0))
    }

    fn encode(&self) -> (r: JsonValue) {
        <[JsonNumber; 2] as JsonEncode>::encode(&(*self.0))
    }

    proof fn lemma_round_trip(self) {
        <[JsonNumber; 2] as JsonEncode>::lemma_round_trip((*self.0));
    }
}

impl Default for SymbolPaintLayerIconTranslate {
    fn default() -> (r: Self)
        ensures
            r.to_json() == Json::Array(seq![Json::Number("0"@), Json::Number("0"@)]),
    {
        let r = SymbolPaintLayerIconTranslate(Box::new([JsonNumber::from_literal("0"), JsonNumber::from_literal("0")]));
        proof {
            assert(r.to_json() =~~= Json::Array(seq![Json::Number("0"@), Json::Number("0"@)]));
        }
        r
    }
}

/// Controls the frame of reference for `icon-translate`.
#[derive(PartialEq, Eq, Debug, Clone, Copy)]
pub enum SymbolPaintLayerIconTranslateAnchor {
    MapValue,
    Viewport,
}

impl SymbolPaintLayerIconTranslateAnchor {
    /// The name that stands for the value in a style document.
    pub open spec fn spec_name(self) -> Seq<char> {
        match self {
            SymbolPaintLayerIconTranslateAnchor::MapValue => "map"@,
            SymbolPaintLayerIconTranslateAnchor::Viewport => "viewport"@,
        }
    }

    /// The name that stands for the value in a style document.
    pub fn name(&self) -> (r: &'static str)
        ensures
            r@ == self.spec_name(),
    {
        match self {
            SymbolPaintLayerIconTranslateAnchor::MapValue => "map",
            SymbolPaintLayerIconTranslateAnchor::Viewport => "viewport",
        }
    }

    /// The value that a name stands for, if any.
    pub fn from_name(s: &str) -> (r: Option<SymbolPaintLayerIconTranslateAnchor>)
        ensures
            r matches Some(x) ==> x.spec_name() == s@,
            r is None ==> forall|x: SymbolPaintLayerIconTranslateAnchor| x.spec_name() != s@,
    {
        if str_eq(s, "map") {
            Some(SymbolPaintLayerIconTranslateAnchor::MapValue)
        } else if str_eq(s, "viewport") {
            Some(SymbolPaintLayerIconTranslateAnchor::Viewport)
        } else {
            None
        }
    }
}

impl SymbolPaintLayerIconTranslateAnchor {
    /// Each value is read from, and written as, the name that the style specification gives
    /// it, and a document holding one of these names reads as that value and no other.
    pub proof fn lemma_read_by_name()
        ensures
            <SymbolPaintLayerIconTranslateAnchor as JsonEncode>::to_json(SymbolPaintLayerIconTranslateAnchor::Viewport) == Json::Str("viewport"@),
            <SymbolPaintLayerIconTranslateAnchor as JsonEncode>::to_json(SymbolPaintLayerIconTranslateAnchor::MapValue) == Json::Str("map"@),
            forall|x: SymbolPaintLayerIconTranslateAnchor| <SymbolPaintLayerIconTranslateAnchor as JsonDecode>::decodes(Json::Str("map"@), x) <==> x == SymbolPaintLayerIconTranslateAnchor::MapValue,
            forall|x: SymbolPaintLayerIconTranslateAnchor| <SymbolPaintLayerIconTranslateAnchor as JsonDecode>::decodes(Json::Str("viewport"@), x) <==> x == SymbolPaintLayerIconTranslateAnchor::Viewport,
    {
        reveal_strlit("viewport");
        reveal_strlit("map");
        assert("map"@.len() != "viewport"@.len());
    }
}

impl JsonDecode for SymbolPaintLayerIconTranslateAnchor {
    /// The name of a value, or an object whose one entry has the name as its key and `null`.
    open spec fn accepts(v: Json) -> bool {
        ||| (v is Str && exists|x: SymbolPaintLayerIconTranslateAnchor| x.spec_name() == v->Str_0)
        ||| (v is Object && v->Object_0.len() == 1 && v->Object_0[0].1 is Null && exists|x: SymbolPaintLayerIconTranslateAnchor| x.spec_name() == v->Object_0[0].0)
    }

    open spec fn decodes(v: Json, x: Self) -> bool {
        ||| v == Json::Str(x.spec_name())
        ||| (v is Object && v->Object_0.len() == 1 && v->Object_0[0] == (x.spec_name(), Json::Null))
    }

    open spec fn rejection(v: Json) -> Seq<char> {
        if v is Str {
            unknown_variant(v->Str_0) + ", expected `map` or `viewport`"@
        } else if v is Object {
            let o = v->Object_0;
            if o.len() != 1 {
                "invalid value: map, expected map with a single key"@
            } else if !(exists|x: SymbolPaintLayerIconTranslateAnchor| x.spec_name() == o[0].0) {
                unknown_variant(o[0].0) + ", expected `map` or `viewport`"@
            } else {
                type_error(o[0].1, "unit"@)
            }
        } else {
            type_error(v, "string or map"@)
        }
    }

    fn decode(v: &JsonValue) -> (r: Result<Self, String>) {
        match v {
            JsonValue::String(s) => match Self::from_name(s.as_str()) {
                Some(x) => Ok(x),
                None => {
                    let mut m = make_unknown_variant(s.as_str());
                    m.append(", expected `map` or `viewport`");
                    Err(m)
                },
            },
            JsonValue::Object(fields) => {
                if fields.len() != 1 {
                    return Err("invalid value: map, expected map with a single key".to_string());
                }
                proof {
                    assert(entries_model(*fields)[0] == (fields@[0].0@, fields@[0].1.model()));
                }
                match Self::from_name(fields[0].0.as_str()) {
                    Some(x) => match &fields[0].1 {
                        JsonValue::Null => Ok(x),
                        _ => Err(make_type_error(&fields[0].1, "unit")),
                    },
                    None => {
                        let mut m = make_unknown_variant(fields[0].0.as_str());
                        m.append(", expected `map` or `viewport`");
                        Err(m)
                    },
                }
            },
            _ => Err(make_type_error(v, "string or map")),
        }
    }
}

impl JsonEncode for SymbolPaintLayerIconTranslateAnchor {
    open spec fn to_json(self) -> Json {
        Json::Str(self.spec_name())
    }

    open spec fn round_trips(self) -> bool {
        true
    }

    fn encode(&self) -> (r: JsonValue) {
        JsonValue::String(self.name().to_string())
    }

    proof fn lemma_round_trip(self) {
    }
}

impl Default for SymbolPaintLayerIconTranslateAnchor {
    fn default() -> (r: Self)
        ensures
            r == SymbolPaintLayerIconTranslateAnchor::MapValue,
    {
        SymbolPaintLayerIconTranslateAnchor::MapValue
    }
}

/// Nested expression: ramp (`interpolate-hcl`, …) or [`Color`] operators.
#[derive(PartialEq, Debug, Clone)]
pub enum SymbolPaintLayerTextColorExpression {
    Color(Color),
    Ramp(ColorOrArrayOfColor),
}

impl JsonDecode for SymbolPaintLayerTextColorExpression {
    open spec fn accepts(v: Json) -> bool {
        Color::accepts(v) || ColorOrArrayOfColor::accepts(v)
    }

    open spec fn decodes(v: Json, x: Self) -> bool {
        match x {
            SymbolPaintLayerTextColorExpression::Color(t) => Color::accepts(v) && Color::decodes(v, t),
            SymbolPaintLayerTextColorExpression::Ramp(t) => !Color::accepts(v) && ColorOrArrayOfColor::accepts(v) && ColorOrArrayOfColor::decodes(v, t),
        }
    }

    open spec fn rejection(v: Json) -> Seq<char> {
        "SymbolPaintLayerTextColorExpression: no variant matched. Expected Color(Color) | Ramp(ColorOrArrayOfColor). Errors: ["@ + "Color: "@ + Color::rejection(v) + "; Ramp: "@ + ColorOrArrayOfColor::rejection(v) + "]"@
    }

    fn decode(v: &JsonValue) -> (r: Result<Self, String>) {
        let e0 = match Color::decode(v) {
            Ok(x) => {
                return Ok(SymbolPaintLayerTextColorExpression::Color(x));
            },
            Err(e) => e,
        };
        let e1 = match ColorOrArrayOfColor::decode(v) {
            Ok(x) => {
                return Ok(SymbolPaintLayerTextColorExpression::Ramp(x));
            },
            Err(e) => e,
        };
        let mut m = "SymbolPaintLayerTextColorExpression: no variant matched. Expected Color(Color) | Ramp(ColorOrArrayOfColor). Errors: [".to_string();
        m.append("Color: ");
        m.append(e0.as_str());
        m.append("; Ramp: ");
        m.append(e1.as_str());
        m.append("]");
        Err(m)
    }
}

impl JsonEncode for SymbolPaintLayerTextColorExpression {
    open spec fn to_json(self) -> Json {
        match self {
            SymbolPaintLayerTextColorExpression::Color(t) => Color::to_json(t),
            SymbolPaintLayerTextColorExpression::Ramp(t) => ColorOrArrayOfColor::to_json(t),
        }
    }

    open spec fn round_trips(self) -> bool {
        match self {
            SymbolPaintLayerTextColorExpression::Color(t) => Color::round_trips(t),
            SymbolPaintLayerTextColorExpression::Ramp(t) => ColorOrArrayOfColor::round_trips(t) && !Color::accepts(ColorOrArrayOfColor::to_json(t)),
        }
    }

    fn encode(&self) -> (r: JsonValue) {
        match self {
            SymbolPaintLayerTextColorExpression::Color(t) => Color::encode(t),
            SymbolPaintLayerTextColorExpression::Ramp(t) => ColorOrArrayOfColor::encode(t),
        }
    }

    proof fn lemma_round_trip(self) {
        match self {
            SymbolPaintLayerTextColorExpression::Color(t) => Color::lemma_round_trip(t),
            SymbolPaintLayerTextColorExpression::Ramp(t) => ColorOrArrayOfColor::lemma_round_trip(t),
        }
    }
}

/// The color with which the text will be drawn.
#[derive(PartialEq, Debug, Clone)]
pub enum SymbolPaintLayerTextColor {
    Expr(Box<SymbolPaintLayerTextColorExpression>),
    Literal(JsonValue),
}

impl JsonDecode for SymbolPaintLayerTextColor {
    open spec fn accepts(v: Json) -> bool {
        SymbolPaintLayerTextColorExpression::accepts(v) || JsonValue::accepts(v)
    }

    open spec fn decodes(v: Json, x: Self) -> bool {
        match x {
            SymbolPaintLayerTextColor::Expr(t) => SymbolPaintLayerTextColorExpression::accepts(v) && SymbolPaintLayerTextColorExpression::decodes(v, *t),
            SymbolPaintLayerTextColor::Literal(t) => !SymbolPaintLayerTextColorExpression::accepts(v) && JsonValue::accepts(v) && JsonValue::decodes(v, t),
        }
    }

    open spec fn rejection(v: Json) -> Seq<char> {
        "SymbolPaintLayerTextColor: no variant matched. Expected Expr(SymbolPaintLayerTextColorExpression) | Literal(serde_json::Value). Errors: ["@ + "Expr: "@ + SymbolPaintLayerTextColorExpression::rejection(v) + "; Literal: "@ + JsonValue::rejection(v) + "]"@
    }

    fn decode(v: &JsonValue) -> (r: Result<Self, String>) {
        let e0 = match SymbolPaintLayerTextColorExpression::decode(v) {
            Ok(x) => {
                return Ok(SymbolPaintLayerTextColor::Expr(Box::new(x)));
            },
            Err(e) => e,
        };
        let e1 = match JsonValue::decode(v) {
            Ok(x) => {
                return Ok(SymbolPaintLayerTextColor::Literal(x));
            },
            Err(e) => e,
        };
        let mut m = "SymbolPaintLayerTextColor: no variant matched. Expected Expr(SymbolPaintLayerTextColorExpression) | Literal(serde_json::Value). Errors: [".to_string();
        m.append("Expr: ");
        m.append(e0.as_str());
        m.append("; Literal: ");
        m.append(e1.as_str());
        m.append("]");
        Err(m)
    }
}

impl JsonEncode for SymbolPaintLayerTextColor {
    open spec fn to_json(self) -> Json {
        match self {
            SymbolPaintLayerTextColor::Expr(t) => SymbolPaintLayerTextColorExpression::to_json(*t),
            SymbolPaintLayerTextColor::Literal(t) => JsonValue::to_json(t),
        }
    }

    open spec fn round_trips(self) -> bool {
        match self {
            SymbolPaintLayerTextColor::Expr(t) => SymbolPaintLayerTextColorExpression::round_trips(*t),
            SymbolPaintLayerTextColor::Literal(t) => JsonValue::round_trips(t) && !SymbolPaintLayerTextColorExpression::accepts(JsonValue::to_json(t)),
        }
    }

    fn encode(&self) -> (r: JsonValue) {
        match self {
            SymbolPaintLayerTextColor::Expr(t) => SymbolPaintLayerTextColorExpression::encode(&**t),
            SymbolPaintLayerTextColor::Literal(t) => JsonValue::encode(t),
        }
    }

    proof fn lemma_round_trip(self) {
        match self {
            SymbolPaintLayerTextColor::Expr(t) => SymbolPaintLayerTextColorExpression::lemma_round_trip(*t),
            SymbolPaintLayerTextColor::Literal(t) => JsonValue::lemma_round_trip(t),
        }
    }
}

impl Default for SymbolPaintLayerTextColor {
    fn default() -> (r: Self)
        ensures
            r.to_json() == Json::Str("#000000"@),
            r is Literal,
    {
        let r = SymbolPaintLayerTextColor::Literal(JsonValue::String("#000000".to_string()));
        r
    }
}

/// Nested expression: ramp (`interpolate` / …) or regular [`Number`] operators.
#[derive(PartialEq, Debug, Clone)]
pub enum SymbolPaintLayerTextHaloBlurExpression {
    Number(Number),
    Ramp(NumberOrArrayOfNumberOrColorOrArrayOfColorOrProjection),
}

impl JsonDecode for SymbolPaintLayerTextHaloBlurExpression {
    open spec fn accepts(v: Json) -> bool {
        Number::accepts(v) || NumberOrArrayOfNumberOrColorOrArrayOfColorOrProjection::accepts(v)
    }

    open spec fn decodes(v: Json, x: Self) -> bool {
        match x {
            SymbolPaintLayerTextHaloBlurExpression::Number(t) => Number::accepts(v) && Number::decodes(v, t),
            SymbolPaintLayerTextHaloBlurExpression::Ramp(t) => !Number::accepts(v) && NumberOrArrayOfNumberOrColorOrArrayOfColorOrProjection::accepts(v) && NumberOrArrayOfNumberOrColorOrArrayOfColorOrProjection::decodes(v, t),
        }
    }

    open spec fn rejection(v: Json) -> Seq<char> {
        "SymbolPaintLayerTextHaloBlurExpression: no variant matched. Expected Number(Number) | Ramp(NumberOrArrayOfNumberOrColorOrArrayOfColorOrProjection). Errors: ["@ + "Number: "@ + Number::rejection(v) + "; Ramp: "@ + NumberOrArrayOfNumberOrColorOrArrayOfColorOrProjection::rejection(v) + "]"@
    }

    fn decode(v: &JsonValue) -> (r: Result<Self, String>) {
        let e0 = match Number::decode(v) {
            Ok(x) => {
                return Ok(SymbolPaintLayerTextHaloBlurExpression::Number(x));
            },
            Err(e) => e,
        };
        let e1 = match NumberOrArrayOfNumberOrColorOrArrayOfColorOrProjection::decode(v) {
            Ok(x) => {
                return Ok(SymbolPaintLayerTextHaloBlurExpression::Ramp(x));
            },
            Err(e) => e,
        };
        let mut m = "SymbolPaintLayerTextHaloBlurExpression: no variant matched. Expected Number(Number) | Ramp(NumberOrArrayOfNumberOrColorOrArrayOfColorOrProjection). Errors: [".to_string();
        m.append("Number: ");
        m.append(e0.as_str());
        m.append("; Ramp: ");
        m.append(e1.as_str());
        m.append("]");
        Err(m)
    }
}

impl JsonEncode for SymbolPaintLayerTextHaloBlurExpression {
    open spec fn to_json(self) -> Json {
        match self {
            SymbolPaintLayerTextHaloBlurExpression::Number(t) => Number::to_json(t),
            SymbolPaintLayerTextHaloBlurExpression::Ramp(t) => NumberOrArrayOfNumberOrColorOrArrayOfColorOrProjection::to_json(t),
        }
    }

    open spec fn round_trips(self) -> bool {
        match self {
            SymbolPaintLayerTextHaloBlurExpression::Number(t) => Number::round_trips(t),
            SymbolPaintLayerTextHaloBlurExpression::Ramp(t) => NumberOrArrayOfNumberOrColorOrArrayOfColorOrProjection::round_trips(t) && !Number::accepts(NumberOrArrayOfNumberOrColorOrArrayOfColorOrProjection::to_json(t)),
        }
    }

    fn encode(&self) -> (r: JsonValue) {
        match self {
            SymbolPaintLayerTextHaloBlurExpression::Number(t) => Number::encode(t),
            SymbolPaintLayerTextHaloBlurExpression::Ramp(t) => NumberOrArrayOfNumberOrColorOrArrayOfColorOrProjection::encode(t),
        }
    }

    proof fn lemma_round_trip(self) {
        match self {
            SymbolPaintLayerTextHaloBlurExpression::Number(t) => Number::lemma_round_trip(t),
            SymbolPaintLayerTextHaloBlurExpression::Ramp(t) => NumberOrArrayOfNumberOrColorOrArrayOfColorOrProjection::lemma_round_trip(t),
        }
    }
}

/// The halo's fadeout distance towards the outside.
#[derive(PartialEq, Debug, Clone)]
pub enum SymbolPaintLayerTextHaloBlur {
    Expr(Box<SymbolPaintLayerTextHaloBlurExpression>),
    Literal(JsonNumber),
}

impl JsonDecode for SymbolPaintLayerTextHaloBlur {
    open spec fn accepts(v: Json) -> bool {
        SymbolPaintLayerTextHaloBlurExpression::accepts(v) || JsonNumber::accepts(v)
    }

    open spec fn decodes(v: Json, x: Self) -> bool {
        match x {
            SymbolPaintLayerTextHaloBlur::Expr(t) => SymbolPaintLayerTextHaloBlurExpression::accepts(v) && SymbolPaintLayerTextHaloBlurExpression::decodes(v, *t),
            SymbolPaintLayerTextHaloBlur::Literal(t) => !SymbolPaintLayerTextHaloBlurExpression::accepts(v) && JsonNumber::accepts(v) && JsonNumber::decodes(v, t),
        }
    }

    open spec fn rejection(v: Json) -> Seq<char> {
        "SymbolPaintLayerTextHaloBlur: no variant matched. Expected Expr(SymbolPaintLayerTextHaloBlurExpression) | Literal(serde_json::Number). Errors: ["@ + "Expr: "@ + SymbolPaintLayerTextHaloBlurExpression::rejection(v) + "; Literal: "@ + JsonNumber::rejection(v) + "]"@
    }

    fn decode(v: &JsonValue) -> (r: Result<Self, String>) {
        let e0 = match SymbolPaintLayerTextHaloBlurExpression::decode(v) {
            Ok(x) => {
                return Ok(SymbolPaintLayerTextHaloBlur::Expr(Box::new(x)));
            },
            Err(e) => e,
        };
        let e1 = match JsonNumber::decode(v) {
            Ok(x) => {
                return Ok(SymbolPaintLayerTextHaloBlur::Literal(x));
            },
            Err(e) => e,
        };
        let mut m = "SymbolPaintLayerTextHaloBlur: no variant matched. Expected Expr(SymbolPaintLayerTextHaloBlurExpression) | Literal(serde_json::Number). Errors: [".to_string();
        m.append("Expr: ");
        m.append(e0.as_str());
        m.append("; Literal: ");
        m.append(e1.as_str());
        m.append("]");
        Err(m)
    }
}

impl JsonEncode for SymbolPaintLayerTextHaloBlur {
    open spec fn to_json(self) -> Json {
        match self {
            SymbolPaintLayerTextHaloBlur::Expr(t) => SymbolPaintLayerTextHaloBlurExpression::to_json(*t),
            SymbolPaintLayerTextHaloBlur::Literal(t) => JsonNumber::to_json(t),
        }
    }

    open spec fn round_trips(self) -> bool {
        match self {
            SymbolPaintLayerTextHaloBlur::Expr(t) => SymbolPaintLayerTextHaloBlurExpression::round_trips(*t),
            SymbolPaintLayerTextHaloBlur::Literal(t) => JsonNumber::round_trips(t) && !SymbolPaintLayerTextHaloBlurExpression::accepts(JsonNumber::to_json(t)),
        }
    }

    fn encode(&self) -> (r: JsonValue) {
        match self {
            SymbolPaintLayerTextHaloBlur::Expr(t) => SymbolPaintLayerTextHaloBlurExpression::encode(&**t),
            SymbolPaintLayerTextHaloBlur::Literal(t) => JsonNumber::encode(t),
        }
    }

    proof fn lemma_round_trip(self) {
        match self {
            SymbolPaintLayerTextHaloBlur::Expr(t) => SymbolPaintLayerTextHaloBlurExpression::lemma_round_trip(*t),
            SymbolPaintLayerTextHaloBlur::Literal(t) => JsonNumber::lemma_round_trip(t),
        }
    }
}

impl Default for SymbolPaintLayerTextHaloBlur {
    fn default() -> (r: Self)
        ensures
            r.to_json() == Json::Number("0"@),
            r is Literal,
    {
        let r = SymbolPaintLayerTextHaloBlur::Literal(JsonNumber::from_literal("0"));
        r
    }
}

/// Nested expression: ramp (`interpolate-hcl`, …) or [`Color`] operators.
#[derive(PartialEq, Debug, Clone)]
pub enum SymbolPaintLayerTextHaloColorExpression {
    Color(Color),
    Ramp(ColorOrArrayOfColor),
}

impl JsonDecode for SymbolPaintLayerTextHaloColorExpression {
    open spec fn accepts(v: Json) -> bool {
        Color::accepts(v) || ColorOrArrayOfColor::accepts(v)
    }

    open spec fn decodes(v: Json, x: Self) -> bool {
        match x {
            SymbolPaintLayerTextHaloColorExpression::Color(t) => Color::accepts(v) && Color::decodes(v, t),
            SymbolPaintLayerTextHaloColorExpression::Ramp(t) => !Color::accepts(v) && ColorOrArrayOfColor::accepts(v) && ColorOrArrayOfColor::decodes(v, t),
        }
    }

    open spec fn rejection(v: Json) -> Seq<char> {
        "SymbolPaintLayerTextHaloColorExpression: no variant matched. Expected Color(Color) | Ramp(ColorOrArrayOfColor). Errors: ["@ + "Color: "@ + Color::rejection(v) + "; Ramp: "@ + ColorOrArrayOfColor::rejection(v) + "]"@
    }

    fn decode(v: &JsonValue) -> (r: Result<Self, String>) {
        let e0 = match Color::decode(v) {
            Ok(x) => {
                return Ok(SymbolPaintLayerTextHaloColorExpression::Color(x));
            },
            Err(e) => e,
        };
        let e1 = match ColorOrArrayOfColor::decode(v) {
            Ok(x) => {
                return Ok(SymbolPaintLayerTextHaloColorExpression::Ramp(x));
            },
            Err(e) => e,
        };
        let mut m = "SymbolPaintLayerTextHaloColorExpression: no variant matched. Expected Color(Color) | Ramp(ColorOrArrayOfColor). Errors: [".to_string();
        m.append("Color: ");
        m.append(e0.as_str());
        m.append("; Ramp: ");
        m.append(e1.as_str());
        m.append("]");
        Err(m)
    }
}

impl JsonEncode for SymbolPaintLayerTextHaloColorExpression {
    open spec fn to_json(self) -> Json {
        match self {
            SymbolPaintLayerTextHaloColorExpression::Color(t) => Color::to_json(t),
            SymbolPaintLayerTextHaloColorExpression::Ramp(t) => ColorOrArrayOfColor::to_json(t),
        }
    }

    open spec fn round_trips(self) -> bool {
        match self {
            SymbolPaintLayerTextHaloColorExpression::Color(t) => Color::round_trips(t),
            SymbolPaintLayerTextHaloColorExpression::Ramp(t) => ColorOrArrayOfColor::round_trips(t) && !Color::accepts(ColorOrArrayOfColor::to_json(t)),
        }
    }

    fn encode(&self) -> (r: JsonValue) {
        match self {
            SymbolPaintLayerTextHaloColorExpression::Color(t) => Color::encode(t),
            SymbolPaintLayerTextHaloColorExpression::Ramp(t) => ColorOrArrayOfColor::encode(t),
        }
    }

    proof fn lemma_round_trip(self) {
        match self {
            SymbolPaintLayerTextHaloColorExpression::Color(t) => Color::lemma_round_trip(t),
            SymbolPaintLayerTextHaloColorExpression::Ramp(t) => ColorOrArrayOfColor::lemma_round_trip(t),
        }
    }
}

/// The color of the text's halo, which helps it stand out from backgrounds.
#[derive(PartialEq, Debug, Clone)]
pub enum SymbolPaintLayerTextHaloColor {
    Expr(Box<SymbolPaintLayerTextHaloColorExpression>),
    Literal(JsonValue),
}

impl JsonDecode for SymbolPaintLayerTextHaloColor {
    open spec fn accepts(v: Json) -> bool {
        SymbolPaintLayerTextHaloColorExpression::accepts(v) || JsonValue::accepts(v)
    }

    open spec fn decodes(v: Json, x: Self) -> bool {
        match x {
            SymbolPaintLayerTextHaloColor::Expr(t) => SymbolPaintLayerTextHaloColorExpression::accepts(v) && SymbolPaintLayerTextHaloColorExpression::decodes(v, *t),
            SymbolPaintLayerTextHaloColor::Literal(t) => !SymbolPaintLayerTextHaloColorExpression::accepts(v) && JsonValue::accepts(v) && JsonValue::decodes(v, t),
        }
    }

    open spec fn rejection(v: Json) -> Seq<char> {
        "SymbolPaintLayerTextHaloColor: no variant matched. Expected Expr(SymbolPaintLayerTextHaloColorExpression) | Literal(serde_json::Value). Errors: ["@ + "Expr: "@ + SymbolPaintLayerTextHaloColorExpression::rejection(v) + "; Literal: "@ + JsonValue::rejection(v) + "]"@
    }

    fn decode(v: &JsonValue) -> (r: Result<Self, String>) {
        let e0 = match SymbolPaintLayerTextHaloColorExpression::decode(v) {
            Ok(x) => {
                return Ok(SymbolPaintLayerTextHaloColor::Expr(Box::new(x)));
            },
            Err(e) => e,
        };
        let e1 = match JsonValue::decode(v) {
            Ok(x) => {
                return Ok(SymbolPaintLayerTextHaloColor::Literal(x));
            },
            Err(e) => e,
        };
        let mut m = "SymbolPaintLayerTextHaloColor: no variant matched. Expected Expr(SymbolPaintLayerTextHaloColorExpression) | Literal(serde_json::Value). Errors: [".to_string();
        m.append("Expr: ");
        m.append(e0.as_str());
        m.append("; Literal: ");
        m.append(e1.as_str());
        m.append("]");
        Err(m)
    }
}

impl JsonEncode for SymbolPaintLayerTextHaloColor {
    open spec fn to_json(self) -> Json {
        match self {
            SymbolPaintLayerTextHaloColor::Expr(t) => SymbolPaintLayerTextHaloColorExpression::to_json(*t),
            SymbolPaintLayerTextHaloColor::Literal(t) => JsonValue::to_json(t),
        }
    }

    open spec fn round_trips(self) -> bool {
        match self {
            SymbolPaintLayerTextHaloColor::Expr(t) => SymbolPaintLayerTextHaloColorExpression::round_trips(*t),
            SymbolPaintLayerTextHaloColor::Literal(t) => JsonValue::round_trips(t) && !SymbolPaintLayerTextHaloColorExpression::accepts(JsonValue::to_json(t)),
        }
    }

    fn encode(&self) -> (r: JsonValue) {
        match self {
            SymbolPaintLayerTextHaloColor::Expr(t) => SymbolPaintLayerTextHaloColorExpression::encode(&**t),
            SymbolPaintLayerTextHaloColor::Literal(t) => JsonValue::encode(t),
        }
    }

    proof fn lemma_round_trip(self) {
        match self {
            SymbolPaintLayerTextHaloColor::Expr(t) => SymbolPaintLayerTextHaloColorExpression::lemma_round_trip(*t),
            SymbolPaintLayerTextHaloColor::Literal(t) => JsonValue::lemma_round_trip(t),
        }
    }
}

impl Default for SymbolPaintLayerTextHaloColor {
    fn default() -> (r: Self)
        ensures
            r.to_json() == Json::Str("rgba(0, 0, 0, 0)"@),
            r is Literal,
    {
        let r = SymbolPaintLayerTextHaloColor::Literal(JsonValue::String("rgba(0, 0, 0, 0)".to_string()));
        r
    }
}

/// Nested expression: ramp (`interpolate` / …) or regular [`Number`] operators.
#[derive(PartialEq, Debug, Clone)]
pub enum SymbolPaintLayerTextHaloWidthExpression {
    Number(Number),
    Ramp(NumberOrArrayOfNumberOrColorOrArrayOfColorOrProjection),
}

impl JsonDecode for SymbolPaintLayerTextHaloWidthExpression {
    open spec fn accepts(v: Json) -> bool {
        Number::accepts(v) || NumberOrArrayOfNumberOrColorOrArrayOfColorOrProjection::accepts(v)
    }

    open spec fn decodes(v: Json, x: Self) -> bool {
        match x {
            SymbolPaintLayerTextHaloWidthExpression::Number(t) => Number::accepts(v) && Number::decodes(v, t),
            SymbolPaintLayerTextHaloWidthExpression::Ramp(t) => !Number::accepts(v) && NumberOrArrayOfNumberOrColorOrArrayOfColorOrProjection::accepts(v) && NumberOrArrayOfNumberOrColorOrArrayOfColorOrProjection::decodes(v, t),
        }
    }

    open spec fn rejection(v: Json) -> Seq<char> {
        "SymbolPaintLayerTextHaloWidthExpression: no variant matched. Expected Number(Number) | Ramp(NumberOrArrayOfNumberOrColorOrArrayOfColorOrProjection). Errors: ["@ + "Number: "@ + Number::rejection(v) + "; Ramp: "@ + NumberOrArrayOfNumberOrColorOrArrayOfColorOrProjection::rejection(v) + "]"@
    }

    fn decode(v: &JsonValue) -> (r: Result<Self, String>) {
        let e0 = match Number::decode(v) {
            Ok(x) => {
                return Ok(SymbolPaintLayerTextHaloWidthExpression::Number(x));
            },
            Err(e) => e,
        };
        let e1 = match NumberOrArrayOfNumberOrColorOrArrayOfColorOrProjection::decode(v) {
            Ok(x) => {
                return Ok(SymbolPaintLayerTextHaloWidthExpression::Ramp(x));
            },
            Err(e) => e,
        };
        let mut m = "SymbolPaintLayerTextHaloWidthExpression: no variant matched. Expected Number(Number) | Ramp(NumberOrArrayOfNumberOrColorOrArrayOfColorOrProjection). Errors: [".to_string();
        m.append("Number: ");
        m.append(e0.as_str());
        m.append("; Ramp: ");
        m.append(e1.as_str());
        m.append("]");
        Err(m)
    }
}

impl JsonEncode for SymbolPaintLayerTextHaloWidthExpression {
    open spec fn to_json(self) -> Json {
        match self {
            SymbolPaintLayerTextHaloWidthExpression::Number(t) => Number::to_json(t),
            SymbolPaintLayerTextHaloWidthExpression::Ramp(t) => NumberOrArrayOfNumberOrColorOrArrayOfColorOrProjection::to_json(t),
        }
    }

    open spec fn round_trips(self) -> bool {
        match self {
            SymbolPaintLayerTextHaloWidthExpression::Number(t) => Number::round_trips(t),
            SymbolPaintLayerTextHaloWidthExpression::Ramp(t) => NumberOrArrayOfNumberOrColorOrArrayOfColorOrProjection::round_trips(t) && !Number::accepts(NumberOrArrayOfNumberOrColorOrArrayOfColorOrProjection::to_json(t)),
        }
    }

    fn encode(&self) -> (r: JsonValue) {
        match self {
            SymbolPaintLayerTextHaloWidthExpression::Number(t) => Number::encode(t),
            SymbolPaintLayerTextHaloWidthExpression::Ramp(t) => NumberOrArrayOfNumberOrColorOrArrayOfColorOrProjection::encode(t),
        }
    }

    proof fn lemma_round_trip(self) {
        match self {
            SymbolPaintLayerTextHaloWidthExpression::Number(t) => Number::lemma_round_trip(t),
            SymbolPaintLayerTextHaloWidthExpression::Ramp(t) => NumberOrArrayOfNumberOrColorOrArrayOfColorOrProjection::lemma_round_trip(t),
        }
    }
}

/// Distance of halo to the font outline. Max text halo width is 1/4 of the font-size.
#[derive(PartialEq, Debug, Clone)]
pub enum SymbolPaintLayerTextHaloWidth {
    Expr(Box<SymbolPaintLayerTextHaloWidthExpression>),
    Literal(JsonNumber),
}

impl JsonDecode for SymbolPaintLayerTextHaloWidth {
    open spec fn accepts(v: Json) -> bool {
        SymbolPaintLayerTextHaloWidthExpression::accepts(v) || JsonNumber::accepts(v)
    }

    open spec fn decodes(v: Json, x: Self) -> bool {
        match x {
            SymbolPaintLayerTextHaloWidth::Expr(t) => SymbolPaintLayerTextHaloWidthExpression::accepts(v) && SymbolPaintLayerTextHaloWidthExpression::decodes(v, *t),
            SymbolPaintLayerTextHaloWidth::Literal(t) => !SymbolPaintLayerTextHaloWidthExpression::accepts(v) && JsonNumber::accepts(v) && JsonNumber::decodes(v, t),
        }
    }

    open spec fn rejection(v: Json) -> Seq<char> {
        "SymbolPaintLayerTextHaloWidth: no variant matched. Expected Expr(SymbolPaintLayerTextHaloWidthExpression) | Literal(serde_json::Number). Errors: ["@ + "Expr: "@ + SymbolPaintLayerTextHaloWidthExpression::rejection(v) + "; Literal: "@ + JsonNumber::rejection(v) + "]"@
    }

    fn decode(v: &JsonValue) -> (r: Result<Self, String>) {
        let e0 = match SymbolPaintLayerTextHaloWidthExpression::decode(v) {
            Ok(x) => {
                return Ok(SymbolPaintLayerTextHaloWidth::Expr(Box::new(x)));
            },
            Err(e) => e,
        };
        let e1 = match JsonNumber::decode(v) {
            Ok(x) => {
                return Ok(SymbolPaintLayerTextHaloWidth::Literal(x));
            },
            Err(e) => e,
        };
        let mut m = "SymbolPaintLayerTextHaloWidth: no variant matched. Expected Expr(SymbolPaintLayerTextHaloWidthExpression) | Literal(serde_json::Number). Errors: [".to_string();
        m.append("Expr: ");
        m.append(e0.as_str());
        m.append("; Literal: ");
        m.append(e1.as_str());
        m.append("]");
        Err(m)
    }
}

impl JsonEncode for SymbolPaintLayerTextHaloWidth {
    open spec fn to_json(self) -> Json {
        match self {
            SymbolPaintLayerTextHaloWidth::Expr(t) => SymbolPaintLayerTextHaloWidthExpression::to_json(*t),
            SymbolPaintLayerTextHaloWidth::Literal(t) => JsonNumber::to_json(t),
        }
    }

    open spec fn round_trips(self) -> bool {
        match self {
            SymbolPaintLayerTextHaloWidth::Expr(t) => SymbolPaintLayerTextHaloWidthExpression::round_trips(*t),
            SymbolPaintLayerTextHaloWidth::Literal(t) => JsonNumber::round_trips(t) && !SymbolPaintLayerTextHaloWidthExpression::accepts(JsonNumber::to_json(t)),
        }
    }

    fn encode(&self) -> (r: JsonValue) {
        match self {
            SymbolPaintLayerTextHaloWidth::Expr(t) => SymbolPaintLayerTextHaloWidthExpression::encode(&**t),
            SymbolPaintLayerTextHaloWidth::Literal(t) => JsonNumber::encode(t),
        }
    }

    proof fn lemma_round_trip(self) {
        match self {
            SymbolPaintLayerTextHaloWidth::Expr(t) => SymbolPaintLayerTextHaloWidthExpression::lemma_round_trip(*t),
            SymbolPaintLayerTextHaloWidth::Literal(t) => JsonNumber::lemma_round_trip(t),
        }
    }
}

impl Default for SymbolPaintLayerTextHaloWidth {
    fn default() -> (r: Self)
        ensures
            r.to_json() == Json::Number("0"@),
            r is Literal,
    {
        let r = SymbolPaintLayerTextHaloWidth::Literal(JsonNumber::from_literal("0"));
        r
    }
}

/// Nested expression: ramp (`interpolate` / …) or regular [`Number`] operators.
#[derive(PartialEq, Debug, Clone)]
pub enum SymbolPaintLayerTextOpacityExpression {
    Number(Number),
    Ramp(NumberOrArrayOfNumberOrColorOrArrayOfColorOrProjection),
}

impl JsonDecode for SymbolPaintLayerTextOpacityExpression {
    open spec fn accepts(v: Json) -> bool {
        Number::accepts(v) || NumberOrArrayOfNumberOrColorOrArrayOfColorOrProjection::accepts(v)
    }

    open spec fn decodes(v: Json, x: Self) -> bool {
        match x {
            SymbolPaintLayerTextOpacityExpression::Number(t) => Number::accepts(v) && Number::decodes(v, t),
            SymbolPaintLayerTextOpacityExpression::Ramp(t) => !Number::accepts(v) && NumberOrArrayOfNumberOrColorOrArrayOfColorOrProjection::accepts(v) && NumberOrArrayOfNumberOrColorOrArrayOfColorOrProjection::decodes(v, t),
        }
    }

    open spec fn rejection(v: Json) -> Seq<char> {
        "SymbolPaintLayerTextOpacityExpression: no variant matched. Expected Number(Number) | Ramp(NumberOrArrayOfNumberOrColorOrArrayOfColorOrProjection). Errors: ["@ + "Number: "@ + Number::rejection(v) + "; Ramp: "@ + NumberOrArrayOfNumberOrColorOrArrayOfColorOrProjection::rejection(v) + "]"@
    }

    fn decode(v: &JsonValue) -> (r: Result<Self, String>) {
        let e0 = match Number::decode(v) {
            Ok(x) => {
                return Ok(SymbolPaintLayerTextOpacityExpression::Number(x));
            },
            Err(e) => e,
        };
        let e1 = match NumberOrArrayOfNumberOrColorOrArrayOfColorOrProjection::decode(v) {
            Ok(x) => {
                return Ok(SymbolPaintLayerTextOpacityExpression::Ramp(x));
            },
            Err(e) => e,
        };
        let mut m = "SymbolPaintLayerTextOpacityExpression: no variant matched. Expected Number(Number) | Ramp(NumberOrArrayOfNumberOrColorOrArrayOfColorOrProjection). Errors: [".to_string();
        m.append("Number: ");
        m.append(e0.as_str());
        m.append("; Ramp: ");
        m.append(e1.as_str());
        m.append("]");
        Err(m)
    }
}

impl JsonEncode for SymbolPaintLayerTextOpacityExpression {
    open spec fn to_json(self) -> Json {
        match self {
            SymbolPaintLayerTextOpacityExpression::Number(t) => Number::to_json(t),
            SymbolPaintLayerTextOpacityExpression::Ramp(t) => NumberOrArrayOfNumberOrColorOrArrayOfColorOrProjection::to_json(t),
        }
    }

    open spec fn round_trips(self) -> bool {
        match self {
            SymbolPaintLayerTextOpacityExpression::Number(t) => Number::round_trips(t),
            SymbolPaintLayerTextOpacityExpression::Ramp(t) => NumberOrArrayOfNumberOrColorOrArrayOfColorOrProjection::round_trips(t) && !Number::accepts(NumberOrArrayOfNumberOrColorOrArrayOfColorOrProjection::to_json(t)),
        }
    }

    fn encode(&self) -> (r: JsonValue) {
        match self {
            SymbolPaintLayerTextOpacityExpression::Number(t) => Number::encode(t),
            SymbolPaintLayerTextOpacityExpression::Ramp(t) => NumberOrArrayOfNumberOrColorOrArrayOfColorOrProjection::encode(t),
        }
    }

    proof fn lemma_round_trip(self) {
        match self {
            SymbolPaintLayerTextOpacityExpression::Number(t) => Number::lemma_round_trip(t),
            SymbolPaintLayerTextOpacityExpression::Ramp(t) => NumberOrArrayOfNumberOrColorOrArrayOfColorOrProjection::lemma_round_trip(t),
        }
    }
}

/// The opacity at which the text will be drawn.
#[derive(PartialEq, Debug, Clone)]
pub enum SymbolPaintLayerTextOpacity {
    Expr(Box<SymbolPaintLayerTextOpacityExpression>),
    Literal(JsonNumber),
}

impl JsonDecode for SymbolPaintLayerTextOpacity {
    open spec fn accepts(v: Json) -> bool {
        SymbolPaintLayerTextOpacityExpression::accepts(v) || JsonNumber::accepts(v)
    }

    open spec fn decodes(v: Json, x: Self) -> bool {
        match x {
            SymbolPaintLayerTextOpacity::Expr(t) => SymbolPaintLayerTextOpacityExpression::accepts(v) && SymbolPaintLayerTextOpacityExpression::decodes(v, *t),
            SymbolPaintLayerTextOpacity::Literal(t) => !SymbolPaintLayerTextOpacityExpression::accepts(v) && JsonNumber::accepts(v) && JsonNumber::decodes(v, t),
        }
    }

    open spec fn rejection(v: Json) -> Seq<char> {
        "SymbolPaintLayerTextOpacity: no variant matched. Expected Expr(SymbolPaintLayerTextOpacityExpression) | Literal(serde_json::Number). Errors: ["@ + "Expr: "@ + SymbolPaintLayerTextOpacityExpression::rejection(v) + "; Literal: "@ + JsonNumber::rejection(v) + "]"@
    }

    fn decode(v: &JsonValue) -> (r: Result<Self, String>) {
        let e0 = match SymbolPaintLayerTextOpacityExpression::decode(v) {
            Ok(x) => {
                return Ok(SymbolPaintLayerTextOpacity::Expr(Box::new(x)));
            },
            Err(e) => e,
        };
        let e1 = match JsonNumber::decode(v) {
            Ok(x) => {
                return Ok(SymbolPaintLayerTextOpacity::Literal(x));
            },
            Err(e) => e,
        };
        let mut m = "SymbolPaintLayerTextOpacity: no variant matched. Expected Expr(SymbolPaintLayerTextOpacityExpression) | Literal(serde_json::Number). Errors: [".to_string();
        m.append("Expr: ");
        m.append(e0.as_str());
        m.append("; Literal: ");
        m.append(e1.as_str());
        m.append("]");
        Err(m)
    }
}

impl JsonEncode for SymbolPaintLayerTextOpacity {
    open spec fn to_json(self) -> Json {
        match self {
            SymbolPaintLayerTextOpacity::Expr(t) => SymbolPaintLayerTextOpacityExpression::to_json(*t),
            SymbolPaintLayerTextOpacity::Literal(t) => JsonNumber::to_json(t),
        }
    }

    open spec fn round_trips(self) -> bool {
        match self {
            SymbolPaintLayerTextOpacity::Expr(t) => SymbolPaintLayerTextOpacityExpression::round_trips(*t),
            SymbolPaintLayerTextOpacity::Literal(t) => JsonNumber::round_trips(t) && !SymbolPaintLayerTextOpacityExpression::accepts(JsonNumber::to_json(t)),
        }
    }

    fn encode(&self) -> (r: JsonValue) {
        match self {
            SymbolPaintLayerTextOpacity::Expr(t) => SymbolPaintLayerTextOpacityExpression::encode(&**t),
            SymbolPaintLayerTextOpacity::Literal(t) => JsonNumber::encode(t),
        }
    }

    proof fn lemma_round_trip(self) {
        match self {
            SymbolPaintLayerTextOpacity::Expr(t) => SymbolPaintLayerTextOpacityExpression::lemma_round_trip(*t),
            SymbolPaintLayerTextOpacity::Literal(t) => JsonNumber::lemma_round_trip(t),
        }
    }
}

impl Default for SymbolPaintLayerTextOpacity {
    fn default() -> (r: Self)
        ensures
            r.to_json() == Json::Number("1"@),
            r is Literal,
    {
        let r = SymbolPaintLayerTextOpacity::Literal(JsonNumber::from_literal("1"));
        r
    }
}

/// Distance that the text's anchor is moved from its original placement. Positive values indicate right and down, while negative values indicate left and up.
#[derive(PartialEq, Debug, Clone)]
pub struct SymbolPaintLayerTextTranslate(Box<[JsonNumber; 2]>);

impl JsonDecode for SymbolPaintLayerTextTranslate {
    closed spec fn accepts(v: Json) -> bool {
        <[JsonNumber; 2] as JsonDecode>::accepts(v)
    }

    closed spec fn decodes(v: Json, x: Self) -> bool {
        <[JsonNumber; 2] as JsonDecode>::decodes(v, *x.0)
    }

    closed spec fn rejection(v: Json) -> Seq<char> {
        <[JsonNumber; 2] as JsonDecode>::rejection(v)
    }

    fn decode(v: &JsonValue) -> (r: Result<Self, String>) {
        match <[JsonNumber; 2] as JsonDecode>::decode(v) {
            Ok(x) => Ok(SymbolPaintLayerTextTranslate(Box::new(x))),
            Err(e) => Err(e),
        }
    }
}

impl JsonEncode for SymbolPaintLayerTextTranslate {
    closed spec fn to_json(self) -> Json {
        <[JsonNumber; 2] as JsonEncode>::to_json((*self.0))
    }

    closed spec fn round_trips(self) -> bool {
        <[JsonNumber; 2] as JsonEncode>::round_trips((*self.0))
    }

    fn encode(&self) -> (r: JsonValue) {
        <[JsonNumber; 2] as JsonEncode>::encode(&(*self.0))
    }

    proof fn lemma_round_trip(self) {
        <[JsonNumber; 2] as JsonEncode>::lemma_round_trip((*self.0));
    }
}

impl Default for SymbolPaintLayerTextTranslate {
    fn default() -> (r: Self)
        ensures
            r.to_json() == Json::Array(seq![Json::Number("0"@), Json::Number("0"@)]),
    {
        let r = SymbolPaintLayerTextTranslate(Box::new([JsonNumber::from_literal("0"), JsonNumber::from_literal("0")]));
        proof {
            assert(r.to_json() =~~= Json::Array(seq![Json::Number("0"@), Json::Number("0"@)]));
        }
        r
    }
}

/// Controls the frame of reference for `text-translate`.
#[derive(PartialEq, Eq, Debug, Clone, Copy)]
pub enum SymbolPaintLayerTextTranslateAnchor {
    MapValue,
    Viewport,
}

impl SymbolPaintLayerTextTranslateAnchor {
    /// The name that stands for the value in a style document.
    pub open spec fn spec_name(self) -> Seq<char> {
        match self {
            SymbolPaintLayerTextTranslateAnchor::MapValue => "map"@,
            SymbolPaintLayerTextTranslateAnchor::Viewport => "viewport"@,
        }
    }

    /// The name that stands for the value in a style document.
    pub fn name(&self) -> (r: &'static str)
        ensures
            r@ == self.spec_name(),
    {
        match self {
            SymbolPaintLayerTextTranslateAnchor::MapValue => "map",
            SymbolPaintLayerTextTranslateAnchor::Viewport => "viewport",
        }
    }

    /// The value that a name stands for, if any.
    pub fn from_name(s: &str) -> (r: Option<SymbolPaintLayerTextTranslateAnchor>)
        ensures
            r matches Some(x) ==> x.spec_name() == s@,
            r is None ==> forall|x: SymbolPaintLayerTextTranslateAnchor| x.spec_name() != s@,
    {
        if str_eq(s, "map") {
            Some(SymbolPaintLayerTextTranslateAnchor::MapValue)
        } else if str_eq(s, "viewport") {
            Some(SymbolPaintLayerTextTranslateAnchor::Viewport)
        } else {
            None
        }
    }
}

impl SymbolPaintLayerTextTranslateAnchor {
    /// Each value is read from, and written as, the name that the style specification gives
    /// it, and a document holding one of these names reads as that value and no other.
    pub proof fn lemma_read_by_name()
        ensures
            forall|x: SymbolPaintLayerTextTranslateAnchor| <SymbolPaintLayerTextTranslateAnchor as JsonDecode>::decodes(Json::Str("map"@), x) <==> x == SymbolPaintLayerTextTranslateAnchor::MapValue,
            <SymbolPaintLayerTextTranslateAnchor as JsonEncode>::to_json(SymbolPaintLayerTextTranslateAnchor::Viewport) == Json::Str("viewport"@),
            forall|x: SymbolPaintLayerTextTranslateAnchor| <SymbolPaintLayerTextTranslateAnchor as JsonDecode>::decodes(Json::Str("viewport"@), x) <==> x == SymbolPaintLayerTextTranslateAnchor::Viewport,
            <SymbolPaintLayerTextTranslateAnchor as JsonEncode>::to_json(SymbolPaintLayerTextTranslateAnchor::MapValue) == Json::Str("map"@),
    {
        reveal_strlit("viewport");
        reveal_strlit("map");
        assert("map"@.len() != "viewport"@.len());
    }
}

impl JsonDecode for SymbolPaintLayerTextTranslateAnchor {
    /// The name of a value, or an object whose one entry has the name as its key and `null`.
    open spec fn accepts(v: Json) -> bool {
        ||| (v is Str && exists|x: SymbolPaintLayerTextTranslateAnchor| x.spec_name() == v->Str_0)
        ||| (v is Object && v->Object_0.len() == 1 && v->Object_0[0].1 is Null && exists|x: SymbolPaintLayerTextTranslateAnchor| x.spec_name() == v->Object_0[0].0)
    }

    open spec fn decodes(v: Json, x: Self) -> bool {
        ||| v == Json::Str(x.spec_name())
        ||| (v is Object && v->Object_0.len() == 1 && v->Object_0[0] == (x.spec_name(), Json::Null))
    }

    open spec fn rejection(v: Json) -> Seq<char> {
        if v is Str {
            unknown_variant(v->Str_0) + ", expected `map` or `viewport`"@
        } else if v is Object {
            let o = v->Object_0;
            if o.len() != 1 {
                "invalid value: map, expected map with a single key"@
            } else if !(exists|x: SymbolPaintLayerTextTranslateAnchor| x.spec_name() == o[0].0) {
                unknown_variant(o[0].0) + ", expected `map` or `viewport`"@
            } else {
                type_error(o[0].1, "unit"@)
            }
        } else {
            type_error(v, "string or map"@)
        }
    }

    fn decode(v: &JsonValue) -> (r: Result<Self, String>) {
        match v {
            JsonValue::String(s) => match Self::from_name(s.as_str()) {
                Some(x) => Ok(x),
                None => {
                    let mut m = make_unknown_variant(s.as_str());
                    m.append(", expected `map` or `viewport`");
                    Err(m)
                },
            },
            JsonValue::Object(fields) => {
                if fields.len() != 1 {
                    return Err("invalid value: map, expected map with a single key".to_string());
                }
                proof {
                    assert(entries_model(*fields)[0] == (fields@[0].0@, fields@[0].1.model()));
                }
                match Self::from_name(fields[0].0.as_str()) {
                    Some(x) => match &fields[0].1 {
                        JsonValue::Null => Ok(x),
                        _ => Err(make_type_error(&fields[0].1, "unit")),
                    },
                    None => {
                        let mut m = make_unknown_variant(fields[0].0.as_str());
                        m.append(", expected `map` or `viewport`");
                        Err(m)
                    },
                }
            },
            _ => Err(make_type_error(v, "string or map")),
        }
    }
}

impl JsonEncode for SymbolPaintLayerTextTranslateAnchor {
    open spec fn to_json(self) -> Json {
        Json::Str(self.spec_name())
    }

    open spec fn round_trips(self) -> bool {
        true
    }

    fn encode(&self) -> (r: JsonValue) {
        JsonValue::String(self.name().to_string())
    }

    proof fn lemma_round_trip(self) {
    }
}

impl Default for SymbolPaintLayerTextTranslateAnchor {
    fn default() -> (r: Self)
        ensures
            r == SymbolPaintLayerTextTranslateAnchor::MapValue,
    {
        SymbolPaintLayerTextTranslateAnchor::MapValue
    }
}

/// A layer that inherits its type and properties from a referenced layer via `ref`.
#[derive(PartialEq, Debug, Clone)]
pub struct RefLayer {
    pub id: LayerId,
    pub ref_: String,
    pub filter: Option<LayerFilter>,
    pub minzoom: Option<LayerMinzoom>,
    pub maxzoom: Option<LayerMaxzoom>,
    pub metadata: Option<LayerMetadata>,
}

impl JsonDecode for RefLayer {
    /// An object with the fields by their keys, or an array with the fields in order.
    open spec fn accepts(v: Json) -> bool {
        ||| (v is Object && {
            let o = v->Object_0;
            &&& req_field_accepts::<LayerId>(o, "id"@)
            &&& req_field_accepts::<String>(o, "ref"@)
            &&& opt_field_accepts::<LayerFilter>(o, "filter"@)
            &&& opt_field_accepts::<LayerMinzoom>(o, "minzoom"@)
            &&& opt_field_accepts::<LayerMaxzoom>(o, "maxzoom"@)
            &&& opt_field_accepts::<LayerMetadata>(o, "metadata"@)
        })
        ||| (v is Array && {
            let a = v->Array_0;
            &&& seq_req_accepts::<LayerId>(a, 0)
            &&& seq_req_accepts::<String>(a, 1)
            &&& seq_opt_accepts::<LayerFilter>(a, 2, true)
            &&& seq_opt_accepts::<LayerMinzoom>(a, 3, true)
            &&& seq_opt_accepts::<LayerMaxzoom>(a, 4, true)
            &&& seq_opt_accepts::<LayerMetadata>(a, 5, true)
            &&& a.len() <= 6
        })
    }

    open spec fn decodes(v: Json, x: Self) -> bool {
        ||| (v is Object && {
            let o = v->Object_0;
            &&& req_field_decodes::<LayerId>(o, "id"@, x.id)
            &&& req_field_decodes::<String>(o, "ref"@, x.ref_)
            &&& opt_field_decodes::<LayerFilter>(o, "filter"@, x.filter)
            &&& opt_field_decodes::<LayerMinzoom>(o, "minzoom"@, x.minzoom)
            &&& opt_field_decodes::<LayerMaxzoom>(o, "maxzoom"@, x.maxzoom)
            &&& opt_field_decodes::<LayerMetadata>(o, "metadata"@, x.metadata)
        })
        ||| (v is Array && {
            let a = v->Array_0;
            &&& seq_req_decodes::<LayerId>(a, 0, x.id)
            &&& seq_req_decodes::<String>(a, 1, x.ref_)
            &&& seq_opt_decodes::<LayerFilter>(a, 2, x.filter)
            &&& seq_opt_decodes::<LayerMinzoom>(a, 3, x.minzoom)
            &&& seq_opt_decodes::<LayerMaxzoom>(a, 4, x.maxzoom)
            &&& seq_opt_decodes::<LayerMetadata>(a, 5, x.metadata)
        })
    }

    /// For an object, the first entry in order whose value does not read as its field, else the
    /// first required field that is missing.
    open spec fn rejection(v: Json) -> Seq<char> {
        if v is Object {
            let o = v->Object_0;
            match Self::first_fault(o, 0) {
                Some(m) => m,
                None => if lookup(o, "id"@) is None {
                    missing_field("id"@)
                } else if lookup(o, "ref"@) is None {
                    missing_field("ref"@)
                } else {
                    Seq::empty()
                },
            }
        } else if v is Array {
            let a = v->Array_0;
            if !seq_req_accepts::<LayerId>(a, 0) {
                seq_req_rejection::<LayerId>(a, 0, "struct RefLayer with 6 elements"@)
            } else if !seq_req_accepts::<String>(a, 1) {
                seq_req_rejection::<String>(a, 1, "struct RefLayer with 6 elements"@)
            } else if !seq_opt_accepts::<LayerFilter>(a, 2, true) {
                seq_opt_rejection::<LayerFilter>(a, 2, "struct RefLayer with 6 elements"@)
            } else if !seq_opt_accepts::<LayerMinzoom>(a, 3, true) {
                seq_opt_rejection::<LayerMinzoom>(a, 3, "struct RefLayer with 6 elements"@)
            } else if !seq_opt_accepts::<LayerMaxzoom>(a, 4, true) {
                seq_opt_rejection::<LayerMaxzoom>(a, 4, "struct RefLayer with 6 elements"@)
            } else if !seq_opt_accepts::<LayerMetadata>(a, 5, true) {
                seq_opt_rejection::<LayerMetadata>(a, 5, "struct RefLayer with 6 elements"@)
            } else if a.len() > 6 {
                length_error(a.len())
            } else {
                Seq::empty()
            }
        } else {
            type_error(v, "struct RefLayer"@)
        }
    }

    fn decode(v: &JsonValue) -> (r: Result<Self, String>) {
        match v {
            JsonValue::Object(fields) => {
                let id = match decode_req_field::<LayerId>(fields, "id") {
                    Ok(x) => x,
                    Err(_) => return Err(Self::object_rejection(fields)),
                };
                let ref_ = match decode_req_field::<String>(fields, "ref") {
                    Ok(x) => x,
                    Err(_) => return Err(Self::object_rejection(fields)),
                };
                let filter = match decode_opt_field::<LayerFilter>(fields, "filter") {
                    Ok(x) => x,
                    Err(_) => return Err(Self::object_rejection(fields)),
                };
                let minzoom = match decode_opt_field::<LayerMinzoom>(fields, "minzoom") {
                    Ok(x) => x,
                    Err(_) => return Err(Self::object_rejection(fields)),
                };
                let maxzoom = match decode_opt_field::<LayerMaxzoom>(fields, "maxzoom") {
                    Ok(x) => x,
                    Err(_) => return Err(Self::object_rejection(fields)),
                };
                let metadata = match decode_opt_field::<LayerMetadata>(fields, "metadata") {
                    Ok(x) => x,
                    Err(_) => return Err(Self::object_rejection(fields)),
                };
                Ok(RefLayer { id, ref_, filter, minzoom, maxzoom, metadata })
            },
            JsonValue::Array(a) => {
                let id = match decode_seq_req::<LayerId>(a, 0, "struct RefLayer with 6 elements") {
                    Ok(x) => x,
                    Err(e) => return Err(e),
                };
                let ref_ = match decode_seq_req::<String>(a, 1, "struct RefLayer with 6 elements") {
                    Ok(x) => x,
                    Err(e) => return Err(e),
                };
                let filter = match decode_seq_opt::<LayerFilter>(a, 2, true, "struct RefLayer with 6 elements") {
                    Ok(x) => x,
                    Err(e) => return Err(e),
                };
                let minzoom = match decode_seq_opt::<LayerMinzoom>(a, 3, true, "struct RefLayer with 6 elements") {
                    Ok(x) => x,
                    Err(e) => return Err(e),
                };
                let maxzoom = match decode_seq_opt::<LayerMaxzoom>(a, 4, true, "struct RefLayer with 6 elements") {
                    Ok(x) => x,
                    Err(e) => return Err(e),
                };
                let metadata = match decode_seq_opt::<LayerMetadata>(a, 5, true, "struct RefLayer with 6 elements") {
                    Ok(x) => x,
                    Err(e) => return Err(e),
                };
                if a.len() > 6 {
                    return Err(make_length_error(a.len()));
                }
                Ok(RefLayer { id, ref_, filter, minzoom, maxzoom, metadata })
            },
            _ => Err(make_type_error(v, "struct RefLayer")),
        }
    }
}

impl RefLayer {
    /// What is wrong with the value `w` of an entry with key `k`, where `k` is the key of a field.
    pub open spec fn field_fault(k: Seq<char>, w: Json) -> Option<Seq<char>> {
        if k == "id"@ {
            if LayerId::accepts(w) {
                None
            } else {
                Some(LayerId::rejection(w))
            }
        } else if k == "ref"@ {
            if String::accepts(w) {
                None
            } else {
                Some(String::rejection(w))
            }
        } else if k == "filter"@ {
            if w is Null || LayerFilter::accepts(w) {
                None
            } else {
                Some(LayerFilter::rejection(w))
            }
        } else if k == "minzoom"@ {
            if w is Null || LayerMinzoom::accepts(w) {
                None
            } else {
                Some(LayerMinzoom::rejection(w))
            }
        } else if k == "maxzoom"@ {
            if w is Null || LayerMaxzoom::accepts(w) {
                None
            } else {
                Some(LayerMaxzoom::rejection(w))
            }
        } else if k == "metadata"@ {
            if w is Null || LayerMetadata::accepts(w) {
                None
            } else {
                Some(LayerMetadata::rejection(w))
            }
        } else {
            None
        }
    }

    /// The message of the first entry of `o`, from entry `i` on and among the first entries of
    /// their keys, whose value does not read as its field, if any.
    pub open spec fn first_fault(o: Seq<(Seq<char>, Json)>, i: int) -> Option<Seq<char>>
        decreases o.len() - i,
    {
        if i < 0 || i >= o.len() {
            None
        } else if first_with_key(o, i) && Self::field_fault(o[i].0, o[i].1) is Some {
            Self::field_fault(o[i].0, o[i].1)
        } else {
            Self::first_fault(o, i + 1)
        }
    }

    fn find_field_fault(k: &str, w: &JsonValue) -> (r: Option<String>)
        ensures
            match r {
                Some(m) => Self::field_fault(k@, w.model()) == Some(m@),
                None => Self::field_fault(k@, w.model()) is None,
            },
    {
        if str_eq(k, "id") {
            match LayerId::decode(w) {
                Ok(_) => None,
                Err(e) => Some(e),
            }
        } else if str_eq(k, "ref") {
            match String::decode(w) {
                Ok(_) => None,
                Err(e) => Some(e),
            }
        } else if str_eq(k, "filter") {
            match w {
                JsonValue::Null => None,
                _ => match LayerFilter::decode(w) {
                    Ok(_) => None,
                    Err(e) => Some(e),
                },
            }
        } else if str_eq(k, "minzoom") {
            match w {
                JsonValue::Null => None,
                _ => match LayerMinzoom::decode(w) {
                    Ok(_) => None,
                    Err(e) => Some(e),
                },
            }
        } else if str_eq(k, "maxzoom") {
            match w {
                JsonValue::Null => None,
                _ => match LayerMaxzoom::decode(w) {
                    Ok(_) => None,
                    Err(e) => Some(e),
                },
            }
        } else if str_eq(k, "metadata") {
            match w {
                JsonValue::Null => None,
                _ => match LayerMetadata::decode(w) {
                    Ok(_) => None,
                    Err(e) => Some(e),
                },
            }
        } else {
            None
        }
    }

    fn object_rejection(fields: &Vec<(String, JsonValue)>) -> (r: String)
        ensures
            r@ == Self::rejection(JsonValue::Object(*fields).model()),
    {
        let ghost o = entries_model(*fields);
        let mut i: usize = 0;
        while i < fields.len()
            invariant
                o == entries_model(*fields),
                o.len() == fields.len(),
                i <= fields.len(),
                Self::first_fault(o, 0) == Self::first_fault(o, i as int),
            decreases fields.len() - i,
        {
            proof {
                assert(o[i as int] == (fields@[i as int].0@, fields@[i as int].1.model()));
            }
            if !key_seen_before(fields, i) {
                match Self::find_field_fault(fields[i].0.as_str(), &fields[i].1) {
                    Some(m) => {
                        return m;
                    },
                    None => {},
                }
            }
            i += 1;
        }
        if get_field(fields, "id").is_none() {
            return make_missing_field("id");
        }
        if get_field(fields, "ref").is_none() {
            return make_missing_field("ref");
        }
        String::new()
    }
}

impl RefLayer {
    /// The keys of the fields, in order.
    pub open spec fn field_keys() -> Seq<Seq<char>> {
        seq!["id"@, "ref"@, "filter"@, "minzoom"@, "maxzoom"@, "metadata"@]
    }

    /// The entries that each field is written as, in order.
    pub open spec fn field_entries(self) -> Seq<Seq<(Seq<char>, Json)>> {
        seq![req_entry::<LayerId>("id"@, self.id), req_entry::<String>("ref"@, self.ref_), opt_entry::<LayerFilter>("filter"@, self.filter), opt_entry::<LayerMinzoom>("minzoom"@, self.minzoom), opt_entry::<LayerMaxzoom>("maxzoom"@, self.maxzoom), opt_entry::<LayerMetadata>("metadata"@, self.metadata)]
    }

    proof fn lemma_keys_differ(i: int)
        requires
            0 <= i < 6,
        ensures
            others_differ(Self::field_keys(), i),
    {
        reveal_strlit("id");
        assert("id"@.len() == 2);
        reveal_strlit("ref");
        assert("ref"@.len() == 3);
        reveal_strlit("filter");
        assert("filter"@.len() == 6);
        reveal_strlit("minzoom");
        assert("minzoom"@.len() == 7);
        reveal_strlit("maxzoom");
        assert("maxzoom"@.len() == 7);
        reveal_strlit("metadata");
        assert("metadata"@.len() == 8);
        assert("minzoom"@[1] != "maxzoom"@[1]);
    }

    /// A written `ref` layer has no `type` entry, so it never reads as a typed layer.
    pub proof fn lemma_written_without_type(self)
        ensures
            lookup(self.to_json()->Object_0, "type"@) is None,
            !TypedLayer::accepts(self.to_json()),
    {
        let keys = Self::field_keys();
        assert(keyed_by(self.field_entries(), keys));
        reveal_strlit("id");
        reveal_strlit("ref");
        reveal_strlit("filter");
        reveal_strlit("minzoom");
        reveal_strlit("maxzoom");
        reveal_strlit("metadata");
        reveal_strlit("type");
        assert("type"@.len() == 4);
        assert("id"@.len() == 2);
        assert("ref"@.len() == 3);
        assert("filter"@.len() == 6);
        assert("minzoom"@.len() == 7);
        assert("maxzoom"@.len() == 7);
        assert("metadata"@.len() == 8);
        assert forall|j: int| 0 <= j < keys.len() implies #[trigger] keys[j] != "type"@ by {}
        lemma_lookup_none_for_other_keys(self.field_entries(), keys, "type"@);
    }
}

impl JsonEncode for RefLayer {
    open spec fn to_json(self) -> Json {
        Json::Object(self.field_entries().flatten())
    }

    open spec fn round_trips(self) -> bool {
        &&& self.id.round_trips()
        &&& self.ref_.round_trips()
        &&& (self.filter matches Some(t) ==> t.round_trips() && !(t.to_json() is Null))
        &&& (self.minzoom matches Some(t) ==> t.round_trips() && !(t.to_json() is Null))
        &&& (self.maxzoom matches Some(t) ==> t.round_trips() && !(t.to_json() is Null))
        &&& (self.metadata matches Some(t) ==> t.round_trips() && !(t.to_json() is Null))
    }

    fn encode(&self) -> (r: JsonValue) {
        let mut out: Vec<(String, JsonValue)> = Vec::new();
        let ghost s0 = Seq::<Seq<(Seq<char>, Json)>>::empty();
        proof {
            assert(entries_model(out) =~= s0.flatten());
        }
        push_req_entry::<LayerId>(&mut out, "id", &self.id);
        let ghost s1 = s0.push(req_entry::<LayerId>("id"@, self.id));
        proof {
            s0.lemma_flatten_push(req_entry::<LayerId>("id"@, self.id));
            assert(entries_model(out) =~= s1.flatten());
        }
        push_req_entry::<String>(&mut out, "ref", &self.ref_);
        let ghost s2 = s1.push(req_entry::<String>("ref"@, self.ref_));
        proof {
            s1.lemma_flatten_push(req_entry::<String>("ref"@, self.ref_));
            assert(entries_model(out) =~= s2.flatten());
        }
        push_opt_entry::<LayerFilter>(&mut out, "filter", &self.filter);
        let ghost s3 = s2.push(opt_entry::<LayerFilter>("filter"@, self.filter));
        proof {
            s2.lemma_flatten_push(opt_entry::<LayerFilter>("filter"@, self.filter));
            assert(entries_model(out) =~= s3.flatten());
        }
        push_opt_entry::<LayerMinzoom>(&mut out, "minzoom", &self.minzoom);
        let ghost s4 = s3.push(opt_entry::<LayerMinzoom>("minzoom"@, self.minzoom));
        proof {
            s3.lemma_flatten_push(opt_entry::<LayerMinzoom>("minzoom"@, self.minzoom));
            assert(entries_model(out) =~= s4.flatten());
        }
        push_opt_entry::<LayerMaxzoom>(&mut out, "maxzoom", &self.maxzoom);
        let ghost s5 = s4.push(opt_entry::<LayerMaxzoom>("maxzoom"@, self.maxzoom));
        proof {
            s4.lemma_flatten_push(opt_entry::<LayerMaxzoom>("maxzoom"@, self.maxzoom));
            assert(entries_model(out) =~= s5.flatten());
        }
        push_opt_entry::<LayerMetadata>(&mut out, "metadata", &self.metadata);
        let ghost s6 = s5.push(opt_entry::<LayerMetadata>("metadata"@, self.metadata));
        proof {
            s5.lemma_flatten_push(opt_entry::<LayerMetadata>("metadata"@, self.metadata));
            assert(entries_model(out) =~= s6.flatten());
        }
        proof {
            assert(self.field_entries() == s6);
        }
        JsonValue::Object(out)
    }

    proof fn lemma_round_trip(self) {
        let keys = Self::field_keys();
        let es = self.field_entries();
        assert(keyed_by(es, keys));
        Self::lemma_keys_differ(0);
        lemma_lookup_flatten(es, keys, 0);
        lemma_lookup_req_entry::<LayerId>("id"@, self.id, "id"@);
        self.id.lemma_round_trip();
        Self::lemma_keys_differ(1);
        lemma_lookup_flatten(es, keys, 1);
        lemma_lookup_req_entry::<String>("ref"@, self.ref_, "ref"@);
        self.ref_.lemma_round_trip();
        Self::lemma_keys_differ(2);
        lemma_lookup_flatten(es, keys, 2);
        lemma_lookup_opt_entry::<LayerFilter>("filter"@, self.filter, "filter"@);
        if self.filter is Some {
            self.filter->0.lemma_round_trip();
        }
        Self::lemma_keys_differ(3);
        lemma_lookup_flatten(es, keys, 3);
        lemma_lookup_opt_entry::<LayerMinzoom>("minzoom"@, self.minzoom, "minzoom"@);
        if self.minzoom is Some {
            self.minzoom->0.lemma_round_trip();
        }
        Self::lemma_keys_differ(4);
        lemma_lookup_flatten(es, keys, 4);
        lemma_lookup_opt_entry::<LayerMaxzoom>("maxzoom"@, self.maxzoom, "maxzoom"@);
        if self.maxzoom is Some {
            self.maxzoom->0.lemma_round_trip();
        }
        Self::lemma_keys_differ(5);
        lemma_lookup_flatten(es, keys, 5);
        lemma_lookup_opt_entry::<LayerMetadata>("metadata"@, self.metadata, "metadata"@);
        if self.metadata is Some {
            self.metadata->0.lemma_round_trip();
        }
    }
}

/// A layer in the style: either a fully typed layer or a `ref` layer.
#[derive(PartialEq, Debug, Clone)]
pub enum AnyLayer {
    Typed(TypedLayer),
    Ref(RefLayer),
}

impl JsonDecode for AnyLayer {
    open spec fn accepts(v: Json) -> bool {
        TypedLayer::accepts(v) || RefLayer::accepts(v)
    }

    open spec fn decodes(v: Json, x: Self) -> bool {
        match x {
            AnyLayer::Typed(t) => TypedLayer::accepts(v) && TypedLayer::decodes(v, t),
            AnyLayer::Ref(t) => !TypedLayer::accepts(v) && RefLayer::accepts(v) && RefLayer::decodes(v, t),
        }
    }

    open spec fn rejection(v: Json) -> Seq<char> {
        "AnyLayer: no variant matched. Expected Typed(TypedLayer) | Ref(RefLayer). Errors: ["@ + "Typed: "@ + TypedLayer::rejection(v) + "; Ref: "@ + RefLayer::rejection(v) + "]"@
    }

    fn decode(v: &JsonValue) -> (r: Result<Self, String>) {
        let e0 = match TypedLayer::decode(v) {
            Ok(x) => {
                return Ok(AnyLayer::Typed(x));
            },
            Err(e) => e,
        };
        let e1 = match RefLayer::decode(v) {
            Ok(x) => {
                return Ok(AnyLayer::Ref(x));
            },
            Err(e) => e,
        };
        let mut m = "AnyLayer: no variant matched. Expected Typed(TypedLayer) | Ref(RefLayer). Errors: [".to_string();
        m.append("Typed: ");
        m.append(e0.as_str());
        m.append("; Ref: ");
        m.append(e1.as_str());
        m.append("]");
        Err(m)
    }
}

impl JsonEncode for AnyLayer {
    open spec fn to_json(self) -> Json {
        match self {
            AnyLayer::Typed(t) => TypedLayer::to_json(t),
            AnyLayer::Ref(t) => RefLayer::to_json(t),
        }
    }

    open spec fn round_trips(self) -> bool {
        match self {
            AnyLayer::Typed(t) => TypedLayer::round_trips(t),
            AnyLayer::Ref(t) => RefLayer::round_trips(t),
        }
    }

    fn encode(&self) -> (r: JsonValue) {
        match self {
            AnyLayer::Typed(t) => TypedLayer::encode(t),
            AnyLayer::Ref(t) => RefLayer::encode(t),
        }
    }

    proof fn lemma_round_trip(self) {
        match self {
            AnyLayer::Typed(t) => TypedLayer::lemma_round_trip(t),
            AnyLayer::Ref(t) => {
                RefLayer::lemma_round_trip(t);
                t.lemma_written_without_type();
            },
        }
    }
}


/// A style layer with its type-specific paint and layout properties.
#[derive(PartialEq, Debug, Clone)]
pub enum TypedLayer {
    Background { common: Layer, paint: Option<BackgroundPaintLayer>, layout: Option<BackgroundLayoutLayer> },
    Circle { common: Layer, paint: Option<CirclePaintLayer>, layout: Option<CircleLayoutLayer> },
    ColorRelief { common: Layer, paint: Option<ColorReliefPaintLayer>, layout: Option<ColorReliefLayoutLayer> },
    Fill { common: Layer, paint: Option<FillPaintLayer>, layout: Option<FillLayoutLayer> },
    FillExtrusion { common: Layer, paint: Option<FillExtrusionPaintLayer>, layout: Option<FillExtrusionLayoutLayer> },
    Heatmap { common: Layer, paint: Option<HeatmapPaintLayer>, layout: Option<HeatmapLayoutLayer> },
    Hillshade { common: Layer, paint: Option<HillshadePaintLayer>, layout: Option<HillshadeLayoutLayer> },
    Line { common: Layer, paint: Option<LinePaintLayer>, layout: Option<LineLayoutLayer> },
    Raster { common: Layer, paint: Option<RasterPaintLayer>, layout: Option<RasterLayoutLayer> },
    Symbol { common: Layer, paint: Option<SymbolPaintLayer>, layout: Option<SymbolLayoutLayer> },
}

impl TypedLayer {
    /// The layer type as it appears in a style document.
    pub open spec fn kind_name(self) -> Seq<char> {
        match self {
            TypedLayer::Background { .. } => "background"@,
            TypedLayer::Circle { .. } => "circle"@,
            TypedLayer::ColorRelief { .. } => "color-relief"@,
            TypedLayer::Fill { .. } => "fill"@,
            TypedLayer::FillExtrusion { .. } => "fill-extrusion"@,
            TypedLayer::Heatmap { .. } => "heatmap"@,
            TypedLayer::Hillshade { .. } => "hillshade"@,
            TypedLayer::Line { .. } => "line"@,
            TypedLayer::Raster { .. } => "raster"@,
            TypedLayer::Symbol { .. } => "symbol"@,
        }
    }

    /// The fields that all layer types share.
    pub open spec fn common_layer(self) -> Layer {
        match self {
            TypedLayer::Background { common, .. } => common,
            TypedLayer::Circle { common, .. } => common,
            TypedLayer::ColorRelief { common, .. } => common,
            TypedLayer::Fill { common, .. } => common,
            TypedLayer::FillExtrusion { common, .. } => common,
            TypedLayer::Heatmap { common, .. } => common,
            TypedLayer::Hillshade { common, .. } => common,
            TypedLayer::Line { common, .. } => common,
            TypedLayer::Raster { common, .. } => common,
            TypedLayer::Symbol { common, .. } => common,
        }
    }

    /// The same layer with the shared fields `c`.
    pub open spec fn with_common(self, c: Layer) -> TypedLayer {
        match self {
            TypedLayer::Background { paint, layout, .. } => TypedLayer::Background { common: c, paint, layout },
            TypedLayer::Circle { paint, layout, .. } => TypedLayer::Circle { common: c, paint, layout },
            TypedLayer::ColorRelief { paint, layout, .. } => TypedLayer::ColorRelief { common: c, paint, layout },
            TypedLayer::Fill { paint, layout, .. } => TypedLayer::Fill { common: c, paint, layout },
            TypedLayer::FillExtrusion { paint, layout, .. } => TypedLayer::FillExtrusion { common: c, paint, layout },
            TypedLayer::Heatmap { paint, layout, .. } => TypedLayer::Heatmap { common: c, paint, layout },
            TypedLayer::Hillshade { paint, layout, .. } => TypedLayer::Hillshade { common: c, paint, layout },
            TypedLayer::Line { paint, layout, .. } => TypedLayer::Line { common: c, paint, layout },
            TypedLayer::Raster { paint, layout, .. } => TypedLayer::Raster { common: c, paint, layout },
            TypedLayer::Symbol { paint, layout, .. } => TypedLayer::Symbol { common: c, paint, layout },
        }
    }

    /// Whether the object `v` reads as a layer of type `name`.
    pub open spec fn kind_accepts(name: Seq<char>, v: Json) -> bool {
        let o = v->Object_0;
        if name == "background"@ {
            &&& opt_field_accepts::<BackgroundPaintLayer>(o, "paint"@)
            &&& opt_field_accepts::<BackgroundLayoutLayer>(o, "layout"@)
            &&& Layer::accepts(v)
        }         else if name == "circle"@ {
            &&& opt_field_accepts::<CirclePaintLayer>(o, "paint"@)
            &&& opt_field_accepts::<CircleLayoutLayer>(o, "layout"@)
            &&& Layer::accepts(v)
        }         else if name == "color-relief"@ {
            &&& opt_field_accepts::<ColorReliefPaintLayer>(o, "paint"@)
            &&& opt_field_accepts::<ColorReliefLayoutLayer>(o, "layout"@)
            &&& Layer::accepts(v)
        }         else if name == "fill"@ {
            &&& opt_field_accepts::<FillPaintLayer>(o, "paint"@)
            &&& opt_field_accepts::<FillLayoutLayer>(o, "layout"@)
            &&& Layer::accepts(v)
        }         else if name == "fill-extrusion"@ {
            &&& opt_field_accepts::<FillExtrusionPaintLayer>(o, "paint"@)
            &&& opt_field_accepts::<FillExtrusionLayoutLayer>(o, "layout"@)
            &&& Layer::accepts(v)
        }         else if name == "heatmap"@ {
            &&& opt_field_accepts::<HeatmapPaintLayer>(o, "paint"@)
            &&& opt_field_accepts::<HeatmapLayoutLayer>(o, "layout"@)
            &&& Layer::accepts(v)
        }         else if name == "hillshade"@ {
            &&& opt_field_accepts::<HillshadePaintLayer>(o, "paint"@)
            &&& opt_field_accepts::<HillshadeLayoutLayer>(o, "layout"@)
            &&& Layer::accepts(v)
        }         else if name == "line"@ {
            &&& opt_field_accepts::<LinePaintLayer>(o, "paint"@)
            &&& opt_field_accepts::<LineLayoutLayer>(o, "layout"@)
            &&& Layer::accepts(v)
        }         else if name == "raster"@ {
            &&& opt_field_accepts::<RasterPaintLayer>(o, "paint"@)
            &&& opt_field_accepts::<RasterLayoutLayer>(o, "layout"@)
            &&& Layer::accepts(v)
        }         else if name == "symbol"@ {
            &&& opt_field_accepts::<SymbolPaintLayer>(o, "paint"@)
            &&& opt_field_accepts::<SymbolLayoutLayer>(o, "layout"@)
            &&& Layer::accepts(v)
        } else {
            false
        }
    }

    /// The message of an object `v` that does not read as a layer of type `name`.
    pub open spec fn kind_rejection(name: Seq<char>, v: Json) -> Seq<char> {
        let o = v->Object_0;
        if name == "background"@ {
            if !opt_field_accepts::<BackgroundPaintLayer>(o, "paint"@) && !opt_field_accepts::<BackgroundLayoutLayer>(o, "layout"@)
                && comes_before(o, "layout"@, "paint"@) {
                opt_field_rejection::<BackgroundLayoutLayer>(o, "layout"@)
            } else if !opt_field_accepts::<BackgroundPaintLayer>(o, "paint"@) {
                opt_field_rejection::<BackgroundPaintLayer>(o, "paint"@)
            } else if !opt_field_accepts::<BackgroundLayoutLayer>(o, "layout"@) {
                opt_field_rejection::<BackgroundLayoutLayer>(o, "layout"@)
            } else {
                Layer::rejection(v)
            }
        }         else if name == "circle"@ {
            if !opt_field_accepts::<CirclePaintLayer>(o, "paint"@) && !opt_field_accepts::<CircleLayoutLayer>(o, "layout"@)
                && comes_before(o, "layout"@, "paint"@) {
                opt_field_rejection::<CircleLayoutLayer>(o, "layout"@)
            } else if !opt_field_accepts::<CirclePaintLayer>(o, "paint"@) {
                opt_field_rejection::<CirclePaintLayer>(o, "paint"@)
            } else if !opt_field_accepts::<CircleLayoutLayer>(o, "layout"@) {
                opt_field_rejection::<CircleLayoutLayer>(o, "layout"@)
            } else {
                Layer::rejection(v)
            }
        }         else if name == "color-relief"@ {
            if !opt_field_accepts::<ColorReliefPaintLayer>(o, "paint"@) && !opt_field_accepts::<ColorReliefLayoutLayer>(o, "layout"@)
                && comes_before(o, "layout"@, "paint"@) {
                opt_field_rejection::<ColorReliefLayoutLayer>(o, "layout"@)
            } else if !opt_field_accepts::<ColorReliefPaintLayer>(o, "paint"@) {
                opt_field_rejection::<ColorReliefPaintLayer>(o, "paint"@)
            } else if !opt_field_accepts::<ColorReliefLayoutLayer>(o, "layout"@) {
                opt_field_rejection::<ColorReliefLayoutLayer>(o, "layout"@)
            } else {
                Layer::rejection(v)
            }
        }         else if name == "fill"@ {
            if !opt_field_accepts::<FillPaintLayer>(o, "paint"@) && !opt_field_accepts::<FillLayoutLayer>(o, "layout"@)
                && comes_before(o, "layout"@, "paint"@) {
                opt_field_rejection::<FillLayoutLayer>(o, "layout"@)
            } else if !opt_field_accepts::<FillPaintLayer>(o, "paint"@) {
                opt_field_rejection::<FillPaintLayer>(o, "paint"@)
            } else if !opt_field_accepts::<FillLayoutLayer>(o, "layout"@) {
                opt_field_rejection::<FillLayoutLayer>(o, "layout"@)
            } else {
                Layer::rejection(v)
            }
        }         else if name == "fill-extrusion"@ {
            if !opt_field_accepts::<FillExtrusionPaintLayer>(o, "paint"@) && !opt_field_accepts::<FillExtrusionLayoutLayer>(o, "layout"@)
                && comes_before(o, "layout"@, "paint"@) {
                opt_field_rejection::<FillExtrusionLayoutLayer>(o, "layout"@)
            } else if !opt_field_accepts::<FillExtrusionPaintLayer>(o, "paint"@) {
                opt_field_rejection::<FillExtrusionPaintLayer>(o, "paint"@)
            } else if !opt_field_accepts::<FillExtrusionLayoutLayer>(o, "layout"@) {
                opt_field_rejection::<FillExtrusionLayoutLayer>(o, "layout"@)
            } else {
                Layer::rejection(v)
            }
        }         else if name == "heatmap"@ {
            if !opt_field_accepts::<HeatmapPaintLayer>(o, "paint"@) && !opt_field_accepts::<HeatmapLayoutLayer>(o, "layout"@)
                && comes_before(o, "layout"@, "paint"@) {
                opt_field_rejection::<HeatmapLayoutLayer>(o, "layout"@)
            } else if !opt_field_accepts::<HeatmapPaintLayer>(o, "paint"@) {
                opt_field_rejection::<HeatmapPaintLayer>(o, "paint"@)
            } else if !opt_field_accepts::<HeatmapLayoutLayer>(o, "layout"@) {
                opt_field_rejection::<HeatmapLayoutLayer>(o, "layout"@)
            } else {
                Layer::rejection(v)
            }
        }         else if name == "hillshade"@ {
            if !opt_field_accepts::<HillshadePaintLayer>(o, "paint"@) && !opt_field_accepts::<HillshadeLayoutLayer>(o, "layout"@)
                && comes_before(o, "layout"@, "paint"@) {
                opt_field_rejection::<HillshadeLayoutLayer>(o, "layout"@)
            } else if !opt_field_accepts::<HillshadePaintLayer>(o, "paint"@) {
                opt_field_rejection::<HillshadePaintLayer>(o, "paint"@)
            } else if !opt_field_accepts::<HillshadeLayoutLayer>(o, "layout"@) {
                opt_field_rejection::<HillshadeLayoutLayer>(o, "layout"@)
            } else {
                Layer::rejection(v)
            }
        }         else if name == "line"@ {
            if !opt_field_accepts::<LinePaintLayer>(o, "paint"@) && !opt_field_accepts::<LineLayoutLayer>(o, "layout"@)
                && comes_before(o, "layout"@, "paint"@) {
                opt_field_rejection::<LineLayoutLayer>(o, "layout"@)
            } else if !opt_field_accepts::<LinePaintLayer>(o, "paint"@) {
                opt_field_rejection::<LinePaintLayer>(o, "paint"@)
            } else if !opt_field_accepts::<LineLayoutLayer>(o, "layout"@) {
                opt_field_rejection::<LineLayoutLayer>(o, "layout"@)
            } else {
                Layer::rejection(v)
            }
        }         else if name == "raster"@ {
            if !opt_field_accepts::<RasterPaintLayer>(o, "paint"@) && !opt_field_accepts::<RasterLayoutLayer>(o, "layout"@)
                && comes_before(o, "layout"@, "paint"@) {
                opt_field_rejection::<RasterLayoutLayer>(o, "layout"@)
            } else if !opt_field_accepts::<RasterPaintLayer>(o, "paint"@) {
                opt_field_rejection::<RasterPaintLayer>(o, "paint"@)
            } else if !opt_field_accepts::<RasterLayoutLayer>(o, "layout"@) {
                opt_field_rejection::<RasterLayoutLayer>(o, "layout"@)
            } else {
                Layer::rejection(v)
            }
        }         else if name == "symbol"@ {
            if !opt_field_accepts::<SymbolPaintLayer>(o, "paint"@) && !opt_field_accepts::<SymbolLayoutLayer>(o, "layout"@)
                && comes_before(o, "layout"@, "paint"@) {
                opt_field_rejection::<SymbolLayoutLayer>(o, "layout"@)
            } else if !opt_field_accepts::<SymbolPaintLayer>(o, "paint"@) {
                opt_field_rejection::<SymbolPaintLayer>(o, "paint"@)
            } else if !opt_field_accepts::<SymbolLayoutLayer>(o, "layout"@) {
                opt_field_rejection::<SymbolLayoutLayer>(o, "layout"@)
            } else {
                Layer::rejection(v)
            }
        } else {
            unknown_variant(name) + ", expected one of `background`, `circle`, `color-relief`, `fill`, `fill-extrusion`, `heatmap`, `hillshade`, `line`, `raster`, `symbol`"@
        }
    }

    /// Access the common `Layer` fields shared by all typed layers.
    pub fn common(&self) -> (r: &Layer)
        ensures
            *r == self.common_layer(),
    {
        match self {
            TypedLayer::Background { common, .. } => common,
            TypedLayer::Circle { common, .. } => common,
            TypedLayer::ColorRelief { common, .. } => common,
            TypedLayer::Fill { common, .. } => common,
            TypedLayer::FillExtrusion { common, .. } => common,
            TypedLayer::Heatmap { common, .. } => common,
            TypedLayer::Hillshade { common, .. } => common,
            TypedLayer::Line { common, .. } => common,
            TypedLayer::Raster { common, .. } => common,
            TypedLayer::Symbol { common, .. } => common,
        }
    }

    /// Mutably access the common `Layer` fields.
    pub fn common_mut(&mut self) -> (r: &mut Layer)
        ensures
            *r == old(self).common_layer(),
            *final(self) == old(self).with_common(*final(r)),
    {
        match self {
            TypedLayer::Background { common, .. } => common,
            TypedLayer::Circle { common, .. } => common,
            TypedLayer::ColorRelief { common, .. } => common,
            TypedLayer::Fill { common, .. } => common,
            TypedLayer::FillExtrusion { common, .. } => common,
            TypedLayer::Heatmap { common, .. } => common,
            TypedLayer::Hillshade { common, .. } => common,
            TypedLayer::Line { common, .. } => common,
            TypedLayer::Raster { common, .. } => common,
            TypedLayer::Symbol { common, .. } => common,
        }
    }

    /// The layer type string as it appears in JSON (e.g. `"fill"`, `"line"`).
    pub fn layer_type(&self) -> (r: &'static str)
        ensures
            r@ == self.kind_name(),
    {
        match self {
            TypedLayer::Background { .. } => "background",
            TypedLayer::Circle { .. } => "circle",
            TypedLayer::ColorRelief { .. } => "color-relief",
            TypedLayer::Fill { .. } => "fill",
            TypedLayer::FillExtrusion { .. } => "fill-extrusion",
            TypedLayer::Heatmap { .. } => "heatmap",
            TypedLayer::Hillshade { .. } => "hillshade",
            TypedLayer::Line { .. } => "line",
            TypedLayer::Raster { .. } => "raster",
            TypedLayer::Symbol { .. } => "symbol",
        }
    }

    /// The entries that a layer is written as: its type, the shared fields, the paint and the layout.
    pub open spec fn entry_groups(self) -> Seq<Seq<(Seq<char>, Json)>> {
        match self {
            TypedLayer::Background { common, paint, layout } => (seq![seq![("type"@, Json::Str("background"@))]]
                + common.field_entries()).push(opt_entry::<BackgroundPaintLayer>("paint"@, paint)).push(
                opt_entry::<BackgroundLayoutLayer>("layout"@, layout),
            ),
            TypedLayer::Circle { common, paint, layout } => (seq![seq![("type"@, Json::Str("circle"@))]]
                + common.field_entries()).push(opt_entry::<CirclePaintLayer>("paint"@, paint)).push(
                opt_entry::<CircleLayoutLayer>("layout"@, layout),
            ),
            TypedLayer::ColorRelief { common, paint, layout } => (seq![seq![("type"@, Json::Str("color-relief"@))]]
                + common.field_entries()).push(opt_entry::<ColorReliefPaintLayer>("paint"@, paint)).push(
                opt_entry::<ColorReliefLayoutLayer>("layout"@, layout),
            ),
            TypedLayer::Fill { common, paint, layout } => (seq![seq![("type"@, Json::Str("fill"@))]]
                + common.field_entries()).push(opt_entry::<FillPaintLayer>("paint"@, paint)).push(
                opt_entry::<FillLayoutLayer>("layout"@, layout),
            ),
            TypedLayer::FillExtrusion { common, paint, layout } => (seq![seq![("type"@, Json::Str("fill-extrusion"@))]]
                + common.field_entries()).push(opt_entry::<FillExtrusionPaintLayer>("paint"@, paint)).push(
                opt_entry::<FillExtrusionLayoutLayer>("layout"@, layout),
            ),
            TypedLayer::Heatmap { common, paint, layout } => (seq![seq![("type"@, Json::Str("heatmap"@))]]
                + common.field_entries()).push(opt_entry::<HeatmapPaintLayer>("paint"@, paint)).push(
                opt_entry::<HeatmapLayoutLayer>("layout"@, layout),
            ),
            TypedLayer::Hillshade { common, paint, layout } => (seq![seq![("type"@, Json::Str("hillshade"@))]]
                + common.field_entries()).push(opt_entry::<HillshadePaintLayer>("paint"@, paint)).push(
                opt_entry::<HillshadeLayoutLayer>("layout"@, layout),
            ),
            TypedLayer::Line { common, paint, layout } => (seq![seq![("type"@, Json::Str("line"@))]]
                + common.field_entries()).push(opt_entry::<LinePaintLayer>("paint"@, paint)).push(
                opt_entry::<LineLayoutLayer>("layout"@, layout),
            ),
            TypedLayer::Raster { common, paint, layout } => (seq![seq![("type"@, Json::Str("raster"@))]]
                + common.field_entries()).push(opt_entry::<RasterPaintLayer>("paint"@, paint)).push(
                opt_entry::<RasterLayoutLayer>("layout"@, layout),
            ),
            TypedLayer::Symbol { common, paint, layout } => (seq![seq![("type"@, Json::Str("symbol"@))]]
                + common.field_entries()).push(opt_entry::<SymbolPaintLayer>("paint"@, paint)).push(
                opt_entry::<SymbolLayoutLayer>("layout"@, layout),
            ),
        }
    }

    /// The keys of the entries that a layer is written as, in order.
    pub open spec fn entry_keys() -> Seq<Seq<char>> {
        (seq!["type"@] + Layer::field_keys()).push("paint"@).push("layout"@)
    }

    proof fn lemma_entry_keys_differ(i: int)
        requires
            0 <= i < 10,
        ensures
            others_differ(Self::entry_keys(), i),
    {
        let keys = Self::entry_keys();
        reveal_strlit("type");
        reveal_strlit("paint");
        reveal_strlit("layout");
        reveal_strlit("filter");
        reveal_strlit("id");
        reveal_strlit("maxzoom");
        reveal_strlit("metadata");
        reveal_strlit("minzoom");
        reveal_strlit("source");
        reveal_strlit("source-layer");
        assert("type"@.len() == 4);
        assert("paint"@.len() == 5);
        assert("layout"@.len() == 6);
        assert("filter"@.len() == 6);
        assert("id"@.len() == 2);
        assert("maxzoom"@.len() == 7);
        assert("metadata"@.len() == 8);
        assert("minzoom"@.len() == 7);
        assert("source"@.len() == 6);
        assert("source-layer"@.len() == 12);
        assert("filter"@[0] != "source"@[0]);
        assert("layout"@[0] != "source"@[0]);
        assert("layout"@[0] != "filter"@[0]);
        assert("maxzoom"@[1] != "minzoom"@[1]);
        assert(keys =~= seq!["type"@, "filter"@, "id"@, "maxzoom"@, "metadata"@, "minzoom"@, "source"@, "source-layer"@, "paint"@, "layout"@]);
    }

    proof fn lemma_kind_names_differ(x: TypedLayer)
        ensures
            x.kind_name() == "background"@ ==> x is Background,
            x.kind_name() == "circle"@ ==> x is Circle,
            x.kind_name() == "color-relief"@ ==> x is ColorRelief,
            x.kind_name() == "fill"@ ==> x is Fill,
            x.kind_name() == "fill-extrusion"@ ==> x is FillExtrusion,
            x.kind_name() == "heatmap"@ ==> x is Heatmap,
            x.kind_name() == "hillshade"@ ==> x is Hillshade,
            x.kind_name() == "line"@ ==> x is Line,
            x.kind_name() == "raster"@ ==> x is Raster,
            x.kind_name() == "symbol"@ ==> x is Symbol,
    {
        reveal_strlit("background");
        assert("background"@.len() == 10);
        reveal_strlit("circle");
        assert("circle"@.len() == 6);
        reveal_strlit("color-relief");
        assert("color-relief"@.len() == 12);
        reveal_strlit("fill");
        assert("fill"@.len() == 4);
        reveal_strlit("fill-extrusion");
        assert("fill-extrusion"@.len() == 14);
        reveal_strlit("heatmap");
        assert("heatmap"@.len() == 7);
        reveal_strlit("hillshade");
        assert("hillshade"@.len() == 9);
        reveal_strlit("line");
        assert("line"@.len() == 4);
        reveal_strlit("raster");
        assert("raster"@.len() == 6);
        reveal_strlit("symbol");
        assert("symbol"@.len() == 6);
        assert("circle"@[0] != "raster"@[0]);
        assert("circle"@[0] != "symbol"@[0]);
        assert("fill"@[0] != "line"@[0]);
        assert("raster"@[0] != "symbol"@[0]);
    }
}

impl TypedLayer {
    /// A layer is read as the kind that its `type` names, and no other kind.
    pub proof fn lemma_read_by_type()
        ensures
            forall|v: Json, x: TypedLayer| #[trigger] TypedLayer::decodes(v, x) ==> (lookup(v->Object_0, "type"@) == Some(Json::Str("fill"@)) <==> x is Fill),
            forall|v: Json, x: TypedLayer| #[trigger] TypedLayer::decodes(v, x) ==> (lookup(v->Object_0, "type"@) == Some(Json::Str("background"@)) <==> x is Background),
            forall|v: Json, x: TypedLayer| #[trigger] TypedLayer::decodes(v, x) ==> (lookup(v->Object_0, "type"@) == Some(Json::Str("circle"@)) <==> x is Circle),
            forall|v: Json, x: TypedLayer| #[trigger] TypedLayer::decodes(v, x) ==> (lookup(v->Object_0, "type"@) == Some(Json::Str("hillshade"@)) <==> x is Hillshade),
            forall|v: Json, x: TypedLayer| #[trigger] TypedLayer::decodes(v, x) ==> (lookup(v->Object_0, "type"@) == Some(Json::Str("symbol"@)) <==> x is Symbol),
            forall|v: Json, x: TypedLayer| #[trigger] TypedLayer::decodes(v, x) ==> (lookup(v->Object_0, "type"@) == Some(Json::Str("line"@)) <==> x is Line),
            forall|v: Json, x: TypedLayer| #[trigger] TypedLayer::decodes(v, x) ==> (lookup(v->Object_0, "type"@) == Some(Json::Str("fill-extrusion"@)) <==> x is FillExtrusion),
            forall|v: Json, x: TypedLayer| #[trigger] TypedLayer::decodes(v, x) ==> (lookup(v->Object_0, "type"@) == Some(Json::Str("color-relief"@)) <==> x is ColorRelief),
            forall|v: Json, x: TypedLayer| #[trigger] TypedLayer::decodes(v, x) ==> (lookup(v->Object_0, "type"@) == Some(Json::Str("heatmap"@)) <==> x is Heatmap),
            forall|v: Json, x: TypedLayer| #[trigger] TypedLayer::decodes(v, x) ==> (lookup(v->Object_0, "type"@) == Some(Json::Str("raster"@)) <==> x is Raster),
    {
        reveal_strlit("raster");
        reveal_strlit("fill");
        reveal_strlit("line");
        reveal_strlit("symbol");
        reveal_strlit("heatmap");
        reveal_strlit("color-relief");
        reveal_strlit("background");
        reveal_strlit("fill-extrusion");
        reveal_strlit("hillshade");
        reveal_strlit("circle");
        assert("background"@.len() != "heatmap"@.len());
        assert("line"@.len() != "raster"@.len());
        assert("color-relief"@.len() != "fill"@.len());
        assert("circle"@.len() != "heatmap"@.len());
        assert("background"@.len() != "hillshade"@.len());
        assert("raster"@[0] != "symbol"@[0]);
        assert("color-relief"@.len() != "raster"@.len());
        assert("color-relief"@.len() != "fill-extrusion"@.len());
        assert("color-relief"@.len() != "heatmap"@.len());
        assert("heatmap"@.len() != "line"@.len());
        assert("heatmap"@.len() != "raster"@.len());
        assert("fill-extrusion"@.len() != "hillshade"@.len());
        assert("background"@.len() != "symbol"@.len());
        assert("circle"@.len() != "fill-extrusion"@.len());
        assert("color-relief"@.len() != "line"@.len());
        assert("fill"@.len() != "heatmap"@.len());
        assert("background"@.len() != "line"@.len());
        assert("heatmap"@.len() != "symbol"@.len());
        assert("fill"@.len() != "hillshade"@.len());
        assert("circle"@.len() != "fill"@.len());
        assert("background"@.len() != "raster"@.len());
        assert("fill-extrusion"@.len() != "symbol"@.len());
        assert("background"@.len() != "fill-extrusion"@.len());
        assert("background"@.len() != "circle"@.len());
        assert("hillshade"@.len() != "symbol"@.len());
        assert("circle"@[0] != "symbol"@[0]);
        assert("line"@.len() != "symbol"@.len());
        assert("fill"@[0] != "line"@[0]);
        assert("circle"@.len() != "line"@.len());
        assert("fill"@.len() != "symbol"@.len());
        assert("color-relief"@.len() != "symbol"@.len());
        assert("background"@.len() != "fill"@.len());
        assert("fill"@.len() != "raster"@.len());
        assert("background"@.len() != "color-relief"@.len());
        assert("fill"@.len() != "fill-extrusion"@.len());
        assert("hillshade"@.len() != "line"@.len());
        assert("circle"@.len() != "hillshade"@.len());
        assert("hillshade"@.len() != "raster"@.len());
        assert("fill-extrusion"@.len() != "raster"@.len());
        assert("color-relief"@.len() != "hillshade"@.len());
        assert("fill-extrusion"@.len() != "line"@.len());
        assert("heatmap"@.len() != "hillshade"@.len());
        assert("circle"@[0] != "raster"@[0]);
        assert("fill-extrusion"@.len() != "heatmap"@.len());
        assert("circle"@.len() != "color-relief"@.len());
    }
}

impl JsonDecode for TypedLayer {
    open spec fn accepts(v: Json) -> bool {
        v is Object && match lookup(v->Object_0, "type"@) {
            Some(t) => t is Str && Self::kind_accepts(t->Str_0, v),
            None => false,
        }
    }

    open spec fn decodes(v: Json, x: Self) -> bool {
        &&& v is Object
        &&& lookup(v->Object_0, "type"@) == Some(Json::Str(x.kind_name()))
        &&& match x {
            TypedLayer::Background { common, paint, layout } => {
                &&& opt_field_decodes::<BackgroundPaintLayer>(v->Object_0, "paint"@, paint)
                &&& opt_field_decodes::<BackgroundLayoutLayer>(v->Object_0, "layout"@, layout)
                &&& Layer::decodes(v, common)
            },
            TypedLayer::Circle { common, paint, layout } => {
                &&& opt_field_decodes::<CirclePaintLayer>(v->Object_0, "paint"@, paint)
                &&& opt_field_decodes::<CircleLayoutLayer>(v->Object_0, "layout"@, layout)
                &&& Layer::decodes(v, common)
            },
            TypedLayer::ColorRelief { common, paint, layout } => {
                &&& opt_field_decodes::<ColorReliefPaintLayer>(v->Object_0, "paint"@, paint)
                &&& opt_field_decodes::<ColorReliefLayoutLayer>(v->Object_0, "layout"@, layout)
                &&& Layer::decodes(v, common)
            },
            TypedLayer::Fill { common, paint, layout } => {
                &&& opt_field_decodes::<FillPaintLayer>(v->Object_0, "paint"@, paint)
                &&& opt_field_decodes::<FillLayoutLayer>(v->Object_0, "layout"@, layout)
                &&& Layer::decodes(v, common)
            },
            TypedLayer::FillExtrusion { common, paint, layout } => {
                &&& opt_field_decodes::<FillExtrusionPaintLayer>(v->Object_0, "paint"@, paint)
                &&& opt_field_decodes::<FillExtrusionLayoutLayer>(v->Object_0, "layout"@, layout)
                &&& Layer::decodes(v, common)
            },
            TypedLayer::Heatmap { common, paint, layout } => {
                &&& opt_field_decodes::<HeatmapPaintLayer>(v->Object_0, "paint"@, paint)
                &&& opt_field_decodes::<HeatmapLayoutLayer>(v->Object_0, "layout"@, layout)
                &&& Layer::decodes(v, common)
            },
            TypedLayer::Hillshade { common, paint, layout } => {
                &&& opt_field_decodes::<HillshadePaintLayer>(v->Object_0, "paint"@, paint)
                &&& opt_field_decodes::<HillshadeLayoutLayer>(v->Object_0, "layout"@, layout)
                &&& Layer::decodes(v, common)
            },
            TypedLayer::Line { common, paint, layout } => {
                &&& opt_field_decodes::<LinePaintLayer>(v->Object_0, "paint"@, paint)
                &&& opt_field_decodes::<LineLayoutLayer>(v->Object_0, "layout"@, layout)
                &&& Layer::decodes(v, common)
            },
            TypedLayer::Raster { common, paint, layout } => {
                &&& opt_field_decodes::<RasterPaintLayer>(v->Object_0, "paint"@, paint)
                &&& opt_field_decodes::<RasterLayoutLayer>(v->Object_0, "layout"@, layout)
                &&& Layer::decodes(v, common)
            },
            TypedLayer::Symbol { common, paint, layout } => {
                &&& opt_field_decodes::<SymbolPaintLayer>(v->Object_0, "paint"@, paint)
                &&& opt_field_decodes::<SymbolLayoutLayer>(v->Object_0, "layout"@, layout)
                &&& Layer::decodes(v, common)
            },
        }
    }

    open spec fn rejection(v: Json) -> Seq<char> {
        if !(v is Object) {
            type_error(v, "internally tagged enum TypedLayer"@)
        } else {
            match lookup(v->Object_0, "type"@) {
                None => missing_field("type"@),
                Some(t) => if t is Str {
                    Self::kind_rejection(t->Str_0, v)
                } else {
                    type_error(t, "variant identifier"@)
                },
            }
        }
    }

    fn decode(v: &JsonValue) -> (r: Result<Self, String>) {
        match v {
            JsonValue::Object(fields) => {
                let t = match get_field(fields, "type") {
                    Some(t) => t,
                    None => return Err(make_missing_field("type")),
                };
                let name = match t {
                    JsonValue::String(s) => s.as_str(),
                    _ => return Err(make_type_error(t, "variant identifier")),
                };
                if str_eq(name, "background") {
                    let paint_read = decode_opt_field::<BackgroundPaintLayer>(fields, "paint");
                    let layout_read = decode_opt_field::<BackgroundLayoutLayer>(fields, "layout");
                    let (paint, layout) = match (paint_read, layout_read) {
                        (Ok(p), Ok(l)) => (p, l),
                        (Err(e), Ok(_)) => return Err(e),
                        (Ok(_), Err(e)) => return Err(e),
                        (Err(pe), Err(le)) => {
                            if key_comes_before(fields, "layout", "paint") {
                                return Err(le);
                            }
                            return Err(pe);
                        },
                    };
                    let common = match Layer::decode(v) {
                        Ok(x) => x,
                        Err(e) => return Err(e),
                    };
                    Ok(TypedLayer::Background { common, paint, layout })
                }                 else if str_eq(name, "circle") {
                    let paint_read = decode_opt_field::<CirclePaintLayer>(fields, "paint");
                    let layout_read = decode_opt_field::<CircleLayoutLayer>(fields, "layout");
                    let (paint, layout) = match (paint_read, layout_read) {
                        (Ok(p), Ok(l)) => (p, l),
                        (Err(e), Ok(_)) => return Err(e),
                        (Ok(_), Err(e)) => return Err(e),
                        (Err(pe), Err(le)) => {
                            if key_comes_before(fields, "layout", "paint") {
                                return Err(le);
                            }
                            return Err(pe);
                        },
                    };
                    let common = match Layer::decode(v) {
                        Ok(x) => x,
                        Err(e) => return Err(e),
                    };
                    Ok(TypedLayer::Circle { common, paint, layout })
                }                 else if str_eq(name, "color-relief") {
                    let paint_read = decode_opt_field::<ColorReliefPaintLayer>(fields, "paint");
                    let layout_read = decode_opt_field::<ColorReliefLayoutLayer>(fields, "layout");
                    let (paint, layout) = match (paint_read, layout_read) {
                        (Ok(p), Ok(l)) => (p, l),
                        (Err(e), Ok(_)) => return Err(e),
                        (Ok(_), Err(e)) => return Err(e),
                        (Err(pe), Err(le)) => {
                            if key_comes_before(fields, "layout", "paint") {
                                return Err(le);
                            }
                            return Err(pe);
                        },
                    };
                    let common = match Layer::decode(v) {
                        Ok(x) => x,
                        Err(e) => return Err(e),
                    };
                    Ok(TypedLayer::ColorRelief { common, paint, layout })
                }                 else if str_eq(name, "fill") {
                    let paint_read = decode_opt_field::<FillPaintLayer>(fields, "paint");
                    let layout_read = decode_opt_field::<FillLayoutLayer>(fields, "layout");
                    let (paint, layout) = match (paint_read, layout_read) {
                        (Ok(p), Ok(l)) => (p, l),
                        (Err(e), Ok(_)) => return Err(e),
                        (Ok(_), Err(e)) => return Err(e),
                        (Err(pe), Err(le)) => {
                            if key_comes_before(fields, "layout", "paint") {
                                return Err(le);
                            }
                            return Err(pe);
                        },
                    };
                    let common = match Layer::decode(v) {
                        Ok(x) => x,
                        Err(e) => return Err(e),
                    };
                    Ok(TypedLayer::Fill { common, paint, layout })
                }                 else if str_eq(name, "fill-extrusion") {
                    let paint_read = decode_opt_field::<FillExtrusionPaintLayer>(fields, "paint");
                    let layout_read = decode_opt_field::<FillExtrusionLayoutLayer>(fields, "layout");
                    let (paint, layout) = match (paint_read, layout_read) {
                        (Ok(p), Ok(l)) => (p, l),
                        (Err(e), Ok(_)) => return Err(e),
                        (Ok(_), Err(e)) => return Err(e),
                        (Err(pe), Err(le)) => {
                            if key_comes_before(fields, "layout", "paint") {
                                return Err(le);
                            }
                            return Err(pe);
                        },
                    };
                    let common = match Layer::decode(v) {
                        Ok(x) => x,
                        Err(e) => return Err(e),
                    };
                    Ok(TypedLayer::FillExtrusion { common, paint, layout })
                }                 else if str_eq(name, "heatmap") {
                    let paint_read = decode_opt_field::<HeatmapPaintLayer>(fields, "paint");
                    let layout_read = decode_opt_field::<HeatmapLayoutLayer>(fields, "layout");
                    let (paint, layout) = match (paint_read, layout_read) {
                        (Ok(p), Ok(l)) => (p, l),
                        (Err(e), Ok(_)) => return Err(e),
                        (Ok(_), Err(e)) => return Err(e),
                        (Err(pe), Err(le)) => {
                            if key_comes_before(fields, "layout", "paint") {
                                return Err(le);
                            }
                            return Err(pe);
                        },
                    };
                    let common = match Layer::decode(v) {
                        Ok(x) => x,
                        Err(e) => return Err(e),
                    };
                    Ok(TypedLayer::Heatmap { common, paint, layout })
                }                 else if str_eq(name, "hillshade") {
                    let paint_read = decode_opt_field::<HillshadePaintLayer>(fields, "paint");
                    let layout_read = decode_opt_field::<HillshadeLayoutLayer>(fields, "layout");
                    let (paint, layout) = match (paint_read, layout_read) {
                        (Ok(p), Ok(l)) => (p, l),
                        (Err(e), Ok(_)) => return Err(e),
                        (Ok(_), Err(e)) => return Err(e),
                        (Err(pe), Err(le)) => {
                            if key_comes_before(fields, "layout", "paint") {
                                return Err(le);
                            }
                            return Err(pe);
                        },
                    };
                    let common = match Layer::decode(v) {
                        Ok(x) => x,
                        Err(e) => return Err(e),
                    };
                    Ok(TypedLayer::Hillshade { common, paint, layout })
                }                 else if str_eq(name, "line") {
                    let paint_read = decode_opt_field::<LinePaintLayer>(fields, "paint");
                    let layout_read = decode_opt_field::<LineLayoutLayer>(fields, "layout");
                    let (paint, layout) = match (paint_read, layout_read) {
                        (Ok(p), Ok(l)) => (p, l),
                        (Err(e), Ok(_)) => return Err(e),
                        (Ok(_), Err(e)) => return Err(e),
                        (Err(pe), Err(le)) => {
                            if key_comes_before(fields, "layout", "paint") {
                                return Err(le);
                            }
                            return Err(pe);
                        },
                    };
                    let common = match Layer::decode(v) {
                        Ok(x) => x,
                        Err(e) => return Err(e),
                    };
                    Ok(TypedLayer::Line { common, paint, layout })
                }                 else if str_eq(name, "raster") {
                    let paint_read = decode_opt_field::<RasterPaintLayer>(fields, "paint");
                    let layout_read = decode_opt_field::<RasterLayoutLayer>(fields, "layout");
                    let (paint, layout) = match (paint_read, layout_read) {
                        (Ok(p), Ok(l)) => (p, l),
                        (Err(e), Ok(_)) => return Err(e),
                        (Ok(_), Err(e)) => return Err(e),
                        (Err(pe), Err(le)) => {
                            if key_comes_before(fields, "layout", "paint") {
                                return Err(le);
                            }
                            return Err(pe);
                        },
                    };
                    let common = match Layer::decode(v) {
                        Ok(x) => x,
                        Err(e) => return Err(e),
                    };
                    Ok(TypedLayer::Raster { common, paint, layout })
                }                 else if str_eq(name, "symbol") {
                    let paint_read = decode_opt_field::<SymbolPaintLayer>(fields, "paint");
                    let layout_read = decode_opt_field::<SymbolLayoutLayer>(fields, "layout");
                    let (paint, layout) = match (paint_read, layout_read) {
                        (Ok(p), Ok(l)) => (p, l),
                        (Err(e), Ok(_)) => return Err(e),
                        (Ok(_), Err(e)) => return Err(e),
                        (Err(pe), Err(le)) => {
                            if key_comes_before(fields, "layout", "paint") {
                                return Err(le);
                            }
                            return Err(pe);
                        },
                    };
                    let common = match Layer::decode(v) {
                        Ok(x) => x,
                        Err(e) => return Err(e),
                    };
                    Ok(TypedLayer::Symbol { common, paint, layout })
                } else {
                    let mut m = make_unknown_variant(name);
                    m.append(", expected one of `background`, `circle`, `color-relief`, `fill`, `fill-extrusion`, `heatmap`, `hillshade`, `line`, `raster`, `symbol`");
                    Err(m)
                }
            },
            _ => Err(make_type_error(v, "internally tagged enum TypedLayer")),
        }
    }
}

proof fn lemma_flatten_prepend(a: Seq<(Seq<char>, Json)>, f: Seq<Seq<(Seq<char>, Json)>>)
    ensures
        (seq![a] + f).flatten() == a + f.flatten(),
{
    let s = seq![a] + f;
    assert(s.first() == a);
    assert(s.drop_first() =~= f);
}

impl JsonEncode for TypedLayer {
    open spec fn to_json(self) -> Json {
        Json::Object(self.entry_groups().flatten())
    }

    open spec fn round_trips(self) -> bool {
        &&& self.common_layer().round_trips()
        &&& match self {
            TypedLayer::Background { paint, layout, .. } => {
                &&& (paint matches Some(t) ==> t.round_trips() && !(t.to_json() is Null))
                &&& (layout matches Some(t) ==> t.round_trips() && !(t.to_json() is Null))
            },
            TypedLayer::Circle { paint, layout, .. } => {
                &&& (paint matches Some(t) ==> t.round_trips() && !(t.to_json() is Null))
                &&& (layout matches Some(t) ==> t.round_trips() && !(t.to_json() is Null))
            },
            TypedLayer::ColorRelief { paint, layout, .. } => {
                &&& (paint matches Some(t) ==> t.round_trips() && !(t.to_json() is Null))
                &&& (layout matches Some(t) ==> t.round_trips() && !(t.to_json() is Null))
            },
            TypedLayer::Fill { paint, layout, .. } => {
                &&& (paint matches Some(t) ==> t.round_trips() && !(t.to_json() is Null))
                &&& (layout matches Some(t) ==> t.round_trips() && !(t.to_json() is Null))
            },
            TypedLayer::FillExtrusion { paint, layout, .. } => {
                &&& (paint matches Some(t) ==> t.round_trips() && !(t.to_json() is Null))
                &&& (layout matches Some(t) ==> t.round_trips() && !(t.to_json() is Null))
            },
            TypedLayer::Heatmap { paint, layout, .. } => {
                &&& (paint matches Some(t) ==> t.round_trips() && !(t.to_json() is Null))
                &&& (layout matches Some(t) ==> t.round_trips() && !(t.to_json() is Null))
            },
            TypedLayer::Hillshade { paint, layout, .. } => {
                &&& (paint matches Some(t) ==> t.round_trips() && !(t.to_json() is Null))
                &&& (layout matches Some(t) ==> t.round_trips() && !(t.to_json() is Null))
            },
            TypedLayer::Line { paint, layout, .. } => {
                &&& (paint matches Some(t) ==> t.round_trips() && !(t.to_json() is Null))
                &&& (layout matches Some(t) ==> t.round_trips() && !(t.to_json() is Null))
            },
            TypedLayer::Raster { paint, layout, .. } => {
                &&& (paint matches Some(t) ==> t.round_trips() && !(t.to_json() is Null))
                &&& (layout matches Some(t) ==> t.round_trips() && !(t.to_json() is Null))
            },
            TypedLayer::Symbol { paint, layout, .. } => {
                &&& (paint matches Some(t) ==> t.round_trips() && !(t.to_json() is Null))
                &&& (layout matches Some(t) ==> t.round_trips() && !(t.to_json() is Null))
            },
        }
    }

    fn encode(&self) -> (r: JsonValue) {
        let mut out: Vec<(String, JsonValue)> = Vec::new();
        let key = "type".to_string();
        let name = self.layer_type().to_string();
        let value = JsonValue::String(name);
        proof {
            assert(key@ == "type"@);
            assert(value.model() == Json::Str(self.kind_name()));
        }
        out.push((key, value));
        let ghost head = seq![("type"@, Json::Str(self.kind_name()))];
        let ghost cf = self.common_layer().field_entries();
        proof {
            assert(entries_model(out) =~= head);
        }
        let c = self.common().encode();
        match c {
            JsonValue::Object(es) => {
                let mut es = es;
                let ghost before = entries_model(out);
                let ghost added = entries_model(es);
                out.append(&mut es);
                proof {
                    assert(entries_model(out) =~= before + added);
                }
            },
            _ => {
                proof {
                    assert(false);
                }
            },
        }
        let ghost mid = entries_model(out);
        proof {
            assert(mid == head + cf.flatten());
            lemma_flatten_prepend(head, cf);
        }
        match self {
            TypedLayer::Background { paint, layout, .. } => {
                push_opt_entry::<BackgroundPaintLayer>(&mut out, "paint", paint);
                push_opt_entry::<BackgroundLayoutLayer>(&mut out, "layout", layout);
                proof {
                    let g = seq![head] + cf;
                    g.lemma_flatten_push(opt_entry::<BackgroundPaintLayer>("paint"@, *paint));
                    g.push(opt_entry::<BackgroundPaintLayer>("paint"@, *paint)).lemma_flatten_push(
                        opt_entry::<BackgroundLayoutLayer>("layout"@, *layout),
                    );
                    assert(entries_model(out) =~= self.entry_groups().flatten());
                }
            },
            TypedLayer::Circle { paint, layout, .. } => {
                push_opt_entry::<CirclePaintLayer>(&mut out, "paint", paint);
                push_opt_entry::<CircleLayoutLayer>(&mut out, "layout", layout);
                proof {
                    let g = seq![head] + cf;
                    g.lemma_flatten_push(opt_entry::<CirclePaintLayer>("paint"@, *paint));
                    g.push(opt_entry::<CirclePaintLayer>("paint"@, *paint)).lemma_flatten_push(
                        opt_entry::<CircleLayoutLayer>("layout"@, *layout),
                    );
                    assert(entries_model(out) =~= self.entry_groups().flatten());
                }
            },
            TypedLayer::ColorRelief { paint, layout, .. } => {
                push_opt_entry::<ColorReliefPaintLayer>(&mut out, "paint", paint);
                push_opt_entry::<ColorReliefLayoutLayer>(&mut out, "layout", layout);
                proof {
                    let g = seq![head] + cf;
                    g.lemma_flatten_push(opt_entry::<ColorReliefPaintLayer>("paint"@, *paint));
                    g.push(opt_entry::<ColorReliefPaintLayer>("paint"@, *paint)).lemma_flatten_push(
                        opt_entry::<ColorReliefLayoutLayer>("layout"@, *layout),
                    );
                    assert(entries_model(out) =~= self.entry_groups().flatten());
                }
            },
            TypedLayer::Fill { paint, layout, .. } => {
                push_opt_entry::<FillPaintLayer>(&mut out, "paint", paint);
                push_opt_entry::<FillLayoutLayer>(&mut out, "layout", layout);
                proof {
                    let g = seq![head] + cf;
                    g.lemma_flatten_push(opt_entry::<FillPaintLayer>("paint"@, *paint));
                    g.push(opt_entry::<FillPaintLayer>("paint"@, *paint)).lemma_flatten_push(
                        opt_entry::<FillLayoutLayer>("layout"@, *layout),
                    );
                    assert(entries_model(out) =~= self.entry_groups().flatten());
                }
            },
            TypedLayer::FillExtrusion { paint, layout, .. } => {
                push_opt_entry::<FillExtrusionPaintLayer>(&mut out, "paint", paint);
                push_opt_entry::<FillExtrusionLayoutLayer>(&mut out, "layout", layout);
                proof {
                    let g = seq![head] + cf;
                    g.lemma_flatten_push(opt_entry::<FillExtrusionPaintLayer>("paint"@, *paint));
                    g.push(opt_entry::<FillExtrusionPaintLayer>("paint"@, *paint)).lemma_flatten_push(
                        opt_entry::<FillExtrusionLayoutLayer>("layout"@, *layout),
                    );
                    assert(entries_model(out) =~= self.entry_groups().flatten());
                }
            },
            TypedLayer::Heatmap { paint, layout, .. } => {
                push_opt_entry::<HeatmapPaintLayer>(&mut out, "paint", paint);
                push_opt_entry::<HeatmapLayoutLayer>(&mut out, "layout", layout);
                proof {
                    let g = seq![head] + cf;
                    g.lemma_flatten_push(opt_entry::<HeatmapPaintLayer>("paint"@, *paint));
                    g.push(opt_entry::<HeatmapPaintLayer>("paint"@, *paint)).lemma_flatten_push(
                        opt_entry::<HeatmapLayoutLayer>("layout"@, *layout),
                    );
                    assert(entries_model(out) =~= self.entry_groups().flatten());
                }
            },
            TypedLayer::Hillshade { paint, layout, .. } => {
                push_opt_entry::<HillshadePaintLayer>(&mut out, "paint", paint);
                push_opt_entry::<HillshadeLayoutLayer>(&mut out, "layout", layout);
                proof {
                    let g = seq![head] + cf;
                    g.lemma_flatten_push(opt_entry::<HillshadePaintLayer>("paint"@, *paint));
                    g.push(opt_entry::<HillshadePaintLayer>("paint"@, *paint)).lemma_flatten_push(
                        opt_entry::<HillshadeLayoutLayer>("layout"@, *layout),
                    );
                    assert(entries_model(out) =~= self.entry_groups().flatten());
                }
            },
            TypedLayer::Line { paint, layout, .. } => {
                push_opt_entry::<LinePaintLayer>(&mut out, "paint", paint);
                push_opt_entry::<LineLayoutLayer>(&mut out, "layout", layout);
                proof {
                    let g = seq![head] + cf;
                    g.lemma_flatten_push(opt_entry::<LinePaintLayer>("paint"@, *paint));
                    g.push(opt_entry::<LinePaintLayer>("paint"@, *paint)).lemma_flatten_push(
                        opt_entry::<LineLayoutLayer>("layout"@, *layout),
                    );
                    assert(entries_model(out) =~= self.entry_groups().flatten());
                }
            },
            TypedLayer::Raster { paint, layout, .. } => {
                push_opt_entry::<RasterPaintLayer>(&mut out, "paint", paint);
                push_opt_entry::<RasterLayoutLayer>(&mut out, "layout", layout);
                proof {
                    let g = seq![head] + cf;
                    g.lemma_flatten_push(opt_entry::<RasterPaintLayer>("paint"@, *paint));
                    g.push(opt_entry::<RasterPaintLayer>("paint"@, *paint)).lemma_flatten_push(
                        opt_entry::<RasterLayoutLayer>("layout"@, *layout),
                    );
                    assert(entries_model(out) =~= self.entry_groups().flatten());
                }
            },
            TypedLayer::Symbol { paint, layout, .. } => {
                push_opt_entry::<SymbolPaintLayer>(&mut out, "paint", paint);
                push_opt_entry::<SymbolLayoutLayer>(&mut out, "layout", layout);
                proof {
                    let g = seq![head] + cf;
                    g.lemma_flatten_push(opt_entry::<SymbolPaintLayer>("paint"@, *paint));
                    g.push(opt_entry::<SymbolPaintLayer>("paint"@, *paint)).lemma_flatten_push(
                        opt_entry::<SymbolLayoutLayer>("layout"@, *layout),
                    );
                    assert(entries_model(out) =~= self.entry_groups().flatten());
                }
            },
        }
        JsonValue::Object(out)
    }

    #[verifier::rlimit(40)]
    proof fn lemma_round_trip(self) {
        let es = self.entry_groups();
        let keys = Self::entry_keys();
        let c = self.common_layer();
        let cf = c.field_entries();
        let lkeys = Layer::field_keys();
        assert(keys =~= seq!["type"@, "filter"@, "id"@, "maxzoom"@, "metadata"@, "minzoom"@, "source"@, "source-layer"@, "paint"@, "layout"@]);
        assert(keyed_by(cf, lkeys));
        assert(es.len() == 10);
        assert forall|j: int, k: int| 0 <= j < es.len() && 0 <= k < es[j].len() implies (#[trigger] es[j][k]).0
            == keys[j] by {
            if 1 <= j < 8 {
                assert(es[j] == cf[j - 1]);
            }
        }
        assert(keyed_by(es, keys));
        c.lemma_round_trip();
        Self::lemma_entry_keys_differ(0);
        lemma_lookup_flatten(es, keys, 0);
        Self::lemma_entry_keys_differ(1);
        lemma_lookup_flatten(es, keys, 1);
        Layer::lemma_keys_differ(0);
        lemma_lookup_flatten(cf, lkeys, 0);
        Self::lemma_entry_keys_differ(2);
        lemma_lookup_flatten(es, keys, 2);
        Layer::lemma_keys_differ(1);
        lemma_lookup_flatten(cf, lkeys, 1);
        Self::lemma_entry_keys_differ(3);
        lemma_lookup_flatten(es, keys, 3);
        Layer::lemma_keys_differ(2);
        lemma_lookup_flatten(cf, lkeys, 2);
        Self::lemma_entry_keys_differ(4);
        lemma_lookup_flatten(es, keys, 4);
        Layer::lemma_keys_differ(3);
        lemma_lookup_flatten(cf, lkeys, 3);
        Self::lemma_entry_keys_differ(5);
        lemma_lookup_flatten(es, keys, 5);
        Layer::lemma_keys_differ(4);
        lemma_lookup_flatten(cf, lkeys, 4);
        Self::lemma_entry_keys_differ(6);
        lemma_lookup_flatten(es, keys, 6);
        Layer::lemma_keys_differ(5);
        lemma_lookup_flatten(cf, lkeys, 5);
        Self::lemma_entry_keys_differ(7);
        lemma_lookup_flatten(es, keys, 7);
        Layer::lemma_keys_differ(6);
        lemma_lookup_flatten(cf, lkeys, 6);
        Self::lemma_entry_keys_differ(8);
        lemma_lookup_flatten(es, keys, 8);
        Self::lemma_entry_keys_differ(9);
        lemma_lookup_flatten(es, keys, 9);
        Self::lemma_kind_names_differ(self);
        match self {
            TypedLayer::Background { paint, layout, .. } => {
                lemma_lookup_opt_entry::<BackgroundPaintLayer>("paint"@, paint, "paint"@);
                lemma_lookup_opt_entry::<BackgroundLayoutLayer>("layout"@, layout, "layout"@);
                if paint is Some {
                    paint->0.lemma_round_trip();
                }
                if layout is Some {
                    layout->0.lemma_round_trip();
                }
            },
            TypedLayer::Circle { paint, layout, .. } => {
                lemma_lookup_opt_entry::<CirclePaintLayer>("paint"@, paint, "paint"@);
                lemma_lookup_opt_entry::<CircleLayoutLayer>("layout"@, layout, "layout"@);
                if paint is Some {
                    paint->0.lemma_round_trip();
                }
                if layout is Some {
                    layout->0.lemma_round_trip();
                }
            },
            TypedLayer::ColorRelief { paint, layout, .. } => {
                lemma_lookup_opt_entry::<ColorReliefPaintLayer>("paint"@, paint, "paint"@);
                lemma_lookup_opt_entry::<ColorReliefLayoutLayer>("layout"@, layout, "layout"@);
                if paint is Some {
                    paint->0.lemma_round_trip();
                }
                if layout is Some {
                    layout->0.lemma_round_trip();
                }
            },
            TypedLayer::Fill { paint, layout, .. } => {
                lemma_lookup_opt_entry::<FillPaintLayer>("paint"@, paint, "paint"@);
                lemma_lookup_opt_entry::<FillLayoutLayer>("layout"@, layout, "layout"@);
                if paint is Some {
                    paint->0.lemma_round_trip();
                }
                if layout is Some {
                    layout->0.lemma_round_trip();
                }
            },
            TypedLayer::FillExtrusion { paint, layout, .. } => {
                lemma_lookup_opt_entry::<FillExtrusionPaintLayer>("paint"@, paint, "paint"@);
                lemma_lookup_opt_entry::<FillExtrusionLayoutLayer>("layout"@, layout, "layout"@);
                if paint is Some {
                    paint->0.lemma_round_trip();
                }
                if layout is Some {
                    layout->0.lemma_round_trip();
                }
            },
            TypedLayer::Heatmap { paint, layout, .. } => {
                lemma_lookup_opt_entry::<HeatmapPaintLayer>("paint"@, paint, "paint"@);
                lemma_lookup_opt_entry::<HeatmapLayoutLayer>("layout"@, layout, "layout"@);
                if paint is Some {
                    paint->0.lemma_round_trip();
                }
                if layout is Some {
                    layout->0.lemma_round_trip();
                }
            },
            TypedLayer::Hillshade { paint, layout, .. } => {
                lemma_lookup_opt_entry::<HillshadePaintLayer>("paint"@, paint, "paint"@);
                lemma_lookup_opt_entry::<HillshadeLayoutLayer>("layout"@, layout, "layout"@);
                if paint is Some {
                    paint->0.lemma_round_trip();
                }
                if layout is Some {
                    layout->0.lemma_round_trip();
                }
            },
            TypedLayer::Line { paint, layout, .. } => {
                lemma_lookup_opt_entry::<LinePaintLayer>("paint"@, paint, "paint"@);
                lemma_lookup_opt_entry::<LineLayoutLayer>("layout"@, layout, "layout"@);
                if paint is Some {
                    paint->0.lemma_round_trip();
                }
                if layout is Some {
                    layout->0.lemma_round_trip();
                }
            },
            TypedLayer::Raster { paint, layout, .. } => {
                lemma_lookup_opt_entry::<RasterPaintLayer>("paint"@, paint, "paint"@);
                lemma_lookup_opt_entry::<RasterLayoutLayer>("layout"@, layout, "layout"@);
                if paint is Some {
                    paint->0.lemma_round_trip();
                }
                if layout is Some {
                    layout->0.lemma_round_trip();
                }
            },
            TypedLayer::Symbol { paint, layout, .. } => {
                lemma_lookup_opt_entry::<SymbolPaintLayer>("paint"@, paint, "paint"@);
                lemma_lookup_opt_entry::<SymbolLayoutLayer>("layout"@, layout, "layout"@);
                if paint is Some {
                    paint->0.lemma_round_trip();
                }
                if layout is Some {
                    layout->0.lemma_round_trip();
                }
            },
        }
    }
}

impl AnyLayer {
    /// The fields that all layer types share, for a typed layer.
    pub open spec fn common_layer(self) -> Option<Layer> {
        match self {
            AnyLayer::Typed(t) => Some(t.common_layer()),
            AnyLayer::Ref(_) => None,
        }
    }

    /// Get the layer ID regardless of layer kind.
    pub fn id(&self) -> (r: &LayerId)
        ensures
            *r == match *self {
                AnyLayer::Typed(t) => t.common_layer().id,
                AnyLayer::Ref(l) => l.id,
            },
    {
        match self {
            AnyLayer::Typed(t) => &t.common().id,
            AnyLayer::Ref(r) => &r.id,
        }
    }

    /// Access the common `Layer` if this is a typed layer.
    pub fn common(&self) -> (r: Option<&Layer>)
        ensures
            match self.common_layer() {
                Some(c) => r matches Some(l) && *l == c,
                None => r is None,
            },
    {
        match self {
            AnyLayer::Typed(t) => Some(t.common()),
            AnyLayer::Ref(_) => None,
        }
    }

    /// Access the common `Layer` mutably if this is a typed layer.
    pub fn common_mut(&mut self) -> (r: Option<&mut Layer>)
        ensures
            match *old(self) {
                AnyLayer::Typed(t) => {
                    &&& r is Some
                    &&& *r->0 == t.common_layer()
                    &&& *final(self) == AnyLayer::Typed(t.with_common(*final(r->0)))
                },
                AnyLayer::Ref(_) => r is None && *final(self) == *old(self),
            },
    {
        match self {
            AnyLayer::Typed(t) => Some(t.common_mut()),
            AnyLayer::Ref(_) => None,
        }
    }

    /// The effective layer type string, or `None` for ref layers.
    pub fn layer_type(&self) -> (r: Option<&'static str>)
        ensures
            match *self {
                AnyLayer::Typed(t) => r matches Some(s) && s@ == t.kind_name(),
                AnyLayer::Ref(_) => r is None,
            },
    {
        match self {
            AnyLayer::Typed(t) => Some(t.layer_type()),
            AnyLayer::Ref(_) => None,
        }
    }

    /// Get the source name if this is a typed layer with a source.
    pub fn source(&self) -> (r: Option<&str>)
        ensures
            match self.common_layer() {
                Some(c) => match c.source {
                    Some(s) => r matches Some(x) && x@ == s@,
                    None => r is None,
                },
                None => r is None,
            },
    {
        match self.common() {
            Some(c) => match &c.source {
                Some(s) => Some(s.as_str()),
                None => None,
            },
            None => None,
        }
    }

    /// Get the source-layer name if this is a typed layer with one.
    pub fn source_layer(&self) -> (r: Option<&str>)
        ensures
            match self.common_layer() {
                Some(c) => match c.source_layer {
                    Some(s) => r matches Some(x) && x@ == s@,
                    None => r is None,
                },
                None => r is None,
            },
    {
        match self.common() {
            Some(c) => match &c.source_layer {
                Some(s) => Some(s.as_str()),
                None => None,
            },
            None => None,
        }
    }
}

impl LayerId {
    pub fn as_str(&self) -> (r: &str)
        ensures
            r@ == self@,
    {
        self.0.as_str()
    }
}

impl LayerSource {
    pub fn as_str(&self) -> (r: &str)
        ensures
            r@ == self@,
    {
        self.0.as_str()
    }
}

impl LayerSourceLayer {
    pub fn as_str(&self) -> (r: &str)
        ensures
            r@ == self@,
    {
        self.0.as_str()
    }
}

/// The boolean that a filter document stands for when it is a literal: `true`, `false`,
/// `["literal", true]` or `["literal", false]`.
pub open spec fn literal_bool(v: Json) -> Option<bool> {
    match v {
        Json::Bool(b) => Some(b),
        Json::Array(a) => if a.len() == 2 && a[0] == Json::Str("literal"@) {
            match a[1] {
                Json::Bool(b) => Some(b),
                _ => None,
            }
        } else {
            None
        },
        _ => None,
    }
}

impl LayerFilter {
    pub fn as_value(&self) -> (r: &JsonValue)
        ensures
            r.model() == self@,
    {
        &self.0
    }

    pub fn as_value_mut(&mut self) -> (r: &mut JsonValue)
        ensures
            r.model() == old(self)@,
            final(self)@ == final(r).model(),
    {
        &mut self.0
    }

    pub fn from_value(v: JsonValue) -> (r: Self)
        ensures
            r@ == v.model(),
    {
        LayerFilter(v)
    }

    /// Returns `Some(true)` or `Some(false)` if this filter is a literal boolean
    /// (`true`, `false`, `["literal", true]`, or `["literal", false]`).
    pub fn as_literal_bool(&self) -> (r: Option<bool>)
        ensures
            r == literal_bool(self@),
    {
        match &self.0 {
            JsonValue::Bool(b) => Some(*b),
            JsonValue::Array(a) => {
                if a.len() == 2 {
                    let is_literal = match &a[0] {
                        JsonValue::String(s) => str_eq(s.as_str(), "literal"),
                        _ => false,
                    };
                    proof {
                        let m = self@->Array_0;
                        assert(m[0] == a@[0].model());
                        assert(m[1] == a@[1].model());
                    }
                    if is_literal {
                        match &a[1] {
                            JsonValue::Bool(b) => Some(*b),
                            _ => None,
                        }
                    } else {
                        None
                    }
                } else {
                    None
                }
            },
            _ => None,
        }
    }
}

impl LayerFilter {
    /// A filter is a literal boolean `b` exactly when it is `b` itself or `["literal", b]`, and
    /// then `as_literal_bool` gives `Some(b)`; a filter that is neither, for either boolean,
    /// gives `None`.
    pub proof fn lemma_literal_bool(self, b: bool)
        ensures
            self@ == Json::Bool(b) ==> literal_bool(self@) == Some(b),
            self@ == Json::Array(seq![Json::Str("literal"@), Json::Bool(b)]) ==> literal_bool(self@) == Some(b),
            literal_bool(self@) == Some(b) <==> (self@ == Json::Bool(b) || self@ == Json::Array(
                seq![Json::Str("literal"@), Json::Bool(b)],
            )),
    {
        match self@ {
            Json::Array(a) => {
                if a.len() == 2 && a[0] == Json::Str("literal"@) {
                    match a[1] {
                        Json::Bool(c) => {
                            assert(a =~= seq![Json::Str("literal"@), Json::Bool(c)]);
                        },
                        _ => {},
                    }
                }
            },
            _ => {},
        }
    }
}

impl TypedLayer {
    /// Changing the shared fields of a layer keeps its type, and reading them gives back
    /// what was written.
    pub proof fn lemma_with_common(self, c: Layer)
        ensures
            self.with_common(c).common_layer() == c,
            self.with_common(c).kind_name() == self.kind_name(),
            self.with_common(c) is Background <==> self is Background,
    {
    }

    /// The layer type is what a layer is written with as its `type`.
    pub proof fn lemma_kind_is_written(self)
        ensures
            self.to_json() is Object,
            lookup(self.to_json()->Object_0, "type"@) == Some(Json::Str(self.kind_name())),
    {
        let es = self.entry_groups();
        assert(es.len() > 0);
        assert(es[0] == seq![("type"@, Json::Str(self.kind_name()))]);
        assert(es.flatten() == es.first() + es.drop_first().flatten());
        lemma_lookup_concat(es[0], es.drop_first().flatten(), "type"@);
    }
}
} // verus!
