use vstd::prelude::*;

verus! {

/// A JSON number, held as the decimal text that `serde_json` writes for it
/// (`1`, `-3`, `0.5`, `1.0`, `1e300`, ...).
#[derive(PartialEq, Eq, Debug, Clone, Hash)]
pub struct JsonNumber {
    text: String,
}

impl View for JsonNumber {
    type V = Seq<char>;

    closed spec fn view(&self) -> Seq<char> {
        self.text@
    }
}

impl JsonNumber {
    /// A number from its decimal text.
    pub fn new(text: String) -> (r: JsonNumber)
        ensures
            r@ == text@,
    {
        JsonNumber { text }
    }

    /// A number from the decimal text of a literal.
    pub fn from_literal(text: &str) -> (r: JsonNumber)
        ensures
            r@ == text@,
    {
        JsonNumber { text: text.to_string() }
    }

    /// The decimal text of the number.
    pub fn as_text(&self) -> (r: &str)
        ensures
            r@ == self@,
    {
        self.text.as_str()
    }

    /// A copy of the number.
    pub fn duplicate(&self) -> (r: JsonNumber)
        ensures
            r@ == self@,
    {
        JsonNumber { text: self.text.clone() }
    }
}

/// A JSON document: the values that a style reads and writes.
/// An object keeps its entries in order; a key is looked up at its first entry.
#[derive(PartialEq, Eq, Debug)]
pub enum JsonValue {
    Null,
    Bool(bool),
    Number(JsonNumber),
    String(String),
    Array(Vec<JsonValue>),
    Object(Vec<(String, JsonValue)>),
}

/// The mathematical model of a JSON document.
pub enum Json {
    Null,
    Bool(bool),
    Number(Seq<char>),
    Str(Seq<char>),
    Array(Seq<Json>),
    Object(Seq<(Seq<char>, Json)>),
}

impl JsonValue {
    pub open spec fn model(self) -> Json
        decreases self,
    {
        match self {
            JsonValue::Null => Json::Null,
            JsonValue::Bool(b) => Json::Bool(b),
            JsonValue::Number(n) => Json::Number(n@),
            JsonValue::String(s) => Json::Str(s@),
            JsonValue::Array(a) => Json::Array(
                Seq::new(
                    a.len() as nat,
                    |i: int|
                        if 0 <= i < a.len() {
                            a@[i].model()
                        } else {
                            Json::Null
                        },
                ),
            ),
            JsonValue::Object(o) => Json::Object(
                Seq::new(
                    o.len() as nat,
                    |i: int|
                        if 0 <= i < o.len() {
                            (o@[i].0@, o@[i].1.model())
                        } else {
                            (Seq::empty(), Json::Null)
                        },
                ),
            ),
        }
    }

    /// A deep copy of the document.
    pub fn duplicate(&self) -> (r: JsonValue)
        ensures
            r.model() == self.model(),
        decreases self,
    {
        match self {
            JsonValue::Null => JsonValue::Null,
            JsonValue::Bool(b) => JsonValue::Bool(*b),
            JsonValue::Number(n) => JsonValue::Number(n.duplicate()),
            JsonValue::String(s) => JsonValue::String(s.clone()),
            JsonValue::Array(a) => {
                let mut out: Vec<JsonValue> = Vec::new();
                let mut i: usize = 0;
                while i < a.len()
                    invariant
                        *self == JsonValue::Array(*a),
                        i <= a.len(),
                        out.len() == i,
                        forall|j: int| 0 <= j < i ==> (#[trigger] out@[j]).model() == a@[j].model(),
                    decreases a.len() - i,
                {
                    proof {
                        assert(decreases_to!(*a => a@));
                        assert(decreases_to!(a@ => a@[i as int]));
                        assert(decreases_to!(*self => (*self)->Array_0));
                    }
                    out.push(a[i].duplicate());
                    i += 1;
                }
                let r = JsonValue::Array(out);
                proof {
                    assert(r.model()->Array_0 =~= self.model()->Array_0);
                }
                r
            },
            JsonValue::Object(o) => {
                let mut out: Vec<(String, JsonValue)> = Vec::new();
                let mut i: usize = 0;
                while i < o.len()
                    invariant
                        *self == JsonValue::Object(*o),
                        i <= o.len(),
                        out.len() == i,
                        forall|j: int|
                            0 <= j < i ==> (#[trigger] out@[j]).0@ == o@[j].0@ && out@[j].1.model()
                                == o@[j].1.model(),
                    decreases o.len() - i,
                {
                    proof {
                        assert(decreases_to!(*o => o@));
                        assert(decreases_to!(o@ => o@[i as int]));
                        assert(decreases_to!(o@[i as int] => o@[i as int].1));
                        assert(decreases_to!(*self => (*self)->Object_0));
                    }
                    let k = o[i].0.clone();
                    let v = o[i].1.duplicate();
                    out.push((k, v));
                    i += 1;
                }
                let r = JsonValue::Object(out);
                proof {
                    assert(r.model()->Object_0 =~= self.model()->Object_0);
                }
                r
            },
        }
    }
}

impl Clone for JsonValue {
    fn clone(&self) -> (r: Self)
        ensures
            r.model() == self.model(),
    {
        self.duplicate()
    }
}

/// The model of the entries of an object.
pub open spec fn entries_model(o: Vec<(String, JsonValue)>) -> Seq<(Seq<char>, Json)> {
    JsonValue::Object(o).model()->Object_0
}

/// The model of the items of an array.
pub open spec fn items_model(a: Vec<JsonValue>) -> Seq<Json> {
    JsonValue::Array(a).model()->Array_0
}

/// The value of the first entry with key `key`, if any.
pub open spec fn lookup(o: Seq<(Seq<char>, Json)>, key: Seq<char>) -> Option<Json>
    decreases o.len(),
{
    if o.len() == 0 {
        None
    } else if o[0].0 == key {
        Some(o[0].1)
    } else {
        lookup(o.drop_first(), key)
    }
}

pub proof fn lemma_lookup_concat(a: Seq<(Seq<char>, Json)>, b: Seq<(Seq<char>, Json)>, key: Seq<char>)
    ensures
        lookup(a + b, key) == (if lookup(a, key) is Some {
            lookup(a, key)
        } else {
            lookup(b, key)
        }),
    decreases a.len(),
{
    if a.len() == 0 {
        assert(a + b =~= b);
    } else {
        assert((a + b).drop_first() =~= a.drop_first() + b);
        lemma_lookup_concat(a.drop_first(), b, key);
    }
}

/// Whether two texts are the same.
pub fn str_eq(a: &str, b: &str) -> (r: bool)
    ensures
        r == (a@ == b@),
{
    let x = a.to_string();
    let y = b.to_string();
    x == y
}

/// The value of the first entry of `fields` with key `key`, if any.
pub fn get_field<'a>(fields: &'a Vec<(String, JsonValue)>, key: &str) -> (r: Option<&'a JsonValue>)
    ensures
        match r {
            Some(v) => lookup(entries_model(*fields), key@) == Some(v.model()),
            None => lookup(entries_model(*fields), key@) is None,
        },
{
    let ghost m = entries_model(*fields);
    let mut i: usize = 0;
    proof {
        assert(m.skip(0) =~= m);
    }
    while i < fields.len()
        invariant
            i <= fields.len(),
            m == entries_model(*fields),
            m.len() == fields.len(),
            lookup(m, key@) == lookup(m.skip(i as int), key@),
        decreases fields.len() - i,
    {
        let ghost rest = m.skip(i as int);
        proof {
            assert(rest.drop_first() =~= m.skip(i + 1));
            assert(rest[0] == m[i as int]);
        }
        if str_eq(fields[i].0.as_str(), key) {
            return Some(&fields[i].1);
        }
        i += 1;
    }
    None
}

/// Whether the character `c` is a decimal digit.
pub open spec fn is_digit(c: char) -> bool {
    '0' <= c && c <= '9'
}

/// Whether the text `t` is made of decimal digits.
pub open spec fn all_digits(t: Seq<char>) -> bool {
    forall|i: int| 0 <= i < t.len() ==> is_digit(#[trigger] t[i])
}

/// The number that the decimal digits `t` stand for.
pub open spec fn digits_value(t: Seq<char>) -> nat
    decreases t.len(),
{
    if t.len() == 0 {
        0
    } else {
        digits_value(t.drop_last()) * 10 + ((t.last() as int) - ('0' as int)) as nat
    }
}

/// Whether the number text `t` is a whole number, with or without a sign.
pub open spec fn is_integer_text(t: Seq<char>) -> bool {
    all_digits(t) || (t.len() > 0 && t[0] == '-' && all_digits(t.drop_first()))
}

/// Whether the characters of `t` from `from` on are decimal digits.
pub fn digits_from(t: &str, from: usize) -> (r: bool)
    requires
        from <= t@.len(),
    ensures
        r == all_digits(t@.skip(from as int)),
{
    let n = t.unicode_len();
    let mut i = from;
    while i < n
        invariant
            n == t@.len(),
            from <= i <= n,
            forall|j: int| from <= j < i ==> is_digit(#[trigger] t@[j]),
        decreases n - i,
    {
        let c = t.get_char(i);
        if !('0' <= c && c <= '9') {
            proof {
                assert(t@.skip(from as int)[i - from] == c);
            }
            return false;
        }
        i += 1;
    }
    proof {
        assert forall|j: int| 0 <= j < t@.skip(from as int).len() implies is_digit(#[trigger] t@.skip(from as int)[j]) by {
            assert(t@.skip(from as int)[j] == t@[from + j]);
        }
    }
    true
}

/// Whether the number text `t` is a whole number given by an integer text.
pub fn integer_text(t: &str) -> (r: bool)
    ensures
        r == is_integer_text(t@),
{
    if digits_from(t, 0) {
        proof {
            assert(t@.skip(0) =~= t@);
        }
        true
    } else if t.unicode_len() > 0 && t.get_char(0) == '-' {
        proof {
            assert(t@.skip(1) =~= t@.drop_first());
            assert(t@.skip(0) =~= t@);
        }
        digits_from(t, 1)
    } else {
        proof {
            assert(t@.skip(0) =~= t@);
        }
        false
    }
}

/// What `std` writes for `s` with `{:?}`: the string in double quotes, with characters that
/// are not printable escaped.
pub uninterp spec fn debug_quoted(s: Seq<char>) -> Seq<char>;

/// Formats `s` with `{:?}` (its `Debug` form).
#[verifier::external_body]
fn debug_text(s: &str) -> (r: String)
    ensures
        r@ == debug_quoted(s@),
{
    format!("{:?}", s)
}

/// How a `serde_json` message names a document of the wrong type.
pub open spec fn unexpected(v: Json) -> Seq<char> {
    match v {
        Json::Null => "null"@,
        Json::Bool(b) => if b {
            "boolean `true`"@
        } else {
            "boolean `false`"@
        },
        Json::Number(t) => if is_integer_text(t) {
            "integer `"@ + t + "`"@
        } else {
            "floating point `"@ + t + "`"@
        },
        Json::Str(s) => "string "@ + debug_quoted(s),
        Json::Array(_) => "sequence"@,
        Json::Object(_) => "map"@,
    }
}

/// Names a document of the wrong type as a `serde_json` message does.
pub fn describe_unexpected(v: &JsonValue) -> (r: String)
    ensures
        r@ == unexpected(v.model()),
{
    match v {
        JsonValue::Null => "null".to_string(),
        JsonValue::Bool(b) => if *b {
            "boolean `true`".to_string()
        } else {
            "boolean `false`".to_string()
        },
        JsonValue::Number(n) => {
            let t = n.as_text();
            let mut m = if integer_text(t) {
                "integer `".to_string()
            } else {
                "floating point `".to_string()
            };
            m.append(t);
            m.append("`");
            m
        },
        JsonValue::String(s) => {
            let mut m = "string ".to_string();
            let d = debug_text(s.as_str());
            m.append(d.as_str());
            m
        },
        JsonValue::Array(_) => "sequence".to_string(),
        JsonValue::Object(_) => "map".to_string(),
    }
}

/// The message of a document `v` of the wrong type where `expected` is wanted.
pub open spec fn type_error(v: Json, expected: Seq<char>) -> Seq<char> {
    "invalid type: "@ + unexpected(v) + ", expected "@ + expected
}

pub fn make_type_error(v: &JsonValue, expected: &str) -> (r: String)
    ensures
        r@ == type_error(v.model(), expected@),
{
    let mut s = "invalid type: ".to_string();
    let u = describe_unexpected(v);
    s.append(u.as_str());
    s.append(", expected ");
    s.append(expected);
    s
}

/// The message of a missing field.
pub open spec fn missing_field(key: Seq<char>) -> Seq<char> {
    "missing field `"@ + key + "`"@
}

pub fn make_missing_field(key: &str) -> (r: String)
    ensures
        r@ == missing_field(key@),
{
    let mut s = "missing field `".to_string();
    s.append(key);
    s.append("`");
    s
}

/// The decimal digits of `n`.
pub open spec fn decimal_text(n: nat) -> Seq<char>
    decreases n,
{
    if n < 10 {
        seq![digit_char(n)]
    } else {
        decimal_text(n / 10).push(digit_char(n % 10))
    }
}

/// The character of the decimal digit `d`.
pub open spec fn digit_char(d: nat) -> char {
    if d == 0 {
        '0'
    } else if d == 1 {
        '1'
    } else if d == 2 {
        '2'
    } else if d == 3 {
        '3'
    } else if d == 4 {
        '4'
    } else if d == 5 {
        '5'
    } else if d == 6 {
        '6'
    } else if d == 7 {
        '7'
    } else if d == 8 {
        '8'
    } else {
        '9'
    }
}

fn digit_str(d: usize) -> (r: &'static str)
    requires
        d < 10,
    ensures
        r@ == seq![digit_char(d as nat)],
{
    proof {
        reveal_strlit("0");
        reveal_strlit("1");
        reveal_strlit("2");
        reveal_strlit("3");
        reveal_strlit("4");
        reveal_strlit("5");
        reveal_strlit("6");
        reveal_strlit("7");
        reveal_strlit("8");
        reveal_strlit("9");
    }
    if d == 0 {
        "0"
    } else if d == 1 {
        "1"
    } else if d == 2 {
        "2"
    } else if d == 3 {
        "3"
    } else if d == 4 {
        "4"
    } else if d == 5 {
        "5"
    } else if d == 6 {
        "6"
    } else if d == 7 {
        "7"
    } else if d == 8 {
        "8"
    } else {
        "9"
    }
}

/// Writes `n` in decimal.
pub fn decimal(n: usize) -> (r: String)
    ensures
        r@ == decimal_text(n as nat),
    decreases n,
{
    if n < 10 {
        digit_str(n).to_string()
    } else {
        let mut s = decimal(n / 10);
        s.append(digit_str(n % 10));
        s
    }
}

/// The message of an array with more items than a value reads.
pub open spec fn length_error(len: nat) -> Seq<char> {
    "invalid length "@ + decimal_text(len) + ", expected fewer elements in array"@
}

pub fn make_length_error(len: usize) -> (r: String)
    ensures
        r@ == length_error(len as nat),
{
    let mut s = "invalid length ".to_string();
    let d = decimal(len);
    s.append(d.as_str());
    s.append(", expected fewer elements in array");
    s
}

/// The message of a sequence that ends before item `i`, where `expected` names what it holds.
pub open spec fn invalid_length(i: nat, expected: Seq<char>) -> Seq<char> {
    "invalid length "@ + decimal_text(i) + ", expected "@ + expected
}

pub fn make_invalid_length(i: usize, expected: &str) -> (r: String)
    ensures
        r@ == invalid_length(i as nat, expected@),
{
    let mut s = "invalid length ".to_string();
    let d = decimal(i);
    s.append(d.as_str());
    s.append(", expected ");
    s.append(expected);
    s
}

/// The message of an unknown variant name.
pub open spec fn unknown_variant(found: Seq<char>) -> Seq<char> {
    "unknown variant `"@ + found + "`"@
}

pub fn make_unknown_variant(found: &str) -> (r: String)
    ensures
        r@ == unknown_variant(found@),
{
    let mut s = "unknown variant `".to_string();
    s.append(found);
    s.append("`");
    s
}

/// A type that a style reads from JSON.
///
/// `accepts` says which documents decode, `decodes` which value a document decodes to,
/// and `rejection` the message of a document that does not decode.
pub trait JsonDecode: Sized {
    spec fn accepts(v: Json) -> bool;

    spec fn decodes(v: Json, x: Self) -> bool;

    spec fn rejection(v: Json) -> Seq<char>;

    fn decode(v: &JsonValue) -> (r: Result<Self, String>)
        ensures
            r is Ok <==> Self::accepts(v.model()),
            r matches Ok(x) ==> Self::decodes(v.model(), x),
            r matches Err(e) ==> e@ == Self::rejection(v.model()),
    ;
}

/// A type that a style also writes back as JSON: `to_json` is the document that a value
/// is written as.
pub trait JsonEncode: JsonDecode {
    spec fn to_json(self) -> Json;

    /// The values that come back unchanged when written and read again.
    spec fn round_trips(self) -> bool;

    fn encode(&self) -> (r: JsonValue)
        ensures
            r.model() == self.to_json(),
    ;

    /// Writing a value and reading the document gives the value back.
    proof fn lemma_round_trip(self)
        requires
            self.round_trips(),
        ensures
            Self::accepts(self.to_json()),
            Self::decodes(self.to_json(), self),
    ;
}

/// The first rejection among documents `a` that `T` does not accept, if any.
pub open spec fn first_rejection<T: JsonDecode>(a: Seq<Json>) -> Seq<char>
    decreases a.len(),
{
    if a.len() == 0 {
        Seq::empty()
    } else if !T::accepts(a[0]) {
        T::rejection(a[0])
    } else {
        first_rejection::<T>(a.drop_first())
    }
}

/// The values of the entries `o`.
pub open spec fn entry_values(o: Seq<(Seq<char>, Json)>) -> Seq<Json> {
    o.map_values(|e: (Seq<char>, Json)| e.1)
}

/// Whether every value of the object entries `o` reads as a `T`.
pub open spec fn entries_accept<T: JsonDecode>(o: Seq<(Seq<char>, Json)>) -> bool {
    forall|i: int| 0 <= i < o.len() ==> T::accepts(#[trigger] o[i].1)
}

/// Whether no entry of `o` after entry `i` has the key of entry `i`.
pub open spec fn last_with_key(o: Seq<(Seq<char>, Json)>, i: int) -> bool {
    lookup(o.skip(i + 1), o[i].0) is None
}

/// The entries of `o` from entry `i` on that are the last with their key, in order.
pub open spec fn last_entries_from(o: Seq<(Seq<char>, Json)>, i: int) -> Seq<(Seq<char>, Json)>
    decreases o.len() - i,
{
    if i < 0 || i >= o.len() {
        Seq::empty()
    } else if last_with_key(o, i) {
        seq![o[i]] + last_entries_from(o, i + 1)
    } else {
        last_entries_from(o, i + 1)
    }
}

/// The entries of `o` that a map built from them keeps: for each key, the last entry with it,
/// in the order of the document.
pub open spec fn last_entries(o: Seq<(Seq<char>, Json)>) -> Seq<(Seq<char>, Json)> {
    last_entries_from(o, 0)
}

/// No key occurs twice among the entries `x`.
pub open spec fn keys_distinct<T>(x: Seq<(String, T)>) -> bool {
    forall|a: int, b: int| 0 <= a < b < x.len() ==> (#[trigger] x[a]).0@ != (#[trigger] x[b]).0@
}

/// Whether `x` holds the last entry of each key of `o`, in the order of the document, each
/// value read as a `T`.
pub open spec fn holds_last_entries<T: JsonDecode>(o: Seq<(Seq<char>, Json)>, x: Seq<(String, T)>) -> bool {
    let l = last_entries(o);
    &&& x.len() == l.len()
    &&& forall|i: int| 0 <= i < x.len() ==> (#[trigger] x[i]).0@ == l[i].0 && T::decodes(l[i].1, x[i].1)
}

/// Whether `x` holds, as a map does, the entries `o`: no key twice, and for each key the value
/// of its last entry, read as a `T`, in the order of the document.
pub open spec fn entries_decode<T: JsonDecode>(o: Seq<(Seq<char>, Json)>, x: Seq<(String, T)>) -> bool {
    &&& holds_last_entries::<T>(o, x)
    &&& keys_distinct(x)
}

proof fn lemma_lookup_none_differs(s: Seq<(Seq<char>, Json)>, k: Seq<char>, t: int)
    requires
        lookup(s, k) is None,
        0 <= t < s.len(),
    ensures
        s[t].0 != k,
    decreases s.len(),
{
    if t > 0 {
        assert(s.drop_first()[t - 1] == s[t]);
        lemma_lookup_none_differs(s.drop_first(), k, t - 1);
    }
}

proof fn lemma_last_entries_from(o: Seq<(Seq<char>, Json)>, i: int)
    requires
        0 <= i <= o.len(),
    ensures
        forall|a: int| 0 <= a < last_entries_from(o, i).len()
            ==> lookup(o.skip(i), (#[trigger] last_entries_from(o, i)[a]).0) is Some,
        forall|a: int, b: int| 0 <= a < b < last_entries_from(o, i).len()
            ==> (#[trigger] last_entries_from(o, i)[a]).0 != (#[trigger] last_entries_from(o, i)[b]).0,
    decreases o.len() - i,
{
    if i < o.len() {
        lemma_last_entries_from(o, i + 1);
        let l = last_entries_from(o, i);
        let r = last_entries_from(o, i + 1);
        assert(o.skip(i).drop_first() =~= o.skip(i + 1));
        assert(o.skip(i)[0] == o[i]);
        assert forall|a: int| 0 <= a < r.len() implies lookup(o.skip(i), (#[trigger] r[a]).0) is Some by {
            if o.skip(i)[0].0 != r[a].0 {
                assert(lookup(o.skip(i), r[a].0) == lookup(o.skip(i + 1), r[a].0));
            }
        }
        if last_with_key(o, i) {
            assert(l == seq![o[i]] + r);
            assert forall|a: int| 0 <= a < r.len() implies (#[trigger] r[a]).0 != o[i].0 by {
                if r[a].0 == o[i].0 {
                    assert(lookup(o.skip(i + 1), o[i].0) is Some);
                }
            }
            assert forall|a: int| 0 <= a < l.len() implies lookup(o.skip(i), (#[trigger] l[a]).0) is Some by {
                if a > 0 {
                    assert(l[a] == r[a - 1]);
                }
            }
            assert forall|a: int, b: int| 0 <= a < b < l.len() implies (#[trigger] l[a]).0 != (#[trigger] l[b]).0 by {
                assert(l[b] == r[b - 1]);
                if a > 0 {
                    assert(l[a] == r[a - 1]);
                }
            }
        }
    }
}

/// What a map read from object entries holds has no key twice.
pub proof fn lemma_decoded_keys_distinct<T: JsonDecode>(o: Seq<(Seq<char>, Json)>, x: Seq<(String, T)>)
    requires
        holds_last_entries::<T>(o, x),
    ensures
        keys_distinct(x),
{
    lemma_last_entries_from(o, 0);
    let l = last_entries(o);
    assert forall|a: int, b: int| 0 <= a < b < x.len() implies (#[trigger] x[a]).0@ != (#[trigger] x[b]).0@ by {
        assert(x[a].0@ == l[a].0);
        assert(x[b].0@ == l[b].0);
    }
}

/// Whether a later entry of `fields` than entry `i` has the key of entry `i`.
pub fn key_seen_after(fields: &Vec<(String, JsonValue)>, i: usize) -> (r: bool)
    requires
        i < fields.len(),
    ensures
        r == !last_with_key(entries_model(*fields), i as int),
{
    let ghost m = entries_model(*fields);
    let key = fields[i].0.as_str();
    let mut j: usize = i + 1;
    proof {
        assert(m[i as int].0 == key@);
    }
    while j < fields.len()
        invariant
            i < j <= fields.len(),
            m == entries_model(*fields),
            m.len() == fields.len(),
            key@ == m[i as int].0,
            lookup(m.skip(i + 1), key@) == lookup(m.skip(j as int), key@),
        decreases fields.len() - j,
    {
        let ghost rest = m.skip(j as int);
        proof {
            assert(rest.drop_first() =~= m.skip(j + 1));
            assert(rest[0] == m[j as int]);
            assert(m[j as int] == (fields@[j as int].0@, fields@[j as int].1.model()));
        }
        if str_eq(fields[j].0.as_str(), key) {
            return true;
        }
        j += 1;
    }
    proof {
        assert(m.skip(j as int).len() == 0);
    }
    false
}

/// Reads each value of the object entries `fields` as a `T`, in order, and keeps, as a map
/// does, the last entry of each key, in the order of the document.
pub fn decode_entries<T: JsonDecode>(fields: &Vec<(String, JsonValue)>) -> (r: Result<Vec<(String, T)>, String>)
    ensures
        r is Ok <==> entries_accept::<T>(entries_model(*fields)),
        r matches Ok(x) ==> entries_decode::<T>(entries_model(*fields), x@),
        r matches Err(e) ==> e@ == first_rejection::<T>(entry_values(entries_model(*fields))),
{
    let ghost o = entries_model(*fields);
    let ghost m = entry_values(o);
    let ghost mut done: Seq<(Seq<char>, Json)> = Seq::empty();
    let mut out: Vec<(String, T)> = Vec::new();
    let mut i: usize = 0;
    proof {
        assert(m.skip(0) =~= m);
        assert(done + last_entries_from(o, 0) =~= last_entries(o));
    }
    while i < fields.len()
        invariant
            o == entries_model(*fields),
            m == entry_values(o),
            o.len() == fields.len(),
            i <= fields.len(),
            out.len() == done.len(),
            forall|j: int| 0 <= j < i ==> T::accepts(#[trigger] o[j].1),
            forall|j: int| 0 <= j < done.len() ==> (#[trigger] out@[j]).0@ == done[j].0 && T::decodes(done[j].1, out@[j].1),
            done + last_entries_from(o, i as int) == last_entries(o),
            first_rejection::<T>(m) == first_rejection::<T>(m.skip(i as int)),
        decreases fields.len() - i,
    {
        let ghost rest = m.skip(i as int);
        proof {
            assert(rest.drop_first() =~= m.skip(i + 1));
            assert(rest[0] == o[i as int].1);
            assert(o[i as int] == (fields@[i as int].0@, fields@[i as int].1.model()));
        }
        match T::decode(&fields[i].1) {
            Ok(x) => {
                if !key_seen_after(fields, i) {
                    let k = fields[i].0.clone();
                    out.push((k, x));
                    proof {
                        assert(last_entries_from(o, i as int) == seq![o[i as int]] + last_entries_from(o, i + 1));
                        assert(done.push(o[i as int]) + last_entries_from(o, i + 1) =~= done + last_entries_from(o, i as int));
                        done = done.push(o[i as int]);
                    }
                }
            },
            Err(e) => {
                return Err(e);
            },
        }
        i += 1;
    }
    proof {
        assert(last_entries_from(o, i as int) =~= Seq::<(Seq<char>, Json)>::empty());
        assert(done =~= last_entries(o));
        lemma_decoded_keys_distinct::<T>(o, out@);
    }
    Ok(out)
}

/// A list is read from an array whose items all decode, item by item.
impl<T: JsonDecode> JsonDecode for Vec<T> {
    open spec fn accepts(v: Json) -> bool {
        v is Array && forall|i: int| 0 <= i < v->Array_0.len() ==> T::accepts(#[trigger] v->Array_0[i])
    }

    open spec fn decodes(v: Json, x: Self) -> bool {
        &&& v is Array
        &&& v->Array_0.len() == x.len()
        &&& forall|i: int| 0 <= i < x.len() ==> T::decodes(#[trigger] v->Array_0[i], x@[i])
    }

    open spec fn rejection(v: Json) -> Seq<char> {
        if v is Array {
            first_rejection::<T>(v->Array_0)
        } else {
            type_error(v, "a sequence"@)
        }
    }

    fn decode(v: &JsonValue) -> (r: Result<Self, String>) {
        match v {
            JsonValue::Array(a) => {
                let ghost m = items_model(*a);
                let mut out: Vec<T> = Vec::new();
                let mut i: usize = 0;
                proof {
                    assert(m.skip(0) =~= m);
                }
                while i < a.len()
                    invariant
                        m == items_model(*a),
                        v.model() == Json::Array(m),
                        m.len() == a.len(),
                        i <= a.len(),
                        out.len() == i,
                        forall|j: int| 0 <= j < i ==> T::accepts(#[trigger] m[j]),
                        forall|j: int| 0 <= j < i ==> T::decodes(#[trigger] m[j], out@[j]),
                        first_rejection::<T>(m) == first_rejection::<T>(m.skip(i as int)),
                    decreases a.len() - i,
                {
                    let ghost rest = m.skip(i as int);
                    proof {
                        assert(rest.drop_first() =~= m.skip(i + 1));
                        assert(rest[0] == m[i as int]);
                        assert(m[i as int] == a@[i as int].model());
                    }
                    match T::decode(&a[i]) {
                        Ok(x) => {
                            out.push(x);
                        },
                        Err(e) => {
                            return Err(e);
                        },
                    }
                    i += 1;
                }
                Ok(out)
            },
            _ => Err(make_type_error(v, "a sequence")),
        }
    }
}

impl<T: JsonEncode> JsonEncode for Vec<T> {
    open spec fn to_json(self) -> Json {
        Json::Array(Seq::new(self.len() as nat, |i: int| self@[i].to_json()))
    }

    open spec fn round_trips(self) -> bool {
        forall|i: int| 0 <= i < self.len() ==> (#[trigger] self@[i]).round_trips()
    }

    fn encode(&self) -> (r: JsonValue) {
        let mut out: Vec<JsonValue> = Vec::new();
        let mut i: usize = 0;
        while i < self.len()
            invariant
                i <= self.len(),
                out.len() == i,
                forall|j: int| 0 <= j < i ==> (#[trigger] out@[j]).model() == self@[j].to_json(),
            decreases self.len() - i,
        {
            out.push(self[i].encode());
            i += 1;
        }
        let r = JsonValue::Array(out);
        proof {
            assert(r.model()->Array_0 =~= self.to_json()->Array_0);
        }
        r
    }

    proof fn lemma_round_trip(self) {
        assert forall|i: int| 0 <= i < self.len() implies T::accepts(#[trigger] self.to_json()->Array_0[i])
            && T::decodes(self.to_json()->Array_0[i], self@[i]) by {
            self@[i].lemma_round_trip();
        }
    }
}

/// A fixed-size list is read from an array of exactly 1 item, each read in turn.
impl<T: JsonDecode> JsonDecode for [T; 1] {
    open spec fn accepts(v: Json) -> bool {
        v is Array && {
            let a = v->Array_0;
            &&& seq_req_accepts::<T>(a, 0)
            &&& a.len() <= 1
        }
    }

    open spec fn decodes(v: Json, x: Self) -> bool {
        v is Array && {
            let a = v->Array_0;
            &&& seq_req_decodes::<T>(a, 0, x@[0])
            &&& a.len() == 1
        }
    }

    open spec fn rejection(v: Json) -> Seq<char> {
        if v is Array {
            let a = v->Array_0;
            if !seq_req_accepts::<T>(a, 0) {
                seq_req_rejection::<T>(a, 0, "an array of length 1"@)
            } else if a.len() > 1 {
                length_error(a.len())
            } else {
                Seq::empty()
            }
        } else {
            type_error(v, "an array of length 1"@)
        }
    }

    fn decode(v: &JsonValue) -> (r: Result<Self, String>) {
        match v {
            JsonValue::Array(a) => {
                let x0 = match decode_seq_req::<T>(a, 0, "an array of length 1") {
                    Ok(x) => x,
                    Err(e) => return Err(e),
                };
                if a.len() > 1 {
                    return Err(make_length_error(a.len()));
                }
                Ok([x0])
            },
            _ => Err(make_type_error(v, "an array of length 1")),
        }
    }
}

impl<T: JsonEncode> JsonEncode for [T; 1] {
    open spec fn to_json(self) -> Json {
        Json::Array(seq![self@[0].to_json()])
    }

    open spec fn round_trips(self) -> bool {
        self@[0].round_trips()
    }

    fn encode(&self) -> (r: JsonValue) {
        let mut out: Vec<JsonValue> = Vec::new();
        out.push(self[0].encode());
        let r = JsonValue::Array(out);
        proof {
            assert(r.model()->Array_0 =~= self.to_json()->Array_0);
        }
        r
    }

    proof fn lemma_round_trip(self) {
        self@[0].lemma_round_trip();
    }
}

/// A fixed-size list is read from an array of exactly 2 items, each read in turn.
impl<T: JsonDecode> JsonDecode for [T; 2] {
    open spec fn accepts(v: Json) -> bool {
        v is Array && {
            let a = v->Array_0;
            &&& seq_req_accepts::<T>(a, 0)
            &&& seq_req_accepts::<T>(a, 1)
            &&& a.len() <= 2
        }
    }

    open spec fn decodes(v: Json, x: Self) -> bool {
        v is Array && {
            let a = v->Array_0;
            &&& seq_req_decodes::<T>(a, 0, x@[0])
            &&& seq_req_decodes::<T>(a, 1, x@[1])
            &&& a.len() == 2
        }
    }

    open spec fn rejection(v: Json) -> Seq<char> {
        if v is Array {
            let a = v->Array_0;
            if !seq_req_accepts::<T>(a, 0) {
                seq_req_rejection::<T>(a, 0, "an array of length 2"@)
            } else if !seq_req_accepts::<T>(a, 1) {
                seq_req_rejection::<T>(a, 1, "an array of length 2"@)
            } else if a.len() > 2 {
                length_error(a.len())
            } else {
                Seq::empty()
            }
        } else {
            type_error(v, "an array of length 2"@)
        }
    }

    fn decode(v: &JsonValue) -> (r: Result<Self, String>) {
        match v {
            JsonValue::Array(a) => {
                let x0 = match decode_seq_req::<T>(a, 0, "an array of length 2") {
                    Ok(x) => x,
                    Err(e) => return Err(e),
                };
                let x1 = match decode_seq_req::<T>(a, 1, "an array of length 2") {
                    Ok(x) => x,
                    Err(e) => return Err(e),
                };
                if a.len() > 2 {
                    return Err(make_length_error(a.len()));
                }
                Ok([x0, x1])
            },
            _ => Err(make_type_error(v, "an array of length 2")),
        }
    }
}

impl<T: JsonEncode> JsonEncode for [T; 2] {
    open spec fn to_json(self) -> Json {
        Json::Array(seq![self@[0].to_json(), self@[1].to_json()])
    }

    open spec fn round_trips(self) -> bool {
        self@[0].round_trips() && self@[1].round_trips()
    }

    fn encode(&self) -> (r: JsonValue) {
        let mut out: Vec<JsonValue> = Vec::new();
        out.push(self[0].encode());
        out.push(self[1].encode());
        let r = JsonValue::Array(out);
        proof {
            assert(r.model()->Array_0 =~= self.to_json()->Array_0);
        }
        r
    }

    proof fn lemma_round_trip(self) {
        self@[0].lemma_round_trip();
        self@[1].lemma_round_trip();
    }
}

/// A fixed-size list is read from an array of exactly 3 items, each read in turn.
impl<T: JsonDecode> JsonDecode for [T; 3] {
    open spec fn accepts(v: Json) -> bool {
        v is Array && {
            let a = v->Array_0;
            &&& seq_req_accepts::<T>(a, 0)
            &&& seq_req_accepts::<T>(a, 1)
            &&& seq_req_accepts::<T>(a, 2)
            &&& a.len() <= 3
        }
    }

    open spec fn decodes(v: Json, x: Self) -> bool {
        v is Array && {
            let a = v->Array_0;
            &&& seq_req_decodes::<T>(a, 0, x@[0])
            &&& seq_req_decodes::<T>(a, 1, x@[1])
            &&& seq_req_decodes::<T>(a, 2, x@[2])
            &&& a.len() == 3
        }
    }

    open spec fn rejection(v: Json) -> Seq<char> {
        if v is Array {
            let a = v->Array_0;
            if !seq_req_accepts::<T>(a, 0) {
                seq_req_rejection::<T>(a, 0, "an array of length 3"@)
            } else if !seq_req_accepts::<T>(a, 1) {
                seq_req_rejection::<T>(a, 1, "an array of length 3"@)
            } else if !seq_req_accepts::<T>(a, 2) {
                seq_req_rejection::<T>(a, 2, "an array of length 3"@)
            } else if a.len() > 3 {
                length_error(a.len())
            } else {
                Seq::empty()
            }
        } else {
            type_error(v, "an array of length 3"@)
        }
    }

    fn decode(v: &JsonValue) -> (r: Result<Self, String>) {
        match v {
            JsonValue::Array(a) => {
                let x0 = match decode_seq_req::<T>(a, 0, "an array of length 3") {
                    Ok(x) => x,
                    Err(e) => return Err(e),
                };
                let x1 = match decode_seq_req::<T>(a, 1, "an array of length 3") {
                    Ok(x) => x,
                    Err(e) => return Err(e),
                };
                let x2 = match decode_seq_req::<T>(a, 2, "an array of length 3") {
                    Ok(x) => x,
                    Err(e) => return Err(e),
                };
                if a.len() > 3 {
                    return Err(make_length_error(a.len()));
                }
                Ok([x0, x1, x2])
            },
            _ => Err(make_type_error(v, "an array of length 3")),
        }
    }
}

impl<T: JsonEncode> JsonEncode for [T; 3] {
    open spec fn to_json(self) -> Json {
        Json::Array(seq![self@[0].to_json(), self@[1].to_json(), self@[2].to_json()])
    }

    open spec fn round_trips(self) -> bool {
        self@[0].round_trips() && self@[1].round_trips() && self@[2].round_trips()
    }

    fn encode(&self) -> (r: JsonValue) {
        let mut out: Vec<JsonValue> = Vec::new();
        out.push(self[0].encode());
        out.push(self[1].encode());
        out.push(self[2].encode());
        let r = JsonValue::Array(out);
        proof {
            assert(r.model()->Array_0 =~= self.to_json()->Array_0);
        }
        r
    }

    proof fn lemma_round_trip(self) {
        self@[0].lemma_round_trip();
        self@[1].lemma_round_trip();
        self@[2].lemma_round_trip();
    }
}

/// A fixed-size list is read from an array of exactly 4 items, each read in turn.
impl<T: JsonDecode> JsonDecode for [T; 4] {
    open spec fn accepts(v: Json) -> bool {
        v is Array && {
            let a = v->Array_0;
            &&& seq_req_accepts::<T>(a, 0)
            &&& seq_req_accepts::<T>(a, 1)
            &&& seq_req_accepts::<T>(a, 2)
            &&& seq_req_accepts::<T>(a, 3)
            &&& a.len() <= 4
        }
    }

    open spec fn decodes(v: Json, x: Self) -> bool {
        v is Array && {
            let a = v->Array_0;
            &&& seq_req_decodes::<T>(a, 0, x@[0])
            &&& seq_req_decodes::<T>(a, 1, x@[1])
            &&& seq_req_decodes::<T>(a, 2, x@[2])
            &&& seq_req_decodes::<T>(a, 3, x@[3])
            &&& a.len() == 4
        }
    }

    open spec fn rejection(v: Json) -> Seq<char> {
        if v is Array {
            let a = v->Array_0;
            if !seq_req_accepts::<T>(a, 0) {
                seq_req_rejection::<T>(a, 0, "an array of length 4"@)
            } else if !seq_req_accepts::<T>(a, 1) {
                seq_req_rejection::<T>(a, 1, "an array of length 4"@)
            } else if !seq_req_accepts::<T>(a, 2) {
                seq_req_rejection::<T>(a, 2, "an array of length 4"@)
            } else if !seq_req_accepts::<T>(a, 3) {
                seq_req_rejection::<T>(a, 3, "an array of length 4"@)
            } else if a.len() > 4 {
                length_error(a.len())
            } else {
                Seq::empty()
            }
        } else {
            type_error(v, "an array of length 4"@)
        }
    }

    fn decode(v: &JsonValue) -> (r: Result<Self, String>) {
        match v {
            JsonValue::Array(a) => {
                let x0 = match decode_seq_req::<T>(a, 0, "an array of length 4") {
                    Ok(x) => x,
                    Err(e) => return Err(e),
                };
                let x1 = match decode_seq_req::<T>(a, 1, "an array of length 4") {
                    Ok(x) => x,
                    Err(e) => return Err(e),
                };
                let x2 = match decode_seq_req::<T>(a, 2, "an array of length 4") {
                    Ok(x) => x,
                    Err(e) => return Err(e),
                };
                let x3 = match decode_seq_req::<T>(a, 3, "an array of length 4") {
                    Ok(x) => x,
                    Err(e) => return Err(e),
                };
                if a.len() > 4 {
                    return Err(make_length_error(a.len()));
                }
                Ok([x0, x1, x2, x3])
            },
            _ => Err(make_type_error(v, "an array of length 4")),
        }
    }
}

impl<T: JsonEncode> JsonEncode for [T; 4] {
    open spec fn to_json(self) -> Json {
        Json::Array(seq![self@[0].to_json(), self@[1].to_json(), self@[2].to_json(), self@[3].to_json()])
    }

    open spec fn round_trips(self) -> bool {
        self@[0].round_trips() && self@[1].round_trips() && self@[2].round_trips() && self@[3].round_trips()
    }

    fn encode(&self) -> (r: JsonValue) {
        let mut out: Vec<JsonValue> = Vec::new();
        out.push(self[0].encode());
        out.push(self[1].encode());
        out.push(self[2].encode());
        out.push(self[3].encode());
        let r = JsonValue::Array(out);
        proof {
            assert(r.model()->Array_0 =~= self.to_json()->Array_0);
        }
        r
    }

    proof fn lemma_round_trip(self) {
        self@[0].lemma_round_trip();
        self@[1].lemma_round_trip();
        self@[2].lemma_round_trip();
        self@[3].lemma_round_trip();
    }
}

/// An optional field is absent or `null` for `None`, and otherwise holds the value.
pub open spec fn opt_field_accepts<T: JsonDecode>(o: Seq<(Seq<char>, Json)>, key: Seq<char>) -> bool {
    match lookup(o, key) {
        None => true,
        Some(v) => v is Null || T::accepts(v),
    }
}

pub open spec fn opt_field_decodes<T: JsonDecode>(o: Seq<(Seq<char>, Json)>, key: Seq<char>, x: Option<T>) -> bool {
    match lookup(o, key) {
        None => x is None,
        Some(v) => if v is Null {
            x is None
        } else {
            x matches Some(t) && T::decodes(v, t)
        },
    }
}

pub open spec fn opt_field_rejection<T: JsonDecode>(o: Seq<(Seq<char>, Json)>, key: Seq<char>) -> Seq<char> {
    T::rejection(lookup(o, key)->0)
}

/// Reads the optional field `key` of an object.
pub fn decode_opt_field<T: JsonDecode>(fields: &Vec<(String, JsonValue)>, key: &str) -> (r: Result<Option<T>, String>)
    ensures
        r is Ok <==> opt_field_accepts::<T>(entries_model(*fields), key@),
        r matches Ok(x) ==> opt_field_decodes::<T>(entries_model(*fields), key@, x),
        r matches Err(e) ==> e@ == opt_field_rejection::<T>(entries_model(*fields), key@),
{
    match get_field(fields, key) {
        None => Ok(None),
        Some(v) => match v {
            JsonValue::Null => Ok(None),
            _ => match T::decode(v) {
                Ok(x) => Ok(Some(x)),
                Err(e) => Err(e),
            },
        },
    }
}

/// A required field is present and holds the value.
pub open spec fn req_field_accepts<T: JsonDecode>(o: Seq<(Seq<char>, Json)>, key: Seq<char>) -> bool {
    lookup(o, key) matches Some(v) && T::accepts(v)
}

pub open spec fn req_field_decodes<T: JsonDecode>(o: Seq<(Seq<char>, Json)>, key: Seq<char>, x: T) -> bool {
    lookup(o, key) matches Some(v) && T::decodes(v, x)
}

pub open spec fn req_field_rejection<T: JsonDecode>(o: Seq<(Seq<char>, Json)>, key: Seq<char>) -> Seq<char> {
    match lookup(o, key) {
        None => missing_field(key),
        Some(v) => T::rejection(v),
    }
}

/// Reads the required field `key` of an object.
pub fn decode_req_field<T: JsonDecode>(fields: &Vec<(String, JsonValue)>, key: &str) -> (r: Result<T, String>)
    ensures
        r is Ok <==> req_field_accepts::<T>(entries_model(*fields), key@),
        r matches Ok(x) ==> req_field_decodes::<T>(entries_model(*fields), key@, x),
        r matches Err(e) ==> e@ == req_field_rejection::<T>(entries_model(*fields), key@),
{
    match get_field(fields, key) {
        None => Err(make_missing_field(key)),
        Some(v) => T::decode(v),
    }
}

/// Whether the first entry of `o` whose key is `a` or `b` has key `a`.
pub open spec fn comes_before(o: Seq<(Seq<char>, Json)>, a: Seq<char>, b: Seq<char>) -> bool
    decreases o.len(),
{
    if o.len() == 0 {
        false
    } else if o[0].0 == a {
        true
    } else if o[0].0 == b {
        false
    } else {
        comes_before(o.drop_first(), a, b)
    }
}

/// Whether key `a` occurs in `fields` before the first entry with key `b`.
pub fn key_comes_before(fields: &Vec<(String, JsonValue)>, a: &str, b: &str) -> (r: bool)
    ensures
        r == comes_before(entries_model(*fields), a@, b@),
{
    let ghost m = entries_model(*fields);
    let mut i: usize = 0;
    proof {
        assert(m.skip(0) =~= m);
    }
    while i < fields.len()
        invariant
            i <= fields.len(),
            m == entries_model(*fields),
            m.len() == fields.len(),
            comes_before(m, a@, b@) == comes_before(m.skip(i as int), a@, b@),
        decreases fields.len() - i,
    {
        let ghost rest = m.skip(i as int);
        proof {
            assert(rest.drop_first() =~= m.skip(i + 1));
            assert(rest[0] == m[i as int]);
            assert(m[i as int] == (fields@[i as int].0@, fields@[i as int].1.model()));
        }
        let k = fields[i].0.as_str();
        if str_eq(k, a) {
            return true;
        }
        if str_eq(k, b) {
            return false;
        }
        i += 1;
    }
    false
}

/// Whether entry `i` of the entries `o` is the first with its key.
pub open spec fn first_with_key(o: Seq<(Seq<char>, Json)>, i: int) -> bool {
    lookup(o.take(i), o[i].0) is None
}

/// Whether entry `i` of `fields` comes after another entry with its key.
pub fn key_seen_before(fields: &Vec<(String, JsonValue)>, i: usize) -> (r: bool)
    requires
        i < fields.len(),
    ensures
        r == !first_with_key(entries_model(*fields), i as int),
{
    let ghost m = entries_model(*fields);
    let ghost p = m.take(i as int);
    let key = fields[i].0.as_str();
    let mut j: usize = 0;
    proof {
        assert(m[i as int].0 == key@);
        assert(p.skip(0) =~= p);
    }
    while j < i
        invariant
            j <= i,
            i < fields.len(),
            m == entries_model(*fields),
            p == m.take(i as int),
            key@ == m[i as int].0,
            lookup(p, key@) == lookup(p.skip(j as int), key@),
        decreases i - j,
    {
        let ghost rest = p.skip(j as int);
        proof {
            assert(rest.drop_first() =~= p.skip(j + 1));
            assert(rest[0] == m[j as int]);
            assert(m[j as int] == (fields@[j as int].0@, fields@[j as int].1.model()));
        }
        if str_eq(fields[j].0.as_str(), key) {
            return true;
        }
        j += 1;
    }
    proof {
        assert(p.skip(i as int).len() == 0);
    }
    false
}

/// Item `i` of the array `a`, which holds a required field, is there and reads as a `T`.
pub open spec fn seq_req_accepts<T: JsonDecode>(a: Seq<Json>, i: int) -> bool {
    i < a.len() && T::accepts(a[i])
}

pub open spec fn seq_req_decodes<T: JsonDecode>(a: Seq<Json>, i: int, x: T) -> bool {
    i < a.len() && T::decodes(a[i], x)
}

pub open spec fn seq_req_rejection<T: JsonDecode>(a: Seq<Json>, i: int, expected: Seq<char>) -> Seq<char> {
    if i < a.len() {
        T::rejection(a[i])
    } else {
        invalid_length(i as nat, expected)
    }
}

/// Reads item `i` of the array `a` as a required field of what `expected` names.
pub fn decode_seq_req<T: JsonDecode>(a: &Vec<JsonValue>, i: usize, expected: &str) -> (r: Result<T, String>)
    ensures
        r is Ok <==> seq_req_accepts::<T>(items_model(*a), i as int),
        r matches Ok(x) ==> seq_req_decodes::<T>(items_model(*a), i as int, x),
        r matches Err(e) ==> e@ == seq_req_rejection::<T>(items_model(*a), i as int, expected@),
{
    if i < a.len() {
        proof {
            assert(items_model(*a)[i as int] == a@[i as int].model());
        }
        T::decode(&a[i])
    } else {
        Err(make_invalid_length(i, expected))
    }
}

/// Item `i` of the array `a`, which holds an optional field, is `null` or reads as a `T`, or is
/// missing where `missing_ok` allows it.
pub open spec fn seq_opt_accepts<T: JsonDecode>(a: Seq<Json>, i: int, missing_ok: bool) -> bool {
    if i < a.len() {
        a[i] is Null || T::accepts(a[i])
    } else {
        missing_ok
    }
}

pub open spec fn seq_opt_decodes<T: JsonDecode>(a: Seq<Json>, i: int, x: Option<T>) -> bool {
    if i < a.len() && !(a[i] is Null) {
        x matches Some(t) && T::decodes(a[i], t)
    } else {
        x is None
    }
}

pub open spec fn seq_opt_rejection<T: JsonDecode>(a: Seq<Json>, i: int, expected: Seq<char>) -> Seq<char> {
    if i < a.len() {
        T::rejection(a[i])
    } else {
        invalid_length(i as nat, expected)
    }
}

/// Reads item `i` of the array `a` as an optional field of what `expected` names.
pub fn decode_seq_opt<T: JsonDecode>(a: &Vec<JsonValue>, i: usize, missing_ok: bool, expected: &str) -> (r: Result<
    Option<T>,
    String,
>)
    ensures
        r is Ok <==> seq_opt_accepts::<T>(items_model(*a), i as int, missing_ok),
        r matches Ok(x) ==> seq_opt_decodes::<T>(items_model(*a), i as int, x),
        r matches Err(e) ==> e@ == seq_opt_rejection::<T>(items_model(*a), i as int, expected@),
{
    if i < a.len() {
        proof {
            assert(items_model(*a)[i as int] == a@[i as int].model());
        }
        match &a[i] {
            JsonValue::Null => Ok(None),
            x => match T::decode(x) {
                Ok(t) => Ok(Some(t)),
                Err(e) => Err(e),
            },
        }
    } else if missing_ok {
        Ok(None)
    } else {
        Err(make_invalid_length(i, expected))
    }
}

/// The entries that an optional field is written as: none for `None`.
pub open spec fn opt_entry<T: JsonEncode>(key: Seq<char>, x: Option<T>) -> Seq<(Seq<char>, Json)> {
    match x {
        None => Seq::empty(),
        Some(t) => seq![(key, t.to_json())],
    }
}

/// The entry that a required field is written as.
pub open spec fn req_entry<T: JsonEncode>(key: Seq<char>, x: T) -> Seq<(Seq<char>, Json)> {
    seq![(key, x.to_json())]
}

/// The entry that an optional field is written as where `None` is written as `null`.
pub open spec fn nul_entry<T: JsonEncode>(key: Seq<char>, x: Option<T>) -> Seq<(Seq<char>, Json)> {
    match x {
        None => seq![(key, Json::Null)],
        Some(t) => seq![(key, t.to_json())],
    }
}

pub fn push_nul_entry<T: JsonEncode>(out: &mut Vec<(String, JsonValue)>, key: &str, x: &Option<T>)
    ensures
        entries_model(*final(out)) == entries_model(*old(out)) + nul_entry::<T>(key@, *x),
{
    let ghost before = entries_model(*out);
    let value = match x {
        None => JsonValue::Null,
        Some(t) => t.encode(),
    };
    proof {
        assert(seq![(key@, value.model())] == nul_entry::<T>(key@, *x));
    }
    out.push((key.to_string(), value));
    proof {
        assert(entries_model(*out) =~= before + nul_entry::<T>(key@, *x));
    }
}

pub proof fn lemma_lookup_nul_entry<T: JsonEncode>(key: Seq<char>, x: Option<T>, k: Seq<char>)
    ensures
        lookup(nul_entry::<T>(key, x), k) == (if key == k {
            Some(
                match x {
                    None => Json::Null,
                    Some(t) => t.to_json(),
                },
            )
        } else {
            None
        }),
{
    let e = nul_entry::<T>(key, x);
    assert(e.len() == 1);
    assert(lookup(e.drop_first(), k) is None);
}

pub fn push_opt_entry<T: JsonEncode>(out: &mut Vec<(String, JsonValue)>, key: &str, x: &Option<T>)
    ensures
        entries_model(*final(out)) == entries_model(*old(out)) + opt_entry::<T>(key@, *x),
{
    let ghost before = entries_model(*out);
    match x {
        None => {
            proof {
                assert(entries_model(*out) =~= before + opt_entry::<T>(key@, *x));
            }
        },
        Some(t) => {
            out.push((key.to_string(), t.encode()));
            proof {
                assert(entries_model(*out) =~= before + opt_entry::<T>(key@, *x));
            }
        },
    }
}

pub fn push_req_entry<T: JsonEncode>(out: &mut Vec<(String, JsonValue)>, key: &str, x: &T)
    ensures
        entries_model(*final(out)) == entries_model(*old(out)) + req_entry::<T>(key@, *x),
{
    let ghost before = entries_model(*out);
    out.push((key.to_string(), x.encode()));
    proof {
        assert(entries_model(*out) =~= before + req_entry::<T>(key@, *x));
    }
}


pub proof fn lemma_lookup_opt_entry<T: JsonEncode>(key: Seq<char>, x: Option<T>, k: Seq<char>)
    ensures
        lookup(opt_entry::<T>(key, x), k) == (if key == k && x is Some {
            Some(x->0.to_json())
        } else {
            None
        }),
{
    if x is Some {
        let e = opt_entry::<T>(key, x);
        assert(e.len() == 1);
        assert(e[0] == (key, x->0.to_json()));
        assert(lookup(e.drop_first(), k) is None);
    }
}

pub proof fn lemma_lookup_req_entry<T: JsonEncode>(key: Seq<char>, x: T, k: Seq<char>)
    ensures
        lookup(req_entry::<T>(key, x), k) == (if key == k {
            Some(x.to_json())
        } else {
            None
        }),
{
    let e = req_entry::<T>(key, x);
    assert(e.len() == 1);
    assert(e[0] == (key, x.to_json()));
    assert(lookup(e.drop_first(), k) is None);
}

/// Every entry of `es[j]` has the key `keys[j]`.
pub open spec fn keyed_by(es: Seq<Seq<(Seq<char>, Json)>>, keys: Seq<Seq<char>>) -> bool {
    &&& es.len() == keys.len()
    &&& forall|j: int, k: int| 0 <= j < es.len() && 0 <= k < es[j].len() ==> (#[trigger] es[j][k]).0 == keys[j]
}

/// Every key but the one at `i` differs from the key at `i`.
pub open spec fn others_differ(keys: Seq<Seq<char>>, i: int) -> bool {
    forall|j: int| 0 <= j < keys.len() && j != i ==> #[trigger] keys[j] != keys[i]
}

pub proof fn lemma_lookup_flatten(es: Seq<Seq<(Seq<char>, Json)>>, keys: Seq<Seq<char>>, i: int)
    requires
        keyed_by(es, keys),
        others_differ(keys, i),
        0 <= i < es.len(),
    ensures
        lookup(es.flatten(), keys[i]) == lookup(es[i], keys[i]),
    decreases es.len(),
{
    let rest = es.drop_first();
    let rkeys = keys.drop_first();
    lemma_lookup_concat(es[0], rest.flatten(), keys[i]);
    assert forall|j: int, k: int| 0 <= j < rest.len() && 0 <= k < rest[j].len() implies (#[trigger] rest[j][k]).0
        == rkeys[j] by {
        assert(rest[j] == es[j + 1]);
    }
    if i == 0 {
        if lookup(es[0], keys[0]) is None {
            assert forall|j: int| 0 <= j < rkeys.len() implies rkeys[j] != keys[0] by {
                assert(rkeys[j] == keys[j + 1]);
            }
            lemma_lookup_none_for_other_keys(rest, rkeys, keys[0]);
        }
    } else {
        assert(keys[0] != keys[i]);
        lemma_lookup_absent_key(es[0], keys[0], keys[i]);
        assert forall|j: int| 0 <= j < rkeys.len() && j != i - 1 implies #[trigger] rkeys[j] != rkeys[i - 1] by {
            assert(rkeys[j] == keys[j + 1]);
            assert(keys[j + 1] != keys[i]);
        }
        lemma_lookup_flatten(rest, rkeys, i - 1);
    }
}

proof fn lemma_lookup_absent_key(e: Seq<(Seq<char>, Json)>, k: Seq<char>, key: Seq<char>)
    requires
        forall|n: int| 0 <= n < e.len() ==> (#[trigger] e[n]).0 == k,
        k != key,
    ensures
        lookup(e, key) is None,
    decreases e.len(),
{
    if e.len() > 0 {
        lemma_lookup_absent_key(e.drop_first(), k, key);
    }
}

/// Written entries whose keys all differ from `key` hold no entry with key `key`.
pub proof fn lemma_lookup_none_for_other_keys(es: Seq<Seq<(Seq<char>, Json)>>, keys: Seq<Seq<char>>, key: Seq<char>)
    requires
        keyed_by(es, keys),
        forall|j: int| 0 <= j < keys.len() ==> #[trigger] keys[j] != key,
    ensures
        lookup(es.flatten(), key) is None,
    decreases es.len(),
{
    if es.len() > 0 {
        let rest = es.drop_first();
        let rkeys = keys.drop_first();
        lemma_lookup_concat(es[0], rest.flatten(), key);
        lemma_lookup_absent_key(es[0], keys[0], key);
        assert forall|j: int, k: int| 0 <= j < rest.len() && 0 <= k < rest[j].len() implies (#[trigger] rest[j][k]).0
            == rkeys[j] by {
            assert(rest[j] == es[j + 1]);
        }
        lemma_lookup_none_for_other_keys(rest, rkeys, key);
    }
}

impl JsonDecode for JsonValue {
    open spec fn accepts(v: Json) -> bool {
        true
    }

    open spec fn decodes(v: Json, x: Self) -> bool {
        x.model() == v
    }

    open spec fn rejection(v: Json) -> Seq<char> {
        Seq::empty()
    }

    fn decode(v: &JsonValue) -> (r: Result<Self, String>) {
        Ok(v.duplicate())
    }
}

impl JsonEncode for JsonValue {
    open spec fn to_json(self) -> Json {
        self.model()
    }

    open spec fn round_trips(self) -> bool {
        true
    }

    fn encode(&self) -> (r: JsonValue) {
        let r = self.duplicate();
        assert(r.model() == self.to_json());
        r
    }

    proof fn lemma_round_trip(self) {
    }
}

impl JsonDecode for String {
    open spec fn accepts(v: Json) -> bool {
        v is Str
    }

    open spec fn decodes(v: Json, x: Self) -> bool {
        v == Json::Str(x@)
    }

    open spec fn rejection(v: Json) -> Seq<char> {
        type_error(v, "a string"@)
    }

    fn decode(v: &JsonValue) -> (r: Result<Self, String>) {
        match v {
            JsonValue::String(s) => Ok(s.clone()),
            _ => Err(make_type_error(v, "a string")),
        }
    }
}

impl JsonEncode for String {
    open spec fn to_json(self) -> Json {
        Json::Str(self@)
    }

    open spec fn round_trips(self) -> bool {
        true
    }

    fn encode(&self) -> (r: JsonValue) {
        let r = JsonValue::String(self.clone());
        assert(r.model() == self.to_json());
        r
    }

    proof fn lemma_round_trip(self) {
    }
}

impl JsonDecode for bool {
    open spec fn accepts(v: Json) -> bool {
        v is Bool
    }

    open spec fn decodes(v: Json, x: Self) -> bool {
        v == Json::Bool(x)
    }

    open spec fn rejection(v: Json) -> Seq<char> {
        type_error(v, "a boolean"@)
    }

    fn decode(v: &JsonValue) -> (r: Result<Self, String>) {
        match v {
            JsonValue::Bool(b) => Ok(*b),
            _ => Err(make_type_error(v, "a boolean")),
        }
    }
}

impl JsonEncode for bool {
    open spec fn to_json(self) -> Json {
        Json::Bool(self)
    }

    open spec fn round_trips(self) -> bool {
        true
    }

    fn encode(&self) -> (r: JsonValue) {
        let r = JsonValue::Bool(*self);
        assert(r.model() == self.to_json());
        r
    }

    proof fn lemma_round_trip(self) {
    }
}

impl JsonDecode for JsonNumber {
    open spec fn accepts(v: Json) -> bool {
        v is Number
    }

    open spec fn decodes(v: Json, x: Self) -> bool {
        v == Json::Number(x@)
    }

    open spec fn rejection(v: Json) -> Seq<char> {
        type_error(v, "a JSON number"@)
    }

    fn decode(v: &JsonValue) -> (r: Result<Self, String>) {
        match v {
            JsonValue::Number(n) => Ok(n.duplicate()),
            _ => Err(make_type_error(v, "a JSON number")),
        }
    }
}

impl JsonEncode for JsonNumber {
    open spec fn to_json(self) -> Json {
        Json::Number(self@)
    }

    open spec fn round_trips(self) -> bool {
        true
    }

    fn encode(&self) -> (r: JsonValue) {
        let r = JsonValue::Number(self.duplicate());
        assert(r.model() == self.to_json());
        r
    }

    proof fn lemma_round_trip(self) {
    }
}

/// The lower-case hexadecimal digit of `n`, from 0 to 15.
pub open spec fn lower_hex_digit(n: int) -> char {
    if n < 10 {
        (n + 48) as char
    } else {
        (n + 87) as char
    }
}

/// What `serde_json` writes for the character `c` inside a string: a quote and a backslash
/// behind a backslash; backspace, tab, line feed, form feed and carriage return by their
/// letters; the other characters below U+0020 as `\u00` and two lower-case hexadecimal
/// digits; every other character as it is.
pub open spec fn escaped_char(c: char) -> Seq<char> {
    if c == '"' {
        seq!['\\', '"']
    } else if c == '\\' {
        seq!['\\', '\\']
    } else if (c as int) == 8 {
        seq!['\\', 'b']
    } else if c == '\t' {
        seq!['\\', 't']
    } else if c == '\n' {
        seq!['\\', 'n']
    } else if (c as int) == 12 {
        seq!['\\', 'f']
    } else if c == '\r' {
        seq!['\\', 'r']
    } else if (c as int) < 32 {
        seq!['\\', 'u', '0', '0', lower_hex_digit((c as int) / 16), lower_hex_digit((c as int) % 16)]
    } else {
        seq![c]
    }
}

/// The characters of `s`, each escaped as `escaped_char` says.
pub open spec fn escaped_text(s: Seq<char>) -> Seq<char>
    decreases s.len(),
{
    if s.len() == 0 {
        Seq::empty()
    } else {
        escaped_text(s.drop_last()) + escaped_char(s.last())
    }
}

/// What `serde_json` writes for the string `s`: the string in double quotes, with the
/// characters that JSON escapes escaped.
pub open spec fn json_quoted(s: Seq<char>) -> Seq<char> {
    seq!['"'] + escaped_text(s) + seq!['"']
}

/// Calls `serde_json::to_string` on a string, which cannot fail for a string. Its source
/// (`format_escaped_str` with the table `ESCAPE`, and `write_char_escape`) escapes exactly
/// as `json_quoted` states.
#[verifier::external_body]
fn quote_json_string(s: &str) -> (r: String)
    ensures
        r@ == json_quoted(s@),
{
    match serde_json::to_string(s) {
        Ok(t) => t,
        Err(_) => String::new(),
    }
}

/// The compact text of a document: what `serde_json` prints for a value, the entries of an
/// object in the order that they are held.
pub open spec fn json_text(v: Json) -> Seq<char>
    decreases v,
{
    match v {
        Json::Null => "null"@,
        Json::Bool(b) => if b {
            "true"@
        } else {
            "false"@
        },
        Json::Number(t) => t,
        Json::Str(s) => json_quoted(s),
        Json::Array(a) => "["@ + items_text(a) + "]"@,
        Json::Object(o) => "{"@ + entries_text(o) + "}"@,
    }
}

/// The texts of the items `a`, separated by commas.
pub open spec fn items_text(a: Seq<Json>) -> Seq<char>
    decreases a,
{
    if a.len() == 0 {
        Seq::empty()
    } else if a.len() == 1 {
        json_text(a[0])
    } else {
        items_text(a.drop_last()) + ","@ + json_text(a.last())
    }
}

/// The texts of the entries `o`, each a quoted key, a colon and the value, separated by commas.
pub open spec fn entries_text(o: Seq<(Seq<char>, Json)>) -> Seq<char>
    decreases o,
{
    if o.len() == 0 {
        Seq::empty()
    } else if o.len() == 1 {
        json_quoted(o[0].0) + ":"@ + json_text(o[0].1)
    } else {
        entries_text(o.drop_last()) + ","@ + json_quoted(o.last().0) + ":"@ + json_text(o.last().1)
    }
}

/// Prints a document compactly.
pub fn json_to_text(v: &JsonValue) -> (r: String)
    ensures
        r@ == json_text(v.model()),
    decreases v,
{
    match v {
        JsonValue::Null => "null".to_string(),
        JsonValue::Bool(b) => if *b {
            "true".to_string()
        } else {
            "false".to_string()
        },
        JsonValue::Number(n) => n.as_text().to_string(),
        JsonValue::String(s) => quote_json_string(s.as_str()),
        JsonValue::Array(a) => {
            let ghost m = items_model(*a);
            let mut out = "[".to_string();
            let mut i: usize = 0;
            proof {
                assert(m.take(0) =~= Seq::<Json>::empty());
            }
            while i < a.len()
                invariant
                    *v == JsonValue::Array(*a),
                    m == items_model(*a),
                    m.len() == a.len(),
                    i <= a.len(),
                    out@ == "["@ + items_text(m.take(i as int)),
                decreases a.len() - i,
            {
                proof {
                    assert(decreases_to!(*a => a@));
                    assert(decreases_to!(a@ => a@[i as int]));
                    assert(decreases_to!(*v => (*v)->Array_0));
                    assert(m[i as int] == a@[i as int].model());
                    assert(m.take(i + 1).drop_last() =~= m.take(i as int));
                    assert(m.take(i + 1).last() == m[i as int]);
                }
                if i > 0 {
                    out.append(",");
                }
                let t = json_to_text(&a[i]);
                out.append(t.as_str());
                proof {
                    if i == 0 {
                        assert(m.take(1) =~= seq![m[0]]);
                    }
                }
                i += 1;
            }
            out.append("]");
            proof {
                assert(m.take(m.len() as int) =~= m);
            }
            out
        },
        JsonValue::Object(o) => {
            let ghost m = entries_model(*o);
            let mut out = "{".to_string();
            let mut i: usize = 0;
            proof {
                assert(m.take(0) =~= Seq::<(Seq<char>, Json)>::empty());
            }
            while i < o.len()
                invariant
                    *v == JsonValue::Object(*o),
                    m == entries_model(*o),
                    m.len() == o.len(),
                    i <= o.len(),
                    out@ == "{"@ + entries_text(m.take(i as int)),
                decreases o.len() - i,
            {
                proof {
                    assert(decreases_to!(*o => o@));
                    assert(decreases_to!(o@ => o@[i as int]));
                    assert(decreases_to!(o@[i as int] => o@[i as int].1));
                    assert(decreases_to!(*v => (*v)->Object_0));
                    assert(m[i as int] == (o@[i as int].0@, o@[i as int].1.model()));
                    assert(m.take(i + 1).drop_last() =~= m.take(i as int));
                    assert(m.take(i + 1).last() == m[i as int]);
                }
                if i > 0 {
                    out.append(",");
                }
                let k = quote_json_string(o[i].0.as_str());
                out.append(k.as_str());
                out.append(":");
                let t = json_to_text(&o[i].1);
                out.append(t.as_str());
                proof {
                    if i == 0 {
                        assert(m.take(1) =~= seq![m[0]]);
                    }
                }
                i += 1;
            }
            out.append("}");
            proof {
                assert(m.take(m.len() as int) =~= m);
            }
            out
        },
    }
}

} // verus!
