use vstd::prelude::*;
use crate::json::{Json, JsonValue, json_text, json_to_text};
use crate::spec::decoder::{EnumValues, ParsedItem, StyleReference, TopLevelItem, parse_version, version_number};
use crate::spec::scope::{
    EnumModel, FieldModel, FieldsModel, FunctionModel, ImplModel, ItemModel, ScopeModel, StructModel, TypeDefModel,
    VariantModel, enum_derive, enum_doc, enum_model, enum_push_variant, enum_vis, field_doc, field_vis, impl_model,
    impl_push_fn, impl_trait, items_plain, new_enum, new_field, new_function, new_impl, new_scope, new_struct,
    new_type_def, new_variant, scope_model, scope_push_enum, scope_push_impl, scope_push_struct, scope_text,
    scope_to_string, struct_derive, struct_doc, struct_model, struct_push_field, struct_tuple_field, struct_vis,
    function_line, function_model, variant_annotation, variant_model, variant_tuple, field_model, item_plain,
};

verus! {

/// What `char::is_alphanumeric` answers for `c` (the Unicode `Alphabetic` or `Numeric` property).
pub uninterp spec fn is_alphanumeric_char(c: char) -> bool;

/// The characters that `char::to_uppercase` yields for `c`.
pub uninterp spec fn uppercase_of_char(c: char) -> Seq<char>;

/// The text that `str::to_lowercase` returns for `s`.
pub uninterp spec fn lowercase_of_str(s: Seq<char>) -> Seq<char>;

/// An ASCII character.
pub open spec fn is_ascii_char(c: char) -> bool {
    (c as int) < 128
}

/// Every character of `s` is ASCII.
pub open spec fn all_ascii(s: Seq<char>) -> bool {
    forall|i: int| 0 <= i < s.len() ==> is_ascii_char(#[trigger] s[i])
}

/// An ASCII letter or digit.
pub open spec fn is_ascii_alphanumeric(c: char) -> bool {
    ('0' <= c && c <= '9') || ('a' <= c && c <= 'z') || ('A' <= c && c <= 'Z')
}

/// `c` with an ASCII lower-case letter made upper-case.
pub open spec fn ascii_upper(c: char) -> char {
    if 'a' <= c && c <= 'z' {
        ((c as int) - 32) as char
    } else {
        c
    }
}

/// `c` with an ASCII upper-case letter made lower-case.
pub open spec fn ascii_lower(c: char) -> char {
    if 'A' <= c && c <= 'Z' {
        ((c as int) + 32) as char
    } else {
        c
    }
}

/// `s` with every ASCII upper-case letter made lower-case.
pub open spec fn ascii_lower_text(s: Seq<char>) -> Seq<char> {
    s.map_values(|c: char| ascii_lower(c))
}

/// `s` with every ASCII lower-case letter made upper-case.
pub open spec fn ascii_upper_text(s: Seq<char>) -> Seq<char> {
    s.map_values(|c: char| ascii_upper(c))
}

/// Calls `char::is_alphanumeric`; its answer is the name `is_alphanumeric_char` of `c`. Its
/// documentation makes it `is_alphabetic() || is_numeric()`, which for an ASCII character are
/// the letters and the digits.
#[verifier::external_body]
fn char_is_alphanumeric(c: char) -> (r: bool)
    ensures
        r == is_alphanumeric_char(c),
        is_ascii_char(c) ==> r == is_ascii_alphanumeric(c),
{
    c.is_alphanumeric()
}

/// Calls `char::to_uppercase` and collects the characters it yields, which its
/// documentation promises to be one or more; for an ASCII character std maps `a`..`z` to
/// `A`..`Z` and leaves the others as they are.
#[verifier::external_body]
fn char_to_uppercase(c: char) -> (r: String)
    ensures
        r@ == uppercase_of_char(c),
        r@.len() >= 1,
        is_ascii_char(c) ==> r@ == seq![ascii_upper(c)],
{
    c.to_uppercase().collect::<String>()
}

/// Calls `str::to_lowercase`; its answer is the name `lowercase_of_str` of `s`. On an ASCII
/// text std maps `A`..`Z` to `a`..`z` and leaves the other characters as they are.
#[verifier::external_body]
fn str_to_lowercase(s: &str) -> (r: String)
    ensures
        r@ == lowercase_of_str(s@),
        all_ascii(s@) ==> r@ == ascii_lower_text(s@),
{
    s.to_lowercase()
}

/// The maximal runs of alphanumeric characters of `s`, in order.
pub open spec fn words(s: Seq<char>) -> Seq<Seq<char>>
    decreases s.len(),
{
    if s.len() == 0 {
        Seq::empty()
    } else {
        let prev = words(s.drop_last());
        let c = s.last();
        if !is_alphanumeric_char(c) {
            prev
        } else if s.len() >= 2 && is_alphanumeric_char(s[s.len() - 2]) {
            prev.update(prev.len() - 1, prev.last().push(c))
        } else {
            prev.push(seq![c])
        }
    }
}

/// A word with its first character upper-cased and the rest lower-cased.
pub open spec fn capitalized(w: Seq<char>) -> Seq<char> {
    uppercase_of_char(w[0]) + lowercase_of_str(w.drop_first())
}

/// The capitalized words, one after the other.
pub open spec fn join_capitalized(ws: Seq<Seq<char>>) -> Seq<char>
    decreases ws.len(),
{
    if ws.len() == 0 {
        Seq::empty()
    } else {
        join_capitalized(ws.drop_last()) + capitalized(ws.last())
    }
}

/// The UpperCamelCase form of `s`: its alphanumeric words, each capitalized, joined.
pub open spec fn camel_case(s: Seq<char>) -> Seq<char> {
    join_capitalized(words(s))
}

proof fn lemma_words_shape(s: Seq<char>)
    ensures
        forall|k: int| 0 <= k < words(s).len() ==> #[trigger] words(s)[k].len() > 0,
        words(s).len() == 0 <==> (forall|i: int| 0 <= i < s.len() ==> !is_alphanumeric_char(s[i])),
        s.len() > 0 && is_alphanumeric_char(s.last()) ==> words(s).len() > 0,
    decreases s.len(),
{
    if s.len() > 0 {
        let p = s.drop_last();
        lemma_words_shape(p);
        if words(s).len() == 0 {
            assert forall|i: int| 0 <= i < s.len() implies !is_alphanumeric_char(s[i]) by {
                if i < s.len() - 1 {
                    assert(s[i] == p[i]);
                }
            }
        }
        if forall|i: int| 0 <= i < s.len() ==> !is_alphanumeric_char(s[i]) {
            assert forall|i: int| 0 <= i < p.len() implies !is_alphanumeric_char(p[i]) by {
                assert(s[i] == p[i]);
            }
        }
    }
}

proof fn lemma_words_split(a: Seq<char>, c: char, b: Seq<char>)
    requires
        !is_alphanumeric_char(c),
    ensures
        words(a + seq![c] + b) == words(a) + words(b),
    decreases b.len(),
{
    let x = a + seq![c] + b;
    if b.len() == 0 {
        assert(x =~= a.push(c));
        assert(x.drop_last() =~= a);
        assert(words(b) =~= Seq::<Seq<char>>::empty());
        assert(words(a) + words(b) =~= words(a));
    } else {
        let bp = b.drop_last();
        let d = b.last();
        let xp = a + seq![c] + bp;
        lemma_words_split(a, c, bp);
        assert(x.drop_last() =~= xp);
        assert(x.last() == d);
        lemma_words_shape(bp);
        if x.len() >= 2 {
            if bp.len() == 0 {
                assert(x[x.len() - 2] == c);
            } else {
                assert(x[x.len() - 2] == bp.last());
                assert(b[b.len() - 2] == bp.last());
            }
        }
        let wa = words(a);
        let wb = words(bp);
        if !is_alphanumeric_char(d) {
        } else if bp.len() > 0 && is_alphanumeric_char(bp.last()) {
            assert(wb.len() > 0);
            assert((wa + wb).update((wa + wb).len() - 1, (wa + wb).last().push(d)) =~= wa + wb.update(
                wb.len() - 1,
                wb.last().push(d),
            ));
        } else {
            assert((wa + wb).push(seq![d]) =~= wa + wb.push(seq![d]));
        }
    }
}

proof fn lemma_join_capitalized_concat(w1: Seq<Seq<char>>, w2: Seq<Seq<char>>)
    ensures
        join_capitalized(w1 + w2) == join_capitalized(w1) + join_capitalized(w2),
    decreases w2.len(),
{
    if w2.len() == 0 {
        assert(w1 + w2 =~= w1);
        assert(join_capitalized(w1) + join_capitalized(w2) =~= join_capitalized(w1));
    } else {
        lemma_join_capitalized_concat(w1, w2.drop_last());
        assert((w1 + w2).drop_last() =~= w1 + w2.drop_last());
        assert((w1 + w2).last() == w2.last());
        assert(join_capitalized(w1) + (join_capitalized(w2.drop_last()) + capitalized(w2.last()))
            =~= (join_capitalized(w1) + join_capitalized(w2.drop_last())) + capitalized(w2.last()));
    }
}

/// Separators split the conversion: for any character `c` that is not alphanumeric, the
/// UpperCamelCase form of `a`, then `c`, then `b` is the form of `a` followed by the form
/// of `b`. In particular leading and trailing separators do not change the result.
pub proof fn lemma_camel_case_splits_at_separator(a: Seq<char>, c: char, b: Seq<char>)
    requires
        !is_alphanumeric_char(c),
    ensures
        camel_case(a + seq![c] + b) == camel_case(a) + camel_case(b),
{
    lemma_words_split(a, c, b);
    lemma_join_capitalized_concat(words(a), words(b));
}

/// The maximal runs of ASCII letters and digits of `s`, in order.
pub open spec fn ascii_words(s: Seq<char>) -> Seq<Seq<char>>
    decreases s.len(),
{
    if s.len() == 0 {
        Seq::empty()
    } else {
        let prev = ascii_words(s.drop_last());
        let c = s.last();
        if !is_ascii_alphanumeric(c) {
            prev
        } else if s.len() >= 2 && is_ascii_alphanumeric(s[s.len() - 2]) {
            prev.update(prev.len() - 1, prev.last().push(c))
        } else {
            prev.push(seq![c])
        }
    }
}

/// A word with its first character made ASCII upper-case and the rest ASCII lower-case.
pub open spec fn ascii_capitalized(w: Seq<char>) -> Seq<char> {
    if w.len() == 0 {
        w
    } else {
        seq![ascii_upper(w[0])] + ascii_lower_text(w.drop_first())
    }
}

/// The words `ws`, each made as `ascii_capitalized` says, one after the other.
pub open spec fn ascii_join_capitalized(ws: Seq<Seq<char>>) -> Seq<char>
    decreases ws.len(),
{
    if ws.len() == 0 {
        Seq::empty()
    } else {
        ascii_join_capitalized(ws.drop_last()) + ascii_capitalized(ws.last())
    }
}

/// The UpperCamelCase form of an ASCII text: its runs of letters and digits, each with its
/// first character upper-cased and the rest lower-cased, joined.
pub open spec fn ascii_camel_case(s: Seq<char>) -> Seq<char> {
    ascii_join_capitalized(ascii_words(s))
}

/// A case map `f` on ASCII characters that keeps which characters are letters or digits and
/// what they upper-case and lower-case to.
pub open spec fn keeps_case_forms(f: spec_fn(char) -> char) -> bool {
    forall|c: char| #![trigger f(c)] is_ascii_char(c) ==> {
        &&& is_ascii_char(f(c))
        &&& is_ascii_alphanumeric(f(c)) == is_ascii_alphanumeric(c)
        &&& ascii_upper(f(c)) == ascii_upper(c)
        &&& ascii_lower(f(c)) == ascii_lower(c)
    }
}

proof fn lemma_ascii_words_map(s: Seq<char>, f: spec_fn(char) -> char)
    requires
        all_ascii(s),
        keeps_case_forms(f),
    ensures
        ascii_words(s.map_values(f)) == ascii_words(s).map_values(|w: Seq<char>| w.map_values(f)),
    decreases s.len(),
{
    let t = s.map_values(f);
    let g = |w: Seq<char>| w.map_values(f);
    if s.len() > 0 {
        let p = s.drop_last();
        assert forall|i: int| 0 <= i < p.len() implies is_ascii_char(#[trigger] p[i]) by {
            assert(p[i] == s[i]);
        }
        lemma_ascii_words_map(p, f);
        assert(t.drop_last() =~= p.map_values(f));
        let c = s.last();
        assert(is_ascii_char(s[s.len() - 1]));
        assert(t.last() == f(c));
        if s.len() >= 2 {
            assert(is_ascii_char(s[s.len() - 2]));
            assert(t[t.len() - 2] == f(s[s.len() - 2]));
        }
        let wp = ascii_words(p);
        if !is_ascii_alphanumeric(c) {
        } else if s.len() >= 2 && is_ascii_alphanumeric(s[s.len() - 2]) {
            assert(p.last() == s[s.len() - 2]);
            lemma_ascii_words_nonempty(p);
            let u = wp.update(wp.len() - 1, wp.last().push(c));
            assert(u.map_values(g) =~= wp.map_values(g).update(wp.len() - 1, wp.map_values(g).last().push(f(c)))) by {
                assert(wp.last().push(c).map_values(f) =~= wp.last().map_values(f).push(f(c)));
            }
        } else {
            assert(wp.push(seq![c]).map_values(g) =~= wp.map_values(g).push(seq![f(c)])) by {
                assert(seq![c].map_values(f) =~= seq![f(c)]);
            }
        }
    }
}

proof fn lemma_ascii_join_map(ws: Seq<Seq<char>>, f: spec_fn(char) -> char)
    requires
        forall|k: int| 0 <= k < ws.len() ==> all_ascii(#[trigger] ws[k]),
        keeps_case_forms(f),
    ensures
        ascii_join_capitalized(ws.map_values(|w: Seq<char>| w.map_values(f))) == ascii_join_capitalized(ws),
    decreases ws.len(),
{
    let g = |w: Seq<char>| w.map_values(f);
    if ws.len() > 0 {
        let p = ws.drop_last();
        assert forall|k: int| 0 <= k < p.len() implies all_ascii(#[trigger] p[k]) by {
            assert(p[k] == ws[k]);
        }
        lemma_ascii_join_map(p, f);
        assert(ws.map_values(g).drop_last() =~= p.map_values(g));
        let w = ws.last();
        assert(all_ascii(ws[ws.len() - 1]));
        assert(ws.map_values(g).last() == w.map_values(f));
        if w.len() > 0 {
            let v = w.map_values(f);
            assert(is_ascii_char(w[0]));
            assert(ascii_lower_text(v.drop_first()) =~= ascii_lower_text(w.drop_first())) by {
                assert forall|i: int| 0 <= i < w.len() - 1 implies ascii_lower(#[trigger] v.drop_first()[i])
                    == ascii_lower(w.drop_first()[i]) by {
                    assert(is_ascii_char(w[i + 1]));
                    assert(v.drop_first()[i] == f(w[i + 1]));
                }
            }
            assert(ascii_capitalized(v) == ascii_capitalized(w));
        } else {
            assert(w.map_values(f) =~= w);
        }
    }
}

proof fn lemma_ascii_words_nonempty(s: Seq<char>)
    requires
        s.len() > 0,
        is_ascii_alphanumeric(s.last()),
    ensures
        ascii_words(s).len() > 0,
    decreases s.len(),
{
    if s.len() >= 2 && is_ascii_alphanumeric(s[s.len() - 2]) {
        assert(s.drop_last().last() == s[s.len() - 2]);
        lemma_ascii_words_nonempty(s.drop_last());
    }
}

proof fn lemma_ascii_words_ascii(s: Seq<char>)
    requires
        all_ascii(s),
    ensures
        forall|k: int| 0 <= k < ascii_words(s).len() ==> all_ascii(#[trigger] ascii_words(s)[k]),
    decreases s.len(),
{
    if s.len() > 0 {
        let p = s.drop_last();
        assert forall|i: int| 0 <= i < p.len() implies is_ascii_char(#[trigger] p[i]) by {
            assert(p[i] == s[i]);
        }
        lemma_ascii_words_ascii(p);
        let c = s.last();
        assert(is_ascii_char(s[s.len() - 1]));
        let wp = ascii_words(p);
        let w = ascii_words(s);
        if !is_ascii_alphanumeric(c) {
        } else if s.len() >= 2 && is_ascii_alphanumeric(s[s.len() - 2]) {
            assert(p.last() == s[s.len() - 2]);
            lemma_ascii_words_nonempty(p);
            let lw = wp.last().push(c);
            assert(all_ascii(wp[wp.len() - 1]));
            assert forall|i: int| 0 <= i < lw.len() implies is_ascii_char(#[trigger] lw[i]) by {
                if i < wp.last().len() {
                    assert(lw[i] == wp[wp.len() - 1][i]);
                }
            }
            assert forall|k: int| 0 <= k < w.len() implies all_ascii(#[trigger] w[k]) by {
                if k == wp.len() - 1 {
                    assert(w[k] == lw);
                } else {
                    assert(w[k] == wp[k]);
                }
            }
        } else {
            assert forall|k: int| 0 <= k < w.len() implies all_ascii(#[trigger] w[k]) by {
                if k == wp.len() {
                    assert(w[k] == seq![c]);
                    assert forall|i: int| 0 <= i < w[k].len() implies is_ascii_char(#[trigger] w[k][i]) by {
                        assert(w[k][i] == c);
                    }
                } else {
                    assert(w[k] == wp[k]);
                }
            }
        }
    }
}

/// The case of an ASCII name's letters never matters: lower-casing or upper-casing the name
/// first gives the same UpperCamelCase form, since each word is capitalized and its tail
/// lower-cased.
pub proof fn lemma_ascii_case_does_not_matter(s: Seq<char>)
    requires
        all_ascii(s),
    ensures
        all_ascii(ascii_lower_text(s)),
        all_ascii(ascii_upper_text(s)),
        ascii_camel_case(ascii_lower_text(s)) == ascii_camel_case(s),
        ascii_camel_case(ascii_upper_text(s)) == ascii_camel_case(s),
{
    let lo = |c: char| ascii_lower(c);
    let up = |c: char| ascii_upper(c);
    assert(keeps_case_forms(lo));
    assert(keeps_case_forms(up));
    assert forall|i: int| 0 <= i < s.len() implies is_ascii_char(#[trigger] ascii_lower_text(s)[i]) by {
        assert(is_ascii_char(s[i]));
    }
    assert forall|i: int| 0 <= i < s.len() implies is_ascii_char(#[trigger] ascii_upper_text(s)[i]) by {
        assert(is_ascii_char(s[i]));
    }
    lemma_ascii_words_map(s, lo);
    lemma_ascii_words_map(s, up);
    lemma_ascii_words_ascii(s);
    lemma_ascii_join_map(ascii_words(s), lo);
    lemma_ascii_join_map(ascii_words(s), up);
}

fn append_capitalized(result: &mut String, name: &str, st: usize, end: usize)
    requires
        st < end <= name@.len(),
    ensures
        final(result)@ == old(result)@ + capitalized(name@.subrange(st as int, end as int)),
        uppercase_of_char(name@[st as int]).len() >= 1,
        all_ascii(name@.subrange(st as int, end as int)) ==> capitalized(name@.subrange(st as int, end as int))
            == ascii_capitalized(name@.subrange(st as int, end as int)),
{
    let c = name.get_char(st);
    let first = char_to_uppercase(c);
    let rest = name.substring_char(st + 1, end);
    let lower = str_to_lowercase(rest);
    result.append(first.as_str());
    result.append(lower.as_str());
    proof {
        let w = name@.subrange(st as int, end as int);
        assert(w.drop_first() =~= name@.subrange(st + 1, end as int));
        if all_ascii(w) {
            assert(w[0] == c);
            assert(is_ascii_char(w[0]));
            assert forall|i: int| 0 <= i < rest@.len() implies is_ascii_char(#[trigger] rest@[i]) by {
                assert(rest@[i] == w[i + 1]);
            }
        }
    }
}

/// Converts a string to a valid Rust struct name (UpperCamelCase): the string is cut at
/// every character that is not alphanumeric, empty pieces are dropped, and each piece is
/// written with its first character upper-cased and the rest lower-cased.
pub fn to_upper_camel_case(name: &str) -> (r: String)
    ensures
        r@ == camel_case(name@),
        r@.len() == 0 <==> (forall|i: int|
            0 <= i < name@.len() ==> !is_alphanumeric_char(#[trigger] name@[i])),
        all_ascii(name@) ==> r@ == ascii_camel_case(name@),
{
    let n = name.unicode_len();
    let ghost s = name@;
    let mut result = String::new();
    let mut start: Option<usize> = None;
    let mut i: usize = 0;
    while i < n
        invariant
            n == s.len(),
            s == name@,
            i <= n,
            start is None ==> result@ == join_capitalized(words(s.take(i as int))),
            start is None ==> (i == 0 || !is_alphanumeric_char(s[i - 1])),
            start matches Some(st) ==> {
                &&& st < i
                &&& words(s.take(i as int)).len() > 0
                &&& words(s.take(i as int)).last() == s.subrange(st as int, i as int)
                &&& result@ == join_capitalized(words(s.take(i as int)).drop_last())
                &&& is_alphanumeric_char(s[i - 1])
            },
            result@.len() == 0 <==> (forall|j: int| 0 <= j < i && !(start matches Some(st) && st <= j) ==> !is_alphanumeric_char(#[trigger] s[j])),
            all_ascii(s) ==> forall|j: int| 0 <= j < i ==> is_alphanumeric_char(#[trigger] s[j]) == is_ascii_alphanumeric(s[j]),
            all_ascii(s) && start is None ==> result@ == ascii_join_capitalized(ascii_words(s.take(i as int))),
            all_ascii(s) ==> (start matches Some(st) ==> {
                &&& ascii_words(s.take(i as int)).len() > 0
                &&& ascii_words(s.take(i as int)).last() == s.subrange(st as int, i as int)
                &&& result@ == ascii_join_capitalized(ascii_words(s.take(i as int)).drop_last())
            }),
        decreases n - i,
    {
        let c = name.get_char(i);
        let ghost p = s.take(i as int);
        let ghost q = s.take(i + 1);
        proof {
            assert(q.drop_last() =~= p);
            assert(q.last() == c);
            if i >= 1 {
                assert(q[i - 1] == s[i - 1]);
            }
        }
        let alnum = char_is_alphanumeric(c);
        proof {
            if all_ascii(s) {
                assert(s[i as int] == c);
                assert(is_ascii_char(s[i as int]));
                if i >= 1 {
                    assert(q[i - 1] == s[i - 1]);
                    assert(is_alphanumeric_char(s[i - 1]) == is_ascii_alphanumeric(s[i - 1]));
                }
            }
        }
        if alnum {
            if start.is_none() {
                start = Some(i);
                proof {
                    assert(words(q) == words(p).push(seq![c]));
                    assert(words(q).drop_last() =~= words(p));
                    assert(s.subrange(i as int, i + 1) =~= seq![c]);
                    if all_ascii(s) {
                        assert(ascii_words(q) == ascii_words(p).push(seq![c]));
                        assert(ascii_words(q).drop_last() =~= ascii_words(p));
                    }
                }
            } else {
                proof {
                    let st = start->0;
                    let wp = words(p);
                    assert(words(q) == wp.update(wp.len() - 1, wp.last().push(c)));
                    assert(words(q).drop_last() =~= wp.drop_last());
                    assert(s.subrange(st as int, i + 1) =~= s.subrange(st as int, i as int).push(c));
                    if all_ascii(s) {
                        let ap = ascii_words(p);
                        assert(ascii_words(q) == ap.update(ap.len() - 1, ap.last().push(c)));
                        assert(ascii_words(q).drop_last() =~= ap.drop_last());
                    }
                }
            }
        } else {
            proof {
                assert(words(q) == words(p));
                if all_ascii(s) {
                    assert(ascii_words(q) == ascii_words(p));
                }
            }
            if let Some(st) = start {
                proof {
                    lemma_words_shape(p);
                }
                append_capitalized(&mut result, name, st, i);
                start = None;
                proof {
                    let wp = words(p);
                    assert(wp.drop_last().push(wp.last()) =~= wp);
                    if all_ascii(s) {
                        let ap = ascii_words(p);
                        assert(ap.drop_last().push(ap.last()) =~= ap);
                        let w = s.subrange(st as int, i as int);
                        assert forall|k: int| 0 <= k < w.len() implies is_ascii_char(#[trigger] w[k]) by {
                            assert(w[k] == s[st + k]);
                        }
                    }
                }
            }
        }
        i += 1;
    }
    proof {
        assert(s.take(n as int) =~= s);
    }
    if let Some(st) = start {
        append_capitalized(&mut result, name, st, n);
        proof {
            let w = words(s);
            assert(w.drop_last().push(w.last()) =~= w);
            if all_ascii(s) {
                let aw = ascii_words(s);
                assert(aw.drop_last().push(aw.last()) =~= aw);
                let x = s.subrange(st as int, n as int);
                assert forall|k: int| 0 <= k < x.len() implies is_ascii_char(#[trigger] x[k]) by {
                    assert(x[k] == s[st + k]);
                }
            }
        }
    }
    proof {
        lemma_words_shape(s);
    }
    result
}

/// The derives of a struct or enum that stands for an entry of the reference.
pub open spec fn plain_derives() -> Seq<char> {
    "serde::Deserialise, PartialEq, Debug, Clone"@
}

/// The derives of a type that stands for a number or an enumeration item.
pub open spec fn copy_derives() -> Seq<char> {
    "serde::Deserialise, PartialEq, Eq, Debug, Clone, Copy"@
}

/// The field of a struct that stands for the item `item` under the key `key`.
pub open spec fn field_of(key: Seq<char>, item: ParsedItem) -> FieldModel {
    FieldModel { name: key, ty: camel_case(key), doc: item.doc_text(), annotations: Seq::empty(), vis: Some("pub"@) }
}

/// The fields of a struct that stands for the named items `items`.
pub open spec fn fields_of(items: Seq<(String, ParsedItem)>) -> FieldsModel {
    if items.len() == 0 {
        FieldsModel::Empty
    } else {
        FieldsModel::Named(items.map_values(|e: (String, ParsedItem)| field_of(e.0@, e.1)))
    }
}

/// The public type head named `name` with the derives `derives` and, if any, the
/// documentation `doc`.
pub open spec fn head(name: Seq<char>, doc: Option<Seq<char>>, derives: Seq<char>) -> TypeDefModel {
    TypeDefModel { name, vis: Some("pub"@), doc, derives: seq![derives], plain: true }
}

/// The struct that stands for the whole specification, with a field for each entry of `$root`.
pub open spec fn specification_struct(root: Seq<(String, ParsedItem)>) -> ItemModel {
    ItemModel::Struct(
        StructModel {
            def: head("MaplibreStyleSpecification"@, Some("This is a Maplibre Style Specification"@), plain_derives()),
            fields: fields_of(root),
        },
    )
}

/// The `impl Default` for `name` whose `default` has the single line `line`.
pub open spec fn default_impl(name: Seq<char>, line: Seq<char>) -> ItemModel {
    ItemModel::Impl(
        ImplModel {
            target: name,
            trait_name: Some("Default"@),
            functions: seq![FunctionModel { name: "default"@, lines: seq![line], plain: true }],
            plain: true,
        },
    )
}

/// Whether every value is a string.
pub open spec fn all_string_values(vs: Seq<JsonValue>) -> bool {
    forall|i: int| 0 <= i < vs.len() ==> (#[trigger] vs[i]).model() is Str
}

/// Whether there are at most 255 values and each is a whole number up to 255.
pub open spec fn all_small_numbers(vs: Seq<JsonValue>) -> bool {
    &&& vs.len() <= 255
    &&& forall|i: int| 0 <= i < vs.len() ==> ((#[trigger] vs[i]).model() matches Json::Number(t) && version_number(t) is Some)
}

/// The variant of an enumeration item that stands for the string value `v`.
pub open spec fn simple_variant(v: Seq<char>) -> VariantModel {
    VariantModel {
        name: camel_case(v),
        doc: Seq::empty(),
        annotations: seq!["serde(rename=\""@ + v + "\")"@],
        fields: FieldsModel::Empty,
        plain: true,
    }
}

/// The variant of an enumeration item that stands for the value named `key` and described by `doc`.
pub open spec fn complex_variant(key: Seq<char>, doc: Seq<char>) -> VariantModel {
    VariantModel {
        name: camel_case(key),
        doc: Seq::empty(),
        annotations: seq!["#[serde(rename=\""@ + key + "\")]"@, "/// "@ + doc],
        fields: FieldsModel::Empty,
        plain: true,
    }
}

/// The variant of a choice that stands for the name `key`.
pub open spec fn choice_variant(key: Seq<char>) -> VariantModel {
    VariantModel {
        name: camel_case(key),
        doc: Seq::empty(),
        annotations: seq!["#[serde(rename=\""@ + key + "\")]"@],
        fields: FieldsModel::Tuple(seq![camel_case(key)]),
        plain: true,
    }
}

/// The type that stands for an enumeration item named `name` with the description `doc`.
pub open spec fn enumeration_item(name: Seq<char>, doc: Seq<char>, values: EnumValues) -> ItemModel {
    match values {
        EnumValues::Simple(vs) => if all_string_values(vs@) {
            ItemModel::Enum(
                EnumModel {
                    def: head(name, Some(doc), copy_derives()),
                    variants: vs@.map_values(|v: JsonValue| simple_variant(v.model()->Str_0)),
                },
            )
        } else {
            ItemModel::Struct(
                StructModel { def: head(name, Some(doc), copy_derives()), fields: FieldsModel::Tuple(seq!["u8"@]) },
            )
        },
        EnumValues::Complex(es) => ItemModel::Enum(
            EnumModel {
                def: head(name, Some(doc), copy_derives()),
                variants: es@.map_values(|e: (String, crate::spec::decoder::EnumValue)| complex_variant(e.0@, e.1.doc_text())),
            },
        ),
    }
}

/// Whether code can be written for the item: a number, or an enumeration whose plain values
/// are all strings or all small whole numbers.
pub open spec fn item_generable(item: ParsedItem) -> bool {
    match item {
        ParsedItem::Number { .. } => true,
        ParsedItem::Enum { values, .. } => match values {
            EnumValues::Simple(vs) => all_string_values(vs@) || all_small_numbers(vs@),
            EnumValues::Complex(_) => true,
        },
        _ => false,
    }
}

/// The items written for the reference item `item` under the type name `name`: its type, and
/// an `impl Default` where it has a default.
pub open spec fn parsed_item_models(item: ParsedItem, name: Seq<char>) -> Seq<ItemModel> {
    match item {
        ParsedItem::Number { doc, default, .. } => seq![
            ItemModel::Struct(
                StructModel {
                    def: head(name, Some(doc@), plain_derives()),
                    fields: FieldsModel::Tuple(seq!["serde_json::Number"@]),
                },
            ),
        ] + match default {
            Some(d) => seq![default_impl(name, d@)],
            None => Seq::empty(),
        },
        ParsedItem::Enum { doc, default, values, .. } => seq![enumeration_item(name, doc@, values)]
            + match default {
            Some(d) => seq![default_impl(name, json_text(d.model()))],
            None => Seq::empty(),
        },
        _ => Seq::empty(),
    }
}

/// The items written for the named items `items` of a group, one after the other.
pub open spec fn group_item_models(items: Seq<(String, ParsedItem)>) -> Seq<ItemModel>
    decreases items.len(),
{
    if items.len() == 0 {
        Seq::empty()
    } else {
        group_item_models(items.drop_last()) + parsed_item_models(items.last().1, camel_case(items.last().0@))
    }
}

/// The items written for the entry `item` of the reference under the type name `name`.
pub open spec fn top_level_models(item: TopLevelItem, name: Seq<char>) -> Seq<ItemModel> {
    match item {
        TopLevelItem::Item(i) => parsed_item_models(i, name),
        TopLevelItem::Group(g) => seq![
            ItemModel::Struct(StructModel { def: head(name, None, plain_derives()), fields: fields_of(g@) }),
        ] + group_item_models(g@),
        TopLevelItem::OneOf(keys) => seq![
            ItemModel::Enum(
                EnumModel {
                    def: head(name, None, plain_derives()),
                    variants: keys@.map_values(|k: String| choice_variant(k@)),
                },
            ),
        ],
    }
}

/// Whether code can be written for every item of the entry.
pub open spec fn top_level_generable(item: TopLevelItem) -> bool {
    match item {
        TopLevelItem::Item(i) => item_generable(i),
        TopLevelItem::Group(g) => forall|j: int| 0 <= j < g@.len() ==> item_generable(#[trigger] g@[j].1),
        TopLevelItem::OneOf(_) => true,
    }
}

/// A top-level entry that is a single item is written exactly as that item is: from any scope
/// `start`, both add the same items, so the scope afterwards and its printed text are the same;
/// and the entry can be written exactly when the item can (where it cannot, neither is called).
pub proof fn lemma_single_top_level_item(p: ParsedItem, name: Seq<char>, start: ScopeModel)
    ensures
        start.items + top_level_models(TopLevelItem::Item(p), name) == start.items + parsed_item_models(p, name),
        scope_text(start.items + top_level_models(TopLevelItem::Item(p), name)) == scope_text(
            start.items + parsed_item_models(p, name),
        ),
        top_level_generable(TopLevelItem::Item(p)) == item_generable(p),
{
}

/// The items written for the entries `fields` of the reference, one after the other.
pub open spec fn fields_models(fields: Seq<(String, TopLevelItem)>) -> Seq<ItemModel>
    decreases fields.len(),
{
    if fields.len() == 0 {
        Seq::empty()
    } else {
        fields_models(fields.drop_last()) + top_level_models(fields.last().1, camel_case(fields.last().0@))
    }
}

/// The items written for a reference: the specification struct, then those of each entry.
pub open spec fn reference_models(r: StyleReference) -> Seq<ItemModel> {
    seq![specification_struct(r.root@)] + fields_models(r.fields@)
}

/// Whether code can be written for the reference: it is of version 8 and every entry can be written.
pub open spec fn reference_generable(r: StyleReference) -> bool {
    &&& r.version == 8
    &&& forall|i: int| 0 <= i < r.fields@.len() ==> top_level_generable(#[trigger] r.fields@[i].1)
}

/// Whether there are at most 255 values and each is a whole number up to 255.
fn all_small(vs: &Vec<JsonValue>) -> (r: bool)
    ensures
        r == all_small_numbers(vs@),
{
    if vs.len() > 255 {
        return false;
    }
    let mut i: usize = 0;
    while i < vs.len()
        invariant
            i <= vs.len(),
            vs.len() <= 255,
            forall|j: int| 0 <= j < i ==> ((#[trigger] vs@[j]).model() matches Json::Number(t) && version_number(t) is Some),
        decreases vs.len() - i,
    {
        match &vs[i] {
            JsonValue::Number(n) => {
                if parse_version(n.as_text()).is_none() {
                    return false;
                }
            },
            _ => {
                return false;
            },
        }
        i += 1;
    }
    true
}

/// Whether code can be written for the item: a number, or an enumeration whose plain values
/// are all strings or all whole numbers up to 255 (at most 255 of them), or whose values are
/// described.
pub fn is_item_generable(item: &ParsedItem) -> (r: bool)
    ensures
        r == item_generable(*item),
{
    match item {
        ParsedItem::Number { .. } => true,
        ParsedItem::Enum { values, .. } => match values {
            EnumValues::Simple(vs) => all_strings(vs) || all_small(vs),
            EnumValues::Complex(_) => true,
        },
        _ => false,
    }
}

/// Whether code can be written for every item of the entry.
pub fn is_top_level_generable(item: &TopLevelItem) -> (r: bool)
    ensures
        r == top_level_generable(*item),
{
    match item {
        TopLevelItem::Item(i) => is_item_generable(i),
        TopLevelItem::Group(g) => {
            let mut j: usize = 0;
            while j < g.len()
                invariant
                    j <= g.len(),
                    *item == TopLevelItem::Group(*g),
                    forall|k: int| 0 <= k < j ==> item_generable(#[trigger] g@[k].1),
                decreases g.len() - j,
            {
                if !is_item_generable(&g[j].1) {
                    let ghost gs: Seq<(String, ParsedItem)> = item->Group_0@;
                    assert(gs == g@);
                    assert(!item_generable(gs[j as int].1));
                    return false;
                }
                j += 1;
            }
            true
        },
        TopLevelItem::OneOf(_) => true,
    }
}

/// Whether code can be written for the reference: it is of version 8 and every entry can be
/// written.
pub fn is_reference_generable(reference: &StyleReference) -> (r: bool)
    ensures
        r == reference_generable(*reference),
{
    if reference.version != 8 {
        return false;
    }
    let mut i: usize = 0;
    while i < reference.fields.len()
        invariant
            i <= reference.fields.len(),
            reference.version == 8,
            forall|k: int| 0 <= k < i ==> top_level_generable(#[trigger] reference.fields@[k].1),
        decreases reference.fields.len() - i,
    {
        if !is_top_level_generable(&reference.fields[i].1) {
            assert(!top_level_generable(reference.fields@[i as int].1));
            return false;
        }
        i += 1;
    }
    true
}

/// Writes the code for the reference if code can be written for it (see
/// `is_reference_generable`), and refuses it otherwise.
pub fn try_generate_spec_scope(reference: StyleReference) -> (r: Option<String>)
    ensures
        r is Some <==> reference_generable(reference),
        r matches Some(t) ==> t@ == scope_text(reference_models(reference)),
{
    if is_reference_generable(&reference) {
        Some(generate_spec_scope(reference))
    } else {
        None
    }
}

/// Writes the code for the reference.
pub fn generate_spec_scope(reference: StyleReference) -> (r: String)
    requires
        reference_generable(reference),
    ensures
        r@ == scope_text(reference_models(reference)),
{
    let mut scope = new_scope();
    generate_spec(&mut scope, &reference.root);
    let ghost fs = reference.fields@;
    let mut i: usize = 0;
    proof {
        assert(fs.take(0) =~= Seq::<(String, TopLevelItem)>::empty());
        assert(scope_model(scope).items =~= seq![specification_struct(reference.root@)] + fields_models(fs.take(0)));
    }
    while i < reference.fields.len()
        invariant
            fs == reference.fields@,
            i <= fs.len(),
            reference_generable(reference),
            scope_model(scope).plain,
            items_plain(scope_model(scope).items),
            scope_model(scope).items == seq![specification_struct(reference.root@)] + fields_models(fs.take(i as int)),
        decreases fs.len() - i,
    {
        let key = &reference.fields[i].0;
        let item = &reference.fields[i].1;
        proof {
            assert(top_level_generable(fs[i as int].1));
            assert(fs.take(i + 1).drop_last() =~= fs.take(i as int));
            assert(fs.take(i + 1).last() == fs[i as int]);
        }
        let name = to_upper_camel_case(key.as_str());
        generate_top_level_item(&mut scope, item, name);
        i += 1;
    }
    proof {
        assert(fs.take(fs.len() as int) =~= fs);
    }
    scope_to_string(&scope)
}

/// Adds the struct that stands for the whole specification.
fn generate_spec(scope: &mut codegen::Scope, root: &Vec<(String, ParsedItem)>)
    requires
        scope_model(*old(scope)).plain,
        items_plain(scope_model(*old(scope)).items),
    ensures
        scope_model(*final(scope)).plain,
        items_plain(scope_model(*final(scope)).items),
        scope_model(*final(scope)).items == scope_model(*old(scope)).items.push(specification_struct(root@)),
{
    let mut spec = new_struct("MaplibreStyleSpecification");
    struct_doc(&mut spec, "This is a Maplibre Style Specification");
    struct_vis(&mut spec, "pub");
    struct_derive(&mut spec, "serde::Deserialise, PartialEq, Debug, Clone");
    add_item_fields(&mut spec, root);
    proof {
        assert(new_type_def("MaplibreStyleSpecification"@).with_doc("This is a Maplibre Style Specification"@).with_vis(
            "pub"@,
        ).with_derive(plain_derives()) == head(
            "MaplibreStyleSpecification"@,
            Some("This is a Maplibre Style Specification"@),
            plain_derives(),
        ));
    }
    let ghost before = scope_model(*scope).items;
    scope_push_struct(scope, spec);
    proof {
        assert forall|i: int| 0 <= i < scope_model(*scope).items.len() implies item_plain(
            #[trigger] scope_model(*scope).items[i],
        ) by {
            if i < before.len() {
                assert(scope_model(*scope).items[i] == before[i]);
            }
        }
    }
}

/// Adds to the struct `s`, which has no fields, a public field for each named item, named by
/// its key, typed by the UpperCamelCase form of the key and documented by the item's description.
fn add_item_fields(s: &mut codegen::Struct, items: &Vec<(String, ParsedItem)>)
    requires
        struct_model(*old(s)).fields is Empty,
    ensures
        struct_model(*final(s)) == (StructModel { fields: fields_of(items@), ..struct_model(*old(s)) }),
{
    let ghost s0 = struct_model(*s);
    let mut i: usize = 0;
    while i < items.len()
        invariant
            i <= items.len(),
            struct_model(*s) == (StructModel { fields: fields_of(items@.take(i as int)), ..s0 }),
        decreases items.len() - i,
    {
        let key = items[i].0.as_str();
        let ty = to_upper_camel_case(key);
        let mut f = new_field(key, ty.as_str());
        field_vis(&mut f, "pub");
        let doc = items[i].1.doc();
        field_doc(&mut f, doc.as_str());
        proof {
            assert(items@.take(i + 1).drop_last() =~= items@.take(i as int));
            assert(field_model(f) == field_of(items@[i as int].0@, items@[i as int].1));
            if i > 0 {
                assert(items@.take(i + 1).map_values(|e: (String, ParsedItem)| field_of(e.0@, e.1)) =~= items@.take(
                    i as int,
                ).map_values(|e: (String, ParsedItem)| field_of(e.0@, e.1)).push(field_of(items@[i as int].0@, items@[i as int].1)));
            } else {
                assert(items@.take(1).map_values(|e: (String, ParsedItem)| field_of(e.0@, e.1)) =~= seq![
                    field_of(items@[0].0@, items@[0].1),
                ]);
            }
        }
        struct_push_field(s, f);
        i += 1;
    }
    proof {
        assert(items@.take(items@.len() as int) =~= items@);
    }
}

/// Adds the `impl Default` for `name` whose `default` is the single line `line`.
fn push_default_impl(scope: &mut codegen::Scope, name: &str, line: &str)
    ensures
        scope_model(*final(scope)) == (ScopeModel {
            items: scope_model(*old(scope)).items.push(default_impl(name@, line@)),
            ..scope_model(*old(scope))
        }),
{
    let mut imp = new_impl(name);
    impl_trait(&mut imp, "Default");
    let mut f = new_function("default");
    function_line(&mut f, line);
    impl_push_fn(&mut imp, f);
    proof {
        assert(impl_model(imp).functions =~= seq![FunctionModel { name: "default"@, lines: seq![line@], plain: true }]);
    }
    scope_push_impl(scope, imp);
}

proof fn lemma_plain_push(items: Seq<ItemModel>, x: ItemModel)
    requires
        items_plain(items),
        item_plain(x),
    ensures
        items_plain(items.push(x)),
{
    assert forall|i: int| 0 <= i < items.push(x).len() implies item_plain(#[trigger] items.push(x)[i]) by {
        if i < items.len() {
            assert(items.push(x)[i] == items[i]);
        }
    }
}

/// `prefix`, `middle` and `suffix`, one after the other.
fn wrap_text(prefix: &str, middle: &str, suffix: &str) -> (r: String)
    ensures
        r@ == prefix@ + middle@ + suffix@,
{
    let mut t = prefix.to_string();
    t.append(middle);
    t.append(suffix);
    t
}

/// Whether every value is a string.
fn all_strings(vs: &Vec<JsonValue>) -> (r: bool)
    ensures
        r == all_string_values(vs@),
{
    let mut i: usize = 0;
    while i < vs.len()
        invariant
            i <= vs.len(),
            forall|j: int| 0 <= j < i ==> (#[trigger] vs@[j]).model() is Str,
        decreases vs.len() - i,
    {
        match &vs[i] {
            JsonValue::String(_) => {},
            _ => {
                return false;
            },
        }
        i += 1;
    }
    true
}

/// Adds the items for the entry `item` of the reference under the type name `name`: for one
/// item, its items; for a group, a struct with a field for each of its items, then their items;
/// for a choice among names, an enum with a variant for each.
fn generate_top_level_item(scope: &mut codegen::Scope, item: &TopLevelItem, name: String)
    requires
        top_level_generable(*item),
        scope_model(*old(scope)).plain,
        items_plain(scope_model(*old(scope)).items),
    ensures
        scope_model(*final(scope)).plain,
        items_plain(scope_model(*final(scope)).items),
        scope_model(*final(scope)).items == scope_model(*old(scope)).items + top_level_models(*item, name@),
{
    let ghost start = scope_model(*scope).items;
    match item {
        TopLevelItem::Item(i) => {
            generate_parsed_item(scope, i, name);
        },
        TopLevelItem::Group(items) => {
            let mut group = new_struct(name.as_str());
            struct_vis(&mut group, "pub");
            struct_derive(&mut group, "serde::Deserialise, PartialEq, Debug, Clone");
            add_item_fields(&mut group, items);
            let ghost g = ItemModel::Struct(StructModel { def: head(name@, None, plain_derives()), fields: fields_of(items@) });
            proof {
                assert(new_type_def(name@).with_vis("pub"@).with_derive(plain_derives()) == head(name@, None, plain_derives()));
                lemma_plain_push(start, g);
            }
            scope_push_struct(scope, group);
            let mut j: usize = 0;
            proof {
                assert(forall|k: int| 0 <= k < items@.len() ==> item_generable(#[trigger] items@[k].1));
                assert(items@.take(0) =~= Seq::<(String, ParsedItem)>::empty());
                assert(scope_model(*scope).items =~= start.push(g) + group_item_models(items@.take(0)));
            }
            while j < items.len()
                invariant
                    j <= items.len(),
                    forall|k: int| 0 <= k < items@.len() ==> item_generable(#[trigger] items@[k].1),
                    scope_model(*scope).plain,
                    items_plain(scope_model(*scope).items),
                    scope_model(*scope).items == start.push(g) + group_item_models(items@.take(j as int)),
                decreases items.len() - j,
            {
                proof {
                    assert(item_generable(items@[j as int].1));
                    assert(items@.take(j + 1).drop_last() =~= items@.take(j as int));
                    assert(items@.take(j + 1).last() == items@[j as int]);
                }
                let key = items[j].0.as_str();
                let ty = to_upper_camel_case(key);
                generate_parsed_item(scope, &items[j].1, ty);
                j += 1;
            }
            proof {
                assert(items@.take(items@.len() as int) =~= items@);
                assert(start.push(g) + group_item_models(items@) =~= start + top_level_models(*item, name@));
            }
        },
        TopLevelItem::OneOf(keys) => {
            let mut e = new_enum(name.as_str());
            enum_vis(&mut e, "pub");
            enum_derive(&mut e, "serde::Deserialise, PartialEq, Debug, Clone");
            let mut j: usize = 0;
            proof {
                assert(new_type_def(name@).with_vis("pub"@).with_derive(plain_derives()) == head(name@, None, plain_derives()));
                assert(keys@.take(0).map_values(|k: String| choice_variant(k@)) =~= Seq::<VariantModel>::empty());
            }
            while j < keys.len()
                invariant
                    j <= keys.len(),
                    enum_model(e) == (EnumModel {
                        def: head(name@, None, plain_derives()),
                        variants: keys@.take(j as int).map_values(|k: String| choice_variant(k@)),
                    }),
                decreases keys.len() - j,
            {
                let key = keys[j].as_str();
                let ty = to_upper_camel_case(key);
                let mut v = new_variant(ty.as_str());
                let annotation = wrap_text("#[serde(rename=\"", key, "\")]");
                variant_annotation(&mut v, annotation.as_str());
                variant_tuple(&mut v, ty.as_str());
                proof {
                    assert(variant_model(v) == choice_variant(keys@[j as int]@));
                    assert(keys@.take(j + 1).map_values(|k: String| choice_variant(k@)) =~= keys@.take(j as int).map_values(
                        |k: String| choice_variant(k@),
                    ).push(choice_variant(keys@[j as int]@)));
                }
                enum_push_variant(&mut e, v);
                j += 1;
            }
            proof {
                assert(keys@.take(keys@.len() as int) =~= keys@);
                let x = ItemModel::Enum(enum_model(e));
                assert forall|k: int| 0 <= k < enum_model(e).variants.len() implies (#[trigger] enum_model(e).variants[k]).plain by {
                }
                lemma_plain_push(start, x);
            }
            scope_push_enum(scope, e);
            proof {
                assert(scope_model(*scope).items =~= start + top_level_models(*item, name@));
            }
        },
    }
}

/// Adds the items for the reference item `item` under the type name `name`: for a number, a
/// struct that holds a `serde_json::Number`; for an enumeration, an enum with a variant for
/// each value, or a struct that holds a `u8` where the values are numbers; then, where the
/// item has a default, an `impl Default` that returns it.
fn generate_parsed_item(scope: &mut codegen::Scope, item: &ParsedItem, name: String)
    requires
        item_generable(*item),
        scope_model(*old(scope)).plain,
        items_plain(scope_model(*old(scope)).items),
    ensures
        scope_model(*final(scope)).plain,
        items_plain(scope_model(*final(scope)).items),
        scope_model(*final(scope)).items == scope_model(*old(scope)).items + parsed_item_models(*item, name@),
{
    let ghost start = scope_model(*scope).items;
    match item {
        ParsedItem::Number { doc, default, .. } => {
            let mut s = new_struct(name.as_str());
            struct_doc(&mut s, doc.as_str());
            struct_vis(&mut s, "pub");
            struct_derive(&mut s, "serde::Deserialise, PartialEq, Debug, Clone");
            struct_tuple_field(&mut s, "serde_json::Number");
            proof {
                assert(new_type_def(name@).with_doc(doc@).with_vis("pub"@).with_derive(plain_derives()) == head(
                    name@,
                    Some(doc@),
                    plain_derives(),
                ));
                lemma_plain_push(start, ItemModel::Struct(struct_model(s)));
            }
            scope_push_struct(scope, s);
            let ghost mid = scope_model(*scope).items;
            match default {
                Some(d) => {
                    proof {
                        lemma_plain_push(mid, default_impl(name@, d@));
                    }
                    push_default_impl(scope, name.as_str(), d.as_text());
                },
                None => {},
            }
            proof {
                assert(scope_model(*scope).items =~= start + parsed_item_models(*item, name@));
            }
        },
        ParsedItem::Enum { doc, default, values, .. } => {
            let ghost x = enumeration_item(name@, doc@, *values);
            match values {
                EnumValues::Simple(vs) => {
                    if all_strings(vs) {
                        let mut e = new_enum(name.as_str());
                        enum_doc(&mut e, doc.as_str());
                        enum_vis(&mut e, "pub");
                        enum_derive(&mut e, "serde::Deserialise, PartialEq, Eq, Debug, Clone, Copy");
                        let mut j: usize = 0;
                        proof {
                            assert(new_type_def(name@).with_doc(doc@).with_vis("pub"@).with_derive(copy_derives()) == head(
                                name@,
                                Some(doc@),
                                copy_derives(),
                            ));
                            assert(vs@.take(0).map_values(|v: JsonValue| simple_variant(v.model()->Str_0)) =~= Seq::<
                                VariantModel,
                            >::empty());
                        }
                        while j < vs.len()
                            invariant
                                j <= vs.len(),
                                all_string_values(vs@),
                                enum_model(e) == (EnumModel {
                                    def: head(name@, Some(doc@), copy_derives()),
                                    variants: vs@.take(j as int).map_values(|v: JsonValue| simple_variant(v.model()->Str_0)),
                                }),
                            decreases vs.len() - j,
                        {
                            proof {
                                assert(vs@[j as int].model() is Str);
                            }
                            let value = match &vs[j] {
                                JsonValue::String(t) => t.as_str(),
                                _ => "",
                            };
                            let ty = to_upper_camel_case(value);
                            let mut v = new_variant(ty.as_str());
                            let annotation = wrap_text("serde(rename=\"", value, "\")");
                            variant_annotation(&mut v, annotation.as_str());
                            proof {
                                assert(value@ == vs@[j as int].model()->Str_0);
                                assert(variant_model(v) == simple_variant(vs@[j as int].model()->Str_0));
                                assert(vs@.take(j + 1).map_values(|v: JsonValue| simple_variant(v.model()->Str_0)) =~= vs@.take(
                                    j as int,
                                ).map_values(|v: JsonValue| simple_variant(v.model()->Str_0)).push(
                                    simple_variant(vs@[j as int].model()->Str_0),
                                ));
                            }
                            enum_push_variant(&mut e, v);
                            j += 1;
                        }
                        proof {
                            assert(vs@.take(vs@.len() as int) =~= vs@);
                            assert(ItemModel::Enum(enum_model(e)) == x);
                            assert forall|k: int| 0 <= k < enum_model(e).variants.len() implies (#[trigger] enum_model(
                                e,
                            ).variants[k]).plain by {}
                            lemma_plain_push(start, x);
                        }
                        scope_push_enum(scope, e);
                    } else {
                        let mut s = new_struct(name.as_str());
                        struct_doc(&mut s, doc.as_str());
                        struct_vis(&mut s, "pub");
                        struct_derive(&mut s, "serde::Deserialise, PartialEq, Eq, Debug, Clone, Copy");
                        struct_tuple_field(&mut s, "u8");
                        proof {
                            assert(new_type_def(name@).with_doc(doc@).with_vis("pub"@).with_derive(copy_derives()) == head(
                                name@,
                                Some(doc@),
                                copy_derives(),
                            ));
                            assert(ItemModel::Struct(struct_model(s)) == x);
                            lemma_plain_push(start, x);
                        }
                        scope_push_struct(scope, s);
                    }
                },
                EnumValues::Complex(es) => {
                    let mut e = new_enum(name.as_str());
                    enum_doc(&mut e, doc.as_str());
                    enum_vis(&mut e, "pub");
                    enum_derive(&mut e, "serde::Deserialise, PartialEq, Eq, Debug, Clone, Copy");
                    let mut j: usize = 0;
                    proof {
                        assert(new_type_def(name@).with_doc(doc@).with_vis("pub"@).with_derive(copy_derives()) == head(
                            name@,
                            Some(doc@),
                            copy_derives(),
                        ));
                        assert(es@.take(0).map_values(
                            |e: (String, crate::spec::decoder::EnumValue)| complex_variant(e.0@, e.1.doc_text()),
                        ) =~= Seq::<VariantModel>::empty());
                    }
                    while j < es.len()
                        invariant
                            j <= es.len(),
                            enum_model(e) == (EnumModel {
                                def: head(name@, Some(doc@), copy_derives()),
                                variants: es@.take(j as int).map_values(
                                    |e: (String, crate::spec::decoder::EnumValue)| complex_variant(e.0@, e.1.doc_text()),
                                ),
                            }),
                        decreases es.len() - j,
                    {
                        let key = es[j].0.as_str();
                        let ty = to_upper_camel_case(key);
                        let mut v = new_variant(ty.as_str());
                        let rename = wrap_text("#[serde(rename=\"", key, "\")]");
                        variant_annotation(&mut v, rename.as_str());
                        let described = wrap_text("/// ", es[j].1.doc(), "");
                        proof {
                            reveal_strlit("");
                        }
                        variant_annotation(&mut v, described.as_str());
                        proof {
                            assert(described@ =~= "/// "@ + es@[j as int].1.doc_text());
                            assert(variant_model(v).annotations =~= seq![rename@, described@]);
                            assert(variant_model(v) == complex_variant(es@[j as int].0@, es@[j as int].1.doc_text()));
                            assert(es@.take(j + 1).map_values(
                                |e: (String, crate::spec::decoder::EnumValue)| complex_variant(e.0@, e.1.doc_text()),
                            ) =~= es@.take(j as int).map_values(
                                |e: (String, crate::spec::decoder::EnumValue)| complex_variant(e.0@, e.1.doc_text()),
                            ).push(complex_variant(es@[j as int].0@, es@[j as int].1.doc_text())));
                        }
                        enum_push_variant(&mut e, v);
                        j += 1;
                    }
                    proof {
                        assert(es@.take(es@.len() as int) =~= es@);
                        assert(ItemModel::Enum(enum_model(e)) == x);
                        assert forall|k: int| 0 <= k < enum_model(e).variants.len() implies (#[trigger] enum_model(
                            e,
                        ).variants[k]).plain by {}
                        lemma_plain_push(start, x);
                    }
                    scope_push_enum(scope, e);
                },
            }
            let ghost mid = scope_model(*scope).items;
            match default {
                Some(d) => {
                    let text = json_to_text(d);
                    proof {
                        lemma_plain_push(mid, default_impl(name@, text@));
                    }
                    push_default_impl(scope, name.as_str(), text.as_str());
                },
                None => {},
            }
            proof {
                assert(scope_model(*scope).items =~= start + parsed_item_models(*item, name@));
            }
        },
        _ => {
            proof {
                assert(false);
            }
        },
    }
}

} // verus!
