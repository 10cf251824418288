use vstd::prelude::*;
use crate::json::{Json, JsonDecode, JsonEncode, JsonValue, make_type_error, type_error};

verus! {

#[verifier::external_type_specification]
#[verifier::external_body]
pub struct ExDynamicColor(color::DynamicColor);

/// Whether `color::parse_color` accepts the text `s`.
pub uninterp spec fn parses_as_color(s: Seq<char>) -> bool;

/// An ASCII hexadecimal digit.
pub open spec fn is_hex_digit(c: char) -> bool {
    ('0' <= c && c <= '9') || ('a' <= c && c <= 'f') || ('A' <= c && c <= 'F')
}

/// A `#` followed by exactly six hexadecimal digits, such as `#FFFFFF`.
pub open spec fn is_hex6_color(s: Seq<char>) -> bool {
    &&& s.len() == 7
    &&& s[0] == '#'
    &&& is_hex_digit(s[1])
    &&& is_hex_digit(s[2])
    &&& is_hex_digit(s[3])
    &&& is_hex_digit(s[4])
    &&& is_hex_digit(s[5])
    &&& is_hex_digit(s[6])
}

/// The color that `color::parse_color` gives for the text `s`, where it accepts it.
pub uninterp spec fn css_color(s: Seq<char>) -> color::DynamicColor;

/// Calls `color::parse_color`, which parses CSS color syntax. It succeeds exactly when the
/// name `parses_as_color` holds of the text; the crate's source shows that a `#` followed by
/// exactly six hexadecimal digits always parses. The color it gives depends on the text alone
/// and is named `css_color` of the text; what that color is (its floating-point components)
/// is not stated.
#[verifier::external_body]
fn parse_css_color(s: &str) -> (r: Option<color::DynamicColor>)
    ensures
        r is Some <==> parses_as_color(s@),
        is_hex6_color(s@) ==> r is Some,
        r matches Some(c) ==> c == css_color(s@),
{
    color::parse_color(s).ok()
}

/// A color of a style: the CSS text it is written with, and the color that the text parses to.
#[derive(PartialEq, Debug)]
pub struct ColorValue {
    text: String,
    color: color::DynamicColor,
}

impl Clone for ColorValue {
    fn clone(&self) -> (r: Self)
        ensures
            r@ == self@,
            r.parsed() == self.parsed(),
            r.wf() == self.wf(),
    {
        ColorValue { text: self.text.clone(), color: self.color }
    }
}

impl View for ColorValue {
    type V = Seq<char>;

    closed spec fn view(&self) -> Seq<char> {
        self.text@
    }
}

impl ColorValue {
    /// Whether the text of the color parses as a color, and the color held is the one that
    /// `color::parse_color` gives for the text.
    pub closed spec fn wf(self) -> bool {
        &&& parses_as_color(self.text@)
        &&& self.color == css_color(self.text@)
    }

    /// The color that the text was parsed to.
    pub closed spec fn parsed(self) -> color::DynamicColor {
        self.color
    }

    /// The color written as `text`, if `color::parse_color` accepts it.
    pub fn parse(text: &str) -> (r: Option<ColorValue>)
        ensures
            r is Some <==> parses_as_color(text@),
            is_hex6_color(text@) ==> r is Some,
            r matches Some(c) ==> c@ == text@ && c.wf() && c.parsed() == css_color(text@),
    {
        match parse_css_color(text) {
            Some(color) => Some(ColorValue { text: text.to_string(), color }),
            None => None,
        }
    }

    /// The CSS text of the color.
    pub fn text(&self) -> (r: &str)
        ensures
            r@ == self@,
    {
        self.text.as_str()
    }

    /// The parsed color.
    pub fn color(&self) -> (r: color::DynamicColor)
        ensures
            r == self.parsed(),
    {
        self.color
    }
}

/// The color written as `text`, a `#` followed by six hexadecimal digits.
pub fn default_color(text: &str) -> (r: ColorValue)
    requires
        is_hex6_color(text@),
    ensures
        r@ == text@,
        r.wf(),
        r.parsed() == css_color(text@),
{
    let r = ColorValue::parse(text);
    r.unwrap()
}

/// A color is read from a string in CSS color syntax, and holds the color that
/// `color::parse_color` gives for it.
impl JsonDecode for ColorValue {
    open spec fn accepts(v: Json) -> bool {
        v is Str && parses_as_color(v->Str_0)
    }

    open spec fn decodes(v: Json, x: Self) -> bool {
        &&& v == Json::Str(x@)
        &&& x.wf()
        &&& x.parsed() == css_color(x@)
    }

    open spec fn rejection(v: Json) -> Seq<char> {
        if v is Str {
            "invalid color `"@ + v->Str_0 + "`"@
        } else {
            type_error(v, "a color string"@)
        }
    }

    fn decode(v: &JsonValue) -> (r: Result<Self, String>) {
        match v {
            JsonValue::String(s) => match ColorValue::parse(s.as_str()) {
                Some(c) => Ok(c),
                None => {
                    let mut m = "invalid color `".to_string();
                    m.append(s.as_str());
                    m.append("`");
                    Err(m)
                },
            },
            _ => Err(make_type_error(v, "a color string")),
        }
    }
}

impl JsonEncode for ColorValue {
    open spec fn to_json(self) -> Json {
        Json::Str(self@)
    }

    open spec fn round_trips(self) -> bool {
        self.wf()
    }

    fn encode(&self) -> (r: JsonValue) {
        JsonValue::String(self.text.clone())
    }

    proof fn lemma_round_trip(self) {
    }
}

} // verus!
