//! The JSON facilities the library takes from `serde_json`.
use vstd::prelude::*;

verus! {

/// A JSON document held as `serde_json` parsed it; the library carries it through unread.
#[verifier::external_type_specification]
#[verifier::external_body]
pub struct ExJsonValue(serde_json::Value);

/// Whether the text `s` is, as a whole, one well-formed JSON object.
pub uninterp spec fn json_object_text(s: Seq<char>) -> bool;

/// A parsed JSON document, and whether its top-level value is an object.
pub struct ParsedJson {
    pub value: serde_json::Value,
    pub is_object: bool,
}

/// Relies on `serde_json::from_str` into a `Value`: the document of `s` when it parses, and
/// whether its top-level value is an object.
#[verifier::external_body]
pub(crate) fn parse_json(s: &str) -> (r: Option<ParsedJson>)
    ensures
        r matches Some(p) ==> p.is_object == json_object_text(s@),
        r is None ==> !json_object_text(s@),
{
    match serde_json::from_str::<serde_json::Value>(s) {
        Ok(v) => {
            let is_object = match &v {
                serde_json::Value::Object(_) => true,
                _ => false,
            };
            Some(ParsedJson { value: v, is_object })
        },
        Err(_) => None,
    }
}

/// Whether the text is one JSON object.
pub fn is_json_object(s: &str) -> (r: bool)
    ensures
        r == json_object_text(s@),
{
    match parse_json(s) {
        Some(p) => p.is_object,
        None => false,
    }
}

/// A lower-case hexadecimal digit.
pub open spec fn hex_digit(d: int) -> char {
    if d < 10 {
        crate::price::digit_char(d)
    } else if d == 10 {
        'a'
    } else if d == 11 {
        'b'
    } else if d == 12 {
        'c'
    } else if d == 13 {
        'd'
    } else if d == 14 {
        'e'
    } else {
        'f'
    }
}

/// How one character is written inside a JSON string: `"` and `\` and the control characters
/// below U+0020 escaped (the five with short forms as `\b \t \n \f \r`, the others as
/// `\u00XX` with lower-case hex), every other character as it is.
pub open spec fn escaped_char(c: char) -> Seq<char> {
    let n = c as u32;
    if c == '"' {
        seq!['\\', '"']
    } else if c == '\\' {
        seq!['\\', '\\']
    } else if n == 8 {
        seq!['\\', 'b']
    } else if n == 9 {
        seq!['\\', 't']
    } else if n == 10 {
        seq!['\\', 'n']
    } else if n == 12 {
        seq!['\\', 'f']
    } else if n == 13 {
        seq!['\\', 'r']
    } else if n < 32 {
        seq!['\\', 'u', '0', '0', hex_digit(n as int / 16), hex_digit(n as int % 16)]
    } else {
        seq![c]
    }
}

/// The characters of `s`, each escaped.
pub open spec fn escaped(s: Seq<char>) -> Seq<char>
    decreases s.len(),
{
    if s.len() == 0 {
        Seq::empty()
    } else {
        escaped(s.drop_last()) + escaped_char(s.last())
    }
}

/// `s` as a JSON string literal: in double quotes, with its characters escaped.
pub open spec fn json_quoted(s: Seq<char>) -> Seq<char> {
    seq!['"'] + escaped(s) + seq!['"']
}

/// Relies on `serde_json::to_string` of a `&str`: the string literal `format_escaped_str`
/// writes (its `ESCAPE` table and `write_char_escape`), into a `Vec`, which cannot fail.
#[verifier::external_body]
pub(crate) fn quote_json(s: &str) -> (r: Option<String>)
    ensures
        r is Some,
        r matches Some(t) ==> t@ == json_quoted(s@),
{
    serde_json::to_string(s).ok()
}

/// `s` as a JSON string literal.
pub fn json_string(s: &str) -> (r: String)
    ensures
        r@ == json_quoted(s@),
{
    match quote_json(s) {
        Some(t) => t,
        None => String::new(),
    }
}

} // verus!
