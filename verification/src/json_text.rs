//! JSON text: reading it into plain values, and writing string literals and
//! pairs of integers.
//!
//! Parsing and writing are `serde_json`'s work. What it makes of a text is
//! not stated here: that result carries a name, and the rest of the library
//! states its contracts over the name. What it writes for a string and for
//! two integers is stated in full, and believed.

use crate::decimal::{decimal_text, digit_char};
use crate::json::{Json, JsonNumber, JsonValue};
use serde_json::Value;
use vstd::prelude::*;

verus! {

/// Makes `serde_json::Value` known to the verifier, as a type that it cannot
/// look into.
#[verifier::external_type_specification]
#[verifier::external_body]
pub struct ExValue(serde_json::Value);

/// What `serde_json::from_str` makes of a text: the JSON value it reads, or
/// `None` where it reports an error.
pub uninterp spec fn json_of_text(text: Seq<char>) -> Option<Json>;

/// What a `serde_json::Value` holds.
pub uninterp spec fn json_of_value(value: Value) -> Json;

/// The lower-case hexadecimal digit of a value below 16.
pub open spec fn hex_digit(d: nat) -> char {
    if d < 10 {
        digit_char(d)
    } else if d == 10 {
        'a'
    } else if d == 11 {
        'b'
    } else if d == 12 {
        'c'
    } else if d == 13 {
        'd'
    } else if d == 14 {
        'e'
    } else {
        'f'
    }
}

/// Whether a character stands in a JSON string literal as it is: every
/// character but the double quote, the backslash and those below the space.
pub open spec fn is_plain_char(c: char) -> bool {
    c != '"' && c != '\\' && c as u32 >= 0x20
}

/// A character as it stands inside a JSON string literal. The double quote
/// and the backslash get a backslash before them; backspace, tab, line feed,
/// form feed and carriage return are written `\b`, `\t`, `\n`, `\f`, `\r`;
/// any other character below the space is written `\u00` and its two
/// hexadecimal digits; every other character stands as it is.
pub open spec fn escaped_char(c: char) -> Seq<char> {
    if c == '"' {
        seq!['\\', '"']
    } else if c == '\\' {
        seq!['\\', '\\']
    } else if c == '\u{8}' {
        seq!['\\', 'b']
    } else if c == '\t' {
        seq!['\\', 't']
    } else if c == '\n' {
        seq!['\\', 'n']
    } else if c == '\u{c}' {
        seq!['\\', 'f']
    } else if c == '\r' {
        seq!['\\', 'r']
    } else if (c as u32) < 0x20 {
        seq![
            '\\',
            'u',
            '0',
            '0',
            hex_digit((c as u32 / 16) as nat),
            hex_digit((c as u32 % 16) as nat),
        ]
    } else {
        seq![c]
    }
}

/// A text as it stands inside a JSON string literal: its characters, each
/// escaped where it must be.
pub open spec fn escaped(s: Seq<char>) -> Seq<char>
    decreases s.len(),
{
    if s.len() == 0 {
        Seq::empty()
    } else {
        escaped(s.drop_last()) + escaped_char(s.last())
    }
}

/// A text as a JSON string literal: escaped, between two double quotes.
pub open spec fn json_string_literal(s: Seq<char>) -> Seq<char> {
    seq!['"'] + escaped(s) + seq!['"']
}

/// Calls `serde_json::from_str` for a `serde_json::Value`. The parser is a
/// function of the text alone, so its outcome is the one that
/// [`json_of_text`] names; on success the text's value is what the returned
/// `Value` holds.
#[verifier::external_body]
fn read_value(text: &str) -> (r: Option<Value>)
    ensures
        match r {
            Some(value) => json_of_text(text@) == Some(json_of_value(value)),
            None => json_of_text(text@) is None,
        },
{
    serde_json::from_str::<Value>(text).ok()
}

/// Moves a `serde_json::Value` into a [`JsonValue`], variant by variant. A
/// number that `Number::as_u64` accepts becomes `Unsigned`; any other number
/// keeps the text that `Number`'s `Display` gives it.
#[verifier::external_body]
fn plain_value(value: Value) -> (r: JsonValue)
    ensures
        r@ == json_of_value(value),
{
    match value {
        Value::Null => JsonValue::Null,
        Value::Bool(b) => JsonValue::Bool(b),
        Value::Number(n) => JsonValue::Number(
            match n.as_u64() {
                Some(u) => JsonNumber::Unsigned(u),
                None => JsonNumber::Other(n.to_string()),
            },
        ),
        Value::String(s) => JsonValue::String(s),
        Value::Array(items) => JsonValue::Array(items.into_iter().map(plain_value).collect()),
        Value::Object(m) => JsonValue::Object(m.into_iter().map(|(k, v)| (k, plain_value(v))).collect()),
    }
}

/// Calls `serde_json::to_string` on a string slice. It writes a double
/// quote, the text with the escapes that [`escaped_char`] states, and a
/// double quote; writing into memory cannot fail.
#[verifier::external_body]
fn write_string_literal(s: &str) -> (r: String)
    ensures
        r@ == json_string_literal(s@),
{
    serde_json::to_string(s).unwrap_or_default()
}

/// Two unsigned integers as a JSON array without spaces: `[<first>,<second>]`.
pub open spec fn pair_text(first: u64, second: u64) -> Seq<char> {
    "["@ + decimal_text(first as nat) + ","@ + decimal_text(second as nat) + "]"@
}

/// Calls `serde_json::to_string` on an array of two unsigned integers. It
/// writes an opening bracket, the two numbers in decimal with a comma
/// between them, and a closing bracket; writing into memory cannot fail.
#[verifier::external_body]
pub(crate) fn write_pair(pair: &[u64; 2]) -> (r: String)
    ensures
        r@ == pair_text(pair[0], pair[1]),
{
    serde_json::to_string(pair).unwrap_or_default()
}

/// Parses a JSON text into a plain value.
///
/// Returns `None` exactly where `serde_json` reports an error: the text is
/// not one JSON value, or it is nested too deeply for the parser.
pub fn parse_json(text: &str) -> (r: Option<JsonValue>)
    ensures
        match r {
            Some(value) => json_of_text(text@) == Some(value@),
            None => json_of_text(text@) is None,
        },
{
    match read_value(text) {
        Some(value) => Some(plain_value(value)),
        None => None,
    }
}

/// Writes a string as a JSON string literal.
pub fn json_quote(s: &str) -> (r: String)
    ensures
        r@ == json_string_literal(s@),
{
    write_string_literal(s)
}

/// A text of plain characters only stands inside its literal as it is.
pub proof fn lemma_plain_text_is_kept(s: Seq<char>)
    requires
        forall|i: int| 0 <= i < s.len() ==> is_plain_char(#[trigger] s[i]),
    ensures
        escaped(s) == s,
        json_string_literal(s) == seq!['"'] + s + seq!['"'],
    decreases s.len(),
{
    if s.len() > 0 {
        lemma_plain_text_is_kept(s.drop_last());
        assert(escaped_char(s.last()) == seq![s.last()]);
        assert(s.drop_last() + seq![s.last()] =~= s);
    }
}

} // verus!
