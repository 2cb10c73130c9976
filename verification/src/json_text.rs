//! JSON text produced through `serde_json`, as its serialiser writes it.

use vstd::prelude::*;

verus! {

/// A lower-case hexadecimal digit.
pub open spec fn hex_digit(n: int) -> char {
    if n < 10 {
        (('0' as int) + n) as char
    } else {
        (('a' as int) + n - 10) as char
    }
}

/// How `serde_json` writes one character inside a string: the quote and
/// the back slash escaped, the control characters with a short escape where
/// JSON has one, the other control characters as `\u00xx`, every other
/// character as it is.
pub open spec fn json_escape(c: char) -> Seq<char> {
    let v = c as int;
    if c == '"' {
        seq!['\\', '"']
    } else if c == '\\' {
        seq!['\\', '\\']
    } else if v == 0x08 {
        seq!['\\', 'b']
    } else if v == 0x09 {
        seq!['\\', 't']
    } else if v == 0x0A {
        seq!['\\', 'n']
    } else if v == 0x0C {
        seq!['\\', 'f']
    } else if v == 0x0D {
        seq!['\\', 'r']
    } else if v < 0x20 {
        seq!['\\', 'u', '0', '0', hex_digit(v / 16), hex_digit(v % 16)]
    } else {
        seq![c]
    }
}

pub open spec fn json_escaped(text: Seq<char>) -> Seq<char>
    decreases text.len(),
{
    if text.len() == 0 {
        Seq::empty()
    } else {
        json_escaped(text.drop_last()) + json_escape(text.last())
    }
}

/// What `serde_json::to_string` makes of a string: its escaped text in
/// double quotes. Serialising a string into memory does not fail.
pub open spec fn json_string_literal(text: Seq<char>) -> Option<Seq<char>> {
    Some(seq!['"'] + json_escaped(text) + seq!['"'])
}

/// What `serde_json::to_string_pretty` makes of an object with one string
/// member: the member on its own line, indented by two spaces.
pub open spec fn json_pretty_member(key: Seq<char>, value: Seq<char>) -> Option<Seq<char>> {
    Some(
        "{\n  "@ + json_string_literal(key).unwrap() + ": "@ + json_string_literal(value).unwrap()
            + "\n}"@,
    )
}

/// `serde_json::to_string(text)`, written as `format_escaped_str` in
/// `serde_json`'s `ser.rs` writes a string; the error, which writing into
/// memory never gives, is dropped.
#[verifier::external_body]
pub(crate) fn encode_json_string(text: &str) -> (out: Option<String>)
    ensures
        match out {
            Some(s) => json_string_literal(text@) == Some(s@),
            None => json_string_literal(text@) is None,
        },
{
    serde_json::to_string(text).ok()
}

/// `serde_json::to_string_pretty` of the object `{ key: value }`, laid out
/// as `PrettyFormatter` with its two-space indent lays out an object.
#[verifier::external_body]
pub(crate) fn pretty_member_object(key: &str, value: &str) -> (out: Option<String>)
    ensures
        match out {
            Some(s) => json_pretty_member(key@, value@) == Some(s@),
            None => json_pretty_member(key@, value@) is None,
        },
{
    let mut object = serde_json::Map::new();
    object.insert(key.to_string(), serde_json::Value::String(value.to_string()));
    serde_json::to_string_pretty(&serde_json::Value::Object(object)).ok()
}

} // verus!
