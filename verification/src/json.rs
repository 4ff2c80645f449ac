//! JSON text handling through `serde_json`.
//!
//! Message payloads travel through the library as JSON text; these items
//! name what `serde_json` makes of such text.

use vstd::prelude::*;

verus! {

/// The string that `serde_json::from_str::<String>` reads from `text`, or
/// `None` where it fails (the text is not one JSON string literal, allowing
/// surrounding whitespace).
pub uninterp spec fn json_string_value(text: Seq<char>) -> Option<Seq<char>>;

/// A lower-case hexadecimal digit.
pub open spec fn hex_digit(d: nat) -> char {
    if d < 10 {
        (('0' as u8) + d) as char
    } else {
        (('a' as u8) + (d - 10)) as char
    }
}

/// How serde_json writes one character inside a string literal: `"` and `\`
/// behind a backslash, the five control characters with short escapes as
/// such, other characters below U+0020 as `\u00` and two lower-case hex
/// digits, and every other character as itself.
pub open spec fn json_escape(c: char) -> Seq<char> {
    if c == '"' {
        seq!['\\', '"']
    } else if c == '\\' {
        seq!['\\', '\\']
    } else if c == '\u{8}' {
        seq!['\\', 'b']
    } else if c == '\t' {
        seq!['\\', 't']
    } else if c == '\n' {
        seq!['\\', 'n']
    } else if c == '\u{c}' {
        seq!['\\', 'f']
    } else if c == '\r' {
        seq!['\\', 'r']
    } else if (c as u32) < 0x20 {
        seq!['\\', 'u', '0', '0', hex_digit((c as u32 / 16) as nat), hex_digit((c as u32 % 16) as nat)]
    } else {
        seq![c]
    }
}

/// The characters of a string as serde_json escapes them.
pub open spec fn json_escaped(s: Seq<char>) -> Seq<char>
    decreases s.len(),
{
    if s.len() == 0 {
        Seq::empty()
    } else {
        json_escaped(s.drop_last()) + json_escape(s.last())
    }
}

/// The JSON string literal that `serde_json::to_string` writes for `s`: the
/// escaped characters between double quotes.
pub open spec fn json_string_literal(s: Seq<char>) -> Seq<char> {
    seq!['"'] + json_escaped(s) + seq!['"']
}

/// Calls `serde_json::from_str::<String>`. Claims only that the outcome is
/// the named value `json_string_value` of the text, which depends on the
/// text alone.
#[verifier::external_body]
pub fn parse_json_string(text: &str) -> (r: Option<String>)
    ensures
        match r {
            Some(s) => json_string_value(text@) == Some(s@),
            None => json_string_value(text@) is None,
        },
{
    serde_json::from_str::<String>(text).ok()
}

/// Calls `serde_json::to_string` on a string. The result is the named value
/// `json_string_literal`; it is always `Some`, since serialising a `String`
/// into serde_json's in-memory writer has no failing path (its documented
/// failures are a failing `Serialize` impl or a map with non-string keys).
#[verifier::external_body]
pub fn to_json_string(s: &String) -> (r: Option<String>)
    ensures
        r is Some,
        r.unwrap()@ == json_string_literal(s@),
{
    serde_json::to_string(s).ok()
}

} // verus!
