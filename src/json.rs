//! The calls into serde_json that frame building and pose decoding rely on,
//! and the escaping rule serde_json applies to strings.
use vstd::prelude::*;

verus! {

/// Lowercase hexadecimal digit `d`.
pub open spec fn hex_digit(d: nat) -> char {
    seq!['0', '1', '2', '3', '4', '5', '6', '7', '8', '9', 'a', 'b', 'c', 'd', 'e', 'f'][d as int]
}

/// How one character is written inside a JSON string literal: the quote
/// and the backslash escaped, the five control characters with a short
/// escape written so, the other control characters below U+0020 as
/// `\u00XX`, and everything else as it is.
pub open spec fn escape_char(c: char) -> Seq<char> {
    if c == '"' {
        seq!['\\', '"']
    } else if c == '\\' {
        seq!['\\', '\\']
    } else if c == '\u{8}' {
        seq!['\\', 'b']
    } else if c == '\t' {
        seq!['\\', 't']
    } else if c == '\n' {
        seq!['\\', 'n']
    } else if c == '\u{c}' {
        seq!['\\', 'f']
    } else if c == '\r' {
        seq!['\\', 'r']
    } else if (c as u32) < 0x20 {
        seq!['\\', 'u', '0', '0', hex_digit((c as u32 / 16) as nat), hex_digit((c as u32 % 16) as nat)]
    } else {
        seq![c]
    }
}

/// The characters of `s`, each escaped.
pub open spec fn json_escaped(s: Seq<char>) -> Seq<char>
    decreases s.len(),
{
    if s.len() == 0 {
        Seq::empty()
    } else {
        json_escaped(s.drop_last()) + escape_char(s.last())
    }
}

/// The JSON string literal for the text `s`.
pub open spec fn json_quoted(s: Seq<char>) -> Seq<char> {
    seq!['"'] + json_escaped(s) + seq!['"']
}

/// Whether serde_json reads `s` as one JSON document.
pub uninterp spec fn json_parses(s: Seq<char>) -> bool;

/// The member `key` of the JSON document `s`, when `s` parses to an object
/// that has that member and it is a non-negative integer that fits a `u64`.
pub uninterp spec fn json_u64_member(s: Seq<char>, key: Seq<char>) -> Option<u64>;

/// The member `key` of the JSON document `s`, when `s` parses to an object
/// that has that member and it is a number: that number read as an `f64`
/// and written back as JSON text.
pub uninterp spec fn json_number_member(s: Seq<char>, key: Seq<char>) -> Option<Seq<char>>;

/// Relies on serde_json::to_string on a `str`: the quoted literal, escaped
/// by the table in serde_json's serializer. Writing to memory cannot fail,
/// so the error arm is never taken.
#[verifier::external_body]
pub(crate) fn quote_json(s: &str) -> (r: String)
    ensures
        r@ == json_quoted(s@),
{
    serde_json::to_string(s).unwrap_or_default()
}

/// Relies on serde_json::from_str into a `Value`: whether the text is one
/// well-formed JSON document.
#[verifier::external_body]
pub(crate) fn parses_json(s: &str) -> (r: bool)
    ensures
        r == json_parses(s@),
{
    serde_json::from_str::<serde_json::Value>(s).is_ok()
}

/// Relies on serde_json::from_str into a `Value`, then `Value::get` and
/// `Value::as_u64`: the member read as an unsigned integer.
#[verifier::external_body]
pub(crate) fn u64_member(s: &str, key: &str) -> (r: Option<u64>)
    ensures
        r == json_u64_member(s@, key@),
{
    let v = serde_json::from_str::<serde_json::Value>(s).ok()?;
    v.get(key)?.as_u64()
}

/// Relies on serde_json::from_str into a `Value`, then `Value::get`,
/// `Value::as_f64` and serde_json::to_string on that float: the member as
/// the JSON text of its float value.
#[verifier::external_body]
pub(crate) fn number_member(s: &str, key: &str) -> (r: Option<String>)
    ensures
        r matches Some(t) ==> json_number_member(s@, key@) == Some(t@),
        r is None ==> json_number_member(s@, key@) is None,
{
    let v = serde_json::from_str::<serde_json::Value>(s).ok()?;
    let f = v.get(key)?.as_f64()?;
    serde_json::to_string(&f).ok()
}

} // verus!
