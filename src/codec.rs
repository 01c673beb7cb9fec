use crate::record::{digit_char, push_str, Item};
use vstd::prelude::*;

verus! {

/// serde_json's error type, carried as the serializer's failure.
#[verifier::external_type_specification]
#[verifier::external_body]
pub struct ExJsonError(serde_json::Error);

/// A lower-case hexadecimal digit.
pub open spec fn hex_char(d: nat) -> char {
    if d < 10 { digit_char(d) }
    else if d == 10 { 'a' }
    else if d == 11 { 'b' }
    else if d == 12 { 'c' }
    else if d == 13 { 'd' }
    else if d == 14 { 'e' }
    else { 'f' }
}

/// How one character stands inside a JSON string: quote and backslash
/// escaped, the short escapes for backspace, tab, line feed, form feed and
/// carriage return, `\u00xx` for the other control characters.
pub open spec fn escaped_char(c: char) -> Seq<char> {
    if c == '"' {
        seq!['\\', '"']
    } else if c == '\\' {
        seq!['\\', '\\']
    } else if c == '\x08' {
        seq!['\\', 'b']
    } else if c == '\t' {
        seq!['\\', 't']
    } else if c == '\n' {
        seq!['\\', 'n']
    } else if c == '\x0c' {
        seq!['\\', 'f']
    } else if c == '\r' {
        seq!['\\', 'r']
    } else if (c as u32) < 0x20 {
        seq!['\\', 'u', '0', '0', hex_char((c as u32 / 16) as nat), hex_char((c as u32 % 16) as nat)]
    } else {
        seq![c]
    }
}

pub open spec fn json_escaped(s: Seq<char>) -> Seq<char>
    decreases s.len(),
{
    if s.len() == 0 {
        seq![]
    } else {
        json_escaped(s.drop_last()) + escaped_char(s.last())
    }
}

/// A string as a JSON string literal.
pub open spec fn json_quoted(s: Seq<char>) -> Seq<char> {
    seq!['"'] + json_escaped(s) + seq!['"']
}

/// A submission as a compact JSON object, fields in declaration order.
pub open spec fn item_json(item: Item) -> Seq<char> {
    "{\"name\":"@ + json_quoted(item.name@) + ",\"email\":"@ + json_quoted(item.email@)
        + ",\"message\":"@ + json_quoted(item.message@) + "}"@
}

/// Relies on `serde_json::to_string` on a `str`: a string literal in quotes,
/// escaped as `format_escaped_str_contents` and `write_char_escape` do.
/// It cannot fail: the `Vec` writer does not, nor does `str`'s `Serialize`.
#[verifier::external_body]
fn quote_json(s: &str) -> (r: Result<String, serde_json::Error>)
    ensures
        r is Ok,
        r matches Ok(q) ==> q@ == json_quoted(s@),
{
    serde_json::to_string(s)
}

/// Serializes a submission as a compact JSON object.
pub fn to_json(item: &Item) -> (r: String)
    ensures
        r@ == item_json(*item),
{
    let mut j = String::from_str("{\"name\":");
    push_quoted(&mut j, item.name.as_str());
    push_str(&mut j, ",\"email\":");
    push_quoted(&mut j, item.email.as_str());
    push_str(&mut j, ",\"message\":");
    push_quoted(&mut j, item.message.as_str());
    push_str(&mut j, "}");
    j
}

fn push_quoted(s: &mut String, t: &str)
    ensures
        final(s)@ == old(s)@ + json_quoted(t@),
{
    match quote_json(t) {
        Ok(q) => push_str(s, q.as_str()),
        Err(_) => {},
    }
}

} // verus!
