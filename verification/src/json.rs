//! Lists of paths as JSON.

use vstd::prelude::*;
use crate::text;

verus! {

/// `serde_json::Error`, of which nothing is known.
#[verifier::external_type_specification]
#[verifier::external_body]
pub struct ExJsonError(serde_json::Error);

/// The hexadecimal digit that stands for a number below sixteen.
pub open spec fn hex_digit(n: int) -> char {
    if n < 10 {
        ('0' as int + n) as char
    } else {
        ('a' as int + n - 10) as char
    }
}

/// A character inside a JSON string: quotes, backslashes and control characters are escaped.
pub open spec fn escaped(c: char) -> Seq<char> {
    if c == '"' || c == '\\' {
        seq!['\\', c]
    } else if c == '\u{8}' {
        seq!['\\', 'b']
    } else if c == '\u{9}' {
        seq!['\\', 't']
    } else if c == '\u{a}' {
        seq!['\\', 'n']
    } else if c == '\u{c}' {
        seq!['\\', 'f']
    } else if c == '\u{d}' {
        seq!['\\', 'r']
    } else if 0x20 > c as int {
        seq!['\\', 'u', '0', '0', hex_digit(c as int / 16), hex_digit(c as int % 16)]
    } else {
        seq![c]
    }
}

/// The characters of a text inside a JSON string.
pub open spec fn escaped_text(text: Seq<char>) -> Seq<char>
    decreases text.len(),
{
    if text.len() == 0 {
        text
    } else {
        escaped_text(text.drop_last()) + escaped(text.last())
    }
}

/// A text as a JSON string.
pub open spec fn json_string(text: Seq<char>) -> Seq<char> {
    seq!['"'] + escaped_text(text) + seq!['"']
}

/// A list of texts as a JSON array of strings, without white space between them.
pub open spec fn json_array(list: Seq<Seq<char>>) -> Seq<char> {
    seq!['['] + text::join(list.map_values(|t: Seq<char>| json_string(t)), seq![',']) + seq![']']
}

/// `serde_json::to_string` on a list of strings. It cannot fail there: a string and a list of
/// strings always serialise, and writing to memory gives no error. It gives a compact JSON array of
/// strings, in which quotes, backslashes and the control characters below the space are escaped,
/// five of these by a letter and the others by their number in lower-case digits.
#[verifier::external_body]
fn to_string(list: &Vec<String>) -> (r: Result<String, serde_json::Error>)
    ensures
        r is Ok,
        r->Ok_0@ == json_array(text::texts(list@)),
{
    serde_json::to_string(list)
}

/// A list of strings as JSON, if it can be written so.
pub(crate) fn json_of(list: &Vec<String>) -> (r: Option<String>)
    ensures
        text::text_of(r) == Some(json_array(text::texts(list@))),
{
    match to_string(list) {
        Ok(s) => Some(s),
        Err(_) => None,
    }
}

} // verus!
