use vstd::prelude::*;
use crate::text::{join, views_of};
use crate::middleware::hex_char;

verus! {

/// `serde_json::Error`, carried opaquely: nothing is read from it.
#[verifier::external_type_specification]
#[verifier::external_body]
pub struct ExJsonError(serde_json::Error);

/// How serde_json writes one character inside a JSON string: the double
/// quote and backslash are escaped with a backslash, backspace, tab, line
/// feed, form feed and carriage return by their short escapes, the other
/// control characters (below U+0020) as `\u00` and two lowercase hex
/// digits; every other character is written as is.
pub open spec fn json_escaped_char(c: char) -> Seq<char> {
    let u = c as u32;
    if c == '"' {
        seq!['\\', '"']
    } else if c == '\\' {
        seq!['\\', '\\']
    } else if u == 0x08 {
        seq!['\\', 'b']
    } else if u == 0x09 {
        seq!['\\', 't']
    } else if u == 0x0A {
        seq!['\\', 'n']
    } else if u == 0x0C {
        seq!['\\', 'f']
    } else if u == 0x0D {
        seq!['\\', 'r']
    } else if u < 0x20 {
        seq!['\\', 'u', '0', '0', hex_char((u / 16) as nat), hex_char((u % 16) as nat)]
    } else {
        seq![c]
    }
}

/// The characters of `s`, each written as inside a JSON string.
pub open spec fn json_escaped(s: Seq<char>) -> Seq<char>
    decreases s.len(),
{
    if s.len() == 0 {
        seq![]
    } else {
        json_escaped(s.drop_last()) + json_escaped_char(s.last())
    }
}

/// A JSON string literal holding `s`.
pub open spec fn json_string(s: Seq<char>) -> Seq<char> {
    seq!['"'] + json_escaped(s) + seq!['"']
}

/// The JSON literals of `items`, in order.
pub open spec fn json_strings(items: Seq<Seq<char>>) -> Seq<Seq<char>> {
    items.map_values(|s: Seq<char>| json_string(s))
}

/// The compact JSON text that `serde_json::to_string` writes for a list of
/// strings: the string literals between brackets, separated by commas.
pub open spec fn json_of_strings(items: Seq<Seq<char>>) -> Seq<char> {
    seq!['['] + join(json_strings(items), seq![',']) + seq![']']
}

/// What `serde_json::from_str::<Vec<String>>` reads from a text: the list of
/// strings when the text is a JSON array of strings, nothing otherwise.
pub uninterp spec fn strings_from_json(text: Seq<char>) -> Option<Seq<Seq<char>>>;

/// `serde_json::to_string` on a list of strings: the contract claims that
/// the call succeeds (its documentation names two causes of failure, a
/// `Serialize` impl that fails and a map with non-string keys, and a list of
/// strings has neither) and that it returns the compact text of its
/// serializer and escape table (`json_of_strings`), which
/// `serde_json::from_str::<Vec<String>>` reads back as the same list.
#[verifier::external_body]
fn encode_strings(items: &Vec<String>) -> (r: Result<String, serde_json::Error>)
    ensures
        r is Ok,
        r matches Ok(t) ==> t@ == json_of_strings(views_of(items@)),
        r matches Ok(t) ==> strings_from_json(t@) == Some(views_of(items@)),
{
    serde_json::to_string(items)
}

/// `serde_json::from_str::<Vec<String>>`: the contract names what it reads
/// (`strings_from_json`) and claims that it fails exactly when that name
/// gives nothing.
#[verifier::external_body]
fn decode_strings(text: &str) -> (r: Result<Vec<String>, serde_json::Error>)
    ensures
        r is Ok <==> strings_from_json(text@) is Some,
        r matches Ok(v) ==> strings_from_json(text@) == Some(views_of(v@)),
{
    serde_json::from_str::<Vec<String>>(text)
}

/// The JSON text stored for a brand's certifications (`"[]"` should
/// encoding ever fail); reading it back gives the same certifications.
pub fn certifications_to_json(certs: &Vec<String>) -> (r: String)
    ensures
        r@ == json_of_strings(views_of(certs@)),
        strings_from_json(r@) == Some(views_of(certs@)),
{
    match encode_strings(certs) {
        Ok(t) => t,
        Err(_) => String::from_str("[]"),
    }
}

/// The certifications read back from their stored JSON text; an empty list
/// when the text is not a JSON array of strings.
pub fn certifications_from_json(text: &str) -> (r: Vec<String>)
    ensures
        views_of(r@) == (match strings_from_json(text@) {
            Some(v) => v,
            None => Seq::<Seq<char>>::empty(),
        }),
{
    match decode_strings(text) {
        Ok(v) => v,
        Err(_) => {
            let v: Vec<String> = Vec::new();
            assert(views_of(v@) =~= Seq::<Seq<char>>::empty());
            v
        },
    }
}

} // verus!
