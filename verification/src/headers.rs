use reqwest::header::{HeaderMap, HeaderValue};
use vstd::prelude::*;

verus! {

/// `reqwest::header::HeaderMap`, the multimap from header names to values
/// that a response carries. Nothing inside it is visible here.
#[verifier::external_type_specification]
#[verifier::external_body]
#[verifier::reject_recursive_types(T)]
pub struct ExHeaderMap<T>(HeaderMap<T>);

/// `reqwest::header::HeaderValue`, one value of a header: the value type of
/// a response's header map. Nothing inside it is visible here.
#[verifier::external_type_specification]
#[verifier::external_body]
pub struct ExHeaderValue(HeaderValue);

/// What a header map holds, as far as a lookup can see it: for each header
/// name in the map, written in lower case as the map keeps it, the bytes of
/// the first value stored under that name.
pub uninterp spec fn first_values(headers: HeaderMap) -> Map<Seq<char>, Seq<u8>>;

/// `name` with its ASCII capital letters turned into small ones.
pub open spec fn ascii_lower(name: Seq<char>) -> Seq<char> {
    Seq::new(
        name.len(),
        |i: int|
            if 'A' <= name[i] && name[i] <= 'Z' {
                (name[i] as int + 32) as char
            } else {
                name[i]
            },
    )
}

/// The bytes of the first value of the header `name`, whatever the case in
/// which `name` is written.
pub open spec fn field_bytes(headers: HeaderMap, name: Seq<char>) -> Option<Seq<u8>> {
    if first_values(headers).contains_key(ascii_lower(name)) {
        Some(first_values(headers)[ascii_lower(name)])
    } else {
        None
    }
}

/// Whether a byte of a header value can be shown as text: printable ASCII,
/// the blank included, or a tab.
pub open spec fn is_visible(b: u8) -> bool {
    (32 <= b && b < 127) || b == 9
}

/// The text of a header value: its bytes read as ASCII, where all of them are
/// visible; no text otherwise.
pub open spec fn visible_text(bytes: Seq<u8>) -> Option<Seq<char>> {
    if forall|i: int| 0 <= i < bytes.len() ==> is_visible(#[trigger] bytes[i]) {
        Some(Seq::new(bytes.len(), |i: int| bytes[i] as char))
    } else {
        None
    }
}

/// The text of the first value of the header `name`; none where the header is
/// absent or its value is not text.
pub open spec fn field_text(headers: HeaderMap, name: Seq<char>) -> Option<Seq<char>> {
    match field_bytes(headers, name) {
        Some(bytes) => visible_text(bytes),
        None => None,
    }
}

/// The text of an optional owned string, for contracts.
pub open spec fn owned_text(s: Option<String>) -> Option<Seq<char>> {
    match s {
        Some(t) => Some(t@),
        None => None,
    }
}

/// `HeaderMap::get` with a string key, followed by `HeaderValue::as_bytes`.
/// The map compares names without regard to ASCII case and hands out the
/// first value stored under the name; a key that is no valid header name
/// finds nothing. The contract claims exactly that: a value comes back if and
/// only if the map holds the lower-cased name, and its bytes are those of the
/// first value.
#[verifier::external_body]
fn first_value<'a>(headers: &'a HeaderMap, name: &str) -> (value: Option<&'a [u8]>)
    ensures
        value is Some <==> first_values(*headers).contains_key(ascii_lower(name@)),
        value matches Some(bytes) ==> bytes@ == first_values(*headers)[ascii_lower(name@)],
{
    headers.get(name).map(HeaderValue::as_bytes)
}

/// Reads a header value as text. `Some` exactly when every byte is visible
/// ASCII or a tab; the text then holds one character per byte.
pub fn text_of_value(bytes: &[u8]) -> (text: Option<String>)
    ensures
        owned_text(text) == visible_text(bytes@),
{
    let mut text = String::new();
    let mut i: usize = 0;
    while i < bytes.len()
        invariant
            0 <= i <= bytes@.len(),
            forall|j: int| 0 <= j < i ==> is_visible(#[trigger] bytes@[j]),
            text@ == Seq::new(i as nat, |j: int| bytes@[j] as char),
        decreases bytes@.len() - i,
    {
        let b: u8 = bytes[i];
        if !((32 <= b && b < 127) || b == 9) {
            return None;
        }
        text.push(b as char);
        assert(text@ == Seq::new((i + 1) as nat, |j: int| bytes@[j] as char));
        i = i + 1;
    }
    Some(text)
}

/// Looks up one header of a response and reads its first value as text.
pub fn header_text(headers: &HeaderMap, name: &str) -> (text: Option<String>)
    ensures
        owned_text(text) == field_text(*headers, name@),
{
    match first_value(headers, name) {
        Some(bytes) => text_of_value(bytes),
        None => None,
    }
}

} // verus!
