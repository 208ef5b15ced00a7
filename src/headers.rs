use vstd::prelude::*;

use hyper::header::HeaderValue;
use hyper::HeaderMap;

verus! {

#[verifier::external_type_specification]
#[verifier::external_body]
#[verifier::reject_recursive_types(T)]
pub struct ExHeaderMap<T>(HeaderMap<T>);

#[verifier::external_type_specification]
#[verifier::external_body]
pub struct ExHeaderValue(HeaderValue);

/// The first value that a header map holds under each header name, the names in lower case.
pub uninterp spec fn first_values(h: HeaderMap<HeaderValue>) -> Map<Seq<char>, HeaderValue>;

/// The bytes of a header value.
pub uninterp spec fn value_bytes(v: HeaderValue) -> Seq<u8>;

/// A header name written in lower case: letters and hyphens, at least one.
pub open spec fn is_lower_header_name(name: Seq<char>) -> bool {
    &&& name.len() > 0
    &&& forall|i: int| 0 <= i < name.len() ==> ('a' <= #[trigger] name[i] <= 'z' || name[i] == '-')
}

/// A byte that a header value may hold when read as text: visible ASCII or a tab.
pub open spec fn is_visible_ascii(b: u8) -> bool {
    (32 <= b && b < 127) || b == 9
}

/// The text of header value bytes, one character per byte.
pub open spec fn ascii_text(bytes: Seq<u8>) -> Seq<char> {
    bytes.map_values(|b: u8| b as char)
}

/// The text of the first value under `name`, when there is one and all its bytes are
/// visible ASCII.
pub open spec fn header_text(h: HeaderMap<HeaderValue>, name: Seq<char>) -> Option<Seq<char>> {
    if first_values(h).contains_key(name) {
        let bytes = value_bytes(first_values(h)[name]);
        if forall|i: int| 0 <= i < bytes.len() ==> is_visible_ascii(#[trigger] bytes[i]) {
            Some(ascii_text(bytes))
        } else {
            None
        }
    } else {
        None
    }
}

/// Relies on http's `HeaderMap::get` (re-exported by hyper): for a valid lower-case
/// name, the first value stored under that name, or `None` when there is none.
#[verifier::external_body]
fn first_value<'a>(headers: &'a HeaderMap<HeaderValue>, name: &str) -> (r: Option<&'a HeaderValue>)
    requires
        is_lower_header_name(name@),
    ensures
        r is Some <==> first_values(*headers).contains_key(name@),
        r matches Some(v) ==> *v == first_values(*headers)[name@],
{
    headers.get(name)
}

/// Relies on http's `HeaderValue::to_str`: the value as text when every byte is
/// visible ASCII or a tab, else an error (here `None`).
#[verifier::external_body]
fn value_text<'a>(value: &'a HeaderValue) -> (r: Option<&'a str>)
    ensures
        r is Some <==> forall|i: int|
            0 <= i < value_bytes(*value).len() ==> is_visible_ascii(#[trigger] value_bytes(*value)[i]),
        r matches Some(s) ==> s@ == ascii_text(value_bytes(*value)),
{
    value.to_str().ok()
}

/// Reads the text of the first value under the lower-case header `name`.
pub fn read_header<'a>(headers: &'a HeaderMap<HeaderValue>, name: &str) -> (r: Option<&'a str>)
    requires
        is_lower_header_name(name@),
    ensures
        match r {
            Some(s) => header_text(*headers, name@) == Some(s@),
            None => header_text(*headers, name@) is None,
        },
{
    match first_value(headers, name) {
        Some(v) => value_text(v),
        None => None,
    }
}

} // verus!
