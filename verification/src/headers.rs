//! Response headers, held in the `http` crate's header map.

use http::header::{HeaderMap, HeaderValue};
use vstd::prelude::*;

verus! {

/// `http::header::HeaderMap`: the multimap from header names to values.
/// Nothing inside it is visible here; what it holds goes by `header_fields`.
#[verifier::external_type_specification]
#[verifier::external_body]
#[verifier::reject_recursive_types(T)]
pub struct ExHeaderMap<T>(HeaderMap<T>);

/// `http::header::HeaderValue`: the bytes of one header value, which need
/// not be text.
#[verifier::external_type_specification]
#[verifier::external_body]
pub struct ExHeaderValue(HeaderValue);

/// What a header map holds: for each header name that occurs, in the lower
/// case in which the map keeps names, its values in the order they were added.
pub uninterp spec fn header_fields(m: HeaderMap<HeaderValue>) -> Map<Seq<char>, Seq<Seq<u8>>>;

/// The bytes of one header value.
pub uninterp spec fn header_value_bytes(v: HeaderValue) -> Seq<u8>;

/// A letter of `A` to `Z` as its lower-case counterpart, anything else as it is.
pub open spec fn ascii_lower_char(c: char) -> char {
    if 'A' <= c && c <= 'Z' {
        ((c as u8) + 32) as char
    } else {
        c
    }
}

/// A header name as a map looks it up: names are matched without regard to
/// ASCII case.
pub open spec fn ascii_lower(s: Seq<char>) -> Seq<char> {
    s.map_values(|c: char| ascii_lower_char(c))
}

/// The bytes that `to_str` accepts as text: printable ASCII, space and tab.
pub open spec fn is_visible_ascii(b: u8) -> bool {
    (32 <= b && b < 127) || b == 9
}

/// A value made of visible ASCII only.
pub open spec fn is_visible_text(bytes: Seq<u8>) -> bool {
    forall|i: int| 0 <= i < bytes.len() ==> is_visible_ascii(#[trigger] bytes[i])
}

/// Bytes read as characters, one for one.
pub open spec fn bytes_as_chars(bytes: Seq<u8>) -> Seq<char> {
    bytes.map_values(|b: u8| b as char)
}

/// The contents of a map without any header.
pub open spec fn no_fields() -> Map<Seq<char>, Seq<Seq<u8>>> {
    Map::empty()
}

/// `HeaderMap::new`: a map without any header.
#[verifier::external_body]
pub(crate) fn empty_headers() -> (headers: HeaderMap<HeaderValue>)
    ensures
        header_fields(headers) == no_fields(),
{
    HeaderMap::new()
}

/// `HeaderMap::clone`: a map with the same headers and values.
#[verifier::external_body]
pub(crate) fn clone_headers(m: &HeaderMap<HeaderValue>) -> (c: HeaderMap<HeaderValue>)
    ensures
        header_fields(c) == header_fields(*m),
{
    m.clone()
}

/// `HeaderMap::get` with a string key: the first value stored under the
/// name, which is looked up in lower case; `None` where the map has no
/// header of that name.
#[verifier::external_body]
pub(crate) fn first_header_value<'a>(m: &'a HeaderMap<HeaderValue>, name: &str) -> (v: Option<
    &'a HeaderValue,
>)
    ensures
        v is Some == header_fields(*m).contains_key(ascii_lower(name@)),
        v is Some ==> header_fields(*m)[ascii_lower(name@)].len() > 0 && header_value_bytes(
            *v->Some_0,
        ) == header_fields(*m)[ascii_lower(name@)][0],
{
    m.get(name)
}

/// `HeaderValue::to_str`: the value as text where every byte of it is
/// visible ASCII, and nothing otherwise.
#[verifier::external_body]
pub(crate) fn header_value_text(v: &HeaderValue) -> (r: Option<String>)
    ensures
        r is Some == is_visible_text(header_value_bytes(*v)),
        r is Some ==> r->Some_0@ == bytes_as_chars(header_value_bytes(*v)),
{
    match v.to_str() {
        Ok(s) => Some(s.to_owned()),
        Err(_) => None,
    }
}

} // verus!
