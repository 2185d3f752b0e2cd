//! What the service reads of an HTTP request: its method, its target and the
//! headers of a `HeaderMap`.

use axum::http::{HeaderMap, HeaderValue, Method, Uri};
use vstd::prelude::*;

verus! {

#[verifier::external_type_specification]
#[verifier::external_body]
pub struct ExMethod(axum::http::Method);

#[verifier::external_type_specification]
#[verifier::external_body]
pub struct ExUri(axum::http::Uri);

#[verifier::external_type_specification]
#[verifier::external_body]
pub struct ExHeaderValue(axum::http::HeaderValue);

#[verifier::external_type_specification]
#[verifier::external_body]
#[verifier::reject_recursive_types(T)]
pub struct ExHeaderMap<T>(axum::http::HeaderMap<T>);

/// The name of a method, as it stands in a request line.
pub uninterp spec fn method_name(method: Method) -> Seq<char>;

/// The path and query of a URI, where it has them.
pub uninterp spec fn uri_path_and_query(uri: Uri) -> Option<Seq<char>>;

/// The path of a URI, without its query.
pub uninterp spec fn uri_path(uri: Uri) -> Seq<char>;

/// The bytes of a header value.
pub uninterp spec fn header_bytes(value: HeaderValue) -> Seq<u8>;

/// What a header map holds: for each lower-case header name the values that were
/// added under it, oldest first.
pub uninterp spec fn header_entries(headers: HeaderMap) -> Map<Seq<char>, Seq<Seq<u8>>>;

/// A character with `A` to `Z` in lower case.
pub open spec fn lower_char(c: char) -> char {
    if 'A' <= c && c <= 'Z' {
        ((c as u32 + 32) as u32) as char
    } else {
        c
    }
}

/// A text with `A` to `Z` in lower case.
pub open spec fn lower(text: Seq<char>) -> Seq<char> {
    text.map_values(|c: char| lower_char(c))
}

/// All values that a header map holds under a name, whatever the name's case.
pub open spec fn values_under(headers: HeaderMap, name: Seq<char>) -> Seq<Seq<u8>> {
    if header_entries(headers).contains_key(lower(name)) {
        header_entries(headers)[lower(name)]
    } else {
        Seq::empty()
    }
}

/// Whether a byte is a visible ASCII character, a space or a tab.
pub open spec fn is_text_byte(b: u8) -> bool {
    32 <= b < 127 || b == 9
}

/// The text of a header value; none where a byte of it is no text.
pub open spec fn bytes_text(bytes: Seq<u8>) -> Option<Seq<char>> {
    if forall|i: int| 0 <= i < bytes.len() ==> is_text_byte(#[trigger] bytes[i]) {
        Some(bytes.map_values(|b: u8| b as char))
    } else {
        None
    }
}

/// The text of the first value under a name, whatever the name's case.
pub open spec fn header_text(headers: HeaderMap, name: Seq<char>) -> Option<Seq<char>> {
    let values = values_under(headers, name);
    if values.len() == 0 {
        None
    } else {
        bytes_text(values[0])
    }
}

/// `Method::as_str`: the method's name.
#[verifier::external_body]
pub(crate) fn method_as_str(method: &Method) -> (r: &str)
    ensures
        r@ == method_name(*method),
{
    method.as_str()
}

/// `Uri::path_and_query` and `PathAndQuery::as_str`: the URI's path and query, where it
/// has them.
#[verifier::external_body]
pub(crate) fn uri_path_and_query_str(uri: &Uri) -> (r: Option<&str>)
    ensures
        match r {
            Some(text) => uri_path_and_query(*uri) == Some(text@),
            None => uri_path_and_query(*uri) is None,
        },
{
    match uri.path_and_query() {
        Some(target) => Some(target.as_str()),
        None => None,
    }
}

/// `Uri::path`: the URI's path.
#[verifier::external_body]
pub(crate) fn uri_path_str(uri: &Uri) -> (r: &str)
    ensures
        r@ == uri_path(*uri),
{
    uri.path()
}

/// `HeaderMap::get` with a text as the key: the first value that was added under
/// the name, whatever the name's case, and nothing where there is none.
#[verifier::external_body]
pub(crate) fn header_get<'a>(
    headers: &'a HeaderMap,
    name: &str,
) -> (r: Option<&'a HeaderValue>)
    ensures
        r is Some <==> header_entries(*headers).contains_key(lower(name@)),
        r matches Some(value) ==> {
            let values = header_entries(*headers)[lower(name@)];
            values.len() > 0 && header_bytes(*value) == values[0]
        },
{
    headers.get(name)
}

/// `HeaderMap::get_all` with a text as the key: all values that were added under the
/// name, whatever the name's case, oldest first.
#[verifier::external_body]
pub(crate) fn header_get_all(
    headers: &HeaderMap,
    name: &str,
) -> (r: Vec<HeaderValue>)
    ensures
        r@.map_values(|value: HeaderValue| header_bytes(value)) == (
        if header_entries(*headers).contains_key(lower(name@)) {
            header_entries(*headers)[lower(name@)]
        } else {
            Seq::empty()
        }),
{
    headers.get_all(name).iter().cloned().collect()
}

/// `HeaderValue::to_str`: the value's bytes as ASCII text, and nothing where a
/// byte is neither a visible character nor a space nor a tab.
#[verifier::external_body]
pub(crate) fn header_value_to_str(value: &HeaderValue) -> (r: Option<&str>)
    ensures
        match r {
            Some(text) => bytes_text(header_bytes(*value)) == Some(text@),
            None => bytes_text(header_bytes(*value)) is None,
        },
{
    value.to_str().ok()
}

/// The text of the first value under a name, whatever the name's case.
pub fn header<'a>(
    headers: &'a HeaderMap,
    name: &str,
) -> (r: Option<&'a str>)
    ensures
        match r {
            Some(text) => header_text(*headers, name@) == Some(text@),
            None => header_text(*headers, name@) is None,
        },
{
    match header_get(headers, name) {
        Some(value) => header_value_to_str(value),
        None => None,
    }
}

} // verus!
