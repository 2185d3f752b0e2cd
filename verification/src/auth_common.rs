//! Credentials in a request's headers, and what the authentication backend is told
//! about a request.

use axum::http::{HeaderMap, HeaderValue, Method};
use vstd::prelude::*;

use crate::http::{header, header_get_all, method_as_str};
use crate::text::strip_prefix;

verus! {

pub const AUTHORIZATION_HEADER: &'static str = "authorization";

pub const API_TOKEN_HEADER: &'static str = "x-api-token";

pub const BROWSER_PROOF_HEADER: &'static str = "x-browser-proof";

pub const ORIGIN_HEADER: &'static str = "origin";

pub const REFERER_HEADER: &'static str = "referer";

pub const FORWARDED_HOST_HEADER: &'static str = "x-forwarded-host";

pub const HOST_HEADER: &'static str = "host";

/// What stands before the token in an `Authorization` header.
pub const BEARER_PREFIX: &'static str = "Bearer ";

/// A credential that is checked by the authentication backend.
#[derive(Debug)]
pub enum Credential<'a> {
    ApiCredential { header_name: &'static str, value: &'a str },
    BrowserProof(&'a str),
}

/// What the authentication backend is told about a request.
#[derive(Debug)]
pub struct AuthRequestContext {
    pub method: String,
    pub path: String,
    pub origin: Option<String>,
    pub referer: Option<String>,
    pub host: Option<String>,
    pub record_usage: Option<bool>,
}

/// What a browser proof is asked for with.
#[derive(Debug)]
pub struct BrowserProofRequest {
    pub origin: Option<String>,
    pub referer: Option<String>,
    pub host: Option<String>,
}

/// A request context, its strings as texts.
pub struct RequestContext {
    pub method: Seq<char>,
    pub path: Seq<char>,
    pub origin: Option<Seq<char>>,
    pub referer: Option<Seq<char>>,
    pub host: Option<Seq<char>>,
    pub record_usage: Option<bool>,
}

/// The text of an optional string.
pub open spec fn owned_text(s: Option<String>) -> Option<Seq<char>> {
    match s {
        Some(text) => Some(text@),
        None => None,
    }
}

impl View for AuthRequestContext {
    type V = RequestContext;

    open spec fn view(&self) -> RequestContext {
        RequestContext {
            method: self.method@,
            path: self.path@,
            origin: owned_text(self.origin),
            referer: owned_text(self.referer),
            host: owned_text(self.host),
            record_usage: self.record_usage,
        }
    }
}

/// The bearer token of a request.
pub open spec fn bearer_token(headers: HeaderMap) -> Option<Seq<char>> {
    match crate::http::header_text(headers, AUTHORIZATION_HEADER@) {
        Some(value) => crate::text::after_prefix(value, BEARER_PREFIX@),
        None => None,
    }
}

/// The API token of a request.
pub open spec fn api_token(headers: HeaderMap) -> Option<Seq<char>> {
    crate::http::header_text(headers, API_TOKEN_HEADER@)
}

/// The browser proof of a request.
pub open spec fn browser_proof(headers: HeaderMap) -> Option<Seq<char>> {
    crate::http::header_text(headers, BROWSER_PROOF_HEADER@)
}

/// The host under which the service was addressed from outside: the forwarded one,
/// else, for a request that comes from a browser, the one in `Host`.
pub open spec fn public_host(
    origin: Option<Seq<char>>,
    referer: Option<Seq<char>>,
    forwarded_host: Option<Seq<char>>,
    host: Option<Seq<char>>,
) -> Option<Seq<char>> {
    if forwarded_host is Some {
        forwarded_host
    } else if origin is Some || referer is Some {
        host
    } else {
        None
    }
}

/// The context of a request with the given method name, path and headers.
pub open spec fn context_of(
    method: Seq<char>,
    path: Seq<char>,
    headers: HeaderMap,
) -> RequestContext {
    let origin = crate::http::header_text(headers, ORIGIN_HEADER@);
    let referer = crate::http::header_text(headers, REFERER_HEADER@);
    RequestContext {
        method,
        path,
        origin,
        referer,
        host: public_host(
            origin,
            referer,
            crate::http::header_text(headers, FORWARDED_HOST_HEADER@),
            crate::http::header_text(headers, HOST_HEADER@),
        ),
        record_usage: if api_token(headers) is Some {
            Some(true)
        } else {
            None
        },
    }
}

/// Extracts the token of an `Authorization: Bearer` header.
pub fn extract_bearer_token(headers: &HeaderMap) -> (r: Option<&str>)
    ensures
        crate::text::optional_text(r) == bearer_token(*headers),
{
    match header(headers, AUTHORIZATION_HEADER) {
        Some(value) => strip_prefix(value, BEARER_PREFIX),
        None => None,
    }
}

/// Extracts the API credential with the name of the header that it stands in.
pub fn extract_api_credential(headers: &HeaderMap) -> (r: Option<Credential<'_>>)
    ensures
        match r {
            Some(Credential::ApiCredential { header_name, value }) => header_name@
                == API_TOKEN_HEADER@ && api_token(*headers) == Some(value@),
            Some(Credential::BrowserProof(_)) => false,
            None => api_token(*headers) is None,
        },
{
    match header(headers, API_TOKEN_HEADER) {
        Some(value) => Some(Credential::ApiCredential { header_name: API_TOKEN_HEADER, value }),
        None => None,
    }
}

/// Extracts the browser proof.
pub fn extract_browser_proof(headers: &HeaderMap) -> (r: Option<&str>)
    ensures
        crate::text::optional_text(r) == browser_proof(*headers),
{
    header(headers, BROWSER_PROOF_HEADER)
}

/// An owned copy of an optional string.
fn to_owned_text(s: Option<&str>) -> (r: Option<String>)
    ensures
        owned_text(r) == crate::text::optional_text(s),
{
    match s {
        Some(text) => Some(text.to_owned()),
        None => None,
    }
}

/// Chooses the host under which the service was addressed from outside.
pub fn choose_host<'a>(
    origin: Option<&'a str>,
    referer: Option<&'a str>,
    forwarded_host: Option<&'a str>,
    host: Option<&'a str>,
) -> (r: Option<&'a str>)
    ensures
        crate::text::optional_text(r) == public_host(
            crate::text::optional_text(origin),
            crate::text::optional_text(referer),
            crate::text::optional_text(forwarded_host),
            crate::text::optional_text(host),
        ),
{
    if forwarded_host.is_some() {
        forwarded_host
    } else if origin.is_some() || referer.is_some() {
        host
    } else {
        None
    }
}

/// Builds the context of a request. The use of an API credential is to be recorded.
pub fn request_context(headers: &HeaderMap, method: &Method, path: &str) -> (r: AuthRequestContext)
    ensures
        r@ == context_of(crate::http::method_name(*method), path@, *headers),
{
    let origin = header(headers, ORIGIN_HEADER);
    let referer = header(headers, REFERER_HEADER);
    let host = choose_host(
        origin,
        referer,
        header(headers, FORWARDED_HOST_HEADER),
        header(headers, HOST_HEADER),
    );
    let record_usage = match extract_api_credential(headers) {
        Some(_) => Some(true),
        None => None,
    };
    AuthRequestContext {
        method: method_as_str(method).to_owned(),
        path: path.to_owned(),
        origin: to_owned_text(origin),
        referer: to_owned_text(referer),
        host: to_owned_text(host),
        record_usage,
    }
}

/// Whether headers are those of the backend's answer that hand out a browser proof,
/// in their order.
pub open spec fn hands_out(handed_out: Seq<(&'static str, HeaderValue)>, headers: HeaderMap) -> bool {
    let values = crate::http::values_under(headers, BROWSER_PROOF_HEADER@);
    &&& handed_out.len() == values.len()
    &&& forall|i: int|
        0 <= i < values.len() ==> (#[trigger] handed_out[i]).0@ == BROWSER_PROOF_HEADER@
            && crate::http::header_bytes(handed_out[i].1) == values[i]
}

/// Collects the headers of the backend's answer that hand out a browser proof.
pub fn collect_browser_proof_headers(headers: &HeaderMap) -> (r: Vec<(&'static str, HeaderValue)>)
    ensures
        hands_out(r@, *headers),
{
    let values = header_get_all(headers, BROWSER_PROOF_HEADER);
    let ghost found = values@.map_values(|value: HeaderValue| crate::http::header_bytes(value));
    let ghost listed = values@;
    let mut out: Vec<(&'static str, HeaderValue)> = Vec::new();
    for value in it: values
        invariant
            out@.len() == it.index(),
            forall|i: int|
                0 <= i < out@.len() ==> (#[trigger] out@[i]).0@ == BROWSER_PROOF_HEADER@ && out@[i].1
                    == it.seq()[i],
    {
        out.push((BROWSER_PROOF_HEADER, value));
    }
    assert forall|i: int| 0 <= i < found.len() implies crate::http::header_bytes(
        (#[trigger] out@[i]).1,
    ) == found[i] by {
        assert(found[i] == crate::http::header_bytes(listed[i]));
    }
    out
}

/// A forwarded host is what the backend is told, whatever else the headers hold; the
/// host by which the service is addressed inside its network is not told about a
/// request that does not come from a browser.
pub proof fn law_internal_host_stays_inside(
    method: Seq<char>,
    path: Seq<char>,
    headers: HeaderMap,
)
    ensures
        crate::http::header_text(headers, FORWARDED_HOST_HEADER@) is Some ==> context_of(
            method,
            path,
            headers,
        ).host == crate::http::header_text(headers, FORWARDED_HOST_HEADER@),
        ({
            let context = context_of(method, path, headers);
            crate::http::header_text(headers, FORWARDED_HOST_HEADER@) is None && context.origin is None
                && context.referer is None ==> context.host is None
        }),
{
}

} // verus!
