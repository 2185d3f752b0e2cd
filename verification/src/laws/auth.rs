//! What is promised of the authentication of a request.

use axum::http::{HeaderMap, HeaderValue, Method, Uri};
use uuid::Uuid;
use vstd::prelude::*;

use crate::auth::{
    AuthBackend, AuthContext, AuthDecision, AuthRejection, AuthStep, AuthenticatedUser,
    BackendError, BrowserProofCall, CredentialKind, VerifyCall, VerifyInternalResponse,
};
use crate::auth_common::{AuthRequestContext, Credential};

verus! {

/// The text of a header is that of the first value under its name, character by
/// character, and there is one exactly where that value is visible ASCII, spaces and tabs.
pub proof fn law_header_is_the_first_value(
    headers: HeaderMap,
    name: &str,
    first: Seq<u8>,
    r: Option<&str>,
)
    requires
        call_ensures(crate::http::header, (&headers, name), r),
        crate::http::header_entries(headers).contains_key(crate::http::lower(name@)),
        crate::http::header_entries(headers)[crate::http::lower(name@)].len() > 0,
        first == crate::http::header_entries(headers)[crate::http::lower(name@)][0],
    ensures
        r is Some <==> forall|i: int|
            0 <= i < first.len() ==> 32 <= #[trigger] first[i] <= 126 || first[i] == 9,
        r matches Some(text) ==> text@.len() == first.len(),
        r matches Some(text) ==> forall|i: int|
            0 <= i < first.len() ==> #[trigger] text@[i] == first[i] as char,
{
    if forall|i: int| 0 <= i < first.len() ==> 32 <= #[trigger] first[i] <= 126 || first[i] == 9 {
        assert(forall|i: int|
            0 <= i < first.len() ==> crate::http::is_text_byte(#[trigger] first[i]));
    }
}

/// A header that is not there has no text.
pub proof fn law_missing_header(headers: HeaderMap, name: &str, r: Option<&str>)
    requires
        call_ensures(crate::http::header, (&headers, name), r),
        !crate::http::header_entries(headers).contains_key(crate::http::lower(name@)),
    ensures
        r is None,
{
}

/// A bearer token stands in the `Authorization` header behind `Bearer ` and nothing else.
pub proof fn law_extracted_bearer_token(headers: HeaderMap, r: Option<&str>)
    requires
        call_ensures(crate::auth_common::extract_bearer_token, (&headers,), r),
    ensures
        r matches Some(token) ==> crate::http::header_text(headers, "authorization"@) == Some(
            "Bearer "@ + token@,
        ),
        r is None ==> forall|token: Seq<char>|
            crate::http::header_text(headers, "authorization"@) != Some(
                #[trigger] ("Bearer "@ + token),
            ),
{
    if let Some(value) = crate::http::header_text(headers, "authorization"@) {
        if r is Some {
            assert(value =~= "Bearer "@ + value.skip("Bearer "@.len() as int));
        } else {
            assert forall|token: Seq<char>| value != #[trigger] ("Bearer "@ + token) by {
                if value == "Bearer "@ + token {
                    assert("Bearer "@.is_prefix_of(value));
                }
            }
        }
    }
}

/// An API credential is the text of the header that it names.
pub proof fn law_extracted_api_credential(headers: HeaderMap, r: Option<Credential<'_>>)
    requires
        call_ensures(crate::auth_common::extract_api_credential, (&headers,), r),
    ensures
        r is Some <==> crate::http::header_text(headers, "x-api-token"@) is Some,
        r matches Some(credential) ==> (credential matches Credential::ApiCredential {
            header_name,
            value,
        } && header_name@ == "x-api-token"@ && crate::http::header_text(headers, header_name@)
            == Some(value@)),
{
}

/// A browser proof is the text of its header.
pub proof fn law_extracted_browser_proof(headers: HeaderMap, r: Option<&str>)
    requires
        call_ensures(crate::auth_common::extract_browser_proof, (&headers,), r),
    ensures
        r is Some <==> crate::http::header_text(headers, "x-browser-proof"@) is Some,
        r matches Some(proof) ==> crate::http::header_text(headers, "x-browser-proof"@) == Some(
            proof@,
        ),
{
}

/// A forwarded host is chosen wherever there is one; else the host of the request, and
/// only where an origin or a referer shows a browser.
pub proof fn law_chosen_host(
    origin: Option<&str>,
    referer: Option<&str>,
    forwarded_host: Option<&str>,
    host: Option<&str>,
    r: Option<&str>,
)
    requires
        call_ensures(crate::auth_common::choose_host, (origin, referer, forwarded_host, host), r),
    ensures
        forwarded_host matches Some(forwarded) ==> r is Some && r->0@ == forwarded@,
        forwarded_host is None && origin is None && referer is None ==> r is None,
        forwarded_host is None && (origin is Some || referer is Some) ==> (r is Some <==> host is Some),
        forwarded_host is None && (origin is Some || referer is Some) && host is Some ==> r->0@
            == host->0@,
{
}

/// Whether an optional string has an optional text.
pub open spec fn has_text(s: Option<String>, text: Option<Seq<char>>) -> bool {
    &&& s is Some <==> text is Some
    &&& s is Some ==> s->0@ == text->0
}

/// Whether a context tells what a request's headers say.
pub open spec fn tells(context: AuthRequestContext, headers: HeaderMap) -> bool {
    let origin = crate::http::header_text(headers, "origin"@);
    let referer = crate::http::header_text(headers, "referer"@);
    let forwarded = crate::http::header_text(headers, "x-forwarded-host"@);
    &&& has_text(context.origin, origin)
    &&& has_text(context.referer, referer)
    &&& forwarded is Some ==> has_text(context.host, forwarded)
    &&& forwarded is None && (origin is Some || referer is Some) ==> has_text(
        context.host,
        crate::http::header_text(headers, "host"@),
    )
    &&& forwarded is None && origin is None && referer is None ==> context.host is None
    &&& crate::http::header_text(headers, "x-api-token"@) is Some ==> context.record_usage == Some(
        true,
    )
    &&& crate::http::header_text(headers, "x-api-token"@) is None ==> context.record_usage is None
}

/// The context of a request tells its method, its path and what its headers say.
pub proof fn law_request_context(
    headers: HeaderMap,
    method: Method,
    path: &str,
    r: AuthRequestContext,
)
    requires
        call_ensures(crate::auth_common::request_context, (&headers, &method, path), r),
    ensures
        r.method@ == crate::http::method_name(method),
        r.path@ == path@,
        tells(r, headers),
{
    lemma_context_fields(r, crate::http::method_name(method), path@, headers);
}

proof fn lemma_context_fields(
    context: AuthRequestContext,
    method: Seq<char>,
    path: Seq<char>,
    headers: HeaderMap,
)
    requires
        context@ == crate::auth_common::context_of(method, path, headers),
    ensures
        context.method@ == method,
        context.path@ == path,
        tells(context, headers),
{
    let view = context@;
    assert(view.origin == crate::http::header_text(headers, "origin"@));
    assert(view.referer == crate::http::header_text(headers, "referer"@));
}

/// The context of a request tells its method, its path with the query where the URI has
/// one, and what its headers say.
pub proof fn law_built_context(method: Method, uri: Uri, headers: HeaderMap, r: AuthRequestContext)
    requires
        call_ensures(crate::auth::build_context, (&method, &uri, &headers), r),
    ensures
        r.method@ == crate::http::method_name(method),
        crate::http::uri_path_and_query(uri) matches Some(path) ==> r.path@ == path,
        crate::http::uri_path_and_query(uri) is None ==> r.path@ == crate::http::uri_path(uri),
        tells(r, headers),
{
    lemma_context_fields(
        r,
        crate::http::method_name(method),
        match crate::http::uri_path_and_query(uri) {
            Some(path) => path,
            None => crate::http::uri_path(uri),
        },
        headers,
    );
}

/// The headers that hand out a browser proof are all values under its name, in order.
pub proof fn law_collected_proof_headers(
    headers: HeaderMap,
    r: Vec<(&'static str, HeaderValue)>,
)
    requires
        call_ensures(crate::auth_common::collect_browser_proof_headers, (&headers,), r),
    ensures
        is_handed_out(r@, headers),
{
}

/// Whether headers are all values under the name of the browser proof, in order.
pub open spec fn is_handed_out(r: Seq<(&'static str, HeaderValue)>, headers: HeaderMap) -> bool {
    let name = crate::http::lower("x-browser-proof"@);
    let entries = crate::http::header_entries(headers);
    &&& entries.contains_key(name) ==> r.len() == entries[name].len()
    &&& !entries.contains_key(name) ==> r.len() == 0
    &&& forall|i: int|
        0 <= i < r.len() ==> (#[trigger] r[i]).0@ == "x-browser-proof"@
            && crate::http::header_bytes(r[i].1) == entries[name][i]
}

/// A rejection has the message that it is made with and the status of its kind.
pub proof fn law_rejections(
    message: &str,
    unauthorized: AuthRejection,
    forbidden: AuthRejection,
    bad_gateway: AuthRejection,
)
    requires
        call_ensures(AuthRejection::unauthorized, (message,), unauthorized),
        call_ensures(AuthRejection::forbidden, (message,), forbidden),
        call_ensures(AuthRejection::bad_gateway, (message,), bad_gateway),
    ensures
        unauthorized.message@ == message@ && unauthorized.status == 401,
        forbidden.message@ == message@ && forbidden.status == 403,
        bad_gateway.message@ == message@ && bad_gateway.status == 502,
{
    assert(unauthorized@.message == message@);
    assert(forbidden@.message == message@);
    assert(bad_gateway@.message == message@);
}

/// A handler gets a user exactly where the request has a context that names one, and it is
/// that user; without a context the request is unauthorized, without a user forbidden.
pub proof fn law_user_of_a_request(
    context: Option<&AuthContext>,
    r: Result<AuthenticatedUser, AuthRejection>,
)
    requires
        call_ensures(AuthenticatedUser::from_request_parts, (context,), r),
    ensures
        r is Ok <==> context is Some && context->0.user_id is Some,
        r matches Ok(user) ==> context->0.user_id == Some(user.user_id),
        context is None ==> (r matches Err(rejection) && rejection.status == 401
            && rejection.message@ == "Missing authentication context"@),
        context is Some && context->0.user_id is None ==> (r matches Err(rejection)
            && rejection.status == 403 && rejection.message@
            == "Authenticated credential did not identify a user"@),
{
    if r is Err {
        let view = r->Err_0@;
        assert(view.message == r->Err_0.message@);
        assert(view.status == r->Err_0.status);
    }
}

/// The user that an answer names is one that stands in it, and the first of: the owner of
/// the API key, the owner of the browser proof, the answer's user, its subject.
pub proof fn law_named_user(response: VerifyInternalResponse, r: Option<Uuid>)
    requires
        call_ensures(VerifyInternalResponse::user_id, (&response,), r),
    ensures
        is_named_user(response, r),
{
}

/// Whether a user is the first of those that an answer names.
pub open spec fn is_named_user(response: VerifyInternalResponse, r: Option<Uuid>) -> bool {
    let by_proof = response.browser_proof is Some && response.browser_proof->0.user_id is Some;
    &&& response.api_key is Some ==> r == Some(response.api_key->0.user_id)
    &&& response.api_key is None && by_proof ==> r == response.browser_proof->0.user_id
    &&& response.api_key is None && !by_proof && response.user_id is Some ==> r == response.user_id
    &&& response.api_key is None && !by_proof && response.user_id is None ==> r == response.sub
}

/// An answer is read as it is, whatever its status; where it does not parse, it refuses
/// the credential and says nothing else, but with the status 200 there is no answer.
pub proof fn law_read_answer(
    status: u16,
    parsed: Option<VerifyInternalResponse>,
    r: Result<VerifyInternalResponse, BackendError>,
)
    requires
        call_ensures(crate::auth::verify_response, (status, parsed), r),
    ensures
        parsed matches Some(response) ==> (r matches Ok(read) && read == response),
        parsed is None && status != 200 ==> (r matches Ok(read) && says_nothing(read)),
        parsed is None && status == 200 ==> (r matches Err(error) && error is InvalidBody),
{
}

/// Whether an answer refuses a credential and says nothing else.
pub open spec fn says_nothing(response: VerifyInternalResponse) -> bool {
    &&& !response.valid
    &&& response.credential is None
    &&& response.message is None
    &&& response.error is None
    &&& response.user_id is None
    &&& response.sub is None
    &&& response.api_key is None
    &&& response.browser_proof is None
}

/// The invalid answer refuses a credential and says nothing else.
pub proof fn law_invalid_answer(r: VerifyInternalResponse)
    requires
        call_ensures(VerifyInternalResponse::invalid, (), r),
    ensures
        says_nothing(r),
{
}

/// A browser proof is handed out, all of it, exactly where the status is from 200 to 299;
/// else the status is the error.
pub proof fn law_read_proof_answer(
    status: u16,
    headers: HeaderMap,
    r: Result<Vec<(&'static str, HeaderValue)>, BackendError>,
)
    requires
        call_ensures(crate::auth::browser_proof_response, (status, &headers), r),
    ensures
        r is Ok <==> 200 <= status <= 299,
        r matches Ok(handed_out) ==> is_handed_out(handed_out@, headers),
        r matches Err(error) ==> error == BackendError::Status(status),
{
}

/// A preview is the start of the body: all of it up to 256 characters, and 256 of a
/// longer one.
pub proof fn law_body_preview(body: &str, r: String)
    requires
        call_ensures(crate::auth::body_preview, (body,), r),
    ensures
        body@.len() <= 256 ==> r@ == body@,
        body@.len() > 256 ==> r@.len() == 256,
        forall|i: int| 0 <= i < r@.len() ==> r@[i] == body@[i],
{
    if body@.len() <= 256 {
        assert(body@.take(body@.len() as int) =~= body@);
    }
}

/// The base of the backend is the start of the first base that is given, the default one
/// where none is; it lacks slashes at the end and only those.
pub proof fn law_backend_base(auth_base: Option<String>, base: Option<String>, r: AuthBackend)
    requires
        call_ensures(AuthBackend::from_env, (auth_base, base), r),
    ensures
        r.base_url@.len() > 0 ==> r.base_url@[r.base_url@.len() - 1] != '/',
        auth_base matches Some(given) ==> is_without_slashes(r.base_url@, given@),
        auth_base is None ==> (base matches Some(given) ==> is_without_slashes(
            r.base_url@,
            given@,
        )),
        auth_base is None && base is None ==> is_without_slashes(
            r.base_url@,
            "http://umamoe-backend:3201"@,
        ),
{
    crate::text::law_trimming_takes_the_whole_run(
        match (auth_base, base) {
            (Some(given), _) => given@,
            (None, Some(given)) => given@,
            (None, None) => "http://umamoe-backend:3201"@,
        },
        '/',
    );
}

/// Whether a text is another one but for slashes at the end.
pub open spec fn is_without_slashes(text: Seq<char>, given: Seq<char>) -> bool {
    &&& text.len() <= given.len()
    &&& forall|i: int| 0 <= i < text.len() ==> text[i] == given[i]
    &&& forall|i: int| text.len() <= i < given.len() ==> given[i] == '/'
}

/// Whether two optional strings have the same text.
pub open spec fn same_text(a: Option<String>, b: Option<String>) -> bool {
    &&& a is Some <==> b is Some
    &&& a is Some ==> a->0@ == b->0@
}

/// Whether a context says the same as another one.
pub open spec fn same_context(a: AuthRequestContext, b: AuthRequestContext) -> bool {
    &&& a.method@ == b.method@
    &&& a.path@ == b.path@
    &&& same_text(a.origin, b.origin)
    &&& same_text(a.referer, b.referer)
    &&& same_text(a.host, b.host)
    &&& a.record_usage == b.record_usage
}

proof fn lemma_same_context(a: AuthRequestContext, b: AuthRequestContext)
    requires
        a@ == b@,
    ensures
        same_context(a, b),
{
    let x = a@;
    let y = b@;
    assert(x.method == y.method && x.path == y.path && x.origin == y.origin && x.referer
        == y.referer && x.host == y.host && x.record_usage == y.record_usage);
}

/// Each call that verifies a credential posts the request's context to the verify
/// endpoint, with the credential in its header.
pub proof fn law_verify_calls(
    backend: AuthBackend,
    context: AuthRequestContext,
    header_name: &'static str,
    value: String,
    text: &str,
    bearer: VerifyCall,
    api: VerifyCall,
    proof_call: VerifyCall,
)
    requires
        call_ensures(AuthBackend::verify_bearer_token, (&backend, context, text), bearer),
        call_ensures(
            AuthBackend::verify_api_credential,
            (&backend, context, header_name, value),
            api,
        ),
        call_ensures(AuthBackend::verify_browser_proof, (&backend, context, text), proof_call),
    ensures
        bearer.url@ == backend.base_url@ + "/api/auth/verify/internal"@,
        bearer.header_name@ == "authorization"@,
        bearer.header_value@ == "Bearer "@ + text@,
        same_context(bearer.context, context),
        api.url@ == backend.base_url@ + "/api/auth/verify/internal"@,
        api.header_name@ == header_name@,
        api.header_value@ == value@,
        same_context(api.context, context),
        proof_call.url@ == backend.base_url@ + "/api/auth/verify/internal"@,
        proof_call.header_name@ == "x-browser-proof"@,
        proof_call.header_value@ == text@,
        same_context(proof_call.context, context),
{
    lemma_same_context(bearer.context, context);
    lemma_same_context(api.context, context);
    lemma_same_context(proof_call.context, context);
}

/// The call that asks for a browser proof tells the proof endpoint where the request came
/// from.
pub proof fn law_proof_call(
    backend: AuthBackend,
    context: AuthRequestContext,
    r: BrowserProofCall,
)
    requires
        call_ensures(AuthBackend::request_browser_proof, (&backend, context), r),
    ensures
        r.url@ == backend.base_url@ + "/api/auth/browser-proof/internal"@,
        same_text(r.body.origin, context.origin),
        same_text(r.body.referer, context.referer),
        same_text(r.body.host, context.host),
{
    let view = context@;
    assert(view.origin == crate::auth_common::owned_text(context.origin));
    assert(view.referer == crate::auth_common::owned_text(context.referer));
    assert(view.host == crate::auth_common::owned_text(context.host));
}

/// A step follows from the credentials: the first of bearer token, API credential and
/// browser proof is verified, with the context as it is, at the verify endpoint; without
/// any of them a GET or HEAD asks for a proof, and any other request is forbidden.
pub proof fn law_chosen_step(
    backend: AuthBackend,
    context: AuthRequestContext,
    bearer_token: Option<&str>,
    api_credential: Option<(&'static str, &str)>,
    browser_proof: Option<&str>,
    step: AuthStep,
)
    requires
        call_ensures(
            crate::auth::choose_step,
            (&backend, context, bearer_token, api_credential, browser_proof),
            step,
        ),
    ensures
        step matches AuthStep::Verify(_, call) ==> call.url@ == backend.base_url@
            + "/api/auth/verify/internal"@ && same_context(call.context, context),
        step is Verify <==> bearer_token is Some || api_credential is Some || browser_proof is Some,
        bearer_token matches Some(token) ==> (step matches AuthStep::Verify(kind, call) && kind
            == CredentialKind::Bearer && call.header_name@ == "authorization"@
            && call.header_value@ == "Bearer "@ + token@),
        bearer_token is None ==> (api_credential matches Some(credential) ==> (
        step matches AuthStep::Verify(kind, call) && kind == CredentialKind::Api
            && call.header_name@ == credential.0@ && call.header_value@ == credential.1@)),
        bearer_token is None && api_credential is None ==> (browser_proof matches Some(text) ==> (
        step matches AuthStep::Verify(kind, call) && kind == CredentialKind::BrowserProof
            && call.header_name@ == "x-browser-proof"@ && call.header_value@ == text@)),
        step is RequestProof <==> step !is Verify && (context.method@ == "GET"@ || context.method@
            == "HEAD"@),
        step matches AuthStep::RequestProof(call) ==> call.url@ == backend.base_url@
            + "/api/auth/browser-proof/internal"@ && same_text(
            call.body.origin,
            context.origin,
        ) && same_text(call.body.referer, context.referer) && same_text(
            call.body.host,
            context.host,
        ),
        step matches AuthStep::Done(decision) ==> is_rejection(
            decision,
            403,
            "API credential or browser proof required"@,
        ),
{
    let view = context@;
    assert(view.method == context.method@);
    assert(view.origin == crate::auth_common::owned_text(context.origin));
    assert(view.referer == crate::auth_common::owned_text(context.referer));
    assert(view.host == crate::auth_common::owned_text(context.host));
    match step {
        AuthStep::Verify(_, call) => {
            assert(call.context@ == context@);
            lemma_same_context(call.context, context);
        },
        AuthStep::RequestProof(_) => {},
        AuthStep::Done(decision) => {
            lemma_rejection(decision, 403, "API credential or browser proof required"@);
        },
    }
}

/// Whether a decision rejects a request with a status and a message.
pub open spec fn is_rejection(decision: AuthDecision, status: u16, message: Seq<char>) -> bool {
    decision matches AuthDecision::Reject(rejection) && rejection.status == status
        && rejection.message@ == message
}

proof fn lemma_rejection(decision: AuthDecision, status: u16, message: Seq<char>)
    requires
        decision@ == crate::auth::Verdict::Reject(crate::auth::Rejection { message, status }),
    ensures
        is_rejection(decision, status, message),
{
    match decision {
        AuthDecision::Allow(_) => {},
        AuthDecision::Bootstrap(_) => {},
        AuthDecision::Reject(rejection) => {
            let view = rejection@;
            assert(view.message == message && view.status == status);
        },
    }
}

/// A request's credential is verified in the very header in which the client sent it: the
/// bearer token before the API credential, and that before the browser proof, all at the
/// verify endpoint and with what is told of the request. Without any of them a GET or HEAD
/// asks the proof endpoint for a proof, and any other request is forbidden.
pub proof fn law_authorized_request(
    backend: AuthBackend,
    method: Method,
    uri: Uri,
    headers: HeaderMap,
    step: AuthStep,
)
    requires
        call_ensures(crate::auth::authorize_request, (&backend, &method, &uri, &headers), step),
    ensures
        step matches AuthStep::Verify(_, call) ==> {
            &&& call.url@ == backend.base_url@ + "/api/auth/verify/internal"@
            &&& crate::http::header_text(headers, call.header_name@) == Some(call.header_value@)
            &&& call.context.method@ == crate::http::method_name(method)
            &&& crate::http::uri_path_and_query(uri) matches Some(path) ==> call.context.path@
                == path
            &&& crate::http::uri_path_and_query(uri) is None ==> call.context.path@
                == crate::http::uri_path(uri)
            &&& tells(call.context, headers)
        },
        step matches AuthStep::Verify(kind, call) ==> call.header_name@ == (match kind {
            CredentialKind::Bearer => "authorization"@,
            CredentialKind::Api => "x-api-token"@,
            CredentialKind::BrowserProof => "x-browser-proof"@,
        }),
        has_bearer(headers) <==> (step matches AuthStep::Verify(kind, _) && kind
            == CredentialKind::Bearer),
        !has_bearer(headers) && crate::http::header_text(headers, "x-api-token"@) is Some <==> (
        step matches AuthStep::Verify(kind, _) && kind == CredentialKind::Api),
        !has_bearer(headers) && crate::http::header_text(headers, "x-api-token"@) is None
            && crate::http::header_text(headers, "x-browser-proof"@) is Some <==> (
        step matches AuthStep::Verify(kind, _) && kind == CredentialKind::BrowserProof),
        step is RequestProof <==> step !is Verify && (crate::http::method_name(method) == "GET"@
            || crate::http::method_name(method) == "HEAD"@),
        step matches AuthStep::RequestProof(call) ==> {
            let origin = crate::http::header_text(headers, "origin"@);
            let referer = crate::http::header_text(headers, "referer"@);
            let forwarded = crate::http::header_text(headers, "x-forwarded-host"@);
            &&& call.url@ == backend.base_url@ + "/api/auth/browser-proof/internal"@
            &&& has_text(call.body.origin, origin)
            &&& has_text(call.body.referer, referer)
            &&& forwarded is Some ==> has_text(call.body.host, forwarded)
            &&& forwarded is None && (origin is Some || referer is Some) ==> has_text(
                call.body.host,
                crate::http::header_text(headers, "host"@),
            )
            &&& forwarded is None && origin is None && referer is None ==> call.body.host is None
        },
        step matches AuthStep::Done(decision) ==> is_rejection(
            decision,
            403,
            "API credential or browser proof required"@,
        ),
{
    let path = match crate::http::uri_path_and_query(uri) {
        Some(path) => path,
        None => crate::http::uri_path(uri),
    };
    if let Some(value) = crate::http::header_text(headers, "authorization"@) {
        if "Bearer "@.is_prefix_of(value) {
            assert(value =~= "Bearer "@ + value.skip("Bearer "@.len() as int));
        }
        if has_bearer(headers) {
            let token = choose|token: Seq<char>| value == #[trigger] ("Bearer "@ + token);
            assert("Bearer "@.is_prefix_of(value));
        }
    }
    match step {
        AuthStep::Verify(_, call) => {
            lemma_context_fields(call.context, crate::http::method_name(method), path, headers);
        },
        AuthStep::RequestProof(_) => {},
        AuthStep::Done(decision) => {
            lemma_rejection(decision, 403, "API credential or browser proof required"@);
        },
    }
}

/// Whether the `Authorization` header of a request holds a bearer token.
pub open spec fn has_bearer(headers: HeaderMap) -> bool {
    exists|token: Seq<char>|
        crate::http::header_text(headers, "authorization"@) == Some(#[trigger] ("Bearer "@ + token))
}

/// A credential that was asked about lets the request in exactly where the answer is
/// valid and, for a bearer token and a browser proof, names that kind; the request is then
/// the named user's. An API credential needs no more than a valid answer. A refused
/// credential is rejected as its kind is, and without an answer the gateway is bad.
pub proof fn law_concluded_verification(
    kind: CredentialKind,
    answer: Result<VerifyInternalResponse, BackendError>,
    r: AuthDecision,
)
    requires
        call_ensures(crate::auth::conclude_verification, (kind, answer), r),
    ensures
        r !is Bootstrap,
        r is Allow ==> answer is Ok,
        answer matches Ok(response) ==> (kind == CredentialKind::Api ==> (r is Allow
            <==> response.valid)),
        answer matches Ok(response) ==> (kind == CredentialKind::Bearer ==> (r is Allow
            <==> response.valid && response.credential is Some && response.credential->0@
            == "bearer"@)),
        answer matches Ok(response) ==> (kind == CredentialKind::BrowserProof ==> (r is Allow
            <==> response.valid && response.credential is Some && response.credential->0@
            == "browser_proof"@)),
        r matches AuthDecision::Allow(context) ==> is_named_user(answer->Ok_0, context.user_id),
        answer is Ok && r is Reject ==> (match kind {
            CredentialKind::Bearer => is_rejection(r, 401, "Invalid bearer token"@),
            CredentialKind::Api => is_rejection(r, 401, "Invalid API credential"@),
            CredentialKind::BrowserProof => is_rejection(r, 403, "Invalid browser proof"@),
        }),
        answer is Err ==> is_rejection(r, 502, "Authentication backend unavailable"@),
{
    match r {
        AuthDecision::Allow(context) => {
            assert(r@ == crate::auth::Verdict::Allow(context.user_id));
        },
        AuthDecision::Bootstrap(headers) => {
            assert(r@ == crate::auth::Verdict::Bootstrap(headers@));
        },
        AuthDecision::Reject(rejection) => {
            assert(r@ == crate::auth::Verdict::Reject(rejection@));
            if answer is Err {
                lemma_rejection(r, 502, "Authentication backend unavailable"@);
            } else {
                match kind {
                    CredentialKind::Bearer => lemma_rejection(r, 401, "Invalid bearer token"@),
                    CredentialKind::Api => lemma_rejection(r, 401, "Invalid API credential"@),
                    CredentialKind::BrowserProof => lemma_rejection(
                        r,
                        403,
                        "Invalid browser proof"@,
                    ),
                }
            }
        },
    }
}

/// An API credential is let in exactly where the answer is valid, whatever else it says.
pub proof fn law_valid_answer_lets_an_api_credential_in(response: VerifyInternalResponse)
    ensures
        crate::auth::verification_verdict(CredentialKind::Api, Ok(response)) is Allow
            <==> response.valid,
{
}

/// A request for which a proof was asked for is let in with all headers that hand it out,
/// and without them it is forbidden.
pub proof fn law_concluded_bootstrap(
    answer: Result<Vec<(&'static str, HeaderValue)>, BackendError>,
    r: AuthDecision,
)
    requires
        call_ensures(crate::auth::conclude_bootstrap, (answer,), r),
    ensures
        answer matches Ok(headers) ==> (r matches AuthDecision::Bootstrap(added) && added@
            == headers@),
        answer is Err ==> is_rejection(r, 403, "Browser proof required"@),
{
    match r {
        AuthDecision::Allow(context) => {
            assert(r@ == crate::auth::Verdict::Allow(context.user_id));
        },
        AuthDecision::Bootstrap(headers) => {
            assert(r@ == crate::auth::Verdict::Bootstrap(headers@));
        },
        AuthDecision::Reject(rejection) => {
            assert(r@ == crate::auth::Verdict::Reject(rejection@));
            if answer is Err {
                lemma_rejection(r, 403, "Browser proof required"@);
            }
        },
    }
}

} // verus!
