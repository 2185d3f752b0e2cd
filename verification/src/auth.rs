//! Authentication of ingest requests: what the backend is asked about a request,
//! and what its answer means for it.

use axum::http::{HeaderMap, HeaderValue, Method, Uri};
use uuid::Uuid;
use vstd::prelude::*;
use vstd::string::{StrSliceExecFns, StringExecFns};

use crate::auth_common::{
    collect_browser_proof_headers, extract_api_credential, extract_bearer_token,
    extract_browser_proof, request_context, AuthRequestContext, BrowserProofRequest, Credential,
    AUTHORIZATION_HEADER, BEARER_PREFIX, BROWSER_PROOF_HEADER,
};
use crate::http::{uri_path_and_query_str, uri_path_str};
use crate::text::{text_eq, trim_trailing};

verus! {

#[verifier::external_type_specification]
#[verifier::external_body]
pub struct ExUuid(uuid::Uuid);

pub const DEFAULT_BACKEND_INTERNAL_BASE: &'static str = "http://umamoe-backend:3201";

pub const VERIFY_PATH: &'static str = "/api/auth/verify/internal";

pub const BROWSER_PROOF_PATH: &'static str = "/api/auth/browser-proof/internal";

pub const STATUS_OK: u16 = 200;

pub const STATUS_UNAUTHORIZED: u16 = 401;

pub const STATUS_FORBIDDEN: u16 = 403;

pub const STATUS_BAD_GATEWAY: u16 = 502;

/// Who a request was authenticated as.
#[derive(Debug, Clone, Copy)]
pub struct AuthContext {
    pub user_id: Option<Uuid>,
}

/// The user of a request whose handler needs one.
#[derive(Debug, Clone, Copy)]
pub struct AuthenticatedUser {
    pub user_id: Uuid,
}

/// Why a request is not let in, with the HTTP status of the answer.
#[derive(Debug)]
pub struct AuthRejection {
    pub message: String,
    pub status: u16,
}

/// A rejection, its message as a text.
pub struct Rejection {
    pub message: Seq<char>,
    pub status: u16,
}

impl View for AuthRejection {
    type V = Rejection;

    open spec fn view(&self) -> Rejection {
        Rejection { message: self.message@, status: self.status }
    }
}

impl AuthRejection {
    pub fn unauthorized(message: &str) -> (r: Self)
        ensures
            r@ == (Rejection { message: message@, status: STATUS_UNAUTHORIZED }),
    {
        AuthRejection { message: message.to_owned(), status: STATUS_UNAUTHORIZED }
    }

    pub fn forbidden(message: &str) -> (r: Self)
        ensures
            r@ == (Rejection { message: message@, status: STATUS_FORBIDDEN }),
    {
        AuthRejection { message: message.to_owned(), status: STATUS_FORBIDDEN }
    }

    pub fn bad_gateway(message: &str) -> (r: Self)
        ensures
            r@ == (Rejection { message: message@, status: STATUS_BAD_GATEWAY }),
    {
        AuthRejection { message: message.to_owned(), status: STATUS_BAD_GATEWAY }
    }
}

impl AuthenticatedUser {
    /// The user of a request, from the context that its authentication left: a
    /// request without a context is unauthorized, one whose credential names no
    /// user is forbidden.
    pub fn from_request_parts(context: Option<&AuthContext>) -> (r: Result<Self, AuthRejection>)
        ensures
            match context {
                None => r matches Err(e) && e@ == (Rejection {
                    message: "Missing authentication context"@,
                    status: STATUS_UNAUTHORIZED,
                }),
                Some(c) => match c.user_id {
                    None => r matches Err(e) && e@ == (Rejection {
                        message: "Authenticated credential did not identify a user"@,
                        status: STATUS_FORBIDDEN,
                    }),
                    Some(id) => r matches Ok(user) && user.user_id == id,
                },
            },
    {
        match context {
            None => Err(AuthRejection::unauthorized("Missing authentication context")),
            Some(c) => match c.user_id {
                None => Err(
                    AuthRejection::forbidden("Authenticated credential did not identify a user"),
                ),
                Some(user_id) => Ok(AuthenticatedUser { user_id }),
            },
        }
    }
}

/// What the backend answers about a credential.
#[derive(Debug)]
pub struct VerifyInternalResponse {
    pub valid: bool,
    pub credential: Option<String>,
    pub message: Option<String>,
    pub error: Option<String>,
    pub user_id: Option<Uuid>,
    pub sub: Option<Uuid>,
    pub api_key: Option<ApiKeyVerify>,
    pub browser_proof: Option<BrowserProofVerify>,
}

/// What the backend answers about an API key.
#[derive(Debug)]
pub struct ApiKeyVerify {
    pub user_id: Uuid,
}

/// What the backend answers about a browser proof.
#[derive(Debug)]
pub struct BrowserProofVerify {
    pub user_id: Option<Uuid>,
}

impl VerifyInternalResponse {
    /// The user that an answer names: the owner of the API key, else of the browser
    /// proof, else the answer's own user, else its subject.
    pub open spec fn named_user(self) -> Option<Uuid> {
        if self.api_key is Some {
            Some(self.api_key->0.user_id)
        } else if self.browser_proof is Some && self.browser_proof->0.user_id is Some {
            self.browser_proof->0.user_id
        } else if self.user_id is Some {
            self.user_id
        } else {
            self.sub
        }
    }

    /// The answer that refuses a credential and says nothing else.
    pub open spec fn refused() -> Self {
        VerifyInternalResponse {
            valid: false,
            credential: None,
            message: None,
            error: None,
            user_id: None,
            sub: None,
            api_key: None,
            browser_proof: None,
        }
    }

    /// The user that the answer names.
    pub fn user_id(&self) -> (r: Option<Uuid>)
        ensures
            r == self.named_user(),
    {
        if let Some(api_key) = &self.api_key {
            return Some(api_key.user_id);
        }
        if let Some(browser_proof) = &self.browser_proof {
            if browser_proof.user_id.is_some() {
                return browser_proof.user_id;
            }
        }
        if self.user_id.is_some() {
            return self.user_id;
        }
        self.sub
    }

    /// The answer that refuses a credential and says nothing else.
    pub fn invalid() -> (r: Self)
        ensures
            r == Self::refused(),
    {
        VerifyInternalResponse {
            valid: false,
            credential: None,
            message: None,
            error: None,
            user_id: None,
            sub: None,
            api_key: None,
            browser_proof: None,
        }
    }
}

/// Why the backend gave no usable answer.
#[derive(Debug)]
pub enum BackendError {
    /// The request did not get through.
    Unreachable,
    /// The body of a successful answer does not parse.
    InvalidBody,
    /// The answer has a status that is no success.
    Status(u16),
}

/// Reads the backend's answer about a credential from its status and from its body,
/// where that parses. A status other than 200 is an answer all the same, and a
/// refusal where its body does not parse.
pub fn verify_response(status: u16, parsed: Option<VerifyInternalResponse>) -> (r: Result<
    VerifyInternalResponse,
    BackendError,
>)
    ensures
        r == (match parsed {
            Some(response) => Ok(response),
            None => if status != STATUS_OK {
                Ok(VerifyInternalResponse::refused())
            } else {
                Err(BackendError::InvalidBody)
            },
        }),
{
    match parsed {
        Some(response) => Ok(response),
        None => if status != STATUS_OK {
            Ok(VerifyInternalResponse::invalid())
        } else {
            Err(BackendError::InvalidBody)
        },
    }
}

/// Reads the backend's answer to a request for a browser proof from its status and
/// its headers: the headers that hand out the proof, where the status is a success.
pub fn browser_proof_response(status: u16, headers: &HeaderMap) -> (r: Result<
    Vec<(&'static str, HeaderValue)>,
    BackendError,
>)
    ensures
        match r {
            Ok(handed_out) => 200 <= status < 300 && crate::auth_common::hands_out(
                handed_out@,
                *headers,
            ),
            Err(error) => !(200 <= status < 300) && error == BackendError::Status(status),
        },
{
    let handed_out = collect_browser_proof_headers(headers);
    if 200 <= status && status < 300 {
        Ok(handed_out)
    } else {
        Err(BackendError::Status(status))
    }
}

/// The longest part of a body that is shown in a log.
pub const MAX_BODY_PREVIEW_CHARS: usize = 256;

/// The start of a body, for a log.
pub fn body_preview(body: &str) -> (r: String)
    ensures
        r@ == body@.take(
            if body@.len() <= MAX_BODY_PREVIEW_CHARS {
                body@.len() as int
            } else {
                MAX_BODY_PREVIEW_CHARS as int
            },
        ),
{
    let len: usize = body.unicode_len();
    let end: usize = if len <= MAX_BODY_PREVIEW_CHARS {
        len
    } else {
        MAX_BODY_PREVIEW_CHARS
    };
    body.substring_char(0, end).to_owned()
}

/// The context of a request, its path with the query where the URI has one.
pub open spec fn request_context_of(
    method: Method,
    uri: Uri,
    headers: HeaderMap,
) -> crate::auth_common::RequestContext {
    crate::auth_common::context_of(
        crate::http::method_name(method),
        match crate::http::uri_path_and_query(uri) {
            Some(path) => path,
            None => crate::http::uri_path(uri),
        },
        headers,
    )
}

/// Builds the context that the backend is told of a request.
pub fn build_context(method: &Method, uri: &Uri, headers: &HeaderMap) -> (r: AuthRequestContext)
    ensures
        r@ == request_context_of(*method, *uri, *headers),
{
    let path = match uri_path_and_query_str(uri) {
        Some(path) => path,
        None => uri_path_str(uri),
    };
    request_context(headers, method, path)
}

/// A call of the backend that verifies a credential: a POST of the request's context
/// with the credential in a header.
#[derive(Debug)]
pub struct VerifyCall {
    pub url: String,
    pub header_name: &'static str,
    pub header_value: String,
    pub context: AuthRequestContext,
}

/// A call of the backend that asks for a browser proof.
#[derive(Debug)]
pub struct BrowserProofCall {
    pub url: String,
    pub body: BrowserProofRequest,
}

impl VerifyCall {
    /// Whether the call posts a context to a URL with one header.
    pub open spec fn posts(
        self,
        url: Seq<char>,
        header_name: Seq<char>,
        header_value: Seq<char>,
        context: crate::auth_common::RequestContext,
    ) -> bool {
        &&& self.url@ == url
        &&& self.header_name@ == header_name
        &&& self.header_value@ == header_value
        &&& self.context@ == context
    }
}

impl BrowserProofCall {
    /// Whether the call posts where a request came from to a URL.
    pub open spec fn posts(
        self,
        url: Seq<char>,
        context: crate::auth_common::RequestContext,
    ) -> bool {
        &&& self.url@ == url
        &&& crate::auth_common::owned_text(self.body.origin) == context.origin
        &&& crate::auth_common::owned_text(self.body.referer) == context.referer
        &&& crate::auth_common::owned_text(self.body.host) == context.host
    }
}

/// Where the authentication backend is.
#[derive(Debug, Clone)]
pub struct AuthBackend {
    pub base_url: String,
}

impl AuthBackend {
    /// Configures the backend from the two environment variables that can name its
    /// base URL, the more specific one first. Slashes at the end are dropped.
    pub fn from_env(
        auth_backend_internal_base: Option<String>,
        backend_internal_base: Option<String>,
    ) -> (r: Self)
        ensures
            r.base_url@ == crate::text::without_trailing(
                match (auth_backend_internal_base, backend_internal_base) {
                    (Some(base), _) => base@,
                    (None, Some(base)) => base@,
                    (None, None) => DEFAULT_BACKEND_INTERNAL_BASE@,
                },
                '/',
            ),
    {
        let base = match auth_backend_internal_base {
            Some(base) => base,
            None => match backend_internal_base {
                Some(base) => base,
                None => DEFAULT_BACKEND_INTERNAL_BASE.to_owned(),
            },
        };
        AuthBackend { base_url: trim_trailing(base.as_str(), '/') }
    }

    /// A URL of the backend.
    fn url(&self, path: &str) -> (r: String)
        ensures
            r@ == self.base_url@ + path@,
    {
        let mut url = self.base_url.as_str().to_owned();
        url.append(path);
        url
    }

    /// The call that verifies a bearer token.
    pub fn verify_bearer_token(&self, context: AuthRequestContext, bearer_token: &str) -> (r:
        VerifyCall)
        ensures
            r.posts(
                self.base_url@ + VERIFY_PATH@,
                AUTHORIZATION_HEADER@,
                BEARER_PREFIX@ + bearer_token@,
                context@,
            ),
    {
        let mut header_value = BEARER_PREFIX.to_owned();
        header_value.append(bearer_token);
        VerifyCall {
            url: self.url(VERIFY_PATH),
            header_name: AUTHORIZATION_HEADER,
            header_value,
            context,
        }
    }

    /// The call that verifies an API credential.
    pub fn verify_api_credential(
        &self,
        context: AuthRequestContext,
        header_name: &'static str,
        value: String,
    ) -> (r: VerifyCall)
        ensures
            r.posts(self.base_url@ + VERIFY_PATH@, header_name@, value@, context@),
    {
        VerifyCall { url: self.url(VERIFY_PATH), header_name, header_value: value, context }
    }

    /// The call that verifies a browser proof.
    pub fn verify_browser_proof(&self, context: AuthRequestContext, browser_proof: &str) -> (r:
        VerifyCall)
        ensures
            r.posts(
                self.base_url@ + VERIFY_PATH@,
                BROWSER_PROOF_HEADER@,
                browser_proof@,
                context@,
            ),
    {
        VerifyCall {
            url: self.url(VERIFY_PATH),
            header_name: BROWSER_PROOF_HEADER,
            header_value: browser_proof.to_owned(),
            context,
        }
    }

    /// The call that asks for a browser proof.
    pub fn request_browser_proof(&self, context: AuthRequestContext) -> (r: BrowserProofCall)
        ensures
            r.posts(self.base_url@ + BROWSER_PROOF_PATH@, context@),
    {
        BrowserProofCall {
            url: self.url(BROWSER_PROOF_PATH),
            body: BrowserProofRequest {
                origin: context.origin,
                referer: context.referer,
                host: context.host,
            },
        }
    }
}

/// What is decided about a request.
#[derive(Debug)]
pub enum AuthDecision {
    /// It is let in with this context.
    Allow(AuthContext),
    /// It is let in without a context, and these headers are added to its answer.
    Bootstrap(Vec<(&'static str, HeaderValue)>),
    /// It is answered with this rejection.
    Reject(AuthRejection),
}

/// A decision, its headers and messages as sequences.
pub enum Verdict {
    Allow(Option<Uuid>),
    Bootstrap(Seq<(&'static str, HeaderValue)>),
    Reject(Rejection),
}

impl View for AuthDecision {
    type V = Verdict;

    open spec fn view(&self) -> Verdict {
        match self {
            AuthDecision::Allow(context) => Verdict::Allow(context.user_id),
            AuthDecision::Bootstrap(headers) => Verdict::Bootstrap(headers@),
            AuthDecision::Reject(rejection) => Verdict::Reject(rejection@),
        }
    }
}

/// The kinds of credential that the backend verifies.
#[derive(Debug, Clone, Copy, PartialEq, Eq, Structural)]
pub enum CredentialKind {
    Bearer,
    Api,
    BrowserProof,
}

/// What is to be done about a request: a call of the backend, or its answer at once.
#[derive(Debug)]
pub enum AuthStep {
    Verify(CredentialKind, VerifyCall),
    RequestProof(BrowserProofCall),
    Done(AuthDecision),
}

/// Whether a method only reads, by its name.
pub open spec fn is_safe(method: Seq<char>) -> bool {
    method == "GET"@ || method == "HEAD"@
}

/// Whether a step is the one for a request with the given context and credentials,
/// the API credential with the name of its header. A bearer token is verified before
/// an API credential, and that before a browser proof. Without any of them a request
/// that only reads leads to the request for a browser proof, and any other is
/// rejected.
pub open spec fn is_step_with(
    step: AuthStep,
    base_url: Seq<char>,
    context: crate::auth_common::RequestContext,
    bearer_token: Option<Seq<char>>,
    api_credential: Option<(Seq<char>, Seq<char>)>,
    browser_proof: Option<Seq<char>>,
) -> bool {
    let verify_url = base_url + VERIFY_PATH@;
    if let Some(token) = bearer_token {
        step matches AuthStep::Verify(kind, call) && kind == CredentialKind::Bearer && call.posts(
            verify_url,
            AUTHORIZATION_HEADER@,
            BEARER_PREFIX@ + token,
            context,
        )
    } else if let Some((header_name, value)) = api_credential {
        step matches AuthStep::Verify(kind, call) && kind == CredentialKind::Api && call.posts(
            verify_url,
            header_name,
            value,
            context,
        )
    } else if let Some(proof) = browser_proof {
        step matches AuthStep::Verify(kind, call) && kind == CredentialKind::BrowserProof
            && call.posts(verify_url, BROWSER_PROOF_HEADER@, proof, context)
    } else if is_safe(context.method) {
        step matches AuthStep::RequestProof(call) && call.posts(
            base_url + BROWSER_PROOF_PATH@,
            context,
        )
    } else {
        step matches AuthStep::Done(decision) && decision@ == Verdict::Reject(
            Rejection {
                message: "API credential or browser proof required"@,
                status: STATUS_FORBIDDEN,
            },
        )
    }
}

/// Whether a step is the one for a request, by the credentials in its headers.
pub open spec fn is_step_for(
    step: AuthStep,
    backend: AuthBackend,
    method: Method,
    uri: Uri,
    headers: HeaderMap,
) -> bool {
    is_step_with(
        step,
        backend.base_url@,
        request_context_of(method, uri, headers),
        crate::auth_common::bearer_token(headers),
        match crate::auth_common::api_token(headers) {
            Some(value) => Some((crate::auth_common::API_TOKEN_HEADER@, value)),
            None => None,
        },
        crate::auth_common::browser_proof(headers),
    )
}

/// Decides what is to be done about a request with the given context and
/// credentials, the API credential with the name of its header.
pub fn choose_step(
    backend: &AuthBackend,
    context: AuthRequestContext,
    bearer_token: Option<&str>,
    api_credential: Option<(&'static str, &str)>,
    browser_proof: Option<&str>,
) -> (r: AuthStep)
    ensures
        is_step_with(
            r,
            backend.base_url@,
            context@,
            crate::text::optional_text(bearer_token),
            match api_credential {
                Some((header_name, value)) => Some((header_name@, value@)),
                None => None,
            },
            crate::text::optional_text(browser_proof),
        ),
{
    if let Some(bearer_token) = bearer_token {
        return AuthStep::Verify(
            CredentialKind::Bearer,
            backend.verify_bearer_token(context, bearer_token),
        );
    }
    if let Some((header_name, value)) = api_credential {
        return AuthStep::Verify(
            CredentialKind::Api,
            backend.verify_api_credential(context, header_name, value.to_owned()),
        );
    }
    if let Some(browser_proof) = browser_proof {
        return AuthStep::Verify(
            CredentialKind::BrowserProof,
            backend.verify_browser_proof(context, browser_proof),
        );
    }
    if text_eq(context.method.as_str(), "GET") || text_eq(context.method.as_str(), "HEAD") {
        return AuthStep::RequestProof(backend.request_browser_proof(context));
    }
    AuthStep::Done(
        AuthDecision::Reject(AuthRejection::forbidden("API credential or browser proof required")),
    )
}

/// Decides what is to be done about a request, from the credentials in its headers.
pub fn authorize_request(
    backend: &AuthBackend,
    method: &Method,
    uri: &Uri,
    headers: &HeaderMap,
) -> (r: AuthStep)
    ensures
        is_step_for(r, *backend, *method, *uri, *headers),
{
    let context = build_context(method, uri, headers);
    let api_credential = match extract_api_credential(headers) {
        Some(Credential::ApiCredential { header_name, value }) => Some((header_name, value)),
        _ => None,
    };
    choose_step(
        backend,
        context,
        extract_bearer_token(headers),
        api_credential,
        extract_browser_proof(headers),
    )
}

/// Whether the backend's answer lets a credential of a kind in. An answer about a
/// bearer token or a browser proof has to name that kind.
pub open spec fn accepts(kind: CredentialKind, response: VerifyInternalResponse) -> bool {
    response.valid && match kind {
        CredentialKind::Bearer => response.credential matches Some(c) && c@ == "bearer"@,
        CredentialKind::Api => true,
        CredentialKind::BrowserProof => response.credential matches Some(c) && c@
            == "browser_proof"@,
    }
}

/// How a credential of a kind is rejected that the backend does not accept.
pub open spec fn rejection_of(kind: CredentialKind) -> Rejection {
    match kind {
        CredentialKind::Bearer => Rejection {
            message: "Invalid bearer token"@,
            status: STATUS_UNAUTHORIZED,
        },
        CredentialKind::Api => Rejection {
            message: "Invalid API credential"@,
            status: STATUS_UNAUTHORIZED,
        },
        CredentialKind::BrowserProof => Rejection {
            message: "Invalid browser proof"@,
            status: STATUS_FORBIDDEN,
        },
    }
}

/// What the backend's answer about a credential means for the request.
pub open spec fn verification_verdict(
    kind: CredentialKind,
    answer: Result<VerifyInternalResponse, BackendError>,
) -> Verdict {
    match answer {
        Ok(response) => if accepts(kind, response) {
            Verdict::Allow(response.named_user())
        } else {
            Verdict::Reject(rejection_of(kind))
        },
        Err(_) => Verdict::Reject(
            Rejection {
                message: "Authentication backend unavailable"@,
                status: STATUS_BAD_GATEWAY,
            },
        ),
    }
}

/// Whether an answer names a kind of credential.
fn names_credential(response: &VerifyInternalResponse, name: &str) -> (r: bool)
    ensures
        r == (response.credential matches Some(c) && c@ == name@),
{
    match &response.credential {
        Some(credential) => text_eq(credential.as_str(), name),
        None => false,
    }
}

/// Decides about a request whose credential the backend was asked about.
pub fn conclude_verification(
    kind: CredentialKind,
    answer: Result<VerifyInternalResponse, BackendError>,
) -> (r: AuthDecision)
    ensures
        r@ == verification_verdict(kind, answer),
{
    let response = match answer {
        Ok(response) => response,
        Err(_) => {
            return AuthDecision::Reject(
                AuthRejection::bad_gateway("Authentication backend unavailable"),
            );
        },
    };
    let accepted = response.valid && match kind {
        CredentialKind::Bearer => names_credential(&response, "bearer"),
        CredentialKind::Api => true,
        CredentialKind::BrowserProof => names_credential(&response, "browser_proof"),
    };
    if accepted {
        return AuthDecision::Allow(AuthContext { user_id: response.user_id() });
    }
    AuthDecision::Reject(
        match kind {
            CredentialKind::Bearer => AuthRejection::unauthorized("Invalid bearer token"),
            CredentialKind::Api => AuthRejection::unauthorized("Invalid API credential"),
            CredentialKind::BrowserProof => AuthRejection::forbidden("Invalid browser proof"),
        },
    )
}

/// Decides about a request for which a browser proof was asked for.
pub fn conclude_bootstrap(
    answer: Result<Vec<(&'static str, HeaderValue)>, BackendError>,
) -> (r: AuthDecision)
    ensures
        r@ == (match answer {
            Ok(headers) => Verdict::Bootstrap(headers@),
            Err(_) => Verdict::Reject(
                Rejection { message: "Browser proof required"@, status: STATUS_FORBIDDEN },
            ),
        }),
{
    match answer {
        Ok(headers) => AuthDecision::Bootstrap(headers),
        Err(_) => AuthDecision::Reject(AuthRejection::forbidden("Browser proof required")),
    }
}

/// A credential lets a request in exactly where the backend answered and accepts it,
/// and the request is then the named user's.
pub proof fn law_only_an_accepting_answer_allows(
    kind: CredentialKind,
    answer: Result<VerifyInternalResponse, BackendError>,
    user: Option<Uuid>,
)
    ensures
        verification_verdict(kind, answer) == Verdict::Allow(user) <==> (answer matches Ok(response)
            && accepts(kind, response) && response.named_user() == user),
        verification_verdict(kind, answer) !is Bootstrap,
{
}

/// Without a usable answer of the backend no credential of any kind lets a request in:
/// a call that fails is a bad gateway, and an answer that is no success and does not
/// parse rejects the credential.
pub proof fn law_no_answer_no_entry(kind: CredentialKind, error: BackendError)
    ensures
        verification_verdict(kind, Err(error)) == Verdict::Reject(
            Rejection {
                message: "Authentication backend unavailable"@,
                status: STATUS_BAD_GATEWAY,
            },
        ),
        verification_verdict(kind, Ok(VerifyInternalResponse::refused())) == Verdict::Reject(
            rejection_of(kind),
        ),
{
}

/// No request is let in at once: each step is a call of the backend or a rejection.
/// A request without any credential is never verified; one that writes is rejected,
/// and only one that reads leads to the request for a browser proof.
pub proof fn law_no_credential_no_write(
    step: AuthStep,
    backend: AuthBackend,
    method: Method,
    uri: Uri,
    headers: HeaderMap,
)
    requires
        is_step_for(step, backend, method, uri, headers),
    ensures
        step matches AuthStep::Done(decision) ==> decision@ is Reject,
        step is Verify <==> crate::auth_common::bearer_token(headers) is Some
            || crate::auth_common::api_token(headers) is Some
            || crate::auth_common::browser_proof(headers) is Some,
        step is RequestProof ==> is_safe(crate::http::method_name(method)),
        step is Done ==> !is_safe(crate::http::method_name(method)),
{
}

/// The backend sees a bearer token in the very header in which the client sent it.
pub proof fn law_bearer_header_is_forwarded(
    step: AuthStep,
    backend: AuthBackend,
    method: Method,
    uri: Uri,
    headers: HeaderMap,
)
    requires
        is_step_for(step, backend, method, uri, headers),
        crate::auth_common::bearer_token(headers) is Some,
    ensures
        step matches AuthStep::Verify(_, call) && call.header_name@ == AUTHORIZATION_HEADER@ && Some(
            call.header_value@,
        ) == crate::http::header_text(headers, AUTHORIZATION_HEADER@),
{
    let value = crate::http::header_text(headers, AUTHORIZATION_HEADER@)->0;
    assert(BEARER_PREFIX@ + value.skip(BEARER_PREFIX@.len() as int) =~= value);
}

} // verus!
