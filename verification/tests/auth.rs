use axum::http::{HeaderMap, HeaderValue, Method, Uri};
use umamoe_ingest::auth::{
    authorize_request, body_preview, browser_proof_response, build_context, choose_step,
    conclude_bootstrap, conclude_verification, verify_response, ApiKeyVerify, AuthBackend, AuthContext, AuthDecision,
    AuthRejection, AuthStep, AuthenticatedUser, BackendError, BrowserProofVerify, CredentialKind,
    VerifyCall, VerifyInternalResponse,
};
use umamoe_ingest::auth_common;
use uuid::Uuid;

#[test]
fn extracts_bearer_token() {
    let mut headers = HeaderMap::new();
    headers.insert(
        "Authorization",
        HeaderValue::from_static("Bearer user-session-token"),
    );

    assert_eq!(
        auth_common::extract_bearer_token(&headers),
        Some("user-session-token")
    );
}

#[test]
fn build_context_uses_public_forwarded_host_and_tracks_api_usage() {
    let mut headers = HeaderMap::new();
    headers.insert("X-API-Token", HeaderValue::from_static("uma_t_test"));
    headers.insert("X-Forwarded-Host", HeaderValue::from_static("uma.moe"));
    headers.insert("Host", HeaderValue::from_static("umamoe-ingest"));

    let context = build_context(
        &Method::POST,
        &Uri::from_static("/ingest/veteran?source=frontend"),
        &headers,
    );

    assert_eq!(context.method, "POST");
    assert_eq!(context.path, "/ingest/veteran?source=frontend");
    assert_eq!(context.host.as_deref(), Some("uma.moe"));
    assert_eq!(context.record_usage, Some(true));
}

#[test]
fn build_context_omits_internal_host_without_browser_context() {
    let mut headers = HeaderMap::new();
    headers.insert("Host", HeaderValue::from_static("umamoe-ingest"));

    let context = build_context(
        &Method::POST,
        &Uri::from_static("/ingest/veteran"),
        &headers,
    );

    assert_eq!(context.origin, None);
    assert_eq!(context.referer, None);
    assert_eq!(context.host, None);
    assert_eq!(context.record_usage, None);
}

#[test]
fn build_context_takes_the_host_of_a_browser_request() {
    let mut headers = HeaderMap::new();
    headers.insert("Host", HeaderValue::from_static("uma.moe"));
    headers.insert("Origin", HeaderValue::from_static("https://uma.moe"));
    let context = build_context(&Method::GET, &Uri::from_static("/x"), &headers);
    assert_eq!(context.origin.as_deref(), Some("https://uma.moe"));
    assert_eq!(context.referer, None);
    assert_eq!(context.host.as_deref(), Some("uma.moe"));

    headers.remove("Origin");
    headers.insert("Referer", HeaderValue::from_static("https://uma.moe/list"));
    let context = build_context(&Method::GET, &Uri::from_static("/x"), &headers);
    assert_eq!(context.origin, None);
    assert_eq!(context.referer.as_deref(), Some("https://uma.moe/list"));
    assert_eq!(context.host.as_deref(), Some("uma.moe"));
}

#[test]
fn build_context_takes_the_path_of_a_uri_without_path_and_query() {
    let uri: Uri = "uma.moe:443".parse().unwrap();
    assert!(uri.path_and_query().is_none());
    let context = build_context(&Method::CONNECT, &uri, &HeaderMap::new());
    assert_eq!(context.method, "CONNECT");
    assert_eq!(context.path, uri.path());
}

#[test]
fn an_authorization_without_bearer_is_no_bearer_token() {
    let mut headers = HeaderMap::new();
    assert_eq!(auth_common::extract_bearer_token(&headers), None);
    headers.insert("Authorization", HeaderValue::from_static("Basic abc"));
    assert_eq!(auth_common::extract_bearer_token(&headers), None);
    headers.insert("Authorization", HeaderValue::from_static("Bear"));
    assert_eq!(auth_common::extract_bearer_token(&headers), None);
}

#[test]
fn a_header_value_that_is_no_text_is_not_read() {
    let mut headers = HeaderMap::new();
    headers.insert("X-API-Token", HeaderValue::from_bytes(b"ab\xff").unwrap());
    headers.append("X-API-Token", HeaderValue::from_static("second"));
    assert!(auth_common::extract_api_credential(&headers).is_none());
}

#[test]
fn the_first_value_of_a_header_is_read() {
    let mut headers = HeaderMap::new();
    headers.append("X-Browser-Proof", HeaderValue::from_static("one\ttwo"));
    headers.append("X-Browser-Proof", HeaderValue::from_static("three"));
    assert_eq!(
        auth_common::extract_browser_proof(&headers),
        Some("one\ttwo")
    );
}

#[test]
fn extracts_an_api_credential_with_its_header() {
    let mut headers = HeaderMap::new();
    headers.insert("X-API-Token", HeaderValue::from_static("uma_t_test"));
    match auth_common::extract_api_credential(&headers) {
        Some(auth_common::Credential::ApiCredential { header_name, value }) => {
            assert_eq!(header_name, "x-api-token");
            assert_eq!(value, "uma_t_test");
        }
        _ => panic!("no API credential"),
    }
}

#[test]
fn collects_the_browser_proof_headers() {
    let mut headers = HeaderMap::new();
    headers.append("X-Browser-Proof", HeaderValue::from_static("one"));
    headers.append("Content-Type", HeaderValue::from_static("text/plain"));
    headers.append("X-Browser-Proof", HeaderValue::from_static("two"));
    let handed_out = auth_common::collect_browser_proof_headers(&headers);
    assert_eq!(
        handed_out,
        vec![
            ("x-browser-proof", HeaderValue::from_static("one")),
            ("x-browser-proof", HeaderValue::from_static("two")),
        ]
    );
    assert!(auth_common::collect_browser_proof_headers(&HeaderMap::new()).is_empty());
}

fn backend() -> AuthBackend {
    AuthBackend::from_env(Some("http://auth:1/".to_string()), None)
}

#[test]
fn the_backend_base_comes_from_the_more_specific_variable() {
    let both = AuthBackend::from_env(Some("http://a//".to_string()), Some("http://b".to_string()));
    assert_eq!(both.base_url, "http://a");
    let one = AuthBackend::from_env(None, Some("http://b/x/".to_string()));
    assert_eq!(one.base_url, "http://b/x");
    let none = AuthBackend::from_env(None, None);
    assert_eq!(none.base_url, "http://umamoe-backend:3201");
    let slashes = AuthBackend::from_env(Some("///".to_string()), None);
    assert_eq!(slashes.base_url, "");
}

fn step(method: Method, names: &[(&'static str, &'static str)]) -> AuthStep {
    let mut headers = HeaderMap::new();
    for (name, value) in names {
        headers.insert(*name, HeaderValue::from_static(value));
    }
    authorize_request(
        &backend(),
        &method,
        &Uri::from_static("/ingest/veteran?a=b"),
        &headers,
    )
}

fn verify(step: AuthStep) -> (CredentialKind, VerifyCall) {
    match step {
        AuthStep::Verify(kind, call) => (kind, call),
        other => panic!("{:?}", other),
    }
}

#[test]
fn a_bearer_token_is_verified_first() {
    let (kind, call) = verify(step(
        Method::POST,
        &[
            ("authorization", "Bearer t0ken"),
            ("x-api-token", "uma"),
            ("x-browser-proof", "proof"),
        ],
    ));
    assert_eq!(kind, CredentialKind::Bearer);
    assert_eq!(call.url, "http://auth:1/api/auth/verify/internal");
    assert_eq!(call.header_name, "authorization");
    assert_eq!(call.header_value, "Bearer t0ken");
    assert_eq!(call.context.method, "POST");
    assert_eq!(call.context.path, "/ingest/veteran?a=b");
    assert_eq!(call.context.record_usage, Some(true));
}

#[test]
fn an_api_credential_is_verified_before_a_browser_proof() {
    let (kind, call) = verify(step(
        Method::POST,
        &[
            ("authorization", "Basic x"),
            ("x-api-token", "uma"),
            ("x-browser-proof", "proof"),
        ],
    ));
    assert_eq!(kind, CredentialKind::Api);
    assert_eq!(call.url, "http://auth:1/api/auth/verify/internal");
    assert_eq!(call.header_name, "x-api-token");
    assert_eq!(call.header_value, "uma");
}

#[test]
fn a_browser_proof_is_verified() {
    let (kind, call) = verify(step(Method::GET, &[("x-browser-proof", "proof")]));
    assert_eq!(kind, CredentialKind::BrowserProof);
    assert_eq!(call.header_name, "x-browser-proof");
    assert_eq!(call.header_value, "proof");
    assert_eq!(call.context.record_usage, None);
}

#[test]
fn a_reading_request_without_credential_asks_for_a_browser_proof() {
    for method in [Method::GET, Method::HEAD] {
        match step(method, &[("origin", "https://uma.moe"), ("host", "uma.moe")]) {
            AuthStep::RequestProof(call) => {
                assert_eq!(call.url, "http://auth:1/api/auth/browser-proof/internal");
                assert_eq!(call.body.origin.as_deref(), Some("https://uma.moe"));
                assert_eq!(call.body.referer, None);
                assert_eq!(call.body.host.as_deref(), Some("uma.moe"));
            }
            other => panic!("{:?}", other),
        }
    }
}

fn rejection(decision: AuthDecision) -> (u16, String) {
    match decision {
        AuthDecision::Reject(AuthRejection { message, status }) => (status, message),
        other => panic!("{:?}", other),
    }
}

#[test]
fn a_writing_request_without_credential_is_rejected() {
    for method in [Method::POST, Method::PUT, Method::DELETE, Method::OPTIONS] {
        match step(method, &[("origin", "https://uma.moe")]) {
            AuthStep::Done(decision) => assert_eq!(
                rejection(decision),
                (403, "API credential or browser proof required".to_string())
            ),
            other => panic!("{:?}", other),
        }
    }
}

fn answer(valid: bool, credential: Option<&str>) -> VerifyInternalResponse {
    let mut response = VerifyInternalResponse::invalid();
    response.valid = valid;
    response.credential = credential.map(|c| c.to_string());
    response.user_id = Some(Uuid::from_u128(7));
    response
}

fn allowed(decision: AuthDecision) -> Option<Uuid> {
    match decision {
        AuthDecision::Allow(context) => context.user_id,
        other => panic!("{:?}", other),
    }
}

#[test]
fn an_accepted_credential_lets_the_request_in() {
    let user = Some(Uuid::from_u128(7));
    assert_eq!(
        allowed(conclude_verification(
            CredentialKind::Bearer,
            Ok(answer(true, Some("bearer")))
        )),
        user
    );
    assert_eq!(
        allowed(conclude_verification(CredentialKind::Api, Ok(answer(true, None)))),
        user
    );
    assert_eq!(
        allowed(conclude_verification(
            CredentialKind::BrowserProof,
            Ok(answer(true, Some("browser_proof")))
        )),
        user
    );
}

#[test]
fn a_refused_credential_is_rejected() {
    let refused = [
        (CredentialKind::Bearer, answer(false, Some("bearer"))),
        (CredentialKind::Bearer, answer(true, Some("api_key"))),
        (CredentialKind::Bearer, answer(true, None)),
    ];
    for (kind, response) in refused {
        assert_eq!(
            rejection(conclude_verification(kind, Ok(response))),
            (401, "Invalid bearer token".to_string())
        );
    }
    assert_eq!(
        rejection(conclude_verification(CredentialKind::Api, Ok(answer(false, None)))),
        (401, "Invalid API credential".to_string())
    );
    assert_eq!(
        rejection(conclude_verification(
            CredentialKind::BrowserProof,
            Ok(answer(true, Some("bearer")))
        )),
        (403, "Invalid browser proof".to_string())
    );
}

#[test]
fn a_backend_that_fails_is_a_bad_gateway() {
    for kind in [
        CredentialKind::Bearer,
        CredentialKind::Api,
        CredentialKind::BrowserProof,
    ] {
        for error in [BackendError::Unreachable, BackendError::InvalidBody] {
            assert_eq!(
                rejection(conclude_verification(kind, Err(error))),
                (502, "Authentication backend unavailable".to_string())
            );
        }
    }
}

#[test]
fn a_browser_proof_is_handed_out() {
    let mut headers = HeaderMap::new();
    headers.append("X-Browser-Proof", HeaderValue::from_static("one"));
    let handed_out = browser_proof_response(204, &headers).unwrap();
    match conclude_bootstrap(Ok(handed_out)) {
        AuthDecision::Bootstrap(handed_out) => assert_eq!(
            handed_out,
            vec![("x-browser-proof", HeaderValue::from_static("one"))]
        ),
        other => panic!("{:?}", other),
    }
}

#[test]
fn without_a_browser_proof_a_request_is_rejected() {
    for status in [199, 300, 404, 500] {
        let answer = browser_proof_response(status, &HeaderMap::new());
        assert!(matches!(answer, Err(BackendError::Status(s)) if s == status));
        assert_eq!(
            rejection(conclude_bootstrap(answer)),
            (403, "Browser proof required".to_string())
        );
    }
}

#[test]
fn the_named_user_is_the_most_specific_one() {
    let mut response = VerifyInternalResponse::invalid();
    assert_eq!(response.user_id(), None);
    response.sub = Some(Uuid::from_u128(1));
    assert_eq!(response.user_id(), Some(Uuid::from_u128(1)));
    response.user_id = Some(Uuid::from_u128(2));
    assert_eq!(response.user_id(), Some(Uuid::from_u128(2)));
    response.browser_proof = Some(BrowserProofVerify { user_id: None });
    assert_eq!(response.user_id(), Some(Uuid::from_u128(2)));
    response.browser_proof = Some(BrowserProofVerify { user_id: Some(Uuid::from_u128(3)) });
    assert_eq!(response.user_id(), Some(Uuid::from_u128(3)));
    response.api_key = Some(ApiKeyVerify { user_id: Uuid::from_u128(4) });
    assert_eq!(response.user_id(), Some(Uuid::from_u128(4)));
}

#[test]
fn an_answer_is_read_whatever_its_status() {
    let read = verify_response(401, Some(answer(true, Some("bearer")))).unwrap();
    assert!(read.valid);
    assert_eq!(read.credential.as_deref(), Some("bearer"));

    let refused = verify_response(503, None).unwrap();
    assert!(!refused.valid);
    assert_eq!(refused.credential, None);
    assert_eq!(refused.user_id(), None);

    assert!(verify_response(200, Some(answer(false, None))).is_ok());
    assert!(matches!(verify_response(200, None), Err(BackendError::InvalidBody)));
}

#[test]
fn a_handler_gets_the_user_of_the_context() {
    let context = AuthContext { user_id: Some(Uuid::from_u128(9)) };
    let user = AuthenticatedUser::from_request_parts(Some(&context)).unwrap();
    assert_eq!(user.user_id, Uuid::from_u128(9));

    let missing = AuthenticatedUser::from_request_parts(None).unwrap_err();
    assert_eq!(missing.status, 401);
    assert_eq!(missing.message, "Missing authentication context");

    let nobody = AuthContext { user_id: None };
    let forbidden = AuthenticatedUser::from_request_parts(Some(&nobody)).unwrap_err();
    assert_eq!(forbidden.status, 403);
    assert_eq!(
        forbidden.message,
        "Authenticated credential did not identify a user"
    );
}

#[test]
fn a_body_preview_counts_characters() {
    assert_eq!(body_preview(""), "");
    assert_eq!(body_preview("short"), "short");
    let long = "\u{99ac}".repeat(300);
    assert_eq!(body_preview(&long), "\u{99ac}".repeat(256));
    let exact = "x".repeat(256);
    assert_eq!(body_preview(&exact), exact);
}

#[test]
fn a_step_follows_from_the_credentials() {
    let context = || build_context(&Method::POST, &Uri::from_static("/x"), &HeaderMap::new());
    let (kind, call) = verify(choose_step(&backend(), context(), Some("t"), Some(("k", "v")), None));
    assert_eq!(kind, CredentialKind::Bearer);
    assert_eq!(call.header_value, "Bearer t");
    let (kind, call) = verify(choose_step(&backend(), context(), None, Some(("k", "v")), Some("p")));
    assert_eq!(kind, CredentialKind::Api);
    assert_eq!((call.header_name, call.header_value.as_str()), ("k", "v"));
    let (kind, call) = verify(choose_step(&backend(), context(), None, None, Some("p")));
    assert_eq!(kind, CredentialKind::BrowserProof);
    assert_eq!(call.header_value, "p");
    assert!(matches!(
        choose_step(&backend(), context(), None, None, None),
        AuthStep::Done(AuthDecision::Reject(_))
    ));
}

#[test]
fn the_public_host_is_chosen() {
    let host = Some("inside");
    assert_eq!(
        auth_common::choose_host(None, None, Some("outside"), host),
        Some("outside")
    );
    assert_eq!(
        auth_common::choose_host(Some("o"), None, Some("outside"), host),
        Some("outside")
    );
    assert_eq!(auth_common::choose_host(Some("o"), None, None, host), host);
    assert_eq!(auth_common::choose_host(None, Some("r"), None, host), host);
    assert_eq!(auth_common::choose_host(None, None, None, host), None);
}
