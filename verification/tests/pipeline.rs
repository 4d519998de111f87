use authgateway::authenticator::AllowAll;
use authgateway::authenticator::Authenticator;
use authgateway::authenticator::IdentityHeaders;
use authgateway::config::AuthenticatorBackend;
use authgateway::config::AuthenticatorConfig;
use authgateway::config::OAuth2ProxyConfig;
use authgateway::config::OAuth2ProxyUserIdSourceHeader;
use authgateway::context::AuthenticationContext;
use authgateway::context::RequestContext;
use authgateway::context::RequestProtocol;
use authgateway::engine::RulesEngine;
use authgateway::errors::InvalidAuthRequest;
use authgateway::headers::Headers;
use authgateway::models::AuditReason;
use authgateway::models::AuthenticationResult;
use authgateway::models::AuthenticationStatus;
use authgateway::oauth2::OAuth2Proxy;
use authgateway::oauth2::OAuth2ProxyFactory;
use authgateway::rules::EnrichResponseRule;
use authgateway::rules::PreAuthRule;
use authgateway::rules::RuleAction;
use authgateway::rules::RuleMatches;
use authgateway::rules::RuleSessionMatches;
use authgateway::server::build_response;

fn raw_request(headers: &[(&str, &str)]) -> Vec<(String, Option<String>)> {
    headers
        .iter()
        .map(|(name, value)| (name.to_string(), Some(value.to_string())))
        .collect()
}

fn standard_request() -> Vec<(String, Option<String>)> {
    raw_request(&[("host", "a"), ("x-forwarded-proto", "https"), ("x-original-uri", "/")])
}

fn authenticator_with_rules(engine: RulesEngine) -> Authenticator {
    Authenticator {
        headers: IdentityHeaders {
            user_id: "x-auth-request-user".to_string(),
        },
        rules: engine,
    }
}

fn bare_matches() -> RuleMatches {
    RuleMatches {
        any: false,
        domain: Vec::new(),
        header_equal: Vec::new(),
        uri: Vec::new(),
    }
}

#[test]
fn bad_request_without_host() {
    let raw = raw_request(&[("x-forwarded-proto", "https"), ("x-original-uri", "/")]);
    let error = RequestContext::from_request(&raw).unwrap_err();
    assert_eq!(error, InvalidAuthRequest::NoHost);
    assert_eq!(error.status_code(), 400);
    assert_eq!(error.message().as_str(), "Required Host header is missing");
}

#[test]
fn bad_request_without_protocol() {
    let raw = raw_request(&[("host", "domain.example.com")]);
    let error = RequestContext::from_request(&raw).unwrap_err();
    assert_eq!(error, InvalidAuthRequest::NoProtocol);
    assert_eq!(error.message().as_str(), "Required X-Forwarded-Proto header is missing");
}

#[test]
fn bad_request_without_uri() {
    let raw = raw_request(&[("host", "domain.example.com"), ("x-forwarded-proto", "https")]);
    let error = RequestContext::from_request(&raw).unwrap_err();
    assert_eq!(error, InvalidAuthRequest::NoUri);
    assert_eq!(error.message().as_str(), "Required X-Original-URI header is missing");
}

#[test]
fn bad_request_with_non_utf8_values() {
    let mut raw = standard_request();
    raw[0].1 = None;
    let error = RequestContext::from_request(&raw).unwrap_err();
    assert_eq!(error, InvalidAuthRequest::HostNotUtf8);

    let mut raw = standard_request();
    raw[1].1 = None;
    let error = RequestContext::from_request(&raw).unwrap_err();
    assert_eq!(error, InvalidAuthRequest::ProtocolNotUtf8);

    let mut raw = standard_request();
    raw[2].1 = None;
    let error = RequestContext::from_request(&raw).unwrap_err();
    assert_eq!(error, InvalidAuthRequest::UriNotUtf8);

    let mut raw = standard_request();
    raw.push(("x-extra".to_string(), None));
    let error = RequestContext::from_request(&raw).unwrap_err();
    assert_eq!(error, InvalidAuthRequest::HeaderValueNotUtf8("x-extra".to_string()));
    assert_eq!(error.message().as_str(), "Value for header 'x-extra' is not UTF8 encoded");
}

#[test]
fn extracts_context_from_request() {
    let raw = raw_request(&[
        ("Host", "a"),
        ("X-Forwarded-Proto", "HTTPS"),
        ("X-Original-URI", "/path"),
        ("X-Other", "v"),
    ]);
    let context = RequestContext::from_request(&raw).unwrap();
    assert_eq!(context.host.as_str(), "a");
    assert_eq!(context.protocol, RequestProtocol::Https);
    assert_eq!(context.uri.as_str(), "/path");
    assert_eq!(context.headers.len(), 4);
}

#[test]
fn other_protocols_are_preserved_verbatim() {
    assert_eq!(RequestProtocol::parse("http"), RequestProtocol::Http);
    assert_eq!(RequestProtocol::parse("HTTP"), RequestProtocol::Http);
    assert_eq!(RequestProtocol::parse("wss"), RequestProtocol::Other("wss".to_string()));
    assert_eq!(RequestProtocol::parse("FTP"), RequestProtocol::Other("FTP".to_string()));
}

#[test]
fn check_allowed() {
    // Allow-all backend, no rules: the request is allowed with no headers and
    // no identity header, since no user is known.
    let raw = standard_request();
    let context = RequestContext::from_request(&raw).unwrap();
    let authenticator = authenticator_with_rules(RulesEngine::builder().build());
    let before = authenticator.check_before_backend(&context).unwrap();
    assert!(before.is_none());
    let backend = AllowAll {};
    let verdict = backend.check(&context);
    let result = authenticator.check_after_backend(&context, verdict).unwrap();
    assert_eq!(result.status, AuthenticationStatus::Allowed);
    let response = build_response(result, &authenticator.headers);
    assert_eq!(response.status, 200);
    assert_eq!(response.headers.len(), 0);
}

#[test]
fn check_identity_headers_user_id() {
    // A backend that knows the user injects the identity header on success.
    let raw = standard_request();
    let context = RequestContext::from_request(&raw).unwrap();
    let authenticator = authenticator_with_rules(RulesEngine::builder().build());
    assert!(authenticator.check_before_backend(&context).unwrap().is_none());
    let mut verdict = AuthenticationResult::allowed();
    verdict.authentication_context = AuthenticationContext {
        authenticated: true,
        user: Some("alice".to_string()),
        session: None,
    };
    let result = authenticator.check_after_backend(&context, verdict).unwrap();
    let response = build_response(result, &authenticator.headers);
    assert_eq!(response.status, 200);
    assert_eq!(response.headers.get("x-auth-request-user").unwrap().as_str(), "alice");
}

#[test]
fn check_denied() {
    let raw = standard_request();
    let context = RequestContext::from_request(&raw).unwrap();
    let authenticator = authenticator_with_rules(RulesEngine::builder().build());
    assert!(authenticator.check_before_backend(&context).unwrap().is_none());
    let result = authenticator
        .check_after_backend(&context, AuthenticationResult::denied())
        .unwrap();
    assert_eq!(result.status, AuthenticationStatus::Denied);
    assert_eq!(result.audit_reason, AuditReason::Denied);
    let response = build_response(result, &authenticator.headers);
    assert_eq!(response.status, 403);
}

#[test]
fn check_must_login() {
    // A must-login verdict passes through untouched: no post-auth override,
    // no enrichment, HTTP 401.
    let raw = standard_request();
    let context = RequestContext::from_request(&raw).unwrap();
    let engine = RulesEngine::builder()
        .rule_enrich(EnrichResponseRule {
            headers_remove: Vec::new(),
            headers_set: vec![("x-test".to_string(), "set".to_string())],
            matches: Some(RuleMatches {
                any: true,
                ..bare_matches()
            }),
            session_matches: None,
        })
        .build();
    let authenticator = authenticator_with_rules(engine);
    let verdict = AuthenticationResult::from_status(AuthenticationStatus::MustLogin);
    let result = authenticator.check_after_backend(&context, verdict).unwrap();
    assert_eq!(result.status, AuthenticationStatus::MustLogin);
    assert_eq!(result.audit_reason, AuditReason::InvalidSession);
    assert_eq!(result.headers.get("x-test"), None);
    let response = build_response(result, &authenticator.headers);
    assert_eq!(response.status, 401);
}

#[test]
fn preauth_deny_rule_sends_403_regardless_of_backend() {
    let raw = standard_request();
    let context = RequestContext::from_request(&raw).unwrap();
    let engine = RulesEngine::builder()
        .rule_preauth(PreAuthRule {
            action: RuleAction::Deny,
            matches: RuleMatches {
                domain: vec!["a".to_string()],
                ..bare_matches()
            },
        })
        .build();
    let authenticator = authenticator_with_rules(engine);
    let result = authenticator.check_before_backend(&context).unwrap().unwrap();
    assert_eq!(result.status, AuthenticationStatus::Denied);
    assert_eq!(result.audit_reason, AuditReason::PreAuthDenied);
    let response = build_response(result, &authenticator.headers);
    assert_eq!(response.status, 403);
}

#[test]
fn preauth_allow_rule_skips_backend() {
    // The pre-auth stage decides, so the backend — which would have denied —
    // is never consulted.
    let raw = standard_request();
    let context = RequestContext::from_request(&raw).unwrap();
    let engine = RulesEngine::builder()
        .rule_preauth(PreAuthRule {
            action: RuleAction::Allow,
            matches: RuleMatches {
                domain: vec!["a".to_string()],
                ..bare_matches()
            },
        })
        .build();
    let authenticator = authenticator_with_rules(engine);
    let decided = authenticator.check_before_backend(&context).unwrap();
    let result = decided.expect("pre-auth allow must decide without the backend");
    assert_eq!(result.status, AuthenticationStatus::Allowed);
    assert_eq!(result.audit_reason, AuditReason::PreAuthAllowed);
    let response = build_response(result, &authenticator.headers);
    assert_eq!(response.status, 200);
}

#[test]
fn enrich_rule_rewrites_denied_response_headers() {
    // Denied responses still pass enrichment: the matching rule removes
    // `x-remove` and sets `x-test`.
    let raw = standard_request();
    let context = RequestContext::from_request(&raw).unwrap();
    let engine = RulesEngine::builder()
        .rule_enrich(EnrichResponseRule {
            headers_remove: vec!["x-remove".to_string()],
            headers_set: vec![("x-test".to_string(), "set".to_string())],
            matches: None,
            session_matches: Some(RuleSessionMatches {
                authenticated: Some(false),
                user: Vec::new(),
            }),
        })
        .build();
    let authenticator = authenticator_with_rules(engine);
    let mut verdict = AuthenticationResult::denied();
    verdict.headers.append("X-Remove".to_string(), "v".to_string());
    let result = authenticator.check_after_backend(&context, verdict).unwrap();
    assert_eq!(result.headers.get("x-test").unwrap().as_str(), "set");
    assert_eq!(result.headers.get("x-remove"), None);
}

#[test]
fn outcome_reason_is_consistent_with_status() {
    // The status/reason consistency table holds of every pipeline outcome.
    let consistent = |result: &AuthenticationResult| match result.audit_reason {
        AuditReason::Allowed | AuditReason::PreAuthAllowed | AuditReason::PostAuthAllowed => {
            result.status == AuthenticationStatus::Allowed
        }
        AuditReason::Denied | AuditReason::PreAuthDenied | AuditReason::PostAuthDenied => {
            result.status == AuthenticationStatus::Denied
        }
        AuditReason::InvalidSession => result.status == AuthenticationStatus::MustLogin,
    };
    let raw = standard_request();
    let context = RequestContext::from_request(&raw).unwrap();
    let engine = RulesEngine::builder()
        .rule_postauth(authgateway::rules::PostAuthRule {
            action: RuleAction::Deny,
            matches: Some(RuleMatches {
                any: true,
                ..bare_matches()
            }),
            session_matches: None,
        })
        .build();
    let authenticator = authenticator_with_rules(engine);
    let overridden = authenticator
        .check_after_backend(&context, AuthenticationResult::allowed())
        .unwrap();
    assert_eq!(overridden.audit_reason, AuditReason::PostAuthDenied);
    assert!(consistent(&overridden));
    let plain = authenticator_with_rules(RulesEngine::builder().build());
    for verdict in [
        AuthenticationResult::allowed(),
        AuthenticationResult::denied(),
        AuthenticationResult::from_status(AuthenticationStatus::MustLogin),
    ] {
        let result = plain.check_after_backend(&context, verdict).unwrap();
        assert!(consistent(&result));
    }
}

#[test]
fn identity_headers_reject_invalid_names() {
    let config = AuthenticatorConfig {
        backend: AuthenticatorBackend::AllowAll,
        user_id_header: "not a header".to_string(),
    };
    let error = IdentityHeaders::from_config(&config).unwrap_err();
    assert_eq!(error.name.as_str(), "not a header");
    assert_eq!(error.message().as_str(), "user ID identity reporting is not valid");
    let config = AuthenticatorConfig {
        backend: AuthenticatorBackend::AllowAll,
        user_id_header: AuthenticatorConfig::default_user_id_header(),
    };
    let headers = IdentityHeaders::from_config(&config).unwrap();
    assert_eq!(headers.user_id.as_str(), "x-auth-request-user");
}

fn oauth2_config() -> OAuth2ProxyConfig {
    OAuth2ProxyConfig {
        address: "http://oauth2.local:4180/".to_string(),
        auth_domain: Some("login.local".to_string()),
        prefix: "oauth2".to_string(),
        timeout_sec: OAuth2ProxyConfig::default_timeout_sec(),
        user_id_source_header: OAuth2ProxyUserIdSourceHeader::User,
    }
}

#[test]
fn oauth2_canonicalises_configuration() {
    let proxy = OAuth2Proxy::from_config(&oauth2_config());
    assert_eq!(proxy.config.address.as_str(), "http://oauth2.local:4180");
    assert_eq!(proxy.config.prefix.as_str(), "/oauth2/");
    assert_eq!(proxy.auth_url().as_str(), "http://oauth2.local:4180/oauth2/auth");
    let factory = OAuth2ProxyFactory::from_config(&oauth2_config());
    let made = factory.make();
    assert_eq!(made.config.prefix.as_str(), "/oauth2/");
}

#[test]
fn oauth2_allows_its_own_sign_in_ui() {
    let proxy = OAuth2Proxy::from_config(&oauth2_config());
    let context = RequestContext {
        headers: Vec::new(),
        host: "login.local".to_string(),
        protocol: RequestProtocol::Https,
        uri: "/oauth2/start".to_string(),
    };
    let result = proxy.check_auth_ui(&context).expect("sign-in UI requests bypass auth");
    assert_eq!(result.status, AuthenticationStatus::Allowed);
    assert_eq!(result.audit_reason, AuditReason::PreAuthAllowed);
    let context = RequestContext {
        host: "other.local".to_string(),
        ..context
    };
    assert!(proxy.check_auth_ui(&context).is_none());
}

#[test]
fn oauth2_maps_upstream_statuses() {
    let proxy = OAuth2Proxy::from_config(&oauth2_config());
    let headers = vec![
        ("x-auth-request-user".to_string(), Some("alice".to_string())),
        ("x-auth-request-email".to_string(), Some("alice@local".to_string())),
    ];
    let allowed = proxy.interpret_response(202, &headers);
    assert_eq!(allowed.status, AuthenticationStatus::Allowed);
    assert!(allowed.authentication_context.authenticated);
    assert_eq!(allowed.authentication_context.user, Some("alice".to_string()));
    let must_login = proxy.interpret_response(401, &headers);
    assert_eq!(must_login.status, AuthenticationStatus::MustLogin);
    assert_eq!(must_login.audit_reason, AuditReason::InvalidSession);
    let denied = proxy.interpret_response(500, &headers);
    assert_eq!(denied.status, AuthenticationStatus::Denied);
    assert_eq!(denied.audit_reason, AuditReason::Denied);
}

#[test]
fn oauth2_hashes_the_access_token_into_the_session() {
    let proxy = OAuth2Proxy::from_config(&oauth2_config());
    let headers = vec![(
        "x-auth-request-access-token".to_string(),
        Some("token-1".to_string()),
    )];
    let first = proxy.interpret_response(202, &headers);
    let session = first.authentication_context.session.clone().unwrap();
    // One-way hashed: not the token itself, and rendered as upper-case hex of
    // a 64-byte digest.
    assert_ne!(session.as_str(), "token-1");
    assert_eq!(session.len(), 128);
    assert!(session.chars().all(|c| c.is_ascii_hexdigit() && !c.is_ascii_lowercase()));
    // Deterministic: the same token always maps to the same session ID.
    let second = proxy.interpret_response(202, &headers);
    assert_eq!(second.authentication_context.session, Some(session));
    // A different token maps elsewhere.
    let other = vec![(
        "x-auth-request-access-token".to_string(),
        Some("token-2".to_string()),
    )];
    let third = proxy.interpret_response(202, &other);
    assert_ne!(third.authentication_context.session, first.authentication_context.session);
}

#[test]
fn oauth2_treats_non_utf8_identity_headers_as_absent() {
    let proxy = OAuth2Proxy::from_config(&oauth2_config());
    let headers = vec![
        ("x-auth-request-user".to_string(), None),
        ("x-auth-request-access-token".to_string(), None),
    ];
    let result = proxy.interpret_response(202, &headers);
    assert_eq!(result.authentication_context.user, None);
    assert_eq!(result.authentication_context.session, None);
}

#[test]
fn error_responses_use_the_original_bodies() {
    let check = authgateway::errors::AuthenticationCheckError {
        detail: "upstream broke".to_string(),
    };
    assert_eq!(check.status_code(), 500);
    assert_eq!(
        check.error_response().as_str(),
        "{\n  \"error\": true,\n  \"message\": \"Error checking authentication for a request\"\n}"
    );
    let audit = authgateway::errors::AuditSendError {
        detail: "sink broke".to_string(),
    };
    assert_eq!(audit.status_code(), 500);
    assert_eq!(
        audit.error_response().as_str(),
        "{\n  \"error\": true,\n  \"message\": \"Error sending the audit record for a request\"\n}"
    );
}

#[test]
fn response_headers_preserve_duplicates_and_fold_name_case() {
    let mut headers = Headers::new();
    headers.append("X-Test-Header".to_string(), "Value2".to_string());
    headers.append("x-authenticator".to_string(), "Tests".to_string());
    headers.append("X-Test-Header".to_string(), "Value1".to_string());
    assert_eq!(headers.len(), 3);
    // The first value wins on lookup, and names fold ASCII case.
    assert_eq!(headers.get("x-test-header").unwrap().as_str(), "Value2");
    assert!(headers.contains_name("X-AUTHENTICATOR"));
    // Insert replaces every value of the name; append keeps them.
    headers.insert("x-test-header".to_string(), "only".to_string());
    assert_eq!(headers.len(), 2);
    assert_eq!(headers.get("X-Test-Header").unwrap().as_str(), "only");
    // Remove drops every value of the name.
    headers.remove("x-test-header");
    assert_eq!(headers.len(), 1);
    assert_eq!(headers.get("x-test-header"), None);
}

#[test]
fn check_appends_headers() {
    // Headers supplied by the backend are echoed on the response, duplicates
    // included.
    let raw = standard_request();
    let context = RequestContext::from_request(&raw).unwrap();
    let authenticator = authenticator_with_rules(RulesEngine::builder().build());
    let mut verdict = AuthenticationResult::allowed();
    verdict.headers.append("x-test-header".to_string(), "Value2".to_string());
    verdict.headers.insert("x-authenticator".to_string(), "Tests".to_string());
    verdict.headers.append("x-test-header".to_string(), "Value1".to_string());
    let result = authenticator.check_after_backend(&context, verdict).unwrap();
    let response = build_response(result, &authenticator.headers);
    let mut actual: Vec<(String, String)> = response.headers.pairs().clone();
    actual.sort();
    let expected = vec![
        ("x-authenticator".to_string(), "Tests".to_string()),
        ("x-test-header".to_string(), "Value1".to_string()),
        ("x-test-header".to_string(), "Value2".to_string()),
    ];
    assert_eq!(actual, expected);
}

#[test]
fn check_fails() {
    // A failing backend surfaces as HTTP 500 with the JSON error body.
    let error = authgateway::errors::AuthenticationCheckError {
        detail: "Test request check returning error".to_string(),
    };
    assert_eq!(error.status_code(), 500);
    assert_eq!(
        error.error_response().as_str(),
        "{\n  \"error\": true,\n  \"message\": \"Error checking authentication for a request\"\n}"
    );
}
