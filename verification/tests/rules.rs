use authgateway::context::AuthenticationContext;
use authgateway::context::RequestContext;
use authgateway::context::RequestProtocol;
use authgateway::engine::RulesEngine;
use authgateway::models::AuthenticationResult;
use authgateway::rules::EnrichResponseRule;
use authgateway::rules::PostAuthRule;
use authgateway::rules::PreAuthRule;
use authgateway::rules::RuleAction;
use authgateway::rules::RuleMatches;
use authgateway::rules::RuleSessionMatches;

fn context(host: &str, uri: &str) -> RequestContext {
    RequestContext {
        headers: Vec::new(),
        host: host.to_string(),
        protocol: RequestProtocol::Https,
        uri: uri.to_string(),
    }
}

fn empty_matches() -> RuleMatches {
    RuleMatches {
        any: false,
        domain: Vec::new(),
        header_equal: Vec::new(),
        uri: Vec::new(),
    }
}

#[test]
fn match_any() {
    let context = context("not.me", "/path/to/nowhere");
    let rule = RuleMatches {
        any: true,
        ..empty_matches()
    };
    assert!(rule.check(&context));
}

#[test]
fn match_domain() {
    let context = context("not.me", "/path/to/nowhere");
    let rule = RuleMatches {
        domain: vec!["me.not".to_string(), "not.me".to_string()],
        ..empty_matches()
    };
    assert!(rule.check(&context));
}

#[test]
fn match_header() {
    let mut context = context("not.me", "/path/to/nowhere");
    context.headers = vec![
        ("x-header-check".to_string(), "no".to_string()),
        ("header-eq-test".to_string(), "No".to_string()),
        ("header-eq-test".to_string(), "Yes".to_string()),
    ];
    let rule = RuleMatches {
        header_equal: vec![
            ("x-header-check".to_string(), "No".to_string()),
            ("header-eq-test".to_string(), "Yes".to_string()),
        ],
        ..empty_matches()
    };
    assert!(rule.check(&context));
}

#[test]
fn match_uri() {
    let context = context("not.me", "/path/to/nowhere");
    let rule = RuleMatches {
        uri: vec!["/path/to/nowhere".to_string()],
        ..empty_matches()
    };
    assert!(rule.check(&context));
}

#[test]
fn header_names_match_case_insensitively() {
    let mut context = context("not.me", "/");
    context.headers = vec![("X-Test-Rule-Case".to_string(), "header-insensitive".to_string())];
    let rule = RuleMatches {
        header_equal: vec![("x-test-rule-case".to_string(), "header-insensitive".to_string())],
        ..empty_matches()
    };
    assert!(rule.check(&context));
    let value_case = RuleMatches {
        header_equal: vec![("x-test-rule-case".to_string(), "HEADER-INSENSITIVE".to_string())],
        ..empty_matches()
    };
    assert!(!value_case.check(&context));
}

#[test]
fn match_authenticated() {
    let context = AuthenticationContext {
        authenticated: true,
        user: None,
        session: None,
    };
    let rule = RuleSessionMatches {
        authenticated: Some(true),
        user: Vec::new(),
    };
    assert!(rule.check(&context));
}

#[test]
fn match_unauthenticated() {
    let context = AuthenticationContext {
        authenticated: false,
        user: None,
        session: None,
    };
    let rule = RuleSessionMatches {
        authenticated: Some(false),
        user: Vec::new(),
    };
    assert!(rule.check(&context));
}

#[test]
fn match_user() {
    let context = AuthenticationContext {
        authenticated: true,
        user: Some("email@dev.local".to_string()),
        session: None,
    };
    let rule = RuleSessionMatches {
        authenticated: None,
        user: vec!["some@email.local".to_string(), "email@dev.local".to_string()],
    };
    assert!(rule.check(&context));
}

#[test]
fn never_match_authenticated_not_set() {
    let context = AuthenticationContext {
        authenticated: true,
        user: None,
        session: None,
    };
    let rule = RuleSessionMatches {
        authenticated: None,
        user: Vec::new(),
    };
    assert!(!rule.check(&context));
    let context = AuthenticationContext {
        authenticated: false,
        user: None,
        session: None,
    };
    assert!(!rule.check(&context));
}

#[test]
fn never_match_user_not_set() {
    let context = AuthenticationContext {
        authenticated: true,
        user: Some("email@dev.local".to_string()),
        session: None,
    };
    let rule = RuleSessionMatches {
        authenticated: None,
        user: Vec::new(),
    };
    assert!(!rule.check(&context));
}

#[test]
fn build_no_rules() {
    let engine = RulesEngine::builder().build();
    assert_eq!(engine.rules_enrich, vec![]);
    assert_eq!(engine.rules_postauth, vec![]);
    assert_eq!(engine.rules_preauth, vec![]);
}

#[test]
fn eval_enrich_no_rules() {
    let context = context("domain", "/path/to/page");
    let engine = RulesEngine::builder().build();
    let expected = AuthenticationResult::denied();
    let actual = engine.eval_enrich(&context, expected.clone()).unwrap();
    assert_eq!(format!("{:?}", actual), format!("{:?}", expected));
}

#[test]
fn eval_enrich_rule_does_not_match() {
    let context = context("domain", "/path/to/page");
    let engine = RulesEngine::builder()
        .rule_enrich(EnrichResponseRule {
            headers_remove: vec!["X-Test-Remove".to_string(), "X-Remove".to_string()],
            headers_set: vec![("X-Test".to_string(), "set".to_string())],
            matches: None,
            session_matches: Some(RuleSessionMatches {
                authenticated: Some(true),
                user: Vec::new(),
            }),
        })
        .build();
    let mut result = AuthenticationResult::denied();
    result.headers.append("x-remove".to_string(), "kept".to_string());
    let result = engine.eval_enrich(&context, result).unwrap();
    assert_eq!(result.headers.get("x-remove").unwrap().as_str(), "kept");
    assert_eq!(result.headers.get("x-test"), None);
}

#[test]
fn eval_enrich_rule_matches() {
    let context = context("domain", "/path/to/page");
    let engine = RulesEngine::builder()
        .rule_enrich(EnrichResponseRule {
            headers_remove: vec!["X-Test-Remove".to_string(), "X-Remove".to_string()],
            headers_set: vec![("X-Test".to_string(), "set".to_string())],
            matches: None,
            session_matches: Some(RuleSessionMatches {
                authenticated: Some(false),
                user: Vec::new(),
            }),
        })
        .build();
    let mut result = AuthenticationResult::denied();
    result.headers.append("x-remove".to_string(), "ok".to_string());
    let result = engine.eval_enrich(&context, result).unwrap();
    assert_eq!(result.headers.get("x-remove"), None);
    assert_eq!(result.headers.get("x-test").unwrap().as_str(), "set");
}

#[test]
fn eval_enrich_invalid_header_name_fails() {
    let context = context("domain", "/");
    let engine = RulesEngine::builder()
        .rule_enrich(EnrichResponseRule {
            headers_remove: Vec::new(),
            headers_set: vec![("bad name".to_string(), "v".to_string())],
            matches: Some(RuleMatches {
                any: true,
                ..empty_matches()
            }),
            session_matches: None,
        })
        .build();
    let result = engine.eval_enrich(&context, AuthenticationResult::allowed());
    assert!(result.is_err());
}

#[test]
fn eval_enrich_invalid_header_value_fails() {
    let context = context("domain", "/");
    let engine = RulesEngine::builder()
        .rule_enrich(EnrichResponseRule {
            headers_remove: Vec::new(),
            headers_set: vec![("x-ok".to_string(), "bad\u{0000}value".to_string())],
            matches: Some(RuleMatches {
                any: true,
                ..empty_matches()
            }),
            session_matches: None,
        })
        .build();
    let result = engine.eval_enrich(&context, AuthenticationResult::allowed());
    assert!(result.is_err());
}

#[test]
fn eval_postauth_no_rules() {
    let context = context("domain", "/path/to/page");
    let auth_context = AuthenticationContext::unauthenticated();
    let engine = RulesEngine::builder().build();
    let action = engine.eval_postauth(&context, &auth_context);
    assert_eq!(action, RuleAction::Delegate);
}

#[test]
fn eval_postauth_rule_allow() {
    let context = context("domain", "/path/to/page");
    let auth_context = AuthenticationContext {
        authenticated: true,
        user: None,
        session: None,
    };
    let engine = RulesEngine::builder()
        .rule_postauth(PostAuthRule {
            action: RuleAction::Deny,
            matches: None,
            session_matches: Some(RuleSessionMatches {
                authenticated: Some(false),
                user: Vec::new(),
            }),
        })
        .rule_postauth(PostAuthRule {
            action: RuleAction::Allow,
            matches: None,
            session_matches: Some(RuleSessionMatches {
                authenticated: Some(true),
                user: Vec::new(),
            }),
        })
        .build();
    let action = engine.eval_postauth(&context, &auth_context);
    assert_eq!(action, RuleAction::Allow);
}

#[test]
fn eval_postauth_rule_does_not_match() {
    let context = context("domain", "/path/to/page");
    let auth_context = AuthenticationContext {
        authenticated: true,
        user: None,
        session: None,
    };
    let engine = RulesEngine::builder()
        .rule_postauth(PostAuthRule {
            action: RuleAction::Allow,
            matches: None,
            session_matches: Some(RuleSessionMatches {
                authenticated: Some(false),
                user: Vec::new(),
            }),
        })
        .build();
    let action = engine.eval_postauth(&context, &auth_context);
    assert_eq!(action, RuleAction::Delegate);
}

#[test]
fn eval_preauth_no_rules() {
    let context = context("domain", "/path/to/page");
    let engine = RulesEngine::builder().build();
    let action = engine.eval_preauth(&context);
    assert_eq!(action, RuleAction::Delegate);
}

#[test]
fn eval_preauth_rule_allow() {
    let mut context = context("domain", "/path/to/page");
    context.headers = vec![
        ("x-test-rule-case".to_string(), "vAlUe-SeNsItIvE".to_string()),
        ("x-test-rule-case".to_string(), "header-insensitive".to_string()),
    ];
    let engine = RulesEngine::builder()
        .rule_preauth(PreAuthRule {
            action: RuleAction::Deny,
            matches: RuleMatches {
                header_equal: vec![(
                    "x-test-rule-case".to_string(),
                    "value-sensitive".to_string(),
                )],
                ..empty_matches()
            },
        })
        .rule_preauth(PreAuthRule {
            action: RuleAction::Allow,
            matches: RuleMatches {
                header_equal: vec![(
                    "x-test-rule-case".to_string(),
                    "header-insensitive".to_string(),
                )],
                ..empty_matches()
            },
        })
        .build();
    let action = engine.eval_preauth(&context);
    assert_eq!(action, RuleAction::Allow);
}

#[test]
fn eval_preauth_rule_does_not_match() {
    let context = context("domain", "/path/to/page");
    let engine = RulesEngine::builder()
        .rule_preauth(PreAuthRule {
            action: RuleAction::Deny,
            matches: RuleMatches {
                domain: vec!["not.me".to_string()],
                ..empty_matches()
            },
        })
        .build();
    let action = engine.eval_preauth(&context);
    assert_eq!(action, RuleAction::Delegate);
}

#[test]
fn postauth_rule_without_predicates_never_triggers() {
    let context = context("domain", "/");
    let auth_context = AuthenticationContext::unauthenticated();
    let engine = RulesEngine::builder()
        .rule_postauth(PostAuthRule {
            action: RuleAction::Deny,
            matches: None,
            session_matches: None,
        })
        .build();
    assert_eq!(engine.eval_postauth(&context, &auth_context), RuleAction::Delegate);
}

#[test]
fn enrich_rule_without_predicates_never_triggers() {
    let context = context("domain", "/");
    let engine = RulesEngine::builder()
        .rule_enrich(EnrichResponseRule {
            headers_remove: Vec::new(),
            headers_set: vec![("x-test".to_string(), "set".to_string())],
            matches: None,
            session_matches: None,
        })
        .build();
    let result = engine.eval_enrich(&context, AuthenticationResult::allowed()).unwrap();
    assert_eq!(result.headers.get("x-test"), None);
}

#[test]
fn file_order_stable_with_one_matching_file() {
    // Only the first file carries a rule matching this host; swapping the
    // files must not change the action.
    let context = context("a", "/");
    let matching = vec![authgateway::rules::Rule::PreAuth(PreAuthRule {
        action: RuleAction::Deny,
        matches: RuleMatches {
            domain: vec!["a".to_string()],
            ..empty_matches()
        },
    })];
    let other = vec![authgateway::rules::Rule::PreAuth(PreAuthRule {
        action: RuleAction::Allow,
        matches: RuleMatches {
            domain: vec!["b".to_string()],
            ..empty_matches()
        },
    })];
    let engine_one = RulesEngine::builder()
        .rule_files(vec![matching.clone(), other.clone()])
        .build();
    let engine_two = RulesEngine::builder()
        .rule_files(vec![other, matching])
        .build();
    assert_eq!(engine_one.eval_preauth(&context), RuleAction::Deny);
    assert_eq!(engine_two.eval_preauth(&context), RuleAction::Deny);
}
