use authgateway::audit::AuditRecord;
use authgateway::config::AuditBackend;
use authgateway::config::AuthenticatorConfig;
use authgateway::config::Config;
use authgateway::config::LevelFilter;
use authgateway::config::MongoDBAuditConfig;
use authgateway::config::OAuth2ProxyConfig;
use authgateway::config::OAuth2ProxyUserIdSourceHeader;
use authgateway::audit::AuditRecordBuilder;
use authgateway::audit::NoopReporter;
use authgateway::audit::SignedDuration;
use authgateway::codec::audit_from_value;
use authgateway::codec::audit_round_trip;
use authgateway::codec::audit_to_value;
use authgateway::codec::rule_from_value;
use authgateway::codec::rule_round_trip;
use authgateway::codec::rule_to_value;
use authgateway::context::RequestContext;
use authgateway::context::RequestProtocol;
use authgateway::docvalue::ConfigValue;
use authgateway::engine::RulesEngine;
use authgateway::models::AuditReason;
use authgateway::models::AuthenticationResult;
use authgateway::models::AuthenticationStatus;
use authgateway::rules::EnrichResponseRule;
use authgateway::rules::PostAuthRule;
use authgateway::rules::PreAuthRule;
use authgateway::rules::Rule;
use authgateway::rules::RuleAction;
use authgateway::rules::RuleMatches;
use authgateway::rules::RuleSessionMatches;

/// Bridge a YAML document to the library's plain document tree.
fn yaml_to_config_value(value: &serde_yaml::Value) -> ConfigValue {
    match value {
        serde_yaml::Value::Null => ConfigValue::Null,
        serde_yaml::Value::Bool(b) => ConfigValue::Bool(*b),
        serde_yaml::Value::Number(n) => ConfigValue::Int(n.as_i64().expect("integer expected")),
        serde_yaml::Value::String(s) => ConfigValue::Str(s.clone()),
        serde_yaml::Value::Sequence(items) => {
            ConfigValue::List(items.iter().map(yaml_to_config_value).collect())
        }
        serde_yaml::Value::Mapping(entries) => ConfigValue::Mapping(
            entries
                .iter()
                .map(|(k, v)| {
                    (
                        k.as_str().expect("string key expected").to_string(),
                        yaml_to_config_value(v),
                    )
                })
                .collect(),
        ),
        serde_yaml::Value::Tagged(_) => panic!("tagged values are not used"),
    }
}

/// Bridge the library's plain document tree back to a YAML document.
fn config_value_to_yaml(value: &ConfigValue) -> serde_yaml::Value {
    match value {
        ConfigValue::Null => serde_yaml::Value::Null,
        ConfigValue::Bool(b) => serde_yaml::Value::Bool(*b),
        ConfigValue::Int(i) => serde_yaml::Value::Number(serde_yaml::Number::from(*i)),
        ConfigValue::Str(s) => serde_yaml::Value::String(s.clone()),
        ConfigValue::List(items) => {
            serde_yaml::Value::Sequence(items.iter().map(config_value_to_yaml).collect())
        }
        ConfigValue::Mapping(entries) => {
            let mut mapping = serde_yaml::Mapping::new();
            for (k, v) in entries {
                mapping.insert(serde_yaml::Value::String(k.clone()), config_value_to_yaml(v));
            }
            serde_yaml::Value::Mapping(mapping)
        }
    }
}

/// Bridge a JSON document to the library's plain document tree.
fn json_to_config_value(value: &serde_json::Value) -> ConfigValue {
    match value {
        serde_json::Value::Null => ConfigValue::Null,
        serde_json::Value::Bool(b) => ConfigValue::Bool(*b),
        serde_json::Value::Number(n) => ConfigValue::Int(n.as_i64().expect("integer expected")),
        serde_json::Value::String(s) => ConfigValue::Str(s.clone()),
        serde_json::Value::Array(items) => {
            ConfigValue::List(items.iter().map(json_to_config_value).collect())
        }
        serde_json::Value::Object(entries) => ConfigValue::Mapping(
            entries
                .iter()
                .map(|(k, v)| (k.clone(), json_to_config_value(v)))
                .collect(),
        ),
    }
}

/// Bridge the library's plain document tree to a JSON document.
fn config_value_to_json(value: &ConfigValue) -> serde_json::Value {
    match value {
        ConfigValue::Null => serde_json::Value::Null,
        ConfigValue::Bool(b) => serde_json::Value::Bool(*b),
        ConfigValue::Int(i) => serde_json::Value::Number(serde_json::Number::from(*i)),
        ConfigValue::Str(s) => serde_json::Value::String(s.clone()),
        ConfigValue::List(items) => {
            serde_json::Value::Array(items.iter().map(config_value_to_json).collect())
        }
        ConfigValue::Mapping(entries) => {
            let mut object = serde_json::Map::new();
            for (k, v) in entries {
                object.insert(k.clone(), config_value_to_json(v));
            }
            serde_json::Value::Object(object)
        }
    }
}

fn parse_rule_file(yaml: &str) -> Vec<Rule> {
    let documents: serde_yaml::Value = serde_yaml::from_str(yaml).unwrap();
    let items = match documents {
        serde_yaml::Value::Sequence(items) => items,
        _ => panic!("a rule file is a list"),
    };
    items
        .iter()
        .map(|item| rule_from_value(&yaml_to_config_value(item)).expect("a valid rule"))
        .collect()
}

const RULES_FILE_1: &str = "
- phase: enrich-response
  headers_remove:
    - server
    - version
  matches:
    any: true
- phase: post-auth
  action: deny
  session_matches:
    user:
      - some@email.com
- phase: pre-auth
  action: allow
  matches:
    domain:
      - example.com
";

const RULES_FILE_2: &str = "
- phase: enrich-response
  headers_set:
    x-gateway: enabled
  matches:
    any: true
- phase: post-auth
  action: allow
  session_matches:
    authenticated: true
- phase: pre-auth
  action: deny
  matches:
    uri:
      - /admin
";

#[test]
fn build_one_source() {
    let engine = RulesEngine::builder()
        .rule_files(vec![parse_rule_file(RULES_FILE_1)])
        .build();
    assert_eq!(
        engine.rules_enrich,
        vec![EnrichResponseRule {
            headers_remove: vec!["server".to_string(), "version".to_string()],
            headers_set: Vec::new(),
            matches: Some(RuleMatches {
                any: true,
                domain: Vec::new(),
                header_equal: Vec::new(),
                uri: Vec::new(),
            }),
            session_matches: None,
        }]
    );
    assert_eq!(
        engine.rules_postauth,
        vec![PostAuthRule {
            action: RuleAction::Deny,
            matches: None,
            session_matches: Some(RuleSessionMatches {
                authenticated: None,
                user: vec!["some@email.com".to_string()],
            }),
        }]
    );
    assert_eq!(
        engine.rules_preauth,
        vec![PreAuthRule {
            action: RuleAction::Allow,
            matches: RuleMatches {
                any: false,
                domain: vec!["example.com".to_string()],
                header_equal: Vec::new(),
                uri: Vec::new(),
            },
        }]
    );
}

#[test]
fn build_two_sources() {
    let engine = RulesEngine::builder()
        .rule_files(vec![parse_rule_file(RULES_FILE_1), parse_rule_file(RULES_FILE_2)])
        .build();
    assert_eq!(engine.rules_enrich.len(), 2);
    assert_eq!(engine.rules_postauth.len(), 2);
    assert_eq!(engine.rules_preauth.len(), 2);
}

#[test]
fn rule_yaml_round_trip_is_structurally_identical() {
    // YAML → parsed → re-serialized → parsed: the same rules come back.
    let rules = parse_rule_file(RULES_FILE_1);
    let serialized: Vec<serde_yaml::Value> = rules
        .iter()
        .map(|rule| config_value_to_yaml(&rule_to_value(rule)))
        .collect();
    let text = serde_yaml::to_string(&serialized).unwrap();
    let reparsed = parse_rule_file(&text);
    assert_eq!(rules, reparsed);
}

#[test]
fn rule_document_round_trip_is_structurally_identical() {
    let rules = parse_rule_file(RULES_FILE_2);
    for rule in &rules {
        assert_eq!(&rule_round_trip(rule), rule);
    }
}

#[test]
fn rule_rejects_unknown_phase() {
    let document: serde_yaml::Value = serde_yaml::from_str("phase: unknown\naction: allow").unwrap();
    assert!(rule_from_value(&yaml_to_config_value(&document)).is_err());
}

fn sample_record() -> AuditRecord {
    AuditRecord {
        authenticated: true,
        duration: SignedDuration { secs: 1, nanos: 500 },
        protocol: RequestProtocol::Https,
        reason: AuditReason::PostAuthAllowed,
        resource: "https://a/".to_string(),
        result: AuthenticationStatus::Allowed,
        session_id: Some("s-1".to_string()),
        timestamp: 1_700_000_000_000,
        user_id: None,
    }
}

#[test]
fn audit_json_round_trip_is_field_wise_identical() {
    // AuditRecord → JSON → AuditRecord, through a real JSON text line.
    let record = sample_record();
    let line = serde_json::to_string(&config_value_to_json(&audit_to_value(&record))).unwrap();
    let parsed: serde_json::Value = serde_json::from_str(&line).unwrap();
    let decoded = audit_from_value(&json_to_config_value(&parsed)).unwrap();
    assert_eq!(decoded.authenticated, record.authenticated);
    assert_eq!(decoded.duration, record.duration);
    assert_eq!(decoded.protocol, record.protocol);
    assert_eq!(decoded.reason, record.reason);
    assert_eq!(decoded.resource, record.resource);
    assert_eq!(decoded.result, record.result);
    assert_eq!(decoded.session_id, record.session_id);
    assert_eq!(decoded.timestamp, record.timestamp);
    assert_eq!(decoded.user_id, record.user_id);
}

#[test]
fn audit_document_round_trip_is_field_wise_identical() {
    let mut record = sample_record();
    record.protocol = RequestProtocol::Other("wss".to_string());
    record.session_id = None;
    record.user_id = Some("alice".to_string());
    let decoded = audit_round_trip(&record);
    assert_eq!(decoded.protocol, record.protocol);
    assert_eq!(decoded.session_id, record.session_id);
    assert_eq!(decoded.user_id, record.user_id);
    assert_eq!(decoded.reason, record.reason);
}

#[test]
fn finish_audit_record() {
    let context = RequestContext {
        headers: Vec::new(),
        host: "not.me".to_string(),
        protocol: RequestProtocol::Https,
        uri: "/path/to/nowhere".to_string(),
    };
    let result = AuthenticationResult::from_status(AuthenticationStatus::MustLogin);
    let audit = AuditRecordBuilder::start(&context, 1_700_000_000_000);
    let audit = audit.finish(&result, SignedDuration { secs: 0, nanos: 250 });
    assert_eq!(audit.authenticated, false);
    assert_eq!(audit.protocol, RequestProtocol::Https);
    assert_eq!(audit.reason, AuditReason::InvalidSession);
    assert_eq!(audit.resource, "https://not.me/path/to/nowhere");
    assert_eq!(audit.result, AuthenticationStatus::MustLogin);
    assert_eq!(audit.session_id, None);
    assert_eq!(audit.user_id, None);
}

#[test]
fn start_audit_record() {
    let context = RequestContext {
        headers: Vec::new(),
        host: "not.me".to_string(),
        protocol: RequestProtocol::Https,
        uri: "/path/to/nowhere".to_string(),
    };
    let audit = AuditRecordBuilder::start(&context, 42);
    assert_eq!(audit.protocol, RequestProtocol::Https);
    assert_eq!(audit.resource, "https://not.me/path/to/nowhere");
    assert_eq!(audit.timestamp, 42);
}

#[test]
fn duration_from_clock_parts() {
    let d = SignedDuration::from_parts(3, 999_999_999);
    assert_eq!(d, SignedDuration { secs: 3, nanos: 999_999_999 });
    let clamped = SignedDuration::from_parts(u64::MAX, 0);
    assert_eq!(clamped.secs, i64::MAX);
}

#[test]
fn noop_reporter_accepts_every_record() {
    let reporter = NoopReporter {};
    assert!(reporter.send(sample_record()).is_ok());
    let worker = reporter.make();
    assert!(worker.send(sample_record()).is_ok());
}

#[test]
fn configuration_defaults() {
    assert_eq!(Config::default_bind(), "127.0.0.1:8090");
    assert_eq!(LevelFilter::default(), LevelFilter::Info);
    assert_eq!(AuditBackend::default(), AuditBackend::Noop);
    assert_eq!(MongoDBAuditConfig::default_collection(), "audit");
    assert_eq!(AuthenticatorConfig::default_user_id_header(), "x-auth-request-user");
    assert_eq!(OAuth2ProxyConfig::default_address(), "http://127.0.0.1:4180");
    assert_eq!(OAuth2ProxyConfig::default_proxy_prefix(), "/oauth2");
    assert_eq!(OAuth2ProxyConfig::default_timeout_sec(), 5);
    assert_eq!(
        OAuth2ProxyUserIdSourceHeader::default(),
        OAuth2ProxyUserIdSourceHeader::User
    );
}
