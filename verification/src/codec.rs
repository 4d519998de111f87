//! Codec between gateway values and the plain document tree: audit records
//! for the audit sinks, and rules for the rule files. Encoding and decoding
//! are exact inverses at the structural level, which is stated and proved
//! here; the textual layer (YAML or JSON) is the serialization crate's own
//! round trip around it.

use vstd::prelude::*;
use vstd::string::*;

use crate::audit::AuditRecord;
use crate::audit::SignedDuration;
use crate::context::RequestProtocol;
use crate::rules::EnrichResponseRule;
use crate::rules::PostAuthRule;
use crate::rules::PreAuthRule;
use crate::rules::Rule;
use crate::rules::RuleAction;
use crate::rules::RuleMatches;
use crate::rules::RuleSessionMatches;
use crate::docvalue::ConfigValue;
use crate::docvalue::entries_get;
use crate::docvalue::lemma_map_get_found;
use crate::docvalue::map_get;
use crate::models::AuditReason;
use crate::models::AuthenticationStatus;
use crate::strutil::str_eq;

verus! {

/// The decoding error: the document does not have the expected shape.
#[derive(Clone, Copy, Debug, PartialEq, Eq, Structural)]
pub struct DecodeError {}

/// The text a reason encodes to.
pub open spec fn reason_text(reason: AuditReason) -> Seq<char> {
    match reason {
        AuditReason::Allowed => "allowed"@,
        AuditReason::Denied => "denied"@,
        AuditReason::InvalidSession => "invalid-session"@,
        AuditReason::PostAuthAllowed => "post-auth-allowed"@,
        AuditReason::PostAuthDenied => "post-auth-denied"@,
        AuditReason::PreAuthAllowed => "pre-auth-allowed"@,
        AuditReason::PreAuthDenied => "pre-auth-denied"@,
    }
}

/// The text a status encodes to.
pub open spec fn status_text(status: AuthenticationStatus) -> Seq<char> {
    match status {
        AuthenticationStatus::Allowed => "allowed"@,
        AuthenticationStatus::Denied => "denied"@,
        AuthenticationStatus::MustLogin => "must-login"@,
    }
}

/// A protocol and its document encoding correspond: `http` and `https` are
/// bare strings, any other scheme is a one-entry map under `other`.
pub open spec fn protocol_rel(protocol: RequestProtocol, v: ConfigValue) -> bool {
    match protocol {
        RequestProtocol::Http => v matches ConfigValue::Str(s) && s@ == "http"@,
        RequestProtocol::Https => v matches ConfigValue::Str(s) && s@ == "https"@,
        RequestProtocol::Other(o) => v matches ConfigValue::Mapping(m) && m@.len() == 1
            && m@[0].0@ == "other"@ && (m@[0].1 matches ConfigValue::Str(s) && s@ == o@),
    }
}

/// An optional string and its document encoding correspond: nothing encodes
/// as null.
pub open spec fn opt_str_rel(o: Option<String>, v: ConfigValue) -> bool {
    match o {
        None => v matches ConfigValue::Null,
        Some(s) => v matches ConfigValue::Str(t) && t@ == s@,
    }
}

/// A duration and its document encoding correspond: a map with the two
/// signed integer fields.
pub open spec fn duration_rel(d: SignedDuration, v: ConfigValue) -> bool {
    &&& v matches ConfigValue::Mapping(entries)
    &&& (v matches ConfigValue::Mapping(entries) ==> {
        &&& map_get(entries@, "secs"@) == Some(ConfigValue::Int(d.secs))
        &&& map_get(entries@, "nanos"@) == Some(ConfigValue::Int(d.nanos))
    })
}

/// An audit record and its document encoding correspond, field by field.
pub open spec fn audit_rel(record: AuditRecord, v: ConfigValue) -> bool {
    &&& v matches ConfigValue::Mapping(entries)
    &&& (v matches ConfigValue::Mapping(entries) ==> {
        &&& map_get(entries@, "authenticated"@) == Some(ConfigValue::Bool(record.authenticated))
        &&& (map_get(entries@, "duration"@) matches Some(d) && duration_rel(record.duration, d))
        &&& (map_get(entries@, "protocol"@) matches Some(p) && protocol_rel(record.protocol, p))
        &&& (map_get(entries@, "reason"@) matches Some(ConfigValue::Str(s)) && s@ == reason_text(
            record.reason,
        ))
        &&& (map_get(entries@, "resource"@) matches Some(ConfigValue::Str(s)) && s@
            == record.resource@)
        &&& (map_get(entries@, "result"@) matches Some(ConfigValue::Str(s)) && s@ == status_text(
            record.result,
        ))
        &&& (map_get(entries@, "session_id"@) matches Some(s) && opt_str_rel(record.session_id, s))
        &&& map_get(entries@, "timestamp"@) == Some(ConfigValue::Int(record.timestamp))
        &&& (map_get(entries@, "user_id"@) matches Some(u) && opt_str_rel(record.user_id, u))
    })
}

/// Encode an optional string: nothing becomes null.
fn opt_str_to_value(o: &Option<String>) -> (r: ConfigValue)
    ensures
        opt_str_rel(*o, r),
{
    match o {
        None => ConfigValue::Null,
        Some(s) => ConfigValue::Str(s.clone()),
    }
}

/// Encode a protocol.
fn protocol_to_value(protocol: &RequestProtocol) -> (r: ConfigValue)
    ensures
        protocol_rel(*protocol, r),
{
    match protocol {
        RequestProtocol::Http => ConfigValue::Str(String::from_str("http")),
        RequestProtocol::Https => ConfigValue::Str(String::from_str("https")),
        RequestProtocol::Other(o) => {
            let mut entries: Vec<(String, ConfigValue)> = Vec::new();
            entries.push((String::from_str("other"), ConfigValue::Str(o.clone())));
            ConfigValue::Mapping(entries)
        },
    }
}

/// Encode an audit record as a document: one map with every field, ready for
/// a JSON log line or a database document.
pub fn audit_to_value(record: &AuditRecord) -> (r: ConfigValue)
    ensures
        audit_rel(*record, r),
{
    let mut duration: Vec<(String, ConfigValue)> = Vec::new();
    duration.push((String::from_str("secs"), ConfigValue::Int(record.duration.secs)));
    duration.push((String::from_str("nanos"), ConfigValue::Int(record.duration.nanos)));
    let reason = match record.reason {
        AuditReason::Allowed => String::from_str("allowed"),
        AuditReason::Denied => String::from_str("denied"),
        AuditReason::InvalidSession => String::from_str("invalid-session"),
        AuditReason::PostAuthAllowed => String::from_str("post-auth-allowed"),
        AuditReason::PostAuthDenied => String::from_str("post-auth-denied"),
        AuditReason::PreAuthAllowed => String::from_str("pre-auth-allowed"),
        AuditReason::PreAuthDenied => String::from_str("pre-auth-denied"),
    };
    let result = match record.result {
        AuthenticationStatus::Allowed => String::from_str("allowed"),
        AuthenticationStatus::Denied => String::from_str("denied"),
        AuthenticationStatus::MustLogin => String::from_str("must-login"),
    };
    let mut entries: Vec<(String, ConfigValue)> = Vec::new();
    entries.push((String::from_str("authenticated"), ConfigValue::Bool(record.authenticated)));
    entries.push((String::from_str("duration"), ConfigValue::Mapping(duration)));
    entries.push((String::from_str("protocol"), protocol_to_value(&record.protocol)));
    entries.push((String::from_str("reason"), ConfigValue::Str(reason)));
    entries.push((String::from_str("resource"), ConfigValue::Str(record.resource.clone())));
    entries.push((String::from_str("result"), ConfigValue::Str(result)));
    entries.push((String::from_str("session_id"), opt_str_to_value(&record.session_id)));
    entries.push((String::from_str("timestamp"), ConfigValue::Int(record.timestamp)));
    entries.push((String::from_str("user_id"), opt_str_to_value(&record.user_id)));
    proof {
        broadcast use vstd::string::group_string_axioms;

        reveal_strlit("authenticated");
        reveal_strlit("duration");
        reveal_strlit("protocol");
        reveal_strlit("reason");
        reveal_strlit("resource");
        reveal_strlit("result");
        reveal_strlit("session_id");
        reveal_strlit("timestamp");
        reveal_strlit("user_id");
        reveal_strlit("secs");
        reveal_strlit("nanos");
        assert("authenticated"@.len() == 13 && "duration"@.len() == 8 && "protocol"@.len() == 8
            && "reason"@.len() == 6 && "resource"@.len() == 8 && "result"@.len() == 6
            && "session_id"@.len() == 10 && "timestamp"@.len() == 9 && "user_id"@.len() == 7);
        assert("duration"@[0] == 'd' && "protocol"@[0] == 'p' && "resource"@[0] == 'r');
        assert("reason"@[2] == 'a' && "result"@[2] == 's');
        assert("secs"@.len() != "nanos"@.len());
        lemma_map_get_found(entries@, "authenticated"@, 0);
        lemma_map_get_found(entries@, "duration"@, 1);
        lemma_map_get_found(entries@, "protocol"@, 2);
        lemma_map_get_found(entries@, "reason"@, 3);
        lemma_map_get_found(entries@, "resource"@, 4);
        lemma_map_get_found(entries@, "result"@, 5);
        lemma_map_get_found(entries@, "session_id"@, 6);
        lemma_map_get_found(entries@, "timestamp"@, 7);
        lemma_map_get_found(entries@, "user_id"@, 8);
        match entries@[1].1 {
            ConfigValue::Mapping(dentries) => {
                lemma_map_get_found(dentries@, "secs"@, 0);
                lemma_map_get_found(dentries@, "nanos"@, 1);
            },
            _ => {},
        }
    }
    ConfigValue::Mapping(entries)
}

/// Decode an optional string.
fn opt_str_from_value(v: &ConfigValue) -> (r: Result<Option<String>, DecodeError>)
    ensures
        match r {
            Ok(o) => opt_str_rel(o, *v),
            Err(_) => !(v matches ConfigValue::Null) && !(v matches ConfigValue::Str(_)),
        },
{
    match v {
        ConfigValue::Null => Ok(None),
        ConfigValue::Str(s) => Ok(Some(s.clone())),
        _ => Err(DecodeError {  }),
    }
}

/// Decode a protocol.
fn protocol_from_value(v: &ConfigValue) -> (r: Result<RequestProtocol, DecodeError>)
    ensures
        match r {
            Ok(p) => protocol_rel(p, *v),
            Err(_) => forall|p: RequestProtocol| !protocol_rel(p, *v),
        },
{
    match v {
        ConfigValue::Str(s) => {
            if str_eq(s.as_str(), "http") {
                Ok(RequestProtocol::Http)
            } else if str_eq(s.as_str(), "https") {
                Ok(RequestProtocol::Https)
            } else {
                proof {
                    reveal_strlit("http");
                    reveal_strlit("https");
                }
                Err(DecodeError {  })
            }
        },
        ConfigValue::Mapping(entries) => {
            if entries.len() != 1 {
                return Err(DecodeError {  });
            }
            if !str_eq(entries[0].0.as_str(), "other") {
                return Err(DecodeError {  });
            }
            match &entries[0].1 {
                ConfigValue::Str(s) => Ok(RequestProtocol::Other(s.clone())),
                _ => Err(DecodeError {  }),
            }
        },
        _ => Err(DecodeError {  }),
    }
}

/// Decode a reason.
fn reason_from_value(v: &ConfigValue) -> (r: Result<AuditReason, DecodeError>)
    ensures
        match r {
            Ok(reason) => v matches ConfigValue::Str(s) && s@ == reason_text(reason),
            Err(_) => forall|reason: AuditReason|
                !(v matches ConfigValue::Str(s) && s@ == #[trigger] reason_text(reason)),
        },
{
    match v {
        ConfigValue::Str(s) => {
            let text = s.as_str();
            if str_eq(text, "allowed") {
                Ok(AuditReason::Allowed)
            } else if str_eq(text, "denied") {
                Ok(AuditReason::Denied)
            } else if str_eq(text, "invalid-session") {
                Ok(AuditReason::InvalidSession)
            } else if str_eq(text, "post-auth-allowed") {
                Ok(AuditReason::PostAuthAllowed)
            } else if str_eq(text, "post-auth-denied") {
                Ok(AuditReason::PostAuthDenied)
            } else if str_eq(text, "pre-auth-allowed") {
                Ok(AuditReason::PreAuthAllowed)
            } else if str_eq(text, "pre-auth-denied") {
                Ok(AuditReason::PreAuthDenied)
            } else {
                Err(DecodeError {  })
            }
        },
        _ => Err(DecodeError {  }),
    }
}

/// Decode a status.
fn status_from_value(v: &ConfigValue) -> (r: Result<AuthenticationStatus, DecodeError>)
    ensures
        match r {
            Ok(status) => v matches ConfigValue::Str(s) && s@ == status_text(status),
            Err(_) => forall|status: AuthenticationStatus|
                !(v matches ConfigValue::Str(s) && s@ == #[trigger] status_text(status)),
        },
{
    match v {
        ConfigValue::Str(s) => {
            let text = s.as_str();
            if str_eq(text, "allowed") {
                Ok(AuthenticationStatus::Allowed)
            } else if str_eq(text, "denied") {
                Ok(AuthenticationStatus::Denied)
            } else if str_eq(text, "must-login") {
                Ok(AuthenticationStatus::MustLogin)
            } else {
                Err(DecodeError {  })
            }
        },
        _ => Err(DecodeError {  }),
    }
}

/// Decode a duration.
fn duration_from_value(v: &ConfigValue) -> (r: Result<SignedDuration, DecodeError>)
    ensures
        match r {
            Ok(d) => duration_rel(d, *v),
            Err(_) => forall|d: SignedDuration| !duration_rel(d, *v),
        },
{
    match v {
        ConfigValue::Mapping(entries) => {
            let secs = match entries_get(entries, "secs") {
                Some(ConfigValue::Int(secs)) => *secs,
                _ => {
                    return Err(DecodeError {  });
                },
            };
            let nanos = match entries_get(entries, "nanos") {
                Some(ConfigValue::Int(nanos)) => *nanos,
                _ => {
                    return Err(DecodeError {  });
                },
            };
            Ok(SignedDuration { secs, nanos })
        },
        _ => Err(DecodeError {  }),
    }
}

/// Decode an audit record from a document: the inverse of `audit_to_value`.
/// Every field must be present and well-shaped.
pub fn audit_from_value(v: &ConfigValue) -> (r: Result<AuditRecord, DecodeError>)
    ensures
        match r {
            Ok(record) => audit_rel(record, *v),
            Err(_) => forall|record: AuditRecord| !audit_rel(record, *v),
        },
{
    let entries = match v {
        ConfigValue::Mapping(entries) => entries,
        _ => {
            return Err(DecodeError {  });
        },
    };
    let authenticated = match entries_get(entries, "authenticated") {
        Some(ConfigValue::Bool(b)) => *b,
        _ => {
            return Err(DecodeError {  });
        },
    };
    let duration = match entries_get(entries, "duration") {
        Some(d) => match duration_from_value(d) {
            Ok(d) => d,
            Err(e) => {
                return Err(e);
            },
        },
        None => {
            return Err(DecodeError {  });
        },
    };
    let protocol = match entries_get(entries, "protocol") {
        Some(p) => match protocol_from_value(p) {
            Ok(p) => p,
            Err(e) => {
                return Err(e);
            },
        },
        None => {
            return Err(DecodeError {  });
        },
    };
    let reason = match entries_get(entries, "reason") {
        Some(s) => match reason_from_value(s) {
            Ok(reason) => reason,
            Err(e) => {
                return Err(e);
            },
        },
        None => {
            return Err(DecodeError {  });
        },
    };
    let resource = match entries_get(entries, "resource") {
        Some(ConfigValue::Str(s)) => s.clone(),
        _ => {
            return Err(DecodeError {  });
        },
    };
    let result = match entries_get(entries, "result") {
        Some(s) => match status_from_value(s) {
            Ok(status) => status,
            Err(e) => {
                return Err(e);
            },
        },
        None => {
            return Err(DecodeError {  });
        },
    };
    let session_id = match entries_get(entries, "session_id") {
        Some(s) => match opt_str_from_value(s) {
            Ok(o) => o,
            Err(e) => {
                return Err(e);
            },
        },
        None => {
            return Err(DecodeError {  });
        },
    };
    let timestamp = match entries_get(entries, "timestamp") {
        Some(ConfigValue::Int(t)) => *t,
        _ => {
            return Err(DecodeError {  });
        },
    };
    let user_id = match entries_get(entries, "user_id") {
        Some(u) => match opt_str_from_value(u) {
            Ok(o) => o,
            Err(e) => {
                return Err(e);
            },
        },
        None => {
            return Err(DecodeError {  });
        },
    };
    Ok(
        AuditRecord {
            authenticated,
            duration,
            protocol,
            reason,
            resource,
            result,
            session_id,
            timestamp,
            user_id,
        },
    )
}

/// Law: an audit record survives the trip through its document encoding
/// field-wise identical — decoding what was encoded gives the same record,
/// field by field, with strings compared by their contents.
pub fn audit_round_trip(record: &AuditRecord) -> (r: AuditRecord)
    ensures
        r.authenticated == record.authenticated,
        r.duration == record.duration,
        r.protocol == record.protocol || (r.protocol matches RequestProtocol::Other(a)
            && record.protocol matches RequestProtocol::Other(b) && a@ == b@),
        r.reason == record.reason,
        r.resource@ == record.resource@,
        r.result == record.result,
        match (r.session_id, record.session_id) {
            (Some(a), Some(b)) => a@ == b@,
            (None, None) => true,
            _ => false,
        },
        r.timestamp == record.timestamp,
        match (r.user_id, record.user_id) {
            (Some(a), Some(b)) => a@ == b@,
            (None, None) => true,
            _ => false,
        },
{
    let encoded = audit_to_value(record);
    let decoded = audit_from_value(&encoded);
    match decoded {
        Ok(r) => {
            proof {
                broadcast use vstd::string::group_string_axioms;

                reveal_strlit("allowed");
                reveal_strlit("denied");
                reveal_strlit("invalid-session");
                reveal_strlit("post-auth-allowed");
                reveal_strlit("post-auth-denied");
                reveal_strlit("pre-auth-allowed");
                reveal_strlit("pre-auth-denied");
                reveal_strlit("must-login");
                reveal_strlit("http");
                reveal_strlit("https");
                assert("allowed"@.len() != "denied"@.len());
                assert("allowed"@.len() != "must-login"@.len());
                assert("denied"@.len() != "must-login"@.len());
                assert("http"@.len() != "https"@.len());
                assert("invalid-session"@.len() != "allowed"@.len());
                assert("post-auth-allowed"@.len() != "post-auth-denied"@.len());
                assert("post-auth-denied"@[1] == 'o' && "pre-auth-allowed"@[1] == 'r'
                    && "pre-auth-denied"@[1] == 'r');
                assert("pre-auth-allowed"@[9] == 'a' && "pre-auth-denied"@[9] == 'd');
            }
            r
        },
        Err(_) => {
            proof {
                assert(audit_rel(*record, encoded));
                assert(false);
            }
            AuditRecord {
                authenticated: record.authenticated,
                duration: record.duration,
                protocol: record.protocol.clone(),
                reason: record.reason,
                resource: record.resource.clone(),
                result: record.result,
                session_id: match &record.session_id {
                    Some(s) => Some(s.clone()),
                    None => None,
                },
                timestamp: record.timestamp,
                user_id: match &record.user_id {
                    Some(s) => Some(s.clone()),
                    None => None,
                },
            }
        },
    }
}

} // verus!

verus! {

/// The text an action encodes to.
pub open spec fn action_text(action: RuleAction) -> Seq<char> {
    match action {
        RuleAction::Allow => "allow"@,
        RuleAction::Delegate => "delegate"@,
        RuleAction::Deny => "deny"@,
    }
}

/// A string list and its document encoding correspond element-wise.
pub open spec fn str_list_rel(xs: Seq<String>, v: ConfigValue) -> bool {
    &&& v matches ConfigValue::List(vs)
    &&& (v matches ConfigValue::List(vs) ==> vs@.len() == xs.len() && forall|i: int|
        0 <= i < xs.len() ==> ((#[trigger] vs@[i]) matches ConfigValue::Str(s) && s@ == xs[i]@))
}

/// A (key, value) string list and its document encoding — a map with string
/// values, in the same order — correspond entry-wise.
pub open spec fn str_map_rel(xs: Seq<(String, String)>, v: ConfigValue) -> bool {
    &&& v matches ConfigValue::Mapping(es)
    &&& (v matches ConfigValue::Mapping(es) ==> es@.len() == xs.len() && forall|i: int|
        0 <= i < xs.len() ==> (#[trigger] es@[i]).0@ == xs[i].0@ && (es@[i].1 matches
        ConfigValue::Str(s) && s@ == xs[i].1@))
}

/// A request predicate and its document encoding correspond; a dimension
/// absent from the document is an empty (unpopulated) dimension.
pub open spec fn matches_rel(m: RuleMatches, v: ConfigValue) -> bool {
    &&& v matches ConfigValue::Mapping(es)
    &&& (v matches ConfigValue::Mapping(es) ==> {
        &&& match map_get(es@, "any"@) {
            None => m.any == false,
            Some(ConfigValue::Bool(b)) => m.any == b,
            Some(_) => false,
        }
        &&& match map_get(es@, "domain"@) {
            None => m.domain@.len() == 0,
            Some(d) => str_list_rel(m.domain@, d),
        }
        &&& match map_get(es@, "header_equal"@) {
            None => m.header_equal@.len() == 0,
            Some(h) => str_map_rel(m.header_equal@, h),
        }
        &&& match map_get(es@, "uri"@) {
            None => m.uri@.len() == 0,
            Some(u) => str_list_rel(m.uri@, u),
        }
    })
}

/// An authentication predicate and its document encoding correspond.
pub open spec fn session_rel(m: RuleSessionMatches, v: ConfigValue) -> bool {
    &&& v matches ConfigValue::Mapping(es)
    &&& (v matches ConfigValue::Mapping(es) ==> {
        &&& match map_get(es@, "authenticated"@) {
            None => m.authenticated is None,
            Some(ConfigValue::Null) => m.authenticated is None,
            Some(ConfigValue::Bool(b)) => m.authenticated == Some(b),
            Some(_) => false,
        }
        &&& match map_get(es@, "user"@) {
            None => m.user@.len() == 0,
            Some(u) => str_list_rel(m.user@, u),
        }
    })
}

/// An optional request predicate and its document slot correspond: absent or
/// null both stand for no predicate.
pub open spec fn opt_matches_rel(o: Option<RuleMatches>, slot: Option<ConfigValue>) -> bool {
    match slot {
        None => o is None,
        Some(ConfigValue::Null) => o is None,
        Some(v) => o matches Some(m) && matches_rel(m, v),
    }
}

/// An optional authentication predicate and its document slot correspond.
pub open spec fn opt_session_rel(o: Option<RuleSessionMatches>, slot: Option<ConfigValue>) -> bool {
    match slot {
        None => o is None,
        Some(ConfigValue::Null) => o is None,
        Some(v) => o matches Some(m) && session_rel(m, v),
    }
}

/// The value a lookup result stands for: the found value, or nothing.
pub open spec fn slot_view(slot: Option<&ConfigValue>) -> Option<ConfigValue> {
    match slot {
        Some(v) => Some(*v),
        None => None,
    }
}

/// A rule and its document encoding correspond: a map tagged by `phase`, with
/// the variant's fields.
pub open spec fn rule_rel(rule: Rule, v: ConfigValue) -> bool {
    &&& v matches ConfigValue::Mapping(es)
    &&& (v matches ConfigValue::Mapping(es) ==> match rule {
        Rule::PreAuth(r) => {
            &&& (map_get(es@, "phase"@) matches Some(ConfigValue::Str(s)) && s@ == "pre-auth"@)
            &&& (map_get(es@, "action"@) matches Some(ConfigValue::Str(s)) && s@ == action_text(
                r.action,
            ))
            &&& (map_get(es@, "matches"@) matches Some(mv) && matches_rel(r.matches, mv))
        },
        Rule::PostAuth(r) => {
            &&& (map_get(es@, "phase"@) matches Some(ConfigValue::Str(s)) && s@ == "post-auth"@)
            &&& (map_get(es@, "action"@) matches Some(ConfigValue::Str(s)) && s@ == action_text(
                r.action,
            ))
            &&& opt_matches_rel(r.matches, map_get(es@, "matches"@))
            &&& opt_session_rel(r.session_matches, map_get(es@, "session_matches"@))
        },
        Rule::EnrichResponse(r) => {
            &&& (map_get(es@, "phase"@) matches Some(ConfigValue::Str(s)) && s@
                == "enrich-response"@)
            &&& match map_get(es@, "headers_remove"@) {
                None => r.headers_remove@.len() == 0,
                Some(h) => str_list_rel(r.headers_remove@, h),
            }
            &&& match map_get(es@, "headers_set"@) {
                None => r.headers_set@.len() == 0,
                Some(h) => str_map_rel(r.headers_set@, h),
            }
            &&& opt_matches_rel(r.matches, map_get(es@, "matches"@))
            &&& opt_session_rel(r.session_matches, map_get(es@, "session_matches"@))
        },
    })
}

/// Encode a string list.
fn str_list_to_value(xs: &Vec<String>) -> (r: ConfigValue)
    ensures
        str_list_rel(xs@, r),
{
    let mut vs: Vec<ConfigValue> = Vec::new();
    let n = xs.len();
    let mut i: usize = 0;
    while i < n
        invariant
            0 <= i <= n,
            n == xs@.len(),
            vs@.len() == i,
            forall|j: int|
                0 <= j < i ==> ((#[trigger] vs@[j]) matches ConfigValue::Str(s) && s@ == xs@[j]@),
        decreases n - i,
    {
        vs.push(ConfigValue::Str(xs[i].clone()));
        i = i + 1;
    }
    ConfigValue::List(vs)
}

/// Encode a (key, value) string list as a map.
fn str_map_to_value(xs: &Vec<(String, String)>) -> (r: ConfigValue)
    ensures
        str_map_rel(xs@, r),
{
    let mut es: Vec<(String, ConfigValue)> = Vec::new();
    let n = xs.len();
    let mut i: usize = 0;
    while i < n
        invariant
            0 <= i <= n,
            n == xs@.len(),
            es@.len() == i,
            forall|j: int|
                0 <= j < i ==> (#[trigger] es@[j]).0@ == xs@[j].0@ && (es@[j].1 matches
                ConfigValue::Str(s) && s@ == xs@[j].1@),
        decreases n - i,
    {
        es.push((xs[i].0.clone(), ConfigValue::Str(xs[i].1.clone())));
        i = i + 1;
    }
    ConfigValue::Mapping(es)
}

/// Encode an action.
fn action_to_value(action: &RuleAction) -> (r: ConfigValue)
    ensures
        r matches ConfigValue::Str(s) && s@ == action_text(*action),
{
    match action {
        RuleAction::Allow => ConfigValue::Str(String::from_str("allow")),
        RuleAction::Delegate => ConfigValue::Str(String::from_str("delegate")),
        RuleAction::Deny => ConfigValue::Str(String::from_str("deny")),
    }
}

/// Encode a request predicate, every dimension written out.
fn matches_to_value(m: &RuleMatches) -> (r: ConfigValue)
    ensures
        matches_rel(*m, r),
{
    let mut es: Vec<(String, ConfigValue)> = Vec::new();
    es.push((String::from_str("any"), ConfigValue::Bool(m.any)));
    es.push((String::from_str("domain"), str_list_to_value(&m.domain)));
    es.push((String::from_str("header_equal"), str_map_to_value(&m.header_equal)));
    es.push((String::from_str("uri"), str_list_to_value(&m.uri)));
    proof {
        broadcast use vstd::string::group_string_axioms;

        reveal_strlit("any");
        reveal_strlit("domain");
        reveal_strlit("header_equal");
        reveal_strlit("uri");
        assert("any"@.len() == 3 && "domain"@.len() == 6 && "header_equal"@.len() == 12 && "uri"@.len() == 3);
        assert("any"@[0] == 'a' && "uri"@[0] == 'u');
        lemma_map_get_found(es@, "any"@, 0);
        lemma_map_get_found(es@, "domain"@, 1);
        lemma_map_get_found(es@, "header_equal"@, 2);
        lemma_map_get_found(es@, "uri"@, 3);
    }
    ConfigValue::Mapping(es)
}

/// Encode an authentication predicate.
fn session_to_value(m: &RuleSessionMatches) -> (r: ConfigValue)
    ensures
        session_rel(*m, r),
{
    let authenticated = match m.authenticated {
        Some(b) => ConfigValue::Bool(b),
        None => ConfigValue::Null,
    };
    let mut es: Vec<(String, ConfigValue)> = Vec::new();
    es.push((String::from_str("authenticated"), authenticated));
    es.push((String::from_str("user"), str_list_to_value(&m.user)));
    proof {
        broadcast use vstd::string::group_string_axioms;

        reveal_strlit("authenticated");
        reveal_strlit("user");
        assert("authenticated"@.len() == 13 && "user"@.len() == 4);
        lemma_map_get_found(es@, "authenticated"@, 0);
        lemma_map_get_found(es@, "user"@, 1);
    }
    ConfigValue::Mapping(es)
}

/// Encode a rule as a document: a map tagged by `phase`. Absent predicates
/// are written as nulls.
pub fn rule_to_value(rule: &Rule) -> (r: ConfigValue)
    ensures
        rule_rel(*rule, r),
{
    proof {
        broadcast use vstd::string::group_string_axioms;

        reveal_strlit("phase");
        reveal_strlit("action");
        reveal_strlit("matches");
        reveal_strlit("session_matches");
        reveal_strlit("headers_remove");
        reveal_strlit("headers_set");
        assert("phase"@.len() == 5 && "action"@.len() == 6 && "matches"@.len() == 7
            && "session_matches"@.len() == 15 && "headers_remove"@.len() == 14
            && "headers_set"@.len() == 11);
    }
    match rule {
        Rule::PreAuth(r) => {
            let mut es: Vec<(String, ConfigValue)> = Vec::new();
            es.push((String::from_str("phase"), ConfigValue::Str(String::from_str("pre-auth"))));
            es.push((String::from_str("action"), action_to_value(&r.action)));
            es.push((String::from_str("matches"), matches_to_value(&r.matches)));
            proof {
                lemma_map_get_found(es@, "phase"@, 0);
                lemma_map_get_found(es@, "action"@, 1);
                lemma_map_get_found(es@, "matches"@, 2);
            }
            ConfigValue::Mapping(es)
        },
        Rule::PostAuth(r) => {
            let matches_value = match &r.matches {
                Some(m) => matches_to_value(m),
                None => ConfigValue::Null,
            };
            let session_value = match &r.session_matches {
                Some(m) => session_to_value(m),
                None => ConfigValue::Null,
            };
            let mut es: Vec<(String, ConfigValue)> = Vec::new();
            es.push((String::from_str("phase"), ConfigValue::Str(String::from_str("post-auth"))));
            es.push((String::from_str("action"), action_to_value(&r.action)));
            es.push((String::from_str("matches"), matches_value));
            es.push((String::from_str("session_matches"), session_value));
            proof {
                lemma_map_get_found(es@, "phase"@, 0);
                lemma_map_get_found(es@, "action"@, 1);
                lemma_map_get_found(es@, "matches"@, 2);
                lemma_map_get_found(es@, "session_matches"@, 3);
            }
            ConfigValue::Mapping(es)
        },
        Rule::EnrichResponse(r) => {
            let matches_value = match &r.matches {
                Some(m) => matches_to_value(m),
                None => ConfigValue::Null,
            };
            let session_value = match &r.session_matches {
                Some(m) => session_to_value(m),
                None => ConfigValue::Null,
            };
            let mut es: Vec<(String, ConfigValue)> = Vec::new();
            es.push(
                (String::from_str("phase"), ConfigValue::Str(String::from_str("enrich-response"))),
            );
            es.push((String::from_str("headers_remove"), str_list_to_value(&r.headers_remove)));
            es.push((String::from_str("headers_set"), str_map_to_value(&r.headers_set)));
            es.push((String::from_str("matches"), matches_value));
            es.push((String::from_str("session_matches"), session_value));
            proof {
                lemma_map_get_found(es@, "phase"@, 0);
                lemma_map_get_found(es@, "headers_remove"@, 1);
                lemma_map_get_found(es@, "headers_set"@, 2);
                lemma_map_get_found(es@, "matches"@, 3);
                lemma_map_get_found(es@, "session_matches"@, 4);
            }
            ConfigValue::Mapping(es)
        },
    }
}

} // verus!

verus! {

/// Decode a string list.
fn str_list_from_value(v: &ConfigValue) -> (r: Result<Vec<String>, DecodeError>)
    ensures
        match r {
            Ok(xs) => str_list_rel(xs@, *v),
            Err(_) => forall|xs: Seq<String>| !str_list_rel(xs, *v),
        },
{
    let vs = match v {
        ConfigValue::List(vs) => vs,
        _ => {
            return Err(DecodeError {  });
        },
    };
    let mut xs: Vec<String> = Vec::new();
    let n = vs.len();
    let mut i: usize = 0;
    while i < n
        invariant
            0 <= i <= n,
            n == vs@.len(),
            xs@.len() == i,
            *v == ConfigValue::List(*vs),
            forall|j: int|
                0 <= j < i ==> ((#[trigger] vs@[j]) matches ConfigValue::Str(s) && s@ == xs@[j]@),
        decreases n - i,
    {
        match &vs[i] {
            ConfigValue::Str(s) => {
                xs.push(s.clone());
            },
            _ => {
                assert forall|ys: Seq<String>| !str_list_rel(ys, *v) by {
                    if ys.len() == vs@.len() {
                        assert(!(vs@[i as int] matches ConfigValue::Str(s) && s@ == ys[i as int]@));
                    }
                }
                return Err(DecodeError {  });
            },
        }
        i = i + 1;
    }
    Ok(xs)
}

/// Decode a map with string values into a (key, value) list in map order.
fn str_map_from_value(v: &ConfigValue) -> (r: Result<Vec<(String, String)>, DecodeError>)
    ensures
        match r {
            Ok(xs) => str_map_rel(xs@, *v),
            Err(_) => forall|xs: Seq<(String, String)>| !str_map_rel(xs, *v),
        },
{
    let es = match v {
        ConfigValue::Mapping(es) => es,
        _ => {
            return Err(DecodeError {  });
        },
    };
    let mut xs: Vec<(String, String)> = Vec::new();
    let n = es.len();
    let mut i: usize = 0;
    while i < n
        invariant
            0 <= i <= n,
            n == es@.len(),
            xs@.len() == i,
            *v == ConfigValue::Mapping(*es),
            forall|j: int|
                0 <= j < i ==> (#[trigger] es@[j]).0@ == xs@[j].0@ && (es@[j].1 matches
                ConfigValue::Str(s) && s@ == xs@[j].1@),
        decreases n - i,
    {
        match &es[i].1 {
            ConfigValue::Str(s) => {
                xs.push((es[i].0.clone(), s.clone()));
            },
            _ => {
                assert forall|ys: Seq<(String, String)>| !str_map_rel(ys, *v) by {
                    if ys.len() == es@.len() {
                        assert(!(es@[i as int].1 matches ConfigValue::Str(s) && s@
                            == ys[i as int].1@));
                    }
                }
                return Err(DecodeError {  });
            },
        }
        i = i + 1;
    }
    Ok(xs)
}

/// Decode an action.
fn action_from_value(v: &ConfigValue) -> (r: Result<RuleAction, DecodeError>)
    ensures
        match r {
            Ok(action) => v matches ConfigValue::Str(s) && s@ == action_text(action),
            Err(_) => forall|action: RuleAction|
                !(v matches ConfigValue::Str(s) && s@ == #[trigger] action_text(action)),
        },
{
    match v {
        ConfigValue::Str(s) => {
            let text = s.as_str();
            if str_eq(text, "allow") {
                Ok(RuleAction::Allow)
            } else if str_eq(text, "delegate") {
                Ok(RuleAction::Delegate)
            } else if str_eq(text, "deny") {
                Ok(RuleAction::Deny)
            } else {
                Err(DecodeError {  })
            }
        },
        _ => Err(DecodeError {  }),
    }
}

/// Decode a request predicate; absent dimensions default to unpopulated.
fn matches_from_value(v: &ConfigValue) -> (r: Result<RuleMatches, DecodeError>)
    ensures
        match r {
            Ok(m) => matches_rel(m, *v),
            Err(_) => forall|m: RuleMatches| !matches_rel(m, *v),
        },
{
    let es = match v {
        ConfigValue::Mapping(es) => es,
        _ => {
            return Err(DecodeError {  });
        },
    };
    let any = match entries_get(es, "any") {
        None => false,
        Some(ConfigValue::Bool(b)) => *b,
        Some(_) => {
            return Err(DecodeError {  });
        },
    };
    let domain = match entries_get(es, "domain") {
        None => Vec::new(),
        Some(d) => match str_list_from_value(d) {
            Ok(domain) => domain,
            Err(e) => {
                return Err(e);
            },
        },
    };
    let header_equal = match entries_get(es, "header_equal") {
        None => Vec::new(),
        Some(h) => match str_map_from_value(h) {
            Ok(header_equal) => header_equal,
            Err(e) => {
                return Err(e);
            },
        },
    };
    let uri = match entries_get(es, "uri") {
        None => Vec::new(),
        Some(u) => match str_list_from_value(u) {
            Ok(uri) => uri,
            Err(e) => {
                return Err(e);
            },
        },
    };
    Ok(RuleMatches { any, domain, header_equal, uri })
}

/// Decode an authentication predicate; absent fields default to unpopulated.
fn session_from_value(v: &ConfigValue) -> (r: Result<RuleSessionMatches, DecodeError>)
    ensures
        match r {
            Ok(m) => session_rel(m, *v),
            Err(_) => forall|m: RuleSessionMatches| !session_rel(m, *v),
        },
{
    let es = match v {
        ConfigValue::Mapping(es) => es,
        _ => {
            return Err(DecodeError {  });
        },
    };
    let authenticated = match entries_get(es, "authenticated") {
        None => None,
        Some(ConfigValue::Null) => None,
        Some(ConfigValue::Bool(b)) => Some(*b),
        Some(_) => {
            return Err(DecodeError {  });
        },
    };
    let user = match entries_get(es, "user") {
        None => Vec::new(),
        Some(u) => match str_list_from_value(u) {
            Ok(user) => user,
            Err(e) => {
                return Err(e);
            },
        },
    };
    Ok(RuleSessionMatches { authenticated, user })
}

/// Decode an optional request predicate: absent or null is no predicate.
fn opt_matches_from_value(slot: Option<&ConfigValue>) -> (r: Result<
    Option<RuleMatches>,
    DecodeError,
>)
    ensures
        match r {
            Ok(o) => opt_matches_rel(o, slot_view(slot)),
            Err(_) => forall|o: Option<RuleMatches>|
                !#[trigger] opt_matches_rel(o, slot_view(slot)),
        },
{
    match slot {
        None => Ok(None),
        Some(ConfigValue::Null) => Ok(None),
        Some(v) => match matches_from_value(v) {
            Ok(m) => Ok(Some(m)),
            Err(e) => Err(e),
        },
    }
}

/// Decode an optional authentication predicate: absent or null is no
/// predicate.
fn opt_session_from_value(slot: Option<&ConfigValue>) -> (r: Result<
    Option<RuleSessionMatches>,
    DecodeError,
>)
    ensures
        match r {
            Ok(o) => opt_session_rel(o, slot_view(slot)),
            Err(_) => forall|o: Option<RuleSessionMatches>|
                !#[trigger] opt_session_rel(o, slot_view(slot)),
        },
{
    match slot {
        None => Ok(None),
        Some(ConfigValue::Null) => Ok(None),
        Some(v) => match session_from_value(v) {
            Ok(m) => Ok(Some(m)),
            Err(e) => Err(e),
        },
    }
}

/// Decode a rule from a document: the inverse of `rule_to_value`. The map
/// must carry a known `phase` tag and the variant's required fields; unknown
/// keys are ignored.
pub fn rule_from_value(v: &ConfigValue) -> (r: Result<Rule, DecodeError>)
    ensures
        match r {
            Ok(rule) => rule_rel(rule, *v),
            Err(_) => forall|rule: Rule| !rule_rel(rule, *v),
        },
{
    proof {
        broadcast use vstd::string::group_string_axioms;

        reveal_strlit("pre-auth");
        reveal_strlit("post-auth");
        reveal_strlit("enrich-response");
        assert("pre-auth"@.len() == 8 && "post-auth"@.len() == 9 && "enrich-response"@.len() == 15);
    }
    let es = match v {
        ConfigValue::Mapping(es) => es,
        _ => {
            return Err(DecodeError {  });
        },
    };
    let phase = match entries_get(es, "phase") {
        Some(ConfigValue::Str(s)) => s,
        _ => {
            return Err(DecodeError {  });
        },
    };
    if str_eq(phase.as_str(), "pre-auth") {
        let action = match entries_get(es, "action") {
            Some(a) => match action_from_value(a) {
                Ok(action) => action,
                Err(e) => {
                    return Err(e);
                },
            },
            None => {
                return Err(DecodeError {  });
            },
        };
        let matches = match entries_get(es, "matches") {
            Some(m) => match matches_from_value(m) {
                Ok(matches) => matches,
                Err(e) => {
                    return Err(e);
                },
            },
            None => {
                return Err(DecodeError {  });
            },
        };
        Ok(Rule::PreAuth(PreAuthRule { action, matches }))
    } else if str_eq(phase.as_str(), "post-auth") {
        let action = match entries_get(es, "action") {
            Some(a) => match action_from_value(a) {
                Ok(action) => action,
                Err(e) => {
                    return Err(e);
                },
            },
            None => {
                return Err(DecodeError {  });
            },
        };
        let matches_slot = entries_get(es, "matches");
        let ghost msv: Option<ConfigValue> = slot_view(matches_slot);
        proof {
            assert(msv == map_get(es@, "matches"@));
        }
        let matches = match opt_matches_from_value(matches_slot) {
            Ok(matches) => matches,
            Err(e) => {
                proof {
                    assert(forall|o: Option<RuleMatches>| !#[trigger] opt_matches_rel(o, msv));
                }
                return Err(e);
            },
        };
        let session_slot = entries_get(es, "session_matches");
        let ghost ssv: Option<ConfigValue> = slot_view(session_slot);
        proof {
            assert(ssv == map_get(es@, "session_matches"@));
        }
        let session_matches = match opt_session_from_value(session_slot) {
            Ok(session_matches) => session_matches,
            Err(e) => {
                proof {
                    assert(forall|o: Option<RuleSessionMatches>| !#[trigger] opt_session_rel(
                        o,
                        ssv,
                    ));
                }
                return Err(e);
            },
        };
        Ok(Rule::PostAuth(PostAuthRule { action, matches, session_matches }))
    } else if str_eq(phase.as_str(), "enrich-response") {
        let headers_remove = match entries_get(es, "headers_remove") {
            None => Vec::new(),
            Some(h) => match str_list_from_value(h) {
                Ok(headers_remove) => headers_remove,
                Err(e) => {
                    return Err(e);
                },
            },
        };
        let headers_set = match entries_get(es, "headers_set") {
            None => Vec::new(),
            Some(h) => match str_map_from_value(h) {
                Ok(headers_set) => headers_set,
                Err(e) => {
                    return Err(e);
                },
            },
        };
        let matches_slot = entries_get(es, "matches");
        let ghost msv: Option<ConfigValue> = slot_view(matches_slot);
        proof {
            assert(msv == map_get(es@, "matches"@));
        }
        let matches = match opt_matches_from_value(matches_slot) {
            Ok(matches) => matches,
            Err(e) => {
                proof {
                    assert(forall|o: Option<RuleMatches>| !#[trigger] opt_matches_rel(o, msv));
                }
                return Err(e);
            },
        };
        let session_slot = entries_get(es, "session_matches");
        let ghost ssv: Option<ConfigValue> = slot_view(session_slot);
        proof {
            assert(ssv == map_get(es@, "session_matches"@));
        }
        let session_matches = match opt_session_from_value(session_slot) {
            Ok(session_matches) => session_matches,
            Err(e) => {
                proof {
                    assert(forall|o: Option<RuleSessionMatches>| !#[trigger] opt_session_rel(
                        o,
                        ssv,
                    ));
                }
                return Err(e);
            },
        };
        Ok(
            Rule::EnrichResponse(
                EnrichResponseRule { headers_remove, headers_set, matches, session_matches },
            ),
        )
    } else {
        Err(DecodeError {  })
    }
}

} // verus!

verus! {

/// Two string lists with the same contents.
pub open spec fn str_list_eq(a: Seq<String>, b: Seq<String>) -> bool {
    a.len() == b.len() && forall|i: int| 0 <= i < a.len() ==> (#[trigger] a[i])@ == b[i]@
}

/// Two (key, value) string lists with the same contents.
pub open spec fn str_pairs_eq(a: Seq<(String, String)>, b: Seq<(String, String)>) -> bool {
    a.len() == b.len() && forall|i: int|
        0 <= i < a.len() ==> (#[trigger] a[i]).0@ == b[i].0@ && a[i].1@ == b[i].1@
}

/// Two request predicates with the same contents.
pub open spec fn matches_eq(a: RuleMatches, b: RuleMatches) -> bool {
    &&& a.any == b.any
    &&& str_list_eq(a.domain@, b.domain@)
    &&& str_pairs_eq(a.header_equal@, b.header_equal@)
    &&& str_list_eq(a.uri@, b.uri@)
}

/// Two authentication predicates with the same contents.
pub open spec fn session_eq(a: RuleSessionMatches, b: RuleSessionMatches) -> bool {
    &&& a.authenticated == b.authenticated
    &&& str_list_eq(a.user@, b.user@)
}

/// Two optional request predicates with the same contents.
pub open spec fn opt_matches_eq(a: Option<RuleMatches>, b: Option<RuleMatches>) -> bool {
    match (a, b) {
        (None, None) => true,
        (Some(x), Some(y)) => matches_eq(x, y),
        _ => false,
    }
}

/// Two optional authentication predicates with the same contents.
pub open spec fn opt_session_eq(
    a: Option<RuleSessionMatches>,
    b: Option<RuleSessionMatches>,
) -> bool {
    match (a, b) {
        (None, None) => true,
        (Some(x), Some(y)) => session_eq(x, y),
        _ => false,
    }
}

/// Two structurally identical rules: the same variant, with the same contents
/// in every field.
pub open spec fn rule_eq(a: Rule, b: Rule) -> bool {
    match (a, b) {
        (Rule::PreAuth(x), Rule::PreAuth(y)) => x.action == y.action && matches_eq(
            x.matches,
            y.matches,
        ),
        (Rule::PostAuth(x), Rule::PostAuth(y)) => x.action == y.action && opt_matches_eq(
            x.matches,
            y.matches,
        ) && opt_session_eq(x.session_matches, y.session_matches),
        (Rule::EnrichResponse(x), Rule::EnrichResponse(y)) => str_list_eq(
            x.headers_remove@,
            y.headers_remove@,
        ) && str_pairs_eq(x.headers_set@, y.headers_set@) && opt_matches_eq(x.matches, y.matches)
            && opt_session_eq(x.session_matches, y.session_matches),
        _ => false,
    }
}

/// A document determines the string list it encodes.
proof fn lemma_str_list_rel_unique(a: Seq<String>, b: Seq<String>, v: ConfigValue)
    requires
        str_list_rel(a, v),
        str_list_rel(b, v),
    ensures
        str_list_eq(a, b),
{
    match v {
        ConfigValue::List(vs) => {
            assert forall|i: int| 0 <= i < a.len() implies (#[trigger] a[i])@ == b[i]@ by {
                assert(vs@[i] matches ConfigValue::Str(s) && s@ == a[i]@);
                assert(vs@[i] matches ConfigValue::Str(s) && s@ == b[i]@);
            }
        },
        _ => {},
    }
}

/// A document determines the (key, value) string list it encodes.
proof fn lemma_str_pairs_rel_unique(a: Seq<(String, String)>, b: Seq<(String, String)>, v: ConfigValue)
    requires
        str_map_rel(a, v),
        str_map_rel(b, v),
    ensures
        str_pairs_eq(a, b),
{
    match v {
        ConfigValue::Mapping(es) => {
            assert forall|i: int|
                0 <= i < a.len() implies (#[trigger] a[i]).0@ == b[i].0@ && a[i].1@ == b[i].1@ by {
                assert(es@[i].0@ == a[i].0@ && (es@[i].1 matches ConfigValue::Str(s) && s@
                    == a[i].1@));
                assert(es@[i].0@ == b[i].0@ && (es@[i].1 matches ConfigValue::Str(s) && s@
                    == b[i].1@));
            }
        },
        _ => {},
    }
}

/// A document determines the request predicate it encodes.
proof fn lemma_matches_rel_unique(a: RuleMatches, b: RuleMatches, v: ConfigValue)
    requires
        matches_rel(a, v),
        matches_rel(b, v),
    ensures
        matches_eq(a, b),
{
    match v {
        ConfigValue::Mapping(es) => {
            match map_get(es@, "domain"@) {
                None => {},
                Some(d) => {
                    lemma_str_list_rel_unique(a.domain@, b.domain@, d);
                },
            }
            match map_get(es@, "header_equal"@) {
                None => {},
                Some(h) => {
                    lemma_str_pairs_rel_unique(a.header_equal@, b.header_equal@, h);
                },
            }
            match map_get(es@, "uri"@) {
                None => {},
                Some(u) => {
                    lemma_str_list_rel_unique(a.uri@, b.uri@, u);
                },
            }
        },
        _ => {},
    }
}

/// A document determines the authentication predicate it encodes.
proof fn lemma_session_rel_unique(a: RuleSessionMatches, b: RuleSessionMatches, v: ConfigValue)
    requires
        session_rel(a, v),
        session_rel(b, v),
    ensures
        session_eq(a, b),
{
    match v {
        ConfigValue::Mapping(es) => {
            match map_get(es@, "user"@) {
                None => {},
                Some(u) => {
                    lemma_str_list_rel_unique(a.user@, b.user@, u);
                },
            }
        },
        _ => {},
    }
}

/// A document slot determines the optional request predicate it encodes.
proof fn lemma_opt_matches_rel_unique(
    a: Option<RuleMatches>,
    b: Option<RuleMatches>,
    slot: Option<ConfigValue>,
)
    requires
        opt_matches_rel(a, slot),
        opt_matches_rel(b, slot),
    ensures
        opt_matches_eq(a, b),
{
    match slot {
        None => {},
        Some(ConfigValue::Null) => {},
        Some(v) => {
            lemma_matches_rel_unique(a->Some_0, b->Some_0, v);
        },
    }
}

/// A document slot determines the optional authentication predicate it
/// encodes.
proof fn lemma_opt_session_rel_unique(
    a: Option<RuleSessionMatches>,
    b: Option<RuleSessionMatches>,
    slot: Option<ConfigValue>,
)
    requires
        opt_session_rel(a, slot),
        opt_session_rel(b, slot),
    ensures
        opt_session_eq(a, b),
{
    match slot {
        None => {},
        Some(ConfigValue::Null) => {},
        Some(v) => {
            lemma_session_rel_unique(a->Some_0, b->Some_0, v);
        },
    }
}

/// A document determines the rule it encodes: two rules related to the same
/// document are structurally identical.
pub proof fn lemma_rule_rel_unique(a: Rule, b: Rule, v: ConfigValue)
    requires
        rule_rel(a, v),
        rule_rel(b, v),
    ensures
        rule_eq(a, b),
{
    broadcast use vstd::string::group_string_axioms;

    reveal_strlit("pre-auth");
    reveal_strlit("post-auth");
    reveal_strlit("enrich-response");
    reveal_strlit("allow");
    reveal_strlit("delegate");
    reveal_strlit("deny");
    assert("pre-auth"@.len() == 8 && "post-auth"@.len() == 9 && "enrich-response"@.len() == 15);
    assert("allow"@.len() == 5 && "delegate"@.len() == 8 && "deny"@.len() == 4);
    match v {
        ConfigValue::Mapping(es) => {
            match (a, b) {
                (Rule::PreAuth(x), Rule::PreAuth(y)) => {
                    match map_get(es@, "matches"@) {
                        Some(mv) => {
                            lemma_matches_rel_unique(x.matches, y.matches, mv);
                        },
                        None => {},
                    }
                },
                (Rule::PostAuth(x), Rule::PostAuth(y)) => {
                    lemma_opt_matches_rel_unique(x.matches, y.matches, map_get(es@, "matches"@));
                    lemma_opt_session_rel_unique(
                        x.session_matches,
                        y.session_matches,
                        map_get(es@, "session_matches"@),
                    );
                },
                (Rule::EnrichResponse(x), Rule::EnrichResponse(y)) => {
                    match map_get(es@, "headers_remove"@) {
                        Some(h) => {
                            lemma_str_list_rel_unique(x.headers_remove@, y.headers_remove@, h);
                        },
                        None => {},
                    }
                    match map_get(es@, "headers_set"@) {
                        Some(h) => {
                            lemma_str_pairs_rel_unique(x.headers_set@, y.headers_set@, h);
                        },
                        None => {},
                    }
                    lemma_opt_matches_rel_unique(x.matches, y.matches, map_get(es@, "matches"@));
                    lemma_opt_session_rel_unique(
                        x.session_matches,
                        y.session_matches,
                        map_get(es@, "session_matches"@),
                    );
                },
                _ => {},
            }
        },
        _ => {},
    }
}

/// Law: a rule survives the trip through its document encoding structurally
/// identical — decoding what was encoded gives the same rule, variant and
/// fields alike, with strings compared by their contents.
pub fn rule_round_trip(rule: &Rule) -> (r: Rule)
    ensures
        rule_eq(*rule, r),
{
    let encoded = rule_to_value(rule);
    match rule_from_value(&encoded) {
        Ok(decoded) => {
            proof {
                lemma_rule_rel_unique(*rule, decoded, encoded);
            }
            decoded
        },
        Err(_) => {
            proof {
                assert(rule_rel(*rule, encoded));
                assert(false);
            }
            rule.clone()
        },
    }
}

} // verus!
