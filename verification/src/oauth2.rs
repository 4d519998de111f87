//! The OAuth2-style upstream check backend: canonicalises its configuration,
//! recognises the upstream's own sign-in UI requests, and interprets the
//! upstream's answer. The HTTP call to the upstream is made by the driver
//! around the library; the decision logic on its status and headers is here.
//! Access tokens never leave the process un-hashed: the session ID is the
//! SHA3-512 digest of the token, upper-case hex encoded.

use vstd::prelude::*;
use vstd::string::*;

use sha3::Digest;

use crate::config::OAuth2ProxyConfig;
use crate::config::OAuth2ProxyUserIdSourceHeader;
use crate::context::AuthenticationContext;
use crate::context::RequestContext;
use crate::context::find_raw;
use crate::context::raw_view;
use crate::models::AuditReason;
use crate::models::AuthenticationResult;
use crate::models::AuthenticationStatus;
use crate::strutil::is_prefix_of;
use crate::strutil::starts_with;
use crate::strutil::str_eq;

verus! {

/// The upper-case hex rendering of the SHA3-512 digest of a token: what the
/// gateway stores as an opaque session ID. The digest depends on the token
/// alone, so equal tokens always map to the same session ID.
pub uninterp spec fn session_hash_of(token: Seq<char>) -> Seq<char>;

/// Relies on sha3::Sha3_512 (via the digest traits): the digest is a function
/// of the input bytes alone; it is rendered as upper-case hex, two digits per
/// byte.
#[verifier::external_body]
fn hash_session(token: &str) -> (r: String)
    ensures
        r@ == session_hash_of(token@),
{
    let digest = sha3::Sha3_512::digest(token.as_bytes());
    digest.iter().map(|b| format!("{:02X}", b)).collect()
}

/// `s` without its trailing `/` characters.
pub open spec fn strip_trailing_slashes(s: Seq<char>) -> Seq<char>
    decreases s.len(),
{
    if s.len() > 0 && s.last() == '/' {
        strip_trailing_slashes(s.drop_last())
    } else {
        s
    }
}

/// `s` with a leading `/` enforced.
pub open spec fn with_leading_slash(s: Seq<char>) -> Seq<char> {
    if s.len() > 0 && s[0] == '/' {
        s
    } else {
        seq!['/'] + s
    }
}

/// `s` with a trailing `/` enforced.
pub open spec fn with_trailing_slash(s: Seq<char>) -> Seq<char> {
    if s.len() > 0 && s.last() == '/' {
        s
    } else {
        s.push('/')
    }
}

/// Strip every trailing `/` from a string.
fn trim_trailing_slashes(s: &str) -> (r: String)
    ensures
        r@ == strip_trailing_slashes(s@),
{
    let n = s.unicode_len();
    let mut end = n;
    proof {
        assert(s@.subrange(0, n as int) =~= s@);
    }
    while end > 0 && s.get_char(end - 1) == '/'
        invariant
            0 <= end <= n,
            n == s@.len(),
            strip_trailing_slashes(s@) == strip_trailing_slashes(s@.subrange(0, end as int)),
        decreases end,
    {
        proof {
            assert(s@.subrange(0, end as int).last() == s@[end - 1]);
            assert(s@.subrange(0, end as int).drop_last() =~= s@.subrange(0, end - 1 as int));
        }
        end = end - 1;
    }
    let r = s.substring_char(0, end);
    proof {
        if end > 0 {
            assert(s@.subrange(0, end as int).last() == s@[end - 1]);
        }
    }
    String::from_str(r)
}

/// The canonicalised upstream backend: its configuration with the address
/// stripped of trailing slashes and the prefix enclosed in slashes.
pub struct OAuth2Proxy {
    /// The canonicalised configuration.
    pub config: OAuth2ProxyConfig,
}

/// The canonical form of an upstream configuration.
pub open spec fn canonical_config(config: OAuth2ProxyConfig, canon: OAuth2ProxyConfig) -> bool {
    &&& canon.address@ == strip_trailing_slashes(config.address@)
    &&& canon.prefix@ == with_trailing_slash(with_leading_slash(config.prefix@))
    &&& canon.auth_domain == config.auth_domain
    &&& canon.timeout_sec == config.timeout_sec
    &&& canon.user_id_source_header == config.user_id_source_header
}

/// The sign-in UI bypass: the request targets the upstream's own UI paths —
/// its URI starts with the canonical prefix and, when an auth domain is
/// configured, its host equals that domain.
pub open spec fn spec_is_auth_ui(config: OAuth2ProxyConfig, context: RequestContext) -> bool {
    &&& is_prefix_of(config.prefix@, context.uri@)
    &&& (config.auth_domain matches Some(domain) ==> context.host@ == domain@)
}

impl OAuth2Proxy {
    /// Return an upstream backend from the configuration, canonicalising the
    /// address and the prefix.
    pub fn from_config(config: &OAuth2ProxyConfig) -> (r: OAuth2Proxy)
        ensures
            canonical_config(*config, r.config),
    {
        let address = trim_trailing_slashes(config.address.as_str());
        let mut prefix = if !starts_with(config.prefix.as_str(), "/") {
            proof {
                reveal_strlit("/");
            }
            String::from_str("/").concat(config.prefix.as_str())
        } else {
            config.prefix.clone()
        };
        proof {
            reveal_strlit("/");
            if is_prefix_of("/"@, config.prefix@) {
                assert(config.prefix@.subrange(0, 1)[0] == config.prefix@[0]);
                assert(config.prefix@[0] == '/');
            } else {
                if config.prefix@.len() > 0 && config.prefix@[0] == '/' {
                    assert(config.prefix@.subrange(0, 1) =~= "/"@);
                }
            }
            assert(prefix@ =~= with_leading_slash(config.prefix@));
        }
        let plen = prefix.as_str().unicode_len();
        let ghost led = prefix@;
        if plen == 0 || prefix.as_str().get_char(plen - 1) != '/' {
            prefix = prefix.concat("/");
            proof {
                reveal_strlit("/");
                assert(prefix@ =~= led.push('/'));
            }
        }
        let auth_domain = match &config.auth_domain {
            Some(domain) => Some(domain.clone()),
            None => None,
        };
        OAuth2Proxy {
            config: OAuth2ProxyConfig {
                address,
                auth_domain,
                prefix,
                timeout_sec: config.timeout_sec,
                user_id_source_header: config.user_id_source_header,
            },
        }
    }

    /// Decide whether the request targets the upstream's own sign-in UI and
    /// must bypass authentication so users can log in: such a request is
    /// allowed outright.
    pub fn check_auth_ui(&self, context: &RequestContext) -> (r: Option<AuthenticationResult>)
        ensures
            spec_is_auth_ui(self.config, *context) ==> (r matches Some(res) && res.status
                == AuthenticationStatus::Allowed && res.audit_reason == AuditReason::PreAuthAllowed
                && res.authentication_context == AuthenticationContext::spec_unauthenticated()
                && res.headers@ == Seq::<(Seq<char>, Seq<char>)>::empty()),
            !spec_is_auth_ui(self.config, *context) ==> r is None,
    {
        let mut auth_ui = starts_with(context.uri.as_str(), self.config.prefix.as_str());
        match &self.config.auth_domain {
            Some(domain) => {
                auth_ui = auth_ui && str_eq(context.host.as_str(), domain.as_str());
            },
            None => {},
        }
        if auth_ui {
            let mut result = AuthenticationResult::allowed();
            result.audit_reason = AuditReason::PreAuthAllowed;
            Some(result)
        } else {
            None
        }
    }

    /// The URL of the upstream check endpoint the driver must call.
    pub fn auth_url(&self) -> (r: String)
        ensures
            r@ == self.config.address@ + self.config.prefix@ + "auth"@,
    {
        self.config.address.clone().concat(self.config.prefix.as_str()).concat("auth")
    }

    /// Interpret the upstream's answer: 202 allows, 401 requires a login, any
    /// other status denies. For the first two, the user is taken from the
    /// configured identity header and the session from the hashed access
    /// token; a header whose value was not UTF-8 is treated as absent.
    pub fn interpret_response(&self, status: u16, headers: &Vec<(String, Option<String>)>) -> (r:
        AuthenticationResult)
        ensures
            r.wf(),
            r.headers@ == Seq::<(Seq<char>, Seq<char>)>::empty(),
            status != 202 && status != 401 ==> r.status == AuthenticationStatus::Denied
                && r.audit_reason == AuditReason::Denied && r.authentication_context
                == AuthenticationContext::spec_unauthenticated(),
            status == 202 || status == 401 ==> {
                &&& r.status == (if status == 202 {
                    AuthenticationStatus::Allowed
                } else {
                    AuthenticationStatus::MustLogin
                })
                &&& r.audit_reason == (if status == 202 {
                    AuditReason::Allowed
                } else {
                    AuditReason::InvalidSession
                })
                &&& r.authentication_context.authenticated == (status == 202)
                &&& ({
                    let source = match self.config.user_id_source_header {
                        OAuth2ProxyUserIdSourceHeader::Email => "x-auth-request-email"@,
                        OAuth2ProxyUserIdSourceHeader::User => "x-auth-request-user"@,
                    };
                    match find_raw(raw_view(headers@), source) {
                        Some(Some(user)) => r.authentication_context.user matches Some(u) && u@
                            == user,
                        _ => r.authentication_context.user is None,
                    }
                })
                &&& match find_raw(raw_view(headers@), "x-auth-request-access-token"@) {
                    Some(Some(token)) => r.authentication_context.session matches Some(s) && s@
                        == session_hash_of(token),
                    _ => r.authentication_context.session is None,
                }
            },
    {
        let auth_status = match status {
            202 => AuthenticationStatus::Allowed,
            401 => AuthenticationStatus::MustLogin,
            _ => {
                return AuthenticationResult::denied();
            },
        };
        let user = match self.config.user_id_source_header {
            OAuth2ProxyUserIdSourceHeader::Email => extract_email(headers),
            OAuth2ProxyUserIdSourceHeader::User => extract_user(headers),
        };
        let session = extract_session(headers);
        let mut result = AuthenticationResult::from_status(auth_status);
        result.authentication_context.authenticated = result.status.authenticated();
        result.authentication_context.user = user;
        result.authentication_context.session = session;
        result
    }
}

/// Extract the named header from upstream response headers; a missing header
/// or a non-UTF-8 value yields nothing.
fn extract_header(headers: &Vec<(String, Option<String>)>, header: &str) -> (r: Option<String>)
    ensures
        match find_raw(raw_view(headers@), header@) {
            Some(Some(value)) => r matches Some(v) && v@ == value,
            _ => r is None,
        },
{
    let n = headers.len();
    let ghost v = raw_view(headers@);
    proof {
        assert(v.subrange(0, n as int) =~= v);
    }
    let mut i: usize = 0;
    while i < n
        invariant
            0 <= i <= n,
            n == headers@.len(),
            v == raw_view(headers@),
            find_raw(v, header@) == find_raw(v.subrange(i as int, n as int), header@),
        decreases n - i,
    {
        let ghost tail = v.subrange(i as int, n as int);
        proof {
            assert(tail[0] == v[i as int]);
            assert(tail.drop_first() =~= v.subrange(i + 1 as int, n as int));
        }
        if crate::strutil::str_eq_ci(headers[i].0.as_str(), header) {
            return match &headers[i].1 {
                Some(value) => Some(value.clone()),
                None => None,
            };
        }
        i = i + 1;
    }
    proof {
        assert(v.subrange(n as int, n as int) =~= Seq::<(Seq<char>, Option<Seq<char>>)>::empty());
    }
    None
}

/// Extract the user email from upstream response headers.
fn extract_email(headers: &Vec<(String, Option<String>)>) -> (r: Option<String>)
    ensures
        match find_raw(raw_view(headers@), "x-auth-request-email"@) {
            Some(Some(value)) => r matches Some(v) && v@ == value,
            _ => r is None,
        },
{
    extract_header(headers, "x-auth-request-email")
}

/// Extract the user ID from upstream response headers.
fn extract_user(headers: &Vec<(String, Option<String>)>) -> (r: Option<String>)
    ensures
        match find_raw(raw_view(headers@), "x-auth-request-user"@) {
            Some(Some(value)) => r matches Some(v) && v@ == value,
            _ => r is None,
        },
{
    extract_header(headers, "x-auth-request-user")
}

/// Extract the session ID from upstream response headers: the access token,
/// one-way hashed so it becomes unusable while staying unique per token.
fn extract_session(headers: &Vec<(String, Option<String>)>) -> (r: Option<String>)
    ensures
        match find_raw(raw_view(headers@), "x-auth-request-access-token"@) {
            Some(Some(token)) => r matches Some(s) && s@ == session_hash_of(token),
            _ => r is None,
        },
{
    match extract_header(headers, "x-auth-request-access-token") {
        Some(token) => Some(hash_session(token.as_str())),
        None => None,
    }
}

/// Instantiate per-worker upstream backends from a shared configuration.
pub struct OAuth2ProxyFactory {
    /// The configuration each instance is built from.
    pub config: OAuth2ProxyConfig,
}

impl OAuth2ProxyFactory {
    /// Capture the configuration for later `make` calls.
    pub fn from_config(config: &OAuth2ProxyConfig) -> (r: OAuth2ProxyFactory)
        ensures
            r.config == *config,
    {
        OAuth2ProxyFactory { config: config.clone() }
    }

    /// Build a worker-local backend instance.
    pub fn make(&self) -> (r: OAuth2Proxy)
        ensures
            canonical_config(self.config, r.config),
    {
        OAuth2Proxy::from_config(&self.config)
    }
}

} // verus!
