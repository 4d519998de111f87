//! Configuration value types: what the gateway is told at startup about its
//! bind address, logging, audit sink, authenticator backend and rule files.
//! Loading the file itself is I/O and lives outside the library; parsing the
//! loaded document into these types lives in the codec module.

use vstd::prelude::*;
use vstd::string::*;

verus! {

/// Log severity filter, mirroring the standard levels.
#[derive(Clone, Copy, Debug, PartialEq, Eq, Structural)]
pub enum LevelFilter {
    /// A level lower than all log levels.
    Off,
    Error,
    Warn,
    Info,
    Debug,
    Trace,
}

impl Default for LevelFilter {
    /// The default severity filter.
    fn default() -> (r: LevelFilter)
        ensures
            r == LevelFilter::Info,
    {
        LevelFilter::Info
    }
}

/// Configuration options for the database audit reporter.
#[derive(Clone, Debug, PartialEq, Eq)]
pub struct MongoDBAuditConfig {
    /// Collection to insert audit records into.
    pub collection: String,
    /// Database to insert audit records into.
    pub database: String,
    /// Database connection URI string.
    pub uri: String,
}

impl MongoDBAuditConfig {
    /// The default audit collection name.
    pub fn default_collection() -> (r: String)
        ensures
            r@ == "audit"@,
    {
        String::from_str("audit")
    }
}

/// Supported audit record backends.
#[derive(Clone, Debug, PartialEq, Eq)]
pub enum AuditBackend {
    /// Emit audit records as log events.
    Log,
    /// Drop all audit records.
    Noop,
}

impl Default for AuditBackend {
    /// The default audit backend.
    fn default() -> (r: AuditBackend)
        ensures
            r == AuditBackend::Noop,
    {
        AuditBackend::Noop
    }
}

/// Header of the upstream check response to fetch user IDs from.
#[derive(Clone, Copy, Debug, PartialEq, Eq, Structural)]
pub enum OAuth2ProxyUserIdSourceHeader {
    /// Use the user email from `X-Auth-Request-Email`.
    Email,
    /// Use the user id from `X-Auth-Request-User`.
    User,
}

impl Default for OAuth2ProxyUserIdSourceHeader {
    /// The default user ID source.
    fn default() -> (r: OAuth2ProxyUserIdSourceHeader)
        ensures
            r == OAuth2ProxyUserIdSourceHeader::User,
    {
        OAuth2ProxyUserIdSourceHeader::User
    }
}

/// OAuth2-style upstream check backend configuration.
#[derive(Debug, PartialEq, Eq)]
pub struct OAuth2ProxyConfig {
    /// Address to reach the upstream authentication server.
    pub address: String,
    /// Domain the upstream sign-in UI is on, used to allow requests so users
    /// can sign in.
    pub auth_domain: Option<String>,
    /// URI prefix the upstream sign-in UI is under.
    pub prefix: String,
    /// Timeout, in seconds, to wait for the upstream to respond.
    pub timeout_sec: u64,
    /// Header of the upstream response to fetch user IDs from.
    pub user_id_source_header: OAuth2ProxyUserIdSourceHeader,
}

impl Clone for OAuth2ProxyConfig {
    /// An equal configuration value.
    fn clone(&self) -> (r: Self)
        ensures
            r == *self,
    {
        OAuth2ProxyConfig {
            address: self.address.clone(),
            auth_domain: match &self.auth_domain {
                Some(domain) => Some(domain.clone()),
                None => None,
            },
            prefix: self.prefix.clone(),
            timeout_sec: self.timeout_sec,
            user_id_source_header: self.user_id_source_header,
        }
    }
}

impl OAuth2ProxyConfig {
    /// The default upstream address.
    pub fn default_address() -> (r: String)
        ensures
            r@ == "http://127.0.0.1:4180"@,
    {
        String::from_str("http://127.0.0.1:4180")
    }

    /// The default sign-in UI prefix.
    pub fn default_proxy_prefix() -> (r: String)
        ensures
            r@ == "/oauth2"@,
    {
        String::from_str("/oauth2")
    }

    /// The default upstream timeout, in seconds.
    pub fn default_timeout_sec() -> (r: u64)
        ensures
            r == 5,
    {
        5
    }
}

/// Supported authenticator backends and their options.
#[derive(Clone, Debug, PartialEq, Eq)]
pub enum AuthenticatorBackend {
    /// Debug authenticator that allows every request.
    AllowAll,
    /// Authenticate users against an OAuth2-style upstream check endpoint.
    OAuth2Proxy(OAuth2ProxyConfig),
}

/// Authenticator configuration and backend options.
#[derive(Clone, Debug, PartialEq, Eq)]
pub struct AuthenticatorConfig {
    /// Selected backend and its configuration.
    pub backend: AuthenticatorBackend,
    /// If the authenticator returns a user ID, return it in this response
    /// header.
    pub user_id_header: String,
}

impl AuthenticatorConfig {
    /// The default identity response header.
    pub fn default_user_id_header() -> (r: String)
        ensures
            r@ == "x-auth-request-user"@,
    {
        String::from_str("x-auth-request-user")
    }
}

/// Gateway configuration options.
#[derive(Clone, Debug, PartialEq, Eq)]
pub struct Config {
    /// The audit reporter to use.
    pub audit: AuditBackend,
    /// The authentication backend to use.
    pub authenticator: AuthenticatorConfig,
    /// Bind address for the HTTP server, in the format `address:port`.
    pub bind: String,
    /// Filter out log events below this severity.
    pub log_level: LevelFilter,
    /// Files to load rules from, in order.
    pub rule_files: Vec<String>,
}

impl Config {
    /// The default bind address.
    pub fn default_bind() -> (r: String)
        ensures
            r@ == "127.0.0.1:8090"@,
    {
        String::from_str("127.0.0.1:8090")
    }
}

} // verus!
