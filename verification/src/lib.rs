//! Authentication gateway core: the per-request decision pipeline behind the
//! reverse-proxy `auth_request` pattern, with a rule engine evaluated before
//! and after a pluggable authentication backend, response enrichment, and
//! audit record construction.

pub mod audit;
pub mod authenticator;
pub mod codec;
pub mod config;
pub mod context;
pub mod docvalue;
pub mod engine;
pub mod errors;
pub mod headers;
pub mod laws;
pub mod models;
pub mod oauth2;
pub mod rules;
pub mod server;
pub mod strutil;
