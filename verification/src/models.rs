//! Outcome values of the authentication process: the status returned to the
//! proxy, the audit reason recorded for it, and the result value the
//! pipeline threads through its stages.

use vstd::prelude::*;

use crate::context::AuthenticationContext;
use crate::headers::Headers;

verus! {

/// Result of the authentication proxy decision on the request.
#[derive(Clone, Copy, Debug, PartialEq, Eq, Structural)]
pub enum AuthenticationStatus {
    /// The request is allowed.
    Allowed,
    /// The request is denied.
    Denied,
    /// The request is denied, a new authentication session may be required.
    MustLogin,
}

impl AuthenticationStatus {
    /// Check if the AuthenticationStatus is allowed.
    pub fn authenticated(&self) -> (r: bool)
        ensures
            r == (*self == AuthenticationStatus::Allowed),
    {
        matches!(*self, AuthenticationStatus::Allowed)
    }
}

/// Reason for the authentication response provided for a request.
#[derive(Clone, Copy, Debug, PartialEq, Eq, Structural)]
pub enum AuditReason {
    /// The request was allowed by the backend.
    Allowed,
    /// The request was denied by the backend.
    Denied,
    /// The request was denied by the backend requesting a new session.
    InvalidSession,
    /// The request was allowed by a post-auth phase rule.
    PostAuthAllowed,
    /// The request was denied by a post-auth phase rule.
    PostAuthDenied,
    /// The request was allowed by a pre-auth phase rule.
    PreAuthAllowed,
    /// The request was denied by a pre-auth phase rule.
    PreAuthDenied,
}

/// The consistency table between a status and its audit reason: an allowing
/// reason goes with `Allowed`, a denying reason with `Denied`, and
/// `InvalidSession` with `MustLogin`.
pub open spec fn reason_consistent(status: AuthenticationStatus, reason: AuditReason) -> bool {
    match reason {
        AuditReason::Allowed => status == AuthenticationStatus::Allowed,
        AuditReason::PreAuthAllowed => status == AuthenticationStatus::Allowed,
        AuditReason::PostAuthAllowed => status == AuthenticationStatus::Allowed,
        AuditReason::Denied => status == AuthenticationStatus::Denied,
        AuditReason::PreAuthDenied => status == AuthenticationStatus::Denied,
        AuditReason::PostAuthDenied => status == AuthenticationStatus::Denied,
        AuditReason::InvalidSession => status == AuthenticationStatus::MustLogin,
    }
}

/// Final outcome of the authentication process for one request.
#[derive(Clone, Debug)]
pub struct AuthenticationResult {
    /// Reason for the authentication result, for the audit record.
    pub audit_reason: AuditReason,
    /// Authentication context, to match post-auth rules and build responses.
    pub authentication_context: AuthenticationContext,
    /// Headers from the authenticator to propagate back to the HTTP proxy.
    pub headers: Headers,
    /// Result of the decision on the request.
    pub status: AuthenticationStatus,
}

impl AuthenticationResult {
    /// The §3 invariant: the audit reason is consistent with the status.
    pub open spec fn wf(self) -> bool {
        reason_consistent(self.status, self.audit_reason)
    }

    /// An authentication result that allows the request, with an empty
    /// context and no headers.
    pub fn allowed() -> (r: AuthenticationResult)
        ensures
            r.status == AuthenticationStatus::Allowed,
            r.audit_reason == AuditReason::Allowed,
            r.authentication_context == AuthenticationContext::spec_unauthenticated(),
            r.headers@ =~= Seq::<(Seq<char>, Seq<char>)>::empty(),
            r.wf(),
    {
        AuthenticationResult {
            audit_reason: AuditReason::Allowed,
            authentication_context: AuthenticationContext::unauthenticated(),
            headers: Headers::new(),
            status: AuthenticationStatus::Allowed,
        }
    }

    /// An authentication result that denies the request, with an empty
    /// context and no headers.
    pub fn denied() -> (r: AuthenticationResult)
        ensures
            r.status == AuthenticationStatus::Denied,
            r.audit_reason == AuditReason::Denied,
            r.authentication_context == AuthenticationContext::spec_unauthenticated(),
            r.headers@ =~= Seq::<(Seq<char>, Seq<char>)>::empty(),
            r.wf(),
    {
        AuthenticationResult {
            audit_reason: AuditReason::Denied,
            authentication_context: AuthenticationContext::unauthenticated(),
            headers: Headers::new(),
            status: AuthenticationStatus::Denied,
        }
    }

    /// An authentication result carrying the given status, with the default
    /// reason for that status.
    pub fn from_status(status: AuthenticationStatus) -> (r: AuthenticationResult)
        ensures
            r.status == status,
            r.audit_reason == (match status {
                AuthenticationStatus::Allowed => AuditReason::Allowed,
                AuthenticationStatus::Denied => AuditReason::Denied,
                AuthenticationStatus::MustLogin => AuditReason::InvalidSession,
            }),
            r.authentication_context == AuthenticationContext::spec_unauthenticated(),
            r.headers@ =~= Seq::<(Seq<char>, Seq<char>)>::empty(),
            r.wf(),
    {
        let audit_reason = match status {
            AuthenticationStatus::Allowed => AuditReason::Allowed,
            AuthenticationStatus::Denied => AuditReason::Denied,
            AuthenticationStatus::MustLogin => AuditReason::InvalidSession,
        };
        AuthenticationResult {
            audit_reason,
            authentication_context: AuthenticationContext::unauthenticated(),
            headers: Headers::new(),
            status,
        }
    }
}

} // verus!
