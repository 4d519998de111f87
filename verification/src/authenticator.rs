//! The decision pipeline around the authenticator backend. The backend call
//! itself may suspend on network I/O, so the pipeline is split at that
//! boundary: `check_before_backend` runs the pre-auth stage and decides
//! whether the backend is needed at all, and `check_after_backend` runs the
//! post-auth and enrichment stages on whatever the backend returned. The
//! driver that owns the backend performs the call between the two halves —
//! and only when the first half delegated.

use vstd::prelude::*;
use vstd::string::*;

use crate::config::AuthenticatorConfig;
use crate::context::AuthenticationContext;
use crate::context::RequestContext;
use crate::engine::RulesEngine;
use crate::engine::enrich_error_view;
use crate::engine::enrich_outcome;
use crate::engine::postauth_action;
use crate::engine::preauth_action;
use crate::errors::InvalidEnrichResponseRule;
use crate::errors::InvalidIdentityHeader;
use crate::headers::check_header_name;
use crate::headers::is_valid_header_name;
use crate::models::AuditReason;
use crate::models::AuthenticationResult;
use crate::models::AuthenticationStatus;
use crate::rules::RuleAction;

verus! {

/// Headers used to report user identity information to the proxy.
#[derive(Clone, Debug)]
pub struct IdentityHeaders {
    /// Header to place the user ID in.
    pub user_id: String,
}

impl IdentityHeaders {
    /// A legal identity header configuration.
    pub open spec fn wf(self) -> bool {
        is_valid_header_name(self.user_id@)
    }

    /// Load the identity headers from the configuration, rejecting a
    /// configured name that is not a legal header name.
    pub fn from_config(config: &AuthenticatorConfig) -> (r: Result<
        IdentityHeaders,
        InvalidIdentityHeader,
    >)
        ensures
            match r {
                Ok(h) => h.user_id@ == config.user_id_header@ && h.wf(),
                Err(e) => !is_valid_header_name(config.user_id_header@) && e.name@
                    == config.user_id_header@,
            },
    {
        if check_header_name(config.user_id_header.as_str()) {
            Ok(IdentityHeaders { user_id: config.user_id_header.clone() })
        } else {
            Err(InvalidIdentityHeader { name: config.user_id_header.clone() })
        }
    }
}

impl Default for IdentityHeaders {
    /// The default identity headers.
    fn default() -> (r: IdentityHeaders)
        ensures
            r.user_id@ == "x-auth-request-user"@,
    {
        IdentityHeaders { user_id: String::from_str("x-auth-request-user") }
    }
}

/// Debug backend that allows every request.
pub struct AllowAll {}

impl AllowAll {
    /// Allow the request, with an empty authentication context.
    pub fn check(&self, _context: &RequestContext) -> (r: AuthenticationResult)
        ensures
            r.status == AuthenticationStatus::Allowed,
            r.audit_reason == AuditReason::Allowed,
            r.authentication_context == AuthenticationContext::spec_unauthenticated(),
            r.headers@ =~= Seq::<(Seq<char>, Seq<char>)>::empty(),
    {
        AuthenticationResult::allowed()
    }

    /// Return a fresh instance for a new worker.
    pub fn make(&self) -> (r: AllowAll) {
        AllowAll {  }
    }
}

/// Logic around the rule engine that turns a request context and a backend
/// verdict into the final authentication result.
pub struct Authenticator {
    /// Headers to inject user identity information into.
    pub headers: IdentityHeaders,
    /// Rules engine to customise and enrich the authentication process.
    pub rules: RulesEngine,
}

impl Authenticator {
    /// Run the stages before the backend: evaluate pre-auth rules and decide
    /// early where they allow or deny.
    ///
    /// `Ok(Some(result))` is a decision taken without the backend: an
    /// allowing rule yields an allowed, enriched result; a denying rule
    /// yields a denied result with no enrichment. `Ok(None)` delegates: the
    /// caller must consult the backend and hand its verdict to
    /// `check_after_backend`. In particular, whenever the pre-auth stage
    /// answers `Allow` the backend is never needed.
    pub fn check_before_backend(&self, context: &RequestContext) -> (r: Result<
        Option<AuthenticationResult>,
        InvalidEnrichResponseRule,
    >)
        ensures
            r matches Ok(Some(res)) ==> res.wf(),
            ({
                let action = preauth_action(self.rules.rules_preauth@, *context);
                match action {
                    RuleAction::Delegate => r == Ok::<
                        Option<AuthenticationResult>,
                        InvalidEnrichResponseRule,
                    >(None),
                    RuleAction::Deny => r matches Ok(Some(res)) && res.status
                        == AuthenticationStatus::Denied && res.audit_reason
                        == AuditReason::PreAuthDenied && res.authentication_context
                        == AuthenticationContext::spec_unauthenticated() && res.headers@ == Seq::<
                        (Seq<char>, Seq<char>),
                    >::empty(),
                    RuleAction::Allow => match enrich_outcome(
                        self.rules,
                        *context,
                        AuthenticationContext::spec_unauthenticated(),
                        Seq::empty(),
                    ) {
                        Ok(h) => r matches Ok(Some(res)) && res.status
                            == AuthenticationStatus::Allowed && res.audit_reason
                            == AuditReason::PreAuthAllowed && res.authentication_context
                            == AuthenticationContext::spec_unauthenticated() && res.headers@ == h,
                        Err(ev) => r matches Err(e) && enrich_error_view(e) == ev,
                    },
                }
            }),
    {
        match self.rules.eval_preauth(context) {
            RuleAction::Allow => {
                let mut result = AuthenticationResult::allowed();
                result.audit_reason = AuditReason::PreAuthAllowed;
                match self.rules.eval_enrich(context, result) {
                    Ok(res) => Ok(Some(res)),
                    Err(e) => Err(e),
                }
            },
            RuleAction::Delegate => Ok(None),
            RuleAction::Deny => {
                let mut result = AuthenticationResult::denied();
                result.audit_reason = AuditReason::PreAuthDenied;
                Ok(Some(result))
            },
        }
    }

    /// Evaluate the stages that follow the backend: post-auth rules may
    /// override the status, then enrichment rules adjust the headers.
    ///
    /// A `MustLogin` verdict is returned unchanged: neither the post-auth nor
    /// the enrichment stage runs for it.
    pub fn check_after_backend(&self, context: &RequestContext, result: AuthenticationResult) -> (r:
        Result<AuthenticationResult, InvalidEnrichResponseRule>)
        ensures
            result.wf() ==> (r matches Ok(res) ==> res.wf()),
            result.status == AuthenticationStatus::MustLogin ==> r == Ok::<
                AuthenticationResult,
                InvalidEnrichResponseRule,
            >(result),
            result.status != AuthenticationStatus::MustLogin ==> ({
                let action = postauth_action(
                    self.rules.rules_postauth@,
                    *context,
                    result.authentication_context,
                );
                let status = match action {
                    RuleAction::Allow => AuthenticationStatus::Allowed,
                    RuleAction::Deny => AuthenticationStatus::Denied,
                    RuleAction::Delegate => result.status,
                };
                let reason = match action {
                    RuleAction::Allow => AuditReason::PostAuthAllowed,
                    RuleAction::Deny => AuditReason::PostAuthDenied,
                    RuleAction::Delegate => result.audit_reason,
                };
                match enrich_outcome(
                    self.rules,
                    *context,
                    result.authentication_context,
                    result.headers@,
                ) {
                    Ok(h) => r matches Ok(res) && res.status == status && res.audit_reason
                        == reason && res.authentication_context == result.authentication_context
                        && res.headers@ == h,
                    Err(ev) => r matches Err(e) && enrich_error_view(e) == ev,
                }
            }),
    {
        if matches!(result.status, AuthenticationStatus::MustLogin) {
            return Ok(result);
        }
        let mut result = result;
        match self.rules.eval_postauth(context, &result.authentication_context) {
            RuleAction::Allow => {
                result.audit_reason = AuditReason::PostAuthAllowed;
                result.status = AuthenticationStatus::Allowed;
            },
            RuleAction::Delegate => {},
            RuleAction::Deny => {
                result.audit_reason = AuditReason::PostAuthDenied;
                result.status = AuthenticationStatus::Denied;
            },
        }
        self.rules.eval_enrich(context, result)
    }
}

} // verus!
