//! The rule DSL: predicates over request and authentication contexts, and
//! the three rule kinds applied at the pre-auth, post-auth and enrichment
//! stages. Matching is a disjunction across the populated dimensions of a
//! predicate; a predicate with nothing populated never matches.

use vstd::prelude::*;

use crate::context::AuthenticationContext;
use crate::context::RequestContext;
use crate::context::pairs_view;
use crate::strutil::ascii_eq_ci;
use crate::strutil::list_contains_str;
use crate::strutil::seq_contains_str;
use crate::strutil::str_eq;
use crate::strutil::str_eq_ci;
use crate::strutil::views_of;

verus! {

/// Possible actions to perform when an authentication rule matches.
#[derive(Copy, Clone, Debug, PartialEq, Eq, Structural)]
pub enum RuleAction {
    /// Unconditionally allow the request.
    Allow,
    /// Leave the decision to the authenticator backend.
    Delegate,
    /// Unconditionally deny the request.
    Deny,
}

/// Some request header equals some expected header of the rule: names up to
/// ASCII case, values exactly.
pub open spec fn header_equal_match(
    headers: Seq<(Seq<char>, Seq<char>)>,
    expected: Seq<(Seq<char>, Seq<char>)>,
) -> bool {
    exists|i: int, j: int|
        0 <= i < headers.len() && 0 <= j < expected.len() && ascii_eq_ci(
            headers[i].0,
            expected[j].0,
        ) && headers[i].1 == expected[j].1
}

/// Attributes a request may match for a rule to apply. The predicate holds
/// iff `any` is set, or the host is one of `domain`, or the URI is one of
/// `uri`, or some request header equals one of `header_equal`.
#[derive(Clone, Debug, PartialEq, Eq)]
pub struct RuleMatches {
    /// Any request will match.
    pub any: bool,
    /// Requests for any host in this list will match.
    pub domain: Vec<String>,
    /// Requests with any header set to the corresponding value will match.
    pub header_equal: Vec<(String, String)>,
    /// Requests for any URI in this list will match.
    pub uri: Vec<String>,
}

impl RuleMatches {
    /// What it means for this predicate to accept a request context.
    pub open spec fn spec_check(self, context: RequestContext) -> bool {
        ||| self.any
        ||| seq_contains_str(views_of(self.domain@), context.host@)
        ||| seq_contains_str(views_of(self.uri@), context.uri@)
        ||| header_equal_match(pairs_view(context.headers@), pairs_view(self.header_equal@))
    }

    /// A predicate with nothing populated.
    pub fn empty() -> (r: RuleMatches)
        ensures
            r.any == false,
            r.domain@.len() == 0,
            r.header_equal@.len() == 0,
            r.uri@.len() == 0,
    {
        RuleMatches { any: false, domain: Vec::new(), header_equal: Vec::new(), uri: Vec::new() }
    }

    /// The default of the `any` dimension: not populated.
    pub fn default_any() -> (r: bool)
        ensures
            r == false,
    {
        false
    }

    /// Check if the context matches this predicate.
    pub fn check(&self, context: &RequestContext) -> (r: bool)
        ensures
            r == self.spec_check(*context),
    {
        self.any || list_contains_str(&self.domain, context.host.as_str()) || list_contains_str(
            &self.uri,
            context.uri.as_str(),
        ) || self.check_header_equal(context)
    }

    /// Check if any context header equals any of the expected headers.
    pub fn check_header_equal(&self, context: &RequestContext) -> (r: bool)
        ensures
            r == header_equal_match(pairs_view(context.headers@), pairs_view(self.header_equal@)),
    {
        let ghost hs = pairs_view(context.headers@);
        let ghost es = pairs_view(self.header_equal@);
        let n = context.headers.len();
        let mut i: usize = 0;
        while i < n
            invariant
                0 <= i <= n,
                n == context.headers@.len(),
                hs == pairs_view(context.headers@),
                es == pairs_view(self.header_equal@),
                forall|a: int, b: int|
                    0 <= a < i && 0 <= b < es.len() ==> !(ascii_eq_ci(hs[a].0, es[b].0) && hs[a].1
                        == es[b].1),
            decreases n - i,
        {
            let m = self.header_equal.len();
            let mut j: usize = 0;
            while j < m
                invariant
                    0 <= j <= m,
                    0 <= i < n,
                    n == context.headers@.len(),
                    m == self.header_equal@.len(),
                    hs == pairs_view(context.headers@),
                    es == pairs_view(self.header_equal@),
                    forall|b: int|
                        0 <= b < j ==> !(ascii_eq_ci(hs[i as int].0, es[b].0) && hs[i as int].1
                            == es[b].1),
                decreases m - j,
            {
                if str_eq_ci(context.headers[i].0.as_str(), self.header_equal[j].0.as_str())
                    && str_eq(context.headers[i].1.as_str(), self.header_equal[j].1.as_str()) {
                    assert(ascii_eq_ci(hs[i as int].0, es[j as int].0) && hs[i as int].1
                        == es[j as int].1);
                    return true;
                }
                j = j + 1;
            }
            i = i + 1;
        }
        false
    }
}

/// Attributes an authentication result may match for a rule to apply. The
/// predicate holds iff `authenticated` is set and equals the context's flag,
/// or the context's user is one of `user`. With neither field populated it
/// never matches.
#[derive(Clone, Debug, PartialEq, Eq)]
pub struct RuleSessionMatches {
    /// Match requests by backend verdict.
    pub authenticated: Option<bool>,
    /// Requests from any of these users will match.
    pub user: Vec<String>,
}

impl RuleSessionMatches {
    /// What it means for this predicate to accept an authentication context.
    pub open spec fn spec_check(self, auth_context: AuthenticationContext) -> bool {
        ||| (self.authenticated matches Some(b) && b == auth_context.authenticated)
        ||| (auth_context.user matches Some(u) && seq_contains_str(views_of(self.user@), u@))
    }

    /// Check if the authentication context matches this predicate.
    pub fn check(&self, auth_context: &AuthenticationContext) -> (r: bool)
        ensures
            r == self.spec_check(*auth_context),
    {
        let authenticated = match self.authenticated {
            Some(expected) => expected == auth_context.authenticated,
            None => false,
        };
        let by_user = match &auth_context.user {
            Some(user) => list_contains_str(&self.user, user.as_str()),
            None => false,
        };
        authenticated || by_user
    }
}

/// A rule evaluated before the backend: when its predicate accepts the
/// request, its action is definitive for the pre-auth stage.
#[derive(Clone, Debug, PartialEq, Eq)]
pub struct PreAuthRule {
    /// The action taken when the rule matches.
    pub action: RuleAction,
    /// The request predicate.
    pub matches: RuleMatches,
}

impl PreAuthRule {
    /// What it means for this rule to trigger.
    pub open spec fn spec_check(self, context: RequestContext) -> bool {
        self.matches.spec_check(context)
    }

    /// Check if the context matches this rule.
    pub fn check(&self, context: &RequestContext) -> (r: bool)
        ensures
            r == self.spec_check(*context),
    {
        self.matches.check(context)
    }
}

/// A rule evaluated after the backend. It triggers iff at least one of its
/// predicates is present and every present predicate accepts its context.
#[derive(Clone, Debug, PartialEq, Eq)]
pub struct PostAuthRule {
    /// The action taken when the rule matches.
    pub action: RuleAction,
    /// The request predicate, if present.
    pub matches: Option<RuleMatches>,
    /// The authentication predicate, if present.
    pub session_matches: Option<RuleSessionMatches>,
}

/// The combine rule shared by post-auth and enrichment rules: at least one
/// predicate present, and every present predicate accepts.
pub open spec fn combined_check(
    matches: Option<RuleMatches>,
    session_matches: Option<RuleSessionMatches>,
    context: RequestContext,
    auth_context: AuthenticationContext,
) -> bool {
    &&& (matches is Some || session_matches is Some)
    &&& (matches matches Some(m) ==> m.spec_check(context))
    &&& (session_matches matches Some(m) ==> m.spec_check(auth_context))
}

/// Check the combine rule for an optional pair of predicates.
fn check_combined(
    matches: &Option<RuleMatches>,
    session_matches: &Option<RuleSessionMatches>,
    context: &RequestContext,
    auth_context: &AuthenticationContext,
) -> (r: bool)
    ensures
        r == combined_check(*matches, *session_matches, *context, *auth_context),
{
    let present = matches.is_some() || session_matches.is_some();
    let request_ok = match matches {
        Some(m) => m.check(context),
        None => true,
    };
    let session_ok = match session_matches {
        Some(m) => m.check(auth_context),
        None => true,
    };
    present && request_ok && session_ok
}

impl PostAuthRule {
    /// What it means for this rule to trigger.
    pub open spec fn spec_check(
        self,
        context: RequestContext,
        auth_context: AuthenticationContext,
    ) -> bool {
        combined_check(self.matches, self.session_matches, context, auth_context)
    }

    /// Check if the contexts match this rule.
    pub fn check(&self, context: &RequestContext, auth_context: &AuthenticationContext) -> (r:
        bool)
        ensures
            r == self.spec_check(*context, *auth_context),
    {
        check_combined(&self.matches, &self.session_matches, context, auth_context)
    }
}

/// A response customisation rule: when it triggers, the named headers are
/// removed and then the given headers are set on the response.
#[derive(Clone, Debug, PartialEq, Eq)]
pub struct EnrichResponseRule {
    /// Headers to remove from the response.
    pub headers_remove: Vec<String>,
    /// Headers to set on the response, overriding any existing value.
    pub headers_set: Vec<(String, String)>,
    /// The request predicate, if present.
    pub matches: Option<RuleMatches>,
    /// The authentication predicate, if present.
    pub session_matches: Option<RuleSessionMatches>,
}

impl EnrichResponseRule {
    /// What it means for this rule to trigger.
    pub open spec fn spec_check(
        self,
        context: RequestContext,
        auth_context: AuthenticationContext,
    ) -> bool {
        combined_check(self.matches, self.session_matches, context, auth_context)
    }

    /// Check if the contexts match this rule.
    pub fn check(&self, context: &RequestContext, auth_context: &AuthenticationContext) -> (r:
        bool)
        ensures
            r == self.spec_check(*context, *auth_context),
    {
        check_combined(&self.matches, &self.session_matches, context, auth_context)
    }
}

/// A configured rule, tagged by the stage it applies to.
#[derive(Clone, Debug, PartialEq, Eq)]
pub enum Rule {
    /// Rule to customise authentication responses being sent back.
    EnrichResponse(EnrichResponseRule),
    /// Rule to override decisions after the backend was consulted.
    PostAuth(PostAuthRule),
    /// Rule to override decisions before the backend is consulted.
    PreAuth(PreAuthRule),
}

} // verus!
