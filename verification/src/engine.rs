//! The rule engine: three ordered rule lists evaluated with first-match-wins
//! semantics, and the builder that assembles them from per-file rule lists in
//! configuration order.

use vstd::prelude::*;

use crate::context::AuthenticationContext;
use crate::context::RequestContext;
use crate::context::pairs_view;
use crate::errors::InvalidEnrichResponseRule;
use crate::headers::HeaderView;
use crate::headers::check_header_name;
use crate::headers::check_header_value;
use crate::headers::is_valid_header_name;
use crate::headers::is_valid_header_value;
use crate::headers::remove_name;
use crate::models::AuthenticationResult;
use crate::rules::EnrichResponseRule;
use crate::rules::PostAuthRule;
use crate::rules::PreAuthRule;
use crate::rules::Rule;
use crate::rules::RuleAction;
use crate::strutil::views_of;

verus! {

/// The first element of `rules` accepted by `pred`, if any: the shape shared
/// by every stage's first-match-wins evaluation.
pub open spec fn first_match<A>(rules: Seq<A>, pred: spec_fn(A) -> bool) -> Option<A>
    decreases rules.len(),
{
    if rules.len() == 0 {
        None
    } else if pred(rules[0]) {
        Some(rules[0])
    } else {
        first_match(rules.drop_first(), pred)
    }
}

/// The action the pre-auth stage takes: the action of the first matching
/// pre-auth rule, or `Delegate`.
pub open spec fn preauth_action(rules: Seq<PreAuthRule>, context: RequestContext) -> RuleAction {
    match first_match(rules, |rule: PreAuthRule| rule.spec_check(context)) {
        None => RuleAction::Delegate,
        Some(rule) => rule.action,
    }
}

/// The action the post-auth stage takes: the action of the first matching
/// post-auth rule, or `Delegate`.
pub open spec fn postauth_action(
    rules: Seq<PostAuthRule>,
    context: RequestContext,
    auth_context: AuthenticationContext,
) -> RuleAction {
    match first_match(rules, |rule: PostAuthRule| rule.spec_check(context, auth_context)) {
        None => RuleAction::Delegate,
        Some(rule) => rule.action,
    }
}

/// A specification-level picture of an enrichment failure: the offending
/// header name, or name and value.
pub enum EnrichErrorView {
    Name(Seq<char>),
    Value(Seq<char>, Seq<char>),
}

/// The view of an enrichment error value.
pub open spec fn enrich_error_view(e: InvalidEnrichResponseRule) -> EnrichErrorView {
    match e {
        InvalidEnrichResponseRule::InvalidHeaderName(n) => EnrichErrorView::Name(n@),
        InvalidEnrichResponseRule::InvalidHeaderValue(n, v) => EnrichErrorView::Value(n@, v@),
    }
}

/// Remove each name of `names` from `h` in order, failing on the first name
/// that is not a legal header name.
pub open spec fn apply_remove(h: Seq<HeaderView>, names: Seq<Seq<char>>) -> Result<
    Seq<HeaderView>,
    EnrichErrorView,
>
    decreases names.len(),
{
    if names.len() == 0 {
        Ok(h)
    } else if !is_valid_header_name(names[0]) {
        Err(EnrichErrorView::Name(names[0]))
    } else {
        apply_remove(remove_name(h, names[0]), names.drop_first())
    }
}

/// Set each pair of `pairs` on `h` in order — replacing any entry with the
/// same name — failing on the first illegal name or value.
pub open spec fn apply_set(h: Seq<HeaderView>, pairs: Seq<HeaderView>) -> Result<
    Seq<HeaderView>,
    EnrichErrorView,
>
    decreases pairs.len(),
{
    if pairs.len() == 0 {
        Ok(h)
    } else if !is_valid_header_name(pairs[0].0) {
        Err(EnrichErrorView::Name(pairs[0].0))
    } else if !is_valid_header_value(pairs[0].1) {
        Err(EnrichErrorView::Value(pairs[0].0, pairs[0].1))
    } else {
        apply_set(remove_name(h, pairs[0].0).push(pairs[0]), pairs.drop_first())
    }
}

/// What a triggered enrichment rule does to the response headers: all
/// removals first, then all sets.
pub open spec fn apply_enrich(rule: EnrichResponseRule, h: Seq<HeaderView>) -> Result<
    Seq<HeaderView>,
    EnrichErrorView,
> {
    match apply_remove(h, views_of(rule.headers_remove@)) {
        Ok(h2) => apply_set(h2, pairs_view(rule.headers_set@)),
        Err(e) => Err(e),
    }
}

/// What the enrichment stage does to a response's headers: the first
/// matching rule is applied, and the headers pass through unchanged when no
/// rule matches.
pub open spec fn enrich_outcome(
    engine: RulesEngine,
    context: RequestContext,
    auth_context: AuthenticationContext,
    h: Seq<HeaderView>,
) -> Result<Seq<HeaderView>, EnrichErrorView> {
    match first_match(
        engine.rules_enrich@,
        |rule: EnrichResponseRule| rule.spec_check(context, auth_context),
    ) {
        None => Ok(h),
        Some(rule) => apply_enrich(rule, h),
    }
}

/// The enrichment rules of `rules`, in order.
pub open spec fn enrich_of(rules: Seq<Rule>) -> Seq<EnrichResponseRule>
    decreases rules.len(),
{
    if rules.len() == 0 {
        Seq::empty()
    } else {
        enrich_of(rules.drop_last()) + (match rules.last() {
            Rule::EnrichResponse(rule) => seq![rule],
            _ => Seq::empty(),
        })
    }
}

/// The post-auth rules of `rules`, in order.
pub open spec fn postauth_of(rules: Seq<Rule>) -> Seq<PostAuthRule>
    decreases rules.len(),
{
    if rules.len() == 0 {
        Seq::empty()
    } else {
        postauth_of(rules.drop_last()) + (match rules.last() {
            Rule::PostAuth(rule) => seq![rule],
            _ => Seq::empty(),
        })
    }
}

/// The pre-auth rules of `rules`, in order.
pub open spec fn preauth_of(rules: Seq<Rule>) -> Seq<PreAuthRule>
    decreases rules.len(),
{
    if rules.len() == 0 {
        Seq::empty()
    } else {
        preauth_of(rules.drop_last()) + (match rules.last() {
            Rule::PreAuth(rule) => seq![rule],
            _ => Seq::empty(),
        })
    }
}

/// Process rules matching requests. Immutable once built; evaluation walks
/// each list in order and the first matching rule wins.
#[derive(Clone, Debug)]
pub struct RulesEngine {
    /// List of response enrichment rules.
    pub rules_enrich: Vec<EnrichResponseRule>,
    /// List of post-auth phase rules.
    pub rules_postauth: Vec<PostAuthRule>,
    /// List of pre-auth phase rules.
    pub rules_preauth: Vec<PreAuthRule>,
}

impl RulesEngine {
    /// Start building a new `RulesEngine`.
    pub fn builder() -> (r: RulesEngineBuilder)
        ensures
            r.files@.len() == 0,
            r.rules_enrich@.len() == 0,
            r.rules_postauth@.len() == 0,
            r.rules_preauth@.len() == 0,
    {
        RulesEngineBuilder {
            files: Vec::new(),
            rules_enrich: Vec::new(),
            rules_postauth: Vec::new(),
            rules_preauth: Vec::new(),
        }
    }

    /// Evaluate pre-auth rules: the action of the first matching rule, or
    /// `Delegate` when none matches.
    pub fn eval_preauth(&self, context: &RequestContext) -> (r: RuleAction)
        ensures
            r == preauth_action(self.rules_preauth@, *context),
    {
        let ghost pred = |rule: PreAuthRule| rule.spec_check(*context);
        let n = self.rules_preauth.len();
        let ghost rules = self.rules_preauth@;
        proof {
            assert(rules.subrange(0, n as int) =~= rules);
        }
        let mut i: usize = 0;
        while i < n
            invariant
                0 <= i <= n,
                n == self.rules_preauth@.len(),
                rules == self.rules_preauth@,
                pred == (|rule: PreAuthRule| rule.spec_check(*context)),
                first_match(rules, pred) == first_match(rules.subrange(i as int, n as int), pred),
            decreases n - i,
        {
            let ghost tail = rules.subrange(i as int, n as int);
            proof {
                assert(tail[0] == rules[i as int]);
                assert(tail.drop_first() =~= rules.subrange(i + 1 as int, n as int));
            }
            if self.rules_preauth[i].check(context) {
                return self.rules_preauth[i].action;
            }
            i = i + 1;
        }
        proof {
            assert(rules.subrange(n as int, n as int) =~= Seq::<PreAuthRule>::empty());
        }
        RuleAction::Delegate
    }

    /// Evaluate post-auth rules: the action of the first matching rule, or
    /// `Delegate` when none matches.
    pub fn eval_postauth(
        &self,
        context: &RequestContext,
        auth_context: &AuthenticationContext,
    ) -> (r: RuleAction)
        ensures
            r == postauth_action(self.rules_postauth@, *context, *auth_context),
    {
        let ghost pred = |rule: PostAuthRule| rule.spec_check(*context, *auth_context);
        let n = self.rules_postauth.len();
        let ghost rules = self.rules_postauth@;
        proof {
            assert(rules.subrange(0, n as int) =~= rules);
        }
        let mut i: usize = 0;
        while i < n
            invariant
                0 <= i <= n,
                n == self.rules_postauth@.len(),
                rules == self.rules_postauth@,
                pred == (|rule: PostAuthRule| rule.spec_check(*context, *auth_context)),
                first_match(rules, pred) == first_match(rules.subrange(i as int, n as int), pred),
            decreases n - i,
        {
            let ghost tail = rules.subrange(i as int, n as int);
            proof {
                assert(tail[0] == rules[i as int]);
                assert(tail.drop_first() =~= rules.subrange(i + 1 as int, n as int));
            }
            if self.rules_postauth[i].check(context, auth_context) {
                return self.rules_postauth[i].action;
            }
            i = i + 1;
        }
        proof {
            assert(rules.subrange(n as int, n as int) =~= Seq::<PostAuthRule>::empty());
        }
        RuleAction::Delegate
    }

    /// Index of the first enrichment rule matching the contexts, if any.
    fn find_enrich(&self, context: &RequestContext, auth_context: &AuthenticationContext) -> (r:
        Option<usize>)
        ensures
            ({
                let pred = |rule: EnrichResponseRule| rule.spec_check(*context, *auth_context);
                match r {
                    None => first_match(self.rules_enrich@, pred) is None,
                    Some(i) => 0 <= i < self.rules_enrich@.len() && first_match(
                        self.rules_enrich@,
                        pred,
                    ) == Some(self.rules_enrich@[i as int]),
                }
            }),
    {
        let ghost pred = |rule: EnrichResponseRule| rule.spec_check(*context, *auth_context);
        let n = self.rules_enrich.len();
        let ghost rules = self.rules_enrich@;
        proof {
            assert(rules.subrange(0, n as int) =~= rules);
        }
        let mut i: usize = 0;
        while i < n
            invariant
                0 <= i <= n,
                n == self.rules_enrich@.len(),
                rules == self.rules_enrich@,
                pred == (|rule: EnrichResponseRule| rule.spec_check(*context, *auth_context)),
                first_match(rules, pred) == first_match(rules.subrange(i as int, n as int), pred),
            decreases n - i,
        {
            let ghost tail = rules.subrange(i as int, n as int);
            proof {
                assert(tail[0] == rules[i as int]);
                assert(tail.drop_first() =~= rules.subrange(i + 1 as int, n as int));
            }
            if self.rules_enrich[i].check(context, auth_context) {
                return Some(i);
            }
            i = i + 1;
        }
        proof {
            assert(rules.subrange(n as int, n as int) =~= Seq::<EnrichResponseRule>::empty());
        }
        None
    }

    /// Evaluate enrich rules: find the first matching enrichment rule; if
    /// none matches the result is returned unchanged, otherwise the rule's
    /// removals and sets are applied to the result's headers. An illegal
    /// header name or value in the rule fails the request.
    pub fn eval_enrich(&self, context: &RequestContext, result: AuthenticationResult) -> (r:
        Result<AuthenticationResult, InvalidEnrichResponseRule>)
        ensures
            match enrich_outcome(*self, *context, result.authentication_context, result.headers@) {
                Ok(h) => r matches Ok(res) && res.headers@ == h && res.status == result.status
                    && res.audit_reason == result.audit_reason && res.authentication_context
                    == result.authentication_context,
                Err(ev) => r matches Err(e) && enrich_error_view(e) == ev,
            },
    {
        let ghost pred = |rule: EnrichResponseRule|
            rule.spec_check(*context, result.authentication_context);
        let idx = match self.find_enrich(context, &result.authentication_context) {
            None => {
                return Ok(result);
            },
            Some(idx) => idx,
        };
        let rule = &self.rules_enrich[idx];
        let mut res = result;

        // Remove headers named by the rule, in order.
        let ghost names = views_of(rule.headers_remove@);
        let rn = rule.headers_remove.len();
        proof {
            assert(names.subrange(0, rn as int) =~= names);
        }
        let mut k: usize = 0;
        while k < rn
            invariant
                0 <= k <= rn,
                rn == rule.headers_remove@.len(),
                0 <= idx < self.rules_enrich@.len(),
                rule == self.rules_enrich@[idx as int],
                pred == (|rule: EnrichResponseRule|
                    rule.spec_check(*context, result.authentication_context)),
                first_match(self.rules_enrich@, pred) == Some(self.rules_enrich@[idx as int]),
                names == views_of(rule.headers_remove@),
                res.status == result.status,
                res.audit_reason == result.audit_reason,
                res.authentication_context == result.authentication_context,
                apply_remove(result.headers@, names) == apply_remove(
                    res.headers@,
                    names.subrange(k as int, rn as int),
                ),
            decreases rn - k,
        {
            let ghost tail = names.subrange(k as int, rn as int);
            proof {
                assert(tail[0] == names[k as int]);
                assert(tail.drop_first() =~= names.subrange(k + 1 as int, rn as int));
            }
            let name = &rule.headers_remove[k];
            if !check_header_name(name.as_str()) {
                return Err(InvalidEnrichResponseRule::InvalidHeaderName(name.clone()));
            }
            res.headers.remove(name.as_str());
            k = k + 1;
        }
        proof {
            assert(names.subrange(rn as int, rn as int) =~= Seq::<Seq<char>>::empty());
        }

        // Set headers named by the rule, in order.
        let ghost sets = pairs_view(rule.headers_set@);
        let ghost removed = res.headers@;
        let sn = rule.headers_set.len();
        proof {
            assert(sets.subrange(0, sn as int) =~= sets);
        }
        let mut k: usize = 0;
        while k < sn
            invariant
                0 <= k <= sn,
                sn == rule.headers_set@.len(),
                0 <= idx < self.rules_enrich@.len(),
                rule == self.rules_enrich@[idx as int],
                pred == (|rule: EnrichResponseRule|
                    rule.spec_check(*context, result.authentication_context)),
                first_match(self.rules_enrich@, pred) == Some(self.rules_enrich@[idx as int]),
                names == views_of(rule.headers_remove@),
                apply_remove(result.headers@, names) == Ok::<Seq<HeaderView>, EnrichErrorView>(
                    removed,
                ),
                sets == pairs_view(rule.headers_set@),
                res.status == result.status,
                res.audit_reason == result.audit_reason,
                res.authentication_context == result.authentication_context,
                apply_set(removed, sets) == apply_set(
                    res.headers@,
                    sets.subrange(k as int, sn as int),
                ),
            decreases sn - k,
        {
            let ghost tail = sets.subrange(k as int, sn as int);
            proof {
                assert(tail[0] == sets[k as int]);
                assert(tail.drop_first() =~= sets.subrange(k + 1 as int, sn as int));
            }
            let name = &rule.headers_set[k].0;
            let value = &rule.headers_set[k].1;
            if !check_header_name(name.as_str()) {
                return Err(InvalidEnrichResponseRule::InvalidHeaderName(name.clone()));
            }
            if !check_header_value(value.as_str()) {
                return Err(
                    InvalidEnrichResponseRule::InvalidHeaderValue(name.clone(), value.clone()),
                );
            }
            res.headers.insert(name.clone(), value.clone());
            k = k + 1;
        }
        proof {
            assert(sets.subrange(sn as int, sn as int) =~= Seq::<HeaderView>::empty());
        }
        Ok(res)
    }
}

/// Builder for `RulesEngine`s: per-file rule lists in configuration order,
/// plus directly inserted rules.
pub struct RulesEngineBuilder {
    /// Rules from each configured rule file, in configuration order.
    pub files: Vec<Vec<Rule>>,
    /// Directly inserted enrichment rules.
    pub rules_enrich: Vec<EnrichResponseRule>,
    /// Directly inserted post-auth rules.
    pub rules_postauth: Vec<PostAuthRule>,
    /// Directly inserted pre-auth rules.
    pub rules_preauth: Vec<PreAuthRule>,
}

impl RulesEngineBuilder {
    /// The rules of every configured file, concatenated in file order.
    pub open spec fn all_file_rules(self) -> Seq<Rule> {
        self.files@.map_values(|f: Vec<Rule>| f@).flatten()
    }

    /// Process the provided options and build the `RulesEngine`: the rules of
    /// the configured files, partitioned by phase, follow any directly
    /// inserted rules; within and across files, order is preserved.
    pub fn build(self) -> (r: RulesEngine)
        ensures
            r.rules_enrich@ == self.rules_enrich@ + enrich_of(self.all_file_rules()),
            r.rules_postauth@ == self.rules_postauth@ + postauth_of(self.all_file_rules()),
            r.rules_preauth@ == self.rules_preauth@ + preauth_of(self.all_file_rules()),
    {
        let mut rules_enrich = self.rules_enrich;
        let mut rules_postauth = self.rules_postauth;
        let mut rules_preauth = self.rules_preauth;
        let ghost fviews = self.files@.map_values(|f: Vec<Rule>| f@);
        let ghost all = fviews.flatten();

        // Concatenate the files' rules in order, consuming the file lists.
        let mut files = self.files;
        let mut flat: Vec<Rule> = Vec::new();
        let ghost nf = fviews.len();
        let ghost done: int = 0;
        while files.len() > 0
            invariant
                0 <= done <= nf,
                nf == fviews.len(),
                files@.map_values(|f: Vec<Rule>| f@) =~= fviews.subrange(done, nf as int),
                flat@ =~= fviews.subrange(0, done).flatten(),
            decreases files@.len(),
        {
            let ghost before = files@;
            proof {
                assert(before.map_values(|f: Vec<Rule>| f@).len() == before.len());
                assert(done < nf);
            }
            let mut file = files.remove(0);
            proof {
                assert(files@ == before.remove(0));
                assert forall|x: int| 0 <= x < files@.len() implies files@.map_values(
                    |f: Vec<Rule>| f@,
                )[x] == #[trigger] fviews.subrange(done + 1, nf as int)[x] by {
                    assert(files@[x] == before[x + 1]);
                    assert(before.map_values(|f: Vec<Rule>| f@)[x + 1] == fviews.subrange(
                        done,
                        nf as int,
                    )[x + 1]);
                }
                assert(files@.map_values(|f: Vec<Rule>| f@) =~= fviews.subrange(
                    done + 1,
                    nf as int,
                ));
                assert(before.map_values(|f: Vec<Rule>| f@)[0] == fviews.subrange(
                    done,
                    nf as int,
                )[0]);
                assert(file@ == fviews[done]);
                assert(fviews.subrange(0, done + 1) =~= fviews.subrange(0, done).push(
                    fviews[done],
                ));
                fviews.subrange(0, done).lemma_flatten_push(fviews[done]);
            }
            let ghost file_rules = fviews[done];
            proof {
                assert(file@ =~= file_rules.subrange(0, file_rules.len() as int));
            }
            let ghost taken: int = 0;
            while file.len() > 0
                invariant
                    0 <= taken <= file_rules.len(),
                    file@ =~= file_rules.subrange(taken, file_rules.len() as int),
                    flat@ =~= fviews.subrange(0, done).flatten() + file_rules.subrange(0, taken),
                decreases file@.len(),
            {
                let ghost file_before = file@;
                let rule = file.remove(0);
                proof {
                    assert(file_before[0] == file_rules[taken]);
                    assert(file@ =~= file_rules.subrange(taken + 1, file_rules.len() as int));
                    assert(file_rules.subrange(0, taken + 1) =~= file_rules.subrange(
                        0,
                        taken,
                    ).push(file_rules[taken]));
                }
                flat.push(rule);
                proof {
                    taken = taken + 1;
                }
            }
            proof {
                assert(file_rules.subrange(0, file_rules.len() as int) =~= file_rules);
                done = done + 1;
            }
        }
        proof {
            assert(fviews.subrange(0, nf as int) =~= fviews);
            assert(flat@ == all);
        }

        // Partition the concatenated rules by phase, preserving order.
        let ghost enrich_before = rules_enrich@;
        let ghost postauth_before = rules_postauth@;
        let ghost preauth_before = rules_preauth@;
        let ghost total = all.len();
        let ghost k: int = 0;
        while flat.len() > 0
            invariant
                0 <= k <= total,
                total == all.len(),
                flat@ =~= all.subrange(k, total as int),
                rules_enrich@ =~= enrich_before + enrich_of(all.subrange(0, k)),
                rules_postauth@ =~= postauth_before + postauth_of(all.subrange(0, k)),
                rules_preauth@ =~= preauth_before + preauth_of(all.subrange(0, k)),
            decreases flat@.len(),
        {
            proof {
                assert(all.subrange(0, k + 1).drop_last() =~= all.subrange(0, k));
                assert(all.subrange(0, k + 1).last() == all[k]);
            }
            let rule = flat.remove(0);
            match rule {
                Rule::EnrichResponse(rule) => rules_enrich.push(rule),
                Rule::PostAuth(rule) => rules_postauth.push(rule),
                Rule::PreAuth(rule) => rules_preauth.push(rule),
            }
            proof {
                k = k + 1;
            }
        }
        proof {
            assert(all.subrange(0, total as int) =~= all);
        }
        RulesEngine { rules_enrich, rules_postauth, rules_preauth }
    }

    /// Use the rules of these files, one parsed rule list per file, in the
    /// configuration order. They are appended when the engine is built.
    pub fn rule_files(self, files: Vec<Vec<Rule>>) -> (r: RulesEngineBuilder)
        ensures
            r.files@ == files@,
            r.rules_enrich@ == self.rules_enrich@,
            r.rules_postauth@ == self.rules_postauth@,
            r.rules_preauth@ == self.rules_preauth@,
    {
        RulesEngineBuilder {
            files,
            rules_enrich: self.rules_enrich,
            rules_postauth: self.rules_postauth,
            rules_preauth: self.rules_preauth,
        }
    }

    /// Insert an enrich phase rule ahead of the files' rules.
    pub fn rule_enrich(self, rule: EnrichResponseRule) -> (r: RulesEngineBuilder)
        ensures
            r.files@ == self.files@,
            r.rules_enrich@ == self.rules_enrich@.push(rule),
            r.rules_postauth@ == self.rules_postauth@,
            r.rules_preauth@ == self.rules_preauth@,
    {
        let mut rules_enrich = self.rules_enrich;
        rules_enrich.push(rule);
        RulesEngineBuilder {
            files: self.files,
            rules_enrich,
            rules_postauth: self.rules_postauth,
            rules_preauth: self.rules_preauth,
        }
    }

    /// Insert a post-auth phase rule ahead of the files' rules.
    pub fn rule_postauth(self, rule: PostAuthRule) -> (r: RulesEngineBuilder)
        ensures
            r.files@ == self.files@,
            r.rules_enrich@ == self.rules_enrich@,
            r.rules_postauth@ == self.rules_postauth@.push(rule),
            r.rules_preauth@ == self.rules_preauth@,
    {
        let mut rules_postauth = self.rules_postauth;
        rules_postauth.push(rule);
        RulesEngineBuilder {
            files: self.files,
            rules_enrich: self.rules_enrich,
            rules_postauth,
            rules_preauth: self.rules_preauth,
        }
    }

    /// Insert a pre-auth phase rule ahead of the files' rules.
    pub fn rule_preauth(self, rule: PreAuthRule) -> (r: RulesEngineBuilder)
        ensures
            r.files@ == self.files@,
            r.rules_enrich@ == self.rules_enrich@,
            r.rules_postauth@ == self.rules_postauth@,
            r.rules_preauth@ == self.rules_preauth@.push(rule),
    {
        let mut rules_preauth = self.rules_preauth;
        rules_preauth.push(rule);
        RulesEngineBuilder {
            files: self.files,
            rules_enrich: self.rules_enrich,
            rules_postauth: self.rules_postauth,
            rules_preauth,
        }
    }
}

} // verus!
