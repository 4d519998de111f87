//! Laws of the rule engine, stated and proved once over the first-match
//! shape every stage shares: predicates with nothing populated never fire,
//! `any` accepts everything, and the order of rule files does not matter as
//! long as at most one file contains a matching rule.

use vstd::prelude::*;
use vstd::seq_lib::group_seq_properties;

use crate::context::AuthenticationContext;
use crate::context::RequestContext;
use crate::engine::enrich_of;
use crate::engine::first_match;
use crate::engine::postauth_action;
use crate::engine::postauth_of;
use crate::engine::preauth_action;
use crate::engine::preauth_of;
use crate::rules::EnrichResponseRule;
use crate::rules::PostAuthRule;
use crate::rules::PreAuthRule;
use crate::rules::Rule;
use crate::rules::RuleAction;
use crate::rules::RuleMatches;

verus! {

/// Law: a `RuleMatches` predicate with `any` set accepts every request
/// context.
pub proof fn lemma_any_accepts_every_context(m: RuleMatches, context: RequestContext)
    requires
        m.any,
    ensures
        m.spec_check(context),
{
}

/// Law: a post-auth rule with neither predicate present never triggers, on
/// any pair of contexts.
pub proof fn lemma_postauth_rule_without_predicates_never_triggers(
    rule: PostAuthRule,
    context: RequestContext,
    auth_context: AuthenticationContext,
)
    requires
        rule.matches is None,
        rule.session_matches is None,
    ensures
        !rule.spec_check(context, auth_context),
{
}

/// Law: an enrichment rule with neither predicate present never triggers, on
/// any pair of contexts.
pub proof fn lemma_enrich_rule_without_predicates_never_triggers(
    rule: EnrichResponseRule,
    context: RequestContext,
    auth_context: AuthenticationContext,
)
    requires
        rule.matches is None,
        rule.session_matches is None,
    ensures
        !rule.spec_check(context, auth_context),
{
}

/// Law: the post-auth stage delegates over a list of rules none of which has
/// a predicate — such rules never decide anything.
pub proof fn lemma_postauth_without_predicates_delegates(
    rules: Seq<PostAuthRule>,
    context: RequestContext,
    auth_context: AuthenticationContext,
)
    requires
        forall|i: int|
            0 <= i < rules.len() ==> (#[trigger] rules[i]).matches is None
                && rules[i].session_matches is None,
    ensures
        postauth_action(rules, context, auth_context) == RuleAction::Delegate,
    decreases rules.len(),
{
    if rules.len() > 0 {
        lemma_postauth_without_predicates_delegates(rules.drop_first(), context, auth_context);
    }
}

/// Law: the enrichment stage never picks a rule without predicates — the
/// first match over such a list is nothing.
pub proof fn lemma_enrich_without_predicates_never_matches(
    rules: Seq<EnrichResponseRule>,
    context: RequestContext,
    auth_context: AuthenticationContext,
)
    requires
        forall|i: int|
            0 <= i < rules.len() ==> (#[trigger] rules[i]).matches is None
                && rules[i].session_matches is None,
    ensures
        first_match(
            rules,
            |rule: EnrichResponseRule| rule.spec_check(context, auth_context),
        ) is None,
    decreases rules.len(),
{
    if rules.len() > 0 {
        lemma_enrich_without_predicates_never_matches(rules.drop_first(), context, auth_context);
    }
}

/// The first match over a concatenation: whatever the left part settles, else
/// whatever the right part settles.
pub proof fn lemma_first_match_concat<A>(a: Seq<A>, b: Seq<A>, pred: spec_fn(A) -> bool)
    ensures
        first_match(a + b, pred) == (if first_match(a, pred) is Some {
            first_match(a, pred)
        } else {
            first_match(b, pred)
        }),
    decreases a.len(),
{
    if a.len() == 0 {
        assert(a + b =~= b);
    } else {
        assert((a + b)[0] == a[0]);
        assert((a + b).drop_first() =~= a.drop_first() + b);
        lemma_first_match_concat(a.drop_first(), b, pred);
    }
}

/// Over files none of which contains a match, the concatenation has none
/// either.
pub proof fn lemma_no_file_matches<A>(fs: Seq<Seq<A>>, pred: spec_fn(A) -> bool)
    requires
        forall|i: int| 0 <= i < fs.len() ==> first_match(#[trigger] fs[i], pred) is None,
    ensures
        first_match(fs.flatten(), pred) is None,
    decreases fs.len(),
{
    if fs.len() > 0 {
        lemma_first_match_concat(fs.first(), fs.drop_first().flatten(), pred);
        lemma_no_file_matches(fs.drop_first(), pred);
    }
}

/// When every file of `fs` that contains a match has the contents `f`, and
/// `f` occurs in `fs`, the concatenation's first match is `f`'s first match.
pub proof fn lemma_unique_matching_file<A>(fs: Seq<Seq<A>>, f: Seq<A>, pred: spec_fn(A) -> bool)
    requires
        first_match(f, pred) is Some,
        exists|i: int| 0 <= i < fs.len() && fs[i] == f,
        forall|i: int|
            0 <= i < fs.len() && first_match(#[trigger] fs[i], pred) is Some ==> fs[i] == f,
    ensures
        first_match(fs.flatten(), pred) == first_match(f, pred),
    decreases fs.len(),
{
    lemma_first_match_concat(fs.first(), fs.drop_first().flatten(), pred);
    if first_match(fs.first(), pred) is Some {
        assert(fs[0] == f);
    } else {
        let i = choose|i: int| 0 <= i < fs.len() && fs[i] == f;
        assert(fs.drop_first()[i - 1] == f);
        lemma_unique_matching_file(fs.drop_first(), f, pred);
    }
}

/// Law: for any rule-file list and any permutation of it — intra-file order
/// is preserved since the files themselves are unchanged — reordering the
/// files leaves the first matching rule of the concatenation unchanged,
/// provided at most one file contents contains a matching rule.
pub proof fn lemma_file_reorder_stable<A>(
    fs1: Seq<Seq<A>>,
    fs2: Seq<Seq<A>>,
    pred: spec_fn(A) -> bool,
)
    requires
        fs1.to_multiset() == fs2.to_multiset(),
        forall|i: int, j: int|
            0 <= i < fs1.len() && 0 <= j < fs1.len() && first_match(#[trigger] fs1[i], pred) is Some
                && first_match(#[trigger] fs1[j], pred) is Some ==> fs1[i] == fs1[j],
    ensures
        first_match(fs1.flatten(), pred) == first_match(fs2.flatten(), pred),
{
    broadcast use group_seq_properties;

    if exists|i: int| 0 <= i < fs1.len() && first_match(#[trigger] fs1[i], pred) is Some {
        let i = choose|i: int| 0 <= i < fs1.len() && first_match(#[trigger] fs1[i], pred) is Some;
        let f = fs1[i];
        assert(fs1.contains(f));
        assert(fs2.to_multiset().count(f) > 0);
        assert(fs2.contains(f));
        assert forall|j: int|
            0 <= j < fs2.len() && first_match(#[trigger] fs2[j], pred) is Some implies fs2[j]
            == f by {
            assert(fs2.contains(fs2[j]));
            assert(fs1.to_multiset().count(fs2[j]) > 0);
            assert(fs1.contains(fs2[j]));
            let k = choose|k: int| 0 <= k < fs1.len() && fs1[k] == fs2[j];
            assert(first_match(fs1[k], pred) is Some);
        }
        let j = choose|j: int| 0 <= j < fs2.len() && fs2[j] == f;
        lemma_unique_matching_file(fs1, f, pred);
        lemma_unique_matching_file(fs2, f, pred);
    } else {
        assert forall|j: int|
            0 <= j < fs2.len() implies first_match(#[trigger] fs2[j], pred) is None by {
            assert(fs2.contains(fs2[j]));
            assert(fs1.to_multiset().count(fs2[j]) > 0);
            assert(fs1.contains(fs2[j]));
            let k = choose|k: int| 0 <= k < fs1.len() && fs1[k] == fs2[j];
            assert(first_match(fs1[k], pred) is None);
        }
        lemma_no_file_matches(fs1, pred);
        lemma_no_file_matches(fs2, pred);
    }
}

} // verus!

verus! {

/// Splitting a rule list splits its pre-auth rules: partition distributes
/// over concatenation.
pub proof fn lemma_preauth_of_concat(a: Seq<Rule>, b: Seq<Rule>)
    ensures
        preauth_of(a + b) =~= preauth_of(a) + preauth_of(b),
    decreases b.len(),
{
    if b.len() == 0 {
        assert(a + b =~= a);
        assert(preauth_of(b) =~= Seq::<PreAuthRule>::empty());
    } else {
        assert((a + b).drop_last() =~= a + b.drop_last());
        assert((a + b).last() == b.last());
        lemma_preauth_of_concat(a, b.drop_last());
    }
}

/// Splitting a rule list splits its post-auth rules.
pub proof fn lemma_postauth_of_concat(a: Seq<Rule>, b: Seq<Rule>)
    ensures
        postauth_of(a + b) =~= postauth_of(a) + postauth_of(b),
    decreases b.len(),
{
    if b.len() == 0 {
        assert(a + b =~= a);
        assert(postauth_of(b) =~= Seq::<PostAuthRule>::empty());
    } else {
        assert((a + b).drop_last() =~= a + b.drop_last());
        assert((a + b).last() == b.last());
        lemma_postauth_of_concat(a, b.drop_last());
    }
}

/// Splitting a rule list splits its enrichment rules.
pub proof fn lemma_enrich_of_concat(a: Seq<Rule>, b: Seq<Rule>)
    ensures
        enrich_of(a + b) =~= enrich_of(a) + enrich_of(b),
    decreases b.len(),
{
    if b.len() == 0 {
        assert(a + b =~= a);
        assert(enrich_of(b) =~= Seq::<EnrichResponseRule>::empty());
    } else {
        assert((a + b).drop_last() =~= a + b.drop_last());
        assert((a + b).last() == b.last());
        lemma_enrich_of_concat(a, b.drop_last());
    }
}

/// The pre-auth rules of concatenated files are the concatenation of each
/// file's pre-auth rules.
pub proof fn lemma_preauth_of_flatten(fs: Seq<Seq<Rule>>)
    ensures
        preauth_of(fs.flatten()) =~= fs.map_values(|f: Seq<Rule>| preauth_of(f)).flatten(),
    decreases fs.len(),
{
    if fs.len() == 0 {
    } else {
        lemma_preauth_of_concat(fs.first(), fs.drop_first().flatten());
        lemma_preauth_of_flatten(fs.drop_first());
        assert(fs.drop_first().map_values(|f: Seq<Rule>| preauth_of(f)) =~= fs.map_values(
            |f: Seq<Rule>| preauth_of(f),
        ).drop_first());
        assert(fs.map_values(|f: Seq<Rule>| preauth_of(f)).first() == preauth_of(fs.first()));
    }
}

/// The post-auth rules of concatenated files are the concatenation of each
/// file's post-auth rules.
pub proof fn lemma_postauth_of_flatten(fs: Seq<Seq<Rule>>)
    ensures
        postauth_of(fs.flatten()) =~= fs.map_values(|f: Seq<Rule>| postauth_of(f)).flatten(),
    decreases fs.len(),
{
    if fs.len() == 0 {
    } else {
        lemma_postauth_of_concat(fs.first(), fs.drop_first().flatten());
        lemma_postauth_of_flatten(fs.drop_first());
        assert(fs.drop_first().map_values(|f: Seq<Rule>| postauth_of(f)) =~= fs.map_values(
            |f: Seq<Rule>| postauth_of(f),
        ).drop_first());
        assert(fs.map_values(|f: Seq<Rule>| postauth_of(f)).first() == postauth_of(fs.first()));
    }
}

/// The enrichment rules of concatenated files are the concatenation of each
/// file's enrichment rules.
pub proof fn lemma_enrich_of_flatten(fs: Seq<Seq<Rule>>)
    ensures
        enrich_of(fs.flatten()) =~= fs.map_values(|f: Seq<Rule>| enrich_of(f)).flatten(),
    decreases fs.len(),
{
    if fs.len() == 0 {
    } else {
        lemma_enrich_of_concat(fs.first(), fs.drop_first().flatten());
        lemma_enrich_of_flatten(fs.drop_first());
        assert(fs.drop_first().map_values(|f: Seq<Rule>| enrich_of(f)) =~= fs.map_values(
            |f: Seq<Rule>| enrich_of(f),
        ).drop_first());
        assert(fs.map_values(|f: Seq<Rule>| enrich_of(f)).first() == enrich_of(fs.first()));
    }
}

/// A permutation of a list maps to a permutation of the mapped list.
pub proof fn lemma_map_values_multiset<A, B>(s1: Seq<A>, s2: Seq<A>, f: spec_fn(A) -> B)
    requires
        s1.to_multiset() == s2.to_multiset(),
    ensures
        s1.map_values(f).to_multiset() == s2.map_values(f).to_multiset(),
    decreases s1.len(),
{
    broadcast use vstd::seq_lib::group_to_multiset_ensures;

    if s1.len() == 0 {
        assert(s2.to_multiset().len() == 0);
        assert(s1.map_values(f) =~= Seq::<B>::empty());
        assert(s2.map_values(f) =~= Seq::<B>::empty());
    } else {
        let x = s1.last();
        assert(s1.contains(x));
        assert(s2.to_multiset().count(x) > 0);
        assert(s2.contains(x));
        let j = choose|j: int| 0 <= j < s2.len() && s2[j] == x;
        let s1p = s1.drop_last();
        let s2p = s2.remove(j);
        assert(s1 =~= s1p.push(x));
        assert(s1.to_multiset() =~= s1p.to_multiset().insert(x));
        assert(s2p.to_multiset() =~= s2.to_multiset().remove(x));
        assert(s1p.to_multiset() =~= s2p.to_multiset());
        lemma_map_values_multiset(s1p, s2p, f);
        assert(s1.map_values(f) =~= s1p.map_values(f).push(f(x)));
        assert(s1.map_values(f).to_multiset() =~= s1p.map_values(f).to_multiset().insert(f(x)));
        assert(s2.map_values(f).remove(j) =~= s2p.map_values(f));
        assert(s2.map_values(f)[j] == f(x));
        assert(s2p.map_values(f).to_multiset() =~= s2.map_values(f).to_multiset().remove(f(x)));
        assert(s2.map_values(f).to_multiset().count(f(x)) > 0);
        assert(s2.map_values(f).to_multiset() =~= s2p.map_values(f).to_multiset().insert(f(x)));
    }
}

/// Law: the action the pre-auth stage takes over the rules of a file list is
/// stable under any reordering of the files, provided at most one file
/// contents carries a pre-auth rule matching the context. Intra-file order is
/// preserved by a permutation since the files themselves are unchanged.
pub proof fn lemma_preauth_file_reorder_stable(
    fs1: Seq<Seq<Rule>>,
    fs2: Seq<Seq<Rule>>,
    context: RequestContext,
)
    requires
        fs1.to_multiset() == fs2.to_multiset(),
        forall|i: int, j: int|
            0 <= i < fs1.len() && 0 <= j < fs1.len() && first_match(
                preauth_of(#[trigger] fs1[i]),
                |rule: PreAuthRule| rule.spec_check(context),
            ) is Some && first_match(
                preauth_of(#[trigger] fs1[j]),
                |rule: PreAuthRule| rule.spec_check(context),
            ) is Some ==> fs1[i] == fs1[j],
    ensures
        preauth_action(preauth_of(fs1.flatten()), context) == preauth_action(
            preauth_of(fs2.flatten()),
            context,
        ),
{
    let pred = |rule: PreAuthRule| rule.spec_check(context);
    let part = |f: Seq<Rule>| preauth_of(f);
    lemma_preauth_of_flatten(fs1);
    lemma_preauth_of_flatten(fs2);
    lemma_map_values_multiset(fs1, fs2, part);
    let ps1 = fs1.map_values(part);
    let ps2 = fs2.map_values(part);
    assert forall|i: int, j: int|
        0 <= i < ps1.len() && 0 <= j < ps1.len() && first_match(#[trigger] ps1[i], pred) is Some
            && first_match(#[trigger] ps1[j], pred) is Some implies ps1[i] == ps1[j] by {
        assert(ps1[i] == part(fs1[i]));
        assert(ps1[j] == part(fs1[j]));
    }
    lemma_file_reorder_stable(ps1, ps2, pred);
}

/// Law: as the pre-auth law, for the post-auth stage: the action taken over
/// the rules of a file list is stable under any reordering of the files,
/// provided at most one file contents carries a matching post-auth rule.
pub proof fn lemma_postauth_file_reorder_stable(
    fs1: Seq<Seq<Rule>>,
    fs2: Seq<Seq<Rule>>,
    context: RequestContext,
    auth_context: AuthenticationContext,
)
    requires
        fs1.to_multiset() == fs2.to_multiset(),
        forall|i: int, j: int|
            0 <= i < fs1.len() && 0 <= j < fs1.len() && first_match(
                postauth_of(#[trigger] fs1[i]),
                |rule: PostAuthRule| rule.spec_check(context, auth_context),
            ) is Some && first_match(
                postauth_of(#[trigger] fs1[j]),
                |rule: PostAuthRule| rule.spec_check(context, auth_context),
            ) is Some ==> fs1[i] == fs1[j],
    ensures
        postauth_action(postauth_of(fs1.flatten()), context, auth_context) == postauth_action(
            postauth_of(fs2.flatten()),
            context,
            auth_context,
        ),
{
    let pred = |rule: PostAuthRule| rule.spec_check(context, auth_context);
    let part = |f: Seq<Rule>| postauth_of(f);
    lemma_postauth_of_flatten(fs1);
    lemma_postauth_of_flatten(fs2);
    lemma_map_values_multiset(fs1, fs2, part);
    let ps1 = fs1.map_values(part);
    let ps2 = fs2.map_values(part);
    assert forall|i: int, j: int|
        0 <= i < ps1.len() && 0 <= j < ps1.len() && first_match(#[trigger] ps1[i], pred) is Some
            && first_match(#[trigger] ps1[j], pred) is Some implies ps1[i] == ps1[j] by {
        assert(ps1[i] == part(fs1[i]));
        assert(ps1[j] == part(fs1[j]));
    }
    lemma_file_reorder_stable(ps1, ps2, pred);
}

/// Law: as the pre-auth law, for the enrichment stage: the rule that fires
/// over the rules of a file list is stable under any reordering of the files,
/// provided at most one file contents carries a matching enrichment rule.
pub proof fn lemma_enrich_file_reorder_stable(
    fs1: Seq<Seq<Rule>>,
    fs2: Seq<Seq<Rule>>,
    context: RequestContext,
    auth_context: AuthenticationContext,
)
    requires
        fs1.to_multiset() == fs2.to_multiset(),
        forall|i: int, j: int|
            0 <= i < fs1.len() && 0 <= j < fs1.len() && first_match(
                enrich_of(#[trigger] fs1[i]),
                |rule: EnrichResponseRule| rule.spec_check(context, auth_context),
            ) is Some && first_match(
                enrich_of(#[trigger] fs1[j]),
                |rule: EnrichResponseRule| rule.spec_check(context, auth_context),
            ) is Some ==> fs1[i] == fs1[j],
    ensures
        first_match(
            enrich_of(fs1.flatten()),
            |rule: EnrichResponseRule| rule.spec_check(context, auth_context),
        ) == first_match(
            enrich_of(fs2.flatten()),
            |rule: EnrichResponseRule| rule.spec_check(context, auth_context),
        ),
{
    let pred = |rule: EnrichResponseRule| rule.spec_check(context, auth_context);
    let part = |f: Seq<Rule>| enrich_of(f);
    lemma_enrich_of_flatten(fs1);
    lemma_enrich_of_flatten(fs2);
    lemma_map_values_multiset(fs1, fs2, part);
    let ps1 = fs1.map_values(part);
    let ps2 = fs2.map_values(part);
    assert forall|i: int, j: int|
        0 <= i < ps1.len() && 0 <= j < ps1.len() && first_match(#[trigger] ps1[i], pred) is Some
            && first_match(#[trigger] ps1[j], pred) is Some implies ps1[i] == ps1[j] by {
        assert(ps1[i] == part(fs1[i]));
        assert(ps1[j] == part(fs1[j]));
    }
    lemma_file_reorder_stable(ps1, ps2, pred);
}

} // verus!
