//! Properties that relate several operations of the library.

use vstd::prelude::*;
use crate::feature::StepKind;
use crate::outcome::TestResult;
use crate::pattern::pattern_captures;
use crate::runner::{ScenarioRun, Tally};
use crate::steps::{
    exact_keys, first_exact, lemma_first_exact_is, first_pattern, insert_exact, is_first_exact, is_first_pattern,
    merge_exact, pattern_keys, Steps, TestCase, TestCaseType,
};

verus! {

proof fn lemma_exists_first_exact(keys: Seq<Seq<char>>, text: Seq<char>, j: int)
    requires
        0 <= j < keys.len(),
        keys[j] == text,
    ensures
        first_exact(keys, text) is Some,
        is_first_exact(keys, text, first_exact(keys, text)->0),
    decreases j,
{
    if exists|m: int| 0 <= m < j && keys[m] == text {
        let m = choose|m: int| 0 <= m < j && keys[m] == text;
        lemma_exists_first_exact(keys, text, m);
    } else {
        assert(is_first_exact(keys, text, j));
    }
}

proof fn lemma_exists_first_pattern(patterns: Seq<Seq<char>>, text: Seq<char>, j: int)
    requires
        0 <= j < patterns.len(),
        pattern_captures(patterns[j], text) is Some,
    ensures
        first_pattern(patterns, text) matches Some(m) && m <= j && is_first_pattern(
            patterns,
            text,
            m,
        ),
    decreases j,
{
    if exists|m: int| 0 <= m < j && pattern_captures(patterns[m], text) is Some {
        let m = choose|m: int| 0 <= m < j && pattern_captures(patterns[m], text) is Some;
        lemma_exists_first_pattern(patterns, text, m);
    } else {
        assert(is_first_pattern(patterns, text, j));
    }
}

/// An exact-text definition for a step's text is always chosen over the
/// patterns, whether or not one of them would match too.
pub proof fn exact_text_wins<H>(steps: &Steps<H>, kind: StepKind, text: Seq<char>, i: int)
    requires
        0 <= i < steps.exact_bag(kind).len(),
        steps.exact_bag(kind)[i].0@ == text,
    ensures
        forall|r: Option<TestCaseType<'_, H>>|
            steps.resolves_to(kind, text, r) ==> r matches Some(TestCaseType::Normal(_)),
{
    let keys = exact_keys(steps.exact_bag(kind));
    assert(keys[i] == text);
    lemma_exists_first_exact(keys, text, i);
}

/// When no exact text matches and patterns `i < j` both match, the
/// definition chosen is registered no later than `i`, so never `j`: patterns
/// are tried in registration order and the first match wins.
pub proof fn first_registered_pattern_wins<H>(
    steps: &Steps<H>,
    kind: StepKind,
    text: Seq<char>,
    i: int,
    j: int,
)
    requires
        0 <= i < j < steps.regex_bag(kind).len(),
        forall|k: int| 0 <= k < steps.exact_bag(kind).len() ==> steps.exact_bag(kind)[k].0@ != text,
        pattern_captures(steps.regex_bag(kind)[i].0@, text) is Some,
        pattern_captures(steps.regex_bag(kind)[j].0@, text) is Some,
    ensures
        first_pattern(pattern_keys(steps.regex_bag(kind)), text) matches Some(m) && m <= i,
        forall|r: Option<TestCaseType<'_, H>>|
            steps.resolves_to(kind, text, r) ==> (r matches Some(TestCaseType::Regex(tc, _)) && *tc
                == steps.regex_bag(kind)[first_pattern(pattern_keys(steps.regex_bag(kind)), text)->0].1),
{
    let keys = exact_keys(steps.exact_bag(kind));
    let pats = pattern_keys(steps.regex_bag(kind));
    assert(pats[i] == steps.regex_bag(kind)[i].0@);
    lemma_exists_first_pattern(pats, text, i);
    if first_exact(keys, text) is Some {
        let k = choose|k: int| is_first_exact(keys, text, k);
        assert(keys[k] == steps.exact_bag(kind)[k].0@);
    }
}

proof fn lemma_insert_same<H>(bag: Seq<(String, TestCase<H>)>, text: String, case: TestCase<H>)
    ensures
        first_exact(exact_keys(insert_exact(bag, text, case)), text@) matches Some(i)
            && insert_exact(bag, text, case)[i] == (text, case),
{
    let keys = exact_keys(bag);
    let out = insert_exact(bag, text, case);
    let okeys = exact_keys(out);
    match first_exact(keys, text@) {
        Some(i) => {
            assert(is_first_exact(keys, text@, i));
            assert(okeys =~= keys.update(i, text@));
            assert(is_first_exact(okeys, text@, i));
            lemma_first_exact_is(okeys, text@, i);
        },
        None => {
            assert forall|j: int| 0 <= j < keys.len() implies keys[j] != text@ by {
                if keys[j] == text@ {
                    lemma_exists_first_exact(keys, text@, j);
                }
            }
            assert(okeys =~= keys.push(text@));
            assert(is_first_exact(okeys, text@, bag.len() as int));
            lemma_first_exact_is(okeys, text@, bag.len() as int);
        },
    }
}

proof fn lemma_insert_other<H>(
    bag: Seq<(String, TestCase<H>)>,
    other: String,
    case: TestCase<H>,
    text: Seq<char>,
)
    requires
        other@ != text,
    ensures
        first_exact(exact_keys(insert_exact(bag, other, case)), text) == first_exact(
            exact_keys(bag),
            text,
        ),
        first_exact(exact_keys(bag), text) matches Some(i) ==> insert_exact(bag, other, case)[i]
            == bag[i],
{
    let keys = exact_keys(bag);
    let out = insert_exact(bag, other, case);
    let okeys = exact_keys(out);
    match first_exact(keys, other@) {
        Some(i) => {
            assert(okeys =~= keys.update(i, other@));
            assert(out =~= bag.update(i, (other, case)));
        },
        None => {
            assert(okeys =~= keys.push(other@));
            assert(out =~= bag.push((other, case)));
        },
    }
    match first_exact(keys, text) {
        Some(i) => {
            assert(is_first_exact(keys, text, i));
            assert(is_first_exact(okeys, text, i));
            lemma_first_exact_is(okeys, text, i);
        },
        None => {
            assert forall|j: int| 0 <= j < keys.len() implies keys[j] != text by {
                if keys[j] == text {
                    lemma_exists_first_exact(keys, text, j);
                }
            }
            assert forall|j: int| 0 <= j < okeys.len() implies okeys[j] != text by {}
        },
    }
}

proof fn lemma_merge_later<H>(
    bag: Seq<(String, TestCase<H>)>,
    other: Seq<(String, TestCase<H>)>,
    text: Seq<char>,
    k: int,
)
    requires
        0 <= k < other.len(),
        other[k].0@ == text,
        forall|m: int| k < m < other.len() ==> other[m].0@ != text,
    ensures
        first_exact(exact_keys(merge_exact(bag, other)), text) matches Some(i) && merge_exact(
            bag,
            other,
        )[i] == other[k],
    decreases other.len(),
{
    let prev = other.drop_last();
    if k == other.len() - 1 {
        lemma_insert_same(merge_exact(bag, prev), other.last().0, other.last().1);
    } else {
        lemma_merge_later(bag, prev, text, k);
        lemma_insert_other(merge_exact(bag, prev), other.last().0, other.last().1, text);
    }
}

/// After registries are merged, a step text that both define exactly for the
/// same kind resolves to one definition: the last one registered for it in
/// the registry merged in.
pub proof fn merge_resolves_to_later<H>(
    merged: &Steps<H>,
    first: &Steps<H>,
    second: &Steps<H>,
    kind: StepKind,
    text: Seq<char>,
    k: int,
)
    requires
        merged.exact_bag(kind) == merge_exact(first.exact_bag(kind), second.exact_bag(kind)),
        0 <= k < second.exact_bag(kind).len(),
        second.exact_bag(kind)[k].0@ == text,
        forall|m: int|
            k < m < second.exact_bag(kind).len() ==> second.exact_bag(kind)[m].0@ != text,
    ensures
        forall|r: Option<TestCaseType<'_, H>>|
            merged.resolves_to(kind, text, r) ==> (r matches Some(TestCaseType::Normal(tc)) && *tc
                == second.exact_bag(kind)[k].1),
{
    lemma_merge_later(first.exact_bag(kind), second.exact_bag(kind), text, k);
}

/// Passed, skipped and failed steps add up to the steps counted, for every
/// tally that the library's operations build, the empty one included.
pub proof fn step_counts_balance(t: &Tally)
    requires
        t.wf(),
    ensures
        t.passed_spec() >= 0,
        t.passed_spec() + t.skipped_count + t.fail_count == t.step_count,
{
}

/// Over a scenario, the run is skipping exactly when some step reported an
/// outcome other than `Pass`, and failed exactly when some step reported
/// `Fail` or `MutexPoisoned`. Once skipping it stays so, and every later step
/// is planned as `Skipped`; a scenario stopped only by `Unimplemented` is
/// counted as skipped, not failed.
pub proof fn skipping_follows_first_non_pass(run: ScenarioRun, results: Seq<TestResult>)
    ensures
        run.after_all(results).skipping == (run.skipping || exists|i: int|
            0 <= i < results.len() && !(results[i] is Pass)),
        run.after_all(results).failed == (run.failed || exists|i: int|
            0 <= i < results.len() && results[i].is_failure()),
    decreases results.len(),
{
    if results.len() > 0 {
        let prev = results.drop_last();
        skipping_follows_first_non_pass(run, prev);
        let n = results.len() - 1;
        assert forall|i: int| 0 <= i < n implies prev[i] == results[i] by {}
        if exists|i: int| 0 <= i < results.len() && !(results[i] is Pass) {
            let i = choose|i: int| 0 <= i < results.len() && !(results[i] is Pass);
            if i < n {
                assert(!(prev[i] is Pass));
            }
        }
        if exists|i: int| 0 <= i < results.len() && results[i].is_failure() {
            let i = choose|i: int| 0 <= i < results.len() && results[i].is_failure();
            if i < n {
                assert(prev[i].is_failure());
            }
        }
        if exists|i: int| 0 <= i < n && !(prev[i] is Pass) {
            let i = choose|i: int| 0 <= i < n && !(prev[i] is Pass);
            assert(!(results[i] is Pass));
        }
        if exists|i: int| 0 <= i < n && prev[i].is_failure() {
            let i = choose|i: int| 0 <= i < n && prev[i].is_failure();
            assert(results[i].is_failure());
        }
    }
}

} // verus!
