//! The step registry: exact-text and pattern definitions per step kind, and
//! how a step resolves to one of them.

use vstd::prelude::*;
use crate::feature::{Step, StepKind};
use crate::pattern::{pattern_captures, pattern_is_valid, HashableRegex, PatternError};

verus! {

/// A handler registered for one exact step text.
pub struct TestCase<H> {
    pub test: H,
}

impl<H> TestCase<H> {
    pub fn new(test: H) -> (r: TestCase<H>)
        ensures
            r.test == test,
    {
        TestCase { test }
    }
}

/// A handler registered for a pattern; it receives the pattern's captures.
pub struct RegexTestCase<H> {
    pub test: H,
}

impl<H> RegexTestCase<H> {
    pub fn new(test: H) -> (r: RegexTestCase<H>)
        ensures
            r.test == test,
    {
        RegexTestCase { test }
    }
}

/// Pattern definitions per step kind, each list in registration order.
pub struct RegexSteps<H> {
    pub given: Vec<(HashableRegex, RegexTestCase<H>)>,
    pub when: Vec<(HashableRegex, RegexTestCase<H>)>,
    pub then_steps: Vec<(HashableRegex, RegexTestCase<H>)>,
}

/// A registry of step definitions. For exact texts the first entry with a
/// given text is the one that counts; registration keeps texts unique.
pub struct Steps<H> {
    pub given: Vec<(String, TestCase<H>)>,
    pub when: Vec<(String, TestCase<H>)>,
    pub then_steps: Vec<(String, TestCase<H>)>,
    pub regex: RegexSteps<H>,
}

/// What a step resolved to: an exact-text definition, or a pattern
/// definition with the captures of its match.
pub enum TestCaseType<'a, H> {
    Normal(&'a TestCase<H>),
    Regex(&'a RegexTestCase<H>, Vec<String>),
}

/// `i` is the first position of `text` among `keys`.
pub open spec fn is_first_exact(keys: Seq<Seq<char>>, text: Seq<char>, i: int) -> bool {
    &&& 0 <= i < keys.len()
    &&& keys[i] == text
    &&& forall|j: int| 0 <= j < i ==> keys[j] != text
}

/// The first position of `text` among `keys`, if any.
pub open spec fn first_exact(keys: Seq<Seq<char>>, text: Seq<char>) -> Option<int> {
    if exists|i: int| is_first_exact(keys, text, i) {
        Some(choose|i: int| is_first_exact(keys, text, i))
    } else {
        None
    }
}

/// `i` is the first of `patterns` that matches `text`.
pub open spec fn is_first_pattern(patterns: Seq<Seq<char>>, text: Seq<char>, i: int) -> bool {
    &&& 0 <= i < patterns.len()
    &&& pattern_captures(patterns[i], text) is Some
    &&& forall|j: int| 0 <= j < i ==> pattern_captures(patterns[j], text) is None
}

/// The first of `patterns`, in registration order, that matches `text`.
pub open spec fn first_pattern(patterns: Seq<Seq<char>>, text: Seq<char>) -> Option<int> {
    if exists|i: int| is_first_pattern(patterns, text, i) {
        Some(choose|i: int| is_first_pattern(patterns, text, i))
    } else {
        None
    }
}

/// The texts of exact-text entries.
pub open spec fn exact_keys<H>(bag: Seq<(String, TestCase<H>)>) -> Seq<Seq<char>> {
    bag.map_values(|e: (String, TestCase<H>)| e.0@)
}

/// The source texts of pattern entries.
pub open spec fn pattern_keys<H>(bag: Seq<(HashableRegex, RegexTestCase<H>)>) -> Seq<Seq<char>> {
    bag.map_values(|e: (HashableRegex, RegexTestCase<H>)| e.0@)
}

/// The exact-text entries after registering `case` for `text`: it replaces
/// the entry that counts for `text`, or is appended when there is none.
pub open spec fn insert_exact<H>(
    bag: Seq<(String, TestCase<H>)>,
    text: String,
    case: TestCase<H>,
) -> Seq<(String, TestCase<H>)> {
    match first_exact(exact_keys(bag), text@) {
        Some(i) => bag.update(i, (text, case)),
        None => bag.push((text, case)),
    }
}

/// The exact-text entries after registering each of `other`, in order.
pub open spec fn merge_exact<H>(
    bag: Seq<(String, TestCase<H>)>,
    other: Seq<(String, TestCase<H>)>,
) -> Seq<(String, TestCase<H>)>
    decreases other.len(),
{
    if other.len() == 0 {
        bag
    } else {
        insert_exact(merge_exact(bag, other.drop_last()), other.last().0, other.last().1)
    }
}

pub(crate) proof fn lemma_first_exact_is(keys: Seq<Seq<char>>, text: Seq<char>, i: int)
    requires
        is_first_exact(keys, text, i),
    ensures
        first_exact(keys, text) == Some(i),
{
    let k = choose|k: int| is_first_exact(keys, text, k);
    assert(is_first_exact(keys, text, k));
    if k < i {
        assert(keys[k] != text);
    }
    if i < k {
        assert(keys[i] != text);
    }
}

proof fn lemma_first_exact_none(keys: Seq<Seq<char>>, text: Seq<char>)
    requires
        forall|j: int| 0 <= j < keys.len() ==> keys[j] != text,
    ensures
        first_exact(keys, text) is None,
{
}

proof fn lemma_first_pattern_is(patterns: Seq<Seq<char>>, text: Seq<char>, i: int)
    requires
        is_first_pattern(patterns, text, i),
    ensures
        first_pattern(patterns, text) == Some(i),
{
    let k = choose|k: int| is_first_pattern(patterns, text, k);
    assert(is_first_pattern(patterns, text, k));
    if k < i {
        assert(pattern_captures(patterns[k], text) is None);
    }
    if i < k {
        assert(pattern_captures(patterns[i], text) is None);
    }
}


impl<H> Steps<H> {
    /// The exact-text entries for one kind of step.
    pub open spec fn exact_bag(&self, kind: StepKind) -> Seq<(String, TestCase<H>)> {
        match kind {
            StepKind::Given => self.given@,
            StepKind::When => self.when@,
            StepKind::Then => self.then_steps@,
        }
    }

    /// The pattern entries for one kind of step.
    pub open spec fn regex_bag(&self, kind: StepKind) -> Seq<(HashableRegex, RegexTestCase<H>)> {
        match kind {
            StepKind::Given => self.regex.given@,
            StepKind::When => self.regex.when@,
            StepKind::Then => self.regex.then_steps@,
        }
    }

    /// What a step of `kind` with `text` resolves to: the exact-text entry
    /// that counts for it when there is one, otherwise the first pattern that
    /// matches.
    pub open spec fn resolves_to(&self, kind: StepKind, text: Seq<char>, r: Option<TestCaseType<'_, H>>) -> bool {
        let ex = self.exact_bag(kind);
        let rx = self.regex_bag(kind);
        match first_exact(exact_keys(ex), text) {
            Some(i) => r matches Some(TestCaseType::Normal(tc)) && *tc == ex[i].1,
            None => match first_pattern(pattern_keys(rx), text) {
                Some(j) => r matches Some(TestCaseType::Regex(tc, caps)) && *tc == rx[j].1
                    && pattern_captures(rx[j].0@, text) == Some(caps@.map_values(|s: String| s@)),
                None => r is None,
            },
        }
    }

    /// An empty registry.
    pub fn new() -> (r: Steps<H>)
        ensures
            forall|k: StepKind| r.exact_bag(k).len() == 0 && r.regex_bag(k).len() == 0,
    {
        Steps {
            given: Vec::new(),
            when: Vec::new(),
            then_steps: Vec::new(),
            regex: RegexSteps { given: Vec::new(), when: Vec::new(), then_steps: Vec::new() },
        }
    }

    fn test_bag_for(&self, ty: StepKind) -> (r: &Vec<(String, TestCase<H>)>)
        ensures
            r@ == self.exact_bag(ty),
    {
        match ty {
            StepKind::Given => &self.given,
            StepKind::When => &self.when,
            StepKind::Then => &self.then_steps,
        }
    }

    fn regex_bag_for(&self, ty: StepKind) -> (r: &Vec<(HashableRegex, RegexTestCase<H>)>)
        ensures
            r@ == self.regex_bag(ty),
    {
        match ty {
            StepKind::Given => &self.regex.given,
            StepKind::When => &self.regex.when,
            StepKind::Then => &self.regex.then_steps,
        }
    }

    /// Resolves a step of `kind` with `text`: an exact-text lookup first; on a
    /// miss, the patterns in registration order, the first match winning.
    pub fn resolve(&self, kind: StepKind, text: &str) -> (r: Option<TestCaseType<'_, H>>)
        ensures
            self.resolves_to(kind, text@, r),
    {
        let bag = self.test_bag_for(kind);
        let wanted = text.to_owned();
        let ghost keys = exact_keys(bag@);
        let mut i: usize = 0;
        while i < bag.len()
            invariant
                i <= bag@.len(),
                keys == exact_keys(bag@),
                wanted@ == text@,
                bag@ == self.exact_bag(kind),
                forall|j: int| 0 <= j < i ==> keys[j] != text@,
            decreases bag@.len() - i,
        {
            assert(keys[i as int] == bag@[i as int].0@);
            if bag[i].0 == wanted {
                proof {
                    lemma_first_exact_is(keys, text@, i as int);
                }
                return Some(TestCaseType::Normal(&bag[i].1));
            }
            i = i + 1;
        }
        proof {
            lemma_first_exact_none(keys, text@);
        }
        let rbag = self.regex_bag_for(kind);
        let ghost pats = pattern_keys(rbag@);
        let mut j: usize = 0;
        while j < rbag.len()
            invariant
                j <= rbag@.len(),
                pats == pattern_keys(rbag@),
                rbag@ == self.regex_bag(kind),
                first_exact(exact_keys(self.exact_bag(kind)), text@) is None,
                forall|k: int| 0 <= k < j ==> pattern_captures(pats[k], text@) is None,
            decreases rbag@.len() - j,
        {
            match rbag[j].0.captures(text) {
                Some(caps) => {
                    proof {
                        lemma_first_pattern_is(pats, text@, j as int);
                    }
                    return Some(TestCaseType::Regex(&rbag[j].1, caps));
                },
                None => {},
            }
            j = j + 1;
        }
        None
    }

    /// `resolve` for a step of the feature tree.
    pub fn test_type(&self, step: &Step) -> (r: Option<TestCaseType<'_, H>>)
        ensures
            self.resolves_to(step.ty, step.value@, r),
    {
        self.resolve(step.ty, step.value.as_str())
    }
}


/// Registers `case` for `text` in one list of exact-text entries.
fn insert_into<H>(bag: &mut Vec<(String, TestCase<H>)>, text: String, case: TestCase<H>)
    ensures
        final(bag)@ == insert_exact(old(bag)@, text, case),
{
    let ghost keys = exact_keys(bag@);
    let mut i: usize = 0;
    while i < bag.len()
        invariant
            i <= bag@.len(),
            keys == exact_keys(bag@),
            bag@ == old(bag)@,
            forall|j: int| 0 <= j < i ==> keys[j] != text@,
        decreases bag@.len() - i,
    {
        assert(keys[i as int] == bag@[i as int].0@);
        if bag[i].0 == text {
            proof {
                lemma_first_exact_is(keys, text@, i as int);
            }
            bag[i] = (text, case);
            return;
        }
        i = i + 1;
    }
    proof {
        lemma_first_exact_none(keys, text@);
    }
    bag.push((text, case));
}

/// Registers each entry of `other`, in order, in one list of exact-text entries.
fn merge_into<H>(bag: &mut Vec<(String, TestCase<H>)>, other: Vec<(String, TestCase<H>)>)
    ensures
        final(bag)@ == merge_exact(old(bag)@, other@),
{
    let ghost all = other@;
    let mut rest = other;
    let n = rest.len();
    let mut k: usize = 0;
    while rest.len() > 0
        invariant
            k + rest@.len() == all.len(),
            all.len() == n,
            rest@ == all.skip(k as int),
            bag@ == merge_exact(old(bag)@, all.take(k as int)),
        decreases rest@.len(),
    {
        let (text, case) = rest.remove(0);
        proof {
            assert(all.take(k + 1).drop_last() == all.take(k as int));
            assert(all.take(k + 1).last() == all[k as int]);
        }
        insert_into(bag, text, case);
        k = k + 1;
        proof {
            assert(rest@ == all.skip(k as int));
        }
    }
    assert(all.take(k as int) == all);
}

impl<H> Steps<H> {
    /// Registers `case` for steps of `kind` whose text is exactly `text`,
    /// replacing an earlier definition for the same text.
    pub fn insert(&mut self, kind: StepKind, text: String, case: TestCase<H>)
        ensures
            final(self).exact_bag(kind) == insert_exact(old(self).exact_bag(kind), text, case),
            forall|k: StepKind| k != kind ==> final(self).exact_bag(k) == old(self).exact_bag(k),
            forall|k: StepKind| final(self).regex_bag(k) == old(self).regex_bag(k),
    {
        match kind {
            StepKind::Given => insert_into(&mut self.given, text, case),
            StepKind::When => insert_into(&mut self.when, text, case),
            StepKind::Then => insert_into(&mut self.then_steps, text, case),
        }
    }

    /// Registers `case` for steps of `kind` that match `pattern`, after the
    /// patterns already registered; fails when the pattern does not compile.
    pub fn insert_regex(&mut self, kind: StepKind, pattern: &str, case: RegexTestCase<H>) -> (r:
        Result<(), PatternError>)
        ensures
            r is Ok <==> pattern_is_valid(pattern@),
            r matches Err(e) ==> e.pattern@ == pattern@,
            forall|k: StepKind| final(self).exact_bag(k) == old(self).exact_bag(k),
            forall|k: StepKind| k != kind ==> final(self).regex_bag(k) == old(self).regex_bag(k),
            r is Ok ==> final(self).regex_bag(kind).len() == old(self).regex_bag(kind).len() + 1
                && final(self).regex_bag(kind).drop_last() == old(self).regex_bag(kind)
                && final(self).regex_bag(kind).last().0@ == pattern@
                && final(self).regex_bag(kind).last().1 == case,
            r is Err ==> final(self).regex_bag(kind) == old(self).regex_bag(kind),
    {
        match HashableRegex::new(pattern) {
            Ok(re) => {
                match kind {
                    StepKind::Given => self.regex.given.push((re, case)),
                    StepKind::When => self.regex.when.push((re, case)),
                    StepKind::Then => self.regex.then_steps.push((re, case)),
                }
                Ok(())
            },
            Err(e) => Err(e),
        }
    }

    /// Adds every definition of `other`: its exact-text entries are
    /// registered in order, each replacing an earlier one for the same text,
    /// and its patterns follow this registry's, their order kept.
    pub fn extend(&mut self, other: Steps<H>)
        ensures
            forall|k: StepKind| final(self).exact_bag(k) == merge_exact(old(self).exact_bag(k), other.exact_bag(k)),
            forall|k: StepKind| final(self).regex_bag(k) == old(self).regex_bag(k) + other.regex_bag(k),
    {
        let Steps { given, when, then_steps, regex } = other;
        let RegexSteps { given: mut rg, when: mut rw, then_steps: mut rt } = regex;
        merge_into(&mut self.given, given);
        merge_into(&mut self.when, when);
        merge_into(&mut self.then_steps, then_steps);
        self.regex.given.append(&mut rg);
        self.regex.when.append(&mut rw);
        self.regex.then_steps.append(&mut rt);
    }
}

/// Whether some exact-text entry of `bag` is for `text`.
fn defines_exact<H>(bag: &Vec<(String, TestCase<H>)>, text: &String) -> (r: bool)
    ensures
        r == exact_keys(bag@).contains(text@),
{
    let ghost keys = exact_keys(bag@);
    let mut i: usize = 0;
    while i < bag.len()
        invariant
            i <= bag@.len(),
            keys == exact_keys(bag@),
            forall|j: int| 0 <= j < i ==> keys[j] != text@,
        decreases bag@.len() - i,
    {
        assert(keys[i as int] == bag@[i as int].0@);
        if bag[i].0 == *text {
            assert(keys.contains(text@));
            return true;
        }
        i = i + 1;
    }
    false
}

impl<H> Steps<H> {
    /// The exact texts of `kind` that both this registry and `other` define:
    /// on `extend(other)` the definition of `other` replaces this one's for
    /// each of them. Listed in the order of `other`'s entries.
    pub fn ambiguities(&self, other: &Steps<H>, kind: StepKind) -> (r: Vec<String>)
        ensures
            forall|t: Seq<char>|
                r@.map_values(|s: String| s@).contains(t) <==> (exact_keys(
                    self.exact_bag(kind),
                ).contains(t) && exact_keys(other.exact_bag(kind)).contains(t)),
    {
        let mine = self.test_bag_for(kind);
        let theirs = other.test_bag_for(kind);
        let ghost okeys = exact_keys(theirs@);
        let mut r: Vec<String> = Vec::new();
        let mut i: usize = 0;
        while i < theirs.len()
            invariant
                i <= theirs@.len(),
                okeys == exact_keys(theirs@),
                mine@ == self.exact_bag(kind),
                theirs@ == other.exact_bag(kind),
                forall|t: Seq<char>|
                    r@.map_values(|s: String| s@).contains(t) <==> (exact_keys(mine@).contains(t)
                        && exists|j: int| 0 <= j < i && okeys[j] == t),
            decreases theirs@.len() - i,
        {
            assert(okeys[i as int] == theirs@[i as int].0@);
            let ghost before = r@.map_values(|s: String| s@);
            let ghost k = okeys[i as int];
            assert(forall|t: Seq<char>|
                before.contains(t) <==> (exact_keys(mine@).contains(t) && exists|j: int|
                    0 <= j < i && okeys[j] == t));
            let d = defines_exact(mine, &theirs[i].0);
            if d {
                r.push(theirs[i].0.clone());
            }
            let ghost after = r@.map_values(|s: String| s@);
            proof {
                if d {
                    assert(after =~= before.push(k));
                } else {
                    assert(after =~= before);
                }
            }
            i = i + 1;
            proof {
                assert forall|t: Seq<char>|
                    after.contains(t) <==> (exact_keys(mine@).contains(t) && exists|j: int|
                        0 <= j < i && okeys[j] == t) by {
                    if after.contains(t) {
                        let x = choose|x: int| 0 <= x < after.len() && after[x] == t;
                        if x < before.len() {
                            assert(before[x] == t);
                            assert(before.contains(t));
                            let j = choose|j: int| 0 <= j < i - 1 && okeys[j] == t;
                            assert(0 <= j < i && okeys[j] == t);
                        } else {
                            assert(t == k);
                            assert(okeys[i - 1] == t);
                        }
                    }
                    if exact_keys(mine@).contains(t) && exists|j: int| 0 <= j < i && okeys[j] == t {
                        let j = choose|j: int| 0 <= j < i && okeys[j] == t;
                        if j < i - 1 {
                            assert(before.contains(t));
                            let x = choose|x: int| 0 <= x < before.len() && before[x] == t;
                            assert(after[x] == t);
                        } else {
                            assert(d);
                            assert(after[after.len() - 1] == t);
                        }
                    }
                }
            }
        }
        proof {
            assert forall|t: Seq<char>| okeys.contains(t) implies exists|j: int|
                0 <= j < i && okeys[j] == t by {
                let j = choose|j: int| 0 <= j < okeys.len() && okeys[j] == t;
            }
        }
        r
    }
}

} // verus!
