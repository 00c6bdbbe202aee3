use cucumber::feature::{Step, StepKind};
use cucumber::pattern::HashableRegex;
use cucumber::steps::{RegexTestCase, Steps, TestCase, TestCaseType};

fn step(ty: StepKind, value: &str) -> Step {
    Step { ty, value: value.to_string(), docstring: None, position: (1, 1) }
}

fn exact_id(r: Option<TestCaseType<'_, u32>>) -> Option<u32> {
    match r {
        Some(TestCaseType::Normal(tc)) => Some(tc.test),
        _ => None,
    }
}

fn regex_hit(r: Option<TestCaseType<'_, u32>>) -> Option<(u32, Vec<String>)> {
    match r {
        Some(TestCaseType::Regex(tc, caps)) => Some((tc.test, caps)),
        _ => None,
    }
}

#[test]
fn exact_text_beats_matching_pattern() {
    let mut s: Steps<u32> = Steps::new();
    s.insert_regex(StepKind::When, "^another (.*)$", RegexTestCase::new(1)).unwrap();
    s.insert(StepKind::When, "another thing".to_string(), TestCase::new(2));
    assert_eq!(exact_id(s.resolve(StepKind::When, "another thing")), Some(2));
    assert_eq!(
        regex_hit(s.resolve(StepKind::When, "another one")),
        Some((1, vec!["another one".to_string(), "one".to_string()]))
    );
}

#[test]
fn first_registered_pattern_wins() {
    let mut s: Steps<u32> = Steps::new();
    s.insert_regex(StepKind::Given, "^a (.*)$", RegexTestCase::new(10)).unwrap();
    s.insert_regex(StepKind::Given, "^a (thing)$", RegexTestCase::new(20)).unwrap();
    let hit = regex_hit(s.resolve(StepKind::Given, "a thing")).unwrap();
    assert_eq!(hit.0, 10);

    let mut t: Steps<u32> = Steps::new();
    t.insert_regex(StepKind::Given, "^a (thing)$", RegexTestCase::new(20)).unwrap();
    t.insert_regex(StepKind::Given, "^a (.*)$", RegexTestCase::new(10)).unwrap();
    let hit = regex_hit(t.resolve(StepKind::Given, "a thing")).unwrap();
    assert_eq!(hit.0, 20);
}

#[test]
fn captures_are_whole_match_then_groups() {
    let mut s: Steps<u32> = Steps::new();
    s.insert_regex(StepKind::When, "^test (.*) regex$", RegexTestCase::new(7)).unwrap();
    let st = step(StepKind::When, "test 123 regex");
    assert_eq!(
        regex_hit(s.test_type(&st)),
        Some((7, vec!["test 123 regex".to_string(), "123".to_string()]))
    );
}

#[test]
fn kinds_are_kept_apart() {
    let mut s: Steps<u32> = Steps::new();
    s.insert(StepKind::Given, "a thing".to_string(), TestCase::new(1));
    s.insert(StepKind::Then, "another thing".to_string(), TestCase::new(2));
    assert_eq!(exact_id(s.resolve(StepKind::Given, "a thing")), Some(1));
    assert!(s.resolve(StepKind::When, "a thing").is_none());
    assert!(s.resolve(StepKind::Given, "another thing").is_none());
    assert_eq!(exact_id(s.resolve(StepKind::Then, "another thing")), Some(2));
}

#[test]
fn unmatched_step_resolves_to_nothing() {
    let s: Steps<u32> = Steps::new();
    assert!(s.resolve(StepKind::Given, "anything").is_none());
    let mut t: Steps<u32> = Steps::new();
    t.insert_regex(StepKind::Given, "^x+$", RegexTestCase::new(1)).unwrap();
    assert!(t.resolve(StepKind::Given, "xy").is_none());
}

#[test]
fn invalid_pattern_is_rejected() {
    let mut s: Steps<u32> = Steps::new();
    let err = s.insert_regex(StepKind::Then, "^(unclosed$", RegexTestCase::new(1)).unwrap_err();
    assert_eq!(err.pattern, "^(unclosed$");
    assert!(s.regex.then_steps.is_empty());
}

#[test]
fn reinserting_exact_text_replaces() {
    let mut s: Steps<u32> = Steps::new();
    s.insert(StepKind::When, "go".to_string(), TestCase::new(1));
    s.insert(StepKind::When, "go".to_string(), TestCase::new(2));
    assert_eq!(s.when.len(), 1);
    assert_eq!(exact_id(s.resolve(StepKind::When, "go")), Some(2));
}

#[test]
fn merge_later_exact_definition_wins() {
    let mut a: Steps<u32> = Steps::new();
    a.insert(StepKind::Given, "shared".to_string(), TestCase::new(1));
    a.insert_regex(StepKind::Given, "^p (.*)$", RegexTestCase::new(3)).unwrap();
    let mut b: Steps<u32> = Steps::new();
    b.insert(StepKind::Given, "shared".to_string(), TestCase::new(2));
    b.insert(StepKind::Given, "only b".to_string(), TestCase::new(4));
    b.insert_regex(StepKind::Given, "^p (x)$", RegexTestCase::new(5)).unwrap();
    a.extend(b);
    assert_eq!(exact_id(a.resolve(StepKind::Given, "shared")), Some(2));
    assert_eq!(exact_id(a.resolve(StepKind::Given, "only b")), Some(4));
    assert_eq!(a.given.len(), 2);
    assert_eq!(a.regex.given.len(), 2);
    assert_eq!(a.regex.given[0].0.as_str(), "^p (.*)$");
    assert_eq!(regex_hit(a.resolve(StepKind::Given, "p x")).unwrap().0, 3);
}

#[test]
fn function_pointer_handlers() {
    fn ok(w: &mut u32) {
        *w += 1;
    }
    let mut s: Steps<fn(&mut u32)> = Steps::new();
    s.insert(StepKind::Given, "bump".to_string(), TestCase::new(ok as fn(&mut u32)));
    let mut world = 0u32;
    match s.resolve(StepKind::Given, "bump") {
        Some(TestCaseType::Normal(tc)) => (tc.test)(&mut world),
        _ => panic!("not resolved"),
    }
    assert_eq!(world, 1);
}

#[test]
fn ambiguities_lists_texts_defined_by_both() {
    let mut a: Steps<u32> = Steps::new();
    a.insert(StepKind::When, "one".to_string(), TestCase::new(1));
    a.insert(StepKind::When, "two".to_string(), TestCase::new(2));
    a.insert(StepKind::Given, "three".to_string(), TestCase::new(3));
    let mut b: Steps<u32> = Steps::new();
    b.insert(StepKind::When, "two".to_string(), TestCase::new(4));
    b.insert(StepKind::When, "five".to_string(), TestCase::new(5));
    b.insert(StepKind::When, "one".to_string(), TestCase::new(6));
    b.insert(StepKind::Then, "three".to_string(), TestCase::new(7));
    assert_eq!(a.ambiguities(&b, StepKind::When), vec!["two".to_string(), "one".to_string()]);
    assert!(a.ambiguities(&b, StepKind::Given).is_empty());
    assert!(a.ambiguities(&b, StepKind::Then).is_empty());
}

#[test]
fn patterns_compare_by_source() {
    let p = HashableRegex::new("^a (.*)$").unwrap();
    let q = HashableRegex::new("^a (.*)$").unwrap();
    let r = HashableRegex::new("^b$").unwrap();
    assert!(p == q);
    assert!(p != r);
    assert_eq!(p.as_str(), "^a (.*)$");
    assert_eq!(p.captures("a b"), Some(vec!["a b".to_string(), "b".to_string()]));
    assert_eq!(p.captures("b"), None);
    assert!(HashableRegex::new("(").is_err());
}

#[test]
fn unmatched_optional_group_is_empty_text() {
    let p = HashableRegex::new("^a(b)?(c)$").unwrap();
    assert_eq!(
        p.captures("ac"),
        Some(vec!["ac".to_string(), String::new(), "c".to_string()])
    );
}
