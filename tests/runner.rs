use cucumber::feature::{scenario_steps, Background, Feature, Scenario, Step, StepKind};
use cucumber::outcome::{classify, Abort, TestResult};
use cucumber::runner::{ScenarioRun, StepPlan, Tally};
use cucumber::steps::{Steps, TestCase};

fn step(ty: StepKind, value: &str) -> Step {
    Step { ty, value: value.to_string(), docstring: None, position: (1, 1) }
}

fn abort(payload: &str, output: &str, location: Option<&str>) -> Abort {
    Abort {
        payload: payload.to_string(),
        output: output.to_string(),
        location: location.map(|l| l.to_string()),
    }
}

fn label(r: &TestResult) -> &'static str {
    match r {
        TestResult::MutexPoisoned => "poisoned",
        TestResult::Skipped => "skipped",
        TestResult::Unimplemented => "unimplemented",
        TestResult::Pass => "pass",
        TestResult::Fail(_, _) => "fail",
    }
}

/// Runs one scenario through the state machine; `invoke` stands for a
/// handler invocation and returns the outcome it yields.
fn run_scenario(
    steps: &Steps<u32>,
    list: &[Step],
    invoke: &dyn Fn(u32) -> TestResult,
    tally: &mut Tally,
) -> (Vec<&'static str>, usize) {
    let mut run = ScenarioRun::new();
    let mut out = vec![];
    let mut skipped_events = 0;
    for s in list {
        let result = match run.plan(steps, s) {
            StepPlan::Report(r) => r,
            StepPlan::Invoke(cucumber::steps::TestCaseType::Normal(tc)) => invoke(tc.test),
            StepPlan::Invoke(cucumber::steps::TestCaseType::Regex(tc, _)) => invoke(tc.test),
        };
        tally.record_step(&result);
        if run.record(&result) {
            skipped_events += 1;
        }
        out.push(label(&result));
    }
    tally.record_scenario(&run);
    (out, skipped_events)
}

fn registry() -> Steps<u32> {
    let mut s: Steps<u32> = Steps::new();
    s.insert(StepKind::Given, "a thing".to_string(), TestCase::new(0));
    s.insert(StepKind::When, "another thing".to_string(), TestCase::new(1));
    s.insert(StepKind::Then, "a stub".to_string(), TestCase::new(2));
    s
}

fn outcome_of(id: u32) -> TestResult {
    match id {
        0 => classify(false, None),
        1 => classify(false, Some(abort("assertion failed: false", "", Some("src/lib.rs:3:5")))),
        _ => classify(false, Some(abort("not yet implemented", "", None))),
    }
}

#[test]
fn steps_after_a_failure_are_skipped() {
    let s = registry();
    let list = [
        step(StepKind::Given, "a thing"),
        step(StepKind::When, "another thing"),
        step(StepKind::Then, "a stub"),
    ];
    let mut t = Tally::new();
    let (out, skipped_events) = run_scenario(&s, &list, &|id| {
        assert!(id != 2, "the third step must not be invoked");
        outcome_of(id)
    }, &mut t);
    assert_eq!(out, vec!["pass", "fail", "skipped"]);
    assert_eq!(skipped_events, 1);
    assert_eq!(t.scenario_fail_count, 1);
    assert_eq!(t.scenario_skipped_count, 0);
    assert_eq!(t.fail_count, 1);
    assert_eq!(t.skipped_count, 1);
    assert_eq!(t.passed(), 1);
}

#[test]
fn unresolved_step_skips_the_rest() {
    let s = registry();
    let list = [
        step(StepKind::Given, "a thing"),
        step(StepKind::When, "nothing registered"),
        step(StepKind::When, "another thing"),
        step(StepKind::Then, "also not registered"),
    ];
    let mut t = Tally::new();
    let (out, skipped_events) = run_scenario(&s, &list, &outcome_of, &mut t);
    assert_eq!(out, vec!["pass", "unimplemented", "skipped", "skipped"]);
    assert_eq!(skipped_events, 1);
    assert_eq!(t.scenario_count, 1);
    assert_eq!(t.scenario_skipped_count, 1);
    assert_eq!(t.scenario_fail_count, 0);
    assert_eq!(t.step_count, 4);
    assert_eq!(t.skipped_count, 3);
    assert_eq!(t.passed(), 1);
}

#[test]
fn stub_marker_is_unimplemented() {
    assert_eq!(label(&classify(false, Some(abort("not yet implemented", "", None)))), "unimplemented");
    assert_eq!(label(&classify(false, Some(abort("not yet implemented!", "", None)))), "fail");
}

#[test]
fn failure_message_prefers_captured_output() {
    match classify(false, Some(abort("boom", "printed text\n", Some("a.rs:1:2")))) {
        TestResult::Fail(m, o) => {
            assert_eq!(m, "printed text\n");
            assert_eq!(o, "a.rs:1:2");
        }
        _ => panic!("expected a failure"),
    }
    match classify(false, Some(abort("boom", "", None))) {
        TestResult::Fail(m, o) => {
            assert_eq!(m, "Panicked with: boom");
            assert_eq!(o, "unknown");
        }
        _ => panic!("expected a failure"),
    }
}

#[test]
fn poisoned_capture_and_normal_return() {
    assert_eq!(label(&classify(true, None)), "poisoned");
    assert_eq!(label(&classify(true, Some(abort("x", "", None)))), "poisoned");
    assert_eq!(label(&classify(false, None)), "pass");
}

#[test]
fn poisoned_step_counts_as_failure() {
    let mut run = ScenarioRun::new();
    let mut t = Tally::new();
    let r = TestResult::MutexPoisoned;
    t.record_step(&r);
    assert!(run.record(&r));
    assert!(!run.record(&TestResult::Skipped));
    t.record_scenario(&run);
    assert_eq!(t.fail_count, 1);
    assert_eq!(t.scenario_fail_count, 1);
    assert_eq!(t.scenario_skipped_count, 0);
}

#[test]
fn background_runs_first_in_every_scenario() {
    let feature = Feature {
        name: "f".to_string(),
        background: Some(Background {
            steps: vec![step(StepKind::Given, "bg one"), step(StepKind::Given, "bg two")],
            position: (2, 1),
        }),
        scenarios: vec![
            Scenario { name: "s1".to_string(), steps: vec![step(StepKind::When, "x")], position: (5, 1) },
            Scenario {
                name: "s2".to_string(),
                steps: vec![step(StepKind::When, "y"), step(StepKind::Then, "z")],
                position: (8, 1),
            },
        ],
        position: (1, 1),
    };
    let first: Vec<&str> =
        scenario_steps(&feature, &feature.scenarios[0]).iter().map(|s| s.value.as_str()).collect();
    assert_eq!(first, vec!["bg one", "bg two", "x"]);
    let second: Vec<&str> =
        scenario_steps(&feature, &feature.scenarios[1]).iter().map(|s| s.value.as_str()).collect();
    assert_eq!(second, vec!["bg one", "bg two", "y", "z"]);

    let plain = Feature { name: "g".to_string(), background: None, scenarios: vec![], position: (1, 1) };
    let sc = Scenario { name: "s".to_string(), steps: vec![step(StepKind::Given, "only")], position: (2, 1) };
    assert_eq!(scenario_steps(&plain, &sc).len(), 1);
}

#[test]
fn empty_suite_balances() {
    let t = Tally::new();
    assert_eq!(t.passed(), 0);
    assert_eq!(t.step_count, 0);
    assert_eq!(t.scenario_count, 0);
}

#[test]
fn counts_balance_over_mixed_scenarios() {
    let s = registry();
    let mut t = Tally::new();
    let a = [step(StepKind::Given, "a thing"), step(StepKind::Given, "a thing")];
    let b = [step(StepKind::When, "another thing"), step(StepKind::Given, "a thing")];
    let c = [step(StepKind::Then, "a stub"), step(StepKind::Given, "a thing")];
    run_scenario(&s, &a, &outcome_of, &mut t);
    run_scenario(&s, &b, &outcome_of, &mut t);
    run_scenario(&s, &c, &outcome_of, &mut t);
    assert_eq!(t.scenario_count, 3);
    assert_eq!(t.scenario_fail_count, 1);
    assert_eq!(t.scenario_skipped_count, 1);
    assert_eq!(t.step_count, 6);
    assert_eq!(t.fail_count, 1);
    assert_eq!(t.skipped_count, 3);
    assert_eq!(t.passed(), 2);
    assert_eq!(t.passed() + t.skipped_count + t.fail_count, t.step_count);
}
