//! The per-scenario state machine and the run's tallies. The caller runs the
//! loop: it asks what to do with each step, performs an invocation when told
//! to, and hands the outcome back.

use vstd::prelude::*;
use crate::feature::Step;
use crate::outcome::TestResult;
use crate::steps::{Steps, TestCaseType};

verus! {

/// What to do with the next step of a scenario.
pub enum StepPlan<'a, H> {
    /// Report this outcome without invoking anything.
    Report(TestResult),
    /// Invoke the resolved handler and report what the invocation yields.
    Invoke(TestCaseType<'a, H>),
}

/// The state of one scenario's run.
pub struct ScenarioRun {
    /// A step has yielded something other than `Pass`.
    pub skipping: bool,
    /// A step has yielded `Fail` or `MutexPoisoned`.
    pub failed: bool,
}

impl ScenarioRun {
    /// The state after a step whose reported outcome is `result`.
    pub open spec fn after(self, result: TestResult) -> ScenarioRun {
        ScenarioRun {
            skipping: self.skipping || !(result is Pass),
            failed: self.failed || result.is_failure(),
        }
    }

    /// The state after steps whose reported outcomes are `results`, in order.
    pub open spec fn after_all(self, results: Seq<TestResult>) -> ScenarioRun
        decreases results.len(),
    {
        if results.len() == 0 {
            self
        } else {
            self.after_all(results.drop_last()).after(results.last())
        }
    }

    /// A scenario before its first step.
    pub fn new() -> (r: ScenarioRun)
        ensures
            !r.skipping,
            !r.failed,
    {
        ScenarioRun { skipping: false, failed: false }
    }

    /// What to do with `step`. Once skipping, every step is reported as
    /// `Skipped` without being looked up; otherwise an unresolved step is
    /// `Unimplemented` and a resolved one is invoked.
    pub fn plan<'a, H>(&self, steps: &'a Steps<H>, step: &Step) -> (r: StepPlan<'a, H>)
        ensures
            self.skipping ==> r matches StepPlan::Report(TestResult::Skipped),
            !self.skipping ==> match r {
                StepPlan::Report(res) => res is Unimplemented && steps.resolves_to(
                    step.ty,
                    step.value@,
                    None,
                ),
                StepPlan::Invoke(tc) => steps.resolves_to(step.ty, step.value@, Some(tc)),
            },
    {
        if self.skipping {
            return StepPlan::Report(TestResult::Skipped);
        }
        match steps.test_type(step) {
            Some(tc) => StepPlan::Invoke(tc),
            None => StepPlan::Report(TestResult::Unimplemented),
        }
    }

    /// Takes in the outcome reported for a step. Returns whether the
    /// scenario has just started skipping, so that this is reported once.
    pub fn record(&mut self, result: &TestResult) -> (started_skipping: bool)
        ensures
            started_skipping == (!old(self).skipping && !(result is Pass)),
            *final(self) == old(self).after(*result),
            final(self).skipping == (old(self).skipping || !(result is Pass)),
            final(self).failed == (old(self).failed || result.is_failure()),
    {
        let pass = result.is_pass();
        let failure = match result {
            TestResult::Fail(_, _) => true,
            TestResult::MutexPoisoned => true,
            _ => false,
        };
        let started = !self.skipping && !pass;
        if !pass {
            self.skipping = true;
        }
        if failure {
            self.failed = true;
        }
        started
    }
}

/// Counters of a run.
pub struct Tally {
    pub scenario_count: u64,
    pub scenario_skipped_count: u64,
    pub scenario_fail_count: u64,
    pub step_count: u64,
    pub skipped_count: u64,
    pub fail_count: u64,
}

impl Tally {
    /// Skipped and failed steps are among the steps counted, and skipped and
    /// failed scenarios among the scenarios counted.
    pub open spec fn wf(&self) -> bool {
        &&& self.skipped_count + self.fail_count <= self.step_count
        &&& self.scenario_skipped_count + self.scenario_fail_count <= self.scenario_count
    }

    /// The number of steps that passed.
    pub open spec fn passed_spec(&self) -> int {
        self.step_count - self.skipped_count - self.fail_count
    }

    /// All counters at zero.
    pub fn new() -> (r: Tally)
        ensures
            r.wf(),
            r.scenario_count == 0 && r.scenario_skipped_count == 0 && r.scenario_fail_count == 0,
            r.step_count == 0 && r.skipped_count == 0 && r.fail_count == 0,
    {
        Tally {
            scenario_count: 0,
            scenario_skipped_count: 0,
            scenario_fail_count: 0,
            step_count: 0,
            skipped_count: 0,
            fail_count: 0,
        }
    }

    /// Counts one step and the outcome reported for it.
    pub fn record_step(&mut self, result: &TestResult)
        requires
            old(self).wf(),
            old(self).step_count < u64::MAX,
        ensures
            final(self).wf(),
            final(self).step_count == old(self).step_count + 1,
            final(self).skipped_count == old(self).skipped_count + if result is Skipped
                || result is Unimplemented {
                1int
            } else {
                0int
            },
            final(self).fail_count == old(self).fail_count + if result.is_failure() {
                1int
            } else {
                0int
            },
            final(self).scenario_count == old(self).scenario_count,
            final(self).scenario_skipped_count == old(self).scenario_skipped_count,
            final(self).scenario_fail_count == old(self).scenario_fail_count,
    {
        self.step_count = self.step_count + 1;
        match result {
            TestResult::Skipped | TestResult::Unimplemented => {
                self.skipped_count = self.skipped_count + 1;
            },
            TestResult::Fail(_, _) | TestResult::MutexPoisoned => {
                self.fail_count = self.fail_count + 1;
            },
            TestResult::Pass => {},
        }
    }

    /// Counts a finished scenario: failed when a step failed, otherwise
    /// skipped when it stopped early.
    pub fn record_scenario(&mut self, run: &ScenarioRun)
        requires
            old(self).wf(),
            old(self).scenario_count < u64::MAX,
        ensures
            final(self).wf(),
            final(self).scenario_count == old(self).scenario_count + 1,
            final(self).scenario_fail_count == old(self).scenario_fail_count + if run.failed {
                1int
            } else {
                0int
            },
            final(self).scenario_skipped_count == old(self).scenario_skipped_count + if run.skipping
                && !run.failed {
                1int
            } else {
                0int
            },
            final(self).step_count == old(self).step_count,
            final(self).skipped_count == old(self).skipped_count,
            final(self).fail_count == old(self).fail_count,
    {
        self.scenario_count = self.scenario_count + 1;
        if run.failed {
            self.scenario_fail_count = self.scenario_fail_count + 1;
        } else if run.skipping {
            self.scenario_skipped_count = self.scenario_skipped_count + 1;
        }
    }

    /// The number of steps that passed.
    pub fn passed(&self) -> (r: u64)
        requires
            self.wf(),
        ensures
            r == self.passed_spec(),
    {
        self.step_count - self.skipped_count - self.fail_count
    }
}

} // verus!
