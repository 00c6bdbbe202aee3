//! Outcomes of single steps and how an abnormal termination is classified.

use vstd::prelude::*;
use vstd::string::StringExecFns;

verus! {

/// The classified result of running, or not running, one step.
pub enum TestResult {
    /// The shared capture state was left inconsistent by an earlier failure.
    MutexPoisoned,
    /// Not run, because an earlier step of the scenario did not pass.
    Skipped,
    /// No handler matched, or the handler declared itself a stub.
    Unimplemented,
    Pass,
    /// The handler terminated abnormally: the message and where it happened.
    Fail(String, String),
}

impl TestResult {
    /// Whether this outcome counts as a failure in the tallies.
    pub open spec fn is_failure(&self) -> bool {
        self is Fail || self is MutexPoisoned
    }

    pub fn is_pass(&self) -> (r: bool)
        ensures
            r == (self is Pass),
    {
        match self {
            TestResult::Pass => true,
            _ => false,
        }
    }
}

/// What is known of a handler invocation that terminated abnormally.
pub struct Abort {
    /// The termination payload rendered as text (empty when it was not text).
    pub payload: String,
    /// Diagnostic output that the handler produced before terminating.
    pub output: String,
    /// The source location of the termination point, when one was recorded.
    pub location: Option<String>,
}

/// The payload with which a handler declares itself a stub.
pub open spec fn unimplemented_marker() -> Seq<char> {
    "not yet implemented"@
}

/// The message of a failure: the captured output if there was any, otherwise
/// the rendered payload.
pub open spec fn failure_message(output: Seq<char>, payload: Seq<char>) -> Seq<char> {
    if output.len() > 0 {
        output
    } else {
        "Panicked with: "@ + payload
    }
}

/// Where a failure happened, with a placeholder when nothing was recorded.
pub open spec fn failure_origin(location: Option<String>) -> Seq<char> {
    match location {
        Some(l) => l@,
        None => "unknown"@,
    }
}

/// The outcome owed for one capture: `poisoned` tells that the capture state
/// was found corrupted, `abort` what an abnormal termination left behind.
pub open spec fn classify_spec(poisoned: bool, abort: Option<Abort>, r: TestResult) -> bool {
    if poisoned {
        r is MutexPoisoned
    } else {
        match abort {
            None => r is Pass,
            Some(a) => if a.payload@ == unimplemented_marker() {
                r is Unimplemented
            } else {
                match r {
                    TestResult::Fail(m, o) => m@ == failure_message(a.output@, a.payload@)
                        && o@ == failure_origin(a.location),
                    _ => false,
                }
            },
        }
    }
}

/// Turns what was captured around one handler invocation into its outcome.
pub fn classify(poisoned: bool, abort: Option<Abort>) -> (r: TestResult)
    ensures
        classify_spec(poisoned, abort, r),
{
    if poisoned {
        return TestResult::MutexPoisoned;
    }
    match abort {
        None => TestResult::Pass,
        Some(a) => {
            let marker = String::from_str("not yet implemented");
            if a.payload == marker {
                TestResult::Unimplemented
            } else {
                let message = if !a.output.as_str().is_empty() {
                    a.output
                } else {
                    String::from_str("Panicked with: ").concat(a.payload.as_str())
                };
                let origin = match a.location {
                    Some(l) => l,
                    None => String::from_str("unknown"),
                };
                TestResult::Fail(message, origin)
            }
        },
    }
}

} // verus!
