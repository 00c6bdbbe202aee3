//! The read-only tree of parsed features that a run walks.

use vstd::prelude::*;

verus! {

/// The kind of a step.
#[derive(Clone, Copy, Debug, PartialEq, Eq, Structural)]
pub enum StepKind {
    Given,
    When,
    Then,
}

/// One Given/When/Then line of a scenario.
pub struct Step {
    pub ty: StepKind,
    /// The literal text after the keyword.
    pub value: String,
    /// An attached multi-line text argument.
    pub docstring: Option<String>,
    /// Line and column in the feature source.
    pub position: (usize, usize),
}

/// Steps that run before each scenario of a feature.
pub struct Background {
    pub steps: Vec<Step>,
    pub position: (usize, usize),
}

/// A named, ordered list of steps run against one fresh world.
pub struct Scenario {
    pub name: String,
    pub steps: Vec<Step>,
    pub position: (usize, usize),
}

/// A named group of scenarios, optionally sharing a background.
pub struct Feature {
    pub name: String,
    pub background: Option<Background>,
    pub scenarios: Vec<Scenario>,
    pub position: (usize, usize),
}

/// The background steps of a feature, empty when it declares none.
pub open spec fn background_steps(feature: &Feature) -> Seq<Step> {
    match feature.background {
        Some(bg) => bg.steps@,
        None => Seq::empty(),
    }
}

/// The steps that one scenario runs, in order: the feature's background steps,
/// then the scenario's own.
pub fn scenario_steps<'a>(feature: &'a Feature, scenario: &'a Scenario) -> (r: Vec<&'a Step>)
    ensures
        r@.len() == background_steps(feature).len() + scenario.steps@.len(),
        forall|i: int|
            0 <= i < background_steps(feature).len() ==> *r@[i] == background_steps(feature)[i],
        forall|i: int|
            0 <= i < scenario.steps@.len() ==> *r@[background_steps(feature).len() + i]
                == scenario.steps@[i],
{
    let mut steps: Vec<&'a Step> = Vec::new();
    match &feature.background {
        Some(bg) => {
            let mut i: usize = 0;
            while i < bg.steps.len()
                invariant
                    i <= bg.steps@.len(),
                    bg.steps@ == background_steps(feature),
                    steps@.len() == i,
                    forall|j: int| 0 <= j < i ==> *steps@[j] == bg.steps@[j],
                decreases bg.steps@.len() - i,
            {
                steps.push(&bg.steps[i]);
                i = i + 1;
            }
        },
        None => {},
    }
    let n = steps.len();
    let mut i: usize = 0;
    while i < scenario.steps.len()
        invariant
            i <= scenario.steps@.len(),
            n == background_steps(feature).len(),
            steps@.len() == n + i,
            forall|j: int|
                0 <= j < background_steps(feature).len() ==> *steps@[j]
                    == background_steps(feature)[j],
            forall|j: int| 0 <= j < i ==> *steps@[n + j] == scenario.steps@[j],
        decreases scenario.steps@.len() - i,
    {
        steps.push(&scenario.steps[i]);
        i = i + 1;
    }
    steps
}

} // verus!
