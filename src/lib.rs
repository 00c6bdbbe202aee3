//! Execution core of a behaviour-driven test runner: step registration and
//! resolution, outcome classification, skip propagation and run tallies.

use vstd::prelude::*;

pub mod feature;
pub mod laws;
pub mod outcome;
pub mod runner;
pub mod pattern;
pub mod steps;

verus! {

/// The per-scenario state that step handlers mutate. A fresh value is built
/// with `Default` at the start of every scenario.
pub trait World: Default {}

} // verus!
