//! Classification of one target execution.

use vstd::prelude::*;

verus! {

/// What one execution of the target did. Exactly one tag per execution.
#[derive(Clone, Copy, PartialEq, Eq, Structural, Debug)]
pub enum Outcome {
    /// The target returned without fault and within the time budget.
    Normal,
    /// The target hit a fault (signal, abort); its memory may be corrupt.
    Crashed,
    /// The target exceeded the hard wall-clock budget and was terminated.
    TimedOut,
}

/// An execution is an objective hit when it crashed or hung.
pub open spec fn spec_is_objective(o: Outcome) -> bool {
    o == Outcome::Crashed || o == Outcome::TimedOut
}

/// Objective feedback: a short-circuiting OR over the fault conditions.
pub fn is_objective(o: Outcome) -> (r: bool)
    ensures
        r == spec_is_objective(o),
{
    match o {
        Outcome::Crashed => true,
        Outcome::TimedOut => true,
        Outcome::Normal => false,
    }
}

} // verus!
