//! Errors of the points calculator.

use vstd::prelude::*;

verus! {

/// Why points could not be calculated.
#[derive(Debug, Clone, Copy, PartialEq, Eq, Structural)]
pub enum CalculatePointsError {
    /// The calculator is not running.
    CalculatorUnavailable,
}

impl CalculatePointsError {
    /// The message of this error.
    pub fn message(&self) -> (r: &'static str)
        ensures
            r@ == (match *self {
                CalculatePointsError::CalculatorUnavailable => "failed to calculate points (calculator unavailable)"@,
            }),
    {
        match self {
            CalculatePointsError::CalculatorUnavailable => "failed to calculate points (calculator unavailable)",
        }
    }
}

} // verus!
