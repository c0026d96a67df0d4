//! Error taxonomy of the regression core.
//!
//! Every failure the core can signal is recoverable: it is returned to the
//! caller, which decides whether to warn, skip or retry.

use vstd::prelude::*;

verus! {

/// The failures the regression core can signal.
#[derive(Clone, Copy, Debug, PartialEq, Eq, Structural)]
pub enum RegressionError {
    /// Fewer than two samples were supplied; a line cannot be fit
    /// through fewer than two points.
    InsufficientData,
    /// An intermediate shape disagreed mid-training; the epoch loop
    /// halts where this is detected.
    ShapeMismatch,
    /// A prediction input's feature count disagrees with the trained
    /// weight count.
    DimensionMismatch,
    /// Caller-supplied text failed to parse as a number.
    ParseFailure,
}

impl RegressionError {
    /// A short, stable description of the failure.
    pub fn describe(&self) -> (r: &'static str)
        ensures
            r@.len() > 0,
            self is InsufficientData ==> r@ == "need at least 2 data points"@,
            self is ShapeMismatch ==> r@ == "intermediate shapes disagree"@,
            self is DimensionMismatch ==> r@ == "feature count differs from weight count"@,
            self is ParseFailure ==> r@ == "input is not a number"@,
    {
        proof {
            reveal_strlit("need at least 2 data points");
            reveal_strlit("intermediate shapes disagree");
            reveal_strlit("feature count differs from weight count");
            reveal_strlit("input is not a number");
        }
        match self {
            RegressionError::InsufficientData => "need at least 2 data points",
            RegressionError::ShapeMismatch => "intermediate shapes disagree",
            RegressionError::DimensionMismatch => "feature count differs from weight count",
            RegressionError::ParseFailure => "input is not a number",
        }
    }
}

} // verus!
