//! Verified core of a linear-regression trainer and evaluator.
//!
//! The numeric optimisation itself runs on floating-point matrices and is
//! carried out by the surrounding application; this library holds everything
//! about it that can be stated and checked exactly: the error taxonomy, the
//! shape rules that training and prediction inputs must satisfy, the epoch
//! schedule that drives the gradient-descent loop, the diagnostic policy,
//! and the menu catalogue with its search filter.

use vstd::prelude::*;

pub mod error;
pub mod menu;
pub mod shape;
pub mod text;
pub mod training;

verus! {

} // verus!
