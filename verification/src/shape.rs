//! Shape rules for training and prediction inputs.
//!
//! A dataset is a row-major matrix `X` (samples x features) paired with a
//! column vector `y` (samples x 1). Training demands at least two samples,
//! matching row counts, and a single target column; prediction demands that
//! the input's feature count equal the model's weight count. These rules are
//! checked here, on the dimensions alone, before any numeric work starts.

use vstd::prelude::*;

use crate::error::RegressionError;

verus! {

/// The dimensions of a row-major matrix.
#[derive(Clone, Copy, Debug, PartialEq, Eq, Structural)]
pub struct MatShape {
    pub rows: usize,
    pub cols: usize,
}

/// The shape of the product of two matrices, where defined.
pub open spec fn mul_shape(a: MatShape, b: MatShape) -> MatShape {
    MatShape { rows: a.rows, cols: b.cols }
}

/// Whether the matrix product `a . b` is defined.
pub open spec fn mul_defined(a: MatShape, b: MatShape) -> bool {
    a.cols == b.rows
}

/// The shape of the weight matrix a model holds for `features` input columns:
/// one weight per feature, a single output.
pub open spec fn weights_shape(features: usize) -> MatShape {
    MatShape { rows: features, cols: 1 }
}

/// Whether `x` and `y` form a dataset that training accepts: at least two
/// samples, one target row per sample, a single target column.
pub open spec fn train_inputs_ok(x: MatShape, y: MatShape) -> bool {
    &&& x.rows >= 2
    &&& y.rows == x.rows
    &&& y.cols == 1
}

/// Checks a dataset's dimensions before training.
///
/// Accepts exactly the shapes that `train_inputs_ok` allows. Fewer than two
/// samples is `InsufficientData`; any other disagreement (row counts differ,
/// or the target is not a single column) is `ShapeMismatch`.
pub fn check_train_inputs(x: MatShape, y: MatShape) -> (r: Result<(), RegressionError>)
    ensures
        r is Ok <==> train_inputs_ok(x, y),
        x.rows < 2 ==> r == Err::<(), RegressionError>(RegressionError::InsufficientData),
        x.rows >= 2 && !train_inputs_ok(x, y) ==> r == Err::<(), RegressionError>(
            RegressionError::ShapeMismatch,
        ),
{
    if x.rows < 2 {
        Err(RegressionError::InsufficientData)
    } else if y.rows != x.rows || y.cols != 1 {
        Err(RegressionError::ShapeMismatch)
    } else {
        Ok(())
    }
}

/// Checks a prediction input against the trained weight count.
///
/// Accepts exactly the inputs whose feature count equals the number of
/// weights; everything else is `DimensionMismatch`.
pub fn check_predict_input(x: MatShape, weight_count: usize) -> (r: Result<(), RegressionError>)
    ensures
        r is Ok <==> x.cols == weight_count,
        x.cols != weight_count ==> r == Err::<(), RegressionError>(
            RegressionError::DimensionMismatch,
        ),
{
    if x.cols == weight_count {
        Ok(())
    } else {
        Err(RegressionError::DimensionMismatch)
    }
}

/// The shape of the forward pass `X . w` (the bias broadcast does not change
/// it), or `None` where the product is undefined.
pub fn forward_shape(x: MatShape, w: MatShape) -> (r: Option<MatShape>)
    ensures
        r is Some <==> mul_defined(x, w),
        mul_defined(x, w) ==> r == Some(mul_shape(x, w)),
{
    if x.cols == w.rows {
        Some(MatShape { rows: x.rows, cols: w.cols })
    } else {
        None
    }
}

/// On a dataset that passed `check_train_inputs`, the forward pass through
/// freshly initialised weights is always defined and lands exactly on the
/// target's shape: the mid-training shape test can never fire for such
/// inputs.
pub proof fn lemma_valid_inputs_keep_shapes(x: MatShape, y: MatShape)
    requires
        train_inputs_ok(x, y),
    ensures
        mul_defined(x, weights_shape(x.cols)),
        mul_shape(x, weights_shape(x.cols)) == y,
{
}

} // verus!
