//! The metrics that a loss is made of.
//!
//! A metric has no state of its own here: the values are kept to say which
//! metric a loss uses.

use vstd::prelude::*;

verus! {

/// The mean absolute error between two images: `mean(abs(value - target))`.
#[derive(Clone, Copy, Debug, Default, PartialEq, Eq, Structural)]
pub struct MeanAbsoluteError;

/// The mean square error between two images: `mean((value - target) ^ 2)`.
#[derive(Clone, Copy, Debug, Default, PartialEq, Eq, Structural)]
pub struct MeanSquareError;

impl MeanAbsoluteError {
    /// Initialize the metric.
    pub fn init() -> (metric: Self)
        ensures
            metric == MeanAbsoluteError,
    {
        MeanAbsoluteError
    }
}

impl MeanSquareError {
    /// Initialize the metric.
    pub fn init() -> (metric: Self)
        ensures
            metric == MeanSquareError,
    {
        MeanSquareError
    }
}

} // verus!
