//! Errors of the trainer.

use crate::range::RangeOptions;
use vstd::prelude::*;

verus! {

/// Error variants.
#[derive(Clone, Debug, PartialEq, Eq)]
pub enum Error {
    /// A colour degree above the highest that the renderer supports:
    /// the degree that was given, then the highest supported one.
    InvalidColorsShDegree(u32, u32),
    /// A range that ends before it starts, or a range with points in it and
    /// no stride to walk them.
    InvalidRange(RangeOptions),
    /// An array whose shape is not the expected one: the shape that was
    /// found, then the shape that it should have.
    MismatchedTensorShape(Vec<usize>, Vec<usize>),
}

/// `found`, if it is not `expected`.
pub open spec fn other_than(found: nat, expected: nat) -> Option<nat> {
    if found != expected {
        Some(found)
    } else {
        None
    }
}

/// The first of the two that is there.
pub open spec fn first_of(a: Option<nat>, b: Option<nat>) -> Option<nat> {
    if a is Some {
        a
    } else {
        b
    }
}

impl Error {
    /// The error says that an array of `found` rows was met where one of
    /// `expected` rows was due.
    pub open spec fn is_row_mismatch(self, found: nat, expected: nat) -> bool {
        match self {
            Error::MismatchedTensorShape(f, e) => f@ == seq![found as usize] && e@ == seq![
                expected as usize,
            ],
            _ => false,
        }
    }

    /// The error for an array of `found` rows where `expected` rows were due.
    pub fn row_mismatch(found: usize, expected: usize) -> (e: Error)
        ensures
            e.is_row_mismatch(found as nat, expected as nat),
    {
        let mut f: Vec<usize> = Vec::new();
        f.push(found);
        let mut x: Vec<usize> = Vec::new();
        x.push(expected);
        Error::MismatchedTensorShape(f, x)
    }
}

} // verus!
