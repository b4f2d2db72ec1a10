//! Iteration ranges with a stride.

use vstd::prelude::*;

verus! {

/// A half-open range of iterations `start..end`, of which every `step`-th
/// is selected, beginning with `start`.
#[derive(Clone, Copy, Debug, PartialEq, Eq, Structural)]
pub struct RangeOptions {
    /// The start of the range.
    pub start: u64,
    /// The end of the range.
    pub end: u64,
    /// The step of the range.
    pub step: u64,
}

impl RangeOptions {
    /// Whether `iteration` is one of the iterations that the range selects.
    pub open spec fn selects(self, iteration: int) -> bool {
        &&& self.start <= iteration < self.end
        &&& (iteration - self.start) % (self.step as int) == 0
    }

    /// The range does not end before it starts, and it has a stride unless
    /// it is empty.
    pub open spec fn is_valid(self) -> bool {
        if self.step == 0 {
            self.end <= self.start
        } else {
            self.start <= self.end
        }
    }

    /// A range from `start` to `end` that selects every `step`-th iteration.
    pub fn new(start: u64, end: u64, step: u64) -> (range: Self)
        ensures
            range == (RangeOptions { start, end, step }),
    {
        RangeOptions { start, end, step }
    }

    /// Create a new range with the specified step.
    pub fn default_with_step(step: u64) -> (range: Self)
        ensures
            range == (RangeOptions { start: 0, end: u64::MAX, step }),
    {
        RangeOptions { start: 0, end: u64::MAX, step }
    }

    /// Check if the iteration is contained in the range.
    pub fn has(&self, iteration: u64) -> (found: bool)
        requires
            self.step != 0 || iteration < self.start || iteration >= self.end,
        ensures
            found == self.selects(iteration as int),
    {
        iteration >= self.start && iteration < self.end && (iteration - self.start) % self.step
            == 0
    }

    /// Whether the range can be asked about every iteration.
    pub fn check(&self) -> (valid: bool)
        ensures
            valid == self.is_valid(),
    {
        if self.step == 0 {
            self.end <= self.start
        } else {
            self.start <= self.end
        }
    }
}

impl Default for RangeOptions {
    /// The range of all iterations.
    fn default() -> (range: Self)
        ensures
            range == (RangeOptions { start: 0, end: u64::MAX, step: 1 }),
    {
        RangeOptions { start: 0, end: u64::MAX, step: 1 }
    }
}

/// A valid range can be asked about every iteration, and selects only
/// iterations that lie in it.
pub proof fn lemma_valid_range_selects(range: RangeOptions, iteration: u64)
    requires
        range.is_valid(),
    ensures
        range.step != 0 || iteration < range.start || iteration >= range.end,
        range.selects(iteration as int) ==> range.start <= iteration < range.end,
{
}

} // verus!
