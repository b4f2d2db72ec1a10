//! The learning rate of one group of parameters.

use vstd::prelude::*;

verus! {

/// A learning rate that can be a constant or exponentially decayed.
#[derive(Clone, Copy, Debug, PartialEq)]
pub struct LearningRate<S> {
    /// The decay factor.
    pub decay: S,
    /// The final value of the learning rate.
    pub end: S,
    /// The record of the learning rate.
    pub record: LearningRateRecord<S>,
}

/// The record of the learning rate.
#[derive(Clone, Copy, Debug, PartialEq)]
pub struct LearningRateRecord<S> {
    /// The current value of the learning rate.
    pub current: S,
}

impl<S: Copy> LearningRate<S> {
    /// A learning rate that starts at `start`.
    pub fn new(start: S, decay: S, end: S) -> (rate: Self)
        ensures
            rate == (LearningRate { decay, end, record: LearningRateRecord { current: start } }),
    {
        LearningRate { decay, end, record: LearningRateRecord { current: start } }
    }

    /// The current value of the learning rate.
    pub fn current(&self) -> (current: S)
        ensures
            current == self.record.current,
    {
        self.record.current
    }

    /// Update the learning rate to the value that its schedule has reached.
    pub fn update(&mut self, current: S)
        ensures
            *final(self) == (LearningRate {
                record: LearningRateRecord { current },
                ..*old(self)
            }),
    {
        self.record.current = current;
    }

    /// Load the record of the learning rate.
    pub fn load_record(&mut self, record: LearningRateRecord<S>)
        ensures
            *final(self) == (LearningRate { record, ..*old(self) }),
    {
        self.record = record;
    }

    /// The record of the learning rate.
    pub fn to_record(&self) -> (record: LearningRateRecord<S>)
        ensures
            record == self.record,
    {
        self.record
    }

    /// Unload the record of the learning rate.
    pub fn into_record(self) -> (record: LearningRateRecord<S>)
        ensures
            record == self.record,
    {
        self.record
    }
}

} // verus!
