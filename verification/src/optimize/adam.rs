//! The state of an Adam optimizer for one group of parameters.
//!
//! The optimizer keeps two moment buffers with one row for each point, and
//! counts its steps. The arithmetic of a step is the caller's; what is kept
//! here is what a step leaves behind and how it follows the point set.

use crate::error::{first_of, other_than};
use crate::rows::{extend, filled, full, gathered, in_bounds, select};
use vstd::prelude::*;

verus! {

/// A row of `N` numbers that all equal `value`.
pub open spec fn row_of<T: Copy, const N: usize>(value: T) -> [T; N] {
    [value;N]
}

/// Adam optimizer for rows of `N` numbers.
#[derive(Clone, Debug, PartialEq)]
pub struct Adam<T, S, const N: usize> {
    /// The coefficients of the optimizer.
    pub config: AdamConfig<S>,
    /// The moments and the step count, absent before the first step.
    pub record: Option<AdamState<T, N>>,
}

/// The coefficients of an Adam optimizer.
#[derive(Clone, Copy, Debug, PartialEq)]
pub struct AdamConfig<S> {
    /// The coefficient used for computing running average of gradient.
    pub beta_1: S,
    /// The coefficient used for computing running average of squared gradient.
    pub beta_2: S,
    /// A value added to the denominator to improve numerical stability.
    pub epsilon: S,
    /// L2 penalty.
    pub weight_decay: Option<S>,
}

/// The moments of an Adam optimizer and the number of steps it has taken.
#[derive(Clone, Debug, PartialEq)]
pub struct AdamState<T, const N: usize> {
    /// Running average of the gradient, one row for each point.
    pub moment_1: Vec<[T; N]>,
    /// Running average of the squared gradient, one row for each point.
    pub moment_2: Vec<[T; N]>,
    /// The number of steps taken.
    pub time: i32,
}

impl<S: Copy> AdamConfig<S> {
    /// The coefficients `beta_1`, `beta_2` and `epsilon`, without an L2
    /// penalty.
    pub fn new(beta_1: S, beta_2: S, epsilon: S) -> (config: Self)
        ensures
            config == (AdamConfig { beta_1, beta_2, epsilon, weight_decay: None }),
    {
        AdamConfig { beta_1, beta_2, epsilon, weight_decay: None }
    }

    /// The configuration with `beta_1` in place of its own.
    pub fn with_beta_1(self, beta_1: S) -> (config: Self)
        ensures
            config == (AdamConfig { beta_1, ..self }),
    {
        AdamConfig { beta_1, ..self }
    }

    /// The configuration with `beta_2` in place of its own.
    pub fn with_beta_2(self, beta_2: S) -> (config: Self)
        ensures
            config == (AdamConfig { beta_2, ..self }),
    {
        AdamConfig { beta_2, ..self }
    }

    /// The configuration with `epsilon` in place of its own.
    pub fn with_epsilon(self, epsilon: S) -> (config: Self)
        ensures
            config == (AdamConfig { epsilon, ..self }),
    {
        AdamConfig { epsilon, ..self }
    }

    /// The configuration with `weight_decay` in place of its own.
    pub fn with_weight_decay(self, weight_decay: Option<S>) -> (config: Self)
        ensures
            config == (AdamConfig { weight_decay, ..self }),
    {
        AdamConfig { weight_decay, ..self }
    }

    /// An optimizer that has taken no step yet.
    pub fn init<T: Copy, const N: usize>(self) -> (adam: Adam<T, S, N>)
        ensures
            adam.config == self,
            adam.record is None,
    {
        Adam { config: self, record: None }
    }
}

impl<T: Copy, const N: usize> AdamState<T, N> {
    /// Both moment buffers have one row for each of `point_count` points.
    pub open spec fn wf(&self, point_count: nat) -> bool {
        self.moment_1@.len() == point_count && self.moment_2@.len() == point_count
    }

    /// The state follows from `before` when the rows `args_to_retain` are
    /// kept and `added` rows of `zero` come behind them.
    pub open spec fn is_rebuilt(
        &self,
        before: Self,
        args_to_retain: Seq<usize>,
        added: nat,
        zero: T,
    ) -> bool {
        &&& self.time == before.time
        &&& self.moment_1@ == gathered(before.moment_1@, args_to_retain) + filled(
            added,
            row_of::<T, N>(zero),
        )
        &&& self.moment_2@ == gathered(before.moment_2@, args_to_retain) + filled(
            added,
            row_of::<T, N>(zero),
        )
    }

    /// The number of rows of the first moment buffer that has another
    /// number of rows than `point_count`, if there is one.
    pub open spec fn spec_mismatch(&self, point_count: nat) -> Option<nat> {
        first_of(
            other_than(self.moment_1@.len(), point_count),
            other_than(self.moment_2@.len(), point_count),
        )
    }

    /// Whether both moment buffers have `point_count` rows.
    pub fn is_wf(&self, point_count: usize) -> (r: bool)
        ensures
            r == self.wf(point_count as nat),
    {
        self.moment_1.len() == point_count && self.moment_2.len() == point_count
    }

    /// The number of rows of the first moment buffer that has another
    /// number of rows than `point_count`, if there is one.
    pub fn mismatch(&self, point_count: usize) -> (found: Option<usize>)
        ensures
            found is None <==> self.wf(point_count as nat),
            match found {
                Some(n) => self.spec_mismatch(point_count as nat) == Some(n as nat),
                None => self.spec_mismatch(point_count as nat) is None,
            },
    {
        if self.moment_1.len() != point_count {
            Some(self.moment_1.len())
        } else if self.moment_2.len() != point_count {
            Some(self.moment_2.len())
        } else {
            None
        }
    }
}

impl<T: Copy, S: Copy, const N: usize> Adam<T, S, N> {
    /// The moment buffers, where there are any, have one row for each of
    /// `point_count` points.
    pub open spec fn wf(&self, point_count: nat) -> bool {
        self.record is Some ==> self.record->0.wf(point_count)
    }

    /// The number of steps taken: zero before the first.
    pub open spec fn spec_time(&self) -> int {
        match self.record {
            Some(state) => state.time as int,
            None => 0,
        }
    }

    /// The optimizer follows from `before` when the point set is rebuilt:
    /// the rows `args_to_retain` of each moment buffer are kept, `added` rows
    /// of `zero` come behind them, and the step count stays. An optimizer
    /// that has taken no step stays as it is.
    pub open spec fn is_rebuilt(
        &self,
        before: Self,
        args_to_retain: Seq<usize>,
        added: nat,
        zero: T,
    ) -> bool {
        &&& self.config == before.config
        &&& match before.record {
            Some(state) => self.record is Some && self.record->0.is_rebuilt(
                state,
                args_to_retain,
                added,
                zero,
            ),
            None => self.record is None,
        }
    }

    /// Whether the moment buffers, where there are any, have `point_count`
    /// rows.
    pub fn is_wf(&self, point_count: usize) -> (r: bool)
        ensures
            r == self.wf(point_count as nat),
    {
        match &self.record {
            Some(state) => state.is_wf(point_count),
            None => true,
        }
    }

    /// The number of steps taken: zero before the first.
    pub fn time(&self) -> (time: i32)
        ensures
            time == self.spec_time(),
    {
        match &self.record {
            Some(state) => state.time,
            None => 0,
        }
    }

    /// Records one step: the moments that the step has computed replace the
    /// stored ones, and the step is counted.
    pub fn update(&mut self, moment_1: Vec<[T; N]>, moment_2: Vec<[T; N]>)
        requires
            old(self).spec_time() < i32::MAX,
            moment_1@.len() == moment_2@.len(),
            old(self).wf(moment_1@.len()),
        ensures
            final(self).config == old(self).config,
            final(self).record == Some(
                AdamState { moment_1, moment_2, time: (old(self).spec_time() + 1) as i32 },
            ),
            final(self).wf(moment_1@.len()),
    {
        let mut time: i32 = 1;
        if let Some(record) = &self.record {
            time += record.time;
        }
        self.record = Some(AdamState { moment_1, moment_2, time });
    }

    /// Follows a rebuild of the point set: of each moment buffer the rows
    /// `args_to_retain` are kept, and `added` rows of `zero` come behind
    /// them. The step count stays.
    pub fn rebuild(&mut self, args_to_retain: &Vec<usize>, added: usize, zero: T)
        requires
            old(self).record is Some ==> {
                &&& in_bounds(args_to_retain@, old(self).record->0.moment_1@.len())
                &&& in_bounds(args_to_retain@, old(self).record->0.moment_2@.len())
            },
        ensures
            final(self).is_rebuilt(*old(self), args_to_retain@, added as nat, zero),
            final(self).wf((args_to_retain@.len() + added) as nat),
    {
        if let Some(record) = &mut self.record {
            let row: [T; N] = [zero;N];
            let zeros = full(added, row);
            let mut moment_1 = select(&record.moment_1, args_to_retain);
            extend(&mut moment_1, &zeros);
            let mut moment_2 = select(&record.moment_2, args_to_retain);
            extend(&mut moment_2, &zeros);
            record.moment_1 = moment_1;
            record.moment_2 = moment_2;
        }
    }

    /// Load the record of the optimizer.
    pub fn load_record(&mut self, record: Option<AdamState<T, N>>)
        ensures
            final(self).config == old(self).config,
            final(self).record == record,
    {
        self.record = record;
    }

    /// Unload the record of the optimizer.
    pub fn into_record(self) -> (record: Option<AdamState<T, N>>)
        ensures
            record == self.record,
    {
        self.record
    }
}

} // verus!
