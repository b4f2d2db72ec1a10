//! The record of a trainer: what a checkpoint keeps of it.

use super::refine::{seeded, Refiner, RefinerState};
use super::Gaussian3dTrainer;
use crate::error::{first_of, Error};
use crate::optimize::adam::{Adam, AdamState};
use crate::optimize::learning_rate::{LearningRate, LearningRateRecord};
use crate::render::{Gaussian3dRenderOptions, SH_DEGREE_MAX};
use vstd::prelude::*;

verus! {

/// Trainer record for 3DGS.
#[derive(Clone, Debug, PartialEq)]
pub struct Gaussian3dTrainerRecord<T, S> {
    /// Iteration.
    pub iteration: u64,
    /// Learning rate for colors SH.
    pub learning_rate_colors_sh: LearningRateRecord<S>,
    /// Learning rate for opacities.
    pub learning_rate_opacities: LearningRateRecord<S>,
    /// Learning rate for positions.
    pub learning_rate_positions: LearningRateRecord<S>,
    /// Learning rate for rotations.
    pub learning_rate_rotations: LearningRateRecord<S>,
    /// Learning rate for scalings.
    pub learning_rate_scalings: LearningRateRecord<S>,
    /// Optimizer for colors SH.
    pub optimizer_colors_sh: Option<AdamState<T, 48>>,
    /// Optimizer for opacities.
    pub optimizer_opacities: Option<AdamState<T, 1>>,
    /// Optimizer for positions.
    pub optimizer_positions: Option<AdamState<T, 3>>,
    /// Optimizer for rotations.
    pub optimizer_rotations: Option<AdamState<T, 4>>,
    /// Optimizer for scalings.
    pub optimizer_scalings: Option<AdamState<T, 3>>,
    /// Renderer options.
    pub options_renderer: Gaussian3dRenderOptions,
    /// Refiner.
    pub refiner: Option<RefinerState<T>>,
}

/// The number of rows of the first moment buffer of `record` that has
/// another number of rows than `point_count`, if there is one.
pub open spec fn optimizer_mismatch<T: Copy, const N: usize>(
    record: Option<AdamState<T, N>>,
    point_count: nat,
) -> Option<nat> {
    match record {
        Some(state) => state.spec_mismatch(point_count),
        None => None,
    }
}

/// The number of rows of the first moment buffer of `record` that has
/// another number of rows than `point_count`, if there is one.
fn find_optimizer_mismatch<T: Copy, const N: usize>(
    record: &Option<AdamState<T, N>>,
    point_count: usize,
) -> (found: Option<usize>)
    ensures
        found is None <==> (record matches Some(state) ==> state.wf(point_count as nat)),
        match found {
            Some(n) => optimizer_mismatch(*record, point_count as nat) == Some(n as nat),
            None => optimizer_mismatch(*record, point_count as nat) is None,
        },
{
    match record {
        Some(state) => state.mismatch(point_count),
        None => None,
    }
}

impl<T: Copy, S: Copy> Gaussian3dTrainerRecord<T, S> {
    /// The colour degree is one that the renderer supports.
    pub open spec fn is_valid(&self) -> bool {
        self.options_renderer.is_valid()
    }

    /// Every array of the record has one row for each of `point_count`
    /// points.
    pub open spec fn fits(&self, point_count: nat) -> bool {
        &&& self.optimizer_colors_sh matches Some(state) ==> state.wf(point_count)
        &&& self.optimizer_opacities matches Some(state) ==> state.wf(point_count)
        &&& self.optimizer_positions matches Some(state) ==> state.wf(point_count)
        &&& self.optimizer_rotations matches Some(state) ==> state.wf(point_count)
        &&& self.optimizer_scalings matches Some(state) ==> state.wf(point_count)
        &&& self.refiner matches Some(state) ==> state.wf(point_count)
    }

    /// The number of rows of the first array of the record that has another
    /// number of rows than `point_count`, if there is one. The optimizers
    /// come first, in the order of the groups, and the refiner last.
    pub open spec fn spec_mismatch(&self, point_count: nat) -> Option<nat> {
        first_of(
            optimizer_mismatch(self.optimizer_colors_sh, point_count),
            first_of(
                optimizer_mismatch(self.optimizer_opacities, point_count),
                first_of(
                    optimizer_mismatch(self.optimizer_positions, point_count),
                    first_of(
                        optimizer_mismatch(self.optimizer_rotations, point_count),
                        first_of(
                            optimizer_mismatch(self.optimizer_scalings, point_count),
                            match self.refiner {
                                Some(state) => state.spec_mismatch(point_count),
                                None => None,
                            },
                        ),
                    ),
                ),
            ),
        )
    }

    /// Every count of the record is at least one.
    pub open spec fn is_seeded(&self) -> bool {
        self.refiner matches Some(state) ==> state.is_seeded()
    }

    /// `error` is what refuses the record for a scene of `point_count`
    /// points: the colour degree if it is not supported, else the first
    /// array with another number of rows.
    pub open spec fn is_refused_by(&self, error: Error, point_count: nat) -> bool {
        if !self.is_valid() {
            error == Error::InvalidColorsShDegree(
                self.options_renderer.colors_sh_degree_max,
                SH_DEGREE_MAX,
            )
        } else {
            self.spec_mismatch(point_count) matches Some(found) && error.is_row_mismatch(
                found,
                point_count,
            )
        }
    }

    /// The number of rows of the first array of the record that has another
    /// number of rows than `point_count`, if there is one.
    pub fn mismatch(&self, point_count: usize) -> (found: Option<usize>)
        ensures
            found is None <==> self.fits(point_count as nat),
            match found {
                Some(n) => self.spec_mismatch(point_count as nat) == Some(n as nat),
                None => self.spec_mismatch(point_count as nat) is None,
            },
    {
        let found = find_optimizer_mismatch(&self.optimizer_colors_sh, point_count);
        if found.is_some() {
            return found;
        }
        let found = find_optimizer_mismatch(&self.optimizer_opacities, point_count);
        if found.is_some() {
            return found;
        }
        let found = find_optimizer_mismatch(&self.optimizer_positions, point_count);
        if found.is_some() {
            return found;
        }
        let found = find_optimizer_mismatch(&self.optimizer_rotations, point_count);
        if found.is_some() {
            return found;
        }
        let found = find_optimizer_mismatch(&self.optimizer_scalings, point_count);
        if found.is_some() {
            return found;
        }
        match &self.refiner {
            Some(state) => state.mismatch(point_count),
            None => None,
        }
    }

    /// Checks the record against a scene of `point_count` points.
    pub fn check(&self, point_count: usize) -> (checked: Result<(), Error>)
        ensures
            checked is Ok <==> self.is_valid() && self.fits(point_count as nat),
            checked matches Err(e) ==> self.is_refused_by(e, point_count as nat),
    {
        if self.options_renderer.colors_sh_degree_max > SH_DEGREE_MAX {
            return Err(
                Error::InvalidColorsShDegree(
                    self.options_renderer.colors_sh_degree_max,
                    SH_DEGREE_MAX,
                ),
            );
        }
        match self.mismatch(point_count) {
            Some(found) => Err(Error::row_mismatch(found, point_count)),
            None => Ok(()),
        }
    }
}

impl<T: Copy, S: Copy> Gaussian3dTrainer<T, S> {
    /// The record of the trainer: all of it that training changes.
    pub open spec fn spec_record(self) -> Gaussian3dTrainerRecord<T, S> {
        Gaussian3dTrainerRecord {
            iteration: self.iteration,
            learning_rate_colors_sh: self.learning_rate_colors_sh.record,
            learning_rate_opacities: self.learning_rate_opacities.record,
            learning_rate_positions: self.learning_rate_positions.record,
            learning_rate_rotations: self.learning_rate_rotations.record,
            learning_rate_scalings: self.learning_rate_scalings.record,
            optimizer_colors_sh: self.optimizer_colors_sh.record,
            optimizer_opacities: self.optimizer_opacities.record,
            optimizer_positions: self.optimizer_positions.record,
            optimizer_rotations: self.optimizer_rotations.record,
            optimizer_scalings: self.optimizer_scalings.record,
            options_renderer: self.options_renderer,
            refiner: self.refiner.record,
        }
    }

    /// The trainer with `record` in place of its own record, and with what
    /// training does not change left as it is.
    pub open spec fn with_record(self, record: Gaussian3dTrainerRecord<T, S>) -> Self {
        Gaussian3dTrainer {
            iteration: record.iteration,
            learning_rate_colors_sh: LearningRate {
                record: record.learning_rate_colors_sh,
                ..self.learning_rate_colors_sh
            },
            learning_rate_opacities: LearningRate {
                record: record.learning_rate_opacities,
                ..self.learning_rate_opacities
            },
            learning_rate_positions: LearningRate {
                record: record.learning_rate_positions,
                ..self.learning_rate_positions
            },
            learning_rate_rotations: LearningRate {
                record: record.learning_rate_rotations,
                ..self.learning_rate_rotations
            },
            learning_rate_scalings: LearningRate {
                record: record.learning_rate_scalings,
                ..self.learning_rate_scalings
            },
            optimizer_colors_sh: Adam {
                record: record.optimizer_colors_sh,
                ..self.optimizer_colors_sh
            },
            optimizer_opacities: Adam {
                record: record.optimizer_opacities,
                ..self.optimizer_opacities
            },
            optimizer_positions: Adam {
                record: record.optimizer_positions,
                ..self.optimizer_positions
            },
            optimizer_rotations: Adam {
                record: record.optimizer_rotations,
                ..self.optimizer_rotations
            },
            optimizer_scalings: Adam {
                record: record.optimizer_scalings,
                ..self.optimizer_scalings
            },
            options_renderer: record.options_renderer,
            range_metric_optimization_fine: self.range_metric_optimization_fine,
            refiner: Refiner { record: record.refiner, ..self.refiner },
        }
    }

    /// The trainer is `before` with `record` loaded: all of the record is
    /// in place of what `before` had, with every count of zero raised to
    /// one.
    pub open spec fn is_loaded(self, before: Self, record: Gaussian3dTrainerRecord<T, S>) -> bool {
        &&& self == (Gaussian3dTrainer {
            refiner: self.refiner,
            ..before.with_record(record)
        })
        &&& self.refiner.config == before.refiner.config
        &&& match record.refiner {
            Some(state) => {
                &&& self.refiner.record matches Some(loaded)
                &&& loaded.positions_2d_grad_norm_sum == state.positions_2d_grad_norm_sum
                &&& loaded.time@ == seeded(state.time@)
            },
            None => self.refiner.record is None,
        }
    }

    /// Load the record, for a scene of `point_count` points.
    ///
    /// A record with a colour degree that the renderer does not support, or
    /// with an array that has not one row for each point, is refused, and the
    /// trainer stays as it is. A count of zero in the record is raised to
    /// one.
    pub fn load_record(&mut self, record: Gaussian3dTrainerRecord<T, S>, point_count: usize) -> (loaded:
        Result<(), Error>)
        ensures
            loaded is Ok <==> record.is_valid() && record.fits(point_count as nat),
            loaded is Ok ==> final(self).is_loaded(*old(self), record),
            loaded is Ok && record.is_seeded() ==> *final(self) == old(self).with_record(record),
            loaded matches Err(e) ==> *final(self) == *old(self) && record.is_refused_by(
                e,
                point_count as nat,
            ),
            old(self).wf() ==> final(self).wf(),
            loaded is Ok ==> final(self).fits(point_count as nat),
    {
        match record.check(point_count) {
            Err(e) => {
                return Err(e);
            },
            Ok(_) => {},
        }
        let mut refiner = record.refiner;
        match &mut refiner {
            Some(state) => {
                state.seed();
            },
            None => {},
        }
        self.iteration = record.iteration;
        self.learning_rate_colors_sh.load_record(record.learning_rate_colors_sh);
        self.learning_rate_opacities.load_record(record.learning_rate_opacities);
        self.learning_rate_positions.load_record(record.learning_rate_positions);
        self.learning_rate_rotations.load_record(record.learning_rate_rotations);
        self.learning_rate_scalings.load_record(record.learning_rate_scalings);
        self.optimizer_colors_sh.load_record(record.optimizer_colors_sh);
        self.optimizer_opacities.load_record(record.optimizer_opacities);
        self.optimizer_positions.load_record(record.optimizer_positions);
        self.optimizer_rotations.load_record(record.optimizer_rotations);
        self.optimizer_scalings.load_record(record.optimizer_scalings);
        self.options_renderer = record.options_renderer;
        self.refiner.load_record(refiner);
        Ok(())
    }

    /// Unload the record.
    pub fn into_record(self) -> (record: Gaussian3dTrainerRecord<T, S>)
        ensures
            record == self.spec_record(),
    {
        Gaussian3dTrainerRecord {
            iteration: self.iteration,
            learning_rate_colors_sh: self.learning_rate_colors_sh.into_record(),
            learning_rate_opacities: self.learning_rate_opacities.into_record(),
            learning_rate_positions: self.learning_rate_positions.into_record(),
            learning_rate_rotations: self.learning_rate_rotations.into_record(),
            learning_rate_scalings: self.learning_rate_scalings.into_record(),
            optimizer_colors_sh: self.optimizer_colors_sh.into_record(),
            optimizer_opacities: self.optimizer_opacities.into_record(),
            optimizer_positions: self.optimizer_positions.into_record(),
            optimizer_rotations: self.optimizer_rotations.into_record(),
            optimizer_scalings: self.optimizer_scalings.into_record(),
            options_renderer: self.options_renderer,
            refiner: self.refiner.into_record(),
        }
    }
}

/// Loading the record of a trainer gives the trainer back, and a trainer
/// that loads the record of another has the record of the other. The
/// record of a trainer that is well formed and fits a scene is never
/// refused for a scene of as many points, and no count of it is changed.
pub proof fn lemma_record_round_trip<T: Copy, S: Copy>(
    trainer: Gaussian3dTrainer<T, S>,
    other: Gaussian3dTrainer<T, S>,
    point_count: nat,
)
    ensures
        trainer.with_record(trainer.spec_record()) == trainer,
        other.with_record(trainer.spec_record()).spec_record() == trainer.spec_record(),
        trainer.wf() ==> trainer.spec_record().is_valid(),
        trainer.fits(point_count) ==> trainer.spec_record().fits(point_count)
            && trainer.spec_record().is_seeded(),
{
}

} // verus!
