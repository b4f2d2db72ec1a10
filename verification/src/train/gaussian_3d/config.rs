//! 3DGS trainer configuration.

use super::refine::{Refiner, RefinerConfig};
use super::Gaussian3dTrainer;
use crate::error::Error;
use crate::optimize::adam::{Adam, AdamConfig};
use crate::optimize::learning_rate::LearningRate;
use crate::range::RangeOptions;
use crate::render::{Gaussian3dRenderOptions, SH_DEGREE_MAX};
use vstd::prelude::*;

verus! {

/// 3DGS trainer configuration.
#[derive(Clone, Copy, Debug, PartialEq)]
pub struct Gaussian3dTrainerConfig<S> {
    /// Learning rate for colors SH.
    pub learning_rate_colors_sh: LearningRate<S>,
    /// Learning rate for opacities.
    pub learning_rate_opacities: LearningRate<S>,
    /// Learning rate for positions.
    pub learning_rate_positions: LearningRate<S>,
    /// Learning rate for rotations.
    pub learning_rate_rotations: LearningRate<S>,
    /// Learning rate for scalings.
    pub learning_rate_scalings: LearningRate<S>,
    /// Adam optimizer configuration.
    pub optimizer_adam: AdamConfig<S>,
    /// Renderer options.
    pub options_renderer: Gaussian3dRenderOptions,
    /// Range for metric optimization (fine).
    pub range_metric_optimization_fine: RangeOptions,
    /// Refiner configuration.
    pub refiner: RefinerConfig<S>,
}

impl<S: Copy> Gaussian3dTrainerConfig<S> {
    /// The colour degree is one that the renderer supports, and every range
    /// can be asked about every iteration.
    pub open spec fn is_valid(&self) -> bool {
        &&& self.options_renderer.is_valid()
        &&& self.range_metric_optimization_fine.is_valid()
        &&& self.refiner.is_valid()
    }

    /// What refuses the configuration: the colour degree before the ranges,
    /// and of the ranges the one of the fine metric, then the one of
    /// densification, then the one of the colour degree.
    pub open spec fn spec_error(&self) -> Error {
        if !self.options_renderer.is_valid() {
            Error::InvalidColorsShDegree(self.options_renderer.colors_sh_degree_max, SH_DEGREE_MAX)
        } else if !self.range_metric_optimization_fine.is_valid() {
            Error::InvalidRange(self.range_metric_optimization_fine)
        } else if !self.refiner.range_densification.is_valid() {
            Error::InvalidRange(self.refiner.range_densification)
        } else {
            Error::InvalidRange(self.refiner.range_increasing_colors_sh_degree_max)
        }
    }

    /// The trainer at the start of training.
    pub open spec fn spec_init<T: Copy>(&self) -> Gaussian3dTrainer<T, S> {
        Gaussian3dTrainer {
            iteration: 0,
            learning_rate_colors_sh: self.learning_rate_colors_sh,
            learning_rate_opacities: self.learning_rate_opacities,
            learning_rate_positions: self.learning_rate_positions,
            learning_rate_rotations: self.learning_rate_rotations,
            learning_rate_scalings: self.learning_rate_scalings,
            optimizer_colors_sh: Adam {
                config: self.optimizer_adam,
                record: None,
            },
            optimizer_opacities: Adam {
                config: self.optimizer_adam,
                record: None,
            },
            optimizer_positions: Adam {
                config: self.optimizer_adam,
                record: None,
            },
            optimizer_rotations: Adam {
                config: self.optimizer_adam,
                record: None,
            },
            optimizer_scalings: Adam {
                config: self.optimizer_adam,
                record: None,
            },
            options_renderer: self.options_renderer,
            range_metric_optimization_fine: self.range_metric_optimization_fine,
            refiner: Refiner { config: self.refiner, record: None },
        }
    }

    /// Initialize the trainer.
    ///
    /// A colour degree that the renderer does not support and a range that
    /// is not valid are refused.
    pub fn init<T: Copy>(&self) -> (made: Result<Gaussian3dTrainer<T, S>, Error>)
        ensures
            made is Ok <==> self.is_valid(),
            made matches Ok(trainer) ==> {
                &&& trainer == self.spec_init::<T>()
                &&& trainer.wf()
                &&& forall|point_count: nat| trainer.fits(point_count)
            },
            made matches Err(e) ==> e == self.spec_error(),
    {
        if self.options_renderer.colors_sh_degree_max > SH_DEGREE_MAX {
            return Err(
                Error::InvalidColorsShDegree(
                    self.options_renderer.colors_sh_degree_max,
                    SH_DEGREE_MAX,
                ),
            );
        }
        if !self.range_metric_optimization_fine.check() {
            return Err(Error::InvalidRange(self.range_metric_optimization_fine));
        }
        let refiner = match self.refiner.init() {
            Ok(refiner) => refiner,
            Err(e) => {
                return Err(e);
            },
        };
        Ok(
            Gaussian3dTrainer {
                iteration: 0,
                learning_rate_colors_sh: self.learning_rate_colors_sh,
                learning_rate_opacities: self.learning_rate_opacities,
                learning_rate_positions: self.learning_rate_positions,
                learning_rate_rotations: self.learning_rate_rotations,
                learning_rate_scalings: self.learning_rate_scalings,
                optimizer_colors_sh: self.optimizer_adam.init(),
                optimizer_opacities: self.optimizer_adam.init(),
                optimizer_positions: self.optimizer_adam.init(),
                optimizer_rotations: self.optimizer_adam.init(),
                optimizer_scalings: self.optimizer_adam.init(),
                options_renderer: self.options_renderer,
                range_metric_optimization_fine: self.range_metric_optimization_fine,
                refiner,
            },
        )
    }
}

} // verus!
