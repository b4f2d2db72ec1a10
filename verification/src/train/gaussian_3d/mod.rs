//! Trainer of 3D Gaussian splatting scenes.

pub mod config;
pub mod optimize;
pub mod partition;
pub mod record;
pub mod refine;

use crate::optimize::adam::Adam;
use crate::optimize::learning_rate::LearningRate;
use crate::range::RangeOptions;
use crate::render::{Gaussian3dRenderOptions, SH_DEGREE_MAX};
use crate::scene::Gaussian3dScene;
use optimize::Gaussian3dUpdate;
use refine::Refiner;
use vstd::prelude::*;

verus! {

/// Trainer for 3DGS.
#[derive(Clone, Debug, PartialEq)]
pub struct Gaussian3dTrainer<T, S> {
    /// Current iteration.
    pub iteration: u64,
    /// Current learning rate for colors SH.
    pub learning_rate_colors_sh: LearningRate<S>,
    /// Current learning rate for opacities.
    pub learning_rate_opacities: LearningRate<S>,
    /// Current learning rate for positions.
    pub learning_rate_positions: LearningRate<S>,
    /// Current learning rate for rotations.
    pub learning_rate_rotations: LearningRate<S>,
    /// Current learning rate for scalings.
    pub learning_rate_scalings: LearningRate<S>,
    /// Current optimizer for colors SH.
    pub optimizer_colors_sh: Adam<T, S, 48>,
    /// Current optimizer for opacities.
    pub optimizer_opacities: Adam<T, S, 1>,
    /// Current optimizer for positions.
    pub optimizer_positions: Adam<T, S, 3>,
    /// Current optimizer for rotations.
    pub optimizer_rotations: Adam<T, S, 4>,
    /// Current optimizer for scalings.
    pub optimizer_scalings: Adam<T, S, 3>,
    /// Current renderer options.
    pub options_renderer: Gaussian3dRenderOptions,
    /// The iterations at which the loss takes in the fine metric.
    pub range_metric_optimization_fine: RangeOptions,
    /// Current refiner.
    pub refiner: Refiner<T, S>,
}

/// What one iteration has computed: what follows the render, the loss and
/// the backward pass.
#[derive(Clone, Debug, PartialEq)]
pub struct Gaussian3dStep<T, S> {
    /// The update of each group that has a gradient.
    pub update: Gaussian3dUpdate<T, S>,
    /// The radius of each point in the render; zero where it was not seen.
    pub radii: Vec<i32>,
    /// For each point, the sum of the 2D position gradient norms that it
    /// has once this render is counted.
    pub positions_2d_grad_norm_sum: Vec<T>,
}

impl<T: Copy, S: Copy> Gaussian3dStep<T, S> {
    /// The step can be applied to `trainer` and a scene of `point_count`
    /// points.
    pub open spec fn is_applicable(&self, trainer: Gaussian3dTrainer<T, S>, point_count: nat) -> bool {
        &&& self.update.is_applicable(trainer, point_count)
        &&& self.radii@.len() == point_count
        &&& self.positions_2d_grad_norm_sum@.len() == point_count
        &&& trainer.refiner.wf(point_count)
        &&& trainer.refiner.is_countable(self.radii@)
    }

    /// Whether the step can be applied to `trainer` and a scene of
    /// `point_count` points.
    pub fn can_apply(&self, trainer: &Gaussian3dTrainer<T, S>, point_count: usize) -> (r: bool)
        ensures
            r == self.is_applicable(*trainer, point_count as nat),
    {
        self.update.can_apply(trainer, point_count) && self.radii.len() == point_count
            && self.positions_2d_grad_norm_sum.len() == point_count && match &trainer.refiner.record {
            Some(state) => state.is_wf(point_count) && state.is_countable(&self.radii),
            None => true,
        }
    }
}

impl<T: Copy, S: Copy> Gaussian3dTrainer<T, S> {
    /// The schedules can be asked about every iteration, and the colour
    /// degree is one that the renderer supports.
    pub open spec fn wf(&self) -> bool {
        &&& self.options_renderer.is_valid()
        &&& self.range_metric_optimization_fine.is_valid()
        &&& self.refiner.config.is_valid()
    }

    /// Every array that the trainer keeps for the points has one row for
    /// each of `point_count` points, and every point has been counted at
    /// least once.
    pub open spec fn fits(&self, point_count: nat) -> bool {
        &&& self.optimizer_colors_sh.wf(point_count)
        &&& self.optimizer_opacities.wf(point_count)
        &&& self.optimizer_positions.wf(point_count)
        &&& self.optimizer_rotations.wf(point_count)
        &&& self.optimizer_scalings.wf(point_count)
        &&& self.refiner.wf(point_count)
        &&& self.refiner.is_seeded()
    }

    /// Whether the schedules can be asked about every iteration and the
    /// colour degree is one that the renderer supports.
    pub fn is_wf(&self) -> (r: bool)
        ensures
            r == self.wf(),
    {
        self.options_renderer.colors_sh_degree_max <= SH_DEGREE_MAX
            && self.range_metric_optimization_fine.check()
            && self.refiner.config.range_densification.check()
            && self.refiner.config.range_increasing_colors_sh_degree_max.check()
    }

    /// Whether every array that the trainer keeps for the points has
    /// `point_count` rows, and every point has been counted at least once.
    pub fn is_fit(&self, point_count: usize) -> (r: bool)
        ensures
            r == self.fits(point_count as nat),
    {
        self.optimizer_colors_sh.is_wf(point_count) && self.optimizer_opacities.is_wf(
            point_count,
        ) && self.optimizer_positions.is_wf(point_count) && self.optimizer_rotations.is_wf(
            point_count,
        ) && self.optimizer_scalings.is_wf(point_count) && match &self.refiner.record {
            Some(state) => state.is_wf(point_count) && state.all_seeded(),
            None => true,
        }
    }

    /// Whether the loss at `iteration` takes in the fine metric beside the
    /// coarse one.
    pub fn has_metric_optimization_fine(&self, iteration: u64) -> (fine: bool)
        requires
            self.range_metric_optimization_fine.is_valid(),
        ensures
            fine == self.range_metric_optimization_fine.selects(iteration as int),
    {
        self.range_metric_optimization_fine.has(iteration)
    }

    /// Train the 3DGS scene by one iteration.
    ///
    /// The iteration is counted. `step` holds what the render, the loss and
    /// the backward pass of this iteration have given; it is absent when
    /// they gave no gradient, and then nothing else happens. With a step the
    /// scene is optimized and the trainer refined, in this order, and the
    /// result says whether the point set is to be rebuilt at this iteration.
    pub fn train(
        &mut self,
        scene: &mut Gaussian3dScene<T>,
        step: Option<Gaussian3dStep<T, S>>,
        zero: T,
    ) -> (densification: bool)
        requires
            old(self).wf(),
            old(self).iteration < u64::MAX,
            old(scene).wf(),
            old(self).fits(old(scene).spec_point_count()),
            step matches Some(s) ==> s.is_applicable(*old(self), old(scene).spec_point_count()),
        ensures
            final(self).iteration == old(self).iteration + 1,
            match step {
                Some(s) => {
                    &&& final(self).is_optimized(*old(self), *final(scene), *old(scene), s.update)
                    &&& final(self).is_refined(
                        Gaussian3dTrainer { iteration: final(self).iteration, ..*old(self) },
                        s.radii@,
                        s.positions_2d_grad_norm_sum@,
                        zero,
                    )
                    &&& densification == old(self).refiner.config.range_densification.selects(
                        old(self).iteration + 1,
                    )
                },
                None => {
                    &&& *final(self) == (Gaussian3dTrainer {
                        iteration: final(self).iteration,
                        ..*old(self)
                    })
                    &&& *final(scene) == *old(scene)
                    &&& !densification
                },
            },
            final(self).range_metric_optimization_fine == old(
                self,
            ).range_metric_optimization_fine,
            final(self).refiner.config == old(self).refiner.config,
            final(self).wf(),
            final(scene).wf(),
            final(scene).spec_point_count() == old(scene).spec_point_count(),
            final(self).fits(old(scene).spec_point_count()),
    {
        self.iteration += 1;
        let Some(s) = step else {
            return false;
        };
        self.optimize(scene, s.update);
        self.refine(&s.radii, Some(s.positions_2d_grad_norm_sum), zero)
    }
}

} // verus!
