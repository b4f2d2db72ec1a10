//! Optimization of the scene: what one step leaves in each group of
//! parameters, in its optimizer and in its learning rate.

use super::Gaussian3dTrainer;
use crate::optimize::adam::{Adam, AdamState};
use crate::optimize::learning_rate::{LearningRate, LearningRateRecord};
use crate::scene::Gaussian3dScene;
use vstd::prelude::*;

verus! {

/// What one optimizer step has computed for one group of parameters.
#[derive(Clone, Debug, PartialEq)]
pub struct ParamUpdate<T, S, const N: usize> {
    /// The parameters after the step, one row for each point.
    pub value: Vec<[T; N]>,
    /// The first moments after the step, one row for each point.
    pub moment_1: Vec<[T; N]>,
    /// The second moments after the step, one row for each point.
    pub moment_2: Vec<[T; N]>,
    /// The learning rate for the step that follows.
    pub learning_rate: S,
}

/// What one iteration has computed for the five groups of parameters.
/// A group without a gradient has no update.
#[derive(Clone, Debug, PartialEq)]
pub struct Gaussian3dUpdate<T, S> {
    /// The update of colors SH.
    pub colors_sh: Option<ParamUpdate<T, S, 48>>,
    /// The update of opacities.
    pub opacities: Option<ParamUpdate<T, S, 1>>,
    /// The update of positions.
    pub positions: Option<ParamUpdate<T, S, 3>>,
    /// The update of rotations.
    pub rotations: Option<ParamUpdate<T, S, 4>>,
    /// The update of scalings.
    pub scalings: Option<ParamUpdate<T, S, 3>>,
}

impl<T: Copy, S: Copy, const N: usize> ParamUpdate<T, S, N> {
    /// The three arrays have one row for each of `point_count` points.
    pub open spec fn wf(&self, point_count: nat) -> bool {
        &&& self.value@.len() == point_count
        &&& self.moment_1@.len() == point_count
        &&& self.moment_2@.len() == point_count
    }

    /// Whether the three arrays have `point_count` rows.
    pub fn is_wf(&self, point_count: usize) -> (r: bool)
        ensures
            r == self.wf(point_count as nat),
    {
        self.value.len() == point_count && self.moment_1.len() == point_count
            && self.moment_2.len() == point_count
    }
}

/// Whether `update` can be applied to a group of `point_count` points whose
/// optimizer is `optimizer`: the update has a row for each point, and the
/// optimizer can count one more step.
pub open spec fn is_param_update_applicable<T: Copy, S: Copy, const N: usize>(
    update: Option<ParamUpdate<T, S, N>>,
    optimizer: Adam<T, S, N>,
    point_count: nat,
) -> bool {
    update matches Some(u) ==> u.wf(point_count) && optimizer.spec_time() < i32::MAX
}

/// What `update` does to one group: to its parameters, its optimizer and its
/// learning rate. With an update, the parameters and the moments are those
/// of the update, the optimizer has counted one more step, and the learning
/// rate is the one of the update. Without one, nothing changes.
pub open spec fn is_param_optimized<T: Copy, S: Copy, const N: usize>(
    update: Option<ParamUpdate<T, S, N>>,
    optimizer_before: Adam<T, S, N>,
    optimizer: Adam<T, S, N>,
    learning_rate_before: LearningRate<S>,
    learning_rate: LearningRate<S>,
    param_before: Vec<[T; N]>,
    param: Vec<[T; N]>,
) -> bool {
    match update {
        Some(u) => {
            &&& param == u.value
            &&& optimizer.config == optimizer_before.config
            &&& optimizer.record == Some(
                AdamState {
                    moment_1: u.moment_1,
                    moment_2: u.moment_2,
                    time: (optimizer_before.spec_time() + 1) as i32,
                },
            )
            &&& learning_rate == (LearningRate {
                record: LearningRateRecord { current: u.learning_rate },
                ..learning_rate_before
            })
        },
        None => {
            &&& param == param_before
            &&& optimizer == optimizer_before
            &&& learning_rate == learning_rate_before
        },
    }
}

/// Whether `update` can be applied to a group of `point_count` points whose
/// optimizer is `optimizer`.
fn can_apply_param_update<T: Copy, S: Copy, const N: usize>(
    update: &Option<ParamUpdate<T, S, N>>,
    optimizer: &Adam<T, S, N>,
    point_count: usize,
) -> (r: bool)
    ensures
        r == is_param_update_applicable(*update, *optimizer, point_count as nat),
{
    match update {
        Some(u) => u.is_wf(point_count) && optimizer.time() < i32::MAX,
        None => true,
    }
}

/// Applies the update of one group, if there is one.
fn optimize_param<T: Copy, S: Copy, const N: usize>(
    optimizer: &mut Adam<T, S, N>,
    learning_rate: &mut LearningRate<S>,
    param: &mut Vec<[T; N]>,
    update: Option<ParamUpdate<T, S, N>>,
)
    requires
        old(optimizer).wf(old(param)@.len()),
        is_param_update_applicable(update, *old(optimizer), old(param)@.len()),
    ensures
        is_param_optimized(
            update,
            *old(optimizer),
            *final(optimizer),
            *old(learning_rate),
            *final(learning_rate),
            *old(param),
            *final(param),
        ),
        final(param)@.len() == old(param)@.len(),
        final(optimizer).wf(old(param)@.len()),
{
    if let Some(u) = update {
        optimizer.update(u.moment_1, u.moment_2);
        learning_rate.update(u.learning_rate);
        *param = u.value;
    }
}

impl<T: Copy, S: Copy> Gaussian3dUpdate<T, S> {
    /// No group has an update.
    pub open spec fn is_empty(&self) -> bool {
        &&& self.colors_sh is None
        &&& self.opacities is None
        &&& self.positions is None
        &&& self.rotations is None
        &&& self.scalings is None
    }

    /// Every update that there is can be applied to `trainer` and a scene of
    /// `point_count` points.
    pub open spec fn is_applicable(&self, trainer: Gaussian3dTrainer<T, S>, point_count: nat) -> bool {
        &&& is_param_update_applicable(self.colors_sh, trainer.optimizer_colors_sh, point_count)
        &&& is_param_update_applicable(self.opacities, trainer.optimizer_opacities, point_count)
        &&& is_param_update_applicable(self.positions, trainer.optimizer_positions, point_count)
        &&& is_param_update_applicable(self.rotations, trainer.optimizer_rotations, point_count)
        &&& is_param_update_applicable(self.scalings, trainer.optimizer_scalings, point_count)
    }

    /// Whether every update that there is can be applied to `trainer` and a
    /// scene of `point_count` points.
    pub fn can_apply(&self, trainer: &Gaussian3dTrainer<T, S>, point_count: usize) -> (r: bool)
        ensures
            r == self.is_applicable(*trainer, point_count as nat),
    {
        can_apply_param_update(&self.colors_sh, &trainer.optimizer_colors_sh, point_count)
            && can_apply_param_update(&self.opacities, &trainer.optimizer_opacities, point_count)
            && can_apply_param_update(&self.positions, &trainer.optimizer_positions, point_count)
            && can_apply_param_update(&self.rotations, &trainer.optimizer_rotations, point_count)
            && can_apply_param_update(&self.scalings, &trainer.optimizer_scalings, point_count)
    }

    /// An update that leaves every group as it is.
    pub fn empty() -> (update: Self)
        ensures
            update.is_empty(),
    {
        Gaussian3dUpdate {
            colors_sh: None,
            opacities: None,
            positions: None,
            rotations: None,
            scalings: None,
        }
    }
}

impl<T: Copy, S: Copy> Gaussian3dTrainer<T, S> {
    /// The five groups of `scene` and of the trainer follow from those of
    /// `scene_before` and `before` by `update`, each group by its own part.
    pub open spec fn is_optimized(
        &self,
        before: Self,
        scene: Gaussian3dScene<T>,
        scene_before: Gaussian3dScene<T>,
        update: Gaussian3dUpdate<T, S>,
    ) -> bool {
        &&& is_param_optimized(
            update.colors_sh,
            before.optimizer_colors_sh,
            self.optimizer_colors_sh,
            before.learning_rate_colors_sh,
            self.learning_rate_colors_sh,
            scene_before.colors_sh,
            scene.colors_sh,
        )
        &&& is_param_optimized(
            update.opacities,
            before.optimizer_opacities,
            self.optimizer_opacities,
            before.learning_rate_opacities,
            self.learning_rate_opacities,
            scene_before.opacities,
            scene.opacities,
        )
        &&& is_param_optimized(
            update.positions,
            before.optimizer_positions,
            self.optimizer_positions,
            before.learning_rate_positions,
            self.learning_rate_positions,
            scene_before.positions,
            scene.positions,
        )
        &&& is_param_optimized(
            update.rotations,
            before.optimizer_rotations,
            self.optimizer_rotations,
            before.learning_rate_rotations,
            self.learning_rate_rotations,
            scene_before.rotations,
            scene.rotations,
        )
        &&& is_param_optimized(
            update.scalings,
            before.optimizer_scalings,
            self.optimizer_scalings,
            before.learning_rate_scalings,
            self.learning_rate_scalings,
            scene_before.scalings,
            scene.scalings,
        )
    }

    /// Optimize the 3DGS scene.
    ///
    /// Each group that has an update takes its parameters, its moments and
    /// its learning rate from it, and its optimizer counts one more step.
    /// A group without an update keeps its parameters, its optimizer and its
    /// learning rate.
    pub fn optimize(&mut self, scene: &mut Gaussian3dScene<T>, update: Gaussian3dUpdate<T, S>)
        requires
            old(scene).wf(),
            old(self).fits(old(scene).spec_point_count()),
            update.is_applicable(*old(self), old(scene).spec_point_count()),
        ensures
            final(self).is_optimized(*old(self), *final(scene), *old(scene), update),
            final(self).iteration == old(self).iteration,
            final(self).options_renderer == old(self).options_renderer,
            final(self).range_metric_optimization_fine == old(
                self,
            ).range_metric_optimization_fine,
            final(self).refiner == old(self).refiner,
            final(scene).wf(),
            final(scene).spec_point_count() == old(scene).spec_point_count(),
            final(self).fits(old(scene).spec_point_count()),
            update.is_empty() ==> *final(self) == *old(self) && *final(scene) == *old(scene),
    {
        optimize_param(
            &mut self.optimizer_colors_sh,
            &mut self.learning_rate_colors_sh,
            &mut scene.colors_sh,
            update.colors_sh,
        );
        optimize_param(
            &mut self.optimizer_opacities,
            &mut self.learning_rate_opacities,
            &mut scene.opacities,
            update.opacities,
        );
        optimize_param(
            &mut self.optimizer_positions,
            &mut self.learning_rate_positions,
            &mut scene.positions,
            update.positions,
        );
        optimize_param(
            &mut self.optimizer_rotations,
            &mut self.learning_rate_rotations,
            &mut scene.rotations,
            update.rotations,
        );
        optimize_param(
            &mut self.optimizer_scalings,
            &mut self.learning_rate_scalings,
            &mut scene.scalings,
            update.scalings,
        );
    }
}

} // verus!
