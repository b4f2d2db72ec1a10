//! Refinement of the point set: the running statistics of each point, the
//! schedule of density control and the rebuild that follows it.

use super::partition::{Partition, PointFlags};
use super::Gaussian3dTrainer;
use crate::error::{first_of, other_than, Error};
use crate::range::RangeOptions;
use crate::rows::{filled, full, mask_where, merged};
use crate::scene::Gaussian3dScene;
use vstd::prelude::*;

verus! {

/// The refiner of a trainer: when the point set is refined, and what has
/// been seen of each point since it was last rebuilt.
#[derive(Clone, Debug, PartialEq)]
pub struct Refiner<T, S> {
    /// The schedule and the thresholds.
    pub config: RefinerConfig<S>,
    /// The statistics, absent until the first point set has been seen.
    pub record: Option<RefinerState<T>>,
}

/// The schedule of refinement and the thresholds of density control.
#[derive(Clone, Copy, Debug, PartialEq)]
pub struct RefinerConfig<S> {
    /// Points with a scaling above the threshold times this are huge: they
    /// are not retained.
    pub factor_scaling_huge: S,
    /// The iterations at which the point set is rebuilt.
    pub range_densification: RangeOptions,
    /// The iterations at which the colour degree of renders is raised.
    pub range_increasing_colors_sh_degree_max: RangeOptions,
    /// Points with an opacity up to this are pruned.
    pub threshold_opacity: S,
    /// Points with a mean 2D position gradient norm above this are densified.
    pub threshold_position_2d_grad_norm: S,
    /// Points with a scaling above this are split, the others cloned.
    pub threshold_scaling: S,
}

/// What has been seen of each point since the point set was last rebuilt.
#[derive(Clone, Debug, PartialEq)]
pub struct RefinerState<T> {
    /// The sum of the 2D position gradient norms over the iterations at
    /// which the point was visible, `[P]`.
    pub positions_2d_grad_norm_sum: Vec<T>,
    /// One more than the number of iterations at which the point was
    /// visible, `[P]`.
    pub time: Vec<u64>,
}

/// What a rebuild of the point set has done.
#[derive(Clone, Debug, PartialEq, Eq)]
pub struct Densification {
    /// Which points were retained, cloned and split.
    pub partition: Partition,
    /// The number of points before the rebuild.
    pub point_count: usize,
    /// The number of rows that were retained; they come first.
    pub point_count_retained: usize,
    /// The number of rows that were added by cloning; they follow the
    /// retained rows.
    pub point_count_cloned: usize,
    /// The number of rows that were added by splitting, two for each split
    /// point; they come last.
    pub point_count_splitted: usize,
    /// The number of points after the rebuild.
    pub point_count_new: usize,
}

impl Densification {
    /// The counts are those of the partition, for a point set of
    /// `point_count` points.
    pub open spec fn wf(&self, point_count: nat) -> bool {
        &&& self.partition.wf(point_count)
        &&& self.point_count == point_count
        &&& self.point_count_retained == self.partition.args_to_retain@.len()
        &&& self.point_count_cloned == self.partition.args_to_clone@.len()
        &&& self.point_count_splitted == 2 * self.partition.args_to_split@.len()
        &&& self.point_count_new == self.point_count_retained + self.point_count_cloned
            + self.point_count_splitted
    }
}

/// Which points a render has seen: those with a radius other than zero.
pub open spec fn visible(radii: Seq<i32>) -> Seq<bool> {
    radii.map_values(|radius: i32| radius != 0)
}

/// The counts after a render: one more for each visible point.
pub open spec fn counted(radii: Seq<i32>, time: Seq<u64>) -> Seq<u64> {
    Seq::new(
        time.len(),
        |i: int|
            if radii[i] != 0 {
                (time[i] + 1) as u64
            } else {
                time[i]
            },
    )
}

/// The counts with every zero raised to one.
pub open spec fn seeded(time: Seq<u64>) -> Seq<u64> {
    time.map_values(
        |count: u64|
            if count == 0 {
                1u64
            } else {
                count
            },
    )
}

/// Whether no count of a visible point is at the limit of its type.
pub open spec fn countable(radii: Seq<i32>, time: Seq<u64>) -> bool {
    forall|i: int| 0 <= i < time.len() && radii[i] != 0 ==> (#[trigger] time[i]) < u64::MAX
}

impl<S: Copy> RefinerConfig<S> {
    /// Both ranges can be asked about every iteration.
    pub open spec fn is_valid(self) -> bool {
        self.range_densification.is_valid()
            && self.range_increasing_colors_sh_degree_max.is_valid()
    }

    /// A configuration with the given thresholds and factor, which rebuilds
    /// the point set every 100 iterations from 500 to 15000 and raises the
    /// colour degree every 1000 iterations from 1000 to 4000.
    pub fn new(
        factor_scaling_huge: S,
        threshold_opacity: S,
        threshold_position_2d_grad_norm: S,
        threshold_scaling: S,
    ) -> (config: Self)
        ensures
            config == (RefinerConfig {
                factor_scaling_huge,
                range_densification: RangeOptions { start: 500, end: 15000, step: 100 },
                range_increasing_colors_sh_degree_max: RangeOptions {
                    start: 1000,
                    end: 4000,
                    step: 1000,
                },
                threshold_opacity,
                threshold_position_2d_grad_norm,
                threshold_scaling,
            }),
            config.is_valid(),
    {
        RefinerConfig {
            factor_scaling_huge,
            range_densification: RangeOptions::new(500, 15000, 100),
            range_increasing_colors_sh_degree_max: RangeOptions::new(1000, 4000, 1000),
            threshold_opacity,
            threshold_position_2d_grad_norm,
            threshold_scaling,
        }
    }

    /// A refiner that has seen no point set yet.
    ///
    /// Fails on the first of the two ranges that is not valid, the range of
    /// densification before the other.
    pub fn init<T: Copy>(self) -> (made: Result<Refiner<T, S>, Error>)
        ensures
            made is Ok <==> self.is_valid(),
            made matches Ok(refiner) ==> refiner.config == self && refiner.record is None,
            made matches Err(e) ==> e == (if !self.range_densification.is_valid() {
                Error::InvalidRange(self.range_densification)
            } else {
                Error::InvalidRange(self.range_increasing_colors_sh_degree_max)
            }),
    {
        if !self.range_densification.check() {
            return Err(Error::InvalidRange(self.range_densification));
        }
        if !self.range_increasing_colors_sh_degree_max.check() {
            return Err(Error::InvalidRange(self.range_increasing_colors_sh_degree_max));
        }
        Ok(Refiner { config: self, record: None })
    }
}

impl<T: Copy> RefinerState<T> {
    /// Both arrays have one row for each of `point_count` points.
    pub open spec fn wf(&self, point_count: nat) -> bool {
        self.positions_2d_grad_norm_sum@.len() == point_count && self.time@.len() == point_count
    }

    /// Every count is at least one, so that a mean over it is defined.
    pub open spec fn is_seeded(&self) -> bool {
        forall|i: int| 0 <= i < self.time@.len() ==> (#[trigger] self.time@[i]) >= 1
    }

    /// The state is the one of a point set of `point_count` points of which
    /// nothing has been seen: every sum is `zero` and every count is one.
    pub open spec fn is_fresh(&self, point_count: nat, zero: T) -> bool {
        self.positions_2d_grad_norm_sum@ == filled(point_count, zero) && self.time@ == filled(
            point_count,
            1u64,
        )
    }

    /// The state follows by a render with the radii `radii` from one with
    /// the sums `sums_before` and the counts `time_before`: of a visible
    /// point the sum is the one in `sums` and the count is one more; of
    /// another point both stay.
    pub open spec fn is_updated(
        &self,
        sums_before: Seq<T>,
        time_before: Seq<u64>,
        radii: Seq<i32>,
        sums: Seq<T>,
    ) -> bool {
        &&& self.positions_2d_grad_norm_sum@ == merged(visible(radii), sums, sums_before)
        &&& self.time@ == counted(radii, time_before)
    }

    /// The state of a point set of `point_count` points of which nothing has
    /// been seen.
    pub fn new(point_count: usize, zero: T) -> (state: Self)
        ensures
            state.is_fresh(point_count as nat, zero),
            state.wf(point_count as nat),
            state.is_seeded(),
    {
        RefinerState {
            positions_2d_grad_norm_sum: full(point_count, zero),
            time: full(point_count, 1u64),
        }
    }

    /// Whether both arrays have `point_count` rows.
    pub fn is_wf(&self, point_count: usize) -> (r: bool)
        ensures
            r == self.wf(point_count as nat),
    {
        self.positions_2d_grad_norm_sum.len() == point_count && self.time.len() == point_count
    }

    /// The number of rows of the first array that has another number of
    /// rows than `point_count`, if there is one.
    pub open spec fn spec_mismatch(&self, point_count: nat) -> Option<nat> {
        first_of(
            other_than(self.positions_2d_grad_norm_sum@.len(), point_count),
            other_than(self.time@.len(), point_count),
        )
    }

    /// Whether every count is at least one.
    pub fn all_seeded(&self) -> (r: bool)
        ensures
            r == self.is_seeded(),
    {
        let mut i: usize = 0;
        while i < self.time.len()
            invariant
                i <= self.time.len(),
                forall|j: int| 0 <= j < i ==> (#[trigger] self.time@[j]) >= 1,
            decreases self.time.len() - i,
        {
            if self.time[i] == 0 {
                return false;
            }
            i += 1;
        }
        true
    }

    /// Raises every count of zero to one, so that a mean over it is
    /// defined. A state without such a count stays as it is.
    pub fn seed(&mut self)
        ensures
            final(self).positions_2d_grad_norm_sum == old(self).positions_2d_grad_norm_sum,
            final(self).time@ == seeded(old(self).time@),
            final(self).is_seeded(),
            old(self).is_seeded() ==> *final(self) == *old(self),
    {
        let mut i: usize = 0;
        while i < self.time.len()
            invariant
                i <= self.time.len(),
                self.positions_2d_grad_norm_sum == old(self).positions_2d_grad_norm_sum,
                self.time@.len() == old(self).time@.len(),
                forall|j: int| 0 <= j < i ==> (#[trigger] self.time@[j]) == seeded(old(self).time@)[j],
                forall|j: int| i <= j < self.time@.len() ==> (#[trigger] self.time@[j]) == old(self).time@[j],
                (forall|j: int| 0 <= j < i ==> (#[trigger] old(self).time@[j]) >= 1) ==> self.time
                    == old(self).time,
            decreases self.time.len() - i,
        {
            if self.time[i] == 0 {
                self.time.set(i, 1);
            }
            i += 1;
        }
        proof {
            assert(self.time@ =~= seeded(old(self).time@));
        }
    }

    /// The number of rows of the first array that has another number of
    /// rows than `point_count`, if there is one.
    pub fn mismatch(&self, point_count: usize) -> (found: Option<usize>)
        ensures
            found is None <==> self.wf(point_count as nat),
            match found {
                Some(n) => self.spec_mismatch(point_count as nat) == Some(n as nat),
                None => self.spec_mismatch(point_count as nat) is None,
            },
    {
        if self.positions_2d_grad_norm_sum.len() != point_count {
            Some(self.positions_2d_grad_norm_sum.len())
        } else if self.time.len() != point_count {
            Some(self.time.len())
        } else {
            None
        }
    }

    /// Whether no count of a point that `radii` shows is at the limit of
    /// its type.
    pub fn is_countable(&self, radii: &Vec<i32>) -> (r: bool)
        requires
            radii@.len() == self.time@.len(),
        ensures
            r == countable(radii@, self.time@),
    {
        let mut i: usize = 0;
        while i < self.time.len()
            invariant
                i <= self.time.len(),
                radii@.len() == self.time@.len(),
                forall|j: int| 0 <= j < i && radii@[j] != 0 ==> (#[trigger] self.time@[j]) < u64::MAX,
            decreases self.time.len() - i,
        {
            if radii[i] != 0 && self.time[i] == u64::MAX {
                return false;
            }
            i += 1;
        }
        true
    }

    /// Takes in what a render has seen: of each point with a radius other
    /// than zero the sum becomes the one in `sums`, and its count grows by
    /// one.
    pub fn update(&mut self, radii: &Vec<i32>, sums: &Vec<T>)
        requires
            old(self).wf(radii@.len()),
            sums@.len() == radii@.len(),
            countable(radii@, old(self).time@),
        ensures
            final(self).is_updated(
                old(self).positions_2d_grad_norm_sum@,
                old(self).time@,
                radii@,
                sums@,
            ),
            final(self).wf(radii@.len()),
            old(self).is_seeded() ==> final(self).is_seeded(),
    {
        let mut is_visible: Vec<bool> = Vec::new();
        let mut time: Vec<u64> = Vec::new();
        let mut i: usize = 0;
        while i < radii.len()
            invariant
                i <= radii.len(),
                self.time@.len() == radii@.len(),
                countable(radii@, self.time@),
                is_visible@ == visible(radii@).take(i as int),
                time@ == counted(radii@, self.time@).take(i as int),
            decreases radii.len() - i,
        {
            if radii[i] != 0 {
                is_visible.push(true);
                time.push(self.time[i] + 1);
            } else {
                is_visible.push(false);
                time.push(self.time[i]);
            }
            i += 1;
        }
        proof {
            assert(visible(radii@).take(i as int) == visible(radii@));
            assert(counted(radii@, self.time@).take(i as int) == counted(radii@, self.time@));
        }
        self.positions_2d_grad_norm_sum = mask_where(
            &self.positions_2d_grad_norm_sum,
            &is_visible,
            sums,
        );
        self.time = time;
    }
}

impl<T: Copy, S: Copy> Refiner<T, S> {
    /// The statistics, where there are any, have one row for each of
    /// `point_count` points.
    pub open spec fn wf(&self, point_count: nat) -> bool {
        self.record is Some ==> self.record->0.wf(point_count)
    }

    /// The statistics, where there are any, hold no count below one.
    pub open spec fn is_seeded(&self) -> bool {
        self.record is Some ==> self.record->0.is_seeded()
    }

    /// Whether a render with the radii `radii` can be counted.
    pub open spec fn is_countable(&self, radii: Seq<i32>) -> bool {
        self.record is Some ==> countable(radii, self.record->0.time@)
    }

    /// The refiner follows from `before` by a render with the radii `radii`,
    /// where statistics that are absent count as those of a point set of
    /// which nothing has been seen.
    pub open spec fn is_updated(&self, before: Self, radii: Seq<i32>, sums: Seq<T>, zero: T) -> bool {
        &&& self.config == before.config
        &&& self.record is Some
        &&& match before.record {
            Some(state) => self.record->0.is_updated(
                state.positions_2d_grad_norm_sum@,
                state.time@,
                radii,
                sums,
            ),
            None => self.record->0.is_updated(
                filled(radii.len(), zero),
                filled(radii.len(), 1u64),
                radii,
                sums,
            ),
        }
    }

    /// Whether a render with the radii `radii` can be counted.
    pub fn can_count(&self, radii: &Vec<i32>) -> (r: bool)
        requires
            self.wf(radii@.len()),
        ensures
            r == self.is_countable(radii@),
    {
        match &self.record {
            Some(state) => state.is_countable(radii),
            None => true,
        }
    }

    /// Takes in what a render has seen. Statistics that are absent are
    /// first made for the point set of the render: sums of `zero` and
    /// counts of one.
    pub fn update(&mut self, radii: &Vec<i32>, sums: &Vec<T>, zero: T)
        requires
            old(self).wf(radii@.len()),
            old(self).is_countable(radii@),
            sums@.len() == radii@.len(),
        ensures
            final(self).is_updated(*old(self), radii@, sums@, zero),
            final(self).wf(radii@.len()),
            old(self).is_seeded() ==> final(self).is_seeded(),
    {
        match &mut self.record {
            Some(state) => {
                state.update(radii, sums);
            },
            None => {
                let mut state = RefinerState::new(radii.len(), zero);
                state.update(radii, sums);
                self.record = Some(state);
            },
        }
    }

    /// Load the record of the refiner.
    pub fn load_record(&mut self, record: Option<RefinerState<T>>)
        ensures
            final(self).config == old(self).config,
            final(self).record == record,
    {
        self.record = record;
    }

    /// Unload the record of the refiner.
    pub fn into_record(self) -> (record: Option<RefinerState<T>>)
        ensures
            record == self.record,
    {
        self.record
    }
}

impl<T: Copy, S: Copy> Gaussian3dTrainer<T, S> {
    /// The refiner and the render options follow from those of `before` by
    /// a render with the radii `radii`: the statistics take the render in,
    /// and the colour degree is raised if the iteration is one of its range.
    pub open spec fn is_refined(&self, before: Self, radii: Seq<i32>, sums: Seq<T>, zero: T) -> bool {
        &&& self.refiner.is_updated(before.refiner, radii, sums, zero)
        &&& self.options_renderer == if before.refiner.config.range_increasing_colors_sh_degree_max.selects(
            before.iteration as int,
        ) {
            before.options_renderer.spec_increased()
        } else {
            before.options_renderer
        }
    }

    /// The optimizers and the refiner follow from those of `before` when the
    /// point set is rebuilt as `partition` says: every moment buffer keeps
    /// the retained rows and gets rows of `zero` for the new points, step
    /// counts stay, and the statistics are those of a point set of which
    /// nothing has been seen.
    pub open spec fn is_densified(&self, before: Self, partition: Partition, zero: T) -> bool {
        let retain = partition.args_to_retain@;
        let added = partition.point_count_selected();
        &&& self.optimizer_colors_sh.is_rebuilt(before.optimizer_colors_sh, retain, added, zero)
        &&& self.optimizer_opacities.is_rebuilt(before.optimizer_opacities, retain, added, zero)
        &&& self.optimizer_positions.is_rebuilt(before.optimizer_positions, retain, added, zero)
        &&& self.optimizer_rotations.is_rebuilt(before.optimizer_rotations, retain, added, zero)
        &&& self.optimizer_scalings.is_rebuilt(before.optimizer_scalings, retain, added, zero)
        &&& self.refiner.config == before.refiner.config
        &&& self.refiner.record is Some
        &&& self.refiner.record->0.is_fresh(partition.point_count_new(), zero)
    }

    /// Refine the trainer by what a render has seen.
    ///
    /// `radii` holds the radius of each point in the render, zero for a
    /// point that was not seen; `positions_2d_grad_norm_sum` holds for each
    /// point the sum that it has once the render is counted, and is absent
    /// when the render gave no gradient. Without it nothing happens. With
    /// it the statistics take the render in, the colour degree is raised at
    /// the iterations of its range, and the result says whether the point
    /// set is to be rebuilt at this iteration.
    pub fn refine(
        &mut self,
        radii: &Vec<i32>,
        positions_2d_grad_norm_sum: Option<Vec<T>>,
        zero: T,
    ) -> (densification: bool)
        requires
            old(self).wf(),
            positions_2d_grad_norm_sum matches Some(sums) ==> {
                &&& sums@.len() == radii@.len()
                &&& old(self).refiner.wf(radii@.len())
                &&& old(self).refiner.is_countable(radii@)
            },
        ensures
            match positions_2d_grad_norm_sum {
                Some(sums) => {
                    &&& final(self).is_refined(*old(self), radii@, sums@, zero)
                    &&& densification == old(self).refiner.config.range_densification.selects(
                        old(self).iteration as int,
                    )
                    &&& final(self).refiner.wf(radii@.len())
                    &&& old(self).refiner.is_seeded() ==> final(self).refiner.is_seeded()
                },
                None => *final(self) == *old(self) && !densification,
            },
            *final(self) == (Gaussian3dTrainer {
                refiner: final(self).refiner,
                options_renderer: final(self).options_renderer,
                ..*old(self)
            }),
            final(self).wf(),
            final(self).options_renderer.colors_sh_degree_max >= old(
                self,
            ).options_renderer.colors_sh_degree_max,
    {
        let Some(sums) = positions_2d_grad_norm_sum else {
            return false;
        };
        self.refiner.update(radii, &sums, zero);
        if self.refiner.config.range_increasing_colors_sh_degree_max.has(self.iteration) {
            self.options_renderer = self.options_renderer.increased();
        }
        self.refiner.config.range_densification.has(self.iteration)
    }

    /// Rebuild the point set if the iteration is one of the range of
    /// densification; else nothing happens.
    ///
    /// `flags` says of each point what density control has measured. The
    /// partition that it asks for is returned. Every array of the scene holds
    /// the retained rows, then a copy of each cloned row, then two copies of
    /// each split row; every moment buffer that there is keeps the retained
    /// rows and has rows of `zero` for all others; the statistics start anew.
    pub fn densify(
        &mut self,
        scene: &mut Gaussian3dScene<T>,
        flags: &Vec<PointFlags>,
        zero: T,
    ) -> (outcome: Option<Densification>)
        requires
            old(self).wf(),
            old(scene).wf(),
            flags@.len() == old(scene).spec_point_count(),
            old(self).fits(old(scene).spec_point_count()),
        ensures
            outcome is Some <==> old(self).refiner.config.range_densification.selects(
                old(self).iteration as int,
            ),
            match outcome {
                Some(done) => {
                    &&& done.partition.is_partition_of(flags@)
                    &&& done.wf(flags@.len())
                    &&& final(scene).is_rebuilt(*old(scene), done.partition)
                    &&& final(self).is_densified(*old(self), done.partition, zero)
                    &&& final(scene).spec_point_count() == done.point_count_new
                },
                None => *final(self) == *old(self) && *final(scene) == *old(scene),
            },
            *final(self) == (Gaussian3dTrainer {
                optimizer_colors_sh: final(self).optimizer_colors_sh,
                optimizer_opacities: final(self).optimizer_opacities,
                optimizer_positions: final(self).optimizer_positions,
                optimizer_rotations: final(self).optimizer_rotations,
                optimizer_scalings: final(self).optimizer_scalings,
                refiner: final(self).refiner,
                ..*old(self)
            }),
            final(self).wf(),
            final(scene).wf(),
            final(self).fits(final(scene).spec_point_count()),
    {
        if !self.refiner.config.range_densification.has(self.iteration) {
            return None;
        }
        let partition = Partition::new(flags);
        scene.rebuild(&partition);
        let point_count: usize = flags.len();
        let point_count_new: usize = scene.point_count();
        let point_count_retained: usize = partition.args_to_retain.len();
        let point_count_cloned: usize = partition.args_to_clone.len();
        let point_count_selected: usize = point_count_new - point_count_retained;
        let point_count_splitted: usize = point_count_selected - point_count_cloned;
        let retain = &partition.args_to_retain;
        self.optimizer_colors_sh.rebuild(retain, point_count_selected, zero);
        self.optimizer_opacities.rebuild(retain, point_count_selected, zero);
        self.optimizer_positions.rebuild(retain, point_count_selected, zero);
        self.optimizer_rotations.rebuild(retain, point_count_selected, zero);
        self.optimizer_scalings.rebuild(retain, point_count_selected, zero);
        self.refiner.record = Some(RefinerState::new(point_count_new, zero));
        Some(
            Densification {
                partition,
                point_count,
                point_count_retained,
                point_count_cloned,
                point_count_splitted,
                point_count_new,
            },
        )
    }
}

} // verus!
