//! Density control: which points stay, which are cloned and which are split.

use crate::rows::{extend, gathered, in_bounds, lemma_positions, lemma_positions_contains, positions, select};
use vstd::prelude::*;

verus! {

/// The measures of one point that density control goes by. Each measure is
/// an integer that orders as the measured value does.
#[derive(Clone, Copy, Debug, PartialEq, Eq)]
pub struct PointMeasure {
    /// The opacity of the point.
    pub opacity: i64,
    /// The mean norm of the 2D position gradient over the renders that saw
    /// the point.
    pub position_2d_grad_norm_mean: i64,
    /// The scaling of the point along each axis.
    pub scaling: [i64; 3],
}

/// The thresholds of density control, as integers that order as the
/// thresholds do, on the scale of the measures.
#[derive(Clone, Copy, Debug, PartialEq, Eq, Structural)]
pub struct DensityThresholds {
    /// Points with an opacity up to this are pruned.
    pub opacity: i64,
    /// Points with a mean 2D position gradient norm above this are
    /// under-reconstructed.
    pub position_2d_grad_norm: i64,
    /// Points with a scaling above this are large.
    pub scaling: i64,
    /// Points with a scaling above this are huge.
    pub scaling_huge: i64,
}

impl PointMeasure {
    /// The largest scaling of the point.
    pub open spec fn spec_scaling_max(self) -> i64 {
        let a = self.scaling[0];
        let b = self.scaling[1];
        let c = self.scaling[2];
        if a >= b && a >= c {
            a
        } else if b >= c {
            b
        } else {
            c
        }
    }

    /// What the measures say of the point under `thresholds`.
    pub open spec fn spec_flags(self, thresholds: DensityThresholds) -> PointFlags {
        PointFlags {
            is_opaque: self.opacity > thresholds.opacity,
            is_large: self.spec_scaling_max() > thresholds.scaling,
            is_huge: self.spec_scaling_max() > thresholds.scaling_huge,
            is_under_reconstructed: self.position_2d_grad_norm_mean
                > thresholds.position_2d_grad_norm,
        }
    }

    /// The largest scaling of the point.
    pub fn scaling_max(&self) -> (max: i64)
        ensures
            max == self.spec_scaling_max(),
    {
        let a: i64 = self.scaling[0];
        let b: i64 = self.scaling[1];
        let c: i64 = self.scaling[2];
        if a >= b && a >= c {
            a
        } else if b >= c {
            b
        } else {
            c
        }
    }

    /// What the measures say of the point under `thresholds`.
    pub fn flags(&self, thresholds: &DensityThresholds) -> (flags: PointFlags)
        ensures
            flags == self.spec_flags(*thresholds),
    {
        let scaling_max: i64 = self.scaling_max();
        PointFlags {
            is_opaque: self.opacity > thresholds.opacity,
            is_large: scaling_max > thresholds.scaling,
            is_huge: scaling_max > thresholds.scaling_huge,
            is_under_reconstructed: self.position_2d_grad_norm_mean
                > thresholds.position_2d_grad_norm,
        }
    }
}

/// What the measures say of each point under `thresholds`.
pub open spec fn classified(measures: Seq<PointMeasure>, thresholds: DensityThresholds) -> Seq<
    PointFlags,
> {
    measures.map_values(|measure: PointMeasure| measure.spec_flags(thresholds))
}

/// What the measures say of each point under `thresholds`.
pub fn classify(measures: &Vec<PointMeasure>, thresholds: &DensityThresholds) -> (flags: Vec<
    PointFlags,
>)
    ensures
        flags@ == classified(measures@, *thresholds),
{
    let mut flags: Vec<PointFlags> = Vec::new();
    let mut i: usize = 0;
    while i < measures.len()
        invariant
            i <= measures.len(),
            flags@ == classified(measures@, *thresholds).take(i as int),
        decreases measures.len() - i,
    {
        flags.push(measures[i].flags(thresholds));
        i += 1;
    }
    proof {
        assert(classified(measures@, *thresholds).take(i as int) == classified(
            measures@,
            *thresholds,
        ));
    }
    flags
}

/// What density control has found of one point.
#[derive(Clone, Copy, Debug, PartialEq, Eq, Structural)]
pub struct PointFlags {
    /// The opacity is above its threshold.
    pub is_opaque: bool,
    /// The largest scaling is above its threshold.
    pub is_large: bool,
    /// The largest scaling is far above its threshold.
    pub is_huge: bool,
    /// The mean norm of the 2D position gradient is above its threshold.
    pub is_under_reconstructed: bool,
}

impl PointFlags {
    /// The point keeps its row.
    pub open spec fn retains(self) -> bool {
        self.is_opaque && !(self.is_under_reconstructed && self.is_large) && !self.is_huge
    }

    /// The point gets one more row beside it.
    pub open spec fn clones(self) -> bool {
        self.is_opaque && self.is_under_reconstructed && !self.is_large
    }

    /// The point is replaced by two rows.
    pub open spec fn splits(self) -> bool {
        self.is_opaque && self.is_under_reconstructed && self.is_large
    }

    /// Whether the point keeps its row.
    pub fn is_retained(&self) -> (r: bool)
        ensures
            r == self.retains(),
    {
        self.is_opaque && !(self.is_under_reconstructed && self.is_large) && !self.is_huge
    }

    /// Whether the point gets one more row beside it.
    pub fn is_cloned(&self) -> (r: bool)
        ensures
            r == self.clones(),
    {
        self.is_opaque && self.is_under_reconstructed && !self.is_large
    }

    /// Whether the point is replaced by two rows.
    pub fn is_split(&self) -> (r: bool)
        ensures
            r == self.splits(),
    {
        self.is_opaque && self.is_under_reconstructed && self.is_large
    }
}

/// The points that keep their row, in ascending order.
pub open spec fn retained(flags: Seq<PointFlags>) -> Seq<usize> {
    positions(flags.map_values(|f: PointFlags| f.retains()))
}

/// The points that are cloned, in ascending order.
pub open spec fn cloned(flags: Seq<PointFlags>) -> Seq<usize> {
    positions(flags.map_values(|f: PointFlags| f.clones()))
}

/// The points that are split, in ascending order.
pub open spec fn splitted(flags: Seq<PointFlags>) -> Seq<usize> {
    positions(flags.map_values(|f: PointFlags| f.splits()))
}

/// The outcome of density control for a point set: three lists of point
/// indices. A point in none of them is pruned.
#[derive(Clone, Debug, PartialEq, Eq)]
pub struct Partition {
    /// The points that keep their row.
    pub args_to_retain: Vec<usize>,
    /// The points of which a copy is added.
    pub args_to_clone: Vec<usize>,
    /// The points that are replaced by two copies.
    pub args_to_split: Vec<usize>,
}

impl Partition {
    /// The partition is the one that `flags` asks for.
    pub open spec fn is_partition_of(&self, flags: Seq<PointFlags>) -> bool {
        &&& self.args_to_retain@ == retained(flags)
        &&& self.args_to_clone@ == cloned(flags)
        &&& self.args_to_split@ == splitted(flags)
    }

    /// Every index names one of `point_count` points.
    pub open spec fn wf(&self, point_count: nat) -> bool {
        &&& in_bounds(self.args_to_retain@, point_count)
        &&& in_bounds(self.args_to_clone@, point_count)
        &&& in_bounds(self.args_to_split@, point_count)
    }

    /// The number of rows that are new: one for each clone, two for each split.
    pub open spec fn point_count_selected(&self) -> nat {
        self.args_to_clone@.len() + 2 * self.args_to_split@.len()
    }

    /// The number of points after the rebuild.
    pub open spec fn point_count_new(&self) -> nat {
        self.args_to_retain@.len() + self.point_count_selected()
    }

    /// A point-indexed array after the rebuild: the retained rows, then the
    /// cloned rows, then the split rows twice over.
    pub open spec fn rebuilt<R>(&self, rows: Seq<R>) -> Seq<R> {
        gathered(rows, self.args_to_retain@) + gathered(rows, self.args_to_clone@) + gathered(
            rows,
            self.args_to_split@,
        ) + gathered(rows, self.args_to_split@)
    }

    /// Sorts the points by what their flags ask for.
    pub fn new(flags: &Vec<PointFlags>) -> (partition: Partition)
        ensures
            partition.is_partition_of(flags@),
            partition.wf(flags@.len()),
    {
        let mut args_to_retain: Vec<usize> = Vec::new();
        let mut args_to_clone: Vec<usize> = Vec::new();
        let mut args_to_split: Vec<usize> = Vec::new();
        let mut i: usize = 0;
        while i < flags.len()
            invariant
                i <= flags.len(),
                args_to_retain@ == retained(flags@.take(i as int)),
                args_to_clone@ == cloned(flags@.take(i as int)),
                args_to_split@ == splitted(flags@.take(i as int)),
            decreases flags.len() - i,
        {
            proof {
                let next = flags@.take(i + 1);
                assert(next.map_values(|f: PointFlags| f.retains()).drop_last()
                    == flags@.take(i as int).map_values(|f: PointFlags| f.retains()));
                assert(next.map_values(|f: PointFlags| f.clones()).drop_last() == flags@.take(
                    i as int,
                ).map_values(|f: PointFlags| f.clones()));
                assert(next.map_values(|f: PointFlags| f.splits()).drop_last() == flags@.take(
                    i as int,
                ).map_values(|f: PointFlags| f.splits()));
            }
            let point = flags[i];
            if point.is_retained() {
                args_to_retain.push(i);
            }
            if point.is_cloned() {
                args_to_clone.push(i);
            }
            if point.is_split() {
                args_to_split.push(i);
            }
            i += 1;
        }
        proof {
            assert(flags@.take(i as int) == flags@);
            lemma_positions(flags@.map_values(|f: PointFlags| f.retains()));
            lemma_positions(flags@.map_values(|f: PointFlags| f.clones()));
            lemma_positions(flags@.map_values(|f: PointFlags| f.splits()));
        }
        Partition { args_to_retain, args_to_clone, args_to_split }
    }

    /// Whether every index names one of `point_count` points.
    pub fn is_wf(&self, point_count: usize) -> (r: bool)
        ensures
            r == self.wf(point_count as nat),
    {
        all_below(&self.args_to_retain, point_count) && all_below(&self.args_to_clone, point_count)
            && all_below(&self.args_to_split, point_count)
    }

    /// Rebuilds one point-indexed array: the retained rows, then the cloned
    /// rows, then the split rows twice over.
    pub fn rebuild<R: Copy>(&self, rows: &Vec<R>) -> (out: Vec<R>)
        requires
            self.wf(rows@.len()),
        ensures
            out@ == self.rebuilt(rows@),
            out@.len() == self.point_count_new(),
    {
        let mut out = select(rows, &self.args_to_retain);
        let rows_cloned = select(rows, &self.args_to_clone);
        let rows_split = select(rows, &self.args_to_split);
        extend(&mut out, &rows_cloned);
        extend(&mut out, &rows_split);
        extend(&mut out, &rows_split);
        out
    }
}

/// Whether every index in `indices` is below `len`.
pub fn all_below(indices: &Vec<usize>, len: usize) -> (r: bool)
    ensures
        r == in_bounds(indices@, len as nat),
{
    let mut k: usize = 0;
    while k < indices.len()
        invariant
            k <= indices.len(),
            in_bounds(indices@.take(k as int), len as nat),
        decreases indices.len() - k,
    {
        if indices[k] >= len {
            return false;
        }
        k += 1;
        proof {
            assert forall|j: int| 0 <= j < indices@.take(k as int).len() implies (
            #[trigger] indices@.take(k as int)[j]) < len by {
                if j < k - 1 {
                    assert(indices@.take(k as int)[j] == indices@.take(k - 1)[j]);
                }
            }
        }
    }
    proof {
        assert(indices@.take(k as int) == indices@);
    }
    true
}

/// A point is in a list exactly when its flags ask for that outcome.
pub proof fn lemma_outcome_membership(flags: Seq<PointFlags>, i: usize)
    requires
        flags.len() <= usize::MAX,
    ensures
        retained(flags).contains(i) <==> i < flags.len() && flags[i as int].retains(),
        cloned(flags).contains(i) <==> i < flags.len() && flags[i as int].clones(),
        splitted(flags).contains(i) <==> i < flags.len() && flags[i as int].splits(),
{
    lemma_positions_contains(flags.map_values(|f: PointFlags| f.retains()), i);
    lemma_positions_contains(flags.map_values(|f: PointFlags| f.clones()), i);
    lemma_positions_contains(flags.map_values(|f: PointFlags| f.splits()), i);
}

/// A point that is not opaque is in none of the three lists: it is pruned.
pub proof fn lemma_transparent_points_are_pruned(flags: Seq<PointFlags>)
    requires
        flags.len() <= usize::MAX,
    ensures
        forall|i: usize|
            i < flags.len() && !flags[i as int].is_opaque ==> {
                &&& !(#[trigger] retained(flags).contains(i))
                &&& !cloned(flags).contains(i)
                &&& !splitted(flags).contains(i)
            },
{
    assert forall|i: usize| i < flags.len() && !flags[i as int].is_opaque implies {
        &&& !(#[trigger] retained(flags).contains(i))
        &&& !cloned(flags).contains(i)
        &&& !splitted(flags).contains(i)
    } by {
        lemma_outcome_membership(flags, i);
    }
}

/// A point whose opacity is not above the threshold is in none of the three
/// lists, whatever its other measures are.
pub proof fn lemma_points_up_to_opacity_threshold_are_pruned(
    measures: Seq<PointMeasure>,
    thresholds: DensityThresholds,
)
    requires
        measures.len() <= usize::MAX,
    ensures
        forall|i: usize|
            i < measures.len() && measures[i as int].opacity <= thresholds.opacity ==> {
                &&& !(#[trigger] retained(classified(measures, thresholds)).contains(i))
                &&& !cloned(classified(measures, thresholds)).contains(i)
                &&& !splitted(classified(measures, thresholds)).contains(i)
            },
{
    let flags = classified(measures, thresholds);
    assert forall|i: usize|
        i < measures.len() && measures[i as int].opacity <= thresholds.opacity implies {
        &&& !(#[trigger] retained(flags).contains(i))
        &&& !cloned(flags).contains(i)
        &&& !splitted(flags).contains(i)
    } by {
        assert(!flags[i as int].is_opaque);
        lemma_outcome_membership(flags, i);
    }
}

/// No point is both cloned and split, none is both retained and split, and
/// only opaque points are in any list.
pub proof fn lemma_split_excludes_other_outcomes(flags: Seq<PointFlags>)
    requires
        flags.len() <= usize::MAX,
    ensures
        forall|i: usize|
            #![trigger splitted(flags).contains(i)]
            !(cloned(flags).contains(i) && splitted(flags).contains(i)) && !(retained(
                flags,
            ).contains(i) && splitted(flags).contains(i)),
        forall|i: usize|
            #![trigger retained(flags).contains(i)]
            #![trigger cloned(flags).contains(i)]
            #![trigger splitted(flags).contains(i)]
            retained(flags).contains(i) || cloned(flags).contains(i) || splitted(flags).contains(
                i,
            ) ==> i < flags.len() && flags[i as int].is_opaque,
{
    assert forall|i: usize|
        #![trigger splitted(flags).contains(i)]
        !(cloned(flags).contains(i) && splitted(flags).contains(i)) && !(retained(flags).contains(
            i,
        ) && splitted(flags).contains(i)) by {
        lemma_outcome_membership(flags, i);
    }
    assert forall|i: usize|
        #![trigger retained(flags).contains(i)]
        #![trigger cloned(flags).contains(i)]
        #![trigger splitted(flags).contains(i)]
        retained(flags).contains(i) || cloned(flags).contains(i) || splitted(flags).contains(
            i,
        ) implies i < flags.len() && flags[i as int].is_opaque by {
        lemma_outcome_membership(flags, i);
    }
}

/// Whether the flags of a point ask for a copy beside its own row, which
/// stays: the point is then both retained and cloned.
pub open spec fn keeps_and_clones(f: PointFlags) -> bool {
    f.is_opaque && f.is_under_reconstructed && !f.is_large && !f.is_huge
}

/// Whether the flags of a point take an opaque point away for its size
/// alone: the point is then in no list.
pub open spec fn drops_opaque(f: PointFlags) -> bool {
    f.is_opaque && f.is_huge && !f.is_under_reconstructed
}

/// Where no point is cloned beside its own retained row, and no opaque point
/// is dropped for its size alone, the three lists have no point in common,
/// and the points in them are all the opaque points.
pub proof fn lemma_outcomes_partition_opaque_points(flags: Seq<PointFlags>)
    requires
        flags.len() <= usize::MAX,
        forall|j: int| 0 <= j < flags.len() ==> !keeps_and_clones(#[trigger] flags[j]),
        forall|j: int| 0 <= j < flags.len() ==> !drops_opaque(#[trigger] flags[j]),
    ensures
        forall|i: usize|
            #![trigger retained(flags).contains(i)]
            #![trigger cloned(flags).contains(i)]
            #![trigger splitted(flags).contains(i)]
            {
                &&& !(retained(flags).contains(i) && cloned(flags).contains(i))
                &&& !(retained(flags).contains(i) && splitted(flags).contains(i))
                &&& !(cloned(flags).contains(i) && splitted(flags).contains(i))
            },
        forall|i: usize|
            #![trigger flags[i as int]]
            i < flags.len() ==> (flags[i as int].is_opaque <==> retained(flags).contains(i)
                || cloned(flags).contains(i) || splitted(flags).contains(i)),
{
    assert forall|i: usize|
        #![trigger retained(flags).contains(i)]
        #![trigger cloned(flags).contains(i)]
        #![trigger splitted(flags).contains(i)]
        {
            &&& !(retained(flags).contains(i) && cloned(flags).contains(i))
            &&& !(retained(flags).contains(i) && splitted(flags).contains(i))
            &&& !(cloned(flags).contains(i) && splitted(flags).contains(i))
        } by {
        lemma_outcome_membership(flags, i);
        if i < flags.len() {
            assert(!keeps_and_clones(flags[i as int]));
        }
    }
    assert forall|i: usize| #![trigger flags[i as int]] i < flags.len() implies (flags[i as int].is_opaque
        <==> retained(flags).contains(i) || cloned(flags).contains(i) || splitted(flags).contains(
        i,
    )) by {
        lemma_outcome_membership(flags, i);
        assert(!keeps_and_clones(flags[i as int]));
        assert(!drops_opaque(flags[i as int]));
    }
}

} // verus!
