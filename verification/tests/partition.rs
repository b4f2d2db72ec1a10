use gausplat_trainer::train::gaussian_3d::partition::{
    all_below, classify, DensityThresholds, Partition, PointFlags, PointMeasure,
};

fn partition_flags(
    is_opaque: bool,
    is_under_reconstructed: bool,
    is_large: bool,
    is_huge: bool,
) -> PointFlags {
    PointFlags { is_opaque, is_large, is_huge, is_under_reconstructed }
}

#[test]
fn point_flags_outcomes_follow_the_predicates() {
    // opaque, fine
    let fine = partition_flags(true, false, false, false);
    assert!(fine.is_retained() && !fine.is_cloned() && !fine.is_split());
    // opaque, fine and large
    let large = partition_flags(true, false, true, false);
    assert!(large.is_retained() && !large.is_cloned() && !large.is_split());
    // opaque, under-reconstructed and small: its row stays and a copy is added
    let small = partition_flags(true, true, false, false);
    assert!(small.is_retained() && small.is_cloned() && !small.is_split());
    // opaque, under-reconstructed and large
    let split = partition_flags(true, true, true, false);
    assert!(!split.is_retained() && !split.is_cloned() && split.is_split());
    // opaque, under-reconstructed, large and huge
    let huge = partition_flags(true, true, true, true);
    assert!(!huge.is_retained() && !huge.is_cloned() && huge.is_split());
    // opaque and huge, not under-reconstructed: dropped
    let dropped = partition_flags(true, false, true, true);
    assert!(!dropped.is_retained() && !dropped.is_cloned() && !dropped.is_split());
}

#[test]
fn transparent_points_are_in_no_list() {
    for bits in 0..8u8 {
        let point = partition_flags(false, bits & 1 != 0, bits & 2 != 0, bits & 4 != 0);
        assert!(!point.is_retained(), "{point:?}");
        assert!(!point.is_cloned(), "{point:?}");
        assert!(!point.is_split(), "{point:?}");
    }
    let flags = vec![
        partition_flags(false, true, true, false),
        partition_flags(true, false, false, false),
        partition_flags(false, true, false, false),
    ];
    let partition = Partition::new(&flags);
    assert_eq!(partition.args_to_retain, vec![1]);
    assert_eq!(partition.args_to_clone, Vec::<usize>::new());
    assert_eq!(partition.args_to_split, Vec::<usize>::new());
}

#[test]
fn partition_of_four_points_has_five_rows() {
    let flags = vec![
        partition_flags(true, true, true, false),
        partition_flags(true, true, false, false),
        partition_flags(true, false, false, false),
        partition_flags(false, false, false, false),
    ];
    let partition = Partition::new(&flags);
    assert_eq!(partition.args_to_retain, vec![1, 2]);
    assert_eq!(partition.args_to_clone, vec![1]);
    assert_eq!(partition.args_to_split, vec![0]);

    let rows = vec![[0.0f32], [1.0], [2.0], [3.0]];
    let rebuilt = partition.rebuild(&rows);
    assert_eq!(rebuilt, vec![[1.0], [2.0], [1.0], [0.0], [0.0]]);
    assert_eq!(
        rebuilt.len(),
        partition.args_to_retain.len()
            + partition.args_to_clone.len()
            + 2 * partition.args_to_split.len()
    );
}

#[test]
fn split_rows_come_twice_in_the_order_of_the_points() {
    let flags = vec![
        partition_flags(true, true, true, false),
        partition_flags(true, true, true, false),
    ];
    let partition = Partition::new(&flags);
    assert_eq!(partition.args_to_split, vec![0, 1]);
    let rebuilt = partition.rebuild(&vec![10u8, 20]);
    assert_eq!(rebuilt, vec![10, 20, 10, 20]);
}

#[test]
fn split_points_are_in_no_other_list() {
    let mut flags = Vec::new();
    for bits in 0..16u8 {
        flags.push(partition_flags(
            bits & 1 != 0,
            bits & 2 != 0,
            bits & 4 != 0,
            bits & 8 != 0,
        ));
    }
    let partition = Partition::new(&flags);
    for index in &partition.args_to_split {
        assert!(!partition.args_to_retain.contains(index));
        assert!(!partition.args_to_clone.contains(index));
    }
    for index in partition
        .args_to_retain
        .iter()
        .chain(&partition.args_to_clone)
        .chain(&partition.args_to_split)
    {
        assert!(flags[*index].is_opaque);
    }
}

#[test]
fn outcomes_partition_opaque_points_without_overlap() {
    // No point here is small and under-reconstructed without being huge,
    // and none is huge without being under-reconstructed.
    let flags = vec![
        partition_flags(true, false, false, false),
        partition_flags(true, true, true, false),
        partition_flags(false, true, false, false),
        partition_flags(true, true, false, true),
        partition_flags(true, false, true, false),
        partition_flags(true, true, true, true),
    ];
    let partition = Partition::new(&flags);
    assert_eq!(partition.args_to_retain, vec![0, 4]);
    assert_eq!(partition.args_to_clone, vec![3]);
    assert_eq!(partition.args_to_split, vec![1, 5]);
    for (index, point) in flags.iter().enumerate() {
        let count = partition.args_to_retain.contains(&index) as usize
            + partition.args_to_clone.contains(&index) as usize
            + partition.args_to_split.contains(&index) as usize;
        assert_eq!(count, point.is_opaque as usize, "point {index}");
    }
}

#[test]
fn empty_point_set_has_an_empty_partition() {
    let partition = Partition::new(&Vec::new());
    assert!(partition.args_to_retain.is_empty());
    assert!(partition.args_to_clone.is_empty());
    assert!(partition.args_to_split.is_empty());
    assert_eq!(partition.rebuild(&Vec::<[f32; 3]>::new()), Vec::<[f32; 3]>::new());
}

#[test]
fn partition_is_wf_checks_every_list() {
    let partition = Partition {
        args_to_retain: vec![0, 1],
        args_to_clone: vec![2],
        args_to_split: vec![3],
    };
    assert!(partition.is_wf(4));
    assert!(!partition.is_wf(3));
    assert!(!partition.is_wf(2));
    assert!(all_below(&vec![0, 4, 2], 5));
    assert!(!all_below(&vec![0, 5, 2], 5));
    assert!(all_below(&Vec::new(), 0));
}

#[test]
fn scaling_max_is_the_largest_of_the_three() {
    let measure = |scaling: [i64; 3]| PointMeasure {
        opacity: 0,
        position_2d_grad_norm_mean: 0,
        scaling,
    };
    assert_eq!(measure([1, 2, 3]).scaling_max(), 3);
    assert_eq!(measure([3, 2, 1]).scaling_max(), 3);
    assert_eq!(measure([1, 3, 2]).scaling_max(), 3);
    assert_eq!(measure([-5, -3, -4]).scaling_max(), -3);
    assert_eq!(measure([7, 7, 7]).scaling_max(), 7);
}

#[test]
fn measures_above_a_threshold_set_the_flag() {
    let thresholds =
        DensityThresholds { opacity: 10, position_2d_grad_norm: 20, scaling: 30, scaling_huge: 300 };
    let at = PointMeasure { opacity: 10, position_2d_grad_norm_mean: 20, scaling: [30, 30, 30] };
    assert_eq!(
        at.flags(&thresholds),
        PointFlags {
            is_opaque: false,
            is_large: false,
            is_huge: false,
            is_under_reconstructed: false
        }
    );
    let above = PointMeasure { opacity: 11, position_2d_grad_norm_mean: 21, scaling: [0, 31, 0] };
    assert_eq!(
        above.flags(&thresholds),
        PointFlags { is_opaque: true, is_large: true, is_huge: false, is_under_reconstructed: true }
    );
    let huge = PointMeasure { opacity: 11, position_2d_grad_norm_mean: 0, scaling: [0, 0, 301] };
    assert_eq!(
        huge.flags(&thresholds),
        PointFlags { is_opaque: true, is_large: true, is_huge: true, is_under_reconstructed: false }
    );
}

#[test]
fn points_up_to_the_opacity_threshold_are_pruned() {
    let thresholds =
        DensityThresholds { opacity: 10, position_2d_grad_norm: 20, scaling: 30, scaling_huge: 300 };
    let mut measures = Vec::new();
    for opacity in [9, 10, 11] {
        for position_2d_grad_norm_mean in [20, 21] {
            for scaling in [30, 31, 301] {
                measures.push(PointMeasure {
                    opacity,
                    position_2d_grad_norm_mean,
                    scaling: [scaling, 0, 0],
                });
            }
        }
    }
    let flags = classify(&measures, &thresholds);
    assert_eq!(flags.len(), measures.len());
    let partition = Partition::new(&flags);
    for (index, measure) in measures.iter().enumerate() {
        assert_eq!(flags[index], measure.flags(&thresholds));
        if measure.opacity <= thresholds.opacity {
            assert!(!partition.args_to_retain.contains(&index));
            assert!(!partition.args_to_clone.contains(&index));
            assert!(!partition.args_to_split.contains(&index));
        }
    }
    assert_eq!(partition.args_to_retain, vec![12, 13, 15]);
    assert_eq!(partition.args_to_clone, vec![15]);
    assert_eq!(partition.args_to_split, vec![16, 17]);
}
