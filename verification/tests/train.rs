use gausplat_trainer::error::Error;
use gausplat_trainer::metric::{MeanAbsoluteError, MeanSquareError};
use gausplat_trainer::optimize::adam::{AdamConfig, AdamState};
use gausplat_trainer::optimize::learning_rate::{LearningRate, LearningRateRecord};
use gausplat_trainer::range::RangeOptions;
use gausplat_trainer::render::Gaussian3dRenderOptions;
use gausplat_trainer::scene::Gaussian3dScene;
use gausplat_trainer::train::gaussian_3d::config::Gaussian3dTrainerConfig;
use gausplat_trainer::train::gaussian_3d::partition::{Partition, PointFlags};
use gausplat_trainer::train::gaussian_3d::refine::{Densification, RefinerConfig, RefinerState};
use gausplat_trainer::train::gaussian_3d::optimize::{Gaussian3dUpdate, ParamUpdate};
use gausplat_trainer::train::gaussian_3d::{Gaussian3dStep, Gaussian3dTrainer};

fn train_config() -> Gaussian3dTrainerConfig<f64> {
    Gaussian3dTrainerConfig {
        learning_rate_colors_sh: LearningRate::new(1e-3, 1.0, 0.0),
        learning_rate_opacities: LearningRate::new(3.5e-2, 1.0, 0.0),
        learning_rate_positions: LearningRate::new(1.6e-4, 0.5, 1.6e-6),
        learning_rate_rotations: LearningRate::new(1e-3, 1.0, 0.0),
        learning_rate_scalings: LearningRate::new(5e-3, 1.0, 0.0),
        optimizer_adam: AdamConfig::new(0.9, 0.999, 1e-15),
        options_renderer: Gaussian3dRenderOptions::new(0),
        range_metric_optimization_fine: RangeOptions::default_with_step(2),
        refiner: RefinerConfig::new(10.0, 1.4 / 255.0, 2e-4, 6e-2),
    }
}

fn train_scene(point_count: usize) -> Gaussian3dScene<f32> {
    let mut colors_sh = Vec::new();
    let mut opacities = Vec::new();
    let mut positions = Vec::new();
    let mut rotations = Vec::new();
    let mut scalings = Vec::new();
    for index in 0..point_count {
        let x = index as f32;
        colors_sh.push([x + 0.5; 48]);
        opacities.push([x + 0.1]);
        positions.push([x, x + 1.0, x + 2.0]);
        rotations.push([0.0, 0.0, 0.0, x]);
        scalings.push([x * 2.0, x * 3.0, x * 4.0]);
    }
    Gaussian3dScene { colors_sh, opacities, positions, rotations, scalings }
}

fn train_param_update<const N: usize>(point_count: usize, seed: f32) -> ParamUpdate<f32, f64, N> {
    ParamUpdate {
        value: (0..point_count).map(|i| [seed + i as f32; N]).collect(),
        moment_1: (0..point_count).map(|i| [seed * 2.0 + i as f32; N]).collect(),
        moment_2: (0..point_count).map(|i| [seed * 3.0 + i as f32; N]).collect(),
        learning_rate: seed as f64 / 1000.0,
    }
}

fn train_trainer() -> Gaussian3dTrainer<f32, f64> {
    train_config().init().unwrap()
}

fn train_flags(
    is_opaque: bool,
    is_under_reconstructed: bool,
    is_large: bool,
    is_huge: bool,
) -> PointFlags {
    PointFlags { is_opaque, is_large, is_huge, is_under_reconstructed }
}

#[test]
fn metrics_init() {
    assert_eq!(MeanAbsoluteError::init(), MeanAbsoluteError);
    assert_eq!(MeanSquareError::init(), MeanSquareError);
}

#[test]
fn trainer_init_starts_at_iteration_zero_without_records() {
    let config = train_config();
    let trainer: Gaussian3dTrainer<f32, f64> = config.init().unwrap();
    assert_eq!(trainer.iteration, 0);
    assert_eq!(trainer.learning_rate_positions, config.learning_rate_positions);
    assert_eq!(trainer.learning_rate_colors_sh, config.learning_rate_colors_sh);
    assert_eq!(trainer.optimizer_colors_sh.record, None);
    assert_eq!(trainer.optimizer_opacities.record, None);
    assert_eq!(trainer.optimizer_positions.record, None);
    assert_eq!(trainer.optimizer_rotations.record, None);
    assert_eq!(trainer.optimizer_scalings.record, None);
    assert_eq!(trainer.optimizer_scalings.config, config.optimizer_adam);
    assert_eq!(trainer.options_renderer, Gaussian3dRenderOptions::new(0));
    assert_eq!(trainer.range_metric_optimization_fine, RangeOptions::default_with_step(2));
    assert_eq!(trainer.refiner.config, config.refiner);
    assert_eq!(trainer.refiner.record, None);
    assert!(trainer.is_wf());
    assert!(trainer.is_fit(0));
    assert!(trainer.is_fit(12));
}

#[test]
fn trainer_init_refuses_a_degree_above_the_highest() {
    let mut config = train_config();
    config.options_renderer = Gaussian3dRenderOptions::new(4);
    config.range_metric_optimization_fine = RangeOptions::new(9, 1, 2);
    assert_eq!(config.init::<f32>(), Err(Error::InvalidColorsShDegree(4, 3)));
    config.options_renderer = Gaussian3dRenderOptions::new(3);
    config.range_metric_optimization_fine = RangeOptions::default_with_step(2);
    assert!(config.init::<f32>().is_ok());
}

#[test]
fn trainer_init_refuses_ranges_in_their_order() {
    let mut config = train_config();
    config.range_metric_optimization_fine = RangeOptions::new(9, 1, 2);
    config.refiner.range_densification = RangeOptions::new(8, 1, 2);
    config.refiner.range_increasing_colors_sh_degree_max = RangeOptions::new(7, 1, 2);
    assert_eq!(config.init::<f32>(), Err(Error::InvalidRange(RangeOptions::new(9, 1, 2))));
    config.range_metric_optimization_fine = RangeOptions::default();
    assert_eq!(config.init::<f32>(), Err(Error::InvalidRange(RangeOptions::new(8, 1, 2))));
    config.refiner.range_densification = RangeOptions::default();
    assert_eq!(config.init::<f32>(), Err(Error::InvalidRange(RangeOptions::new(7, 1, 2))));
    config.refiner.range_increasing_colors_sh_degree_max = RangeOptions::new(1, 9, 0);
    assert_eq!(config.init::<f32>(), Err(Error::InvalidRange(RangeOptions::new(1, 9, 0))));
}

#[test]
fn fine_metric_is_due_every_second_iteration() {
    let trainer = train_trainer();
    assert!(trainer.has_metric_optimization_fine(0));
    assert!(!trainer.has_metric_optimization_fine(1));
    assert!(trainer.has_metric_optimization_fine(2));
    assert!(!trainer.has_metric_optimization_fine(7001));
}

#[test]
fn optimize_changes_the_groups_that_have_an_update() {
    let mut trainer = train_trainer();
    let mut scene = train_scene(2);
    let before = scene.clone();
    let update = Gaussian3dUpdate {
        colors_sh: None,
        opacities: Some(train_param_update(2, 5.0)),
        positions: Some(train_param_update(2, 7.0)),
        rotations: None,
        scalings: None,
    };
    assert!(update.can_apply(&trainer, 2));
    trainer.optimize(&mut scene, update);

    assert_eq!(scene.opacities, vec![[5.0], [6.0]]);
    assert_eq!(scene.positions, vec![[7.0; 3], [8.0; 3]]);
    assert_eq!(
        trainer.optimizer_opacities.record,
        Some(AdamState { moment_1: vec![[10.0], [11.0]], moment_2: vec![[15.0], [16.0]], time: 1 })
    );
    assert_eq!(
        trainer.optimizer_positions.record,
        Some(AdamState {
            moment_1: vec![[14.0; 3], [15.0; 3]],
            moment_2: vec![[21.0; 3], [22.0; 3]],
            time: 1
        })
    );
    assert_eq!(trainer.learning_rate_opacities, LearningRate::new(5.0 / 1000.0, 1.0, 0.0));
    assert_eq!(trainer.learning_rate_positions, LearningRate::new(7.0 / 1000.0, 0.5, 1.6e-6));

    // The groups without an update stay as they were.
    assert_eq!(scene.colors_sh, before.colors_sh);
    assert_eq!(scene.rotations, before.rotations);
    assert_eq!(scene.scalings, before.scalings);
    assert_eq!(trainer.optimizer_colors_sh.record, None);
    assert_eq!(trainer.optimizer_rotations.record, None);
    assert_eq!(trainer.optimizer_scalings.record, None);
    assert_eq!(trainer.learning_rate_colors_sh, train_config().learning_rate_colors_sh);
    assert_eq!(trainer.learning_rate_rotations, train_config().learning_rate_rotations);
    assert_eq!(trainer.learning_rate_scalings, train_config().learning_rate_scalings);
    assert_eq!(trainer.iteration, 0);
}

#[test]
fn optimize_without_gradients_changes_nothing() {
    let mut trainer = train_trainer();
    let mut scene = train_scene(3);
    let first = Gaussian3dUpdate {
        colors_sh: Some(train_param_update(3, 1.0)),
        opacities: Some(train_param_update(3, 2.0)),
        positions: Some(train_param_update(3, 3.0)),
        rotations: Some(train_param_update(3, 4.0)),
        scalings: Some(train_param_update(3, 5.0)),
    };
    trainer.optimize(&mut scene, first);
    let trainer_before = trainer.clone();
    let scene_before = scene.clone();

    trainer.optimize(&mut scene, Gaussian3dUpdate::empty());
    assert_eq!(trainer, trainer_before);
    assert_eq!(scene, scene_before);
}

#[test]
fn optimize_counts_the_steps_of_each_group() {
    let mut trainer = train_trainer();
    let mut scene = train_scene(1);
    for seed in 1..4 {
        let update = Gaussian3dUpdate {
            colors_sh: None,
            opacities: None,
            positions: Some(train_param_update(1, seed as f32)),
            rotations: if seed == 2 { Some(train_param_update(1, 9.0)) } else { None },
            scalings: None,
        };
        trainer.optimize(&mut scene, update);
    }
    assert_eq!(trainer.optimizer_positions.time(), 3);
    assert_eq!(trainer.optimizer_rotations.time(), 1);
    assert_eq!(trainer.optimizer_scalings.time(), 0);
    assert_eq!(scene.positions, vec![[3.0; 3]]);
    assert_eq!(scene.rotations, vec![[9.0; 4]]);
}

#[test]
fn update_can_apply_checks_rows_and_step_count() {
    let mut trainer = train_trainer();
    let mut update: Gaussian3dUpdate<f32, f64> = Gaussian3dUpdate::empty();
    assert!(update.can_apply(&trainer, 2));
    update.scalings = Some(train_param_update(2, 1.0));
    assert!(update.can_apply(&trainer, 2));
    assert!(!update.can_apply(&trainer, 3));
    trainer.optimizer_scalings.load_record(Some(AdamState {
        moment_1: vec![[0.0; 3]; 2],
        moment_2: vec![[0.0; 3]; 2],
        time: i32::MAX,
    }));
    assert!(!update.can_apply(&trainer, 2));
    let mut short = train_param_update::<3>(2, 1.0);
    short.moment_2.pop();
    assert!(!short.is_wf(2));
    assert!(train_param_update::<3>(2, 1.0).is_wf(2));
}

#[test]
fn refine_without_a_gradient_changes_nothing() {
    let mut trainer = train_trainer();
    trainer.iteration = 1000;
    let before = trainer.clone();
    let due = trainer.refine(&vec![1, 0], None, 0.0);
    assert!(!due);
    assert_eq!(trainer, before);
}

#[test]
fn refine_records_the_render_and_follows_the_schedules() {
    let mut trainer = train_trainer();
    trainer.iteration = 499;
    assert!(!trainer.refine(&vec![1, 0], Some(vec![0.5, 0.25]), 0.0));
    assert_eq!(
        trainer.refiner.record,
        Some(RefinerState { positions_2d_grad_norm_sum: vec![0.5, 0.0], time: vec![2, 1] })
    );
    assert_eq!(trainer.options_renderer.colors_sh_degree_max, 0);

    trainer.iteration = 500;
    assert!(trainer.refine(&vec![1, 7], Some(vec![1.5, 0.75]), 0.0));
    assert_eq!(
        trainer.refiner.record,
        Some(RefinerState { positions_2d_grad_norm_sum: vec![1.5, 0.75], time: vec![3, 2] })
    );
    assert_eq!(trainer.options_renderer.colors_sh_degree_max, 0);

    trainer.iteration = 1000;
    assert!(trainer.refine(&vec![0, 0], Some(vec![9.0, 9.0]), 0.0));
    assert_eq!(trainer.options_renderer.colors_sh_degree_max, 1);
    assert_eq!(
        trainer.refiner.record,
        Some(RefinerState { positions_2d_grad_norm_sum: vec![1.5, 0.75], time: vec![3, 2] })
    );

    trainer.iteration = 15000;
    assert!(!trainer.refine(&vec![0, 0], Some(vec![9.0, 9.0]), 0.0));
    assert_eq!(trainer.options_renderer.colors_sh_degree_max, 1);
}

#[test]
fn colour_degree_rises_by_one_at_each_iteration_of_its_range() {
    let mut trainer = train_trainer();
    let mut degrees = Vec::new();
    for iteration in [999, 1000, 1001, 2000, 3000, 4000, 5000] {
        trainer.iteration = iteration;
        trainer.refine(&vec![0], Some(vec![0.0]), 0.0);
        degrees.push(trainer.options_renderer.colors_sh_degree_max);
    }
    assert_eq!(degrees, vec![0, 1, 1, 2, 3, 3, 3]);
}

#[test]
fn densify_outside_its_range_changes_nothing() {
    let mut trainer = train_trainer();
    let mut scene = train_scene(2);
    trainer.iteration = 550;
    trainer.refine(&vec![1, 1], Some(vec![0.5, 0.5]), 0.0);
    let trainer_before = trainer.clone();
    let scene_before = scene.clone();
    let flags = vec![train_flags(true, true, true, false), train_flags(false, false, false, false)];
    assert_eq!(trainer.densify(&mut scene, &flags, 0.0), None);
    assert_eq!(trainer, trainer_before);
    assert_eq!(scene, scene_before);
}

#[test]
fn densify_four_points_into_five() {
    let mut trainer = train_trainer();
    let mut scene = train_scene(4);
    let before = scene.clone();
    trainer.iteration = 499;
    trainer.optimize(
        &mut scene,
        Gaussian3dUpdate {
            colors_sh: None,
            opacities: None,
            positions: Some(ParamUpdate {
                value: before.positions.clone(),
                moment_1: vec![[1.0; 3], [2.0; 3], [3.0; 3], [4.0; 3]],
                moment_2: vec![[10.0; 3], [20.0; 3], [30.0; 3], [40.0; 3]],
                learning_rate: 1.6e-4,
            }),
            rotations: None,
            scalings: None,
        },
    );
    trainer.iteration = 500;
    assert!(trainer.refine(&vec![1, 1, 0, 1], Some(vec![0.5; 4]), 0.0));
    assert!(trainer.is_fit(4));

    let flags = vec![
        train_flags(true, true, true, false),
        train_flags(true, true, false, false),
        train_flags(true, false, false, false),
        train_flags(false, false, false, false),
    ];
    let done = trainer.densify(&mut scene, &flags, 0.0).unwrap();
    assert_eq!(
        done,
        Densification {
            partition: Partition {
                args_to_retain: vec![1, 2],
                args_to_clone: vec![1],
                args_to_split: vec![0],
            },
            point_count: 4,
            point_count_retained: 2,
            point_count_cloned: 1,
            point_count_splitted: 2,
            point_count_new: 5,
        }
    );

    // 1 retained + 2 for the cloned point + 2 for the split point
    assert_eq!(scene.point_count(), 5);
    assert!(scene.is_wf());
    let order = [1usize, 2, 1, 0, 0];
    for (row, from) in order.iter().enumerate() {
        assert_eq!(scene.colors_sh[row], before.colors_sh[*from]);
        assert_eq!(scene.opacities[row], before.opacities[*from]);
        assert_eq!(scene.positions[row], before.positions[*from]);
        assert_eq!(scene.rotations[row], before.rotations[*from]);
        assert_eq!(scene.scalings[row], before.scalings[*from]);
    }

    // The moments of the retained rows stay, the others are zero.
    assert_eq!(
        trainer.optimizer_positions.record,
        Some(AdamState {
            moment_1: vec![[2.0; 3], [3.0; 3], [0.0; 3], [0.0; 3], [0.0; 3]],
            moment_2: vec![[20.0; 3], [30.0; 3], [0.0; 3], [0.0; 3], [0.0; 3]],
            time: 1,
        })
    );
    assert_eq!(trainer.optimizer_colors_sh.record, None);
    assert_eq!(trainer.optimizer_scalings.record, None);

    // The statistics start anew.
    assert_eq!(
        trainer.refiner.record,
        Some(RefinerState { positions_2d_grad_norm_sum: vec![0.0; 5], time: vec![1; 5] })
    );
    assert!(trainer.is_fit(5));
    assert!(!trainer.is_fit(4));
    assert_eq!(trainer.iteration, 500);
    assert_eq!(trainer.learning_rate_positions.current(), 1.6e-4);
}

#[test]
fn densify_can_leave_no_point() {
    let mut trainer = train_trainer();
    let mut scene = train_scene(2);
    trainer.iteration = 600;
    let flags = vec![train_flags(false, true, true, false), train_flags(false, false, false, false)];
    let done = trainer.densify(&mut scene, &flags, 0.0).unwrap();
    assert!(done.partition.args_to_retain.is_empty());
    assert!(done.partition.args_to_clone.is_empty());
    assert!(done.partition.args_to_split.is_empty());
    assert_eq!(done.point_count, 2);
    assert_eq!(done.point_count_new, 0);
    assert_eq!(scene.point_count(), 0);
    assert!(scene.is_wf());
    assert_eq!(
        trainer.refiner.record,
        Some(RefinerState { positions_2d_grad_norm_sum: Vec::new(), time: Vec::new() })
    );
}

#[test]
fn train_without_a_step_counts_the_iteration_only() {
    let mut trainer = train_trainer();
    let mut scene = train_scene(2);
    trainer.iteration = 999;
    let mut expected = trainer.clone();
    expected.iteration = 1000;
    let scene_before = scene.clone();
    assert!(!trainer.train(&mut scene, None, 0.0));
    assert_eq!(trainer, expected);
    assert_eq!(scene, scene_before);
}

#[test]
fn train_with_a_step_optimizes_and_refines() {
    let mut trainer = train_trainer();
    let mut scene = train_scene(2);
    trainer.iteration = 999;
    let step = Gaussian3dStep {
        update: Gaussian3dUpdate {
            colors_sh: None,
            opacities: None,
            positions: Some(train_param_update(2, 4.0)),
            rotations: None,
            scalings: None,
        },
        radii: vec![0, 3],
        positions_2d_grad_norm_sum: vec![0.25, 0.75],
    };
    assert!(step.can_apply(&trainer, 2));
    assert!(!step.can_apply(&trainer, 3));
    let due = trainer.train(&mut scene, Some(step), 0.0);

    assert!(due);
    assert_eq!(trainer.iteration, 1000);
    assert_eq!(scene.positions, vec![[4.0; 3], [5.0; 3]]);
    assert_eq!(trainer.optimizer_positions.time(), 1);
    assert_eq!(trainer.learning_rate_positions.current(), 4.0 / 1000.0);
    assert_eq!(
        trainer.refiner.record,
        Some(RefinerState { positions_2d_grad_norm_sum: vec![0.0, 0.75], time: vec![1, 2] })
    );
    assert_eq!(trainer.options_renderer.colors_sh_degree_max, 1);
    assert_eq!(scene.opacities, train_scene(2).opacities);
}

#[test]
fn trainer_record_round_trip() {
    let mut trainer = train_trainer();
    let mut scene = train_scene(2);
    trainer.iteration = 1999;
    let step = Gaussian3dStep {
        update: Gaussian3dUpdate {
            colors_sh: Some(train_param_update(2, 1.0)),
            opacities: None,
            positions: Some(train_param_update(2, 4.0)),
            rotations: None,
            scalings: Some(train_param_update(2, 6.0)),
        },
        radii: vec![2, 3],
        positions_2d_grad_norm_sum: vec![0.25, 0.75],
    };
    trainer.train(&mut scene, Some(step), 0.0);
    let expected = trainer.clone();

    let record = trainer.into_record();
    assert_eq!(record.iteration, 2000);
    assert_eq!(record.options_renderer.colors_sh_degree_max, 1);
    assert_eq!(record.learning_rate_positions, LearningRateRecord { current: 4.0 / 1000.0 });

    let mut loaded = train_trainer();
    assert_eq!(loaded.load_record(record, 2), Ok(()));
    assert_eq!(loaded, expected);
}

#[test]
fn load_record_refuses_another_point_count() {
    let mut trainer = train_trainer();
    let mut scene = train_scene(2);
    trainer.train(
        &mut scene,
        Some(Gaussian3dStep {
            update: Gaussian3dUpdate {
                colors_sh: None,
                opacities: None,
                positions: Some(train_param_update(2, 4.0)),
                rotations: None,
                scalings: None,
            },
            radii: vec![2, 3],
            positions_2d_grad_norm_sum: vec![0.25, 0.75],
        }),
        0.0,
    );
    let record = trainer.into_record();
    assert_eq!(record.mismatch(2), None);
    assert_eq!(record.mismatch(3), Some(2));
    assert_eq!(record.check(2), Ok(()));

    let mut fresh = train_trainer();
    let before = fresh.clone();
    assert_eq!(
        fresh.load_record(record.clone(), 3),
        Err(Error::MismatchedTensorShape(vec![2], vec![3]))
    );
    assert_eq!(fresh, before);

    let mut uneven = record.clone();
    uneven.refiner = Some(RefinerState { positions_2d_grad_norm_sum: vec![0.0; 2], time: vec![1; 5] });
    assert_eq!(
        fresh.load_record(uneven, 2),
        Err(Error::MismatchedTensorShape(vec![5], vec![2]))
    );
    assert_eq!(fresh, before);
}

#[test]
fn load_record_refuses_a_degree_above_the_highest() {
    let mut record = train_trainer().into_record();
    record.options_renderer = Gaussian3dRenderOptions::new(9);
    record.refiner = Some(RefinerState { positions_2d_grad_norm_sum: vec![0.0; 1], time: vec![1; 1] });
    let mut trainer = train_trainer();
    let before = trainer.clone();
    assert_eq!(trainer.load_record(record, 4), Err(Error::InvalidColorsShDegree(9, 3)));
    assert_eq!(trainer, before);
}

#[test]
fn load_record_raises_counts_of_zero_to_one() {
    let mut record = train_trainer().into_record();
    record.refiner =
        Some(RefinerState { positions_2d_grad_norm_sum: vec![0.5, 1.5, 2.5], time: vec![0, 4, 0] });
    let mut trainer = train_trainer();
    assert!(trainer.is_fit(3));
    assert_eq!(trainer.load_record(record, 3), Ok(()));
    assert_eq!(
        trainer.refiner.record,
        Some(RefinerState { positions_2d_grad_norm_sum: vec![0.5, 1.5, 2.5], time: vec![1, 4, 1] })
    );
    assert!(trainer.is_fit(3));
}

#[test]
fn trainer_is_fit_wants_every_point_counted() {
    let mut trainer = train_trainer();
    trainer.refiner.record =
        Some(RefinerState { positions_2d_grad_norm_sum: vec![0.0; 2], time: vec![1, 0] });
    assert!(!trainer.is_fit(2));
    trainer.refiner.record =
        Some(RefinerState { positions_2d_grad_norm_sum: vec![0.0; 2], time: vec![1, 1] });
    assert!(trainer.is_fit(2));
    assert!(!trainer.is_fit(1));
}
