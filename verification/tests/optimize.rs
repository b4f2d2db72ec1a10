use gausplat_trainer::optimize::adam::{Adam, AdamConfig, AdamState};
use gausplat_trainer::optimize::learning_rate::{LearningRate, LearningRateRecord};

fn optimize_adam_config() -> AdamConfig<f64> {
    AdamConfig::new(0.9, 0.999, 1e-15)
}

#[test]
fn adam_config_new_has_no_weight_decay() {
    let config = optimize_adam_config();
    assert_eq!(
        config,
        AdamConfig { beta_1: 0.9, beta_2: 0.999, epsilon: 1e-15, weight_decay: None }
    );
}

#[test]
fn adam_config_builders_change_one_field() {
    let config = optimize_adam_config()
        .with_epsilon(1e-8)
        .with_beta_1(0.8)
        .with_beta_2(0.99)
        .with_weight_decay(Some(0.5));
    assert_eq!(
        config,
        AdamConfig { beta_1: 0.8, beta_2: 0.99, epsilon: 1e-8, weight_decay: Some(0.5) }
    );
    assert_eq!(config.with_weight_decay(None).weight_decay, None);
}

#[test]
fn adam_init_has_taken_no_step() {
    let adam: Adam<f32, f64, 3> = optimize_adam_config().init();
    assert_eq!(adam.config, optimize_adam_config());
    assert_eq!(adam.record, None);
    assert_eq!(adam.time(), 0);
    assert!(adam.is_wf(0));
    assert!(adam.is_wf(17));
}

#[test]
fn adam_update_counts_steps_from_one() {
    let mut adam: Adam<f32, f64, 2> = optimize_adam_config().init();
    adam.update(vec![[0.1, 0.2]], vec![[0.01, 0.04]]);
    assert_eq!(
        adam.record,
        Some(AdamState { moment_1: vec![[0.1, 0.2]], moment_2: vec![[0.01, 0.04]], time: 1 })
    );
    assert_eq!(adam.time(), 1);

    adam.update(vec![[0.3, 0.4]], vec![[0.09, 0.16]]);
    assert_eq!(
        adam.record,
        Some(AdamState { moment_1: vec![[0.3, 0.4]], moment_2: vec![[0.09, 0.16]], time: 2 })
    );
    assert_eq!(adam.config, optimize_adam_config());
    assert!(adam.is_wf(1));
    assert!(!adam.is_wf(2));
}

#[test]
fn adam_rebuild_keeps_retained_rows_and_adds_zero_rows() {
    let mut adam: Adam<f32, f64, 2> = optimize_adam_config().init();
    adam.load_record(Some(AdamState {
        moment_1: vec![[1.0, 1.5], [2.0, 2.5], [3.0, 3.5], [4.0, 4.5]],
        moment_2: vec![[10.0, 10.5], [20.0, 20.5], [30.0, 30.5], [40.0, 40.5]],
        time: 7,
    }));
    adam.rebuild(&vec![1, 2], 3, 0.0);
    assert_eq!(
        adam.record,
        Some(AdamState {
            moment_1: vec![[2.0, 2.5], [3.0, 3.5], [0.0, 0.0], [0.0, 0.0], [0.0, 0.0]],
            moment_2: vec![[20.0, 20.5], [30.0, 30.5], [0.0, 0.0], [0.0, 0.0], [0.0, 0.0]],
            time: 7,
        })
    );
    assert!(adam.is_wf(5));
}

#[test]
fn adam_rebuild_without_a_record_changes_nothing() {
    let mut adam: Adam<f32, f64, 2> = optimize_adam_config().init();
    adam.rebuild(&vec![1, 2], 3, 0.0);
    assert_eq!(adam.record, None);
    assert_eq!(adam.config, optimize_adam_config());
}

#[test]
fn adam_state_mismatch_reports_the_first_buffer() {
    let state: AdamState<f32, 1> = AdamState {
        moment_1: vec![[1.0], [2.0]],
        moment_2: vec![[1.0], [2.0], [3.0]],
        time: 1,
    };
    assert_eq!(state.mismatch(2), Some(3));
    assert_eq!(state.mismatch(3), Some(2));
    assert_eq!(state.mismatch(4), Some(2));
    assert!(!state.is_wf(2));
    let state: AdamState<f32, 1> =
        AdamState { moment_1: vec![[1.0]], moment_2: vec![[2.0]], time: 1 };
    assert_eq!(state.mismatch(1), None);
    assert!(state.is_wf(1));
}

#[test]
fn adam_record_round_trip() {
    let state: AdamState<f32, 1> =
        AdamState { moment_1: vec![[1.0]], moment_2: vec![[2.0]], time: 3 };
    let mut adam: Adam<f32, f64, 1> = optimize_adam_config().init();
    adam.load_record(Some(state.clone()));
    assert_eq!(adam.time(), 3);
    assert_eq!(adam.into_record(), Some(state));
}

#[test]
fn learning_rate_new_starts_at_start() {
    let rate = LearningRate::new(1.6e-4, 0.5, 1.6e-6);
    assert_eq!(rate.decay, 0.5);
    assert_eq!(rate.end, 1.6e-6);
    assert_eq!(rate.record, LearningRateRecord { current: 1.6e-4 });
    assert_eq!(rate.current(), 1.6e-4);
}

#[test]
fn learning_rate_update_changes_the_current_value_only() {
    let mut rate = LearningRate::new(1.6e-4, 0.5, 1.6e-6);
    rate.update(0.8e-4);
    assert_eq!(rate.current(), 0.8e-4);
    assert_eq!(rate.decay, 0.5);
    assert_eq!(rate.end, 1.6e-6);
}

#[test]
fn learning_rate_record_round_trip() {
    let mut rate = LearningRate::new(1e-3, 1.0, 0.0);
    rate.load_record(LearningRateRecord { current: 5e-4 });
    assert_eq!(rate.current(), 5e-4);
    assert_eq!(rate.decay, 1.0);
    assert_eq!(rate.end, 0.0);
    assert_eq!(rate.to_record(), LearningRateRecord { current: 5e-4 });
    assert_eq!(rate.into_record(), LearningRateRecord { current: 5e-4 });
}
