use minilearn::model::{
    engine_config, param_shapes, trainable_shapes, FitSchedule, FitStep, LossKind, ModelKind,
};

#[test]
fn gate_counts_match_the_variants() {
    assert_eq!(engine_config(ModelKind::Linear).gates, 0);
    assert_eq!(engine_config(ModelKind::Feedforward).gates, 0);
    assert_eq!(engine_config(ModelKind::SimpleRnn).gates, 1);
    assert_eq!(engine_config(ModelKind::Gru).gates, 3);
    assert_eq!(engine_config(ModelKind::Lstm).gates, 4);
}

#[test]
fn recurrent_variants_train_only_the_readout() {
    assert!(!engine_config(ModelKind::Linear).readout_only);
    assert!(!engine_config(ModelKind::Feedforward).readout_only);
    assert!(engine_config(ModelKind::SimpleRnn).readout_only);
    assert!(engine_config(ModelKind::Gru).readout_only);
    assert!(engine_config(ModelKind::Lstm).readout_only);
}

#[test]
fn losses_and_reporting_cadence_per_variant() {
    let linear = engine_config(ModelKind::Linear);
    assert_eq!(linear.loss, LossKind::CrossEntropy);
    assert_eq!(linear.report_interval, None);
    assert!(linear.sigmoid_readout);
    assert_eq!(engine_config(ModelKind::Feedforward).report_interval, Some(200));
    assert_eq!(engine_config(ModelKind::SimpleRnn).report_interval, Some(200));
    let gru = engine_config(ModelKind::Gru);
    assert_eq!(gru.loss, LossKind::SquaredError);
    assert_eq!(gru.report_interval, Some(100));
    assert!(!gru.sigmoid_readout);
    assert_eq!(engine_config(ModelKind::Lstm).report_interval, Some(100));
}

#[test]
fn a_linear_model_owns_a_weight_vector_and_a_scalar_bias() {
    assert_eq!(param_shapes(ModelKind::Linear, 5, 0), vec![(5, 1), (1, 1)]);
}

#[test]
fn feedforward_shapes_follow_input_and_hidden_size() {
    assert_eq!(
        param_shapes(ModelKind::Feedforward, 5, 10),
        vec![(5, 10), (1, 10), (10, 1), (1, 1)]
    );
}

#[test]
fn an_lstm_owns_four_gates_and_a_readout() {
    let shapes = param_shapes(ModelKind::Lstm, 1, 64);
    assert_eq!(shapes.len(), 14);
    assert_eq!(shapes[0], (1, 64));
    assert_eq!(shapes[1], (64, 64));
    assert_eq!(shapes[2], (1, 64));
    assert_eq!(shapes[12], (64, 1));
    assert_eq!(shapes[13], (1, 1));
    assert_eq!(trainable_shapes(ModelKind::Lstm, 1, 64), vec![(64, 1), (1, 1)]);
}

#[test]
fn gru_and_rnn_shape_counts() {
    assert_eq!(param_shapes(ModelKind::Gru, 1, 64).len(), 11);
    assert_eq!(param_shapes(ModelKind::SimpleRnn, 1, 32).len(), 5);
}

#[test]
fn the_fit_loop_runs_exactly_the_configured_epochs() {
    let mut schedule = FitSchedule::new(ModelKind::Feedforward, 5);
    let mut updates = 0;
    loop {
        match schedule.advance() {
            FitStep::Done => break,
            FitStep::Update { epoch, report } => {
                assert_eq!(epoch, updates);
                // Cadence 200: within five epochs only epoch 0 reports.
                assert_eq!(report, epoch == 0);
                updates += 1;
            }
        }
    }
    assert_eq!(updates, 5);
    assert!(matches!(schedule.advance(), FitStep::Done));
}

#[test]
fn the_gru_schedule_reports_every_hundred_epochs() {
    let mut schedule = FitSchedule::new(ModelKind::Gru, 250);
    let mut reported = Vec::new();
    loop {
        match schedule.advance() {
            FitStep::Done => break,
            FitStep::Update { epoch, report } => {
                if report {
                    reported.push(epoch);
                }
            }
        }
    }
    assert_eq!(reported, vec![0, 100, 200]);
}

#[test]
fn the_linear_schedule_never_reports() {
    let mut schedule = FitSchedule::new(ModelKind::Linear, 300);
    let mut updates = 0;
    while let FitStep::Update { report, .. } = schedule.advance() {
        assert!(!report);
        updates += 1;
    }
    assert_eq!(updates, 300);
}

#[test]
fn fully_trained_variants_update_every_parameter() {
    assert_eq!(
        trainable_shapes(ModelKind::Feedforward, 5, 10),
        param_shapes(ModelKind::Feedforward, 5, 10)
    );
}
