use neuron_layer::neuron::{Activation, LayerError, LossFunction, NeuronLayer};

fn bits(values: &[f64]) -> Vec<u64> {
    values.iter().map(|v| v.to_bits()).collect()
}

fn grid(rows: &[&[f64]]) -> Vec<Vec<u64>> {
    rows.iter().map(|row| bits(row)).collect()
}

#[test]
fn layer_construction_accepts_matching_dims() {
    let layer = NeuronLayer::new(
        grid(&[&[1.0, 2.0]]),
        bits(&[0.0]),
        Activation::Sigmoid,
        LossFunction::SquaredError,
    );
    assert!(layer.is_ok());
}

#[test]
fn layer_construction_rejects_ragged_weights() {
    let layer = NeuronLayer::new(
        grid(&[&[1.0, 2.0], &[3.0]]),
        bits(&[0.0, 0.0]),
        Activation::Sigmoid,
        LossFunction::SquaredError,
    );
    assert_eq!(layer.unwrap_err(), LayerError::DimensionMismatch);
}

#[test]
fn layer_construction_rejects_bias_mismatch() {
    let layer = NeuronLayer::new(
        grid(&[&[1.0, 2.0]]),
        bits(&[0.0, 0.0]),
        Activation::Sigmoid,
        LossFunction::SquaredError,
    );
    assert_eq!(layer.unwrap_err(), LayerError::DimensionMismatch);
}

#[test]
fn empty_layer_is_accepted_with_zero_dims() {
    let layer = NeuronLayer::new(
        Vec::new(),
        Vec::new(),
        Activation::RectifiedLinearUnit,
        LossFunction::SquaredError,
    )
    .unwrap();
    assert_eq!(layer.input_dim(), 0);
    assert_eq!(layer.output_dim(), 0);
}

#[test]
fn dims_report_rows_and_columns() {
    let layer = NeuronLayer::new(
        grid(&[&[1.0, 2.0], &[3.0, 4.0], &[5.0, 6.0]]),
        bits(&[0.5, 0.5, 0.5]),
        Activation::Softplus,
        LossFunction::SquaredError,
    )
    .unwrap();
    assert_eq!(layer.input_dim(), 2);
    assert_eq!(layer.output_dim(), 3);
}

#[test]
fn getters_return_what_was_given() {
    let weights = grid(&[&[1.0, 2.0]]);
    let bias_v = bits(&[0.25]);
    let layer = NeuronLayer::new(
        weights.clone(),
        bias_v.clone(),
        Activation::Sigmoid,
        LossFunction::CrossEntropy,
    )
    .unwrap();
    assert_eq!(layer.weights(), &weights);
    assert_eq!(layer.bias(), &bias_v);
    assert_eq!(layer.activation(), Activation::Sigmoid);
    assert_eq!(layer.loss(), LossFunction::CrossEntropy);
    assert!(layer.is_well_formed());
}

#[test]
fn set_weights_replaces_entries() {
    let mut layer = NeuronLayer::new(
        grid(&[&[1.0, 2.0]]),
        bits(&[0.0]),
        Activation::Sigmoid,
        LossFunction::SquaredError,
    )
    .unwrap();
    let descended = grid(&[&[0.9, 1.8]]);
    assert!(layer.set_weights(descended.clone()).is_ok());
    assert_eq!(layer.weights(), &descended);
    assert_eq!(layer.bias(), &bits(&[0.0]));
    assert!(layer.is_well_formed());
}

#[test]
fn set_weights_rejects_wrong_row_count() {
    let mut layer = NeuronLayer::new(
        grid(&[&[1.0, 2.0]]),
        bits(&[0.0]),
        Activation::Sigmoid,
        LossFunction::SquaredError,
    )
    .unwrap();
    let r = layer.set_weights(grid(&[&[0.9, 1.8], &[0.7, 0.6]]));
    assert_eq!(r.unwrap_err(), LayerError::DimensionMismatch);
    assert_eq!(layer.weights(), &grid(&[&[1.0, 2.0]]));
}

#[test]
fn set_weights_rejects_wrong_column_count() {
    let mut layer = NeuronLayer::new(
        grid(&[&[1.0, 2.0]]),
        bits(&[0.0]),
        Activation::Sigmoid,
        LossFunction::SquaredError,
    )
    .unwrap();
    let r = layer.set_weights(grid(&[&[0.9]]));
    assert_eq!(r.unwrap_err(), LayerError::DimensionMismatch);
    assert_eq!(layer.weights(), &grid(&[&[1.0, 2.0]]));
}
