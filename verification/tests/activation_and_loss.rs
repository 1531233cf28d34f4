use burn::backend::Autodiff;
use burn::backend::NdArray;
use burn::tensor::Tensor;
use dcgan::cross_entropy_loss::cross_entropy_loss;
use dcgan::cross_entropy_loss::sample_terms;
use dcgan::leaky_relu::leaky_relu;
use dcgan::leaky_relu::POSITIVE_BRANCH_DENOMINATOR;
use dcgan::leaky_relu::POSITIVE_BRANCH_NUMERATOR;
use dcgan::models::ShapeMismatchError;
use dcgan::tensor::Tensor1;
use dcgan::tensor::Tensor4;

type Engine = Autodiff<NdArray>;

fn vector(values: &[f32]) -> Tensor1 {
    let device = Default::default();
    Tensor1 { inner: Tensor::<Engine, 1>::from_floats(values, &device) }
}

fn scalar(t: Tensor1) -> f32 {
    let values: Vec<f32> = t.inner.into_data().value;
    assert_eq!(values.len(), 1);
    values[0]
}

#[test]
fn leaky_relu_literal_rule() {
    let device = Default::default();
    let x = Tensor::<Engine, 1>::from_floats([-3.0, 3.0, 0.0, -0.5], &device).reshape([1, 1, 2, 2]);
    let y = leaky_relu(Tensor4 { inner: x });
    assert_eq!(y.inner.dims(), [1, 1, 2, 2]);
    let got: Vec<f32> = y.inner.into_data().value;
    let want = [-3.0f32, -0.6, 0.0, -0.5];
    for i in 0..4 {
        assert!((got[i] - want[i]).abs() < 1e-6, "{} against {}", got[i], want[i]);
    }
}

#[test]
fn leaky_relu_negative_three_and_three() {
    let device = Default::default();
    let x = Tensor::<Engine, 1>::from_floats([-3.0, 3.0], &device).reshape([2, 1, 1, 1]);
    let got: Vec<f32> = leaky_relu(Tensor4 { inner: x }).inner.into_data().value;
    assert_eq!(got[0], -3.0);
    assert!((got[1] - (-0.6)).abs() < 1e-6);
    assert_eq!(POSITIVE_BRANCH_NUMERATOR, -1);
    assert_eq!(POSITIVE_BRANCH_DENOMINATOR, 5);
}

#[test]
fn leaky_relu_keeps_every_extent() {
    let device = Default::default();
    let x = Tensor::<Engine, 4>::ones([2, 3, 5, 7], &device);
    let y = leaky_relu(Tensor4 { inner: x });
    assert_eq!(y.inner.dims(), [2, 3, 5, 7]);
    let got: Vec<f32> = y.inner.into_data().value;
    assert!(got.iter().all(|v| (*v - (-0.2)).abs() < 1e-6));
}

#[test]
fn adversarial_loss_of_uniform_half_is_ln_two() {
    let loss = cross_entropy_loss(vector(&[0.5, 0.5, 0.5, 0.5]), vector(&[0.5, 0.5, 0.5, 0.5])).unwrap();
    assert_eq!(loss.inner.dims(), [1]);
    assert!((scalar(loss) - 0.693_147_2).abs() < 1e-5);
}

#[test]
fn adversarial_loss_formula() {
    let loss = cross_entropy_loss(vector(&[1.0, 0.0]), vector(&[0.9, 0.2])).unwrap();
    let want = -((0.9f32).ln() + (0.8f32).ln()) / 2.0;
    assert!((scalar(loss) - want).abs() < 1e-6);
    let single = cross_entropy_loss(vector(&[0.25]), vector(&[0.75])).unwrap();
    let want = -(0.25 * (0.75f32).ln() + 0.75 * (0.25f32).ln());
    assert!((scalar(single) - want).abs() < 1e-6);
}

#[test]
fn adversarial_loss_is_not_clamped() {
    let loss = cross_entropy_loss(vector(&[1.0]), vector(&[0.0])).unwrap();
    assert!(!scalar(loss).is_finite());
}

#[test]
fn adversarial_loss_rejects_mismatch() {
    assert_eq!(
        cross_entropy_loss(vector(&[0.5, 0.5]), vector(&[0.5])).err(),
        Some(ShapeMismatchError::TargetCount)
    );
    assert_eq!(
        cross_entropy_loss(vector(&[0.5]), vector(&[0.5, 0.5])).err(),
        Some(ShapeMismatchError::TargetCount)
    );
    assert_eq!(cross_entropy_loss(vector(&[]), vector(&[])).err(), Some(ShapeMismatchError::BatchSize));
    assert_eq!(cross_entropy_loss(vector(&[]), vector(&[0.5])).err(), Some(ShapeMismatchError::BatchSize));
}

#[test]
fn leaky_relu_is_the_sum_of_the_two_branches_bit_by_bit() {
    let device = Default::default();
    let inputs = [-7.25f32, -1.0e-30, -0.0, 0.0, 1.0e-30, 0.3, 1.0, 123456.78];
    let x = Tensor::<Engine, 1>::from_floats(inputs, &device).reshape([1, 2, 2, 2]);
    let got: Vec<f32> = leaky_relu(Tensor4 { inner: x }).inner.into_data().value;
    for (x, y) in inputs.iter().zip(got.iter()) {
        let capped = if *x > 0.0 { *x * 0.0 + 0.0 } else { *x * 1.0 + 0.0 };
        let floored = if *x < 0.0 { *x * 0.0 + 0.0 } else { *x * 1.0 + 0.0 };
        let want = capped + floored * (-1.0f32 / 5.0f32);
        assert_eq!(y.to_bits(), want.to_bits());
        assert_eq!(y.to_bits(), (capped + floored * -0.2f32).to_bits());
    }
}

#[test]
fn sample_terms_follow_the_formula() {
    let terms = sample_terms(vector(&[1.0, 0.5, 0.0, 0.25]), vector(&[0.9, 0.5, 0.2, 0.75])).unwrap();
    assert_eq!(terms.inner.dims(), [4]);
    let got: Vec<f32> = terms.inner.into_data().value;
    let want = [
        (0.9f32).ln(),
        (0.5f32).ln(),
        (0.8f32).ln(),
        0.25 * (0.75f32).ln() + 0.75 * (0.25f32).ln(),
    ];
    for i in 0..4 {
        assert!((got[i] - want[i]).abs() < 1e-6, "{} against {}", got[i], want[i]);
    }
    assert_eq!(
        sample_terms(vector(&[1.0, 0.5]), vector(&[0.5])).err(),
        Some(ShapeMismatchError::TargetCount)
    );
    assert_eq!(sample_terms(vector(&[]), vector(&[])).unwrap().inner.dims(), [0]);
}

#[test]
fn leaky_relu_of_an_infinity_is_no_number() {
    let device = Default::default();
    let x = Tensor::<Engine, 1>::from_floats([f32::NEG_INFINITY, f32::INFINITY], &device).reshape([1, 1, 1, 2]);
    let got: Vec<f32> = leaky_relu(Tensor4 { inner: x }).inner.into_data().value;
    assert!(got[0].is_nan());
    assert!(got[1].is_nan());
}

#[test]
fn adversarial_loss_is_the_negated_mean_of_the_terms() {
    let targets = [1.0f32, 0.0, 0.5, 0.25, 1.0, 0.0, 0.75, 0.5, 0.125];
    let predictions = [0.9f32, 0.2, 0.5, 0.75, 0.99, 0.01, 0.6, 0.3, 0.8];
    let terms: Vec<f32> = sample_terms(vector(&targets), vector(&predictions)).unwrap().inner.into_data().value;
    let loss = scalar(cross_entropy_loss(vector(&targets), vector(&predictions)).unwrap());
    let sum: f64 = terms.iter().map(|t| *t as f64).sum();
    assert!((loss as f64 + sum / 9.0).abs() < 1e-6);
}

#[test]
fn sigmoid_and_tanh_stay_within_their_bounds() {
    let device = Default::default();
    let values: Vec<f32> =
        (0..=u32::MAX).step_by(4099).map(f32::from_bits).filter(|v| !v.is_nan()).collect();
    assert!(values.len() > 1_000_000);
    let inputs = Tensor::<Engine, 1>::from_floats(values.as_slice(), &device);
    let verdicts: Vec<f32> = burn::tensor::activation::sigmoid(inputs.clone()).into_data().value;
    assert!(verdicts.iter().all(|v| v.to_bits() <= 0x3f80_0000));
    assert!(verdicts.iter().any(|v| *v == 0.0));
    assert!(verdicts.iter().any(|v| *v == 1.0));
    let squashed: Vec<f32> = inputs.tanh().into_data().value;
    assert!(squashed.iter().all(|v| *v >= -1.0 && *v <= 1.0));
}
