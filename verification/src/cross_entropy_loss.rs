use vstd::prelude::*;
use crate::models::ShapeMismatchError;
use crate::tensor::dims1;
use crate::tensor::elements1;
use crate::tensor::float_log;
use crate::tensor::float_mean;
use crate::tensor::float_of;
use crate::tensor::float_product;
use crate::tensor::float_sum;
use crate::tensor::has_dims1;
use crate::tensor::tensor1_add;
use crate::tensor::tensor1_add_scalar;
use crate::tensor::tensor1_dims;
use crate::tensor::tensor1_log;
use crate::tensor::tensor1_mean;
use crate::tensor::tensor1_mul;
use crate::tensor::tensor1_neg;
use crate::tensor::Tensor1;

verus! {

/// The reason why no loss can be computed for targets and predictions of the
/// given extents, if any.
pub open spec fn loss_refusal(targets: Seq<usize>, predictions: Seq<usize>) -> Option<
    ShapeMismatchError,
> {
    if targets[0] == 0 {
        Some(ShapeMismatchError::BatchSize)
    } else if targets[0] != predictions[0] {
        Some(ShapeMismatchError::TargetCount)
    } else {
        None
    }
}

/// One minus a number: the number multiplied by minus one, plus one.
pub open spec fn complement(value: u32) -> u32 {
    float_sum(float_product(value, float_of(-1)), float_of(1))
}

/// The term of one sample: `t * ln(p) + (1 - t) * ln(1 - p)` for the target
/// `t` and the prediction `p`.
pub open spec fn sample_term(target: u32, prediction: u32) -> u32 {
    float_sum(
        float_product(target, float_log(prediction)),
        float_product(complement(target), float_log(complement(prediction))),
    )
}

/// The terms of all samples, each as `sample_term` gives it. Refuses tensors
/// of different lengths.
pub fn sample_terms(targets_float: Tensor1, logits: Tensor1) -> (result: Result<
    Tensor1,
    ShapeMismatchError,
>)
    ensures
        result is Ok <==> dims1(targets_float)[0] == dims1(logits)[0],
        result is Err ==> result->Err_0 == ShapeMismatchError::TargetCount,
        result is Ok ==> dims1(result->Ok_0) == dims1(targets_float),
        result is Ok ==> elements1(result->Ok_0) == Seq::new(
            elements1(targets_float).len(),
            |i: int| sample_term(elements1(targets_float)[i], elements1(logits)[i]),
        ),
{
    if tensor1_dims(&targets_float)[0] != tensor1_dims(&logits)[0] {
        return Err(ShapeMismatchError::TargetCount);
    }
    assert(dims1(targets_float) =~= dims1(logits));
    let rest_of_targets = tensor1_add_scalar(tensor1_neg(&targets_float), 1);
    let rest_of_predictions = tensor1_add_scalar(tensor1_neg(&logits), 1);
    let where_true = tensor1_mul(targets_float, tensor1_log(&logits));
    let where_false = tensor1_mul(rest_of_targets, tensor1_log(&rest_of_predictions));
    let terms = tensor1_add(where_true, where_false);
    Ok(terms)
}

/// The loss of targets and predictions: the mean of the terms that
/// `sample_term` gives, times minus one, as the one element of a tensor.
pub open spec fn loss_of(targets: Seq<u32>, predictions: Seq<u32>) -> Seq<u32> {
    seq![
        float_product(
            float_mean(Seq::new(targets.len(), |i: int| sample_term(targets[i], predictions[i]))),
            float_of(-1),
        ),
    ]
}

/// The binary cross entropy between target probabilities `t` and predicted
/// probabilities `p`: the negated mean of the terms that `sample_terms` gives,
/// `t * ln(p) + (1 - t) * ln(1 - p)`, as a tensor of one element. Nothing is
/// clamped: a prediction of exactly zero or one gives a value that is not
/// finite.
///
/// Refuses empty tensors and tensors of different lengths.
pub fn cross_entropy_loss(targets_float: Tensor1, logits: Tensor1) -> (result: Result<
    Tensor1,
    ShapeMismatchError,
>)
    ensures
        match result {
            Ok(loss) => {
                &&& loss_refusal(dims1(targets_float), dims1(logits)) is None
                &&& has_dims1(loss, 1)
                &&& elements1(loss) == loss_of(elements1(targets_float), elements1(logits))
            },
            Err(error) => loss_refusal(dims1(targets_float), dims1(logits)) == Some(error),
        },
{
    if tensor1_dims(&targets_float)[0] == 0 {
        return Err(ShapeMismatchError::BatchSize);
    }
    match sample_terms(targets_float, logits) {
        Ok(terms) => {
            let mean = tensor1_mean(terms);
            let loss = tensor1_neg(&mean);
            assert(elements1(loss) =~= loss_of(elements1(targets_float), elements1(logits)));
            Ok(loss)
        },
        Err(error) => Err(error),
    }
}

} // verus!
