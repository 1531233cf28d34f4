use vstd::prelude::*;
use crate::tensor::dims4;
use crate::tensor::elements4;
use crate::tensor::float_capped;
use crate::tensor::float_floored;
use crate::tensor::float_of;
use crate::tensor::float_product;
use crate::tensor::float_quotient;
use crate::tensor::float_sum;
use crate::tensor::tensor4_add;
use crate::tensor::tensor4_clamp_max;
use crate::tensor::tensor4_clamp_min;
use crate::tensor::tensor4_div_scalar;
use crate::tensor::tensor4_filled_like;
use crate::tensor::tensor4_mul;
use crate::tensor::Tensor4;

verus! {

/// Numerator of the factor applied to the non-negative part.
pub const POSITIVE_BRANCH_NUMERATOR: i32 = -1;

/// Denominator of the factor applied to the non-negative part: the factor is
/// the single-precision number nearest to minus one fifth.
pub const POSITIVE_BRANCH_DENOMINATOR: i32 = 5;

/// The factor applied to the non-negative part.
pub open spec fn positive_branch_factor() -> u32 {
    float_quotient(
        float_of(POSITIVE_BRANCH_NUMERATOR as int),
        float_of(POSITIVE_BRANCH_DENOMINATOR as int),
    )
}

/// What the activation makes of one element `x`: the sum of `x` clamped from
/// above at zero and of the factor times `x` clamped from below at zero. A
/// finite negative `x` passes unchanged and a finite non-negative `x` becomes
/// the factor times `x`; an infinite `x` gives no number, as the engine's
/// clamping does.
pub open spec fn leaky_value(x: u32) -> u32 {
    float_sum(
        float_capped(x, float_of(0)),
        float_product(float_floored(x, float_of(0)), positive_branch_factor()),
    )
}

/// The activation used between the layers of both networks, applied to each
/// element on its own. The result has the extents of the argument.
pub fn leaky_relu(x: Tensor4) -> (y: Tensor4)
    ensures
        dims4(y) == dims4(x),
        elements4(y) == elements4(x).map_values(|e: u32| leaky_value(e)),
{
    let negative_part = tensor4_clamp_max(&x, 0);
    let positive_part = tensor4_clamp_min(&x, 0);
    let factor = tensor4_div_scalar(
        tensor4_filled_like(&x, POSITIVE_BRANCH_NUMERATOR),
        POSITIVE_BRANCH_DENOMINATOR,
    );
    let attenuated = tensor4_mul(positive_part, factor);
    let y = tensor4_add(negative_part, attenuated);
    assert(elements4(y) =~= elements4(x).map_values(|e: u32| leaky_value(e)));
    y
}

} // verus!
