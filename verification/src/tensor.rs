use vstd::prelude::*;
use burn::backend::ndarray::NdArrayDevice;
use burn::backend::Autodiff;
use burn::backend::NdArray;
use burn::tensor::activation::sigmoid;
use burn::tensor::Data;
use burn::tensor::Shape;
use burn::tensor::Tensor;
use crate::shape::fits;

verus! {

/// The device type of the CPU engine, carried through unopened.
#[verifier::external_type_specification]
#[verifier::external_body]
pub struct ExNdArrayDevice(NdArrayDevice);

/// A float tensor of one axis on the differentiable CPU engine. Contracts
/// speak of its extent through `dims1` and of its elements through
/// `elements1`.
#[verifier::external_body]
pub struct Tensor1 {
    pub inner: Tensor<Autodiff<NdArray>, 1>,
}

/// A float tensor of two axes on the differentiable CPU engine. Contracts
/// speak of its extents through `dims2`; nothing is said of its elements.
#[verifier::external_body]
pub struct Tensor2 {
    pub inner: Tensor<Autodiff<NdArray>, 2>,
}

/// A float tensor of four axes on the differentiable CPU engine. Contracts
/// speak of its extents through `dims4` and of its elements through
/// `elements4`.
#[verifier::external_body]
pub struct Tensor4 {
    pub inner: Tensor<Autodiff<NdArray>, 4>,
}

/// The extent of a rank-one tensor, as a sequence of length one.
pub uninterp spec fn dims1(t: Tensor1) -> Seq<usize>;

/// The extents of a rank-two tensor, outermost axis first.
pub uninterp spec fn dims2(t: Tensor2) -> Seq<usize>;

/// The extents of a rank-four tensor, outermost axis first.
pub uninterp spec fn dims4(t: Tensor4) -> Seq<usize>;

/// The elements of a rank-one tensor in their order, each as the bit pattern
/// of its single-precision value. An element that is no number is read as
/// the one pattern `0x7fc0_0000`, whatever its sign and payload are.
pub uninterp spec fn elements1(t: Tensor1) -> Seq<u32>;

/// The elements of a rank-four tensor in row-major order, each as the bit
/// pattern of its single-precision value. An element that is no number is
/// read as the one pattern `0x7fc0_0000`, whatever its sign and payload are.
pub uninterp spec fn elements4(t: Tensor4) -> Seq<u32>;

/// The bit pattern of the single-precision number that the engine converts a
/// whole number of 32 bits to (`as f32`): the number itself, or the nearest
/// one there is.
pub uninterp spec fn float_of(value: int) -> u32;

/// The single-precision quotient (`/` of `f32`) of two elements, all three
/// as `elements1` and `elements4` read them.
pub uninterp spec fn float_quotient(dividend: u32, divisor: u32) -> u32;

/// The single-precision sum (`+` of `f32`) of two elements, all three as
/// `elements1` and `elements4` read them.
pub uninterp spec fn float_sum(left: u32, right: u32) -> u32;

/// The single-precision product (`*` of `f32`) of two elements, all three as
/// `elements1` and `elements4` read them.
pub uninterp spec fn float_product(left: u32, right: u32) -> u32;

/// What the engine's clamping from above makes of an element, all three as
/// `elements4` reads them. The engine computes it with a mask: where the
/// element is greater than the bound (`>` of `f32`), the element times zero
/// plus the bound; elsewhere the element times one plus zero. That is the
/// smaller of the two for finite elements; an infinite element above the
/// bound gives no number, and a negative zero gives zero.
pub uninterp spec fn float_capped(value: u32, bound: u32) -> u32;

/// What the engine's clamping from below makes of an element, all three as
/// `elements4` reads them. The engine computes it with a mask: where the
/// element is less than the bound (`<` of `f32`), the element times zero
/// plus the bound; elsewhere the element times one plus zero. That is the
/// larger of the two for finite elements; an infinite element below the
/// bound gives no number, and a negative zero gives zero.
pub uninterp spec fn float_floored(value: u32, bound: u32) -> u32;

/// The natural logarithm of an element as `libm::logf` computes it, both as
/// `elements1` reads them.
pub uninterp spec fn float_log(value: u32) -> u32;

/// The mean of the elements of a tensor in row-major layout as the engine
/// computes it: their sum, taken in the fixed order of `ndarray`'s unrolled
/// fold, divided by their number; all as `elements1` reads them.
pub uninterp spec fn float_mean(values: Seq<u32>) -> u32;

/// Whether a bit pattern is that of a single-precision number from 0 to 1,
/// the bounds included.
pub open spec fn within_zero_one(bits: u32) -> bool {
    bits <= 0x3f80_0000
}

/// Whether a bit pattern is that of a single-precision number from -1 to 1,
/// the bounds included.
pub open spec fn within_unit(bits: u32) -> bool {
    bits <= 0x3f80_0000 || 0x8000_0000 <= bits <= 0xbf80_0000
}

/// Whether a bit pattern is that of no number at all.
pub open spec fn not_a_number(bits: u32) -> bool {
    0x7f80_0000 < bits < 0x8000_0000 || 0xff80_0000 < bits
}

/// Whether `t` has exactly the extent `[n]`.
pub open spec fn has_dims1(t: Tensor1, n: int) -> bool {
    &&& dims1(t).len() == 1
    &&& dims1(t)[0] == n
}

/// Whether `t` has exactly the extents `[n, m]`.
pub open spec fn has_dims2(t: Tensor2, n: int, m: int) -> bool {
    &&& dims2(t).len() == 2
    &&& dims2(t)[0] == n
    &&& dims2(t)[1] == m
}

/// Whether `t` has exactly the extents `[n, c, h, w]`.
pub open spec fn has_dims4(t: Tensor4, n: int, c: int, h: int, w: int) -> bool {
    &&& dims4(t).len() == 4
    &&& dims4(t)[0] == n
    &&& dims4(t)[1] == c
    &&& dims4(t)[2] == h
    &&& dims4(t)[3] == w
}

/// `Tensor::dims` at rank one: the extent of the tensor, read from its shape.
/// A tensor has as many elements as its extent says.
#[verifier::external_body]
pub(crate) fn tensor1_dims(t: &Tensor1) -> (r: [usize; 1])
    ensures
        r@ == dims1(*t),
        r[0] == elements1(*t).len(),
{
    t.inner.dims()
}

/// `Tensor::dims` at rank two: the extents of the tensor, read from its shape.
#[verifier::external_body]
pub(crate) fn tensor2_dims(t: &Tensor2) -> (r: [usize; 2])
    ensures
        r@ == dims2(*t),
{
    t.inner.dims()
}

/// `Tensor::dims` at rank four: the extents of the tensor, read from its
/// shape. A tensor has as many elements as its extents multiply to.
#[verifier::external_body]
pub(crate) fn tensor4_dims(t: &Tensor4) -> (r: [usize; 4])
    ensures
        r@ == dims4(*t),
        r[0] * r[1] * r[2] * r[3] == elements4(*t).len(),
{
    t.inner.dims()
}

/// `Tensor::clamp_max` on a copy of the tensor: every element is clamped
/// from above as `float_capped` says, the extents are kept.
#[verifier::external_body]
pub(crate) fn tensor4_clamp_max(t: &Tensor4, bound: i32) -> (r: Tensor4)
    ensures
        dims4(r) == dims4(*t),
        elements4(r) == elements4(*t).map_values(
            |e: u32| float_capped(e, float_of(bound as int)),
        ),
{
    Tensor4 { inner: t.inner.clone().clamp_max(bound) }
}

/// `Tensor::clamp_min` on a copy of the tensor: every element is clamped
/// from below as `float_floored` says, the extents are kept.
#[verifier::external_body]
pub(crate) fn tensor4_clamp_min(t: &Tensor4, bound: i32) -> (r: Tensor4)
    ensures
        dims4(r) == dims4(*t),
        elements4(r) == elements4(*t).map_values(
            |e: u32| float_floored(e, float_of(bound as int)),
        ),
{
    Tensor4 { inner: t.inner.clone().clamp_min(bound) }
}

/// `Tensor::div_scalar`: every element divided by `divisor`, extents kept.
/// Float division by zero gives an infinity or NaN and does not panic.
#[verifier::external_body]
pub(crate) fn tensor4_div_scalar(t: Tensor4, divisor: i32) -> (r: Tensor4)
    ensures
        dims4(r) == dims4(t),
        elements4(r) == elements4(t).map_values(
            |e: u32| float_quotient(e, float_of(divisor as int)),
        ),
{
    Tensor4 { inner: t.inner.div_scalar(divisor) }
}

/// `Tensor::add` of two tensors. burn panics unless the extents agree on
/// every axis or one of the two is 1 there; here they are required equal, and
/// the result then has those extents and holds the sums of the elements at
/// the same place.
#[verifier::external_body]
pub(crate) fn tensor4_add(a: Tensor4, b: Tensor4) -> (r: Tensor4)
    requires
        dims4(a) == dims4(b),
    ensures
        dims4(r) == dims4(a),
        elements4(r) == Seq::new(
            elements4(a).len(),
            |i: int| float_sum(elements4(a)[i], elements4(b)[i]),
        ),
{
    Tensor4 { inner: a.inner.add(b.inner) }
}

/// `Tensor::tanh`: the hyperbolic tangent of every element, extents kept.
/// The engine computes it in double precision with `libm::tanh`, whose result
/// for a number lies between -1 and 1, and rounds it to single precision.
#[verifier::external_body]
pub(crate) fn tensor4_tanh(t: Tensor4) -> (r: Tensor4)
    ensures
        dims4(r) == dims4(t),
        elements4(r).len() == elements4(t).len(),
        forall|i: int|
            0 <= i < elements4(r).len() ==> within_unit(#[trigger] elements4(r)[i])
                || not_a_number(elements4(r)[i]),
{
    Tensor4 { inner: t.inner.tanh() }
}

/// `Tensor::reshape` from two axes to four. burn panics unless the target
/// extents hold exactly as many elements as the tensor; the result has the
/// target extents.
#[verifier::external_body]
pub(crate) fn tensor2_reshape4(t: Tensor2, target: [usize; 4]) -> (r: Tensor4)
    requires
        dims2(t).len() == 2,
        target[0] >= 1 && target[1] >= 1 && target[2] >= 1 && target[3] >= 1,
        dims2(t)[0] * dims2(t)[1] == target[0] * target[1] * target[2] * target[3],
        fits(target[0] * target[1] * target[2] * target[3]),
    ensures
        dims4(r) == target@,
{
    Tensor4 { inner: t.inner.reshape(target) }
}

/// `Tensor::reshape` from four axes to one. burn panics unless the target
/// extent equals the number of elements of the tensor; the result has the
/// target extent.
#[verifier::external_body]
pub(crate) fn tensor4_reshape1(t: Tensor4, target: [usize; 1]) -> (r: Tensor1)
    requires
        dims4(t).len() == 4,
        target[0] >= 1,
        dims4(t)[0] * dims4(t)[1] * dims4(t)[2] * dims4(t)[3] == target[0],
        fits(target[0] as int),
    ensures
        dims1(r) == target@,
        elements1(r).len() == target[0],
{
    Tensor1 { inner: t.inner.reshape(target) }
}

/// `burn::tensor::activation::sigmoid`: the logistic function of every
/// element, extent kept. The engine computes it as the exponential of the
/// negated logarithm of one plus the exponential of the negated element,
/// with `libm::expf` and `libm::logf`: the logarithm of a number from one on
/// is not negative, and the exponential of a number up to zero lies between
/// 0 and 1. In single precision both bounds are reached.
#[verifier::external_body]
pub(crate) fn tensor1_sigmoid(t: Tensor1) -> (r: Tensor1)
    ensures
        dims1(r) == dims1(t),
        elements1(r).len() == elements1(t).len(),
        forall|i: int|
            0 <= i < elements1(r).len() ==> within_zero_one(#[trigger] elements1(r)[i])
                || not_a_number(elements1(r)[i]),
{
    Tensor1 { inner: sigmoid(t.inner) }
}

/// `Tensor::log` on a copy of the tensor: the natural logarithm of every
/// element, extent kept. The logarithm of zero or of a negative number is an
/// infinity or no number and does not panic.
#[verifier::external_body]
pub(crate) fn tensor1_log(t: &Tensor1) -> (r: Tensor1)
    ensures
        dims1(r) == dims1(*t),
        elements1(r) == elements1(*t).map_values(|e: u32| float_log(e)),
{
    Tensor1 { inner: t.inner.clone().log() }
}

/// `Tensor::neg` on a copy of the tensor: every element multiplied by minus
/// one, extent kept.
#[verifier::external_body]
pub(crate) fn tensor1_neg(t: &Tensor1) -> (r: Tensor1)
    ensures
        dims1(r) == dims1(*t),
        elements1(r) == elements1(*t).map_values(|e: u32| float_product(e, float_of(-1))),
{
    Tensor1 { inner: t.inner.clone().neg() }
}

/// `Tensor::add_scalar`: `addend` added to every element, extent kept.
#[verifier::external_body]
pub(crate) fn tensor1_add_scalar(t: Tensor1, addend: i32) -> (r: Tensor1)
    ensures
        dims1(r) == dims1(t),
        elements1(r) == elements1(t).map_values(|e: u32| float_sum(e, float_of(addend as int))),
{
    Tensor1 { inner: t.inner.add_scalar(addend) }
}

/// `Tensor::mul` of two tensors, element by element. burn panics unless the
/// extents agree or one of the two is 1; here they are required equal, and
/// the product then has that extent.
#[verifier::external_body]
pub(crate) fn tensor1_mul(a: Tensor1, b: Tensor1) -> (r: Tensor1)
    requires
        dims1(a) == dims1(b),
    ensures
        dims1(r) == dims1(a),
        elements1(r) == Seq::new(
            elements1(a).len(),
            |i: int| float_product(elements1(a)[i], elements1(b)[i]),
        ),
{
    Tensor1 { inner: a.inner.mul(b.inner) }
}

/// `Tensor::add` of two tensors, element by element. burn panics unless the
/// extents agree or one of the two is 1; here they are required equal, and
/// the sum then has that extent.
#[verifier::external_body]
pub(crate) fn tensor1_add(a: Tensor1, b: Tensor1) -> (r: Tensor1)
    requires
        dims1(a) == dims1(b),
    ensures
        dims1(r) == dims1(a),
        elements1(r) == Seq::new(
            elements1(a).len(),
            |i: int| float_sum(elements1(a)[i], elements1(b)[i]),
        ),
{
    Tensor1 { inner: a.inner.add(b.inner) }
}

/// `Tensor::reshape` to the tensor's own extent and `Tensor::mean`: the mean
/// of all elements as a tensor of one element. The reshaping changes no
/// element; it brings the array into row-major layout, on which the sum runs
/// over the elements in their order. The CPU engine panics on a tensor
/// without elements.
#[verifier::external_body]
pub(crate) fn tensor1_mean(t: Tensor1) -> (r: Tensor1)
    requires
        dims1(t).len() == 1,
        dims1(t)[0] >= 1,
    ensures
        has_dims1(r, 1),
        elements1(r) == seq![float_mean(elements1(t))],
{
    let extent = t.inner.dims();
    Tensor1 { inner: t.inner.reshape(extent).mean() }
}

/// `Data::new`, `Data::convert` and `Tensor::from_data`: a tensor with the
/// given extents whose elements are the given integers as floats, in
/// row-major order. The engine panics unless the extents hold exactly
/// `values.len()` elements.
#[verifier::external_body]
pub(crate) fn tensor4_from_integers(values: Vec<i32>, extents: [usize; 4], device: &NdArrayDevice) -> (r: Tensor4)
    requires
        extents[0] >= 1 && extents[1] >= 1 && extents[2] >= 1 && extents[3] >= 1,
        values@.len() == extents[0] * extents[1] * extents[2] * extents[3],
        fits(values@.len() as int),
    ensures
        dims4(r) == extents@,
        elements4(r) == values@.map_values(|v: i32| float_of(v as int)),
{
    Tensor4 { inner: Tensor::from_data(Data::new(values, Shape::new(extents)).convert(), device) }
}

/// `Tensor::full` with the shape and the device of `like`: a tensor of the
/// same extent whose elements all are `value`.
#[verifier::external_body]
pub(crate) fn tensor1_filled_like(like: &Tensor1, value: i32) -> (r: Tensor1)
    ensures
        dims1(r) == dims1(*like),
        elements1(r) == elements1(*like).map_values(|e: u32| float_of(value as int)),
{
    Tensor1 { inner: Tensor::full(like.inner.shape(), value, &like.inner.device()) }
}

/// `Tensor::div_scalar` at rank one: every element divided by `divisor`,
/// extent kept.
#[verifier::external_body]
pub(crate) fn tensor1_div_scalar(t: Tensor1, divisor: i32) -> (r: Tensor1)
    ensures
        dims1(r) == dims1(t),
        elements1(r) == elements1(t).map_values(
            |e: u32| float_quotient(e, float_of(divisor as int)),
        ),
{
    Tensor1 { inner: t.inner.div_scalar(divisor) }
}

/// `Tensor::detach` on a copy of the tensor: the same values, cut off from
/// the graph of operations that produced them, so that no gradient flows
/// back through it.
#[verifier::external_body]
pub(crate) fn tensor4_detach(t: &Tensor4) -> (r: Tensor4)
    ensures
        dims4(r) == dims4(*t),
        elements4(r) == elements4(*t),
{
    Tensor4 { inner: t.inner.clone().detach() }
}

/// `Tensor::full` with the shape and the device of `like`: a tensor of the
/// same extents whose elements all are `value`.
#[verifier::external_body]
pub(crate) fn tensor4_filled_like(like: &Tensor4, value: i32) -> (r: Tensor4)
    ensures
        dims4(r) == dims4(*like),
        elements4(r) == elements4(*like).map_values(|e: u32| float_of(value as int)),
{
    Tensor4 { inner: Tensor::full(like.inner.shape(), value, &like.inner.device()) }
}

/// `Tensor::mul` of two tensors, element by element. burn panics unless the
/// extents agree on every axis or one of the two is 1 there; here they are
/// required equal, and the result then has those extents and holds the
/// products of the elements at the same place.
#[verifier::external_body]
pub(crate) fn tensor4_mul(a: Tensor4, b: Tensor4) -> (r: Tensor4)
    requires
        dims4(a) == dims4(b),
    ensures
        dims4(r) == dims4(a),
        elements4(r) == Seq::new(
            elements4(a).len(),
            |i: int| float_product(elements4(a)[i], elements4(b)[i]),
        ),
{
    Tensor4 { inner: a.inner.mul(b.inner) }
}

} // verus!
