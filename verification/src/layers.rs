use vstd::prelude::*;
use burn::backend::Autodiff;
use burn::backend::NdArray;
use burn::nn::conv::Conv2d;
use burn::nn::conv::Conv2dConfig;
use burn::nn::conv::ConvTranspose2d;
use burn::nn::conv::ConvTranspose2dConfig;
use burn::nn::BatchNorm;
use burn::nn::BatchNormConfig;
use burn::nn::Initializer;
use burn::nn::Linear;
use burn::nn::LinearConfig;
use burn::nn::PaddingConfig2d;
use crate::shape::conv_extent;
use crate::shape::up_conv_extent;
use crate::shape::fits;
use crate::tensor::dims2;
use crate::tensor::float_of;
use crate::tensor::dims4;
use crate::tensor::has_dims2;
use crate::tensor::has_dims4;
use crate::tensor::Tensor2;
use crate::tensor::Tensor4;

verus! {

/// How the weights and biases of a convolution are filled when a network is
/// built.
#[derive(Clone, Copy, Debug)]
pub enum WeightFill {
    /// The engine's own default for the layer: uniform draws scaled by the
    /// number of inputs of one output.
    LayerDefault,
    /// Every value the given whole number.
    Constant(i32),
}

/// A fully connected layer of the engine with its parameters.
#[verifier::external_body]
pub struct LinearLayer {
    pub inner: Linear<Autodiff<NdArray>>,
}

/// A transposed two-dimensional convolution of the engine with its
/// parameters.
#[verifier::external_body]
pub struct UpConvLayer {
    pub inner: ConvTranspose2d<Autodiff<NdArray>>,
}

/// A two-dimensional convolution of the engine with its parameters.
#[verifier::external_body]
pub struct ConvLayer {
    pub inner: Conv2d<Autodiff<NdArray>>,
}

/// A batch normalization over the channels of rank-four tensors, with its
/// parameters and running statistics.
#[verifier::external_body]
pub struct NormLayer {
    pub inner: BatchNorm<Autodiff<NdArray>, 2>,
}

/// What a fully connected layer was made with: `[inputs, outputs]`.
pub uninterp spec fn linear_features(layer: LinearLayer) -> Seq<usize>;

/// What a transposed convolution was made with:
/// `[channels in, channels out, kernel, stride, padding]`, the last three the
/// same on both spatial axes.
pub uninterp spec fn up_conv_geometry(layer: UpConvLayer) -> Seq<usize>;

/// What a convolution was made with:
/// `[channels in, channels out, kernel, stride, padding]`, the last three the
/// same on both spatial axes.
pub uninterp spec fn conv_geometry(layer: ConvLayer) -> Seq<usize>;

/// What a batch normalization was made with: `[channels]`.
pub uninterp spec fn norm_features(layer: NormLayer) -> Seq<usize>;

/// The weights of a transposed convolution in row-major order, each as
/// `elements4` reads the elements of a tensor.
pub uninterp spec fn up_conv_weights(layer: UpConvLayer) -> Seq<u32>;

/// The weights of a convolution in row-major order, each as `elements4`
/// reads the elements of a tensor.
pub uninterp spec fn conv_weights(layer: ConvLayer) -> Seq<u32>;

/// As many weights as a convolution of the given channels and kernel has,
/// every one of them the given whole number.
pub open spec fn constant_weights(
    channels_in: usize,
    channels_out: usize,
    kernel: usize,
    value: int,
) -> Seq<u32> {
    Seq::new((channels_in * channels_out * kernel * kernel) as nat, |i: int| float_of(value))
}

/// What is known of the weights of a layer filled as `fill` says: a constant
/// fill gives every weight its number; of the engine's default, which draws
/// them, nothing is known.
pub open spec fn filled_as(
    weights: Seq<u32>,
    fill: WeightFill,
    channels_in: usize,
    channels_out: usize,
    kernel: usize,
) -> bool {
    match fill {
        WeightFill::LayerDefault => true,
        WeightFill::Constant(value) => weights == constant_weights(
            channels_in,
            channels_out,
            kernel,
            value as int,
        ),
    }
}

/// `LinearConfig::new(..).init(..)`: a fully connected layer with a bias and
/// the engine's default fill. The fill draws from a range scaled by the
/// inverse square root of `inputs`, which must therefore be positive.
#[verifier::external_body]
pub(crate) fn linear_new(inputs: usize, outputs: usize) -> (layer: LinearLayer)
    requires
        1 <= inputs,
        1 <= outputs,
        fits(inputs * outputs),
    ensures
        linear_features(layer) == seq![inputs, outputs],
{
    LinearLayer { inner: LinearConfig::new(inputs, outputs).init(&Default::default()) }
}

/// Whether a fully connected layer made with `[inputs, outputs]` can be
/// applied to a tensor of the extents `input`: the layer has inputs and
/// outputs, the tensor has rows of the layer's number of inputs, and both it
/// and the output can be held on this machine.
pub open spec fn linear_admits(made: Seq<usize>, input: Seq<usize>) -> bool {
    &&& made.len() == 2
    &&& input.len() == 2
    &&& made[0] >= 1
    &&& made[1] >= 1
    &&& input[0] >= 1
    &&& input[1] == made[0]
    &&& fits(input[0] * made[0])
    &&& fits(input[0] * made[1])
}

/// `Linear::forward` at rank two: a matrix product with the weights plus the
/// bias. burn panics unless the second extent of the input is the layer's
/// number of inputs; the result keeps the first extent and has the layer's
/// number of outputs as its second.
#[verifier::external_body]
pub(crate) fn linear_forward(layer: &LinearLayer, input: Tensor2) -> (output: Tensor2)
    requires
        linear_admits(linear_features(*layer), dims2(input)),
    ensures
        has_dims2(output, dims2(input)[0] as int, linear_features(*layer)[1] as int),
{
    Tensor2 { inner: layer.inner.forward(input.inner) }
}

/// Whether a convolution with a square kernel can be made: there are
/// channels on both sides, the kernel and the stride are positive, and the
/// weights can be held on this machine.
pub open spec fn weights_fit(
    channels_in: usize,
    channels_out: usize,
    kernel: usize,
    stride: usize,
) -> bool {
    &&& 1 <= channels_in
    &&& 1 <= channels_out
    &&& 1 <= kernel
    &&& 1 <= stride
    &&& fits(channels_in * channels_out * kernel * kernel)
}

/// `ConvTranspose2dConfig::new(..).with_stride(..).with_padding(..).init(..)`:
/// a transposed convolution with a square kernel, one group, no dilation, no
/// output padding and a bias, with the engine's default fill.
#[verifier::external_body]
fn up_conv_default(
    channels_in: usize,
    channels_out: usize,
    kernel: usize,
    stride: usize,
    padding: usize,
) -> (layer: UpConvLayer)
    requires
        weights_fit(channels_in, channels_out, kernel, stride),
    ensures
        up_conv_geometry(layer) == seq![channels_in, channels_out, kernel, stride, padding],
{
    let config = ConvTranspose2dConfig::new([channels_in, channels_out], [kernel, kernel])
        .with_stride([stride, stride])
        .with_padding([padding, padding]);
    UpConvLayer { inner: config.init(&Default::default()) }
}

/// `ConvTranspose2dConfig::new(..).with_stride(..).with_padding(..)
/// .with_initializer(Initializer::Constant { .. }).init(..)`: a transposed
/// convolution with a square kernel, one group, no dilation, no output
/// padding and a bias, every weight and every bias being `value`.
#[verifier::external_body]
fn up_conv_constant(
    channels_in: usize,
    channels_out: usize,
    kernel: usize,
    stride: usize,
    padding: usize,
    value: i32,
) -> (layer: UpConvLayer)
    requires
        weights_fit(channels_in, channels_out, kernel, stride),
    ensures
        up_conv_geometry(layer) == seq![channels_in, channels_out, kernel, stride, padding],
        up_conv_weights(layer) == constant_weights(channels_in, channels_out, kernel, value as int),
{
    let config = ConvTranspose2dConfig::new([channels_in, channels_out], [kernel, kernel])
        .with_stride([stride, stride])
        .with_padding([padding, padding])
        .with_initializer(Initializer::Constant { value: value.into() });
    UpConvLayer { inner: config.init(&Default::default()) }
}

/// A transposed convolution with a square kernel and a bias, filled as `fill`
/// says.
pub(crate) fn up_conv_new(
    channels_in: usize,
    channels_out: usize,
    kernel: usize,
    stride: usize,
    padding: usize,
    fill: WeightFill,
) -> (layer: UpConvLayer)
    requires
        weights_fit(channels_in, channels_out, kernel, stride),
    ensures
        up_conv_geometry(layer) == seq![channels_in, channels_out, kernel, stride, padding],
        filled_as(up_conv_weights(layer), fill, channels_in, channels_out, kernel),
{
    match fill {
        WeightFill::LayerDefault => up_conv_default(
            channels_in,
            channels_out,
            kernel,
            stride,
            padding,
        ),
        WeightFill::Constant(value) => up_conv_constant(
            channels_in,
            channels_out,
            kernel,
            stride,
            padding,
            value,
        ),
    }
}

/// Whether a transposed convolution of geometry `made`
/// (`[channels in, channels out, kernel, stride, padding]`) can be applied to
/// a tensor of the extents `input`: the tensor is not empty and has the
/// layer's input channels, the layer has channels on both sides, the kernel
/// is larger than twice the padding, the output extents can be computed in
/// machine words, and both the input and the output can be held on this
/// machine.
pub open spec fn up_conv_admits(made: Seq<usize>, input: Seq<usize>) -> bool {
    &&& made.len() == 5
    &&& input.len() == 4
    &&& made[0] >= 1
    &&& made[1] >= 1
    &&& made[3] >= 1
    &&& made[2] > 2 * made[4]
    &&& input[0] >= 1
    &&& input[1] == made[0]
    &&& input[2] >= 1
    &&& input[3] >= 1
    &&& (input[2] - 1) * made[3] + made[2] <= usize::MAX
    &&& (input[3] - 1) * made[3] + made[2] <= usize::MAX
    &&& fits(input[0] * input[1] * input[2] * input[3])
    &&& fits(
        input[0] * made[1] * up_conv_side(made, input[2] as int) * up_conv_side(
            made,
            input[3] as int,
        ),
    )
}

/// The extent that a transposed convolution of geometry `made` gives a
/// spatial axis of extent `size`.
pub open spec fn up_conv_side(made: Seq<usize>, size: int) -> int {
    up_conv_extent(size, made[2] as int, made[3] as int, made[4] as int)
}

/// `ConvTranspose2d::forward`. The CPU engine reads one input channel for
/// each channel the weights were made for and computes each output extent as
/// `(size - 1) * stride + kernel - 2 * padding`, in unsigned arithmetic. The
/// result keeps the batch extent and has the layer's output channels.
#[verifier::external_body]
pub(crate) fn up_conv_forward(layer: &UpConvLayer, input: Tensor4) -> (output: Tensor4)
    requires
        up_conv_admits(up_conv_geometry(*layer), dims4(input)),
    ensures
        has_dims4(
            output,
            dims4(input)[0] as int,
            up_conv_geometry(*layer)[1] as int,
            up_conv_side(up_conv_geometry(*layer), dims4(input)[2] as int),
            up_conv_side(up_conv_geometry(*layer), dims4(input)[3] as int),
        ),
{
    Tensor4 { inner: layer.inner.forward(input.inner) }
}

/// `Conv2dConfig::new(..).with_stride(..).with_padding(..).init(..)`: a
/// convolution with a square kernel, one group, no dilation, explicit padding
/// and a bias, with the engine's default fill.
#[verifier::external_body]
fn conv_default(
    channels_in: usize,
    channels_out: usize,
    kernel: usize,
    stride: usize,
    padding: usize,
) -> (layer: ConvLayer)
    requires
        weights_fit(channels_in, channels_out, kernel, stride),
    ensures
        conv_geometry(layer) == seq![channels_in, channels_out, kernel, stride, padding],
{
    let config = Conv2dConfig::new([channels_in, channels_out], [kernel, kernel])
        .with_stride([stride, stride])
        .with_padding(PaddingConfig2d::Explicit(padding, padding));
    ConvLayer { inner: config.init(&Default::default()) }
}

/// `Conv2dConfig::new(..).with_stride(..).with_padding(..)
/// .with_initializer(Initializer::Constant { .. }).init(..)`: a convolution
/// with a square kernel, one group, no dilation, explicit padding and a bias,
/// every weight and every bias being `value`.
#[verifier::external_body]
fn conv_constant(
    channels_in: usize,
    channels_out: usize,
    kernel: usize,
    stride: usize,
    padding: usize,
    value: i32,
) -> (layer: ConvLayer)
    requires
        weights_fit(channels_in, channels_out, kernel, stride),
    ensures
        conv_geometry(layer) == seq![channels_in, channels_out, kernel, stride, padding],
        conv_weights(layer) == constant_weights(channels_in, channels_out, kernel, value as int),
{
    let config = Conv2dConfig::new([channels_in, channels_out], [kernel, kernel])
        .with_stride([stride, stride])
        .with_padding(PaddingConfig2d::Explicit(padding, padding))
        .with_initializer(Initializer::Constant { value: value.into() });
    ConvLayer { inner: config.init(&Default::default()) }
}

/// A convolution with a square kernel and a bias, filled as `fill` says.
pub(crate) fn conv_new(
    channels_in: usize,
    channels_out: usize,
    kernel: usize,
    stride: usize,
    padding: usize,
    fill: WeightFill,
) -> (layer: ConvLayer)
    requires
        weights_fit(channels_in, channels_out, kernel, stride),
    ensures
        conv_geometry(layer) == seq![channels_in, channels_out, kernel, stride, padding],
        filled_as(conv_weights(layer), fill, channels_in, channels_out, kernel),
{
    match fill {
        WeightFill::LayerDefault => conv_default(channels_in, channels_out, kernel, stride, padding),
        WeightFill::Constant(value) => conv_constant(
            channels_in,
            channels_out,
            kernel,
            stride,
            padding,
            value,
        ),
    }
}

/// Whether a convolution of geometry `made`
/// (`[channels in, channels out, kernel, stride, padding]`) can be applied to
/// a tensor of the extents `input`: the tensor has images and the layer's
/// input channels, the layer has channels on both sides, the padded extents
/// can be computed in machine words and the kernel fits into them, and both
/// the padded input and the output can be held on this machine.
pub open spec fn conv_admits(made: Seq<usize>, input: Seq<usize>) -> bool {
    &&& made.len() == 5
    &&& input.len() == 4
    &&& made[0] >= 1
    &&& made[1] >= 1
    &&& made[2] >= 1
    &&& made[3] >= 1
    &&& input[0] >= 1
    &&& input[1] == made[0]
    &&& input[2] + 2 * made[4] <= usize::MAX
    &&& input[3] + 2 * made[4] <= usize::MAX
    &&& input[2] + 2 * made[4] >= made[2]
    &&& input[3] + 2 * made[4] >= made[2]
    &&& fits(input[0] * input[1] * (input[2] + 2 * made[4]) * (input[3] + 2 * made[4]))
    &&& fits(
        input[0] * made[1] * conv_side(made, input[2] as int) * conv_side(made, input[3] as int),
    )
}

/// The extent that a convolution of geometry `made` gives a spatial axis of
/// extent `size`.
pub open spec fn conv_side(made: Seq<usize>, size: int) -> int {
    conv_extent(size, made[2] as int, made[3] as int, made[4] as int)
}

/// `Conv2d::forward`. The CPU engine pads the input, reads one input channel
/// for each channel the weights were made for and computes each output extent
/// as `(size + 2 * padding - kernel) / stride + 1`, in unsigned arithmetic.
/// The result keeps the batch extent and has the layer's output channels.
#[verifier::external_body]
pub(crate) fn conv_forward(layer: &ConvLayer, input: Tensor4) -> (output: Tensor4)
    requires
        conv_admits(conv_geometry(*layer), dims4(input)),
    ensures
        has_dims4(
            output,
            dims4(input)[0] as int,
            conv_geometry(*layer)[1] as int,
            conv_side(conv_geometry(*layer), dims4(input)[2] as int),
            conv_side(conv_geometry(*layer), dims4(input)[3] as int),
        ),
{
    Tensor4 { inner: layer.inner.forward(input.inner) }
}

/// `BatchNormConfig::new(..).init(..)`: a batch normalization over
/// `channels` channels with unit scale, zero shift and the engine's default
/// momentum and epsilon.
#[verifier::external_body]
pub(crate) fn norm_new(channels: usize) -> (layer: NormLayer)
    requires
        1 <= channels,
        fits(channels as int),
    ensures
        norm_features(layer) == seq![channels],
{
    NormLayer { inner: BatchNormConfig::new(channels).init(&Default::default()) }
}

/// Whether a batch normalization made for `made[0]` channels can be applied
/// to a tensor of the extents `input`: the tensor is not empty, has that
/// many channels and can be held on this machine.
pub open spec fn norm_admits(made: Seq<usize>, input: Seq<usize>) -> bool {
    &&& made.len() == 1
    &&& input.len() == 4
    &&& input[0] >= 1
    &&& input[1] >= 1
    &&& input[2] >= 1
    &&& input[3] >= 1
    &&& input[1] == made[0]
    &&& fits(input[0] * input[1] * input[2] * input[3])
}

/// `BatchNorm::forward` at rank four. On the differentiable engine it
/// normalizes each channel by the statistics of the batch and updates the
/// running statistics inside the layer. burn panics unless the input has the
/// layer's number of channels; the result has the extents of the input.
#[verifier::external_body]
pub(crate) fn norm_forward(layer: &NormLayer, input: Tensor4) -> (output: Tensor4)
    requires
        norm_admits(norm_features(*layer), dims4(input)),
    ensures
        dims4(output) == dims4(input),
{
    Tensor4 { inner: layer.inner.forward(input.inner) }
}

} // verus!
