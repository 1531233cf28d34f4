use vstd::prelude::*;

verus! {

/// Side of every convolution kernel in both networks.
pub const KERNEL: usize = 4;

/// Stride of the resampling convolutions.
pub const STRIDE: usize = 2;

/// Padding of the resampling convolutions.
pub const PADDING: usize = 1;

/// Side of the feature maps the generator's projection produces.
pub const SEED_SIDE: usize = 4;

/// Channels of an image.
pub const IMAGE_CHANNELS: usize = 3;

/// Height of a stored image, in pixels.
pub const IMAGE_HEIGHT: usize = 64;

/// Width of a stored image, in pixels.
pub const IMAGE_WIDTH: usize = 64;

/// The largest number of elements that a tensor can have on this machine: an
/// element takes four bytes, and no allocation holds more bytes than the
/// largest signed machine word.
pub open spec fn element_limit() -> int {
    usize::MAX as int / 8
}

/// Whether a tensor of `count` elements can be held on this machine.
pub open spec fn fits(count: int) -> bool {
    0 <= count <= element_limit()
}

/// The largest number of elements that a tensor can have on this machine.
pub fn max_elements() -> (limit: usize)
    ensures
        limit == element_limit(),
{
    usize::MAX / 8
}

/// The product of two counts, where a tensor of so many elements can be held
/// on this machine.
pub fn checked_count(left: usize, right: usize) -> (count: Option<usize>)
    ensures
        count is Some <==> fits(left * right),
        count is Some ==> count->0 == left * right,
{
    assert(0 <= left * right) by (nonlinear_arith)
        requires
            0 <= left,
            0 <= right,
    ;
    match left.checked_mul(right) {
        Some(product) => if product <= max_elements() {
            Some(product)
        } else {
            None
        },
        None => None,
    }
}

/// Extent of one spatial axis after a convolution without dilation.
pub open spec fn conv_extent(size: int, kernel: int, stride: int, padding: int) -> int {
    (size + 2 * padding - kernel) / stride + 1
}

/// Extent of one spatial axis after a transposed convolution without
/// dilation or output padding.
pub open spec fn up_conv_extent(size: int, kernel: int, stride: int, padding: int) -> int {
    (size - 1) * stride + kernel - 2 * padding
}

/// Extent after one of the discriminator's downsampling convolutions.
pub open spec fn halved(size: int) -> int {
    conv_extent(size, KERNEL as int, STRIDE as int, PADDING as int)
}

/// Extent after one of the generator's upsampling convolutions.
pub open spec fn doubled(size: int) -> int {
    up_conv_extent(size, KERNEL as int, STRIDE as int, PADDING as int)
}

/// A downsampling convolution halves an extent of at least two, rounding
/// down.
pub proof fn lemma_halved(size: int)
    requires
        size >= 2,
    ensures
        halved(size) == size / 2,
        1 <= halved(size) <= size,
{
}

/// An upsampling convolution doubles a positive extent exactly.
pub proof fn lemma_doubled(size: int)
    requires
        size >= 1,
    ensures
        doubled(size) == 2 * size,
{
}

/// A product of four bounded factors is bounded by the product of the bounds.
pub proof fn lemma_count_bound(n: int, c: int, h: int, w: int, nb: int, cb: int, hb: int, wb: int)
    requires
        0 <= n <= nb,
        0 <= c <= cb,
        0 <= h <= hb,
        0 <= w <= wb,
    ensures
        0 <= n * c * h * w <= nb * cb * hb * wb,
{
    assert(0 <= n * c <= nb * cb) by (nonlinear_arith)
        requires
            0 <= n <= nb,
            0 <= c <= cb,
    ;
    assert(0 <= (n * c) * h <= (nb * cb) * hb) by (nonlinear_arith)
        requires
            0 <= n * c <= nb * cb,
            0 <= h <= hb,
    ;
    assert(0 <= ((n * c) * h) * w <= ((nb * cb) * hb) * wb) by (nonlinear_arith)
        requires
            0 <= (n * c) * h <= (nb * cb) * hb,
            0 <= w <= wb,
    ;
}

/// A tensor of `n` images of `c` channels and `h` by `w` values can be held
/// where `c` is `scale` times `width`, the sides are no more than `hb` and
/// `wb`, and `unit = scale * hb * wb` elements for each unit of `n * width`
/// are no more than a count that can be held.
pub proof fn lemma_maps_fit(
    n: int,
    c: int,
    h: int,
    w: int,
    width: int,
    scale: int,
    hb: int,
    wb: int,
    unit: int,
    peak: int,
)
    requires
        0 <= n,
        0 <= width,
        0 <= scale,
        c == width * scale,
        0 <= h <= hb,
        0 <= w <= wb,
        unit == scale * hb * wb,
        unit * (n * width) <= peak,
        fits(peak),
    ensures
        fits(n * c * h * w),
{
    assert(0 <= c) by (nonlinear_arith)
        requires
            c == width * scale,
            0 <= width,
            0 <= scale,
    ;
    lemma_count_bound(n, c, h, w, n, c, hb, wb);
    assert(n * c * hb * wb == unit * (n * width)) by (nonlinear_arith)
        requires
            c == width * scale,
            unit == scale * hb * wb,
    ;
}

/// The weights of a convolution with a kernel of four by four from
/// `width * a` to `width * b` channels can be held where
/// `unit = a * b * 16` for each unit of `width * width` are no more than a
/// count that can be held.
pub proof fn lemma_weights_fit(
    width: int,
    channels_in: int,
    channels_out: int,
    a: int,
    b: int,
    unit: int,
    peak: int,
)
    requires
        1 <= width,
        1 <= a,
        1 <= b,
        channels_in == width * a,
        channels_out == width * b,
        unit == a * b * 16,
        unit * (width * width) <= peak,
        fits(peak),
    ensures
        fits(channels_in * channels_out * 4 * 4),
        1 <= channels_in,
        1 <= channels_out,
{
    assert(channels_in * channels_out * 4 * 4 == unit * (width * width)) by (nonlinear_arith)
        requires
            channels_in == width * a,
            channels_out == width * b,
            unit == a * b * 16,
    ;
    assert(0 <= unit * (width * width)) by (nonlinear_arith)
        requires
            unit == a * b * 16,
            1 <= width,
            1 <= a,
            1 <= b,
    ;
    assert(1 <= channels_in && 1 <= channels_out) by (nonlinear_arith)
        requires
            channels_in == width * a,
            channels_out == width * b,
            1 <= width,
            1 <= a,
            1 <= b,
    ;
}

} // verus!
