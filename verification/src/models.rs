use vstd::prelude::*;
use crate::layers::conv_forward;
use crate::layers::conv_geometry;
use crate::layers::conv_new;
use crate::layers::conv_weights;
use crate::layers::filled_as;
use crate::layers::linear_features;
use crate::layers::linear_forward;
use crate::layers::linear_new;
use crate::layers::norm_features;
use crate::layers::norm_forward;
use crate::layers::norm_new;
use crate::layers::up_conv_forward;
use crate::layers::up_conv_geometry;
use crate::layers::up_conv_new;
use crate::layers::up_conv_side;
use crate::layers::conv_side;
use crate::layers::up_conv_weights;
use crate::layers::ConvLayer;
use crate::layers::LinearLayer;
use crate::layers::NormLayer;
use crate::layers::UpConvLayer;
use crate::layers::WeightFill;
use crate::leaky_relu::leaky_relu;
use crate::shape::checked_count;
use crate::shape::conv_extent;
use crate::shape::fits;
use crate::shape::halved;
use crate::shape::lemma_count_bound;
use crate::shape::lemma_maps_fit;
use crate::shape::lemma_weights_fit;
use crate::shape::IMAGE_CHANNELS;
use crate::shape::IMAGE_HEIGHT;
use crate::shape::IMAGE_WIDTH;
use crate::shape::KERNEL;
use crate::shape::PADDING;
use crate::shape::SEED_SIDE;
use crate::shape::STRIDE;
use crate::tensor::dims2;
use crate::tensor::dims4;
use crate::tensor::elements1;
use crate::tensor::elements4;
use crate::tensor::has_dims1;
use crate::tensor::has_dims4;
use crate::tensor::not_a_number;
use crate::tensor::tensor1_sigmoid;
use crate::tensor::tensor2_dims;
use crate::tensor::tensor2_reshape4;
use crate::tensor::tensor4_dims;
use crate::tensor::tensor4_reshape1;
use crate::tensor::tensor4_tanh;
use crate::tensor::within_unit;
use crate::tensor::within_zero_one;
use crate::tensor::Tensor1;
use crate::tensor::Tensor2;
use crate::tensor::Tensor4;

verus! {

/// Why a network cannot be built from a configuration.
#[derive(Clone, Copy, Debug, PartialEq, Eq, Structural)]
pub enum ConfigError {
    /// The latent vector size is zero.
    LatentVectorSize,
    /// The feature map size is zero.
    FeatureMapSize,
    /// The weights of a layer cannot be held on this machine.
    TooLarge,
}

/// Why a forward pass refuses its input.
#[derive(Clone, Copy, Debug, PartialEq, Eq, Structural)]
pub enum ShapeMismatchError {
    /// The batch is empty.
    BatchSize,
    /// The latent vectors do not have the length the generator was built for.
    LatentSize,
    /// The images do not have three channels.
    Channels,
    /// The convolutions do not reduce the images to a single value each.
    ImageSize,
    /// There are not as many targets as predictions.
    TargetCount,
    /// A tensor on the way cannot be held on this machine.
    TooLarge,
}

/// Settings of the generator network.
#[derive(Clone, Copy, Debug)]
pub struct GeneratorConfig {
    /// Length of one latent vector.
    pub latent_vector_size: usize,
    /// Base width of the feature maps; channel counts are multiples of it.
    pub feature_map_size: usize,
}

/// Settings of the discriminator network.
#[derive(Clone, Copy, Debug)]
pub struct DiscriminatorConfig {
    /// Base width of the feature maps; channel counts are multiples of it.
    pub feature_map_size: usize,
}

/// Maps a batch of latent vectors to a batch of images: a projection to
/// `16 * feature_map_size` maps of four by four, then four upsampling
/// convolutions, the first three each followed by a normalization and the
/// leaky activation, and a final hyperbolic tangent.
pub struct Generator {
    pub latent_vector_size: usize,
    pub feature_map_size: usize,
    pub projection: LinearLayer,
    pub conv1: UpConvLayer,
    pub batch_norm1: NormLayer,
    pub conv2: UpConvLayer,
    pub batch_norm2: NormLayer,
    pub conv3: UpConvLayer,
    pub batch_norm3: NormLayer,
    pub conv4: UpConvLayer,
}

/// The extents of the tensors a generator's forward pass went through.
#[derive(Clone, Copy, Debug)]
pub struct GeneratorSizes {
    pub latents: [usize; 2],
    pub projection: [usize; 4],
    pub conv1: [usize; 4],
    pub conv2: [usize; 4],
    pub conv3: [usize; 4],
    pub conv4: [usize; 4],
}

/// Maps a batch of images to one probability each: four downsampling
/// convolutions, each followed by the leaky activation, the last three
/// normalized before it; then a convolution to a single value and a sigmoid.
pub struct Discriminator {
    pub feature_map_size: usize,
    pub conv1: ConvLayer,
    pub conv2: ConvLayer,
    pub norm2: NormLayer,
    pub conv3: ConvLayer,
    pub norm3: NormLayer,
    pub conv4: ConvLayer,
    pub norm4: NormLayer,
    pub final_conv: ConvLayer,
}

/// The geometry of an upsampling convolution of the generator.
pub open spec fn up_geometry(channels_in: int, channels_out: int) -> Seq<usize> {
    seq![channels_in as usize, channels_out as usize, KERNEL, STRIDE, PADDING]
}

/// The geometry of a downsampling convolution of the discriminator.
pub open spec fn down_geometry(channels_in: int, channels_out: int) -> Seq<usize> {
    seq![channels_in as usize, channels_out as usize, KERNEL, STRIDE, PADDING]
}

/// The geometry of the discriminator's last convolution: stride one and no
/// padding.
pub open spec fn final_geometry(channels_in: int) -> Seq<usize> {
    seq![channels_in as usize, 1usize, KERNEL, 1usize, 0usize]
}

/// Whether four downsampling convolutions and the last convolution reduce a
/// spatial extent to one.
pub open spec fn reduces_to_one(size: int) -> bool {
    &&& size >= 2
    &&& halved(size) >= 2
    &&& halved(halved(size)) >= 2
    &&& halved(halved(halved(size))) >= 2
    &&& halved(halved(halved(halved(size)))) >= KERNEL
    &&& conv_extent(halved(halved(halved(halved(size)))), KERNEL as int, 1, 0) == 1
}

/// The spatial extents the discriminator reduces to one are those from 64 to
/// 79.
pub proof fn lemma_reduces_to_one(size: int)
    ensures
        reduces_to_one(size) <==> 64 <= size < 80,
{
}

/// Whether the weights of a generator for latent vectors of length `latent`
/// and feature maps of base width `width` can be held on this machine: the
/// projection has `latent * 256 * width` of them and the largest convolution
/// `2048 * width * width`.
pub open spec fn generator_weights_fit(latent: int, width: int) -> bool {
    fits(latent * width * 256) && fits(width * width * 2048)
}

/// Whether the weights of a discriminator for feature maps of base width
/// `width` can be held on this machine: the largest convolution has
/// `512 * width * width` of them.
pub open spec fn discriminator_weights_fit(width: int) -> bool {
    fits(width * width * 512)
}

/// Whether the tensors on the way of `n` latent vectors of length `latent`
/// through a generator of base width `width` can be held on this machine:
/// the latent vectors, the largest feature maps (`2 * width` maps of 32 by
/// 32 for each vector) and the images.
pub open spec fn generator_pass_fits(n: int, latent: int, width: int) -> bool {
    fits(n * latent) && fits(n * width * 2048) && fits(n * 12288)
}

/// Whether the tensors on the way of `n` images of `height` by `width`
/// through a discriminator of base width `maps` can be held on this machine:
/// the padded images and the padded feature maps of the first convolution,
/// which are the largest.
pub open spec fn discriminator_pass_fits(n: int, maps: int, height: int, width: int) -> bool {
    fits(n * 3 * (height + 2) * (width + 2)) && fits(
        n * maps * (height / 2 + 2) * (width / 2 + 2),
    )
}

/// The discriminator accepts every batch of images of the size that the
/// content store holds and the generator produces, as far as the tensors on
/// its way can be held on this machine.
pub proof fn lemma_stored_size_is_accepted(discriminator: Discriminator, images: Seq<usize>)
    requires
        images.len() == 4,
        1 <= images[0],
        images[1] == IMAGE_CHANNELS,
        images[2] == IMAGE_WIDTH,
        images[3] == IMAGE_HEIGHT,
        discriminator_pass_fits(
            images[0] as int,
            discriminator.feature_map_size as int,
            IMAGE_WIDTH as int,
            IMAGE_HEIGHT as int,
        ),
    ensures
        discriminator.refusal(images) is None,
{
    lemma_reduces_to_one(images[2] as int);
    lemma_reduces_to_one(images[3] as int);
}

/// Whether a tensor holds `n` images of the stored size whose every element
/// is a number from -1 to 1 or no number at all. The latter only comes of
/// parameters or latent vectors that hold no number or overflow.
pub open spec fn squashed(images: Tensor4, n: int) -> bool {
    &&& elements4(images).len() == n * IMAGE_CHANNELS * IMAGE_WIDTH * IMAGE_HEIGHT
    &&& forall|i: int|
        0 <= i < elements4(images).len() ==> within_unit(#[trigger] elements4(images)[i])
            || not_a_number(elements4(images)[i])
}

/// Whether a tensor holds `n` verdicts each of which is a number from 0 to 1,
/// the bounds included, or no number at all. The latter only comes of
/// parameters or images that hold no number or overflow.
pub open spec fn probabilities(verdicts: Tensor1, n: int) -> bool {
    &&& elements1(verdicts).len() == n
    &&& forall|i: int|
        0 <= i < elements1(verdicts).len() ==> within_zero_one(
            #[trigger] elements1(verdicts)[i],
        ) || not_a_number(elements1(verdicts)[i])
}

/// A positive number is no more than its square.
proof fn lemma_square(width: int)
    requires
        1 <= width,
    ensures
        width <= width * width,
{
    assert(width <= width * width) by (nonlinear_arith)
        requires
            1 <= width,
    ;
}

impl GeneratorConfig {
    /// The default settings: latent vectors of length 100, base width 64.
    pub fn new() -> (config: GeneratorConfig)
        ensures
            config.latent_vector_size == 100,
            config.feature_map_size == 64,
    {
        GeneratorConfig { latent_vector_size: 100, feature_map_size: 64 }
    }

    /// The reason why no generator can be built from these settings, if any.
    pub open spec fn refusal(&self) -> Option<ConfigError> {
        if self.latent_vector_size == 0 {
            Some(ConfigError::LatentVectorSize)
        } else if self.feature_map_size == 0 {
            Some(ConfigError::FeatureMapSize)
        } else if !generator_weights_fit(
            self.latent_vector_size as int,
            self.feature_map_size as int,
        ) {
            Some(ConfigError::TooLarge)
        } else {
            None
        }
    }

    /// Builds a generator with fresh parameters, the convolutions filled as
    /// `conv_initializer` says. Fails exactly when a size is zero or the
    /// weights cannot be held on this machine.
    pub fn init(&self, conv_initializer: &WeightFill) -> (result: Result<Generator, ConfigError>)
        ensures
            match result {
                Ok(generator) => {
                    &&& self.refusal() is None
                    &&& generator.wf()
                    &&& generator.latent_vector_size == self.latent_vector_size
                    &&& generator.feature_map_size == self.feature_map_size
                    &&& generator.filled(*conv_initializer)
                },
                Err(error) => self.refusal() == Some(error),
            },
    {
        let latent = self.latent_vector_size;
        let width = self.feature_map_size;
        if latent == 0 {
            return Err(ConfigError::LatentVectorSize);
        }
        if width == 0 {
            return Err(ConfigError::FeatureMapSize);
        }
        let projection_fits = match checked_count(latent, width) {
            Some(count) => checked_count(count, 256).is_some(),
            None => false,
        };
        let convolutions_fit = match checked_count(width, width) {
            Some(count) => checked_count(count, 2048).is_some(),
            None => false,
        };
        proof {
            assert(0 < latent * width) by (nonlinear_arith)
                requires
                    1 <= latent,
                    1 <= width,
            ;
            lemma_square(width as int);
        }
        if !projection_fits || !convolutions_fit {
            return Err(ConfigError::TooLarge);
        }
        let fill = *conv_initializer;
        let projected = width * 256;
        let c16 = width * 16;
        let c8 = width * 8;
        let c4 = width * 4;
        let c2 = width * 2;
        proof {
            let f = width as int;
            let peak = f * f * 2048;
            lemma_weights_fit(f, c16 as int, c8 as int, 16, 8, 2048, peak);
            lemma_weights_fit(f, c8 as int, c4 as int, 8, 4, 512, peak);
            lemma_weights_fit(f, c4 as int, c2 as int, 4, 2, 128, peak);
            assert(c2 * 3 * 4 * 4 == 96 * f);
            assert(latent * projected == latent * width * 256) by (nonlinear_arith)
                requires
                    projected == width * 256,
            ;
        }
        Ok(
            Generator {
                latent_vector_size: latent,
                feature_map_size: width,
                projection: linear_new(latent, projected),
                conv1: up_conv_new(c16, c8, KERNEL, STRIDE, PADDING, fill),
                batch_norm1: norm_new(c8),
                conv2: up_conv_new(c8, c4, KERNEL, STRIDE, PADDING, fill),
                batch_norm2: norm_new(c4),
                conv3: up_conv_new(c4, c2, KERNEL, STRIDE, PADDING, fill),
                batch_norm3: norm_new(c2),
                conv4: up_conv_new(c2, IMAGE_CHANNELS, KERNEL, STRIDE, PADDING, fill),
            },
        )
    }
}

/// One upsampling round: transposed convolution, normalization, activation.
fn up_block(conv: &UpConvLayer, norm: &NormLayer, input: Tensor4, channels_out: usize) -> (output:
    Tensor4)
    requires
        dims4(input).len() == 4,
        up_conv_geometry(*conv) == up_geometry(dims4(input)[1] as int, channels_out as int),
        norm_features(*norm) == seq![channels_out],
        1 <= dims4(input)[0],
        1 <= dims4(input)[1],
        1 <= dims4(input)[2] <= 32,
        1 <= dims4(input)[3] <= 32,
        1 <= channels_out,
        fits(dims4(input)[0] * dims4(input)[1] * dims4(input)[2] * dims4(input)[3]),
        fits(dims4(input)[0] * channels_out * (2 * dims4(input)[2]) * (2 * dims4(input)[3])),
    ensures
        has_dims4(
            output,
            dims4(input)[0] as int,
            channels_out as int,
            2 * dims4(input)[2],
            2 * dims4(input)[3],
        ),
{
    proof {
        let n = dims4(input)[0] as int;
        let c = channels_out as int;
        let h = dims4(input)[2] as int;
        let w = dims4(input)[3] as int;
        let made = up_conv_geometry(*conv);
        assert(made[2] == 4 && made[3] == 2 && made[4] == 1 && made[1] == c);
        assert(up_conv_side(made, h) == 2 * h && up_conv_side(made, w) == 2 * w)
            by (nonlinear_arith)
            requires
                made[2] == 4,
                made[3] == 2,
                made[4] == 1,
                up_conv_side(made, h) == (h - 1) * made[3] + made[2] - 2 * made[4],
                up_conv_side(made, w) == (w - 1) * made[3] + made[2] - 2 * made[4],
        ;
        lemma_count_bound(n, made[1] as int, up_conv_side(made, h), up_conv_side(made, w), n, c, 2
            * h, 2 * w);
    }
    let x = up_conv_forward(conv, input);
    proof {
        let n = dims4(input)[0] as int;
        let c = channels_out as int;
        let h = dims4(input)[2] as int;
        let w = dims4(input)[3] as int;
        lemma_count_bound(
            dims4(x)[0] as int,
            dims4(x)[1] as int,
            dims4(x)[2] as int,
            dims4(x)[3] as int,
            n,
            c,
            2 * h,
            2 * w,
        );
    }
    let x = norm_forward(norm, x);
    leaky_relu(x)
}

impl Generator {
    /// Whether the layers have the geometry that the two sizes call for.
    pub open spec fn wf(&self) -> bool {
        let l = self.latent_vector_size as int;
        let f = self.feature_map_size as int;
        &&& 1 <= l
        &&& 1 <= f
        &&& generator_weights_fit(l, f)
        &&& linear_features(self.projection) == seq![l as usize, (f * 256) as usize]
        &&& up_conv_geometry(self.conv1) == up_geometry(f * 16, f * 8)
        &&& norm_features(self.batch_norm1) == seq![(f * 8) as usize]
        &&& up_conv_geometry(self.conv2) == up_geometry(f * 8, f * 4)
        &&& norm_features(self.batch_norm2) == seq![(f * 4) as usize]
        &&& up_conv_geometry(self.conv3) == up_geometry(f * 4, f * 2)
        &&& norm_features(self.batch_norm3) == seq![(f * 2) as usize]
        &&& up_conv_geometry(self.conv4) == up_geometry(f * 2, IMAGE_CHANNELS as int)
    }

    /// Whether the four convolutions hold what a fill of `fill` gives them.
    pub open spec fn filled(&self, fill: WeightFill) -> bool {
        let f = self.feature_map_size as int;
        &&& filled_as(
            up_conv_weights(self.conv1),
            fill,
            (f * 16) as usize,
            (f * 8) as usize,
            KERNEL,
        )
        &&& filled_as(
            up_conv_weights(self.conv2),
            fill,
            (f * 8) as usize,
            (f * 4) as usize,
            KERNEL,
        )
        &&& filled_as(
            up_conv_weights(self.conv3),
            fill,
            (f * 4) as usize,
            (f * 2) as usize,
            KERNEL,
        )
        &&& filled_as(up_conv_weights(self.conv4), fill, (f * 2) as usize, IMAGE_CHANNELS, KERNEL)
    }

    /// The reason why the generator refuses latents of the given extents, if
    /// any.
    pub open spec fn refusal(&self, latents: Seq<usize>) -> Option<ShapeMismatchError> {
        if latents[0] == 0 {
            Some(ShapeMismatchError::BatchSize)
        } else if latents[1] != self.latent_vector_size {
            Some(ShapeMismatchError::LatentSize)
        } else if !generator_pass_fits(
            latents[0] as int,
            self.latent_vector_size as int,
            self.feature_map_size as int,
        ) {
            Some(ShapeMismatchError::TooLarge)
        } else {
            None
        }
    }

    /// The projection and its reshaping to feature maps of four by four.
    fn project(&self, latents: Tensor2) -> (output: Tensor4)
        requires
            self.wf(),
            dims2(latents).len() == 2,
            self.refusal(dims2(latents)) is None,
        ensures
            has_dims4(
                output,
                dims2(latents)[0] as int,
                self.feature_map_size * 16,
                SEED_SIDE as int,
                SEED_SIDE as int,
            ),
    {
        let batch_size = tensor2_dims(&latents)[0];
        proof {
            lemma_square(self.feature_map_size as int);
        }
        let channels = self.feature_map_size * 16;
        proof {
            let n = batch_size as int;
            let f = self.feature_map_size as int;
            let peak = n * f * 2048;
            assert(n * (f * 256) == 256 * (n * f)) by (nonlinear_arith);
            assert(0 <= n * f) by (nonlinear_arith)
                requires
                    0 <= n,
                    0 <= f,
            ;
            lemma_maps_fit(n, channels as int, 4, 4, f, 16, 4, 4, 256, peak);
            assert(n * (f * 256) == n * channels * 4 * 4) by (nonlinear_arith)
                requires
                    channels == f * 16,
            ;
        }
        let x = linear_forward(&self.projection, latents);
        tensor2_reshape4(x, [batch_size, channels, SEED_SIDE, SEED_SIDE])
    }

    /// The forward pass. Refuses an empty batch, latents of another length
    /// than the generator was built for and a batch whose tensors cannot be
    /// held on this machine; otherwise the result holds one image of three
    /// channels, 64 by 64, for each latent vector.
    pub fn forward(&self, latents: Tensor2) -> (result: Result<Tensor4, ShapeMismatchError>)
        requires
            self.wf(),
        ensures
            match result {
                Ok(images) => {
                    &&& self.refusal(dims2(latents)) is None
                    &&& has_dims4(
                        images,
                        dims2(latents)[0] as int,
                        IMAGE_CHANNELS as int,
                        IMAGE_WIDTH as int,
                        IMAGE_HEIGHT as int,
                    )
                    &&& squashed(images, dims2(latents)[0] as int)
                },
                Err(error) => self.refusal(dims2(latents)) == Some(error),
            },
    {
        match self.forward_print_sizes(latents) {
            Ok((images, _)) => Ok(images),
            Err(error) => Err(error),
        }
    }

    /// The forward pass, with the extents of every intermediate tensor.
    pub fn forward_print_sizes(&self, latents: Tensor2) -> (result: Result<
        (Tensor4, GeneratorSizes),
        ShapeMismatchError,
    >)
        requires
            self.wf(),
        ensures
            match result {
                Ok((images, sizes)) => {
                    let n = dims2(latents)[0];
                    let f = self.feature_map_size as int;
                    &&& self.refusal(dims2(latents)) is None
                    &&& has_dims4(
                        images,
                        n as int,
                        IMAGE_CHANNELS as int,
                        IMAGE_WIDTH as int,
                        IMAGE_HEIGHT as int,
                    )
                    &&& squashed(images, n as int)
                    &&& sizes.latents@ == dims2(latents)
                    &&& sizes.projection@ == seq![n, (f * 16) as usize, 4usize, 4usize]
                    &&& sizes.conv1@ == seq![n, (f * 8) as usize, 8usize, 8usize]
                    &&& sizes.conv2@ == seq![n, (f * 4) as usize, 16usize, 16usize]
                    &&& sizes.conv3@ == seq![n, (f * 2) as usize, 32usize, 32usize]
                    &&& sizes.conv4@ == seq![n, 3usize, 64usize, 64usize]
                },
                Err(error) => self.refusal(dims2(latents)) == Some(error),
            },
    {
        let latents_size = tensor2_dims(&latents);
        let batch_size = latents_size[0];
        if batch_size == 0 {
            return Err(ShapeMismatchError::BatchSize);
        }
        if latents_size[1] != self.latent_vector_size {
            return Err(ShapeMismatchError::LatentSize);
        }
        let width = self.feature_map_size;
        let latents_fit = checked_count(batch_size, self.latent_vector_size).is_some();
        let maps_fit = match checked_count(batch_size, width) {
            Some(count) => checked_count(count, 2048).is_some(),
            None => false,
        };
        let images_fit = checked_count(batch_size, 12288).is_some();
        proof {
            assert(0 < batch_size * width) by (nonlinear_arith)
                requires
                    1 <= batch_size,
                    1 <= width,
            ;
        }
        if !latents_fit || !maps_fit || !images_fit {
            return Err(ShapeMismatchError::TooLarge);
        }
        proof {
            lemma_square(width as int);
        }
        let c8 = width * 8;
        let c4 = width * 4;
        let c2 = width * 2;
        let ghost n = batch_size as int;
        let ghost f = width as int;
        let ghost peak = n * f * 2048;
        proof {
            assert(0 <= n * f) by (nonlinear_arith)
                requires
                    0 <= n,
                    0 <= f,
            ;
        }
        let x = self.project(latents);
        let projection_size = tensor4_dims(&x);
        proof {
            lemma_maps_fit(dims4(x)[0] as int, dims4(x)[1] as int, dims4(x)[2] as int, dims4(x)[3] as int, f, 16, 4, 4, 256, peak);
            lemma_maps_fit(dims4(x)[0] as int, c8 as int, 2 * dims4(x)[2], 2 * dims4(x)[3], f, 8, 8, 8, 512, peak);
        }
        let x = up_block(&self.conv1, &self.batch_norm1, x, c8);
        let conv1_size = tensor4_dims(&x);
        proof {
            lemma_maps_fit(dims4(x)[0] as int, dims4(x)[1] as int, dims4(x)[2] as int, dims4(x)[3] as int, f, 8, 8, 8, 512, peak);
            lemma_maps_fit(dims4(x)[0] as int, c4 as int, 2 * dims4(x)[2], 2 * dims4(x)[3], f, 4, 16, 16, 1024, peak);
        }
        let x = up_block(&self.conv2, &self.batch_norm2, x, c4);
        let conv2_size = tensor4_dims(&x);
        proof {
            lemma_maps_fit(dims4(x)[0] as int, dims4(x)[1] as int, dims4(x)[2] as int, dims4(x)[3] as int, f, 4, 16, 16, 1024, peak);
            lemma_maps_fit(dims4(x)[0] as int, c2 as int, 2 * dims4(x)[2], 2 * dims4(x)[3], f, 2, 32, 32, 2048, peak);
        }
        let x = up_block(&self.conv3, &self.batch_norm3, x, c2);
        let conv3_size = tensor4_dims(&x);
        proof {
            let made = up_conv_geometry(self.conv4);
            lemma_maps_fit(dims4(x)[0] as int, dims4(x)[1] as int, dims4(x)[2] as int, dims4(x)[3] as int, f, 2, 32, 32, 2048, peak);
            lemma_maps_fit(dims4(x)[0] as int, made[1] as int, up_conv_side(made, dims4(x)[2] as int), up_conv_side(made, dims4(x)[3] as int), 1, 3, 64, 64, 12288, n * 12288);
        }
        let x = up_conv_forward(&self.conv4, x);
        let conv4_size = tensor4_dims(&x);
        let images = tensor4_tanh(x);
        let sizes = GeneratorSizes {
            latents: latents_size,
            projection: projection_size,
            conv1: conv1_size,
            conv2: conv2_size,
            conv3: conv3_size,
            conv4: conv4_size,
        };
        Ok((images, sizes))
    }
}

impl DiscriminatorConfig {
    /// The default settings: base width 64.
    pub fn new() -> (config: DiscriminatorConfig)
        ensures
            config.feature_map_size == 64,
    {
        DiscriminatorConfig { feature_map_size: 64 }
    }

    /// The reason why no discriminator can be built from these settings, if
    /// any.
    pub open spec fn refusal(&self) -> Option<ConfigError> {
        if self.feature_map_size == 0 {
            Some(ConfigError::FeatureMapSize)
        } else if !discriminator_weights_fit(self.feature_map_size as int) {
            Some(ConfigError::TooLarge)
        } else {
            None
        }
    }

    /// Builds a discriminator with fresh parameters, the convolutions filled
    /// as `conv_initializer` says. Fails exactly when the feature map size is
    /// zero or the weights cannot be held on this machine.
    pub fn init(&self, conv_initializer: &WeightFill) -> (result: Result<
        Discriminator,
        ConfigError,
    >)
        ensures
            match result {
                Ok(discriminator) => {
                    &&& self.refusal() is None
                    &&& discriminator.wf()
                    &&& discriminator.feature_map_size == self.feature_map_size
                    &&& discriminator.filled(*conv_initializer)
                },
                Err(error) => self.refusal() == Some(error),
            },
    {
        let width = self.feature_map_size;
        if width == 0 {
            return Err(ConfigError::FeatureMapSize);
        }
        let convolutions_fit = match checked_count(width, width) {
            Some(count) => checked_count(count, 512).is_some(),
            None => false,
        };
        proof {
            lemma_square(width as int);
        }
        if !convolutions_fit {
            return Err(ConfigError::TooLarge);
        }
        let fill = *conv_initializer;
        let c2 = width * 2;
        let c4 = width * 4;
        let c8 = width * 8;
        proof {
            let f = width as int;
            let peak = f * f * 512;
            lemma_weights_fit(f, width as int, c2 as int, 1, 2, 32, peak);
            lemma_weights_fit(f, c2 as int, c4 as int, 2, 4, 128, peak);
            lemma_weights_fit(f, c4 as int, c8 as int, 4, 8, 512, peak);
            assert(3 * width * 4 * 4 == 48 * f);
            assert(c8 * 1 * 4 * 4 == 128 * f);
        }
        Ok(
            Discriminator {
                feature_map_size: width,
                conv1: conv_new(IMAGE_CHANNELS, width, KERNEL, STRIDE, PADDING, fill),
                conv2: conv_new(width, c2, KERNEL, STRIDE, PADDING, fill),
                norm2: norm_new(c2),
                conv3: conv_new(c2, c4, KERNEL, STRIDE, PADDING, fill),
                norm3: norm_new(c4),
                conv4: conv_new(c4, c8, KERNEL, STRIDE, PADDING, fill),
                norm4: norm_new(c8),
                final_conv: conv_new(c8, 1, KERNEL, 1, 0, fill),
            },
        )
    }
}

/// One downsampling round with normalization: convolution, normalization,
/// activation.
fn down_block(conv: &ConvLayer, norm: &NormLayer, input: Tensor4, channels_out: usize) -> (output:
    Tensor4)
    requires
        dims4(input).len() == 4,
        conv_geometry(*conv) == down_geometry(dims4(input)[1] as int, channels_out as int),
        norm_features(*norm) == seq![channels_out],
        1 <= dims4(input)[0],
        1 <= dims4(input)[1],
        2 <= dims4(input)[2] <= 80,
        2 <= dims4(input)[3] <= 80,
        1 <= channels_out,
        fits(dims4(input)[0] * dims4(input)[1] * (dims4(input)[2] + 2) * (dims4(input)[3] + 2)),
        fits(
            dims4(input)[0] * channels_out * (dims4(input)[2] as int / 2) * (dims4(input)[3] as int
                / 2),
        ),
    ensures
        has_dims4(
            output,
            dims4(input)[0] as int,
            channels_out as int,
            dims4(input)[2] as int / 2,
            dims4(input)[3] as int / 2,
        ),
{
    proof {
        let n = dims4(input)[0] as int;
        let c = channels_out as int;
        let h = dims4(input)[2] as int;
        let w = dims4(input)[3] as int;
        let made = conv_geometry(*conv);
        assert(made[2] == 4 && made[3] == 2 && made[4] == 1 && made[1] == c);
        assert(conv_side(made, h) == h / 2 && conv_side(made, w) == w / 2);
        lemma_count_bound(
            n,
            dims4(input)[1] as int,
            h + 2 * made[4],
            w + 2 * made[4],
            n,
            dims4(input)[1] as int,
            h + 2,
            w + 2,
        );
        lemma_count_bound(n, made[1] as int, conv_side(made, h), conv_side(made, w), n, c, h / 2, w
            / 2);
    }
    let x = conv_forward(conv, input);
    proof {
        lemma_count_bound(
            dims4(x)[0] as int,
            dims4(x)[1] as int,
            dims4(x)[2] as int,
            dims4(x)[3] as int,
            dims4(input)[0] as int,
            channels_out as int,
            dims4(input)[2] as int / 2,
            dims4(input)[3] as int / 2,
        );
    }
    let x = norm_forward(norm, x);
    leaky_relu(x)
}

impl Discriminator {
    /// Whether the layers have the geometry that the feature map size calls
    /// for.
    pub open spec fn wf(&self) -> bool {
        let f = self.feature_map_size as int;
        &&& 1 <= f
        &&& discriminator_weights_fit(f)
        &&& conv_geometry(self.conv1) == down_geometry(IMAGE_CHANNELS as int, f)
        &&& conv_geometry(self.conv2) == down_geometry(f, f * 2)
        &&& norm_features(self.norm2) == seq![(f * 2) as usize]
        &&& conv_geometry(self.conv3) == down_geometry(f * 2, f * 4)
        &&& norm_features(self.norm3) == seq![(f * 4) as usize]
        &&& conv_geometry(self.conv4) == down_geometry(f * 4, f * 8)
        &&& norm_features(self.norm4) == seq![(f * 8) as usize]
        &&& conv_geometry(self.final_conv) == final_geometry(f * 8)
    }

    /// Whether the five convolutions hold what a fill of `fill` gives them.
    pub open spec fn filled(&self, fill: WeightFill) -> bool {
        let f = self.feature_map_size as int;
        &&& filled_as(conv_weights(self.conv1), fill, IMAGE_CHANNELS, f as usize, KERNEL)
        &&& filled_as(conv_weights(self.conv2), fill, f as usize, (f * 2) as usize, KERNEL)
        &&& filled_as(conv_weights(self.conv3), fill, (f * 2) as usize, (f * 4) as usize, KERNEL)
        &&& filled_as(conv_weights(self.conv4), fill, (f * 4) as usize, (f * 8) as usize, KERNEL)
        &&& filled_as(conv_weights(self.final_conv), fill, (f * 8) as usize, 1usize, KERNEL)
    }

    /// The reason why the discriminator refuses images of the given extents,
    /// if any.
    pub open spec fn refusal(&self, images: Seq<usize>) -> Option<ShapeMismatchError> {
        if images[0] == 0 {
            Some(ShapeMismatchError::BatchSize)
        } else if images[1] != IMAGE_CHANNELS {
            Some(ShapeMismatchError::Channels)
        } else if !reduces_to_one(images[2] as int) || !reduces_to_one(images[3] as int) {
            Some(ShapeMismatchError::ImageSize)
        } else if !discriminator_pass_fits(
            images[0] as int,
            self.feature_map_size as int,
            images[2] as int,
            images[3] as int,
        ) {
            Some(ShapeMismatchError::TooLarge)
        } else {
            None
        }
    }

    /// The forward pass. Refuses an empty batch, images of another channel
    /// count than three, images that the convolutions do not reduce to a
    /// single value and a batch whose tensors cannot be held on this machine;
    /// otherwise the result holds one value for each image, from 0 to 1.
    pub fn forward(&self, images: Tensor4) -> (result: Result<Tensor1, ShapeMismatchError>)
        requires
            self.wf(),
        ensures
            match result {
                Ok(verdicts) => {
                    &&& self.refusal(dims4(images)) is None
                    &&& has_dims1(verdicts, dims4(images)[0] as int)
                    &&& probabilities(verdicts, dims4(images)[0] as int)
                },
                Err(error) => self.refusal(dims4(images)) == Some(error),
            },
    {
        let size = tensor4_dims(&images);
        let batch_size = size[0];
        let height = size[2];
        let width = size[3];
        if batch_size == 0 {
            return Err(ShapeMismatchError::BatchSize);
        }
        if size[1] != IMAGE_CHANNELS {
            return Err(ShapeMismatchError::Channels);
        }
        proof {
            lemma_reduces_to_one(height as int);
            lemma_reduces_to_one(width as int);
        }
        if height < 64 || height >= 80 || width < 64 || width >= 80 {
            return Err(ShapeMismatchError::ImageSize);
        }
        let f = self.feature_map_size;
        proof {
            lemma_count_bound(
                1,
                1,
                height as int + 2,
                width as int + 2,
                1,
                1,
                81,
                81,
            );
            lemma_count_bound(
                1,
                1,
                height as int / 2 + 2,
                width as int / 2 + 2,
                1,
                1,
                41,
                41,
            );
            lemma_count_bound(
                1,
                1,
                1,
                1,
                1,
                1,
                height as int / 2 + 2,
                width as int / 2 + 2,
            );
        }
        let padded = 3 * ((height + 2) * (width + 2));
        let halves = (height / 2 + 2) * (width / 2 + 2);
        let images_fit = checked_count(batch_size, padded).is_some();
        let maps_fit = match checked_count(batch_size, f) {
            Some(count) => checked_count(count, halves).is_some(),
            None => false,
        };
        let ghost n = batch_size as int;
        let ghost g = f as int;
        let ghost h = height as int;
        let ghost w = width as int;
        proof {
            assert(n * padded == n * 3 * (h + 2) * (w + 2)) by (nonlinear_arith)
                requires
                    padded == 3 * ((h + 2) * (w + 2)),
            ;
            assert((n * g) * halves == n * g * (h / 2 + 2) * (w / 2 + 2)) by (nonlinear_arith)
                requires
                    halves == (h / 2 + 2) * (w / 2 + 2),
            ;
            assert(0 < n * g) by (nonlinear_arith)
                requires
                    1 <= n,
                    1 <= g,
            ;
            assert(n * g <= (n * g) * halves) by (nonlinear_arith)
                requires
                    0 < n * g,
                    1 <= halves,
            ;
        }
        if !images_fit || !maps_fit {
            return Err(ShapeMismatchError::TooLarge);
        }
        proof {
            lemma_square(g);
        }
        let c2 = f * 2;
        let c4 = f * 4;
        let c8 = f * 8;
        let ghost h1 = h / 2;
        let ghost w1 = w / 2;
        let ghost peak = n * g * (h1 + 2) * (w1 + 2);
        proof {
            let made = conv_geometry(self.conv1);
            lemma_count_bound(n, g, 34, 34, n, g, h1 + 2, w1 + 2);
            assert(n * g * 34 * 34 == 1156 * (n * g));
            assert(n <= n * g) by (nonlinear_arith)
                requires
                    1 <= n,
                    1 <= g,
            ;
            lemma_count_bound(
                n,
                dims4(images)[1] as int,
                h + 2 * made[4],
                w + 2 * made[4],
                n,
                3,
                h + 2,
                w + 2,
            );
            lemma_count_bound(n, made[1] as int, conv_side(made, h), conv_side(made, w), n, g, h1
                + 2, w1 + 2);
        }
        let x = conv_forward(&self.conv1, images);
        let x = leaky_relu(x);
        proof {
            lemma_count_bound(dims4(x)[0] as int, dims4(x)[1] as int, dims4(x)[2] as int + 2, dims4(x)[3] as int + 2, n, g, h1 + 2, w1 + 2);
            lemma_maps_fit(dims4(x)[0] as int, c2 as int, dims4(x)[2] as int / 2, dims4(x)[3] as int / 2, g, 2, 19, 19, 722, peak);
        }
        let x = down_block(&self.conv2, &self.norm2, x, c2);
        proof {
            lemma_maps_fit(dims4(x)[0] as int, dims4(x)[1] as int, dims4(x)[2] as int + 2, dims4(x)[3] as int + 2, g, 2, 21, 21, 882, peak);
            lemma_maps_fit(dims4(x)[0] as int, c4 as int, dims4(x)[2] as int / 2, dims4(x)[3] as int / 2, g, 4, 9, 9, 324, peak);
        }
        let x = down_block(&self.conv3, &self.norm3, x, c4);
        proof {
            lemma_maps_fit(dims4(x)[0] as int, dims4(x)[1] as int, dims4(x)[2] as int + 2, dims4(x)[3] as int + 2, g, 4, 11, 11, 484, peak);
            lemma_maps_fit(dims4(x)[0] as int, c8 as int, dims4(x)[2] as int / 2, dims4(x)[3] as int / 2, g, 8, 4, 4, 128, peak);
        }
        let x = down_block(&self.conv4, &self.norm4, x, c8);
        proof {
            let made = conv_geometry(self.final_conv);
            lemma_maps_fit(dims4(x)[0] as int, dims4(x)[1] as int, dims4(x)[2] as int + 2 * made[4], dims4(x)[3] as int + 2 * made[4], g, 8, 4, 4, 128, peak);
            lemma_maps_fit(
                dims4(x)[0] as int,
                made[1] as int,
                conv_side(made, dims4(x)[2] as int),
                conv_side(made, dims4(x)[3] as int),
                1,
                1,
                1,
                1,
                1,
                peak,
            );
        }
        let x = conv_forward(&self.final_conv, x);
        proof {
            lemma_maps_fit(dims4(x)[0] as int, dims4(x)[1] as int, dims4(x)[2] as int, dims4(x)[3] as int, 1, 1, 1, 1, 1, peak);
        }
        let x = tensor4_reshape1(x, [batch_size]);
        Ok(tensor1_sigmoid(x))
    }
}

} // verus!
