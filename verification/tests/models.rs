use burn::backend::Autodiff;
use burn::backend::NdArray;
use burn::module::Module;
use burn::tensor::Distribution;
use burn::tensor::Tensor;
use dcgan::layers::WeightFill;
use dcgan::models::ConfigError;
use dcgan::models::DiscriminatorConfig;
use dcgan::models::GeneratorConfig;
use dcgan::models::ShapeMismatchError;
use dcgan::tensor::Tensor2;
use dcgan::tensor::Tensor4;

type Engine = Autodiff<NdArray>;

fn latents(n: usize, len: usize) -> Tensor2 {
    let device = Default::default();
    Tensor2 { inner: Tensor::<Engine, 2>::random([n, len], Distribution::Normal(0.0, 1.0), &device) }
}

fn images(n: usize, c: usize, h: usize, w: usize) -> Tensor4 {
    let device = Default::default();
    Tensor4 { inner: Tensor::<Engine, 4>::random([n, c, h, w], Distribution::Uniform(-0.5, 0.5), &device) }
}

#[test]
fn generator_config_defaults() {
    let c = GeneratorConfig::new();
    assert_eq!(c.latent_vector_size, 100);
    assert_eq!(c.feature_map_size, 64);
    assert_eq!(DiscriminatorConfig::new().feature_map_size, 64);
}

#[test]
fn generator_init_rejects_bad_sizes() {
    let fill = WeightFill::LayerDefault;
    let zero_latent = GeneratorConfig { latent_vector_size: 0, feature_map_size: 2 };
    assert_eq!(zero_latent.init(&fill).err(), Some(ConfigError::LatentVectorSize));
    let zero_width = GeneratorConfig { latent_vector_size: 100, feature_map_size: 0 };
    assert_eq!(zero_width.init(&fill).err(), Some(ConfigError::FeatureMapSize));
    let both = GeneratorConfig { latent_vector_size: 0, feature_map_size: 0 };
    assert_eq!(both.init(&fill).err(), Some(ConfigError::LatentVectorSize));
    let endless = GeneratorConfig { latent_vector_size: usize::MAX, feature_map_size: 1 };
    assert_eq!(endless.init(&fill).err(), Some(ConfigError::TooLarge));
    let wide = GeneratorConfig { latent_vector_size: 1, feature_map_size: usize::MAX / 2 };
    assert_eq!(wide.init(&fill).err(), Some(ConfigError::TooLarge));
}

#[test]
fn generator_is_built_for_any_latent_size() {
    let config = GeneratorConfig { latent_vector_size: 1025, feature_map_size: 1 };
    let generator = config.init(&WeightFill::LayerDefault).unwrap();
    assert_eq!(generator.forward(latents(2, 1025)).unwrap().inner.dims(), [2, 3, 64, 64]);
    assert_eq!(generator.forward(latents(2, 1024)).err(), Some(ShapeMismatchError::LatentSize));
}

#[test]
fn discriminator_init_rejects_bad_sizes() {
    let fill = WeightFill::Constant(0);
    assert_eq!(
        DiscriminatorConfig { feature_map_size: 0 }.init(&fill).err(),
        Some(ConfigError::FeatureMapSize)
    );
    assert_eq!(
        DiscriminatorConfig { feature_map_size: usize::MAX }.init(&fill).err(),
        Some(ConfigError::TooLarge)
    );
    assert!(DiscriminatorConfig { feature_map_size: 1 }.init(&fill).is_ok());
    assert!(DiscriminatorConfig { feature_map_size: 129 }.init(&fill).is_ok());
}

#[test]
fn constant_fill_reaches_every_convolution() {
    let generator = GeneratorConfig { latent_vector_size: 5, feature_map_size: 1 }
        .init(&WeightFill::Constant(3))
        .unwrap();
    let weights: Vec<Vec<f32>> = vec![
        generator.conv1.inner.clone().into_record().weight.val().into_data().value,
        generator.conv2.inner.clone().into_record().weight.val().into_data().value,
        generator.conv3.inner.clone().into_record().weight.val().into_data().value,
        generator.conv4.inner.clone().into_record().weight.val().into_data().value,
    ];
    assert_eq!(weights[0].len(), 16 * 8 * 16);
    assert_eq!(weights[3].len(), 2 * 3 * 16);
    assert!(weights.iter().all(|w| w.iter().all(|v| *v == 3.0)));
    let discriminator = DiscriminatorConfig { feature_map_size: 1 }.init(&WeightFill::Constant(-2)).unwrap();
    let weights: Vec<Vec<f32>> = vec![
        discriminator.conv1.inner.clone().into_record().weight.val().into_data().value,
        discriminator.conv2.inner.clone().into_record().weight.val().into_data().value,
        discriminator.conv3.inner.clone().into_record().weight.val().into_data().value,
        discriminator.conv4.inner.clone().into_record().weight.val().into_data().value,
        discriminator.final_conv.inner.clone().into_record().weight.val().into_data().value,
    ];
    assert_eq!(weights[0].len(), 3 * 1 * 16);
    assert_eq!(weights[4].len(), 8 * 1 * 16);
    assert!(weights.iter().all(|w| w.iter().all(|v| *v == -2.0)));
}

#[test]
fn generator_forward_shape_and_range() {
    let config = GeneratorConfig { latent_vector_size: 100, feature_map_size: 2 };
    let generator = config.init(&WeightFill::LayerDefault).unwrap();
    assert_eq!(generator.latent_vector_size, 100);
    assert_eq!(generator.feature_map_size, 2);
    let out = generator.forward(latents(3, 100)).unwrap();
    assert_eq!(out.inner.dims(), [3, 3, 64, 64]);
    let values: Vec<f32> = out.inner.into_data().value;
    assert_eq!(values.len(), 3 * 3 * 64 * 64);
    assert!(values.iter().all(|v| *v >= -1.0 && *v <= 1.0));
    assert!(values.iter().any(|v| *v != 0.0));
}

#[test]
fn generator_forward_default_config() {
    let generator = GeneratorConfig::new().init(&WeightFill::LayerDefault).unwrap();
    let out = generator.forward(latents(1, 100)).unwrap();
    assert_eq!(out.inner.dims(), [1, 3, 64, 64]);
    let values: Vec<f32> = out.inner.into_data().value;
    assert!(values.iter().all(|v| *v >= -1.0 && *v <= 1.0));
}

#[test]
fn generator_forward_other_latent_size() {
    let config = GeneratorConfig { latent_vector_size: 7, feature_map_size: 1 };
    let generator = config.init(&WeightFill::Constant(1)).unwrap();
    let out = generator.forward(latents(2, 7)).unwrap();
    assert_eq!(out.inner.dims(), [2, 3, 64, 64]);
    let values: Vec<f32> = out.inner.into_data().value;
    assert!(values.iter().all(|v| *v >= -1.0 && *v <= 1.0));
}

#[test]
fn generator_output_is_squashed() {
    let config = GeneratorConfig { latent_vector_size: 3, feature_map_size: 2 };
    let generator = config.init(&WeightFill::Constant(3)).unwrap();
    let out = generator.forward(latents(2, 3)).unwrap();
    let values: Vec<f32> = out.inner.into_data().value;
    assert!(values.iter().all(|v| *v >= -1.0 && *v <= 1.0));
    assert!(values.iter().any(|v| v.abs() > 0.99));
}

#[test]
fn generator_forward_rejects_mismatch() {
    let config = GeneratorConfig { latent_vector_size: 100, feature_map_size: 1 };
    let generator = config.init(&WeightFill::LayerDefault).unwrap();
    assert_eq!(generator.forward(latents(2, 99)).err(), Some(ShapeMismatchError::LatentSize));
    assert_eq!(generator.forward(latents(0, 100)).err(), Some(ShapeMismatchError::BatchSize));
    assert_eq!(generator.forward(latents(257, 100)).unwrap().inner.dims(), [257, 3, 64, 64]);
    assert_eq!(generator.forward(latents(0, 99)).err(), Some(ShapeMismatchError::BatchSize));
    assert_eq!(
        generator.forward_print_sizes(latents(2, 101)).err().map(|e| e),
        Some(ShapeMismatchError::LatentSize)
    );
}

#[test]
fn generator_forward_print_sizes_reports_every_stage() {
    let config = GeneratorConfig { latent_vector_size: 100, feature_map_size: 2 };
    let generator = config.init(&WeightFill::LayerDefault).unwrap();
    let (out, sizes) = generator.forward_print_sizes(latents(2, 100)).unwrap();
    assert_eq!(out.inner.dims(), [2, 3, 64, 64]);
    assert_eq!(sizes.latents, [2, 100]);
    assert_eq!(sizes.projection, [2, 32, 4, 4]);
    assert_eq!(sizes.conv1, [2, 16, 8, 8]);
    assert_eq!(sizes.conv2, [2, 8, 16, 16]);
    assert_eq!(sizes.conv3, [2, 4, 32, 32]);
    assert_eq!(sizes.conv4, [2, 3, 64, 64]);
}

#[test]
fn discriminator_forward_shape_and_range() {
    let discriminator = DiscriminatorConfig { feature_map_size: 2 }.init(&WeightFill::LayerDefault).unwrap();
    let out = discriminator.forward(images(3, 3, 64, 64)).unwrap();
    assert_eq!(out.inner.dims(), [3]);
    let values: Vec<f32> = out.inner.into_data().value;
    assert_eq!(values.len(), 3);
    assert!(values.iter().all(|v| *v > 0.0 && *v < 1.0));
}

#[test]
fn discriminator_verdicts_reach_the_bounds() {
    let sure = DiscriminatorConfig { feature_map_size: 1 }.init(&WeightFill::Constant(-2)).unwrap();
    let values: Vec<f32> = sure.forward(images(3, 3, 64, 64)).unwrap().inner.into_data().value;
    assert!(values.iter().all(|v| *v >= 0.0 && *v <= 1.0));
    assert!(values.iter().any(|v| *v == 1.0));
    let never = DiscriminatorConfig { feature_map_size: 4 }.init(&WeightFill::Constant(1)).unwrap();
    let values: Vec<f32> = never.forward(images(3, 3, 64, 64)).unwrap().inner.into_data().value;
    assert!(values.iter().all(|v| *v >= 0.0 && *v <= 1.0));
    assert!(values.iter().any(|v| *v == 0.0));
}

#[test]
fn discriminator_forward_default_config() {
    let discriminator = DiscriminatorConfig::new().init(&WeightFill::LayerDefault).unwrap();
    let out = discriminator.forward(images(1, 3, 64, 64)).unwrap();
    assert_eq!(out.inner.dims(), [1]);
    let values: Vec<f32> = out.inner.into_data().value;
    assert!(values[0] > 0.0 && values[0] < 1.0);
}

#[test]
fn discriminator_zero_weights_give_one_half() {
    let discriminator = DiscriminatorConfig { feature_map_size: 1 }.init(&WeightFill::Constant(0)).unwrap();
    let out = discriminator.forward(images(2, 3, 64, 64)).unwrap();
    let values: Vec<f32> = out.inner.into_data().value;
    assert!((values[0] - 0.5).abs() < 1e-6);
    assert!((values[1] - 0.5).abs() < 1e-6);
}

#[test]
fn discriminator_accepts_sizes_that_reduce_to_one() {
    let discriminator = DiscriminatorConfig { feature_map_size: 1 }.init(&WeightFill::LayerDefault).unwrap();
    assert_eq!(discriminator.forward(images(1, 3, 79, 64)).unwrap().inner.dims(), [1]);
    assert_eq!(discriminator.forward(images(2, 3, 65, 79)).unwrap().inner.dims(), [2]);
}

#[test]
fn discriminator_forward_rejects_mismatch() {
    let discriminator = DiscriminatorConfig { feature_map_size: 1 }.init(&WeightFill::LayerDefault).unwrap();
    assert_eq!(discriminator.forward(images(1, 4, 64, 64)).err(), Some(ShapeMismatchError::Channels));
    assert_eq!(discriminator.forward(images(1, 1, 64, 64)).err(), Some(ShapeMismatchError::Channels));
    assert_eq!(discriminator.forward(images(1, 3, 63, 64)).err(), Some(ShapeMismatchError::ImageSize));
    assert_eq!(discriminator.forward(images(1, 3, 64, 80)).err(), Some(ShapeMismatchError::ImageSize));
    assert_eq!(discriminator.forward(images(1, 3, 32, 32)).err(), Some(ShapeMismatchError::ImageSize));
    assert_eq!(discriminator.forward(images(0, 3, 64, 64)).err(), Some(ShapeMismatchError::BatchSize));
    assert_eq!(discriminator.forward(images(257, 3, 2, 2)).err(), Some(ShapeMismatchError::ImageSize));
    assert_eq!(discriminator.forward(images(257, 3, 64, 64)).unwrap().inner.dims(), [257]);
    assert_eq!(discriminator.forward(images(0, 4, 1, 1)).err(), Some(ShapeMismatchError::BatchSize));
}

#[test]
fn generator_output_feeds_discriminator() {
    let generator = GeneratorConfig { latent_vector_size: 100, feature_map_size: 1 }
        .init(&WeightFill::LayerDefault)
        .unwrap();
    let discriminator = DiscriminatorConfig { feature_map_size: 1 }.init(&WeightFill::LayerDefault).unwrap();
    let fake = generator.forward(latents(4, 100)).unwrap();
    let verdicts = discriminator.forward(fake).unwrap();
    assert_eq!(verdicts.inner.dims(), [4]);
}
