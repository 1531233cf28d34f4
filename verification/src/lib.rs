//! A generative adversarial pair of image networks on the burn tensor
//! engine: the generator and the discriminator with their forward passes, the
//! activation and the loss they use, the ingestion of images into a content
//! store, the batching of its records, and the schedule of a training run.
//!
//! The tensor engine computes; this library composes. What is proved is how
//! the pieces fit: the extents of every tensor on its way through a network,
//! which inputs are refused and why, the bytes of every record and the value
//! every byte of a batch stands for, when a store counts as complete, and the
//! order in which the two networks are updated.

pub mod shape;
pub mod tensor;
pub mod leaky_relu;
pub mod cross_entropy_loss;
pub mod layers;
pub mod models;
pub mod data_loader;
pub mod training;
