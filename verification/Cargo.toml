[package]
name = "dcgan"
version = "0.1.0"
edition = "2021"
publish = false

[dependencies]
burn = { version = "=0.12.0", default-features = false, features = ["std", "ndarray", "autodiff", "dataset", "sqlite-bundled"] }
# No file of this crate names bincode. burn-core 0.12.0 asks for a pre-release
# of it and does not build with the release that followed; this line holds
# the pre-release that burn-core was written for.
bincode = { version = "=2.0.0-rc.3", default-features = false }
image = { version = "=0.24.9", default-features = false, features = ["jpeg"] }
