[package]
name = "gausplat-trainer"
version = "0.1.0"
edition = "2021"
publish = false

[dependencies]
burn = { version = "0.14.0", default-features = false, features = ["std", "ndarray", "autodiff"] }
dashmap = "6.1.0"
log = "0.4"
rand = "0.8"
rand_distr = "0.4"
rayon = "1.10"
thiserror = "1.0"
