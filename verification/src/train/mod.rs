//! Training of scenes.

pub mod gaussian_3d;
