//! The bookkeeping core of a trainer of 3D Gaussian splatting scenes.
//!
//! A scene is a set of points, each with a row in five parameter arrays.
//! Training changes the rows step by step and, every few hundred
//! iterations, the set itself: points are pruned, cloned and split. This
//! crate keeps everything that is indexed by the points in step while that
//! happens: the parameter arrays, the moment buffers of the optimizers and
//! the running statistics of density control. It also holds the schedules,
//! the iteration count and the record of a checkpoint.
//!
//! The numbers in the arrays are not looked at here. The arithmetic on
//! them (the loss, the optimizer step, the learning-rate decay, the
//! thresholds) is the caller's, who hands its results in; the types are
//! generic in the number `T` of the arrays and the number `S` of the
//! coefficients.

pub mod error;
pub mod metric;
pub mod optimize;
pub mod range;
pub mod render;
pub mod rows;
pub mod scene;
pub mod train;
