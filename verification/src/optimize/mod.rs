//! State of the optimizers.

pub mod adam;
pub mod learning_rate;
