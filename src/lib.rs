//! Adversaries and loss functions for online learning, in the full-information
//! and the bandit setting.

/// Adversaries (environments): the full-information capability and the
/// bandit view derived from it.
pub mod adversary;
/// Loss functions.
pub mod loss_function;

pub use adversary::base;
