//! Sampling from a univariate autoregressive random process.

pub mod univariate;
