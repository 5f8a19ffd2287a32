//! Covariance (Gram) matrices for Gaussian-process models.
//!
//! A kernel is any function of two inputs; the library assembles the matrix
//! of its values over every pair of training inputs, evaluating each unordered
//! pair once, and keeps it together with the training data it was built from.

use vstd::prelude::*;

pub mod covariance;
pub mod error;
pub mod gp;

pub use covariance::build_covariance;
pub use error::GpError;
pub use gp::GaussianProcess;
