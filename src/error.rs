use vstd::prelude::*;

verus! {

/// Why a kernel, a covariance matrix or a Gaussian process could not be built.
#[derive(Debug, Clone, Copy, PartialEq, Eq, Structural)]
pub enum GpError {
    /// A kernel's length scale or period is not strictly positive.
    InvalidParameter,
    /// A covariance matrix was asked for over no training inputs.
    EmptyTrainingSet,
    /// The training inputs and targets differ in length.
    LengthMismatch,
}

} // verus!
