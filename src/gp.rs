use vstd::prelude::*;

use crate::covariance::{accepts_all_pairs, build_covariance, is_covariance_of};
use crate::error::GpError;

verus! {

/// A Gaussian-process model: its training inputs and targets, its kernel,
/// and the covariance matrix of the kernel over the training inputs.
pub struct GaussianProcess<X, V, K> {
    x_train: Vec<X>,
    y_train: Vec<X>,
    kernel: K,
    cov_matrix: Vec<Vec<V>>,
}

impl<X: Copy, V: Copy, K: Fn(X, X) -> V> GaussianProcess<X, V, K> {
    /// The training inputs.
    pub closed spec fn inputs(&self) -> Seq<X> {
        self.x_train@
    }

    /// The training targets, paired with the inputs.
    pub closed spec fn targets(&self) -> Seq<X> {
        self.y_train@
    }

    /// The kernel the model was built with.
    pub closed spec fn spec_kernel(&self) -> K {
        self.kernel
    }

    /// The covariance matrix, row by row.
    pub closed spec fn matrix(&self) -> Seq<Vec<V>> {
        self.cov_matrix@
    }

    /// A model holds at least one training point, as many targets as inputs,
    /// and the covariance matrix of its kernel over its inputs.
    pub open spec fn wf(&self) -> bool {
        &&& self.inputs().len() > 0
        &&& self.targets().len() == self.inputs().len()
        &&& is_covariance_of(self.matrix(), self.inputs(), self.spec_kernel())
    }

    /// Builds a model from training inputs, their targets and a kernel.
    ///
    /// Inputs and targets of different lengths are refused with
    /// `LengthMismatch`; an empty training set with `EmptyTrainingSet`.
    /// Otherwise the covariance matrix is built at once.
    pub fn new(x_train: Vec<X>, y_train: Vec<X>, kernel: K) -> (r: Result<Self, GpError>)
        requires
            accepts_all_pairs(kernel, x_train@),
        ensures
            x_train.len() != y_train.len() ==> r == Err::<Self, GpError>(GpError::LengthMismatch),
            x_train.len() == y_train.len() && x_train.len() == 0 ==> r == Err::<Self, GpError>(
                GpError::EmptyTrainingSet,
            ),
            x_train.len() == y_train.len() && x_train.len() > 0 ==> r is Ok,
            r is Ok ==> ({
                let gp = r->Ok_0;
                &&& gp.wf()
                &&& gp.inputs() == x_train@
                &&& gp.targets() == y_train@
                &&& gp.spec_kernel() == kernel
            }),
    {
        if x_train.len() != y_train.len() {
            return Err(GpError::LengthMismatch);
        }
        match build_covariance(&x_train, &kernel) {
            Ok(cov_matrix) => Ok(GaussianProcess { x_train, y_train, kernel, cov_matrix }),
            Err(e) => Err(e),
        }
    }

    /// The number of training points.
    pub fn len(&self) -> (r: usize)
        ensures
            r == self.inputs().len(),
    {
        self.x_train.len()
    }

    /// The training inputs.
    pub fn x_train(&self) -> (r: &Vec<X>)
        ensures
            r@ == self.inputs(),
    {
        &self.x_train
    }

    /// The training targets.
    pub fn y_train(&self) -> (r: &Vec<X>)
        ensures
            r@ == self.targets(),
    {
        &self.y_train
    }

    /// The kernel.
    pub fn kernel(&self) -> (r: &K)
        ensures
            *r == self.spec_kernel(),
    {
        &self.kernel
    }

    /// The covariance matrix, row by row.
    pub fn covariance(&self) -> (r: &Vec<Vec<V>>)
        ensures
            r@ == self.matrix(),
    {
        &self.cov_matrix
    }
}

} // verus!
