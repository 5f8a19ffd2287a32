use vstd::prelude::*;

use crate::error::GpError;

verus! {

/// The kernel may be evaluated on every pair of inputs drawn from `xs`.
pub open spec fn accepts_all_pairs<X, V, F: Fn(X, X) -> V>(kernel: F, xs: Seq<X>) -> bool {
    forall|i: int, j: int|
        0 <= i < xs.len() && 0 <= j < xs.len() ==> call_requires(kernel, (#[trigger] xs[i], #[trigger] xs[j]))
}

/// `m` is an `n` by `n` matrix, stored row by row.
pub open spec fn is_square<V>(m: Seq<Vec<V>>, n: nat) -> bool {
    &&& m.len() == n
    &&& forall|i: int| 0 <= i < n ==> (#[trigger] m[i])@.len() == n
}

/// `m` is the covariance matrix of `kernel` over `xs`: it is square of the
/// size of `xs`, symmetric, each diagonal entry `m[i][i]` is a value that
/// `kernel(xs[i], xs[i])` returns, and so is each entry above it, `m[i][j]`
/// with `i < j`, of `kernel(xs[i], xs[j])`.
pub open spec fn is_covariance_of<X, V, F: Fn(X, X) -> V>(m: Seq<Vec<V>>, xs: Seq<X>, kernel: F) -> bool {
    &&& is_square(m, xs.len())
    &&& forall|i: int| 0 <= i < xs.len() ==> call_ensures(kernel, (xs[i], xs[i]), #[trigger] m[i]@[i])
    &&& forall|i: int, j: int|
        0 <= i <= j < xs.len() ==> call_ensures(kernel, (xs[i], xs[j]), #[trigger] m[i]@[j])
    &&& forall|i: int, j: int|
        0 <= i < xs.len() && 0 <= j < xs.len() ==> #[trigger] m[i]@[j] == m[j]@[i]
}

/// Builds the covariance matrix of `kernel` over the training inputs `x_train`.
///
/// The kernel is called once for each pair `i <= j`; the value is stored at
/// `[i][j]` and mirrored to `[j][i]`. An empty training set is refused.
pub fn build_covariance<X: Copy, V: Copy, F: Fn(X, X) -> V>(x_train: &Vec<X>, kernel: &F) -> (r: Result<
    Vec<Vec<V>>,
    GpError,
>)
    requires
        accepts_all_pairs(*kernel, x_train@),
    ensures
        x_train.len() == 0 <==> r == Err::<Vec<Vec<V>>, GpError>(GpError::EmptyTrainingSet),
        r is Ok ==> is_covariance_of(r->Ok_0@, x_train@, *kernel),
        x_train.len() > 0 ==> r is Ok,
{
    let n = x_train.len();
    if n == 0 {
        return Err(GpError::EmptyTrainingSet);
    }
    let mut m: Vec<Vec<V>> = Vec::new();
    let mut i: usize = 0;
    while i < n
        invariant
            n == x_train.len(),
            i <= n,
            m.len() == i,
            accepts_all_pairs(*kernel, x_train@),
            forall|r: int| 0 <= r < i ==> (#[trigger] m@[r])@.len() == n,
            forall|r: int, c: int|
                0 <= r < i && r <= c < n ==> call_ensures(*kernel, (x_train@[r], x_train@[c]), #[trigger] m@[r]@[c]),
            forall|r: int, c: int| 0 <= r < i && 0 <= c < i ==> #[trigger] m@[r]@[c] == m@[c]@[r],
        decreases n - i,
    {
        let xi = x_train[i];
        let mut row: Vec<V> = Vec::new();
        let mut j: usize = 0;
        // Below the diagonal: mirror the column already computed in earlier rows.
        while j < i
            invariant
                j <= i < n,
                m.len() == i,
                row.len() == j,
                forall|r: int| 0 <= r < i ==> (#[trigger] m@[r])@.len() == n,
                forall|c: int| 0 <= c < j ==> #[trigger] row@[c] == m@[c]@[i as int],
            decreases i - j,
        {
            row.push(m[j][i]);
            j = j + 1;
        }
        // On and above the diagonal: evaluate the kernel.
        while j < n
            invariant
                n == x_train.len(),
                i <= j <= n,
                i < n,
                xi == x_train@[i as int],
                row.len() == j,
                accepts_all_pairs(*kernel, x_train@),
                forall|c: int| 0 <= c < i ==> #[trigger] row@[c] == m@[c]@[i as int],
                forall|c: int|
                    i <= c < j ==> call_ensures(*kernel, (x_train@[i as int], x_train@[c]), #[trigger] row@[c]),
            decreases n - j,
        {
            let v = kernel(xi, x_train[j]);
            row.push(v);
            j = j + 1;
        }
        m.push(row);
        i = i + 1;
    }
    Ok(m)
}

/// With a symmetric kernel every entry of a covariance matrix, below the
/// diagonal as well as on and above it, is a value that the kernel returns
/// on the corresponding pair of inputs.
pub proof fn lemma_symmetric_kernel_entries<X, V, F: Fn(X, X) -> V>(m: Seq<Vec<V>>, xs: Seq<X>, kernel: F)
    requires
        is_covariance_of(m, xs, kernel),
        forall|a: X, b: X, v: V| call_ensures(kernel, (a, b), v) ==> call_ensures(kernel, (b, a), v),
    ensures
        forall|i: int, j: int|
            0 <= i < xs.len() && 0 <= j < xs.len() ==> call_ensures(kernel, (xs[i], xs[j]), #[trigger] m[i]@[j]),
{
    assert forall|i: int, j: int| 0 <= i < xs.len() && 0 <= j < xs.len() implies call_ensures(
        kernel,
        (xs[i], xs[j]),
        #[trigger] m[i]@[j],
    ) by {
        if j < i {
            assert(call_ensures(kernel, (xs[j], xs[i]), m[j]@[i]));
            assert(m[i]@[j] == m[j]@[i]);
        }
    }
}

} // verus!
