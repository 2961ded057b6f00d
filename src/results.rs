use vstd::prelude::*;

verus! {

/// The storage that the solver fills in place during one computation.
pub struct ResultBuffers<T> {
    pub eigenvalues: Vec<T>,
    pub residual_norms: Vec<T>,
    /// One vector of the problem size per eigenvalue, laid out one after another.
    pub eigenvectors: Vec<T>,
}

/// The outcome of a successful computation, in the order the solver produced it.
pub struct Eigenpairs<T> {
    pub eigenvalues: Vec<T>,
    pub residual_norms: Vec<T>,
}

impl<T> ResultBuffers<T> {
    pub open spec fn sized_for(&self, n: nat, nev: nat) -> bool {
        &&& self.eigenvalues@.len() == nev
        &&& self.residual_norms@.len() == nev
        &&& self.eigenvectors@.len() == n * nev
    }
}

/// A vector of `len` copies of `v`.
fn filled<T: Copy>(len: usize, v: T) -> (r: Vec<T>)
    ensures
        r@ == Seq::new(len as nat, |i: int| v),
{
    let mut r: Vec<T> = Vec::new();
    let mut i: usize = 0;
    while i < len
        invariant
            i <= len,
            r@ == Seq::new(i as nat, |k: int| v),
        decreases len - i,
    {
        r.push(v);
        i = i + 1;
        assert(r@ =~= Seq::new(i as nat, |k: int| v));
    }
    r
}

impl<T: Copy> ResultBuffers<T> {
    /// Buffers for `nev` eigenpairs of an `n` by `n` problem, every entry set to `zero`.
    pub fn allocate(n: usize, nev: usize, zero: T) -> (b: ResultBuffers<T>)
        requires
            n * nev <= usize::MAX,
        ensures
            b.sized_for(n as nat, nev as nat),
            b.eigenvalues@ == Seq::new(nev as nat, |i: int| zero),
            b.residual_norms@ == Seq::new(nev as nat, |i: int| zero),
            b.eigenvectors@ == Seq::new((n * nev) as nat, |i: int| zero),
    {
        ResultBuffers {
            eigenvalues: filled(nev, zero),
            residual_norms: filled(nev, zero),
            eigenvectors: filled(n * nev, zero),
        }
    }
}

} // verus!
