use vstd::prelude::*;

verus! {

/// Which eigenvalues the solver is asked to converge to.
#[derive(Clone, Copy, Debug, PartialEq, Eq, Structural)]
pub enum Target {
    Smallest,
    Largest,
    ClosestGeq,
    ClosestLeq,
    ClosestAbs,
}

/// A named bundle of solver heuristics.
#[derive(Clone, Copy, Debug, PartialEq, Eq, Structural)]
pub enum MethodPreset {
    DefaultMinTime,
    DefaultMinMatvecs,
}

/// The integer part of the configuration handed to the solver for one computation.
#[derive(Clone, Copy, Debug, PartialEq, Eq, Structural)]
pub struct SolverConfig {
    pub n: i64,
    pub num_evals: i32,
    pub target: Target,
    pub num_target_shifts: i32,
    pub max_matvecs: i64,
    pub preset: MethodPreset,
}

/// The matrix-vector product budget for a problem of size `n`.
pub open spec fn matvec_budget(n: nat) -> nat {
    n * n
}

/// The sizes this library can hand to the solver.
pub open spec fn problem_fits(n: nat, nev: nat) -> bool {
    &&& 1 <= n
    &&& 1 <= nev
    &&& matvec_budget(n) <= i64::MAX
    &&& nev <= i32::MAX
    &&& n * nev <= usize::MAX
}

impl SolverConfig {
    pub open spec fn describes(self, n: nat, nev: nat) -> bool {
        &&& self.n == n
        &&& self.num_evals == nev
        &&& self.target == Target::ClosestGeq
        &&& self.num_target_shifts == 1
        &&& self.max_matvecs == matvec_budget(n)
        &&& self.preset == MethodPreset::DefaultMinTime
    }

    /// Whether a problem of size `n` with `nev` eigenvalues can be handed to the solver.
    pub fn fits(n: usize, nev: usize) -> (r: bool)
        ensures
            r == problem_fits(n as nat, nev as nat),
    {
        if n == 0 || nev == 0 || nev > i32::MAX as usize {
            return false;
        }
        let a: u128 = n as u128;
        let b: u128 = nev as u128;
        assert(a * a <= u128::MAX && a * b <= u128::MAX) by (nonlinear_arith)
            requires a <= u64::MAX, b <= u64::MAX;
        let square: u128 = a * a;
        let total: u128 = a * b;
        square <= i64::MAX as u128 && total <= usize::MAX as u128
    }

    /// The configuration that asks for the `nev` smallest eigenvalues at or above one
    /// shift of an `n` by `n` matrix, within a budget of `n * n` products.
    pub fn for_problem(n: usize, nev: usize) -> (c: SolverConfig)
        requires
            problem_fits(n as nat, nev as nat),
        ensures
            c.describes(n as nat, nev as nat),
    {
        assert(n <= n * n) by (nonlinear_arith)
            requires 1 <= n;
        let size: i64 = n as i64;
        SolverConfig {
            n: size,
            num_evals: nev as i32,
            target: Target::ClosestGeq,
            num_target_shifts: 1,
            max_matvecs: size * size,
            preset: MethodPreset::DefaultMinTime,
        }
    }
}

} // verus!
