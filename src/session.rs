use vstd::prelude::*;

use crate::callback::CallbackError;
use crate::config::{matvec_budget, problem_fits, SolverConfig};
use crate::results::{Eigenpairs, ResultBuffers};

verus! {

/// Where one eigenvalue computation stands.
#[derive(Clone, Copy, Debug, PartialEq, Eq, Structural)]
pub enum Phase {
    Unconfigured,
    Configured,
    Running,
    Succeeded,
    Failed,
    Released,
}

/// Why a computation produced no eigenvalues. Each carries the solver's nonzero code.
#[derive(Clone, Copy, Debug, PartialEq, Eq, Structural)]
pub enum SolveError {
    /// Selecting the method preset failed; no product was computed.
    ConfigurationRejected(i32),
    /// The solver ran and returned a nonzero status.
    SolverFailed(i32),
}

impl SolveError {
    pub open spec fn spec_code(self) -> i32 {
        match self {
            SolveError::ConfigurationRejected(c) => c,
            SolveError::SolverFailed(c) => c,
        }
    }

    /// The integer code that the solver reported.
    pub fn code(&self) -> (r: i32)
        ensures
            r == self.spec_code(),
    {
        match self {
            SolveError::ConfigurationRejected(c) => *c,
            SolveError::SolverFailed(c) => *c,
        }
    }
}

/// The abstract state of a session.
pub struct SessionState {
    pub phase: Phase,
    /// The problem size, which is also the length of every vector a product reads or writes.
    pub n: nat,
    pub nev: nat,
    pub budget: nat,
    /// How many products have been granted so far.
    pub used: nat,
    pub error: Option<SolveError>,
}

impl SessionState {
    pub open spec fn wf(self) -> bool {
        &&& self.used <= self.budget
        &&& self.phase == Phase::Configured ==> self.used == 0
        &&& self.phase == Phase::Unconfigured ==> self.n == 0 && self.nev == 0 && self.budget == 0
        &&& self.phase != Phase::Unconfigured ==> problem_fits(self.n, self.nev) && self.budget
            == matvec_budget(self.n)
        &&& self.phase == Phase::Failed ==> self.error is Some
        &&& (self.phase != Phase::Failed && self.phase != Phase::Released) ==> self.error is None
        &&& self.error matches Some(SolveError::ConfigurationRejected(_)) ==> self.used == 0
        &&& self.error matches Some(e) ==> e.spec_code() != 0
    }
}

pub open spec fn fresh_state() -> SessionState {
    SessionState { phase: Phase::Unconfigured, n: 0, nev: 0, budget: 0, used: 0, error: None }
}

pub open spec fn after_configure(s: SessionState, n: nat, nev: nat) -> SessionState {
    SessionState { phase: Phase::Configured, n, nev, budget: matvec_budget(n), used: 0, error: None }
}

/// Selecting the method preset returned `code`: zero starts the solver, anything else
/// ends the computation before any product.
pub open spec fn after_preset(s: SessionState, code: i32) -> SessionState {
    if s.phase != Phase::Configured {
        s
    } else if code == 0 {
        SessionState { phase: Phase::Running, ..s }
    } else {
        SessionState {
            phase: Phase::Failed,
            error: Some(SolveError::ConfigurationRejected(code)),
            ..s
        }
    }
}

/// The answer to one request for a product: the vector length, or why it is refused.
pub open spec fn matvec_outcome(s: SessionState) -> Result<nat, CallbackError> {
    if s.phase != Phase::Running {
        Err(CallbackError::NotRunning)
    } else if s.used >= s.budget {
        Err(CallbackError::BudgetExhausted)
    } else {
        Ok(s.n)
    }
}

pub open spec fn after_matvec(s: SessionState) -> SessionState {
    if matvec_outcome(s) is Ok {
        SessionState { used: s.used + 1, ..s }
    } else {
        s
    }
}

/// The solver returned `status`: zero is success, anything else is failure.
pub open spec fn after_solver(s: SessionState, status: i32) -> SessionState {
    if s.phase != Phase::Running {
        s
    } else if status == 0 {
        SessionState { phase: Phase::Succeeded, ..s }
    } else {
        SessionState { phase: Phase::Failed, error: Some(SolveError::SolverFailed(status)), ..s }
    }
}

pub open spec fn after_release(s: SessionState) -> SessionState {
    if s.phase == Phase::Succeeded || s.phase == Phase::Failed {
        SessionState { phase: Phase::Released, ..s }
    } else {
        s
    }
}

/// The state of one eigenvalue computation, from configuration to release.
pub struct Session {
    phase: Phase,
    n: usize,
    nev: usize,
    budget: u64,
    used: u64,
    error: Option<SolveError>,
}

impl View for Session {
    type V = SessionState;

    closed spec fn view(&self) -> SessionState {
        SessionState {
            phase: self.phase,
            n: self.n as nat,
            nev: self.nev as nat,
            budget: self.budget as nat,
            used: self.used as nat,
            error: self.error,
        }
    }
}

impl Session {
    pub open spec fn wf(&self) -> bool {
        self@.wf()
    }

    pub fn new() -> (s: Session)
        ensures
            s@ == fresh_state(),
            s.wf(),
    {
        Session { phase: Phase::Unconfigured, n: 0, nev: 0, budget: 0, used: 0, error: None }
    }

    pub fn phase(&self) -> (r: Phase)
        ensures
            r == self@.phase,
    {
        self.phase
    }

    pub fn dimension(&self) -> (r: usize)
        ensures
            r == self@.n,
    {
        self.n
    }

    pub fn num_evals(&self) -> (r: usize)
        ensures
            r == self@.nev,
    {
        self.nev
    }

    pub fn matvecs(&self) -> (r: u64)
        ensures
            r == self@.used,
    {
        self.used
    }

    /// Fixes the problem size and the number of eigenvalues, and returns the
    /// configuration that the solver is to receive.
    pub fn configure(&mut self, n: usize, nev: usize) -> (c: SolverConfig)
        requires
            old(self).wf(),
            old(self)@.phase == Phase::Unconfigured,
            problem_fits(n as nat, nev as nat),
        ensures
            final(self).wf(),
            final(self)@ == after_configure(old(self)@, n as nat, nev as nat),
            c.describes(n as nat, nev as nat),
    {
        let c = SolverConfig::for_problem(n, nev);
        self.phase = Phase::Configured;
        self.n = n;
        self.nev = nev;
        self.budget = c.max_matvecs as u64;
        self.used = 0;
        self.error = None;
        c
    }

    /// Records what selecting the method preset returned.
    pub fn preset_selected(&mut self, code: i32)
        requires
            old(self).wf(),
        ensures
            final(self).wf(),
            final(self)@ == after_preset(old(self)@, code),
    {
        if self.phase == Phase::Configured {
            if code == 0 {
                self.phase = Phase::Running;
            } else {
                self.phase = Phase::Failed;
                self.error = Some(SolveError::ConfigurationRejected(code));
            }
        }
    }

    /// Decides a request for one product. On `Ok(n)` the product is granted and
    /// counted, and its vectors have `n` entries.
    pub fn begin_matvec(&mut self) -> (r: Result<usize, CallbackError>)
        requires
            old(self).wf(),
        ensures
            final(self).wf(),
            final(self)@ == after_matvec(old(self)@),
            match (r, matvec_outcome(old(self)@)) {
                (Ok(k), Ok(m)) => k == m,
                (Err(e), Err(f)) => e == f,
                _ => false,
            },
    {
        if self.phase != Phase::Running {
            Err(CallbackError::NotRunning)
        } else if self.used >= self.budget {
            Err(CallbackError::BudgetExhausted)
        } else {
            self.used = self.used + 1;
            Ok(self.n)
        }
    }

    /// Records the status that the solver returned.
    pub fn solver_returned(&mut self, status: i32)
        requires
            old(self).wf(),
        ensures
            final(self).wf(),
            final(self)@ == after_solver(old(self)@, status),
    {
        if self.phase == Phase::Running {
            if status == 0 {
                self.phase = Phase::Succeeded;
            } else {
                self.phase = Phase::Failed;
                self.error = Some(SolveError::SolverFailed(status));
            }
        }
    }

    /// Marks the solver's internal state as released.
    pub fn release(&mut self)
        requires
            old(self).wf(),
        ensures
            final(self).wf(),
            final(self)@ == after_release(old(self)@),
    {
        if self.phase == Phase::Succeeded || self.phase == Phase::Failed {
            self.phase = Phase::Released;
        }
    }

    /// Storage for the results of the configured computation.
    pub fn allocate_results<T: Copy>(&self, zero: T) -> (b: ResultBuffers<T>)
        requires
            self.wf(),
            self@.phase != Phase::Unconfigured,
        ensures
            b.sized_for(self@.n, self@.nev),
            b.eigenvalues@ == Seq::new(self@.nev, |i: int| zero),
            b.residual_norms@ == Seq::new(self@.nev, |i: int| zero),
            b.eigenvectors@ == Seq::new(self@.n * self@.nev, |i: int| zero),
    {
        ResultBuffers::allocate(self.n, self.nev, zero)
    }

    /// Hands out what a released session produced: the eigenvalues and residual
    /// norms as the solver left them on success, the recorded error otherwise.
    pub fn finish<T>(&self, buffers: ResultBuffers<T>) -> (r: Result<Eigenpairs<T>, SolveError>)
        requires
            self.wf(),
            self@.phase == Phase::Released,
            buffers.sized_for(self@.n, self@.nev),
        ensures
            match self@.error {
                None => r matches Ok(p) && p.eigenvalues@ == buffers.eigenvalues@
                    && p.residual_norms@ == buffers.residual_norms@
                    && p.eigenvalues@.len() == self@.nev
                    && p.residual_norms@.len() == self@.nev,
                Some(e) => r == Err::<Eigenpairs<T>, SolveError>(e),
            },
    {
        match self.error {
            None => Ok(
                Eigenpairs {
                    eigenvalues: buffers.eigenvalues,
                    residual_norms: buffers.residual_norms,
                },
            ),
            Some(e) => Err(e),
        }
    }
}

} // verus!
