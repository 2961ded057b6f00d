use vstd::prelude::*;

use crate::callback::CallbackError;
use crate::session::{
    after_matvec, after_preset, after_release, after_solver, matvec_outcome, Phase, SessionState,
    SolveError,
};

verus! {

/// A session never grants more products than its budget of `n * n`, and once the
/// budget is spent every further request is refused and changes nothing.
pub proof fn budget_bounds_products(s: SessionState)
    requires
        s.wf(),
        s.phase != Phase::Unconfigured,
    ensures
        s.used <= s.n * s.n,
        after_matvec(s).wf(),
        after_matvec(s).used <= s.n * s.n,
        s.used == s.n * s.n ==> matvec_outcome(s) == Err::<nat, CallbackError>(
            CallbackError::BudgetExhausted,
        ) || matvec_outcome(s) == Err::<nat, CallbackError>(CallbackError::NotRunning),
        s.used == s.n * s.n ==> after_matvec(s) == s,
{
}

/// Every granted product has exactly one entry per matrix row.
pub proof fn granted_products_have_problem_length(s: SessionState)
    requires
        s.wf(),
        matvec_outcome(s) is Ok,
    ensures
        matvec_outcome(s) == Ok::<nat, CallbackError>(s.n),
        s.phase == Phase::Running,
{
}

/// A rejected method preset ends the computation with that code as a configuration
/// error, before any product is computed, and no later request for one is granted.
pub proof fn rejected_preset_computes_no_product(s: SessionState, code: i32)
    requires
        s.wf(),
        s.phase == Phase::Configured,
        code != 0,
    ensures
        after_preset(s, code).phase == Phase::Failed,
        after_preset(s, code).used == 0,
        after_preset(s, code).error == Some(SolveError::ConfigurationRejected(code)),
        matvec_outcome(after_preset(s, code)) == Err::<nat, CallbackError>(
            CallbackError::NotRunning,
        ),
        after_matvec(after_preset(s, code)) == after_preset(s, code),
        after_release(after_preset(s, code)).phase == Phase::Released,
        after_release(after_preset(s, code)).used == 0,
        after_release(after_preset(s, code)).error == Some(SolveError::ConfigurationRejected(code)),
{
}

/// Whatever status the solver returns, a running session is released afterwards, and
/// a nonzero status is kept as the session's error.
pub proof fn running_session_is_released(s: SessionState, status: i32)
    requires
        s.wf(),
        s.phase == Phase::Running,
    ensures
        after_release(after_solver(s, status)).phase == Phase::Released,
        after_release(after_solver(s, status)).wf(),
        status == 0 ==> after_release(after_solver(s, status)).error is None,
        status != 0 ==> after_release(after_solver(s, status)).error == Some(
            SolveError::SolverFailed(status),
        ),
{
}

/// One session runs one computation: once it has left the running phase, no event
/// brings it back, and a released session stays as it is.
pub proof fn finished_session_never_runs_again(s: SessionState, code: i32, status: i32)
    requires
        s.wf(),
        s.phase == Phase::Succeeded || s.phase == Phase::Failed || s.phase == Phase::Released,
    ensures
        after_preset(s, code) == s,
        after_matvec(s) == s,
        after_solver(s, status) == s,
        matvec_outcome(s) == Err::<nat, CallbackError>(CallbackError::NotRunning),
        after_release(s).phase == Phase::Released,
        s.phase == Phase::Released ==> after_release(s) == s,
{
}

} // verus!
