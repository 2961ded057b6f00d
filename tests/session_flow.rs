use primme::callback::{status_code, write_product, CallbackError};
use primme::config::{MethodPreset, SolverConfig, Target};
use primme::results::ResultBuffers;
use primme::session::{Phase, Session, SolveError};

fn running_session(n: usize, nev: usize) -> Session {
    let mut s = Session::new();
    s.configure(n, nev);
    s.preset_selected(0);
    assert_eq!(s.phase(), Phase::Running);
    s
}

#[test]
fn config_for_two_by_two_problem() {
    let c = SolverConfig::for_problem(2, 2);
    assert_eq!(c.n, 2);
    assert_eq!(c.num_evals, 2);
    assert_eq!(c.target, Target::ClosestGeq);
    assert_eq!(c.num_target_shifts, 1);
    assert_eq!(c.max_matvecs, 4);
    assert_eq!(c.preset, MethodPreset::DefaultMinTime);
}

#[test]
fn config_budget_is_square_of_size() {
    let c = SolverConfig::for_problem(100, 5);
    assert_eq!(c.max_matvecs, 10_000);
    assert_eq!(c.num_evals, 5);
}

#[test]
fn fits_rejects_empty_and_oversized_problems() {
    assert!(SolverConfig::fits(2, 2));
    assert!(SolverConfig::fits(1, 1));
    assert!(!SolverConfig::fits(0, 1));
    assert!(!SolverConfig::fits(3, 0));
    assert!(!SolverConfig::fits(1, (i32::MAX as usize) + 1));
    assert!(SolverConfig::fits(3_037_000_499, 1));
    assert!(!SolverConfig::fits(3_037_000_500, 1));
}

#[test]
fn new_session_is_unconfigured() {
    let s = Session::new();
    assert_eq!(s.phase(), Phase::Unconfigured);
    assert_eq!(s.matvecs(), 0);
}

#[test]
fn configure_records_size_and_count() {
    let mut s = Session::new();
    let c = s.configure(7, 3);
    assert_eq!(s.phase(), Phase::Configured);
    assert_eq!(s.dimension(), 7);
    assert_eq!(s.num_evals(), 3);
    assert_eq!(c.max_matvecs, 49);
}

#[test]
fn successful_run_returns_solver_output() {
    let mut s = running_session(2, 2);
    let mut buffers = s.allocate_results(0.0f64);
    assert_eq!(s.begin_matvec(), Ok(2));
    buffers.eigenvalues[0] = 3.0;
    buffers.eigenvalues[1] = 2.0;
    buffers.residual_norms[0] = 1e-12;
    s.solver_returned(0);
    assert_eq!(s.phase(), Phase::Succeeded);
    s.release();
    assert_eq!(s.phase(), Phase::Released);
    let p = match s.finish(buffers) {
        Ok(p) => p,
        Err(e) => panic!("unexpected error {:?}", e),
    };
    assert_eq!(p.eigenvalues, vec![3.0, 2.0]);
    assert_eq!(p.residual_norms, vec![1e-12, 0.0]);
}

#[test]
fn rejected_preset_fails_without_products() {
    let mut s = Session::new();
    s.configure(4, 2);
    s.preset_selected(-3);
    assert_eq!(s.phase(), Phase::Failed);
    assert_eq!(s.begin_matvec(), Err(CallbackError::NotRunning));
    assert_eq!(s.matvecs(), 0);
    s.release();
    assert_eq!(s.phase(), Phase::Released);
    let buffers = ResultBuffers::allocate(4, 2, 0.0f64);
    match s.finish(buffers) {
        Err(e) => {
            assert_eq!(e, SolveError::ConfigurationRejected(-3));
            assert_eq!(e.code(), -3);
        }
        Ok(_) => panic!("a rejected preset must not produce eigenvalues"),
    }
}

#[test]
fn solver_failure_is_reported_with_its_code() {
    let mut s = running_session(3, 1);
    let buffers = s.allocate_results(0.0f64);
    s.solver_returned(-1);
    assert_eq!(s.phase(), Phase::Failed);
    s.release();
    match s.finish(buffers) {
        Err(e) => {
            assert_eq!(e, SolveError::SolverFailed(-1));
            assert_eq!(e.code(), -1);
        }
        Ok(_) => panic!("a failed solve must not produce eigenvalues"),
    }
}

#[test]
fn budget_refuses_products_beyond_n_squared() {
    let mut s = running_session(2, 1);
    for _ in 0..4 {
        assert_eq!(s.begin_matvec(), Ok(2));
    }
    assert_eq!(s.matvecs(), 4);
    assert_eq!(s.begin_matvec(), Err(CallbackError::BudgetExhausted));
    assert_eq!(s.matvecs(), 4);
}

#[test]
fn finished_session_cannot_run_again() {
    let mut s = running_session(2, 1);
    s.solver_returned(0);
    s.release();
    s.preset_selected(0);
    assert_eq!(s.phase(), Phase::Released);
    s.solver_returned(5);
    assert_eq!(s.phase(), Phase::Released);
    assert_eq!(s.begin_matvec(), Err(CallbackError::NotRunning));
}

#[test]
fn release_before_solver_returns_is_ignored() {
    let mut s = running_session(2, 1);
    s.release();
    assert_eq!(s.phase(), Phase::Running);
}

#[test]
fn allocated_buffers_have_requested_sizes() {
    let s = {
        let mut s = Session::new();
        s.configure(5, 3);
        s
    };
    let b = s.allocate_results(0.0f64);
    assert_eq!(b.eigenvalues.len(), 3);
    assert_eq!(b.residual_norms.len(), 3);
    assert_eq!(b.eigenvectors.len(), 15);
    assert!(b.eigenvectors.iter().all(|v| *v == 0.0));
}

#[test]
fn write_product_copies_every_entry() {
    let product = [1.5f64, 0.0, -2.0];
    let mut out = [9.0f64; 3];
    assert_eq!(write_product(3, &product, &mut out), Ok(()));
    assert_eq!(out, [1.5, 0.0, -2.0]);
}

#[test]
fn write_product_refuses_wrong_lengths() {
    let product = [1.0f64, 2.0];
    let mut out = [7.0f64; 3];
    assert_eq!(write_product(3, &product, &mut out), Err(CallbackError::LengthMismatch));
    assert_eq!(out, [7.0, 7.0, 7.0]);
    let product = [1.0f64, 2.0, 3.0];
    let mut short = [7.0f64; 2];
    assert_eq!(write_product(3, &product, &mut short), Err(CallbackError::LengthMismatch));
    assert_eq!(short, [7.0, 7.0]);
}

#[test]
fn status_codes_are_zero_only_on_success() {
    assert_eq!(status_code(&Ok(())), 0);
    assert_eq!(status_code(&Err(CallbackError::NotRunning)), 1);
    assert_eq!(status_code(&Err(CallbackError::BudgetExhausted)), 2);
    assert_eq!(status_code(&Err(CallbackError::LengthMismatch)), 3);
}
