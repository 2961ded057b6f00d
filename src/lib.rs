//! The verified core of a bridge between a sparse symmetric matrix and a matrix-free
//! eigensolver: the configuration of one computation, the decisions that the
//! matrix-vector product callback makes, the life cycle of a solver session, and the
//! extraction of its results.
use vstd::prelude::*;

pub mod callback;
pub mod config;
pub mod laws;
pub mod results;
pub mod session;

verus! {

} // verus!
