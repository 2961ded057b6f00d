use vstd::prelude::*;

verus! {

/// Why a request for a matrix-vector product was refused.
#[derive(Clone, Copy, Debug, PartialEq, Eq, Structural)]
pub enum CallbackError {
    /// The session is not in the phase in which the solver runs.
    NotRunning,
    /// Every product that the budget allows has already been computed.
    BudgetExhausted,
    /// A buffer does not hold exactly one entry per matrix row.
    LengthMismatch,
}

impl CallbackError {
    /// The nonzero value that the native status slot receives for this error.
    pub open spec fn spec_status(self) -> i32 {
        match self {
            CallbackError::NotRunning => 1,
            CallbackError::BudgetExhausted => 2,
            CallbackError::LengthMismatch => 3,
        }
    }

    pub fn status(&self) -> (r: i32)
        ensures
            r == self.spec_status(),
            r != 0,
    {
        match self {
            CallbackError::NotRunning => 1,
            CallbackError::BudgetExhausted => 2,
            CallbackError::LengthMismatch => 3,
        }
    }
}

/// The value written into the native status slot: zero exactly on success.
pub open spec fn status_of(r: Result<(), CallbackError>) -> i32 {
    match r {
        Ok(()) => 0,
        Err(e) => e.spec_status(),
    }
}

pub fn status_code(r: &Result<(), CallbackError>) -> (s: i32)
    ensures
        s == status_of(*r),
        (s == 0) <==> r is Ok,
{
    match r {
        Ok(()) => 0,
        Err(e) => e.status(),
    }
}

/// Copies a computed product of `n` entries into the solver's output buffer,
/// entry by entry and in order. Nothing is read or written unless both buffers
/// hold exactly `n` entries.
pub fn write_product<T: Copy>(n: usize, product: &[T], out: &mut [T]) -> (r: Result<
    (),
    CallbackError,
>)
    ensures
        r is Ok <==> (product@.len() == n && old(out)@.len() == n),
        r is Ok ==> final(out)@ == product@,
        r is Ok ==> final(out)@.len() == n,
        r is Err ==> r == Err::<(), CallbackError>(CallbackError::LengthMismatch),
        r is Err ==> final(out)@ == old(out)@,
{
    if product.len() != n || out.len() != n {
        return Err(CallbackError::LengthMismatch);
    }
    let mut i: usize = 0;
    while i < n
        invariant
            product@.len() == n,
            out@.len() == n,
            i <= n,
            forall|k: int| 0 <= k < i ==> out@[k] == product@[k],
        decreases n - i,
    {
        out[i] = product[i];
        i = i + 1;
    }
    assert(out@ =~= product@);
    Ok(())
}

} // verus!
