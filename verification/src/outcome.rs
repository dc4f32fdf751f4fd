//! How a unit of work ends.

use vstd::prelude::*;

verus! {

/// The way a task, or a whole call, ended.
///
/// `E` is the error a task may return. `P` is whatever an abnormally terminated
/// task leaves behind; for a thread that is the payload of its panic.
#[derive(Debug, PartialEq, Eq)]
pub enum Outcome<E, P> {
    /// The task ran to completion and reported success.
    Succeeded,
    /// The task ran to completion and reported this error.
    Failed(E),
    /// The task did not run to completion.
    Aborted(P),
}

impl<E, P> Outcome<E, P> {
    /// The outcome of a task that ran to completion and returned `r`.
    pub open spec fn returned(r: Result<(), E>) -> Self {
        match r {
            Ok(_) => Outcome::Succeeded,
            Err(e) => Outcome::Failed(e),
        }
    }

    /// The outcome of a task that was waited for: `Ok` holds what it returned,
    /// `Err` what its abnormal termination left behind.
    pub open spec fn joined(j: Result<Result<(), E>, P>) -> Self {
        match j {
            Ok(r) => Self::returned(r),
            Err(p) => Outcome::Aborted(p),
        }
    }

    /// Reads an outcome off the value that waiting for a task gave.
    pub fn from_join(j: Result<Result<(), E>, P>) -> (out: Self)
        ensures
            out == Self::joined(j),
    {
        match j {
            Ok(Ok(())) => Outcome::Succeeded,
            Ok(Err(e)) => Outcome::Failed(e),
            Err(p) => Outcome::Aborted(p),
        }
    }
}

} // verus!
