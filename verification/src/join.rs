//! Combining the outcomes of two tasks that ran side by side.

use vstd::prelude::*;
use crate::outcome::Outcome;
use crate::sequential::first_failure;

verus! {

/// Whether `out` may be surfaced for two tasks that were started together and
/// ended as `first` and `second`.
///
/// An abnormal termination outranks every returned result and is surfaced with
/// what it left behind; where both tasks ended so, either one may be surfaced.
/// Otherwise the error of `first` outranks that of `second`, and success is
/// surfaced only if both succeeded.
pub open spec fn joins_to<E, P>(
    first: Outcome<E, P>,
    second: Outcome<E, P>,
    out: Outcome<E, P>,
) -> bool {
    if first is Aborted || second is Aborted {
        (first is Aborted && out == first) || (second is Aborted && out == second)
    } else if first is Failed {
        out == first
    } else {
        out == second
    }
}

/// The one outcome of a call whose two tasks ended as `first` and `second`.
///
/// Both tasks have ended by the time this is called, so neither outcome is lost
/// to the other: an abnormal termination is handed on untouched, an error is
/// handed on by value, and of two errors the one of `first` wins.
pub fn join_outcomes<E, P>(first: Outcome<E, P>, second: Outcome<E, P>) -> (out: Outcome<E, P>)
    ensures
        joins_to(first, second, out),
        out is Succeeded <==> first is Succeeded && second is Succeeded,
        out is Aborted <==> first is Aborted || second is Aborted,
        first is Failed && !(second is Aborted) ==> out == first,
{
    match (first, second) {
        (Outcome::Aborted(p), _) => Outcome::Aborted(p),
        (_, Outcome::Aborted(p)) => Outcome::Aborted(p),
        (Outcome::Failed(e), _) => Outcome::Failed(e),
        (Outcome::Succeeded, second) => second,
    }
}

/// Two tasks that ran to completion and returned `a` and `b` join to
/// `first_failure(a, b)`, and to nothing else.
pub proof fn lemma_join_first_failure<E, P>(
    a: Result<(), E>,
    b: Result<(), E>,
    out: Outcome<E, P>,
)
    ensures
        joins_to(Outcome::returned(a), Outcome::returned(b), out)
            <==> out == Outcome::<E, P>::returned(first_failure(a, b)),
{
}

/// Unless both tasks terminated abnormally, at most one outcome can be
/// surfaced for them.
pub proof fn lemma_join_unique<E, P>(
    first: Outcome<E, P>,
    second: Outcome<E, P>,
    out1: Outcome<E, P>,
    out2: Outcome<E, P>,
)
    requires
        joins_to(first, second, out1),
        joins_to(first, second, out2),
        !(first is Aborted && second is Aborted),
    ensures
        out1 == out2,
{
}

} // verus!
