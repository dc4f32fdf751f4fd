//! What the two ways of running have in common.

use vstd::prelude::*;
use crate::join::joins_to;
use crate::outcome::Outcome;
use crate::sequential::sequential_returns;

verus! {

/// Choosing a mode does not change what comes of tasks that return.
///
/// Take two tasks that each have one possible result, `a` and `b`. Whatever
/// running them one after the other returns, and whatever is surfaced after
/// running them side by side, the two agree: on whether the call succeeded,
/// on whether it failed, and on the error.
pub proof fn lemma_modes_agree<E, P, A, B>(
    task_a: A,
    task_b: B,
    a: Result<(), E>,
    b: Result<(), E>,
    sequential: Result<(), E>,
    parallel: Outcome<E, P>,
) where A: FnOnce() -> Result<(), E>, B: FnOnce() -> Result<(), E>
    requires
        forall|x: Result<(), E>| task_a.ensures((), x) ==> x == a,
        forall|x: Result<(), E>| task_b.ensures((), x) ==> x == b,
        sequential_returns(task_a, task_b, sequential),
        joins_to(Outcome::returned(a), Outcome::returned(b), parallel),
    ensures
        parallel is Succeeded <==> sequential is Ok,
        parallel is Failed <==> sequential is Err,
        parallel == Outcome::<E, P>::returned(sequential),
{
}

} // verus!
