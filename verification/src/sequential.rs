//! Running the two tasks one after the other.

use vstd::prelude::*;

verus! {

/// First error wins, else success: `first` if it is an error, otherwise `second`.
pub open spec fn first_failure<E>(first: Result<(), E>, second: Result<(), E>) -> Result<(), E> {
    if first is Err {
        first
    } else {
        second
    }
}

/// Whether `r` is a value that running `task_a` and then, only if it succeeded,
/// `task_b` may return: either an error that `task_a` returned, or what `task_b`
/// returned after a success of `task_a`.
pub open spec fn sequential_returns<E, A, B>(task_a: A, task_b: B, r: Result<(), E>) -> bool where
    A: FnOnce() -> Result<(), E>,
    B: FnOnce() -> Result<(), E>,
{
    ||| r is Err && task_a.ensures((), r)
    ||| task_a.ensures((), Ok(())) && task_b.ensures((), r)
}

/// Runs `task_a` to completion, then `task_b`, in the calling context.
///
/// An error of `task_a` is returned at once and `task_b` is then never invoked.
/// After a success of `task_a`, what `task_b` returns is returned as it is.
/// `task_b` has to be callable only if `task_a` can succeed.
pub fn sequential_call<E, A, B>(task_a: A, task_b: B) -> (r: Result<(), E>) where
    A: FnOnce() -> Result<(), E>,
    B: FnOnce() -> Result<(), E>,

    requires
        task_a.requires(()),
        task_a.ensures((), Ok(())) ==> task_b.requires(()),
    ensures
        sequential_returns(task_a, task_b, r),
{
    let first = task_a();
    // A success carries the unit value, so `first` is the `Ok(())` that the
    // contract speaks of.
    assert(first is Ok ==> first->Ok_0 == ());
    match first {
        Ok(()) => task_b(),
        Err(e) => Err(e),
    }
}

/// Two tasks that each have one possible result, `a` and `b`, return
/// `first_failure(a, b)` when run one after the other.
pub proof fn lemma_sequential_first_failure<E, A, B>(
    task_a: A,
    task_b: B,
    a: Result<(), E>,
    b: Result<(), E>,
    r: Result<(), E>,
) where A: FnOnce() -> Result<(), E>, B: FnOnce() -> Result<(), E>
    requires
        forall|x: Result<(), E>| task_a.ensures((), x) ==> x == a,
        forall|x: Result<(), E>| task_b.ensures((), x) ==> x == b,
        sequential_returns(task_a, task_b, r),
    ensures
        r == first_failure(a, b),
{
}

} // verus!
