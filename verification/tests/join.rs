use fork_join::join::join_outcomes;
use fork_join::outcome::Outcome;
use fork_join::outcome::Outcome::{Aborted, Failed, Succeeded};
use fork_join::sequential::sequential_call;

type Out = Outcome<&'static str, u32>;

#[test]
fn join_success() {
    let out: Out = join_outcomes(Succeeded, Succeeded);
    assert_eq!(out, Succeeded);
}

#[test]
fn join_left_bias_on_double_failure() {
    let out: Out = join_outcomes(Failed("X"), Failed("Y"));
    assert_eq!(out, Failed("X"));
    assert_ne!(out, Failed("Y"));
}

#[test]
fn join_first_failure_alone() {
    let out: Out = join_outcomes(Failed("X"), Succeeded);
    assert_eq!(out, Failed("X"));
}

#[test]
fn join_second_failure_alone() {
    let out: Out = join_outcomes(Succeeded, Failed("Y"));
    assert_eq!(out, Failed("Y"));
}

#[test]
fn join_abort_of_first_while_second_succeeds() {
    let out: Out = join_outcomes(Aborted(41), Succeeded);
    assert_eq!(out, Aborted(41));
}

#[test]
fn join_abort_of_second_while_first_succeeds() {
    let out: Out = join_outcomes(Succeeded, Aborted(42));
    assert_eq!(out, Aborted(42));
}

#[test]
fn join_abort_outranks_a_returned_error() {
    let out: Out = join_outcomes(Failed("X"), Aborted(42));
    assert_eq!(out, Aborted(42));
    let out: Out = join_outcomes(Aborted(41), Failed("Y"));
    assert_eq!(out, Aborted(41));
}

#[test]
fn join_double_abort_surfaces_exactly_one() {
    let out: Out = join_outcomes(Aborted(41), Aborted(42));
    assert!(out == Aborted(41) || out == Aborted(42));
}

#[test]
fn join_succeeds_only_if_both_succeeded() {
    let ends: [fn() -> Out; 3] = [|| Succeeded, || Failed("E"), || Aborted(1)];
    for first in ends {
        for second in ends {
            let both = first() == Succeeded && second() == Succeeded;
            let out = join_outcomes(first(), second());
            assert_eq!(out == Succeeded, both);
        }
    }
}

#[test]
fn join_aborts_if_and_only_if_a_task_aborted() {
    let ends: [fn() -> Out; 3] = [|| Succeeded, || Failed("E"), || Aborted(1)];
    for first in ends {
        for second in ends {
            let either = matches!(first(), Aborted(_)) || matches!(second(), Aborted(_));
            let out = join_outcomes(first(), second());
            assert_eq!(matches!(out, Aborted(_)), either);
        }
    }
}

#[test]
fn modes_agree_on_tasks_that_return() {
    let results: [Result<(), &'static str>; 2] = [Ok(()), Err("E")];
    let others: [Result<(), &'static str>; 2] = [Ok(()), Err("F")];
    for a in results {
        for b in others {
            let sequential = sequential_call(move || a, move || b);
            let parallel: Out = join_outcomes(Outcome::from_join(Ok(a)), Outcome::from_join(Ok(b)));
            assert_eq!(parallel, Outcome::from_join(Ok(sequential)));
            assert_eq!(parallel == Succeeded, sequential.is_ok());
        }
    }
}

#[test]
fn modes_report_the_same_error_on_double_failure() {
    let sequential: Result<(), &str> = sequential_call(|| Err("X"), || Err("Y"));
    let parallel: Out = join_outcomes(Failed("X"), Failed("Y"));
    assert_eq!(sequential, Err("X"));
    assert_eq!(parallel, Failed("X"));
}
