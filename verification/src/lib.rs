//! A one-shot fork-join of exactly two tasks.
//!
//! Two units of work are run either one after the other or side by side, and at
//! most one outcome is surfaced: the first failure, or success only if both
//! succeeded.
//!
//! [`sequential::sequential_call`] runs the two tasks in the calling context.
//! For tasks that were started side by side, the caller waits for both, reads
//! each result with [`outcome::Outcome::from_join`], and lets
//! [`join::join_outcomes`] pick the one outcome to surface. [`modes`] relates
//! the two ways of running.

pub mod join;
pub mod modes;
pub mod outcome;
pub mod sequential;
