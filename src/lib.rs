//! A scheduler for optimistic parallel execution of an ordered chunk of
//! transactions: it hands out execution and validation tasks, drives
//! re-execution after a failed validation, and commits transactions strictly
//! in index order.
//!
//! Every operation of [`Scheduler`] is one step of the state machine in
//! [`state`]; its contract states that step exactly. The laws that hold of
//! every run are proved in [`laws`].
pub mod laws;
pub mod scheduler;
pub mod state;
pub mod task;

pub use scheduler::{Scheduler, TransactionCommitter};
pub use task::{Task, TransactionStatus};
