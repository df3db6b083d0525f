//! The scheduler as a state machine over mathematical values. Each spec
//! function below is one operation: it maps a state (and its arguments) to
//! the next state and the operation's result.
use vstd::prelude::*;

use crate::task::{Task, TransactionStatus};

verus! {

/// Abstract state of a scheduler.
pub ghost struct SchedulerState {
    /// Next index to hand out for a first execution.
    pub execution_index: nat,
    /// First index that still needs (re-)validation.
    pub validation_index: nat,
    /// Next index eligible to commit.
    pub commit_index: nat,
    /// Number of transactions in the chunk.
    pub chunk_size: nat,
    /// Status of each transaction of the chunk.
    pub statuses: Seq<TransactionStatus>,
    /// Sticky flag that ends every worker loop.
    pub done: bool,
}

impl SchedulerState {
    /// Shape that every reachable state has: one status per transaction and
    /// every cursor within the chunk.
    pub open spec fn wf(self) -> bool {
        &&& self.statuses.len() == self.chunk_size
        &&& self.chunk_size <= usize::MAX
        &&& self.execution_index <= self.chunk_size
        &&& self.validation_index <= self.chunk_size
        &&& self.commit_index <= self.chunk_size
    }

    /// Every transaction before the commit cursor is committed.
    pub open spec fn committed_prefix(self) -> bool {
        forall|k: int| 0 <= k < self.commit_index ==> self.statuses[k] == TransactionStatus::Committed
    }

    pub open spec fn status(self, i: nat) -> TransactionStatus {
        self.statuses[i as int]
    }

    pub open spec fn with_status(self, i: nat, st: TransactionStatus) -> SchedulerState {
        SchedulerState { statuses: self.statuses.update(i as int, st), ..self }
    }
}

/// A fresh scheduler for a chunk of `chunk_size` transactions.
pub open spec fn initial_state(chunk_size: nat) -> SchedulerState {
    SchedulerState {
        execution_index: 0,
        validation_index: chunk_size,
        commit_index: 0,
        chunk_size,
        statuses: Seq::new(chunk_size, |k: int| TransactionStatus::ReadyToExecute),
        done: false,
    }
}

/// Claims the validation slot at the validation cursor; the index comes back
/// only if that transaction is executed.
pub open spec fn validate_step(s: SchedulerState) -> (SchedulerState, Option<nat>) {
    if s.validation_index >= s.chunk_size {
        (s, None)
    } else {
        let i = s.validation_index;
        let s1 = SchedulerState { validation_index: i + 1, ..s };
        if s.status(i) == TransactionStatus::Executed {
            (s1, Some(i))
        } else {
            (s1, None)
        }
    }
}

/// Moves a transaction from ready to executing, if it is ready.
pub open spec fn incarnate_step(s: SchedulerState, i: nat) -> (SchedulerState, bool) {
    if i < s.chunk_size && s.status(i) == TransactionStatus::ReadyToExecute {
        (s.with_status(i, TransactionStatus::Executing), true)
    } else {
        (s, false)
    }
}

/// Claims the execution slot at the execution cursor; the index comes back
/// only if that transaction could be incarnated.
pub open spec fn execute_step(s: SchedulerState) -> (SchedulerState, Option<nat>) {
    if s.execution_index >= s.chunk_size {
        (s, None)
    } else {
        let i = s.execution_index;
        let s1 = SchedulerState { execution_index: i + 1, ..s };
        let (s2, ok) = incarnate_step(s1, i);
        if ok {
            (s2, Some(i))
        } else {
            (s2, None)
        }
    }
}

/// Task dispatch: done first, then nothing left, then validation when the
/// validation cursor is behind the execution cursor, then execution.
pub open spec fn next_task_step(s: SchedulerState) -> (SchedulerState, Task) {
    if s.done {
        (s, Task::Done)
    } else if s.validation_index >= s.chunk_size && s.execution_index >= s.chunk_size {
        (s, Task::NoTaskAvailable)
    } else {
        let (s1, v) = if s.validation_index < s.execution_index {
            validate_step(s)
        } else {
            (s, None)
        };
        match v {
            Some(i) => (s1, Task::ValidationTask(i as usize)),
            None => {
                let (s2, e) = execute_step(s1);
                match e {
                    Some(i) => (s2, Task::ExecutionTask(i as usize)),
                    None => (s2, Task::AskForTask),
                }
            },
        }
    }
}

/// Lowers the validation cursor to `target` if it is above it.
pub open spec fn lower_validation(s: SchedulerState, target: nat) -> SchedulerState {
    SchedulerState {
        validation_index: if target < s.validation_index { target } else { s.validation_index },
        ..s
    }
}

/// An execution finished: the transaction becomes executed and it and every
/// later transaction are to be validated again.
pub open spec fn finish_execution_step(s: SchedulerState, i: nat) -> SchedulerState {
    lower_validation(s.with_status(i, TransactionStatus::Executed), i)
}

/// A validator claims the abort of an executed transaction.
pub open spec fn validation_abort_step(s: SchedulerState, i: nat) -> (SchedulerState, bool) {
    if s.status(i) == TransactionStatus::Executed {
        (s.with_status(i, TransactionStatus::Aborting), true)
    } else {
        (s, false)
    }
}

/// An abort finished: the transaction is ready again, and is handed straight
/// back for execution if it was already handed out once.
pub open spec fn finish_abort_step(s: SchedulerState, i: nat) -> (SchedulerState, Task) {
    let s1 = s.with_status(i, TransactionStatus::ReadyToExecute);
    if s1.execution_index > i {
        let (s2, ok) = incarnate_step(s1, i);
        if ok {
            (s2, Task::ExecutionTask(i as usize))
        } else {
            (s2, Task::AskForTask)
        }
    } else {
        (s1, Task::AskForTask)
    }
}

/// A committed transaction was executed again while committing: every later
/// transaction is to be validated again.
pub open spec fn finish_execution_during_commit_step(s: SchedulerState, i: nat) -> SchedulerState {
    lower_validation(s, i + 1)
}

/// Commits the transaction at the commit cursor if it is executed. With the
/// whole chunk committed, the scheduler is done.
pub open spec fn commit_step(s: SchedulerState) -> (SchedulerState, Option<nat>) {
    if s.done {
        (s, None)
    } else if s.commit_index >= s.chunk_size {
        (SchedulerState { done: true, ..s }, None)
    } else if s.status(s.commit_index) != TransactionStatus::Executed {
        (s, None)
    } else {
        let i = s.commit_index;
        let s1 = s.with_status(i, TransactionStatus::Committed);
        (SchedulerState { commit_index: i + 1, done: i + 1 == s.chunk_size, ..s1 }, Some(i))
    }
}

/// Excludes the last committed transaction from the block and stops.
pub open spec fn halt_scheduler_step(s: SchedulerState) -> SchedulerState {
    SchedulerState { commit_index: (s.commit_index - 1) as nat, done: true, ..s }
}

/// Stops the scheduler.
pub open spec fn halt_step(s: SchedulerState) -> SchedulerState {
    SchedulerState { done: true, ..s }
}

} // verus!
