use vstd::prelude::*;

use crate::state::{
    commit_step, execute_step, finish_abort_step, finish_execution_during_commit_step,
    finish_execution_step, halt_scheduler_step, halt_step, incarnate_step, initial_state,
    lower_validation, next_task_step, validate_step, validation_abort_step, SchedulerState,
};
use crate::task::{Task, TransactionStatus, TxIndex};

verus! {

/// Coordinates the workers of one chunk: it hands out execution and
/// validation tasks and keeps the status of every transaction.
///
/// Each method takes effect as one indivisible step of the state machine of
/// [`crate::state`]; a caller that shares the scheduler between threads
/// serialises those steps.
pub struct Scheduler {
    // The index of the next transaction to execute.
    execution_index: usize,
    // The index of the next transaction to validate.
    validation_index: usize,
    // The index of the next transaction to commit.
    commit_index: usize,
    chunk_size: usize,
    tx_statuses: Vec<TransactionStatus>,
    // Set once every transaction is committed or the scheduler is halted.
    done_marker: bool,
}

impl View for Scheduler {
    type V = SchedulerState;

    closed spec fn view(&self) -> SchedulerState {
        SchedulerState {
            execution_index: self.execution_index as nat,
            validation_index: self.validation_index as nat,
            commit_index: self.commit_index as nat,
            chunk_size: self.chunk_size as nat,
            statuses: self.tx_statuses@,
            done: self.done_marker,
        }
    }
}

impl Scheduler {
    /// A scheduler for a chunk of `chunk_size` transactions, all ready to
    /// execute.
    pub fn new(chunk_size: usize) -> (r: Scheduler)
        ensures
            r@ == initial_state(chunk_size as nat),
            r@.wf(),
    {
        let mut tx_statuses: Vec<TransactionStatus> = Vec::new();
        let mut k: usize = 0;
        while k < chunk_size
            invariant
                k <= chunk_size,
                tx_statuses@ == Seq::new(k as nat, |j: int| TransactionStatus::ReadyToExecute),
            decreases chunk_size - k,
        {
            tx_statuses.push(TransactionStatus::ReadyToExecute);
            k = k + 1;
            assert(tx_statuses@ =~= Seq::new(k as nat, |j: int| TransactionStatus::ReadyToExecute));
        }
        let r = Scheduler {
            execution_index: 0,
            validation_index: chunk_size,
            commit_index: 0,
            chunk_size,
            tx_statuses,
            done_marker: false,
        };
        assert(r@.statuses =~= initial_state(chunk_size as nat).statuses);
        r
    }

    /// Hands out the next task. Validation of a transaction behind the
    /// execution cursor comes before any new execution: it is cheaper and
    /// exposes conflicts earlier.
    pub fn next_task(&mut self) -> (r: Task)
        requires
            old(self)@.wf(),
        ensures
            (final(self)@, r) == next_task_step(old(self)@),
            final(self)@.wf(),
    {
        if self.done() {
            return Task::Done;
        }
        let index_to_validate = self.validation_index;
        let index_to_execute = self.execution_index;
        let least = if index_to_validate < index_to_execute {
            index_to_validate
        } else {
            index_to_execute
        };
        if least >= self.chunk_size {
            return Task::NoTaskAvailable;
        }
        if index_to_validate < index_to_execute {
            if let Some(tx_index) = self.next_version_to_validate() {
                return Task::ValidationTask(tx_index);
            }
        }
        if let Some(tx_index) = self.next_version_to_execute() {
            return Task::ExecutionTask(tx_index);
        }
        Task::AskForTask
    }

    /// Records that the execution of `tx_index` finished: the transaction is
    /// executed, and it and every later transaction are validated again.
    pub fn finish_execution(&mut self, tx_index: TxIndex)
        requires
            old(self)@.wf(),
            tx_index < old(self)@.chunk_size,
            old(self)@.status(tx_index as nat) == TransactionStatus::Executing,
        ensures
            final(self)@ == finish_execution_step(old(self)@, tx_index as nat),
            final(self)@.wf(),
    {
        self.set_executed_status(tx_index);
        self.decrease_validation_index(tx_index);
    }

    /// Claims the abort of `tx_index` if it is executed; the caller then owns
    /// the abort and calls `finish_abort`.
    pub fn try_validation_abort(&mut self, tx_index: TxIndex) -> (r: bool)
        requires
            old(self)@.wf(),
            tx_index < old(self)@.chunk_size,
        ensures
            (final(self)@, r) == validation_abort_step(old(self)@, tx_index as nat),
            final(self)@.wf(),
    {
        if self.lock_tx_status(tx_index) == TransactionStatus::Executed {
            self.tx_statuses.set(tx_index, TransactionStatus::Aborting);
            return true;
        }
        false
    }

    /// Records that the abort of `tx_index` finished: the transaction is ready
    /// again, and is handed back for execution at once if it was already
    /// handed out before.
    pub fn finish_abort(&mut self, tx_index: TxIndex) -> (r: Task)
        requires
            old(self)@.wf(),
            tx_index < old(self)@.chunk_size,
            old(self)@.status(tx_index as nat) == TransactionStatus::Aborting,
        ensures
            (final(self)@, r) == finish_abort_step(old(self)@, tx_index as nat),
            final(self)@.wf(),
    {
        self.set_ready_status(tx_index);
        if self.execution_index > tx_index && self.try_incarnate(tx_index) {
            Task::ExecutionTask(tx_index)
        } else {
            Task::AskForTask
        }
    }

    /// Records that the committed transaction `tx_index` was executed again
    /// while committing: every later transaction is validated again. Its own
    /// status stays committed.
    pub fn finish_execution_during_commit(&mut self, tx_index: TxIndex)
        requires
            old(self)@.wf(),
            tx_index < usize::MAX,
        ensures
            final(self)@ == finish_execution_during_commit_step(old(self)@, tx_index as nat),
            final(self)@.wf(),
    {
        self.decrease_validation_index(tx_index + 1);
    }

    /// Enters the commit phase. Holding the scheduler exclusively, the caller
    /// always gets the committer.
    pub fn try_enter_commit_phase(&mut self) -> (r: Option<TransactionCommitter<'_>>)
        ensures
            r is Some,
            r matches Some(c) ==> *c.scheduler == *old(self) && *final(c.scheduler) == *final(self),
    {
        Some(TransactionCommitter::new(self))
    }

    /// Number of transactions committed so far.
    pub fn get_n_committed_txs(&self) -> (r: usize)
        ensures
            r == self@.commit_index,
    {
        self.commit_index
    }

    /// Stops the scheduler: every later `next_task` returns `Done`.
    pub fn halt(&mut self)
        ensures
            final(self)@ == halt_step(old(self)@),
            old(self)@.wf() ==> final(self)@.wf(),
    {
        self.done_marker = true;
    }

    fn lock_tx_status(&self, tx_index: TxIndex) -> (r: TransactionStatus)
        requires
            self@.wf(),
            tx_index < self@.chunk_size,
        ensures
            r == self@.status(tx_index as nat),
    {
        self.tx_statuses[tx_index]
    }

    fn set_executed_status(&mut self, tx_index: TxIndex)
        requires
            old(self)@.wf(),
            tx_index < old(self)@.chunk_size,
            old(self)@.status(tx_index as nat) == TransactionStatus::Executing,
        ensures
            final(self)@ == old(self)@.with_status(tx_index as nat, TransactionStatus::Executed),
            final(self)@.wf(),
    {
        self.tx_statuses.set(tx_index, TransactionStatus::Executed);
    }

    fn set_ready_status(&mut self, tx_index: TxIndex)
        requires
            old(self)@.wf(),
            tx_index < old(self)@.chunk_size,
            old(self)@.status(tx_index as nat) == TransactionStatus::Aborting,
        ensures
            final(self)@ == old(self)@.with_status(tx_index as nat, TransactionStatus::ReadyToExecute),
            final(self)@.wf(),
    {
        self.tx_statuses.set(tx_index, TransactionStatus::ReadyToExecute);
    }

    fn decrease_validation_index(&mut self, target_index: TxIndex)
        requires
            old(self)@.wf(),
        ensures
            final(self)@ == lower_validation(old(self)@, target_index as nat),
            final(self)@.wf(),
    {
        if target_index < self.validation_index {
            self.validation_index = target_index;
        }
    }

    /// Moves `tx_index` from ready to executing, if it is ready.
    fn try_incarnate(&mut self, tx_index: TxIndex) -> (r: bool)
        requires
            old(self)@.wf(),
        ensures
            (final(self)@, r) == incarnate_step(old(self)@, tx_index as nat),
            final(self)@.wf(),
    {
        if tx_index < self.chunk_size {
            if self.lock_tx_status(tx_index) == TransactionStatus::ReadyToExecute {
                self.tx_statuses.set(tx_index, TransactionStatus::Executing);
                return true;
            }
        }
        false
    }

    /// Claims the validation slot at the validation cursor and advances it.
    fn next_version_to_validate(&mut self) -> (r: Option<TxIndex>)
        requires
            old(self)@.wf(),
        ensures
            final(self)@ == validate_step(old(self)@).0,
            r matches Some(i) ==> validate_step(old(self)@).1 == Some(i as nat),
            r is None ==> validate_step(old(self)@).1 is None,
            final(self)@.wf(),
    {
        if self.validation_index >= self.chunk_size {
            return None;
        }
        let index_to_validate = self.validation_index;
        self.validation_index = index_to_validate + 1;
        if self.lock_tx_status(index_to_validate) == TransactionStatus::Executed {
            return Some(index_to_validate);
        }
        None
    }

    /// Claims the execution slot at the execution cursor and advances it.
    fn next_version_to_execute(&mut self) -> (r: Option<TxIndex>)
        requires
            old(self)@.wf(),
        ensures
            final(self)@ == execute_step(old(self)@).0,
            r matches Some(i) ==> execute_step(old(self)@).1 == Some(i as nat),
            r is None ==> execute_step(old(self)@).1 is None,
            final(self)@.wf(),
    {
        if self.execution_index >= self.chunk_size {
            return None;
        }
        let index_to_execute = self.execution_index;
        self.execution_index = index_to_execute + 1;
        if self.try_incarnate(index_to_execute) {
            return Some(index_to_execute);
        }
        None
    }

    fn done(&self) -> (r: bool)
        ensures
            r == self@.done,
    {
        self.done_marker
    }

    /// Overwrites the status of `tx_index`; an index outside the chunk is
    /// ignored. Meant for setting up a state in tests.
    pub fn set_tx_status(&mut self, tx_index: TxIndex, status: TransactionStatus)
        requires
            old(self)@.wf(),
        ensures
            tx_index < old(self)@.chunk_size ==> final(self)@ == old(self)@.with_status(tx_index as nat, status),
            tx_index >= old(self)@.chunk_size ==> final(self)@ == old(self)@,
            final(self)@.wf(),
    {
        if tx_index < self.chunk_size {
            self.tx_statuses.set(tx_index, status);
        }
    }

    /// The status of `tx_index`.
    pub fn get_tx_status(&self, tx_index: TxIndex) -> (r: TransactionStatus)
        requires
            self@.wf(),
            tx_index < self@.chunk_size,
        ensures
            r == self@.status(tx_index as nat),
    {
        self.lock_tx_status(tx_index)
    }
}

/// The sole party allowed to advance the commit cursor while it lives.
pub struct TransactionCommitter<'a> {
    /// The scheduler whose commit phase this committer holds.
    pub scheduler: &'a mut Scheduler,
}

impl<'a> TransactionCommitter<'a> {
    pub fn new(scheduler: &'a mut Scheduler) -> (r: TransactionCommitter<'a>)
        ensures
            *r.scheduler == *old(scheduler),
            *final(r.scheduler) == *final(scheduler),
    {
        TransactionCommitter { scheduler }
    }

    /// Commits the next uncommitted transaction of the chunk if it is
    /// executed, and returns its index.
    pub fn try_commit(&mut self) -> (r: Option<usize>)
        requires
            old(self).scheduler@.wf(),
        ensures
            final(self).scheduler@ == commit_step(old(self).scheduler@).0,
            r matches Some(i) ==> commit_step(old(self).scheduler@).1 == Some(i as nat),
            r is None ==> commit_step(old(self).scheduler@).1 is None,
            final(self).scheduler@.wf(),
            *final(final(self).scheduler) == *final(old(self).scheduler),
    {
        if self.scheduler.done() {
            return None;
        }
        let commit_index = self.scheduler.commit_index;
        if commit_index >= self.scheduler.chunk_size {
            // An empty chunk has nothing to commit: it is done at once.
            self.scheduler.halt();
            return None;
        }
        if self.scheduler.lock_tx_status(commit_index) != TransactionStatus::Executed {
            return None;
        }
        self.scheduler.tx_statuses.set(commit_index, TransactionStatus::Committed);
        self.scheduler.commit_index = commit_index + 1;
        if self.scheduler.commit_index == self.scheduler.chunk_size {
            self.scheduler.halt();
        }
        Some(commit_index)
    }

    /// Excludes the transaction committed last from the block and halts the
    /// scheduler.
    pub fn halt_scheduler(&mut self)
        requires
            old(self).scheduler@.wf(),
            old(self).scheduler@.commit_index > 0,
        ensures
            final(self).scheduler@ == halt_scheduler_step(old(self).scheduler@),
            final(self).scheduler@.wf(),
            *final(final(self).scheduler) == *final(old(self).scheduler),
    {
        self.scheduler.commit_index = self.scheduler.commit_index - 1;
        self.scheduler.halt();
    }
}

} // verus!
