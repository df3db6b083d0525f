//! Laws that hold of every run of the scheduler, proved over the state
//! machine of [`crate::state`] that the operations' contracts speak of.
use vstd::prelude::*;

use crate::state::{
    commit_step, finish_abort_step, finish_execution_during_commit_step, finish_execution_step,
    halt_scheduler_step, halt_step, next_task_step, validation_abort_step, SchedulerState,
};
use crate::task::{Task, TransactionStatus};

verus! {

/// The state after `n` successive attempts to commit.
pub open spec fn commit_repeat(s: SchedulerState, n: nat) -> SchedulerState
    decreases n,
{
    if n == 0 {
        s
    } else {
        commit_repeat(commit_step(s).0, (n - 1) as nat)
    }
}

/// Commits come in index order: a commit returns the commit cursor and
/// advances it by one, so two successive commits return consecutive indices.
/// Excluding the last commit from the block moves the cursor back by one and
/// ends committing.
pub proof fn lemma_commit_order(s: SchedulerState)
    requires
        s.wf(),
    ensures
        commit_step(s).1 matches Some(i) ==> i == s.commit_index && commit_step(s).0.commit_index
            == i + 1,
        commit_step(s).1 matches Some(i) ==> (commit_step(commit_step(s).0).1 matches Some(j) ==> j
            == i + 1),
        s.commit_index > 0 ==> halt_scheduler_step(s).commit_index == s.commit_index - 1,
        commit_step(halt_scheduler_step(s)).1 is None,
{
}

/// No transaction is committed while an earlier one is not: every
/// operation, called as its contract allows, keeps every transaction below
/// the commit cursor committed.
pub proof fn lemma_committed_prefix_kept(s: SchedulerState, i: nat)
    requires
        s.wf(),
        s.committed_prefix(),
        i < s.chunk_size,
    ensures
        next_task_step(s).0.committed_prefix(),
        commit_step(s).0.committed_prefix(),
        validation_abort_step(s, i).0.committed_prefix(),
        finish_execution_during_commit_step(s, i).committed_prefix(),
        halt_step(s).committed_prefix(),
        s.commit_index > 0 ==> halt_scheduler_step(s).committed_prefix(),
        s.status(i) == TransactionStatus::Executing ==> finish_execution_step(s, i).committed_prefix(),
        s.status(i) == TransactionStatus::Aborting ==> finish_abort_step(s, i).0.committed_prefix(),
{
}

/// An execution task for a transaction is handed out only by moving it from
/// ready to executing; so while it executes, no second execution task for it
/// is handed out.
pub proof fn lemma_single_execution(s: SchedulerState, i: nat, j: nat)
    requires
        s.wf(),
        i < s.chunk_size,
        j < s.chunk_size,
    ensures
        next_task_step(s).1 matches Task::ExecutionTask(k) ==> k < s.chunk_size && s.status(k as nat)
            == TransactionStatus::ReadyToExecute && next_task_step(s).0.status(k as nat)
            == TransactionStatus::Executing,
        s.status(j) == TransactionStatus::Aborting ==> (finish_abort_step(s, j).1 matches Task::ExecutionTask(
            k,
        ) ==> k == j && finish_abort_step(s, j).0.status(j) == TransactionStatus::Executing),
        s.status(i) == TransactionStatus::Executing ==> next_task_step(s).1 != Task::ExecutionTask(
            i as usize,
        ),
        s.status(i) == TransactionStatus::Executing && s.status(j) == TransactionStatus::Aborting
            ==> finish_abort_step(s, j).1 != Task::ExecutionTask(i as usize),
{
}

/// A transaction is committed only once its execution has finished and every
/// earlier transaction is committed.
pub proof fn lemma_commit_only_executed(s: SchedulerState)
    requires
        s.wf(),
        s.committed_prefix(),
    ensures
        commit_step(s).1 matches Some(i) ==> s.status(i) == TransactionStatus::Executed && forall|
            k: nat,
        | k < i ==> s.status(k) == TransactionStatus::Committed,
{
}

/// Once every uncommitted transaction has finished executing, committing
/// repeatedly ends the chunk: after at most one attempt per uncommitted
/// transaction and one more, the scheduler is done and hands out `Done`.
pub proof fn lemma_commit_to_done(s: SchedulerState)
    requires
        s.wf(),
        forall|k: nat|
            s.commit_index <= k < s.chunk_size ==> s.status(k) == TransactionStatus::Executed,
    ensures
        commit_repeat(s, (s.chunk_size - s.commit_index + 1) as nat).done,
        next_task_step(commit_repeat(s, (s.chunk_size - s.commit_index + 1) as nat)).1 == Task::Done,
    decreases s.chunk_size - s.commit_index,
{
    let n = (s.chunk_size - s.commit_index + 1) as nat;
    let s1 = commit_step(s).0;
    if s.done {
        lemma_done_repeat(s, n);
    } else if s.commit_index >= s.chunk_size {
        assert(commit_repeat(s, n) == commit_repeat(s1, 0));
    } else {
        assert(s1.commit_index == s.commit_index + 1);
        assert forall|k: nat| s1.commit_index <= k < s1.chunk_size implies s1.status(k)
            == TransactionStatus::Executed by {
            assert(s.status(k) == TransactionStatus::Executed);
        }
        lemma_commit_to_done(s1);
        assert(commit_repeat(s, n) == commit_repeat(s1, (n - 1) as nat));
    }
}

proof fn lemma_done_repeat(s: SchedulerState, n: nat)
    requires
        s.done,
    ensures
        commit_repeat(s, n) == s,
    decreases n,
{
    if n > 0 {
        lemma_done_repeat(commit_step(s).0, (n - 1) as nat);
    }
}

/// Halting is final: `halt` and the committer's halt set the done flag, no
/// operation clears it, and a done scheduler hands out `Done` and commits
/// nothing more.
pub proof fn lemma_halt_sticky(s: SchedulerState, t: SchedulerState, i: nat)
    requires
        s.wf(),
        s.done,
        i < s.chunk_size,
    ensures
        halt_step(t).done,
        halt_scheduler_step(t).done,
        next_task_step(s) == (s, Task::Done),
        commit_step(s) == (s, None::<nat>),
        validation_abort_step(s, i).0.done,
        finish_execution_step(s, i).done,
        finish_abort_step(s, i).0.done,
        finish_execution_during_commit_step(s, i).done,
{
}

/// After an execution finishes, the validation cursor is at or below its
/// index. Validation tasks are handed out at the cursor, which then moves up
/// by exactly one, so no validation task skips that index.
pub proof fn lemma_validation_frontier(s: SchedulerState, i: nat)
    requires
        s.wf(),
        i < s.chunk_size,
    ensures
        finish_execution_step(s, i).validation_index <= i,
        finish_execution_during_commit_step(s, i).validation_index <= i + 1,
        next_task_step(s).1 matches Task::ValidationTask(k) ==> k == s.validation_index,
        next_task_step(s).0.validation_index <= s.validation_index + 1,
        next_task_step(s).0.validation_index > s.validation_index ==> next_task_step(s).0.validation_index
            == s.validation_index + 1 && s.validation_index < s.execution_index,
{
}

} // verus!
