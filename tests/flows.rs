use concurrency_scheduler::{Scheduler, Task, TransactionStatus};

fn commit_one(s: &mut Scheduler) -> Option<usize> {
    let mut committer = s.try_enter_commit_phase().unwrap();
    committer.try_commit()
}

#[test]
fn single_worker_linear_run() {
    let mut s = Scheduler::new(3);
    assert_eq!(s.next_task(), Task::ExecutionTask(0));
    s.finish_execution(0);
    assert_eq!(s.next_task(), Task::ValidationTask(0));
    assert_eq!(s.next_task(), Task::ExecutionTask(1));
    s.finish_execution(1);
    assert_eq!(s.next_task(), Task::ValidationTask(1));
    assert_eq!(s.next_task(), Task::ExecutionTask(2));
    s.finish_execution(2);
    assert_eq!(s.next_task(), Task::ValidationTask(2));
    assert_eq!(s.next_task(), Task::NoTaskAvailable);
    {
        let mut committer = s.try_enter_commit_phase().unwrap();
        assert_eq!(committer.try_commit(), Some(0));
        assert_eq!(committer.try_commit(), Some(1));
        assert_eq!(committer.try_commit(), Some(2));
        assert_eq!(committer.try_commit(), None);
    }
    assert_eq!(s.get_n_committed_txs(), 3);
    assert_eq!(s.next_task(), Task::Done);
    assert_eq!(s.get_tx_status(1), TransactionStatus::Committed);
}

#[test]
fn abort_and_reexecute() {
    let mut s = Scheduler::new(2);
    assert_eq!(s.next_task(), Task::ExecutionTask(0));
    s.finish_execution(0);
    assert_eq!(s.next_task(), Task::ValidationTask(0));
    assert_eq!(s.next_task(), Task::ExecutionTask(1));
    s.finish_execution(1);
    assert!(s.try_validation_abort(1));
    assert_eq!(s.get_tx_status(1), TransactionStatus::Aborting);
    assert_eq!(s.finish_abort(1), Task::ExecutionTask(1));
    assert_eq!(s.get_tx_status(1), TransactionStatus::Executing);
    s.finish_execution(1);
    assert_eq!(s.next_task(), Task::ValidationTask(1));
    assert_eq!(commit_one(&mut s), Some(0));
    assert_eq!(commit_one(&mut s), Some(1));
    assert_eq!(s.next_task(), Task::Done);
}

#[test]
fn halt_after_two_commits() {
    let mut s = Scheduler::new(4);
    assert_eq!(s.next_task(), Task::ExecutionTask(0));
    s.finish_execution(0);
    assert_eq!(s.next_task(), Task::ValidationTask(0));
    assert_eq!(s.next_task(), Task::ExecutionTask(1));
    s.finish_execution(1);
    {
        let mut committer = s.try_enter_commit_phase().unwrap();
        assert_eq!(committer.try_commit(), Some(0));
        assert_eq!(committer.try_commit(), Some(1));
        committer.halt_scheduler();
        assert_eq!(committer.try_commit(), None);
    }
    assert_eq!(s.get_n_committed_txs(), 1);
    assert_eq!(s.next_task(), Task::Done);
    assert_eq!(s.next_task(), Task::Done);
}

#[test]
fn empty_chunk_reaches_done() {
    let mut s = Scheduler::new(0);
    assert_eq!(s.next_task(), Task::NoTaskAvailable);
    assert_eq!(commit_one(&mut s), None);
    assert_eq!(s.next_task(), Task::Done);
    assert_eq!(s.get_n_committed_txs(), 0);
}

#[test]
fn cascading_invalidation() {
    let mut s = Scheduler::new(3);
    for i in 0..3 {
        assert_eq!(s.next_task(), Task::ExecutionTask(i));
        s.finish_execution(i);
        assert_eq!(s.next_task(), Task::ValidationTask(i));
    }
    assert_eq!(s.next_task(), Task::NoTaskAvailable);
    assert!(s.try_validation_abort(0));
    assert_eq!(s.finish_abort(0), Task::ExecutionTask(0));
    s.finish_execution(0);
    assert_eq!(s.next_task(), Task::ValidationTask(0));
    assert_eq!(s.next_task(), Task::ValidationTask(1));
    assert_eq!(s.next_task(), Task::ValidationTask(2));
    assert_eq!(s.next_task(), Task::NoTaskAvailable);
}

#[test]
fn halt_ends_every_loop() {
    let mut s = Scheduler::new(3);
    assert_eq!(s.next_task(), Task::ExecutionTask(0));
    s.halt();
    assert_eq!(s.next_task(), Task::Done);
    s.finish_execution(0);
    assert_eq!(s.next_task(), Task::Done);
    assert_eq!(commit_one(&mut s), None);
    assert_eq!(s.get_n_committed_txs(), 0);
}

#[test]
fn commit_waits_for_execution() {
    let mut s = Scheduler::new(2);
    assert_eq!(commit_one(&mut s), None);
    assert_eq!(s.next_task(), Task::ExecutionTask(0));
    assert_eq!(commit_one(&mut s), None);
    s.finish_execution(0);
    assert_eq!(commit_one(&mut s), Some(0));
    assert_eq!(commit_one(&mut s), None);
    assert_eq!(s.get_n_committed_txs(), 1);
    // Index 0 is committed: its validation slot yields nothing.
    assert_eq!(s.next_task(), Task::ExecutionTask(1));
}

#[test]
fn validation_slot_of_unexecuted_index_is_skipped() {
    let mut s = Scheduler::new(2);
    assert_eq!(s.next_task(), Task::ExecutionTask(0));
    assert_eq!(s.next_task(), Task::ExecutionTask(1));
    s.finish_execution(0);
    assert_eq!(s.next_task(), Task::ValidationTask(0));
    // Index 1 is still executing: its validation slot yields nothing.
    assert_eq!(s.next_task(), Task::AskForTask);
    assert_eq!(s.next_task(), Task::NoTaskAvailable);
}

#[test]
fn no_second_execution_while_executing() {
    let mut s = Scheduler::new(1);
    assert_eq!(s.next_task(), Task::ExecutionTask(0));
    assert_eq!(s.get_tx_status(0), TransactionStatus::Executing);
    assert_eq!(s.next_task(), Task::NoTaskAvailable);
    assert_eq!(s.next_task(), Task::NoTaskAvailable);
}

#[test]
fn finish_abort_before_first_dispatch_asks_for_task() {
    let mut s = Scheduler::new(3);
    s.set_tx_status(2, TransactionStatus::Aborting);
    assert_eq!(s.finish_abort(2), Task::AskForTask);
    assert_eq!(s.get_tx_status(2), TransactionStatus::ReadyToExecute);
}

#[test]
fn abort_refused_unless_executed() {
    let mut s = Scheduler::new(2);
    assert!(!s.try_validation_abort(0));
    assert_eq!(s.get_tx_status(0), TransactionStatus::ReadyToExecute);
    assert_eq!(s.next_task(), Task::ExecutionTask(0));
    assert!(!s.try_validation_abort(0));
    assert_eq!(s.get_tx_status(0), TransactionStatus::Executing);
}

#[test]
fn reexecution_during_commit_revalidates_later_indices() {
    let mut s = Scheduler::new(3);
    for i in 0..3 {
        assert_eq!(s.next_task(), Task::ExecutionTask(i));
        s.finish_execution(i);
        assert_eq!(s.next_task(), Task::ValidationTask(i));
    }
    assert_eq!(commit_one(&mut s), Some(0));
    s.finish_execution_during_commit(0);
    assert_eq!(s.get_tx_status(0), TransactionStatus::Committed);
    assert_eq!(s.next_task(), Task::ValidationTask(1));
    assert_eq!(s.next_task(), Task::ValidationTask(2));
    assert_eq!(s.next_task(), Task::NoTaskAvailable);
}

#[test]
fn set_tx_status_outside_chunk_is_ignored() {
    let mut s = Scheduler::new(2);
    s.set_tx_status(5, TransactionStatus::Committed);
    s.set_tx_status(1, TransactionStatus::Executed);
    assert_eq!(s.get_tx_status(0), TransactionStatus::ReadyToExecute);
    assert_eq!(s.get_tx_status(1), TransactionStatus::Executed);
}

#[test]
fn run_to_completion_terminates() {
    let n: usize = 5;
    let mut s = Scheduler::new(n);
    let mut committed = Vec::new();
    let mut aborted_once = false;
    let mut steps = 0;
    loop {
        steps += 1;
        assert!(steps < 1000);
        match s.next_task() {
            Task::ExecutionTask(i) => s.finish_execution(i),
            Task::ValidationTask(i) => {
                // Index 3 fails its first validation; every other one passes.
                if i == 3 && !aborted_once {
                    aborted_once = true;
                    assert!(s.try_validation_abort(i));
                    if let Task::ExecutionTask(j) = s.finish_abort(i) {
                        s.finish_execution(j);
                    }
                }
            }
            Task::AskForTask | Task::NoTaskAvailable => {
                let mut committer = s.try_enter_commit_phase().unwrap();
                while let Some(i) = committer.try_commit() {
                    committed.push(i);
                }
            }
            Task::Done => break,
        }
    }
    assert!(aborted_once);
    assert_eq!(committed, vec![0, 1, 2, 3, 4]);
    assert_eq!(s.get_n_committed_txs(), n);
}
