use vstd::prelude::*;

verus! {

/// Position of a transaction inside its chunk.
pub type TxIndex = usize;

/// What a worker is told to do next.
#[derive(Debug, PartialEq, Eq, Structural)]
pub enum Task {
    /// Run the transaction at this index (one new incarnation).
    ExecutionTask(TxIndex),
    /// Check the read-set of the transaction at this index.
    ValidationTask(TxIndex),
    /// No work was claimed this time; retry after a short yield.
    AskForTask,
    /// Nothing is left to hand out for now; retry after a short yield.
    NoTaskAvailable,
    /// The chunk is finished (fully committed or halted).
    Done,
}

/// Life cycle of one transaction of the chunk.
#[derive(Clone, Copy, Debug, PartialEq, Eq, Structural)]
pub enum TransactionStatus {
    /// No incarnation in flight.
    ReadyToExecute,
    /// Exactly one worker runs the current incarnation.
    Executing,
    /// The incarnation finished; its read-set awaits validation.
    Executed,
    /// A validator claimed the right to invalidate the incarnation.
    Aborting,
    /// Final: part of the output block.
    Committed,
}

} // verus!
