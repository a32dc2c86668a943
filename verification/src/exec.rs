//! The batch-executor interface: the VM seen as a deterministic machine over
//! a storage snapshot and a trace of actions (transactions executed and L2
//! blocks opened). Implementations live outside the sequencing logic; the
//! sequencer only relies on the contracts below.

use vstd::prelude::*;

use crate::dedup::StorageLog;
use crate::seal::{ExecutionMetrics, HaltReason};
use crate::updates::{FinishedBatch, L2BlockEnv, Transaction};

verus! {

/// An error surfaced by a collaborator; the sequencer treats it as fatal.
#[derive(Clone, Copy, Debug)]
pub struct FatalError {
    pub msg: &'static str,
}

/// The classified outcome of executing one transaction.
#[derive(Clone, Debug)]
pub enum TxExecutionResult {
    /// The VM ran the transaction to completion (which still may have failed
    /// inside the VM, see `is_failed`).
    Success {
        is_failed: bool,
        tx_metrics: ExecutionMetrics,
        gas_remaining: u64,
        storage_logs: Vec<StorageLog>,
    },
    /// The bootloader frame ran out of gas before the transaction finished.
    BootloaderOutOfGasForTx,
    /// The VM refused the transaction outright.
    RejectedByVm { reason: HaltReason },
}

/// The ghost mirror of `TxExecutionResult`, with the storage writes as a
/// sequence; what the deterministic VM function returns.
pub ghost enum TxOutcome {
    Success {
        is_failed: bool,
        tx_metrics: ExecutionMetrics,
        gas_remaining: u64,
        storage_logs: Seq<StorageLog>,
    },
    BootloaderOutOfGasForTx,
    RejectedByVm { reason: HaltReason },
}

impl TxExecutionResult {
    /// The ghost value of this result.
    pub open spec fn view_spec(self) -> TxOutcome {
        match self {
            TxExecutionResult::Success { is_failed, tx_metrics, gas_remaining, storage_logs } => {
                TxOutcome::Success {
                    is_failed,
                    tx_metrics,
                    gas_remaining,
                    storage_logs: storage_logs@,
                }
            },
            TxExecutionResult::BootloaderOutOfGasForTx => TxOutcome::BootloaderOutOfGasForTx,
            TxExecutionResult::RejectedByVm { reason } => TxOutcome::RejectedByVm { reason },
        }
    }
}

/// One entry of the executor's trace.
#[derive(Clone, Copy, Debug, PartialEq, Eq, Structural)]
pub enum ExecutorAction {
    Tx(Transaction),
    OpenBlock(L2BlockEnv),
}

/// Executes transactions of one batch against VM storage.
///
/// The model: an executor is a deterministic machine whose visible state is
/// the storage snapshot it was opened over (`base`) and the trace of actions
/// applied so far. What a transaction does is a function of these alone
/// (`outcome`); rolling back the last transaction removes it from the trace.
pub trait BatchExecutor: Sized {
    /// The storage snapshot this executor runs over.
    spec fn base(&self) -> int;

    /// Actions applied since the batch was opened.
    spec fn trace(&self) -> Seq<ExecutorAction>;

    /// The outcome of a transaction as a function of the snapshot and the
    /// trace: the virtual machine is deterministic.
    spec fn outcome(base: int, trace: Seq<ExecutorAction>, tx: Transaction) -> TxOutcome;

    /// The batch artifact as a function of the snapshot and the trace.
    spec fn finish_outcome(base: int, trace: Seq<ExecutorAction>) -> FinishedBatch;

    /// Executes one transaction, appending it to the trace.
    fn execute_tx(&mut self, tx: Transaction) -> (r: Result<TxExecutionResult, FatalError>)
        ensures
            final(self).base() == old(self).base(),
            r is Ok ==> final(self).trace() == old(self).trace().push(ExecutorAction::Tx(tx)),
            r is Ok ==> r->Ok_0.view_spec() == Self::outcome(old(self).base(), old(self).trace(), tx),
            r is Err ==> final(self).trace() == old(self).trace(),
    ;

    /// Reverts the most recently executed transaction.
    fn rollback_last_tx(&mut self) -> (r: Result<(), FatalError>)
        requires
            old(self).trace().len() > 0,
            old(self).trace().last() is Tx,
        ensures
            final(self).base() == old(self).base(),
            r is Ok ==> final(self).trace() == old(self).trace().drop_last(),
            r is Err ==> final(self).trace() == old(self).trace(),
    ;

    /// Opens the next L2 block within the batch.
    fn start_next_l2_block(&mut self, env: L2BlockEnv) -> (r: Result<(), FatalError>)
        ensures
            final(self).base() == old(self).base(),
            r is Ok ==> final(self).trace() == old(self).trace().push(
                ExecutorAction::OpenBlock(env),
            ),
            r is Err ==> final(self).trace() == old(self).trace(),
    ;

    /// Finishes the batch and returns its artifact.
    fn finish_batch(&mut self) -> (r: Result<FinishedBatch, FatalError>)
        ensures
            final(self).base() == old(self).base(),
            final(self).trace() == old(self).trace(),
            r is Ok ==> r->Ok_0 == Self::finish_outcome(old(self).base(), old(self).trace()),
    ;
}

/// Creates one executor per batch, over storage at the previous batch.
pub trait BatchExecutorFactory<E: BatchExecutor>: Sized {
    /// Opens an executor for the given batch; its trace starts empty.
    fn init_batch(
        &mut self,
        l1_batch_env: &crate::updates::L1BatchEnv,
        system_env: &crate::updates::SystemEnv,
        pubdata_params: &crate::updates::PubdataParams,
    ) -> (r: Result<E, FatalError>)
        ensures
            r is Ok ==> r->Ok_0.trace() == Seq::<ExecutorAction>::empty(),
    ;
}

} // verus!
