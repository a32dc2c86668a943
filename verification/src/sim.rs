//! In-memory reference implementations of the sequencer's collaborator
//! interfaces: a scripted I/O source, a deterministic toy VM, and an output
//! handler that records what it is given. They make the interface contracts
//! concrete — every promise the sequencing loop relies on is proved here for
//! one implementation — and let whole runs be exercised end to end.

use vstd::prelude::*;

use crate::dedup::StorageLog;
use crate::exec::{
    BatchExecutor, BatchExecutorFactory, ExecutorAction, FatalError, TxExecutionResult, TxOutcome,
};
use crate::io::{OutputHandler, PendingBatchData, StateKeeperIO};
use crate::seal::{ExecutionMetrics, HaltReason, UnexecutableReason};
use crate::types::{BaseSystemContractsHashes, ProtocolVersionId};
use crate::updates::{
    FinishedBatch, IoCursor, L1BatchEnv, L1BatchParams, L2BlockEnv, L2BlockParams, PubdataParams,
    SystemEnv, Transaction, UpdatesManager,
};

verus! {

/// The storage writes the toy VM produces for one transaction.
pub open spec fn sim_storage_logs(tx: Transaction) -> Seq<StorageLog> {
    seq![StorageLog { key: (tx.hash % 8) as u64, value: tx.hash }]
}

/// What the toy VM does with a transaction, decided by its initiator field:
/// initiator 1 runs the bootloader out of gas, 2 is rejected for missing gas,
/// 3 fails validation, 4 succeeds with a failed VM result, anything else
/// succeeds; gas use equals the encoding length.
pub open spec fn sim_outcome_spec(tx: Transaction) -> TxOutcome {
    if tx.initiator == 1 {
        TxOutcome::BootloaderOutOfGasForTx
    } else if tx.initiator == 2 {
        TxOutcome::RejectedByVm { reason: HaltReason::NotEnoughGasProvided }
    } else if tx.initiator == 3 {
        TxOutcome::RejectedByVm { reason: HaltReason::ValidationFailed }
    } else {
        TxOutcome::Success {
            is_failed: tx.initiator == 4,
            tx_metrics: ExecutionMetrics {
                computational_gas_used: tx.encoding_len,
                pubdata_published: 0,
                l2_to_l1_logs: 0,
            },
            gas_remaining: 1000000,
            storage_logs: sim_storage_logs(tx),
        }
    }
}

/// The deterministic toy VM: its state is the trace of applied actions.
pub struct SimBatchExecutor {
    pub base_id: u64,
    pub actions: Vec<ExecutorAction>,
}

impl BatchExecutor for SimBatchExecutor {
    open spec fn base(&self) -> int {
        self.base_id as int
    }

    open spec fn trace(&self) -> Seq<ExecutorAction> {
        self.actions@
    }

    open spec fn outcome(base: int, trace: Seq<ExecutorAction>, tx: Transaction) -> TxOutcome {
        sim_outcome_spec(tx)
    }

    open spec fn finish_outcome(base: int, trace: Seq<ExecutorAction>) -> FinishedBatch {
        FinishedBatch { state_hash: (trace.len() % 0x1000000) as u64 }
    }

    fn execute_tx(&mut self, tx: Transaction) -> (r: Result<TxExecutionResult, FatalError>) {
        self.actions.push(ExecutorAction::Tx(tx));
        let result = if tx.initiator == 1 {
            TxExecutionResult::BootloaderOutOfGasForTx
        } else if tx.initiator == 2 {
            TxExecutionResult::RejectedByVm { reason: HaltReason::NotEnoughGasProvided }
        } else if tx.initiator == 3 {
            TxExecutionResult::RejectedByVm { reason: HaltReason::ValidationFailed }
        } else {
            let mut logs: Vec<StorageLog> = Vec::new();
            logs.push(StorageLog { key: tx.hash % 8, value: tx.hash });
            proof {
                assert(logs@ =~= sim_storage_logs(tx));
            }
            TxExecutionResult::Success {
                is_failed: tx.initiator == 4,
                tx_metrics: ExecutionMetrics {
                    computational_gas_used: tx.encoding_len,
                    pubdata_published: 0,
                    l2_to_l1_logs: 0,
                },
                gas_remaining: 1000000,
                storage_logs: logs,
            }
        };
        Ok(result)
    }

    fn rollback_last_tx(&mut self) -> (r: Result<(), FatalError>) {
        self.actions.pop();
        Ok(())
    }

    fn start_next_l2_block(&mut self, env: L2BlockEnv) -> (r: Result<(), FatalError>) {
        self.actions.push(ExecutorAction::OpenBlock(env));
        Ok(())
    }

    fn finish_batch(&mut self) -> (r: Result<FinishedBatch, FatalError>) {
        Ok(FinishedBatch { state_hash: (self.actions.len() % 0x1000000) as u64 })
    }
}

/// Hands out toy VMs, one per batch, each over a fresh snapshot id.
pub struct SimExecutorFactory {
    pub next_base: u64,
}

impl BatchExecutorFactory<SimBatchExecutor> for SimExecutorFactory {
    fn init_batch(
        &mut self,
        l1_batch_env: &L1BatchEnv,
        system_env: &SystemEnv,
        pubdata_params: &PubdataParams,
    ) -> (r: Result<SimBatchExecutor, FatalError>) {
        let _ = l1_batch_env;
        let _ = system_env;
        let _ = pubdata_params;
        let base = self.next_base;
        if self.next_base < u64::MAX {
            self.next_base = self.next_base + 1;
        }
        let executor = SimBatchExecutor { base_id: base, actions: Vec::new() };
        proof {
            assert(executor.actions@ =~= Seq::<ExecutorAction>::empty());
        }
        Ok(executor)
    }
}

/// A scripted I/O source: batch parameters, block parameters and transactions
/// are served from queues; the interaction budget plays the stop signal.
pub struct SimIo {
    pub chain: u64,
    pub fuel_left: u64,
    pub start_cursor: IoCursor,
    pub pending: Option<PendingBatchData>,
    pub batch_params: Vec<L1BatchParams>,
    pub next_batch_param: usize,
    pub block_params: Vec<L2BlockParams>,
    pub next_block_param: usize,
    pub txs: Vec<Transaction>,
    pub next_tx: usize,
    pub prev_batch_version: ProtocolVersionId,
    pub upgrade_txs: Vec<(u16, Transaction)>,
    pub contracts: BaseSystemContractsHashes,
    pub state_hash: u64,
    /// The unconditional batch-seal rule fires at this many executed txs.
    pub seal_batch_after_txs: u64,
    /// The block-seal rule fires at this many txs in the open block.
    pub seal_block_after_txs: u64,
    pub rolled_back: Vec<Transaction>,
    pub rejected: Vec<(Transaction, UnexecutableReason)>,
}

impl StateKeeperIO for SimIo {
    open spec fn chain_id_spec(&self) -> u64 {
        self.chain
    }

    open spec fn fuel(&self) -> nat {
        self.fuel_left as nat
    }

    open spec fn rolled_back(&self) -> Seq<Transaction> {
        self.rolled_back@
    }

    open spec fn rejected(&self) -> Seq<(Transaction, UnexecutableReason)> {
        self.rejected@
    }

    open spec fn initial_cursor(&self) -> IoCursor {
        self.start_cursor
    }

    fn is_canceled(&self) -> (r: bool) {
        self.fuel_left == 0
    }

    fn chain_id(&self) -> (r: u64) {
        self.chain
    }

    fn initialize(&mut self) -> (r: Result<(IoCursor, Option<PendingBatchData>), FatalError>) {
        let cursor = self.start_cursor;
        if cursor.l1_batch < 1 {
            return Err(FatalError { msg: "scripted cursor stands before genesis" });
        }
        let mut pending: Option<PendingBatchData> = None;
        core::mem::swap(&mut pending, &mut self.pending);
        match &pending {
            None => {
                if cursor.next_l2_block < 1 {
                    return Err(FatalError { msg: "scripted cursor has no previous block" });
                }
            },
            Some(p) => {
                let len = p.pending_l2_blocks.len();
                let first = p.l1_batch_env.first_l2_block.number;
                if len == 0 {
                    return Err(FatalError { msg: "scripted pending batch holds no blocks" });
                }
                if len > u32::MAX as usize {
                    return Err(FatalError { msg: "scripted pending batch too long" });
                }
                if (len as u64) >= u64::MAX - first {
                    return Err(FatalError { msg: "scripted pending block numbers overflow" });
                }
                if p.l1_batch_env.number != cursor.l1_batch {
                    return Err(FatalError { msg: "scripted pending batch number mismatch" });
                }
                if cursor.next_l2_block != first + (len as u64) {
                    return Err(FatalError { msg: "scripted cursor does not follow pending blocks" });
                }
                if p.pending_l2_blocks[0].timestamp != p.l1_batch_env.first_l2_block.timestamp {
                    return Err(FatalError { msg: "scripted pending first block timestamp mismatch" });
                }
                if p.pending_l2_blocks[0].virtual_blocks
                    != p.l1_batch_env.first_l2_block.virtual_blocks {
                    return Err(FatalError { msg: "scripted pending first block virtual blocks mismatch" });
                }
                let mut i: usize = 0;
                while i < len
                    invariant
                        self.chain == old(self).chain,
                        self.fuel_left == old(self).fuel_left,
                        self.rolled_back@ == old(self).rolled_back@,
                        self.rejected@ == old(self).rejected@,
                        len == p.pending_l2_blocks@.len(),
                        first == p.l1_batch_env.first_l2_block.number,
                        first + len < u64::MAX,
                        i <= len,
                        forall|j: int|
                            0 <= j < i ==> #[trigger] p.pending_l2_blocks@[j].number == first + j,
                    decreases len - i,
                {
                    if p.pending_l2_blocks[i].number != first + (i as u64) {
                        return Err(FatalError { msg: "scripted pending blocks not consecutive" });
                    }
                    i += 1;
                }
            },
        }
        Ok((cursor, pending))
    }

    fn wait_for_new_batch_params(&mut self, cursor: &IoCursor) -> (r: Result<
        Option<L1BatchParams>,
        FatalError,
    >) {
        let _ = cursor;
        if self.fuel_left > 0 {
            self.fuel_left = self.fuel_left - 1;
        }
        if self.next_batch_param < self.batch_params.len() {
            let params = self.batch_params[self.next_batch_param];
            self.next_batch_param = self.next_batch_param + 1;
            Ok(Some(params))
        } else {
            Ok(None)
        }
    }

    fn wait_for_new_l2_block_params(&mut self, cursor: &IoCursor) -> (r: Result<
        Option<L2BlockParams>,
        FatalError,
    >) {
        let _ = cursor;
        if self.fuel_left > 0 {
            self.fuel_left = self.fuel_left - 1;
        }
        if self.next_block_param < self.block_params.len() {
            let params = self.block_params[self.next_block_param];
            self.next_block_param = self.next_block_param + 1;
            Ok(Some(params))
        } else {
            Ok(None)
        }
    }

    fn wait_for_next_tx(&mut self, l2_block_timestamp: u64) -> (r: Result<
        Option<Transaction>,
        FatalError,
    >) {
        let _ = l2_block_timestamp;
        if self.fuel_left > 0 {
            self.fuel_left = self.fuel_left - 1;
        }
        if self.next_tx < self.txs.len() {
            let tx = self.txs[self.next_tx];
            self.next_tx = self.next_tx + 1;
            Ok(Some(tx))
        } else {
            Ok(None)
        }
    }

    fn rollback(&mut self, tx: Transaction) -> (r: Result<(), FatalError>) {
        self.rolled_back.push(tx);
        Ok(())
    }

    fn reject(&mut self, tx: &Transaction, reason: UnexecutableReason) -> (r: Result<
        (),
        FatalError,
    >) {
        self.rejected.push((*tx, reason));
        Ok(())
    }

    fn load_batch_version_id(&mut self, number: u64) -> (r: Result<ProtocolVersionId, FatalError>) {
        let _ = number;
        Ok(self.prev_batch_version)
    }

    fn load_upgrade_tx(&mut self, version: ProtocolVersionId) -> (r: Result<
        Option<Transaction>,
        FatalError,
    >) {
        let n = self.upgrade_txs.len();
        let mut i: usize = 0;
        while i < n
            invariant
                n == self.upgrade_txs@.len(),
                i <= n,
            decreases n - i,
        {
            let (minor, tx) = self.upgrade_txs[i];
            if minor == version.minor {
                if !tx.is_protocol_upgrade {
                    return Err(FatalError { msg: "scripted upgrade entry is no upgrade transaction" });
                }
                return Ok(Some(tx));
            }
            i += 1;
        }
        Ok(None)
    }

    fn load_base_system_contracts(&mut self, version: ProtocolVersionId, cursor: &IoCursor) -> (r:
        Result<BaseSystemContractsHashes, FatalError>) {
        let _ = version;
        let _ = cursor;
        Ok(self.contracts)
    }

    fn load_batch_state_hash(&mut self, number: u64) -> (r: Result<u64, FatalError>) {
        let _ = number;
        Ok(self.state_hash)
    }

    fn should_seal_l1_batch_unconditionally(&mut self, updates: &UpdatesManager) -> (r: Result<
        bool,
        FatalError,
    >) {
        if self.fuel_left > 0 {
            self.fuel_left = self.fuel_left - 1;
        }
        Ok(updates.pending_executed_transactions_len() >= self.seal_batch_after_txs)
    }

    fn should_seal_l2_block(&mut self, updates: &UpdatesManager) -> (r: bool) {
        updates.l2_block.executed_transactions.len() as u64 >= self.seal_block_after_txs
    }
}

/// What the recording handler keeps of one sealed batch.
#[derive(Clone, Copy, Debug, PartialEq, Eq, Structural)]
pub struct SealedBatchSummary {
    pub number: u64,
    pub last_block: u64,
    pub tx_count: u64,
    pub state_hash: u64,
}

/// An output handler that records every seal event in memory.
pub struct SimOutputHandler {
    pub sealed_log: Vec<crate::io::SealEvent>,
    pub batches: Vec<SealedBatchSummary>,
}

impl SimOutputHandler {
    pub fn new() -> (r: SimOutputHandler)
        ensures
            r.sealed_log@ == Seq::<crate::io::SealEvent>::empty(),
            r.batches@ == Seq::<SealedBatchSummary>::empty(),
    {
        let r = SimOutputHandler { sealed_log: Vec::new(), batches: Vec::new() };
        proof {
            assert(r.sealed_log@ =~= Seq::<crate::io::SealEvent>::empty());
            assert(r.batches@ =~= Seq::<SealedBatchSummary>::empty());
        }
        r
    }
}

impl OutputHandler for SimOutputHandler {
    open spec fn sealed(&self) -> Seq<crate::io::SealEvent> {
        self.sealed_log@
    }

    fn initialize(&mut self, cursor: &IoCursor) -> (r: Result<(), FatalError>) {
        let _ = cursor;
        Ok(())
    }

    fn handle_l2_block(&mut self, updates: &UpdatesManager) -> (r: Result<(), FatalError>) {
        self.sealed_log.push(
            crate::io::SealEvent::Block {
                batch: updates.batch_number,
                block: updates.l2_block.number,
            },
        );
        Ok(())
    }

    fn handle_l1_batch(&mut self, updates: UpdatesManager) -> (r: Result<(), FatalError>) {
        self.sealed_log.push(
            crate::io::SealEvent::Batch {
                batch: updates.batch_number,
                block: updates.l2_block.number,
            },
        );
        let state_hash = match updates.finished {
            Some(f) => f.state_hash,
            None => 0,
        };
        self.batches.push(
            SealedBatchSummary {
                number: updates.batch_number,
                last_block: updates.l2_block.number,
                tx_count: updates.pending_executed_transactions_len(),
                state_hash,
            },
        );
        Ok(())
    }
}

} // verus!
