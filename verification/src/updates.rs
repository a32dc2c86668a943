//! Batch and block parameters, the I/O cursor, and the in-memory accumulator
//! of executed-transaction effects for the batch currently being built.

use vstd::prelude::*;

use crate::dedup::{spec_apply_logs, spec_keys_of, StorageLog, StorageWritesDeduplicator};
use crate::seal::{spec_sat_add, DeduplicatedWritesMetrics, ExecutionMetrics};
use crate::types::ProtocolVersionId;

verus! {

/// A user or upgrade transaction, reduced to what sequencing reads of it.
#[derive(Clone, Copy, Debug, PartialEq, Eq, Structural)]
pub struct Transaction {
    pub hash: u64,
    pub initiator: u64,
    pub is_l1: bool,
    pub is_protocol_upgrade: bool,
    pub encoding_len: u64,
}

/// Where sequencing stands: the batch being built and the next L2 block to
/// open. Monotonically advancing.
#[derive(Clone, Copy, Debug, PartialEq, Eq, Structural)]
pub struct IoCursor {
    pub l1_batch: u64,
    pub next_l2_block: u64,
    pub prev_l2_block_timestamp: u64,
}

/// Parameters of one L2 block within a batch.
#[derive(Clone, Copy, Debug, PartialEq, Eq, Structural)]
pub struct L2BlockParams {
    pub timestamp: u64,
    pub virtual_blocks: u32,
}

/// Parameters to open a new batch, as handed out by the I/O component.
#[derive(Clone, Copy, Debug, PartialEq, Eq, Structural)]
pub struct L1BatchParams {
    pub protocol_version: ProtocolVersionId,
    pub timestamp: u64,
    pub fee_input: u64,
    pub first_l2_block: L2BlockParams,
    pub pubdata_params: PubdataParams,
}

/// The environment of the first (or a later) L2 block of a batch.
#[derive(Clone, Copy, Debug, PartialEq, Eq, Structural)]
pub struct L2BlockEnv {
    pub number: u64,
    pub timestamp: u64,
    pub virtual_blocks: u32,
}

/// The VM environment of one batch.
#[derive(Clone, Copy, Debug, PartialEq, Eq, Structural)]
pub struct L1BatchEnv {
    pub number: u64,
    pub timestamp: u64,
    pub fee_input: u64,
    pub previous_batch_hash: u64,
    pub first_l2_block: L2BlockEnv,
}

/// The system environment of one batch.
#[derive(Clone, Copy, Debug)]
pub struct SystemEnv {
    pub version: ProtocolVersionId,
    pub chain_id: u64,
    pub contracts: crate::types::BaseSystemContractsHashes,
}

/// How the batch publishes its pubdata.
#[derive(Clone, Copy, Debug, PartialEq, Eq, Structural)]
pub struct PubdataParams {
    pub pubdata_type: crate::types::PubdataSendingMode,
}

/// Turns batch parameters into the batch environments, anchored at the
/// cursor: the first L2 block of the new batch is exactly `next_l2_block`.
pub fn into_env(
    params: &L1BatchParams,
    chain_id: u64,
    contracts: crate::types::BaseSystemContractsHashes,
    cursor: &IoCursor,
    previous_batch_hash: u64,
) -> (r: (SystemEnv, L1BatchEnv, PubdataParams))
    ensures
        r.0 == (SystemEnv { version: params.protocol_version, chain_id, contracts }),
        r.2 == params.pubdata_params,
        r.1 == (L1BatchEnv {
            number: cursor.l1_batch,
            timestamp: params.timestamp,
            fee_input: params.fee_input,
            previous_batch_hash,
            first_l2_block: L2BlockEnv {
                number: cursor.next_l2_block,
                timestamp: params.first_l2_block.timestamp,
                virtual_blocks: params.first_l2_block.virtual_blocks,
            },
        }),
{
    (
        SystemEnv { version: params.protocol_version, chain_id, contracts },
        L1BatchEnv {
            number: cursor.l1_batch,
            timestamp: params.timestamp,
            fee_input: params.fee_input,
            previous_batch_hash,
            first_l2_block: L2BlockEnv {
                number: cursor.next_l2_block,
                timestamp: params.first_l2_block.timestamp,
                virtual_blocks: params.first_l2_block.virtual_blocks,
            },
        },
        params.pubdata_params,
    )
}

/// A sealed L2 block stored for replay after a restart.
#[derive(Clone, Debug)]
pub struct L2BlockExecutionData {
    pub number: u64,
    pub timestamp: u64,
    pub virtual_blocks: u32,
    pub txs: Vec<Transaction>,
}

/// The L2 block currently being filled.
#[derive(Clone, Debug)]
pub struct L2BlockUpdates {
    pub number: u64,
    pub timestamp: u64,
    pub virtual_blocks: u32,
    pub executed_transactions: Vec<Transaction>,
}

/// The artifact the executor returns when a batch is finished.
#[derive(Clone, Copy, Debug, PartialEq, Eq, Structural)]
pub struct FinishedBatch {
    pub state_hash: u64,
}

/// In-memory accumulator of the effects of the batch being built: executed
/// transactions per block, deduplicated storage writes, and the tallies the
/// seal criteria read.
#[derive(Debug)]
pub struct UpdatesManager {
    pub batch_number: u64,
    pub batch_timestamp: u64,
    pub fee_input: u64,
    pub protocol_version: ProtocolVersionId,
    pub chain_id: u64,
    pub pubdata_params: PubdataParams,
    /// Transactions of the L2 blocks of this batch already pushed down.
    pub batch_transactions: Vec<Transaction>,
    /// The block currently being filled.
    pub l2_block: L2BlockUpdates,
    pub storage_writes_deduplicator: StorageWritesDeduplicator,
    pub pending_execution_metrics: ExecutionMetrics,
    pub pending_txs_encoding_size: u64,
    pub pending_l1_transactions_len: u64,
    pub finished: Option<FinishedBatch>,
}

impl UpdatesManager {
    /// Every transaction executed in this batch so far, in execution order.
    pub open spec fn batch_tx_seq(self) -> Seq<Transaction> {
        self.batch_transactions@ + self.l2_block.executed_transactions@
    }

    /// The number of transactions executed in this batch, capped at `u64::MAX`.
    pub open spec fn pending_executed_transactions_len_spec(self) -> u64 {
        if self.batch_tx_seq().len() > u64::MAX {
            u64::MAX
        } else {
            self.batch_tx_seq().len() as u64
        }
    }

    /// Opens a fresh accumulator over a batch environment: the first L2 block
    /// comes from the environment and is empty.
    pub fn new(l1_batch_env: &L1BatchEnv, system_env: &SystemEnv, pubdata_params: PubdataParams) -> (r:
        UpdatesManager)
        ensures
            r.batch_number == l1_batch_env.number,
            r.batch_timestamp == l1_batch_env.timestamp,
            r.fee_input == l1_batch_env.fee_input,
            r.protocol_version == system_env.version,
            r.chain_id == system_env.chain_id,
            r.pubdata_params == pubdata_params,
            r.batch_transactions@ == Seq::<Transaction>::empty(),
            r.l2_block.number == l1_batch_env.first_l2_block.number,
            r.l2_block.timestamp == l1_batch_env.first_l2_block.timestamp,
            r.l2_block.virtual_blocks == l1_batch_env.first_l2_block.virtual_blocks,
            r.l2_block.executed_transactions@ == Seq::<Transaction>::empty(),
            r.storage_writes_deduplicator.keys_spec() == Seq::<u64>::empty(),
            r.storage_writes_deduplicator.metrics_spec() == (DeduplicatedWritesMetrics {
                initial_storage_writes: 0,
                repeated_storage_writes: 0,
            }),
            r.pending_execution_metrics == (ExecutionMetrics {
                computational_gas_used: 0,
                pubdata_published: 0,
                l2_to_l1_logs: 0,
            }),
            r.pending_txs_encoding_size == 0,
            r.pending_l1_transactions_len == 0,
            r.finished is None,
    {
        let r = UpdatesManager {
            batch_number: l1_batch_env.number,
            batch_timestamp: l1_batch_env.timestamp,
            fee_input: l1_batch_env.fee_input,
            protocol_version: system_env.version,
            chain_id: system_env.chain_id,
            pubdata_params,
            batch_transactions: Vec::new(),
            l2_block: L2BlockUpdates {
                number: l1_batch_env.first_l2_block.number,
                timestamp: l1_batch_env.first_l2_block.timestamp,
                virtual_blocks: l1_batch_env.first_l2_block.virtual_blocks,
                executed_transactions: Vec::new(),
            },
            storage_writes_deduplicator: StorageWritesDeduplicator::new(),
            pending_execution_metrics: ExecutionMetrics::new(),
            pending_txs_encoding_size: 0,
            pending_l1_transactions_len: 0,
            finished: None,
        };
        proof {
            assert(r.batch_transactions@ =~= Seq::<Transaction>::empty());
            assert(r.l2_block.executed_transactions@ =~= Seq::<Transaction>::empty());
        }
        r
    }

    pub fn protocol_version(&self) -> (r: ProtocolVersionId)
        ensures
            r == self.protocol_version,
    {
        self.protocol_version
    }

    pub fn batch_timestamp(&self) -> (r: u64)
        ensures
            r == self.batch_timestamp,
    {
        self.batch_timestamp
    }

    pub fn pending_executed_transactions_len(&self) -> (r: u64)
        ensures
            r == self.pending_executed_transactions_len_spec(),
    {
        crate::seal::sat_add(
            self.batch_transactions.len() as u64,
            self.l2_block.executed_transactions.len() as u64,
        )
    }

    pub fn pending_execution_metrics(&self) -> (r: ExecutionMetrics)
        ensures
            r == self.pending_execution_metrics,
    {
        self.pending_execution_metrics
    }

    pub fn pending_txs_encoding_size(&self) -> (r: u64)
        ensures
            r == self.pending_txs_encoding_size,
    {
        self.pending_txs_encoding_size
    }

    pub fn pending_l1_transactions_len(&self) -> (r: u64)
        ensures
            r == self.pending_l1_transactions_len,
    {
        self.pending_l1_transactions_len
    }

    /// The cursor after the blocks accumulated so far: the next block to open
    /// follows the one currently being filled.
    pub fn io_cursor(&self) -> (r: IoCursor)
        requires
            self.l2_block.number < u64::MAX,
        ensures
            r == (IoCursor {
                l1_batch: self.batch_number,
                next_l2_block: (self.l2_block.number + 1) as u64,
                prev_l2_block_timestamp: self.l2_block.timestamp,
            }),
    {
        IoCursor {
            l1_batch: self.batch_number,
            next_l2_block: self.l2_block.number + 1,
            prev_l2_block_timestamp: self.l2_block.timestamp,
        }
    }

    /// Closes the block being filled and opens the next one, empty, with the
    /// given parameters. The batch-level tallies are unchanged.
    pub fn push_l2_block(&mut self, params: &L2BlockParams)
        requires
            old(self).l2_block.number < u64::MAX,
        ensures
            final(self).batch_transactions@ == old(self).batch_transactions@ + old(
                self,
            ).l2_block.executed_transactions@,
            final(self).l2_block.number == old(self).l2_block.number + 1,
            final(self).l2_block.timestamp == params.timestamp,
            final(self).l2_block.virtual_blocks == params.virtual_blocks,
            final(self).l2_block.executed_transactions@ == Seq::<Transaction>::empty(),
            final(self).batch_tx_seq() == old(self).batch_tx_seq(),
            final(self).batch_number == old(self).batch_number,
            final(self).batch_timestamp == old(self).batch_timestamp,
            final(self).fee_input == old(self).fee_input,
            final(self).protocol_version == old(self).protocol_version,
            final(self).chain_id == old(self).chain_id,
            final(self).pubdata_params == old(self).pubdata_params,
            final(self).storage_writes_deduplicator == old(self).storage_writes_deduplicator,
            final(self).pending_execution_metrics == old(self).pending_execution_metrics,
            final(self).pending_txs_encoding_size == old(self).pending_txs_encoding_size,
            final(self).pending_l1_transactions_len == old(self).pending_l1_transactions_len,
            final(self).finished == old(self).finished,
    {
        let mut drained: Vec<Transaction> = Vec::new();
        core::mem::swap(&mut drained, &mut self.l2_block.executed_transactions);
        self.batch_transactions.append(&mut drained);
        let next_number = self.l2_block.number + 1;
        self.l2_block = L2BlockUpdates {
            number: next_number,
            timestamp: params.timestamp,
            virtual_blocks: params.virtual_blocks,
            executed_transactions: Vec::new(),
        };
        proof {
            assert(self.l2_block.executed_transactions@ =~= Seq::<Transaction>::empty());
            assert(self.batch_tx_seq() =~= old(self).batch_tx_seq());
        }
    }

    /// Records a successfully executed transaction: it joins the open block,
    /// its storage writes feed the deduplicator, and every tally grows
    /// monotonically.
    pub fn extend_from_executed_transaction(
        &mut self,
        tx: Transaction,
        tx_is_failed: bool,
        tx_metrics: &ExecutionMetrics,
        storage_logs: &Vec<StorageLog>,
    )
        ensures
            final(self).l2_block.executed_transactions@ == old(
                self,
            ).l2_block.executed_transactions@.push(tx),
            final(self).batch_transactions@ == old(self).batch_transactions@,
            final(self).batch_tx_seq() == old(self).batch_tx_seq().push(tx),
            final(self).l2_block.number == old(self).l2_block.number,
            final(self).l2_block.timestamp == old(self).l2_block.timestamp,
            final(self).l2_block.virtual_blocks == old(self).l2_block.virtual_blocks,
            final(self).storage_writes_deduplicator.keys_spec() == spec_apply_logs(
                old(self).storage_writes_deduplicator.keys_spec(),
                old(self).storage_writes_deduplicator.metrics_spec(),
                spec_keys_of(storage_logs@),
            ).0,
            final(self).storage_writes_deduplicator.metrics_spec() == spec_apply_logs(
                old(self).storage_writes_deduplicator.keys_spec(),
                old(self).storage_writes_deduplicator.metrics_spec(),
                spec_keys_of(storage_logs@),
            ).1,
            final(self).pending_execution_metrics.computational_gas_used == spec_sat_add(
                old(self).pending_execution_metrics.computational_gas_used,
                tx_metrics.computational_gas_used,
            ),
            final(self).pending_execution_metrics.pubdata_published == spec_sat_add(
                old(self).pending_execution_metrics.pubdata_published,
                tx_metrics.pubdata_published,
            ),
            final(self).pending_execution_metrics.l2_to_l1_logs == spec_sat_add(
                old(self).pending_execution_metrics.l2_to_l1_logs,
                tx_metrics.l2_to_l1_logs,
            ),
            final(self).pending_txs_encoding_size == spec_sat_add(
                old(self).pending_txs_encoding_size,
                tx.encoding_len,
            ),
            final(self).pending_l1_transactions_len == if tx.is_l1 {
                spec_sat_add(old(self).pending_l1_transactions_len, 1)
            } else {
                old(self).pending_l1_transactions_len
            },
            final(self).batch_number == old(self).batch_number,
            final(self).batch_timestamp == old(self).batch_timestamp,
            final(self).fee_input == old(self).fee_input,
            final(self).protocol_version == old(self).protocol_version,
            final(self).chain_id == old(self).chain_id,
            final(self).pubdata_params == old(self).pubdata_params,
            final(self).finished == old(self).finished,
    {
        let _ = tx_is_failed;
        self.l2_block.executed_transactions.push(tx);
        self.storage_writes_deduplicator.apply(storage_logs);
        self.pending_execution_metrics = self.pending_execution_metrics.add(*tx_metrics);
        self.pending_txs_encoding_size = crate::seal::sat_add(
            self.pending_txs_encoding_size,
            tx.encoding_len,
        );
        if tx.is_l1 {
            self.pending_l1_transactions_len = crate::seal::sat_add(
                self.pending_l1_transactions_len,
                1,
            );
        }
        proof {
            assert(self.batch_tx_seq() =~= old(self).batch_tx_seq().push(tx));
        }
    }

    /// Marks the batch as finished with the executor's artifact.
    pub fn finish_batch(&mut self, finished: FinishedBatch)
        ensures
            final(self).finished == Some(finished),
            final(self).batch_tx_seq() == old(self).batch_tx_seq(),
            final(self).batch_number == old(self).batch_number,
            final(self).l2_block.number == old(self).l2_block.number,
            final(self).l2_block.timestamp == old(self).l2_block.timestamp,
            final(self).batch_timestamp == old(self).batch_timestamp,
            final(self).protocol_version == old(self).protocol_version,
    {
        self.finished = Some(finished);
    }
}

} // verus!
