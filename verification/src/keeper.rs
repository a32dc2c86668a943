//! The state keeper: the logic layer of batch / block sequencing.
//!
//! It pulls parameters and transactions from the I/O, feeds them to a batch
//! executor, consults the conditional sealer after every transaction, and
//! hands sealed blocks and batches to the output handler, in order.
//!
//! The sequencing-monotonicity law is carried through every function: the
//! `(l1_batch, l2_block)` pairs the output handler receives form a
//! well-formed seal sequence (`seal_seq_wf`), from which
//! `lemma_sealed_sequence_monotone` derives strict lexicographic growth.

use vstd::prelude::*;

use crate::dedup::{spec_apply_logs, spec_keys_of, StorageLog, StorageWritesDeduplicator};
use crate::exec::{BatchExecutor, BatchExecutorFactory, ExecutorAction, FatalError, TxExecutionResult};
use crate::io::{seal_event_pair, OutputHandler, SealEvent, StateKeeperIO};
use crate::seal::{
    spec_sat_add, spec_should_seal_l1_batch, DeduplicatedWritesMetrics, ExecutionMetrics,
    HaltReason, SealData, SealResolution, SequencerSealer, UnexecutableReason,
};
use crate::types::ProtocolVersionId;
use crate::updates::{
    into_env, IoCursor, L1BatchEnv, L1BatchParams, L2BlockEnv, L2BlockExecutionData,
    L2BlockParams, PubdataParams, SystemEnv, Transaction, UpdatesManager,
};

verus! {

/// How a run of the state keeper ends: cancelled from outside, or broken.
#[derive(Clone, Copy, Debug)]
pub enum Error {
    Canceled,
    Fatal(FatalError),
}

impl Error {
    /// Attaches a higher-level context message to a fatal error; a
    /// cancellation passes through untouched.
    pub fn context(self, msg: &'static str) -> (r: Error)
        ensures
            self is Canceled ==> r is Canceled,
            self is Fatal ==> r == Error::Fatal(FatalError { msg }),
    {
        match self {
            Error::Canceled => Error::Canceled,
            Error::Fatal(_) => Error::Fatal(FatalError { msg }),
        }
    }
}

/// Two consecutively sealed `(l1_batch, l2_block)` pairs: the L2 block number
/// advances by exactly one, and the batch stays or advances by exactly one.
pub open spec fn seal_pair_ordered(a: (u64, u64), b: (u64, u64)) -> bool {
    b.1 == a.1 + 1 && (b.0 == a.0 || b.0 == a.0 + 1)
}

/// A well-formed seal record: every adjacent pair is ordered, and once a
/// batch is handed to the batch handler, every later event belongs to a
/// later batch.
pub open spec fn seal_seq_wf(s: Seq<SealEvent>) -> bool {
    &&& forall|i: int|
        0 <= i && i + 1 < s.len() ==> seal_pair_ordered(
            seal_event_pair(#[trigger] s[i]),
            seal_event_pair(s[i + 1]),
        )
    &&& forall|i: int, j: int|
        0 <= i < j < s.len() && s[i] is Batch ==> seal_event_pair(#[trigger] s[j]).0
            > seal_event_pair(#[trigger] s[i]).0
}

/// The block the sequencer is currently filling immediately follows the last
/// sealed block: in the same or the next batch after a block seal, and in
/// the next batch after a batch seal.
pub open spec fn open_block_follows(sealed: Seq<SealEvent>, batch: u64, block: u64) -> bool {
    sealed.len() == 0 || ({
        let last = seal_event_pair(sealed.last());
        &&& block == last.1 + 1
        &&& if sealed.last() is Batch {
            batch == last.0 + 1
        } else {
            batch == last.0 || batch == last.0 + 1
        }
    })
}

/// No batch at or above `batch` has been handed to the batch handler yet.
pub open spec fn batches_below(sealed: Seq<SealEvent>, batch: u64) -> bool {
    forall|i: int|
        0 <= i < sealed.len() && (#[trigger] sealed[i]) is Batch ==> seal_event_pair(
            sealed[i],
        ).0 < batch
}

/// The first seal of a run carries the cursor the I/O started it from.
pub open spec fn seal_anchor(sealed: Seq<SealEvent>, cursor: IoCursor) -> bool {
    sealed.len() > 0 ==> seal_event_pair(sealed[0]) == (cursor.l1_batch, cursor.next_l2_block)
}

/// The batch numbers handed to the batch handler, in order.
pub open spec fn batch_numbers(s: Seq<SealEvent>) -> Seq<u64>
    decreases s.len(),
{
    if s.len() == 0 {
        Seq::<u64>::empty()
    } else if s.last() is Batch {
        batch_numbers(s.drop_last()).push(seal_event_pair(s.last()).0)
    } else {
        batch_numbers(s.drop_last())
    }
}

/// Batches are handed to the batch handler consecutively from `first`.
pub open spec fn batches_consecutive_from(s: Seq<SealEvent>, first: u64) -> bool {
    forall|i: int|
        0 <= i < batch_numbers(s).len() ==> #[trigger] batch_numbers(s)[i] == first + i
}

/// Sealing the open block keeps the record well-formed.
proof fn lemma_seal_push(sealed: Seq<SealEvent>, e: SealEvent)
    requires
        seal_seq_wf(sealed),
        open_block_follows(sealed, seal_event_pair(e).0, seal_event_pair(e).1),
        batches_below(sealed, seal_event_pair(e).0),
    ensures
        seal_seq_wf(sealed.push(e)),
{
    let s2 = sealed.push(e);
    assert forall|i: int| 0 <= i && i + 1 < s2.len() implies seal_pair_ordered(
        seal_event_pair(#[trigger] s2[i]),
        seal_event_pair(s2[i + 1]),
    ) by {
        if i + 1 < sealed.len() {
            assert(seal_pair_ordered(
                seal_event_pair(sealed[i]),
                seal_event_pair(sealed[i + 1]),
            ));
        }
    }
    assert forall|i: int, j: int|
        0 <= i < j < s2.len() && s2[i] is Batch implies seal_event_pair(#[trigger] s2[j]).0
        > seal_event_pair(#[trigger] s2[i]).0 by {
        if j < sealed.len() {
            assert(seal_event_pair(sealed[j]).0 > seal_event_pair(sealed[i]).0);
        } else {
            assert(s2[i] == sealed[i]);
        }
    }
}

/// A record extended by block seals alone keeps its batch-number list.
proof fn lemma_batch_numbers_block_extension(a: Seq<SealEvent>, b: Seq<SealEvent>)
    requires
        a.is_prefix_of(b),
        forall|i: int| a.len() <= i < b.len() ==> (#[trigger] b[i]) is Block,
    ensures
        batch_numbers(b) == batch_numbers(a),
    decreases b.len(),
{
    if b.len() == a.len() {
        assert(a =~= b);
    } else {
        assert(a.is_prefix_of(b.drop_last())) by {
            assert(b.drop_last().subrange(0, a.len() as int) =~= b.subrange(0, a.len() as int));
        }
        lemma_batch_numbers_block_extension(a, b.drop_last());
        assert(b[b.len() - 1] is Block);
    }
}

/// A prefix stays a prefix under one more event.
proof fn lemma_prefix_push<T>(a: Seq<T>, b: Seq<T>, x: T)
    requires
        a.is_prefix_of(b),
    ensures
        a.is_prefix_of(b.push(x)),
{
    assert(b.push(x).subrange(0, a.len() as int) =~= b.subrange(0, a.len() as int));
}

/// Law (sequencing monotonicity): in a well-formed seal record the pairs
/// grow strictly lexicographically, block numbers have no gaps at all, and
/// batch numbers have no gaps: each later entry sits in the same or a later
/// batch, and its block number is exactly the earlier block plus the
/// distance.
pub proof fn lemma_sealed_sequence_monotone(s: Seq<SealEvent>, i: int, j: int)
    requires
        seal_seq_wf(s),
        0 <= i < j < s.len(),
    ensures
        seal_event_pair(s[j]).1 == seal_event_pair(s[i]).1 + (j - i),
        seal_event_pair(s[i]).0 <= seal_event_pair(s[j]).0 <= seal_event_pair(s[i]).0 + (j - i),
    decreases j - i,
{
    if j == i + 1 {
        assert(seal_pair_ordered(seal_event_pair(s[i]), seal_event_pair(s[j])));
    } else {
        lemma_sealed_sequence_monotone(s, i, j - 1);
        assert(seal_pair_ordered(seal_event_pair(s[j - 1]), seal_event_pair(s[j])));
    }
}

/// All observable state of the accumulator is the same.
pub open spec fn um_unchanged(a: UpdatesManager, b: UpdatesManager) -> bool {
    &&& b.batch_number == a.batch_number
    &&& b.batch_timestamp == a.batch_timestamp
    &&& b.fee_input == a.fee_input
    &&& b.protocol_version == a.protocol_version
    &&& b.chain_id == a.chain_id
    &&& b.pubdata_params == a.pubdata_params
    &&& b.batch_transactions@ == a.batch_transactions@
    &&& b.l2_block.number == a.l2_block.number
    &&& b.l2_block.timestamp == a.l2_block.timestamp
    &&& b.l2_block.virtual_blocks == a.l2_block.virtual_blocks
    &&& b.l2_block.executed_transactions@ == a.l2_block.executed_transactions@
    &&& b.storage_writes_deduplicator.keys_spec() == a.storage_writes_deduplicator.keys_spec()
    &&& b.storage_writes_deduplicator.metrics_spec() == a.storage_writes_deduplicator.metrics_spec()
    &&& b.pending_execution_metrics == a.pending_execution_metrics
    &&& b.pending_txs_encoding_size == a.pending_txs_encoding_size
    &&& b.pending_l1_transactions_len == a.pending_l1_transactions_len
    &&& b.finished == a.finished
}

pub open spec fn spec_metrics_add(a: ExecutionMetrics, b: ExecutionMetrics) -> ExecutionMetrics {
    ExecutionMetrics {
        computational_gas_used: spec_sat_add(a.computational_gas_used, b.computational_gas_used),
        pubdata_published: spec_sat_add(a.pubdata_published, b.pubdata_published),
        l2_to_l1_logs: spec_sat_add(a.l2_to_l1_logs, b.l2_to_l1_logs),
    }
}

/// The deduplicated writes of the open batch with the given logs added.
pub open spec fn spec_block_writes(
    um: UpdatesManager,
    logs: Seq<StorageLog>,
) -> DeduplicatedWritesMetrics {
    spec_apply_logs(
        um.storage_writes_deduplicator.keys_spec(),
        um.storage_writes_deduplicator.metrics_spec(),
        spec_keys_of(logs),
    ).1
}

/// The deduplicated writes of the given logs alone.
pub open spec fn spec_tx_writes(logs: Seq<StorageLog>) -> DeduplicatedWritesMetrics {
    spec_apply_logs(
        Seq::<u64>::empty(),
        DeduplicatedWritesMetrics { initial_storage_writes: 0, repeated_storage_writes: 0 },
        spec_keys_of(logs),
    ).1
}

/// The seal verdict for one executed transaction, as a function of the
/// sealer's configuration, the accumulator before the transaction, the
/// transaction, and its execution result: out-of-gas outcomes make the first
/// transaction of a batch unexecutable and otherwise shed the transaction
/// into the next batch; any other VM rejection is unexecutable; a successful
/// execution is judged by the seal criteria.
pub open spec fn spec_tx_resolution(
    config: crate::seal::SealCriteriaConfig,
    um: UpdatesManager,
    tx: Transaction,
    result: TxExecutionResult,
) -> SealResolution {
    let is_first_tx = um.batch_tx_seq().len() == 0;
    match result {
        TxExecutionResult::BootloaderOutOfGasForTx => if is_first_tx {
            SealResolution::Unexecutable(UnexecutableReason::BootloaderOutOfGas)
        } else {
            SealResolution::ExcludeAndSeal
        },
        TxExecutionResult::RejectedByVm { reason } => if reason
            == HaltReason::NotEnoughGasProvided {
            if is_first_tx {
                SealResolution::Unexecutable(UnexecutableReason::NotEnoughGasProvided)
            } else {
                SealResolution::ExcludeAndSeal
            }
        } else {
            SealResolution::Unexecutable(UnexecutableReason::Halt(reason))
        },
        TxExecutionResult::Success { is_failed, tx_metrics, gas_remaining, storage_logs } => {
            let tx_data = SealData {
                execution_metrics: tx_metrics,
                cumulative_size: tx.encoding_len,
                writes_metrics: spec_tx_writes(storage_logs@),
                gas_remaining,
            };
            let block_data = SealData {
                execution_metrics: spec_metrics_add(tx_metrics, um.pending_execution_metrics),
                cumulative_size: spec_sat_add(tx.encoding_len, um.pending_txs_encoding_size),
                writes_metrics: spec_block_writes(um, storage_logs@),
                gas_remaining,
            };
            spec_should_seal_l1_batch(
                config,
                spec_sat_add(um.pending_executed_transactions_len_spec(), 1),
                block_data,
                tx_data,
            )
        },
    }
}

/// Whether an upgrade transaction's outcome lets the batch continue.
pub open spec fn spec_upgrade_outcome_ok(result: crate::exec::TxOutcome) -> bool {
    match result {
        crate::exec::TxOutcome::Success { is_failed, .. } => !is_failed,
        _ => false,
    }
}

/// The same verdict, read off the ghost outcome the deterministic machine
/// assigns to the transaction.
pub open spec fn spec_tx_resolution_outcome(
    config: crate::seal::SealCriteriaConfig,
    um: UpdatesManager,
    tx: Transaction,
    out: crate::exec::TxOutcome,
) -> SealResolution {
    let is_first_tx = um.batch_tx_seq().len() == 0;
    match out {
        crate::exec::TxOutcome::BootloaderOutOfGasForTx => if is_first_tx {
            SealResolution::Unexecutable(UnexecutableReason::BootloaderOutOfGas)
        } else {
            SealResolution::ExcludeAndSeal
        },
        crate::exec::TxOutcome::RejectedByVm { reason } => if reason
            == HaltReason::NotEnoughGasProvided {
            if is_first_tx {
                SealResolution::Unexecutable(UnexecutableReason::NotEnoughGasProvided)
            } else {
                SealResolution::ExcludeAndSeal
            }
        } else {
            SealResolution::Unexecutable(UnexecutableReason::Halt(reason))
        },
        crate::exec::TxOutcome::Success { is_failed, tx_metrics, gas_remaining, storage_logs } => {
            let tx_data = SealData {
                execution_metrics: tx_metrics,
                cumulative_size: tx.encoding_len,
                writes_metrics: spec_tx_writes(storage_logs),
                gas_remaining,
            };
            let block_data = SealData {
                execution_metrics: spec_metrics_add(tx_metrics, um.pending_execution_metrics),
                cumulative_size: spec_sat_add(tx.encoding_len, um.pending_txs_encoding_size),
                writes_metrics: spec_apply_logs(
                    um.storage_writes_deduplicator.keys_spec(),
                    um.storage_writes_deduplicator.metrics_spec(),
                    spec_keys_of(storage_logs),
                ).1,
                gas_remaining,
            };
            spec_should_seal_l1_batch(
                config,
                spec_sat_add(um.pending_executed_transactions_len_spec(), 1),
                block_data,
                tx_data,
            )
        },
    }
}

/// The verdict of an execution result equals the verdict of its ghost value.
proof fn lemma_tx_resolution_view(
    config: crate::seal::SealCriteriaConfig,
    um: UpdatesManager,
    tx: Transaction,
    result: TxExecutionResult,
)
    ensures
        spec_tx_resolution(config, um, tx, result) == spec_tx_resolution_outcome(
            config,
            um,
            tx,
            result.view_spec(),
        ),
{
    match result {
        TxExecutionResult::BootloaderOutOfGasForTx => {},
        TxExecutionResult::RejectedByVm { .. } => {},
        TxExecutionResult::Success { .. } => {},
    }
}

pub open spec fn block_env_of(b: L2BlockExecutionData) -> L2BlockEnv {
    L2BlockEnv { number: b.number, timestamp: b.timestamp, virtual_blocks: b.virtual_blocks }
}

pub open spec fn tx_actions(txs: Seq<Transaction>) -> Seq<ExecutorAction> {
    txs.map_values(|t: Transaction| ExecutorAction::Tx(t))
}

/// Every transaction of the stored blocks, in execution order.
pub open spec fn pending_tx_seq(blocks: Seq<L2BlockExecutionData>) -> Seq<Transaction>
    decreases blocks.len(),
{
    if blocks.len() == 0 {
        Seq::<Transaction>::empty()
    } else {
        pending_tx_seq(blocks.drop_last()) + blocks.last().txs@
    }
}

/// The executor actions a replay of the stored blocks performs: the first
/// block is already open, every later block is opened with its stored
/// parameters, and each block's transactions are re-executed in order.
pub open spec fn replay_actions(blocks: Seq<L2BlockExecutionData>) -> Seq<ExecutorAction>
    decreases blocks.len(),
{
    if blocks.len() == 0 {
        Seq::<ExecutorAction>::empty()
    } else if blocks.len() == 1 {
        tx_actions(blocks[0].txs@)
    } else {
        replay_actions(blocks.drop_last()) + seq![
            ExecutorAction::OpenBlock(block_env_of(blocks.last())),
        ] + tx_actions(blocks.last().txs@)
    }
}

/// The trace standing right before transaction `j` of stored block `i` is
/// replayed: the prefix from before the replay, the earlier blocks' actions,
/// the block's own opening when it is not the first, and the block's earlier
/// transactions.
pub open spec fn replay_point_trace(
    pre: Seq<ExecutorAction>,
    blocks: Seq<L2BlockExecutionData>,
    i: int,
    j: int,
) -> Seq<ExecutorAction> {
    pre + replay_actions(blocks.take(i)) + (if i > 0 {
        seq![ExecutorAction::OpenBlock(block_env_of(blocks[i]))]
    } else {
        Seq::<ExecutorAction>::empty()
    }) + tx_actions(blocks[i].txs@.take(j))
}

/// Law (replay determinism): the virtual machine is a deterministic function
/// of the storage snapshot and the trace, so two executors over identical
/// storage that replayed identical actions give identical results for every
/// transaction and an identical batch artifact.
pub proof fn lemma_replay_deterministic<E: BatchExecutor>(e1: &E, e2: &E, tx: Transaction)
    requires
        e1.base() == e2.base(),
        e1.trace() == e2.trace(),
    ensures
        E::outcome(e1.base(), e1.trace(), tx) == E::outcome(e2.base(), e2.trace(), tx),
        E::finish_outcome(e1.base(), e1.trace()) == E::finish_outcome(e2.base(), e2.trace()),
{
}

/// The state keeper. It owns the I/O, the executor factory, the sealer, and
/// the output handler, and is the only writer of all of them.
pub struct ZkSyncStateKeeper<IO, E, F, OH> where
    IO: StateKeeperIO,
    E: BatchExecutor,
    F: BatchExecutorFactory<E>,
    OH: OutputHandler,
 {
    pub io: IO,
    pub output_handler: OH,
    pub batch_executor: F,
    pub sealer: SequencerSealer,
    pub executor_marker: core::marker::PhantomData<E>,
}

impl<IO, E, F, OH> ZkSyncStateKeeper<IO, E, F, OH> where
    IO: StateKeeperIO,
    E: BatchExecutor,
    F: BatchExecutorFactory<E>,
    OH: OutputHandler,
 {
    pub fn new(sequencer: IO, batch_executor: F, output_handler: OH, sealer: SequencerSealer) -> (r:
        Self)
        ensures
            r.io == sequencer,
            r.output_handler == output_handler,
            r.batch_executor == batch_executor,
            r.sealer == sealer,
    {
        ZkSyncStateKeeper {
            io: sequencer,
            output_handler,
            batch_executor,
            sealer,
            executor_marker: core::marker::PhantomData,
        }
    }

    /// Runs the sequencing loop until cancelled; a cancellation is a normal
    /// shutdown, anything else is reported as the fatal error it is. Either
    /// way, what was handed to the output handler is a well-formed seal
    /// sequence.
    pub fn run(&mut self) -> (r: Result<(), FatalError>)
        requires
            old(self).output_handler.sealed().len() == 0,
        ensures
            seal_seq_wf(final(self).output_handler.sealed()),
            seal_anchor(final(self).output_handler.sealed(), old(self).io.initial_cursor()),
            batches_consecutive_from(
                final(self).output_handler.sealed(),
                old(self).io.initial_cursor().l1_batch,
            ),
            r is Ok ==> final(self).io.fuel() == 0,
    {
        match self.run_inner() {
            Err(Error::Fatal(err)) => Err(err),
            Err(Error::Canceled) => Ok(()),
            Ok(()) => Ok(()),
        }
    }

    /// Fallible version of `run` that surfaces cancellation as an error; it
    /// never returns `Ok`.
    #[verifier::rlimit(100)]
    fn run_inner(&mut self) -> (r: Result<(), Error>)
        requires
            old(self).output_handler.sealed().len() == 0,
        ensures
            r is Err,
            seal_seq_wf(final(self).output_handler.sealed()),
            seal_anchor(final(self).output_handler.sealed(), old(self).io.initial_cursor()),
            batches_consecutive_from(
                final(self).output_handler.sealed(),
                old(self).io.initial_cursor().l1_batch,
            ),
            (r matches Err(e) ==> (e is Canceled ==> final(self).io.fuel() == 0)),
    {
        let ghost cursor0 = self.io.initial_cursor();
        let (cursor, pending_batch_params) = match self.io.initialize() {
            Ok(v) => v,
            Err(e) => return Err(Error::Fatal(e)),
        };
        proof {
            assert(cursor == cursor0);
        }
        match self.output_handler.initialize(&cursor) {
            Ok(()) => (),
            Err(e) => return Err(Error::Fatal(e)),
        }

        // Resume the pending batch if there is one; otherwise open a new one.
        let (mut l1_batch_env, mut system_env, mut pubdata_params, pending_l2_blocks): (
            L1BatchEnv,
            SystemEnv,
            PubdataParams,
            Vec<L2BlockExecutionData>,
        ) = match pending_batch_params {
            Some(params) => {
                (params.l1_batch_env, params.system_env, params.pubdata_params, params.pending_l2_blocks)
            },
            None => {
                let (system_env, l1_batch_env, pubdata_params) = match self.wait_for_new_batch_env(
                    &cursor,
                ) {
                    Ok(v) => v,
                    Err(e) => return Err(e.context("wait_for_new_batch_params()")),
                };
                (l1_batch_env, system_env, pubdata_params, Vec::new())
            },
        };

        let protocol_version = system_env.version;
        let mut updates_manager = UpdatesManager::new(&l1_batch_env, &system_env, pubdata_params);
        let mut protocol_upgrade_tx: Option<Transaction> = match self.load_protocol_upgrade_tx(
            &pending_l2_blocks,
            protocol_version,
            l1_batch_env.number,
        ) {
            Ok(v) => v,
            Err(e) => return Err(e),
        };

        let mut batch_executor = match self.batch_executor.init_batch(
            &l1_batch_env,
            &system_env,
            &pubdata_params,
        ) {
            Ok(v) => v,
            Err(e) => return Err(Error::Fatal(e)),
        };
        match self.restore_state(&mut batch_executor, &mut updates_manager, &pending_l2_blocks) {
            Ok(()) => (),
            Err(e) => return Err(e),
        }

        proof {
            assert(updates_manager.batch_number == cursor0.l1_batch);
            if pending_l2_blocks@.len() > 0 {
                assert(pending_l2_blocks@.last().number == pending_l2_blocks@[0].number
                    + pending_l2_blocks@.len() - 1);
                assert(updates_manager.l2_block.number == cursor0.next_l2_block);
            } else {
                assert(updates_manager.l2_block.number == cursor0.next_l2_block);
            }
            assert(batch_numbers(self.output_handler.sealed()) =~= Seq::<u64>::empty());
        }
        let mut sealed_batch_protocol_version = updates_manager.protocol_version();
        while !self.io.is_canceled()
            invariant
                seal_seq_wf(self.output_handler.sealed()),
                open_block_follows(
                    self.output_handler.sealed(),
                    updates_manager.batch_number,
                    updates_manager.l2_block.number,
                ),
                batches_below(self.output_handler.sealed(), updates_manager.batch_number),
                seal_anchor(self.output_handler.sealed(), cursor0),
                self.output_handler.sealed().len() == 0 ==> updates_manager.batch_number
                    == cursor0.l1_batch && updates_manager.l2_block.number
                    == cursor0.next_l2_block,
                batch_numbers(self.output_handler.sealed()).len() + cursor0.l1_batch
                    == updates_manager.batch_number,
                batches_consecutive_from(self.output_handler.sealed(), cursor0.l1_batch),
                cursor0 == old(self).io.initial_cursor(),
                protocol_upgrade_tx is Some ==> updates_manager.batch_tx_seq().len() == 0,
            decreases self.io.fuel(),
        {
            let ghost sealed_at_head = self.output_handler.sealed();
            let ghost block_at_head = updates_manager.l2_block.number;
            // Fill the batch until a seal verdict fires.
            let step = self.process_l1_batch(
                &mut batch_executor,
                &mut updates_manager,
                protocol_upgrade_tx,
            );
            proof {
                lemma_batch_numbers_block_extension(sealed_at_head, self.output_handler.sealed());
                if sealed_at_head.len() > 0 {
                    assert(self.output_handler.sealed()[0] == sealed_at_head[0]);
                } else if self.output_handler.sealed().len() > 0 {
                    assert(seal_event_pair(self.output_handler.sealed()[0]) == (
                    cursor0.l1_batch,
                    cursor0.next_l2_block,
                    ));
                }
            }
            match step {
                Ok(()) => (),
                Err(e) => return Err(e),
            }
            protocol_upgrade_tx = None;

            // Seal the open block if it holds anything, then open the fictive
            // last block, so the batch ends on a freshly opened block.
            if updates_manager.l2_block.executed_transactions.len() > 0 {
                let ghost sealed_pre = self.output_handler.sealed();
                match self.seal_l2_block(&updates_manager) {
                    Ok(()) => (),
                    Err(e) => return Err(e),
                }
                proof {
                    let e = SealEvent::Block {
                        batch: updates_manager.batch_number,
                        block: updates_manager.l2_block.number,
                    };
                    lemma_seal_push(sealed_pre, e);
                    assert(sealed_pre.push(e).drop_last() =~= sealed_pre);
                    assert(batch_numbers(self.output_handler.sealed()) == batch_numbers(
                        sealed_pre,
                    ));
                    if sealed_pre.len() > 0 {
                        assert(self.output_handler.sealed()[0] == sealed_pre[0]);
                    }
                }
                if updates_manager.l2_block.number == u64::MAX {
                    return Err(Error::Fatal(FatalError { msg: "L2 block numbers exhausted" }));
                }
                let new_l2_block_params = match self.wait_for_new_l2_block_params(
                    &updates_manager,
                ) {
                    Ok(v) => v,
                    Err(e) => return Err(e),
                };
                match Self::start_next_l2_block(
                    new_l2_block_params,
                    &mut updates_manager,
                    &mut batch_executor,
                ) {
                    Ok(()) => (),
                    Err(e) => return Err(e),
                }
            }

            let finished_batch = match batch_executor.finish_batch() {
                Ok(v) => v,
                Err(e) => return Err(Error::Fatal(e)),
            };
            sealed_batch_protocol_version = updates_manager.protocol_version();
            updates_manager.finish_batch(finished_batch);
            if updates_manager.l2_block.number == u64::MAX {
                return Err(Error::Fatal(FatalError { msg: "L2 block numbers exhausted" }));
            }
            let mut next_cursor = updates_manager.io_cursor();
            let ghost sealed_batch = updates_manager.batch_number;
            let ghost sealed_block = updates_manager.l2_block.number;
            let ghost sealed_before = self.output_handler.sealed();
            match self.output_handler.handle_l1_batch(updates_manager) {
                Ok(()) => (),
                Err(e) => return Err(Error::Fatal(e).context("failed sealing L1 batch")),
            }
            proof {
                let e = SealEvent::Batch { batch: sealed_batch, block: sealed_block };
                lemma_seal_push(sealed_before, e);
                assert(sealed_before.push(e).drop_last() =~= sealed_before);
                assert(batch_numbers(self.output_handler.sealed()) == batch_numbers(
                    sealed_before,
                ).push(sealed_batch));
                assert(batch_numbers(sealed_before) == batch_numbers(sealed_at_head));
                assert forall|i: int|
                    0 <= i < batch_numbers(self.output_handler.sealed()).len() implies #[trigger] batch_numbers(
                    self.output_handler.sealed(),
                )[i] == cursor0.l1_batch + i by {
                    if i < batch_numbers(sealed_at_head).len() {
                        assert(batch_numbers(sealed_at_head)[i] == cursor0.l1_batch + i);
                    }
                }
                if sealed_before.len() > 0 {
                    assert(self.output_handler.sealed()[0] == sealed_before[0]);
                } else {
                    assert(sealed_at_head.len() == 0);
                    assert(sealed_block == block_at_head);
                }
            }

            // Open the next batch.
            if next_cursor.l1_batch == u64::MAX {
                return Err(Error::Fatal(FatalError { msg: "L1 batch numbers exhausted" }));
            }
            next_cursor.l1_batch = next_cursor.l1_batch + 1;
            let envs = match self.wait_for_new_batch_env(&next_cursor) {
                Ok(v) => v,
                Err(e) => return Err(e),
            };
            system_env = envs.0;
            l1_batch_env = envs.1;
            pubdata_params = envs.2;
            updates_manager = UpdatesManager::new(&l1_batch_env, &system_env, pubdata_params);
            batch_executor = match self.batch_executor.init_batch(
                &l1_batch_env,
                &system_env,
                &pubdata_params,
            ) {
                Ok(v) => v,
                Err(e) => return Err(Error::Fatal(e)),
            };

            let version_changed = system_env.version != sealed_batch_protocol_version;
            protocol_upgrade_tx = if version_changed {
                match self.load_upgrade_tx(system_env.version) {
                    Ok(v) => v,
                    Err(e) => return Err(e),
                }
            } else {
                None
            };
        }
        Err(Error::Canceled)
    }

    /// Checks whether an upgrade or genesis transaction must run first in
    /// this batch: the protocol version changed against the previous batch,
    /// or this is batch one under the shared bridge. If the batch is resumed
    /// from pending blocks and the upgrade transaction is still attached, it
    /// was already executed before the restart: the first stored transaction
    /// must be the upgrade itself, and the loaded one is dropped.
    fn load_protocol_upgrade_tx(
        &mut self,
        pending_l2_blocks: &Vec<L2BlockExecutionData>,
        protocol_version: ProtocolVersionId,
        l1_batch_number: u64,
    ) -> (r: Result<Option<Transaction>, Error>)
        requires
            l1_batch_number >= 1,
        ensures
            final(self).output_handler.sealed() == old(self).output_handler.sealed(),
            final(self).io.fuel() <= old(self).io.fuel(),
            r matches Err(e) ==> e is Fatal,
            r matches Ok(Some(tx)) ==> tx.is_protocol_upgrade && pending_l2_blocks@.len() == 0,
    {
        let first_batch_in_shared_bridge = l1_batch_number == 1
            && !protocol_version.is_pre_shared_bridge();
        let previous_batch_protocol_version = match self.io.load_batch_version_id(
            l1_batch_number - 1,
        ) {
            Ok(v) => v,
            Err(e) => return Err(Error::Fatal(e)),
        };

        let version_changed = protocol_version != previous_batch_protocol_version;
        let mut protocol_upgrade_tx: Option<Transaction> = if version_changed
            || first_batch_in_shared_bridge {
            match self.io.load_upgrade_tx(protocol_version) {
                Ok(v) => v,
                Err(e) => return Err(Error::Fatal(e)),
            }
        } else {
            None
        };

        if pending_l2_blocks.len() > 0 && protocol_upgrade_tx.is_some() {
            // The upgrade ran before the restart and was persisted with the
            // pending state; it must stand first there.
            if pending_l2_blocks[0].txs.len() == 0 {
                return Err(Error::Fatal(FatalError {
                    msg: "pending L2 blocks with an upgrade attached hold no transaction",
                }));
            }
            if !pending_l2_blocks[0].txs[0].is_protocol_upgrade {
                return Err(Error::Fatal(FatalError {
                    msg: "expected an upgrade transaction to be the first one in pending L2 blocks",
                }));
            }
            protocol_upgrade_tx = None;
        }
        Ok(protocol_upgrade_tx)
    }

    fn load_upgrade_tx(&mut self, protocol_version: ProtocolVersionId) -> (r: Result<
        Option<Transaction>,
        Error,
    >)
        ensures
            final(self).output_handler.sealed() == old(self).output_handler.sealed(),
            final(self).io.fuel() <= old(self).io.fuel(),
            r matches Err(e) ==> e is Fatal,
            r matches Ok(Some(tx)) ==> tx.is_protocol_upgrade,
    {
        match self.io.load_upgrade_tx(protocol_version) {
            Ok(v) => Ok(v),
            Err(e) => Err(Error::Fatal(e).context("failed loading upgrade transaction")),
        }
    }

    /// Polls the I/O for the next batch's parameters until they arrive or the
    /// run is cancelled.
    fn wait_for_new_batch_params(&mut self, cursor: &IoCursor) -> (r: Result<L1BatchParams, Error>)
        ensures
            final(self).output_handler.sealed() == old(self).output_handler.sealed(),
            final(self).io.fuel() <= old(self).io.fuel(),
            final(self).io.chain_id_spec() == old(self).io.chain_id_spec(),
            final(self).io.rolled_back() == old(self).io.rolled_back(),
            final(self).io.rejected() == old(self).io.rejected(),
            (r matches Err(e) ==> (e is Canceled ==> final(self).io.fuel() == 0)),
    {
        while !self.io.is_canceled()
            invariant
                self.output_handler.sealed() == old(self).output_handler.sealed(),
                self.io.fuel() <= old(self).io.fuel(),
                self.io.chain_id_spec() == old(self).io.chain_id_spec(),
                self.io.rolled_back() == old(self).io.rolled_back(),
                self.io.rejected() == old(self).io.rejected(),
            decreases self.io.fuel(),
        {
            match self.io.wait_for_new_batch_params(cursor) {
                Ok(Some(params)) => return Ok(params),
                Ok(None) => (),
                Err(e) => return Err(Error::Fatal(e)),
            }
        }
        Err(Error::Canceled)
    }

    /// Waits for batch parameters, then builds the batch environments: loads
    /// the base system contracts and the previous batch's state hash, and
    /// anchors the new environment at the cursor.
    fn wait_for_new_batch_env(&mut self, cursor: &IoCursor) -> (r: Result<
        (SystemEnv, L1BatchEnv, PubdataParams),
        Error,
    >)
        requires
            cursor.l1_batch >= 1,
        ensures
            final(self).output_handler.sealed() == old(self).output_handler.sealed(),
            final(self).io.fuel() <= old(self).io.fuel(),
            final(self).io.rolled_back() == old(self).io.rolled_back(),
            final(self).io.rejected() == old(self).io.rejected(),
            (r matches Err(e) ==> (e is Canceled ==> final(self).io.fuel() == 0)),
            r matches Ok(envs) ==> {
                &&& envs.1.number == cursor.l1_batch
                &&& envs.1.first_l2_block.number == cursor.next_l2_block
            },
    {
        let params = match self.wait_for_new_batch_params(cursor) {
            Ok(v) => v,
            Err(e) => return Err(e),
        };
        let contracts = match self.io.load_base_system_contracts(params.protocol_version, cursor) {
            Ok(v) => v,
            Err(e) => return Err(
                Error::Fatal(e).context("failed loading system contracts for protocol version"),
            ),
        };
        let previous_batch_hash = match self.io.load_batch_state_hash(cursor.l1_batch - 1) {
            Ok(v) => v,
            Err(e) => return Err(
                Error::Fatal(e).context("cannot load state hash for previous L1 batch"),
            ),
        };
        let chain_id = self.io.chain_id();
        let (system_env, l1_batch_env, pubdata_params) = into_env(
            &params,
            chain_id,
            contracts,
            cursor,
            previous_batch_hash,
        );
        Ok((system_env, l1_batch_env, pubdata_params))
    }

    /// Polls the I/O for the next L2 block's parameters until they arrive or
    /// the run is cancelled.
    fn wait_for_new_l2_block_params(&mut self, updates: &UpdatesManager) -> (r: Result<
        L2BlockParams,
        Error,
    >)
        requires
            updates.l2_block.number < u64::MAX,
        ensures
            final(self).output_handler.sealed() == old(self).output_handler.sealed(),
            final(self).io.fuel() <= old(self).io.fuel(),
            final(self).io.chain_id_spec() == old(self).io.chain_id_spec(),
            final(self).io.rolled_back() == old(self).io.rolled_back(),
            final(self).io.rejected() == old(self).io.rejected(),
            (r matches Err(e) ==> (e is Canceled ==> final(self).io.fuel() == 0)),
    {
        let cursor = updates.io_cursor();
        while !self.io.is_canceled()
            invariant
                self.output_handler.sealed() == old(self).output_handler.sealed(),
                self.io.fuel() <= old(self).io.fuel(),
                self.io.chain_id_spec() == old(self).io.chain_id_spec(),
                self.io.rolled_back() == old(self).io.rolled_back(),
                self.io.rejected() == old(self).io.rejected(),
            decreases self.io.fuel(),
        {
            match self.io.wait_for_new_l2_block_params(&cursor) {
                Ok(Some(params)) => return Ok(params),
                Ok(None) => (),
                Err(e) => return Err(
                    Error::Fatal(e).context("error waiting for new L2 block params"),
                ),
            }
        }
        Err(Error::Canceled)
    }

    /// Closes the open block in the accumulator and opens the next one, both
    /// there and on the executor.
    fn start_next_l2_block(
        params: L2BlockParams,
        updates_manager: &mut UpdatesManager,
        batch_executor: &mut E,
    ) -> (r: Result<(), Error>)
        requires
            old(updates_manager).l2_block.number < u64::MAX,
        ensures
            final(updates_manager).batch_number == old(updates_manager).batch_number,
            final(updates_manager).batch_tx_seq() == old(updates_manager).batch_tx_seq(),
            final(updates_manager).l2_block.number == old(updates_manager).l2_block.number + 1,
            final(updates_manager).l2_block.timestamp == params.timestamp,
            final(updates_manager).l2_block.virtual_blocks == params.virtual_blocks,
            final(updates_manager).l2_block.executed_transactions@ == Seq::<Transaction>::empty(),
            final(updates_manager).batch_timestamp == old(updates_manager).batch_timestamp,
            final(updates_manager).protocol_version == old(updates_manager).protocol_version,
            final(updates_manager).pending_execution_metrics == old(
                updates_manager,
            ).pending_execution_metrics,
            final(updates_manager).pending_txs_encoding_size == old(
                updates_manager,
            ).pending_txs_encoding_size,
            final(updates_manager).pending_l1_transactions_len == old(
                updates_manager,
            ).pending_l1_transactions_len,
            final(updates_manager).storage_writes_deduplicator.keys_spec() == old(
                updates_manager,
            ).storage_writes_deduplicator.keys_spec(),
            final(updates_manager).storage_writes_deduplicator.metrics_spec() == old(
                updates_manager,
            ).storage_writes_deduplicator.metrics_spec(),
            final(batch_executor).base() == old(batch_executor).base(),
            r is Ok ==> final(batch_executor).trace() == old(batch_executor).trace().push(
                ExecutorAction::OpenBlock(
                    L2BlockEnv {
                        number: (old(updates_manager).l2_block.number + 1) as u64,
                        timestamp: params.timestamp,
                        virtual_blocks: params.virtual_blocks,
                    },
                ),
            ),
            r is Err ==> final(batch_executor).trace() == old(batch_executor).trace(),
            r matches Err(e) ==> e is Fatal,
    {
        updates_manager.push_l2_block(&params);
        let block_env = L2BlockEnv {
            number: updates_manager.l2_block.number,
            timestamp: updates_manager.l2_block.timestamp,
            virtual_blocks: updates_manager.l2_block.virtual_blocks,
        };
        match batch_executor.start_next_l2_block(block_env) {
            Ok(()) => Ok(()),
            Err(e) => Err(Error::Fatal(e).context("failed starting L2 block in batch executor")),
        }
    }

    /// Hands the open L2 block to the output handler.
    fn seal_l2_block(&mut self, updates_manager: &UpdatesManager) -> (r: Result<(), Error>)
        ensures
            final(self).io == old(self).io,
            r matches Err(e) ==> e is Fatal,
            r is Ok ==> final(self).output_handler.sealed() == old(self).output_handler.sealed().push(
                SealEvent::Block {
                    batch: updates_manager.batch_number,
                    block: updates_manager.l2_block.number,
                },
            ),
            r is Err ==> final(self).output_handler.sealed() == old(self).output_handler.sealed(),
    {
        match self.output_handler.handle_l2_block(updates_manager) {
            Ok(()) => Ok(()),
            Err(e) => Err(Error::Fatal(e).context("handling L2 block failed")),
        }
    }

    /// Replays the stored blocks of a resumed batch: every stored transaction
    /// must execute successfully again; anything else is fatal. Afterwards a
    /// fresh L2 block is opened for the continuation. The trace the executor
    /// ends with is a function of the stored blocks alone, which is what
    /// makes the replay deterministic.
    fn restore_state(
        &mut self,
        batch_executor: &mut E,
        updates_manager: &mut UpdatesManager,
        l2_blocks_to_reexecute: &Vec<L2BlockExecutionData>,
    ) -> (r: Result<(), Error>)
        requires
            old(updates_manager).batch_tx_seq().len() == 0,
            l2_blocks_to_reexecute@.len() > 0 ==> {
                &&& old(updates_manager).l2_block.number == l2_blocks_to_reexecute@[0].number
                &&& l2_blocks_to_reexecute@[0].number + l2_blocks_to_reexecute@.len() < u64::MAX
                &&& forall|i: int|
                    0 <= i < l2_blocks_to_reexecute@.len()
                        ==> #[trigger] l2_blocks_to_reexecute@[i].number
                        == l2_blocks_to_reexecute@[0].number + i
            },
        ensures
            final(self).output_handler.sealed() == old(self).output_handler.sealed(),
            final(self).io.fuel() <= old(self).io.fuel(),
            final(self).io.rolled_back() == old(self).io.rolled_back(),
            final(self).io.rejected() == old(self).io.rejected(),
            final(batch_executor).base() == old(batch_executor).base(),
            final(updates_manager).batch_number == old(updates_manager).batch_number,
            l2_blocks_to_reexecute@.len() == 0 ==> r is Ok && *final(self) == *old(self)
                && *final(batch_executor) == *old(batch_executor),
            r is Ok && l2_blocks_to_reexecute@.len() == 0 ==> um_unchanged(
                *old(updates_manager),
                *final(updates_manager),
            ) && final(batch_executor).trace() == old(batch_executor).trace(),
            (r matches Err(e) ==> (e is Canceled ==> final(self).io.fuel() == 0)),
            r is Ok ==> forall|i: int, j: int|
                0 <= i < l2_blocks_to_reexecute@.len() && 0 <= j
                    < l2_blocks_to_reexecute@[i].txs@.len() ==> #[trigger] E::outcome(
                    old(batch_executor).base(),
                    replay_point_trace(old(batch_executor).trace(), l2_blocks_to_reexecute@, i, j),
                    l2_blocks_to_reexecute@[i].txs@[j],
                ) is Success,
            r is Ok && l2_blocks_to_reexecute@.len() > 0 ==> {
                &&& final(batch_executor).trace().len() > 0
                &&& final(batch_executor).trace().drop_last() == old(batch_executor).trace()
                    + replay_actions(l2_blocks_to_reexecute@)
                &&& final(batch_executor).trace().last() matches ExecutorAction::OpenBlock(env)
                    && env.number == l2_blocks_to_reexecute@.last().number + 1
                &&& final(updates_manager).batch_tx_seq() == pending_tx_seq(
                    l2_blocks_to_reexecute@,
                )
                &&& final(updates_manager).l2_block.number == l2_blocks_to_reexecute@.last().number
                    + 1
                &&& final(updates_manager).l2_block.executed_transactions@.len() == 0
            },
    {
        let n = l2_blocks_to_reexecute.len();
        if n == 0 {
            return Ok(());
        }
        let ghost blocks = l2_blocks_to_reexecute@;
        let ghost base_trace = batch_executor.trace();

        let mut i: usize = 0;
        while i < n
            invariant
                n == blocks.len(),
                0 < n < u64::MAX,
                blocks == l2_blocks_to_reexecute@,
                blocks[0].number + blocks.len() < u64::MAX,
                forall|k: int| 0 <= k < blocks.len() ==> #[trigger] blocks[k].number == blocks[0].number + k,
                i <= n,
                self.output_handler.sealed() == old(self).output_handler.sealed(),
                self.io.fuel() <= old(self).io.fuel(),
                self.io.rolled_back() == old(self).io.rolled_back(),
                self.io.rejected() == old(self).io.rejected(),
                batch_executor.base() == old(batch_executor).base(),
                base_trace == old(batch_executor).trace(),
                batch_executor.trace() == base_trace + replay_actions(blocks.take(i as int)),
                updates_manager.batch_tx_seq() == pending_tx_seq(blocks.take(i as int)),
                forall|a: int, b: int|
                    0 <= a < i && 0 <= b < blocks[a].txs@.len() ==> #[trigger] E::outcome(
                        old(batch_executor).base(),
                        replay_point_trace(base_trace, blocks, a, b),
                        blocks[a].txs@[b],
                    ) is Success,
                updates_manager.batch_number == old(updates_manager).batch_number,
                updates_manager.l2_block.number == if i == 0 {
                    blocks[0].number
                } else {
                    blocks[i - 1].number
                },
                i == 0 ==> updates_manager.l2_block.executed_transactions@.len() == 0,
            decreases n - i,
        {
            if i > 0 {
                let params = L2BlockParams {
                    timestamp: l2_blocks_to_reexecute[i].timestamp,
                    virtual_blocks: l2_blocks_to_reexecute[i].virtual_blocks,
                };
                match Self::start_next_l2_block(params, updates_manager, batch_executor) {
                    Ok(()) => (),
                    Err(e) => return Err(e),
                }
                proof {
                    assert(updates_manager.l2_block.number == blocks[i as int].number);
                }
            }
            let ghost block_base_trace = batch_executor.trace();
            let ghost base_txs = updates_manager.batch_tx_seq();
            proof {
                assert(block_base_trace =~= replay_point_trace(base_trace, blocks, i as int, 0));
            }

            let m = l2_blocks_to_reexecute[i].txs.len();
            let mut j: usize = 0;
            while j < m
                invariant
                    n == blocks.len(),
                    blocks == l2_blocks_to_reexecute@,
                    i < n,
                    m == blocks[i as int].txs@.len(),
                    j <= m,
                    self.output_handler.sealed() == old(self).output_handler.sealed(),
                    self.io.fuel() <= old(self).io.fuel(),
                    self.io.rolled_back() == old(self).io.rolled_back(),
                    self.io.rejected() == old(self).io.rejected(),
                    batch_executor.base() == old(batch_executor).base(),
                    batch_executor.trace() == block_base_trace + tx_actions(
                        blocks[i as int].txs@.take(j as int),
                    ),
                    block_base_trace == replay_point_trace(base_trace, blocks, i as int, 0),
                    updates_manager.batch_tx_seq() == base_txs + blocks[i as int].txs@.take(
                        j as int,
                    ),
                    forall|a: int, b: int|
                        0 <= a < i && 0 <= b < blocks[a].txs@.len() ==> #[trigger] E::outcome(
                            old(batch_executor).base(),
                            replay_point_trace(base_trace, blocks, a, b),
                            blocks[a].txs@[b],
                        ) is Success,
                    forall|b: int|
                        0 <= b < j ==> #[trigger] E::outcome(
                            old(batch_executor).base(),
                            replay_point_trace(base_trace, blocks, i as int, b),
                            blocks[i as int].txs@[b],
                        ) is Success,
                    updates_manager.batch_number == old(updates_manager).batch_number,
                    updates_manager.l2_block.number == blocks[i as int].number,
                decreases m - j,
            {
                let tx = l2_blocks_to_reexecute[i].txs[j];
                let result = match batch_executor.execute_tx(tx) {
                    Ok(v) => v,
                    Err(e) => return Err(
                        Error::Fatal(e).context("failed re-executing transaction"),
                    ),
                };
                match result {
                    TxExecutionResult::Success { is_failed, tx_metrics, gas_remaining, storage_logs } => {
                        let _ = gas_remaining;
                        proof {
                            assert(replay_point_trace(base_trace, blocks, i as int, j as int)
                                =~= block_base_trace + tx_actions(blocks[i as int].txs@.take(j as int)));
                            assert(E::outcome(
                                old(batch_executor).base(),
                                replay_point_trace(base_trace, blocks, i as int, j as int),
                                blocks[i as int].txs@[j as int],
                            ) is Success);
                        }
                        updates_manager.extend_from_executed_transaction(
                            tx,
                            is_failed,
                            &tx_metrics,
                            &storage_logs,
                        );
                    },
                    _ => {
                        return Err(Error::Fatal(FatalError {
                            msg: "re-executing stored tx failed: the transaction was executed successfully before, but failed after a restart",
                        }));
                    },
                }
                proof {
                    assert(blocks[i as int].txs@.take(j + 1).drop_last() =~= blocks[i as int].txs@.take(
                        j as int,
                    ));
                    assert(tx_actions(blocks[i as int].txs@.take(j + 1)) =~= tx_actions(
                        blocks[i as int].txs@.take(j as int),
                    ).push(ExecutorAction::Tx(tx)));
                    assert(base_txs + blocks[i as int].txs@.take(j + 1) =~= (base_txs
                        + blocks[i as int].txs@.take(j as int)).push(tx));
                }
                j += 1;
            }
            proof {
                assert forall|a: int, b: int|
                    0 <= a < i + 1 && 0 <= b < blocks[a].txs@.len() implies #[trigger] E::outcome(
                        old(batch_executor).base(),
                        replay_point_trace(base_trace, blocks, a, b),
                        blocks[a].txs@[b],
                    ) is Success by {
                    if a == i {
                        assert(E::outcome(
                            old(batch_executor).base(),
                            replay_point_trace(base_trace, blocks, i as int, b),
                            blocks[i as int].txs@[b],
                        ) is Success);
                    }
                }
                assert(blocks[i as int].txs@.take(m as int) =~= blocks[i as int].txs@);
                assert(blocks.take(i + 1).drop_last() =~= blocks.take(i as int));
                assert(blocks.take(i + 1).last() == blocks[i as int]);
                if i == 0 {
                    assert(replay_actions(blocks.take(1)) =~= tx_actions(blocks[0].txs@));
                    assert(pending_tx_seq(blocks.take(1)) =~= blocks[0].txs@);
                    assert(batch_executor.trace() =~= base_trace + replay_actions(blocks.take(1)));
                    assert(updates_manager.batch_tx_seq() =~= pending_tx_seq(blocks.take(1)));
                } else {
                    assert(replay_actions(blocks.take(i + 1)) =~= replay_actions(blocks.take(i as int))
                        + seq![ExecutorAction::OpenBlock(block_env_of(blocks[i as int]))] + tx_actions(
                        blocks[i as int].txs@,
                    ));
                    assert(batch_executor.trace() =~= base_trace + replay_actions(blocks.take(i + 1)));
                    assert(pending_tx_seq(blocks.take(i + 1)) =~= pending_tx_seq(blocks.take(i as int))
                        + blocks[i as int].txs@);
                    assert(updates_manager.batch_tx_seq() =~= pending_tx_seq(blocks.take(i + 1)));
                }
            }
            i += 1;
        }
        proof {
            assert(blocks.take(n as int) =~= blocks);
        }

        // The stored blocks are replayed; open the next actual L2 block.
        let new_l2_block_params = match self.wait_for_new_l2_block_params(updates_manager) {
            Ok(v) => v,
            Err(e) => return Err(e.context("wait_for_new_l2_block_params")),
        };
        match Self::start_next_l2_block(new_l2_block_params, updates_manager, batch_executor) {
            Ok(()) => (),
            Err(e) => return Err(e),
        }
        Ok(())
    }

    /// Fills the open batch: consults the unconditional and block-level seal
    /// rules of the I/O, pulls transactions, executes each one, acts on its
    /// verdict, and returns once the batch must be sealed.
    fn process_l1_batch(
        &mut self,
        batch_executor: &mut E,
        updates_manager: &mut UpdatesManager,
        protocol_upgrade_tx: Option<Transaction>,
    ) -> (r: Result<(), Error>)
        requires
            seal_seq_wf(old(self).output_handler.sealed()),
            open_block_follows(
                old(self).output_handler.sealed(),
                old(updates_manager).batch_number,
                old(updates_manager).l2_block.number,
            ),
            batches_below(old(self).output_handler.sealed(), old(updates_manager).batch_number),
            protocol_upgrade_tx is Some ==> old(updates_manager).batch_tx_seq().len() == 0,
        ensures
            seal_seq_wf(final(self).output_handler.sealed()),
            final(self).io.fuel() <= old(self).io.fuel(),
            r is Ok ==> final(self).io.fuel() < old(self).io.fuel(),
            (r matches Err(e) ==> (e is Canceled ==> final(self).io.fuel() == 0)),
            final(updates_manager).batch_number == old(updates_manager).batch_number,
            old(self).io.rolled_back().is_prefix_of(final(self).io.rolled_back()),
            old(self).io.rejected().is_prefix_of(final(self).io.rejected()),
            old(self).output_handler.sealed().is_prefix_of(final(self).output_handler.sealed()),
            forall|i: int|
                old(self).output_handler.sealed().len() <= i < final(self).output_handler.sealed().len() ==> (#[trigger] final(self).output_handler.sealed()[i]) is Block,
            batches_below(final(self).output_handler.sealed(), final(updates_manager).batch_number),
            old(self).output_handler.sealed().len() == 0 && final(self).output_handler.sealed().len() > 0 ==> seal_event_pair(
                final(self).output_handler.sealed()[0],
            ) == (old(updates_manager).batch_number, old(updates_manager).l2_block.number),
            old(self).output_handler.sealed().len() == 0 && final(self).output_handler.sealed().len() == 0 ==> final(updates_manager).l2_block.number == old(
                updates_manager,
            ).l2_block.number,
            r is Ok ==> open_block_follows(
                final(self).output_handler.sealed(),
                final(updates_manager).batch_number,
                final(updates_manager).l2_block.number,
            ),
    {
        if let Some(tx) = protocol_upgrade_tx {
            match self.process_upgrade_tx(batch_executor, updates_manager, tx) {
                Ok(()) => (),
                Err(e) => return Err(e),
            }
        }

        while !self.io.is_canceled()
            invariant
                seal_seq_wf(self.output_handler.sealed()),
                open_block_follows(
                    self.output_handler.sealed(),
                    updates_manager.batch_number,
                    updates_manager.l2_block.number,
                ),
                batches_below(self.output_handler.sealed(), updates_manager.batch_number),
                updates_manager.batch_number == old(updates_manager).batch_number,
                old(self).io.rolled_back().is_prefix_of(self.io.rolled_back()),
                old(self).io.rejected().is_prefix_of(self.io.rejected()),
                old(self).output_handler.sealed().is_prefix_of(self.output_handler.sealed()),
                forall|i: int|
                    old(self).output_handler.sealed().len() <= i
                        < self.output_handler.sealed().len() ==> (#[trigger] self.output_handler.sealed()[i]) is Block,
                old(self).output_handler.sealed().len() == 0 && self.output_handler.sealed().len()
                    > 0 ==> seal_event_pair(self.output_handler.sealed()[0]) == (
                old(updates_manager).batch_number,
                old(updates_manager).l2_block.number,
                ),
                old(self).output_handler.sealed().len() == 0 && self.output_handler.sealed().len()
                    == 0 ==> updates_manager.l2_block.number == old(
                    updates_manager,
                ).l2_block.number,
                self.io.fuel() <= old(self).io.fuel(),
            decreases self.io.fuel(),
        {
            let seal_unconditionally = match self.io.should_seal_l1_batch_unconditionally(
                updates_manager,
            ) {
                Ok(v) => v,
                Err(e) => return Err(Error::Fatal(e)),
            };
            if seal_unconditionally {
                return Ok(());
            }

            if self.io.should_seal_l2_block(updates_manager) {
                let ghost sealed_before = self.output_handler.sealed();
                match self.seal_l2_block(updates_manager) {
                    Ok(()) => (),
                    Err(e) => return Err(e),
                }
                proof {
                    let e = SealEvent::Block {
                        batch: updates_manager.batch_number,
                        block: updates_manager.l2_block.number,
                    };
                    lemma_seal_push(sealed_before, e);
                    lemma_prefix_push(old(self).output_handler.sealed(), sealed_before, e);
                    if sealed_before.len() > 0 {
                        assert(self.output_handler.sealed()[0] == sealed_before[0]);
                    }
                }
                if updates_manager.l2_block.number == u64::MAX {
                    return Err(Error::Fatal(FatalError { msg: "L2 block numbers exhausted" }));
                }
                let new_l2_block_params = match self.wait_for_new_l2_block_params(
                    updates_manager,
                ) {
                    Ok(v) => v,
                    Err(e) => return Err(e.context("wait_for_new_l2_block_params")),
                };
                match Self::start_next_l2_block(
                    new_l2_block_params,
                    updates_manager,
                    batch_executor,
                ) {
                    Ok(()) => (),
                    Err(e) => return Err(e),
                }
            }

            let tx = match self.io.wait_for_next_tx(updates_manager.l2_block.timestamp) {
                Ok(Some(tx)) => tx,
                Ok(None) => {
                    continue ;
                },
                Err(e) => return Err(
                    Error::Fatal(e).context("error waiting for next transaction"),
                ),
            };

            let (seal_resolution, exec_result) = match self.process_one_tx(
                batch_executor,
                updates_manager,
                tx,
            ) {
                Ok(v) => v,
                Err(e) => return Err(e),
            };

            let ghost rolled_pre = self.io.rolled_back();
            let ghost rejected_pre = self.io.rejected();
            let apply_result = self.apply_tx_resolution(
                batch_executor,
                updates_manager,
                tx,
                &seal_resolution,
                exec_result,
            );
            proof {
                match seal_resolution {
                    SealResolution::ExcludeAndSeal => {
                        if apply_result is Ok {
                            lemma_prefix_push(old(self).io.rolled_back(), rolled_pre, tx);
                        }
                    },
                    SealResolution::Unexecutable(reason) => {
                        if apply_result is Ok {
                            lemma_prefix_push(old(self).io.rejected(), rejected_pre, (tx, reason));
                        }
                    },
                    _ => {},
                }
            }
            match apply_result {
                Ok(()) => (),
                Err(e) => return Err(e),
            }

            if seal_resolution.should_seal() {
                return Ok(());
            }
        }
        Err(Error::Canceled)
    }

    /// Acts on a transaction's seal resolution. Under `NoSeal` or
    /// `IncludeAndSeal` the transaction joins the accumulator; under
    /// `ExcludeAndSeal` it is rolled back on the executor and returned to
    /// the mempool; under `Unexecutable` it is rolled back and rejected with
    /// its reason.
    fn apply_tx_resolution(
        &mut self,
        batch_executor: &mut E,
        updates_manager: &mut UpdatesManager,
        tx: Transaction,
        seal_resolution: &SealResolution,
        exec_result: TxExecutionResult,
    ) -> (r: Result<(), Error>)
        requires
            old(batch_executor).trace().len() > 0,
            old(batch_executor).trace().last() == ExecutorAction::Tx(tx),
            (seal_resolution is NoSeal || seal_resolution is IncludeAndSeal)
                ==> exec_result is Success,
        ensures
            final(self).output_handler.sealed() == old(self).output_handler.sealed(),
            final(self).io.chain_id_spec() == old(self).io.chain_id_spec(),
            final(self).io.fuel() <= old(self).io.fuel(),
            final(batch_executor).base() == old(batch_executor).base(),
            final(updates_manager).batch_number == old(updates_manager).batch_number,
            final(updates_manager).l2_block.number == old(updates_manager).l2_block.number,
            r matches Err(e) ==> e is Fatal,
            r is Err ==> final(self).io.rolled_back() == old(self).io.rolled_back()
                && final(self).io.rejected() == old(self).io.rejected(),
            r is Ok ==> match *seal_resolution {
                SealResolution::NoSeal | SealResolution::IncludeAndSeal => {
                    &&& final(updates_manager).batch_tx_seq() == old(
                        updates_manager,
                    ).batch_tx_seq().push(tx)
                    &&& final(batch_executor).trace() == old(batch_executor).trace()
                    &&& final(self).io.rolled_back() == old(self).io.rolled_back()
                    &&& final(self).io.rejected() == old(self).io.rejected()
                },
                SealResolution::ExcludeAndSeal => {
                    &&& um_unchanged(*old(updates_manager), *final(updates_manager))
                    &&& final(batch_executor).trace() == old(batch_executor).trace().drop_last()
                    &&& final(self).io.rolled_back() == old(self).io.rolled_back().push(tx)
                    &&& final(self).io.rejected() == old(self).io.rejected()
                },
                SealResolution::Unexecutable(reason) => {
                    &&& um_unchanged(*old(updates_manager), *final(updates_manager))
                    &&& final(batch_executor).trace() == old(batch_executor).trace().drop_last()
                    &&& final(self).io.rolled_back() == old(self).io.rolled_back()
                    &&& final(self).io.rejected() == old(self).io.rejected().push((tx, reason))
                },
            },
    {
        match seal_resolution {
            SealResolution::NoSeal | SealResolution::IncludeAndSeal => {
                match exec_result {
                    TxExecutionResult::Success {
                        is_failed,
                        tx_metrics,
                        gas_remaining,
                        storage_logs,
                    } => {
                        let _ = gas_remaining;
                        updates_manager.extend_from_executed_transaction(
                            tx,
                            is_failed,
                            &tx_metrics,
                            &storage_logs,
                        );
                        Ok(())
                    },
                    _ => {
                        Err(Error::Fatal(FatalError {
                            msg: "tx inclusion seal resolution must come from a successful execution",
                        }))
                    },
                }
            },
            SealResolution::ExcludeAndSeal => {
                match batch_executor.rollback_last_tx() {
                    Ok(()) => (),
                    Err(e) => return Err(
                        Error::Fatal(e).context("failed rolling back transaction in batch executor"),
                    ),
                }
                match self.io.rollback(tx) {
                    Ok(()) => (),
                    Err(e) => return Err(
                        Error::Fatal(e).context("failed rolling back transaction in I/O"),
                    ),
                }
                Ok(())
            },
            SealResolution::Unexecutable(reason) => {
                match batch_executor.rollback_last_tx() {
                    Ok(()) => (),
                    Err(e) => return Err(
                        Error::Fatal(e).context("failed rolling back transaction in batch executor"),
                    ),
                }
                match self.io.reject(&tx, *reason) {
                    Ok(()) => (),
                    Err(e) => return Err(Error::Fatal(e).context("cannot reject transaction")),
                }
                Ok(())
            },
        }
    }

    /// Runs the protocol upgrade transaction at the head of a fresh batch.
    /// A verdict other than inclusion, or a failed upgrade, is fatal.
    fn process_upgrade_tx(
        &self,
        batch_executor: &mut E,
        updates_manager: &mut UpdatesManager,
        protocol_upgrade_tx: Transaction,
    ) -> (r: Result<(), Error>)
        requires
            old(updates_manager).batch_tx_seq().len() == 0,
        ensures
            final(updates_manager).batch_number == old(updates_manager).batch_number,
            final(updates_manager).l2_block.number == old(updates_manager).l2_block.number,
            final(batch_executor).base() == old(batch_executor).base(),
            r is Ok ==> spec_upgrade_outcome_ok(
                E::outcome(
                    old(batch_executor).base(),
                    old(batch_executor).trace(),
                    protocol_upgrade_tx,
                ),
            ),
            r is Ok ==> final(updates_manager).batch_tx_seq() == old(
                updates_manager,
            ).batch_tx_seq().push(protocol_upgrade_tx),
            ({
                let out = E::outcome(
                    old(batch_executor).base(),
                    old(batch_executor).trace(),
                    protocol_upgrade_tx,
                );
                let res = spec_tx_resolution_outcome(
                    self.sealer.config,
                    *old(updates_manager),
                    protocol_upgrade_tx,
                    out,
                );
                &&& (!(spec_upgrade_outcome_ok(out) && (res is NoSeal || res is IncludeAndSeal))
                    ==> r is Err)
                &&& (r is Ok ==> (res is NoSeal || res is IncludeAndSeal))
            }),
            r is Err ==> um_unchanged(*old(updates_manager), *final(updates_manager)),
            r matches Err(e) ==> e is Fatal,
    {
        let tx = protocol_upgrade_tx;
        let (seal_resolution, exec_result) = match self.process_one_tx(
            batch_executor,
            updates_manager,
            tx,
        ) {
            Ok(v) => v,
            Err(e) => return Err(e),
        };
        proof {
            lemma_tx_resolution_view(self.sealer.config, *old(updates_manager), tx, exec_result);
        }

        match &seal_resolution {
            SealResolution::NoSeal | SealResolution::IncludeAndSeal => {
                match exec_result {
                    TxExecutionResult::Success {
                        is_failed,
                        tx_metrics,
                        gas_remaining,
                        storage_logs,
                    } => {
                        let _ = gas_remaining;
                        if is_failed {
                            // The protocol does not enforce upgrade success,
                            // but a failed upgrade is never intended.
                            return Err(Error::Fatal(FatalError { msg: "failed upgrade tx" }));
                        }
                        updates_manager.extend_from_executed_transaction(
                            tx,
                            is_failed,
                            &tx_metrics,
                            &storage_logs,
                        );
                        Ok(())
                    },
                    _ => {
                        Err(Error::Fatal(FatalError {
                            msg: "tx inclusion seal resolution must come from a successful execution",
                        }))
                    },
                }
            },
            SealResolution::ExcludeAndSeal => {
                Err(Error::Fatal(FatalError {
                    msg: "first tx in batch cannot result into `ExcludeAndSeal`",
                }))
            },
            SealResolution::Unexecutable(_) => {
                Err(Error::Fatal(FatalError { msg: "upgrade transaction is unexecutable" }))
            },
        }
    }

    /// Executes one transaction and classifies the outcome into a seal
    /// verdict. The accumulator is read but left exactly as it was: the
    /// block-level writes are computed by apply-and-rollback, so they are
    /// only folded in when the transaction is actually recorded.
    fn process_one_tx(
        &self,
        batch_executor: &mut E,
        updates_manager: &mut UpdatesManager,
        tx: Transaction,
    ) -> (r: Result<(SealResolution, TxExecutionResult), Error>)
        ensures
            um_unchanged(*old(updates_manager), *final(updates_manager)),
            final(batch_executor).base() == old(batch_executor).base(),
            r matches Ok(v) ==> {
                &&& final(batch_executor).trace() == old(batch_executor).trace().push(
                    ExecutorAction::Tx(tx),
                )
                &&& v.1.view_spec() == E::outcome(
                    old(batch_executor).base(),
                    old(batch_executor).trace(),
                    tx,
                )
                &&& v.0 == spec_tx_resolution(
                    self.sealer.config,
                    *old(updates_manager),
                    tx,
                    v.1,
                )
                &&& (v.0 is NoSeal || v.0 is IncludeAndSeal) ==> v.1 is Success
            },
            r is Err ==> final(batch_executor).trace() == old(batch_executor).trace(),
            r matches Err(e) ==> e is Fatal,
    {
        let exec_result = match batch_executor.execute_tx(tx) {
            Ok(v) => v,
            Err(e) => return Err(Error::Fatal(e).context("failed executing transaction")),
        };

        let is_first_tx = updates_manager.pending_executed_transactions_len() == 0;
        let resolution: SealResolution = match &exec_result {
            TxExecutionResult::BootloaderOutOfGasForTx => {
                if is_first_tx {
                    SealResolution::Unexecutable(UnexecutableReason::BootloaderOutOfGas)
                } else {
                    SealResolution::ExcludeAndSeal
                }
            },
            TxExecutionResult::RejectedByVm { reason } => {
                if *reason == HaltReason::NotEnoughGasProvided {
                    if is_first_tx {
                        SealResolution::Unexecutable(UnexecutableReason::NotEnoughGasProvided)
                    } else {
                        SealResolution::ExcludeAndSeal
                    }
                } else {
                    SealResolution::Unexecutable(UnexecutableReason::Halt(*reason))
                }
            },
            TxExecutionResult::Success { tx_metrics, gas_remaining, storage_logs, .. } => {
                let encoding_len = tx.encoding_len;

                let block_writes_metrics =
                    updates_manager.storage_writes_deduplicator.apply_and_rollback(storage_logs);
                let tx_writes_metrics = StorageWritesDeduplicator::apply_on_empty_state(
                    storage_logs,
                );

                let tx_data = SealData {
                    execution_metrics: *tx_metrics,
                    cumulative_size: encoding_len,
                    writes_metrics: tx_writes_metrics,
                    gas_remaining: *gas_remaining,
                };
                let block_data = SealData {
                    execution_metrics: tx_data.execution_metrics.add(
                        updates_manager.pending_execution_metrics(),
                    ),
                    cumulative_size: crate::seal::sat_add(
                        tx_data.cumulative_size,
                        updates_manager.pending_txs_encoding_size(),
                    ),
                    writes_metrics: block_writes_metrics,
                    gas_remaining: *gas_remaining,
                };
                let is_tx_l1: u64 = if tx.is_l1 {
                    1
                } else {
                    0
                };

                self.sealer.should_seal_l1_batch(
                    updates_manager.batch_number,
                    updates_manager.batch_timestamp() as u128 * 1000,
                    crate::seal::sat_add(updates_manager.pending_executed_transactions_len(), 1),
                    crate::seal::sat_add(updates_manager.pending_l1_transactions_len(), is_tx_l1),
                    &block_data,
                    &tx_data,
                    updates_manager.protocol_version(),
                )
            },
        };
        Ok((resolution, exec_result))
    }
}

} // verus!
