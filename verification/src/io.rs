//! The sequencer's I/O interface (the source of batch parameters and
//! transactions) and the output handler that persists sealed blocks and
//! batches. Both are capability interfaces implemented outside the
//! sequencing logic.

use vstd::prelude::*;

use crate::exec::FatalError;
use crate::seal::UnexecutableReason;
use crate::types::{BaseSystemContractsHashes, ProtocolVersionId};
use crate::updates::{
    IoCursor, L1BatchParams, L2BlockExecutionData, L2BlockParams, PubdataParams, Transaction,
    UpdatesManager,
};

verus! {

/// State of an unsealed batch found on startup, to be replayed.
#[derive(Clone, Debug)]
pub struct PendingBatchData {
    pub l1_batch_env: crate::updates::L1BatchEnv,
    pub system_env: crate::updates::SystemEnv,
    pub pubdata_params: PubdataParams,
    pub pending_l2_blocks: Vec<L2BlockExecutionData>,
}

impl PendingBatchData {
    /// The persisted blocks are consistent with the batch environment: at
    /// least one block, numbered consecutively from the batch's first block,
    /// whose parameters match the environment.
    pub open spec fn wf(self) -> bool {
        &&& self.pending_l2_blocks@.len() > 0
        &&& self.pending_l2_blocks@.len() <= u32::MAX
        &&& self.l1_batch_env.first_l2_block.number + self.pending_l2_blocks@.len() < u64::MAX
        &&& forall|i: int|
            0 <= i < self.pending_l2_blocks@.len() ==> #[trigger] self.pending_l2_blocks@[i].number
                == self.l1_batch_env.first_l2_block.number + i
        &&& self.pending_l2_blocks@[0].timestamp == self.l1_batch_env.first_l2_block.timestamp
        &&& self.pending_l2_blocks@[0].virtual_blocks
            == self.l1_batch_env.first_l2_block.virtual_blocks
    }
}

/// Source of batch and block parameters, the transaction stream, and the
/// sinks for rolled-back and rejected transactions.
pub trait StateKeeperIO: Sized {
    /// The chain this sequencer serves; fixed for the lifetime of the I/O.
    spec fn chain_id_spec(&self) -> u64;

    /// The budget of I/O interactions left before the stop signal is
    /// observed. Every run of the sequencer is watched for finitely many
    /// polls; the budget only shrinks, and cancellation is its exhaustion.
    spec fn fuel(&self) -> nat;

    /// Transactions returned to the mempool so far, in order.
    spec fn rolled_back(&self) -> Seq<Transaction>;

    /// Transactions rejected permanently so far, with their reasons, in
    /// order.
    spec fn rejected(&self) -> Seq<(Transaction, UnexecutableReason)>;

    /// The cursor this run starts from: what `initialize` hands out.
    spec fn initial_cursor(&self) -> IoCursor;

    /// Whether the process-wide stop signal has been observed: the
    /// interaction budget is exhausted. It never flips back during one run.
    fn is_canceled(&self) -> (r: bool)
        ensures
            r == (self.fuel() == 0),
    ;

    fn chain_id(&self) -> (r: u64)
        ensures
            r == self.chain_id_spec(),
    ;

    /// Called at most once per run. Returns the cursor and, when an unsealed
    /// batch was found, its parameters and blocks for replay.
    fn initialize(&mut self) -> (r: Result<(IoCursor, Option<PendingBatchData>), FatalError>)
        ensures
            final(self).chain_id_spec() == old(self).chain_id_spec(),
            final(self).rolled_back() == old(self).rolled_back(),
            final(self).rejected() == old(self).rejected(),
            final(self).fuel() <= old(self).fuel(),
            r is Ok ==> r->Ok_0.0 == old(self).initial_cursor(),
            r is Ok ==> r->Ok_0.0.l1_batch >= 1,
            r is Ok && r->Ok_0.1 is Some ==> {
                let cursor = r->Ok_0.0;
                let pending = r->Ok_0.1->Some_0;
                &&& pending.wf()
                &&& pending.l1_batch_env.number == cursor.l1_batch
                &&& cursor.next_l2_block == pending.l1_batch_env.first_l2_block.number
                    + pending.pending_l2_blocks@.len()
            },
            r is Ok && r->Ok_0.1 is None ==> r->Ok_0.0.next_l2_block >= 1,
    ;

    /// Waits for the parameters of the next batch; `None` on timeout. Each
    /// poll consumes interaction budget.
    fn wait_for_new_batch_params(&mut self, cursor: &IoCursor) -> (r: Result<
        Option<L1BatchParams>,
        FatalError,
    >)
        ensures
            final(self).chain_id_spec() == old(self).chain_id_spec(),
            final(self).rolled_back() == old(self).rolled_back(),
            final(self).rejected() == old(self).rejected(),
            final(self).fuel() <= old(self).fuel(),
            old(self).fuel() > 0 ==> final(self).fuel() < old(self).fuel(),
    ;

    /// Waits for the parameters of the next L2 block; `None` on timeout.
    /// Each poll consumes interaction budget.
    fn wait_for_new_l2_block_params(&mut self, cursor: &IoCursor) -> (r: Result<
        Option<L2BlockParams>,
        FatalError,
    >)
        ensures
            final(self).chain_id_spec() == old(self).chain_id_spec(),
            final(self).rolled_back() == old(self).rolled_back(),
            final(self).rejected() == old(self).rejected(),
            final(self).fuel() <= old(self).fuel(),
            old(self).fuel() > 0 ==> final(self).fuel() < old(self).fuel(),
    ;

    /// Waits for the next transaction admissible at the given block
    /// timestamp; `None` on timeout. Each poll consumes interaction budget.
    fn wait_for_next_tx(&mut self, l2_block_timestamp: u64) -> (r: Result<
        Option<Transaction>,
        FatalError,
    >)
        ensures
            final(self).chain_id_spec() == old(self).chain_id_spec(),
            final(self).rolled_back() == old(self).rolled_back(),
            final(self).rejected() == old(self).rejected(),
            final(self).fuel() <= old(self).fuel(),
            old(self).fuel() > 0 ==> final(self).fuel() < old(self).fuel(),
    ;

    /// Returns a transaction to the mempool after it was excluded; the
    /// rollback is recorded.
    fn rollback(&mut self, tx: Transaction) -> (r: Result<(), FatalError>)
        ensures
            final(self).chain_id_spec() == old(self).chain_id_spec(),
            r is Ok ==> final(self).rolled_back() == old(self).rolled_back().push(tx),
            r is Err ==> final(self).rolled_back() == old(self).rolled_back(),
            final(self).rejected() == old(self).rejected(),
            final(self).fuel() <= old(self).fuel(),
    ;

    /// Rejects a transaction permanently; the rejection and its reason are
    /// recorded.
    fn reject(&mut self, tx: &Transaction, reason: UnexecutableReason) -> (r: Result<
        (),
        FatalError,
    >)
        ensures
            final(self).chain_id_spec() == old(self).chain_id_spec(),
            final(self).rolled_back() == old(self).rolled_back(),
            r is Ok ==> final(self).rejected() == old(self).rejected().push((*tx, reason)),
            r is Err ==> final(self).rejected() == old(self).rejected(),
            final(self).fuel() <= old(self).fuel(),
    ;

    /// The protocol version the given batch was sealed under.
    fn load_batch_version_id(&mut self, number: u64) -> (r: Result<ProtocolVersionId, FatalError>)
        ensures
            final(self).chain_id_spec() == old(self).chain_id_spec(),
            final(self).rolled_back() == old(self).rolled_back(),
            final(self).rejected() == old(self).rejected(),
            final(self).fuel() <= old(self).fuel(),
    ;

    /// The upgrade transaction attached to the given version, if any.
    fn load_upgrade_tx(&mut self, version: ProtocolVersionId) -> (r: Result<
        Option<Transaction>,
        FatalError,
    >)
        ensures
            final(self).chain_id_spec() == old(self).chain_id_spec(),
            final(self).rolled_back() == old(self).rolled_back(),
            final(self).rejected() == old(self).rejected(),
            final(self).fuel() <= old(self).fuel(),
            r is Ok && r->Ok_0 is Some ==> r->Ok_0->Some_0.is_protocol_upgrade,
    ;

    /// The base-system-contract hashes for the given version.
    fn load_base_system_contracts(&mut self, version: ProtocolVersionId, cursor: &IoCursor) -> (r:
        Result<BaseSystemContractsHashes, FatalError>)
        ensures
            final(self).chain_id_spec() == old(self).chain_id_spec(),
            final(self).rolled_back() == old(self).rolled_back(),
            final(self).rejected() == old(self).rejected(),
            final(self).fuel() <= old(self).fuel(),
    ;

    /// The state hash of the given sealed batch. Cancel-safe.
    fn load_batch_state_hash(&mut self, number: u64) -> (r: Result<u64, FatalError>)
        ensures
            final(self).chain_id_spec() == old(self).chain_id_spec(),
            final(self).rolled_back() == old(self).rolled_back(),
            final(self).rejected() == old(self).rejected(),
            final(self).fuel() <= old(self).fuel(),
    ;

    /// Whether the I/O wants the open batch sealed now (time-based rules).
    /// Consulting it consumes interaction budget.
    fn should_seal_l1_batch_unconditionally(&mut self, updates: &UpdatesManager) -> (r: Result<
        bool,
        FatalError,
    >)
        ensures
            final(self).chain_id_spec() == old(self).chain_id_spec(),
            final(self).rolled_back() == old(self).rolled_back(),
            final(self).rejected() == old(self).rejected(),
            final(self).fuel() <= old(self).fuel(),
            old(self).fuel() > 0 ==> final(self).fuel() < old(self).fuel(),
    ;

    /// Whether the I/O wants the open L2 block sealed now.
    fn should_seal_l2_block(&mut self, updates: &UpdatesManager) -> (r: bool)
        ensures
            final(self).chain_id_spec() == old(self).chain_id_spec(),
            final(self).rolled_back() == old(self).rolled_back(),
            final(self).rejected() == old(self).rejected(),
            final(self).fuel() <= old(self).fuel(),
    ;
}

/// One entry of the seal record: an L2 block handed to the block handler, or
/// a finished batch handed to the batch handler, sealing its last open block
/// with it.
#[derive(Clone, Copy, Debug, PartialEq, Eq, Structural)]
pub enum SealEvent {
    Block { batch: u64, block: u64 },
    Batch { batch: u64, block: u64 },
}

/// The `(l1_batch, l2_block)` pair of a seal event.
pub open spec fn seal_event_pair(e: SealEvent) -> (u64, u64) {
    match e {
        SealEvent::Block { batch, block } => (batch, block),
        SealEvent::Batch { batch, block } => (batch, block),
    }
}

/// Persists sealed L2 blocks and batches, in order. The ghost `sealed`
/// record keeps, for everything handed down, which handler received it and
/// its `(l1_batch, l2_block)` pair; the sequencing-monotonicity and
/// handler-ordering laws speak about this record.
pub trait OutputHandler: Sized {
    /// The seal events so far, in seal order.
    spec fn sealed(&self) -> Seq<SealEvent>;

    fn initialize(&mut self, cursor: &IoCursor) -> (r: Result<(), FatalError>)
        ensures
            final(self).sealed() == old(self).sealed(),
    ;

    /// Persists the open L2 block of the batch being built.
    fn handle_l2_block(&mut self, updates: &UpdatesManager) -> (r: Result<(), FatalError>)
        ensures
            r is Ok ==> final(self).sealed() == old(self).sealed().push(
                SealEvent::Block { batch: updates.batch_number, block: updates.l2_block.number },
            ),
            r is Err ==> final(self).sealed() == old(self).sealed(),
    ;

    /// Persists the finished batch, sealing its last open block with it.
    fn handle_l1_batch(&mut self, updates: UpdatesManager) -> (r: Result<(), FatalError>)
        ensures
            r is Ok ==> final(self).sealed() == old(self).sealed().push(
                SealEvent::Batch { batch: updates.batch_number, block: updates.l2_block.number },
            ),
            r is Err ==> final(self).sealed() == old(self).sealed(),
    ;
}

} // verus!
