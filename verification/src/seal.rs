//! Seal resolutions and the multi-criterion conditional sealer.
//!
//! A `SealResolution` says what the sequencer must do with the batch after a
//! transaction has been executed. Resolutions form a join-semilattice under
//! `join`, ordered `Unexecutable > ExcludeAndSeal > IncludeAndSeal > NoSeal`;
//! criteria are combined by taking the join of their verdicts.

use vstd::prelude::*;

verus! {

/// Why the VM halted a transaction.
#[derive(Clone, Copy, Debug, PartialEq, Eq, Structural)]
pub enum HaltReason {
    NotEnoughGasProvided,
    ValidationFailed,
    FailedToChargeFee,
    UnexpectedVmBehavior,
    TracerCustom,
}

/// Why a transaction cannot be executed in any batch.
#[derive(Clone, Copy, Debug, PartialEq, Eq, Structural)]
pub enum UnexecutableReason {
    BootloaderOutOfGas,
    NotEnoughGasProvided,
    Halt(HaltReason),
    TooMuchGas,
    TooMuchPubdata,
    TxEncodingTooLarge,
    TooManyStorageWrites,
}

/// The sealer's verdict after one transaction.
#[derive(Clone, Copy, Debug, PartialEq, Eq, Structural)]
pub enum SealResolution {
    /// Include the transaction and keep the batch open.
    NoSeal,
    /// Include the transaction and seal the batch right after.
    IncludeAndSeal,
    /// Roll the transaction back, seal the batch without it, and return the
    /// transaction to the mempool.
    ExcludeAndSeal,
    /// Roll the transaction back and reject it permanently.
    Unexecutable(UnexecutableReason),
}

/// Severity rank of a resolution; `join` keeps the higher rank.
pub open spec fn spec_rank(r: SealResolution) -> int {
    match r {
        SealResolution::NoSeal => 0,
        SealResolution::IncludeAndSeal => 1,
        SealResolution::ExcludeAndSeal => 2,
        SealResolution::Unexecutable(_) => 3,
    }
}

/// The join of two resolutions: the one of higher rank, the left one on ties.
pub open spec fn spec_join(a: SealResolution, b: SealResolution) -> SealResolution {
    if spec_rank(b) > spec_rank(a) {
        b
    } else {
        a
    }
}

impl SealResolution {
    fn rank(&self) -> (r: u8)
        ensures
            r as int == spec_rank(*self),
    {
        match self {
            SealResolution::NoSeal => 0,
            SealResolution::IncludeAndSeal => 1,
            SealResolution::ExcludeAndSeal => 2,
            SealResolution::Unexecutable(_) => 3,
        }
    }

    /// Combines this verdict with another criterion's verdict.
    pub fn join(self, other: SealResolution) -> (r: SealResolution)
        ensures
            r == spec_join(self, other),
    {
        if other.rank() > self.rank() {
            other
        } else {
            self
        }
    }

    pub open spec fn should_seal_spec(self) -> bool {
        self is IncludeAndSeal || self is ExcludeAndSeal
    }

    /// Whether this resolution closes the current batch.
    pub fn should_seal(&self) -> (r: bool)
        ensures
            r == self.should_seal_spec(),
    {
        matches!(self, SealResolution::IncludeAndSeal | SealResolution::ExcludeAndSeal)
    }
}

/// Law: `join` is commutative. Two `Unexecutable` verdicts with different
/// reasons join to the left reason, so those pairs are left out.
pub proof fn lemma_join_commutative(a: SealResolution, b: SealResolution)
    requires
        a == b || spec_rank(a) != spec_rank(b),
    ensures
        spec_join(a, b) == spec_join(b, a),
{
}

/// Law: `join` is associative.
pub proof fn lemma_join_associative(a: SealResolution, b: SealResolution, c: SealResolution)
    ensures
        spec_join(spec_join(a, b), c) == spec_join(a, spec_join(b, c)),
{
}

/// Law: `NoSeal` is the identity of `join`.
pub proof fn lemma_join_identity(a: SealResolution)
    ensures
        spec_join(a, SealResolution::NoSeal) == a,
        spec_join(SealResolution::NoSeal, a) == a,
{
}

/// Post-deduplication counts of storage writes.
#[derive(Clone, Copy, Debug, PartialEq, Eq, Structural)]
pub struct DeduplicatedWritesMetrics {
    pub initial_storage_writes: u64,
    pub repeated_storage_writes: u64,
}

impl DeduplicatedWritesMetrics {
    pub fn new() -> (r: DeduplicatedWritesMetrics)
        ensures
            r.initial_storage_writes == 0,
            r.repeated_storage_writes == 0,
    {
        DeduplicatedWritesMetrics { initial_storage_writes: 0, repeated_storage_writes: 0 }
    }

    pub open spec fn total_spec(self) -> int {
        self.initial_storage_writes + self.repeated_storage_writes
    }
}

/// Cumulative VM effects of one or more executed transactions.
#[derive(Clone, Copy, Debug, PartialEq, Eq, Structural)]
pub struct ExecutionMetrics {
    pub computational_gas_used: u64,
    pub pubdata_published: u64,
    pub l2_to_l1_logs: u64,
}

impl ExecutionMetrics {
    pub fn new() -> (r: ExecutionMetrics)
        ensures
            r == (ExecutionMetrics {
                computational_gas_used: 0,
                pubdata_published: 0,
                l2_to_l1_logs: 0,
            }),
    {
        ExecutionMetrics { computational_gas_used: 0, pubdata_published: 0, l2_to_l1_logs: 0 }
    }

    /// Saturating component-wise sum, so tallies never wrap.
    pub fn add(self, other: ExecutionMetrics) -> (r: ExecutionMetrics)
        ensures
            r.computational_gas_used == spec_sat_add(
                self.computational_gas_used,
                other.computational_gas_used,
            ),
            r.pubdata_published == spec_sat_add(self.pubdata_published, other.pubdata_published),
            r.l2_to_l1_logs == spec_sat_add(self.l2_to_l1_logs, other.l2_to_l1_logs),
    {
        ExecutionMetrics {
            computational_gas_used: sat_add(self.computational_gas_used, other.computational_gas_used),
            pubdata_published: sat_add(self.pubdata_published, other.pubdata_published),
            l2_to_l1_logs: sat_add(self.l2_to_l1_logs, other.l2_to_l1_logs),
        }
    }
}

pub open spec fn spec_sat_add(a: u64, b: u64) -> u64 {
    if a + b > u64::MAX {
        u64::MAX
    } else {
        (a + b) as u64
    }
}

pub fn sat_add(a: u64, b: u64) -> (r: u64)
    ensures
        r == spec_sat_add(a, b),
{
    if a <= u64::MAX - b {
        a + b
    } else {
        u64::MAX
    }
}

pub open spec fn spec_sat_mul(a: u64, b: u64) -> u64 {
    if a * b > u64::MAX {
        u64::MAX
    } else {
        (a * b) as u64
    }
}

pub fn sat_mul(a: u64, b: u64) -> (r: u64)
    ensures
        r == spec_sat_mul(a, b),
{
    if b == 0 {
        return 0;
    }
    let q = u64::MAX / b;
    if a <= q {
        proof {
            vstd::arithmetic::mul::lemma_mul_inequality(a as int, q as int, b as int);
            vstd::arithmetic::div_mod::lemma_fundamental_div_mod(u64::MAX as int, b as int);
        }
        a * b
    } else {
        proof {
            vstd::arithmetic::mul::lemma_mul_inequality(q + 1, a as int, b as int);
            vstd::arithmetic::div_mod::lemma_fundamental_div_mod(u64::MAX as int, b as int);
            assert((q + 1) * (b as int) == q * (b as int) + b) by (nonlinear_arith);
        }
        u64::MAX
    }
}

/// What one transaction, or the whole open block, weighs for the sealer.
#[derive(Clone, Copy, Debug, PartialEq, Eq, Structural)]
pub struct SealData {
    pub execution_metrics: ExecutionMetrics,
    pub cumulative_size: u64,
    pub writes_metrics: DeduplicatedWritesMetrics,
    pub gas_remaining: u64,
}

/// One bounded resource with its hard limit and the fill level at which the
/// batch is closed early. Invariant: `close_bound <= limit`.
#[derive(Clone, Copy, Debug, PartialEq, Eq, Structural)]
pub struct ResourceBound {
    pub limit: u64,
    pub close_bound: u64,
}

impl ResourceBound {
    pub open spec fn wf(self) -> bool {
        self.close_bound <= self.limit
    }
}

/// Limits the conditional sealer enforces per batch.
#[derive(Clone, Copy, Debug, PartialEq, Eq, Structural)]
pub struct SealCriteriaConfig {
    pub gas: ResourceBound,
    pub pubdata: ResourceBound,
    pub tx_encoding_size: ResourceBound,
    pub storage_writes: ResourceBound,
    /// Transaction slots of the bootloader; the batch closes when full.
    pub transaction_slots: u64,
}

impl SealCriteriaConfig {
    pub open spec fn wf(self) -> bool {
        &&& self.gas.wf()
        &&& self.pubdata.wf()
        &&& self.tx_encoding_size.wf()
        &&& self.storage_writes.wf()
        &&& self.transaction_slots >= 1
    }
}

/// The verdict of one resource criterion: a transaction that alone exceeds
/// the limit is unexecutable; a block over the limit sheds the transaction;
/// a block at or above the close bound is sealed with it; otherwise nothing.
pub open spec fn spec_resource_criterion(
    tx_value: u64,
    block_value: u64,
    bound: ResourceBound,
    reason: UnexecutableReason,
) -> SealResolution {
    if tx_value > bound.limit {
        SealResolution::Unexecutable(reason)
    } else if block_value > bound.limit {
        SealResolution::ExcludeAndSeal
    } else if block_value >= bound.close_bound {
        SealResolution::IncludeAndSeal
    } else {
        SealResolution::NoSeal
    }
}

fn resource_criterion(
    tx_value: u64,
    block_value: u64,
    bound: &ResourceBound,
    reason: UnexecutableReason,
) -> (r: SealResolution)
    ensures
        r == spec_resource_criterion(tx_value, block_value, *bound, reason),
{
    if tx_value > bound.limit {
        SealResolution::Unexecutable(reason)
    } else if block_value > bound.limit {
        SealResolution::ExcludeAndSeal
    } else if block_value >= bound.close_bound {
        SealResolution::IncludeAndSeal
    } else {
        SealResolution::NoSeal
    }
}

/// The slots criterion: the batch is sealed once every bootloader slot holds
/// a transaction.
pub open spec fn spec_slots_criterion(tx_count: u64, transaction_slots: u64) -> SealResolution {
    if tx_count >= transaction_slots {
        SealResolution::IncludeAndSeal
    } else {
        SealResolution::NoSeal
    }
}

/// The combined verdict over all criteria, joined in a fixed order.
pub open spec fn spec_should_seal_l1_batch(
    config: SealCriteriaConfig,
    tx_count: u64,
    block_data: SealData,
    tx_data: SealData,
) -> SealResolution {
    spec_join(
        spec_join(
            spec_join(
                spec_join(
                    spec_slots_criterion(tx_count, config.transaction_slots),
                    spec_resource_criterion(
                        tx_data.execution_metrics.computational_gas_used,
                        block_data.execution_metrics.computational_gas_used,
                        config.gas,
                        UnexecutableReason::TooMuchGas,
                    ),
                ),
                spec_resource_criterion(
                    tx_data.execution_metrics.pubdata_published,
                    block_data.execution_metrics.pubdata_published,
                    config.pubdata,
                    UnexecutableReason::TooMuchPubdata,
                ),
            ),
            spec_resource_criterion(
                tx_data.cumulative_size,
                block_data.cumulative_size,
                config.tx_encoding_size,
                UnexecutableReason::TxEncodingTooLarge,
            ),
        ),
        spec_resource_criterion(
            spec_sat_add(
                tx_data.writes_metrics.initial_storage_writes,
                tx_data.writes_metrics.repeated_storage_writes,
            ),
            spec_sat_add(
                block_data.writes_metrics.initial_storage_writes,
                block_data.writes_metrics.repeated_storage_writes,
            ),
            config.storage_writes,
            UnexecutableReason::TooManyStorageWrites,
        ),
    )
}

/// The conditional sealer: a deterministic function of the aggregated
/// counters, combining every criterion's verdict by `join`.
#[derive(Clone, Copy, Debug)]
pub struct SequencerSealer {
    pub config: SealCriteriaConfig,
}

impl SequencerSealer {
    pub fn new(config: SealCriteriaConfig) -> (r: SequencerSealer)
        ensures
            r.config == config,
    {
        SequencerSealer { config }
    }

    /// Decides whether the batch must be sealed after a transaction whose
    /// weight is `tx_data`, with block tallies `block_data` already including
    /// that transaction. The batch number, its timestamp in milliseconds, the
    /// L1-transaction count and the protocol version are available to
    /// criteria, though none of the present ones reads them.
    pub fn should_seal_l1_batch(
        &self,
        l1_batch_number: u64,
        block_timestamp_ms: u128,
        tx_count: u64,
        l1_tx_count: u64,
        block_data: &SealData,
        tx_data: &SealData,
        protocol_version: crate::types::ProtocolVersionId,
    ) -> (r: SealResolution)
        ensures
            r == spec_should_seal_l1_batch(self.config, tx_count, *block_data, *tx_data),
    {
        let _ = l1_batch_number;
        let _ = block_timestamp_ms;
        let _ = l1_tx_count;
        let _ = protocol_version;
        let slots = if tx_count >= self.config.transaction_slots {
            SealResolution::IncludeAndSeal
        } else {
            SealResolution::NoSeal
        };
        let gas = resource_criterion(
            tx_data.execution_metrics.computational_gas_used,
            block_data.execution_metrics.computational_gas_used,
            &self.config.gas,
            UnexecutableReason::TooMuchGas,
        );
        let pubdata = resource_criterion(
            tx_data.execution_metrics.pubdata_published,
            block_data.execution_metrics.pubdata_published,
            &self.config.pubdata,
            UnexecutableReason::TooMuchPubdata,
        );
        let size = resource_criterion(
            tx_data.cumulative_size,
            block_data.cumulative_size,
            &self.config.tx_encoding_size,
            UnexecutableReason::TxEncodingTooLarge,
        );
        let writes = resource_criterion(
            sat_add(
                tx_data.writes_metrics.initial_storage_writes,
                tx_data.writes_metrics.repeated_storage_writes,
            ),
            sat_add(
                block_data.writes_metrics.initial_storage_writes,
                block_data.writes_metrics.repeated_storage_writes,
            ),
            &self.config.storage_writes,
            UnexecutableReason::TooManyStorageWrites,
        );
        slots.join(gas).join(pubdata).join(size).join(writes)
    }
}

} // verus!
