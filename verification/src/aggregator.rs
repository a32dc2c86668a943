//! Grouping of sealed batches into on-chain operations.
//!
//! The aggregator prefers Execute over Prove over Commit, skips whatever the
//! current restrictions forbid, and validates that each candidate range the
//! storage assembled is contiguous and within its batch-count limit.

use vstd::prelude::*;

use crate::batch::{L1BatchWithMetadata, StoredBatchInfo};
use crate::encoder::{AggregatedOperation, ExecuteBatches, ProveBatches};
use crate::types::{H256, L1BatchCommitmentMode, ProtocolVersionId, PubdataSendingMode};

verus! {

/// When a restriction is `Some`, operations of that action type must not be
/// produced; the payload is the reason to log.
#[derive(Clone, Copy, Debug)]
pub struct OperationSkippingRestrictions {
    pub commit_restriction: Option<&'static str>,
    pub prove_restriction: Option<&'static str>,
    pub execute_restriction: Option<&'static str>,
}

/// The verification-key hashes the settlement layer currently accepts.
#[derive(Clone, Copy, Debug)]
pub struct L1VerifierConfig {
    pub snark_wrapper_vk_hash: H256,
    pub fflonk_snark_wrapper_vk_hash: Option<H256>,
}

/// Batch-count limits per operation kind.
#[derive(Clone, Copy, Debug, PartialEq, Eq, Structural)]
pub struct AggregatorConfig {
    pub max_aggregated_blocks_to_commit: u64,
    pub max_aggregated_blocks_to_prove: u64,
    pub max_aggregated_blocks_to_execute: u64,
}

/// What the storage offers the aggregator this iteration: candidate ranges
/// assembled by the persistence layer, each to be validated here.
pub struct AggregatorStorageView {
    /// The batch the settlement layer saw committed last.
    pub last_committed_l1_batch: StoredBatchInfo,
    /// Sealed batches with metadata, ready to commit, in order.
    pub ready_to_commit: Vec<L1BatchWithMetadata>,
    /// A proof publication the storage assembled, if any.
    pub prove_candidate: Option<ProveBatches>,
    /// The hash of the verification key the proof candidate was made for.
    pub prove_vk_hash: H256,
    /// An execute operation the storage assembled, if any.
    pub execute_candidate: Option<ExecuteBatches>,
}

/// Batch numbers run consecutively from the first entry.
pub open spec fn spec_contiguous(bs: Seq<L1BatchWithMetadata>) -> bool {
    forall|i: int| 0 <= i < bs.len() ==> (#[trigger] bs[i]).number == bs[0].number + i
}

pub open spec fn spec_execute_ready(config: AggregatorConfig, storage: AggregatorStorageView) -> bool {
    match storage.execute_candidate {
        Some(op) => {
            &&& op.l1_batches@.len() > 0
            &&& op.l1_batches@.len() <= config.max_aggregated_blocks_to_execute
            &&& spec_contiguous(op.l1_batches@)
        },
        None => false,
    }
}

pub open spec fn spec_vk_compatible(vk_hash: H256, config: L1VerifierConfig) -> bool {
    vk_hash.spec_eq(config.snark_wrapper_vk_hash) || (config.fflonk_snark_wrapper_vk_hash matches
    Some(h) && vk_hash.spec_eq(h))
}

pub open spec fn spec_prove_ready(
    config: AggregatorConfig,
    storage: AggregatorStorageView,
    l1_verifier_config: L1VerifierConfig,
) -> bool {
    match storage.prove_candidate {
        Some(op) => {
            &&& op.l1_batches@.len() > 0
            &&& op.l1_batches@.len() <= config.max_aggregated_blocks_to_prove
            &&& spec_contiguous(op.l1_batches@)
            &&& spec_vk_compatible(storage.prove_vk_hash, l1_verifier_config)
        },
        None => false,
    }
}

pub open spec fn spec_commit_ready(config: AggregatorConfig, storage: AggregatorStorageView) -> bool {
    &&& storage.ready_to_commit@.len() > 0
    &&& storage.ready_to_commit@.len() <= config.max_aggregated_blocks_to_commit
    &&& spec_contiguous(storage.ready_to_commit@)
    &&& storage.ready_to_commit@[0].number == storage.last_committed_l1_batch.batch_number + 1
}

/// Groups sealed batches into Commit, Prove and Execute operations.
pub struct Aggregator {
    pub config: AggregatorConfig,
    pub mode: L1BatchCommitmentMode,
    pub pubdata_da: PubdataSendingMode,
}

/// The operation the aggregator picks under the given restriction flags:
/// the readiest allowed one, preferring Execute over Prove over Commit.
pub open spec fn spec_next_ready_operation_flags(
    agg: Aggregator,
    storage: AggregatorStorageView,
    l1_verifier_config: L1VerifierConfig,
    commit_restricted: bool,
    prove_restricted: bool,
    execute_restricted: bool,
) -> Option<AggregatedOperation> {
    if !execute_restricted && spec_execute_ready(agg.config, storage) {
        Some(AggregatedOperation::Execute(storage.execute_candidate->Some_0))
    } else if !prove_restricted && spec_prove_ready(agg.config, storage, l1_verifier_config) {
        Some(AggregatedOperation::PublishProofOnchain(storage.prove_candidate->Some_0))
    } else if !commit_restricted && spec_commit_ready(agg.config, storage) {
        Some(
            AggregatedOperation::Commit(
                storage.last_committed_l1_batch,
                storage.ready_to_commit,
                agg.pubdata_da,
            ),
        )
    } else {
        None
    }
}

/// The same choice, read off a restriction record.
pub open spec fn spec_next_ready_operation(
    agg: Aggregator,
    storage: AggregatorStorageView,
    l1_verifier_config: L1VerifierConfig,
    restrictions: OperationSkippingRestrictions,
) -> Option<AggregatedOperation> {
    spec_next_ready_operation_flags(
        agg,
        storage,
        l1_verifier_config,
        restrictions.commit_restriction is Some,
        restrictions.prove_restriction is Some,
        restrictions.execute_restriction is Some,
    )
}

impl Aggregator {
    pub fn new(
        config: AggregatorConfig,
        mode: L1BatchCommitmentMode,
        pubdata_da: PubdataSendingMode,
    ) -> (r: Aggregator)
        ensures
            r.config == config,
            r.mode == mode,
            r.pubdata_da == pubdata_da,
    {
        Aggregator { config, mode, pubdata_da }
    }

    pub fn mode(&self) -> (r: L1BatchCommitmentMode)
        ensures
            r == self.mode,
    {
        self.mode
    }

    pub fn pubdata_da(&self) -> (r: PubdataSendingMode)
        ensures
            r == self.pubdata_da,
    {
        self.pubdata_da
    }

    /// Returns at most one ready operation under the current restrictions.
    /// A restricted action type is never produced; among the allowed ready
    /// ones, Execute wins over Prove, and Prove over Commit.
    pub fn get_next_ready_operation(
        &self,
        storage: AggregatorStorageView,
        base_system_contracts_hashes: crate::types::BaseSystemContractsHashes,
        chain_protocol_version_id: ProtocolVersionId,
        l1_verifier_config: L1VerifierConfig,
        restrictions: OperationSkippingRestrictions,
    ) -> (r: Option<AggregatedOperation>)
        ensures
            r == spec_next_ready_operation(*self, storage, l1_verifier_config, restrictions),
            restrictions.execute_restriction is Some ==> !(r matches Some(op) && op is Execute),
            restrictions.prove_restriction is Some ==> !(r matches Some(op)
                && op is PublishProofOnchain),
            restrictions.commit_restriction is Some ==> !(r matches Some(op) && op is Commit),
            r matches Some(op) ==> op.wf(),
    {
        // The candidates were assembled for the current contract hashes and
        // chain protocol version by the storage queries.
        let _ = base_system_contracts_hashes;
        let _ = chain_protocol_version_id;

        let AggregatorStorageView {
            last_committed_l1_batch,
            ready_to_commit,
            prove_candidate,
            prove_vk_hash,
            execute_candidate,
        } = storage;

        if restrictions.execute_restriction.is_none() && {
            match &execute_candidate {
                Some(op) => op.l1_batches.len() > 0 && op.l1_batches.len() as u64
                    <= self.config.max_aggregated_blocks_to_execute && Self::is_contiguous(
                    &op.l1_batches,
                ),
                None => false,
            }
        } {
            return match execute_candidate {
                Some(op) => Some(AggregatedOperation::Execute(op)),
                None => None,
            };
        }

        let vk_ok = {
            let snark_ok = prove_vk_hash.eq_bytes(&l1_verifier_config.snark_wrapper_vk_hash);
            let fflonk_ok = match &l1_verifier_config.fflonk_snark_wrapper_vk_hash {
                Some(h) => prove_vk_hash.eq_bytes(h),
                None => false,
            };
            snark_ok || fflonk_ok
        };
        if restrictions.prove_restriction.is_none() && vk_ok && {
            match &prove_candidate {
                Some(op) => op.l1_batches.len() > 0 && op.l1_batches.len() as u64
                    <= self.config.max_aggregated_blocks_to_prove && Self::is_contiguous(
                    &op.l1_batches,
                ),
                None => false,
            }
        } {
            return match prove_candidate {
                Some(op) => Some(AggregatedOperation::PublishProofOnchain(op)),
                None => None,
            };
        }

        if restrictions.commit_restriction.is_none() && ready_to_commit.len() > 0
            && ready_to_commit.len() as u64 <= self.config.max_aggregated_blocks_to_commit
            && Self::is_contiguous(&ready_to_commit) && ready_to_commit[0].number
            == last_committed_l1_batch.batch_number.wrapping_add(1)
            && last_committed_l1_batch.batch_number < u64::MAX {
            return Some(
                AggregatedOperation::Commit(last_committed_l1_batch, ready_to_commit, self.pubdata_da),
            );
        }
        proof {
            if restrictions.commit_restriction is None && spec_commit_ready(self.config, storage) {
                assert(storage.ready_to_commit@[0].number
                    == storage.last_committed_l1_batch.batch_number + 1);
            }
        }
        None
    }

    fn is_contiguous(batches: &Vec<L1BatchWithMetadata>) -> (r: bool)
        ensures
            r == spec_contiguous(batches@),
    {
        let n = batches.len();
        if n == 0 {
            return true;
        }
        let first = batches[0].number;
        let mut i: usize = 0;
        while i < n
            invariant
                n == batches@.len(),
                n > 0,
                first == batches@[0].number,
                i <= n,
                forall|j: int| 0 <= j < i ==> (#[trigger] batches@[j]).number == first + j,
        decreases n - i,
        {
            if batches[i].number != first.wrapping_add(i as u64) || first > u64::MAX - (i as u64) {
                proof {
                    assert(batches@[i as int].number != batches@[0].number + i);
                }
                return false;
            }
            i += 1;
        }
        true
    }
}

/// Law (restriction soundness): a restricted action type is never selected;
/// the choice respects the Execute, Prove, Commit preference order.
pub proof fn lemma_restriction_soundness(
    agg: Aggregator,
    storage: AggregatorStorageView,
    l1_verifier_config: L1VerifierConfig,
    restrictions: OperationSkippingRestrictions,
)
    ensures
        restrictions.commit_restriction is Some ==> !(spec_next_ready_operation(
            agg,
            storage,
            l1_verifier_config,
            restrictions,
        ) matches Some(op) && op is Commit),
        restrictions.prove_restriction is Some ==> !(spec_next_ready_operation(
            agg,
            storage,
            l1_verifier_config,
            restrictions,
        ) matches Some(op) && op is PublishProofOnchain),
        restrictions.execute_restriction is Some ==> !(spec_next_ready_operation(
            agg,
            storage,
            l1_verifier_config,
            restrictions,
        ) matches Some(op) && op is Execute),
{
}

} // verus!
