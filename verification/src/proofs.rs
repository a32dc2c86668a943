//! Validation of submitted proofs: the prover's auxiliary outputs must match
//! what the server computed for the batch; a mismatch is a programmer-level
//! invariant violation and aborts the process at the caller.

use sha3::Digest;
use vstd::prelude::*;

use crate::abi::spec_word_u64;
use crate::batch::{L2ToL1Log, L2ToL1LogView};
use crate::types::{H256, ProtocolVersionId};

verus! {

/// The system-log key that carries the state-diff hash before the gateway
/// protocol.
pub const STATE_DIFF_HASH_KEY_PRE_GATEWAY: u64 = 2;

/// The Keccak-256 digest of a byte string; the digest depends on the input
/// alone.
pub uninterp spec fn keccak256_of(data: Seq<u8>) -> Seq<u8>;

/// Relies on sha3's Keccak-256 implementation: the digest is a function of
/// the input bytes alone, and is 32 bytes long.
#[verifier::external_body]
fn keccak256(data: &Vec<u8>) -> (r: Vec<u8>)
    ensures
        r@ == keccak256_of(data@),
        r@.len() == 32,
{
    sha3::Keccak256::digest(data.as_slice()).to_vec()
}

/// The 88-byte serialized form of one system log: shard and service bytes,
/// the big-endian transaction number, then sender, key and value.
pub open spec fn spec_serialize_log(v: L2ToL1LogView) -> Seq<u8> {
    seq![
        v.shard_id,
        (if v.is_service {
            1u8
        } else {
            0u8
        }),
        ((v.tx_number_in_block >> 8) & 0xFF) as u8,
        (v.tx_number_in_block & 0xFF) as u8,
    ] + v.sender + v.key + v.value
}

/// The serialized commitments of a log list: the 4-byte big-endian count,
/// then each log's 88 bytes.
pub open spec fn spec_serialize_commitments(logs: Seq<L2ToL1LogView>) -> Seq<u8>
    decreases logs.len(),
{
    if logs.len() == 0 {
        Seq::<u8>::empty()
    } else {
        spec_serialize_commitments(logs.drop_last()) + spec_serialize_log(logs.last())
    }
}

pub open spec fn spec_count_prefix(n: u32) -> Seq<u8> {
    seq![
        ((n >> 24) & 0xFF) as u8,
        ((n >> 16) & 0xFF) as u8,
        ((n >> 8) & 0xFF) as u8,
        (n & 0xFF) as u8,
    ]
}

/// Serializes system-log commitments: the count, then each log.
pub fn serialize_commitments(logs: &Vec<L2ToL1Log>) -> (r: Vec<u8>)
    requires
        logs@.len() <= u32::MAX,
    ensures
        r@ == spec_count_prefix(logs@.len() as u32) + spec_serialize_commitments(
            crate::encoder::spec_log_views(logs@),
        ),
{
    let ghost views = crate::encoder::spec_log_views(logs@);
    let mut out: Vec<u8> = Vec::new();
    let n32 = logs.len() as u32;
    out.push(((n32 >> 24) & 0xFF) as u8);
    out.push(((n32 >> 16) & 0xFF) as u8);
    out.push(((n32 >> 8) & 0xFF) as u8);
    out.push((n32 & 0xFF) as u8);
    proof {
        assert(out@ =~= spec_count_prefix(logs@.len() as u32));
    }
    let ghost head = out@;
    let n = logs.len();
    let mut i: usize = 0;
    proof {
        assert(out@ =~= head + spec_serialize_commitments(views.take(0)));
    }
    while i < n
        invariant
            n == logs@.len(),
            views == crate::encoder::spec_log_views(logs@),
            i <= n,
            out@ == head + spec_serialize_commitments(views.take(i as int)),
        decreases n - i,
    {
        let log = &logs[i];
        out.push(log.shard_id);
        out.push(
            if log.is_service {
                1u8
            } else {
                0u8
            },
        );
        out.push(((log.tx_number_in_block >> 8) & 0xFF) as u8);
        out.push((log.tx_number_in_block & 0xFF) as u8);
        let mut j: usize = 0;
        let ghost mid = out@;
        proof {
            assert(out@ =~= mid + logs@[i as int].sender.bytes@.take(0));
        }
        while j < 20
            invariant
                j <= 20,
                i < logs@.len(),
                out@ == mid + logs@[i as int].sender.bytes@.take(j as int),
            decreases 20 - j,
        {
            out.push(logs[i].sender.bytes[j]);
            proof {
                assert(mid + logs@[i as int].sender.bytes@.take(j + 1) =~= (mid
                    + logs@[i as int].sender.bytes@.take(j as int)).push(
                    logs@[i as int].sender.bytes@[j as int],
                ));
            }
            j += 1;
        }
        proof {
            assert(logs@[i as int].sender.bytes@.take(20) =~= logs@[i as int].sender.bytes@);
        }
        crate::abi::push_h256(&mut out, &log.key);
        crate::abi::push_h256(&mut out, &log.value);
        proof {
            assert(views.take(i + 1).drop_last() =~= views.take(i as int));
            assert(views.take(i + 1).last() == views[i as int]);
            assert(out@ =~= head + spec_serialize_commitments(views.take(i + 1)));
        }
        i += 1;
    }
    proof {
        assert(views.take(n as int) =~= views);
    }
    out
}

/// The auxiliary outputs the prover reports with a proof.
#[derive(Clone, Copy, Debug)]
pub struct AggregationResultCoords {
    pub system_logs_hash: H256,
    pub state_diff_hash: H256,
    pub bootloader_heap_initial_content: H256,
    pub events_queue_state: H256,
}

/// What the server has stored for the proved batch.
#[derive(Clone, Debug)]
pub struct ProvedBatchData {
    pub protocol_version: ProtocolVersionId,
    pub system_logs: Vec<L2ToL1Log>,
    pub events_queue_commitment: Option<H256>,
    pub bootloader_initial_content_commitment: Option<H256>,
    /// Present from the gateway protocol on; earlier versions carry the hash
    /// in a system log.
    pub state_diff_hash: Option<H256>,
}

/// Why a submitted proof is refused.
#[derive(Clone, Copy, Debug, PartialEq, Eq, Structural)]
pub enum SubmitProofError {
    MissingEventsQueueCommitment,
    MissingBootloaderHeapCommitment,
    /// Events-queue state or bootloader heap content differ from the
    /// prover's values.
    AuxiliaryOutputMismatch,
    MissingStateDiffHash,
    /// System-logs hash or state-diff hash differ from the prover's values.
    HashMismatch,
}

/// The state-diff hash carried in the system logs, pre-gateway: the value of
/// the first log whose key is the state-diff key.
pub open spec fn spec_find_state_diff_log(logs: Seq<L2ToL1LogView>) -> Option<Seq<u8>>
    decreases logs.len(),
{
    if logs.len() == 0 {
        None
    } else if logs.first().key == spec_word_u64(STATE_DIFF_HASH_KEY_PRE_GATEWAY) {
        Some(logs.first().value)
    } else {
        spec_find_state_diff_log(logs.drop_first())
    }
}

fn find_state_diff_log(logs: &Vec<L2ToL1Log>) -> (r: Option<H256>)
    ensures
        r is Some <==> spec_find_state_diff_log(crate::encoder::spec_log_views(logs@)) is Some,
        r matches Some(h) ==> Some(h.bytes@) == spec_find_state_diff_log(
            crate::encoder::spec_log_views(logs@),
        ),
{
    let ghost views = crate::encoder::spec_log_views(logs@);
    let mut key_word: Vec<u8> = Vec::new();
    crate::abi::push_word_u64(&mut key_word, STATE_DIFF_HASH_KEY_PRE_GATEWAY);
    proof {
        assert(key_word@ =~= spec_word_u64(STATE_DIFF_HASH_KEY_PRE_GATEWAY));
    }
    let key = H256::from_slice(&key_word);
    let n = logs.len();
    let mut i: usize = 0;
    proof {
        assert(views.skip(0) =~= views);
    }
    while i < n
        invariant
            n == logs@.len(),
            views == crate::encoder::spec_log_views(logs@),
            key.bytes@ == spec_word_u64(STATE_DIFF_HASH_KEY_PRE_GATEWAY),
            i <= n,
            spec_find_state_diff_log(views) == spec_find_state_diff_log(views.skip(i as int)),
        decreases n - i,
    {
        if logs[i].key.eq_bytes(&key) {
            proof {
                assert(views.skip(i as int).first() == views[i as int]);
            }
            return Some(logs[i].value);
        }
        proof {
            assert(views.skip(i as int).first() == views[i as int]);
            assert(views.skip(i as int).drop_first() =~= views.skip(i + 1));
        }
        i += 1;
    }
    proof {
        assert(views.skip(n as int) =~= Seq::<L2ToL1LogView>::empty());
    }
    None
}

/// The exact acceptance condition of a submitted proof.
pub open spec fn spec_proof_valid(batch: ProvedBatchData, coords: AggregationResultCoords) -> bool {
    &&& batch.events_queue_commitment is Some
    &&& batch.bootloader_initial_content_commitment is Some
    &&& batch.events_queue_commitment->Some_0.bytes@ == coords.events_queue_state.bytes@
    &&& batch.bootloader_initial_content_commitment->Some_0.bytes@
        == coords.bootloader_heap_initial_content.bytes@
    &&& keccak256_of(
        spec_count_prefix(batch.system_logs@.len() as u32) + spec_serialize_commitments(
            crate::encoder::spec_log_views(batch.system_logs@),
        ),
    ) == coords.system_logs_hash.bytes@
    &&& {
        let expected = if batch.protocol_version.is_pre_gateway_spec() {
            spec_find_state_diff_log(crate::encoder::spec_log_views(batch.system_logs@))
        } else {
            match batch.state_diff_hash {
                Some(h) => Some(h.bytes@),
                None => None,
            }
        };
        expected == Some(coords.state_diff_hash.bytes@)
    }
}

/// Validates a submitted proof against the stored batch: the events-queue
/// state and the bootloader heap content must match the prover's values, the
/// hash of the serialized system logs must match, and the state-diff hash —
/// read from the system logs before the gateway protocol, from the metadata
/// after — must match. Missing stored values are integrity errors.
pub fn validate_submitted_proof(batch: &ProvedBatchData, coords: &AggregationResultCoords) -> (r:
    Result<(), SubmitProofError>)
    requires
        batch.system_logs@.len() <= u32::MAX,
    ensures
        r is Ok <==> spec_proof_valid(*batch, *coords),
{
    let events_queue_state = match &batch.events_queue_commitment {
        Some(h) => *h,
        None => {
            return Err(SubmitProofError::MissingEventsQueueCommitment);
        },
    };
    let bootloader_heap_initial_content = match &batch.bootloader_initial_content_commitment {
        Some(h) => *h,
        None => {
            return Err(SubmitProofError::MissingBootloaderHeapCommitment);
        },
    };
    if !events_queue_state.eq_bytes(&coords.events_queue_state)
        || !bootloader_heap_initial_content.eq_bytes(&coords.bootloader_heap_initial_content) {
        return Err(SubmitProofError::AuxiliaryOutputMismatch);
    }

    let system_logs = serialize_commitments(&batch.system_logs);
    let system_logs_hash_bytes = keccak256(&system_logs);
    let system_logs_hash = H256::from_slice(&system_logs_hash_bytes);

    let state_diff_hash = if batch.protocol_version.is_pre_gateway() {
        match find_state_diff_log(&batch.system_logs) {
            Some(h) => h,
            None => {
                return Err(SubmitProofError::MissingStateDiffHash);
            },
        }
    } else {
        match &batch.state_diff_hash {
            Some(h) => *h,
            None => {
                return Err(SubmitProofError::MissingStateDiffHash);
            },
        }
    };

    if !state_diff_hash.eq_bytes(&coords.state_diff_hash) || !system_logs_hash.eq_bytes(
        &coords.system_logs_hash,
    ) {
        return Err(SubmitProofError::HashMismatch);
    }
    Ok(())
}

} // verus!
