//! Sealed-batch metadata as the L1 aggregation pipeline sees it, and the
//! canonical byte encodings of its pieces.

use vstd::prelude::*;

use crate::abi::{
    push_all, push_h256, push_vec_bytes, push_word_u64, read_h256, read_vec_bytes, read_word_u64,
    spec_enc_vec_bytes, spec_read_vec_bytes, spec_read_word_u64, spec_word_u64,
};
use crate::types::{H256, ProtocolVersionId};

verus! {

/// The form of a sealed batch the executor contract stores: what commit,
/// prove and execute calls reference.
#[derive(Clone, Copy, Debug, PartialEq, Eq)]
pub struct StoredBatchInfo {
    pub batch_number: u64,
    pub batch_hash: H256,
    pub index_repeated_storage_changes: u64,
    pub number_of_layer1_txs: u64,
    pub priority_operations_hash: H256,
    pub l2_logs_tree_root: H256,
    pub timestamp: u64,
    pub commitment: H256,
}

/// The ghost value of a `StoredBatchInfo`, hashes as byte sequences.
pub ghost struct StoredBatchInfoView {
    pub batch_number: u64,
    pub batch_hash: Seq<u8>,
    pub index_repeated_storage_changes: u64,
    pub number_of_layer1_txs: u64,
    pub priority_operations_hash: Seq<u8>,
    pub l2_logs_tree_root: Seq<u8>,
    pub timestamp: u64,
    pub commitment: Seq<u8>,
}

impl StoredBatchInfo {
    pub open spec fn view_spec(self) -> StoredBatchInfoView {
        StoredBatchInfoView {
            batch_number: self.batch_number,
            batch_hash: self.batch_hash.bytes@,
            index_repeated_storage_changes: self.index_repeated_storage_changes,
            number_of_layer1_txs: self.number_of_layer1_txs,
            priority_operations_hash: self.priority_operations_hash.bytes@,
            l2_logs_tree_root: self.l2_logs_tree_root.bytes@,
            timestamp: self.timestamp,
            commitment: self.commitment.bytes@,
        }
    }
}

impl StoredBatchInfoView {
    pub open spec fn wf(self) -> bool {
        &&& self.batch_hash.len() == 32
        &&& self.priority_operations_hash.len() == 32
        &&& self.l2_logs_tree_root.len() == 32
        &&& self.commitment.len() == 32
    }
}

/// A sealed batch with the metadata the aggregator reads.
#[derive(Clone, Debug)]
pub struct L1BatchWithMetadata {
    pub number: u64,
    pub timestamp: u64,
    pub protocol_version: ProtocolVersionId,
    pub stored: StoredBatchInfo,
    /// The pubdata of the batch, present when it was built in blob mode.
    pub pubdata_input: Option<Vec<u8>>,
}

/// One user log sent from L2 to L1.
#[derive(Clone, Copy, Debug, PartialEq, Eq)]
pub struct L2ToL1Log {
    pub shard_id: u8,
    pub is_service: bool,
    pub tx_number_in_block: u16,
    pub sender: crate::types::Address,
    pub key: H256,
    pub value: H256,
}

/// The ghost value of an `L2ToL1Log`.
pub ghost struct L2ToL1LogView {
    pub shard_id: u8,
    pub is_service: bool,
    pub tx_number_in_block: u16,
    pub sender: Seq<u8>,
    pub key: Seq<u8>,
    pub value: Seq<u8>,
}

impl L2ToL1Log {
    pub open spec fn view_spec(self) -> L2ToL1LogView {
        L2ToL1LogView {
            shard_id: self.shard_id,
            is_service: self.is_service,
            tx_number_in_block: self.tx_number_in_block,
            sender: self.sender.bytes@,
            key: self.key.bytes@,
            value: self.value.bytes@,
        }
    }
}

impl L2ToL1LogView {
    pub open spec fn wf(self) -> bool {
        self.sender.len() == 20 && self.key.len() == 32 && self.value.len() == 32
    }
}

/// The Merkle proof of the priority operations a batch consumed.
#[derive(Clone, Debug, PartialEq, Eq)]
pub struct PriorityOpsMerkleProof {
    pub left_path: Vec<H256>,
    pub right_path: Vec<H256>,
    pub hashes: Vec<H256>,
}

pub open spec fn spec_h256_list_view(hs: Seq<H256>) -> Seq<Seq<u8>> {
    hs.map_values(|h: H256| h.bytes@)
}

/// The ghost value of a priority-operations proof.
pub ghost struct PriorityOpsProofView {
    pub left_path: Seq<Seq<u8>>,
    pub right_path: Seq<Seq<u8>>,
    pub hashes: Seq<Seq<u8>>,
}

impl PriorityOpsMerkleProof {
    pub open spec fn view_spec(self) -> PriorityOpsProofView {
        PriorityOpsProofView {
            left_path: spec_h256_list_view(self.left_path@),
            right_path: spec_h256_list_view(self.right_path@),
            hashes: spec_h256_list_view(self.hashes@),
        }
    }
}

pub open spec fn spec_all_len_32(items: Seq<Seq<u8>>) -> bool {
    forall|i: int| 0 <= i < items.len() ==> #[trigger] items[i].len() == 32
}

impl PriorityOpsProofView {
    pub open spec fn wf(self) -> bool {
        &&& self.left_path.len() <= u64::MAX
        &&& self.right_path.len() <= u64::MAX
        &&& self.hashes.len() <= u64::MAX
        &&& spec_all_len_32(self.left_path)
        &&& spec_all_len_32(self.right_path)
        &&& spec_all_len_32(self.hashes)
    }
}

/// The 256-byte encoding of a stored batch info.
pub open spec fn spec_enc_stored(v: StoredBatchInfoView) -> Seq<u8> {
    spec_word_u64(v.batch_number) + v.batch_hash + spec_word_u64(v.index_repeated_storage_changes)
        + spec_word_u64(v.number_of_layer1_txs) + v.priority_operations_hash + v.l2_logs_tree_root
        + spec_word_u64(v.timestamp) + v.commitment
}

pub fn push_stored(out: &mut Vec<u8>, s: &StoredBatchInfo)
    ensures
        final(out)@ == old(out)@ + spec_enc_stored(s.view_spec()),
{
    push_word_u64(out, s.batch_number);
    push_h256(out, &s.batch_hash);
    push_word_u64(out, s.index_repeated_storage_changes);
    push_word_u64(out, s.number_of_layer1_txs);
    push_h256(out, &s.priority_operations_hash);
    push_h256(out, &s.l2_logs_tree_root);
    push_word_u64(out, s.timestamp);
    push_h256(out, &s.commitment);
    proof {
        assert(out@ =~= old(out)@ + spec_enc_stored(s.view_spec()));
    }
}

/// The spec mirror of `read_stored`.
pub open spec fn spec_read_stored(data: Seq<u8>, pos: int) -> Option<(StoredBatchInfoView, usize)> {
    if pos < 0 || pos + 256 > data.len() || pos + 256 > usize::MAX {
        None
    } else {
        match spec_read_word_u64(data, pos) {
            None => None,
            Some((batch_number, _)) => {
                match spec_read_word_u64(data, pos + 64) {
                    None => None,
                    Some((index_repeated_storage_changes, _)) => {
                        match spec_read_word_u64(data, pos + 96) {
                            None => None,
                            Some((number_of_layer1_txs, _)) => {
                                match spec_read_word_u64(data, pos + 192) {
                                    None => None,
                                    Some((timestamp, _)) => Some(
                                        (
                                            StoredBatchInfoView {
                                                batch_number,
                                                batch_hash: data.subrange(pos + 32, pos + 64),
                                                index_repeated_storage_changes,
                                                number_of_layer1_txs,
                                                priority_operations_hash: data.subrange(
                                                    pos + 128,
                                                    pos + 160,
                                                ),
                                                l2_logs_tree_root: data.subrange(
                                                    pos + 160,
                                                    pos + 192,
                                                ),
                                                timestamp,
                                                commitment: data.subrange(pos + 224, pos + 256),
                                            },
                                            (pos + 256) as usize,
                                        ),
                                    ),
                                }
                            },
                        }
                    },
                }
            },
        }
    }
}

pub fn read_stored(data: &Vec<u8>, pos: usize) -> (r: Option<(StoredBatchInfo, usize)>)
    ensures
        r is Some <==> spec_read_stored(data@, pos as int) is Some,
        r matches Some(v) ==> {
            &&& spec_read_stored(data@, pos as int) matches Some(w) && v.0.view_spec() == w.0
                && v.1 == w.1
        },
{
    if data.len() < 256 || pos > data.len() - 256 {
        return None;
    }
    let (batch_number, p1) = match read_word_u64(data, pos) {
        Some(v) => v,
        None => {
            return None;
        },
    };
    let (batch_hash, p2) = match read_h256(data, p1) {
        Some(v) => v,
        None => {
            return None;
        },
    };
    let (index_repeated_storage_changes, p3) = match read_word_u64(data, p2) {
        Some(v) => v,
        None => {
            return None;
        },
    };
    let (number_of_layer1_txs, p4) = match read_word_u64(data, p3) {
        Some(v) => v,
        None => {
            return None;
        },
    };
    let (priority_operations_hash, p5) = match read_h256(data, p4) {
        Some(v) => v,
        None => {
            return None;
        },
    };
    let (l2_logs_tree_root, p6) = match read_h256(data, p5) {
        Some(v) => v,
        None => {
            return None;
        },
    };
    let (timestamp, p7) = match read_word_u64(data, p6) {
        Some(v) => v,
        None => {
            return None;
        },
    };
    let (commitment, p8) = match read_h256(data, p7) {
        Some(v) => v,
        None => {
            return None;
        },
    };
    Some(
        (
            StoredBatchInfo {
                batch_number,
                batch_hash,
                index_repeated_storage_changes,
                number_of_layer1_txs,
                priority_operations_hash,
                l2_logs_tree_root,
                timestamp,
                commitment,
            },
            p8,
        ),
    )
}

/// Reading a stored batch info written at `pos` gives it back.
pub proof fn lemma_read_stored(prefix: Seq<u8>, v: StoredBatchInfoView, suffix: Seq<u8>)
    requires
        v.wf(),
        prefix.len() + 256 + suffix.len() <= usize::MAX,
    ensures
        spec_enc_stored(v).len() == 256,
        spec_read_stored(prefix + spec_enc_stored(v) + suffix, prefix.len() as int) == Some(
            (v, (prefix.len() + 256) as usize),
        ),
{
    let data = prefix + spec_enc_stored(v) + suffix;
    let pos = prefix.len() as int;
    assert(data =~= prefix + spec_word_u64(v.batch_number) + (v.batch_hash + spec_word_u64(
        v.index_repeated_storage_changes,
    ) + spec_word_u64(v.number_of_layer1_txs) + v.priority_operations_hash + v.l2_logs_tree_root
        + spec_word_u64(v.timestamp) + v.commitment + suffix));
    crate::abi::lemma_read_word_u64(
        prefix,
        v.batch_number,
        v.batch_hash + spec_word_u64(v.index_repeated_storage_changes) + spec_word_u64(
            v.number_of_layer1_txs,
        ) + v.priority_operations_hash + v.l2_logs_tree_root + spec_word_u64(v.timestamp)
            + v.commitment + suffix,
    );
    assert(data =~= (prefix + spec_word_u64(v.batch_number) + v.batch_hash) + spec_word_u64(
        v.index_repeated_storage_changes,
    ) + (spec_word_u64(v.number_of_layer1_txs) + v.priority_operations_hash + v.l2_logs_tree_root
        + spec_word_u64(v.timestamp) + v.commitment + suffix));
    crate::abi::lemma_read_word_u64(
        prefix + spec_word_u64(v.batch_number) + v.batch_hash,
        v.index_repeated_storage_changes,
        spec_word_u64(v.number_of_layer1_txs) + v.priority_operations_hash + v.l2_logs_tree_root
            + spec_word_u64(v.timestamp) + v.commitment + suffix,
    );
    assert(data =~= (prefix + spec_word_u64(v.batch_number) + v.batch_hash + spec_word_u64(
        v.index_repeated_storage_changes,
    )) + spec_word_u64(v.number_of_layer1_txs) + (v.priority_operations_hash + v.l2_logs_tree_root
        + spec_word_u64(v.timestamp) + v.commitment + suffix));
    crate::abi::lemma_read_word_u64(
        prefix + spec_word_u64(v.batch_number) + v.batch_hash + spec_word_u64(
            v.index_repeated_storage_changes,
        ),
        v.number_of_layer1_txs,
        v.priority_operations_hash + v.l2_logs_tree_root + spec_word_u64(v.timestamp)
            + v.commitment + suffix,
    );
    assert(data =~= (prefix + spec_word_u64(v.batch_number) + v.batch_hash + spec_word_u64(
        v.index_repeated_storage_changes,
    ) + spec_word_u64(v.number_of_layer1_txs) + v.priority_operations_hash + v.l2_logs_tree_root)
        + spec_word_u64(v.timestamp) + (v.commitment + suffix));
    crate::abi::lemma_read_word_u64(
        prefix + spec_word_u64(v.batch_number) + v.batch_hash + spec_word_u64(
            v.index_repeated_storage_changes,
        ) + spec_word_u64(v.number_of_layer1_txs) + v.priority_operations_hash
            + v.l2_logs_tree_root,
        v.timestamp,
        v.commitment + suffix,
    );
    assert(data.subrange(pos + 32, pos + 64) =~= v.batch_hash);
    assert(data.subrange(pos + 128, pos + 160) =~= v.priority_operations_hash);
    assert(data.subrange(pos + 160, pos + 192) =~= v.l2_logs_tree_root);
    assert(data.subrange(pos + 224, pos + 256) =~= v.commitment);
}

} // verus!
