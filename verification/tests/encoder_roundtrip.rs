//! Encoding round trips: each operation's payload decodes back to what was
//! encoded, for every protocol-version branch.

use sequencer_core::batch::{
    L1BatchWithMetadata, L2ToL1Log, PriorityOpsMerkleProof, StoredBatchInfo,
};
use sequencer_core::encoder::{
    decode_commit_payload, decode_execute_payload, decode_prove_payload, encode_commit_payload,
    encode_prove_payload, ExecuteBatches, ProveBatches, SUPPORTED_ENCODING_VERSION,
};
use sequencer_core::types::{Address, H256, ProtocolVersionId, PubdataSendingMode};

fn h(n: u8) -> H256 {
    H256 { bytes: [n; 32] }
}

fn stored(n: u64) -> StoredBatchInfo {
    StoredBatchInfo {
        batch_number: n,
        batch_hash: h(n as u8),
        index_repeated_storage_changes: 3 * n,
        number_of_layer1_txs: n + 1,
        priority_operations_hash: h(100 + n as u8),
        l2_logs_tree_root: h(200 + n as u8),
        timestamp: 1_000 + n,
        commitment: h(50 + n as u8),
    }
}

fn batch(n: u64, version: u16, pubdata: Option<Vec<u8>>) -> L1BatchWithMetadata {
    L1BatchWithMetadata {
        number: n,
        timestamp: 1_000 + n,
        protocol_version: ProtocolVersionId { minor: version },
        stored: stored(n),
        pubdata_input: pubdata,
    }
}

fn a_log(n: u8) -> L2ToL1Log {
    L2ToL1Log {
        shard_id: n,
        is_service: n % 2 == 0,
        tx_number_in_block: 256 + n as u16,
        sender: Address { bytes: [n; 20] },
        key: h(n),
        value: h(n.wrapping_add(1)),
    }
}

#[test]
fn commit_payload_round_trips() {
    let last = stored(9);
    let batches = vec![
        batch(10, 25, Some(vec![1, 2, 3])),
        batch(11, 25, None),
    ];
    let payload = encode_commit_payload(&last, &batches, PubdataSendingMode::Blobs);
    let (dec_last, dec_batches, dec_pubdata, dec_da) =
        decode_commit_payload(&payload).expect("commit payload must decode");
    assert_eq!(dec_last, last);
    assert_eq!(dec_batches, vec![stored(10), stored(11)]);
    assert_eq!(dec_pubdata, vec![vec![1, 2, 3], vec![]]);
    assert_eq!(dec_da, PubdataSendingMode::Blobs);
}

#[test]
fn commit_payload_rejects_trailing_garbage() {
    let last = stored(9);
    let batches = vec![batch(10, 25, None)];
    let mut payload = encode_commit_payload(&last, &batches, PubdataSendingMode::Calldata);
    payload.push(0);
    assert!(decode_commit_payload(&payload).is_none());
}

#[test]
fn prove_payload_round_trips() {
    let op = ProveBatches {
        prev_l1_batch: stored(9),
        l1_batches: vec![batch(10, 25, None), batch(11, 25, None)],
        proof: vec![h(7), h(8)],
        should_verify: true,
    };
    let payload = encode_prove_payload(&op, true);
    let (prev, batches, kind, proof) =
        decode_prove_payload(&payload).expect("prove payload must decode");
    assert_eq!(prev, stored(9));
    assert_eq!(batches, vec![stored(10), stored(11)]);
    assert_eq!(kind, 0);
    assert_eq!(proof, vec![h(7), h(8)]);

    // The verifier-kind word distinguishes the fflonk generation.
    let payload = encode_prove_payload(&op, false);
    let (_, _, kind, _) = decode_prove_payload(&payload).expect("prove payload must decode");
    assert_eq!(kind, 1);
}

fn execute_op(version: u16) -> ExecuteBatches {
    ExecuteBatches {
        l1_batches: vec![batch(20, version, None), batch(21, version, None)],
        priority_ops_proofs: vec![PriorityOpsMerkleProof {
            left_path: vec![h(1)],
            right_path: vec![h(2), h(3)],
            hashes: vec![h(4)],
        }],
        logs: vec![vec![a_log(1), a_log(2)], vec![]],
        messages: vec![vec![vec![9, 9], vec![8]], vec![]],
        message_roots: vec![h(31)],
    }
}

#[test]
fn execute_pre_gateway_branch_round_trips() {
    let op = execute_op(25);
    let chain = ProtocolVersionId { minor: 25 };
    let payload = op.encode_for_eth_tx(chain);
    let decoded = decode_execute_payload(&payload, ProtocolVersionId { minor: 25 }, chain)
        .expect("execute payload must decode");
    // The bare pre-gateway form carries the stored infos alone.
    assert_eq!(decoded.batch_infos, vec![stored(20), stored(21)]);
    assert!(decoded.priority_ops_proofs.is_empty());
    assert!(decoded.logs.is_empty());
    assert!(decoded.messages.is_empty());
    assert!(decoded.message_roots.is_empty());
    assert_eq!(decoded.first_batch, 20);
    assert_eq!(decoded.last_batch, 21);
}

#[test]
fn execute_pre_interop_branch_round_trips() {
    let op = execute_op(26);
    let chain = ProtocolVersionId { minor: 27 };
    let payload = op.encode_for_eth_tx(chain);
    let decoded = decode_execute_payload(&payload, ProtocolVersionId { minor: 26 }, chain)
        .expect("execute payload must decode");
    assert_eq!(decoded.batch_infos, vec![stored(20), stored(21)]);
    assert_eq!(decoded.priority_ops_proofs, op.priority_ops_proofs);
    assert!(decoded.logs.is_empty());
    assert_eq!(decoded.first_batch, 20);
    assert_eq!(decoded.last_batch, 21);
}

#[test]
fn execute_interop_branch_round_trips() {
    let op = execute_op(28);
    let chain = ProtocolVersionId { minor: 28 };
    let payload = op.encode_for_eth_tx(chain);
    let decoded = decode_execute_payload(&payload, ProtocolVersionId { minor: 28 }, chain)
        .expect("execute payload must decode");
    assert_eq!(decoded.batch_infos, vec![stored(20), stored(21)]);
    assert_eq!(decoded.priority_ops_proofs, op.priority_ops_proofs);
    assert_eq!(decoded.logs, op.logs);
    assert_eq!(decoded.messages, op.messages);
    assert_eq!(decoded.message_roots, op.message_roots);
}

#[test]
fn mixed_version_execute_uses_the_versioned_payload() {
    // A pre-gateway operation on a post-gateway chain takes the full
    // interop form, whose byte string opens with the encoding version.
    let op = execute_op(25);
    let chain = ProtocolVersionId { minor: 29 };
    let payload = op.encode_for_eth_tx(chain);
    assert!(payload.len() > 96);
    assert_eq!(payload[96], SUPPORTED_ENCODING_VERSION);

    let decoded = decode_execute_payload(&payload, ProtocolVersionId { minor: 25 }, chain)
        .expect("execute payload must decode");
    assert_eq!(decoded.batch_infos, vec![stored(20), stored(21)]);
    assert_eq!(decoded.logs, op.logs);
    assert_eq!(decoded.messages, op.messages);
    assert_eq!(decoded.message_roots, op.message_roots);
}

#[test]
fn execute_decoding_refuses_a_wrong_version_byte() {
    let op = execute_op(28);
    let chain = ProtocolVersionId { minor: 28 };
    let mut payload = op.encode_for_eth_tx(chain);
    payload[96] = SUPPORTED_ENCODING_VERSION.wrapping_add(1);
    assert!(decode_execute_payload(&payload, ProtocolVersionId { minor: 28 }, chain).is_none());
}
