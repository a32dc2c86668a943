//! Multicall calldata generation and response parsing, and the aggregator's
//! restriction handling.

use sequencer_core::aggregator::{
    Aggregator, AggregatorConfig, AggregatorStorageView, L1VerifierConfig,
    OperationSkippingRestrictions,
};
use sequencer_core::batch::{L1BatchWithMetadata, StoredBatchInfo};
use sequencer_core::encoder::{AggregatedOperation, ExecuteBatches, ProveBatches};
use sequencer_core::multicall::{
    generate_calldata_for_multicall, parse_multicall_data, timelock_contract_address, Token,
    ZkSyncFunctions,
};
use sequencer_core::types::{
    Address, H256, L1BatchCommitmentMode, ProtocolVersionId, PubdataSendingMode,
};

fn h(n: u8) -> H256 {
    H256 { bytes: [n; 32] }
}

fn addr(n: u8) -> Address {
    Address { bytes: [n; 20] }
}

fn functions(emulator: bool) -> ZkSyncFunctions {
    ZkSyncFunctions {
        get_l2_bootloader_bytecode_hash: vec![1, 1, 1, 1],
        get_l2_default_account_bytecode_hash: vec![2, 2, 2, 2],
        get_evm_emulator_bytecode_hash: if emulator { Some(vec![3, 3, 3, 3]) } else { None },
        get_verifier_params: vec![4, 4, 4, 4],
        get_verifier: vec![5, 5, 5, 5],
        get_protocol_version: vec![6, 6, 6, 6],
        stm_protocol_version: vec![7, 7, 7, 7],
        stm_validator_timelock: vec![8, 8, 8, 8],
        post_shared_bridge_commit: vec![10, 0, 0, 1],
        post_gateway_commit: vec![10, 0, 0, 2],
        post_shared_bridge_prove: vec![10, 0, 0, 3],
        post_gateway_prove: vec![10, 0, 0, 4],
        post_shared_bridge_execute: vec![10, 0, 0, 5],
        post_gateway_execute: vec![10, 0, 0, 6],
    }
}

#[test]
fn multicall_calldata_without_emulator() {
    let (calls, requested) = generate_calldata_for_multicall(&functions(false), addr(9), addr(10));
    assert!(!requested);
    assert_eq!(calls.len(), 7);
    for call in &calls {
        assert!(!call.allow_failure);
    }
    assert_eq!(calls[0].calldata, vec![1, 1, 1, 1]);
    assert_eq!(calls[0].target, addr(9));
    assert_eq!(calls[2].calldata, vec![4, 4, 4, 4]);
    assert_eq!(calls[5].target, addr(10));
    assert_eq!(calls[6].calldata, vec![8, 8, 8, 8]);
}

#[test]
fn multicall_calldata_inserts_the_emulator_read_third() {
    let (calls, requested) = generate_calldata_for_multicall(&functions(true), addr(9), addr(10));
    assert!(requested);
    assert_eq!(calls.len(), 8);
    assert_eq!(calls[2].calldata, vec![3, 3, 3, 3]);
    assert_eq!(calls[3].calldata, vec![4, 4, 4, 4]);
}

fn ok_result(data: Vec<u8>) -> Token {
    Token::Tuple(vec![Token::Bool(true), Token::Bytes(data)])
}

fn word(value: u64) -> Vec<u8> {
    let mut out = vec![0u8; 24];
    out.extend_from_slice(&value.to_be_bytes());
    out
}

fn response(chain_pv: u64, stm_pv: u64) -> Token {
    Token::Array(vec![
        ok_result(vec![1; 32]),               // bootloader hash
        ok_result(vec![2; 32]),               // default account hash
        ok_result(vec![0; 64]),               // verifier params, read but not interpreted
        ok_result({
            let mut a = vec![0u8; 12];
            a.extend_from_slice(&[7u8; 20]);
            a
        }),                                   // verifier address
        ok_result(word(chain_pv)),            // chain protocol version
        ok_result(word(stm_pv)),              // chain-type-manager protocol version
        ok_result({
            let mut a = vec![0u8; 12];
            a.extend_from_slice(&[8u8; 20]);
            a
        }),                                   // validator timelock
    ])
}

#[test]
fn multicall_response_parses() {
    let data = parse_multicall_data(&response(25, 25), false).expect("response must parse");
    assert_eq!(data.base_system_contracts_hashes.bootloader, h(1));
    assert_eq!(data.base_system_contracts_hashes.default_aa, h(2));
    assert!(data.base_system_contracts_hashes.evm_emulator.is_none());
    assert_eq!(data.verifier_address, addr(7));
    assert_eq!(data.chain_protocol_version_id, ProtocolVersionId { minor: 25 });
    assert_eq!(data.stm_protocol_version_id, ProtocolVersionId { minor: 25 });
    assert_eq!(data.stm_validator_timelock_address, addr(8));
}

#[test]
fn packed_semver_protocol_version_parses() {
    // Minor 26 packed above the 32 patch bits, with patch 5.
    let packed = (26u64 << 32) | 5;
    let data = parse_multicall_data(&response(packed, 25), false).expect("response must parse");
    assert_eq!(data.chain_protocol_version_id, ProtocolVersionId { minor: 26 });
}

#[test]
fn short_hash_data_is_a_parse_error() {
    let token = Token::Array(vec![
        ok_result(vec![1; 31]),
        ok_result(vec![2; 32]),
        ok_result(vec![0; 64]),
        ok_result(vec![0; 32]),
        ok_result(word(25)),
        ok_result(word(25)),
        ok_result(vec![0; 32]),
    ]);
    assert!(parse_multicall_data(&token, false).is_err());
}

#[test]
fn wrong_call_count_is_a_parse_error() {
    let token = Token::Array(vec![ok_result(vec![1; 32])]);
    assert!(parse_multicall_data(&token, false).is_err());
    // A seven-element response does not satisfy an eight-call request.
    assert!(parse_multicall_data(&response(25, 25), true).is_err());
}

#[test]
fn timelock_follows_the_manager_while_versions_agree() {
    let v25 = ProtocolVersionId { minor: 25 };
    let v26 = ProtocolVersionId { minor: 26 };
    assert_eq!(timelock_contract_address(addr(1), v25, v25, addr(2)), addr(2));
    assert_eq!(timelock_contract_address(addr(1), v25, v26, addr(2)), addr(1));
}

fn stored(n: u64) -> StoredBatchInfo {
    StoredBatchInfo {
        batch_number: n,
        batch_hash: h(n as u8),
        index_repeated_storage_changes: 0,
        number_of_layer1_txs: 0,
        priority_operations_hash: h(0),
        l2_logs_tree_root: h(0),
        timestamp: 0,
        commitment: h(0),
    }
}

fn batch(n: u64) -> L1BatchWithMetadata {
    L1BatchWithMetadata {
        number: n,
        timestamp: 0,
        protocol_version: ProtocolVersionId { minor: 25 },
        stored: stored(n),
        pubdata_input: None,
    }
}

fn aggregator() -> Aggregator {
    Aggregator::new(
        AggregatorConfig {
            max_aggregated_blocks_to_commit: 10,
            max_aggregated_blocks_to_prove: 10,
            max_aggregated_blocks_to_execute: 10,
        },
        L1BatchCommitmentMode::Rollup,
        PubdataSendingMode::Calldata,
    )
}

fn storage_with_all() -> AggregatorStorageView {
    AggregatorStorageView {
        last_committed_l1_batch: stored(9),
        ready_to_commit: vec![batch(10), batch(11)],
        prove_candidate: Some(ProveBatches {
            prev_l1_batch: stored(9),
            l1_batches: vec![batch(10)],
            proof: vec![h(1)],
            should_verify: true,
        }),
        prove_vk_hash: h(42),
        execute_candidate: Some(ExecuteBatches {
            l1_batches: vec![batch(8), batch(9)],
            priority_ops_proofs: vec![],
            logs: vec![],
            messages: vec![],
            message_roots: vec![],
        }),
    }
}

fn no_restrictions() -> OperationSkippingRestrictions {
    OperationSkippingRestrictions {
        commit_restriction: None,
        prove_restriction: None,
        execute_restriction: None,
    }
}

fn vk() -> L1VerifierConfig {
    L1VerifierConfig {
        snark_wrapper_vk_hash: h(42),
        fflonk_snark_wrapper_vk_hash: None,
    }
}

fn hashes() -> sequencer_core::types::BaseSystemContractsHashes {
    sequencer_core::types::BaseSystemContractsHashes {
        bootloader: h(1),
        default_aa: h(2),
        evm_emulator: None,
    }
}

#[test]
fn execute_wins_over_prove_and_commit() {
    let op = aggregator().get_next_ready_operation(
        storage_with_all(),
        hashes(),
        ProtocolVersionId { minor: 25 },
        vk(),
        no_restrictions(),
    );
    assert!(matches!(op, Some(AggregatedOperation::Execute(_))));
}

#[test]
fn restricted_action_types_are_never_produced() {
    let mut restrictions = no_restrictions();
    restrictions.execute_restriction = Some("held back");
    let op = aggregator().get_next_ready_operation(
        storage_with_all(),
        hashes(),
        ProtocolVersionId { minor: 25 },
        vk(),
        restrictions,
    );
    assert!(matches!(op, Some(AggregatedOperation::PublishProofOnchain(_))));

    let mut restrictions = no_restrictions();
    restrictions.execute_restriction = Some("held back");
    restrictions.prove_restriction = Some("held back");
    let op = aggregator().get_next_ready_operation(
        storage_with_all(),
        hashes(),
        ProtocolVersionId { minor: 25 },
        vk(),
        restrictions,
    );
    assert!(matches!(op, Some(AggregatedOperation::Commit(..))));

    let restrictions = OperationSkippingRestrictions {
        commit_restriction: Some("paused"),
        prove_restriction: Some("paused"),
        execute_restriction: Some("paused"),
    };
    let op = aggregator().get_next_ready_operation(
        storage_with_all(),
        hashes(),
        ProtocolVersionId { minor: 25 },
        vk(),
        restrictions,
    );
    assert!(op.is_none());
}

#[test]
fn mismatched_verification_key_blocks_proving() {
    let mut restrictions = no_restrictions();
    restrictions.execute_restriction = Some("held back");
    let mut storage = storage_with_all();
    storage.prove_vk_hash = h(43);
    let op = aggregator().get_next_ready_operation(
        storage,
        hashes(),
        ProtocolVersionId { minor: 25 },
        vk(),
        restrictions,
    );
    // The proof is skipped; the commit is still eligible.
    assert!(matches!(op, Some(AggregatedOperation::Commit(..))));
}

#[test]
fn commit_needs_the_range_to_follow_the_last_committed_batch() {
    let mut restrictions = no_restrictions();
    restrictions.execute_restriction = Some("held back");
    restrictions.prove_restriction = Some("held back");
    let mut storage = storage_with_all();
    storage.ready_to_commit = vec![batch(12)];
    let op = aggregator().get_next_ready_operation(
        storage,
        hashes(),
        ProtocolVersionId { minor: 25 },
        vk(),
        restrictions,
    );
    assert!(op.is_none());
}
