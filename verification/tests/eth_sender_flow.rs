//! The transaction aggregator: nonce discipline, restrictions in the loop,
//! gateway status, and blob sidecars.

use sha2::Digest;

use sequencer_core::aggregator::{Aggregator, AggregatorConfig, AggregatorStorageView};
use sequencer_core::batch::{L1BatchWithMetadata, StoredBatchInfo};
use sequencer_core::blob::{build_blob_sidecar, ZK_SYNC_BYTES_PER_BLOB};
use sequencer_core::encoder::{AggregatedOperation, ExecuteBatches, ProveBatches};
use sequencer_core::eth_sender::{
    compute_restrictions, gateway_status, is_pending_gateway_upgrade, EthTxAggregator, EthTxStore,
    SenderConfig, TickInputs,
};
use sequencer_core::multicall::{Token, ZkSyncFunctions};
use sequencer_core::types::{
    Address, AggregatedActionType, GatewayMigrationState, H256, L1BatchCommitmentMode,
    ProtocolVersionId, PubdataSendingMode,
};

fn h(n: u8) -> H256 {
    H256 { bytes: [n; 32] }
}

fn addr(n: u8) -> Address {
    Address { bytes: [n; 20] }
}

fn functions() -> ZkSyncFunctions {
    ZkSyncFunctions {
        get_l2_bootloader_bytecode_hash: vec![1, 1, 1, 1],
        get_l2_default_account_bytecode_hash: vec![2, 2, 2, 2],
        get_evm_emulator_bytecode_hash: None,
        get_verifier_params: vec![4, 4, 4, 4],
        get_verifier: vec![5, 5, 5, 5],
        get_protocol_version: vec![6, 6, 6, 6],
        stm_protocol_version: vec![7, 7, 7, 7],
        stm_validator_timelock: vec![8, 8, 8, 8],
        post_shared_bridge_commit: vec![10, 0, 0, 1],
        post_gateway_commit: vec![10, 0, 0, 2],
        post_shared_bridge_prove: vec![10, 0, 0, 3],
        post_gateway_prove: vec![10, 0, 0, 4],
        post_shared_bridge_execute: vec![10, 0, 0, 5],
        post_gateway_execute: vec![10, 0, 0, 6],
    }
}

fn sender_config() -> SenderConfig {
    SenderConfig {
        tx_aggregation_only_prove_and_execute: false,
        tx_aggregation_paused: false,
        is_verifier_pre_fflonk: true,
    }
}

fn tx_aggregator(pubdata_da: PubdataSendingMode, mode: L1BatchCommitmentMode) -> EthTxAggregator {
    EthTxAggregator {
        aggregator: Aggregator::new(
            AggregatorConfig {
                max_aggregated_blocks_to_commit: 10,
                max_aggregated_blocks_to_prove: 10,
                max_aggregated_blocks_to_execute: 10,
            },
            mode,
            pubdata_da,
        ),
        config: sender_config(),
        config_timelock_contract_address: addr(11),
        l1_multicall3_address: addr(12),
        state_transition_chain_contract: addr(13),
        state_transition_manager_address: addr(14),
        functions: functions(),
        base_nonce: 5,
        base_nonce_custom_commit_sender: None,
        rollup_chain_id: 270,
        custom_commit_sender_addr: None,
        gateway_migration_state: GatewayMigrationState::Not,
        sl_chain_id: 1,
    }
}

fn stored(n: u64) -> StoredBatchInfo {
    StoredBatchInfo {
        batch_number: n,
        batch_hash: h(n as u8),
        index_repeated_storage_changes: 0,
        number_of_layer1_txs: 0,
        priority_operations_hash: h(0),
        l2_logs_tree_root: h(0),
        timestamp: 0,
        commitment: h(0),
    }
}

fn batch(n: u64) -> L1BatchWithMetadata {
    L1BatchWithMetadata {
        number: n,
        timestamp: 0,
        protocol_version: ProtocolVersionId { minor: 25 },
        stored: stored(n),
        pubdata_input: None,
    }
}

fn execute_op(first: u64, last: u64) -> AggregatedOperation {
    let mut batches = vec![];
    let mut n = first;
    while n <= last {
        batches.push(batch(n));
        n += 1;
    }
    AggregatedOperation::Execute(ExecuteBatches {
        l1_batches: batches,
        priority_ops_proofs: vec![],
        logs: vec![],
        messages: vec![],
        message_roots: vec![],
    })
}

#[test]
fn successive_saves_hand_out_strictly_increasing_nonces() {
    let agg = tx_aggregator(PubdataSendingMode::Calldata, L1BatchCommitmentMode::Rollup);
    let mut store = EthTxStore::new();
    let kzg = vec![];

    let tx1 = agg
        .save_eth_tx(&mut store, execute_op(1, 1), addr(11), ProtocolVersionId { minor: 25 }, false, &kzg)
        .expect("save must succeed");
    let tx2 = agg
        .save_eth_tx(&mut store, execute_op(2, 2), addr(11), ProtocolVersionId { minor: 25 }, false, &kzg)
        .expect("save must succeed");
    let tx3 = agg
        .save_eth_tx(&mut store, execute_op(3, 3), addr(11), ProtocolVersionId { minor: 25 }, false, &kzg)
        .expect("save must succeed");

    // The first nonce starts at the settlement layer's base nonce, then the
    // queue strictly increments.
    assert_eq!(tx1.nonce, 5);
    assert_eq!(tx2.nonce, 6);
    assert_eq!(tx3.nonce, 7);
    assert!(tx1.nonce < tx2.nonce && tx2.nonce < tx3.nonce);
    assert_eq!(tx1.chain_id, Some(1));
    assert_eq!(tx1.tx_type, AggregatedActionType::Execute);
    // The execute gas heuristic covers the base plus one batch.
    assert_eq!(tx1.predicted_gas_cost, Some(210_000 + 30_000));
    // Each save binds its batch range to the stored transaction.
    assert_eq!(store.batch_bindings.len(), 3);
    assert_eq!(store.batch_bindings[0].first_batch, 1);
    assert_eq!(store.batch_bindings[0].last_batch, 1);
    assert_eq!(store.batch_bindings[0].eth_tx_id, tx1.id);
    assert_eq!(store.batch_bindings[2].first_batch, 3);
    // The sidecar stays with the stored row; the returned copy carries none.
    assert!(tx1.blob_sidecar.is_none());
}

fn ok_result(data: Vec<u8>) -> Token {
    Token::Tuple(vec![Token::Bool(true), Token::Bytes(data)])
}

fn word(value: u64) -> Vec<u8> {
    let mut out = vec![0u8; 24];
    out.extend_from_slice(&value.to_be_bytes());
    out
}

fn multicall_response() -> Token {
    Token::Array(vec![
        ok_result(vec![1; 32]),
        ok_result(vec![2; 32]),
        ok_result(vec![0; 64]),
        ok_result({
            let mut a = vec![0u8; 12];
            a.extend_from_slice(&[7u8; 20]);
            a
        }),
        ok_result(word(25)),
        ok_result(word(25)),
        ok_result({
            let mut a = vec![0u8; 12];
            a.extend_from_slice(&[8u8; 20]);
            a
        }),
    ])
}

fn tick(state: GatewayMigrationState, storage: AggregatorStorageView) -> TickInputs {
    TickInputs {
        gateway_migration_state: state,
        multicall_response: multicall_response(),
        snark_wrapper_vk_hash: h(42),
        fflonk_snark_wrapper_vk_hash: None,
        pending_protocol_version: ProtocolVersionId { minor: 25 },
        storage,
        kzg: vec![],
    }
}

fn commit_only_storage() -> AggregatorStorageView {
    AggregatorStorageView {
        last_committed_l1_batch: stored(9),
        ready_to_commit: vec![batch(10)],
        prove_candidate: None,
        prove_vk_hash: h(42),
        execute_candidate: None,
    }
}

#[test]
fn loop_iteration_saves_a_commit_when_nothing_restricts_it() {
    let mut agg = tx_aggregator(PubdataSendingMode::Calldata, L1BatchCommitmentMode::Rollup);
    let mut store = EthTxStore::new();
    let saved = agg
        .loop_iteration(&mut store, tick(GatewayMigrationState::Not, commit_only_storage()))
        .expect("iteration must succeed");
    let tx = saved.expect("a commit must be ready");
    assert_eq!(tx.tx_type, AggregatedActionType::Commit);
    // The agreed protocol versions select the manager's timelock.
    assert_eq!(tx.contract_address, addr(8));
    // The calldata opens with the pre-gateway commit selector.
    assert_eq!(&tx.calldata[0..4], &[10, 0, 0, 1]);
}

#[test]
fn started_migration_stops_commits_until_finalized() {
    let mut agg = tx_aggregator(PubdataSendingMode::Calldata, L1BatchCommitmentMode::Rollup);
    let mut store = EthTxStore::new();
    let saved = agg
        .loop_iteration(&mut store, tick(GatewayMigrationState::Started, commit_only_storage()))
        .expect("iteration must succeed");
    assert!(saved.is_none());

    // Prove and execute stay eligible while the migration is under way.
    let mut storage = commit_only_storage();
    storage.prove_candidate = Some(ProveBatches {
        prev_l1_batch: stored(9),
        l1_batches: vec![batch(10)],
        proof: vec![h(1)],
        should_verify: true,
    });
    let saved = agg
        .loop_iteration(&mut store, tick(GatewayMigrationState::Started, storage))
        .expect("iteration must succeed");
    let tx = saved.expect("the proof must be ready");
    assert_eq!(tx.tx_type, AggregatedActionType::PublishProofOnchain);

    // Once finalized, commits flow again.
    let saved = agg
        .loop_iteration(&mut store, tick(GatewayMigrationState::Finalized, commit_only_storage()))
        .expect("iteration must succeed");
    let tx = saved.expect("a commit must be ready");
    assert_eq!(tx.tx_type, AggregatedActionType::Commit);
    assert!(tx.is_gateway);
}

#[test]
fn restrictions_follow_the_configuration() {
    let config = sender_config();
    let v25 = ProtocolVersionId { minor: 25 };
    let v26 = ProtocolVersionId { minor: 26 };

    let r = compute_restrictions(&config, GatewayMigrationState::Not, v25, v25);
    assert!(r.commit_restriction.is_none());
    assert!(r.prove_restriction.is_none());
    assert!(r.execute_restriction.is_none());

    let r = compute_restrictions(&config, GatewayMigrationState::Started, v25, v25);
    assert!(r.commit_restriction.is_some());

    // A pending gateway upgrade holds back execution.
    let r = compute_restrictions(&config, GatewayMigrationState::Not, v26, v25);
    assert!(r.execute_restriction.is_some());
    assert!(is_pending_gateway_upgrade(v26, v25));
    assert!(!is_pending_gateway_upgrade(v25, v25));

    let mut paused = config;
    paused.tx_aggregation_paused = true;
    let r = compute_restrictions(&paused, GatewayMigrationState::Not, v25, v25);
    assert!(r.commit_restriction.is_some());
    assert!(r.prove_restriction.is_some());
    assert!(r.execute_restriction.is_some());
}

#[test]
fn gateway_status_reads_the_settlement_layer() {
    assert_eq!(gateway_status(&addr(1), 0), GatewayMigrationState::Finalized);
    assert_eq!(gateway_status(&Address::zero(), 3), GatewayMigrationState::Started);
    assert_eq!(gateway_status(&Address::zero(), 0), GatewayMigrationState::Not);
}

#[test]
fn blob_sidecar_versioned_hashes_cohere_with_the_digest() {
    let pubdata = vec![7u8; ZK_SYNC_BYTES_PER_BLOB + 5];
    let kzg = vec![
        (vec![1u8; 48], vec![2u8; 48]),
        (vec![3u8; 48], vec![4u8; 48]),
    ];
    let sidecar = build_blob_sidecar(&pubdata, &kzg).expect("two blobs must build");
    assert_eq!(sidecar.blobs.len(), 2);
    for (blob, (commitment, proof)) in sidecar.blobs.iter().zip(kzg.iter()) {
        assert_eq!(blob.blob.len(), ZK_SYNC_BYTES_PER_BLOB);
        assert_eq!(&blob.commitment, commitment);
        assert_eq!(&blob.proof, proof);
        // The versioned hash is the SHA-256 of the commitment with its first
        // byte overridden by the KZG version tag.
        let mut expected = sha2::Sha256::digest(commitment).to_vec();
        expected[0] = 1;
        assert_eq!(blob.versioned_hash, expected);
        assert_ne!(blob.versioned_hash, *commitment);
    }
    // The second chunk is the zero-padded tail of the pubdata.
    assert_eq!(&sidecar.blobs[1].blob[0..5], &[7u8; 5]);
    assert!(sidecar.blobs[1].blob[5..].iter().all(|b| *b == 0));

    // A wrong number of KZG artifacts is refused.
    assert!(build_blob_sidecar(&pubdata, &vec![(vec![1u8; 48], vec![2u8; 48])]).is_err());
}

#[test]
fn blob_mode_commit_without_pubdata_is_fatal() {
    let agg = tx_aggregator(PubdataSendingMode::Blobs, L1BatchCommitmentMode::Rollup);
    let op = AggregatedOperation::Commit(stored(9), vec![batch(10)], PubdataSendingMode::Blobs);
    let r = agg.encode_aggregated_op(&op, ProtocolVersionId { minor: 25 }, &vec![]);
    assert!(r.is_err());

    // With the pubdata present the sidecar is attached.
    let mut b = batch(10);
    b.pubdata_input = Some(vec![9u8; 100]);
    let op = AggregatedOperation::Commit(stored(9), vec![b], PubdataSendingMode::Blobs);
    let kzg = vec![(vec![1u8; 48], vec![2u8; 48])];
    let data = agg
        .encode_aggregated_op(&op, ProtocolVersionId { minor: 25 }, &kzg)
        .expect("commit must encode");
    assert!(data.sidecar.is_some());
}

#[test]
fn validium_commit_gets_the_gas_heuristic() {
    let agg = tx_aggregator(PubdataSendingMode::Calldata, L1BatchCommitmentMode::Validium);
    let mut store = EthTxStore::new();
    let op = AggregatedOperation::Commit(stored(9), vec![batch(10), batch(11)], PubdataSendingMode::Calldata);
    let tx = agg
        .save_eth_tx(&mut store, op, addr(11), ProtocolVersionId { minor: 25 }, false, &vec![])
        .expect("save must succeed");
    assert_eq!(tx.predicted_gas_cost, Some(242_000 + 2 * 31_000));
}
