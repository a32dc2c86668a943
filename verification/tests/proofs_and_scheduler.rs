//! Proof-submission validation, the scheduler job table, configuration
//! derivation, and the time conversions.

use sha3::Digest;

use sequencer_core::batch::L2ToL1Log;
use sequencer_core::config::{AllContractsConfig, EcosystemContracts, GatewayChainConfig, GatewayConfig};
use sequencer_core::proofs::{
    serialize_commitments, validate_submitted_proof, AggregationResultCoords, ProvedBatchData,
    SubmitProofError,
};
use sequencer_core::rpc::{MethodTracer, RpcServer, RpcState, ZksNamespace};
use sequencer_core::scheduler::{FriSchedulerWitnessGeneratorDal, WitnessJobStatus};
use sequencer_core::time::{duration_as_microseconds, duration_to_hms, duration_to_naive_time};
use sequencer_core::types::{Address, H256, ProtocolVersionId};

fn h(n: u8) -> H256 {
    H256 { bytes: [n; 32] }
}

fn addr(n: u8) -> Address {
    Address { bytes: [n; 20] }
}

fn state_diff_key() -> H256 {
    let mut bytes = [0u8; 32];
    bytes[31] = 2;
    H256 { bytes }
}

fn a_log(key: H256, value: H256) -> L2ToL1Log {
    L2ToL1Log {
        shard_id: 0,
        is_service: true,
        tx_number_in_block: 1,
        sender: addr(3),
        key,
        value,
    }
}

fn proved_batch(version: u16) -> ProvedBatchData {
    ProvedBatchData {
        protocol_version: ProtocolVersionId { minor: version },
        system_logs: vec![a_log(h(9), h(10)), a_log(state_diff_key(), h(77))],
        events_queue_commitment: Some(h(20)),
        bootloader_initial_content_commitment: Some(h(21)),
        state_diff_hash: Some(h(66)),
    }
}

fn coords_for(batch: &ProvedBatchData, state_diff: H256) -> AggregationResultCoords {
    let serialized = serialize_commitments(&batch.system_logs);
    let digest = sha3::Keccak256::digest(&serialized);
    let mut hash_bytes = [0u8; 32];
    hash_bytes.copy_from_slice(&digest);
    AggregationResultCoords {
        system_logs_hash: H256 { bytes: hash_bytes },
        state_diff_hash: state_diff,
        bootloader_heap_initial_content: h(21),
        events_queue_state: h(20),
    }
}

#[test]
fn matching_proof_is_accepted() {
    // Pre-gateway: the state diff comes from the system log with the
    // dedicated key.
    let batch = proved_batch(25);
    let coords = coords_for(&batch, h(77));
    assert_eq!(validate_submitted_proof(&batch, &coords), Ok(()));

    // Post-gateway: it comes from the metadata instead.
    let batch = proved_batch(26);
    let coords = coords_for(&batch, h(66));
    assert_eq!(validate_submitted_proof(&batch, &coords), Ok(()));
}

#[test]
fn auxiliary_output_mismatch_is_refused() {
    let batch = proved_batch(25);
    let mut coords = coords_for(&batch, h(77));
    coords.events_queue_state = h(99);
    assert_eq!(
        validate_submitted_proof(&batch, &coords),
        Err(SubmitProofError::AuxiliaryOutputMismatch)
    );
}

#[test]
fn wrong_hashes_are_refused() {
    let batch = proved_batch(25);
    // A wrong state diff.
    let coords = coords_for(&batch, h(78));
    assert_eq!(validate_submitted_proof(&batch, &coords), Err(SubmitProofError::HashMismatch));

    // A wrong system-logs hash: the serialization feeding the digest matters.
    let mut coords = coords_for(&batch, h(77));
    coords.system_logs_hash = h(1);
    assert_eq!(validate_submitted_proof(&batch, &coords), Err(SubmitProofError::HashMismatch));
}

#[test]
fn missing_stored_values_are_integrity_errors() {
    let mut batch = proved_batch(25);
    batch.events_queue_commitment = None;
    let coords = coords_for(&proved_batch(25), h(77));
    assert_eq!(
        validate_submitted_proof(&batch, &coords),
        Err(SubmitProofError::MissingEventsQueueCommitment)
    );

    let mut batch = proved_batch(25);
    batch.bootloader_initial_content_commitment = None;
    assert_eq!(
        validate_submitted_proof(&batch, &coords),
        Err(SubmitProofError::MissingBootloaderHeapCommitment)
    );

    // Pre-gateway without the state-diff log.
    let mut batch = proved_batch(25);
    batch.system_logs = vec![a_log(h(9), h(10))];
    let coords = coords_for(&batch, h(77));
    assert_eq!(
        validate_submitted_proof(&batch, &coords),
        Err(SubmitProofError::MissingStateDiffHash)
    );
}

fn job_table() -> FriSchedulerWitnessGeneratorDal {
    let mut dal = FriSchedulerWitnessGeneratorDal::new();
    dal.insert_scheduler_aggregation_jobs(100, 1, vec![b'a'], 25, 0, 10);
    dal.insert_scheduler_aggregation_jobs(101, 1, vec![b'b'], 25, 0, 11);
    dal
}

#[test]
fn insert_conflicts_on_the_batch_number_alone() {
    let mut dal = job_table();
    // The same batch number on another chain hits the conflict clause: no
    // new row appears, only the existing row's update time moves.
    dal.insert_scheduler_aggregation_jobs(100, 2, vec![b'c'], 25, 0, 99);
    assert_eq!(dal.jobs.len(), 2);
    assert_eq!(dal.jobs[0].chain_id, 1);
    assert_eq!(dal.jobs[0].updated_at, 99);
}

#[test]
fn waiting_jobs_queue_once_their_proofs_are_in() {
    let mut dal = job_table();
    let moved = dal.move_scheduler_jobs_from_waiting_to_queued(&vec![(1, 100)]);
    assert_eq!(moved, vec![(1, 100)]);
    assert_eq!(dal.jobs[0].status, WitnessJobStatus::Queued);
    assert_eq!(dal.jobs[1].status, WitnessJobStatus::WaitingForProofs);
}

#[test]
fn next_job_selection_prefers_priority_then_age() {
    let mut dal = job_table();
    dal.move_scheduler_jobs_from_waiting_to_queued(&vec![(1, 100), (1, 101)]);
    // Same priority: the older row (created earlier) wins.
    let picked = dal.get_next_scheduler_witness_job(25, 0, 7, 50);
    assert_eq!(picked, Some((1, 100)));
    assert_eq!(dal.jobs[0].status, WitnessJobStatus::InProgress);
    assert_eq!(dal.jobs[0].attempts, 1);
    assert_eq!(dal.jobs[0].picked_by, Some(7));

    let picked = dal.get_next_scheduler_witness_job(25, 0, 7, 51);
    assert_eq!(picked, Some((1, 101)));
    // Nothing queued is left.
    assert_eq!(dal.get_next_scheduler_witness_job(25, 0, 7, 52), None);
}

#[test]
fn stuck_jobs_requeue_with_a_priority_bump() {
    let mut dal = job_table();
    dal.move_scheduler_jobs_from_waiting_to_queued(&vec![(1, 100)]);
    dal.get_next_scheduler_witness_job(25, 0, 7, 50);

    // Not yet timed out.
    let stuck = dal.requeue_stuck_scheduler_jobs(100, 5, 100);
    assert!(stuck.is_empty());

    // Past the timeout the job requeues with a higher priority; the result
    // reads as the updated row, keeping the picker.
    let stuck = dal.requeue_stuck_scheduler_jobs(100, 5, 200);
    assert_eq!(stuck.len(), 1);
    assert_eq!(stuck[0].id, 100);
    assert_eq!(stuck[0].chain_id, 1);
    assert_eq!(stuck[0].status, WitnessJobStatus::Queued);
    assert_eq!(stuck[0].attempts, 1);
    assert_eq!(stuck[0].picked_by, Some(7));
    assert!(stuck[0].error.is_none());
    assert_eq!(dal.jobs[0].status, WitnessJobStatus::Queued);
    assert_eq!(dal.jobs[0].priority, 1);
}

#[test]
fn successful_jobs_count_out_of_the_exhausted() {
    let mut dal = job_table();
    dal.move_scheduler_jobs_from_waiting_to_queued(&vec![(1, 100)]);
    dal.get_next_scheduler_witness_job(25, 0, 7, 50);
    dal.mark_scheduler_job_as_successful(100, 1, 1234, 60);
    assert_eq!(dal.jobs[0].status, WitnessJobStatus::Successful);
    assert_eq!(dal.jobs[0].time_taken_ms, Some(1234));

    // With a ceiling of one attempt, the finished job does not count.
    assert_eq!(dal.check_reached_max_attempts(1), 0);

    let found = dal
        .get_scheduler_witness_generator_jobs_for_batch(100, 1)
        .expect("the job must exist");
    assert_eq!(found.status, WitnessJobStatus::Successful);
    assert!(dal.get_scheduler_witness_generator_jobs_for_batch(100, 2).is_none());
}

#[test]
fn per_batch_requeue_rescues_exhausted_jobs() {
    let mut dal = job_table();
    dal.move_scheduler_jobs_from_waiting_to_queued(&vec![(1, 100)]);
    dal.get_next_scheduler_witness_job(25, 0, 7, 50);
    // One attempt used; a ceiling of one makes the in-progress job stuck.
    let stuck = dal.requeue_stuck_scheduler_jobs_for_batch(100, 1, 1, 70);
    assert_eq!(stuck.len(), 1);
    assert_eq!(dal.jobs[0].status, WitnessJobStatus::Queued);
}

#[test]
fn gateway_chain_config_derivations() {
    let gateway = GatewayConfig {
        state_transition_proxy_addr: addr(1),
        verifier_addr: addr(2),
        validator_timelock_addr: addr(3),
        multicall3_addr: addr(4),
    };
    let config = GatewayChainConfig::from_gateway_and_chain_data(&gateway, addr(5), addr(6), 500);
    assert_eq!(config.state_transition_proxy_addr, Some(addr(1)));
    assert_eq!(config.validator_timelock_addr, Some(addr(3)));
    assert_eq!(config.multicall3_addr, addr(4));
    assert_eq!(config.diamond_proxy_addr, addr(5));
    assert_eq!(config.chain_admin_addr, addr(6));
    assert_eq!(config.gateway_chain_id, 500);
    assert!(config.server_notifier.is_none());

    let contracts = AllContractsConfig {
        ecosystem_contracts: Some(EcosystemContracts {
            state_transition_proxy_addr: Some(addr(7)),
        }),
        validator_timelock_addr: addr(8),
        l1_multicall3_addr: addr(9),
        diamond_proxy_addr: addr(10),
        chain_admin_addr: addr(11),
    };
    let config = GatewayChainConfig::from_contracts_and_chain_id(contracts, 501);
    assert_eq!(config.state_transition_proxy_addr, Some(addr(7)));
    assert_eq!(config.validator_timelock_addr, Some(addr(8)));
    assert_eq!(config.gateway_chain_id, 501);
}

#[test]
fn rpc_handles_carry_their_state() {
    let state = RpcState {
        chain_id: 270,
        current_method: MethodTracer { observed_calls: 3 },
    };
    let ns = ZksNamespace::new(state);
    assert_eq!(ns.current_method().observed_calls, 3);
    let server = RpcServer::new(3051);
    assert_eq!(server.ws_port, 3051);
}

#[test]
fn durations_convert_to_time_of_day_and_microseconds() {
    assert_eq!(duration_to_hms(3_722), (1, 2, 2));
    assert_eq!(
        duration_to_naive_time(3_722),
        chrono::NaiveTime::from_hms_opt(1, 2, 2).unwrap()
    );
    assert_eq!(duration_as_microseconds(1, 2_500), 1_000_002);
    assert_eq!(duration_as_microseconds(0, 999), 0);
}
