//! The seal-resolution join and the storage-writes deduplicator on concrete
//! values.

use sequencer_core::dedup::{StorageLog, StorageWritesDeduplicator};
use sequencer_core::seal::{
    DeduplicatedWritesMetrics, ExecutionMetrics, ResourceBound, SealCriteriaConfig, SealData,
    SealResolution, SequencerSealer, UnexecutableReason,
};
use sequencer_core::types::ProtocolVersionId;

#[test]
fn join_prefers_the_higher_rank() {
    let no = SealResolution::NoSeal;
    let inc = SealResolution::IncludeAndSeal;
    let exc = SealResolution::ExcludeAndSeal;
    let un = SealResolution::Unexecutable(UnexecutableReason::TooMuchGas);

    assert_eq!(no.join(inc), inc);
    assert_eq!(inc.join(no), inc);
    assert_eq!(inc.join(exc), exc);
    assert_eq!(exc.join(un), un);
    // Identity.
    assert_eq!(un.join(no), un);
    assert_eq!(no.join(no), no);
    // Associativity on a concrete triple.
    assert_eq!(no.join(inc).join(exc), no.join(inc.join(exc)));
    // Commutativity on a concrete pair of different ranks.
    assert_eq!(inc.join(exc), exc.join(inc));
}

#[test]
fn should_seal_marks_the_sealing_verdicts() {
    assert!(!SealResolution::NoSeal.should_seal());
    assert!(SealResolution::IncludeAndSeal.should_seal());
    assert!(SealResolution::ExcludeAndSeal.should_seal());
    assert!(!SealResolution::Unexecutable(UnexecutableReason::TooMuchGas).should_seal());
}

fn config() -> SealCriteriaConfig {
    SealCriteriaConfig {
        gas: ResourceBound { limit: 1_000, close_bound: 900 },
        pubdata: ResourceBound { limit: 500, close_bound: 450 },
        tx_encoding_size: ResourceBound { limit: 2_000, close_bound: 1_800 },
        storage_writes: ResourceBound { limit: 100, close_bound: 90 },
        transaction_slots: 10,
    }
}

fn data(gas: u64, pubdata: u64, size: u64, writes: u64) -> SealData {
    SealData {
        execution_metrics: ExecutionMetrics {
            computational_gas_used: gas,
            pubdata_published: pubdata,
            l2_to_l1_logs: 0,
        },
        cumulative_size: size,
        writes_metrics: DeduplicatedWritesMetrics {
            initial_storage_writes: writes,
            repeated_storage_writes: 0,
        },
        gas_remaining: 1_000_000,
    }
}

#[test]
fn sealer_lets_a_small_tx_pass() {
    let sealer = SequencerSealer::new(config());
    let r = sealer.should_seal_l1_batch(
        1,
        1_000_000,
        1,
        0,
        &data(100, 10, 50, 1),
        &data(100, 10, 50, 1),
        ProtocolVersionId { minor: 25 },
    );
    assert_eq!(r, SealResolution::NoSeal);
}

#[test]
fn sealer_closes_a_nearly_full_batch() {
    let sealer = SequencerSealer::new(config());
    // Block gas 950 sits between the close bound 900 and the limit 1000.
    let r = sealer.should_seal_l1_batch(
        1,
        1_000_000,
        5,
        0,
        &data(950, 10, 50, 1),
        &data(100, 10, 50, 1),
        ProtocolVersionId { minor: 25 },
    );
    assert_eq!(r, SealResolution::IncludeAndSeal);
}

#[test]
fn sealer_sheds_a_tx_that_overflows_the_batch() {
    let sealer = SequencerSealer::new(config());
    let r = sealer.should_seal_l1_batch(
        1,
        1_000_000,
        5,
        0,
        &data(1_200, 10, 50, 1),
        &data(600, 10, 50, 1),
        ProtocolVersionId { minor: 25 },
    );
    assert_eq!(r, SealResolution::ExcludeAndSeal);
}

#[test]
fn sealer_rejects_an_oversized_tx() {
    let sealer = SequencerSealer::new(config());
    let r = sealer.should_seal_l1_batch(
        1,
        1_000_000,
        1,
        0,
        &data(1_200, 10, 50, 1),
        &data(1_200, 10, 50, 1),
        ProtocolVersionId { minor: 25 },
    );
    assert_eq!(r, SealResolution::Unexecutable(UnexecutableReason::TooMuchGas));
}

#[test]
fn sealer_fills_every_slot() {
    let sealer = SequencerSealer::new(config());
    let r = sealer.should_seal_l1_batch(
        1,
        1_000_000,
        10,
        0,
        &data(100, 10, 50, 1),
        &data(100, 10, 50, 1),
        ProtocolVersionId { minor: 25 },
    );
    assert_eq!(r, SealResolution::IncludeAndSeal);
}

fn log(key: u64, value: u64) -> StorageLog {
    StorageLog { key, value }
}

#[test]
fn dedup_counts_initial_and_repeated_writes() {
    let mut dedup = StorageWritesDeduplicator::new();
    let metrics = dedup.apply(&vec![log(1, 10), log(2, 20), log(1, 30)]);
    assert_eq!(metrics.initial_storage_writes, 2);
    assert_eq!(metrics.repeated_storage_writes, 1);

    // A later write to a known slot is repeated.
    let metrics = dedup.apply(&vec![log(2, 40)]);
    assert_eq!(metrics.initial_storage_writes, 2);
    assert_eq!(metrics.repeated_storage_writes, 2);
}

#[test]
fn apply_and_rollback_leaves_no_residue() {
    let mut dedup = StorageWritesDeduplicator::new();
    dedup.apply(&vec![log(1, 10)]);
    let before = dedup.metrics();

    let probe = dedup.apply_and_rollback(&vec![log(1, 11), log(2, 22), log(3, 33)]);
    assert_eq!(probe.initial_storage_writes, 3);
    assert_eq!(probe.repeated_storage_writes, 1);

    // The deduplicator stands exactly as before the probe.
    assert_eq!(dedup.metrics(), before);
    let after = dedup.apply(&vec![log(2, 22)]);
    assert_eq!(after.initial_storage_writes, 2);
    assert_eq!(after.repeated_storage_writes, 0);
}

#[test]
fn apply_on_empty_state_measures_the_logs_alone() {
    let metrics = StorageWritesDeduplicator::apply_on_empty_state(&vec![
        log(7, 1),
        log(7, 2),
        log(8, 3),
    ]);
    assert_eq!(metrics.initial_storage_writes, 2);
    assert_eq!(metrics.repeated_storage_writes, 1);
}
