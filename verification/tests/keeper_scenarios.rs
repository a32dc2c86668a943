//! End-to-end runs of the state keeper over the scripted I/O and the toy VM.

use sequencer_core::seal::{ResourceBound, SealCriteriaConfig, SequencerSealer};
use sequencer_core::sim::{SimExecutorFactory, SimIo, SimOutputHandler};
use sequencer_core::types::{BaseSystemContractsHashes, H256, ProtocolVersionId};
use sequencer_core::io::SealEvent;
use sequencer_core::types::PubdataSendingMode;
use sequencer_core::updates::{IoCursor, L1BatchParams, L2BlockParams, PubdataParams, Transaction};
use sequencer_core::keeper::ZkSyncStateKeeper;

fn pair(e: &SealEvent) -> (u64, u64) {
    match e {
        SealEvent::Block { batch, block } => (*batch, *block),
        SealEvent::Batch { batch, block } => (*batch, *block),
    }
}

fn h(n: u8) -> H256 {
    H256 { bytes: [n; 32] }
}

fn contracts() -> BaseSystemContractsHashes {
    BaseSystemContractsHashes {
        bootloader: h(1),
        default_aa: h(2),
        evm_emulator: None,
    }
}

fn loose_sealer() -> SequencerSealer {
    let bound = ResourceBound {
        limit: 1_000_000_000,
        close_bound: 1_000_000_000,
    };
    SequencerSealer::new(SealCriteriaConfig {
        gas: bound,
        pubdata: bound,
        tx_encoding_size: bound,
        storage_writes: bound,
        transaction_slots: 1000,
    })
}

fn tx(hash: u64, initiator: u64, encoding_len: u64) -> Transaction {
    Transaction {
        hash,
        initiator,
        is_l1: false,
        is_protocol_upgrade: false,
        encoding_len,
    }
}

fn base_io() -> SimIo {
    SimIo {
        chain: 270,
        fuel_left: 40,
        start_cursor: IoCursor {
            l1_batch: 10,
            next_l2_block: 100,
            prev_l2_block_timestamp: 999,
        },
        pending: None,
        batch_params: vec![L1BatchParams {
            protocol_version: ProtocolVersionId { minor: 25 },
            timestamp: 1_000,
            fee_input: 7,
            first_l2_block: L2BlockParams {
                timestamp: 1_000,
                virtual_blocks: 1,
            },
            pubdata_params: PubdataParams {
                pubdata_type: PubdataSendingMode::Blobs,
            },
        }],
        next_batch_param: 0,
        block_params: vec![
            L2BlockParams {
                timestamp: 1_001,
                virtual_blocks: 1,
            },
            L2BlockParams {
                timestamp: 1_002,
                virtual_blocks: 1,
            },
        ],
        next_block_param: 0,
        txs: vec![],
        next_tx: 0,
        prev_batch_version: ProtocolVersionId { minor: 25 },
        upgrade_txs: vec![],
        contracts: contracts(),
        state_hash: 77,
        seal_batch_after_txs: 2,
        seal_block_after_txs: u64::MAX,
        rolled_back: vec![],
        rejected: vec![],
    }
}

fn run_keeper(
    io: SimIo,
) -> (
    Result<(), sequencer_core::exec::FatalError>,
    ZkSyncStateKeeper<SimIo, sequencer_core::sim::SimBatchExecutor, SimExecutorFactory, SimOutputHandler>,
) {
    let mut keeper = ZkSyncStateKeeper::new(
        io,
        SimExecutorFactory { next_base: 0 },
        SimOutputHandler::new(),
        loose_sealer(),
    );
    let result = keeper.run();
    (result, keeper)
}

#[test]
fn steady_state_batch_sealing() {
    let mut io = base_io();
    io.txs = vec![tx(101, 0, 1024), tx(102, 0, 512)];
    let (result, keeper) = run_keeper(io);
    assert!(result.is_ok());

    // One sealed batch, holding both transactions, ending on the fictive
    // freshly opened block.
    assert_eq!(keeper.output_handler.batches.len(), 1);
    let batch = keeper.output_handler.batches[0];
    assert_eq!(batch.number, 10);
    assert_eq!(batch.tx_count, 2);
    assert_eq!(batch.last_block, 101);
    // The non-fictive block goes to the block handler, the batch seal to the
    // batch handler, anchored at the cursor the run started from.
    assert_eq!(
        keeper.output_handler.sealed_log,
        vec![
            SealEvent::Block { batch: 10, block: 100 },
            SealEvent::Batch { batch: 10, block: 101 },
        ]
    );
    assert!(keeper.io.rolled_back.is_empty());
    assert!(keeper.io.rejected.is_empty());
}

#[test]
fn seal_record_grows_lexicographically() {
    let mut io = base_io();
    io.fuel_left = 60;
    io.txs = vec![tx(1, 0, 8), tx(2, 0, 8), tx(3, 0, 8), tx(4, 0, 8)];
    io.batch_params.push(L1BatchParams {
        protocol_version: ProtocolVersionId { minor: 25 },
        timestamp: 2_000,
        fee_input: 7,
        first_l2_block: L2BlockParams {
            timestamp: 2_000,
            virtual_blocks: 1,
        },
        pubdata_params: PubdataParams {
            pubdata_type: PubdataSendingMode::Blobs,
        },
    });
    io.block_params.push(L2BlockParams {
        timestamp: 2_001,
        virtual_blocks: 1,
    });
    io.block_params.push(L2BlockParams {
        timestamp: 2_002,
        virtual_blocks: 1,
    });
    let (result, keeper) = run_keeper(io);
    assert!(result.is_ok());
    let log = &keeper.output_handler.sealed_log;
    assert!(log.len() >= 2);
    // The first seal carries the initial cursor.
    assert_eq!(pair(&log[0]), (10, 100));
    for w in log.windows(2) {
        let (a, b) = (pair(&w[0]), pair(&w[1]));
        // Strict lexicographic growth with no gaps: blocks advance by one,
        // batches by at most one.
        assert_eq!(b.1, a.1 + 1);
        assert!(b.0 == a.0 || b.0 == a.0 + 1);
    }
    // Once a batch went to the batch handler, everything later belongs to a
    // later batch, so batches are handed over in order.
    for (i, e) in log.iter().enumerate() {
        if let SealEvent::Batch { batch, .. } = e {
            for later in &log[i + 1..] {
                assert!(pair(later).0 > *batch);
            }
        }
    }
}

#[test]
fn excluded_tx_is_rolled_back_and_batch_seals() {
    let mut io = base_io();
    io.seal_batch_after_txs = 100;
    io.txs = vec![tx(201, 0, 64), tx(202, 1, 64)];
    let (result, keeper) = run_keeper(io);
    assert!(result.is_ok());

    assert_eq!(keeper.io.rolled_back.len(), 1);
    assert_eq!(keeper.io.rolled_back[0].hash, 202);
    assert!(keeper.io.rejected.is_empty());
    assert_eq!(keeper.output_handler.batches.len(), 1);
    assert_eq!(keeper.output_handler.batches[0].tx_count, 1);
}

#[test]
fn unexecutable_first_tx_is_rejected_without_seal() {
    let mut io = base_io();
    io.fuel_left = 12;
    io.seal_batch_after_txs = 100;
    io.txs = vec![tx(301, 2, 64)];
    let (result, keeper) = run_keeper(io);
    assert!(result.is_ok());

    assert_eq!(keeper.io.rejected.len(), 1);
    assert_eq!(keeper.io.rejected[0].0.hash, 301);
    assert_eq!(
        keeper.io.rejected[0].1,
        sequencer_core::seal::UnexecutableReason::NotEnoughGasProvided
    );
    assert!(keeper.io.rolled_back.is_empty());
    assert!(keeper.output_handler.batches.is_empty());
    assert!(keeper.output_handler.sealed_log.is_empty());
}

#[test]
fn upgrade_tx_runs_first_in_the_batch() {
    let mut io = base_io();
    io.prev_batch_version = ProtocolVersionId { minor: 24 };
    io.upgrade_txs = vec![(
        25,
        Transaction {
            hash: 900,
            initiator: 0,
            is_l1: true,
            is_protocol_upgrade: true,
            encoding_len: 32,
        },
    )];
    io.txs = vec![tx(401, 0, 64)];
    let (result, keeper) = run_keeper(io);
    assert!(result.is_ok());

    assert_eq!(keeper.output_handler.batches.len(), 1);
    // The upgrade transaction and the user transaction both sit in batch 10.
    assert_eq!(keeper.output_handler.batches[0].tx_count, 2);
}

#[test]
fn failed_upgrade_tx_is_fatal() {
    let mut io = base_io();
    io.prev_batch_version = ProtocolVersionId { minor: 24 };
    io.upgrade_txs = vec![(
        25,
        Transaction {
            hash: 901,
            initiator: 4,
            is_l1: true,
            is_protocol_upgrade: true,
            encoding_len: 32,
        },
    )];
    let (result, _keeper) = run_keeper(io);
    assert!(result.is_err());
}

#[test]
fn resumed_batch_replays_pending_blocks() {
    let mut io = base_io();
    io.seal_batch_after_txs = 3;
    let pending_txs = vec![tx(11, 0, 8), tx(12, 0, 8)];
    io.start_cursor = IoCursor {
        l1_batch: 10,
        next_l2_block: 102,
        prev_l2_block_timestamp: 1_001,
    };
    io.pending = Some(sequencer_core::io::PendingBatchData {
        l1_batch_env: sequencer_core::updates::L1BatchEnv {
            number: 10,
            timestamp: 1_000,
            fee_input: 7,
            previous_batch_hash: 5,
            first_l2_block: sequencer_core::updates::L2BlockEnv {
                number: 100,
                timestamp: 1_000,
                virtual_blocks: 1,
            },
        },
        system_env: sequencer_core::updates::SystemEnv {
            version: ProtocolVersionId { minor: 25 },
            chain_id: 270,
            contracts: contracts(),
        },
        pubdata_params: sequencer_core::updates::PubdataParams {
            pubdata_type: sequencer_core::types::PubdataSendingMode::Blobs,
        },
        pending_l2_blocks: vec![
            sequencer_core::updates::L2BlockExecutionData {
                number: 100,
                timestamp: 1_000,
                virtual_blocks: 1,
                txs: vec![pending_txs[0]],
            },
            sequencer_core::updates::L2BlockExecutionData {
                number: 101,
                timestamp: 1_001,
                virtual_blocks: 1,
                txs: vec![pending_txs[1]],
            },
        ],
    });
    io.txs = vec![tx(13, 0, 8)];
    let (result, keeper) = run_keeper(io);
    assert!(result.is_ok());

    // The two replayed transactions and the fresh one seal batch 10.
    assert_eq!(keeper.output_handler.batches.len(), 1);
    assert_eq!(keeper.output_handler.batches[0].number, 10);
    assert_eq!(keeper.output_handler.batches[0].tx_count, 3);
}
