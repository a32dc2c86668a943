//! Verified core of a zk-rollup sequencer node.
//!
//! The crate covers the block/batch sequencing loop (the state keeper), the
//! seal-decision logic, the deduplication of storage writes, the aggregation
//! of sealed batches into on-chain operations, the protocol-versioned calldata
//! encoders with their blob sidecars, the multicall pre-flight parsing, the
//! outbound transaction queue with its nonce discipline, the proof-submission
//! validation, and the scheduler job table of the proof pipeline.

pub mod abi;
pub mod aggregator;
pub mod batch;
pub mod blob;
pub mod config;
pub mod dedup;
pub mod encoder;
pub mod eth_sender;
pub mod exec;
pub mod io;
pub mod keeper;
pub mod multicall;
pub mod proofs;
pub mod rpc;
pub mod scheduler;
pub mod seal;
pub mod sim;
pub mod time;
pub mod types;
pub mod updates;
