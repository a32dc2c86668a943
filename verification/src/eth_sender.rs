//! The transaction aggregator: it turns ready operations into encoded
//! outbound transactions and appends them to the durable queue, allocating
//! strictly increasing nonces per sender and settlement layer.

use vstd::prelude::*;

use crate::aggregator::{
    Aggregator, AggregatorStorageView, L1VerifierConfig, OperationSkippingRestrictions,
};
use crate::blob::{build_blob_sidecar, spec_blob_count, EthTxBlobSidecar};
use crate::encoder::{
    encode_commit_payload, encode_prove_payload, spec_batch_pubdata, spec_batch_stored_views,
    spec_enc_commit_payload, spec_enc_execute_payload, spec_enc_prove_payload,
    AggregatedOperation, CommitPayloadView, ProvePayloadView,
};
use crate::multicall::{
    parse_multicall_data, spec_parse_multicall, timelock_contract_address, EthSenderError, Token,
    ZkSyncFunctions,
};
use crate::types::{
    Address, AggregatedActionType, GatewayMigrationState, H256, L1BatchCommitmentMode,
    ProtocolVersionId, PubdataSendingMode, GATEWAY_VERSION,
};

verus! {

/// The verifier type used to probe for an fflonk verification key.
pub const FFLONK_VERIFIER_TYPE: u64 = 1;

/// Base gas the heuristic charges an execute transaction.
pub const AGGR_L1_BATCH_EXECUTE_BASE_COST: u64 = 210000;

/// Gas the heuristic charges per executed batch.
pub const L1_BATCH_EXECUTE_BASE_COST: u64 = 30000;

/// Base gas the heuristic charges a validium-mode commit transaction.
pub const AGGR_L1_BATCH_COMMIT_BASE_COST: u64 = 242000;

/// Gas the heuristic charges per committed batch in validium mode.
pub const L1_BATCH_COMMIT_BASE_COST: u64 = 31000;

/// A persisted outbound transaction. Rows are append-only; the nonce is
/// assigned at creation and never changes.
pub struct EthTx {
    pub id: u32,
    pub nonce: u64,
    pub calldata: Vec<u8>,
    pub tx_type: AggregatedActionType,
    pub contract_address: Address,
    pub predicted_gas_cost: Option<u64>,
    pub from_addr: Option<Address>,
    pub blob_sidecar: Option<EthTxBlobSidecar>,
    pub is_gateway: bool,
    pub chain_id: Option<u64>,
}

/// The nonce key of a transaction: its sender (the default operator when
/// absent) on its settlement layer.
pub open spec fn spec_tx_key(tx: EthTx) -> (Option<Seq<u8>>, bool) {
    (spec_opt_addr(tx.from_addr), tx.is_gateway)
}

pub open spec fn spec_opt_addr(a: Option<Address>) -> Option<Seq<u8>> {
    match a {
        Some(a) => Some(a.bytes@),
        None => None,
    }
}

/// One association of a batch range with the outbound transaction that
/// carries its operation.
#[derive(Clone, Copy, Debug, PartialEq, Eq, Structural)]
pub struct BatchBinding {
    pub first_batch: u64,
    pub last_batch: u64,
    pub tx_type: AggregatedActionType,
    pub eth_tx_id: u32,
}

/// The outbound transaction queue and the batch-range associations, modelled
/// as the append-only tables the persistence layer keeps.
pub struct EthTxStore {
    pub txs: Vec<EthTx>,
    pub batch_bindings: Vec<BatchBinding>,
}

/// The queue's invariant: per nonce key, nonces strictly increase in
/// insertion order, and never reach the final value.
pub open spec fn store_wf(s: EthTxStore) -> bool {
    &&& forall|i: int, j: int|
        0 <= i < j < s.txs@.len() && spec_tx_key(#[trigger] s.txs@[i]) == spec_tx_key(
            #[trigger] s.txs@[j],
        ) ==> s.txs@[i].nonce < s.txs@[j].nonce
    &&& forall|i: int| 0 <= i < s.txs@.len() ==> (#[trigger] s.txs@[i]).nonce < u64::MAX
}

/// The nonce the queue hands out next for a key: one above the latest
/// matching row, if any.
pub open spec fn spec_db_next_nonce(txs: Seq<EthTx>, key: (Option<Seq<u8>>, bool)) -> Option<u64>
    decreases txs.len(),
{
    if txs.len() == 0 {
        None
    } else if spec_tx_key(txs.last()) == key {
        Some((txs.last().nonce + 1) as u64)
    } else {
        spec_db_next_nonce(txs.drop_last(), key)
    }
}

/// Every matching row's nonce lies below the next nonce; no next nonce means
/// no matching row.
proof fn lemma_db_next_nonce_bound(txs: Seq<EthTx>, key: (Option<Seq<u8>>, bool))
    requires
        forall|i: int, j: int|
            0 <= i < j < txs.len() && spec_tx_key(#[trigger] txs[i]) == spec_tx_key(
                #[trigger] txs[j],
            ) ==> txs[i].nonce < txs[j].nonce,
        forall|i: int| 0 <= i < txs.len() ==> (#[trigger] txs[i]).nonce < u64::MAX,
    ensures
        spec_db_next_nonce(txs, key) matches Some(v) ==> forall|k: int|
            0 <= k < txs.len() && spec_tx_key(#[trigger] txs[k]) == key ==> txs[k].nonce < v,
        spec_db_next_nonce(txs, key) is None ==> forall|k: int|
            0 <= k < txs.len() ==> spec_tx_key(#[trigger] txs[k]) != key,
    decreases txs.len(),
{
    if txs.len() == 0 {
    } else {
        let prefix = txs.drop_last();
        assert forall|i: int, j: int|
            0 <= i < j < prefix.len() && spec_tx_key(#[trigger] prefix[i]) == spec_tx_key(
                #[trigger] prefix[j],
            ) implies prefix[i].nonce < prefix[j].nonce by {
            assert(prefix[i] == txs[i]);
            assert(prefix[j] == txs[j]);
        }
        assert forall|i: int| 0 <= i < prefix.len() implies (#[trigger] prefix[i]).nonce
            < u64::MAX by {
            assert(prefix[i] == txs[i]);
        }
        lemma_db_next_nonce_bound(prefix, key);
        if spec_tx_key(txs.last()) == key {
            let v = (txs.last().nonce + 1) as u64;
            assert forall|k: int|
                0 <= k < txs.len() && spec_tx_key(#[trigger] txs[k]) == key implies txs[k].nonce
                < v by {
                if k < txs.len() - 1 {
                    assert(txs[k].nonce < txs[txs.len() - 1].nonce);
                }
            }
        } else {
            match spec_db_next_nonce(prefix, key) {
                Some(v) => {
                    assert forall|k: int|
                        0 <= k < txs.len() && spec_tx_key(#[trigger] txs[k]) == key implies
                        txs[k].nonce < v by {
                        assert(k < txs.len() - 1);
                        assert(prefix[k] == txs[k]);
                        assert(spec_tx_key(prefix[k]) == key);
                    }
                },
                None => {
                    assert forall|k: int| 0 <= k < txs.len() implies spec_tx_key(
                        #[trigger] txs[k],
                    ) != key by {
                        if k < txs.len() - 1 {
                            assert(prefix[k] == txs[k]);
                            assert(spec_tx_key(prefix[k]) != key);
                        }
                    }
                },
            }
        }
    }
}

fn opt_addr_matches(a: &Option<Address>, b: &Option<Address>) -> (r: bool)
    ensures
        r == (spec_opt_addr(*a) == spec_opt_addr(*b)),
{
    match (a, b) {
        (Some(x), Some(y)) => x.eq_bytes(y),
        (None, None) => true,
        _ => {
            proof {
                assert(spec_opt_addr(*a) != spec_opt_addr(*b));
            }
            false
        },
    }
}

impl EthTxStore {
    pub fn new() -> (r: EthTxStore)
        ensures
            r.txs@ == Seq::<EthTx>::empty(),
            r.batch_bindings@ == Seq::<BatchBinding>::empty(),
            store_wf(r),
    {
        let r = EthTxStore { txs: Vec::new(), batch_bindings: Vec::new() };
        proof {
            assert(r.txs@ =~= Seq::<EthTx>::empty());
            assert(r.batch_bindings@ =~= Seq::<BatchBinding>::empty());
        }
        r
    }

    /// The next nonce the queue itself would hand out for the key, if it has
    /// seen the key at all.
    pub fn get_next_nonce(&self, from_addr: &Option<Address>, is_gateway: bool) -> (r: Option<u64>)
        requires
            store_wf(*self),
        ensures
            r == spec_db_next_nonce(self.txs@, (spec_opt_addr(*from_addr), is_gateway)),
    {
        let ghost key = (spec_opt_addr(*from_addr), is_gateway);
        let mut i: usize = self.txs.len();
        proof {
            assert(self.txs@.take(self.txs@.len() as int) =~= self.txs@);
        }
        while i > 0
            invariant
                store_wf(*self),
                i <= self.txs@.len(),
                key == (spec_opt_addr(*from_addr), is_gateway),
                spec_db_next_nonce(self.txs@, key) == spec_db_next_nonce(
                    self.txs@.take(i as int),
                    key,
                ),
            decreases i,
        {
            i -= 1;
            let tx = &self.txs[i];
            if opt_addr_matches(&tx.from_addr, from_addr) && tx.is_gateway == is_gateway {
                proof {
                    assert(self.txs@.take(i + 1).last() == self.txs@[i as int]);
                }
                return Some(tx.nonce + 1);
            }
            proof {
                assert(self.txs@.take(i + 1).last() == self.txs@[i as int]);
                assert(self.txs@.take(i + 1).drop_last() =~= self.txs@.take(i as int));
            }
        }
        proof {
            assert(self.txs@.take(0) =~= Seq::<EthTx>::empty());
        }
        None
    }
}

/// Law (nonce monotonicity): in a well-formed queue, rows with the same
/// sender and settlement layer carry strictly increasing nonces in the order
/// they were saved.
pub proof fn lemma_nonce_monotonic(store: EthTxStore, i: int, j: int)
    requires
        store_wf(store),
        0 <= i < j < store.txs@.len(),
        spec_tx_key(store.txs@[i]) == spec_tx_key(store.txs@[j]),
    ensures
        store.txs@[i].nonce < store.txs@[j].nonce,
{
}

/// The sender address an operation goes out from: the custom commit sender
/// for a commit on the original settlement layer, the default operator
/// otherwise.
pub open spec fn spec_sender_addr(
    custom_commit_sender_addr: Option<Address>,
    op_type: AggregatedActionType,
    is_gateway: bool,
) -> Option<Address> {
    if op_type == AggregatedActionType::Commit && !is_gateway {
        custom_commit_sender_addr
    } else {
        None
    }
}

/// The nonce a save allocates: the queue's next nonce for the key, but never
/// below the base nonce read from the settlement layer at startup.
pub open spec fn spec_allocated_nonce(
    store: EthTxStore,
    from_addr: Option<Address>,
    is_gateway: bool,
    base_nonce: u64,
    base_nonce_custom_commit_sender: Option<u64>,
) -> u64 {
    let db_nonce = match spec_db_next_nonce(store.txs@, (spec_opt_addr(from_addr), is_gateway)) {
        Some(n) => n,
        None => 0,
    };
    let l1_nonce = if from_addr is None {
        base_nonce
    } else {
        base_nonce_custom_commit_sender->Some_0
    };
    if db_nonce >= l1_nonce {
        db_nonce
    } else {
        l1_nonce
    }
}

/// The predicted-gas heuristic: set for a non-gateway execute, and for a
/// non-gateway commit in validium mode.
pub open spec fn spec_predicted_gas(
    mode: L1BatchCommitmentMode,
    op_type: AggregatedActionType,
    is_gateway: bool,
    batch_count: u64,
) -> Option<u64> {
    if op_type == AggregatedActionType::Execute && !is_gateway {
        Some(
            crate::seal::spec_sat_add(
                AGGR_L1_BATCH_EXECUTE_BASE_COST,
                crate::seal::spec_sat_mul(L1_BATCH_EXECUTE_BASE_COST, batch_count),
            ),
        )
    } else if op_type == AggregatedActionType::Commit && !is_gateway && mode
        == L1BatchCommitmentMode::Validium {
        Some(
            crate::seal::spec_sat_add(
                AGGR_L1_BATCH_COMMIT_BASE_COST,
                crate::seal::spec_sat_mul(L1_BATCH_COMMIT_BASE_COST, batch_count),
            ),
        )
    } else {
        None
    }
}

/// Whether an operation can be encoded: a blob-mode commit needs its first
/// batch's pubdata, and one KZG commitment and proof per blob; everything
/// else always encodes.
pub open spec fn spec_encode_ok(
    pubdata_da: PubdataSendingMode,
    op: AggregatedOperation,
    kzg_len: int,
) -> bool {
    !(op is Commit && pubdata_da == PubdataSendingMode::Blobs) || {
        let batches = op->Commit_1;
        &&& batches@[0].pubdata_input is Some
        &&& kzg_len == spec_blob_count(batches@[0].pubdata_input->Some_0@.len() as int)
    }
}

/// The calldata of an operation: the selector of the operation's protocol
/// generation, the chain-id word, then the payload encoding.
pub open spec fn spec_op_calldata(
    functions: ZkSyncFunctions,
    rollup_chain_id: u64,
    is_verifier_pre_fflonk: bool,
    op: AggregatedOperation,
    chain_protocol_version_id: ProtocolVersionId,
) -> Seq<u8> {
    let op_pre_gateway = op.spec_batches()[0].protocol_version.is_pre_gateway_spec();
    match op {
        AggregatedOperation::Commit(last_committed, batches, pubdata_da) => {
            let selector = if op_pre_gateway {
                functions.post_shared_bridge_commit@
            } else {
                functions.post_gateway_commit@
            };
            selector + crate::abi::spec_word_u64(rollup_chain_id) + spec_enc_commit_payload(
                CommitPayloadView {
                    last_committed: last_committed.view_spec(),
                    batches: spec_batch_stored_views(batches@),
                    pubdata: spec_batch_pubdata(batches@),
                    pubdata_da,
                },
            )
        },
        AggregatedOperation::PublishProofOnchain(prove_op) => {
            let selector = if op_pre_gateway {
                functions.post_shared_bridge_prove@
            } else {
                functions.post_gateway_prove@
            };
            selector + crate::abi::spec_word_u64(rollup_chain_id) + spec_enc_prove_payload(
                ProvePayloadView {
                    prev: prove_op.prev_l1_batch.view_spec(),
                    batches: spec_batch_stored_views(prove_op.l1_batches@),
                    verifier_kind: if is_verifier_pre_fflonk {
                        0
                    } else {
                        1
                    },
                    proof: crate::batch::spec_h256_list_view(prove_op.proof@),
                },
            )
        },
        AggregatedOperation::Execute(execute_op) => {
            let selector = if op_pre_gateway
                && chain_protocol_version_id.is_pre_gateway_spec() {
                functions.post_shared_bridge_execute@
            } else {
                functions.post_gateway_execute@
            };
            selector + crate::abi::spec_word_u64(rollup_chain_id) + spec_enc_execute_payload(
                execute_op.view_spec(),
                op_pre_gateway,
                op.spec_batches()[0].protocol_version.is_pre_interop_spec(),
                chain_protocol_version_id.is_pre_gateway_spec(),
                chain_protocol_version_id.is_pre_interop_spec(),
            )
        },
    }
}

/// Configuration of the sender.
#[derive(Clone, Copy, Debug, PartialEq, Eq, Structural)]
pub struct SenderConfig {
    pub tx_aggregation_only_prove_and_execute: bool,
    pub tx_aggregation_paused: bool,
    pub is_verifier_pre_fflonk: bool,
}

/// Derives the gateway-migration state: a non-zero settlement-layer address
/// means the migration is finalized; otherwise any pending migration
/// notification means it has started.
pub fn gateway_status(settlement_layer: &Address, notification_count: u64) -> (r:
    GatewayMigrationState)
    ensures
        !settlement_layer.is_zero_spec() ==> r == GatewayMigrationState::Finalized,
        settlement_layer.is_zero_spec() && notification_count > 0 ==> r
            == GatewayMigrationState::Started,
        settlement_layer.is_zero_spec() && notification_count == 0 ==> r
            == GatewayMigrationState::Not,
{
    if !settlement_layer.is_zero() {
        return GatewayMigrationState::Finalized;
    }
    if notification_count > 0 {
        return GatewayMigrationState::Started;
    }
    GatewayMigrationState::Not
}

/// Whether a gateway upgrade is pending: the database already moved to the
/// gateway protocol version while the contract still runs an older one.
/// Transactions created under the old `executeBatches` signature would fail
/// right after the upgrade, so execution is held back.
pub fn is_pending_gateway_upgrade(
    pending_protocol_version: ProtocolVersionId,
    chain_protocol_version: ProtocolVersionId,
) -> (r: bool)
    ensures
        r == (pending_protocol_version.minor >= GATEWAY_VERSION
            && chain_protocol_version.is_pre_gateway_spec()),
{
    if pending_protocol_version.minor < GATEWAY_VERSION {
        return false;
    }
    chain_protocol_version.is_pre_gateway()
}

pub open spec fn spec_commit_restricted(config: SenderConfig, state: GatewayMigrationState) -> bool {
    state is Started || config.tx_aggregation_only_prove_and_execute || config.tx_aggregation_paused
}

pub open spec fn spec_prove_restricted(config: SenderConfig) -> bool {
    config.tx_aggregation_paused
}

pub open spec fn spec_execute_restricted(
    config: SenderConfig,
    pending_protocol_version: ProtocolVersionId,
    chain_protocol_version: ProtocolVersionId,
) -> bool {
    (pending_protocol_version.minor >= GATEWAY_VERSION
        && chain_protocol_version.is_pre_gateway_spec()) || config.tx_aggregation_paused
}

/// Computes the restrictions of one iteration: commits stop while a gateway
/// migration has started or the node is set to prove-and-execute only; the
/// execute action stops while a gateway upgrade is pending; pausing
/// aggregation stops all three.
pub fn compute_restrictions(
    config: &SenderConfig,
    gateway_migration_state: GatewayMigrationState,
    pending_protocol_version: ProtocolVersionId,
    chain_protocol_version: ProtocolVersionId,
) -> (r: OperationSkippingRestrictions)
    ensures
        r.commit_restriction is Some <==> spec_commit_restricted(*config, gateway_migration_state),
        r.prove_restriction is Some <==> spec_prove_restricted(*config),
        r.execute_restriction is Some <==> spec_execute_restricted(
            *config,
            pending_protocol_version,
            chain_protocol_version,
        ),
{
    let commit_restriction: Option<&'static str> = if gateway_migration_state
        == GatewayMigrationState::Started {
        Some("Gateway migration started")
    } else if config.tx_aggregation_only_prove_and_execute {
        Some("tx_aggregation_only_prove_and_execute=true")
    } else {
        None
    };
    let execute_restriction: Option<&'static str> = if is_pending_gateway_upgrade(
        pending_protocol_version,
        chain_protocol_version,
    ) {
        Some("there is a pending gateway upgrade")
    } else {
        None
    };
    let mut op_restrictions = OperationSkippingRestrictions {
        commit_restriction,
        prove_restriction: None,
        execute_restriction,
    };
    if config.tx_aggregation_paused {
        let reason: Option<&'static str> = Some("tx aggregation is paused");
        op_restrictions.commit_restriction = reason;
        op_restrictions.prove_restriction = reason;
        op_restrictions.execute_restriction = reason;
    }
    op_restrictions
}

/// The encoded form of one operation: the calldata and, for blob-mode
/// commits, the sidecar.
pub struct TxData {
    pub calldata: Vec<u8>,
    pub sidecar: Option<EthTxBlobSidecar>,
}

/// Aggregates sealed batches into outbound transactions.
pub struct EthTxAggregator {
    pub aggregator: Aggregator,
    pub config: SenderConfig,
    /// The timelock from the configuration, used only while the chain and
    /// the chain-type manager disagree on the protocol version.
    pub config_timelock_contract_address: Address,
    pub l1_multicall3_address: Address,
    pub state_transition_chain_contract: Address,
    pub state_transition_manager_address: Address,
    pub functions: ZkSyncFunctions,
    pub base_nonce: u64,
    pub base_nonce_custom_commit_sender: Option<u64>,
    pub rollup_chain_id: u64,
    /// Set when commits are sent from a separate operator address (4844
    /// mode).
    pub custom_commit_sender_addr: Option<Address>,
    pub gateway_migration_state: GatewayMigrationState,
    pub sl_chain_id: u64,
}

/// What one iteration of the aggregator loop observed outside: the refreshed
/// gateway status, the multicall response, the verification-key hashes, the
/// pending protocol version, the storage's candidate operations, and the KZG
/// artifacts of the first commit batch's pubdata.
pub struct TickInputs {
    pub gateway_migration_state: GatewayMigrationState,
    pub multicall_response: Token,
    pub snark_wrapper_vk_hash: H256,
    pub fflonk_snark_wrapper_vk_hash: Option<H256>,
    pub pending_protocol_version: ProtocolVersionId,
    pub storage: AggregatorStorageView,
    pub kzg: Vec<(Vec<u8>, Vec<u8>)>,
}

impl EthTxAggregator {
    /// A custom commit sender comes with its own base nonce.
    pub open spec fn wf(self) -> bool {
        self.custom_commit_sender_addr is Some ==> self.base_nonce_custom_commit_sender is Some
    }

    /// Wires the aggregator. The base nonces, the gateway status and the
    /// settlement-layer chain id were read from the settlement layer and the
    /// database at startup; a custom commit sender must bring its base nonce.
    pub fn new(
        config: SenderConfig,
        aggregator: Aggregator,
        config_timelock_contract_address: Address,
        state_transition_manager_address: Address,
        l1_multicall3_address: Address,
        state_transition_chain_contract: Address,
        functions: ZkSyncFunctions,
        base_nonce: u64,
        base_nonce_custom_commit_sender: Option<u64>,
        rollup_chain_id: u64,
        custom_commit_sender_addr: Option<Address>,
        gateway_migration_state: GatewayMigrationState,
        sl_chain_id: u64,
    ) -> (r: EthTxAggregator)
        requires
            custom_commit_sender_addr is Some ==> base_nonce_custom_commit_sender is Some,
        ensures
            r.wf(),
            r.config == config,
            r.aggregator == aggregator,
            r.config_timelock_contract_address == config_timelock_contract_address,
            r.state_transition_manager_address == state_transition_manager_address,
            r.l1_multicall3_address == l1_multicall3_address,
            r.state_transition_chain_contract == state_transition_chain_contract,
            r.base_nonce == base_nonce,
            r.base_nonce_custom_commit_sender == base_nonce_custom_commit_sender,
            r.rollup_chain_id == rollup_chain_id,
            r.custom_commit_sender_addr == custom_commit_sender_addr,
            r.gateway_migration_state == gateway_migration_state,
            r.sl_chain_id == sl_chain_id,
    {
        EthTxAggregator {
            aggregator,
            config,
            config_timelock_contract_address,
            l1_multicall3_address,
            state_transition_chain_contract,
            state_transition_manager_address,
            functions,
            base_nonce,
            base_nonce_custom_commit_sender,
            rollup_chain_id,
            custom_commit_sender_addr,
            gateway_migration_state,
            sl_chain_id,
        }
    }

    /// The next nonce for the sender: the queue's own successor nonce, but
    /// never below what the settlement layer reported at startup.
    pub fn get_next_nonce(&self, store: &EthTxStore, from_addr: &Option<Address>) -> (r: Result<
        u64,
        EthSenderError,
    >)
        requires
            store_wf(*store),
            from_addr is Some ==> self.base_nonce_custom_commit_sender is Some,
        ensures
            r matches Ok(v) ==> {
                let db_nonce = match spec_db_next_nonce(
                    store.txs@,
                    (spec_opt_addr(*from_addr), self.gateway_migration_state.is_gateway_spec()),
                ) {
                    Some(n) => n,
                    None => 0,
                };
                let l1_nonce = if from_addr is None {
                    self.base_nonce
                } else {
                    self.base_nonce_custom_commit_sender->Some_0
                };
                v == if db_nonce >= l1_nonce {
                    db_nonce
                } else {
                    l1_nonce
                }
            },
            r is Ok,
    {
        let is_gateway = self.gateway_migration_state.is_gateway();
        let db_nonce = match store.get_next_nonce(from_addr, is_gateway) {
            Some(n) => n,
            None => 0,
        };
        let l1_nonce = match from_addr {
            None => self.base_nonce,
            Some(_) => {
                match self.base_nonce_custom_commit_sender {
                    Some(n) => n,
                    None => {
                        return Err(
                            EthSenderError::Fatal("custom base nonce is expected to be initialized"),
                        );
                    },
                }
            },
        };
        Ok(if db_nonce >= l1_nonce {
            db_nonce
        } else {
            l1_nonce
        })
    }

    /// Encodes an operation into calldata: the selector for the operation's
    /// protocol generation, the chain id word, then the payload. A blob-mode
    /// commit also builds the sidecar from the first batch's pubdata, which
    /// must be present; anything else always encodes.
    pub fn encode_aggregated_op(
        &self,
        op: &AggregatedOperation,
        chain_protocol_version_id: ProtocolVersionId,
        kzg: &Vec<(Vec<u8>, Vec<u8>)>,
    ) -> (r: Result<TxData, EthSenderError>)
        requires
            op.wf(),
        ensures
            r is Ok <==> spec_encode_ok(self.aggregator.pubdata_da, *op, kzg@.len() as int),
            r matches Ok(d) ==> d.calldata@ == spec_op_calldata(
                self.functions,
                self.rollup_chain_id,
                self.config.is_verifier_pre_fflonk,
                *op,
                chain_protocol_version_id,
            ),
            r matches Ok(d) ==> ((d.sidecar is Some) <==> (op is Commit
                && self.aggregator.pubdata_da == PubdataSendingMode::Blobs)),
    {
        let is_op_pre_gateway = op.protocol_version().is_pre_gateway();

        match op {
            AggregatedOperation::Commit(last_committed_l1_batch, l1_batches, pubdata_da) => {
                let payload = encode_commit_payload(last_committed_l1_batch, l1_batches, *pubdata_da);
                let selector = if is_op_pre_gateway {
                    &self.functions.post_shared_bridge_commit
                } else {
                    &self.functions.post_gateway_commit
                };
                let calldata = self.assemble_calldata(selector, &payload);
                proof {
                    assert(calldata@ =~= spec_op_calldata(
                        self.functions,
                        self.rollup_chain_id,
                        self.config.is_verifier_pre_fflonk,
                        *op,
                        chain_protocol_version_id,
                    ));
                }

                let sidecar = if matches!(self.aggregator.pubdata_da(), PubdataSendingMode::Blobs) {
                    let pubdata = match &l1_batches[0].pubdata_input {
                        Some(p) => p,
                        None => {
                            // Without the pubdata the blobs cannot be built:
                            // committing would lose data.
                            return Err(
                                EthSenderError::Fatal("blob mode commit without pubdata input"),
                            );
                        },
                    };
                    let sidecar = match build_blob_sidecar(pubdata, kzg) {
                        Ok(s) => s,
                        Err(_) => {
                            return Err(
                                EthSenderError::Fatal("one KZG commitment and proof is needed per blob"),
                            );
                        },
                    };
                    Some(EthTxBlobSidecar::V1(sidecar))
                } else {
                    None
                };
                Ok(TxData { calldata, sidecar })
            },
            AggregatedOperation::PublishProofOnchain(prove_op) => {
                let payload = encode_prove_payload(prove_op, self.config.is_verifier_pre_fflonk);
                let selector = if is_op_pre_gateway {
                    &self.functions.post_shared_bridge_prove
                } else {
                    &self.functions.post_gateway_prove
                };
                let calldata = self.assemble_calldata(selector, &payload);
                proof {
                    assert(calldata@ =~= spec_op_calldata(
                        self.functions,
                        self.rollup_chain_id,
                        self.config.is_verifier_pre_fflonk,
                        *op,
                        chain_protocol_version_id,
                    ));
                }
                Ok(TxData { calldata, sidecar: None })
            },
            AggregatedOperation::Execute(execute_op) => {
                let payload = execute_op.encode_for_eth_tx(chain_protocol_version_id);
                let selector = if is_op_pre_gateway && chain_protocol_version_id.is_pre_gateway() {
                    &self.functions.post_shared_bridge_execute
                } else {
                    &self.functions.post_gateway_execute
                };
                let calldata = self.assemble_calldata(selector, &payload);
                proof {
                    assert(calldata@ =~= spec_op_calldata(
                        self.functions,
                        self.rollup_chain_id,
                        self.config.is_verifier_pre_fflonk,
                        *op,
                        chain_protocol_version_id,
                    ));
                }
                Ok(TxData { calldata, sidecar: None })
            },
        }
    }

    /// Calldata assembly: selector, chain-id word, payload.
    fn assemble_calldata(&self, selector: &Vec<u8>, payload: &Vec<u8>) -> (r: Vec<u8>)
        ensures
            r@ == selector@ + crate::abi::spec_word_u64(self.rollup_chain_id) + payload@,
    {
        let mut out: Vec<u8> = Vec::new();
        crate::abi::push_all(&mut out, selector);
        crate::abi::push_word_u64(&mut out, self.rollup_chain_id);
        crate::abi::push_all(&mut out, payload);
        proof {
            assert(out@ =~= selector@ + crate::abi::spec_word_u64(self.rollup_chain_id)
                + payload@);
        }
        out
    }

    /// Persists one encoded operation as an outbound transaction and binds
    /// its batch range to the new row. The nonce is allocated per sender and
    /// settlement layer and strictly exceeds every nonce that key has been
    /// handed before. The save succeeds unless the operation cannot be
    /// encoded (a blob-mode commit without its pubdata or KZG artifacts) or
    /// the nonce or id space is exhausted. The blob sidecar is persisted with
    /// the stored row; the returned transaction carries none.
    pub fn save_eth_tx(
        &self,
        store: &mut EthTxStore,
        aggregated_op: AggregatedOperation,
        timelock_contract_address: Address,
        chain_protocol_version_id: ProtocolVersionId,
        is_gateway: bool,
        kzg: &Vec<(Vec<u8>, Vec<u8>)>,
    ) -> (r: Result<EthTx, EthSenderError>)
        requires
            aggregated_op.wf(),
            store_wf(*old(store)),
            self.wf(),
            is_gateway == self.gateway_migration_state.is_gateway_spec(),
        ensures
            store_wf(*final(store)),
            ({
                let sender = spec_sender_addr(
                    self.custom_commit_sender_addr,
                    aggregated_op.spec_action_type(),
                    is_gateway,
                );
                let nonce = spec_allocated_nonce(
                    *old(store),
                    sender,
                    is_gateway,
                    self.base_nonce,
                    self.base_nonce_custom_commit_sender,
                );
                let calldata = spec_op_calldata(
                    self.functions,
                    self.rollup_chain_id,
                    self.config.is_verifier_pre_fflonk,
                    aggregated_op,
                    chain_protocol_version_id,
                );
                &&& (nonce < u64::MAX && old(store).txs@.len() < u32::MAX && spec_encode_ok(
                    self.aggregator.pubdata_da,
                    aggregated_op,
                    kzg@.len() as int,
                ) ==> r is Ok)
                &&& (r matches Ok(tx) ==> {
                    let row = final(store).txs@.last();
                    &&& final(store).txs@.len() == old(store).txs@.len() + 1
                    &&& final(store).txs@.drop_last() == old(store).txs@
                    &&& final(store).batch_bindings@ == old(store).batch_bindings@.push(
                        BatchBinding {
                            first_batch: aggregated_op.spec_batches()[0].number,
                            last_batch: aggregated_op.spec_batches().last().number,
                            tx_type: aggregated_op.spec_action_type(),
                            eth_tx_id: tx.id,
                        },
                    )
                    &&& tx.nonce == nonce
                    &&& tx.id == old(store).txs@.len()
                    &&& tx.calldata@ == calldata
                    &&& tx.tx_type == aggregated_op.spec_action_type()
                    &&& tx.is_gateway == is_gateway
                    &&& tx.chain_id == Some(self.sl_chain_id)
                    &&& tx.contract_address.bytes@ == timelock_contract_address.bytes@
                    &&& tx.predicted_gas_cost == spec_predicted_gas(
                        self.aggregator.mode,
                        aggregated_op.spec_action_type(),
                        is_gateway,
                        if aggregated_op.spec_batches().len() > u64::MAX {
                            u64::MAX
                        } else {
                            aggregated_op.spec_batches().len() as u64
                        },
                    )
                    &&& spec_opt_addr(tx.from_addr) == spec_opt_addr(sender)
                    &&& tx.blob_sidecar is None
                    &&& spec_tx_key(row) == spec_tx_key(tx)
                    &&& row.nonce == tx.nonce
                    &&& row.id == tx.id
                    &&& row.calldata@ == tx.calldata@
                    &&& row.tx_type == tx.tx_type
                    &&& row.contract_address.bytes@ == tx.contract_address.bytes@
                    &&& row.predicted_gas_cost == tx.predicted_gas_cost
                    &&& row.chain_id == tx.chain_id
                    &&& ((row.blob_sidecar is Some) <==> (aggregated_op is Commit
                        && self.aggregator.pubdata_da == PubdataSendingMode::Blobs))
                    &&& (forall|k: int|
                        0 <= k < old(store).txs@.len() && spec_tx_key(
                            #[trigger] old(store).txs@[k],
                        ) == spec_tx_key(tx) ==> old(store).txs@[k].nonce < tx.nonce)
                })
            }),
            r is Err ==> final(store).txs@ == old(store).txs@ && final(store).batch_bindings@
                == old(store).batch_bindings@,
    {
        let op_type = aggregated_op.get_action_type();
        let sender_addr: Option<Address> = if matches!(op_type, AggregatedActionType::Commit)
            && !is_gateway {
            self.custom_commit_sender_addr
        } else {
            None
        };
        let nonce = match self.get_next_nonce(store, &sender_addr) {
            Ok(n) => n,
            Err(e) => {
                return Err(e);
            },
        };
        if nonce == u64::MAX {
            return Err(EthSenderError::Fatal("nonces for this sender are exhausted"));
        }
        let encoded_aggregated_op = match self.encode_aggregated_op(
            &aggregated_op,
            chain_protocol_version_id,
            kzg,
        ) {
            Ok(d) => d,
            Err(e) => {
                return Err(e);
            },
        };
        let batch_count = match &aggregated_op {
            AggregatedOperation::Commit(_, batches, _) => batches.len() as u64,
            AggregatedOperation::PublishProofOnchain(op) => op.l1_batches.len() as u64,
            AggregatedOperation::Execute(op) => op.l1_batches.len() as u64,
        };

        let eth_tx_predicted_gas: Option<u64> = match (op_type, is_gateway, self.aggregator.mode()) {
            (AggregatedActionType::Execute, false, _) => Some(
                crate::seal::sat_add(
                    AGGR_L1_BATCH_EXECUTE_BASE_COST,
                    crate::seal::sat_mul(L1_BATCH_EXECUTE_BASE_COST, batch_count),
                ),
            ),
            (AggregatedActionType::Commit, false, L1BatchCommitmentMode::Validium) => Some(
                crate::seal::sat_add(
                    AGGR_L1_BATCH_COMMIT_BASE_COST,
                    crate::seal::sat_mul(L1_BATCH_COMMIT_BASE_COST, batch_count),
                ),
            ),
            _ => None,
        };

        if store.txs.len() >= u32::MAX as usize {
            return Err(EthSenderError::Fatal("outbound transaction ids are exhausted"));
        }
        let id = store.txs.len() as u32;
        let calldata_copy = crate::encoder::copy_bytes(&encoded_aggregated_op.calldata);
        let eth_tx = EthTx {
            id,
            nonce,
            calldata: encoded_aggregated_op.calldata,
            tx_type: op_type,
            contract_address: timelock_contract_address,
            predicted_gas_cost: eth_tx_predicted_gas,
            from_addr: sender_addr,
            blob_sidecar: encoded_aggregated_op.sidecar,
            is_gateway,
            chain_id: Some(self.sl_chain_id),
        };
        let result = EthTx {
            id,
            nonce,
            calldata: calldata_copy,
            tx_type: op_type,
            contract_address: timelock_contract_address,
            predicted_gas_cost: eth_tx_predicted_gas,
            from_addr: sender_addr,
            blob_sidecar: None,
            is_gateway,
            chain_id: Some(self.sl_chain_id),
        };
        proof {
            lemma_db_next_nonce_bound(store.txs@, spec_tx_key(eth_tx));
        }
        let (first_batch, last_batch) = aggregated_op.l1_batch_range();
        store.txs.push(eth_tx);
        store.batch_bindings.push(
            BatchBinding { first_batch, last_batch, tx_type: op_type, eth_tx_id: id },
        );
        proof {
            let txs = store.txs@;
            assert forall|i: int, j: int|
                0 <= i < j < txs.len() && spec_tx_key(#[trigger] txs[i]) == spec_tx_key(
                    #[trigger] txs[j],
                ) implies txs[i].nonce < txs[j].nonce by {
                if j == txs.len() - 1 {
                    assert(txs[i] == old(store).txs@[i]);
                }
            }
        }
        Ok(result)
    }

    /// One iteration of the aggregator loop, over what was read outside: the
    /// gateway status is adopted, the multicall response parsed, the
    /// restrictions computed, at most one ready operation selected under
    /// them, encoded, and appended to the queue with its batch binding.
    /// When the response parses and no allowed operation is ready, the
    /// iteration returns `None`; when one is ready and encodable within the
    /// nonce and id space, it is saved and returned; nothing is ever saved
    /// on an error.
    pub fn loop_iteration(&mut self, store: &mut EthTxStore, inputs: TickInputs) -> (r: Result<
        Option<EthTx>,
        EthSenderError,
    >)
        requires
            store_wf(*old(store)),
            old(self).wf(),
        ensures
            store_wf(*final(store)),
            final(self).wf(),
            final(self).gateway_migration_state == inputs.gateway_migration_state,
            spec_parse_multicall(
                inputs.multicall_response,
                old(self).functions.get_evm_emulator_bytecode_hash is Some,
            ) is None ==> r is Err,
            ({
                let parsed = spec_parse_multicall(
                    inputs.multicall_response,
                    old(self).functions.get_evm_emulator_bytecode_hash is Some,
                );
                parsed matches Some(d) ==> {
                    let vk = L1VerifierConfig {
                        snark_wrapper_vk_hash: inputs.snark_wrapper_vk_hash,
                        fflonk_snark_wrapper_vk_hash: inputs.fflonk_snark_wrapper_vk_hash,
                    };
                    let selected = crate::aggregator::spec_next_ready_operation_flags(
                        old(self).aggregator,
                        inputs.storage,
                        vk,
                        spec_commit_restricted(old(self).config, inputs.gateway_migration_state),
                        spec_prove_restricted(old(self).config),
                        spec_execute_restricted(
                            old(self).config,
                            inputs.pending_protocol_version,
                            d.chain_protocol_version_id,
                        ),
                    );
                    &&& (selected is None ==> r matches Ok(None))
                    &&& (selected matches Some(op) ==> !(r matches Ok(None)))
                    &&& (selected matches Some(op) ==> (({
                        let is_gw = inputs.gateway_migration_state.is_gateway_spec();
                        let sender = spec_sender_addr(
                            old(self).custom_commit_sender_addr,
                            op.spec_action_type(),
                            is_gw,
                        );
                        &&& spec_allocated_nonce(
                            *old(store),
                            sender,
                            is_gw,
                            old(self).base_nonce,
                            old(self).base_nonce_custom_commit_sender,
                        ) < u64::MAX
                        &&& old(store).txs@.len() < u32::MAX
                        &&& spec_encode_ok(
                            old(self).aggregator.pubdata_da,
                            op,
                            inputs.kzg@.len() as int,
                        )
                    }) ==> r matches Ok(Some(_))))
                    &&& (selected matches Some(op) ==> (r matches Ok(Some(tx)) ==> {
                        &&& tx.tx_type == op.spec_action_type()
                        &&& final(store).txs@.last().tx_type == op.spec_action_type()
                        &&& tx.calldata@ == spec_op_calldata(
                            old(self).functions,
                            old(self).rollup_chain_id,
                            old(self).config.is_verifier_pre_fflonk,
                            op,
                            d.chain_protocol_version_id,
                        )
                    }))
                }
            }),
            r matches Ok(Some(tx)) ==> {
                &&& final(store).txs@.len() == old(store).txs@.len() + 1
                &&& final(store).txs@.drop_last() == old(store).txs@
                &&& (tx.tx_type == AggregatedActionType::Commit ==> !spec_commit_restricted(
                    old(self).config,
                    inputs.gateway_migration_state,
                ))
                &&& (tx.tx_type == AggregatedActionType::PublishProofOnchain
                    ==> !spec_prove_restricted(old(self).config))
                &&& (tx.tx_type == AggregatedActionType::Execute ==> !spec_execute_restricted(
                    old(self).config,
                    inputs.pending_protocol_version,
                    tx_chain_version(inputs, old(self).functions),
                ))
            },
            r matches Ok(None) ==> final(store).txs@ == old(store).txs@
                && final(store).batch_bindings@ == old(store).batch_bindings@,
            r is Err ==> final(store).txs@ == old(store).txs@ && final(store).batch_bindings@
                == old(store).batch_bindings@,
    {
        self.gateway_migration_state = inputs.gateway_migration_state;

        let evm_emulator_requested = self.functions.get_evm_emulator_bytecode_hash.is_some();
        let multicall_data = match parse_multicall_data(
            &inputs.multicall_response,
            evm_emulator_requested,
        ) {
            Ok(d) => d,
            Err(e) => {
                return Err(e);
            },
        };

        let l1_verifier_config = L1VerifierConfig {
            snark_wrapper_vk_hash: inputs.snark_wrapper_vk_hash,
            fflonk_snark_wrapper_vk_hash: inputs.fflonk_snark_wrapper_vk_hash,
        };

        let op_restrictions = compute_restrictions(
            &self.config,
            self.gateway_migration_state,
            inputs.pending_protocol_version,
            multicall_data.chain_protocol_version_id,
        );

        let agg_op = self.aggregator.get_next_ready_operation(
            inputs.storage,
            multicall_data.base_system_contracts_hashes,
            multicall_data.chain_protocol_version_id,
            l1_verifier_config,
            op_restrictions,
        );
        proof {
            let d = spec_parse_multicall(
                inputs.multicall_response,
                old(self).functions.get_evm_emulator_bytecode_hash is Some,
            )->Some_0;
            assert(d == multicall_data.view_spec());
            assert(l1_verifier_config == L1VerifierConfig {
                snark_wrapper_vk_hash: inputs.snark_wrapper_vk_hash,
                fflonk_snark_wrapper_vk_hash: inputs.fflonk_snark_wrapper_vk_hash,
            });
            assert(agg_op == crate::aggregator::spec_next_ready_operation_flags(
                old(self).aggregator,
                inputs.storage,
                l1_verifier_config,
                spec_commit_restricted(old(self).config, inputs.gateway_migration_state),
                spec_prove_restricted(old(self).config),
                spec_execute_restricted(
                    old(self).config,
                    inputs.pending_protocol_version,
                    d.chain_protocol_version_id,
                ),
            ));
        }
        let agg_op = match agg_op {
            Some(op) => op,
            None => {
                return Ok(None);
            },
        };

        let is_gateway = self.gateway_migration_state.is_gateway();
        let timelock = timelock_contract_address(
            self.config_timelock_contract_address,
            multicall_data.chain_protocol_version_id,
            multicall_data.stm_protocol_version_id,
            multicall_data.stm_validator_timelock_address,
        );
        let tx = match self.save_eth_tx(
            store,
            agg_op,
            timelock,
            multicall_data.chain_protocol_version_id,
            is_gateway,
            &inputs.kzg,
        ) {
            Ok(tx) => tx,
            Err(e) => {
                return Err(e);
            },
        };
        Ok(Some(tx))
    }
}

/// Law (encoder round trip at the calldata level): a transaction's calldata
/// is its selector, the chain word, then the operation payload, and that
/// payload decodes back to what was encoded. Stated here for a commit; the
/// prove and execute payloads carry the corresponding laws in the encoder.
pub proof fn lemma_commit_calldata_roundtrip(
    functions: ZkSyncFunctions,
    rollup_chain_id: u64,
    is_verifier_pre_fflonk: bool,
    op: AggregatedOperation,
    chain_protocol_version_id: ProtocolVersionId,
)
    requires
        op is Commit,
        op.spec_batches().len() > 0,
        op.spec_batches().len() <= u64::MAX,
        forall|i: int|
            0 <= i < op.spec_batches().len() ==> ((#[trigger] op.spec_batches()[i]).pubdata_input
                matches Some(v) ==> v@.len() <= u64::MAX),
        spec_op_calldata(
            functions,
            rollup_chain_id,
            is_verifier_pre_fflonk,
            op,
            chain_protocol_version_id,
        ).len() <= usize::MAX,
    ensures
        ({
            let selector = if op.spec_batches()[0].protocol_version.is_pre_gateway_spec() {
                functions.post_shared_bridge_commit@
            } else {
                functions.post_gateway_commit@
            };
            let calldata = spec_op_calldata(
                functions,
                rollup_chain_id,
                is_verifier_pre_fflonk,
                op,
                chain_protocol_version_id,
            );
            crate::encoder::spec_dec_commit_payload(calldata.skip(selector.len() as int + 32))
                == Some(
                crate::encoder::CommitPayloadView {
                    last_committed: op->Commit_0.view_spec(),
                    batches: spec_batch_stored_views(op->Commit_1@),
                    pubdata: spec_batch_pubdata(op->Commit_1@),
                    pubdata_da: op->Commit_2,
                },
            )
        }),
{
    let selector = if op.spec_batches()[0].protocol_version.is_pre_gateway_spec() {
        functions.post_shared_bridge_commit@
    } else {
        functions.post_gateway_commit@
    };
    let view = crate::encoder::CommitPayloadView {
        last_committed: op->Commit_0.view_spec(),
        batches: spec_batch_stored_views(op->Commit_1@),
        pubdata: spec_batch_pubdata(op->Commit_1@),
        pubdata_da: op->Commit_2,
    };
    let calldata = spec_op_calldata(
        functions,
        rollup_chain_id,
        is_verifier_pre_fflonk,
        op,
        chain_protocol_version_id,
    );
    let payload = spec_enc_commit_payload(view);
    assert(calldata =~= selector + crate::abi::spec_word_u64(rollup_chain_id) + payload);
    assert(calldata.skip(selector.len() as int + 32) =~= payload);
    assert forall|i: int| 0 <= i < view.batches.len() implies (#[trigger] view.batches[i]).wf() by {
        assert(view.batches[i] == op->Commit_1@[i].stored.view_spec());
    }
    assert forall|i: int| 0 <= i < view.pubdata.len() implies #[trigger] view.pubdata[i].len()
        <= u64::MAX by {
        assert(view.pubdata[i] == spec_batch_pubdata(op->Commit_1@)[i]);
    }
    crate::encoder::lemma_commit_payload_roundtrip(view);
}

/// The chain protocol version an iteration's restrictions were computed for:
/// the one the multicall response carries.
pub open spec fn tx_chain_version(inputs: TickInputs, functions: ZkSyncFunctions) -> ProtocolVersionId {
    match spec_parse_multicall(
        inputs.multicall_response,
        functions.get_evm_emulator_bytecode_hash is Some,
    ) {
        Some(d) => d.chain_protocol_version_id,
        None => ProtocolVersionId { minor: 0 },
    }
}

} // verus!
