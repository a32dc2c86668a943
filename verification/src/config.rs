//! Configuration surface of the sequencer components, and the derivation of
//! the gateway-chain configuration.

use vstd::prelude::*;

use crate::types::Address;

verus! {

/// Addresses of the ecosystem contracts.
#[derive(Clone, Copy, Debug)]
pub struct EcosystemContracts {
    pub state_transition_proxy_addr: Option<Address>,
}

/// The chain's contract addresses on its original settlement layer.
#[derive(Clone, Copy, Debug)]
pub struct AllContractsConfig {
    pub ecosystem_contracts: Option<EcosystemContracts>,
    pub validator_timelock_addr: Address,
    pub l1_multicall3_addr: Address,
    pub diamond_proxy_addr: Address,
    pub chain_admin_addr: Address,
}

/// Contracts deployed for the gateway itself.
#[derive(Clone, Copy, Debug)]
pub struct GatewayConfig {
    pub state_transition_proxy_addr: Address,
    pub verifier_addr: Address,
    pub validator_timelock_addr: Address,
    pub multicall3_addr: Address,
}

/// The configuration a chain keeps about the gateway it settles through.
#[derive(Clone, Copy, Debug)]
pub struct GatewayChainConfig {
    pub state_transition_proxy_addr: Option<Address>,
    pub validator_timelock_addr: Option<Address>,
    pub multicall3_addr: Address,
    pub diamond_proxy_addr: Address,
    pub chain_admin_addr: Address,
    pub gateway_chain_id: u64,
    pub server_notifier: Option<Address>,
}

impl GatewayChainConfig {
    /// Combines the gateway's own contracts with the chain's data.
    pub fn from_gateway_and_chain_data(
        gateway_config: &GatewayConfig,
        diamond_proxy_addr: Address,
        l2_chain_admin_addr: Address,
        gateway_chain_id: u64,
    ) -> (r: GatewayChainConfig)
        ensures
            r.state_transition_proxy_addr == Some(gateway_config.state_transition_proxy_addr),
            r.validator_timelock_addr == Some(gateway_config.validator_timelock_addr),
            r.multicall3_addr == gateway_config.multicall3_addr,
            r.diamond_proxy_addr == diamond_proxy_addr,
            r.chain_admin_addr == l2_chain_admin_addr,
            r.gateway_chain_id == gateway_chain_id,
            r.server_notifier is None,
    {
        GatewayChainConfig {
            state_transition_proxy_addr: Some(gateway_config.state_transition_proxy_addr),
            validator_timelock_addr: Some(gateway_config.validator_timelock_addr),
            multicall3_addr: gateway_config.multicall3_addr,
            diamond_proxy_addr,
            chain_admin_addr: l2_chain_admin_addr,
            gateway_chain_id,
            server_notifier: None,
        }
    }

    /// Reads the same configuration out of the chain's contract set.
    pub fn from_contracts_and_chain_id(contracts: AllContractsConfig, gateway_chain_id: u64) -> (r:
        GatewayChainConfig)
        ensures
            r.state_transition_proxy_addr == (match contracts.ecosystem_contracts {
                Some(e) => e.state_transition_proxy_addr,
                None => None,
            }),
            r.validator_timelock_addr == Some(contracts.validator_timelock_addr),
            r.multicall3_addr == contracts.l1_multicall3_addr,
            r.diamond_proxy_addr == contracts.diamond_proxy_addr,
            r.chain_admin_addr == contracts.chain_admin_addr,
            r.gateway_chain_id == gateway_chain_id,
            r.server_notifier is None,
    {
        GatewayChainConfig {
            state_transition_proxy_addr: match contracts.ecosystem_contracts {
                Some(e) => e.state_transition_proxy_addr,
                None => None,
            },
            validator_timelock_addr: Some(contracts.validator_timelock_addr),
            multicall3_addr: contracts.l1_multicall3_addr,
            diamond_proxy_addr: contracts.diamond_proxy_addr,
            chain_admin_addr: contracts.chain_admin_addr,
            gateway_chain_id,
            server_notifier: None,
        }
    }
}

/// The aggregated configuration of the node's components this crate models:
/// sequencing and aggregation settings; components this crate does not model
/// keep no entry.
#[derive(Clone, Copy, Debug)]
pub struct GeneralConfig {
    pub state_keeper_config: Option<crate::seal::SealCriteriaConfig>,
    pub eth: Option<crate::eth_sender::SenderConfig>,
    pub aggregator: Option<crate::aggregator::AggregatorConfig>,
}

impl GeneralConfig {
    pub fn new(
        state_keeper_config: Option<crate::seal::SealCriteriaConfig>,
        eth: Option<crate::eth_sender::SenderConfig>,
        aggregator: Option<crate::aggregator::AggregatorConfig>,
    ) -> (r: GeneralConfig)
        ensures
            r.state_keeper_config == state_keeper_config,
            r.eth == eth,
            r.aggregator == aggregator,
    {
        GeneralConfig { state_keeper_config, eth, aggregator }
    }
}

} // verus!
