//! The multicall pre-flight: one aggregated on-chain read of the base-system
//! contract hashes, the verifier address and the protocol versions, and the
//! parsing of its response.

use vstd::prelude::*;

use crate::types::{Address, BaseSystemContractsHashes, H256, ProtocolVersionId};

verus! {

/// A decoded ABI value, as the Ethereum client hands it back.
pub enum Token {
    Bool(bool),
    Bytes(Vec<u8>),
    FixedBytes(Vec<u8>),
    Address(Address),
    Uint(H256),
    Array(Vec<Token>),
    Tuple(Vec<Token>),
}

/// An error of the transaction aggregator.
#[derive(Clone, Copy, Debug)]
pub enum EthSenderError {
    EthereumGateway,
    ContractCall,
    Parse(&'static str),
    Fatal(&'static str),
}

/// One sub-call of an `aggregate3` invocation.
#[derive(Clone, Debug)]
pub struct Multicall3Call {
    pub target: Address,
    pub allow_failure: bool,
    pub calldata: Vec<u8>,
}

pub open spec fn spec_call_view(c: Multicall3Call) -> (Seq<u8>, bool, Seq<u8>) {
    (c.target.bytes@, c.allow_failure, c.calldata@)
}

/// The result of one sub-call: its status and return data.
#[derive(Clone, Debug)]
pub struct Multicall3Result {
    pub success: bool,
    pub return_data: Vec<u8>,
}

/// Whether a token has the shape of a sub-call result: a pair of a status
/// flag and the returned bytes.
pub open spec fn spec_result_ok(t: Token) -> bool {
    match t {
        Token::Tuple(parts) => parts@.len() == 2 && parts@[0] is Bool && parts@[1] is Bytes,
        _ => false,
    }
}

pub open spec fn spec_result_data(t: Token) -> Seq<u8> {
    match t {
        Token::Tuple(parts) => match parts@[1] {
            Token::Bytes(b) => b@,
            _ => Seq::<u8>::empty(),
        },
        _ => Seq::<u8>::empty(),
    }
}

impl Multicall3Result {
    /// Reads a sub-call result out of its token.
    pub fn from_token(t: &Token) -> (r: Result<Multicall3Result, EthSenderError>)
        ensures
            r is Ok <==> spec_result_ok(*t),
            r matches Ok(v) ==> v.return_data@ == spec_result_data(*t),
    {
        match t {
            Token::Tuple(parts) => {
                if parts.len() != 2 {
                    return Err(EthSenderError::Parse("failed to parse multicall token"));
                }
                let success = match &parts[0] {
                    Token::Bool(b) => *b,
                    _ => {
                        return Err(EthSenderError::Parse("failed to parse multicall token"));
                    },
                };
                let return_data = match &parts[1] {
                    Token::Bytes(b) => crate::encoder::copy_bytes(b),
                    _ => {
                        return Err(EthSenderError::Parse("failed to parse multicall token"));
                    },
                };
                Ok(Multicall3Result { success, return_data })
            },
            _ => Err(EthSenderError::Parse("failed to parse multicall token")),
        }
    }
}

/// A 32-byte hash read from a sub-call result, exactly 32 bytes long.
pub open spec fn spec_parse_hash(t: Token) -> Option<Seq<u8>> {
    if spec_result_ok(t) && spec_result_data(t).len() == 32 {
        Some(spec_result_data(t))
    } else {
        None
    }
}

/// An address read from a sub-call result: the low 20 bytes of a 32-byte
/// return.
pub open spec fn spec_parse_address(t: Token) -> Option<Seq<u8>> {
    if spec_result_ok(t) && spec_result_data(t).len() == 32 {
        Some(spec_result_data(t).subrange(12, 32))
    } else {
        None
    }
}

/// Raw minors below this bound are read as plain protocol versions; anything
/// higher must be a packed semantic version.
pub const PACKED_SEMVER_MINOR_MASK: u64 = 0xFFFF;

/// A protocol version read from a sub-call result: a 32-byte integer that is
/// either a raw minor below the packed-semver mask, or a packed semantic
/// version whose minor sits above the 32 patch bits.
pub open spec fn spec_parse_protocol_version(t: Token) -> Option<ProtocolVersionId> {
    if !(spec_result_ok(t) && spec_result_data(t).len() == 32) {
        None
    } else {
        match crate::abi::spec_u64_of_word(spec_result_data(t)) {
            None => None,
            Some(x) => {
                if x < PACKED_SEMVER_MINOR_MASK {
                    Some(ProtocolVersionId { minor: x as u16 })
                } else if x < 0x1000000000000 {
                    Some(ProtocolVersionId { minor: (x >> 32) as u16 })
                } else {
                    None
                }
            },
        }
    }
}

fn parse_hash(data: &Token) -> (r: Result<H256, EthSenderError>)
    ensures
        r is Ok <==> spec_parse_hash(*data) is Some,
        r matches Ok(v) ==> Some(v.bytes@) == spec_parse_hash(*data),
{
    let result = match Multicall3Result::from_token(data) {
        Ok(v) => v,
        Err(e) => {
            return Err(e);
        },
    };
    if result.return_data.len() != 32 {
        return Err(EthSenderError::Parse("multicall3 hash data is not of the len of 32"));
    }
    Ok(H256::from_slice(&result.return_data))
}

fn parse_address(data: &Token) -> (r: Result<Address, EthSenderError>)
    ensures
        r is Ok <==> spec_parse_address(*data) is Some,
        r matches Ok(v) ==> Some(v.bytes@) == spec_parse_address(*data),
{
    let result = match Multicall3Result::from_token(data) {
        Ok(v) => v,
        Err(e) => {
            return Err(e);
        },
    };
    if result.return_data.len() != 32 {
        return Err(EthSenderError::Parse("multicall3 address data is not of the len of 32"));
    }
    let mut bytes: [u8; 20] = [0u8; 20];
    let mut i: usize = 0;
    while i < 20
        invariant
            i <= 20,
            result.return_data@.len() == 32,
            bytes@.len() == 20,
            forall|j: int| 0 <= j < i ==> bytes@[j] == result.return_data@[12 + j],
        decreases 20 - i,
    {
        bytes[i] = result.return_data[12 + i];
        i += 1;
    }
    let a = Address { bytes };
    proof {
        assert(a.bytes@ =~= result.return_data@.subrange(12, 32));
    }
    Ok(a)
}

fn parse_protocol_version(data: &Token) -> (r: Result<ProtocolVersionId, EthSenderError>)
    ensures
        r is Ok <==> spec_parse_protocol_version(*data) is Some,
        r matches Ok(v) ==> Some(v) == spec_parse_protocol_version(*data),
{
    let result = match Multicall3Result::from_token(data) {
        Ok(v) => v,
        Err(e) => {
            return Err(e);
        },
    };
    if result.return_data.len() != 32 {
        return Err(
            EthSenderError::Parse("multicall3 protocol version data is not of the len of 32"),
        );
    }
    let x = match crate::abi::read_word_u64(&result.return_data, 0) {
        Some((x, _)) => x,
        None => {
            return Err(EthSenderError::Parse("protocol version does not fit a version word"));
        },
    };
    proof {
        assert(result.return_data@.subrange(0, 32) =~= result.return_data@);
    }
    if x < PACKED_SEMVER_MINOR_MASK {
        Ok(ProtocolVersionId { minor: x as u16 })
    } else if x < 0x1000000000000 {
        proof {
            assert(x >> 32 <= 0xFFFF) by (bit_vector)
                requires
                    x < 0x1000000000000u64,
            ;
        }
        Ok(ProtocolVersionId { minor: (x >> 32) as u16 })
    } else {
        Err(EthSenderError::Parse("protocol version is neither raw nor packed semver"))
    }
}

/// Data queried from the settlement layer with one multicall.
#[derive(Clone, Copy, Debug)]
pub struct MulticallData {
    pub base_system_contracts_hashes: BaseSystemContractsHashes,
    pub verifier_address: Address,
    pub chain_protocol_version_id: ProtocolVersionId,
    /// The validator timelock registered on the chain-type manager; used
    /// instead of the configured one while the two protocol versions agree.
    pub stm_validator_timelock_address: Address,
    pub stm_protocol_version_id: ProtocolVersionId,
}

/// The ghost value of a parsed multicall response.
pub ghost struct MulticallDataView {
    pub bootloader: Seq<u8>,
    pub default_aa: Seq<u8>,
    pub evm_emulator: Option<Seq<u8>>,
    pub verifier_address: Seq<u8>,
    pub chain_protocol_version_id: ProtocolVersionId,
    pub stm_validator_timelock_address: Seq<u8>,
    pub stm_protocol_version_id: ProtocolVersionId,
}

impl MulticallData {
    pub open spec fn view_spec(self) -> MulticallDataView {
        MulticallDataView {
            bootloader: self.base_system_contracts_hashes.bootloader.bytes@,
            default_aa: self.base_system_contracts_hashes.default_aa.bytes@,
            evm_emulator: match self.base_system_contracts_hashes.evm_emulator {
                Some(h) => Some(h.bytes@),
                None => None,
            },
            verifier_address: self.verifier_address.bytes@,
            chain_protocol_version_id: self.chain_protocol_version_id,
            stm_validator_timelock_address: self.stm_validator_timelock_address.bytes@,
            stm_protocol_version_id: self.stm_protocol_version_id,
        }
    }
}

/// The spec mirror of `parse_multicall_data`. The response must be an array
/// of exactly seven results, or eight when the EVM-emulator hash was
/// requested; the hash slots must return 32 bytes; the slot after the hashes
/// (the verifier parameters) is read but its value is not interpreted; the
/// remaining slots are the verifier address, the chain and chain-type-manager
/// protocol versions, and the timelock address.
pub open spec fn spec_parse_multicall(t: Token, requested: bool) -> Option<MulticallDataView> {
    match t {
        Token::Array(results) => {
            let n: int = if requested {
                8
            } else {
                7
            };
            let skip: int = if requested {
                3
            } else {
                2
            };
            if results@.len() != n {
                None
            } else {
                match spec_parse_hash(results@[0]) {
                    None => None,
                    Some(bootloader) => {
                        match spec_parse_hash(results@[1]) {
                            None => None,
                            Some(default_aa) => {
                                let emulator_ok = !requested || spec_parse_hash(
                                    results@[2],
                                ) is Some;
                                if !emulator_ok {
                                    None
                                } else {
                                    match spec_parse_address(results@[skip + 1]) {
                                        None => None,
                                        Some(verifier_address) => {
                                            match spec_parse_protocol_version(results@[skip + 2]) {
                                                None => None,
                                                Some(chain_pv) => {
                                                    match spec_parse_protocol_version(
                                                        results@[skip + 3],
                                                    ) {
                                                        None => None,
                                                        Some(stm_pv) => {
                                                            match spec_parse_address(
                                                                results@[skip + 4],
                                                            ) {
                                                                None => None,
                                                                Some(timelock) => Some(
                                                                    MulticallDataView {
                                                                        bootloader,
                                                                        default_aa,
                                                                        evm_emulator: if requested {
                                                                            spec_parse_hash(results@[2])
                                                                        } else {
                                                                            None
                                                                        },
                                                                        verifier_address,
                                                                        chain_protocol_version_id: chain_pv,
                                                                        stm_validator_timelock_address: timelock,
                                                                        stm_protocol_version_id: stm_pv,
                                                                    },
                                                                ),
                                                            }
                                                        },
                                                    }
                                                },
                                            }
                                        },
                                    }
                                }
                            },
                        }
                    },
                }
            }
        },
        _ => None,
    }
}

/// Parses the `aggregate3` response into the multicall data. Any shape
/// violation is a parse error.
pub fn parse_multicall_data(token: &Token, evm_emulator_hash_requested: bool) -> (r: Result<
    MulticallData,
    EthSenderError,
>)
    ensures
        r is Ok <==> spec_parse_multicall(*token, evm_emulator_hash_requested) is Some,
        r matches Ok(v) ==> Some(v.view_spec()) == spec_parse_multicall(
            *token,
            evm_emulator_hash_requested,
        ),
{
    let results = match token {
        Token::Array(results) => results,
        _ => {
            return Err(EthSenderError::Parse("multicall response is not an array"));
        },
    };
    let number_of_calls: usize = if evm_emulator_hash_requested {
        8
    } else {
        7
    };
    if results.len() != number_of_calls {
        return Err(EthSenderError::Parse("unexpected number of multicall results"));
    }
    let skip: usize = if evm_emulator_hash_requested {
        3
    } else {
        2
    };

    let bootloader = match parse_hash(&results[0]) {
        Ok(v) => v,
        Err(e) => {
            return Err(e);
        },
    };
    let default_aa = match parse_hash(&results[1]) {
        Ok(v) => v,
        Err(e) => {
            return Err(e);
        },
    };
    let evm_emulator = if evm_emulator_hash_requested {
        match parse_hash(&results[2]) {
            Ok(v) => Some(v),
            Err(e) => {
                return Err(e);
            },
        }
    } else {
        None
    };
    // The verifier-parameters slot at `skip` is requested for validation but
    // its value is not interpreted.
    let verifier_address = match parse_address(&results[skip + 1]) {
        Ok(v) => v,
        Err(e) => {
            return Err(e);
        },
    };
    let chain_protocol_version_id = match parse_protocol_version(&results[skip + 2]) {
        Ok(v) => v,
        Err(e) => {
            return Err(e);
        },
    };
    let stm_protocol_version_id = match parse_protocol_version(&results[skip + 3]) {
        Ok(v) => v,
        Err(e) => {
            return Err(e);
        },
    };
    let stm_validator_timelock_address = match parse_address(&results[skip + 4]) {
        Ok(v) => v,
        Err(e) => {
            return Err(e);
        },
    };

    Ok(
        MulticallData {
            base_system_contracts_hashes: BaseSystemContractsHashes {
                bootloader,
                default_aa,
                evm_emulator,
            },
            verifier_address,
            chain_protocol_version_id,
            stm_validator_timelock_address,
            stm_protocol_version_id,
        },
    )
}

/// The calldata of each getter the aggregator pre-flights, loaded from the
/// contract interfaces at wiring time.
#[derive(Clone, Debug)]
pub struct ZkSyncFunctions {
    pub get_l2_bootloader_bytecode_hash: Vec<u8>,
    pub get_l2_default_account_bytecode_hash: Vec<u8>,
    pub get_evm_emulator_bytecode_hash: Option<Vec<u8>>,
    pub get_verifier_params: Vec<u8>,
    pub get_verifier: Vec<u8>,
    pub get_protocol_version: Vec<u8>,
    pub stm_protocol_version: Vec<u8>,
    pub stm_validator_timelock: Vec<u8>,
    pub post_shared_bridge_commit: Vec<u8>,
    pub post_gateway_commit: Vec<u8>,
    pub post_shared_bridge_prove: Vec<u8>,
    pub post_gateway_prove: Vec<u8>,
    pub post_shared_bridge_execute: Vec<u8>,
    pub post_gateway_execute: Vec<u8>,
}

/// The expected sub-calls without the EVM-emulator read.
pub open spec fn spec_multicall_calls_7(
    f: ZkSyncFunctions,
    diamond: Seq<u8>,
    stm: Seq<u8>,
) -> Seq<(Seq<u8>, bool, Seq<u8>)> {
    seq![
        (diamond, false, f.get_l2_bootloader_bytecode_hash@),
        (diamond, false, f.get_l2_default_account_bytecode_hash@),
        (diamond, false, f.get_verifier_params@),
        (diamond, false, f.get_verifier@),
        (diamond, false, f.get_protocol_version@),
        (stm, false, f.stm_protocol_version@),
        (stm, false, f.stm_validator_timelock@),
    ]
}

/// The expected sub-calls with the EVM-emulator read inserted third.
pub open spec fn spec_multicall_calls_8(
    f: ZkSyncFunctions,
    emulator: Seq<u8>,
    diamond: Seq<u8>,
    stm: Seq<u8>,
) -> Seq<(Seq<u8>, bool, Seq<u8>)> {
    seq![
        (diamond, false, f.get_l2_bootloader_bytecode_hash@),
        (diamond, false, f.get_l2_default_account_bytecode_hash@),
        (diamond, false, emulator),
        (diamond, false, f.get_verifier_params@),
        (diamond, false, f.get_verifier@),
        (diamond, false, f.get_protocol_version@),
        (stm, false, f.stm_protocol_version@),
        (stm, false, f.stm_validator_timelock@),
    ]
}

/// Builds the `aggregate3` sub-calls: the diamond proxy is asked for its
/// bootloader hash, default-account hash, optionally the EVM-emulator hash,
/// the verifier parameters, the verifier address and the protocol version;
/// the chain-type manager for its protocol version and validator timelock.
/// No sub-call is allowed to fail. The flag says whether the emulator hash
/// was requested.
pub fn generate_calldata_for_multicall(
    functions: &ZkSyncFunctions,
    state_transition_chain_contract: Address,
    state_transition_manager_address: Address,
) -> (r: (Vec<Multicall3Call>, bool))
    ensures
        r.1 == functions.get_evm_emulator_bytecode_hash is Some,
        r.1 ==> r.0@.map_values(|c: Multicall3Call| spec_call_view(c)) == spec_multicall_calls_8(
            *functions,
            functions.get_evm_emulator_bytecode_hash->Some_0@,
            state_transition_chain_contract.bytes@,
            state_transition_manager_address.bytes@,
        ),
        !r.1 ==> r.0@.map_values(|c: Multicall3Call| spec_call_view(c)) == spec_multicall_calls_7(
            *functions,
            state_transition_chain_contract.bytes@,
            state_transition_manager_address.bytes@,
        ),
{
    let diamond = state_transition_chain_contract;
    let stm = state_transition_manager_address;
    let mut calls: Vec<Multicall3Call> = Vec::new();
    calls.push(
        Multicall3Call {
            target: diamond,
            allow_failure: false,
            calldata: crate::encoder::copy_bytes(&functions.get_l2_bootloader_bytecode_hash),
        },
    );
    calls.push(
        Multicall3Call {
            target: diamond,
            allow_failure: false,
            calldata: crate::encoder::copy_bytes(&functions.get_l2_default_account_bytecode_hash),
        },
    );
    let evm_emulator_hash_requested = match &functions.get_evm_emulator_bytecode_hash {
        Some(input) => {
            calls.push(
                Multicall3Call {
                    target: diamond,
                    allow_failure: false,
                    calldata: crate::encoder::copy_bytes(input),
                },
            );
            true
        },
        None => false,
    };
    calls.push(
        Multicall3Call {
            target: diamond,
            allow_failure: false,
            calldata: crate::encoder::copy_bytes(&functions.get_verifier_params),
        },
    );
    calls.push(
        Multicall3Call {
            target: diamond,
            allow_failure: false,
            calldata: crate::encoder::copy_bytes(&functions.get_verifier),
        },
    );
    calls.push(
        Multicall3Call {
            target: diamond,
            allow_failure: false,
            calldata: crate::encoder::copy_bytes(&functions.get_protocol_version),
        },
    );
    calls.push(
        Multicall3Call {
            target: stm,
            allow_failure: false,
            calldata: crate::encoder::copy_bytes(&functions.stm_protocol_version),
        },
    );
    calls.push(
        Multicall3Call {
            target: stm,
            allow_failure: false,
            calldata: crate::encoder::copy_bytes(&functions.stm_validator_timelock),
        },
    );
    proof {
        if evm_emulator_hash_requested {
            assert(calls@.map_values(|c: Multicall3Call| spec_call_view(c))
                =~= spec_multicall_calls_8(
                *functions,
                functions.get_evm_emulator_bytecode_hash->Some_0@,
                diamond.bytes@,
                stm.bytes@,
            ));
        } else {
            assert(calls@.map_values(|c: Multicall3Call| spec_call_view(c))
                =~= spec_multicall_calls_7(*functions, diamond.bytes@, stm.bytes@));
        }
    }
    (calls, evm_emulator_hash_requested)
}

/// The timelock to address: the chain-type manager's while the chain runs the
/// same protocol version as the manager, the configured one otherwise, so an
/// upgrade needs no simultaneous configuration change.
pub fn timelock_contract_address(
    config_timelock_contract_address: Address,
    chain_protocol_version_id: ProtocolVersionId,
    stm_protocol_version_id: ProtocolVersionId,
    stm_validator_timelock_address: Address,
) -> (r: Address)
    ensures
        chain_protocol_version_id == stm_protocol_version_id ==> r
            == stm_validator_timelock_address,
        chain_protocol_version_id != stm_protocol_version_id ==> r
            == config_timelock_contract_address,
{
    if chain_protocol_version_id == stm_protocol_version_id {
        stm_validator_timelock_address
    } else {
        config_timelock_contract_address
    }
}

} // verus!
