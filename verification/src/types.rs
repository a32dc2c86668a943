//! Basic model types shared by the sequencer components: hashes, addresses,
//! protocol versions, and small enums describing on-chain operations.

use vstd::prelude::*;

verus! {

/// A 32-byte hash value (state roots, verification-key hashes, commitments).
#[derive(Clone, Copy, Debug, PartialEq, Eq)]
pub struct H256 {
    pub bytes: [u8; 32],
}

impl H256 {
    pub open spec fn spec_eq(self, other: H256) -> bool {
        self.bytes@ == other.bytes@
    }

    pub fn zero() -> (r: H256)
        ensures
            forall|i: int| 0 <= i < 32 ==> r.bytes@[i] == 0u8,
    {
        H256 { bytes: [0u8; 32] }
    }

    /// Builds a hash from exactly 32 bytes.
    pub fn from_slice(data: &Vec<u8>) -> (r: H256)
        requires
            data@.len() == 32,
        ensures
            r.bytes@ == data@,
    {
        let mut bytes: [u8; 32] = [0u8; 32];
        let mut i: usize = 0;
        while i < 32
            invariant
                data@.len() == 32,
                i <= 32,
                bytes@.len() == 32,
                forall|j: int| 0 <= j < i ==> bytes@[j] == data@[j],
            decreases 32 - i,
        {
            bytes[i] = data[i];
            i += 1;
        }
        let r = H256 { bytes };
        proof {
            assert(r.bytes@ =~= data@);
        }
        r
    }

    pub fn eq_bytes(&self, other: &H256) -> (r: bool)
        ensures
            r == self.spec_eq(*other),
    {
        let mut i: usize = 0;
        while i < 32
            invariant
                i <= 32,
                forall|j: int| 0 <= j < i ==> self.bytes@[j] == other.bytes@[j],
            decreases 32 - i,
        {
            if self.bytes[i] != other.bytes[i] {
                assert(self.bytes@[i as int] != other.bytes@[i as int]);
                assert(!(self.bytes@ =~= other.bytes@));
                return false;
            }
            i += 1;
        }
        proof {
            assert(self.bytes@ =~= other.bytes@);
        }
        true
    }
}

/// A 20-byte account address on the settlement layer.
#[derive(Clone, Copy, Debug, PartialEq, Eq)]
pub struct Address {
    pub bytes: [u8; 20],
}

impl Address {
    pub open spec fn spec_eq(self, other: Address) -> bool {
        self.bytes@ == other.bytes@
    }

    pub open spec fn is_zero_spec(self) -> bool {
        forall|i: int| 0 <= i < 20 ==> self.bytes@[i] == 0u8
    }

    pub fn zero() -> (r: Address)
        ensures
            r.is_zero_spec(),
    {
        Address { bytes: [0u8; 20] }
    }

    pub fn is_zero(&self) -> (r: bool)
        ensures
            r == self.is_zero_spec(),
    {
        let mut i: usize = 0;
        while i < 20
            invariant
                i <= 20,
                forall|j: int| 0 <= j < i ==> self.bytes@[j] == 0u8,
            decreases 20 - i,
        {
            if self.bytes[i] != 0u8 {
                return false;
            }
            i += 1;
        }
        true
    }

    pub fn eq_bytes(&self, other: &Address) -> (r: bool)
        ensures
            r == self.spec_eq(*other),
    {
        let mut i: usize = 0;
        while i < 20
            invariant
                i <= 20,
                forall|j: int| 0 <= j < i ==> self.bytes@[j] == other.bytes@[j],
            decreases 20 - i,
        {
            if self.bytes[i] != other.bytes[i] {
                assert(!(self.bytes@ =~= other.bytes@));
                return false;
            }
            i += 1;
        }
        proof {
            assert(self.bytes@ =~= other.bytes@);
        }
        true
    }
}

/// Hashes of the base system contracts a batch runs with.
#[derive(Clone, Copy, Debug)]
pub struct BaseSystemContractsHashes {
    pub bootloader: H256,
    pub default_aa: H256,
    pub evm_emulator: Option<H256>,
}

/// First protocol version that runs behind the shared bridge.
pub const SHARED_BRIDGE_VERSION: u16 = 23;

/// First protocol version settled through the gateway.
pub const GATEWAY_VERSION: u16 = 26;

/// First protocol version with interop message roots.
pub const INTEROP_VERSION: u16 = 28;

/// A protocol version: the minor component of the packed semantic version,
/// which alone governs VM semantics and ABI shape.
#[derive(Clone, Copy, Debug, PartialEq, Eq, Structural)]
pub struct ProtocolVersionId {
    pub minor: u16,
}

impl ProtocolVersionId {
    pub open spec fn is_pre_shared_bridge_spec(self) -> bool {
        self.minor < SHARED_BRIDGE_VERSION
    }

    pub open spec fn is_pre_gateway_spec(self) -> bool {
        self.minor < GATEWAY_VERSION
    }

    pub open spec fn is_pre_interop_spec(self) -> bool {
        self.minor < INTEROP_VERSION
    }

    pub fn is_pre_shared_bridge(&self) -> (r: bool)
        ensures
            r == self.is_pre_shared_bridge_spec(),
    {
        self.minor < SHARED_BRIDGE_VERSION
    }

    pub fn is_pre_gateway(&self) -> (r: bool)
        ensures
            r == self.is_pre_gateway_spec(),
    {
        self.minor < GATEWAY_VERSION
    }

    pub fn is_pre_interop(&self) -> (r: bool)
        ensures
            r == self.is_pre_interop_spec(),
    {
        self.minor < INTEROP_VERSION
    }

    /// The version introduced by the gateway upgrade.
    pub fn gateway_upgrade() -> (r: ProtocolVersionId)
        ensures
            r.minor == GATEWAY_VERSION,
    {
        ProtocolVersionId { minor: GATEWAY_VERSION }
    }
}

/// Where the chain stands in its migration to the gateway settlement layer.
#[derive(Clone, Copy, Debug, PartialEq, Eq, Structural)]
pub enum GatewayMigrationState {
    Not,
    Started,
    Finalized,
}

impl GatewayMigrationState {
    pub open spec fn is_gateway_spec(self) -> bool {
        self is Finalized
    }

    pub fn is_gateway(&self) -> (r: bool)
        ensures
            r == self.is_gateway_spec(),
    {
        matches!(self, GatewayMigrationState::Finalized)
    }
}

/// The kind of on-chain action an aggregated operation performs.
#[derive(Clone, Copy, Debug, PartialEq, Eq, Structural)]
pub enum AggregatedActionType {
    Commit,
    PublishProofOnchain,
    Execute,
}

/// How pubdata reaches the settlement layer.
#[derive(Clone, Copy, Debug, PartialEq, Eq, Structural)]
pub enum PubdataSendingMode {
    Calldata,
    Blobs,
    Custom,
    RelayedL2Calldata,
}

/// How batch commitments are generated.
#[derive(Clone, Copy, Debug, PartialEq, Eq, Structural)]
pub enum L1BatchCommitmentMode {
    Rollup,
    Validium,
}

} // verus!
