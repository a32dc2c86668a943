//! EIP-4844 blob sidecars for commit operations in blob-DA mode.
//!
//! Pubdata is split into blob-sized chunks; each chunk is zero-padded into a
//! blob and shipped with its KZG commitment, its proof, and the versioned
//! hash, which is the SHA-256 of the commitment with the first byte
//! overridden by the KZG version tag.

use sha2::Digest;
use vstd::prelude::*;

use crate::exec::FatalError;

verus! {

/// The usable bytes of one blob.
pub const ZK_SYNC_BYTES_PER_BLOB: usize = 126976;

/// The version tag a KZG versioned hash starts with.
pub const VERSIONED_HASH_VERSION_KZG: u8 = 1;

/// The SHA-256 digest of a byte string; the digest depends on the input
/// alone.
pub uninterp spec fn sha256_of(data: Seq<u8>) -> Seq<u8>;

/// Relies on sha2's SHA-256 implementation: the digest is a function of the
/// input bytes alone, and is 32 bytes long.
#[verifier::external_body]
fn sha256(data: &Vec<u8>) -> (r: Vec<u8>)
    ensures
        r@ == sha256_of(data@),
        r@.len() == 32,
{
    sha2::Sha256::digest(data.as_slice()).to_vec()
}

/// A versioned hash: the digest of the commitment, its first byte replaced
/// by the KZG version tag.
pub open spec fn spec_versioned_hash(commitment: Seq<u8>) -> Seq<u8> {
    sha256_of(commitment).update(0, VERSIONED_HASH_VERSION_KZG)
}

/// One blob with its KZG artifacts.
#[derive(Clone, Debug)]
pub struct SidecarBlobV1 {
    pub blob: Vec<u8>,
    pub commitment: Vec<u8>,
    pub proof: Vec<u8>,
    pub versioned_hash: Vec<u8>,
}

/// The sidecar attached to a blob-carrying commit transaction.
#[derive(Clone, Debug)]
pub struct EthTxBlobSidecarV1 {
    pub blobs: Vec<SidecarBlobV1>,
}

/// The blob sidecar format attached to an outbound transaction.
#[derive(Clone, Debug)]
pub enum EthTxBlobSidecar {
    V1(EthTxBlobSidecarV1),
}

/// The number of blobs a pubdata string of the given length needs.
pub open spec fn spec_blob_count(len: int) -> int {
    (len + (ZK_SYNC_BYTES_PER_BLOB - 1)) / (ZK_SYNC_BYTES_PER_BLOB as int)
}

/// Chunk `i` of the pubdata, zero-padded to a full blob.
pub open spec fn spec_blob_chunk(data: Seq<u8>, i: int) -> Seq<u8> {
    Seq::new(
        ZK_SYNC_BYTES_PER_BLOB as nat,
        |j: int|
            if i * ZK_SYNC_BYTES_PER_BLOB + j < data.len() {
                data[i * ZK_SYNC_BYTES_PER_BLOB + j]
            } else {
                0u8
            },
    )
}

/// Builds the blob sidecar of a commit: the pubdata is split into blob-sized
/// chunks, each paired with the KZG commitment and proof computed for it
/// outside. Every emitted versioned hash is the SHA-256 of its commitment
/// with the first byte overridden by the KZG version tag.
pub fn build_blob_sidecar(pubdata: &Vec<u8>, kzg: &Vec<(Vec<u8>, Vec<u8>)>) -> (r: Result<
    EthTxBlobSidecarV1,
    FatalError,
>)
    ensures
        r is Ok <==> kzg@.len() == spec_blob_count(pubdata@.len() as int),
        r matches Ok(sc) ==> {
            &&& sc.blobs@.len() == spec_blob_count(pubdata@.len() as int)
            &&& forall|i: int|
                0 <= i < sc.blobs@.len() ==> {
                    &&& (#[trigger] sc.blobs@[i]).blob@ == spec_blob_chunk(pubdata@, i)
                    &&& sc.blobs@[i].commitment@ == kzg@[i].0@
                    &&& sc.blobs@[i].proof@ == kzg@[i].1@
                    &&& sc.blobs@[i].versioned_hash@ == spec_versioned_hash(kzg@[i].0@)
                }
        },
{
    let len = pubdata.len();
    let chunk_count = if len == 0 {
        0
    } else {
        (len - 1) / ZK_SYNC_BYTES_PER_BLOB + 1
    };
    proof {
        assert(chunk_count == spec_blob_count(pubdata@.len() as int));
    }
    if kzg.len() != chunk_count {
        return Err(FatalError { msg: "one KZG commitment and proof is needed per blob" });
    }
    let mut blobs: Vec<SidecarBlobV1> = Vec::new();
    let mut i: usize = 0;
    while i < chunk_count
        invariant
            len == pubdata@.len(),
            chunk_count == spec_blob_count(len as int),
            chunk_count <= len,
            kzg@.len() == chunk_count,
            i <= chunk_count,
            blobs@.len() == i,
            forall|k: int|
                0 <= k < i ==> {
                    &&& (#[trigger] blobs@[k]).blob@ == spec_blob_chunk(pubdata@, k)
                    &&& blobs@[k].commitment@ == kzg@[k].0@
                    &&& blobs@[k].proof@ == kzg@[k].1@
                    &&& blobs@[k].versioned_hash@ == spec_versioned_hash(kzg@[k].0@)
                },
        decreases chunk_count - i,
    {
        let mut blob: Vec<u8> = Vec::new();
        let mut j: usize = 0;
        while j < ZK_SYNC_BYTES_PER_BLOB
            invariant
                len == pubdata@.len(),
                i < chunk_count,
                chunk_count <= len,
                chunk_count == spec_blob_count(len as int),
                j <= ZK_SYNC_BYTES_PER_BLOB,
                blob@.len() == j,
                forall|t: int| 0 <= t < j ==> blob@[t] == spec_blob_chunk(pubdata@, i as int)[t],
            decreases ZK_SYNC_BYTES_PER_BLOB - j,
        {
            proof {
                assert(i * ZK_SYNC_BYTES_PER_BLOB + j < chunk_count * ZK_SYNC_BYTES_PER_BLOB)
                    by (nonlinear_arith)
                    requires
                        0 <= i < chunk_count,
                        0 <= j < ZK_SYNC_BYTES_PER_BLOB,
                ;
            }
            let offset_ok = i < len / ZK_SYNC_BYTES_PER_BLOB || (i == len / ZK_SYNC_BYTES_PER_BLOB
                && j < len % ZK_SYNC_BYTES_PER_BLOB);
            proof {
                vstd::arithmetic::div_mod::lemma_fundamental_div_mod(
                    len as int,
                    ZK_SYNC_BYTES_PER_BLOB as int,
                );
                assert(offset_ok <==> i * ZK_SYNC_BYTES_PER_BLOB + j < len) by (nonlinear_arith)
                    requires
                        0 <= i,
                        0 <= j < ZK_SYNC_BYTES_PER_BLOB,
                        len == (len / ZK_SYNC_BYTES_PER_BLOB) * ZK_SYNC_BYTES_PER_BLOB + len
                            % ZK_SYNC_BYTES_PER_BLOB,
                        0 <= len % ZK_SYNC_BYTES_PER_BLOB < ZK_SYNC_BYTES_PER_BLOB,
                        offset_ok == (i < len / ZK_SYNC_BYTES_PER_BLOB || (i == len
                            / ZK_SYNC_BYTES_PER_BLOB && j < len % ZK_SYNC_BYTES_PER_BLOB)),
                ;
            }
            if offset_ok {
                blob.push(pubdata[i * ZK_SYNC_BYTES_PER_BLOB + j]);
            } else {
                blob.push(0u8);
            }
            j += 1;
        }
        proof {
            assert(blob@ =~= spec_blob_chunk(pubdata@, i as int));
        }
        let commitment = crate::encoder::copy_bytes(&kzg[i].0);
        let proof_bytes = crate::encoder::copy_bytes(&kzg[i].1);
        let mut versioned_hash = sha256(&commitment);
        versioned_hash.set(0, VERSIONED_HASH_VERSION_KZG);
        proof {
            assert(versioned_hash@ =~= spec_versioned_hash(kzg@[i as int].0@));
        }
        blobs.push(
            SidecarBlobV1 { blob, commitment, proof: proof_bytes, versioned_hash },
        );
        i += 1;
    }
    Ok(EthTxBlobSidecarV1 { blobs })
}

} // verus!
