//! Protocol-versioned calldata encoding of aggregated operations.
//!
//! Each operation kind has a canonical payload encoding — in the crate's own
//! wire layout, not the contract ABI's offset tables — bifurcated by the
//! operation's own protocol version and the chain's protocol version, and a
//! decoder proved to invert it.

use vstd::prelude::*;

use crate::abi::{
    push_bytes, push_vec_bytes, push_word_u64, read_vec_bytes, read_word_u64, spec_enc_bytes,
    spec_enc_vec_bytes, spec_read_bytes, spec_read_vec_bytes, spec_read_word_u64, spec_word_u64,
};
use crate::batch::{
    lemma_read_stored, push_stored, read_stored, spec_all_len_32, spec_enc_stored,
    spec_h256_list_view, spec_read_stored, L1BatchWithMetadata, StoredBatchInfo,
    StoredBatchInfoView,
};
use crate::types::{H256, ProtocolVersionId, PubdataSendingMode};

verus! {

/// The version byte that opens every versioned operation payload.
pub const SUPPORTED_ENCODING_VERSION: u8 = 0;

/// Encodes a list of stored batch infos: each as a length-prefixed string.
pub open spec fn spec_enc_stored_list(vs: Seq<StoredBatchInfoView>) -> Seq<u8> {
    spec_enc_vec_bytes(vs.map_values(|v: StoredBatchInfoView| spec_enc_stored(v)))
}

pub open spec fn spec_stored_views(batches: Seq<StoredBatchInfo>) -> Seq<StoredBatchInfoView> {
    batches.map_values(|b: StoredBatchInfo| b.view_spec())
}

pub open spec fn spec_stored_list_wf(vs: Seq<StoredBatchInfoView>) -> bool {
    vs.len() <= u64::MAX && forall|i: int| 0 <= i < vs.len() ==> (#[trigger] vs[i]).wf()
}

/// Appends the encoding of a list of stored batch infos.
pub fn push_stored_list(out: &mut Vec<u8>, batches: &Vec<StoredBatchInfo>)
    ensures
        final(out)@ == old(out)@ + spec_enc_stored_list(spec_stored_views(batches@)),
{
    let ghost views = spec_stored_views(batches@);
    let mut items: Vec<Vec<u8>> = Vec::new();
    let n = batches.len();
    let mut i: usize = 0;
    proof {
        assert(items@.map_values(|v: Vec<u8>| v@) =~= views.take(0).map_values(
            |v: StoredBatchInfoView| spec_enc_stored(v),
        ));
    }
    while i < n
        invariant
            n == batches@.len(),
            views == spec_stored_views(batches@),
            i <= n,
            items@.map_values(|v: Vec<u8>| v@) == views.take(i as int).map_values(
                |v: StoredBatchInfoView| spec_enc_stored(v),
            ),
        decreases n - i,
    {
        let mut item: Vec<u8> = Vec::new();
        push_stored(&mut item, &batches[i]);
        proof {
            assert(item@ =~= spec_enc_stored(views[i as int]));
        }
        let ghost prev_items = items@.map_values(|v: Vec<u8>| v@);
        items.push(item);
        proof {
            assert(items@.map_values(|v: Vec<u8>| v@) =~= prev_items.push(
                spec_enc_stored(views[i as int]),
            ));
            assert(views.take(i + 1).map_values(|v: StoredBatchInfoView| spec_enc_stored(v)) =~= views.take(
                i as int,
            ).map_values(|v: StoredBatchInfoView| spec_enc_stored(v)).push(
                spec_enc_stored(views[i as int]),
            ));
        }
        i += 1;
    }
    proof {
        assert(views.take(n as int) =~= views);
    }
    push_vec_bytes(out, &items);
}

/// The spec mirror of decoding a list of stored-info strings.
pub open spec fn spec_dec_stored_all(items: Seq<Seq<u8>>) -> Option<Seq<StoredBatchInfoView>>
    decreases items.len(),
{
    if items.len() == 0 {
        Some(Seq::<StoredBatchInfoView>::empty())
    } else {
        match spec_dec_stored_all(items.drop_last()) {
            None => None,
            Some(rest) => {
                match spec_read_stored(items.last(), 0) {
                    None => None,
                    Some((v, p)) => {
                        if p == items.last().len() {
                            Some(rest.push(v))
                        } else {
                            None
                        }
                    },
                }
            },
        }
    }
}

/// The spec mirror of `read_stored_list`.
pub open spec fn spec_read_stored_list(data: Seq<u8>, pos: int) -> Option<
    (Seq<StoredBatchInfoView>, usize),
> {
    match spec_read_vec_bytes(data, pos) {
        None => None,
        Some((items, p)) => {
            match spec_dec_stored_all(items) {
                None => None,
                Some(vs) => Some((vs, p)),
            }
        },
    }
}

/// Reads a list of stored batch infos at `pos`.
pub fn read_stored_list(data: &Vec<u8>, pos: usize) -> (r: Option<(Vec<StoredBatchInfo>, usize)>)
    ensures
        r is Some <==> spec_read_stored_list(data@, pos as int) is Some,
        r matches Some(v) ==> {
            &&& spec_read_stored_list(data@, pos as int) matches Some(w) && spec_stored_views(
                v.0@,
            ) == w.0 && v.1 == w.1
        },
{
    let (items, p) = match read_vec_bytes(data, pos) {
        Some(v) => v,
        None => {
            return None;
        },
    };
    let ghost item_views = items@.map_values(|b: Vec<u8>| b@);
    let mut out: Vec<StoredBatchInfo> = Vec::new();
    let n = items.len();
    let mut i: usize = 0;
    proof {
        assert(item_views.take(0) =~= Seq::<Seq<u8>>::empty());
        assert(spec_stored_views(out@) =~= Seq::<StoredBatchInfoView>::empty());
    }
    while i < n
        invariant
            n == items@.len(),
            item_views == items@.map_values(|b: Vec<u8>| b@),
            spec_read_vec_bytes(data@, pos as int) matches Some(w) && w.0 == item_views && w.1
                == p,
            i <= n,
            spec_dec_stored_all(item_views.take(i as int)) == Some(spec_stored_views(out@)),
        decreases n - i,
    {
        let (s, used) = match read_stored(&items[i], 0) {
            Some(v) => v,
            None => {
                proof {
                    lemma_dec_stored_all_fail_rec(item_views, i as int);
                }
                return None;
            },
        };
        if used != items[i].len() {
            proof {
                lemma_dec_stored_all_fail_rec(item_views, i as int);
            }
            return None;
        }
        let ghost prev_out = spec_stored_views(out@);
        out.push(s);
        proof {
            assert(item_views.take(i + 1).drop_last() =~= item_views.take(i as int));
            assert(item_views.take(i + 1).last() == item_views[i as int]);
            assert(spec_stored_views(out@) =~= prev_out.push(s.view_spec()));
        }
        i += 1;
    }
    proof {
        assert(item_views.take(n as int) =~= item_views);
    }
    Some((out, p))
}

/// When decoding item `k` fails, the whole list fails.
proof fn lemma_dec_stored_all_fail_rec(items: Seq<Seq<u8>>, k: int)
    requires
        0 <= k < items.len(),
        (spec_read_stored(items[k], 0) matches Some(v) ==> v.1 != items[k].len()),
    ensures
        spec_dec_stored_all(items) is None,
    decreases items.len(),
{
    if k == items.len() - 1 {
    } else {
        assert(items.drop_last()[k] == items[k]);
        lemma_dec_stored_all_fail_rec(items.drop_last(), k);
    }
}

/// Decoding the encodings of stored infos gives back their views.
pub proof fn lemma_dec_stored_all_roundtrip(vs: Seq<StoredBatchInfoView>)
    requires
        forall|i: int| 0 <= i < vs.len() ==> (#[trigger] vs[i]).wf(),
    ensures
        spec_dec_stored_all(vs.map_values(|v: StoredBatchInfoView| spec_enc_stored(v))) == Some(
            vs,
        ),
    decreases vs.len(),
{
    let items = vs.map_values(|v: StoredBatchInfoView| spec_enc_stored(v));
    if vs.len() == 0 {
        assert(items.len() == 0);
        assert(Seq::<StoredBatchInfoView>::empty() =~= vs);
    } else {
        assert(items.drop_last() =~= vs.drop_last().map_values(
            |v: StoredBatchInfoView| spec_enc_stored(v),
        ));
        lemma_dec_stored_all_roundtrip(vs.drop_last());
        let last = vs.last();
        lemma_read_stored(Seq::<u8>::empty(), last, Seq::<u8>::empty());
        assert(Seq::<u8>::empty() + spec_enc_stored(last) + Seq::<u8>::empty() =~= spec_enc_stored(
            last,
        ));
        assert(items.last() == spec_enc_stored(last));
        assert(vs.drop_last().push(last) =~= vs);
    }
}

/// The full round trip for a stored-info list.
pub proof fn lemma_read_stored_list_roundtrip(
    prefix: Seq<u8>,
    vs: Seq<StoredBatchInfoView>,
    suffix: Seq<u8>,
)
    requires
        spec_stored_list_wf(vs),
        prefix.len() + spec_enc_stored_list(vs).len() + suffix.len() <= usize::MAX,
    ensures
        spec_read_stored_list(prefix + spec_enc_stored_list(vs) + suffix, prefix.len() as int)
            == Some((vs, (prefix.len() + spec_enc_stored_list(vs).len()) as usize)),
{
    let items = vs.map_values(|v: StoredBatchInfoView| spec_enc_stored(v));
    assert forall|i: int| 0 <= i < items.len() implies #[trigger] items[i].len() <= u64::MAX by {
        lemma_read_stored(Seq::<u8>::empty(), vs[i], Seq::<u8>::empty());
    }
    crate::abi::lemma_read_vec_bytes(prefix, items, suffix);
    lemma_dec_stored_all_roundtrip(vs);
}

/// Copies a byte vector (the canonical copy used when assembling payloads).
pub fn copy_bytes(v: &Vec<u8>) -> (r: Vec<u8>)
    ensures
        r@ == v@,
{
    let mut out: Vec<u8> = Vec::new();
    crate::abi::push_all(&mut out, v);
    proof {
        assert(out@ =~= v@);
    }
    out
}

/// Encodes a list of 32-byte hash words, each length-prefixed.
pub open spec fn spec_enc_h256_list(hs: Seq<Seq<u8>>) -> Seq<u8> {
    spec_enc_vec_bytes(hs)
}

pub fn push_h256_list(out: &mut Vec<u8>, hs: &Vec<H256>)
    ensures
        final(out)@ == old(out)@ + spec_enc_h256_list(spec_h256_list_view(hs@)),
{
    let ghost views = spec_h256_list_view(hs@);
    let mut items: Vec<Vec<u8>> = Vec::new();
    let n = hs.len();
    let mut i: usize = 0;
    proof {
        assert(items@.map_values(|v: Vec<u8>| v@) =~= views.take(0));
    }
    while i < n
        invariant
            n == hs@.len(),
            views == spec_h256_list_view(hs@),
            i <= n,
            items@.map_values(|v: Vec<u8>| v@) == views.take(i as int),
        decreases n - i,
    {
        let mut item: Vec<u8> = Vec::new();
        crate::abi::push_h256(&mut item, &hs[i]);
        proof {
            assert(item@ =~= views[i as int]);
        }
        let ghost prev_items = items@.map_values(|v: Vec<u8>| v@);
        items.push(item);
        proof {
            assert(items@.map_values(|v: Vec<u8>| v@) =~= prev_items.push(views[i as int]));
            assert(views.take(i + 1) =~= views.take(i as int).push(views[i as int]));
        }
        i += 1;
    }
    proof {
        assert(views.take(n as int) =~= views);
    }
    push_vec_bytes(out, &items);
}

/// The spec mirror of `read_h256_list`: the items, when every one of them is
/// exactly 32 bytes.
pub open spec fn spec_read_h256_list(data: Seq<u8>, pos: int) -> Option<(Seq<Seq<u8>>, usize)> {
    match spec_read_vec_bytes(data, pos) {
        None => None,
        Some((items, p)) => {
            if spec_all_len_32(items) {
                Some((items, p))
            } else {
                None
            }
        },
    }
}

pub fn read_h256_list(data: &Vec<u8>, pos: usize) -> (r: Option<(Vec<H256>, usize)>)
    ensures
        r is Some <==> spec_read_h256_list(data@, pos as int) is Some,
        r matches Some(v) ==> {
            &&& spec_read_h256_list(data@, pos as int) matches Some(w) && spec_h256_list_view(
                v.0@,
            ) == w.0 && v.1 == w.1
        },
{
    let (items, p) = match read_vec_bytes(data, pos) {
        Some(v) => v,
        None => {
            return None;
        },
    };
    let ghost item_views = items@.map_values(|b: Vec<u8>| b@);
    let mut out: Vec<H256> = Vec::new();
    let n = items.len();
    let mut i: usize = 0;
    proof {
        assert(spec_h256_list_view(out@) =~= item_views.take(0));
    }
    while i < n
        invariant
            n == items@.len(),
            item_views == items@.map_values(|b: Vec<u8>| b@),
            spec_read_vec_bytes(data@, pos as int) matches Some(w) && w.0 == item_views && w.1
                == p,
            i <= n,
            spec_h256_list_view(out@) == item_views.take(i as int),
            forall|j: int| 0 <= j < i ==> #[trigger] item_views[j].len() == 32,
        decreases n - i,
    {
        if items[i].len() != 32 {
            proof {
                assert(item_views[i as int].len() != 32);
                assert(!spec_all_len_32(item_views));
            }
            return None;
        }
        let h = H256::from_slice(&items[i]);
        let ghost prev_out = spec_h256_list_view(out@);
        out.push(h);
        proof {
            assert(spec_h256_list_view(out@) =~= prev_out.push(h.bytes@));
            assert(item_views.take(i + 1) =~= item_views.take(i as int).push(item_views[i as int]));
        }
        i += 1;
    }
    proof {
        assert(item_views.take(n as int) =~= item_views);
    }
    Some((out, p))
}

/// The full round trip for a hash list.
pub proof fn lemma_read_h256_list_roundtrip(prefix: Seq<u8>, hs: Seq<Seq<u8>>, suffix: Seq<u8>)
    requires
        hs.len() <= u64::MAX,
        spec_all_len_32(hs),
        prefix.len() + spec_enc_h256_list(hs).len() + suffix.len() <= usize::MAX,
    ensures
        spec_read_h256_list(prefix + spec_enc_h256_list(hs) + suffix, prefix.len() as int) == Some(
            (hs, (prefix.len() + spec_enc_h256_list(hs).len()) as usize),
        ),
{
    assert forall|i: int| 0 <= i < hs.len() implies #[trigger] hs[i].len() <= u64::MAX by {}
    crate::abi::lemma_read_vec_bytes(prefix, hs, suffix);
}

/// The pubdata-availability mode as a code word.
pub open spec fn spec_da_code(m: PubdataSendingMode) -> u64 {
    match m {
        PubdataSendingMode::Calldata => 0,
        PubdataSendingMode::Blobs => 1,
        PubdataSendingMode::Custom => 2,
        PubdataSendingMode::RelayedL2Calldata => 3,
    }
}

pub fn da_code(m: PubdataSendingMode) -> (r: u64)
    ensures
        r == spec_da_code(m),
{
    match m {
        PubdataSendingMode::Calldata => 0,
        PubdataSendingMode::Blobs => 1,
        PubdataSendingMode::Custom => 2,
        PubdataSendingMode::RelayedL2Calldata => 3,
    }
}

pub open spec fn spec_da_of_code(c: u64) -> Option<PubdataSendingMode> {
    if c == 0 {
        Some(PubdataSendingMode::Calldata)
    } else if c == 1 {
        Some(PubdataSendingMode::Blobs)
    } else if c == 2 {
        Some(PubdataSendingMode::Custom)
    } else if c == 3 {
        Some(PubdataSendingMode::RelayedL2Calldata)
    } else {
        None
    }
}

/// The stored-info views of a batch list.
pub open spec fn spec_batch_stored_views(bs: Seq<L1BatchWithMetadata>) -> Seq<
    StoredBatchInfoView,
> {
    bs.map_values(|b: L1BatchWithMetadata| b.stored.view_spec())
}

/// The pubdata strings of a batch list; a batch without pubdata contributes
/// the empty string.
pub open spec fn spec_batch_pubdata(bs: Seq<L1BatchWithMetadata>) -> Seq<Seq<u8>> {
    bs.map_values(
        |b: L1BatchWithMetadata|
            match b.pubdata_input {
                Some(v) => v@,
                None => Seq::<u8>::empty(),
            },
    )
}

fn stored_of_batches(batches: &Vec<L1BatchWithMetadata>) -> (r: Vec<StoredBatchInfo>)
    ensures
        spec_stored_views(r@) == spec_batch_stored_views(batches@),
{
    let mut out: Vec<StoredBatchInfo> = Vec::new();
    let n = batches.len();
    let mut i: usize = 0;
    proof {
        assert(spec_stored_views(out@) =~= spec_batch_stored_views(batches@).take(0));
    }
    while i < n
        invariant
            n == batches@.len(),
            i <= n,
            spec_stored_views(out@) == spec_batch_stored_views(batches@).take(i as int),
        decreases n - i,
    {
        let ghost prev = spec_stored_views(out@);
        out.push(batches[i].stored);
        proof {
            assert(spec_stored_views(out@) =~= prev.push(batches@[i as int].stored.view_spec()));
            assert(spec_batch_stored_views(batches@).take(i + 1) =~= spec_batch_stored_views(
                batches@,
            ).take(i as int).push(batches@[i as int].stored.view_spec()));
        }
        i += 1;
    }
    proof {
        assert(spec_batch_stored_views(batches@).take(n as int) =~= spec_batch_stored_views(
            batches@,
        ));
    }
    out
}

fn pubdata_of_batches(batches: &Vec<L1BatchWithMetadata>) -> (r: Vec<Vec<u8>>)
    ensures
        r@.map_values(|v: Vec<u8>| v@) == spec_batch_pubdata(batches@),
{
    let mut out: Vec<Vec<u8>> = Vec::new();
    let n = batches.len();
    let mut i: usize = 0;
    proof {
        assert(out@.map_values(|v: Vec<u8>| v@) =~= spec_batch_pubdata(batches@).take(0));
    }
    while i < n
        invariant
            n == batches@.len(),
            i <= n,
            out@.map_values(|v: Vec<u8>| v@) == spec_batch_pubdata(batches@).take(i as int),
        decreases n - i,
    {
        let item: Vec<u8> = match &batches[i].pubdata_input {
            Some(v) => copy_bytes(v),
            None => Vec::new(),
        };
        proof {
            assert(item@ =~= spec_batch_pubdata(batches@)[i as int]);
        }
        let ghost prev = out@.map_values(|v: Vec<u8>| v@);
        out.push(item);
        proof {
            assert(out@.map_values(|v: Vec<u8>| v@) =~= prev.push(
                spec_batch_pubdata(batches@)[i as int],
            ));
            assert(spec_batch_pubdata(batches@).take(i + 1) =~= spec_batch_pubdata(
                batches@,
            ).take(i as int).push(spec_batch_pubdata(batches@)[i as int]));
        }
        i += 1;
    }
    proof {
        assert(spec_batch_pubdata(batches@).take(n as int) =~= spec_batch_pubdata(batches@));
    }
    out
}

/// The ghost value of a commit payload.
pub ghost struct CommitPayloadView {
    pub last_committed: StoredBatchInfoView,
    pub batches: Seq<StoredBatchInfoView>,
    pub pubdata: Seq<Seq<u8>>,
    pub pubdata_da: PubdataSendingMode,
}

/// The commit payload: the last committed batch, the stored infos of the
/// batches to commit, their pubdata strings, and the DA mode word.
pub open spec fn spec_enc_commit_payload(v: CommitPayloadView) -> Seq<u8> {
    spec_enc_stored(v.last_committed) + spec_enc_stored_list(v.batches) + spec_enc_vec_bytes(
        v.pubdata,
    ) + spec_word_u64(spec_da_code(v.pubdata_da))
}

/// The spec mirror of `decode_commit_payload`; consumes the whole input.
pub open spec fn spec_dec_commit_payload(data: Seq<u8>) -> Option<CommitPayloadView> {
    match spec_read_stored(data, 0) {
        None => None,
        Some((last_committed, p1)) => {
            match spec_read_stored_list(data, p1 as int) {
                None => None,
                Some((batches, p2)) => {
                    match spec_read_vec_bytes(data, p2 as int) {
                        None => None,
                        Some((pubdata, p3)) => {
                            match spec_read_word_u64(data, p3 as int) {
                                None => None,
                                Some((code, p4)) => {
                                    match spec_da_of_code(code) {
                                        None => None,
                                        Some(pubdata_da) => {
                                            if p4 == data.len() {
                                                Some(
                                                    CommitPayloadView {
                                                        last_committed,
                                                        batches,
                                                        pubdata,
                                                        pubdata_da,
                                                    },
                                                )
                                            } else {
                                                None
                                            }
                                        },
                                    }
                                },
                            }
                        },
                    }
                },
            }
        },
    }
}

/// Encodes the commit payload of a batch range.
pub fn encode_commit_payload(
    last_committed_l1_batch: &StoredBatchInfo,
    l1_batches: &Vec<L1BatchWithMetadata>,
    pubdata_da: PubdataSendingMode,
) -> (r: Vec<u8>)
    ensures
        r@ == spec_enc_commit_payload(
            CommitPayloadView {
                last_committed: last_committed_l1_batch.view_spec(),
                batches: spec_batch_stored_views(l1_batches@),
                pubdata: spec_batch_pubdata(l1_batches@),
                pubdata_da,
            },
        ),
{
    let mut out: Vec<u8> = Vec::new();
    push_stored(&mut out, last_committed_l1_batch);
    let stored = stored_of_batches(l1_batches);
    push_stored_list(&mut out, &stored);
    let pubdata = pubdata_of_batches(l1_batches);
    push_vec_bytes(&mut out, &pubdata);
    push_word_u64(&mut out, da_code(pubdata_da));
    proof {
        assert(out@ =~= spec_enc_commit_payload(
            CommitPayloadView {
                last_committed: last_committed_l1_batch.view_spec(),
                batches: spec_batch_stored_views(l1_batches@),
                pubdata: spec_batch_pubdata(l1_batches@),
                pubdata_da,
            },
        ));
    }
    out
}

/// Decodes a commit payload.
pub fn decode_commit_payload(data: &Vec<u8>) -> (r: Option<
    (StoredBatchInfo, Vec<StoredBatchInfo>, Vec<Vec<u8>>, PubdataSendingMode),
>)
    ensures
        r is Some <==> spec_dec_commit_payload(data@) is Some,
        r matches Some(v) ==> {
            &&& spec_dec_commit_payload(data@) matches Some(w) && v.0.view_spec()
                == w.last_committed && spec_stored_views(v.1@) == w.batches && v.2@.map_values(
                |b: Vec<u8>| b@,
            ) == w.pubdata && v.3 == w.pubdata_da
        },
{
    let (last, p1) = match read_stored(data, 0) {
        Some(v) => v,
        None => {
            return None;
        },
    };
    let (batches, p2) = match read_stored_list(data, p1) {
        Some(v) => v,
        None => {
            return None;
        },
    };
    let (pubdata, p3) = match read_vec_bytes(data, p2) {
        Some(v) => v,
        None => {
            return None;
        },
    };
    let (code, p4) = match read_word_u64(data, p3) {
        Some(v) => v,
        None => {
            return None;
        },
    };
    let da = if code == 0 {
        PubdataSendingMode::Calldata
    } else if code == 1 {
        PubdataSendingMode::Blobs
    } else if code == 2 {
        PubdataSendingMode::Custom
    } else if code == 3 {
        PubdataSendingMode::RelayedL2Calldata
    } else {
        return None;
    };
    if p4 != data.len() {
        return None;
    }
    Some((last, batches, pubdata, da))
}

/// Law: decoding an encoded commit payload gives back every component.
pub proof fn lemma_commit_payload_roundtrip(v: CommitPayloadView)
    requires
        v.last_committed.wf(),
        spec_stored_list_wf(v.batches),
        v.pubdata.len() <= u64::MAX,
        forall|i: int| 0 <= i < v.pubdata.len() ==> #[trigger] v.pubdata[i].len() <= u64::MAX,
        spec_enc_commit_payload(v).len() <= usize::MAX,
    ensures
        spec_dec_commit_payload(spec_enc_commit_payload(v)) == Some(v),
{
    let data = spec_enc_commit_payload(v);
    let e1 = spec_enc_stored(v.last_committed);
    let e2 = spec_enc_stored_list(v.batches);
    let e3 = spec_enc_vec_bytes(v.pubdata);
    let e4 = spec_word_u64(spec_da_code(v.pubdata_da));
    assert(data =~= Seq::<u8>::empty() + e1 + (e2 + e3 + e4));
    lemma_read_stored(Seq::<u8>::empty(), v.last_committed, e2 + e3 + e4);
    assert(data =~= e1 + e2 + (e3 + e4));
    lemma_read_stored_list_roundtrip(e1, v.batches, e3 + e4);
    assert forall|i: int| 0 <= i < v.pubdata.len() implies #[trigger] v.pubdata[i].len()
        <= u64::MAX by {}
    assert(data =~= (e1 + e2) + e3 + e4);
    crate::abi::lemma_read_vec_bytes(e1 + e2, v.pubdata, e4);
    assert(data =~= (e1 + e2 + e3) + e4 + Seq::<u8>::empty());
    crate::abi::lemma_read_word_u64(e1 + e2 + e3, spec_da_code(v.pubdata_da), Seq::<u8>::empty());
}

/// Appends 20 raw bytes (an address).
fn push_address(out: &mut Vec<u8>, a: &crate::types::Address)
    ensures
        final(out)@ == old(out)@ + a.bytes@,
{
    let ghost prior = out@;
    let mut i: usize = 0;
    while i < 20
        invariant
            i <= 20,
            out@ == prior + a.bytes@.take(i as int),
        decreases 20 - i,
    {
        out.push(a.bytes[i]);
        proof {
            assert(prior + a.bytes@.take(i + 1) =~= (prior + a.bytes@.take(i as int)).push(
                a.bytes@[i as int],
            ));
        }
        i += 1;
    }
    proof {
        assert(a.bytes@.take(20) =~= a.bytes@);
    }
}

/// Reads 20 raw bytes at `pos` as an address.
fn read_address(data: &Vec<u8>, pos: usize) -> (r: Option<(crate::types::Address, usize)>)
    ensures
        r is Some <==> pos + 20 <= data@.len(),
        r matches Some(v) ==> v.0.bytes@ == data@.subrange(pos as int, pos as int + 20) && v.1
            == pos + 20,
{
    if data.len() < 20 || pos > data.len() - 20 {
        return None;
    }
    let mut bytes: [u8; 20] = [0u8; 20];
    let mut i: usize = 0;
    while i < 20
        invariant
            i <= 20,
            pos + 20 <= data@.len(),
            data@.len() <= usize::MAX,
            bytes@.len() == 20,
            forall|j: int| 0 <= j < i ==> bytes@[j] == data@[pos + j],
        decreases 20 - i,
    {
        bytes[i] = data[pos + i];
        i += 1;
    }
    let a = crate::types::Address { bytes };
    proof {
        assert(a.bytes@ =~= data@.subrange(pos as int, pos as int + 20));
    }
    Some((a, pos + 20))
}

use crate::batch::{L2ToL1Log, L2ToL1LogView, PriorityOpsMerkleProof, PriorityOpsProofView};

/// The 118-byte encoding of one L2-to-L1 log: shard and service bytes, the
/// transaction number word, then the raw sender, key and value.
pub open spec fn spec_enc_log(v: L2ToL1LogView) -> Seq<u8> {
    seq![v.shard_id, (if v.is_service { 1u8 } else { 0u8 })] + spec_word_u64(
        v.tx_number_in_block as u64,
    ) + v.sender + v.key + v.value
}

pub fn push_log(out: &mut Vec<u8>, l: &L2ToL1Log)
    ensures
        final(out)@ == old(out)@ + spec_enc_log(l.view_spec()),
{
    out.push(l.shard_id);
    out.push(if l.is_service { 1u8 } else { 0u8 });
    push_word_u64(out, l.tx_number_in_block as u64);
    push_address(out, &l.sender);
    crate::abi::push_h256(out, &l.key);
    crate::abi::push_h256(out, &l.value);
    proof {
        assert(out@ =~= old(out)@ + spec_enc_log(l.view_spec()));
    }
}

/// The spec mirror of `read_log`.
pub open spec fn spec_read_log(data: Seq<u8>, pos: int) -> Option<(L2ToL1LogView, usize)> {
    if pos < 0 || pos + 118 > data.len() || pos + 118 > usize::MAX {
        None
    } else {
        match spec_read_word_u64(data, pos + 2) {
            None => None,
            Some((txno, _)) => {
                if txno > u16::MAX {
                    None
                } else {
                    Some(
                        (
                            L2ToL1LogView {
                                shard_id: data[pos],
                                is_service: data[pos + 1] != 0,
                                tx_number_in_block: txno as u16,
                                sender: data.subrange(pos + 34, pos + 54),
                                key: data.subrange(pos + 54, pos + 86),
                                value: data.subrange(pos + 86, pos + 118),
                            },
                            (pos + 118) as usize,
                        ),
                    )
                }
            },
        }
    }
}

pub fn read_log(data: &Vec<u8>, pos: usize) -> (r: Option<(L2ToL1Log, usize)>)
    ensures
        r is Some <==> spec_read_log(data@, pos as int) is Some,
        r matches Some(v) ==> {
            &&& spec_read_log(data@, pos as int) matches Some(w) && v.0.view_spec() == w.0 && v.1
                == w.1
        },
{
    if data.len() < 118 || pos > data.len() - 118 {
        return None;
    }
    let shard_id = data[pos];
    let service_byte = data[pos + 1];
    let (txno, _p) = match read_word_u64(data, pos + 2) {
        Some(v) => v,
        None => {
            return None;
        },
    };
    if txno > u16::MAX as u64 {
        return None;
    }
    let (sender, p2) = match read_address(data, pos + 34) {
        Some(v) => v,
        None => {
            return None;
        },
    };
    let (key, p3) = match crate::abi::read_h256(data, p2) {
        Some(v) => v,
        None => {
            return None;
        },
    };
    let (value, p4) = match crate::abi::read_h256(data, p3) {
        Some(v) => v,
        None => {
            return None;
        },
    };
    Some(
        (
            L2ToL1Log {
                shard_id,
                is_service: service_byte != 0,
                tx_number_in_block: txno as u16,
                sender,
                key,
                value,
            },
            p4,
        ),
    )
}

/// Reading a log written at `pos` gives it back.
pub proof fn lemma_read_log(prefix: Seq<u8>, v: L2ToL1LogView, suffix: Seq<u8>)
    requires
        v.wf(),
        prefix.len() + 118 + suffix.len() <= usize::MAX,
    ensures
        spec_enc_log(v).len() == 118,
        spec_read_log(prefix + spec_enc_log(v) + suffix, prefix.len() as int) == Some(
            (v, (prefix.len() + 118) as usize),
        ),
{
    let data = prefix + spec_enc_log(v) + suffix;
    let pos = prefix.len() as int;
    let head = seq![v.shard_id, (if v.is_service { 1u8 } else { 0u8 })];
    assert(data =~= (prefix + head) + spec_word_u64(v.tx_number_in_block as u64) + (v.sender
        + v.key + v.value + suffix));
    crate::abi::lemma_read_word_u64(
        prefix + head,
        v.tx_number_in_block as u64,
        v.sender + v.key + v.value + suffix,
    );
    assert(data[pos] == v.shard_id);
    assert(data[pos + 1] == (if v.is_service { 1u8 } else { 0u8 }));
    assert(data.subrange(pos + 34, pos + 54) =~= v.sender);
    assert(data.subrange(pos + 54, pos + 86) =~= v.key);
    assert(data.subrange(pos + 86, pos + 118) =~= v.value);
}

pub open spec fn spec_log_views(ls: Seq<L2ToL1Log>) -> Seq<L2ToL1LogView> {
    ls.map_values(|l: L2ToL1Log| l.view_spec())
}

pub open spec fn spec_log_list_wf(ls: Seq<L2ToL1LogView>) -> bool {
    ls.len() <= u64::MAX && forall|i: int| 0 <= i < ls.len() ==> (#[trigger] ls[i]).wf()
}

/// A list of logs: each log length-prefixed inside a count-prefixed vector.
pub open spec fn spec_enc_log_list(ls: Seq<L2ToL1LogView>) -> Seq<u8> {
    spec_enc_vec_bytes(ls.map_values(|l: L2ToL1LogView| spec_enc_log(l)))
}

pub fn push_log_list(out: &mut Vec<u8>, logs: &Vec<L2ToL1Log>)
    ensures
        final(out)@ == old(out)@ + spec_enc_log_list(spec_log_views(logs@)),
{
    let ghost views = spec_log_views(logs@);
    let mut items: Vec<Vec<u8>> = Vec::new();
    let n = logs.len();
    let mut i: usize = 0;
    proof {
        assert(items@.map_values(|v: Vec<u8>| v@) =~= views.take(0).map_values(
            |l: L2ToL1LogView| spec_enc_log(l),
        ));
    }
    while i < n
        invariant
            n == logs@.len(),
            views == spec_log_views(logs@),
            i <= n,
            items@.map_values(|v: Vec<u8>| v@) == views.take(i as int).map_values(
                |l: L2ToL1LogView| spec_enc_log(l),
            ),
        decreases n - i,
    {
        let mut item: Vec<u8> = Vec::new();
        push_log(&mut item, &logs[i]);
        proof {
            assert(item@ =~= spec_enc_log(views[i as int]));
        }
        let ghost prev = items@.map_values(|v: Vec<u8>| v@);
        items.push(item);
        proof {
            assert(items@.map_values(|v: Vec<u8>| v@) =~= prev.push(spec_enc_log(views[i as int])));
            assert(views.take(i + 1).map_values(|l: L2ToL1LogView| spec_enc_log(l)) =~= views.take(
                i as int,
            ).map_values(|l: L2ToL1LogView| spec_enc_log(l)).push(spec_enc_log(views[i as int])));
        }
        i += 1;
    }
    proof {
        assert(views.take(n as int) =~= views);
    }
    push_vec_bytes(out, &items);
}

/// The spec mirror of decoding a list of log strings.
pub open spec fn spec_dec_log_all(items: Seq<Seq<u8>>) -> Option<Seq<L2ToL1LogView>>
    decreases items.len(),
{
    if items.len() == 0 {
        Some(Seq::<L2ToL1LogView>::empty())
    } else {
        match spec_dec_log_all(items.drop_last()) {
            None => None,
            Some(rest) => {
                match spec_read_log(items.last(), 0) {
                    None => None,
                    Some((v, p)) => {
                        if p == items.last().len() {
                            Some(rest.push(v))
                        } else {
                            None
                        }
                    },
                }
            },
        }
    }
}

/// The spec mirror of `read_log_list`.
pub open spec fn spec_read_log_list(data: Seq<u8>, pos: int) -> Option<(Seq<L2ToL1LogView>, usize)> {
    match spec_read_vec_bytes(data, pos) {
        None => None,
        Some((items, p)) => {
            match spec_dec_log_all(items) {
                None => None,
                Some(vs) => Some((vs, p)),
            }
        },
    }
}

pub fn read_log_list(data: &Vec<u8>, pos: usize) -> (r: Option<(Vec<L2ToL1Log>, usize)>)
    ensures
        r is Some <==> spec_read_log_list(data@, pos as int) is Some,
        r matches Some(v) ==> {
            &&& spec_read_log_list(data@, pos as int) matches Some(w) && spec_log_views(v.0@)
                == w.0 && v.1 == w.1
        },
{
    let (items, p) = match read_vec_bytes(data, pos) {
        Some(v) => v,
        None => {
            return None;
        },
    };
    let ghost item_views = items@.map_values(|b: Vec<u8>| b@);
    let mut out: Vec<L2ToL1Log> = Vec::new();
    let n = items.len();
    let mut i: usize = 0;
    proof {
        assert(item_views.take(0) =~= Seq::<Seq<u8>>::empty());
        assert(spec_log_views(out@) =~= Seq::<L2ToL1LogView>::empty());
    }
    while i < n
        invariant
            n == items@.len(),
            item_views == items@.map_values(|b: Vec<u8>| b@),
            spec_read_vec_bytes(data@, pos as int) matches Some(w) && w.0 == item_views && w.1
                == p,
            i <= n,
            spec_dec_log_all(item_views.take(i as int)) == Some(spec_log_views(out@)),
        decreases n - i,
    {
        let (l, used) = match read_log(&items[i], 0) {
            Some(v) => v,
            None => {
                proof {
                    lemma_dec_log_all_fail_rec(item_views, i as int);
                }
                return None;
            },
        };
        if used != items[i].len() {
            proof {
                lemma_dec_log_all_fail_rec(item_views, i as int);
            }
            return None;
        }
        let ghost prev_out = spec_log_views(out@);
        out.push(l);
        proof {
            assert(item_views.take(i + 1).drop_last() =~= item_views.take(i as int));
            assert(item_views.take(i + 1).last() == item_views[i as int]);
            assert(spec_log_views(out@) =~= prev_out.push(l.view_spec()));
        }
        i += 1;
    }
    proof {
        assert(item_views.take(n as int) =~= item_views);
    }
    Some((out, p))
}

proof fn lemma_dec_log_all_fail_rec(items: Seq<Seq<u8>>, k: int)
    requires
        0 <= k < items.len(),
        (spec_read_log(items[k], 0) matches Some(v) ==> v.1 != items[k].len()),
    ensures
        spec_dec_log_all(items) is None,
    decreases items.len(),
{
    if k == items.len() - 1 {
    } else {
        assert(items.drop_last()[k] == items[k]);
        lemma_dec_log_all_fail_rec(items.drop_last(), k);
    }
}

/// Decoding the encodings of logs gives back their views.
pub proof fn lemma_dec_log_all_roundtrip(vs: Seq<L2ToL1LogView>)
    requires
        forall|i: int| 0 <= i < vs.len() ==> (#[trigger] vs[i]).wf(),
    ensures
        spec_dec_log_all(vs.map_values(|l: L2ToL1LogView| spec_enc_log(l))) == Some(vs),
    decreases vs.len(),
{
    let items = vs.map_values(|l: L2ToL1LogView| spec_enc_log(l));
    if vs.len() == 0 {
        assert(Seq::<L2ToL1LogView>::empty() =~= vs);
    } else {
        assert(items.drop_last() =~= vs.drop_last().map_values(
            |l: L2ToL1LogView| spec_enc_log(l),
        ));
        lemma_dec_log_all_roundtrip(vs.drop_last());
        let last = vs.last();
        lemma_read_log(Seq::<u8>::empty(), last, Seq::<u8>::empty());
        assert(Seq::<u8>::empty() + spec_enc_log(last) + Seq::<u8>::empty() =~= spec_enc_log(last));
        assert(items.last() == spec_enc_log(last));
        assert(vs.drop_last().push(last) =~= vs);
    }
}

/// The full round trip for a log list.
pub proof fn lemma_read_log_list_roundtrip(prefix: Seq<u8>, vs: Seq<L2ToL1LogView>, suffix: Seq<u8>)
    requires
        spec_log_list_wf(vs),
        prefix.len() + spec_enc_log_list(vs).len() + suffix.len() <= usize::MAX,
    ensures
        spec_read_log_list(prefix + spec_enc_log_list(vs) + suffix, prefix.len() as int) == Some(
            (vs, (prefix.len() + spec_enc_log_list(vs).len()) as usize),
        ),
{
    let items = vs.map_values(|l: L2ToL1LogView| spec_enc_log(l));
    assert forall|i: int| 0 <= i < items.len() implies #[trigger] items[i].len() <= u64::MAX by {
        lemma_read_log(Seq::<u8>::empty(), vs[i], Seq::<u8>::empty());
    }
    crate::abi::lemma_read_vec_bytes(prefix, items, suffix);
    lemma_dec_log_all_roundtrip(vs);
}

/// A priority-operations proof: its three hash lists in order.
pub open spec fn spec_enc_proof(v: PriorityOpsProofView) -> Seq<u8> {
    spec_enc_h256_list(v.left_path) + spec_enc_h256_list(v.right_path) + spec_enc_h256_list(
        v.hashes,
    )
}

pub fn push_proof(out: &mut Vec<u8>, p: &PriorityOpsMerkleProof)
    ensures
        final(out)@ == old(out)@ + spec_enc_proof(p.view_spec()),
{
    push_h256_list(out, &p.left_path);
    push_h256_list(out, &p.right_path);
    push_h256_list(out, &p.hashes);
    proof {
        assert(out@ =~= old(out)@ + spec_enc_proof(p.view_spec()));
    }
}

/// The spec mirror of decoding one whole proof string.
pub open spec fn spec_dec_proof_str(s: Seq<u8>) -> Option<PriorityOpsProofView> {
    match spec_read_h256_list(s, 0) {
        None => None,
        Some((left_path, p1)) => {
            match spec_read_h256_list(s, p1 as int) {
                None => None,
                Some((right_path, p2)) => {
                    match spec_read_h256_list(s, p2 as int) {
                        None => None,
                        Some((hashes, p3)) => {
                            if p3 == s.len() {
                                Some(PriorityOpsProofView { left_path, right_path, hashes })
                            } else {
                                None
                            }
                        },
                    }
                },
            }
        },
    }
}

pub fn decode_proof_str(s: &Vec<u8>) -> (r: Option<PriorityOpsMerkleProof>)
    ensures
        r is Some <==> spec_dec_proof_str(s@) is Some,
        r matches Some(v) ==> spec_dec_proof_str(s@) == Some(v.view_spec()),
{
    let (left_path, p1) = match read_h256_list(s, 0) {
        Some(v) => v,
        None => {
            return None;
        },
    };
    let (right_path, p2) = match read_h256_list(s, p1) {
        Some(v) => v,
        None => {
            return None;
        },
    };
    let (hashes, p3) = match read_h256_list(s, p2) {
        Some(v) => v,
        None => {
            return None;
        },
    };
    if p3 != s.len() {
        return None;
    }
    Some(PriorityOpsMerkleProof { left_path, right_path, hashes })
}

/// Decoding an encoded proof string gives it back.
pub proof fn lemma_dec_proof_str_roundtrip(v: PriorityOpsProofView)
    requires
        v.wf(),
        spec_enc_proof(v).len() <= usize::MAX,
    ensures
        spec_dec_proof_str(spec_enc_proof(v)) == Some(v),
{
    let e1 = spec_enc_h256_list(v.left_path);
    let e2 = spec_enc_h256_list(v.right_path);
    let e3 = spec_enc_h256_list(v.hashes);
    let data = spec_enc_proof(v);
    assert(data =~= Seq::<u8>::empty() + e1 + (e2 + e3));
    lemma_read_h256_list_roundtrip(Seq::<u8>::empty(), v.left_path, e2 + e3);
    assert(data =~= e1 + e2 + e3);
    lemma_read_h256_list_roundtrip(e1, v.right_path, e3);
    assert(data =~= (e1 + e2) + e3 + Seq::<u8>::empty());
    lemma_read_h256_list_roundtrip(e1 + e2, v.hashes, Seq::<u8>::empty());
}

pub open spec fn spec_proof_views(ps: Seq<PriorityOpsMerkleProof>) -> Seq<PriorityOpsProofView> {
    ps.map_values(|p: PriorityOpsMerkleProof| p.view_spec())
}

pub open spec fn spec_proof_list_wf(ps: Seq<PriorityOpsProofView>) -> bool {
    &&& ps.len() <= u64::MAX
    &&& forall|i: int| 0 <= i < ps.len() ==> (#[trigger] ps[i]).wf()
    &&& forall|i: int|
        0 <= i < ps.len() ==> spec_enc_proof(#[trigger] ps[i]).len() <= u64::MAX && spec_enc_proof(
            ps[i],
        ).len() <= usize::MAX
}

pub open spec fn spec_enc_proof_list(ps: Seq<PriorityOpsProofView>) -> Seq<u8> {
    spec_enc_vec_bytes(ps.map_values(|p: PriorityOpsProofView| spec_enc_proof(p)))
}

pub fn push_proof_list(out: &mut Vec<u8>, proofs: &Vec<PriorityOpsMerkleProof>)
    ensures
        final(out)@ == old(out)@ + spec_enc_proof_list(spec_proof_views(proofs@)),
{
    let ghost views = spec_proof_views(proofs@);
    let mut items: Vec<Vec<u8>> = Vec::new();
    let n = proofs.len();
    let mut i: usize = 0;
    proof {
        assert(items@.map_values(|v: Vec<u8>| v@) =~= views.take(0).map_values(
            |p: PriorityOpsProofView| spec_enc_proof(p),
        ));
    }
    while i < n
        invariant
            n == proofs@.len(),
            views == spec_proof_views(proofs@),
            i <= n,
            items@.map_values(|v: Vec<u8>| v@) == views.take(i as int).map_values(
                |p: PriorityOpsProofView| spec_enc_proof(p),
            ),
        decreases n - i,
    {
        let mut item: Vec<u8> = Vec::new();
        push_proof(&mut item, &proofs[i]);
        proof {
            assert(item@ =~= spec_enc_proof(views[i as int]));
        }
        let ghost prev = items@.map_values(|v: Vec<u8>| v@);
        items.push(item);
        proof {
            assert(items@.map_values(|v: Vec<u8>| v@) =~= prev.push(
                spec_enc_proof(views[i as int]),
            ));
            assert(views.take(i + 1).map_values(|p: PriorityOpsProofView| spec_enc_proof(p))
                =~= views.take(i as int).map_values(
                |p: PriorityOpsProofView| spec_enc_proof(p),
            ).push(spec_enc_proof(views[i as int])));
        }
        i += 1;
    }
    proof {
        assert(views.take(n as int) =~= views);
    }
    push_vec_bytes(out, &items);
}

pub open spec fn spec_dec_proof_all(items: Seq<Seq<u8>>) -> Option<Seq<PriorityOpsProofView>>
    decreases items.len(),
{
    if items.len() == 0 {
        Some(Seq::<PriorityOpsProofView>::empty())
    } else {
        match spec_dec_proof_all(items.drop_last()) {
            None => None,
            Some(rest) => {
                match spec_dec_proof_str(items.last()) {
                    None => None,
                    Some(v) => Some(rest.push(v)),
                }
            },
        }
    }
}

pub open spec fn spec_read_proof_list(data: Seq<u8>, pos: int) -> Option<
    (Seq<PriorityOpsProofView>, usize),
> {
    match spec_read_vec_bytes(data, pos) {
        None => None,
        Some((items, p)) => {
            match spec_dec_proof_all(items) {
                None => None,
                Some(vs) => Some((vs, p)),
            }
        },
    }
}

pub fn read_proof_list(data: &Vec<u8>, pos: usize) -> (r: Option<
    (Vec<PriorityOpsMerkleProof>, usize),
>)
    ensures
        r is Some <==> spec_read_proof_list(data@, pos as int) is Some,
        r matches Some(v) ==> {
            &&& spec_read_proof_list(data@, pos as int) matches Some(w) && spec_proof_views(v.0@)
                == w.0 && v.1 == w.1
        },
{
    let (items, p) = match read_vec_bytes(data, pos) {
        Some(v) => v,
        None => {
            return None;
        },
    };
    let ghost item_views = items@.map_values(|b: Vec<u8>| b@);
    let mut out: Vec<PriorityOpsMerkleProof> = Vec::new();
    let n = items.len();
    let mut i: usize = 0;
    proof {
        assert(item_views.take(0) =~= Seq::<Seq<u8>>::empty());
        assert(spec_proof_views(out@) =~= Seq::<PriorityOpsProofView>::empty());
    }
    while i < n
        invariant
            n == items@.len(),
            item_views == items@.map_values(|b: Vec<u8>| b@),
            spec_read_vec_bytes(data@, pos as int) matches Some(w) && w.0 == item_views && w.1
                == p,
            i <= n,
            spec_dec_proof_all(item_views.take(i as int)) == Some(spec_proof_views(out@)),
        decreases n - i,
    {
        let pr = match decode_proof_str(&items[i]) {
            Some(v) => v,
            None => {
                proof {
                    lemma_dec_proof_all_fail_rec(item_views, i as int);
                }
                return None;
            },
        };
        let ghost prev_out = spec_proof_views(out@);
        out.push(pr);
        proof {
            assert(item_views.take(i + 1).drop_last() =~= item_views.take(i as int));
            assert(item_views.take(i + 1).last() == item_views[i as int]);
            assert(spec_proof_views(out@) =~= prev_out.push(pr.view_spec()));
        }
        i += 1;
    }
    proof {
        assert(item_views.take(n as int) =~= item_views);
    }
    Some((out, p))
}

proof fn lemma_dec_proof_all_fail_rec(items: Seq<Seq<u8>>, k: int)
    requires
        0 <= k < items.len(),
        spec_dec_proof_str(items[k]) is None,
    ensures
        spec_dec_proof_all(items) is None,
    decreases items.len(),
{
    if k == items.len() - 1 {
    } else {
        assert(items.drop_last()[k] == items[k]);
        lemma_dec_proof_all_fail_rec(items.drop_last(), k);
    }
}

pub proof fn lemma_dec_proof_all_roundtrip(vs: Seq<PriorityOpsProofView>)
    requires
        forall|i: int| 0 <= i < vs.len() ==> (#[trigger] vs[i]).wf(),
        forall|i: int|
            0 <= i < vs.len() ==> spec_enc_proof(#[trigger] vs[i]).len() <= u64::MAX
                && spec_enc_proof(vs[i]).len() <= usize::MAX,
    ensures
        spec_dec_proof_all(vs.map_values(|p: PriorityOpsProofView| spec_enc_proof(p))) == Some(vs),
    decreases vs.len(),
{
    let items = vs.map_values(|p: PriorityOpsProofView| spec_enc_proof(p));
    if vs.len() == 0 {
        assert(Seq::<PriorityOpsProofView>::empty() =~= vs);
    } else {
        assert(items.drop_last() =~= vs.drop_last().map_values(
            |p: PriorityOpsProofView| spec_enc_proof(p),
        ));
        lemma_dec_proof_all_roundtrip(vs.drop_last());
        let last = vs.last();
        lemma_dec_proof_str_roundtrip(last);
        assert(items.last() == spec_enc_proof(last));
        assert(vs.drop_last().push(last) =~= vs);
    }
}

pub proof fn lemma_read_proof_list_roundtrip(
    prefix: Seq<u8>,
    vs: Seq<PriorityOpsProofView>,
    suffix: Seq<u8>,
)
    requires
        spec_proof_list_wf(vs),
        prefix.len() + spec_enc_proof_list(vs).len() + suffix.len() <= usize::MAX,
    ensures
        spec_read_proof_list(prefix + spec_enc_proof_list(vs) + suffix, prefix.len() as int)
            == Some((vs, (prefix.len() + spec_enc_proof_list(vs).len()) as usize)),
{
    let items = vs.map_values(|p: PriorityOpsProofView| spec_enc_proof(p));
    assert forall|i: int| 0 <= i < items.len() implies #[trigger] items[i].len() <= u64::MAX by {
        assert(spec_enc_proof(vs[i]).len() <= u64::MAX);
    }
    crate::abi::lemma_read_vec_bytes(prefix, items, suffix);
    lemma_dec_proof_all_roundtrip(vs);
}

/// Per-batch log lists: each batch's list is one item of the outer vector.
pub open spec fn spec_enc_log_batches(bs: Seq<Seq<L2ToL1LogView>>) -> Seq<u8> {
    spec_enc_vec_bytes(bs.map_values(|b: Seq<L2ToL1LogView>| spec_enc_log_list(b)))
}

pub open spec fn spec_log_batches_wf(bs: Seq<Seq<L2ToL1LogView>>) -> bool {
    &&& bs.len() <= u64::MAX
    &&& forall|i: int| 0 <= i < bs.len() ==> spec_log_list_wf(#[trigger] bs[i])
    &&& forall|i: int|
        0 <= i < bs.len() ==> spec_enc_log_list(#[trigger] bs[i]).len() <= u64::MAX
            && spec_enc_log_list(bs[i]).len() <= usize::MAX
}

pub open spec fn spec_log_batch_views(bs: Seq<Vec<L2ToL1Log>>) -> Seq<Seq<L2ToL1LogView>> {
    bs.map_values(|b: Vec<L2ToL1Log>| spec_log_views(b@))
}

pub fn push_log_batches(out: &mut Vec<u8>, batches: &Vec<Vec<L2ToL1Log>>)
    ensures
        final(out)@ == old(out)@ + spec_enc_log_batches(spec_log_batch_views(batches@)),
{
    let ghost views = spec_log_batch_views(batches@);
    let mut items: Vec<Vec<u8>> = Vec::new();
    let n = batches.len();
    let mut i: usize = 0;
    proof {
        assert(items@.map_values(|v: Vec<u8>| v@) =~= views.take(0).map_values(
            |b: Seq<L2ToL1LogView>| spec_enc_log_list(b),
        ));
    }
    while i < n
        invariant
            n == batches@.len(),
            views == spec_log_batch_views(batches@),
            i <= n,
            items@.map_values(|v: Vec<u8>| v@) == views.take(i as int).map_values(
                |b: Seq<L2ToL1LogView>| spec_enc_log_list(b),
            ),
        decreases n - i,
    {
        let mut item: Vec<u8> = Vec::new();
        push_log_list(&mut item, &batches[i]);
        proof {
            assert(item@ =~= spec_enc_log_list(views[i as int]));
        }
        let ghost prev = items@.map_values(|v: Vec<u8>| v@);
        items.push(item);
        proof {
            assert(items@.map_values(|v: Vec<u8>| v@) =~= prev.push(
                spec_enc_log_list(views[i as int]),
            ));
            assert(views.take(i + 1).map_values(|b: Seq<L2ToL1LogView>| spec_enc_log_list(b))
                =~= views.take(i as int).map_values(
                |b: Seq<L2ToL1LogView>| spec_enc_log_list(b),
            ).push(spec_enc_log_list(views[i as int])));
        }
        i += 1;
    }
    proof {
        assert(views.take(n as int) =~= views);
    }
    push_vec_bytes(out, &items);
}

pub open spec fn spec_dec_log_batches_all(items: Seq<Seq<u8>>) -> Option<Seq<Seq<L2ToL1LogView>>>
    decreases items.len(),
{
    if items.len() == 0 {
        Some(Seq::<Seq<L2ToL1LogView>>::empty())
    } else {
        match spec_dec_log_batches_all(items.drop_last()) {
            None => None,
            Some(rest) => {
                match spec_read_log_list(items.last(), 0) {
                    None => None,
                    Some((v, p)) => {
                        if p == items.last().len() {
                            Some(rest.push(v))
                        } else {
                            None
                        }
                    },
                }
            },
        }
    }
}

pub open spec fn spec_read_log_batches(data: Seq<u8>, pos: int) -> Option<
    (Seq<Seq<L2ToL1LogView>>, usize),
> {
    match spec_read_vec_bytes(data, pos) {
        None => None,
        Some((items, p)) => {
            match spec_dec_log_batches_all(items) {
                None => None,
                Some(vs) => Some((vs, p)),
            }
        },
    }
}

pub fn read_log_batches(data: &Vec<u8>, pos: usize) -> (r: Option<(Vec<Vec<L2ToL1Log>>, usize)>)
    ensures
        r is Some <==> spec_read_log_batches(data@, pos as int) is Some,
        r matches Some(v) ==> {
            &&& spec_read_log_batches(data@, pos as int) matches Some(w) && spec_log_batch_views(
                v.0@,
            ) == w.0 && v.1 == w.1
        },
{
    let (items, p) = match read_vec_bytes(data, pos) {
        Some(v) => v,
        None => {
            return None;
        },
    };
    let ghost item_views = items@.map_values(|b: Vec<u8>| b@);
    let mut out: Vec<Vec<L2ToL1Log>> = Vec::new();
    let n = items.len();
    let mut i: usize = 0;
    proof {
        assert(item_views.take(0) =~= Seq::<Seq<u8>>::empty());
        assert(spec_log_batch_views(out@) =~= Seq::<Seq<L2ToL1LogView>>::empty());
    }
    while i < n
        invariant
            n == items@.len(),
            item_views == items@.map_values(|b: Vec<u8>| b@),
            spec_read_vec_bytes(data@, pos as int) matches Some(w) && w.0 == item_views && w.1
                == p,
            i <= n,
            spec_dec_log_batches_all(item_views.take(i as int)) == Some(spec_log_batch_views(out@)),
        decreases n - i,
    {
        let (ls, used) = match read_log_list(&items[i], 0) {
            Some(v) => v,
            None => {
                proof {
                    lemma_dec_log_batches_fail_rec(item_views, i as int);
                }
                return None;
            },
        };
        if used != items[i].len() {
            proof {
                lemma_dec_log_batches_fail_rec(item_views, i as int);
            }
            return None;
        }
        let ghost prev_out = spec_log_batch_views(out@);
        let ghost ls_view = spec_log_views(ls@);
        out.push(ls);
        proof {
            assert(item_views.take(i + 1).drop_last() =~= item_views.take(i as int));
            assert(item_views.take(i + 1).last() == item_views[i as int]);
            assert(spec_log_batch_views(out@) =~= prev_out.push(ls_view));
        }
        i += 1;
    }
    proof {
        assert(item_views.take(n as int) =~= item_views);
    }
    Some((out, p))
}

proof fn lemma_dec_log_batches_fail_rec(items: Seq<Seq<u8>>, k: int)
    requires
        0 <= k < items.len(),
        (spec_read_log_list(items[k], 0) matches Some(v) ==> v.1 != items[k].len()),
    ensures
        spec_dec_log_batches_all(items) is None,
    decreases items.len(),
{
    if k == items.len() - 1 {
    } else {
        assert(items.drop_last()[k] == items[k]);
        lemma_dec_log_batches_fail_rec(items.drop_last(), k);
    }
}

pub proof fn lemma_dec_log_batches_roundtrip(bs: Seq<Seq<L2ToL1LogView>>)
    requires
        forall|i: int| 0 <= i < bs.len() ==> spec_log_list_wf(#[trigger] bs[i]),
        forall|i: int|
            0 <= i < bs.len() ==> spec_enc_log_list(#[trigger] bs[i]).len() <= u64::MAX
                && spec_enc_log_list(bs[i]).len() <= usize::MAX,
    ensures
        spec_dec_log_batches_all(bs.map_values(|b: Seq<L2ToL1LogView>| spec_enc_log_list(b)))
            == Some(bs),
    decreases bs.len(),
{
    let items = bs.map_values(|b: Seq<L2ToL1LogView>| spec_enc_log_list(b));
    if bs.len() == 0 {
        assert(Seq::<Seq<L2ToL1LogView>>::empty() =~= bs);
    } else {
        assert(items.drop_last() =~= bs.drop_last().map_values(
            |b: Seq<L2ToL1LogView>| spec_enc_log_list(b),
        ));
        lemma_dec_log_batches_roundtrip(bs.drop_last());
        let last = bs.last();
        lemma_read_log_list_roundtrip(Seq::<u8>::empty(), last, Seq::<u8>::empty());
        assert(Seq::<u8>::empty() + spec_enc_log_list(last) + Seq::<u8>::empty()
            =~= spec_enc_log_list(last));
        assert(items.last() == spec_enc_log_list(last));
        assert(bs.drop_last().push(last) =~= bs);
    }
}

pub proof fn lemma_read_log_batches_roundtrip(
    prefix: Seq<u8>,
    bs: Seq<Seq<L2ToL1LogView>>,
    suffix: Seq<u8>,
)
    requires
        spec_log_batches_wf(bs),
        prefix.len() + spec_enc_log_batches(bs).len() + suffix.len() <= usize::MAX,
    ensures
        spec_read_log_batches(prefix + spec_enc_log_batches(bs) + suffix, prefix.len() as int)
            == Some((bs, (prefix.len() + spec_enc_log_batches(bs).len()) as usize)),
{
    let items = bs.map_values(|b: Seq<L2ToL1LogView>| spec_enc_log_list(b));
    assert forall|i: int| 0 <= i < items.len() implies #[trigger] items[i].len() <= u64::MAX by {
        assert(spec_enc_log_list(bs[i]).len() <= u64::MAX);
    }
    crate::abi::lemma_read_vec_bytes(prefix, items, suffix);
    lemma_dec_log_batches_roundtrip(bs);
}

/// Per-batch message lists: each batch's messages as one nested vector item.
pub open spec fn spec_enc_msg_batches(ms: Seq<Seq<Seq<u8>>>) -> Seq<u8> {
    spec_enc_vec_bytes(ms.map_values(|m: Seq<Seq<u8>>| spec_enc_vec_bytes(m)))
}

pub open spec fn spec_msg_batches_wf(ms: Seq<Seq<Seq<u8>>>) -> bool {
    &&& ms.len() <= u64::MAX
    &&& forall|i: int|
        0 <= i < ms.len() ==> (#[trigger] ms[i]).len() <= u64::MAX && (forall|j: int|
            0 <= j < ms[i].len() ==> (#[trigger] ms[i][j]).len() <= u64::MAX)
    &&& forall|i: int|
        0 <= i < ms.len() ==> spec_enc_vec_bytes(#[trigger] ms[i]).len() <= u64::MAX
            && spec_enc_vec_bytes(ms[i]).len() <= usize::MAX
}

pub open spec fn spec_msg_batch_views(ms: Seq<Vec<Vec<u8>>>) -> Seq<Seq<Seq<u8>>> {
    ms.map_values(|m: Vec<Vec<u8>>| m@.map_values(|b: Vec<u8>| b@))
}

pub fn push_msg_batches(out: &mut Vec<u8>, batches: &Vec<Vec<Vec<u8>>>)
    ensures
        final(out)@ == old(out)@ + spec_enc_msg_batches(spec_msg_batch_views(batches@)),
{
    let ghost views = spec_msg_batch_views(batches@);
    let mut items: Vec<Vec<u8>> = Vec::new();
    let n = batches.len();
    let mut i: usize = 0;
    proof {
        assert(items@.map_values(|v: Vec<u8>| v@) =~= views.take(0).map_values(
            |m: Seq<Seq<u8>>| spec_enc_vec_bytes(m),
        ));
    }
    while i < n
        invariant
            n == batches@.len(),
            views == spec_msg_batch_views(batches@),
            i <= n,
            items@.map_values(|v: Vec<u8>| v@) == views.take(i as int).map_values(
                |m: Seq<Seq<u8>>| spec_enc_vec_bytes(m),
            ),
        decreases n - i,
    {
        let mut item: Vec<u8> = Vec::new();
        push_vec_bytes(&mut item, &batches[i]);
        proof {
            assert(item@ =~= spec_enc_vec_bytes(views[i as int]));
        }
        let ghost prev = items@.map_values(|v: Vec<u8>| v@);
        items.push(item);
        proof {
            assert(items@.map_values(|v: Vec<u8>| v@) =~= prev.push(
                spec_enc_vec_bytes(views[i as int]),
            ));
            assert(views.take(i + 1).map_values(|m: Seq<Seq<u8>>| spec_enc_vec_bytes(m))
                =~= views.take(i as int).map_values(|m: Seq<Seq<u8>>| spec_enc_vec_bytes(m)).push(
                spec_enc_vec_bytes(views[i as int]),
            ));
        }
        i += 1;
    }
    proof {
        assert(views.take(n as int) =~= views);
    }
    push_vec_bytes(out, &items);
}

pub open spec fn spec_dec_msg_batches_all(items: Seq<Seq<u8>>) -> Option<Seq<Seq<Seq<u8>>>>
    decreases items.len(),
{
    if items.len() == 0 {
        Some(Seq::<Seq<Seq<u8>>>::empty())
    } else {
        match spec_dec_msg_batches_all(items.drop_last()) {
            None => None,
            Some(rest) => {
                match spec_read_vec_bytes(items.last(), 0) {
                    None => None,
                    Some((v, p)) => {
                        if p == items.last().len() {
                            Some(rest.push(v))
                        } else {
                            None
                        }
                    },
                }
            },
        }
    }
}

pub open spec fn spec_read_msg_batches(data: Seq<u8>, pos: int) -> Option<
    (Seq<Seq<Seq<u8>>>, usize),
> {
    match spec_read_vec_bytes(data, pos) {
        None => None,
        Some((items, p)) => {
            match spec_dec_msg_batches_all(items) {
                None => None,
                Some(vs) => Some((vs, p)),
            }
        },
    }
}

pub fn read_msg_batches(data: &Vec<u8>, pos: usize) -> (r: Option<(Vec<Vec<Vec<u8>>>, usize)>)
    ensures
        r is Some <==> spec_read_msg_batches(data@, pos as int) is Some,
        r matches Some(v) ==> {
            &&& spec_read_msg_batches(data@, pos as int) matches Some(w) && spec_msg_batch_views(
                v.0@,
            ) == w.0 && v.1 == w.1
        },
{
    let (items, p) = match read_vec_bytes(data, pos) {
        Some(v) => v,
        None => {
            return None;
        },
    };
    let ghost item_views = items@.map_values(|b: Vec<u8>| b@);
    let mut out: Vec<Vec<Vec<u8>>> = Vec::new();
    let n = items.len();
    let mut i: usize = 0;
    proof {
        assert(item_views.take(0) =~= Seq::<Seq<u8>>::empty());
        assert(spec_msg_batch_views(out@) =~= Seq::<Seq<Seq<u8>>>::empty());
    }
    while i < n
        invariant
            n == items@.len(),
            item_views == items@.map_values(|b: Vec<u8>| b@),
            spec_read_vec_bytes(data@, pos as int) matches Some(w) && w.0 == item_views && w.1
                == p,
            i <= n,
            spec_dec_msg_batches_all(item_views.take(i as int)) == Some(spec_msg_batch_views(out@)),
        decreases n - i,
    {
        let (ms, used) = match read_vec_bytes(&items[i], 0) {
            Some(v) => v,
            None => {
                proof {
                    lemma_dec_msg_batches_fail_rec(item_views, i as int);
                }
                return None;
            },
        };
        if used != items[i].len() {
            proof {
                lemma_dec_msg_batches_fail_rec(item_views, i as int);
            }
            return None;
        }
        let ghost prev_out = spec_msg_batch_views(out@);
        let ghost ms_view = ms@.map_values(|b: Vec<u8>| b@);
        out.push(ms);
        proof {
            assert(item_views.take(i + 1).drop_last() =~= item_views.take(i as int));
            assert(item_views.take(i + 1).last() == item_views[i as int]);
            assert(spec_msg_batch_views(out@) =~= prev_out.push(ms_view));
        }
        i += 1;
    }
    proof {
        assert(item_views.take(n as int) =~= item_views);
    }
    Some((out, p))
}

proof fn lemma_dec_msg_batches_fail_rec(items: Seq<Seq<u8>>, k: int)
    requires
        0 <= k < items.len(),
        (spec_read_vec_bytes(items[k], 0) matches Some(v) ==> v.1 != items[k].len()),
    ensures
        spec_dec_msg_batches_all(items) is None,
    decreases items.len(),
{
    if k == items.len() - 1 {
    } else {
        assert(items.drop_last()[k] == items[k]);
        lemma_dec_msg_batches_fail_rec(items.drop_last(), k);
    }
}

pub proof fn lemma_dec_msg_batches_roundtrip(ms: Seq<Seq<Seq<u8>>>)
    requires
        forall|i: int|
            0 <= i < ms.len() ==> (#[trigger] ms[i]).len() <= u64::MAX && (forall|j: int|
                0 <= j < ms[i].len() ==> (#[trigger] ms[i][j]).len() <= u64::MAX),
        forall|i: int|
            0 <= i < ms.len() ==> spec_enc_vec_bytes(#[trigger] ms[i]).len() <= u64::MAX
                && spec_enc_vec_bytes(ms[i]).len() <= usize::MAX,
    ensures
        spec_dec_msg_batches_all(ms.map_values(|m: Seq<Seq<u8>>| spec_enc_vec_bytes(m))) == Some(
            ms,
        ),
    decreases ms.len(),
{
    let items = ms.map_values(|m: Seq<Seq<u8>>| spec_enc_vec_bytes(m));
    if ms.len() == 0 {
        assert(Seq::<Seq<Seq<u8>>>::empty() =~= ms);
    } else {
        assert(items.drop_last() =~= ms.drop_last().map_values(
            |m: Seq<Seq<u8>>| spec_enc_vec_bytes(m),
        ));
        lemma_dec_msg_batches_roundtrip(ms.drop_last());
        let last = ms.last();
        crate::abi::lemma_read_vec_bytes(Seq::<u8>::empty(), last, Seq::<u8>::empty());
        assert(Seq::<u8>::empty() + spec_enc_vec_bytes(last) + Seq::<u8>::empty()
            =~= spec_enc_vec_bytes(last));
        assert(items.last() == spec_enc_vec_bytes(last));
        assert(ms.drop_last().push(last) =~= ms);
    }
}

pub proof fn lemma_read_msg_batches_roundtrip(prefix: Seq<u8>, ms: Seq<Seq<Seq<u8>>>, suffix: Seq<u8>)
    requires
        spec_msg_batches_wf(ms),
        prefix.len() + spec_enc_msg_batches(ms).len() + suffix.len() <= usize::MAX,
    ensures
        spec_read_msg_batches(prefix + spec_enc_msg_batches(ms) + suffix, prefix.len() as int)
            == Some((ms, (prefix.len() + spec_enc_msg_batches(ms).len()) as usize)),
{
    let items = ms.map_values(|m: Seq<Seq<u8>>| spec_enc_vec_bytes(m));
    assert forall|i: int| 0 <= i < items.len() implies #[trigger] items[i].len() <= u64::MAX by {
        assert(spec_enc_vec_bytes(ms[i]).len() <= u64::MAX);
    }
    crate::abi::lemma_read_vec_bytes(prefix, items, suffix);
    lemma_dec_msg_batches_roundtrip(ms);
}

/// The ghost value of a prove payload.
pub ghost struct ProvePayloadView {
    pub prev: StoredBatchInfoView,
    pub batches: Seq<StoredBatchInfoView>,
    pub verifier_kind: u64,
    pub proof: Seq<Seq<u8>>,
}

/// The prove payload: the previous batch, the proved range, a word naming
/// the verifier generation, and the proof words.
pub open spec fn spec_enc_prove_payload(v: ProvePayloadView) -> Seq<u8> {
    spec_enc_stored(v.prev) + spec_enc_stored_list(v.batches) + spec_word_u64(v.verifier_kind)
        + spec_enc_h256_list(v.proof)
}

pub open spec fn spec_dec_prove_payload(data: Seq<u8>) -> Option<ProvePayloadView> {
    match spec_read_stored(data, 0) {
        None => None,
        Some((prev, p1)) => {
            match spec_read_stored_list(data, p1 as int) {
                None => None,
                Some((batches, p2)) => {
                    match spec_read_word_u64(data, p2 as int) {
                        None => None,
                        Some((verifier_kind, p3)) => {
                            match spec_read_h256_list(data, p3 as int) {
                                None => None,
                                Some((proof, p4)) => {
                                    if p4 == data.len() {
                                        Some(
                                            ProvePayloadView { prev, batches, verifier_kind, proof },
                                        )
                                    } else {
                                        None
                                    }
                                },
                            }
                        },
                    }
                },
            }
        },
    }
}

/// A proof publication: the proved batch range and the proof itself.
#[derive(Clone, Debug)]
pub struct ProveBatches {
    pub prev_l1_batch: StoredBatchInfo,
    pub l1_batches: Vec<L1BatchWithMetadata>,
    pub proof: Vec<H256>,
    pub should_verify: bool,
}

/// Encodes the prove payload; the verifier-kind word says whether the
/// verifier predates the fflonk scheme.
pub fn encode_prove_payload(op: &ProveBatches, is_verifier_pre_fflonk: bool) -> (r: Vec<u8>)
    ensures
        r@ == spec_enc_prove_payload(
            ProvePayloadView {
                prev: op.prev_l1_batch.view_spec(),
                batches: spec_batch_stored_views(op.l1_batches@),
                verifier_kind: if is_verifier_pre_fflonk {
                    0
                } else {
                    1
                },
                proof: spec_h256_list_view(op.proof@),
            },
        ),
{
    let mut out: Vec<u8> = Vec::new();
    push_stored(&mut out, &op.prev_l1_batch);
    let stored = stored_of_batches(&op.l1_batches);
    push_stored_list(&mut out, &stored);
    let kind: u64 = if is_verifier_pre_fflonk {
        0
    } else {
        1
    };
    push_word_u64(&mut out, kind);
    push_h256_list(&mut out, &op.proof);
    proof {
        assert(out@ =~= spec_enc_prove_payload(
            ProvePayloadView {
                prev: op.prev_l1_batch.view_spec(),
                batches: spec_batch_stored_views(op.l1_batches@),
                verifier_kind: kind,
                proof: spec_h256_list_view(op.proof@),
            },
        ));
    }
    out
}

/// Decodes a prove payload.
pub fn decode_prove_payload(data: &Vec<u8>) -> (r: Option<
    (StoredBatchInfo, Vec<StoredBatchInfo>, u64, Vec<H256>),
>)
    ensures
        r is Some <==> spec_dec_prove_payload(data@) is Some,
        r matches Some(v) ==> {
            &&& spec_dec_prove_payload(data@) matches Some(w) && v.0.view_spec() == w.prev
                && spec_stored_views(v.1@) == w.batches && v.2 == w.verifier_kind
                && spec_h256_list_view(v.3@) == w.proof
        },
{
    let (prev, p1) = match read_stored(data, 0) {
        Some(v) => v,
        None => {
            return None;
        },
    };
    let (batches, p2) = match read_stored_list(data, p1) {
        Some(v) => v,
        None => {
            return None;
        },
    };
    let (kind, p3) = match read_word_u64(data, p2) {
        Some(v) => v,
        None => {
            return None;
        },
    };
    let (proof, p4) = match read_h256_list(data, p3) {
        Some(v) => v,
        None => {
            return None;
        },
    };
    if p4 != data.len() {
        return None;
    }
    Some((prev, batches, kind, proof))
}

/// Law: decoding an encoded prove payload gives back every component.
pub proof fn lemma_prove_payload_roundtrip(v: ProvePayloadView)
    requires
        v.prev.wf(),
        spec_stored_list_wf(v.batches),
        v.proof.len() <= u64::MAX,
        spec_all_len_32(v.proof),
        spec_enc_prove_payload(v).len() <= usize::MAX,
    ensures
        spec_dec_prove_payload(spec_enc_prove_payload(v)) == Some(v),
{
    let data = spec_enc_prove_payload(v);
    let e1 = spec_enc_stored(v.prev);
    let e2 = spec_enc_stored_list(v.batches);
    let e3 = spec_word_u64(v.verifier_kind);
    let e4 = spec_enc_h256_list(v.proof);
    assert(data =~= Seq::<u8>::empty() + e1 + (e2 + e3 + e4));
    lemma_read_stored(Seq::<u8>::empty(), v.prev, e2 + e3 + e4);
    assert(data =~= e1 + e2 + (e3 + e4));
    lemma_read_stored_list_roundtrip(e1, v.batches, e3 + e4);
    assert(data =~= (e1 + e2) + e3 + e4);
    crate::abi::lemma_read_word_u64(e1 + e2, v.verifier_kind, e4);
    assert(data =~= (e1 + e2 + e3) + e4 + Seq::<u8>::empty());
    lemma_read_h256_list_roundtrip(e1 + e2 + e3, v.proof, Seq::<u8>::empty());
}

/// Input required to encode an `executeBatches` call.
#[derive(Clone, Debug)]
pub struct ExecuteBatches {
    pub l1_batches: Vec<L1BatchWithMetadata>,
    pub priority_ops_proofs: Vec<PriorityOpsMerkleProof>,
    pub logs: Vec<Vec<L2ToL1Log>>,
    pub messages: Vec<Vec<Vec<u8>>>,
    pub message_roots: Vec<H256>,
}

/// The ghost value of an execute payload.
pub ghost struct ExecutePayloadView {
    pub batches: Seq<StoredBatchInfoView>,
    pub proofs: Seq<PriorityOpsProofView>,
    pub logs: Seq<Seq<L2ToL1LogView>>,
    pub messages: Seq<Seq<Seq<u8>>>,
    pub message_roots: Seq<Seq<u8>>,
    pub first: u64,
    pub last: u64,
}

impl ExecuteBatches {
    pub open spec fn view_spec(self) -> ExecutePayloadView {
        ExecutePayloadView {
            batches: spec_batch_stored_views(self.l1_batches@),
            proofs: spec_proof_views(self.priority_ops_proofs@),
            logs: spec_log_batch_views(self.logs@),
            messages: spec_msg_batch_views(self.messages@),
            message_roots: spec_h256_list_view(self.message_roots@),
            first: if self.l1_batches@.len() > 0 {
                self.l1_batches@[0].stored.batch_number
            } else {
                0
            },
            last: if self.l1_batches@.len() > 0 {
                self.l1_batches@.last().stored.batch_number
            } else {
                0
            },
        }
    }
}

/// The versioned inner payload of the pre-interop execute encoding.
pub open spec fn spec_inner_pre_interop(v: ExecutePayloadView) -> Seq<u8> {
    seq![SUPPORTED_ENCODING_VERSION] + spec_enc_stored_list(v.batches) + spec_enc_proof_list(
        v.proofs,
    )
}

/// The versioned inner payload of the interop execute encoding.
pub open spec fn spec_inner_interop(v: ExecutePayloadView) -> Seq<u8> {
    seq![SUPPORTED_ENCODING_VERSION] + spec_enc_stored_list(v.batches) + spec_enc_proof_list(
        v.proofs,
    ) + spec_enc_log_batches(v.logs) + spec_enc_msg_batches(v.messages) + spec_enc_h256_list(
        v.message_roots,
    )
}

/// The execute payload, bifurcated by the operation's protocol version and
/// the chain's: entirely pre-gateway, a bare list of stored infos; entirely
/// pre-interop, the batch range and a versioned byte string of infos and
/// priority proofs; otherwise the versioned byte string also carries logs,
/// messages and message roots.
pub open spec fn spec_enc_execute_payload(
    v: ExecutePayloadView,
    op_pre_gateway: bool,
    op_pre_interop: bool,
    chain_pre_gateway: bool,
    chain_pre_interop: bool,
) -> Seq<u8> {
    if op_pre_gateway && chain_pre_gateway {
        spec_enc_stored_list(v.batches)
    } else if op_pre_interop && chain_pre_interop {
        spec_word_u64(v.first) + spec_word_u64(v.last) + spec_enc_bytes(spec_inner_pre_interop(v))
    } else {
        spec_word_u64(v.first) + spec_word_u64(v.last) + spec_enc_bytes(spec_inner_interop(v))
    }
}

/// What decoding recovers for a stored-info list alone: the range bounds come
/// from the infos themselves.
pub open spec fn spec_range_of(batches: Seq<StoredBatchInfoView>) -> (u64, u64) {
    if batches.len() > 0 {
        (batches[0].batch_number, batches.last().batch_number)
    } else {
        (0, 0)
    }
}

/// The spec mirror of `decode_execute_payload`.
pub open spec fn spec_dec_execute_payload(
    data: Seq<u8>,
    op_pre_gateway: bool,
    op_pre_interop: bool,
    chain_pre_gateway: bool,
    chain_pre_interop: bool,
) -> Option<ExecutePayloadView> {
    if op_pre_gateway && chain_pre_gateway {
        match spec_read_stored_list(data, 0) {
            None => None,
            Some((batches, p)) => {
                if p == data.len() {
                    Some(
                        ExecutePayloadView {
                            batches,
                            proofs: Seq::<PriorityOpsProofView>::empty(),
                            logs: Seq::<Seq<L2ToL1LogView>>::empty(),
                            messages: Seq::<Seq<Seq<u8>>>::empty(),
                            message_roots: Seq::<Seq<u8>>::empty(),
                            first: spec_range_of(batches).0,
                            last: spec_range_of(batches).1,
                        },
                    )
                } else {
                    None
                }
            },
        }
    } else {
        match spec_read_word_u64(data, 0) {
            None => None,
            Some((first, p1)) => {
                match spec_read_word_u64(data, p1 as int) {
                    None => None,
                    Some((last, p2)) => {
                        match spec_read_bytes(data, p2 as int) {
                            None => None,
                            Some((inner, p3)) => {
                                if p3 != data.len() || inner.len() < 1 || inner[0]
                                    != SUPPORTED_ENCODING_VERSION {
                                    None
                                } else {
                                    spec_dec_execute_inner(
                                        inner,
                                        first,
                                        last,
                                        op_pre_interop && chain_pre_interop,
                                    )
                                }
                            },
                        }
                    },
                }
            },
        }
    }
}

pub open spec fn spec_dec_execute_inner(
    inner: Seq<u8>,
    first: u64,
    last: u64,
    pre_interop: bool,
) -> Option<ExecutePayloadView> {
    match spec_read_stored_list(inner, 1) {
        None => None,
        Some((batches, q1)) => {
            match spec_read_proof_list(inner, q1 as int) {
                None => None,
                Some((proofs, q2)) => {
                    if pre_interop {
                        if q2 == inner.len() {
                            Some(
                                ExecutePayloadView {
                                    batches,
                                    proofs,
                                    logs: Seq::<Seq<L2ToL1LogView>>::empty(),
                                    messages: Seq::<Seq<Seq<u8>>>::empty(),
                                    message_roots: Seq::<Seq<u8>>::empty(),
                                    first,
                                    last,
                                },
                            )
                        } else {
                            None
                        }
                    } else {
                        match spec_read_log_batches(inner, q2 as int) {
                            None => None,
                            Some((logs, q3)) => {
                                match spec_read_msg_batches(inner, q3 as int) {
                                    None => None,
                                    Some((messages, q4)) => {
                                        match spec_read_h256_list(inner, q4 as int) {
                                            None => None,
                                            Some((message_roots, q5)) => {
                                                if q5 == inner.len() {
                                                    Some(
                                                        ExecutePayloadView {
                                                            batches,
                                                            proofs,
                                                            logs,
                                                            messages,
                                                            message_roots,
                                                            first,
                                                            last,
                                                        },
                                                    )
                                                } else {
                                                    None
                                                }
                                            },
                                        }
                                    },
                                }
                            },
                        }
                    }
                },
            }
        },
    }
}

impl ExecuteBatches {
    /// Encodes the payload of an `executeBatches` call. The encoding is
    /// chosen by the operation's own protocol version and the chain's; when
    /// the versioned byte string is used, its first byte is the supported
    /// encoding version.
    pub fn encode_for_eth_tx(&self, chain_protocol_version: ProtocolVersionId) -> (r: Vec<u8>)
        requires
            self.l1_batches@.len() > 0,
        ensures
            r@ == spec_enc_execute_payload(
                self.view_spec(),
                self.l1_batches@[0].protocol_version.is_pre_gateway_spec(),
                self.l1_batches@[0].protocol_version.is_pre_interop_spec(),
                chain_protocol_version.is_pre_gateway_spec(),
                chain_protocol_version.is_pre_interop_spec(),
            ),
            !(self.l1_batches@[0].protocol_version.is_pre_gateway_spec()
                && chain_protocol_version.is_pre_gateway_spec()) ==> r@.len() > 96 && r@[96]
                == SUPPORTED_ENCODING_VERSION,
    {
        let internal_protocol_version = self.l1_batches[0].protocol_version;
        if internal_protocol_version.is_pre_gateway() && chain_protocol_version.is_pre_gateway() {
            let stored = stored_of_batches(&self.l1_batches);
            let mut out: Vec<u8> = Vec::new();
            push_stored_list(&mut out, &stored);
            proof {
                assert(out@ =~= spec_enc_stored_list(spec_batch_stored_views(self.l1_batches@)));
            }
            out
        } else {
            let pre_interop = internal_protocol_version.is_pre_interop()
                && chain_protocol_version.is_pre_interop();
            let mut inner: Vec<u8> = Vec::new();
            inner.push(SUPPORTED_ENCODING_VERSION);
            proof {
                assert(inner@ =~= seq![SUPPORTED_ENCODING_VERSION]);
            }
            let stored = stored_of_batches(&self.l1_batches);
            push_stored_list(&mut inner, &stored);
            push_proof_list(&mut inner, &self.priority_ops_proofs);
            if !pre_interop {
                push_log_batches(&mut inner, &self.logs);
                push_msg_batches(&mut inner, &self.messages);
                push_h256_list(&mut inner, &self.message_roots);
            }
            proof {
                if pre_interop {
                    assert(inner@ =~= spec_inner_pre_interop(self.view_spec()));
                } else {
                    assert(inner@ =~= spec_inner_interop(self.view_spec()));
                }
            }
            let first = self.l1_batches[0].stored.batch_number;
            let n = self.l1_batches.len();
            let last = self.l1_batches[n - 1].stored.batch_number;
            let mut out: Vec<u8> = Vec::new();
            push_word_u64(&mut out, first);
            push_word_u64(&mut out, last);
            push_bytes(&mut out, &inner);
            proof {
                let v = self.view_spec();
                let inner_spec = if pre_interop {
                    spec_inner_pre_interop(v)
                } else {
                    spec_inner_interop(v)
                };
                assert(out@ =~= spec_word_u64(v.first) + spec_word_u64(v.last) + spec_word_u64(
                    inner_spec.len() as u64,
                ) + inner_spec);
                assert(out@[96] == inner_spec[0]);
            }
            out
        }
    }
}

/// The exec value a decoded execute payload yields.
pub struct DecodedExecute {
    pub batch_infos: Vec<StoredBatchInfo>,
    pub priority_ops_proofs: Vec<PriorityOpsMerkleProof>,
    pub logs: Vec<Vec<L2ToL1Log>>,
    pub messages: Vec<Vec<Vec<u8>>>,
    pub message_roots: Vec<H256>,
    pub first_batch: u64,
    pub last_batch: u64,
}

impl DecodedExecute {
    pub open spec fn view_spec(self) -> ExecutePayloadView {
        ExecutePayloadView {
            batches: spec_stored_views(self.batch_infos@),
            proofs: spec_proof_views(self.priority_ops_proofs@),
            logs: spec_log_batch_views(self.logs@),
            messages: spec_msg_batch_views(self.messages@),
            message_roots: spec_h256_list_view(self.message_roots@),
            first: self.first_batch,
            last: self.last_batch,
        }
    }
}

/// Decodes an execute payload under the given protocol-version pair.
pub fn decode_execute_payload(
    data: &Vec<u8>,
    op_protocol_version: ProtocolVersionId,
    chain_protocol_version: ProtocolVersionId,
) -> (r: Option<DecodedExecute>)
    ensures
        r is Some <==> spec_dec_execute_payload(
            data@,
            op_protocol_version.is_pre_gateway_spec(),
            op_protocol_version.is_pre_interop_spec(),
            chain_protocol_version.is_pre_gateway_spec(),
            chain_protocol_version.is_pre_interop_spec(),
        ) is Some,
        r matches Some(v) ==> spec_dec_execute_payload(
            data@,
            op_protocol_version.is_pre_gateway_spec(),
            op_protocol_version.is_pre_interop_spec(),
            chain_protocol_version.is_pre_gateway_spec(),
            chain_protocol_version.is_pre_interop_spec(),
        ) == Some(v.view_spec()),
{
    if op_protocol_version.is_pre_gateway() && chain_protocol_version.is_pre_gateway() {
        let (batch_infos, p) = match read_stored_list(data, 0) {
            Some(v) => v,
            None => {
                return None;
            },
        };
        if p != data.len() {
            return None;
        }
        let n = batch_infos.len();
        let (first_batch, last_batch) = if n > 0 {
            (batch_infos[0].batch_number, batch_infos[n - 1].batch_number)
        } else {
            (0u64, 0u64)
        };
        let priority_ops_proofs: Vec<PriorityOpsMerkleProof> = Vec::new();
        let logs: Vec<Vec<L2ToL1Log>> = Vec::new();
        let messages: Vec<Vec<Vec<u8>>> = Vec::new();
        let message_roots: Vec<H256> = Vec::new();
        proof {
            assert(spec_proof_views(priority_ops_proofs@) =~= Seq::<PriorityOpsProofView>::empty());
            assert(spec_log_batch_views(logs@) =~= Seq::<Seq<L2ToL1LogView>>::empty());
            assert(spec_msg_batch_views(messages@) =~= Seq::<Seq<Seq<u8>>>::empty());
            assert(spec_h256_list_view(message_roots@) =~= Seq::<Seq<u8>>::empty());
        }
        Some(
            DecodedExecute {
                batch_infos,
                priority_ops_proofs,
                logs,
                messages,
                message_roots,
                first_batch,
                last_batch,
            },
        )
    } else {
        let pre_interop = op_protocol_version.is_pre_interop()
            && chain_protocol_version.is_pre_interop();
        let (first_batch, p1) = match read_word_u64(data, 0) {
            Some(v) => v,
            None => {
                return None;
            },
        };
        let (last_batch, p2) = match read_word_u64(data, p1) {
            Some(v) => v,
            None => {
                return None;
            },
        };
        let (inner, p3) = match crate::abi::read_bytes(data, p2) {
            Some(v) => v,
            None => {
                return None;
            },
        };
        if p3 != data.len() {
            return None;
        }
        if inner.len() < 1 {
            return None;
        }
        if inner[0] != SUPPORTED_ENCODING_VERSION {
            return None;
        }
        let (batch_infos, q1) = match read_stored_list(&inner, 1) {
            Some(v) => v,
            None => {
                return None;
            },
        };
        let (priority_ops_proofs, q2) = match read_proof_list(&inner, q1) {
            Some(v) => v,
            None => {
                return None;
            },
        };
        if pre_interop {
            if q2 != inner.len() {
                return None;
            }
            let logs: Vec<Vec<L2ToL1Log>> = Vec::new();
            let messages: Vec<Vec<Vec<u8>>> = Vec::new();
            let message_roots: Vec<H256> = Vec::new();
            proof {
                assert(spec_log_batch_views(logs@) =~= Seq::<Seq<L2ToL1LogView>>::empty());
                assert(spec_msg_batch_views(messages@) =~= Seq::<Seq<Seq<u8>>>::empty());
                assert(spec_h256_list_view(message_roots@) =~= Seq::<Seq<u8>>::empty());
            }
            Some(
                DecodedExecute {
                    batch_infos,
                    priority_ops_proofs,
                    logs,
                    messages,
                    message_roots,
                    first_batch,
                    last_batch,
                },
            )
        } else {
            let (logs, q3) = match read_log_batches(&inner, q2) {
                Some(v) => v,
                None => {
                    return None;
                },
            };
            let (messages, q4) = match read_msg_batches(&inner, q3) {
                Some(v) => v,
                None => {
                    return None;
                },
            };
            let (message_roots, q5) = match read_h256_list(&inner, q4) {
                Some(v) => v,
                None => {
                    return None;
                },
            };
            if q5 != inner.len() {
                return None;
            }
            Some(
                DecodedExecute {
                    batch_infos,
                    priority_ops_proofs,
                    logs,
                    messages,
                    message_roots,
                    first_batch,
                    last_batch,
                },
            )
        }
    }
}

/// The well-formedness of an execute payload value.
pub open spec fn spec_execute_view_wf(v: ExecutePayloadView) -> bool {
    &&& spec_stored_list_wf(v.batches)
    &&& spec_proof_list_wf(v.proofs)
    &&& spec_log_batches_wf(v.logs)
    &&& spec_msg_batches_wf(v.messages)
    &&& v.message_roots.len() <= u64::MAX
    &&& spec_all_len_32(v.message_roots)
    &&& v.first == spec_range_of(v.batches).0
    &&& v.last == spec_range_of(v.batches).1
    &&& spec_inner_interop(v).len() <= u64::MAX
    &&& spec_inner_interop(v).len() + 96 <= usize::MAX
    &&& spec_inner_pre_interop(v).len() <= u64::MAX
    &&& spec_inner_pre_interop(v).len() + 96 <= usize::MAX
}

/// Law: for every branch pair, decoding an encoded execute payload gives
/// back exactly what that branch carries: the stored infos always, the
/// priority proofs outside the bare pre-gateway form, and the logs, messages
/// and roots only in the interop form.
#[verifier::rlimit(100)]
pub proof fn lemma_execute_payload_roundtrip(
    v: ExecutePayloadView,
    op_pre_gateway: bool,
    op_pre_interop: bool,
    chain_pre_gateway: bool,
    chain_pre_interop: bool,
)
    requires
        spec_execute_view_wf(v),
    ensures
        spec_dec_execute_payload(
            spec_enc_execute_payload(
                v,
                op_pre_gateway,
                op_pre_interop,
                chain_pre_gateway,
                chain_pre_interop,
            ),
            op_pre_gateway,
            op_pre_interop,
            chain_pre_gateway,
            chain_pre_interop,
        ) == Some(
            ExecutePayloadView {
                batches: v.batches,
                proofs: if op_pre_gateway && chain_pre_gateway {
                    Seq::<PriorityOpsProofView>::empty()
                } else {
                    v.proofs
                },
                logs: if op_pre_gateway && chain_pre_gateway || op_pre_interop
                    && chain_pre_interop {
                    Seq::<Seq<L2ToL1LogView>>::empty()
                } else {
                    v.logs
                },
                messages: if op_pre_gateway && chain_pre_gateway || op_pre_interop
                    && chain_pre_interop {
                    Seq::<Seq<Seq<u8>>>::empty()
                } else {
                    v.messages
                },
                message_roots: if op_pre_gateway && chain_pre_gateway || op_pre_interop
                    && chain_pre_interop {
                    Seq::<Seq<u8>>::empty()
                } else {
                    v.message_roots
                },
                first: v.first,
                last: v.last,
            },
        ),
{
    if op_pre_gateway && chain_pre_gateway {
        let data = spec_enc_stored_list(v.batches);
        assert(Seq::<u8>::empty() + data + Seq::<u8>::empty() =~= data);
        lemma_read_stored_list_roundtrip(Seq::<u8>::empty(), v.batches, Seq::<u8>::empty());
    } else {
        let pre_interop = op_pre_interop && chain_pre_interop;
        let inner = if pre_interop {
            spec_inner_pre_interop(v)
        } else {
            spec_inner_interop(v)
        };
        let data = spec_word_u64(v.first) + spec_word_u64(v.last) + spec_enc_bytes(inner);
        assert(data =~= Seq::<u8>::empty() + spec_word_u64(v.first) + (spec_word_u64(v.last)
            + spec_enc_bytes(inner)));
        crate::abi::lemma_read_word_u64(
            Seq::<u8>::empty(),
            v.first,
            spec_word_u64(v.last) + spec_enc_bytes(inner),
        );
        assert(data =~= spec_word_u64(v.first) + spec_word_u64(v.last) + spec_enc_bytes(inner));
        crate::abi::lemma_read_word_u64(spec_word_u64(v.first), v.last, spec_enc_bytes(inner));
        assert(data =~= (spec_word_u64(v.first) + spec_word_u64(v.last)) + spec_enc_bytes(inner)
            + Seq::<u8>::empty());
        crate::abi::lemma_read_bytes(
            spec_word_u64(v.first) + spec_word_u64(v.last),
            inner,
            Seq::<u8>::empty(),
        );
        assert(inner[0] == SUPPORTED_ENCODING_VERSION);
        lemma_execute_inner_roundtrip(v, pre_interop);
    }
}

/// The inner versioned payload decodes back to its components.
#[verifier::rlimit(100)]
proof fn lemma_execute_inner_roundtrip(v: ExecutePayloadView, pre_interop: bool)
    requires
        spec_execute_view_wf(v),
    ensures
        pre_interop ==> spec_dec_execute_inner(spec_inner_pre_interop(v), v.first, v.last, true)
            == Some(
            ExecutePayloadView {
                batches: v.batches,
                proofs: v.proofs,
                logs: Seq::<Seq<L2ToL1LogView>>::empty(),
                messages: Seq::<Seq<Seq<u8>>>::empty(),
                message_roots: Seq::<Seq<u8>>::empty(),
                first: v.first,
                last: v.last,
            },
        ),
        !pre_interop ==> spec_dec_execute_inner(spec_inner_interop(v), v.first, v.last, false)
            == Some(
            ExecutePayloadView {
                batches: v.batches,
                proofs: v.proofs,
                logs: v.logs,
                messages: v.messages,
                message_roots: v.message_roots,
                first: v.first,
                last: v.last,
            },
        ),
{
    let head = seq![SUPPORTED_ENCODING_VERSION];
    if pre_interop {
        let inner = spec_inner_pre_interop(v);
        assert(inner =~= head + spec_enc_stored_list(v.batches) + (spec_enc_proof_list(v.proofs)));
        lemma_read_stored_list_roundtrip(head, v.batches, spec_enc_proof_list(v.proofs));
        assert(inner =~= (head + spec_enc_stored_list(v.batches)) + spec_enc_proof_list(v.proofs)
            + Seq::<u8>::empty());
        lemma_read_proof_list_roundtrip(
            head + spec_enc_stored_list(v.batches),
            v.proofs,
            Seq::<u8>::empty(),
        );
    } else {
        let inner = spec_inner_interop(v);
        let e_s = spec_enc_stored_list(v.batches);
        let e_p = spec_enc_proof_list(v.proofs);
        let e_l = spec_enc_log_batches(v.logs);
        let e_m = spec_enc_msg_batches(v.messages);
        let e_r = spec_enc_h256_list(v.message_roots);
        assert(inner =~= head + e_s + (e_p + e_l + e_m + e_r));
        lemma_read_stored_list_roundtrip(head, v.batches, e_p + e_l + e_m + e_r);
        assert(inner =~= (head + e_s) + e_p + (e_l + e_m + e_r));
        lemma_read_proof_list_roundtrip(head + e_s, v.proofs, e_l + e_m + e_r);
        assert(inner =~= (head + e_s + e_p) + e_l + (e_m + e_r));
        lemma_read_log_batches_roundtrip(head + e_s + e_p, v.logs, e_m + e_r);
        assert(inner =~= (head + e_s + e_p + e_l) + e_m + e_r);
        lemma_read_msg_batches_roundtrip(head + e_s + e_p + e_l, v.messages, e_r);
        assert(inner =~= (head + e_s + e_p + e_l + e_m) + e_r + Seq::<u8>::empty());
        lemma_read_h256_list_roundtrip(
            head + e_s + e_p + e_l + e_m,
            v.message_roots,
            Seq::<u8>::empty(),
        );
    }
}

/// An on-chain operation aggregating a contiguous range of sealed batches.
pub enum AggregatedOperation {
    Commit(StoredBatchInfo, Vec<L1BatchWithMetadata>, PubdataSendingMode),
    PublishProofOnchain(ProveBatches),
    Execute(ExecuteBatches),
}

impl AggregatedOperation {
    /// The batch range the operation carries.
    pub open spec fn spec_batches(self) -> Seq<L1BatchWithMetadata> {
        match self {
            AggregatedOperation::Commit(_, batches, _) => batches@,
            AggregatedOperation::PublishProofOnchain(op) => op.l1_batches@,
            AggregatedOperation::Execute(op) => op.l1_batches@,
        }
    }

    /// Every operation carries at least one batch.
    pub open spec fn wf(self) -> bool {
        self.spec_batches().len() > 0
    }

    pub open spec fn spec_action_type(self) -> crate::types::AggregatedActionType {
        match self {
            AggregatedOperation::Commit(..) => crate::types::AggregatedActionType::Commit,
            AggregatedOperation::PublishProofOnchain(_) => crate::types::AggregatedActionType::PublishProofOnchain,
            AggregatedOperation::Execute(_) => crate::types::AggregatedActionType::Execute,
        }
    }

    pub fn get_action_type(&self) -> (r: crate::types::AggregatedActionType)
        ensures
            r == self.spec_action_type(),
    {
        match self {
            AggregatedOperation::Commit(..) => crate::types::AggregatedActionType::Commit,
            AggregatedOperation::PublishProofOnchain(_) => crate::types::AggregatedActionType::PublishProofOnchain,
            AggregatedOperation::Execute(_) => crate::types::AggregatedActionType::Execute,
        }
    }

    /// The contiguous batch-number range of the operation.
    pub fn l1_batch_range(&self) -> (r: (u64, u64))
        requires
            self.wf(),
        ensures
            r.0 == self.spec_batches()[0].number,
            r.1 == self.spec_batches().last().number,
    {
        let batches = match self {
            AggregatedOperation::Commit(_, batches, _) => batches,
            AggregatedOperation::PublishProofOnchain(op) => &op.l1_batches,
            AggregatedOperation::Execute(op) => &op.l1_batches,
        };
        let n = batches.len();
        (batches[0].number, batches[n - 1].number)
    }

    /// The protocol version the operation's batches were sealed under.
    pub fn protocol_version(&self) -> (r: ProtocolVersionId)
        requires
            self.wf(),
        ensures
            r == self.spec_batches()[0].protocol_version,
    {
        let batches = match self {
            AggregatedOperation::Commit(_, batches, _) => batches,
            AggregatedOperation::PublishProofOnchain(op) => &op.l1_batches,
            AggregatedOperation::Execute(op) => &op.l1_batches,
        };
        batches[0].protocol_version
    }
}

} // verus!





