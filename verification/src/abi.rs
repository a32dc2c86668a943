//! Canonical encoding primitives for on-chain calldata.
//!
//! The crate models the wire form with its own canonical layout: integers
//! become 32-byte big-endian words, byte strings are length-prefixed and
//! unpadded, and sequences are count-prefixed concatenations, in place of
//! the contract ABI's head-and-tail offset tables. Every encoder has a spec
//! mirror, every decoder is proved against a spec mirror, and
//! decode-of-encode lemmas make the encodings losslessly invertible.

use vstd::prelude::*;

use crate::types::H256;

verus! {

/// The byte at position `i` of the big-endian 32-byte word for `x`.
pub open spec fn spec_word_byte(x: u64, i: int) -> u8 {
    if i < 24 {
        0u8
    } else {
        ((x >> (((31 - i) * 8) as u64)) & 0xFF) as u8
    }
}

/// The 32-byte big-endian word holding `x`.
pub open spec fn spec_word_u64(x: u64) -> Seq<u8> {
    Seq::new(32, |i: int| spec_word_byte(x, i))
}

/// The value of a 32-byte word whose top 24 bytes are zero; `None` otherwise.
pub open spec fn spec_u64_of_word(s: Seq<u8>) -> Option<u64> {
    if s.len() != 32 {
        None
    } else if exists|i: int| 0 <= i < 24 && s[i] != 0 {
        None
    } else {
        Some(
            (((s[24] as u64) << 56) | ((s[25] as u64) << 48) | ((s[26] as u64) << 40) | ((
            s[27] as u64) << 32) | ((s[28] as u64) << 24) | ((s[29] as u64) << 16) | ((
            s[30] as u64) << 8) | (s[31] as u64)) as u64,
        )
    }
}

/// Reading back the word of `x` yields `x`.
pub proof fn lemma_word_u64_roundtrip(x: u64)
    ensures
        spec_u64_of_word(spec_word_u64(x)) == Some(x),
{
    let s = spec_word_u64(x);
    assert forall|i: int| 0 <= i < 24 implies s[i] == 0 by {}
    let b24: u8 = s[24];
    let b25: u8 = s[25];
    let b26: u8 = s[26];
    let b27: u8 = s[27];
    let b28: u8 = s[28];
    let b29: u8 = s[29];
    let b30: u8 = s[30];
    let b31: u8 = s[31];
    let t0: u64 = x >> 56;
    let t1: u64 = x >> 48;
    let t2: u64 = x >> 40;
    let t3: u64 = x >> 32;
    let t4: u64 = x >> 24;
    let t5: u64 = x >> 16;
    let t6: u64 = x >> 8;
    let t7: u64 = x >> 0;
    assert(b24 == (t0 & 0xFF) as u8);
    assert(b25 == (t1 & 0xFF) as u8);
    assert(b26 == (t2 & 0xFF) as u8);
    assert(b27 == (t3 & 0xFF) as u8);
    assert(b28 == (t4 & 0xFF) as u8);
    assert(b29 == (t5 & 0xFF) as u8);
    assert(b30 == (t6 & 0xFF) as u8);
    assert(b31 == (t7 & 0xFF) as u8);
    assert(t0 & 0xFF <= 0xFF && t1 & 0xFF <= 0xFF && t2 & 0xFF <= 0xFF && t3 & 0xFF <= 0xFF
        && t4 & 0xFF <= 0xFF && t5 & 0xFF <= 0xFF && t6 & 0xFF <= 0xFF && t7 & 0xFF <= 0xFF)
        by (bit_vector);
    assert(b24 as u64 == t0 & 0xFF);
    assert(b25 as u64 == t1 & 0xFF);
    assert(b26 as u64 == t2 & 0xFF);
    assert(b27 as u64 == t3 & 0xFF);
    assert(b28 as u64 == t4 & 0xFF);
    assert(b29 as u64 == t5 & 0xFF);
    assert(b30 as u64 == t6 & 0xFF);
    assert(b31 as u64 == t7 & 0xFF);
    let r0: u64 = (b24 as u64) << 56;
    let r1: u64 = (b25 as u64) << 48;
    let r2: u64 = (b26 as u64) << 40;
    let r3: u64 = (b27 as u64) << 32;
    let r4: u64 = (b28 as u64) << 24;
    let r5: u64 = (b29 as u64) << 16;
    let r6: u64 = (b30 as u64) << 8;
    let r7: u64 = b31 as u64;
    assert(r0 | r1 | r2 | r3 | r4 | r5 | r6 | r7 == x) by (bit_vector)
        requires
            r0 == ((x >> 56) & 0xFF) << 56,
            r1 == ((x >> 48) & 0xFF) << 48,
            r2 == ((x >> 40) & 0xFF) << 40,
            r3 == ((x >> 32) & 0xFF) << 32,
            r4 == ((x >> 24) & 0xFF) << 24,
            r5 == ((x >> 16) & 0xFF) << 16,
            r6 == ((x >> 8) & 0xFF) << 8,
            r7 == (x >> 0) & 0xFF,
    ;
    assert(spec_u64_of_word(s) == Some((r0 | r1 | r2 | r3 | r4 | r5 | r6 | r7) as u64));
}

/// Appends the 32-byte word of `x` to `out`.
pub fn push_word_u64(out: &mut Vec<u8>, x: u64)
    ensures
        final(out)@ == old(out)@ + spec_word_u64(x),
{
    let ghost prior = out@;
    let mut i: usize = 0;
    while i < 24
        invariant
            i <= 24,
            out@ == prior + Seq::new(i as nat, |j: int| 0u8),
        decreases 24 - i,
    {
        out.push(0u8);
        proof {
            assert(prior + Seq::new((i + 1) as nat, |j: int| 0u8) =~= (prior + Seq::new(
                i as nat,
                |j: int| 0u8,
            )).push(0u8));
        }
        i += 1;
    }
    out.push(((x >> 56) & 0xFF) as u8);
    out.push(((x >> 48) & 0xFF) as u8);
    out.push(((x >> 40) & 0xFF) as u8);
    out.push(((x >> 32) & 0xFF) as u8);
    out.push(((x >> 24) & 0xFF) as u8);
    out.push(((x >> 16) & 0xFF) as u8);
    out.push(((x >> 8) & 0xFF) as u8);
    out.push((x & 0xFF) as u8);
    proof {
        assert(x & 0xFF == (x >> 0) & 0xFF) by (bit_vector);
        assert(out@ =~= prior + spec_word_u64(x));
    }
}

/// Reads the word at `pos` as a `u64`; `None` when it does not fit or the
/// data is too short.
pub fn read_word_u64(data: &Vec<u8>, pos: usize) -> (r: Option<(u64, usize)>)
    ensures
        r == spec_read_word_u64(data@, pos as int),
{
    if data.len() < 32 || pos > data.len() - 32 {
        return None;
    }
    let mut i: usize = 0;
    while i < 24
        invariant
            i <= 24,
            pos + 32 <= data@.len(),
            data@.len() <= usize::MAX,
            forall|j: int| 0 <= j < i ==> #[trigger] data@[pos + j] == 0,
        decreases 24 - i,
    {
        if data[pos + i] != 0u8 {
            proof {
                let s = data@.subrange(pos as int, pos + 32);
                assert(s[i as int] == data@[pos + i]);
            }
            return None;
        }
        i += 1;
    }
    let x: u64 = ((data[pos + 24] as u64) << 56) | ((data[pos + 25] as u64) << 48) | ((data[pos
        + 26] as u64) << 40) | ((data[pos + 27] as u64) << 32) | ((data[pos + 28] as u64) << 24) | ((
    data[pos + 29] as u64) << 16) | ((data[pos + 30] as u64) << 8) | (data[pos + 31] as u64);
    proof {
        let s = data@.subrange(pos as int, pos + 32);
        assert forall|j: int| 0 <= j < 24 implies s[j] == 0 by {
            assert(s[j] == data@[pos + j]);
        }
        assert(s[24] == data@[pos + 24]);
        assert(s[25] == data@[pos + 25]);
        assert(s[26] == data@[pos + 26]);
        assert(s[27] == data@[pos + 27]);
        assert(s[28] == data@[pos + 28]);
        assert(s[29] == data@[pos + 29]);
        assert(s[30] == data@[pos + 30]);
        assert(s[31] == data@[pos + 31]);
    }
    Some((x, pos + 32))
}

/// The spec mirror of `read_word_u64`.
pub open spec fn spec_read_word_u64(data: Seq<u8>, pos: int) -> Option<(u64, usize)> {
    if pos < 0 || pos + 32 > data.len() || pos + 32 > usize::MAX {
        None
    } else {
        match spec_u64_of_word(data.subrange(pos, pos + 32)) {
            None => None,
            Some(x) => Some((x, (pos + 32) as usize)),
        }
    }
}

/// Reading a word written at `pos` gives back the value.
pub proof fn lemma_read_word_u64(prefix: Seq<u8>, x: u64, suffix: Seq<u8>)
    requires
        prefix.len() + 32 + suffix.len() <= usize::MAX,
    ensures
        spec_read_word_u64(prefix + spec_word_u64(x) + suffix, prefix.len() as int) == Some(
            (x, (prefix.len() as int + 32) as usize),
        ),
{
    let data = prefix + spec_word_u64(x) + suffix;
    assert(data.subrange(prefix.len() as int, prefix.len() as int + 32) =~= spec_word_u64(x));
    lemma_word_u64_roundtrip(x);
}

/// Appends 32 raw bytes (a hash word).
pub fn push_h256(out: &mut Vec<u8>, h: &H256)
    ensures
        final(out)@ == old(out)@ + h.bytes@,
{
    let ghost prior = out@;
    let mut i: usize = 0;
    while i < 32
        invariant
            i <= 32,
            out@ == prior + h.bytes@.take(i as int),
        decreases 32 - i,
    {
        out.push(h.bytes[i]);
        proof {
            assert(prior + h.bytes@.take(i + 1) =~= (prior + h.bytes@.take(i as int)).push(
                h.bytes@[i as int],
            ));
        }
        i += 1;
    }
    proof {
        assert(h.bytes@.take(32) =~= h.bytes@);
    }
}

/// Reads 32 raw bytes at `pos` as a hash word.
pub fn read_h256(data: &Vec<u8>, pos: usize) -> (r: Option<(H256, usize)>)
    ensures
        r is Some <==> (pos + 32 <= data@.len()),
        r matches Some(v) ==> v.0.bytes@ == data@.subrange(pos as int, pos + 32) && v.1 == pos
            + 32,
    {
    if data.len() < 32 || pos > data.len() - 32 {
        return None;
    }
    let mut bytes: [u8; 32] = [0u8; 32];
    let mut i: usize = 0;
    while i < 32
        invariant
            i <= 32,
            pos + 32 <= data@.len(),
            data@.len() <= usize::MAX,
            bytes@.len() == 32,
            forall|j: int| 0 <= j < i ==> bytes@[j] == data@[pos + j],
        decreases 32 - i,
    {
        bytes[i] = data[pos + i];
        i += 1;
    }
    let h = H256 { bytes };
    proof {
        assert(h.bytes@ =~= data@.subrange(pos as int, pos + 32));
    }
    Some((h, pos + 32))
}

/// Appends all bytes of `b`.
pub fn push_all(out: &mut Vec<u8>, b: &Vec<u8>)
    ensures
        final(out)@ == old(out)@ + b@,
{
    let ghost prior = out@;
    let n = b.len();
    let mut i: usize = 0;
    while i < n
        invariant
            n == b@.len(),
            i <= n,
            out@ == prior + b@.take(i as int),
        decreases n - i,
    {
        out.push(b[i]);
        proof {
            assert(prior + b@.take(i + 1) =~= (prior + b@.take(i as int)).push(b@[i as int]));
        }
        i += 1;
    }
    proof {
        assert(b@.take(n as int) =~= b@);
    }
}

/// A length-prefixed byte string: the length word, then the raw bytes.
pub open spec fn spec_enc_bytes(b: Seq<u8>) -> Seq<u8> {
    spec_word_u64(b.len() as u64) + b
}

/// Appends the length-prefixed encoding of `b`.
pub fn push_bytes(out: &mut Vec<u8>, b: &Vec<u8>)
    ensures
        final(out)@ == old(out)@ + spec_enc_bytes(b@),
{
    push_word_u64(out, b.len() as u64);
    push_all(out, b);
    proof {
        assert(old(out)@ + spec_enc_bytes(b@) =~= old(out)@ + spec_word_u64(b@.len() as u64) + b@);
    }
}

/// The spec mirror of `read_bytes`.
pub open spec fn spec_read_bytes(data: Seq<u8>, pos: int) -> Option<(Seq<u8>, usize)> {
    match spec_read_word_u64(data, pos) {
        None => None,
        Some((len, p)) => {
            if p + len <= data.len() && p + len <= usize::MAX {
                Some((data.subrange(p as int, p as int + len as int), (p + len) as usize))
            } else {
                None
            }
        },
    }
}

/// Reads a length-prefixed byte string at `pos`.
pub fn read_bytes(data: &Vec<u8>, pos: usize) -> (r: Option<(Vec<u8>, usize)>)
    ensures
        r is Some <==> spec_read_bytes(data@, pos as int) is Some,
        r matches Some(v) ==> {
            &&& spec_read_bytes(data@, pos as int) matches Some(w) && v.0@ == w.0 && v.1 == w.1
        },
{
    let (len, p) = match read_word_u64(data, pos) {
        Some(v) => v,
        None => {
            return None;
        },
    };
    if len > (usize::MAX - p) as u64 {
        return None;
    }
    let len_us = len as usize;
    if len_us > data.len() - p {
        return None;
    }
    let mut out: Vec<u8> = Vec::new();
    let mut i: usize = 0;
    while i < len_us
        invariant
            p + len_us <= data@.len(),
            data@.len() <= usize::MAX,
            i <= len_us,
            out@ == data@.subrange(p as int, p + i),
        decreases len_us - i,
    {
        out.push(data[p + i]);
        proof {
            assert(data@.subrange(p as int, p + i + 1) =~= data@.subrange(p as int, p + i).push(
                data@[p + i],
            ));
        }
        i += 1;
    }
    Some((out, p + len_us))
}

/// Reading a byte string written at `pos` gives it back.
pub proof fn lemma_read_bytes(prefix: Seq<u8>, b: Seq<u8>, suffix: Seq<u8>)
    requires
        b.len() <= u64::MAX,
        prefix.len() + 32 + b.len() + suffix.len() <= usize::MAX,
    ensures
        spec_read_bytes(prefix + spec_enc_bytes(b) + suffix, prefix.len() as int) == Some(
            (b, (prefix.len() + 32 + b.len()) as usize),
        ),
{
    let data = prefix + spec_enc_bytes(b) + suffix;
    assert(data =~= prefix + spec_word_u64(b.len() as u64) + (b + suffix));
    lemma_read_word_u64(prefix, b.len() as u64, b + suffix);
    let p = prefix.len() as int + 32;
    assert(data.subrange(p, p + b.len() as int) =~= b);
}

/// The concatenation of length-prefixed byte strings.
pub open spec fn spec_enc_bytes_cat(items: Seq<Seq<u8>>) -> Seq<u8>
    decreases items.len(),
{
    if items.len() == 0 {
        Seq::<u8>::empty()
    } else {
        spec_enc_bytes(items.first()) + spec_enc_bytes_cat(items.drop_first())
    }
}

/// The concatenation distributes over appending one more item.
pub proof fn lemma_enc_bytes_cat_push(items: Seq<Seq<u8>>, x: Seq<u8>)
    ensures
        spec_enc_bytes_cat(items.push(x)) == spec_enc_bytes_cat(items) + spec_enc_bytes(x),
    decreases items.len(),
{
    if items.len() == 0 {
        assert(items.push(x).drop_first() =~= items);
        assert(spec_enc_bytes_cat(items.push(x)) =~= spec_enc_bytes_cat(items) + spec_enc_bytes(
            x,
        ));
    } else {
        assert(items.push(x).drop_first() =~= items.drop_first().push(x));
        assert(items.push(x).first() == items.first());
        lemma_enc_bytes_cat_push(items.drop_first(), x);
        assert(spec_enc_bytes_cat(items.push(x)) =~= spec_enc_bytes_cat(items) + spec_enc_bytes(
            x,
        ));
    }
}

/// A vector of byte strings: the count word, then each item length-prefixed.
pub open spec fn spec_enc_vec_bytes(items: Seq<Seq<u8>>) -> Seq<u8> {
    spec_word_u64(items.len() as u64) + spec_enc_bytes_cat(items)
}

/// Appends the encoding of a vector of byte strings.
pub fn push_vec_bytes(out: &mut Vec<u8>, items: &Vec<Vec<u8>>)
    ensures
        final(out)@ == old(out)@ + spec_enc_vec_bytes(items@.map_values(|v: Vec<u8>| v@)),
{
    let ghost views = items@.map_values(|v: Vec<u8>| v@);
    push_word_u64(out, items.len() as u64);
    let ghost head = out@;
    let n = items.len();
    let mut i: usize = 0;
    while i < n
        invariant
            n == items@.len(),
            views == items@.map_values(|v: Vec<u8>| v@),
            i <= n,
            out@ == head + spec_enc_bytes_cat(views.take(i as int)),
        decreases n - i,
    {
        push_bytes(out, &items[i]);
        proof {
            assert(views.take(i + 1) =~= views.take(i as int).push(views[i as int]));
            lemma_enc_bytes_cat_push(views.take(i as int), views[i as int]);
        }
        i += 1;
    }
    proof {
        assert(views.take(n as int) =~= views);
        assert(out@ =~= old(out)@ + spec_enc_vec_bytes(views));
    }
}

/// The spec mirror of reading `n` length-prefixed byte strings.
pub open spec fn spec_read_bytes_n(data: Seq<u8>, pos: int, n: nat) -> Option<
    (Seq<Seq<u8>>, usize),
>
    decreases n,
{
    if n == 0 {
        if 0 <= pos <= data.len() && pos <= usize::MAX {
            Some((Seq::<Seq<u8>>::empty(), pos as usize))
        } else {
            None
        }
    } else {
        match spec_read_bytes(data, pos) {
            None => None,
            Some((b, p)) => {
                match spec_read_bytes_n(data, p as int, (n - 1) as nat) {
                    None => None,
                    Some((rest, q)) => Some((seq![b] + rest, q)),
                }
            },
        }
    }
}

/// The spec mirror of `read_vec_bytes`.
pub open spec fn spec_read_vec_bytes(data: Seq<u8>, pos: int) -> Option<(Seq<Seq<u8>>, usize)> {
    match spec_read_word_u64(data, pos) {
        None => None,
        Some((n, p)) => spec_read_bytes_n(data, p as int, n as nat),
    }
}

/// Reads a vector of byte strings at `pos`.
pub fn read_vec_bytes(data: &Vec<u8>, pos: usize) -> (r: Option<(Vec<Vec<u8>>, usize)>)
    ensures
        r is Some <==> spec_read_vec_bytes(data@, pos as int) is Some,
        r matches Some(v) ==> {
            &&& spec_read_vec_bytes(data@, pos as int) matches Some(w) && v.0@.map_values(
                |b: Vec<u8>| b@,
            ) == w.0 && v.1 == w.1
        },
{
    let data_len = data.len();
    let (n, start) = match read_word_u64(data, pos) {
        Some(v) => v,
        None => {
            return None;
        },
    };
    proof {
        assert(data_len == data@.len());
    }
    let mut out: Vec<Vec<u8>> = Vec::new();
    let mut p: usize = start;
    let mut k: u64 = 0;
    proof {
        assert(out@.map_values(|b: Vec<u8>| b@) =~= Seq::<Seq<u8>>::empty());
    }
    while k < n
        invariant
            k <= n,
            p <= data@.len(),
            data@.len() <= usize::MAX,
            spec_read_word_u64(data@, pos as int) == Some((n, start)),
            spec_read_bytes_n(data@, start as int, n as nat) == (match spec_read_bytes_n(
                data@,
                p as int,
                (n - k) as nat,
            ) {
                None => None::<(Seq<Seq<u8>>, usize)>,
                Some((rest, q)) => Some((out@.map_values(|b: Vec<u8>| b@) + rest, q)),
            }),
        decreases n - k,
    {
        let (b, q) = match read_bytes(data, p) {
            Some(v) => v,
            None => {
                proof {
                    assert(spec_read_bytes_n(data@, p as int, (n - k) as nat) is None);
                }
                return None;
            },
        };
        let ghost old_views = out@.map_values(|bb: Vec<u8>| bb@);
        out.push(b);
        proof {
            assert(out@.map_values(|bb: Vec<u8>| bb@) =~= old_views.push(b@));
            let rest_n = (n - k) as nat;
            let inner = spec_read_bytes_n(data@, q as int, (rest_n - 1) as nat);
            match inner {
                None => (),
                Some((rest2, q2)) => {
                    assert(old_views.push(b@) + rest2 =~= old_views + (seq![b@] + rest2));
                },
            }
        }
        p = q;
        k = k + 1;
    }
    proof {
        assert(out@.map_values(|b: Vec<u8>| b@) + Seq::<Seq<u8>>::empty() =~= out@.map_values(
            |b: Vec<u8>| b@,
        ));
    }
    Some((out, p))
}

/// Reading `n` byte strings written in sequence gives them back.
pub proof fn lemma_read_bytes_n(prefix: Seq<u8>, items: Seq<Seq<u8>>, suffix: Seq<u8>)
    requires
        forall|i: int| 0 <= i < items.len() ==> #[trigger] items[i].len() <= u64::MAX,
        prefix.len() + spec_enc_bytes_cat(items).len() + suffix.len() <= usize::MAX,
    ensures
        spec_read_bytes_n(prefix + spec_enc_bytes_cat(items) + suffix, prefix.len() as int, items.len())
            == Some((items, (prefix.len() + spec_enc_bytes_cat(items).len()) as usize)),
    decreases items.len(),
{
    if items.len() == 0 {
        assert(prefix + spec_enc_bytes_cat(items) + suffix =~= prefix + suffix);
        assert(spec_read_bytes_n(prefix + spec_enc_bytes_cat(items) + suffix, prefix.len() as int, 0)
            == Some((Seq::<Seq<u8>>::empty(), prefix.len() as usize)));
        assert(items =~= Seq::<Seq<u8>>::empty());
    } else {
        let first = items.first();
        let rest = items.drop_first();
        let data = prefix + spec_enc_bytes_cat(items) + suffix;
        assert(data =~= prefix + spec_enc_bytes(first) + (spec_enc_bytes_cat(rest) + suffix));
        lemma_read_bytes(prefix, first, spec_enc_bytes_cat(rest) + suffix);
        let p2 = prefix + spec_enc_bytes(first);
        assert(data =~= p2 + spec_enc_bytes_cat(rest) + suffix);
        lemma_read_bytes_n(p2, rest, suffix);
        assert(seq![first] + rest =~= items);
    }
}

/// Reading a vector of byte strings written at `pos` gives it back.
pub proof fn lemma_read_vec_bytes(prefix: Seq<u8>, items: Seq<Seq<u8>>, suffix: Seq<u8>)
    requires
        items.len() <= u64::MAX,
        forall|i: int| 0 <= i < items.len() ==> #[trigger] items[i].len() <= u64::MAX,
        prefix.len() + spec_enc_vec_bytes(items).len() + suffix.len() <= usize::MAX,
    ensures
        spec_read_vec_bytes(prefix + spec_enc_vec_bytes(items) + suffix, prefix.len() as int)
            == Some((items, (prefix.len() + spec_enc_vec_bytes(items).len()) as usize)),
{
    let data = prefix + spec_enc_vec_bytes(items) + suffix;
    assert(data =~= prefix + spec_word_u64(items.len() as u64) + (spec_enc_bytes_cat(items)
        + suffix));
    lemma_read_word_u64(prefix, items.len() as u64, spec_enc_bytes_cat(items) + suffix);
    let p2 = prefix + spec_word_u64(items.len() as u64);
    assert(data =~= p2 + spec_enc_bytes_cat(items) + suffix);
    lemma_read_bytes_n(p2, items, suffix);
}

} // verus!

