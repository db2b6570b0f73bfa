//! Little-endian wire primitives for the typed column values.
//!
//! Column values are stored in a fixed binary layout: integers little-endian,
//! booleans as one byte, options as a one-byte tag, collections as a 64-bit
//! count followed by the elements in order.  Encoders pin every byte;
//! decoders are proved to invert them exactly.

use vstd::bytes::{
    spec_u32_from_le_bytes, spec_u32_to_le_bytes, spec_u64_from_le_bytes, spec_u64_to_le_bytes,
    u32_from_le_bytes, u32_to_le_bytes, u64_from_le_bytes, u64_to_le_bytes,
};
use crate::keys::{copy_range, push_all};
use vstd::prelude::*;

verus! {

/// One byte for a boolean.
pub open spec fn spec_enc_bool(b: bool) -> Seq<u8> {
    if b {
        seq![1u8]
    } else {
        seq![0u8]
    }
}

/// The elements of `s`, each as eight little-endian bytes, in order.
pub open spec fn spec_enc_u64s(s: Seq<u64>) -> Seq<u8>
    decreases s.len(),
{
    if s.len() == 0 {
        Seq::empty()
    } else {
        spec_u64_to_le_bytes(s[0]) + spec_enc_u64s(s.drop_first())
    }
}

/// The elements of `s`, each as four little-endian bytes, in order.
pub open spec fn spec_enc_u32s(s: Seq<u32>) -> Seq<u8>
    decreases s.len(),
{
    if s.len() == 0 {
        Seq::empty()
    } else {
        spec_u32_to_le_bytes(s[0]) + spec_enc_u32s(s.drop_first())
    }
}

/// Reads back `n` eight-byte elements, requiring exact consumption.
pub open spec fn spec_dec_u64s(b: Seq<u8>, n: nat) -> Option<Seq<u64>>
    decreases n,
{
    if n == 0 {
        if b.len() == 0 {
            Some(Seq::empty())
        } else {
            None
        }
    } else if b.len() < 8 {
        None
    } else {
        match spec_dec_u64s(b.skip(8), (n - 1) as nat) {
            None => None,
            Some(rest) => Some(seq![spec_u64_from_le_bytes(b.take(8))] + rest),
        }
    }
}

/// Reads back `n` four-byte elements, requiring exact consumption.
pub open spec fn spec_dec_u32s(b: Seq<u8>, n: nat) -> Option<Seq<u32>>
    decreases n,
{
    if n == 0 {
        if b.len() == 0 {
            Some(Seq::empty())
        } else {
            None
        }
    } else if b.len() < 4 {
        None
    } else {
        match spec_dec_u32s(b.skip(4), (n - 1) as nat) {
            None => None,
            Some(rest) => Some(seq![spec_u32_from_le_bytes(b.take(4))] + rest),
        }
    }
}

/// The element encodings take eight bytes each.
pub proof fn lemma_enc_u64s_len(s: Seq<u64>)
    ensures
        spec_enc_u64s(s).len() == 8 * s.len(),
    decreases s.len(),
{
    vstd::bytes::lemma_auto_spec_u64_to_from_le_bytes();
    if s.len() > 0 {
        lemma_enc_u64s_len(s.drop_first());
    }
}

/// The element encodings take four bytes each.
pub proof fn lemma_enc_u32s_len(s: Seq<u32>)
    ensures
        spec_enc_u32s(s).len() == 4 * s.len(),
    decreases s.len(),
{
    vstd::bytes::lemma_auto_spec_u32_to_from_le_bytes();
    if s.len() > 0 {
        lemma_enc_u32s_len(s.drop_first());
    }
}

/// Decoding inverts encoding for eight-byte element lists.
pub proof fn lemma_dec_enc_u64s(s: Seq<u64>)
    ensures
        spec_dec_u64s(spec_enc_u64s(s), s.len()) == Some(s),
    decreases s.len(),
{
    vstd::bytes::lemma_auto_spec_u64_to_from_le_bytes();
    if s.len() == 0 {
        assert(spec_enc_u64s(s).len() == 0);
    } else {
        lemma_dec_enc_u64s(s.drop_first());
        lemma_enc_u64s_len(s.drop_first());
        let b = spec_enc_u64s(s);
        assert(b.take(8) =~= spec_u64_to_le_bytes(s[0]));
        assert(b.skip(8) =~= spec_enc_u64s(s.drop_first()));
        assert(seq![s[0]] + s.drop_first() =~= s);
    }
}

/// Decoding inverts encoding for four-byte element lists.
pub proof fn lemma_dec_enc_u32s(s: Seq<u32>)
    ensures
        spec_dec_u32s(spec_enc_u32s(s), s.len()) == Some(s),
    decreases s.len(),
{
    vstd::bytes::lemma_auto_spec_u32_to_from_le_bytes();
    if s.len() == 0 {
        assert(spec_enc_u32s(s).len() == 0);
    } else {
        lemma_dec_enc_u32s(s.drop_first());
        lemma_enc_u32s_len(s.drop_first());
        let b = spec_enc_u32s(s);
        assert(b.take(4) =~= spec_u32_to_le_bytes(s[0]));
        assert(b.skip(4) =~= spec_enc_u32s(s.drop_first()));
        assert(seq![s[0]] + s.drop_first() =~= s);
    }
}

/// Reading `n` eight-byte elements from a buffer of exactly `8 * n` bytes
/// always succeeds.
pub proof fn lemma_dec_defined_u64s(b: Seq<u8>, n: nat)
    requires
        b.len() == 8 * n,
    ensures
        spec_dec_u64s(b, n) is Some,
    decreases n,
{
    if n > 0 {
        lemma_dec_defined_u64s(b.skip(8), (n - 1) as nat);
    }
}

/// Reading `n` four-byte elements from a buffer of exactly `4 * n` bytes
/// always succeeds.
pub proof fn lemma_dec_defined_u32s(b: Seq<u8>, n: nat)
    requires
        b.len() == 4 * n,
    ensures
        spec_dec_u32s(b, n) is Some,
    decreases n,
{
    if n > 0 {
        lemma_dec_defined_u32s(b.skip(4), (n - 1) as nat);
    }
}

/// What decodes re-encodes to the same bytes, for eight-byte element lists.
pub proof fn lemma_enc_dec_u64s(b: Seq<u8>, n: nat)
    requires
        spec_dec_u64s(b, n) is Some,
    ensures
        spec_dec_u64s(b, n) matches Some(s) ==> spec_enc_u64s(s) == b && s.len() == n,
    decreases n,
{
    vstd::bytes::lemma_auto_spec_u64_to_from_le_bytes();
    if n == 0 {
        assert(spec_enc_u64s(Seq::empty()) =~= b);
    } else {
        lemma_enc_dec_u64s(b.skip(8), (n - 1) as nat);
        let s = spec_dec_u64s(b, n).unwrap();
        let rest = spec_dec_u64s(b.skip(8), (n - 1) as nat).unwrap();
        assert(s.drop_first() =~= rest);
        assert(spec_u64_to_le_bytes(spec_u64_from_le_bytes(b.take(8))) == b.take(8));
        assert(spec_enc_u64s(s) =~= b);
    }
}

/// What decodes re-encodes to the same bytes, for four-byte element lists.
pub proof fn lemma_enc_dec_u32s(b: Seq<u8>, n: nat)
    requires
        spec_dec_u32s(b, n) is Some,
    ensures
        spec_dec_u32s(b, n) matches Some(s) ==> spec_enc_u32s(s) == b && s.len() == n,
    decreases n,
{
    vstd::bytes::lemma_auto_spec_u32_to_from_le_bytes();
    if n == 0 {
        assert(spec_enc_u32s(Seq::empty()) =~= b);
    } else {
        lemma_enc_dec_u32s(b.skip(4), (n - 1) as nat);
        let s = spec_dec_u32s(b, n).unwrap();
        let rest = spec_dec_u32s(b.skip(4), (n - 1) as nat).unwrap();
        assert(s.drop_first() =~= rest);
        assert(spec_u32_to_le_bytes(spec_u32_from_le_bytes(b.take(4))) == b.take(4));
        assert(spec_enc_u32s(s) =~= b);
    }
}

/// Appends a little-endian 64-bit value.
pub fn put_u64(out: &mut Vec<u8>, v: u64)
    ensures
        final(out)@ == old(out)@ + spec_u64_to_le_bytes(v),
{
    let bytes: Vec<u8> = u64_to_le_bytes(v);
    push_all(out, bytes.as_slice());
}

/// Appends a little-endian 32-bit value.
pub fn put_u32(out: &mut Vec<u8>, v: u32)
    ensures
        final(out)@ == old(out)@ + spec_u32_to_le_bytes(v),
{
    let bytes: Vec<u8> = u32_to_le_bytes(v);
    push_all(out, bytes.as_slice());
}

/// Appends a boolean byte.
pub fn put_bool(out: &mut Vec<u8>, v: bool)
    ensures
        final(out)@ == old(out)@ + spec_enc_bool(v),
{
    if v {
        out.push(1u8);
    } else {
        out.push(0u8);
    }
    proof {
        assert(out@ =~= old(out)@ + spec_enc_bool(v));
    }
}

/// Reads the little-endian 64-bit value at `off`.
pub fn get_u64(b: &[u8], off: usize) -> (v: u64)
    requires
        off + 8 <= b@.len(),
    ensures
        v == spec_u64_from_le_bytes(b@.subrange(off as int, off + 8)),
{
    let chunk: Vec<u8> = copy_range(b, off, 8);
    u64_from_le_bytes(chunk.as_slice())
}

/// Reads the little-endian 32-bit value at `off`.
pub fn get_u32(b: &[u8], off: usize) -> (v: u32)
    requires
        off + 4 <= b@.len(),
    ensures
        v == spec_u32_from_le_bytes(b@.subrange(off as int, off + 4)),
{
    let chunk: Vec<u8> = copy_range(b, off, 4);
    u32_from_le_bytes(chunk.as_slice())
}

/// Appends every element of `v` from position `i` on, eight bytes each.
pub fn put_u64s_from(out: &mut Vec<u8>, v: &Vec<u64>, i: usize)
    requires
        i <= v@.len(),
    ensures
        final(out)@ == old(out)@ + spec_enc_u64s(v@.skip(i as int)),
    decreases v@.len() - i,
{
    if i == v.len() {
        proof {
            assert(spec_enc_u64s(v@.skip(i as int)) =~= Seq::empty());
            assert(out@ =~= old(out)@ + spec_enc_u64s(v@.skip(i as int)));
        }
    } else {
        put_u64(out, v[i]);
        put_u64s_from(out, v, i + 1);
        proof {
            assert(v@.skip(i as int).drop_first() =~= v@.skip(i + 1));
            assert(v@.skip(i as int)[0] == v@[i as int]);
        }
    }
}

/// Appends every element of `v` from position `i` on, four bytes each.
pub fn put_u32s_from(out: &mut Vec<u8>, v: &Vec<u32>, i: usize)
    requires
        i <= v@.len(),
    ensures
        final(out)@ == old(out)@ + spec_enc_u32s(v@.skip(i as int)),
    decreases v@.len() - i,
{
    if i == v.len() {
        proof {
            assert(spec_enc_u32s(v@.skip(i as int)) =~= Seq::empty());
            assert(out@ =~= old(out)@ + spec_enc_u32s(v@.skip(i as int)));
        }
    } else {
        put_u32(out, v[i]);
        put_u32s_from(out, v, i + 1);
        proof {
            assert(v@.skip(i as int).drop_first() =~= v@.skip(i + 1));
            assert(v@.skip(i as int)[0] == v@[i as int]);
        }
    }
}

/// Reads `n` eight-byte elements starting at `off`, which must end exactly
/// at the end of the buffer.
pub fn get_u64s(b: &[u8], off: usize, n: u64) -> (r: Option<Vec<u64>>)
    requires
        off <= b@.len(),
    ensures
        (r matches Some(v) ==> Some(v@) == spec_dec_u64s(b@.skip(off as int), n as nat)),
        (r is None ==> spec_dec_u64s(b@.skip(off as int), n as nat) is None),
    decreases n,
{
    let blen: usize = b.len();
    if n == 0 {
        if off == blen {
            proof {
                assert(b@.skip(off as int).len() == 0);
            }
            Some(Vec::new())
        } else {
            proof {
                assert(b@.skip(off as int).len() > 0);
            }
            None
        }
    } else {
        if blen - off < 8 {
            proof {
                assert(b@.skip(off as int).len() < 8);
            }
            return None;
        }
        let head: u64 = get_u64(b, off);
        let rest: Option<Vec<u64>> = get_u64s(b, off + 8, n - 1);
        proof {
            assert(b@.skip(off as int).take(8) =~= b@.subrange(off as int, off + 8));
            assert(b@.skip(off as int).skip(8) =~= b@.skip(off + 8));
        }
        match rest {
            None => None,
            Some(mut v) => {
                v.insert(0, head);
                proof {
                    assert(v@ =~= seq![spec_u64_from_le_bytes(b@.skip(off as int).take(8))]
                        + v@.skip(1));
                }
                Some(v)
            },
        }
    }
}

/// Reads `n` four-byte elements starting at `off`, which must end exactly at
/// the end of the buffer.
pub fn get_u32s(b: &[u8], off: usize, n: u64) -> (r: Option<Vec<u32>>)
    requires
        off <= b@.len(),
    ensures
        (r matches Some(v) ==> Some(v@) == spec_dec_u32s(b@.skip(off as int), n as nat)),
        (r is None ==> spec_dec_u32s(b@.skip(off as int), n as nat) is None),
    decreases n,
{
    let blen: usize = b.len();
    if n == 0 {
        if off == blen {
            proof {
                assert(b@.skip(off as int).len() == 0);
            }
            Some(Vec::new())
        } else {
            proof {
                assert(b@.skip(off as int).len() > 0);
            }
            None
        }
    } else {
        if blen - off < 4 {
            proof {
                assert(b@.skip(off as int).len() < 4);
            }
            return None;
        }
        let head: u32 = get_u32(b, off);
        let rest: Option<Vec<u32>> = get_u32s(b, off + 4, n - 1);
        proof {
            assert(b@.skip(off as int).take(4) =~= b@.subrange(off as int, off + 4));
            assert(b@.skip(off as int).skip(4) =~= b@.skip(off + 4));
        }
        match rest {
            None => None,
            Some(mut v) => {
                v.insert(0, head);
                proof {
                    assert(v@ =~= seq![spec_u32_from_le_bytes(b@.skip(off as int).take(4))]
                        + v@.skip(1));
                }
                Some(v)
            },
        }
    }
}

} // verus!
