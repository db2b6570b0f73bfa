//! Big-endian key encodings for the column store.
//!
//! Every column key embeds its integer components as fixed-width big-endian
//! bytes so that the engine's lexicographic key order coincides with the
//! numeric order of the embedded values.  That property is what makes ordered
//! range scans by slot work; the lemmas here prove it.

use vstd::prelude::*;

verus! {

/// The eight big-endian bytes of `v`, most significant first.
pub open spec fn spec_u64_be_bytes(v: u64) -> Seq<u8> {
    seq![
        ((v >> 56u64) & 0xff) as u8,
        ((v >> 48u64) & 0xff) as u8,
        ((v >> 40u64) & 0xff) as u8,
        ((v >> 32u64) & 0xff) as u8,
        ((v >> 24u64) & 0xff) as u8,
        ((v >> 16u64) & 0xff) as u8,
        ((v >> 8u64) & 0xff) as u8,
        (v & 0xff) as u8,
    ]
}

/// The value read back from eight big-endian bytes.
pub open spec fn spec_u64_from_be(s: Seq<u8>) -> u64
    recommends
        s.len() == 8,
{
    ((s[0] as u64) << 56u64) | ((s[1] as u64) << 48u64) | ((s[2] as u64) << 40u64)
        | ((s[3] as u64) << 32u64) | ((s[4] as u64) << 24u64) | ((s[5] as u64) << 16u64)
        | ((s[6] as u64) << 8u64) | (s[7] as u64)
}

/// Strict lexicographic order on byte strings, the order the engine iterates
/// keys in.
pub open spec fn lex_less(x: Seq<u8>, y: Seq<u8>) -> bool
    decreases x.len(),
{
    if x.len() == 0 || y.len() == 0 {
        y.len() > 0
    } else if x[0] != y[0] {
        x[0] < y[0]
    } else {
        lex_less(x.drop_first(), y.drop_first())
    }
}

/// Encodes `v` as eight big-endian bytes.
pub fn u64_to_be_bytes(v: u64) -> (r: Vec<u8>)
    ensures
        r@ == spec_u64_be_bytes(v),
{
    let mut out: Vec<u8> = Vec::new();
    out.push(((v >> 56) & 0xff) as u8);
    out.push(((v >> 48) & 0xff) as u8);
    out.push(((v >> 40) & 0xff) as u8);
    out.push(((v >> 32) & 0xff) as u8);
    out.push(((v >> 24) & 0xff) as u8);
    out.push(((v >> 16) & 0xff) as u8);
    out.push(((v >> 8) & 0xff) as u8);
    out.push((v & 0xff) as u8);
    proof {
        assert(out@ =~= spec_u64_be_bytes(v));
    }
    out
}

/// Reads a value back from the eight big-endian bytes at `off`.
pub fn u64_from_be_at(b: &[u8], off: usize) -> (v: u64)
    requires
        off + 8 <= b@.len(),
    ensures
        v == spec_u64_from_be(b@.subrange(off as int, off + 8)),
{
    let blen: usize = b.len();
    let v: u64 = ((b[off] as u64) << 56u64) | ((b[off + 1] as u64) << 48u64) | ((b[off
        + 2] as u64) << 40u64) | ((b[off + 3] as u64) << 32u64) | ((b[off + 4] as u64) << 24u64)
        | ((b[off + 5] as u64) << 16u64) | ((b[off + 6] as u64) << 8u64) | (b[off + 7] as u64);
    proof {
        let s = b@.subrange(off as int, off + 8);
        assert(s[0] == b@[off as int] && s[1] == b@[off + 1] && s[2] == b@[off + 2] && s[3] == b@[
            off + 3
        ] && s[4] == b@[off + 4] && s[5] == b@[off + 5] && s[6] == b@[off + 6] && s[7] == b@[off
            + 7]);
    }
    v
}

/// Copies `len` bytes starting at `start` into a fresh vector.
pub fn copy_range(b: &[u8], start: usize, len: usize) -> (r: Vec<u8>)
    requires
        start + len <= b@.len(),
    ensures
        r@ == b@.subrange(start as int, start + len),
{
    let blen: usize = b.len();
    let mut out: Vec<u8> = Vec::new();
    let mut i: usize = 0;
    while i < len
        invariant
            i <= len,
            start + len <= b@.len(),
            b@.len() <= usize::MAX,
            out@.len() == i,
            forall|j: int| 0 <= j < i ==> out@[j] == b@[start + j],
        decreases len - i,
    {
        out.push(b[start + i]);
        i = i + 1;
    }
    proof {
        assert(out@ =~= b@.subrange(start as int, start + len));
    }
    out
}

/// Appends all of `src` to `dst`.
pub fn push_all(dst: &mut Vec<u8>, src: &[u8])
    ensures
        final(dst)@ == old(dst)@ + src@,
{
    let mut i: usize = 0;
    while i < src.len()
        invariant
            i <= src@.len(),
            dst@ == old(dst)@ + src@.subrange(0, i as int),
        decreases src@.len() - i,
    {
        proof {
            assert(old(dst)@ + src@.subrange(0, i + 1) =~= (old(dst)@ + src@.subrange(0, i as int)).push(
                src@[i as int],
            ));
        }
        dst.push(src[i]);
        i = i + 1;
    }
    proof {
        assert(src@.subrange(0, src@.len() as int) =~= src@);
    }
}

/// Decoding inverts encoding.
pub proof fn lemma_be_round_trip(v: u64)
    ensures
        spec_u64_from_be(spec_u64_be_bytes(v)) == v,
{
    assert(((((((v >> 56u64) & 0xff) as u8) as u64) << 56u64) | (((((v >> 48u64) & 0xff) as u8)
        as u64) << 48u64) | (((((v >> 40u64) & 0xff) as u8) as u64) << 40u64) | (((((v >> 32u64)
        & 0xff) as u8) as u64) << 32u64) | (((((v >> 24u64) & 0xff) as u8) as u64) << 24u64)
        | (((((v >> 16u64) & 0xff) as u8) as u64) << 16u64) | (((((v >> 8u64) & 0xff) as u8)
        as u64) << 8u64) | (((v & 0xff) as u8) as u64)) == v) by (bit_vector);
}

/// Encoding inverts decoding: every eight-byte string is the encoding of
/// the value read from it.
pub proof fn lemma_be_complete(s: Seq<u8>)
    requires
        s.len() == 8,
    ensures
        spec_u64_be_bytes(spec_u64_from_be(s)) == s,
{
    let v: u64 = spec_u64_from_be(s);
    let s0: u8 = s[0];
    let s1: u8 = s[1];
    let s2: u8 = s[2];
    let s3: u8 = s[3];
    let s4: u8 = s[4];
    let s5: u8 = s[5];
    let s6: u8 = s[6];
    let s7: u8 = s[7];
    assert(((v >> 56u64) & 0xff) as u8 == s0 && ((v >> 48u64) & 0xff) as u8 == s1 && ((v
        >> 40u64) & 0xff) as u8 == s2 && ((v >> 32u64) & 0xff) as u8 == s3 && ((v >> 24u64)
        & 0xff) as u8 == s4 && ((v >> 16u64) & 0xff) as u8 == s5 && ((v >> 8u64) & 0xff) as u8
        == s6 && (v & 0xff) as u8 == s7) by (bit_vector)
        requires
            v == ((s0 as u64) << 56u64) | ((s1 as u64) << 48u64) | ((s2 as u64) << 40u64) | ((
            s3 as u64) << 32u64) | ((s4 as u64) << 24u64) | ((s5 as u64) << 16u64) | ((s6 as u64)
                << 8u64) | (s7 as u64),
    ;
    assert(spec_u64_be_bytes(v) =~= s);
}

/// Unfolds `lex_less` over two eight-byte strings into a comparison chain.
proof fn lemma_lex_unfold8(x: Seq<u8>, y: Seq<u8>)
    requires
        x.len() == 8,
        y.len() == 8,
    ensures
        lex_less(x, y) <==> (if x[0] != y[0] {
            x[0] < y[0]
        } else if x[1] != y[1] {
            x[1] < y[1]
        } else if x[2] != y[2] {
            x[2] < y[2]
        } else if x[3] != y[3] {
            x[3] < y[3]
        } else if x[4] != y[4] {
            x[4] < y[4]
        } else if x[5] != y[5] {
            x[5] < y[5]
        } else if x[6] != y[6] {
            x[6] < y[6]
        } else if x[7] != y[7] {
            x[7] < y[7]
        } else {
            false
        }),
{
    let x1: Seq<u8> = x.drop_first();
    let y1: Seq<u8> = y.drop_first();
    let x2: Seq<u8> = x1.drop_first();
    let y2: Seq<u8> = y1.drop_first();
    let x3: Seq<u8> = x2.drop_first();
    let y3: Seq<u8> = y2.drop_first();
    let x4: Seq<u8> = x3.drop_first();
    let y4: Seq<u8> = y3.drop_first();
    let x5: Seq<u8> = x4.drop_first();
    let y5: Seq<u8> = y4.drop_first();
    let x6: Seq<u8> = x5.drop_first();
    let y6: Seq<u8> = y5.drop_first();
    let x7: Seq<u8> = x6.drop_first();
    let y7: Seq<u8> = y6.drop_first();
    assert(x7.drop_first().len() == 0 && y7.drop_first().len() == 0);
    assert(!lex_less(x7.drop_first(), y7.drop_first()));
    assert(x7[0] == x[7] && y7[0] == y[7]);
    assert(x6[0] == x[6] && y6[0] == y[6]);
    assert(x5[0] == x[5] && y5[0] == y[5]);
    assert(x4[0] == x[4] && y4[0] == y[4]);
    assert(x3[0] == x[3] && y3[0] == y[3]);
    assert(x2[0] == x[2] && y2[0] == y[2]);
    assert(x1[0] == x[1] && y1[0] == y[1]);
    assert(lex_less(x7, y7) <==> (x[7] != y[7] && x[7] < y[7]));
    assert(lex_less(x6, y6) <==> (if x[6] != y[6] {
        x[6] < y[6]
    } else {
        lex_less(x7, y7)
    }));
    assert(lex_less(x5, y5) <==> (if x[5] != y[5] {
        x[5] < y[5]
    } else {
        lex_less(x6, y6)
    }));
    assert(lex_less(x4, y4) <==> (if x[4] != y[4] {
        x[4] < y[4]
    } else {
        lex_less(x5, y5)
    }));
    assert(lex_less(x3, y3) <==> (if x[3] != y[3] {
        x[3] < y[3]
    } else {
        lex_less(x4, y4)
    }));
    assert(lex_less(x2, y2) <==> (if x[2] != y[2] {
        x[2] < y[2]
    } else {
        lex_less(x3, y3)
    }));
    assert(lex_less(x1, y1) <==> (if x[1] != y[1] {
        x[1] < y[1]
    } else {
        lex_less(x2, y2)
    }));
    assert(lex_less(x, y) <==> (if x[0] != y[0] {
        x[0] < y[0]
    } else {
        lex_less(x1, y1)
    }));
}

/// Lexicographic order on the big-endian bytes agrees with numeric order:
/// the invariant that keeps slot-range iteration correct.
pub proof fn lemma_be_order(a: u64, b: u64)
    ensures
        lex_less(spec_u64_be_bytes(a), spec_u64_be_bytes(b)) <==> a < b,
{
    let x: Seq<u8> = spec_u64_be_bytes(a);
    let y: Seq<u8> = spec_u64_be_bytes(b);
    let a0: u8 = ((a >> 56u64) & 0xff) as u8;
    let a1: u8 = ((a >> 48u64) & 0xff) as u8;
    let a2: u8 = ((a >> 40u64) & 0xff) as u8;
    let a3: u8 = ((a >> 32u64) & 0xff) as u8;
    let a4: u8 = ((a >> 24u64) & 0xff) as u8;
    let a5: u8 = ((a >> 16u64) & 0xff) as u8;
    let a6: u8 = ((a >> 8u64) & 0xff) as u8;
    let a7: u8 = (a & 0xff) as u8;
    let b0: u8 = ((b >> 56u64) & 0xff) as u8;
    let b1: u8 = ((b >> 48u64) & 0xff) as u8;
    let b2: u8 = ((b >> 40u64) & 0xff) as u8;
    let b3: u8 = ((b >> 32u64) & 0xff) as u8;
    let b4: u8 = ((b >> 24u64) & 0xff) as u8;
    let b5: u8 = ((b >> 16u64) & 0xff) as u8;
    let b6: u8 = ((b >> 8u64) & 0xff) as u8;
    let b7: u8 = (b & 0xff) as u8;
    lemma_lex_unfold8(x, y);
    assert(x[0] == a0 && x[1] == a1 && x[2] == a2 && x[3] == a3 && x[4] == a4 && x[5] == a5
        && x[6] == a6 && x[7] == a7);
    assert(y[0] == b0 && y[1] == b1 && y[2] == b2 && y[3] == b3 && y[4] == b4 && y[5] == b5
        && y[6] == b6 && y[7] == b7);
    assert((if a0 != b0 {
        a0 < b0
    } else if a1 != b1 {
        a1 < b1
    } else if a2 != b2 {
        a2 < b2
    } else if a3 != b3 {
        a3 < b3
    } else if a4 != b4 {
        a4 < b4
    } else if a5 != b5 {
        a5 < b5
    } else if a6 != b6 {
        a6 < b6
    } else if a7 != b7 {
        a7 < b7
    } else {
        false
    }) <==> a < b) by (bit_vector)
        requires
            a0 == ((a >> 56u64) & 0xff) as u8,
            a1 == ((a >> 48u64) & 0xff) as u8,
            a2 == ((a >> 40u64) & 0xff) as u8,
            a3 == ((a >> 32u64) & 0xff) as u8,
            a4 == ((a >> 24u64) & 0xff) as u8,
            a5 == ((a >> 16u64) & 0xff) as u8,
            a6 == ((a >> 8u64) & 0xff) as u8,
            a7 == (a & 0xff) as u8,
            b0 == ((b >> 56u64) & 0xff) as u8,
            b1 == ((b >> 48u64) & 0xff) as u8,
            b2 == ((b >> 40u64) & 0xff) as u8,
            b3 == ((b >> 32u64) & 0xff) as u8,
            b4 == ((b >> 24u64) & 0xff) as u8,
            b5 == ((b >> 16u64) & 0xff) as u8,
            b6 == ((b >> 8u64) & 0xff) as u8,
            b7 == (b & 0xff) as u8,
    ;
}

/// For equal-length prefixes, lexicographic order on concatenations is
/// decided by the prefixes unless they coincide, in which case it is decided
/// by the suffixes.  This reduces composite-key ordering to componentwise
/// ordering.
pub proof fn lemma_lex_concat(x: Seq<u8>, y: Seq<u8>, u: Seq<u8>, v: Seq<u8>)
    requires
        x.len() == y.len(),
    ensures
        lex_less(x + u, y + v) <==> (if x == y {
            lex_less(u, v)
        } else {
            lex_less(x, y)
        }),
    decreases x.len(),
{
    if x.len() == 0 {
        assert(x + u =~= u);
        assert(y + v =~= v);
        assert(x =~= y);
    } else {
        assert((x + u).len() > 0);
        assert((y + v).len() > 0);
        assert((x + u)[0] == x[0]);
        assert((y + v)[0] == y[0]);
        if x[0] != y[0] {
            assert(x != y);
        } else {
            assert((x + u).drop_first() =~= x.drop_first() + u);
            assert((y + v).drop_first() =~= y.drop_first() + v);
            lemma_lex_concat(x.drop_first(), y.drop_first(), u, v);
            if x.drop_first() == y.drop_first() {
                assert forall|i: int| 0 <= i < x.len() implies x[i] == y[i] by {
                    if i > 0 {
                        assert(x.drop_first()[i - 1] == y.drop_first()[i - 1]);
                    }
                }
                assert(x =~= y);
            } else {
                assert(x != y) by {
                    if x == y {
                        assert(x.drop_first() =~= y.drop_first());
                    }
                }
            }
        }
    }
}

/// Ordering of composite `(slot, index)` keys: the sixteen-byte encoding
/// iterates in the numeric order of the pair.
pub proof fn lemma_pair_key_order(a_slot: u64, a_idx: u64, b_slot: u64, b_idx: u64)
    ensures
        lex_less(
            spec_u64_be_bytes(a_slot) + spec_u64_be_bytes(a_idx),
            spec_u64_be_bytes(b_slot) + spec_u64_be_bytes(b_idx),
        ) <==> (a_slot < b_slot || (a_slot == b_slot && a_idx < b_idx)),
{
    lemma_lex_concat(
        spec_u64_be_bytes(a_slot),
        spec_u64_be_bytes(b_slot),
        spec_u64_be_bytes(a_idx),
        spec_u64_be_bytes(b_idx),
    );
    lemma_be_order(a_slot, b_slot);
    lemma_be_order(a_idx, b_idx);
    if a_slot == b_slot {
        assert(spec_u64_be_bytes(a_slot) =~= spec_u64_be_bytes(b_slot));
    } else {
        if spec_u64_be_bytes(a_slot) == spec_u64_be_bytes(b_slot) {
            lemma_be_order(b_slot, a_slot);
            assert(false);
        }
    }
}

} // verus!
