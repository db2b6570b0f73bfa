//! Hash values and the SHA-256 chain step.
//!
//! A `HashValue` is a 32-byte digest held as plain bytes so that contracts
//! can speak about its contents.  The digest function itself comes from an
//! outside hasher and is only named here, never restated.

use vstd::prelude::*;

verus! {

/// Number of bytes in a digest.
pub const HASH_BYTES: usize = 32;

/// The SHA-256 digest of a byte string.  The digest is a function of the
/// bytes alone; nothing else is assumed about it.
pub uninterp spec fn sha256_of(data: Seq<u8>) -> Seq<u8>;

/// Relies on solana_sha256_hasher::hashv: hashing several slices yields the
/// SHA-256 digest of their concatenation, 32 bytes, depending on the input
/// bytes alone.
#[verifier::external_body]
fn sha256_join(a: &[u8], b: &[u8]) -> (r: Vec<u8>)
    ensures
        r@ == sha256_of(a@ + b@),
        r@.len() == 32,
{
    solana_sha256_hasher::hashv(&[a, b]).to_bytes().to_vec()
}

/// A 32-byte digest.
#[derive(Debug, PartialEq, Eq)]
pub struct HashValue {
    bytes: Vec<u8>,
}

impl View for HashValue {
    type V = Seq<u8>;

    closed spec fn view(&self) -> Seq<u8> {
        self.bytes@
    }
}

impl HashValue {
    /// Wraps 32 raw bytes.
    pub fn from_bytes(bytes: Vec<u8>) -> (r: HashValue)
        requires
            bytes@.len() == 32,
        ensures
            r@ == bytes@,
    {
        HashValue { bytes }
    }

    /// The digest as a byte slice.
    pub fn as_slice(&self) -> (r: &[u8])
        ensures
            r@ == self@,
    {
        self.bytes.as_slice()
    }

    /// An independent copy of the digest.
    pub fn clone_value(&self) -> (r: HashValue)
        ensures
            r@ == self@,
    {
        let mut bytes: Vec<u8> = Vec::new();
        let mut i: usize = 0;
        while i < self.bytes.len()
            invariant
                i <= self.bytes@.len(),
                bytes@ == self.bytes@.subrange(0, i as int),
            decreases self.bytes@.len() - i,
        {
            bytes.push(self.bytes[i]);
            i = i + 1;
        }
        proof {
            assert(bytes@ =~= self.bytes@);
        }
        HashValue { bytes }
    }

    /// Whether two digests hold the same bytes.
    pub fn eq_bytes(&self, other: &HashValue) -> (r: bool)
        ensures
            r <==> self@ == other@,
    {
        bytes_eq(self.bytes.as_slice(), other.bytes.as_slice())
    }

    /// Advances a hash chain by one step: the digest of this digest.
    pub fn chain_step(&self) -> (r: HashValue)
        requires
            self@.len() == 32,
        ensures
            r@ == sha256_of(self@),
            r@.len() == 32,
    {
        let empty: Vec<u8> = Vec::new();
        let out: Vec<u8> = sha256_join(self.bytes.as_slice(), empty.as_slice());
        proof {
            assert(self@ + empty@ =~= self@);
        }
        HashValue { bytes: out }
    }

    /// Folds outside data into the chain: the digest of this digest followed
    /// by the mixin.
    pub fn chain_mix(&self, mixin: &HashValue) -> (r: HashValue)
        requires
            self@.len() == 32,
        ensures
            r@ == sha256_of(self@ + mixin@),
            r@.len() == 32,
    {
        HashValue { bytes: sha256_join(self.bytes.as_slice(), mixin.bytes.as_slice()) }
    }
}

/// Whether two byte strings are equal, position by position.
pub fn bytes_eq(a: &[u8], b: &[u8]) -> (r: bool)
    ensures
        r <==> a@ == b@,
{
    if a.len() != b.len() {
        proof {
            assert(a@ != b@);
        }
        return false;
    }
    let mut i: usize = 0;
    while i < a.len()
        invariant
            i <= a@.len(),
            a@.len() == b@.len(),
            forall|j: int| 0 <= j < i ==> a@[j] == b@[j],
        decreases a@.len() - i,
    {
        if a[i] != b[i] {
            return false;
        }
        i = i + 1;
    }
    proof {
        assert(a@ =~= b@);
    }
    true
}

/// The chain after `n` consecutive self-hash steps from `h`.
pub open spec fn hash_chain(h: Seq<u8>, n: nat) -> Seq<u8>
    decreases n,
{
    if n == 0 {
        h
    } else {
        sha256_of(hash_chain(h, (n - 1) as nat))
    }
}

} // verus!
