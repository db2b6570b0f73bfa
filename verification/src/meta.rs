//! The typed column values: per-slot and per-erasure-set records, with their
//! exact wire layout.
//!
//! Each record has an encoder that pins every byte and a decoder proved to
//! accept exactly the encodings (strict tags, strict lengths).  Malformed
//! bytes decode to nothing, which the store surfaces as a serialization
//! failure for that record.

use crate::codec::{
    get_u32, get_u32s, get_u64, get_u64s, put_bool, put_u32, put_u32s_from, put_u64,
    put_u64s_from, spec_dec_u32s, spec_dec_u64s, spec_enc_bool, spec_enc_u32s, spec_enc_u64s,
};
use crate::hashing::HashValue;
use crate::keys::{copy_range, push_all};
use vstd::bytes::{spec_u32_from_le_bytes, spec_u32_to_le_bytes, spec_u64_from_le_bytes,
    spec_u64_to_le_bytes};
use vstd::prelude::*;

verus! {

/// One of exactly two rotating records bounding how far back the secondary
/// transaction indexes are populated.
#[derive(Debug, PartialEq, Eq)]
pub struct TransactionStatusIndexMeta {
    /// Highest slot the buffer under this index has seen.
    pub max_slot: u64,
    /// Whether the buffer is frozen for rotation.
    pub frozen: bool,
}

impl TransactionStatusIndexMeta {
    /// Wire layout: the slot little-endian, then the flag byte.
    pub open spec fn spec_encode(self) -> Seq<u8> {
        spec_u64_to_le_bytes(self.max_slot) + spec_enc_bool(self.frozen)
    }

    /// The record a nine-byte buffer holds, if its flag byte is strict.
    pub open spec fn spec_decode(b: Seq<u8>) -> Option<TransactionStatusIndexMeta> {
        if b.len() == 9 && (b[8] == 0 || b[8] == 1) {
            Some(
                TransactionStatusIndexMeta {
                    max_slot: spec_u64_from_le_bytes(b.subrange(0, 8)),
                    frozen: b[8] == 1,
                },
            )
        } else {
            None
        }
    }

    /// Serializes the record.
    pub fn encode(&self) -> (r: Vec<u8>)
        ensures
            r@ == self.spec_encode(),
    {
        let mut out: Vec<u8> = Vec::new();
        put_u64(&mut out, self.max_slot);
        put_bool(&mut out, self.frozen);
        out
    }

    /// Deserializes a record, strictly.
    pub fn decode(b: &[u8]) -> (r: Option<TransactionStatusIndexMeta>)
        ensures
            r == Self::spec_decode(b@),
    {
        proof {
            vstd::bytes::lemma_auto_spec_u64_to_from_le_bytes();
        }
        if b.len() != 9 {
            return None;
        }
        let flag: u8 = b[8];
        if flag != 0 && flag != 1 {
            return None;
        }
        Some(TransactionStatusIndexMeta { max_slot: get_u64(b, 0), frozen: flag == 1 })
    }

    /// Decoding inverts encoding.
    pub proof fn lemma_round_trip(self)
        ensures
            Self::spec_decode(self.spec_encode()) == Some(self),
    {
        vstd::bytes::lemma_auto_spec_u64_to_from_le_bytes();
        let b = self.spec_encode();
        assert(b.subrange(0, 8) =~= spec_u64_to_le_bytes(self.max_slot));
        assert(b[8] == (if self.frozen { 1u8 } else { 0u8 }));
    }
}

impl Default for TransactionStatusIndexMeta {
    /// A fresh rotating record: no slot seen, not frozen.
    fn default() -> (r: Self)
        ensures
            r.max_slot == 0,
            !r.frozen,
    {
        TransactionStatusIndexMeta { max_slot: 0, frozen: false }
    }
}

/// Whether an address was writeable in the transaction a secondary-index row
/// points at.
#[derive(Debug, PartialEq, Eq)]
pub struct AddressSignatureMeta {
    pub writeable: bool,
}

impl AddressSignatureMeta {
    /// Wire layout: the flag byte alone.
    pub open spec fn spec_encode(self) -> Seq<u8> {
        spec_enc_bool(self.writeable)
    }

    /// The record a one-byte buffer holds, if its flag byte is strict.
    pub open spec fn spec_decode(b: Seq<u8>) -> Option<AddressSignatureMeta> {
        if b.len() == 1 && (b[0] == 0 || b[0] == 1) {
            Some(AddressSignatureMeta { writeable: b[0] == 1 })
        } else {
            None
        }
    }

    /// Serializes the record.
    pub fn encode(&self) -> (r: Vec<u8>)
        ensures
            r@ == self.spec_encode(),
    {
        let mut out: Vec<u8> = Vec::new();
        put_bool(&mut out, self.writeable);
        out
    }

    /// Deserializes a record, strictly.
    pub fn decode(b: &[u8]) -> (r: Option<AddressSignatureMeta>)
        ensures
            r == Self::spec_decode(b@),
    {
        if b.len() != 1 {
            return None;
        }
        let flag: u8 = b[0];
        if flag != 0 && flag != 1 {
            return None;
        }
        Some(AddressSignatureMeta { writeable: flag == 1 })
    }

    /// Decoding inverts encoding.
    pub proof fn lemma_round_trip(self)
        ensures
            Self::spec_decode(self.spec_encode()) == Some(self),
    {
    }
}

impl Default for AddressSignatureMeta {
    /// A fresh row: not writeable.
    fn default() -> (r: Self)
        ensures
            !r.writeable,
    {
        AddressSignatureMeta { writeable: false }
    }
}

/// Layout of one forward-error-correction set.
#[derive(Debug, PartialEq, Eq)]
pub struct ErasureConfig {
    pub num_data: u64,
    pub num_coding: u64,
}

/// Per-erasure-set coding parameters.
#[derive(Debug, PartialEq, Eq)]
pub struct ErasureMeta {
    /// Which erasure set in the slot this is.
    pub fec_set_index: u32,
    /// First coding index in the set.
    pub first_coding_index: u64,
    /// Index of the first received coding shred in the set.
    pub first_received_coding_index: u64,
    /// Erasure configuration for this set.
    pub config: ErasureConfig,
}

impl ErasureMeta {
    /// Wire layout: five 64-bit little-endian words; the set index widens to
    /// 64 bits for compatibility with older layouts.
    pub open spec fn spec_encode(self) -> Seq<u8> {
        spec_u64_to_le_bytes(self.fec_set_index as u64) + spec_u64_to_le_bytes(
            self.first_coding_index,
        ) + spec_u64_to_le_bytes(self.first_received_coding_index) + spec_u64_to_le_bytes(
            self.config.num_data,
        ) + spec_u64_to_le_bytes(self.config.num_coding)
    }

    /// The record a forty-byte buffer holds, if the widened set index still
    /// fits 32 bits.
    pub open spec fn spec_decode(b: Seq<u8>) -> Option<ErasureMeta> {
        if b.len() == 40 && spec_u64_from_le_bytes(b.subrange(0, 8)) <= u32::MAX {
            Some(
                ErasureMeta {
                    fec_set_index: spec_u64_from_le_bytes(b.subrange(0, 8)) as u32,
                    first_coding_index: spec_u64_from_le_bytes(b.subrange(8, 16)),
                    first_received_coding_index: spec_u64_from_le_bytes(b.subrange(16, 24)),
                    config: ErasureConfig {
                        num_data: spec_u64_from_le_bytes(b.subrange(24, 32)),
                        num_coding: spec_u64_from_le_bytes(b.subrange(32, 40)),
                    },
                },
            )
        } else {
            None
        }
    }

    /// Serializes the record.
    pub fn encode(&self) -> (r: Vec<u8>)
        ensures
            r@ == self.spec_encode(),
    {
        let mut out: Vec<u8> = Vec::new();
        put_u64(&mut out, self.fec_set_index as u64);
        put_u64(&mut out, self.first_coding_index);
        put_u64(&mut out, self.first_received_coding_index);
        put_u64(&mut out, self.config.num_data);
        put_u64(&mut out, self.config.num_coding);
        out
    }

    /// Deserializes a record, strictly.
    pub fn decode(b: &[u8]) -> (r: Option<ErasureMeta>)
        ensures
            r == Self::spec_decode(b@),
    {
        if b.len() != 40 {
            return None;
        }
        let widened: u64 = get_u64(b, 0);
        if widened > u32::MAX as u64 {
            return None;
        }
        Some(
            ErasureMeta {
                fec_set_index: widened as u32,
                first_coding_index: get_u64(b, 8),
                first_received_coding_index: get_u64(b, 16),
                config: ErasureConfig { num_data: get_u64(b, 24), num_coding: get_u64(b, 32) },
            },
        )
    }

    /// Decoding inverts encoding.
    pub proof fn lemma_round_trip(self)
        ensures
            Self::spec_decode(self.spec_encode()) == Some(self),
    {
        vstd::bytes::lemma_auto_spec_u64_to_from_le_bytes();
        let b = self.spec_encode();
        assert(b.subrange(0, 8) =~= spec_u64_to_le_bytes(self.fec_set_index as u64));
        assert(b.subrange(8, 16) =~= spec_u64_to_le_bytes(self.first_coding_index));
        assert(b.subrange(16, 24) =~= spec_u64_to_le_bytes(self.first_received_coding_index));
        assert(b.subrange(24, 32) =~= spec_u64_to_le_bytes(self.config.num_data));
        assert(b.subrange(32, 40) =~= spec_u64_to_le_bytes(self.config.num_coding));
    }
}

/// Whether a shred carries block data or erasure coding.
#[derive(Clone, Copy, Debug, PartialEq, Eq, Structural)]
pub enum ShredType {
    Data,
    Code,
}

/// The wire byte of a data shred.
pub const SHRED_TYPE_DATA_BYTE: u8 = 0xa5;

/// The wire byte of a coding shred.
pub const SHRED_TYPE_CODE_BYTE: u8 = 0x5a;

impl ShredType {
    /// The record's wire byte.
    pub open spec fn spec_byte(self) -> u8 {
        match self {
            ShredType::Data => SHRED_TYPE_DATA_BYTE,
            ShredType::Code => SHRED_TYPE_CODE_BYTE,
        }
    }

    /// The record's wire byte.
    pub fn to_byte(self) -> (r: u8)
        ensures
            r == self.spec_byte(),
    {
        match self {
            ShredType::Data => SHRED_TYPE_DATA_BYTE,
            ShredType::Code => SHRED_TYPE_CODE_BYTE,
        }
    }

    /// The shred type a wire byte names, if any.
    pub open spec fn spec_of_byte(b: u8) -> Option<ShredType> {
        if b == SHRED_TYPE_DATA_BYTE {
            Some(ShredType::Data)
        } else if b == SHRED_TYPE_CODE_BYTE {
            Some(ShredType::Code)
        } else {
            None
        }
    }

    /// The shred type a wire byte names, if any.
    pub fn of_byte(b: u8) -> (r: Option<ShredType>)
        ensures
            r == Self::spec_of_byte(b),
    {
        if b == SHRED_TYPE_DATA_BYTE {
            Some(ShredType::Data)
        } else if b == SHRED_TYPE_CODE_BYTE {
            Some(ShredType::Code)
        } else {
            None
        }
    }
}

/// Per-erasure-set record of the chained Merkle root and the first shred
/// seen for the set.
#[derive(Debug, PartialEq, Eq)]
pub struct MerkleRootMeta {
    /// The Merkle root; absent for legacy shreds.
    pub merkle_root: Option<HashValue>,
    /// The first received shred's index.
    pub first_received_shred_index: u32,
    /// The first received shred's type.
    pub first_received_shred_type: ShredType,
}

impl MerkleRootMeta {
    /// An absent root still encodes; a present one must be 32 bytes.
    pub open spec fn wf(self) -> bool {
        self.merkle_root matches Some(h) ==> h@.len() == 32
    }

    /// Wire layout: an option tag (and the root when present), the shred
    /// index little-endian, the shred-type byte.
    pub open spec fn spec_encode(self) -> Seq<u8> {
        (match self.merkle_root {
            None => seq![0u8],
            Some(h) => seq![1u8] + h@,
        }) + spec_u32_to_le_bytes(self.first_received_shred_index) + seq![
            self.first_received_shred_type.spec_byte(),
        ]
    }

    /// The buffers that decode: six bytes under a zero tag, or thirty-eight
    /// under a one tag, closed by a valid shred-type byte.
    pub open spec fn spec_decodable(b: Seq<u8>) -> bool {
        ||| (b.len() == 6 && b[0] == 0 && ShredType::spec_of_byte(b[5]) is Some)
        ||| (b.len() == 38 && b[0] == 1 && ShredType::spec_of_byte(b[37]) is Some)
    }

    /// Serializes the record.
    pub fn encode(&self) -> (r: Vec<u8>)
        requires
            self.wf(),
        ensures
            r@ == self.spec_encode(),
    {
        let mut out: Vec<u8> = Vec::new();
        match &self.merkle_root {
            None => {
                out.push(0u8);
            },
            Some(h) => {
                out.push(1u8);
                push_all(&mut out, h.as_slice());
            },
        }
        put_u32(&mut out, self.first_received_shred_index);
        out.push(self.first_received_shred_type.to_byte());
        proof {
            assert(out@ =~= self.spec_encode());
        }
        out
    }

    /// Deserializes a record, strictly: decoding succeeds exactly on the
    /// decodable buffers, and what decodes re-encodes to the same bytes.
    pub fn decode(b: &[u8]) -> (r: Option<MerkleRootMeta>)
        ensures
            r is Some <==> Self::spec_decodable(b@),
            r matches Some(m) ==> m.wf() && m.spec_encode() == b@,
    {
        proof {
            vstd::bytes::lemma_auto_spec_u32_to_from_le_bytes();
        }
        if b.len() == 6 && b[0] == 0 {
            let ty: Option<ShredType> = ShredType::of_byte(b[5]);
            match ty {
                None => None,
                Some(t) => {
                    let m = MerkleRootMeta {
                        merkle_root: None,
                        first_received_shred_index: get_u32(b, 1),
                        first_received_shred_type: t,
                    };
                    proof {
                        assert(m.spec_encode() =~= b@);
                    }
                    Some(m)
                },
            }
        } else if b.len() == 38 && b[0] == 1 {
            let ty: Option<ShredType> = ShredType::of_byte(b[37]);
            match ty {
                None => None,
                Some(t) => {
                    let root: HashValue = HashValue::from_bytes(copy_range(b, 1, 32));
                    let m = MerkleRootMeta {
                        merkle_root: Some(root),
                        first_received_shred_index: get_u32(b, 33),
                        first_received_shred_type: t,
                    };
                    proof {
                        assert(m.spec_encode() =~= b@);
                    }
                    Some(m)
                },
            }
        } else {
            None
        }
    }

    /// Every encoding of a well-formed record is decodable, so decoding
    /// inverts encoding (the encoding pins every field).
    pub proof fn lemma_encode_decodable(self)
        requires
            self.wf(),
        ensures
            Self::spec_decodable(self.spec_encode()),
    {
        vstd::bytes::lemma_auto_spec_u32_to_from_le_bytes();
        let b = self.spec_encode();
        match self.merkle_root {
            None => {
                assert(b[0] == 0 && b[5] == self.first_received_shred_type.spec_byte());
            },
            Some(h) => {
                assert(b[0] == 1 && b[37] == self.first_received_shred_type.spec_byte());
            },
        }
    }
}


/// Strictly ascending order for stored index sets (each element exceeds its
/// predecessor).
pub open spec fn strictly_increasing_u64s(s: Seq<u64>) -> bool {
    forall|i: int| 0 <= i < s.len() - 1 ==> #[trigger] s[i] < s[i + 1]
}

/// Strictly ascending order for stored index sets (each element exceeds its
/// predecessor).
pub open spec fn strictly_increasing_u32s(s: Seq<u32>) -> bool {
    forall|i: int| 0 <= i < s.len() - 1 ==> #[trigger] s[i] < s[i + 1]
}

/// Checks strict ascending order.
pub fn check_strictly_increasing_u64s(v: &Vec<u64>) -> (r: bool)
    ensures
        r <==> strictly_increasing_u64s(v@),
{
    let mut i: usize = 0;
    if v.len() == 0 {
        return true;
    }
    while i < v.len() - 1
        invariant
            v@.len() > 0,
            i <= v@.len() - 1,
            forall|j: int| 0 <= j < i ==> #[trigger] v@[j] < v@[j + 1],
        decreases v@.len() - i,
    {
        if v[i] >= v[i + 1] {
            return false;
        }
        i = i + 1;
    }
    true
}

/// Checks strict ascending order.
pub fn check_strictly_increasing_u32s(v: &Vec<u32>) -> (r: bool)
    ensures
        r <==> strictly_increasing_u32s(v@),
{
    let mut i: usize = 0;
    if v.len() == 0 {
        return true;
    }
    while i < v.len() - 1
        invariant
            v@.len() > 0,
            i <= v@.len() - 1,
            forall|j: int| 0 <= j < i ==> #[trigger] v@[j] < v@[j + 1],
        decreases v@.len() - i,
    {
        if v[i] >= v[i + 1] {
            return false;
        }
        i = i + 1;
    }
    true
}

/// The 64-bit word standing for an optional slot or index: absent values
/// are the all-ones sentinel.
pub open spec fn spec_opt_word(v: Option<u64>) -> u64 {
    match v {
        None => u64::MAX,
        Some(x) => x,
    }
}

/// The per-slot record: how much of the slot has arrived, where it hangs in
/// the fork tree, and which of its data ranges are complete.
#[derive(Debug, PartialEq, Eq)]
pub struct SlotMeta {
    /// The slot this record describes.
    pub slot: u64,
    /// Count of consecutive shreds received from index zero; equally, the
    /// first missing index while the slot is incomplete.
    pub consumed: u64,
    /// One past the highest shred index received.
    pub received: u64,
    /// When the first shred of the slot arrived.
    pub first_shred_timestamp: u64,
    /// Index of the shred flagged as the slot's last, once received.
    pub last_index: Option<u64>,
    /// The slot this one derives from; absent at the head of a detached
    /// chain.
    pub parent_slot: Option<u64>,
    /// Slots holding blocks that derive from this one.
    pub next_slots: Vec<u64>,
    /// Shred indices marked data-complete, ascending.
    pub completed_data_indexes: Vec<u32>,
}

impl SlotMeta {
    /// The record invariant: the contiguous prefix cannot pass the highest
    /// index seen, optional words stay clear of their sentinel, and the
    /// completed set is strictly ascending.
    pub open spec fn wf(self) -> bool {
        &&& self.consumed <= self.received
        &&& (self.last_index matches Some(v) ==> v != u64::MAX)
        &&& (self.parent_slot matches Some(v) ==> v != u64::MAX)
        &&& strictly_increasing_u32s(self.completed_data_indexes@)
    }

    /// Wire layout: six 64-bit words (slot, consumed, received, timestamp,
    /// optional last index, optional parent), then the child-slot list and
    /// the completed-index list, each behind a 64-bit count.
    pub open spec fn spec_encode(self) -> Seq<u8> {
        spec_u64_to_le_bytes(self.slot) + spec_u64_to_le_bytes(self.consumed)
            + spec_u64_to_le_bytes(self.received) + spec_u64_to_le_bytes(
            self.first_shred_timestamp,
        ) + spec_u64_to_le_bytes(spec_opt_word(self.last_index)) + spec_u64_to_le_bytes(
            spec_opt_word(self.parent_slot),
        ) + spec_u64_to_le_bytes(self.next_slots@.len() as u64) + spec_enc_u64s(self.next_slots@)
            + spec_u64_to_le_bytes(self.completed_data_indexes@.len() as u64) + spec_enc_u32s(
            self.completed_data_indexes@,
        )
    }

    /// Serializes the record.
    pub fn encode(&self) -> (r: Vec<u8>)
        ensures
            r@ == self.spec_encode(),
    {
        let mut out: Vec<u8> = Vec::new();
        put_u64(&mut out, self.slot);
        put_u64(&mut out, self.consumed);
        put_u64(&mut out, self.received);
        put_u64(&mut out, self.first_shred_timestamp);
        put_u64(
            &mut out,
            match self.last_index {
                None => u64::MAX,
                Some(v) => v,
            },
        );
        put_u64(
            &mut out,
            match self.parent_slot {
                None => u64::MAX,
                Some(v) => v,
            },
        );
        put_u64(&mut out, self.next_slots.len() as u64);
        put_u64s_from(&mut out, &self.next_slots, 0);
        put_u64(&mut out, self.completed_data_indexes.len() as u64);
        put_u32s_from(&mut out, &self.completed_data_indexes, 0);
        proof {
            assert(self.next_slots@.skip(0) =~= self.next_slots@);
            assert(self.completed_data_indexes@.skip(0) =~= self.completed_data_indexes@);
        }
        out
    }

    /// The buffers that decode: at least the fixed head, a contiguous
    /// prefix within the received range, both element counts fitting the
    /// remaining bytes exactly, and a strictly ascending completed set.
    pub open spec fn spec_decodable(b: Seq<u8>) -> bool {
        let n = spec_u64_from_le_bytes(b.subrange(48, 56)) as int;
        let items_end = 56 + 8 * n;
        let k = spec_u64_from_le_bytes(b.subrange(items_end, items_end + 8)) as int;
        &&& b.len() >= 64
        &&& spec_u64_from_le_bytes(b.subrange(8, 16)) <= spec_u64_from_le_bytes(
            b.subrange(16, 24),
        )
        &&& n <= (b.len() - 64) / 8
        &&& k <= (b.len() - items_end - 8) / 4
        &&& b.len() == items_end + 8 + 4 * k
        &&& strictly_increasing_u32s(
            spec_dec_u32s(b.subrange(items_end + 8, b.len() as int), k as nat).unwrap(),
        )
    }

    /// Deserializes a record, strictly: decoding succeeds exactly on the
    /// decodable buffers, and whatever decodes is well formed and re-encodes
    /// to the same bytes, so the format admits no ambiguity.
    #[verifier::rlimit(100)]
    pub fn decode(b: &[u8]) -> (r: Option<SlotMeta>)
        ensures
            r is Some <==> Self::spec_decodable(b@),
            r matches Some(m) ==> m.wf() && m.spec_encode() == b@,
    {
        let blen: usize = b.len();
        if blen < 64 {
            return None;
        }
        let slot: u64 = get_u64(b, 0);
        let consumed: u64 = get_u64(b, 8);
        let received: u64 = get_u64(b, 16);
        let first_shred_timestamp: u64 = get_u64(b, 24);
        let last_word: u64 = get_u64(b, 32);
        let parent_word: u64 = get_u64(b, 40);
        if consumed > received {
            return None;
        }
        let n_word: u64 = get_u64(b, 48);
        if n_word > ((blen - 64) / 8) as u64 {
            return None;
        }
        let n: usize = n_word as usize;
        let items_end: usize = 56 + 8 * n;
        let next_chunk: Vec<u8> = copy_range(b, 56, 8 * n);
        let next_slots: Option<Vec<u64>> = get_u64s(next_chunk.as_slice(), 0, n_word);
        let k_word: u64 = get_u64(b, items_end);
        if k_word > ((blen - items_end - 8) / 4) as u64 {
            return None;
        }
        let k: usize = k_word as usize;
        if blen != items_end + 8 + 4 * k {
            return None;
        }
        let done_chunk: Vec<u8> = copy_range(b, items_end + 8, 4 * k);
        let completed: Option<Vec<u32>> = get_u32s(done_chunk.as_slice(), 0, k_word);
        proof {
            crate::codec::lemma_dec_defined_u64s(next_chunk@.skip(0), n_word as nat);
            crate::codec::lemma_dec_defined_u32s(done_chunk@.skip(0), k_word as nat);
            assert(next_chunk@.skip(0) =~= b@.subrange(56, items_end as int));
            assert(done_chunk@.skip(0) =~= b@.subrange(items_end + 8, blen as int));
        }
        match (next_slots, completed) {
            (Some(next_slots), Some(completed_data_indexes)) => {
                if !check_strictly_increasing_u32s(&completed_data_indexes) {
                    return None;
                }
                let m = SlotMeta {
                    slot,
                    consumed,
                    received,
                    first_shred_timestamp,
                    last_index: if last_word == u64::MAX {
                        None
                    } else {
                        Some(last_word)
                    },
                    parent_slot: if parent_word == u64::MAX {
                        None
                    } else {
                        Some(parent_word)
                    },
                    next_slots,
                    completed_data_indexes,
                };
                proof {
                    vstd::bytes::lemma_auto_spec_u64_to_from_le_bytes();
                    crate::codec::lemma_enc_dec_u64s(next_chunk@.skip(0), n_word as nat);
                    crate::codec::lemma_enc_dec_u32s(done_chunk@.skip(0), k_word as nat);
                    assert(m.spec_encode() =~= b@);
                    assert(Self::spec_decodable(b@));
                }
                Some(m)
            },
            _ => {
                proof {
                    assert(false);
                }
                None
            },
        }
    }

    /// Every encoding of a well-formed record is decodable (the counts must
    /// fit their 64-bit length words); with the decode contract and
    /// injectivity this makes the pair a bijection on well-formed records.
    pub proof fn lemma_encode_decodable(m: SlotMeta)
        requires
            m.wf(),
            m.next_slots@.len() <= u64::MAX,
            m.completed_data_indexes@.len() <= u64::MAX,
        ensures
            Self::spec_decodable(m.spec_encode()),
    {
        vstd::bytes::lemma_auto_spec_u64_to_from_le_bytes();
        crate::codec::lemma_enc_u64s_len(m.next_slots@);
        crate::codec::lemma_enc_u32s_len(m.completed_data_indexes@);
        let b = m.spec_encode();
        let n: int = m.next_slots@.len() as int;
        let k: int = m.completed_data_indexes@.len() as int;
        let items_end: int = 56 + 8 * n;
        assert(b.len() == 64 + 8 * n + 4 * k);
        assert(b.subrange(8, 16) =~= spec_u64_to_le_bytes(m.consumed));
        assert(b.subrange(16, 24) =~= spec_u64_to_le_bytes(m.received));
        assert(b.subrange(48, 56) =~= spec_u64_to_le_bytes(n as u64));
        assert(b.subrange(items_end, items_end + 8) =~= spec_u64_to_le_bytes(k as u64));
        assert((8 * n + 4 * k) / 8 >= n && (4 * k) / 4 == k) by (nonlinear_arith)
            requires
                n >= 0,
                k >= 0,
        ;
        assert(b.subrange(items_end + 8, b.len() as int) =~= spec_enc_u32s(
            m.completed_data_indexes@,
        ));
        crate::codec::lemma_dec_enc_u32s(m.completed_data_indexes@);
    }

    /// Two records with the same encoding agree on every field: the format
    /// admits no ambiguity.
    pub proof fn lemma_encode_injective(m1: SlotMeta, m2: SlotMeta)
        requires
            m1.spec_encode() == m2.spec_encode(),
            m1.next_slots@.len() <= u64::MAX,
            m2.next_slots@.len() <= u64::MAX,
            m1.completed_data_indexes@.len() <= u64::MAX,
            m2.completed_data_indexes@.len() <= u64::MAX,
        ensures
            m1.slot == m2.slot,
            m1.consumed == m2.consumed,
            m1.received == m2.received,
            m1.first_shred_timestamp == m2.first_shred_timestamp,
            spec_opt_word(m1.last_index) == spec_opt_word(m2.last_index),
            spec_opt_word(m1.parent_slot) == spec_opt_word(m2.parent_slot),
            m1.next_slots@ == m2.next_slots@,
            m1.completed_data_indexes@ == m2.completed_data_indexes@,
    {
        vstd::bytes::lemma_auto_spec_u64_to_from_le_bytes();
        crate::codec::lemma_enc_u64s_len(m1.next_slots@);
        crate::codec::lemma_enc_u64s_len(m2.next_slots@);
        crate::codec::lemma_enc_u32s_len(m1.completed_data_indexes@);
        crate::codec::lemma_enc_u32s_len(m2.completed_data_indexes@);
        let b1 = m1.spec_encode();
        let b2 = m2.spec_encode();
        assert(b1.subrange(0, 8) =~= spec_u64_to_le_bytes(m1.slot));
        assert(b2.subrange(0, 8) =~= spec_u64_to_le_bytes(m2.slot));
        assert(b1.subrange(8, 16) =~= spec_u64_to_le_bytes(m1.consumed));
        assert(b2.subrange(8, 16) =~= spec_u64_to_le_bytes(m2.consumed));
        assert(b1.subrange(16, 24) =~= spec_u64_to_le_bytes(m1.received));
        assert(b2.subrange(16, 24) =~= spec_u64_to_le_bytes(m2.received));
        assert(b1.subrange(24, 32) =~= spec_u64_to_le_bytes(m1.first_shred_timestamp));
        assert(b2.subrange(24, 32) =~= spec_u64_to_le_bytes(m2.first_shred_timestamp));
        assert(b1.subrange(32, 40) =~= spec_u64_to_le_bytes(spec_opt_word(m1.last_index)));
        assert(b2.subrange(32, 40) =~= spec_u64_to_le_bytes(spec_opt_word(m2.last_index)));
        assert(b1.subrange(40, 48) =~= spec_u64_to_le_bytes(spec_opt_word(m1.parent_slot)));
        assert(b2.subrange(40, 48) =~= spec_u64_to_le_bytes(spec_opt_word(m2.parent_slot)));
        assert(b1.subrange(48, 56) =~= spec_u64_to_le_bytes(m1.next_slots@.len() as u64));
        assert(b2.subrange(48, 56) =~= spec_u64_to_le_bytes(m2.next_slots@.len() as u64));
        assert(m1.next_slots@.len() == m2.next_slots@.len());
        let ne: int = 56 + 8 * (m1.next_slots@.len() as int);
        assert(b1.subrange(56, ne) =~= spec_enc_u64s(m1.next_slots@));
        assert(b2.subrange(56, ne) =~= spec_enc_u64s(m2.next_slots@));
        crate::codec::lemma_dec_enc_u64s(m1.next_slots@);
        crate::codec::lemma_dec_enc_u64s(m2.next_slots@);
        assert(b1.subrange(ne + 8, ne + 8 + 4 * m1.completed_data_indexes@.len()) =~= spec_enc_u32s(
            m1.completed_data_indexes@,
        ));
        assert(b1.subrange(48, 56) == b2.subrange(48, 56));
        assert(b1.subrange(ne, ne + 8) =~= spec_u64_to_le_bytes(
            m1.completed_data_indexes@.len() as u64,
        ));
        assert(b2.subrange(ne, ne + 8) =~= spec_u64_to_le_bytes(
            m2.completed_data_indexes@.len() as u64,
        ));
        assert(m1.completed_data_indexes@.len() == m2.completed_data_indexes@.len());
        assert(b2.subrange(ne + 8, ne + 8 + 4 * m2.completed_data_indexes@.len()) =~= spec_enc_u32s(
            m2.completed_data_indexes@,
        ));
        crate::codec::lemma_dec_enc_u32s(m1.completed_data_indexes@);
        crate::codec::lemma_dec_enc_u32s(m2.completed_data_indexes@);
    }
}

/// Presence set of the data or coding shreds stored for one slot, kept
/// strictly ascending so that gaps are visible.
#[derive(Debug, PartialEq, Eq)]
pub struct ShredIndex {
    /// The stored shred indices, ascending.
    pub index: Vec<u64>,
}

impl ShredIndex {
    /// The set stays strictly ascending.
    pub open spec fn wf(self) -> bool {
        strictly_increasing_u64s(self.index@)
    }

    /// An empty presence set.
    pub fn new() -> (r: ShredIndex)
        ensures
            r.wf(),
            r.index@.len() == 0,
    {
        ShredIndex { index: Vec::new() }
    }

    /// Whether `idx` has been stored.
    pub fn contains(&self, idx: u64) -> (r: bool)
        ensures
            r <==> self.index@.contains(idx),
    {
        let mut i: usize = 0;
        while i < self.index.len()
            invariant
                i <= self.index@.len(),
                forall|j: int| 0 <= j < i ==> self.index@[j] != idx,
            decreases self.index@.len() - i,
        {
            if self.index[i] == idx {
                return true;
            }
            i = i + 1;
        }
        false
    }

    /// Marks `idx` as stored, keeping the set strictly ascending; storing a
    /// shred twice changes nothing.
    pub fn insert(&mut self, idx: u64)
        requires
            old(self).wf(),
        ensures
            final(self).wf(),
            final(self).index@.contains(idx),
            forall|x: u64|
                #[trigger] final(self).index@.contains(x) <==> (old(self).index@.contains(x) || x
                    == idx),
    {
        let mut p: usize = 0;
        while p < self.index.len() && self.index[p] < idx
            invariant
                p <= self.index@.len(),
                old(self).wf(),
                *self == *old(self),
                forall|j: int| 0 <= j < p ==> #[trigger] self.index@[j] < idx,
            decreases self.index@.len() - p,
        {
            p = p + 1;
        }
        if p < self.index.len() && self.index[p] == idx {
            proof {
                assert(final(self).index@.contains(idx));
            }
            return;
        }
        let ghost before: Seq<u64> = self.index@;
        self.index.insert(p, idx);
        proof {
            lemma_sorted_within(before, p as int);
            assert forall|j: int|
                0 <= j < self.index@.len() - 1 implies #[trigger] self.index@[j] < self.index@[j
                + 1] by {
                if j < p - 1 {
                    assert(self.index@[j] == before[j] && self.index@[j + 1] == before[j + 1]);
                } else if j == p - 1 {
                    assert(self.index@[j] == before[j] && self.index@[j + 1] == idx);
                } else if j == p {
                    assert(self.index@[j] == idx && self.index@[j + 1] == before[j]);
                } else {
                    assert(self.index@[j] == before[j - 1] && self.index@[j + 1] == before[j]);
                }
            }
            assert forall|x: u64|
                #[trigger] self.index@.contains(x) implies (before.contains(x) || x == idx) by {
                let w = choose|w: int| 0 <= w < self.index@.len() && self.index@[w] == x;
                if w < p {
                    assert(before[w] == x);
                } else if w > p {
                    assert(before[w - 1] == x);
                }
            }
            assert forall|x: u64|
                before.contains(x) || x == idx implies #[trigger] self.index@.contains(x) by {
                if x == idx {
                    assert(self.index@[p as int] == idx);
                } else {
                    let w = choose|w: int| 0 <= w < before.len() && before[w] == x;
                    if w < p {
                        assert(self.index@[w] == x);
                    } else {
                        assert(self.index@[w + 1] == x);
                    }
                }
            }
        }
    }
}

/// In a strictly ascending sequence, everything from position `p` on is at
/// least the entry at `p`, so a value below every earlier entry and at most
/// the entry at `p` slots in exactly there.
proof fn lemma_sorted_within(s: Seq<u64>, p: int)
    requires
        strictly_increasing_u64s(s),
        0 <= p <= s.len(),
    ensures
        forall|j: int| p <= j < s.len() ==> #[trigger] s[p] <= s[j],
    decreases s.len() - p,
{
    if p < s.len() - 1 {
        lemma_sorted_within(s, p + 1);
        assert(s[p] < s[p + 1]);
        assert(forall|j: int| p + 1 <= j < s.len() ==> s[p + 1] <= #[trigger] s[j]);
    }
}

/// Per-slot presence record: the data and coding shred sets together.
#[derive(Debug, PartialEq, Eq)]
pub struct Index {
    pub slot: u64,
    pub data: ShredIndex,
    pub coding: ShredIndex,
}

impl Index {
    /// Both sets stay strictly ascending.
    pub open spec fn wf(self) -> bool {
        self.data.wf() && self.coding.wf()
    }

    /// An empty record for `slot`.
    pub fn new(slot: u64) -> (r: Index)
        ensures
            r.wf(),
            r.slot == slot,
            r.data.index@.len() == 0,
            r.coding.index@.len() == 0,
    {
        Index { slot, data: ShredIndex::new(), coding: ShredIndex::new() }
    }
}

/// A frozen bank hash and whether the slot was confirmed duplicate-free.
#[derive(Debug, PartialEq, Eq)]
pub struct FrozenHashStatus {
    pub frozen_hash: HashValue,
    pub is_duplicate_confirmed: bool,
}

/// Versioned wrapper around the frozen bank hash record.
#[derive(Debug, PartialEq, Eq)]
pub enum FrozenHashVersioned {
    Current(FrozenHashStatus),
}

/// Hash and wall-clock stamp of an optimistically confirmed slot.
#[derive(Debug, PartialEq, Eq)]
pub struct OptimisticSlotMetaV0 {
    pub hash: HashValue,
    pub timestamp: i64,
}

/// Versioned wrapper around the optimistic-confirmation record.
#[derive(Debug, PartialEq, Eq)]
pub enum OptimisticSlotMetaVersioned {
    V0(OptimisticSlotMetaV0),
}

} // verus!
