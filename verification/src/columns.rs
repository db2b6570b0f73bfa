//! The schema: one entry per column family, with its stable on-disk name,
//! its logical index and its key layout.
//!
//! Key layouts embed every integer big-endian (see `keys`), so the engine's
//! lexicographic iteration visits slots in numeric order.  Three columns are
//! not keyed by slot first: transaction statuses and address signatures
//! carry a legacy rotating primary index in front, and transaction memos are
//! keyed by signature alone and report slot zero, which is why the retention
//! filter treats slot zero specially.

use crate::keys::{
    copy_range, lemma_be_order, lemma_pair_key_order, lex_less, push_all, spec_u64_be_bytes,
    spec_u64_from_be, u64_from_be_at, u64_to_be_bytes,
};
use vstd::prelude::*;

verus! {

/// The column families of the store.  The names are a schema contract;
/// unknown names found on disk are opened with minimal resources, and the
/// deprecated program-costs column is dropped when found.
#[derive(Clone, Copy, Debug, PartialEq, Eq, Structural)]
pub enum ColumnKind {
    SlotMeta,
    DeadSlots,
    ErasureMeta,
    Orphans,
    BankHash,
    Root,
    Index,
    ShredData,
    ShredCode,
    TransactionStatus,
    AddressSignatures,
    TransactionMemos,
    TransactionStatusIndex,
    Rewards,
    Blocktime,
    PerfSamples,
    BlockHeight,
    OptimisticSlots,
    MerkleRootMeta,
}

/// On-disk name of the column family no current software uses; it is
/// dropped at open when present.
pub const DEPRECATED_PROGRAM_COSTS_COLUMN_NAME: &'static str = "program_costs";

/// The five key layouts in use.
#[derive(Clone, Copy, Debug, PartialEq, Eq, Structural)]
pub enum KeyShape {
    /// Eight bytes: a slot.
    Slot,
    /// Sixteen bytes: a slot, then a shred or erasure-set index.
    SlotPair,
    /// Eighty bytes: a rotating primary index, a 64-byte signature, a slot.
    PrimarySigSlot,
    /// One hundred and twelve bytes: a rotating primary index, a 32-byte
    /// address, a slot, a 64-byte signature.
    PrimaryAddrSlotSig,
    /// Sixty-four bytes: a signature alone; such keys report slot zero.
    Sig,
}

/// A logical lookup key, the typed face of a raw column key.
#[derive(Debug, PartialEq, Eq)]
pub enum ColumnIndex {
    Slot(u64),
    SlotPair(u64, u64),
    PrimarySigSlot(u64, Vec<u8>, u64),
    PrimaryAddrSlotSig(u64, Vec<u8>, u64, Vec<u8>),
    Sig(Vec<u8>),
}

impl ColumnKind {
    /// The stable on-disk name.
    pub open spec fn spec_name(self) -> Seq<char> {
        match self {
            ColumnKind::SlotMeta => "meta"@,
            ColumnKind::DeadSlots => "dead_slots"@,
            ColumnKind::ErasureMeta => "erasure_meta"@,
            ColumnKind::Orphans => "orphans"@,
            ColumnKind::BankHash => "bank_hashes"@,
            ColumnKind::Root => "root"@,
            ColumnKind::Index => "index"@,
            ColumnKind::ShredData => "data_shred"@,
            ColumnKind::ShredCode => "code_shred"@,
            ColumnKind::TransactionStatus => "transaction_status"@,
            ColumnKind::AddressSignatures => "address_signatures"@,
            ColumnKind::TransactionMemos => "transaction_memos"@,
            ColumnKind::TransactionStatusIndex => "transaction_status_index"@,
            ColumnKind::Rewards => "rewards"@,
            ColumnKind::Blocktime => "blocktime"@,
            ColumnKind::PerfSamples => "perf_samples"@,
            ColumnKind::BlockHeight => "block_height"@,
            ColumnKind::OptimisticSlots => "optimistic_slots"@,
            ColumnKind::MerkleRootMeta => "merkle_root_meta"@,
        }
    }

    /// The stable on-disk name.
    pub fn name(self) -> (r: &'static str)
        ensures
            r@ == self.spec_name(),
    {
        match self {
            ColumnKind::SlotMeta => "meta",
            ColumnKind::DeadSlots => "dead_slots",
            ColumnKind::ErasureMeta => "erasure_meta",
            ColumnKind::Orphans => "orphans",
            ColumnKind::BankHash => "bank_hashes",
            ColumnKind::Root => "root",
            ColumnKind::Index => "index",
            ColumnKind::ShredData => "data_shred",
            ColumnKind::ShredCode => "code_shred",
            ColumnKind::TransactionStatus => "transaction_status",
            ColumnKind::AddressSignatures => "address_signatures",
            ColumnKind::TransactionMemos => "transaction_memos",
            ColumnKind::TransactionStatusIndex => "transaction_status_index",
            ColumnKind::Rewards => "rewards",
            ColumnKind::Blocktime => "blocktime",
            ColumnKind::PerfSamples => "perf_samples",
            ColumnKind::BlockHeight => "block_height",
            ColumnKind::OptimisticSlots => "optimistic_slots",
            ColumnKind::MerkleRootMeta => "merkle_root_meta",
        }
    }

    /// This column's key layout.
    pub open spec fn spec_shape(self) -> KeyShape {
        match self {
            ColumnKind::ErasureMeta => KeyShape::SlotPair,
            ColumnKind::ShredData => KeyShape::SlotPair,
            ColumnKind::ShredCode => KeyShape::SlotPair,
            ColumnKind::MerkleRootMeta => KeyShape::SlotPair,
            ColumnKind::TransactionStatus => KeyShape::PrimarySigSlot,
            ColumnKind::AddressSignatures => KeyShape::PrimaryAddrSlotSig,
            ColumnKind::TransactionMemos => KeyShape::Sig,
            _ => KeyShape::Slot,
        }
    }

    /// This column's key layout.
    pub fn shape(self) -> (r: KeyShape)
        ensures
            r == self.spec_shape(),
    {
        match self {
            ColumnKind::ErasureMeta => KeyShape::SlotPair,
            ColumnKind::ShredData => KeyShape::SlotPair,
            ColumnKind::ShredCode => KeyShape::SlotPair,
            ColumnKind::MerkleRootMeta => KeyShape::SlotPair,
            ColumnKind::TransactionStatus => KeyShape::PrimarySigSlot,
            ColumnKind::AddressSignatures => KeyShape::PrimaryAddrSlotSig,
            ColumnKind::TransactionMemos => KeyShape::Sig,
            _ => KeyShape::Slot,
        }
    }

    /// Width in bytes of this column's keys.
    pub open spec fn spec_key_len(self) -> nat {
        match self.spec_shape() {
            KeyShape::Slot => 8,
            KeyShape::SlotPair => 16,
            KeyShape::PrimarySigSlot => 80,
            KeyShape::PrimaryAddrSlotSig => 112,
            KeyShape::Sig => 64,
        }
    }
}

/// All column families of the current schema.
pub fn columns() -> (r: Vec<ColumnKind>)
    ensures
        r@ =~= seq![
            ColumnKind::ErasureMeta,
            ColumnKind::DeadSlots,
            ColumnKind::Index,
            ColumnKind::Orphans,
            ColumnKind::BankHash,
            ColumnKind::Root,
            ColumnKind::SlotMeta,
            ColumnKind::ShredData,
            ColumnKind::ShredCode,
            ColumnKind::TransactionStatus,
            ColumnKind::AddressSignatures,
            ColumnKind::TransactionMemos,
            ColumnKind::TransactionStatusIndex,
            ColumnKind::Rewards,
            ColumnKind::Blocktime,
            ColumnKind::PerfSamples,
            ColumnKind::BlockHeight,
            ColumnKind::OptimisticSlots,
            ColumnKind::MerkleRootMeta,
        ],
{
    let mut r: Vec<ColumnKind> = Vec::new();
    r.push(ColumnKind::ErasureMeta);
    r.push(ColumnKind::DeadSlots);
    r.push(ColumnKind::Index);
    r.push(ColumnKind::Orphans);
    r.push(ColumnKind::BankHash);
    r.push(ColumnKind::Root);
    r.push(ColumnKind::SlotMeta);
    r.push(ColumnKind::ShredData);
    r.push(ColumnKind::ShredCode);
    r.push(ColumnKind::TransactionStatus);
    r.push(ColumnKind::AddressSignatures);
    r.push(ColumnKind::TransactionMemos);
    r.push(ColumnKind::TransactionStatusIndex);
    r.push(ColumnKind::Rewards);
    r.push(ColumnKind::Blocktime);
    r.push(ColumnKind::PerfSamples);
    r.push(ColumnKind::BlockHeight);
    r.push(ColumnKind::OptimisticSlots);
    r.push(ColumnKind::MerkleRootMeta);
    r
}

impl ColumnIndex {
    /// Whether this index has the shape and component widths of `col`'s
    /// keys.
    pub open spec fn ok_for(self, col: ColumnKind) -> bool {
        match self {
            ColumnIndex::Slot(_) => col.spec_shape() == KeyShape::Slot,
            ColumnIndex::SlotPair(_, _) => col.spec_shape() == KeyShape::SlotPair,
            ColumnIndex::PrimarySigSlot(_, sig, _) => col.spec_shape() == KeyShape::PrimarySigSlot
                && sig@.len() == 64,
            ColumnIndex::PrimaryAddrSlotSig(_, addr, _, sig) => col.spec_shape()
                == KeyShape::PrimaryAddrSlotSig && addr@.len() == 32 && sig@.len() == 64,
            ColumnIndex::Sig(sig) => col.spec_shape() == KeyShape::Sig && sig@.len() == 64,
        }
    }

    /// The raw key bytes this index encodes to.
    pub open spec fn spec_key(self) -> Seq<u8> {
        match self {
            ColumnIndex::Slot(s) => spec_u64_be_bytes(s),
            ColumnIndex::SlotPair(s, i) => spec_u64_be_bytes(s) + spec_u64_be_bytes(i),
            ColumnIndex::PrimarySigSlot(p, sig, s) => spec_u64_be_bytes(p) + sig@
                + spec_u64_be_bytes(s),
            ColumnIndex::PrimaryAddrSlotSig(p, addr, s, sig) => spec_u64_be_bytes(p) + addr@
                + spec_u64_be_bytes(s) + sig@,
            ColumnIndex::Sig(sig) => sig@,
        }
    }

    /// The slot embedded in this index; signature-only keys report zero.
    pub open spec fn spec_slot(self) -> u64 {
        match self {
            ColumnIndex::Slot(s) => s,
            ColumnIndex::SlotPair(s, _) => s,
            ColumnIndex::PrimarySigSlot(_, _, s) => s,
            ColumnIndex::PrimaryAddrSlotSig(_, _, s, _) => s,
            ColumnIndex::Sig(_) => 0,
        }
    }

    /// The slot embedded in this index; signature-only keys report zero.
    pub fn slot(&self) -> (r: u64)
        ensures
            r == self.spec_slot(),
    {
        match self {
            ColumnIndex::Slot(s) => *s,
            ColumnIndex::SlotPair(s, _) => *s,
            ColumnIndex::PrimarySigSlot(_, _, s) => *s,
            ColumnIndex::PrimaryAddrSlotSig(_, _, s, _) => *s,
            ColumnIndex::Sig(_) => 0,
        }
    }

    /// Encodes this index as raw key bytes.
    pub fn key(&self) -> (r: Vec<u8>)
        ensures
            r@ == self.spec_key(),
    {
        match self {
            ColumnIndex::Slot(s) => u64_to_be_bytes(*s),
            ColumnIndex::SlotPair(s, i) => {
                let mut out: Vec<u8> = u64_to_be_bytes(*s);
                let second: Vec<u8> = u64_to_be_bytes(*i);
                push_all(&mut out, second.as_slice());
                out
            },
            ColumnIndex::PrimarySigSlot(p, sig, s) => {
                let mut out: Vec<u8> = u64_to_be_bytes(*p);
                push_all(&mut out, sig.as_slice());
                let last: Vec<u8> = u64_to_be_bytes(*s);
                push_all(&mut out, last.as_slice());
                out
            },
            ColumnIndex::PrimaryAddrSlotSig(p, addr, s, sig) => {
                let mut out: Vec<u8> = u64_to_be_bytes(*p);
                push_all(&mut out, addr.as_slice());
                let mid: Vec<u8> = u64_to_be_bytes(*s);
                push_all(&mut out, mid.as_slice());
                push_all(&mut out, sig.as_slice());
                out
            },
            ColumnIndex::Sig(sig) => copy_range(sig.as_slice(), 0, sig.len()),
        }
    }
}

/// The slot a raw key of shape `shape` embeds, at the layout's offset.
pub open spec fn spec_slot_in_key(shape: KeyShape, key: Seq<u8>) -> u64 {
    match shape {
        KeyShape::Slot => spec_u64_from_be(key.subrange(0, 8)),
        KeyShape::SlotPair => spec_u64_from_be(key.subrange(0, 8)),
        KeyShape::PrimarySigSlot => spec_u64_from_be(key.subrange(72, 80)),
        KeyShape::PrimaryAddrSlotSig => spec_u64_from_be(key.subrange(40, 48)),
        KeyShape::Sig => 0,
    }
}

/// Reads the embedded slot straight out of a raw key, as the compaction
/// filter does.
pub fn slot_in_key(col: ColumnKind, key: &[u8]) -> (r: Option<u64>)
    ensures
        r is Some <==> key@.len() == col.spec_key_len(),
        r matches Some(s) ==> s == spec_slot_in_key(col.spec_shape(), key@),
{
    let shape = col.shape();
    match shape {
        KeyShape::Slot => {
            if key.len() == 8 {
                Some(u64_from_be_at(key, 0))
            } else {
                None
            }
        },
        KeyShape::SlotPair => {
            if key.len() == 16 {
                Some(u64_from_be_at(key, 0))
            } else {
                None
            }
        },
        KeyShape::PrimarySigSlot => {
            if key.len() == 80 {
                Some(u64_from_be_at(key, 72))
            } else {
                None
            }
        },
        KeyShape::PrimaryAddrSlotSig => {
            if key.len() == 112 {
                Some(u64_from_be_at(key, 40))
            } else {
                None
            }
        },
        KeyShape::Sig => {
            if key.len() == 64 {
                Some(0)
            } else {
                None
            }
        },
    }
}

/// Decodes a raw key of `col` back into its logical index.
pub fn index_of_key(col: ColumnKind, key: &[u8]) -> (r: Option<ColumnIndex>)
    ensures
        r is Some <==> key@.len() == col.spec_key_len(),
        r matches Some(idx) ==> idx.ok_for(col) && idx.spec_key() == key@ && idx.spec_slot()
            == spec_slot_in_key(col.spec_shape(), key@),
{
    let shape = col.shape();
    match shape {
        KeyShape::Slot => {
            if key.len() == 8 {
                let idx = ColumnIndex::Slot(u64_from_be_at(key, 0));
                proof {
                    crate::keys::lemma_be_complete(key@.subrange(0, 8));
                    assert(key@.subrange(0, 8) =~= key@);
                }
                Some(idx)
            } else {
                None
            }
        },
        KeyShape::SlotPair => {
            if key.len() == 16 {
                let idx = ColumnIndex::SlotPair(u64_from_be_at(key, 0), u64_from_be_at(key, 8));
                proof {
                    crate::keys::lemma_be_complete(key@.subrange(0, 8));
                    crate::keys::lemma_be_complete(key@.subrange(8, 16));
                    assert(key@.subrange(0, 8) + key@.subrange(8, 16) =~= key@);
                }
                Some(idx)
            } else {
                None
            }
        },
        KeyShape::PrimarySigSlot => {
            if key.len() == 80 {
                let idx = ColumnIndex::PrimarySigSlot(
                    u64_from_be_at(key, 0),
                    copy_range(key, 8, 64),
                    u64_from_be_at(key, 72),
                );
                proof {
                    crate::keys::lemma_be_complete(key@.subrange(0, 8));
                    crate::keys::lemma_be_complete(key@.subrange(72, 80));
                    assert(key@.subrange(0, 8) + key@.subrange(8, 72) + key@.subrange(72, 80)
                        =~= key@);
                }
                Some(idx)
            } else {
                None
            }
        },
        KeyShape::PrimaryAddrSlotSig => {
            if key.len() == 112 {
                let idx = ColumnIndex::PrimaryAddrSlotSig(
                    u64_from_be_at(key, 0),
                    copy_range(key, 8, 32),
                    u64_from_be_at(key, 40),
                    copy_range(key, 48, 64),
                );
                proof {
                    crate::keys::lemma_be_complete(key@.subrange(0, 8));
                    crate::keys::lemma_be_complete(key@.subrange(40, 48));
                    assert(key@.subrange(0, 8) + key@.subrange(8, 40) + key@.subrange(40, 48)
                        + key@.subrange(48, 112) =~= key@);
                }
                Some(idx)
            } else {
                None
            }
        },
        KeyShape::Sig => {
            if key.len() == 64 {
                let idx = ColumnIndex::Sig(copy_range(key, 0, 64));
                proof {
                    assert(key@.subrange(0, 64) =~= key@);
                }
                Some(idx)
            } else {
                None
            }
        },
    }
}

/// The byte encoding of slot keys preserves iteration order: the engine's
/// lexicographic key order visits slots in numeric order, which is what
/// makes ordered range scans by slot work.
pub proof fn lemma_slot_key_order(a: u64, b: u64)
    ensures
        lex_less(ColumnIndex::Slot(a).spec_key(), ColumnIndex::Slot(b).spec_key()) <==> a < b,
{
    lemma_be_order(a, b);
}

/// The byte encoding of composite keys preserves iteration order: shreds
/// iterate by slot first, then by index within the slot.
pub proof fn lemma_slot_pair_key_order(a_slot: u64, a_idx: u64, b_slot: u64, b_idx: u64)
    ensures
        lex_less(
            ColumnIndex::SlotPair(a_slot, a_idx).spec_key(),
            ColumnIndex::SlotPair(b_slot, b_idx).spec_key(),
        ) <==> (a_slot < b_slot || (a_slot == b_slot && a_idx < b_idx)),
{
    lemma_pair_key_order(a_slot, a_idx, b_slot, b_idx);
}

/// The sentinel index once used to mark the address-signatures column's
/// rotation state: primary index `n`, all other components zero.  The row
/// under primary index two is obsolete and removed at open.
pub fn address_signatures_sentinel(primary: u64) -> (r: ColumnIndex)
    ensures
        r.ok_for(ColumnKind::AddressSignatures),
        r.spec_slot() == 0,
        r matches ColumnIndex::PrimaryAddrSlotSig(p, addr, s, sig) && p == primary && s == 0
            && addr@ =~= Seq::new(32, |i: int| 0u8) && sig@ =~= Seq::new(64, |i: int| 0u8),
{
    let mut addr: Vec<u8> = Vec::new();
    let mut i: usize = 0;
    while i < 32
        invariant
            i <= 32,
            addr@ =~= Seq::new(i as nat, |j: int| 0u8),
        decreases 32 - i,
    {
        addr.push(0u8);
        i = i + 1;
    }
    let mut sig: Vec<u8> = Vec::new();
    let mut j: usize = 0;
    while j < 64
        invariant
            j <= 64,
            sig@ =~= Seq::new(j as nat, |k: int| 0u8),
        decreases 64 - j,
    {
        sig.push(0u8);
        j = j + 1;
    }
    ColumnIndex::PrimaryAddrSlotSig(primary, addr, 0, sig)
}

} // verus!
