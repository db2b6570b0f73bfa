//! The ledger store façade: what an open computes and the state it carries.
//!
//! Opening is a scan followed by decisions: the last entry of the root
//! column gives the initial maximum root; the rotating transaction-index
//! records give the highest primary-indexed slot, or failing a nonzero one,
//! enable full slot-zero cleaning; legacy rows are scheduled for creation or
//! removal.  The scan results arrive here as plain values, the decisions are
//! exact, and the writes they call for are handed back as a plan, so a
//! read-only open provably schedules none.

use crate::columns::ColumnIndex;
use crate::hashing::HashValue;
use crate::meta::TransactionStatusIndexMeta;
use crate::options::AccessType;
use crate::poh::{create_ticks, tick_entries_ok, PohEntry};
use crate::retention::OldestSlot;
use crate::slot_stats::{lru_is_empty, SlotsStats};
use crossbeam_channel::Sender;
use vstd::prelude::*;

verus! {

/// The channel-sender type of the outside crate, declared so that the
/// façade can hold registered notification senders; sending goes through
/// the wrappers below.
#[verifier::external_type_specification]
#[verifier::external_body]
#[verifier::reject_recursive_types(T)]
pub struct ExSender<T>(Sender<T>);

/// Relies on crossbeam_channel::Sender::send: the message is delivered
/// unless every receiver is gone.  Whether it arrives depends on the
/// receiving side, so only the success flag is stated.
#[verifier::external_body]
fn send_shred_signal(sender: &Sender<bool>, signal: bool) -> (r: bool)
{
    sender.send(signal).is_ok()
}

/// Relies on crossbeam_channel::Sender::send: the message is delivered
/// unless every receiver is gone.  Whether it arrives depends on the
/// receiving side, so only the success flag is stated.
#[verifier::external_body]
fn send_completed_slots(sender: &Sender<Vec<u64>>, slots: Vec<u64>) -> (r: bool)
{
    sender.send(slots).is_ok()
}

/// A failure surfaced by the store: an engine or filesystem failure, or
/// stored bytes that do not match the schema.
#[derive(Debug, PartialEq, Eq)]
pub enum BlockstoreError {
    Io(String),
    Serialization(String),
}

/// The writes an open schedules to repair legacy state: creation of the two
/// rotating transaction-index records when absent, and removal of the
/// obsolete address-signatures sentinel row when present.
#[derive(Clone, Copy, Debug, PartialEq, Eq, Structural)]
pub struct CleanupPlan {
    pub put_default_index_0: bool,
    pub put_default_index_1: bool,
    pub delete_address_signatures_sentinel: bool,
}

/// The cleanup an open schedules: nothing at all without read-write access.
pub open spec fn spec_cleanup_plan(
    is_primary: bool,
    index_0_present: bool,
    index_1_present: bool,
    sentinel_present: bool,
) -> CleanupPlan {
    CleanupPlan {
        put_default_index_0: is_primary && !index_0_present,
        put_default_index_1: is_primary && !index_1_present,
        delete_address_signatures_sentinel: is_primary && sentinel_present,
    }
}

/// All rotating transaction-index records, decoded; nothing if any is
/// malformed.
pub open spec fn spec_decode_index_metas(raw: Seq<Seq<u8>>) -> Option<
    Seq<TransactionStatusIndexMeta>,
>
    decreases raw.len(),
{
    if raw.len() == 0 {
        Some(Seq::empty())
    } else {
        match (spec_decode_index_metas(raw.drop_last()), TransactionStatusIndexMeta::spec_decode(
            raw.last(),
        )) {
            (Some(s), Some(m)) => Some(s.push(m)),
            _ => None,
        }
    }
}

/// The largest `max_slot` among the records, if any records exist.
pub open spec fn spec_max_slot(metas: Seq<TransactionStatusIndexMeta>) -> Option<u64>
    decreases metas.len(),
{
    if metas.len() == 0 {
        None
    } else {
        match spec_max_slot(metas.drop_last()) {
            None => Some(metas.last().max_slot),
            Some(m) => Some(
                if metas.last().max_slot > m {
                    metas.last().max_slot
                } else {
                    m
                },
            ),
        }
    }
}

/// Everything an open derives from its scan of the database.
#[derive(Clone, Copy, Debug, PartialEq, Eq, Structural)]
pub struct OpenScan {
    /// The slot of the last root-column entry, or zero where none exists.
    pub max_root: u64,
    /// The larger of the two rotating buffers' `max_slot`, when nonzero.
    pub highest_primary_index_slot: Option<u64>,
    /// Whether no nonzero primary index was found, making the store
    /// eligible for full slot-zero cleaning.
    pub enable_clean_slot_0: bool,
    /// The legacy-state writes to perform.
    pub cleanup: CleanupPlan,
}

/// The open decisions over the raw scan results: nothing when a rotating
/// record is malformed, else the derived state and scheduled writes.
pub open spec fn spec_open_scan(
    access_type: AccessType,
    last_root: Option<u64>,
    index_raw: Seq<Seq<u8>>,
    index_0_present: bool,
    index_1_present: bool,
    sentinel_present: bool,
) -> Option<OpenScan> {
    match spec_decode_index_metas(index_raw) {
        None => None,
        Some(metas) => {
            let highest = spec_max_slot(metas);
            let populated = match highest {
                Some(s) => s != 0,
                None => false,
            };
            Some(
                OpenScan {
                    max_root: match last_root {
                        Some(s) => s,
                        None => 0,
                    },
                    highest_primary_index_slot: if populated {
                        highest
                    } else {
                        None
                    },
                    enable_clean_slot_0: !populated,
                    cleanup: spec_cleanup_plan(
                        access_type != AccessType::Secondary,
                        index_0_present,
                        index_1_present,
                        sentinel_present,
                    ),
                },
            )
        },
    }
}

/// The slot of the last root-column entry, or zero for an empty column.
pub fn max_root_from_last(last_root: Option<u64>) -> (r: u64)
    ensures
        r == (match last_root {
            Some(s) => s,
            None => 0u64,
        }),
{
    match last_root {
        Some(s) => s,
        None => 0,
    }
}

/// Performs the open decisions on the scan results handed in by the engine
/// driver: the raw rotating records in iteration order, whether each of the
/// two rotating rows existed, whether the obsolete sentinel row existed,
/// and the last root-column slot.  Fails exactly when a rotating record is
/// malformed.
pub fn open_scan(
    access_type: &AccessType,
    last_root: Option<u64>,
    index_raw: &Vec<Vec<u8>>,
    index_0_present: bool,
    index_1_present: bool,
    sentinel_present: bool,
) -> (r: Result<OpenScan, BlockstoreError>)
    ensures
        r matches Ok(p) ==> Some(p) == spec_open_scan(
            *access_type,
            last_root,
            index_raw.deep_view(),
            index_0_present,
            index_1_present,
            sentinel_present,
        ),
        r is Err <==> spec_open_scan(
            *access_type,
            last_root,
            index_raw.deep_view(),
            index_0_present,
            index_1_present,
            sentinel_present,
        ) is None,
{
    let mut metas: Vec<TransactionStatusIndexMeta> = Vec::new();
    let mut i: usize = 0;
    while i < index_raw.len()
        invariant
            i <= index_raw@.len(),
            Some(metas@) == spec_decode_index_metas(index_raw.deep_view().take(i as int)),
            metas@.len() == i,
        decreases index_raw@.len() - i,
    {
        proof {
            assert(index_raw.deep_view().take(i + 1).drop_last() =~= index_raw.deep_view().take(
                i as int,
            ));
            assert(index_raw.deep_view().take(i + 1).last() == index_raw@[i as int]@);
        }
        match TransactionStatusIndexMeta::decode(index_raw[i].as_slice()) {
            None => {
                proof {
                    lemma_decode_prefix_none(index_raw.deep_view(), i as int);
                }
                return Err(
                    BlockstoreError::Serialization(
                        "malformed transaction status index record".to_owned(),
                    ),
                );
            },
            Some(m) => {
                metas.push(m);
                proof {
                    assert(metas@ =~= metas@.drop_last().push(
                        metas@.last(),
                    ));
                }
            },
        }
        i = i + 1;
    }
    proof {
        assert(index_raw.deep_view().take(index_raw@.len() as int) =~= index_raw.deep_view());
    }
    let mut highest: Option<u64> = None;
    let mut j: usize = 0;
    while j < metas.len()
        invariant
            j <= metas@.len(),
            Some(metas@) == spec_decode_index_metas(index_raw.deep_view()),
            highest == spec_max_slot(metas@.take(j as int)),
            metas@.len() == index_raw@.len(),
        decreases metas@.len() - j,
    {
        proof {
            assert(metas@.take(j + 1).drop_last() =~= metas@.take(j as int));
            assert(metas@.take(j + 1).last() == metas@[j as int]);
        }
        let slot: u64 = metas[j].max_slot;
        highest = match highest {
            None => Some(slot),
            Some(m) => Some(
                if slot > m {
                    slot
                } else {
                    m
                },
            ),
        };
        j = j + 1;
    }
    proof {
        assert(metas@.take(metas@.len() as int) =~= metas@);
    }
    let populated: bool = match highest {
        Some(s) => s != 0,
        None => false,
    };
    let is_primary: bool = !matches!(access_type, AccessType::Secondary);
    Ok(
        OpenScan {
            max_root: max_root_from_last(last_root),
            highest_primary_index_slot: if populated {
                highest
            } else {
                None
            },
            enable_clean_slot_0: !populated,
            cleanup: CleanupPlan {
                put_default_index_0: is_primary && !index_0_present,
                put_default_index_1: is_primary && !index_1_present,
                delete_address_signatures_sentinel: is_primary && sentinel_present,
            },
        },
    )
}

/// A malformed record anywhere keeps the whole scan malformed.
proof fn lemma_decode_prefix_none(raw: Seq<Seq<u8>>, i: int)
    requires
        0 <= i < raw.len(),
        TransactionStatusIndexMeta::spec_decode(raw[i]) is None,
    ensures
        spec_decode_index_metas(raw) is None,
    decreases raw.len(),
{
    if raw.len() > 0 {
        if i == raw.len() - 1 {
        } else {
            lemma_decode_prefix_none(raw.drop_last(), i);
        }
    }
}

/// The verified state the façade carries: how the database was opened and
/// what the open derived, plus the shared retention cursor and the per-slot
/// statistics cache.
pub struct Blockstore {
    pub access_type: AccessType,
    /// The slot of the last root-column entry at open, or zero.
    pub max_root: u64,
    /// The larger rotating-buffer slot, when a nonzero one was found.
    pub highest_primary_index_slot: Option<u64>,
    /// Slots at or below this are being cleaned up; readers stay above it.
    pub lowest_cleanup_slot: u64,
    /// The retention cursor every compaction filter snapshots.
    pub oldest_slot: OldestSlot,
    /// Bounded per-slot observability counters.
    pub slots_stats: SlotsStats,
    /// Consumers to poke when new shreds arrive.  Registration is
    /// append-only and fan-out promises no backpressure handling.
    pub new_shreds_signals: Vec<Sender<bool>>,
    /// Consumers to hand freshly completed slots to.
    pub completed_slots_senders: Vec<Sender<Vec<u64>>>,
}

impl Blockstore {
    /// The statistics cache keeps its bound.
    pub open spec fn wf(self) -> bool {
        self.slots_stats.wf()
    }

    /// Builds the façade state from the open decisions.  The caller hands in
    /// the retention cursor the engine's compaction filters read, so the
    /// store's later cursor updates reach them; the scan's slot-zero
    /// cleaning decision is marked on it here.  Everything else starts
    /// fresh: no cleanup floor, no registered consumers, an empty
    /// statistics cache.
    pub fn assemble(access_type: AccessType, scan: &OpenScan, oldest_slot: OldestSlot) -> (r:
        Blockstore)
        ensures
            r.wf(),
            r.access_type == access_type,
            r.max_root == scan.max_root,
            r.highest_primary_index_slot == scan.highest_primary_index_slot,
            r.lowest_cleanup_slot == 0,
            r.new_shreds_signals@.len() == 0,
            r.completed_slots_senders@.len() == 0,
            lru_is_empty(r.slots_stats.stats),
    {
        if scan.enable_clean_slot_0 {
            oldest_slot.set_clean_slot_0(true);
        }
        Blockstore {
            access_type,
            max_root: scan.max_root,
            highest_primary_index_slot: scan.highest_primary_index_slot,
            lowest_cleanup_slot: 0,
            oldest_slot,
            slots_stats: SlotsStats::new(),
            new_shreds_signals: Vec::new(),
            completed_slots_senders: Vec::new(),
        }
    }

    /// Registers a consumer to be poked when new shreds arrive.
    pub fn add_new_shred_signal(&mut self, sender: Sender<bool>)
        requires
            old(self).wf(),
        ensures
            final(self).wf(),
            final(self).new_shreds_signals@.len() == old(self).new_shreds_signals@.len() + 1,
            final(self).completed_slots_senders@ == old(self).completed_slots_senders@,
    {
        self.new_shreds_signals.push(sender);
    }

    /// Registers a consumer of freshly completed slots.
    pub fn add_completed_slots_sender(&mut self, sender: Sender<Vec<u64>>)
        requires
            old(self).wf(),
        ensures
            final(self).wf(),
            final(self).completed_slots_senders@.len() == old(self).completed_slots_senders@.len()
                + 1,
            final(self).new_shreds_signals@ == old(self).new_shreds_signals@,
    {
        self.completed_slots_senders.push(sender);
    }

    /// Pokes every registered shred consumer.  Returns how many deliveries
    /// succeeded; a consumer whose receiver is gone is simply skipped.
    pub fn notify_new_shreds(&self) -> (delivered: usize)
        ensures
            delivered <= self.new_shreds_signals@.len(),
    {
        let mut delivered: usize = 0;
        let mut i: usize = 0;
        while i < self.new_shreds_signals.len()
            invariant
                i <= self.new_shreds_signals@.len(),
                delivered <= i,
            decreases self.new_shreds_signals@.len() - i,
        {
            if send_shred_signal(&self.new_shreds_signals[i], true) {
                delivered = delivered + 1;
            }
            i = i + 1;
        }
        delivered
    }

    /// Hands the completed slots to every registered consumer, each getting
    /// its own copy.  Returns how many deliveries succeeded.
    pub fn notify_completed_slots(&self, slots: &Vec<u64>) -> (delivered: usize)
        ensures
            delivered <= self.completed_slots_senders@.len(),
    {
        let mut delivered: usize = 0;
        let mut i: usize = 0;
        while i < self.completed_slots_senders.len()
            invariant
                i <= self.completed_slots_senders@.len(),
                delivered <= i,
            decreases self.completed_slots_senders@.len() - i,
        {
            let mut copy: Vec<u64> = Vec::new();
            let mut j: usize = 0;
            while j < slots.len()
                invariant
                    j <= slots@.len(),
                    copy@ == slots@.subrange(0, j as int),
                decreases slots@.len() - j,
            {
                copy.push(slots[j]);
                j = j + 1;
            }
            if send_completed_slots(&self.completed_slots_senders[i], copy) {
                delivered = delivered + 1;
            }
            i = i + 1;
        }
        delivered
    }

    /// Whether the store has read-write access.
    pub fn is_primary_access(&self) -> (r: bool)
        ensures
            r <==> (self.access_type == AccessType::Primary || self.access_type
                == AccessType::PrimaryForMaintenance),
    {
        matches!(self.access_type, AccessType::Primary | AccessType::PrimaryForMaintenance)
    }

    /// Replaces the cached highest primary-indexed slot.
    pub fn set_highest_primary_index_slot(&mut self, slot: Option<u64>)
        requires
            old(self).wf(),
        ensures
            final(self).wf(),
            final(self).highest_primary_index_slot == slot,
            final(self).access_type == old(self).access_type,
            final(self).max_root == old(self).max_root,
    {
        self.highest_primary_index_slot = slot;
    }
}

/// The obsolete sentinel row an open removes from the address-signatures
/// column when found: primary index two, all other components zero.
pub fn address_signatures_obsolete_sentinel() -> (r: ColumnIndex)
    ensures
        r.spec_slot() == 0,
        r matches ColumnIndex::PrimaryAddrSlotSig(p, _, _, _) && p == 2,
{
    crate::columns::address_signatures_sentinel(2)
}

/// Synthesizes the genesis slot: `ticks_per_slot` pure tick entries chained
/// from the genesis hash, and the resulting chain tip used to bootstrap
/// subsequent entry production.  Deterministic in its inputs, so recreating
/// a ledger from the same genesis reproduces identical content.
pub fn slot_zero_ticks(
    genesis_hash: &HashValue,
    ticks_per_slot: u64,
    hashes_per_tick: u64,
) -> (r: (Vec<PohEntry>, HashValue))
    requires
        genesis_hash@.len() == 32,
        ticks_per_slot >= 1,
    ensures
        tick_entries_ok(r.0@, genesis_hash@, ticks_per_slot, hashes_per_tick),
        r.1@ == r.0@.last().hash@,
{
    let entries: Vec<PohEntry> = create_ticks(ticks_per_slot, hashes_per_tick, genesis_hash);
    let tip: HashValue = entries[entries.len() - 1].hash.clone_value();
    (entries, tip)
}

/// A brand-new ledger directory scans empty: no root entry, no rotating
/// records, no sentinel.  The open then derives a zero maximum root, no
/// highest primary-indexed slot, and full slot-zero cleaning.
pub proof fn lemma_fresh_open(access_type: AccessType)
    ensures
        spec_open_scan(access_type, None, Seq::empty(), false, false, false) matches Some(p)
            && p.max_root == 0 && p.highest_primary_index_slot is None && p.enable_clean_slot_0,
{
    assert(spec_decode_index_metas(Seq::empty()) == Some(Seq::<TransactionStatusIndexMeta>::empty()));
}

/// A secondary-mode open never schedules a write: whatever the scan found,
/// the cleanup plan is empty.
pub proof fn lemma_secondary_never_writes(
    last_root: Option<u64>,
    index_raw: Seq<Seq<u8>>,
    index_0_present: bool,
    index_1_present: bool,
    sentinel_present: bool,
)
    ensures
        spec_open_scan(
            AccessType::Secondary,
            last_root,
            index_raw,
            index_0_present,
            index_1_present,
            sentinel_present,
        ) matches Some(p) ==> p.cleanup == (CleanupPlan {
            put_default_index_0: false,
            put_default_index_1: false,
            delete_address_signatures_sentinel: false,
        }),
{
}

} // verus!
