//! The slot-retention cursor and the compaction filter decision.
//!
//! An `OldestSlot` is a shared cursor: a slot threshold plus a flag saying
//! whether rows reporting slot zero may be cleaned.  Retention policy updates
//! it for the store's whole life, and every compaction pass snapshots it once
//! at filter creation, so one pass applies a single, consistent rule even as
//! the cursor advances.  Reads and writes are relaxed on purpose: compaction
//! re-runs periodically, so staleness is harmless.

use crate::columns::{slot_in_key, spec_slot_in_key, ColumnKind};
use std::sync::atomic::{AtomicBool, AtomicU64, Ordering};
use std::sync::Arc;
use vstd::prelude::*;

verus! {

/// Shared retention cursor.  All handles cloned from one cursor read and
/// write the same cells.
pub struct OldestSlot {
    slot: Arc<AtomicU64>,
    clean_slot_0: Arc<AtomicBool>,
}

impl OldestSlot {
    /// A fresh cursor: keep everything, preserve slot zero.
    pub fn new() -> OldestSlot {
        OldestSlot {
            slot: Arc::new(AtomicU64::new(0)),
            clean_slot_0: Arc::new(AtomicBool::new(false)),
        }
    }

    /// Another handle on the same shared cells.
    pub fn clone_handle(&self) -> OldestSlot {
        OldestSlot {
            slot: arc_clone_u64(&self.slot),
            clean_slot_0: arc_clone_bool(&self.clean_slot_0),
        }
    }

    /// Publishes a new threshold; the cursor only ever advances, but that is
    /// the calling policy's discipline, not checked here.
    pub fn set(&self, slot: u64) {
        self.slot.store(slot, Ordering::Relaxed);
    }

    /// The current threshold.  The value depends on concurrent updates, so
    /// nothing is promised of it; a compaction pass snapshots it once.
    pub fn get(&self) -> u64 {
        self.slot.load(Ordering::Relaxed)
    }

    /// Marks whether rows reporting slot zero may be cleaned.
    pub fn set_clean_slot_0(&self, clean_slot_0: bool) {
        self.clean_slot_0.store(clean_slot_0, Ordering::Relaxed);
    }

    /// Whether rows reporting slot zero may be cleaned.
    pub fn get_clean_slot_0(&self) -> bool {
        self.clean_slot_0.load(Ordering::Relaxed)
    }
}

/// Relies on Arc::clone: the returned handle shares the original allocation.
#[verifier::external_body]
fn arc_clone_u64(a: &Arc<AtomicU64>) -> (r: Arc<AtomicU64>)
{
    Arc::clone(a)
}

/// Relies on Arc::clone: the returned handle shares the original allocation.
#[verifier::external_body]
fn arc_clone_bool(a: &Arc<AtomicBool>) -> (r: Arc<AtomicBool>)
{
    Arc::clone(a)
}

/// The per-key verdict of a compaction filter.
#[derive(Clone, Copy, Debug, PartialEq, Eq, Structural)]
pub enum CompactionDecision {
    Keep,
    Remove,
}

/// The retention rule: a row survives when its slot has not fallen behind
/// the threshold, or when it reports slot zero and slot-zero cleaning has
/// not been enabled (legacy rows that predate slot-keyed layouts all report
/// slot zero).
pub open spec fn spec_should_keep(slot: u64, oldest_slot: u64, clean_slot_0: bool) -> bool {
    slot >= oldest_slot || (slot == 0 && !clean_slot_0)
}

/// One compaction pass's filter: the cursor snapshot taken when the pass
/// began.
pub struct PurgedSlotFilter {
    /// The oldest slot to keep; rows of earlier slots are removed.
    pub oldest_slot: u64,
    /// Whether to remove rows that report slot zero.
    pub clean_slot_0: bool,
}

impl PurgedSlotFilter {
    /// Decides one key, given the slot its column reads out of it.
    pub fn filter(&self, slot_in_key: u64) -> (r: CompactionDecision)
        ensures
            r == CompactionDecision::Keep <==> spec_should_keep(
                slot_in_key,
                self.oldest_slot,
                self.clean_slot_0,
            ),
    {
        if slot_in_key >= self.oldest_slot || (slot_in_key == 0 && !self.clean_slot_0) {
            CompactionDecision::Keep
        } else {
            CompactionDecision::Remove
        }
    }

    /// Decides one raw key of column `col`: reads the embedded slot at the
    /// column's layout offset, then applies the retention rule.  A key of
    /// the wrong width is left alone.
    pub fn filter_key(&self, col: ColumnKind, key: &[u8]) -> (r: CompactionDecision)
        ensures
            key@.len() == col.spec_key_len() ==> (r == CompactionDecision::Keep
                <==> spec_should_keep(
                spec_slot_in_key(col.spec_shape(), key@),
                self.oldest_slot,
                self.clean_slot_0,
            )),
            key@.len() != col.spec_key_len() ==> r == CompactionDecision::Keep,
    {
        match slot_in_key(col, key) {
            Some(slot) => self.filter(slot),
            None => CompactionDecision::Keep,
        }
    }
}

/// Creates the filters of successive compaction passes, each from a fresh
/// snapshot of the shared cursor.
pub struct PurgedSlotFilterFactory {
    pub oldest_slot: OldestSlot,
}

impl PurgedSlotFilterFactory {
    /// A factory reading the given shared cursor.
    pub fn new(oldest_slot: OldestSlot) -> PurgedSlotFilterFactory {
        PurgedSlotFilterFactory { oldest_slot }
    }

    /// Snapshots the cursor once; the returned filter applies that snapshot
    /// to every key of the pass, unaffected by later cursor updates.
    pub fn create(&self) -> PurgedSlotFilter {
        let copied_oldest_slot: u64 = self.oldest_slot.get();
        let copied_clean_slot_0: bool = self.oldest_slot.get_clean_slot_0();
        PurgedSlotFilter { oldest_slot: copied_oldest_slot, clean_slot_0: copied_clean_slot_0 }
    }
}

} // verus!
