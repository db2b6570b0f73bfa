//! Per-slot observability counters in a bounded, recency-evicting cache.
//!
//! Purely observational: eviction loses history, never correctness.  The
//! cache itself comes from an outside crate and is held behind named
//! contents; the contracts say which entries survive an insertion, not which
//! one eviction removes, since that depends on the access order.

use lru::LruCache;
use std::collections::hash_map::RandomState;
use std::collections::HashMap;
use std::num::NonZeroUsize;
use vstd::prelude::*;

verus! {

/// The bounded cache type of the outside crate, declared so that values of
/// it can be carried through; its contents are reasoned about only through
/// `lru_contents` and `lru_bound`.
#[verifier::external_type_specification]
#[verifier::external_body]
#[verifier::reject_recursive_types(K)]
#[verifier::reject_recursive_types(V)]
#[verifier::reject_recursive_types(S)]
pub struct ExLruCache<K, V, S>(LruCache<K, V, S>);

/// Flag bit: the slot was marked dead.
pub const SLOT_FLAG_DEAD: u8 = 0x01;

/// Flag bit: the slot received its full shred range.
pub const SLOT_FLAG_FULL: u8 = 0x02;

/// Flag bit: the slot was rooted.
pub const SLOT_FLAG_ROOTED: u8 = 0x04;

/// Per-slot state flags, a small bit set.
#[derive(Clone, Copy, Debug, PartialEq, Eq, Structural)]
pub struct SlotFlags {
    pub bits: u8,
}

impl SlotFlags {
    /// No flags set.
    pub fn empty() -> (r: SlotFlags)
        ensures
            r.bits == 0,
    {
        SlotFlags { bits: 0 }
    }

    /// Whether every bit of `flag` is set.
    pub fn contains(&self, flag: u8) -> (r: bool)
        ensures
            r <==> self.bits & flag == flag,
    {
        self.bits & flag == flag
    }

    /// Sets the bits of `flag`.
    pub fn insert(&mut self, flag: u8)
        ensures
            final(self).bits == old(self).bits | flag,
    {
        self.bits = self.bits | flag;
    }
}

/// Observability counters for one slot.
#[derive(Debug)]
pub struct SlotStats {
    /// Shreds received over turbine, counted per erasure set.
    pub turbine_fec_set_index_counts: HashMap<u32, u64>,
    pub num_repaired: u64,
    pub num_recovered: u64,
    pub last_index: u64,
    pub flags: SlotFlags,
}

impl SlotStats {
    /// Fresh counters: nothing seen yet.
    pub fn new() -> (r: SlotStats)
        ensures
            r.turbine_fec_set_index_counts@ == Map::<u32, u64>::empty(),
            r.num_repaired == 0,
            r.num_recovered == 0,
            r.last_index == 0,
            r.flags.bits == 0,
    {
        SlotStats {
            turbine_fec_set_index_counts: HashMap::new(),
            num_repaired: 0,
            num_recovered: 0,
            last_index: 0,
            flags: SlotFlags { bits: 0 },
        }
    }
}

/// Entries the cache currently holds, keyed by slot.
pub uninterp spec fn lru_contents(c: LruCache<u64, SlotStats, RandomState>) -> Map<u64, SlotStats>;

/// The bound the cache was created with.
pub uninterp spec fn lru_bound(c: LruCache<u64, SlotStats, RandomState>) -> nat;

/// Whether the cache holds nothing.
pub open spec fn lru_is_empty(c: LruCache<u64, SlotStats, RandomState>) -> bool {
    lru_contents(c) == Map::<u64, SlotStats>::empty()
}

/// Relies on lru::LruCache::new: an empty cache holding at most `cap`
/// entries.
#[verifier::external_body]
fn lru_new(cap: usize) -> (r: LruCache<u64, SlotStats, RandomState>)
    requires
        cap >= 1,
    ensures
        lru_is_empty(r),
        lru_bound(r) == cap,
{
    LruCache::with_hasher(NonZeroUsize::new(cap).unwrap(), RandomState::new())
}

/// Relies on lru::LruCache::put: the key now maps to the value; when a new
/// key overflows the bound the least-recently-used entry leaves, so the
/// surviving keys are among the old ones plus the new key, unchanged in
/// value, within the bound.
#[verifier::external_body]
fn lru_put(c: &mut LruCache<u64, SlotStats, RandomState>, k: u64, v: SlotStats)
    ensures
        lru_bound(*final(c)) == lru_bound(*old(c)),
        lru_contents(*final(c)).contains_pair(k, v),
        lru_contents(*final(c)).dom().subset_of(lru_contents(*old(c)).dom().insert(k)),
        lru_contents(*final(c)).len() <= lru_bound(*old(c)),
        forall|k2: u64|
            k2 != k && lru_contents(*final(c)).dom().contains(k2) ==> lru_contents(*final(c))[k2]
                == lru_contents(*old(c))[k2],
{
    c.put(k, v);
}

/// Relies on lru::LruCache::get: returns the entry under the key, touching
/// recency only, never the mapping.
#[verifier::external_body]
fn lru_get<'a>(c: &'a mut LruCache<u64, SlotStats, RandomState>, k: u64) -> (r: Option<&'a SlotStats>)
    ensures
        lru_contents(*final(c)) == lru_contents(*old(c)),
        lru_bound(*final(c)) == lru_bound(*old(c)),
        r is Some <==> lru_contents(*old(c)).dom().contains(k),
        r matches Some(v) ==> *v == lru_contents(*old(c))[k],
{
    c.get(&k)
}

/// Relies on lru::LruCache::len: the number of entries held.
#[verifier::external_body]
fn lru_len(c: &LruCache<u64, SlotStats, RandomState>) -> (r: usize)
    ensures
        r == lru_contents(*c).len(),
{
    c.len()
}

/// Bound of the per-slot statistics cache.
pub const SLOTS_STATS_CACHE_CAPACITY: usize = 300;

/// The bounded cache of per-slot counters.
pub struct SlotsStats {
    pub stats: LruCache<u64, SlotStats, RandomState>,
}

impl SlotsStats {
    /// Whether the cache keeps its creation bound.
    pub open spec fn wf(self) -> bool {
        lru_bound(self.stats) == SLOTS_STATS_CACHE_CAPACITY && lru_contents(self.stats).len()
            <= SLOTS_STATS_CACHE_CAPACITY
    }

    /// An empty cache at the fixed bound.
    pub fn new() -> (r: SlotsStats)
        ensures
            r.wf(),
            lru_contents(r.stats) == Map::<u64, SlotStats>::empty(),
    {
        let c: LruCache<u64, SlotStats, RandomState> = lru_new(SLOTS_STATS_CACHE_CAPACITY);
        proof {
            assert(lru_contents(c).dom() =~= Set::<u64>::empty());
        }
        SlotsStats { stats: c }
    }

    /// Records the counters of `slot`, evicting at most the stalest other
    /// entry.
    pub fn insert(&mut self, slot: u64, stats: SlotStats)
        requires
            old(self).wf(),
        ensures
            final(self).wf(),
            lru_contents(final(self).stats).contains_pair(slot, stats),
            lru_contents(final(self).stats).dom().subset_of(
                lru_contents(old(self).stats).dom().insert(slot),
            ),
            forall|k2: u64|
                k2 != slot && lru_contents(final(self).stats).dom().contains(k2) ==> lru_contents(
                    final(self).stats,
                )[k2] == lru_contents(old(self).stats)[k2],
    {
        lru_put(&mut self.stats, slot, stats);
    }

    /// The counters recorded for `slot`, if still cached.
    pub fn get<'a>(&'a mut self, slot: u64) -> (r: Option<&'a SlotStats>)
        requires
            old(self).wf(),
        ensures
            final(self).wf(),
            lru_contents(final(self).stats) == lru_contents(old(self).stats),
            r is Some <==> lru_contents(old(self).stats).dom().contains(slot),
            r matches Some(v) ==> *v == lru_contents(old(self).stats)[slot],
    {
        lru_get(&mut self.stats, slot)
    }

    /// How many slots are currently tracked; never above the bound.
    pub fn len(&self) -> (r: usize)
        requires
            self.wf(),
        ensures
            r == lru_contents(self.stats).len(),
            r <= SLOTS_STATS_CACHE_CAPACITY,
    {
        lru_len(&self.stats)
    }
}

impl Default for SlotsStats {
    /// An empty cache at the fixed bound.
    fn default() -> (r: Self)
        ensures
            r.wf(),
            lru_contents(r.stats) == Map::<u64, SlotStats>::empty(),
    {
        SlotsStats::new()
    }
}

} // verus!
