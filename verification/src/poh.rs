//! The proof-of-history sequencer.
//!
//! A `Poh` owns a hash chain and counts the self-hash iterations between the
//! entries it emits.  Ticks fire after exactly `hashes_per_tick` iterations
//! (a sentinel value selects low-power mode, where every tick fires), and
//! records weave outside events into the chain between ticks.  The ghost
//! field `entry_hashes_since_tick` carries the running total of `num_hashes`
//! over the entries of the current tick period; the contracts show that the
//! total over a full period is exactly `hashes_per_tick`.

use crate::hashing::{hash_chain, sha256_of, HashValue};
use crate::metrics::wallclock_ms;
use vstd::prelude::*;

verus! {

/// Sentinel for `hashes_per_tick` selecting low-power mode: no calibrated
/// hash budget, every tick fires immediately.
pub const LOW_POWER_MODE: u64 = u64::MAX;

/// The proof-of-history sequencer state.  Mutated only through `hash`,
/// `record` and `tick`, by a single owner.
pub struct Poh {
    /// Tip of the hash chain.
    pub hash: HashValue,
    /// Chain iterations since the last emitted entry.
    pub num_hashes: u64,
    /// Calibrated hash budget of one tick period, or `LOW_POWER_MODE`.
    pub hashes_per_tick: u64,
    /// Hashes left in the current period, the final tick hash included.
    pub remaining_hashes: u64,
    /// Ticks fired so far.
    pub tick_number: u64,
    /// Sum of `num_hashes` over the entries emitted since the last tick
    /// fired (ghost bookkeeping only).
    pub entry_hashes_since_tick: Ghost<u64>,
}

/// An entry of the proof: `num_hashes` chain iterations happened since the
/// previous entry, ending in `hash`.
#[derive(Debug, PartialEq, Eq)]
pub struct PohEntry {
    pub num_hashes: u64,
    pub hash: HashValue,
}

impl Poh {
    /// The sequencer invariant: a budget above one, at least one hash always
    /// remaining before the next tick, and the period's hashes fully
    /// accounted for between emitted entries, pending iterations and the
    /// remaining budget.
    pub open spec fn wf(self) -> bool {
        &&& self.hashes_per_tick > 1
        &&& 1 <= self.remaining_hashes
        &&& self.entry_hashes_since_tick@ + self.num_hashes + self.remaining_hashes
            == self.hashes_per_tick
        &&& self.hash@.len() == 32
    }

    /// Starts a sequencer at tick zero.  `hashes_per_tick` of `None` selects
    /// low-power mode; a calibrated budget must exceed one.
    pub fn new(hash: HashValue, hashes_per_tick: Option<u64>) -> (r: Poh)
        requires
            hash@.len() == 32,
            hashes_per_tick matches Some(h) ==> h > 1,
        ensures
            r.wf(),
            r.hash@ == hash@,
            r.hashes_per_tick == (match hashes_per_tick {
                Some(h) => h,
                None => LOW_POWER_MODE,
            }),
            r.remaining_hashes == r.hashes_per_tick,
            r.num_hashes == 0,
            r.tick_number == 0,
            r.entry_hashes_since_tick@ == 0,
    {
        Self::new_with_slot_info(hash, hashes_per_tick, 0)
    }

    /// Starts a sequencer that continues an existing slot at `tick_number`.
    pub fn new_with_slot_info(
        hash: HashValue,
        hashes_per_tick: Option<u64>,
        tick_number: u64,
    ) -> (r: Poh)
        requires
            hash@.len() == 32,
            hashes_per_tick matches Some(h) ==> h > 1,
        ensures
            r.wf(),
            r.hash@ == hash@,
            r.hashes_per_tick == (match hashes_per_tick {
                Some(h) => h,
                None => LOW_POWER_MODE,
            }),
            r.remaining_hashes == r.hashes_per_tick,
            r.num_hashes == 0,
            r.tick_number == tick_number,
            r.entry_hashes_since_tick@ == 0,
    {
        let hashes_per_tick: u64 = match hashes_per_tick {
            Some(h) => h,
            None => LOW_POWER_MODE,
        };
        Poh {
            hash,
            num_hashes: 0,
            hashes_per_tick,
            remaining_hashes: hashes_per_tick,
            tick_number,
            entry_hashes_since_tick: Ghost(0u64),
        }
    }

    /// Advances the chain by up to `max_num_hashes` self-hash steps, never
    /// consuming the final hash of the period.  Returns whether exactly one
    /// hash remains, i.e. whether the caller must `tick()` next.
    pub fn hash(&mut self, max_num_hashes: u64) -> (must_tick: bool)
        requires
            old(self).wf(),
        ensures
            final(self).wf(),
            ({
                let n = if old(self).remaining_hashes - 1 <= max_num_hashes {
                    old(self).remaining_hashes - 1
                } else {
                    max_num_hashes as int
                };
                &&& final(self).hash@ == hash_chain(old(self).hash@, n as nat)
                &&& final(self).num_hashes == old(self).num_hashes + n
                &&& final(self).remaining_hashes == old(self).remaining_hashes - n
            }),
            final(self).hashes_per_tick == old(self).hashes_per_tick,
            final(self).tick_number == old(self).tick_number,
            final(self).entry_hashes_since_tick == old(self).entry_hashes_since_tick,
            must_tick <==> final(self).remaining_hashes == 1,
    {
        let n: u64 = if self.remaining_hashes - 1 <= max_num_hashes {
            self.remaining_hashes - 1
        } else {
            max_num_hashes
        };
        let ghost start: Seq<u8> = self.hash@;
        let mut i: u64 = 0;
        while i < n
            invariant
                i <= n,
                self.hash@ == hash_chain(start, i as nat),
                self.hash@.len() == 32,
                self.num_hashes == old(self).num_hashes,
                self.remaining_hashes == old(self).remaining_hashes,
                self.hashes_per_tick == old(self).hashes_per_tick,
                self.tick_number == old(self).tick_number,
                self.entry_hashes_since_tick == old(self).entry_hashes_since_tick,
                old(self).wf(),
                n <= old(self).remaining_hashes - 1,
            decreases n - i,
        {
            self.hash = self.hash.chain_step();
            i = i + 1;
        }
        self.num_hashes = self.num_hashes + n;
        self.remaining_hashes = self.remaining_hashes - n;
        self.remaining_hashes == 1
    }

    /// Weaves `mixin` into the chain and emits the entry proving the
    /// iterations since the previous entry.  Returns nothing exactly when one
    /// hash remains, in which case the caller must `tick()` first and the
    /// state is unchanged.
    pub fn record(&mut self, mixin: &HashValue) -> (r: Option<PohEntry>)
        requires
            old(self).wf(),
        ensures
            final(self).wf(),
            r is None <==> old(self).remaining_hashes == 1,
            old(self).remaining_hashes == 1 ==> *final(self) == *old(self),
            old(self).remaining_hashes != 1 ==> {
                &&& final(self).hash@ == sha256_of(old(self).hash@ + mixin@)
                &&& (r matches Some(e) && e.num_hashes == old(self).num_hashes + 1 && e.hash@
                    == final(self).hash@)
                &&& final(self).num_hashes == 0
                &&& final(self).remaining_hashes == old(self).remaining_hashes - 1
                &&& final(self).entry_hashes_since_tick@ == old(self).entry_hashes_since_tick@
                    + old(self).num_hashes + 1
                &&& final(self).hashes_per_tick == old(self).hashes_per_tick
                &&& final(self).tick_number == old(self).tick_number
            },
    {
        if self.remaining_hashes == 1 {
            return None;  // the caller must tick first
        }
        self.hash = self.hash.chain_mix(mixin);
        let num_hashes: u64 = self.num_hashes + 1;
        self.num_hashes = 0;
        self.remaining_hashes = self.remaining_hashes - 1;
        self.entry_hashes_since_tick = Ghost(
            (self.entry_hashes_since_tick@ + num_hashes) as u64,
        );
        Some(PohEntry { num_hashes, hash: self.hash.clone_value() })
    }

    /// Performs the tick iteration.  In low-power mode every call fires; in
    /// calibrated mode the tick fires only when the period's budget is
    /// exhausted, and the entries of the closed period then account for
    /// exactly `hashes_per_tick` hashes.
    pub fn tick(&mut self) -> (r: Option<PohEntry>)
        requires
            old(self).wf(),
            (old(self).hashes_per_tick == LOW_POWER_MODE || old(self).remaining_hashes == 1)
                ==> old(self).tick_number < u64::MAX,
        ensures
            final(self).wf(),
            final(self).hash@ == sha256_of(old(self).hash@),
            final(self).hashes_per_tick == old(self).hashes_per_tick,
            ({
                let fired = old(self).hashes_per_tick == LOW_POWER_MODE || old(
                    self,
                ).remaining_hashes == 1;
                &&& (r is Some <==> fired)
                &&& !fired ==> {
                    &&& final(self).num_hashes == old(self).num_hashes + 1
                    &&& final(self).remaining_hashes == old(self).remaining_hashes - 1
                    &&& final(self).tick_number == old(self).tick_number
                    &&& final(self).entry_hashes_since_tick == old(self).entry_hashes_since_tick
                }
                &&& fired ==> {
                    &&& (r matches Some(e) && e.num_hashes == old(self).num_hashes + 1 && e.hash@
                        == final(self).hash@)
                    &&& final(self).remaining_hashes == final(self).hashes_per_tick
                    &&& final(self).num_hashes == 0
                    &&& final(self).tick_number == old(self).tick_number + 1
                    &&& final(self).entry_hashes_since_tick@ == 0
                }
                &&& (old(self).hashes_per_tick != LOW_POWER_MODE && fired) ==> old(
                    self,
                ).entry_hashes_since_tick@ + old(self).num_hashes + 1 == old(
                    self,
                ).hashes_per_tick
            }),
    {
        self.hash = self.hash.chain_step();
        self.num_hashes = self.num_hashes + 1;
        self.remaining_hashes = self.remaining_hashes - 1;

        // In low-power mode always generate a tick; otherwise only when the
        // period's budget is spent.
        if self.hashes_per_tick != LOW_POWER_MODE && self.remaining_hashes != 0 {
            return None;
        }

        let num_hashes: u64 = self.num_hashes;
        self.remaining_hashes = self.hashes_per_tick;
        self.num_hashes = 0;
        self.tick_number = self.tick_number + 1;
        self.entry_hashes_since_tick = Ghost(0u64);
        Some(PohEntry { num_hashes, hash: self.hash.clone_value() })
    }
}

/// Per-tick hash budget used when synthesizing pure tick entries: a
/// calibration of zero (the low-power genesis encoding) still advances the
/// chain once per tick.
pub open spec fn tick_hash_budget(hashes_per_tick: u64) -> u64 {
    if hashes_per_tick == 0 {
        1u64
    } else {
        hashes_per_tick
    }
}

/// Tip of the chain after `i + 1` synthesized ticks of `budget` hashes each,
/// starting from `start`.
pub open spec fn spec_tick_tip(start: Seq<u8>, budget: u64, i: nat) -> Seq<u8>
    decreases i,
{
    if i == 0 {
        hash_chain(start, budget as nat)
    } else {
        hash_chain(spec_tick_tip(start, budget, (i - 1) as nat), budget as nat)
    }
}

/// What it means for `r` to be the synthesized tick entries for slot zero:
/// one entry per tick, each carrying the per-tick budget and the chain tip
/// after that tick, all pinned to the starting hash and calibration alone.
pub open spec fn tick_entries_ok(
    r: Seq<PohEntry>,
    start: Seq<u8>,
    num_ticks: u64,
    hashes_per_tick: u64,
) -> bool {
    &&& r.len() == num_ticks
    &&& forall|i: int|
        0 <= i < num_ticks ==> (#[trigger] r[i].num_hashes) == tick_hash_budget(hashes_per_tick)
            && r[i].hash@ == spec_tick_tip(start, tick_hash_budget(hashes_per_tick), i as nat)
}

/// Synthesizes `num_ticks` pure tick entries chained from `start`, as used
/// to fill the genesis slot.  Every entry is pinned to the starting hash and
/// the calibration alone, so the result is reproducible by any verifier.
pub fn create_ticks(num_ticks: u64, hashes_per_tick: u64, start: &HashValue) -> (r: Vec<PohEntry>)
    requires
        start@.len() == 32,
    ensures
        tick_entries_ok(r@, start@, num_ticks, hashes_per_tick),
{
    let budget: u64 = if hashes_per_tick == 0 {
        1
    } else {
        hashes_per_tick
    };
    let mut entries: Vec<PohEntry> = Vec::new();
    let mut tip: HashValue = start.clone_value();
    let mut t: u64 = 0;
    while t < num_ticks
        invariant
            t <= num_ticks,
            budget == tick_hash_budget(hashes_per_tick),
            budget >= 1,
            tip@.len() == 32,
            entries@.len() == t,
            tip@ == (if t == 0 {
                start@
            } else {
                spec_tick_tip(start@, budget, (t - 1) as nat)
            }),
            forall|i: int|
                0 <= i < t ==> (#[trigger] entries@[i].num_hashes) == budget && entries@[i].hash@
                    == spec_tick_tip(start@, budget, i as nat),
        decreases num_ticks - t,
    {
        let ghost prev: Seq<u8> = tip@;
        let mut k: u64 = 0;
        while k < budget
            invariant
                k <= budget,
                tip@ == hash_chain(prev, k as nat),
                tip@.len() == 32,
            decreases budget - k,
        {
            tip = tip.chain_step();
            k = k + 1;
        }
        proof {
            assert(tip@ == spec_tick_tip(start@, budget, t as nat));
        }
        entries.push(PohEntry { num_hashes: budget, hash: tip.clone_value() });
        t = t + 1;
    }
    proof {
        assert forall|i: int|
            0 <= i < num_ticks implies (#[trigger] entries@[i].num_hashes) == tick_hash_budget(
            hashes_per_tick,
        ) && entries@[i].hash@ == spec_tick_tip(
            start@,
            tick_hash_budget(hashes_per_tick),
            i as nat,
        ) by {
            assert(0 <= i < t);
            assert(entries@[i].num_hashes == budget && entries@[i].hash@ == spec_tick_tip(
                start@,
                budget,
                i as nat,
            ));
        }
        assert(tick_entries_ok(entries@, start@, num_ticks, hashes_per_tick));
    }
    entries
}

/// Synthesizing the genesis ticks is deterministic: any two runs over the
/// same starting hash and calibration agree on every entry's hash count and
/// digest.  This is what makes recreating a ledger from the same genesis
/// reproduce identical slot-zero content.
pub proof fn lemma_create_ticks_deterministic(
    a: Seq<PohEntry>,
    b: Seq<PohEntry>,
    start: Seq<u8>,
    num_ticks: u64,
    hashes_per_tick: u64,
)
    requires
        tick_entries_ok(a, start, num_ticks, hashes_per_tick),
        tick_entries_ok(b, start, num_ticks, hashes_per_tick),
    ensures
        a.len() == b.len(),
        forall|i: int|
            0 <= i < num_ticks ==> (#[trigger] a[i].num_hashes) == b[i].num_hashes && a[i].hash@
                == b[i].hash@,
{
}

/// Times `hashes_sample_size` sequential chain steps and returns the elapsed
/// wall-clock milliseconds (zero if the clock moved backwards meanwhile).
pub fn compute_hash_time(hashes_sample_size: u64) -> u64 {
    let started: u64 = wallclock_ms();
    let mut v: Vec<u8> = Vec::new();
    let mut i: usize = 0;
    while i < 32
        invariant
            i <= 32,
            v@.len() == i,
        decreases 32 - i,
    {
        v.push(0u8);
        i = i + 1;
    }
    let mut h: HashValue = HashValue::from_bytes(v);
    let mut done: u64 = 0;
    while done < hashes_sample_size
        invariant
            h@.len() == 32,
        decreases hashes_sample_size - done,
    {
        h = h.chain_step();
        done = done + 1;
    }
    let ended: u64 = wallclock_ms();
    if ended >= started {
        ended - started
    } else {
        0
    }
}

/// How many hashes fit in `duration_ms`, scaling the sampled rate linearly.
/// A zero sample time counts as one millisecond, and the result saturates.
pub open spec fn spec_scaled_hashes(duration_ms: u64, hashes_sample_size: u64, elapsed_ms: u64) -> u64 {
    let d = if elapsed_ms == 0 {
        1
    } else {
        elapsed_ms as int
    };
    let q = (duration_ms * hashes_sample_size) / d;
    if q > u64::MAX {
        u64::MAX
    } else {
        q as u64
    }
}

/// Scales a measured hashing rate to a target tick duration.
pub fn hashes_for_duration(duration_ms: u64, hashes_sample_size: u64, elapsed_ms: u64) -> (r: u64)
    ensures
        r == spec_scaled_hashes(duration_ms, hashes_sample_size, elapsed_ms),
{
    let d: u64 = if elapsed_ms == 0 {
        1
    } else {
        elapsed_ms
    };
    proof {
        assert(duration_ms as int * hashes_sample_size as int <= 0xffff_ffff_ffff_ffff
            * 0xffff_ffff_ffff_ffff) by (nonlinear_arith)
            requires
                duration_ms <= 0xffff_ffff_ffff_ffffu64,
                hashes_sample_size <= 0xffff_ffff_ffff_ffffu64,
        ;
    }
    let q: u128 = (duration_ms as u128) * (hashes_sample_size as u128) / (d as u128);
    if q > u64::MAX as u128 {
        u64::MAX
    } else {
        q as u64
    }
}

/// Estimates the calibrated hash budget per tick on this machine: times a
/// sample of sequential hashes, then scales linearly to the target tick
/// duration.  The measured time depends on the clock, so the result is
/// pinned up to it: whatever came back, the answer is the exact linear
/// scaling of some sample time.
pub fn compute_hashes_per_tick(duration_ms: u64, hashes_sample_size: u64) -> (r: u64)
    ensures
        exists|elapsed_ms: u64|
            r == #[trigger] spec_scaled_hashes(duration_ms, hashes_sample_size, elapsed_ms),
{
    let elapsed_ms: u64 = compute_hash_time(hashes_sample_size);
    let r: u64 = hashes_for_duration(duration_ms, hashes_sample_size, elapsed_ms);
    proof {
        assert(r == spec_scaled_hashes(duration_ms, hashes_sample_size, elapsed_ms));
    }
    r
}

/// When a calibrated period is about to close (one hash remains), the
/// entries already emitted plus the closing tick entry account for exactly
/// `hashes_per_tick` hashes: the conservation behind the proof of elapsed
/// computation.
pub proof fn lemma_period_total(p: Poh)
    requires
        p.wf(),
        p.hashes_per_tick != LOW_POWER_MODE,
        p.remaining_hashes == 1,
    ensures
        p.entry_hashes_since_tick@ + p.num_hashes + 1 == p.hashes_per_tick,
{
}

} // verus!

