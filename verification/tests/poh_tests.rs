use ledger_store::hashing::HashValue;
use ledger_store::poh::{compute_hashes_per_tick, create_ticks, hashes_for_duration, Poh};

fn hv(bytes: [u8; 32]) -> HashValue {
    HashValue::from_bytes(bytes.to_vec())
}

fn sha(data: &[u8]) -> Vec<u8> {
    solana_sha256_hasher::hash(data).to_bytes().to_vec()
}

fn sha2(a: &[u8], b: &[u8]) -> Vec<u8> {
    solana_sha256_hasher::hashv(&[a, b]).to_bytes().to_vec()
}

#[test]
fn test_tick_chain_matches_reference_hasher() {
    let start = [7u8; 32];
    let mut poh = Poh::new(hv(start), None);
    let e1 = poh.tick().expect("low power mode always ticks");
    assert_eq!(e1.num_hashes, 1);
    assert_eq!(e1.hash.as_slice(), sha(&start).as_slice());
    let e2 = poh.tick().expect("low power mode always ticks");
    assert_eq!(e2.hash.as_slice(), sha(&sha(&start)).as_slice());
}

#[test]
fn test_record_mixes_reference_hasher() {
    let start = [1u8; 32];
    let mixin = [9u8; 32];
    let mut poh = Poh::new(hv(start), Some(10));
    let e = poh.record(&hv(mixin)).expect("budget is fresh");
    assert_eq!(e.num_hashes, 1);
    assert_eq!(e.hash.as_slice(), sha2(&start, &mixin).as_slice());
}

// record returns nothing exactly when one hash remains, and otherwise
// consumes exactly one hash of the budget.
#[test]
fn test_record_refused_only_at_final_hash() {
    let mixin = hv([3u8; 32]);
    let mut poh = Poh::new(hv([0u8; 32]), Some(3));
    let first = poh.record(&mixin);
    assert!(first.is_some());
    let second = poh.record(&mixin);
    assert!(second.is_some());
    // one hash remains: record must refuse until a tick happens
    assert!(poh.record(&mixin).is_none());
    assert!(poh.record(&mixin).is_none());
    assert!(poh.tick().is_some());
    assert!(poh.record(&mixin).is_some());
}

// summing num_hashes across the entries between two tick firings gives
// exactly hashes_per_tick.
#[test]
fn test_entry_hashes_sum_to_hashes_per_tick() {
    let mixin = hv([5u8; 32]);
    let n = 7u64;
    let mut poh = Poh::new(hv([2u8; 32]), Some(n));
    let mut total = 0u64;
    poh.hash(2);
    let e = poh.record(&mixin).unwrap();
    assert_eq!(e.num_hashes, 3);
    total += e.num_hashes;
    poh.hash(1);
    let e = poh.record(&mixin).unwrap();
    assert_eq!(e.num_hashes, 2);
    total += e.num_hashes;
    let e = poh.record(&mixin).unwrap();
    total += e.num_hashes;
    // budget exhausted down to the mandatory tick hash
    assert!(poh.record(&mixin).is_none());
    let tick = poh.tick().unwrap();
    total += tick.num_hashes;
    assert_eq!(total, n);

    // a second full period closed by hash() then tick() accounts for n too
    let must_tick = poh.hash(u64::MAX);
    assert!(must_tick);
    let tick = poh.tick().unwrap();
    assert_eq!(tick.num_hashes, n);
}

// in low-power mode every tick call fires and the budget resets to the
// sentinel.
#[test]
fn test_low_power_every_tick_fires() {
    let mut poh = Poh::new(hv([4u8; 32]), None);
    for _ in 0..5 {
        let e = poh.tick().expect("low power mode always ticks");
        assert_eq!(e.num_hashes, 1);
    }
    // hash() then tick: the tick entry proves the preceding iterations too
    poh.hash(3);
    let e = poh.tick().unwrap();
    assert_eq!(e.num_hashes, 4);
}

#[test]
fn test_hash_stops_before_final_hash() {
    let mut poh = Poh::new(hv([8u8; 32]), Some(4));
    let must_tick = poh.hash(u64::MAX);
    assert!(must_tick, "hash consumed all but the final hash");
    // it held back the last hash: another call does nothing further
    let must_tick = poh.hash(u64::MAX);
    assert!(must_tick);
}

#[test]
fn test_create_ticks_chains_and_is_deterministic() {
    let genesis = hv([6u8; 32]);
    let a = create_ticks(4, 3, &genesis);
    let b = create_ticks(4, 3, &genesis);
    assert_eq!(a, b, "same genesis, same calibration, same content");
    assert_eq!(a.len(), 4);
    for e in &a {
        assert_eq!(e.num_hashes, 3);
    }
    // the first entry is three chained hashes from genesis
    let expect = sha(&sha(&sha(&[6u8; 32])));
    assert_eq!(a[0].hash.as_slice(), expect.as_slice());

    // low-power genesis encoding: zero budget still advances once per tick
    let c = create_ticks(2, 0, &genesis);
    assert_eq!(c[0].num_hashes, 1);
    assert_eq!(c[0].hash.as_slice(), sha(&[6u8; 32]).as_slice());
}

#[test]
fn test_hashes_for_duration_scales_linearly() {
    // 400 ms of target at 100 hashes per 10 ms gives 4000 hashes
    assert_eq!(hashes_for_duration(400, 100, 10), 4000);
    // a zero sample time counts as one millisecond
    assert_eq!(hashes_for_duration(400, 100, 0), 40000);
    // saturates instead of overflowing
    assert_eq!(hashes_for_duration(u64::MAX, u64::MAX, 1), u64::MAX);
}

#[test]
fn test_compute_hashes_per_tick_runs() {
    let estimate = compute_hashes_per_tick(10, 1000);
    assert!(estimate > 0);
}
