use ledger_store::cli::{
    genesis_checks, leader_epoch_offset, Config, DefaultArgs, GenesisCheckError,
};
use ledger_store::hashing::{bytes_eq, HashValue};
use ledger_store::metrics::PerfSamplingStatus;
use ledger_store::slot_stats::{SlotFlags, SLOT_FLAG_DEAD, SLOT_FLAG_FULL};

#[test]
fn test_default_args_values() {
    let d = DefaultArgs::new();
    assert_eq!(d.bind_address, "0.0.0.0");
    assert_eq!(d.ledger_path, "ledger");
    assert_eq!(d.dynamic_port_range, "8000-10000");
}

#[test]
fn test_config_holds_signing_source() {
    let c = Config { keypair_path: "/tmp/id.json".to_string() };
    assert_eq!(c.keypair_path, "/tmp/id.json");
}

#[test]
fn test_leader_epoch_offset_rounds_up() {
    assert_eq!(leader_epoch_offset(0, 32), 0);
    assert_eq!(leader_epoch_offset(32, 32), 1);
    assert_eq!(leader_epoch_offset(33, 32), 2);
    assert_eq!(leader_epoch_offset(96, 32), 3);
}

#[test]
fn test_genesis_checks_compare_hashes() {
    let loaded = HashValue::from_bytes(vec![7; 32]);
    let same = Some(HashValue::from_bytes(vec![7; 32]));
    let other = Some(HashValue::from_bytes(vec![8; 32]));
    assert!(genesis_checks(64, 32, &loaded, &None).is_ok());
    assert!(genesis_checks(64, 32, &loaded, &same).is_ok());
    assert_eq!(
        genesis_checks(64, 32, &loaded, &other),
        Err(GenesisCheckError::GenesisHashMismatch)
    );
}

#[test]
fn test_bytes_eq_is_positional() {
    assert!(bytes_eq(&[1, 2, 3], &[1, 2, 3]));
    assert!(!bytes_eq(&[1, 2, 3], &[1, 2]));
    assert!(!bytes_eq(&[1, 2, 3], &[1, 2, 4]));
    assert!(bytes_eq(&[], &[]));
}

#[test]
fn test_perf_sampler_disabled_at_zero_interval() {
    let status = PerfSamplingStatus::new();
    for _ in 0..10 {
        assert!(!status.should_sample(0));
    }
}

#[test]
fn test_perf_sampler_counts_operations() {
    let status = PerfSamplingStatus::new();
    // the first operations are always refused until the count interval has
    // passed, whatever the clock says
    assert!(!status.should_sample(1000));
    assert!(!status.should_sample(1000));
}

#[test]
fn test_slot_flags_bits() {
    let mut flags = SlotFlags::empty();
    assert!(!flags.contains(SLOT_FLAG_DEAD));
    flags.insert(SLOT_FLAG_DEAD);
    assert!(flags.contains(SLOT_FLAG_DEAD));
    assert!(!flags.contains(SLOT_FLAG_FULL));
    flags.insert(SLOT_FLAG_FULL);
    assert!(flags.contains(SLOT_FLAG_DEAD));
    assert!(flags.contains(SLOT_FLAG_FULL));
}
