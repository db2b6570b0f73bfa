use ledger_store::hashing::HashValue;
use ledger_store::meta::TransactionStatusIndexMeta;
use ledger_store::columns::ColumnKind;
use ledger_store::options::{
    cf_descriptors, configure_compaction_plan, default_num_compaction_threads,
    default_num_flush_threads, get_cf_options, get_db_options, should_disable_auto_compactions,
    should_enable_cf_compaction, should_enable_compression, AccessType, BlockstoreOptions,
    CfConfig, CompressionType,
};
use ledger_store::retention::OldestSlot;
use ledger_store::slot_stats::{SlotStats, SlotsStats};
use ledger_store::store::{open_scan, slot_zero_ticks, Blockstore, BlockstoreError};

fn encoded(max_slot: u64, frozen: bool) -> Vec<u8> {
    TransactionStatusIndexMeta { max_slot, frozen }.encode()
}

// a brand-new, empty ledger opens with a zero maximum root, no highest
// primary-indexed slot, and becomes eligible for full slot-zero cleaning.
#[test]
fn test_fresh_open_scan() {
    let scan = open_scan(&AccessType::Primary, None, &vec![], false, false, false).unwrap();
    assert_eq!(scan.max_root, 0);
    assert_eq!(scan.highest_primary_index_slot, None);
    assert!(scan.enable_clean_slot_0);
    // both rotating records are scheduled for creation
    assert!(scan.cleanup.put_default_index_0);
    assert!(scan.cleanup.put_default_index_1);
    assert!(!scan.cleanup.delete_address_signatures_sentinel);

    let cursor = OldestSlot::new();
    let store = Blockstore::assemble(AccessType::Primary, &scan, cursor.clone_handle());
    assert_eq!(store.max_root, 0);
    assert_eq!(store.lowest_cleanup_slot, 0);
    assert!(store.is_primary_access());
    // the slot-zero cleaning decision reached the shared cursor
    assert!(cursor.get_clean_slot_0());
}

#[test]
fn test_open_scan_takes_last_root_and_highest_index() {
    let raw = vec![encoded(5, false), encoded(9, false)];
    let scan = open_scan(&AccessType::Primary, Some(123), &raw, true, true, true).unwrap();
    assert_eq!(scan.max_root, 123);
    assert_eq!(scan.highest_primary_index_slot, Some(9));
    assert!(!scan.enable_clean_slot_0);
    assert!(!scan.cleanup.put_default_index_0);
    assert!(scan.cleanup.delete_address_signatures_sentinel);
}

#[test]
fn test_open_scan_zero_indexes_enable_slot_zero_cleaning() {
    let raw = vec![encoded(0, false), encoded(0, true)];
    let scan = open_scan(&AccessType::Primary, None, &raw, true, true, false).unwrap();
    assert_eq!(scan.highest_primary_index_slot, None);
    assert!(scan.enable_clean_slot_0);
}

#[test]
fn test_open_scan_rejects_malformed_record() {
    let raw = vec![vec![1, 2, 3]];
    match open_scan(&AccessType::Primary, None, &raw, true, true, false) {
        Err(BlockstoreError::Serialization(_)) => {}
        other => panic!("expected a serialization failure, got {other:?}"),
    }
}

// a secondary-mode open schedules no writes at all.
#[test]
fn test_secondary_open_never_writes() {
    let raw = vec![encoded(9, false)];
    let scan = open_scan(&AccessType::Secondary, Some(4), &raw, false, false, true).unwrap();
    assert!(!scan.cleanup.put_default_index_0);
    assert!(!scan.cleanup.put_default_index_1);
    assert!(!scan.cleanup.delete_address_signatures_sentinel);
    let store = Blockstore::assemble(AccessType::Secondary, &scan, OldestSlot::new());
    assert!(!store.is_primary_access());
}

// an on-disk column family unknown to the schema still gets a descriptor,
// so it cannot prevent the open.
#[test]
fn test_unknown_column_gets_descriptor() {
    let options = BlockstoreOptions::default();
    let detected = vec![
        "meta".to_string(),
        "default".to_string(),
        "from_the_future".to_string(),
    ];
    let plans = cf_descriptors(&options, &detected);
    assert_eq!(plans.len(), 20);
    assert_eq!(plans[19].name, "from_the_future");
    assert_eq!(plans[19].config, CfConfig::Unknown);
    // every known column is covered by the first nineteen descriptors
    assert!(plans.iter().any(|p| p.name == "meta"));
}

#[test]
fn test_secondary_opens_known_columns_only() {
    let mut options = BlockstoreOptions::default();
    options.access_type = AccessType::Secondary;
    let detected = vec!["from_the_future".to_string()];
    let plans = cf_descriptors(&options, &detected);
    assert_eq!(plans.len(), 19);
}

#[test]
fn test_cf_options_select_filter_and_compression() {
    let mut options = BlockstoreOptions::default();
    options.column_options.compression_type = CompressionType::Lz4;
    let ts = get_cf_options(ColumnKind::TransactionStatus, &options);
    assert!(ts.attach_retention_filter);
    assert_eq!(ts.compression, CompressionType::Lz4);
    let meta = get_cf_options(ColumnKind::SlotMeta, &options);
    assert!(!meta.attach_retention_filter);
    assert_eq!(meta.compression, CompressionType::NoCompression);
    options.access_type = AccessType::PrimaryForMaintenance;
    let ts = get_cf_options(ColumnKind::TransactionStatus, &options);
    assert!(ts.disable_auto_compactions);
    assert!(!ts.attach_retention_filter);
}

#[test]
fn test_db_options_plan() {
    let options = BlockstoreOptions::default();
    let plan = get_db_options(&options);
    assert!(plan.create_if_missing);
    assert!(plan.create_missing_column_families);
    assert!(!plan.disable_auto_compactions);
    assert_eq!(plan.keep_log_file_num, 10);
    assert!(plan.unlimited_open_files);
}

#[test]
fn test_compaction_selection() {
    assert!(!should_disable_auto_compactions(&AccessType::Primary));
    assert!(should_disable_auto_compactions(&AccessType::PrimaryForMaintenance));
    assert!(should_disable_auto_compactions(&AccessType::Secondary));
    assert!(should_enable_cf_compaction("transaction_status"));
    assert!(should_enable_cf_compaction("transaction_memos"));
    assert!(should_enable_cf_compaction("address_signatures"));
    assert!(!should_enable_cf_compaction("meta"));
    assert!(should_enable_compression(ColumnKind::TransactionStatus));
    assert!(!should_enable_compression(ColumnKind::Root));
    let cols = configure_compaction_plan(&AccessType::Primary);
    assert_eq!(cols.len(), 3);
    assert!(configure_compaction_plan(&AccessType::Secondary).is_empty());
}

#[test]
fn test_default_thread_counts() {
    assert!(default_num_compaction_threads() >= 1);
    assert!(default_num_flush_threads() >= 1);
}

// recreating a ledger from the same genesis configuration reproduces
// identical slot-zero tick content and an identical chain tip.
#[test]
fn test_create_new_ledger_content_is_idempotent() {
    let genesis_hash = HashValue::from_bytes(vec![0x42; 32]);
    let (entries_a, tip_a) = slot_zero_ticks(&genesis_hash, 64, 12);
    let (entries_b, tip_b) = slot_zero_ticks(&genesis_hash, 64, 12);
    assert_eq!(entries_a, entries_b);
    assert_eq!(tip_a, tip_b);
    assert_eq!(entries_a.len(), 64);
    assert_eq!(tip_a, entries_a.last().unwrap().hash);
    // and a different genesis gives a different chain tip
    let other = HashValue::from_bytes(vec![0x43; 32]);
    let (_, tip_c) = slot_zero_ticks(&other, 64, 12);
    assert_ne!(tip_a, tip_c);
}

#[test]
fn test_slots_stats_cache_is_bounded() {
    let mut stats = SlotsStats::new();
    for slot in 0..400u64 {
        let mut s = SlotStats::new();
        s.last_index = slot;
        stats.insert(slot, s);
    }
    assert_eq!(stats.len(), 300);
    // the most recent entry survives
    let got = stats.get(399).expect("most recent slot is cached");
    assert_eq!(got.last_index, 399);
    // the stalest entries were evicted
    assert!(stats.get(0).is_none());
}

#[test]
fn test_notification_fan_out() {
    let scan = open_scan(&AccessType::Primary, None, &vec![], false, false, false).unwrap();
    let mut store = Blockstore::assemble(AccessType::Primary, &scan, OldestSlot::new());
    let (shred_tx, shred_rx) = crossbeam_channel::unbounded();
    let (slots_tx, slots_rx) = crossbeam_channel::unbounded();
    let (dropped_tx, dropped_rx) = crossbeam_channel::unbounded::<Vec<u64>>();
    drop(dropped_rx);
    store.add_new_shred_signal(shred_tx);
    store.add_completed_slots_sender(slots_tx);
    store.add_completed_slots_sender(dropped_tx);

    assert_eq!(store.notify_new_shreds(), 1);
    assert!(shred_rx.try_recv().unwrap());

    // one receiver is gone: its delivery is skipped, the other arrives
    let delivered = store.notify_completed_slots(&vec![3, 4]);
    assert_eq!(delivered, 1);
    assert_eq!(slots_rx.try_recv().unwrap(), vec![3, 4]);
}
