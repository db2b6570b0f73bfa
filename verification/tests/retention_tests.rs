use ledger_store::columns::{ColumnIndex, ColumnKind};
use ledger_store::retention::{
    CompactionDecision, OldestSlot, PurgedSlotFilter, PurgedSlotFilterFactory,
};

// the retention rule at a cursor of one hundred: slots from the threshold
// on survive, earlier ones go, and slot zero survives exactly while
// slot-zero cleaning is off.
#[test]
fn test_filter_retention_boundaries() {
    let filter = PurgedSlotFilter { oldest_slot: 100, clean_slot_0: false };
    assert_eq!(filter.filter(99), CompactionDecision::Remove);
    assert_eq!(filter.filter(100), CompactionDecision::Keep);
    assert_eq!(filter.filter(101), CompactionDecision::Keep);
    assert_eq!(filter.filter(0), CompactionDecision::Keep);

    let cleaning = PurgedSlotFilter { oldest_slot: 100, clean_slot_0: true };
    assert_eq!(cleaning.filter(0), CompactionDecision::Remove);
    assert_eq!(cleaning.filter(100), CompactionDecision::Keep);
}

#[test]
fn test_cursor_reads_back_what_policy_wrote() {
    let cursor = OldestSlot::new();
    assert_eq!(cursor.get(), 0);
    assert!(!cursor.get_clean_slot_0());
    cursor.set(42);
    cursor.set_clean_slot_0(true);
    assert_eq!(cursor.get(), 42);
    assert!(cursor.get_clean_slot_0());
}

#[test]
fn test_cursor_handles_share_cells() {
    let cursor = OldestSlot::new();
    let handle = cursor.clone_handle();
    cursor.set(7);
    assert_eq!(handle.get(), 7);
    handle.set_clean_slot_0(true);
    assert!(cursor.get_clean_slot_0());
}

// each compaction pass snapshots the cursor once; later cursor advances do
// not change the pass's rule.
#[test]
fn test_factory_snapshots_cursor_at_creation() {
    let cursor = OldestSlot::new();
    cursor.set(50);
    let factory = PurgedSlotFilterFactory::new(cursor.clone_handle());
    let filter = factory.create();
    assert_eq!(filter.oldest_slot, 50);
    cursor.set(200);
    // the running pass still applies the snapshot
    assert_eq!(filter.filter(60), CompactionDecision::Keep);
    // the next pass sees the advanced cursor
    let next = factory.create();
    assert_eq!(next.oldest_slot, 200);
    assert_eq!(next.filter(60), CompactionDecision::Remove);
}

// the filter reads the slot at each column's own key offset: last word for
// transaction statuses, always zero for signature-only memo keys.
#[test]
fn test_filter_reads_slot_at_column_offset() {
    let filter = PurgedSlotFilter { oldest_slot: 100, clean_slot_0: false };
    let old_status = ColumnIndex::PrimarySigSlot(0, vec![0; 64], 99).key();
    let new_status = ColumnIndex::PrimarySigSlot(0, vec![0; 64], 100).key();
    assert_eq!(
        filter.filter_key(ColumnKind::TransactionStatus, &old_status),
        CompactionDecision::Remove
    );
    assert_eq!(
        filter.filter_key(ColumnKind::TransactionStatus, &new_status),
        CompactionDecision::Keep
    );
    // memo keys report slot zero and survive until slot-zero cleaning
    let memo = ColumnIndex::Sig(vec![3; 64]).key();
    assert_eq!(
        filter.filter_key(ColumnKind::TransactionMemos, &memo),
        CompactionDecision::Keep
    );
    let cleaning = PurgedSlotFilter { oldest_slot: 100, clean_slot_0: true };
    assert_eq!(
        cleaning.filter_key(ColumnKind::TransactionMemos, &memo),
        CompactionDecision::Remove
    );
    // a key of the wrong width is left alone
    assert_eq!(
        cleaning.filter_key(ColumnKind::TransactionMemos, &[1, 2, 3]),
        CompactionDecision::Keep
    );
}
