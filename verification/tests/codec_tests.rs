use ledger_store::columns::{ColumnIndex, ColumnKind};
use ledger_store::hashing::HashValue;
use ledger_store::keys::{u64_from_be_at, u64_to_be_bytes};
use ledger_store::meta::{
    AddressSignatureMeta, ErasureConfig, ErasureMeta, Index, MerkleRootMeta, ShredIndex,
    ShredType, SlotMeta, TransactionStatusIndexMeta,
};

#[test]
fn test_big_endian_key_bytes() {
    assert_eq!(u64_to_be_bytes(0), vec![0; 8]);
    assert_eq!(
        u64_to_be_bytes(0x0102_0304_0506_0708),
        vec![1, 2, 3, 4, 5, 6, 7, 8]
    );
    let b = u64_to_be_bytes(u64::MAX);
    assert_eq!(b, vec![0xff; 8]);
    assert_eq!(u64_from_be_at(&b, 0), u64::MAX);
    // big-endian keys iterate in numeric order
    assert!(u64_to_be_bytes(255) < u64_to_be_bytes(256));
    assert!(u64_to_be_bytes(1) < u64_to_be_bytes(0x100000000));
}

#[test]
fn test_column_names_are_schema_contract() {
    assert_eq!(ColumnKind::SlotMeta.name(), "meta");
    assert_eq!(ColumnKind::Root.name(), "root");
    assert_eq!(ColumnKind::ShredData.name(), "data_shred");
    assert_eq!(ColumnKind::TransactionStatus.name(), "transaction_status");
    assert_eq!(ColumnKind::TransactionStatusIndex.name(), "transaction_status_index");
    assert_eq!(ColumnKind::MerkleRootMeta.name(), "merkle_root_meta");
    let cols = ledger_store::columns::columns();
    assert_eq!(cols.len(), 19);
}

#[test]
fn test_slot_key_round_trip() {
    let idx = ColumnIndex::Slot(77);
    let key = idx.key();
    assert_eq!(key.len(), 8);
    let back = ledger_store::columns::index_of_key(ColumnKind::Root, &key).unwrap();
    assert_eq!(back, idx);
    assert_eq!(back.slot(), 77);
    assert!(ledger_store::columns::index_of_key(ColumnKind::Root, &key[1..]).is_none());
}

#[test]
fn test_shred_key_round_trip() {
    let idx = ColumnIndex::SlotPair(5, 11);
    let key = idx.key();
    assert_eq!(key.len(), 16);
    let back = ledger_store::columns::index_of_key(ColumnKind::ShredData, &key).unwrap();
    assert_eq!(back.slot(), 5);
    assert_eq!(back, ColumnIndex::SlotPair(5, 11));
}

#[test]
fn test_transaction_status_key_embeds_slot_last() {
    let idx = ColumnIndex::PrimarySigSlot(0, vec![0xab; 64], 300);
    let key = idx.key();
    assert_eq!(key.len(), 80);
    assert_eq!(
        ledger_store::columns::slot_in_key(ColumnKind::TransactionStatus, &key),
        Some(300)
    );
    let back = ledger_store::columns::index_of_key(ColumnKind::TransactionStatus, &key).unwrap();
    assert_eq!(back.slot(), 300);
}

#[test]
fn test_memo_keys_report_slot_zero() {
    let idx = ColumnIndex::Sig(vec![0x11; 64]);
    let key = idx.key();
    assert_eq!(key.len(), 64);
    assert_eq!(
        ledger_store::columns::slot_in_key(ColumnKind::TransactionMemos, &key),
        Some(0)
    );
}

#[test]
fn test_transaction_status_index_meta_wire_format() {
    let m = TransactionStatusIndexMeta { max_slot: 0x0102_0304, frozen: true };
    let bytes = m.encode();
    assert_eq!(bytes, vec![0x04, 0x03, 0x02, 0x01, 0, 0, 0, 0, 1]);
    assert_eq!(TransactionStatusIndexMeta::decode(&bytes), Some(m));
    // strict flag byte and strict length
    assert_eq!(TransactionStatusIndexMeta::decode(&[0; 8]), None);
    assert_eq!(
        TransactionStatusIndexMeta::decode(&[0, 0, 0, 0, 0, 0, 0, 0, 2]),
        None
    );
    let d = TransactionStatusIndexMeta::default();
    assert_eq!(d.max_slot, 0);
    assert!(!d.frozen);
}

#[test]
fn test_address_signature_meta_wire_format() {
    let m = AddressSignatureMeta { writeable: true };
    assert_eq!(m.encode(), vec![1]);
    assert_eq!(AddressSignatureMeta::decode(&[1]), Some(m));
    assert_eq!(AddressSignatureMeta::decode(&[0]), Some(AddressSignatureMeta { writeable: false }));
    assert_eq!(AddressSignatureMeta::decode(&[2]), None);
    assert_eq!(AddressSignatureMeta::decode(&[]), None);
}

#[test]
fn test_erasure_meta_wire_format() {
    let m = ErasureMeta {
        fec_set_index: 9,
        first_coding_index: 100,
        first_received_coding_index: 101,
        config: ErasureConfig { num_data: 32, num_coding: 32 },
    };
    let bytes = m.encode();
    assert_eq!(bytes.len(), 40);
    // the set index widens to a 64-bit word on the wire
    assert_eq!(&bytes[0..8], &[9, 0, 0, 0, 0, 0, 0, 0]);
    assert_eq!(ErasureMeta::decode(&bytes), Some(m));
    // a widened index beyond 32 bits is rejected
    let mut bad = bytes.clone();
    bad[7] = 0xff;
    assert_eq!(ErasureMeta::decode(&bad), None);
}

#[test]
fn test_merkle_root_meta_wire_format() {
    let none = MerkleRootMeta {
        merkle_root: None,
        first_received_shred_index: 7,
        first_received_shred_type: ShredType::Data,
    };
    let bytes = none.encode();
    assert_eq!(bytes, vec![0, 7, 0, 0, 0, 0xa5]);
    assert_eq!(MerkleRootMeta::decode(&bytes), Some(none));

    let some = MerkleRootMeta {
        merkle_root: Some(HashValue::from_bytes(vec![0xcd; 32])),
        first_received_shred_index: 8,
        first_received_shred_type: ShredType::Code,
    };
    let bytes = some.encode();
    assert_eq!(bytes.len(), 38);
    assert_eq!(bytes[0], 1);
    assert_eq!(bytes[37], 0x5a);
    assert_eq!(MerkleRootMeta::decode(&bytes), Some(some));
    // an unknown shred-type byte is rejected
    let mut bad = bytes.clone();
    bad[37] = 0x00;
    assert_eq!(MerkleRootMeta::decode(&bad), None);
}

#[test]
fn test_slot_meta_wire_format_round_trip() {
    let m = SlotMeta {
        slot: 11,
        consumed: 3,
        received: 5,
        first_shred_timestamp: 1_000,
        last_index: Some(64),
        parent_slot: None,
        next_slots: vec![12, 13],
        completed_data_indexes: vec![0, 2, 9],
    };
    let bytes = m.encode();
    assert_eq!(bytes.len(), 64 + 8 * 2 + 4 * 3);
    // an absent parent is the all-ones sentinel word
    assert_eq!(&bytes[40..48], &[0xff; 8]);
    assert_eq!(SlotMeta::decode(&bytes), Some(m));
}

#[test]
fn test_slot_meta_decode_is_strict() {
    let m = SlotMeta {
        slot: 1,
        consumed: 0,
        received: 0,
        first_shred_timestamp: 0,
        last_index: None,
        parent_slot: Some(0),
        next_slots: vec![],
        completed_data_indexes: vec![],
    };
    let bytes = m.encode();
    assert_eq!(SlotMeta::decode(&bytes), Some(m));
    // truncation is rejected
    assert_eq!(SlotMeta::decode(&bytes[..bytes.len() - 1]), None);
    // a contiguous prefix past the highest received index is rejected
    let mut bad = bytes.clone();
    bad[8] = 9; // consumed = 9 while received = 0
    assert_eq!(SlotMeta::decode(&bad), None);
    // an unsorted completed-index set is rejected
    let sorted = SlotMeta {
        completed_data_indexes: vec![4, 4],
        ..SlotMeta::decode(&bytes).unwrap()
    };
    assert_eq!(SlotMeta::decode(&sorted.encode()), None);
}

#[test]
fn test_shred_index_tracks_presence_in_order() {
    let mut set = ShredIndex::new();
    for idx in [5u64, 1, 9, 5, 7] {
        set.insert(idx);
    }
    assert_eq!(set.index, vec![1, 5, 7, 9]);
    assert!(set.contains(7));
    // the gap at index 2 is visible
    assert!(!set.contains(2));

    let per_slot = Index::new(42);
    assert_eq!(per_slot.slot, 42);
    assert!(!per_slot.data.contains(0));
    assert!(!per_slot.coding.contains(0));
}
