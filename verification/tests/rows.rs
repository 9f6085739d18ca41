use sol_slot_leader::db::{
    decode_max_slot_value, decode_slot_leader_row, decode_slot_leader_rows, RawSlotLeaderRow,
};
use sol_slot_leader::types::ClientType;
use std::sync::Arc;

fn raw(slot: Option<i64>, client: Option<&str>, name: Option<&str>) -> RawSlotLeaderRow {
    RawSlotLeaderRow {
        slot,
        client_type: client.map(String::from),
        name: name.map(String::from),
    }
}

#[test]
fn decodes_one_row() {
    let row = decode_slot_leader_row(raw(Some(42), Some(" Agave "), Some("n1"))).unwrap();
    assert_eq!(row.slot, 42);
    assert_eq!(row.client_type, ClientType::Agave);
    assert_eq!(row.name.as_deref(), Some("n1"));
}

#[test]
fn null_client_type_is_other_empty() {
    let row = decode_slot_leader_row(raw(Some(7), None, None)).unwrap();
    assert_eq!(row.client_type, ClientType::Other(Arc::from("")));
    assert_eq!(row.name, None);
}

#[test]
fn negative_slot_is_reinterpreted() {
    let row = decode_slot_leader_row(raw(Some(-1), Some("jito"), None)).unwrap();
    assert_eq!(row.slot, u64::MAX);
    let row = decode_slot_leader_row(raw(Some(i64::MIN), None, None)).unwrap();
    assert_eq!(row.slot, 1u64 << 63);
}

#[test]
fn row_without_slot_is_dropped() {
    assert!(decode_slot_leader_row(raw(None, Some("agave"), Some("n"))).is_none());
    let rows = decode_slot_leader_rows(vec![
        raw(Some(1), Some("agave"), None),
        raw(None, Some("jito"), None),
        raw(Some(3), Some("mystery"), Some("m")),
        raw(None, None, None),
        raw(Some(2), Some("rakurai"), None),
    ]);
    let slots: Vec<u64> = rows.iter().map(|r| r.slot).collect();
    assert_eq!(slots, vec![1, 3, 2]);
    assert_eq!(rows[1].client_type, ClientType::Other(Arc::from("mystery")));
    assert_eq!(rows[2].client_type, ClientType::Rakurai);
    assert!(decode_slot_leader_rows(Vec::new()).is_empty());
}

#[test]
fn max_slot() {
    assert_eq!(decode_max_slot_value(None), None);
    assert_eq!(decode_max_slot_value(Some(None)), None);
    assert_eq!(decode_max_slot_value(Some(Some(123))), Some(123));
    assert_eq!(decode_max_slot_value(Some(Some(-2))), Some(u64::MAX - 1));
}
