use palimpsest_sim::entity::EntityId;
use palimpsest_sim::events::{EventId, EventRecord};
use palimpsest_sim::storage::{
    count_from_sql, integrity_verdict, require_wal, storable_event_key, to_sql_id, StorageError,
};
use palimpsest_sim::time::SimInstant;

#[test]
fn event_identities_map_to_sqlite_keys_within_i64() {
    assert_eq!(to_sql_id(EventId::new(7).unwrap()).unwrap(), 7);
    assert_eq!(
        to_sql_id(EventId::new(i64::MAX as u64).unwrap()).unwrap(),
        i64::MAX
    );
    assert!(matches!(
        to_sql_id(EventId::new(i64::MAX as u64 + 1).unwrap()),
        Err(StorageError::EventIdOutOfRange(raw)) if raw == i64::MAX as u64 + 1
    ));
}

#[test]
fn counts_and_pragmas_are_checked() {
    assert_eq!(count_from_sql(3).unwrap(), 3);
    assert!(matches!(count_from_sql(-1), Err(StorageError::InvalidCount(-1))));
    assert!(integrity_verdict("ok".to_owned()).is_ok());
    assert!(matches!(
        integrity_verdict("row 3 missing".to_owned()),
        Err(StorageError::Integrity(text)) if text == "row 3 missing"
    ));
    assert!(require_wal("WAL".to_owned()).is_ok());
    assert!(require_wal("wal".to_owned()).is_ok());
    assert!(matches!(
        require_wal("delete".to_owned()),
        Err(StorageError::JournalMode(mode)) if mode == "delete"
    ));
}

#[test]
fn storable_records_yield_their_key_and_wire_duplicates_are_refused() {
    let mut record =
        EventRecord::new(EventId::new(3).unwrap(), SimInstant::epoch(), "test").unwrap();
    record.add_actor(EntityId::new(1).unwrap()).unwrap();
    assert_eq!(storable_event_key(&record).unwrap(), 3);
    let duplicated = EventRecord::from_wire(
        1,
        EventId::new(3).unwrap(),
        SimInstant::epoch(),
        "test".to_owned(),
        vec![EntityId::new(1).unwrap()],
        vec![EntityId::new(2).unwrap(), EntityId::new(2).unwrap()],
        None,
        Vec::new(),
        Vec::new(),
        palimpsest_sim::events::Visibility::Hidden,
        palimpsest_sim::events::SignificanceScore::lowest(),
    );
    assert!(duplicated.is_err());
}
