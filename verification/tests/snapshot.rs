use palimpsest_sim::entity::{EntityId, EntityIdAllocator};
use palimpsest_sim::snapshot::{
    EntitySnapshot, PendingWorkSnapshot, Snapshot, SnapshotCodec, SnapshotError,
    SNAPSHOT_SCHEMA_VERSION,
};
use palimpsest_sim::time::{SimClock, SimInstant};

fn valid_snapshot() -> Snapshot {
    let id = EntityId::new(1).expect("non-zero");
    let mut allocator = EntityIdAllocator::default();
    allocator.advance_past(id);
    Snapshot::new(
        SimClock::at(SimInstant::from_seconds(42)),
        allocator,
        vec![EntitySnapshot {
            entity_id: id,
            state: 7,
        }],
        vec![PendingWorkSnapshot {
            entity_id: id,
            due: SimInstant::from_seconds(50),
            work_type: "dummy".to_owned(),
        }],
    )
    .expect("valid")
}

#[test]
fn corruption_and_dangling_work_are_rejected() {
    assert!(matches!(
        SnapshotCodec::unframe(b"not-a-snapshot"),
        Err(SnapshotError::InvalidMagic)
    ));
    let id = EntityId::new(1).expect("non-zero");
    assert!(matches!(
        Snapshot::new(
            SimClock::default(),
            EntityIdAllocator::default(),
            Vec::new(),
            vec![PendingWorkSnapshot {
                entity_id: id,
                due: SimInstant::epoch(),
                work_type: "dummy".to_owned()
            }]
        ),
        Err(SnapshotError::DanglingWork(found)) if found == id
    ));
}

#[test]
fn framing_compresses_and_unframing_restores_the_content() {
    let snapshot = valid_snapshot();
    let content: Vec<u8> = (0..2_000_u32).map(|i| (i % 7) as u8).collect();
    let framed = SnapshotCodec::frame(&snapshot, &content).expect("frame");
    assert_eq!(&framed[..8], b"PLMSNP01");
    assert!(framed.len() < content.len());
    assert_eq!(SnapshotCodec::unframe(&framed).expect("unframe"), content);
}

#[test]
fn a_good_magic_with_a_corrupt_body_is_an_io_error() {
    let mut bytes = b"PLMSNP01".to_vec();
    bytes.extend_from_slice(b"garbage");
    assert!(matches!(SnapshotCodec::unframe(&bytes), Err(SnapshotError::Io(_))));
}

#[test]
fn snapshot_invariants_are_reported_in_order() {
    let id = EntityId::new(3).expect("non-zero");
    let duplicate = Snapshot::new(
        SimClock::default(),
        EntityIdAllocator::from_next(EntityId::new(10).expect("non-zero")),
        vec![
            EntitySnapshot { entity_id: id, state: 1 },
            EntitySnapshot { entity_id: id, state: 2 },
        ],
        Vec::new(),
    );
    assert!(matches!(duplicate, Err(SnapshotError::DuplicateEntity(found)) if found == id));
    let blank = Snapshot::new(
        SimClock::default(),
        EntityIdAllocator::from_next(EntityId::new(10).expect("non-zero")),
        vec![EntitySnapshot { entity_id: id, state: 1 }],
        vec![PendingWorkSnapshot {
            entity_id: id,
            due: SimInstant::epoch(),
            work_type: " ".to_owned(),
        }],
    );
    assert!(matches!(blank, Err(SnapshotError::EmptyWorkType)));
    let reuse = Snapshot::new(
        SimClock::default(),
        EntityIdAllocator::default(),
        vec![EntitySnapshot { entity_id: id, state: 1 }],
        Vec::new(),
    );
    assert!(matches!(reuse, Err(SnapshotError::AllocatorWouldReuse(found)) if found == id));
    let old = Snapshot::from_parts(
        2,
        SimClock::default(),
        EntityIdAllocator::default(),
        Vec::new(),
        Vec::new(),
    );
    assert!(matches!(old.validate(), Err(SnapshotError::UnsupportedVersion(2))));
    assert_eq!(valid_snapshot().schema_version(), SNAPSHOT_SCHEMA_VERSION);
}

#[test]
fn accepting_requires_the_whole_content_to_be_consumed() {
    assert!(matches!(
        SnapshotCodec::accept(valid_snapshot(), 10, 12),
        Err(SnapshotError::TrailingBytes)
    ));
    assert_eq!(
        SnapshotCodec::accept(valid_snapshot(), 12, 12).expect("accepted"),
        valid_snapshot()
    );
}

#[test]
fn compressed_round_trip_excludes_runtime_handles() {
    let snapshot = valid_snapshot();
    let content: Vec<u8> = b"42|1|1:7|1@50:dummy".to_vec();
    let bytes = SnapshotCodec::frame(&snapshot, &content).expect("encode");
    let restored = SnapshotCodec::unframe(&bytes).expect("decode");
    assert_eq!(restored, content);
    assert_eq!(
        SnapshotCodec::accept(snapshot.clone(), restored.len(), content.len()).expect("decode"),
        snapshot
    );
}
