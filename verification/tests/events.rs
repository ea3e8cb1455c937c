use palimpsest_sim::entity::EntityId;
use palimpsest_sim::events::{
    EventId, EventRecord, EventValidationError, InvalidSignificanceScore, SignificanceScore,
    Visibility,
};
use palimpsest_sim::time::SimInstant;
use serde_json::Value;

fn entity(raw: u64) -> EntityId {
    EntityId::new(raw).expect("non-zero")
}

fn event(raw: u64) -> EventId {
    EventId::new(raw).expect("non-zero")
}

#[test]
fn identifiers_scores_and_references_are_validated() {
    assert_eq!(EventId::new(0), None);
    assert!(SignificanceScore::try_from_u16(1_001).is_err());
    let mut value = EventRecord::new(event(2), SimInstant::epoch(), "test").expect("valid");
    value.add_actor(entity(1)).expect("unique");
    assert_eq!(
        value.add_actor(entity(1)),
        Err(EventValidationError::DuplicateActor(entity(1)))
    );
    assert_eq!(value.add_cause(event(2)), Err(EventValidationError::SelfCause));
}

#[test]
fn a_fresh_record_has_the_documented_defaults() {
    let record = EventRecord::new(event(9), SimInstant::from_seconds(42), "migration")
        .expect("valid");
    assert_eq!(record.event_id(), event(9));
    assert_eq!(record.timestamp(), SimInstant::from_seconds(42));
    assert_eq!(record.event_type(), "migration");
    assert!(record.actors().is_empty());
    assert!(record.targets().is_empty());
    assert!(record.causes().is_empty());
    assert_eq!(record.location(), None);
    assert_eq!(record.visibility(), Visibility::Hidden);
    assert_eq!(record.significance().get(), 0);
    assert_eq!(record.validate(), Ok(()));
}

#[test]
fn blank_event_types_are_rejected() {
    assert_eq!(
        EventRecord::new(event(1), SimInstant::epoch(), "  \t").map(|_| ()),
        Err(EventValidationError::EmptyEventType)
    );
    assert_eq!(
        EventRecord::new(event(1), SimInstant::epoch(), "").map(|_| ()),
        Err(EventValidationError::EmptyEventType)
    );
}

#[test]
fn builders_reject_duplicates_and_keep_the_record_unchanged() {
    let mut record = EventRecord::new(event(5), SimInstant::epoch(), "test").expect("valid");
    record.add_target(entity(3)).expect("unique");
    assert_eq!(
        record.add_target(entity(3)),
        Err(EventValidationError::DuplicateTarget(entity(3)))
    );
    assert_eq!(record.targets(), &[entity(3)]);
    record.add_cause(event(1)).expect("unique");
    assert_eq!(
        record.add_cause(event(1)),
        Err(EventValidationError::DuplicateCause(event(1)))
    );
    assert_eq!(record.causes(), &[event(1)]);
    record.set_location(Some(entity(99)));
    record.set_visibility(Visibility::Restricted);
    record.set_significance(SignificanceScore::try_from_u16(700).expect("bounded"));
    assert_eq!(record.location(), Some(entity(99)));
    assert_eq!(record.visibility(), Visibility::Restricted);
    assert_eq!(record.significance().get(), 700);
}

#[test]
fn metadata_inserts_replace_and_read_back() {
    let mut record = EventRecord::new(event(5), SimInstant::epoch(), "test").expect("valid");
    assert_eq!(record.insert_metadata("distance_tiles", Value::from(27)), None);
    assert_eq!(record.metadata_value("distance_tiles"), Some(&Value::from(27)));
    assert_eq!(
        record.insert_metadata("distance_tiles", Value::from(30)),
        Some(Value::from(27))
    );
    assert_eq!(record.metadata_value("distance_tiles"), Some(&Value::from(30)));
    assert_eq!(record.metadata_value("missing"), None);
}

#[test]
fn significance_bounds_are_inclusive() {
    assert_eq!(SignificanceScore::lowest().get(), 0);
    assert_eq!(SignificanceScore::highest().get(), 1_000);
    assert_eq!(
        SignificanceScore::try_from_u16(1_000).map(SignificanceScore::get),
        Ok(1_000)
    );
    assert_eq!(
        SignificanceScore::try_from_u16(1_001),
        Err(InvalidSignificanceScore(1_001))
    );
}

#[test]
fn wire_records_are_validated_in_order() {
    let rebuild = |schema: u16, kind: &str, actors: Vec<EntityId>, causes: Vec<EventId>| {
        EventRecord::from_wire(
            schema,
            event(2),
            SimInstant::epoch(),
            kind.to_owned(),
            actors,
            Vec::new(),
            None,
            causes,
            Vec::new(),
            Visibility::Hidden,
            SignificanceScore::lowest(),
        )
    };
    assert_eq!(
        rebuild(1, "test", vec![entity(1), entity(1)], Vec::new()).map(|_| ()),
        Err(EventValidationError::DuplicateActor(entity(1)))
    );
    assert_eq!(
        rebuild(2, " ", vec![entity(1), entity(1)], Vec::new()).map(|_| ()),
        Err(EventValidationError::UnsupportedSchemaVersion(2))
    );
    assert_eq!(
        rebuild(1, " ", Vec::new(), Vec::new()).map(|_| ()),
        Err(EventValidationError::EmptyEventType)
    );
    assert_eq!(
        rebuild(1, "test", Vec::new(), vec![event(2)]).map(|_| ()),
        Err(EventValidationError::SelfCause)
    );
    let accepted = rebuild(1, "test", vec![entity(1), entity(2)], vec![event(1)])
        .expect("valid wire record");
    assert_eq!(accepted.actors(), &[entity(1), entity(2)]);
    assert_eq!(accepted.causes(), &[event(1)]);
}

#[test]
fn validation_messages_carry_the_debug_form() {
    assert_eq!(
        EventValidationError::DuplicateActor(entity(5)).to_string(),
        "invalid structured event: DuplicateActor(EntityId(5))"
    );
    assert_eq!(
        EventValidationError::UnsupportedSchemaVersion(3).to_string(),
        "invalid structured event: UnsupportedSchemaVersion(3)"
    );
    assert_eq!(
        EventValidationError::DuplicateConsequence(event(12)).to_string(),
        "invalid structured event: DuplicateConsequence(EventId(12))"
    );
    assert_eq!(
        EventValidationError::EmptyEventType.to_string(),
        "invalid structured event: EmptyEventType"
    );
    assert_eq!(
        EventValidationError::SelfConsequence.to_string(),
        "invalid structured event: SelfConsequence"
    );
    assert_eq!(
        format!("{:?}", EventValidationError::DuplicateTarget(entity(44))),
        "DuplicateTarget(EntityId(44))"
    );
}

#[test]
fn metadata_is_kept_in_key_order_whatever_the_insertion_order() {
    let mut first = EventRecord::new(event(5), SimInstant::epoch(), "test").expect("valid");
    let mut second = first.clone();
    for key in ["zeta", "alpha", "Mid", "alphabet", "é"] {
        first.insert_metadata(key, Value::from(key.len()));
    }
    for key in ["é", "alphabet", "Mid", "zeta", "alpha"] {
        second.insert_metadata(key, Value::from(key.len()));
    }
    let keys: Vec<&str> = first.metadata_entries().iter().map(|(k, _)| k.as_str()).collect();
    assert_eq!(keys, vec!["Mid", "alpha", "alphabet", "zeta", "é"]);
    assert_eq!(first, second);
    assert_eq!(first.insert_metadata("alpha", Value::from(9)), Some(Value::from(5)));
    assert_eq!(first.metadata_value("alpha"), Some(&Value::from(9)));
    assert_eq!(first.metadata_entries().len(), 5);
}
