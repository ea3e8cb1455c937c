use palimpsest_sim::actions::{
    action_state_consistent, kind_name, state_of, ActionConfig, ActionKind, ActionState, Phase,
    cancel_outcome, ActionStats, CancelReason, DecisionReason, DecisionRequest, EventLog,
    EventLogExhausted, PathQueryCounts, TransitionReason, EAT_RELIEF, EVENT_BUFFER_CAPACITY,
    REST_RELIEF,
};
use palimpsest_sim::digest::{fold_digest, FNV_OFFSET};
use palimpsest_sim::entity::EntityId;
use palimpsest_sim::events::{EventId, EventRecord};
use palimpsest_sim::time::{SimDuration, SimInstant};

fn record(raw: u64) -> EventRecord {
    EventRecord::new(
        EventId::new(raw).expect("non-zero"),
        SimInstant::from_seconds(raw as i64),
        "action.completed",
    )
    .expect("valid")
}

#[test]
fn constants_match_the_documented_values() {
    assert_eq!(EAT_RELIEF, 100_000);
    assert_eq!(REST_RELIEF, 100_000);
    assert_eq!(EVENT_BUFFER_CAPACITY, 4_096);
    assert_eq!(ActionStats::default().started, 0);
    assert_eq!(PathQueryCounts::default().execution_queries, 0);
}

#[test]
fn decision_requests_expose_their_fields() {
    let person = EntityId::new(3).expect("non-zero");
    let at = SimInstant::from_seconds(60);
    let request = DecisionRequest::new(person, DecisionReason::Retry, at);
    assert_eq!(request.person(), person);
    assert_eq!(request.reason(), DecisionReason::Retry);
    assert_eq!(request.at(), at);
}

#[test]
fn cancel_reasons_map_to_their_transition_and_event() {
    assert_eq!(
        cancel_outcome(CancelReason::Interrupted),
        (TransitionReason::Interrupted, "action.interrupted")
    );
    assert_eq!(
        cancel_outcome(CancelReason::External),
        (TransitionReason::Cancelled, "action.cancelled")
    );
}

#[test]
fn event_log_is_bounded_with_visible_rotation() {
    let mut log = EventLog::new(4).expect("positive capacity");
    for raw in 1..=10 {
        let id = log.allocate_id().expect("identity available");
        assert_eq!(id.get(), raw);
        log.append(record(raw), &[raw as u8]);
    }
    assert_eq!(log.len(), 4);
    assert_eq!(log.rotated(), 6);
    assert_eq!(log.total(), 10);
    let drained = log.drain();
    let ids: Vec<u64> = drained.iter().map(|r| r.event_id().get()).collect();
    assert_eq!(ids, vec![7, 8, 9, 10]);
    assert_eq!(log.len(), 0);
    assert_eq!(log.total(), 10);
    assert_eq!(log.rotated(), 6);
}

#[test]
fn digest_folds_length_then_body_independent_of_draining() {
    let mut drained_often = EventLog::new(2).expect("positive capacity");
    let mut never_drained = EventLog::new(2).expect("positive capacity");
    assert_eq!(drained_often.digest(), FNV_OFFSET);
    let bodies: [&[u8]; 3] = [b"first", b"second event", b""];
    let mut expected = FNV_OFFSET;
    for (index, body) in bodies.iter().enumerate() {
        let raw = index as u64 + 1;
        drained_often.append(record(raw), body);
        never_drained.append(record(raw), body);
        drained_often.drain();
        expected = fold_digest(expected, &(body.len() as u64).to_le_bytes());
        expected = fold_digest(expected, body);
    }
    assert_eq!(drained_often.digest(), expected);
    assert_eq!(never_drained.digest(), expected);
    assert_eq!(never_drained.rotated(), 1);
    assert_eq!(drained_often.rotated(), 0);
}

#[test]
fn zero_capacity_is_rejected() {
    assert!(EventLog::new(0).is_none());
    assert_eq!(EventLog::new(7).expect("positive").capacity(), 7);
}

#[test]
fn a_fresh_log_mints_identities_from_one() {
    let mut log = EventLog::new(1).expect("positive capacity");
    assert_eq!(log.peek_event_id().map(EventId::get), Some(1));
    assert_eq!(log.allocate_id().map(EventId::get), Ok(1));
    assert_eq!(log.peek_event_id().map(EventId::get), Some(2));
    let _ = EventLogExhausted;
}

fn seconds(value: i64) -> SimDuration {
    SimDuration::from_seconds(value).expect("non-negative")
}

#[test]
fn config_rejects_nonpositive_durations() {
    let zero = SimDuration::zero();
    assert!(ActionConfig::new(
        zero,
        seconds(600),
        seconds(28_800),
        seconds(1_800),
        seconds(60),
        seconds(1),
        seconds(60),
    )
    .is_none());
}

#[test]
fn default_config_has_the_documented_timings() {
    let config = ActionConfig::default();
    assert_eq!(config.move_step(), seconds(1));
    assert_eq!(config.activity_duration(ActionKind::Eat), Some(seconds(600)));
    assert_eq!(config.activity_duration(ActionKind::Sleep), Some(seconds(28_800)));
    assert_eq!(config.activity_duration(ActionKind::Work), Some(seconds(1_800)));
    assert_eq!(config.activity_duration(ActionKind::Idle), Some(seconds(60)));
    assert_eq!(config.activity_duration(ActionKind::Move), None);
    assert_eq!(config.retry_delay(), seconds(1));
    assert_eq!(config.critical_recheck_delay(), seconds(60));
    let custom = ActionConfig::new(
        seconds(2),
        seconds(3),
        seconds(4),
        seconds(5),
        seconds(6),
        seconds(7),
        seconds(8),
    )
    .expect("positive durations");
    assert_eq!(custom.activity_duration(ActionKind::Work), Some(seconds(5)));
    assert!(ActionConfig::new(
        seconds(2),
        seconds(3),
        seconds(4),
        seconds(5),
        seconds(6),
        seconds(7),
        SimDuration::zero(),
    )
    .is_none());
}

#[test]
fn record_states_follow_kind_and_phase() {
    assert_eq!(state_of(ActionKind::Idle, Phase::Active), ActionState::Idle);
    assert_eq!(state_of(ActionKind::Idle, Phase::Moving), ActionState::Idle);
    assert_eq!(
        state_of(ActionKind::Eat, Phase::Moving),
        ActionState::Moving { action: ActionKind::Eat }
    );
    assert_eq!(state_of(ActionKind::Eat, Phase::Active), ActionState::Eating);
    assert_eq!(state_of(ActionKind::Sleep, Phase::Active), ActionState::Sleeping);
    assert_eq!(state_of(ActionKind::Work, Phase::Active), ActionState::Working);
    assert_eq!(kind_name(ActionKind::Sleep), "Sleep");
    assert_eq!(kind_name(ActionKind::Move), "Move");
}

#[test]
fn consistency_ties_state_kind_and_target() {
    assert!(action_state_consistent(ActionState::Idle, ActionKind::Idle, false));
    assert!(!action_state_consistent(ActionState::Idle, ActionKind::Idle, true));
    assert!(action_state_consistent(
        ActionState::Moving { action: ActionKind::Work },
        ActionKind::Work,
        true
    ));
    assert!(!action_state_consistent(
        ActionState::Moving { action: ActionKind::Work },
        ActionKind::Eat,
        true
    ));
    assert!(!action_state_consistent(
        ActionState::Moving { action: ActionKind::Idle },
        ActionKind::Idle,
        true
    ));
    assert!(action_state_consistent(ActionState::Eating, ActionKind::Eat, true));
    assert!(!action_state_consistent(ActionState::Eating, ActionKind::Eat, false));
    for kind in [ActionKind::Move, ActionKind::Eat, ActionKind::Sleep, ActionKind::Work] {
        assert!(action_state_consistent(state_of(kind, Phase::Moving), kind, true));
    }
}

#[test]
fn one_event_past_capacity_rotates_exactly_one() {
    let mut log = EventLog::new(EVENT_BUFFER_CAPACITY).expect("positive capacity");
    for _ in 0..=EVENT_BUFFER_CAPACITY {
        let id = log.allocate_id().expect("identity available");
        log.append(record(id.get()), b"{}");
    }
    assert_eq!(log.total(), EVENT_BUFFER_CAPACITY as u64 + 1);
    assert_eq!(log.len(), EVENT_BUFFER_CAPACITY);
    assert_eq!(log.rotated(), 1);
    let drained = log.drain();
    assert_eq!(drained.first().map(|r| r.event_id().get()), Some(2));
    assert_eq!(
        log.total(),
        drained.len() as u64 + log.len() as u64 + log.rotated()
    );
}
