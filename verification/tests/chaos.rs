use palimpsest_sim::actions::{ActionKind, ActionState};
use palimpsest_sim::chaos::{
    check_action_consistency, person_view_action_kind, ActionCounts, actor_resolves, aggregate_completions, check_queue_and_buffer, day_target, needs_in_bounds,
    persons_completed_all_kinds, queue_bounded, queue_limits, require_all_kinds,
    validate_event_references, ChaosConfig, ChaosError, LivenessGuard, PerPersonCompletionRow,
    PerPersonCompletions, MAX_ADVANCE_CALLS_PER_DAY, MAX_STALLED_ADVANCE_CALLS, NEED_MAX,
    SECONDS_PER_DAY, SECONDS_PER_YEAR, TEN_YEARS_SECONDS,
};
use palimpsest_sim::entity::EntityId;
use palimpsest_sim::events::{EventId, EventRecord};
use palimpsest_sim::kernel::{KernelMetrics, KernelState};
use palimpsest_sim::time::SimInstant;

#[test]
fn needs_in_bounds_rejects_out_of_range() {
    assert!(needs_in_bounds(EntityId::first(), 0, NEED_MAX).is_none());
    let error = needs_in_bounds(EntityId::first(), NEED_MAX + 1, 0);
    assert!(matches!(
        error,
        Some(ChaosError::NonFinite { field: "hunger", value, min: 0, max, .. })
            if value == NEED_MAX + 1 && max == NEED_MAX
    ));
    let negative = needs_in_bounds(EntityId::first(), 0, -1);
    assert!(matches!(
        negative,
        Some(ChaosError::NonFinite { field: "fatigue", value: -1, .. })
    ));
}

#[test]
fn queue_detector_fires_on_growth() {
    let (live, nodes) = queue_limits(100);
    assert!(queue_bounded("scheduled_entries", live, live).is_none());
    assert!(queue_bounded("scheduled_entries", live + 1, live).is_some());
    assert!(queue_bounded("queue_nodes", nodes + 1, nodes).is_some());
}

#[test]
fn dangling_reference_detector_fires() {
    let population = [EntityId::first()];
    assert!(actor_resolves(EntityId::first(), &population).is_none());
    let other = EntityId::new(999).expect("non-exhausted id");
    assert!(actor_resolves(other, &population).is_some());
}

#[test]
fn valid_actor_does_not_hide_a_dangling_event_target() {
    let mut record = EventRecord::new(
        EventId::new(1).unwrap(),
        SimInstant::epoch(),
        "action.completed",
    )
    .unwrap();
    record.add_actor(EntityId::first()).unwrap();
    record.add_target(EntityId::new(999).unwrap()).unwrap();
    let population = [EntityId::first()];
    assert!(matches!(
        validate_event_references(&record, &population),
        Err(ChaosError::DanglingReference { .. })
    ));
}

#[test]
fn zero_person_count_is_rejected() {
    let config = ChaosConfig {
        person_count: 0,
        ..ChaosConfig::default()
    };
    assert_eq!(
        config.validate(),
        Err(ChaosError::Config("person_count must be positive".to_owned()))
    );
}

#[test]
fn default_config_targets_ten_years() {
    let config = ChaosConfig::default();
    assert_eq!(config.seed, 42);
    assert_eq!(config.person_count, 100);
    assert_eq!(SECONDS_PER_YEAR, 31_536_000);
    assert_eq!(TEN_YEARS_SECONDS, 315_360_000);
    assert_eq!(config.target_seconds(), Ok(TEN_YEARS_SECONDS));
    assert_eq!(config.validate(), Ok(TEN_YEARS_SECONDS));
}

#[test]
fn config_errors_follow_the_documented_order() {
    let base = ChaosConfig::default();
    assert_eq!(
        ChaosConfig { years: 0, ..base }.validate(),
        Err(ChaosError::Config("years must be positive".to_owned()))
    );
    assert_eq!(
        ChaosConfig { sim_seconds_per_year: 0, ..base }.validate(),
        Err(ChaosError::Config("sim_seconds_per_year must be positive".to_owned()))
    );
    assert_eq!(
        ChaosConfig { years: u64::MAX, ..base }.target_seconds(),
        Err(ChaosError::Config("years does not fit an i64 second budget".to_owned()))
    );
    assert_eq!(
        ChaosConfig { years: 1 << 40, ..base }.validate(),
        Err(ChaosError::Config("horizon overflows i64 seconds".to_owned()))
    );
    assert_eq!(
        ChaosConfig { years: 3, sim_seconds_per_year: -2, ..base }.target_seconds(),
        Ok(-6)
    );
}

fn metrics(depth: usize, stale: usize, buffered: usize, rotated: u64, total: u64) -> KernelMetrics {
    KernelMetrics {
        state: KernelState::Running,
        failed_at: None,
        now: SimInstant::epoch(),
        person_count: 1,
        live_actions: 0,
        pending_retries: 0,
        live_checks: 0,
        scheduler_queue_depth: depth,
        scheduler_stale_nodes: stale,
        events_buffered: buffered,
        events_rotated: rotated,
        events_digest: 0,
        rounds_total: 0,
        transitions_total: 0,
        decisions_total: 0,
        events_total: total,
    }
}

#[test]
fn queue_and_buffer_checks_report_the_first_violation() {
    assert_eq!(check_queue_and_buffer(metrics(2, 6, 3, 4, 10), 3, 1), Ok(()));
    assert_eq!(
        check_queue_and_buffer(metrics(3, 0, 0, 0, 0), 0, 1),
        Err(ChaosError::QueueGrowth { key: "scheduled_entries", value: 3, limit: 2 })
    );
    assert_eq!(
        check_queue_and_buffer(metrics(2, 7, 0, 0, 0), 0, 1),
        Err(ChaosError::QueueGrowth { key: "queue_nodes", value: 9, limit: 8 })
    );
    assert_eq!(
        check_queue_and_buffer(metrics(0, 0, 3, 4, 10), 2, 1),
        Err(ChaosError::Invariant {
            rule: "event_total = delivered + buffered + rotated",
            detail: "accounted 9 != total 10 (buffered 3, rotated 4)".to_owned(),
        })
    );
}

#[test]
fn dangling_messages_name_the_identity() {
    assert_eq!(
        actor_resolves(EntityId::new(77).unwrap(), &[]),
        Some(ChaosError::DanglingReference {
            detail: "event actor 77 is not a live population id".to_owned()
        })
    );
}

#[test]
fn invalid_events_are_reported_before_references() {
    let mut record = EventRecord::new(EventId::new(4).unwrap(), SimInstant::epoch(), "x").unwrap();
    record.add_actor(EntityId::new(8).unwrap()).unwrap();
    assert_eq!(
        validate_event_references(&record, &[EntityId::new(8).unwrap()]),
        Ok(())
    );
    let wire = EventRecord::from_wire(
        1,
        EventId::new(4).unwrap(),
        SimInstant::epoch(),
        "x".to_owned(),
        Vec::new(),
        Vec::new(),
        None,
        Vec::new(),
        Vec::new(),
        palimpsest_sim::events::Visibility::Hidden,
        palimpsest_sim::events::SignificanceScore::lowest(),
    )
    .unwrap();
    assert_eq!(validate_event_references(&wire, &[]), Ok(()));
}

#[test]
fn completion_accounting_sums_and_gates() {
    let full = PerPersonCompletions { moves: 0, eats: 1, sleeps: 2, works: 3, movement_phases: 4 };
    let partial = PerPersonCompletions { moves: 5, eats: 1, sleeps: 0, works: 0, movement_phases: 1 };
    assert_eq!(full.kinds_completed(), 4);
    assert_eq!(partial.kinds_completed(), 2);
    assert_eq!(
        aggregate_completions(&[full, partial]),
        PerPersonCompletions { moves: 5, eats: 2, sleeps: 2, works: 3, movement_phases: 5 }
    );
    assert_eq!(persons_completed_all_kinds(&[full, partial, full]), 2);
    let mut saturating = PerPersonCompletions { moves: u64::MAX, ..full };
    saturating.accumulate(full);
    assert_eq!(saturating.moves, u64::MAX);
    assert_eq!(saturating.eats, 2);
    let rows = [
        PerPersonCompletionRow { id: 1, completions: full, ever_idle: true },
        PerPersonCompletionRow { id: 2, completions: partial, ever_idle: false },
    ];
    assert_eq!(
        require_all_kinds(&rows),
        Err(ChaosError::UnmetCompletion {
            detail: "person 2 completed 2 of 4 action kinds".to_owned()
        })
    );
    assert_eq!(require_all_kinds(&rows[..1]), Ok(()));
}

#[test]
fn day_windows_end_at_the_horizon() {
    assert_eq!(day_target(0, 10 * SECONDS_PER_DAY), SECONDS_PER_DAY);
    assert_eq!(day_target(SECONDS_PER_DAY, SECONDS_PER_DAY + 5), SECONDS_PER_DAY + 5);
    assert_eq!(day_target(i64::MAX - 1, i64::MAX), i64::MAX);
}

#[test]
fn liveness_guard_reports_a_stall() {
    let mut guard = LivenessGuard::new();
    for _ in 0..(MAX_STALLED_ADVANCE_CALLS - 1) {
        assert_eq!(guard.observe(5, 5), Ok(()));
    }
    assert_eq!(
        guard.observe(5, 5),
        Err(ChaosError::NonTerminating {
            committed_to_seconds: 5,
            stalled_calls: MAX_STALLED_ADVANCE_CALLS,
        })
    );
}

#[test]
fn progress_resets_the_stall_run() {
    let mut guard = LivenessGuard::new();
    for _ in 0..(MAX_STALLED_ADVANCE_CALLS - 1) {
        assert_eq!(guard.observe(5, 5), Ok(()));
    }
    assert_eq!(guard.observe(5, 6), Ok(()));
    guard.start_day();
    assert_eq!(guard.observe(6, 6), Ok(()));
}

#[test]
fn liveness_guard_caps_calls_per_day() {
    let mut guard = LivenessGuard::new();
    let mut now = 0;
    for _ in 0..MAX_ADVANCE_CALLS_PER_DAY {
        assert_eq!(guard.observe(now, now + 1), Ok(()));
        now += 1;
    }
    assert_eq!(
        guard.observe(now, now + 1),
        Err(ChaosError::NonTerminating {
            committed_to_seconds: now + 1,
            stalled_calls: MAX_ADVANCE_CALLS_PER_DAY + 1,
        })
    );
}

#[test]
fn day_samples_tally_states() {
    let mut counts = ActionCounts::default();
    for state in [
        ActionState::Idle,
        ActionState::Moving { action: ActionKind::Eat },
        ActionState::Idle,
        ActionState::Working,
    ] {
        counts.tally(state);
    }
    assert_eq!(
        counts,
        ActionCounts { idle: 2, moving: 1, eating: 0, sleeping: 0, working: 1 }
    );
    assert_eq!(person_view_action_kind(ActionState::Sleeping), "Sleeping");
    assert_eq!(
        person_view_action_kind(ActionState::Moving { action: ActionKind::Move }),
        "Moving"
    );
}

#[test]
fn action_consistency_checks_state_and_target() {
    let person = EntityId::new(12).unwrap();
    assert_eq!(
        check_action_consistency(person, ActionState::Eating, ActionKind::Eat, Some((3, 4)), (3, 4), true),
        Ok(())
    );
    let mismatch = Err(ChaosError::Invariant {
        rule: "action/state/target consistency",
        detail: "person 12 mismatch".to_owned(),
    });
    assert_eq!(
        check_action_consistency(person, ActionState::Eating, ActionKind::Eat, Some((3, 5)), (3, 4), true),
        mismatch
    );
    assert_eq!(
        check_action_consistency(
            person,
            ActionState::Moving { action: ActionKind::Eat },
            ActionKind::Eat,
            Some((3, 5)),
            (3, 4),
            false
        ),
        mismatch
    );
    assert_eq!(
        check_action_consistency(person, ActionState::Idle, ActionKind::Idle, None, (0, 0), false),
        Ok(())
    );
}
