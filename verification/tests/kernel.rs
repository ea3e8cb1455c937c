use palimpsest_sim::actions::{ActionKind, ActionState, TransitionReason};
use palimpsest_sim::entity::EntityId;
use palimpsest_sim::kernel::{
    check_kernel_limits, KernelAdvance, KernelConfigError, KernelObservations, PersonObservations,
    DEFAULT_EVENT_BUFFER_CAPACITY, DEFAULT_WORK_BUDGET,
};
use palimpsest_sim::time::SimInstant;

#[test]
fn config_rejects_zero_budget_and_zero_capacity() {
    assert_eq!(
        check_kernel_limits(0, 4096),
        Err(KernelConfigError::InvalidWorkBudget)
    );
    assert_eq!(
        check_kernel_limits(1024, 0),
        Err(KernelConfigError::InvalidEventCapacity)
    );
    assert_eq!(check_kernel_limits(0, 0), Err(KernelConfigError::InvalidWorkBudget));
    assert!(DEFAULT_WORK_BUDGET > 0);
    assert!(DEFAULT_EVENT_BUFFER_CAPACITY > 0);
    assert_eq!(
        check_kernel_limits(DEFAULT_WORK_BUDGET, DEFAULT_EVENT_BUFFER_CAPACITY),
        Ok(())
    );
}

#[test]
fn advance_records_expose_their_fields() {
    let advance = KernelAdvance::new(SimInstant::from_seconds(9), 3, true, 4, 5, 6);
    assert_eq!(advance.committed_to(), SimInstant::from_seconds(9));
    assert_eq!(advance.rounds(), 3);
    assert!(advance.reached_target());
    assert_eq!(advance.transitions(), 4);
    assert_eq!(advance.decisions(), 5);
    assert_eq!(advance.events(), 6);
}

#[test]
fn boundary_observations_track_sum_min_and_max() {
    let mut observations = KernelObservations::default();
    observations.record_boundary(5, 9);
    observations.record_boundary(2, 12);
    observations.record_boundary(7, 3);
    assert_eq!(observations.boundary_count, 3);
    assert_eq!(observations.queue_depth_sum, 14);
    assert_eq!(observations.queue_depth_min, Some(2));
    assert_eq!(observations.queue_depth_max, 7);
    assert_eq!(observations.queue_nodes_sum, 24);
    assert_eq!(observations.queue_nodes_min, Some(3));
    assert_eq!(observations.queue_nodes_max, 12);
    assert!(observations.persons.get(&EntityId::first()).is_none());
}

#[test]
fn zero_distance_work_is_not_movement_and_arrivals_count_once() {
    let mut row = PersonObservations::default();
    let moving = ActionState::Moving { action: ActionKind::Work };
    row.record(TransitionReason::Started, ActionState::Idle, moving, ActionKind::Work);
    row.record(TransitionReason::Step, moving, moving, ActionKind::Work);
    row.record(TransitionReason::Arrived, moving, moving, ActionKind::Work);
    row.record(TransitionReason::Arrived, moving, ActionState::Working, ActionKind::Work);
    row.record(TransitionReason::Completed, ActionState::Working, ActionState::Idle, ActionKind::Work);
    assert_eq!(row.movement_steps, 2);
    assert_eq!(row.movement_phases, 1);
    assert_eq!(row.works, 1);
    let mut still = PersonObservations::default();
    still.record(TransitionReason::Arrived, ActionState::Idle, ActionState::Working, ActionKind::Work);
    still.record(TransitionReason::Completed, ActionState::Working, ActionState::Idle, ActionKind::Work);
    assert_eq!(still.movement_steps, 0);
    assert_eq!(still.movement_phases, 0);
    assert_eq!(still.works, 1);
    assert_eq!(still.eats + still.sleeps + still.moves + still.idles, 0);
}
