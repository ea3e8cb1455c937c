use palimpsest_sim::actions::{
    dispatch_due, merge_decision_requests, plan_arrival, plan_resolution, recovery_outcome,
    ActionConfig, ActionError, ActionKind, ActionStats, Arrival, CancelReason, DecisionReason,
    DecisionRequest, DueAction, DueKind, MergedRequest, Phase, RecoveryKind, ResolutionPlan,
    SiteKind, TokenState, TransitionReason,
};
use palimpsest_sim::entity::EntityId;
use palimpsest_sim::scheduler::Scheduler;
use palimpsest_sim::time::{SimDuration, SimInstant};

fn at(seconds: i64) -> SimInstant {
    SimInstant::from_seconds(seconds)
}

fn id(raw: u64) -> EntityId {
    EntityId::new(raw).expect("non-zero")
}

fn seconds(value: i64) -> SimDuration {
    SimDuration::from_seconds(value).expect("non-negative")
}

fn config() -> ActionConfig {
    ActionConfig::new(
        seconds(1),
        seconds(600),
        seconds(28_800),
        seconds(1_800),
        seconds(60),
        seconds(1),
        seconds(60),
    )
    .expect("valid")
}

#[test]
fn requests_merge_by_person_and_instant_in_first_order() {
    let requests = [
        DecisionRequest::new(id(2), DecisionReason::CriticalBoundary, at(10)),
        DecisionRequest::new(id(1), DecisionReason::CriticalBoundary, at(10)),
        DecisionRequest::new(id(2), DecisionReason::Completed, at(10)),
        DecisionRequest::new(id(2), DecisionReason::Retry, at(11)),
        DecisionRequest::new(id(1), DecisionReason::CriticalBoundary, at(10)),
    ];
    assert_eq!(
        merge_decision_requests(&requests),
        vec![
            MergedRequest {
                person: id(2),
                at: at(10),
                requires_start: true,
            },
            MergedRequest {
                person: id(1),
                at: at(10),
                requires_start: false,
            },
            MergedRequest {
                person: id(2),
                at: at(11),
                requires_start: true,
            },
        ]
    );
    assert!(merge_decision_requests(&[]).is_empty());
}

#[test]
fn interrupts_only_when_a_different_action_wins() {
    let eat = (ActionKind::Eat, Some((1, 2)));
    let eat_elsewhere = (ActionKind::Eat, Some((3, 2)));
    assert_eq!(plan_resolution(true, Some(eat), eat), ResolutionPlan::Start);
    assert_eq!(plan_resolution(false, Some(eat), eat), ResolutionPlan::Keep);
    assert_eq!(
        plan_resolution(false, Some(eat), eat_elsewhere),
        ResolutionPlan::InterruptAndStart
    );
    assert_eq!(
        plan_resolution(false, Some((ActionKind::Idle, None)), eat),
        ResolutionPlan::InterruptAndStart
    );
    assert_eq!(plan_resolution(false, None, eat), ResolutionPlan::Start);
}

#[test]
fn only_the_live_token_of_its_kind_executes() {
    let mut scheduler: Scheduler<u8> = Scheduler::new();
    let live = scheduler.schedule_at(at(5), 0).expect("token");
    let stale = scheduler.schedule_at(at(6), 1).expect("token");
    let moving = TokenState {
        continue_token: Some(live),
        check_token: Some(stale),
        phase: Some(Phase::Moving),
    };
    assert_eq!(
        dispatch_due(DueKind::Continue, live, Some(moving)),
        DueAction::StepMovement
    );
    assert_eq!(
        dispatch_due(DueKind::Continue, stale, Some(moving)),
        DueAction::Ignore
    );
    let active = TokenState {
        phase: Some(Phase::Active),
        ..moving
    };
    assert_eq!(
        dispatch_due(DueKind::Continue, live, Some(active)),
        DueAction::CompleteActivity
    );
    assert_eq!(
        dispatch_due(DueKind::Retry, live, Some(active)),
        DueAction::Ignore
    );
    let waiting = TokenState {
        phase: None,
        ..moving
    };
    assert_eq!(
        dispatch_due(DueKind::Retry, live, Some(waiting)),
        DueAction::RequestRetry
    );
    assert_eq!(
        dispatch_due(DueKind::CriticalCheck, stale, Some(waiting)),
        DueAction::RunCriticalCheck
    );
    assert_eq!(
        dispatch_due(DueKind::CriticalCheck, live, None),
        DueAction::Ignore
    );
}

#[test]
fn arrival_completes_moves_and_activates_available_sites() {
    let person = id(4);
    let config = config();
    assert_eq!(
        plan_arrival(person, ActionKind::Move, Some((1, 1)), None, at(10), &config),
        Ok(Arrival::Complete)
    );
    assert_eq!(
        plan_arrival(person, ActionKind::Eat, None, None, at(10), &config),
        Ok(Arrival::Recover(RecoveryKind::Failed))
    );
    assert_eq!(
        plan_arrival(
            person,
            ActionKind::Eat,
            Some((1, 1)),
            Some(SiteKind::Work),
            at(10),
            &config
        ),
        Ok(Arrival::Recover(RecoveryKind::Blocked))
    );
    assert_eq!(
        plan_arrival(
            person,
            ActionKind::Sleep,
            Some((1, 1)),
            Some(SiteKind::Rest),
            at(10),
            &config
        ),
        Ok(Arrival::Activate { due: at(28_810) })
    );
    assert_eq!(
        plan_arrival(
            person,
            ActionKind::Work,
            Some((1, 1)),
            Some(SiteKind::Work),
            at(i64::MAX),
            &config
        ),
        Err(ActionError::TimeOverflow { id: person })
    );
}

#[test]
fn recoveries_and_cancellations_are_counted_by_kind() {
    assert_eq!(
        recovery_outcome(RecoveryKind::Blocked),
        (TransitionReason::Blocked, "action.blocked")
    );
    assert_eq!(
        recovery_outcome(RecoveryKind::Failed),
        (TransitionReason::Failed, "action.failed")
    );
    let mut stats = ActionStats::default();
    stats.record_completion(ActionKind::Eat);
    stats.record_completion(ActionKind::Eat);
    stats.record_completion(ActionKind::Idle);
    stats.record_recovery(RecoveryKind::Blocked);
    stats.record_cancel(CancelReason::Interrupted);
    stats.record_cancel(CancelReason::External);
    assert_eq!(stats.eat_completions, 2);
    assert_eq!(stats.idle_completions, 1);
    assert_eq!(stats.move_completions, 0);
    assert_eq!(stats.blocked, 1);
    assert_eq!(stats.failed, 0);
    assert_eq!(stats.interrupted, 1);
    assert_eq!(stats.cancelled, 1);
    let mut full = ActionStats {
        work_completions: u64::MAX,
        ..ActionStats::default()
    };
    full.record_completion(ActionKind::Work);
    assert_eq!(full.work_completions, u64::MAX);
}
