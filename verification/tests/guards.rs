use palimpsest_sim::actions::{
    check_cancel, plan_movement_step, plan_start, validate_start_time, ActionError, ActionKind,
    ActionState, ExecutionClock, MovementStep, Phase, SiteKind, StartPlan,
};
use palimpsest_sim::entity::EntityId;
use palimpsest_sim::kernel::{
    check_advance, check_spawn, check_start, next_round, state_after_advance, KernelError,
    KernelState, RoundStep,
};
use palimpsest_sim::time::{SimDuration, SimInstant};

fn at(seconds: i64) -> SimInstant {
    SimInstant::from_seconds(seconds)
}

fn secs(seconds: i64) -> SimDuration {
    SimDuration::from_seconds(seconds).expect("non-negative")
}

#[test]
fn advance_guards_apply_in_documented_order() {
    assert_eq!(
        check_advance(KernelState::Faulted, at(10), at(5), 0, 3),
        Err(KernelError::ClockRegression {
            current: at(10),
            requested: at(5),
        })
    );
    assert_eq!(
        check_advance(KernelState::Faulted, at(10), at(10), 0, 3),
        Err(KernelError::InvalidBudget)
    );
    assert_eq!(
        check_advance(KernelState::Faulted, at(10), at(20), 1, 3),
        Err(KernelError::KernelFaulted)
    );
    assert_eq!(
        check_advance(KernelState::Setup, at(0), at(20), 1, 3),
        Err(KernelError::NotStarted)
    );
    assert_eq!(check_advance(KernelState::Setup, at(0), at(0), 1, 3), Ok(()));
    assert_eq!(check_advance(KernelState::Setup, at(0), at(20), 1, 0), Ok(()));
    assert_eq!(check_advance(KernelState::Running, at(0), at(20), 1, 3), Ok(()));
}

#[test]
fn rounds_stop_at_the_target_or_the_budget() {
    assert_eq!(
        next_round(None, at(100), 0, 1),
        RoundStep::Finish { reached: true }
    );
    assert_eq!(
        next_round(Some(at(101)), at(100), 5, 1),
        RoundStep::Finish { reached: true }
    );
    assert_eq!(
        next_round(Some(at(100)), at(100), 1, 1),
        RoundStep::Finish { reached: false }
    );
    assert_eq!(
        next_round(Some(at(60)), at(100), 0, 1),
        RoundStep::Process(at(60))
    );
}

#[test]
fn an_empty_setup_world_that_moves_forward_becomes_running() {
    assert_eq!(
        state_after_advance(KernelState::Setup, at(0), at(10)),
        KernelState::Running
    );
    assert_eq!(
        state_after_advance(KernelState::Setup, at(0), at(0)),
        KernelState::Setup
    );
    assert_eq!(
        state_after_advance(KernelState::Running, at(0), at(10)),
        KernelState::Running
    );
}

#[test]
fn spawning_and_starting_are_setup_only_at_the_epoch() {
    assert_eq!(check_spawn(KernelState::Setup, at(0)), Ok(()));
    assert_eq!(
        check_spawn(KernelState::Setup, at(1)),
        Err(KernelError::NotAtEpoch)
    );
    assert_eq!(
        check_spawn(KernelState::Running, at(0)),
        Err(KernelError::NotSetup)
    );
    assert_eq!(
        check_spawn(KernelState::Faulted, at(0)),
        Err(KernelError::KernelFaulted)
    );
    assert_eq!(check_start(KernelState::Setup, at(0), at(0)), Ok(()));
    assert_eq!(
        check_start(KernelState::Setup, at(0), at(5)),
        Err(KernelError::NotAtEpoch)
    );
    assert_eq!(
        check_start(KernelState::Running, at(0), at(0)),
        Err(KernelError::AlreadyStarted)
    );
    assert_eq!(
        check_start(KernelState::Faulted, at(0), at(0)),
        Err(KernelError::KernelFaulted)
    );
}

#[test]
fn movement_steps_walk_the_path_and_arrive_on_its_last_cell() {
    assert_eq!(
        plan_movement_step(1, 4, at(10), secs(1)),
        Some(MovementStep::Step {
            index: 1,
            next_due: at(11),
        })
    );
    assert_eq!(
        plan_movement_step(3, 4, at(10), secs(1)),
        Some(MovementStep::Arrive { index: 3 })
    );
    assert_eq!(
        plan_movement_step(1, 1, at(10), secs(1)),
        Some(MovementStep::ArriveInPlace)
    );
    assert_eq!(plan_movement_step(1, 4, at(i64::MAX), secs(1)), None);
}

#[test]
fn start_time_guard_rejects_busy_or_backward_starts() {
    let person = EntityId::first();
    let clock = ExecutionClock {
        active: false,
        last_needs_at: at(50),
        last_commit_at: at(40),
    };
    assert_eq!(validate_start_time(person, Some(clock), at(50)), Ok(()));
    assert_eq!(
        validate_start_time(person, Some(clock), at(45)),
        Err(ActionError::TimeOverflow { id: person })
    );
    let busy = ExecutionClock {
        active: true,
        ..clock
    };
    assert_eq!(
        validate_start_time(person, Some(busy), at(99)),
        Err(ActionError::AlreadyExecuting { id: person })
    );
    assert_eq!(validate_start_time(person, None, at(0)), Ok(()));
    assert_eq!(
        validate_start_time(person, None, at(-1)),
        Err(ActionError::TimeOverflow { id: person })
    );
}

#[test]
fn cancel_needs_a_live_action_on_the_map() {
    let person = EntityId::first();
    let live = ExecutionClock {
        active: true,
        last_needs_at: at(5),
        last_commit_at: at(7),
    };
    assert_eq!(
        check_cancel(person, false, Some(live), at(10)),
        Err(ActionError::UnknownPerson { id: person })
    );
    assert_eq!(
        check_cancel(person, true, None, at(10)),
        Err(ActionError::InvalidTransition { id: person })
    );
    assert_eq!(
        check_cancel(
            person,
            true,
            Some(ExecutionClock {
                active: false,
                ..live
            }),
            at(10)
        ),
        Err(ActionError::InvalidTransition { id: person })
    );
    assert_eq!(
        check_cancel(person, true, Some(live), at(6)),
        Err(ActionError::TimeOverflow { id: person })
    );
    assert_eq!(check_cancel(person, true, Some(live), at(7)), Ok(()));
}

#[test]
fn start_plans_follow_the_candidate_kind() {
    let person = EntityId::first();
    assert_eq!(
        plan_start(person, ActionKind::Idle, None, None, false, at(10), secs(30), secs(1)),
        Ok(StartPlan {
            to: ActionState::Idle,
            phase: Phase::Active,
            next_index: 0,
            continue_due: at(40),
        })
    );
    assert_eq!(
        plan_start(person, ActionKind::Eat, None, None, true, at(10), secs(30), secs(1)),
        Err(ActionError::InvalidTarget {
            kind: ActionKind::Eat
        })
    );
    assert_eq!(
        plan_start(
            person,
            ActionKind::Eat,
            Some((3, 4)),
            Some(SiteKind::Rest),
            true,
            at(10),
            secs(30),
            secs(1)
        ),
        Err(ActionError::Blocked {
            kind: ActionKind::Eat,
            target: (3, 4),
        })
    );
    assert_eq!(
        plan_start(
            person,
            ActionKind::Move,
            Some((3, 4)),
            None,
            false,
            at(10),
            secs(30),
            secs(1)
        ),
        Err(ActionError::Unreachable {
            kind: ActionKind::Move,
            target: (3, 4),
        })
    );
    assert_eq!(
        plan_start(
            person,
            ActionKind::Work,
            Some((3, 4)),
            Some(SiteKind::Work),
            true,
            at(10),
            secs(30),
            secs(2)
        ),
        Ok(StartPlan {
            to: ActionState::Moving {
                action: ActionKind::Work
            },
            phase: Phase::Moving,
            next_index: 1,
            continue_due: at(12),
        })
    );
    assert_eq!(
        plan_start(
            person,
            ActionKind::Idle,
            None,
            None,
            false,
            at(i64::MAX),
            secs(30),
            secs(1)
        ),
        Err(ActionError::TimeOverflow { id: person })
    );
}

#[test]
fn splitting_an_advance_keeps_the_same_rounds() {
    assert_eq!(
        next_round(Some(at(50)), at(60), 0, 5),
        next_round(Some(at(50)), at(100), 0, 5)
    );
    assert_eq!(
        next_round(Some(at(70)), at(60), 0, 5),
        RoundStep::Finish { reached: true }
    );
    assert_eq!(
        next_round(Some(at(70)), at(100), 0, 5),
        RoundStep::Process(at(70))
    );
}

#[test]
fn zero_budget_advance_is_rejected() {
    assert_eq!(
        check_advance(KernelState::Setup, at(0), at(1), 0, 1),
        Err(KernelError::InvalidBudget)
    );
}

#[test]
fn forward_advance_before_start_is_not_started() {
    assert_eq!(
        check_advance(KernelState::Setup, at(0), at(100), 1024, 1),
        Err(KernelError::NotStarted)
    );
    assert_eq!(check_advance(KernelState::Setup, at(0), at(0), 1024, 1), Ok(()));
    assert_eq!(
        state_after_advance(KernelState::Setup, at(0), at(0)),
        KernelState::Setup
    );
    assert_eq!(check_start(KernelState::Setup, at(0), at(0)), Ok(()));
}

#[test]
fn start_world_twice_and_post_start_spawn_are_rejected() {
    assert_eq!(check_spawn(KernelState::Setup, at(0)), Ok(()));
    assert_eq!(check_start(KernelState::Setup, at(0), at(0)), Ok(()));
    assert_eq!(
        check_start(KernelState::Running, at(0), at(0)),
        Err(KernelError::AlreadyStarted)
    );
    assert_eq!(
        check_spawn(KernelState::Running, at(0)),
        Err(KernelError::NotSetup)
    );
}

#[test]
fn clock_regression_is_rejected_without_mutation() {
    assert_eq!(
        check_advance(KernelState::Running, at(0), at(-1), 10, 1),
        Err(KernelError::ClockRegression {
            current: at(0),
            requested: at(-1),
        })
    );
}

#[test]
fn empty_world_advances_to_the_target_directly() {
    assert_eq!(check_advance(KernelState::Setup, at(0), at(50), 100, 0), Ok(()));
    assert_eq!(
        next_round(None, at(50), 0, 100),
        RoundStep::Finish { reached: true }
    );
    assert_eq!(
        state_after_advance(KernelState::Setup, at(0), at(50)),
        KernelState::Running
    );
}

#[test]
fn kfix_003_non_empty_setup_forward_advance_is_rejected() {
    assert_eq!(
        check_advance(KernelState::Setup, at(0), at(10), 1024, 1),
        Err(KernelError::NotStarted)
    );
}

#[test]
fn kfix_003_zero_budget_is_rejected() {
    assert_eq!(
        check_advance(KernelState::Running, at(0), at(10), 0, 1),
        Err(KernelError::InvalidBudget)
    );
}

#[test]
fn start_before_epoch_does_not_create_a_runtime_entry() {
    let person = EntityId::first();
    assert_eq!(
        validate_start_time(person, None, at(-1)),
        Err(ActionError::TimeOverflow { id: person })
    );
}

#[test]
fn kfix_001_cancel_backwards_keeps_idle_and_token() {
    let person = EntityId::first();
    let clock = ExecutionClock {
        active: true,
        last_needs_at: at(10),
        last_commit_at: at(10),
    };
    assert_eq!(
        check_cancel(person, true, Some(clock), at(9)),
        Err(ActionError::TimeOverflow { id: person })
    );
    let idle = ExecutionClock {
        active: false,
        ..clock
    };
    assert_eq!(
        check_cancel(person, true, Some(idle), at(10)),
        Err(ActionError::InvalidTransition { id: person })
    );
}
