use palimpsest_sim::actions::{ActionError, ActionKind};
use palimpsest_sim::chaos::ChaosError;
use palimpsest_sim::entity::EntityId;
use palimpsest_sim::kernel::KernelError;
use palimpsest_sim::time::SimInstant;

#[test]
fn action_failures_name_the_person_or_target() {
    let person = EntityId::new(7).expect("non-zero");
    assert_eq!(
        ActionError::UnknownPerson { id: person }.to_string(),
        "unknown person 7"
    );
    assert_eq!(
        ActionError::AlreadyExecuting { id: person }.to_string(),
        "person 7 already has an active action"
    );
    assert_eq!(
        ActionError::InvalidTarget {
            kind: ActionKind::Eat
        }
        .to_string(),
        "invalid target for Eat"
    );
    assert_eq!(
        ActionError::Blocked {
            kind: ActionKind::Sleep,
            target: (3, -4),
        }
        .to_string(),
        "Sleep target (3, -4) is unavailable"
    );
    assert_eq!(
        ActionError::Unreachable {
            kind: ActionKind::Move,
            target: (10, 0),
        }
        .to_string(),
        "Move target (10, 0) is unreachable"
    );
    assert_eq!(
        ActionError::TimeOverflow { id: person }.to_string(),
        "time overflow for person 7"
    );
    assert_eq!(
        ActionError::EventLogExhausted.to_string(),
        "event identity space is exhausted"
    );
}

#[test]
fn kernel_failures_read_as_documented() {
    assert_eq!(
        KernelError::ClockRegression {
            current: SimInstant::from_seconds(10),
            requested: SimInstant::from_seconds(5),
        }
        .to_string(),
        "simulation time cannot move backward from 10s to 5s"
    );
    assert_eq!(
        KernelError::InvalidBudget.to_string(),
        "kernel work budget must be non-zero"
    );
    assert_eq!(
        KernelError::NotAtEpoch.to_string(),
        "kernel start_world requires the epoch"
    );
    let person = EntityId::new(2).expect("non-zero");
    assert_eq!(
        KernelError::Action {
            source: ActionError::InvalidTransition { id: person },
        }
        .to_string(),
        "action failure: invalid transition for person 2"
    );
    assert_eq!(
        ChaosError::Kernel(KernelError::KernelFaulted).to_string(),
        "kernel error: kernel is faulted"
    );
}
