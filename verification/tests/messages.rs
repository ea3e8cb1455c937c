use palimpsest_sim::chaos::ChaosError;
use palimpsest_sim::entity::{EntityId, EntityIdAllocationError, InvalidEntityId};
use palimpsest_sim::events::InvalidSignificanceScore;
use palimpsest_sim::kernel::{KernelConfigError, KernelReadError};
use palimpsest_sim::person::PersonError;
use palimpsest_sim::scheduler::SchedulerError;
use palimpsest_sim::time::{SimClockError, SimDuration, SimInstant};
use palimpsest_sim::worker::WorkerError;
use palimpsest_sim::workload::SpikeRunError;

#[test]
fn time_values_and_errors_render_in_seconds() {
    assert_eq!(SimInstant::from_seconds(-42).to_string(), "-42s");
    assert_eq!(SimInstant::earliest().to_string(), "-9223372036854775808s");
    assert_eq!(SimDuration::from_seconds(60).unwrap().to_string(), "60s");
    assert_eq!(
        SimDuration::try_from_seconds(-3).unwrap_err().to_string(),
        "simulation duration cannot be negative: -3s"
    );
    assert_eq!(SimClockError::Overflow.to_string(), "simulation clock overflow");
    assert_eq!(
        SimClockError::TimeReversal {
            current: SimInstant::from_seconds(10),
            requested: SimInstant::from_seconds(9),
        }
        .to_string(),
        "simulation time cannot move backward from 10s to 9s"
    );
}

#[test]
fn identity_and_queue_errors_have_fixed_messages() {
    assert_eq!(InvalidEntityId.to_string(), "entity ID zero is reserved");
    assert_eq!(EntityIdAllocationError.to_string(), "entity ID space is exhausted");
    assert_eq!(
        SchedulerError::TokenSpaceExhausted.to_string(),
        "schedule token space is exhausted"
    );
    assert_eq!(
        SchedulerError::OrderSpaceExhausted.to_string(),
        "scheduler insertion-order space is exhausted"
    );
    assert_eq!(
        InvalidSignificanceScore(1_001).to_string(),
        "significance 1001 exceeds maximum 1000"
    );
}

#[test]
fn worker_kernel_and_person_errors_render() {
    assert_eq!(WorkerError::Full.to_string(), "command queue is full");
    assert_eq!(
        WorkerError::ClockRegression {
            current: SimInstant::from_seconds(5),
            requested: SimInstant::from_seconds(4),
        }
        .to_string(),
        "simulation time cannot move backward from 5s to 4s"
    );
    assert_eq!(
        WorkerError::InvalidSpeed.to_string(),
        "speed must be one of 1/5/20/100/1000/MAX"
    );
    assert_eq!(KernelReadError::KernelFaulted.to_string(), "kernel is faulted");
    assert_eq!(
        KernelReadError::InvalidNeedsTime {
            id: EntityId::new(7).unwrap(),
            at: SimInstant::from_seconds(30),
        }
        .to_string(),
        "cannot project needs for 7 to 30s"
    );
    assert_eq!(
        KernelConfigError::InvalidEventCapacity.to_string(),
        "kernel event buffer capacity must be non-zero"
    );
    assert_eq!(
        PersonError::UnknownPerson { id: EntityId::new(3).unwrap() }.to_string(),
        "no person with stable identity 3"
    );
    assert_eq!(
        PersonError::IdentityExhausted.to_string(),
        "stable identity space is exhausted"
    );
}

#[test]
fn workload_and_chaos_errors_render() {
    assert_eq!(
        SpikeRunError::NegativeFinalTime(-1).to_string(),
        "Phase 0 spike workload failed: NegativeFinalTime(-1)"
    );
    assert_eq!(
        SpikeRunError::ClockAdvance.to_string(),
        format!("Phase 0 spike workload failed: {:?}", SpikeRunError::ClockAdvance)
    );
    assert_eq!(
        ChaosError::NonFinite {
            person: EntityId::new(2).unwrap(),
            field: "hunger",
            value: -1,
            min: 0,
            max: 100_000,
        }
        .to_string(),
        "non-finite/out-of-bounds hunger for person 2: -1 not in [0, 100000]"
    );
    assert_eq!(
        ChaosError::QueueGrowth { key: "queue_nodes", value: 9, limit: 8 }.to_string(),
        "unbounded queue growth: queue_nodes = 9 > 8"
    );
    assert_eq!(
        ChaosError::NonTerminating { committed_to_seconds: 86_400, stalled_calls: 1_024 }
            .to_string(),
        "non-terminating: committed to 86400s after 1024 stalled calls"
    );
    assert_eq!(
        ChaosError::Invariant { rule: "walkable location", detail: "x".to_owned() }.to_string(),
        "invariant 'walkable location' violated: x"
    );
    assert_eq!(
        ChaosError::Population { expected: 100, actual: 99 }.to_string(),
        "population changed: expected 100, actual 99"
    );
    assert_eq!(
        ChaosError::Config("years must be positive".to_owned()).to_string(),
        "invalid chaos config: years must be positive"
    );
}
