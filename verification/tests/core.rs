use palimpsest_sim::entity::EntityId;
use palimpsest_sim::time::SimClock;
use palimpsest_sim::workload::{run_spike_workload, SpikeRunError};

#[test]
fn workspace_test_harness_runs() {
    assert_eq!(EntityId::first().get(), 1);
    assert_eq!(SimClock::default().now().as_seconds(), 0);
}

#[test]
fn deterministic_fixture_finishes_and_drains_queue() {
    let metrics = run_spike_workload(10_000, 1_000).expect("valid finite run");
    assert_eq!(metrics.entities, 10_000);
    assert_eq!(metrics.final_sim_second, 1_000);
    assert_eq!(metrics.processed_work, 10_000);
    assert_eq!(metrics.generated_events, 10_000);
    assert_eq!(metrics.remaining_scheduled, 0);
}

#[test]
fn invalid_time_is_rejected() {
    assert_eq!(
        run_spike_workload(1, -1),
        Err(SpikeRunError::NegativeFinalTime(-1))
    );
}

#[test]
fn empty_workload_finishes_at_its_final_second() {
    let metrics = run_spike_workload(0, 5).expect("valid finite run");
    assert_eq!(metrics.entities, 0);
    assert_eq!(metrics.final_sim_second, 5);
    assert_eq!(metrics.processed_work, 0);
    assert_eq!(metrics.generated_events, 0);
    assert_eq!(metrics.remaining_scheduled, 0);
}

#[test]
fn workload_at_the_epoch_processes_everything() {
    let metrics = run_spike_workload(3, 0).expect("valid finite run");
    assert_eq!(metrics.processed_work, 3);
    assert_eq!(metrics.generated_events, 3);
    assert_eq!(metrics.final_sim_second, 0);
}
