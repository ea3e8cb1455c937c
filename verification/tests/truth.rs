use palimpsest_sim::actions::{ActionKind, ActionState, SiteKind};
use palimpsest_sim::chaos::ChaosConfig;
use palimpsest_sim::entity::EntityId;
use palimpsest_sim::kernel::{KernelMetrics, KernelState, PersonObservations};
use palimpsest_sim::time::SimInstant;
use palimpsest_sim::truth::{truth_hash, PersonTruth, SiteTruth, TruthObservations};

fn config() -> ChaosConfig {
    ChaosConfig {
        seed: 42,
        person_count: 1,
        years: 10,
        sim_seconds_per_year: 31_536_000,
    }
}

fn metrics() -> KernelMetrics {
    KernelMetrics {
        state: KernelState::Running,
        failed_at: None,
        now: SimInstant::from_seconds(86_400),
        person_count: 1,
        live_actions: 1,
        pending_retries: 0,
        live_checks: 1,
        scheduler_queue_depth: 2,
        scheduler_stale_nodes: 0,
        events_buffered: 0,
        events_rotated: 0,
        events_digest: 15,
        rounds_total: 11,
        transitions_total: 12,
        decisions_total: 13,
        events_total: 14,
    }
}

fn person() -> PersonTruth {
    PersonTruth {
        id: EntityId::first(),
        x: 2,
        y: -3,
        state: ActionState::Moving {
            action: ActionKind::Eat,
        },
        action: ActionKind::Eat,
        hunger: 500,
        fatigue: 600,
        target: Some((4, 5)),
    }
}

fn observations() -> TruthObservations {
    TruthObservations {
        boundary_count: 3,
        persons: vec![(
            EntityId::first(),
            PersonObservations {
                movement_steps: 1,
                movement_phases: 2,
                moves: 3,
                eats: 4,
                sleeps: 5,
                works: 6,
                idles: 7,
            },
        )],
        queue_depth_sum: 10,
        queue_depth_max: 4,
        queue_nodes_sum: 20,
        queue_nodes_max: 8,
    }
}

fn sites() -> Vec<SiteTruth> {
    vec![
        SiteTruth {
            x: 4,
            y: 5,
            kind: SiteKind::Meal,
            work: None,
        },
        SiteTruth {
            x: 1,
            y: 1,
            kind: SiteKind::Work,
            work: Some(9),
        },
    ]
}

#[test]
fn truth_hash_folds_every_section_in_order() {
    let persons = [person()];
    let observations = observations();
    let sites = sites();
    let hash = truth_hash(
        &config(),
        86_400,
        1,
        Some(&persons[..]),
        Some(&observations),
        Some(b"[]".as_slice()),
        Some(sites.as_slice()),
        &metrics(),
    );
    assert_eq!(hash, 13_445_364_985_108_410_571);
}

#[test]
fn truth_hash_of_a_faulted_kernel_keeps_only_the_tags() {
    let hash = truth_hash(&config(), 86_400, 0, None, None, None, None, &metrics());
    assert_eq!(hash, 12_876_835_043_554_457_042);
}

#[test]
fn truth_hash_is_deterministic_and_sees_each_field() {
    let persons = [person()];
    let observations = observations();
    let sites = sites();
    let first = truth_hash(
        &config(),
        86_400,
        1,
        Some(&persons[..]),
        Some(&observations),
        Some(b"[]".as_slice()),
        Some(sites.as_slice()),
        &metrics(),
    );
    let again = truth_hash(
        &config(),
        86_400,
        1,
        Some(&persons[..]),
        Some(&observations),
        Some(b"[]".as_slice()),
        Some(sites.as_slice()),
        &metrics(),
    );
    assert_eq!(first, again);
    let mut moved = person();
    moved.target = None;
    let changed = truth_hash(
        &config(),
        86_400,
        1,
        Some(&[moved][..]),
        Some(&observations),
        Some(b"[]".as_slice()),
        Some(sites.as_slice()),
        &metrics(),
    );
    assert_ne!(first, changed);
}
