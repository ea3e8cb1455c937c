use palimpsest_sim::actions::{ActionKind, ActionState};
use palimpsest_sim::chaos::{check_person_views, ChaosError, PersonCheck, NEED_MAX};
use palimpsest_sim::entity::EntityId;

fn id(raw: u64) -> EntityId {
    EntityId::new(raw).expect("non-zero")
}

fn eating(raw: u64) -> PersonCheck {
    PersonCheck {
        id: id(raw),
        hunger: 10,
        fatigue: 20,
        location: (3, 4),
        location_cell: Some(true),
        state: ActionState::Eating,
        action: ActionKind::Eat,
        target: Some((3, 4)),
        target_walkable: true,
    }
}

#[test]
fn clean_views_pass_the_day_checkpoint() {
    assert_eq!(
        check_person_views(&[id(1), id(2)], &[eating(2), eating(1)]),
        Ok(())
    );
}

#[test]
fn a_missing_or_unknown_person_is_a_population_change() {
    assert_eq!(
        check_person_views(&[id(1), id(2)], &[eating(1)]),
        Err(ChaosError::Population {
            expected: 2,
            actual: 1,
        })
    );
    assert_eq!(
        check_person_views(&[id(1), id(2)], &[eating(1), eating(3)]),
        Err(ChaosError::Population {
            expected: 2,
            actual: 2,
        })
    );
}

#[test]
fn the_first_failing_view_is_reported() {
    let mut hungry = eating(1);
    hungry.hunger = NEED_MAX + 1;
    let mut outside = eating(2);
    outside.location_cell = None;
    assert_eq!(
        check_person_views(&[id(1), id(2)], &[outside, hungry]),
        Err(ChaosError::Invariant {
            rule: "walkable location",
            detail: "person 2 is outside map".to_string(),
        })
    );
    let error = check_person_views(&[id(1), id(2)], &[hungry, outside]).unwrap_err();
    assert!(matches!(error, ChaosError::NonFinite { field: "hunger", .. }));
}

#[test]
fn blocked_cells_and_mismatched_actions_are_invariant_failures() {
    let mut blocked = eating(1);
    blocked.location_cell = Some(false);
    assert_eq!(
        check_person_views(&[id(1)], &[blocked]),
        Err(ChaosError::Invariant {
            rule: "walkable location",
            detail: "person 1 is on blocked cell".to_string(),
        })
    );
    let mut away = eating(1);
    away.target = Some((9, 9));
    assert_eq!(
        check_person_views(&[id(1)], &[away]),
        Err(ChaosError::Invariant {
            rule: "action/state/target consistency",
            detail: "person 1 mismatch".to_string(),
        })
    );
}
