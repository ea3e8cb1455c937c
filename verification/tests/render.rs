use palimpsest_sim::actions::{ActionKind, ActionState};
use palimpsest_sim::entity::EntityId;
use palimpsest_sim::kernel::KernelReadError;
use palimpsest_sim::render::{
    render_error_from_read, validate_render, PersonRenderCheck, RenderError, SiteRenderCheck,
    LOCAL_GRID_CELL_COUNT, RENDER_SCHEMA_VERSION,
};

fn id(raw: u64) -> EntityId {
    EntityId::new(raw).expect("non-zero")
}

fn idle(raw: u64) -> PersonRenderCheck {
    PersonRenderCheck {
        id: id(raw),
        action: ActionKind::Idle,
        state: ActionState::Idle,
        has_target: false,
    }
}

fn site(x: i32, y: i32) -> SiteRenderCheck {
    SiteRenderCheck { x, y }
}

fn open_grid() -> Vec<bool> {
    vec![true; LOCAL_GRID_CELL_COUNT]
}

#[test]
fn a_well_formed_snapshot_validates() {
    let grid = open_grid();
    assert_eq!(
        validate_render(
            RENDER_SCHEMA_VERSION,
            128,
            128,
            &grid,
            &[idle(1), idle(3)],
            2,
            &[site(5, 0), site(1, 1), site(2, 1)]
        ),
        Ok(())
    );
}

#[test]
fn schema_and_terrain_are_checked_first() {
    let grid = open_grid();
    assert_eq!(
        validate_render(1, 0, 0, &[], &[], 9, &[]),
        Err(RenderError::UnsupportedSchemaVersion(1))
    );
    assert_eq!(
        validate_render(RENDER_SCHEMA_VERSION, 64, 128, &grid, &[], 0, &[]),
        Err(RenderError::InvalidDimensions {
            width: 64,
            height: 128,
        })
    );
    assert_eq!(
        validate_render(RENDER_SCHEMA_VERSION, 128, 128, &grid[1..], &[], 0, &[]),
        Err(RenderError::InvalidCellCount {
            expected: 16_384,
            got: 16_383,
        })
    );
}

#[test]
fn persons_must_be_unique_ascending_and_consistent() {
    let grid = open_grid();
    assert_eq!(
        validate_render(RENDER_SCHEMA_VERSION, 128, 128, &grid, &[idle(2), idle(2)], 2, &[]),
        Err(RenderError::DuplicatePersonId(id(2)))
    );
    assert_eq!(
        validate_render(RENDER_SCHEMA_VERSION, 128, 128, &grid, &[idle(3), idle(2)], 2, &[]),
        Err(RenderError::UnsortedPersons { position: 1 })
    );
    let mut moving = idle(4);
    moving.state = ActionState::Moving {
        action: ActionKind::Eat,
    };
    assert_eq!(
        validate_render(RENDER_SCHEMA_VERSION, 128, 128, &grid, &[moving], 1, &[]),
        Err(RenderError::ActionTargetMismatch { person: id(4) })
    );
    assert_eq!(
        validate_render(RENDER_SCHEMA_VERSION, 128, 128, &grid, &[idle(1)], 0, &[]),
        Err(RenderError::MetricCountMismatch {
            expected: 1,
            got: 0,
        })
    );
}

#[test]
fn sites_must_be_unique_ordered_on_grid_and_walkable() {
    let mut grid = open_grid();
    assert_eq!(
        validate_render(RENDER_SCHEMA_VERSION, 128, 128, &grid, &[], 0, &[site(1, 1), site(1, 1)]),
        Err(RenderError::DuplicateSite((1, 1)))
    );
    assert_eq!(
        validate_render(RENDER_SCHEMA_VERSION, 128, 128, &grid, &[], 0, &[site(0, 2), site(9, 1)]),
        Err(RenderError::UnsortedSites { coord: (9, 1) })
    );
    assert_eq!(
        validate_render(RENDER_SCHEMA_VERSION, 128, 128, &grid, &[], 0, &[site(128, 0)]),
        Err(RenderError::SiteOutOfBounds((128, 0)))
    );
    grid[2 * 128 + 3] = false;
    assert_eq!(
        validate_render(RENDER_SCHEMA_VERSION, 128, 128, &grid, &[], 0, &[site(3, 2)]),
        Err(RenderError::UnwalkableSite((3, 2)))
    );
    assert_eq!(
        RenderError::UnwalkableSite((3, 2)).to_string(),
        "activity site (3, 2) is not walkable"
    );
}

#[test]
fn a_faulted_read_is_a_faulted_kernel() {
    assert_eq!(
        render_error_from_read(KernelReadError::KernelFaulted),
        RenderError::KernelFaulted
    );
    assert_eq!(
        RenderError::KernelFaulted.to_string(),
        "kernel is faulted; no snapshot available"
    );
    assert_eq!(
        RenderError::InvalidDimensions {
            width: 64,
            height: 128
        }
        .to_string(),
        "terrain dimensions must be 128x128, got 64x128"
    );
}

fn base_sites() -> Vec<SiteRenderCheck> {
    vec![site(10, 4), site(20, 4), site(3, 9)]
}

fn check(
    schema: u16,
    width: usize,
    height: usize,
    grid: &[bool],
    persons: &[PersonRenderCheck],
    count: usize,
    sites: &[SiteRenderCheck],
) -> Result<(), RenderError> {
    validate_render(schema, width, height, grid, persons, count, sites)
}

#[test]
fn terrain_batch_validates_dimensions_before_cell_count() {
    let grid = open_grid();
    for width in [0, 127, 129, usize::MAX] {
        assert!(matches!(
            check(RENDER_SCHEMA_VERSION, width, 128, &grid, &[], 0, &[]),
            Err(RenderError::InvalidDimensions { .. })
        ));
    }
    for cells in [&grid[..0], &grid[..1]] {
        assert!(matches!(
            check(RENDER_SCHEMA_VERSION, 128, 128, cells, &[], 0, &[]),
            Err(RenderError::InvalidCellCount { .. })
        ));
    }
    assert_eq!(check(RENDER_SCHEMA_VERSION, 128, 128, &grid, &[], 0, &[]), Ok(()));
}

#[test]
fn person_render_validates_action_state_target_independently() {
    let grid = open_grid();
    let base = idle(1);
    assert_eq!(check(RENDER_SCHEMA_VERSION, 128, 128, &grid, &[base], 1, &[]), Ok(()));
    for (action, state) in [
        (
            ActionKind::Move,
            ActionState::Moving {
                action: ActionKind::Move,
            },
        ),
        (ActionKind::Eat, ActionState::Eating),
        (ActionKind::Sleep, ActionState::Sleeping),
        (ActionKind::Work, ActionState::Working),
    ] {
        let person = PersonRenderCheck {
            action,
            state,
            has_target: true,
            ..base
        };
        assert_eq!(check(RENDER_SCHEMA_VERSION, 128, 128, &grid, &[person], 1, &[]), Ok(()));
    }
    let moving_idle = PersonRenderCheck {
        action: ActionKind::Idle,
        state: ActionState::Moving {
            action: ActionKind::Idle,
        },
        has_target: true,
        ..base
    };
    assert!(check(RENDER_SCHEMA_VERSION, 128, 128, &grid, &[moving_idle], 1, &[]).is_err());
    for (action, state, has_target) in [
        (ActionKind::Eat, ActionState::Idle, false),
        (ActionKind::Idle, ActionState::Idle, true),
        (ActionKind::Work, ActionState::Eating, true),
    ] {
        let person = PersonRenderCheck {
            action,
            state,
            has_target,
            ..base
        };
        assert!(check(RENDER_SCHEMA_VERSION, 128, 128, &grid, &[person], 1, &[]).is_err());
    }
}

#[test]
fn root_decode_rejects_the_same_invalid_person_wire() {
    let grid = open_grid();
    let bad = PersonRenderCheck {
        action: ActionKind::Idle,
        state: ActionState::Moving {
            action: ActionKind::Idle,
        },
        has_target: true,
        ..idle(1)
    };
    assert_eq!(
        check(RENDER_SCHEMA_VERSION, 128, 128, &grid, &[bad], 1, &base_sites()),
        Err(RenderError::ActionTargetMismatch { person: id(1) })
    );
}

#[test]
fn kfix_006_schema_one_and_bad_dimensions_are_rejected() {
    let grid = open_grid();
    let persons = [idle(1)];
    let sites = base_sites();
    for schema in [1, 99] {
        assert_eq!(
            check(schema, 128, 128, &grid, &persons, 1, &sites),
            Err(RenderError::UnsupportedSchemaVersion(schema))
        );
    }
    for (width, height) in [(0, 128), (127, 128), (129, 128), (128, 0), (128, 127), (128, 129)] {
        assert!(
            check(RENDER_SCHEMA_VERSION, width, height, &grid, &persons, 1, &sites).is_err(),
            "terrain {width}x{height} must be rejected"
        );
    }
    assert!(check(RENDER_SCHEMA_VERSION, 128, 128, &grid[..1], &persons, 1, &sites).is_err());
}

#[test]
fn kfix_006_action_state_target_correlation_is_enforced() {
    let grid = open_grid();
    let eating_idle = PersonRenderCheck {
        state: ActionState::Eating,
        action: ActionKind::Idle,
        ..idle(1)
    };
    assert!(check(RENDER_SCHEMA_VERSION, 128, 128, &grid, &[eating_idle], 1, &[]).is_err());
    let idle_with_target = PersonRenderCheck {
        has_target: true,
        ..idle(1)
    };
    assert!(check(RENDER_SCHEMA_VERSION, 128, 128, &grid, &[idle_with_target], 1, &[]).is_err());
}

#[test]
fn kfix_006_site_duplicate_and_unwalkable_are_rejected() {
    let mut grid = open_grid();
    let mut sites = base_sites();
    sites[1] = sites[0];
    assert!(check(RENDER_SCHEMA_VERSION, 128, 128, &grid, &[], 0, &sites).is_err());
    grid[0] = false;
    let mut sites = base_sites();
    sites[0] = site(0, 0);
    assert!(check(RENDER_SCHEMA_VERSION, 128, 128, &grid, &[], 0, &sites).is_err());
}

#[test]
fn malformed_wire_duplicate_or_zero_id_is_rejected() {
    let grid = open_grid();
    let base = [idle(1), idle(2)];
    assert_eq!(check(RENDER_SCHEMA_VERSION, 128, 128, &grid, &base, 2, &[]), Ok(()));
    assert!(EntityId::new(0).is_none());
    let dup = [idle(1), idle(1)];
    assert!(check(RENDER_SCHEMA_VERSION, 128, 128, &grid, &dup, 2, &[]).is_err());
    let unsorted = [idle(10), idle(1)];
    assert!(check(RENDER_SCHEMA_VERSION, 128, 128, &grid, &unsorted, 2, &[]).is_err());
    assert!(check(RENDER_SCHEMA_VERSION, 128, 128, &grid, &base, 1, &[]).is_err());
}
