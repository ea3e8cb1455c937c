//! Render snapshot vocabulary and validation: the schema version, the
//! metrics block presented to clients, and the structural checks a snapshot
//! must pass (schema, terrain size, person identities and actions, site
//! batch).

use vstd::prelude::*;

use crate::actions::{action_state_consistent, cell_text, consistent_spec, write_cell, ActionKind, ActionState};
use crate::entity::{lemma_entity_view_injective, EntityId};
use crate::kernel::{read_error_text, KernelReadError};
use crate::text::{decimal_text, u64_to_decimal};
use vstd::string::StringExecFns;

verus! {

/// Version of the render snapshot schema.
pub const RENDER_SCHEMA_VERSION: u16 = 2;

/// Developer metrics carried by a render snapshot.
#[derive(Clone, Copy, Debug, PartialEq, Eq, Structural)]
pub struct RenderMetrics {
    /// Number of presented persons.
    pub person_count: usize,
    /// Live scheduler payload depth under the action runtime.
    pub scheduler_queue_depth: usize,
    /// Total validated high-level outcome events accounted by the kernel.
    pub events_committed: u64,
    /// Outcome events currently buffered in the kernel.
    pub events_buffered: usize,
    /// Outcome events dropped by either retention buffer.
    pub buffer_rotations: u64,
    /// Persons with a live action execution record.
    pub live_actions: u64,
    /// Total advance rounds processed.
    pub rounds_total: u64,
    /// Total action transitions committed.
    pub transitions_total: u64,
    /// Total decisions resolved.
    pub decisions_total: u64,
}

/// Columns of the local terrain grid.
pub const LOCAL_GRID_WIDTH: usize = 128;

/// Rows of the local terrain grid.
pub const LOCAL_GRID_HEIGHT: usize = 128;

/// Cells of the local terrain grid.
pub const LOCAL_GRID_CELL_COUNT: usize = 16_384;

/// A structural violation of a render snapshot. Cells are `(x, y)`.
#[derive(Clone, Copy, Debug, PartialEq, Eq)]
pub enum RenderError {
    /// The snapshot used an unsupported schema version.
    UnsupportedSchemaVersion(u16),
    /// The terrain batch dimensions were not exactly 128x128.
    InvalidDimensions {
        /// Provided width.
        width: usize,
        /// Provided height.
        height: usize,
    },
    /// The terrain grid was not exactly the local map.
    InvalidCellCount {
        /// Required cell count.
        expected: usize,
        /// Provided cell count.
        got: usize,
    },
    /// Two persons presented the same stable identity.
    DuplicatePersonId(EntityId),
    /// The person batch was not ascending by identity.
    UnsortedPersons {
        /// The first out-of-order position.
        position: usize,
    },
    /// The reported metric person count disagreed with the batch length.
    MetricCountMismatch {
        /// Expected count from the batch.
        expected: usize,
        /// Reported metric count.
        got: usize,
    },
    /// A person's action/state/target combination is inconsistent.
    ActionTargetMismatch {
        /// The offending person.
        person: EntityId,
    },
    /// Two sites shared a cell.
    DuplicateSite((i32, i32)),
    /// The site batch was not ascending by `(y, x)`.
    UnsortedSites {
        /// The first out-of-order cell.
        coord: (i32, i32),
    },
    /// A site cell lay outside the terrain batch.
    SiteOutOfBounds((i32, i32)),
    /// A site cell was not walkable on the terrain batch.
    UnwalkableSite((i32, i32)),
    /// The kernel is faulted and no live snapshot can be built.
    KernelFaulted,
    /// A complete-boundary read failed its time invariant.
    KernelRead(KernelReadError),
}

/// The message of a render failure.
pub open spec fn render_error_text(error: RenderError) -> Seq<char> {
    match error {
        RenderError::UnsupportedSchemaVersion(version) => "unsupported render schema version "@
            + decimal_text(version as nat),
        RenderError::InvalidDimensions { width, height } => "terrain dimensions must be 128x128, got "@
            + decimal_text(width as nat) + "x"@ + decimal_text(height as nat),
        RenderError::InvalidCellCount { expected, got } => "terrain needs exactly "@ + decimal_text(
            expected as nat,
        ) + " cells, got "@ + decimal_text(got as nat),
        RenderError::DuplicatePersonId(id) => "duplicate person id "@ + decimal_text(id@ as nat),
        RenderError::UnsortedPersons { position } => "person batch is out of order at "@
            + decimal_text(position as nat),
        RenderError::MetricCountMismatch { expected, got } => "metric person count "@
            + decimal_text(got as nat) + " does not match batch "@ + decimal_text(expected as nat),
        RenderError::ActionTargetMismatch { person } => "person "@ + decimal_text(person@ as nat)
            + " action/state/target is inconsistent"@,
        RenderError::DuplicateSite(coord) => "duplicate activity site at "@ + cell_text(coord),
        RenderError::UnsortedSites { coord } => "site batch is out of order at "@ + cell_text(
            coord,
        ),
        RenderError::SiteOutOfBounds(coord) => "activity site "@ + cell_text(coord)
            + " is out of bounds"@,
        RenderError::UnwalkableSite(coord) => "activity site "@ + cell_text(coord)
            + " is not walkable"@,
        RenderError::KernelFaulted => "kernel is faulted; no snapshot available"@,
        RenderError::KernelRead(source) => "kernel read failed: "@ + read_error_text(source),
    }
}

impl RenderError {
    /// The message of this failure.
    pub fn to_string(&self) -> (text: String)
        ensures
            text@ == render_error_text(*self),
    {
        match self {
            RenderError::UnsupportedSchemaVersion(version) => {
                "unsupported render schema version ".to_owned().concat(
                    u64_to_decimal(*version as u64).as_str(),
                )
            },
            RenderError::InvalidDimensions { width, height } => {
                "terrain dimensions must be 128x128, got ".to_owned().concat(
                    u64_to_decimal(*width as u64).as_str(),
                ).concat("x").concat(u64_to_decimal(*height as u64).as_str())
            },
            RenderError::InvalidCellCount { expected, got } => {
                "terrain needs exactly ".to_owned().concat(
                    u64_to_decimal(*expected as u64).as_str(),
                ).concat(" cells, got ").concat(u64_to_decimal(*got as u64).as_str())
            },
            RenderError::DuplicatePersonId(id) => "duplicate person id ".to_owned().concat(
                u64_to_decimal(id.get()).as_str(),
            ),
            RenderError::UnsortedPersons { position } => {
                "person batch is out of order at ".to_owned().concat(
                    u64_to_decimal(*position as u64).as_str(),
                )
            },
            RenderError::MetricCountMismatch { expected, got } => {
                "metric person count ".to_owned().concat(u64_to_decimal(*got as u64).as_str()).concat(
                    " does not match batch ",
                ).concat(u64_to_decimal(*expected as u64).as_str())
            },
            RenderError::ActionTargetMismatch { person } => "person ".to_owned().concat(
                u64_to_decimal(person.get()).as_str(),
            ).concat(" action/state/target is inconsistent"),
            RenderError::DuplicateSite(coord) => "duplicate activity site at ".to_owned().concat(
                write_cell(*coord).as_str(),
            ),
            RenderError::UnsortedSites { coord } => {
                "site batch is out of order at ".to_owned().concat(write_cell(*coord).as_str())
            },
            RenderError::SiteOutOfBounds(coord) => "activity site ".to_owned().concat(
                write_cell(*coord).as_str(),
            ).concat(" is out of bounds"),
            RenderError::UnwalkableSite(coord) => "activity site ".to_owned().concat(
                write_cell(*coord).as_str(),
            ).concat(" is not walkable"),
            RenderError::KernelFaulted => "kernel is faulted; no snapshot available".to_owned(),
            RenderError::KernelRead(source) => "kernel read failed: ".to_owned().concat(
                source.to_string().as_str(),
            ),
        }
    }
}

/// The render failure for a failed kernel read: a faulted kernel is reported
/// as such, any other read failure is carried.
pub fn render_error_from_read(source: KernelReadError) -> (error: RenderError)
    ensures
        error == match source {
            KernelReadError::KernelFaulted => RenderError::KernelFaulted,
            KernelReadError::InvalidNeedsTime { .. } => RenderError::KernelRead(source),
        },
{
    match source {
        KernelReadError::KernelFaulted => RenderError::KernelFaulted,
        KernelReadError::InvalidNeedsTime { .. } => RenderError::KernelRead(source),
    }
}

/// What snapshot validation reads of one presented person.
#[derive(Clone, Copy, Debug, PartialEq, Eq, Structural)]
pub struct PersonRenderCheck {
    /// The person's stable identity.
    pub id: EntityId,
    /// The top-level action kind.
    pub action: ActionKind,
    /// The observable action state.
    pub state: ActionState,
    /// Whether the person has an action target.
    pub has_target: bool,
}

/// What snapshot validation reads of one activity site: its cell.
#[derive(Clone, Copy, Debug, PartialEq, Eq, Structural)]
pub struct SiteRenderCheck {
    /// Column of the site.
    pub x: i32,
    /// Row of the site.
    pub y: i32,
}

/// The fault of the person at `i`, given the persons before it: a repeated
/// identity, an identity below its predecessor's, or an inconsistent
/// action, state and target.
pub open spec fn person_fault(persons: Seq<PersonRenderCheck>, i: int) -> Option<RenderError> {
    let p = persons[i];
    if exists|j: int| 0 <= j < i && (#[trigger] persons[j]).id == p.id {
        Some(RenderError::DuplicatePersonId(p.id))
    } else if i > 0 && p.id@ < persons[i - 1].id@ {
        Some(RenderError::UnsortedPersons { position: i as usize })
    } else if !consistent_spec(p.state, p.action, p.has_target) {
        Some(RenderError::ActionTargetMismatch { person: p.id })
    } else {
        None
    }
}

/// The first person fault among the first `n` persons.
pub open spec fn first_person_fault(persons: Seq<PersonRenderCheck>, n: int) -> Option<RenderError>
    decreases n,
{
    if n <= 0 {
        None
    } else {
        match first_person_fault(persons, n - 1) {
            Some(e) => Some(e),
            None => person_fault(persons, n - 1),
        }
    }
}

/// Whether `a` comes before `b` in `(y, x)` order.
pub open spec fn cell_before(a: SiteRenderCheck, b: SiteRenderCheck) -> bool {
    a.y < b.y || (a.y == b.y && a.x < b.x)
}

/// Whether a cell lies on the local grid.
pub open spec fn on_grid(site: SiteRenderCheck) -> bool {
    0 <= site.x < LOCAL_GRID_WIDTH && 0 <= site.y < LOCAL_GRID_HEIGHT
}

/// The row-major index of a cell on the local grid.
pub open spec fn cell_index(site: SiteRenderCheck) -> int {
    site.y * LOCAL_GRID_WIDTH + site.x
}

/// The fault of the site at `i`, given the sites before it: a repeated
/// cell, a cell before its predecessor's, a cell off the grid, or a cell
/// that is not walkable.
pub open spec fn site_fault(sites: Seq<SiteRenderCheck>, walkable: Seq<bool>, i: int) -> Option<
    RenderError,
> {
    let s = sites[i];
    if exists|j: int| 0 <= j < i && #[trigger] sites[j] == s {
        Some(RenderError::DuplicateSite((s.x, s.y)))
    } else if i > 0 && cell_before(s, sites[i - 1]) {
        Some(RenderError::UnsortedSites { coord: (s.x, s.y) })
    } else if !on_grid(s) || cell_index(s) >= walkable.len() {
        Some(RenderError::SiteOutOfBounds((s.x, s.y)))
    } else if !walkable[cell_index(s)] {
        Some(RenderError::UnwalkableSite((s.x, s.y)))
    } else {
        None
    }
}

/// The first site fault among the first `n` sites.
pub open spec fn first_site_fault(sites: Seq<SiteRenderCheck>, walkable: Seq<bool>, n: int) -> Option<
    RenderError,
>
    decreases n,
{
    if n <= 0 {
        None
    } else {
        match first_site_fault(sites, walkable, n - 1) {
            Some(e) => Some(e),
            None => site_fault(sites, walkable, n - 1),
        }
    }
}

/// The first structural violation of a snapshot, in check order: schema,
/// terrain dimensions, cell count, persons, metric count, sites.
pub open spec fn render_fault(
    schema_version: u16,
    width: usize,
    height: usize,
    walkable: Seq<bool>,
    persons: Seq<PersonRenderCheck>,
    metric_person_count: usize,
    sites: Seq<SiteRenderCheck>,
) -> Option<RenderError> {
    if schema_version != RENDER_SCHEMA_VERSION {
        Some(RenderError::UnsupportedSchemaVersion(schema_version))
    } else if width != LOCAL_GRID_WIDTH || height != LOCAL_GRID_HEIGHT {
        Some(RenderError::InvalidDimensions { width, height })
    } else if walkable.len() != LOCAL_GRID_CELL_COUNT {
        Some(RenderError::InvalidCellCount { expected: LOCAL_GRID_CELL_COUNT, got: walkable.len() as usize })
    } else if first_person_fault(persons, persons.len() as int) is Some {
        first_person_fault(persons, persons.len() as int)
    } else if metric_person_count != persons.len() {
        Some(RenderError::MetricCountMismatch { expected: persons.len() as usize, got: metric_person_count })
    } else {
        first_site_fault(sites, walkable, sites.len() as int)
    }
}

/// Once a first person fault is found, longer prefixes report the same one.
proof fn lemma_first_person_fault_stays(persons: Seq<PersonRenderCheck>, m: int, n: int)
    requires
        0 <= m <= n,
        first_person_fault(persons, m) is Some,
    ensures
        first_person_fault(persons, n) == first_person_fault(persons, m),
    decreases n - m,
{
    if n > m {
        lemma_first_person_fault_stays(persons, m, n - 1);
    }
}

/// Once a first site fault is found, longer prefixes report the same one.
proof fn lemma_first_site_fault_stays(sites: Seq<SiteRenderCheck>, walkable: Seq<bool>, m: int, n: int)
    requires
        0 <= m <= n,
        first_site_fault(sites, walkable, m) is Some,
    ensures
        first_site_fault(sites, walkable, n) == first_site_fault(sites, walkable, m),
    decreases n - m,
{
    if n > m {
        lemma_first_site_fault_stays(sites, walkable, m, n - 1);
    }
}

/// Checks the person batch: identities unique and ascending, and each
/// person's action, state and target consistent.
fn validate_persons(persons: &[PersonRenderCheck]) -> (result: Result<(), RenderError>)
    ensures
        match result {
            Ok(()) => first_person_fault(persons@, persons@.len() as int) is None,
            Err(e) => first_person_fault(persons@, persons@.len() as int) == Some(e),
        },
{
    let mut i: usize = 0;
    while i < persons.len()
        invariant
            0 <= i <= persons@.len(),
            first_person_fault(persons@, i as int) is None,
        decreases persons@.len() - i,
    {
        let p = persons[i];
        let mut j: usize = 0;
        while j < i
            invariant
                0 <= j <= i < persons@.len(),
                p == persons@[i as int],
                first_person_fault(persons@, i as int) is None,
                forall|k: int| 0 <= k < j ==> (#[trigger] persons@[k]).id != p.id,
            decreases i - j,
        {
            if persons[j].id == p.id {
                proof {
                    assert(persons@[j as int].id == p.id);
                    assert(person_fault(persons@, i as int) == Some(RenderError::DuplicatePersonId(p.id)));
                    assert(first_person_fault(persons@, i as int + 1) == Some(RenderError::DuplicatePersonId(p.id)));
                    lemma_first_person_fault_stays(persons@, i as int + 1, persons@.len() as int);
                }
                return Err(RenderError::DuplicatePersonId(p.id));
            }
            j = j + 1;
        }
        if i > 0 && p.id.get() < persons[i - 1].id.get() {
            proof {
                lemma_first_person_fault_stays(persons@, i as int + 1, persons@.len() as int);
            }
            return Err(RenderError::UnsortedPersons { position: i });
        }
        if !action_state_consistent(p.state, p.action, p.has_target) {
            proof {
                lemma_first_person_fault_stays(persons@, i as int + 1, persons@.len() as int);
            }
            return Err(RenderError::ActionTargetMismatch { person: p.id });
        }
        i = i + 1;
    }
    Ok(())
}

/// Checks the site batch: cells unique and ascending by `(y, x)`, on the
/// grid, and walkable.
fn validate_sites(sites: &[SiteRenderCheck], walkable: &[bool]) -> (result: Result<(), RenderError>)
    ensures
        match result {
            Ok(()) => first_site_fault(sites@, walkable@, sites@.len() as int) is None,
            Err(e) => first_site_fault(sites@, walkable@, sites@.len() as int) == Some(e),
        },
{
    let mut i: usize = 0;
    while i < sites.len()
        invariant
            0 <= i <= sites@.len(),
            first_site_fault(sites@, walkable@, i as int) is None,
        decreases sites@.len() - i,
    {
        let s = sites[i];
        let mut j: usize = 0;
        while j < i
            invariant
                0 <= j <= i < sites@.len(),
                s == sites@[i as int],
                first_site_fault(sites@, walkable@, i as int) is None,
                forall|k: int| 0 <= k < j ==> #[trigger] sites@[k] != s,
            decreases i - j,
        {
            if sites[j].x == s.x && sites[j].y == s.y {
                proof {
                    assert(sites@[j as int] == s);
                    assert(site_fault(sites@, walkable@, i as int) == Some(RenderError::DuplicateSite((s.x, s.y))));
                    assert(first_site_fault(sites@, walkable@, i as int + 1) == Some(RenderError::DuplicateSite((s.x, s.y))));
                    lemma_first_site_fault_stays(sites@, walkable@, i as int + 1, sites@.len() as int);
                }
                return Err(RenderError::DuplicateSite((s.x, s.y)));
            }
            j = j + 1;
        }
        if i > 0 && (s.y < sites[i - 1].y || (s.y == sites[i - 1].y && s.x < sites[i - 1].x)) {
            proof {
                lemma_first_site_fault_stays(sites@, walkable@, i as int + 1, sites@.len() as int);
            }
            return Err(RenderError::UnsortedSites { coord: (s.x, s.y) });
        }
        if s.x < 0 || s.x >= 128 || s.y < 0 || s.y >= 128 {
            proof {
                lemma_first_site_fault_stays(sites@, walkable@, i as int + 1, sites@.len() as int);
            }
            return Err(RenderError::SiteOutOfBounds((s.x, s.y)));
        }
        let row: usize = s.y as usize;
        let column: usize = s.x as usize;
        assert(row * 128 + column < 16_384) by (nonlinear_arith)
            requires
                row < 128,
                column < 128,
        ;
        let index: usize = row * 128 + column;
        if index >= walkable.len() {
            proof {
                lemma_first_site_fault_stays(sites@, walkable@, i as int + 1, sites@.len() as int);
            }
            return Err(RenderError::SiteOutOfBounds((s.x, s.y)));
        }
        if !walkable[index] {
            proof {
                lemma_first_site_fault_stays(sites@, walkable@, i as int + 1, sites@.len() as int);
            }
            return Err(RenderError::UnwalkableSite((s.x, s.y)));
        }
        i = i + 1;
    }
    Ok(())
}

/// Validates the structural invariants of a render snapshot, reporting the
/// first violation in check order: the schema version, the exact 128x128
/// terrain and its cell count (`walkable` holds each cell's walkability,
/// row by row), the person batch, the metric person count, and the site
/// batch.
pub fn validate_render(
    schema_version: u16,
    width: usize,
    height: usize,
    walkable: &[bool],
    persons: &[PersonRenderCheck],
    metric_person_count: usize,
    sites: &[SiteRenderCheck],
) -> (result: Result<(), RenderError>)
    ensures
        match result {
            Ok(()) => render_fault(
                schema_version,
                width,
                height,
                walkable@,
                persons@,
                metric_person_count,
                sites@,
            ) is None,
            Err(e) => render_fault(
                schema_version,
                width,
                height,
                walkable@,
                persons@,
                metric_person_count,
                sites@,
            ) == Some(e),
        },
{
    if schema_version != RENDER_SCHEMA_VERSION {
        return Err(RenderError::UnsupportedSchemaVersion(schema_version));
    }
    if width != LOCAL_GRID_WIDTH || height != LOCAL_GRID_HEIGHT {
        return Err(RenderError::InvalidDimensions { width, height });
    }
    if walkable.len() != LOCAL_GRID_CELL_COUNT {
        return Err(RenderError::InvalidCellCount { expected: LOCAL_GRID_CELL_COUNT, got: walkable.len() });
    }
    validate_persons(persons)?;
    if metric_person_count != persons.len() {
        return Err(RenderError::MetricCountMismatch { expected: persons.len(), got: metric_person_count });
    }
    validate_sites(sites, walkable)
}

/// No person fault among the first `n` persons means each of them passes.
proof fn lemma_no_person_fault(persons: Seq<PersonRenderCheck>, n: int, i: int)
    requires
        0 <= i < n <= persons.len(),
        first_person_fault(persons, n) is None,
    ensures
        person_fault(persons, i) is None,
    decreases n,
{
    if i < n - 1 {
        lemma_no_person_fault(persons, n - 1, i);
    }
}

/// No site fault among the first `n` sites means each of them passes.
proof fn lemma_no_site_fault(sites: Seq<SiteRenderCheck>, walkable: Seq<bool>, n: int, i: int)
    requires
        0 <= i < n <= sites.len(),
        first_site_fault(sites, walkable, n) is None,
    ensures
        site_fault(sites, walkable, i) is None,
    decreases n,
{
    if i < n - 1 {
        lemma_no_site_fault(sites, walkable, n - 1, i);
    }
}

/// A person that passes its checks has a larger identity than the one
/// before it.
proof fn lemma_person_follows(persons: Seq<PersonRenderCheck>, i: int)
    requires
        0 < i < persons.len(),
        person_fault(persons, i) is None,
    ensures
        persons[i - 1].id@ < persons[i].id@,
{
    let prev = persons[i - 1];
    let cur = persons[i];
    assert(!(exists|j: int| 0 <= j < i && (#[trigger] persons[j]).id == cur.id));
    assert(prev.id != cur.id) by {
        if prev.id == cur.id {
            assert(exists|j: int| 0 <= j < i && (#[trigger] persons[j]).id == cur.id) by {
                assert(persons[i - 1].id == cur.id);
            }
        }
    }
    lemma_entity_view_injective(prev.id, cur.id);
    assert(!(prev.id@ == cur.id@));
    assert(!(cur.id@ < prev.id@));
}

/// Persons that pass their checks are in strictly ascending identity
/// order.
proof fn lemma_ids_ascending(persons: Seq<PersonRenderCheck>, i: int, j: int)
    requires
        0 <= i < j < persons.len(),
        first_person_fault(persons, persons.len() as int) is None,
    ensures
        persons[i].id@ < persons[j].id@,
    decreases j - i,
{
    lemma_no_person_fault(persons, persons.len() as int, j);
    lemma_person_follows(persons, j);
    if j > i + 1 {
        lemma_ids_ascending(persons, i, j - 1);
    }
}

/// A site that passes its checks comes after the one before it.
proof fn lemma_site_follows(sites: Seq<SiteRenderCheck>, walkable: Seq<bool>, i: int)
    requires
        0 < i < sites.len(),
        site_fault(sites, walkable, i) is None,
    ensures
        cell_before(sites[i - 1], sites[i]),
{
    let prev = sites[i - 1];
    let cur = sites[i];
    assert(!(exists|j: int| 0 <= j < i && #[trigger] sites[j] == cur));
    assert(prev != cur) by {
        if prev == cur {
            assert(exists|j: int| 0 <= j < i && #[trigger] sites[j] == cur) by {
                assert(sites[i - 1] == cur);
            }
        }
    }
    assert(!cell_before(cur, prev));
}

/// Sites that pass their checks are in strictly ascending `(y, x)` order.
proof fn lemma_sites_ascending(sites: Seq<SiteRenderCheck>, walkable: Seq<bool>, i: int, j: int)
    requires
        0 <= i < j < sites.len(),
        first_site_fault(sites, walkable, sites.len() as int) is None,
    ensures
        cell_before(sites[i], sites[j]),
    decreases j - i,
{
    lemma_no_site_fault(sites, walkable, sites.len() as int, j);
    lemma_site_follows(sites, walkable, j);
    if j > i + 1 {
        lemma_sites_ascending(sites, walkable, i, j - 1);
    }
}

/// A snapshot that validates has the current schema and the exact 128x128
/// terrain, presents persons in strictly ascending identity order with a
/// consistent action, state and target each, reports their number, and
/// lists sites in strictly ascending `(y, x)` order, each on a walkable
/// cell of the grid.
pub proof fn law_valid_render_snapshots_are_well_formed(
    schema_version: u16,
    width: usize,
    height: usize,
    walkable: Seq<bool>,
    persons: Seq<PersonRenderCheck>,
    metric_person_count: usize,
    sites: Seq<SiteRenderCheck>,
)
    requires
        render_fault(schema_version, width, height, walkable, persons, metric_person_count, sites)
            is None,
    ensures
        schema_version == RENDER_SCHEMA_VERSION,
        width == LOCAL_GRID_WIDTH && height == LOCAL_GRID_HEIGHT,
        walkable.len() == LOCAL_GRID_CELL_COUNT,
        metric_person_count == persons.len(),
        forall|i: int, j: int|
            0 <= i < j < persons.len() ==> (#[trigger] persons[i]).id@ < (#[trigger] persons[j]).id@,
        forall|i: int|
            0 <= i < persons.len() ==> consistent_spec(
                (#[trigger] persons[i]).state,
                persons[i].action,
                persons[i].has_target,
            ),
        forall|i: int, j: int|
            0 <= i < j < sites.len() ==> cell_before(#[trigger] sites[i], #[trigger] sites[j]),
        forall|i: int|
            0 <= i < sites.len() ==> on_grid(#[trigger] sites[i]) && cell_index(sites[i])
                < walkable.len() && walkable[cell_index(sites[i])],
{
    assert(first_person_fault(persons, persons.len() as int) is None);
    assert(first_site_fault(sites, walkable, sites.len() as int) is None);
    assert forall|i: int, j: int| 0 <= i < j < persons.len() implies (#[trigger] persons[i]).id@ < (
    #[trigger] persons[j]).id@ by {
        lemma_ids_ascending(persons, i, j);
    }
    assert forall|i: int| 0 <= i < persons.len() implies consistent_spec(
        (#[trigger] persons[i]).state,
        persons[i].action,
        persons[i].has_target,
    ) by {
        lemma_no_person_fault(persons, persons.len() as int, i);
    }
    assert forall|i: int, j: int| 0 <= i < j < sites.len() implies cell_before(
        #[trigger] sites[i],
        #[trigger] sites[j],
    ) by {
        lemma_sites_ascending(sites, walkable, i, j);
    }
    assert forall|i: int| 0 <= i < sites.len() implies on_grid(#[trigger] sites[i]) && cell_index(
        sites[i],
    ) < walkable.len() && walkable[cell_index(sites[i])] by {
        lemma_no_site_fault(sites, walkable, sites.len() as int, i);
    }
}

} // verus!
