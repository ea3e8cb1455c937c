//! The long-run chaos instrument: run configuration, typed violations, the
//! detectors applied at every committed boundary, the liveness guard, and
//! the per-person completion accounting of the final report.

use vstd::prelude::*;
use vstd::string::StringExecFns;

use crate::actions::{consistent_spec, action_state_consistent, ActionKind, ActionState};
use crate::entity::EntityId;
use crate::events::{validation_error, validation_text, EventRecord};
use crate::kernel::{kernel_error_text, KernelError, KernelMetrics};
use crate::text::{decimal_text, i64_to_decimal, signed_decimal_text, u64_to_decimal};

verus! {

/// Simulated seconds per day.
pub const SECONDS_PER_DAY: i64 = 86_400;

/// Days per calendar year.
pub const DAYS_PER_YEAR: i64 = 365;

/// Simulated seconds per year.
pub const SECONDS_PER_YEAR: i64 = SECONDS_PER_DAY * DAYS_PER_YEAR;

/// The long-run horizon: ten simulated years.
pub const TEN_YEARS_SECONDS: i64 = SECONDS_PER_YEAR * 10;

/// Consecutive advance calls without progress before the liveness guard
/// reports non-termination.
pub const MAX_STALLED_ADVANCE_CALLS: usize = 1_024;

/// Hard cap on advance calls within one simulated-day window.
pub const MAX_ADVANCE_CALLS_PER_DAY: usize = 1_048_576;

/// Full scale of a person's hunger or fatigue drive, in raw units.
pub const NEED_MAX: i64 = 100_000;

/// The configuration of one chaos run.
#[derive(Clone, Copy, Debug, PartialEq, Eq, Structural)]
pub struct ChaosConfig {
    /// The world-generation seed.
    pub seed: u64,
    /// The number of persons to spawn.
    pub person_count: usize,
    /// The number of simulated years to advance.
    pub years: u64,
    /// The simulated seconds per year.
    pub sim_seconds_per_year: i64,
}

/// Observable lifecycle boundaries of a supervised chaos run.
#[derive(Clone, Copy, Debug, PartialEq, Eq, Structural)]
pub enum ChaosCheckpoint {
    Prepared,
    Advance,
    Day,
    Complete,
}

/// A typed failure that aborts a chaos run.
#[derive(Clone, Debug, PartialEq, Eq)]
pub enum ChaosError {
    /// An integer quantity left its documented inclusive bounds.
    NonFinite {
        /// The offending person.
        person: EntityId,
        /// The quantity label.
        field: &'static str,
        /// The observed value.
        value: i64,
        /// The inclusive lower bound.
        min: i64,
        /// The inclusive upper bound.
        max: i64,
    },
    /// The scheduler queue exceeded a documented correctness bound.
    QueueGrowth {
        /// The diagnostic key.
        key: &'static str,
        /// The observed size.
        value: usize,
        /// The documented bound.
        limit: usize,
    },
    /// An event referenced an identity that does not resolve.
    DanglingReference {
        /// Human-readable detail.
        detail: String,
    },
    /// Any other documented invariant was violated.
    Invariant {
        /// The rule label.
        rule: &'static str,
        /// Human-readable detail.
        detail: String,
    },
    /// The committed instant stalled across many calls.
    NonTerminating {
        /// The stalled committed instant, in seconds.
        committed_to_seconds: i64,
        /// How many consecutive calls made no progress.
        stalled_calls: usize,
    },
    /// The live population count changed.
    Population {
        /// Expected count.
        expected: usize,
        /// Observed count.
        actual: usize,
    },
    /// The configuration is invalid.
    Config(String),
    /// No walkable component contains a Meal, a Rest and a Work site.
    NoReachableFixture {
        /// Why the fixture could not be resolved.
        reason: String,
    },
    /// A per-person hard condition was not reached by the end.
    UnmetCompletion {
        /// Human-readable detail.
        detail: String,
    },
    /// The kernel rejected an operation or failed.
    Kernel(KernelError),
}

/// Whether `error` is a configuration error with message `message`.
pub open spec fn is_config_error(error: ChaosError, message: Seq<char>) -> bool {
    match error {
        ChaosError::Config(text) => text@ == message,
        _ => false,
    }
}

/// The horizon `years * sim_seconds_per_year`, when it fits an `i64`.
pub open spec fn horizon(config: ChaosConfig) -> Option<i64> {
    let product = config.years * config.sim_seconds_per_year;
    if config.years <= i64::MAX && i64::MIN <= product <= i64::MAX {
        Some(product as i64)
    } else {
        None
    }
}

impl Default for ChaosConfig {
    /// Seed 42, one hundred persons, ten years of 365 days.
    fn default() -> (config: ChaosConfig)
        ensures
            config == (ChaosConfig {
                seed: 42,
                person_count: 100,
                years: 10,
                sim_seconds_per_year: SECONDS_PER_YEAR,
            }),
    {
        ChaosConfig { seed: 42, person_count: 100, years: 10, sim_seconds_per_year: SECONDS_PER_YEAR }
    }
}

impl ChaosConfig {
    /// The target simulated instant, in seconds from the epoch.
    ///
    /// Fails with a configuration error when `years` does not fit an `i64`
    /// or the horizon overflows `i64`.
    pub fn target_seconds(&self) -> (target: Result<i64, ChaosError>)
        ensures
            match target {
                Ok(t) => horizon(*self) == Some(t),
                Err(error) => {
                    &&& horizon(*self) is None
                    &&& if self.years > i64::MAX {
                        is_config_error(error, "years does not fit an i64 second budget"@)
                    } else {
                        is_config_error(error, "horizon overflows i64 seconds"@)
                    }
                },
            },
    {
        if self.years > i64::MAX as u64 {
            return Err(ChaosError::Config("years does not fit an i64 second budget".to_owned()));
        }
        let years = self.years as i64;
        match years.checked_mul(self.sim_seconds_per_year) {
            Some(t) => Ok(t),
            None => Err(ChaosError::Config("horizon overflows i64 seconds".to_owned())),
        }
    }

    /// Checks the configuration before a fixture is built and returns the
    /// horizon: the person count, the years and the year length must be
    /// positive, in that order, and the horizon must fit and be positive.
    pub fn validate(&self) -> (target: Result<i64, ChaosError>)
        ensures
            match target {
                Ok(t) => {
                    &&& self.person_count > 0
                    &&& self.years > 0
                    &&& self.sim_seconds_per_year > 0
                    &&& horizon(*self) == Some(t)
                    &&& t > 0
                },
                Err(error) => if self.person_count == 0 {
                    is_config_error(error, "person_count must be positive"@)
                } else if self.years == 0 {
                    is_config_error(error, "years must be positive"@)
                } else if self.sim_seconds_per_year <= 0 {
                    is_config_error(error, "sim_seconds_per_year must be positive"@)
                } else if self.years > i64::MAX {
                    is_config_error(error, "years does not fit an i64 second budget"@)
                } else if horizon(*self) is None {
                    is_config_error(error, "horizon overflows i64 seconds"@)
                } else {
                    horizon(*self)->Some_0 <= 0 && is_config_error(
                        error,
                        "horizon must be positive"@,
                    )
                },
            },
    {
        if self.person_count == 0 {
            return Err(ChaosError::Config("person_count must be positive".to_owned()));
        }
        if self.years == 0 {
            return Err(ChaosError::Config("years must be positive".to_owned()));
        }
        if self.sim_seconds_per_year <= 0 {
            return Err(ChaosError::Config("sim_seconds_per_year must be positive".to_owned()));
        }
        let target = match self.target_seconds() {
            Ok(t) => t,
            Err(error) => return Err(error),
        };
        if target <= 0 {
            return Err(ChaosError::Config("horizon must be positive".to_owned()));
        }
        Ok(target)
    }
}

/// `u64` addition that stops at the maximum.
pub open spec fn sat_add(a: u64, b: u64) -> u64 {
    if a + b > u64::MAX { u64::MAX } else { (a + b) as u64 }
}

/// `usize` addition that stops at the maximum.
pub open spec fn sat_add_usize(a: usize, b: usize) -> usize {
    if a + b > usize::MAX { usize::MAX } else { (a + b) as usize }
}

/// Per-person committed action completions.
#[derive(Clone, Copy, Debug, Default, PartialEq, Eq, Structural)]
pub struct PerPersonCompletions {
    /// Completed standalone `Move` actions.
    pub moves: u64,
    /// Completed `Eat` actions.
    pub eats: u64,
    /// Completed `Sleep` actions.
    pub sleeps: u64,
    /// Completed `Work` actions.
    pub works: u64,
    /// Completed nonzero-distance movement phases.
    pub movement_phases: u64,
}

/// How many of Eat, Sleep, Work and a movement phase were observed.
pub open spec fn kinds_observed(c: PerPersonCompletions) -> u32 {
    ((if c.eats > 0 { 1int } else { 0int }) + (if c.sleeps > 0 { 1int } else { 0int }) + (if c.works
        > 0 { 1int } else { 0int }) + (if c.movement_phases > 0 { 1int } else { 0int })) as u32
}

/// Field-wise saturating sum of two completion records.
pub open spec fn completions_sum(a: PerPersonCompletions, b: PerPersonCompletions) -> PerPersonCompletions {
    PerPersonCompletions {
        moves: sat_add(a.moves, b.moves),
        eats: sat_add(a.eats, b.eats),
        sleeps: sat_add(a.sleeps, b.sleeps),
        works: sat_add(a.works, b.works),
        movement_phases: sat_add(a.movement_phases, b.movement_phases),
    }
}

/// The all-zero completion record.
pub open spec fn no_completions() -> PerPersonCompletions {
    PerPersonCompletions { moves: 0, eats: 0, sleeps: 0, works: 0, movement_phases: 0 }
}

/// Left fold of [`completions_sum`] over `rows`, from the zero record.
pub open spec fn completions_total(rows: Seq<PerPersonCompletions>) -> PerPersonCompletions
    decreases rows.len(),
{
    if rows.len() == 0 {
        no_completions()
    } else {
        completions_sum(completions_total(rows.drop_last()), rows.last())
    }
}

/// How many of `rows` observed all four required kinds.
pub open spec fn complete_count(rows: Seq<PerPersonCompletions>) -> nat
    decreases rows.len(),
{
    if rows.len() == 0 {
        0
    } else {
        complete_count(rows.drop_last()) + if kinds_observed(rows.last()) == 4 {
            1nat
        } else {
            0nat
        }
    }
}

impl PerPersonCompletions {
    /// The number of the four required observations for a person: Eat,
    /// Sleep, Work, and a real movement phase. A standalone `Move` is not
    /// required.
    pub fn kinds_completed(&self) -> (kinds: u32)
        ensures
            kinds == kinds_observed(*self),
            kinds <= 4,
    {
        (if self.eats > 0 { 1u32 } else { 0u32 }) + (if self.sleeps > 0 { 1u32 } else { 0u32 }) + (
        if self.works > 0 { 1u32 } else { 0u32 }) + (if self.movement_phases > 0 { 1u32 } else { 0u32 })
    }

    /// Adds `other` field by field, saturating.
    pub fn accumulate(&mut self, other: PerPersonCompletions)
        ensures
            *final(self) == completions_sum(*old(self), other),
    {
        self.moves = self.moves.saturating_add(other.moves);
        self.eats = self.eats.saturating_add(other.eats);
        self.sleeps = self.sleeps.saturating_add(other.sleeps);
        self.works = self.works.saturating_add(other.works);
        self.movement_phases = self.movement_phases.saturating_add(other.movement_phases);
    }
}

/// The aggregate completion counts of the report: the saturating sum of
/// every person's record.
pub fn aggregate_completions(rows: &[PerPersonCompletions]) -> (total: PerPersonCompletions)
    ensures
        total == completions_total(rows@),
{
    let mut total = PerPersonCompletions {
        moves: 0,
        eats: 0,
        sleeps: 0,
        works: 0,
        movement_phases: 0,
    };
    let mut i: usize = 0;
    while i < rows.len()
        invariant
            0 <= i <= rows.len(),
            total == completions_total(rows@.subrange(0, i as int)),
        decreases rows.len() - i,
    {
        proof {
            assert(rows@.subrange(0, i as int + 1).drop_last() =~= rows@.subrange(0, i as int));
        }
        total.accumulate(rows[i]);
        i = i + 1;
    }
    assert(rows@.subrange(0, rows@.len() as int) =~= rows@);
    total
}

/// How many persons observed all four required kinds.
pub fn persons_completed_all_kinds(rows: &[PerPersonCompletions]) -> (count: usize)
    ensures
        count == complete_count(rows@),
{
    let mut count: usize = 0;
    let mut i: usize = 0;
    while i < rows.len()
        invariant
            0 <= i <= rows.len(),
            count == complete_count(rows@.subrange(0, i as int)),
            count <= i,
        decreases rows.len() - i,
    {
        proof {
            assert(rows@.subrange(0, i as int + 1).drop_last() =~= rows@.subrange(0, i as int));
        }
        if rows[i].kinds_completed() == 4 {
            count = count + 1;
        }
        i = i + 1;
    }
    assert(rows@.subrange(0, rows@.len() as int) =~= rows@);
    count
}

/// One per-person completion row of the report.
#[derive(Clone, Copy, Debug, PartialEq, Eq, Structural)]
pub struct PerPersonCompletionRow {
    /// The person's stable identity.
    pub id: u64,
    /// The completion counts.
    pub completions: PerPersonCompletions,
    /// Whether the person was ever observed in the Idle state.
    pub ever_idle: bool,
}

/// The message for a person who observed only `kinds` of the four kinds.
pub open spec fn unmet_text(id: u64, kinds: u32) -> Seq<char> {
    "person "@ + decimal_text(id as nat) + " completed "@ + decimal_text(kinds as nat)
        + " of 4 action kinds"@
}

/// The completion gate: every person must have observed Eat, Sleep, Work and
/// a movement phase; the first row, in order, that did not is reported.
pub fn require_all_kinds(rows: &[PerPersonCompletionRow]) -> (result: Result<(), ChaosError>)
    ensures
        match result {
            Ok(()) => forall|i: int| 0 <= i < rows@.len() ==> kinds_observed(
                #[trigger] rows@[i].completions,
            ) == 4,
            Err(ChaosError::UnmetCompletion { detail }) => exists|i: int|
                0 <= i < rows@.len() && kinds_observed(#[trigger] rows@[i].completions) != 4 && (
                forall|j: int| 0 <= j < i ==> kinds_observed(#[trigger] rows@[j].completions) == 4)
                    && detail@ == unmet_text(rows@[i].id, kinds_observed(rows@[i].completions)),
            Err(_) => false,
        },
{
    let mut i: usize = 0;
    while i < rows.len()
        invariant
            0 <= i <= rows.len(),
            forall|j: int| 0 <= j < i ==> kinds_observed(#[trigger] rows@[j].completions) == 4,
        decreases rows.len() - i,
    {
        let kinds = rows[i].completions.kinds_completed();
        if kinds != 4 {
            let detail = "person ".to_owned().concat(u64_to_decimal(rows[i].id).as_str()).concat(
                " completed ",
            ).concat(u64_to_decimal(kinds as u64).as_str()).concat(" of 4 action kinds");
            return Err(ChaosError::UnmetCompletion { detail });
        }
        i = i + 1;
    }
    Ok(())
}

/// State distribution of the population at one sampled boundary.
#[derive(Clone, Copy, Debug, Default, PartialEq, Eq, Structural)]
pub struct ActionCounts {
    /// Persons in the Idle state.
    pub idle: u64,
    /// Persons in a Moving phase.
    pub moving: u64,
    /// Persons actively Eating.
    pub eating: u64,
    /// Persons actively Sleeping.
    pub sleeping: u64,
    /// Persons actively Working.
    pub working: u64,
}

/// The label of a reported state, as the day samples count it.
pub open spec fn state_label_spec(state: ActionState) -> Seq<char> {
    match state {
        ActionState::Idle => "Idle"@,
        ActionState::Moving { .. } => "Moving"@,
        ActionState::Eating => "Eating"@,
        ActionState::Sleeping => "Sleeping"@,
        ActionState::Working => "Working"@,
    }
}

/// The label of a reported state, as the day samples count it.
pub fn person_view_action_kind(state: ActionState) -> (label: &'static str)
    ensures
        label@ == state_label_spec(state),
{
    match state {
        ActionState::Idle => "Idle",
        ActionState::Moving { .. } => "Moving",
        ActionState::Eating => "Eating",
        ActionState::Sleeping => "Sleeping",
        ActionState::Working => "Working",
    }
}

/// The counts after one more person was observed in `state`.
pub open spec fn tallied(counts: ActionCounts, state: ActionState) -> ActionCounts {
    match state {
        ActionState::Idle => ActionCounts { idle: sat_add(counts.idle, 1), ..counts },
        ActionState::Moving { .. } => ActionCounts { moving: sat_add(counts.moving, 1), ..counts },
        ActionState::Eating => ActionCounts { eating: sat_add(counts.eating, 1), ..counts },
        ActionState::Sleeping => ActionCounts { sleeping: sat_add(counts.sleeping, 1), ..counts },
        ActionState::Working => ActionCounts { working: sat_add(counts.working, 1), ..counts },
    }
}

impl ActionCounts {
    /// Counts one more person observed in `state`.
    pub fn tally(&mut self, state: ActionState)
        ensures
            *final(self) == tallied(*old(self), state),
    {
        match state {
            ActionState::Idle => self.idle = self.idle.saturating_add(1),
            ActionState::Moving { .. } => self.moving = self.moving.saturating_add(1),
            ActionState::Eating => self.eating = self.eating.saturating_add(1),
            ActionState::Sleeping => self.sleeping = self.sleeping.saturating_add(1),
            ActionState::Working => self.working = self.working.saturating_add(1),
        }
    }
}

/// The message for a person whose reported action does not add up.
pub open spec fn mismatch_text(person: EntityId) -> Seq<char> {
    "person "@ + decimal_text(person@ as nat) + " mismatch"@
}

/// Whether a target is acceptable: absent, or on a walkable cell and, while
/// performing an activity, the cell the person stands on.
pub open spec fn target_ok(
    state: ActionState,
    target: Option<(i32, i32)>,
    location: (i32, i32),
    target_walkable: bool,
) -> bool {
    match target {
        None => true,
        Some(t) => target_walkable && (!(state is Eating || state is Sleeping || state is Working)
            || t == location),
    }
}

/// The action/state/target consistency check of one person at a committed
/// boundary: the state must agree with the recorded action and target, and
/// the target, if any, must be walkable and, during an activity, the
/// person's own cell. `target_walkable` says whether the target cell is a
/// walkable cell of the map.
pub fn check_action_consistency(
    person: EntityId,
    state: ActionState,
    action: ActionKind,
    target: Option<(i32, i32)>,
    location: (i32, i32),
    target_walkable: bool,
) -> (result: Result<(), ChaosError>)
    ensures
        match result {
            Ok(()) => consistent_spec(state, action, target is Some) && target_ok(
                state,
                target,
                location,
                target_walkable,
            ),
            Err(ChaosError::Invariant { rule, detail }) => !(consistent_spec(
                state,
                action,
                target is Some,
            ) && target_ok(state, target, location, target_walkable)) && rule@
                == "action/state/target consistency"@ && detail@ == mismatch_text(person),
            Err(_) => false,
        },
{
    let valid = action_state_consistent(state, action, target.is_some());
    let at_activity = match state {
        ActionState::Eating | ActionState::Sleeping | ActionState::Working => true,
        _ => false,
    };
    let target_valid = match target {
        None => true,
        Some(t) => target_walkable && (!at_activity || (t.0 == location.0 && t.1 == location.1)),
    };
    if !valid || !target_valid {
        let detail = "person ".to_owned().concat(u64_to_decimal(person.get()).as_str()).concat(
            " mismatch",
        );
        return Err(ChaosError::Invariant { rule: "action/state/target consistency", detail });
    }
    Ok(())
}

/// A per-simulated-day checkpoint sample.
#[derive(Clone, Copy, Debug, PartialEq, Eq, Structural)]
pub struct DaySample {
    /// Day index, from one.
    pub day: u64,
    /// Committed instant at the day boundary, in seconds.
    pub seconds: i64,
    /// Population at the boundary.
    pub population: usize,
    /// State distribution.
    pub action_counts: ActionCounts,
    /// Live scheduler entries at the boundary.
    pub queue_depth: usize,
    /// Live and lazily invalidated scheduler nodes at the boundary.
    pub queue_nodes: usize,
    /// Buffered outcome events at the boundary.
    pub buffered_events: usize,
}

/// One value handed to the bounds detector.
#[derive(Clone, Copy)]
struct BoundedValue {
    label: &'static str,
    raw: i64,
    min: i64,
    max: i64,
}

/// Whether `error` reports `value` of `person` out of `[min, max]`.
pub open spec fn is_out_of_bounds(
    error: ChaosError,
    person: EntityId,
    label: Seq<char>,
    value: i64,
    min: i64,
    max: i64,
) -> bool {
    match error {
        ChaosError::NonFinite { person: p, field, value: v, min: lo, max: hi } => p == person
            && field@ == label && v == value && lo == min && hi == max,
        _ => false,
    }
}

/// Reports `value.raw` outside its inclusive bounds.
fn value_in_bounds(person: EntityId, value: BoundedValue) -> (error: Option<ChaosError>)
    ensures
        match error {
            Some(e) => (value.raw < value.min || value.raw > value.max) && is_out_of_bounds(
                e,
                person,
                value.label@,
                value.raw,
                value.min,
                value.max,
            ),
            None => value.min <= value.raw <= value.max,
        },
{
    if value.raw < value.min || value.raw > value.max {
        Some(
            ChaosError::NonFinite {
                person,
                field: value.label,
                value: value.raw,
                min: value.min,
                max: value.max,
            },
        )
    } else {
        None
    }
}

/// The per-person drive check: hunger, then fatigue, must lie in
/// `[0, NEED_MAX]`.
pub fn needs_in_bounds(person: EntityId, hunger: i64, fatigue: i64) -> (error: Option<ChaosError>)
    ensures
        match error {
            None => 0 <= hunger <= NEED_MAX && 0 <= fatigue <= NEED_MAX,
            Some(e) => if !(0 <= hunger <= NEED_MAX) {
                is_out_of_bounds(e, person, "hunger"@, hunger, 0, NEED_MAX)
            } else {
                !(0 <= fatigue <= NEED_MAX) && is_out_of_bounds(
                    e,
                    person,
                    "fatigue"@,
                    fatigue,
                    0,
                    NEED_MAX,
                )
            },
        },
{
    match value_in_bounds(person, BoundedValue { label: "hunger", raw: hunger, min: 0, max: NEED_MAX })
    {
        Some(error) => Some(error),
        None => value_in_bounds(
            person,
            BoundedValue { label: "fatigue", raw: fatigue, min: 0, max: NEED_MAX },
        ),
    }
}

/// Reports `value` above `limit` as queue growth under `key`.
pub fn queue_bounded(key: &'static str, value: usize, limit: usize) -> (error: Option<ChaosError>)
    ensures
        match error {
            Some(ChaosError::QueueGrowth { key: k, value: v, limit: l }) => value > limit && k@
                == key@ && v == value && l == limit,
            Some(_) => false,
            None => value <= limit,
        },
{
    if value > limit {
        Some(ChaosError::QueueGrowth { key, value, limit })
    } else {
        None
    }
}

/// The message for an actor outside the live population.
pub open spec fn dangling_actor_text(actor: EntityId) -> Seq<char> {
    "event actor "@ + decimal_text(actor@ as nat) + " is not a live population id"@
}

/// Reports `actor` when it is not a member of `population`.
pub fn actor_resolves(actor: EntityId, population: &[EntityId]) -> (error: Option<ChaosError>)
    ensures
        match error {
            Some(ChaosError::DanglingReference { detail }) => !population@.contains(actor)
                && detail@ == dangling_actor_text(actor),
            Some(_) => false,
            None => population@.contains(actor),
        },
{
    let mut i: usize = 0;
    while i < population.len()
        invariant
            0 <= i <= population.len(),
            forall|j: int| 0 <= j < i ==> population@[j] != actor,
        decreases population.len() - i,
    {
        if population[i] == actor {
            return None;
        }
        i = i + 1;
    }
    let detail = "event actor ".to_owned().concat(u64_to_decimal(actor.get()).as_str()).concat(
        " is not a live population id",
    );
    Some(ChaosError::DanglingReference { detail })
}

/// The documented live-entry and heap-size queue bounds for `person_count`:
/// at most two live items per person, and eight heap nodes per person
/// including lazily invalidated ones.
pub fn queue_limits(person_count: usize) -> (limits: (usize, usize))
    requires
        8 * person_count <= usize::MAX,
    ensures
        limits.0 == 2 * person_count,
        limits.1 == 8 * person_count,
{
    (2 * person_count, 8 * person_count)
}

/// The message when the event total is not the delivered, buffered and
/// rotated events together.
pub open spec fn accounting_text(accounted: u64, total: u64, buffered: usize, rotated: u64) -> Seq<
    char,
> {
    "accounted "@ + decimal_text(accounted as nat) + " != total "@ + decimal_text(total as nat)
        + " (buffered "@ + decimal_text(buffered as nat) + ", rotated "@ + decimal_text(
        rotated as nat,
    ) + ")"@
}

/// The queue-growth and buffer-identity checks at a committed boundary, in
/// order: live entries within `2 * person_count`, live plus stale nodes
/// within `8 * person_count`, and `delivered + buffered + rotated` equal to
/// the event total (each sum saturating).
pub fn check_queue_and_buffer(metrics: KernelMetrics, delivered: u64, person_count: usize) -> (result:
    Result<(), ChaosError>)
    requires
        8 * person_count <= usize::MAX,
    ensures
        ({
            let nodes = sat_add_usize(metrics.scheduler_queue_depth, metrics.scheduler_stale_nodes);
            let accounted = sat_add(
                sat_add(delivered, metrics.events_buffered as u64),
                metrics.events_rotated,
            );
            match result {
                Ok(()) => {
                    &&& metrics.scheduler_queue_depth <= 2 * person_count
                    &&& nodes <= 8 * person_count
                    &&& accounted == metrics.events_total
                },
                Err(ChaosError::QueueGrowth { key, value, limit }) => if metrics.scheduler_queue_depth
                    > 2 * person_count {
                    key@ == "scheduled_entries"@ && value == metrics.scheduler_queue_depth && limit
                        == 2 * person_count
                } else {
                    nodes > 8 * person_count && key@ == "queue_nodes"@ && value == nodes && limit
                        == 8 * person_count
                },
                Err(ChaosError::Invariant { rule, detail }) => {
                    &&& metrics.scheduler_queue_depth <= 2 * person_count
                    &&& nodes <= 8 * person_count
                    &&& accounted != metrics.events_total
                    &&& rule@ == "event_total = delivered + buffered + rotated"@
                    &&& detail@ == accounting_text(
                        accounted,
                        metrics.events_total,
                        metrics.events_buffered,
                        metrics.events_rotated,
                    )
                },
                Err(_) => false,
            }
        }),
{
    let (live_limit, node_limit) = queue_limits(person_count);
    match queue_bounded("scheduled_entries", metrics.scheduler_queue_depth, live_limit) {
        Some(error) => return Err(error),
        None => {},
    }
    let nodes = metrics.scheduler_queue_depth.saturating_add(metrics.scheduler_stale_nodes);
    match queue_bounded("queue_nodes", nodes, node_limit) {
        Some(error) => return Err(error),
        None => {},
    }
    let accounted = delivered.saturating_add(metrics.events_buffered as u64).saturating_add(
        metrics.events_rotated,
    );
    if accounted != metrics.events_total {
        let detail = "accounted ".to_owned().concat(u64_to_decimal(accounted).as_str()).concat(
            " != total ",
        ).concat(u64_to_decimal(metrics.events_total).as_str()).concat(" (buffered ").concat(
            u64_to_decimal(metrics.events_buffered as u64).as_str(),
        ).concat(", rotated ").concat(u64_to_decimal(metrics.events_rotated).as_str()).concat(")");
        return Err(
            ChaosError::Invariant { rule: "event_total = delivered + buffered + rotated", detail },
        );
    }
    Ok(())
}

/// Reports the first identity of `ids`, in order, outside `population`.
fn first_unresolved(ids: &[EntityId], population: &[EntityId]) -> (error: Option<ChaosError>)
    ensures
        match error {
            None => forall|i: int| 0 <= i < ids@.len() ==> population@.contains(#[trigger] ids@[i]),
            Some(ChaosError::DanglingReference { detail }) => exists|i: int|
                0 <= i < ids@.len() && !population@.contains(#[trigger] ids@[i]) && (forall|j: int|
                    0 <= j < i ==> population@.contains(#[trigger] ids@[j])) && detail@
                    == dangling_actor_text(ids@[i]),
            Some(_) => false,
        },
{
    let mut i: usize = 0;
    while i < ids.len()
        invariant
            0 <= i <= ids.len(),
            forall|j: int| 0 <= j < i ==> population@.contains(#[trigger] ids@[j]),
        decreases ids.len() - i,
    {
        match actor_resolves(ids[i], population) {
            Some(error) => return Some(error),
            None => {},
        }
        i = i + 1;
    }
    None
}

/// Whether every identity of `ids` is a member of `population`.
pub open spec fn all_resolve(ids: Seq<EntityId>, population: Seq<EntityId>) -> bool {
    forall|i: int| 0 <= i < ids.len() ==> population.contains(#[trigger] ids[i])
}

/// Checks a drained event: it validates, then every actor and then every
/// target is a member of `population`.
pub fn validate_event_references(record: &EventRecord, population: &[EntityId]) -> (result: Result<
    (),
    ChaosError,
>)
    ensures
        match result {
            Ok(()) => {
                &&& validation_error(record@) is None
                &&& all_resolve(record@.actors, population@)
                &&& all_resolve(record@.targets, population@)
            },
            Err(ChaosError::Invariant { rule, detail }) => {
                &&& validation_error(record@) is Some
                &&& rule@ == "event validation"@
                &&& detail@ == validation_text(validation_error(record@)->Some_0)
            },
            Err(ChaosError::DanglingReference { detail }) => {
                &&& validation_error(record@) is None
                &&& (if !all_resolve(record@.actors, population@) {
                    exists|i: int|
                        0 <= i < record@.actors.len() && !population@.contains(
                            #[trigger] record@.actors[i],
                        ) && (forall|j: int|
                            0 <= j < i ==> population@.contains(#[trigger] record@.actors[j]))
                            && detail@ == dangling_actor_text(record@.actors[i])
                } else {
                    exists|i: int|
                        0 <= i < record@.targets.len() && !population@.contains(
                            #[trigger] record@.targets[i],
                        ) && (forall|j: int|
                            0 <= j < i ==> population@.contains(#[trigger] record@.targets[j]))
                            && detail@ == dangling_actor_text(record@.targets[i])
                })
            },
            Err(_) => false,
        },
{
    match record.validate() {
        Ok(()) => {},
        Err(error) => {
            return Err(ChaosError::Invariant { rule: "event validation", detail: error.to_string() });
        },
    }
    match first_unresolved(record.actors(), population) {
        Some(error) => return Err(error),
        None => {},
    }
    match first_unresolved(record.targets(), population) {
        Some(error) => return Err(error),
        None => {},
    }
    Ok(())
}

/// The end of the next day window: one simulated day after `now_seconds`
/// (saturating), but never past `target_seconds`.
pub fn day_target(now_seconds: i64, target_seconds: i64) -> (end: i64)
    ensures
        end as int == if now_seconds + SECONDS_PER_DAY < target_seconds {
            now_seconds + SECONDS_PER_DAY
        } else {
            target_seconds as int
        },
{
    let end = if now_seconds <= i64::MAX - SECONDS_PER_DAY {
        now_seconds + SECONDS_PER_DAY
    } else {
        i64::MAX
    };
    if end < target_seconds {
        end
    } else {
        target_seconds
    }
}

/// The liveness guard of a chaos run: it counts consecutive advance calls
/// that made no progress, and advance calls within the current day window.
pub struct LivenessGuard {
    stalled: usize,
    day_calls: usize,
}

impl View for LivenessGuard {
    type V = (usize, usize);

    closed spec fn view(&self) -> (usize, usize) {
        (self.stalled, self.day_calls)
    }
}

/// Whether a guard has not yet reported non-termination.
pub open spec fn guard_live(guard: (usize, usize)) -> bool {
    guard.0 < MAX_STALLED_ADVANCE_CALLS && guard.1 <= MAX_ADVANCE_CALLS_PER_DAY
}

impl LivenessGuard {
    /// A guard before the first call.
    pub fn new() -> (guard: LivenessGuard)
        ensures
            guard@ == (0usize, 0usize),
    {
        LivenessGuard { stalled: 0, day_calls: 0 }
    }

    /// Opens a new day window; the stall count carries over.
    pub fn start_day(&mut self)
        ensures
            final(self)@ == (old(self)@.0, 0usize),
    {
        self.day_calls = 0;
    }

    /// Accounts one advance call that moved the committed instant from
    /// `last_committed` to `current` seconds.
    ///
    /// A call that made no progress extends the stall run, which is
    /// reported once it reaches [`MAX_STALLED_ADVANCE_CALLS`]; progress
    /// resets it. A day window with more than
    /// [`MAX_ADVANCE_CALLS_PER_DAY`] calls is reported too.
    pub fn observe(&mut self, last_committed: i64, current: i64) -> (result: Result<(), ChaosError>)
        requires
            guard_live(old(self)@),
        ensures
            ({
                let stalled = if current <= last_committed {
                    (old(self)@.0 + 1) as usize
                } else {
                    0usize
                };
                let day_calls = (old(self)@.1 + 1) as usize;
                match result {
                    Ok(()) => {
                        &&& final(self)@ == (stalled, day_calls)
                        &&& stalled < MAX_STALLED_ADVANCE_CALLS
                        &&& day_calls <= MAX_ADVANCE_CALLS_PER_DAY
                        &&& guard_live(final(self)@)
                    },
                    Err(ChaosError::NonTerminating { committed_to_seconds, stalled_calls }) => {
                        &&& committed_to_seconds == current
                        &&& if stalled >= MAX_STALLED_ADVANCE_CALLS {
                            stalled_calls == stalled
                        } else {
                            day_calls > MAX_ADVANCE_CALLS_PER_DAY && stalled_calls == day_calls
                        }
                    },
                    Err(_) => false,
                }
            }),
    {
        if current <= last_committed {
            self.stalled = self.stalled + 1;
            if self.stalled >= MAX_STALLED_ADVANCE_CALLS {
                return Err(
                    ChaosError::NonTerminating {
                        committed_to_seconds: current,
                        stalled_calls: self.stalled,
                    },
                );
            }
        } else {
            self.stalled = 0;
        }
        self.day_calls = self.day_calls + 1;
        if self.day_calls > MAX_ADVANCE_CALLS_PER_DAY {
            return Err(
                ChaosError::NonTerminating {
                    committed_to_seconds: current,
                    stalled_calls: self.day_calls,
                },
            );
        }
        Ok(())
    }
}

/// The message of a chaos failure.
pub open spec fn chaos_error_text(error: ChaosError) -> Seq<char> {
    match error {
        ChaosError::NonFinite { person, field, value, min, max } => "non-finite/out-of-bounds "@
            + field@ + " for person "@ + decimal_text(person@ as nat) + ": "@ + signed_decimal_text(
            value as int,
        ) + " not in ["@ + signed_decimal_text(min as int) + ", "@ + signed_decimal_text(
            max as int,
        ) + "]"@,
        ChaosError::QueueGrowth { key, value, limit } => "unbounded queue growth: "@ + key@
            + " = "@ + decimal_text(value as nat) + " > "@ + decimal_text(limit as nat),
        ChaosError::DanglingReference { detail } => "dangling reference: "@ + detail@,
        ChaosError::Invariant { rule, detail } => "invariant '"@ + rule@ + "' violated: "@
            + detail@,
        ChaosError::NonTerminating { committed_to_seconds, stalled_calls } => "non-terminating: committed to "@
            + signed_decimal_text(committed_to_seconds as int) + "s after "@ + decimal_text(
            stalled_calls as nat,
        ) + " stalled calls"@,
        ChaosError::Population { expected, actual } => "population changed: expected "@
            + decimal_text(expected as nat) + ", actual "@ + decimal_text(actual as nat),
        ChaosError::Config(text) => "invalid chaos config: "@ + text@,
        ChaosError::NoReachableFixture { reason } => "no reachable Meal/Rest/Work fixture: "@
            + reason@,
        ChaosError::UnmetCompletion { detail } => "unmet completion: "@ + detail@,
        ChaosError::Kernel(error) => "kernel error: "@ + kernel_error_text(error),
    }
}

impl ChaosError {
    /// The message of this failure.
    pub fn to_string(&self) -> (text: String)
        ensures
            text@ == chaos_error_text(*self),
    {
        match self {
            ChaosError::NonFinite { person, field, value, min, max } => {
                "non-finite/out-of-bounds ".to_owned().concat(field).concat(" for person ").concat(
                    u64_to_decimal(person.get()).as_str(),
                ).concat(": ").concat(i64_to_decimal(*value).as_str()).concat(" not in [").concat(
                    i64_to_decimal(*min).as_str(),
                ).concat(", ").concat(i64_to_decimal(*max).as_str()).concat("]")
            },
            ChaosError::QueueGrowth { key, value, limit } => {
                "unbounded queue growth: ".to_owned().concat(key).concat(" = ").concat(
                    u64_to_decimal(*value as u64).as_str(),
                ).concat(" > ").concat(u64_to_decimal(*limit as u64).as_str())
            },
            ChaosError::DanglingReference { detail } => {
                "dangling reference: ".to_owned().concat(detail.as_str())
            },
            ChaosError::Invariant { rule, detail } => {
                "invariant '".to_owned().concat(rule).concat("' violated: ").concat(
                    detail.as_str(),
                )
            },
            ChaosError::NonTerminating { committed_to_seconds, stalled_calls } => {
                "non-terminating: committed to ".to_owned().concat(
                    i64_to_decimal(*committed_to_seconds).as_str(),
                ).concat("s after ").concat(u64_to_decimal(*stalled_calls as u64).as_str()).concat(
                    " stalled calls",
                )
            },
            ChaosError::Population { expected, actual } => {
                "population changed: expected ".to_owned().concat(
                    u64_to_decimal(*expected as u64).as_str(),
                ).concat(", actual ").concat(u64_to_decimal(*actual as u64).as_str())
            },
            ChaosError::Config(text) => "invalid chaos config: ".to_owned().concat(text.as_str()),
            ChaosError::NoReachableFixture { reason } => {
                "no reachable Meal/Rest/Work fixture: ".to_owned().concat(reason.as_str())
            },
            ChaosError::UnmetCompletion { detail } => {
                "unmet completion: ".to_owned().concat(detail.as_str())
            },
            ChaosError::Kernel(error) => "kernel error: ".to_owned().concat(
                error.to_string().as_str(),
            ),
        }
    }
}

/// What the per-day checkpoint reads of one person's view. `location_cell`
/// is the map cell under the person: `None` outside the map, otherwise
/// whether it is walkable. `target_walkable` says whether the action
/// target, if any, is a walkable cell of the map.
#[derive(Clone, Copy, Debug)]
pub struct PersonCheck {
    /// The person's identity.
    pub id: EntityId,
    /// Raw hunger.
    pub hunger: i64,
    /// Raw fatigue.
    pub fatigue: i64,
    /// The person's cell.
    pub location: (i32, i32),
    /// The map cell under the person.
    pub location_cell: Option<bool>,
    /// The observable action state.
    pub state: ActionState,
    /// The recorded action kind.
    pub action: ActionKind,
    /// The action target, if any.
    pub target: Option<(i32, i32)>,
    /// Whether the target is a walkable cell of the map.
    pub target_walkable: bool,
}

/// Whether one person's view passes the per-day checkpoint against the
/// live population.
pub open spec fn view_ok(population: Seq<EntityId>, v: PersonCheck) -> bool {
    &&& population.contains(v.id)
    &&& 0 <= v.hunger <= NEED_MAX
    &&& 0 <= v.fatigue <= NEED_MAX
    &&& v.location_cell == Some(true)
    &&& consistent_spec(v.state, v.action, v.target is Some)
    &&& target_ok(v.state, v.target, v.location, v.target_walkable)
}

/// The message for a person standing outside the map.
pub open spec fn outside_map_text(person: EntityId) -> Seq<char> {
    "person "@ + decimal_text(person@ as nat) + " is outside map"@
}

/// The message for a person standing on a blocked cell.
pub open spec fn blocked_cell_text(person: EntityId) -> Seq<char> {
    "person "@ + decimal_text(person@ as nat) + " is on blocked cell"@
}

/// Whether `e` is the failure reported for a view that does not pass: the
/// first check that fails, in the order population membership, hunger,
/// fatigue, location, action consistency.
pub open spec fn is_view_error(
    population: Seq<EntityId>,
    actual: nat,
    v: PersonCheck,
    e: ChaosError,
) -> bool {
    if !population.contains(v.id) {
        e == ChaosError::Population { expected: population.len() as usize, actual: actual as usize }
    } else if !(0 <= v.hunger <= NEED_MAX) {
        is_out_of_bounds(e, v.id, "hunger"@, v.hunger, 0, NEED_MAX)
    } else if !(0 <= v.fatigue <= NEED_MAX) {
        is_out_of_bounds(e, v.id, "fatigue"@, v.fatigue, 0, NEED_MAX)
    } else if v.location_cell is None {
        e matches ChaosError::Invariant { rule, detail } && rule@ == "walkable location"@
            && detail@ == outside_map_text(v.id)
    } else if v.location_cell == Some(false) {
        e matches ChaosError::Invariant { rule, detail } && rule@ == "walkable location"@
            && detail@ == blocked_cell_text(v.id)
    } else {
        e matches ChaosError::Invariant { rule, detail } && rule@
            == "action/state/target consistency"@ && detail@ == mismatch_text(v.id)
    }
}

/// Whether `id` is a member of `population`.
fn population_contains(population: &[EntityId], id: EntityId) -> (found: bool)
    ensures
        found == population@.contains(id),
{
    let mut i: usize = 0;
    while i < population.len()
        invariant
            0 <= i <= population.len(),
            forall|j: int| 0 <= j < i ==> population@[j] != id,
        decreases population.len() - i,
    {
        if population[i] == id {
            assert(population@[i as int] == id);
            return true;
        }
        i = i + 1;
    }
    false
}

/// The per-day checkpoint of one person's view: membership of the live
/// population, drives within bounds, a walkable cell inside the map, and a
/// consistent action, state and target. `actual` is the number of views.
pub fn check_person_view(population: &[EntityId], actual: usize, v: &PersonCheck) -> (result:
    Result<(), ChaosError>)
    ensures
        match result {
            Ok(()) => view_ok(population@, *v),
            Err(e) => !view_ok(population@, *v) && is_view_error(
                population@,
                actual as nat,
                *v,
                e,
            ),
        },
{
    if !population_contains(population, v.id) {
        return Err(ChaosError::Population { expected: population.len(), actual });
    }
    match needs_in_bounds(v.id, v.hunger, v.fatigue) {
        Some(error) => return Err(error),
        None => {},
    }
    match v.location_cell {
        None => {
            let detail = "person ".to_owned().concat(u64_to_decimal(v.id.get()).as_str()).concat(
                " is outside map",
            );
            return Err(ChaosError::Invariant { rule: "walkable location", detail });
        },
        Some(false) => {
            let detail = "person ".to_owned().concat(u64_to_decimal(v.id.get()).as_str()).concat(
                " is on blocked cell",
            );
            return Err(ChaosError::Invariant { rule: "walkable location", detail });
        },
        Some(true) => {},
    }
    check_action_consistency(v.id, v.state, v.action, v.target, v.location, v.target_walkable)
}

/// The per-day checkpoint of every person's view: there must be exactly as
/// many views as live persons, and each view, in order, must pass; the
/// first failure is reported.
pub fn check_person_views(population: &[EntityId], views: &[PersonCheck]) -> (result: Result<
    (),
    ChaosError,
>)
    ensures
        match result {
            Ok(()) => views@.len() == population@.len() && forall|i: int|
                0 <= i < views@.len() ==> view_ok(population@, #[trigger] views@[i]),
            Err(e) => if views@.len() != population@.len() {
                e == ChaosError::Population { expected: population.len(), actual: views.len() }
            } else {
                exists|i: int|
                    0 <= i < views@.len() && (forall|j: int|
                        0 <= j < i ==> view_ok(population@, #[trigger] views@[j])) && !view_ok(
                        population@,
                        views@[i],
                    ) && is_view_error(population@, views@.len(), views@[i], e)
            },
        },
{
    if views.len() != population.len() {
        return Err(ChaosError::Population { expected: population.len(), actual: views.len() });
    }
    let mut i: usize = 0;
    while i < views.len()
        invariant
            0 <= i <= views.len(),
            views@.len() == population@.len(),
            forall|j: int| 0 <= j < i ==> view_ok(population@, #[trigger] views@[j]),
        decreases views.len() - i,
    {
        match check_person_view(population, views.len(), &views[i]) {
            Ok(()) => {},
            Err(error) => {
                assert(!view_ok(population@, views@[i as int]));
                return Err(error);
            },
        }
        i = i + 1;
    }
    Ok(())
}

/// The number of completed kinds counts Eat, Sleep, Work and a movement
/// phase once each: a first completion of any one of them raises it by
/// exactly one, standalone moves never change it, it is four exactly when
/// all four were observed and zero exactly when none was.
pub proof fn law_kinds_count_each_required_kind_once(c: PerPersonCompletions, more: u64)
    requires
        more > 0,
    ensures
        kinds_observed(c) <= 4,
        kinds_observed(c) == 4 <==> (c.eats > 0 && c.sleeps > 0 && c.works > 0 && c.movement_phases
            > 0),
        kinds_observed(c) == 0 <==> (c.eats == 0 && c.sleeps == 0 && c.works == 0
            && c.movement_phases == 0),
        c.eats == 0 ==> kinds_observed(PerPersonCompletions { eats: more, ..c }) == kinds_observed(c)
            + 1,
        c.sleeps == 0 ==> kinds_observed(PerPersonCompletions { sleeps: more, ..c })
            == kinds_observed(c) + 1,
        c.works == 0 ==> kinds_observed(PerPersonCompletions { works: more, ..c }) == kinds_observed(
            c,
        ) + 1,
        c.movement_phases == 0 ==> kinds_observed(PerPersonCompletions { movement_phases: more, ..c })
            == kinds_observed(c) + 1,
        kinds_observed(PerPersonCompletions { moves: more, ..c }) == kinds_observed(c),
{
}

/// Tallying a person's state raises exactly the counter named after that
/// state by one (stopping at the maximum) and leaves the other four as
/// they were.
pub proof fn law_tally_counts_the_observed_state(counts: ActionCounts, state: ActionState)
    ensures
        ({
            let r = tallied(counts, state);
            &&& r.idle == (if state is Idle { sat_add(counts.idle, 1) } else { counts.idle })
            &&& r.moving == (if state is Moving { sat_add(counts.moving, 1) } else { counts.moving })
            &&& r.eating == (if state is Eating { sat_add(counts.eating, 1) } else { counts.eating })
            &&& r.sleeping == (if state is Sleeping { sat_add(counts.sleeping, 1) } else {
                counts.sleeping
            })
            &&& r.working == (if state is Working { sat_add(counts.working, 1) } else {
                counts.working
            })
        }),
        (counts.idle < u64::MAX && counts.moving < u64::MAX && counts.eating < u64::MAX
            && counts.sleeping < u64::MAX && counts.working < u64::MAX) ==> ({
            let r = tallied(counts, state);
            r.idle + r.moving + r.eating + r.sleeping + r.working == counts.idle + counts.moving
                + counts.eating + counts.sleeping + counts.working + 1
        }),
{
}

/// Accumulating completions adds them field by field: every count of the
/// sum is the sum of the two counts whenever that fits, and adding the zero
/// record changes nothing.
pub proof fn law_completion_sums_add_fieldwise(a: PerPersonCompletions, b: PerPersonCompletions)
    ensures
        a.moves + b.moves <= u64::MAX ==> completions_sum(a, b).moves == a.moves + b.moves,
        a.eats + b.eats <= u64::MAX ==> completions_sum(a, b).eats == a.eats + b.eats,
        a.sleeps + b.sleeps <= u64::MAX ==> completions_sum(a, b).sleeps == a.sleeps + b.sleeps,
        a.works + b.works <= u64::MAX ==> completions_sum(a, b).works == a.works + b.works,
        a.movement_phases + b.movement_phases <= u64::MAX ==> completions_sum(a, b).movement_phases
            == a.movement_phases + b.movement_phases,
        completions_sum(a, no_completions()) == a,
{
}

/// The number of persons who completed all kinds never exceeds the number
/// of rows, equals it when every row is complete, and is zero when none is.
pub proof fn law_complete_count_counts_complete_rows(rows: Seq<PerPersonCompletions>)
    ensures
        complete_count(rows) <= rows.len(),
        (forall|i: int| 0 <= i < rows.len() ==> kinds_observed(#[trigger] rows[i]) == 4)
            ==> complete_count(rows) == rows.len(),
        (forall|i: int| 0 <= i < rows.len() ==> kinds_observed(#[trigger] rows[i]) < 4)
            ==> complete_count(rows) == 0,
    decreases rows.len(),
{
    if rows.len() > 0 {
        let earlier = rows.drop_last();
        law_complete_count_counts_complete_rows(earlier);
        if forall|i: int| 0 <= i < rows.len() ==> kinds_observed(#[trigger] rows[i]) == 4 {
            assert forall|i: int| 0 <= i < earlier.len() implies kinds_observed(#[trigger] earlier[i])
                == 4 by {
                assert(earlier[i] == rows[i]);
            }
            assert(kinds_observed(rows[rows.len() - 1]) == 4);
        }
        if forall|i: int| 0 <= i < rows.len() ==> kinds_observed(#[trigger] rows[i]) < 4 {
            assert forall|i: int| 0 <= i < earlier.len() implies kinds_observed(#[trigger] earlier[i])
                < 4 by {
                assert(earlier[i] == rows[i]);
            }
            assert(kinds_observed(rows[rows.len() - 1]) < 4);
        }
    }
}

/// The run horizon, when it exists, is the number of years times the
/// seconds per year.
pub proof fn law_horizon_is_years_times_year_length(config: ChaosConfig)
    ensures
        horizon(config) matches Some(h) ==> h == config.years * config.sim_seconds_per_year,
        (config.years <= i64::MAX && i64::MIN <= config.years * config.sim_seconds_per_year
            <= i64::MAX) ==> horizon(config) is Some,
{
}

/// A view that passes the day checkpoint belongs to a live person whose
/// drives lie in bounds and who stands on a walkable cell of the map; an
/// Idle person holds the Idle action and no target, a person performing an
/// activity stands on its target, and any target is walkable.
pub proof fn law_passing_views_are_sound(population: Seq<EntityId>, v: PersonCheck)
    requires
        view_ok(population, v),
    ensures
        population.contains(v.id),
        0 <= v.hunger <= NEED_MAX && 0 <= v.fatigue <= NEED_MAX,
        v.location_cell == Some(true),
        v.target is Some ==> v.target_walkable,
        v.state is Idle ==> v.action == ActionKind::Idle && v.target is None,
        (v.state is Eating || v.state is Sleeping || v.state is Working) ==> v.target == Some(
            v.location,
        ),
        v.state is Eating ==> v.action == ActionKind::Eat,
        v.state is Sleeping ==> v.action == ActionKind::Sleep,
        v.state is Working ==> v.action == ActionKind::Work,
{
}

} // verus!
