//! Kernel-level records: advance results, lifecycle, health metrics, and
//! committed-boundary queue observations.

use std::collections::BTreeMap;

use vstd::prelude::*;

use crate::actions::{action_error_text, ActionError, ActionKind, ActionState, TransitionReason};
use crate::entity::{EntityId, EntityIdAllocationError};
use crate::events::{validation_text, EventValidationError};
use crate::person::{person_error_text, PersonError};
use crate::text::decimal_text;
use crate::time::{clock_error_text, seconds_text, SimClockError, SimInstant};
use vstd::string::StringExecFns;

verus! {

/// Default maximum number of due-instant advance rounds per advance call.
pub const DEFAULT_WORK_BUDGET: usize = 1_024;

/// Default capacity of the kernel's bounded in-memory outcome-event buffer.
pub const DEFAULT_EVENT_BUFFER_CAPACITY: usize = 4_096;

/// The committed result of one bounded kernel advance.
#[derive(Clone, Copy, Debug, PartialEq, Eq, Structural)]
pub struct KernelAdvance {
    committed_to: SimInstant,
    rounds: usize,
    reached_target: bool,
    transitions: usize,
    decisions: usize,
    events: usize,
}

/// The fields of a [`KernelAdvance`].
pub struct KernelAdvanceView {
    pub committed_to: SimInstant,
    pub rounds: usize,
    pub reached_target: bool,
    pub transitions: usize,
    pub decisions: usize,
    pub events: usize,
}

impl View for KernelAdvance {
    type V = KernelAdvanceView;

    closed spec fn view(&self) -> KernelAdvanceView {
        KernelAdvanceView {
            committed_to: self.committed_to,
            rounds: self.rounds,
            reached_target: self.reached_target,
            transitions: self.transitions,
            decisions: self.decisions,
            events: self.events,
        }
    }
}

impl KernelAdvance {
    /// Records the outcome of one advance call.
    pub fn new(
        committed_to: SimInstant,
        rounds: usize,
        reached_target: bool,
        transitions: usize,
        decisions: usize,
        events: usize,
    ) -> (advance: KernelAdvance)
        ensures
            advance@ == (KernelAdvanceView {
                committed_to,
                rounds,
                reached_target,
                transitions,
                decisions,
                events,
            }),
    {
        KernelAdvance { committed_to, rounds, reached_target, transitions, decisions, events }
    }

    /// The last instant at which work was fully committed.
    pub fn committed_to(&self) -> (at: SimInstant)
        ensures
            at == self@.committed_to,
    {
        self.committed_to
    }

    /// The number of full due-instant advance rounds processed.
    pub fn rounds(&self) -> (rounds: usize)
        ensures
            rounds == self@.rounds,
    {
        self.rounds
    }

    /// Whether the target was reached without exhausting the work budget.
    pub fn reached_target(&self) -> (reached: bool)
        ensures
            reached == self@.reached_target,
    {
        self.reached_target
    }

    /// The number of action transitions committed.
    pub fn transitions(&self) -> (transitions: usize)
        ensures
            transitions == self@.transitions,
    {
        self.transitions
    }

    /// The number of decisions resolved.
    pub fn decisions(&self) -> (decisions: usize)
        ensures
            decisions == self@.decisions,
    {
        self.decisions
    }

    /// The number of high-level outcome events accounted.
    pub fn events(&self) -> (events: usize)
        ensures
            events == self@.events,
    {
        self.events
    }
}

/// Committed action observations retained independently of event buffering.
#[derive(Clone, Copy, Debug, Default, PartialEq, Eq, Structural)]
pub struct PersonObservations {
    pub movement_steps: u64,
    pub movement_phases: u64,
    pub moves: u64,
    pub eats: u64,
    pub sleeps: u64,
    pub works: u64,
    pub idles: u64,
}

/// Whether a transition closes a real movement phase: an arrival that
/// leaves a movement state for a movement state.
pub open spec fn closes_movement_phase(
    reason: TransitionReason,
    from: ActionState,
    to: ActionState,
) -> bool {
    reason == TransitionReason::Arrived && from is Moving && to is Moving
}

/// A person's observations after one committed transition.
pub open spec fn observed(
    row: PersonObservations,
    reason: TransitionReason,
    from: ActionState,
    to: ActionState,
    action: ActionKind,
) -> PersonObservations {
    let moved = reason == TransitionReason::Step || closes_movement_phase(reason, from, to);
    let phase = closes_movement_phase(reason, from, to);
    let done = reason == TransitionReason::Completed;
    PersonObservations {
        movement_steps: if moved { saturating_add_u64(row.movement_steps, 1) } else { row.movement_steps },
        movement_phases: if phase { saturating_add_u64(row.movement_phases, 1) } else { row.movement_phases },
        moves: if done && action == ActionKind::Move { saturating_add_u64(row.moves, 1) } else { row.moves },
        eats: if done && action == ActionKind::Eat { saturating_add_u64(row.eats, 1) } else { row.eats },
        sleeps: if done && action == ActionKind::Sleep { saturating_add_u64(row.sleeps, 1) } else { row.sleeps },
        works: if done && action == ActionKind::Work { saturating_add_u64(row.works, 1) } else { row.works },
        idles: if done && action == ActionKind::Idle { saturating_add_u64(row.idles, 1) } else { row.idles },
    }
}

impl PersonObservations {
    /// Folds one committed transition of the person into the observations:
    /// a step, or an arrival that closes a movement phase, is one movement
    /// step; such an arrival is also one movement phase; a completion counts
    /// for its action kind. A zero-distance arrival is not movement.
    pub fn record(
        &mut self,
        reason: TransitionReason,
        from: ActionState,
        to: ActionState,
        action: ActionKind,
    )
        ensures
            *final(self) == observed(*old(self), reason, from, to, action),
    {
        let closes_phase = reason == TransitionReason::Arrived && match (from, to) {
            (ActionState::Moving { .. }, ActionState::Moving { .. }) => true,
            _ => false,
        };
        if reason == TransitionReason::Step || closes_phase {
            self.movement_steps = self.movement_steps.saturating_add(1);
        }
        if closes_phase {
            self.movement_phases = self.movement_phases.saturating_add(1);
        }
        if reason == TransitionReason::Completed {
            match action {
                ActionKind::Move => self.moves = self.moves.saturating_add(1),
                ActionKind::Eat => self.eats = self.eats.saturating_add(1),
                ActionKind::Sleep => self.sleeps = self.sleeps.saturating_add(1),
                ActionKind::Work => self.works = self.works.saturating_add(1),
                ActionKind::Idle => self.idles = self.idles.saturating_add(1),
            }
        }
    }
}

/// Read-only, ordered diagnostics for committed kernel work.
#[derive(Clone, Debug, Default, PartialEq, Eq)]
pub struct KernelObservations {
    pub persons: BTreeMap<EntityId, PersonObservations>,
    pub boundary_count: u64,
    pub queue_depth_sum: u64,
    /// Minimum live entries across successful advance returns; `None` before any.
    pub queue_depth_min: Option<usize>,
    pub queue_depth_max: usize,
    pub queue_nodes_sum: u64,
    /// Minimum heap nodes across successful advance returns.
    pub queue_nodes_min: Option<usize>,
    pub queue_nodes_max: usize,
}

/// `u64` addition that stops at the maximum.
pub open spec fn saturating_add_u64(a: u64, b: int) -> u64 {
    if a + b > u64::MAX { u64::MAX } else { (a + b) as u64 }
}

/// The smaller of a running minimum (if any) and a new sample.
pub open spec fn running_min(current: Option<usize>, sample: usize) -> Option<usize> {
    match current {
        Some(old) => Some(if sample < old { sample } else { old }),
        None => Some(sample),
    }
}

impl KernelObservations {
    /// Folds the scheduler's live entries and heap nodes at one successful
    /// advance return into the boundary statistics.
    pub fn record_boundary(&mut self, queue_depth: usize, queue_nodes: usize)
        ensures
            final(self).persons == old(self).persons,
            final(self).boundary_count == saturating_add_u64(old(self).boundary_count, 1),
            final(self).queue_depth_sum == saturating_add_u64(
                old(self).queue_depth_sum,
                queue_depth as int,
            ),
            final(self).queue_depth_min == running_min(old(self).queue_depth_min, queue_depth),
            final(self).queue_depth_max == if queue_depth > old(self).queue_depth_max {
                queue_depth
            } else {
                old(self).queue_depth_max
            },
            final(self).queue_nodes_sum == saturating_add_u64(
                old(self).queue_nodes_sum,
                queue_nodes as int,
            ),
            final(self).queue_nodes_min == running_min(old(self).queue_nodes_min, queue_nodes),
            final(self).queue_nodes_max == if queue_nodes > old(self).queue_nodes_max {
                queue_nodes
            } else {
                old(self).queue_nodes_max
            },
    {
        self.queue_depth_min = match self.queue_depth_min {
            Some(old) => Some(if queue_depth < old { queue_depth } else { old }),
            None => Some(queue_depth),
        };
        self.queue_nodes_min = match self.queue_nodes_min {
            Some(old) => Some(if queue_nodes < old { queue_nodes } else { old }),
            None => Some(queue_nodes),
        };
        self.boundary_count = self.boundary_count.saturating_add(1);
        self.queue_depth_sum = self.queue_depth_sum.saturating_add(queue_depth as u64);
        if queue_depth > self.queue_depth_max {
            self.queue_depth_max = queue_depth;
        }
        self.queue_nodes_sum = self.queue_nodes_sum.saturating_add(queue_nodes as u64);
        if queue_nodes > self.queue_nodes_max {
            self.queue_nodes_max = queue_nodes;
        }
    }
}

/// The kernel lifecycle.
#[derive(Clone, Copy, Debug, PartialEq, Eq, Structural)]
pub enum KernelState {
    /// A fresh, un-started kernel at the epoch.
    Setup,
    /// The kernel has been started and is advancing.
    Running,
    /// A real execution error stopped the kernel; it must be re-created.
    Faulted,
}

/// Read-only kernel health for developer metrics.
#[derive(Clone, Copy, Debug, PartialEq, Eq, Structural)]
pub struct KernelMetrics {
    /// Lifecycle marker.
    pub state: KernelState,
    /// Failed instant, when the live runtime must no longer be inspected.
    pub failed_at: Option<SimInstant>,
    /// The committed simulation instant.
    pub now: SimInstant,
    /// Number of spawned persons.
    pub person_count: usize,
    /// Persons with an active action execution record.
    pub live_actions: usize,
    /// Persons waiting on a positive retry delay.
    pub pending_retries: usize,
    /// Live critical-need check tokens.
    pub live_checks: usize,
    /// Live scheduler payloads under the action runtime.
    pub scheduler_queue_depth: usize,
    /// Lazy invalidated scheduler heap nodes awaiting compaction.
    pub scheduler_stale_nodes: usize,
    /// Outcome events currently buffered in the kernel.
    pub events_buffered: usize,
    /// Outcome events dropped by either retention buffer.
    pub events_rotated: u64,
    /// The cumulative FNV-1a-64 stream digest of every committed event.
    pub events_digest: u64,
    /// Total advance rounds processed across all calls.
    pub rounds_total: u64,
    /// Total action transitions committed across all calls.
    pub transitions_total: u64,
    /// Total decisions resolved across all calls.
    pub decisions_total: u64,
    /// Total validated high-level outcome events accounted.
    pub events_total: u64,
}

/// Errors from reading dynamic kernel state.
#[derive(Clone, Copy, Debug, PartialEq, Eq, Structural)]
pub enum KernelReadError {
    /// The kernel is faulted; no live dynamic view is available.
    KernelFaulted,
    /// Needs cannot be projected to the committed instant.
    InvalidNeedsTime {
        /// Stable identity of the affected person.
        id: EntityId,
        /// The requested complete-boundary instant.
        at: SimInstant,
    },
}

/// Invalid kernel configuration inputs.
#[derive(Clone, Copy, Debug, PartialEq, Eq, Structural)]
pub enum KernelConfigError {
    /// The work budget must be non-zero.
    InvalidWorkBudget,
    /// The event-buffer capacity must be non-zero.
    InvalidEventCapacity,
}

/// Checks the kernel's work budget and event-buffer capacity, the budget
/// first.
pub fn check_kernel_limits(work_budget: usize, event_buffer_capacity: usize) -> (result: Result<
    (),
    KernelConfigError,
>)
    ensures
        match result {
            Ok(()) => work_budget > 0 && event_buffer_capacity > 0,
            Err(KernelConfigError::InvalidWorkBudget) => work_budget == 0,
            Err(KernelConfigError::InvalidEventCapacity) => work_budget > 0
                && event_buffer_capacity == 0,
        },
{
    if work_budget == 0 {
        return Err(KernelConfigError::InvalidWorkBudget);
    }
    if event_buffer_capacity == 0 {
        return Err(KernelConfigError::InvalidEventCapacity);
    }
    Ok(())
}

/// The message of a kernel read failure.
pub open spec fn read_error_text(error: KernelReadError) -> Seq<char> {
    match error {
        KernelReadError::KernelFaulted => "kernel is faulted"@,
        KernelReadError::InvalidNeedsTime { id, at } => "cannot project needs for "@ + decimal_text(
            id@ as nat,
        ) + " to "@ + seconds_text(at@),
    }
}

impl KernelReadError {
    /// The message of this failure.
    pub fn to_string(&self) -> (text: String)
        ensures
            text@ == read_error_text(*self),
    {
        match self {
            KernelReadError::KernelFaulted => "kernel is faulted".to_owned(),
            KernelReadError::InvalidNeedsTime { id, at } => {
                "cannot project needs for ".to_owned().concat(id.to_string().as_str()).concat(
                    " to ",
                ).concat(at.to_string().as_str())
            },
        }
    }
}

/// The message of a kernel configuration failure.
pub open spec fn config_error_text(error: KernelConfigError) -> Seq<char> {
    match error {
        KernelConfigError::InvalidWorkBudget => "kernel work budget must be non-zero"@,
        KernelConfigError::InvalidEventCapacity => "kernel event buffer capacity must be non-zero"@,
    }
}

impl KernelConfigError {
    /// The message of this failure.
    pub fn to_string(&self) -> (text: String)
        ensures
            text@ == config_error_text(*self),
    {
        match self {
            KernelConfigError::InvalidWorkBudget => "kernel work budget must be non-zero".to_owned(),
            KernelConfigError::InvalidEventCapacity => {
                "kernel event buffer capacity must be non-zero".to_owned()
            },
        }
    }
}

/// Failures of kernel operations whose causes lie in this crate.
#[derive(Clone, Debug, PartialEq, Eq)]
pub enum KernelError {
    /// A requested target earlier than the current clock; no mutation occurs.
    ClockRegression {
        /// The current committed instant.
        current: SimInstant,
        /// The rejected earlier target.
        requested: SimInstant,
    },
    /// The clock could not be advanced.
    Clock {
        /// The clock failure.
        source: SimClockError,
    },
    /// The identity allocator was exhausted while spawning.
    Identity {
        /// The allocator failure.
        source: EntityIdAllocationError,
    },
    /// The person runtime rejected an operation.
    Person {
        /// The person failure.
        source: PersonError,
    },
    /// The action runtime rejected an operation.
    Action {
        /// The action failure.
        source: ActionError,
    },
    /// A high-level outcome event failed validation.
    Event {
        /// The event-validation failure.
        source: EventValidationError,
    },
    /// A zero work budget was passed to an advance; a recoverable rejection.
    InvalidBudget,
    /// A forward advance was requested on a non-empty world that has not
    /// been started; a recoverable rejection.
    NotStarted,
    /// The world was started when it is already running.
    AlreadyStarted,
    /// A Setup-only operation was attempted outside `Setup`.
    NotSetup,
    /// Starting or spawning away from the epoch.
    NotAtEpoch,
    /// An operation was attempted on a faulted kernel.
    KernelFaulted,
}

/// The message of a kernel failure.
pub open spec fn kernel_error_text(error: KernelError) -> Seq<char> {
    match error {
        KernelError::ClockRegression { current, requested } => "simulation time cannot move backward from "@
            + seconds_text(current@) + " to "@ + seconds_text(requested@),
        KernelError::Clock { source } => "clock failure: "@ + clock_error_text(source),
        KernelError::Identity { .. } => "identity failure: "@ + "entity ID space is exhausted"@,
        KernelError::Person { source } => "person runtime failure: "@ + person_error_text(source),
        KernelError::Action { source } => "action failure: "@ + action_error_text(source),
        KernelError::Event { source } => "event failure: "@ + validation_text(source),
        KernelError::InvalidBudget => "kernel work budget must be non-zero"@,
        KernelError::NotStarted => "kernel world has not been started"@,
        KernelError::AlreadyStarted => "kernel world is already running"@,
        KernelError::NotSetup => "kernel operation requires the Setup state"@,
        KernelError::NotAtEpoch => "kernel start_world requires the epoch"@,
        KernelError::KernelFaulted => "kernel is faulted"@,
    }
}

impl KernelError {
    /// The message of this failure.
    pub fn to_string(&self) -> (text: String)
        ensures
            text@ == kernel_error_text(*self),
    {
        match self {
            KernelError::ClockRegression { current, requested } => {
                "simulation time cannot move backward from ".to_owned().concat(
                    current.to_string().as_str(),
                ).concat(" to ").concat(requested.to_string().as_str())
            },
            KernelError::Clock { source } => "clock failure: ".to_owned().concat(
                source.to_string().as_str(),
            ),
            KernelError::Identity { source } => "identity failure: ".to_owned().concat(
                source.to_string().as_str(),
            ),
            KernelError::Person { source } => "person runtime failure: ".to_owned().concat(
                source.to_string().as_str(),
            ),
            KernelError::Action { source } => "action failure: ".to_owned().concat(
                source.to_string().as_str(),
            ),
            KernelError::Event { source } => "event failure: ".to_owned().concat(
                source.to_string().as_str(),
            ),
            KernelError::InvalidBudget => "kernel work budget must be non-zero".to_owned(),
            KernelError::NotStarted => "kernel world has not been started".to_owned(),
            KernelError::AlreadyStarted => "kernel world is already running".to_owned(),
            KernelError::NotSetup => "kernel operation requires the Setup state".to_owned(),
            KernelError::NotAtEpoch => "kernel start_world requires the epoch".to_owned(),
            KernelError::KernelFaulted => "kernel is faulted".to_owned(),
        }
    }
}

/// The guards of a bounded advance, in order: the target must not precede
/// the clock, the work budget must be positive, the kernel must not be
/// faulted, and a world holding persons must have been started before it
/// moves forward.
pub fn check_advance(
    state: KernelState,
    now: SimInstant,
    target: SimInstant,
    work_budget: usize,
    population: usize,
) -> (result: Result<(), KernelError>)
    ensures
        result == if target@ < now@ {
            Err(KernelError::ClockRegression { current: now, requested: target })
        } else if work_budget == 0 {
            Err(KernelError::InvalidBudget)
        } else if state == KernelState::Faulted {
            Err(KernelError::KernelFaulted)
        } else if state == KernelState::Setup && population > 0 && target@ > now@ {
            Err(KernelError::NotStarted)
        } else {
            Ok(())
        },
{
    if target.as_seconds() < now.as_seconds() {
        return Err(KernelError::ClockRegression { current: now, requested: target });
    }
    if work_budget == 0 {
        return Err(KernelError::InvalidBudget);
    }
    match state {
        KernelState::Faulted => Err(KernelError::KernelFaulted),
        KernelState::Setup => {
            if population > 0 && target.as_seconds() > now.as_seconds() {
                Err(KernelError::NotStarted)
            } else {
                Ok(())
            }
        },
        KernelState::Running => Ok(()),
    }
}

/// What a bounded advance does next.
#[derive(Clone, Copy, Debug, PartialEq, Eq, Structural)]
pub enum RoundStep {
    /// Process every item due at exactly this instant as one round.
    Process(SimInstant),
    /// Stop; `reached` says whether all work at or before the target is done
    /// (and the clock may move to the target) or the budget ran out first.
    Finish {
        /// Whether the target was reached.
        reached: bool,
    },
}

/// The step that a bounded advance toward `target` takes after `rounds`
/// rounds, given the earliest due instant still scheduled.
pub open spec fn round_step(
    due: Option<SimInstant>,
    target: SimInstant,
    rounds: usize,
    work_budget: usize,
) -> RoundStep {
    match due {
        None => RoundStep::Finish { reached: true },
        Some(d) => if d@ > target@ {
            RoundStep::Finish { reached: true }
        } else if rounds >= work_budget {
            RoundStep::Finish { reached: false }
        } else {
            RoundStep::Process(d)
        },
    }
}

/// The next step of a bounded advance toward `target` after `rounds`
/// rounds, given the earliest due instant still scheduled: nothing due, or
/// due after the target, finishes with the target reached; a spent budget
/// finishes short of it; otherwise the due instant is processed.
pub fn next_round(due: Option<SimInstant>, target: SimInstant, rounds: usize, work_budget: usize) -> (step:
    RoundStep)
    ensures
        step == round_step(due, target, rounds, work_budget),
{
    match due {
        None => RoundStep::Finish { reached: true },
        Some(d) => {
            if d.as_seconds() > target.as_seconds() {
                RoundStep::Finish { reached: true }
            } else if rounds >= work_budget {
                RoundStep::Finish { reached: false }
            } else {
                RoundStep::Process(d)
            }
        },
    }
}

/// A bounded advance never processes a round past its target or beyond its
/// budget, and finishes short of the target exactly when the budget is spent
/// with work still due at or before the target.
pub proof fn law_rounds_stay_within_target_and_budget(
    due: Option<SimInstant>,
    target: SimInstant,
    rounds: usize,
    work_budget: usize,
)
    ensures
        round_step(due, target, rounds, work_budget) matches RoundStep::Process(d) ==> (d == due->Some_0
            && d@ <= target@ && rounds < work_budget),
        (round_step(due, target, rounds, work_budget) == RoundStep::Finish { reached: false }) <==> (
        rounds >= work_budget && due is Some && due->Some_0@ <= target@),
        (round_step(due, target, rounds, work_budget) == RoundStep::Finish { reached: true }) <==> (
        due is None || due->Some_0@ > target@),
        (due is Some && due->Some_0@ <= target@ && rounds < work_budget) ==> round_step(
            due,
            target,
            rounds,
            work_budget,
        ) == RoundStep::Process(due->Some_0),
{
}

/// Splitting an advance at an intermediate target does not change which
/// rounds run: work due at or before both targets is decided alike under
/// either target, and work due after the first target is left scheduled
/// while the advance to the first target finishes with that target reached.
pub proof fn law_rounds_segment_at_targets(
    due: SimInstant,
    first: SimInstant,
    last: SimInstant,
    rounds: usize,
    work_budget: usize,
)
    requires
        first@ <= last@,
    ensures
        due@ <= first@ ==> round_step(Some(due), first, rounds, work_budget) == round_step(
            Some(due),
            last,
            rounds,
            work_budget,
        ),
        first@ < due@ ==> round_step(Some(due), first, rounds, work_budget) == (RoundStep::Finish {
            reached: true,
        }),
{
}

/// The lifecycle after a successful advance from `start` to `target`: an
/// empty `Setup` world that moves forward becomes `Running`; an equal-target
/// no-op leaves it as it was.
pub fn state_after_advance(state: KernelState, start: SimInstant, target: SimInstant) -> (next:
    KernelState)
    ensures
        next == if state == KernelState::Setup && target@ > start@ {
            KernelState::Running
        } else {
            state
        },
{
    if state == KernelState::Setup && target.as_seconds() > start.as_seconds() {
        KernelState::Running
    } else {
        state
    }
}

/// The guards of spawning a person: only in `Setup`, at the epoch.
pub fn check_spawn(state: KernelState, now: SimInstant) -> (result: Result<(), KernelError>)
    ensures
        result == match state {
            KernelState::Faulted => Err(KernelError::KernelFaulted),
            KernelState::Setup => if now@ == 0 {
                Ok(())
            } else {
                Err(KernelError::NotAtEpoch)
            },
            KernelState::Running => Err(KernelError::NotSetup),
        },
{
    match state {
        KernelState::Faulted => Err(KernelError::KernelFaulted),
        KernelState::Setup => if now.as_seconds() == 0 {
            Ok(())
        } else {
            Err(KernelError::NotAtEpoch)
        },
        KernelState::Running => Err(KernelError::NotSetup),
    }
}

/// The guards of starting the world: only in `Setup`, with both the
/// requested instant and the clock at the epoch.
pub fn check_start(state: KernelState, now: SimInstant, at: SimInstant) -> (result: Result<
    (),
    KernelError,
>)
    ensures
        result == match state {
            KernelState::Faulted => Err(KernelError::KernelFaulted),
            KernelState::Running => Err(KernelError::AlreadyStarted),
            KernelState::Setup => if at@ == 0 && now@ == 0 {
                Ok(())
            } else {
                Err(KernelError::NotAtEpoch)
            },
        },
{
    match state {
        KernelState::Faulted => Err(KernelError::KernelFaulted),
        KernelState::Running => Err(KernelError::AlreadyStarted),
        KernelState::Setup => if at.as_seconds() == 0 && now.as_seconds() == 0 {
            Ok(())
        } else {
            Err(KernelError::NotAtEpoch)
        },
    }
}

/// Each completed action is counted under its own kind: a completion of
/// kind `k` raises exactly the counter of `k` by one (stopping at the
/// maximum) and moves no movement counter, and a transition that is not a
/// completion changes no completion counter.
pub proof fn law_completions_count_under_their_own_kind(
    row: PersonObservations,
    reason: TransitionReason,
    from: ActionState,
    to: ActionState,
    action: ActionKind,
)
    ensures
        ({
            let r = observed(row, reason, from, to, action);
            reason == TransitionReason::Completed ==> {
                &&& r.moves == (if action == ActionKind::Move { saturating_add_u64(row.moves, 1) } else { row.moves })
                &&& r.eats == (if action == ActionKind::Eat { saturating_add_u64(row.eats, 1) } else { row.eats })
                &&& r.sleeps == (if action == ActionKind::Sleep { saturating_add_u64(row.sleeps, 1) } else { row.sleeps })
                &&& r.works == (if action == ActionKind::Work { saturating_add_u64(row.works, 1) } else { row.works })
                &&& r.idles == (if action == ActionKind::Idle { saturating_add_u64(row.idles, 1) } else { row.idles })
                &&& r.movement_steps == row.movement_steps
                &&& r.movement_phases == row.movement_phases
            }
        }),
        ({
            let r = observed(row, reason, from, to, action);
            reason != TransitionReason::Completed ==> {
                &&& r.moves == row.moves
                &&& r.eats == row.eats
                &&& r.sleeps == row.sleeps
                &&& r.works == row.works
                &&& r.idles == row.idles
            }
        }),
{
}

/// Movement is observed from steps and real arrivals alone: a step adds one
/// movement step and no phase, an arrival that leaves a movement state for
/// a movement state adds one step and closes one phase, and every other
/// transition leaves both movement counters unchanged.
pub proof fn law_movement_is_counted_from_steps_and_arrivals(
    row: PersonObservations,
    reason: TransitionReason,
    from: ActionState,
    to: ActionState,
    action: ActionKind,
)
    ensures
        reason == TransitionReason::Step ==> observed(row, reason, from, to, action).movement_steps
            == saturating_add_u64(row.movement_steps, 1) && observed(
            row,
            reason,
            from,
            to,
            action,
        ).movement_phases == row.movement_phases,
        (reason == TransitionReason::Arrived && from is Moving && to is Moving) ==> observed(
            row,
            reason,
            from,
            to,
            action,
        ).movement_steps == saturating_add_u64(row.movement_steps, 1) && observed(
            row,
            reason,
            from,
            to,
            action,
        ).movement_phases == saturating_add_u64(row.movement_phases, 1),
        (reason != TransitionReason::Step && !(reason == TransitionReason::Arrived && from is Moving
            && to is Moving)) ==> observed(row, reason, from, to, action).movement_steps
            == row.movement_steps && observed(row, reason, from, to, action).movement_phases
            == row.movement_phases,
{
}

/// A running minimum never exceeds the new sample or the earlier minimum,
/// and is always one of them.
pub proof fn law_running_minimum_is_the_least_sample(current: Option<usize>, sample: usize)
    ensures
        running_min(current, sample) is Some,
        running_min(current, sample)->Some_0 <= sample,
        current is None ==> running_min(current, sample) == Some(sample),
        current matches Some(old) ==> running_min(current, sample)->Some_0 <= old && (running_min(
            current,
            sample,
        )->Some_0 == old || running_min(current, sample)->Some_0 == sample),
{
}

} // verus!
