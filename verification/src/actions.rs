//! Action execution: the action kinds and observable states, the timing
//! configuration, the transition and decision vocabulary, execution
//! counters, and the bounded outcome-event log with its stream digest.

use std::collections::VecDeque;

use vstd::prelude::*;

use crate::digest::{fnv_fold, le_bytes, fold_digest, fold_le_u64, FNV_OFFSET};
use crate::entity::EntityId;
use crate::events::{EventId, EventRecord};
use crate::scheduler::{scheduler_error_text, ScheduleToken, SchedulerError, SchedulerMetrics};
use crate::text::{decimal_text, i64_to_decimal, signed_decimal_text, u64_to_decimal};
use vstd::string::StringExecFns;
use crate::time::{SimDuration, SimInstant};

verus! {

/// Hunger relief applied by a completed Eat action: one full drive.
pub const EAT_RELIEF: i64 = 100_000;

/// Fatigue relief applied by a completed Sleep action.
pub const REST_RELIEF: i64 = 100_000;

/// Capacity of the bounded in-memory outcome-event buffer.
pub const EVENT_BUFFER_CAPACITY: usize = 4_096;

/// The five executable action kinds.
#[derive(Clone, Copy, Debug, PartialEq, Eq, Structural)]
pub enum ActionKind {
    /// Walk to a target cell.
    Move,
    /// Eat at a Meal site.
    Eat,
    /// Sleep at a Rest site.
    Sleep,
    /// Work at a Work site.
    Work,
    /// Wait in place.
    Idle,
}

/// The observable state of a person's current action. A person executing
/// an Idle wait reports `Idle`.
#[derive(Clone, Copy, Debug, PartialEq, Eq, Structural)]
pub enum ActionState {
    /// No active action, or an Idle wait in progress.
    Idle,
    /// Moving toward the target of the recorded action.
    Moving {
        /// The top-level action this movement phase belongs to.
        action: ActionKind,
    },
    /// Performing Eat at the target Meal site.
    Eating,
    /// Performing Sleep at the target Rest site.
    Sleeping,
    /// Performing Work at the target Work site.
    Working,
}

/// The execution phase of a live action record.
#[derive(Clone, Copy, Debug, PartialEq, Eq, Structural)]
pub enum Phase {
    /// Walking the path toward the target.
    Moving,
    /// Performing the activity at the target.
    Active,
}

/// The observable state of a record executing `action` in `phase`.
pub open spec fn state_of_spec(action: ActionKind, phase: Phase) -> ActionState {
    match (action, phase) {
        (ActionKind::Idle, _) => ActionState::Idle,
        (ActionKind::Move, Phase::Active) => ActionState::Idle,
        (_, Phase::Moving) => ActionState::Moving { action },
        (ActionKind::Eat, Phase::Active) => ActionState::Eating,
        (ActionKind::Sleep, Phase::Active) => ActionState::Sleeping,
        (ActionKind::Work, Phase::Active) => ActionState::Working,
    }
}

/// The observable state of a record executing `action` in `phase`: Idle
/// waits report `Idle`, a movement phase reports `Moving`, and an activity
/// reports its own state. A standalone Move completes on arrival and never
/// enters the active phase.
pub fn state_of(action: ActionKind, phase: Phase) -> (state: ActionState)
    ensures
        state == state_of_spec(action, phase),
{
    match (action, phase) {
        (ActionKind::Idle, _) | (ActionKind::Move, Phase::Active) => ActionState::Idle,
        (_, Phase::Moving) => ActionState::Moving { action },
        (ActionKind::Eat, Phase::Active) => ActionState::Eating,
        (ActionKind::Sleep, Phase::Active) => ActionState::Sleeping,
        (ActionKind::Work, Phase::Active) => ActionState::Working,
    }
}

/// The name of an action kind, as outcome events record it.
pub open spec fn kind_name_spec(kind: ActionKind) -> Seq<char> {
    match kind {
        ActionKind::Move => "Move"@,
        ActionKind::Eat => "Eat"@,
        ActionKind::Sleep => "Sleep"@,
        ActionKind::Work => "Work"@,
        ActionKind::Idle => "Idle"@,
    }
}

/// The name of an action kind, as outcome events record it.
pub fn kind_name(kind: ActionKind) -> (name: &'static str)
    ensures
        name@ == kind_name_spec(kind),
{
    match kind {
        ActionKind::Move => "Move",
        ActionKind::Eat => "Eat",
        ActionKind::Sleep => "Sleep",
        ActionKind::Work => "Work",
        ActionKind::Idle => "Idle",
    }
}

/// Whether a reported state agrees with the recorded action and the
/// presence of a target: Idle carries no target and the Idle kind; a
/// movement phase belongs to the recorded non-Idle action and has a target;
/// each activity state belongs to its own kind and has a target.
pub open spec fn consistent_spec(state: ActionState, action: ActionKind, has_target: bool) -> bool {
    match state {
        ActionState::Idle => action == ActionKind::Idle && !has_target,
        ActionState::Moving { action: moving } => action != ActionKind::Idle && action == moving
            && has_target,
        ActionState::Eating => action == ActionKind::Eat && has_target,
        ActionState::Sleeping => action == ActionKind::Sleep && has_target,
        ActionState::Working => action == ActionKind::Work && has_target,
    }
}

/// Checks that a reported state agrees with the recorded action and the
/// presence of a target.
pub fn action_state_consistent(state: ActionState, action: ActionKind, has_target: bool) -> (ok:
    bool)
    ensures
        ok == consistent_spec(state, action, has_target),
{
    match state {
        ActionState::Idle => action == ActionKind::Idle && !has_target,
        ActionState::Moving { action: moving } => action != ActionKind::Idle && action == moving
            && has_target,
        ActionState::Eating => action == ActionKind::Eat && has_target,
        ActionState::Sleeping => action == ActionKind::Sleep && has_target,
        ActionState::Working => action == ActionKind::Work && has_target,
    }
}

/// Every state an execution record reports is consistent with it: a record
/// has a target exactly when its kind is not Idle, and a standalone Move is
/// never in the active phase.
pub proof fn law_recorded_states_are_consistent(action: ActionKind, phase: Phase, has_target: bool)
    requires
        has_target == (action != ActionKind::Idle),
        !(action == ActionKind::Move && phase == Phase::Active),
    ensures
        consistent_spec(state_of_spec(action, phase), action, has_target),
{
}

/// Timing configuration for action execution: seconds per movement cell,
/// the Eat, Sleep, Work and Idle-wait durations, the retry delay after a
/// blocked or failed action, and the delay between critical-need rechecks.
/// Every duration is at least one second, so every action occupies positive
/// time and no same-instant loop exists.
#[derive(Clone, Copy, Debug, PartialEq, Eq, Structural)]
pub struct ActionConfig {
    move_step: SimDuration,
    eat: SimDuration,
    sleep: SimDuration,
    work: SimDuration,
    idle_wait: SimDuration,
    retry_delay: SimDuration,
    critical_recheck_delay: SimDuration,
}

/// The seven durations of an [`ActionConfig`], in seconds, in declaration
/// order.
pub struct ActionConfigView {
    pub move_step: i64,
    pub eat: i64,
    pub sleep: i64,
    pub work: i64,
    pub idle_wait: i64,
    pub retry_delay: i64,
    pub critical_recheck_delay: i64,
}

impl View for ActionConfig {
    type V = ActionConfigView;

    closed spec fn view(&self) -> ActionConfigView {
        ActionConfigView {
            move_step: self.move_step@,
            eat: self.eat@,
            sleep: self.sleep@,
            work: self.work@,
            idle_wait: self.idle_wait@,
            retry_delay: self.retry_delay@,
            critical_recheck_delay: self.critical_recheck_delay@,
        }
    }
}

/// The activity duration, in seconds, of `kind` under `config`; a Move has
/// no activity phase.
pub open spec fn activity_seconds(config: ActionConfigView, kind: ActionKind) -> Option<i64> {
    match kind {
        ActionKind::Eat => Some(config.eat),
        ActionKind::Sleep => Some(config.sleep),
        ActionKind::Work => Some(config.work),
        ActionKind::Idle => Some(config.idle_wait),
        ActionKind::Move => None,
    }
}

impl ActionConfig {
    /// Creates a configuration, or `None` when any duration is shorter than
    /// one second.
    pub fn new(
        move_step: SimDuration,
        eat: SimDuration,
        sleep: SimDuration,
        work: SimDuration,
        idle_wait: SimDuration,
        retry_delay: SimDuration,
        critical_recheck_delay: SimDuration,
    ) -> (config: Option<ActionConfig>)
        ensures
            match config {
                Some(c) => {
                    &&& move_step@ >= 1 && eat@ >= 1 && sleep@ >= 1 && work@ >= 1
                    &&& idle_wait@ >= 1 && retry_delay@ >= 1 && critical_recheck_delay@ >= 1
                    &&& c@ == (ActionConfigView {
                        move_step: move_step@,
                        eat: eat@,
                        sleep: sleep@,
                        work: work@,
                        idle_wait: idle_wait@,
                        retry_delay: retry_delay@,
                        critical_recheck_delay: critical_recheck_delay@,
                    })
                },
                None => move_step@ < 1 || eat@ < 1 || sleep@ < 1 || work@ < 1 || idle_wait@ < 1
                    || retry_delay@ < 1 || critical_recheck_delay@ < 1,
            },
    {
        let durations = [move_step, eat, sleep, work, idle_wait, retry_delay, critical_recheck_delay];
        let mut i: usize = 0;
        while i < 7
            invariant
                0 <= i <= 7,
                durations@ == seq![move_step, eat, sleep, work, idle_wait, retry_delay, critical_recheck_delay],
                forall|j: int| 0 <= j < i ==> (#[trigger] durations@[j])@ >= 1,
            decreases 7 - i,
        {
            if durations[i].as_seconds() < 1 {
                return None;
            }
            i = i + 1;
        }
        assert(durations@[0] == move_step && durations@[1] == eat && durations@[2] == sleep);
        assert(durations@[3] == work && durations@[4] == idle_wait && durations@[5] == retry_delay);
        assert(durations@[6] == critical_recheck_delay);
        Some(
            ActionConfig {
                move_step,
                eat,
                sleep,
                work,
                idle_wait,
                retry_delay,
                critical_recheck_delay,
            },
        )
    }

    /// Seconds per 4-directional movement cell.
    pub fn move_step(&self) -> (step: SimDuration)
        ensures
            step@ == self@.move_step,
    {
        self.move_step
    }

    /// Duration of the activity phase of `kind`; `Move` has none.
    pub fn activity_duration(&self, kind: ActionKind) -> (duration: Option<SimDuration>)
        ensures
            match duration {
                Some(d) => activity_seconds(self@, kind) == Some(d@),
                None => activity_seconds(self@, kind) is None,
            },
    {
        match kind {
            ActionKind::Eat => Some(self.eat),
            ActionKind::Sleep => Some(self.sleep),
            ActionKind::Work => Some(self.work),
            ActionKind::Idle => Some(self.idle_wait),
            ActionKind::Move => None,
        }
    }

    /// Delay before a blocked or failed action may be re-decided.
    pub fn retry_delay(&self) -> (delay: SimDuration)
        ensures
            delay@ == self@.retry_delay,
    {
        self.retry_delay
    }

    /// Positive delay between critical-need rechecks while a person stays
    /// critical.
    pub fn critical_recheck_delay(&self) -> (delay: SimDuration)
        ensures
            delay@ == self@.critical_recheck_delay,
    {
        self.critical_recheck_delay
    }
}

/// The duration of `seconds`, for a non-negative constant.
fn constant_seconds(seconds: i64) -> (duration: SimDuration)
    requires
        seconds >= 0,
    ensures
        duration@ == seconds,
{
    match SimDuration::from_seconds(seconds) {
        Some(duration) => duration,
        None => SimDuration::zero(),
    }
}

impl Default for ActionConfig {
    /// One second per movement cell, Eat 600 s, Sleep 28,800 s, Work
    /// 1,800 s, Idle wait 60 s, retry delay 1 s, critical recheck 60 s.
    fn default() -> (config: ActionConfig)
        ensures
            config@ == (ActionConfigView {
                move_step: 1,
                eat: 600,
                sleep: 28_800,
                work: 1_800,
                idle_wait: 60,
                retry_delay: 1,
                critical_recheck_delay: 60,
            }),
    {
        ActionConfig {
            move_step: constant_seconds(1),
            eat: constant_seconds(600),
            sleep: constant_seconds(28_800),
            work: constant_seconds(1_800),
            idle_wait: constant_seconds(60),
            retry_delay: constant_seconds(1),
            critical_recheck_delay: constant_seconds(60),
        }
    }
}

/// Why a transition was committed.
#[derive(Clone, Copy, Debug, PartialEq, Eq, Structural)]
pub enum TransitionReason {
    /// `start` accepted a new action.
    Started,
    /// One movement cell was traversed.
    Step,
    /// The movement phase reached the target.
    Arrived,
    /// The action completed successfully.
    Completed,
    /// The target was unavailable at the arrival recheck.
    Blocked,
    /// Execution failed.
    Failed,
    /// A higher-priority decision superseded the action.
    Interrupted,
    /// An external cancel ended the action.
    Cancelled,
}

/// Why an active action is being cancelled.
#[derive(Clone, Copy, Debug, PartialEq, Eq, Structural)]
pub enum CancelReason {
    /// A fresh selection elected a different action.
    Interrupted,
    /// A caller-initiated stop outside the decision loop.
    External,
}

/// The transition reason and outcome-event type committed by a cancel.
pub open spec fn cancel_outcome_spec(reason: CancelReason) -> (TransitionReason, Seq<char>) {
    match reason {
        CancelReason::Interrupted => (TransitionReason::Interrupted, "action.interrupted"@),
        CancelReason::External => (TransitionReason::Cancelled, "action.cancelled"@),
    }
}

/// The transition reason and outcome-event type that a cancel for `reason`
/// commits.
pub fn cancel_outcome(reason: CancelReason) -> (outcome: (TransitionReason, &'static str))
    ensures
        outcome.0 == cancel_outcome_spec(reason).0,
        outcome.1@ == cancel_outcome_spec(reason).1,
{
    match reason {
        CancelReason::Interrupted => (TransitionReason::Interrupted, "action.interrupted"),
        CancelReason::External => (TransitionReason::Cancelled, "action.cancelled"),
    }
}

/// Why the executor asks the driver for a fresh decision.
#[derive(Clone, Copy, Debug, PartialEq, Eq, Structural)]
pub enum DecisionReason {
    /// The previous action completed normally.
    Completed,
    /// A blocked or failed action's retry delay elapsed.
    Retry,
    /// A per-person critical-need boundary was reached.
    CriticalBoundary,
}

/// A surfaced re-decision trigger; the executor never selects by itself.
#[derive(Clone, Copy, Debug, PartialEq, Eq, Structural)]
pub struct DecisionRequest {
    person: EntityId,
    reason: DecisionReason,
    at: SimInstant,
}

impl View for DecisionRequest {
    type V = (EntityId, DecisionReason, SimInstant);

    closed spec fn view(&self) -> (EntityId, DecisionReason, SimInstant) {
        (self.person, self.reason, self.at)
    }
}

impl DecisionRequest {
    /// A request for `person`, due at `at`, for `reason`.
    pub fn new(person: EntityId, reason: DecisionReason, at: SimInstant) -> (request:
        DecisionRequest)
        ensures
            request@ == (person, reason, at),
    {
        DecisionRequest { person, reason, at }
    }

    /// The person needing a decision.
    pub fn person(&self) -> (person: EntityId)
        ensures
            person == self@.0,
    {
        self.person
    }

    /// Why the decision is requested.
    pub fn reason(&self) -> (reason: DecisionReason)
        ensures
            reason == self@.1,
    {
        self.reason
    }

    /// The instant the request became due.
    pub fn at(&self) -> (at: SimInstant)
        ensures
            at == self@.2,
    {
        self.at
    }
}

/// Monotonic execution counters; movement-phase completions and top-level
/// completions are counted separately.
#[derive(Clone, Copy, Debug, Default, PartialEq, Eq, Structural)]
pub struct ActionStats {
    /// Actions accepted by `start`.
    pub started: u64,
    /// Movement cells traversed.
    pub steps: u64,
    /// Movement-phase completions (arrivals at the target).
    pub movement_completions: u64,
    /// Completed standalone Move actions.
    pub move_completions: u64,
    /// Completed Eat actions.
    pub eat_completions: u64,
    /// Completed Sleep actions.
    pub sleep_completions: u64,
    /// Completed Work actions.
    pub work_completions: u64,
    /// Completed Idle waits.
    pub idle_completions: u64,
    /// Blocked recoveries.
    pub blocked: u64,
    /// Failed recoveries.
    pub failed: u64,
    /// Interrupted actions.
    pub interrupted: u64,
    /// Externally cancelled actions.
    pub cancelled: u64,
}

/// Read-only action-runtime health for developer metrics.
#[derive(Clone, Copy, Debug, PartialEq, Eq, Structural)]
pub struct ActionRuntimeMetrics {
    /// Underlying scheduler health.
    pub scheduler: SchedulerMetrics,
    /// Persons with an active execution record.
    pub live_actions: usize,
    /// Persons with a pending retry token and no active record.
    pub pending_retries: usize,
    /// Live critical-need check tokens.
    pub live_checks: usize,
    /// Buffered outcome events.
    pub events_buffered: usize,
    /// Outcome events dropped by buffer rotation.
    pub events_rotated: u64,
    /// Total high-level outcome events ever committed.
    pub events_total: u64,
    /// Cumulative FNV-1a-64 stream digest of every committed event.
    pub events_digest: u64,
}

/// Attempted path queries; observational counters, not committed truth.
#[derive(Clone, Copy, Debug, Default, PartialEq, Eq, Structural)]
pub struct PathQueryCounts {
    /// Queries used by candidate enumeration and validation.
    pub candidate_queries: u64,
    /// Queries used to construct an execution path, including failures.
    pub execution_queries: u64,
}

/// The outcome event identity space is exhausted.
#[derive(Clone, Copy, Debug, PartialEq, Eq, Structural)]
pub struct EventLogExhausted;

/// The bounded, rotating log of committed outcome events.
///
/// Every appended event is counted and folded into the stream digest before
/// retention, so the total and the digest do not depend on how often the
/// buffer is drained; once the buffer is full the oldest event is dropped
/// and the rotation counter grows.
pub struct EventLog {
    events: VecDeque<EventRecord>,
    capacity: usize,
    rotated: u64,
    next_event_raw: u64,
    total: u64,
    digest: u64,
}

/// The contents of an [`EventLog`].
pub struct EventLogView {
    /// Retained events, oldest first.
    pub events: Seq<EventRecord>,
    /// Maximum number of retained events.
    pub capacity: usize,
    /// Events dropped by rotation (saturating).
    pub rotated: u64,
    /// Raw value of the next event identity; zero once the space is spent.
    pub next_event_raw: u64,
    /// Events ever appended (saturating).
    pub total: u64,
    /// FNV-1a-64 digest of every appended event's length and body.
    pub digest: u64,
}

impl View for EventLog {
    type V = EventLogView;

    closed spec fn view(&self) -> EventLogView {
        EventLogView {
            events: self.events@,
            capacity: self.capacity,
            rotated: self.rotated,
            next_event_raw: self.next_event_raw,
            total: self.total,
            digest: self.digest,
        }
    }
}

/// `u64` successor that stops at the maximum.
pub open spec fn saturating_succ(value: u64) -> u64 {
    if value == u64::MAX { u64::MAX } else { (value + 1) as u64 }
}

/// The stream digest after folding one event: its body length as eight
/// little-endian bytes, then the body itself.
pub open spec fn digest_after(digest: u64, body: Seq<u8>) -> u64 {
    fnv_fold(fnv_fold(digest, le_bytes(body.len() as u64)), body)
}

/// The log after appending `record` with serialized `body`.
pub open spec fn appended(log: EventLogView, record: EventRecord, body: Seq<u8>) -> EventLogView {
    let full = log.events.len() == log.capacity;
    EventLogView {
        events: if full { log.events.drop_first().push(record) } else { log.events.push(record) },
        rotated: if full { saturating_succ(log.rotated) } else { log.rotated },
        total: saturating_succ(log.total),
        digest: digest_after(log.digest, body),
        ..log
    }
}

/// The log after its retained events were handed out.
pub open spec fn drained(log: EventLogView) -> EventLogView {
    EventLogView { events: Seq::empty(), ..log }
}

/// Every event ever appended is either delivered by a drain, still
/// retained, or counted as rotated out.
pub open spec fn accounted(log: EventLogView, delivered: int) -> bool {
    log.total == delivered + log.events.len() + log.rotated
}

/// The event accounting identity `total = delivered + buffered + rotated`
/// survives an append (while neither counter has saturated) and a drain
/// (which delivers exactly the retained events).
pub proof fn law_event_accounting(
    log: EventLogView,
    delivered: int,
    record: EventRecord,
    body: Seq<u8>,
)
    requires
        accounted(log, delivered),
        log.total < u64::MAX,
        log.rotated < u64::MAX,
        0 < log.capacity,
        log.events.len() <= log.capacity,
    ensures
        accounted(appended(log, record, body), delivered),
        accounted(drained(log), delivered + log.events.len()),
{
}

/// Draining never changes the event total or the stream digest, so both
/// are the same however often the buffer is drained between appends.
pub proof fn law_drain_keeps_total_and_digest(log: EventLogView, record: EventRecord, body: Seq<u8>)
    ensures
        drained(log).total == log.total,
        drained(log).digest == log.digest,
        appended(drained(log), record, body).total == appended(log, record, body).total,
        appended(drained(log), record, body).digest == appended(log, record, body).digest,
{
}

impl EventLog {
    /// The retained events never exceed a positive capacity.
    #[verifier::type_invariant]
    closed spec fn bounded(self) -> bool {
        0 < self.capacity && self.events@.len() <= self.capacity
    }

    /// An empty log retaining at most `capacity` events, or `None` for a
    /// zero capacity.
    pub fn new(capacity: usize) -> (log: Option<EventLog>)
        ensures
            match log {
                Some(log) => {
                    &&& capacity > 0
                    &&& log@.events.len() == 0
                    &&& log@.capacity == capacity
                    &&& log@.rotated == 0
                    &&& log@.next_event_raw == 1
                    &&& log@.total == 0
                    &&& log@.digest == FNV_OFFSET
                },
                None => capacity == 0,
            },
    {
        if capacity == 0 {
            return None;
        }
        Some(
            EventLog {
                events: VecDeque::new(),
                capacity,
                rotated: 0,
                next_event_raw: 1,
                total: 0,
                digest: FNV_OFFSET,
            },
        )
    }

    /// The identity the next event will receive, or `None` once exhausted.
    pub fn peek_event_id(&self) -> (id: Option<EventId>)
        ensures
            match id {
                Some(id) => id@ == self@.next_event_raw && self@.next_event_raw != 0,
                None => self@.next_event_raw == 0,
            },
    {
        EventId::new(self.next_event_raw)
    }

    /// Mints the next event identity; after `u64::MAX` the space is spent
    /// and every later call fails without changing the log.
    pub fn allocate_id(&mut self) -> (id: Result<EventId, EventLogExhausted>)
        ensures
            match id {
                Ok(id) => {
                    &&& old(self)@.next_event_raw != 0
                    &&& id@ == old(self)@.next_event_raw
                    &&& final(self)@.next_event_raw == if old(self)@.next_event_raw == u64::MAX {
                        0
                    } else {
                        (old(self)@.next_event_raw + 1) as u64
                    }
                },
                Err(_) => old(self)@.next_event_raw == 0 && final(self)@.next_event_raw == 0,
            },
            final(self)@.events == old(self)@.events,
            final(self)@.capacity == old(self)@.capacity,
            final(self)@.rotated == old(self)@.rotated,
            final(self)@.total == old(self)@.total,
            final(self)@.digest == old(self)@.digest,
    {
        proof {
            use_type_invariant(&*self);
        }
        match EventId::new(self.next_event_raw) {
            Some(id) => {
                self.next_event_raw = match self.next_event_raw.checked_add(1) {
                    Some(next) => next,
                    None => 0,
                };
                Ok(id)
            },
            None => Err(EventLogExhausted),
        }
    }

    /// Counts `record`, folds its serialized `body` into the stream digest,
    /// and retains it, dropping the oldest retained event when full.
    pub fn append(&mut self, record: EventRecord, body: &[u8])
        ensures
            final(self)@ == appended(old(self)@, record, body@),
            final(self)@.events.len() <= final(self)@.capacity,
    {
        proof {
            use_type_invariant(&*self);
        }
        self.total = self.total.saturating_add(1);
        let length = body.len() as u64;
        let mut digest = fold_le_u64(self.digest, length);
        digest = fold_digest(digest, body);
        self.digest = digest;
        let mut events: VecDeque<EventRecord> = VecDeque::new();
        std::mem::swap(&mut events, &mut self.events);
        if events.len() == self.capacity {
            let _dropped = events.pop_front();
            self.rotated = self.rotated.saturating_add(1);
        }
        events.push_back(record);
        self.events = events;
    }

    /// Hands out every retained event, oldest first, and empties the buffer;
    /// the total, digest and rotation count are untouched.
    pub fn drain(&mut self) -> (out: Vec<EventRecord>)
        ensures
            out@ == old(self)@.events,
            final(self)@ == drained(old(self)@),
    {
        proof {
            use_type_invariant(&*self);
        }
        let mut events: VecDeque<EventRecord> = VecDeque::new();
        std::mem::swap(&mut events, &mut self.events);
        let ghost initial = events@;
        let mut out: Vec<EventRecord> = Vec::new();
        while events.len() > 0
            invariant
                out@ + events@ == initial,
            decreases events@.len(),
        {
            let ghost before = events@;
            match events.pop_front() {
                Some(record) => {
                    proof {
                        assert(before == seq![record] + events@);
                        assert(out@.push(record) + events@ =~= out@ + before);
                    }
                    out.push(record);
                },
                None => {},
            }
        }
        assert(out@ + events@ =~= out@);
        proof {
            assert(self@.events =~= Seq::<EventRecord>::empty());
        }
        out
    }

    /// Retained events.
    pub fn len(&self) -> (count: usize)
        ensures
            count == self@.events.len(),
    {
        self.events.len()
    }

    /// Maximum retained events.
    pub fn capacity(&self) -> (capacity: usize)
        ensures
            capacity == self@.capacity,
    {
        self.capacity
    }

    /// Events dropped by rotation.
    pub fn rotated(&self) -> (rotated: u64)
        ensures
            rotated == self@.rotated,
    {
        self.rotated
    }

    /// Events ever appended.
    pub fn total(&self) -> (total: u64)
        ensures
            total == self@.total,
    {
        self.total
    }

    /// The cumulative stream digest.
    pub fn digest(&self) -> (digest: u64)
        ensures
            digest == self@.digest,
    {
        self.digest
    }
}

/// What one movement tick of a moving person does, read off the path.
#[derive(Clone, Copy, Debug, PartialEq, Eq, Structural)]
pub enum MovementStep {
    /// Step onto path cell `index` and continue at `next_due`.
    Step {
        /// The path cell stepped onto.
        index: usize,
        /// When the next tick is due.
        next_due: SimInstant,
    },
    /// Step onto the last path cell, `index`, and arrive.
    Arrive {
        /// The path cell stepped onto.
        index: usize,
    },
    /// The path has no cell left to walk (start and target coincide):
    /// arrive where the person stands.
    ArriveInPlace,
}

/// The movement tick of a person at path cell `next_index` of a path of
/// `path_len` cells, at `now`: the path's start cell is never re-walked, the
/// last cell is the arrival, and any earlier cell continues one movement
/// step later. `None` when that next instant overflows.
pub fn plan_movement_step(next_index: usize, path_len: usize, now: SimInstant, move_step: SimDuration) -> (step:
    Option<MovementStep>)
    requires
        path_len >= 1,
    ensures
        next_index >= path_len ==> step == Some(MovementStep::ArriveInPlace),
        next_index == path_len - 1 ==> step == Some(MovementStep::Arrive { index: next_index }),
        next_index < path_len - 1 ==> match step {
            Some(MovementStep::Step { index, next_due }) => index == next_index && next_due@ == now@
                + move_step@,
            None => now@ + move_step@ > i64::MAX,
            _ => false,
        },
{
    if next_index >= path_len {
        return Some(MovementStep::ArriveInPlace);
    }
    if next_index == path_len - 1 {
        return Some(MovementStep::Arrive { index: next_index });
    }
    match now.checked_add(move_step) {
        Some(next_due) => Some(MovementStep::Step { index: next_index, next_due }),
        None => None,
    }
}

/// The kind of an activity site.
#[derive(Clone, Copy, Debug, PartialEq, Eq, Structural)]
pub enum SiteKind {
    /// A place to eat.
    Meal,
    /// A place to sleep.
    Rest,
    /// A place to work.
    Work,
}

/// The site kind an action needs at its target, if any.
pub open spec fn required_site_kind(kind: ActionKind) -> Option<SiteKind> {
    match kind {
        ActionKind::Eat => Some(SiteKind::Meal),
        ActionKind::Sleep => Some(SiteKind::Rest),
        ActionKind::Work => Some(SiteKind::Work),
        ActionKind::Move | ActionKind::Idle => None,
    }
}

/// Action-execution failures. Targets are map cells as `(x, y)`.
#[derive(Clone, Copy, Debug, PartialEq, Eq)]
pub enum ActionError {
    /// No person with this stable identity exists.
    UnknownPerson {
        /// The identity that was not found.
        id: EntityId,
    },
    /// The person already has an active action (including an Idle wait).
    AlreadyExecuting {
        /// The busy person.
        id: EntityId,
    },
    /// The candidate's kind/target combination is not executable as given.
    InvalidTarget {
        /// The offending action kind.
        kind: ActionKind,
    },
    /// The target site is missing or of the wrong kind.
    Blocked {
        /// The blocked action kind.
        kind: ActionKind,
        /// The unavailable target.
        target: (i32, i32),
    },
    /// No path connects the person's location to the target.
    Unreachable {
        /// The action kind that cannot route.
        kind: ActionKind,
        /// The unreachable target.
        target: (i32, i32),
    },
    /// The referenced action was already interrupted.
    Interrupted {
        /// The affected person.
        id: EntityId,
    },
    /// The requested transition does not exist.
    InvalidTransition {
        /// The affected person.
        id: EntityId,
    },
    /// A time computation overflowed or went backwards.
    TimeOverflow {
        /// The affected person.
        id: EntityId,
    },
    /// The bounded event log could not allocate a fresh event identity.
    EventLogExhausted,
    /// The underlying scheduler rejected work.
    Schedule {
        /// The scheduler failure.
        source: SchedulerError,
    },
}

/// The text of a target cell, `(x, y)`.
pub open spec fn cell_text(cell: (i32, i32)) -> Seq<char> {
    "("@ + signed_decimal_text(cell.0 as int) + ", "@ + signed_decimal_text(cell.1 as int) + ")"@
}

/// The message of an action failure.
pub open spec fn action_error_text(error: ActionError) -> Seq<char> {
    match error {
        ActionError::UnknownPerson { id } => "unknown person "@ + decimal_text(id@ as nat),
        ActionError::AlreadyExecuting { id } => "person "@ + decimal_text(id@ as nat)
            + " already has an active action"@,
        ActionError::InvalidTarget { kind } => "invalid target for "@ + kind_name_spec(kind),
        ActionError::Blocked { kind, target } => kind_name_spec(kind) + " target "@ + cell_text(
            target,
        ) + " is unavailable"@,
        ActionError::Unreachable { kind, target } => kind_name_spec(kind) + " target "@ + cell_text(
            target,
        ) + " is unreachable"@,
        ActionError::Interrupted { id } => "action of person "@ + decimal_text(id@ as nat)
            + " was interrupted"@,
        ActionError::InvalidTransition { id } => "invalid transition for person "@ + decimal_text(
            id@ as nat,
        ),
        ActionError::TimeOverflow { id } => "time overflow for person "@ + decimal_text(
            id@ as nat,
        ),
        ActionError::EventLogExhausted => "event identity space is exhausted"@,
        ActionError::Schedule { source } => "scheduler failure: "@ + scheduler_error_text(source),
    }
}

/// Writes a target cell as `(x, y)`.
pub(crate) fn write_cell(cell: (i32, i32)) -> (text: String)
    ensures
        text@ == cell_text(cell),
{
    "(".to_owned().concat(i64_to_decimal(cell.0 as i64).as_str()).concat(", ").concat(
        i64_to_decimal(cell.1 as i64).as_str(),
    ).concat(")")
}

impl ActionError {
    /// The message of this failure.
    pub fn to_string(&self) -> (text: String)
        ensures
            text@ == action_error_text(*self),
    {
        match self {
            ActionError::UnknownPerson { id } => "unknown person ".to_owned().concat(
                u64_to_decimal(id.get()).as_str(),
            ),
            ActionError::AlreadyExecuting { id } => "person ".to_owned().concat(
                u64_to_decimal(id.get()).as_str(),
            ).concat(" already has an active action"),
            ActionError::InvalidTarget { kind } => "invalid target for ".to_owned().concat(
                kind_name(*kind),
            ),
            ActionError::Blocked { kind, target } => kind_name(*kind).to_owned().concat(
                " target ",
            ).concat(write_cell(*target).as_str()).concat(" is unavailable"),
            ActionError::Unreachable { kind, target } => kind_name(*kind).to_owned().concat(
                " target ",
            ).concat(write_cell(*target).as_str()).concat(" is unreachable"),
            ActionError::Interrupted { id } => "action of person ".to_owned().concat(
                u64_to_decimal(id.get()).as_str(),
            ).concat(" was interrupted"),
            ActionError::InvalidTransition { id } => "invalid transition for person ".to_owned().concat(
                u64_to_decimal(id.get()).as_str(),
            ),
            ActionError::TimeOverflow { id } => "time overflow for person ".to_owned().concat(
                u64_to_decimal(id.get()).as_str(),
            ),
            ActionError::EventLogExhausted => "event identity space is exhausted".to_owned(),
            ActionError::Schedule { source } => "scheduler failure: ".to_owned().concat(
                source.to_string().as_str(),
            ),
        }
    }
}

/// The commit clock of a person's execution entry: whether an action (or
/// Idle wait) is live, and the instants of the last needs and last commit.
#[derive(Clone, Copy, Debug, PartialEq, Eq, Structural)]
pub struct ExecutionClock {
    /// Whether an action record is live.
    pub active: bool,
    /// When the person's needs were last materialized.
    pub last_needs_at: SimInstant,
    /// When the person's last transition committed.
    pub last_commit_at: SimInstant,
}

/// The start-time guard: a person with a live action is busy, and no start
/// may precede the person's last needs or commit instant, nor the epoch for
/// a person never seen.
pub fn validate_start_time(person: EntityId, execution: Option<ExecutionClock>, now: SimInstant) -> (result:
    Result<(), ActionError>)
    ensures
        result == match execution {
            Some(e) => if e.active {
                Err(ActionError::AlreadyExecuting { id: person })
            } else if now@ < e.last_needs_at@ || now@ < e.last_commit_at@ {
                Err(ActionError::TimeOverflow { id: person })
            } else {
                Ok(())
            },
            None => if now@ < 0 {
                Err(ActionError::TimeOverflow { id: person })
            } else {
                Ok(())
            },
        },
{
    match execution {
        Some(e) => {
            if e.active {
                Err(ActionError::AlreadyExecuting { id: person })
            } else if now.as_seconds() < e.last_needs_at.as_seconds() || now.as_seconds()
                < e.last_commit_at.as_seconds() {
                Err(ActionError::TimeOverflow { id: person })
            } else {
                Ok(())
            }
        },
        None => {
            if now.as_seconds() < 0 {
                Err(ActionError::TimeOverflow { id: person })
            } else {
                Ok(())
            }
        },
    }
}

/// The cancel preflight, before any mutation: the person must be on the
/// map, must have a live action, and `now` must not precede the last needs
/// or commit instant.
pub fn check_cancel(person: EntityId, on_map: bool, execution: Option<ExecutionClock>, now: SimInstant) -> (result:
    Result<(), ActionError>)
    ensures
        result == if !on_map {
            Err(ActionError::UnknownPerson { id: person })
        } else {
            match execution {
                Some(e) => if !e.active {
                    Err(ActionError::InvalidTransition { id: person })
                } else if now@ < e.last_needs_at@ || now@ < e.last_commit_at@ {
                    Err(ActionError::TimeOverflow { id: person })
                } else {
                    Ok(())
                },
                None => Err(ActionError::InvalidTransition { id: person }),
            }
        },
{
    if !on_map {
        return Err(ActionError::UnknownPerson { id: person });
    }
    match execution {
        Some(e) => {
            if !e.active {
                Err(ActionError::InvalidTransition { id: person })
            } else if now.as_seconds() < e.last_needs_at.as_seconds() || now.as_seconds()
                < e.last_commit_at.as_seconds() {
                Err(ActionError::TimeOverflow { id: person })
            } else {
                Ok(())
            }
        },
        None => Err(ActionError::InvalidTransition { id: person }),
    }
}

/// The record a start commits: the observable state entered, the phase, the
/// first path cell to walk, and when the continuation is due.
#[derive(Clone, Copy, Debug, PartialEq, Eq, Structural)]
pub struct StartPlan {
    /// The state entered.
    pub to: ActionState,
    /// The phase entered.
    pub phase: Phase,
    /// The next path cell to walk (the start cell is never re-walked).
    pub next_index: usize,
    /// When the continuation is due.
    pub continue_due: SimInstant,
}

/// The start preflight of a candidate of `kind`: an Idle wait continues one
/// idle wait later; any other kind needs a target, the site its kind
/// requires at that target (`site_at_target` is the kind of the site there,
/// if any), and a path to it (`path_found`), and moves toward it from path
/// cell 1, continuing one movement step later.
pub fn plan_start(
    person: EntityId,
    kind: ActionKind,
    target: Option<(i32, i32)>,
    site_at_target: Option<SiteKind>,
    path_found: bool,
    now: SimInstant,
    idle_wait: SimDuration,
    move_step: SimDuration,
) -> (result: Result<StartPlan, ActionError>)
    ensures
        kind == ActionKind::Idle ==> match result {
            Ok(plan) => plan.to == ActionState::Idle && plan.phase == Phase::Active && plan.next_index
                == 0 && plan.continue_due@ == now@ + idle_wait@,
            Err(e) => e == ActionError::TimeOverflow { id: person } && now@ + idle_wait@ > i64::MAX,
        },
        kind != ActionKind::Idle ==> match result {
            Ok(plan) => {
                &&& target is Some
                &&& (required_site_kind(kind) matches Some(req) ==> site_at_target == Some(req))
                &&& path_found
                &&& plan.to == (ActionState::Moving { action: kind })
                &&& plan.phase == Phase::Moving
                &&& plan.next_index == 1
                &&& plan.continue_due@ == now@ + move_step@
            },
            Err(e) => if target is None {
                e == ActionError::InvalidTarget { kind }
            } else if required_site_kind(kind) matches Some(req) && site_at_target != Some(req) {
                e == ActionError::Blocked { kind, target: target->Some_0 }
            } else if !path_found {
                e == ActionError::Unreachable { kind, target: target->Some_0 }
            } else {
                e == ActionError::TimeOverflow { id: person } && now@ + move_step@ > i64::MAX
            },
        },
{
    match kind {
        ActionKind::Idle => {
            return match now.checked_add(idle_wait) {
                Some(due) => Ok(
                    StartPlan {
                        to: ActionState::Idle,
                        phase: Phase::Active,
                        next_index: 0,
                        continue_due: due,
                    },
                ),
                None => Err(ActionError::TimeOverflow { id: person }),
            };
        },
        _ => {},
    }
    let cell = match target {
        Some(cell) => cell,
        None => return Err(ActionError::InvalidTarget { kind }),
    };
    let required = match kind {
        ActionKind::Eat => Some(SiteKind::Meal),
        ActionKind::Sleep => Some(SiteKind::Rest),
        ActionKind::Work => Some(SiteKind::Work),
        ActionKind::Move | ActionKind::Idle => None,
    };
    match required {
        Some(req) => {
            let available = match site_at_target {
                Some(found) => found == req,
                None => false,
            };
            if !available {
                return Err(ActionError::Blocked { kind, target: cell });
            }
        },
        None => {},
    }
    if !path_found {
        return Err(ActionError::Unreachable { kind, target: cell });
    }
    match now.checked_add(move_step) {
        Some(due) => Ok(
            StartPlan {
                to: ActionState::Moving { action: kind },
                phase: Phase::Moving,
                next_index: 1,
                continue_due: due,
            },
        ),
        None => Err(ActionError::TimeOverflow { id: person }),
    }
}

/// One merged decision request: every request for the same person and
/// instant, folded together. A start is required when any of them reports
/// a completion or an elapsed retry.
#[derive(Clone, Copy, Debug, PartialEq, Eq, Structural)]
pub struct MergedRequest {
    /// The person needing a decision.
    pub person: EntityId,
    /// The instant of the decision.
    pub at: SimInstant,
    /// Whether the person has no action left and must start one.
    pub requires_start: bool,
}

/// The person and instant a request is for.
pub open spec fn request_key(request: DecisionRequest) -> (EntityId, SimInstant) {
    (request@.0, request@.2)
}

/// Whether a request reason leaves the person without an action.
pub open spec fn reason_requires_start(reason: DecisionReason) -> bool {
    reason == DecisionReason::Completed || reason == DecisionReason::Retry
}

/// The distinct `(person, instant)` keys of `requests`, in order of first
/// occurrence.
pub open spec fn first_keys(requests: Seq<DecisionRequest>) -> Seq<(EntityId, SimInstant)>
    decreases requests.len(),
{
    if requests.len() == 0 {
        Seq::empty()
    } else {
        let earlier = first_keys(requests.drop_last());
        let key = request_key(requests.last());
        if earlier.contains(key) {
            earlier
        } else {
            earlier.push(key)
        }
    }
}

/// The keys of merged requests, in order.
pub open spec fn merged_keys(merged: Seq<MergedRequest>) -> Seq<(EntityId, SimInstant)> {
    merged.map_values(|m: MergedRequest| (m.person, m.at))
}

/// Whether some request for `key` leaves the person without an action.
pub open spec fn key_requires_start(
    requests: Seq<DecisionRequest>,
    key: (EntityId, SimInstant),
) -> bool {
    exists|k: int|
        0 <= k < requests.len() && request_key(#[trigger] requests[k]) == key
            && reason_requires_start(requests[k]@.1)
}

/// The position of `person` at `at` among merged requests, if present.
fn find_merged(merged: &Vec<MergedRequest>, person: EntityId, at: SimInstant) -> (found: Option<
    usize,
>)
    ensures
        match found {
            Some(i) => i < merged@.len() && merged_keys(merged@)[i as int] == (person, at),
            None => !merged_keys(merged@).contains((person, at)),
        },
{
    let mut i: usize = 0;
    while i < merged.len()
        invariant
            0 <= i <= merged@.len(),
            forall|j: int| 0 <= j < i ==> merged_keys(merged@)[j] != (person, at),
        decreases merged@.len() - i,
    {
        if merged[i].person == person && merged[i].at == at {
            return Some(i);
        }
        i = i + 1;
    }
    proof {
        if merged_keys(merged@).contains((person, at)) {
            let j = merged_keys(merged@).index_of((person, at));
            assert(merged_keys(merged@)[j] == (person, at));
        }
    }
    None
}

/// Merges decision requests by person and instant, keeping the order in
/// which each pair first occurs; requests for different persons or
/// instants are never merged, and a merged request requires a start when
/// any of its requests reports a completion or an elapsed retry.
pub fn merge_decision_requests(requests: &[DecisionRequest]) -> (merged: Vec<MergedRequest>)
    ensures
        merged_keys(merged@) == first_keys(requests@),
        forall|i: int|
            0 <= i < merged@.len() ==> (#[trigger] merged@[i]).requires_start
                == key_requires_start(requests@, (merged@[i].person, merged@[i].at)),
{
    let mut merged: Vec<MergedRequest> = Vec::new();
    let mut n: usize = 0;
    while n < requests.len()
        invariant
            0 <= n <= requests@.len(),
            merged_keys(merged@) == first_keys(requests@.take(n as int)),
            forall|i: int|
                0 <= i < merged@.len() ==> (#[trigger] merged@[i]).requires_start
                    == key_requires_start(
                    requests@.take(n as int),
                    (merged@[i].person, merged@[i].at),
                ),
        decreases requests@.len() - n,
    {
        let request = requests[n];
        let person = request.person();
        let at = request.at();
        let starts = match request.reason() {
            DecisionReason::Completed | DecisionReason::Retry => true,
            DecisionReason::CriticalBoundary => false,
        };
        let ghost prefix = requests@.take(n as int);
        let ghost next = requests@.take(n as int + 1);
        proof {
            assert(next.drop_last() =~= prefix);
            assert(next.last() == request);
            assert forall|key: (EntityId, SimInstant)|
                #![trigger key_requires_start(next, key)]
                key_requires_start(next, key) == (key_requires_start(prefix, key) || (key == (
                    person,
                    at,
                ) && starts)) by {
                if key_requires_start(next, key) {
                    let k = choose|k: int|
                        0 <= k < next.len() && request_key(#[trigger] next[k]) == key
                            && reason_requires_start(next[k]@.1);
                    if k < n {
                        assert(prefix[k] == next[k]);
                    }
                }
                if key_requires_start(prefix, key) {
                    let k = choose|k: int|
                        0 <= k < prefix.len() && request_key(#[trigger] prefix[k]) == key
                            && reason_requires_start(prefix[k]@.1);
                    assert(next[k] == prefix[k]);
                }
                if key == (person, at) && starts {
                    assert(request_key(next[n as int]) == key);
                }
            }
        }
        match find_merged(&merged, person, at) {
            Some(i) => {
                let ghost old_merged = merged@;
                let entry = MergedRequest {
                    person,
                    at,
                    requires_start: merged[i].requires_start || starts,
                };
                merged.set(i, entry);
                proof {
                    assert(merged_keys(merged@) =~= merged_keys(old_merged));
                    assert(merged_keys(old_merged).contains((person, at))) by {
                        assert(merged_keys(old_merged)[i as int] == (person, at));
                    }
                    assert forall|j: int|
                        0 <= j < merged@.len() implies (#[trigger] merged@[j]).requires_start
                        == key_requires_start(next, (merged@[j].person, merged@[j].at)) by {
                        if j != i {
                            lemma_first_keys_distinct(prefix);
                            assert(merged@[j] == old_merged[j]);
                            assert(merged_keys(old_merged)[j] == (old_merged[j].person, old_merged[j].at));
                            assert(merged_keys(old_merged)[i as int] == (old_merged[i as int].person, old_merged[i as int].at));
                            assert(merged_keys(old_merged)[j] != merged_keys(old_merged)[i as int]);
                        }
                    }
                }
            },
            None => {
                let ghost old_merged = merged@;
                merged.push(MergedRequest { person, at, requires_start: starts });
                proof {
                    assert(merged_keys(merged@) =~= merged_keys(old_merged).push((person, at)));
                    assert forall|j: int|
                        0 <= j < merged@.len() implies (#[trigger] merged@[j]).requires_start
                        == key_requires_start(next, (merged@[j].person, merged@[j].at)) by {
                        if j < old_merged.len() {
                            assert(merged@[j] == old_merged[j]);
                            assert(merged_keys(old_merged)[j] == (old_merged[j].person, old_merged[j].at));
                        } else {
                            assert(!key_requires_start(prefix, (person, at))) by {
                                if key_requires_start(prefix, (person, at)) {
                                    let k = choose|k: int|
                                        0 <= k < prefix.len() && request_key(#[trigger] prefix[k])
                                            == (person, at) && reason_requires_start(prefix[k]@.1);
                                    lemma_first_keys_cover(prefix, k);
                                }
                            }
                        }
                    }
                }
            },
        }
        n = n + 1;
    }
    assert(requests@.take(requests@.len() as int) =~= requests@);
    merged
}

/// Merging decision requests keeps each `(person, instant)` pair exactly
/// once: no two merged requests share a pair, and every request's pair is
/// among them, so requests for different persons or instants are never
/// merged and none is dropped.
pub proof fn law_merge_keeps_each_pair_once(requests: Seq<DecisionRequest>)
    ensures
        first_keys(requests).no_duplicates(),
        forall|k: int|
            0 <= k < requests.len() ==> first_keys(requests).contains(
                request_key(#[trigger] requests[k]),
            ),
{
    lemma_first_keys_distinct(requests);
    assert forall|k: int| 0 <= k < requests.len() implies first_keys(requests).contains(
        request_key(#[trigger] requests[k]),
    ) by {
        lemma_first_keys_cover(requests, k);
    }
}

/// The first keys hold no key twice.
proof fn lemma_first_keys_distinct(requests: Seq<DecisionRequest>)
    ensures
        first_keys(requests).no_duplicates(),
    decreases requests.len(),
{
    if requests.len() > 0 {
        lemma_first_keys_distinct(requests.drop_last());
        let earlier = first_keys(requests.drop_last());
        let key = request_key(requests.last());
        if !earlier.contains(key) {
            let pushed = earlier.push(key);
            assert forall|a: int, b: int| 0 <= a < b < pushed.len() implies pushed[a] != pushed[b] by {
                if b == pushed.len() - 1 {
                    assert(earlier[a] == pushed[a]);
                }
            }
        }
    }
}

/// Every request's key is among the first keys.
proof fn lemma_first_keys_cover(requests: Seq<DecisionRequest>, k: int)
    requires
        0 <= k < requests.len(),
    ensures
        first_keys(requests).contains(request_key(requests[k])),
    decreases requests.len(),
{
    let earlier = first_keys(requests.drop_last());
    if k == requests.len() - 1 {
        if !earlier.contains(request_key(requests.last())) {
            assert(earlier.push(request_key(requests.last())).last() == request_key(requests[k]));
        }
    } else {
        lemma_first_keys_cover(requests.drop_last(), k);
        assert(requests.drop_last()[k] == requests[k]);
        let key = request_key(requests[k]);
        let j = earlier.index_of(key);
        if !earlier.contains(request_key(requests.last())) {
            assert(earlier.push(request_key(requests.last()))[j] == key);
        }
    }
}

/// What the decision driver does with a merged request once a winner is
/// selected.
#[derive(Clone, Copy, Debug, PartialEq, Eq, Structural)]
pub enum ResolutionPlan {
    /// Start the winner.
    Start,
    /// Interrupt the current action, then start the winner.
    InterruptAndStart,
    /// Keep the current action; it already is the winner.
    Keep,
}

/// The decision driver's rule: a person who must start starts the winner;
/// otherwise the current action is kept when it is the winner's kind and
/// target, interrupted and replaced when it differs, and the winner simply
/// starts when there is no current action.
pub fn plan_resolution(
    requires_start: bool,
    current: Option<(ActionKind, Option<(i32, i32)>)>,
    winner: (ActionKind, Option<(i32, i32)>),
) -> (plan: ResolutionPlan)
    ensures
        plan == if requires_start {
            ResolutionPlan::Start
        } else if current == Some(winner) {
            ResolutionPlan::Keep
        } else if current is Some {
            ResolutionPlan::InterruptAndStart
        } else {
            ResolutionPlan::Start
        },
{
    if requires_start {
        return ResolutionPlan::Start;
    }
    match current {
        None => ResolutionPlan::Start,
        Some((kind, target)) => {
            let same_target = match (target, winner.1) {
                (None, None) => true,
                (Some(a), Some(b)) => a.0 == b.0 && a.1 == b.1,
                _ => false,
            };
            if kind == winner.0 && same_target {
                ResolutionPlan::Keep
            } else {
                ResolutionPlan::InterruptAndStart
            }
        },
    }
}

/// The kind of work a popped schedule item carries for a person.
#[derive(Clone, Copy, Debug, PartialEq, Eq, Structural)]
pub enum DueKind {
    /// Continue the live action: a movement step or the activity's end.
    Continue,
    /// A retry delay elapsed.
    Retry,
    /// A critical-need boundary may have been reached.
    CriticalCheck,
}

/// The token state of a person's execution entry: the live continuation
/// (or retry) token, the live critical-check token, and the phase of the
/// live action record, if any.
#[derive(Clone, Copy, Debug, PartialEq, Eq, Structural)]
pub struct TokenState {
    /// The live continuation or retry token.
    pub continue_token: Option<ScheduleToken>,
    /// The live critical-check token.
    pub check_token: Option<ScheduleToken>,
    /// The phase of the live action record, if one is live.
    pub phase: Option<Phase>,
}

/// What a popped schedule item makes the executor do.
#[derive(Clone, Copy, Debug, PartialEq, Eq, Structural)]
pub enum DueAction {
    /// Nothing: the item is stale or delivered twice.
    Ignore,
    /// Walk one movement step.
    StepMovement,
    /// Complete the activity.
    CompleteActivity,
    /// Surface a retry decision request.
    RequestRetry,
    /// Run the critical-need check.
    RunCriticalCheck,
}

/// Token correspondence for a popped item: only the live token of its kind
/// executes, so stale or doubly delivered work does nothing. A continuation
/// needs a live record and acts by its phase; a retry needs no live record.
pub fn dispatch_due(kind: DueKind, token: ScheduleToken, entry: Option<TokenState>) -> (action:
    DueAction)
    ensures
        action == match entry {
            None => DueAction::Ignore,
            Some(e) => match kind {
                DueKind::Continue => if e.continue_token == Some(token) {
                    match e.phase {
                        Some(Phase::Moving) => DueAction::StepMovement,
                        Some(Phase::Active) => DueAction::CompleteActivity,
                        None => DueAction::Ignore,
                    }
                } else {
                    DueAction::Ignore
                },
                DueKind::Retry => if e.continue_token == Some(token) && e.phase is None {
                    DueAction::RequestRetry
                } else {
                    DueAction::Ignore
                },
                DueKind::CriticalCheck => if e.check_token == Some(token) {
                    DueAction::RunCriticalCheck
                } else {
                    DueAction::Ignore
                },
            },
        },
{
    let e = match entry {
        None => return DueAction::Ignore,
        Some(e) => e,
    };
    match kind {
        DueKind::Continue => {
            if e.continue_token != Some(token) {
                return DueAction::Ignore;
            }
            match e.phase {
                Some(Phase::Moving) => DueAction::StepMovement,
                Some(Phase::Active) => DueAction::CompleteActivity,
                None => DueAction::Ignore,
            }
        },
        DueKind::Retry => {
            if e.continue_token == Some(token) && e.phase.is_none() {
                DueAction::RequestRetry
            } else {
                DueAction::Ignore
            }
        },
        DueKind::CriticalCheck => {
            if e.check_token == Some(token) {
                DueAction::RunCriticalCheck
            } else {
                DueAction::Ignore
            }
        },
    }
}

/// Why an action is abandoned into a retry.
#[derive(Clone, Copy, Debug, PartialEq, Eq, Structural)]
pub enum RecoveryKind {
    /// The target site is missing or of the wrong kind.
    Blocked,
    /// The action could not be carried out.
    Failed,
}

/// The transition reason and outcome-event type of a recovery.
pub open spec fn recovery_outcome_spec(kind: RecoveryKind) -> (TransitionReason, Seq<char>) {
    match kind {
        RecoveryKind::Blocked => (TransitionReason::Blocked, "action.blocked"@),
        RecoveryKind::Failed => (TransitionReason::Failed, "action.failed"@),
    }
}

/// The transition reason and outcome-event type of a recovery.
pub fn recovery_outcome(kind: RecoveryKind) -> (outcome: (TransitionReason, &'static str))
    ensures
        (outcome.0, outcome.1@) == recovery_outcome_spec(kind),
{
    match kind {
        RecoveryKind::Blocked => (TransitionReason::Blocked, "action.blocked"),
        RecoveryKind::Failed => (TransitionReason::Failed, "action.failed"),
    }
}

/// What arriving at the end of a movement phase leads to.
#[derive(Clone, Copy, Debug, PartialEq, Eq, Structural)]
pub enum Arrival {
    /// A Move is complete on arrival.
    Complete,
    /// The activity cannot begin; recover into a retry.
    Recover(RecoveryKind),
    /// Begin the activity, which ends at `due`.
    Activate {
        /// When the activity completes.
        due: SimInstant,
    },
}

/// The arrival rule: a Move completes; any other action needs its target,
/// and the site its kind requires there (`site_at_target` is the kind of
/// the site at the target, if any), and then performs its activity for the
/// configured duration.
pub fn plan_arrival(
    person: EntityId,
    action: ActionKind,
    target: Option<(i32, i32)>,
    site_at_target: Option<SiteKind>,
    now: SimInstant,
    config: &ActionConfig,
) -> (result: Result<Arrival, ActionError>)
    ensures
        action == ActionKind::Move ==> result == Ok::<Arrival, ActionError>(Arrival::Complete),
        action != ActionKind::Move && target is None ==> result == Ok::<Arrival, ActionError>(
            Arrival::Recover(RecoveryKind::Failed),
        ),
        action != ActionKind::Move && target is Some && !(required_site_kind(action) matches Some(
            req,
        ) && site_at_target == Some(req)) ==> result == Ok::<Arrival, ActionError>(
            Arrival::Recover(RecoveryKind::Blocked),
        ),
        action != ActionKind::Move && target is Some && (required_site_kind(action) matches Some(
            req,
        ) && site_at_target == Some(req)) ==> match activity_seconds(config@, action) {
            None => result == Err::<Arrival, ActionError>(
                ActionError::InvalidTransition { id: person },
            ),
            Some(seconds) => match result {
                Ok(Arrival::Activate { due }) => due@ == now@ + seconds,
                Err(e) => e == ActionError::TimeOverflow { id: person } && now@ + seconds
                    > i64::MAX,
                _ => false,
            },
        },
{
    match action {
        ActionKind::Move => return Ok(Arrival::Complete),
        _ => {},
    }
    if target.is_none() {
        return Ok(Arrival::Recover(RecoveryKind::Failed));
    }
    let required = match action {
        ActionKind::Eat => Some(SiteKind::Meal),
        ActionKind::Sleep => Some(SiteKind::Rest),
        ActionKind::Work => Some(SiteKind::Work),
        ActionKind::Move | ActionKind::Idle => None,
    };
    let available = match (required, site_at_target) {
        (Some(req), Some(found)) => req == found,
        _ => false,
    };
    if !available {
        return Ok(Arrival::Recover(RecoveryKind::Blocked));
    }
    let duration = match config.activity_duration(action) {
        Some(duration) => duration,
        None => return Err(ActionError::InvalidTransition { id: person }),
    };
    match now.checked_add(duration) {
        Some(due) => Ok(Arrival::Activate { due }),
        None => Err(ActionError::TimeOverflow { id: person }),
    }
}

/// `u64` increment that stops at the maximum.
pub open spec fn bumped(value: u64) -> u64 {
    if value == u64::MAX { value } else { (value + 1) as u64 }
}

impl ActionStats {
    /// Counts one completed action of `kind`.
    pub fn record_completion(&mut self, kind: ActionKind)
        ensures
            *final(self) == (match kind {
                ActionKind::Move => ActionStats { move_completions: bumped(old(self).move_completions), ..*old(self) },
                ActionKind::Eat => ActionStats { eat_completions: bumped(old(self).eat_completions), ..*old(self) },
                ActionKind::Sleep => ActionStats { sleep_completions: bumped(old(self).sleep_completions), ..*old(self) },
                ActionKind::Work => ActionStats { work_completions: bumped(old(self).work_completions), ..*old(self) },
                ActionKind::Idle => ActionStats { idle_completions: bumped(old(self).idle_completions), ..*old(self) },
            }),
    {
        match kind {
            ActionKind::Move => self.move_completions = self.move_completions.saturating_add(1),
            ActionKind::Eat => self.eat_completions = self.eat_completions.saturating_add(1),
            ActionKind::Sleep => self.sleep_completions = self.sleep_completions.saturating_add(1),
            ActionKind::Work => self.work_completions = self.work_completions.saturating_add(1),
            ActionKind::Idle => self.idle_completions = self.idle_completions.saturating_add(1),
        }
    }

    /// Counts one recovery of `kind`.
    pub fn record_recovery(&mut self, kind: RecoveryKind)
        ensures
            *final(self) == (match kind {
                RecoveryKind::Blocked => ActionStats { blocked: bumped(old(self).blocked), ..*old(self) },
                RecoveryKind::Failed => ActionStats { failed: bumped(old(self).failed), ..*old(self) },
            }),
    {
        match kind {
            RecoveryKind::Blocked => self.blocked = self.blocked.saturating_add(1),
            RecoveryKind::Failed => self.failed = self.failed.saturating_add(1),
        }
    }

    /// Counts one cancellation for `reason`.
    pub fn record_cancel(&mut self, reason: CancelReason)
        ensures
            *final(self) == (match reason {
                CancelReason::Interrupted => ActionStats { interrupted: bumped(old(self).interrupted), ..*old(self) },
                CancelReason::External => ActionStats { cancelled: bumped(old(self).cancelled), ..*old(self) },
            }),
    {
        match reason {
            CancelReason::Interrupted => self.interrupted = self.interrupted.saturating_add(1),
            CancelReason::External => self.cancelled = self.cancelled.saturating_add(1),
        }
    }
}

/// Each action kind takes the duration, needs the site and shows the state
/// named after it: Eat lasts the eat duration at a Meal site while Eating,
/// Sleep the sleep duration at a Rest site while Sleeping, Work the work
/// duration at a Work site while Working, an Idle wait the idle wait with no
/// site, and a Move has no activity and no site; every movement phase
/// shows Moving with its own action.
pub proof fn law_kinds_map_to_their_own_activity(config: ActionConfigView, kind: ActionKind)
    ensures
        kind == ActionKind::Eat ==> activity_seconds(config, kind) == Some(config.eat)
            && required_site_kind(kind) == Some(SiteKind::Meal) && state_of_spec(kind, Phase::Active)
            == ActionState::Eating,
        kind == ActionKind::Sleep ==> activity_seconds(config, kind) == Some(config.sleep)
            && required_site_kind(kind) == Some(SiteKind::Rest) && state_of_spec(kind, Phase::Active)
            == ActionState::Sleeping,
        kind == ActionKind::Work ==> activity_seconds(config, kind) == Some(config.work)
            && required_site_kind(kind) == Some(SiteKind::Work) && state_of_spec(kind, Phase::Active)
            == ActionState::Working,
        kind == ActionKind::Idle ==> activity_seconds(config, kind) == Some(config.idle_wait)
            && required_site_kind(kind) is None && state_of_spec(kind, Phase::Active)
            == ActionState::Idle,
        kind == ActionKind::Move ==> activity_seconds(config, kind) is None && required_site_kind(
            kind,
        ) is None,
        kind != ActionKind::Idle ==> state_of_spec(kind, Phase::Moving) == (ActionState::Moving {
            action: kind,
        }),
{
}

/// An interrupt commits an Interrupted transition and an external cancel a
/// Cancelled one; a blocked recovery commits Blocked and a failed one
/// Failed, each with its own outcome-event type.
pub proof fn law_stops_keep_their_reason(cancel: CancelReason, recovery: RecoveryKind)
    ensures
        cancel_outcome_spec(cancel).0 == (if cancel == CancelReason::Interrupted {
            TransitionReason::Interrupted
        } else {
            TransitionReason::Cancelled
        }),
        recovery_outcome_spec(recovery).0 == (if recovery == RecoveryKind::Blocked {
            TransitionReason::Blocked
        } else {
            TransitionReason::Failed
        }),
        cancel_outcome_spec(CancelReason::Interrupted).1 != cancel_outcome_spec(
            CancelReason::External,
        ).1,
        recovery_outcome_spec(RecoveryKind::Blocked).1 != recovery_outcome_spec(
            RecoveryKind::Failed,
        ).1,
{
    reveal_strlit("action.interrupted");
    reveal_strlit("action.cancelled");
    reveal_strlit("action.blocked");
    reveal_strlit("action.failed");
    assert("action.interrupted"@[7] != "action.cancelled"@[7]);
    assert("action.blocked"@[7] != "action.failed"@[7]);
}

} // verus!
