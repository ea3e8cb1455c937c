//! Command rules of the single simulation worker.
//!
//! The worker applies bounded commands only between kernel calls, so their
//! effects are visible at a complete committed boundary. Every enqueued
//! command eventually gets exactly one acknowledgement recording whether it
//! was applied or rejected and the real committed boundary. The decisions
//! live here; the thread, channel, wall clock, and kernel calls live with
//! the program that runs the worker.

use std::collections::VecDeque;

use vstd::prelude::*;

use crate::kernel::KernelState;
use crate::time::{seconds_text, SimDuration, SimInstant};
use vstd::string::StringExecFns;

verus! {

/// Bounded command-queue capacity.
pub const COMMAND_QUEUE_CAPACITY: usize = 64;

/// Bounded acknowledgement-log capacity.
pub const ACK_LOG_CAPACITY: usize = 1_024;

/// Maximum simulation seconds one `Step` command may advance.
pub const MAX_STEP_STEPS: u64 = 1_000;

/// Wall-clock publication throttle while running, in milliseconds.
pub const PUBLISH_INTERVAL_MILLIS: u128 = 100;

/// Upper bound on one catch-up sleep while running, in milliseconds.
pub const RUNNING_SLEEP_CAP_MILLIS: u64 = 50;

/// Per-call advance horizon at [`SpeedMultiplier::Max`].
pub const MAX_ADVANCE_CHUNK_SECONDS: i64 = 31_536_000;

/// The closed speed set. A multiplier changes wall-clock pacing only; it
/// never changes simulation cadence or content.
#[derive(Clone, Copy, Debug, PartialEq, Eq, Structural)]
pub enum SpeedMultiplier {
    /// One simulated second per wall second.
    X1,
    /// Five simulated seconds per wall second.
    X5,
    /// Twenty simulated seconds per wall second.
    X20,
    /// One hundred simulated seconds per wall second.
    X100,
    /// One thousand simulated seconds per wall second.
    X1000,
    /// Unthrottled: advance as fast as the kernel commits work.
    Max,
}

/// The numeric pacing factor of a speed, if it has one.
pub open spec fn speed_factor(speed: SpeedMultiplier) -> Option<u64> {
    match speed {
        SpeedMultiplier::X1 => Some(1),
        SpeedMultiplier::X5 => Some(5),
        SpeedMultiplier::X20 => Some(20),
        SpeedMultiplier::X100 => Some(100),
        SpeedMultiplier::X1000 => Some(1000),
        SpeedMultiplier::Max => None,
    }
}

impl SpeedMultiplier {
    /// The numeric pacing factor, or `None` for [`SpeedMultiplier::Max`].
    pub fn factor(self) -> (factor: Option<u64>)
        ensures
            factor == speed_factor(self),
    {
        match self {
            SpeedMultiplier::X1 => Some(1),
            SpeedMultiplier::X5 => Some(5),
            SpeedMultiplier::X20 => Some(20),
            SpeedMultiplier::X100 => Some(100),
            SpeedMultiplier::X1000 => Some(1000),
            SpeedMultiplier::Max => None,
        }
    }

    /// Maps the numeric UI value to the closed set; `Max` is never produced.
    ///
    /// Fails with [`WorkerError::InvalidSpeed`] for any value other than 1,
    /// 5, 20, 100, or 1,000.
    pub fn from_u32(value: u32) -> (speed: Result<SpeedMultiplier, WorkerError>)
        ensures
            match speed {
                Ok(s) => s != SpeedMultiplier::Max && speed_factor(s) == Some(value as u64),
                Err(e) => e == WorkerError::InvalidSpeed && value != 1 && value != 5 && value != 20
                    && value != 100 && value != 1000,
            },
    {
        match value {
            1 => Ok(SpeedMultiplier::X1),
            5 => Ok(SpeedMultiplier::X5),
            20 => Ok(SpeedMultiplier::X20),
            100 => Ok(SpeedMultiplier::X100),
            1000 => Ok(SpeedMultiplier::X1000),
            _ => Err(WorkerError::InvalidSpeed),
        }
    }
}

/// The closed command set accepted by the worker.
#[derive(Clone, Copy, Debug, PartialEq, Eq, Structural)]
pub enum WorkerCommand {
    /// Stop wall-driven advancement at the next committed boundary.
    Pause,
    /// Resume wall-paced advancement from the exact committed boundary.
    Resume,
    /// Change the pacing multiplier; simulation content is unaffected.
    SetSpeed(SpeedMultiplier),
    /// While paused, advance exactly this many simulation seconds.
    Step(u64),
    /// While paused, advance to an explicit target.
    AdvanceTo(SimInstant),
    /// Apply at the next committed boundary, then close the worker.
    Shutdown,
}

/// Identifies one successfully enqueued command (monotonic from 1).
#[derive(Clone, Copy, Debug, PartialEq, Eq, Structural, PartialOrd, Ord)]
pub struct CommandSequence(u64);

impl View for CommandSequence {
    type V = u64;

    closed spec fn view(&self) -> u64 {
        self.0
    }
}

impl CommandSequence {
    /// Creates a handle from a raw value.
    pub fn new(raw: u64) -> (sequence: CommandSequence)
        ensures
            sequence@ == raw,
    {
        CommandSequence(raw)
    }

    /// The raw sequence number.
    pub fn get(self) -> (raw: u64)
        ensures
            raw == self@,
    {
        self.0
    }
}

/// Worker command and lifecycle failures.
#[derive(Clone, Copy, Debug, PartialEq, Eq, Structural)]
pub enum WorkerError {
    /// The bounded command queue is saturated; nothing was enqueued.
    Full,
    /// The worker is shut down; no further commands are accepted.
    Closed,
    /// A later queued command interrupted an explicit advance at a complete boundary.
    Interrupted,
    /// A speed outside the closed set was requested.
    InvalidSpeed,
    /// A `Step` above [`MAX_STEP_STEPS`], or submitted while not paused.
    InvalidStep,
    /// `AdvanceTo` was submitted while the worker is not paused.
    NotPaused,
    /// A requested target earlier than the committed boundary.
    ClockRegression {
        /// The current committed instant.
        current: SimInstant,
        /// The rejected earlier target.
        requested: SimInstant,
    },
    /// `now + steps` would overflow the simulation timeline.
    TickOverflow,
    /// The kernel faulted; advancing commands are rejected.
    KernelFaulted,
    /// The kernel holds spawned persons but was never started.
    KernelNotStarted,
}

/// The outcome of one enqueued command.
#[derive(Clone, Copy, Debug, PartialEq, Eq, Structural)]
pub enum CommandOutcome {
    /// The command took effect at the acknowledged boundary.
    Applied,
    /// The command was rejected with no simulation side effect, or preempted
    /// by shutdown.
    Rejected(WorkerError),
}

/// The final acknowledgement of one enqueued command.
#[derive(Clone, Copy, Debug, PartialEq, Eq, Structural)]
pub struct CommandAck {
    sequence: CommandSequence,
    command: WorkerCommand,
    outcome: CommandOutcome,
    committed_to: SimInstant,
}

/// The fields of a [`CommandAck`].
pub struct CommandAckView {
    pub sequence: u64,
    pub command: WorkerCommand,
    pub outcome: CommandOutcome,
    pub committed_to: SimInstant,
}

impl View for CommandAck {
    type V = CommandAckView;

    closed spec fn view(&self) -> CommandAckView {
        CommandAckView {
            sequence: self.sequence@,
            command: self.command,
            outcome: self.outcome,
            committed_to: self.committed_to,
        }
    }
}

impl CommandAck {
    /// Acknowledges `command` with its outcome at the committed boundary.
    pub fn new(
        sequence: CommandSequence,
        command: WorkerCommand,
        outcome: CommandOutcome,
        committed_to: SimInstant,
    ) -> (ack: CommandAck)
        ensures
            ack@ == (CommandAckView { sequence: sequence@, command, outcome, committed_to }),
    {
        CommandAck { sequence, command, outcome, committed_to }
    }

    /// The acknowledged command's sequence.
    pub fn sequence(&self) -> (sequence: CommandSequence)
        ensures
            sequence@ == self@.sequence,
    {
        self.sequence
    }

    /// The acknowledged command.
    pub fn command(&self) -> (command: WorkerCommand)
        ensures
            command == self@.command,
    {
        self.command
    }

    /// Whether the command was applied or rejected.
    pub fn outcome(&self) -> (outcome: &CommandOutcome)
        ensures
            *outcome == self@.outcome,
    {
        &self.outcome
    }

    /// The actual committed boundary after the command was processed.
    pub fn committed_to(&self) -> (at: SimInstant)
        ensures
            at == self@.committed_to,
    {
        self.committed_to
    }
}

/// The observable status of one submitted command.
#[derive(Clone, Copy, Debug, PartialEq, Eq, Structural)]
pub enum CommandStatus {
    /// The sequence was never assigned by this worker.
    Unknown,
    /// The command is enqueued and has not been processed yet.
    Pending,
    /// The command was processed, but its ack fell out of the bounded window.
    Evicted,
    /// The command was processed; the ack carries the outcome and boundary.
    Completed(CommandAck),
}

/// The worker lifecycle phase.
#[derive(Clone, Copy, Debug, PartialEq, Eq, Structural)]
pub enum WorkerPhase {
    /// No wall-driven advancement; explicit `Step`/`AdvanceTo` are legal.
    Paused,
    /// Advancing under the current speed's pacing.
    Running,
    /// The kernel faulted; no advancement, last publication retained.
    Faulted,
    /// Shut down; commands are rejected and the last publication is retained.
    Closed,
}

/// Whether a worker may be started over a kernel in `state` holding
/// `person_count` persons: a faulted kernel has no complete boundary, and a
/// populated kernel must have been started.
pub fn admit_kernel(state: KernelState, person_count: usize) -> (result: Result<(), WorkerError>)
    ensures
        match result {
            Ok(()) => state != KernelState::Faulted && !(state == KernelState::Setup
                && person_count > 0),
            Err(WorkerError::KernelFaulted) => state == KernelState::Faulted,
            Err(WorkerError::KernelNotStarted) => state == KernelState::Setup && person_count > 0,
            Err(_) => false,
        },
{
    if state == KernelState::Faulted {
        return Err(WorkerError::KernelFaulted);
    }
    if state == KernelState::Setup && person_count > 0 {
        return Err(WorkerError::KernelNotStarted);
    }
    Ok(())
}

/// Whether a command preempts an explicit drive that is in progress.
pub fn command_interrupts(command: WorkerCommand) -> (interrupts: bool)
    ensures
        interrupts == (command == WorkerCommand::Pause || command == WorkerCommand::Shutdown),
{
    match command {
        WorkerCommand::Pause | WorkerCommand::Shutdown => true,
        _ => false,
    }
}

/// The pacing target of a numeric multiplier: `anchor` plus the whole
/// simulated seconds earned over `elapsed_millis` of wall time, saturating
/// at the end of the timeline.
pub open spec fn paced_instant(anchor: i64, elapsed_millis: u128, factor: u64) -> i64 {
    let product = elapsed_millis * factor;
    let scaled = if product > u128::MAX { u128::MAX as int } else { product };
    let seconds = scaled / 1000;
    let seconds = if seconds > i64::MAX { i64::MAX as int } else { seconds };
    if anchor + seconds > i64::MAX { i64::MAX } else { (anchor + seconds) as i64 }
}

/// The pacing target for a numeric multiplier.
pub fn pacing_target(anchor: SimInstant, elapsed_millis: u128, factor: u64) -> (target: SimInstant)
    ensures
        target@ == paced_instant(anchor@, elapsed_millis, factor),
{
    let scaled = match elapsed_millis.checked_mul(factor as u128) {
        Some(product) => product,
        None => u128::MAX,
    };
    let seconds_wide = scaled / 1000;
    let seconds: i64 = if seconds_wide > i64::MAX as u128 {
        i64::MAX
    } else {
        seconds_wide as i64
    };
    let duration = match SimDuration::from_seconds(seconds) {
        Some(duration) => duration,
        None => SimDuration::longest(),
    };
    match anchor.checked_add(duration) {
        Some(target) => target,
        None => SimInstant::latest(),
    }
}

/// Milliseconds until the next simulated second is due under a numeric
/// multiplier, capped so the stop flag stays responsive.
pub open spec fn catch_up_millis(anchor: i64, elapsed_millis: u128, factor: u64, now: i64) -> u64 {
    let diff = now - anchor;
    let lag = (if diff > i64::MAX { i64::MAX as int } else if diff < i64::MIN { i64::MIN as int } else { diff }) + 1;
    let lag_wide = if lag < 0 { u128::MAX as int } else { lag };
    let millis = if lag_wide * 1000 > u128::MAX { u128::MAX as int } else { lag_wide * 1000 };
    let due = if millis % (factor as int) == 0 { millis / (factor as int) } else { millis / (factor as int) + 1 };
    let remaining = if due > elapsed_millis { due - elapsed_millis } else { 0 };
    let remaining = if remaining > u64::MAX { u64::MAX as int } else { remaining };
    if remaining > RUNNING_SLEEP_CAP_MILLIS { RUNNING_SLEEP_CAP_MILLIS } else { remaining as u64 }
}

/// The wall wait, in milliseconds, until the next simulated second becomes
/// due under a numeric multiplier, capped so the stop flag stays responsive.
pub fn catch_up_sleep(anchor: SimInstant, elapsed_millis: u128, factor: u64, now: SimInstant) -> (millis: u64)
    requires
        factor > 0,
        now@ - anchor@ < i64::MAX,
    ensures
        millis == catch_up_millis(anchor@, elapsed_millis, factor, now@),
        millis <= RUNNING_SLEEP_CAP_MILLIS,
{
    let difference: i64 = match now.as_seconds().checked_sub(anchor.as_seconds()) {
        Some(d) => d,
        None => i64::MIN,
    };
    let lag_seconds: i64 = difference + 1;
    let lag: u128 = if lag_seconds < 0 {
        u128::MAX
    } else {
        lag_seconds as u128
    };
    let millis: u128 = match lag.checked_mul(1000) {
        Some(m) => m,
        None => u128::MAX,
    };
    let wide_factor = factor as u128;
    let due: u128 = if millis % wide_factor == 0 {
        millis / wide_factor
    } else {
        assert(millis / wide_factor < u128::MAX) by (nonlinear_arith)
            requires
                wide_factor >= 1,
                millis % wide_factor != 0,
        {
            if wide_factor == 1 {
                assert(millis % wide_factor == 0);
            }
            assert(millis / wide_factor <= millis / 2);
        }
        millis / wide_factor + 1
    };
    let remaining: u128 = if due > elapsed_millis {
        due - elapsed_millis
    } else {
        0
    };
    let remaining: u64 = if remaining > u64::MAX as u128 {
        u64::MAX
    } else {
        remaining as u64
    };
    if remaining > RUNNING_SLEEP_CAP_MILLIS {
        RUNNING_SLEEP_CAP_MILLIS
    } else {
        remaining
    }
}

/// The worker-thread state between kernel calls.
#[derive(Clone, Copy, Debug, PartialEq, Eq, Structural)]
pub struct LoopState {
    /// No wall-driven advancement.
    pub paused: bool,
    /// The kernel faulted; advancing commands are rejected.
    pub faulted: bool,
    /// A shutdown command was applied.
    pub shutdown: bool,
    /// The current pacing multiplier.
    pub speed: SpeedMultiplier,
}

impl LoopState {
    /// The state a worker starts in: paused at speed 1, faulted exactly when
    /// the kernel it was given is faulted.
    pub fn new(kernel_faulted: bool) -> (state: LoopState)
        ensures
            state == (LoopState {
                paused: true,
                faulted: kernel_faulted,
                shutdown: false,
                speed: SpeedMultiplier::X1,
            }),
    {
        LoopState { paused: true, faulted: kernel_faulted, shutdown: false, speed: SpeedMultiplier::X1 }
    }
}

/// What the worker does next for a command.
#[derive(Clone, Copy, Debug, PartialEq, Eq, Structural)]
pub enum CommandAction {
    /// Acknowledge with this outcome at the current committed boundary.
    Ack(CommandOutcome),
    /// Publish the current committed boundary, then acknowledge.
    PublishThenAck(CommandOutcome),
    /// Drive the kernel toward this target; settle the acknowledgement with
    /// [`settle_drive`] once the drive ends.
    Drive(SimInstant),
}

/// The effects of applying one command at a committed boundary.
#[derive(Clone, Copy, Debug, PartialEq, Eq, Structural)]
pub struct CommandDecision {
    /// What to do next.
    pub action: CommandAction,
    /// The phase to report, if it changes.
    pub phase: Option<WorkerPhase>,
    /// Restart wall-clock pacing from the committed boundary.
    pub reanchor: bool,
    /// Stop accepting submissions.
    pub close_queue: bool,
}

/// How an explicit drive toward a target ended.
#[derive(Clone, Copy, Debug, PartialEq, Eq, Structural)]
pub enum DriveOutcome {
    /// The target was reached with the target committed.
    Reached,
    /// The independent stop flag preempted the drive between kernel calls.
    Stopped,
    /// Yielded to a later command at a complete boundary.
    Interrupted,
    /// The kernel faulted.
    Faulted,
}

/// A decision that only acknowledges.
pub open spec fn ack_only(outcome: CommandOutcome) -> CommandDecision {
    CommandDecision {
        action: CommandAction::Ack(outcome),
        phase: None,
        reanchor: false,
        close_queue: false,
    }
}

/// The instant `now + steps`, when it is representable and `now` is not
/// before the epoch.
pub open spec fn step_target(now: i64, steps: u64) -> Option<i64> {
    if now >= 0 && now + steps <= i64::MAX {
        Some((now + steps) as i64)
    } else {
        None
    }
}

/// Applies one command at the committed boundary `now`, updating the loop
/// state and returning what the worker must do.
///
/// A shut-down or stopping worker rejects everything as closed. `Pause`
/// always applies; `Resume` is rejected on a faulted kernel; `SetSpeed`
/// always applies; `Step` and `AdvanceTo` require a paused worker, reject a
/// too-long step or an earlier target, apply a no-op at once, are rejected
/// on a faulted kernel, and otherwise drive; `Shutdown` closes the queue.
/// A faulted worker never publishes.
pub fn plan_command(state: &mut LoopState, command: WorkerCommand, stopping: bool, now: SimInstant) -> (decision: CommandDecision)
    ensures
        old(state).faulted ==> !(decision.action is PublishThenAck) && !(decision.action is Drive)
            && final(state).faulted,
        old(state).shutdown ==> decision == ack_only(CommandOutcome::Rejected(WorkerError::Closed)),
        if old(state).shutdown || stopping {
            *final(state) == *old(state)
                && decision == ack_only(CommandOutcome::Rejected(WorkerError::Closed))
        } else {
            match command {
                WorkerCommand::Pause => {
                    &&& *final(state) == (LoopState { paused: true, ..*old(state) })
                    &&& decision == (CommandDecision {
                        action: if old(state).faulted {
                            CommandAction::Ack(CommandOutcome::Applied)
                        } else {
                            CommandAction::PublishThenAck(CommandOutcome::Applied)
                        },
                        phase: Some(
                            if old(state).faulted {
                                WorkerPhase::Faulted
                            } else {
                                WorkerPhase::Paused
                            },
                        ),
                        reanchor: false,
                        close_queue: false,
                    })
                },
                WorkerCommand::Resume => if old(state).faulted {
                    *final(state) == *old(state) && decision == ack_only(
                        CommandOutcome::Rejected(WorkerError::KernelFaulted),
                    )
                } else {
                    &&& *final(state) == (LoopState { paused: false, ..*old(state) })
                    &&& decision == (CommandDecision {
                        action: CommandAction::Ack(CommandOutcome::Applied),
                        phase: Some(WorkerPhase::Running),
                        reanchor: true,
                        close_queue: false,
                    })
                },
                WorkerCommand::SetSpeed(speed) => {
                    &&& *final(state) == (LoopState { speed, ..*old(state) })
                    &&& decision == (CommandDecision {
                        action: CommandAction::Ack(CommandOutcome::Applied),
                        phase: None,
                        reanchor: !old(state).paused,
                        close_queue: false,
                    })
                },
                WorkerCommand::Step(steps) => {
                    &&& *final(state) == *old(state)
                    &&& decision == if !old(state).paused || steps > MAX_STEP_STEPS {
                        ack_only(CommandOutcome::Rejected(WorkerError::InvalidStep))
                    } else if steps == 0 {
                        ack_only(CommandOutcome::Applied)
                    } else if old(state).faulted {
                        ack_only(CommandOutcome::Rejected(WorkerError::KernelFaulted))
                    } else {
                        match step_target(now@, steps) {
                            Some(target) => CommandDecision {
                                action: CommandAction::Drive(SimInstant::at_second(target)),
                                phase: None,
                                reanchor: false,
                                close_queue: false,
                            },
                            None => ack_only(CommandOutcome::Rejected(WorkerError::TickOverflow)),
                        }
                    }
                },
                WorkerCommand::AdvanceTo(target) => {
                    &&& *final(state) == *old(state)
                    &&& decision == if !old(state).paused {
                        ack_only(CommandOutcome::Rejected(WorkerError::NotPaused))
                    } else if target@ < now@ {
                        ack_only(
                            CommandOutcome::Rejected(
                                WorkerError::ClockRegression { current: now, requested: target },
                            ),
                        )
                    } else if target@ == now@ {
                        ack_only(CommandOutcome::Applied)
                    } else if old(state).faulted {
                        ack_only(CommandOutcome::Rejected(WorkerError::KernelFaulted))
                    } else {
                        CommandDecision {
                            action: CommandAction::Drive(target),
                            phase: None,
                            reanchor: false,
                            close_queue: false,
                        }
                    }
                },
                WorkerCommand::Shutdown => {
                    &&& *final(state) == (LoopState { shutdown: true, ..*old(state) })
                    &&& decision == (CommandDecision {
                        action: if old(state).faulted {
                            CommandAction::Ack(CommandOutcome::Applied)
                        } else {
                            CommandAction::PublishThenAck(CommandOutcome::Applied)
                        },
                        phase: None,
                        reanchor: false,
                        close_queue: true,
                    })
                },
            }
        },
{
    let closed = CommandDecision {
        action: CommandAction::Ack(CommandOutcome::Rejected(WorkerError::Closed)),
        phase: None,
        reanchor: false,
        close_queue: false,
    };
    if state.shutdown || stopping {
        return closed;
    }
    match command {
        WorkerCommand::Pause => {
            state.paused = true;
            let phase = if state.faulted {
                WorkerPhase::Faulted
            } else {
                WorkerPhase::Paused
            };
            let action = if state.faulted {
                CommandAction::Ack(CommandOutcome::Applied)
            } else {
                CommandAction::PublishThenAck(CommandOutcome::Applied)
            };
            CommandDecision { action, phase: Some(phase), reanchor: false, close_queue: false }
        },
        WorkerCommand::Resume => {
            if state.faulted {
                return CommandDecision {
                    action: CommandAction::Ack(CommandOutcome::Rejected(WorkerError::KernelFaulted)),
                    phase: None,
                    reanchor: false,
                    close_queue: false,
                };
            }
            state.paused = false;
            CommandDecision {
                action: CommandAction::Ack(CommandOutcome::Applied),
                phase: Some(WorkerPhase::Running),
                reanchor: true,
                close_queue: false,
            }
        },
        WorkerCommand::SetSpeed(speed) => {
            state.speed = speed;
            CommandDecision {
                action: CommandAction::Ack(CommandOutcome::Applied),
                phase: None,
                reanchor: !state.paused,
                close_queue: false,
            }
        },
        WorkerCommand::Step(steps) => {
            let reject = |error: WorkerError| -> (d: CommandDecision)
                ensures
                    d == ack_only(CommandOutcome::Rejected(error)),
                {
                    CommandDecision {
                        action: CommandAction::Ack(CommandOutcome::Rejected(error)),
                        phase: None,
                        reanchor: false,
                        close_queue: false,
                    }
                };
            if !state.paused || steps > MAX_STEP_STEPS {
                return reject(WorkerError::InvalidStep);
            }
            if steps == 0 {
                return CommandDecision {
                    action: CommandAction::Ack(CommandOutcome::Applied),
                    phase: None,
                    reanchor: false,
                    close_queue: false,
                };
            }
            if state.faulted {
                return reject(WorkerError::KernelFaulted);
            }
            let seconds = now.as_seconds();
            if seconds < 0 || steps > (i64::MAX as u64) - (seconds as u64) {
                return reject(WorkerError::TickOverflow);
            }
            let target = SimInstant::from_seconds(seconds + steps as i64);
            CommandDecision {
                action: CommandAction::Drive(target),
                phase: None,
                reanchor: false,
                close_queue: false,
            }
        },
        WorkerCommand::AdvanceTo(target) => {
            let reject = |error: WorkerError| -> (d: CommandDecision)
                ensures
                    d == ack_only(CommandOutcome::Rejected(error)),
                {
                    CommandDecision {
                        action: CommandAction::Ack(CommandOutcome::Rejected(error)),
                        phase: None,
                        reanchor: false,
                        close_queue: false,
                    }
                };
            if !state.paused {
                return reject(WorkerError::NotPaused);
            }
            if target.as_seconds() < now.as_seconds() {
                return reject(WorkerError::ClockRegression { current: now, requested: target });
            }
            if target.as_seconds() == now.as_seconds() {
                return CommandDecision {
                    action: CommandAction::Ack(CommandOutcome::Applied),
                    phase: None,
                    reanchor: false,
                    close_queue: false,
                };
            }
            if state.faulted {
                return reject(WorkerError::KernelFaulted);
            }
            CommandDecision {
                action: CommandAction::Drive(target),
                phase: None,
                reanchor: false,
                close_queue: false,
            }
        },
        WorkerCommand::Shutdown => {
            state.shutdown = true;
            let action = if state.faulted {
                CommandAction::Ack(CommandOutcome::Applied)
            } else {
                CommandAction::PublishThenAck(CommandOutcome::Applied)
            };
            CommandDecision { action, phase: None, reanchor: false, close_queue: true }
        },
    }
}

/// Settles the acknowledgement of an explicit drive: a reached target is
/// published then applied; a drive that yielded to a queued command is
/// published then rejected as interrupted; a stopped drive is rejected as
/// closed; a kernel fault faults the worker.
pub fn settle_drive(state: &mut LoopState, outcome: DriveOutcome) -> (decision: CommandDecision)
    ensures
        match outcome {
            DriveOutcome::Reached => *final(state) == *old(state) && decision == (CommandDecision {
                action: CommandAction::PublishThenAck(CommandOutcome::Applied),
                phase: None,
                reanchor: false,
                close_queue: false,
            }),
            DriveOutcome::Interrupted => *final(state) == *old(state) && decision == (
            CommandDecision {
                action: CommandAction::PublishThenAck(
                    CommandOutcome::Rejected(WorkerError::Interrupted),
                ),
                phase: None,
                reanchor: false,
                close_queue: false,
            }),
            DriveOutcome::Stopped => *final(state) == *old(state) && decision == ack_only(
                CommandOutcome::Rejected(WorkerError::Closed),
            ),
            DriveOutcome::Faulted => *final(state) == (LoopState { faulted: true, ..*old(state) })
                && decision == (CommandDecision {
                action: CommandAction::Ack(CommandOutcome::Rejected(WorkerError::KernelFaulted)),
                phase: Some(WorkerPhase::Faulted),
                reanchor: false,
                close_queue: false,
            }),
        },
{
    match outcome {
        DriveOutcome::Reached => CommandDecision {
            action: CommandAction::PublishThenAck(CommandOutcome::Applied),
            phase: None,
            reanchor: false,
            close_queue: false,
        },
        DriveOutcome::Interrupted => CommandDecision {
            action: CommandAction::PublishThenAck(CommandOutcome::Rejected(WorkerError::Interrupted)),
            phase: None,
            reanchor: false,
            close_queue: false,
        },
        DriveOutcome::Stopped => CommandDecision {
            action: CommandAction::Ack(CommandOutcome::Rejected(WorkerError::Closed)),
            phase: None,
            reanchor: false,
            close_queue: false,
        },
        DriveOutcome::Faulted => {
            state.faulted = true;
            CommandDecision {
                action: CommandAction::Ack(CommandOutcome::Rejected(WorkerError::KernelFaulted)),
                phase: Some(WorkerPhase::Faulted),
                reanchor: false,
                close_queue: false,
            }
        },
    }
}

/// Whether a running worker publishes its committed boundary now: never
/// when faulted, only when the boundary moved since the last publication,
/// and at most once per publication interval of wall time.
pub fn should_publish_throttled(
    faulted: bool,
    now: SimInstant,
    last_published: SimInstant,
    millis_since_publish: u128,
) -> (publish: bool)
    ensures
        publish == (!faulted && now@ != last_published@ && millis_since_publish
            >= PUBLISH_INTERVAL_MILLIS),
{
    !faulted && now.as_seconds() != last_published.as_seconds() && millis_since_publish
        >= PUBLISH_INTERVAL_MILLIS
}

/// The instant a running worker advances toward: one chunk ahead at `Max`
/// speed (saturating), otherwise the wall-paced target.
pub fn running_target(speed: SpeedMultiplier, anchor: SimInstant, elapsed_millis: u128, now: SimInstant) -> (target: SimInstant)
    ensures
        target@ == match speed_factor(speed) {
            None => if now@ + MAX_ADVANCE_CHUNK_SECONDS > i64::MAX {
                i64::MAX
            } else {
                (now@ + MAX_ADVANCE_CHUNK_SECONDS) as i64
            },
            Some(factor) => paced_instant(anchor@, elapsed_millis, factor),
        },
{
    match speed.factor() {
        None => {
            let chunk = match SimDuration::from_seconds(MAX_ADVANCE_CHUNK_SECONDS) {
                Some(chunk) => chunk,
                None => SimDuration::longest(),
            };
            match now.checked_add(chunk) {
                Some(target) => target,
                None => SimInstant::latest(),
            }
        },
        Some(factor) => pacing_target(anchor, elapsed_millis, factor),
    }
}

/// The most recent acknowledgement for `sequence` in the log.
pub open spec fn latest_ack(acks: Seq<CommandAck>, sequence: u64) -> Option<CommandAck>
    decreases acks.len(),
{
    if acks.len() == 0 {
        None
    } else if acks.last()@.sequence == sequence {
        Some(acks.last())
    } else {
        latest_ack(acks.drop_last(), sequence)
    }
}

/// The status of `sequence` given the log contents, the highest evicted
/// sequence, and the next sequence to be assigned.
pub open spec fn status_of(acks: Seq<CommandAck>, evicted_through: u64, sequence: u64, next_sequence: u64) -> CommandStatus {
    if sequence == 0 || sequence >= next_sequence {
        CommandStatus::Unknown
    } else if sequence <= evicted_through {
        CommandStatus::Evicted
    } else {
        match latest_ack(acks, sequence) {
            Some(ack) => CommandStatus::Completed(ack),
            None => CommandStatus::Pending,
        }
    }
}

/// The bounded log of the latest acknowledgements.
pub struct AckLog {
    acks: VecDeque<CommandAck>,
    evicted_through: u64,
}

/// The contents of an [`AckLog`]: the retained acknowledgements, oldest
/// first, and the sequence of the last one evicted.
pub struct AckLogView {
    pub acks: Seq<CommandAck>,
    pub evicted_through: u64,
}

impl View for AckLog {
    type V = AckLogView;

    closed spec fn view(&self) -> AckLogView {
        AckLogView { acks: self.acks@, evicted_through: self.evicted_through }
    }
}

impl AckLog {
    /// An empty log.
    pub fn new() -> (log: AckLog)
        ensures
            log@.acks.len() == 0,
            log@.evicted_through == 0,
    {
        AckLog { acks: VecDeque::new(), evicted_through: 0 }
    }

    /// The number of retained acknowledgements.
    pub fn len(&self) -> (count: usize)
        ensures
            count == self@.acks.len(),
    {
        self.acks.len()
    }

    /// Appends an acknowledgement, evicting the oldest once the log holds
    /// [`ACK_LOG_CAPACITY`] of them.
    pub fn record(&mut self, ack: CommandAck)
        ensures
            if old(self)@.acks.len() >= ACK_LOG_CAPACITY {
                &&& final(self)@.acks == old(self)@.acks.drop_first().push(ack)
                &&& final(self)@.evicted_through == old(self)@.acks[0]@.sequence
            } else {
                &&& final(self)@.acks == old(self)@.acks.push(ack)
                &&& final(self)@.evicted_through == old(self)@.evicted_through
            },
    {
        if self.acks.len() >= ACK_LOG_CAPACITY {
            match self.acks.pop_front() {
                Some(evicted) => {
                    self.evicted_through = evicted.sequence.get();
                },
                None => {},
            }
        }
        self.acks.push_back(ack);
    }

    /// The observable status of `sequence`, given the next sequence the
    /// worker will assign.
    pub fn status(&self, sequence: CommandSequence, next_sequence: u64) -> (status: CommandStatus)
        ensures
            status == status_of(self@.acks, self@.evicted_through, sequence@, next_sequence),
    {
        let raw = sequence.get();
        if raw == 0 || raw >= next_sequence {
            return CommandStatus::Unknown;
        }
        if raw <= self.evicted_through {
            return CommandStatus::Evicted;
        }
        let mut i = self.acks.len();
        assert(self@.acks.subrange(0, i as int) =~= self@.acks);
        while i > 0
            invariant
                i <= self.acks@.len(),
                raw == sequence@,
                0 < raw < next_sequence,
                raw > self@.evicted_through,
                latest_ack(self@.acks, raw) == latest_ack(self@.acks.subrange(0, i as int), raw),
            decreases i,
        {
            let ghost prefix = self@.acks.subrange(0, i as int);
            assert(prefix.drop_last() =~= self@.acks.subrange(0, i as int - 1));
            let ack = self.acks[i - 1];
            assert(prefix.last() == ack);
            if ack.sequence.get() == raw {
                return CommandStatus::Completed(ack);
            }
            i = i - 1;
        }
        CommandStatus::Pending
    }
}

/// What the log says of a command just after its acknowledgement is
/// recorded: the command is completed with exactly that acknowledgement,
/// as long as it was assigned and not already evicted.
pub proof fn law_recorded_ack_is_reported(
    before: AckLogView,
    ack: CommandAck,
    after: AckLogView,
    next_sequence: u64,
)
    requires
        after.acks == if before.acks.len() >= ACK_LOG_CAPACITY {
            before.acks.drop_first().push(ack)
        } else {
            before.acks.push(ack)
        },
        0 < ack@.sequence < next_sequence,
        ack@.sequence > after.evicted_through,
    ensures
        status_of(after.acks, after.evicted_through, ack@.sequence, next_sequence)
            == CommandStatus::Completed(ack),
{
    assert(after.acks.last() == ack);
}

/// The message of a worker failure.
pub open spec fn worker_error_text(error: WorkerError) -> Seq<char> {
    match error {
        WorkerError::Full => "command queue is full"@,
        WorkerError::Closed => "worker is shut down"@,
        WorkerError::Interrupted => "advance interrupted by a queued command"@,
        WorkerError::InvalidSpeed => "speed must be one of 1/5/20/100/1000/MAX"@,
        WorkerError::InvalidStep => "step requires a paused worker and at most 1,000 seconds"@,
        WorkerError::NotPaused => "advance-to requires a paused worker"@,
        WorkerError::ClockRegression { current, requested } => "simulation time cannot move backward from "@
            + seconds_text(current@) + " to "@ + seconds_text(requested@),
        WorkerError::TickOverflow => "step target overflows the timeline"@,
        WorkerError::KernelFaulted => "kernel is faulted"@,
        WorkerError::KernelNotStarted => "kernel world has not been started"@,
    }
}

impl WorkerError {
    /// The message of this failure.
    pub fn to_string(&self) -> (text: String)
        ensures
            text@ == worker_error_text(*self),
    {
        match self {
            WorkerError::Full => "command queue is full".to_owned(),
            WorkerError::Closed => "worker is shut down".to_owned(),
            WorkerError::Interrupted => "advance interrupted by a queued command".to_owned(),
            WorkerError::InvalidSpeed => "speed must be one of 1/5/20/100/1000/MAX".to_owned(),
            WorkerError::InvalidStep => {
                "step requires a paused worker and at most 1,000 seconds".to_owned()
            },
            WorkerError::NotPaused => "advance-to requires a paused worker".to_owned(),
            WorkerError::ClockRegression { current, requested } => {
                "simulation time cannot move backward from ".to_owned().concat(
                    current.to_string().as_str(),
                ).concat(" to ").concat(requested.to_string().as_str())
            },
            WorkerError::TickOverflow => "step target overflows the timeline".to_owned(),
            WorkerError::KernelFaulted => "kernel is faulted".to_owned(),
            WorkerError::KernelNotStarted => "kernel world has not been started".to_owned(),
        }
    }
}

/// Every numeric multiplier has a factor and the unthrottled one has none;
/// the numeric multipliers pace strictly faster in declaration order.
pub proof fn law_speed_factors_increase(speed: SpeedMultiplier)
    ensures
        speed_factor(speed) is None <==> speed == SpeedMultiplier::Max,
        speed_factor(speed) matches Some(f) ==> f >= 1,
        speed_factor(SpeedMultiplier::X1)->Some_0 < speed_factor(SpeedMultiplier::X5)->Some_0,
        speed_factor(SpeedMultiplier::X5)->Some_0 < speed_factor(SpeedMultiplier::X20)->Some_0,
        speed_factor(SpeedMultiplier::X20)->Some_0 < speed_factor(SpeedMultiplier::X100)->Some_0,
        speed_factor(SpeedMultiplier::X100)->Some_0 < speed_factor(SpeedMultiplier::X1000)->Some_0,
        speed_factor(SpeedMultiplier::X1) == Some(1u64),
{
}

/// A step target lies exactly `steps` seconds after a non-negative `now`,
/// and exists whenever that instant is representable.
pub proof fn law_step_target_moves_forward_by_steps(now: i64, steps: u64)
    ensures
        step_target(now, steps) matches Some(t) ==> t - now == steps && t >= now && now >= 0,
        (now >= 0 && now + steps <= i64::MAX) ==> step_target(now, steps) is Some,
{
}

} // verus!
