use std::time::Duration;

use palimpsest_sim::kernel::KernelState;
use palimpsest_sim::time::SimInstant;
use palimpsest_sim::worker::{
    admit_kernel, catch_up_sleep, command_interrupts, pacing_target, plan_command,
    running_target, settle_drive, should_publish_throttled, AckLog, CommandAck, CommandAction,
    CommandDecision, CommandOutcome, CommandSequence, CommandStatus, DriveOutcome, LoopState,
    SpeedMultiplier, WorkerCommand, WorkerError, WorkerPhase, ACK_LOG_CAPACITY,
    MAX_ADVANCE_CHUNK_SECONDS,
};

#[test]
fn pacing_target_maps_the_closed_speed_set_exactly() {
    let anchor = SimInstant::from_seconds(100);
    let elapsed = Duration::from_millis(2_000).as_millis();
    let cases = [
        (SpeedMultiplier::X1, 102),
        (SpeedMultiplier::X5, 110),
        (SpeedMultiplier::X20, 140),
        (SpeedMultiplier::X100, 300),
        (SpeedMultiplier::X1000, 2_100),
    ];
    for (speed, expected) in cases {
        let factor = speed.factor().expect("numeric speed has a factor");
        assert_eq!(
            pacing_target(anchor, elapsed, factor),
            SimInstant::from_seconds(expected)
        );
    }
    assert_eq!(SpeedMultiplier::Max.factor(), None);
}

#[test]
fn pacing_target_saturates_instead_of_overflowing() {
    let anchor = SimInstant::from_seconds(i64::MAX - 10);
    let target = pacing_target(anchor, Duration::from_secs(24 * 60 * 60).as_millis(), 1_000);
    assert_eq!(target, SimInstant::latest());
}

#[test]
fn speed_from_u32_accepts_only_the_closed_numeric_set() {
    for (value, expected) in [
        (1, SpeedMultiplier::X1),
        (5, SpeedMultiplier::X5),
        (20, SpeedMultiplier::X20),
        (100, SpeedMultiplier::X100),
        (1000, SpeedMultiplier::X1000),
    ] {
        assert_eq!(SpeedMultiplier::from_u32(value), Ok(expected));
    }
    for value in [0, 2, 999, 1001, u32::MAX] {
        assert_eq!(
            SpeedMultiplier::from_u32(value),
            Err(WorkerError::InvalidSpeed)
        );
    }
}

fn ack_only(outcome: CommandOutcome) -> CommandDecision {
    CommandDecision {
        action: CommandAction::Ack(outcome),
        phase: None,
        reanchor: false,
        close_queue: false,
    }
}

#[test]
fn a_faulted_worker_rejects_advancing_commands_and_applies_control() {
    let epoch = SimInstant::epoch();
    for command in [
        WorkerCommand::Resume,
        WorkerCommand::Step(1),
        WorkerCommand::AdvanceTo(SimInstant::from_seconds(10)),
    ] {
        let mut state = LoopState::new(true);
        let decision = plan_command(&mut state, command, false, epoch);
        assert_eq!(
            decision,
            ack_only(CommandOutcome::Rejected(WorkerError::KernelFaulted))
        );
        assert_eq!(state, LoopState::new(true));
    }
    let mut state = LoopState::new(true);
    let pause = plan_command(&mut state, WorkerCommand::Pause, false, epoch);
    assert_eq!(pause.action, CommandAction::Ack(CommandOutcome::Applied));
    assert_eq!(pause.phase, Some(WorkerPhase::Faulted));
    let speed = plan_command(
        &mut state,
        WorkerCommand::SetSpeed(SpeedMultiplier::X20),
        false,
        epoch,
    );
    assert_eq!(speed.action, CommandAction::Ack(CommandOutcome::Applied));
    assert_eq!(state.speed, SpeedMultiplier::X20);
}

#[test]
fn a_zero_step_applies_at_once_without_publication() {
    let mut state = LoopState::new(false);
    let decision = plan_command(&mut state, WorkerCommand::Step(0), false, SimInstant::epoch());
    assert_eq!(decision, ack_only(CommandOutcome::Applied));
    assert_eq!(state, LoopState::new(false));
}

#[test]
fn commands_after_shutdown_are_rejected_as_closed() {
    let now = SimInstant::epoch();
    let mut state = LoopState::new(false);
    let shutdown = plan_command(&mut state, WorkerCommand::Shutdown, false, now);
    assert_eq!(
        shutdown.action,
        CommandAction::PublishThenAck(CommandOutcome::Applied)
    );
    assert!(shutdown.close_queue);
    assert!(state.shutdown);
    for command in [WorkerCommand::Step(10), WorkerCommand::Resume] {
        let decision = plan_command(&mut state, command, false, now);
        assert_eq!(
            decision,
            ack_only(CommandOutcome::Rejected(WorkerError::Closed))
        );
    }
}

#[test]
fn a_stopping_worker_rejects_even_a_pause() {
    let mut state = LoopState::new(false);
    let decision = plan_command(&mut state, WorkerCommand::Pause, true, SimInstant::epoch());
    assert_eq!(
        decision,
        ack_only(CommandOutcome::Rejected(WorkerError::Closed))
    );
}

#[test]
fn step_and_advance_validation_follow_the_documented_order() {
    let now = SimInstant::from_seconds(5);
    let mut paused = LoopState::new(false);
    assert_eq!(
        plan_command(&mut paused, WorkerCommand::Step(1_001), false, now),
        ack_only(CommandOutcome::Rejected(WorkerError::InvalidStep))
    );
    assert_eq!(
        plan_command(&mut paused, WorkerCommand::Step(3), false, now).action,
        CommandAction::Drive(SimInstant::from_seconds(8))
    );
    assert_eq!(
        plan_command(
            &mut paused,
            WorkerCommand::AdvanceTo(SimInstant::from_seconds(4)),
            false,
            now
        ),
        ack_only(CommandOutcome::Rejected(WorkerError::ClockRegression {
            current: now,
            requested: SimInstant::from_seconds(4),
        }))
    );
    assert_eq!(
        plan_command(&mut paused, WorkerCommand::AdvanceTo(now), false, now),
        ack_only(CommandOutcome::Applied)
    );
    let late = SimInstant::from_seconds(i64::MAX - 1);
    assert_eq!(
        plan_command(&mut paused, WorkerCommand::Step(5), false, late),
        ack_only(CommandOutcome::Rejected(WorkerError::TickOverflow))
    );
    let mut running = LoopState::new(false);
    let resume = plan_command(&mut running, WorkerCommand::Resume, false, now);
    assert_eq!(resume.phase, Some(WorkerPhase::Running));
    assert!(resume.reanchor);
    assert_eq!(
        plan_command(&mut running, WorkerCommand::Step(1), false, now),
        ack_only(CommandOutcome::Rejected(WorkerError::InvalidStep))
    );
    assert_eq!(
        plan_command(
            &mut running,
            WorkerCommand::AdvanceTo(SimInstant::from_seconds(9)),
            false,
            now
        ),
        ack_only(CommandOutcome::Rejected(WorkerError::NotPaused))
    );
}

#[test]
fn a_drive_that_yields_is_published_and_rejected_as_interrupted() {
    let mut state = LoopState::new(false);
    let decision = settle_drive(&mut state, DriveOutcome::Interrupted);
    assert_eq!(
        decision.action,
        CommandAction::PublishThenAck(CommandOutcome::Rejected(WorkerError::Interrupted))
    );
    let stopped = settle_drive(&mut state, DriveOutcome::Stopped);
    assert_eq!(
        stopped,
        ack_only(CommandOutcome::Rejected(WorkerError::Closed))
    );
    let reached = settle_drive(&mut state, DriveOutcome::Reached);
    assert_eq!(
        reached.action,
        CommandAction::PublishThenAck(CommandOutcome::Applied)
    );
    let faulted = settle_drive(&mut state, DriveOutcome::Faulted);
    assert_eq!(faulted.phase, Some(WorkerPhase::Faulted));
    assert!(state.faulted);
}

#[test]
fn kernel_admission_rejects_faulted_and_unstarted_populated_kernels() {
    assert_eq!(
        admit_kernel(KernelState::Faulted, 0),
        Err(WorkerError::KernelFaulted)
    );
    assert_eq!(
        admit_kernel(KernelState::Setup, 1),
        Err(WorkerError::KernelNotStarted)
    );
    assert_eq!(admit_kernel(KernelState::Setup, 0), Ok(()));
    assert_eq!(admit_kernel(KernelState::Running, 3), Ok(()));
}

#[test]
fn only_pause_and_shutdown_interrupt_a_drive() {
    assert!(command_interrupts(WorkerCommand::Pause));
    assert!(command_interrupts(WorkerCommand::Shutdown));
    assert!(!command_interrupts(WorkerCommand::Resume));
    assert!(!command_interrupts(WorkerCommand::Step(1)));
}

#[test]
fn catch_up_sleep_waits_for_the_next_due_second() {
    let anchor = SimInstant::from_seconds(0);
    // At x1, second 1 is due after 1000 ms; 980 ms have passed.
    assert_eq!(catch_up_sleep(anchor, 980, 1, SimInstant::from_seconds(0)), 20);
    // The wait is capped.
    assert_eq!(catch_up_sleep(anchor, 0, 1, SimInstant::from_seconds(0)), 50);
    // Already late: no wait.
    assert_eq!(catch_up_sleep(anchor, 5_000, 5, SimInstant::from_seconds(3)), 0);
    // At x1000 the next second is due after one millisecond.
    assert_eq!(catch_up_sleep(anchor, 0, 1_000, SimInstant::from_seconds(0)), 1);
}

#[test]
fn publication_is_throttled_and_skips_unchanged_boundaries() {
    let now = SimInstant::from_seconds(10);
    let last = SimInstant::from_seconds(9);
    assert!(should_publish_throttled(false, now, last, 100));
    assert!(!should_publish_throttled(false, now, last, 99));
    assert!(!should_publish_throttled(false, now, now, 1_000));
    assert!(!should_publish_throttled(true, now, last, 1_000));
}

#[test]
fn running_target_takes_one_chunk_at_max_speed() {
    let now = SimInstant::from_seconds(7);
    assert_eq!(
        running_target(SpeedMultiplier::Max, SimInstant::epoch(), 0, now),
        SimInstant::from_seconds(7 + MAX_ADVANCE_CHUNK_SECONDS)
    );
    assert_eq!(
        running_target(SpeedMultiplier::Max, SimInstant::epoch(), 0, SimInstant::latest()),
        SimInstant::latest()
    );
    assert_eq!(
        running_target(SpeedMultiplier::X5, SimInstant::from_seconds(1), 2_000, now),
        SimInstant::from_seconds(11)
    );
}

#[test]
fn ack_log_reports_pending_completed_and_evicted_commands() {
    let mut log = AckLog::new();
    let ack = |raw: u64| {
        CommandAck::new(
            CommandSequence::new(raw),
            WorkerCommand::Pause,
            CommandOutcome::Applied,
            SimInstant::epoch(),
        )
    };
    assert_eq!(log.status(CommandSequence::new(0), 5), CommandStatus::Unknown);
    assert_eq!(log.status(CommandSequence::new(2), 5), CommandStatus::Pending);
    assert_eq!(log.status(CommandSequence::new(5), 5), CommandStatus::Unknown);
    log.record(ack(1));
    assert_eq!(
        log.status(CommandSequence::new(1), 5),
        CommandStatus::Completed(ack(1))
    );
    for raw in 2..=(ACK_LOG_CAPACITY as u64 + 1) {
        log.record(ack(raw));
    }
    assert_eq!(log.len(), ACK_LOG_CAPACITY);
    let next = ACK_LOG_CAPACITY as u64 + 2;
    assert_eq!(log.status(CommandSequence::new(1), next), CommandStatus::Evicted);
    assert_eq!(
        log.status(CommandSequence::new(2), next),
        CommandStatus::Completed(ack(2))
    );
    assert_eq!(ack(7).sequence().get(), 7);
    assert_eq!(ack(7).command(), WorkerCommand::Pause);
    assert_eq!(ack(7).outcome(), &CommandOutcome::Applied);
    assert_eq!(ack(7).committed_to(), SimInstant::epoch());
}
