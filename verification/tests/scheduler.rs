use palimpsest_sim::scheduler::{Scheduled, Scheduler, SchedulerCounters, SchedulerError};
use palimpsest_sim::time::SimInstant;

#[test]
fn empty_queue_has_no_due_work() {
    let mut scheduler = Scheduler::<u32>::new();
    assert!(scheduler.is_empty());
    assert_eq!(scheduler.next_due(), None);
    assert!(scheduler.pop_due(SimInstant::latest()).is_none());
}

#[test]
fn work_is_ordered_by_due_time_then_fifo() {
    let mut scheduler = Scheduler::new();
    scheduler
        .schedule_at(SimInstant::from_seconds(20), "late")
        .expect("schedule work");
    scheduler
        .schedule_at(SimInstant::from_seconds(10), "first")
        .expect("schedule work");
    scheduler
        .schedule_at(SimInstant::from_seconds(10), "second")
        .expect("schedule work");

    let now = SimInstant::from_seconds(10);
    assert_eq!(
        scheduler.pop_due(now).map(Scheduled::into_payload),
        Some("first")
    );
    assert_eq!(
        scheduler.pop_due(now).map(Scheduled::into_payload),
        Some("second")
    );
    assert!(scheduler.pop_due(now).is_none());
    assert_eq!(scheduler.next_due(), Some(SimInstant::from_seconds(20)));
}

#[test]
fn cancellation_removes_work_and_is_idempotent() {
    let mut scheduler = Scheduler::new();
    let token = scheduler
        .schedule_at(SimInstant::from_seconds(5), 1)
        .expect("schedule work");
    assert!(scheduler.cancel(token));
    assert!(!scheduler.cancel(token));
    assert!(scheduler.pop_due(SimInstant::latest()).is_none());
}

#[test]
fn rescheduling_changes_due_time_and_equal_time_order() {
    let mut scheduler = Scheduler::new();
    let moved = scheduler
        .schedule_at(SimInstant::from_seconds(30), "moved")
        .expect("schedule work");
    scheduler
        .schedule_at(SimInstant::from_seconds(10), "original")
        .expect("schedule work");
    assert!(scheduler
        .reschedule(moved, SimInstant::from_seconds(10))
        .expect("reschedule work"));

    let now = SimInstant::from_seconds(10);
    assert_eq!(
        scheduler.pop_due(now).map(Scheduled::into_payload),
        Some("original")
    );
    assert_eq!(
        scheduler.pop_due(now).map(Scheduled::into_payload),
        Some("moved")
    );
    assert!(scheduler.pop_due(now).is_none());
}

#[test]
fn canceled_or_popped_tokens_cannot_be_rescheduled() {
    let mut scheduler = Scheduler::new();
    let canceled = scheduler
        .schedule_at(SimInstant::epoch(), 1)
        .expect("schedule work");
    scheduler.cancel(canceled);
    assert!(!scheduler
        .reschedule(canceled, SimInstant::epoch())
        .expect("valid counter"));

    let popped = scheduler
        .schedule_at(SimInstant::epoch(), 2)
        .expect("schedule work");
    scheduler.pop_due(SimInstant::epoch()).expect("due work");
    assert!(!scheduler
        .reschedule(popped, SimInstant::epoch())
        .expect("valid counter"));
}

#[test]
fn caller_controls_reentrant_scheduling() {
    let mut scheduler = Scheduler::new();
    scheduler
        .schedule_at(SimInstant::epoch(), 40)
        .expect("schedule work");
    let first = scheduler
        .pop_due(SimInstant::epoch())
        .expect("due work")
        .into_payload();
    scheduler
        .schedule_at(SimInstant::epoch(), first + 2)
        .expect("schedule follow-up");
    assert_eq!(
        scheduler
            .pop_due(SimInstant::epoch())
            .expect("follow-up work")
            .into_payload(),
        42
    );
}

#[test]
fn stale_nodes_are_compactable_and_metrics_are_exact() {
    let mut scheduler = Scheduler::new();
    let token = scheduler
        .schedule_at(SimInstant::from_seconds(10), 1)
        .expect("schedule work");
    for due in 20..30 {
        scheduler
            .reschedule(token, SimInstant::from_seconds(due))
            .expect("reschedule work");
    }
    assert!(scheduler.metrics().stale_nodes > 0);
    scheduler.compact();
    assert_eq!(scheduler.metrics().scheduled_entries, 1);
    assert_eq!(scheduler.metrics().queue_nodes, 1);
    assert_eq!(scheduler.metrics().stale_nodes, 0);
}

#[test]
fn large_queue_preserves_all_work_without_entity_scans() {
    let mut scheduler = Scheduler::new();
    for value in 0_u32..100_000 {
        let due = SimInstant::from_seconds(i64::from(value % 1_000));
        scheduler.schedule_at(due, value).expect("schedule work");
    }
    let mut popped = 0_usize;
    while scheduler.pop_due(SimInstant::latest()).is_some() {
        popped += 1;
    }
    assert_eq!(popped, 100_000);
    assert!(scheduler.is_empty());
}

#[test]
fn capacity_preflight_covers_zero_one_and_two_requests() {
    let mut scheduler = Scheduler::<u32>::new();
    assert!(scheduler.check_schedule_capacity(0).is_ok());
    assert!(scheduler.check_schedule_capacity(1).is_ok());
    assert!(scheduler.check_schedule_capacity(2).is_ok());
    scheduler
        .schedule_at(SimInstant::from_seconds(1), 1)
        .expect("schedule");
    scheduler
        .schedule_at(SimInstant::from_seconds(1), 2)
        .expect("schedule");
    assert!(scheduler.check_schedule_capacity(1).is_ok());
}

#[test]
fn capacity_preflight_reports_exhaustion_without_mutation() {
    // The token and order counters are driven to their last slot by
    // resuming from them.
    let scheduler = Scheduler::<u32>::resume_from(u64::MAX, u64::MAX);
    let before = scheduler.metrics();
    assert!(scheduler.check_schedule_capacity(1).is_ok());
    assert_eq!(
        scheduler.check_schedule_capacity(2),
        Err(SchedulerError::TokenSpaceExhausted)
    );
    assert_eq!(scheduler.metrics(), before, "a pre-flight never mutates");

    let scheduler = Scheduler::<u32>::resume_from(1, u64::MAX);
    assert_eq!(
        scheduler.check_schedule_capacity(2),
        Err(SchedulerError::OrderSpaceExhausted)
    );

    let scheduler = Scheduler::<u32>::resume_from(3, u64::MAX);
    assert_eq!(
        scheduler.check_schedule_capacity(4),
        Err(SchedulerError::OrderSpaceExhausted)
    );
}

#[test]
fn operation_counters_distinguish_live_payloads_from_stale_nodes() {
    let mut queue = Scheduler::new();
    let first = queue.schedule_at(SimInstant::from_seconds(1), 1).unwrap();
    let second = queue.schedule_at(SimInstant::from_seconds(2), 2).unwrap();
    assert!(queue
        .reschedule(first, SimInstant::from_seconds(3))
        .unwrap());
    assert!(queue.cancel(second));
    assert!(!queue.cancel(second));
    assert!(queue.pop_due(SimInstant::from_seconds(2)).is_none());
    assert_eq!(
        queue
            .pop_due(SimInstant::from_seconds(3))
            .unwrap()
            .into_payload(),
        1
    );
    assert!(queue.pop_due(SimInstant::latest()).is_none());
    assert_eq!(
        queue.counters(),
        SchedulerCounters {
            enqueued: 2,
            dequeued: 1,
            cancelled: 1,
            rescheduled: 1
        }
    );
}

#[test]
fn exhausted_token_space_rejects_scheduling_without_mutation() {
    let mut scheduler = Scheduler::<u32>::resume_from(u64::MAX, 1);
    let last = scheduler
        .schedule_at(SimInstant::epoch(), 7)
        .expect("last token");
    assert_eq!(last.get(), u64::MAX);
    let before = scheduler.metrics();
    assert_eq!(
        scheduler.schedule_at(SimInstant::epoch(), 8),
        Err(SchedulerError::TokenSpaceExhausted)
    );
    assert_eq!(scheduler.metrics(), before);
    assert_eq!(scheduler.len(), 1);
}

#[test]
fn popped_work_carries_its_token_due_and_payload() {
    let mut scheduler = Scheduler::new();
    let token = scheduler
        .schedule_at(SimInstant::from_seconds(4), 'x')
        .expect("schedule");
    assert!(scheduler.pop_due(SimInstant::from_seconds(3)).is_none());
    let popped = scheduler
        .pop_due(SimInstant::from_seconds(4))
        .expect("due work");
    assert_eq!(popped.token(), token);
    assert_eq!(popped.due(), SimInstant::from_seconds(4));
    assert_eq!(*popped.payload(), 'x');
    assert!(scheduler.is_empty());
}

#[test]
fn pops_come_out_in_due_order_across_many_reschedules() {
    let mut scheduler = Scheduler::new();
    let mut tokens = Vec::new();
    for value in 0..50_i64 {
        tokens.push(
            scheduler
                .schedule_at(SimInstant::from_seconds(100 - value), value)
                .expect("schedule"),
        );
    }
    for (index, token) in tokens.iter().enumerate().step_by(3) {
        scheduler
            .reschedule(*token, SimInstant::from_seconds(index as i64))
            .expect("reschedule");
    }
    let mut last = i64::MIN;
    let mut count = 0;
    while let Some(work) = scheduler.pop_due(SimInstant::latest()) {
        assert!(work.due().as_seconds() >= last);
        last = work.due().as_seconds();
        count += 1;
    }
    assert_eq!(count, 50);
}

#[test]
fn newer_and_rescheduled_work_pops_after_equal_due_work() {
    let mut scheduler = Scheduler::new();
    let moved = scheduler
        .schedule_at(SimInstant::from_seconds(5), "moved")
        .expect("schedule");
    scheduler
        .schedule_at(SimInstant::from_seconds(7), "older")
        .expect("schedule");
    assert!(scheduler
        .reschedule(moved, SimInstant::from_seconds(7))
        .expect("reschedule"));
    scheduler
        .schedule_at(SimInstant::from_seconds(7), "newest")
        .expect("schedule");
    let metrics = scheduler.metrics();
    assert!(metrics.queue_nodes >= metrics.scheduled_entries);
    assert_eq!(metrics.stale_nodes, metrics.queue_nodes - metrics.scheduled_entries);
    let now = SimInstant::from_seconds(7);
    let first = scheduler.pop_due(now).expect("due");
    assert_eq!(*first.payload(), "older");
    let second = scheduler.pop_due(now).expect("due");
    assert_eq!(second.token(), moved);
    assert_eq!(second.due(), SimInstant::from_seconds(7));
    assert_eq!(second.into_payload(), "moved");
    assert_eq!(
        scheduler.pop_due(now).map(Scheduled::into_payload),
        Some("newest")
    );
}
