//! The deterministic finite workload used to compare run modes.

use vstd::prelude::*;

use crate::entity::{EntityId, EntityIdAllocator};
use crate::events::{EventId, EventRecord, first_repeat, validation_error};
use crate::scheduler::Scheduler;
use crate::text::{decimal_text, i64_to_decimal, is_blank, signed_decimal_text, u64_to_decimal};
use vstd::string::StringExecFns;
use crate::time::{SimClock, SimInstant};

verus! {

/// Machine-readable result of one finite workload run.
#[derive(Clone, Debug, PartialEq, Eq, Structural)]
pub struct SpikeRunMetrics {
    /// Requested dummy entities.
    pub entities: u64,
    /// Final simulation second.
    pub final_sim_second: i64,
    /// Work items processed.
    pub processed_work: u64,
    /// Structured events generated.
    pub generated_events: u64,
    /// Live scheduler entries after completion.
    pub remaining_scheduled: usize,
}

/// Finite workload failure.
#[derive(Clone, Copy, Debug, PartialEq, Eq, Structural)]
pub enum SpikeRunError {
    /// Requested final time was negative.
    NegativeFinalTime(i64),
    /// A generated due time could not fit the timeline.
    TimeOutOfRange(u64),
    /// Persistent identity space exhausted.
    EntityIdExhausted,
    /// Scheduler runtime counters exhausted.
    SchedulerExhausted,
    /// Event identity space exhausted.
    EventIdExhausted,
    /// Clock rejected advancement.
    ClockAdvance,
    /// Structured event failed validation.
    InvalidEvent,
}

struct DummyWork {
    entity_id: EntityId,
}

/// Executes the finite deterministic comparison workload: `entity_count`
/// entities each get one work item due at `index % (final_sim_second + 1)`,
/// and every item is processed into one validated event.
///
/// Fails with [`SpikeRunError::NegativeFinalTime`] exactly when
/// `final_sim_second` is negative.
pub fn run_spike_workload(entity_count: u64, final_sim_second: i64) -> (result: Result<
    SpikeRunMetrics,
    SpikeRunError,
>)
    requires
        entity_count < usize::MAX,
    ensures
        match result {
            Ok(metrics) => final_sim_second >= 0 && metrics == (SpikeRunMetrics {
                entities: entity_count,
                final_sim_second,
                processed_work: entity_count,
                generated_events: entity_count,
                remaining_scheduled: 0,
            }),
            Err(error) => final_sim_second < 0 && error == SpikeRunError::NegativeFinalTime(
                final_sim_second,
            ),
        },
{
    if final_sim_second < 0 {
        return Err(SpikeRunError::NegativeFinalTime(final_sim_second));
    }
    let mut allocator = EntityIdAllocator::default();
    let mut scheduler: Scheduler<DummyWork> = Scheduler::new();
    let cadence = (final_sim_second as u64) + 1;

    let mut index: u64 = 0;
    while index < entity_count
        invariant
            0 <= index <= entity_count < usize::MAX,
            final_sim_second >= 0,
            cadence == final_sim_second + 1,
            allocator@ == index + 1,
            scheduler.wf(),
            scheduler@.live.len() == index,
            scheduler@.queue_nodes == index,
            scheduler@.next_token == index + 1,
            scheduler@.next_order == index + 1,
            forall|t: u64| #[trigger]
                scheduler@.live.contains_key(t) ==> 0 <= scheduler@.live[t].due@
                    <= final_sim_second,
        decreases entity_count - index,
    {
        let entity_id = match allocator.allocate() {
            Ok(id) => id,
            Err(_) => return Err(SpikeRunError::EntityIdExhausted),
        };
        let due_u64 = index % cadence;
        if due_u64 > i64::MAX as u64 {
            return Err(SpikeRunError::TimeOutOfRange(due_u64));
        }
        let due = due_u64 as i64;
        proof {
            scheduler.lemma_live_is_finite();
        }
        match scheduler.schedule_at(SimInstant::from_seconds(due), DummyWork { entity_id }) {
            Ok(_) => {},
            Err(_) => return Err(SpikeRunError::SchedulerExhausted),
        }
        index = index + 1;
    }

    let mut clock = SimClock::default();
    let target = SimInstant::from_seconds(final_sim_second);
    let mut processed_work: u64 = 0;
    loop
        invariant
            scheduler.wf(),
            final_sim_second >= 0,
            target@ == final_sim_second,
            0 <= clock@@ <= final_sim_second,
            processed_work + scheduler@.live.len() == entity_count,
            forall|t: u64| #[trigger]
                scheduler@.live.contains_key(t) ==> clock@@ <= scheduler@.live[t].due@
                    <= final_sim_second,
        ensures
            scheduler.wf(),
            0 <= clock@@ <= final_sim_second,
            processed_work == entity_count,
            scheduler@.live.len() == 0,
        decreases scheduler@.live.len(),
    {
        let due = match scheduler.next_due() {
            Some(due) => due,
            None => break,
        };
        if due.as_seconds() > target.as_seconds() {
            proof {
                let t = choose|t: u64| #[trigger]
                    scheduler@.live.contains_key(t) && scheduler@.live[t].due == due;
            }
            break;
        }
        match clock.advance_to(due) {
            Ok(_) => {},
            Err(_) => return Err(SpikeRunError::ClockAdvance),
        }
        let ghost live_before = scheduler@.live.len();
        let mut popped_any = false;
        loop
            invariant
                scheduler.wf(),
                0 <= clock@@ <= final_sim_second,
                clock@ == due,
                processed_work + scheduler@.live.len() == entity_count,
                forall|t: u64| #[trigger]
                    scheduler@.live.contains_key(t) ==> clock@@ <= scheduler@.live[t].due@
                        <= final_sim_second,
                popped_any ==> scheduler@.live.len() < live_before,
                !popped_any ==> scheduler@.live.len() == live_before,
                !popped_any ==> exists|t: u64| #[trigger]
                    scheduler@.live.contains_key(t) && scheduler@.live[t].due == due,
            ensures
                scheduler.wf(),
                processed_work + scheduler@.live.len() == entity_count,
                scheduler@.live.len() < live_before,
                forall|t: u64| #[trigger]
                    scheduler@.live.contains_key(t) ==> clock@@ < scheduler@.live[t].due@
                        <= final_sim_second,
            decreases scheduler@.live.len(),
        {
            let ghost before = scheduler@.live;
            proof {
                scheduler.lemma_live_is_finite();
            }
            let item = match scheduler.pop_due(clock.now()) {
                Some(item) => item,
                None => {
                    proof {
                        if !popped_any {
                            let t = choose|t: u64| #[trigger]
                                before.contains_key(t) && before[t].due == due;
                            assert(before[t].due@ > clock@@);
                        }
                    }
                    break;
                },
            };
            proof {
                assert(before.remove(item@.0@).len() == before.len() - 1);
                assert forall|t: u64| #[trigger] scheduler@.live.contains_key(t) implies clock@@
                    <= scheduler@.live[t].due@ <= final_sim_second by {
                    assert(before.contains_key(t));
                }
            }
            popped_any = true;
            processed_work = match processed_work.checked_add(1) {
                Some(next) => next,
                None => return Err(SpikeRunError::EventIdExhausted),
            };
            let event_id = match EventId::new(processed_work) {
                Some(id) => id,
                None => return Err(SpikeRunError::EventIdExhausted),
            };
            proof {
                reveal_strlit("dummy_update");
                assert(!is_blank("dummy_update"@)) by {
                    assert(!crate::text::is_unicode_whitespace("dummy_update"@[0]));
                }
            }
            let mut event = match EventRecord::new(event_id, clock.now(), "dummy_update") {
                Ok(event) => event,
                Err(_) => return Err(SpikeRunError::InvalidEvent),
            };
            match event.add_actor(item.payload().entity_id) {
                Ok(()) => {},
                Err(_) => return Err(SpikeRunError::InvalidEvent),
            }
            proof {
                let actors = event@.actors;
                assert(actors.len() == 1);
                assert(actors.drop_last() =~= Seq::<EntityId>::empty());
                assert(first_repeat(actors.drop_last()) is None);
                assert(first_repeat(actors) is None);
                assert(first_repeat(event@.targets) is None);
                assert(first_repeat(event@.causes) is None);
                assert(first_repeat(event@.consequences) is None);
                assert(!event@.causes.contains(event@.event_id));
                assert(!event@.consequences.contains(event@.event_id));
                assert(validation_error(event@) is None);
            }
            match event.validate() {
                Ok(()) => {},
                Err(_) => return Err(SpikeRunError::InvalidEvent),
            }
        }
    }
    match clock.advance_to(target) {
        Ok(_) => {},
        Err(_) => return Err(SpikeRunError::ClockAdvance),
    }
    Ok(
        SpikeRunMetrics {
            entities: entity_count,
            final_sim_second: clock.now().as_seconds(),
            processed_work,
            generated_events: processed_work,
            remaining_scheduled: scheduler.len(),
        },
    )
}

/// The debug form of a workload failure, as std writes it.
pub open spec fn spike_error_debug(error: SpikeRunError) -> Seq<char> {
    match error {
        SpikeRunError::NegativeFinalTime(t) => "NegativeFinalTime("@ + signed_decimal_text(t as int)
            + ")"@,
        SpikeRunError::TimeOutOfRange(i) => "TimeOutOfRange("@ + decimal_text(i as nat) + ")"@,
        SpikeRunError::EntityIdExhausted => "EntityIdExhausted"@,
        SpikeRunError::SchedulerExhausted => "SchedulerExhausted"@,
        SpikeRunError::EventIdExhausted => "EventIdExhausted"@,
        SpikeRunError::ClockAdvance => "ClockAdvance"@,
        SpikeRunError::InvalidEvent => "InvalidEvent"@,
    }
}

impl SpikeRunError {
    /// The message of this failure: a fixed prefix and its debug form.
    pub fn to_string(&self) -> (text: String)
        ensures
            text@ == "Phase 0 spike workload failed: "@ + spike_error_debug(*self),
    {
        let debug = match self {
            SpikeRunError::NegativeFinalTime(t) => "NegativeFinalTime(".to_owned().concat(
                i64_to_decimal(*t).as_str(),
            ).concat(")"),
            SpikeRunError::TimeOutOfRange(i) => "TimeOutOfRange(".to_owned().concat(
                u64_to_decimal(*i).as_str(),
            ).concat(")"),
            SpikeRunError::EntityIdExhausted => "EntityIdExhausted".to_owned(),
            SpikeRunError::SchedulerExhausted => "SchedulerExhausted".to_owned(),
            SpikeRunError::EventIdExhausted => "EventIdExhausted".to_owned(),
            SpikeRunError::ClockAdvance => "ClockAdvance".to_owned(),
            SpikeRunError::InvalidEvent => "InvalidEvent".to_owned(),
        };
        "Phase 0 spike workload failed: ".to_owned().concat(debug.as_str())
    }
}

} // verus!
