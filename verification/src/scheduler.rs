//! Deterministic, event-driven scheduling for simulation work.
//!
//! Equal due instants are popped in insertion order; rescheduling assigns a
//! new insertion order. The scheduler never invokes payload code itself.

use std::collections::HashMap;

use vstd::prelude::*;
use vstd::multiset::Multiset;
use vstd::std_specs::hash::spec_hash_map_iter;
use vstd::std_specs::iter::IteratorSpec;

use crate::entity::successor_raw;
use crate::queue::{QueueKey, heap_pop, heap_push, is_heap, key_le, key_lt};
use crate::time::SimInstant;

verus! {

broadcast use {
    vstd::std_specs::hash::group_hash_axioms,
    vstd::seq_lib::group_to_multiset_ensures,
    vstd::multiset::group_multiset_axioms,
};

/// Opaque runtime handle for canceling or rescheduling queued work.
///
/// This token is local to one scheduler instance and is not a persistent
/// simulation identity.
#[derive(Clone, Copy, Debug, PartialEq, Eq, Structural, PartialOrd, Ord, Hash)]
pub struct ScheduleToken(u64);

impl ScheduleToken {
    /// A token is never zero.
    #[verifier::type_invariant]
    closed spec fn non_zero(self) -> bool {
        self.0 != 0
    }
}

impl View for ScheduleToken {
    type V = u64;

    closed spec fn view(&self) -> u64 {
        self.0
    }
}

/// Two tokens with the same number are the same token.
pub broadcast proof fn lemma_token_view_injective(a: ScheduleToken, b: ScheduleToken)
    ensures
        #[trigger] a@ == #[trigger] b@ ==> a == b,
{
}

impl ScheduleToken {
    fn new(raw: u64) -> (token: Option<ScheduleToken>)
        ensures
            match token {
                Some(t) => raw != 0 && t@ == raw,
                None => raw == 0,
            },
    {
        if raw == 0 {
            None
        } else {
            Some(ScheduleToken(raw))
        }
    }

    /// Returns the scheduler-local numeric token.
    pub fn get(self) -> (raw: u64)
        ensures
            raw == self@,
            raw != 0,
    {
        proof {
            use_type_invariant(&self);
        }
        self.0
    }
}

/// Work removed from a scheduler when its due time is reached.
#[derive(Debug)]
pub struct Scheduled<T> {
    token: ScheduleToken,
    due: SimInstant,
    payload: T,
}

impl<T> View for Scheduled<T> {
    type V = (ScheduleToken, SimInstant, T);

    closed spec fn view(&self) -> (ScheduleToken, SimInstant, T) {
        (self.token, self.due, self.payload)
    }
}

impl<T> Scheduled<T> {
    /// Returns the scheduler-local token.
    pub fn token(&self) -> (token: ScheduleToken)
        ensures
            token == self@.0,
    {
        self.token
    }

    /// Returns the due instant.
    pub fn due(&self) -> (due: SimInstant)
        ensures
            due == self@.1,
    {
        self.due
    }

    /// Borrows the work payload.
    pub fn payload(&self) -> (payload: &T)
        ensures
            *payload == self@.2,
    {
        &self.payload
    }

    /// Consumes the scheduled item and returns its payload.
    pub fn into_payload(self) -> (payload: T)
        ensures
            payload == self@.2,
    {
        self.payload
    }
}

/// One live scheduled payload: its due instant, its insertion order, and
/// the payload itself.
pub struct PendingWork<T> {
    pub due: SimInstant,
    pub order: u64,
    pub payload: T,
}

/// Read-only queue health metrics for developer diagnostics.
#[derive(Clone, Copy, Debug, Default, PartialEq, Eq, Structural)]
pub struct SchedulerMetrics {
    /// Number of live scheduled payloads.
    pub scheduled_entries: usize,
    /// Number of heap nodes, including lazily invalidated nodes.
    pub queue_nodes: usize,
    /// Number of invalidated nodes awaiting compaction or removal.
    pub stale_nodes: usize,
}

/// Cumulative successful queue operations for read-only diagnostics.
#[derive(Clone, Copy, Debug, Default, PartialEq, Eq, Structural)]
pub struct SchedulerCounters {
    /// Newly inserted live payloads.
    pub enqueued: u64,
    /// Live payloads returned to the caller (not stale heap nodes).
    pub dequeued: u64,
    /// Successfully cancelled live payloads.
    pub cancelled: u64,
    /// Successful due-time replacements.
    pub rescheduled: u64,
}

/// Failure to assign a scheduler-local token or stable insertion order.
#[derive(Clone, Copy, Debug, PartialEq, Eq, Structural)]
pub enum SchedulerError {
    /// Every non-zero `u64` schedule token has been assigned.
    TokenSpaceExhausted,
    /// Every non-zero `u64` insertion order has been assigned.
    OrderSpaceExhausted,
}

/// The abstract state of a [`Scheduler`].
pub struct SchedulerView<T> {
    /// Live work by token.
    pub live: Map<u64, PendingWork<T>>,
    /// Heap nodes, live and stale.
    pub queue_nodes: nat,
    /// The next token to assign; zero once the token space is exhausted.
    pub next_token: u64,
    /// The next insertion order to assign; zero once exhausted.
    pub next_order: u64,
    /// Cumulative successful operations.
    pub counters: SchedulerCounters,
}

/// `u64` addition that stops at the maximum.
pub open spec fn saturating_inc(value: u64) -> u64 {
    if value == u64::MAX { value } else { (value + 1) as u64 }
}

/// How many further values a counter starting at `raw` can hand out.
pub open spec fn remaining_slots(raw: u64) -> nat {
    if raw == 0 { 0 } else { (u64::MAX - raw + 1) as nat }
}

/// The heap size above which stale nodes are compacted away.
pub open spec fn compaction_threshold(live: nat) -> nat {
    if live * 2 + 64 > usize::MAX { usize::MAX as nat } else { live * 2 + 64 }
}

/// The heap node that stands for live work `t`.
pub open spec fn current_key<T>(live: Map<u64, PendingWork<T>>, t: u64) -> QueueKey {
    QueueKey { due: live[t].due@, order: live[t].order, token: t }
}

/// Whether heap node `k` still stands for live work.
pub open spec fn is_current<T>(live: Map<u64, PendingWork<T>>, k: QueueKey) -> bool {
    live.contains_key(k.token) && live[k.token].due@ == k.due && live[k.token].order == k.order
}

/// `a` is due strictly before `b`: earlier, or equally due and inserted earlier.
pub open spec fn due_before<T>(a: PendingWork<T>, b: PendingWork<T>) -> bool {
    a.due@ < b.due@ || (a.due@ == b.due@ && a.order < b.order)
}

/// Deterministic due-time queue for event-driven simulation work.
pub struct Scheduler<T> {
    queue: Vec<QueueKey>,
    entries: HashMap<u64, PendingWork<T>>,
    next_token_raw: u64,
    next_order_raw: u64,
    counters: SchedulerCounters,
}

impl<T> View for Scheduler<T> {
    type V = SchedulerView<T>;

    closed spec fn view(&self) -> SchedulerView<T> {
        SchedulerView {
            live: self.entries@,
            queue_nodes: self.queue@.len(),
            next_token: self.next_token_raw,
            next_order: self.next_order_raw,
            counters: self.counters,
        }
    }
}

impl<T> Scheduler<T> {
    /// The scheduler's internal consistency.
    pub closed spec fn wf(&self) -> bool {
        let ms = self.queue@.to_multiset();
        let live = self.entries@;
        &&& is_heap(self.queue@)
        &&& live.dom().finite()
        &&& self.next_order_raw != 0 ==> live.len() < self.next_order_raw
        &&& forall|k: QueueKey| #[trigger] ms.count(k) <= 1
        &&& forall|k: QueueKey|
            #[trigger] ms.count(k) > 0 ==> 1 <= k.order && (self.next_order_raw != 0 ==> k.order
                < self.next_order_raw)
        &&& forall|k1: QueueKey, k2: QueueKey|
            #[trigger] ms.count(k1) > 0 && #[trigger] ms.count(k2) > 0 && k1.order == k2.order
                ==> k1 == k2
        &&& forall|t: u64|
            #[trigger] live.contains_key(t) ==> t != 0 && (self.next_token_raw != 0 ==> t
                < self.next_token_raw)
        &&& forall|t: u64| #[trigger] live.contains_key(t) ==> ms.count(current_key(live, t)) > 0
    }

    /// A consistent scheduler holds finitely many live entries.
    pub proof fn lemma_live_is_finite(&self)
        requires
            self.wf(),
        ensures
            self@.live.dom().finite(),
    {
    }

    /// In a consistent scheduler the heap holds at least one node per live
    /// entry, and every live entry's insertion order lies below the next
    /// order to be handed out (while orders remain).
    pub proof fn lemma_wf_bounds(&self)
        requires
            self.wf(),
        ensures
            self@.queue_nodes >= self@.live.len(),
            forall|t: u64| #[trigger]
                self@.live.contains_key(t) ==> self@.next_order == 0 || self@.live[t].order
                    < self@.next_order,
    {
        broadcast use vstd::seq_lib::group_to_multiset_ensures;

        let live = self.entries@;
        let q = self.queue@;
        let f = |t: u64| current_key(live, t);
        let dom = live.dom();
        let img = dom.map(f);
        assert(vstd::relations::injective_on(f, dom)) by {
            assert forall|t1: u64, t2: u64|
                dom.contains(t1) && dom.contains(t2) && #[trigger] f(t1) == #[trigger] f(t2)
                    implies t1 == t2 by {
                assert(f(t1).token == t1 && f(t2).token == t2);
            }
        }
        vstd::set_lib::lemma_map_size(dom, img, f);
        assert forall|k: QueueKey| #[trigger] img.contains(k) implies q.to_set().contains(k) by {
            let t = choose|t: u64| dom.contains(t) && f(t) == k;
            assert(q.to_multiset().count(current_key(live, t)) > 0);
            assert(q.contains(k));
        }
        assert(img.subset_of(q.to_set()));
        vstd::set_lib::lemma_len_subset(img, q.to_set());
        q.lemma_cardinality_of_set();
        assert forall|t: u64| #[trigger]
            self@.live.contains_key(t) implies self@.next_order == 0 || self@.live[t].order
                < self@.next_order by {
            assert(q.to_multiset().count(current_key(live, t)) > 0);
        }
    }

    /// Creates an empty scheduler.
    pub fn new() -> (scheduler: Scheduler<T>)
        ensures
            scheduler.wf(),
            scheduler@.live == Map::<u64, PendingWork<T>>::empty(),
            scheduler@.queue_nodes == 0,
            scheduler@.next_token == 1,
            scheduler@.next_order == 1,
            scheduler@.counters == (SchedulerCounters {
                enqueued: 0,
                dequeued: 0,
                cancelled: 0,
                rescheduled: 0,
            }),
    {
        Scheduler::resume_from(1, 1)
    }

    /// Creates an empty scheduler whose token and insertion-order counters
    /// continue from the given raw values (zero meaning exhausted).
    pub fn resume_from(next_token_raw: u64, next_order_raw: u64) -> (scheduler: Scheduler<T>)
        ensures
            scheduler.wf(),
            scheduler@.live == Map::<u64, PendingWork<T>>::empty(),
            scheduler@.queue_nodes == 0,
            scheduler@.next_token == next_token_raw,
            scheduler@.next_order == next_order_raw,
            scheduler@.counters == (SchedulerCounters {
                enqueued: 0,
                dequeued: 0,
                cancelled: 0,
                rescheduled: 0,
            }),
    {
        let scheduler = Scheduler {
            queue: Vec::new(),
            entries: HashMap::new(),
            next_token_raw,
            next_order_raw,
            counters: SchedulerCounters { enqueued: 0, dequeued: 0, cancelled: 0, rescheduled: 0 },
        };
        assert(scheduler.queue@.to_multiset() =~= Multiset::<QueueKey>::empty());
        scheduler
    }

    /// Cumulative successful operations; reading does not mutate queue state.
    pub fn counters(&self) -> (counters: SchedulerCounters)
        ensures
            counters == self@.counters,
    {
        self.counters
    }

    /// Returns the number of live scheduled payloads.
    pub fn len(&self) -> (count: usize)
        ensures
            count == self@.live.len(),
    {
        self.entries.len()
    }

    /// Returns whether no live work is scheduled.
    pub fn is_empty(&self) -> (empty: bool)
        ensures
            empty == (self@.live.len() == 0),
    {
        self.entries.len() == 0
    }

    /// Returns queue health metrics without mutating the scheduler.
    pub fn metrics(&self) -> (metrics: SchedulerMetrics)
        ensures
            metrics.scheduled_entries == self@.live.len(),
            metrics.queue_nodes == self@.queue_nodes,
            metrics.stale_nodes == if self@.queue_nodes >= self@.live.len() {
                self@.queue_nodes - self@.live.len()
            } else {
                0
            },
            self.wf() ==> metrics.queue_nodes >= metrics.scheduled_entries
                && metrics.stale_nodes == metrics.queue_nodes - metrics.scheduled_entries,
    {
        proof {
            if self.wf() {
                self.lemma_wf_bounds();
            }
        }
        SchedulerMetrics {
            scheduled_entries: self.entries.len(),
            queue_nodes: self.queue.len(),
            stale_nodes: self.queue.len().saturating_sub(self.entries.len()),
        }
    }

    fn remaining_token_slots(&self) -> (slots: u64)
        ensures
            slots == remaining_slots(self@.next_token),
    {
        if self.next_token_raw == 0 {
            0
        } else {
            u64::MAX - self.next_token_raw + 1
        }
    }

    fn remaining_order_slots(&self) -> (slots: u64)
        ensures
            slots == remaining_slots(self@.next_order),
    {
        if self.next_order_raw == 0 {
            0
        } else {
            u64::MAX - self.next_order_raw + 1
        }
    }

    /// Returns whether `count` further [`schedule_at`](Scheduler::schedule_at)
    /// calls would succeed, by checking the remaining token and order space.
    /// Token exhaustion takes precedence. Never mutates the scheduler.
    pub fn check_schedule_capacity(&self, count: usize) -> (result: Result<(), SchedulerError>)
        ensures
            match result {
                Ok(()) => count <= remaining_slots(self@.next_token) && count <= remaining_slots(
                    self@.next_order,
                ),
                Err(SchedulerError::TokenSpaceExhausted) => count > remaining_slots(
                    self@.next_token,
                ),
                Err(SchedulerError::OrderSpaceExhausted) => count <= remaining_slots(
                    self@.next_token,
                ) && count > remaining_slots(self@.next_order),
            },
    {
        if self.remaining_token_slots() < count as u64 {
            return Err(SchedulerError::TokenSpaceExhausted);
        }
        if self.remaining_order_slots() < count as u64 {
            return Err(SchedulerError::OrderSpaceExhausted);
        }
        Ok(())
    }

    /// Whether heap node `key` still stands for live work.
    fn key_is_current(&self, key: QueueKey) -> (current: bool)
        ensures
            current == is_current(self@.live, key),
    {
        match self.entries.get(&key.token) {
            Some(entry) => entry.due.as_seconds() == key.due && entry.order == key.order,
            None => false,
        }
    }

    /// Schedules a payload for an absolute simulation instant.
    ///
    /// Fails with [`SchedulerError::TokenSpaceExhausted`] or
    /// [`SchedulerError::OrderSpaceExhausted`], without mutating the queue,
    /// when the corresponding runtime counter is exhausted.
    pub fn schedule_at(&mut self, due: SimInstant, payload: T) -> (result: Result<
        ScheduleToken,
        SchedulerError,
    >)
        requires
            old(self).wf(),
            old(self)@.queue_nodes < usize::MAX,
        ensures
            final(self).wf(),
            match result {
                Ok(token) => {
                    &&& old(self)@.next_token != 0
                    &&& old(self)@.next_order != 0
                    &&& token@ == old(self)@.next_token
                    &&& !old(self)@.live.contains_key(token@)
                    &&& forall|u: u64| #[trigger]
                        old(self)@.live.contains_key(u) ==> old(self)@.live[u].order
                            < old(self)@.next_order
                    &&& forall|u: u64| #[trigger]
                        old(self)@.live.contains_key(u) && old(self)@.live[u].due@ == due@
                            ==> due_before(old(self)@.live[u], final(self)@.live[token@])
                    &&& final(self)@.live == old(self)@.live.insert(
                        token@,
                        PendingWork { due, order: old(self)@.next_order, payload },
                    )
                    &&& final(self)@.live == apply_change(
                        old(self)@.live,
                        LiveChange::Scheduled {
                            token: token@,
                            work: PendingWork { due, order: old(self)@.next_order, payload },
                        },
                    )
                    &&& final(self)@.queue_nodes == old(self)@.queue_nodes + 1
                    &&& final(self)@.next_token == successor_raw(old(self)@.next_token)
                    &&& final(self)@.next_order == successor_raw(old(self)@.next_order)
                    &&& final(self)@.counters == (SchedulerCounters {
                        enqueued: saturating_inc(old(self)@.counters.enqueued),
                        ..old(self)@.counters
                    })
                },
                Err(e) => {
                    &&& final(self)@ == old(self)@
                    &&& if old(self)@.next_token == 0 {
                        e == SchedulerError::TokenSpaceExhausted
                    } else {
                        old(self)@.next_order == 0 && e == SchedulerError::OrderSpaceExhausted
                    }
                },
            },
    {
        proof {
            self.lemma_wf_bounds();
        }
        let token = match ScheduleToken::new(self.next_token_raw) {
            Some(token) => token,
            None => return Err(SchedulerError::TokenSpaceExhausted),
        };
        let order = match self.next_order() {
            Ok(order) => order,
            Err(error) => return Err(error),
        };
        let next_token_raw = match self.next_token_raw.checked_add(1) {
            Some(next) => next,
            None => 0,
        };
        let raw = token.get();
        let key = QueueKey { due: due.as_seconds(), order, token: raw };
        let ghost old_ms = self.queue@.to_multiset();
        let ghost old_live = self.entries@;
        self.entries.insert(raw, PendingWork { due, order, payload });
        heap_push(&mut self.queue, key);
        self.next_token_raw = next_token_raw;
        self.counters.enqueued = self.counters.enqueued.saturating_add(1);
        proof {
            let ms = self.queue@.to_multiset();
            let live = self.entries@;
            assert(old_ms.count(key) == 0) by {
                if old_ms.count(key) > 0 {
                    assert(key.order < old(self).next_order_raw);
                }
            }
            assert forall|t: u64| #[trigger] live.contains_key(t) implies ms.count(
                current_key(live, t),
            ) > 0 by {
                if t != raw {
                    assert(old_live.contains_key(t));
                    assert(current_key(live, t) == current_key(old_live, t));
                }
            }
            assert forall|k1: QueueKey, k2: QueueKey|
                #[trigger] ms.count(k1) > 0 && #[trigger] ms.count(k2) > 0 && k1.order
                    == k2.order implies k1 == k2 by {
                if k1 != key && k2 != key {
                    assert(old_ms.count(k1) > 0 && old_ms.count(k2) > 0);
                } else if k1 != key {
                    assert(old_ms.count(k1) > 0);
                } else if k2 != key {
                    assert(old_ms.count(k2) > 0);
                }
            }
            assert forall|k: QueueKey| #[trigger] ms.count(k) > 0 implies 1 <= k.order && (
            self.next_order_raw != 0 ==> k.order < self.next_order_raw) by {
                if k != key {
                    assert(old_ms.count(k) > 0);
                }
            }
            assert(live.len() == old_live.len() + 1);
        }
        Ok(token)
    }

    /// Rebuilds the heap from live entries, removing all stale nodes.
    pub fn compact(&mut self)
        requires
            old(self).wf(),
        ensures
            final(self).wf(),
            final(self)@.live == old(self)@.live,
            final(self)@.queue_nodes == old(self)@.live.len(),
            final(self)@.next_token == old(self)@.next_token,
            final(self)@.next_order == old(self)@.next_order,
            final(self)@.counters == old(self)@.counters,
    {
        let count = self.entries.len();
        let ghost live = self.entries@;
        let ghost old_ms = self.queue@.to_multiset();
        let mut fresh: Vec<QueueKey> = Vec::new();
        let ghost all = spec_hash_map_iter(&self.entries).remaining();
        assert(fresh@.to_multiset() =~= Multiset::<QueueKey>::empty());
        for pair in it: self.entries.iter()
            invariant
                it.seq() == all,
                all.len() == live.dom().len(),
                count == live.len(),
                all.no_duplicates(),
                forall|i: int|
                    #![trigger all[i]]
                    0 <= i < all.len() ==> live.contains_key(*all[i].0) && live[*all[i].0]
                        == *all[i].1,
                forall|t: u64| #[trigger] live.contains_key(t) ==> all.contains((&t, &live[t])),
                self.entries@ == live,
                is_heap(fresh@),
                fresh@.len() == it.index(),
                it.index() <= all.len(),
                forall|key: QueueKey| #[trigger] fresh@.to_multiset().count(key) <= 1,
                forall|key: QueueKey|
                    #[trigger] fresh@.to_multiset().count(key) > 0 ==> exists|i: int|
                        0 <= i < it.index() && key == current_key(live, *(#[trigger] all[i]).0),
                forall|i: int|
                    0 <= i < it.index() ==> fresh@.to_multiset().count(
                        current_key(live, *(#[trigger] all[i]).0),
                    ) > 0,
        {
            let (token, work) = pair;
            let key = QueueKey { due: work.due.as_seconds(), order: work.order, token: *token };
            let ghost k = it.index();
            let ghost before = fresh@.to_multiset();
            proof {
                assert(all[k] == pair);
                assert(key == current_key(live, *all[k].0));
                if before.count(key) > 0 {
                    let i = choose|i: int|
                        0 <= i < k && key == current_key(live, *(#[trigger] all[i]).0);
                    assert(*all[i].0 == *all[k].0);
                    assert(all[i] == all[k]);
                }
            }
            heap_push(&mut fresh, key);
            proof {
                let after = fresh@.to_multiset();
                assert forall|key2: QueueKey| #[trigger] after.count(key2) > 0 implies exists|
                    i: int,
                | 0 <= i < k + 1 && key2 == current_key(live, *(#[trigger] all[i]).0) by {
                    if key2 != key {
                        assert(before.count(key2) > 0);
                    }
                }
            }
        }
        let ghost k = all.len() as int;
        self.queue = fresh;
        proof {
            let ms = self.queue@.to_multiset();
            assert forall|t: u64| #[trigger] live.contains_key(t) implies ms.count(
                current_key(live, t),
            ) > 0 by {
                assert(all.contains((&t, &live[t])));
                let i = choose|i: int| 0 <= i < all.len() && all[i] == (&t, &live[t]);
                assert(ms.count(current_key(live, *all[i].0)) > 0);
            }
            assert forall|key: QueueKey| #[trigger] ms.count(key) > 0 implies old_ms.count(key) > 0 by {
                let i = choose|i: int| 0 <= i < k && key == current_key(live, *(#[trigger] all[i]).0);
                assert(live.contains_key(*all[i].0));
            }
            assert forall|k1: QueueKey, k2: QueueKey|
                #[trigger] ms.count(k1) > 0 && #[trigger] ms.count(k2) > 0 && k1.order
                    == k2.order implies k1 == k2 by {
                assert(old_ms.count(k1) > 0 && old_ms.count(k2) > 0);
            }
            assert forall|key: QueueKey| #[trigger] ms.count(key) > 0 implies 1 <= key.order && (
            self.next_order_raw != 0 ==> key.order < self.next_order_raw) by {
                assert(old_ms.count(key) > 0);
            }
        }
    }

    /// Compacts when stale nodes outnumber live work by the compaction margin.
    fn compact_if_needed(&mut self)
        requires
            old(self).wf(),
        ensures
            final(self).wf(),
            final(self)@.live == old(self)@.live,
            final(self)@.queue_nodes == if old(self)@.queue_nodes > compaction_threshold(
                old(self)@.live.len(),
            ) {
                old(self)@.live.len()
            } else {
                old(self)@.queue_nodes
            },
            final(self)@.next_token == old(self)@.next_token,
            final(self)@.next_order == old(self)@.next_order,
            final(self)@.counters == old(self)@.counters,
    {
        let live = self.entries.len();
        let threshold = if live > (usize::MAX - 64) / 2 {
            usize::MAX
        } else {
            live * 2 + 64
        };
        if self.queue.len() > threshold {
            self.compact();
        }
    }

    /// Cancels scheduled work, returning whether the token was live.
    pub fn cancel(&mut self, token: ScheduleToken) -> (removed: bool)
        requires
            old(self).wf(),
        ensures
            final(self).wf(),
            removed == old(self)@.live.contains_key(token@),
            final(self)@.live == old(self)@.live.remove(token@),
            final(self)@.live == apply_change(old(self)@.live, LiveChange::Removed { token: token@ }),
            final(self)@.queue_nodes == if removed && old(self)@.queue_nodes > compaction_threshold(
                final(self)@.live.len(),
            ) {
                final(self)@.live.len()
            } else {
                old(self)@.queue_nodes
            },
            final(self)@.next_token == old(self)@.next_token,
            final(self)@.next_order == old(self)@.next_order,
            final(self)@.counters == if removed {
                SchedulerCounters {
                    cancelled: saturating_inc(old(self)@.counters.cancelled),
                    ..old(self)@.counters
                }
            } else {
                old(self)@.counters
            },
    {
        let ghost old_live = self.entries@;
        let removed = match self.entries.remove(&token.get()) {
            Some(_) => true,
            None => false,
        };
        proof {
            let live = self.entries@;
            assert forall|t: u64| #[trigger] live.contains_key(t) implies self.queue@.to_multiset().count(
                current_key(live, t),
            ) > 0 by {
                assert(old_live.contains_key(t));
                assert(current_key(live, t) == current_key(old_live, t));
            }
            if !removed {
                assert(live =~= old_live.remove(token@));
            }
        }
        if removed {
            self.counters.cancelled = self.counters.cancelled.saturating_add(1);
            self.compact_if_needed();
        }
        removed
    }

    /// Assigns a new due instant and insertion order to live scheduled work.
    ///
    /// Returns `Ok(false)`, changing nothing, if `token` is no longer live.
    /// Fails with [`SchedulerError::OrderSpaceExhausted`], changing nothing,
    /// if no further insertion order can be assigned.
    pub fn reschedule(&mut self, token: ScheduleToken, due: SimInstant) -> (result: Result<
        bool,
        SchedulerError,
    >)
        requires
            old(self).wf(),
            old(self)@.queue_nodes < usize::MAX,
        ensures
            final(self).wf(),
            match result {
                Ok(true) => {
                    &&& old(self)@.live.contains_key(token@)
                    &&& old(self)@.next_order != 0
                    &&& forall|u: u64| #[trigger]
                        old(self)@.live.contains_key(u) ==> old(self)@.live[u].order
                            < old(self)@.next_order
                    &&& forall|u: u64| #[trigger]
                        old(self)@.live.contains_key(u) && u != token@ && old(self)@.live[u].due@
                            == due@ ==> due_before(old(self)@.live[u], final(self)@.live[token@])
                    &&& final(self)@.live == old(self)@.live.insert(
                        token@,
                        PendingWork {
                            due,
                            order: old(self)@.next_order,
                            payload: old(self)@.live[token@].payload,
                        },
                    )
                    &&& final(self)@.queue_nodes == if old(self)@.queue_nodes + 1
                        > compaction_threshold(old(self)@.live.len()) {
                        old(self)@.live.len()
                    } else {
                        old(self)@.queue_nodes + 1
                    }
                    &&& final(self)@.live == apply_change(
                        old(self)@.live,
                        LiveChange::Rescheduled { token: token@, due, order: old(self)@.next_order },
                    )
                    &&& final(self)@.next_token == old(self)@.next_token
                    &&& final(self)@.next_order == successor_raw(old(self)@.next_order)
                    &&& final(self)@.counters == (SchedulerCounters {
                        rescheduled: saturating_inc(old(self)@.counters.rescheduled),
                        ..old(self)@.counters
                    })
                },
                Ok(false) => !old(self)@.live.contains_key(token@) && final(self)@ == old(self)@,
                Err(e) => {
                    &&& old(self)@.live.contains_key(token@)
                    &&& old(self)@.next_order == 0
                    &&& e == SchedulerError::OrderSpaceExhausted
                    &&& final(self)@ == old(self)@
                },
            },
    {
        proof {
            self.lemma_wf_bounds();
        }
        let raw = token.get();
        if !self.entries.contains_key(&raw) {
            return Ok(false);
        }
        let order = match self.next_order() {
            Ok(order) => order,
            Err(error) => return Err(error),
        };
        let ghost old_ms = self.queue@.to_multiset();
        let ghost old_live = self.entries@;
        let previous = match self.entries.remove(&raw) {
            Some(previous) => previous,
            None => return Ok(false),
        };
        self.entries.insert(raw, PendingWork { due, order, payload: previous.payload });
        let key = QueueKey { due: due.as_seconds(), order, token: raw };
        heap_push(&mut self.queue, key);
        proof {
            let ms = self.queue@.to_multiset();
            let live = self.entries@;
            assert(live.len() == old_live.len()) by {
                assert(old_live.remove(raw).len() == old_live.len() - 1);
            }
            assert(old_ms.count(key) == 0) by {
                if old_ms.count(key) > 0 {
                    assert(key.order < old(self).next_order_raw);
                }
            }
            assert forall|t: u64| #[trigger] live.contains_key(t) implies ms.count(
                current_key(live, t),
            ) > 0 by {
                if t != raw {
                    assert(old_live.contains_key(t));
                    assert(current_key(live, t) == current_key(old_live, t));
                }
            }
            assert forall|k1: QueueKey, k2: QueueKey|
                #[trigger] ms.count(k1) > 0 && #[trigger] ms.count(k2) > 0 && k1.order
                    == k2.order implies k1 == k2 by {
                if k1 != key && k2 != key {
                    assert(old_ms.count(k1) > 0 && old_ms.count(k2) > 0);
                } else if k1 != key {
                    assert(old_ms.count(k1) > 0);
                } else if k2 != key {
                    assert(old_ms.count(k2) > 0);
                }
            }
            assert forall|k: QueueKey| #[trigger] ms.count(k) > 0 implies 1 <= k.order && (
            self.next_order_raw != 0 ==> k.order < self.next_order_raw) by {
                if k != key {
                    assert(old_ms.count(k) > 0);
                }
            }
        }
        self.compact_if_needed();
        self.counters.rescheduled = self.counters.rescheduled.saturating_add(1);
        Ok(true)
    }

    /// Pops stale nodes off the top of the heap, so that the root (if any)
    /// stands for live work.
    fn prune_stale_head(&mut self)
        requires
            old(self).wf(),
        ensures
            final(self).wf(),
            final(self)@.live == old(self)@.live,
            final(self)@.queue_nodes <= old(self)@.queue_nodes,
            final(self)@.next_token == old(self)@.next_token,
            final(self)@.next_order == old(self)@.next_order,
            final(self)@.counters == old(self)@.counters,
            final(self).queue@.len() > 0 ==> is_current(final(self)@.live, final(self).queue@[0]),
    {
        while self.queue.len() > 0
            invariant
                self.wf(),
                self@.live == old(self)@.live,
                self@.queue_nodes <= old(self)@.queue_nodes,
                self@.next_token == old(self)@.next_token,
                self@.next_order == old(self)@.next_order,
                self@.counters == old(self)@.counters,
            decreases self.queue@.len(),
        {
            let head = self.queue[0];
            if self.key_is_current(head) {
                return;
            }
            let ghost old_ms = self.queue@.to_multiset();
            let popped = heap_pop(&mut self.queue);
            proof {
                self.lemma_stale_pop_keeps_wf(old_ms, popped);
            }
        }
    }

    proof fn lemma_stale_pop_keeps_wf(&self, old_ms: Multiset<QueueKey>, popped: QueueKey)
        requires
            is_heap(self.queue@),
            self.queue@.to_multiset() == old_ms.remove(popped),
            !is_current(self.entries@, popped),
            self.next_order_raw != 0 ==> self.entries@.len() < self.next_order_raw,
            forall|k: QueueKey| #[trigger] old_ms.count(k) <= 1,
            forall|k: QueueKey|
                #[trigger] old_ms.count(k) > 0 ==> 1 <= k.order && (self.next_order_raw != 0
                    ==> k.order < self.next_order_raw),
            forall|k1: QueueKey, k2: QueueKey|
                #[trigger] old_ms.count(k1) > 0 && #[trigger] old_ms.count(k2) > 0 && k1.order
                    == k2.order ==> k1 == k2,
            forall|t: u64|
                #[trigger] self.entries@.contains_key(t) ==> t != 0 && (self.next_token_raw != 0
                    ==> t < self.next_token_raw),
            forall|t: u64|
                #[trigger] self.entries@.contains_key(t) ==> old_ms.count(
                    current_key(self.entries@, t),
                ) > 0,
        ensures
            self.wf(),
    {
        let ms = self.queue@.to_multiset();
        let live = self.entries@;
        assert forall|t: u64| #[trigger] live.contains_key(t) implies ms.count(current_key(live, t))
            > 0 by {
            assert(current_key(live, t) != popped);
        }
        assert forall|k: QueueKey| #[trigger] ms.count(k) > 0 implies old_ms.count(k) > 0 by {
        }
        assert forall|k1: QueueKey, k2: QueueKey|
            #[trigger] ms.count(k1) > 0 && #[trigger] ms.count(k2) > 0 && k1.order
                == k2.order implies k1 == k2 by {
            assert(old_ms.count(k1) > 0 && old_ms.count(k2) > 0);
        }
    }

    /// The root of the heap comes no later than the node of any live work.
    proof fn lemma_root_precedes_live(&self, t: u64)
        requires
            self.wf(),
            self.entries@.contains_key(t),
        ensures
            self.queue@.len() > 0,
            key_le(self.queue@[0], current_key(self.entries@, t)),
    {
        let key = current_key(self.entries@, t);
        assert(self.queue@.to_multiset().count(key) > 0);
        assert(self.queue@.contains(key));
        let i = choose|i: int| 0 <= i < self.queue@.len() && self.queue@[i] == key;
        crate::queue::lemma_root_is_first(self.queue@, i);
    }

    /// Returns the earliest live due instant, pruning stale leading nodes.
    pub fn next_due(&mut self) -> (due: Option<SimInstant>)
        requires
            old(self).wf(),
        ensures
            final(self).wf(),
            final(self)@.live == old(self)@.live,
            final(self)@.queue_nodes <= old(self)@.queue_nodes,
            final(self)@.next_token == old(self)@.next_token,
            final(self)@.next_order == old(self)@.next_order,
            final(self)@.counters == old(self)@.counters,
            match due {
                Some(d) => {
                    &&& exists|t: u64| #[trigger]
                        old(self)@.live.contains_key(t) && old(self)@.live[t].due == d
                    &&& forall|t: u64| #[trigger]
                        old(self)@.live.contains_key(t) ==> d@ <= old(self)@.live[t].due@
                },
                None => old(self)@.live.len() == 0,
            },
    {
        self.prune_stale_head();
        if self.queue.len() == 0 {
            proof {
                let live = self.entries@;
                if live.len() != 0 {
                    let t = live.dom().choose();
                    assert(live.dom().contains(t));
                    self.lemma_root_precedes_live(t);
                }
            }
            return None;
        }
        let head = self.queue[0];
        let due = SimInstant::from_seconds(head.due);
        proof {
            let live = self.entries@;
            assert(live.contains_key(head.token));
            crate::time::lemma_instant_view_injective(live[head.token].due, due);
            assert(live[head.token].due == due);
            assert forall|t: u64| #[trigger] live.contains_key(t) implies head.due <= live[t].due@ by {
                self.lemma_root_precedes_live(t);
            }
        }
        Some(due)
    }

    /// Removes and returns the earliest live work due at or before `now`:
    /// the one with the earliest due instant, and among equal due instants
    /// the one scheduled (or rescheduled) first.
    pub fn pop_due(&mut self, now: SimInstant) -> (popped: Option<Scheduled<T>>)
        requires
            old(self).wf(),
        ensures
            final(self).wf(),
            final(self)@.queue_nodes <= old(self)@.queue_nodes,
            final(self)@.next_token == old(self)@.next_token,
            final(self)@.next_order == old(self)@.next_order,
            match popped {
                Some(item) => {
                    let t = item@.0@;
                    let work = old(self)@.live[t];
                    &&& old(self)@.live.contains_key(t)
                    &&& item@.1 == work.due
                    &&& item@.2 == work.payload
                    &&& work.due@ <= now@
                    &&& forall|u: u64| #[trigger]
                        old(self)@.live.contains_key(u) && u != t ==> due_before(
                            work,
                            old(self)@.live[u],
                        )
                    &&& final(self)@.live == old(self)@.live.remove(t)
                    &&& final(self)@.live == apply_change(old(self)@.live, LiveChange::Removed { token: t })
                    &&& final(self)@.counters == (SchedulerCounters {
                        dequeued: saturating_inc(old(self)@.counters.dequeued),
                        ..old(self)@.counters
                    })
                },
                None => {
                    &&& forall|u: u64| #[trigger]
                        old(self)@.live.contains_key(u) ==> old(self)@.live[u].due@ > now@
                    &&& final(self)@.live == old(self)@.live
                    &&& final(self)@.counters == old(self)@.counters
                },
            },
    {
        let limit = now.as_seconds();
        while self.queue.len() > 0
            invariant
                self.wf(),
                self@.live == old(self)@.live,
                self@.queue_nodes <= old(self)@.queue_nodes,
                self@.next_token == old(self)@.next_token,
                self@.next_order == old(self)@.next_order,
                self@.counters == old(self)@.counters,
                limit == now@,
            decreases self.queue@.len(),
        {
            let head = self.queue[0];
            if head.due > limit {
                proof {
                    assert forall|u: u64| #[trigger] self.entries@.contains_key(u) implies self.entries@[
                        u].due@ > now@ by {
                        self.lemma_root_precedes_live(u);
                    }
                }
                return None;
            }
            let ghost old_ms = self.queue@.to_multiset();
            let ghost before = self.queue@;
            let key = heap_pop(&mut self.queue);
            if self.key_is_current(key) {
                let ghost old_live = self.entries@;
                proof {
                    assert forall|u: u64| #[trigger]
                        old_live.contains_key(u) && u != key.token implies due_before(
                        old_live[key.token],
                        old_live[u],
                    ) by {
                        let other = current_key(old_live, u);
                        assert(old_ms.count(other) > 0);
                        assert(before.contains(other));
                        let i = choose|i: int| 0 <= i < before.len() && before[i] == other;
                        assert(key_le(key, before[i]));
                        assert(key != other);
                        assert(old_ms.count(key) > 0) by {
                            assert(before[0] == key);
                        }
                        assert(key.order != other.order);
                    }
                }
                let work = match self.entries.remove(&key.token) {
                    Some(work) => work,
                    None => {
                        proof {
                            assert(false);
                        }
                        return None;
                    },
                };
                proof {
                    let ms = self.queue@.to_multiset();
                    let live = self.entries@;
                    assert(live.len() == old_live.len() - 1);
                    assert forall|t: u64| #[trigger] live.contains_key(t) implies ms.count(
                        current_key(live, t),
                    ) > 0 by {
                        assert(old_live.contains_key(t));
                        assert(current_key(live, t) == current_key(old_live, t));
                        assert(current_key(live, t) != key);
                    }
                    assert forall|k: QueueKey| #[trigger] ms.count(k) > 0 implies old_ms.count(k)
                        > 0 by {}
                    assert forall|k1: QueueKey, k2: QueueKey|
                        #[trigger] ms.count(k1) > 0 && #[trigger] ms.count(k2) > 0 && k1.order
                            == k2.order implies k1 == k2 by {
                        assert(old_ms.count(k1) > 0 && old_ms.count(k2) > 0);
                    }
                }
                self.counters.dequeued = self.counters.dequeued.saturating_add(1);
                return Some(Scheduled { token: ScheduleToken(key.token), due: work.due, payload: work.payload });
            }
            proof {
                self.lemma_stale_pop_keeps_wf(old_ms, key);
            }
        }
        proof {
            let live = self.entries@;
            assert forall|u: u64| #[trigger] live.contains_key(u) implies live[u].due@ > now@ by {
                self.lemma_root_precedes_live(u);
            }
        }
        None
    }

    fn next_order(&mut self) -> (order: Result<u64, SchedulerError>)
        requires
            old(self).wf(),
        ensures
            match order {
                Ok(o) => {
                    &&& old(self)@.next_order != 0
                    &&& o == old(self)@.next_order
                    &&& final(self).next_order_raw == successor_raw(old(self).next_order_raw)
                },
                Err(e) => old(self)@.next_order == 0 && e == SchedulerError::OrderSpaceExhausted
                    && final(self).next_order_raw == old(self).next_order_raw,
            },
            final(self).queue == old(self).queue,
            final(self).entries == old(self).entries,
            final(self).next_token_raw == old(self).next_token_raw,
            final(self).counters == old(self).counters,
    {
        if self.next_order_raw == 0 {
            return Err(SchedulerError::OrderSpaceExhausted);
        }
        let order = self.next_order_raw;
        self.next_order_raw = match self.next_order_raw.checked_add(1) {
            Some(next) => next,
            None => 0,
        };
        Ok(order)
    }
}

impl<T> Default for Scheduler<T> {
    /// An empty scheduler.
    fn default() -> (scheduler: Scheduler<T>)
        ensures
            scheduler.wf(),
            scheduler@.live == Map::<u64, PendingWork<T>>::empty(),
            scheduler@.queue_nodes == 0,
            scheduler@.next_token == 1,
            scheduler@.next_order == 1,
    {
        Scheduler::new()
    }
}

/// One change a successful queue operation makes to the live work.
pub enum LiveChange<T> {
    /// `schedule_at` added `work` under a fresh `token`.
    Scheduled { token: u64, work: PendingWork<T> },
    /// `reschedule` moved `token` to `due` with insertion order `order`.
    Rescheduled { token: u64, due: SimInstant, order: u64 },
    /// `cancel` or `pop_due` removed `token`.
    Removed { token: u64 },
}

/// The live work after one change.
pub open spec fn apply_change<T>(live: Map<u64, PendingWork<T>>, change: LiveChange<T>) -> Map<
    u64,
    PendingWork<T>,
> {
    match change {
        LiveChange::Scheduled { token, work } => live.insert(token, work),
        LiveChange::Rescheduled { token, due, order } => if live.contains_key(token) {
            live.insert(token, PendingWork { due, order, payload: live[token].payload })
        } else {
            live
        },
        LiveChange::Removed { token } => live.remove(token),
    }
}

/// The live work after a run of changes, first to last.
pub open spec fn apply_changes<T>(live: Map<u64, PendingWork<T>>, changes: Seq<LiveChange<T>>) -> Map<
    u64,
    PendingWork<T>,
>
    decreases changes.len(),
{
    if changes.len() == 0 {
        live
    } else {
        apply_change(apply_changes(live, changes.drop_last()), changes.last())
    }
}

/// The due instant of `token` after a run of changes that started with it
/// due at `due`: the due of its last rescheduling, if any.
pub open spec fn last_due<T>(changes: Seq<LiveChange<T>>, token: u64, due: SimInstant) -> SimInstant
    decreases changes.len(),
{
    if changes.len() == 0 {
        due
    } else {
        match changes.last() {
            LiveChange::Rescheduled { token: t, due: d, .. } => if t == token {
                d
            } else {
                last_due(changes.drop_last(), token, due)
            },
            _ => last_due(changes.drop_last(), token, due),
        }
    }
}

/// Whether a change neither removes `token` nor schedules it afresh.
pub open spec fn keeps_token<T>(change: LiveChange<T>, token: u64) -> bool {
    match change {
        LiveChange::Scheduled { token: t, .. } => t != token,
        LiveChange::Removed { token: t } => t != token,
        LiveChange::Rescheduled { .. } => true,
    }
}

/// Scheduled work keeps its payload until it leaves the queue: after any
/// run of operations that neither cancels nor pops it, the work is still
/// live with the payload it was scheduled with and the due instant of its
/// last rescheduling (or its first due). `pop_due` hands out exactly that
/// payload and due when it pops the token.
pub proof fn law_work_keeps_payload_and_last_due<T>(
    live: Map<u64, PendingWork<T>>,
    changes: Seq<LiveChange<T>>,
    token: u64,
)
    requires
        live.contains_key(token),
        forall|i: int| 0 <= i < changes.len() ==> keeps_token(#[trigger] changes[i], token),
    ensures
        apply_changes(live, changes).contains_key(token),
        apply_changes(live, changes)[token].payload == live[token].payload,
        apply_changes(live, changes)[token].due == last_due(changes, token, live[token].due),
    decreases changes.len(),
{
    if changes.len() > 0 {
        let rest = changes.drop_last();
        assert forall|i: int| 0 <= i < rest.len() implies keeps_token(#[trigger] rest[i], token) by {
            assert(rest[i] == changes[i]);
        }
        law_work_keeps_payload_and_last_due(live, rest, token);
        assert(keeps_token(changes[changes.len() - 1], token));
    }
}

/// Work leaves the scheduler in due order: whatever is popped after an
/// earlier pop (with no scheduling in between) was due no earlier, and
/// among equal due instants was inserted later.
pub proof fn law_pops_follow_due_order<T>(
    before: SchedulerView<T>,
    first: u64,
    after: SchedulerView<T>,
    second: u64,
)
    requires
        before.live.contains_key(first),
        forall|u: u64| #[trigger]
            before.live.contains_key(u) && u != first ==> due_before(
                before.live[first],
                before.live[u],
            ),
        after.live == before.live.remove(first),
        after.live.contains_key(second),
    ensures
        due_before(before.live[first], after.live[second]),
{
    assert(before.live.contains_key(second));
}

/// Cancelled or popped work is gone for good: once a token is no longer
/// live, cancelling it again reports `false` and rescheduling it reports
/// `Ok(false)`, both without touching the queue.
pub proof fn law_removed_tokens_stay_removed<T>(
    before: SchedulerView<T>,
    token: u64,
    after: SchedulerView<T>,
)
    requires
        after.live == before.live.remove(token),
    ensures
        !after.live.contains_key(token),
{
}

/// The message of a scheduler failure.
pub open spec fn scheduler_error_text(error: SchedulerError) -> Seq<char> {
    match error {
        SchedulerError::TokenSpaceExhausted => "schedule token space is exhausted"@,
        SchedulerError::OrderSpaceExhausted => "scheduler insertion-order space is exhausted"@,
    }
}

impl SchedulerError {
    /// The message of this failure.
    pub fn to_string(&self) -> (text: String)
        ensures
            text@ == scheduler_error_text(*self),
    {
        match self {
            SchedulerError::TokenSpaceExhausted => "schedule token space is exhausted".to_owned(),
            SchedulerError::OrderSpaceExhausted => {
                "scheduler insertion-order space is exhausted".to_owned()
            },
        }
    }
}

} // verus!
