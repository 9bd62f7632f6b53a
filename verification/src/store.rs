//! The durable LoopX state: tasks, the semantic event log with its cursor,
//! and the idempotency keys of applied requests.

use std::collections::BTreeMap;
use vstd::prelude::*;

use crate::policy::{spec_task_state_after_restart, task_state_after_restart};
use crate::text::{push_str, str_eq};
use crate::types::{
    LoopxEnvironmentFact, LoopxEnvironmentSnapshot, LoopxEnvironmentStatus, LoopxEvent,
    LoopxEventKind, LoopxEventLevel, LoopxEventSource, LoopxEventsPageStatus,
    LoopxEventsSinceResponse, LoopxExecutionDomain, LoopxExecutionSupport, LoopxPhase,
    LoopxSnapshot, LoopxTaskSnapshot, LoopxTaskState,
};

verus! {

pub const LOOPX_STATE_SCHEMA_VERSION: u32 = 1;

/// The semantic event log keeps at most this many events.
pub const MAX_SEMANTIC_EVENTS: usize = 2000;

/// At most this many applied request ids are remembered.
pub const MAX_IDEMPOTENCY_KEYS: usize = 512;

pub const DEFAULT_EVENT_PAGE_SIZE: usize = 200;

pub const MAX_EVENT_PAGE_SIZE: usize = 1000;

#[derive(Debug, Clone, PartialEq, Eq)]
pub struct LoopxTaskRuntimeRecord {
    pub operation_id: String,
    pub registry_path: String,
    pub session_id: Option<String>,
    pub agent_turn_id: Option<String>,
    pub loopx_turn_id: Option<String>,
    pub settlement_token: Option<String>,
    pub expected_durable_revision: Option<String>,
    /// Last attempt time of the passive Goal reconciliation, tracked apart
    /// from `updated_at` so that its own progress events do not restart its
    /// throttle window.
    pub last_goal_reconcile_at_ms: Option<i64>,
    /// One-shot flag: after a settlement without durable progress the host
    /// schedules exactly one corrective turn before parking the task.
    pub durable_compensation_pending: bool,
    /// One-shot host note appended to the next agent instruction.
    pub pending_host_note: Option<String>,
    /// One-shot flag: the pinned references are injected only on the first
    /// agent turn of a session.
    pub pinned_reference_injected: bool,
}

impl Default for LoopxTaskRuntimeRecord {
    fn default() -> (res: Self)
        ensures
            res.operation_id@ == Seq::<char>::empty(),
            res.registry_path@ == Seq::<char>::empty(),
            res.session_id is None,
            res.agent_turn_id is None,
            res.loopx_turn_id is None,
            res.settlement_token is None,
            res.expected_durable_revision is None,
            res.last_goal_reconcile_at_ms is None,
            !res.durable_compensation_pending,
            res.pending_host_note is None,
            !res.pinned_reference_injected,
    {
        LoopxTaskRuntimeRecord {
            operation_id: String::new(),
            registry_path: String::new(),
            session_id: None,
            agent_turn_id: None,
            loopx_turn_id: None,
            settlement_token: None,
            expected_durable_revision: None,
            last_goal_reconcile_at_ms: None,
            durable_compensation_pending: false,
            pending_host_note: None,
            pinned_reference_injected: false,
        }
    }
}

#[derive(Debug, Clone)]
pub struct LoopxPersistedState {
    pub schema_version: u32,
    pub stream_id: String,
    pub cursor: u64,
    pub revision: u64,
    pub environment: LoopxEnvironmentSnapshot,
    /// Durable host jobs and the last read-only LoopX Goal projection.
    pub tasks: Vec<LoopxTaskSnapshot>,
    pub runtime: BTreeMap<String, LoopxTaskRuntimeRecord>,
    pub events: Vec<LoopxEvent>,
    pub processed_request_ids: Vec<String>,
    /// True while the user stopped the whole LoopX run.
    pub suspended: bool,
}

/// The last `n` elements of `s` (all of them when there are fewer).
pub open spec fn keep_last<A>(s: Seq<A>, n: nat) -> Seq<A> {
    if s.len() > n {
        s.skip(s.len() - n)
    } else {
        s
    }
}

/// Cursors strictly increase along the log.
pub open spec fn cursors_increase(events: Seq<LoopxEvent>) -> bool {
    forall|i: int, j: int| 0 <= i < j < events.len() ==> events[i].cursor < events[j].cursor
}

/// The request ids are distinct, non-empty texts.
pub open spec fn request_ids_distinct(ids: Seq<String>) -> bool {
    &&& forall|i: int, j: int| 0 <= i < j < ids.len() ==> ids[i]@ != ids[j]@
    &&& forall|i: int| 0 <= i < ids.len() ==> (#[trigger] ids[i])@.len() > 0
}

/// Whether `id` is among the remembered request ids.
pub open spec fn knows_request(ids: Seq<String>, id: Seq<char>) -> bool {
    exists|i: int| 0 <= i < ids.len() && (#[trigger] ids[i])@ == id
}

/// The events strictly after `after`, in log order.
pub open spec fn events_after(events: Seq<LoopxEvent>, after: u64) -> Seq<LoopxEvent>
    decreases events.len(),
{
    if events.len() == 0 {
        Seq::empty()
    } else {
        let rest = events_after(events.drop_last(), after);
        if events.last().cursor > after {
            rest.push(events.last())
        } else {
            rest
        }
    }
}

/// The page size for a requested limit: the default when absent, clamped to
/// `1..=MAX_EVENT_PAGE_SIZE`.
pub open spec fn page_limit(requested: Option<u32>) -> int {
    let l: int = match requested {
        Some(v) => v as int,
        None => DEFAULT_EVENT_PAGE_SIZE as int,
    };
    if l < 1 {
        1
    } else if l > MAX_EVENT_PAGE_SIZE {
        MAX_EVENT_PAGE_SIZE as int
    } else {
        l
    }
}

/// The next cursor of a page: its last event's cursor, or the request's
/// cursor (not past the latest) when the page is empty.
pub open spec fn page_next_cursor(page: Seq<LoopxEvent>, after: u64, cursor: u64) -> u64 {
    if page.len() > 0 {
        page.last().cursor
    } else if after < cursor {
        after
    } else {
        cursor
    }
}

/// Element-wise `same_as`.
pub open spec fn same_events(a: Seq<LoopxEvent>, b: Seq<LoopxEvent>) -> bool {
    a.len() == b.len() && forall|i: int| 0 <= i < a.len() ==> (#[trigger] a[i]).same_as(b[i])
}

/// Element-wise `same_as`.
pub open spec fn same_tasks(a: Seq<LoopxTaskSnapshot>, b: Seq<LoopxTaskSnapshot>) -> bool {
    a.len() == b.len() && forall|i: int| 0 <= i < a.len() ==> (#[trigger] a[i]).same_as(b[i])
}

/// What a host restart makes of one task.
pub open spec fn restarted_task(old: LoopxTaskSnapshot, new: LoopxTaskSnapshot, now_ms: i64) -> bool {
    let r = spec_task_state_after_restart(old.state);
    if r == old.state {
        new == old
    } else {
        &&& new.state == r
        &&& new.phase == (if r == LoopxTaskState::RecoveryRequired {
            LoopxPhase::Recovering
        } else if r == LoopxTaskState::Queued {
            LoopxPhase::Queued
        } else {
            old.phase
        })
        &&& (if r == LoopxTaskState::RecoveryRequired {
            new.recovery_reason matches Some(reason) && reason@ == "host_restart"@
        } else {
            new.recovery_reason == old.recovery_reason
        })
        &&& new.revision == (if old.revision == u64::MAX {
            u64::MAX
        } else {
            (old.revision + 1) as u64
        })
        &&& new.updated_at == now_ms
        &&& new.current_tool is None
        &&& new.deadline_at is None
        &&& new.retry_at is None
        &&& new == LoopxTaskSnapshot {
            state: new.state,
            phase: new.phase,
            recovery_reason: new.recovery_reason,
            revision: new.revision,
            updated_at: new.updated_at,
            current_tool: None,
            deadline_at: None,
            retry_at: None,
            ..old
        }
    }
}

/// Whether a restart changes the task.
pub open spec fn restart_changes(t: LoopxTaskSnapshot) -> bool {
    spec_task_state_after_restart(t.state) != t.state
}

/// The message of the restart event.
pub open spec fn restart_message(needs_recovery: bool, requeued: bool) -> Seq<char> {
    if needs_recovery && requeued {
        "Host restarted; interrupted LoopX tasks require recovery and pending tasks were requeued"@
    } else if needs_recovery {
        "Host restarted; interrupted LoopX tasks require explicit recovery"@
    } else if requeued {
        "Host restarted; pending LoopX tasks were requeued"@
    } else {
        "Host restarted; LoopX task state was refreshed"@
    }
}

/// A fresh identity (`uuid::Uuid::new_v4`): a random UUID in its
/// 36-character hyphenated form. Only the length is stated; the value is
/// random.
#[verifier::external_body]
pub(crate) fn new_uuid_text() -> (res: String)
    ensures
        res@.len() == 36,
{
    uuid::Uuid::new_v4().to_string()
}

/// `new` is `old` with `event` appended to the log: the event gets the next
/// cursor and the stream id, and the log keeps its newest
/// `MAX_SEMANTIC_EVENTS` events; nothing else changes.
pub open spec fn appended(old: LoopxPersistedState, new: LoopxPersistedState, event: LoopxEvent) -> bool {
    &&& new.cursor == (if old.cursor == u64::MAX {
        u64::MAX
    } else {
        (old.cursor + 1) as u64
    })
    &&& new.events@ == keep_last(
        old.events@.push(LoopxEvent { stream_id: old.stream_id, cursor: new.cursor, ..event }),
        MAX_SEMANTIC_EVENTS as nat,
    )
    &&& new.revision == old.revision
    &&& new.same_but_log(old)
}

impl LoopxPersistedState {
    /// The invariant the state operations keep: a bounded log whose cursors
    /// increase up to the state's cursor and carry its stream id, and a
    /// bounded set of distinct, non-empty request ids.
    pub open spec fn wf(self) -> bool {
        &&& self.events@.len() <= MAX_SEMANTIC_EVENTS
        &&& cursors_increase(self.events@)
        &&& forall|i: int|
            0 <= i < self.events@.len() ==> (#[trigger] self.events@[i]).cursor <= self.cursor
                && self.events@[i].stream_id == self.stream_id
        &&& self.processed_request_ids@.len() <= MAX_IDEMPOTENCY_KEYS
        &&& request_ids_distinct(self.processed_request_ids@)
    }

    /// Everything but the event log, the cursor and the revision is as in `other`.
    pub open spec fn same_but_log(self, other: Self) -> bool {
        &&& self.schema_version == other.schema_version
        &&& self.stream_id == other.stream_id
        &&& self.environment == other.environment
        &&& self.tasks == other.tasks
        &&& self.runtime == other.runtime
        &&& self.processed_request_ids == other.processed_request_ids
        &&& self.suspended == other.suspended
    }

    /// A fresh state: a new stream with an empty log.
    pub fn new(now_ms: i64) -> (res: Self)
        ensures
            fresh_state(res),
    {
        LoopxPersistedState {
            schema_version: LOOPX_STATE_SCHEMA_VERSION,
            stream_id: new_uuid_text(),
            cursor: 0,
            revision: 0,
            environment: LoopxEnvironmentSnapshot::default(),
            tasks: Vec::new(),
            runtime: BTreeMap::new(),
            events: Vec::new(),
            processed_request_ids: Vec::new(),
            suspended: false,
        }
    }

    /// The snapshot handed to the MiniApp.
    pub fn snapshot(
        &self,
        execution_domain: LoopxExecutionDomain,
        execution_support: LoopxExecutionSupport,
        unsupported_reason: Option<String>,
        now_ms: i64,
    ) -> (res: LoopxSnapshot)
        ensures
            res.schema_version == self.schema_version,
            res.stream_id == self.stream_id,
            res.cursor == self.cursor,
            res.revision == self.revision,
            res.execution_domain == execution_domain,
            res.execution_support == execution_support,
            res.unsupported_reason == unsupported_reason,
            res.environment == self.environment,
            same_tasks(res.tasks@, self.tasks@),
            res.generated_at == now_ms,
            res.suspended == self.suspended,
    {
        let mut tasks: Vec<LoopxTaskSnapshot> = Vec::new();
        let mut i: usize = 0;
        while i < self.tasks.len()
            invariant
                i <= self.tasks@.len(),
                tasks@.len() == i,
                forall|k: int| 0 <= k < i ==> (#[trigger] tasks@[k]).same_as(self.tasks@[k]),
            decreases self.tasks@.len() - i,
        {
            tasks.push(self.tasks[i].copy());
            i = i + 1;
        }
        LoopxSnapshot {
            schema_version: self.schema_version,
            stream_id: self.stream_id.clone(),
            cursor: self.cursor,
            revision: self.revision,
            execution_domain,
            execution_support,
            unsupported_reason,
            environment: self.environment.copy(),
            tasks,
            generated_at: now_ms,
            suspended: self.suspended,
        }
    }

    /// Appends a semantic event: it gets the next cursor and the stream id,
    /// and only the newest `MAX_SEMANTIC_EVENTS` events are kept.
    pub fn append_event(&mut self, event: LoopxEvent)
        ensures
            appended(*old(self), *final(self), event),
            old(self).wf() && old(self).cursor < u64::MAX ==> final(self).wf(),
    {
        self.cursor = self.cursor.saturating_add(1);
        let mut event = event;
        event.stream_id = self.stream_id.clone();
        event.cursor = self.cursor;
        self.events.push(event);
        if self.events.len() > MAX_SEMANTIC_EVENTS {
            let remove = self.events.len() - MAX_SEMANTIC_EVENTS;
            let kept = self.events.split_off(remove);
            self.events = kept;
        }
        proof {
            let pushed = old(self).events@.push(
                LoopxEvent { stream_id: old(self).stream_id, cursor: self.cursor, ..event },
            );
            assert(self.events@ =~= keep_last(pushed, MAX_SEMANTIC_EVENTS as nat));
            if old(self).wf() && old(self).cursor < u64::MAX {
                assert forall|i: int, j: int|
                    0 <= i < j < self.events@.len() implies self.events@[i].cursor
                    < self.events@[j].cursor by {
                    let off = pushed.len() - self.events@.len();
                    assert(self.events@[i] == pushed[i + off]);
                    assert(self.events@[j] == pushed[j + off]);
                }
                assert forall|i: int| 0 <= i < self.events@.len() implies (
                #[trigger] self.events@[i]).cursor <= self.cursor && self.events@[i].stream_id
                    == self.stream_id by {
                    let off = pushed.len() - self.events@.len();
                    assert(self.events@[i] == pushed[i + off]);
                }
            }
        }
    }

    /// A page of the events after `after_cursor` on the current stream; a
    /// different stream requires a snapshot.
    pub fn events_since(&self, stream_id: &str, after_cursor: u64, requested_limit: Option<u32>) -> (res:
        LoopxEventsSinceResponse)
        ensures
            res.stream_id == self.stream_id,
            stream_id@ != self.stream_id@ ==> {
                &&& res.status == LoopxEventsPageStatus::SnapshotRequired
                &&& res.events@.len() == 0
                &&& res.next_cursor == self.cursor
                &&& !res.has_more
            },
            stream_id@ == self.stream_id@ ==> {
                let avail = events_after(self.events@, after_cursor);
                let page = avail.take(
                    if avail.len() < page_limit(requested_limit) {
                        avail.len() as int
                    } else {
                        page_limit(requested_limit)
                    },
                );
                &&& res.status == LoopxEventsPageStatus::Current
                &&& same_events(res.events@, page)
                &&& res.has_more == (avail.len() > page_limit(requested_limit))
                &&& res.next_cursor == page_next_cursor(page, after_cursor, self.cursor)
            },
    {
        if !str_eq(stream_id, self.stream_id.as_str()) {
            return LoopxEventsSinceResponse {
                status: LoopxEventsPageStatus::SnapshotRequired,
                stream_id: self.stream_id.clone(),
                events: Vec::new(),
                next_cursor: self.cursor,
                has_more: false,
            };
        }
        let requested: usize = match requested_limit {
            Some(v) => v as usize,
            None => DEFAULT_EVENT_PAGE_SIZE,
        };
        let limit: usize = if requested < 1 {
            1
        } else if requested > MAX_EVENT_PAGE_SIZE {
            MAX_EVENT_PAGE_SIZE
        } else {
            requested
        };
        let ghost all = self.events@;
        let mut out: Vec<LoopxEvent> = Vec::new();
        let mut has_more = false;
        let mut i: usize = 0;
        while i < self.events.len() && !has_more
            invariant
                i <= all.len(),
                all == self.events@,
                limit == page_limit(requested_limit),
                1 <= limit <= MAX_EVENT_PAGE_SIZE,
                out@.len() <= limit,
                !has_more ==> same_events(out@, events_after(all.take(i as int), after_cursor)),
                has_more ==> {
                    &&& out@.len() == limit
                    &&& events_after(all.take(i as int), after_cursor).len() > limit
                    &&& same_events(out@, events_after(all.take(i as int), after_cursor).take(limit as int))
                },
            decreases all.len() - i,
        {
            let ghost prev = events_after(all.take(i as int), after_cursor);
            assert(all.take(i + 1).drop_last() =~= all.take(i as int));
            let e = &self.events[i];
            if e.cursor > after_cursor {
                if out.len() == limit {
                    has_more = true;
                    proof {
                        let next = events_after(all.take(i + 1), after_cursor);
                        assert(next == prev.push(all[i as int]));
                        assert(prev.take(limit as int) =~= prev);
                        assert(next.take(limit as int) =~= prev.take(limit as int));
                    }
                } else {
                    out.push(e.copy());
                    proof {
                        assert(events_after(all.take(i + 1), after_cursor) == prev.push(all[i as int]));
                    }
                }
            } else {
                proof {
                    assert(events_after(all.take(i + 1), after_cursor) == prev);
                }
            }
            i = i + 1;
        }
        proof {
            lemma_events_after_prefix(all, i as int, after_cursor);
            let avail = events_after(all, after_cursor);
            let prefix = events_after(all.take(i as int), after_cursor);
            if !has_more {
                assert(all.take(i as int) =~= all);
                if avail.len() < limit {
                    assert(avail.take(avail.len() as int) =~= avail);
                } else {
                    assert(avail.take(limit as int) =~= avail);
                }
            } else {
                assert(avail.take(limit as int) =~= prefix.take(limit as int));
            }
        }
        let next_cursor = if out.len() > 0 {
            out[out.len() - 1].cursor
        } else if after_cursor < self.cursor {
            after_cursor
        } else {
            self.cursor
        };
        LoopxEventsSinceResponse {
            status: LoopxEventsPageStatus::Current,
            stream_id: self.stream_id.clone(),
            events: out,
            next_cursor,
            has_more,
        }
    }

    /// Whether a request id was already applied.
    pub fn has_processed_request(&self, request_id: &str) -> (res: bool)
        ensures
            res == knows_request(self.processed_request_ids@, request_id@),
    {
        let mut i: usize = 0;
        while i < self.processed_request_ids.len()
            invariant
                i <= self.processed_request_ids@.len(),
                forall|k: int| 0 <= k < i ==> (#[trigger] self.processed_request_ids@[k])@ != request_id@,
            decreases self.processed_request_ids@.len() - i,
        {
            if str_eq(self.processed_request_ids[i].as_str(), request_id) {
                return true;
            }
            i = i + 1;
        }
        false
    }

    /// Remembers an applied request id: empty and known ids are ignored, and
    /// only the newest `MAX_IDEMPOTENCY_KEYS` ids are kept.
    pub fn record_processed_request(&mut self, request_id: String)
        ensures
            (request_id@.len() == 0 || knows_request(old(self).processed_request_ids@, request_id@))
                ==> final(self).processed_request_ids@ == old(self).processed_request_ids@,
            !(request_id@.len() == 0 || knows_request(
                old(self).processed_request_ids@,
                request_id@,
            )) ==> final(self).processed_request_ids@ == keep_last(
                old(self).processed_request_ids@.push(request_id),
                MAX_IDEMPOTENCY_KEYS as nat,
            ),
            request_id@.len() > 0 ==> knows_request(final(self).processed_request_ids@, request_id@),
            final(self).schema_version == old(self).schema_version,
            final(self).stream_id == old(self).stream_id,
            final(self).cursor == old(self).cursor,
            final(self).revision == old(self).revision,
            final(self).environment == old(self).environment,
            final(self).tasks == old(self).tasks,
            final(self).runtime == old(self).runtime,
            final(self).events == old(self).events,
            final(self).suspended == old(self).suspended,
            old(self).wf() ==> final(self).wf(),
    {
        if crate::text::chars_of(request_id.as_str()).len() == 0 || self.has_processed_request(
            request_id.as_str(),
        ) {
            proof {
                if request_id@.len() > 0 {
                }
            }
            return;
        }
        let ghost id = request_id@;
        let ghost before = self.processed_request_ids@;
        self.processed_request_ids.push(request_id);
        if self.processed_request_ids.len() > MAX_IDEMPOTENCY_KEYS {
            let remove = self.processed_request_ids.len() - MAX_IDEMPOTENCY_KEYS;
            let kept = self.processed_request_ids.split_off(remove);
            self.processed_request_ids = kept;
        }
        proof {
            let pushed = before.push(request_id);
            assert(self.processed_request_ids@ =~= keep_last(pushed, MAX_IDEMPOTENCY_KEYS as nat));
            let ids = self.processed_request_ids@;
            assert(ids[ids.len() - 1] == pushed[pushed.len() - 1]);
            assert(knows_request(ids, id));
            if old(self).wf() {
                let off = pushed.len() - ids.len();
                assert forall|i: int, j: int| 0 <= i < j < ids.len() implies ids[i]@ != ids[j]@ by {
                    assert(ids[i] == pushed[i + off]);
                    assert(ids[j] == pushed[j + off]);
                    if j + off == pushed.len() - 1 {
                        assert(!knows_request(before, id));
                        assert(before[i + off]@ != id);
                    }
                }
                assert forall|i: int| 0 <= i < ids.len() implies (#[trigger] ids[i])@.len() > 0 by {
                    assert(ids[i] == pushed[i + off]);
                }
            }
        }
    }

    /// Applies the restart policy to every task: interrupted work requires
    /// recovery, pending work is requeued, and one snapshot-invalidated event
    /// records it. Returns whether anything changed.
    pub fn apply_restart_policy(&mut self, now_ms: i64) -> (res: bool)
        ensures
            restart_applied(*old(self), *final(self), res, now_ms),
    {
        let ghost old_tasks = self.tasks@;
        let ghost start = *self;
        let mut changed = false;
        let mut recovery = false;
        let mut requeued = false;
        let mut i: usize = 0;
        while i < self.tasks.len()
            invariant
                i <= self.tasks@.len(),
                self.tasks@.len() == old_tasks.len(),
                self.schema_version == start.schema_version,
                self.stream_id == start.stream_id,
                self.cursor == start.cursor,
                self.revision == start.revision,
                self.environment == start.environment,
                self.runtime == start.runtime,
                self.events == start.events,
                self.processed_request_ids == start.processed_request_ids,
                self.suspended == start.suspended,
                forall|k: int| 0 <= k < i ==> restarted_task(#[trigger] old_tasks[k], self.tasks@[k], now_ms),
                forall|k: int| i <= k < old_tasks.len() ==> #[trigger] self.tasks@[k] == old_tasks[k],
                changed == exists|k: int| 0 <= k < i && restart_changes(#[trigger] old_tasks[k]),
                recovery == exists|k: int|
                    0 <= k < i && restart_changes(old_tasks[k]) && spec_task_state_after_restart(
                        #[trigger] old_tasks[k].state,
                    ) == LoopxTaskState::RecoveryRequired,
                requeued == exists|k: int|
                    0 <= k < i && restart_changes(old_tasks[k]) && spec_task_state_after_restart(
                        #[trigger] old_tasks[k].state,
                    ) == LoopxTaskState::Queued,
            decreases old_tasks.len() - i,
        {
            let current = self.tasks[i].state;
            let restarted = task_state_after_restart(current);
            if restarted != current {
                let task = &mut self.tasks[i];
                task.state = restarted;
                if restarted == LoopxTaskState::RecoveryRequired {
                    recovery = true;
                    let mut reason = String::new();
                    push_str(&mut reason, "host_restart");
                    task.recovery_reason = Some(reason);
                    task.phase = LoopxPhase::Recovering;
                } else if restarted == LoopxTaskState::Queued {
                    requeued = true;
                    task.phase = LoopxPhase::Queued;
                }
                task.revision = task.revision.saturating_add(1);
                task.updated_at = now_ms;
                task.current_tool = None;
                task.deadline_at = None;
                task.retry_at = None;
                changed = true;
            }
            proof {
                assert(restarted_task(old_tasks[i as int], self.tasks@[i as int], now_ms));
            }
            i = i + 1;
        }
        proof {
            assert forall|k: int| 0 <= k < self.tasks@.len() implies !restart_changes(
                #[trigger] self.tasks@[k],
            ) by {
                assert(restarted_task(old_tasks[k], self.tasks@[k], now_ms));
                crate::policy::lemma_restart_settles(old_tasks[k].state);
            }
        }
        if changed {
            let mut message = String::new();
            if recovery && requeued {
                push_str(
                    &mut message,
                    "Host restarted; interrupted LoopX tasks require recovery and pending tasks were requeued",
                );
            } else if recovery {
                push_str(&mut message, "Host restarted; interrupted LoopX tasks require explicit recovery");
            } else if requeued {
                push_str(&mut message, "Host restarted; pending LoopX tasks were requeued");
            } else {
                push_str(&mut message, "Host restarted; LoopX task state was refreshed");
            }
            self.revision = self.revision.saturating_add(1);
            let mut event = LoopxEvent::default();
            event.kind = LoopxEventKind::SnapshotInvalidated;
            event.level = if recovery {
                LoopxEventLevel::Warning
            } else {
                LoopxEventLevel::Info
            };
            event.source = LoopxEventSource::Controller;
            event.phase = Some(
                if recovery {
                    LoopxPhase::Recovering
                } else {
                    LoopxPhase::Queued
                },
            );
            event.message = message;
            event.important = recovery;
            event.occurred_at = now_ms;
            let ghost mid = *self;
            let ghost logged = event;
            self.append_event(event);
            proof {
                lemma_appended_logs_one(start, mid, *self, logged);
            }
        }
        changed
    }
}

impl Default for LoopxPersistedState {
    fn default() -> (res: Self)
        ensures
            res.schema_version == LOOPX_STATE_SCHEMA_VERSION,
            res.cursor == 0,
            res.revision == 0,
            res.tasks@.len() == 0,
            res.events@.len() == 0,
            res.processed_request_ids@.len() == 0,
            !res.suspended,
            res.wf(),
    {
        Self::new(0)
    }
}

/// Trimming a log before a push keeps the same tail as trimming after it,
/// so a run of appends to a bounded log is one append of the run.
pub proof fn lemma_keep_last_push<A>(s: Seq<A>, x: A, n: nat)
    requires
        n > 0,
    ensures
        keep_last(keep_last(s, n).push(x), n) == keep_last(s.push(x), n),
{
    if s.len() > n {
        assert(keep_last(keep_last(s, n).push(x), n) =~= keep_last(s.push(x), n));
    } else {
        assert(keep_last(s, n) == s);
    }
}

/// The records a state carries besides its tasks, log and environment are as
/// in `old`: the schema, the stream, the runtime records and the request ids.
pub open spec fn keeps_records(old: LoopxPersistedState, new: LoopxPersistedState) -> bool {
    &&& new.schema_version == old.schema_version
    &&& new.stream_id == old.stream_id
    &&& new.runtime == old.runtime
    &&& new.processed_request_ids == old.processed_request_ids
}

/// A fresh state: the current schema, a new stream id, an empty log at
/// cursor and revision 0, an unknown environment, no tasks, runtime records
/// or request ids, and not suspended.
pub open spec fn fresh_state(s: LoopxPersistedState) -> bool {
    &&& s.schema_version == LOOPX_STATE_SCHEMA_VERSION
    &&& s.stream_id@.len() == 36
    &&& s.cursor == 0
    &&& s.revision == 0
    &&& s.environment.status == LoopxEnvironmentStatus::Unknown
    &&& s.environment.revision == 0
    &&& s.tasks@.len() == 0
    &&& s.runtime@ == Map::<String, LoopxTaskRuntimeRecord>::empty()
    &&& s.events@.len() == 0
    &&& s.processed_request_ids@.len() == 0
    &&& !s.suspended
    &&& s.wf()
}

/// What the restart policy does to a stored state: `post` is `pre` after it,
/// and `changed` tells whether any task moved. Interrupted work requires
/// recovery and pending work is requeued; when anything moved, the revision
/// advances and one snapshot-invalidated event is logged; the stream, schema,
/// environment, runtime records, request ids and suspension stay as they were.
pub open spec fn restart_applied(
    pre: LoopxPersistedState,
    post: LoopxPersistedState,
    changed: bool,
    now_ms: i64,
) -> bool {
    &&& post.tasks@.len() == pre.tasks@.len()
    &&& forall|i: int|
        0 <= i < pre.tasks@.len() ==> restarted_task(
            #[trigger] pre.tasks@[i],
            post.tasks@[i],
            now_ms,
        )
    &&& changed == exists|i: int|
        0 <= i < pre.tasks@.len() && restart_changes(#[trigger] pre.tasks@[i])
    &&& forall|i: int|
        0 <= i < post.tasks@.len() ==> !restart_changes(
            #[trigger] post.tasks@[i],
        )
    &&& !changed ==> post.events == pre.events && post.cursor == pre.cursor && post.revision == pre.revision
    &&& changed ==> {
        let recovery = exists|i: int|
            0 <= i < pre.tasks@.len() && restart_changes(pre.tasks@[i])
                && spec_task_state_after_restart(#[trigger] pre.tasks@[i].state)
                == LoopxTaskState::RecoveryRequired;
        let requeued = exists|i: int|
            0 <= i < pre.tasks@.len() && restart_changes(pre.tasks@[i])
                && spec_task_state_after_restart(#[trigger] pre.tasks@[i].state)
                == LoopxTaskState::Queued;
        let e = post.events@.last();
        &&& post.revision == (if pre.revision == u64::MAX {
            u64::MAX
        } else {
            (pre.revision + 1) as u64
        })
        &&& post.events@.len() > 0
        &&& e.kind == LoopxEventKind::SnapshotInvalidated
        &&& e.level == (if recovery {
            LoopxEventLevel::Warning
        } else {
            LoopxEventLevel::Info
        })
        &&& e.source == LoopxEventSource::Controller
        &&& e.phase == Some(
            if recovery {
                LoopxPhase::Recovering
            } else {
                LoopxPhase::Queued
            },
        )
        &&& e.message@ == restart_message(recovery, requeued)
        &&& e.important == recovery
        &&& e.occurred_at == now_ms
        &&& e.cursor == post.cursor
        &&& e.task_id is None
        &&& e.generation is None
        &&& e.revision is None
        &&& e.tool_name is None
        &&& e.deadline_at is None
        &&& e.details@ == Map::<String, String>::empty()
        &&& logged_one(pre, post)
    }
    &&& post.schema_version == pre.schema_version
    &&& post.stream_id == pre.stream_id
    &&& post.environment == pre.environment
    &&& post.runtime == pre.runtime
    &&& post.processed_request_ids == pre.processed_request_ids
    &&& post.suspended == pre.suspended
    &&& pre.wf() && pre.cursor < u64::MAX ==> post.wf()
}

/// The log of `new` is that of `old` with one more event at its end,
/// stamped with the next cursor and the stream id.
pub open spec fn logged_one(old: LoopxPersistedState, new: LoopxPersistedState) -> bool {
    &&& new.cursor == (if old.cursor == u64::MAX {
        u64::MAX
    } else {
        (old.cursor + 1) as u64
    })
    &&& new.events@.len() > 0
    &&& new.events@ == keep_last(old.events@.push(new.events@.last()), MAX_SEMANTIC_EVENTS as nat)
    &&& new.events@.last().stream_id == old.stream_id
    &&& new.events@.last().cursor == new.cursor
}

/// An append to a state whose log, cursor and stream are those of `old`
/// logs one event after `old`'s.
pub proof fn lemma_appended_logs_one(
    old: LoopxPersistedState,
    mid: LoopxPersistedState,
    new: LoopxPersistedState,
    e: LoopxEvent,
)
    requires
        appended(mid, new, e),
        mid.events@ == old.events@,
        mid.cursor == old.cursor,
        mid.stream_id == old.stream_id,
    ensures
        logged_one(old, new),
{
    let pushed = mid.events@.push(LoopxEvent { stream_id: mid.stream_id, cursor: new.cursor, ..e });
    assert(new.events@.last() == pushed.last());
}

/// A bounded log after the events `added` were appended to it in order.
pub open spec fn log_with(events: Seq<LoopxEvent>, added: Seq<LoopxEvent>) -> Seq<LoopxEvent> {
    if added.len() == 0 {
        events
    } else {
        keep_last(events + added, MAX_SEMANTIC_EVENTS as nat)
    }
}

/// Appending one more event to a log built by `log_with` is `log_with` of
/// the longer run.
pub proof fn lemma_log_with_push(events: Seq<LoopxEvent>, added: Seq<LoopxEvent>, e: LoopxEvent)
    ensures
        keep_last(log_with(events, added).push(e), MAX_SEMANTIC_EVENTS as nat) == log_with(
            events,
            added.push(e),
        ),
{
    assert(events + added.push(e) =~= (events + added).push(e));
    if added.len() > 0 {
        lemma_keep_last_push(events + added, e, MAX_SEMANTIC_EVENTS as nat);
    } else {
        assert(events + added =~= events);
    }
}

/// `events_after` of a prefix is a prefix of `events_after` of the whole.
pub proof fn lemma_events_after_prefix(events: Seq<LoopxEvent>, n: int, after: u64)
    requires
        0 <= n <= events.len(),
    ensures
        events_after(events.take(n), after).len() <= events_after(events, after).len(),
        events_after(events.take(n), after) =~= events_after(events, after).take(
            events_after(events.take(n), after).len() as int,
        ),
    decreases events.len() - n,
{
    if n == events.len() {
        assert(events.take(n) =~= events);
    } else {
        lemma_events_after_prefix(events, n + 1, after);
        assert(events.take(n + 1).drop_last() =~= events.take(n));
    }
}

/// With increasing cursors, the events after a cursor are a suffix of the log.
proof fn lemma_events_after_suffix(events: Seq<LoopxEvent>, after: u64) -> (p: int)
    requires
        cursors_increase(events),
    ensures
        0 <= p <= events.len(),
        events_after(events, after) =~= events.skip(p),
        forall|j: int| 0 <= j < p ==> (#[trigger] events[j]).cursor <= after,
        forall|j: int| p <= j < events.len() ==> (#[trigger] events[j]).cursor > after,
    decreases events.len(),
{
    if events.len() == 0 {
        0
    } else {
        let init = events.drop_last();
        assert(cursors_increase(init));
        let q = lemma_events_after_suffix(init, after);
        let n = events.len() - 1;
        if events.last().cursor > after {
            assert(events.skip(q) =~= init.skip(q).push(events.last()));
            assert forall|j: int| 0 <= j < q implies (#[trigger] events[j]).cursor <= after by {
                assert(init[j] == events[j]);
            }
            assert forall|j: int| q <= j < events.len() implies (#[trigger] events[j]).cursor
                > after by {
                if j < n {
                    assert(init[j] == events[j]);
                }
            }
            q
        } else {
            assert forall|j: int| 0 <= j < events.len() implies (#[trigger] events[j]).cursor
                <= after by {
                if j < n {
                    assert(events[j].cursor < events[n].cursor);
                }
            }
            assert(q == n) by {
                if q < n {
                    assert(events[q].cursor < events[n].cursor);
                    assert(init[q] == events[q]);
                }
            }
            assert(events.skip(events.len() as int) =~= Seq::<LoopxEvent>::empty());
            events.len() as int
        }
    }
}

/// Pagination continues exactly where a page ends: on a log whose cursors
/// increase and do not pass the state's cursor, the events after a page's
/// next cursor are the available events that the page did not deliver.
pub proof fn lemma_next_page_continues(
    events: Seq<LoopxEvent>,
    after: u64,
    requested_limit: Option<u32>,
    cursor: u64,
)
    requires
        cursors_increase(events),
        forall|i: int| 0 <= i < events.len() ==> (#[trigger] events[i]).cursor <= cursor,
    ensures
        ({
            let avail = events_after(events, after);
            let page = avail.take(
                if avail.len() < page_limit(requested_limit) {
                    avail.len() as int
                } else {
                    page_limit(requested_limit)
                },
            );
            events_after(events, page_next_cursor(page, after, cursor)) == avail.skip(
                page.len() as int,
            )
        }),
{
    let avail = events_after(events, after);
    let limit = page_limit(requested_limit);
    let m = if avail.len() < limit {
        avail.len() as int
    } else {
        limit
    };
    let page = avail.take(m);
    let next = page_next_cursor(page, after, cursor);
    let p = lemma_events_after_suffix(events, after);
    let p2 = lemma_events_after_suffix(events, next);
    if page.len() > 0 {
        assert(page.last() == events[p + m - 1]);
        assert(p2 == p + m) by {
            if p2 < p + m {
                assert(events[p + m - 1].cursor > next);
            } else if p2 > p + m {
                assert(events[p + m].cursor <= next);
                assert(events[p + m - 1].cursor < events[p + m].cursor);
            }
        }
        assert(events.skip(p + m) =~= avail.skip(m));
    } else {
        assert(m == 0);
        if after <= cursor {
            assert(next == after);
            assert(avail.skip(0) =~= avail);
        } else {
            assert(avail.len() == 0) by {
                if p < events.len() {
                    assert(events[p].cursor > after);
                }
            }
            assert(p2 == events.len()) by {
                if p2 < events.len() {
                    assert(events[p2].cursor > cursor);
                }
            }
        }
    }
}

} // verus!
