//! Repository lanes: one task runs per repository at a time. Which task a
//! lane runs next, how a whole lane resumes, and how it stops after the agent
//! model failed.

use vstd::prelude::*;

use crate::admission::add_sat;
use crate::lifecycle::next_revision;
use crate::policy::{derive_environment_status, spec_environment_status};
use crate::requests::answers;
use crate::store::{
    keep_last, knows_request, lemma_log_with_push, log_with, LoopxPersistedState, LoopxTaskRuntimeRecord,
    MAX_IDEMPOTENCY_KEYS, MAX_SEMANTIC_EVENTS,
};
use crate::summary::{opt_string_view, spec_recovery_candidate, spec_resolves_upstream};
use crate::host::{is_repository_recovery_candidate, opt_str};
use crate::text::{chars_of, decimal, push_decimal, push_str, str_eq, string_from_range};
use crate::types::{
    LoopxEnvironmentFact, LoopxEnvironmentSnapshot, LoopxActionRequest, LoopxActionResponse, LoopxActionStatus, LoopxEnvironmentFactStatus,
    LoopxEvent, LoopxEventKind, LoopxEventLevel, LoopxEventSource, LoopxPhase, LoopxTaskSnapshot,
    LoopxTaskState,
};

verus! {

// ---------------------------------------------------------------------------
// The next task of a lane.
// ---------------------------------------------------------------------------

/// A task waiting for its lane: queued, or reserved and not yet driven.
pub open spec fn waits_for_lane(t: LoopxTaskSnapshot, repository_id: Seq<char>, exclude: Option<Seq<char>>) -> bool {
    &&& (t.state == LoopxTaskState::Queued || t.state == LoopxTaskState::Preparing)
    &&& t.identity.item.repository@.canonical_id() == repository_id
    &&& exclude != Some(t.task_id@)
}

impl LoopxPersistedState {
    /// The task a lane runs next: the first one waiting for it, other than
    /// the one just released; none while the suite is stopped.
    pub fn next_task_for_repository(&self, repository_id: &str, exclude_task_id: Option<&str>) -> (res:
        Option<String>)
        ensures
            self.suspended ==> res is None,
            !self.suspended ==> match res {
                Some(id) => exists|i: int|
                    0 <= i < self.tasks@.len() && #[trigger] waits_for_lane(
                        self.tasks@[i],
                        repository_id@,
                        opt_str(exclude_task_id),
                    ) && id == self.tasks@[i].task_id && forall|j: int|
                        0 <= j < i ==> !waits_for_lane(
                            #[trigger] self.tasks@[j],
                            repository_id@,
                            opt_str(exclude_task_id),
                        ),
                None => forall|j: int|
                    0 <= j < self.tasks@.len() ==> !waits_for_lane(
                        #[trigger] self.tasks@[j],
                        repository_id@,
                        opt_str(exclude_task_id),
                    ),
            },
    {
        if self.suspended {
            return None;
        }
        let ghost exclude = opt_str(exclude_task_id);
        let mut i: usize = 0;
        while i < self.tasks.len()
            invariant
                !self.suspended,
                i <= self.tasks@.len(),
                exclude == (opt_str(exclude_task_id)),
                forall|j: int| 0 <= j < i ==> !waits_for_lane(#[trigger] self.tasks@[j], repository_id@, exclude),
            decreases self.tasks@.len() - i,
        {
            let t = &self.tasks[i];
            if (t.state == LoopxTaskState::Queued || t.state == LoopxTaskState::Preparing) && str_eq(
                t.identity.item.repository.canonical_id().as_str(),
                repository_id,
            ) && match exclude_task_id {
                Some(e) => !str_eq(t.task_id.as_str(), e),
                None => true,
            } {
                assert(waits_for_lane(self.tasks@[i as int], repository_id@, exclude));
                return Some(t.task_id.clone());
            }
            i = i + 1;
        }
        None
    }
}

// ---------------------------------------------------------------------------
// Resuming a lane.
// ---------------------------------------------------------------------------

/// A task a repository resume requeues: in the repository, resumable, and
/// not concluded as resolved upstream.
pub open spec fn lane_candidate(t: LoopxTaskSnapshot, repository_id: Seq<char>) -> bool {
    spec_recovery_candidate(
        t,
        repository_id,
        spec_resolves_upstream(opt_string_view(t.last_agent_summary)),
    )
}

/// What a repository resume makes of a candidate: a new generation, queued
/// for recovery, with no turn, error or recovery reason.
pub open spec fn requeued_by_lane(t: LoopxTaskSnapshot, now_ms: i64) -> LoopxTaskSnapshot {
    LoopxTaskSnapshot {
        generation: next_revision(t.generation),
        revision: next_revision(t.revision),
        state: LoopxTaskState::Queued,
        phase: LoopxPhase::Recovering,
        current_turn_id: None,
        error: None,
        recovery_reason: None,
        updated_at: now_ms,
        ..t
    }
}

/// The ids of the candidates, in order.
pub open spec fn lane_candidate_ids(tasks: Seq<LoopxTaskSnapshot>, repository_id: Seq<char>) -> Seq<Seq<char>>
    decreases tasks.len(),
{
    if tasks.len() == 0 {
        Seq::empty()
    } else {
        let rest = lane_candidate_ids(tasks.drop_last(), repository_id);
        if lane_candidate(tasks.last(), repository_id) {
            rest.push(tasks.last().task_id@)
        } else {
            rest
        }
    }
}

/// The candidates themselves, in order.
pub open spec fn lane_candidates(tasks: Seq<LoopxTaskSnapshot>, repository_id: Seq<char>) -> Seq<LoopxTaskSnapshot>
    decreases tasks.len(),
{
    if tasks.len() == 0 {
        Seq::empty()
    } else {
        let rest = lane_candidates(tasks.drop_last(), repository_id);
        if lane_candidate(tasks.last(), repository_id) {
            rest.push(tasks.last())
        } else {
            rest
        }
    }
}

/// The event a repository resume logs for a candidate it requeued.
pub open spec fn lane_resume_event(e: LoopxEvent, t: LoopxTaskSnapshot, now_ms: i64) -> bool {
    &&& e.task_id == Some(t.task_id)
    &&& e.generation == Some(next_revision(t.generation))
    &&& e.revision == Some(next_revision(t.revision))
    &&& e.kind == LoopxEventKind::StateChanged
    &&& e.level == LoopxEventLevel::Info
    &&& e.source == LoopxEventSource::Controller
    &&& e.phase == Some(LoopxPhase::Recovering)
    &&& e.message@ == "Task queued by repository resume"@
    &&& !e.important
    &&& e.tool_name is None
    &&& e.deadline_at is None
    &&& e.details@ == Map::<String, String>::empty()
    &&& e.occurred_at == now_ms
}

/// `added` are the resume events of the candidates `cands`, one each and in
/// order, stamped with the stream id and the cursors that follow `cursor`.
pub open spec fn lane_resume_events(
    added: Seq<LoopxEvent>,
    cands: Seq<LoopxTaskSnapshot>,
    stream_id: String,
    cursor: u64,
    now_ms: i64,
) -> bool {
    &&& added.len() == cands.len()
    &&& forall|j: int|
        0 <= j < added.len() ==> {
            &&& #[trigger] lane_resume_event(added[j], cands[j], now_ms)
            &&& added[j].stream_id == stream_id
            &&& added[j].cursor == add_sat(cursor, (j + 1) as nat)
        }
}

/// The message of a repository resume.
pub open spec fn lane_resume_message(count: nat) -> Seq<char> {
    "Queued "@ + decimal(count) + " repository tasks"@
}

/// What a repository resume did: its answer and the tasks it queued.
pub struct LoopxLaneResume {
    pub response: LoopxActionResponse,
    pub queued_task_ids: Vec<String>,
}

impl LoopxPersistedState {
    /// Resumes a repository's lane: a request already applied is a
    /// duplicate and a stale expected revision a conflict (the state is left
    /// as it is); otherwise every candidate of the repository is requeued in a
    /// new generation with its own revision and event, the request is
    /// remembered, and the answer counts the queued tasks.
    pub fn resume_repository(&mut self, request: &LoopxActionRequest, now_ms: i64) -> (res: Result<
        LoopxLaneResume,
        String,
    >)
        ensures
            request.repository is None ==> *final(self) == *old(self) && (res matches Err(e) && e@
                == "repository is required for resume_repository"@),
            request.repository is Some && knows_request(
                old(self).processed_request_ids@,
                request.client_request_id@,
            ) ==> *final(self) == *old(self) && (res matches Ok(r) && answers(
                Some(r.response),
                LoopxActionStatus::Duplicate,
                old(self).revision,
                "Repository resume was already applied"@,
            ) && r.queued_task_ids@.len() == 0),
            request.repository is Some && !knows_request(
                old(self).processed_request_ids@,
                request.client_request_id@,
            ) && old(self).revision != request.expected_revision ==> *final(self) == *old(self) && (
            res matches Ok(r) && answers(
                Some(r.response),
                LoopxActionStatus::RevisionConflict,
                old(self).revision,
                "Task list changed; refresh before resuming the repository"@,
            ) && r.queued_task_ids@.len() == 0),
            request.repository is Some && !knows_request(
                old(self).processed_request_ids@,
                request.client_request_id@,
            ) && old(self).revision == request.expected_revision ==> {
                let repository_id = request.repository->0@.canonical_id();
                let ids = lane_candidate_ids(old(self).tasks@, repository_id);
                &&& res matches Ok(r)
                &&& r.queued_task_ids@.map_values(|s: String| s@) == ids
                &&& answers(
                    Some(r.response),
                    LoopxActionStatus::Applied,
                    final(self).revision,
                    lane_resume_message(ids.len()),
                )
                &&& final(self).tasks@.len() == old(self).tasks@.len()
                &&& forall|i: int|
                    0 <= i < old(self).tasks@.len() ==> #[trigger] final(self).tasks@[i] == (if lane_candidate(
                        old(self).tasks@[i],
                        repository_id,
                    ) {
                        requeued_by_lane(old(self).tasks@[i], now_ms)
                    } else {
                        old(self).tasks@[i]
                    })
                &&& final(self).revision == add_sat(old(self).revision, ids.len())
                &&& final(self).cursor == add_sat(old(self).cursor, ids.len())
                &&& exists|added: Seq<LoopxEvent>|
                    #[trigger] lane_resume_events(
                        added,
                        lane_candidates(old(self).tasks@, repository_id),
                        old(self).stream_id,
                        old(self).cursor,
                        now_ms,
                    ) && final(self).events@ == log_with(old(self).events@, added)
                &&& final(self).processed_request_ids@ == (if request.client_request_id@.len()
                    == 0 {
                    old(self).processed_request_ids@
                } else {
                    keep_last(
                        old(self).processed_request_ids@.push(request.client_request_id),
                        MAX_IDEMPOTENCY_KEYS as nat,
                    )
                })
                &&& final(self).schema_version == old(self).schema_version
                &&& final(self).stream_id == old(self).stream_id
                &&& final(self).environment == old(self).environment
                &&& final(self).suspended == old(self).suspended
            },
    {
        let repository = match &request.repository {
            None => return Err("repository is required for resume_repository".to_owned()),
            Some(r) => r,
        };
        if self.has_processed_request(request.client_request_id.as_str()) {
            return Ok(
                LoopxLaneResume {
                    response: LoopxActionResponse {
                        status: LoopxActionStatus::Duplicate,
                        current_revision: self.revision,
                        task: None,
                        message: Some("Repository resume was already applied".to_owned()),
                    },
                    queued_task_ids: Vec::new(),
                },
            );
        }
        if self.revision != request.expected_revision {
            return Ok(
                LoopxLaneResume {
                    response: LoopxActionResponse {
                        status: LoopxActionStatus::RevisionConflict,
                        current_revision: self.revision,
                        task: None,
                        message: Some(
                            "Task list changed; refresh before resuming the repository".to_owned(),
                        ),
                    },
                    queued_task_ids: Vec::new(),
                },
            );
        }
        let repository_id = repository.canonical_id();
        let ghost pre = *self;
        let ghost rid = repository_id@;
        let mut ids: Vec<String> = Vec::new();
        let ghost mut added: Seq<LoopxEvent> = Seq::empty();
        let mut i: usize = 0;
        while i < self.tasks.len()
            invariant
                i <= self.tasks@.len(),
                self.tasks@.len() == pre.tasks@.len(),
                rid == repository_id@,
                lane_resume_events(added, lane_candidates(pre.tasks@.take(i as int), rid), pre.stream_id, pre.cursor, now_ms),
                self.events@ == log_with(pre.events@, added),
                added.len() == ids@.len(),
                forall|k: int|
                    0 <= k < i ==> #[trigger] self.tasks@[k] == (if lane_candidate(pre.tasks@[k], rid) {
                        requeued_by_lane(pre.tasks@[k], now_ms)
                    } else {
                        pre.tasks@[k]
                    }),
                forall|k: int| i <= k < pre.tasks@.len() ==> #[trigger] self.tasks@[k] == pre.tasks@[k],
                ids@.map_values(|s: String| s@) == lane_candidate_ids(pre.tasks@.take(i as int), rid),
                ids@.len() <= i,
                self.revision == add_sat(pre.revision, ids@.len()),
                self.cursor == add_sat(pre.cursor, ids@.len()),
                self.schema_version == pre.schema_version,
                self.stream_id == pre.stream_id,
                self.environment == pre.environment,
                self.processed_request_ids == pre.processed_request_ids,
                self.suspended == pre.suspended,
            decreases pre.tasks@.len() - i,
        {
            proof {
                assert(pre.tasks@.take(i + 1).drop_last() =~= pre.tasks@.take(i as int));
                assert(pre.tasks@.take(i + 1).last() == pre.tasks@[i as int]);
                assert(lane_candidates(pre.tasks@.take(i + 1), rid) == if lane_candidate(pre.tasks@[i as int], rid) {
                    lane_candidates(pre.tasks@.take(i as int), rid).push(pre.tasks@[i as int])
                } else {
                    lane_candidates(pre.tasks@.take(i as int), rid)
                });
            }
            if is_repository_recovery_candidate(&self.tasks[i], repository_id.as_str()) {
                let task_id = self.tasks[i].task_id.clone();
                let generation = self.tasks[i].generation.saturating_add(1);
                let revision = self.tasks[i].revision.saturating_add(1);
                self.tasks[i].generation = generation;
                self.tasks[i].revision = revision;
                self.tasks[i].state = LoopxTaskState::Queued;
                self.tasks[i].phase = LoopxPhase::Recovering;
                self.tasks[i].current_turn_id = None;
                self.tasks[i].error = None;
                self.tasks[i].recovery_reason = None;
                self.tasks[i].updated_at = now_ms;
                let mut runtime = match self.runtime.remove(&task_id) {
                    Some(r) => r,
                    None => LoopxTaskRuntimeRecord::default(),
                };
                let mut operation_id = String::new();
                push_str(&mut operation_id, "resume-");
                push_str(&mut operation_id, task_id.as_str());
                push_str(&mut operation_id, "-");
                push_decimal(&mut operation_id, generation);
                runtime.operation_id = operation_id;
                runtime.session_id = None;
                runtime.agent_turn_id = None;
                runtime.loopx_turn_id = None;
                runtime.settlement_token = None;
                runtime.expected_durable_revision = None;
                self.runtime.insert(task_id.clone(), runtime);
                self.revision = self.revision.saturating_add(1);
                let mut event = LoopxEvent::default();
                event.task_id = Some(task_id.clone());
                event.generation = Some(generation);
                event.revision = Some(revision);
                event.kind = LoopxEventKind::StateChanged;
                event.source = LoopxEventSource::Controller;
                event.phase = Some(LoopxPhase::Recovering);
                event.message = "Task queued by repository resume".to_owned();
                event.occurred_at = now_ms;
                let ghost before = *self;
                let ghost logged = event;
                self.append_event(event);
                proof {
                    let stamped = LoopxEvent { stream_id: before.stream_id, cursor: self.cursor, ..logged };
                    lemma_log_with_push(pre.events@, added, stamped);
                    let old_added = added;
                    added = added.push(stamped);
                    let cands = lane_candidates(pre.tasks@.take(i + 1), rid);
                    let old_cands = lane_candidates(pre.tasks@.take(i as int), rid);
                    assert(cands == old_cands.push(pre.tasks@[i as int]));
                    assert(lane_resume_event(stamped, pre.tasks@[i as int], now_ms));
                    assert(stamped.cursor == add_sat(pre.cursor, added.len()));
                    assert forall|j: int| 0 <= j < added.len() implies {
                        &&& #[trigger] lane_resume_event(added[j], cands[j], now_ms)
                        &&& added[j].stream_id == pre.stream_id
                        &&& added[j].cursor == add_sat(pre.cursor, (j + 1) as nat)
                    } by {
                        if j < old_added.len() {
                            assert(added[j] == old_added[j]);
                            assert(cands[j] == old_cands[j]);
                            assert(lane_resume_event(old_added[j], old_cands[j], now_ms));
                        } else {
                            assert(added[j] == stamped);
                            assert(cands[j] == pre.tasks@[i as int]);
                        }
                    }
                }
                ids.push(task_id);
            }
            i = i + 1;
            proof {
                assert(ids@.map_values(|s: String| s@) =~= lane_candidate_ids(pre.tasks@.take(i as int), rid));
            }
        }
        proof {
            assert(pre.tasks@.take(pre.tasks@.len() as int) =~= pre.tasks@);
        }
        self.record_processed_request(request.client_request_id.clone());
        let mut message = String::new();
        push_str(&mut message, "Queued ");
        push_decimal(&mut message, ids.len() as u64);
        push_str(&mut message, " repository tasks");
        proof {
            reveal_strlit("Queued ");
            reveal_strlit(" repository tasks");
            assert(message@ =~= lane_resume_message(ids@.len()));
        }
        Ok(
            LoopxLaneResume {
                response: LoopxActionResponse {
                    status: LoopxActionStatus::Applied,
                    current_revision: self.revision,
                    task: None,
                    message: Some(message),
                },
                queued_task_ids: ids,
            },
        )
    }
}

// ---------------------------------------------------------------------------
// Stopping a lane after the agent model failed.
// ---------------------------------------------------------------------------

/// The reason shown on the tasks of a stopped lane: the failed item and the
/// first 700 characters of the failure.
pub open spec fn lane_pause_message(number: u64, reason: Seq<char>) -> Seq<char> {
    "Repository queue paused after Issue #"@ + decimal(number as nat) + " failed: "@ + (if reason.len()
        > 700 {
        reason.take(700)
    } else {
        reason
    })
}

/// A task a lane stop parks: another queued task of the same repository.
pub open spec fn parked_by_lane(t: LoopxTaskSnapshot, failed: LoopxTaskSnapshot) -> bool {
    &&& t.task_id@ != failed.task_id@
    &&& t.identity.item.repository@.canonical_id() == failed.identity.item.repository@.canonical_id()
    &&& t.state == LoopxTaskState::Queued
}

/// What a lane stop makes of a parked task: it requires recovery, with the
/// stop's reason as its error.
pub open spec fn lane_parked(old_t: LoopxTaskSnapshot, new_t: LoopxTaskSnapshot, message: Seq<char>, now_ms: i64) -> bool {
    &&& new_t.error matches Some(e) && e@ == message
    &&& new_t.recovery_reason matches Some(r) && r@ == "repository_paused"@
    &&& new_t == (LoopxTaskSnapshot {
        state: LoopxTaskState::RecoveryRequired,
        phase: LoopxPhase::Recovering,
        error: new_t.error,
        recovery_reason: new_t.recovery_reason,
        current_turn_id: None,
        deadline_at: None,
        revision: next_revision(old_t.revision),
        updated_at: now_ms,
        ..old_t
    })
}

/// How many tasks a lane stop parks.
pub open spec fn parked_count(tasks: Seq<LoopxTaskSnapshot>, failed: LoopxTaskSnapshot) -> nat
    decreases tasks.len(),
{
    if tasks.len() == 0 {
        0
    } else {
        parked_count(tasks.drop_last(), failed) + if parked_by_lane(tasks.last(), failed) {
            1nat
        } else {
            0nat
        }
    }
}

/// The tasks a lane stop parks, in order.
pub open spec fn parked_tasks(tasks: Seq<LoopxTaskSnapshot>, failed: LoopxTaskSnapshot) -> Seq<LoopxTaskSnapshot>
    decreases tasks.len(),
{
    if tasks.len() == 0 {
        Seq::empty()
    } else {
        let rest = parked_tasks(tasks.drop_last(), failed);
        if parked_by_lane(tasks.last(), failed) {
            rest.push(tasks.last())
        } else {
            rest
        }
    }
}

/// The event a lane stop logs for a task it parked.
pub open spec fn lane_pause_event(e: LoopxEvent, t: LoopxTaskSnapshot, message: Seq<char>, now_ms: i64) -> bool {
    &&& e.task_id == Some(t.task_id)
    &&& e.generation == Some(t.generation)
    &&& e.revision == Some(next_revision(t.revision))
    &&& e.kind == LoopxEventKind::StateChanged
    &&& e.level == LoopxEventLevel::Error
    &&& e.source == LoopxEventSource::Controller
    &&& e.phase == Some(LoopxPhase::Recovering)
    &&& e.message@ == message
    &&& e.important
    &&& e.tool_name is None
    &&& e.deadline_at is None
    &&& e.details@ == Map::<String, String>::empty()
    &&& e.occurred_at == now_ms
}

/// The environment event a lane stop logs last.
pub open spec fn model_failure_event(e: LoopxEvent, now_ms: i64) -> bool {
    &&& e.task_id is None
    &&& e.generation is None
    &&& e.revision is None
    &&& e.kind == LoopxEventKind::EnvironmentChanged
    &&& e.level == LoopxEventLevel::Error
    &&& e.source == LoopxEventSource::System
    &&& e.phase is None
    &&& e.message@ == "Agent model runtime failed; repository queue paused"@
    &&& e.important
    &&& e.tool_name is None
    &&& e.deadline_at is None
    &&& e.details@ == Map::<String, String>::empty()
    &&& e.occurred_at == now_ms
}

/// `added` are the events of the parked tasks `parked`, one each and in
/// order, stamped with the stream id and the cursors that follow `cursor`.
pub open spec fn parked_events(
    added: Seq<LoopxEvent>,
    parked: Seq<LoopxTaskSnapshot>,
    message: Seq<char>,
    stream_id: String,
    cursor: u64,
    now_ms: i64,
) -> bool {
    &&& added.len() == parked.len()
    &&& forall|j: int|
        0 <= j < added.len() ==> {
            &&& #[trigger] lane_pause_event(added[j], parked[j], message, now_ms)
            &&& added[j].stream_id == stream_id
            &&& added[j].cursor == add_sat(cursor, (j + 1) as nat)
        }
}

/// The environment after the agent model failed: the model fact is degraded
/// with the failure and its time, the overall status follows, and the
/// environment gets a new revision.
pub open spec fn model_failed_environment(
    old_env: LoopxEnvironmentSnapshot,
    new_env: LoopxEnvironmentSnapshot,
    reason: Seq<char>,
    now_ms: i64,
) -> bool {
    let fact = new_env.core.agent_model;
    &&& fact.status == LoopxEnvironmentFactStatus::Degraded
    &&& fact.detail matches Some(d) && d@ == reason
    &&& fact.checked_at == Some(now_ms)
    &&& fact == (LoopxEnvironmentFact {
        status: fact.status,
        detail: fact.detail,
        checked_at: fact.checked_at,
        ..old_env.core.agent_model
    })
    &&& new_env.core == (crate::types::LoopxCoreEnvironmentFacts { agent_model: fact, ..old_env.core })
    &&& new_env.optional == old_env.optional
    &&& new_env.status == spec_environment_status(new_env.core, new_env.optional)
    &&& new_env.revision == next_revision(old_env.revision)
    &&& new_env.checked_at == old_env.checked_at
}

fn first_chars(s: &str, n: usize) -> (res: String)
    ensures
        res@ == (if s@.len() > n {
            s@.take(n as int)
        } else {
            s@
        }),
{
    let chars = chars_of(s);
    if chars.len() > n {
        let res = string_from_range(&chars, 0, n);
        assert(chars@.subrange(0, n as int) =~= s@.take(n as int));
        res
    } else {
        let res = string_from_range(&chars, 0, chars.len());
        assert(chars@.subrange(0, chars@.len() as int) =~= s@);
        res
    }
}

impl LoopxPersistedState {
    /// Stops a repository's lane after the agent model failed on one of its
    /// tasks: the other queued tasks of the repository require recovery with
    /// the reason (each with a new revision and an error event), the agent
    /// model fact is degraded, and an environment event records the stop.
    /// Returns the ids of the parked tasks.
    pub fn pause_repository_after_failure(&mut self, failed: &LoopxTaskSnapshot, reason: &str, now_ms: i64) -> (res:
        Vec<String>)
        ensures
            res@.len() == parked_count(old(self).tasks@, *failed),
            res@.map_values(|s: String| s@) == parked_tasks(old(self).tasks@, *failed).map_values(
                |t: LoopxTaskSnapshot| t.task_id@,
            ),
            final(self).tasks@.len() == old(self).tasks@.len(),
            forall|i: int|
                0 <= i < old(self).tasks@.len() ==> if parked_by_lane(old(self).tasks@[i], *failed) {
                    lane_parked(
                        old(self).tasks@[i],
                        #[trigger] final(self).tasks@[i],
                        lane_pause_message(failed.identity.item.number, reason@),
                        now_ms,
                    )
                } else {
                    final(self).tasks@[i] == old(self).tasks@[i]
                },
            model_failed_environment(old(self).environment, final(self).environment, reason@, now_ms),
            final(self).revision == add_sat(old(self).revision, res@.len() + 1),
            final(self).cursor == add_sat(old(self).cursor, res@.len() + 1),
            exists|added: Seq<LoopxEvent>, e: LoopxEvent|
                #![trigger parked_events(added, parked_tasks(old(self).tasks@, *failed), lane_pause_message(failed.identity.item.number, reason@), old(self).stream_id, old(self).cursor, now_ms), model_failure_event(e, now_ms)]
                parked_events(
                    added,
                    parked_tasks(old(self).tasks@, *failed),
                    lane_pause_message(failed.identity.item.number, reason@),
                    old(self).stream_id,
                    old(self).cursor,
                    now_ms,
                ) && model_failure_event(e, now_ms) && e.stream_id == old(self).stream_id && e.cursor
                    == add_sat(old(self).cursor, added.len() + 1) && final(self).events@ == log_with(
                    old(self).events@,
                    added.push(e),
                ),
            final(self).schema_version == old(self).schema_version,
            final(self).stream_id == old(self).stream_id,
            final(self).processed_request_ids == old(self).processed_request_ids,
            final(self).suspended == old(self).suspended,
            final(self).runtime == old(self).runtime,
    {
        let repository_id = failed.identity.item.repository.canonical_id();
        let mut message = String::new();
        push_str(&mut message, "Repository queue paused after Issue #");
        push_decimal(&mut message, failed.identity.item.number);
        push_str(&mut message, " failed: ");
        push_str(&mut message, first_chars(reason, 700).as_str());
        proof {
            reveal_strlit("Repository queue paused after Issue #");
            reveal_strlit(" failed: ");
            assert(message@ =~= lane_pause_message(failed.identity.item.number, reason@));
        }
        let ghost pre = *self;
        let mut parked: Vec<String> = Vec::new();
        let ghost mut added: Seq<LoopxEvent> = Seq::empty();
        let mut i: usize = 0;
        while i < self.tasks.len()
            invariant
                i <= self.tasks@.len(),
                self.tasks@.len() == pre.tasks@.len(),
                parked@.map_values(|s: String| s@) == parked_tasks(pre.tasks@.take(i as int), *failed).map_values(
                    |t: LoopxTaskSnapshot| t.task_id@,
                ),
                parked_events(
                    added,
                    parked_tasks(pre.tasks@.take(i as int), *failed),
                    message@,
                    pre.stream_id,
                    pre.cursor,
                    now_ms,
                ),
                self.events@ == log_with(pre.events@, added),
                repository_id@ == failed.identity.item.repository@.canonical_id(),
                message@ == lane_pause_message(failed.identity.item.number, reason@),
                forall|k: int|
                    0 <= k < i ==> if parked_by_lane(pre.tasks@[k], *failed) {
                        lane_parked(pre.tasks@[k], #[trigger] self.tasks@[k], message@, now_ms)
                    } else {
                        self.tasks@[k] == pre.tasks@[k]
                    },
                forall|k: int| i <= k < pre.tasks@.len() ==> #[trigger] self.tasks@[k] == pre.tasks@[k],
                parked@.len() == parked_count(pre.tasks@.take(i as int), *failed),
                parked@.len() <= i,
                self.revision == add_sat(pre.revision, parked@.len()),
                self.cursor == add_sat(pre.cursor, parked@.len()),
                self.schema_version == pre.schema_version,
                self.stream_id == pre.stream_id,
                self.environment == pre.environment,
                self.processed_request_ids == pre.processed_request_ids,
                self.suspended == pre.suspended,
                self.runtime == pre.runtime,
            decreases pre.tasks@.len() - i,
        {
            proof {
                assert(pre.tasks@.take(i + 1).drop_last() =~= pre.tasks@.take(i as int));
                assert(pre.tasks@.take(i + 1).last() == pre.tasks@[i as int]);
                assert(parked_tasks(pre.tasks@.take(i + 1), *failed) == if parked_by_lane(
                    pre.tasks@[i as int],
                    *failed,
                ) {
                    parked_tasks(pre.tasks@.take(i as int), *failed).push(pre.tasks@[i as int])
                } else {
                    parked_tasks(pre.tasks@.take(i as int), *failed)
                });
            }
            let t = &self.tasks[i];
            if !str_eq(t.task_id.as_str(), failed.task_id.as_str()) && str_eq(
                t.identity.item.repository.canonical_id().as_str(),
                repository_id.as_str(),
            ) && t.state == LoopxTaskState::Queued {
                let revision = self.tasks[i].revision.saturating_add(1);
                self.tasks[i].state = LoopxTaskState::RecoveryRequired;
                self.tasks[i].phase = LoopxPhase::Recovering;
                self.tasks[i].error = Some(message.clone());
                self.tasks[i].recovery_reason = Some("repository_paused".to_owned());
                self.tasks[i].current_turn_id = None;
                self.tasks[i].deadline_at = None;
                self.tasks[i].revision = revision;
                self.tasks[i].updated_at = now_ms;
                self.revision = self.revision.saturating_add(1);
                let mut event = LoopxEvent::default();
                event.task_id = Some(self.tasks[i].task_id.clone());
                event.generation = Some(self.tasks[i].generation);
                event.revision = Some(revision);
                event.kind = LoopxEventKind::StateChanged;
                event.level = LoopxEventLevel::Error;
                event.source = LoopxEventSource::Controller;
                event.phase = Some(LoopxPhase::Recovering);
                event.message = message.clone();
                event.important = true;
                event.occurred_at = now_ms;
                let ghost old_parked = parked@;
                parked.push(self.tasks[i].task_id.clone());
                let ghost before = *self;
                let ghost logged = event;
                self.append_event(event);
                proof {
                    let stamped = LoopxEvent { stream_id: before.stream_id, cursor: self.cursor, ..logged };
                    lemma_log_with_push(pre.events@, added, stamped);
                    let old_added = added;
                    added = added.push(stamped);
                    let now_parked = parked_tasks(pre.tasks@.take(i + 1), *failed);
                    let was_parked = parked_tasks(pre.tasks@.take(i as int), *failed);
                    assert(now_parked == was_parked.push(pre.tasks@[i as int]));
                    assert(lane_pause_event(stamped, pre.tasks@[i as int], message@, now_ms));
                    assert(old_parked.len() == was_parked.len()) by {
                        assert(old_parked.map_values(|s: String| s@).len() == was_parked.map_values(
                            |t: LoopxTaskSnapshot| t.task_id@,
                        ).len());
                    }
                    assert(stamped.cursor == add_sat(pre.cursor, added.len()));
                    assert forall|j: int| 0 <= j < added.len() implies {
                        &&& #[trigger] lane_pause_event(added[j], now_parked[j], message@, now_ms)
                        &&& added[j].stream_id == pre.stream_id
                        &&& added[j].cursor == add_sat(pre.cursor, (j + 1) as nat)
                    } by {
                        if j < old_added.len() {
                            assert(added[j] == old_added[j]);
                            assert(now_parked[j] == was_parked[j]);
                            assert(lane_pause_event(old_added[j], was_parked[j], message@, now_ms));
                        } else {
                            assert(added[j] == stamped);
                        }
                    }
                    assert forall|j: int| 0 <= j < parked@.len() implies parked@[j]@ == now_parked[j].task_id@ by {
                        if j < old_parked.len() {
                            assert(old_parked.map_values(|s: String| s@)[j] == was_parked.map_values(
                                |t: LoopxTaskSnapshot| t.task_id@,
                            )[j]);
                        }
                    }
                    assert(parked@.map_values(|s: String| s@) =~= now_parked.map_values(
                        |t: LoopxTaskSnapshot| t.task_id@,
                    ));
                }
            }
            i = i + 1;
            proof {
                assert(parked@.map_values(|s: String| s@) =~= parked_tasks(pre.tasks@.take(i as int), *failed).map_values(
                    |t: LoopxTaskSnapshot| t.task_id@,
                ));
            }
        }
        proof {
            assert(pre.tasks@.take(pre.tasks@.len() as int) =~= pre.tasks@);
        }
        self.environment.core.agent_model.status = LoopxEnvironmentFactStatus::Degraded;
        self.environment.core.agent_model.detail = Some(reason.to_owned());
        self.environment.core.agent_model.checked_at = Some(now_ms);
        self.environment.status = derive_environment_status(
            &self.environment.core,
            &self.environment.optional,
        );
        self.environment.revision = self.environment.revision.saturating_add(1);
        self.revision = self.revision.saturating_add(1);
        let mut event = LoopxEvent::default();
        event.kind = LoopxEventKind::EnvironmentChanged;
        event.level = LoopxEventLevel::Error;
        event.source = LoopxEventSource::System;
        event.message = "Agent model runtime failed; repository queue paused".to_owned();
        event.important = true;
        event.occurred_at = now_ms;
        let ghost before = *self;
        let ghost logged = event;
        self.append_event(event);
        proof {
            let stamped = LoopxEvent { stream_id: before.stream_id, cursor: self.cursor, ..logged };
            lemma_log_with_push(pre.events@, added, stamped);
            assert(model_failure_event(stamped, now_ms));
        }
        parked
    }
}

} // verus!
