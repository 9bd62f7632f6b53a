//! Controller operations on the durable state: task lookup, task events,
//! progress, environment validation, host resume, the repository lane and
//! the suite-level reset.

use std::collections::BTreeMap;
use vstd::prelude::*;

use crate::host::{
    checking_environment_fact, spec_checking_fact, github_auth_fact_status, goal_id_for, is_normal_process_lifecycle_message,
    loopx_node_environment_fact, spec_goal_id, unavailable_environment_fact,
    unavailable_loopx_environment_fact,
};
use crate::lifecycle::next_revision;
use crate::policy::{derive_environment_status, spec_environment_status};
use crate::ports::{
    LoopxAgentProbeResult, LoopxCliError, LoopxCliErrorKind, LoopxCliManifest, LoopxCliProgress,
    LoopxCliSource, LoopxGithubAuthProbe, LoopxHostPortError, LoopxWorkspaceProbeResult,
};
use crate::admission::add_sat;
use crate::store::{
    appended, keep_last, keeps_records, lemma_appended_logs_one, lemma_log_with_push, log_with, logged_one, LoopxPersistedState,
    MAX_SEMANTIC_EVENTS,
};
use crate::text::{push_str, str_eq};
use crate::types::{
    LoopxEnvironmentFact, LoopxEnvironmentFactStatus, LoopxEnvironmentRemediationAction,
    LoopxEnvironmentStatus, LoopxEvent, LoopxEventKind, LoopxEventLevel, LoopxEventSource, LoopxPhase,
    LoopxTaskSnapshot, LoopxTaskState,
};

verus! {

/// The event recorded for a task.
pub open spec fn task_event(
    task: LoopxTaskSnapshot,
    kind: LoopxEventKind,
    message: String,
    important: bool,
    details: BTreeMap<String, String>,
    now_ms: i64,
) -> LoopxEvent {
    LoopxEvent {
        stream_id: task.task_id,
        cursor: 0,
        task_id: Some(task.task_id),
        generation: Some(task.generation),
        revision: Some(task.revision),
        kind,
        level: if kind == LoopxEventKind::ApprovalRequired {
            LoopxEventLevel::Warning
        } else if important {
            LoopxEventLevel::Error
        } else {
            LoopxEventLevel::Info
        },
        source: LoopxEventSource::Controller,
        phase: Some(task.phase),
        message,
        important,
        tool_name: None,
        deadline_at: None,
        details,
        occurred_at: now_ms,
    }
}

/// A normal process lifecycle message, which is not recorded.
pub open spec fn lifecycle_message(m: Seq<char>) -> bool {
    m == "Starting LoopX process"@ || m == "LoopX process exited successfully"@
}

/// The progress reports that are recorded, in order.
pub open spec fn recorded_progress(progress: Seq<LoopxCliProgress>) -> Seq<LoopxCliProgress>
    decreases progress.len(),
{
    if progress.len() == 0 {
        Seq::empty()
    } else {
        let rest = recorded_progress(progress.drop_last());
        if lifecycle_message(progress.last().message@) {
            rest
        } else {
            rest.push(progress.last())
        }
    }
}

/// The sidecar event recorded for a progress report.
pub open spec fn progress_event(e: LoopxEvent, p: LoopxCliProgress) -> bool {
    &&& e.task_id == p.task_id
    &&& e.generation is None
    &&& e.revision is None
    &&& e.kind == LoopxEventKind::Progress
    &&& e.level == LoopxEventLevel::Info
    &&& e.source == LoopxEventSource::Sidecar
    &&& e.phase is None
    &&& e.message@ == p.message@
    &&& !e.important
    &&& e.tool_name is None
    &&& e.deadline_at is None
    &&& e.details@ == Map::<String, String>::empty()
    &&& e.occurred_at == p.occurred_at
}

/// `added` are the events of the reports `reported`, one each and in order,
/// stamped with the stream id and the cursors that follow `cursor`.
pub open spec fn progress_events(
    added: Seq<LoopxEvent>,
    reported: Seq<LoopxCliProgress>,
    stream_id: String,
    cursor: u64,
) -> bool {
    &&& added.len() == reported.len()
    &&& forall|j: int|
        0 <= j < added.len() ==> {
            &&& #[trigger] progress_event(added[j], reported[j])
            &&& added[j].stream_id == stream_id
            &&& added[j].cursor == add_sat(cursor, (j + 1) as nat)
        }
}

impl LoopxPersistedState {
    /// The position of a task by id.
    pub fn task_index(&self, task_id: &str) -> (res: Option<usize>)
        ensures
            match res {
                Some(i) => i < self.tasks@.len() && self.tasks@[i as int].task_id@ == task_id@
                    && forall|j: int| 0 <= j < i ==> (#[trigger] self.tasks@[j]).task_id@ != task_id@,
                None => forall|j: int|
                    0 <= j < self.tasks@.len() ==> (#[trigger] self.tasks@[j]).task_id@ != task_id@,
            },
    {
        let mut i: usize = 0;
        while i < self.tasks.len()
            invariant
                i <= self.tasks@.len(),
                forall|j: int| 0 <= j < i ==> (#[trigger] self.tasks@[j]).task_id@ != task_id@,
            decreases self.tasks@.len() - i,
        {
            if str_eq(self.tasks[i].task_id.as_str(), task_id) {
                return Some(i);
            }
            i = i + 1;
        }
        None
    }

    /// Records an event of a task: an approval request is a warning, an
    /// important event an error, others information.
    pub fn append_task_event(
        &mut self,
        task: &LoopxTaskSnapshot,
        kind: LoopxEventKind,
        message: String,
        important: bool,
        details: BTreeMap<String, String>,
        now_ms: i64,
    )
        ensures
            appended(*old(self), *final(self), task_event(*task, kind, message, important, details, now_ms)),
    {
        let mut event = LoopxEvent::default();
        event.task_id = Some(task.task_id.clone());
        event.generation = Some(task.generation);
        event.revision = Some(task.revision);
        event.kind = kind;
        event.level = if kind == LoopxEventKind::ApprovalRequired {
            LoopxEventLevel::Warning
        } else if important {
            LoopxEventLevel::Error
        } else {
            LoopxEventLevel::Info
        };
        event.source = LoopxEventSource::Controller;
        event.phase = Some(task.phase);
        event.message = message;
        event.important = important;
        event.details = details;
        event.occurred_at = now_ms;
        self.append_event(event);
    }

    /// Completes a task mutation: the task's update time, a new state
    /// revision, and the applied request id when the mutation was an action.
    pub fn finish_task_mutation(&mut self, index: usize, request_id: Option<String>, now_ms: i64)
        requires
            index < old(self).tasks@.len(),
        ensures
            final(self).tasks@ == old(self).tasks@.update(
                index as int,
                LoopxTaskSnapshot { updated_at: now_ms, ..old(self).tasks@[index as int] },
            ),
            final(self).revision == next_revision(old(self).revision),
            match request_id {
                Some(id) => final(self).processed_request_ids@ == (if id@.len() == 0
                    || crate::store::knows_request(old(self).processed_request_ids@, id@) {
                    old(self).processed_request_ids@
                } else {
                    keep_last(
                        old(self).processed_request_ids@.push(id),
                        crate::store::MAX_IDEMPOTENCY_KEYS as nat,
                    )
                }),
                None => final(self).processed_request_ids == old(self).processed_request_ids,
            },
            final(self).events == old(self).events,
            final(self).cursor == old(self).cursor,
            final(self).stream_id == old(self).stream_id,
            final(self).environment == old(self).environment,
            final(self).suspended == old(self).suspended,
            final(self).runtime == old(self).runtime,
            final(self).schema_version == old(self).schema_version,
            old(self).wf() ==> final(self).wf(),
    {
        self.tasks[index].updated_at = now_ms;
        self.revision = self.revision.saturating_add(1);
        if let Some(id) = request_id {
            self.record_processed_request(id);
        }
    }

    /// Records agent output of a running task: its last output time and a
    /// new revision. Returns whether the task was running.
    pub fn record_agent_activity(&mut self, index: usize, now_ms: i64) -> (running: bool)
        requires
            index < old(self).tasks@.len(),
        ensures
            running == (old(self).tasks@[index as int].state == LoopxTaskState::Running),
            !running ==> final(self).tasks@ == old(self).tasks@,
            running ==> final(self).tasks@ == old(self).tasks@.update(
                index as int,
                LoopxTaskSnapshot {
                    last_output_at: Some(now_ms),
                    revision: next_revision(old(self).tasks@[index as int].revision),
                    ..old(self).tasks@[index as int]
                },
            ),
            final(self).revision == old(self).revision,
            final(self).events == old(self).events,
            final(self).cursor == old(self).cursor,
            final(self).environment == old(self).environment,
            final(self).suspended == old(self).suspended,
            keeps_records(*old(self), *final(self)),
    {
        if self.tasks[index].state != LoopxTaskState::Running {
            return false;
        }
        let task = &mut self.tasks[index];
        task.last_output_at = Some(now_ms);
        task.revision = task.revision.saturating_add(1);
        true
    }

    /// Records a projected tool activity of a running task: the task's current
    /// tool and output time, a new task and state revision, and an agent log
    /// event. Returns whether the task was running.
    pub fn apply_tool_activity(
        &mut self,
        index: usize,
        current_tool: Option<String>,
        message: String,
        important: bool,
        tool_name: String,
        details: BTreeMap<String, String>,
        now_ms: i64,
    ) -> (running: bool)
        requires
            index < old(self).tasks@.len(),
        ensures
            running == (old(self).tasks@[index as int].state == LoopxTaskState::Running),
            !running ==> *final(self) == *old(self),
            running ==> {
                let t = old(self).tasks@[index as int];
                let updated = LoopxTaskSnapshot {
                    last_output_at: Some(now_ms),
                    updated_at: now_ms,
                    current_tool,
                    revision: next_revision(t.revision),
                    ..t
                };
                &&& final(self).tasks@ == old(self).tasks@.update(index as int, updated)
                &&& final(self).events@.last() == (LoopxEvent {
                    stream_id: old(self).stream_id,
                    cursor: final(self).cursor,
                    task_id: Some(t.task_id),
                    generation: Some(t.generation),
                    revision: Some(updated.revision),
                    kind: LoopxEventKind::Log,
                    level: if important {
                        LoopxEventLevel::Error
                    } else {
                        LoopxEventLevel::Info
                    },
                    source: LoopxEventSource::Agent,
                    phase: Some(t.phase),
                    message,
                    important,
                    tool_name: Some(tool_name),
                    deadline_at: None,
                    details,
                    occurred_at: now_ms,
                })
                &&& final(self).revision == next_revision(old(self).revision)
                &&& logged_one(*old(self), *final(self))
                &&& final(self).cursor == (if old(self).cursor == u64::MAX {
                    u64::MAX
                } else {
                    (old(self).cursor + 1) as u64
                })
            },
    {
        if self.tasks[index].state != LoopxTaskState::Running {
            return false;
        }
        let ghost before = *self;
        {
            let task = &mut self.tasks[index];
            task.last_output_at = Some(now_ms);
            task.updated_at = now_ms;
            task.current_tool = current_tool;
            task.revision = task.revision.saturating_add(1);
        }
        let task_id = self.tasks[index].task_id.clone();
        let generation = self.tasks[index].generation;
        let revision = self.tasks[index].revision;
        let phase = self.tasks[index].phase;
        self.revision = self.revision.saturating_add(1);
        let mut event = LoopxEvent::default();
        event.task_id = Some(task_id);
        event.generation = Some(generation);
        event.revision = Some(revision);
        event.kind = LoopxEventKind::Log;
        event.level = if important {
            LoopxEventLevel::Error
        } else {
            LoopxEventLevel::Info
        };
        event.source = LoopxEventSource::Agent;
        event.phase = Some(phase);
        event.message = message;
        event.important = important;
        event.tool_name = Some(tool_name);
        event.details = details;
        event.occurred_at = now_ms;
        let ghost mid = *self;
        self.append_event(event);
        proof {
            let pushed = mid.events@.push(LoopxEvent { stream_id: mid.stream_id, cursor: self.cursor, ..event });
            assert(self.events@ == keep_last(pushed, MAX_SEMANTIC_EVENTS as nat));
            assert(self.events@.last() == pushed.last());
            lemma_appended_logs_one(before, mid, *self, event);
        }
        true
    }

    /// Records CLI progress as sidecar progress events, skipping the normal
    /// process lifecycle messages.
    pub fn record_progress(&mut self, progress: Vec<LoopxCliProgress>)
        ensures
            final(self).same_but_log(*old(self)),
            final(self).revision == old(self).revision,
            final(self).cursor == add_sat(old(self).cursor, recorded_progress(progress@).len()),
            exists|added: Seq<LoopxEvent>|
                #[trigger] progress_events(added, recorded_progress(progress@), old(self).stream_id, old(self).cursor)
                    && final(self).events@ == log_with(old(self).events@, added),
            old(self).wf() && old(self).cursor + progress@.len() < u64::MAX ==> final(self).wf(),
    {
        let mut i: usize = 0;
        let ghost start = *self;
        let ghost mut added: Seq<LoopxEvent> = Seq::empty();
        while i < progress.len()
            invariant
                i <= progress@.len(),
                self.same_but_log(start),
                self.revision == start.revision,
                self.cursor == add_sat(start.cursor, recorded_progress(progress@.take(i as int)).len()),
                recorded_progress(progress@.take(i as int)).len() <= i,
                progress_events(added, recorded_progress(progress@.take(i as int)), start.stream_id, start.cursor),
                self.events@ == log_with(start.events@, added),
                start.wf() && start.cursor + progress@.len() < u64::MAX ==> self.wf(),
            decreases progress@.len() - i,
        {
            proof {
                assert(progress@.take(i + 1).drop_last() =~= progress@.take(i as int));
                assert(progress@.take(i + 1).last() == progress@[i as int]);
            }
            let item = &progress[i];
            if !is_normal_process_lifecycle_message(item.message.as_str()) {
                let mut event = LoopxEvent::default();
                event.task_id = crate::text::copy_opt_string(&item.task_id);
                event.kind = LoopxEventKind::Progress;
                event.source = LoopxEventSource::Sidecar;
                event.message = item.message.clone();
                event.occurred_at = item.occurred_at;
                let ghost before = *self;
                let ghost logged = event;
                self.append_event(event);
                proof {
                    let stamped = LoopxEvent { stream_id: before.stream_id, cursor: self.cursor, ..logged };
                    lemma_log_with_push(start.events@, added, stamped);
                    let old_added = added;
                    added = added.push(stamped);
                    let now_rep = recorded_progress(progress@.take(i + 1));
                    let was_rep = recorded_progress(progress@.take(i as int));
                    assert(now_rep == was_rep.push(progress@[i as int]));
                    assert(progress_event(stamped, progress@[i as int]));
                    assert forall|j: int| 0 <= j < added.len() implies {
                        &&& #[trigger] progress_event(added[j], now_rep[j])
                        &&& added[j].stream_id == start.stream_id
                        &&& added[j].cursor == add_sat(start.cursor, (j + 1) as nat)
                    } by {
                        if j < old_added.len() {
                            assert(added[j] == old_added[j]);
                            assert(now_rep[j] == was_rep[j]);
                            assert(progress_event(old_added[j], was_rep[j]));
                        } else {
                            assert(added[j] == stamped);
                        }
                    }
                }
            }
            i = i + 1;
        }
        proof {
            assert(progress@.take(progress@.len() as int) =~= progress@);
        }
    }

    /// A host resume: an implicit suite continue, recorded as a
    /// snapshot-invalidating event with a new state revision.
    pub fn host_resume(&mut self, now_ms: i64)
        ensures
            !final(self).suspended,
            final(self).revision == next_revision(old(self).revision),
            final(self).events@.last().kind == LoopxEventKind::SnapshotInvalidated,
            final(self).events@.last().message@ == "Host resumed; refreshing LoopX projections"@,
            final(self).events@.last().level == LoopxEventLevel::Info,
            final(self).events@.last().source == LoopxEventSource::Controller,
            final(self).events@.last().occurred_at == now_ms,
            logged_one(*old(self), *final(self)),
            final(self).tasks == old(self).tasks,
            final(self).environment == old(self).environment,
            keeps_records(*old(self), *final(self)),
            old(self).wf() && old(self).cursor < u64::MAX ==> final(self).wf(),
    {
        self.revision = self.revision.saturating_add(1);
        self.suspended = false;
        let mut event = LoopxEvent::default();
        event.kind = LoopxEventKind::SnapshotInvalidated;
        event.level = LoopxEventLevel::Info;
        event.source = LoopxEventSource::Controller;
        let mut message = String::new();
        push_str(&mut message, "Host resumed; refreshing LoopX projections");
        event.message = message;
        event.occurred_at = now_ms;
        let ghost mid = *self;
        self.append_event(event);
        proof {
            let pushed = mid.events@.push(LoopxEvent { stream_id: mid.stream_id, cursor: self.cursor, ..event });
            assert(self.events@.last() == pushed.last());
            lemma_appended_logs_one(*old(self), mid, *self, event);
        }
    }

    /// The start of environment validation: every validated fact is being
    /// checked, with a new environment and state revision and an event.
    pub fn mark_environment_checking(&mut self, now_ms: i64)
        ensures
            final(self).environment.revision == next_revision(old(self).environment.revision),
            final(self).environment.status == LoopxEnvironmentStatus::Checking,
            final(self).environment.checked_at == Some(now_ms),
            final(self).environment.core.sidecar == spec_checking_fact(Some(now_ms)),
            final(self).environment.core.node_runtime == spec_checking_fact(Some(now_ms)),
            final(self).environment.core.git_worktree == spec_checking_fact(Some(now_ms)),
            final(self).environment.core.agent_model == spec_checking_fact(Some(now_ms)),
            final(self).environment.optional.github_auth == spec_checking_fact(Some(now_ms)),
            final(self).environment.optional.python_fallback
                == old(self).environment.optional.python_fallback,
            final(self).revision == next_revision(old(self).revision),
            final(self).events@.last().kind == LoopxEventKind::EnvironmentChanged,
            final(self).events@.last().message@ == "LoopX environment validation started"@,
            final(self).events@.last().source == LoopxEventSource::System,
            final(self).events@.last().occurred_at == now_ms,
            logged_one(*old(self), *final(self)),
            final(self).tasks == old(self).tasks,
            final(self).suspended == old(self).suspended,
            keeps_records(*old(self), *final(self)),
            old(self).wf() && old(self).cursor < u64::MAX ==> final(self).wf(),
    {
        let checked_at = Some(now_ms);
        self.environment.revision = self.environment.revision.saturating_add(1);
        self.environment.status = LoopxEnvironmentStatus::Checking;
        self.environment.checked_at = checked_at;
        self.environment.core.sidecar = checking_environment_fact(checked_at);
        self.environment.core.node_runtime = checking_environment_fact(checked_at);
        self.environment.core.git_worktree = checking_environment_fact(checked_at);
        self.environment.core.agent_model = checking_environment_fact(checked_at);
        self.environment.optional.github_auth = checking_environment_fact(checked_at);
        self.revision = self.revision.saturating_add(1);
        let mut event = LoopxEvent::default();
        event.kind = LoopxEventKind::EnvironmentChanged;
        event.source = LoopxEventSource::System;
        let mut message = String::new();
        push_str(&mut message, "LoopX environment validation started");
        event.message = message;
        event.occurred_at = now_ms;
        let ghost mid = *self;
        self.append_event(event);
        proof {
            let pushed = mid.events@.push(LoopxEvent { stream_id: mid.stream_id, cursor: self.cursor, ..event });
            assert(self.events@.last() == pushed.last());
            lemma_appended_logs_one(*old(self), mid, *self, event);
        }
    }
}

/// The GitHub access probe an environment check uses: a probe that failed
/// counts as unauthenticated, with the failure as its detail.
pub fn github_auth_probe_outcome(result: Result<LoopxGithubAuthProbe, LoopxCliError>) -> (res: LoopxGithubAuthProbe)
    ensures
        match result {
            Ok(p) => res == p,
            Err(e) => {
                &&& !res.authenticated
                &&& res.rate_limit_remaining is None
                &&& res.detail matches Some(d) && d@ == "GitHub auth probe failed: "@ + e.spec_text()
            },
        },
{
    match result {
        Ok(probe) => probe,
        Err(error) => {
            let mut detail = literal("GitHub auth probe failed: ");
            push_str(&mut detail, error.to_string().as_str());
            LoopxGithubAuthProbe { authenticated: false, rate_limit_remaining: None, detail: Some(detail) }
        },
    }
}

/// The validated environment facts of one check.
#[derive(Debug, Clone, PartialEq, Eq)]
pub struct LoopxValidatedFacts {
    pub sidecar: LoopxEnvironmentFact,
    pub python_fallback: LoopxEnvironmentFact,
    pub node_runtime: LoopxEnvironmentFact,
    pub git_worktree: LoopxEnvironmentFact,
    pub agent_model: LoopxEnvironmentFact,
    pub github_auth: LoopxEnvironmentFact,
}

/// `Debug` of an environment status.
pub open spec fn environment_status_name(status: LoopxEnvironmentStatus) -> Seq<char> {
    match status {
        LoopxEnvironmentStatus::Checking => "Checking"@,
        LoopxEnvironmentStatus::Ready => "Ready"@,
        LoopxEnvironmentStatus::Degraded => "Degraded"@,
        LoopxEnvironmentStatus::Blocked => "Blocked"@,
        LoopxEnvironmentStatus::Unknown => "Unknown"@,
    }
}

/// An available fact with a version and a detail.
pub open spec fn available_fact(
    fact: LoopxEnvironmentFact,
    version: Option<Seq<char>>,
    detail: Seq<char>,
    checked_at: Option<i64>,
) -> bool {
    &&& fact.status == LoopxEnvironmentFactStatus::Available
    &&& crate::host::opt_string(fact.version) == version
    &&& fact.detail matches Some(d) && d@ == detail
    &&& fact.remediation is None
    &&& fact.remediation_action == LoopxEnvironmentRemediationAction::NoRemediation
    &&& fact.checked_at == checked_at
}

/// An unavailable fact whose detail is an error's text.
pub open spec fn unavailable_fact(fact: LoopxEnvironmentFact, detail: Seq<char>, checked_at: Option<i64>) -> bool {
    &&& fact.status == LoopxEnvironmentFactStatus::Unavailable
    &&& fact.version is None
    &&& fact.detail matches Some(d) && d@ == detail
    &&& fact.remediation is None
    &&& fact.remediation_action == LoopxEnvironmentRemediationAction::NoRemediation
    &&& fact.checked_at == checked_at
}

/// The facts of a check from its probes: the CLI handshake decides the
/// sidecar, Python fallback and Node.js facts (a missing or mismatched LoopX
/// offers installing it), the workspace probe the Git worktree fact, the
/// agent probe the model fact, and the GitHub auth probe its fact.
pub open spec fn facts_hold(
    handshake: Result<LoopxCliManifest, LoopxCliError>,
    workspace: Result<LoopxWorkspaceProbeResult, LoopxHostPortError>,
    agent: Result<LoopxAgentProbeResult, LoopxHostPortError>,
    github: LoopxGithubAuthProbe,
    checked_at: Option<i64>,
    f: LoopxValidatedFacts,
) -> bool {
    &&& match handshake {
        Ok(m) => {
            &&& available_fact(f.sidecar, Some(m.loopx_version@), m.executable.identity@, checked_at)
            &&& (if m.executable.source == LoopxCliSource::PythonFallback {
                available_fact(
                    f.python_fallback,
                    Some("Python 3.11+"@),
                    "Managed LoopX source runs in isolated Python mode"@,
                    checked_at,
                )
            } else {
                &&& f.python_fallback.status == LoopxEnvironmentFactStatus::Unknown
                &&& f.python_fallback.version is None
                &&& f.python_fallback.detail matches Some(d) && d@
                    == "Not required by the selected LoopX runtime"@
                &&& f.python_fallback.remediation is None
                &&& f.python_fallback.checked_at == checked_at
            })
            &&& f.node_runtime.status == (if m.node_runtime.available {
                LoopxEnvironmentFactStatus::Available
            } else {
                LoopxEnvironmentFactStatus::Unavailable
            })
            &&& f.node_runtime.version == m.node_runtime.version
            &&& f.node_runtime.detail == m.node_runtime.detail
            &&& f.node_runtime.checked_at == checked_at
        },
        Err(e) => {
            &&& (if e.kind == LoopxCliErrorKind::NotFound || e.kind
                == LoopxCliErrorKind::VersionMismatch {
                &&& f.sidecar.status == LoopxEnvironmentFactStatus::Unavailable
                &&& f.sidecar.detail matches Some(d) && d@ == crate::ports::loopxclierrorkind_name(
                    e.kind,
                ) + ": "@ + e.message@
                &&& f.sidecar.remediation_action == LoopxEnvironmentRemediationAction::InstallLoopx
                &&& f.sidecar.checked_at == checked_at
            } else {
                unavailable_fact(
                    f.sidecar,
                    crate::ports::loopxclierrorkind_name(e.kind) + ": "@ + e.message@,
                    checked_at,
                )
            })
            &&& f.python_fallback == LoopxEnvironmentFact::spec_unknown()
            &&& f.node_runtime == (LoopxEnvironmentFact {
                status: LoopxEnvironmentFactStatus::Checking,
                checked_at,
                ..LoopxEnvironmentFact::spec_unknown()
            })
        },
    }
    &&& match workspace {
        Ok(p) => available_fact(
            f.git_worktree,
            crate::host::opt_string(p.git_version),
            "Writable workspace root: "@ + p.workspace_root@,
            checked_at,
        ),
        Err(e) => unavailable_fact(
            f.git_worktree,
            crate::ports::loopxhostporterrorkind_name(e.kind) + ": "@ + e.message@,
            checked_at,
        ),
    }
    &&& match agent {
        Ok(p) => available_fact(
            f.agent_model,
            Some(p.model_id@),
            "Configured Agent model is enabled for text chat"@,
            checked_at,
        ),
        Err(e) => unavailable_fact(
            f.agent_model,
            crate::ports::loopxhostporterrorkind_name(e.kind) + ": "@ + e.message@,
            checked_at,
        ),
    }
    &&& f.github_auth.status == (if github.authenticated {
        LoopxEnvironmentFactStatus::Available
    } else if github.rate_limit_remaining is Some {
        LoopxEnvironmentFactStatus::Degraded
    } else {
        LoopxEnvironmentFactStatus::Unavailable
    })
    &&& f.github_auth.detail == github.detail
    &&& f.github_auth.version is None
    &&& f.github_auth.remediation is None
    &&& f.github_auth.checked_at == checked_at
}

fn text_fact(status: LoopxEnvironmentFactStatus, version: Option<String>, detail: String, checked_at: Option<i64>) -> (res:
    LoopxEnvironmentFact)
    ensures
        res == (LoopxEnvironmentFact {
            status,
            version,
            detail: Some(detail),
            checked_at,
            ..LoopxEnvironmentFact::spec_unknown()
        }),
{
    LoopxEnvironmentFact {
        status,
        version,
        detail: Some(detail),
        remediation: None,
        remediation_action: LoopxEnvironmentRemediationAction::NoRemediation,
        checked_at,
    }
}

fn literal(s: &str) -> (res: String)
    ensures
        res@ == s@,
{
    let mut r = String::new();
    push_str(&mut r, s);
    r
}

/// Derives the facts of an environment check from its probes.
pub fn environment_facts(
    handshake: &Result<LoopxCliManifest, LoopxCliError>,
    workspace: &Result<LoopxWorkspaceProbeResult, LoopxHostPortError>,
    agent: &Result<LoopxAgentProbeResult, LoopxHostPortError>,
    github: &LoopxGithubAuthProbe,
    checked_at: Option<i64>,
) -> (res: LoopxValidatedFacts)
    ensures
        facts_hold(*handshake, *workspace, *agent, *github, checked_at, res),
{
    let (sidecar, python_fallback, node_runtime) = match handshake {
        Ok(manifest) => {
            let node_runtime = loopx_node_environment_fact(&manifest.node_runtime, checked_at);
            let python_fallback = if manifest.executable.source == LoopxCliSource::PythonFallback {
                text_fact(
                    LoopxEnvironmentFactStatus::Available,
                    Some(literal("Python 3.11+")),
                    literal("Managed LoopX source runs in isolated Python mode"),
                    checked_at,
                )
            } else {
                text_fact(
                    LoopxEnvironmentFactStatus::Unknown,
                    None,
                    literal("Not required by the selected LoopX runtime"),
                    checked_at,
                )
            };
            let sidecar = text_fact(
                LoopxEnvironmentFactStatus::Available,
                Some(manifest.loopx_version.clone()),
                manifest.executable.identity.clone(),
                checked_at,
            );
            (sidecar, python_fallback, node_runtime)
        },
        Err(error) => {
            let sidecar = if error.kind == LoopxCliErrorKind::NotFound || error.kind
                == LoopxCliErrorKind::VersionMismatch {
                unavailable_loopx_environment_fact(error.to_string(), checked_at)
            } else {
                unavailable_environment_fact(error.to_string(), checked_at)
            };
            (sidecar, LoopxEnvironmentFact::default(), checking_environment_fact(checked_at))
        },
    };
    let git_worktree = match workspace {
        Ok(probe) => {
            let mut detail = literal("Writable workspace root: ");
            push_str(&mut detail, probe.workspace_root.as_str());
            text_fact(
                LoopxEnvironmentFactStatus::Available,
                crate::text::copy_opt_string(&probe.git_version),
                detail,
                checked_at,
            )
        },
        Err(error) => unavailable_environment_fact(error.to_string(), checked_at),
    };
    let agent_model = match agent {
        Ok(probe) => text_fact(
            LoopxEnvironmentFactStatus::Available,
            Some(probe.model_id.clone()),
            literal("Configured Agent model is enabled for text chat"),
            checked_at,
        ),
        Err(error) => unavailable_environment_fact(error.to_string(), checked_at),
    };
    let github_auth = LoopxEnvironmentFact {
        status: github_auth_fact_status(github),
        version: None,
        detail: crate::text::copy_opt_string(&github.detail),
        remediation: None,
        remediation_action: LoopxEnvironmentRemediationAction::NoRemediation,
        checked_at,
    };
    LoopxValidatedFacts { sidecar, python_fallback, node_runtime, git_worktree, agent_model, github_auth }
}

impl LoopxPersistedState {
    /// Commits the facts of an environment check: the facts, the derived
    /// status, a new environment and state revision, and an event (an error
    /// when the environment is blocked).
    pub fn commit_environment(&mut self, facts: LoopxValidatedFacts, now_ms: i64)
        ensures
            final(self).environment.revision == next_revision(old(self).environment.revision),
            final(self).environment.checked_at == Some(now_ms),
            final(self).environment.core.sidecar == facts.sidecar,
            final(self).environment.core.node_runtime == facts.node_runtime,
            final(self).environment.core.git_worktree == facts.git_worktree,
            final(self).environment.core.agent_model == facts.agent_model,
            final(self).environment.optional.python_fallback == facts.python_fallback,
            final(self).environment.optional.github_auth == facts.github_auth,
            final(self).environment.status == spec_environment_status(
                final(self).environment.core,
                final(self).environment.optional,
            ),
            final(self).revision == next_revision(old(self).revision),
            ({
                let e = final(self).events@.last();
                let blocked = final(self).environment.status == LoopxEnvironmentStatus::Blocked;
                &&& e.kind == LoopxEventKind::EnvironmentChanged
                &&& e.level == (if blocked {
                    LoopxEventLevel::Error
                } else {
                    LoopxEventLevel::Info
                })
                &&& e.source == LoopxEventSource::System
                &&& e.message@ == "LoopX environment validation finished with status "@
                    + environment_status_name(final(self).environment.status)
                &&& e.important == blocked
                &&& e.occurred_at == now_ms
            }),
            logged_one(*old(self), *final(self)),
            final(self).tasks == old(self).tasks,
            final(self).suspended == old(self).suspended,
            keeps_records(*old(self), *final(self)),
            old(self).wf() && old(self).cursor < u64::MAX ==> final(self).wf(),
    {
        self.environment.revision = self.environment.revision.saturating_add(1);
        self.environment.checked_at = Some(now_ms);
        self.environment.core.sidecar = facts.sidecar;
        self.environment.core.node_runtime = facts.node_runtime;
        self.environment.core.git_worktree = facts.git_worktree;
        self.environment.core.agent_model = facts.agent_model;
        self.environment.optional.python_fallback = facts.python_fallback;
        self.environment.optional.github_auth = facts.github_auth;
        let status = derive_environment_status(&self.environment.core, &self.environment.optional);
        self.environment.status = status;
        self.revision = self.revision.saturating_add(1);
        let blocked = status == LoopxEnvironmentStatus::Blocked;
        let mut message = literal("LoopX environment validation finished with status ");
        let name = match status {
            LoopxEnvironmentStatus::Checking => "Checking",
            LoopxEnvironmentStatus::Ready => "Ready",
            LoopxEnvironmentStatus::Degraded => "Degraded",
            LoopxEnvironmentStatus::Blocked => "Blocked",
            LoopxEnvironmentStatus::Unknown => "Unknown",
        };
        push_str(&mut message, name);
        let mut event = LoopxEvent::default();
        event.kind = LoopxEventKind::EnvironmentChanged;
        event.level = if blocked {
            LoopxEventLevel::Error
        } else {
            LoopxEventLevel::Info
        };
        event.source = LoopxEventSource::System;
        event.message = message;
        event.important = blocked;
        event.occurred_at = now_ms;
        let ghost mid = *self;
        self.append_event(event);
        proof {
            let pushed = mid.events@.push(LoopxEvent { stream_id: mid.stream_id, cursor: self.cursor, ..event });
            assert(self.events@.last() == pushed.last());
            lemma_appended_logs_one(*old(self), mid, *self, event);
        }
    }
}

} // verus!
