//! Stable LoopX MiniApp wire types.

use std::collections::BTreeMap;
use vstd::prelude::*;

use crate::text::{decimal, push_decimal, push_str};

verus! {

pub const LOOPX_BUILTIN_APP_ID: &'static str = "builtin-bitfun-loopx";

pub const LOOPX_PINNED_VERSION: &'static str = "0.5.1";

pub const LOOPX_CLI_SCHEMA_VERSION: u32 = 1;

pub type LoopxEventCursor = u64;

#[derive(Debug, Clone, Default, PartialEq, Eq, PartialOrd, Ord, Hash)]
pub struct LoopxRepositoryKey {
    pub host: String,
    pub owner: String,
    pub repository: String,
}

/// Mathematical value of a repository key.
pub struct RepositoryKeyView {
    pub host: Seq<char>,
    pub owner: Seq<char>,
    pub repository: Seq<char>,
}

impl RepositoryKeyView {
    /// `host/owner/repository`.
    pub open spec fn canonical_id(self) -> Seq<char> {
        self.host + "/"@ + self.owner + "/"@ + self.repository
    }

    /// `owner/repository`.
    pub open spec fn label(self) -> Seq<char> {
        self.owner + "/"@ + self.repository
    }
}

impl View for LoopxRepositoryKey {
    type V = RepositoryKeyView;

    open spec fn view(&self) -> RepositoryKeyView {
        RepositoryKeyView { host: self.host@, owner: self.owner@, repository: self.repository@ }
    }
}

impl LoopxRepositoryKey {
    pub fn canonical_id(&self) -> (res: String)
        ensures
            res@ == self@.canonical_id(),
    {
        let mut res = self.host.clone();
        push_str(&mut res, "/");
        push_str(&mut res, self.owner.as_str());
        push_str(&mut res, "/");
        push_str(&mut res, self.repository.as_str());
        res
    }

    pub fn label(&self) -> (res: String)
        ensures
            res@ == self@.label(),
    {
        let mut res = self.owner.clone();
        push_str(&mut res, "/");
        push_str(&mut res, self.repository.as_str());
        res
    }

    /// A field-by-field copy.
    pub fn copy(&self) -> (res: Self)
        ensures
            res == *self,
    {
        LoopxRepositoryKey {
            host: self.host.clone(),
            owner: self.owner.clone(),
            repository: self.repository.clone(),
        }
    }

    /// Key equality, decided on the field texts.
    pub fn same_as(&self, other: &Self) -> (res: bool)
        ensures
            res == (self@ == other@),
    {
        self.host == other.host && self.owner == other.owner && self.repository == other.repository
    }
}

#[derive(Debug, Clone, Copy, Default, PartialEq, Eq, PartialOrd, Ord, Hash, Structural)]
pub enum LoopxItemKind {
    #[default]
    Issue,
    PullRequest,
}

#[derive(Debug, Clone, Default, PartialEq, Eq, PartialOrd, Ord, Hash)]
pub struct LoopxIssueKey {
    pub repository: LoopxRepositoryKey,
    pub kind: LoopxItemKind,
    pub number: u64,
}

/// Mathematical value of an issue or pull-request key.
pub struct IssueKeyView {
    pub repository: RepositoryKeyView,
    pub kind: LoopxItemKind,
    pub number: u64,
}

/// The collection segment of an item's canonical path.
pub open spec fn collection_segment(kind: LoopxItemKind) -> Seq<char> {
    match kind {
        LoopxItemKind::Issue => "issues"@,
        LoopxItemKind::PullRequest => "pull"@,
    }
}

impl IssueKeyView {
    /// `host/owner/repository/{issues|pull}/number`.
    pub open spec fn canonical_id(self) -> Seq<char> {
        self.repository.canonical_id() + "/"@ + collection_segment(self.kind) + "/"@ + decimal(
            self.number as nat,
        )
    }

    /// `https://` followed by the canonical id.
    pub open spec fn canonical_url(self) -> Seq<char> {
        "https://"@ + self.canonical_id()
    }
}

impl View for LoopxIssueKey {
    type V = IssueKeyView;

    open spec fn view(&self) -> IssueKeyView {
        IssueKeyView { repository: self.repository@, kind: self.kind, number: self.number }
    }
}

impl LoopxIssueKey {
    pub fn canonical_id(&self) -> (res: String)
        ensures
            res@ == self@.canonical_id(),
    {
        let mut res = self.repository.canonical_id();
        push_str(&mut res, "/");
        match self.kind {
            LoopxItemKind::Issue => push_str(&mut res, "issues"),
            LoopxItemKind::PullRequest => push_str(&mut res, "pull"),
        }
        push_str(&mut res, "/");
        push_decimal(&mut res, self.number);
        res
    }

    pub fn canonical_url(&self) -> (res: String)
        ensures
            res@ == self@.canonical_url(),
    {
        let mut res = String::new();
        push_str(&mut res, "https://");
        let id = self.canonical_id();
        push_str(&mut res, id.as_str());
        res
    }

    /// A field-by-field copy.
    pub fn copy(&self) -> (res: Self)
        ensures
            res == *self,
    {
        LoopxIssueKey { repository: self.repository.copy(), kind: self.kind, number: self.number }
    }

    /// Key equality, decided on the field values.
    pub fn same_as(&self, other: &Self) -> (res: bool)
        ensures
            res == (self@ == other@),
    {
        self.repository.same_as(&other.repository) && self.kind == other.kind && self.number
            == other.number
    }
}

#[derive(Debug, Clone, PartialEq, Eq)]
pub enum LoopxIntakeTarget {
    Repository { repository: LoopxRepositoryKey },
    Item { item: LoopxIssueKey },
}

impl Default for LoopxIntakeTarget {
    fn default() -> (res: Self)
        ensures
            res is Repository,
            res->repository.host@ == Seq::<char>::empty(),
            res->repository.owner@ == Seq::<char>::empty(),
            res->repository.repository@ == Seq::<char>::empty(),
    {
        LoopxIntakeTarget::Repository {
            repository: LoopxRepositoryKey {
                host: String::new(),
                owner: String::new(),
                repository: String::new(),
            },
        }
    }
}

/// Mathematical value of an intake target.
pub enum IntakeTargetView {
    Repository(RepositoryKeyView),
    Item(IssueKeyView),
}

impl IntakeTargetView {
    pub open spec fn repository(self) -> RepositoryKeyView {
        match self {
            IntakeTargetView::Repository(r) => r,
            IntakeTargetView::Item(i) => i.repository,
        }
    }
}

impl View for LoopxIntakeTarget {
    type V = IntakeTargetView;

    open spec fn view(&self) -> IntakeTargetView {
        match self {
            LoopxIntakeTarget::Repository { repository } => IntakeTargetView::Repository(
                repository@,
            ),
            LoopxIntakeTarget::Item { item } => IntakeTargetView::Item(item@),
        }
    }
}

impl LoopxIntakeTarget {
    pub fn repository(&self) -> (res: &LoopxRepositoryKey)
        ensures
            res@ == self@.repository(),
    {
        match self {
            LoopxIntakeTarget::Repository { repository } => repository,
            LoopxIntakeTarget::Item { item } => &item.repository,
        }
    }

    /// A variant-by-variant copy.
    pub fn copy(&self) -> (res: Self)
        ensures
            res == *self,
    {
        match self {
            LoopxIntakeTarget::Repository { repository } => LoopxIntakeTarget::Repository {
                repository: repository.copy(),
            },
            LoopxIntakeTarget::Item { item } => LoopxIntakeTarget::Item { item: item.copy() },
        }
    }
}

#[derive(Debug, Clone, Copy, Default, PartialEq, Eq, Structural)]
pub enum LoopxRemoteItemState {
    Open,
    Closed,
    Merged,
    #[default]
    Unknown,
}

impl LoopxRemoteItemState {
    pub fn is_resolved(self) -> (res: bool)
        ensures
            res == (self == LoopxRemoteItemState::Closed || self == LoopxRemoteItemState::Merged),
    {
        match self {
            LoopxRemoteItemState::Closed | LoopxRemoteItemState::Merged => true,
            _ => false,
        }
    }
}

#[derive(Debug, Clone, Default, PartialEq, Eq)]
pub struct LoopxIntakeCandidate {
    pub key: LoopxIssueKey,
    pub url: String,
    pub title: String,
    /// Bounded plain-text excerpt of the issue/PR body, kept for task
    /// surfaces. The projection never retains the full remote body.
    pub description: String,
    pub state: LoopxRemoteItemState,
    pub state_reason: Option<String>,
    /// Bounded label names from the remote item. Empty for legacy snapshots.
    pub labels: Vec<String>,
    pub from_repository: bool,
    pub has_images: bool,
    /// Repository/list intake must not silently select every candidate.
    pub default_selected: bool,
}

#[derive(Debug, Clone, Copy, Default, PartialEq, Eq, Structural)]
pub enum LoopxWorkspaceDisposition {
    ExistingWorktree,
    NewWorktree,
    CloneRequired,
    #[default]
    Unavailable,
}

#[derive(Debug, Clone, Default, PartialEq, Eq)]
pub struct LoopxWorkspacePreview {
    pub disposition: LoopxWorkspaceDisposition,
    pub path: Option<String>,
    pub repository_verified: bool,
    pub detail: Option<String>,
}

#[derive(Debug, Clone, Default, PartialEq, Eq)]
pub struct LoopxModelCapability {
    pub model_id: String,
    pub available: bool,
    pub supports_images: bool,
    pub detail: Option<String>,
}

#[derive(Debug, Clone, Copy, PartialEq, Eq, PartialOrd, Ord, Hash, Structural)]
pub enum LoopxPermissionScope {
    WorkspaceRead,
    WorkspaceWrite,
    GitLocal,
    GithubRead,
    AgentExecution,
    Publish,
    PublicComment,
    PullRequest,
    Merge,
    ProductionAction,
}

#[derive(Debug, Clone, Default, PartialEq, Eq)]
pub struct LoopxIntakePreview {
    pub fingerprint: String,
    pub target: LoopxIntakeTarget,
    pub repository: LoopxRepositoryKey,
    pub workspace: LoopxWorkspacePreview,
    pub candidates: Vec<LoopxIntakeCandidate>,
    pub truncated: bool,
    pub model: LoopxModelCapability,
    pub permission_scopes: Vec<LoopxPermissionScope>,
    pub resolved_at: i64,
    pub expires_at: Option<i64>,
}

#[derive(Debug, Clone, Copy, Default, PartialEq, Eq, Structural)]
pub enum LoopxEnvironmentFactStatus {
    Checking,
    Available,
    Degraded,
    Unavailable,
    #[default]
    Unknown,
}

#[derive(Debug, Clone, Copy, Default, PartialEq, Eq, Structural)]
pub enum LoopxEnvironmentRemediationAction {
    InstallLoopx,
    #[default]
    NoRemediation,
}

#[derive(Debug, Clone, PartialEq, Eq)]
pub struct LoopxEnvironmentFact {
    pub status: LoopxEnvironmentFactStatus,
    pub version: Option<String>,
    pub detail: Option<String>,
    pub remediation: Option<String>,
    pub remediation_action: LoopxEnvironmentRemediationAction,
    pub checked_at: Option<i64>,
}

impl Default for LoopxEnvironmentFact {
    fn default() -> (res: Self)
        ensures
            res == (LoopxEnvironmentFact {
                status: LoopxEnvironmentFactStatus::Unknown,
                version: None,
                detail: None,
                remediation: None,
                remediation_action: LoopxEnvironmentRemediationAction::NoRemediation,
                checked_at: None,
            }),
    {
        LoopxEnvironmentFact {
            status: LoopxEnvironmentFactStatus::Unknown,
            version: None,
            detail: None,
            remediation: None,
            remediation_action: LoopxEnvironmentRemediationAction::NoRemediation,
            checked_at: None,
        }
    }
}

impl LoopxEnvironmentFact {
    /// A field-by-field copy.
    pub fn copy(&self) -> (res: Self)
        ensures
            res == *self,
    {
        LoopxEnvironmentFact {
            status: self.status,
            version: crate::text::copy_opt_string(&self.version),
            detail: crate::text::copy_opt_string(&self.detail),
            remediation: crate::text::copy_opt_string(&self.remediation),
            remediation_action: self.remediation_action,
            checked_at: self.checked_at,
        }
    }
}

#[derive(Debug, Clone, PartialEq, Eq)]
pub struct LoopxCoreEnvironmentFacts {
    pub sidecar: LoopxEnvironmentFact,
    pub git_worktree: LoopxEnvironmentFact,
    pub agent_model: LoopxEnvironmentFact,
    /// Node.js runtime required by the pinned LoopX control plane.
    pub node_runtime: LoopxEnvironmentFact,
}

impl Default for LoopxCoreEnvironmentFacts {
    fn default() -> (res: Self)
        ensures
            res.sidecar == LoopxEnvironmentFact::spec_unknown(),
            res.git_worktree == LoopxEnvironmentFact::spec_unknown(),
            res.agent_model == LoopxEnvironmentFact::spec_unknown(),
            res.node_runtime == LoopxEnvironmentFact::spec_unknown(),
    {
        LoopxCoreEnvironmentFacts {
            sidecar: LoopxEnvironmentFact::default(),
            git_worktree: LoopxEnvironmentFact::default(),
            agent_model: LoopxEnvironmentFact::default(),
            node_runtime: LoopxEnvironmentFact::default(),
        }
    }
}

impl LoopxEnvironmentFact {
    /// The default fact: status `Unknown` and nothing else recorded.
    pub open spec fn spec_unknown() -> Self {
        LoopxEnvironmentFact {
            status: LoopxEnvironmentFactStatus::Unknown,
            version: None,
            detail: None,
            remediation: None,
            remediation_action: LoopxEnvironmentRemediationAction::NoRemediation,
            checked_at: None,
        }
    }
}

#[derive(Debug, Clone, PartialEq, Eq)]
pub struct LoopxOptionalEnvironmentFacts {
    pub python_fallback: LoopxEnvironmentFact,
    pub github_auth: LoopxEnvironmentFact,
}

impl Default for LoopxOptionalEnvironmentFacts {
    fn default() -> (res: Self)
        ensures
            res.python_fallback == LoopxEnvironmentFact::spec_unknown(),
            res.github_auth == LoopxEnvironmentFact::spec_unknown(),
    {
        LoopxOptionalEnvironmentFacts {
            python_fallback: LoopxEnvironmentFact::default(),
            github_auth: LoopxEnvironmentFact::default(),
        }
    }
}

#[derive(Debug, Clone, Copy, Default, PartialEq, Eq, Structural)]
pub enum LoopxEnvironmentStatus {
    Checking,
    Ready,
    Degraded,
    Blocked,
    #[default]
    Unknown,
}

#[derive(Debug, Clone, PartialEq, Eq)]
pub struct LoopxEnvironmentSnapshot {
    pub revision: u64,
    pub status: LoopxEnvironmentStatus,
    pub core: LoopxCoreEnvironmentFacts,
    pub optional: LoopxOptionalEnvironmentFacts,
    pub checked_at: Option<i64>,
}

impl Default for LoopxEnvironmentSnapshot {
    fn default() -> (res: Self)
        ensures
            res.revision == 0,
            res.status == LoopxEnvironmentStatus::Unknown,
            res.checked_at is None,
            res.core.sidecar == LoopxEnvironmentFact::spec_unknown(),
            res.core.git_worktree == LoopxEnvironmentFact::spec_unknown(),
            res.core.agent_model == LoopxEnvironmentFact::spec_unknown(),
            res.core.node_runtime == LoopxEnvironmentFact::spec_unknown(),
            res.optional.python_fallback == LoopxEnvironmentFact::spec_unknown(),
            res.optional.github_auth == LoopxEnvironmentFact::spec_unknown(),
    {
        LoopxEnvironmentSnapshot {
            revision: 0,
            status: LoopxEnvironmentStatus::Unknown,
            core: LoopxCoreEnvironmentFacts::default(),
            optional: LoopxOptionalEnvironmentFacts::default(),
            checked_at: None,
        }
    }
}

impl LoopxEnvironmentSnapshot {
    /// A field-by-field copy.
    pub fn copy(&self) -> (res: Self)
        ensures
            res == *self,
    {
        LoopxEnvironmentSnapshot {
            revision: self.revision,
            status: self.status,
            core: LoopxCoreEnvironmentFacts {
                sidecar: self.core.sidecar.copy(),
                git_worktree: self.core.git_worktree.copy(),
                agent_model: self.core.agent_model.copy(),
                node_runtime: self.core.node_runtime.copy(),
            },
            optional: LoopxOptionalEnvironmentFacts {
                python_fallback: self.optional.python_fallback.copy(),
                github_auth: self.optional.github_auth.copy(),
            },
            checked_at: self.checked_at,
        }
    }
}

#[derive(Debug, Clone, Copy, Default, PartialEq, Eq, Structural)]
pub enum LoopxTaskState {
    Preparing,
    Queued,
    Running,
    WaitingForUser,
    RetryWait,
    Cancelling,
    Stopped,
    Aborted,
    Completed,
    Failed,
    Archived,
    #[default]
    RecoveryRequired,
}

/// Authoritative Goal lifecycle projected from the LoopX CLI. This is kept
/// separate from [`LoopxTaskState`], which describes the local host job
/// (workspace, Agent session, cancellation, and recovery lifecycle).
#[derive(Debug, Clone, Copy, Default, PartialEq, Eq, Structural)]
pub enum LoopxCliGoalState {
    #[default]
    Unknown,
    Active,
    WaitingForUser,
    Completed,
    Failed,
    Archived,
}

impl LoopxTaskState {
    /// Terminal host-job states: stopped, aborted, completed, failed, archived.
    pub open spec fn spec_is_terminal(self) -> bool {
        self == LoopxTaskState::Stopped || self == LoopxTaskState::Aborted || self
            == LoopxTaskState::Completed || self == LoopxTaskState::Failed || self
            == LoopxTaskState::Archived
    }

    /// States in which an Agent turn was executing.
    pub open spec fn spec_was_executing_at_shutdown(self) -> bool {
        self == LoopxTaskState::Running || self == LoopxTaskState::Cancelling
    }

    #[verifier::when_used_as_spec(spec_is_terminal)]
    pub fn is_terminal(self) -> (res: bool)
        ensures
            res == self.spec_is_terminal(),
    {
        match self {
            LoopxTaskState::Stopped | LoopxTaskState::Aborted | LoopxTaskState::Completed
            | LoopxTaskState::Failed | LoopxTaskState::Archived => true,
            _ => false,
        }
    }

    #[verifier::when_used_as_spec(spec_was_executing_at_shutdown)]
    pub fn was_executing_at_shutdown(self) -> (res: bool)
        ensures
            res == self.spec_was_executing_at_shutdown(),
    {
        match self {
            LoopxTaskState::Running | LoopxTaskState::Cancelling => true,
            _ => false,
        }
    }
}

#[derive(Debug, Clone, Copy, Default, PartialEq, Eq, Structural)]
pub enum LoopxPhase {
    ValidatingEnvironment,
    ResolvingIntake,
    PreparingWorkspace,
    CreatingGoal,
    Queued,
    InspectingGoal,
    BuildingTurn,
    StartingAgent,
    AgentRunning,
    ValidatingProgress,
    SettlingTurn,
    WaitingForApproval,
    RetryBackoff,
    Cancelling,
    Recovering,
    Finished,
    #[default]
    Unknown,
}

#[derive(Debug, Clone, Default, PartialEq, Eq)]
pub struct LoopxTaskIdentity {
    pub item: LoopxIssueKey,
    pub attempt: u32,
    /// Issue / PR title captured at task creation. Empty for legacy records.
    pub title: String,
    /// Bounded plain-text excerpt of the description captured at task
    /// creation. Empty for legacy records.
    pub description: String,
    /// Remote item state observed at task creation; `Unknown` for legacy records.
    pub state: LoopxRemoteItemState,
    /// Bounded label names observed at task creation.
    pub labels: Vec<String>,
}

impl LoopxTaskIdentity {
    /// Equal fields, the labels compared by their view.
    pub open spec fn same_as(self, other: Self) -> bool {
        &&& self.item == other.item
        &&& self.attempt == other.attempt
        &&& self.title == other.title
        &&& self.description == other.description
        &&& self.state == other.state
        &&& self.labels@ == other.labels@
    }

    /// A field-by-field copy.
    pub fn copy(&self) -> (res: Self)
        ensures
            res.item == self.item,
            res.attempt == self.attempt,
            res.title == self.title,
            res.description == self.description,
            res.state == self.state,
            res.labels@ == self.labels@,
    {
        LoopxTaskIdentity {
            item: self.item.copy(),
            attempt: self.attempt,
            title: self.title.clone(),
            description: self.description.clone(),
            state: self.state,
            labels: crate::text::copy_strings(&self.labels),
        }
    }
}

#[derive(Debug, Clone, Default, PartialEq, Eq)]
pub struct LoopxSettlementSummary {
    pub turn_id: Option<String>,
    pub receipt_id: Option<String>,
    pub durable_revision: Option<String>,
    pub settled_at: Option<i64>,
}

/// Bounded read-only projection of the LoopX frontier todo selected by the
/// current turn plan. Display only: the LoopX registry stays the authority.
#[derive(Debug, Clone, Default, PartialEq, Eq)]
pub struct LoopxCurrentTodo {
    pub todo_id: String,
    pub task_class: String,
    pub action_kind: String,
    pub target_key: String,
    pub claimed_by: String,
    /// Raw LoopX due projection for monitor todos (typically an ISO timestamp).
    pub next_due_at: Option<String>,
    /// Bounded recommended-action text from the same LoopX envelope.
    pub recommended_action: String,
}

#[derive(Debug, Clone, Default, PartialEq, Eq)]
pub struct LoopxTaskSnapshot {
    pub task_id: String,
    pub batch_id: Option<String>,
    pub identity: LoopxTaskIdentity,
    pub generation: u64,
    pub revision: u64,
    pub goal_id: Option<String>,
    /// Read-only Goal lifecycle from LoopX; absent until reconciled.
    pub goal_state: Option<LoopxCliGoalState>,
    pub agent_id: Option<String>,
    /// Host-job lifecycle; this is not the Goal authority.
    pub state: LoopxTaskState,
    pub phase: LoopxPhase,
    /// Durable answerable gate projection.
    pub pending_gate_id: Option<String>,
    pub pending_gate_message: Option<String>,
    pub pending_gate_action_kind: Option<String>,
    pub workspace_path: Option<String>,
    pub model_id: Option<String>,
    pub granted_scopes: Vec<LoopxPermissionScope>,
    pub current_turn_id: Option<String>,
    pub current_tool: Option<String>,
    /// Last known LoopX frontier todo projection.
    pub current_todo: Option<LoopxCurrentTodo>,
    pub last_output_at: Option<i64>,
    /// Bounded final response from the latest Agent turn.
    pub last_agent_summary: Option<String>,
    pub last_agent_summary_at: Option<i64>,
    /// The validated `loopx_summary_v1` JSON object extracted from the latest
    /// agent summary, as JSON text.
    pub structured_summary: Option<String>,
    /// Why the task currently needs recovery.
    pub recovery_reason: Option<String>,
    pub deadline_at: Option<i64>,
    pub retry_at: Option<i64>,
    pub error: Option<String>,
    pub settlement: LoopxSettlementSummary,
    pub created_at: i64,
    pub updated_at: i64,
}

impl LoopxSettlementSummary {
    /// A field-by-field copy.
    pub fn copy(&self) -> (res: Self)
        ensures
            res == *self,
    {
        LoopxSettlementSummary {
            turn_id: crate::text::copy_opt_string(&self.turn_id),
            receipt_id: crate::text::copy_opt_string(&self.receipt_id),
            durable_revision: crate::text::copy_opt_string(&self.durable_revision),
            settled_at: self.settled_at,
        }
    }
}

impl LoopxCurrentTodo {
    /// A field-by-field copy.
    pub fn copy(&self) -> (res: Self)
        ensures
            res == *self,
    {
        LoopxCurrentTodo {
            todo_id: self.todo_id.clone(),
            task_class: self.task_class.clone(),
            action_kind: self.action_kind.clone(),
            target_key: self.target_key.clone(),
            claimed_by: self.claimed_by.clone(),
            next_due_at: crate::text::copy_opt_string(&self.next_due_at),
            recommended_action: self.recommended_action.clone(),
        }
    }
}

/// Copies a list of permission scopes.
pub fn copy_scopes(v: &Vec<LoopxPermissionScope>) -> (res: Vec<LoopxPermissionScope>)
    ensures
        res@ == v@,
{
    let mut res: Vec<LoopxPermissionScope> = Vec::new();
    let mut i: usize = 0;
    while i < v.len()
        invariant
            i <= v@.len(),
            res@ == v@.take(i as int),
        decreases v@.len() - i,
    {
        res.push(v[i]);
        i = i + 1;
        assert(res@ =~= v@.take(i as int));
    }
    assert(v@.take(v@.len() as int) =~= v@);
    res
}

impl LoopxTaskSnapshot {
    /// Equal fields; the lists inside are compared by their views.
    pub open spec fn same_as(self, other: Self) -> bool {
        &&& self.task_id == other.task_id
        &&& self.batch_id == other.batch_id
        &&& self.identity.same_as(other.identity)
        &&& self.generation == other.generation
        &&& self.revision == other.revision
        &&& self.goal_id == other.goal_id
        &&& self.goal_state == other.goal_state
        &&& self.agent_id == other.agent_id
        &&& self.state == other.state
        &&& self.phase == other.phase
        &&& self.pending_gate_id == other.pending_gate_id
        &&& self.pending_gate_message == other.pending_gate_message
        &&& self.pending_gate_action_kind == other.pending_gate_action_kind
        &&& self.workspace_path == other.workspace_path
        &&& self.model_id == other.model_id
        &&& self.granted_scopes@ == other.granted_scopes@
        &&& self.current_turn_id == other.current_turn_id
        &&& self.current_tool == other.current_tool
        &&& self.current_todo == other.current_todo
        &&& self.last_output_at == other.last_output_at
        &&& self.last_agent_summary == other.last_agent_summary
        &&& self.last_agent_summary_at == other.last_agent_summary_at
        &&& self.structured_summary == other.structured_summary
        &&& self.recovery_reason == other.recovery_reason
        &&& self.deadline_at == other.deadline_at
        &&& self.retry_at == other.retry_at
        &&& self.error == other.error
        &&& self.settlement == other.settlement
        &&& self.created_at == other.created_at
        &&& self.updated_at == other.updated_at
    }

    /// A field-by-field copy.
    pub fn copy(&self) -> (res: Self)
        ensures
            res.same_as(*self),
    {
        LoopxTaskSnapshot {
            task_id: self.task_id.clone(),
            batch_id: crate::text::copy_opt_string(&self.batch_id),
            identity: self.identity.copy(),
            generation: self.generation,
            revision: self.revision,
            goal_id: crate::text::copy_opt_string(&self.goal_id),
            goal_state: self.goal_state,
            agent_id: crate::text::copy_opt_string(&self.agent_id),
            state: self.state,
            phase: self.phase,
            pending_gate_id: crate::text::copy_opt_string(&self.pending_gate_id),
            pending_gate_message: crate::text::copy_opt_string(&self.pending_gate_message),
            pending_gate_action_kind: crate::text::copy_opt_string(&self.pending_gate_action_kind),
            workspace_path: crate::text::copy_opt_string(&self.workspace_path),
            model_id: crate::text::copy_opt_string(&self.model_id),
            granted_scopes: copy_scopes(&self.granted_scopes),
            current_turn_id: crate::text::copy_opt_string(&self.current_turn_id),
            current_tool: crate::text::copy_opt_string(&self.current_tool),
            current_todo: match &self.current_todo {
                Some(t) => Some(t.copy()),
                None => None,
            },
            last_output_at: self.last_output_at,
            last_agent_summary: crate::text::copy_opt_string(&self.last_agent_summary),
            last_agent_summary_at: self.last_agent_summary_at,
            structured_summary: crate::text::copy_opt_string(&self.structured_summary),
            recovery_reason: crate::text::copy_opt_string(&self.recovery_reason),
            deadline_at: self.deadline_at,
            retry_at: self.retry_at,
            error: crate::text::copy_opt_string(&self.error),
            settlement: self.settlement.copy(),
            created_at: self.created_at,
            updated_at: self.updated_at,
        }
    }
}

#[derive(Debug, Clone, Copy, Default, PartialEq, Eq, Structural)]
pub enum LoopxExecutionDomain {
    LocalDesktop,
    RemoteWorkspace,
    PeerDevice,
    RemoteControl,
    DetachedDispatch,
    #[default]
    Unknown,
}

#[derive(Debug, Clone, Copy, Default, PartialEq, Eq, Structural)]
pub enum LoopxExecutionSupport {
    Supported,
    #[default]
    UnsupportedExecutionDomain,
}

/// Schema version a snapshot carries when none is given.
pub fn default_contract_schema_version() -> (res: u32)
    ensures
        res == LOOPX_CLI_SCHEMA_VERSION,
{
    LOOPX_CLI_SCHEMA_VERSION
}

#[derive(Debug, Clone, PartialEq, Eq)]
pub struct LoopxSnapshot {
    pub schema_version: u32,
    pub stream_id: String,
    pub cursor: LoopxEventCursor,
    pub revision: u64,
    pub execution_domain: LoopxExecutionDomain,
    pub execution_support: LoopxExecutionSupport,
    pub unsupported_reason: Option<String>,
    pub environment: LoopxEnvironmentSnapshot,
    pub tasks: Vec<LoopxTaskSnapshot>,
    pub generated_at: i64,
    /// True while the whole LoopX run is stopped.
    pub suspended: bool,
}

impl Default for LoopxSnapshot {
    fn default() -> (res: Self)
        ensures
            res.schema_version == LOOPX_CLI_SCHEMA_VERSION,
            res.stream_id@ == Seq::<char>::empty(),
            res.cursor == 0,
            res.revision == 0,
            res.execution_domain == LoopxExecutionDomain::Unknown,
            res.execution_support == LoopxExecutionSupport::UnsupportedExecutionDomain,
            res.unsupported_reason is None,
            res.tasks@.len() == 0,
            res.generated_at == 0,
            !res.suspended,
    {
        LoopxSnapshot {
            schema_version: default_contract_schema_version(),
            stream_id: String::new(),
            cursor: 0,
            revision: 0,
            execution_domain: LoopxExecutionDomain::Unknown,
            execution_support: LoopxExecutionSupport::UnsupportedExecutionDomain,
            unsupported_reason: None,
            environment: LoopxEnvironmentSnapshot::default(),
            tasks: Vec::new(),
            generated_at: 0,
            suspended: false,
        }
    }
}

#[derive(Debug, Clone, Copy, Default, PartialEq, Eq, Structural)]
pub enum LoopxEventLevel {
    Trace,
    Debug,
    Warning,
    Error,
    #[default]
    Info,
}

#[derive(Debug, Clone, Copy, Default, PartialEq, Eq, Structural)]
pub enum LoopxEventSource {
    #[default]
    Controller,
    Sidecar,
    Agent,
    Git,
    Github,
    System,
}

#[derive(Debug, Clone, Copy, Default, PartialEq, Eq, Structural)]
pub enum LoopxEventKind {
    #[default]
    Progress,
    TaskCreated,
    StateChanged,
    PhaseChanged,
    Log,
    ApprovalRequired,
    SettlementRecorded,
    EnvironmentChanged,
    OperationCancelled,
    SnapshotInvalidated,
}

#[derive(Debug, Clone, PartialEq, Eq)]
pub struct LoopxEvent {
    pub stream_id: String,
    pub cursor: LoopxEventCursor,
    pub task_id: Option<String>,
    pub generation: Option<u64>,
    pub revision: Option<u64>,
    pub kind: LoopxEventKind,
    pub level: LoopxEventLevel,
    pub source: LoopxEventSource,
    pub phase: Option<LoopxPhase>,
    pub message: String,
    pub important: bool,
    pub tool_name: Option<String>,
    pub deadline_at: Option<i64>,
    pub details: BTreeMap<String, String>,
    pub occurred_at: i64,
}

impl Default for LoopxEvent {
    fn default() -> (res: Self)
        ensures
            res.stream_id@ == Seq::<char>::empty(),
            res.cursor == 0,
            res.task_id is None,
            res.generation is None,
            res.revision is None,
            res.kind == LoopxEventKind::Progress,
            res.level == LoopxEventLevel::Info,
            res.source == LoopxEventSource::Controller,
            res.phase is None,
            res.message@ == Seq::<char>::empty(),
            !res.important,
            res.tool_name is None,
            res.deadline_at is None,
            res.details@ == Map::<String, String>::empty(),
            res.occurred_at == 0,
    {
        LoopxEvent {
            stream_id: String::new(),
            cursor: 0,
            task_id: None,
            generation: None,
            revision: None,
            kind: LoopxEventKind::Progress,
            level: LoopxEventLevel::Info,
            source: LoopxEventSource::Controller,
            phase: None,
            message: String::new(),
            important: false,
            tool_name: None,
            deadline_at: None,
            details: BTreeMap::new(),
            occurred_at: 0,
        }
    }
}

impl LoopxEvent {
    /// Equal fields; the details compared by their view.
    pub open spec fn same_as(self, other: Self) -> bool {
        &&& self.stream_id == other.stream_id
        &&& self.cursor == other.cursor
        &&& self.task_id == other.task_id
        &&& self.generation == other.generation
        &&& self.revision == other.revision
        &&& self.kind == other.kind
        &&& self.level == other.level
        &&& self.source == other.source
        &&& self.phase == other.phase
        &&& self.message == other.message
        &&& self.important == other.important
        &&& self.tool_name == other.tool_name
        &&& self.deadline_at == other.deadline_at
        &&& self.details@ == other.details@
        &&& self.occurred_at == other.occurred_at
    }

    /// A field-by-field copy.
    pub fn copy(&self) -> (res: Self)
        ensures
            res.same_as(*self),
    {
        LoopxEvent {
            stream_id: self.stream_id.clone(),
            cursor: self.cursor,
            task_id: crate::text::copy_opt_string(&self.task_id),
            generation: self.generation,
            revision: self.revision,
            kind: self.kind,
            level: self.level,
            source: self.source,
            phase: self.phase,
            message: self.message.clone(),
            important: self.important,
            tool_name: crate::text::copy_opt_string(&self.tool_name),
            deadline_at: self.deadline_at,
            details: self.details.clone(),
            occurred_at: self.occurred_at,
        }
    }
}

#[derive(Debug, Clone, Default, PartialEq, Eq)]
pub struct LoopxAttachRequest {
    pub known_stream_id: Option<String>,
    pub after_cursor: Option<LoopxEventCursor>,
    /// Set only when the trusted MiniApp detects a wall-clock discontinuity
    /// consistent with host suspend/resume. Legacy clients omit it.
    pub resume_detected: bool,
}

#[derive(Debug, Clone, PartialEq, Eq)]
pub struct LoopxAttachResponse {
    pub snapshot: LoopxSnapshot,
}

/// Model id an intake request uses when none is given.
pub fn default_loopx_model_id() -> (res: String)
    ensures
        res@ == "auto"@,
{
    String::from_str("auto")
}

#[derive(Debug, Clone, PartialEq, Eq)]
pub struct LoopxResolveIntakeRequest {
    pub input: String,
    pub model_id: String,
}

impl Default for LoopxResolveIntakeRequest {
    fn default() -> (res: Self)
        ensures
            res.input@ == Seq::<char>::empty(),
            res.model_id@ == "auto"@,
    {
        LoopxResolveIntakeRequest { input: String::new(), model_id: default_loopx_model_id() }
    }
}

#[derive(Debug, Clone, Default, PartialEq, Eq)]
pub struct LoopxResolveIntakeResponse {
    pub preview: LoopxIntakePreview,
}

#[derive(Debug, Clone, Default, PartialEq, Eq)]
pub struct LoopxCreateTaskRequest {
    pub client_request_id: String,
    pub preview_fingerprint: String,
    pub selected_items: Vec<LoopxIssueKey>,
    pub model_id: String,
    pub granted_scopes: Vec<LoopxPermissionScope>,
    pub retry_terminal: bool,
}

#[derive(Debug, Clone, Copy, Default, PartialEq, Eq, Structural)]
pub enum LoopxCreateTaskOutcomeKind {
    #[default]
    Created,
    OpenedExisting,
    RetryConfirmationRequired,
    ClosedNoop,
    NeedsLiveVerification,
}

#[derive(Debug, Clone, Default, PartialEq, Eq)]
pub struct LoopxCreateTaskOutcome {
    pub item: LoopxIssueKey,
    pub kind: LoopxCreateTaskOutcomeKind,
    pub task_id: Option<String>,
    pub attempt: Option<u32>,
    pub message: Option<String>,
}

#[derive(Debug, Clone, Default, PartialEq, Eq)]
pub struct LoopxCreateTaskResponse {
    pub outcomes: Vec<LoopxCreateTaskOutcome>,
    pub snapshot_revision: u64,
}

#[derive(Debug, Clone, Copy, Default, PartialEq, Eq, Structural)]
pub enum LoopxActionKind {
    #[default]
    Pause,
    Abort,
    Resume,
    ResumeRepository,
    ResetAll,
    PauseAll,
    ResumeAll,
    Approve,
    Reject,
    Archive,
    Restore,
    InstallLoopx,
    RetryEnvironment,
    Unsupported,
}

#[derive(Debug, Clone, Default, PartialEq, Eq)]
pub struct LoopxActionRequest {
    pub task_id: Option<String>,
    pub repository: Option<LoopxRepositoryKey>,
    pub action: LoopxActionKind,
    pub client_request_id: String,
    pub expected_revision: u64,
    pub gate_id: Option<String>,
    pub note: Option<String>,
}

#[derive(Debug, Clone, Copy, Default, PartialEq, Eq, Structural)]
pub enum LoopxActionStatus {
    #[default]
    Applied,
    Duplicate,
    RevisionConflict,
    Rejected,
}

#[derive(Debug, Clone, Default, PartialEq, Eq)]
pub struct LoopxActionResponse {
    pub status: LoopxActionStatus,
    pub current_revision: u64,
    pub task: Option<LoopxTaskSnapshot>,
    pub message: Option<String>,
}

#[derive(Debug, Clone, Default, PartialEq, Eq)]
pub struct LoopxEventsSinceRequest {
    pub stream_id: String,
    pub after_cursor: LoopxEventCursor,
    pub limit: Option<u32>,
}

#[derive(Debug, Clone, Copy, Default, PartialEq, Eq, Structural)]
pub enum LoopxEventsPageStatus {
    #[default]
    Current,
    SnapshotRequired,
}

#[derive(Debug, Clone, Default, PartialEq, Eq)]
pub struct LoopxEventsSinceResponse {
    pub status: LoopxEventsPageStatus,
    pub stream_id: String,
    pub events: Vec<LoopxEvent>,
    pub next_cursor: LoopxEventCursor,
    pub has_more: bool,
}

#[derive(Debug, Clone, Copy, Default, PartialEq, Eq, Structural)]
pub enum LoopxTurnOutputStatus {
    #[default]
    Current,
    TaskNotFound,
    NotRunning,
    StaleTurn,
    OutputUnavailable,
}

#[derive(Debug, Clone, Copy, Default, PartialEq, Eq, Structural)]
pub enum LoopxTurnOutputEventKind {
    #[default]
    Text,
    Thinking,
    ModelRoundStarted,
    ModelRoundCompleted,
    Tool,
}

#[derive(Debug, Clone, Default, PartialEq, Eq)]
pub struct LoopxTurnOutputEvent {
    pub cursor: LoopxEventCursor,
    pub turn_id: String,
    pub round_id: Option<String>,
    pub kind: LoopxTurnOutputEventKind,
    pub text: Option<String>,
    pub tool_name: Option<String>,
    pub tool_state: Option<String>,
    pub is_end: bool,
}

#[derive(Debug, Clone, Default, PartialEq, Eq)]
pub struct LoopxTurnOutputSinceRequest {
    pub task_id: String,
    pub turn_id: Option<String>,
    pub stream_id: Option<String>,
    pub after_cursor: LoopxEventCursor,
    pub limit: Option<u32>,
}

#[derive(Debug, Clone, Default, PartialEq, Eq)]
pub struct LoopxTurnOutputSinceResponse {
    pub status: LoopxTurnOutputStatus,
    pub task_id: String,
    pub turn_id: Option<String>,
    pub stream_id: Option<String>,
    pub events: Vec<LoopxTurnOutputEvent>,
    pub next_cursor: LoopxEventCursor,
    pub has_more: bool,
    pub message: Option<String>,
}

#[derive(Debug, Clone, Default, PartialEq, Eq)]
pub struct LoopxExistingTask {
    pub task_id: String,
    pub identity: LoopxTaskIdentity,
    pub state: LoopxTaskState,
}

} // verus!
