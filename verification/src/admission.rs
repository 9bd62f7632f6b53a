//! Task creation: the order in which selected items are handled, the checks a
//! creation request passes against its intake preview, and the tasks,
//! outcomes and events it records.

use vstd::prelude::*;

use crate::fingerprint::{
    lemma_text_leq_antisymmetric, lemma_text_leq_total, lemma_text_leq_transitive, text_le,
    text_leq,
};
use std::collections::BTreeMap;

use crate::fingerprint::{build_intake_fingerprint, spec_intake_fingerprint};
use crate::host::DEFAULT_AGENT_ID;
use crate::ports::{LoopxAgentProbeResult, LoopxCliResolveIntakeResult, LoopxHostPortError, LoopxWorkspaceProbeResult};
use crate::lifecycle::next_revision;
use crate::policy::{
    required_permission_scopes,
    decide_task_dedup, dedup_holds, intake_scope_is_pregrantable, is_required_scope,
    required_permission_scopes_are_granted, scope_granted, LoopxDedupDecision,
};
use crate::store::{
    keep_last, knows_request, lemma_log_with_push, log_with, new_uuid_text, LoopxPersistedState, LoopxTaskRuntimeRecord,
    MAX_IDEMPOTENCY_KEYS, MAX_SEMANTIC_EVENTS,
};
use crate::requests::first_task_with_id;
use crate::text::{
    chars_of, copy_opt_string, copy_strings, lemma_trim_empty_iff_blank, push_str, seq_eq, str_eq, str_is_blank, trim,
};
use crate::types::{
    copy_scopes, IssueKeyView, LoopxCreateTaskOutcome, LoopxCreateTaskResponse, LoopxCreateTaskOutcomeKind,
    LoopxCreateTaskRequest, LoopxEvent, LoopxEventKind, LoopxEventLevel, LoopxEventSource,
    LoopxExistingTask, LoopxIntakeCandidate, LoopxIntakePreview, LoopxIssueKey, LoopxItemKind,
    LoopxModelCapability, LoopxWorkspacePreview,
    LoopxPermissionScope, LoopxPhase, LoopxSettlementSummary, LoopxTaskIdentity, LoopxTaskSnapshot,
    LoopxTaskState, LoopxWorkspaceDisposition,
};

verus! {

// ---------------------------------------------------------------------------
// Selection order.
// ---------------------------------------------------------------------------

/// The order of item keys (that of the derived `Ord`): host, owner and
/// repository as texts, issues before pull requests, then the number.
pub open spec fn key_lt(a: IssueKeyView, b: IssueKeyView) -> bool {
    if a.repository.host != b.repository.host {
        text_leq(a.repository.host, b.repository.host)
    } else if a.repository.owner != b.repository.owner {
        text_leq(a.repository.owner, b.repository.owner)
    } else if a.repository.repository != b.repository.repository {
        text_leq(a.repository.repository, b.repository.repository)
    } else if a.kind != b.kind {
        a.kind == LoopxItemKind::Issue
    } else {
        a.number < b.number
    }
}

/// Two distinct texts are ordered one way only.
proof fn lemma_text_strict(a: Seq<char>, b: Seq<char>)
    requires
        a != b,
    ensures
        text_leq(a, b) != text_leq(b, a),
{
    lemma_text_leq_total(a, b);
    if text_leq(a, b) && text_leq(b, a) {
        lemma_text_leq_antisymmetric(a, b);
    }
}

/// `key_lt` is a strict total order.
pub proof fn lemma_key_order(a: IssueKeyView, b: IssueKeyView, c: IssueKeyView)
    ensures
        !key_lt(a, a),
        a != b ==> key_lt(a, b) != key_lt(b, a),
        key_lt(a, b) && key_lt(b, c) ==> key_lt(a, c),
{
    if a != b {
        if a.repository.host != b.repository.host {
            lemma_text_strict(a.repository.host, b.repository.host);
        } else if a.repository.owner != b.repository.owner {
            lemma_text_strict(a.repository.owner, b.repository.owner);
        } else if a.repository.repository != b.repository.repository {
            lemma_text_strict(a.repository.repository, b.repository.repository);
        }
    }
    if key_lt(a, b) && key_lt(b, c) {
        let (ah, bh, ch) = (a.repository.host, b.repository.host, c.repository.host);
        let (ao, bo, co) = (a.repository.owner, b.repository.owner, c.repository.owner);
        let (ar, br, cr) = (a.repository.repository, b.repository.repository, c.repository.repository);
        if ah != bh || bh != ch {
            if ah != bh && bh != ch {
                lemma_text_leq_transitive(ah, bh, ch);
            }
            if ah == ch {
                lemma_text_leq_antisymmetric(ah, bh);
            }
        } else if ao != bo || bo != co {
            if ao != bo && bo != co {
                lemma_text_leq_transitive(ao, bo, co);
            }
            if ao == co {
                lemma_text_leq_antisymmetric(ao, bo);
            }
        } else if ar != br || br != cr {
            if ar != br && br != cr {
                lemma_text_leq_transitive(ar, br, cr);
            }
            if ar == cr {
                lemma_text_leq_antisymmetric(ar, br);
            }
        }
    }
}

/// Whether the text `a` is ordered strictly before `b`.
fn text_before(a: &str, b: &str) -> (res: (bool, bool))
    ensures
        res.0 == (a@ == b@),
        res.1 == text_leq(a@, b@),
{
    let x = chars_of(a);
    let y = chars_of(b);
    (seq_eq(&x, &y), text_le(&x, &y))
}

/// Decides `key_lt`.
pub fn key_less(a: &LoopxIssueKey, b: &LoopxIssueKey) -> (res: bool)
    ensures
        res == key_lt(a@, b@),
{
    let (same, le) = text_before(a.repository.host.as_str(), b.repository.host.as_str());
    if !same {
        return le;
    }
    let (same, le) = text_before(a.repository.owner.as_str(), b.repository.owner.as_str());
    if !same {
        return le;
    }
    let (same, le) = text_before(
        a.repository.repository.as_str(),
        b.repository.repository.as_str(),
    );
    if !same {
        return le;
    }
    if a.kind != b.kind {
        return a.kind == LoopxItemKind::Issue;
    }
    a.number < b.number
}

/// The keys are in strictly increasing order.
pub open spec fn keys_increasing(keys: Seq<LoopxIssueKey>) -> bool {
    forall|i: int, j: int| 0 <= i < j < keys.len() ==> key_lt(#[trigger] keys[i]@, #[trigger] keys[j]@)
}

/// Whether a key is among the keys.
pub open spec fn has_key(keys: Seq<LoopxIssueKey>, key: IssueKeyView) -> bool {
    exists|i: int| 0 <= i < keys.len() && (#[trigger] keys[i])@ == key
}

/// The selected items in key order, each once (the iteration order of a set).
pub fn selection_order(items: &[LoopxIssueKey]) -> (res: Vec<LoopxIssueKey>)
    ensures
        keys_increasing(res@),
        forall|k: int| 0 <= k < items@.len() ==> has_key(res@, #[trigger] items@[k]@),
        forall|i: int| 0 <= i < res@.len() ==> has_key(items@, #[trigger] res@[i]@),
{
    let mut res: Vec<LoopxIssueKey> = Vec::new();
    let mut n: usize = 0;
    while n < items.len()
        invariant
            n <= items@.len(),
            keys_increasing(res@),
            forall|k: int| 0 <= k < n ==> has_key(res@, #[trigger] items@[k]@),
            forall|i: int| 0 <= i < res@.len() ==> has_key(items@, #[trigger] res@[i]@),
        decreases items@.len() - n,
    {
        let x = &items[n];
        let mut p: usize = 0;
        while p < res.len() && key_less(&res[p], x)
            invariant
                p <= res@.len(),
                forall|q: int| 0 <= q < p ==> key_lt(#[trigger] res@[q]@, x@),
            decreases res@.len() - p,
        {
            p = p + 1;
        }
        let present = p < res.len() && res[p].same_as(x);
        if present {
            proof {
                assert(res@[p as int]@ == items@[n as int]@);
            }
        } else {
            let ghost before = res@;
            proof {
                if p < before.len() {
                    lemma_key_order(before[p as int]@, x@, x@);
                }
                assert forall|q: int| p <= q < before.len() implies key_lt(x@, #[trigger] before[q]@) by {
                    if q > p {
                        assert(key_lt(before[p as int]@, before[q]@));
                        lemma_key_order(x@, before[p as int]@, before[q]@);
                    }
                }
            }
            res.insert(p, x.copy());
            proof {
                assert forall|i: int, j: int| 0 <= i < j < res@.len() implies key_lt(
                    #[trigger] res@[i]@,
                    #[trigger] res@[j]@,
                ) by {
                    if j < p {
                        assert(res@[i] == before[i] && res@[j] == before[j]);
                    } else if j == p {
                        assert(res@[i] == before[i]);
                    } else if i == p {
                        assert(res@[j] == before[j - 1]);
                    } else if i < p {
                        assert(res@[i] == before[i] && res@[j] == before[j - 1]);
                    } else {
                        assert(res@[i] == before[i - 1] && res@[j] == before[j - 1]);
                    }
                }
                assert forall|k: int| 0 <= k <= n implies has_key(res@, #[trigger] items@[k]@) by {
                    if k == n {
                        assert(res@[p as int]@ == items@[k]@);
                    } else {
                        let w = choose|w: int| 0 <= w < before.len() && (#[trigger] before[w])@
                            == items@[k]@;
                        if w < p {
                            assert(res@[w] == before[w]);
                        } else {
                            assert(res@[w + 1] == before[w]);
                        }
                    }
                }
                assert forall|i: int| 0 <= i < res@.len() implies has_key(items@, #[trigger] res@[i]@) by {
                    if i < p {
                        assert(res@[i] == before[i]);
                    } else if i == p {
                        assert(items@[n as int]@ == res@[i]@);
                    } else {
                        assert(res@[i] == before[i - 1]);
                    }
                }
            }
        }
        n = n + 1;
    }
    res
}

/// The same selected items are handled in the same order whatever order
/// they were selected in: two increasing key lists with the same keys agree
/// position by position.
pub proof fn lemma_selection_order_is_canonical(a: Seq<LoopxIssueKey>, b: Seq<LoopxIssueKey>)
    requires
        keys_increasing(a),
        keys_increasing(b),
        forall|i: int| 0 <= i < a.len() ==> has_key(b, #[trigger] a[i]@),
        forall|j: int| 0 <= j < b.len() ==> has_key(a, #[trigger] b[j]@),
    ensures
        a.len() == b.len(),
        forall|i: int| 0 <= i < a.len() ==> (#[trigger] a[i])@ == b[i]@,
    decreases a.len(),
{
    if a.len() == 0 {
        if b.len() > 0 {
            assert(has_key(a, b[0]@));
        }
        return;
    }
    if b.len() == 0 {
        assert(has_key(b, a[0]@));
        return;
    }
    assert(has_key(b, a[0]@));
    assert(has_key(a, b[0]@));
    let j = choose|j: int| 0 <= j < b.len() && (#[trigger] b[j])@ == a[0]@;
    let i = choose|i: int| 0 <= i < a.len() && (#[trigger] a[i])@ == b[0]@;
    if j > 0 {
        assert(key_lt(b[0]@, b[j]@));
        lemma_key_order(b[0]@, a[0]@, b[0]@);
        if i > 0 {
            assert(key_lt(a[0]@, a[i]@));
        }
        lemma_key_order(a[0]@, a[0]@, a[0]@);
    }
    assert(a[0]@ == b[0]@);
    let a1 = a.drop_first();
    let b1 = b.drop_first();
    assert forall|x: int| 0 <= x < a1.len() implies has_key(b1, #[trigger] a1[x]@) by {
        assert(a1[x] == a[x + 1]);
        assert(has_key(b, a[x + 1]@));
        let y = choose|y: int| 0 <= y < b.len() && (#[trigger] b[y])@ == a[x + 1]@;
        assert(key_lt(a[0]@, a[x + 1]@));
        if y == 0 {
            lemma_key_order(a[0]@, a[0]@, a[0]@);
        }
        assert(b1[y - 1] == b[y]);
    }
    assert forall|y: int| 0 <= y < b1.len() implies has_key(a1, #[trigger] b1[y]@) by {
        assert(b1[y] == b[y + 1]);
        assert(has_key(a, b[y + 1]@));
        let x = choose|x: int| 0 <= x < a.len() && (#[trigger] a[x])@ == b[y + 1]@;
        assert(key_lt(b[0]@, b[y + 1]@));
        if x == 0 {
            lemma_key_order(b[0]@, b[0]@, b[0]@);
        }
        assert(a1[x - 1] == a[x]);
    }
    assert forall|p: int, q: int| 0 <= p < q < a1.len() implies key_lt(#[trigger] a1[p]@, #[trigger] a1[q]@) by {
        assert(a1[p] == a[p + 1] && a1[q] == a[q + 1]);
    }
    assert forall|p: int, q: int| 0 <= p < q < b1.len() implies key_lt(#[trigger] b1[p]@, #[trigger] b1[q]@) by {
        assert(b1[p] == b[p + 1] && b1[q] == b[q + 1]);
    }
    lemma_selection_order_is_canonical(a1, b1);
    assert forall|x: int| 0 <= x < a.len() implies (#[trigger] a[x])@ == b[x]@ by {
        if x > 0 {
            assert(a1[x - 1] == a[x] && b1[x - 1] == b[x]);
        }
    }
}

// ---------------------------------------------------------------------------
// Request checks.
// ---------------------------------------------------------------------------

/// The first checks of a creation request, before its preview is looked up:
/// it carries a request id, the suite is not stopped, and it selects at least
/// one item. On success, the selected items in the order they are handled.
pub fn precheck_create_request(request: &LoopxCreateTaskRequest, suspended: bool) -> (res: Result<
    Vec<LoopxIssueKey>,
    String,
>)
    ensures
        trim(request.client_request_id@).len() == 0 ==> (res matches Err(e) && e@
            == "clientRequestId is required"@),
        trim(request.client_request_id@).len() > 0 && suspended ==> (res matches Err(e) && e@
            == "LoopX is stopped; resume the suite before creating tasks"@),
        trim(request.client_request_id@).len() > 0 && !suspended && request.selected_items@.len()
            == 0 ==> (res matches Err(e) && e@ == "Select at least one issue or pull request"@),
        trim(request.client_request_id@).len() > 0 && !suspended && request.selected_items@.len()
            > 0 ==> (res matches Ok(keys) && {
            &&& keys_increasing(keys@)
            &&& forall|k: int|
                0 <= k < request.selected_items@.len() ==> has_key(
                    keys@,
                    #[trigger] request.selected_items@[k]@,
                )
            &&& forall|i: int|
                0 <= i < keys@.len() ==> has_key(request.selected_items@, #[trigger] keys@[i]@)
        }),
{
    if str_is_blank(request.client_request_id.as_str()) {
        return Err("clientRequestId is required".to_owned());
    }
    if suspended {
        return Err("LoopX is stopped; resume the suite before creating tasks".to_owned());
    }
    if request.selected_items.len() == 0 {
        return Err("Select at least one issue or pull request".to_owned());
    }
    Ok(selection_order(request.selected_items.as_slice()))
}

/// Whether a key is among the preview's candidates.
pub open spec fn previewed(candidates: Seq<LoopxIntakeCandidate>, key: IssueKeyView) -> bool {
    exists|i: int| 0 <= i < candidates.len() && (#[trigger] candidates[i]).key@ == key
}

/// The preview's workspace cannot host the tasks.
pub open spec fn workspace_refused(preview: LoopxIntakePreview) -> bool {
    preview.workspace.disposition == LoopxWorkspaceDisposition::Unavailable
        || !preview.workspace.repository_verified
}

/// A granted scope the preview did not offer, or one intake cannot grant.
pub open spec fn scope_not_previewed(preview: LoopxIntakePreview, granted: Seq<LoopxPermissionScope>) -> bool {
    exists|i: int|
        0 <= i < granted.len() && (!preview.permission_scopes@.contains(#[trigger] granted[i])
            || !is_required_scope(granted[i]))
}

/// The text of an optional detail, or the fallback.
pub open spec fn detail_or(detail: Option<String>, fallback: Seq<char>) -> Seq<char> {
    match detail {
        Some(d) => d@,
        None => fallback,
    }
}

/// The error of the first check a creation request fails against its
/// preview, if any: a preview exists, every selected item was previewed, the
/// workspace passed live Git verification, the model is available, every
/// granted scope was previewed and can be granted at intake, and every
/// required scope is granted.
pub open spec fn preview_error(
    request: LoopxCreateTaskRequest,
    selected: Seq<LoopxIssueKey>,
    preview: Option<LoopxIntakePreview>,
) -> Option<Seq<char>> {
    match preview {
        None => Some("Intake preview is missing or stale; resolve it again"@),
        Some(p) => if exists|k: int|
            0 <= k < selected.len() && !previewed(p.candidates@, #[trigger] selected[k]@) {
            Some("Selected item was not present in the intake preview"@)
        } else if workspace_refused(p) {
            Some(
                detail_or(
                    p.workspace.detail,
                    "The repository workspace did not pass live Git verification"@,
                ),
            )
        } else if !p.model.available {
            Some(detail_or(p.model.detail, "The selected Agent model is unavailable"@))
        } else if scope_not_previewed(p, request.granted_scopes@) {
            Some("Intake includes a permission scope that was not previewed"@)
        } else if !(forall|s: LoopxPermissionScope|
            is_required_scope(s) ==> request.granted_scopes@.contains(s)) {
            Some(
                "All LoopX permission scopes shown in intake are required for an autonomous issue-fix task"@,
            )
        } else {
            None
        },
    }
}

fn is_previewed(candidates: &[LoopxIntakeCandidate], key: &LoopxIssueKey) -> (res: bool)
    ensures
        res == previewed(candidates@, key@),
{
    let mut i: usize = 0;
    while i < candidates.len()
        invariant
            i <= candidates@.len(),
            forall|j: int| 0 <= j < i ==> (#[trigger] candidates@[j]).key@ != key@,
        decreases candidates@.len() - i,
    {
        if candidates[i].key.same_as(key) {
            return true;
        }
        i = i + 1;
    }
    false
}

fn text_or(detail: &Option<String>, fallback: &str) -> (res: String)
    ensures
        res@ == detail_or(*detail, fallback@),
{
    match detail {
        Some(d) => d.clone(),
        None => fallback.to_owned(),
    }
}

/// Checks a creation request against its intake preview.
pub fn check_against_preview(
    request: &LoopxCreateTaskRequest,
    selected: &[LoopxIssueKey],
    preview: Option<&LoopxIntakePreview>,
) -> (res: Result<(), String>)
    ensures
        match preview_error(
            *request,
            selected@,
            match preview {
                Some(p) => Some(*p),
                None => None,
            },
        ) {
            Some(e) => res matches Err(m) && m@ == e,
            None => res is Ok,
        },
{
    let p = match preview {
        None => return Err("Intake preview is missing or stale; resolve it again".to_owned()),
        Some(p) => p,
    };
    let mut k: usize = 0;
    while k < selected.len()
        invariant
            preview == Some(p),
            k <= selected@.len(),
            forall|j: int| 0 <= j < k ==> previewed(p.candidates@, #[trigger] selected@[j]@),
        decreases selected@.len() - k,
    {
        if !is_previewed(p.candidates.as_slice(), &selected[k]) {
            assert(!previewed(p.candidates@, selected@[k as int]@));
            return Err("Selected item was not present in the intake preview".to_owned());
        }
        k = k + 1;
    }
    if p.workspace.disposition == LoopxWorkspaceDisposition::Unavailable
        || !p.workspace.repository_verified {
        return Err(
            text_or(&p.workspace.detail, "The repository workspace did not pass live Git verification"),
        );
    }
    if !p.model.available {
        return Err(text_or(&p.model.detail, "The selected Agent model is unavailable"));
    }
    let granted = request.granted_scopes.as_slice();
    let mut i: usize = 0;
    while i < granted.len()
        invariant
            preview == Some(p),
            granted@ == request.granted_scopes@,
            forall|j: int| 0 <= j < selected@.len() ==> previewed(p.candidates@, #[trigger] selected@[j]@),
            !workspace_refused(*p),
            p.model.available,
            i <= granted@.len(),
            forall|j: int|
                0 <= j < i ==> p.permission_scopes@.contains(#[trigger] granted@[j])
                    && is_required_scope(granted@[j]),
        decreases granted@.len() - i,
    {
        if !scope_granted(p.permission_scopes.as_slice(), granted[i]) || !intake_scope_is_pregrantable(
            granted[i],
        ) {
            assert(!p.permission_scopes@.contains(request.granted_scopes@[i as int])
                || !is_required_scope(request.granted_scopes@[i as int]));
            return Err("Intake includes a permission scope that was not previewed".to_owned());
        }
        i = i + 1;
    }
    if !required_permission_scopes_are_granted(granted) {
        return Err(
            "All LoopX permission scopes shown in intake are required for an autonomous issue-fix task".to_owned(),
        );
    }
    Ok(())
}

// ---------------------------------------------------------------------------
// Outcomes of a request already applied.
// ---------------------------------------------------------------------------

/// Task `i` is the latest for the item: the highest attempt, the later one
/// among equal attempts (what `max_by_key` picks).
pub open spec fn latest_task_for(tasks: Seq<LoopxTaskSnapshot>, key: IssueKeyView, i: int) -> bool {
    &&& 0 <= i < tasks.len()
    &&& tasks[i].identity.item@ == key
    &&& forall|j: int|
        0 <= j < tasks.len() && (#[trigger] tasks[j]).identity.item@ == key ==> tasks[j].identity.attempt
            < tasks[i].identity.attempt || (tasks[j].identity.attempt == tasks[i].identity.attempt
            && j <= i)
}

/// Whether some task is for the item.
pub open spec fn has_task_for(tasks: Seq<LoopxTaskSnapshot>, key: IssueKeyView) -> bool {
    exists|i: int| 0 <= i < tasks.len() && (#[trigger] tasks[i]).identity.item@ == key
}

/// The outcome reported for an item of a request already applied: the
/// latest task for the item, if any, opened again.
pub open spec fn reopened_outcome(
    o: LoopxCreateTaskOutcome,
    key: LoopxIssueKey,
    tasks: Seq<LoopxTaskSnapshot>,
) -> bool {
    &&& o.item == key
    &&& o.kind == LoopxCreateTaskOutcomeKind::OpenedExisting
    &&& o.message is None
    &&& if has_task_for(tasks, key@) {
        exists|i: int|
            latest_task_for(tasks, key@, i) && o.task_id == Some(tasks[i].task_id) && o.attempt
                == Some(tasks[i].identity.attempt)
    } else {
        o.task_id is None && o.attempt is None
    }
}

impl LoopxPersistedState {
    /// The answer to a creation request that was already applied: the
    /// outcomes of the existing tasks at the current revision, with nothing
    /// changed. `None` when the request is new.
    pub fn replay_create_request(&self, request: &LoopxCreateTaskRequest, selected: &[LoopxIssueKey]) -> (res:
        Option<LoopxCreateTaskResponse>)
        ensures
            res is Some <==> knows_request(self.processed_request_ids@, request.client_request_id@),
            res matches Some(r) ==> {
                &&& r.snapshot_revision == self.revision
                &&& r.outcomes@.len() == selected@.len()
                &&& forall|k: int|
                    0 <= k < selected@.len() ==> reopened_outcome(
                        #[trigger] r.outcomes@[k],
                        selected@[k],
                        self.tasks@,
                    )
            },
    {
        if self.has_processed_request(request.client_request_id.as_str()) {
            Some(LoopxCreateTaskResponse { outcomes: self.existing_outcomes(selected), snapshot_revision: self.revision })
        } else {
            None
        }
    }

    /// The outcomes of a creation request that was already applied: each
    /// selected item opens its latest task.
    pub fn existing_outcomes(&self, selected: &[LoopxIssueKey]) -> (res: Vec<LoopxCreateTaskOutcome>)
        ensures
            res@.len() == selected@.len(),
            forall|k: int|
                0 <= k < selected@.len() ==> reopened_outcome(
                    #[trigger] res@[k],
                    selected@[k],
                    self.tasks@,
                ),
    {
        let tasks = &self.tasks;
        let mut res: Vec<LoopxCreateTaskOutcome> = Vec::new();
        let mut k: usize = 0;
        while k < selected.len()
            invariant
                k <= selected@.len(),
                res@.len() == k,
                forall|q: int| 0 <= q < k ==> reopened_outcome(#[trigger] res@[q], selected@[q], tasks@),
            decreases selected@.len() - k,
        {
            let key = &selected[k];
            let mut best: Option<usize> = None;
            let mut j: usize = 0;
            while j < tasks.len()
                invariant
                    j <= tasks@.len(),
                    match best {
                        None => forall|q: int| 0 <= q < j ==> (#[trigger] tasks@[q]).identity.item@ != key@,
                        Some(b) => b < j && tasks@[b as int].identity.item@ == key@ && forall|q: int|
                            0 <= q < j && (#[trigger] tasks@[q]).identity.item@ == key@ ==> tasks@[q].identity.attempt
                                < tasks@[b as int].identity.attempt || (tasks@[q].identity.attempt
                                == tasks@[b as int].identity.attempt && q <= b),
                    },
                decreases tasks@.len() - j,
            {
                if tasks[j].identity.item.same_as(key) {
                    match best {
                        None => {
                            best = Some(j);
                        },
                        Some(b) => {
                            if tasks[j].identity.attempt >= tasks[b].identity.attempt {
                                best = Some(j);
                            }
                        },
                    }
                }
                j = j + 1;
            }
            let outcome = match best {
                None => LoopxCreateTaskOutcome {
                    item: key.copy(),
                    kind: LoopxCreateTaskOutcomeKind::OpenedExisting,
                    task_id: None,
                    attempt: None,
                    message: None,
                },
                Some(b) => {
                    assert(latest_task_for(tasks@, key@, b as int));
                    LoopxCreateTaskOutcome {
                        item: key.copy(),
                        kind: LoopxCreateTaskOutcomeKind::OpenedExisting,
                        task_id: Some(tasks[b].task_id.clone()),
                        attempt: Some(tasks[b].identity.attempt),
                        message: None,
                    }
                },
            };
            res.push(outcome);
            k = k + 1;
        }
        res
    }
}

// ---------------------------------------------------------------------------
// Creating tasks.
// ---------------------------------------------------------------------------

/// The existing-task list mirrors the tasks.
pub open spec fn mirrors(ex: Seq<LoopxExistingTask>, tasks: Seq<LoopxTaskSnapshot>) -> bool {
    &&& ex.len() == tasks.len()
    &&& forall|i: int|
        0 <= i < tasks.len() ==> (#[trigger] ex[i]).task_id == tasks[i].task_id && ex[i].identity.same_as(
            tasks[i].identity,
        ) && ex[i].state == tasks[i].state
}

/// The task a creation reserves for an item, before its workspace exists.
pub open spec fn prepared_task(
    t: LoopxTaskSnapshot,
    task_id: String,
    batch_id: Option<String>,
    key: LoopxIssueKey,
    attempt: u32,
    c: LoopxIntakeCandidate,
    request: LoopxCreateTaskRequest,
    now_ms: i64,
) -> bool {
    &&& t.task_id == task_id
    &&& t.batch_id == batch_id
    &&& t.identity.item == key
    &&& t.identity.attempt == attempt
    &&& t.identity.title == c.title
    &&& t.identity.description == c.description
    &&& t.identity.state == c.state
    &&& t.identity.labels@ == c.labels@
    &&& t.generation == 1
    &&& t.revision == 1
    &&& t.goal_id is None
    &&& t.goal_state is None
    &&& t.agent_id matches Some(a) && a@ == DEFAULT_AGENT_ID@
    &&& t.state == LoopxTaskState::Preparing
    &&& t.phase == LoopxPhase::PreparingWorkspace
    &&& t.pending_gate_id is None
    &&& t.pending_gate_message is None
    &&& t.pending_gate_action_kind is None
    &&& t.workspace_path is None
    &&& t.model_id == Some(request.model_id)
    &&& t.granted_scopes@ == request.granted_scopes@
    &&& t.current_turn_id is None
    &&& t.current_tool is None
    &&& t.current_todo is None
    &&& t.last_output_at is None
    &&& t.last_agent_summary is None
    &&& t.last_agent_summary_at is None
    &&& t.structured_summary is None
    &&& t.recovery_reason is None
    &&& t.deadline_at is None
    &&& t.retry_at is None
    &&& t.error is None
    &&& t.settlement == (LoopxSettlementSummary {
        turn_id: None,
        receipt_id: None,
        durable_revision: None,
        settled_at: None,
    })
    &&& t.created_at == now_ms
    &&& t.updated_at == now_ms
}

/// The event that records a reserved task.
pub open spec fn task_created_event(e: LoopxEvent, t: LoopxTaskSnapshot, now_ms: i64) -> bool {
    &&& e.task_id == Some(t.task_id)
    &&& e.generation == Some(1u64)
    &&& e.revision == Some(1u64)
    &&& e.kind == LoopxEventKind::TaskCreated
    &&& e.level == LoopxEventLevel::Info
    &&& e.source == LoopxEventSource::Controller
    &&& e.phase == Some(LoopxPhase::PreparingWorkspace)
    &&& e.message@ == "LoopX task reserved before workspace preparation"@
    &&& e.important
    &&& e.tool_name is None
    &&& e.deadline_at is None
    &&& e.details@ == Map::<String, String>::empty()
    &&& e.occurred_at == now_ms
}

/// `added` are the task-created events of `tasks`, one each and in order,
/// stamped with the stream id and the cursors that follow `cursor`.
pub open spec fn created_events(
    added: Seq<LoopxEvent>,
    tasks: Seq<LoopxTaskSnapshot>,
    stream_id: String,
    cursor: u64,
    now_ms: i64,
) -> bool {
    &&& added.len() == tasks.len()
    &&& forall|j: int|
        0 <= j < added.len() ==> {
            &&& #[trigger] task_created_event(added[j], tasks[j], now_ms)
            &&& added[j].stream_id == stream_id
            &&& added[j].cursor == add_sat(cursor, (j + 1) as nat)
        }
}

/// The outcome of an item for its dedup decision; a created task's id is
/// the outcome's.
pub open spec fn outcome_for(o: LoopxCreateTaskOutcome, key: LoopxIssueKey, d: LoopxDedupDecision) -> bool {
    &&& o.item == key
    &&& o.message is None
    &&& match d {
        LoopxDedupDecision::OpenExisting { task_id } => o.kind
            == LoopxCreateTaskOutcomeKind::OpenedExisting && o.task_id == Some(task_id)
            && o.attempt is None,
        LoopxDedupDecision::RequireExplicitRetry { previous_task_id, next_attempt } => o.kind
            == LoopxCreateTaskOutcomeKind::RetryConfirmationRequired && o.task_id == Some(
            previous_task_id,
        ) && o.attempt == Some(next_attempt),
        LoopxDedupDecision::ClosedNoop => o.kind == LoopxCreateTaskOutcomeKind::ClosedNoop
            && o.task_id is None && o.attempt is None,
        LoopxDedupDecision::NeedsLiveVerification => o.kind
            == LoopxCreateTaskOutcomeKind::NeedsLiveVerification && o.task_id is None
            && o.attempt is None,
        LoopxDedupDecision::CreateAttempt { attempt } => o.kind
            == LoopxCreateTaskOutcomeKind::Created && o.task_id is Some && o.attempt == Some(
            attempt,
        ),
    }
}

/// Candidate `c` is the first previewed for the item.
pub open spec fn candidate_for(cands: Seq<LoopxIntakeCandidate>, key: IssueKeyView, c: int) -> bool {
    &&& 0 <= c < cands.len()
    &&& cands[c].key@ == key
    &&& forall|j: int| 0 <= j < c ==> (#[trigger] cands[j]).key@ != key
}

/// `n` added to `r`, saturating.
pub open spec fn add_sat(r: u64, n: nat) -> u64 {
    if r + n > u64::MAX {
        u64::MAX
    } else {
        (r + n) as u64
    }
}

/// What a creation request made of its items: one outcome per selected item,
/// the ids of the tasks it reserved, in order, and the batch they share.
pub struct LoopxCreation {
    pub outcomes: Vec<LoopxCreateTaskOutcome>,
    pub created_task_ids: Vec<String>,
    pub batch_id: Option<String>,
}

fn find_candidate(cands: &[LoopxIntakeCandidate], key: &LoopxIssueKey) -> (res: usize)
    requires
        previewed(cands@, key@),
    ensures
        candidate_for(cands@, key@, res as int),
{
    let mut i: usize = 0;
    while i < cands.len()
        invariant
            i <= cands@.len(),
            previewed(cands@, key@),
            forall|j: int| 0 <= j < i ==> (#[trigger] cands@[j]).key@ != key@,
        decreases cands@.len() - i,
    {
        if cands[i].key.same_as(key) {
            return i;
        }
        i = i + 1;
    }
    proof {
        let w = choose|w: int| 0 <= w < cands@.len() && (#[trigger] cands@[w]).key@ == key@;
        assert(cands@[w].key@ != key@);
    }
    0
}

/// Reserves the task for an item.
fn prepare_task(
    task_id: &String,
    batch_id: &Option<String>,
    key: &LoopxIssueKey,
    attempt: u32,
    c: &LoopxIntakeCandidate,
    request: &LoopxCreateTaskRequest,
    now_ms: i64,
) -> (res: LoopxTaskSnapshot)
    ensures
        prepared_task(res, *task_id, *batch_id, *key, attempt, *c, *request, now_ms),
{
    LoopxTaskSnapshot {
        task_id: task_id.clone(),
        batch_id: copy_opt_string(batch_id),
        identity: LoopxTaskIdentity {
            item: key.copy(),
            attempt,
            title: c.title.clone(),
            description: c.description.clone(),
            state: c.state,
            labels: copy_strings(&c.labels),
        },
        generation: 1,
        revision: 1,
        goal_id: None,
        goal_state: None,
        agent_id: Some(DEFAULT_AGENT_ID.to_owned()),
        state: LoopxTaskState::Preparing,
        phase: LoopxPhase::PreparingWorkspace,
        pending_gate_id: None,
        pending_gate_message: None,
        pending_gate_action_kind: None,
        workspace_path: None,
        model_id: Some(request.model_id.clone()),
        granted_scopes: copy_scopes(&request.granted_scopes),
        current_turn_id: None,
        current_tool: None,
        current_todo: None,
        last_output_at: None,
        last_agent_summary: None,
        last_agent_summary_at: None,
        structured_summary: None,
        recovery_reason: None,
        deadline_at: None,
        retry_at: None,
        error: None,
        settlement: LoopxSettlementSummary {
            turn_id: None,
            receipt_id: None,
            durable_revision: None,
            settled_at: None,
        },
        created_at: now_ms,
        updated_at: now_ms,
    }
}

/// The operation id of a reserved task's preparation: `prepare-{task}-1`.
pub open spec fn prepare_operation_id(task_id: Seq<char>) -> Seq<char> {
    "prepare-"@ + task_id + "-1"@
}

/// The runtime record of a reserved task.
pub fn prepared_runtime(task_id: &str) -> (res: LoopxTaskRuntimeRecord)
    ensures
        res.operation_id@ == prepare_operation_id(task_id@),
        res.registry_path@.len() == 0,
        res.session_id is None,
        res.agent_turn_id is None,
        res.loopx_turn_id is None,
        res.settlement_token is None,
        res.expected_durable_revision is None,
        res.last_goal_reconcile_at_ms is None,
        !res.durable_compensation_pending,
        res.pending_host_note is None,
        !res.pinned_reference_injected,
{
    let mut runtime = LoopxTaskRuntimeRecord::default();
    let mut operation_id = String::new();
    push_str(&mut operation_id, "prepare-");
    push_str(&mut operation_id, task_id);
    push_str(&mut operation_id, "-1");
    proof {
        reveal_strlit("prepare-");
        reveal_strlit("-1");
    }
    runtime.operation_id = operation_id;
    runtime
}

impl LoopxPersistedState {
    /// The existing-task list the dedup decisions are taken on.
    pub fn existing_tasks(&self) -> (res: Vec<LoopxExistingTask>)
        ensures
            mirrors(res@, self.tasks@),
    {
        let mut res: Vec<LoopxExistingTask> = Vec::new();
        let mut i: usize = 0;
        while i < self.tasks.len()
            invariant
                i <= self.tasks@.len(),
                res@.len() == i,
                forall|k: int|
                    0 <= k < i ==> (#[trigger] res@[k]).task_id == self.tasks@[k].task_id
                        && res@[k].identity.same_as(self.tasks@[k].identity) && res@[k].state
                        == self.tasks@[k].state,
            decreases self.tasks@.len() - i,
        {
            let t = &self.tasks[i];
            res.push(
                LoopxExistingTask {
                    task_id: t.task_id.clone(),
                    identity: t.identity.copy(),
                    state: t.state,
                },
            );
            i = i + 1;
        }
        res
    }

    /// Records a reserved task: it joins the task list, the state gets a new
    /// revision, and a task-created event is logged.
    fn admit_task(&mut self, task: LoopxTaskSnapshot, now_ms: i64)
        requires
            task.generation == 1,
            task.revision == 1,
            task.phase == LoopxPhase::PreparingWorkspace,
        ensures
            final(self).tasks@ == old(self).tasks@.push(task),
            final(self).revision == next_revision(old(self).revision),
            final(self).cursor == next_revision(old(self).cursor),
            exists|e: LoopxEvent|
                #[trigger] task_created_event(e, task, now_ms) && final(self).events@ == keep_last(
                    old(self).events@.push(
                        LoopxEvent { stream_id: old(self).stream_id, cursor: final(self).cursor, ..e },
                    ),
                    MAX_SEMANTIC_EVENTS as nat,
                ),
            final(self).schema_version == old(self).schema_version,
            final(self).stream_id == old(self).stream_id,
            final(self).environment == old(self).environment,
            final(self).runtime == old(self).runtime,
            final(self).processed_request_ids == old(self).processed_request_ids,
            final(self).suspended == old(self).suspended,
            old(self).wf() && old(self).cursor < u64::MAX ==> final(self).wf(),
    {
        let mut event = LoopxEvent::default();
        event.task_id = Some(task.task_id.clone());
        event.generation = Some(1);
        event.revision = Some(1);
        event.kind = LoopxEventKind::TaskCreated;
        event.source = LoopxEventSource::Controller;
        event.phase = Some(LoopxPhase::PreparingWorkspace);
        event.message = "LoopX task reserved before workspace preparation".to_owned();
        event.important = true;
        event.occurred_at = now_ms;
        let ghost e = event;
        self.tasks.push(task);
        self.revision = self.revision.saturating_add(1);
        self.append_event(event);
        proof {
            assert(task_created_event(e, task, now_ms));
        }
    }
}

/// A creation request with an id is known once it was applied: the request
/// ids `reserve_tasks` leaves behind hold it, so the same request is then
/// answered by `replay_create_request` from the existing tasks.
pub proof fn lemma_applied_request_is_known(before: Seq<String>, id: String)
    requires
        id@.len() > 0,
    ensures
        knows_request(
            if knows_request(before, id@) {
                before
            } else {
                keep_last(before.push(id), MAX_IDEMPOTENCY_KEYS as nat)
            },
            id@,
        ),
{
    if !knows_request(before, id@) {
        let pushed = before.push(id);
        let kept = keep_last(pushed, MAX_IDEMPOTENCY_KEYS as nat);
        assert(kept[kept.len() - 1] == pushed[pushed.len() - 1]);
    }
}

/// How many of the outcomes created a task.
pub open spec fn created_count(outcomes: Seq<LoopxCreateTaskOutcome>) -> nat
    decreases outcomes.len(),
{
    if outcomes.len() == 0 {
        0
    } else {
        created_count(outcomes.drop_last()) + if outcomes.last().kind
            == LoopxCreateTaskOutcomeKind::Created {
            1nat
        } else {
            0nat
        }
    }
}

/// Item `i` was handled by decision `d` on candidate `c`: its outcome follows
/// the decision, and a created task is the next one reserved, at `base` plus
/// the number of tasks created before it.
pub open spec fn admitted_with(
    outcomes: Seq<LoopxCreateTaskOutcome>,
    created: Seq<String>,
    batch_id: Option<String>,
    tasks: Seq<LoopxTaskSnapshot>,
    base: int,
    i: int,
    d: LoopxDedupDecision,
    c: int,
    ex: Seq<LoopxExistingTask>,
    selected: Seq<LoopxIssueKey>,
    preview: LoopxIntakePreview,
    request: LoopxCreateTaskRequest,
    now_ms: i64,
) -> bool {
    let j = created_count(outcomes.take(i)) as int;
    &&& candidate_for(preview.candidates@, selected[i]@, c)
    &&& dedup_holds(selected[i]@, preview.candidates@[c].state, ex, request.retry_terminal, d)
    &&& outcome_for(outcomes[i], selected[i], d)
    &&& (d is CreateAttempt ==> {
        &&& 0 <= j < created.len()
        &&& outcomes[i].task_id == Some(created[j])
        &&& prepared_task(
            tasks[base + j],
            created[j],
            batch_id,
            selected[i],
            d->attempt,
            preview.candidates@[c],
            request,
            now_ms,
        )
    })
}

/// Item `i` was handled by some decision on some candidate.
pub open spec fn item_admitted(
    outcomes: Seq<LoopxCreateTaskOutcome>,
    created: Seq<String>,
    batch_id: Option<String>,
    tasks: Seq<LoopxTaskSnapshot>,
    base: int,
    i: int,
    ex: Seq<LoopxExistingTask>,
    selected: Seq<LoopxIssueKey>,
    preview: LoopxIntakePreview,
    request: LoopxCreateTaskRequest,
    now_ms: i64,
) -> bool {
    exists|d: LoopxDedupDecision, c: int|
        #[trigger] admitted_with(
            outcomes,
            created,
            batch_id,
            tasks,
            base,
            i,
            d,
            c,
            ex,
            selected,
            preview,
            request,
            now_ms,
        )
}

/// What applying a checked creation request does: `c` is its result, `pre`
/// and `post` the state before and after. Each selected item, in order, is
/// decided against the tasks as they stood before; reserved tasks join the
/// list with a new revision and a task-created event each; the request id is
/// remembered; nothing else changes.
pub open spec fn creation_applied(
    pre: LoopxPersistedState,
    post: LoopxPersistedState,
    c: LoopxCreation,
    request: LoopxCreateTaskRequest,
    selected: Seq<LoopxIssueKey>,
    preview: LoopxIntakePreview,
    now_ms: i64,
) -> bool {
    &&& c.outcomes@.len() == selected.len()
    &&& c.created_task_ids@.len() == created_count(c.outcomes@)
    &&& post.tasks@.len() == pre.tasks@.len() + c.created_task_ids@.len()
    &&& post.tasks@.subrange(0, pre.tasks@.len() as int) == pre.tasks@
    &&& forall|j: int|
        0 <= j < c.created_task_ids@.len() ==> post.tasks@[pre.tasks@.len() + j].task_id
            == #[trigger] c.created_task_ids@[j]
    &&& exists|ex: Seq<LoopxExistingTask>|
        #[trigger] mirrors(ex, pre.tasks@) && forall|q: int|
            0 <= q < selected.len() ==> #[trigger] item_admitted(
                c.outcomes@,
                c.created_task_ids@,
                c.batch_id,
                post.tasks@,
                pre.tasks@.len() as int,
                q,
                ex,
                selected,
                preview,
                request,
                now_ms,
            )
    &&& (selected.len() > 1) == c.batch_id is Some
    &&& c.batch_id matches Some(b) ==> b@.len() == 36
    &&& post.revision == add_sat(pre.revision, c.created_task_ids@.len())
    &&& post.cursor == add_sat(pre.cursor, c.created_task_ids@.len())
    &&& exists|added: Seq<LoopxEvent>|
        #[trigger] created_events(
            added,
            post.tasks@.skip(pre.tasks@.len() as int),
            pre.stream_id,
            pre.cursor,
            now_ms,
        ) && post.events@ == log_with(pre.events@, added)
    &&& post.processed_request_ids@ == (if request.client_request_id@.len() == 0
        || knows_request(pre.processed_request_ids@, request.client_request_id@) {
        pre.processed_request_ids@
    } else {
        keep_last(
            pre.processed_request_ids@.push(request.client_request_id),
            MAX_IDEMPOTENCY_KEYS as nat,
        )
    })
    &&& post.schema_version == pre.schema_version
    &&& post.stream_id == pre.stream_id
    &&& post.environment == pre.environment
    &&& post.suspended == pre.suspended
    &&& pre.wf() && pre.cursor + selected.len() < u64::MAX ==> post.wf()
}

impl LoopxPersistedState {
    /// Applies a checked creation request: each selected item, in order, is
    /// decided against the tasks as they stood before the request (open the
    /// active task, ask to confirm a retry, skip a resolved item, ask for live
    /// verification, or reserve a new attempt); reserved tasks join the list
    /// with a preparation runtime record, a new revision and a task-created
    /// event each, and share a batch id when several items were selected.
    /// The request id is then remembered.
    pub fn reserve_tasks(
        &mut self,
        request: &LoopxCreateTaskRequest,
        selected: &[LoopxIssueKey],
        preview: &LoopxIntakePreview,
        now_ms: i64,
    ) -> (res: LoopxCreation)
        requires
            forall|k: int| 0 <= k < selected@.len() ==> previewed(preview.candidates@, #[trigger] selected@[k]@),
        ensures
            creation_applied(*old(self), *final(self), res, *request, selected@, *preview, now_ms),
    {
        let existing = self.existing_tasks();
        let batch_id = if selected.len() > 1 {
            Some(new_uuid_text())
        } else {
            None
        };
        let ghost base = self.tasks@.len() as int;
        let ghost pre = *self;
        let mut outcomes: Vec<LoopxCreateTaskOutcome> = Vec::new();
        let mut created: Vec<String> = Vec::new();
        let ghost mut ds: Seq<LoopxDedupDecision> = Seq::empty();
        let ghost mut cs: Seq<int> = Seq::empty();
        let ghost mut added: Seq<LoopxEvent> = Seq::empty();
        let mut i: usize = 0;
        while i < selected.len()
            invariant
                i <= selected@.len(),
                forall|k: int| 0 <= k < selected@.len() ==> previewed(preview.candidates@, #[trigger] selected@[k]@),
                mirrors(existing@, pre.tasks@),
                base == pre.tasks@.len(),
                self.tasks@.len() == base + created@.len(),
                self.tasks@.subrange(0, base) == pre.tasks@,
                forall|j: int| 0 <= j < created@.len() ==> self.tasks@[base + j].task_id == #[trigger] created@[j],
                outcomes@.len() == i,
                ds.len() == i,
                cs.len() == i,
                created@.len() == created_count(outcomes@),
                forall|q: int|
                    0 <= q < i ==> #[trigger] admitted_with(
                        outcomes@,
                        created@,
                        batch_id,
                        self.tasks@,
                        base,
                        q,
                        ds[q],
                        cs[q],
                        existing@,
                        selected@,
                        *preview,
                        *request,
                        now_ms,
                    ),
                self.revision == add_sat(pre.revision, created@.len()),
                self.cursor == add_sat(pre.cursor, created@.len()),
                created_events(added, self.tasks@.skip(base), pre.stream_id, pre.cursor, now_ms),
                self.events@ == log_with(pre.events@, added),
                created@.len() <= i,
                self.schema_version == pre.schema_version,
                self.stream_id == pre.stream_id,
                self.environment == pre.environment,
                self.processed_request_ids == pre.processed_request_ids,
                self.suspended == pre.suspended,
                pre.wf() && pre.cursor + selected@.len() < u64::MAX ==> self.wf(),
            decreases selected@.len() - i,
        {
            let key = &selected[i];
            let c = find_candidate(preview.candidates.as_slice(), key);
            let cand = &preview.candidates[c];
            let d = decide_task_dedup(key, cand.state, existing.as_slice(), request.retry_terminal);
            let ghost dg = d;
            let ghost old_outcomes = outcomes@;
            let ghost old_created = created@;
            let ghost old_tasks = self.tasks@;
            let outcome = match d {
                LoopxDedupDecision::OpenExisting { task_id } => LoopxCreateTaskOutcome {
                    item: key.copy(),
                    kind: LoopxCreateTaskOutcomeKind::OpenedExisting,
                    task_id: Some(task_id),
                    attempt: None,
                    message: None,
                },
                LoopxDedupDecision::RequireExplicitRetry { previous_task_id, next_attempt } => {
                    LoopxCreateTaskOutcome {
                        item: key.copy(),
                        kind: LoopxCreateTaskOutcomeKind::RetryConfirmationRequired,
                        task_id: Some(previous_task_id),
                        attempt: Some(next_attempt),
                        message: None,
                    }
                },
                LoopxDedupDecision::ClosedNoop => LoopxCreateTaskOutcome {
                    item: key.copy(),
                    kind: LoopxCreateTaskOutcomeKind::ClosedNoop,
                    task_id: None,
                    attempt: None,
                    message: None,
                },
                LoopxDedupDecision::NeedsLiveVerification => LoopxCreateTaskOutcome {
                    item: key.copy(),
                    kind: LoopxCreateTaskOutcomeKind::NeedsLiveVerification,
                    task_id: None,
                    attempt: None,
                    message: None,
                },
                LoopxDedupDecision::CreateAttempt { attempt } => {
                    let task_id = new_uuid_text();
                    let task = prepare_task(&task_id, &batch_id, key, attempt, cand, request, now_ms);
                    self.runtime.insert(task_id.clone(), prepared_runtime(task_id.as_str()));
                    let ghost before = *self;
                    let ghost admitted = task;
                    self.admit_task(task, now_ms);
                    proof {
                        let e = choose|e: LoopxEvent|
                            #[trigger] task_created_event(e, admitted, now_ms) && self.events@ == keep_last(
                                before.events@.push(
                                    LoopxEvent { stream_id: before.stream_id, cursor: self.cursor, ..e },
                                ),
                                MAX_SEMANTIC_EVENTS as nat,
                            );
                        let stamped = LoopxEvent { stream_id: before.stream_id, cursor: self.cursor, ..e };
                        lemma_log_with_push(pre.events@, added, stamped);
                        let old_added = added;
                        added = added.push(stamped);
                        assert(self.tasks@.skip(base) =~= before.tasks@.skip(base).push(admitted));
                        assert(task_created_event(stamped, admitted, now_ms));
                        assert(stamped.cursor == add_sat(pre.cursor, added.len()));
                        assert forall|j: int| 0 <= j < added.len() implies {
                            &&& #[trigger] task_created_event(added[j], self.tasks@.skip(base)[j], now_ms)
                            &&& added[j].stream_id == pre.stream_id
                            &&& added[j].cursor == add_sat(pre.cursor, (j + 1) as nat)
                        } by {
                            if j < old_added.len() {
                                assert(added[j] == old_added[j]);
                                assert(self.tasks@.skip(base)[j] == before.tasks@.skip(base)[j]);
                            }
                        }
                    }
                    created.push(task_id.clone());
                    LoopxCreateTaskOutcome {
                        item: key.copy(),
                        kind: LoopxCreateTaskOutcomeKind::Created,
                        task_id: Some(task_id),
                        attempt: Some(attempt),
                        message: None,
                    }
                },
            };
            outcomes.push(outcome);
            proof {
                ds = ds.push(dg);
                cs = cs.push(c as int);
                assert(outcomes@.drop_last() =~= old_outcomes);
                assert(outcomes@.take(i as int) =~= old_outcomes);
                assert forall|q: int|
                    0 <= q <= i implies #[trigger] admitted_with(
                    outcomes@,
                    created@,
                    batch_id,
                    self.tasks@,
                    base,
                    q,
                    ds[q],
                    cs[q],
                    existing@,
                    selected@,
                    *preview,
                    *request,
                    now_ms,
                ) by {
                    if q < i {
                        assert(outcomes@.take(q) =~= old_outcomes.take(q));
                        assert(outcomes@[q] == old_outcomes[q]);
                        assert(admitted_with(
                            old_outcomes,
                            old_created,
                            batch_id,
                            old_tasks,
                            base,
                            q,
                            ds[q],
                            cs[q],
                            existing@,
                            selected@,
                            *preview,
                            *request,
                            now_ms,
                        ));
                        let j = created_count(old_outcomes.take(q)) as int;
                        if ds[q] is CreateAttempt {
                            assert(created@[j] == old_created[j]);
                            assert(self.tasks@[base + j] == old_tasks[base + j]);
                        }
                    }
                }
                assert(self.tasks@.subrange(0, base) =~= pre.tasks@);
            }
            i = i + 1;
        }
        self.record_processed_request(request.client_request_id.clone());
        let res = LoopxCreation { outcomes, created_task_ids: created, batch_id };
        proof {
            assert(mirrors(existing@, pre.tasks@));
            assert forall|q: int| 0 <= q < selected@.len() implies #[trigger] item_admitted(
                res.outcomes@,
                res.created_task_ids@,
                res.batch_id,
                self.tasks@,
                base,
                q,
                existing@,
                selected@,
                *preview,
                *request,
                now_ms,
            ) by {
                assert(admitted_with(
                    res.outcomes@,
                    res.created_task_ids@,
                    res.batch_id,
                    self.tasks@,
                    base,
                    q,
                    ds[q],
                    cs[q],
                    existing@,
                    selected@,
                    *preview,
                    *request,
                    now_ms,
                ));
            }
        }
        res
    }
}

// ---------------------------------------------------------------------------
// Repository lanes.
// ---------------------------------------------------------------------------

/// The repository of the first task with the id, if any.
pub open spec fn repository_of(tasks: Seq<LoopxTaskSnapshot>, id: Seq<char>) -> Option<Seq<char>> {
    if exists|i: int| first_task_with_id(tasks, id, i) {
        let i = choose|i: int| first_task_with_id(tasks, id, i);
        Some(tasks[i].identity.item.repository@.canonical_id())
    } else {
        None
    }
}

/// Whether one of the ids has a task in the repository.
pub open spec fn lane_taken(tasks: Seq<LoopxTaskSnapshot>, ids: Seq<Seq<char>>, repository: Seq<char>) -> bool {
    exists|k: int| 0 <= k < ids.len() && repository_of(tasks, #[trigger] ids[k]) == Some(repository)
}

/// The ids, in order, whose task is the first one of its repository; ids
/// without a task are skipped.
pub open spec fn lane_heads(tasks: Seq<LoopxTaskSnapshot>, ids: Seq<Seq<char>>) -> Seq<Seq<char>>
    decreases ids.len(),
{
    if ids.len() == 0 {
        Seq::empty()
    } else {
        let rest = lane_heads(tasks, ids.drop_last());
        match repository_of(tasks, ids.last()) {
            None => rest,
            Some(r) => if lane_taken(tasks, ids.drop_last(), r) {
                rest
            } else {
                rest.push(ids.last())
            },
        }
    }
}

proof fn lemma_first_task_unique(tasks: Seq<LoopxTaskSnapshot>, id: Seq<char>, i: int, j: int)
    requires
        first_task_with_id(tasks, id, i),
        first_task_with_id(tasks, id, j),
    ensures
        i == j,
{
    if i < j {
        assert(tasks[i].task_id@ != id);
    } else if j < i {
        assert(tasks[j].task_id@ != id);
    }
}

impl LoopxPersistedState {
    /// The repository of a task, by id.
    fn repository_id_of(&self, task_id: &str) -> (res: Option<String>)
        ensures
            match res {
                Some(r) => repository_of(self.tasks@, task_id@) == Some(r@),
                None => repository_of(self.tasks@, task_id@) is None,
            },
    {
        match self.task_index(task_id) {
            None => None,
            Some(i) => {
                proof {
                    assert(first_task_with_id(self.tasks@, task_id@, i as int));
                    let w = choose|w: int| first_task_with_id(self.tasks@, task_id@, w);
                    lemma_first_task_unique(self.tasks@, task_id@, i as int, w);
                }
                Some(self.tasks[i].identity.item.repository.canonical_id())
            },
        }
    }

    /// The created tasks to start now: the first of each repository, in
    /// creation order. The others wait for their repository's lane.
    pub fn lane_heads_of(&self, created: &[String]) -> (res: Vec<String>)
        ensures
            res@.map_values(|s: String| s@) == lane_heads(
                self.tasks@,
                created@.map_values(|s: String| s@),
            ),
    {
        let ghost ids = created@.map_values(|s: String| s@);
        let mut res: Vec<String> = Vec::new();
        let mut seen: Vec<String> = Vec::new();
        let mut i: usize = 0;
        while i < created.len()
            invariant
                i <= created@.len(),
                ids == created@.map_values(|s: String| s@),
                res@.map_values(|s: String| s@) == lane_heads(self.tasks@, ids.take(i as int)),
                forall|r: Seq<char>|
                    lane_taken(self.tasks@, ids.take(i as int), r) <==> exists|k: int|
                        0 <= k < seen@.len() && (#[trigger] seen@[k])@ == r,
            decreases created@.len() - i,
        {
            let ghost prefix = ids.take(i as int);
            proof {
                assert(ids.take(i + 1).drop_last() =~= prefix);
                assert(ids.take(i + 1).last() == created@[i as int]@);
            }
            match self.repository_id_of(created[i].as_str()) {
                None => {
                    proof {
                        assert forall|r: Seq<char>|
                            #[trigger] lane_taken(self.tasks@, ids.take(i + 1), r) <==> exists|q: int|
                                0 <= q < seen@.len() && (#[trigger] seen@[q])@ == r by {
                            assert(lane_taken(self.tasks@, prefix, r) <==> exists|q: int|
                                0 <= q < seen@.len() && (#[trigger] seen@[q])@ == r);
                            if lane_taken(self.tasks@, ids.take(i + 1), r) {
                                let k = choose|k: int| 0 <= k < i + 1 && repository_of(self.tasks@, #[trigger] ids.take(i + 1)[k]) == Some(r);
                                assert(k < i);
                                assert(prefix[k] == ids.take(i + 1)[k]);
                            }
                            if lane_taken(self.tasks@, prefix, r) {
                                let k = choose|k: int| 0 <= k < i && repository_of(self.tasks@, #[trigger] prefix[k]) == Some(r);
                                assert(prefix[k] == ids.take(i + 1)[k]);
                            }
                        }
                    }
                },
                Some(repository) => {
                    let mut taken = false;
                    let mut k: usize = 0;
                    while k < seen.len()
                        invariant
                            k <= seen@.len(),
                            taken == exists|q: int| 0 <= q < k && (#[trigger] seen@[q])@ == repository@,
                        decreases seen@.len() - k,
                    {
                        if str_eq(seen[k].as_str(), repository.as_str()) {
                            taken = true;
                        }
                        k = k + 1;
                    }
                    let ghost old_seen = seen@;
                    if !taken {
                        res.push(created[i].clone());
                        seen.push(repository);
                    }
                    proof {
                        let r0 = repository_of(self.tasks@, created@[i as int]@)->0;
                        assert forall|r: Seq<char>|
                            #[trigger] lane_taken(self.tasks@, ids.take(i + 1), r) <==> exists|q: int|
                                0 <= q < seen@.len() && (#[trigger] seen@[q])@ == r by {
                            assert(lane_taken(self.tasks@, prefix, r) <==> exists|q: int|
                                0 <= q < old_seen.len() && (#[trigger] old_seen[q])@ == r);
                            if lane_taken(self.tasks@, ids.take(i + 1), r) {
                                let kk = choose|kk: int| 0 <= kk < i + 1 && repository_of(self.tasks@, #[trigger] ids.take(i + 1)[kk]) == Some(r);
                                if kk < i {
                                    assert(prefix[kk] == ids.take(i + 1)[kk]);
                                    assert(lane_taken(self.tasks@, prefix, r));
                                    let q = choose|q: int| 0 <= q < old_seen.len() && (#[trigger] old_seen[q])@ == r;
                                    assert(seen@[q] == old_seen[q]);
                                } else if !taken {
                                    assert(seen@[old_seen.len() as int]@ == r);
                                }
                            }
                            if exists|q: int| 0 <= q < seen@.len() && (#[trigger] seen@[q])@ == r {
                                let q = choose|q: int| 0 <= q < seen@.len() && (#[trigger] seen@[q])@ == r;
                                if q < old_seen.len() {
                                    assert(seen@[q] == old_seen[q]);
                                    assert(lane_taken(self.tasks@, prefix, r));
                                    let kk = choose|kk: int| 0 <= kk < i && repository_of(self.tasks@, #[trigger] prefix[kk]) == Some(r);
                                    assert(prefix[kk] == ids.take(i + 1)[kk]);
                                } else {
                                    assert(ids.take(i + 1)[i as int] == created@[i as int]@);
                                }
                            }
                        }
                        if taken {
                            let q = choose|q: int| 0 <= q < old_seen.len() && (#[trigger] old_seen[q])@ == repository@;
                            assert(lane_taken(self.tasks@, prefix, repository@));
                        }
                    }
                },
            }
            i = i + 1;
            proof {
                assert(res@.map_values(|s: String| s@) =~= lane_heads(self.tasks@, ids.take(i as int)));
            }
        }
        proof {
            assert(ids.take(created@.len() as int) =~= ids);
        }
        res
    }
}

// ---------------------------------------------------------------------------
// Intake previews.
// ---------------------------------------------------------------------------

/// How long a preview can be confirmed: five minutes.
pub const INTAKE_PREVIEW_TTL_MS: i64 = 300000;

/// How many previews are kept.
pub const MAX_INTAKE_PREVIEWS: usize = 64;

/// The model capability a preview shows for the agent probe.
pub open spec fn previewed_model(
    m: LoopxModelCapability,
    model_id: String,
    probe: Result<LoopxAgentProbeResult, LoopxHostPortError>,
) -> bool {
    &&& m.model_id == model_id
    &&& match probe {
        Ok(p) => m.available && m.supports_images == p.supports_images && (m.detail matches Some(d)
            && d@ == "Resolved Agent model: "@ + p.model_id@),
        Err(e) => !m.available && !m.supports_images && (m.detail matches Some(d) && d@
            == e.spec_text()),
    }
}

/// The workspace a preview shows for the workspace probe: a clone is needed,
/// and the repository is verified as far as the probe says.
pub open spec fn previewed_workspace(
    w: LoopxWorkspacePreview,
    probe: Result<LoopxWorkspaceProbeResult, LoopxHostPortError>,
) -> bool {
    &&& w.path is None
    &&& match probe {
        Ok(p) => w.disposition == LoopxWorkspaceDisposition::CloneRequired && w.repository_verified
            == p.repository_verified && (w.detail matches Some(d) && d@ == (match p.git_version {
            Some(v) => v@,
            None => "Git available"@,
        }) + "; repository access verified"@),
        Err(e) => w.disposition == LoopxWorkspaceDisposition::Unavailable && !w.repository_verified
            && (w.detail matches Some(d) && d@ == e.spec_text()),
    }
}

fn preview_model(model_id: String, probe: Result<LoopxAgentProbeResult, LoopxHostPortError>) -> (res:
    LoopxModelCapability)
    ensures
        previewed_model(res, model_id, probe),
{
    match probe {
        Ok(p) => {
            let mut detail = String::new();
            push_str(&mut detail, "Resolved Agent model: ");
            push_str(&mut detail, p.model_id.as_str());
            proof {
                reveal_strlit("Resolved Agent model: ");
            }
            LoopxModelCapability {
                model_id,
                available: true,
                supports_images: p.supports_images,
                detail: Some(detail),
            }
        },
        Err(e) => LoopxModelCapability {
            model_id,
            available: false,
            supports_images: false,
            detail: Some(e.to_string()),
        },
    }
}

fn preview_workspace(probe: Result<LoopxWorkspaceProbeResult, LoopxHostPortError>) -> (res:
    LoopxWorkspacePreview)
    ensures
        previewed_workspace(res, probe),
{
    match probe {
        Ok(p) => {
            let mut detail = match &p.git_version {
                Some(v) => v.clone(),
                None => "Git available".to_owned(),
            };
            push_str(&mut detail, "; repository access verified");
            proof {
                reveal_strlit("; repository access verified");
            }
            LoopxWorkspacePreview {
                disposition: LoopxWorkspaceDisposition::CloneRequired,
                path: None,
                repository_verified: p.repository_verified,
                detail: Some(detail),
            }
        },
        Err(e) => LoopxWorkspacePreview {
            disposition: LoopxWorkspaceDisposition::Unavailable,
            path: None,
            repository_verified: false,
            detail: Some(e.to_string()),
        },
    }
}

/// The preview of a resolved intake: the candidates LoopX resolved, the
/// workspace and model the probes found, the required permission scopes,
/// and a fingerprint of all of it. It can be confirmed for five minutes
/// after it was resolved (now, when LoopX gave no time).
pub fn intake_preview(
    resolved: LoopxCliResolveIntakeResult,
    workspace_probe: Result<LoopxWorkspaceProbeResult, LoopxHostPortError>,
    agent_probe: Result<LoopxAgentProbeResult, LoopxHostPortError>,
    model_id: String,
    now_ms: i64,
) -> (res: LoopxIntakePreview)
    ensures
        res.target == resolved.target,
        res.repository == resolved.repository,
        res.candidates == resolved.candidates,
        res.truncated == resolved.truncated,
        previewed_model(res.model, model_id, agent_probe),
        previewed_workspace(res.workspace, workspace_probe),
        forall|s: LoopxPermissionScope| res.permission_scopes@.contains(s) <==> is_required_scope(s),
        res.fingerprint@ == spec_intake_fingerprint(
            resolved.target@,
            resolved.candidates@,
            Seq::empty(),
            model_id@,
            res.permission_scopes@,
        ),
        res.resolved_at == (if resolved.resolved_at > 0 {
            resolved.resolved_at
        } else {
            now_ms
        }),
        res.expires_at == Some(add_sat_i64(res.resolved_at, INTAKE_PREVIEW_TTL_MS)),
{
    let scopes = required_permission_scopes();
    let model = preview_model(model_id, agent_probe);
    let workspace = preview_workspace(workspace_probe);
    let fingerprint = build_intake_fingerprint(
        &resolved.target,
        resolved.candidates.as_slice(),
        None,
        model.model_id.as_str(),
        scopes.as_slice(),
    );
    let resolved_at = if resolved.resolved_at > 0 {
        resolved.resolved_at
    } else {
        now_ms
    };
    let expires_at = if resolved_at > i64::MAX - INTAKE_PREVIEW_TTL_MS {
        i64::MAX
    } else {
        resolved_at + INTAKE_PREVIEW_TTL_MS
    };
    LoopxIntakePreview {
        fingerprint,
        target: resolved.target,
        repository: resolved.repository,
        workspace,
        candidates: resolved.candidates,
        truncated: resolved.truncated,
        model,
        permission_scopes: scopes,
        resolved_at,
        expires_at: Some(expires_at),
    }
}

/// `a + b`, saturating at the bounds of `i64`.
pub open spec fn add_sat_i64(a: i64, b: i64) -> i64 {
    if a + b > i64::MAX {
        i64::MAX
    } else if a + b < i64::MIN {
        i64::MIN
    } else {
        (a + b) as i64
    }
}

/// A preview can be confirmed until it expires; one without an expiry never.
pub open spec fn preview_fresh(p: LoopxIntakePreview, now_ms: i64) -> bool {
    p.expires_at matches Some(e) && e > now_ms
}

/// The fresh previews, in order.
pub open spec fn fresh_previews(ps: Seq<LoopxIntakePreview>, now_ms: i64) -> Seq<LoopxIntakePreview>
    decreases ps.len(),
{
    if ps.len() == 0 {
        Seq::empty()
    } else {
        let rest = fresh_previews(ps.drop_last(), now_ms);
        if preview_fresh(ps.last(), now_ms) {
            rest.push(ps.last())
        } else {
            rest
        }
    }
}

/// The position of the first oldest preview.
pub open spec fn is_oldest(ps: Seq<LoopxIntakePreview>, i: int) -> bool {
    &&& 0 <= i < ps.len()
    &&& forall|j: int| 0 <= j < ps.len() ==> ps[i].resolved_at <= (#[trigger] ps[j]).resolved_at
    &&& forall|j: int| 0 <= j < i ==> ps[i].resolved_at < (#[trigger] ps[j]).resolved_at
}

/// The previews without the `n` oldest, dropped one at a time (the first
/// among equally old ones first).
pub open spec fn drop_oldest(ps: Seq<LoopxIntakePreview>, n: nat) -> Seq<LoopxIntakePreview>
    decreases n,
{
    if n == 0 || ps.len() == 0 {
        ps
    } else {
        let i = choose|i: int| is_oldest(ps, i);
        drop_oldest(ps.remove(i), (n - 1) as nat)
    }
}

fn oldest_index(ps: &Vec<LoopxIntakePreview>) -> (res: usize)
    requires
        ps@.len() > 0,
    ensures
        is_oldest(ps@, res as int),
{
    let mut best: usize = 0;
    let mut i: usize = 1;
    while i < ps.len()
        invariant
            1 <= i <= ps@.len(),
            best < i,
            forall|j: int| 0 <= j < i ==> ps@[best as int].resolved_at <= (#[trigger] ps@[j]).resolved_at,
            forall|j: int| 0 <= j < best ==> ps@[best as int].resolved_at < (#[trigger] ps@[j]).resolved_at,
        decreases ps@.len() - i,
    {
        if ps[i].resolved_at < ps[best].resolved_at {
            best = i;
        }
        i = i + 1;
    }
    best
}

proof fn lemma_oldest_unique(ps: Seq<LoopxIntakePreview>, i: int, j: int)
    requires
        is_oldest(ps, i),
        is_oldest(ps, j),
    ensures
        i == j,
{
    if i < j {
        assert(ps[j].resolved_at < ps[i].resolved_at);
    } else if j < i {
        assert(ps[i].resolved_at < ps[j].resolved_at);
    }
}

/// The fresh previews, without the oldest ones beyond `MAX_INTAKE_PREVIEWS`.
pub open spec fn pruned_previews(ps: Seq<LoopxIntakePreview>, now_ms: i64) -> Seq<LoopxIntakePreview> {
    let fresh = fresh_previews(ps, now_ms);
    if fresh.len() > MAX_INTAKE_PREVIEWS {
        drop_oldest(fresh, (fresh.len() - MAX_INTAKE_PREVIEWS) as nat)
    } else {
        fresh
    }
}

/// Drops expired previews, then the oldest ones beyond `MAX_INTAKE_PREVIEWS`.
pub fn prune_intake_previews(previews: Vec<LoopxIntakePreview>, now_ms: i64) -> (res: Vec<
    LoopxIntakePreview,
>)
    ensures
        res@ == pruned_previews(previews@, now_ms),
        res@.len() <= MAX_INTAKE_PREVIEWS,
{
    let mut kept: Vec<LoopxIntakePreview> = Vec::new();
    let ghost all = previews@;
    let n = previews.len();
    let mut i: usize = 0;
    let mut previews = previews;
    while previews.len() > 0
        invariant
            all.len() == n,
            previews@.len() + i == all.len(),
            previews@ == all.skip(i as int),
            kept@ == fresh_previews(all.take(i as int), now_ms),
        decreases previews@.len(),
    {
        let p = previews.remove(0);
        proof {
            assert(all.take(i + 1).drop_last() =~= all.take(i as int));
            assert(all.take(i + 1).last() == p);
            assert(previews@ =~= all.skip(i + 1));
        }
        let fresh = match p.expires_at {
            Some(e) => e > now_ms,
            None => false,
        };
        if fresh {
            kept.push(p);
        }
        i = i + 1;
    }
    proof {
        assert(all.take(all.len() as int) =~= all);
    }
    let ghost fresh = kept@;
    if kept.len() > MAX_INTAKE_PREVIEWS {
        let excess: usize = kept.len() - MAX_INTAKE_PREVIEWS;
        let mut dropped: usize = 0;
        while dropped < excess
            invariant
                dropped <= excess,
                excess == fresh.len() - MAX_INTAKE_PREVIEWS,
                kept@.len() == fresh.len() - dropped,
                drop_oldest(fresh, excess as nat) == drop_oldest(kept@, (excess - dropped) as nat),
            decreases excess - dropped,
        {
            let k = oldest_index(&kept);
            proof {
                let c = choose|c: int| is_oldest(kept@, c);
                lemma_oldest_unique(kept@, k as int, c);
                assert(drop_oldest(kept@, (excess - dropped) as nat) == drop_oldest(
                    kept@.remove(k as int),
                    (excess - dropped - 1) as nat,
                ));
            }
            kept.remove(k);
            dropped = dropped + 1;
        }
        proof {
            assert(drop_oldest(kept@, 0) == kept@);
        }
    }
    kept
}

/// Preview `i` is the first with the fingerprint.
pub open spec fn first_preview(ps: Seq<LoopxIntakePreview>, fingerprint: Seq<char>, i: int) -> bool {
    &&& 0 <= i < ps.len()
    &&& ps[i].fingerprint@ == fingerprint
    &&& forall|j: int| 0 <= j < i ==> (#[trigger] ps[j]).fingerprint@ != fingerprint
}

/// The previews with `p` stored under its fingerprint: it replaces the one
/// with the same fingerprint, or joins at the end.
pub open spec fn with_preview(ps: Seq<LoopxIntakePreview>, p: LoopxIntakePreview) -> Seq<LoopxIntakePreview> {
    if exists|i: int| first_preview(ps, p.fingerprint@, i) {
        ps.update(choose|i: int| first_preview(ps, p.fingerprint@, i), p)
    } else {
        ps.push(p)
    }
}

/// The position of the preview with the fingerprint, if any.
pub fn find_preview(previews: &Vec<LoopxIntakePreview>, fingerprint: &str) -> (res: Option<usize>)
    ensures
        match res {
            Some(i) => first_preview(previews@, fingerprint@, i as int),
            None => forall|j: int| 0 <= j < previews@.len() ==> (#[trigger] previews@[j]).fingerprint@ != fingerprint@,
        },
{
    let mut i: usize = 0;
    while i < previews.len()
        invariant
            i <= previews@.len(),
            forall|j: int| 0 <= j < i ==> (#[trigger] previews@[j]).fingerprint@ != fingerprint@,
        decreases previews@.len() - i,
    {
        if str_eq(previews[i].fingerprint.as_str(), fingerprint) {
            return Some(i);
        }
        i = i + 1;
    }
    None
}

proof fn lemma_first_preview_unique(ps: Seq<LoopxIntakePreview>, f: Seq<char>, i: int, j: int)
    requires
        first_preview(ps, f, i),
        first_preview(ps, f, j),
    ensures
        i == j,
{
    if i < j {
        assert(ps[i].fingerprint@ != f);
    } else if j < i {
        assert(ps[j].fingerprint@ != f);
    }
}

/// Stores a resolved preview: the previews are pruned, the new one stored
/// under its fingerprint, and the previews pruned again.
pub fn remember_preview(previews: Vec<LoopxIntakePreview>, preview: LoopxIntakePreview, now_ms: i64) -> (res:
    Vec<LoopxIntakePreview>)
    ensures
        res@ == pruned_previews(with_preview(pruned_previews(previews@, now_ms), preview), now_ms),
{
    let mut kept = prune_intake_previews(previews, now_ms);
    let ghost before = kept@;
    match find_preview(&kept, preview.fingerprint.as_str()) {
        Some(i) => {
            proof {
                let c = choose|c: int| first_preview(before, preview.fingerprint@, c);
                lemma_first_preview_unique(before, preview.fingerprint@, i as int, c);
            }
            kept.set(i, preview);
        },
        None => {
            kept.push(preview);
        },
    }
    prune_intake_previews(kept, now_ms)
}


// ---------------------------------------------------------------------------
// A creation request, from start to end.
// ---------------------------------------------------------------------------

/// `keys` is the selection of `items`: each selected item once, in key order.
pub open spec fn selection_of(items: Seq<LoopxIssueKey>, keys: Seq<LoopxIssueKey>) -> bool {
    &&& keys_increasing(keys)
    &&& forall|k: int| 0 <= k < items.len() ==> has_key(keys, #[trigger] items[k]@)
    &&& forall|i: int| 0 <= i < keys.len() ==> has_key(items, #[trigger] keys[i]@)
}

/// The error of the first check a creation request fails before its preview
/// is looked up, if any.
pub open spec fn precheck_error(request: LoopxCreateTaskRequest, suspended: bool) -> Option<Seq<char>> {
    if trim(request.client_request_id@).len() == 0 {
        Some("clientRequestId is required"@)
    } else if suspended {
        Some("LoopX is stopped; resume the suite before creating tasks"@)
    } else if request.selected_items@.len() == 0 {
        Some("Select at least one issue or pull request"@)
    } else {
        None
    }
}

/// The preview stored under the fingerprint, if any.
pub open spec fn preview_under(ps: Seq<LoopxIntakePreview>, fingerprint: Seq<char>) -> Option<
    LoopxIntakePreview,
> {
    if exists|i: int| first_preview(ps, fingerprint, i) {
        Some(ps[choose|i: int| first_preview(ps, fingerprint, i)])
    } else {
        None
    }
}

/// The outcomes answer a request already applied: each selected item opens
/// its latest task again.
pub open spec fn replayed(
    outcomes: Seq<LoopxCreateTaskOutcome>,
    selected: Seq<LoopxIssueKey>,
    tasks: Seq<LoopxTaskSnapshot>,
) -> bool {
    &&& outcomes.len() == selected.len()
    &&& forall|k: int| 0 <= k < selected.len() ==> reopened_outcome(#[trigger] outcomes[k], selected[k], tasks)
}

/// The answer to a new creation request with the selection `selected` and the
/// preview found for it: the error of the first preview check it fails, with
/// nothing changed; else the tasks are created, and the response holds their
/// outcomes at the new revision, with the created tasks that head their
/// repository's lane to start now.
pub open spec fn admitted_request(
    pre: LoopxPersistedState,
    post: LoopxPersistedState,
    res: Result<(LoopxCreateTaskResponse, Vec<String>), String>,
    request: LoopxCreateTaskRequest,
    selected: Seq<LoopxIssueKey>,
    preview: Option<LoopxIntakePreview>,
    now_ms: i64,
) -> bool {
    match preview_error(request, selected, preview) {
        Some(e) => res matches Err(m) && m@ == e && post == pre,
        None => res matches Ok(r) && exists|c: LoopxCreation|
            #[trigger] creation_applied(pre, post, c, request, selected, preview->0, now_ms)
                && r.0.outcomes == c.outcomes && r.0.snapshot_revision == post.revision
                && r.1@.map_values(|s: String| s@) == lane_heads(
                post.tasks@,
                c.created_task_ids@.map_values(|s: String| s@),
            ),
    }
}

impl LoopxPersistedState {
    /// Handles a creation request from start to end. The first checks come
    /// first; a request already applied is then answered from the existing
    /// tasks at the current revision, with nothing changed. Otherwise the
    /// previews are pruned, the request is checked against the preview stored
    /// under its fingerprint, and the tasks are created. On success, the
    /// response and the created tasks to start now.
    pub fn create_tasks(
        &mut self,
        previews: &mut Vec<LoopxIntakePreview>,
        request: &LoopxCreateTaskRequest,
        now_ms: i64,
    ) -> (res: Result<(LoopxCreateTaskResponse, Vec<String>), String>)
        ensures
            precheck_error(*request, old(self).suspended) matches Some(e) ==> {
                &&& res matches Err(m) && m@ == e
                &&& *final(self) == *old(self)
                &&& final(previews)@ == old(previews)@
            },
            precheck_error(*request, old(self).suspended) is None && knows_request(
                old(self).processed_request_ids@,
                request.client_request_id@,
            ) ==> {
                &&& *final(self) == *old(self)
                &&& final(previews)@ == old(previews)@
                &&& res matches Ok(r) && r.1@.len() == 0 && r.0.snapshot_revision == old(self).revision
                    && exists|sel: Seq<LoopxIssueKey>|
                    #[trigger] selection_of(request.selected_items@, sel) && replayed(
                        r.0.outcomes@,
                        sel,
                        old(self).tasks@,
                    )
            },
            precheck_error(*request, old(self).suspended) is None && !knows_request(
                old(self).processed_request_ids@,
                request.client_request_id@,
            ) ==> {
                &&& final(previews)@ == pruned_previews(old(previews)@, now_ms)
                &&& exists|sel: Seq<LoopxIssueKey>|
                    #[trigger] selection_of(request.selected_items@, sel) && admitted_request(
                        *old(self),
                        *final(self),
                        res,
                        *request,
                        sel,
                        preview_under(final(previews)@, request.preview_fingerprint@),
                        now_ms,
                    )
            },
            res is Ok ==> knows_request(final(self).processed_request_ids@, request.client_request_id@),
    {
        let selected = match precheck_create_request(request, self.suspended) {
            Ok(keys) => keys,
            Err(e) => return Err(e),
        };
        assert(selection_of(request.selected_items@, selected@));
        match self.replay_create_request(request, selected.as_slice()) {
            Some(response) => {
                return Ok((response, Vec::new()));
            },
            None => {},
        }
        let mut taken: Vec<LoopxIntakePreview> = Vec::new();
        std::mem::swap(&mut taken, previews);
        *previews = prune_intake_previews(taken, now_ms);
        let ghost pruned = previews@;
        let found = find_preview(previews, request.preview_fingerprint.as_str());
        let ghost chosen = preview_under(pruned, request.preview_fingerprint@);
        let preview: Option<&LoopxIntakePreview> = match found {
            Some(i) => {
                proof {
                    let j = choose|j: int| first_preview(pruned, request.preview_fingerprint@, j);
                    lemma_first_preview_unique(pruned, request.preview_fingerprint@, i as int, j);
                }
                Some(&previews[i])
            },
            None => None,
        };
        assert(preview matches Some(p) ==> chosen == Some(*p));
        assert(preview is None ==> chosen is None);
        let ghost pre = *self;
        match check_against_preview(request, selected.as_slice(), preview) {
            Ok(()) => {},
            Err(e) => {
                return Err(e);
            },
        }
        let preview = match preview {
            Some(p) => p,
            None => {
                return Err("Intake preview is missing or stale; resolve it again".to_owned());
            },
        };
        let creation = self.reserve_tasks(request, selected.as_slice(), preview, now_ms);
        let to_start = self.lane_heads_of(creation.created_task_ids.as_slice());
        let revision = self.revision;
        let res = Ok((LoopxCreateTaskResponse { outcomes: creation.outcomes, snapshot_revision: revision }, to_start));
        assert(creation_applied(pre, *self, creation, *request, selected@, *preview, now_ms));
        proof {
            lemma_trim_empty_iff_blank(request.client_request_id@);
            lemma_applied_request_is_known(pre.processed_request_ids@, request.client_request_id);
        }
        res
    }
}

} // verus!
