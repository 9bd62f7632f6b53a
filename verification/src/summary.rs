//! Reading agent summaries: the resolved-upstream heuristic, monitor-class
//! action kinds, repository recovery candidates and the `loopx_summary_v1`
//! structured block.

use vstd::prelude::*;

use crate::text::{
    chars_of, ends_with, ends_with_exec, find_first, first_occurrence, starts_with,
    starts_with_exec, string_from_chars, string_from_range, trim, trim_chars, str_eq,
};
use crate::types::{LoopxTaskSnapshot, LoopxTaskState};

verus! {

/// The outcome of compiling `pattern` with `regex::Regex::new` and, when it
/// compiles, matching it against `haystack` with `Regex::is_match`.
pub uninterp spec fn regex_search_outcome(pattern: Seq<char>, haystack: Seq<char>) -> Option<bool>;

/// Compiles `pattern` with `regex::Regex::new` and reports whether it matches
/// anywhere in `haystack` (`Regex::is_match`); `None` when the pattern does not
/// compile. The contract claims only that the outcome is a function of the
/// pattern and the haystack.
#[verifier::external_body]
fn regex_search(pattern: &str, haystack: &str) -> (res: Option<bool>)
    ensures
        res == regex_search_outcome(pattern@, haystack@),
{
    regex::Regex::new(pattern).ok().map(|re| re.is_match(haystack))
}

/// The English resolved-upstream conclusion.
pub open spec fn upstream_pattern_en() -> Seq<char> {
    "(?is)covered[-_ ]?upstream.{0,80}no[-_ ]?follow[-_ ]?up"@
}

/// The Chinese resolved-upstream conclusion.
pub open spec fn upstream_pattern_zh() -> Seq<char> {
    "(?is)原始故障路径.{0,40}(?:消失|移除).{0,120}(?:不开\\s*PR|无需.{0,20}修复)"@
}

/// Whether a pattern compiles and matches.
pub open spec fn pattern_hits(pattern: Seq<char>, text: Seq<char>) -> bool {
    regex_search_outcome(pattern, text) == Some(true)
}

/// Whether an agent summary concludes that the failure was already fixed
/// upstream, with no follow-up work.
pub open spec fn spec_resolves_upstream(summary: Option<Seq<char>>) -> bool {
    match summary {
        None => false,
        Some(s) => {
            let t = trim(s);
            t.len() > 0 && (pattern_hits(upstream_pattern_en(), t) || pattern_hits(
                upstream_pattern_zh(),
                t,
            ))
        },
    }
}

/// The view of an optional string slice.
pub open spec fn opt_str_view(s: Option<&str>) -> Option<Seq<char>> {
    match s {
        Some(v) => Some(v@),
        None => None,
    }
}

/// The view of an optional string.
pub open spec fn opt_string_view(s: Option<String>) -> Option<Seq<char>> {
    match s {
        Some(v) => Some(v@),
        None => None,
    }
}

/// The agent concluded the reported failure was already fixed upstream, so the
/// issue needs no follow-up work. Such tasks are excluded from the repository
/// recovery candidates: resuming them would only re-run a no-op investigation.
pub fn task_summary_resolves_upstream(summary: Option<&str>) -> (res: bool)
    ensures
        res == spec_resolves_upstream(opt_str_view(summary)),
{
    let summary = match summary {
        None => return false,
        Some(s) => s,
    };
    let chars = chars_of(summary);
    let trimmed_chars = trim_chars(&chars);
    if trimmed_chars.len() == 0 {
        return false;
    }
    let trimmed = string_from_range(&trimmed_chars, 0, trimmed_chars.len());
    assert(trimmed_chars@.subrange(0, trimmed_chars@.len() as int) =~= trimmed_chars@);
    let en = "(?is)covered[-_ ]?upstream.{0,80}no[-_ ]?follow[-_ ]?up";
    let zh = "(?is)原始故障路径.{0,40}(?:消失|移除).{0,120}(?:不开\\s*PR|无需.{0,20}修复)";
    if let Some(true) = regex_search(en, trimmed.as_str()) {
        return true;
    }
    match regex_search(zh, trimmed.as_str()) {
        Some(hit) => hit,
        None => false,
    }
}

/// Monitor-class action kinds: `*_monitor` and the `issue_fix_track_*`
/// merge-readiness trackers, after trimming.
pub open spec fn spec_is_monitor_action(kind: Seq<char>) -> bool {
    let k = trim(kind);
    k.len() > 0 && (ends_with(k, "_monitor"@) || starts_with(k, "issue_fix_track_"@))
}

/// Classifies a LoopX action kind as monitor-class: the todo waits for an
/// external event the agent cannot advance itself (PR merge readiness, PR
/// state watches, continuous monitoring).
pub fn is_loopx_monitor_action(action_kind: &str) -> (res: bool)
    ensures
        res == spec_is_monitor_action(action_kind@),
{
    let chars = chars_of(action_kind);
    let kind = trim_chars(&chars);
    if kind.len() == 0 {
        return false;
    }
    let suffix = chars_of("_monitor");
    let prefix = chars_of("issue_fix_track_");
    ends_with_exec(&kind, &suffix) || starts_with_exec(&kind, &prefix)
}

/// Task states a repository resume may requeue.
pub open spec fn is_resumable_state(state: LoopxTaskState) -> bool {
    state == LoopxTaskState::Stopped || state == LoopxTaskState::Failed || state
        == LoopxTaskState::RecoveryRequired
}

/// A repository resume candidate, given whether its summary resolves upstream.
pub open spec fn spec_recovery_candidate(
    task: LoopxTaskSnapshot,
    repository_id: Seq<char>,
    resolved_upstream: bool,
) -> bool {
    task.identity.item@.repository.canonical_id() == repository_id && is_resumable_state(
        task.state,
    ) && !resolved_upstream
}

/// Repository resume candidacy once the summary heuristic has been evaluated:
/// same repository, a resumable state, and not resolved upstream.
pub fn recovery_candidate_given_resolution(
    task: &LoopxTaskSnapshot,
    repository_id: &str,
    resolved_upstream: bool,
) -> (res: bool)
    ensures
        res == spec_recovery_candidate(*task, repository_id@, resolved_upstream),
{
    let id = task.identity.item.repository.canonical_id();
    if !str_eq(id.as_str(), repository_id) {
        return false;
    }
    let resumable = match task.state {
        LoopxTaskState::Stopped | LoopxTaskState::Failed | LoopxTaskState::RecoveryRequired => true,
        _ => false,
    };
    resumable && !resolved_upstream
}

/// Repository resume candidates: resumable states on the same repository that
/// the agent has not already concluded are resolved upstream.
pub fn decide_repository_recovery_candidate(task: &LoopxTaskSnapshot, repository_id: &str) -> (res:
    bool)
    ensures
        res == spec_recovery_candidate(
            *task,
            repository_id@,
            spec_resolves_upstream(opt_string_view(task.last_agent_summary)),
        ),
{
    let resolved = match &task.last_agent_summary {
        Some(s) => task_summary_resolves_upstream(Some(s.as_str())),
        None => task_summary_resolves_upstream(None),
    };
    recovery_candidate_given_resolution(task, repository_id, resolved)
}

// ---------------------------------------------------------------------------
// The `loopx_summary_v1` block.
// ---------------------------------------------------------------------------

/// A member of a JSON object, as far as the schema check reads it.
#[derive(Debug, Clone, PartialEq, Eq)]
pub enum JsonMember {
    Missing,
    Text(String),
    List(usize),
    Other,
}

/// Mathematical value of a member.
pub enum JsonMemberView {
    Missing,
    Text(Seq<char>),
    List(nat),
    Other,
}

impl View for JsonMember {
    type V = JsonMemberView;

    open spec fn view(&self) -> JsonMemberView {
        match self {
            JsonMember::Missing => JsonMemberView::Missing,
            JsonMember::Text(s) => JsonMemberView::Text(s@),
            JsonMember::List(n) => JsonMemberView::List(*n as nat),
            JsonMember::Other => JsonMemberView::Other,
        }
    }
}

/// What `serde_json` yields for member `key` of the JSON text `text` parsed as
/// a `serde_json::Value` (missing when the text is not a JSON object).
pub uninterp spec fn json_member_of(text: Seq<char>, key: Seq<char>) -> JsonMemberView;

/// Parses `text` with `serde_json::from_str::<serde_json::Value>` and looks up
/// `key` with `Value::get`, telling apart a string, an array (by its length)
/// and any other value. The contract claims only that the result is a
/// function of the text and the key.
#[verifier::external_body]
fn json_text_member(text: &str, key: &str) -> (res: JsonMember)
    ensures
        res@ == json_member_of(text@, key@),
{
    match serde_json::from_str::<serde_json::Value>(text).ok().as_ref().and_then(|v| v.get(key)) {
        None => JsonMember::Missing,
        Some(serde_json::Value::String(s)) => JsonMember::Text(s.clone()),
        Some(serde_json::Value::Array(items)) => JsonMember::List(items.len()),
        Some(_) => JsonMember::Other,
    }
}

/// The members of a summary block that the schema constrains.
#[derive(Debug, Clone, PartialEq, Eq)]
pub struct LoopxSummaryMembers {
    pub issue_verdict: JsonMember,
    pub fixed_by: JsonMember,
    pub wont_fix_reason: JsonMember,
    pub missing_info: JsonMember,
    pub reproduction: JsonMember,
    pub reproduction_evidence: JsonMember,
    pub segment_kind: JsonMember,
}

/// A string member's text, or the empty text.
pub open spec fn text_or_empty(m: JsonMemberView) -> Seq<char> {
    match m {
        JsonMemberView::Text(s) => s,
        _ => Seq::empty(),
    }
}

pub open spec fn is_summary_verdict(v: Seq<char>) -> bool {
    v == "needs_fix"@ || v == "already_fixed_upstream"@ || v == "wont_fix"@ || v == "needs_info"@
}

pub open spec fn is_summary_reproduction(v: Seq<char>) -> bool {
    v == "reproduced"@ || v == "not_reproduced"@ || v == "not_applicable"@
}

pub open spec fn is_summary_segment_kind(v: Seq<char>) -> bool {
    v == "evidence"@ || v == "route_decision"@ || v == "implementation"@ || v == "validation"@
        || v == "delivery"@
}

/// The `loopx_summary_v1` schema over the members: a known verdict with its
/// conditional evidence, a known reproduction (with evidence when
/// reproduced) and a known segment kind, where present as strings.
pub open spec fn spec_summary_members_valid(
    verdict: JsonMemberView,
    fixed_by: JsonMemberView,
    wont_fix_reason: JsonMemberView,
    missing_info: JsonMemberView,
    reproduction: JsonMemberView,
    reproduction_evidence: JsonMemberView,
    segment_kind: JsonMemberView,
) -> bool {
    &&& verdict matches JsonMemberView::Text(v)
    &&& is_summary_verdict(text_or_empty(verdict))
    &&& (text_or_empty(verdict) == "already_fixed_upstream"@ ==> trim(text_or_empty(fixed_by)).len()
        > 0)
    &&& (text_or_empty(verdict) == "wont_fix"@ ==> trim(text_or_empty(wont_fix_reason)).len() > 0)
    &&& (text_or_empty(verdict) == "needs_info"@ ==> (missing_info matches JsonMemberView::List(n)
        && n > 0))
    &&& (reproduction matches JsonMemberView::Text(r) ==> is_summary_reproduction(r) && (r
        == "reproduced"@ ==> trim(text_or_empty(reproduction_evidence)).len() > 0))
    &&& (segment_kind matches JsonMemberView::Text(k) ==> is_summary_segment_kind(k))
}

fn text_is_one_of(v: &str, options: &[&str]) -> (res: bool)
    ensures
        res == exists|i: int| 0 <= i < options@.len() && options@[i]@ == v@,
{
    let mut i: usize = 0;
    while i < options.len()
        invariant
            i <= options@.len(),
            forall|j: int| 0 <= j < i ==> options@[j]@ != v@,
        decreases options@.len() - i,
    {
        if str_eq(options[i], v) {
            assert(options@[i as int]@ == v@);
            return true;
        }
        i = i + 1;
    }
    false
}

fn member_text_is_blank(m: &JsonMember) -> (res: bool)
    ensures
        res == (trim(text_or_empty(m@)).len() == 0),
{
    match m {
        JsonMember::Text(s) => {
            let chars = chars_of(s.as_str());
            let t = trim_chars(&chars);
            t.len() == 0
        },
        _ => {
            assert(trim(Seq::<char>::empty()) =~= Seq::<char>::empty()) by {
                crate::text::lemma_trim_empty_iff_blank(Seq::<char>::empty());
            }
            true
        },
    }
}

/// Checks the members of a summary block against the `loopx_summary_v1` schema.
pub fn summary_members_valid(members: &LoopxSummaryMembers) -> (res: bool)
    ensures
        res == spec_summary_members_valid(
            members.issue_verdict@,
            members.fixed_by@,
            members.wont_fix_reason@,
            members.missing_info@,
            members.reproduction@,
            members.reproduction_evidence@,
            members.segment_kind@,
        ),
{
    let verdict = match &members.issue_verdict {
        JsonMember::Text(v) => v.as_str(),
        _ => return false,
    };
    let ghost v = verdict@;
    let verdicts = ["needs_fix", "already_fixed_upstream", "wont_fix", "needs_info"];
    proof {
        reveal_strlit("needs_fix");
        reveal_strlit("already_fixed_upstream");
        reveal_strlit("wont_fix");
        reveal_strlit("needs_info");
        assert("already_fixed_upstream"@.len() == 22);
        assert("wont_fix"@.len() == 8);
        assert("needs_info"@.len() == 10);
    }
    let known = text_is_one_of(verdict, &verdicts);
    proof {
        if known {
            let i = choose|i: int| 0 <= i < verdicts@.len() && verdicts@[i]@ == v;
            assert(is_summary_verdict(v));
        } else {
            assert(verdicts@[0]@ == "needs_fix"@);
            assert(verdicts@[1]@ == "already_fixed_upstream"@);
            assert(verdicts@[2]@ == "wont_fix"@);
            assert(verdicts@[3]@ == "needs_info"@);
            assert(!is_summary_verdict(v));
        }
    }
    if !known {
        return false;
    }
    if str_eq(verdict, "already_fixed_upstream") {
        if member_text_is_blank(&members.fixed_by) {
            return false;
        }
    } else if str_eq(verdict, "wont_fix") {
        if member_text_is_blank(&members.wont_fix_reason) {
            return false;
        }
    } else if str_eq(verdict, "needs_info") {
        match &members.missing_info {
            JsonMember::List(n) => {
                if *n == 0 {
                    return false;
                }
            },
            _ => return false,
        }
    }
    if let JsonMember::Text(r) = &members.reproduction {
        let reproductions = ["reproduced", "not_reproduced", "not_applicable"];
        proof {
            reveal_strlit("reproduced");
            reveal_strlit("not_reproduced");
            reveal_strlit("not_applicable");
        }
        let ok = text_is_one_of(r.as_str(), &reproductions);
        proof {
            assert(reproductions@[0]@ == "reproduced"@);
            if ok {
                let i = choose|i: int| 0 <= i < reproductions@.len() && reproductions@[i]@ == r@;
                assert(is_summary_reproduction(r@));
            } else {
                assert(reproductions@[1]@ == "not_reproduced"@);
                assert(reproductions@[2]@ == "not_applicable"@);
            }
        }
        if !ok {
            return false;
        }
        if str_eq(r.as_str(), "reproduced") {
            if member_text_is_blank(&members.reproduction_evidence) {
                return false;
            }
        }
    }
    if let JsonMember::Text(k) = &members.segment_kind {
        let kinds = ["evidence", "route_decision", "implementation", "validation", "delivery"];
        proof {
            reveal_strlit("evidence");
            reveal_strlit("route_decision");
            reveal_strlit("implementation");
            reveal_strlit("validation");
            reveal_strlit("delivery");
        }
        let ok = text_is_one_of(k.as_str(), &kinds);
        proof {
            if ok {
                let i = choose|i: int| 0 <= i < kinds@.len() && kinds@[i]@ == k@;
                assert(is_summary_segment_kind(k@));
            } else {
                assert(kinds@[0]@ == "evidence"@);
                assert(kinds@[1]@ == "route_decision"@);
                assert(kinds@[2]@ == "implementation"@);
                assert(kinds@[3]@ == "validation"@);
                assert(kinds@[4]@ == "delivery"@);
            }
        }
        if !ok {
            return false;
        }
    }
    true
}

/// The fence that opens a structured summary block.
pub open spec fn summary_fence() -> Seq<char> {
    "```loopx_summary_v1"@
}

/// The trimmed body of the first `loopx_summary_v1` block: the text after the
/// line that opens the fence, up to the next closing fence.
pub open spec fn summary_block(s: Seq<char>) -> Option<Seq<char>> {
    match first_occurrence(s, summary_fence(), 0) {
        None => None,
        Some(start) => match first_occurrence(s, seq!['\n'], start) {
            None => None,
            Some(nl) => match first_occurrence(s, "```"@, nl + 1) {
                None => None,
                Some(end) => Some(trim(s.subrange(nl + 1, end))),
            },
        },
    }
}

/// The schema check applied to the members `serde_json` finds in `body`.
pub open spec fn body_satisfies_schema(body: Seq<char>) -> bool {
    spec_summary_members_valid(
        json_member_of(body, "issue_verdict"@),
        json_member_of(body, "fixed_by"@),
        json_member_of(body, "wont_fix_reason"@),
        json_member_of(body, "missing_info"@),
        json_member_of(body, "reproduction"@),
        json_member_of(body, "reproduction_evidence"@),
        json_member_of(body, "segment_kind"@),
    )
}

/// The validated block body of a summary, if any.
pub open spec fn spec_parse_structured_summary(summary: Option<Seq<char>>) -> Option<Seq<char>> {
    match summary {
        None => None,
        Some(s) => match summary_block(s) {
            None => None,
            Some(body) => if body_satisfies_schema(body) {
                Some(body)
            } else {
                None
            },
        },
    }
}

/// Extracts the trimmed body of the first `loopx_summary_v1` fenced block.
pub fn structured_summary_block(summary: &str) -> (res: Option<String>)
    ensures
        opt_string_view(res) == summary_block(summary@),
{
    let chars = chars_of(summary);
    let fence = chars_of("```loopx_summary_v1");
    let newline = vec!['\n'];
    assert(newline@ =~= seq!['\n']);
    let close = chars_of("```");
    let start = match find_first(&chars, &fence, 0) {
        None => return None,
        Some(i) => i,
    };
    let nl = match find_first(&chars, &newline, start) {
        None => return None,
        Some(i) => i,
    };
    proof {
        assert(first_occurrence(chars@, newline@, start as int) == Some(nl as int));
        assert(exists|k: int| crate::text::is_first_occurrence(chars@, newline@, start as int, k));
        let k = choose|k: int| crate::text::is_first_occurrence(chars@, newline@, start as int, k);
        assert(k == nl as int);
        assert(crate::text::occurs_at(chars@, newline@, k));
        assert(newline@.len() == 1);
    }
    assert(nl < chars.len());
    let body_start = nl + 1;
    let end = match find_first(&chars, &close, body_start) {
        None => return None,
        Some(i) => i,
    };
    let raw = string_from_range(&chars, body_start, end);
    let raw_chars = chars_of(raw.as_str());
    let body = trim_chars(&raw_chars);
    Some(string_from_chars(&body))
}

/// Reads the members that the schema constrains.
fn read_summary_members(body: &str) -> (res: LoopxSummaryMembers)
    ensures
        res.issue_verdict@ == json_member_of(body@, "issue_verdict"@),
        res.fixed_by@ == json_member_of(body@, "fixed_by"@),
        res.wont_fix_reason@ == json_member_of(body@, "wont_fix_reason"@),
        res.missing_info@ == json_member_of(body@, "missing_info"@),
        res.reproduction@ == json_member_of(body@, "reproduction"@),
        res.reproduction_evidence@ == json_member_of(body@, "reproduction_evidence"@),
        res.segment_kind@ == json_member_of(body@, "segment_kind"@),
{
    LoopxSummaryMembers {
        issue_verdict: json_text_member(body, "issue_verdict"),
        fixed_by: json_text_member(body, "fixed_by"),
        wont_fix_reason: json_text_member(body, "wont_fix_reason"),
        missing_info: json_text_member(body, "missing_info"),
        reproduction: json_text_member(body, "reproduction"),
        reproduction_evidence: json_text_member(body, "reproduction_evidence"),
        segment_kind: json_text_member(body, "segment_kind"),
    }
}

/// Extract and validate the `loopx_summary_v1` fenced JSON block from an agent
/// summary. Returns `None` when the block is absent or violates the schema
/// (unknown enum value, or a verdict missing its conditional evidence); the
/// caller then falls back to rendering the raw text. The block is returned as
/// its JSON text.
pub fn parse_structured_summary(summary: Option<&str>) -> (res: Option<String>)
    ensures
        opt_string_view(res) == spec_parse_structured_summary(opt_str_view(summary)),
{
    let summary = match summary {
        None => return None,
        Some(s) => s,
    };
    let body = match structured_summary_block(summary) {
        None => return None,
        Some(b) => b,
    };
    let members = read_summary_members(body.as_str());
    if summary_members_valid(&members) {
        Some(body)
    } else {
        None
    }
}

} // verus!
