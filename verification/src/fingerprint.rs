//! The intake fingerprint: a digest of everything a confirmed intake depends
//! on, independent of the order in which candidates were listed.

use sha2::Digest;
use vstd::prelude::*;
use vstd::relations::{sorted_by, total_ordering};

use crate::text::chars_of;
use crate::types::{
    IntakeTargetView, LoopxIntakeCandidate, LoopxIntakeTarget, LoopxPermissionScope,
    LoopxRemoteItemState,
};

verus! {

broadcast use vstd::seq_lib::group_to_multiset_ensures;

// ---------------------------------------------------------------------------
// Text order.
// ---------------------------------------------------------------------------

/// Lexicographic order on texts by code point (the order of `String`, whose
/// UTF-8 bytes compare as their code points do).
pub open spec fn text_leq(a: Seq<char>, b: Seq<char>) -> bool
    decreases a.len(),
{
    if a.len() == 0 {
        true
    } else if b.len() == 0 {
        false
    } else if a[0] != b[0] {
        (a[0] as u32) < (b[0] as u32)
    } else {
        text_leq(a.drop_first(), b.drop_first())
    }
}

/// `text_leq` as a relation value.
pub open spec fn text_order() -> spec_fn(Seq<char>, Seq<char>) -> bool {
    |a: Seq<char>, b: Seq<char>| text_leq(a, b)
}

pub(crate) proof fn lemma_text_leq_reflexive(a: Seq<char>)
    ensures
        text_leq(a, a),
    decreases a.len(),
{
    if a.len() > 0 {
        lemma_text_leq_reflexive(a.drop_first());
    }
}

pub(crate) proof fn lemma_text_leq_antisymmetric(a: Seq<char>, b: Seq<char>)
    requires
        text_leq(a, b),
        text_leq(b, a),
    ensures
        a == b,
    decreases a.len(),
{
    if a.len() > 0 && b.len() > 0 {
        if a[0] == b[0] {
            lemma_text_leq_antisymmetric(a.drop_first(), b.drop_first());
            assert(a =~= seq![a[0]] + a.drop_first());
            assert(b =~= seq![b[0]] + b.drop_first());
        }
    }
    assert(a =~= b);
}

pub(crate) proof fn lemma_text_leq_transitive(a: Seq<char>, b: Seq<char>, c: Seq<char>)
    requires
        text_leq(a, b),
        text_leq(b, c),
    ensures
        text_leq(a, c),
    decreases a.len(),
{
    if a.len() > 0 && b.len() > 0 && c.len() > 0 {
        if a[0] == b[0] && b[0] == c[0] {
            lemma_text_leq_transitive(a.drop_first(), b.drop_first(), c.drop_first());
        }
    }
}

pub(crate) proof fn lemma_text_leq_total(a: Seq<char>, b: Seq<char>)
    ensures
        text_leq(a, b) || text_leq(b, a),
    decreases a.len(),
{
    if a.len() > 0 && b.len() > 0 {
        if a[0] == b[0] {
            lemma_text_leq_total(a.drop_first(), b.drop_first());
        } else {
            vstd::utf8::char_u32_cast(a[0], a[0] as u32);
            vstd::utf8::char_u32_cast(b[0], b[0] as u32);
        }
    }
}

/// The text order is a total order.
pub proof fn lemma_text_order_total()
    ensures
        total_ordering(text_order()),
{
    assert forall|a: Seq<char>| #[trigger] text_order()(a, a) by {
        lemma_text_leq_reflexive(a);
    }
    assert forall|a: Seq<char>, b: Seq<char>|
        #[trigger] text_order()(a, b) && #[trigger] text_order()(b, a) implies a == b by {
        lemma_text_leq_antisymmetric(a, b);
    }
    assert forall|a: Seq<char>, b: Seq<char>, c: Seq<char>|
        #[trigger] text_order()(a, b) && #[trigger] text_order()(b, c) implies text_order()(
        a,
        c,
    ) by {
        lemma_text_leq_transitive(a, b, c);
    }
    assert forall|a: Seq<char>, b: Seq<char>|
        #[trigger] text_order()(a, b) || #[trigger] text_order()(b, a) by {
        lemma_text_leq_total(a, b);
    }
}

/// Decides `text_leq`.
pub(crate) fn text_le(a: &[char], b: &[char]) -> (res: bool)
    ensures
        res == text_leq(a@, b@),
{
    let mut i: usize = 0;
    assert(a@.skip(0) =~= a@);
    assert(b@.skip(0) =~= b@);
    while i < a.len() && i < b.len() && a[i] == b[i]
        invariant
            i <= a@.len(),
            i <= b@.len(),
            text_leq(a@, b@) == text_leq(a@.skip(i as int), b@.skip(i as int)),
        decreases a@.len() - i,
    {
        assert(a@.skip(i as int).drop_first() =~= a@.skip(i + 1));
        assert(b@.skip(i as int).drop_first() =~= b@.skip(i + 1));
        i = i + 1;
    }
    if i == a.len() {
        true
    } else if i == b.len() {
        false
    } else {
        let x: u32 = a[i] as u32;
        let y: u32 = b[i] as u32;
        assert(a@.skip(i as int)[0] == a@[i as int]);
        assert(b@.skip(i as int)[0] == b@[i as int]);
        x < y
    }
}

// ---------------------------------------------------------------------------
// Joining.
// ---------------------------------------------------------------------------

/// The parts separated by `sep` (`[&str]::join`).
pub open spec fn join(parts: Seq<Seq<char>>, sep: Seq<char>) -> Seq<char>
    decreases parts.len(),
{
    if parts.len() == 0 {
        Seq::empty()
    } else if parts.len() == 1 {
        parts[0]
    } else {
        join(parts.drop_last(), sep) + sep + parts.last()
    }
}

/// Joins the views of `parts` with `sep`.
fn join_chars(parts: &Vec<Vec<char>>, Ghost(views): Ghost<Seq<Seq<char>>>, sep: &[char]) -> (res:
    Vec<char>)
    requires
        views.len() == parts@.len(),
        forall|k: int| 0 <= k < parts@.len() ==> #[trigger] parts@[k]@ == views[k],
    ensures
        res@ == join(views, sep@),
{
    let mut res: Vec<char> = Vec::new();
    let mut i: usize = 0;
    while i < parts.len()
        invariant
            i <= parts@.len(),
            views.len() == parts@.len(),
            forall|k: int| 0 <= k < parts@.len() ==> #[trigger] parts@[k]@ == views[k],
            res@ == join(views.take(i as int), sep@),
        decreases parts@.len() - i,
    {
        let ghost before = res@;
        if i > 0 {
            let mut j: usize = 0;
            while j < sep.len()
                invariant
                    j <= sep@.len(),
                    res@ == before + sep@.take(j as int),
                decreases sep@.len() - j,
            {
                res.push(sep[j]);
                j = j + 1;
                assert(res@ =~= before + sep@.take(j as int));
            }
            assert(sep@.take(sep@.len() as int) =~= sep@);
        }
        let ghost mid = res@;
        let part = &parts[i];
        let mut j: usize = 0;
        while j < part.len()
            invariant
                j <= part@.len(),
                res@ == mid + part@.take(j as int),
            decreases part@.len() - j,
        {
            res.push(part[j]);
            j = j + 1;
            assert(res@ =~= mid + part@.take(j as int));
        }
        assert(part@.take(part@.len() as int) =~= part@);
        assert(views.take(i + 1).drop_last() =~= views.take(i as int));
        if i == 0 {
            assert(res@ =~= join(views.take(1), sep@));
        }
        i = i + 1;
    }
    assert(views.take(views.len() as int) =~= views);
    res
}

// ---------------------------------------------------------------------------
// The payload.
// ---------------------------------------------------------------------------

/// `Debug` of a remote item state.
pub open spec fn remote_state_name(state: LoopxRemoteItemState) -> Seq<char> {
    match state {
        LoopxRemoteItemState::Open => "Open"@,
        LoopxRemoteItemState::Closed => "Closed"@,
        LoopxRemoteItemState::Merged => "Merged"@,
        LoopxRemoteItemState::Unknown => "Unknown"@,
    }
}

/// `Display` of a boolean.
pub open spec fn bool_text(b: bool) -> Seq<char> {
    if b {
        "true"@
    } else {
        "false"@
    }
}

/// The facts of one candidate: `id:State:has_images:from_repository`.
pub open spec fn item_fact(c: LoopxIntakeCandidate) -> Seq<char> {
    c.key@.canonical_id() + ":"@ + remote_state_name(c.state) + ":"@ + bool_text(c.has_images)
        + ":"@ + bool_text(c.from_repository)
}

/// The facts of every candidate, in the given order.
pub open spec fn item_facts(candidates: Seq<LoopxIntakeCandidate>) -> Seq<Seq<char>> {
    candidates.map_values(fact_of())
}

/// `item_fact` as a function value.
pub open spec fn fact_of() -> spec_fn(LoopxIntakeCandidate) -> Seq<char> {
    |c: LoopxIntakeCandidate| item_fact(c)
}

/// Every permission scope, in declaration order (the derived order).
pub open spec fn all_scopes() -> Seq<LoopxPermissionScope> {
    seq![
        LoopxPermissionScope::WorkspaceRead,
        LoopxPermissionScope::WorkspaceWrite,
        LoopxPermissionScope::GitLocal,
        LoopxPermissionScope::GithubRead,
        LoopxPermissionScope::AgentExecution,
        LoopxPermissionScope::Publish,
        LoopxPermissionScope::PublicComment,
        LoopxPermissionScope::PullRequest,
        LoopxPermissionScope::Merge,
        LoopxPermissionScope::ProductionAction,
    ]
}

/// `Debug` of a permission scope.
pub open spec fn scope_name(scope: LoopxPermissionScope) -> Seq<char> {
    match scope {
        LoopxPermissionScope::WorkspaceRead => "WorkspaceRead"@,
        LoopxPermissionScope::WorkspaceWrite => "WorkspaceWrite"@,
        LoopxPermissionScope::GitLocal => "GitLocal"@,
        LoopxPermissionScope::GithubRead => "GithubRead"@,
        LoopxPermissionScope::AgentExecution => "AgentExecution"@,
        LoopxPermissionScope::Publish => "Publish"@,
        LoopxPermissionScope::PublicComment => "PublicComment"@,
        LoopxPermissionScope::PullRequest => "PullRequest"@,
        LoopxPermissionScope::Merge => "Merge"@,
        LoopxPermissionScope::ProductionAction => "ProductionAction"@,
    }
}

/// Membership in `scopes`, as a predicate.
pub open spec fn member_of(scopes: Seq<LoopxPermissionScope>) -> spec_fn(LoopxPermissionScope) -> bool {
    |s: LoopxPermissionScope| scopes.contains(s)
}

/// `scope_name` as a function value.
pub open spec fn scope_namer() -> spec_fn(LoopxPermissionScope) -> Seq<char> {
    |s: LoopxPermissionScope| scope_name(s)
}

/// The distinct scopes of `scopes` in ascending order: what sorting and
/// deduplicating them yields.
pub open spec fn sorted_distinct_scopes(scopes: Seq<LoopxPermissionScope>) -> Seq<
    LoopxPermissionScope,
> {
    all_scopes().filter(member_of(scopes))
}

/// `Debug` of the sorted distinct scopes: `[A, B]`.
pub open spec fn scopes_text(scopes: Seq<LoopxPermissionScope>) -> Seq<char> {
    "["@ + join(sorted_distinct_scopes(scopes).map_values(scope_namer()), ", "@) + "]"@
}

/// The canonical id of an intake target.
pub open spec fn target_id(target: IntakeTargetView) -> Seq<char> {
    match target {
        IntakeTargetView::Repository(r) => r.canonical_id(),
        IntakeTargetView::Item(i) => i.canonical_id(),
    }
}

/// The text that is digested.
pub open spec fn fingerprint_payload(
    target: IntakeTargetView,
    candidates: Seq<LoopxIntakeCandidate>,
    workspace_path: Seq<char>,
    model_id: Seq<char>,
    scopes: Seq<LoopxPermissionScope>,
) -> Seq<char> {
    "target="@ + target_id(target) + "\nitems="@ + join(
        item_facts(candidates).sort_by(text_order()),
        "|"@,
    ) + "\nworkspace="@ + workspace_path + "\nmodel="@ + model_id + "\nscopes="@ + scopes_text(
        scopes,
    )
}

// ---------------------------------------------------------------------------
// Digest and hex.
// ---------------------------------------------------------------------------

/// The SHA-256 digest (`sha2::Sha256::digest`) of the UTF-8 bytes of a text.
pub uninterp spec fn sha256_of_text(text: Seq<char>) -> Seq<u8>;

/// Digests the UTF-8 bytes of `text` with `sha2::Sha256::digest`; the contract
/// claims that the digest is a function of the text and is 32 bytes long.
#[verifier::external_body]
fn sha256_text(text: &str) -> (res: Vec<u8>)
    ensures
        res@ == sha256_of_text(text@),
        res@.len() == 32,
{
    sha2::Sha256::digest(text.as_bytes()).to_vec()
}

/// A lowercase hexadecimal digit.
pub open spec fn hex_digit(n: int) -> char {
    "0123456789abcdef"@[n]
}

/// Lowercase hexadecimal, two digits per byte, high nibble first.
pub open spec fn hex_text(bytes: Seq<u8>) -> Seq<char>
    decreases bytes.len(),
{
    if bytes.len() == 0 {
        Seq::empty()
    } else {
        hex_text(bytes.drop_last()) + seq![
            hex_digit(bytes.last() as int / 16),
            hex_digit(bytes.last() as int % 16),
        ]
    }
}

/// Encodes bytes as lowercase hexadecimal with `hex::encode`, which writes
/// each byte as two digits from `0123456789abcdef`, high nibble first.
#[verifier::external_body]
fn hex_encode(bytes: &[u8]) -> (res: String)
    ensures
        res@ == hex_text(bytes@),
{
    hex::encode(bytes)
}

/// The fingerprint of a payload.
pub open spec fn fingerprint_of_payload(payload: Seq<char>) -> Seq<char> {
    "sha256:"@ + hex_text(sha256_of_text(payload))
}

/// The intake fingerprint.
pub open spec fn spec_intake_fingerprint(
    target: IntakeTargetView,
    candidates: Seq<LoopxIntakeCandidate>,
    workspace_path: Seq<char>,
    model_id: Seq<char>,
    scopes: Seq<LoopxPermissionScope>,
) -> Seq<char> {
    fingerprint_of_payload(
        fingerprint_payload(target, candidates, workspace_path, model_id, scopes),
    )
}

// ---------------------------------------------------------------------------
// Executable pieces.
// ---------------------------------------------------------------------------

fn push_text(v: &mut Vec<char>, s: &str)
    ensures
        final(v)@ == old(v)@ + s@,
{
    let c = chars_of(s);
    let ghost before = v@;
    let mut i: usize = 0;
    while i < c.len()
        invariant
            i <= c@.len(),
            c@ == s@,
            v@ == before + c@.take(i as int),
        decreases c@.len() - i,
    {
        v.push(c[i]);
        i = i + 1;
        assert(v@ =~= before + c@.take(i as int));
    }
    assert(c@.take(c@.len() as int) =~= c@);
}

fn push_bool(v: &mut Vec<char>, b: bool)
    ensures
        final(v)@ == old(v)@ + bool_text(b),
{
    if b {
        push_text(v, "true");
    } else {
        push_text(v, "false");
    }
}

fn candidate_fact(c: &LoopxIntakeCandidate) -> (res: Vec<char>)
    ensures
        res@ == item_fact(*c),
{
    let id = c.key.canonical_id();
    let mut v = chars_of(id.as_str());
    push_text(&mut v, ":");
    match c.state {
        LoopxRemoteItemState::Open => push_text(&mut v, "Open"),
        LoopxRemoteItemState::Closed => push_text(&mut v, "Closed"),
        LoopxRemoteItemState::Merged => push_text(&mut v, "Merged"),
        LoopxRemoteItemState::Unknown => push_text(&mut v, "Unknown"),
    }
    push_text(&mut v, ":");
    push_bool(&mut v, c.has_images);
    push_text(&mut v, ":");
    push_bool(&mut v, c.from_repository);
    v
}

proof fn lemma_insert_sorted(s: Seq<Seq<char>>, k: int, x: Seq<char>)
    requires
        sorted_by(s, text_order()),
        0 <= k <= s.len(),
        forall|j: int| 0 <= j < k ==> text_leq(#[trigger] s[j], x),
        k < s.len() ==> !text_leq(s[k], x),
    ensures
        sorted_by(s.insert(k, x), text_order()),
{
    lemma_text_order_total();
    let t = s.insert(k, x);
    if k < s.len() {
        lemma_text_leq_total(s[k], x);
    }
    assert forall|i: int, j: int| 0 <= i < j < t.len() implies #[trigger] text_order()(
        t[i],
        t[j],
    ) by {
        if j < k {
            assert(text_order()(s[i], s[j]));
        } else if j == k {
        } else if i < k {
            assert(t[j] == s[j - 1]);
            assert(text_leq(s[k], s[j - 1])) by {
                if k < j - 1 {
                    assert(text_order()(s[k], s[j - 1]));
                } else {
                    lemma_text_leq_reflexive(s[k]);
                }
            }
            lemma_text_leq_transitive(x, s[k], s[j - 1]);
            lemma_text_leq_transitive(s[i], x, s[j - 1]);
        } else if i == k {
            assert(text_leq(s[k], s[j - 1])) by {
                if k < j - 1 {
                    assert(text_order()(s[k], s[j - 1]));
                } else {
                    lemma_text_leq_reflexive(s[k]);
                }
            }
            lemma_text_leq_transitive(x, s[k], s[j - 1]);
        } else {
            assert(text_order()(s[i - 1], s[j - 1]));
        }
    }
}

/// Sorts texts in text order, returning them with their views.
pub(crate) fn sort_texts(facts: Vec<Vec<char>>, Ghost(views): Ghost<Seq<Seq<char>>>) -> (res: (
    Vec<Vec<char>>,
    Ghost<Seq<Seq<char>>>,
))
    requires
        views.len() == facts@.len(),
        forall|k: int| 0 <= k < facts@.len() ==> #[trigger] facts@[k]@ == views[k],
    ensures
        res.1@.len() == res.0@.len(),
        forall|k: int| 0 <= k < res.0@.len() ==> #[trigger] res.0@[k]@ == res.1@[k],
        res.1@ == views.sort_by(text_order()),
{
    let mut sorted: Vec<Vec<char>> = Vec::new();
    let ghost mut s: Seq<Seq<char>> = Seq::empty();
    let mut i: usize = 0;
    while i < facts.len()
        invariant
            i <= facts@.len(),
            views.len() == facts@.len(),
            forall|k: int| 0 <= k < facts@.len() ==> #[trigger] facts@[k]@ == views[k],
            s.len() == sorted@.len(),
            forall|k: int| 0 <= k < sorted@.len() ==> #[trigger] sorted@[k]@ == s[k],
            sorted_by(s, text_order()),
            s.to_multiset() == views.take(i as int).to_multiset(),
        decreases facts@.len() - i,
    {
        let x = facts[i].clone();
        let mut k: usize = 0;
        while k < sorted.len() && text_le(&sorted[k], &x)
            invariant
                k <= sorted@.len(),
                s.len() == sorted@.len(),
                forall|j: int| 0 <= j < sorted@.len() ==> #[trigger] sorted@[j]@ == s[j],
                forall|j: int| 0 <= j < k ==> text_leq(#[trigger] s[j], x@),
            decreases sorted@.len() - k,
        {
            k = k + 1;
        }
        proof {
            lemma_insert_sorted(s, k as int, x@);
            assert(views.take(i + 1) =~= views.take(i as int).push(views[i as int]));
        }
        let ghost old_sorted = sorted@;
        let ghost old_s = s;
        let ghost xv = x@;
        sorted.insert(k, x);
        proof {
            s = s.insert(k as int, xv);
            assert forall|j: int| 0 <= j < sorted@.len() implies #[trigger] sorted@[j]@ == s[j] by {
                if j < k {
                    assert(sorted@[j] == old_sorted[j]);
                } else if j > k {
                    assert(sorted@[j] == old_sorted[j - 1]);
                    assert(old_sorted[j - 1]@ == old_s[j - 1]);
                }
            }
        }
        i = i + 1;
    }
    proof {
        assert(views.take(views.len() as int) =~= views);
        lemma_text_order_total();
        views.lemma_sort_by_ensures(text_order());
        vstd::seq_lib::lemma_sorted_unique(s, views.sort_by(text_order()), text_order());
    }
    (sorted, Ghost(s))
}

fn scope_name_text(scope: LoopxPermissionScope) -> (res: &'static str)
    ensures
        res@ == scope_name(scope),
{
    match scope {
        LoopxPermissionScope::WorkspaceRead => "WorkspaceRead",
        LoopxPermissionScope::WorkspaceWrite => "WorkspaceWrite",
        LoopxPermissionScope::GitLocal => "GitLocal",
        LoopxPermissionScope::GithubRead => "GithubRead",
        LoopxPermissionScope::AgentExecution => "AgentExecution",
        LoopxPermissionScope::Publish => "Publish",
        LoopxPermissionScope::PublicComment => "PublicComment",
        LoopxPermissionScope::PullRequest => "PullRequest",
        LoopxPermissionScope::Merge => "Merge",
        LoopxPermissionScope::ProductionAction => "ProductionAction",
    }
}

fn push_chars(v: &mut Vec<char>, w: &[char])
    ensures
        final(v)@ == old(v)@ + w@,
{
    let ghost before = v@;
    let mut i: usize = 0;
    while i < w.len()
        invariant
            i <= w@.len(),
            v@ == before + w@.take(i as int),
        decreases w@.len() - i,
    {
        v.push(w[i]);
        i = i + 1;
        assert(v@ =~= before + w@.take(i as int));
    }
    assert(w@.take(w@.len() as int) =~= w@);
}

/// `Debug` of the sorted, deduplicated scopes.
fn scopes_debug(scopes: &[LoopxPermissionScope]) -> (res: Vec<char>)
    ensures
        res@ == scopes_text(scopes@),
{
    let all = [
        LoopxPermissionScope::WorkspaceRead,
        LoopxPermissionScope::WorkspaceWrite,
        LoopxPermissionScope::GitLocal,
        LoopxPermissionScope::GithubRead,
        LoopxPermissionScope::AgentExecution,
        LoopxPermissionScope::Publish,
        LoopxPermissionScope::PublicComment,
        LoopxPermissionScope::PullRequest,
        LoopxPermissionScope::Merge,
        LoopxPermissionScope::ProductionAction,
    ];
    assert(all@ =~= all_scopes());
    let ghost pred = member_of(scopes@);
    let mut names: Vec<Vec<char>> = Vec::new();
    let ghost mut picked: Seq<LoopxPermissionScope> = Seq::empty();
    let mut i: usize = 0;
    assert(all_scopes().take(0).filter(pred) =~= Seq::<LoopxPermissionScope>::empty()) by {
        reveal(Seq::filter);
    }
    while i < 10
        invariant
            i <= 10,
            all@ == all_scopes(),
            pred == member_of(scopes@),
            picked == all_scopes().take(i as int).filter(pred),
            names@.len() == picked.len(),
            forall|k: int| 0 <= k < names@.len() ==> #[trigger] names@[k]@ == scope_name(picked[k]),
        decreases 10 - i,
    {
        let scope = all[i];
        let ghost t = all_scopes().take(i + 1);
        assert(t.len() == i + 1);
        assert(t.drop_last() =~= all_scopes().take(i as int));
        assert(t.last() == scope);
        assert(pred(scope) == scopes@.contains(scope));
        reveal(Seq::filter);
        assert(t.filter(pred) == if pred(t.last()) {
            t.drop_last().filter(pred).push(t.last())
        } else {
            t.drop_last().filter(pred)
        });
        if crate::policy::scope_granted(scopes, scope) {
            let name = chars_of(scope_name_text(scope));
            names.push(name);
            proof {
                picked = picked.push(scope);
            }
        }
        i = i + 1;
    }
    assert(all_scopes().take(10) =~= all_scopes());
    let ghost views = picked.map_values(scope_namer());
    let sep = chars_of(", ");
    let joined = join_chars(&names, Ghost(views), &sep);
    let mut res = chars_of("[");
    push_chars(&mut res, &joined);
    push_text(&mut res, "]");
    res
}

/// The payload that the fingerprint digests: the target, the candidates'
/// facts in text order joined by `|`, the workspace path (empty when absent),
/// the model and the sorted distinct scopes.
pub fn intake_fingerprint_payload(
    target: &LoopxIntakeTarget,
    candidates: &[LoopxIntakeCandidate],
    workspace_path: Option<&str>,
    model_id: &str,
    permission_scopes: &[LoopxPermissionScope],
) -> (res: String)
    ensures
        res@ == fingerprint_payload(
            target@,
            candidates@,
            opt_text(workspace_path),
            model_id@,
            permission_scopes@,
        ),
{
    let mut facts: Vec<Vec<char>> = Vec::new();
    let ghost facts_view = item_facts(candidates@);
    let mut i: usize = 0;
    while i < candidates.len()
        invariant
            i <= candidates@.len(),
            facts_view == item_facts(candidates@),
            facts@.len() == i,
            forall|k: int| 0 <= k < i ==> #[trigger] facts@[k]@ == facts_view[k],
        decreases candidates@.len() - i,
    {
        let f = candidate_fact(&candidates[i]);
        facts.push(f);
        i = i + 1;
    }
    let (sorted, Ghost(sorted_view)) = sort_texts(facts, Ghost(facts_view));
    let bar = chars_of("|");
    let items = join_chars(&sorted, Ghost(sorted_view), &bar);
    let target_text = match target {
        LoopxIntakeTarget::Repository { repository } => repository.canonical_id(),
        LoopxIntakeTarget::Item { item } => item.canonical_id(),
    };
    let mut out = chars_of("target=");
    push_text(&mut out, target_text.as_str());
    push_text(&mut out, "\nitems=");
    push_chars(&mut out, &items);
    push_text(&mut out, "\nworkspace=");
    match workspace_path {
        Some(p) => push_text(&mut out, p),
        None => {},
    }
    push_text(&mut out, "\nmodel=");
    push_text(&mut out, model_id);
    push_text(&mut out, "\nscopes=");
    let scopes = scopes_debug(permission_scopes);
    push_chars(&mut out, &scopes);
    assert(out@ =~= fingerprint_payload(
        target@,
        candidates@,
        opt_text(workspace_path),
        model_id@,
        permission_scopes@,
    ));
    crate::text::string_from_chars(&out)
}

/// The text of an optional path, empty when absent.
pub open spec fn opt_text(s: Option<&str>) -> Seq<char> {
    match s {
        Some(p) => p@,
        None => Seq::empty(),
    }
}

/// `sha256:` followed by the lowercase hex of a digest.
pub fn fingerprint_from_digest(digest: &[u8]) -> (res: String)
    ensures
        res@ == "sha256:"@ + hex_text(digest@),
{
    let hex = hex_encode(digest);
    let mut res = String::new();
    crate::text::push_str(&mut res, "sha256:");
    crate::text::push_str(&mut res, hex.as_str());
    res
}

/// Fingerprints an intake: a `sha256:` digest of the payload, so that a
/// confirmation can be matched to the exact preview it was made from.
pub fn build_intake_fingerprint(
    target: &LoopxIntakeTarget,
    candidates: &[LoopxIntakeCandidate],
    workspace_path: Option<&str>,
    model_id: &str,
    permission_scopes: &[LoopxPermissionScope],
) -> (res: String)
    ensures
        res@ == spec_intake_fingerprint(
            target@,
            candidates@,
            opt_text(workspace_path),
            model_id@,
            permission_scopes@,
        ),
{
    let payload = intake_fingerprint_payload(
        target,
        candidates,
        workspace_path,
        model_id,
        permission_scopes,
    );
    let digest = sha256_text(payload.as_str());
    fingerprint_from_digest(&digest)
}

proof fn lemma_map_values_multiset<A, B>(s1: Seq<A>, s2: Seq<A>, f: spec_fn(A) -> B)
    requires
        s1.to_multiset() == s2.to_multiset(),
    ensures
        s1.map_values(f).to_multiset() == s2.map_values(f).to_multiset(),
    decreases s1.len(),
{
    broadcast use vstd::multiset::group_multiset_axioms;

    if s1.len() == 0 {
        vstd::seq_lib::to_multiset_len(s1);
        vstd::seq_lib::to_multiset_len(s2);
        assert(s2.len() == 0);
        assert(s1.map_values(f) =~= Seq::<B>::empty());
        assert(s2.map_values(f) =~= Seq::<B>::empty());
    } else {
        let x = s1.last();
        let t1 = s1.drop_last();
        assert(s1 =~= t1.push(x));
        assert(s1.to_multiset().count(x) > 0);
        assert(s2.contains(x));
        let i = choose|i: int| 0 <= i < s2.len() && s2[i] == x;
        let t2 = s2.remove(i);
        assert(t1.to_multiset() =~= s1.to_multiset().remove(x));
        assert(t2.to_multiset() =~= s2.to_multiset().remove(x));
        lemma_map_values_multiset(t1, t2, f);
        let m1 = s1.map_values(f);
        let m2 = s2.map_values(f);
        assert(m1 =~= t1.map_values(f).push(f(x)));
        assert(m2.remove(i) =~= t2.map_values(f));
        assert(m2[i] == f(x));
        assert(m2.remove(i).to_multiset() == m2.to_multiset().remove(f(x)));
        assert(m2.to_multiset().count(f(x)) > 0) by {
            assert(m2.contains(f(x)));
        }
        assert(m2.to_multiset() =~= m2.to_multiset().remove(f(x)).insert(f(x)));
    }
}

/// The fingerprint does not depend on the order in which the candidates are
/// listed: any reordering of the same candidates gives the same fingerprint.
pub proof fn lemma_fingerprint_ignores_candidate_order(
    target: IntakeTargetView,
    first: Seq<LoopxIntakeCandidate>,
    second: Seq<LoopxIntakeCandidate>,
    workspace_path: Seq<char>,
    model_id: Seq<char>,
    scopes: Seq<LoopxPermissionScope>,
)
    requires
        first.to_multiset() == second.to_multiset(),
    ensures
        spec_intake_fingerprint(target, first, workspace_path, model_id, scopes)
            == spec_intake_fingerprint(target, second, workspace_path, model_id, scopes),
{
    lemma_map_values_multiset(first, second, fact_of());
    lemma_text_order_total();
    let a = item_facts(first);
    let b = item_facts(second);
    a.lemma_sort_by_ensures(text_order());
    b.lemma_sort_by_ensures(text_order());
    vstd::seq_lib::lemma_sorted_unique(a.sort_by(text_order()), b.sort_by(text_order()), text_order());
}


/// A candidate's fact records its remote state: two candidates for the same
/// item in different remote states have different facts, so the multiset of
/// facts that the payload lists changes with any remote state.
pub proof fn lemma_item_fact_sees_remote_state(c: LoopxIntakeCandidate, d: LoopxIntakeCandidate)
    requires
        c.key@ == d.key@,
        c.state != d.state,
    ensures
        item_fact(c) != item_fact(d),
{
    reveal_strlit("Open");
    reveal_strlit("Closed");
    reveal_strlit("Merged");
    reveal_strlit("Unknown");
    reveal_strlit(":");
    let id = c.key@.canonical_id();
    let n = id.len() as int;
    let name_c = remote_state_name(c.state);
    let name_d = remote_state_name(d.state);
    assert(name_c.len() > 0 && name_d.len() > 0);
    assert(name_c[0] != name_d[0]);
    let head_c = id + ":"@ + name_c;
    let head_d = id + ":"@ + name_d;
    assert(head_c[n + 1] == name_c[0]);
    assert(head_d[n + 1] == name_d[0]);
    let rest_c = ":"@ + bool_text(c.has_images) + ":"@ + bool_text(c.from_repository);
    let rest_d = ":"@ + bool_text(d.has_images) + ":"@ + bool_text(d.from_repository);
    assert(item_fact(c) =~= head_c + rest_c);
    assert(item_fact(d) =~= head_d + rest_d);
    assert(item_fact(c)[n + 1] == name_c[0]);
    assert(item_fact(d)[n + 1] == name_d[0]);
}

/// The payload changes with the listed items: for the same target, workspace,
/// model and scopes, candidate lists whose sorted facts join to different
/// texts give different payloads to digest.
pub proof fn lemma_payload_sees_items(
    target: IntakeTargetView,
    first: Seq<LoopxIntakeCandidate>,
    second: Seq<LoopxIntakeCandidate>,
    workspace_path: Seq<char>,
    model_id: Seq<char>,
    scopes: Seq<LoopxPermissionScope>,
)
    requires
        join(item_facts(first).sort_by(text_order()), "|"@) != join(
            item_facts(second).sort_by(text_order()),
            "|"@,
        ),
    ensures
        fingerprint_payload(target, first, workspace_path, model_id, scopes) != fingerprint_payload(
            target,
            second,
            workspace_path,
            model_id,
            scopes,
        ),
{
    let head = "target="@ + target_id(target) + "\nitems="@;
    let tail = "\nworkspace="@ + workspace_path + "\nmodel="@ + model_id + "\nscopes="@ + scopes_text(scopes);
    let x = join(item_facts(first).sort_by(text_order()), "|"@);
    let y = join(item_facts(second).sort_by(text_order()), "|"@);
    let p = fingerprint_payload(target, first, workspace_path, model_id, scopes);
    let q = fingerprint_payload(target, second, workspace_path, model_id, scopes);
    assert(p =~= head + x + tail);
    assert(q =~= head + y + tail);
    if p == q {
        assert(x.len() == y.len());
        assert forall|i: int| 0 <= i < x.len() implies x[i] == y[i] by {
            assert(p[head.len() + i] == x[i]);
            assert(q[head.len() + i] == y[i]);
        }
        assert(x =~= y);
    }
}

} // verus!
