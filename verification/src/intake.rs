//! Parsing one GitHub repository, issues-list, issue, or pull-request target.

use vstd::prelude::*;

use crate::text::{
    char_is_white, chars_of, contains, contains_exec, decimal, ends_with, ends_with_exec, has_char, is_ascii_alnum,
    is_ascii_digit, is_white, lower, lower_chars, seq_eq, starts_with, starts_with_exec,
    string_from_chars, trim, trim_chars,
};
use crate::types::{
    IntakeTargetView, IssueKeyView, LoopxIntakeTarget, LoopxIssueKey, LoopxItemKind,
    LoopxRepositoryKey, RepositoryKeyView,
};

verus! {

#[derive(Debug, Clone, Copy, PartialEq, Eq, Structural)]
pub enum LoopxIntakeParseErrorKind {
    Empty,
    UnsupportedHost,
    InvalidRepository,
    UnsupportedPath,
    InvalidItemNumber,
}

#[derive(Debug, Clone, PartialEq, Eq)]
pub struct LoopxIntakeParseError {
    pub kind: LoopxIntakeParseErrorKind,
    pub message: String,
}

impl LoopxIntakeParseError {
    fn new(kind: LoopxIntakeParseErrorKind, message: &str) -> (res: Self)
        ensures
            res.kind == kind,
            res.message@ == message@,
    {
        LoopxIntakeParseError { kind, message: String::from_str(message) }
    }

    /// The error text (what the error displays).
    pub fn to_string(&self) -> (res: String)
        ensures
            res@ == self.message@,
    {
        self.message.clone()
    }
}

/// A parse failure: its kind and its message.
pub type IntakeFailure = (LoopxIntakeParseErrorKind, Seq<char>);

pub open spec fn msg_empty() -> Seq<char> {
    "A GitHub repository, issue, or pull-request URL is required"@
}

pub open spec fn msg_one_target() -> Seq<char> {
    "LoopX intake accepts one GitHub target at a time"@
}

pub open spec fn msg_unsupported_host() -> Seq<char> {
    "Only github.com repositories are supported"@
}

pub open spec fn msg_invalid_ssh() -> Seq<char> {
    "Invalid GitHub SSH repository URL"@
}

pub open spec fn msg_owner_and_repository() -> Seq<char> {
    "GitHub target must include an owner and repository"@
}

pub open spec fn msg_invalid_name() -> Seq<char> {
    "Invalid GitHub owner or repository name"@
}

pub open spec fn msg_invalid_number() -> Seq<char> {
    "GitHub issue or pull-request number is invalid"@
}

pub open spec fn msg_zero_number() -> Seq<char> {
    "GitHub issue or pull-request number must be positive"@
}

pub open spec fn msg_unsupported_path() -> Seq<char> {
    "Paste a repository, issues-list, issue, or pull-request URL"@
}

/// Index of the first occurrence of `c` in `s`, or `s.len()` when there is none.
pub open spec fn first_char_index(s: Seq<char>, c: char) -> int
    decreases s.len(),
{
    if s.len() == 0 {
        0
    } else if s[0] == c {
        0
    } else {
        1 + first_char_index(s.drop_first(), c)
    }
}

/// Index of the first `?` or `#` in `s`, or `s.len()` when there is none.
pub open spec fn query_cut(s: Seq<char>) -> int
    decreases s.len(),
{
    if s.len() == 0 {
        0
    } else if s[0] == '?' || s[0] == '#' {
        0
    } else {
        1 + query_cut(s.drop_first())
    }
}

pub proof fn lemma_first_char_index(s: Seq<char>, c: char, i: int)
    requires
        0 <= i <= s.len(),
        forall|j: int| 0 <= j < i ==> s[j] != c,
        i < s.len() ==> s[i] == c,
    ensures
        first_char_index(s, c) == i,
    decreases s.len(),
{
    if s.len() > 0 && s[0] != c {
        assert forall|j: int| 0 <= j < i - 1 implies s.drop_first()[j] != c by {
            assert(s.drop_first()[j] == s[j + 1]);
        }
        lemma_first_char_index(s.drop_first(), c, i - 1);
    }
}

pub proof fn lemma_query_cut(s: Seq<char>, i: int)
    requires
        0 <= i <= s.len(),
        forall|j: int| 0 <= j < i ==> s[j] != '?' && s[j] != '#',
        i < s.len() ==> (s[i] == '?' || s[i] == '#'),
    ensures
        query_cut(s) == i,
    decreases s.len(),
{
    if s.len() > 0 && s[0] != '?' && s[0] != '#' {
        assert forall|j: int| 0 <= j < i - 1 implies s.drop_first()[j] != '?' && s.drop_first()[j]
            != '#' by {
            assert(s.drop_first()[j] == s[j + 1]);
        }
        lemma_query_cut(s.drop_first(), i - 1);
    }
}

pub proof fn lemma_first_char_index_bounds(s: Seq<char>, c: char)
    ensures
        0 <= first_char_index(s, c) <= s.len(),
    decreases s.len(),
{
    if s.len() > 0 && s[0] != c {
        lemma_first_char_index_bounds(s.drop_first(), c);
    }
}

/// Drops every trailing `/` (`str::trim_end_matches('/')`).
pub open spec fn strip_trailing_slashes(s: Seq<char>) -> Seq<char>
    decreases s.len(),
{
    if s.len() > 0 && s.last() == '/' {
        strip_trailing_slashes(s.drop_last())
    } else {
        s
    }
}

/// The non-empty `/`-separated segments of a path, in order.
pub open spec fn split_segments(s: Seq<char>) -> Seq<Seq<char>>
    decreases s.len(),
{
    let k = first_char_index(s, '/');
    if k >= s.len() {
        if s.len() == 0 {
            Seq::empty()
        } else {
            seq![s]
        }
    } else {
        proof {
            lemma_first_char_index_bounds(s, '/');
        }
        let rest = split_segments(s.skip(k + 1));
        if k == 0 {
            rest
        } else {
            seq![s.take(k)] + rest
        }
    }
}

/// Whether every character of `s` is an ASCII digit.
pub open spec fn all_digits(s: Seq<char>) -> bool {
    forall|i: int| 0 <= i < s.len() ==> is_ascii_digit(#[trigger] s[i])
}

/// Numeric value of an ASCII digit character.
pub open spec fn digit_value(c: char) -> nat {
    (c as int - '0' as int) as nat
}

/// Value of a string of ASCII digits.
pub open spec fn digits_value(s: Seq<char>) -> nat
    decreases s.len(),
{
    if s.len() == 0 {
        0
    } else {
        digits_value(s.drop_last()) * 10 + digit_value(s.last())
    }
}

/// `u64::from_str`: an optional `+`, at least one ASCII digit, and a value in range.
pub open spec fn spec_parse_u64(s: Seq<char>) -> Option<u64> {
    let d = if s.len() > 0 && s[0] == '+' {
        s.drop_first()
    } else {
        s
    };
    if d.len() > 0 && all_digits(d) && digits_value(d) <= u64::MAX {
        Some(digits_value(d) as u64)
    } else {
        None
    }
}

/// A GitHub owner name: 1 to 39 ASCII letters, digits or `-`, not starting or ending with `-`.
pub open spec fn valid_owner(s: Seq<char>) -> bool {
    &&& s.len() > 0
    &&& s.len() <= 39
    &&& s[0] != '-'
    &&& s.last() != '-'
    &&& forall|i: int| 0 <= i < s.len() ==> (is_ascii_alnum(#[trigger] s[i]) || s[i] == '-')
}

/// A GitHub repository name: 1 to 100 ASCII letters, digits, `.`, `_` or `-`, other than `.` and `..`.
pub open spec fn valid_repository(s: Seq<char>) -> bool {
    &&& s.len() > 0
    &&& s != "."@
    &&& s != ".."@
    &&& s.len() <= 100
    &&& forall|i: int|
        0 <= i < s.len() ==> (is_ascii_alnum(#[trigger] s[i]) || s[i] == '.' || s[i] == '_' || s[i]
            == '-')
}

/// Drops a trailing `.git`.
pub open spec fn strip_git_suffix(s: Seq<char>) -> Seq<char> {
    if ends_with(s, ".git"@) {
        s.take(s.len() - 4)
    } else {
        s
    }
}

/// The host and the path of a target, or why it is refused.
pub open spec fn host_and_path(input: Seq<char>) -> Result<(Seq<char>, Seq<char>), IntakeFailure> {
    let ws = strip_trailing_slashes(trim(input.take(query_cut(input))));
    if starts_with(ws, "git@"@) {
        let rest = ws.skip(4);
        let k = first_char_index(rest, ':');
        if k < rest.len() {
            Ok((lower(rest.take(k)), rest.skip(k + 1)))
        } else {
            Err((LoopxIntakeParseErrorKind::InvalidRepository, msg_invalid_ssh()))
        }
    } else {
        let schemeless = if starts_with(ws, "https://"@) {
            ws.skip(8)
        } else if starts_with(ws, "http://"@) {
            ws.skip(7)
        } else {
            ws
        };
        let k = first_char_index(schemeless, '/');
        let host = schemeless.take(k);
        if k < schemeless.len() && (lower(host) == "github.com"@ || lower(host)
            == "www.github.com"@) {
            Ok(("github.com"@, schemeless.skip(k + 1)))
        } else if k < schemeless.len() && (host.contains('.') || contains(input, "://"@)) {
            Err((LoopxIntakeParseErrorKind::UnsupportedHost, msg_unsupported_host()))
        } else if !contains(input, "://"@) {
            Ok(("github.com"@, schemeless))
        } else {
            Err((LoopxIntakeParseErrorKind::UnsupportedHost, msg_unsupported_host()))
        }
    }
}

/// The target named by the owner, repository and remaining segments of a path.
pub open spec fn target_of_segments(host: Seq<char>, segs: Seq<Seq<char>>) -> Result<
    IntakeTargetView,
    IntakeFailure,
> {
    if segs.len() < 2 {
        Err((LoopxIntakeParseErrorKind::InvalidRepository, msg_owner_and_repository()))
    } else {
        let owner = lower(segs[0]);
        let repository = lower(strip_git_suffix(segs[1]));
        if !valid_owner(owner) || !valid_repository(repository) {
            Err((LoopxIntakeParseErrorKind::InvalidRepository, msg_invalid_name()))
        } else {
            let key = RepositoryKeyView { host, owner, repository };
            if segs.len() == 2 || (segs.len() == 3 && (segs[2] == "issues"@ || segs[2]
                == "pulls"@)) {
                Ok(IntakeTargetView::Repository(key))
            } else if segs.len() == 4 && (segs[2] == "issues"@ || segs[2] == "pull"@) {
                match spec_parse_u64(segs[3]) {
                    None => Err((LoopxIntakeParseErrorKind::InvalidItemNumber, msg_invalid_number())),
                    Some(n) => if n == 0 {
                        Err((LoopxIntakeParseErrorKind::InvalidItemNumber, msg_zero_number()))
                    } else {
                        Ok(
                            IntakeTargetView::Item(
                                IssueKeyView {
                                    repository: key,
                                    kind: if segs[2] == "issues"@ {
                                        LoopxItemKind::Issue
                                    } else {
                                        LoopxItemKind::PullRequest
                                    },
                                    number: n,
                                },
                            ),
                        )
                    },
                }
            } else {
                Err((LoopxIntakeParseErrorKind::UnsupportedPath, msg_unsupported_path()))
            }
        }
    }
}

/// What `parse_loopx_intake` returns for an input text.
pub open spec fn spec_parse_intake(raw: Seq<char>) -> Result<IntakeTargetView, IntakeFailure> {
    let input = trim(raw);
    if input.len() == 0 {
        Err((LoopxIntakeParseErrorKind::Empty, msg_empty()))
    } else if exists|i: int| 0 <= i < input.len() && is_white(#[trigger] input[i]) {
        Err((LoopxIntakeParseErrorKind::UnsupportedPath, msg_one_target()))
    } else {
        match host_and_path(input) {
            Err(e) => Err(e),
            Ok(hp) => if hp.0 != "github.com"@ {
                Err((LoopxIntakeParseErrorKind::UnsupportedHost, msg_unsupported_host()))
            } else {
                target_of_segments(hp.0, split_segments(hp.1))
            },
        }
    }
}

/// The mathematical value of a parse result.
pub open spec fn intake_result_view(r: Result<LoopxIntakeTarget, LoopxIntakeParseError>) -> Result<
    IntakeTargetView,
    IntakeFailure,
> {
    match r {
        Ok(t) => Ok(t@),
        Err(e) => Err((e.kind, e.message@)),
    }
}

/// Position of the first `c` in `v` at or after `from`.
fn find_char_from(v: &[char], c: char, from: usize) -> (res: Option<usize>)
    requires
        from <= v@.len(),
    ensures
        match res {
            Some(i) => from <= i < v@.len() && v@[i as int] == c && forall|j: int|
                from <= j < i ==> v@[j] != c,
            None => forall|j: int| from <= j < v@.len() ==> v@[j] != c,
        },
{
    let mut i = from;
    while i < v.len()
        invariant
            from <= i <= v@.len(),
            forall|j: int| from <= j < i ==> v@[j] != c,
        decreases v@.len() - i,
    {
        if v[i] == c {
            return Some(i);
        }
        i = i + 1;
    }
    None
}

/// Index of the first `c` in `v`, or its length.
fn first_char_index_exec(v: &[char], c: char) -> (res: usize)
    ensures
        res as int == first_char_index(v@, c),
        res <= v@.len(),
{
    match find_char_from(v, c, 0) {
        Some(i) => {
            proof {
                lemma_first_char_index(v@, c, i as int);
            }
            i
        },
        None => {
            proof {
                lemma_first_char_index(v@, c, v@.len() as int);
            }
            v.len()
        },
    }
}

fn query_cut_exec(v: &[char]) -> (res: usize)
    ensures
        res as int == query_cut(v@),
        res <= v@.len(),
{
    let mut i: usize = 0;
    while i < v.len() && v[i] != '?' && v[i] != '#'
        invariant
            i <= v@.len(),
            forall|j: int| 0 <= j < i ==> v@[j] != '?' && v@[j] != '#',
        decreases v@.len() - i,
    {
        i = i + 1;
    }
    proof {
        lemma_query_cut(v@, i as int);
    }
    i
}

proof fn lemma_strip_trailing_slashes(s: Seq<char>, n: int)
    requires
        0 <= n <= s.len(),
        forall|j: int| n <= j < s.len() ==> s[j] == '/',
        n > 0 ==> s[n - 1] != '/',
    ensures
        strip_trailing_slashes(s) == s.take(n),
    decreases s.len(),
{
    if s.len() > 0 && s.last() == '/' {
        assert(n < s.len());
        assert forall|j: int| n <= j < s.len() - 1 implies s.drop_last()[j] == '/' by {
            assert(s.drop_last()[j] == s[j]);
        }
        lemma_strip_trailing_slashes(s.drop_last(), n);
        assert(s.drop_last().take(n) =~= s.take(n));
    } else {
        if n < s.len() {
            assert(s[s.len() - 1] == '/');
        }
        assert(s.take(n) =~= s);
    }
}

fn strip_trailing_slashes_exec(v: &[char]) -> (res: Vec<char>)
    ensures
        res@ == strip_trailing_slashes(v@),
{
    let mut n = v.len();
    while n > 0 && v[n - 1] == '/'
        invariant
            n <= v@.len(),
            forall|j: int| n <= j < v@.len() ==> v@[j] == '/',
        decreases n,
    {
        n = n - 1;
    }
    proof {
        lemma_strip_trailing_slashes(v@, n as int);
    }
    let mut res: Vec<char> = Vec::new();
    let mut i: usize = 0;
    while i < n
        invariant
            n <= v@.len(),
            i <= n,
            res@ == v@.take(i as int),
        decreases n - i,
    {
        res.push(v[i]);
        i = i + 1;
        assert(res@ =~= v@.take(i as int));
    }
    res
}

/// Copies `v[from..to]`.
fn slice_range(v: &[char], from: usize, to: usize) -> (res: Vec<char>)
    requires
        from <= to <= v@.len(),
    ensures
        res@ == v@.subrange(from as int, to as int),
{
    let mut res: Vec<char> = Vec::new();
    let mut i = from;
    while i < to
        invariant
            from <= i <= to <= v@.len(),
            res@ == v@.subrange(from as int, i as int),
        decreases to - i,
    {
        res.push(v[i]);
        i = i + 1;
        assert(res@ =~= v@.subrange(from as int, i as int));
    }
    res
}

/// Whether the trimmed input text contains a white character.
fn has_white(v: &[char]) -> (res: bool)
    ensures
        res == exists|i: int| 0 <= i < v@.len() && is_white(#[trigger] v@[i]),
{
    let mut i: usize = 0;
    while i < v.len()
        invariant
            i <= v@.len(),
            forall|j: int| 0 <= j < i ==> !is_white(#[trigger] v@[j]),
        decreases v@.len() - i,
    {
        if char_is_white(v[i]) {
            return true;
        }
        i = i + 1;
    }
    false
}

/// Splits a target into host and path.
fn split_host_and_path(input: &[char]) -> (res: Result<(Vec<char>, Vec<char>), LoopxIntakeParseError>)
    ensures
        match res {
            Ok(hp) => host_and_path(input@) == Ok::<(Seq<char>, Seq<char>), IntakeFailure>(
                (hp.0@, hp.1@),
            ),
            Err(e) => host_and_path(input@) == Err::<(Seq<char>, Seq<char>), IntakeFailure>(
                (e.kind, e.message@),
            ),
        },
{
    let cut = query_cut_exec(input);
    let head = slice_range(input, 0, cut);
    assert(head@ =~= input@.take(cut as int));
    let trimmed = trim_chars(&head);
    let ws = strip_trailing_slashes_exec(&trimmed);
    let git = ['g', 'i', 't', '@'];
    let https = ['h', 't', 't', 'p', 's', ':', '/', '/'];
    let http = ['h', 't', 't', 'p', ':', '/', '/'];
    let scheme_sep = [':', '/', '/'];
    let github = ['g', 'i', 't', 'h', 'u', 'b', '.', 'c', 'o', 'm'];
    let www_github = ['w', 'w', 'w', '.', 'g', 'i', 't', 'h', 'u', 'b', '.', 'c', 'o', 'm'];
    proof {
        reveal_strlit("git@");
        reveal_strlit("https://");
        reveal_strlit("http://");
        reveal_strlit("://");
        reveal_strlit("github.com");
        reveal_strlit("www.github.com");
    }
    assert(git@ =~= "git@"@);
    assert(https@ =~= "https://"@);
    assert(http@ =~= "http://"@);
    assert(scheme_sep@ =~= "://"@);
    assert(github@ =~= "github.com"@);
    assert(www_github@ =~= "www.github.com"@);
    if starts_with_exec(&ws, &git) {
        let rest = slice_range(&ws, 4, ws.len());
        assert(rest@ =~= ws@.skip(4));
        let k = first_char_index_exec(&rest, ':');
        if k < rest.len() {
            let host_raw = slice_range(&rest, 0, k);
            assert(host_raw@ =~= rest@.take(k as int));
            let host = lower_chars(&host_raw);
            let path = slice_range(&rest, k + 1, rest.len());
            assert(path@ =~= rest@.skip(k + 1));
            return Ok((host, path));
        }
        return Err(
            LoopxIntakeParseError::new(
                LoopxIntakeParseErrorKind::InvalidRepository,
                "Invalid GitHub SSH repository URL",
            ),
        );
    }
    let schemeless = if starts_with_exec(&ws, &https) {
        let s = slice_range(&ws, 8, ws.len());
        assert(s@ =~= ws@.skip(8));
        s
    } else if starts_with_exec(&ws, &http) {
        let s = slice_range(&ws, 7, ws.len());
        assert(s@ =~= ws@.skip(7));
        s
    } else {
        ws
    };
    let k = first_char_index_exec(&schemeless, '/');
    let host_raw = slice_range(&schemeless, 0, k);
    assert(host_raw@ =~= schemeless@.take(k as int));
    let host = lower_chars(&host_raw);
    let has_scheme = contains_exec(input, &scheme_sep);
    if k < schemeless.len() {
        if seq_eq(&host, &github) || seq_eq(&host, &www_github) {
            let path = slice_range(&schemeless, k + 1, schemeless.len());
            assert(path@ =~= schemeless@.skip(k + 1));
            let gh = slice_range(&github, 0, github.len());
            assert(gh@ =~= "github.com"@);
            return Ok((gh, path));
        }
        if has_char(&host_raw, '.') || has_scheme {
            return Err(
                LoopxIntakeParseError::new(
                    LoopxIntakeParseErrorKind::UnsupportedHost,
                    "Only github.com repositories are supported",
                ),
            );
        }
    }
    if !has_scheme {
        let gh = slice_range(&github, 0, github.len());
        assert(gh@ =~= "github.com"@);
        return Ok((gh, schemeless));
    }
    Err(
        LoopxIntakeParseError::new(
            LoopxIntakeParseErrorKind::UnsupportedHost,
            "Only github.com repositories are supported",
        ),
    )
}

/// Sequence of the views of a vector of character vectors.
pub open spec fn views(v: Seq<Vec<char>>) -> Seq<Seq<char>> {
    v.map_values(|x: Vec<char>| x@)
}

proof fn lemma_segments_step(s: Seq<char>, k: int)
    requires
        0 <= k < s.len(),
        s[k] == '/',
        forall|j: int| 0 <= j < k ==> s[j] != '/',
    ensures
        split_segments(s) == (if k == 0 {
            split_segments(s.skip(k + 1))
        } else {
            seq![s.take(k)] + split_segments(s.skip(k + 1))
        }),
{
    lemma_first_char_index(s, '/', k);
}

proof fn lemma_segments_last(s: Seq<char>)
    requires
        forall|j: int| 0 <= j < s.len() ==> s[j] != '/',
    ensures
        split_segments(s) == (if s.len() == 0 {
            Seq::<Seq<char>>::empty()
        } else {
            seq![s]
        }),
{
    lemma_first_char_index(s, '/', s.len() as int);
}

/// The non-empty `/`-separated segments of a path.
fn path_segments(path: &[char]) -> (res: Vec<Vec<char>>)
    ensures
        views(res@) == split_segments(path@),
{
    let mut res: Vec<Vec<char>> = Vec::new();
    let mut start: usize = 0;
    assert(path@.skip(0) =~= path@);
    assert(views(res@) + split_segments(path@) =~= split_segments(path@));
    loop
        invariant
            start <= path@.len(),
            path@.len() == path.len(),
            views(res@) + split_segments(path@.skip(start as int)) == split_segments(path@),
        decreases path@.len() - start,
    {
        let ghost rest = path@.skip(start as int);
        match find_char_from(path, '/', start) {
            Some(k) => {
                let piece = slice_range(path, start, k);
                proof {
                    assert forall|j: int| 0 <= j < k - start implies rest[j] != '/' by {
                        assert(rest[j] == path@[start + j]);
                    }
                    assert(rest[k - start] == path@[k as int]);
                    lemma_segments_step(rest, k - start);
                    assert(rest.skip(k - start + 1) =~= path@.skip(k + 1));
                    assert(rest.take(k - start) =~= piece@);
                }
                let ghost before = res@;
                if k > start {
                    res.push(piece);
                    assert(views(res@) =~= views(before).push(piece@));
                    assert(views(res@) + split_segments(path@.skip(k + 1)) =~= views(before) + (
                    seq![piece@] + split_segments(path@.skip(k + 1))));
                }
                start = k + 1;
            },
            None => {
                let piece = slice_range(path, start, path.len());
                proof {
                    assert forall|j: int| 0 <= j < rest.len() implies rest[j] != '/' by {
                        assert(rest[j] == path@[start + j]);
                    }
                    lemma_segments_last(rest);
                    assert(piece@ =~= rest);
                }
                let ghost before = res@;
                if start < path.len() {
                    res.push(piece);
                    assert(views(res@) =~= views(before).push(piece@));
                    assert(views(res@) =~= views(before) + seq![piece@]);
                } else {
                    assert(views(res@) =~= views(before) + Seq::<Seq<char>>::empty());
                }
                return res;
            },
        }
    }
}

proof fn lemma_digits_prefix_le(s: Seq<char>, i: int)
    requires
        0 <= i <= s.len(),
    ensures
        digits_value(s.take(i)) <= digits_value(s),
    decreases s.len(),
{
    if i < s.len() {
        lemma_digits_prefix_le(s.drop_last(), i);
        assert(s.drop_last().take(i) =~= s.take(i));
        let v = digits_value(s.drop_last());
        assert(v <= v * 10 + digit_value(s.last())) by (nonlinear_arith);
    } else {
        assert(s.take(i) =~= s);
    }
}

/// `str::parse::<u64>` on a character sequence.
fn parse_u64_chars(s: &[char]) -> (res: Option<u64>)
    ensures
        res == spec_parse_u64(s@),
{
    let start: usize = if s.len() > 0 && s[0] == '+' {
        1
    } else {
        0
    };
    let ghost d = if s@.len() > 0 && s@[0] == '+' {
        s@.drop_first()
    } else {
        s@
    };
    assert(d =~= s@.skip(start as int));
    if start >= s.len() {
        assert(d.len() == 0);
        return None;
    }
    let mut acc: u64 = 0;
    let mut i: usize = start;
    while i < s.len()
        invariant
            start <= i <= s@.len(),
            d == s@.skip(start as int),
            d == (if s@.len() > 0 && s@[0] == '+' {
                s@.drop_first()
            } else {
                s@
            }),
            acc as nat == digits_value(d.take(i - start)),
            forall|j: int| 0 <= j < i - start ==> is_ascii_digit(#[trigger] d[j]),
        decreases s@.len() - i,
    {
        let c = s[i];
        if !('0' <= c && c <= '9') {
            assert(d[i - start] == c);
            assert(!is_ascii_digit(d[i - start]));
            return None;
        }
        let digit: u64 = (c as u32 - '0' as u32) as u64;
        assert(digit as nat == digit_value(c));
        assert(d.take(i - start + 1).drop_last() =~= d.take(i - start));
        assert(d.take(i - start + 1).last() == c);
        let next = acc.checked_mul(10);
        match next {
            None => {
                proof {
                    lemma_digits_prefix_le(d, i - start + 1);
                    assert(acc * 10 + digit_value(c) > u64::MAX) by (nonlinear_arith)
                        requires
                            acc * 10 > u64::MAX,
                    ;
                }
                return None;
            },
            Some(m) => match m.checked_add(digit) {
                None => {
                    proof {
                        lemma_digits_prefix_le(d, i - start + 1);
                    }
                    return None;
                },
                Some(v) => {
                    acc = v;
                },
            },
        }
        i = i + 1;
    }
    assert(d.take(d.len() as int) =~= d);
    Some(acc)
}

/// Whether `v` is a valid GitHub owner name.
fn valid_owner_exec(v: &[char]) -> (res: bool)
    ensures
        res == valid_owner(v@),
{
    if v.len() == 0 || v.len() > 39 || v[0] == '-' || v[v.len() - 1] == '-' {
        return false;
    }
    let mut i: usize = 0;
    while i < v.len()
        invariant
            i <= v@.len(),
            forall|j: int| 0 <= j < i ==> (is_ascii_alnum(#[trigger] v@[j]) || v@[j] == '-'),
        decreases v@.len() - i,
    {
        let c = v[i];
        if !(('0' <= c && c <= '9') || ('a' <= c && c <= 'z') || ('A' <= c && c <= 'Z') || c
            == '-') {
            return false;
        }
        i = i + 1;
    }
    true
}

/// Whether `v` is a valid GitHub repository name.
fn valid_repository_exec(v: &[char]) -> (res: bool)
    ensures
        res == valid_repository(v@),
{
    proof {
        reveal_strlit(".");
        reveal_strlit("..");
    }
    if v.len() == 0 || v.len() > 100 {
        return false;
    }
    if v.len() == 1 && v[0] == '.' {
        assert(v@ =~= "."@);
        return false;
    }
    if v.len() == 2 && v[0] == '.' && v[1] == '.' {
        assert(v@ =~= ".."@);
        return false;
    }
    let mut i: usize = 0;
    while i < v.len()
        invariant
            i <= v@.len(),
            forall|j: int|
                0 <= j < i ==> (is_ascii_alnum(#[trigger] v@[j]) || v@[j] == '.' || v@[j] == '_'
                    || v@[j] == '-'),
        decreases v@.len() - i,
    {
        let c = v[i];
        if !(('0' <= c && c <= '9') || ('a' <= c && c <= 'z') || ('A' <= c && c <= 'Z') || c
            == '.' || c == '_' || c == '-') {
            return false;
        }
        i = i + 1;
    }
    assert(v@ != "."@ && v@ != ".."@) by {
        if v@.len() == 1 {
            assert(v@[0] != '.');
            assert("."@[0] == '.');
        }
        if v@.len() == 2 {
            assert(".."@[0] == '.' && ".."@[1] == '.');
        }
    }
    true
}

/// Drops a trailing `.git`.
fn strip_git_suffix_exec(v: &[char]) -> (res: Vec<char>)
    ensures
        res@ == strip_git_suffix(v@),
{
    let git = ['.', 'g', 'i', 't'];
    proof {
        reveal_strlit(".git");
    }
    assert(git@ =~= ".git"@);
    if ends_with_exec(v, &git) {
        let r = slice_range(v, 0, v.len() - 4);
        assert(r@ =~= v@.take(v@.len() - 4));
        r
    } else {
        slice_range(v, 0, v.len())
    }
}

fn make_string(v: &[char]) -> (res: String)
    ensures
        res@ == v@,
{
    string_from_chars(v)
}

/// The target named by the segments of a path.
fn target_from_segments(host: &[char], segs: &Vec<Vec<char>>) -> (res: Result<
    LoopxIntakeTarget,
    LoopxIntakeParseError,
>)
    ensures
        intake_result_view(res) == target_of_segments(host@, views(segs@)),
{
    let ghost sv = views(segs@);
    if segs.len() < 2 {
        return Err(
            LoopxIntakeParseError::new(
                LoopxIntakeParseErrorKind::InvalidRepository,
                "GitHub target must include an owner and repository",
            ),
        );
    }
    assert(sv[0] == segs@[0]@ && sv[1] == segs@[1]@);
    let owner = lower_chars(&segs[0]);
    let stripped = strip_git_suffix_exec(&segs[1]);
    let repository = lower_chars(&stripped);
    if !valid_owner_exec(&owner) || !valid_repository_exec(&repository) {
        return Err(
            LoopxIntakeParseError::new(
                LoopxIntakeParseErrorKind::InvalidRepository,
                "Invalid GitHub owner or repository name",
            ),
        );
    }
    let key = LoopxRepositoryKey {
        host: make_string(host),
        owner: make_string(&owner),
        repository: make_string(&repository),
    };
    let issues = ['i', 's', 's', 'u', 'e', 's'];
    let pulls = ['p', 'u', 'l', 'l', 's'];
    let pull = ['p', 'u', 'l', 'l'];
    proof {
        reveal_strlit("issues");
        reveal_strlit("pulls");
        reveal_strlit("pull");
    }
    assert(issues@ =~= "issues"@);
    assert(pulls@ =~= "pulls"@);
    assert(pull@ =~= "pull"@);
    if segs.len() == 2 {
        return Ok(LoopxIntakeTarget::Repository { repository: key });
    }
    assert(sv[2] == segs@[2]@);
    let is_issues = seq_eq(&segs[2], &issues);
    if segs.len() == 3 && (is_issues || seq_eq(&segs[2], &pulls)) {
        return Ok(LoopxIntakeTarget::Repository { repository: key });
    }
    if segs.len() == 4 && (is_issues || seq_eq(&segs[2], &pull)) {
        assert(sv[3] == segs@[3]@);
        match parse_u64_chars(&segs[3]) {
            None => {
                return Err(
                    LoopxIntakeParseError::new(
                        LoopxIntakeParseErrorKind::InvalidItemNumber,
                        "GitHub issue or pull-request number is invalid",
                    ),
                );
            },
            Some(number) => {
                if number == 0 {
                    return Err(
                        LoopxIntakeParseError::new(
                            LoopxIntakeParseErrorKind::InvalidItemNumber,
                            "GitHub issue or pull-request number must be positive",
                        ),
                    );
                }
                let kind = if is_issues {
                    LoopxItemKind::Issue
                } else {
                    LoopxItemKind::PullRequest
                };
                return Ok(
                    LoopxIntakeTarget::Item { item: LoopxIssueKey { repository: key, kind, number } },
                );
            },
        }
    }
    Err(
        LoopxIntakeParseError::new(
            LoopxIntakeParseErrorKind::UnsupportedPath,
            "Paste a repository, issues-list, issue, or pull-request URL",
        ),
    )
}

/// Parse one GitHub repository, issues-list, issue, or pull-request target.
pub fn parse_loopx_intake(input: &str) -> (res: Result<LoopxIntakeTarget, LoopxIntakeParseError>)
    ensures
        intake_result_view(res) == spec_parse_intake(input@),
{
    let raw = chars_of(input);
    let trimmed = trim_chars(&raw);
    if trimmed.len() == 0 {
        return Err(
            LoopxIntakeParseError::new(
                LoopxIntakeParseErrorKind::Empty,
                "A GitHub repository, issue, or pull-request URL is required",
            ),
        );
    }
    if has_white(&trimmed) {
        return Err(
            LoopxIntakeParseError::new(
                LoopxIntakeParseErrorKind::UnsupportedPath,
                "LoopX intake accepts one GitHub target at a time",
            ),
        );
    }
    let (host, path) = match split_host_and_path(&trimmed) {
        Ok(hp) => hp,
        Err(e) => {
            return Err(e);
        },
    };
    let github = ['g', 'i', 't', 'h', 'u', 'b', '.', 'c', 'o', 'm'];
    proof {
        reveal_strlit("github.com");
    }
    assert(github@ =~= "github.com"@);
    if !seq_eq(&host, &github) {
        return Err(
            LoopxIntakeParseError::new(
                LoopxIntakeParseErrorKind::UnsupportedHost,
                "Only github.com repositories are supported",
            ),
        );
    }
    let segments = path_segments(&path);
    target_from_segments(&host, &segments)
}


// ---------------------------------------------------------------------------
// Canonical URLs parse back to their target.
// ---------------------------------------------------------------------------

/// A character of a canonical GitHub URL.
pub open spec fn url_char(c: char) -> bool {
    is_ascii_alnum(c) || c == '.' || c == '_' || c == '-' || c == ':' || c == '/'
}

/// Whether every character of `s` is a URL character.
pub open spec fn url_chars(s: Seq<char>) -> bool {
    forall|i: int| 0 <= i < s.len() ==> url_char(#[trigger] s[i])
}

/// Whether `s` holds no `/`.
pub open spec fn no_slash(s: Seq<char>) -> bool {
    forall|i: int| 0 <= i < s.len() ==> #[trigger] s[i] != '/'
}

proof fn lemma_url_chars_concat(a: Seq<char>, b: Seq<char>)
    requires
        url_chars(a),
        url_chars(b),
    ensures
        url_chars(a + b),
{
    assert forall|i: int| 0 <= i < (a + b).len() implies url_char(#[trigger] (a + b)[i]) by {
        if i < a.len() {
            assert((a + b)[i] == a[i]);
        } else {
            assert((a + b)[i] == b[i - a.len()]);
        }
    }
}

/// A text that starts and ends with a non-white character trims to itself.
proof fn lemma_trim_keeps(s: Seq<char>)
    requires
        s.len() > 0,
        !is_white(s[0]),
        !is_white(s.last()),
    ensures
        trim(s) == s,
{
    assert(crate::text::trim_start_index(s) == 0);
    assert(crate::text::trim_end_index(s) == s.len());
    assert(s.subrange(0, s.len() as int) =~= s);
}

/// The digits of a number read back as that number.
proof fn lemma_decimal_parses(n: nat)
    ensures
        decimal(n).len() > 0,
        all_digits(decimal(n)),
        digits_value(decimal(n)) == n,
        url_chars(decimal(n)),
        decimal(n)[0] != '+',
        is_ascii_digit(decimal(n).last()),
    decreases n,
{
    let d = decimal(n);
    if n < 10 {
        assert(digit_value(crate::text::digit_char(n)) == n);
        assert(d.drop_last() =~= Seq::<char>::empty());
        assert(digits_value(Seq::<char>::empty()) == 0);
        assert(digits_value(d) == digits_value(d.drop_last()) * 10 + digit_value(d.last()));
    } else {
        lemma_decimal_parses(n / 10);
        let p = decimal(n / 10);
        assert(d == p.push(crate::text::digit_char(n % 10)));
        assert(d.drop_last() =~= p);
        assert(digit_value(crate::text::digit_char(n % 10)) == n % 10);
        assert(d.last() == crate::text::digit_char(n % 10));
        assert(digits_value(d) == digits_value(p) * 10 + digit_value(d.last()));
        assert((n / 10) * 10 + n % 10 == n) by (nonlinear_arith);
        assert(d[0] == p[0]);
        assert forall|i: int| 0 <= i < d.len() implies url_char(#[trigger] d[i]) && is_ascii_digit(d[i]) by {
            if i < p.len() {
                assert(d[i] == p[i]);
            }
        }
    }
}

/// Lowercasing is idempotent.
pub proof fn lemma_lower_idempotent(s: Seq<char>)
    ensures
        lower(lower(s)) == lower(s),
{
    assert(lower(lower(s)) =~= lower(s));
}

/// The segments of `a/rest`, for a non-empty `a` without `/`.
proof fn lemma_split_cons(a: Seq<char>, rest: Seq<char>)
    requires
        a.len() > 0,
        no_slash(a),
    ensures
        split_segments(a + seq!['/'] + rest) == seq![a] + split_segments(rest),
{
    let s = a + seq!['/'] + rest;
    assert forall|j: int| 0 <= j < a.len() implies s[j] != '/' by {
        assert(s[j] == a[j]);
    }
    assert(s[a.len() as int] == '/');
    lemma_first_char_index(s, '/', a.len() as int);
    assert(s.take(a.len() as int) =~= a);
    assert(s.skip(a.len() as int + 1) =~= rest);
}

/// The segments of a non-empty `a` without `/`.
proof fn lemma_split_single(a: Seq<char>)
    requires
        a.len() > 0,
        no_slash(a),
    ensures
        split_segments(a) == seq![a],
{
    lemma_first_char_index(a, '/', a.len() as int);
}

/// A `https://github.com/` URL parses as its path's segments.
proof fn lemma_parse_github_path(path: Seq<char>)
    requires
        path.len() > 0,
        url_chars(path),
        path.last() != '/',
    ensures
        spec_parse_intake("https://github.com/"@ + path) == target_of_segments(
            "github.com"@,
            split_segments(path),
        ),
{
    reveal_strlit("https://github.com/");
    reveal_strlit("https://");
    reveal_strlit("http://");
    reveal_strlit("git@");
    reveal_strlit("github.com");
    reveal_strlit("www.github.com");
    let prefix = "https://github.com/"@;
    let url = prefix + path;
    assert(url_chars(prefix));
    lemma_url_chars_concat(prefix, path);
    assert(url.last() == path.last());
    assert(url_char(url.last()));
    lemma_trim_keeps(url);
    assert forall|i: int| 0 <= i < url.len() implies !is_white(#[trigger] url[i]) by {
        assert(url_char(url[i]));
    }
    assert forall|j: int| 0 <= j < url.len() implies url[j] != '?' && url[j] != '#' by {
        assert(url_char(url[j]));
    }
    lemma_query_cut(url, url.len() as int);
    assert(url.take(url.len() as int) =~= url);
    assert(strip_trailing_slashes(url) == url);
    assert(url.take(4) != "git@"@) by {
        assert(url.take(4)[0] != "git@"@[0]);
    }
    assert(url.take(8) =~= "https://"@);
    let schemeless = url.skip(8);
    assert(schemeless =~= "github.com/"@ + path) by {
        reveal_strlit("github.com/");
    }
    reveal_strlit("github.com/");
    assert forall|j: int| 0 <= j < 10 implies schemeless[j] != '/' by {}
    lemma_first_char_index(schemeless, '/', 10);
    assert(schemeless.take(10) =~= "github.com"@);
    assert(lower("github.com"@) =~= "github.com"@);
    assert(schemeless.skip(11) =~= path);
}

/// A repository key as the parser gives it: on github.com, with a valid,
/// lowercase owner and repository name.
pub open spec fn parsed_repository_key(r: RepositoryKeyView) -> bool {
    &&& r.host == "github.com"@
    &&& valid_owner(r.owner)
    &&& lower(r.owner) == r.owner
    &&& valid_repository(r.repository)
    &&& lower(r.repository) == r.repository
}

proof fn lemma_key_parts(r: RepositoryKeyView)
    requires
        parsed_repository_key(r),
    ensures
        url_chars(r.owner),
        no_slash(r.owner),
        url_chars(r.repository),
        no_slash(r.repository),
{
    assert forall|i: int| 0 <= i < r.owner.len() implies url_char(#[trigger] r.owner[i]) && r.owner[i] != '/' by {
        assert(is_ascii_alnum(r.owner[i]) || r.owner[i] == '-');
    }
    assert forall|i: int| 0 <= i < r.repository.len() implies url_char(#[trigger] r.repository[i])
        && r.repository[i] != '/' by {
        assert(is_ascii_alnum(r.repository[i]) || r.repository[i] == '.' || r.repository[i] == '_'
            || r.repository[i] == '-');
    }
}

/// A repository's canonical URL parses back to the repository.
pub proof fn lemma_repository_url_round_trip(r: RepositoryKeyView)
    requires
        parsed_repository_key(r),
        !ends_with(r.repository, ".git"@),
    ensures
        spec_parse_intake("https://"@ + r.canonical_id()) == Ok::<IntakeTargetView, IntakeFailure>(
            IntakeTargetView::Repository(r),
        ),
{
    reveal_strlit("https://");
    reveal_strlit("https://github.com/");
    reveal_strlit("/");
    reveal_strlit("github.com");
    lemma_key_parts(r);
    let path = r.owner + seq!['/'] + r.repository;
    assert("https://"@ + r.canonical_id() =~= "https://github.com/"@ + path);
    assert(url_chars(seq!['/']));
    lemma_url_chars_concat(r.owner, seq!['/']);
    lemma_url_chars_concat(r.owner + seq!['/'], r.repository);
    assert(path.last() == r.repository.last());
    lemma_parse_github_path(path);
    lemma_split_cons(r.owner, r.repository);
    lemma_split_single(r.repository);
    let segs = split_segments(path);
    assert(segs =~= seq![r.owner, r.repository]);
    assert(strip_git_suffix(r.repository) == r.repository);
}

/// An issue's or pull request's canonical URL parses back to the item.
pub proof fn lemma_item_url_round_trip(k: IssueKeyView)
    requires
        parsed_repository_key(k.repository),
        !ends_with(k.repository.repository, ".git"@),
        k.number > 0,
    ensures
        spec_parse_intake(k.canonical_url()) == Ok::<IntakeTargetView, IntakeFailure>(IntakeTargetView::Item(k)),
{
    reveal_strlit("https://");
    reveal_strlit("https://github.com/");
    reveal_strlit("/");
    reveal_strlit("github.com");
    reveal_strlit("issues");
    reveal_strlit("pull");
    reveal_strlit("pulls");
    let r = k.repository;
    lemma_key_parts(r);
    lemma_decimal_parses(k.number as nat);
    let seg = crate::types::collection_segment(k.kind);
    let dec = decimal(k.number as nat);
    assert(url_chars(seg) && no_slash(seg) && seg.len() > 0);
    assert(no_slash(dec)) by {
        assert forall|i: int| 0 <= i < dec.len() implies #[trigger] dec[i] != '/' by {
            assert(url_char(dec[i]));
            assert(all_digits(dec));
            assert(is_ascii_digit(dec[i]));
        }
    }
    let slash = seq!['/'];
    assert(url_chars(slash));
    let tail2 = seg + slash + dec;
    let tail1 = r.repository + slash + tail2;
    let path = r.owner + slash + tail1;
    assert(k.canonical_url() =~= "https://github.com/"@ + path);
    lemma_url_chars_concat(seg, slash);
    lemma_url_chars_concat(seg + slash, dec);
    lemma_url_chars_concat(r.repository, slash);
    lemma_url_chars_concat(r.repository + slash, tail2);
    lemma_url_chars_concat(r.owner, slash);
    lemma_url_chars_concat(r.owner + slash, tail1);
    assert(path.last() == dec.last());
    lemma_parse_github_path(path);
    lemma_split_cons(r.owner, tail1);
    lemma_split_cons(r.repository, tail2);
    lemma_split_cons(seg, dec);
    lemma_split_single(dec);
    let segs = split_segments(path);
    assert(segs =~= seq![r.owner, r.repository, seg, dec]);
    assert(strip_git_suffix(r.repository) == r.repository);
    assert(spec_parse_u64(dec) == Some(k.number));
    assert(seg == "issues"@ <==> k.kind == LoopxItemKind::Issue);
}

/// What a successful parse gives: a key on github.com with a valid,
/// lowercase owner and repository, and a positive item number.
proof fn lemma_parsed_target_is_canonical(input: Seq<char>, t: IntakeTargetView)
    requires
        spec_parse_intake(input) == Ok::<IntakeTargetView, IntakeFailure>(t),
    ensures
        parsed_repository_key(t.repository()),
        t matches IntakeTargetView::Item(k) ==> k.number > 0,
{
    let hp = host_and_path(trim(input))->Ok_0;
    let segs = split_segments(hp.1);
    lemma_lower_idempotent(segs[0]);
    lemma_lower_idempotent(strip_git_suffix(segs[1]));
}

/// Parsing is stable on canonical URLs: a target the parser accepts, whose
/// repository name does not still end in `.git`, parses back from its
/// canonical URL (an item's `canonical_url`; for a repository, `https://`
/// and its canonical id).
pub proof fn lemma_canonical_url_round_trip(input: Seq<char>, t: IntakeTargetView)
    requires
        spec_parse_intake(input) == Ok::<IntakeTargetView, IntakeFailure>(t),
        !ends_with(t.repository().repository, ".git"@),
    ensures
        match t {
            IntakeTargetView::Item(k) => spec_parse_intake(k.canonical_url()) == Ok::<
                IntakeTargetView,
                IntakeFailure,
            >(t),
            IntakeTargetView::Repository(r) => spec_parse_intake("https://"@ + r.canonical_id()) == Ok::<
                IntakeTargetView,
                IntakeFailure,
            >(t),
        },
{
    lemma_parsed_target_is_canonical(input, t);
    match t {
        IntakeTargetView::Item(k) => lemma_item_url_round_trip(k),
        IntakeTargetView::Repository(r) => lemma_repository_url_round_trip(r),
    }
}

} // verus!
