//! Character-level helpers: strings are handled as sequences of `char`.

use vstd::prelude::*;

verus! {

/// Appends one character to a string.
#[verifier::external_body]
pub(crate) fn push_char(s: &mut String, c: char)
    ensures
        final(s)@ == old(s)@.push(c),
{
    s.push(c);
}

/// Appends a string slice to a string.
pub(crate) fn push_str(s: &mut String, other: &str)
    ensures
        final(s)@ == old(s)@ + other@,
{
    s.append(other);
}

/// The characters of a string slice, in order.
pub fn chars_of(s: &str) -> (res: Vec<char>)
    ensures
        res@ == s@,
{
    let mut res: Vec<char> = Vec::new();
    for c in it: s.chars()
        invariant
            res@ == it.seq().take(it.index() as int),
    {
        res.push(c);
    }
    assert(res@ =~= s@);
    res
}

/// Builds a string from a slice of characters.
pub fn string_from_chars(v: &[char]) -> (res: String)
    ensures
        res@ == v@,
{
    let mut res = String::new();
    let mut i: usize = 0;
    while i < v.len()
        invariant
            i <= v@.len(),
            res@ == v@.take(i as int),
        decreases v@.len() - i,
    {
        push_char(&mut res, v[i]);
        i = i + 1;
        assert(res@ =~= v@.take(i as int));
    }
    assert(v@.take(v@.len() as int) =~= v@);
    res
}

/// Builds a string from the characters `v[from..to]`.
pub fn string_from_range(v: &[char], from: usize, to: usize) -> (res: String)
    requires
        from <= to <= v@.len(),
    ensures
        res@ == v@.subrange(from as int, to as int),
{
    let mut res = String::new();
    let mut i: usize = from;
    while i < to
        invariant
            from <= i <= to <= v@.len(),
            res@ == v@.subrange(from as int, i as int),
        decreases to - i,
    {
        push_char(&mut res, v[i]);
        i = i + 1;
        assert(res@ =~= v@.subrange(from as int, i as int));
    }
    res
}

/// Copies an optional string.
pub fn copy_opt_string(s: &Option<String>) -> (res: Option<String>)
    ensures
        res == *s,
{
    match s {
        Some(v) => Some(v.clone()),
        None => None,
    }
}

/// Copies a vector of strings.
pub fn copy_strings(v: &Vec<String>) -> (res: Vec<String>)
    ensures
        res@ == v@,
{
    let mut res: Vec<String> = Vec::new();
    let mut i: usize = 0;
    while i < v.len()
        invariant
            i <= v@.len(),
            res@ == v@.take(i as int),
        decreases v@.len() - i,
    {
        res.push(v[i].clone());
        i = i + 1;
        assert(res@ =~= v@.take(i as int));
    }
    assert(v@.take(v@.len() as int) =~= v@);
    res
}

/// Two string views are equal; decided on the characters.
pub fn str_eq(a: &str, b: &str) -> (res: bool)
    ensures
        res == (a@ == b@),
{
    let x = chars_of(a);
    let y = chars_of(b);
    seq_eq(&x, &y)
}

/// Equality of two character slices.
pub fn seq_eq(a: &[char], b: &[char]) -> (res: bool)
    ensures
        res == (a@ == b@),
{
    if a.len() != b.len() {
        return false;
    }
    let mut i: usize = 0;
    while i < a.len()
        invariant
            a@.len() == b@.len(),
            i <= a@.len(),
            forall|j: int| 0 <= j < i ==> a@[j] == b@[j],
        decreases a@.len() - i,
    {
        if a[i] != b[i] {
            return false;
        }
        i = i + 1;
    }
    assert(a@ =~= b@);
    true
}

/// Unicode `White_Space` characters, as `char::is_whitespace` documents them.
pub open spec fn is_white(c: char) -> bool {
    ||| c == ' '
    ||| ('\t' <= c && c <= '\r')
    ||| c == '\u{85}'
    ||| c == '\u{A0}'
    ||| c == '\u{1680}'
    ||| ('\u{2000}' <= c && c <= '\u{200A}')
    ||| c == '\u{2028}'
    ||| c == '\u{2029}'
    ||| c == '\u{202F}'
    ||| c == '\u{205F}'
    ||| c == '\u{3000}'
}

/// Decides `is_white`.
pub fn char_is_white(c: char) -> (res: bool)
    ensures
        res == is_white(c),
{
    c == ' ' || ('\t' <= c && c <= '\r') || c == '\u{85}' || c == '\u{A0}' || c == '\u{1680}'
        || ('\u{2000}' <= c && c <= '\u{200A}') || c == '\u{2028}' || c == '\u{2029}'
        || c == '\u{202F}' || c == '\u{205F}' || c == '\u{3000}'
}

/// ASCII letters and digits (`u8::is_ascii_alphanumeric` on the character).
pub open spec fn is_ascii_alnum(c: char) -> bool {
    ('0' <= c && c <= '9') || ('a' <= c && c <= 'z') || ('A' <= c && c <= 'Z')
}

/// ASCII digits.
pub open spec fn is_ascii_digit(c: char) -> bool {
    '0' <= c && c <= '9'
}

/// `char::to_ascii_lowercase`.
pub open spec fn lower_char(c: char) -> char {
    if 'A' <= c && c <= 'Z' {
        ((c as u32) + 32) as char
    } else {
        c
    }
}

/// `str::to_ascii_lowercase` on a character sequence.
pub open spec fn lower(s: Seq<char>) -> Seq<char> {
    s.map_values(|c: char| lower_char(c))
}

/// Decides `lower_char`.
pub fn lower_char_exec(c: char) -> (res: char)
    ensures
        res == lower_char(c),
{
    if 'A' <= c && c <= 'Z' {
        let code: u8 = (c as u32 + 32) as u8;
        code as char
    } else {
        c
    }
}

/// Lowercases the ASCII letters of a character slice.
pub fn lower_chars(v: &[char]) -> (res: Vec<char>)
    ensures
        res@ == lower(v@),
{
    let mut res: Vec<char> = Vec::new();
    let mut i: usize = 0;
    while i < v.len()
        invariant
            i <= v@.len(),
            res@ == lower(v@.take(i as int)),
        decreases v@.len() - i,
    {
        res.push(lower_char_exec(v[i]));
        i = i + 1;
        assert(lower(v@.take(i as int)) =~= lower(v@.take(i - 1)).push(lower_char(v@[i - 1])));
    }
    assert(v@.take(v@.len() as int) =~= v@);
    res
}

/// Index of the first non-white character, or the length when there is none.
pub open spec fn trim_start_index(s: Seq<char>) -> int
    decreases s.len(),
{
    if s.len() == 0 {
        0
    } else if is_white(s[0]) {
        1 + trim_start_index(s.drop_first())
    } else {
        0
    }
}

/// Index just past the last non-white character, or 0 when there is none.
pub open spec fn trim_end_index(s: Seq<char>) -> int
    decreases s.len(),
{
    if s.len() == 0 {
        0
    } else if is_white(s.last()) {
        trim_end_index(s.drop_last())
    } else {
        s.len() as int
    }
}

/// `str::trim`: drops white characters at both ends.
pub open spec fn trim(s: Seq<char>) -> Seq<char> {
    let a = trim_start_index(s);
    let b = trim_end_index(s);
    if a < b {
        s.subrange(a, b)
    } else {
        Seq::empty()
    }
}

proof fn lemma_trim_start_bounds(s: Seq<char>)
    ensures
        0 <= trim_start_index(s) <= s.len(),
        forall|j: int| 0 <= j < trim_start_index(s) ==> is_white(#[trigger] s[j]),
        trim_start_index(s) < s.len() ==> !is_white(s[trim_start_index(s)]),
    decreases s.len(),
{
    if s.len() > 0 && is_white(s[0]) {
        lemma_trim_start_bounds(s.drop_first());
        assert forall|j: int| 0 <= j < trim_start_index(s) implies is_white(#[trigger] s[j]) by {
            if j > 0 {
                assert(s[j] == s.drop_first()[j - 1]);
            }
        }
    }
}

proof fn lemma_trim_end_bounds(s: Seq<char>)
    ensures
        0 <= trim_end_index(s) <= s.len(),
        forall|j: int| trim_end_index(s) <= j < s.len() ==> is_white(#[trigger] s[j]),
        trim_end_index(s) > 0 ==> !is_white(s[trim_end_index(s) - 1]),
    decreases s.len(),
{
    if s.len() > 0 && is_white(s.last()) {
        lemma_trim_end_bounds(s.drop_last());
        assert forall|j: int| trim_end_index(s) <= j < s.len() implies is_white(#[trigger] s[j]) by {
            if j < s.len() - 1 {
                assert(s[j] == s.drop_last()[j]);
            }
        }
    }
}

/// `trim_start_index` is the length of the longest white prefix.
pub proof fn lemma_trim_start_char(s: Seq<char>, i: int)
    requires
        0 <= i <= s.len(),
        forall|j: int| 0 <= j < i ==> is_white(#[trigger] s[j]),
        i < s.len() ==> !is_white(s[i]),
    ensures
        trim_start_index(s) == i,
    decreases s.len(),
{
    if s.len() > 0 && is_white(s[0]) {
        assert(i > 0);
        assert forall|j: int| 0 <= j < i - 1 implies is_white(#[trigger] s.drop_first()[j]) by {
            assert(s.drop_first()[j] == s[j + 1]);
        }
        lemma_trim_start_char(s.drop_first(), i - 1);
    } else if s.len() > 0 {
        if i > 0 {
            assert(is_white(s[0]));
        }
    }
}

/// `trim_end_index` is the start of the longest white suffix.
pub proof fn lemma_trim_end_char(s: Seq<char>, i: int)
    requires
        0 <= i <= s.len(),
        forall|j: int| i <= j < s.len() ==> is_white(#[trigger] s[j]),
        i > 0 ==> !is_white(s[i - 1]),
    ensures
        trim_end_index(s) == i,
    decreases s.len(),
{
    if s.len() > 0 && is_white(s.last()) {
        assert(i < s.len());
        assert forall|j: int| i <= j < s.len() - 1 implies is_white(#[trigger] s.drop_last()[j]) by {
            assert(s.drop_last()[j] == s[j]);
        }
        lemma_trim_end_char(s.drop_last(), i);
    } else if s.len() > 0 {
        if i < s.len() {
            assert(is_white(s[s.len() - 1]));
        }
    }
}

/// Bounds of the trimmed range of a character slice.
pub fn trim_bounds(v: &[char]) -> (res: (usize, usize))
    ensures
        res.0 as int == trim_start_index(v@),
        res.1 as int == trim_end_index(v@),
        res.0 <= v@.len(),
        res.1 <= v@.len(),
{
    let mut a: usize = 0;
    while a < v.len() && char_is_white(v[a])
        invariant
            a <= v@.len(),
            forall|j: int| 0 <= j < a ==> is_white(#[trigger] v@[j]),
        decreases v@.len() - a,
    {
        a = a + 1;
    }
    proof {
        lemma_trim_start_char(v@, a as int);
    }
    let mut b: usize = v.len();
    while b > 0 && char_is_white(v[b - 1])
        invariant
            b <= v@.len(),
            forall|j: int| b <= j < v@.len() ==> is_white(#[trigger] v@[j]),
        decreases b,
    {
        b = b - 1;
    }
    proof {
        lemma_trim_end_char(v@, b as int);
    }
    (a, b)
}

/// `str::trim` on a character slice.
pub fn trim_chars(v: &[char]) -> (res: Vec<char>)
    ensures
        res@ == trim(v@),
{
    let (a, b) = trim_bounds(v);
    let mut res: Vec<char> = Vec::new();
    if a < b {
        let mut i = a;
        while i < b
            invariant
                a <= i <= b <= v@.len(),
                res@ == v@.subrange(a as int, i as int),
            decreases b - i,
        {
            res.push(v[i]);
            i = i + 1;
            assert(res@ =~= v@.subrange(a as int, i as int));
        }
    }
    assert(res@ =~= trim(v@));
    res
}

/// Whether a sequence has no non-white character.
pub open spec fn is_blank(s: Seq<char>) -> bool {
    forall|i: int| 0 <= i < s.len() ==> is_white(#[trigger] s[i])
}

/// The trimmed text of a sequence is empty exactly when it is blank.
pub proof fn lemma_trim_empty_iff_blank(s: Seq<char>)
    ensures
        (trim(s).len() == 0) <==> is_blank(s),
{
    lemma_trim_start_bounds(s);
    lemma_trim_end_bounds(s);
    let a = trim_start_index(s);
    let b = trim_end_index(s);
    if is_blank(s) {
        if a < s.len() {
            assert(is_white(s[a]));
        }
    } else {
        let k = choose|k: int| 0 <= k < s.len() && !is_white(s[k]);
        assert(a <= k) by {
            if a > k {
                assert(is_white(s[k]));
            }
        }
        assert(k < b) by {
            if b <= k {
                assert(is_white(s[k]));
            }
        }
    }
}

/// Whether a string is blank (`s.trim().is_empty()`).
pub fn str_is_blank(s: &str) -> (res: bool)
    ensures
        res == is_blank(s@),
        res == (trim(s@).len() == 0),
{
    let v = chars_of(s);
    let mut i: usize = 0;
    while i < v.len()
        invariant
            v@ == s@,
            i <= v@.len(),
            forall|j: int| 0 <= j < i ==> is_white(#[trigger] v@[j]),
        decreases v@.len() - i,
    {
        if !char_is_white(v[i]) {
            proof {
                lemma_trim_empty_iff_blank(s@);
            }
            return false;
        }
        i = i + 1;
    }
    proof {
        lemma_trim_empty_iff_blank(s@);
    }
    true
}

/// Whether `needle` occurs in `hay` at position `i`.
pub open spec fn occurs_at(hay: Seq<char>, needle: Seq<char>, i: int) -> bool {
    0 <= i && i + needle.len() <= hay.len() && hay.subrange(i, i + needle.len()) == needle
}

/// Whether `needle` occurs somewhere in `hay` (`str::contains`).
pub open spec fn contains(hay: Seq<char>, needle: Seq<char>) -> bool {
    exists|i: int| occurs_at(hay, needle, i)
}

/// Whether `s` begins with `p` (`str::starts_with`).
pub open spec fn starts_with(s: Seq<char>, p: Seq<char>) -> bool {
    p.len() <= s.len() && s.take(p.len() as int) == p
}

/// Whether `s` ends with `p` (`str::ends_with`).
pub open spec fn ends_with(s: Seq<char>, p: Seq<char>) -> bool {
    p.len() <= s.len() && s.skip(s.len() - p.len()) == p
}

/// Decides `occurs_at`.
pub fn occurs_at_exec(hay: &[char], needle: &[char], i: usize) -> (res: bool)
    ensures
        res == occurs_at(hay@, needle@, i as int),
{
    if i > hay.len() || needle.len() > hay.len() - i {
        return false;
    }
    let mut k: usize = 0;
    while k < needle.len()
        invariant
            i + needle@.len() <= hay@.len(),
            hay@.len() == hay.len(),
            k <= needle@.len(),
            forall|j: int| 0 <= j < k ==> hay@[i + j] == needle@[j],
        decreases needle@.len() - k,
    {
        assert(i + k < hay@.len());
        let idx: usize = i + k;
        if hay[idx] != needle[k] {
            assert(hay@.subrange(i as int, i + needle@.len())[k as int] != needle@[k as int]);
            return false;
        }
        k = k + 1;
    }
    assert(hay@.subrange(i as int, i + needle@.len()) =~= needle@);
    true
}

/// The first position at which `needle` occurs in `hay` at or after `from` (`str::find`).
pub fn find_from(hay: &[char], needle: &[char], from: usize) -> (res: Option<usize>)
    requires
        from <= hay@.len(),
    ensures
        match res {
            Some(i) => from <= i && occurs_at(hay@, needle@, i as int) && forall|j: int|
                from <= j < i ==> !occurs_at(hay@, needle@, j),
            None => forall|j: int| from <= j ==> !occurs_at(hay@, needle@, j),
        },
{
    let mut i: usize = from;
    loop
        invariant
            from <= i <= hay@.len(),
            forall|j: int| from <= j < i ==> !occurs_at(hay@, needle@, j),
        decreases hay@.len() - i,
    {
        if occurs_at_exec(hay, needle, i) {
            return Some(i);
        }
        if i == hay.len() {
            return None;
        }
        i = i + 1;
    }
}

/// `i` is the first position at or after `from` where `needle` occurs.
pub open spec fn is_first_occurrence(hay: Seq<char>, needle: Seq<char>, from: int, i: int) -> bool {
    from <= i && occurs_at(hay, needle, i) && forall|j: int|
        from <= j < i ==> !occurs_at(hay, needle, j)
}

/// The first position at or after `from` where `needle` occurs (`str::find`
/// on the tail starting at `from`).
pub open spec fn first_occurrence(hay: Seq<char>, needle: Seq<char>, from: int) -> Option<int> {
    if exists|i: int| is_first_occurrence(hay, needle, from, i) {
        Some(choose|i: int| is_first_occurrence(hay, needle, from, i))
    } else {
        None
    }
}

/// Computes `first_occurrence`.
pub fn find_first(hay: &[char], needle: &[char], from: usize) -> (res: Option<usize>)
    requires
        from <= hay@.len(),
    ensures
        res matches Some(i) ==> i <= hay@.len(),
        match first_occurrence(hay@, needle@, from as int) {
            Some(i) => res matches Some(r) && r as int == i,
            None => res is None,
        },
{
    let r = find_from(hay, needle, from);
    match r {
        Some(i) => {
            proof {
                assert(is_first_occurrence(hay@, needle@, from as int, i as int));
                let k = choose|k: int| is_first_occurrence(hay@, needle@, from as int, k);
                assert(k == i) by {
                    if k < i {
                        assert(!occurs_at(hay@, needle@, k));
                    } else if i < k {
                        assert(!occurs_at(hay@, needle@, i as int));
                    }
                }
            }
        },
        None => {
            assert(!exists|i: int| is_first_occurrence(hay@, needle@, from as int, i));
        },
    }
    r
}

/// Decides `contains`.
pub fn contains_exec(hay: &[char], needle: &[char]) -> (res: bool)
    ensures
        res == contains(hay@, needle@),
{
    match find_from(hay, needle, 0) {
        Some(i) => true,
        None => {
            assert forall|j: int| !occurs_at(hay@, needle@, j) by {
                if j < 0 {
                }
            }
            false
        },
    }
}

/// Decides `starts_with`.
pub fn starts_with_exec(s: &[char], p: &[char]) -> (res: bool)
    ensures
        res == starts_with(s@, p@),
{
    let r = occurs_at_exec(s, p, 0);
    assert(s@.take(p@.len() as int) =~= s@.subrange(0, p@.len() as int));
    r
}

/// Decides `ends_with`.
pub fn ends_with_exec(s: &[char], p: &[char]) -> (res: bool)
    ensures
        res == ends_with(s@, p@),
{
    if p.len() > s.len() {
        return false;
    }
    let r = occurs_at_exec(s, p, s.len() - p.len());
    assert(s@.skip(s@.len() - p@.len()) =~= s@.subrange(s@.len() - p@.len(), s@.len() as int));
    r
}

/// Whether some character of `s` is `c`.
pub fn has_char(s: &[char], c: char) -> (res: bool)
    ensures
        res == s@.contains(c),
{
    let mut i: usize = 0;
    while i < s.len()
        invariant
            i <= s@.len(),
            forall|j: int| 0 <= j < i ==> s@[j] != c,
        decreases s@.len() - i,
    {
        if s[i] == c {
            assert(s@[i as int] == c);
            return true;
        }
        i = i + 1;
    }
    false
}

/// The decimal digit character of a number below ten.
pub open spec fn digit_char(d: nat) -> char {
    if d == 0 { '0' }
    else if d == 1 { '1' }
    else if d == 2 { '2' }
    else if d == 3 { '3' }
    else if d == 4 { '4' }
    else if d == 5 { '5' }
    else if d == 6 { '6' }
    else if d == 7 { '7' }
    else if d == 8 { '8' }
    else { '9' }
}

/// The decimal representation of a natural number (`u64`'s `Display`).
pub open spec fn decimal(n: nat) -> Seq<char>
    decreases n,
{
    if n < 10 {
        seq![digit_char(n)]
    } else {
        decimal(n / 10).push(digit_char(n % 10))
    }
}

fn digit_char_exec(d: u64) -> (res: char)
    requires
        d < 10,
    ensures
        res == digit_char(d as nat),
{
    if d == 0 { '0' }
    else if d == 1 { '1' }
    else if d == 2 { '2' }
    else if d == 3 { '3' }
    else if d == 4 { '4' }
    else if d == 5 { '5' }
    else if d == 6 { '6' }
    else if d == 7 { '7' }
    else if d == 8 { '8' }
    else { '9' }
}

/// Appends the decimal representation of `n`.
pub fn push_decimal(s: &mut String, n: u64)
    ensures
        final(s)@ == old(s)@ + decimal(n as nat),
    decreases n,
{
    if n >= 10 {
        push_decimal(s, n / 10);
    }
    push_char(s, digit_char_exec(n % 10));
    assert(s@ =~= old(s)@ + decimal(n as nat)) by {
        if n >= 10 {
            assert(decimal(n as nat) == decimal((n / 10) as nat).push(digit_char((n % 10) as nat)));
        }
    }
}

} // verus!
