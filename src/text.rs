//! Searching text by characters.
use vstd::prelude::*;

verus! {

/// `pat` occurs in `s` at `start`.
pub open spec fn occurs_at(s: Seq<char>, start: int, pat: Seq<char>) -> bool {
    0 <= start && start + pat.len() <= s.len() && s.subrange(start, start + pat.len()) == pat
}

/// Whether `pat` occurs in `s` at `start`.
pub fn matches_at(s: &str, start: usize, pat: &str) -> (r: bool)
    ensures
        r == occurs_at(s@, start as int, pat@),
{
    let n = s.unicode_len();
    let m = pat.unicode_len();
    if start > n || m > n - start {
        return false;
    }
    let mut k: usize = 0;
    while k < m
        invariant
            n == s@.len(),
            m == pat@.len(),
            start + m <= n,
            k <= m,
            forall|j: int| 0 <= j < k ==> s@[start + j] == pat@[j],
        decreases m - k,
    {
        if s.get_char(start + k) != pat.get_char(k) {
            assert(s@.subrange(start as int, start + m)[k as int] != pat@[k as int]);
            return false;
        }
        k = k + 1;
    }
    assert(s@.subrange(start as int, start + m) =~= pat@);
    true
}


/// The first position at or after `i` where `pat` occurs in `s`.
pub open spec fn first_occurrence_from(s: Seq<char>, pat: Seq<char>, i: int) -> Option<int>
    decreases s.len() + 1 - i,
{
    if i < 0 || i > s.len() {
        None
    } else if occurs_at(s, i, pat) {
        Some(i)
    } else {
        first_occurrence_from(s, pat, i + 1)
    }
}

/// The first position where `pat` occurs in `s`.
pub open spec fn first_occurrence(s: Seq<char>, pat: Seq<char>) -> Option<int> {
    first_occurrence_from(s, pat, 0)
}

/// `pat` occurs somewhere in `s`.
pub open spec fn contains_text(s: Seq<char>, pat: Seq<char>) -> bool {
    first_occurrence(s, pat) is Some
}

/// A first occurrence found from `i` on lies at or after `i`, and `pat`
/// occurs there.
pub proof fn lemma_first_occurrence_bounds(s: Seq<char>, pat: Seq<char>, i: int)
    ensures
        first_occurrence_from(s, pat, i) matches Some(k) ==> i <= k && occurs_at(s, k, pat),
    decreases s.len() + 1 - i,
{
    if 0 <= i <= s.len() && !occurs_at(s, i, pat) {
        lemma_first_occurrence_bounds(s, pat, i + 1);
    }
}

/// The first position at or after `from` where `pat` occurs in `s`.
pub fn find_from(s: &str, pat: &str, from: usize) -> (r: Option<usize>)
    ensures
        match r {
            Some(i) => first_occurrence_from(s@, pat@, from as int) == Some(i as int)
                && occurs_at(s@, i as int, pat@),
            None => first_occurrence_from(s@, pat@, from as int) is None,
        },
{
    let n = s.unicode_len();
    if from > n {
        return None;
    }
    let mut i: usize = from;
    while i <= n
        invariant
            n == s@.len(),
            from <= i <= n,
            first_occurrence_from(s@, pat@, from as int) == first_occurrence_from(s@, pat@, i as int),
        decreases n + 1 - i,
    {
        if matches_at(s, i, pat) {
            return Some(i);
        }
        if i == n {
            assert(first_occurrence_from(s@, pat@, n + 1) is None);
            return None;
        }
        i = i + 1;
    }
    None
}

/// The position of the first occurrence of `pat` in `s`, if any.
pub fn find(s: &str, pat: &str) -> (r: Option<usize>)
    ensures
        match r {
            Some(i) => first_occurrence(s@, pat@) == Some(i as int) && occurs_at(s@, i as int, pat@),
            None => first_occurrence(s@, pat@) is None,
        },
{
    find_from(s, pat, 0)
}

/// Whether `pat` occurs in `s`.
pub fn contains(s: &str, pat: &str) -> (r: bool)
    ensures
        r == contains_text(s@, pat@),
{
    find(s, pat).is_some()
}

/// Whether two texts are equal.
pub fn same_text(a: &str, b: &str) -> (r: bool)
    ensures
        r == (a@ == b@),
{
    if a.unicode_len() != b.unicode_len() {
        return false;
    }
    let r = matches_at(a, 0, b);
    assert(a@.subrange(0, b@.len() as int) =~= a@);
    r
}

/// The characters that Unicode calls white space.
pub open spec fn is_white_space(c: char) -> bool {
    ('\u{9}' <= c && c <= '\u{d}') || c == ' ' || c == '\u{85}' || c == '\u{a0}'
        || c == '\u{1680}' || ('\u{2000}' <= c && c <= '\u{200a}') || c == '\u{2028}'
        || c == '\u{2029}' || c == '\u{202f}' || c == '\u{205f}' || c == '\u{3000}'
}

pub fn white_space(c: char) -> (r: bool)
    ensures
        r == is_white_space(c),
{
    ('\u{9}' <= c && c <= '\u{d}') || c == ' ' || c == '\u{85}' || c == '\u{a0}'
        || c == '\u{1680}' || ('\u{2000}' <= c && c <= '\u{200a}') || c == '\u{2028}'
        || c == '\u{2029}' || c == '\u{202f}' || c == '\u{205f}' || c == '\u{3000}'
}

/// The leading run of characters of `s` that are not white space.
pub open spec fn word_prefix(s: Seq<char>) -> Seq<char>
    decreases s.len(),
{
    if s.len() == 0 || is_white_space(s[0]) {
        seq![]
    } else {
        seq![s[0]] + word_prefix(s.drop_first())
    }
}

/// The first word of `s`: after leading white space, the run up to the
/// next white space; `None` when `s` is all white space.
pub open spec fn first_word(s: Seq<char>) -> Option<Seq<char>>
    decreases s.len(),
{
    if s.len() == 0 {
        None
    } else if is_white_space(s[0]) {
        first_word(s.drop_first())
    } else {
        Some(word_prefix(s))
    }
}

proof fn lemma_word_prefix_extends(s: Seq<char>, from: int, to: int)
    requires
        0 <= from <= to < s.len(),
        forall|k: int| from <= k <= to ==> !is_white_space(#[trigger] s[k]),
        to + 1 == s.len() || is_white_space(s[to + 1]),
    ensures
        word_prefix(s.subrange(from, s.len() as int)) == s.subrange(from, to + 1),
    decreases to - from,
{
    let t = s.subrange(from, s.len() as int);
    assert(t.drop_first() =~= s.subrange(from + 1, s.len() as int));
    if from < to {
        lemma_word_prefix_extends(s, from + 1, to);
        assert(s.subrange(from, to + 1) =~= seq![s[from]] + s.subrange(from + 1, to + 1));
    } else {
        let u = s.subrange(from + 1, s.len() as int);
        assert(u.len() == 0 || is_white_space(u[0]));
        assert(word_prefix(u) == Seq::<char>::empty());
        assert(s.subrange(from, to + 1) =~= seq![s[from]]);
        assert(seq![s[from]] + Seq::<char>::empty() =~= seq![s[from]]);
    }
}

/// The first white-space separated word of `s` from position `start` on.
pub fn first_word_from(s: &str, start: usize) -> (r: Option<String>)
    requires
        start <= s@.len(),
    ensures
        match r {
            Some(w) => first_word(s@.subrange(start as int, s@.len() as int)) == Some(w@),
            None => first_word(s@.subrange(start as int, s@.len() as int)) is None,
        },
{
    let n = s.unicode_len();
    let mut i: usize = start;
    while i < n && white_space(s.get_char(i))
        invariant
            start <= i <= n,
            n == s@.len(),
            first_word(s@.subrange(start as int, n as int)) == first_word(s@.subrange(i as int, n as int)),
        decreases n - i,
    {
        assert(s@.subrange(i as int, n as int).drop_first() =~= s@.subrange(i + 1, n as int));
        i = i + 1;
    }
    if i == n {
        return None;
    }
    let mut j: usize = i + 1;
    while j < n && !white_space(s.get_char(j))
        invariant
            i < j <= n,
            n == s@.len(),
            forall|k: int| i <= k < j ==> !is_white_space(#[trigger] s@[k]),
        decreases n - j,
    {
        j = j + 1;
    }
    proof {
        lemma_word_prefix_extends(s@, i as int, j - 1);
    }
    Some(String::from_str(s.substring_char(i, j)))
}

/// `s` without its leading white space.
pub open spec fn trim_start(s: Seq<char>) -> Seq<char>
    decreases s.len(),
{
    if s.len() > 0 && is_white_space(s[0]) {
        trim_start(s.drop_first())
    } else {
        s
    }
}

/// `s` without its trailing white space.
pub open spec fn trim_end(s: Seq<char>) -> Seq<char>
    decreases s.len(),
{
    if s.len() > 0 && is_white_space(s.last()) {
        trim_end(s.drop_last())
    } else {
        s
    }
}

/// `s` without leading and trailing white space.
pub open spec fn trimmed(s: Seq<char>) -> Seq<char> {
    trim_end(trim_start(s))
}

/// The part of `s` between `from` and `to`, without leading and trailing
/// white space.
pub fn trim_range(s: &str, from: usize, to: usize) -> (r: &str)
    requires
        from <= to <= s@.len(),
    ensures
        r@ == trimmed(s@.subrange(from as int, to as int)),
{
    let mut i: usize = from;
    while i < to && white_space(s.get_char(i))
        invariant
            from <= i <= to <= s@.len(),
            trim_start(s@.subrange(from as int, to as int)) == trim_start(s@.subrange(i as int, to as int)),
        decreases to - i,
    {
        assert(s@.subrange(i as int, to as int).drop_first() =~= s@.subrange(i + 1, to as int));
        i = i + 1;
    }
    let mut j: usize = to;
    while j > i && white_space(s.get_char(j - 1))
        invariant
            from <= i <= j <= to <= s@.len(),
            trim_end(s@.subrange(i as int, to as int)) == trim_end(s@.subrange(i as int, j as int)),
        decreases j - i,
    {
        assert(s@.subrange(i as int, j as int).drop_last() =~= s@.subrange(i as int, j - 1));
        j = j - 1;
    }
    s.substring_char(i, j)
}

} // verus!
