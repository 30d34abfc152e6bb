//! Verified character-level string helpers used by the shorthand parsers,
//! the cache-path builder and the commit-distance computation.

use vstd::prelude::*;

verus! {

/// First index of `c` in `s`, scanning left to right.
pub fn find_char(s: &str, c: char) -> (r: Option<usize>)
    ensures
        match r {
            Some(i) => i < s@.len() && s@[i as int] == c && (forall|j: int|
                0 <= j < i ==> s@[j] != c),
            None => forall|j: int| 0 <= j < s@.len() ==> s@[j] != c,
        },
{
    let n = s.unicode_len();
    let mut i: usize = 0;
    while i < n
        invariant
            n == s@.len(),
            i <= n,
            forall|j: int| 0 <= j < i ==> s@[j] != c,
        decreases n - i,
    {
        if s.get_char(i) == c {
            return Some(i);
        }
        i += 1;
    }
    None
}

/// Last index of `c` in `s`, scanning right to left.
pub fn rfind_char(s: &str, c: char) -> (r: Option<usize>)
    ensures
        match r {
            Some(i) => i < s@.len() && s@[i as int] == c && (forall|j: int|
                i < j < s@.len() ==> s@[j] != c),
            None => forall|j: int| 0 <= j < s@.len() ==> s@[j] != c,
        },
{
    let n = s.unicode_len();
    let mut i: usize = n;
    while i > 0
        invariant
            n == s@.len(),
            i <= n,
            forall|j: int| i <= j < n ==> s@[j] != c,
        decreases i,
    {
        i -= 1;
        if s.get_char(i) == c {
            return Some(i);
        }
    }
    None
}

/// True when `s` ends with `suffix`.
pub fn has_suffix(s: &str, suffix: &str) -> (r: bool)
    ensures
        r == (s@.len() >= suffix@.len() && s@.subrange(
            s@.len() - suffix@.len(),
            s@.len() as int,
        ) == suffix@),
{
    let n = s.unicode_len();
    let m = suffix.unicode_len();
    if n < m {
        return false;
    }
    let start = n - m;
    let mut k: usize = 0;
    while k < m
        invariant
            n == s@.len(),
            m == suffix@.len(),
            m <= n,
            start == n - m,
            k <= m,
            forall|j: int| 0 <= j < k ==> s@[start + j] == suffix@[j],
        decreases m - k,
    {
        if s.get_char(start + k) != suffix.get_char(k) {
            assert(s@.subrange(n - m, n as int)[k as int] != suffix@[k as int]);
            return false;
        }
        k += 1;
    }
    assert(s@.subrange(n - m, n as int) =~= suffix@);
    true
}

/// Index of the last occurrence of `c` in `s`, or `-1` when `s` holds none.
pub open spec fn last_index_of(s: Seq<char>, c: char) -> int
    decreases s.len(),
{
    if s.len() == 0 {
        -1
    } else if s.last() == c {
        s.len() - 1
    } else {
        last_index_of(s.drop_last(), c)
    }
}

pub proof fn lemma_last_index_found(s: Seq<char>, c: char, i: int)
    requires
        0 <= i < s.len(),
        s[i] == c,
        forall|j: int| i < j < s.len() ==> s[j] != c,
    ensures
        last_index_of(s, c) == i,
    decreases s.len(),
{
    if i < s.len() - 1 {
        lemma_last_index_found(s.drop_last(), c, i);
    }
}

pub proof fn lemma_last_index_absent(s: Seq<char>, c: char)
    requires
        forall|j: int| 0 <= j < s.len() ==> s[j] != c,
    ensures
        last_index_of(s, c) == -1,
    decreases s.len(),
{
    if s.len() > 0 {
        lemma_last_index_absent(s.drop_last(), c);
    }
}

/// Characters that count as blank when a subprocess's output is trimmed.
pub open spec fn is_blank_char(c: char) -> bool {
    c == ' ' || c == '\n' || c == '\t' || c == '\r'
}

/// `s` without its leading blank characters.
pub open spec fn trim_leading(s: Seq<char>) -> Seq<char>
    decreases s.len(),
{
    if s.len() > 0 && is_blank_char(s[0]) {
        trim_leading(s.drop_first())
    } else {
        s
    }
}

/// `s` without its trailing blank characters.
pub open spec fn trim_trailing(s: Seq<char>) -> Seq<char>
    decreases s.len(),
{
    if s.len() > 0 && is_blank_char(s.last()) {
        trim_trailing(s.drop_last())
    } else {
        s
    }
}

/// `s` without leading and trailing blank characters.
pub open spec fn spec_trim_blank(s: Seq<char>) -> Seq<char> {
    trim_trailing(trim_leading(s))
}

proof fn lemma_trim_leading_is_subrange(s: Seq<char>, a: int)
    requires
        0 <= a <= s.len(),
        forall|j: int| 0 <= j < a ==> is_blank_char(s[j]),
        a < s.len() ==> !is_blank_char(s[a]),
    ensures
        trim_leading(s) == s.subrange(a, s.len() as int),
    decreases a,
{
    if a == 0 {
        if s.len() > 0 && is_blank_char(s[0]) {
            assert(false);
        }
        assert(s.subrange(0, s.len() as int) =~= s);
    } else {
        assert(is_blank_char(s[0]));
        lemma_trim_leading_is_subrange(s.drop_first(), a - 1);
        assert(s.drop_first().subrange(a - 1, s.drop_first().len() as int) =~= s.subrange(
            a,
            s.len() as int,
        ));
    }
}

proof fn lemma_trim_trailing_is_subrange(s: Seq<char>, b: int)
    requires
        0 <= b <= s.len(),
        forall|j: int| b <= j < s.len() ==> is_blank_char(s[j]),
        b > 0 ==> !is_blank_char(s[b - 1]),
    ensures
        trim_trailing(s) == s.subrange(0, b),
    decreases s.len() - b,
{
    if b == s.len() {
        if s.len() > 0 && is_blank_char(s.last()) {
            assert(false);
        }
        assert(s.subrange(0, s.len() as int) =~= s);
    } else {
        assert(is_blank_char(s.last()));
        lemma_trim_trailing_is_subrange(s.drop_last(), b);
        assert(s.drop_last().subrange(0, b) =~= s.subrange(0, b));
    }
}

/// `s` with leading and trailing blank characters removed, as a fresh string.
pub fn trim_blank(s: &str) -> (r: String)
    ensures
        r@ == spec_trim_blank(s@),
{
    let n = s.unicode_len();
    let mut a: usize = 0;
    while a < n && is_blank(s.get_char(a))
        invariant
            n == s@.len(),
            a <= n,
            forall|j: int| 0 <= j < a ==> is_blank_char(s@[j]),
        decreases n - a,
    {
        a += 1;
    }
    proof {
        lemma_trim_leading_is_subrange(s@, a as int);
    }
    if a == n {
        proof {
            lemma_trim_trailing_is_subrange(s@.subrange(a as int, n as int), 0);
        }
        let r = String::new();
        assert(r@ =~= spec_trim_blank(s@));
        return r;
    }
    let mut b: usize = n;
    while b > a + 1 && is_blank(s.get_char(b - 1))
        invariant
            n == s@.len(),
            a < n,
            a + 1 <= b <= n,
            !is_blank_char(s@[a as int]),
            forall|j: int| b <= j < n ==> is_blank_char(s@[j]),
        decreases b,
    {
        b -= 1;
    }
    assert(!is_blank_char(s@[b - 1])) by {
        if b == a + 1 {
            assert(s@[b - 1] == s@[a as int]);
        }
    }
    let r = s.substring_char(a, b).to_owned();
    proof {
        let t = s@.subrange(a as int, n as int);
        lemma_trim_trailing_is_subrange(t, b - a);
        assert(t.subrange(0, b - a) =~= s@.subrange(a as int, b as int));
    }
    r
}

/// Exec check mirroring [`is_blank_char`].
pub fn is_blank(c: char) -> (r: bool)
    ensures
        r == is_blank_char(c),
{
    c == ' ' || c == '\n' || c == '\t' || c == '\r'
}

/// Number of non-empty segments of `s` between newline characters, counting
/// from position `i` with `in_segment` telling whether a non-empty segment is
/// open: what splitting on newlines and dropping empty pieces leaves.
pub open spec fn count_lines_from(s: Seq<char>, i: int, in_segment: bool) -> nat
    decreases s.len() - i,
{
    if i < 0 || i >= s.len() {
        if in_segment {
            1nat
        } else {
            0nat
        }
    } else if s[i] == '\n' {
        (if in_segment {
            1nat
        } else {
            0nat
        }) + count_lines_from(s, i + 1, false)
    } else {
        count_lines_from(s, i + 1, true)
    }
}

/// Number of non-empty lines of `s`: its newline-separated segments that
/// hold at least one character.
pub open spec fn spec_count_nonempty_lines(s: Seq<char>) -> nat {
    count_lines_from(s, 0, false)
}

proof fn lemma_count_lines_bound(s: Seq<char>, i: int, in_segment: bool)
    requires
        0 <= i <= s.len(),
    ensures
        count_lines_from(s, i, in_segment) <= s.len() - i + 1,
    decreases s.len() - i,
{
    if i < s.len() {
        lemma_count_lines_bound(s, i + 1, s[i] != '\n');
        if s[i] == '\n' {
            lemma_count_lines_bound(s, i + 1, false);
        }
    }
}

/// Counts the non-empty newline-separated segments of `s`: how many commits
/// a `rev-list` output names, one hash per line.
pub fn count_nonempty_lines(s: &str) -> (r: usize)
    ensures
        r == spec_count_nonempty_lines(s@),
{
    let n = s.unicode_len();
    let mut i: usize = 0;
    let mut in_segment: bool = false;
    let mut count: usize = 0;
    proof {
        lemma_count_lines_bound(s@, 0, false);
    }
    while i < n
        invariant
            n == s@.len(),
            i <= n,
            count + count_lines_from(s@, i as int, in_segment) == spec_count_nonempty_lines(s@),
            count <= i,
            in_segment ==> count < i,
        decreases n - i,
    {
        let c = s.get_char(i);
        if c == '\n' {
            if in_segment {
                count += 1;
            }
            in_segment = false;
        } else {
            in_segment = true;
        }
        i += 1;
    }
    if in_segment {
        count += 1;
    }
    count
}

} // verus!
