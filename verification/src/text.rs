//! Character-level string helpers: equality, searching and trimming, each
//! specified over the string's view as a `Seq<char>`.

use vstd::prelude::*;

verus! {

/// The whitespace characters that trimming removes.
pub open spec fn is_ws_char(c: char) -> bool {
    c == ' ' || c == '\t' || c == '\r' || c == '\n'
}

/// The number of leading whitespace characters of `s`.
pub open spec fn ws_prefix_len(s: Seq<char>) -> int
    decreases s.len(),
{
    if s.len() == 0 || !is_ws_char(s[0]) {
        0
    } else {
        1 + ws_prefix_len(s.drop_first())
    }
}

/// The number of trailing whitespace characters of `s`.
pub open spec fn ws_suffix_len(s: Seq<char>) -> int
    decreases s.len(),
{
    if s.len() == 0 || !is_ws_char(s[s.len() - 1]) {
        0
    } else {
        1 + ws_suffix_len(s.drop_last())
    }
}

/// `s` without its leading and trailing whitespace.
pub open spec fn trim_view(s: Seq<char>) -> Seq<char> {
    if ws_prefix_len(s) == s.len() {
        Seq::empty()
    } else {
        s.subrange(ws_prefix_len(s), s.len() - ws_suffix_len(s))
    }
}

/// How the leading-whitespace count sits in `s`: everything before it is
/// whitespace and the character at it, if any, is not.
pub proof fn lemma_ws_prefix(s: Seq<char>)
    ensures
        0 <= ws_prefix_len(s) <= s.len(),
        forall|j: int| 0 <= j < ws_prefix_len(s) ==> is_ws_char(#[trigger] s[j]),
        ws_prefix_len(s) < s.len() ==> !is_ws_char(s[ws_prefix_len(s)]),
    decreases s.len(),
{
    if s.len() > 0 && is_ws_char(s[0]) {
        lemma_ws_prefix(s.drop_first());
        assert forall|j: int| 0 <= j < ws_prefix_len(s) implies is_ws_char(#[trigger] s[j]) by {
            if j > 0 {
                assert(s.drop_first()[j - 1] == s[j]);
            }
        }
        if ws_prefix_len(s) < s.len() {
            assert(s.drop_first()[ws_prefix_len(s) - 1] == s[ws_prefix_len(s)]);
        }
    }
}

/// How the trailing-whitespace count sits in `s`: everything at or after
/// `s.len() - ws_suffix_len(s)` is whitespace and the character just before,
/// if any, is not.
pub proof fn lemma_ws_suffix(s: Seq<char>)
    ensures
        0 <= ws_suffix_len(s) <= s.len(),
        forall|j: int| s.len() - ws_suffix_len(s) <= j < s.len() ==> is_ws_char(#[trigger] s[j]),
        ws_suffix_len(s) < s.len() ==> !is_ws_char(s[s.len() - ws_suffix_len(s) - 1]),
    decreases s.len(),
{
    if s.len() > 0 && is_ws_char(s[s.len() - 1]) {
        lemma_ws_suffix(s.drop_last());
        assert forall|j: int| s.len() - ws_suffix_len(s) <= j < s.len() implies is_ws_char(
            #[trigger] s[j],
        ) by {
            if j < s.len() - 1 {
                assert(s.drop_last()[j] == s[j]);
            }
        }
        if ws_suffix_len(s) < s.len() {
            assert(s.drop_last()[s.len() - ws_suffix_len(s) - 1] == s[s.len() - ws_suffix_len(s)
                - 1]);
        }
    }
}

/// When `s` is not all whitespace, the trimmed range is well-formed.
pub proof fn lemma_trim_range(s: Seq<char>)
    requires
        ws_prefix_len(s) < s.len(),
    ensures
        0 <= ws_prefix_len(s) < s.len() - ws_suffix_len(s) <= s.len(),
{
    lemma_ws_prefix(s);
    lemma_ws_suffix(s);
    if s.len() - ws_suffix_len(s) <= ws_prefix_len(s) {
        assert(is_ws_char(s[ws_prefix_len(s)]));
    }
}

/// The index of the first occurrence of `c` in `s` at or after `from`, or
/// `s.len()` if there is none.
pub open spec fn find_from(s: Seq<char>, from: int, c: char) -> int
    decreases s.len() - from when 0 <= from <= s.len()
{
    if from >= s.len() {
        s.len() as int
    } else if s[from] == c {
        from
    } else {
        find_from(s, from + 1, c)
    }
}

/// How `find_from` sits in `s`: no occurrence before it, and an occurrence
/// at it if it is within range.
pub proof fn lemma_find_from(s: Seq<char>, from: int, c: char)
    requires
        0 <= from <= s.len(),
    ensures
        from <= find_from(s, from, c) <= s.len(),
        find_from(s, from, c) < s.len() ==> s[find_from(s, from, c)] == c,
        forall|j: int| from <= j < find_from(s, from, c) ==> s[j] != c,
    decreases s.len() - from,
{
    if from < s.len() && s[from] != c {
        lemma_find_from(s, from + 1, c);
    }
}

/// Any index with the same characterization is `find_from`.
pub proof fn lemma_find_from_unique(s: Seq<char>, from: int, c: char, r: int)
    requires
        0 <= from <= r <= s.len(),
        r < s.len() ==> s[r] == c,
        forall|j: int| from <= j < r ==> s[j] != c,
    ensures
        r == find_from(s, from, c),
{
    lemma_find_from(s, from, c);
    let f = find_from(s, from, c);
    if f < r {
        assert(s[f] != c);
    }
    if r < f {
        assert(s[r] != c);
    }
}

/// Whether two strings hold the same characters.
pub fn str_eq_chars(a: &str, b: &str) -> (r: bool)
    ensures
        r == (a@ == b@),
{
    let alen = a.unicode_len();
    let blen = b.unicode_len();
    if alen != blen {
        return false;
    }
    let mut i: usize = 0;
    while i < alen
        invariant
            alen == a@.len(),
            alen == b@.len(),
            i <= alen,
            forall|j: int| 0 <= j < i ==> a@[j] == b@[j],
        decreases alen - i,
    {
        if a.get_char(i) != b.get_char(i) {
            return false;
        }
        i += 1;
    }
    proof {
        assert(a@ =~= b@);
    }
    true
}

/// Whether the characters of `s` between `lo` and `hi` are exactly those of
/// `t`.
pub fn range_eq_str(s: &str, lo: usize, hi: usize, t: &str) -> (r: bool)
    requires
        lo <= hi <= s@.len(),
    ensures
        r == (s@.subrange(lo as int, hi as int) == t@),
{
    let tlen = t.unicode_len();
    if hi - lo != tlen {
        return false;
    }
    let mut i: usize = 0;
    while i < tlen
        invariant
            tlen == t@.len(),
            lo <= hi <= s@.len(),
            hi - lo == tlen,
            i <= tlen,
            forall|j: int| 0 <= j < i ==> s@[lo + j] == t@[j],
        decreases tlen - i,
    {
        if s.get_char(lo + i) != t.get_char(i) {
            return false;
        }
        i += 1;
    }
    proof {
        assert(s@.subrange(lo as int, hi as int) =~= t@);
    }
    true
}

/// The position of the first `c` in `s` at or after `from` and before
/// `end`, or `end` if there is none.
pub fn find_char_in(s: &str, from: usize, end: usize, c: char) -> (r: usize)
    requires
        from <= end <= s@.len(),
    ensures
        from <= r <= end,
        r < end ==> s@[r as int] == c,
        forall|j: int| from <= j < r ==> s@[j] != c,
{
    let mut i: usize = from;
    while i < end
        invariant
            from <= i <= end,
            end <= s@.len(),
            forall|j: int| from <= j < i ==> s@[j] != c,
        decreases end - i,
    {
        if s.get_char(i) == c {
            return i;
        }
        i += 1;
    }
    end
}

/// The trimmed bounds of the characters of `s` between `start` and `end`:
/// the returned range carries exactly the trimmed window.
pub fn trim_bounds(s: &str, start: usize, end: usize) -> (r: (usize, usize))
    requires
        start <= end <= s@.len(),
    ensures
        start <= r.0 <= r.1 <= end,
        trim_view(s@.subrange(start as int, end as int)) == s@.subrange(r.0 as int, r.1 as int),
{
    let ghost sub = s@.subrange(start as int, end as int);
    proof {
        lemma_ws_prefix(sub);
        lemma_ws_suffix(sub);
    }
    let mut lo: usize = start;
    while lo < end && is_ws(s.get_char(lo))
        invariant
            start <= lo <= end,
            end <= s@.len(),
            forall|j: int| start <= j < lo ==> is_ws_char(#[trigger] s@[j]),
        decreases end - lo,
    {
        lo += 1;
    }
    proof {
        assert forall|j: int| 0 <= j < lo - start implies is_ws_char(#[trigger] sub[j]) by {
            assert(sub[j] == s@[start + j]);
        }
        assert(lo - start == ws_prefix_len(sub)) by {
            if lo - start < ws_prefix_len(sub) {
                assert(is_ws_char(sub[lo - start]));
                assert(sub[lo - start] == s@[lo as int]);
            }
            if ws_prefix_len(sub) < lo - start {
                assert(is_ws_char(sub[ws_prefix_len(sub)]));
            }
        }
    }
    if lo == end {
        proof {
            assert(trim_view(sub) =~= s@.subrange(lo as int, lo as int));
        }
        return (lo, lo);
    }
    let mut hi: usize = end;
    while hi > lo && is_ws(s.get_char(hi - 1))
        invariant
            lo <= hi <= end,
            end <= s@.len(),
            forall|j: int| hi <= j < end ==> is_ws_char(#[trigger] s@[j]),
        decreases hi,
    {
        hi -= 1;
    }
    proof {
        assert forall|j: int| hi - start <= j < sub.len() implies is_ws_char(
            #[trigger] sub[j],
        ) by {
            assert(sub[j] == s@[start + j]);
        }
        lemma_trim_range(sub);
        assert(end - hi == ws_suffix_len(sub)) by {
            if end - hi < ws_suffix_len(sub) {
                assert(is_ws_char(sub[sub.len() - ws_suffix_len(sub)]));
                assert(!is_ws_char(s@[hi - 1]));
                assert(sub[hi - 1 - start] == s@[hi - 1]);
                if sub.len() - ws_suffix_len(sub) > hi - 1 - start {
                    assert(is_ws_char(s@[(start + sub.len() - ws_suffix_len(sub))]));
                }
            }
            if ws_suffix_len(sub) < end - hi {
                assert(is_ws_char(sub[sub.len() - end + hi]));
                assert(!is_ws_char(sub[sub.len() - ws_suffix_len(sub) - 1]));
            }
        }
        assert(trim_view(sub) =~= s@.subrange(lo as int, hi as int));
    }
    (lo, hi)
}

/// Whether `c` is a whitespace character in the sense of `is_ws_char`.
pub fn is_ws(c: char) -> (r: bool)
    ensures
        r == is_ws_char(c),
{
    c == ' ' || c == '\t' || c == '\r' || c == '\n'
}

} // verus!
