//! Character-level text operations.
//!
//! Strings are modelled by their sequence of characters. The executable
//! functions work on a `Vec<char>` copy of the text and on index ranges into
//! it, so that every scan is linear.

use vstd::prelude::*;

verus! {

/// Whether `char::is_whitespace` holds of a character.
pub uninterp spec fn char_is_whitespace(c: char) -> bool;

/// Trusted: `char::is_whitespace` of std. The contract only gives the answer
/// its name; which characters are white space is left to std.
#[verifier::external_body]
pub(crate) fn is_whitespace(c: char) -> (b: bool)
    ensures
        b == char_is_whitespace(c),
{
    c.is_whitespace()
}

/// Trusted: `String::push` of std appends one character.
#[verifier::external_body]
pub(crate) fn push_char(s: &mut String, c: char)
    ensures
        final(s)@ == old(s)@.push(c),
{
    s.push(c)
}

/// Trusted: `str::eq` of std, the equality of two string slices, holds where
/// they have the same characters.
pub assume_specification[ <str as PartialEq>::eq ](a: &str, b: &str) -> (r: bool)
    ensures
        r == (a@ == b@),
;

/// For each character of a text, whether it is white space.
pub open spec fn space_flags(s: Seq<char>) -> Seq<bool> {
    Seq::new(s.len(), |i: int| char_is_whitespace(s[i]))
}

/// The number of flags that are set at the start.
pub open spec fn leading(flags: Seq<bool>) -> int
    decreases flags.len(),
{
    if flags.len() > 0 && flags[0] {
        1 + leading(flags.drop_first())
    } else {
        0
    }
}

/// The number of flags that are set at the end.
pub open spec fn trailing(flags: Seq<bool>) -> int
    decreases flags.len(),
{
    if flags.len() > 0 && flags.last() {
        1 + trailing(flags.drop_last())
    } else {
        0
    }
}

/// The bounds of what is left of a row of flags once the set flags at its
/// start, and then those at its end, are cut off.
pub open spec fn trimmed(flags: Seq<bool>) -> (int, int) {
    let a = leading(flags);
    (a, flags.len() - trailing(flags.skip(a)))
}

/// The text without leading and trailing white space.
pub open spec fn trim(s: Seq<char>) -> Seq<char> {
    let bounds = trimmed(space_flags(s));
    s.subrange(bounds.0, bounds.1)
}

/// The position of the first occurrence of `c` in `s`, or the length of `s`
/// where there is none.
pub open spec fn index_of(s: Seq<char>, c: char) -> int
    decreases s.len(),
{
    if s.len() == 0 || s[0] == c {
        0
    } else {
        1 + index_of(s.drop_first(), c)
    }
}

/// Whether `pattern` occurs in `s` as a run of consecutive characters.
pub open spec fn contains_run(s: Seq<char>, pattern: Seq<char>) -> bool {
    exists|i: int| 0 <= i && i + pattern.len() <= s.len() && #[trigger] s.subrange(i, i + pattern.len()) == pattern
}

/// The runs of flags that are not set, each with its bounds, from position
/// `at` on, where a run that began at `start` is under way; `start == at`
/// says that none is.
pub open spec fn runs_after(flags: Seq<bool>, at: int, start: int) -> Seq<(int, int)>
    decreases flags.len() - at,
{
    let done = if start < at {
        seq![(start, at)]
    } else {
        Seq::empty()
    };
    if at >= flags.len() {
        done
    } else if flags[at] {
        done + runs_after(flags, at + 1, at + 1)
    } else {
        runs_after(flags, at + 1, start)
    }
}

/// The maximal runs of flags that are not set, each with its bounds.
pub open spec fn clear_runs(flags: Seq<bool>) -> Seq<(int, int)> {
    runs_after(flags, 0, 0)
}

/// The words of `s`: its maximal runs of characters that are not white space.
pub open spec fn words(s: Seq<char>) -> Seq<Seq<char>> {
    let runs = clear_runs(space_flags(s));
    Seq::new(runs.len(), |k: int| s.subrange(runs[k].0, runs[k].1))
}

/// The bounds of each of a sequence of ranges.
pub open spec fn bounds_of(ranges: Seq<(usize, usize)>) -> Seq<(int, int)> {
    Seq::new(ranges.len(), |k: int| (ranges[k].0 as int, ranges[k].1 as int))
}

/// The characters of each string of a sequence.
pub open spec fn texts(v: Seq<String>) -> Seq<Seq<char>> {
    Seq::new(v.len(), |i: int| v[i]@)
}

/// The position of `c` found by `index_of` is within the text, no earlier
/// character is `c`, and the character there is `c`.
pub proof fn lemma_index_of(s: Seq<char>, c: char)
    ensures
        0 <= index_of(s, c) <= s.len(),
        forall|k: int| 0 <= k < index_of(s, c) ==> s[k] != c,
        index_of(s, c) < s.len() ==> s[index_of(s, c)] == c,
    decreases s.len(),
{
    if s.len() == 0 || s[0] == c {
    } else {
        let t = s.drop_first();
        lemma_index_of(t, c);
        assert forall|k: int| 0 <= k < index_of(s, c) implies s[k] != c by {
            if k > 0 {
                assert(s[k] == t[k - 1]);
            }
        }
        if index_of(s, c) < s.len() {
            assert(s[index_of(s, c)] == t[index_of(t, c)]);
        }
    }
}

/// A position with no `c` before it, which holds `c` or is the end, is the one
/// `index_of` gives.
pub proof fn lemma_index_of_is(s: Seq<char>, c: char, i: int)
    requires
        0 <= i <= s.len(),
        forall|k: int| 0 <= k < i ==> s[k] != c,
        i < s.len() ==> s[i] == c,
    ensures
        index_of(s, c) == i,
    decreases s.len(),
{
    if s.len() == 0 || s[0] == c {
    } else {
        let t = s.drop_first();
        assert forall|k: int| 0 <= k < i - 1 implies t[k] != c by {
            assert(t[k] == s[k + 1]);
        }
        lemma_index_of_is(t, c, i - 1);
    }
}

/// The characters of a string slice.
pub fn to_chars(s: &str) -> (v: Vec<char>)
    ensures
        v@ == s@,
{
    broadcast use vstd::string::group_string_axioms;

    let mut v: Vec<char> = Vec::new();
    for c in it: s.chars()
        invariant
            it.seq() == s@,
            v@ == it.seq().take(it.index() as int),
    {
        assert(it.seq().take(it.index() + 1) =~= it.seq().take(it.index() as int).push(c));
        v.push(c);
    }
    assert(v@ =~= s@);
    v
}

/// The string made of the characters `chars[lo..hi]`.
pub fn substring(chars: &Vec<char>, lo: usize, hi: usize) -> (s: String)
    requires
        lo <= hi <= chars.len(),
    ensures
        s@ == chars@.subrange(lo as int, hi as int),
{
    let mut s = String::new();
    let mut i: usize = lo;
    while i < hi
        invariant
            lo <= i <= hi <= chars.len(),
            s@ == chars@.subrange(lo as int, i as int),
        decreases hi - i,
    {
        push_char(&mut s, chars[i]);
        assert(chars@.subrange(lo as int, i + 1) =~= chars@.subrange(lo as int, i as int).push(
            chars@[i as int],
        ));
        i = i + 1;
    }
    s
}

/// The first position in `lo..hi` that holds `c`, or `hi`.
pub fn find_char(chars: &Vec<char>, lo: usize, hi: usize, c: char) -> (i: usize)
    requires
        lo <= hi <= chars.len(),
    ensures
        lo <= i <= hi,
        i == lo + index_of(chars@.subrange(lo as int, hi as int), c),
{
    let mut i: usize = lo;
    while i < hi && chars[i] != c
        invariant
            lo <= i <= hi <= chars.len(),
            forall|k: int| lo <= k < i ==> chars@[k] != c,
        decreases hi - i,
    {
        i = i + 1;
    }
    proof {
        let s = chars@.subrange(lo as int, hi as int);
        lemma_index_of_is(s, c, i - lo);
    }
    i
}

/// For each character of `chars[lo..hi]`, whether it is white space.
pub fn classify(chars: &Vec<char>, lo: usize, hi: usize) -> (flags: Vec<bool>)
    requires
        lo <= hi <= chars.len(),
    ensures
        flags@ == space_flags(chars@.subrange(lo as int, hi as int)),
{
    let mut flags: Vec<bool> = Vec::new();
    let mut i: usize = lo;
    while i < hi
        invariant
            lo <= i <= hi <= chars.len(),
            flags@.len() == i - lo,
            forall|k: int| 0 <= k < i - lo ==> flags@[k] == char_is_whitespace(chars@[lo + k]),
        decreases hi - i,
    {
        flags.push(is_whitespace(chars[i]));
        i = i + 1;
    }
    assert(flags@ =~= space_flags(chars@.subrange(lo as int, hi as int)));
    flags
}

/// The bounds of what is left of `flags[lo..hi]` once the set flags at both
/// ends are cut off.
pub fn trim_flags(flags: &Vec<bool>, lo: usize, hi: usize) -> (r: (usize, usize))
    requires
        lo <= hi <= flags.len(),
    ensures
        lo <= r.0 <= r.1 <= hi,
        (r.0 - lo, r.1 - lo) == trimmed(flags@.subrange(lo as int, hi as int)),
{
    let ghost row = flags@.subrange(lo as int, hi as int);
    let mut a: usize = lo;
    assert(row.skip(0) =~= row);
    while a < hi && flags[a]
        invariant
            lo <= a <= hi <= flags@.len(),
            row == flags@.subrange(lo as int, hi as int),
            leading(row) == (a - lo) + leading(row.skip(a - lo)),
        decreases hi - a,
    {
        assert(row.skip(a - lo).drop_first() =~= row.skip(a - lo + 1));
        a = a + 1;
    }
    let mut b: usize = hi;
    assert(row.skip(a - lo) =~= row.subrange(a - lo, hi - lo));
    while b > a && flags[b - 1]
        invariant
            lo <= a <= b <= hi <= flags@.len(),
            row == flags@.subrange(lo as int, hi as int),
            trailing(row.skip(a - lo)) == (hi - b) + trailing(row.subrange(a - lo, b - lo)),
        decreases b - a,
    {
        assert(row.subrange(a - lo, b - lo).drop_last() =~= row.subrange(a - lo, b - lo - 1));
        b = b - 1;
    }
    (a, b)
}

/// The bounds of `chars[lo..hi]` without its leading and trailing white space.
pub fn trim_bounds(chars: &Vec<char>, lo: usize, hi: usize) -> (r: (usize, usize))
    requires
        lo <= hi <= chars.len(),
    ensures
        lo <= r.0 <= r.1 <= hi,
        chars@.subrange(r.0 as int, r.1 as int) == trim(chars@.subrange(lo as int, hi as int)),
{
    let flags = classify(chars, lo, hi);
    let (a, b) = trim_flags(&flags, 0, flags.len());
    assert(flags@.subrange(0, flags@.len() as int) =~= flags@);
    assert(chars@.subrange(lo as int, hi as int).subrange(a as int, b as int) =~= chars@.subrange(
        lo + a,
        lo + b,
    ));
    (lo + a, lo + b)
}

/// Whether `pattern` stands at position `at` of `chars[..hi]`.
pub fn matches_at(chars: &Vec<char>, at: usize, hi: usize, pattern: &Vec<char>) -> (b: bool)
    requires
        at <= hi <= chars.len(),
    ensures
        b == (at + pattern.len() <= hi && chars@.subrange(at as int, at + pattern.len())
            == pattern@),
{
    if pattern.len() > hi - at {
        return false;
    }
    let mut k: usize = 0;
    while k < pattern.len()
        invariant
            at <= hi <= chars.len(),
            at + pattern.len() <= hi,
            k <= pattern.len(),
            forall|j: int| 0 <= j < k ==> chars@[at + j] == pattern@[j],
        decreases pattern.len() - k,
    {
        if chars[at + k] != pattern[k] {
            assert(chars@.subrange(at as int, at + pattern.len())[k as int] != pattern@[k as int]);
            return false;
        }
        k = k + 1;
    }
    assert(chars@.subrange(at as int, at + pattern.len()) =~= pattern@);
    true
}

/// Whether `pattern` occurs somewhere in `chars`.
pub fn contains(chars: &Vec<char>, pattern: &Vec<char>) -> (b: bool)
    ensures
        b == contains_run(chars@, pattern@),
{
    let n: usize = chars.len();
    let mut i: usize = 0;
    while i < n
        invariant
            n == chars.len(),
            i <= n,
            forall|k: int|
                0 <= k < i && k + pattern@.len() <= n ==> #[trigger] chars@.subrange(
                    k,
                    k + pattern@.len(),
                ) != pattern@,
        decreases n - i,
    {
        if matches_at(chars, i, n, pattern) {
            return true;
        }
        i = i + 1;
    }
    matches_at(chars, n, n, pattern)
}

/// The maximal runs of flags that are not set, each with its bounds.
pub fn clear_ranges(flags: &Vec<bool>) -> (out: Vec<(usize, usize)>)
    ensures
        bounds_of(out@) == clear_runs(flags@),
        forall|k: int| 0 <= k < out@.len() ==> (#[trigger] out@[k]).0 <= out@[k].1 <= flags@.len(),
{
    let n: usize = flags.len();
    let mut out: Vec<(usize, usize)> = Vec::new();
    let mut start: usize = 0;
    let mut i: usize = 0;
    assert(bounds_of(out@) + runs_after(flags@, 0, 0) =~= runs_after(flags@, 0, 0));
    while i < n
        invariant
            start <= i <= n,
            n == flags@.len(),
            clear_runs(flags@) == bounds_of(out@) + runs_after(flags@, i as int, start as int),
            forall|k: int| 0 <= k < out@.len() ==> (#[trigger] out@[k]).0 <= out@[k].1 <= n,
        decreases n - i,
    {
        if flags[i] {
            let ghost later = runs_after(flags@, i + 1, i + 1);
            if start < i {
                let ghost before = bounds_of(out@);
                out.push((start, i));
                assert(bounds_of(out@) =~= before.push((start as int, i as int)));
                assert(before + (seq![(start as int, i as int)] + later) =~= before.push(
                    (start as int, i as int),
                ) + later);
            } else {
                assert(Seq::<(int, int)>::empty() + later =~= later);
            }
            start = i + 1;
        }
        i = i + 1;
    }
    if start < n {
        let ghost before = bounds_of(out@);
        out.push((start, n));
        assert(bounds_of(out@) =~= before + seq![(start as int, n as int)]);
    } else {
        assert(bounds_of(out@) + Seq::<(int, int)>::empty() =~= bounds_of(out@));
    }
    out
}

/// The words of `chars`, as `str::split_whitespace` gives them.
pub fn split_whitespace(chars: &Vec<char>) -> (out: Vec<String>)
    ensures
        texts(out@) == words(chars@),
{
    let flags = classify(chars, 0, chars.len());
    assert(chars@.subrange(0, chars@.len() as int) =~= chars@);
    let ranges = clear_ranges(&flags);
    let mut out: Vec<String> = Vec::new();
    let mut k: usize = 0;
    while k < ranges.len()
        invariant
            k <= ranges@.len(),
            flags@.len() == chars@.len(),
            bounds_of(ranges@) == clear_runs(space_flags(chars@)),
            forall|j: int|
                0 <= j < ranges@.len() ==> (#[trigger] ranges@[j]).0 <= ranges@[j].1
                    <= chars@.len(),
            out@.len() == k,
            forall|j: int| 0 <= j < k ==> texts(out@)[j] == words(chars@)[j],
        decreases ranges@.len() - k,
    {
        let (a, b) = ranges[k];
        assert(bounds_of(ranges@)[k as int] == (a as int, b as int));
        out.push(substring(chars, a, b));
        k = k + 1;
    }
    assert(bounds_of(ranges@).len() == ranges@.len());
    assert(texts(out@) =~= words(chars@));
    out
}

/// Appends `chars[lo..hi]` to a text.
pub fn extend(out: &mut Vec<char>, chars: &Vec<char>, lo: usize, hi: usize)
    requires
        lo <= hi <= chars.len(),
    ensures
        final(out)@ == old(out)@ + chars@.subrange(lo as int, hi as int),
{
    let mut k: usize = lo;
    assert(out@ + chars@.subrange(lo as int, lo as int) =~= out@);
    while k < hi
        invariant
            lo <= k <= hi <= chars.len(),
            out@ == old(out)@ + chars@.subrange(lo as int, k as int),
        decreases hi - k,
    {
        out.push(chars[k]);
        assert(old(out)@ + chars@.subrange(lo as int, k + 1) =~= (old(out)@ + chars@.subrange(
            lo as int,
            k as int,
        )).push(chars@[k as int]));
        k = k + 1;
    }
}

/// The first position at which `pattern` stands in `s`, or the length of `s`
/// where it stands nowhere.
pub open spec fn find_run(s: Seq<char>, pattern: Seq<char>) -> int
    decreases s.len(),
{
    if s.len() == 0 || pattern.is_prefix_of(s) {
        0
    } else {
        1 + find_run(s.drop_first(), pattern)
    }
}

/// The position that `find_run` gives is within the text, and `pattern`
/// stands there unless the position is the end.
pub proof fn lemma_find_run(s: Seq<char>, pattern: Seq<char>)
    ensures
        0 <= find_run(s, pattern) <= s.len(),
        find_run(s, pattern) < s.len() ==> pattern.is_prefix_of(s.skip(find_run(s, pattern))),
    decreases s.len(),
{
    assert(s.skip(0) =~= s);
    if s.len() == 0 || pattern.is_prefix_of(s) {
    } else {
        let t = s.drop_first();
        lemma_find_run(t, pattern);
        if find_run(t, pattern) < t.len() {
            assert(t.skip(find_run(t, pattern)) =~= s.skip(find_run(s, pattern)));
        }
    }
}

/// A position before which `pattern` stands nowhere, and at which it stands
/// unless the position is the end, is the one `find_run` gives.
pub proof fn lemma_find_run_is(s: Seq<char>, pattern: Seq<char>, i: int)
    requires
        0 <= i <= s.len(),
        forall|k: int| 0 <= k < i ==> !pattern.is_prefix_of(#[trigger] s.skip(k)),
        i < s.len() ==> pattern.is_prefix_of(s.skip(i)),
    ensures
        find_run(s, pattern) == i,
    decreases s.len(),
{
    assert(s.skip(0) =~= s);
    if s.len() == 0 || pattern.is_prefix_of(s) {
    } else {
        let t = s.drop_first();
        assert forall|k: int| 0 <= k < i - 1 implies !pattern.is_prefix_of(#[trigger] t.skip(k)) by {
            assert(t.skip(k) =~= s.skip(k + 1));
        }
        if i < s.len() {
            assert(t.skip(i - 1) =~= s.skip(i));
        }
        lemma_find_run_is(t, pattern, i - 1);
    }
}

/// The first position in `lo..` at which `pattern` stands, or the length of
/// the text.
pub fn find(chars: &Vec<char>, lo: usize, pattern: &Vec<char>) -> (i: usize)
    requires
        lo <= chars.len(),
    ensures
        lo <= i <= chars.len(),
        i == lo + find_run(chars@.skip(lo as int), pattern@),
{
    let n: usize = chars.len();
    let ghost s = chars@.skip(lo as int);
    let mut i: usize = lo;
    while i < n
        invariant
            lo <= i <= n,
            n == chars@.len(),
            s == chars@.skip(lo as int),
            forall|k: int| 0 <= k < i - lo ==> !pattern@.is_prefix_of(#[trigger] s.skip(k)),
        decreases n - i,
    {
        let ghost here = s.skip(i - lo);
        assert(here =~= chars@.skip(i as int));
        if matches_at(chars, i, n, pattern) {
            proof {
                assert(here.subrange(0, pattern@.len() as int) =~= chars@.subrange(
                    i as int,
                    i + pattern@.len(),
                ));
                lemma_find_run_is(s, pattern@, i - lo);
            }
            return i;
        }
        proof {
            if pattern@.is_prefix_of(here) {
                assert(here.subrange(0, pattern@.len() as int) =~= chars@.subrange(
                    i as int,
                    i + pattern@.len(),
                ));
            }
        }
        i = i + 1;
    }
    proof {
        lemma_find_run_is(s, pattern@, n - lo);
    }
    n
}

} // verus!
