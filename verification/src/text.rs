//! Newline splitting of the tool's captured output, and its reversal.
//!
//! The log facility of the version-control tool prints one abbreviated
//! revision identifier per line, newest first.  The commit list handed to
//! callers is that output split at newline characters and reversed, so these
//! two operations carry exact contracts: splitting follows [`split_lines`]
//! and reversal follows `Seq::reverse`.

use vstd::prelude::*;

verus! {

/// Index of the first newline character in `s`, or `s.len()` when `s` has none.
pub open spec fn first_newline(s: Seq<char>) -> int
    decreases s.len(),
{
    if s.len() == 0 {
        0
    } else if s[0] == '\n' {
        0
    } else {
        1 + first_newline(s.skip(1))
    }
}

/// The segments of `s` between newline characters, in order.  There is always
/// at least one segment: an input without a newline — the empty input
/// included — yields the single segment `s` itself.
pub open spec fn split_lines(s: Seq<char>) -> Seq<Seq<char>>
    decreases s.len(),
{
    let i: int = first_newline(s);
    if i < 0 || i >= s.len() {
        seq![s]
    } else {
        seq![s.take(i)] + split_lines(s.skip(i + 1))
    }
}

/// How many newline characters `s` holds.
pub open spec fn newline_count(s: Seq<char>) -> int
    decreases s.len(),
{
    if s.len() == 0 {
        0
    } else if s[0] == '\n' {
        1 + newline_count(s.skip(1))
    } else {
        newline_count(s.skip(1))
    }
}

/// `first_newline` is the position of a newline preceded only by
/// non-newlines; `k == s.len()` pins the no-newline case.
proof fn lemma_first_newline_at(s: Seq<char>, k: int)
    requires
        0 <= k <= s.len(),
        forall|j: int| 0 <= j < k ==> s[j] != '\n',
        k < s.len() ==> s[k] == '\n',
    ensures
        first_newline(s) == k,
    decreases k,
{
    if k == 0 {
    } else {
        assert(s[0] != '\n');
        lemma_first_newline_at(s.skip(1), k - 1);
        assert forall|j: int| 0 <= j < k - 1 implies s.skip(1)[j] != '\n' by {
            assert(s.skip(1)[j] == s[j + 1]);
        }
    }
}

/// Splitting a newline-free text yields that text as the one segment.
proof fn lemma_split_lines_whole(s: Seq<char>)
    requires
        forall|j: int| 0 <= j < s.len() ==> s[j] != '\n',
    ensures
        split_lines(s) == seq![s],
{
    lemma_first_newline_at(s, s.len() as int);
}

/// Splitting peels off the segment before the first newline: when the first
/// `k` characters of `s` are newline-free and `s[k]` is a newline, the split
/// is that prefix followed by the split of what comes after the newline.
proof fn lemma_split_lines_step(s: Seq<char>, k: int)
    requires
        0 <= k < s.len(),
        forall|j: int| 0 <= j < k ==> s[j] != '\n',
        s[k] == '\n',
    ensures
        split_lines(s) == seq![s.take(k)] + split_lines(s.skip(k + 1)),
{
    lemma_first_newline_at(s, k);
}

/// Skipping newline-free characters does not change the newline count.
proof fn lemma_newline_count_skip(s: Seq<char>, k: int)
    requires
        0 <= k <= s.len(),
        forall|j: int| 0 <= j < k ==> s[j] != '\n',
    ensures
        newline_count(s) == newline_count(s.skip(k)),
    decreases k,
{
    if k > 0 {
        assert(s[0] != '\n');
        assert(newline_count(s) == newline_count(s.skip(1)));
        assert forall|j: int| 0 <= j < k - 1 implies s.skip(1)[j] != '\n' by {
            assert(s.skip(1)[j] == s[j + 1]);
        }
        lemma_newline_count_skip(s.skip(1), k - 1);
        assert(s.skip(1).skip(k - 1) =~= s.skip(k));
    } else {
        assert(s.skip(0) =~= s);
    }
}

/// A text with `newline_count(text)` newlines splits into exactly one more
/// segment than it has newlines: a log of `n` lines yields `n` identifiers.
pub proof fn lemma_split_lines_count(s: Seq<char>)
    ensures
        split_lines(s).len() == newline_count(s) + 1,
    decreases s.len(),
{
    let i: int = first_newline(s);
    lemma_first_newline_bounds(s);
    if i < 0 || i >= s.len() {
        lemma_newline_count_skip(s, s.len() as int);
        assert(s.skip(s.len() as int).len() == 0);
    } else {
        lemma_split_lines_count(s.skip(i + 1));
        lemma_newline_count_skip(s, i);
        assert(s.skip(i)[0] == s[i]);
        assert(s.skip(i).skip(1) =~= s.skip(i + 1));
    }
}

/// `first_newline` lies between `0` and `s.len()`, marks a newline when it is
/// interior, and nothing before it is a newline.
proof fn lemma_first_newline_bounds(s: Seq<char>)
    ensures
        0 <= first_newline(s) <= s.len(),
        first_newline(s) < s.len() ==> s[first_newline(s)] == '\n',
        forall|j: int| 0 <= j < first_newline(s) ==> s[j] != '\n',
    decreases s.len(),
{
    if s.len() == 0 {
    } else if s[0] == '\n' {
    } else {
        lemma_first_newline_bounds(s.skip(1));
        assert forall|j: int| 0 <= j < first_newline(s) implies s[j] != '\n' by {
            if j >= 1 {
                assert(s.skip(1)[j - 1] == s[j]);
            }
        }
    }
}

/// Split `s` at newline characters, following [`split_lines`] exactly.
pub fn split_newlines(s: &str) -> (parts: Vec<String>)
    ensures
        parts.deep_view() == split_lines(s@),
{
    let n: usize = s.unicode_len();
    let mut parts: Vec<String> = Vec::new();
    let mut start: usize = 0;
    let mut i: usize = 0;
    proof {
        assert(parts.deep_view() =~= Seq::<Seq<char>>::empty());
        assert(s@.skip(0) =~= s@);
        assert(parts.deep_view() + split_lines(s@.skip(0)) =~= split_lines(s@));
    }
    while i < n
        invariant
            start <= i <= n,
            n == s@.len(),
            split_lines(s@) == parts.deep_view() + split_lines(s@.skip(start as int)),
            forall|j: int| start <= j < i ==> s@[j] != '\n',
        decreases n - i,
    {
        let c = s.get_char(i);
        if c == '\n' {
            let seg = String::from_str(s.substring_char(start, i));
            proof {
                let tail = s@.skip(start as int);
                assert forall|j: int| 0 <= j < i - start implies tail[j] != '\n' by {
                    assert(tail[j] == s@[start + j]);
                }
                assert(tail[i - start] == s@[i as int]);
                lemma_split_lines_step(tail, i - start);
                assert(tail.take(i - start) =~= s@.subrange(start as int, i as int));
                assert(tail.skip(i - start + 1) =~= s@.skip(i + 1));
                assert((parts.deep_view() + seq![seg@]) + split_lines(s@.skip(i + 1))
                    =~= parts.deep_view() + (seq![seg@] + split_lines(s@.skip(i + 1))));
            }
            parts.push(seg);
            proof {
                assert(parts.deep_view() =~= parts.deep_view().take(
                    parts.deep_view().len() - 1,
                ) + seq![s@.subrange(start as int, i as int)]);
            }
            start = i + 1;
        }
        i = i + 1;
    }
    let last = String::from_str(s.substring_char(start, n));
    proof {
        let tail = s@.skip(start as int);
        assert forall|j: int| 0 <= j < tail.len() implies tail[j] != '\n' by {
            assert(tail[j] == s@[start + j]);
        }
        lemma_split_lines_whole(tail);
        assert(tail =~= s@.subrange(start as int, n as int));
    }
    parts.push(last);
    proof {
        assert(parts.deep_view() =~= parts.deep_view().take(parts.deep_view().len() - 1)
            + seq![s@.subrange(start as int, n as int)]);
        assert(parts.deep_view() =~= split_lines(s@));
    }
    parts
}

/// Reverse the order of `v`, following `Seq::reverse` exactly.
pub fn reverse_strings(v: &Vec<String>) -> (r: Vec<String>)
    ensures
        r.deep_view() == v.deep_view().reverse(),
{
    let n: usize = v.len();
    let mut r: Vec<String> = Vec::new();
    let mut k: usize = 0;
    while k < n
        invariant
            k <= n,
            n == v@.len(),
            r@.len() == k,
            forall|m: int| 0 <= m < k ==> r.deep_view()[m] == v.deep_view()[n - 1 - m],
        decreases n - k,
    {
        let ghost prev = r.deep_view();
        let item = v[n - 1 - k].clone();
        r.push(item);
        proof {
            assert(r.deep_view() =~= prev.push(v.deep_view()[n - 1 - k as int]));
        }
        k = k + 1;
    }
    proof {
        assert(r.deep_view() =~= v.deep_view().reverse());
    }
    r
}

} // verus!
