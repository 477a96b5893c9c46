//! Splitting a file path into the directory the tool runs in and the base
//! name the file is addressed by.
//!
//! A path is plain text here: the part after the last `/` is the base name,
//! the part before it the parent directory.  A path without a separator lies
//! in the current directory, so its parent is `.` (a deliberate choice for
//! the otherwise ambiguous bare-name case); a file directly under the root
//! keeps `/` as its parent.

use vstd::prelude::*;

verus! {

/// Position of the last `/` in `p`, or `-1` when `p` has none.
pub open spec fn last_separator(p: Seq<char>) -> int
    decreases p.len(),
{
    if p.len() == 0 {
        -1
    } else if p[p.len() - 1] == '/' {
        p.len() - 1
    } else {
        last_separator(p.drop_last())
    }
}

/// The part of `p` after its last `/`; all of `p` when it has no `/`.
pub open spec fn base_name_of(p: Seq<char>) -> Seq<char> {
    p.skip(last_separator(p) + 1)
}

/// The part of `p` before its last `/`; `.` when `p` has no `/`, and `/`
/// when the only separator is the leading one.
pub open spec fn parent_of(p: Seq<char>) -> Seq<char> {
    let i: int = last_separator(p);
    if i == -1 {
        seq!['.']
    } else if i == 0 {
        seq!['/']
    } else {
        p.take(i)
    }
}

/// `last_separator` is the position of a `/` followed only by non-`/`
/// characters; `k == -1` pins the no-separator case.
proof fn lemma_last_separator_at(p: Seq<char>, k: int)
    requires
        -1 <= k < p.len(),
        k >= 0 ==> p[k] == '/',
        forall|j: int| k < j < p.len() ==> p[j] != '/',
    ensures
        last_separator(p) == k,
    decreases p.len(),
{
    if p.len() == 0 {
    } else if p[p.len() - 1] == '/' {
        assert(k == p.len() - 1);
    } else {
        assert(k < p.len() - 1);
        lemma_last_separator_at(p.drop_last(), k);
    }
}

/// Index just after the last `/` of `path`, or `0` when it has none.
fn separator_split(path: &str) -> (i: usize)
    ensures
        i as int == last_separator(path@) + 1,
        i as int <= path@.len(),
{
    let n: usize = path.unicode_len();
    let mut i: usize = 0;
    let mut j: usize = 0;
    while j < n
        invariant
            i <= j <= n,
            n == path@.len(),
            i > 0 ==> path@[i - 1] == '/',
            forall|m: int| i <= m < j ==> path@[m] != '/',
        decreases n - j,
    {
        if path.get_char(j) == '/' {
            i = j + 1;
        }
        j = j + 1;
    }
    proof {
        lemma_last_separator_at(path@, i as int - 1);
    }
    i
}

/// The base name of `path`: everything after its last `/`.
pub fn base_name(path: &str) -> (name: String)
    ensures
        name@ == base_name_of(path@),
{
    let n: usize = path.unicode_len();
    let i: usize = separator_split(path);
    let name = String::from_str(path.substring_char(i, n));
    proof {
        assert(name@ =~= path@.skip(last_separator(path@) + 1));
    }
    name
}

/// The parent directory of `path`: everything before its last `/`, with the
/// `.` and `/` special cases described above.
pub fn parent_dir(path: &str) -> (dir: String)
    ensures
        dir@ == parent_of(path@),
{
    let i: usize = separator_split(path);
    if i == 0 {
        let dir = String::from_str(".");
        proof {
            reveal_strlit(".");
            assert(dir@ =~= seq!['.']);
        }
        dir
    } else if i == 1 {
        let dir = String::from_str("/");
        proof {
            reveal_strlit("/");
            assert(dir@ =~= seq!['/']);
        }
        dir
    } else {
        let dir = String::from_str(path.substring_char(0, i - 1));
        proof {
            assert(dir@ =~= path@.take(last_separator(path@)));
        }
        dir
    }
}

} // verus!
