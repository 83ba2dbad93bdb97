//! Small text helpers: character-wise string equality and basename
//! extraction for deriving a logger name from a path-like string.

use vstd::prelude::*;

verus! {

/// Character-wise equality of two string slices.
pub fn str_eq(a: &str, b: &str) -> (r: bool)
    ensures
        r == (a@ == b@),
{
    let alen = a.unicode_len();
    let blen = b.unicode_len();
    if alen != blen {
        return false;
    }
    let mut i: usize = 0;
    while i < alen
        invariant
            alen == a@.len(),
            blen == b@.len(),
            alen == blen,
            i <= alen,
            forall|j: int| 0 <= j < i ==> a@[j] == b@[j],
        decreases alen - i,
    {
        if a.get_char(i) != b.get_char(i) {
            return false;
        }
        i = i + 1;
    }
    proof {
        assert(a@ =~= b@);
    }
    true
}

/// The part of `p` after its last `/`; `p` itself when it holds no `/`.
pub open spec fn spec_basename(p: Seq<char>) -> Seq<char>
    decreases p.len(),
{
    if p.len() == 0 {
        p
    } else if p[0] == '/' || has_slash(p) {
        spec_basename(p.skip(1))
    } else {
        p
    }
}

/// Whether `p` holds a `/` anywhere.
pub open spec fn has_slash(p: Seq<char>) -> bool {
    exists|i: int| 0 <= i < p.len() && p[i] == '/'
}

/// `spec_basename` keeps a suffix that starts right after a `/` (or the whole
/// string when there is no `/` at all).
proof fn lemma_basename_suffix(p: Seq<char>, i: int)
    requires
        0 <= i <= p.len(),
        i > 0 ==> p[i - 1] == '/',
        forall|j: int| i <= j < p.len() ==> p[j] != '/',
    ensures
        spec_basename(p) == p.skip(i),
    decreases p.len(),
{
    if i == 0 {
        if p.len() == 0 {
            assert(p.skip(0) =~= p);
        } else {
            assert(p[0] != '/');
            assert(!has_slash(p));
            assert(p.skip(0) =~= p);
        }
    } else {
        assert(has_slash(p));
        lemma_basename_suffix(p.skip(1), i - 1);
        assert(p.skip(1).skip(i - 1) =~= p.skip(i));
    }
}

/// The characters of `path` after its last `/`; `path` unchanged when it
/// holds none. Used to derive a logical logger name from a file path.
pub fn get_file_name(path: &str) -> (r: String)
    ensures
        r@ == spec_basename(path@),
{
    let n = path.unicode_len();
    let mut start: usize = 0;
    let mut i: usize = 0;
    while i < n
        invariant
            n == path@.len(),
            i <= n,
            start <= i,
            start > 0 ==> path@[start - 1] == '/',
            forall|j: int| start <= j < i ==> path@[j] != '/',
        decreases n - i,
    {
        if path.get_char(i) == '/' {
            start = i + 1;
        }
        i = i + 1;
    }
    let r = path.substring_char(start, n).to_owned();
    proof {
        lemma_basename_suffix(path@, start as int);
        assert(path@.subrange(start as int, n as int) =~= path@.skip(start as int));
    }
    r
}

} // verus!
