//! Character-level string helpers: equality of string slices and the
//! final path segment (leaf) of a `/`-separated relative path.

use vstd::prelude::*;
use vstd::string::StrSliceExecFns;

verus! {

/// The final path segment of `s`: the characters after the last `/`,
/// or all of `s` when it holds no `/`.
pub open spec fn leaf_of(s: Seq<char>) -> Seq<char>
    decreases s.len(),
{
    if s.len() == 0 {
        Seq::empty()
    } else if s[s.len() - 1] == '/' {
        Seq::empty()
    } else {
        leaf_of(s.drop_last()).push(s.last())
    }
}

/// On a string without `/`, the leaf is the whole string.
pub proof fn lemma_leaf_no_slash(s: Seq<char>)
    requires
        forall|k: int| 0 <= k < s.len() ==> s[k] != '/',
    ensures
        leaf_of(s) == s,
    decreases s.len(),
{
    if s.len() == 0 {
        assert(leaf_of(s) =~= s);
    } else {
        lemma_leaf_no_slash(s.drop_last());
        assert(leaf_of(s) =~= s);
    }
}

/// When the last `/` of `s` stands at index `j`, the leaf is exactly
/// what follows it.
pub proof fn lemma_leaf_after_slash(s: Seq<char>, j: int)
    requires
        0 <= j < s.len(),
        s[j] == '/',
        forall|k: int| j < k < s.len() ==> s[k] != '/',
    ensures
        leaf_of(s) == s.subrange(j + 1, s.len() as int),
    decreases s.len(),
{
    if j == s.len() - 1 {
        assert(leaf_of(s) =~= s.subrange(j + 1, s.len() as int));
    } else {
        lemma_leaf_after_slash(s.drop_last(), j);
        assert(leaf_of(s) =~= s.subrange(j + 1, s.len() as int));
    }
}

/// Character-for-character equality of two string slices.
pub fn str_eq(a: &str, b: &str) -> (r: bool)
    ensures
        r == (a@ == b@),
{
    let n = a.unicode_len();
    let m = b.unicode_len();
    if n != m {
        return false;
    }
    let mut i: usize = 0;
    while i < n
        invariant
            n == a@.len(),
            n == b@.len(),
            i <= n,
            forall|k: int| 0 <= k < i ==> a@[k] == b@[k],
        decreases n - i,
    {
        if a.get_char(i) != b.get_char(i) {
            return false;
        }
        i = i + 1;
    }
    proof {
        assert(a@ =~= b@);
    }
    true
}

/// The final path segment of `path`, returned as a suffix of `path`.
pub fn leaf_name<'a>(path: &'a str) -> (r: &'a str)
    ensures
        r@ == leaf_of(path@),
{
    let n = path.unicode_len();
    let mut start: usize = 0;
    let mut i: usize = 0;
    while i < n
        invariant
            n == path@.len(),
            start <= i <= n,
            start == 0 ==> forall|k: int| 0 <= k < i ==> path@[k] != '/',
            start > 0 ==> path@[start - 1] == '/' && (forall|k: int|
                start <= k < i ==> path@[k] != '/'),
        decreases n - i,
    {
        if path.get_char(i) == '/' {
            start = i + 1;
        }
        i = i + 1;
    }
    proof {
        if start == 0 {
            lemma_leaf_no_slash(path@);
            assert(path@.subrange(0, n as int) =~= path@);
        } else {
            lemma_leaf_after_slash(path@, start - 1);
        }
    }
    path.substring_char(start, n)
}

} // verus!
