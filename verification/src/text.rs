//! Character-sequence helpers: substring containment and windowed
//! comparison, shared by icon normalization and the user-name extraction.

use vstd::prelude::*;
use vstd::string::StrSliceExecFns;

verus! {

/// `needle` occurs somewhere in `hay`.
pub open spec fn seq_contains(hay: Seq<char>, needle: Seq<char>) -> bool {
    exists|i: int|
        0 <= i && i + needle.len() <= hay.len() && #[trigger] hay.subrange(i, i + needle.len())
            == needle
}

/// `hay` starts with `prefix`.
pub open spec fn seq_starts_with(hay: Seq<char>, prefix: Seq<char>) -> bool {
    prefix.len() <= hay.len() && hay.subrange(0, prefix.len() as int) == prefix
}

/// The characters of `hay` at `at` onward match `needle` exactly.
pub fn str_matches_at(hay: &str, at: usize, needle: &str) -> (b: bool)
    requires
        at + needle@.len() <= hay@.len(),
    ensures
        b == (hay@.subrange(at as int, at + needle@.len()) == needle@),
{
    let h = hay.unicode_len();
    let n = needle.unicode_len();
    let mut j: usize = 0;
    while j < n
        invariant
            h == hay@.len(),
            n == needle@.len(),
            at + n <= h,
            j <= n,
            forall|k: int| 0 <= k < j ==> hay@[at + k] == needle@[k],
        decreases n - j,
    {
        if hay.get_char(at + j) != needle.get_char(j) {
            assert(hay@.subrange(at as int, at + needle@.len())[j as int] != needle@[j as int]);
            return false;
        }
        j += 1;
    }
    assert(hay@.subrange(at as int, at + needle@.len()) =~= needle@);
    true
}

/// Substring search; the result is exactly `seq_contains`.
pub fn str_contains_sub(hay: &str, needle: &str) -> (b: bool)
    ensures
        b == seq_contains(hay@, needle@),
{
    let h = hay.unicode_len();
    let n = needle.unicode_len();
    if n > h {
        assert(!seq_contains(hay@, needle@));
        return false;
    }
    let last = h - n;
    let mut i: usize = 0;
    loop
        invariant
            h == hay@.len(),
            n == needle@.len(),
            last == h - n,
            n <= h,
            i <= last,
            forall|j: int|
                0 <= j < i ==> #[trigger] hay@.subrange(j, j + needle@.len()) != needle@,
        ensures
            forall|j: int|
                0 <= j <= last ==> #[trigger] hay@.subrange(j, j + needle@.len()) != needle@,
        decreases last - i,
    {
        if str_matches_at(hay, i, needle) {
            assert(seq_contains(hay@, needle@));
            return true;
        }
        if i == last {
            break;
        }
        i += 1;
    }
    assert(forall|j: int|
        0 <= j && j + needle@.len() <= hay@.len() ==> #[trigger] hay@.subrange(j, j
            + needle@.len()) != needle@);
    false
}

/// Prefix test; the result is exactly `seq_starts_with`.
pub fn str_starts_with_prefix(hay: &str, prefix: &str) -> (b: bool)
    ensures
        b == seq_starts_with(hay@, prefix@),
{
    let h = hay.unicode_len();
    let n = prefix.unicode_len();
    if n > h {
        return false;
    }
    str_matches_at(hay, 0, prefix)
}

} // verus!
