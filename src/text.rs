use vstd::prelude::*;

use vstd::string::StrSliceExecFns;

verus! {

/// `needle` occurs in `haystack` starting at character `i`.
pub open spec fn occurs_at(haystack: Seq<char>, needle: Seq<char>, i: int) -> bool {
    0 <= i && i + needle.len() <= haystack.len() && haystack.subrange(i, i + needle.len()) == needle
}

pub open spec fn occurs_in(haystack: Seq<char>, needle: Seq<char>) -> bool {
    exists|i: int| occurs_at(haystack, needle, i)
}

/// Character-wise equality of two strings.
pub fn str_equals(a: &str, b: &str) -> (r: bool)
    ensures
        r == (a@ == b@),
{
    let n = a.unicode_len();
    if n != b.unicode_len() {
        return false;
    }
    let mut i: usize = 0;
    while i < n
        invariant
            n == a@.len(),
            n == b@.len(),
            i <= n,
            forall|k: int| 0 <= k < i ==> a@[k] == b@[k],
        decreases n - i,
    {
        if a.get_char(i) != b.get_char(i) {
            return false;
        }
        i += 1;
    }
    assert(a@ =~= b@);
    true
}

/// Whether `needle` occurs in `haystack` at `start`.
fn occurs_at_exec(haystack: &str, needle: &str, start: usize, haystack_len: usize, needle_len: usize) -> (r: bool)
    requires
        haystack_len == haystack@.len(),
        needle_len == needle@.len(),
        start + needle_len <= haystack_len,
    ensures
        r == occurs_at(haystack@, needle@, start as int),
{
    let mut k: usize = 0;
    while k < needle_len
        invariant
            haystack_len == haystack@.len(),
            needle_len == needle@.len(),
            start + needle_len <= haystack_len,
            k <= needle_len,
            forall|j: int| 0 <= j < k ==> haystack@[start + j] == needle@[j],
        decreases needle_len - k,
    {
        if haystack.get_char(start + k) != needle.get_char(k) {
            assert(haystack@.subrange(start as int, start + needle_len)[k as int] != needle@[k as int]);
            return false;
        }
        k += 1;
    }
    assert(haystack@.subrange(start as int, start + needle_len) =~= needle@);
    true
}

/// Whether `needle` occurs anywhere in `haystack`.
pub fn str_contains(haystack: &str, needle: &str) -> (r: bool)
    ensures
        r == occurs_in(haystack@, needle@),
{
    let h = haystack.unicode_len();
    let n = needle.unicode_len();
    if n > h {
        assert forall|i: int| !occurs_at(haystack@, needle@, i) by {}
        return false;
    }
    let last = h - n;
    let mut i: usize = 0;
    loop
        invariant
            h == haystack@.len(),
            n == needle@.len(),
            last == h - n,
            i <= last,
            forall|j: int| 0 <= j < i ==> !occurs_at(haystack@, needle@, j),
        ensures
            forall|j: int| 0 <= j <= last ==> !occurs_at(haystack@, needle@, j),
        decreases last - i,
    {
        if occurs_at_exec(haystack, needle, i, h, n) {
            return true;
        }
        if i == last {
            break;
        }
        i += 1;
    }
    assert forall|j: int| !occurs_at(haystack@, needle@, j) by {
        if 0 <= j <= last {
        }
    }
    false
}

} // verus!
