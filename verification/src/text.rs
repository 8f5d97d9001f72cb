//! Tests on the characters of a string.

use vstd::prelude::*;

verus! {

broadcast use vstd::string::group_string_axioms;

/// The characters of `text`, in order.
pub(crate) fn chars_of(text: &str) -> (v: Vec<char>)
    ensures
        v@ == text@,
{
    let mut v: Vec<char> = Vec::new();
    for c in it: text.chars()
        invariant
            v@ == it.seq().take(it.index()),
            it.seq() == text@,
    {
        v.push(c);
    }
    v
}

/// Whether `text` ends with the characters of `suffix`.
pub(crate) fn has_suffix(text: &Vec<char>, suffix: &str) -> (b: bool)
    ensures
        b == suffix@.is_suffix_of(text@),
{
    let tail = chars_of(suffix);
    let n = text.len();
    let k = tail.len();
    if k > n {
        return false;
    }
    let start = n - k;
    let mut i: usize = 0;
    while i < k
        invariant
            n == text@.len(),
            tail@ == suffix@,
            k == tail@.len(),
            start + k == n,
            i <= k,
            forall|j: int| 0 <= j < i ==> text@[start + j] == tail@[j],
        decreases k - i,
    {
        if text[start + i] != tail[i] {
            assert(text@.subrange(start as int, n as int)[i as int] != tail@[i as int]);
            return false;
        }
        i += 1;
    }
    assert(tail@ =~= text@.subrange(start as int, n as int));
    true
}

/// Whether `text` begins with the characters of `prefix`.
pub(crate) fn has_prefix(text: &Vec<char>, prefix: &str) -> (b: bool)
    ensures
        b == prefix@.is_prefix_of(text@),
{
    let head = chars_of(prefix);
    let k = head.len();
    if k > text.len() {
        return false;
    }
    let mut i: usize = 0;
    while i < k
        invariant
            head@ == prefix@,
            k == head@.len(),
            k <= text@.len(),
            i <= k,
            forall|j: int| 0 <= j < i ==> text@[j] == head@[j],
        decreases k - i,
    {
        if text[i] != head[i] {
            assert(text@.subrange(0, k as int)[i as int] != head@[i as int]);
            return false;
        }
        i += 1;
    }
    assert(head@ =~= text@.subrange(0, k as int));
    true
}

/// Whether `pattern` stands in `text` at position `at`.
pub open spec fn occurs_at(pattern: Seq<char>, text: Seq<char>, at: int) -> bool {
    0 <= at && at + pattern.len() <= text.len() && text.subrange(at, at + pattern.len())
        == pattern
}

/// Whether `pattern` stands somewhere in `text`.
pub open spec fn occurs_in(pattern: Seq<char>, text: Seq<char>) -> bool {
    exists|at: int| occurs_at(pattern, text, at)
}

/// Whether `pattern` stands in `text` at position `at`.
fn matches_at(text: &Vec<char>, pattern: &Vec<char>, at: usize) -> (b: bool)
    requires
        at + pattern@.len() <= text@.len(),
    ensures
        b == occurs_at(pattern@, text@, at as int),
{
    let k = pattern.len();
    let n = text.len();
    let mut i: usize = 0;
    while i < k
        invariant
            k == pattern@.len(),
            n == text@.len(),
            at + k <= n,
            i <= k,
            forall|j: int| 0 <= j < i ==> text@[at + j] == pattern@[j],
        decreases k - i,
    {
        if text[at + i] != pattern[i] {
            assert(text@.subrange(at as int, at + k)[i as int] != pattern@[i as int]);
            return false;
        }
        i += 1;
    }
    assert(text@.subrange(at as int, at + k) =~= pattern@);
    true
}

/// Whether the characters of `pattern` stand somewhere in `text`.
pub(crate) fn has_infix(text: &Vec<char>, pattern: &str) -> (b: bool)
    ensures
        b == occurs_in(pattern@, text@),
{
    let wanted = chars_of(pattern);
    let n = text.len();
    let k = wanted.len();
    if k > n {
        return false;
    }
    let last = n - k;
    let mut at: usize = 0;
    while at < last
        invariant
            wanted@ == pattern@,
            n == text@.len(),
            k == wanted@.len(),
            last + k == n,
            at <= last,
            forall|j: int| 0 <= j < at ==> !occurs_at(pattern@, text@, j),
        decreases last - at,
    {
        if matches_at(text, &wanted, at) {
            return true;
        }
        at += 1;
    }
    matches_at(text, &wanted, last)
}

/// Whether two strings hold the same characters.
pub(crate) fn same_text(a: &str, b: &str) -> (same: bool)
    ensures
        same == (a@ == b@),
{
    String::from_str(a) == String::from_str(b)
}

} // verus!
