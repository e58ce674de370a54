//! Searching byte strings for fixed patterns.

use vstd::prelude::*;

verus! {

/// `pat` stands in `hay` at position `i`.
pub open spec fn occurs_at(hay: Seq<u8>, pat: Seq<u8>, i: int) -> bool {
    &&& 0 <= i
    &&& i + pat.len() <= hay.len()
    &&& hay.subrange(i, i + pat.len()) == pat
}

/// `pat` stands somewhere in `hay`.
pub open spec fn contains(hay: Seq<u8>, pat: Seq<u8>) -> bool {
    exists|i: int| occurs_at(hay, pat, i)
}

/// `i` is the leftmost position at which `pat` stands in `hay`.
pub open spec fn is_first_occurrence(hay: Seq<u8>, pat: Seq<u8>, i: int) -> bool {
    &&& occurs_at(hay, pat, i)
    &&& forall|j: int| 0 <= j < i ==> !occurs_at(hay, pat, j)
}

/// The leftmost position of `pat` in `hay`, if there is one.
pub open spec fn first_occurrence(hay: Seq<u8>, pat: Seq<u8>) -> Option<int> {
    if contains(hay, pat) {
        Some(choose|i: int| is_first_occurrence(hay, pat, i))
    } else {
        None
    }
}

/// `hay` begins with `pat`.
pub open spec fn has_prefix(hay: Seq<u8>, pat: Seq<u8>) -> bool {
    occurs_at(hay, pat, 0)
}

/// `hay` ends with `pat`.
pub open spec fn has_suffix(hay: Seq<u8>, pat: Seq<u8>) -> bool {
    occurs_at(hay, pat, hay.len() - pat.len())
}

/// A leftmost occurrence is unique, so `first_occurrence` names it.
pub proof fn lemma_first_occurrence_is(hay: Seq<u8>, pat: Seq<u8>, i: int)
    requires
        is_first_occurrence(hay, pat, i),
    ensures
        first_occurrence(hay, pat) == Some(i),
{
    let k = choose|k: int| is_first_occurrence(hay, pat, k);
    assert(occurs_at(hay, pat, i));
    if k < i {
        assert(!occurs_at(hay, pat, k));
    } else if i < k {
        assert(!occurs_at(hay, pat, i));
    }
}

/// Whether `pat` stands in `hay` at position `at`.
pub fn matches_at(hay: &[u8], pat: &[u8], at: usize) -> (r: bool)
    ensures
        r == occurs_at(hay@, pat@, at as int),
{
    if pat.len() > hay.len() || at > hay.len() - pat.len() {
        return false;
    }
    let mut k: usize = 0;
    while k < pat.len()
        invariant
            k <= pat.len(),
            at + pat.len() <= hay.len(),
            forall|j: int| 0 <= j < k ==> hay@[at + j] == pat@[j],
        decreases pat.len() - k,
    {
        if hay[at + k] != pat[k] {
            proof {
                let sub = hay@.subrange(at as int, at + pat.len());
                assert(sub[k as int] == hay@[at + k]);
            }
            return false;
        }
        k += 1;
    }
    assert(hay@.subrange(at as int, at + pat.len()) =~= pat@);
    true
}

/// The leftmost position of `pat` in `hay`.
pub fn find(hay: &[u8], pat: &[u8]) -> (r: Option<usize>)
    ensures
        match r {
            Some(i) => is_first_occurrence(hay@, pat@, i as int),
            None => !contains(hay@, pat@),
        },
        r.is_some() == contains(hay@, pat@),
        first_occurrence(hay@, pat@) == match r {
            Some(i) => Some(i as int),
            None => None,
        },
{
    if pat.len() > hay.len() {
        return None;
    }
    let last: usize = hay.len() - pat.len();
    let mut i: usize = 0;
    loop
        invariant
            i <= last,
            last == hay.len() - pat.len(),
            forall|j: int| 0 <= j < i ==> !occurs_at(hay@, pat@, j),
        decreases last - i,
    {
        if matches_at(hay, pat, i) {
            proof {
                lemma_first_occurrence_is(hay@, pat@, i as int);
            }
            return Some(i);
        }
        if i == last {
            return None;
        }
        i += 1;
    }
}

/// Whether `pat` stands somewhere in `hay`.
pub fn includes(hay: &[u8], pat: &[u8]) -> (r: bool)
    ensures
        r == contains(hay@, pat@),
{
    find(hay, pat).is_some()
}

/// Whether `hay` begins with `pat`.
pub fn starts_with(hay: &[u8], pat: &[u8]) -> (r: bool)
    ensures
        r == has_prefix(hay@, pat@),
{
    matches_at(hay, pat, 0)
}

/// Whether `hay` ends with `pat`.
pub fn ends_with(hay: &[u8], pat: &[u8]) -> (r: bool)
    ensures
        r == has_suffix(hay@, pat@),
{
    if pat.len() > hay.len() {
        return false;
    }
    matches_at(hay, pat, hay.len() - pat.len())
}

/// Whether two byte strings are the same.
pub fn same_bytes(a: &[u8], b: &[u8]) -> (r: bool)
    ensures
        r == (a@ == b@),
{
    if a.len() != b.len() {
        return false;
    }
    let r = matches_at(a, b, 0);
    assert(a@.subrange(0, a@.len() as int) =~= a@);
    r
}

/// A copy of a byte string.
pub fn copy_bytes(a: &[u8]) -> (r: Vec<u8>)
    ensures
        r@ == a@,
{
    let mut r: Vec<u8> = Vec::new();
    let mut i: usize = 0;
    while i < a.len()
        invariant
            i <= a.len(),
            r@ == a@.subrange(0, i as int),
        decreases a.len() - i,
    {
        r.push(a[i]);
        assert(r@ =~= a@.subrange(0, i + 1));
        i += 1;
    }
    assert(a@.subrange(0, a@.len() as int) =~= a@);
    r
}

} // verus!
