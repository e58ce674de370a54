//! Media addresses: telling video from image, and the key under which an
//! address is remembered.

use vstd::prelude::*;
use vstd::slice::slice_subrange;
use crate::text::{contains, first_occurrence, is_first_occurrence, occurs_at, find, includes};

verus! {

/// `.mp4`: an address that holds it names a video.
pub const VIDEO_MARKER: [u8; 4] = [46, 109, 112, 52];

/// `&bytestart`: a byte-range parameter after other parameters.
pub const RANGE_PARAM_AMP: [u8; 10] = [38, 98, 121, 116, 101, 115, 116, 97, 114, 116];

/// `?bytestart`: a byte-range parameter that opens the query.
pub const RANGE_PARAM_QUERY: [u8; 10] = [63, 98, 121, 116, 101, 115, 116, 97, 114, 116];

/// The two kinds of media that are kept.
#[derive(Clone, Copy, Debug, PartialEq, Eq, Structural)]
pub enum MediaKind {
    Image,
    Video,
}

/// The address names a video.
pub open spec fn is_video_url(url: Seq<u8>) -> bool {
    contains(url, VIDEO_MARKER@)
}

/// The kind of media behind an address.
pub open spec fn kind_of_url(url: Seq<u8>) -> MediaKind {
    if is_video_url(url) {
        MediaKind::Video
    } else {
        MediaKind::Image
    }
}

/// `s` up to the leftmost `pat`, or all of `s` where `pat` does not occur.
pub open spec fn cut_before(s: Seq<u8>, pat: Seq<u8>) -> Seq<u8> {
    match first_occurrence(s, pat) {
        Some(i) => s.subrange(0, i),
        None => s,
    }
}

/// The key of an address: the address without its byte-range parameters and
/// all that follows them, so that the partial requests for one asset share a
/// key.
pub open spec fn normalized(url: Seq<u8>) -> Seq<u8> {
    cut_before(cut_before(url, RANGE_PARAM_AMP@), RANGE_PARAM_QUERY@)
}

/// What occurs in the first `n` bytes of `s` occurs in `s`.
pub proof fn lemma_occurs_in_prefix(s: Seq<u8>, n: int, pat: Seq<u8>, j: int)
    requires
        0 <= n <= s.len(),
        occurs_at(s.subrange(0, n), pat, j),
    ensures
        occurs_at(s, pat, j),
        j + pat.len() <= n,
{
    let p = s.subrange(0, n);
    assert(p.subrange(j, j + pat.len()) =~= s.subrange(j, j + pat.len()));
}

/// A prefix of a text without `pat` is without `pat`.
pub proof fn lemma_prefix_keeps_absence(s: Seq<u8>, n: int, pat: Seq<u8>)
    requires
        0 <= n <= s.len(),
        !contains(s, pat),
    ensures
        !contains(s.subrange(0, n), pat),
{
    if contains(s.subrange(0, n), pat) {
        let j = choose|j: int| occurs_at(s.subrange(0, n), pat, j);
        lemma_occurs_in_prefix(s, n, pat, j);
    }
}

/// What `cut_before` returns is a prefix of its argument.
pub proof fn lemma_cut_is_prefix(s: Seq<u8>, pat: Seq<u8>)
    ensures
        cut_before(s, pat).len() <= s.len(),
        cut_before(s, pat) == s.subrange(0, cut_before(s, pat).len() as int),
{
    if contains(s, pat) {
        let i = choose|i: int| is_first_occurrence(s, pat, i);
        lemma_first_exists(s, pat);
        assert(s.subrange(0, i).len() == i);
    } else {
        assert(s.subrange(0, s.len() as int) =~= s);
    }
}

/// Where `pat` occurs at all, it has a leftmost occurrence.
pub proof fn lemma_first_exists(s: Seq<u8>, pat: Seq<u8>)
    requires
        contains(s, pat),
    ensures
        is_first_occurrence(s, pat, choose|i: int| is_first_occurrence(s, pat, i)),
{
    let w = choose|w: int| occurs_at(s, pat, w);
    lemma_first_at_or_before(s, pat, w);
}

/// An occurrence at `w` has a leftmost occurrence at or before it.
proof fn lemma_first_at_or_before(s: Seq<u8>, pat: Seq<u8>, w: int)
    requires
        occurs_at(s, pat, w),
    ensures
        exists|i: int| 0 <= i <= w && is_first_occurrence(s, pat, i),
    decreases w,
{
    if forall|j: int| 0 <= j < w ==> !occurs_at(s, pat, j) {
        assert(is_first_occurrence(s, pat, w));
    } else {
        let j = choose|j: int| 0 <= j < w && occurs_at(s, pat, j);
        lemma_first_at_or_before(s, pat, j);
    }
}

/// After the cut a pattern that is not empty is gone.
pub proof fn lemma_cut_removes(s: Seq<u8>, pat: Seq<u8>)
    requires
        pat.len() > 0,
    ensures
        !contains(cut_before(s, pat), pat),
{
    if contains(s, pat) {
        lemma_first_exists(s, pat);
        let i = choose|i: int| is_first_occurrence(s, pat, i);
        if contains(s.subrange(0, i), pat) {
            let j = choose|j: int| occurs_at(s.subrange(0, i), pat, j);
            lemma_occurs_in_prefix(s, i, pat, j);
            assert(j < i);
        }
    }
}

/// Cutting a text that does not hold the pattern changes nothing.
pub proof fn lemma_cut_of_absent(s: Seq<u8>, pat: Seq<u8>)
    requires
        !contains(s, pat),
    ensures
        cut_before(s, pat) == s,
{
}

/// A key holds no byte-range parameter.
pub proof fn lemma_key_holds_no_range(url: Seq<u8>)
    ensures
        !contains(normalized(url), RANGE_PARAM_AMP@),
        !contains(normalized(url), RANGE_PARAM_QUERY@),
{
    let a = cut_before(url, RANGE_PARAM_AMP@);
    let b = cut_before(a, RANGE_PARAM_QUERY@);
    assert(RANGE_PARAM_AMP@.len() == 10);
    assert(RANGE_PARAM_QUERY@.len() == 10);
    lemma_cut_removes(url, RANGE_PARAM_AMP@);
    lemma_cut_removes(a, RANGE_PARAM_QUERY@);
    lemma_cut_is_prefix(a, RANGE_PARAM_QUERY@);
    lemma_prefix_keeps_absence(a, b.len() as int, RANGE_PARAM_AMP@);
}

/// Normalizing is idempotent: the key of a key is that key, since a key
/// holds no byte-range parameter to cut at.
pub proof fn lemma_normalize_idempotent(url: Seq<u8>)
    ensures
        normalized(normalized(url)) == normalized(url),
{
    let key = normalized(url);
    lemma_key_holds_no_range(url);
    lemma_cut_of_absent(key, RANGE_PARAM_AMP@);
    lemma_cut_of_absent(key, RANGE_PARAM_QUERY@);
}

/// Whether the address names a video.
pub fn is_video(url: &[u8]) -> (r: bool)
    ensures
        r == is_video_url(url@),
{
    includes(url, VIDEO_MARKER.as_slice())
}

/// The kind of media behind an address.
pub fn media_kind(url: &[u8]) -> (r: MediaKind)
    ensures
        r == kind_of_url(url@),
{
    if is_video(url) {
        MediaKind::Video
    } else {
        MediaKind::Image
    }
}

/// The length of `s` up to the leftmost `pat` within its first `len` bytes.
fn cut_length(s: &[u8], len: usize, pat: &[u8]) -> (r: usize)
    requires
        len <= s.len(),
    ensures
        r <= len,
        s@.subrange(0, r as int) == cut_before(s@.subrange(0, len as int), pat@),
{
    let head = slice_subrange(s, 0, len);
    match find(head, pat) {
        Some(i) => {
            assert(head@.subrange(0, i as int) =~= s@.subrange(0, i as int));
            i
        },
        None => len,
    }
}

/// The key under which an address is remembered.
pub fn normalize_url(url: &[u8]) -> (key: Vec<u8>)
    ensures
        key@ == normalized(url@),
{
    let mut end: usize = url.len();
    assert(url@.subrange(0, end as int) =~= url@);
    end = cut_length(url, end, RANGE_PARAM_AMP.as_slice());
    end = cut_length(url, end, RANGE_PARAM_QUERY.as_slice());
    let mut key: Vec<u8> = Vec::new();
    let mut i: usize = 0;
    while i < end
        invariant
            i <= end <= url.len(),
            key@ == url@.subrange(0, i as int),
        decreases end - i,
    {
        key.push(url[i]);
        assert(key@ =~= url@.subrange(0, i + 1));
        i += 1;
    }
    key
}

} // verus!
