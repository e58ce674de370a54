//! Reading a `srcset`: which of the variants it lists has the highest
//! resolution.
//!
//! A `srcset` lists variants separated by commas. Each entry is an address
//! and, after blanks, a descriptor that begins with a number: a width as in
//! `1080w`, or a density as in `2x`. The resolution of an entry is that
//! number; an entry without one has resolution 0.

use vstd::prelude::*;
use vstd::slice::slice_subrange;
use crate::fields::{
    blank, byte_seqs, fields, is_blank, lemma_fields_nonempty, split, trim, trimmed,
};
use crate::text::copy_bytes;

verus! {

/// A decimal digit.
pub open spec fn is_digit(b: u8) -> bool {
    48 <= b <= 57
}

/// The length of the first token of `s`: the bytes before its first blank.
pub open spec fn token_len(s: Seq<u8>) -> nat
    decreases s.len(),
{
    if s.len() == 0 || is_blank(s[0]) {
        0
    } else {
        1 + token_len(s.subrange(1, s.len() as int))
    }
}

/// The length of the run of digits that `s` begins with.
pub open spec fn digits_len(s: Seq<u8>) -> nat
    decreases s.len(),
{
    if s.len() == 0 || !is_digit(s[0]) {
        0
    } else {
        1 + digits_len(s.subrange(1, s.len() as int))
    }
}

/// The number that a run of digits writes.
pub open spec fn number_of(digits: Seq<u8>) -> nat
    decreases digits.len(),
{
    if digits.len() == 0 {
        0
    } else {
        number_of(digits.drop_last()) * 10 + (digits.last() - 48) as nat
    }
}

/// The number that `s` begins with, 0 where it begins with no digit. A
/// number beyond `u64::MAX` counts as `u64::MAX`.
pub open spec fn leading_number(s: Seq<u8>) -> nat {
    let n = number_of(s.subrange(0, digits_len(s) as int));
    if n > u64::MAX {
        u64::MAX as nat
    } else {
        n
    }
}

/// The address of an entry: its first token.
pub open spec fn entry_url(entry: Seq<u8>) -> Seq<u8> {
    trimmed(entry).subrange(0, token_len(trimmed(entry)) as int)
}

/// The descriptor of an entry: what follows its address.
pub open spec fn entry_descriptor(entry: Seq<u8>) -> Seq<u8> {
    trimmed(
        trimmed(entry).subrange(token_len(trimmed(entry)) as int, trimmed(entry).len() as int),
    )
}

/// The resolution of an entry.
pub open spec fn resolution(entry: Seq<u8>) -> nat {
    leading_number(entry_descriptor(entry))
}

/// The position of the entry of highest resolution; of several such, the
/// one listed last.
pub open spec fn best_index(entries: Seq<Seq<u8>>) -> int
    decreases entries.len(),
{
    if entries.len() <= 1 {
        0
    } else {
        let before = best_index(entries.drop_last());
        if resolution(entries.last()) >= resolution(entries[before]) {
            entries.len() - 1
        } else {
            before
        }
    }
}

/// The address of the variant of highest resolution that a `srcset` lists.
pub open spec fn best_variant(srcset: Seq<u8>) -> Seq<u8> {
    let entries = fields(srcset, 44);
    entry_url(entries[best_index(entries)])
}

/// The best entry is the best: no entry has a higher resolution, and every
/// entry listed after it has a lower one.
pub proof fn lemma_best_is_highest(entries: Seq<Seq<u8>>)
    requires
        entries.len() >= 1,
    ensures
        0 <= best_index(entries) < entries.len(),
        forall|i: int|
            0 <= i < entries.len() ==> resolution(#[trigger] entries[i]) <= resolution(
                entries[best_index(entries)],
            ),
        forall|i: int|
            best_index(entries) < i < entries.len() ==> resolution(#[trigger] entries[i])
                < resolution(entries[best_index(entries)]),
    decreases entries.len(),
{
    if entries.len() > 1 {
        let head = entries.drop_last();
        lemma_best_is_highest(head);
        let before = best_index(head);
        assert(head[before] == entries[before]);
        assert forall|i: int| 0 <= i < entries.len() implies resolution(#[trigger] entries[i])
            <= resolution(entries[best_index(entries)]) by {
            if i < head.len() {
                assert(head[i] == entries[i]);
            }
        }
        assert forall|i: int| best_index(entries) < i < entries.len() implies resolution(
            #[trigger] entries[i],
        ) < resolution(entries[best_index(entries)]) by {
            if i < head.len() {
                assert(head[i] == entries[i]);
            }
        }
    }
}

/// The variant taken from a `srcset` is the one of highest resolution: no
/// entry of the `srcset` has a higher one.
pub proof fn lemma_best_variant_is_highest(srcset: Seq<u8>)
    ensures
        ({
            let entries = fields(srcset, 44);
            &&& 0 <= best_index(entries) < entries.len()
            &&& best_variant(srcset) == entry_url(entries[best_index(entries)])
            &&& forall|i: int|
                0 <= i < entries.len() ==> resolution(#[trigger] entries[i]) <= resolution(
                    entries[best_index(entries)],
                )
        }),
{
    lemma_fields_nonempty(srcset, 44);
    lemma_best_is_highest(fields(srcset, 44));
}

/// The length of the first token of `s`.
pub fn token_length(s: &[u8]) -> (n: usize)
    ensures
        n == token_len(s@),
        n <= s@.len(),
{
    let mut i: usize = 0;
    assert(s@.subrange(0, s@.len() as int) =~= s@);
    while i < s.len() && !blank(s[i])
        invariant
            i <= s.len(),
            token_len(s@) == i + token_len(s@.subrange(i as int, s@.len() as int)),
        decreases s.len() - i,
    {
        proof {
            let rest = s@.subrange(i as int, s@.len() as int);
            assert(rest[0] == s@[i as int]);
            assert(rest.subrange(1, rest.len() as int) =~= s@.subrange(i + 1, s@.len() as int));
        }
        i += 1;
    }
    proof {
        let rest = s@.subrange(i as int, s@.len() as int);
        if i < s.len() {
            assert(rest[0] == s@[i as int]);
        }
    }
    i
}

/// The length of the run of digits that `s` begins with.
pub fn digits_length(s: &[u8]) -> (n: usize)
    ensures
        n == digits_len(s@),
        n <= s@.len(),
        forall|j: int| 0 <= j < n ==> is_digit(#[trigger] s@[j]),
{
    let mut i: usize = 0;
    assert(s@.subrange(0, s@.len() as int) =~= s@);
    while i < s.len() && 48 <= s[i] && s[i] <= 57
        invariant
            i <= s.len(),
            digits_len(s@) == i + digits_len(s@.subrange(i as int, s@.len() as int)),
            forall|j: int| 0 <= j < i ==> is_digit(#[trigger] s@[j]),
        decreases s.len() - i,
    {
        proof {
            let rest = s@.subrange(i as int, s@.len() as int);
            assert(rest[0] == s@[i as int]);
            assert(rest.subrange(1, rest.len() as int) =~= s@.subrange(i + 1, s@.len() as int));
        }
        i += 1;
    }
    proof {
        let rest = s@.subrange(i as int, s@.len() as int);
        if i < s.len() {
            assert(rest[0] == s@[i as int]);
        }
    }
    i
}

/// The number that `s` begins with.
pub fn leading_number_of(s: &[u8]) -> (n: u64)
    ensures
        n == leading_number(s@),
{
    let count = digits_length(s);
    let mut acc: u64 = 0;
    let mut i: usize = 0;
    assert(s@.subrange(0, 0) =~= Seq::<u8>::empty());
    while i < count
        invariant
            i <= count <= s.len(),
            count == digits_len(s@),
            forall|j: int| 0 <= j < count ==> is_digit(#[trigger] s@[j]),
            number_of(s@.subrange(0, i as int)) > u64::MAX ==> acc == u64::MAX,
            number_of(s@.subrange(0, i as int)) <= u64::MAX ==> acc == number_of(
                s@.subrange(0, i as int),
            ),
        decreases count - i,
    {
        let d: u64 = (s[i] - 48) as u64;
        proof {
            let next = s@.subrange(0, i + 1);
            assert(next.drop_last() =~= s@.subrange(0, i as int));
            assert(next.last() == s@[i as int]);
        }
        if acc > (u64::MAX - d) / 10 {
            acc = u64::MAX;
        } else {
            acc = acc * 10 + d;
        }
        i += 1;
    }
    acc
}

/// The resolution of an entry.
pub fn entry_resolution(entry: &[u8]) -> (r: u64)
    ensures
        r == resolution(entry@),
{
    let text = trim(entry);
    let cut = token_length(text.as_slice());
    let rest = slice_subrange(text.as_slice(), cut, text.len());
    let descriptor = trim(rest);
    leading_number_of(descriptor.as_slice())
}

/// The address of an entry.
pub fn entry_url_of(entry: &[u8]) -> (url: Vec<u8>)
    ensures
        url@ == entry_url(entry@),
{
    let text = trim(entry);
    let cut = token_length(text.as_slice());
    copy_bytes(slice_subrange(text.as_slice(), 0, cut))
}

/// The address of the variant of highest resolution that a `srcset` lists;
/// of several such, the one listed last.
pub fn best_variant_of(srcset: &[u8]) -> (url: Vec<u8>)
    ensures
        url@ == best_variant(srcset@),
{
    let entries = split(srcset, 44);
    let ghost all = byte_seqs(entries@);
    let mut best: usize = 0;
    assert(all[0] == entries@[0]@);
    let mut best_res = entry_resolution(entries[0].as_slice());
    let mut i: usize = 1;
    while i < entries.len()
        invariant
            1 <= i <= entries.len(),
            all == byte_seqs(entries@),
            best < i,
            best == best_index(all.subrange(0, i as int)),
            best_res == resolution(all[best as int]),
        decreases entries.len() - i,
    {
        proof {
            let now = all.subrange(0, i + 1);
            assert(now.drop_last() =~= all.subrange(0, i as int));
            assert(now.last() == all[i as int]);
            assert(now[best as int] == all[best as int]);
            assert(all[i as int] == entries@[i as int]@);
        }
        let r = entry_resolution(entries[i].as_slice());
        if r >= best_res {
            best = i;
            best_res = r;
        }
        i += 1;
    }
    proof {
        assert(all.subrange(0, all.len() as int) =~= all);
        assert(all[best as int] == entries@[best as int]@);
    }
    entry_url_of(entries[best].as_slice())
}

} // verus!
