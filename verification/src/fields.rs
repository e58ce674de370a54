//! Splitting byte strings at a separator, and trimming blanks.

use vstd::prelude::*;

verus! {

/// The byte strings that a list of byte vectors holds, in order.
pub open spec fn byte_seqs(v: Seq<Vec<u8>>) -> Seq<Seq<u8>> {
    v.map_values(|x: Vec<u8>| x@)
}

/// The fields of `s` between occurrences of `sep`. There is always at least
/// one: the empty text has one empty field, and `n` separators make `n + 1`
/// fields.
pub open spec fn fields(s: Seq<u8>, sep: u8) -> Seq<Seq<u8>>
    decreases s.len(),
{
    if s.len() == 0 {
        seq![Seq::<u8>::empty()]
    } else {
        let before = fields(s.drop_last(), sep);
        if s.last() == sep {
            before.push(Seq::<u8>::empty())
        } else {
            before.update(before.len() - 1, before.last().push(s.last()))
        }
    }
}

/// There is at least one field.
pub proof fn lemma_fields_nonempty(s: Seq<u8>, sep: u8)
    ensures
        fields(s, sep).len() >= 1,
    decreases s.len(),
{
    if s.len() > 0 {
        lemma_fields_nonempty(s.drop_last(), sep);
    }
}

/// A blank: space, tab, line feed, vertical tab, form feed or carriage return.
pub open spec fn is_blank(b: u8) -> bool {
    b == 32 || (9 <= b <= 13)
}

/// `s` without the blanks at its start.
pub open spec fn trimmed_start(s: Seq<u8>) -> Seq<u8>
    decreases s.len(),
{
    if s.len() > 0 && is_blank(s[0]) {
        trimmed_start(s.subrange(1, s.len() as int))
    } else {
        s
    }
}

/// `s` without the blanks at its end.
pub open spec fn trimmed_end(s: Seq<u8>) -> Seq<u8>
    decreases s.len(),
{
    if s.len() > 0 && is_blank(s.last()) {
        trimmed_end(s.drop_last())
    } else {
        s
    }
}

/// `s` without the blanks at either end.
pub open spec fn trimmed(s: Seq<u8>) -> Seq<u8> {
    trimmed_end(trimmed_start(s))
}

/// The three bytes write a white-space character beyond U+00FF: U+1680,
/// U+2000 to U+200A, U+2028, U+2029, U+202F, U+205F or U+3000.
pub open spec fn is_wide_space(a: u8, b: u8, c: u8) -> bool {
    ||| (a == 0xE1 && b == 0x9A && c == 0x80)
    ||| (a == 0xE2 && b == 0x80 && (0x80 <= c <= 0x8A || c == 0xA8 || c == 0xA9 || c == 0xAF))
    ||| (a == 0xE2 && b == 0x81 && c == 0x9F)
    ||| (a == 0xE3 && b == 0x80 && c == 0x80)
}

/// The two bytes write U+0085 or U+00A0.
pub open spec fn is_narrow_space(a: u8, b: u8) -> bool {
    a == 0xC2 && (b == 0x85 || b == 0xA0)
}

/// The length in bytes of the white-space character that `s` begins with, 0
/// where it begins with none. White space is what Unicode gives the
/// property `White_Space`, in UTF-8.
pub open spec fn leading_space_len(s: Seq<u8>) -> nat {
    if s.len() >= 1 && is_blank(s[0]) {
        1
    } else if s.len() >= 2 && is_narrow_space(s[0], s[1]) {
        2
    } else if s.len() >= 3 && is_wide_space(s[0], s[1], s[2]) {
        3
    } else {
        0
    }
}

/// The length in bytes of the white-space character that `s` ends with, 0
/// where it ends with none.
pub open spec fn trailing_space_len(s: Seq<u8>) -> nat {
    let n = s.len() as int;
    if n >= 1 && is_blank(s[n - 1]) {
        1
    } else if n >= 2 && is_narrow_space(s[n - 2], s[n - 1]) {
        2
    } else if n >= 3 && is_wide_space(s[n - 3], s[n - 2], s[n - 1]) {
        3
    } else {
        0
    }
}

/// `s` without the white space at its start.
pub open spec fn text_trimmed_start(s: Seq<u8>) -> Seq<u8>
    decreases s.len(),
{
    let n = leading_space_len(s);
    if n > 0 {
        text_trimmed_start(s.subrange(n as int, s.len() as int))
    } else {
        s
    }
}

/// `s` without the white space at its end.
pub open spec fn text_trimmed_end(s: Seq<u8>) -> Seq<u8>
    decreases s.len(),
{
    let n = trailing_space_len(s);
    if n > 0 {
        text_trimmed_end(s.subrange(0, s.len() - n))
    } else {
        s
    }
}

/// `s` without the white space at either end, ASCII or not.
pub open spec fn text_trimmed(s: Seq<u8>) -> Seq<u8> {
    text_trimmed_end(text_trimmed_start(s))
}

/// Whether the byte is a blank.
pub fn blank(b: u8) -> (r: bool)
    ensures
        r == is_blank(b),
{
    b == 32 || (9 <= b && b <= 13)
}

/// The fields of `s` between occurrences of `sep`.
pub fn split(s: &[u8], sep: u8) -> (out: Vec<Vec<u8>>)
    ensures
        byte_seqs(out@) == fields(s@, sep),
        out@.len() >= 1,
{
    let mut out: Vec<Vec<u8>> = Vec::new();
    let mut cur: Vec<u8> = Vec::new();
    let mut i: usize = 0;
    assert(s@.subrange(0, 0) =~= Seq::<u8>::empty());
    assert(byte_seqs(out@).push(cur@) =~= seq![Seq::<u8>::empty()]);
    while i < s.len()
        invariant
            i <= s.len(),
            fields(s@.subrange(0, i as int), sep) == byte_seqs(out@).push(cur@),
        decreases s.len() - i,
    {
        let b = s[i];
        let ghost head = s@.subrange(0, i as int);
        let ghost next = s@.subrange(0, i + 1);
        let ghost done = byte_seqs(out@);
        let ghost open = cur@;
        proof {
            assert(next.drop_last() =~= head);
            assert(next.last() == b);
        }
        if b == sep {
            out.push(cur);
            cur = Vec::new();
            proof {
                assert(byte_seqs(out@) =~= done.push(open));
                assert(byte_seqs(out@).push(cur@) =~= done.push(open).push(Seq::<u8>::empty()));
            }
        } else {
            cur.push(b);
            proof {
                let before = done.push(open);
                assert(before.update(before.len() - 1, before.last().push(b)) =~= done.push(
                    open.push(b),
                ));
            }
        }
        i += 1;
    }
    proof {
        assert(s@.subrange(0, s@.len() as int) =~= s@);
    }
    let ghost done = byte_seqs(out@);
    let ghost open = cur@;
    out.push(cur);
    assert(byte_seqs(out@) =~= done.push(open));
    out
}

/// `s` without the blanks at either end.
pub fn trim(s: &[u8]) -> (out: Vec<u8>)
    ensures
        out@ == trimmed(s@),
{
    let mut start: usize = 0;
    assert(s@.subrange(0, s@.len() as int) =~= s@);
    while start < s.len() && blank(s[start])
        invariant
            start <= s.len(),
            trimmed_start(s@) == trimmed_start(s@.subrange(start as int, s@.len() as int)),
        decreases s.len() - start,
    {
        proof {
            let rest = s@.subrange(start as int, s@.len() as int);
            assert(rest.subrange(1, rest.len() as int) =~= s@.subrange(
                start + 1,
                s@.len() as int,
            ));
        }
        start += 1;
    }
    let mut end: usize = s.len();
    while end > start && blank(s[end - 1])
        invariant
            start <= end <= s.len(),
            trimmed_start(s@) == s@.subrange(start as int, s@.len() as int),
            trimmed(s@) == trimmed_end(s@.subrange(start as int, end as int)),
        decreases end - start,
    {
        proof {
            let mid = s@.subrange(start as int, end as int);
            assert(mid.drop_last() =~= s@.subrange(start as int, end - 1));
        }
        end -= 1;
    }
    let mut out: Vec<u8> = Vec::new();
    let mut i: usize = start;
    while i < end
        invariant
            start <= i <= end <= s.len(),
            out@ == s@.subrange(start as int, i as int),
        decreases end - i,
    {
        out.push(s[i]);
        assert(out@ =~= s@.subrange(start as int, i + 1));
        i += 1;
    }
    out
}

/// The length of the white-space character that stands at `from` in `s`,
/// looking no further than `to`.
fn space_at(s: &[u8], from: usize, to: usize) -> (n: usize)
    requires
        from <= to <= s.len(),
    ensures
        n == leading_space_len(s@.subrange(from as int, to as int)),
        from + n <= to,
{
    let ghost part = s@.subrange(from as int, to as int);
    let left = to - from;
    proof {
        if left >= 1 {
            assert(part[0] == s@[from as int]);
        }
        if left >= 2 {
            assert(part[1] == s@[from + 1]);
        }
        if left >= 3 {
            assert(part[2] == s@[from + 2]);
        }
    }
    if left >= 1 && blank(s[from]) {
        1
    } else if left >= 2 && s[from] == 0xC2 && (s[from + 1] == 0x85 || s[from + 1] == 0xA0) {
        2
    } else if left >= 3 && wide_space(s[from], s[from + 1], s[from + 2]) {
        3
    } else {
        0
    }
}

/// The length of the white-space character that stands before `to` in `s`,
/// looking no further back than `from`.
fn space_before(s: &[u8], from: usize, to: usize) -> (n: usize)
    requires
        from <= to <= s.len(),
    ensures
        n == trailing_space_len(s@.subrange(from as int, to as int)),
        from + n <= to,
{
    let ghost part = s@.subrange(from as int, to as int);
    let left = to - from;
    proof {
        if left >= 1 {
            assert(part[left - 1] == s@[to - 1]);
        }
        if left >= 2 {
            assert(part[left - 2] == s@[to - 2]);
        }
        if left >= 3 {
            assert(part[left - 3] == s@[to - 3]);
        }
    }
    if left >= 1 && blank(s[to - 1]) {
        1
    } else if left >= 2 && s[to - 2] == 0xC2 && (s[to - 1] == 0x85 || s[to - 1] == 0xA0) {
        2
    } else if left >= 3 && wide_space(s[to - 3], s[to - 2], s[to - 1]) {
        3
    } else {
        0
    }
}

/// Whether the three bytes write a white-space character beyond U+00FF.
pub fn wide_space(a: u8, b: u8, c: u8) -> (r: bool)
    ensures
        r == is_wide_space(a, b, c),
{
    (a == 0xE1 && b == 0x9A && c == 0x80) || (a == 0xE2 && b == 0x80 && ((0x80 <= c && c <= 0x8A)
        || c == 0xA8 || c == 0xA9 || c == 0xAF)) || (a == 0xE2 && b == 0x81 && c == 0x9F) || (a
        == 0xE3 && b == 0x80 && c == 0x80)
}

/// `s` without the white space at either end, ASCII or not.
pub fn trim_text(s: &[u8]) -> (out: Vec<u8>)
    ensures
        out@ == text_trimmed(s@),
{
    let total = s.len();
    let mut start: usize = 0;
    assert(s@.subrange(0, s@.len() as int) =~= s@);
    loop
        invariant
            start <= total,
            total == s.len(),
            text_trimmed_start(s@) == text_trimmed_start(s@.subrange(start as int, total as int)),
        ensures
            start <= total,
            text_trimmed_start(s@) == s@.subrange(start as int, total as int),
        decreases total - start,
    {
        let n = space_at(s, start, total);
        if n == 0 {
            break;
        }
        proof {
            let rest = s@.subrange(start as int, total as int);
            assert(rest.subrange(n as int, rest.len() as int) =~= s@.subrange(
                start + n,
                total as int,
            ));
        }
        start += n;
    }
    let mut end: usize = total;
    loop
        invariant
            start <= end <= total,
            total == s.len(),
            text_trimmed(s@) == text_trimmed_end(s@.subrange(start as int, end as int)),
        ensures
            start <= end <= total,
            text_trimmed(s@) == s@.subrange(start as int, end as int),
        decreases end - start,
    {
        let n = space_before(s, start, end);
        if n == 0 {
            break;
        }
        proof {
            let mid = s@.subrange(start as int, end as int);
            assert(mid.subrange(0, mid.len() - n) =~= s@.subrange(start as int, end - n));
        }
        end -= n;
    }
    let mut out: Vec<u8> = Vec::new();
    let mut i: usize = start;
    while i < end
        invariant
            start <= i <= end <= s.len(),
            out@ == s@.subrange(start as int, i as int),
        decreases end - i,
    {
        out.push(s[i]);
        assert(out@ =~= s@.subrange(start as int, i + 1));
        i += 1;
    }
    out
}

} // verus!
