//! The names under which media and diagnostic captures are stored.

use vstd::prelude::*;
use crate::url::MediaKind;

verus! {

/// `mp4`, the extension of a stored video.
pub const VIDEO_EXTENSION: [u8; 3] = [109, 112, 52];

/// `jpg`, the extension of a stored image.
pub const IMAGE_EXTENSION: [u8; 3] = [106, 112, 103];

/// `png`, the extension of a stored screenshot.
pub const SCREENSHOT_EXTENSION: [u8; 3] = [112, 110, 103];

/// `html`, the extension of a stored markup dump.
pub const MARKUP_EXTENSION: [u8; 4] = [104, 116, 109, 108];

/// What a diagnostic capture holds.
#[derive(Clone, Copy, Debug, PartialEq, Eq, Structural)]
pub enum EvidenceKind {
    Screenshot,
    Markup,
}

/// The decimal digits of `n`, most significant first, as ASCII.
pub open spec fn decimal(n: nat) -> Seq<u8>
    decreases n,
{
    if n < 10 {
        seq![(48 + n) as u8]
    } else {
        decimal(n / 10).push((48 + n % 10) as u8)
    }
}

/// The extension under which media of a kind is stored.
pub open spec fn extension_of(kind: MediaKind) -> Seq<u8> {
    match kind {
        MediaKind::Video => VIDEO_EXTENSION@,
        MediaKind::Image => IMAGE_EXTENSION@,
    }
}

/// The extension under which a capture is stored.
pub open spec fn evidence_extension(kind: EvidenceKind) -> Seq<u8> {
    match kind {
        EvidenceKind::Screenshot => SCREENSHOT_EXTENSION@,
        EvidenceKind::Markup => MARKUP_EXTENSION@,
    }
}

/// The name of a stored media file: the account, `_`, the time of saving in
/// seconds since the epoch, `.`, the extension.
pub open spec fn media_name(account: Seq<u8>, epoch_secs: nat, kind: MediaKind) -> Seq<u8> {
    account + seq![95u8] + decimal(epoch_secs) + seq![46u8] + extension_of(kind)
}

/// The name of a stored capture: its base name, a number that tells captures
/// of one base name apart, `.`, the extension.
pub open spec fn evidence_name(base: Seq<u8>, id: nat, kind: EvidenceKind) -> Seq<u8> {
    base + decimal(id) + seq![46u8] + evidence_extension(kind)
}

/// Appends all of `tail` to `out`.
pub fn append(out: &mut Vec<u8>, tail: &[u8])
    ensures
        final(out)@ == old(out)@ + tail@,
{
    let ghost start = out@;
    let mut i: usize = 0;
    assert(out@ =~= start + tail@.subrange(0, 0));
    while i < tail.len()
        invariant
            i <= tail.len(),
            out@ == start + tail@.subrange(0, i as int),
        decreases tail.len() - i,
    {
        out.push(tail[i]);
        assert(out@ =~= start + tail@.subrange(0, i + 1));
        i += 1;
    }
    assert(tail@.subrange(0, tail@.len() as int) =~= tail@);
}

/// The decimal digits of `n`.
pub fn render_decimal(n: u64) -> (out: Vec<u8>)
    ensures
        out@ == decimal(n as nat),
{
    let mut low_first: Vec<u8> = Vec::new();
    let mut m: u64 = n;
    let ghost mut tail: Seq<u8> = Seq::empty();
    assert(decimal(n as nat) =~= decimal(m as nat) + tail);
    while m >= 10
        invariant
            decimal(n as nat) == decimal(m as nat) + tail,
            tail.len() == low_first@.len(),
            forall|i: int| 0 <= i < tail.len() ==> tail[i] == low_first@[tail.len() - 1 - i],
        decreases m,
    {
        let d: u8 = 48 + (m % 10) as u8;
        proof {
            let next = seq![d] + tail;
            assert(decimal(m as nat) == decimal((m / 10) as nat).push(d));
            assert(decimal((m / 10) as nat).push(d) + tail =~= decimal((m / 10) as nat) + next);
            tail = next;
        }
        low_first.push(d);
        m = m / 10;
    }
    let mut out: Vec<u8> = Vec::new();
    out.push(48 + m as u8);
    let mut k: usize = low_first.len();
    assert(out@ =~= decimal(m as nat) + tail.subrange(0, 0));
    while k > 0
        invariant
            k <= low_first@.len(),
            tail.len() == low_first@.len(),
            forall|i: int| 0 <= i < tail.len() ==> tail[i] == low_first@[tail.len() - 1 - i],
            out@ == decimal(m as nat) + tail.subrange(0, tail.len() - k),
        decreases k,
    {
        k -= 1;
        out.push(low_first[k]);
        assert(out@ =~= decimal(m as nat) + tail.subrange(0, tail.len() - k));
    }
    assert(tail.subrange(0, tail.len() as int) =~= tail);
    out
}

/// The name under which a media file is stored.
pub fn media_file_name(account: &[u8], epoch_secs: u64, kind: MediaKind) -> (name: Vec<u8>)
    ensures
        name@ == media_name(account@, epoch_secs as nat, kind),
{
    let mut name: Vec<u8> = Vec::new();
    append(&mut name, account);
    name.push(95);
    let digits = render_decimal(epoch_secs);
    append(&mut name, digits.as_slice());
    name.push(46);
    match kind {
        MediaKind::Video => append(&mut name, VIDEO_EXTENSION.as_slice()),
        MediaKind::Image => append(&mut name, IMAGE_EXTENSION.as_slice()),
    }
    assert(name@ =~= media_name(account@, epoch_secs as nat, kind));
    name
}

/// The name under which a capture is stored.
pub fn evidence_file_name(base: &[u8], id: u16, kind: EvidenceKind) -> (name: Vec<u8>)
    ensures
        name@ == evidence_name(base@, id as nat, kind),
{
    let mut name: Vec<u8> = Vec::new();
    append(&mut name, base);
    let digits = render_decimal(id as u64);
    append(&mut name, digits.as_slice());
    name.push(46);
    match kind {
        EvidenceKind::Screenshot => append(&mut name, SCREENSHOT_EXTENSION.as_slice()),
        EvidenceKind::Markup => append(&mut name, MARKUP_EXTENSION.as_slice()),
    }
    assert(name@ =~= evidence_name(base@, id as nat, kind));
    name
}

} // verus!
