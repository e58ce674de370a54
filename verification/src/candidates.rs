//! The candidate extractor: from the three signals of the displayed frame to
//! one ordered list of addresses worth probing.
//!
//! The order is the rank. Requests seen on the network come first, newest
//! first, because they most reliably show what the frame has loaded; then the
//! video element's source; then the displayed images, for each the `srcset`
//! variant of highest resolution ahead of its plain source. Of several equal
//! entries the first stays.

use vstd::prelude::*;
use crate::fields::byte_seqs;
use crate::srcset::{best_variant, best_variant_of};
use crate::text::{contains, copy_bytes, includes, has_prefix, same_bytes, starts_with};
use crate::url::{is_video, is_video_url};

verus! {

/// `instagram`: an address that holds it lies on the site's asset hosts.
pub const ASSET_HOST_MARKER: [u8; 9] = [105, 110, 115, 116, 97, 103, 114, 97, 109];

/// `.jpg`: an address that holds it names an image.
pub const IMAGE_MARKER: [u8; 4] = [46, 106, 112, 103];

/// `blob:`: the scheme of an in-memory object, which cannot be fetched.
pub const BLOB_SCHEME: [u8; 5] = [98, 108, 111, 98, 58];

/// An image must be wider than this many pixels to count as the frame's own.
pub const MIN_IMAGE_WIDTH: u32 = 300;

/// The signal that offered a candidate.
#[derive(Clone, Copy, Debug, PartialEq, Eq, Structural)]
pub enum SourceKind {
    Network,
    DomVideo,
    DomImage,
}

/// An address suspected to be the media of the displayed frame.
#[derive(Debug)]
pub struct MediaCandidate {
    pub source: SourceKind,
    pub url: Vec<u8>,
    /// The position in probe order, from 0.
    pub rank: usize,
}

impl View for MediaCandidate {
    type V = (SourceKind, Seq<u8>);

    open spec fn view(&self) -> (SourceKind, Seq<u8>) {
        (self.source, self.url@)
    }
}

/// What a list of candidates holds, in order.
pub open spec fn candidate_views(v: Seq<MediaCandidate>) -> Seq<(SourceKind, Seq<u8>)> {
    v.map_values(|c: MediaCandidate| c@)
}

/// The list is in probe order: each candidate's rank is its position.
pub open spec fn ranked(v: Seq<MediaCandidate>) -> bool {
    forall|i: int| 0 <= i < v.len() ==> (#[trigger] v[i]).rank == i
}

/// An image element as the page shows it.
#[derive(Debug)]
pub struct DomImage {
    pub natural_width: u32,
    pub src: Vec<u8>,
    pub srcset: Vec<u8>,
}

/// The name of a loaded resource looks like media: a video, or an image on
/// the site's asset hosts.
pub open spec fn is_media_resource(name: Seq<u8>) -> bool {
    is_video_url(name) || (contains(name, IMAGE_MARKER@) && contains(name, ASSET_HOST_MARKER@))
}

/// The media requests seen since the log was last cleared, oldest first.
pub struct NetworkLog {
    entries: Vec<Vec<u8>>,
}

impl View for NetworkLog {
    type V = Seq<Seq<u8>>;

    closed spec fn view(&self) -> Seq<Seq<u8>> {
        byte_seqs(self.entries@)
    }
}

impl NetworkLog {
    /// A log that holds nothing.
    pub fn new() -> (log: NetworkLog)
        ensures
            log@ == Seq::<Seq<u8>>::empty(),
    {
        let log = NetworkLog { entries: Vec::new() };
        assert(log@ =~= Seq::<Seq<u8>>::empty());
        log
    }

    /// Takes note of a loaded resource, if its name looks like media.
    pub fn observe(&mut self, name: &[u8])
        ensures
            final(self)@ == if is_media_resource(name@) {
                old(self)@.push(name@)
            } else {
                old(self)@
            },
    {
        if is_video(name) || (includes(name, IMAGE_MARKER.as_slice()) && includes(
            name,
            ASSET_HOST_MARKER.as_slice(),
        )) {
            let ghost before = self@;
            self.entries.push(copy_bytes(name));
            assert(self@ =~= before.push(name@));
        }
    }

    /// Forgets every entry, so that the next frame is not offered the
    /// requests of this one.
    pub fn clear(&mut self)
        ensures
            final(self)@ == Seq::<Seq<u8>>::empty(),
    {
        self.entries = Vec::new();
        assert(self@ =~= Seq::<Seq<u8>>::empty());
    }

    /// The number of entries.
    pub fn len(&self) -> (n: usize)
        ensures
            n == self@.len(),
    {
        self.entries.len()
    }

    /// The entry at `i`, counted from the oldest.
    pub fn entry(&self, i: usize) -> (e: &[u8])
        requires
            i < self@.len(),
        ensures
            e@ == self@[i as int],
    {
        self.entries[i].as_slice()
    }
}

/// The bytes of a text that may be absent.
pub open spec fn optional_bytes(text: Option<Vec<u8>>) -> Option<Seq<u8>> {
    match text {
        Some(t) => Some(t@),
        None => None,
    }
}

/// The network signal: the log's entries, newest first.
pub open spec fn network_signal(log: Seq<Seq<u8>>) -> Seq<(SourceKind, Seq<u8>)> {
    Seq::new(log.len(), |i: int| (SourceKind::Network, log[log.len() - 1 - i]))
}

/// The video signal: the video element's source, unless there is none or it
/// is an in-memory object.
pub open spec fn video_signal(src: Option<Seq<u8>>) -> Seq<(SourceKind, Seq<u8>)> {
    match src {
        Some(s) => if s.len() > 0 && !has_prefix(s, BLOB_SCHEME@) {
            seq![(SourceKind::DomVideo, s)]
        } else {
            Seq::empty()
        },
        None => Seq::empty(),
    }
}

/// The image is wide enough and lies on the site's asset hosts.
pub open spec fn image_qualifies(img: DomImage) -> bool {
    img.natural_width > MIN_IMAGE_WIDTH && contains(img.src@, ASSET_HOST_MARKER@)
}

/// What one image offers: nothing unless it qualifies; else its best variant,
/// where it has a `srcset`, and then its plain source.
pub open spec fn one_image_signal(img: DomImage) -> Seq<(SourceKind, Seq<u8>)> {
    if !image_qualifies(img) {
        Seq::empty()
    } else if img.srcset@.len() > 0 {
        seq![(SourceKind::DomImage, best_variant(img.srcset@)), (SourceKind::DomImage, img.src@)]
    } else {
        seq![(SourceKind::DomImage, img.src@)]
    }
}

/// The image signal: what each image offers, in document order.
pub open spec fn image_signal(images: Seq<DomImage>) -> Seq<(SourceKind, Seq<u8>)>
    decreases images.len(),
{
    if images.len() == 0 {
        Seq::empty()
    } else {
        image_signal(images.drop_last()) + one_image_signal(images.last())
    }
}

/// All three signals in rank order, before equal entries are dropped.
pub open spec fn all_signals(
    log: Seq<Seq<u8>>,
    video_src: Option<Seq<u8>>,
    images: Seq<DomImage>,
) -> Seq<(SourceKind, Seq<u8>)> {
    network_signal(log) + video_signal(video_src) + image_signal(images)
}

/// `s` with only the first of each group of equal entries.
pub open spec fn distinct(s: Seq<(SourceKind, Seq<u8>)>) -> Seq<(SourceKind, Seq<u8>)>
    decreases s.len(),
{
    if s.len() == 0 {
        Seq::empty()
    } else {
        let before = distinct(s.drop_last());
        if before.contains(s.last()) {
            before
        } else {
            before.push(s.last())
        }
    }
}

/// The candidates of a frame: all signals in rank order, each entry once.
pub open spec fn frame_candidates(
    log: Seq<Seq<u8>>,
    video_src: Option<Seq<u8>>,
    images: Seq<DomImage>,
) -> Seq<(SourceKind, Seq<u8>)> {
    distinct(all_signals(log, video_src, images))
}

/// Whether the list holds a candidate of this source and address.
fn holds(list: &Vec<MediaCandidate>, source: SourceKind, url: &[u8]) -> (r: bool)
    ensures
        r == candidate_views(list@).contains((source, url@)),
{
    let mut i: usize = 0;
    while i < list.len()
        invariant
            i <= list.len(),
            forall|j: int| 0 <= j < i ==> candidate_views(list@)[j] != (source, url@),
        decreases list.len() - i,
    {
        if list[i].source == source && same_bytes(list[i].url.as_slice(), url) {
            assert(candidate_views(list@)[i as int] == (source, url@));
            return true;
        }
        i += 1;
    }
    false
}

/// Appends the candidate unless the list holds its equal.
fn offer(list: &mut Vec<MediaCandidate>, source: SourceKind, url: Vec<u8>, Ghost(seen): Ghost<
    Seq<(SourceKind, Seq<u8>)>,
>)
    requires
        ranked(old(list)@),
        candidate_views(old(list)@) == distinct(seen),
    ensures
        ranked(final(list)@),
        candidate_views(final(list)@) == distinct(seen.push((source, url@))),
{
    let ghost next = seen.push((source, url@));
    proof {
        assert(next.drop_last() =~= seen);
    }
    if !holds(list, source, url.as_slice()) {
        let ghost before = candidate_views(list@);
        let rank = list.len();
        list.push(MediaCandidate { source, url, rank });
        assert(candidate_views(list@) =~= before.push((source, url@)));
    }
}

/// The candidate extractor: reads the three signals of the displayed frame
/// and returns its candidates in rank order, each once. Nothing is changed.
pub fn extract(log: &NetworkLog, video_src: &Option<Vec<u8>>, images: &Vec<DomImage>) -> (out: Vec<
    MediaCandidate,
>)
    ensures
        candidate_views(out@) == frame_candidates(log@, optional_bytes(*video_src), images@),
        ranked(out@),
{
    let ghost video: Option<Seq<u8>> = optional_bytes(*video_src);
    let mut out: Vec<MediaCandidate> = Vec::new();
    let ghost mut seen: Seq<(SourceKind, Seq<u8>)> = Seq::empty();
    assert(candidate_views(out@) =~= distinct(seen));
    let n = log.len();
    let mut i: usize = 0;
    while i < n
        invariant
            i <= n,
            n == log@.len(),
            ranked(out@),
            candidate_views(out@) == distinct(seen),
            seen == network_signal(log@).subrange(0, i as int),
        decreases n - i,
    {
        let url = copy_bytes(log.entry(n - 1 - i));
        offer(&mut out, SourceKind::Network, url, Ghost(seen));
        proof {
            seen = seen.push((SourceKind::Network, url@));
            assert(seen =~= network_signal(log@).subrange(0, i + 1));
        }
        i += 1;
    }
    proof {
        assert(seen =~= network_signal(log@));
    }
    match video_src {
        Some(s) => {
            if s.len() > 0 && !starts_with(s.as_slice(), BLOB_SCHEME.as_slice()) {
                offer(&mut out, SourceKind::DomVideo, copy_bytes(s.as_slice()), Ghost(seen));
                proof {
                    seen = seen.push((SourceKind::DomVideo, s@));
                }
            }
        },
        None => {},
    }
    proof {
        assert(seen =~= network_signal(log@) + video_signal(video));
        assert(image_signal(images@.subrange(0, 0)) =~= Seq::empty());
        assert(seen =~= network_signal(log@) + video_signal(video) + image_signal(
            images@.subrange(0, 0),
        ));
    }
    let mut k: usize = 0;
    while k < images.len()
        invariant
            k <= images.len(),
            ranked(out@),
            candidate_views(out@) == distinct(seen),
            seen == network_signal(log@) + video_signal(video) + image_signal(
                images@.subrange(0, k as int),
            ),
        decreases images.len() - k,
    {
        let img = &images[k];
        let ghost base = network_signal(log@) + video_signal(video);
        let ghost done = image_signal(images@.subrange(0, k as int));
        proof {
            assert(images@.subrange(0, k + 1).drop_last() =~= images@.subrange(0, k as int));
            assert(images@.subrange(0, k + 1).last() == images@[k as int]);
        }
        if img.natural_width > MIN_IMAGE_WIDTH && includes(
            img.src.as_slice(),
            ASSET_HOST_MARKER.as_slice(),
        ) {
            if img.srcset.len() > 0 {
                let variant = best_variant_of(img.srcset.as_slice());
                offer(&mut out, SourceKind::DomImage, variant, Ghost(seen));
                proof {
                    seen = seen.push((SourceKind::DomImage, variant@));
                }
            }
            offer(&mut out, SourceKind::DomImage, copy_bytes(img.src.as_slice()), Ghost(seen));
            proof {
                seen = seen.push((SourceKind::DomImage, img.src@));
            }
        }
        proof {
            assert(seen =~= base + (done + one_image_signal(images@[k as int])));
            assert(base + (done + one_image_signal(images@[k as int])) =~= base + image_signal(
                images@.subrange(0, k + 1),
            ));
        }
        k += 1;
    }
    proof {
        assert(images@.subrange(0, images@.len() as int) =~= images@);
    }
    out
}

} // verus!
