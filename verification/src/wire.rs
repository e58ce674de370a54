//! The report that the page script makes of the displayed frame: entries
//! separated by `;`, each a tag and its fields separated by `|`.
//!
//! `NET|name` is a resource that was loaded; `DOM_VIDEO|source` is the
//! source of the video element; `DOM_IMAGE|source|width|srcset` is an image
//! element with its natural width in pixels and its `srcset`. What follows
//! the fields of an entry is passed over, and so is an entry with fewer than
//! two fields or with another tag.

use vstd::prelude::*;
use crate::candidates::{optional_bytes, DomImage, SourceKind};
use crate::fields::{byte_seqs, fields, split};
use crate::srcset::{leading_number, leading_number_of};
use crate::text::{copy_bytes, same_bytes};

verus! {

/// `NET`: the tag of a loaded resource.
pub const TAG_NETWORK: [u8; 3] = [78, 69, 84];

/// `DOM_VIDEO`: the tag of the video element.
pub const TAG_DOM_VIDEO: [u8; 9] = [68, 79, 77, 95, 86, 73, 68, 69, 79];

/// `DOM_IMAGE`: the tag of an image element.
pub const TAG_DOM_IMAGE: [u8; 9] = [68, 79, 77, 95, 73, 77, 65, 71, 69];

/// The byte that separates entries, `;`.
pub const ENTRY_SEPARATOR: u8 = 59;

/// The byte that separates the fields of an entry, `|`.
pub const FIELD_SEPARATOR: u8 = 124;

/// What the page reports of the displayed frame.
#[derive(Debug)]
pub struct FrameSignals {
    /// The names of the resources loaded since the last report, oldest
    /// first.
    pub names: Vec<Vec<u8>>,
    /// The source of the video element, where there is one.
    pub video_src: Option<Vec<u8>>,
    /// The image elements, in document order.
    pub images: Vec<DomImage>,
}

/// The source that a tag names.
pub open spec fn kind_of_tag(tag: Seq<u8>) -> Option<SourceKind> {
    if tag == TAG_NETWORK@ {
        Some(SourceKind::Network)
    } else if tag == TAG_DOM_VIDEO@ {
        Some(SourceKind::DomVideo)
    } else if tag == TAG_DOM_IMAGE@ {
        Some(SourceKind::DomImage)
    } else {
        None
    }
}

/// The signal that an entry reports: the source that its tag names, where
/// it has two fields at least and a known tag.
pub open spec fn entry_kind(entry: Seq<u8>) -> Option<SourceKind> {
    let parts = fields(entry, FIELD_SEPARATOR);
    if parts.len() < 2 {
        None
    } else {
        kind_of_tag(parts[0])
    }
}

/// The field at `i`, empty where the entry has none there.
pub open spec fn field_at(entry: Seq<u8>, i: int) -> Seq<u8> {
    let parts = fields(entry, FIELD_SEPARATOR);
    if 0 <= i < parts.len() {
        parts[i]
    } else {
        Seq::empty()
    }
}

/// The width that a field writes: the number it begins with, and
/// `u32::MAX` where that is larger.
pub open spec fn width_of(field: Seq<u8>) -> u32 {
    if leading_number(field) > u32::MAX {
        u32::MAX
    } else {
        leading_number(field) as u32
    }
}

/// The image that an entry reports: its natural width, its source and its
/// `srcset`.
pub open spec fn image_of(entry: Seq<u8>) -> (u32, Seq<u8>, Seq<u8>) {
    (width_of(field_at(entry, 2)), field_at(entry, 1), field_at(entry, 3))
}

/// What an image element holds, with texts as byte sequences.
pub open spec fn image_views(images: Seq<DomImage>) -> Seq<(u32, Seq<u8>, Seq<u8>)> {
    images.map_values(|img: DomImage| (img.natural_width, img.src@, img.srcset@))
}

/// The names of loaded resources that a list of entries reports, in order.
pub open spec fn reported_names(entries: Seq<Seq<u8>>) -> Seq<Seq<u8>>
    decreases entries.len(),
{
    if entries.len() == 0 {
        Seq::empty()
    } else {
        let before = reported_names(entries.drop_last());
        if entry_kind(entries.last()) == Some(SourceKind::Network) {
            before.push(field_at(entries.last(), 1))
        } else {
            before
        }
    }
}

/// The source of the video element that a list of entries reports: that of
/// the first entry for a video element.
pub open spec fn reported_video(entries: Seq<Seq<u8>>) -> Option<Seq<u8>>
    decreases entries.len(),
{
    if entries.len() == 0 {
        None
    } else {
        match reported_video(entries.drop_last()) {
            Some(src) => Some(src),
            None => if entry_kind(entries.last()) == Some(SourceKind::DomVideo) {
                Some(field_at(entries.last(), 1))
            } else {
                None
            },
        }
    }
}

/// The image elements that a list of entries reports, in order.
pub open spec fn reported_images(entries: Seq<Seq<u8>>) -> Seq<(u32, Seq<u8>, Seq<u8>)>
    decreases entries.len(),
{
    if entries.len() == 0 {
        Seq::empty()
    } else {
        let before = reported_images(entries.drop_last());
        if entry_kind(entries.last()) == Some(SourceKind::DomImage) {
            before.push(image_of(entries.last()))
        } else {
            before
        }
    }
}

/// The entries of a report.
pub open spec fn entries_of(raw: Seq<u8>) -> Seq<Seq<u8>> {
    fields(raw, ENTRY_SEPARATOR)
}

/// The source that a tag names.
pub fn parse_tag(tag: &[u8]) -> (r: Option<SourceKind>)
    ensures
        r == kind_of_tag(tag@),
{
    if same_bytes(tag, TAG_NETWORK.as_slice()) {
        Some(SourceKind::Network)
    } else if same_bytes(tag, TAG_DOM_VIDEO.as_slice()) {
        Some(SourceKind::DomVideo)
    } else if same_bytes(tag, TAG_DOM_IMAGE.as_slice()) {
        Some(SourceKind::DomImage)
    } else {
        None
    }
}

/// The width that a field writes.
pub fn parse_width(field: &[u8]) -> (w: u32)
    ensures
        w == width_of(field@),
{
    let n = leading_number_of(field);
    if n > u32::MAX as u64 {
        u32::MAX
    } else {
        n as u32
    }
}

/// A copy of the field at `i`, empty where there is none.
fn field_copy(parts: &Vec<Vec<u8>>, i: usize, Ghost(entry): Ghost<Seq<u8>>) -> (out: Vec<u8>)
    requires
        byte_seqs(parts@) == fields(entry, FIELD_SEPARATOR),
    ensures
        out@ == field_at(entry, i as int),
{
    if i < parts.len() {
        assert(byte_seqs(parts@)[i as int] == parts@[i as int]@);
        copy_bytes(parts[i].as_slice())
    } else {
        Vec::new()
    }
}

/// Reads the report of a page.
pub fn parse_report(raw: &[u8]) -> (out: FrameSignals)
    ensures
        byte_seqs(out.names@) == reported_names(entries_of(raw@)),
        optional_bytes(out.video_src) == reported_video(entries_of(raw@)),
        image_views(out.images@) == reported_images(entries_of(raw@)),
{
    let entries = split(raw, ENTRY_SEPARATOR);
    let ghost all = byte_seqs(entries@);
    let mut names: Vec<Vec<u8>> = Vec::new();
    let mut video_src: Option<Vec<u8>> = None;
    let mut images: Vec<DomImage> = Vec::new();
    let mut i: usize = 0;
    proof {
        assert(all.subrange(0, 0) =~= Seq::<Seq<u8>>::empty());
        assert(byte_seqs(names@) =~= Seq::<Seq<u8>>::empty());
        assert(image_views(images@) =~= Seq::empty());
    }
    while i < entries.len()
        invariant
            i <= entries.len(),
            all == byte_seqs(entries@),
            byte_seqs(names@) == reported_names(all.subrange(0, i as int)),
            optional_bytes(video_src) == reported_video(all.subrange(0, i as int)),
            image_views(images@) == reported_images(all.subrange(0, i as int)),
        decreases entries.len() - i,
    {
        let ghost entry = entries@[i as int]@;
        proof {
            assert(all.subrange(0, i + 1).drop_last() =~= all.subrange(0, i as int));
            assert(all.subrange(0, i + 1).last() == entry);
        }
        let parts = split(entries[i].as_slice(), FIELD_SEPARATOR);
        if parts.len() >= 2 {
            assert(byte_seqs(parts@)[0] == parts@[0]@);
            match parse_tag(parts[0].as_slice()) {
                Some(SourceKind::Network) => {
                    let ghost before = byte_seqs(names@);
                    let name = field_copy(&parts, 1, Ghost(entry));
                    names.push(name);
                    assert(byte_seqs(names@) =~= before.push(name@));
                },
                Some(SourceKind::DomVideo) => {
                    if video_src.is_none() {
                        video_src = Some(field_copy(&parts, 1, Ghost(entry)));
                    }
                },
                Some(SourceKind::DomImage) => {
                    let ghost before = image_views(images@);
                    let src = field_copy(&parts, 1, Ghost(entry));
                    let width_field = field_copy(&parts, 2, Ghost(entry));
                    let srcset = field_copy(&parts, 3, Ghost(entry));
                    let natural_width = parse_width(width_field.as_slice());
                    images.push(DomImage { natural_width, src, srcset });
                    assert(image_views(images@) =~= before.push(image_of(entry)));
                },
                None => {},
            }
        }
        i += 1;
    }
    proof {
        assert(all.subrange(0, all.len() as int) =~= all);
    }
    FrameSignals { names, video_src, images }
}

} // verus!
