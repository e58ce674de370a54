//! The download validator: from what a fetch returned to the bytes that are
//! stored, or to the reason why nothing is.

use vstd::prelude::*;
use crate::text::{ends_with, find, first_occurrence, has_prefix, has_suffix, starts_with};
use crate::url::{MediaKind, VIDEO_MARKER};

verus! {

/// `data:`: what a fetched payload begins with.
pub const DATA_SCHEME: [u8; 5] = [100, 97, 116, 97, 58];

/// The byte that ends a payload's header, `,`.
pub const HEADER_END: u8 = 44;

/// Why a payload was not stored.
#[derive(Clone, Copy, Debug, PartialEq, Eq, Structural)]
pub enum ValidationRejected {
    /// What follows the header is not base64.
    Undecodable,
    /// The bytes are fewer than real media of this kind has.
    TooSmall,
}

/// The least sizes, in bytes, that real media has. Smaller payloads are
/// thumbnails, placeholders or error pages. The values are policy.
#[derive(Clone, Copy, Debug, PartialEq, Eq, Structural)]
pub struct SizeFloors {
    pub image: usize,
    pub video: usize,
}

/// `DecodeError` of the `base64` crate: why an input could not be decoded.
/// Nothing is read from it here.
#[verifier::external_type_specification]
#[verifier::external_body]
pub struct ExDecodeError(base64::DecodeError);

/// What `decode` of the `base64` crate's `STANDARD` engine makes of `input`:
/// the decoded bytes, or `None` where it reports an error.
pub uninterp spec fn base64_decoded(input: Seq<u8>) -> Option<Seq<u8>>;

/// The least size for media of a kind.
pub open spec fn floor_of(floors: SizeFloors, kind: MediaKind) -> usize {
    match kind {
        MediaKind::Video => floors.video,
        MediaKind::Image => floors.image,
    }
}

/// The encoded part of a payload: what follows the first `,`, or all of it
/// where there is none.
pub open spec fn encoded_part(payload: Seq<u8>) -> Seq<u8> {
    match first_occurrence(payload, seq![HEADER_END]) {
        Some(i) => payload.subrange(i + 1, payload.len() as int),
        None => payload,
    }
}

/// The verdict on a decoded payload: stored if it decoded and reaches the
/// floor, else rejected with the reason.
pub open spec fn verdict(decoded: Option<Seq<u8>>, floor: usize) -> Result<
    Seq<u8>,
    ValidationRejected,
> {
    match decoded {
        None => Err(ValidationRejected::Undecodable),
        Some(bytes) => if bytes.len() < floor {
            Err(ValidationRejected::TooSmall)
        } else {
            Ok(bytes)
        },
    }
}

/// The bytes of an outcome, as a sequence.
pub open spec fn outcome_view(r: Result<Vec<u8>, ValidationRejected>) -> Result<
    Seq<u8>,
    ValidationRejected,
> {
    match r {
        Ok(bytes) => Ok(bytes@),
        Err(e) => Err(e),
    }
}

/// The kind of media that a file name stands for.
pub open spec fn kind_of_name(name: Seq<u8>) -> MediaKind {
    if has_suffix(name, VIDEO_MARKER@) {
        MediaKind::Video
    } else {
        MediaKind::Image
    }
}

/// The size floor decides: decoded bytes below the floor are rejected as too
/// small, and decoded bytes at or above it are accepted unchanged.
pub proof fn lemma_size_floor(bytes: Seq<u8>, floor: usize)
    ensures
        bytes.len() < floor ==> verdict(Some(bytes), floor) == Err::<Seq<u8>, ValidationRejected>(
            ValidationRejected::TooSmall,
        ),
        bytes.len() >= floor ==> verdict(Some(bytes), floor) == Ok::<Seq<u8>, ValidationRejected>(
            bytes,
        ),
{
}

/// Raising a floor never turns a rejection into an acceptance.
pub proof fn lemma_floor_monotone(decoded: Option<Seq<u8>>, low: usize, high: usize)
    requires
        low <= high,
    ensures
        verdict(decoded, low).is_err() ==> verdict(decoded, high).is_err(),
        verdict(decoded, high).is_ok() ==> verdict(decoded, low) == verdict(decoded, high),
{
}

/// Calls `decode` of the `base64` crate's `STANDARD` engine (standard
/// alphabet, canonical padding) on the input. The contract claims no more
/// than that the outcome is a function of the input bytes: the decoded bytes
/// on success, an error where the input is no valid encoding.
#[verifier::external_body]
fn decode_standard(input: &[u8]) -> (r: Result<Vec<u8>, base64::DecodeError>)
    ensures
        match r {
            Ok(bytes) => base64_decoded(input@) == Some(bytes@),
            Err(_) => base64_decoded(input@).is_none(),
        },
{
    base64::Engine::decode(&base64::engine::general_purpose::STANDARD, input)
}

impl SizeFloors {
    /// The floors in use: 15,000 bytes for an image, 200,000 for a video.
    pub fn standard() -> (floors: SizeFloors)
        ensures
            floors.image == 15_000,
            floors.video == 200_000,
    {
        SizeFloors { image: 15_000, video: 200_000 }
    }

    /// The least size for media of a kind.
    pub fn floor(&self, kind: MediaKind) -> (n: usize)
        ensures
            n == floor_of(*self, kind),
    {
        match kind {
            MediaKind::Video => self.video,
            MediaKind::Image => self.image,
        }
    }
}

/// Whether what a fetch returned is a payload at all.
pub fn is_payload(fetched: &[u8]) -> (r: bool)
    ensures
        r == has_prefix(fetched@, DATA_SCHEME@),
{
    starts_with(fetched, DATA_SCHEME.as_slice())
}

/// The kind of media that a file name stands for.
pub fn kind_of_file_name(name: &[u8]) -> (kind: MediaKind)
    ensures
        kind == kind_of_name(name@),
{
    if ends_with(name, VIDEO_MARKER.as_slice()) {
        MediaKind::Video
    } else {
        MediaKind::Image
    }
}

/// The position at which the encoded part of a payload begins.
pub fn encoded_start(payload: &[u8]) -> (start: usize)
    ensures
        start <= payload@.len(),
        payload@.subrange(start as int, payload@.len() as int) == encoded_part(payload@),
{
    let sep: [u8; 1] = [HEADER_END];
    let total = payload.len();
    assert(sep@ =~= seq![HEADER_END]);
    match find(payload, sep.as_slice()) {
        Some(i) => {
            assert(crate::text::occurs_at(payload@, sep@, i as int));
            assert(i + 1 <= total);
            i + 1
        },
        None => {
            assert(payload@.subrange(0, payload@.len() as int) =~= payload@);
            0
        },
    }
}

/// The verdict on a payload that has been decoded, or could not be.
pub fn judge(decoded: Option<Vec<u8>>, kind: MediaKind, floors: SizeFloors) -> (r: Result<
    Vec<u8>,
    ValidationRejected,
>)
    ensures
        outcome_view(r) == verdict(
            match decoded {
                Some(bytes) => Some(bytes@),
                None => None,
            },
            floor_of(floors, kind),
        ),
{
    match decoded {
        None => Err(ValidationRejected::Undecodable),
        Some(bytes) => {
            if bytes.len() < floors.floor(kind) {
                Err(ValidationRejected::TooSmall)
            } else {
                Ok(bytes)
            }
        },
    }
}

/// The validator: decodes the encoded part of a payload and holds the bytes
/// to the floor of their kind. `Ok` carries the bytes to store.
pub fn accept(payload: &[u8], kind: MediaKind, floors: SizeFloors) -> (r: Result<
    Vec<u8>,
    ValidationRejected,
>)
    ensures
        outcome_view(r) == verdict(base64_decoded(encoded_part(payload@)), floor_of(floors, kind)),
{
    let start = encoded_start(payload);
    let encoded = vstd::slice::slice_subrange(payload, start, payload.len());
    let decoded = match decode_standard(encoded) {
        Ok(bytes) => Some(bytes),
        Err(_) => None,
    };
    judge(decoded, kind, floors)
}

} // verus!
