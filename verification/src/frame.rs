//! What a fetch is worth: the artifact that it yields, or why it yields
//! none.

use vstd::prelude::*;
use crate::naming::{media_file_name, media_name};
use crate::url::MediaKind;
use crate::validate::{
    accept, base64_decoded, encoded_part, floor_of, is_payload, verdict, SizeFloors,
    ValidationRejected, DATA_SCHEME,
};
use crate::text::has_prefix;

verus! {

/// What went wrong while a frame was probed. Neither ends the batch.
#[derive(Clone, Copy, Debug, PartialEq, Eq, Structural)]
pub enum ExtractionError {
    /// The page could not be sampled.
    EvaluationFailed,
    /// A fetch raised an error or returned no payload.
    FetchFailed,
}

/// Why a fetch led to nothing stored.
#[derive(Clone, Copy, Debug, PartialEq, Eq, Structural)]
pub enum FetchRefusal {
    /// The payload was refused by the validator; the address may be tried
    /// again later.
    Rejected(ValidationRejected),
    /// There was no payload.
    FetchError,
}

/// Media that passed the validator, ready to be stored: its bytes, its kind
/// and the name of its file.
#[derive(Debug)]
pub struct MediaArtifact {
    pub bytes: Vec<u8>,
    pub kind: MediaKind,
    pub file_name: Vec<u8>,
}

/// What is done with accepted bytes.
#[derive(Clone, Copy, Debug, PartialEq, Eq, Structural)]
pub enum StoreAction {
    /// Write them under their name.
    Write,
    /// A file of that name is there: it counts as downloaded and is not
    /// overwritten.
    KeepExisting,
}

/// What a fetch is worth: the bytes to store, or why there are none. `None`
/// stands for a fetch that raised an error.
pub open spec fn fetch_worth(fetched: Option<Seq<u8>>, floor: usize) -> Result<
    Seq<u8>,
    FetchRefusal,
> {
    match fetched {
        None => Err(FetchRefusal::FetchError),
        Some(payload) => if !has_prefix(payload, DATA_SCHEME@) {
            Err(FetchRefusal::FetchError)
        } else {
            match verdict(base64_decoded(encoded_part(payload)), floor) {
                Ok(bytes) => Ok(bytes),
                Err(reason) => Err(FetchRefusal::Rejected(reason)),
            }
        },
    }
}

/// The bytes of an assessment, as a sequence.
pub open spec fn assessment_view(r: Result<Vec<u8>, FetchRefusal>) -> Result<
    Seq<u8>,
    FetchRefusal,
> {
    match r {
        Ok(bytes) => Ok(bytes@),
        Err(e) => Err(e),
    }
}

/// The bytes of what a fetch returned, if it returned.
pub open spec fn fetched_view(fetched: Option<&[u8]>) -> Option<Seq<u8>> {
    match fetched {
        Some(payload) => Some(payload@),
        None => None,
    }
}

/// Assesses what a fetch returned. `None` stands for a fetch that raised an
/// error. `Ok` carries the bytes to store.
pub fn assess_fetch(fetched: Option<&[u8]>, kind: MediaKind, floors: SizeFloors) -> (r: Result<
    Vec<u8>,
    FetchRefusal,
>)
    ensures
        assessment_view(r) == fetch_worth(fetched_view(fetched), floor_of(floors, kind)),
{
    match fetched {
        None => Err(FetchRefusal::FetchError),
        Some(payload) => {
            if !is_payload(payload) {
                Err(FetchRefusal::FetchError)
            } else {
                match accept(payload, kind, floors) {
                    Ok(bytes) => Ok(bytes),
                    Err(reason) => Err(FetchRefusal::Rejected(reason)),
                }
            }
        },
    }
}

/// Makes the artifact of a fetch: assesses what the fetch returned, and
/// names the file after the account, the time of saving and the kind.
/// `None` stands for a fetch that raised an error.
pub fn prepare_artifact(
    fetched: Option<&[u8]>,
    kind: MediaKind,
    account: &[u8],
    epoch_secs: u64,
    floors: SizeFloors,
) -> (r: Result<MediaArtifact, FetchRefusal>)
    ensures
        match r {
            Ok(artifact) => {
                &&& fetch_worth(fetched_view(fetched), floor_of(floors, kind)) == Ok::<
                    Seq<u8>,
                    FetchRefusal,
                >(artifact.bytes@)
                &&& artifact.kind == kind
                &&& artifact.file_name@ == media_name(account@, epoch_secs as nat, kind)
            },
            Err(refusal) => fetch_worth(fetched_view(fetched), floor_of(floors, kind)) == Err::<
                Seq<u8>,
                FetchRefusal,
            >(refusal),
        },
{
    match assess_fetch(fetched, kind, floors) {
        Ok(bytes) => Ok(
            MediaArtifact { bytes, kind, file_name: media_file_name(account, epoch_secs, kind) },
        ),
        Err(refusal) => Err(refusal),
    }
}

/// What is done with accepted bytes, given whether a file of their name
/// is there already.
pub fn store_action(already_present: bool) -> (action: StoreAction)
    ensures
        action == if already_present {
            StoreAction::KeepExisting
        } else {
            StoreAction::Write
        },
{
    if already_present {
        StoreAction::KeepExisting
    } else {
        StoreAction::Write
    }
}

} // verus!
