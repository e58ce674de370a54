//! Which of a frame's candidates are fetched, and in what order.

use vstd::prelude::*;
use crate::candidates::{candidate_views, MediaCandidate, SourceKind};
use crate::history::DownloadHistory;
use crate::url::{kind_of_url, media_kind, normalize_url, normalized, MediaKind};

verus! {

/// An address shorter than this is no media address.
pub const MIN_URL_LEN: usize = 10;

/// One fetch to make: the key of the address, which is what is requested and
/// what is remembered, and the kind of media expected behind it.
#[derive(Debug)]
pub struct FetchRequest {
    pub key: Vec<u8>,
    pub kind: MediaKind,
}

/// The keys of a list of requests, in order.
pub open spec fn request_keys(v: Seq<FetchRequest>) -> Seq<Seq<u8>> {
    v.map_values(|r: FetchRequest| r.key@)
}

/// An address is worth a fetch if it is long enough and its key has not been
/// saved in this batch.
pub open spec fn worth_fetching(url: Seq<u8>, history: Set<Seq<u8>>) -> bool {
    url.len() >= MIN_URL_LEN && !history.contains(normalized(url))
}

/// The keys to fetch for a frame: of each candidate worth a fetch its key, in
/// rank order.
pub open spec fn planned(candidates: Seq<(SourceKind, Seq<u8>)>, history: Set<Seq<u8>>) -> Seq<
    Seq<u8>,
>
    decreases candidates.len(),
{
    if candidates.len() == 0 {
        Seq::empty()
    } else {
        let before = planned(candidates.drop_last(), history);
        if worth_fetching(candidates.last().1, history) {
            before.push(normalized(candidates.last().1))
        } else {
            before
        }
    }
}

/// No planned key is in the history that the plan was made against.
pub proof fn lemma_plan_avoids_history(
    candidates: Seq<(SourceKind, Seq<u8>)>,
    history: Set<Seq<u8>>,
)
    ensures
        forall|i: int|
            0 <= i < planned(candidates, history).len() ==> !history.contains(
                #[trigger] planned(candidates, history)[i],
            ),
    decreases candidates.len(),
{
    if candidates.len() > 0 {
        lemma_plan_avoids_history(candidates.drop_last(), history);
        let before = planned(candidates.drop_last(), history);
        let now = planned(candidates, history);
        assert forall|i: int| 0 <= i < now.len() implies !history.contains(#[trigger] now[i]) by {
            if i < before.len() {
                assert(now[i] == before[i]);
            }
        }
    }
}

/// What has been saved is not fetched again in its batch: a key that was in
/// the history at some point is in no plan made later in the batch, whatever
/// the candidates are and whatever has been saved since.
pub proof fn lemma_saved_is_never_refetched(
    key: Seq<u8>,
    earlier: Set<Seq<u8>>,
    later: Set<Seq<u8>>,
    candidates: Seq<(SourceKind, Seq<u8>)>,
)
    requires
        earlier.contains(key),
        earlier.subset_of(later),
    ensures
        !planned(candidates, later).contains(key),
{
    lemma_plan_avoids_history(candidates, later);
}

/// The fetches to make for a frame, in the order of the candidates, which
/// is their probe order.
pub fn fetch_plan(candidates: &Vec<MediaCandidate>, history: &DownloadHistory) -> (out: Vec<
    FetchRequest,
>)
    ensures
        request_keys(out@) == planned(candidate_views(candidates@), history@),
        forall|i: int| 0 <= i < out@.len() ==> (#[trigger] out@[i]).kind == kind_of_url(out@[i].key@),
        forall|i: int| 0 <= i < out@.len() ==> !history@.contains((#[trigger] out@[i]).key@),
{
    let mut out: Vec<FetchRequest> = Vec::new();
    let mut i: usize = 0;
    let ghost all = candidate_views(candidates@);
    assert(all.subrange(0, 0) =~= Seq::empty());
    assert(request_keys(out@) =~= Seq::empty());
    while i < candidates.len()
        invariant
            i <= candidates.len(),
            all == candidate_views(candidates@),
            request_keys(out@) == planned(all.subrange(0, i as int), history@),
            forall|j: int|
                0 <= j < out@.len() ==> (#[trigger] out@[j]).kind == kind_of_url(out@[j].key@),
        decreases candidates.len() - i,
    {
        proof {
            assert(all.subrange(0, i + 1).drop_last() =~= all.subrange(0, i as int));
            assert(all.subrange(0, i + 1).last() == candidates@[i as int]@);
        }
        let url = candidates[i].url.as_slice();
        if url.len() >= MIN_URL_LEN {
            let key = normalize_url(url);
            if !history.contains(key.as_slice()) {
                let ghost before = request_keys(out@);
                let kind = media_kind(key.as_slice());
                out.push(FetchRequest { key, kind });
                assert(request_keys(out@) =~= before.push(key@));
            }
        }
        i += 1;
    }
    proof {
        assert(all.subrange(0, all.len() as int) =~= all);
        lemma_plan_avoids_history(all, history@);
        assert forall|i: int| 0 <= i < out@.len() implies !history@.contains(
            (#[trigger] out@[i]).key@,
        ) by {
            assert(request_keys(out@)[i] == out@[i].key@);
        }
    }
    out
}

} // verus!
