//! A visit to the displayed frame, step by step.
//!
//! The visit decides and the host acts:
//!
//! `Idle → Sampling → Fetching → Storing → Over`, and back from `Fetching`
//! or `Storing` to the next address or the next attempt.
//!
//! An attempt samples the frame and fetches the planned addresses in rank
//! order; the first payload that is accepted and stored ends the visit.
//! An attempt that stores nothing is followed by another, after a wait,
//! until the attempts are used up.

use vstd::prelude::*;
use crate::batch::{next, BatchAction, BatchModel, EventView, FrameOutcome, Phase};
use crate::candidates::{candidate_views, MediaCandidate, SourceKind};
use crate::frame::{
    fetch_worth, prepare_artifact, ExtractionError, FetchRefusal, MediaArtifact,
};
use crate::history::DownloadHistory;
use crate::naming::media_name;
use crate::plan::{fetch_plan, lemma_plan_avoids_history, planned, request_keys, FetchRequest};
use crate::text::copy_bytes;
use crate::url::{kind_of_url, media_kind, MediaKind};
use crate::validate::{floor_of, SizeFloors};

verus! {

/// The attempts that one visit makes at most.
pub const MAX_ATTEMPTS: u32 = 20;

/// The wait between two attempts, in milliseconds.
pub const RETRY_WAIT_MS: u64 = 500;

/// Where a visit stands.
#[derive(Clone, Copy, Debug, PartialEq, Eq, Structural)]
pub enum VisitPhase {
    Idle,
    Sampling,
    Fetching,
    Storing,
    Over,
}

/// What the host has done or seen.
#[derive(Debug)]
pub enum VisitEvent {
    /// The visit is to begin.
    Begin,
    /// The frame was sampled: its candidates, or `None` where the page could
    /// not be sampled.
    Sampled(Option<Vec<MediaCandidate>>),
    /// A fetch has ended: what it returned, or `None` where it raised an
    /// error; and the time now, in seconds since the epoch.
    Fetched { payload: Option<Vec<u8>>, epoch_secs: u64 },
    /// The artifact was to be stored; whether it is on disk now.
    Stored(bool),
}

/// What the host does next.
#[derive(Debug)]
pub enum VisitAction {
    /// Wait `wait_ms`, pause the playback, sample the frame, and report
    /// `Sampled`.
    Sample { wait_ms: u64 },
    /// Fetch the address within the page and report `Fetched`.
    Fetch(Vec<u8>),
    /// Store the artifact, unless a file of its name is there, and report
    /// `Stored`.
    Store(MediaArtifact),
    /// The visit is over: tell the batch how it ended.
    Finish(FrameOutcome),
    /// The event does not belong to the phase and was passed over.
    Ignore,
}

/// What an event holds, with texts as byte sequences.
pub enum VisitEventView {
    Begin,
    Sampled(Option<Seq<(SourceKind, Seq<u8>)>>),
    Fetched { payload: Option<Seq<u8>>, epoch_secs: u64 },
    Stored(bool),
}

/// What an action holds, with texts as byte sequences.
pub enum VisitActionView {
    Sample { wait_ms: u64 },
    Fetch(Seq<u8>),
    Store { bytes: Seq<u8>, kind: MediaKind, file_name: Seq<u8> },
    Finish(OutcomeView),
    Ignore,
}

/// How a visit ended, with the saved key as a byte sequence.
pub enum OutcomeView {
    Saved(Seq<u8>),
    NoNewMedia,
    Error(ExtractionError),
}

impl View for VisitEvent {
    type V = VisitEventView;

    open spec fn view(&self) -> VisitEventView {
        match *self {
            VisitEvent::Begin => VisitEventView::Begin,
            VisitEvent::Sampled(None) => VisitEventView::Sampled(None),
            VisitEvent::Sampled(Some(candidates)) => VisitEventView::Sampled(
                Some(candidate_views(candidates@)),
            ),
            VisitEvent::Fetched { payload: None, epoch_secs } => VisitEventView::Fetched {
                payload: None,
                epoch_secs,
            },
            VisitEvent::Fetched { payload: Some(p), epoch_secs } => VisitEventView::Fetched {
                payload: Some(p@),
                epoch_secs,
            },
            VisitEvent::Stored(ok) => VisitEventView::Stored(ok),
        }
    }
}

impl View for FrameOutcome {
    type V = OutcomeView;

    open spec fn view(&self) -> OutcomeView {
        match *self {
            FrameOutcome::Saved(key) => OutcomeView::Saved(key@),
            FrameOutcome::NoNewMedia => OutcomeView::NoNewMedia,
            FrameOutcome::Error(e) => OutcomeView::Error(e),
        }
    }
}

impl View for VisitAction {
    type V = VisitActionView;

    open spec fn view(&self) -> VisitActionView {
        match *self {
            VisitAction::Sample { wait_ms } => VisitActionView::Sample { wait_ms },
            VisitAction::Fetch(key) => VisitActionView::Fetch(key@),
            VisitAction::Store(artifact) => VisitActionView::Store {
                bytes: artifact.bytes@,
                kind: artifact.kind,
                file_name: artifact.file_name@,
            },
            VisitAction::Finish(outcome) => VisitActionView::Finish(outcome@),
            VisitAction::Ignore => VisitActionView::Ignore,
        }
    }
}

/// The state of a visit: its phase, the attempts that have ended, the last
/// thing that went wrong, and the keys of the attempt at hand that are still
/// to be fetched, the one being fetched or stored first.
pub struct VisitModel {
    pub phase: VisitPhase,
    pub attempts_made: u32,
    pub trouble: Option<ExtractionError>,
    pub pending: Seq<Seq<u8>>,
}

/// What is fixed for a visit: the account, the size floors, the attempts
/// made at most, and the keys saved in the batch before the visit.
pub struct VisitTerms {
    pub account: Seq<u8>,
    pub floors: SizeFloors,
    pub max_attempts: u32,
    pub history: Set<Seq<u8>>,
}

/// How a visit that saved nothing ended.
pub open spec fn unsaved_outcome(trouble: Option<ExtractionError>) -> OutcomeView {
    match trouble {
        Some(e) => OutcomeView::Error(e),
        None => OutcomeView::NoNewMedia,
    }
}

/// The step after an attempt that stored nothing: another attempt after a
/// wait, or the end of the visit where the attempts are used up.
pub open spec fn end_attempt(m: VisitModel, terms: VisitTerms) -> (VisitModel, VisitActionView) {
    if m.attempts_made + 1 >= terms.max_attempts {
        (
            VisitModel { phase: VisitPhase::Over, pending: Seq::empty(), ..m },
            VisitActionView::Finish(unsaved_outcome(m.trouble)),
        )
    } else {
        (
            VisitModel {
                phase: VisitPhase::Sampling,
                attempts_made: (m.attempts_made + 1) as u32,
                pending: Seq::empty(),
                ..m
            },
            VisitActionView::Sample { wait_ms: RETRY_WAIT_MS },
        )
    }
}

/// The step that takes up the keys `keys`: the fetch of the first, or the
/// end of the attempt where there is none.
pub open spec fn take_up(m: VisitModel, keys: Seq<Seq<u8>>, terms: VisitTerms) -> (
    VisitModel,
    VisitActionView,
) {
    if keys.len() > 0 {
        (
            VisitModel { phase: VisitPhase::Fetching, pending: keys, ..m },
            VisitActionView::Fetch(keys[0]),
        )
    } else {
        end_attempt(m, terms)
    }
}

/// The state with a trouble noted.
pub open spec fn troubled(m: VisitModel, e: ExtractionError) -> VisitModel {
    VisitModel { trouble: Some(e), ..m }
}

/// The keys after the first.
pub open spec fn rest_of(m: VisitModel) -> Seq<Seq<u8>> {
    m.pending.subrange(1, m.pending.len() as int)
}

/// The transition: the state after an event, and what the host does next.
/// An event that does not belong to the phase changes nothing.
pub open spec fn visit_next(
    m: VisitModel,
    event: VisitEventView,
    terms: VisitTerms,
) -> (VisitModel, VisitActionView) {
    match (m.phase, event) {
        (VisitPhase::Idle, VisitEventView::Begin) => (
            VisitModel { phase: VisitPhase::Sampling, ..m },
            VisitActionView::Sample { wait_ms: 0 },
        ),
        (VisitPhase::Sampling, VisitEventView::Sampled(None)) => end_attempt(
            troubled(m, ExtractionError::EvaluationFailed),
            terms,
        ),
        (VisitPhase::Sampling, VisitEventView::Sampled(Some(candidates))) => take_up(
            m,
            planned(candidates, terms.history),
            terms,
        ),
        (VisitPhase::Fetching, VisitEventView::Fetched { payload, epoch_secs }) => {
            let kind = kind_of_url(m.pending[0]);
            match fetch_worth(payload, floor_of(terms.floors, kind)) {
                Ok(bytes) => (
                    VisitModel { phase: VisitPhase::Storing, ..m },
                    VisitActionView::Store {
                        bytes,
                        kind,
                        file_name: media_name(terms.account, epoch_secs as nat, kind),
                    },
                ),
                Err(FetchRefusal::FetchError) => take_up(
                    troubled(m, ExtractionError::FetchFailed),
                    rest_of(m),
                    terms,
                ),
                Err(FetchRefusal::Rejected(_)) => take_up(m, rest_of(m), terms),
            }
        },
        (VisitPhase::Storing, VisitEventView::Stored(ok)) => if ok {
            (
                VisitModel { phase: VisitPhase::Over, pending: Seq::empty(), ..m },
                VisitActionView::Finish(OutcomeView::Saved(m.pending[0])),
            )
        } else {
            take_up(troubled(m, ExtractionError::FetchFailed), rest_of(m), terms)
        },
        _ => (m, VisitActionView::Ignore),
    }
}

/// The state is one that a visit can be in: while an address is fetched or
/// stored there is one, a visit that is not over has an attempt left, and no
/// key that is pending has been saved in the batch.
pub open spec fn visit_fits(m: VisitModel, terms: VisitTerms) -> bool {
    &&& (m.phase == VisitPhase::Fetching || m.phase == VisitPhase::Storing) ==> m.pending.len() > 0
    &&& m.phase != VisitPhase::Over ==> m.attempts_made < terms.max_attempts
    &&& forall|i: int| 0 <= i < m.pending.len() ==> !terms.history.contains(#[trigger] m.pending[i])
}

/// Only what was planned is fetched, only what was fetched is saved, and
/// nothing that was saved in the batch is fetched or saved again. The
/// address of a fetch and the key of a save are the first of the keys
/// pending; the keys pending after a sample are the plan made against the
/// history; and neither the address of a fetch nor the key of a save is in
/// the history, at whatever step of the visit.
pub proof fn lemma_fetches_follow_the_plan(m: VisitModel, event: VisitEventView, terms: VisitTerms)
    requires
        visit_fits(m, terms),
    ensures
        visit_fits(visit_next(m, event, terms).0, terms),
        match visit_next(m, event, terms).1 {
            VisitActionView::Fetch(key) => {
                &&& visit_next(m, event, terms).0.pending.len() > 0
                &&& key == visit_next(m, event, terms).0.pending[0]
                &&& !terms.history.contains(key)
                &&& m.phase == VisitPhase::Sampling ==> visit_next(m, event, terms).0.pending
                    == planned(event->Sampled_0.unwrap(), terms.history)
            },
            VisitActionView::Finish(OutcomeView::Saved(key)) => {
                &&& m.phase == VisitPhase::Storing
                &&& key == m.pending[0]
                &&& !terms.history.contains(key)
            },
            _ => true,
        },
{
    let after = visit_next(m, event, terms).0;
    match (m.phase, event) {
        (VisitPhase::Sampling, VisitEventView::Sampled(Some(candidates))) => {
            lemma_plan_avoids_history(candidates, terms.history);
        },
        _ => {},
    }
    if m.pending.len() > 0 {
        let rest = rest_of(m);
        assert forall|i: int| 0 <= i < rest.len() implies !terms.history.contains(
            #[trigger] rest[i],
        ) by {
            assert(rest[i] == m.pending[i + 1]);
        }
        assert(!terms.history.contains(m.pending[0]));
    }
    assert forall|i: int| 0 <= i < after.pending.len() implies !terms.history.contains(
        #[trigger] after.pending[i],
    ) by {}
}

/// A save that a visit reports is new to the batch, so that the batch
/// counts it as a save and has the network log cleared before anything
/// else is done: a visit that was made against the history of a batch at
/// work on a frame ends with a key that the batch answers by asking for the
/// log to be cleared and the viewer's address to be read, with the save
/// counted and the misses in a row set back to nothing.
pub proof fn lemma_a_save_clears_the_log(
    visit: VisitModel,
    event: VisitEventView,
    terms: VisitTerms,
    batch: BatchModel,
    ceiling: u32,
)
    requires
        visit_fits(visit, terms),
        terms.history == batch.history,
        batch.phase == Phase::Extracting,
        visit_next(visit, event, terms).1 is Finish,
        visit_next(visit, event, terms).1->Finish_0 is Saved,
    ensures
        ({
            let key = visit_next(visit, event, terms).1->Finish_0->Saved_0;
            let after = next(batch, EventView::Saved(key), terms.account, ceiling);
            &&& !batch.history.contains(key)
            &&& after.1 == BatchAction::ReadLocation { clear_log: true }
            &&& after.0.phase == Phase::Advancing
            &&& after.0.saved == batch.saved + 1
            &&& after.0.failures == 0
            &&& after.0.history == batch.history.insert(key)
        }),
{
    lemma_fetches_follow_the_plan(visit, event, terms);
}

/// A visit is bounded: an attempt that stores nothing either is followed by
/// another, with one attempt more on the count, or ends the visit; and it
/// ends the visit exactly when it was the last attempt allowed.
pub proof fn lemma_attempts_are_counted(m: VisitModel, terms: VisitTerms)
    requires
        m.attempts_made < terms.max_attempts,
    ensures
        end_attempt(m, terms).0.phase == VisitPhase::Over <==> m.attempts_made + 1
            == terms.max_attempts,
        end_attempt(m, terms).0.phase != VisitPhase::Over ==> end_attempt(m, terms).0.phase
            == VisitPhase::Sampling && end_attempt(m, terms).0.attempts_made == m.attempts_made
            + 1,
{
}

/// The visit after `n` more attempts in which the frame offered nothing.
pub open spec fn after_empty_attempts(
    m: VisitModel,
    n: nat,
    terms: VisitTerms,
) -> VisitModel
    decreases n,
{
    if n == 0 {
        m
    } else {
        visit_next(
            after_empty_attempts(m, (n - 1) as nat, terms),
            VisitEventView::Sampled(Some(Seq::empty())),
            terms,
        ).0
    }
}

/// A visit that finds nothing is given up at its last attempt exactly: it
/// goes on sampling while attempts are left, and is over once as many
/// attempts have ended as are allowed.
pub proof fn lemma_visit_is_bounded(
    m: VisitModel,
    n: nat,
    terms: VisitTerms,
)
    requires
        m.phase == VisitPhase::Sampling,
        m.attempts_made == 0,
        terms.max_attempts >= 1,
    ensures
        n < terms.max_attempts ==> after_empty_attempts(m, n, terms).phase
            == VisitPhase::Sampling && after_empty_attempts(m, n, terms).attempts_made
            == n,
        n >= terms.max_attempts ==> after_empty_attempts(m, n, terms).phase
            == VisitPhase::Over,
        after_empty_attempts(m, n, terms).trouble == m.trouble,
    decreases n,
{
    if n > 0 {
        lemma_visit_is_bounded(m, (n - 1) as nat, terms);
        assert(planned(Seq::empty(), terms.history) =~= Seq::<Seq<u8>>::empty());
    }
}

/// A visit to one frame, made against the keys saved in the batch so far.
pub struct FrameVisit<'a> {
    history: &'a DownloadHistory,
    account: Vec<u8>,
    floors: SizeFloors,
    max_attempts: u32,
    attempts_made: u32,
    trouble: Option<ExtractionError>,
    phase: VisitPhase,
    plan: Vec<FetchRequest>,
    next: usize,
}

impl<'a> FrameVisit<'a> {
    /// The state of the visit.
    pub closed spec fn model(&self) -> VisitModel {
        VisitModel {
            phase: self.phase,
            attempts_made: self.attempts_made,
            trouble: self.trouble,
            pending: request_keys(self.plan@).subrange(self.next as int, self.plan@.len() as int),
        }
    }

    /// What is fixed for the visit.
    pub closed spec fn terms(&self) -> VisitTerms {
        VisitTerms {
            account: self.account@,
            floors: self.floors,
            max_attempts: self.max_attempts,
            history: self.history@,
        }
    }

    /// The state is one that a visit can be in.
    pub closed spec fn well_formed(&self) -> bool {
        &&& self.next <= self.plan@.len()
        &&& visit_fits(self.model(), self.terms())
    }

    /// A visit that has not begun, for a frame of the account's stories.
    /// `history` holds the keys saved in the batch so far. A limit of 0
    /// attempts is taken as 1.
    pub fn new(
        account: &[u8],
        floors: SizeFloors,
        max_attempts: u32,
        history: &'a DownloadHistory,
    ) -> (visit: FrameVisit<'a>)
        ensures
            visit.well_formed(),
            visit.terms() == (VisitTerms {
                account: account@,
                floors,
                max_attempts: if max_attempts == 0 {
                    1u32
                } else {
                    max_attempts
                },
                history: history@,
            }),
            visit.model() == (VisitModel {
                phase: VisitPhase::Idle,
                attempts_made: 0,
                trouble: None,
                pending: Seq::empty(),
            }),
    {
        let visit = FrameVisit {
            history,
            account: copy_bytes(account),
            floors,
            max_attempts: if max_attempts == 0 {
                1
            } else {
                max_attempts
            },
            attempts_made: 0,
            trouble: None,
            phase: VisitPhase::Idle,
            plan: Vec::new(),
            next: 0,
        };
        assert(visit.model().pending =~= Seq::<Seq<u8>>::empty());
        visit
    }

    /// A well-formed visit is in a state that a visit can be in.
    pub proof fn lemma_well_formed_fits(&self)
        requires
            self.well_formed(),
        ensures
            visit_fits(self.model(), self.terms()),
    {
    }

    /// Where the visit stands.
    pub fn phase(&self) -> (p: VisitPhase)
        ensures
            p == self.model().phase,
    {
        self.phase
    }

    /// The attempts that have ended.
    pub fn attempts_made(&self) -> (n: u32)
        ensures
            n == self.model().attempts_made,
    {
        self.attempts_made
    }

    /// Ends an attempt that stored nothing.
    fn close_attempt(&mut self) -> (action: VisitAction)
        requires
            old(self).attempts_made < old(self).max_attempts,
        ensures
            final(self).well_formed(),
            final(self).terms() == old(self).terms(),
            (final(self).model(), action@) == end_attempt(old(self).model(), old(self).terms()),
    {
        self.plan = Vec::new();
        self.next = 0;
        assert(self.model().pending =~= Seq::<Seq<u8>>::empty());
        if self.attempts_made + 1 >= self.max_attempts {
            self.phase = VisitPhase::Over;
            match self.trouble {
                Some(e) => VisitAction::Finish(FrameOutcome::Error(e)),
                None => VisitAction::Finish(FrameOutcome::NoNewMedia),
            }
        } else {
            self.attempts_made = self.attempts_made + 1;
            self.phase = VisitPhase::Sampling;
            VisitAction::Sample { wait_ms: RETRY_WAIT_MS }
        }
    }

    /// No key that is pending has been saved in the batch.
    closed spec fn pending_is_new(&self) -> bool {
        forall|i: int|
            0 <= i < self.model().pending.len() ==> !self.history@.contains(
                #[trigger] self.model().pending[i],
            )
    }

    /// Takes up the request at `next`, or ends the attempt where there is
    /// none.
    fn fetch_or_close(&mut self) -> (action: VisitAction)
        requires
            old(self).next <= old(self).plan@.len(),
            old(self).attempts_made < old(self).max_attempts,
            old(self).pending_is_new(),
        ensures
            final(self).well_formed(),
            final(self).terms() == old(self).terms(),
            (final(self).model(), action@) == take_up(
                old(self).model(),
                old(self).model().pending,
                old(self).terms(),
            ),
    {
        if self.next < self.plan.len() {
            self.phase = VisitPhase::Fetching;
            let key = copy_bytes(self.plan[self.next].key.as_slice());
            assert(self.model().pending[0] == key@);
            VisitAction::Fetch(key)
        } else {
            self.close_attempt()
        }
    }

    /// Passes over the request at `next`.
    fn skip(&mut self)
        requires
            old(self).next < old(self).plan@.len(),
            old(self).pending_is_new(),
        ensures
            final(self).next <= final(self).plan@.len(),
            final(self).pending_is_new(),
            final(self).terms() == old(self).terms(),
            final(self).model() == (VisitModel {
                pending: rest_of(old(self).model()),
                ..old(self).model()
            }),
    {
        let ghost before = self.model().pending;
        let total = self.plan.len();
        assert(self.next < total);
        self.next = self.next + 1;
        assert(self.model().pending =~= before.subrange(1, before.len() as int));
        assert forall|i: int| 0 <= i < self.model().pending.len() implies !self.history@.contains(
            #[trigger] self.model().pending[i],
        ) by {
            assert(self.model().pending[i] == before[i + 1]);
        }
    }

    /// Takes what the host has done or seen and returns what the host does
    /// next.
    pub fn step(&mut self, event: VisitEvent) -> (action: VisitAction)
        requires
            old(self).well_formed(),
        ensures
            final(self).well_formed(),
            final(self).terms() == old(self).terms(),
            (final(self).model(), action@) == visit_next(
                old(self).model(),
                event@,
                old(self).terms(),
            ),
            match action {
                VisitAction::Fetch(key) => !old(self).terms().history.contains(key@),
                VisitAction::Finish(FrameOutcome::Saved(key)) => !old(self).terms().history.contains(
                    key@,
                ),
                _ => true,
            },
    {
        proof {
            lemma_fetches_follow_the_plan(self.model(), event@, self.terms());
        }
        match (self.phase, event) {
            (VisitPhase::Idle, VisitEvent::Begin) => {
                self.phase = VisitPhase::Sampling;
                VisitAction::Sample { wait_ms: 0 }
            },
            (VisitPhase::Sampling, VisitEvent::Sampled(None)) => {
                self.trouble = Some(ExtractionError::EvaluationFailed);
                self.close_attempt()
            },
            (VisitPhase::Sampling, VisitEvent::Sampled(Some(candidates))) => {
                self.plan = fetch_plan(&candidates, self.history);
                self.next = 0;
                assert(self.model().pending =~= request_keys(self.plan@));
                assert forall|i: int| 0 <= i < self.model().pending.len() implies !self.history@.contains(
                    #[trigger] self.model().pending[i],
                ) by {
                    assert(self.model().pending[i] == self.plan@[i].key@);
                }
                self.fetch_or_close()
            },
            (VisitPhase::Fetching, VisitEvent::Fetched { payload, epoch_secs }) => {
                let kind = media_kind(self.plan[self.next].key.as_slice());
                assert(self.model().pending[0] == self.plan@[self.next as int].key@);
                let fetched: Option<&[u8]> = match &payload {
                    Some(p) => Some(p.as_slice()),
                    None => None,
                };
                match prepare_artifact(
                    fetched,
                    kind,
                    self.account.as_slice(),
                    epoch_secs,
                    self.floors,
                ) {
                    Ok(artifact) => {
                        self.phase = VisitPhase::Storing;
                        VisitAction::Store(artifact)
                    },
                    Err(FetchRefusal::FetchError) => {
                        self.trouble = Some(ExtractionError::FetchFailed);
                        self.skip();
                        self.fetch_or_close()
                    },
                    Err(FetchRefusal::Rejected(_)) => {
                        self.skip();
                        self.fetch_or_close()
                    },
                }
            },
            (VisitPhase::Storing, VisitEvent::Stored(ok)) => {
                if ok {
                    let key = copy_bytes(self.plan[self.next].key.as_slice());
                    assert(self.model().pending[0] == key@);
                    self.phase = VisitPhase::Over;
                    self.plan = Vec::new();
                    self.next = 0;
                    assert(self.model().pending =~= Seq::<Seq<u8>>::empty());
                    VisitAction::Finish(FrameOutcome::Saved(key))
                } else {
                    self.trouble = Some(ExtractionError::FetchFailed);
                    self.skip();
                    self.fetch_or_close()
                }
            },
            _ => VisitAction::Ignore,
        }
    }
}

} // verus!
