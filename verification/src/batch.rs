//! The story batch controller: for one account, from the visit of its page
//! to the end of its stories.
//!
//! The controller decides and the host acts. Each call of `step` takes what
//! the host has observed and returns what the host does next:
//!
//! `Idle → Checking → Opening → Extracting → Advancing → Extracting | Exited`
//!
//! A batch ends when the account shows no stories, when the viewer has left
//! the stories or moved to another account, or when more frames in a row
//! than the ceiling allows have saved nothing.

use vstd::prelude::*;
use crate::frame::ExtractionError;
use vstd::slice::slice_subrange;
use crate::candidates::{optional_bytes, SourceKind};
use crate::fields::{byte_seqs, fields, split};
use crate::history::DownloadHistory;
use crate::plan::{lemma_saved_is_never_refetched, planned};
use crate::text::{
    contains, copy_bytes, find, first_occurrence, includes, occurs_at, same_bytes,
};

verus! {

/// `stories`: the address of the viewer holds it while stories are shown.
pub const STORY_PATH_MARKER: [u8; 7] = [115, 116, 111, 114, 105, 101, 115];

/// `stories/`: in the address of the viewer, what stands before the name of
/// the account whose stories are shown.
pub const STORY_PATH_PREFIX: [u8; 8] = [115, 116, 111, 114, 105, 101, 115, 47];

/// The ceiling in use: the batch ends at the ninth frame in a row that saves
/// nothing.
pub const DEFAULT_FAILURE_CEILING: u32 = 8;

/// The wait after a page was opened, in milliseconds.
pub const SETTLE_WAIT_MS: u64 = 5000;

/// The wait after the viewer was opened, in milliseconds.
pub const VIEWER_WAIT_MS: u64 = 3000;

/// The wait after a move to the next frame, in milliseconds, so that the
/// outgoing frame is not sampled again.
pub const TRANSITION_WAIT_MS: u64 = 1500;

/// Why a batch ended. None of these is an error.
#[derive(Clone, Copy, Debug, PartialEq, Eq, Structural)]
pub enum BatchTerminal {
    /// The account shows no stories.
    NoContent,
    /// The viewer has left the stories.
    ExitedToFeed,
    /// The viewer has moved on to another account.
    DriftedAccount,
    /// More frames in a row than the ceiling allows saved nothing.
    TooManyFailures,
}

/// Where a batch stands.
#[derive(Clone, Copy, Debug, PartialEq, Eq, Structural)]
pub enum Phase {
    Idle,
    Checking,
    Opening,
    Extracting,
    Advancing,
    Exited(BatchTerminal),
}

/// The counts of a batch.
#[derive(Clone, Copy, Debug, PartialEq, Eq, Structural)]
pub struct BatchState {
    /// The frames saved.
    pub saved_count: usize,
    /// The frames in a row that saved nothing.
    pub consecutive_failures: u64,
}

/// How a visit to a frame ended, as the controller is told. A save names the
/// key that was saved.
#[derive(Debug)]
pub enum FrameOutcome {
    Saved(Vec<u8>),
    NoNewMedia,
    Error(ExtractionError),
}

/// What the host has observed.
#[derive(Debug)]
pub enum BatchEvent {
    /// The batch is to begin.
    Start,
    /// The account's page was opened; whether it shows an entry to stories.
    EntryPoint(bool),
    /// The viewer was opened.
    ViewerOpened,
    /// A visit to the displayed frame has ended.
    Frame(FrameOutcome),
    /// The address that the viewer shows.
    Location(Vec<u8>),
}

/// What the host does next.
#[derive(Clone, Copy, Debug, PartialEq, Eq, Structural)]
pub enum BatchAction {
    /// Open the account's page, wait `SETTLE_WAIT_MS`, look for the entry to
    /// stories, and report `EntryPoint`.
    VisitProfile,
    /// Activate the entry, wait `VIEWER_WAIT_MS`, and report `ViewerOpened`.
    OpenViewer,
    /// Clear the network log, visit the displayed frame, and report `Frame`.
    ProbeFirstFrame,
    /// Read the viewer's address and report `Location`. After a save the
    /// network log is cleared first.
    ReadLocation { clear_log: bool },
    /// Send the viewer to the next frame, wait `TRANSITION_WAIT_MS`, visit
    /// the frame, and report `Frame`.
    NextFrame,
    /// Close the viewer. The batch is over; `capture` asks for a diagnostic
    /// capture of the page first.
    CloseViewer { capture: bool },
    /// Nothing is left to do. The batch is over; `capture` asks for a
    /// diagnostic capture of the page.
    Stop { capture: bool },
    /// The event does not belong to the phase and was passed over.
    Ignore,
}

/// Where the viewer is, by its address.
#[derive(Clone, Copy, Debug, PartialEq, Eq, Structural)]
pub enum ViewerLocation {
    /// In the stories of the account at hand.
    InViewer,
    /// No longer in any stories.
    Feed,
    /// In the stories of another account.
    OtherAccount,
}

/// What an event holds, with texts as byte sequences.
pub enum EventView {
    Start,
    EntryPoint(bool),
    ViewerOpened,
    Saved(Seq<u8>),
    NotSaved,
    Location(Seq<u8>),
}

impl View for BatchEvent {
    type V = EventView;

    open spec fn view(&self) -> EventView {
        match *self {
            BatchEvent::Start => EventView::Start,
            BatchEvent::EntryPoint(present) => EventView::EntryPoint(present),
            BatchEvent::ViewerOpened => EventView::ViewerOpened,
            BatchEvent::Frame(FrameOutcome::Saved(key)) => EventView::Saved(key@),
            BatchEvent::Frame(FrameOutcome::NoNewMedia) => EventView::NotSaved,
            BatchEvent::Frame(FrameOutcome::Error(_)) => EventView::NotSaved,
            BatchEvent::Location(url) => EventView::Location(url@),
        }
    }
}

/// The state of a batch: its phase, the frames saved, the frames in a row
/// that saved nothing, and the keys saved.
pub struct BatchModel {
    pub phase: Phase,
    pub saved: nat,
    pub failures: nat,
    pub history: Set<Seq<u8>>,
}

/// The first segment of what is left of an address: what stands before the
/// first `/`, `?` or `#`.
pub open spec fn first_segment(rest: Seq<u8>) -> Seq<u8> {
    fields(fields(fields(rest, 47)[0], 63)[0], 35)[0]
}

/// The account whose stories an address shows: the segment that follows
/// the leftmost `stories/`. `None` where the address holds no `stories/`.
pub open spec fn viewed_account(url: Seq<u8>) -> Option<Seq<u8>> {
    match first_occurrence(url, STORY_PATH_PREFIX@) {
        Some(i) => Some(first_segment(url.subrange(i + 8, url.len() as int))),
        None => None,
    }
}

/// Where the viewer is, by its address: in the feed where the address holds
/// no `stories`; in the account's stories where the account that the address
/// shows is this very account; and in another account's stories otherwise.
pub open spec fn location_of(url: Seq<u8>, account: Seq<u8>) -> ViewerLocation {
    if !contains(url, STORY_PATH_MARKER@) {
        ViewerLocation::Feed
    } else if viewed_account(url) == Some(account) {
        ViewerLocation::InViewer
    } else {
        ViewerLocation::OtherAccount
    }
}

/// The stories of an account are never taken for those of another: the
/// viewer is in an account's stories only where the address names that very
/// account after `stories/`, so that an address can show one account at
/// most.
pub proof fn lemma_one_account_is_shown(url: Seq<u8>, account: Seq<u8>, other: Seq<u8>)
    requires
        location_of(url, account) == ViewerLocation::InViewer,
        other != account,
    ensures
        location_of(url, other) == ViewerLocation::OtherAccount,
{
}

/// The batch after a frame that saved nothing.
pub open spec fn after_miss(m: BatchModel, ceiling: u32) -> (BatchModel, BatchAction) {
    if m.failures + 1 > ceiling {
        (
            BatchModel {
                phase: Phase::Exited(BatchTerminal::TooManyFailures),
                failures: m.failures + 1,
                ..m
            },
            BatchAction::CloseViewer { capture: true },
        )
    } else {
        (
            BatchModel { phase: Phase::Advancing, failures: m.failures + 1, ..m },
            BatchAction::ReadLocation { clear_log: false },
        )
    }
}

/// The transition: the state after an event, and what the host does next. An
/// event that does not belong to the phase changes nothing.
pub open spec fn next(m: BatchModel, event: EventView, account: Seq<u8>, ceiling: u32) -> (
    BatchModel,
    BatchAction,
) {
    match (m.phase, event) {
        (Phase::Idle, EventView::Start) => (
            BatchModel { phase: Phase::Checking, ..m },
            BatchAction::VisitProfile,
        ),
        (Phase::Checking, EventView::EntryPoint(present)) => if present {
            (BatchModel { phase: Phase::Opening, ..m }, BatchAction::OpenViewer)
        } else {
            (
                BatchModel { phase: Phase::Exited(BatchTerminal::NoContent), ..m },
                BatchAction::Stop { capture: true },
            )
        },
        (Phase::Opening, EventView::ViewerOpened) => (
            BatchModel { phase: Phase::Extracting, saved: 0, failures: 0, history: Set::empty() },
            BatchAction::ProbeFirstFrame,
        ),
        (Phase::Extracting, EventView::Saved(key)) => if m.history.contains(key) {
            after_miss(m, ceiling)
        } else {
            (
                BatchModel {
                    phase: Phase::Advancing,
                    saved: m.saved + 1,
                    failures: 0,
                    history: m.history.insert(key),
                },
                BatchAction::ReadLocation { clear_log: true },
            )
        },
        (Phase::Extracting, EventView::NotSaved) => after_miss(m, ceiling),
        (Phase::Advancing, EventView::Location(url)) => match location_of(url, account) {
            ViewerLocation::Feed => (
                BatchModel { phase: Phase::Exited(BatchTerminal::ExitedToFeed), ..m },
                BatchAction::Stop { capture: false },
            ),
            ViewerLocation::OtherAccount => (
                BatchModel { phase: Phase::Exited(BatchTerminal::DriftedAccount), ..m },
                BatchAction::CloseViewer { capture: false },
            ),
            ViewerLocation::InViewer => (
                BatchModel { phase: Phase::Extracting, ..m },
                BatchAction::NextFrame,
            ),
        },
        _ => (m, BatchAction::Ignore),
    }
}

/// The batch after `n` more frames that saved nothing, the viewer showing
/// `url` after each.
pub open spec fn after_misses(
    m: BatchModel,
    n: nat,
    url: Seq<u8>,
    account: Seq<u8>,
    ceiling: u32,
) -> BatchModel
    decreases n,
{
    if n == 0 {
        m
    } else {
        let before = after_misses(m, (n - 1) as nat, url, account, ceiling);
        let missed = next(before, EventView::NotSaved, account, ceiling).0;
        if missed.phase == Phase::Advancing {
            next(missed, EventView::Location(url), account, ceiling).0
        } else {
            missed
        }
    }
}

/// The failure ceiling ends a batch, and ends it at one point only. While
/// the viewer stays in the account's stories and frame after frame saves
/// nothing, the batch goes on as long as the misses in a row do not exceed
/// the ceiling, and has ended with `TooManyFailures` from the first miss
/// that exceeds it.
pub proof fn lemma_failure_ceiling(
    m: BatchModel,
    n: nat,
    url: Seq<u8>,
    account: Seq<u8>,
    ceiling: u32,
)
    requires
        m.phase == Phase::Extracting,
        m.failures == 0,
        location_of(url, account) == ViewerLocation::InViewer,
    ensures
        n <= ceiling ==> after_misses(m, n, url, account, ceiling).phase == Phase::Extracting
            && after_misses(m, n, url, account, ceiling).failures == n,
        n > ceiling ==> after_misses(m, n, url, account, ceiling).phase == Phase::Exited(
            BatchTerminal::TooManyFailures,
        ) && after_misses(m, n, url, account, ceiling).failures == ceiling + 1,
        after_misses(m, n, url, account, ceiling).saved == m.saved,
        after_misses(m, n, url, account, ceiling).history == m.history,
    decreases n,
{
    if n > 0 {
        lemma_failure_ceiling(m, (n - 1) as nat, url, account, ceiling);
    }
}

/// The viewer has been opened: frames are being visited, or the batch is
/// over.
pub open spec fn under_way(phase: Phase) -> bool {
    phase == Phase::Extracting || phase == Phase::Advancing || phase is Exited
}

/// The batch after a sequence of events.
pub open spec fn after_events(
    m: BatchModel,
    events: Seq<EventView>,
    account: Seq<u8>,
    ceiling: u32,
) -> BatchModel
    decreases events.len(),
{
    if events.len() == 0 {
        m
    } else {
        next(after_events(m, events.drop_last(), account, ceiling), events.last(), account, ceiling).0
    }
}

/// What was saved in a batch stays in its history to the end of the batch:
/// once the viewer has been opened, no sequence of events takes a key out.
pub proof fn lemma_saved_stays_saved(
    m: BatchModel,
    events: Seq<EventView>,
    account: Seq<u8>,
    ceiling: u32,
)
    requires
        under_way(m.phase),
    ensures
        under_way(after_events(m, events, account, ceiling).phase),
        m.history.subset_of(after_events(m, events, account, ceiling).history),
        m.saved <= after_events(m, events, account, ceiling).saved,
    decreases events.len(),
{
    if events.len() > 0 {
        lemma_saved_stays_saved(m, events.drop_last(), account, ceiling);
    }
}

/// Nothing is saved twice in a batch: a key that is in the history is in no
/// plan of fetches made later in the batch, whatever happens in between and
/// whatever candidates the frames offer.
pub proof fn lemma_saved_once(
    m: BatchModel,
    key: Seq<u8>,
    events: Seq<EventView>,
    candidates: Seq<(SourceKind, Seq<u8>)>,
    account: Seq<u8>,
    ceiling: u32,
)
    requires
        under_way(m.phase),
        m.history.contains(key),
    ensures
        !planned(candidates, after_events(m, events, account, ceiling).history).contains(key),
{
    lemma_saved_stays_saved(m, events, account, ceiling);
    lemma_saved_is_never_refetched(
        key,
        m.history,
        after_events(m, events, account, ceiling).history,
        candidates,
    );
}

/// A frame that saved nothing leaves the history as it is, so that what was
/// rejected can be tried again.
pub proof fn lemma_miss_keeps_history(m: BatchModel, account: Seq<u8>, ceiling: u32)
    ensures
        next(m, EventView::NotSaved, account, ceiling).0.history == m.history,
        next(m, EventView::NotSaved, account, ceiling).0.saved == m.saved,
{
}

/// The order of a save: the log is cleared before the viewer is sent on. A
/// frame is answered by the reading of the viewer's address and by nothing
/// else that goes on with the batch; the log is asked to be cleared then
/// exactly where the frame saved a new key; and the viewer is sent to the
/// next frame only in answer to its address.
pub proof fn lemma_log_is_cleared_before_the_next_frame(
    m: BatchModel,
    event: EventView,
    account: Seq<u8>,
    ceiling: u32,
)
    ensures
        next(m, event, account, ceiling).1 == BatchAction::NextFrame ==> m.phase
            == Phase::Advancing && event is Location,
        next(m, event, account, ceiling).0.phase == Phase::Advancing && m.phase
            != Phase::Advancing ==> m.phase == Phase::Extracting && next(
            m,
            event,
            account,
            ceiling,
        ).1 == (BatchAction::ReadLocation {
            clear_log: event is Saved && !m.history.contains(event->Saved_0),
        }),
        m.phase == Phase::Extracting && event is Saved && !m.history.contains(event->Saved_0)
            ==> next(m, event, account, ceiling).1 == (BatchAction::ReadLocation {
            clear_log: true,
        }),
{
}

/// A key, once saved, stays saved until the batch ends: no event but the
/// opening of a viewer takes a key out of the history.
pub proof fn lemma_history_only_grows(
    m: BatchModel,
    event: EventView,
    account: Seq<u8>,
    ceiling: u32,
)
    requires
        !(m.phase == Phase::Opening && event == EventView::ViewerOpened),
    ensures
        m.history.subset_of(next(m, event, account, ceiling).0.history),
{
}

/// A save sets the count of misses in a row back to nothing and is counted
/// once.
pub proof fn lemma_save_resets_failures(
    m: BatchModel,
    key: Seq<u8>,
    account: Seq<u8>,
    ceiling: u32,
)
    requires
        m.phase == Phase::Extracting,
        !m.history.contains(key),
    ensures
        next(m, EventView::Saved(key), account, ceiling).0.failures == 0,
        next(m, EventView::Saved(key), account, ceiling).0.saved == m.saved + 1,
        next(m, EventView::Saved(key), account, ceiling).0.history.contains(key),
        next(m, EventView::Saved(key), account, ceiling).0.phase == Phase::Advancing,
{
}

/// The account whose stories an address shows.
pub fn viewed_account_of(url: &[u8]) -> (r: Option<Vec<u8>>)
    ensures
        optional_bytes(r) == viewed_account(url@),
{
    let total = url.len();
    match find(url, STORY_PATH_PREFIX.as_slice()) {
        None => None,
        Some(i) => {
            assert(occurs_at(url@, STORY_PATH_PREFIX@, i as int));
            assert(i + 8 <= total);
            let rest = slice_subrange(url, i + 8, total);
            let by_slash = split(rest, 47);
            assert(byte_seqs(by_slash@)[0] == by_slash@[0]@);
            let by_query = split(by_slash[0].as_slice(), 63);
            assert(byte_seqs(by_query@)[0] == by_query@[0]@);
            let by_fragment = split(by_query[0].as_slice(), 35);
            assert(byte_seqs(by_fragment@)[0] == by_fragment@[0]@);
            Some(copy_bytes(by_fragment[0].as_slice()))
        },
    }
}

/// Where the viewer is, by its address.
pub fn classify_location(url: &[u8], account: &[u8]) -> (r: ViewerLocation)
    ensures
        r == location_of(url@, account@),
{
    if !includes(url, STORY_PATH_MARKER.as_slice()) {
        ViewerLocation::Feed
    } else {
        match viewed_account_of(url) {
            Some(shown) => {
                if same_bytes(shown.as_slice(), account) {
                    ViewerLocation::InViewer
                } else {
                    ViewerLocation::OtherAccount
                }
            },
            None => ViewerLocation::OtherAccount,
        }
    }
}

/// The controller of one account's batch.
pub struct BatchController {
    account: Vec<u8>,
    ceiling: u32,
    phase: Phase,
    saved_count: usize,
    consecutive_failures: u64,
    history: DownloadHistory,
}

impl BatchController {
    /// The state of the batch.
    pub closed spec fn model(&self) -> BatchModel {
        BatchModel {
            phase: self.phase,
            saved: self.saved_count as nat,
            failures: self.consecutive_failures as nat,
            history: self.history@,
        }
    }

    /// The account whose stories the batch saves.
    pub closed spec fn account_view(&self) -> Seq<u8> {
        self.account@
    }

    /// The misses in a row that the batch bears.
    pub closed spec fn ceiling_view(&self) -> u32 {
        self.ceiling
    }

    /// The saved count is the number of keys saved, and the misses in a row
    /// exceed the ceiling only in a batch that has ended.
    pub closed spec fn well_formed(&self) -> bool {
        &&& self.history.well_formed()
        &&& self.saved_count == self.history.count()
        &&& self.consecutive_failures <= self.ceiling + 1
        &&& (self.phase == Phase::Extracting || self.phase == Phase::Advancing)
            ==> self.consecutive_failures <= self.ceiling
    }

    /// In a well-formed batch every key saved is counted once.
    pub proof fn lemma_saved_counts_history(&self)
        requires
            self.well_formed(),
        ensures
            self.model().history.finite(),
            self.model().saved == self.model().history.len(),
    {
        self.history.lemma_count();
    }

    /// A batch for an account, not yet begun.
    pub fn new(account: &[u8], ceiling: u32) -> (c: BatchController)
        ensures
            c.well_formed(),
            c.account_view() == account@,
            c.ceiling_view() == ceiling,
            c.model() == (BatchModel {
                phase: Phase::Idle,
                saved: 0,
                failures: 0,
                history: Set::empty(),
            }),
    {
        BatchController {
            account: copy_bytes(account),
            ceiling,
            phase: Phase::Idle,
            saved_count: 0,
            consecutive_failures: 0,
            history: DownloadHistory::new(),
        }
    }

    /// Where the batch stands.
    pub fn phase(&self) -> (p: Phase)
        ensures
            p == self.model().phase,
    {
        self.phase
    }

    /// Whether the batch is over.
    pub fn is_over(&self) -> (r: bool)
        ensures
            r == (self.model().phase is Exited),
    {
        match self.phase {
            Phase::Exited(_) => true,
            _ => false,
        }
    }

    /// The counts of the batch.
    pub fn state(&self) -> (s: BatchState)
        ensures
            s.saved_count == self.model().saved,
            s.consecutive_failures == self.model().failures,
    {
        BatchState {
            saved_count: self.saved_count,
            consecutive_failures: self.consecutive_failures,
        }
    }

    /// The frames saved in this batch.
    pub fn saved_count(&self) -> (n: usize)
        ensures
            n == self.model().saved,
    {
        self.saved_count
    }

    /// The frames in a row that saved nothing.
    pub fn consecutive_failures(&self) -> (n: u64)
        ensures
            n == self.model().failures,
    {
        self.consecutive_failures
    }

    /// The keys saved in this batch, against which fetches are planned.
    pub fn history(&self) -> (h: &DownloadHistory)
        ensures
            h@ == self.model().history,
            self.well_formed() ==> h.well_formed(),
    {
        &self.history
    }

    /// The account whose stories the batch saves.
    pub fn account(&self) -> (a: &[u8])
        ensures
            a@ == self.account_view(),
    {
        self.account.as_slice()
    }

    /// Counts a frame that saved nothing.
    fn miss(&mut self) -> (action: BatchAction)
        requires
            old(self).well_formed(),
            old(self).phase == Phase::Extracting,
        ensures
            final(self).well_formed(),
            final(self).account_view() == old(self).account_view(),
            final(self).ceiling_view() == old(self).ceiling_view(),
            (final(self).model(), action) == after_miss(old(self).model(), old(self).ceiling),
    {
        self.consecutive_failures = self.consecutive_failures + 1;
        if self.consecutive_failures > self.ceiling as u64 {
            self.phase = Phase::Exited(BatchTerminal::TooManyFailures);
            BatchAction::CloseViewer { capture: true }
        } else {
            self.phase = Phase::Advancing;
            BatchAction::ReadLocation { clear_log: false }
        }
    }

    /// Takes what the host has observed and returns what the host does next.
    pub fn step(&mut self, event: BatchEvent) -> (action: BatchAction)
        requires
            old(self).well_formed(),
        ensures
            final(self).well_formed(),
            final(self).account_view() == old(self).account_view(),
            final(self).ceiling_view() == old(self).ceiling_view(),
            (final(self).model(), action) == next(
                old(self).model(),
                event@,
                old(self).account_view(),
                old(self).ceiling_view(),
            ),
    {
        match (self.phase, event) {
            (Phase::Idle, BatchEvent::Start) => {
                self.phase = Phase::Checking;
                BatchAction::VisitProfile
            },
            (Phase::Checking, BatchEvent::EntryPoint(present)) => {
                if present {
                    self.phase = Phase::Opening;
                    BatchAction::OpenViewer
                } else {
                    self.phase = Phase::Exited(BatchTerminal::NoContent);
                    BatchAction::Stop { capture: true }
                }
            },
            (Phase::Opening, BatchEvent::ViewerOpened) => {
                self.phase = Phase::Extracting;
                self.saved_count = 0;
                self.consecutive_failures = 0;
                self.history.clear();
                BatchAction::ProbeFirstFrame
            },
            (Phase::Extracting, BatchEvent::Frame(FrameOutcome::Saved(key))) => {
                if self.history.contains(key.as_slice()) {
                    self.miss()
                } else {
                    self.history.record(key);
                    self.saved_count = self.history.len();
                    self.consecutive_failures = 0;
                    self.phase = Phase::Advancing;
                    BatchAction::ReadLocation { clear_log: true }
                }
            },
            (Phase::Extracting, BatchEvent::Frame(FrameOutcome::NoNewMedia)) => self.miss(),
            (Phase::Extracting, BatchEvent::Frame(FrameOutcome::Error(_))) => self.miss(),
            (Phase::Advancing, BatchEvent::Location(url)) => {
                match classify_location(url.as_slice(), self.account.as_slice()) {
                    ViewerLocation::Feed => {
                        self.phase = Phase::Exited(BatchTerminal::ExitedToFeed);
                        BatchAction::Stop { capture: false }
                    },
                    ViewerLocation::OtherAccount => {
                        self.phase = Phase::Exited(BatchTerminal::DriftedAccount);
                        BatchAction::CloseViewer { capture: false }
                    },
                    ViewerLocation::InViewer => {
                        self.phase = Phase::Extracting;
                        BatchAction::NextFrame
                    },
                }
            },
            _ => BatchAction::Ignore,
        }
    }
}

} // verus!
