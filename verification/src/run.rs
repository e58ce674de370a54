//! A run: one session, then the accounts one after another.
//!
//! Nothing that happens in a batch ends a run; only a session that cannot be
//! had does, and then no account is visited.

use vstd::prelude::*;
use vstd::string::StringSliceAdditionalSpecFns;
use crate::auth::{AuthError, SITE_ROOT};
use crate::fields::{byte_seqs, fields, split, text_trimmed, trim_text};
use crate::naming::append;
use crate::text::copy_bytes;

verus! {

/// The bounds of the pause between two accounts, in seconds: at least
/// `min_secs`, less than `max_secs`.
#[derive(Clone, Copy, Debug, PartialEq, Eq, Structural)]
pub struct DelayBounds {
    pub min_secs: u64,
    pub max_secs: u64,
}

/// Where a run stands.
#[derive(Clone, Copy, Debug, PartialEq, Eq, Structural)]
pub enum RunPhase {
    /// The session is being established.
    Authenticating,
    /// The accounts are being visited.
    Processing,
    /// No session could be had.
    Aborted(AuthError),
    /// Every account has been visited.
    Finished,
}

/// The account to visit next.
#[derive(Debug)]
pub struct NextAccount {
    pub account: Vec<u8>,
    /// Whether to pause before the visit: true of every account but the
    /// first.
    pub pause_first: bool,
}

/// The state of a run: its phase, the accounts not yet visited, and whether
/// one has been.
pub struct RunModel {
    pub phase: RunPhase,
    pub remaining: Seq<Seq<u8>>,
    pub visited_any: bool,
}

/// The accounts that a list of entries names: each entry without the white
/// space around it, unless nothing is left of it.
pub open spec fn named_accounts(entries: Seq<Seq<u8>>) -> Seq<Seq<u8>>
    decreases entries.len(),
{
    if entries.len() == 0 {
        Seq::empty()
    } else {
        let before = named_accounts(entries.drop_last());
        let name = text_trimmed(entries.last());
        if name.len() > 0 {
            before.push(name)
        } else {
            before
        }
    }
}

/// The accounts that a line of input names, separated by commas.
pub open spec fn targets_of(input: Seq<u8>) -> Seq<Seq<u8>> {
    named_accounts(fields(input, 44))
}

/// The address of an account's page.
pub open spec fn profile_address(account: Seq<u8>) -> Seq<u8> {
    SITE_ROOT.spec_bytes() + seq![47u8] + account + seq![47u8]
}

/// The run after the attempt to establish the session.
pub open spec fn after_session(m: RunModel, result: Result<(), AuthError>) -> RunModel {
    match m.phase {
        RunPhase::Authenticating => match result {
            Ok(_) => RunModel { phase: RunPhase::Processing, ..m },
            Err(e) => RunModel { phase: RunPhase::Aborted(e), ..m },
        },
        _ => m,
    }
}

/// The run after it was asked for the next account, and the account, with
/// whether to pause before it.
pub open spec fn after_request(m: RunModel) -> (RunModel, Option<(Seq<u8>, bool)>) {
    match m.phase {
        RunPhase::Processing => if m.remaining.len() == 0 {
            (RunModel { phase: RunPhase::Finished, ..m }, None)
        } else {
            (
                RunModel {
                    phase: RunPhase::Processing,
                    remaining: m.remaining.subrange(1, m.remaining.len() as int),
                    visited_any: true,
                },
                Some((m.remaining[0], m.visited_any)),
            )
        },
        _ => (m, None),
    }
}

/// What a request has handed out, with the account as a byte sequence.
pub open spec fn handed_out(next: Option<NextAccount>) -> Option<(Seq<u8>, bool)> {
    match next {
        Some(n) => Some((n.account@, n.pause_first)),
        None => None,
    }
}

/// The run after `n` requests for the next account.
pub open spec fn after_requests(m: RunModel, n: nat) -> RunModel
    decreases n,
{
    if n == 0 {
        m
    } else {
        after_request(after_requests(m, (n - 1) as nat)).0
    }
}

/// A session that cannot be had ends the run before any account is visited:
/// the run is aborted with the session's error and hands out no account,
/// however often it is asked.
pub proof fn lemma_no_session_no_batch(m: RunModel, error: AuthError, n: nat)
    requires
        m.phase == RunPhase::Authenticating,
    ensures
        after_requests(after_session(m, Err(error)), n).phase == RunPhase::Aborted(error),
        after_requests(after_session(m, Err(error)), n).remaining == m.remaining,
        after_request(after_requests(after_session(m, Err(error)), n)).1.is_none(),
    decreases n,
{
    if n > 0 {
        lemma_no_session_no_batch(m, error, (n - 1) as nat);
    }
}

/// No account is handed out before the session stands.
pub proof fn lemma_session_comes_first(m: RunModel)
    requires
        m.phase != RunPhase::Processing,
    ensures
        after_request(m).1.is_none(),
        after_request(m).0 == m,
{
}

/// Calls `thread_rng` and `Rng::gen_range` of the `rand` crate on the range
/// from `low` up to, not including, `high`. The contract claims that the
/// number drawn lies in that range, and nothing of which number it is. An
/// empty range is left out: `gen_range` panics on it.
#[verifier::external_body]
fn random_in(low: u64, high: u64) -> (r: u64)
    requires
        low < high,
    ensures
        low <= r < high,
{
    rand::Rng::gen_range(&mut rand::thread_rng(), low..high)
}

impl DelayBounds {
    /// The bounds in use: three to five seconds.
    pub fn standard() -> (bounds: DelayBounds)
        ensures
            bounds == (DelayBounds { min_secs: 3, max_secs: 6 }),
    {
        DelayBounds { min_secs: 3, max_secs: 6 }
    }
}

/// The pause before the next account, in seconds, drawn at random within the
/// bounds so that the visits have no even beat. Bounds that leave no choice
/// give their lower one.
pub fn pause_between_accounts(bounds: DelayBounds) -> (secs: u64)
    ensures
        bounds.min_secs <= secs,
        bounds.min_secs < bounds.max_secs ==> secs < bounds.max_secs,
        bounds.min_secs >= bounds.max_secs ==> secs == bounds.min_secs,
{
    if bounds.min_secs < bounds.max_secs {
        random_in(bounds.min_secs, bounds.max_secs)
    } else {
        bounds.min_secs
    }
}

/// A number of four digits, drawn at random, that tells the captures of one
/// base name apart.
pub fn evidence_id() -> (id: u16)
    ensures
        1000 <= id < 9999,
{
    let drawn = random_in(1000, 9999);
    drawn as u16
}

/// Reads the accounts to visit from a line of input: names separated by
/// commas, white space around a name and empty names passed over.
pub fn parse_targets(input: &[u8]) -> (targets: Vec<Vec<u8>>)
    ensures
        byte_seqs(targets@) == targets_of(input@),
{
    let entries = split(input, 44);
    let mut targets: Vec<Vec<u8>> = Vec::new();
    let mut i: usize = 0;
    let ghost all = byte_seqs(entries@);
    assert(all.subrange(0, 0) =~= Seq::<Seq<u8>>::empty());
    assert(byte_seqs(targets@) =~= Seq::<Seq<u8>>::empty());
    while i < entries.len()
        invariant
            i <= entries.len(),
            all == byte_seqs(entries@),
            byte_seqs(targets@) == named_accounts(all.subrange(0, i as int)),
        decreases entries.len() - i,
    {
        proof {
            assert(all.subrange(0, i + 1).drop_last() =~= all.subrange(0, i as int));
            assert(all.subrange(0, i + 1).last() == entries@[i as int]@);
        }
        let name = trim_text(entries[i].as_slice());
        if name.len() > 0 {
            let ghost before = byte_seqs(targets@);
            targets.push(name);
            assert(byte_seqs(targets@) =~= before.push(name@));
        }
        i += 1;
    }
    assert(all.subrange(0, all.len() as int) =~= all);
    targets
}

/// The address of an account's page.
pub fn profile_url(account: &[u8]) -> (url: Vec<u8>)
    ensures
        url@ == profile_address(account@),
{
    let mut url = copy_bytes(SITE_ROOT.as_bytes());
    url.push(47);
    append(&mut url, account);
    url.push(47);
    assert(url@ =~= profile_address(account@));
    url
}

/// The controller of a run.
pub struct Run {
    targets: Vec<Vec<u8>>,
    next: usize,
    phase: RunPhase,
}

impl Run {
    /// The state of the run.
    pub closed spec fn model(&self) -> RunModel {
        RunModel {
            phase: self.phase,
            remaining: byte_seqs(self.targets@).subrange(
                self.next as int,
                self.targets@.len() as int,
            ),
            visited_any: self.next > 0,
        }
    }

    /// The accounts handed out are among the accounts given.
    pub closed spec fn well_formed(&self) -> bool {
        self.next <= self.targets@.len()
    }

    /// A run over the given accounts, whose session is yet to be established.
    pub fn new(targets: Vec<Vec<u8>>) -> (run: Run)
        ensures
            run.well_formed(),
            run.model() == (RunModel {
                phase: RunPhase::Authenticating,
                remaining: byte_seqs(targets@),
                visited_any: false,
            }),
    {
        let run = Run { targets, next: 0, phase: RunPhase::Authenticating };
        assert(byte_seqs(run.targets@).subrange(0, run.targets@.len() as int) =~= byte_seqs(
            run.targets@,
        ));
        run
    }

    /// Where the run stands.
    pub fn phase(&self) -> (p: RunPhase)
        ensures
            p == self.model().phase,
    {
        self.phase
    }

    /// The number of accounts not yet visited.
    pub fn remaining(&self) -> (n: usize)
        requires
            self.well_formed(),
        ensures
            n == self.model().remaining.len(),
    {
        self.targets.len() - self.next
    }

    /// Takes the outcome of the attempt to establish the session.
    pub fn session_result(&mut self, result: Result<(), AuthError>)
        requires
            old(self).well_formed(),
        ensures
            final(self).well_formed(),
            final(self).model() == after_session(old(self).model(), result),
    {
        match self.phase {
            RunPhase::Authenticating => {
                match result {
                    Ok(_) => {
                        self.phase = RunPhase::Processing;
                    },
                    Err(e) => {
                        self.phase = RunPhase::Aborted(e);
                    },
                }
            },
            _ => {},
        }
    }

    /// Hands out the next account to visit. `None` where no session stands,
    /// and where every account has been handed out.
    pub fn next_account(&mut self) -> (next: Option<NextAccount>)
        requires
            old(self).well_formed(),
        ensures
            final(self).well_formed(),
            (final(self).model(), handed_out(next)) == after_request(old(self).model()),
    {
        match self.phase {
            RunPhase::Processing => {
                if self.next >= self.targets.len() {
                    self.phase = RunPhase::Finished;
                    None
                } else {
                    let ghost all = byte_seqs(self.targets@);
                    let ghost before = all.subrange(self.next as int, all.len() as int);
                    let account = copy_bytes(self.targets[self.next].as_slice());
                    let pause_first = self.next > 0;
                    self.next = self.next + 1;
                    proof {
                        assert(before[0] == account@);
                        assert(all.subrange(self.next as int, all.len() as int) =~= before.subrange(
                            1,
                            before.len() as int,
                        ));
                    }
                    Some(NextAccount { account, pause_first })
                }
            },
            _ => None,
        }
    }
}

} // verus!
