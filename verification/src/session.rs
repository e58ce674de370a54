//! The session manager: from a session to a signed-in page, step by step.
//!
//! The manager decides and the host acts, as with a batch. A manager serves
//! one way to authenticate and never leaves it:
//!
//! with credentials, `Idle → OpeningLogin → DismissingConsent →
//! FillingUsername → FillingPassword → Submitting → Verifying`;
//!
//! with a saved token, `Idle → OpeningRoot → InjectingCookie → Reloading →
//! VerifyingRestore`;
//!
//! and either way to `Established` or `Failed`, where it stays.

use vstd::prelude::*;
use crate::auth::{AuthError, AuthMode};
use crate::login::{
    login_step, restore_outcome, restore_verdict, LoginPolicy, LoginStep, LoginVerifier, PageSigns,
};

verus! {

/// The wait after the login page was opened, in milliseconds.
pub const LOGIN_PAGE_WAIT_MS: u64 = 6000;

/// The wait after the cookie notice was dismissed, in milliseconds.
pub const CONSENT_WAIT_MS: u64 = 1000;

/// The wait after an input was filled, in milliseconds.
pub const INPUT_WAIT_MS: u64 = 500;

/// The wait before the form is first submitted, in milliseconds.
pub const SUBMIT_WAIT_MS: u64 = 2000;

/// The wait after the page was reloaded with the session cookie, in
/// milliseconds.
pub const RESTORE_WAIT_MS: u64 = 5000;

/// Where the establishing of a session stands.
#[derive(Clone, Copy, Debug, PartialEq, Eq, Structural)]
pub enum AuthPhase {
    Idle,
    OpeningLogin,
    DismissingConsent,
    FillingUsername,
    FillingPassword,
    Submitting,
    Verifying,
    OpeningRoot,
    InjectingCookie,
    Reloading,
    VerifyingRestore,
    Established,
    Failed(AuthError),
}

/// What the host has done or seen.
#[derive(Debug)]
pub enum AuthEvent {
    /// The session is to be established.
    Begin,
    /// What was asked for has been done.
    Done,
    /// An input was looked for; whether it was found and filled.
    Input(bool),
    /// A look at the page, and the time since the form was first submitted.
    Observed { signs: PageSigns, elapsed_ms: u64 },
}

/// What the host does next.
#[derive(Clone, Copy, Debug, PartialEq, Eq, Structural)]
pub enum AuthAction {
    /// Open the login page, wait `LOGIN_PAGE_WAIT_MS`, and report `Done`.
    OpenLoginPage,
    /// Walk the chain for the cookie notice; click what the first match
    /// found and wait `CONSENT_WAIT_MS`; report `Done` either way.
    DismissConsent,
    /// Walk the chain for the username input, type the username into what
    /// was found, wait `INPUT_WAIT_MS`, and report `Input`.
    FillUsername,
    /// The same for the password.
    FillPassword,
    /// Wait `SUBMIT_WAIT_MS`, submit the form, and report `Done`.
    Submit,
    /// Wait `wait_ms`, look at the page, and report `Observed`.
    Observe { wait_ms: u64 },
    /// Wait `wait_ms`, submit the form again, look at the page, and report
    /// `Observed`.
    Resubmit { wait_ms: u64 },
    /// Open the site's root and report `Done`.
    OpenSiteRoot,
    /// Set the session cookie and report `Done`.
    InjectCookie,
    /// Reload the page, wait `RESTORE_WAIT_MS`, and report `Done`.
    Reload,
    /// The session stands. `dismiss_prompt` asks to put off the offer that
    /// is shown; `keep_token` asks to save the session's token for later
    /// runs.
    Succeed { dismiss_prompt: bool, keep_token: bool },
    /// No session could be had: capture the page, and end the run.
    Fail(AuthError),
    /// The event does not belong to the phase and was passed over.
    Ignore,
}

/// The state of a manager: its phase and the submissions of the form.
pub struct AuthModel {
    pub phase: AuthPhase,
    pub submits: u32,
}

/// The step that follows a look at the login page.
pub open spec fn after_look(
    policy: LoginPolicy,
    submits: u32,
    signs: PageSigns,
    elapsed_ms: u64,
) -> (AuthModel, AuthAction) {
    match login_step(policy, submits, signs, elapsed_ms) {
        LoginStep::Succeeded { dismiss_prompt } => (
            AuthModel { phase: AuthPhase::Established, submits },
            AuthAction::Succeed { dismiss_prompt, keep_token: true },
        ),
        LoginStep::Failed(e) => (
            AuthModel { phase: AuthPhase::Failed(e), submits },
            AuthAction::Fail(e),
        ),
        LoginStep::Resubmit { wait_ms } => (
            AuthModel { phase: AuthPhase::Verifying, submits: (submits + 1) as u32 },
            AuthAction::Resubmit { wait_ms },
        ),
        LoginStep::PollAgain { wait_ms } => (
            AuthModel { phase: AuthPhase::Verifying, submits },
            AuthAction::Observe { wait_ms },
        ),
    }
}

/// The step that follows a look at the page after a session was restored.
pub open spec fn after_restore_look(submits: u32, signs: PageSigns) -> (AuthModel, AuthAction) {
    match restore_outcome(signs) {
        Ok(dismiss_prompt) => (
            AuthModel { phase: AuthPhase::Established, submits },
            AuthAction::Succeed { dismiss_prompt, keep_token: false },
        ),
        Err(e) => (AuthModel { phase: AuthPhase::Failed(e), submits }, AuthAction::Fail(e)),
    }
}

/// The step that follows the search for an input: on to `then` with
/// `action`, or failure where the input is missing.
pub open spec fn after_input(
    found: bool,
    then: AuthPhase,
    action: AuthAction,
    submits: u32,
) -> (AuthModel, AuthAction) {
    if found {
        (AuthModel { phase: then, submits }, action)
    } else {
        (
            AuthModel { phase: AuthPhase::Failed(AuthError::ElementMissing), submits },
            AuthAction::Fail(AuthError::ElementMissing),
        )
    }
}

/// The transition: the state after an event, and what the host does next.
/// An event that does not belong to the phase changes nothing.
pub open spec fn auth_next(mode: AuthMode, policy: LoginPolicy, m: AuthModel, event: AuthEvent) -> (
    AuthModel,
    AuthAction,
) {
    match (m.phase, event) {
        (AuthPhase::Idle, AuthEvent::Begin) => match mode {
            AuthMode::Credentials => (
                AuthModel { phase: AuthPhase::OpeningLogin, ..m },
                AuthAction::OpenLoginPage,
            ),
            AuthMode::CookieRestore => (
                AuthModel { phase: AuthPhase::OpeningRoot, ..m },
                AuthAction::OpenSiteRoot,
            ),
        },
        (AuthPhase::OpeningLogin, AuthEvent::Done) => (
            AuthModel { phase: AuthPhase::DismissingConsent, ..m },
            AuthAction::DismissConsent,
        ),
        (AuthPhase::DismissingConsent, AuthEvent::Done) => (
            AuthModel { phase: AuthPhase::FillingUsername, ..m },
            AuthAction::FillUsername,
        ),
        (AuthPhase::FillingUsername, AuthEvent::Input(found)) => after_input(
            found,
            AuthPhase::FillingPassword,
            AuthAction::FillPassword,
            m.submits,
        ),
        (AuthPhase::FillingPassword, AuthEvent::Input(found)) => after_input(
            found,
            AuthPhase::Submitting,
            AuthAction::Submit,
            m.submits,
        ),
        (AuthPhase::Submitting, AuthEvent::Done) => (
            AuthModel { phase: AuthPhase::Verifying, submits: 1 },
            AuthAction::Observe { wait_ms: 0 },
        ),
        (AuthPhase::Verifying, AuthEvent::Observed { signs, elapsed_ms }) => after_look(
            policy,
            m.submits,
            signs,
            elapsed_ms,
        ),
        (AuthPhase::OpeningRoot, AuthEvent::Done) => (
            AuthModel { phase: AuthPhase::InjectingCookie, ..m },
            AuthAction::InjectCookie,
        ),
        (AuthPhase::InjectingCookie, AuthEvent::Done) => (
            AuthModel { phase: AuthPhase::Reloading, ..m },
            AuthAction::Reload,
        ),
        (AuthPhase::Reloading, AuthEvent::Done) => (
            AuthModel { phase: AuthPhase::VerifyingRestore, ..m },
            AuthAction::Observe { wait_ms: 0 },
        ),
        (AuthPhase::VerifyingRestore, AuthEvent::Observed { signs, elapsed_ms }) => after_restore_look(
            m.submits,
            signs,
        ),
        _ => (m, AuthAction::Ignore),
    }
}

/// The phase belongs to the way with credentials.
pub open spec fn on_credentials_path(phase: AuthPhase) -> bool {
    match phase {
        AuthPhase::OpeningLogin
        | AuthPhase::DismissingConsent
        | AuthPhase::FillingUsername
        | AuthPhase::FillingPassword
        | AuthPhase::Submitting
        | AuthPhase::Verifying => true,
        _ => false,
    }
}

/// The phase belongs to the way with a saved token.
pub open spec fn on_restore_path(phase: AuthPhase) -> bool {
    match phase {
        AuthPhase::OpeningRoot
        | AuthPhase::InjectingCookie
        | AuthPhase::Reloading
        | AuthPhase::VerifyingRestore => true,
        _ => false,
    }
}

/// The phase is one that a manager of this mode can be in.
pub open spec fn phase_fits(mode: AuthMode, phase: AuthPhase) -> bool {
    match mode {
        AuthMode::Credentials => !on_restore_path(phase),
        AuthMode::CookieRestore => !on_credentials_path(phase),
    }
}

/// The action belongs to the way with credentials only.
pub open spec fn credentials_action(action: AuthAction) -> bool {
    match action {
        AuthAction::OpenLoginPage
        | AuthAction::DismissConsent
        | AuthAction::FillUsername
        | AuthAction::FillPassword
        | AuthAction::Submit
        | AuthAction::Resubmit { .. } => true,
        _ => false,
    }
}

/// The action belongs to the way with a saved token only.
pub open spec fn restore_action(action: AuthAction) -> bool {
    match action {
        AuthAction::OpenSiteRoot | AuthAction::InjectCookie | AuthAction::Reload => true,
        _ => false,
    }
}

/// One way to authenticate, and one only: a manager stays in the phases of
/// its mode and asks for no action of the other. With a saved token no
/// credentials are typed and no form is submitted; with credentials no
/// cookie is set.
pub proof fn lemma_modes_do_not_mix(
    mode: AuthMode,
    policy: LoginPolicy,
    m: AuthModel,
    event: AuthEvent,
)
    requires
        phase_fits(mode, m.phase),
    ensures
        phase_fits(mode, auth_next(mode, policy, m, event).0.phase),
        mode == AuthMode::Credentials ==> !restore_action(auth_next(mode, policy, m, event).1),
        mode == AuthMode::CookieRestore ==> !credentials_action(
            auth_next(mode, policy, m, event).1,
        ),
{
}

/// An outcome is final: once a session stands or has failed, no event
/// changes the state or asks for anything.
pub proof fn lemma_outcome_is_final(
    mode: AuthMode,
    policy: LoginPolicy,
    m: AuthModel,
    event: AuthEvent,
)
    requires
        m.phase == AuthPhase::Established || m.phase is Failed,
    ensures
        auth_next(mode, policy, m, event) == (m, AuthAction::Ignore),
{
}

/// A restored session is never repaired: the look at the page after the
/// reload ends the manager, with the session standing or expired.
pub proof fn lemma_restore_is_decided_at_once(
    policy: LoginPolicy,
    m: AuthModel,
    signs: PageSigns,
    elapsed_ms: u64,
)
    requires
        m.phase == AuthPhase::VerifyingRestore,
    ensures
        ({
            let after = auth_next(
                AuthMode::CookieRestore,
                policy,
                m,
                AuthEvent::Observed { signs, elapsed_ms },
            );
            after.0.phase == AuthPhase::Established || (after.0.phase == AuthPhase::Failed(
                AuthError::SessionExpired,
            ) && after.1 == AuthAction::Fail(AuthError::SessionExpired))
        }),
{
}

/// The manager of one session.
pub struct SessionManager {
    mode: AuthMode,
    policy: LoginPolicy,
    phase: AuthPhase,
    submits: u32,
}

impl SessionManager {
    /// The state of the manager.
    pub closed spec fn model(&self) -> AuthModel {
        AuthModel { phase: self.phase, submits: self.submits }
    }

    /// The way in which the manager authenticates.
    pub closed spec fn mode_view(&self) -> AuthMode {
        self.mode
    }

    /// The policy that the manager verifies a login by.
    pub closed spec fn policy_view(&self) -> LoginPolicy {
        self.policy
    }

    /// A manager for a session of the given mode, not yet begun.
    pub fn new(mode: AuthMode, policy: LoginPolicy) -> (manager: SessionManager)
        ensures
            manager.mode_view() == mode,
            manager.policy_view() == policy,
            manager.model() == (AuthModel { phase: AuthPhase::Idle, submits: 0 }),
    {
        SessionManager { mode, policy, phase: AuthPhase::Idle, submits: 0 }
    }

    /// Where the manager stands.
    pub fn phase(&self) -> (p: AuthPhase)
        ensures
            p == self.model().phase,
    {
        self.phase
    }

    /// The way in which the manager authenticates.
    pub fn mode(&self) -> (m: AuthMode)
        ensures
            m == self.mode_view(),
    {
        self.mode
    }

    /// The submissions of the login form so far.
    pub fn submits(&self) -> (n: u32)
        ensures
            n == self.model().submits,
    {
        self.submits
    }

    /// The outcome, once there is one.
    pub fn outcome(&self) -> (r: Option<Result<(), AuthError>>)
        ensures
            r == match self.model().phase {
                AuthPhase::Established => Some(Ok::<(), AuthError>(())),
                AuthPhase::Failed(e) => Some(Err::<(), AuthError>(e)),
                _ => None,
            },
    {
        match self.phase {
            AuthPhase::Established => Some(Ok(())),
            AuthPhase::Failed(e) => Some(Err(e)),
            _ => None,
        }
    }

    /// Goes on after the search for an input.
    fn input_step(&mut self, found: bool, then: AuthPhase, action: AuthAction) -> (r: AuthAction)
        ensures
            final(self).mode_view() == old(self).mode_view(),
            final(self).policy_view() == old(self).policy_view(),
            (final(self).model(), r) == after_input(found, then, action, old(self).submits),
    {
        if found {
            self.phase = then;
            action
        } else {
            self.phase = AuthPhase::Failed(AuthError::ElementMissing);
            AuthAction::Fail(AuthError::ElementMissing)
        }
    }

    /// Takes what the host has done or seen and returns what the host does
    /// next.
    pub fn step(&mut self, event: AuthEvent) -> (action: AuthAction)
        ensures
            final(self).mode_view() == old(self).mode_view(),
            final(self).policy_view() == old(self).policy_view(),
            (final(self).model(), action) == auth_next(
                old(self).mode_view(),
                old(self).policy_view(),
                old(self).model(),
                event,
            ),
    {
        match (self.phase, event) {
            (AuthPhase::Idle, AuthEvent::Begin) => {
                match self.mode {
                    AuthMode::Credentials => {
                        self.phase = AuthPhase::OpeningLogin;
                        AuthAction::OpenLoginPage
                    },
                    AuthMode::CookieRestore => {
                        self.phase = AuthPhase::OpeningRoot;
                        AuthAction::OpenSiteRoot
                    },
                }
            },
            (AuthPhase::OpeningLogin, AuthEvent::Done) => {
                self.phase = AuthPhase::DismissingConsent;
                AuthAction::DismissConsent
            },
            (AuthPhase::DismissingConsent, AuthEvent::Done) => {
                self.phase = AuthPhase::FillingUsername;
                AuthAction::FillUsername
            },
            (AuthPhase::FillingUsername, AuthEvent::Input(found)) => self.input_step(
                found,
                AuthPhase::FillingPassword,
                AuthAction::FillPassword,
            ),
            (AuthPhase::FillingPassword, AuthEvent::Input(found)) => self.input_step(
                found,
                AuthPhase::Submitting,
                AuthAction::Submit,
            ),
            (AuthPhase::Submitting, AuthEvent::Done) => {
                self.phase = AuthPhase::Verifying;
                self.submits = 1;
                AuthAction::Observe { wait_ms: 0 }
            },
            (AuthPhase::Verifying, AuthEvent::Observed { signs, elapsed_ms }) => {
                let mut verifier = LoginVerifier { policy: self.policy, submits: self.submits };
                match verifier.poll(&signs, elapsed_ms) {
                    LoginStep::Succeeded { dismiss_prompt } => {
                        self.phase = AuthPhase::Established;
                        AuthAction::Succeed { dismiss_prompt, keep_token: true }
                    },
                    LoginStep::Failed(e) => {
                        self.phase = AuthPhase::Failed(e);
                        AuthAction::Fail(e)
                    },
                    LoginStep::Resubmit { wait_ms } => {
                        self.submits = verifier.submits;
                        AuthAction::Resubmit { wait_ms }
                    },
                    LoginStep::PollAgain { wait_ms } => AuthAction::Observe { wait_ms },
                }
            },
            (AuthPhase::OpeningRoot, AuthEvent::Done) => {
                self.phase = AuthPhase::InjectingCookie;
                AuthAction::InjectCookie
            },
            (AuthPhase::InjectingCookie, AuthEvent::Done) => {
                self.phase = AuthPhase::Reloading;
                AuthAction::Reload
            },
            (AuthPhase::Reloading, AuthEvent::Done) => {
                self.phase = AuthPhase::VerifyingRestore;
                AuthAction::Observe { wait_ms: 0 }
            },
            (AuthPhase::VerifyingRestore, AuthEvent::Observed { signs, elapsed_ms }) => {
                match restore_verdict(&signs) {
                    Ok(dismiss_prompt) => {
                        self.phase = AuthPhase::Established;
                        AuthAction::Succeed { dismiss_prompt, keep_token: false }
                    },
                    Err(e) => {
                        self.phase = AuthPhase::Failed(e);
                        AuthAction::Fail(e)
                    },
                }
            },
            _ => AuthAction::Ignore,
        }
    }
}

} // verus!
