//! The session manager's decisions: which control submits the login form,
//! what the page says after it was submitted, and when to stop asking.

use vstd::prelude::*;
use vstd::string::StringSliceAdditionalSpecFns;
use crate::auth::AuthError;
use crate::text::{contains, includes};

verus! {

/// What the text of a password-visibility toggle holds, in lower case.
pub const TOGGLE_WORD: &'static str = "show";

/// What the text of the login button holds, in lower case.
pub const LOGIN_WORDS: &'static str = "log in";

/// What an alert on refused credentials holds, in lower case.
pub const REFUSAL_WORD: &'static str = "incorrect";

/// What an alert on a passing fault holds, in lower case.
pub const FAULT_WORD: &'static str = "problem";

/// What the address of the login page holds.
pub const LOGIN_PATH: &'static str = "accounts/login";

/// What the address of a challenge page holds.
pub const CHALLENGE_PATH: &'static str = "challenge";

/// What a button is, by its text.
#[derive(Clone, Copy, Debug, PartialEq, Eq, Structural)]
pub enum ButtonRole {
    /// It submits the login form.
    Login,
    /// It shows or hides the password.
    Toggle,
    /// It is neither.
    Other,
    /// Its text could not be read.
    Unreadable,
}

/// The control that submits the login form.
#[derive(Clone, Copy, Debug, PartialEq, Eq, Structural)]
pub enum LoginControl {
    /// The button at this position among the page's buttons.
    Button(usize),
    /// No button: the key that submits a form.
    EnterKey,
}

/// What an alert on the login form tells.
#[derive(Clone, Copy, Debug, PartialEq, Eq, Structural)]
pub enum AlertKind {
    /// The credentials were refused.
    InvalidCredentials,
    /// Something went wrong for the moment.
    Transient,
    /// Something else.
    Other,
}

/// What one look at the page has shown.
#[derive(Debug)]
pub struct PageSigns {
    /// A mark of a signed-in visitor is shown.
    pub landmark: bool,
    /// An offer that can be put off is shown.
    pub not_now_prompt: bool,
    /// The page's address.
    pub url: Vec<u8>,
    /// The alert on the login form, where one is shown and can be read.
    pub alert: Option<AlertKind>,
}

/// How long a login is waited for, and how often it is submitted.
#[derive(Clone, Copy, Debug, PartialEq, Eq, Structural)]
pub struct LoginPolicy {
    /// The time after the first submission by which the site must have given
    /// its verdict, in milliseconds.
    pub deadline_ms: u64,
    /// The wait between two looks at the page, in milliseconds.
    pub poll_interval_ms: u64,
    /// The wait before the form is submitted again, in milliseconds.
    pub retry_wait_ms: u64,
    /// The submissions made at most.
    pub max_submits: u32,
}

/// What follows a look at the page.
#[derive(Clone, Copy, Debug, PartialEq, Eq, Structural)]
pub enum LoginStep {
    /// The visitor is signed in. `dismiss_prompt` asks to put off the offer
    /// that is shown.
    Succeeded { dismiss_prompt: bool },
    /// The login has failed for good.
    Failed(AuthError),
    /// Wait, then submit the form again and go on looking.
    Resubmit { wait_ms: u64 },
    /// Wait, then look again.
    PollAgain { wait_ms: u64 },
}

/// The lower-case form of a text, as `str::to_lowercase` gives it, in
/// UTF-8.
pub uninterp spec fn lowercase_of(text: Seq<char>) -> Seq<u8>;

/// What a button is, by its text in lower case. A text that names a toggle
/// is a toggle whatever else it holds.
pub open spec fn role_of(lowered: Seq<u8>) -> ButtonRole {
    if contains(lowered, TOGGLE_WORD.spec_bytes()) {
        ButtonRole::Toggle
    } else if contains(lowered, LOGIN_WORDS.spec_bytes()) {
        ButtonRole::Login
    } else {
        ButtonRole::Other
    }
}

/// What an alert tells, by its text in lower case.
pub open spec fn alert_of(lowered: Seq<u8>) -> AlertKind {
    if contains(lowered, REFUSAL_WORD.spec_bytes()) {
        AlertKind::InvalidCredentials
    } else if contains(lowered, FAULT_WORD.spec_bytes()) {
        AlertKind::Transient
    } else {
        AlertKind::Other
    }
}

/// `i` is the position of the first login button.
pub open spec fn is_first_login_button(buttons: Seq<ButtonRole>, i: int) -> bool {
    &&& 0 <= i < buttons.len()
    &&& buttons[i] == ButtonRole::Login
    &&& forall|j: int| 0 <= j < i ==> buttons[j] != ButtonRole::Login
}

/// No button is a login button.
pub open spec fn no_login_button(buttons: Seq<ButtonRole>) -> bool {
    forall|j: int| 0 <= j < buttons.len() ==> buttons[j] != ButtonRole::Login
}

/// The address is that of the login page or of a challenge.
pub open spec fn on_login_surface(url: Seq<u8>) -> bool {
    contains(url, LOGIN_PATH.spec_bytes()) || contains(url, CHALLENGE_PATH.spec_bytes())
}

/// The page shows a signed-in visitor: by a landmark, by an offer made only
/// after login, or by an address that has left the login surface.
pub open spec fn signed_in(signs: PageSigns) -> bool {
    signs.landmark || signs.not_now_prompt || !on_login_surface(signs.url@)
}

/// What follows a look at the page, `elapsed_ms` after the first submission
/// and with `submits` submissions made. The deadline is looked at first and
/// its passing is final; then success; then what the alert tells.
pub open spec fn login_step(
    policy: LoginPolicy,
    submits: u32,
    signs: PageSigns,
    elapsed_ms: u64,
) -> LoginStep {
    if elapsed_ms >= policy.deadline_ms {
        LoginStep::Failed(AuthError::Timeout)
    } else if signed_in(signs) {
        LoginStep::Succeeded { dismiss_prompt: signs.not_now_prompt }
    } else {
        match signs.alert {
            Some(AlertKind::InvalidCredentials) => LoginStep::Failed(AuthError::InvalidCredentials),
            Some(AlertKind::Transient) => if submits < policy.max_submits {
                LoginStep::Resubmit { wait_ms: policy.retry_wait_ms }
            } else {
                LoginStep::Failed(AuthError::Timeout)
            },
            _ => LoginStep::PollAgain { wait_ms: policy.poll_interval_ms },
        }
    }
}

/// The verdict on a restored session: it stands if the page shows a
/// signed-in visitor, and has expired otherwise. `Ok` tells whether the offer
/// is to be put off: where a landmark is shown nothing is touched, and the
/// offer is put off only where it alone told of the session.
pub open spec fn restore_outcome(signs: PageSigns) -> Result<bool, AuthError> {
    if signed_in(signs) {
        Ok(signs.not_now_prompt && !signs.landmark)
    } else {
        Err(AuthError::SessionExpired)
    }
}

/// A passed deadline is final: whatever the page shows, the login has timed
/// out, and nothing starts the wait anew.
pub proof fn lemma_deadline_is_final(
    policy: LoginPolicy,
    submits: u32,
    signs: PageSigns,
    elapsed_ms: u64,
)
    requires
        elapsed_ms >= policy.deadline_ms,
    ensures
        login_step(policy, submits, signs, elapsed_ms) == LoginStep::Failed(AuthError::Timeout),
{
}

/// Refused credentials are never tried again: before the deadline, on a page
/// that shows no signed-in visitor, their alert fails the login at once.
pub proof fn lemma_refusal_is_final(
    policy: LoginPolicy,
    submits: u32,
    signs: PageSigns,
    elapsed_ms: u64,
)
    requires
        elapsed_ms < policy.deadline_ms,
        !signed_in(signs),
        signs.alert == Some(AlertKind::InvalidCredentials),
    ensures
        login_step(policy, submits, signs, elapsed_ms) == LoginStep::Failed(
            AuthError::InvalidCredentials,
        ),
{
}

/// Calls `str::to_lowercase` of the standard library and hands back the
/// bytes of the string it returns. The contract claims no more than that
/// these bytes are a function of the text.
#[verifier::external_body]
fn lowercase(text: &str) -> (r: Vec<u8>)
    ensures
        r@ == lowercase_of(text@),
{
    text.to_lowercase().into_bytes()
}

/// What a button is, by its text in lower case.
pub fn role_of_lowered(lowered: &[u8]) -> (r: ButtonRole)
    ensures
        r == role_of(lowered@),
{
    if includes(lowered, TOGGLE_WORD.as_bytes()) {
        ButtonRole::Toggle
    } else if includes(lowered, LOGIN_WORDS.as_bytes()) {
        ButtonRole::Login
    } else {
        ButtonRole::Other
    }
}

/// What a button is, by its text: letter case does not count.
pub fn button_role(text: &str) -> (r: ButtonRole)
    ensures
        r == role_of(lowercase_of(text@)),
{
    let lowered = lowercase(text);
    role_of_lowered(lowered.as_slice())
}

/// What an alert tells, by its text in lower case.
pub fn alert_of_lowered(lowered: &[u8]) -> (r: AlertKind)
    ensures
        r == alert_of(lowered@),
{
    if includes(lowered, REFUSAL_WORD.as_bytes()) {
        AlertKind::InvalidCredentials
    } else if includes(lowered, FAULT_WORD.as_bytes()) {
        AlertKind::Transient
    } else {
        AlertKind::Other
    }
}

/// What an alert tells, by its text: letter case does not count.
pub fn alert_kind(text: &str) -> (r: AlertKind)
    ensures
        r == alert_of(lowercase_of(text@)),
{
    let lowered = lowercase(text);
    alert_of_lowered(lowered.as_slice())
}

/// Chooses the control that submits the login form: the first login button
/// among the page's buttons, and the key where there is none. A toggle is
/// never chosen.
pub fn choose_login_control(buttons: &[ButtonRole]) -> (r: LoginControl)
    ensures
        match r {
            LoginControl::Button(i) => is_first_login_button(buttons@, i as int),
            LoginControl::EnterKey => no_login_button(buttons@),
        },
{
    let mut i: usize = 0;
    while i < buttons.len()
        invariant
            i <= buttons.len(),
            forall|j: int| 0 <= j < i ==> buttons@[j] != ButtonRole::Login,
        decreases buttons.len() - i,
    {
        match buttons[i] {
            ButtonRole::Login => {
                return LoginControl::Button(i);
            },
            _ => {},
        }
        i += 1;
    }
    LoginControl::EnterKey
}

/// Whether the address is that of the login page or of a challenge.
pub fn is_on_login_surface(url: &[u8]) -> (r: bool)
    ensures
        r == on_login_surface(url@),
{
    includes(url, LOGIN_PATH.as_bytes()) || includes(url, CHALLENGE_PATH.as_bytes())
}

/// Whether the page shows a signed-in visitor.
pub fn is_signed_in(signs: &PageSigns) -> (r: bool)
    ensures
        r == signed_in(*signs),
{
    signs.landmark || signs.not_now_prompt || !is_on_login_surface(signs.url.as_slice())
}

/// The verdict on a restored session. `Ok` tells whether an offer is to be
/// put off.
pub fn restore_verdict(signs: &PageSigns) -> (r: Result<bool, AuthError>)
    ensures
        r == restore_outcome(*signs),
{
    if is_signed_in(signs) {
        Ok(signs.not_now_prompt && !signs.landmark)
    } else {
        Err(AuthError::SessionExpired)
    }
}

impl LoginPolicy {
    /// The policy in use: a verdict within a minute, a look every half
    /// second, three seconds before a new submission, three submissions.
    pub fn standard() -> (policy: LoginPolicy)
        ensures
            policy == (LoginPolicy {
                deadline_ms: 60_000,
                poll_interval_ms: 500,
                retry_wait_ms: 3_000,
                max_submits: 3,
            }),
    {
        LoginPolicy {
            deadline_ms: 60_000,
            poll_interval_ms: 500,
            retry_wait_ms: 3_000,
            max_submits: 3,
        }
    }
}

/// The verification of one login: counts the submissions of the form.
#[derive(Clone, Copy, Debug, PartialEq, Eq, Structural)]
pub struct LoginVerifier {
    pub policy: LoginPolicy,
    /// The submissions made so far.
    pub submits: u32,
}

impl LoginVerifier {
    /// The verification of a login whose form has been submitted once.
    pub fn new(policy: LoginPolicy) -> (v: LoginVerifier)
        ensures
            v == (LoginVerifier { policy, submits: 1 }),
    {
        LoginVerifier { policy, submits: 1 }
    }

    /// Takes what a look at the page has shown, `elapsed_ms` after the first
    /// submission, and says what follows. A new submission is counted.
    pub fn poll(&mut self, signs: &PageSigns, elapsed_ms: u64) -> (step: LoginStep)
        ensures
            step == login_step(old(self).policy, old(self).submits, *signs, elapsed_ms),
            final(self).policy == old(self).policy,
            final(self).submits == if step is Resubmit {
                (old(self).submits + 1) as u32
            } else {
                old(self).submits
            },
    {
        if elapsed_ms >= self.policy.deadline_ms {
            LoginStep::Failed(AuthError::Timeout)
        } else if is_signed_in(signs) {
            LoginStep::Succeeded { dismiss_prompt: signs.not_now_prompt }
        } else {
            match signs.alert {
                Some(AlertKind::InvalidCredentials) => LoginStep::Failed(
                    AuthError::InvalidCredentials,
                ),
                Some(AlertKind::Transient) => {
                    if self.submits < self.policy.max_submits {
                        self.submits = self.submits + 1;
                        LoginStep::Resubmit { wait_ms: self.policy.retry_wait_ms }
                    } else {
                        LoginStep::Failed(AuthError::Timeout)
                    }
                },
                _ => LoginStep::PollAgain { wait_ms: self.policy.poll_interval_ms },
            }
        }
    }
}

} // verus!
