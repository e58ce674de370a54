use stov::auth::{AuthError, AuthMode};
use stov::login::{AlertKind, LoginPolicy, PageSigns};
use stov::session::{AuthAction, AuthEvent, AuthPhase, SessionManager};

const LOGIN_URL: &[u8] = b"https://www.instagram.com/accounts/login/";
const HOME_URL: &[u8] = b"https://www.instagram.com/";

fn look(landmark: bool, prompt: bool, url: &[u8], alert: Option<AlertKind>, elapsed_ms: u64) -> AuthEvent {
    AuthEvent::Observed {
        signs: PageSigns { landmark, not_now_prompt: prompt, url: url.to_vec(), alert },
        elapsed_ms,
    }
}

fn submitted() -> SessionManager {
    let mut m = SessionManager::new(AuthMode::Credentials, LoginPolicy::standard());
    assert_eq!(m.step(AuthEvent::Begin), AuthAction::OpenLoginPage);
    assert_eq!(m.step(AuthEvent::Done), AuthAction::DismissConsent);
    assert_eq!(m.step(AuthEvent::Done), AuthAction::FillUsername);
    assert_eq!(m.step(AuthEvent::Input(true)), AuthAction::FillPassword);
    assert_eq!(m.step(AuthEvent::Input(true)), AuthAction::Submit);
    assert_eq!(m.step(AuthEvent::Done), AuthAction::Observe { wait_ms: 0 });
    assert_eq!(m.phase(), AuthPhase::Verifying);
    assert_eq!(m.submits(), 1);
    m
}

fn reloaded() -> SessionManager {
    let mut m = SessionManager::new(AuthMode::CookieRestore, LoginPolicy::standard());
    assert_eq!(m.step(AuthEvent::Begin), AuthAction::OpenSiteRoot);
    assert_eq!(m.step(AuthEvent::Done), AuthAction::InjectCookie);
    assert_eq!(m.step(AuthEvent::Done), AuthAction::Reload);
    assert_eq!(m.step(AuthEvent::Done), AuthAction::Observe { wait_ms: 0 });
    assert_eq!(m.phase(), AuthPhase::VerifyingRestore);
    m
}

#[test]
fn a_new_manager_is_idle() {
    let m = SessionManager::new(AuthMode::Credentials, LoginPolicy::standard());
    assert_eq!(m.phase(), AuthPhase::Idle);
    assert_eq!(m.mode(), AuthMode::Credentials);
    assert_eq!(m.submits(), 0);
    assert_eq!(m.outcome(), None);
}

#[test]
fn with_credentials_the_form_is_filled_and_submitted() {
    let mut m = SessionManager::new(AuthMode::Credentials, LoginPolicy::standard());
    assert_eq!(m.step(AuthEvent::Begin), AuthAction::OpenLoginPage);
    assert_eq!(m.phase(), AuthPhase::OpeningLogin);
    assert_eq!(m.step(AuthEvent::Done), AuthAction::DismissConsent);
    assert_eq!(m.phase(), AuthPhase::DismissingConsent);
    assert_eq!(m.step(AuthEvent::Done), AuthAction::FillUsername);
    assert_eq!(m.phase(), AuthPhase::FillingUsername);
    assert_eq!(m.step(AuthEvent::Input(true)), AuthAction::FillPassword);
    assert_eq!(m.phase(), AuthPhase::FillingPassword);
    assert_eq!(m.step(AuthEvent::Input(true)), AuthAction::Submit);
    assert_eq!(m.phase(), AuthPhase::Submitting);
    assert_eq!(m.step(AuthEvent::Done), AuthAction::Observe { wait_ms: 0 });
    assert_eq!(m.phase(), AuthPhase::Verifying);
    assert_eq!(
        m.step(look(true, false, HOME_URL, None, 700)),
        AuthAction::Succeed { dismiss_prompt: false, keep_token: true }
    );
    assert_eq!(m.phase(), AuthPhase::Established);
    assert_eq!(m.outcome(), Some(Ok(())));
}

#[test]
fn a_missing_username_input_ends_the_login() {
    let mut m = SessionManager::new(AuthMode::Credentials, LoginPolicy::standard());
    m.step(AuthEvent::Begin);
    m.step(AuthEvent::Done);
    m.step(AuthEvent::Done);
    assert_eq!(m.step(AuthEvent::Input(false)), AuthAction::Fail(AuthError::ElementMissing));
    assert_eq!(m.phase(), AuthPhase::Failed(AuthError::ElementMissing));
    assert_eq!(m.outcome(), Some(Err(AuthError::ElementMissing)));
}

#[test]
fn a_missing_password_input_ends_the_login() {
    let mut m = SessionManager::new(AuthMode::Credentials, LoginPolicy::standard());
    m.step(AuthEvent::Begin);
    m.step(AuthEvent::Done);
    m.step(AuthEvent::Done);
    m.step(AuthEvent::Input(true));
    assert_eq!(m.step(AuthEvent::Input(false)), AuthAction::Fail(AuthError::ElementMissing));
    assert_eq!(m.outcome(), Some(Err(AuthError::ElementMissing)));
}

#[test]
fn the_page_is_looked_at_until_it_tells() {
    let mut m = submitted();
    assert_eq!(m.step(look(false, false, LOGIN_URL, None, 0)), AuthAction::Observe { wait_ms: 500 });
    assert_eq!(m.step(look(false, false, LOGIN_URL, None, 500)), AuthAction::Observe { wait_ms: 500 });
    assert_eq!(m.phase(), AuthPhase::Verifying);
    assert_eq!(
        m.step(look(false, true, LOGIN_URL, None, 1000)),
        AuthAction::Succeed { dismiss_prompt: true, keep_token: true }
    );
    assert_eq!(m.outcome(), Some(Ok(())));
}

#[test]
fn refused_credentials_end_the_login() {
    let mut m = submitted();
    assert_eq!(
        m.step(look(false, false, LOGIN_URL, Some(AlertKind::InvalidCredentials), 1000)),
        AuthAction::Fail(AuthError::InvalidCredentials)
    );
    assert_eq!(m.outcome(), Some(Err(AuthError::InvalidCredentials)));
}

#[test]
fn a_passing_fault_has_the_form_submitted_again() {
    let mut m = submitted();
    let fault = || look(false, false, LOGIN_URL, Some(AlertKind::Transient), 2000);
    assert_eq!(m.step(fault()), AuthAction::Resubmit { wait_ms: 3000 });
    assert_eq!(m.submits(), 2);
    assert_eq!(m.phase(), AuthPhase::Verifying);
    assert_eq!(m.step(fault()), AuthAction::Resubmit { wait_ms: 3000 });
    assert_eq!(m.submits(), 3);
    assert_eq!(m.step(fault()), AuthAction::Fail(AuthError::Timeout));
    assert_eq!(m.outcome(), Some(Err(AuthError::Timeout)));
}

#[test]
fn the_deadline_ends_the_login() {
    let mut m = submitted();
    assert_eq!(m.step(look(false, false, LOGIN_URL, None, 59_999)), AuthAction::Observe { wait_ms: 500 });
    assert_eq!(m.step(look(true, false, HOME_URL, None, 60_000)), AuthAction::Fail(AuthError::Timeout));
    assert_eq!(m.phase(), AuthPhase::Failed(AuthError::Timeout));
}

#[test]
fn with_a_token_the_cookie_is_set_and_the_page_reloaded() {
    let mut m = reloaded();
    assert_eq!(m.mode(), AuthMode::CookieRestore);
    assert_eq!(
        m.step(look(true, false, HOME_URL, None, 0)),
        AuthAction::Succeed { dismiss_prompt: false, keep_token: false }
    );
    assert_eq!(m.outcome(), Some(Ok(())));
    assert_eq!(m.submits(), 0);
}

#[test]
fn an_expired_token_ends_the_run_without_a_second_look() {
    let mut m = reloaded();
    assert_eq!(m.step(look(false, false, LOGIN_URL, None, 0)), AuthAction::Fail(AuthError::SessionExpired));
    assert_eq!(m.phase(), AuthPhase::Failed(AuthError::SessionExpired));
    assert_eq!(m.step(look(true, false, HOME_URL, None, 0)), AuthAction::Ignore);
    assert_eq!(m.outcome(), Some(Err(AuthError::SessionExpired)));
}

#[test]
fn a_restore_knows_no_deadline_and_no_alert() {
    let mut m = reloaded();
    assert_eq!(
        m.step(look(false, true, LOGIN_URL, Some(AlertKind::InvalidCredentials), u64::MAX)),
        AuthAction::Succeed { dismiss_prompt: true, keep_token: false }
    );
}

#[test]
fn an_outcome_is_final() {
    let mut m = submitted();
    m.step(look(true, false, HOME_URL, None, 10));
    for event in [
        AuthEvent::Begin,
        AuthEvent::Done,
        AuthEvent::Input(true),
        AuthEvent::Input(false),
        look(false, false, LOGIN_URL, Some(AlertKind::InvalidCredentials), 70_000),
    ] {
        assert_eq!(m.step(event), AuthAction::Ignore);
        assert_eq!(m.phase(), AuthPhase::Established);
    }
}

#[test]
fn events_out_of_place_are_passed_over() {
    let mut m = SessionManager::new(AuthMode::Credentials, LoginPolicy::standard());
    assert_eq!(m.step(AuthEvent::Done), AuthAction::Ignore);
    assert_eq!(m.step(AuthEvent::Input(true)), AuthAction::Ignore);
    assert_eq!(m.step(look(true, false, HOME_URL, None, 0)), AuthAction::Ignore);
    assert_eq!(m.phase(), AuthPhase::Idle);
    m.step(AuthEvent::Begin);
    assert_eq!(m.step(AuthEvent::Begin), AuthAction::Ignore);
    assert_eq!(m.step(AuthEvent::Input(true)), AuthAction::Ignore);
    assert_eq!(m.phase(), AuthPhase::OpeningLogin);
}

#[test]
fn the_two_ways_do_not_mix() {
    let credentials_only = [
        AuthAction::OpenLoginPage,
        AuthAction::DismissConsent,
        AuthAction::FillUsername,
        AuthAction::FillPassword,
        AuthAction::Submit,
    ];
    let restore_only = [AuthAction::OpenSiteRoot, AuthAction::InjectCookie, AuthAction::Reload];
    let events = || {
        vec![
            AuthEvent::Begin,
            AuthEvent::Done,
            AuthEvent::Done,
            AuthEvent::Input(true),
            AuthEvent::Input(true),
            AuthEvent::Done,
            AuthEvent::Done,
            look(false, false, LOGIN_URL, Some(AlertKind::Transient), 100),
            look(false, false, LOGIN_URL, None, 100),
        ]
    };
    let mut with_token = SessionManager::new(AuthMode::CookieRestore, LoginPolicy::standard());
    for event in events() {
        let action = with_token.step(event);
        assert!(!credentials_only.contains(&action));
        assert!(!matches!(action, AuthAction::Resubmit { .. }));
    }
    let mut with_credentials = SessionManager::new(AuthMode::Credentials, LoginPolicy::standard());
    for event in events() {
        let action = with_credentials.step(event);
        assert!(!restore_only.contains(&action));
    }
}

#[test]
fn a_restore_touches_nothing_where_a_landmark_is_shown() {
    let mut m = reloaded();
    assert_eq!(
        m.step(look(true, true, HOME_URL, None, 0)),
        AuthAction::Succeed { dismiss_prompt: false, keep_token: false }
    );
    let mut m = submitted();
    assert_eq!(
        m.step(look(true, true, HOME_URL, None, 100)),
        AuthAction::Succeed { dismiss_prompt: true, keep_token: true }
    );
}
