use stov::auth::AuthError;
use stov::batch::{BatchController, Phase};
use stov::login::{restore_verdict, PageSigns};
use stov::run::{evidence_id, pause_between_accounts, profile_url, DelayBounds, Run, RunPhase};

fn targets() -> Vec<Vec<u8>> {
    vec![b"alice".to_vec(), b"bob".to_vec(), b"carol".to_vec()]
}

#[test]
fn the_address_of_an_accounts_page() {
    assert_eq!(profile_url(b"alice"), b"https://www.instagram.com/alice/".to_vec());
    assert_eq!(profile_url(b""), b"https://www.instagram.com//".to_vec());
}

#[test]
fn the_pause_lies_within_its_bounds() {
    let bounds = DelayBounds::standard();
    assert_eq!(bounds.min_secs, 3);
    assert_eq!(bounds.max_secs, 6);
    for _ in 0..200 {
        let secs = pause_between_accounts(bounds);
        assert!(3 <= secs && secs < 6);
    }
    let wide = DelayBounds { min_secs: 1000, max_secs: 2000 };
    for _ in 0..200 {
        let secs = pause_between_accounts(wide);
        assert!(1000 <= secs && secs < 2000);
    }
}

#[test]
fn a_pause_without_choice_is_the_lower_bound() {
    assert_eq!(pause_between_accounts(DelayBounds { min_secs: 4, max_secs: 5 }), 4);
    assert_eq!(pause_between_accounts(DelayBounds { min_secs: 7, max_secs: 7 }), 7);
    assert_eq!(pause_between_accounts(DelayBounds { min_secs: 9, max_secs: 2 }), 9);
}

#[test]
fn the_pause_is_drawn_not_fixed() {
    let wide = DelayBounds { min_secs: 0, max_secs: u64::MAX };
    let first = pause_between_accounts(wide);
    let mut differs = false;
    for _ in 0..64 {
        if pause_between_accounts(wide) != first {
            differs = true;
        }
    }
    assert!(differs);
}

#[test]
fn a_captures_number_has_four_digits() {
    for _ in 0..500 {
        let id = evidence_id();
        assert!(1000 <= id && id < 9999);
    }
}

#[test]
fn the_accounts_are_handed_out_in_order() {
    let mut run = Run::new(targets());
    assert_eq!(run.phase(), RunPhase::Authenticating);
    assert_eq!(run.remaining(), 3);
    run.session_result(Ok(()));
    assert_eq!(run.phase(), RunPhase::Processing);

    let first = run.next_account().unwrap();
    assert_eq!(first.account, b"alice".to_vec());
    assert!(!first.pause_first);
    let second = run.next_account().unwrap();
    assert_eq!(second.account, b"bob".to_vec());
    assert!(second.pause_first);
    assert_eq!(run.remaining(), 1);
    let third = run.next_account().unwrap();
    assert_eq!(third.account, b"carol".to_vec());
    assert!(third.pause_first);
    assert_eq!(run.phase(), RunPhase::Processing);

    assert!(run.next_account().is_none());
    assert_eq!(run.phase(), RunPhase::Finished);
    assert!(run.next_account().is_none());
    assert_eq!(run.phase(), RunPhase::Finished);
}

#[test]
fn no_account_is_handed_out_before_the_session_stands() {
    let mut run = Run::new(targets());
    assert!(run.next_account().is_none());
    assert_eq!(run.phase(), RunPhase::Authenticating);
    assert_eq!(run.remaining(), 3);
}

#[test]
fn a_run_without_accounts_finishes_at_once() {
    let mut run = Run::new(vec![]);
    run.session_result(Ok(()));
    assert!(run.next_account().is_none());
    assert_eq!(run.phase(), RunPhase::Finished);
}

#[test]
fn each_failure_of_the_session_aborts_the_run() {
    for error in [
        AuthError::InvalidCredentials,
        AuthError::Timeout,
        AuthError::ElementMissing,
        AuthError::SessionExpired,
    ] {
        let mut run = Run::new(targets());
        run.session_result(Err(error));
        assert_eq!(run.phase(), RunPhase::Aborted(error));
        assert!(run.next_account().is_none());
        assert_eq!(run.remaining(), 3);
    }
}

#[test]
fn the_first_outcome_of_the_session_stands() {
    let mut run = Run::new(targets());
    run.session_result(Err(AuthError::Timeout));
    run.session_result(Ok(()));
    assert_eq!(run.phase(), RunPhase::Aborted(AuthError::Timeout));
    assert!(run.next_account().is_none());

    let mut run = Run::new(targets());
    run.session_result(Ok(()));
    run.session_result(Err(AuthError::Timeout));
    assert_eq!(run.phase(), RunPhase::Processing);
}

#[test]
fn an_expired_token_aborts_the_run_before_any_batch() {
    let page = PageSigns {
        landmark: false,
        not_now_prompt: false,
        url: b"https://www.instagram.com/accounts/login/?next=%2F".to_vec(),
        alert: None,
    };
    let verdict = restore_verdict(&page);
    assert_eq!(verdict, Err(AuthError::SessionExpired));

    let mut run = Run::new(targets());
    run.session_result(verdict.map(|_| ()));
    assert_eq!(run.phase(), RunPhase::Aborted(AuthError::SessionExpired));
    let mut batches: Vec<BatchController> = Vec::new();
    while let Some(next) = run.next_account() {
        batches.push(BatchController::new(&next.account, 8));
    }
    assert!(batches.is_empty());
    assert_eq!(run.remaining(), 3);
    let idle = BatchController::new(b"alice", 8);
    assert_eq!(idle.phase(), Phase::Idle);
}

#[test]
fn accounts_are_read_from_a_line_of_input() {
    assert_eq!(
        stov::run::parse_targets(b"alice, bob ,,carol,\t,  "),
        vec![b"alice".to_vec(), b"bob".to_vec(), b"carol".to_vec()]
    );
    assert_eq!(stov::run::parse_targets(b"alice\n"), vec![b"alice".to_vec()]);
    assert_eq!(stov::run::parse_targets(b"a b"), vec![b"a b".to_vec()]);
    assert!(stov::run::parse_targets(b"").is_empty());
    assert!(stov::run::parse_targets(b" , ,").is_empty());
}

#[test]
fn white_space_of_every_kind_is_taken_from_a_name() {
    assert_eq!(
        stov::run::parse_targets("\u{a0}alice\u{3000},\u{2003}bob\u{85},\u{2028}".as_bytes()),
        vec![b"alice".to_vec(), b"bob".to_vec()]
    );
    let line = " alice ,\u{a0}bob\u{2009},, c\u{a0}d ,\u{1680}";
    let expected: Vec<Vec<u8>> = line
        .split(',')
        .map(|s| s.trim().to_string())
        .filter(|s| !s.is_empty())
        .map(String::into_bytes)
        .collect();
    assert_eq!(stov::run::parse_targets(line.as_bytes()), expected);
}
