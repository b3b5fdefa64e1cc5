//! The authentication controller, the idle lock, navigation authorization,
//! and the whole unlock-edit-relock-unlock scenario.

use pnt::auth::{AuthController, AuthOutcome};
use pnt::cfg::{CliArgs, InnerCfg, NoteState, RunMode};
use pnt::cipher::EntryAes256GcmSecretEncrypter;
use pnt::context::SecurityContext;
use pnt::crypto::{MainPwdEncrypter, MainPwdVerifier};
use pnt::entry::{EncryptedEntry, InputEntry};
use pnt::errors::AppError;
use pnt::intents::ScreenIntent;
use pnt::screen::{Editing, EditingState, Screen};
use pnt::session::{NavOutcome, Session, UnlockStep};

fn verifier_for(password: &str, salt: [u8; 32]) -> MainPwdVerifier {
    let record = MainPwdEncrypter::from_salt(salt).encrypt(password.to_owned()).unwrap();
    MainPwdVerifier::from_b64_s_mph(&record).unwrap()
}

fn unlocked_session(inner: &InnerCfg) -> Session {
    let mut session = Session::new(inner);
    session.security_context =
        Some(SecurityContext::new(EntryAes256GcmSecretEncrypter::from_key([1u8; 32])));
    session
}

fn cfg(need_pwd: bool, relock: Option<u32>, close: Option<u32>) -> InnerCfg {
    InnerCfg {
        need_main_pwd_on_run: need_pwd,
        auto_re_lock_idle_sec: relock,
        auto_close_idle_sec: close,
    }
}

/// Retry lockout: exactly three consecutive failures reach Fatal; two
/// failures and a success reach Verified with the counter back at zero.
#[test]
fn retry_lockout() {
    let verifier = verifier_for("right", [11u8; 32]);

    let mut c = AuthController::new();
    assert!(matches!(c.attempt(&verifier, "wrong1").unwrap(), AuthOutcome::Retry(1)));
    assert!(matches!(c.attempt(&verifier, "wrong2").unwrap(), AuthOutcome::Retry(2)));
    assert!(matches!(c.attempt(&verifier, "wrong3").unwrap(), AuthOutcome::Fatal));

    let mut c2 = AuthController::new();
    assert!(matches!(c2.attempt(&verifier, "wrong1").unwrap(), AuthOutcome::Retry(1)));
    assert!(matches!(c2.attempt(&verifier, "wrong2").unwrap(), AuthOutcome::Retry(2)));
    assert!(matches!(c2.attempt(&verifier, "right").unwrap(), AuthOutcome::Verified(_)));
    assert_eq!(c2.failed_count_hint(), 0);
}

/// Idle thresholds at 5 and 10: five silent ticks keep the session
/// unlocked, the sixth re-locks it exactly once, the eleventh closes it.
#[test]
fn idle_thresholds() {
    let mut session = unlocked_session(&cfg(false, Some(5), Some(10)));
    for _ in 0..5 {
        let out = session.tick();
        assert!(!out.relocked && !out.closed);
        assert!(session.is_verified());
    }
    let out6 = session.tick();
    assert!(out6.relocked, "the sixth tick must re-lock");
    assert!(!out6.closed);
    assert!(!session.is_verified());
    assert!(session.running);
    for _ in 6..10 {
        let out = session.tick();
        assert!(!out.relocked, "the re-lock event fires exactly once");
        assert!(!out.closed);
    }
    let out11 = session.tick();
    assert!(out11.closed, "the eleventh tick must close the session");
    assert!(!session.running);
}

/// Any input before the sixth tick resets the count and prevents the
/// re-lock.
#[test]
fn input_resets_idle() {
    let mut session = unlocked_session(&cfg(false, Some(5), Some(10)));
    for _ in 0..5 {
        session.tick();
    }
    session.note_input();
    for _ in 0..5 {
        let out = session.tick();
        assert!(!out.relocked && !out.closed);
    }
    assert!(session.is_verified());
}

/// A threshold of zero means disabled: no amount of silence re-locks or
/// closes.
#[test]
fn zero_threshold_disables_idle_actions() {
    let mut session = unlocked_session(&cfg(false, Some(0), None));
    for _ in 0..1000 {
        let out = session.tick();
        assert!(!out.relocked && !out.closed);
    }
    assert!(session.is_verified() && session.running);
}

/// Navigation gating: while locked, an authentication-demanding intent
/// never resolves and raises a prompt carrying that intent; verification
/// resolves to the original destination; cancellation falls back to the
/// prior screen with the intent discarded.
#[test]
fn navigation_gating() {
    let verifier = verifier_for("sesame", [12u8; 32]);
    let mut session = Session::new(&cfg(false, None, None));
    assert!(matches!(session.screen, Screen::HomePageV1(_)));

    // Locked: the intent must not resolve.
    let out = session.request_navigation(ScreenIntent::ToDetail(7));
    assert!(matches!(out, NavOutcome::PromptRaised));
    assert!(matches!(session.screen, Screen::InputMainPwd(_)));
    assert!(!session.is_verified());
    assert!(session.try_encrypter().is_err());

    // A wrong password keeps the prompt and counts the failure.
    assert!(matches!(
        session.attempt_unlock(&verifier, "open sesame").unwrap(),
        UnlockStep::Retry(1)
    ));
    assert!(matches!(session.screen, Screen::InputMainPwd(_)));

    // The right password installs the context and hands back the intent.
    let step = session.attempt_unlock(&verifier, "sesame").unwrap();
    let intent = match step {
        UnlockStep::Unlocked(i) => i,
        _ => panic!("expected the unlock to succeed"),
    };
    assert!(matches!(intent, ScreenIntent::ToDetail(7)));
    assert!(session.is_verified());

    // Resolving replaces the prompt in place: "back" skips the prompt.
    let shown = InputEntry {
        about: "site".to_owned(),
        notes: String::new(),
        username: "u".to_owned(),
        password: "p".to_owned(),
    };
    session.enter_screen(Screen::Details(shown, 7));
    assert!(matches!(session.screen, Screen::Details(_, 7)));
    session.back_screen();
    assert!(matches!(session.screen, Screen::HomePageV1(_)));
    assert!(session.running);
}

/// Cancelling the prompt returns to the screen that raised it.
#[test]
fn prompt_cancellation() {
    let mut session = Session::new(&cfg(false, None, None));
    session.enter_screen(Screen::Help);
    let out = session.request_navigation(ScreenIntent::ToEditing(None));
    assert!(matches!(out, NavOutcome::PromptRaised));
    session.cancel_prompt();
    assert!(matches!(session.screen, Screen::Help));
    assert!(session.running);
}

/// An intent that needs no authentication resolves even while locked; any
/// intent resolves while verified.
#[test]
fn free_intents_resolve_while_locked() {
    let mut session = Session::new(&cfg(false, None, None));
    assert!(matches!(
        session.request_navigation(ScreenIntent::ToHelp),
        NavOutcome::Resolve(ScreenIntent::ToHelp)
    ));
    let mut unlocked = unlocked_session(&cfg(false, None, None));
    assert!(matches!(
        unlocked.request_navigation(ScreenIntent::ToDetail(3)),
        NavOutcome::Resolve(ScreenIntent::ToDetail(3))
    ));
}

/// A session configured to demand the password at start opens on the
/// prompt, deferring the home listing.
#[test]
fn prompt_on_start() {
    let session = Session::new(&cfg(true, None, None));
    match &session.screen {
        Screen::InputMainPwd(st) => {
            assert!(matches!(st.enter_screen_intent, Some(ScreenIntent::ToHomePageV1)));
        },
        _ => panic!("expected the password prompt at start"),
    }
}

/// Reaching the retry limit at the prompt ends the session.
#[test]
fn prompt_lockout_ends_session() {
    let verifier = verifier_for("pw", [13u8; 32]);
    let mut session = Session::new(&cfg(true, None, None));
    assert!(matches!(session.attempt_unlock(&verifier, "a").unwrap(), UnlockStep::Retry(1)));
    assert!(matches!(session.attempt_unlock(&verifier, "b").unwrap(), UnlockStep::Retry(2)));
    assert!(matches!(session.attempt_unlock(&verifier, "c").unwrap(), UnlockStep::Fatal));
    assert!(!session.running);
}

/// The end-to-end scenario: initialize, store, read, re-lock, refuse while
/// locked, re-authenticate, read the same bytes again.
#[test]
fn end_to_end_scenario() {
    // Initialize a vault with the master password.
    let record = MainPwdEncrypter::new_from_random_salt()
        .unwrap()
        .encrypt("correcthorse".to_owned())
        .unwrap();
    let verifier = MainPwdVerifier::from_b64_s_mph(&record).unwrap();

    // Unlock and insert an entry.
    let mut session = unlocked_session(&cfg(false, None, None));
    session.security_context = None;
    assert!(verifier.verify("correcthorse").unwrap());
    session.security_context = Some(verifier.load_security_context("correcthorse").unwrap());
    let input = InputEntry {
        about: "email".to_owned(),
        notes: String::new(),
        username: "u".to_owned(),
        password: "p".to_owned(),
    };
    let stored = session.try_encrypter().unwrap().encrypt(&input).unwrap();
    let row = EncryptedEntry {
        id: 1,
        about: stored.about.clone(),
        notes: stored.notes.clone(),
        encrypted_username: stored.encrypted_username.clone(),
        encrypted_password: stored.encrypted_password.clone(),
        created_time: 100,
        updated_time: 100,
    };

    // Lock never engaged yet: decrypting immediately returns {u, p}.
    let first = session.try_encrypter().unwrap().decrypt(&row).unwrap();
    assert_eq!(first.username, "u");
    assert_eq!(first.password, "p");

    // Simulate the re-lock: the context is destroyed.
    session.relock();
    assert!(!session.is_verified());
    match session.try_encrypter() {
        Err(e) => assert_eq!(e, AppError::MainPwdNotVerified),
        Ok(_) => panic!("decryption must be refused while locked"),
    }

    // Re-authenticate with the same password and read the same entry.
    assert!(verifier.verify("correcthorse").unwrap());
    session.security_context = Some(verifier.load_security_context("correcthorse").unwrap());
    let second = session.try_encrypter().unwrap().decrypt(&row).unwrap();
    assert_eq!(second.username, first.username);
    assert_eq!(second.password, first.password);
    assert_eq!(second.username.as_bytes(), "u".as_bytes());
    assert_eq!(second.password.as_bytes(), "p".as_bytes());
}

/// Re-locking unwinds the screens to the home listing.
#[test]
fn relock_unwinds_to_home() {
    let mut session = unlocked_session(&cfg(false, None, None));
    session.enter_screen(Screen::Help);
    session.enter_screen(Screen::Edit(EditingState::new_creating()));
    session.relock();
    assert!(matches!(session.screen, Screen::HomePageV1(_)));
    assert!(!session.is_verified());
    assert!(session.running);
}

#[test]
fn note_state_check() {
    assert_eq!(NoteState::check(false, false, 0).unwrap(), NoteState::NoStorage);
    assert_eq!(NoteState::check(true, true, 5).unwrap(), NoteState::Ready);
    assert_eq!(NoteState::check(true, false, 0).unwrap(), NoteState::NoMainPwd);
    assert_eq!(NoteState::check(true, false, 2).unwrap_err(), AppError::DataCorrupted);
}

#[test]
fn run_mode_from_args() {
    let find = CliArgs { data: None, find: Some("mail".to_owned()) };
    assert_eq!(find.run_mode(), RunMode::Cli);
    let plain = CliArgs { data: Some("/tmp/x".to_owned()), find: None };
    assert_eq!(plain.run_mode(), RunMode::Tui);
}

#[test]
fn input_entry_validation() {
    let mut e = InputEntry::default();
    assert!(!e.validate());
    e.about = "a".to_owned();
    e.username = "u".to_owned();
    assert!(!e.validate());
    e.password = "p".to_owned();
    assert!(e.validate());
    e.username = String::new();
    assert!(!e.validate());
}

#[test]
fn editing_cursor_wraps() {
    let mut st = EditingState::new_creating();
    assert_eq!(st.current_editing_type(), Editing::About);
    st.cursor_down();
    assert_eq!(st.current_editing_type(), Editing::Username);
    st.cursor_down();
    st.cursor_down();
    st.cursor_down();
    assert_eq!(st.current_editing_type(), Editing::About);
    st.cursor_up();
    assert_eq!(st.current_editing_type(), Editing::Notes);
    let upd = EditingState::new_updating(42);
    assert_eq!(upd.current_e_id(), Some(42));
}

#[test]
fn entries_sort_newest_first() {
    let mk = |id: u32, created: i64| EncryptedEntry {
        id,
        about: format!("e{}", id),
        notes: None,
        encrypted_username: String::new(),
        encrypted_password: String::new(),
        created_time: created,
        updated_time: created,
    };
    let mut v = vec![mk(1, 5), mk(2, 9), mk(3, 1), mk(4, 9)];
    EncryptedEntry::sort_by_update_time(&mut v);
    assert_eq!(v.len(), 4);
    for w in v.windows(2) {
        assert!(w[0].created_time >= w[1].created_time);
    }
    let ids: Vec<u32> = v.iter().map(|e| e.id).collect();
    let mut sorted_ids = ids.clone();
    sorted_ids.sort();
    assert_eq!(sorted_ids, vec![1, 2, 3, 4]);
}

#[test]
fn help_pages_have_rows() {
    assert_eq!(pnt::help::HelpPage::editing().key_maps.len(), 9);
    assert_eq!(pnt::help::HelpPage::detail().key_maps.len(), 3);
    assert_eq!(pnt::help::HelpPage::home_page().key_maps.len(), 13);
}

/// The transient notice outlives its ticks and then yields to the
/// permanent message.
#[test]
fn hot_msg_countdown() {
    let mut m = pnt::msg::HotMsg::new();
    m.set_always_msg("| pnt".to_owned());
    assert_eq!(m.msg(), "| pnt");
    m.set_temp_msg("notice".to_owned(), 2);
    assert!(m.is_temp());
    assert_eq!(m.msg(), "notice");
    m.tick();
    assert_eq!(m.msg(), "notice");
    m.tick();
    assert!(!m.is_temp());
    assert_eq!(m.msg(), "| pnt");
    m.set_temp_msg("again".to_owned(), 200);
    m.clear_temp_msg();
    assert!(!m.is_temp());
    m.clear();
    assert_eq!(m.msg(), "");
}

/// Cancelling the start-up prompt, which has no screen beneath it, ends
/// the session.
#[test]
fn cancel_startup_prompt_exits() {
    let mut session = Session::new(&cfg(true, None, None));
    session.cancel_prompt();
    assert!(!session.running);
}

#[test]
fn error_messages_are_stable() {
    assert_eq!(AppError::InvalidPassword.message(), "invalid password");
    assert_eq!(AppError::MainPwdNotVerified.message(), "main password is not verified");
    assert!(AppError::DataCorrupted.message().contains("corrupted"));
}
