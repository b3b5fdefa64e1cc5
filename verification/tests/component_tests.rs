//! The key dispatcher, the confirmation commands, the password setup, and
//! re-encryption on a master-password change.

use pnt::cipher::{reencrypt_entry, EntryAes256GcmSecretEncrypter};
use pnt::component::{decide_save, KeyHints};
use pnt::entry::{EncryptedEntry, InputEntry};
use pnt::events::{Action, Key};
use pnt::intents::ScreenIntent;
use pnt::screen::{ConfirmCmd, HomePageState, Screen, VerifyMPHState, YN};
use pnt::session::Session;
use pnt::setup::{main_pwd_long_enough, setup_step, SetupNotice, SetupState};

fn hints() -> KeyHints {
    KeyHints { find_input_empty: true, notes_cursor_at_top: false }
}

fn row(id: u32, created: i64) -> EncryptedEntry {
    EncryptedEntry {
        id,
        about: format!("row{}", id),
        notes: None,
        encrypted_username: String::new(),
        encrypted_password: String::new(),
        created_time: created,
        updated_time: created,
    }
}

/// At the password prompt, keys can only edit the password or submit it;
/// no key resolves a destination or reaches the vault.
#[test]
fn prompt_keys_cannot_navigate() {
    let mut screen = Screen::InputMainPwd(VerifyMPHState::new(ScreenIntent::ToDetail(4)));
    let keys = [
        Key::Char('o'),
        Key::Char('d'),
        Key::Char('l'),
        Key::Char('q'),
        Key::F1,
        Key::Tab,
        Key::Up,
        Key::Down,
        Key::Backspace,
        Key::Enter,
    ];
    for key in keys {
        match screen.handle_key_press_event(key, &hints()) {
            None => {},
            Some(Action::SubmitMainPwd) => assert!(matches!(key, Key::Enter)),
            Some(Action::EditInput(_)) => {},
            Some(_) => panic!("the prompt must not produce any other action"),
        }
    }
}

/// The home listing maps its keys to the documented intents and moves only
/// the cursor.
#[test]
fn home_key_map() {
    let state = HomePageState::new(vec![row(1, 3), row(2, 9), row(3, 6)]);
    // Sorted newest first: ids 2, 3, 1; cursor starts on the first row.
    assert_eq!(state.selected_id(), Some(2));
    let mut screen = Screen::HomePageV1(state);

    match screen.handle_key_press_event(Key::Char('o'), &hints()) {
        Some(Action::ScreenIntent(ScreenIntent::ToDetail(2))) => {},
        _ => panic!("open must ask for the selected entry's detail"),
    }
    match screen.handle_key_press_event(Key::Char('e'), &hints()) {
        Some(Action::ScreenIntent(ScreenIntent::ToEditing(Some(2)))) => {},
        _ => panic!("edit must ask for the selected entry's editor"),
    }
    match screen.handle_key_press_event(Key::Char('d'), &hints()) {
        Some(Action::ScreenIntent(ScreenIntent::ToDeleteYNOption(2))) => {},
        _ => panic!("delete must ask for the delete confirmation"),
    }
    assert!(matches!(
        screen.handle_key_press_event(Key::Char('l'), &hints()),
        Some(Action::Relock)
    ));
    assert!(matches!(
        screen.handle_key_press_event(Key::Char('a'), &hints()),
        Some(Action::ScreenIntent(ScreenIntent::ToEditing(None)))
    ));
    assert!(matches!(
        screen.handle_key_press_event(Key::Char('f'), &hints()),
        Some(Action::TurnOnFindMode)
    ));

    // Cursor movement wraps and emits no action.
    assert!(screen.handle_key_press_event(Key::Down, &hints()).is_none());
    match &screen {
        Screen::HomePageV1(s) => assert_eq!(s.selected_id(), Some(3)),
        _ => unreachable!(),
    }
    assert!(screen.handle_key_press_event(Key::Up, &hints()).is_none());
    assert!(screen.handle_key_press_event(Key::Up, &hints()).is_none());
    match &screen {
        Screen::HomePageV1(s) => assert_eq!(s.selected_id(), Some(1)),
        _ => unreachable!(),
    }
}

/// In find mode, Enter leaves find mode and anything else feeds the find
/// field.
#[test]
fn home_find_mode_keys() {
    let mut state = HomePageState::new(vec![row(1, 1)]);
    state.set_find_mode(true);
    let mut screen = Screen::HomePageV1(state);
    assert!(matches!(
        screen.handle_key_press_event(Key::Enter, &hints()),
        Some(Action::TurnOffFindMode)
    ));
    assert!(matches!(
        screen.handle_key_press_event(Key::Char('x'), &hints()),
        Some(Action::EditInput(Key::Char('x')))
    ));
}

/// Ctrl+C asks to quit from any screen, and a key press resets the idle
/// count.
#[test]
fn ctrl_c_always_quits() {
    let inner = pnt::cfg::InnerCfg {
        need_main_pwd_on_run: true,
        auto_re_lock_idle_sec: Some(5),
        auto_close_idle_sec: None,
    };
    let mut session = Session::new(&inner);
    session.tick();
    assert!(matches!(
        session.handle_key_press_event(Key::Ctrl('c'), &hints()),
        Some(Action::Quit)
    ));
}

/// Esc at the prompt cancels it and returns to the raising screen.
#[test]
fn esc_cancels_prompt() {
    let inner = pnt::cfg::InnerCfg {
        need_main_pwd_on_run: false,
        auto_re_lock_idle_sec: None,
        auto_close_idle_sec: None,
    };
    let mut session = Session::new(&inner);
    session.request_navigation(ScreenIntent::ToDetail(1));
    assert!(matches!(session.screen, Screen::InputMainPwd(_)));
    assert!(session.handle_key_press_event(Key::Esc, &hints()).is_none());
    assert!(matches!(session.screen, Screen::HomePageV1(_)));
}

/// Answering a confirmation hands back its command and unwinds to home.
#[test]
fn confirm_dispatch() {
    let inner = pnt::cfg::InnerCfg {
        need_main_pwd_on_run: false,
        auto_re_lock_idle_sec: None,
        auto_close_idle_sec: None,
    };
    let mut session = Session::new(&inner);
    session.enter_screen(Screen::YNOption(ConfirmCmd::Delete(9)));
    match session.screen.handle_key_press_event(Key::Char('y'), &hints()) {
        Some(Action::Confirm(YN::Yes)) => {},
        _ => panic!("y must answer yes"),
    }
    match session.screen.handle_key_press_event(Key::Char('n'), &hints()) {
        Some(Action::Confirm(YN::No)) => {},
        _ => panic!("n must answer no"),
    }
    match session.take_confirm() {
        ConfirmCmd::Delete(9) => {},
        _ => panic!("the pending command must come back unchanged"),
    }
    assert!(matches!(session.screen, Screen::HomePageV1(_)));
}

/// Ctrl+S saves only valid input; invalid input earns a notice and never a
/// navigation.
#[test]
fn save_decision() {
    let valid = InputEntry {
        about: "a".to_owned(),
        notes: String::new(),
        username: "u".to_owned(),
        password: "p".to_owned(),
    };
    match decide_save(valid, Some(3)) {
        Action::ScreenIntent(ScreenIntent::ToSaveYNOption(ie, Some(3))) => {
            assert_eq!(ie.username, "u");
        },
        _ => panic!("valid input must go to the save confirmation"),
    }
    let invalid = InputEntry::default();
    assert!(matches!(decide_save(invalid, None), Action::SetTuiHotMsg(_)));
}

/// The two-entry setup: short entries are rejected in place, a mismatch
/// starts over, and only a twice-typed password is accepted.
#[test]
fn master_password_setup_steps() {
    assert!(!main_pwd_long_enough("abc12"));
    assert!(main_pwd_long_enough("abc123"));
    // Control characters do not count toward the minimum.
    assert!(!main_pwd_long_enough("ab\n\n\n\ncd"));

    let (st, notice) = setup_step(SetupState::AskFirst, "short".to_owned());
    assert!(matches!(st, SetupState::AskFirst));
    assert_eq!(notice, Some(SetupNotice::PasswordTooShort));

    let (st, notice) = setup_step(SetupState::AskFirst, "longenough".to_owned());
    assert!(matches!(&st, SetupState::AskRepeat(p) if p == "longenough"));
    assert_eq!(notice, None);

    let (st2, notice) = setup_step(st, "different1".to_owned());
    assert!(matches!(st2, SetupState::AskFirst));
    assert_eq!(notice, Some(SetupNotice::PasswordsDoNotMatch));

    let (st3, _) = setup_step(st2, "longenough".to_owned());
    let (st4, notice) = setup_step(st3, "longenough".to_owned());
    assert!(matches!(&st4, SetupState::Accepted(p) if p == "longenough"));
    assert_eq!(notice, None);
}

/// Changing the master password re-encrypts an entry: the new blobs open
/// under the new key to the same secrets, and the old key no longer
/// authenticates them.
#[test]
fn reencrypt_on_master_change() {
    let old_enc = EntryAes256GcmSecretEncrypter::from_key([21u8; 32]);
    let new_enc = EntryAes256GcmSecretEncrypter::from_key([22u8; 32]);
    let input = InputEntry {
        about: "card".to_owned(),
        notes: "blue one".to_owned(),
        username: "holder".to_owned(),
        password: "1234".to_owned(),
    };
    let stored = old_enc.encrypt(&input).unwrap();
    let row = EncryptedEntry {
        id: 5,
        about: stored.about.clone(),
        notes: stored.notes.clone(),
        encrypted_username: stored.encrypted_username.clone(),
        encrypted_password: stored.encrypted_password.clone(),
        created_time: 1,
        updated_time: 1,
    };
    let renewed = reencrypt_entry(&old_enc, &new_enc, &row).unwrap();
    assert_eq!(renewed.about, "card");
    assert_eq!(renewed.notes.as_deref(), Some("blue one"));
    let renewed_row = EncryptedEntry {
        id: 5,
        about: renewed.about.clone(),
        notes: renewed.notes.clone(),
        encrypted_username: renewed.encrypted_username.clone(),
        encrypted_password: renewed.encrypted_password.clone(),
        created_time: 1,
        updated_time: 2,
    };
    let back = new_enc.decrypt(&renewed_row).unwrap();
    assert_eq!(back.username, "holder");
    assert_eq!(back.password, "1234");
    assert!(old_enc.decrypt(&renewed_row).is_err());
}

/// A refresh keeps the listing sorted and the cursor inside it.
#[test]
fn home_listing_refresh() {
    let mut state = HomePageState::new(vec![row(1, 1), row(2, 2), row(3, 3)]);
    state.cursor_down();
    state.cursor_down();
    assert_eq!(state.cursor_selected(), Some(2));
    state.reset_entries(vec![row(9, 9)]);
    assert_eq!(state.cursor_selected(), Some(0));
    assert_eq!(state.selected_id(), Some(9));
    state.reset_entries(Vec::new());
    assert_eq!(state.cursor_selected(), None);
    assert_eq!(state.selected_id(), None);
    state.reset_entries(vec![row(4, 4), row(5, 5)]);
    assert_eq!(state.selected_id(), Some(5));
}
