//! The per-screen key dispatcher: every key press becomes, at most, one
//! action for the session loop to carry out.
//!
//! The dispatcher only reads keys and moves cursors; anything that touches
//! the vault goes out as an `Action`, so the session's authorization step
//! sees every navigation request and the prompt screen can never leak one.

use vstd::prelude::*;

use crate::entry::InputEntry;
use crate::events::{Action, Key};
use crate::intents::ScreenIntent;
use crate::screen::{Editing, Screen, YN};

verus! {

/// What the rendering layer knows and the dispatcher does not: the state of
/// the text fields it owns.
#[derive(Debug, Clone, Copy)]
pub struct KeyHints {
    /// The find field on the home listing holds no text.
    pub find_input_empty: bool,
    /// The cursor in the notes field stands on its first line.
    pub notes_cursor_at_top: bool,
}

impl Screen {
    /// Maps one key press on this screen to at most one action. Only
    /// cursors move here: on the home listing the selection, in the editor
    /// the focused field — entries, find mode and everything else change
    /// only through the returned action. At the password prompt a key can
    /// do nothing but edit the password or submit it, so no navigation and
    /// no data ever comes out of a locked prompt.
    pub fn handle_key_press_event(&mut self, key: Key, hints: &KeyHints) -> (r: Option<Action>)
        requires
            old(self).wf(),
        ensures
            final(self).wf(),
            (*old(self)) is InputMainPwd ==> *final(self) == *old(self) && (r is None || r
                == Some(Action::SubmitMainPwd) || r matches Some(Action::EditInput(_))),
            (*old(self)) is InputMainPwd ==> ((r == Some(Action::SubmitMainPwd)) <==> key is Enter),
            (*old(self)) is Help ==> *final(self) == *old(self) && (r is None || r == Some(
                Action::BackScreen,
            )),
            (*old(self)) is YNOption ==> *final(self) == *old(self) && (r is None || r == Some(
                Action::BackScreen,
            ) || r == Some(Action::Confirm(YN::Yes)) || r == Some(Action::Confirm(YN::No))),
            (*old(self)) is Details ==> *final(self) == *old(self),
            (*old(self)) matches Screen::Details(e, id) ==> ((key matches Key::Char(c) && c
                == 'l') ==> r == Some(Action::Relock)),
            (*old(self)) matches Screen::Details(e, id) ==> ((key matches Key::Char(c) && c
                == 'd') ==> r == Some(Action::ScreenIntent(ScreenIntent::ToDeleteYNOption(id)))),
            (*old(self)) matches Screen::Edit(st) ==> ((*final(self)) matches Screen::Edit(st2)
                && st2.e_id_view() == st.e_id_view()),
            (*old(self)) matches Screen::HomePageV1(hs) ==> ((*final(self)) matches Screen::HomePageV1(hs2) && hs2.entries_view() == hs.entries_view() && hs2.find_mode_view()
                == hs.find_mode_view()),
            (*old(self)) matches Screen::HomePageV1(hs) ==> (!hs.find_mode_view() ==> ((
            key matches Key::Char(c) && c == 'l') ==> r == Some(Action::Relock))),
    {
        match self {
            Screen::Help => {
                match key {
                    Key::Char(c) => if c == 'q' {
                        Some(Action::BackScreen)
                    } else {
                        None
                    },
                    _ => None,
                }
            },
            Screen::HomePageV1(state) => {
                if matches!(key, Key::F1) {
                    return Some(Action::ScreenIntent(ScreenIntent::ToHelp));
                }
                if !state.find_mode() {
                    let selected = state.selected_id();
                    match key {
                        Key::Char(c) => {
                            if c == 'f' {
                                Some(Action::TurnOnFindMode)
                            } else if c == 'l' {
                                Some(Action::Relock)
                            } else if c == 'q' {
                                Some(Action::BackScreen)
                            } else if c == 'a' {
                                Some(Action::ScreenIntent(ScreenIntent::ToEditing(None)))
                            } else if let Some(e_id) = selected {
                                if c == 'o' {
                                    Some(Action::ScreenIntent(ScreenIntent::ToDetail(e_id)))
                                } else if c == 'e' {
                                    Some(
                                        Action::ScreenIntent(ScreenIntent::ToEditing(Some(e_id))),
                                    )
                                } else if c == 'd' {
                                    Some(
                                        Action::ScreenIntent(
                                            ScreenIntent::ToDeleteYNOption(e_id),
                                        ),
                                    )
                                } else if c == 'k' {
                                    state.cursor_up();
                                    None
                                } else if c == 'j' {
                                    state.cursor_down();
                                    None
                                } else if c == 'g' {
                                    state.select_first();
                                    None
                                } else if c == 'G' {
                                    state.select_last();
                                    None
                                } else {
                                    None
                                }
                            } else {
                                None
                            }
                        },
                        Key::Enter => {
                            match selected {
                                Some(e_id) => Some(
                                    Action::ScreenIntent(ScreenIntent::ToDetail(e_id)),
                                ),
                                None => None,
                            }
                        },
                        Key::Up => {
                            state.cursor_up();
                            None
                        },
                        Key::Down => {
                            state.cursor_down();
                            None
                        },
                        Key::Home => {
                            state.select_first();
                            None
                        },
                        Key::End => {
                            state.select_last();
                            None
                        },
                        _ => None,
                    }
                } else {
                    match key {
                        Key::Enter => Some(Action::TurnOffFindMode),
                        _ => Some(Action::EditInput(key)),
                    }
                }
            },
            Screen::Details(_, e_id) => {
                match key {
                    Key::F1 => Some(Action::ScreenIntent(ScreenIntent::ToHelp)),
                    Key::Char(c) => {
                        if c == 'q' {
                            Some(Action::BackScreen)
                        } else if c == 'd' {
                            Some(Action::ScreenIntent(ScreenIntent::ToDeleteYNOption(*e_id)))
                        } else if c == 'l' {
                            Some(Action::Relock)
                        } else if c == 'e' {
                            let back_and_enter_editing = Action::Actions(
                                vec![
                                    Action::BackScreen,
                                    Action::ScreenIntent(ScreenIntent::ToEditing(Some(*e_id))),
                                ],
                            );
                            Some(back_and_enter_editing)
                        } else {
                            None
                        }
                    },
                    _ => None,
                }
            },
            Screen::YNOption(_) => {
                match key {
                    Key::Char(c) => {
                        if c == 'q' {
                            Some(Action::BackScreen)
                        } else if c == 'y' || c == 'Y' {
                            Some(Action::Confirm(YN::Yes))
                        } else if c == 'n' || c == 'N' {
                            Some(Action::Confirm(YN::No))
                        } else {
                            None
                        }
                    },
                    Key::Enter => Some(Action::Confirm(YN::Yes)),
                    _ => None,
                }
            },
            Screen::Edit(state) => {
                if matches!(key, Key::F1) {
                    return Some(Action::ScreenIntent(ScreenIntent::ToHelp));
                }
                let on_notes = matches!(state.current_editing_type(), Editing::Notes);
                if !on_notes {
                    match key {
                        Key::Up => {
                            state.cursor_up();
                            return None;
                        },
                        Key::Down | Key::Enter => {
                            state.cursor_down();
                            return None;
                        },
                        _ => {},
                    }
                } else if matches!(key, Key::Up) && hints.notes_cursor_at_top {
                    state.cursor_up();
                    return None;
                }
                match key {
                    Key::Tab => {
                        state.cursor_down();
                        None
                    },
                    Key::Ctrl(c) => if c == 's' {
                        Some(Action::SubmitEdit)
                    } else {
                        None
                    },
                    _ => Some(Action::EditInput(key)),
                }
            },
            Screen::InputMainPwd(_) => {
                match key {
                    Key::Enter => Some(Action::SubmitMainPwd),
                    Key::Backspace => Some(Action::EditInput(key)),
                    Key::Char(_) => Some(Action::EditInput(key)),
                    _ => None,
                }
            },
        }
    }
}

/// The save decision on Ctrl+S in the editor: valid input goes on to the
/// save confirmation carrying exactly that input; invalid input only earns
/// a notice, and nothing is stored or navigated to.
pub fn decide_save(input: InputEntry, e_id: Option<u32>) -> (r: Action)
    ensures
        (input.about@.len() > 0 && input.username@.len() > 0 && input.password@.len() > 0) ==> r
            == Action::ScreenIntent(ScreenIntent::ToSaveYNOption(input, e_id)),
        !(input.about@.len() > 0 && input.username@.len() > 0 && input.password@.len() > 0)
            ==> r matches Action::SetTuiHotMsg(_),
{
    if input.validate() {
        Action::ScreenIntent(ScreenIntent::ToSaveYNOption(input, e_id))
    } else {
        Action::SetTuiHotMsg(" Some field is required")
    }
}

} // verus!
