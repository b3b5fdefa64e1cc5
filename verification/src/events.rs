//! Key events as plain values, and the actions a screen can ask for.
//!
//! The terminal backend's own event type stays at the application edge;
//! what reaches the dispatcher is this model, so every decision taken over
//! a key press is made — and checked — here.

use vstd::prelude::*;

use crate::intents::ScreenIntent;
use crate::screen::YN;

verus! {

/// One key press, as the dispatcher sees it.
#[derive(Debug, Clone, Copy)]
pub enum Key {
    /// A printable (or at least plain) character, without modifiers.
    Char(char),
    /// A character pressed together with control.
    Ctrl(char),
    F1,
    Tab,
    Backspace,
    Up,
    Down,
    Left,
    Right,
    Enter,
    Esc,
    Home,
    End,
}

/// What the dispatcher asks the session loop to do. Text editing itself
/// stays with the rendering layer: `EditInput` hands a key to whichever
/// input field is focused.
#[derive(Debug)]
pub enum Action {
    /// Several actions, in order.
    Actions(Vec<Action>),
    /// Ask to navigate; the session's authorization step decides.
    ScreenIntent(ScreenIntent),
    /// Go back one screen.
    BackScreen,
    /// Discard the security context and return to the home listing.
    Relock,
    /// End the session.
    Quit,
    /// Enter find mode on the home listing.
    TurnOnFindMode,
    /// Leave find mode and refresh the listing from the find text.
    TurnOffFindMode,
    /// Refresh the home listing from the store, filtered when `Some`.
    FlashVecItems(Option<String>),
    /// Submit the password typed at the prompt.
    SubmitMainPwd,
    /// Submit the editor's current input for validation and saving.
    SubmitEdit,
    /// The confirmation dialog was answered.
    Confirm(YN),
    /// Hand the key to the focused text input.
    EditInput(Key),
    /// Show a transient notice.
    SetTuiHotMsg(&'static str),
}

} // verus!
