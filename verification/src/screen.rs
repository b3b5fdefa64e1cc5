//! Screens of the interactive session, as plain state.
//!
//! Rendering and text input live at the application edge; what stands here
//! is everything the security core decides over: which screen is current,
//! what a confirmation will do, which field an editor points at, and the
//! deferred intent a password prompt is holding.

use vstd::prelude::*;

use crate::auth::AuthController;
use crate::entry::InputEntry;
use crate::intents::ScreenIntent;

verus! {

/// A yes/no answer.
#[derive(Debug, Clone, Copy)]
pub enum YN {
    Yes,
    No,
}

/// What a confirmation dialog will do on "yes": a tagged command in place
/// of an opaque callback, so the pending action stays plain data.
#[derive(Debug)]
pub enum ConfirmCmd {
    /// Delete the entry with this id.
    Delete(u32),
    /// Encrypt and store this input, updating the given id if present.
    Save(InputEntry, Option<u32>),
}

/// Which field of an entry the editor points at.
#[derive(Debug, PartialEq, Eq, Structural, Clone, Copy)]
pub enum Editing {
    About,
    Username,
    Password,
    Notes,
}

/// Editor state: the field the cursor is on and the id being updated, if
/// any. The text being typed lives with the rendering layer.
#[derive(Debug, Clone, Copy)]
pub struct EditingState {
    editing: Editing,
    e_id: Option<u32>,
}

impl EditingState {
    /// The field the cursor is on.
    pub closed spec fn editing_view(&self) -> Editing {
        self.editing
    }

    /// The id being updated; `None` while creating.
    pub closed spec fn e_id_view(&self) -> Option<u32> {
        self.e_id
    }

    /// Starts editing a fresh entry, cursor on the first field.
    pub fn new_creating() -> (r: Self)
        ensures
            r.editing_view() == Editing::About,
            r.e_id_view() is None,
    {
        EditingState { editing: Editing::About, e_id: None }
    }

    /// Starts editing the stored entry with this id, cursor on the first
    /// field.
    pub fn new_updating(e_id: u32) -> (r: Self)
        ensures
            r.editing_view() == Editing::About,
            r.e_id_view() == Some(e_id),
    {
        EditingState { editing: Editing::About, e_id: Some(e_id) }
    }

    /// The field the cursor is on.
    pub fn current_editing_type(&self) -> (r: Editing)
        ensures
            r == self.editing_view(),
    {
        self.editing
    }

    /// The id being updated; `None` while creating.
    pub fn current_e_id(&self) -> (r: Option<u32>)
        ensures
            r == self.e_id_view(),
    {
        self.e_id
    }

    /// Moves the cursor up one field, wrapping from the first to the last.
    pub fn cursor_up(&mut self)
        ensures
            final(self).e_id_view() == old(self).e_id_view(),
            final(self).editing_view() == (match old(self).editing_view() {
                Editing::About => Editing::Notes,
                Editing::Username => Editing::About,
                Editing::Password => Editing::Username,
                Editing::Notes => Editing::Password,
            }),
    {
        self.editing = match self.editing {
            Editing::About => Editing::Notes,
            Editing::Username => Editing::About,
            Editing::Password => Editing::Username,
            Editing::Notes => Editing::Password,
        };
    }

    /// Moves the cursor down one field, wrapping from the last to the first.
    pub fn cursor_down(&mut self)
        ensures
            final(self).e_id_view() == old(self).e_id_view(),
            final(self).editing_view() == (match old(self).editing_view() {
                Editing::About => Editing::Username,
                Editing::Username => Editing::Password,
                Editing::Password => Editing::Notes,
                Editing::Notes => Editing::About,
            }),
    {
        self.editing = match self.editing {
            Editing::About => Editing::Username,
            Editing::Username => Editing::Password,
            Editing::Password => Editing::Notes,
            Editing::Notes => Editing::About,
        };
    }
}

/// The home listing's state: the stored entries on display (metadata and
/// ciphertext only — nothing decrypted), the cursor, and whether find mode
/// is on. The find text itself lives with the rendering layer.
#[derive(Debug)]
pub struct HomePageState {
    find_mode: bool,
    entries: Vec<crate::entry::EncryptedEntry>,
    cursor: Option<usize>,
}

impl HomePageState {
    /// Whether keys currently feed the find field.
    pub closed spec fn find_mode_view(&self) -> bool {
        self.find_mode
    }

    /// The entries on display, in display order.
    pub closed spec fn entries_view(&self) -> Seq<crate::entry::EncryptedEntry> {
        self.entries@
    }

    /// The cursor position, if any entry is selected.
    pub closed spec fn cursor_view(&self) -> Option<usize> {
        self.cursor
    }

    /// The cursor points inside the listing, and at something whenever the
    /// listing is not empty.
    pub open spec fn wf(&self) -> bool {
        &&& (self.cursor_view() matches Some(i) ==> i < self.entries_view().len())
        &&& (self.entries_view().len() > 0 <==> self.cursor_view() is Some)
    }

    /// Builds the listing: entries sorted newest first, the cursor on the
    /// first row when there is one, find mode off.
    pub fn new(entries: Vec<crate::entry::EncryptedEntry>) -> (r: Self)
        ensures
            r.wf(),
            !r.find_mode_view(),
            crate::entry::sorted_newest_first(r.entries_view()),
            r.entries_view().to_multiset() == entries@.to_multiset(),
            r.entries_view().len() > 0 ==> r.cursor_view() == Some(0usize),
    {
        let mut entries = entries;
        crate::entry::EncryptedEntry::sort_by_update_time(&mut entries);
        let cursor: Option<usize> = if entries.len() == 0 {
            None
        } else {
            Some(0)
        };
        proof {
            entries@.to_multiset_ensures();
        }
        HomePageState { find_mode: false, entries, cursor }
    }

    /// Turns find mode on or off.
    pub fn set_find_mode(&mut self, mode: bool)
        ensures
            final(self).find_mode_view() == mode,
            final(self).entries_view() == old(self).entries_view(),
            final(self).cursor_view() == old(self).cursor_view(),
    {
        self.find_mode = mode;
    }

    /// Whether keys currently feed the find field.
    pub fn find_mode(&self) -> (r: bool)
        ensures
            r == self.find_mode_view(),
    {
        self.find_mode
    }

    /// The row the cursor is on.
    pub fn cursor_selected(&self) -> (r: Option<usize>)
        ensures
            r == self.cursor_view(),
    {
        self.cursor
    }

    /// How many entries are on display.
    pub fn entry_count(&self) -> (r: usize)
        ensures
            r == self.entries_view().len(),
    {
        self.entries.len()
    }

    /// The entries on display.
    pub fn entries(&self) -> (r: &Vec<crate::entry::EncryptedEntry>)
        ensures
            r@ == self.entries_view(),
    {
        &self.entries
    }

    /// The id of the entry under the cursor, if any.
    pub fn selected_id(&self) -> (r: Option<u32>)
        requires
            self.wf(),
        ensures
            self.cursor_view() matches Some(i) ==> r == Some(self.entries_view()[i as int].id),
            self.cursor_view() is None ==> r is None,
    {
        match self.cursor {
            Some(i) => Some(self.entries[i].id),
            None => None,
        }
    }

    /// Moves the cursor up one row, wrapping from the first to the last;
    /// does nothing when nothing is selected.
    pub fn cursor_up(&mut self)
        requires
            old(self).wf(),
        ensures
            final(self).wf(),
            final(self).entries_view() == old(self).entries_view(),
            final(self).find_mode_view() == old(self).find_mode_view(),
            old(self).cursor_view() matches Some(i) ==> final(self).cursor_view() == Some(
                if i == 0 {
                    (old(self).entries_view().len() - 1) as usize
                } else {
                    (i - 1) as usize
                },
            ),
            old(self).cursor_view() is None ==> final(self).cursor_view() is None,
    {
        if let Some(p) = self.cursor {
            if p == 0 {
                self.cursor = Some(self.entries.len() - 1);
            } else {
                self.cursor = Some(p - 1);
            }
        }
    }

    /// Moves the cursor down one row, wrapping from the last to the first;
    /// does nothing when nothing is selected.
    pub fn cursor_down(&mut self)
        requires
            old(self).wf(),
        ensures
            final(self).wf(),
            final(self).entries_view() == old(self).entries_view(),
            final(self).find_mode_view() == old(self).find_mode_view(),
            old(self).cursor_view() matches Some(i) ==> final(self).cursor_view() == Some(
                if i + 1 >= old(self).entries_view().len() {
                    0usize
                } else {
                    (i + 1) as usize
                },
            ),
            old(self).cursor_view() is None ==> final(self).cursor_view() is None,
    {
        if let Some(p) = self.cursor {
            if p >= self.entries.len() - 1 {
                self.cursor = Some(0);
            } else {
                self.cursor = Some(p + 1);
            }
        }
    }

    /// Moves the cursor to the first row, when there is one.
    pub fn select_first(&mut self)
        requires
            old(self).wf(),
        ensures
            final(self).wf(),
            final(self).entries_view() == old(self).entries_view(),
            final(self).find_mode_view() == old(self).find_mode_view(),
            old(self).entries_view().len() > 0 ==> final(self).cursor_view() == Some(0usize),
    {
        if self.entries.len() > 0 {
            self.cursor = Some(0);
        }
    }

    /// Moves the cursor to the last row, when there is one.
    pub fn select_last(&mut self)
        requires
            old(self).wf(),
        ensures
            final(self).wf(),
            final(self).entries_view() == old(self).entries_view(),
            final(self).find_mode_view() == old(self).find_mode_view(),
            old(self).entries_view().len() > 0 ==> final(self).cursor_view() == Some(
                (old(self).entries_view().len() - 1) as usize,
            ),
    {
        if self.entries.len() > 0 {
            self.cursor = Some(self.entries.len() - 1);
        }
    }

    /// Replaces the listing after a refresh: the new entries are sorted
    /// newest first, and the cursor is kept where possible, clamped into
    /// the new listing, or placed on the first row.
    pub fn reset_entries(&mut self, entries: Vec<crate::entry::EncryptedEntry>)
        ensures
            final(self).wf(),
            crate::entry::sorted_newest_first(final(self).entries_view()),
            final(self).entries_view().to_multiset() == entries@.to_multiset(),
            final(self).find_mode_view() == old(self).find_mode_view(),
    {
        let mut entries = entries;
        crate::entry::EncryptedEntry::sort_by_update_time(&mut entries);
        proof {
            entries@.to_multiset_ensures();
        }
        if entries.len() == 0 {
            self.cursor = None;
        } else {
            match self.cursor {
                Some(p) => {
                    if p >= entries.len() {
                        self.cursor = Some(entries.len() - 1);
                    }
                },
                None => {
                    self.cursor = Some(0);
                },
            }
        }
        self.entries = entries;
    }
}

/// The password prompt's state: the deferred intent it was raised for, and
/// the retry-counting controller. The prompt never holds a built screen:
/// the destination is constructed only after verification succeeds.
#[derive(Debug)]
pub struct VerifyMPHState {
    /// The destination to resolve once verification succeeds. Taken on
    /// success; discarded on cancellation.
    pub enter_screen_intent: Option<ScreenIntent>,
    /// Counts the consecutive failures at this prompt.
    pub controller: AuthController,
}

impl VerifyMPHState {
    /// A prompt holds an intent to resolve and a counter below the limit.
    pub open spec fn wf(&self) -> bool {
        &&& self.enter_screen_intent is Some
        &&& self.controller.wf()
        &&& !self.controller.is_fatal()
    }

    /// Raises a prompt for a deferred intent, with a fresh retry counter.
    pub fn new(enter_screen_intent: ScreenIntent) -> (r: Self)
        ensures
            r.enter_screen_intent == Some(enter_screen_intent),
            r.controller.failed_count() == 0,
            r.wf(),
    {
        VerifyMPHState {
            enter_screen_intent: Some(enter_screen_intent),
            controller: AuthController::new(),
        }
    }
}

/// The current screen. Variants that display decrypted data carry it as the
/// plain entry the rendering layer shows; the password prompt carries only
/// the deferred intent.
#[derive(Debug)]
pub enum Screen {
    /// The home listing; shows metadata only.
    HomePageV1(HomePageState),
    /// The key-map help screen.
    Help,
    /// One entry, decrypted for display, with its id.
    Details(InputEntry, u32),
    /// The entry editor.
    Edit(EditingState),
    /// A yes/no confirmation and what "yes" will do.
    YNOption(ConfirmCmd),
    /// The master-password prompt, holding the deferred intent.
    InputMainPwd(VerifyMPHState),
}

impl Screen {
    /// What every screen keeps in shape: a home listing's cursor points
    /// into its entries, and a prompt still has its intent and retries
    /// left.
    pub open spec fn wf(&self) -> bool {
        &&& (self matches Screen::HomePageV1(hs) ==> hs.wf())
        &&& (self matches Screen::InputMainPwd(st) ==> st.wf())
    }

    /// Whether this is the top-level home screen.
    pub open spec fn spec_is_home_page(&self) -> bool {
        self is HomePageV1
    }

    /// Whether this is the top-level home screen.
    pub fn is_home_page(&self) -> (r: bool)
        ensures
            r == self.spec_is_home_page(),
    {
        matches!(self, Screen::HomePageV1(_))
    }
}

} // verus!
