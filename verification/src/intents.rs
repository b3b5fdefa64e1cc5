//! Navigation intents: where the user wants to go next, as plain data.
//!
//! An intent carries only ids and pending input, never a decrypted entry or
//! a built screen: a screen that needs decrypted data is constructed only
//! once authorization has let the intent through, so nothing secret exists
//! for a destination the user may never reach.

use vstd::prelude::*;

use crate::entry::InputEntry;

verus! {

/// A requested destination. Each variant knows statically whether it may be
/// entered without a verified master password.
#[derive(Debug)]
pub enum ScreenIntent {
    /// The key-map help screen.
    ToHelp,
    /// The home listing.
    ToHomePageV1,
    /// View one entry, decrypted.
    ToDetail(u32),
    /// Edit an entry (`Some`) or create a new one (`None`).
    ToEditing(Option<u32>),
    /// Confirm deletion of an entry.
    ToDeleteYNOption(u32),
    /// Confirm saving pending input, updating the given id if present.
    ToSaveYNOption(InputEntry, Option<u32>),
}

impl ScreenIntent {
    /// Destinations that show or change vault contents demand a live
    /// `SecurityContext`; only the help screen and the home listing (which
    /// shows metadata alone) do not.
    pub open spec fn requires_auth(&self) -> bool {
        !(self is ToHelp || self is ToHomePageV1)
    }

    /// Whether the master password must be verified before this destination
    /// may be entered.
    pub fn is_before_enter_need_main_pwd(&self) -> (r: bool)
        ensures
            r == self.requires_auth(),
    {
        match self {
            ScreenIntent::ToHelp | ScreenIntent::ToHomePageV1 => false,
            _ => true,
        }
    }
}

} // verus!
