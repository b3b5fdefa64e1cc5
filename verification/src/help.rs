//! The key maps shown on the help screen, as plain data; the rendering
//! layer only lays them out.

use vstd::prelude::*;

verus! {

/// One help row: a key (or key combination) and what it does.
pub struct KeyMapInfo<'a> {
    pub key_map: &'a str,
    pub note: &'a str,
}

/// A help page: the key maps of one screen.
pub struct HelpPage<'a, const N: usize> {
    pub key_maps: [KeyMapInfo<'a>; N],
}

impl HelpPage<'static, 9> {
    /// The key maps of the entry editor.
    pub fn editing() -> (r: Self)
        ensures
            r.key_maps@.len() == 9,
    {
        HelpPage {
            key_maps: [
                KeyMapInfo { key_map: "<DOWN>", note: "select next input-area | cursor move down" },
                KeyMapInfo { key_map: "<UP>", note: "select prev input-area | cursor move up" },
                KeyMapInfo { key_map: "<LEFT>", note: "cursor move left" },
                KeyMapInfo { key_map: "<RIGHT>", note: "cursor move right" },
                KeyMapInfo { key_map: "<ESC>", note: "quit edit" },
                KeyMapInfo { key_map: "<CTRL+C>", note: "quit app" },
                KeyMapInfo { key_map: "<ENTER>", note: "select next input-area | new line" },
                KeyMapInfo { key_map: "<TAB>", note: "select next input-area" },
                KeyMapInfo { key_map: "<CTRL+S>", note: "save" },
            ],
        }
    }
}

impl HelpPage<'static, 3> {
    /// The key maps of the detail view.
    pub fn detail() -> (r: Self)
        ensures
            r.key_maps@.len() == 3,
    {
        HelpPage {
            key_maps: [
                KeyMapInfo { key_map: "<ESC>|<Q>", note: "quit-detail" },
                KeyMapInfo { key_map: "<D>", note: "delete" },
                KeyMapInfo { key_map: "<L>", note: "quit-detail and re-lock" },
            ],
        }
    }
}

impl HelpPage<'static, 13> {
    /// The key maps of the home listing.
    pub fn home_page() -> (r: Self)
        ensures
            r.key_maps@.len() == 13,
    {
        HelpPage {
            key_maps: [
                KeyMapInfo { key_map: "<F>", note: "find" },
                KeyMapInfo { key_map: "<DOWN>|<J>", note: "down" },
                KeyMapInfo { key_map: "<UP>|<K>", note: "up" },
                KeyMapInfo { key_map: "<g>", note: "first" },
                KeyMapInfo { key_map: "<G>", note: "last" },
                KeyMapInfo { key_map: "<CTRL+C>|<Q>", note: "quit app" },
                KeyMapInfo { key_map: "<ESC>", note: "quit app | [find] find | quit find" },
                KeyMapInfo { key_map: "<ENTER>", note: "detail current | [find] find" },
                KeyMapInfo { key_map: "<O>", note: "detail current" },
                KeyMapInfo { key_map: "<I>", note: "create new" },
                KeyMapInfo { key_map: "<E>", note: "edit current" },
                KeyMapInfo { key_map: "<D>", note: "delete current" },
                KeyMapInfo { key_map: "<L>", note: "re-lock" },
            ],
        }
    }
}

} // verus!
