//! The storage screen: two panels, the player's items and the storage.
use vstd::prelude::*;

use crate::command::KeyInput;
use crate::item_list::{list_config, ItemList, ItemListConfig, ListBackground};

verus! {

/// Which panel has the focus.
#[derive(Debug, Clone, Copy, PartialEq, Eq, Structural)]
pub enum StorageFocus {
    Player,
    Storage,
}

impl StorageFocus {
    /// The other panel.
    pub fn toggle(&self) -> (f: Self)
        ensures
            f == (match *self {
                StorageFocus::Player => StorageFocus::Storage,
                StorageFocus::Storage => StorageFocus::Player,
            }),
    {
        match self {
            StorageFocus::Player => StorageFocus::Storage,
            StorageFocus::Storage => StorageFocus::Player,
        }
    }
}

/// Law: switching panels twice gives back the panel that had the focus.
pub proof fn lemma_toggle_twice(f: StorageFocus)
    ensures
        (match (match f {
            StorageFocus::Player => StorageFocus::Storage,
            StorageFocus::Storage => StorageFocus::Player,
        }) {
            StorageFocus::Player => StorageFocus::Storage,
            StorageFocus::Storage => StorageFocus::Player,
        }) == f,
{
}

/// What a key does on the storage screen.
#[derive(Debug, Clone, Copy, PartialEq, Eq, Structural)]
pub enum StorageKey {
    /// The key is not handled here.
    Unhandled,
    /// Focus moved to this panel.
    Focus(StorageFocus),
    /// Cycle the item filter of this panel.
    CycleFilter(StorageFocus),
}

/// The effect of `key` with `focus` on a panel: Tab switches panels, `f`
/// or `F` cycles the focused panel's filter.
pub fn handle_key(focus: StorageFocus, key: KeyInput) -> (k: StorageKey)
    ensures
        k == (match key {
            KeyInput::Tab => StorageKey::Focus(
                match focus {
                    StorageFocus::Player => StorageFocus::Storage,
                    StorageFocus::Storage => StorageFocus::Player,
                },
            ),
            KeyInput::Char(c) => if c == 'f' || c == 'F' {
                StorageKey::CycleFilter(focus)
            } else {
                StorageKey::Unhandled
            },
            _ => StorageKey::Unhandled,
        }),
{
    match key {
        KeyInput::Tab => StorageKey::Focus(focus.toggle()),
        KeyInput::Char(c) => {
            if c == 'f' || c == 'F' {
                StorageKey::CycleFilter(focus)
            } else {
                StorageKey::Unhandled
            }
        },
        _ => StorageKey::Unhandled,
    }
}

/// Whether the back button counts as selected: only with the focus on the
/// player's panel and its back row highlighted.
pub fn is_back_selected(focus: StorageFocus, player_back_selected: bool) -> (b: bool)
    ensures
        b == (focus == StorageFocus::Player && player_back_selected),
{
    focus == StorageFocus::Player && player_back_selected
}

/// The storage screen: which panel has the focus, and the lists of the
/// player's items and of the stored ones.
pub struct StorageScreen {
    pub focus: StorageFocus,
    pub player_list: ItemList,
    pub storage_list: ItemList,
}

/// The settings of both storage panels: ten rows at a time, with a filter
/// button and scroll indicators, and no back row.
pub open spec fn storage_panel_config(c: ItemListConfig) -> bool {
    &&& c.show_filter_button
    &&& c.show_scroll_indicators
    &&& c.visible_count == 10
    &&& !c.show_back_button
    &&& c.back_label@ == Seq::<char>::empty()
    &&& c.background == ListBackground::Transparent
}

impl StorageScreen {
    /// The screen with the player's panel focused and both lists on their
    /// first row.
    pub fn new() -> (s: Self)
        ensures
            s.focus == StorageFocus::Player,
            storage_panel_config(s.player_list.config),
            storage_panel_config(s.storage_list.config),
            s.player_list.selection.selected == Some(0usize),
            s.storage_list.selection.selected == Some(0usize),
    {
        proof {
            reveal_strlit("");
        }
        assert(""@ =~= Seq::<char>::empty());
        let player_list = ItemList::new(list_config(10, false, "", ListBackground::Transparent));
        let storage_list = ItemList::new(list_config(10, false, "", ListBackground::Transparent));
        StorageScreen { focus: StorageFocus::Player, player_list, storage_list }
    }

    /// Back to the player's panel, both lists on their first row.
    pub fn reset(&mut self)
        ensures
            final(self).focus == StorageFocus::Player,
            final(self).player_list.config == old(self).player_list.config,
            final(self).storage_list.config == old(self).storage_list.config,
            final(self).player_list.selection.selected == Some(0usize),
            final(self).storage_list.selection.selected == Some(0usize),
    {
        self.focus = StorageFocus::Player;
        self.player_list.reset_selection();
        self.storage_list.reset_selection();
    }

    /// Whether the back row counts as selected: only with the player's
    /// panel focused and its back row highlighted (`player_back_selected`).
    pub fn is_back_selected(&self, player_back_selected: bool) -> (b: bool)
        ensures
            b == (self.focus == StorageFocus::Player && player_back_selected),
    {
        is_back_selected(self.focus, player_back_selected)
    }
}

} // verus!
