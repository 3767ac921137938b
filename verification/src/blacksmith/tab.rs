//! The blacksmith tab's views.
use vstd::prelude::*;

use crate::command::{Command, KeyInput};
use crate::selection::Selection;

verus! {

/// A change of view asked for by the blacksmith's menus.
#[derive(Debug, Clone, Copy, PartialEq, Eq, Structural)]
pub enum StateChange {
    ToMenu,
    ToUpgrade,
    ToQuality,
    ToSmelt,
    ToForge,
}

/// Which view of the blacksmith tab is shown.
#[derive(Debug, Clone, Copy, PartialEq, Eq, Structural)]
pub enum BlacksmithState {
    Menu,
    Upgrade,
    Quality,
    Smelt,
    Forge,
}

/// The view that `change` leads to.
pub open spec fn changed_state(change: StateChange) -> BlacksmithState {
    match change {
        StateChange::ToMenu => BlacksmithState::Menu,
        StateChange::ToUpgrade => BlacksmithState::Upgrade,
        StateChange::ToQuality => BlacksmithState::Quality,
        StateChange::ToSmelt => BlacksmithState::Smelt,
        StateChange::ToForge => BlacksmithState::Forge,
    }
}

/// The blacksmith tab's view and the highlights of its plain lists (the
/// item lists of the other views keep their own).
pub struct BlacksmithTab {
    pub state: BlacksmithState,
    pub menu_list_state: Selection,
    pub smelt_list_state: Selection,
}

impl BlacksmithTab {
    /// Opens on the menu with first rows highlighted.
    pub fn new() -> (t: Self)
        ensures
            t.state == BlacksmithState::Menu,
            t.menu_list_state.selected == Some(0usize),
            t.smelt_list_state.selected == Some(0usize),
    {
        BlacksmithTab {
            state: BlacksmithState::Menu,
            menu_list_state: Selection::first(),
            smelt_list_state: Selection::first(),
        }
    }

    /// Highlights the first rows again.
    pub fn reset_selection(&mut self)
        ensures
            final(self).state == old(self).state,
            final(self).menu_list_state.selected == Some(0usize),
            final(self).smelt_list_state.selected == Some(0usize),
    {
        self.menu_list_state.select(Some(0));
        self.smelt_list_state.select(Some(0));
    }

    /// Switches to the view that `change` asks for, with first rows
    /// highlighted.
    pub fn apply_state_change(&mut self, change: StateChange)
        ensures
            final(self).state == changed_state(change),
            change == StateChange::ToMenu <==> final(self).state == BlacksmithState::Menu,
            change == StateChange::ToUpgrade <==> final(self).state == BlacksmithState::Upgrade,
            change == StateChange::ToQuality <==> final(self).state == BlacksmithState::Quality,
            change == StateChange::ToSmelt <==> final(self).state == BlacksmithState::Smelt,
            change == StateChange::ToForge <==> final(self).state == BlacksmithState::Forge,
            final(self).menu_list_state.selected == Some(0usize),
            final(self).smelt_list_state.selected == Some(0usize),
    {
        match change {
            StateChange::ToMenu => self.state = BlacksmithState::Menu,
            StateChange::ToUpgrade => self.state = BlacksmithState::Upgrade,
            StateChange::ToQuality => self.state = BlacksmithState::Quality,
            StateChange::ToSmelt => self.state = BlacksmithState::Smelt,
            StateChange::ToForge => self.state = BlacksmithState::Forge,
        }
        self.reset_selection();
    }
}

/// One of the blacksmith's item lists.
#[derive(Debug, Clone, Copy, PartialEq, Eq, Structural)]
pub enum ItemListKind {
    Upgrade,
    Quality,
    Forge,
}

/// What a key press on the blacksmith tab asks for.
#[derive(Debug, Clone, Copy, PartialEq, Eq, Structural)]
pub enum BlacksmithKeyAction {
    /// Hand this command to the shown view.
    Perform(Command),
    /// Equip or unequip the item highlighted in this list.
    ToggleEquip(ItemListKind),
    /// Lock or unlock the item highlighted in this list.
    ToggleLock(ItemListKind),
    /// Show or hide the item details panel.
    ToggleDetails,
    /// Step this list's filter on.
    CycleFilter(ItemListKind),
    /// The key is taken and nothing happens.
    Consumed,
    /// The key is not the tab's: hand it to the parent.
    PassOn,
}

/// The item list of a view that lists equipment, if it does.
pub open spec fn equipment_list(state: BlacksmithState) -> Option<ItemListKind> {
    match state {
        BlacksmithState::Upgrade => Some(ItemListKind::Upgrade),
        BlacksmithState::Quality => Some(ItemListKind::Quality),
        _ => None,
    }
}

/// What a key asks of the blacksmith tab showing `state`.
pub open spec fn spec_key_action(state: BlacksmithState, key: KeyInput, shift: bool) -> BlacksmithKeyAction {
    match key {
        KeyInput::Up => BlacksmithKeyAction::Perform(Command::MoveUp),
        KeyInput::Down => BlacksmithKeyAction::Perform(Command::MoveDown),
        KeyInput::Enter => BlacksmithKeyAction::Perform(Command::Submit),
        KeyInput::Esc => BlacksmithKeyAction::Perform(Command::Cancel),
        KeyInput::Char(c) => if c == 'E' {
            match equipment_list(state) {
                Some(l) => BlacksmithKeyAction::ToggleEquip(l),
                None => BlacksmithKeyAction::Consumed,
            }
        } else if c == 'L' && shift {
            match equipment_list(state) {
                Some(l) => BlacksmithKeyAction::ToggleLock(l),
                None => BlacksmithKeyAction::Consumed,
            }
        } else if c == 'd' {
            match equipment_list(state) {
                Some(_) => BlacksmithKeyAction::ToggleDetails,
                None => BlacksmithKeyAction::Consumed,
            }
        } else if c == 'f' || c == 'F' {
            match state {
                BlacksmithState::Upgrade => BlacksmithKeyAction::CycleFilter(ItemListKind::Upgrade),
                BlacksmithState::Quality => BlacksmithKeyAction::CycleFilter(ItemListKind::Quality),
                BlacksmithState::Forge => BlacksmithKeyAction::CycleFilter(ItemListKind::Forge),
                _ => BlacksmithKeyAction::Consumed,
            }
        } else {
            BlacksmithKeyAction::PassOn
        },
        _ => BlacksmithKeyAction::PassOn,
    }
}

fn shown_equipment_list(state: BlacksmithState) -> (l: Option<ItemListKind>)
    ensures
        l == equipment_list(state),
{
    match state {
        BlacksmithState::Upgrade => Some(ItemListKind::Upgrade),
        BlacksmithState::Quality => Some(ItemListKind::Quality),
        _ => None,
    }
}

impl BlacksmithTab {
    /// The tab's answer to a key: arrows, Enter and Esc go to the shown
    /// view; `E`, shift-`L` and `d` act on the highlighted item of the
    /// upgrade and quality lists; `f` steps the filter of the upgrade,
    /// quality and forge lists; any other key goes back to the parent.
    pub fn key_action(&self, key: KeyInput, shift: bool) -> (a: BlacksmithKeyAction)
        ensures
            a == spec_key_action(self.state, key, shift),
    {
        match key {
            KeyInput::Up => BlacksmithKeyAction::Perform(Command::MoveUp),
            KeyInput::Down => BlacksmithKeyAction::Perform(Command::MoveDown),
            KeyInput::Enter => BlacksmithKeyAction::Perform(Command::Submit),
            KeyInput::Esc => BlacksmithKeyAction::Perform(Command::Cancel),
            KeyInput::Char(c) => {
                if c == 'E' {
                    match shown_equipment_list(self.state) {
                        Some(l) => BlacksmithKeyAction::ToggleEquip(l),
                        None => BlacksmithKeyAction::Consumed,
                    }
                } else if c == 'L' && shift {
                    match shown_equipment_list(self.state) {
                        Some(l) => BlacksmithKeyAction::ToggleLock(l),
                        None => BlacksmithKeyAction::Consumed,
                    }
                } else if c == 'd' {
                    match shown_equipment_list(self.state) {
                        Some(_) => BlacksmithKeyAction::ToggleDetails,
                        None => BlacksmithKeyAction::Consumed,
                    }
                } else if c == 'f' || c == 'F' {
                    match self.state {
                        BlacksmithState::Upgrade => BlacksmithKeyAction::CycleFilter(ItemListKind::Upgrade),
                        BlacksmithState::Quality => BlacksmithKeyAction::CycleFilter(ItemListKind::Quality),
                        BlacksmithState::Forge => BlacksmithKeyAction::CycleFilter(ItemListKind::Forge),
                        _ => BlacksmithKeyAction::Consumed,
                    }
                } else {
                    BlacksmithKeyAction::PassOn
                }
            },
            _ => BlacksmithKeyAction::PassOn,
        }
    }
}

/// Law of the blacksmith's view changes: each change opens the view of its
/// own name and no other (the menu for "to menu", the upgrade view for "to
/// upgrade", the quality view for "to quality", the smelter for "to smelt",
/// the forge for "to forge"), so different changes open different views
/// and every view is opened by exactly one change.
pub proof fn lemma_view_changes(a: StateChange, b: StateChange)
    ensures
        (a == StateChange::ToMenu) <==> (changed_state(a) == BlacksmithState::Menu),
        (a == StateChange::ToUpgrade) <==> (changed_state(a) == BlacksmithState::Upgrade),
        (a == StateChange::ToQuality) <==> (changed_state(a) == BlacksmithState::Quality),
        (a == StateChange::ToSmelt) <==> (changed_state(a) == BlacksmithState::Smelt),
        (a == StateChange::ToForge) <==> (changed_state(a) == BlacksmithState::Forge),
        changed_state(a) == changed_state(b) ==> a == b,
{
}

} // verus!
