//! The store tab: its menu and the buy and sell lists.
use vstd::prelude::*;

use crate::command::{CmdOutcome, Command, KeyInput, Screen};
use crate::selection::Selection;
use crate::store::menu;
use crate::store::menu::StateChange;

verus! {

/// Which view of the store tab is shown.
#[derive(Debug, Clone, Copy, PartialEq, Eq, Structural)]
pub enum StoreState {
    Menu,
    Buy,
    Sell,
}

/// One of the store's item lists.
#[derive(Debug, Clone, Copy, PartialEq, Eq, Structural)]
pub enum StoreList {
    Buy,
    Sell,
}

/// What the buy or sell list is asked to do after a command.
#[derive(Debug, Clone, Copy, PartialEq, Eq, Structural)]
pub enum ListStep {
    /// Move the highlight up.
    MoveUp,
    /// Move the highlight down.
    MoveDown,
    /// Buy, or sell, the highlighted item.
    ActOnSelected,
    /// Nothing for the list to do.
    Nothing,
}

/// What a key press on the store tab asks for.
#[derive(Debug, Clone, Copy, PartialEq, Eq, Structural)]
pub enum StoreKeyAction {
    /// Hand this command to the shown view.
    Perform(Command),
    /// Equip or unequip the highlighted item of the sell list.
    ToggleEquip,
    /// Lock or unlock the highlighted item of the sell list.
    ToggleLock,
    /// Show or hide the item details panel.
    ToggleDetails,
    /// Step this list's filter on.
    CycleFilter(StoreList),
    /// The key is taken and nothing happens.
    Consumed,
    /// The key is not the tab's: hand it to the parent.
    PassOn,
}

/// The view that a change of the menu leads to; the storage screen is not
/// one of the tab's views, so asking for it leaves the view as it was.
pub open spec fn state_after_change(state: StoreState, change: Option<StateChange>) -> StoreState {
    match change {
        Some(StateChange::ToBuy) => StoreState::Buy,
        Some(StateChange::ToSell) => StoreState::Sell,
        Some(StateChange::ToMenu) => StoreState::Menu,
        _ => state,
    }
}

/// What a buy or sell list answers to `cmd`: the outcome, what the list
/// does, and whether the tab goes back to its menu.
pub open spec fn spec_list_cmd(cmd: Command, back_selected: bool) -> (CmdOutcome, ListStep, bool) {
    match cmd {
        Command::MoveUp => (CmdOutcome::Changed, ListStep::MoveUp, false),
        Command::MoveDown => (CmdOutcome::Changed, ListStep::MoveDown, false),
        Command::Submit => if back_selected {
            (CmdOutcome::Submit, ListStep::Nothing, true)
        } else {
            (CmdOutcome::Submit, ListStep::ActOnSelected, false)
        },
        Command::Cancel => (CmdOutcome::Changed, ListStep::Nothing, true),
        _ => (CmdOutcome::Ignored, ListStep::Nothing, false),
    }
}

/// What a key asks of the store tab showing `state`.
pub open spec fn spec_key_action(state: StoreState, key: KeyInput, shift: bool) -> StoreKeyAction {
    match key {
        KeyInput::Up => StoreKeyAction::Perform(Command::MoveUp),
        KeyInput::Down => StoreKeyAction::Perform(Command::MoveDown),
        KeyInput::Enter => StoreKeyAction::Perform(Command::Submit),
        KeyInput::Esc => StoreKeyAction::Perform(Command::Cancel),
        KeyInput::Char(c) => if c == 'E' {
            if state == StoreState::Sell {
                StoreKeyAction::ToggleEquip
            } else {
                StoreKeyAction::Consumed
            }
        } else if c == 'L' && shift {
            if state == StoreState::Sell {
                StoreKeyAction::ToggleLock
            } else {
                StoreKeyAction::Consumed
            }
        } else if c == 'd' {
            if state == StoreState::Menu {
                StoreKeyAction::Consumed
            } else {
                StoreKeyAction::ToggleDetails
            }
        } else if c == 'f' || c == 'F' {
            match state {
                StoreState::Buy => StoreKeyAction::CycleFilter(StoreList::Buy),
                StoreState::Sell => StoreKeyAction::CycleFilter(StoreList::Sell),
                StoreState::Menu => StoreKeyAction::Consumed,
            }
        } else {
            StoreKeyAction::PassOn
        },
        _ => StoreKeyAction::PassOn,
    }
}

/// The store tab's view and the highlight of its menu (the item lists keep
/// their own).
pub struct StoreTab {
    pub state: StoreState,
    pub menu_list_state: Selection,
}

impl StoreTab {
    /// Opens on the menu with its first row highlighted.
    pub fn new() -> (t: Self)
        ensures
            t.state == StoreState::Menu,
            t.menu_list_state.selected == Some(0usize),
    {
        StoreTab { state: StoreState::Menu, menu_list_state: Selection::first() }
    }

    /// Highlights the menu's first row again.
    pub fn reset_selection(&mut self)
        ensures
            final(self).state == old(self).state,
            final(self).menu_list_state.selected == Some(0usize),
    {
        self.menu_list_state.select(Some(0));
    }

    /// Hands `cmd` to the menu and follows the change of view it asks for;
    /// going back to the menu highlights its first row.
    pub fn handle_menu_cmd(&mut self, cmd: Command) -> (r: (CmdOutcome, Option<StateChange>, Option<Screen>))
        ensures
            r == menu::spec_handle(cmd, old(self).menu_list_state),
            final(self).state == state_after_change(old(self).state, r.1),
            r.1 == Some(StateChange::ToMenu) ==> final(self).menu_list_state.selected == Some(0usize),
            r.1 != Some(StateChange::ToMenu) ==> final(self).menu_list_state == menu::spec_after(
                cmd,
                old(self).menu_list_state,
            ),
    {
        let r = menu::handle(cmd, &mut self.menu_list_state);
        match r.1 {
            Some(StateChange::ToBuy) => {
                self.state = StoreState::Buy;
            },
            Some(StateChange::ToSell) => {
                self.state = StoreState::Sell;
            },
            Some(StateChange::ToMenu) => {
                self.state = StoreState::Menu;
                self.reset_selection();
            },
            _ => {},
        }
        r
    }

    /// Hands `cmd` to the shown buy or sell list: the arrows move its
    /// highlight, Enter on its back row or Esc returns to the menu, and
    /// Enter on an item buys or sells it.
    pub fn handle_list_cmd(&mut self, cmd: Command, back_selected: bool) -> (r: (CmdOutcome, ListStep))
        ensures
            r.0 == spec_list_cmd(cmd, back_selected).0,
            r.1 == spec_list_cmd(cmd, back_selected).1,
            spec_list_cmd(cmd, back_selected).2 ==> final(self).state == StoreState::Menu
                && final(self).menu_list_state.selected == Some(0usize),
            !spec_list_cmd(cmd, back_selected).2 ==> *final(self) == *old(self),
    {
        match cmd {
            Command::MoveUp => (CmdOutcome::Changed, ListStep::MoveUp),
            Command::MoveDown => (CmdOutcome::Changed, ListStep::MoveDown),
            Command::Submit => {
                if back_selected {
                    self.state = StoreState::Menu;
                    self.reset_selection();
                    (CmdOutcome::Submit, ListStep::Nothing)
                } else {
                    (CmdOutcome::Submit, ListStep::ActOnSelected)
                }
            },
            Command::Cancel => {
                self.state = StoreState::Menu;
                self.reset_selection();
                (CmdOutcome::Changed, ListStep::Nothing)
            },
            _ => (CmdOutcome::Ignored, ListStep::Nothing),
        }
    }

    /// The tab's answer to a key: arrows, Enter and Esc go to the shown
    /// view; `E` and shift-`L` act on the sell list's highlighted item; `d`
    /// toggles item details and `f` steps the filter in the buy and sell
    /// views; any other key goes back to the parent.
    pub fn key_action(&self, key: KeyInput, shift: bool) -> (a: StoreKeyAction)
        ensures
            a == spec_key_action(self.state, key, shift),
            key == KeyInput::Enter ==> a == StoreKeyAction::Perform(Command::Submit),
            key == KeyInput::Esc ==> a == StoreKeyAction::Perform(Command::Cancel),
            key == KeyInput::Up ==> a == StoreKeyAction::Perform(Command::MoveUp),
            key == KeyInput::Down ==> a == StoreKeyAction::Perform(Command::MoveDown),
    {
        match key {
            KeyInput::Up => StoreKeyAction::Perform(Command::MoveUp),
            KeyInput::Down => StoreKeyAction::Perform(Command::MoveDown),
            KeyInput::Enter => StoreKeyAction::Perform(Command::Submit),
            KeyInput::Esc => StoreKeyAction::Perform(Command::Cancel),
            KeyInput::Char(c) => {
                if c == 'E' {
                    if self.state == StoreState::Sell {
                        StoreKeyAction::ToggleEquip
                    } else {
                        StoreKeyAction::Consumed
                    }
                } else if c == 'L' && shift {
                    if self.state == StoreState::Sell {
                        StoreKeyAction::ToggleLock
                    } else {
                        StoreKeyAction::Consumed
                    }
                } else if c == 'd' {
                    if self.state == StoreState::Menu {
                        StoreKeyAction::Consumed
                    } else {
                        StoreKeyAction::ToggleDetails
                    }
                } else if c == 'f' || c == 'F' {
                    match self.state {
                        StoreState::Buy => StoreKeyAction::CycleFilter(StoreList::Buy),
                        StoreState::Sell => StoreKeyAction::CycleFilter(StoreList::Sell),
                        StoreState::Menu => StoreKeyAction::Consumed,
                    }
                } else {
                    StoreKeyAction::PassOn
                }
            },
            _ => StoreKeyAction::PassOn,
        }
    }
}

/// Law of the store tab's keys: in every view and with or without Shift,
/// Enter submits on the shown view (buying, selling, or choosing a menu
/// row), Esc cancels it, and the vertical arrows move its highlight up and
/// down; these four keys are always handed to the view and never to the
/// parent.
pub proof fn lemma_store_navigation_keys(state: StoreState, shift: bool)
    ensures
        spec_key_action(state, KeyInput::Enter, shift) == StoreKeyAction::Perform(Command::Submit),
        spec_key_action(state, KeyInput::Esc, shift) == StoreKeyAction::Perform(Command::Cancel),
        spec_key_action(state, KeyInput::Up, shift) == StoreKeyAction::Perform(Command::MoveUp),
        spec_key_action(state, KeyInput::Down, shift) == StoreKeyAction::Perform(Command::MoveDown),
{
}

} // verus!
