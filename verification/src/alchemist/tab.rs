//! The alchemist tab's state machine.
use vstd::prelude::*;

use crate::command::CmdOutcome;
use crate::command::Command;
use crate::command::Screen;
use crate::selection::Selection;

verus! {

/// A change of view asked for by the alchemist's menus.
#[derive(Debug, Clone, Copy, PartialEq, Eq, Structural)]
pub enum StateChange {
    ToMenu,
    ToBrew,
}

/// Which view of the alchemist tab is shown.
#[derive(Debug, Clone, Copy, PartialEq, Eq, Structural)]
pub enum AlchemistState {
    Menu,
    Brew,
}

/// The view that `change` leads to.
pub open spec fn changed_state(change: StateChange) -> AlchemistState {
    match change {
        StateChange::ToMenu => AlchemistState::Menu,
        StateChange::ToBrew => AlchemistState::Brew,
    }
}

impl AlchemistState {
    /// The view that `change` leads to (whatever the current one).
    pub fn apply_change(_current: Self, change: StateChange) -> (s: Self)
        ensures
            s == changed_state(change),
    {
        match change {
            StateChange::ToMenu => AlchemistState::Menu,
            StateChange::ToBrew => AlchemistState::Brew,
        }
    }
}

/// What the alchemist tab asks the game to do after a command.
#[derive(Debug, Clone, Copy, PartialEq, Eq, Structural)]
pub enum AlchemistAction {
    /// Brew recipe number `i` of the alchemy recipes.
    Brew(usize),
    /// Leave for another screen.
    GoTo(Screen),
}

/// The alchemist tab: its view and the highlighted row.
pub struct AlchemistTab {
    pub state: AlchemistState,
    pub list_state: Selection,
}

impl AlchemistTab {
    /// Opens on the menu with the first row highlighted.
    pub fn new() -> (t: Self)
        ensures
            t.state == AlchemistState::Menu,
            t.list_state.selected == Some(0usize),
    {
        AlchemistTab { state: AlchemistState::Menu, list_state: Selection::first() }
    }

    /// The view shown.
    pub fn current_state(&self) -> (s: AlchemistState)
        ensures
            s == self.state,
    {
        self.state
    }

    /// Shows view `state`.
    pub fn set_state(&mut self, state: AlchemistState)
        ensures
            final(self).state == state,
            final(self).list_state == old(self).list_state,
    {
        self.state = state;
    }

    /// Highlights the first row.
    pub fn reset_selection(&mut self)
        ensures
            final(self).state == old(self).state,
            final(self).list_state.selected == Some(0usize),
    {
        self.list_state.select(Some(0));
    }

    /// Applies `change`: switches view and highlights the first row.
    pub fn apply_state_change(&mut self, change: StateChange)
        ensures
            final(self).state == changed_state(change),
            final(self).list_state.selected == Some(0usize),
    {
        let s = AlchemistState::apply_change(self.state, change);
        self.set_state(s);
        self.reset_selection();
    }

    /// Passes `cmd` to the view shown (the brewing list has `recipe_count`
    /// rows) and applies the change of view it asks for.
    pub fn perform(&mut self, cmd: Command, recipe_count: usize) -> (r: (CmdOutcome, Option<AlchemistAction>))
        ensures
            ({
                let (res, change, action) = match old(self).state {
                    AlchemistState::Menu => super::menu::spec_handle(cmd, old(self).list_state),
                    AlchemistState::Brew => super::brew::spec_handle(cmd, old(self).list_state, recipe_count),
                };
                &&& r.0 == res
                &&& match change {
                    Some(c) => final(self).state == changed_state(c)
                        && final(self).list_state.selected == Some(0usize),
                    None => final(self).state == old(self).state
                        && final(self).list_state == (match old(self).state {
                            AlchemistState::Menu => super::menu::spec_after(cmd, old(self).list_state),
                            AlchemistState::Brew => super::brew::spec_after(cmd, old(self).list_state, recipe_count),
                        }),
                }
                &&& r.1 == action
            }),
    {
        let (result, change, action) = match self.state {
            AlchemistState::Menu => super::menu::handle(cmd, &mut self.list_state),
            AlchemistState::Brew => super::brew::handle(cmd, &mut self.list_state, recipe_count),
        };
        if let Some(c) = change {
            self.apply_state_change(c);
        }
        (result, action)
    }
}

} // verus!
