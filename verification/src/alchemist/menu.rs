//! The alchemist's main menu: one entry, "Brew Potions".
use vstd::prelude::*;

use super::tab::AlchemistAction;
use super::tab::StateChange;
use crate::command::CmdOutcome;
use crate::command::Command;
use crate::command::Screen;
use crate::selection::current_row;
use crate::selection::list_move_down;
use crate::selection::list_move_up;
use crate::selection::moved_down;
use crate::selection::moved_up;
use crate::selection::Selection;

verus! {

/// Rows of the menu.
pub const MENU_SIZE: usize = 1;

/// What the menu answers to `cmd` with `sel` highlighted.
pub open spec fn spec_handle(cmd: Command, sel: Selection) -> (CmdOutcome, Option<StateChange>, Option<AlchemistAction>) {
    match cmd {
        Command::MoveUp | Command::MoveDown => (CmdOutcome::Changed, None, None),
        Command::Submit => (
            CmdOutcome::Submit,
            if current_row(sel) == 0 {
                Some(StateChange::ToBrew)
            } else {
                None
            },
            None,
        ),
        Command::Cancel => (CmdOutcome::Changed, None, Some(AlchemistAction::GoTo(Screen::Menu))),
        _ => (CmdOutcome::Ignored, None, None),
    }
}

/// The selection after the menu handles `cmd`.
pub open spec fn spec_after(cmd: Command, sel: Selection) -> Selection {
    match cmd {
        Command::MoveUp => moved_up(sel, MENU_SIZE as nat),
        Command::MoveDown => moved_down(sel, MENU_SIZE as nat),
        _ => sel,
    }
}

/// Handles `cmd`: moving the highlight (wrapping), choosing "Brew Potions",
/// or going back to the main menu.
pub fn handle(cmd: Command, list_state: &mut Selection) -> (r: (CmdOutcome, Option<StateChange>, Option<AlchemistAction>))
    ensures
        r == spec_handle(cmd, *old(list_state)),
        *final(list_state) == spec_after(cmd, *old(list_state)),
{
    match cmd {
        Command::MoveUp => {
            list_move_up(list_state, MENU_SIZE);
            (CmdOutcome::Changed, None, None)
        },
        Command::MoveDown => {
            list_move_down(list_state, MENU_SIZE);
            (CmdOutcome::Changed, None, None)
        },
        Command::Submit => {
            let selected = list_state.current();
            let state_change = if selected == 0 {
                Some(StateChange::ToBrew)
            } else {
                None
            };
            (CmdOutcome::Submit, state_change, None)
        },
        Command::Cancel => (CmdOutcome::Changed, None, Some(AlchemistAction::GoTo(Screen::Menu))),
        _ => (CmdOutcome::Ignored, None, None),
    }
}

} // verus!
