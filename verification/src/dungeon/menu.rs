//! The dungeon entrance's menu: one entry, "Enter".
use vstd::prelude::*;

use crate::command::CmdOutcome;
use crate::command::Command;
use crate::selection::current_row;
use crate::selection::list_move_down;
use crate::selection::list_move_up;
use crate::selection::moved_down;
use crate::selection::moved_up;
use crate::selection::Selection;

verus! {

/// A change of view asked for by the dungeon entrance.
#[derive(Debug, Clone, Copy, PartialEq, Eq, Structural)]
pub enum StateChange {
    EnterDungeon,
}

/// Rows of the menu.
pub const MENU_SIZE: usize = 1;

/// What the entrance menu answers to `cmd` with `sel` highlighted
/// (cancelling is left to the tab).
pub open spec fn spec_handle(cmd: Command, sel: Selection) -> (CmdOutcome, Option<StateChange>) {
    match cmd {
        Command::MoveUp | Command::MoveDown => (CmdOutcome::Changed, None),
        Command::Submit => (
            CmdOutcome::Submit,
            if current_row(sel) == 0 {
                Some(StateChange::EnterDungeon)
            } else {
                None
            },
        ),
        _ => (CmdOutcome::Ignored, None),
    }
}

/// The selection after the menu handles `cmd`.
pub open spec fn spec_after(cmd: Command, sel: Selection) -> Selection {
    match cmd {
        Command::MoveUp => moved_up(sel, MENU_SIZE as nat),
        Command::MoveDown => moved_down(sel, MENU_SIZE as nat),
        _ => sel,
    }
}

/// Handles `cmd` on the dungeon entrance menu.
pub fn handle(cmd: Command, list_state: &mut Selection) -> (r: (CmdOutcome, Option<StateChange>))
    ensures
        r == spec_handle(cmd, *old(list_state)),
        *final(list_state) == spec_after(cmd, *old(list_state)),
{
    match cmd {
        Command::MoveUp => {
            list_move_up(list_state, MENU_SIZE);
            (CmdOutcome::Changed, None)
        },
        Command::MoveDown => {
            list_move_down(list_state, MENU_SIZE);
            (CmdOutcome::Changed, None)
        },
        Command::Submit => {
            let selected = list_state.current();
            if selected == 0 {
                (CmdOutcome::Submit, Some(StateChange::EnterDungeon))
            } else {
                (CmdOutcome::Submit, None)
            }
        },
        _ => (CmdOutcome::Ignored, None),
    }
}

} // verus!
