//! The field's menu: fight, mine, or go back.
use vstd::prelude::*;

use crate::command::CmdOutcome;
use crate::command::Command;
use crate::command::Screen;
use crate::selection::current_row;
use crate::selection::list_move_down;
use crate::selection::list_move_up;
use crate::selection::moved_down;
use crate::selection::moved_up;
use crate::selection::Selection;

verus! {

/// A change of view asked for by the field's menu.
#[derive(Debug, Clone, Copy, PartialEq, Eq, Structural)]
pub enum StateChange {
    ToFight,
    ToMine,
}

/// Rows of the menu: Fight, Mine, Back.
pub const MENU_SIZE: usize = 3;

/// What the field menu answers to `cmd` with `sel` highlighted: the
/// outcome, a change of view, and a screen to go to.
pub open spec fn spec_handle(cmd: Command, sel: Selection) -> (CmdOutcome, Option<StateChange>, Option<Screen>) {
    match cmd {
        Command::MoveUp | Command::MoveDown => (CmdOutcome::Changed, None, None),
        Command::Submit => {
            let i = current_row(sel);
            (
                CmdOutcome::Submit,
                if i == 0 {
                    Some(StateChange::ToFight)
                } else if i == 1 {
                    Some(StateChange::ToMine)
                } else {
                    None
                },
                if i == 2 {
                    Some(Screen::Menu)
                } else {
                    None
                },
            )
        },
        _ => (CmdOutcome::Ignored, None, None),
    }
}

/// The selection after the menu handles `cmd`.
pub open spec fn spec_after(cmd: Command, sel: Selection) -> Selection {
    match cmd {
        Command::MoveUp => moved_up(sel, MENU_SIZE as nat),
        Command::MoveDown => moved_down(sel, MENU_SIZE as nat),
        _ => sel,
    }
}

/// Handles `cmd` on the field menu.
pub fn handle(cmd: Command, list_state: &mut Selection) -> (r: (CmdOutcome, Option<StateChange>, Option<Screen>))
    ensures
        r == spec_handle(cmd, *old(list_state)),
        *final(list_state) == spec_after(cmd, *old(list_state)),
{
    match cmd {
        Command::MoveUp => {
            list_move_up(list_state, MENU_SIZE);
            (CmdOutcome::Changed, None, None)
        },
        Command::MoveDown => {
            list_move_down(list_state, MENU_SIZE);
            (CmdOutcome::Changed, None, None)
        },
        Command::Submit => {
            let selected = list_state.current();
            if selected == 0 {
                (CmdOutcome::Submit, Some(StateChange::ToFight), None)
            } else if selected == 1 {
                (CmdOutcome::Submit, Some(StateChange::ToMine), None)
            } else if selected == 2 {
                (CmdOutcome::Submit, None, Some(Screen::Menu))
            } else {
                (CmdOutcome::Submit, None, None)
            }
        },
        _ => (CmdOutcome::Ignored, None, None),
    }
}

} // verus!
