//! The alchemist's brewing list: one row per alchemy recipe.
use vstd::prelude::*;

use super::tab::AlchemistAction;
use super::tab::StateChange;
use crate::command::CmdOutcome;
use crate::command::Command;
use crate::selection::current_row;
use crate::selection::list_move_down;
use crate::selection::list_move_up;
use crate::selection::moved_down;
use crate::selection::moved_up;
use crate::selection::Selection;

verus! {

/// What the brewing list of `recipe_count` recipes answers to `cmd` with
/// `sel` highlighted.
pub open spec fn spec_handle(cmd: Command, sel: Selection, recipe_count: usize) -> (CmdOutcome, Option<StateChange>, Option<AlchemistAction>) {
    match cmd {
        Command::MoveUp | Command::MoveDown => (CmdOutcome::Changed, None, None),
        Command::Submit => (
            CmdOutcome::Submit,
            None,
            if current_row(sel) < recipe_count {
                Some(AlchemistAction::Brew(current_row(sel) as usize))
            } else {
                None
            },
        ),
        Command::Cancel => (CmdOutcome::Changed, Some(StateChange::ToMenu), None),
        _ => (CmdOutcome::Ignored, None, None),
    }
}

/// The selection after the brewing list handles `cmd`.
pub open spec fn spec_after(cmd: Command, sel: Selection, recipe_count: usize) -> Selection {
    match cmd {
        Command::MoveUp => moved_up(sel, recipe_count as nat),
        Command::MoveDown => moved_down(sel, recipe_count as nat),
        _ => sel,
    }
}

/// Handles `cmd`: moving the highlight, brewing the highlighted recipe, or
/// going back to the menu.
pub fn handle(cmd: Command, list_state: &mut Selection, recipe_count: usize) -> (r: (CmdOutcome, Option<StateChange>, Option<AlchemistAction>))
    ensures
        r == spec_handle(cmd, *old(list_state), recipe_count),
        *final(list_state) == spec_after(cmd, *old(list_state), recipe_count),
{
    match cmd {
        Command::MoveUp => {
            list_move_up(list_state, recipe_count);
            (CmdOutcome::Changed, None, None)
        },
        Command::MoveDown => {
            list_move_down(list_state, recipe_count);
            (CmdOutcome::Changed, None, None)
        },
        Command::Submit => {
            let selected = list_state.current();
            let action = if selected < recipe_count {
                Some(AlchemistAction::Brew(selected))
            } else {
                None
            };
            (CmdOutcome::Submit, None, action)
        },
        Command::Cancel => (CmdOutcome::Changed, Some(StateChange::ToMenu), None),
        _ => (CmdOutcome::Ignored, None, None),
    }
}

} // verus!
