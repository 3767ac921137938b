//! Raising an item's quality: one row per piece of equipment, then back.
use vstd::prelude::*;

use super::tab::StateChange;
use crate::command::CmdOutcome;
use crate::command::Command;
use crate::selection::current_row;
use crate::selection::list_move_down;
use crate::selection::list_move_up;
use crate::selection::moved_down;
use crate::selection::moved_up;
use crate::selection::Selection;

verus! {

/// What the quality list of `item_count` pieces (and a back row) answers
/// to `cmd` with `sel` highlighted.
pub open spec fn spec_handle(cmd: Command, sel: Selection, item_count: usize) -> (CmdOutcome, Option<StateChange>, Option<usize>) {
    match cmd {
        Command::MoveUp | Command::MoveDown => (CmdOutcome::Changed, None, None),
        Command::Submit => {
            let i = current_row(sel);
            if i == item_count {
                (CmdOutcome::Submit, Some(StateChange::ToMenu), None)
            } else if i < item_count {
                (CmdOutcome::Submit, None, Some(i as usize))
            } else {
                (CmdOutcome::Ignored, None, None)
            }
        },
        Command::Cancel => (CmdOutcome::Changed, Some(StateChange::ToMenu), None),
        _ => (CmdOutcome::Ignored, None, None),
    }
}

/// The selection after the quality list handles `cmd`.
pub open spec fn spec_after(cmd: Command, sel: Selection, item_count: usize) -> Selection {
    match cmd {
        Command::MoveUp => moved_up(sel, item_count as nat + 1),
        Command::MoveDown => moved_down(sel, item_count as nat + 1),
        _ => sel,
    }
}

/// Handles `cmd` on the quality list of `item_count` pieces of equipment
/// (plus a back row): the index of the piece to improve (the caller asks the
/// blacksmith), or a change of view.
pub fn handle(cmd: Command, list_state: &mut Selection, item_count: usize) -> (r: (CmdOutcome, Option<StateChange>, Option<usize>))
    requires
        item_count < usize::MAX,
    ensures
        r == spec_handle(cmd, *old(list_state), item_count),
        *final(list_state) == spec_after(cmd, *old(list_state), item_count),
{
    let total_items = item_count + 1;
    match cmd {
        Command::MoveUp => {
            list_move_up(list_state, total_items);
            (CmdOutcome::Changed, None, None)
        },
        Command::MoveDown => {
            list_move_down(list_state, total_items);
            (CmdOutcome::Changed, None, None)
        },
        Command::Submit => {
            let selected = list_state.current();
            if selected == item_count {
                (CmdOutcome::Submit, Some(StateChange::ToMenu), None)
            } else if selected < item_count {
                (CmdOutcome::Submit, None, Some(selected))
            } else {
                (CmdOutcome::Ignored, None, None)
            }
        },
        Command::Cancel => (CmdOutcome::Changed, Some(StateChange::ToMenu), None),
        _ => (CmdOutcome::Ignored, None, None),
    }
}

} // verus!
