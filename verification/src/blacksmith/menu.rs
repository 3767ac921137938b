//! The blacksmith's menu: upgrade, quality, smelt, forge.
use vstd::prelude::*;

use super::tab::StateChange;
use crate::command::CmdOutcome;
use crate::command::Command;
use crate::command::Screen;
use crate::selection::current_row;
use crate::selection::list_move_down;
use crate::selection::list_move_up;
use crate::selection::moved_down;
use crate::selection::moved_up;
use crate::selection::Selection;

verus! {

/// Rows of the menu.
pub const MENU_SIZE: usize = 4;

/// What the blacksmith menu answers to `cmd` with `sel` highlighted: the
/// outcome, a change of view, and a screen to go to.
pub open spec fn spec_handle(cmd: Command, sel: Selection) -> (CmdOutcome, Option<StateChange>, Option<Screen>) {
    match cmd {
        Command::MoveUp | Command::MoveDown => (CmdOutcome::Changed, None, None),
        Command::Submit => {
            let i = current_row(sel);
            (
                CmdOutcome::Submit,
                if i == 0 {
                    Some(StateChange::ToUpgrade)
                } else if i == 1 {
                    Some(StateChange::ToQuality)
                } else if i == 2 {
                    Some(StateChange::ToSmelt)
                } else if i == 3 {
                    Some(StateChange::ToForge)
                } else {
                    None
                },
                None,
            )
        },
        Command::Cancel => (CmdOutcome::Changed, None, Some(Screen::Menu)),
        _ => (CmdOutcome::Ignored, None, None),
    }
}

/// The selection after the menu handles `cmd`.
pub open spec fn spec_after(cmd: Command, sel: Selection) -> Selection {
    match cmd {
        Command::MoveUp => moved_up(sel, MENU_SIZE as nat),
        Command::MoveDown => moved_down(sel, MENU_SIZE as nat),
        _ => sel,
    }
}

/// Handles `cmd` on the blacksmith menu.
pub fn handle(cmd: Command, list_state: &mut Selection) -> (r: (CmdOutcome, Option<StateChange>, Option<Screen>))
    ensures
        r == spec_handle(cmd, *old(list_state)),
        *final(list_state) == spec_after(cmd, *old(list_state)),
{
    match cmd {
        Command::MoveUp => {
            list_move_up(list_state, MENU_SIZE);
            (CmdOutcome::Changed, None, None)
        },
        Command::MoveDown => {
            list_move_down(list_state, MENU_SIZE);
            (CmdOutcome::Changed, None, None)
        },
        Command::Submit => {
            let selected = list_state.current();
            let change = if selected == 0 {
                Some(StateChange::ToUpgrade)
            } else if selected == 1 {
                Some(StateChange::ToQuality)
            } else if selected == 2 {
                Some(StateChange::ToSmelt)
            } else if selected == 3 {
                Some(StateChange::ToForge)
            } else {
                None
            };
            (CmdOutcome::Submit, change, None)
        },
        Command::Cancel => (CmdOutcome::Changed, None, Some(Screen::Menu)),
        _ => (CmdOutcome::Ignored, None, None),
    }
}

/// Law of the blacksmith menu: Enter on its four rows opens, in order, the
/// upgrade view, the quality view, the smelter and the forge; different
/// rows open different views, and none of them leads back to the menu.
pub proof fn lemma_menu_rows(i: usize, j: usize)
    requires
        i < MENU_SIZE,
        j < MENU_SIZE,
    ensures
        spec_handle(Command::Submit, Selection { selected: Some(0usize) }).1 == Some(StateChange::ToUpgrade),
        spec_handle(Command::Submit, Selection { selected: Some(1usize) }).1 == Some(StateChange::ToQuality),
        spec_handle(Command::Submit, Selection { selected: Some(2usize) }).1 == Some(StateChange::ToSmelt),
        spec_handle(Command::Submit, Selection { selected: Some(3usize) }).1 == Some(StateChange::ToForge),
        spec_handle(Command::Submit, Selection { selected: Some(i) }).1 is Some,
        spec_handle(Command::Submit, Selection { selected: Some(i) }).1 != Some(StateChange::ToMenu),
        i != j ==> spec_handle(Command::Submit, Selection { selected: Some(i) }).1 != spec_handle(
            Command::Submit,
            Selection { selected: Some(j) },
        ).1,
{
}

} // verus!
