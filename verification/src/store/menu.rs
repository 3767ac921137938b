//! The store's menu: buy, sell, storage, back.
use vstd::prelude::*;

use crate::command::CmdOutcome;
use crate::command::Command;
use crate::command::Screen;
use crate::selection::current_row;
use crate::selection::list_move_down;
use crate::selection::list_move_up;
use crate::selection::moved_down;
use crate::selection::moved_up;
use crate::selection::Selection;
use crate::text::decimal;
use crate::text::push_decimal;
use crate::text::push_char;

verus! {

/// A change of view asked for by the store's menus.
#[derive(Debug, Clone, Copy, PartialEq, Eq, Structural)]
pub enum StateChange {
    ToBuy,
    ToSell,
    ToStorage,
    ToMenu,
}

/// Rows of the menu: Buy, Sell, Storage, Back.
pub const MENU_SIZE: usize = 4;

/// What the store menu answers to `cmd` with `sel` highlighted: the
/// outcome, a change of view, and a screen to go to.
pub open spec fn spec_handle(cmd: Command, sel: Selection) -> (CmdOutcome, Option<StateChange>, Option<Screen>) {
    match cmd {
        Command::MoveUp | Command::MoveDown => (CmdOutcome::Changed, None, None),
        Command::Submit => {
            let i = current_row(sel);
            (
                CmdOutcome::Submit,
                if i == 0 {
                    Some(StateChange::ToBuy)
                } else if i == 1 {
                    Some(StateChange::ToSell)
                } else if i == 2 {
                    Some(StateChange::ToStorage)
                } else {
                    None
                },
                if i == 3 {
                    Some(Screen::Menu)
                } else {
                    None
                },
            )
        },
        _ => (CmdOutcome::Ignored, None, None),
    }
}

/// The selection after the menu handles `cmd`.
pub open spec fn spec_after(cmd: Command, sel: Selection) -> Selection {
    match cmd {
        Command::MoveUp => moved_up(sel, MENU_SIZE as nat),
        Command::MoveDown => moved_down(sel, MENU_SIZE as nat),
        _ => sel,
    }
}

/// Handles `cmd` on the store menu.
pub fn handle(cmd: Command, list_state: &mut Selection) -> (r: (CmdOutcome, Option<StateChange>, Option<Screen>))
    ensures
        r == spec_handle(cmd, *old(list_state)),
        *final(list_state) == spec_after(cmd, *old(list_state)),
{
    match cmd {
        Command::MoveUp => {
            list_move_up(list_state, MENU_SIZE);
            (CmdOutcome::Changed, None, None)
        },
        Command::MoveDown => {
            list_move_down(list_state, MENU_SIZE);
            (CmdOutcome::Changed, None, None)
        },
        Command::Submit => {
            let selected = list_state.current();
            if selected == 0 {
                (CmdOutcome::Submit, Some(StateChange::ToBuy), None)
            } else if selected == 1 {
                (CmdOutcome::Submit, Some(StateChange::ToSell), None)
            } else if selected == 2 {
                (CmdOutcome::Submit, Some(StateChange::ToStorage), None)
            } else if selected == 3 {
                (CmdOutcome::Submit, None, Some(Screen::Menu))
            } else {
                (CmdOutcome::Submit, None, None)
            }
        },
        _ => (CmdOutcome::Ignored, None, None),
    }
}

/// The restock countdown as the store header shows it: "m:ss" from one
/// minute on, "Ns" below.
pub open spec fn spec_restock_timer(secs: nat) -> Seq<char> {
    let mins = secs / 60;
    let rest = secs % 60;
    if mins > 0 {
        decimal(mins) + seq![':'] + (if rest < 10 {
            seq!['0']
        } else {
            Seq::empty()
        }) + decimal(rest)
    } else {
        decimal(rest).push('s')
    }
}

/// Formats the time left until the store restocks.
pub fn restock_timer_text(secs: u64) -> (t: String)
    ensures
        t@ == spec_restock_timer(secs as nat),
{
    let mins = secs / 60;
    let secs_remaining = secs % 60;
    let mut t = String::new();
    if mins > 0 {
        push_decimal(&mut t, mins);
        push_char(&mut t, ':');
        if secs_remaining < 10 {
            push_char(&mut t, '0');
        }
        push_decimal(&mut t, secs_remaining);
        assert(t@ =~= spec_restock_timer(secs as nat));
    } else {
        push_decimal(&mut t, secs_remaining);
        push_char(&mut t, 's');
        assert(t@ =~= spec_restock_timer(secs as nat));
    }
    t
}

} // verus!
