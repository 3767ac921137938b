//! The smelter: add fuel or smelt an ingot.
use vstd::prelude::*;

use super::tab::StateChange;
use crate::command::CmdOutcome;
use crate::command::Command;
use crate::selection::current_row;
use crate::selection::list_move_down;
use crate::selection::list_move_up;
use crate::selection::moved_down;
use crate::selection::moved_up;
use crate::selection::Selection;
use crate::text::{decimal, push_decimal, push_str};

verus! {

/// Rows of the smelting list: fuel, three ingots, back.
pub const MENU_SIZE: usize = 5;

/// An ingot the smelter makes.
#[derive(Debug, Clone, Copy, PartialEq, Eq, Structural)]
pub enum Ingot {
    Tin,
    Copper,
    Bronze,
}

/// What the smelter is asked to do.
#[derive(Debug, Clone, Copy, PartialEq, Eq, Structural)]
pub enum SmeltAction {
    AddFuel,
    Smelt(Ingot),
}

/// Why the smelter refused.
#[derive(Debug, Clone, Copy, PartialEq, Eq, Structural)]
pub enum BlacksmithError {
    NotEnoughFuel,
    NoFuel,
    RecipeError,
    InventoryFull,
    /// Any other refusal.
    Other,
}

/// What the smelting list answers to `cmd` with `sel` highlighted.
pub open spec fn spec_handle(cmd: Command, sel: Selection) -> (CmdOutcome, Option<StateChange>, Option<SmeltAction>) {
    match cmd {
        Command::MoveUp | Command::MoveDown => (CmdOutcome::Changed, None, None),
        Command::Submit => {
            let i = current_row(sel);
            if i == 0 {
                (CmdOutcome::Submit, None, Some(SmeltAction::AddFuel))
            } else if i == 1 {
                (CmdOutcome::Submit, None, Some(SmeltAction::Smelt(Ingot::Tin)))
            } else if i == 2 {
                (CmdOutcome::Submit, None, Some(SmeltAction::Smelt(Ingot::Copper)))
            } else if i == 3 {
                (CmdOutcome::Submit, None, Some(SmeltAction::Smelt(Ingot::Bronze)))
            } else if i == 4 {
                (CmdOutcome::Submit, Some(StateChange::ToMenu), None)
            } else {
                (CmdOutcome::Ignored, None, None)
            }
        },
        Command::Cancel => (CmdOutcome::Changed, Some(StateChange::ToMenu), None),
        _ => (CmdOutcome::Ignored, None, None),
    }
}

/// The selection after the smelting list handles `cmd`.
pub open spec fn spec_after(cmd: Command, sel: Selection) -> Selection {
    match cmd {
        Command::MoveUp => moved_up(sel, MENU_SIZE as nat),
        Command::MoveDown => moved_down(sel, MENU_SIZE as nat),
        _ => sel,
    }
}

/// Handles `cmd` on the smelting list: the action for the smelter (run by
/// the caller, then reported with `smelt_message`), or a change of view.
pub fn handle(cmd: Command, list_state: &mut Selection) -> (r: (CmdOutcome, Option<StateChange>, Option<SmeltAction>))
    ensures
        r == spec_handle(cmd, *old(list_state)),
        *final(list_state) == spec_after(cmd, *old(list_state)),
{
    match cmd {
        Command::MoveUp => {
            list_move_up(list_state, MENU_SIZE);
            (CmdOutcome::Changed, None, None)
        },
        Command::MoveDown => {
            list_move_down(list_state, MENU_SIZE);
            (CmdOutcome::Changed, None, None)
        },
        Command::Submit => {
            let selected = list_state.current();
            if selected == 0 {
                (CmdOutcome::Submit, None, Some(SmeltAction::AddFuel))
            } else if selected == 1 {
                (CmdOutcome::Submit, None, Some(SmeltAction::Smelt(Ingot::Tin)))
            } else if selected == 2 {
                (CmdOutcome::Submit, None, Some(SmeltAction::Smelt(Ingot::Copper)))
            } else if selected == 3 {
                (CmdOutcome::Submit, None, Some(SmeltAction::Smelt(Ingot::Bronze)))
            } else if selected == 4 {
                (CmdOutcome::Submit, Some(StateChange::ToMenu), None)
            } else {
                (CmdOutcome::Ignored, None, None)
            }
        },
        Command::Cancel => (CmdOutcome::Changed, Some(StateChange::ToMenu), None),
        _ => (CmdOutcome::Ignored, None, None),
    }
}

/// The toast after the smelter ran `action` with `result`.
pub open spec fn spec_smelt_message(action: SmeltAction, result: Result<(), BlacksmithError>) -> (bool, Seq<char>) {
    match result {
        Ok(()) => (
            true,
            match action {
                SmeltAction::AddFuel => seq!['A','d','d','e','d',' ','f','u','e','l'],
                SmeltAction::Smelt(Ingot::Tin) => seq!['S','m','e','l','t','e','d',' ','T','i','n',' ','I','n','g','o','t'],
                SmeltAction::Smelt(Ingot::Copper) => seq!['S','m','e','l','t','e','d',' ','C','o','p','p','e','r',' ','I','n','g','o','t'],
                SmeltAction::Smelt(Ingot::Bronze) => seq!['S','m','e','l','t','e','d',' ','B','r','o','n','z','e',' ','I','n','g','o','t'],
            },
        ),
        Err(e) => (
            false,
            match e {
                BlacksmithError::NotEnoughFuel => seq!['N','o','t',' ','e','n','o','u','g','h',' ','f','u','e','l'],
                BlacksmithError::NoFuel => seq!['N','o',' ','f','u','e','l',' ','t','o',' ','a','d','d'],
                BlacksmithError::RecipeError => seq!['M','i','s','s','i','n','g',' ','i','n','g','r','e','d','i','e','n','t','s'],
                BlacksmithError::InventoryFull => seq!['I','n','v','e','n','t','o','r','y',' ','i','s',' ','f','u','l','l'],
                BlacksmithError::Other => seq!['S','m','e','l','t','i','n','g',' ','f','a','i','l','e','d'],
            },
        ),
    }
}

/// The toast after the smelter ran `action` with `result`: whether it is a
/// success toast, and its text.
pub fn smelt_message(action: SmeltAction, result: Result<(), BlacksmithError>) -> (m: (bool, &'static str))
    ensures
        m.0 == spec_smelt_message(action, result).0,
        m.1@ == spec_smelt_message(action, result).1,
{
    match result {
        Ok(()) => match action {
            SmeltAction::AddFuel => {
                proof { reveal_strlit("Added fuel"); }
                (true, "Added fuel")
            },
            SmeltAction::Smelt(Ingot::Tin) => {
                proof { reveal_strlit("Smelted Tin Ingot"); }
                (true, "Smelted Tin Ingot")
            },
            SmeltAction::Smelt(Ingot::Copper) => {
                proof { reveal_strlit("Smelted Copper Ingot"); }
                (true, "Smelted Copper Ingot")
            },
            SmeltAction::Smelt(Ingot::Bronze) => {
                proof { reveal_strlit("Smelted Bronze Ingot"); }
                (true, "Smelted Bronze Ingot")
            },
        },
        Err(e) => match e {
            BlacksmithError::NotEnoughFuel => {
                proof { reveal_strlit("Not enough fuel"); }
                (false, "Not enough fuel")
            },
            BlacksmithError::NoFuel => {
                proof { reveal_strlit("No fuel to add"); }
                (false, "No fuel to add")
            },
            BlacksmithError::RecipeError => {
                proof { reveal_strlit("Missing ingredients"); }
                (false, "Missing ingredients")
            },
            BlacksmithError::InventoryFull => {
                proof { reveal_strlit("Inventory is full"); }
                (false, "Inventory is full")
            },
            BlacksmithError::Other => {
                proof { reveal_strlit("Smelting failed"); }
                (false, "Smelting failed")
            },
        },
    }
}

/// Columns of the smelter's content block: its widest menu row.
pub const CONTENT_WIDTH: u16 = 42;

/// Columns of blank padding before the smelter's fuel bar, forge and menu in
/// a content area `width` columns wide: the block of `CONTENT_WIDTH` columns
/// centred, then shifted 3 further right.
pub fn smelter_padding(width: u16) -> (p: u16)
    ensures
        p == (if width >= CONTENT_WIDTH { (width - CONTENT_WIDTH) / 2 } else { 0 }) + 3,
{
    if width >= CONTENT_WIDTH {
        (width - CONTENT_WIDTH) / 2 + 3
    } else {
        3
    }
}

/// `Fuel: n/100`, the fuel shown in the smelter's header.
pub fn fuel_text(fuel: u32) -> (t: String)
    ensures
        t@ == "Fuel: "@ + decimal(fuel as nat) + "/100"@,
{
    let mut t = String::new();
    push_str(&mut t, "Fuel: ");
    push_decimal(&mut t, fuel as u64);
    push_str(&mut t, "/100");
    t
}

/// The text after each row's icon in the smelting list, given the coal, tin
/// ore and copper ore the player carries: fuel, tin, copper, bronze.
pub fn smelt_menu_texts(coal: u32, tin_ore: u32, copper_ore: u32) -> (t: Vec<String>)
    ensures
        t@.len() == 4,
        t@[0]@ == " Add Fuel (Coal: "@ + decimal(coal as nat) + ")"@,
        t@[1]@ == " Smelt Tin (Tin Ore: "@ + decimal(tin_ore as nat) + ")"@,
        t@[2]@ == " Smelt Copper (Copper Ore: "@ + decimal(copper_ore as nat) + ")"@,
        t@[3]@ == " Smelt Bronze (Copper: "@ + decimal(copper_ore as nat) + ", Tin: "@
            + decimal(tin_ore as nat) + ")"@,
{
    let mut fuel = String::new();
    push_str(&mut fuel, " Add Fuel (Coal: ");
    push_decimal(&mut fuel, coal as u64);
    push_str(&mut fuel, ")");
    let mut tin = String::new();
    push_str(&mut tin, " Smelt Tin (Tin Ore: ");
    push_decimal(&mut tin, tin_ore as u64);
    push_str(&mut tin, ")");
    let mut copper = String::new();
    push_str(&mut copper, " Smelt Copper (Copper Ore: ");
    push_decimal(&mut copper, copper_ore as u64);
    push_str(&mut copper, ")");
    let mut bronze = String::new();
    push_str(&mut bronze, " Smelt Bronze (Copper: ");
    push_decimal(&mut bronze, copper_ore as u64);
    push_str(&mut bronze, ", Tin: ");
    push_decimal(&mut bronze, tin_ore as u64);
    push_str(&mut bronze, ")");
    let mut t: Vec<String> = Vec::new();
    t.push(fuel);
    t.push(tin);
    t.push(copper);
    t.push(bronze);
    t
}

/// `] n/100`, closing the smelter's fuel bar.
pub fn fuel_bar_end(fuel: u32) -> (t: String)
    ensures
        t@ == "] "@ + decimal(fuel as nat) + "/100"@,
{
    let mut t = String::new();
    push_str(&mut t, "] ");
    push_decimal(&mut t, fuel as u64);
    push_str(&mut t, "/100");
    t
}

} // verus!
