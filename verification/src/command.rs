//! The inputs that screens react to and what they answer.
use vstd::prelude::*;

verus! {

/// A command given to a screen component.
#[derive(Debug, Clone, Copy, PartialEq, Eq, Structural)]
pub enum Command {
    MoveUp,
    MoveDown,
    MoveLeft,
    MoveRight,
    Submit,
    Cancel,
    /// Any other command; screens ignore it.
    Other,
}

/// What a component reports after a command.
#[derive(Debug, Clone, Copy, PartialEq, Eq, Structural)]
pub enum CmdOutcome {
    /// Its state changed.
    Changed,
    /// A choice was submitted.
    Submit,
    /// Nothing happened.
    Ignored,
}

/// A top-level screen that a component can send the player to.
#[derive(Debug, Clone, Copy, PartialEq, Eq, Structural)]
pub enum Screen {
    Menu,
    Town,
    Profile,
    /// Leaving the game.
    Quit,
    Store,
    Equipment,
    Blacksmith,
    /// The blacksmith's list of items to upgrade.
    BlacksmithItems,
}

/// A key pressed while a modal or panel has the focus.
#[derive(Debug, Clone, Copy, PartialEq, Eq, Structural)]
pub enum KeyInput {
    Char(char),
    Up,
    Down,
    Left,
    Right,
    Enter,
    Esc,
    Tab,
    Backspace,
    /// Any other key.
    Other,
}

/// Where a tab sends a key.
#[derive(Debug, Clone, Copy, PartialEq, Eq, Structural)]
pub enum KeyRoute {
    /// Run this command on the tab.
    Perform(Command),
    /// Hand the key back to the parent (for tab switching).
    PassOn,
    /// Drop the key.
    Drop,
}

/// How a menu tab routes a key: the vertical arrows move, Enter submits,
/// `cancel_key` cancels; other keys go back to the parent when
/// `pass_unhandled`, else are dropped.
pub fn tab_key_route(key: KeyInput, cancel_key: KeyInput, pass_unhandled: bool) -> (r: KeyRoute)
    ensures
        r == (if key == KeyInput::Up {
            KeyRoute::Perform(Command::MoveUp)
        } else if key == KeyInput::Down {
            KeyRoute::Perform(Command::MoveDown)
        } else if key == KeyInput::Enter {
            KeyRoute::Perform(Command::Submit)
        } else if key == cancel_key {
            KeyRoute::Perform(Command::Cancel)
        } else if pass_unhandled {
            KeyRoute::PassOn
        } else {
            KeyRoute::Drop
        }),
{
    if key == KeyInput::Up {
        KeyRoute::Perform(Command::MoveUp)
    } else if key == KeyInput::Down {
        KeyRoute::Perform(Command::MoveDown)
    } else if key == KeyInput::Enter {
        KeyRoute::Perform(Command::Submit)
    } else if key == cancel_key {
        KeyRoute::Perform(Command::Cancel)
    } else if pass_unhandled {
        KeyRoute::PassOn
    } else {
        KeyRoute::Drop
    }
}

} // verus!
