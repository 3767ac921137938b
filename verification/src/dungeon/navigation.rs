//! Moving between dungeon rooms with the compass.
use vstd::prelude::*;

use super::minimap::RoomType;
use super::screen::CompassPosition;
use super::screen::DungeonState;
use crate::command::Command;

verus! {

/// A direction of travel in the dungeon.
#[derive(Debug, Clone, Copy, PartialEq, Eq, Structural)]
pub enum Direction {
    North,
    East,
    South,
    West,
}

/// Which exits the current room has.
#[derive(Debug, Clone, Copy, PartialEq, Eq, Structural)]
pub struct Exits {
    pub north: bool,
    pub east: bool,
    pub south: bool,
    pub west: bool,
}

/// Where the compass highlight goes from `current` on an arrow command.
pub open spec fn spec_compass_move(current: CompassPosition, cmd: Command, exits: Exits) -> CompassPosition {
    match (current, cmd) {
        (CompassPosition::Center, Command::MoveUp) if exits.north => CompassPosition::North,
        (CompassPosition::Center, Command::MoveDown) if exits.south => CompassPosition::South,
        (CompassPosition::Center, Command::MoveLeft) if exits.west => CompassPosition::West,
        (CompassPosition::Center, Command::MoveRight) if exits.east => CompassPosition::East,
        (CompassPosition::North, Command::MoveDown) => CompassPosition::Center,
        (CompassPosition::North, Command::MoveLeft) if exits.west => CompassPosition::West,
        (CompassPosition::North, Command::MoveRight) if exits.east => CompassPosition::East,
        (CompassPosition::South, Command::MoveUp) => CompassPosition::Center,
        (CompassPosition::South, Command::MoveLeft) if exits.west => CompassPosition::West,
        (CompassPosition::South, Command::MoveRight) if exits.east => CompassPosition::East,
        (CompassPosition::West, Command::MoveRight) => CompassPosition::Center,
        (CompassPosition::West, Command::MoveUp) if exits.north => CompassPosition::North,
        (CompassPosition::West, Command::MoveDown) if exits.south => CompassPosition::South,
        (CompassPosition::East, Command::MoveLeft) => CompassPosition::Center,
        (CompassPosition::East, Command::MoveUp) if exits.north => CompassPosition::North,
        (CompassPosition::East, Command::MoveDown) if exits.south => CompassPosition::South,
        (current, _) => current,
    }
}

/// Moves the compass highlight with an arrow command: from the centre
/// towards an existing exit, from an exit back to the centre (opposite
/// arrow) or across to a side exit; anything else leaves it in place.
pub fn compass_move(current: CompassPosition, cmd: Command, exits: Exits) -> (p: CompassPosition)
    ensures
        p == spec_compass_move(current, cmd, exits),
        (current == CompassPosition::North || current == CompassPosition::South) && cmd == Command::MoveRight
            && exits.east ==> p == CompassPosition::East,
        (current == CompassPosition::North || current == CompassPosition::South) && cmd == Command::MoveLeft
            && exits.west ==> p == CompassPosition::West,
        (current == CompassPosition::East || current == CompassPosition::West) && cmd == Command::MoveUp
            && exits.north ==> p == CompassPosition::North,
        (current == CompassPosition::East || current == CompassPosition::West) && cmd == Command::MoveDown
            && exits.south ==> p == CompassPosition::South,
{
    match (current, cmd) {
        (CompassPosition::Center, Command::MoveUp) if exits.north => CompassPosition::North,
        (CompassPosition::Center, Command::MoveDown) if exits.south => CompassPosition::South,
        (CompassPosition::Center, Command::MoveLeft) if exits.west => CompassPosition::West,
        (CompassPosition::Center, Command::MoveRight) if exits.east => CompassPosition::East,
        (CompassPosition::North, Command::MoveDown) => CompassPosition::Center,
        (CompassPosition::North, Command::MoveLeft) if exits.west => CompassPosition::West,
        (CompassPosition::North, Command::MoveRight) if exits.east => CompassPosition::East,
        (CompassPosition::South, Command::MoveUp) => CompassPosition::Center,
        (CompassPosition::South, Command::MoveLeft) if exits.west => CompassPosition::West,
        (CompassPosition::South, Command::MoveRight) if exits.east => CompassPosition::East,
        (CompassPosition::West, Command::MoveRight) => CompassPosition::Center,
        (CompassPosition::West, Command::MoveUp) if exits.north => CompassPosition::North,
        (CompassPosition::West, Command::MoveDown) if exits.south => CompassPosition::South,
        (CompassPosition::East, Command::MoveLeft) => CompassPosition::Center,
        (CompassPosition::East, Command::MoveUp) if exits.north => CompassPosition::North,
        (CompassPosition::East, Command::MoveDown) if exits.south => CompassPosition::South,
        (current, _) => current,
    }
}

/// The compass highlight is on the centre or on an exit that exists.
pub open spec fn compass_on_exit(p: CompassPosition, exits: Exits) -> bool {
    match p {
        CompassPosition::Center => true,
        CompassPosition::North => exits.north,
        CompassPosition::East => exits.east,
        CompassPosition::South => exits.south,
        CompassPosition::West => exits.west,
    }
}

/// Law of compass navigation: the highlight never lands on a missing exit,
/// and the opposite arrow brings it from an exit back to the centre.
pub proof fn lemma_compass_laws(p: CompassPosition, cmd: Command, exits: Exits)
    ensures
        compass_on_exit(p, exits) ==> compass_on_exit(spec_compass_move(p, cmd, exits), exits),
        exits.north ==> spec_compass_move(
            spec_compass_move(CompassPosition::Center, Command::MoveUp, exits),
            Command::MoveDown,
            exits,
        ) == CompassPosition::Center,
        exits.south ==> spec_compass_move(
            spec_compass_move(CompassPosition::Center, Command::MoveDown, exits),
            Command::MoveUp,
            exits,
        ) == CompassPosition::Center,
        exits.west ==> spec_compass_move(
            spec_compass_move(CompassPosition::Center, Command::MoveLeft, exits),
            Command::MoveRight,
            exits,
        ) == CompassPosition::Center,
        exits.east ==> spec_compass_move(
            spec_compass_move(CompassPosition::Center, Command::MoveRight, exits),
            Command::MoveLeft,
            exits,
        ) == CompassPosition::Center,
{
}

/// The compass button an arrow points towards from the centre.
pub open spec fn arrow_target(cmd: Command) -> CompassPosition {
    match cmd {
        Command::MoveUp => CompassPosition::North,
        Command::MoveDown => CompassPosition::South,
        Command::MoveLeft => CompassPosition::West,
        _ => CompassPosition::East,
    }
}

/// Whether a command is one of the four arrows.
pub open spec fn is_arrow(cmd: Command) -> bool {
    cmd == Command::MoveUp || cmd == Command::MoveDown || cmd == Command::MoveLeft || cmd == Command::MoveRight
}

/// The exit button across the centre from `p`.
pub open spec fn opposite(p: CompassPosition) -> CompassPosition {
    match p {
        CompassPosition::North => CompassPosition::South,
        CompassPosition::South => CompassPosition::North,
        CompassPosition::East => CompassPosition::West,
        CompassPosition::West => CompassPosition::East,
        CompassPosition::Center => CompassPosition::Center,
    }
}

/// Law of the compass arrows, case by case.  From the centre, an arrow
/// moves onto the exit it points at when that exit exists, else nothing
/// moves.  From an exit, the arrow pointing back across the centre returns
/// to the centre; an arrow pointing sideways moves onto that side exit when
/// it exists, else nothing moves; the arrow pointing further out moves
/// nothing.  Commands other than arrows never move the highlight.
pub proof fn lemma_compass_arrows(p: CompassPosition, cmd: Command, exits: Exits)
    ensures
        !is_arrow(cmd) ==> spec_compass_move(p, cmd, exits) == p,
        is_arrow(cmd) && p == CompassPosition::Center ==> spec_compass_move(p, cmd, exits) == (if compass_on_exit(
            arrow_target(cmd),
            exits,
        ) {
            arrow_target(cmd)
        } else {
            CompassPosition::Center
        }),
        is_arrow(cmd) && p != CompassPosition::Center && arrow_target(cmd) == opposite(p)
            ==> spec_compass_move(p, cmd, exits) == CompassPosition::Center,
        is_arrow(cmd) && p != CompassPosition::Center && arrow_target(cmd) == p
            ==> spec_compass_move(p, cmd, exits) == p,
        is_arrow(cmd) && p != CompassPosition::Center && arrow_target(cmd) != p && arrow_target(cmd) != opposite(p)
            ==> spec_compass_move(p, cmd, exits) == (if compass_on_exit(arrow_target(cmd), exits) {
            arrow_target(cmd)
        } else {
            p
        }),
{
}

/// What submitting on the compass asks the game to do.
#[derive(Debug, Clone, Copy, PartialEq, Eq, Structural)]
pub enum NavigationAction {
    /// Leave the dungeon (the centre button); the screen changes.
    LeaveDungeon,
    /// Try to move through an exit.
    Move(Direction),
}

/// The action for submitting with the compass on `compass_selection`.
pub fn handle_submit(compass_selection: CompassPosition) -> (a: NavigationAction)
    ensures
        a == (match compass_selection {
            CompassPosition::Center => NavigationAction::LeaveDungeon,
            CompassPosition::North => NavigationAction::Move(Direction::North),
            CompassPosition::East => NavigationAction::Move(Direction::East),
            CompassPosition::South => NavigationAction::Move(Direction::South),
            CompassPosition::West => NavigationAction::Move(Direction::West),
        }),
{
    match compass_selection {
        CompassPosition::Center => NavigationAction::LeaveDungeon,
        CompassPosition::North => NavigationAction::Move(Direction::North),
        CompassPosition::East => NavigationAction::Move(Direction::East),
        CompassPosition::South => NavigationAction::Move(Direction::South),
        CompassPosition::West => NavigationAction::Move(Direction::West),
    }
}

/// The view after a move: `in_dungeon` says whether the player is still in
/// a dungeon and `room` is the room they stand in (type and whether it is
/// cleared).  An uncleared boss room traps them in the boss view; any other
/// room is entered; outside a dungeon there is no view.
pub fn state_after_move(in_dungeon: bool, room: Option<(RoomType, bool)>) -> (s: Option<DungeonState>)
    ensures
        s == (if !in_dungeon {
            None
        } else {
            match room {
                Some((t, cleared)) => if t == RoomType::Boss && !cleared {
                    Some(DungeonState::BossRoom)
                } else {
                    Some(DungeonState::RoomEntry)
                },
                None => Some(DungeonState::RoomEntry),
            }
        }),
{
    if !in_dungeon {
        return None;
    }
    let is_boss_room = match room {
        Some((t, cleared)) => t == RoomType::Boss && !cleared,
        None => false,
    };
    if is_boss_room {
        Some(DungeonState::BossRoom)
    } else {
        Some(DungeonState::RoomEntry)
    }
}

/// The action for submitting row `selected` of a list of the room's exits
/// (`directions`, in order) followed by a "Leave Dungeon" row.
pub fn navigation_choice(selected: usize, directions: &Vec<Direction>) -> (a: NavigationAction)
    ensures
        a == (if selected < directions@.len() {
            NavigationAction::Move(directions@[selected as int])
        } else {
            NavigationAction::LeaveDungeon
        }),
{
    if selected < directions.len() {
        NavigationAction::Move(directions[selected])
    } else {
        NavigationAction::LeaveDungeon
    }
}

} // verus!
