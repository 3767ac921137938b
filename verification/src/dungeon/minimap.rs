//! The fog-of-war minimap of a dungeon.
use vstd::prelude::*;

use crate::text::push_char;

verus! {

/// Kind of a dungeon room.
#[derive(Debug, Clone, Copy, PartialEq, Eq, Structural)]
pub enum RoomType {
    Monster,
    Boss,
    Chest,
    Rest,
    Trap,
    Treasure,
}

/// Icon of a monster room (crossed swords).
pub const ICON_MONSTER: char = '\u{f0787}';
/// Icon of the boss room (skull).
pub const ICON_BOSS: char = '\u{F0544}';
/// Icon of a chest room.
pub const ICON_CHEST: char = '\u{f0726}';
/// Icon of a rest room (campfire).
pub const ICON_REST: char = '\u{F023E}';
/// Icon of a trap room.
pub const ICON_TRAP: char = '\u{F0236}';
/// Icon of a treasure room (gem).
pub const ICON_TREASURE: char = '\u{F19D1}';
/// Marker of the player's room.
pub const ICON_PLAYER: char = '\u{F415}';
/// Marker of a room seen but not visited.
pub const ICON_UNKNOWN: char = '?';

/// Columns taken by one room on the minimap.
pub const CELL_WIDTH: u16 = 5;
/// Rows taken by one room on the minimap.
pub const CELL_HEIGHT: u16 = 1;

/// The icon of a visited room of type `room_type`.
pub open spec fn spec_room_type_icon(room_type: RoomType) -> char {
    match room_type {
        RoomType::Monster => ICON_MONSTER,
        RoomType::Boss => ICON_BOSS,
        RoomType::Chest => ICON_CHEST,
        RoomType::Rest => ICON_REST,
        RoomType::Trap => ICON_TRAP,
        RoomType::Treasure => ICON_TREASURE,
    }
}

/// The icon shown for a visited room of type `room_type`.
pub fn room_type_icon(room_type: RoomType) -> (c: char)
    ensures
        c == spec_room_type_icon(room_type),
{
    match room_type {
        RoomType::Monster => ICON_MONSTER,
        RoomType::Boss => ICON_BOSS,
        RoomType::Chest => ICON_CHEST,
        RoomType::Rest => ICON_REST,
        RoomType::Trap => ICON_TRAP,
        RoomType::Treasure => ICON_TREASURE,
    }
}

/// Size (width, height) of the minimap of a `dungeon_size` by
/// `dungeon_size` dungeon: five columns and one row per room, plus the
/// border.
pub fn minimap_size(dungeon_size: u16) -> (r: (u16, u16))
    requires
        dungeon_size * CELL_WIDTH + 2 <= u16::MAX,
    ensures
        r.0 == dungeon_size * CELL_WIDTH + 2,
        r.1 == dungeon_size * CELL_HEIGHT + 2,
{
    let width = dungeon_size * CELL_WIDTH + 2;
    let height = dungeon_size * CELL_HEIGHT + 2;
    (width, height)
}

/// What is known of one map position for drawing it.
#[derive(Debug, Clone, Copy, PartialEq, Eq, Structural)]
pub struct RoomView {
    pub room_type: RoomType,
    pub is_visited: bool,
    pub is_cleared: bool,
    pub is_revealed: bool,
}

/// How a minimap cell is drawn.
#[derive(Debug, Clone, Copy, PartialEq, Eq, Structural)]
pub enum CellLook {
    /// "[ x ]" with the player marker, highlighted.
    Current,
    /// "[ x ]" with the room's icon, in the cleared colour.
    Cleared(char),
    /// "[ x ]" with the room's icon, in the visited colour.
    Visited(char),
    /// "[ ? ]": seen from next door but not visited.
    Unknown,
    /// "  ·  ": fog next to what is known.
    Dim,
    /// Blank: nothing known.
    Hidden,
}

/// How a minimap cell is drawn.
pub open spec fn spec_cell_look(room: Option<RoomView>, is_current: bool, adjacent_revealed: bool) -> CellLook {
    match room {
        Some(r) => if is_current {
            CellLook::Current
        } else if r.is_visited {
            if r.is_cleared {
                CellLook::Cleared(spec_room_type_icon(r.room_type))
            } else {
                CellLook::Visited(spec_room_type_icon(r.room_type))
            }
        } else if r.is_revealed {
            CellLook::Unknown
        } else {
            CellLook::Dim
        },
        None => if adjacent_revealed {
            CellLook::Dim
        } else {
            CellLook::Hidden
        },
    }
}

/// How to draw the cell at a position holding `room` (if any), where
/// `is_current` says whether the player stands there and
/// `adjacent_revealed` whether a revealed room is next to it.
pub fn cell_look(room: Option<RoomView>, is_current: bool, adjacent_revealed: bool) -> (l: CellLook)
    ensures
        l == spec_cell_look(room, is_current, adjacent_revealed),
{
    match room {
        Some(r) => {
            if is_current {
                CellLook::Current
            } else if r.is_visited {
                if r.is_cleared {
                    CellLook::Cleared(room_type_icon(r.room_type))
                } else {
                    CellLook::Visited(room_type_icon(r.room_type))
                }
            } else if r.is_revealed {
                CellLook::Unknown
            } else {
                CellLook::Dim
            }
        },
        None => {
            if adjacent_revealed {
                CellLook::Dim
            } else {
                CellLook::Hidden
            }
        },
    }
}

/// Whether any of the four rooms next to a position (north, east, south,
/// west, each absent or present) is revealed.
pub fn has_adjacent_revealed_room(neighbours: [Option<RoomView>; 4]) -> (b: bool)
    ensures
        b == exists|i: int|
            0 <= i < 4 && match #[trigger] neighbours@[i] {
                Some(r) => r.is_revealed,
                None => false,
            },
{
    let mut i: usize = 0;
    while i < 4
        invariant
            0 <= i <= 4,
            forall|k: int|
                0 <= k < i ==> match #[trigger] neighbours@[k] {
                    Some(r) => !r.is_revealed,
                    None => true,
                },
        decreases 4 - i,
    {
        if let Some(room) = neighbours[i] {
            if room.is_revealed {
                return true;
            }
        }
        i = i + 1;
    }
    false
}

/// The five characters of a minimap cell: `[ x ]` around the player marker
/// or the room's icon, `[ ? ]` for a room seen but not visited, a dot in
/// blanks for fog, and blanks for what is hidden.
pub open spec fn spec_cell_text(look: CellLook) -> Seq<char> {
    match look {
        CellLook::Current => seq!['[', ' ', ICON_PLAYER, ' ', ']'],
        CellLook::Cleared(c) => seq!['[', ' ', c, ' ', ']'],
        CellLook::Visited(c) => seq!['[', ' ', c, ' ', ']'],
        CellLook::Unknown => seq!['[', ' ', ICON_UNKNOWN, ' ', ']'],
        CellLook::Dim => seq![' ', ' ', '\u{b7}', ' ', ' '],
        CellLook::Hidden => seq![' ', ' ', ' ', ' ', ' '],
    }
}

/// The text of a minimap cell drawn as `look`; it is `CELL_WIDTH` (five)
/// characters long.
pub fn cell_text(look: CellLook) -> (t: String)
    ensures
        t@ == spec_cell_text(look),
        t@.len() == CELL_WIDTH,
{
    let (left, middle, right) = match look {
        CellLook::Current => ('[', ICON_PLAYER, ']'),
        CellLook::Cleared(c) => ('[', c, ']'),
        CellLook::Visited(c) => ('[', c, ']'),
        CellLook::Unknown => ('[', ICON_UNKNOWN, ']'),
        CellLook::Dim => (' ', '\u{b7}', ' '),
        CellLook::Hidden => (' ', ' ', ' '),
    };
    let mut t = String::new();
    push_char(&mut t, left);
    push_char(&mut t, ' ');
    push_char(&mut t, middle);
    push_char(&mut t, ' ');
    push_char(&mut t, right);
    assert(t@ =~= spec_cell_text(look));
    t
}

} // verus!
