//! Entering a dungeon room.
use vstd::prelude::*;

use super::minimap::RoomType;
use super::screen::DungeonState;
use crate::text::{decimal, push_char, push_decimal, push_str};
use crate::toast::ToastType;

verus! {

/// Whether the room the player stands in (its type, if there is a room) can
/// be bypassed: only a monster room, and only with the dungeon-bypass
/// passive effect.
pub fn can_bypass_current_room(room_type: Option<RoomType>, has_dungeon_bypass: bool) -> (b: bool)
    ensures
        b == (room_type == Some(RoomType::Monster) && has_dungeon_bypass),
{
    match room_type {
        Some(t) => t == RoomType::Monster && has_dungeon_bypass,
        None => false,
    }
}

/// What submitting on the room entry menu leads to.
#[derive(Debug, Clone, Copy, PartialEq, Eq, Structural)]
pub enum RoomEntryStep {
    /// Nothing to do in the game; go to this view (or stay when `None`).
    Finish(Option<DungeonState>),
    /// Mark the room cleared without a fight, then go to navigation.
    Bypass,
    /// Run the enter-room command, then decide with `state_after_enter`.
    Enter(RoomType),
}

/// What submitting on the room entry menu leads to.
pub open spec fn spec_handle_submit(selected: usize, room: Option<(bool, RoomType)>, has_dungeon_bypass: bool) -> RoomEntryStep {
    match room {
        Some((true, t)) => RoomEntryStep::Finish(
            Some(
                if t == RoomType::Rest {
                    DungeonState::RestRoom
                } else {
                    DungeonState::Navigation
                },
            ),
        ),
        None => RoomEntryStep::Finish(None),
        Some((false, t)) => if selected == 1 && t == RoomType::Monster && has_dungeon_bypass {
            RoomEntryStep::Bypass
        } else {
            RoomEntryStep::Enter(t)
        },
    }
}

/// Submitting option `selected` (0: the room's action, 1: bypass when
/// offered) in the room the player stands in (`room`: whether it is
/// cleared, and its type).  A cleared room leads on (rest rooms to the rest
/// view); with no room nothing happens.
pub fn handle_submit(selected: usize, room: Option<(bool, RoomType)>, has_dungeon_bypass: bool) -> (s: RoomEntryStep)
    ensures
        s == spec_handle_submit(selected, room, has_dungeon_bypass),
        (s == RoomEntryStep::Bypass) <==> (selected == 1 && room == Some((false, RoomType::Monster))
            && has_dungeon_bypass),
        room matches Some((false, t)) ==> (selected != 1 ==> s == RoomEntryStep::Enter(t)),
{
    match room {
        Some((is_cleared, room_type)) => {
            if is_cleared {
                if room_type == RoomType::Rest {
                    RoomEntryStep::Finish(Some(DungeonState::RestRoom))
                } else {
                    RoomEntryStep::Finish(Some(DungeonState::Navigation))
                }
            } else if selected == 1 && can_bypass_current_room(Some(room_type), has_dungeon_bypass) {
                RoomEntryStep::Bypass
            } else {
                RoomEntryStep::Enter(room_type)
            }
        },
        None => RoomEntryStep::Finish(None),
    }
}

/// The view after the enter-room command ran in a room of `room_type`:
/// none when the command changed screen (a fight) or for a monster room,
/// the boss view for the boss room, navigation otherwise.
pub fn state_after_enter(room_type: RoomType, screen_changed: bool) -> (s: Option<DungeonState>)
    ensures
        s == (if screen_changed {
            None
        } else {
            match room_type {
                RoomType::Monster => None,
                RoomType::Boss => Some(DungeonState::BossRoom),
                _ => Some(DungeonState::Navigation),
            }
        }),
{
    if screen_changed {
        return None;
    }
    match room_type {
        RoomType::Monster => None,
        RoomType::Boss => Some(DungeonState::BossRoom),
        _ => Some(DungeonState::Navigation),
    }
}

/// "Found: NAME xQUANTITY", the toast for one drop from a chest.
pub open spec fn found_text(name: Seq<char>, quantity: nat) -> Seq<char> {
    seq!['F', 'o', 'u', 'n', 'd', ':', ' '] + name + seq![' ', 'x'] + decimal(quantity)
}

/// "The chest was empty."
pub open spec fn empty_chest_text() -> Seq<char> {
    seq!['T', 'h', 'e', ' ', 'c', 'h', 'e', 's', 't', ' ', 'w', 'a', 's', ' ', 'e', 'm', 'p', 't', 'y', '.']
}

/// The toasts after opening a chest that dropped `loot` (each item's name
/// and quantity): a success toast per drop, or one info toast when the
/// chest was empty.
pub fn chest_toasts(loot: &Vec<(String, u32)>) -> (toasts: Vec<(ToastType, String)>)
    ensures
        loot@.len() == 0 ==> toasts@.len() == 1 && toasts@[0].0 == ToastType::Info && toasts@[0].1@
            == empty_chest_text(),
        loot@.len() > 0 ==> toasts@.len() == loot@.len() && forall|i: int|
            0 <= i < loot@.len() ==> (#[trigger] toasts@[i]).0 == ToastType::Success && toasts@[i].1@
                == found_text(loot@[i].0@, loot@[i].1 as nat),
{
    let mut toasts: Vec<(ToastType, String)> = Vec::new();
    let n = loot.len();
    for i in 0..n
        invariant
            n == loot@.len(),
            toasts@.len() == i,
            forall|k: int|
                0 <= k < i ==> (#[trigger] toasts@[k]).0 == ToastType::Success && toasts@[k].1@
                    == found_text(loot@[k].0@, loot@[k].1 as nat),
    {
        let mut m = String::new();
        proof {
            reveal_strlit("Found: ");
        }
        push_str(&mut m, "Found: ");
        push_str(&mut m, loot[i].0.as_str());
        push_char(&mut m, ' ');
        push_char(&mut m, 'x');
        push_decimal(&mut m, loot[i].1 as u64);
        assert(m@ =~= found_text(loot@[i as int].0@, loot@[i as int].1 as nat));
        toasts.push((ToastType::Success, m));
    }
    if n == 0 {
        let mut m = String::new();
        proof {
            reveal_strlit("The chest was empty.");
        }
        push_str(&mut m, "The chest was empty.");
        assert(m@ =~= empty_chest_text());
        toasts.push((ToastType::Info, m));
    }
    toasts
}

/// Laws of submitting on the room entry menu.  With no room nothing
/// happens.  A cleared room is never entered again: it leads to the rest
/// view when it is a rest room and to navigation otherwise.  In an
/// uncleared room, the first row (and any row but the second) enters the
/// room, whatever its type and whatever the player carries; the second row
/// bypasses it exactly when bypassing is offered (a monster room with the
/// bypass effect) and enters it otherwise.  So a bypass happens only when
/// the second row was chosen.
pub proof fn lemma_room_entry_submit(selected: usize, t: RoomType, has_dungeon_bypass: bool)
    ensures
        spec_handle_submit(selected, None, has_dungeon_bypass) == RoomEntryStep::Finish(None),
        spec_handle_submit(selected, Some((true, t)), has_dungeon_bypass) == RoomEntryStep::Finish(
            Some(if t == RoomType::Rest { DungeonState::RestRoom } else { DungeonState::Navigation }),
        ),
        spec_handle_submit(0, Some((false, t)), has_dungeon_bypass) == RoomEntryStep::Enter(t),
        selected != 1 ==> spec_handle_submit(selected, Some((false, t)), has_dungeon_bypass)
            == RoomEntryStep::Enter(t),
        spec_handle_submit(1, Some((false, t)), has_dungeon_bypass) == (if t == RoomType::Monster
            && has_dungeon_bypass {
            RoomEntryStep::Bypass
        } else {
            RoomEntryStep::Enter(t)
        }),
        spec_handle_submit(selected, Some((false, t)), has_dungeon_bypass) == RoomEntryStep::Bypass
            ==> selected == 1,
{
}

} // verus!
