//! Fighting the dungeon boss.
use vstd::prelude::*;

use super::screen::DungeonState;

verus! {

/// Whether an attack is made: only while the boss is alive.
pub fn handle_submit(boss_alive: bool) -> (attack: bool)
    ensures
        attack == boss_alive,
{
    boss_alive
}

/// After an attack: the message the attack produced (if any) is added to
/// the combat log; a cleared room (boss defeated) leads to navigation,
/// otherwise the player stays in the boss room.
pub fn after_attack(boss_combat_log: &mut Vec<String>, message: Option<String>, room_cleared: bool) -> (s: Option<DungeonState>)
    ensures
        final(boss_combat_log)@ == (match message {
            Some(m) => old(boss_combat_log)@.push(m),
            None => old(boss_combat_log)@,
        }),
        s == (if room_cleared {
            Some(DungeonState::Navigation)
        } else {
            None
        }),
{
    if let Some(text) = message {
        boss_combat_log.push(text);
    }
    if room_cleared {
        Some(DungeonState::Navigation)
    } else {
        None
    }
}

} // verus!
