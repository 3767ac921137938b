//! Resting in a dungeon rest room.
use vstd::prelude::*;

use super::screen::DungeonState;
use crate::text::{push_signed_decimal, push_str, signed_decimal};
use crate::toast::ToastType;

verus! {

/// What choosing an option in the rest room does.
#[derive(Debug, Clone, Copy, PartialEq, Eq, Structural)]
pub enum RestOutcome {
    /// Heal by this many hit points and stay.
    Heal(i32),
    /// Already at full health; stay.
    AlreadyFull,
    /// Go to this view (or stay when `None`).
    Leave(Option<DungeonState>),
}

/// Choosing option `rest_selection` (0: rest, 1: continue) with `hp` of
/// `max_hp` hit points; `half_max_hp` is half of the maximum, rounded, the
/// most one rest restores.  A rest heals that much, but never beyond the
/// maximum.
pub fn handle_submit(rest_selection: usize, hp: i32, max_hp: i32, half_max_hp: i32) -> (o: RestOutcome)
    requires
        rest_selection == 0 && hp < max_hp ==> max_hp - hp <= i32::MAX,
    ensures
        o == (if rest_selection == 0 {
            if hp < max_hp {
                RestOutcome::Heal(
                    if half_max_hp < max_hp - hp {
                        half_max_hp
                    } else {
                        (max_hp - hp) as i32
                    },
                )
            } else {
                RestOutcome::AlreadyFull
            }
        } else if rest_selection == 1 {
            RestOutcome::Leave(Some(DungeonState::Navigation))
        } else {
            RestOutcome::Leave(None)
        }),
{
    if rest_selection == 0 {
        if hp < max_hp {
            let missing = max_hp - hp;
            let actual_heal = if half_max_hp < missing {
                half_max_hp
            } else {
                missing
            };
            RestOutcome::Heal(actual_heal)
        } else {
            RestOutcome::AlreadyFull
        }
    } else if rest_selection == 1 {
        RestOutcome::Leave(Some(DungeonState::Navigation))
    } else {
        RestOutcome::Leave(None)
    }
}

/// "Rested and recovered N HP!"
pub open spec fn rested_text(amount: int) -> Seq<char> {
    seq!['R', 'e', 's', 't', 'e', 'd', ' ', 'a', 'n', 'd', ' ', 'r', 'e', 'c', 'o', 'v', 'e', 'r', 'e', 'd', ' ']
        + signed_decimal(amount) + seq![' ', 'H', 'P', '!']
}

/// The toast after choosing in the rest room: a success toast naming the
/// hit points healed, an info toast at full health, none when leaving.
pub fn rest_toast(outcome: RestOutcome) -> (t: Option<(ToastType, String)>)
    ensures
        match outcome {
            RestOutcome::Heal(n) => t matches Some((k, m)) && k == ToastType::Success && m@
                == rested_text(n as int),
            RestOutcome::AlreadyFull => t matches Some((k, m)) && k == ToastType::Info && m@ == seq![
                'A', 'l', 'r', 'e', 'a', 'd', 'y', ' ', 'a', 't', ' ', 'f', 'u', 'l', 'l', ' ', 'h',
                'e', 'a', 'l', 't', 'h', '!'
            ],
            RestOutcome::Leave(_) => t is None,
        },
{
    match outcome {
        RestOutcome::Heal(n) => {
            let mut m = String::new();
            proof {
                reveal_strlit("Rested and recovered ");
                reveal_strlit(" HP!");
            }
            push_str(&mut m, "Rested and recovered ");
            push_signed_decimal(&mut m, n as i64);
            push_str(&mut m, " HP!");
            assert(m@ =~= rested_text(n as int));
            Some((ToastType::Success, m))
        },
        RestOutcome::AlreadyFull => {
            let mut m = String::new();
            proof {
                reveal_strlit("Already at full health!");
            }
            push_str(&mut m, "Already at full health!");
            Some((ToastType::Info, m))
        },
        RestOutcome::Leave(_) => None,
    }
}

} // verus!
