//! The profile modal: the player's stats and a scrolling list of passive
//! effects.
use vstd::prelude::*;

use crate::command::KeyInput;
use crate::text::{decimal, push_decimal, push_signed_decimal, push_str, signed_decimal};

verus! {

/// The profile modal: the highlighted row of its passive-effects list.
pub struct ProfileModal {
    pub selected: usize,
}

impl ProfileModal {
    /// The modal with the first passive effect highlighted.
    pub fn new() -> (m: Self)
        ensures
            m.selected == 0,
    {
        ProfileModal { selected: 0 }
    }

    /// When the modal opens, the highlight goes back to the first effect.
    pub fn reset(&mut self)
        ensures
            final(self).selected == 0,
    {
        self.selected = 0;
    }
}

/// The equipment bonus after a stat: ` (+n)` when the equipment adds to the
/// stat, nothing otherwise.
pub fn bonus_text(bonus: i32) -> (t: String)
    ensures
        t@ == (if bonus > 0 { " (+"@ + decimal(bonus as nat) + ")"@ } else { Seq::<char>::empty() }),
{
    let mut t = String::new();
    if bonus > 0 {
        push_str(&mut t, " (+");
        push_decimal(&mut t, bonus as u64);
        push_str(&mut t, ")");
    }
    t
}

/// A find chance as the stats column shows it: `+n%`.
pub fn percent_text(percent: i32) -> (t: String)
    ensures
        t@ == "+"@ + signed_decimal(percent as int) + "%"@,
{
    let mut t = String::new();
    push_str(&mut t, "+");
    push_signed_decimal(&mut t, percent as i64);
    push_str(&mut t, "%");
    t
}

/// A value out of a maximum, as health and experience show: `a/b`.
pub fn ratio_text(value: i64, max: i64) -> (t: String)
    ensures
        t@ == signed_decimal(value as int) + "/"@ + signed_decimal(max as int),
{
    let mut t = String::new();
    push_signed_decimal(&mut t, value);
    push_str(&mut t, "/");
    push_signed_decimal(&mut t, max);
    t
}

/// What a key does on the profile modal.
#[derive(Debug, Clone, Copy, PartialEq, Eq, Structural)]
pub enum ProfileInput {
    /// Close the modal.
    Close,
    /// Move the passive-effects highlight up.
    ScrollUp,
    /// Move the passive-effects highlight down.
    ScrollDown,
    /// Nothing.
    Nothing,
}

impl ProfileModal {
    /// The answer to a key: Esc or `p` closes the modal, the vertical arrows
    /// scroll the passive effects, other keys do nothing.
    pub fn handle_input(&self, key: KeyInput) -> (r: ProfileInput)
        ensures
            r == (match key {
                KeyInput::Esc => ProfileInput::Close,
                KeyInput::Char(c) => if c == 'p' { ProfileInput::Close } else { ProfileInput::Nothing },
                KeyInput::Up => ProfileInput::ScrollUp,
                KeyInput::Down => ProfileInput::ScrollDown,
                _ => ProfileInput::Nothing,
            }),
    {
        match key {
            KeyInput::Esc => ProfileInput::Close,
            KeyInput::Char(c) => if c == 'p' { ProfileInput::Close } else { ProfileInput::Nothing },
            KeyInput::Up => ProfileInput::ScrollUp,
            KeyInput::Down => ProfileInput::ScrollDown,
            _ => ProfileInput::Nothing,
        }
    }
}

/// The level after the player's name: `Lv. n`.
pub fn level_text(level: i64) -> (t: String)
    ensures
        t@ == "Lv. "@ + signed_decimal(level as int),
{
    let mut t = String::new();
    push_str(&mut t, "Lv. ");
    push_signed_decimal(&mut t, level);
    t
}

/// A stat's value as the column shows it.
pub fn number_text(value: i64) -> (t: String)
    ensures
        t@ == signed_decimal(value as int),
{
    let mut t = String::new();
    push_signed_decimal(&mut t, value);
    t
}

} // verus!
