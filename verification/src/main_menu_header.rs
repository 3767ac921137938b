//! The greeting at the top of the main menu.
use vstd::prelude::*;

use crate::text::push_str;

verus! {

/// The main menu's header, for a player of type `P`.
pub struct MainMenuHeader<'a, P> {
    pub player: &'a P,
}

impl<'a, P> MainMenuHeader<'a, P> {
    /// A header greeting `player`.
    pub fn new(player: &'a P) -> (h: Self)
        ensures
            h.player == player,
    {
        MainMenuHeader { player }
    }
}

/// "Hello, NAME", the header's text for a player called `name`.
pub fn greeting(name: &str) -> (g: String)
    ensures
        g@ == seq!['H', 'e', 'l', 'l', 'o', ',', ' '] + name@,
{
    let mut g = String::new();
    proof {
        reveal_strlit("Hello, ");
    }
    push_str(&mut g, "Hello, ");
    push_str(&mut g, name);
    g
}

} // verus!
