//! The icons of the game's labels and menus (Nerd Font characters).
use vstd::prelude::*;

verus! {

/// The coin icon.
pub const COIN: char = '\u{EDE8}';
/// The crossed swords icon.
pub const CROSSED_SWORDS: char = '\u{f0787}';
/// The store icon.
pub const STORE: char = '\u{ee17}';
/// The person icon.
pub const PERSON: char = '\u{F415}';
/// The shirt icon.
pub const SHIRT: char = '\u{EE1C}';
/// The open door icon.
pub const OPEN_DOOR: char = '\u{F081C}';
/// The anvil icon.
pub const ANVIL: char = '\u{F089B}';
/// The double up arrow icon.
pub const DOUBLE_ARROW_UP: char = '\u{F102}';
/// The house icon.
pub const HOUSE: char = '\u{F015}';
/// The return arrow icon.
pub const RETURN_ARROW: char = '\u{F17B1}';
/// The hammer icon.
pub const HAMMER: char = '\u{EEFF}';
/// The lock icon.
pub const LOCK: char = '\u{F023}';
/// The hourglass icon.
pub const HOURGLASS: char = '\u{F252}';
/// The fire icon.
pub const FIRE: char = '\u{F0238}';
/// The flask icon.
pub const FLASK: char = '\u{F0093}';

} // verus!
