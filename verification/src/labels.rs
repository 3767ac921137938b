//! Small labels shared by the lists: the selection marker, the lock icon,
//! item names with their upgrades or quantity, and the location headers.
use vstd::prelude::*;

use crate::icons::{COIN, DOUBLE_ARROW_UP, HAMMER, HOURGLASS, LOCK};
use crate::store::menu::{restock_timer_text, spec_restock_timer};
use crate::text::{decimal, push_char, push_decimal, push_signed_decimal, push_str, signed_decimal};

verus! {

/// The marker before a list row: `> ` (drawn highlighted) on the selected
/// row, two spaces on the others.
pub fn selection_prefix(is_selected: bool) -> (p: (String, bool))
    ensures
        p.0@ == (if is_selected {
            seq!['>', ' ']
        } else {
            seq![' ', ' ']
        }),
        p.1 == is_selected,
{
    let mut s = String::new();
    if is_selected {
        push_char(&mut s, '>');
    } else {
        push_char(&mut s, ' ');
    }
    push_char(&mut s, ' ');
    (s, is_selected)
}

/// The lock icon and a space before a locked item, nothing before others.
pub fn lock_prefix(is_locked: bool) -> (p: String)
    ensures
        p@ == (if is_locked {
            seq![LOCK, ' ']
        } else {
            seq![]
        }),
{
    let mut s = String::new();
    if is_locked {
        push_char(&mut s, LOCK);
        push_char(&mut s, ' ');
    }
    proof {
        if !is_locked {
            assert(s@ =~= Seq::<char>::empty());
        }
    }
    s
}

/// An item as a list shows it: equipment as `name (+upgrades)`, other
/// items as `name (xquantity)` when a quantity is given, else the name.
pub open spec fn display_text(name: Seq<char>, is_equipment: bool, upgrades: nat, quantity: Option<u32>) -> Seq<char> {
    if is_equipment {
        name + seq![' ', '(', '+'] + decimal(upgrades) + seq![')']
    } else {
        match quantity {
            Some(q) => name + seq![' ', '(', 'x'] + decimal(q as nat) + seq![')'],
            None => name,
        }
    }
}

/// Builds an item's list text.
pub fn item_display(name: &str, is_equipment: bool, upgrades: u32, quantity: Option<u32>) -> (t: String)
    ensures
        t@ == display_text(name@, is_equipment, upgrades as nat, quantity),
{
    let mut t = String::new();
    push_str(&mut t, name);
    if is_equipment {
        push_char(&mut t, ' ');
        push_char(&mut t, '(');
        push_char(&mut t, '+');
        push_decimal(&mut t, upgrades as u64);
        push_char(&mut t, ')');
        assert(t@ =~= name@ + seq![' ', '(', '+'] + decimal(upgrades as nat) + seq![')']);
    } else {
        match quantity {
            Some(q) => {
                push_char(&mut t, ' ');
                push_char(&mut t, '(');
                push_char(&mut t, 'x');
                push_decimal(&mut t, q as u64);
                push_char(&mut t, ')');
                assert(t@ =~= name@ + seq![' ', '(', 'x'] + decimal(q as nat) + seq![')']);
            },
            None => {
                assert(t@ =~= name@);
            },
        }
    }
    t
}

/// The two lines of the blacksmith's header: the name; then the player's
/// gold, the blacksmith's upgrade limit and the player's upgrade stones,
/// each after its icon and parted by `  |  `.
pub open spec fn blacksmith_stats_text(gold: int, max_upgrades: nat, stones: nat) -> Seq<char> {
    seq![COIN, ' '] + signed_decimal(gold) + seq![' ', ' ', '|', ' ', ' '] + seq![HAMMER, ' ']
        + decimal(max_upgrades) + seq![' ', ' ', '|', ' ', ' '] + seq![DOUBLE_ARROW_UP, ' ']
        + decimal(stones)
}

/// Builds the blacksmith's header lines.
pub fn blacksmith_header(name: &str, gold: i32, max_upgrades: u32, stones: u32) -> (lines: (
    String,
    String,
))
    ensures
        lines.0@ == name@,
        lines.1@ == blacksmith_stats_text(gold as int, max_upgrades as nat, stones as nat),
{
    let mut title = String::new();
    push_str(&mut title, name);
    let mut stats = String::new();
    push_char(&mut stats, COIN);
    push_char(&mut stats, ' ');
    push_signed_decimal(&mut stats, gold as i64);
    push_separator(&mut stats);
    push_char(&mut stats, HAMMER);
    push_char(&mut stats, ' ');
    push_decimal(&mut stats, max_upgrades as u64);
    push_separator(&mut stats);
    push_char(&mut stats, DOUBLE_ARROW_UP);
    push_char(&mut stats, ' ');
    push_decimal(&mut stats, stones as u64);
    assert(title@ =~= name@);
    assert(stats@ =~= blacksmith_stats_text(gold as int, max_upgrades as nat, stones as nat));
    (title, stats)
}

/// The second line of the store's header: the player's gold and the time
/// until the store restocks, each after its icon.
pub open spec fn store_stats_text(gold: int, restock_secs: nat) -> Seq<char> {
    seq![COIN, ' '] + signed_decimal(gold) + seq![' ', ' ', '|', ' ', ' '] + seq![HOURGLASS, ' ']
        + spec_restock_timer(restock_secs)
}

/// Builds the store's header lines: its name, then the stats line.
pub fn store_header(name: &str, gold: i32, restock_secs: u64) -> (lines: (String, String))
    ensures
        lines.0@ == name@,
        lines.1@ == store_stats_text(gold as int, restock_secs as nat),
{
    let mut title = String::new();
    push_str(&mut title, name);
    let mut stats = String::new();
    push_char(&mut stats, COIN);
    push_char(&mut stats, ' ');
    push_signed_decimal(&mut stats, gold as i64);
    push_separator(&mut stats);
    push_char(&mut stats, HOURGLASS);
    push_char(&mut stats, ' ');
    let timer = restock_timer_text(restock_secs);
    push_str(&mut stats, timer.as_str());
    assert(title@ =~= name@);
    assert(stats@ =~= store_stats_text(gold as int, restock_secs as nat));
    (title, stats)
}

fn push_separator(s: &mut String)
    ensures
        final(s)@ == old(s)@ + seq![' ', ' ', '|', ' ', ' '],
{
    push_char(s, ' ');
    push_char(s, ' ');
    push_char(s, '|');
    push_char(s, ' ');
    push_char(s, ' ');
    assert(s@ =~= old(s)@ + seq![' ', ' ', '|', ' ', ' ']);
}

} // verus!
