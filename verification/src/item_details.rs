//! The item details panel: an item's title and its stats, each compared
//! with the item equipped in the same slot.
use vstd::prelude::*;

use crate::text::{decimal, push_char, push_decimal, push_signed_decimal, push_str, signed_decimal};

verus! {

/// The colour of a comparison.
#[derive(Debug, Clone, Copy, PartialEq, Eq, Structural)]
pub enum Tint {
    /// Green: the item is better.
    Better,
    /// Red: the item is worse.
    Worse,
}

/// Text and optional tint of each segment of a stat line.
pub open spec fn segment_views(out: Seq<(String, Option<Tint>)>) -> Seq<(Seq<char>, Option<Tint>)> {
    out.map_values(|p: (String, Option<Tint>)| (p.0@, p.1))
}

/// `{icon} {name}: {value}`.
pub open spec fn stat_text(icon: char, name: Seq<char>, value: int) -> Seq<char> {
    seq![icon, ' '] + name + seq![':', ' '] + signed_decimal(value)
}

/// A stat line: the stat alone, or, when the equipped item's value
/// differs, followed by ` (↑d` in green when this item is better by `d`,
/// or ` (↓d` in red when worse, and a closing `)` in the same colour.
pub open spec fn stat_segments(icon: char, name: Seq<char>, value: int, compare: Option<i32>) -> Seq<
    (Seq<char>, Option<Tint>),
> {
    let base = stat_text(icon, name, value);
    match compare {
        Some(c) => if value == c {
            seq![(base, None)]
        } else {
            let diff = value - c;
            let (arrow, tint) = if diff > 0 {
                ('↑', Tint::Better)
            } else {
                ('↓', Tint::Worse)
            };
            let magnitude = if diff > 0 {
                diff
            } else {
                -diff
            };
            seq![
                (base, None),
                (seq![' ', '(', arrow] + decimal(magnitude as nat), Some(tint)),
                (seq![')'], Some(tint)),
            ]
        },
        None => seq![(base, None)],
    }
}

/// Formats a stat of the shown item, compared with `compare`, the value of
/// the equipped item, if there is one. The difference must fit an `i32`
/// with its sign flipped.
pub fn format_stat_with_comparison(icon: char, stat_name: &str, value: i32, compare: Option<i32>) -> (out: Vec<(String, Option<Tint>)>)
    requires
        compare is Some ==> i32::MIN < value - compare->0 <= i32::MAX,
    ensures
        segment_views(out@) == stat_segments(icon, stat_name@, value as int, compare),
{
    let mut base = String::new();
    push_char(&mut base, icon);
    push_char(&mut base, ' ');
    push_str(&mut base, stat_name);
    push_char(&mut base, ':');
    push_char(&mut base, ' ');
    push_signed_decimal(&mut base, value as i64);
    let ghost base_view = base@;
    assert(base_view =~= stat_text(icon, stat_name@, value as int));
    let mut out: Vec<(String, Option<Tint>)> = Vec::new();
    match compare {
        Some(c) => {
            if value == c {
                out.push((base, None));
            } else {
                let diff = value - c;
                let (arrow, tint) = if diff > 0 {
                    ('↑', Tint::Better)
                } else {
                    ('↓', Tint::Worse)
                };
                let magnitude: i32 = if diff > 0 {
                    diff
                } else {
                    -diff
                };
                let mut comparison = String::new();
                push_char(&mut comparison, ' ');
                push_char(&mut comparison, '(');
                push_char(&mut comparison, arrow);
                push_decimal(&mut comparison, magnitude as u64);
                let mut close = String::new();
                push_char(&mut close, ')');
                out.push((base, None));
                out.push((comparison, Some(tint)));
                out.push((close, Some(tint)));
                assert(comparison@ =~= seq![' ', '(', arrow] + decimal(magnitude as nat));
                assert(close@ =~= seq![')']);
            }
        },
        None => {
            out.push((base, None));
        },
    }
    assert(segment_views(out@) =~= stat_segments(icon, stat_name@, value as int, compare));
    out
}

/// Whether a stat gets a line: when the item has some of it, or the
/// equipped item it is compared with does.
pub fn shows_stat(value: i32, compare: Option<i32>) -> (b: bool)
    ensures
        b == (value > 0 || (compare is Some && compare->0 > 0)),
{
    value > 0 || match compare {
        Some(c) => c > 0,
        None => false,
    }
}

/// The title of the panel: `(E) ` before an equipped item's name, and the
/// number of upgrades after an equipment's, as `name (+n)`.
pub open spec fn title_text(equipped: bool, name: Seq<char>, is_equipment: bool, upgrades: nat) -> Seq<char> {
    let prefix = if equipped {
        seq!['(', 'E', ')', ' ']
    } else {
        seq![]
    };
    if is_equipment {
        prefix + name + seq![' ', '(', '+'] + decimal(upgrades) + seq![')']
    } else {
        prefix + name
    }
}

/// Builds the panel's title.
pub fn item_title(equipped: bool, name: &str, is_equipment: bool, upgrades: u32) -> (t: String)
    ensures
        t@ == title_text(equipped, name@, is_equipment, upgrades as nat),
{
    let mut t = String::new();
    if equipped {
        push_char(&mut t, '(');
        push_char(&mut t, 'E');
        push_char(&mut t, ')');
        push_char(&mut t, ' ');
    }
    push_str(&mut t, name);
    if is_equipment {
        push_char(&mut t, ' ');
        push_char(&mut t, '(');
        push_char(&mut t, '+');
        push_decimal(&mut t, upgrades as u64);
        push_char(&mut t, ')');
    }
    proof {
        let prefix = if equipped {
            seq!['(', 'E', ')', ' ']
        } else {
            Seq::<char>::empty()
        };
        if is_equipment {
            assert(t@ =~= prefix + name@ + seq![' ', '(', '+'] + decimal(upgrades as nat) + seq![')']);
        } else {
            assert(t@ =~= prefix + name@);
        }
    }
    t
}

/// The slot whose equipped item a shown item is compared with: none for an
/// item that is itself equipped or that has no slot, else its own slot.
pub fn comparison_slot<S: Copy>(is_equipped: bool, slot: Option<S>) -> (c: Option<S>)
    ensures
        c == (if is_equipped { None } else { slot }),
{
    if is_equipped {
        None
    } else {
        slot
    }
}

} // verus!
