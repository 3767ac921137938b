//! The inventory modal: its keys, and what using a consumable reports.
use vstd::prelude::*;

use crate::command::KeyInput;
use crate::item_list::{list_config, ItemList, ListBackground};
use crate::text::{push_char, push_str};

verus! {

/// What a key asks of the inventory modal.
#[derive(Debug, Clone, Copy, PartialEq, Eq, Structural)]
pub enum InventoryKey {
    MoveUp,
    MoveDown,
    CycleFilter,
    ToggleEquip,
    ToggleDetails,
    ToggleLock,
    /// Use the highlighted consumable.
    UseSelected,
    /// Close the modal.
    Close,
    Nothing,
}

/// The inventory modal's answer to a key: the arrows move, `f` cycles the
/// filter, `e` equips or unequips, `d` toggles details, `l` locks, `u` uses
/// a consumable, and Esc or `i` close.
pub fn inventory_key_action(key: KeyInput) -> (k: InventoryKey)
    ensures
        k == (match key {
            KeyInput::Up => InventoryKey::MoveUp,
            KeyInput::Down => InventoryKey::MoveDown,
            KeyInput::Esc => InventoryKey::Close,
            KeyInput::Char(c) => if c == 'f' || c == 'F' {
                InventoryKey::CycleFilter
            } else if c == 'e' || c == 'E' {
                InventoryKey::ToggleEquip
            } else if c == 'd' {
                InventoryKey::ToggleDetails
            } else if c == 'l' {
                InventoryKey::ToggleLock
            } else if c == 'u' || c == 'U' {
                InventoryKey::UseSelected
            } else if c == 'i' {
                InventoryKey::Close
            } else {
                InventoryKey::Nothing
            },
            _ => InventoryKey::Nothing,
        }),
{
    match key {
        KeyInput::Up => InventoryKey::MoveUp,
        KeyInput::Down => InventoryKey::MoveDown,
        KeyInput::Esc => InventoryKey::Close,
        KeyInput::Char(c) => {
            if c == 'f' || c == 'F' {
                InventoryKey::CycleFilter
            } else if c == 'e' || c == 'E' {
                InventoryKey::ToggleEquip
            } else if c == 'd' {
                InventoryKey::ToggleDetails
            } else if c == 'l' {
                InventoryKey::ToggleLock
            } else if c == 'u' || c == 'U' {
                InventoryKey::UseSelected
            } else if c == 'i' {
                InventoryKey::Close
            } else {
                InventoryKey::Nothing
            }
        },
        _ => InventoryKey::Nothing,
    }
}

/// How using the highlighted item went.
pub enum ConsumableUse {
    /// The item is not a consumable.
    NotConsumable,
    /// Used; the item's name and what it did.
    Used { item_name: String, description: String },
    AlreadyAtFullHealth,
    NoEffectRegistered,
    /// Any other refusal.
    Failed,
}

/// Whether `needle` occurs in `hay`.
pub open spec fn occurs_in(needle: Seq<char>, hay: Seq<char>) -> bool {
    exists|i: int| 0 <= i && i + needle.len() <= hay.len() && #[trigger] hay.subrange(i, i + needle.len()) == needle
}

/// The message after using an item.
pub open spec fn use_text(u: ConsumableUse) -> Seq<char> {
    match u {
        ConsumableUse::Used { item_name, description } => seq!['U', 's', 'e', 'd', ' '] + item_name@
            + seq!['!', ' '] + description@,
        ConsumableUse::AlreadyAtFullHealth => seq![
            'A', 'l', 'r', 'e', 'a', 'd', 'y', ' ', 'a', 't', ' ', 'f', 'u', 'l', 'l', ' ', 'h', 'e',
            'a', 'l', 't', 'h', '!'
        ],
        ConsumableUse::NoEffectRegistered => seq![
            'T', 'h', 'i', 's', ' ', 'i', 't', 'e', 'm', ' ', 'h', 'a', 's', ' ', 'n', 'o', ' ', 'e',
            'f', 'f', 'e', 'c', 't'
        ],
        _ => seq![
            'C', 'a', 'n', 'n', 'o', 't', ' ', 'u', 's', 'e', ' ', 't', 'h', 'i', 's', ' ', 'i', 't',
            'e', 'm'
        ],
    }
}

/// Whether a message reads as a refusal: it holds "Cannot", "Already" or
/// "no effect".
pub open spec fn reads_as_refusal(m: Seq<char>) -> bool {
    occurs_in(seq!['C', 'a', 'n', 'n', 'o', 't'], m) || occurs_in(
        seq!['A', 'l', 'r', 'e', 'a', 'd', 'y'],
        m,
    ) || occurs_in(seq!['n', 'o', ' ', 'e', 'f', 'f', 'e', 'c', 't'], m)
}

fn chars_of(s: &str) -> (v: Vec<char>)
    ensures
        v@ == s@,
{
    let mut v: Vec<char> = Vec::new();
    for c in it: s.chars()
        invariant
            it.seq() == s@,
            v@ == s@.take(it.index() as int),
    {
        v.push(c);
        assert(s@.take(it.index() + 1) =~= v@);
    }
    assert(s@.take(s@.len() as int) =~= s@);
    v
}

/// Whether `needle` occurs in `hay`, looked for position by position.
fn text_contains(hay: &Vec<char>, needle: &str) -> (b: bool)
    ensures
        b == occurs_in(needle@, hay@),
{
    let n = chars_of(needle);
    if n.len() > hay.len() {
        assert(!occurs_in(needle@, hay@));
        return false;
    }
    let last = hay.len() - n.len();
    let mut i: usize = 0;
    while i <= last
        invariant
            n@ == needle@,
            last == hay.len() - n.len(),
            n.len() <= hay.len(),
            forall|j: int| 0 <= j < i ==> #[trigger] hay@.subrange(j, j + n@.len()) != n@,
        decreases last + 1 - i,
    {
        let mut k: usize = 0;
        let mut same = true;
        while k < n.len()
            invariant
                i <= last,
                last == hay.len() - n.len(),
                0 <= k <= n.len(),
                same == (forall|m: int| 0 <= m < k ==> hay@[i + m] == n@[m]),
            decreases n.len() - k,
        {
            if hay[i + k] != n[k] {
                same = false;
            }
            k = k + 1;
        }
        if same {
            assert(hay@.subrange(i as int, i + n@.len()) =~= n@);
            return true;
        }
        proof {
            let m = choose|m: int| 0 <= m < n.len() && hay@[i + m] != n@[m];
            assert(hay@.subrange(i as int, i + n@.len())[m] != n@[m]);
        }
        i = i + 1;
    }
    assert forall|j: int| 0 <= j && j + needle@.len() <= hay@.len() implies #[trigger] hay@.subrange(
        j,
        j + needle@.len(),
    ) != needle@ by {
        assert(j < i);
    }
    false
}

/// The toast after using an item: its text, and whether it is an error
/// toast (the text holds "Cannot", "Already" or "no effect").
pub fn consumable_message(u: ConsumableUse) -> (m: (String, bool))
    ensures
        m.0@ == use_text(u),
        m.1 == reads_as_refusal(use_text(u)),
{
    let ghost text = use_text(u);
    let mut s = String::new();
    match u {
        ConsumableUse::Used { item_name, description } => {
            proof {
                reveal_strlit("Used ");
            }
            push_str(&mut s, "Used ");
            push_str(&mut s, item_name.as_str());
            push_char(&mut s, '!');
            push_char(&mut s, ' ');
            push_str(&mut s, description.as_str());
        },
        ConsumableUse::AlreadyAtFullHealth => {
            proof {
                reveal_strlit("Already at full health!");
            }
            push_str(&mut s, "Already at full health!");
        },
        ConsumableUse::NoEffectRegistered => {
            proof {
                reveal_strlit("This item has no effect");
            }
            push_str(&mut s, "This item has no effect");
        },
        _ => {
            proof {
                reveal_strlit("Cannot use this item");
            }
            push_str(&mut s, "Cannot use this item");
        },
    }
    assert(s@ =~= text);
    let hay = chars_of(s.as_str());
    proof {
        reveal_strlit("Cannot");
        reveal_strlit("Already");
        reveal_strlit("no effect");
    }
    let cannot = text_contains(&hay, "Cannot");
    let already = text_contains(&hay, "Already");
    let no_effect = text_contains(&hay, "no effect");
    assert("Cannot"@ =~= seq!['C', 'a', 'n', 'n', 'o', 't']);
    assert("Already"@ =~= seq!['A', 'l', 'r', 'e', 'a', 'd', 'y']);
    assert("no effect"@ =~= seq!['n', 'o', ' ', 'e', 'f', 'f', 'e', 'c', 't']);
    (s, cannot || already || no_effect)
}

/// Law of the use messages: every refusal is reported as an error toast.
pub proof fn lemma_refusals_are_errors()
    ensures
        reads_as_refusal(use_text(ConsumableUse::NotConsumable)),
        reads_as_refusal(use_text(ConsumableUse::AlreadyAtFullHealth)),
        reads_as_refusal(use_text(ConsumableUse::NoEffectRegistered)),
        reads_as_refusal(use_text(ConsumableUse::Failed)),
{
    let w1 = seq!['C', 'a', 'n', 'n', 'o', 't'];
    let w2 = seq!['A', 'l', 'r', 'e', 'a', 'd', 'y'];
    let w3 = seq!['n', 'o', ' ', 'e', 'f', 'f', 'e', 'c', 't'];
    let cannot = use_text(ConsumableUse::Failed);
    assert(use_text(ConsumableUse::NotConsumable) == cannot);
    assert(cannot.subrange(0, 0 + w1.len() as int) =~= w1);
    let full = use_text(ConsumableUse::AlreadyAtFullHealth);
    assert(full.subrange(0, 0 + w2.len() as int) =~= w2);
    let none = use_text(ConsumableUse::NoEffectRegistered);
    assert(none.subrange(14, 14 + w3.len() as int) =~= w3);
}

/// What is left of an item after one use: one fewer, or nothing (the item
/// leaves the inventory) when it was the last.
pub fn quantity_after_use(quantity: u32) -> (q: Option<u32>)
    ensures
        q == (if quantity > 1 {
            Some((quantity - 1) as u32)
        } else {
            None
        }),
{
    if quantity > 1 {
        Some(quantity - 1)
    } else {
        None
    }
}

/// The inventory modal: its list of the player's items.
pub struct InventoryModal {
    pub item_list: ItemList,
}

impl InventoryModal {
    /// The modal's list: ten rows at a time, with a filter button and scroll
    /// indicators, no back row, on the parchment background.
    pub fn new() -> (m: Self)
        ensures
            m.item_list.config.show_filter_button && m.item_list.config.show_scroll_indicators,
            m.item_list.config.visible_count == 10,
            !m.item_list.config.show_back_button,
            m.item_list.config.back_label@ == seq!['B', 'a', 'c', 'k'],
            m.item_list.config.background == ListBackground::Parchment,
            m.item_list.selection.selected == Some(0usize),
    {
        proof {
            reveal_strlit("Back");
        }
        InventoryModal { item_list: ItemList::new(list_config(10, false, "Back", ListBackground::Parchment)) }
    }

    /// When the modal opens, its list goes back to the first row (the game
    /// then refills it with the player's items).
    pub fn reset(&mut self)
        ensures
            final(self).item_list.config == old(self).item_list.config,
            final(self).item_list.selection.selected == Some(0usize),
    {
        self.item_list.reset_selection();
    }
}

} // verus!
