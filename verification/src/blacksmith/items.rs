//! A list of items with a back row at the end: the blacksmith's upgradeable
//! items (equipped weapon and off-hand, then the inventory) and the
//! equipment screen's slots.
use vstd::prelude::*;

use super::upgrade::UpgradeableItem;
use crate::command::KeyInput;
use crate::command::Screen;
use crate::menu_component::wrap_down;
use crate::menu_component::wrap_up;
use crate::selection::current_row;
use crate::selection::Selection;

verus! {

/// What a key on the item list asks for.
#[derive(Debug, Clone, Copy, PartialEq, Eq, Structural)]
pub enum ItemsEvent {
    /// Nothing (or only the highlight moved).
    Nothing,
    /// Choose item number `i` (upgrade it, or run its action).
    Choose(usize),
    /// Leave for a screen.
    GoTo(Screen),
}

/// Handles a key on a list of `item_count` items and a back row: the arrows
/// move the highlight (wrapping), Enter chooses the highlighted item or, on
/// the back row, leaves for `back`, and Esc leaves for `back`.
pub fn on_key(list_state: &mut Selection, item_count: usize, key: KeyInput, back: Screen) -> (e: ItemsEvent)
    requires
        item_count < usize::MAX,
        key == KeyInput::Down ==> current_row(*old(list_state)) < usize::MAX,
    ensures
        key == KeyInput::Up ==> final(list_state).selected == Some(
            wrap_up(current_row(*old(list_state)), item_count as nat + 1) as usize,
        ) && e == ItemsEvent::Nothing,
        key == KeyInput::Down ==> final(list_state).selected == Some(
            wrap_down(current_row(*old(list_state)), item_count as nat + 1) as usize,
        ) && e == ItemsEvent::Nothing,
        key != KeyInput::Up && key != KeyInput::Down ==> *final(list_state) == *old(list_state),
        key == KeyInput::Enter ==> e == (if current_row(*old(list_state)) == item_count {
            ItemsEvent::GoTo(back)
        } else if current_row(*old(list_state)) < item_count {
            ItemsEvent::Choose(current_row(*old(list_state)) as usize)
        } else {
            ItemsEvent::Nothing
        }),
        key == KeyInput::Esc ==> e == ItemsEvent::GoTo(back),
        key != KeyInput::Up && key != KeyInput::Down && key != KeyInput::Enter && key
            != KeyInput::Esc ==> e == ItemsEvent::Nothing,
{
    let total_items = item_count + 1;
    match key {
        KeyInput::Up => {
            let current = list_state.current();
            let new_idx = if current == 0 {
                total_items - 1
            } else {
                current - 1
            };
            list_state.select(Some(new_idx));
            ItemsEvent::Nothing
        },
        KeyInput::Down => {
            let current = list_state.current();
            let new_idx = (current + 1) % total_items;
            list_state.select(Some(new_idx));
            ItemsEvent::Nothing
        },
        KeyInput::Enter => {
            let selected = list_state.current();
            if selected == item_count {
                ItemsEvent::GoTo(back)
            } else if selected < item_count {
                ItemsEvent::Choose(selected)
            } else {
                ItemsEvent::Nothing
            }
        },
        KeyInput::Esc => ItemsEvent::GoTo(back),
        _ => ItemsEvent::Nothing,
    }
}

/// How an item shows in the upgrade list: whether it has reached the
/// blacksmith's upgrade limit, and whether the player's gold covers the
/// upgrade's cost.
pub fn upgrade_flags(num_upgrades: u32, max_upgrades: u32, gold: i32, cost: i32) -> (f: (bool, bool))
    ensures
        f.0 == (num_upgrades >= max_upgrades),
        f.1 == (gold >= cost),
{
    (num_upgrades >= max_upgrades, gold >= cost)
}

/// The items of an optional slot: the item, if there is one.
pub open spec fn slot_items<I>(slot: Option<I>) -> Seq<I> {
    match slot {
        Some(item) => seq![item],
        None => seq![],
    }
}

/// The items of the upgrade list, in order: the equipped weapon, the
/// equipped off-hand item, then the backpack's items.
pub open spec fn upgradeable_items<I>(weapon: Option<I>, off_hand: Option<I>, backpack: Seq<I>) -> Seq<I> {
    slot_items(weapon) + slot_items(off_hand) + backpack
}

/// The entries of the upgrade list: the equipped weapon, the equipped
/// off-hand item, then every item of the backpack, in its order.
pub fn rebuild_items<I>(weapon: Option<I>, off_hand: Option<I>, backpack: Vec<I>) -> (items: Vec<UpgradeableItem<I>>)
    ensures
        items@.len() == upgradeable_items(weapon, off_hand, backpack@).len(),
        forall|i: int| 0 <= i < items@.len() ==> #[trigger] items@[i].item
            == upgradeable_items(weapon, off_hand, backpack@)[i],
{
    let ghost all = upgradeable_items(weapon, off_hand, backpack@);
    let ghost head = slot_items(weapon) + slot_items(off_hand);
    let mut items: Vec<UpgradeableItem<I>> = Vec::new();
    match weapon {
        Some(w) => items.push(UpgradeableItem::new(w)),
        None => {},
    }
    match off_hand {
        Some(o) => items.push(UpgradeableItem::new(o)),
        None => {},
    }
    assert(items@.len() == head.len());
    let mut rest = backpack;
    let ghost start = rest@;
    while rest.len() > 0
        invariant
            all == head + start,
            items@.len() + rest@.len() == all.len(),
            rest@ == start.subrange(items@.len() - head.len(), start.len() as int),
            head.len() <= items@.len(),
            forall|i: int| 0 <= i < items@.len() ==> #[trigger] items@[i].item == all[i],
        decreases rest@.len(),
    {
        let x = rest.remove(0);
        items.push(UpgradeableItem::new(x));
    }
    items
}

/// Where an item to upgrade is found: in the weapon slot, in the off-hand
/// slot, at an index of the backpack, or nowhere.
#[derive(Debug, Clone, Copy, PartialEq, Eq, Structural)]
pub enum UpgradeTarget {
    Weapon,
    OffHand,
    Backpack(usize),
    Missing,
}

/// Where the item with id `id` is upgraded in place, looking first at the
/// equipped weapon, then at the equipped off-hand item, then at the first
/// backpack item with that id: an equipped item is upgraded in its slot,
/// a backpack item at its index.
pub fn upgrade_target(id: u128, weapon: Option<u128>, off_hand: Option<u128>, backpack: &Vec<u128>) -> (t: UpgradeTarget)
    ensures
        weapon == Some(id) ==> t == UpgradeTarget::Weapon,
        weapon != Some(id) && off_hand == Some(id) ==> t == UpgradeTarget::OffHand,
        weapon != Some(id) && off_hand != Some(id) ==> match t {
            UpgradeTarget::Backpack(i) => i < backpack@.len() && backpack@[i as int] == id
                && forall|j: int| 0 <= j < i ==> backpack@[j] != id,
            UpgradeTarget::Missing => forall|j: int| 0 <= j < backpack@.len() ==> backpack@[j] != id,
            _ => false,
        },
{
    if weapon == Some(id) {
        return UpgradeTarget::Weapon;
    }
    if off_hand == Some(id) {
        return UpgradeTarget::OffHand;
    }
    for i in 0..backpack.len()
        invariant
            weapon != Some(id),
            off_hand != Some(id),
            forall|j: int| 0 <= j < i ==> backpack@[j] != id,
    {
        if backpack[i] == id {
            return UpgradeTarget::Backpack(i);
        }
    }
    UpgradeTarget::Missing
}

} // verus!
