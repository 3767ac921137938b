//! Upgrading items: the list of items to upgrade and its entries.
use vstd::prelude::*;

use super::items::upgrade_flags;
use crate::item_list::{list_config, ItemList, ListBackground};

verus! {

/// The list of items to upgrade: ten rows at a time, with a "Back" row.
pub fn create_item_list() -> (l: ItemList)
    ensures
        l.config.show_filter_button && l.config.show_scroll_indicators,
        l.config.visible_count == 10,
        l.config.show_back_button,
        l.config.back_label@ == seq!['B', 'a', 'c', 'k'],
        l.config.background == ListBackground::Transparent,
        l.selection.selected == Some(0usize),
{
    proof {
        reveal_strlit("Back");
    }
    ItemList::new(list_config(10, true, "Back", ListBackground::Transparent))
}

/// An item in the upgrade list; choosing it asks the blacksmith to upgrade
/// it.
pub struct UpgradeableItem<I> {
    pub item: I,
}

impl<I> UpgradeableItem<I> {
    /// The entry for `item`.
    pub fn new(item: I) -> (u: Self)
        ensures
            u.item == item,
    {
        UpgradeableItem { item }
    }
}

/// A row of the upgrade list: the item, what upgrading it costs, whether it
/// has reached the blacksmith's limit, and whether the player can pay.
pub struct UpgradeRow<I> {
    pub inv_item: I,
    pub upgrade_cost: i32,
    pub at_max: bool,
    pub can_afford: bool,
}

/// The rows of the upgrade list for `items`, each given with its number of
/// upgrades so far and the blacksmith's price for the next one, in the
/// items' order.
pub fn rebuild_items<I>(items: Vec<(I, u32, i32)>, max_upgrades: u32, gold: i32) -> (rows: Vec<UpgradeRow<I>>)
    ensures
        rows@.len() == items@.len(),
        forall|i: int| 0 <= i < rows@.len() ==> {
            &&& #[trigger] rows@[i].inv_item == items@[i].0
            &&& rows@[i].upgrade_cost == items@[i].2
            &&& rows@[i].at_max == (items@[i].1 >= max_upgrades)
            &&& rows@[i].can_afford == (gold >= items@[i].2)
        },
{
    let mut rows: Vec<UpgradeRow<I>> = Vec::new();
    let mut rest = items;
    let ghost start = rest@;
    while rest.len() > 0
        invariant
            rows@.len() + rest@.len() == start.len(),
            rest@ == start.subrange(rows@.len() as int, start.len() as int),
            forall|i: int| 0 <= i < rows@.len() ==> {
                &&& #[trigger] rows@[i].inv_item == start[i].0
                &&& rows@[i].upgrade_cost == start[i].2
                &&& rows@[i].at_max == (start[i].1 >= max_upgrades)
                &&& rows@[i].can_afford == (gold >= start[i].2)
            },
        decreases rest@.len(),
    {
        let (item, upgrades, cost) = rest.remove(0);
        let (at_max, can_afford) = upgrade_flags(upgrades, max_upgrades, gold, cost);
        rows.push(UpgradeRow { inv_item: item, upgrade_cost: cost, at_max, can_afford });
    }
    rows
}

} // verus!
