//! The equipment screen's entries.
use vstd::prelude::*;

verus! {

/// What choosing a piece of equipment does: take it off its slot, or put
/// it on from the inventory.
#[derive(Debug, Clone, Copy, PartialEq, Eq, Structural)]
pub enum EquipAction<S> {
    Unequip(S),
    EquipFromInventory(S),
}

/// A piece of equipment in the equipment list, with what choosing it does.
pub struct EquipmentItem<I, S> {
    pub item: I,
    pub action: EquipAction<S>,
}

impl<I, S> EquipmentItem<I, S> {
    /// The entry for `item` in `slot`: an equipped item is taken off, any
    /// other is put on.
    pub fn new(item: I, is_equipped: bool, slot: S) -> (e: Self)
        ensures
            e.item == item,
            e.action == (if is_equipped {
                EquipAction::Unequip(slot)
            } else {
                EquipAction::EquipFromInventory(slot)
            }),
    {
        let action = if is_equipped {
            EquipAction::Unequip(slot)
        } else {
            EquipAction::EquipFromInventory(slot)
        };
        EquipmentItem { item, action }
    }
}

} // verus!
