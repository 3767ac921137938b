//! Buying and selling at the store: the messages shown to the player.
use vstd::prelude::*;

use crate::text::push_str;
use crate::text::push_char;

verus! {

/// Why a purchase failed.
#[derive(Debug, Clone, Copy, PartialEq, Eq, Structural)]
pub enum StoreError {
    OutOfStock,
    NotEnoughGold,
    InventoryFull,
    InvalidIndex,
}

/// The text of the toast for a failed purchase.
pub open spec fn spec_store_error_message(e: StoreError) -> Seq<char> {
    match e {
        StoreError::OutOfStock => seq!['O','u','t',' ','o','f',' ','s','t','o','c','k'],
        StoreError::NotEnoughGold => seq!['N','o','t',' ','e','n','o','u','g','h',' ','g','o','l','d'],
        StoreError::InventoryFull => seq!['I','n','v','e','n','t','o','r','y',' ','i','s',' ','f','u','l','l'],
        StoreError::InvalidIndex => seq!['I','t','e','m',' ','n','o','t',' ','f','o','u','n','d'],
    }
}

/// The error toast for a failed purchase.
pub fn store_error_message(e: StoreError) -> (m: &'static str)
    ensures
        m@ == spec_store_error_message(e),
{
    match e {
        StoreError::OutOfStock => {
            proof {
                reveal_strlit("Out of stock");
            }
            "Out of stock"
        },
        StoreError::NotEnoughGold => {
            proof {
                reveal_strlit("Not enough gold");
            }
            "Not enough gold"
        },
        StoreError::InventoryFull => {
            proof {
                reveal_strlit("Inventory is full");
            }
            "Inventory is full"
        },
        StoreError::InvalidIndex => {
            proof {
                reveal_strlit("Item not found");
            }
            "Item not found"
        },
    }
}

/// "Purchased NAME!", the toast after buying `name`.
pub fn purchase_message(name: &str) -> (m: String)
    ensures
        m@ == seq!['P','u','r','c','h','a','s','e','d',' '] + name@ + seq!['!'],
{
    let mut m = String::new();
    proof {
        reveal_strlit("Purchased ");
    }
    push_str(&mut m, "Purchased ");
    push_str(&mut m, name);
    push_char(&mut m, '!');
    assert(m@ =~= seq!['P','u','r','c','h','a','s','e','d',' '] + name@ + seq!['!']);
    m
}

/// "Sold NAME!", the toast after selling `name`.
pub fn sold_message(name: &str) -> (m: String)
    ensures
        m@ == seq!['S','o','l','d',' '] + name@ + seq!['!'],
{
    let mut m = String::new();
    proof {
        reveal_strlit("Sold ");
    }
    push_str(&mut m, "Sold ");
    push_str(&mut m, name);
    push_char(&mut m, '!');
    assert(m@ =~= seq!['S','o','l','d',' '] + name@ + seq!['!']);
    m
}

} // verus!
