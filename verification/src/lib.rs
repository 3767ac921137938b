use vstd::prelude::*;

pub mod text;
pub mod toast;
pub mod town;
pub mod table;
pub mod selection;
pub mod command;
pub mod alchemist;
pub mod dungeon;
pub mod field;
pub mod store;
pub mod menu_component;
pub mod blacksmith;
pub mod layout;
pub mod magic;
pub mod animation;
pub mod main_menu_header;
pub mod fight;
pub mod mine;
pub mod spans;
pub mod parchment;
pub mod item_details;
pub mod labels;
pub mod icons;
pub mod art;
pub mod item_list;
pub mod equipment;
pub mod profile_modal;
pub mod inventory_view;
pub mod inventory_modal;

verus! {

} // verus!
