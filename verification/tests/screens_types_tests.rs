use rpg_ui::blacksmith::items::{upgrade_target, UpgradeTarget};
use rpg_ui::blacksmith::smelt::fuel_bar_end;
use rpg_ui::command::KeyInput;
use rpg_ui::item_details::comparison_slot;
use rpg_ui::profile_modal::{level_text, number_text, ProfileInput};
use rpg_ui::profile_modal::{bonus_text, percent_text, ratio_text};
use rpg_ui::blacksmith::smelt::{fuel_text, smelt_menu_texts, smelter_padding};
use rpg_ui::blacksmith::forge;
use rpg_ui::blacksmith::upgrade::{self, UpgradeableItem};
use rpg_ui::equipment::{EquipAction, EquipmentItem};
use rpg_ui::inventory_modal::InventoryModal;
use rpg_ui::item_list::{ItemList, ListBackground};
use rpg_ui::profile_modal::ProfileModal;
use rpg_ui::store::storage::{StorageFocus, StorageScreen};

#[test]
fn blacksmith_lists() {
    let f = forge::create_item_list();
    assert_eq!(f.config.visible_count, 6);
    assert!(f.config.show_back_button);
    assert_eq!(f.config.back_label, "Back");
    let u = upgrade::create_item_list();
    assert_eq!(u.config.visible_count, 10);
    assert_eq!(u.config.background, ListBackground::Transparent);
    assert_eq!(u.selection.selected(), Some(0));
}

#[test]
fn item_list_reset() {
    let mut l: ItemList = upgrade::create_item_list();
    l.selection.select(Some(4));
    l.reset_selection();
    assert_eq!(l.selection.selected(), Some(0));
}

#[test]
fn storage_screen_lifecycle() {
    let mut s = StorageScreen::new();
    assert_eq!(s.focus, StorageFocus::Player);
    assert!(!s.player_list.config.show_back_button);
    assert_eq!(s.storage_list.config.back_label, "");
    assert!(s.is_back_selected(true));
    s.focus = s.focus.toggle();
    assert!(!s.is_back_selected(true));
    s.storage_list.selection.select(Some(3));
    s.reset();
    assert_eq!(s.focus, StorageFocus::Player);
    assert_eq!(s.storage_list.selection.selected(), Some(0));
}

#[test]
fn modals() {
    let mut m = InventoryModal::new();
    assert_eq!(m.item_list.config.background, ListBackground::Parchment);
    assert_eq!(m.item_list.config.visible_count, 10);
    m.item_list.selection.select(Some(5));
    m.reset();
    assert_eq!(m.item_list.selection.selected(), Some(0));
    let mut p = ProfileModal::new();
    p.selected = 3;
    p.reset();
    assert_eq!(p.selected, 0);
}

#[test]
fn list_entries() {
    let e = EquipmentItem::new("Sword", true, 1u8);
    assert_eq!(e.action, EquipAction::Unequip(1));
    let e = EquipmentItem::new("Shield", false, 2u8);
    assert_eq!(e.action, EquipAction::EquipFromInventory(2));
    assert_eq!(e.item, "Shield");
    assert_eq!(UpgradeableItem::new(7).item, 7);
}

#[test]
fn smelter_padding_centres_the_block() {
    assert_eq!(smelter_padding(100), 32);
    assert_eq!(smelter_padding(43), 3);
    assert_eq!(smelter_padding(42), 3);
    assert_eq!(smelter_padding(10), 3);
}

#[test]
fn smelter_labels() {
    assert_eq!(fuel_text(35), "Fuel: 35/100");
    assert_eq!(fuel_text(0), "Fuel: 0/100");
    let t = smelt_menu_texts(3, 12, 0);
    assert_eq!(t.len(), 4);
    assert_eq!(t[0], " Add Fuel (Coal: 3)");
    assert_eq!(t[1], " Smelt Tin (Tin Ore: 12)");
    assert_eq!(t[2], " Smelt Copper (Copper Ore: 0)");
    assert_eq!(t[3], " Smelt Bronze (Copper: 0, Tin: 12)");
}

#[test]
fn upgrade_list_order() {
    let rows = rpg_ui::blacksmith::items::rebuild_items(Some("sword"), None, vec!["ring", "helm"]);
    let names: Vec<&str> = rows.iter().map(|r| r.item).collect();
    assert_eq!(names, vec!["sword", "ring", "helm"]);
    let rows = rpg_ui::blacksmith::items::rebuild_items(Some("sword"), Some("shield"), Vec::new());
    let names: Vec<&str> = rows.iter().map(|r| r.item).collect();
    assert_eq!(names, vec!["sword", "shield"]);
    assert!(rpg_ui::blacksmith::items::rebuild_items::<&str>(None, None, Vec::new()).is_empty());
}

#[test]
fn upgrade_rows_flags() {
    let rows = upgrade::rebuild_items(vec![("axe", 3, 50), ("bow", 1, 120)], 3, 100);
    assert_eq!(rows.len(), 2);
    assert_eq!(rows[0].inv_item, "axe");
    assert_eq!(rows[0].upgrade_cost, 50);
    assert!(rows[0].at_max);
    assert!(rows[0].can_afford);
    assert_eq!(rows[1].inv_item, "bow");
    assert!(!rows[1].at_max);
    assert!(!rows[1].can_afford);
}

#[test]
fn forge_rows_keep_made_recipes() {
    let rows = forge::rebuild_items(vec![
        (1u8, Some("Bronze Sword".to_string())),
        (2u8, None),
        (3u8, Some("Tin Helm".to_string())),
    ]);
    assert_eq!(rows.len(), 2);
    assert_eq!((rows[0].recipe_id, rows[0].name.as_str()), (1, "Bronze Sword"));
    assert_eq!((rows[1].recipe_id, rows[1].name.as_str()), (3, "Tin Helm"));
}

#[test]
fn profile_stat_texts() {
    assert_eq!(bonus_text(4), " (+4)");
    assert_eq!(bonus_text(0), "");
    assert_eq!(bonus_text(-2), "");
    assert_eq!(percent_text(15), "+15%");
    assert_eq!(ratio_text(37, 50), "37/50");
    assert_eq!(ratio_text(-3, 120), "-3/120");
}

#[test]
fn more_smelter_and_profile_texts() {
    assert_eq!(fuel_bar_end(42), "] 42/100");
    assert_eq!(level_text(7), "Lv. 7");
    assert_eq!(number_text(-12), "-12");
}

#[test]
fn profile_keys() {
    let m = ProfileModal::new();
    assert_eq!(m.handle_input(KeyInput::Esc), ProfileInput::Close);
    assert_eq!(m.handle_input(KeyInput::Char('p')), ProfileInput::Close);
    assert_eq!(m.handle_input(KeyInput::Char('P')), ProfileInput::Nothing);
    assert_eq!(m.handle_input(KeyInput::Up), ProfileInput::ScrollUp);
    assert_eq!(m.handle_input(KeyInput::Down), ProfileInput::ScrollDown);
    assert_eq!(m.handle_input(KeyInput::Enter), ProfileInput::Nothing);
}

#[test]
fn comparison_slot_rules() {
    assert_eq!(comparison_slot(true, Some(1u8)), None);
    assert_eq!(comparison_slot(false, Some(1u8)), Some(1));
    assert_eq!(comparison_slot::<u8>(false, None), None);
}

#[test]
fn upgrade_target_order() {
    let bag = vec![5u128, 9, 9];
    assert_eq!(upgrade_target(9, Some(9), Some(9), &bag), UpgradeTarget::Weapon);
    assert_eq!(upgrade_target(9, Some(1), Some(9), &bag), UpgradeTarget::OffHand);
    assert_eq!(upgrade_target(9, None, Some(1), &bag), UpgradeTarget::Backpack(1));
    assert_eq!(upgrade_target(4, None, None, &bag), UpgradeTarget::Missing);
}
