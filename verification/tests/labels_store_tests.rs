use rpg_ui::command::{CmdOutcome, Command, KeyInput, Screen};
use rpg_ui::inventory_view::{collect_player_equipment, collect_player_items, ItemRef};
use rpg_ui::item_details::{format_stat_with_comparison, item_title, shows_stat, Tint};
use rpg_ui::labels::{blacksmith_header, item_display, lock_prefix, selection_prefix, store_header};
use rpg_ui::main_menu_header::{greeting, MainMenuHeader};
use rpg_ui::selection::Selection;
use rpg_ui::store::menu::{self as store_menu, restock_timer_text, StateChange};
use rpg_ui::store::storage::{handle_key, is_back_selected, StorageFocus, StorageKey};
use rpg_ui::store::tab::{ListStep, StoreKeyAction, StoreList, StoreState, StoreTab};
use rpg_ui::store::trade::{purchase_message, sold_message, store_error_message, StoreError};
use rpg_ui::table::{Header, Row, TableComponent};
use rpg_ui::town::Town;

#[test]
fn prefixes() {
    assert_eq!(selection_prefix(true), (String::from("> "), true));
    assert_eq!(selection_prefix(false), (String::from("  "), false));
    assert_eq!(lock_prefix(true), "\u{F023} ");
    assert_eq!(lock_prefix(false), "");
}

#[test]
fn item_display_texts() {
    assert_eq!(item_display("Sword", true, 3, Some(9)), "Sword (+3)");
    assert_eq!(item_display("Coal", false, 0, Some(12)), "Coal (x12)");
    assert_eq!(item_display("Gem", false, 0, None), "Gem");
}

#[test]
fn headers() {
    let (name, stats) = blacksmith_header("Forge", -5, 10, 2);
    assert_eq!(name, "Forge");
    assert_eq!(stats, "\u{EDE8} -5  |  \u{EEFF} 10  |  \u{F102} 2");
    let (name, stats) = store_header("Shop", 120, 75);
    assert_eq!(name, "Shop");
    assert_eq!(stats, "\u{EDE8} 120  |  \u{F252} 1:15");
    let (_, stats) = store_header("Shop", 0, 9);
    assert_eq!(stats, "\u{EDE8} 0  |  \u{F252} 9s");
}

#[test]
fn restock_timer() {
    assert_eq!(restock_timer_text(0), "0s");
    assert_eq!(restock_timer_text(59), "59s");
    assert_eq!(restock_timer_text(60), "1:00");
    assert_eq!(restock_timer_text(605), "10:05");
}

#[test]
fn stat_comparison_segments() {
    assert_eq!(format_stat_with_comparison('A', "Attack", 12, None), vec![(String::from("A Attack: 12"), None)]);
    assert_eq!(format_stat_with_comparison('A', "Attack", 12, Some(12)), vec![(String::from("A Attack: 12"), None)]);
    assert_eq!(
        format_stat_with_comparison('A', "Attack", 12, Some(9)),
        vec![
            (String::from("A Attack: 12"), None),
            (String::from(" (↑3"), Some(Tint::Better)),
            (String::from(")"), Some(Tint::Better)),
        ]
    );
    assert_eq!(
        format_stat_with_comparison('D', "Defense", -2, Some(5)),
        vec![
            (String::from("D Defense: -2"), None),
            (String::from(" (↓7"), Some(Tint::Worse)),
            (String::from(")"), Some(Tint::Worse)),
        ]
    );
}

#[test]
fn stats_shown_when_either_has_some() {
    assert!(shows_stat(3, None));
    assert!(!shows_stat(0, None));
    assert!(shows_stat(0, Some(2)));
    assert!(!shows_stat(0, Some(0)));
}

#[test]
fn item_titles() {
    assert_eq!(item_title(true, "Sword", true, 2), "(E) Sword (+2)");
    assert_eq!(item_title(false, "Sword", true, 0), "Sword (+0)");
    assert_eq!(item_title(false, "Herb", false, 0), "Herb");
}

#[test]
fn collected_items_put_equipment_first() {
    let items = collect_player_items(&vec![true, false, true], 2);
    assert_eq!(
        items,
        vec![ItemRef::Equipped(0), ItemRef::Equipped(2), ItemRef::Backpack(0), ItemRef::Backpack(1)]
    );
    let equipment = collect_player_equipment(&vec![false, true], &vec![true, false, true]);
    assert_eq!(equipment, vec![ItemRef::Equipped(1), ItemRef::Backpack(0), ItemRef::Backpack(2)]);
    assert!(collect_player_items(&vec![], 0).is_empty());
}

#[test]
fn store_menu_rows() {
    let mut s = Selection::first();
    assert_eq!(store_menu::handle(Command::Submit, &mut s), (CmdOutcome::Submit, Some(StateChange::ToBuy), None));
    s.select(Some(2));
    assert_eq!(store_menu::handle(Command::Submit, &mut s), (CmdOutcome::Submit, Some(StateChange::ToStorage), None));
    s.select(Some(3));
    assert_eq!(store_menu::handle(Command::Submit, &mut s), (CmdOutcome::Submit, None, Some(Screen::Menu)));
    store_menu::handle(Command::MoveDown, &mut s);
    assert_eq!(s.selected(), Some(0));
}

#[test]
fn store_tab_views() {
    let mut tab = StoreTab::new();
    assert_eq!(tab.state, StoreState::Menu);
    tab.handle_menu_cmd(Command::MoveDown);
    assert_eq!(tab.handle_menu_cmd(Command::Submit), (CmdOutcome::Submit, Some(StateChange::ToSell), None));
    assert_eq!(tab.state, StoreState::Sell);
    assert_eq!(tab.handle_list_cmd(Command::MoveDown, false), (CmdOutcome::Changed, ListStep::MoveDown));
    assert_eq!(tab.handle_list_cmd(Command::Submit, false), (CmdOutcome::Submit, ListStep::ActOnSelected));
    assert_eq!(tab.state, StoreState::Sell);
    assert_eq!(tab.handle_list_cmd(Command::Submit, true), (CmdOutcome::Submit, ListStep::Nothing));
    assert_eq!(tab.state, StoreState::Menu);
    assert_eq!(tab.menu_list_state.selected(), Some(0));
    tab.handle_menu_cmd(Command::Submit);
    assert_eq!(tab.state, StoreState::Buy);
    assert_eq!(tab.handle_list_cmd(Command::Cancel, false), (CmdOutcome::Changed, ListStep::Nothing));
    assert_eq!(tab.state, StoreState::Menu);
    assert_eq!(tab.handle_list_cmd(Command::Other, false), (CmdOutcome::Ignored, ListStep::Nothing));
}

#[test]
fn store_tab_storage_choice_keeps_the_view() {
    let mut tab = StoreTab::new();
    tab.menu_list_state.select(Some(2));
    assert_eq!(tab.handle_menu_cmd(Command::Submit), (CmdOutcome::Submit, Some(StateChange::ToStorage), None));
    assert_eq!(tab.state, StoreState::Menu);
}

#[test]
fn store_tab_keys() {
    let mut tab = StoreTab::new();
    assert_eq!(tab.key_action(KeyInput::Down, false), StoreKeyAction::Perform(Command::MoveDown));
    assert_eq!(tab.key_action(KeyInput::Char('E'), false), StoreKeyAction::Consumed);
    assert_eq!(tab.key_action(KeyInput::Char('d'), false), StoreKeyAction::Consumed);
    assert_eq!(tab.key_action(KeyInput::Char('q'), false), StoreKeyAction::PassOn);
    tab.state = StoreState::Buy;
    assert_eq!(tab.key_action(KeyInput::Char('E'), false), StoreKeyAction::Consumed);
    assert_eq!(tab.key_action(KeyInput::Char('d'), false), StoreKeyAction::ToggleDetails);
    assert_eq!(tab.key_action(KeyInput::Char('F'), false), StoreKeyAction::CycleFilter(StoreList::Buy));
    tab.state = StoreState::Sell;
    assert_eq!(tab.key_action(KeyInput::Char('E'), false), StoreKeyAction::ToggleEquip);
    assert_eq!(tab.key_action(KeyInput::Char('L'), true), StoreKeyAction::ToggleLock);
    assert_eq!(tab.key_action(KeyInput::Char('L'), false), StoreKeyAction::PassOn);
    assert_eq!(tab.key_action(KeyInput::Char('f'), false), StoreKeyAction::CycleFilter(StoreList::Sell));
}

#[test]
fn trade_messages() {
    assert_eq!(store_error_message(StoreError::OutOfStock), "Out of stock");
    assert_eq!(store_error_message(StoreError::NotEnoughGold), "Not enough gold");
    assert_eq!(store_error_message(StoreError::InventoryFull), "Inventory is full");
    assert_eq!(store_error_message(StoreError::InvalidIndex), "Item not found");
    assert_eq!(purchase_message("Sword"), "Purchased Sword!");
    assert_eq!(sold_message("Herb"), "Sold Herb!");
}

#[test]
fn storage_keys() {
    assert_eq!(StorageFocus::Player.toggle(), StorageFocus::Storage);
    assert_eq!(StorageFocus::Storage.toggle().toggle(), StorageFocus::Storage);
    assert_eq!(handle_key(StorageFocus::Player, KeyInput::Tab), StorageKey::Focus(StorageFocus::Storage));
    assert_eq!(handle_key(StorageFocus::Storage, KeyInput::Char('F')), StorageKey::CycleFilter(StorageFocus::Storage));
    assert_eq!(handle_key(StorageFocus::Storage, KeyInput::Enter), StorageKey::Unhandled);
    assert!(is_back_selected(StorageFocus::Player, true));
    assert!(!is_back_selected(StorageFocus::Storage, true));
    assert!(!is_back_selected(StorageFocus::Player, false));
}

#[test]
fn table_rows_and_widths() {
    let mut t = TableComponent::new(vec![Header::new("Name"), Header::new("Qty")]);
    assert_eq!(t.column_widths(), vec![6, 5]);
    t.add_row(Row::new(vec![String::from("Longsword"), String::from("1")]));
    t.add_row(Row::new(vec![String::from("Herb"), String::from("12345"), String::from("x")]));
    assert_eq!(t.column_widths(), vec![11, 7, 3]);
}

#[test]
fn table_from_items() {
    let items = [(String::from("Axe"), 3u32), (String::from("Shield"), 10u32)];
    let t = TableComponent::from_items(
        vec![Header::new("Item"), Header::new("Count")],
        &items,
        |it: &(String, u32)| vec![it.0.clone(), it.1.to_string()],
    );
    assert_eq!(t.column_widths(), vec![8, 7]);
    let empty = TableComponent::from_items(vec![Header::new("Item")], &items[..0], |it: &(String, u32)| vec![it.0.clone()]);
    assert_eq!(empty.column_widths(), vec![6]);
}

#[test]
fn town_holds_its_places() {
    let town = Town::new(String::from("Oakvale"), 1u8, 2u16, 3u32, 4u64);
    assert_eq!(town.name, "Oakvale");
    assert_eq!((town.store, town.blacksmith, town.field, town.mine), (1, 2, 3, 4));
}

#[test]
fn main_menu_greeting() {
    let player = String::from("Ada");
    let header = MainMenuHeader::new(&player);
    assert_eq!(header.player, "Ada");
    assert_eq!(greeting(&player), "Hello, Ada");
}

#[test]
fn equipment_list_is_all_items_without_materials() {
    let filled = vec![true, false, true];
    let is_equipment = vec![false, true, true, false];
    let all = collect_player_items(&filled, is_equipment.len());
    let kept: Vec<ItemRef> = all
        .into_iter()
        .filter(|r| match r {
            ItemRef::Equipped(_) => true,
            ItemRef::Backpack(i) => is_equipment[*i],
        })
        .collect();
    assert_eq!(collect_player_equipment(&filled, &is_equipment), kept);
}
