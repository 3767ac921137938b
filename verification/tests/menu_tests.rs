use rpg_ui::alchemist::brew;
use rpg_ui::alchemist::menu as alchemist_menu;
use rpg_ui::alchemist::tab::{AlchemistAction, AlchemistState, AlchemistTab, StateChange as AlchemistChange};
use rpg_ui::blacksmith::items::{on_key, upgrade_flags, ItemsEvent};
use rpg_ui::blacksmith::menu as blacksmith_menu;
use rpg_ui::blacksmith::quality;
use rpg_ui::blacksmith::smelt::{self, BlacksmithError, Ingot, SmeltAction};
use rpg_ui::blacksmith::tab::{
    BlacksmithKeyAction, BlacksmithState, BlacksmithTab, ItemListKind, StateChange as BlacksmithChange,
};
use rpg_ui::command::{tab_key_route, CmdOutcome, Command, KeyInput, KeyRoute, Screen};
use rpg_ui::dungeon::menu as dungeon_menu;
use rpg_ui::field::{self, StateChange as FieldChange};
use rpg_ui::menu_component::{back_button, blacksmith_menu, game_menu, main_menu, GameMenuAction, MenuComponent, MenuItem};
use rpg_ui::selection::Selection;

fn at(i: usize) -> Selection {
    let mut s = Selection::first();
    s.select(Some(i));
    s
}

#[test]
fn alchemist_menu_brews_or_leaves() {
    let mut s = Selection::first();
    assert_eq!(
        alchemist_menu::handle(Command::Submit, &mut s),
        (CmdOutcome::Submit, Some(AlchemistChange::ToBrew), None)
    );
    assert_eq!(
        alchemist_menu::handle(Command::Cancel, &mut s),
        (CmdOutcome::Changed, None, Some(AlchemistAction::GoTo(Screen::Menu)))
    );
    assert_eq!(alchemist_menu::handle(Command::MoveDown, &mut s), (CmdOutcome::Changed, None, None));
    assert_eq!(s.selected(), Some(0));
    assert_eq!(alchemist_menu::handle(Command::Other, &mut s), (CmdOutcome::Ignored, None, None));
}

#[test]
fn brew_list_brews_the_highlighted_recipe() {
    let mut s = at(2);
    assert_eq!(
        brew::handle(Command::Submit, &mut s, 3),
        (CmdOutcome::Submit, None, Some(AlchemistAction::Brew(2)))
    );
    assert_eq!(brew::handle(Command::Submit, &mut at(3), 3), (CmdOutcome::Submit, None, None));
    assert_eq!(
        brew::handle(Command::Cancel, &mut s, 3),
        (CmdOutcome::Changed, Some(AlchemistChange::ToMenu), None)
    );
    brew::handle(Command::MoveDown, &mut s, 3);
    assert_eq!(s.selected(), Some(0));
}

#[test]
fn alchemist_tab_switches_views() {
    let mut tab = AlchemistTab::new();
    assert_eq!(tab.current_state(), AlchemistState::Menu);
    assert_eq!(tab.perform(Command::Submit, 4), (CmdOutcome::Submit, None));
    assert_eq!(tab.current_state(), AlchemistState::Brew);
    tab.perform(Command::MoveDown, 4);
    assert_eq!(tab.list_state.selected(), Some(1));
    assert_eq!(tab.perform(Command::Submit, 4), (CmdOutcome::Submit, Some(AlchemistAction::Brew(1))));
    assert_eq!(tab.perform(Command::Cancel, 4), (CmdOutcome::Changed, None));
    assert_eq!(tab.current_state(), AlchemistState::Menu);
    assert_eq!(tab.list_state.selected(), Some(0));
    tab.apply_state_change(AlchemistChange::ToBrew);
    assert_eq!(tab.state, AlchemistState::Brew);
    assert_eq!(AlchemistState::apply_change(AlchemistState::Brew, AlchemistChange::ToMenu), AlchemistState::Menu);
}

#[test]
fn blacksmith_menu_rows() {
    let expected = [
        Some(BlacksmithChange::ToUpgrade),
        Some(BlacksmithChange::ToQuality),
        Some(BlacksmithChange::ToSmelt),
        Some(BlacksmithChange::ToForge),
    ];
    for (i, change) in expected.iter().enumerate() {
        assert_eq!(blacksmith_menu::handle(Command::Submit, &mut at(i)), (CmdOutcome::Submit, *change, None));
    }
    assert_eq!(
        blacksmith_menu::handle(Command::Cancel, &mut at(0)),
        (CmdOutcome::Changed, None, Some(Screen::Menu))
    );
    let mut s = at(0);
    blacksmith_menu::handle(Command::MoveUp, &mut s);
    assert_eq!(s.selected(), Some(3));
}

#[test]
fn smelt_list_actions() {
    assert_eq!(smelt::handle(Command::Submit, &mut at(0)), (CmdOutcome::Submit, None, Some(SmeltAction::AddFuel)));
    assert_eq!(
        smelt::handle(Command::Submit, &mut at(1)),
        (CmdOutcome::Submit, None, Some(SmeltAction::Smelt(Ingot::Tin)))
    );
    assert_eq!(
        smelt::handle(Command::Submit, &mut at(2)),
        (CmdOutcome::Submit, None, Some(SmeltAction::Smelt(Ingot::Copper)))
    );
    assert_eq!(
        smelt::handle(Command::Submit, &mut at(3)),
        (CmdOutcome::Submit, None, Some(SmeltAction::Smelt(Ingot::Bronze)))
    );
    assert_eq!(smelt::handle(Command::Submit, &mut at(4)), (CmdOutcome::Submit, Some(BlacksmithChange::ToMenu), None));
    assert_eq!(smelt::handle(Command::Submit, &mut at(5)), (CmdOutcome::Ignored, None, None));
    assert_eq!(smelt::handle(Command::Cancel, &mut at(1)), (CmdOutcome::Changed, Some(BlacksmithChange::ToMenu), None));
}

#[test]
fn smelt_messages() {
    assert_eq!(smelt::smelt_message(SmeltAction::AddFuel, Ok(())), (true, "Added fuel"));
    assert_eq!(smelt::smelt_message(SmeltAction::Smelt(Ingot::Tin), Ok(())), (true, "Smelted Tin Ingot"));
    assert_eq!(smelt::smelt_message(SmeltAction::Smelt(Ingot::Copper), Ok(())), (true, "Smelted Copper Ingot"));
    assert_eq!(smelt::smelt_message(SmeltAction::Smelt(Ingot::Bronze), Ok(())), (true, "Smelted Bronze Ingot"));
    let a = SmeltAction::AddFuel;
    assert_eq!(smelt::smelt_message(a, Err(BlacksmithError::NotEnoughFuel)), (false, "Not enough fuel"));
    assert_eq!(smelt::smelt_message(a, Err(BlacksmithError::NoFuel)), (false, "No fuel to add"));
    assert_eq!(smelt::smelt_message(a, Err(BlacksmithError::RecipeError)), (false, "Missing ingredients"));
    assert_eq!(smelt::smelt_message(a, Err(BlacksmithError::InventoryFull)), (false, "Inventory is full"));
    assert_eq!(smelt::smelt_message(a, Err(BlacksmithError::Other)), (false, "Smelting failed"));
}

#[test]
fn quality_list_picks_an_item_or_goes_back() {
    assert_eq!(quality::handle(Command::Submit, &mut at(1), 3), (CmdOutcome::Submit, None, Some(1)));
    assert_eq!(quality::handle(Command::Submit, &mut at(3), 3), (CmdOutcome::Submit, Some(BlacksmithChange::ToMenu), None));
    assert_eq!(quality::handle(Command::Submit, &mut at(4), 3), (CmdOutcome::Ignored, None, None));
    let mut s = at(0);
    quality::handle(Command::MoveUp, &mut s, 3);
    assert_eq!(s.selected(), Some(3));
}

#[test]
fn item_list_keys() {
    let mut s = Selection::first();
    assert_eq!(on_key(&mut s, 2, KeyInput::Up, Screen::Town), ItemsEvent::Nothing);
    assert_eq!(s.selected(), Some(2));
    assert_eq!(on_key(&mut s, 2, KeyInput::Enter, Screen::Town), ItemsEvent::GoTo(Screen::Town));
    assert_eq!(on_key(&mut s, 2, KeyInput::Down, Screen::Town), ItemsEvent::Nothing);
    assert_eq!(s.selected(), Some(0));
    assert_eq!(on_key(&mut s, 2, KeyInput::Enter, Screen::Town), ItemsEvent::Choose(0));
    assert_eq!(on_key(&mut s, 2, KeyInput::Esc, Screen::Menu), ItemsEvent::GoTo(Screen::Menu));
    assert_eq!(on_key(&mut s, 2, KeyInput::Char('x'), Screen::Menu), ItemsEvent::Nothing);
    assert_eq!(s.selected(), Some(0));
}

#[test]
fn upgrade_flags_compare_limit_and_gold() {
    assert_eq!(upgrade_flags(3, 5, 100, 100), (false, true));
    assert_eq!(upgrade_flags(5, 5, 99, 100), (true, false));
}

#[test]
fn blacksmith_tab_views() {
    let mut tab = BlacksmithTab::new();
    assert_eq!(tab.state, BlacksmithState::Menu);
    tab.menu_list_state.select(Some(2));
    tab.apply_state_change(BlacksmithChange::ToSmelt);
    assert_eq!(tab.state, BlacksmithState::Smelt);
    assert_eq!(tab.menu_list_state.selected(), Some(0));
    tab.smelt_list_state.select(Some(3));
    tab.reset_selection();
    assert_eq!(tab.smelt_list_state.selected(), Some(0));
    assert_eq!(tab.state, BlacksmithState::Smelt);
}

#[test]
fn blacksmith_tab_keys() {
    let mut tab = BlacksmithTab::new();
    assert_eq!(tab.key_action(KeyInput::Up, false), BlacksmithKeyAction::Perform(Command::MoveUp));
    assert_eq!(tab.key_action(KeyInput::Enter, false), BlacksmithKeyAction::Perform(Command::Submit));
    assert_eq!(tab.key_action(KeyInput::Esc, false), BlacksmithKeyAction::Perform(Command::Cancel));
    assert_eq!(tab.key_action(KeyInput::Char('E'), false), BlacksmithKeyAction::Consumed);
    assert_eq!(tab.key_action(KeyInput::Char('f'), false), BlacksmithKeyAction::Consumed);
    assert_eq!(tab.key_action(KeyInput::Tab, false), BlacksmithKeyAction::PassOn);
    assert_eq!(tab.key_action(KeyInput::Char('L'), false), BlacksmithKeyAction::PassOn);
    tab.apply_state_change(BlacksmithChange::ToUpgrade);
    assert_eq!(tab.key_action(KeyInput::Char('E'), false), BlacksmithKeyAction::ToggleEquip(ItemListKind::Upgrade));
    assert_eq!(tab.key_action(KeyInput::Char('L'), true), BlacksmithKeyAction::ToggleLock(ItemListKind::Upgrade));
    assert_eq!(tab.key_action(KeyInput::Char('d'), false), BlacksmithKeyAction::ToggleDetails);
    assert_eq!(tab.key_action(KeyInput::Char('F'), false), BlacksmithKeyAction::CycleFilter(ItemListKind::Upgrade));
    tab.apply_state_change(BlacksmithChange::ToForge);
    assert_eq!(tab.key_action(KeyInput::Char('f'), false), BlacksmithKeyAction::CycleFilter(ItemListKind::Forge));
    assert_eq!(tab.key_action(KeyInput::Char('d'), false), BlacksmithKeyAction::Consumed);
}

#[test]
fn field_menu_rows() {
    assert_eq!(field::handle(Command::Submit, &mut at(0)), (CmdOutcome::Submit, Some(FieldChange::ToFight), None));
    assert_eq!(field::handle(Command::Submit, &mut at(1)), (CmdOutcome::Submit, Some(FieldChange::ToMine), None));
    assert_eq!(field::handle(Command::Submit, &mut at(2)), (CmdOutcome::Submit, None, Some(Screen::Menu)));
    assert_eq!(field::handle(Command::Cancel, &mut at(2)), (CmdOutcome::Ignored, None, None));
    let mut s = at(2);
    field::handle(Command::MoveDown, &mut s);
    assert_eq!(s.selected(), Some(0));
}

#[test]
fn dungeon_menu_enters() {
    let (outcome, change) = dungeon_menu::handle(Command::Submit, &mut at(0));
    assert_eq!(outcome, CmdOutcome::Submit);
    assert_eq!(change, Some(dungeon_menu::StateChange::EnterDungeon));
}

#[test]
fn menu_component_moves_and_chooses() {
    let items = vec![
        MenuItem { label: String::from("a"), action: 10 },
        MenuItem { label: String::from("b"), action: 20 },
        MenuItem { label: String::from("c"), action: 30 },
    ];
    let mut m = MenuComponent::new(items);
    assert_eq!(m.list_state.selected(), Some(0));
    assert_eq!(m.on(KeyInput::Up), None);
    assert_eq!(m.list_state.selected(), Some(2));
    assert_eq!(m.on(KeyInput::Down), None);
    assert_eq!(m.list_state.selected(), Some(0));
    m.on(KeyInput::Down);
    assert_eq!(m.on(KeyInput::Enter), Some(1));
    assert_eq!(m.items[1].action, 20);
    assert_eq!(m.on(KeyInput::Esc), None);
    assert_eq!(m.list_state.selected(), Some(1));
}

#[test]
fn back_button_leads_back() {
    let m = back_button(Screen::Town);
    assert_eq!(m.items.len(), 1);
    assert_eq!(m.items[0].label, "\u{F17B1} Back");
    assert_eq!(m.items[0].action, Screen::Town);
}

#[test]
fn main_menu_entries() {
    let m = main_menu();
    let labels: Vec<&str> = m.items.iter().map(|i| i.label.as_str()).collect();
    assert_eq!(labels, vec!["\u{F015} Town", "\u{F415} Profile", "\u{F081C} Quit"]);
    let actions: Vec<Screen> = m.items.iter().map(|i| i.action).collect();
    assert_eq!(actions, vec![Screen::Town, Screen::Profile, Screen::Quit]);
}

#[test]
fn tab_keys_route() {
    assert_eq!(tab_key_route(KeyInput::Up, KeyInput::Esc, true), KeyRoute::Perform(Command::MoveUp));
    assert_eq!(tab_key_route(KeyInput::Down, KeyInput::Esc, true), KeyRoute::Perform(Command::MoveDown));
    assert_eq!(tab_key_route(KeyInput::Enter, KeyInput::Esc, true), KeyRoute::Perform(Command::Submit));
    assert_eq!(tab_key_route(KeyInput::Esc, KeyInput::Esc, true), KeyRoute::Perform(Command::Cancel));
    assert_eq!(tab_key_route(KeyInput::Backspace, KeyInput::Backspace, true), KeyRoute::Perform(Command::Cancel));
    assert_eq!(tab_key_route(KeyInput::Esc, KeyInput::Backspace, true), KeyRoute::PassOn);
    assert_eq!(tab_key_route(KeyInput::Tab, KeyInput::Esc, false), KeyRoute::Drop);
}

#[test]
fn game_menu_entries() {
    let m = game_menu();
    let labels: Vec<&str> = m.items.iter().map(|i| i.label.as_str()).collect();
    assert_eq!(
        labels,
        vec![
            "\u{f0787} Fight",
            "\u{ee17} Store",
            "\u{F415} Profile",
            "\u{EE1C} Equipment",
            "\u{F089B} Blacksmith",
            "\u{F081C} Quit",
        ]
    );
    assert_eq!(m.items[0].action, GameMenuAction::FightGoblin);
    assert_eq!(m.items[4].action, GameMenuAction::GoTo(Screen::Blacksmith));
    assert_eq!(m.items[5].action, GameMenuAction::GoTo(Screen::Quit));
}

#[test]
fn blacksmith_menu_entries() {
    let m = blacksmith_menu();
    assert_eq!(m.items.len(), 2);
    assert_eq!(m.items[0].label, "\u{F102} Upgrade Items");
    assert_eq!(m.items[0].action, Screen::BlacksmithItems);
    assert_eq!(m.items[1].label, "\u{F17B1} Back");
    assert_eq!(m.items[1].action, Screen::Menu);
}
