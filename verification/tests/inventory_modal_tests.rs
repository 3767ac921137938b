use rpg_ui::command::KeyInput;
use rpg_ui::inventory_modal::{consumable_message, inventory_key_action, quantity_after_use, ConsumableUse, InventoryKey};

#[test]
fn inventory_keys() {
    assert_eq!(inventory_key_action(KeyInput::Up), InventoryKey::MoveUp);
    assert_eq!(inventory_key_action(KeyInput::Down), InventoryKey::MoveDown);
    assert_eq!(inventory_key_action(KeyInput::Char('F')), InventoryKey::CycleFilter);
    assert_eq!(inventory_key_action(KeyInput::Char('e')), InventoryKey::ToggleEquip);
    assert_eq!(inventory_key_action(KeyInput::Char('d')), InventoryKey::ToggleDetails);
    assert_eq!(inventory_key_action(KeyInput::Char('D')), InventoryKey::Nothing);
    assert_eq!(inventory_key_action(KeyInput::Char('l')), InventoryKey::ToggleLock);
    assert_eq!(inventory_key_action(KeyInput::Char('U')), InventoryKey::UseSelected);
    assert_eq!(inventory_key_action(KeyInput::Char('i')), InventoryKey::Close);
    assert_eq!(inventory_key_action(KeyInput::Esc), InventoryKey::Close);
    assert_eq!(inventory_key_action(KeyInput::Enter), InventoryKey::Nothing);
}

#[test]
fn use_messages() {
    let used = ConsumableUse::Used { item_name: String::from("Potion"), description: String::from("Healed 20 HP") };
    assert_eq!(consumable_message(used), (String::from("Used Potion! Healed 20 HP"), false));
    assert_eq!(consumable_message(ConsumableUse::NotConsumable), (String::from("Cannot use this item"), true));
    assert_eq!(
        consumable_message(ConsumableUse::AlreadyAtFullHealth),
        (String::from("Already at full health!"), true)
    );
    assert_eq!(
        consumable_message(ConsumableUse::NoEffectRegistered),
        (String::from("This item has no effect"), true)
    );
    assert_eq!(consumable_message(ConsumableUse::Failed), (String::from("Cannot use this item"), true));
}

#[test]
fn a_use_message_holding_a_refusal_word_reads_as_one() {
    let used = ConsumableUse::Used { item_name: String::from("Tonic"), description: String::from("Already warm") };
    assert_eq!(consumable_message(used).1, true);
}

#[test]
fn quantity_after_one_use() {
    assert_eq!(quantity_after_use(3), Some(2));
    assert_eq!(quantity_after_use(1), None);
    assert_eq!(quantity_after_use(0), None);
}
