use rpg_ui::command::KeyInput;
use rpg_ui::fight::{hp_band, CombatPhase, FightAction, FightScreen, FightSelection, HealthBand, ResultSelection};
use rpg_ui::magic::spell_test_modal::{result_of_spell, ComputedSpell, ModalAction, SpellTestModal, SpellTestResult};

#[test]
fn fight_starts_on_attack() {
    let s = FightScreen::new();
    assert_eq!(s.selection, FightSelection::Attack);
    assert_eq!(s.result_selection, ResultSelection::FightAgain);
    assert!(!s.victory_processed && !s.defeat_processed);
}

#[test]
fn player_turn_keys() {
    let mut s = FightScreen::new();
    assert_eq!(s.on(CombatPhase::PlayerTurn, KeyInput::Enter), FightAction::Attack);
    assert_eq!(s.on(CombatPhase::PlayerTurn, KeyInput::Down), FightAction::Nothing);
    assert_eq!(s.selection, FightSelection::Run);
    assert_eq!(s.on(CombatPhase::PlayerTurn, KeyInput::Enter), FightAction::Run);
    assert_eq!(s.on(CombatPhase::PlayerTurn, KeyInput::Up), FightAction::Nothing);
    assert_eq!(s.selection, FightSelection::Attack);
    assert_eq!(s.on(CombatPhase::PlayerTurn, KeyInput::Backspace), FightAction::Run);
    assert_eq!(s.on(CombatPhase::PlayerTurn, KeyInput::Char('x')), FightAction::Nothing);
}

#[test]
fn after_the_fight() {
    let mut s = FightScreen::new();
    assert_eq!(s.on(CombatPhase::Victory, KeyInput::Enter), FightAction::FightAgain);
    s.on(CombatPhase::Victory, KeyInput::Right);
    assert_eq!(s.result_selection, ResultSelection::Continue);
    assert_eq!(s.on(CombatPhase::Victory, KeyInput::Enter), FightAction::ReturnFromCombat);
    let mut d = FightScreen::new();
    d.on(CombatPhase::Defeat, KeyInput::Left);
    assert_eq!(d.result_selection, ResultSelection::FightAgain);
    assert_eq!(d.on(CombatPhase::Defeat, KeyInput::Enter), FightAction::ReturnFromCombat);
    assert_eq!(d.on(CombatPhase::Other, KeyInput::Enter), FightAction::Nothing);
}

#[test]
fn attack_outcome_is_remembered_and_reset() {
    let mut s = FightScreen::new();
    s.after_attack(CombatPhase::PlayerTurn);
    assert!(!s.victory_processed);
    s.after_attack(CombatPhase::Victory);
    assert!(s.victory_processed);
    s.after_attack(CombatPhase::Defeat);
    assert!(s.defeat_processed && s.victory_processed);
    s.selection = FightSelection::Run;
    s.reset_for_new_combat();
    assert!(!s.victory_processed && !s.defeat_processed);
    assert_eq!(s.selection, FightSelection::Attack);
}

#[test]
fn health_bands() {
    assert_eq!(hp_band(100), HealthBand::Healthy);
    assert_eq!(hp_band(61), HealthBand::Healthy);
    assert_eq!(hp_band(60), HealthBand::Wounded);
    assert_eq!(hp_band(31), HealthBand::Wounded);
    assert_eq!(hp_band(30), HealthBand::Critical);
    assert_eq!(hp_band(0), HealthBand::Critical);
}

fn typed(m: &mut SpellTestModal<u8>, text: &str) {
    for c in text.chars() {
        m.handle_input(KeyInput::Char(c));
    }
}

#[test]
fn spell_modal_typing() {
    let mut m: SpellTestModal<u8> = SpellTestModal::new();
    typed(&mut m, "fire bolt!");
    assert_eq!(m.input, "fire bolt");
    assert_eq!(m.handle_input(KeyInput::Backspace), (false, None));
    assert_eq!(m.input, "fire bol");
    assert_eq!(m.handle_input(KeyInput::Char('A')), (false, Some(ModalAction::ActivatePage)));
    assert_eq!(m.input, "fire bol");
    assert_eq!(m.handle_input(KeyInput::Enter), (false, Some(ModalAction::TestSpell)));
    assert_eq!(m.handle_input(KeyInput::Tab), (false, Some(ModalAction::InscribeSpell)));
    assert_eq!(m.handle_input(KeyInput::Esc), (true, None));
}

#[test]
fn spell_modal_input_stops_at_fifty_bytes() {
    let mut m: SpellTestModal<u8> = SpellTestModal::new();
    typed(&mut m, &"a".repeat(60));
    assert_eq!(m.input.len(), 50);
}

#[test]
fn spell_modal_pages() {
    let mut m: SpellTestModal<u8> = SpellTestModal::new();
    m.handle_input(KeyInput::Left);
    assert_eq!(m.selected_page, 0);
    for _ in 0..4 {
        m.handle_input(KeyInput::Right);
    }
    assert_eq!(m.selected_page, 2);
    m.activate_page(Some(true));
    assert_eq!(m.inscribe_message, Some((String::from("Page 3 is now active!"), true)));
    m.activate_page(None);
    assert_eq!(m.inscribe_message, Some((String::from("No tome equipped!"), false)));
    m.activate_page(Some(false));
    assert_eq!(m.inscribe_message, Some((String::from("Invalid page!"), false)));
    m.reset();
    assert_eq!(m.selected_page, 0);
    assert!(m.inscribe_message.is_none());
}

#[test]
fn spell_modal_parse_and_test() {
    let mut m: SpellTestModal<u8> = SpellTestModal::new();
    typed(&mut m, "ignis  magna");
    assert_eq!(m.input_words(), vec!["ignis", "magna"]);
    assert!(!m.record_parse(vec![1], vec![String::from("magna")]));
    assert!(matches!(&m.result, Some(SpellTestResult::ParseError { unknown }) if unknown == &vec![String::from("magna")]));
    assert!(m.parsed_words.is_empty());
    assert!(!m.record_parse(vec![], vec![]));
    assert!(m.record_parse(vec![1, 2], vec![]));
    assert_eq!(m.parsed_words, vec![1, 2]);
}

#[test]
fn spell_results() {
    let r = result_of_spell(ComputedSpell::Passive { name: String::from("Ward"), description: String::from("d") });
    assert!(matches!(r, SpellTestResult::Success { ref spell_name, is_backfire: false, .. } if spell_name == "Ward (Passive)"));
    let r = result_of_spell(ComputedSpell::Hybrid { name: String::from("Ward"), description: String::from("d") });
    assert!(matches!(r, SpellTestResult::Success { ref spell_name, .. } if spell_name == "Ward (Hybrid)"));
    let r = result_of_spell(ComputedSpell::Active { name: String::from("Bolt"), description: String::from("zap") });
    assert!(matches!(r, SpellTestResult::Success { ref spell_name, ref description, is_backfire: false } if spell_name == "Bolt" && description == "zap"));
    let r = result_of_spell(ComputedSpell::Backfire { reason: String::from("Too wild"), effect: String::from("burns you") });
    assert!(matches!(r, SpellTestResult::Success { ref spell_name, ref description, is_backfire: true } if spell_name == "Unstable Magic" && description == "Too wild: burns you"));
    let r = result_of_spell(ComputedSpell::Fizzle { reason: String::from("nothing") });
    assert!(matches!(r, SpellTestResult::Fizzle { ref reason } if reason == "nothing"));
}

#[test]
fn spell_inscription() {
    let mut m: SpellTestModal<u8> = SpellTestModal::new();
    assert!(!m.inscribe_ready());
    assert_eq!(m.inscribe_message, Some((String::from("Test a spell first!"), false)));
    assert!(!m.inscribe_words_ready());
    assert_eq!(m.inscribe_message, Some((String::from("No valid words to inscribe!"), false)));
    m.record_parse(vec![7], vec![]);
    m.record_result(SpellTestResult::Success {
        spell_name: String::from("Bolt"),
        description: String::from("zap"),
        is_backfire: false,
    });
    assert!(m.inscribe_ready());
    assert!(m.inscribe_words_ready());
    m.handle_input(KeyInput::Right);
    m.finish_inscription(Some(true));
    assert_eq!(m.inscribe_message, Some((String::from("Inscribed 'Bolt' to page 2!"), true)));
    m.finish_inscription(Some(false));
    assert_eq!(m.inscribe_message, Some((String::from("Failed to set page!"), false)));
    m.finish_inscription(None);
    assert_eq!(m.inscribe_message, Some((String::from("No tome equipped!"), false)));
    m.record_result(SpellTestResult::Fizzle { reason: String::from("x") });
    m.finish_inscription(Some(true));
    assert_eq!(m.inscribe_message, Some((String::from("Inscribed 'Fizzle' to page 2!"), true)));
    m.handle_input(KeyInput::Backspace);
    assert!(m.result.is_none());
}

#[test]
fn spell_input_field() {
    let mut m: SpellTestModal<u8> = SpellTestModal::new();
    assert_eq!(m.input_view(20), (String::from("fire bolt power..."), true, 0));
    typed(&mut m, "ignis");
    assert_eq!(m.input_view(20), (String::from("ignis"), false, 5));
    assert_eq!(m.input_view(4), (String::from("ignis"), false, 3));
    assert_eq!(m.input_view(1), (String::from("ignis"), false, 0));
}

#[test]
fn spell_steps_keep_what_they_do_not_write() {
    let mut m: SpellTestModal<u8> = SpellTestModal::new();
    typed(&mut m, "ignis");
    m.activate_page(None);
    assert!(!m.inscribe_ready());
    assert_eq!(m.input, "ignis");
    m.record_parse(vec![1], vec![]);
    assert_eq!(m.inscribe_message, Some((String::from("Test a spell first!"), false)));
    m.record_result(SpellTestResult::Fizzle { reason: String::from("x") });
    assert_eq!(m.inscribe_message, Some((String::from("Test a spell first!"), false)));
    assert_eq!(m.parsed_words, vec![1]);
    assert_eq!(m.input, "ignis");
}
