use rpg_ui::layout::Rect;
use rpg_ui::magic::spell_test_modal::{SpellTestModal, SpellTestResult};
use rpg_ui::magic::tester_view::{ModalTone, PlacedText};

fn views(texts: &[PlacedText]) -> Vec<(u32, u32, String, ModalTone)> {
    texts.iter().map(|p| (p.row, p.col, p.text.clone(), p.tone)).collect()
}

fn item(row: u32, col: u32, text: &str, tone: ModalTone) -> (u32, u32, String, ModalTone) {
    (row, col, text.to_string(), tone)
}

fn known_words() -> Vec<String> {
    ["fire", "bolt", "power", "shield", "heal", "storm", "ice", "wind", "earth", "light", "shadow", "arcane"]
        .iter()
        .map(|w| w.to_string())
        .collect()
}

#[test]
fn tester_before_any_test() {
    let m: SpellTestModal<u8> = SpellTestModal::new();
    let area = Rect { x: 0, y: 0, width: 64, height: 20 };
    let got = views(&m.content_texts(area, 0, &known_words()));
    let expected = vec![
        item(1, 16, "✦ Spell Tester (God Mode) ✦", ModalTone::CreamWood),
        item(3, 2, "Enter words separated by spaces, then press Enter", ModalTone::TanWood),
        item(5, 2, &" ".repeat(60), ModalTone::InputField),
        item(5, 2, "fire bolt power...", ModalTone::Placeholder),
        item(5, 2, "▌", ModalTone::Cursor),
        item(7, 2, &"─".repeat(60), ModalTone::DarkWalnut),
        item(8, 2, "Available words:", ModalTone::OakBrown),
        item(9, 2, "fire, bolt, power, shield, heal, storm, ice, wind, earth,", ModalTone::TanWood),
        item(10, 2, "light, shadow, arcane", ModalTone::TanWood),
        item(18, 5, "[Enter] Test  [←→] Page  [A] Activate  [Esc] Close", ModalTone::DarkWalnut),
    ];
    assert_eq!(got, expected);
}

#[test]
fn tester_backfire_is_clipped_and_wrapped() {
    let mut m: SpellTestModal<u8> = SpellTestModal::new();
    m.input = "fire ice".to_string();
    m.result = Some(SpellTestResult::Success {
        spell_name: "Unstable Magic".to_string(),
        description: "The words pull against each other and the spell turns on its caster with a burst of wild flame"
            .to_string(),
        is_backfire: true,
    });
    m.selected_page = 0;
    let area = Rect { x: 10, y: 3, width: 24, height: 20 };
    let got = views(&m.content_texts(area, 1, &known_words()));
    let expected = vec![
        item(4, 12, "✦ Spell Tester (God Mode) ✦", ModalTone::CreamWood),
        item(6, 12, "Enter words separate", ModalTone::TanWood),
        item(8, 12, &" ".repeat(20), ModalTone::InputField),
        item(8, 12, "fire ice", ModalTone::InputText),
        item(8, 20, "▌", ModalTone::Cursor),
        item(10, 12, &"─".repeat(20), ModalTone::DarkWalnut),
        item(11, 12, "⚠ BACKFIRE: ", ModalTone::Red),
        item(11, 24, "Unstable", ModalTone::CreamWood),
        item(13, 12, "The words pull", ModalTone::LightBeige),
        item(14, 12, "against each other", ModalTone::LightBeige),
        item(15, 12, "and the spell turns", ModalTone::LightBeige),
        item(16, 12, "on its caster with a", ModalTone::LightBeige),
        item(19, 12, "Inscribe to page: ", ModalTone::TanWood),
        item(19, 30, "[", ModalTone::Cyan),
        item(19, 31, "1", ModalTone::White),
        item(21, 12, "[Tab] Inscribe  [A] Activate  [←→] Page  [Esc] Close", ModalTone::DarkWalnut),
    ];
    assert_eq!(got, expected);
}

#[test]
fn tester_unknown_words_and_page_slots() {
    let mut m: SpellTestModal<u8> = SpellTestModal::new();
    m.input = "zap qux".to_string();
    m.result = Some(SpellTestResult::ParseError { unknown: vec!["zap".to_string(), "qux".to_string()] });
    m.selected_page = 2;
    let area = Rect { x: 0, y: 0, width: 44, height: 16 };
    let got = views(&m.content_texts(area, 2, &known_words()));
    let expected = vec![
        item(1, 6, "✦ Spell Tester (God Mode) ✦", ModalTone::CreamWood),
        item(3, 2, "Enter words separated by spaces, then pr", ModalTone::TanWood),
        item(5, 2, &" ".repeat(40), ModalTone::InputField),
        item(5, 2, "zap qux", ModalTone::InputText),
        item(5, 9, "▌", ModalTone::Cursor),
        item(7, 2, &"─".repeat(40), ModalTone::DarkWalnut),
        item(8, 2, "✗ Unknown words: ", ModalTone::Red),
        item(8, 19, "zap", ModalTone::CreamWood),
        item(8, 23, "qux", ModalTone::CreamWood),
        item(12, 2, "Inscribe to page: ", ModalTone::TanWood),
        item(12, 20, "[", ModalTone::DarkWalnut),
        item(12, 21, "1", ModalTone::TanWood),
        item(12, 22, "]", ModalTone::DarkWalnut),
        item(12, 24, "[", ModalTone::DarkWalnut),
        item(12, 25, "2", ModalTone::TanWood),
        item(12, 26, "]", ModalTone::DarkWalnut),
        item(12, 28, "[", ModalTone::Cyan),
        item(12, 29, "3", ModalTone::Green),
        item(12, 30, "*", ModalTone::Green),
        item(12, 31, "]", ModalTone::Cyan),
        item(14, 2, "[Enter] Test  [←→] Page  [A] Activate  [Esc] Close", ModalTone::DarkWalnut),
    ];
    assert_eq!(got, expected);
}

#[test]
fn tester_fizzle_with_message() {
    let mut m: SpellTestModal<u8> = SpellTestModal::new();
    m.input = "fire".to_string();
    m.result = Some(SpellTestResult::Fizzle { reason: "The words do not agree".to_string() });
    m.inscribe_message = Some(("Inscribed Fizzle on page 1!".to_string(), true));
    let area = Rect { x: 0, y: 0, width: 64, height: 20 };
    let got = views(&m.content_texts(area, 0, &known_words()));
    assert_eq!(got[6], item(8, 2, "✗ Fizzle: ", ModalTone::Yellow));
    assert_eq!(got[7], item(8, 12, "The words do not agree", ModalTone::TanWood));
    assert_eq!(got[8], item(16, 2, "Inscribed Fizzle on page 1!", ModalTone::Green));
    assert_eq!(got[9], item(18, 4, "[Tab] Inscribe  [A] Activate  [←→] Page  [Esc] Close", ModalTone::DarkWalnut));
    assert_eq!(got.len(), 10);
}

#[test]
fn tester_modal_area() {
    use_area(rpg_ui::magic::tester_view::modal_area(120, 40), Rect { x: 30, y: 8, width: 60, height: 24 });
    use_area(rpg_ui::magic::tester_view::modal_area(70, 30), Rect { x: 10, y: 4, width: 49, height: 21 });
    use_area(rpg_ui::magic::tester_view::modal_area(30, 10), Rect { x: 0, y: 0, width: 40, height: 16 });
}

fn use_area(got: Rect, expected: Rect) {
    assert_eq!((got.x, got.y, got.width, got.height), (expected.x, expected.y, expected.width, expected.height));
}
