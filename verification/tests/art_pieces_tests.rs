use rpg_ui::art::campfire::campfire_art;
use rpg_ui::art::dragon::dragon_art;
use rpg_ui::art::flask::flask_art;
use rpg_ui::art::forge::forge_art;
use rpg_ui::art::ArtTone;
use rpg_ui::layout::campfire_width;

fn text(row: &[(ArtTone, String)]) -> String {
    row.iter().map(|s| s.1.as_str()).collect()
}

fn width(row: &[(ArtTone, String)]) -> usize {
    text(row).chars().count()
}

#[test]
fn campfire_rows_fit_the_campfire_width() {
    for frame in 0..4 {
        let rows = campfire_art(frame);
        assert_eq!(rows.len(), 10);
        for row in &rows {
            assert!(width(row) <= campfire_width() as usize);
        }
    }
}

#[test]
fn campfire_rows() {
    let rows = campfire_art(0);
    assert_eq!(text(&rows[7]), " \\▄▄▄▄▄▄▄▄▄▄▄▄▄▄▄▄▄▄▄▄▄▄▄/ ");
    assert_eq!(rows[7][1].0, ArtTone::WoodBrown);
    // the spark row is cut at the campfire's width
    assert_eq!(text(&campfire_art(2)[0]), "        '    .    *    .   ");
    assert_eq!(text(&rows[9]), ".oOo.Oo.Oo.Oo.Oo.Oo.Oo.Oo");
}

#[test]
fn flask_rows_and_offsets() {
    let rows = flask_art(3, 1);
    assert_eq!(rows.len(), 12);
    let offsets = [10, 8, 8, 8, 6, 4, 2, 0, 0, 0, 2, 4];
    for (row, off) in rows.iter().zip(offsets.iter()) {
        assert_eq!(row[0], (ArtTone::Plain, " ".repeat(3 + off)));
    }
    assert_eq!(text(&rows[0]), "             '  ~  '");
    assert_eq!(text(&rows[11]), "       ══════════════");
}

#[test]
fn forge_rows() {
    let rows = forge_art(2, 2);
    assert_eq!(rows.len(), 18);
    assert_eq!(text(&rows[5]), "  ╔════════════════════════╗");
    for row in &rows[5..17] {
        assert_eq!(width(row), 2 + 26);
    }
    assert_eq!(text(&forge_art(2, 3)[0]), "         .  '  .  *  .");
    assert_eq!(width(&rows[17]), 2 + 3 + 18);
    assert_eq!(text(&rows[17]), "     ▀▀▀▀▀▀▀▀▀▀▀▀▀▀▀▀▀▀");
}

#[test]
fn dragon_rows() {
    let rows = dragon_art();
    assert_eq!(rows.len(), 19);
    assert_eq!(text(&rows[0]), "       \\(______     ______)/");
    assert_eq!(text(&rows[18]), "        (_(_(_)'-=-'(_)_)_)");
    for row in &rows {
        assert!(width(row) <= 41);
    }
}
