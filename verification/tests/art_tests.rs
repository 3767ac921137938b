use rpg_ui::alchemist::lab_stone::{lab_line, lab_stone_lines, Tone};
use rpg_ui::blacksmith::stone_wall::{stone_patches, PatchSize};
use rpg_ui::command::KeyInput;
use rpg_ui::layout::Rect;
use rpg_ui::mine::{cave_row_runs, char_style, mine_key_action, player_indicator, Indicator, MineAction, Shade};
use rpg_ui::parchment::{border_edge, parchment_cell, side_cells, Ink};

fn chars(s: &str) -> Vec<char> {
    s.chars().collect()
}

#[test]
fn cave_shades() {
    assert_eq!(char_style('#'), Shade::WallDark);
    assert_eq!(char_style('@'), Shade::WallMid);
    assert_eq!(char_style('%'), Shade::WallLight);
    assert_eq!(char_style(';'), Shade::FloorEdge);
    assert_eq!(char_style('.'), Shade::Plain);
    assert_eq!(char_style(' '), Shade::Plain);
}

#[test]
fn cave_row_is_cut_into_runs_of_one_shade() {
    let runs = cave_row_runs(&chars("##@@@ . ;;#"));
    assert_eq!(
        runs,
        vec![
            (Shade::WallDark, String::from("##")),
            (Shade::WallMid, String::from("@@@")),
            (Shade::Plain, String::from(" . ")),
            (Shade::FloorEdge, String::from(";;")),
            (Shade::WallDark, String::from("#")),
        ]
    );
    assert!(cave_row_runs(&vec![]).is_empty());
    assert_eq!(cave_row_runs(&chars("x")), vec![(Shade::Plain, String::from("x"))]);
}

#[test]
fn cave_runs_law_join_back_and_alternate() {
    let row = chars("#%%;;;@.. ##%;");
    let runs = cave_row_runs(&row);
    let joined: String = runs.iter().map(|r| r.1.as_str()).collect();
    assert_eq!(joined, row.iter().collect::<String>());
    for w in runs.windows(2) {
        assert_ne!(w[0].0, w[1].0);
    }
    for (shade, text) in &runs {
        assert!(!text.is_empty());
        assert!(text.chars().all(|c| char_style(c) == *shade));
    }
}

#[test]
fn mine_keys() {
    assert_eq!(mine_key_action(KeyInput::Backspace, false), MineAction::LeaveToTown);
    assert_eq!(mine_key_action(KeyInput::Up, false), MineAction::Step(0, -1));
    assert_eq!(mine_key_action(KeyInput::Down, false), MineAction::Step(0, 1));
    assert_eq!(mine_key_action(KeyInput::Left, false), MineAction::Step(-1, 0));
    assert_eq!(mine_key_action(KeyInput::Right, true), MineAction::Step(1, 0));
    assert_eq!(mine_key_action(KeyInput::Char(' '), true), MineAction::LeaveToTown);
    assert_eq!(mine_key_action(KeyInput::Char(' '), false), MineAction::MineRock);
    assert_eq!(mine_key_action(KeyInput::Char('m'), false), MineAction::Nothing);
    assert_eq!(mine_key_action(KeyInput::Esc, false), MineAction::Nothing);
}

#[test]
fn mine_indicator_above_the_player() {
    assert_eq!(player_indicator(0, true, true), None);
    assert_eq!(player_indicator(5, true, true), Some((Indicator::ExitArrow, 4)));
    assert_eq!(player_indicator(5, false, true), Some((Indicator::Pickaxe, 4)));
    assert_eq!(player_indicator(5, false, false), None);
}

#[test]
fn lab_wall_tones_change_every_five_columns() {
    let patterns = vec![chars("abcdefghijklmnopqrstuvwxyz0123")];
    let line = lab_line(&patterns, 0, 12);
    assert_eq!(
        line,
        vec![
            (Tone::Dark, String::from("abcde")),
            (Tone::Mid, String::from("fghij")),
            (Tone::Light, String::from("kl")),
        ]
    );
}

#[test]
fn lab_wall_shifts_every_two_rows_and_tiles() {
    let patterns = vec![chars("ab"), chars("cd")];
    // row 2 uses pattern 0 and starts one tone further; the short pattern
    // shows spaces past its end
    let line = lab_line(&patterns, 2, 7);
    assert_eq!(line, vec![(Tone::Mid, String::from("ab   ")), (Tone::Light, String::from("  "))]);
    assert!(lab_line(&patterns, 0, 0).is_empty());
}

#[test]
fn lab_wall_pattern_repeats_after_thirty_columns() {
    let patterns = vec![chars("abcdefghijklmnopqrstuvwxyz0123")];
    let line = lab_line(&patterns, 1, 32);
    let text: String = line.iter().map(|r| r.1.as_str()).collect();
    assert_eq!(text, "abcdefghijklmnopqrstuvwxyz0123ab");
}

#[test]
fn lab_wall_fills_the_area() {
    let patterns = vec![chars("ab"), chars("cd"), chars("ef")];
    let lines = lab_stone_lines(&patterns, 4, 4);
    assert_eq!(lines.len(), 4);
    assert_eq!(lines[1], vec![(Tone::Dark, String::from("cd  "))]);
    assert_eq!(lines[3], vec![(Tone::Mid, String::from("ab  "))]);
    assert!(lab_stone_lines(&patterns, 0, 4).is_empty());
    assert!(lab_stone_lines(&patterns, 4, 0).is_empty());
}

#[test]
fn stone_patches_need_room() {
    let small = Rect { x: 0, y: 0, width: 19, height: 30 };
    assert!(stone_patches(small, 4).is_empty());
    let short = Rect { x: 0, y: 0, width: 80, height: 9 };
    assert!(stone_patches(short, 4).is_empty());
}

#[test]
fn stone_patches_on_a_big_area() {
    let area = Rect { x: 2, y: 3, width: 60, height: 30 };
    let patches = stone_patches(area, 4);
    assert_eq!(
        patches,
        vec![
            (PatchSize::Large, Rect { x: 4, y: 23, width: 30, height: 10 }),
            (PatchSize::Medium, Rect { x: 40, y: 25, width: 20, height: 8 }),
            (PatchSize::Small, Rect { x: 44, y: 9, width: 15, height: 6 }),
            (PatchSize::Small, Rect { x: 25, y: 26, width: 15, height: 6 }),
        ]
    );
}

#[test]
fn stone_patches_on_a_middle_area() {
    let area = Rect { x: 0, y: 0, width: 36, height: 14 };
    assert_eq!(
        stone_patches(area, 4),
        vec![(PatchSize::Large, Rect { x: 2, y: 4, width: 30, height: 10 })]
    );
}

#[test]
fn parchment_edge_with_title() {
    let pattern = chars("ab");
    let title = chars(" T ");
    let cells = border_edge(&pattern, &title, 7);
    assert_eq!(
        cells,
        vec![
            ('a', Ink::Border(0)),
            ('b', Ink::Border(1)),
            (' ', Ink::Title),
            ('T', Ink::Title),
            (' ', Ink::Title),
            ('b', Ink::Border(5)),
            ('a', Ink::Border(6)),
        ]
    );
}

#[test]
fn parchment_edge_without_title_cycles_colours() {
    let pattern = chars("▄█▓▒░▒▓█");
    let cells = border_edge(&pattern, &vec![], 12);
    assert_eq!(cells.len(), 12);
    assert_eq!(cells[8], ('▄', Ink::Border(8)));
    assert_eq!(cells[9], ('█', Ink::Border(0)));
    // a title wider than the edge fills it from the left
    let cells = border_edge(&pattern, &chars("ABCDE"), 3);
    assert_eq!(cells, vec![('A', Ink::Title), ('B', Ink::Title), ('C', Ink::Title)]);
}

#[test]
fn parchment_sides() {
    let left = chars("║┃│┆┊");
    let right = chars("║┃│┆┊");
    assert_eq!(side_cells(&left, &right, 1), (('┃', Ink::Border(1)), ('┃', Ink::Border(4))));
    assert_eq!(side_cells(&left, &right, 7), (('│', Ink::Border(7)), ('│', Ink::Border(1))));
}

#[test]
fn parchment_texture() {
    let texture = vec![chars("~:~*"), chars(":*:~")];
    assert_eq!(parchment_cell(&texture, 0, 0), ('~', 0));
    assert_eq!(parchment_cell(&texture, 1, 3), ('~', 0));
    assert_eq!(parchment_cell(&texture, 2, 4), (' ', 2));
    assert_eq!(parchment_cell(&texture, 3, 31), ('*', 2));
    assert_eq!(parchment_cell(&texture, 5, 8), (' ', 1));
}
