use rpg_ui::command::{CmdOutcome, Command, KeyInput};
use rpg_ui::dungeon::boss_room;
use rpg_ui::dungeon::minimap::{
    cell_text, ICON_PLAYER,
    cell_look, has_adjacent_revealed_room, minimap_size, room_type_icon, CellLook, RoomType, RoomView,
    ICON_BOSS, ICON_MONSTER, ICON_REST,
};
use rpg_ui::dungeon::navigation::{
    self, compass_move, navigation_choice, state_after_move, Direction, Exits, NavigationAction,
};
use rpg_ui::dungeon::rest_room::{self, RestOutcome};
use rpg_ui::dungeon::room_entry::{self, can_bypass_current_room, chest_toasts, state_after_enter, RoomEntryStep};
use rpg_ui::dungeon::screen::{
    centered_rect, dungeon_command, CompassPosition, DungeonScreen, DungeonState, DungeonStep, SubmitTarget,
};
use rpg_ui::layout::Rect;
use rpg_ui::toast::ToastType;

const ALL: Exits = Exits { north: true, east: true, south: true, west: true };
const NONE: Exits = Exits { north: false, east: false, south: false, west: false };

#[test]
fn compass_moves_towards_existing_exits() {
    assert_eq!(compass_move(CompassPosition::Center, Command::MoveUp, ALL), CompassPosition::North);
    assert_eq!(compass_move(CompassPosition::Center, Command::MoveUp, NONE), CompassPosition::Center);
    assert_eq!(compass_move(CompassPosition::North, Command::MoveDown, NONE), CompassPosition::Center);
    assert_eq!(compass_move(CompassPosition::North, Command::MoveRight, ALL), CompassPosition::East);
    assert_eq!(compass_move(CompassPosition::West, Command::MoveRight, NONE), CompassPosition::Center);
    assert_eq!(compass_move(CompassPosition::East, Command::MoveRight, ALL), CompassPosition::East);
}

#[test]
fn compass_law_never_lands_on_a_missing_exit() {
    let exits = Exits { north: true, east: false, south: false, west: true };
    let positions = [CompassPosition::Center, CompassPosition::North, CompassPosition::West];
    let cmds = [Command::MoveUp, Command::MoveDown, Command::MoveLeft, Command::MoveRight];
    for p in positions {
        for c in cmds {
            let q = compass_move(p, c, exits);
            assert!(q != CompassPosition::East && q != CompassPosition::South);
        }
    }
    let there = compass_move(CompassPosition::Center, Command::MoveLeft, exits);
    assert_eq!(compass_move(there, Command::MoveRight, exits), CompassPosition::Center);
}

#[test]
fn compass_submit_actions() {
    assert_eq!(navigation::handle_submit(CompassPosition::Center), NavigationAction::LeaveDungeon);
    assert_eq!(navigation::handle_submit(CompassPosition::South), NavigationAction::Move(Direction::South));
}

#[test]
fn view_after_a_move() {
    assert_eq!(state_after_move(false, None), None);
    assert_eq!(state_after_move(true, Some((RoomType::Boss, false))), Some(DungeonState::BossRoom));
    assert_eq!(state_after_move(true, Some((RoomType::Boss, true))), Some(DungeonState::RoomEntry));
    assert_eq!(state_after_move(true, Some((RoomType::Chest, false))), Some(DungeonState::RoomEntry));
    assert_eq!(state_after_move(true, None), Some(DungeonState::RoomEntry));
}

#[test]
fn only_monster_rooms_can_be_bypassed() {
    assert!(can_bypass_current_room(Some(RoomType::Monster), true));
    assert!(!can_bypass_current_room(Some(RoomType::Monster), false));
    assert!(!can_bypass_current_room(Some(RoomType::Boss), true));
    assert!(!can_bypass_current_room(None, true));
}

#[test]
fn room_entry_submit() {
    assert_eq!(
        room_entry::handle_submit(0, Some((true, RoomType::Rest)), false),
        RoomEntryStep::Finish(Some(DungeonState::RestRoom))
    );
    assert_eq!(
        room_entry::handle_submit(0, Some((true, RoomType::Chest)), false),
        RoomEntryStep::Finish(Some(DungeonState::Navigation))
    );
    assert_eq!(room_entry::handle_submit(0, None, true), RoomEntryStep::Finish(None));
    assert_eq!(room_entry::handle_submit(1, Some((false, RoomType::Monster)), true), RoomEntryStep::Bypass);
    assert_eq!(
        room_entry::handle_submit(1, Some((false, RoomType::Monster)), false),
        RoomEntryStep::Enter(RoomType::Monster)
    );
    assert_eq!(
        room_entry::handle_submit(0, Some((false, RoomType::Trap)), true),
        RoomEntryStep::Enter(RoomType::Trap)
    );
}

#[test]
fn view_after_entering_a_room() {
    assert_eq!(state_after_enter(RoomType::Monster, false), None);
    assert_eq!(state_after_enter(RoomType::Boss, false), Some(DungeonState::BossRoom));
    assert_eq!(state_after_enter(RoomType::Treasure, false), Some(DungeonState::Navigation));
    assert_eq!(state_after_enter(RoomType::Treasure, true), None);
}

#[test]
fn resting_heals_half_but_not_beyond_full() {
    assert_eq!(rest_room::handle_submit(0, 10, 100, 50), RestOutcome::Heal(50));
    assert_eq!(rest_room::handle_submit(0, 80, 100, 50), RestOutcome::Heal(20));
    assert_eq!(rest_room::handle_submit(0, 100, 100, 50), RestOutcome::AlreadyFull);
    assert_eq!(rest_room::handle_submit(1, 10, 100, 50), RestOutcome::Leave(Some(DungeonState::Navigation)));
    assert_eq!(rest_room::handle_submit(2, 10, 100, 50), RestOutcome::Leave(None));
}

#[test]
fn boss_room_attacks_while_alive_and_logs() {
    assert!(boss_room::handle_submit(true));
    assert!(!boss_room::handle_submit(false));
    let mut log = vec![String::from("first")];
    assert_eq!(boss_room::after_attack(&mut log, Some(String::from("hit")), false), None);
    assert_eq!(log, vec!["first", "hit"]);
    assert_eq!(boss_room::after_attack(&mut log, None, true), Some(DungeonState::Navigation));
    assert_eq!(log.len(), 2);
}

#[test]
fn minimap_icons_and_size() {
    assert_eq!(room_type_icon(RoomType::Monster), ICON_MONSTER);
    assert_eq!(room_type_icon(RoomType::Boss), ICON_BOSS);
    assert_eq!(room_type_icon(RoomType::Rest), ICON_REST);
    assert_eq!(minimap_size(5), (27, 7));
    assert_eq!(minimap_size(0), (2, 2));
}

fn room(t: RoomType, visited: bool, cleared: bool, revealed: bool) -> RoomView {
    RoomView { room_type: t, is_visited: visited, is_cleared: cleared, is_revealed: revealed }
}

#[test]
fn minimap_cells() {
    let r = room(RoomType::Boss, true, false, true);
    assert_eq!(cell_look(Some(r), true, false), CellLook::Current);
    assert_eq!(cell_look(Some(r), false, false), CellLook::Visited(ICON_BOSS));
    let c = room(RoomType::Rest, true, true, true);
    assert_eq!(cell_look(Some(c), false, false), CellLook::Cleared(ICON_REST));
    assert_eq!(cell_look(Some(room(RoomType::Chest, false, false, true)), false, false), CellLook::Unknown);
    assert_eq!(cell_look(Some(room(RoomType::Chest, false, false, false)), false, false), CellLook::Dim);
    assert_eq!(cell_look(None, false, true), CellLook::Dim);
    assert_eq!(cell_look(None, false, false), CellLook::Hidden);
}

#[test]
fn adjacent_revealed_rooms() {
    let hidden = room(RoomType::Trap, false, false, false);
    let shown = room(RoomType::Trap, false, false, true);
    assert!(!has_adjacent_revealed_room([None, None, None, None]));
    assert!(!has_adjacent_revealed_room([Some(hidden), None, Some(hidden), None]));
    assert!(has_adjacent_revealed_room([None, None, None, Some(shown)]));
}

#[test]
fn centered_rect_centres_and_clips() {
    let area = Rect { x: 10, y: 5, width: 100, height: 40 };
    assert_eq!(centered_rect(60, 20, area), Rect { x: 30, y: 15, width: 60, height: 20 });
    assert_eq!(centered_rect(200, 50, area), Rect { x: 10, y: 5, width: 100, height: 40 });
}

#[test]
fn dungeon_keys() {
    assert_eq!(dungeon_command(KeyInput::Up), Some(Command::MoveUp));
    assert_eq!(dungeon_command(KeyInput::Left), Some(Command::MoveLeft));
    assert_eq!(dungeon_command(KeyInput::Enter), Some(Command::Submit));
    assert_eq!(dungeon_command(KeyInput::Backspace), Some(Command::Cancel));
    assert_eq!(dungeon_command(KeyInput::Esc), None);
    assert_eq!(dungeon_command(KeyInput::Char('q')), None);
}

#[test]
fn dungeon_screen_starts_at_room_entry() {
    let s = DungeonScreen::new();
    assert_eq!(s.state, DungeonState::RoomEntry);
    assert_eq!(s.list_state.selected(), Some(0));
    assert_eq!(s.compass_selection, CompassPosition::Center);
    assert_eq!(s.rest_selection, 0);
    assert!(s.boss_combat_log.is_empty());
    assert_eq!(s.submit_target(), SubmitTarget::RoomEntry(0));
    assert!(s.cancel_leaves());
}

#[test]
fn room_entry_menu_offers_bypass_only_when_possible() {
    let mut s = DungeonScreen::new();
    assert_eq!(s.move_selection(Command::MoveDown, false, ALL), CmdOutcome::Changed);
    assert_eq!(s.list_state.selected(), Some(0));
    s.move_selection(Command::MoveDown, true, ALL);
    assert_eq!(s.list_state.selected(), Some(1));
    s.move_selection(Command::MoveDown, true, ALL);
    assert_eq!(s.list_state.selected(), Some(1));
    s.move_selection(Command::MoveUp, true, ALL);
    assert_eq!(s.list_state.selected(), Some(0));
}

#[test]
fn dungeon_views_route_moves_and_submits() {
    let mut s = DungeonScreen::new();
    s.transition_to(DungeonState::Navigation);
    s.move_selection(Command::MoveUp, false, ALL);
    assert_eq!(s.compass_selection, CompassPosition::North);
    assert_eq!(s.submit_target(), SubmitTarget::Navigation(CompassPosition::North));
    s.transition_to(DungeonState::RestRoom);
    assert_eq!(s.compass_selection, CompassPosition::Center);
    s.move_selection(Command::MoveDown, false, ALL);
    s.move_selection(Command::MoveDown, false, ALL);
    assert_eq!(s.rest_selection, 1);
    assert_eq!(s.submit_target(), SubmitTarget::RestRoom(1));
    s.boss_combat_log.push(String::from("old"));
    s.transition_to(DungeonState::BossRoom);
    assert!(s.boss_combat_log.is_empty());
    assert_eq!(s.submit_target(), SubmitTarget::BossRoom);
    assert!(!s.cancel_leaves());
}

#[test]
fn combat_return_clears_the_room_on_victory() {
    let mut s = DungeonScreen::new();
    s.on_combat_return(false);
    assert_eq!(s.state, DungeonState::RoomEntry);
    s.on_combat_return(true);
    assert_eq!(s.state, DungeonState::Navigation);
}

#[test]
fn sync_follows_the_dungeon() {
    let mut s = DungeonScreen::new();
    s.sync_with_dungeon(3, Some((true, RoomType::Rest)));
    assert_eq!(s.state, DungeonState::RestRoom);
    let mut s = DungeonScreen::new();
    s.sync_with_dungeon(3, Some((true, RoomType::Chest)));
    assert_eq!(s.state, DungeonState::Navigation);
    // a fresh dungeon resets a stale view
    s.boss_combat_log.push(String::from("x"));
    s.sync_with_dungeon(1, Some((false, RoomType::Monster)));
    assert_eq!(s.state, DungeonState::RoomEntry);
    assert!(s.boss_combat_log.is_empty());
    // an uncleared room seen from room entry stays
    s.sync_with_dungeon(4, Some((false, RoomType::Monster)));
    assert_eq!(s.state, DungeonState::RoomEntry);
}

#[test]
fn chest_toasts_per_drop_or_empty() {
    let loot = vec![(String::from("Gold Coin"), 3), (String::from("Herb"), 1)];
    assert_eq!(
        chest_toasts(&loot),
        vec![
            (ToastType::Success, String::from("Found: Gold Coin x3")),
            (ToastType::Success, String::from("Found: Herb x1")),
        ]
    );
    assert_eq!(chest_toasts(&vec![]), vec![(ToastType::Info, String::from("The chest was empty."))]);
}

#[test]
fn navigation_list_choice() {
    let dirs = vec![Direction::North, Direction::West];
    assert_eq!(navigation_choice(0, &dirs), NavigationAction::Move(Direction::North));
    assert_eq!(navigation_choice(1, &dirs), NavigationAction::Move(Direction::West));
    assert_eq!(navigation_choice(2, &dirs), NavigationAction::LeaveDungeon);
    assert_eq!(navigation_choice(0, &vec![]), NavigationAction::LeaveDungeon);
}

#[test]
fn rest_toasts() {
    assert_eq!(
        rest_room::rest_toast(RestOutcome::Heal(25)),
        Some((ToastType::Success, String::from("Rested and recovered 25 HP!")))
    );
    assert_eq!(
        rest_room::rest_toast(RestOutcome::AlreadyFull),
        Some((ToastType::Info, String::from("Already at full health!")))
    );
    assert_eq!(rest_room::rest_toast(RestOutcome::Leave(Some(DungeonState::Navigation))), None);
}

#[test]
fn minimap_cell_texts() {
    assert_eq!(cell_text(CellLook::Current), format!("[ {} ]", ICON_PLAYER));
    assert_eq!(cell_text(CellLook::Cleared(ICON_BOSS)), format!("[ {} ]", ICON_BOSS));
    assert_eq!(cell_text(CellLook::Unknown), "[ ? ]");
    assert_eq!(cell_text(CellLook::Dim), "  \u{b7}  ");
    assert_eq!(cell_text(CellLook::Hidden), "     ");
    for look in [CellLook::Current, CellLook::Visited(ICON_REST), CellLook::Dim, CellLook::Hidden] {
        assert_eq!(cell_text(look).chars().count(), 5);
    }
}

#[test]
fn dungeon_perform_dispatches_commands() {
    let mut s = DungeonScreen::new();
    assert_eq!(s.perform(Command::MoveDown, true, ALL), (CmdOutcome::Changed, DungeonStep::Moved));
    assert_eq!(s.list_state.selected(), Some(1));
    assert_eq!(
        s.perform(Command::Submit, true, ALL),
        (CmdOutcome::Submit, DungeonStep::Submitted(SubmitTarget::RoomEntry(1)))
    );
    assert_eq!(s.perform(Command::Cancel, true, ALL), (CmdOutcome::Submit, DungeonStep::LeaveDungeon));
    s.transition_to(DungeonState::BossRoom);
    assert_eq!(s.perform(Command::Cancel, true, ALL), (CmdOutcome::Submit, DungeonStep::StayInBossRoom));
    assert_eq!(s.state, DungeonState::BossRoom);
    assert_eq!(s.perform(Command::Other, true, ALL), (CmdOutcome::Ignored, DungeonStep::Ignored));
    s.transition_to(DungeonState::RestRoom);
    for _ in 0..3 {
        s.perform(Command::MoveDown, false, ALL);
    }
    assert_eq!(s.rest_selection, 1);
}
