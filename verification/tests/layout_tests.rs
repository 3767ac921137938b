use rpg_ui::animation::{advance_frames, synchronized_frame};
use rpg_ui::layout::{
    animation_frame, border_fits, border_row, calculate_scroll_offset, campfire_width,
    centered_offset, empty_segments, modal_extent, BorderRow,
};
use rpg_ui::selection::{list_move_down, list_move_up, Selection};

#[test]
fn campfire_is_27_wide() {
    assert_eq!(campfire_width(), 27);
}

#[test]
fn animation_frames_last_150_ms_and_cycle_through_four() {
    assert_eq!(animation_frame(0), 0);
    assert_eq!(animation_frame(149), 0);
    assert_eq!(animation_frame(150), 1);
    assert_eq!(animation_frame(599), 3);
    assert_eq!(animation_frame(600), 0);
    assert_eq!(animation_frame(u64::MAX), ((u64::MAX / 150) % 4) as usize);
}

#[test]
fn scroll_offset_is_zero_when_everything_fits() {
    assert_eq!(calculate_scroll_offset(0, 5, 10), 0);
    assert_eq!(calculate_scroll_offset(9, 10, 10), 0);
}

#[test]
fn scroll_offset_keeps_selection_in_the_middle() {
    assert_eq!(calculate_scroll_offset(10, 20, 6), 7);
    assert_eq!(calculate_scroll_offset(2, 20, 6), 0);
}

#[test]
fn scroll_offset_never_runs_past_the_end() {
    assert_eq!(calculate_scroll_offset(19, 20, 6), 14);
}

#[test]
fn scroll_law_selection_stays_visible() {
    for total in 1..30usize {
        for visible in 1..12usize {
            for selected in 0..total {
                let off = calculate_scroll_offset(selected, total, visible);
                assert!(off <= selected && selected < off + visible);
                if total > visible {
                    assert!(off + visible <= total);
                }
            }
        }
    }
}

#[test]
fn modal_extent_is_a_percentage_within_bounds() {
    assert_eq!(modal_extent(100, 60, 40, 80), 60);
    assert_eq!(modal_extent(50, 60, 40, 80), 40);
    assert_eq!(modal_extent(200, 60, 40, 80), 80);
    // when the bounds cross, the lower one wins
    assert_eq!(modal_extent(200, 60, 90, 80), 90);
}

#[test]
fn centered_offset_centres_or_is_zero() {
    assert_eq!(centered_offset(100, 30), 35);
    assert_eq!(centered_offset(31, 30), 0);
    assert_eq!(centered_offset(10, 30), 0);
}

#[test]
fn border_needs_four_rows_and_both_sides() {
    assert!(border_fits(14, 4));
    assert!(!border_fits(13, 4));
    assert!(!border_fits(20, 3));
}

#[test]
fn border_rows() {
    let rows: Vec<BorderRow> = (0..6).map(|r| border_row(6, r)).collect();
    assert_eq!(
        rows,
        vec![
            BorderRow::TopCorners,
            BorderRow::Bar(0),
            BorderRow::Sides(1),
            BorderRow::Sides(2),
            BorderRow::Bar(3),
            BorderRow::BottomCorners,
        ]
    );
    assert_eq!(border_row(10, 5), BorderRow::Sides(0));
}

#[test]
fn empty_segments_is_the_rest_of_the_bar() {
    assert_eq!(empty_segments(10, 3), 7);
    assert_eq!(empty_segments(10, 10), 0);
    assert_eq!(empty_segments(3, 5), 0);
}

#[test]
fn selection_basics() {
    let mut s = Selection::new();
    assert_eq!(s.selected(), None);
    assert_eq!(s.current(), 0);
    s.select(Some(4));
    assert_eq!(s.selected(), Some(4));
    assert_eq!(Selection::first().selected(), Some(0));
}

#[test]
fn list_moves_wrap_around() {
    let mut s = Selection::new();
    list_move_up(&mut s, 3);
    assert_eq!(s.selected(), Some(2));
    list_move_down(&mut s, 3);
    assert_eq!(s.selected(), Some(0));
    list_move_down(&mut s, 3);
    assert_eq!(s.selected(), Some(1));
}

#[test]
fn list_moves_leave_an_empty_list_alone() {
    let mut s = Selection::new();
    list_move_up(&mut s, 0);
    assert_eq!(s.selected(), None);
    list_move_down(&mut s, 0);
    assert_eq!(s.selected(), None);
}

#[test]
fn list_move_down_from_past_the_end_goes_to_the_top() {
    let mut s = Selection::first();
    s.select(Some(7));
    list_move_down(&mut s, 3);
    assert_eq!(s.selected(), Some(0));
}

#[test]
fn list_moves_law_up_then_down_returns() {
    for count in 1..8usize {
        for start in 0..count {
            let mut s = Selection::first();
            s.select(Some(start));
            list_move_up(&mut s, count);
            list_move_down(&mut s, count);
            assert_eq!(s.selected(), Some(start));
            list_move_down(&mut s, count);
            list_move_up(&mut s, count);
            assert_eq!(s.selected(), Some(start));
        }
    }
}

#[test]
fn list_moves_law_count_moves_come_back() {
    let mut s = Selection::first();
    s.select(Some(2));
    for _ in 0..5 {
        list_move_down(&mut s, 5);
    }
    assert_eq!(s.selected(), Some(2));
}

#[test]
fn synchronized_frame_cycles_within_range() {
    assert_eq!(synchronized_frame(2, 5, 7), 5);
    assert_eq!(synchronized_frame(2, 5, 8), 2);
    assert_eq!(synchronized_frame(0, 0, 99), 0);
}

#[test]
fn advance_frames_loops_or_stops() {
    assert_eq!(advance_frames(0, 0, 3, true, 5), 1);
    assert_eq!(advance_frames(0, 0, 3, false, 10), 3);
    assert_eq!(advance_frames(1, 0, 3, true, 0), 1);
}

#[test]
fn advance_frames_law_stays_in_range() {
    for ticks in 0..20u32 {
        for looping in [true, false] {
            let f = advance_frames(4, 4, 9, looping, ticks);
            assert!((4..=9).contains(&f));
        }
    }
}
