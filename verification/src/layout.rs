//! Screen geometry: art sizes, animation frames, modal placement,
//! scrolling and the decorative border's rows.
use vstd::prelude::*;

verus! {

/// A screen rectangle.
#[derive(Debug, Clone, Copy, PartialEq, Eq, Structural)]
pub struct Rect {
    pub x: u16,
    pub y: u16,
    pub width: u16,
    pub height: u16,
}

/// Columns that every row of the campfire art fits in.
pub open spec fn campfire_columns() -> nat {
    27
}

/// Width of the campfire artwork, in columns: no row of `campfire_art` is
/// wider.
pub fn campfire_width() -> (w: u16)
    ensures
        w == campfire_columns(),
        w == 27,
{
    27
}

/// Milliseconds each frame of the looping art animations lasts.
pub const FRAME_DURATION_MS: u64 = 150;
/// Frames in the looping art animations.
pub const NUM_FRAMES: u64 = 4;

/// The frame of a looping art animation `elapsed_ms` milliseconds after it
/// started.
pub fn animation_frame(elapsed_ms: u64) -> (f: usize)
    ensures
        f == (elapsed_ms / FRAME_DURATION_MS) % NUM_FRAMES,
        f < NUM_FRAMES,
{
    ((elapsed_ms / FRAME_DURATION_MS) % NUM_FRAMES) as usize
}

/// First row to show so that row `selected` of `total` stays visible in a
/// window of `visible` rows: the selection is kept near the middle, and the
/// window never runs past the end.
pub fn calculate_scroll_offset(selected: usize, total: usize, visible: usize) -> (offset: usize)
    ensures
        offset == (if total <= visible {
            0
        } else {
            let ideal = if selected >= visible / 2 {
                selected - visible / 2
            } else {
                0
            };
            if ideal <= total - visible {
                ideal
            } else {
                total - visible
            }
        }),
{
    if total <= visible {
        return 0;
    }
    let ideal_start = selected.saturating_sub(visible / 2);
    let last_start = total - visible;
    if ideal_start <= last_start {
        ideal_start
    } else {
        last_start
    }
}

/// Law of scrolling: the window stays within the list, and a selected row
/// of the list is inside the window.
pub proof fn lemma_scroll_keeps_selection_visible(selected: nat, total: nat, visible: nat)
    requires
        visible > 0,
        selected < total,
    ensures
        ({
            let offset: int = if total <= visible {
                0
            } else {
                let ideal: int = if selected >= visible / 2 {
                    selected - visible / 2
                } else {
                    0
                };
                if ideal <= total - visible {
                    ideal
                } else {
                    total - visible
                }
            };
            &&& 0 <= offset
            &&& total > visible ==> offset + visible <= total
            &&& offset <= selected < offset + visible
        }),
{
}

/// One side of a modal: `percent` of the frame's extent, kept between
/// `min` and `max` (the lower bound wins).
pub fn modal_extent(frame: u16, percent: u16, min: u16, max: u16) -> (e: u16)
    requires
        frame * percent <= u16::MAX,
    ensures
        e == ({
            let p = frame * percent / 100;
            let capped = if p < max {
                p
            } else {
                max as int
            };
            if capped > min {
                capped
            } else {
                min as int
            }
        }),
{
    let p = frame * percent / 100;
    let capped = if p < max {
        p
    } else {
        max
    };
    if capped > min {
        capped
    } else {
        min
    }
}

/// Offset that centres an extent `size` in `frame` (0 when it does not
/// fit).
pub fn centered_offset(frame: u16, size: u16) -> (o: u16)
    ensures
        o == (if frame >= size {
            frame - size
        } else {
            0
        }) / 2,
        size <= frame ==> o + size <= frame,
{
    frame.saturating_sub(size) / 2
}

/// What a row of the decorative border shows.
#[derive(Debug, Clone, Copy, PartialEq, Eq, Structural)]
pub enum BorderRow {
    /// The top corners.
    TopCorners,
    /// Side pattern `k` with the horizontal bar between.
    Bar(usize),
    /// Side pattern `k` on both edges, the middle left see-through.
    Sides(usize),
    /// The bottom corners.
    BottomCorners,
}

/// Side patterns the border cycles through.
pub const SIDE_PATTERN_COUNT: usize = 4;
/// Width of the corner and side patterns.
pub const BORDER_WIDTH: u16 = 7;

/// What row `row` of a border `height` rows high shows.
pub open spec fn spec_border_row(height: nat, row: nat) -> BorderRow {
    if row == 0 {
        BorderRow::TopCorners
    } else if row == 1 {
        BorderRow::Bar(0)
    } else if row + 1 == height {
        BorderRow::BottomCorners
    } else if row + 2 == height {
        BorderRow::Bar(((row - 1) as nat % SIDE_PATTERN_COUNT as nat) as usize)
    } else {
        BorderRow::Sides(((row - 1) as nat % SIDE_PATTERN_COUNT as nat) as usize)
    }
}

/// Whether the decorative border is drawn on an area of that size (at
/// least 4 rows, and room for both sides).
pub fn border_fits(width: u16, height: u16) -> (b: bool)
    ensures
        b == (height >= 4 && width >= 2 * BORDER_WIDTH),
{
    !(height < 4 || width < BORDER_WIDTH * 2)
}

/// The content of row `row` of a border `height` rows high: corners on the
/// first and last rows, the horizontal bar on the second and the
/// second-to-last, and the side patterns (cycling) in between.
pub fn border_row(height: usize, row: usize) -> (r: BorderRow)
    requires
        height >= 4,
        row < height,
    ensures
        r == spec_border_row(height as nat, row as nat),
{
    if row == 0 {
        BorderRow::TopCorners
    } else if row == 1 {
        BorderRow::Bar(0)
    } else if row + 1 == height {
        BorderRow::BottomCorners
    } else if row + 2 == height {
        BorderRow::Bar((row - 1) % SIDE_PATTERN_COUNT)
    } else {
        BorderRow::Sides((row - 1) % SIDE_PATTERN_COUNT)
    }
}

/// Number of empty hearts in a bar of `width` hearts whose filled part,
/// rounded to a whole number of hearts, is `rounded_fill`.
pub fn empty_segments(width: u16, rounded_fill: u16) -> (e: u16)
    ensures
        e == (if width >= rounded_fill {
            width - rounded_fill
        } else {
            0
        }),
{
    width.saturating_sub(rounded_fill)
}

} // verus!
