//! Where the stone patches go in the free space below the blacksmith's
//! menu.
use vstd::prelude::*;

use crate::layout::Rect;

verus! {

/// The three patch artworks.
#[derive(Debug, Clone, Copy, PartialEq, Eq, Structural)]
pub enum PatchSize {
    /// 15 by 6.
    Small,
    /// 20 by 8.
    Medium,
    /// 30 by 10.
    Large,
}

/// `a - b`, or 0 when `b` is larger.
pub open spec fn minus(a: int, b: int) -> int {
    if a >= b {
        a - b
    } else {
        0
    }
}

/// The patches drawn in `area` below a menu of `menu_item_count` rows, in
/// drawing order. None when the free space is under six rows or the area
/// under 20 columns; otherwise a large one bottom left (from 35 columns and
/// 10 free rows), a medium one bottom right (from 50 columns and 8 free
/// rows), a small one top right below the menu (from 40 columns and 12
/// free rows) and a small one at the bottom centre (from 55 columns and 10
/// free rows).
pub open spec fn spec_patches(area: Rect, menu_item_count: u16) -> Seq<(PatchSize, Rect)> {
    let free = minus(area.height as int, menu_item_count as int);
    if free < 6 || area.width < 20 {
        seq![]
    } else {
        let large = if area.width >= 35 && free >= 10 {
            seq![(PatchSize::Large, Rect {
                x: (area.x + 2) as u16,
                y: (area.y + minus(area.height as int, 10)) as u16,
                width: 30,
                height: 10,
            })]
        } else {
            seq![]
        };
        let medium = if area.width >= 50 && free >= 8 {
            seq![(PatchSize::Medium, Rect {
                x: (area.x + minus(area.width as int, 22)) as u16,
                y: (area.y + minus(area.height as int, 8)) as u16,
                width: 20,
                height: 8,
            })]
        } else {
            seq![]
        };
        let top_small = if area.width >= 40 && free >= 12 {
            seq![(PatchSize::Small, Rect {
                x: (area.x + minus(area.width as int, 18)) as u16,
                y: (area.y + menu_item_count + 2) as u16,
                width: 15,
                height: 6,
            })]
        } else {
            seq![]
        };
        let centre_small = if area.width >= 55 && free >= 10 {
            seq![(PatchSize::Small, Rect {
                x: (area.x + minus(area.width as int / 2, 7)) as u16,
                y: (area.y + minus(area.height as int, 7)) as u16,
                width: 15,
                height: 6,
            })]
        } else {
            seq![]
        };
        large + medium + top_small + centre_small
    }
}

/// Places the stone patches; the area must lie on the screen.
pub fn stone_patches(area: Rect, menu_item_count: u16) -> (patches: Vec<(PatchSize, Rect)>)
    requires
        area.x + area.width <= u16::MAX,
        area.y + area.height <= u16::MAX,
    ensures
        patches@ == spec_patches(area, menu_item_count),
{
    let mut patches: Vec<(PatchSize, Rect)> = Vec::new();
    let free = area.height.saturating_sub(menu_item_count);
    if free < 6 || area.width < 20 {
        assert(patches@ =~= spec_patches(area, menu_item_count));
        return patches;
    }
    let ghost empty = Seq::<(PatchSize, Rect)>::empty();
    if area.width >= 35 && free >= 10 {
        patches.push((PatchSize::Large, Rect {
            x: area.x + 2,
            y: area.y + area.height.saturating_sub(10),
            width: 30,
            height: 10,
        }));
    }
    if area.width >= 50 && free >= 8 {
        patches.push((PatchSize::Medium, Rect {
            x: area.x + area.width.saturating_sub(22),
            y: area.y + area.height.saturating_sub(8),
            width: 20,
            height: 8,
        }));
    }
    if area.width >= 40 && free >= 12 {
        patches.push((PatchSize::Small, Rect {
            x: area.x + area.width.saturating_sub(18),
            y: area.y + menu_item_count + 2,
            width: 15,
            height: 6,
        }));
    }
    if area.width >= 55 && free >= 10 {
        patches.push((PatchSize::Small, Rect {
            x: area.x + (area.width / 2).saturating_sub(7),
            y: area.y + area.height.saturating_sub(7),
            width: 15,
            height: 6,
        }));
    }
    assert(patches@ =~= spec_patches(area, menu_item_count));
    patches
}

} // verus!
