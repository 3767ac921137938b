//! Which row of a list is highlighted, and moving that highlight.
use vstd::prelude::*;

verus! {

/// The highlighted row of a list, if any (what a list widget's state keeps).
#[derive(Debug, Clone, Copy, PartialEq, Eq, Structural)]
pub struct Selection {
    pub selected: Option<usize>,
}

/// The row that the list logic works from: the highlighted one, or the first.
pub open spec fn current_row(s: Selection) -> nat {
    match s.selected {
        Some(i) => i as nat,
        None => 0,
    }
}

/// Row above `cur` in a list of `count` rows, wrapping from the top to the
/// bottom.
pub open spec fn row_above(cur: nat, count: nat) -> nat {
    if cur == 0 {
        (count - 1) as nat
    } else {
        (cur - 1) as nat
    }
}

/// Row below `cur` in a list of `count` rows, wrapping from the bottom (or
/// beyond) to the top.
pub open spec fn row_below(cur: nat, count: nat) -> nat {
    if cur >= count - 1 {
        0
    } else {
        cur + 1
    }
}

/// The selection after one move up in a list of `count` rows.
pub open spec fn moved_up(s: Selection, count: nat) -> Selection {
    if count == 0 {
        s
    } else {
        Selection { selected: Some(row_above(current_row(s), count) as usize) }
    }
}

/// The selection after one move down in a list of `count` rows.
pub open spec fn moved_down(s: Selection, count: nat) -> Selection {
    if count == 0 {
        s
    } else {
        Selection { selected: Some(row_below(current_row(s), count) as usize) }
    }
}

impl Selection {
    /// Nothing highlighted.
    pub fn new() -> (s: Self)
        ensures
            s.selected == None::<usize>,
    {
        Selection { selected: None }
    }

    /// The first row highlighted.
    pub fn first() -> (s: Self)
        ensures
            s.selected == Some(0usize),
    {
        Selection { selected: Some(0) }
    }

    /// The highlighted row, if any.
    pub fn selected(&self) -> (r: Option<usize>)
        ensures
            r == self.selected,
    {
        self.selected
    }

    /// Highlights `index` (or nothing).
    pub fn select(&mut self, index: Option<usize>)
        ensures
            final(self).selected == index,
    {
        self.selected = index;
    }

    /// The highlighted row, or the first row when none is.
    pub fn current(&self) -> (r: usize)
        ensures
            r == current_row(*self),
    {
        match self.selected {
            Some(i) => i,
            None => 0,
        }
    }
}

/// Moves the highlight of a list of `item_count` rows up one row, from the
/// top to the bottom; an empty list is left as it is.
pub fn list_move_up(list_state: &mut Selection, item_count: usize)
    ensures
        *final(list_state) == moved_up(*old(list_state), item_count as nat),
{
    if item_count == 0 {
        return ;
    }
    let current = list_state.current();
    let new_idx = if current == 0 {
        item_count - 1
    } else {
        current - 1
    };
    list_state.select(Some(new_idx));
}

/// Moves the highlight of a list of `item_count` rows down one row, from the
/// bottom (or a row past it) to the top; an empty list is left as it is.
pub fn list_move_down(list_state: &mut Selection, item_count: usize)
    ensures
        *final(list_state) == moved_down(*old(list_state), item_count as nat),
{
    if item_count == 0 {
        return ;
    }
    let current = list_state.current();
    let new_idx = if current >= item_count - 1 {
        0
    } else {
        current + 1
    };
    list_state.select(Some(new_idx));
}

/// Law of list navigation: from a row of the list, moving up or down stays
/// in the list, and moving down undoes moving up (and up undoes down).
pub proof fn lemma_list_moves_inverse(cur: nat, count: nat)
    requires
        cur < count,
    ensures
        row_above(cur, count) < count,
        row_below(cur, count) < count,
        row_below(row_above(cur, count), count) == cur,
        row_above(row_below(cur, count), count) == cur,
{
}

proof fn lemma_iterate_below(cur: nat, count: nat, k: nat)
    requires
        cur < count,
    ensures
        iterate_below(cur, count, k) == (cur + k) as int % (count as int),
    decreases k,
{
    let c = count as int;
    if k == 0 {
        assert((cur as int) % c == cur as int) by (nonlinear_arith)
            requires
                0 <= cur < c,
        ;
    } else {
        lemma_iterate_below(cur, count, (k - 1) as nat);
        let x = (cur + k - 1) as int;
        let prev = x % c;
        assert(0 <= prev < c) by (nonlinear_arith)
            requires
                c > 0,
                prev == x % c,
        ;
        if prev == c - 1 {
            assert((x + 1) % c == 0) by (nonlinear_arith)
                requires
                    prev == x % c,
                    prev == c - 1,
                    c > 0,
            ;
        } else {
            assert((x + 1) % c == prev + 1) by (nonlinear_arith)
                requires
                    prev == x % c,
                    0 <= prev < c - 1,
                    c > 0,
            ;
        }
    }
}

/// Law of list navigation: `count` moves down bring the highlight of a list
/// of `count` rows back to where it was.
pub proof fn lemma_list_moves_cycle(cur: nat, count: nat)
    requires
        cur < count,
    ensures
        iterate_below(cur, count, count) == cur,
{
    lemma_iterate_below(cur, count, count);
    let c = count as int;
    vstd::arithmetic::div_mod::lemma_mod_add_multiples_vanish(cur as int, c);
    vstd::arithmetic::div_mod::lemma_small_mod(cur, count);
    assert((c + cur) == (cur + count) as int);
}

/// The row reached from `cur` after `k` moves down.
pub open spec fn iterate_below(cur: nat, count: nat, k: nat) -> nat
    decreases k,
{
    if k == 0 {
        cur
    } else {
        row_below(iterate_below(cur, count, (k - 1) as nat), count)
    }
}

} // verus!
