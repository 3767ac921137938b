//! The animated ASCII art of the screens: each piece is a list of rows,
//! each row a list of spans of text in one of the art's colours.
use vstd::prelude::*;

use crate::text::{push_char, push_str};

pub mod campfire;
pub mod dragon;
pub mod flask;
pub mod forge;

verus! {

/// The colours the art is drawn in; `Plain` is the uncoloured padding.
#[derive(Debug, Clone, Copy, PartialEq, Eq, Structural)]
pub enum ArtTone {
    Plain,
    HotWhite,
    BrightYellow,
    FlameOrange,
    DeepOrange,
    EmberRed,
    CoalBlack,
    WoodBrown,
    DarkWalnut,
    Granite,
    DarkStone,
    LightStone,
    VaporCyan,
    PaleLavender,
    MysticGlow,
    BubbleGreen,
    BrightViolet,
    MysticPurple,
    DarkPurple,
    DeepViolet,
    DarkForest,
    ForestGreen,
    LimeGreen,
    PaleGreen,
}

/// `n` spaces.
pub open spec fn spaces(n: nat) -> Seq<char> {
    Seq::new(n, |i: int| ' ')
}

/// A row as the caller sees it: each span's colour and characters.
pub open spec fn span_views(r: Seq<(ArtTone, String)>) -> Seq<(ArtTone, Seq<char>)> {
    r.map_values(|s: (ArtTone, String)| (s.0, s.1@))
}

/// The rows of a piece of art as the caller sees them.
pub open spec fn art_views(rows: Seq<Vec<(ArtTone, String)>>) -> Seq<Seq<(ArtTone, Seq<char>)>> {
    rows.map_values(|r: Vec<(ArtTone, String)>| span_views(r@))
}

/// Columns taken by a row: its characters, one column each.
pub open spec fn row_width(row: Seq<(ArtTone, Seq<char>)>) -> nat
    decreases row.len(),
{
    if row.len() == 0 {
        0
    } else {
        row_width(row.drop_last()) + row.last().1.len()
    }
}

/// A span of `text` in `tone`.
pub(crate) fn lit(tone: ArtTone, text: &str) -> (s: (ArtTone, String))
    ensures
        s.0 == tone,
        s.1@ == text@,
{
    let mut t = String::new();
    push_str(&mut t, text);
    (tone, t)
}

/// An uncoloured span of `n` spaces.
pub(crate) fn pad(n: usize) -> (s: (ArtTone, String))
    ensures
        s.0 == ArtTone::Plain,
        s.1@ == spaces(n as nat),
{
    let mut t = String::new();
    for i in 0..n
        invariant
            t@ == spaces(i as nat),
    {
        push_char(&mut t, ' ');
        assert(t@ =~= spaces((i + 1) as nat));
    }
    (ArtTone::Plain, t)
}

/// Appends span `s` to the row `r`, whose width grows by the span's.
pub(crate) fn push_span(r: &mut Vec<(ArtTone, String)>, s: (ArtTone, String))
    ensures
        span_views(final(r)@) == span_views(old(r)@).push((s.0, s.1@)),
        row_width(span_views(final(r)@)) == row_width(span_views(old(r)@)) + s.1@.len(),
{
    let ghost before = span_views(r@);
    let ghost sv = (s.0, s.1@);
    r.push(s);
    assert(span_views(r@) =~= before.push(sv));
    assert(before.push(sv).drop_last() =~= before);
}

} // verus!
