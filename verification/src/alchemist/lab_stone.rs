//! The alchemist's laboratory wall: a stone pattern tiled over the area,
//! shaded in bands of three tones.
use vstd::prelude::*;

use crate::spans::{lemma_runs_single, lemma_runs_step, runs};
use crate::text::push_char;

verus! {

/// Columns of one pattern row; the pattern repeats after them.
pub const PATTERN_WIDTH: usize = 30;

/// The tone a wall character is drawn in.
#[derive(Debug, Clone, Copy, PartialEq, Eq, Structural)]
pub enum Tone {
    Dark,
    Mid,
    Light,
}

/// Bands five columns wide, shifted by one every two rows, cycle through
/// the three tones.
pub open spec fn lab_tone(col: int, row: int) -> Tone {
    let t = (col / 5 + row / 2) % 3;
    if t == 0 {
        Tone::Dark
    } else if t == 1 {
        Tone::Mid
    } else {
        Tone::Light
    }
}

/// The pattern character shown at `col`: the pattern repeats every
/// `PATTERN_WIDTH` columns, and a row too short shows a space.
pub open spec fn tiled_char(pattern: Seq<char>, col: int) -> char {
    let pc = col % (PATTERN_WIDTH as int);
    if pc < pattern.len() {
        pattern[pc]
    } else {
        ' '
    }
}

/// The characters of one wall line, each with its tone.
pub open spec fn lab_line_chars(pattern: Seq<char>, row: int, width: nat) -> Seq<(Tone, char)> {
    Seq::new(width, |col: int| (lab_tone(col, row), tiled_char(pattern, col)))
}

/// The runs as the caller sees them: each run's text by its view.
pub open spec fn tone_views(out: Seq<(Tone, String)>) -> Seq<(Tone, Seq<char>)> {
    out.map_values(|r: (Tone, String)| (r.0, r.1@))
}

fn tone_at(col: usize, row: usize) -> (t: Tone)
    ensures
        t == lab_tone(col as int, row as int),
{
    let band = (col / 5 + row / 2) % 3;
    if band == 0 {
        Tone::Dark
    } else if band == 1 {
        Tone::Mid
    } else {
        Tone::Light
    }
}

/// One line of the wall `width` columns wide, from pattern row
/// `patterns[row % patterns.len()]`, cut into runs of one tone.
pub fn lab_line(patterns: &Vec<Vec<char>>, row: usize, width: usize) -> (out: Vec<(Tone, String)>)
    requires
        patterns.len() > 0,
    ensures
        tone_views(out@) == runs(
            lab_line_chars(patterns@[(row % patterns.len()) as int]@, row as int, width as nat),
        ),
{
    let pattern = &patterns[row % patterns.len()];
    let ghost line = lab_line_chars(pattern@, row as int, width as nat);
    let mut out: Vec<(Tone, String)> = Vec::new();
    let mut current_style = Tone::Dark;
    let mut current_text = String::new();
    for col in 0..width
        invariant
            line == lab_line_chars(pattern@, row as int, width as nat),
            col == 0 ==> out@.len() == 0 && current_text@.len() == 0,
            col > 0 ==> tone_views(out@).push((current_style, current_text@)) == runs(
                line.take(col as int),
            ),
            col > 0 ==> current_text@.len() > 0,
    {
        let pattern_col = col % PATTERN_WIDTH;
        let ch = if pattern_col < pattern.len() {
            pattern[pattern_col]
        } else {
            ' '
        };
        let new_style = tone_at(col, row);
        let ghost prev = runs(line.take(col as int));
        let ghost old_views = tone_views(out@);
        let ghost old_style = current_style;
        let ghost old_text = current_text@;
        proof {
            assert(line[col as int] == (new_style, ch));
            assert(line.take(col + 1) =~= line.take(col as int).push((new_style, ch)));
        }
        if new_style != current_style && !current_text.as_str().is_empty() {
            let mut finished = String::new();
            std::mem::swap(&mut finished, &mut current_text);
            out.push((current_style, finished));
        }
        current_style = new_style;
        push_char(&mut current_text, ch);
        proof {
            if col == 0 {
                assert(line.take(1) =~= seq![(new_style, ch)]);
                lemma_runs_single((new_style, ch));
                assert(current_text@ =~= seq![ch]);
                assert(tone_views(out@).push((current_style, current_text@)) =~= runs(
                    line.take(1),
                ));
            } else {
                lemma_runs_step(line.take(col as int), (new_style, ch));
                assert(prev.last() == (old_style, old_text));
                assert(prev.drop_last() =~= old_views);
                if new_style != old_style {
                    assert(current_text@ =~= seq![ch]);
                    assert(tone_views(out@) =~= old_views.push((old_style, old_text)));
                    assert(tone_views(out@).push((current_style, current_text@)) =~= prev.push(
                        (new_style, seq![ch]),
                    ));
                } else {
                    assert(tone_views(out@).push((current_style, current_text@))
                        =~= prev.drop_last().push((new_style, prev.last().1.push(ch))));
                }
            }
        }
    }
    proof {
        assert(line.take(width as int) =~= line);
    }
    if !current_text.as_str().is_empty() {
        let ghost done = tone_views(out@);
        out.push((current_style, current_text));
        assert(tone_views(out@) =~= done.push((current_style, current_text@)));
    } else {
        assert(line.len() == 0);
        assert(line =~= Seq::<(Tone, char)>::empty());
        assert(tone_views(out@) =~= runs(line));
    }
    out
}

/// The wall filling an area of `width` columns and `height` rows: one line
/// per row, none when the area is empty.
pub fn lab_stone_lines(patterns: &Vec<Vec<char>>, width: u16, height: u16) -> (lines: Vec<
    Vec<(Tone, String)>,
>)
    requires
        patterns.len() > 0,
    ensures
        lines.len() == (if width == 0 || height == 0 {
            0
        } else {
            height as int
        }),
        forall|r: int|
            0 <= r < lines.len() ==> tone_views(#[trigger] lines@[r]@) == runs(
                lab_line_chars(patterns@[r % (patterns.len() as int)]@, r, width as nat),
            ),
{
    let mut lines: Vec<Vec<(Tone, String)>> = Vec::new();
    if width == 0 || height == 0 {
        return lines;
    }
    for row in 0..height
        invariant
            patterns.len() > 0,
            lines.len() == row,
            forall|r: int|
                0 <= r < lines.len() ==> tone_views(#[trigger] lines@[r]@) == runs(
                    lab_line_chars(patterns@[r % (patterns.len() as int)]@, r, width as nat),
                ),
    {
        let line = lab_line(patterns, row as usize, width as usize);
        lines.push(line);
    }
    lines
}

} // verus!
