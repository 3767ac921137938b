//! The mine: drawing the cave as runs of equally shaded characters.
use vstd::prelude::*;

use crate::command::KeyInput;
use crate::spans::{expanded, lemma_expanded_index, lemma_runs_laws, lemma_runs_single, lemma_runs_step, maximal, runs};
use crate::text::push_char;

verus! {

/// How a cave character is shaded.
#[derive(Debug, Clone, Copy, PartialEq, Eq, Structural)]
pub enum Shade {
    /// `#`
    WallDark,
    /// `@`
    WallMid,
    /// `%`
    WallLight,
    /// `;`
    FloorEdge,
    /// Anything else.
    Plain,
}

/// The shade of a cave character: the three wall depths, the floor's
/// edge, and plain.
pub open spec fn shade_of(c: char) -> Shade {
    if c == '#' {
        Shade::WallDark
    } else if c == '@' {
        Shade::WallMid
    } else if c == '%' {
        Shade::WallLight
    } else if c == ';' {
        Shade::FloorEdge
    } else {
        Shade::Plain
    }
}

/// The shade of a cave character.
pub fn char_style(c: char) -> (s: Shade)
    ensures
        s == shade_of(c),
{
    if c == '#' {
        Shade::WallDark
    } else if c == '@' {
        Shade::WallMid
    } else if c == '%' {
        Shade::WallLight
    } else if c == ';' {
        Shade::FloorEdge
    } else {
        Shade::Plain
    }
}

/// Each character of a cave row with its shade.
pub open spec fn shaded(row: Seq<char>) -> Seq<(Shade, char)> {
    row.map_values(|c: char| (shade_of(c), c))
}

/// The runs as the caller sees them: each run's text by its view.
pub open spec fn run_views(out: Seq<(Shade, String)>) -> Seq<(Shade, Seq<char>)> {
    out.map_values(|r: (Shade, String)| (r.0, r.1@))
}

/// Splits one cave row into runs of equally shaded characters, each drawn
/// with one style.
pub fn cave_row_runs(row: &Vec<char>) -> (out: Vec<(Shade, String)>)
    ensures
        run_views(out@) == runs(shaded(row@)),
{
    let mut out: Vec<(Shade, String)> = Vec::new();
    if row.len() == 0 {
        assert(shaded(row@) =~= Seq::<(Shade, char)>::empty());
        assert(run_views(out@) =~= runs(shaded(row@)));
        return out;
    }
    let first = row[0];
    let mut current_style = char_style(first);
    let mut current_text = String::new();
    push_char(&mut current_text, first);
    proof {
        assert(shaded(row@).take(1) =~= seq![(shade_of(first), first)]);
        lemma_runs_single((shade_of(first), first));
        assert(current_text@ =~= seq![first]);
        assert(run_views(out@).push((current_style, current_text@)) =~= runs(
            shaded(row@).take(1),
        ));
    }
    let n = row.len();
    for x in 1..n
        invariant
            n == row@.len(),
            n >= 1,
            run_views(out@).push((current_style, current_text@)) == runs(
                shaded(row@).take(x as int),
            ),
    {
        let ghost prev = runs(shaded(row@).take(x as int));
        let ch = row[x];
        let style = char_style(ch);
        proof {
            assert(shaded(row@).take(x + 1) =~= shaded(row@).take(x as int).push((style, ch)));
            lemma_runs_step(shaded(row@).take(x as int), (style, ch));
            assert(prev.last() == (current_style, current_text@));
            assert(prev.drop_last() =~= run_views(out@));
        }
        if style != current_style {
            let mut finished = String::new();
            std::mem::swap(&mut finished, &mut current_text);
            out.push((current_style, finished));
            current_style = style;
            push_char(&mut current_text, ch);
            assert(current_text@ =~= seq![ch]);
            assert(run_views(out@).push((current_style, current_text@)) =~= prev.push(
                (style, seq![ch]),
            ));
        } else {
            push_char(&mut current_text, ch);
            assert(run_views(out@).push((current_style, current_text@)) =~= prev.drop_last().push(
                (style, prev.last().1.push(ch)),
            ));
        }
    }
    assert(shaded(row@).take(n as int) =~= shaded(row@));
    let ghost done = run_views(out@);
    out.push((current_style, current_text));
    assert(run_views(out@) =~= done.push((current_style, current_text@)));
    out
}

/// Law of the cave's runs: every character of a run has the run's shade,
/// and the runs read one after the other give back the row.
pub proof fn lemma_cave_runs(row: Seq<char>)
    ensures
        expanded(runs(shaded(row))) == shaded(row),
        maximal(runs(shaded(row))),
        forall|i: int, k: int|
            0 <= i < runs(shaded(row)).len() && 0 <= k < runs(shaded(row))[i].1.len()
                ==> shade_of(#[trigger] runs(shaded(row))[i].1[k]) == runs(shaded(row))[i].0,
{
    lemma_runs_laws(shaded(row));
    let rs = runs(shaded(row));
    assert forall|i: int, k: int| 0 <= i < rs.len() && 0 <= k < rs[i].1.len() implies shade_of(
        #[trigger] rs[i].1[k],
    ) == rs[i].0 by {
        lemma_expanded_index(rs, i, k);
        let j = expanded(rs.take(i)).len() + k;
        assert(shaded(row)[j] == (shade_of(row[j]), row[j]));
    }
}

/// What a key press in the mine asks for.
#[derive(Debug, Clone, Copy, PartialEq, Eq, Structural)]
pub enum MineAction {
    /// Go back to the town.
    LeaveToTown,
    /// Move the player by this step.
    Step(i8, i8),
    /// Mine the rock next to the player.
    MineRock,
    /// Nothing happens.
    Nothing,
}

/// What a key asks of the mine, with the player on the exit or not.
pub open spec fn spec_mine_action(key: KeyInput, on_exit: bool) -> MineAction {
    match key {
        KeyInput::Backspace => MineAction::LeaveToTown,
        KeyInput::Up => MineAction::Step(0i8, -1i8),
        KeyInput::Down => MineAction::Step(0i8, 1i8),
        KeyInput::Left => MineAction::Step(-1i8, 0i8),
        KeyInput::Right => MineAction::Step(1i8, 0i8),
        KeyInput::Char(c) => if c == ' ' {
            if on_exit {
                MineAction::LeaveToTown
            } else {
                MineAction::MineRock
            }
        } else {
            MineAction::Nothing
        },
        _ => MineAction::Nothing,
    }
}

/// The mine's answer to a key: Backspace leaves, the arrows step, and space
/// climbs out when the player stands on the exit and mines otherwise.
pub fn mine_key_action(key: KeyInput, on_exit: bool) -> (a: MineAction)
    ensures
        a == spec_mine_action(key, on_exit),
{
    match key {
        KeyInput::Backspace => MineAction::LeaveToTown,
        KeyInput::Up => MineAction::Step(0, -1),
        KeyInput::Down => MineAction::Step(0, 1),
        KeyInput::Left => MineAction::Step(-1, 0),
        KeyInput::Right => MineAction::Step(1, 0),
        KeyInput::Char(c) => {
            if c == ' ' {
                if on_exit {
                    MineAction::LeaveToTown
                } else {
                    MineAction::MineRock
                }
            } else {
                MineAction::Nothing
            }
        },
        _ => MineAction::Nothing,
    }
}

/// The sign drawn above the player.
#[derive(Debug, Clone, Copy, PartialEq, Eq, Structural)]
pub enum Indicator {
    /// An arrow: the player stands on the exit.
    ExitArrow,
    /// A pickaxe: a rock is next to the player.
    Pickaxe,
}

/// The sign above the player, and the row it goes on: none on the top row,
/// the exit arrow on the exit, else the pickaxe next to a rock.
pub fn player_indicator(player_row: u16, on_exit: bool, next_to_rock: bool) -> (r: Option<
    (Indicator, u16),
>)
    ensures
        player_row == 0 ==> r is None,
        player_row > 0 && on_exit ==> r == Some((Indicator::ExitArrow, (player_row - 1) as u16)),
        player_row > 0 && !on_exit && next_to_rock ==> r == Some(
            (Indicator::Pickaxe, (player_row - 1) as u16),
        ),
        player_row > 0 && !on_exit && !next_to_rock ==> r is None,
{
    if player_row == 0 {
        None
    } else if on_exit {
        Some((Indicator::ExitArrow, player_row - 1))
    } else if next_to_rock {
        Some((Indicator::Pickaxe, player_row - 1))
    } else {
        None
    }
}

} // verus!
