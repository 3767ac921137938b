//! The parchment look of the profile and inventory modals: a fibre texture
//! tiled over the modal and a border of block characters with an optional
//! title centred in the top edge.
use vstd::prelude::*;

verus! {

/// Colours the border characters cycle through.
pub const BORDER_COLOR_COUNT: usize = 9;
/// Colours the parchment fibres cycle through.
pub const FIBER_COLOR_COUNT: usize = 3;
/// Columns of one texture row; the texture repeats after them.
pub const TEXTURE_WIDTH: usize = 30;

/// How a border character is coloured.
#[derive(Debug, Clone, Copy, PartialEq, Eq, Structural)]
pub enum Ink {
    /// A character of the title.
    Title,
    /// Border colour number `i`.
    Border(usize),
}

/// First column of a title `len` characters long, centred in `width`.
pub open spec fn title_start(width: int, len: int) -> int {
    (if width >= len {
        width - len
    } else {
        0
    }) / 2
}

/// What column `col` of a top or bottom edge shows: the title where it
/// stands, else the edge pattern, repeated, in cycling colours.
pub open spec fn edge_cell(pattern: Seq<char>, title: Seq<char>, width: int, col: int) -> (char, Ink) {
    let start = title_start(width, title.len() as int);
    if start <= col < start + title.len() {
        (title[col - start], Ink::Title)
    } else {
        (pattern[col % (pattern.len() as int)], Ink::Border((col % BORDER_COLOR_COUNT as int) as usize))
    }
}

/// The top or bottom edge of a border `width` columns wide: the pattern
/// repeated, with `title` (none if empty) centred in it.
pub fn border_edge(pattern: &Vec<char>, title: &Vec<char>, width: usize) -> (cells: Vec<(char, Ink)>)
    requires
        pattern.len() > 0,
    ensures
        cells.len() == width,
        forall|col: int|
            0 <= col < width ==> #[trigger] cells@[col] == edge_cell(
                pattern@,
                title@,
                width as int,
                col,
            ),
{
    let start = width.saturating_sub(title.len()) / 2;
    let mut cells: Vec<(char, Ink)> = Vec::new();
    for col in 0..width
        invariant
            pattern.len() > 0,
            start == title_start(width as int, title.len() as int),
            cells.len() == col,
            forall|c: int|
                0 <= c < col ==> #[trigger] cells@[c] == edge_cell(
                    pattern@,
                    title@,
                    width as int,
                    c,
                ),
    {
        if col >= start && col - start < title.len() {
            cells.push((title[col - start], Ink::Title));
        } else {
            cells.push((pattern[col % pattern.len()], Ink::Border(col % BORDER_COLOR_COUNT)));
        }
    }
    cells
}

/// The characters and colours of row `row` of the left and right edges:
/// both patterns cycle with the row, the right colour three steps ahead of
/// the left.
pub fn side_cells(left: &Vec<char>, right: &Vec<char>, row: usize) -> (cells: ((char, Ink), (char, Ink)))
    requires
        left.len() > 0,
        right.len() > 0,
    ensures
        cells.0 == (left@[(row % left.len()) as int], Ink::Border(row % BORDER_COLOR_COUNT)),
        cells.1 == (right@[(row % right.len()) as int], Ink::Border(
            ((row as int + 3) % BORDER_COLOR_COUNT as int) as usize,
        )),
{
    let right_color = ((row % BORDER_COLOR_COUNT) + 3) % BORDER_COLOR_COUNT;
    proof {
        vstd::arithmetic::div_mod::lemma_add_mod_noop(row as int, 3, BORDER_COLOR_COUNT as int);
        assert(3int % (BORDER_COLOR_COUNT as int) == 3);
    }
    (
        (left[row % left.len()], Ink::Border(row % BORDER_COLOR_COUNT)),
        (right[row % right.len()], Ink::Border(right_color)),
    )
}

/// The parchment texture at `(row, col)`: the texture rows repeat down the
/// modal and each row repeats every `TEXTURE_WIDTH` columns (a short row
/// shows spaces); fibre colours change every four columns and two rows.
pub open spec fn texture_cell(texture: Seq<Seq<char>>, row: int, col: int) -> (char, usize) {
    let line = texture[row % (texture.len() as int)];
    let pc = col % TEXTURE_WIDTH as int;
    (
        if pc < line.len() {
            line[pc]
        } else {
            ' '
        },
        ((col / 4 + row / 2) % FIBER_COLOR_COUNT as int) as usize,
    )
}

/// The texture character and fibre colour at `(row, col)`.
pub fn parchment_cell(texture: &Vec<Vec<char>>, row: u16, col: u16) -> (cell: (char, usize))
    requires
        texture.len() > 0,
    ensures
        cell == texture_cell(texture@.map_values(|l: Vec<char>| l@), row as int, col as int),
{
    let line = &texture[row as usize % texture.len()];
    let pc = col as usize % TEXTURE_WIDTH;
    let ch = if pc < line.len() {
        line[pc]
    } else {
        ' '
    };
    let color = (col as usize / 4 + row as usize / 2) % FIBER_COLOR_COUNT;
    (ch, color)
}

} // verus!
