//! What the spell tester shows: each piece of text with its place and colour.
use vstd::prelude::*;

use super::spell_test_modal::{placeholder_text, SpellTestModal, SpellTestResult};
use crate::layout::Rect;
use crate::text::{byte_len, push_char, push_str, string_views, wrapped_lines};

verus! {

/// The colours the spell tester draws in.
#[derive(Debug, Clone, Copy, PartialEq, Eq, Structural)]
pub enum ModalTone {
    CreamWood,
    TanWood,
    White,
    DarkWalnut,
    Green,
    Red,
    Yellow,
    LightBeige,
    OakBrown,
    Cyan,
    /// The input field's own background.
    InputField,
    /// Typed text, on the input field.
    InputText,
    /// The placeholder, on the input field.
    Placeholder,
    /// The cursor, on the input field.
    Cursor,
}

/// A piece of text at a screen position (row and column of its first
/// character), one column per character, in one colour.
pub struct PlacedText {
    pub row: u32,
    pub col: u32,
    pub text: String,
    pub tone: ModalTone,
}

/// A placed text as a caller sees it.
pub open spec fn placed_view(p: PlacedText) -> (int, int, Seq<char>, ModalTone) {
    (p.row as int, p.col as int, p.text@, p.tone)
}

/// The placed texts as a caller sees them.
pub open spec fn placed_views(ps: Seq<PlacedText>) -> Seq<(int, int, Seq<char>, ModalTone)> {
    ps.map_values(|p: PlacedText| placed_view(p))
}

/// The first `n` characters of `s` (all of it when shorter; none when `n`
/// is not positive).
pub open spec fn clip(s: Seq<char>, n: int) -> Seq<char> {
    if n <= 0 {
        Seq::empty()
    } else if s.len() <= n {
        s
    } else {
        s.take(n)
    }
}

/// `n` copies of `c`.
pub open spec fn repeated(c: char, n: nat) -> Seq<char> {
    Seq::new(n, |i: int| c)
}

/// The words joined with `sep` between them.
pub open spec fn joined(ws: Seq<Seq<char>>, sep: Seq<char>) -> Seq<char>
    decreases ws.len(),
{
    if ws.len() == 0 {
        Seq::empty()
    } else if ws.len() == 1 {
        ws[0]
    } else {
        joined(ws.drop_last(), sep) + sep + ws.last()
    }
}

/// The first `n` characters of `s`, and how many that is.
fn clipped(s: &str, n: usize) -> (r: (String, usize))
    ensures
        r.0@ == clip(s@, n as int),
        r.1 == r.0@.len(),
{
    let mut t = String::new();
    let mut k: usize = 0;
    for c in it: s.chars()
        invariant
            it.seq() == s@,
            t@ == clip(s@.take(it.index() as int), n as int),
            k == t@.len(),
            k <= n,
    {
        let ghost i = it.index() as int;
        proof {
            assert(s@.take(i + 1) =~= s@.take(i).push(c));
        }
        if k < n {
            push_char(&mut t, c);
            k = k + 1;
            assert(t@ =~= clip(s@.take(i + 1), n as int));
        } else {
            assert(clip(s@.take(i + 1), n as int) =~= clip(s@.take(i), n as int));
        }
    }
    proof {
        assert(s@.take(s@.len() as int) =~= s@);
    }
    (t, k)
}

/// `n` copies of `c`.
fn repeat_char(c: char, n: usize) -> (t: String)
    ensures
        t@ == repeated(c, n as nat),
{
    let mut t = String::new();
    for i in 0..n
        invariant
            t@ == repeated(c, i as nat),
    {
        push_char(&mut t, c);
        assert(t@ =~= repeated(c, (i + 1) as nat));
    }
    t
}

/// `words` joined with `sep` (what `join` gives).
fn join_words(words: &Vec<String>, sep: &str) -> (t: String)
    ensures
        t@ == joined(string_views(words@), sep@),
{
    let mut t = String::new();
    for i in 0..words.len()
        invariant
            t@ == joined(string_views(words@.take(i as int)), sep@),
    {
        proof {
            assert(words@.take(i + 1).drop_last() =~= words@.take(i as int));
            assert(string_views(words@.take(i + 1)).drop_last() =~= string_views(words@.take(i as int)));
        }
        if i > 0 {
            push_str(&mut t, sep);
        }
        push_str(&mut t, words[i].as_str());
        assert(t@ =~= joined(string_views(words@.take(i + 1)), sep@));
    }
    proof {
        assert(words@.take(words@.len() as int) =~= words@);
    }
    t
}

/// Columns before a text of `bytes` bytes centred in `width` columns (the
/// width less the text's bytes, halved; nothing when it does not fit).
pub open spec fn centred(width: u16, bytes: usize) -> int {
    let l = bytes as u16;
    (if width >= l { width - l } else { 0 }) / 2
}

/// The inner width of the modal: two columns off each side.
pub open spec fn inner_width(area: Rect) -> int {
    area.width - 4
}

/// The title and the instructions below it.
pub open spec fn spec_head(area: Rect) -> Seq<(int, int, Seq<char>, ModalTone)> {
    let x = area.x + 2;
    let w = inner_width(area);
    seq![
        (area.y + 1, x + centred((area.width - 4) as u16, "✦ Spell Tester (God Mode) ✦".len()),
            "✦ Spell Tester (God Mode) ✦"@, ModalTone::CreamWood),
        (area.y + 3, x, clip("Enter words separated by spaces, then press Enter"@, w), ModalTone::TanWood),
    ]
}

/// The input field: its background, the typed text (or the placeholder) and
/// the cursor after the typed bytes, never past the last column; then the
/// separator below it.
pub open spec fn spec_input<W>(m: &SpellTestModal<W>, area: Rect) -> Seq<(int, int, Seq<char>, ModalTone)> {
    let x = area.x + 2;
    let w = inner_width(area);
    let empty = m.input@.len() == 0;
    let cursor = if byte_len(m.input@) < w - 1 { byte_len(m.input@) as int } else { w - 1 };
    seq![
        (area.y + 5, x, repeated(' ', w as nat), ModalTone::InputField),
        (area.y + 5, x, clip(if empty { placeholder_text() } else { m.input@ }, w),
            if empty { ModalTone::Placeholder } else { ModalTone::InputText }),
        (area.y + 5, x + cursor, seq!['▌'], ModalTone::Cursor),
        (area.y + 7, x, repeated('─', w as nat), ModalTone::DarkWalnut),
    ]
}

/// A label and a value after it on one row, both cut at the inner width.
pub open spec fn labelled(row: int, x: int, w: int, label: Seq<char>, label_tone: ModalTone, value: Seq<char>, value_tone: ModalTone) -> Seq<(int, int, Seq<char>, ModalTone)> {
    let l = clip(label, w);
    seq![(row, x, l, label_tone), (row, x + l.len(), clip(value, w - l.len()), value_tone)]
}

/// Lines one below the other from `row`, each cut at the inner width.
pub open spec fn lines_at(row: int, x: int, w: int, lines: Seq<Seq<char>>, tone: ModalTone) -> Seq<(int, int, Seq<char>, ModalTone)> {
    Seq::new(lines.len(), |k: int| (row + k, x, clip(lines[k], w), tone))
}

/// The first `n` lines (all when there are fewer).
pub open spec fn first_lines(lines: Seq<Seq<char>>, n: nat) -> Seq<Seq<char>> {
    if lines.len() <= n { lines } else { lines.take(n as int) }
}

/// The unknown words after their label, from column `col` of the inner
/// width: each word cut at the width, then one blank column when there is
/// room.
pub open spec fn word_cells(row: int, x: int, w: int, col: int, words: Seq<Seq<char>>) -> Seq<(int, int, Seq<char>, ModalTone)>
    decreases words.len(),
{
    if words.len() == 0 {
        seq![]
    } else {
        let end = if col + words[0].len() < w { col + words[0].len() } else { w };
        let next = if end < w { end + 1 } else { end };
        seq![(row, x + col, clip(words[0], w - col), ModalTone::CreamWood)]
            + word_cells(row, x, w, next, words.drop_first())
    }
}

/// The cells of one page slot `[n]`, with `*` before `]` on the active
/// page, then a blank cell.
pub open spec fn slot_cells(i: nat, selected: nat, active: nat) -> Seq<Option<(char, ModalTone)>> {
    let bracket = if i == selected { ModalTone::Cyan } else { ModalTone::DarkWalnut };
    let number = if i == active { ModalTone::Green } else if i == selected { ModalTone::White } else { ModalTone::TanWood };
    let digit = if i == 0 { '1' } else if i == 1 { '2' } else { '3' };
    seq![Some(('[', bracket)), Some((digit, number))]
        + (if i == active { seq![Some(('*', ModalTone::Green))] } else { seq![] })
        + seq![Some((']', bracket)), None]
}

/// The cells of the page selector: the three slots one after the other.
pub open spec fn page_cells(selected: nat, active: nat) -> Seq<Option<(char, ModalTone)>> {
    slot_cells(0, selected, active) + slot_cells(1, selected, active) + slot_cells(2, selected, active)
}

/// The cells placed from column `col` on, one column each, those that fall
/// inside the inner width `w`; blank cells place nothing.
pub open spec fn place_cells(row: int, x: int, w: int, col: int, cells: Seq<Option<(char, ModalTone)>>) -> Seq<(int, int, Seq<char>, ModalTone)>
    decreases cells.len(),
{
    if cells.len() == 0 {
        seq![]
    } else {
        (match cells[0] {
            Some((c, t)) => if col < w { seq![(row, x + col, seq![c], t)] } else { seq![] },
            None => seq![],
        }) + place_cells(row, x, w, col + 1, cells.drop_first())
    }
}

/// The result section, from the row below the separator.
pub open spec fn spec_result<W>(m: &SpellTestModal<W>, area: Rect, all_words: Seq<Seq<char>>) -> Seq<(int, int, Seq<char>, ModalTone)> {
    let x = area.x + 2;
    let w = inner_width(area);
    let row = area.y + 8;
    match m.result {
        Some(SpellTestResult::Success { spell_name, description, is_backfire }) =>
            labelled(row, x, w,
                if is_backfire { "⚠ BACKFIRE: "@ } else { "✓ Spell: "@ },
                if is_backfire { ModalTone::Red } else { ModalTone::Green },
                spell_name@, ModalTone::CreamWood)
            + lines_at(row + 2, x, w, first_lines(wrapped_lines(description@, w as nat), 4), ModalTone::LightBeige),
        Some(SpellTestResult::Fizzle { reason }) =>
            labelled(row, x, w, "✗ Fizzle: "@, ModalTone::Yellow, reason@, ModalTone::TanWood),
        Some(SpellTestResult::ParseError { unknown }) =>
            seq![(row, x, clip("✗ Unknown words: "@, w), ModalTone::Red)]
            + word_cells(row, x, w, clip("✗ Unknown words: "@, w).len() as int, string_views(unknown@)),
        None =>
            seq![(row, x, clip("Available words:"@, w), ModalTone::OakBrown)]
            + lines_at(row + 1, x, w, first_lines(wrapped_lines(joined(all_words, ", "@), w as nat), 3), ModalTone::TanWood),
    }
}

/// The row above the footer: the inscription message if there is one,
/// else, once a spell was tested, the page selector.
pub open spec fn spec_pages<W>(m: &SpellTestModal<W>, area: Rect, active_page: nat) -> Seq<(int, int, Seq<char>, ModalTone)> {
    let x = area.x + 2;
    let w = inner_width(area);
    let row = area.y + area.height - 4;
    match m.inscribe_message {
        Some((msg, ok)) => seq![(row, x, clip(msg@, w), if ok { ModalTone::Green } else { ModalTone::Red })],
        None => if m.result is Some {
            let l = clip("Inscribe to page: "@, w);
            seq![(row, x, l, ModalTone::TanWood)]
                + place_cells(row, x, w, l.len() as int, page_cells(m.selected_page as nat, active_page))
        } else {
            seq![]
        },
    }
}

/// Whether the footer offers inscribing: a spell or a fizzle was tested.
pub open spec fn offers_inscribe<W>(m: &SpellTestModal<W>) -> bool {
    m.result is Some && !(m.result matches Some(SpellTestResult::ParseError { .. }))
}

/// The key hints, centred on the bottom row inside the border.
pub open spec fn spec_footer<W>(m: &SpellTestModal<W>, area: Rect) -> Seq<(int, int, Seq<char>, ModalTone)> {
    let x = area.x + 2;
    let row = area.y + area.height - 2;
    if offers_inscribe(m) {
        seq![(row, x + centred((area.width - 4) as u16, "[Tab] Inscribe  [A] Activate  [←→] Page  [Esc] Close".len()),
            "[Tab] Inscribe  [A] Activate  [←→] Page  [Esc] Close"@, ModalTone::DarkWalnut)]
    } else {
        seq![(row, x + centred((area.width - 4) as u16, "[Enter] Test  [←→] Page  [A] Activate  [Esc] Close".len()),
            "[Enter] Test  [←→] Page  [A] Activate  [Esc] Close"@, ModalTone::DarkWalnut)]
    }
}

/// Everything the spell tester shows inside `area`, in drawing order:
/// title and instructions, the input field and separator, the result
/// section, the inscription message or page selector, and the footer.
/// `active_page` is the tome's active page; `all_words` are the names of
/// every known word.
pub open spec fn spec_content_texts<W>(m: &SpellTestModal<W>, area: Rect, active_page: nat, all_words: Seq<Seq<char>>) -> Seq<(int, int, Seq<char>, ModalTone)> {
    spec_head(area) + spec_input(m, area) + spec_result(m, area, all_words) + spec_pages(m, area, active_page)
        + spec_footer(m, area)
}

/// A placed text.
fn placed(row: u32, col: u32, text: String, tone: ModalTone) -> (p: PlacedText)
    ensures
        placed_view(p) == (row as int, col as int, text@, tone),
{
    PlacedText { row, col, text, tone }
}

/// A literal as a `String`.
fn owned(s: &str) -> (t: String)
    ensures
        t@ == s@,
{
    let mut t = String::new();
    push_str(&mut t, s);
    t
}

/// Appends `part` to `out`, as views too.
fn append_placed(out: &mut Vec<PlacedText>, part: Vec<PlacedText>)
    ensures
        placed_views(final(out)@) == placed_views(old(out)@) + placed_views(part@),
{
    let mut part = part;
    let ghost a = out@;
    let ghost b = part@;
    out.append(&mut part);
    assert(placed_views(out@) =~= placed_views(a) + placed_views(b));
}

/// Columns before a text of `bytes` bytes centred in `width` columns.
fn centred_col(width: u16, bytes: usize) -> (c: u16)
    ensures
        c == centred(width, bytes),
{
    let l = bytes as u16;
    (if width >= l { width - l } else { 0 }) / 2
}

/// The title and the instructions.
fn head(area: Rect) -> (ps: Vec<PlacedText>)
    requires
        area.width >= 5,
    ensures
        placed_views(ps@) == spec_head(area),
{
    let x = area.x as u32 + 2;
    let w = area.width - 4;
    let title = "✦ Spell Tester (God Mode) ✦";
    let c = centred_col(w, title.len());
    let (instructions, _n) = clipped("Enter words separated by spaces, then press Enter", w as usize);
    let mut ps: Vec<PlacedText> = Vec::new();
    ps.push(placed(area.y as u32 + 1, x + c as u32, owned(title), ModalTone::CreamWood));
    ps.push(placed(area.y as u32 + 3, x, instructions, ModalTone::TanWood));
    assert(placed_views(ps@) =~= spec_head(area));
    ps
}

impl<W> SpellTestModal<W> {
    /// The input field and the separator below it.
    fn input_texts(&self, area: Rect) -> (ps: Vec<PlacedText>)
        requires
            area.width >= 5,
            byte_len(self.input@) <= usize::MAX,
        ensures
            placed_views(ps@) == spec_input(self, area),
    {
        let x = area.x as u32 + 2;
        let w = area.width - 4;
        let (shown, placeholder, cursor) = self.input_view(w);
        let (text, _n) = clipped(shown.as_str(), w as usize);
        let tone = if placeholder { ModalTone::Placeholder } else { ModalTone::InputText };
        let mut bar = String::new();
        push_char(&mut bar, '▌');
        let mut ps: Vec<PlacedText> = Vec::new();
        ps.push(placed(area.y as u32 + 5, x, repeat_char(' ', w as usize), ModalTone::InputField));
        ps.push(placed(area.y as u32 + 5, x, text, tone));
        ps.push(placed(area.y as u32 + 5, x + cursor as u32, bar, ModalTone::Cursor));
        ps.push(placed(area.y as u32 + 7, x, repeat_char('─', w as usize), ModalTone::DarkWalnut));
        assert(placed_views(ps@) =~= spec_input(self, area));
        ps
    }
}

/// A label and a value after it on one row, both cut at the width `w`.
fn labelled_texts(row: u32, x: u32, w: u16, label: &str, label_tone: ModalTone, value: &str, value_tone: ModalTone) -> (ps: Vec<PlacedText>)
    requires
        x + w <= u32::MAX,
    ensures
        placed_views(ps@) == labelled(row as int, x as int, w as int, label@, label_tone, value@, value_tone),
{
    let (l, n) = clipped(label, w as usize);
    let (v, _m) = clipped(value, w as usize - n);
    let mut ps: Vec<PlacedText> = Vec::new();
    ps.push(placed(row, x, l, label_tone));
    ps.push(placed(row, x + n as u32, v, value_tone));
    assert(placed_views(ps@) =~= labelled(row as int, x as int, w as int, label@, label_tone, value@, value_tone));
    ps
}

/// The first `max` of `lines`, one below the other from `row`, each cut at
/// the width `w`.
fn lines_texts(row: u32, x: u32, w: u16, lines: &Vec<String>, max: usize, tone: ModalTone) -> (ps: Vec<PlacedText>)
    requires
        row + max <= u32::MAX,
    ensures
        placed_views(ps@) == lines_at(row as int, x as int, w as int, first_lines(string_views(lines@), max as nat), tone),
{
    let count = if lines.len() < max { lines.len() } else { max };
    let ghost shown = first_lines(string_views(lines@), max as nat);
    assert(shown.len() == count);
    let mut ps: Vec<PlacedText> = Vec::new();
    for k in 0..count
        invariant
            count <= max,
            row + max <= u32::MAX,
            count <= lines@.len(),
            shown == first_lines(string_views(lines@), max as nat),
            shown.len() == count,
            placed_views(ps@) == lines_at(row as int, x as int, w as int, shown, tone).take(k as int),
    {
        let (t, _n) = clipped(lines[k].as_str(), w as usize);
        let ghost before = ps@;
        ps.push(placed(row + k as u32, x, t, tone));
        assert(shown[k as int] == string_views(lines@)[k as int]);
        assert(shown[k as int] == lines@[k as int]@);
        assert(placed_views(ps@) =~= placed_views(before).push(
            (row + k, x as int, clip(lines@[k as int]@, w as int), tone)));
        assert(placed_views(ps@) =~= lines_at(row as int, x as int, w as int, shown, tone).take(k + 1));
    }
    assert(lines_at(row as int, x as int, w as int, shown, tone).take(count as int)
        =~= lines_at(row as int, x as int, w as int, shown, tone));
    ps
}

/// The unknown words from column `col` on.
fn word_texts(row: u32, x: u32, w: u16, col: u16, words: &Vec<String>) -> (ps: Vec<PlacedText>)
    requires
        col <= w,
        x + w + 1 <= u32::MAX,
    ensures
        placed_views(ps@) == word_cells(row as int, x as int, w as int, col as int, string_views(words@)),
{
    let ghost all = string_views(words@);
    let mut ps: Vec<PlacedText> = Vec::new();
    let mut c = col;
    assert(all.skip(0) =~= all);
    for k in 0..words.len()
        invariant
            c <= w,
            x + w + 1 <= u32::MAX,
            all == string_views(words@),
            placed_views(ps@) + word_cells(row as int, x as int, w as int, c as int, all.skip(k as int))
                == word_cells(row as int, x as int, w as int, col as int, all),
    {
        let ghost rest = all.skip(k as int);
        assert(rest[0] == words@[k as int]@);
        assert(rest.drop_first() =~= all.skip(k + 1));
        let (t, n) = clipped(words[k].as_str(), (w - c) as usize);
        let ghost before = ps@;
        ps.push(placed(row, x + c as u32, t, ModalTone::CreamWood));
        assert(placed_views(ps@) =~= placed_views(before) + seq![
            (row as int, x + c, clip(rest[0], w - c), ModalTone::CreamWood)]);
        let ghost c0 = c;
        let end: u16 = if c as usize + n < w as usize {
            c + n as u16
        } else {
            w
        };
        assert(end == (if c + rest[0].len() < w { c + rest[0].len() } else { w as int }));
        c = if end < w { end + 1 } else { end };
        assert(placed_views(ps@) + word_cells(row as int, x as int, w as int, c as int, all.skip(k + 1))
            =~= placed_views(before) + word_cells(row as int, x as int, w as int, c0 as int, rest));
    }
    assert(all.skip(words.len() as int) =~= Seq::<Seq<char>>::empty());
    assert(placed_views(ps@) + Seq::<(int, int, Seq<char>, ModalTone)>::empty() =~= placed_views(ps@));
    ps
}

/// Appends the cells of page slot `i` to `cells`.
fn push_slot_cells(cells: &mut Vec<Option<(char, ModalTone)>>, i: usize, selected: usize, active: usize)
    requires
        i < 3,
    ensures
        final(cells)@ == old(cells)@ + slot_cells(i as nat, selected as nat, active as nat),
{
    let bracket = if i == selected { ModalTone::Cyan } else { ModalTone::DarkWalnut };
    let number = if i == active {
        ModalTone::Green
    } else if i == selected {
        ModalTone::White
    } else {
        ModalTone::TanWood
    };
    let digit = if i == 0 { '1' } else if i == 1 { '2' } else { '3' };
    cells.push(Some(('[', bracket)));
    cells.push(Some((digit, number)));
    if i == active {
        cells.push(Some(('*', ModalTone::Green)));
    }
    cells.push(Some((']', bracket)));
    cells.push(None);
    assert(cells@ =~= old(cells)@ + slot_cells(i as nat, selected as nat, active as nat));
}

/// The cells of the page selector.
fn page_cells_vec(selected: usize, active: usize) -> (cells: Vec<Option<(char, ModalTone)>>)
    ensures
        cells@ == page_cells(selected as nat, active as nat),
{
    let mut cells: Vec<Option<(char, ModalTone)>> = Vec::new();
    push_slot_cells(&mut cells, 0, selected, active);
    push_slot_cells(&mut cells, 1, selected, active);
    push_slot_cells(&mut cells, 2, selected, active);
    assert(cells@ =~= page_cells(selected as nat, active as nat));
    cells
}

/// The cells placed from column `col` on, inside the width `w`.
fn cells_texts(row: u32, x: u32, w: u16, col: u16, cells: &Vec<Option<(char, ModalTone)>>) -> (ps: Vec<PlacedText>)
    requires
        x + w <= u32::MAX,
    ensures
        placed_views(ps@) == place_cells(row as int, x as int, w as int, col as int, cells@),
{
    let mut ps: Vec<PlacedText> = Vec::new();
    assert(cells@.skip(0) =~= cells@);
    for k in 0..cells.len()
        invariant
            x + w <= u32::MAX,
            placed_views(ps@) + place_cells(row as int, x as int, w as int, col + k, cells@.skip(k as int))
                == place_cells(row as int, x as int, w as int, col as int, cells@),
    {
        let ghost rest = cells@.skip(k as int);
        let ghost before = ps@;
        assert(rest[0] == cells@[k as int]);
        assert(rest.drop_first() =~= cells@.skip(k + 1));
        let inside = col < w && k < (w - col) as usize;
        match cells[k] {
            Some((ch, tone)) => {
                if inside {
                    let c: u16 = col + k as u16;
                    let mut t = String::new();
                    push_char(&mut t, ch);
                    ps.push(placed(row, x + c as u32, t, tone));
                    assert(placed_views(ps@) =~= placed_views(before) + seq![(row as int, x + c, seq![ch], tone)]);
                }
            },
            None => {},
        }
        assert(placed_views(ps@) + place_cells(row as int, x as int, w as int, col + k + 1, cells@.skip(k + 1))
            =~= placed_views(before) + place_cells(row as int, x as int, w as int, col + k, rest));
    }
    assert(cells@.skip(cells@.len() as int) =~= Seq::<Option<(char, ModalTone)>>::empty());
    assert(placed_views(ps@) + Seq::<(int, int, Seq<char>, ModalTone)>::empty() =~= placed_views(ps@));
    ps
}

impl<W> SpellTestModal<W> {
    /// The result section.
    fn result_texts(&self, area: Rect, all_words: &Vec<String>) -> (ps: Vec<PlacedText>)
        requires
            area.width >= 5,
            self.result matches Some(SpellTestResult::Success { description, .. }) ==> byte_len(description@) <= usize::MAX,
            self.result is None ==> byte_len(joined(string_views(all_words@), ", "@)) <= usize::MAX,
        ensures
            placed_views(ps@) == spec_result(self, area, string_views(all_words@)),
    {
        let x = area.x as u32 + 2;
        let w = area.width - 4;
        let row = area.y as u32 + 8;
        match &self.result {
            Some(SpellTestResult::Success { spell_name, description, is_backfire }) => {
                let label = if *is_backfire { "⚠ BACKFIRE: " } else { "✓ Spell: " };
                let tone = if *is_backfire { ModalTone::Red } else { ModalTone::Green };
                let mut ps = labelled_texts(row, x, w, label, tone, spell_name.as_str(), ModalTone::CreamWood);
                let lines = crate::text::word_wrap(description.as_str(), w as usize);
                let more = lines_texts(row + 2, x, w, &lines, 4, ModalTone::LightBeige);
                append_placed(&mut ps, more);
                ps
            },
            Some(SpellTestResult::Fizzle { reason }) => {
                labelled_texts(row, x, w, "✗ Fizzle: ", ModalTone::Yellow, reason.as_str(), ModalTone::TanWood)
            },
            Some(SpellTestResult::ParseError { unknown }) => {
                let (label, n) = clipped("✗ Unknown words: ", w as usize);
                let mut ps: Vec<PlacedText> = Vec::new();
                ps.push(placed(row, x, label, ModalTone::Red));
                let more = word_texts(row, x, w, n as u16, unknown);
                append_placed(&mut ps, more);
                ps
            },
            None => {
                let (label, _n) = clipped("Available words:", w as usize);
                let mut ps: Vec<PlacedText> = Vec::new();
                ps.push(placed(row, x, label, ModalTone::OakBrown));
                let text = join_words(all_words, ", ");
                let lines = crate::text::word_wrap(text.as_str(), w as usize);
                let more = lines_texts(row + 1, x, w, &lines, 3, ModalTone::TanWood);
                append_placed(&mut ps, more);
                ps
            },
        }
    }

    /// The inscription message, or the page selector.
    fn page_texts(&self, area: Rect, active_page: usize) -> (ps: Vec<PlacedText>)
        requires
            area.width >= 5,
            area.height >= 4,
        ensures
            placed_views(ps@) == spec_pages(self, area, active_page as nat),
    {
        let x = area.x as u32 + 2;
        let w = area.width - 4;
        let row = area.y as u32 + area.height as u32 - 4;
        let mut ps: Vec<PlacedText> = Vec::new();
        match &self.inscribe_message {
            Some((msg, ok)) => {
                let (t, _n) = clipped(msg.as_str(), w as usize);
                ps.push(placed(row, x, t, if *ok { ModalTone::Green } else { ModalTone::Red }));
                assert(placed_views(ps@) =~= spec_pages(self, area, active_page as nat));
            },
            None => {
                if self.result.is_some() {
                    let (label, n) = clipped("Inscribe to page: ", w as usize);
                    ps.push(placed(row, x, label, ModalTone::TanWood));
                    let cells = page_cells_vec(self.selected_page, active_page);
                    let more = cells_texts(row, x, w, n as u16, &cells);
                    append_placed(&mut ps, more);
                    assert(placed_views(ps@) =~= spec_pages(self, area, active_page as nat));
                } else {
                    assert(placed_views(ps@) =~= spec_pages(self, area, active_page as nat));
                }
            },
        }
        ps
    }

    /// The key hints.
    fn footer_texts(&self, area: Rect) -> (ps: Vec<PlacedText>)
        requires
            area.width >= 5,
            area.height >= 4,
        ensures
            placed_views(ps@) == spec_footer(self, area),
    {
        let x = area.x as u32 + 2;
        let w = area.width - 4;
        let row = area.y as u32 + area.height as u32 - 2;
        let inscribe = match &self.result {
            Some(SpellTestResult::ParseError { .. }) => false,
            Some(_) => true,
            None => false,
        };
        let footer = if inscribe {
            "[Tab] Inscribe  [A] Activate  [←→] Page  [Esc] Close"
        } else {
            "[Enter] Test  [←→] Page  [A] Activate  [Esc] Close"
        };
        let c = centred_col(w, footer.len());
        let mut ps: Vec<PlacedText> = Vec::new();
        ps.push(placed(row, x + c as u32, owned(footer), ModalTone::DarkWalnut));
        assert(placed_views(ps@) =~= spec_footer(self, area));
        ps
    }

    /// Everything the tester shows inside `area`, in drawing order, with its
    /// place and colour: the centred title and the instructions; the input
    /// field and the separator; the result (the spell and the first four
    /// lines of its description, the fizzle and its reason, the unknown
    /// words, or, before a test, the first three lines of the known words);
    /// the inscription message or, after a test, the page selector; and the
    /// key hints, which offer inscribing after a spell or a fizzle.
    /// `active_page` is the tome's active page (0 without a tome);
    /// `all_words` names every known word.
    pub fn content_texts(&self, area: Rect, active_page: usize, all_words: &Vec<String>) -> (texts: Vec<PlacedText>)
        requires
            area.width >= 5,
            area.height >= 4,
            byte_len(self.input@) <= usize::MAX,
            self.result matches Some(SpellTestResult::Success { description, .. }) ==> byte_len(description@) <= usize::MAX,
            self.result is None ==> byte_len(joined(string_views(all_words@), ", "@)) <= usize::MAX,
        ensures
            placed_views(texts@) == spec_content_texts(self, area, active_page as nat, string_views(all_words@)),
    {
        let mut texts = head(area);
        append_placed(&mut texts, self.input_texts(area));
        append_placed(&mut texts, self.result_texts(area, all_words));
        append_placed(&mut texts, self.page_texts(area, active_page));
        append_placed(&mut texts, self.footer_texts(area));
        texts
    }
}

/// `v` kept between `lo` and `hi` (`min(hi)` then `max(lo)`).
pub open spec fn clamped(v: int, lo: int, hi: int) -> int {
    let m = if v < hi { v } else { hi };
    if m > lo { m } else { lo }
}

/// Where the tester opens on a screen of `width` by `height` cells: 70% of
/// the screen kept between 40 and 60 columns and between 16 and 24 rows,
/// centred.
pub fn modal_area(width: u16, height: u16) -> (r: Rect)
    requires
        width * 70 <= u16::MAX,
        height * 70 <= u16::MAX,
    ensures
        r.width == clamped(width * 70 / 100, 40, 60),
        r.height == clamped(height * 70 / 100, 16, 24),
        r.x == (if width >= r.width { width - r.width } else { 0 }) / 2,
        r.y == (if height >= r.height { height - r.height } else { 0 }) / 2,
{
    let w0 = width * 70 / 100;
    let w1 = if w0 < 60 { w0 } else { 60 };
    let mw = if w1 > 40 { w1 } else { 40 };
    let h0 = height * 70 / 100;
    let h1 = if h0 < 24 { h0 } else { 24 };
    let mh = if h1 > 16 { h1 } else { 16 };
    let x = (if width >= mw { width - mw } else { 0 }) / 2;
    let y = (if height >= mh { height - mh } else { 0 }) / 2;
    Rect { x, y, width: mw, height: mh }
}

} // verus!
