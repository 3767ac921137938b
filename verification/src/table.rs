//! A plain table: a header row of labels and rows of text cells, with
//! columns as wide as their widest entry.
use vstd::prelude::*;

use crate::text::byte_len;
use crate::text::string_views;

verus! {

/// A column header.
pub struct Header {
    pub label: String,
}

impl Header {
    /// A header with the given label.
    pub fn new(label: &str) -> (h: Self)
        ensures
            h.label@ == label@,
    {
        Header { label: label.to_owned() }
    }
}

/// A table row: one text per cell.
pub struct Row {
    pub cells: Vec<String>,
}

impl Row {
    /// A row with the given cells, in order.
    pub fn new(cells: Vec<String>) -> (r: Self)
        ensures
            r.cells == cells,
    {
        Row { cells }
    }
}

/// The labels of a list of headers.
pub open spec fn header_labels(headers: Seq<Header>) -> Seq<Seq<char>> {
    headers.map_values(|h: Header| h.label@)
}

/// The cells of a list of rows.
pub open spec fn row_cells(rows: Seq<Row>) -> Seq<Seq<Seq<char>>> {
    rows.map_values(|r: Row| string_views(r.cells@))
}

/// Byte length of entry `i` of `texts`, or 0 when there is none.
pub open spec fn entry_len(texts: Seq<Seq<char>>, i: int) -> nat {
    if 0 <= i < texts.len() {
        byte_len(texts[i])
    } else {
        0
    }
}

/// Width of column `i`: the byte length of its widest entry (header or
/// cell).
pub open spec fn column_content_width(headers: Seq<Seq<char>>, rows: Seq<Seq<Seq<char>>>, i: int) -> nat
    decreases rows.len(),
{
    if rows.len() == 0 {
        entry_len(headers, i)
    } else {
        let w = column_content_width(headers, rows.drop_last(), i);
        let c = entry_len(rows.last(), i);
        if c > w {
            c
        } else {
            w
        }
    }
}

/// Number of columns: the longest of the header row and the rows.
pub open spec fn column_count(headers: Seq<Seq<char>>, rows: Seq<Seq<Seq<char>>>) -> nat
    decreases rows.len(),
{
    if rows.len() == 0 {
        headers.len()
    } else {
        let n = column_count(headers, rows.drop_last());
        if rows.last().len() > n {
            rows.last().len()
        } else {
            n
        }
    }
}

/// No label or cell is within 2 bytes of `usize::MAX`.
pub open spec fn lengths_fit(headers: Seq<Seq<char>>, rows: Seq<Seq<Seq<char>>>) -> bool {
    &&& forall|i: int| 0 <= i < headers.len() ==> byte_len(#[trigger] headers[i]) + 2 <= usize::MAX
    &&& forall|r: int, i: int|
        0 <= r < rows.len() && 0 <= i < rows[r].len() ==> byte_len(#[trigger] rows[r][i]) + 2
            <= usize::MAX
}

/// A table of text.
pub struct TableComponent {
    headers: Vec<Header>,
    rows: Vec<Row>,
}

impl TableComponent {
    /// The header labels.
    pub closed spec fn headers(self) -> Seq<Seq<char>> {
        header_labels(self.headers@)
    }

    /// The rows' cells.
    pub closed spec fn rows(self) -> Seq<Seq<Seq<char>>> {
        row_cells(self.rows@)
    }

    /// A table with the given headers and no rows.
    pub fn new(headers: Vec<Header>) -> (t: Self)
        ensures
            t.headers() == header_labels(headers@),
            t.rows() == Seq::<Seq<Seq<char>>>::empty(),
    {
        let t = TableComponent { headers, rows: Vec::new() };
        assert(row_cells(t.rows@) =~= Seq::<Seq<Seq<char>>>::empty());
        t
    }

    /// The rows, as the cell vectors they were made from.
    pub closed spec fn row_vecs(self) -> Seq<Vec<String>> {
        self.rows@.map_values(|r: Row| r.cells)
    }

    /// A table with the given headers and one row per item, made by
    /// `extract`.
    pub fn from_items<T, F: Fn(&T) -> Vec<String>>(headers: Vec<Header>, items: &[T], extract: F) -> (t: Self)
        requires
            forall|i: int| 0 <= i < items@.len() ==> call_requires(extract, (&items@[i],)),
        ensures
            t.headers() == header_labels(headers@),
            t.row_vecs().len() == items@.len(),
            t.rows() == t.row_vecs().map_values(|c: Vec<String>| string_views(c@)),
            forall|i: int|
                0 <= i < items@.len() ==> call_ensures(extract, (&items@[i],), #[trigger] t.row_vecs()[i]),
    {
        let mut rows: Vec<Row> = Vec::new();
        let n = items.len();
        for i in 0..n
            invariant
                n == items@.len(),
                forall|j: int| 0 <= j < items@.len() ==> call_requires(extract, (&items@[j],)),
                rows@.len() == i,
                forall|j: int|
                    0 <= j < i ==> call_ensures(extract, (&items@[j],), #[trigger] rows@[j].cells),
        {
            let cells = extract(&items[i]);
            rows.push(Row::new(cells));
        }
        let t = TableComponent { headers, rows };
        assert(t.rows() =~= t.row_vecs().map_values(|c: Vec<String>| string_views(c@)));
        assert forall|i: int| 0 <= i < items@.len() implies call_ensures(extract, (&items@[i],), #[trigger] t.row_vecs()[i]) by {
            assert(t.row_vecs()[i] == t.rows@[i].cells);
        }
        t
    }

    /// Adds `row` at the bottom.
    pub fn add_row(&mut self, row: Row)
        ensures
            final(self).headers() == old(self).headers(),
            final(self).rows() == old(self).rows().push(string_views(row.cells@)),
    {
        self.rows.push(row);
        assert(row_cells(self.rows@) =~= row_cells(old(self).rows@).push(string_views(row.cells@)));
    }
}

proof fn lemma_width_beyond_count(headers: Seq<Seq<char>>, rows: Seq<Seq<Seq<char>>>, i: int)
    requires
        i >= column_count(headers, rows),
    ensures
        column_content_width(headers, rows, i) == 0,
    decreases rows.len(),
{
    if rows.len() > 0 {
        lemma_width_beyond_count(headers, rows.drop_last(), i);
    }
}

proof fn lemma_width_fits(headers: Seq<Seq<char>>, rows: Seq<Seq<Seq<char>>>, i: int)
    requires
        lengths_fit(headers, rows),
    ensures
        column_content_width(headers, rows, i) + 2 <= usize::MAX,
    decreases rows.len(),
{
    if rows.len() > 0 {
        let p = rows.drop_last();
        assert forall|r: int, k: int| 0 <= r < p.len() && 0 <= k < p[r].len() implies byte_len(
            #[trigger] p[r][k],
        ) + 2 <= usize::MAX by {
            assert(p[r] == rows[r]);
        }
        lemma_width_fits(headers, p, i);
        if 0 <= i < rows.last().len() {
            assert(rows.last() == rows[rows.len() - 1]);
            assert(byte_len(rows[rows.len() - 1][i]) + 2 <= usize::MAX);
        }
    }
}

impl TableComponent {
    /// Width of each column in cells: its widest entry (in bytes) plus 2,
    /// taken modulo 2^16 as the `u16` of the layout.
    pub fn column_widths(&self) -> (widths: Vec<u16>)
        requires
            lengths_fit(self.headers(), self.rows()),
        ensures
            widths@.len() == column_count(self.headers(), self.rows()),
            forall|i: int|
                0 <= i < widths@.len() ==> #[trigger] widths@[i] == (column_content_width(
                    self.headers(),
                    self.rows(),
                    i,
                ) + 2) as u16,
    {
        let ghost hs = self.headers();
        let ghost rs = self.rows();
        let mut widths: Vec<usize> = Vec::new();
        let nh = self.headers.len();
        for k in 0..nh
            invariant
                nh == self.headers@.len(),
                hs == self.headers(),
                lengths_fit(hs, self.rows()),
                widths@.len() == k,
                forall|i: int| 0 <= i < k ==> #[trigger] widths@[i] == byte_len(hs[i]),
        {
            assert(hs[k as int] == self.headers@[k as int].label@);
            widths.push(self.headers[k].label.as_str().len());
        }
        let nr = self.rows.len();
        assert(rs.take(0) =~= Seq::<Seq<Seq<char>>>::empty());
        for r in 0..nr
            invariant
                nr == self.rows@.len(),
                hs == self.headers(),
                rs == self.rows(),
                lengths_fit(hs, rs),
                widths@.len() == column_count(hs, rs.take(r as int)),
                forall|i: int|
                    0 <= i < widths@.len() ==> #[trigger] widths@[i] == column_content_width(
                        hs,
                        rs.take(r as int),
                        i,
                    ),
        {
            let ghost prev = widths@;
            let ghost cells = rs[r as int];
            assert(cells == string_views(self.rows@[r as int].cells@));
            assert(rs.take(r + 1).drop_last() =~= rs.take(r as int));
            assert(rs.take(r + 1).last() == cells);
            let row = &self.rows[r];
            let nc = row.cells.len();
            for c in 0..nc
                invariant
                    nc == cells.len(),
                    row.cells@.len() == nc,
                    cells == string_views(row.cells@),
                    forall|i: int| 0 <= i < nc ==> byte_len(#[trigger] cells[i]) + 2 <= usize::MAX,
                    widths@.len() == (if prev.len() >= c {
                        prev.len()
                    } else {
                        c as nat
                    }),
                    forall|i: int|
                        0 <= i < widths@.len() ==> #[trigger] widths@[i] == (if i < c {
                            let p = if i < prev.len() {
                                prev[i] as nat
                            } else {
                                0
                            };
                            if byte_len(cells[i]) > p {
                                byte_len(cells[i])
                            } else {
                                p
                            }
                        } else {
                            prev[i] as nat
                        }),
            {
                let len = row.cells[c].as_str().len();
                assert(cells[c as int] == row.cells@[c as int]@);
                if c >= widths.len() {
                    widths.push(len);
                } else if len > widths[c] {
                    widths.set(c, len);
                }
            }
            proof {
                let cur = rs.take(r + 1);
                assert(column_count(hs, cur) == (if cells.len() > column_count(hs, rs.take(r as int)) {
                    cells.len()
                } else {
                    column_count(hs, rs.take(r as int))
                }));
                assert forall|i: int| 0 <= i < widths@.len() implies #[trigger] widths@[i]
                    == column_content_width(hs, cur, i) by {
                    if i >= prev.len() {
                        lemma_width_beyond_count(hs, rs.take(r as int), i);
                    }
                }
            }
        }
        assert(rs.take(nr as int) =~= rs);
        assert forall|k: int| 0 <= k < widths@.len() implies widths@[k] + 2 <= usize::MAX by {
            lemma_width_fits(hs, rs, k);
        }
        let mut out: Vec<u16> = Vec::new();
        let n = widths.len();
        for i in 0..n
            invariant
                n == widths@.len(),
                out@.len() == i,
                forall|k: int|
                    0 <= k < widths@.len() ==> #[trigger] widths@[k] == column_content_width(hs, rs, k),
                forall|k: int| 0 <= k < n ==> widths@[k] + 2 <= usize::MAX,
                forall|k: int|
                    0 <= k < i ==> #[trigger] out@[k] == (column_content_width(hs, rs, k) + 2) as u16,
        {
            out.push(#[verifier::truncate] ((widths[i] + 2) as u16));
        }
        out
    }
}

/// Law of column widths: a column is as wide as its header and as each of
/// its cells, and as wide as one of them.
pub proof fn lemma_column_width_covers(headers: Seq<Seq<char>>, rows: Seq<Seq<Seq<char>>>, i: int)
    ensures
        entry_len(headers, i) <= column_content_width(headers, rows, i),
        forall|r: int| 0 <= r < rows.len() ==> entry_len(#[trigger] rows[r], i) <= column_content_width(headers, rows, i),
        column_content_width(headers, rows, i) == entry_len(headers, i) || exists|r: int|
            0 <= r < rows.len() && column_content_width(headers, rows, i) == entry_len(#[trigger] rows[r], i),
    decreases rows.len(),
{
    if rows.len() > 0 {
        let prev = rows.drop_last();
        lemma_column_width_covers(headers, prev, i);
        assert forall|r: int| 0 <= r < rows.len() implies entry_len(#[trigger] rows[r], i) <= column_content_width(headers, rows, i) by {
            if r < rows.len() - 1 {
                assert(rows[r] == prev[r]);
            }
        }
        let w = column_content_width(headers, rows, i);
        if w != entry_len(headers, i) {
            if w == entry_len(rows.last(), i) {
                assert(rows[rows.len() - 1] == rows.last());
            } else {
                let r = choose|r: int| 0 <= r < prev.len() && column_content_width(headers, prev, i) == entry_len(#[trigger] prev[r], i);
                assert(rows[r] == prev[r]);
            }
        }
    }
}

} // verus!
