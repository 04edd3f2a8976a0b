//! The table model: headers, rows, and the two-phase builder that tracks
//! running maximum column widths.

use vstd::prelude::*;

use crate::measure::visual_width;
use crate::measure::width;
use crate::render::header_fields;
use crate::render::header_line;
use crate::render::paired_len;
use crate::render::rendered;
use crate::render::row_fields;
use crate::render::rows_text;
use vstd::string::StringExecFns;

verus! {

/// Phase marker: the table still accepts headers.
pub struct ModifyHeader;

/// Phase marker: the header set is frozen and the table accepts rows.
pub struct ModifyRows;

/// Alignment policy for a column header.
#[derive(Debug, Clone, Copy, PartialEq, Eq, Structural)]
pub enum Alignment {
    Left,
    Right,
    Center,
}

/// A column header: its label and the alignment applied to it on rendering.
pub struct Header {
    pub text: String,
    pub alignment: Alignment,
}

impl Header {
    /// A header with the given label and the default `Left` alignment.
    pub fn new(text: &str) -> (h: Header)
        ensures
            h.text@ == text@,
            h.alignment == Alignment::Left,
    {
        Header { text: text.to_owned(), alignment: Alignment::Left }
    }

    /// A header with an explicit alignment.
    pub fn with_alignment(text: &str, alignment: Alignment) -> (h: Header)
        ensures
            h.text@ == text@,
            h.alignment == alignment,
    {
        Header { text: text.to_owned(), alignment }
    }
}

/// One data row: an ordered sequence of cell strings.
pub struct Row {
    cells: Vec<String>,
}

impl Row {
    /// The cells of the row, as sequences of characters.
    pub closed spec fn cells_view(self) -> Seq<Seq<char>> {
        self.cells.deep_view()
    }

    /// An empty row.
    pub fn new() -> (r: Row)
        ensures
            r.cells_view() == Seq::<Seq<char>>::empty(),
    {
        let row = Row { cells: Vec::new() };
        proof {
            assert(row.cells_view() =~= Seq::<Seq<char>>::empty());
        }
        row
    }

    /// Appends one cell at the right end of the row.
    pub fn cell(self, cell: &str) -> (r: Row)
        ensures
            r.cells_view() == self.cells_view().push(cell@),
    {
        let mut cells = self.cells;
        cells.push(cell.to_owned());
        let row = Row { cells };
        proof {
            assert(row.cells_view() =~= self.cells_view().push(cell@));
        }
        row
    }
}

/// The column widths after one row is folded in: each tracked width rises to
/// the cell's visual width where that is larger; pairing stops at the shorter
/// of the two sequences.
pub open spec fn upd_widths(ws: Seq<nat>, cells: Seq<Seq<char>>) -> Seq<nat> {
    Seq::new(
        ws.len(),
        |i: int|
            if i < cells.len() && visual_width(cells[i]) > ws[i] {
                visual_width(cells[i])
            } else {
                ws[i]
            },
    )
}

/// A table under construction. The phase parameter `T` is `ModifyHeader`
/// while headers may still be added and `ModifyRows` once the header set is
/// frozen; every builder step consumes the table and returns the next one,
/// so a reference to an earlier phase cannot be kept and used again.
pub struct Table<T> {
    headers: Vec<Header>,
    column_widths: Vec<usize>,
    rows: Vec<Vec<String>>,
    skip_header: bool,
    _pd: core::marker::PhantomData<T>,
}

impl<T> Table<T> {
    /// The headers declared so far.
    pub closed spec fn headers_view(self) -> Seq<Header> {
        self.headers@
    }

    /// The tracked column widths: one per declared column, the running
    /// maximum visual width seen in that column.
    pub closed spec fn widths_view(self) -> Seq<nat> {
        self.column_widths@.map_values(|w: usize| w as nat)
    }

    /// The data rows added so far, each as a sequence of cells.
    pub closed spec fn rows_view(self) -> Seq<Seq<Seq<char>>> {
        self.rows.deep_view()
    }

    /// Whether rendering leaves the header line out.
    pub closed spec fn spec_skip_header(self) -> bool {
        self.skip_header
    }

    /// Raises each tracked column width to the visual width of the paired
    /// cell of `row`, where that is larger; columns beyond the row's arity,
    /// and cells beyond the declared columns, are left alone.
    pub fn update_widths(&mut self, row: &Row)
        ensures
            final(self).widths_view() == upd_widths(old(self).widths_view(), row.cells_view()),
            final(self).headers_view() == old(self).headers_view(),
            final(self).rows_view() == old(self).rows_view(),
            final(self).spec_skip_header() == old(self).spec_skip_header(),
    {
        let n = if self.column_widths.len() <= row.cells.len() {
            self.column_widths.len()
        } else {
            row.cells.len()
        };
        let mut i: usize = 0;
        while i < n
            invariant
                i <= n,
                n <= old(self).column_widths@.len(),
                n <= row.cells@.len(),
                n == if old(self).column_widths@.len() <= row.cells@.len() {
                    old(self).column_widths@.len() as int
                } else {
                    row.cells@.len() as int
                },
                self.column_widths@.len() == old(self).column_widths@.len(),
                forall|j: int|
                    0 <= j < i ==> self.column_widths@[j] as nat == upd_widths(
                        old(self).widths_view(),
                        row.cells_view(),
                    )[j],
                forall|j: int|
                    i <= j < self.column_widths@.len() ==> self.column_widths@[j]
                        == old(self).column_widths@[j],
                self.headers@ == old(self).headers@,
                self.rows@ == old(self).rows@,
                self.skip_header == old(self).skip_header,
            decreases n - i,
        {
            let w = width(row.cells[i].as_str());
            if w > self.column_widths[i] {
                self.column_widths.set(i, w);
            }
            i += 1;
        }
        proof {
            assert(self.widths_view() =~= upd_widths(old(self).widths_view(), row.cells_view()));
        }
    }
}

impl Table<ModifyHeader> {
    /// An empty table in header phase: no headers, no rows, no tracked
    /// widths, and the header line emitted on rendering.
    pub fn new() -> (t: Table<ModifyHeader>)
        ensures
            t.headers_view() == Seq::<Header>::empty(),
            t.widths_view() == Seq::<nat>::empty(),
            t.rows_view() == Seq::<Seq<Seq<char>>>::empty(),
            !t.spec_skip_header(),
    {
        let t = Table {
            headers: Vec::new(),
            column_widths: Vec::new(),
            rows: Vec::new(),
            skip_header: false,
            _pd: core::marker::PhantomData,
        };
        proof {
            assert(t.headers_view() =~= Seq::<Header>::empty());
            assert(t.widths_view() =~= Seq::<nat>::empty());
            assert(t.rows_view() =~= Seq::<Seq<Seq<char>>>::empty());
        }
        t
    }

    /// Appends one header and seeds its column's tracked width to the visual
    /// width of the header's own label.
    pub fn header(self, header: Header) -> (t: Table<ModifyHeader>)
        ensures
            t.headers_view() == self.headers_view().push(header),
            t.widths_view() == self.widths_view().push(visual_width(header.text@)),
            t.rows_view() == self.rows_view(),
            t.spec_skip_header() == self.spec_skip_header(),
    {
        let mut this = self;
        let w = width(header.text.as_str());
        this.column_widths.push(w);
        this.headers.push(header);
        proof {
            assert(this.widths_view() =~= self.widths_view().push(visual_width(
                this.headers@.last().text@,
            )));
        }
        this
    }

    /// Ends the header phase and accepts the first data row in one step: the
    /// row's cells are folded into the tracked widths, and the resulting
    /// table's row list holds exactly this one row.
    pub fn row(self, row: Row) -> (t: Table<ModifyRows>)
        ensures
            t.headers_view() == self.headers_view(),
            t.widths_view() == upd_widths(self.widths_view(), row.cells_view()),
            t.rows_view() == seq![row.cells_view()],
            t.spec_skip_header() == self.spec_skip_header(),
    {
        let mut this = self;
        this.update_widths(&row);
        let t = Table {
            headers: this.headers,
            column_widths: this.column_widths,
            rows: vec![row.cells],
            skip_header: this.skip_header,
            _pd: core::marker::PhantomData,
        };
        proof {
            assert(t.rows_view() =~= seq![t.rows@[0].deep_view()]);
        }
        t
    }

    /// Ends the header phase: the header set and the tracked widths are
    /// frozen as they stand, and the row list starts empty.
    pub fn end_header(self) -> (t: Table<ModifyRows>)
        ensures
            t.headers_view() == self.headers_view(),
            t.widths_view() == self.widths_view(),
            t.rows_view() == Seq::<Seq<Seq<char>>>::empty(),
            t.spec_skip_header() == self.spec_skip_header(),
    {
        let t = Table {
            headers: self.headers,
            column_widths: self.column_widths,
            rows: Vec::new(),
            skip_header: self.skip_header,
            _pd: core::marker::PhantomData,
        };
        proof {
            assert(t.rows_view() =~= Seq::<Seq<Seq<char>>>::empty());
        }
        t
    }
}

impl Table<ModifyRows> {
    /// Appends one data row: its cells are folded into the tracked widths
    /// and the row joins the end of the row list.
    pub fn row(self, row: Row) -> (t: Table<ModifyRows>)
        ensures
            t.headers_view() == self.headers_view(),
            t.widths_view() == upd_widths(self.widths_view(), row.cells_view()),
            t.rows_view() == self.rows_view().push(row.cells_view()),
            t.spec_skip_header() == self.spec_skip_header(),
    {
        let mut this = self;
        this.update_widths(&row);
        let ghost mid = this.rows_view();
        this.rows.push(row.cells);
        proof {
            assert(this.rows_view() =~= mid.push(this.rows@.last().deep_view()));
        }
        this
    }

    /// Renders the table as one text block: the header line (unless it is
    /// skipped), then one line per data row in insertion order, every field
    /// padded to its column's tracked width floored at eight columns and
    /// followed by one separator space.
    pub fn render(&self) -> (r: String)
        ensures
            r@ == rendered(
                self.headers_view(),
                self.widths_view(),
                self.rows_view(),
                self.spec_skip_header(),
            ),
    {
        let mut out = String::new();
        if !self.skip_header {
            let n = if self.headers.len() <= self.column_widths.len() {
                self.headers.len()
            } else {
                self.column_widths.len()
            };
            let mut i: usize = 0;
            while i < n
                invariant
                    i <= n,
                    n == paired_len(self.headers_view().len(), self.widths_view().len()),
                    out@ == header_fields(self.headers_view(), self.widths_view(), i as int),
                decreases n - i,
            {
                let f = crate::render::format(
                    self.headers[i].text.as_str(),
                    self.column_widths[i],
                    self.headers[i].alignment,
                );
                out.append(f.as_str());
                out.append(" ");
                proof {
                    reveal_strlit(" ");
                    assert(out@ =~= header_fields(
                        self.headers_view(),
                        self.widths_view(),
                        i + 1,
                    ));
                }
                i += 1;
            }
            out.append("\n");
            proof {
                reveal_strlit("\n");
                assert(out@ =~= header_line(self.headers_view(), self.widths_view()));
            }
        }
        let ghost head = out@;
        let mut k: usize = 0;
        while k < self.rows.len()
            invariant
                k <= self.rows_view().len(),
                self.rows@.len() == self.rows_view().len(),
                out@ == head + rows_text(self.rows_view(), self.widths_view(), k as int),
            decreases self.rows@.len() - k,
        {
            let m = if self.rows[k].len() <= self.column_widths.len() {
                self.rows[k].len()
            } else {
                self.column_widths.len()
            };
            let mut j: usize = 0;
            while j < m
                invariant
                    j <= m,
                    k < self.rows_view().len(),
                    self.rows@.len() == self.rows_view().len(),
                    m == paired_len(self.rows_view()[k as int].len(), self.widths_view().len()),
                    out@ == head + rows_text(self.rows_view(), self.widths_view(), k as int)
                        + row_fields(self.rows_view()[k as int], self.widths_view(), j as int),
                decreases m - j,
            {
                let f = crate::render::format(
                    self.rows[k][j].as_str(),
                    self.column_widths[j],
                    Alignment::Left,
                );
                out.append(f.as_str());
                out.append(" ");
                proof {
                    reveal_strlit(" ");
                    assert(out@ =~= head + rows_text(
                        self.rows_view(),
                        self.widths_view(),
                        k as int,
                    ) + row_fields(self.rows_view()[k as int], self.widths_view(), j + 1));
                }
                j += 1;
            }
            out.append("\n");
            proof {
                reveal_strlit("\n");
                assert(out@ =~= head + rows_text(
                    self.rows_view(),
                    self.widths_view(),
                    k + 1,
                ));
            }
            k += 1;
        }
        proof {
            assert(out@ =~= rendered(
                self.headers_view(),
                self.widths_view(),
                self.rows_view(),
                self.spec_skip_header(),
            ));
        }
        out
    }
}

} // verus!
