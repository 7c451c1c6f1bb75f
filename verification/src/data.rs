//! The column store: cells of logical lines, columns of cells under a header,
//! and the table aggregate with its cached maximum row count.

use crate::unicode::{
    cut_or_pad_cell, formatted_cell, grapheme_clusters, graphemes_of, split_grapheme_lines,
    split_lines, MaleableUnicode,
};
use vstd::prelude::*;

verus! {

/// The shape of one displayed cell: slots per line, and lines.
#[derive(Debug, Clone, Copy)]
pub struct CellDimentions {
    pub width: usize,
    pub height: usize,
}

/// One empty logical line: the contents of a default (backfill) cell.
pub open spec fn empty_cell_view() -> Seq<Seq<Seq<char>>> {
    seq![Seq::<Seq<char>>::empty()]
}

/// A column whose header is empty and which holds no cells yet.
pub open spec fn is_empty_column(c: CsvColumn) -> bool {
    c.header_view() == Seq::<char>::empty() && c.cells() == Seq::<CsvItem>::empty()
}

/// The largest cell count over a sequence of columns.
pub open spec fn spec_max_rows(cols: Seq<CsvColumn>) -> int
    decreases cols.len(),
{
    if cols.len() == 0 {
        0
    } else {
        let rest = spec_max_rows(cols.drop_last());
        let last = cols.last().cells().len() as int;
        if last > rest {
            last
        } else {
            rest
        }
    }
}

/// The maximum really is the maximum: no column is longer, and some column
/// reaches it whenever there are columns at all.
pub proof fn lemma_max_rows_is_max(cols: Seq<CsvColumn>)
    ensures
        forall|j: int| 0 <= j < cols.len() ==> (#[trigger] cols[j]).cells().len() <= spec_max_rows(
            cols,
        ),
        cols.len() > 0 ==> exists|j: int|
            0 <= j < cols.len() && (#[trigger] cols[j]).cells().len() == spec_max_rows(cols),
        cols.len() == 0 ==> spec_max_rows(cols) == 0,
    decreases cols.len(),
{
    if cols.len() > 0 {
        lemma_max_rows_is_max(cols.drop_last());
        assert forall|j: int| 0 <= j < cols.len() implies (#[trigger] cols[j]).cells().len()
            <= spec_max_rows(cols) by {
            if j < cols.len() - 1 {
                assert(cols.drop_last()[j] == cols[j]);
            }
        }
        if cols.last().cells().len() as int == spec_max_rows(cols) {
            assert(cols[cols.len() - 1].cells().len() == spec_max_rows(cols));
        } else {
            assert(spec_max_rows(cols) == spec_max_rows(cols.drop_last()));
            assert(cols.drop_last().len() > 0) by {
                if cols.drop_last().len() == 0 {
                    assert(spec_max_rows(cols.drop_last()) == 0);
                }
            }
            let j = choose|j: int|
                0 <= j < cols.drop_last().len() && (#[trigger] cols.drop_last()[j]).cells().len()
                    == spec_max_rows(cols.drop_last());
            assert(cols[j].cells().len() == spec_max_rows(cols));
        }
    }
}

/// A CSV cell: one field's text, held as one or more logical lines, each a
/// sequence of grapheme clusters.
#[derive(Debug)]
pub struct CsvItem {
    lines: Vec<Vec<String>>,
}

impl View for CsvItem {
    type V = Seq<Seq<Seq<char>>>;

    closed spec fn view(&self) -> Seq<Seq<Seq<char>>> {
        self.lines.deep_view()
    }
}

impl DeepView for CsvItem {
    type V = Seq<Seq<Seq<char>>>;

    closed spec fn deep_view(&self) -> Seq<Seq<Seq<char>>> {
        self.view()
    }
}

impl CsvItem {
    /// A cell always holds at least one (possibly empty) line.
    pub open spec fn wf(&self) -> bool {
        self@.len() >= 1
    }

    /// How many logical lines the cell holds.
    pub fn line_count(&self) -> (r: usize)
        ensures
            r == self@.len(),
    {
        proof {
            assert(self.lines.deep_view().len() == self.lines@.len());
        }
        self.lines.len()
    }

    /// Build a cell from raw field text: the text's grapheme clusters are
    /// split into logical lines on bare line-break clusters, with CRLF one
    /// break.
    pub fn from_text(text: &str) -> (r: CsvItem)
        ensures
            r@ == split_lines(graphemes_of(text@)),
            r.wf(),
    {
        let gs = grapheme_clusters(text);
        let lines = split_grapheme_lines(&gs);
        proof {
            assert(lines.deep_view().len() == lines@.len());
        }
        CsvItem { lines }
    }
}

impl Default for CsvItem {
    /// The backfill cell: a single empty line.
    fn default() -> (r: CsvItem)
        ensures
            r@ == empty_cell_view(),
            r.wf(),
    {
        let mut lines: Vec<Vec<String>> = Vec::new();
        lines.push(Vec::new());
        let r = CsvItem { lines };
        proof {
            assert(r@ =~~= empty_cell_view());
        }
        r
    }
}

impl MaleableUnicode for CsvItem {
    type Dimensions = CellDimentions;

    type Output = Vec<Vec<String>>;

    open spec fn formatted(&self, dimensions: CellDimentions, pad: Seq<char>) -> Seq<
        Seq<Seq<char>>,
    > {
        formatted_cell(self@, dimensions.width as int, dimensions.height as int, pad)
    }

    fn cut_or_pad_to(&self, dimensions: CellDimentions, pad_with: &str) -> (r: Vec<Vec<String>>) {
        cut_or_pad_cell(&self.lines, dimensions.width, dimensions.height, pad_with)
    }
}

/// One column: a header and the cells appended to it in row order.
#[derive(Debug)]
pub struct CsvColumn {
    header: String,
    values: Vec<CsvItem>,
}

impl CsvColumn {
    /// The header text.
    pub closed spec fn header_view(&self) -> Seq<char> {
        self.header@
    }

    /// The cells, in row order.
    pub closed spec fn cells(&self) -> Seq<CsvItem> {
        self.values@
    }

    /// The cells' contents, in row order.
    pub closed spec fn cell_views(&self) -> Seq<Seq<Seq<Seq<char>>>> {
        self.values.deep_view()
    }

    /// A column holds as many cell contents as cells.
    pub proof fn lemma_cell_views_len(self)
        ensures
            self.cell_views().len() == self.cells().len(),
    {
        assert(self.values.deep_view().len() == self.values@.len());
    }

    /// A new, empty column under the given header.
    pub fn from_header(header: String) -> (r: CsvColumn)
        ensures
            r.header_view() == header@,
            r.cells() == Seq::<CsvItem>::empty(),
    {
        CsvColumn { header, values: Vec::new() }
    }

    /// The column's header.
    pub fn header(&self) -> (r: &str)
        ensures
            r@ == self.header_view(),
    {
        self.header.as_str()
    }

    /// Store a cell. The column grows with default (empty) cells until row
    /// `index` is reachable, then the cell is appended; a cell stored at an
    /// already-filled index lands after the existing cells.
    pub fn set_value(&mut self, index: usize, value: CsvItem)
        ensures
            final(self).header_view() == old(self).header_view(),
            final(self).cell_views() == old(self).cell_views() + Seq::new(
                if index > old(self).cells().len() {
                    (index - old(self).cells().len()) as nat
                } else {
                    0
                },
                |i: int| empty_cell_view(),
            ) + seq![value@],
    {
        let ghost base = self.values.deep_view();
        while index > self.values.len()
            invariant
                self.header@ == old(self).header_view(),
                base.len() <= self.values@.len(),
                index > base.len() ==> self.values@.len() <= index,
                index <= base.len() ==> self.values@.len() == base.len(),
                self.values.deep_view() =~~= base + Seq::new(
                    (self.values@.len() - base.len()) as nat,
                    |i: int| empty_cell_view(),
                ),
            decreases index - self.values@.len(),
        {
            let ghost prev = self.values.deep_view();
            let filler = CsvItem::default();
            self.values.push(filler);
            proof {
                assert(self.values.deep_view() =~~= prev.push(empty_cell_view()));
                assert(self.values.deep_view() =~~= base + Seq::new(
                    (self.values@.len() - base.len()) as nat,
                    |i: int| empty_cell_view(),
                ));
            }
        }
        let ghost before_push = self.values.deep_view();
        let ghost pushed_view = value@;
        self.values.push(value);
        proof {
            assert(self.values.deep_view() =~~= before_push.push(pushed_view));
            assert(self.values.deep_view() =~~= old(self).cell_views() + Seq::new(
                if index > old(self).cells().len() {
                    (index - old(self).cells().len()) as nat
                } else {
                    0
                },
                |i: int| empty_cell_view(),
            ) + seq![pushed_view]);
        }
    }

    /// The cell at a row index, if the column reaches that row.
    pub fn value(&self, index: usize) -> (r: Option<&CsvItem>)
        ensures
            match r {
                Some(c) => index < self.cells().len() && *c == self.cells()[index as int],
                None => index >= self.cells().len(),
            },
    {
        if index < self.values.len() {
            Some(&self.values[index])
        } else {
            None
        }
    }

    /// All cells, in row order.
    pub fn values(&self) -> (r: &Vec<CsvItem>)
        ensures
            r@ == self.cells(),
    {
        &self.values
    }

    /// How many rows this column holds.
    pub fn row_count(&self) -> (r: usize)
        ensures
            r == self.cells().len(),
    {
        self.values.len()
    }
}

impl Default for CsvColumn {
    /// A column with an empty header and no cells.
    fn default() -> (r: CsvColumn)
        ensures
            is_empty_column(r),
    {
        CsvColumn { header: String::new(), values: Vec::new() }
    }
}

/// The table: all columns, with the maximum row count over them cached.
#[derive(Debug)]
pub struct Csv {
    max_rows: usize,
    columns: Vec<CsvColumn>,
}

impl Csv {
    /// The columns, in file order.
    pub closed spec fn cols(&self) -> Seq<CsvColumn> {
        self.columns@
    }

    /// The cached maximum matches the columns.
    pub closed spec fn wf(&self) -> bool {
        self.max_rows as int == spec_max_rows(self.cols())
    }

    /// Assemble a table from loaded columns and the maximum row count over
    /// them.
    pub(crate) fn assemble(max_rows: usize, columns: Vec<CsvColumn>) -> (r: Csv)
        requires
            max_rows as int == spec_max_rows(columns@),
        ensures
            r.cols() == columns@,
            r.wf(),
    {
        Csv { max_rows, columns }
    }

    /// The column at an index, if there is one.
    pub fn get_column(&self, column_index: usize) -> (r: Option<&CsvColumn>)
        ensures
            match r {
                Some(c) => column_index < self.cols().len() && *c == self.cols()[
                    column_index as int
                ],
                None => column_index >= self.cols().len(),
            },
    {
        if column_index < self.columns.len() {
            Some(&self.columns[column_index])
        } else {
            None
        }
    }

    /// How many columns the table holds.
    pub fn column_count(&self) -> (r: usize)
        ensures
            r == self.cols().len(),
    {
        self.columns.len()
    }

    /// The cached maximum row count over all columns.
    pub fn row_count(&self) -> (r: usize)
        ensures
            self.wf() ==> r as int == spec_max_rows(self.cols()),
    {
        self.max_rows
    }
}

} // verus!
