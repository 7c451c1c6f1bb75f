//! A second column-store surface: cells that cache their own extent,
//! columns of cells under a header, and a file aggregate that computes its
//! row count on demand rather than caching it.

pub use crate::data::CellDimentions;
use crate::unicode::{
    cut_or_pad_cell, formatted_cell, grapheme_clusters, graphemes_of, split_grapheme_lines,
    split_lines, MaleableUnicode,
};
use vstd::prelude::*;

verus! {

/// One empty logical line: the contents of a default (backfill) cell.
pub open spec fn empty_item_view() -> Seq<Seq<Seq<char>>> {
    seq![Seq::<Seq<char>>::empty()]
}

/// The largest cluster count over a cell's lines.
pub open spec fn max_line_len(lines: Seq<Seq<Seq<char>>>) -> int
    decreases lines.len(),
{
    if lines.len() == 0 {
        0
    } else {
        let rest = max_line_len(lines.drop_last());
        let last = lines.last().len() as int;
        if last > rest {
            last
        } else {
            rest
        }
    }
}

/// A column whose header is empty and which holds no cells yet.
pub open spec fn is_empty_csv_column(c: CSVColumn) -> bool {
    c.header_view() == Seq::<char>::empty() && c.cells() == Seq::<CSVItem>::empty()
}

/// The largest cell count over a sequence of columns.
pub open spec fn spec_max_rows(cols: Seq<CSVColumn>) -> int
    decreases cols.len(),
{
    if cols.len() == 0 {
        0
    } else {
        let rest = spec_max_rows(cols.drop_last());
        let last = cols.last().cells().len() as int;
        if last > rest {
            last
        } else {
            rest
        }
    }
}

/// A CSV cell: one field's text as logical lines of grapheme clusters, with
/// its extent (widest line, line count) cached.
#[derive(Debug)]
pub struct CSVItem {
    rows: Vec<Vec<String>>,
    width: usize,
    height: usize,
}

impl View for CSVItem {
    type V = Seq<Seq<Seq<char>>>;

    closed spec fn view(&self) -> Seq<Seq<Seq<char>>> {
        self.rows.deep_view()
    }
}

impl DeepView for CSVItem {
    type V = Seq<Seq<Seq<char>>>;

    closed spec fn deep_view(&self) -> Seq<Seq<Seq<char>>> {
        self.view()
    }
}

impl CSVItem {
    /// The cached widest line, in clusters.
    pub closed spec fn width_view(&self) -> int {
        self.width as int
    }

    /// The cached line count.
    pub closed spec fn height_view(&self) -> int {
        self.height as int
    }

    /// At least one (possibly empty) line, and the cached extent matches the
    /// lines.
    pub open spec fn wf(&self) -> bool {
        self@.len() >= 1 && self.height_view() == self@.len() && self.width_view() == max_line_len(
            self@,
        )
    }

    /// How many logical lines the cell holds.
    pub fn line_count(&self) -> (r: usize)
        ensures
            r == self@.len(),
    {
        proof {
            assert(self.rows.deep_view().len() == self.rows@.len());
        }
        self.rows.len()
    }

    /// Build a cell from raw field text, splitting its grapheme clusters
    /// into logical lines on bare line-break clusters (CRLF is one break),
    /// and caching the extent.
    pub fn from_text(text: &str) -> (r: CSVItem)
        ensures
            r@ == split_lines(graphemes_of(text@)),
            r.wf(),
    {
        let gs = grapheme_clusters(text);
        let rows = split_grapheme_lines(&gs);
        let mut width: usize = 0;
        let mut i: usize = 0;
        while i < rows.len()
            invariant
                i <= rows@.len(),
                width as int == max_line_len(rows.deep_view().take(i as int)),
            decreases rows@.len() - i,
        {
            let n = rows[i].len();
            proof {
                assert(rows.deep_view()[i as int] == rows@[i as int].deep_view());
                assert(rows@[i as int].deep_view().len() == rows@[i as int]@.len());
            }
            if n > width {
                width = n;
            }
            i = i + 1;
            proof {
                assert(rows.deep_view().take(i as int).drop_last() =~~= rows.deep_view().take(
                    i - 1,
                ));
            }
        }
        proof {
            assert(rows.deep_view().take(rows@.len() as int) =~~= rows.deep_view());
            assert(rows.deep_view().len() == rows@.len());
        }
        let height = rows.len();
        CSVItem { rows, width, height }
    }
}

impl Default for CSVItem {
    /// The backfill cell: a single empty line.
    fn default() -> (r: CSVItem)
        ensures
            r@ == empty_item_view(),
            r.wf(),
    {
        let mut rows: Vec<Vec<String>> = Vec::new();
        rows.push(Vec::new());
        let r = CSVItem { rows, width: 0, height: 1 };
        proof {
            assert(r@ =~~= empty_item_view());
            assert(max_line_len(Seq::<Seq<Seq<char>>>::empty()) == 0);
            assert(empty_item_view().drop_last() =~= Seq::<Seq<Seq<char>>>::empty());
            assert(empty_item_view().last() == Seq::<Seq<char>>::empty());
            assert(max_line_len(empty_item_view()) == 0);
        }
        r
    }
}

impl MaleableUnicode for CSVItem {
    type Dimensions = CellDimentions;

    type Output = Vec<Vec<String>>;

    open spec fn formatted(&self, dimensions: CellDimentions, pad: Seq<char>) -> Seq<
        Seq<Seq<char>>,
    > {
        formatted_cell(self@, dimensions.width as int, dimensions.height as int, pad)
    }

    fn cut_or_pad_to(&self, dimensions: CellDimentions, pad_with: &str) -> (r: Vec<Vec<String>>) {
        cut_or_pad_cell(&self.rows, dimensions.width, dimensions.height, pad_with)
    }
}

/// One column: a header and the cells appended to it in row order.
#[derive(Debug)]
pub struct CSVColumn {
    header: String,
    values: Vec<CSVItem>,
}

impl CSVColumn {
    /// The header text.
    pub closed spec fn header_view(&self) -> Seq<char> {
        self.header@
    }

    /// The cells, in row order.
    pub closed spec fn cells(&self) -> Seq<CSVItem> {
        self.values@
    }

    /// The cells' contents, in row order.
    pub closed spec fn cell_views(&self) -> Seq<Seq<Seq<Seq<char>>>> {
        self.values.deep_view()
    }

    /// A new, empty column under the given header.
    pub fn from_header(header: String) -> (r: CSVColumn)
        ensures
            r.header_view() == header@,
            r.cells() == Seq::<CSVItem>::empty(),
    {
        CSVColumn { header, values: Vec::new() }
    }

    /// The column's header.
    pub fn header(&self) -> (r: &str)
        ensures
            r@ == self.header_view(),
    {
        self.header.as_str()
    }

    /// Store a cell. The column grows with default (empty) cells until row
    /// `index` is reachable, then the cell is appended; a cell stored at an
    /// already-filled index lands after the existing cells.
    pub fn set_value(&mut self, index: usize, value: CSVItem)
        ensures
            final(self).header_view() == old(self).header_view(),
            final(self).cell_views() == old(self).cell_views() + Seq::new(
                if index > old(self).cells().len() {
                    (index - old(self).cells().len()) as nat
                } else {
                    0
                },
                |i: int| empty_item_view(),
            ) + seq![value@],
    {
        let ghost base = self.values.deep_view();
        while index > self.values.len()
            invariant
                self.header@ == old(self).header_view(),
                base.len() <= self.values@.len(),
                index > base.len() ==> self.values@.len() <= index,
                index <= base.len() ==> self.values@.len() == base.len(),
                self.values.deep_view() =~~= base + Seq::new(
                    (self.values@.len() - base.len()) as nat,
                    |i: int| empty_item_view(),
                ),
            decreases index - self.values@.len(),
        {
            let ghost prev = self.values.deep_view();
            let filler = CSVItem::default();
            self.values.push(filler);
            proof {
                assert(self.values.deep_view() =~~= prev.push(empty_item_view()));
                assert(self.values.deep_view() =~~= base + Seq::new(
                    (self.values@.len() - base.len()) as nat,
                    |i: int| empty_item_view(),
                ));
            }
        }
        let ghost before_push = self.values.deep_view();
        let ghost pushed_view = value@;
        self.values.push(value);
        proof {
            assert(self.values.deep_view() =~~= before_push.push(pushed_view));
            assert(self.values.deep_view() =~~= old(self).cell_views() + Seq::new(
                if index > old(self).cells().len() {
                    (index - old(self).cells().len()) as nat
                } else {
                    0
                },
                |i: int| empty_item_view(),
            ) + seq![pushed_view]);
        }
    }

    /// The cell at a row index, if the column reaches that row.
    pub fn value(&self, index: usize) -> (r: Option<&CSVItem>)
        ensures
            match r {
                Some(c) => index < self.cells().len() && *c == self.cells()[index as int],
                None => index >= self.cells().len(),
            },
    {
        if index < self.values.len() {
            Some(&self.values[index])
        } else {
            None
        }
    }

    /// All cells, in row order.
    pub fn values(&self) -> (r: &Vec<CSVItem>)
        ensures
            r@ == self.cells(),
    {
        &self.values
    }

    /// How many rows this column holds.
    pub fn row_count(&self) -> (r: usize)
        ensures
            r == self.cells().len(),
    {
        self.values.len()
    }
}

impl Default for CSVColumn {
    /// A column with an empty header and no cells.
    fn default() -> (r: CSVColumn)
        ensures
            is_empty_csv_column(r),
    {
        CSVColumn { header: String::new(), values: Vec::new() }
    }
}

/// The file aggregate: all columns, in file order.
#[derive(Debug)]
pub struct CSVFile {
    columns: Vec<CSVColumn>,
}

impl CSVFile {
    /// The columns, in file order.
    pub closed spec fn cols(&self) -> Seq<CSVColumn> {
        self.columns@
    }

    /// A file with no columns.
    pub fn new() -> (r: CSVFile)
        ensures
            r.cols() == Seq::<CSVColumn>::empty(),
    {
        CSVFile { columns: Vec::new() }
    }

    /// Append an empty column under the given header.
    pub fn new_column(&mut self, header: String)
        ensures
            final(self).cols().len() == old(self).cols().len() + 1,
            forall|j: int|
                0 <= j < old(self).cols().len() ==> final(self).cols()[j] == old(self).cols()[j],
            final(self).cols().last().header_view() == header@,
            final(self).cols().last().cells() == Seq::<CSVItem>::empty(),
    {
        self.columns.push(CSVColumn::from_header(header));
    }

    /// The column at an index, if there is one.
    pub fn get_column(&self, column_index: usize) -> (r: Option<&CSVColumn>)
        ensures
            match r {
                Some(c) => column_index < self.cols().len() && *c == self.cols()[
                    column_index as int
                ],
                None => column_index >= self.cols().len(),
            },
    {
        if column_index < self.columns.len() {
            Some(&self.columns[column_index])
        } else {
            None
        }
    }

    /// The column at `column_index`, growing the file with default (empty)
    /// columns first if the index is beyond the current column count.
    pub fn get_column_mut(&mut self, column_index: usize) -> (column: &mut CSVColumn)
        ensures
            final(self).cols().len() == if old(self).cols().len() > column_index {
                old(self).cols().len() as int
            } else {
                column_index + 1
            },
            forall|j: int|
                0 <= j < old(self).cols().len() && j != column_index ==> final(self).cols()[j]
                    == old(self).cols()[j],
            forall|j: int|
                old(self).cols().len() <= j < final(self).cols().len() && j != column_index
                    ==> is_empty_csv_column(#[trigger] final(self).cols()[j]),
            column_index < old(self).cols().len() ==> *column == old(self).cols()[
                column_index as int
            ],
            column_index >= old(self).cols().len() ==> is_empty_csv_column(*column),
            final(self).cols()[column_index as int] == *final(column),
    {
        while column_index >= self.columns.len()
            invariant
                old(self).cols().len() <= self.columns@.len(),
                self.columns@.len() <= column_index + 1 || self.columns@.len() == old(
                    self,
                ).cols().len(),
                forall|j: int|
                    0 <= j < old(self).cols().len() ==> self.columns@[j] == old(self).cols()[j],
                forall|j: int|
                    old(self).cols().len() <= j < self.columns@.len() ==> is_empty_csv_column(
                        #[trigger] self.columns@[j],
                    ),
            decreases column_index + 1 - self.columns@.len(),
        {
            self.columns.push(CSVColumn::default());
        }
        &mut self.columns[column_index]
    }

    /// Store a cell at a row of a column, creating the column (and any
    /// before it) if the index is beyond the current column count, and
    /// growing the column with default cells until the row is reachable.
    pub fn set_value(&mut self, column_index: usize, row_index: usize, value: CSVItem)
        ensures
            final(self).cols().len() == if old(self).cols().len() > column_index {
                old(self).cols().len() as int
            } else {
                column_index + 1
            },
            forall|j: int|
                0 <= j < old(self).cols().len() && j != column_index ==> final(self).cols()[j]
                    == old(self).cols()[j],
            forall|j: int|
                old(self).cols().len() <= j < final(self).cols().len() && j != column_index
                    ==> is_empty_csv_column(#[trigger] final(self).cols()[j]),
            ({
                let prior_header = if column_index < old(self).cols().len() {
                    old(self).cols()[column_index as int].header_view()
                } else {
                    Seq::<char>::empty()
                };
                let prior_cells = if column_index < old(self).cols().len() {
                    old(self).cols()[column_index as int].cell_views()
                } else {
                    Seq::<Seq<Seq<Seq<char>>>>::empty()
                };
                let fill = if row_index > prior_cells.len() {
                    (row_index - prior_cells.len()) as nat
                } else {
                    0
                };
                &&& final(self).cols()[column_index as int].header_view() == prior_header
                &&& final(self).cols()[column_index as int].cell_views() == prior_cells
                    + Seq::new(fill, |i: int| empty_item_view()) + seq![value@]
            }),
    {
        let column = self.get_column_mut(column_index);
        column.set_value(row_index, value);
    }

    /// How many columns the file holds.
    pub fn column_count(&self) -> (r: usize)
        ensures
            r == self.cols().len(),
    {
        self.columns.len()
    }

    /// The largest row count over all columns.
    pub fn row_count(&self) -> (r: usize)
        ensures
            r as int == spec_max_rows(self.cols()),
    {
        let mut r: usize = 0;
        let mut i: usize = 0;
        while i < self.columns.len()
            invariant
                i <= self.columns@.len(),
                r as int == spec_max_rows(self.columns@.take(i as int)),
            decreases self.columns@.len() - i,
        {
            let n = self.columns[i].row_count();
            if n > r {
                r = n;
            }
            i = i + 1;
            proof {
                assert(self.columns@.take(i as int).drop_last() =~= self.columns@.take(i - 1));
            }
        }
        proof {
            assert(self.columns@.take(self.columns@.len() as int) =~= self.columns@);
        }
        r
    }
}

} // verus!
