//! Incremental loading of a table: columns are created and grown as parsed
//! rows of fields arrive, then sealed into the read-only `Csv` aggregate.

use crate::data::{is_empty_column, spec_max_rows, Csv, CsvColumn};
use vstd::prelude::*;

verus! {

/// Collects columns while a file is read; `Csv::from_builder` seals it.
pub struct CsvBuilder {
    columns: Vec<CsvColumn>,
}

impl CsvBuilder {
    /// The columns collected so far, in file order.
    pub closed spec fn cols(&self) -> Seq<CsvColumn> {
        self.columns@
    }

    /// A builder with no columns.
    pub fn new() -> (r: CsvBuilder)
        ensures
            r.cols() == Seq::<CsvColumn>::empty(),
    {
        CsvBuilder { columns: Vec::new() }
    }

    /// Append an empty column under the given header.
    pub fn new_column(&mut self, header: String)
        ensures
            final(self).cols().len() == old(self).cols().len() + 1,
            forall|j: int|
                0 <= j < old(self).cols().len() ==> final(self).cols()[j] == old(self).cols()[j],
            final(self).cols().last().header_view() == header@,
            final(self).cols().last().cells() == Seq::<crate::data::CsvItem>::empty(),
    {
        self.columns.push(CsvColumn::from_header(header));
    }

    /// The largest row count over all columns collected so far.
    pub fn row_count(&self) -> (r: usize)
        ensures
            r as int == spec_max_rows(self.cols()),
    {
        let mut r: usize = 0;
        let mut i: usize = 0;
        while i < self.columns.len()
            invariant
                i <= self.columns@.len(),
                r as int == spec_max_rows(self.columns@.take(i as int)),
            decreases self.columns@.len() - i,
        {
            let n = self.columns[i].row_count();
            if n > r {
                r = n;
            }
            i = i + 1;
            proof {
                assert(self.columns@.take(i as int).drop_last() =~= self.columns@.take(i - 1));
            }
        }
        proof {
            assert(self.columns@.take(self.columns@.len() as int) =~= self.columns@);
        }
        r
    }

    /// The column at `column_index`, growing the builder with default (empty)
    /// columns first if the index is beyond the current column count.
    pub fn get_column_mut(&mut self, column_index: usize) -> (column: &mut CsvColumn)
        ensures
            final(self).cols().len() == if old(self).cols().len() > column_index {
                old(self).cols().len() as int
            } else {
                column_index + 1
            },
            forall|j: int|
                0 <= j < old(self).cols().len() && j != column_index ==> final(self).cols()[j]
                    == old(self).cols()[j],
            forall|j: int|
                old(self).cols().len() <= j < final(self).cols().len() && j != column_index
                    ==> is_empty_column(#[trigger] final(self).cols()[j]),
            column_index < old(self).cols().len() ==> *column == old(self).cols()[
                column_index as int
            ],
            column_index >= old(self).cols().len() ==> is_empty_column(*column),
            final(self).cols()[column_index as int] == *final(column),
    {
        while column_index >= self.columns.len()
            invariant
                old(self).cols().len() <= self.columns@.len(),
                self.columns@.len() <= column_index + 1 || self.columns@.len() == old(
                    self,
                ).cols().len(),
                forall|j: int|
                    0 <= j < old(self).cols().len() ==> self.columns@[j] == old(self).cols()[j],
                forall|j: int|
                    old(self).cols().len() <= j < self.columns@.len() ==> is_empty_column(
                        #[trigger] self.columns@[j],
                    ),
            decreases column_index + 1 - self.columns@.len(),
        {
            self.columns.push(CsvColumn::default());
        }
        &mut self.columns[column_index]
    }

    /// Store a cell at a row of a column, creating the column (and any
    /// before it) if the index is beyond the current column count, and
    /// growing the column with default cells until the row is reachable.
    pub fn set_value(&mut self, column_index: usize, row_index: usize, value: crate::data::CsvItem)
        ensures
            final(self).cols().len() == if old(self).cols().len() > column_index {
                old(self).cols().len() as int
            } else {
                column_index + 1
            },
            forall|j: int|
                0 <= j < old(self).cols().len() && j != column_index ==> final(self).cols()[j]
                    == old(self).cols()[j],
            forall|j: int|
                old(self).cols().len() <= j < final(self).cols().len() && j != column_index
                    ==> is_empty_column(#[trigger] final(self).cols()[j]),
            ({
                let prior_header = if column_index < old(self).cols().len() {
                    old(self).cols()[column_index as int].header_view()
                } else {
                    Seq::<char>::empty()
                };
                let prior_cells = if column_index < old(self).cols().len() {
                    old(self).cols()[column_index as int].cell_views()
                } else {
                    Seq::<Seq<Seq<Seq<char>>>>::empty()
                };
                let fill = if row_index > prior_cells.len() {
                    (row_index - prior_cells.len()) as nat
                } else {
                    0
                };
                &&& final(self).cols()[column_index as int].header_view() == prior_header
                &&& final(self).cols()[column_index as int].cell_views() == prior_cells
                    + Seq::new(fill, |i: int| crate::data::empty_cell_view()) + seq![value@]
            }),
    {
        let column = self.get_column_mut(column_index);
        proof {
            (*column).lemma_cell_views_len();
        }
        column.set_value(row_index, value);
    }
}

/// Why a file could not be loaded into a table.
#[derive(Debug, Clone, PartialEq, Eq, PartialOrd, Ord)]
pub enum CsvError {
    CannotOpenFile { path: String, reason: String },
}

impl Csv {
    /// Seal a builder into the read-only table, caching the maximum row
    /// count over its columns.
    pub fn from_builder(builder: CsvBuilder) -> (r: Csv)
        ensures
            r.cols() == builder.cols(),
            r.wf(),
    {
        let max_rows = builder.row_count();
        Csv::assemble(max_rows, builder.columns)
    }
}

} // verus!
