//! The render-loop state of the full-screen file display: scroll fields, the
//! per-frame range computations, the navigation-key transitions, and the text
//! each painted cell receives. Reading the terminal and painting are the
//! caller's business; everything here is pure state and text.

use crate::csv::{spec_max_rows, CSVColumn, CSVFile};
use crate::data::CellDimentions;
use crate::display::{spec_first_from_last, spec_last_from_first, spec_min, spec_visible_columns, spec_visible_rows};
use crate::unicode::{
    cut_or_pad_line, formatted_cell, formatted_line, grapheme_clusters, graphemes_of, join_slots,
    joined, MaleableUnicode,
};
use vstd::prelude::*;

verus! {

/// One input event: a named navigation key, or a literal character (the
/// quit key is the character `q`).
#[derive(Debug, Clone, Copy, PartialEq, Eq)]
pub enum Key {
    Up,
    Down,
    Left,
    Right,
    Character(char),
}

/// The lines of one formatted cell, each line's slots run together.
pub open spec fn joined_cell_lines(
    cell: Seq<Seq<Seq<char>>>,
    width: int,
    height: int,
    pad: Seq<char>,
) -> Seq<Seq<char>> {
    formatted_cell(cell, width, height, pad).map_values(|line: Seq<Seq<char>>| joined(line))
}

/// Each line of slots run together into one string.
fn join_lines(slots: &Vec<Vec<String>>) -> (r: Vec<String>)
    ensures
        r.deep_view() == slots.deep_view().map_values(|line: Seq<Seq<char>>| joined(line)),
{
    let mut r: Vec<String> = Vec::new();
    let mut i: usize = 0;
    while i < slots.len()
        invariant
            i <= slots@.len(),
            r.deep_view() =~~= slots.deep_view().take(i as int).map_values(
                |line: Seq<Seq<char>>| joined(line),
            ),
        decreases slots@.len() - i,
    {
        let ghost prev = r.deep_view();
        let line = join_slots(&slots[i]);
        r.push(line);
        i = i + 1;
        proof {
            assert(slots.deep_view()[i - 1] == slots@[i - 1].deep_view());
            assert(r.deep_view() =~~= prev.push(joined(slots.deep_view()[i - 1])));
            assert(r.deep_view() =~~= slots.deep_view().take(i as int).map_values(
                |line: Seq<Seq<char>>| joined(line),
            ));
        }
    }
    proof {
        assert(slots.deep_view().take(slots@.len() as int) =~~= slots.deep_view());
    }
    r
}

/// The display of one loaded file: the scroll state, the derived visible
/// ranges, the cell shape, and the data itself.
pub struct CSVDisplay {
    pub first_column: usize,
    pub last_column: usize,
    pub first_row: usize,
    pub last_row: usize,
    pub visible_columns: usize,
    pub visible_rows: usize,
    pub column_width: usize,
    pub row_height: usize,
    pub screen_height: usize,
    pub screen_width: usize,
    pub cell_dimensions: CellDimentions,
    pub csv: CSVFile,
}

impl CSVDisplay {
    /// Positive cell dimensions, as every frame computation needs.
    pub open spec fn wf(&self) -> bool {
        self.column_width >= 1 && self.row_height >= 1
    }

    /// Take ownership of a loaded file and start at the top-left corner with
    /// the default cell shape; the screen is measured afterwards.
    pub fn from(csv: CSVFile) -> (r: CSVDisplay)
        ensures
            r.wf(),
            r.csv == csv,
            r.first_row == 0,
            r.first_column == 0,
            r.last_row == 0,
            r.last_column == 0,
            r.visible_rows == 0,
            r.visible_columns == 0,
            r.column_width == 10,
            r.row_height == 2,
            r.screen_height == 0,
            r.screen_width == 0,
    {
        CSVDisplay {
            csv,
            first_row: 0,
            first_column: 0,
            last_row: 0,
            last_column: 0,
            visible_columns: 0,
            visible_rows: 0,
            column_width: 10,
            row_height: 2,
            screen_height: 0,
            screen_width: 0,
            cell_dimensions: CellDimentions { height: 0, width: 0 },
        }
    }

    /// Record a newly measured screen size; reports whether it changed.
    pub fn update_screen_size(&mut self, screen_height: usize, screen_width: usize) -> (r: bool)
        ensures
            r == !(old(self).screen_height == screen_height && old(self).screen_width
                == screen_width),
            final(self).screen_height == screen_height,
            final(self).screen_width == screen_width,
            final(self).first_row == old(self).first_row,
            final(self).first_column == old(self).first_column,
            final(self).last_row == old(self).last_row,
            final(self).last_column == old(self).last_column,
            final(self).visible_rows == old(self).visible_rows,
            final(self).visible_columns == old(self).visible_columns,
            final(self).column_width == old(self).column_width,
            final(self).row_height == old(self).row_height,
            final(self).cell_dimensions == old(self).cell_dimensions,
            final(self).csv == old(self).csv,
    {
        if self.screen_height == screen_height && self.screen_width == screen_width {
            false
        } else {
            self.screen_height = screen_height;
            self.screen_width = screen_width;
            true
        }
    }

    /// Derive the visible row range for this frame: how many cell-rows fit
    /// under the header and status lines, and where the range ends, clamped
    /// at the data's end.
    pub fn figure_out_which_rows_to_display(&mut self)
        requires
            old(self).wf(),
        ensures
            final(self).visible_rows as int == spec_visible_rows(
                old(self).screen_height as int,
                old(self).row_height as int,
            ),
            final(self).last_row as int == spec_last_from_first(
                old(self).first_row as int,
                final(self).visible_rows as int,
                spec_max_rows(old(self).csv.cols()),
            ),
            final(self).first_row == old(self).first_row,
            final(self).first_column == old(self).first_column,
            final(self).last_column == old(self).last_column,
            final(self).visible_columns == old(self).visible_columns,
            final(self).column_width == old(self).column_width,
            final(self).row_height == old(self).row_height,
            final(self).screen_height == old(self).screen_height,
            final(self).screen_width == old(self).screen_width,
            final(self).cell_dimensions == old(self).cell_dimensions,
            final(self).csv == old(self).csv,
    {
        self.visible_rows = (self.screen_height / self.row_height).saturating_sub(2);
        let reach = self.first_row.saturating_add(self.visible_rows);
        let row_count = self.csv.row_count();
        self.last_row = if reach < row_count {
            reach
        } else {
            row_count
        };
    }

    /// Derive the visible column range for this frame: how many columns fit
    /// the screen width. The end of the range is not clamped at the data;
    /// the painter skips columns the data does not have.
    pub fn figure_out_which_columns_to_display(&mut self)
        requires
            old(self).wf(),
        ensures
            final(self).visible_columns as int == spec_visible_columns(
                old(self).screen_width as int,
                old(self).column_width as int,
            ),
            final(self).last_column as int == spec_min(
                old(self).first_column as int + final(self).visible_columns as int,
                usize::MAX as int,
            ),
            final(self).first_row == old(self).first_row,
            final(self).first_column == old(self).first_column,
            final(self).last_row == old(self).last_row,
            final(self).visible_rows == old(self).visible_rows,
            final(self).column_width == old(self).column_width,
            final(self).row_height == old(self).row_height,
            final(self).screen_height == old(self).screen_height,
            final(self).screen_width == old(self).screen_width,
            final(self).cell_dimensions == old(self).cell_dimensions,
            final(self).csv == old(self).csv,
    {
        self.visible_columns = self.screen_width / self.column_width;
        self.last_column = self.first_column.saturating_add(self.visible_columns);
    }

    /// Derive the cell shape for this frame: one slot narrower than the
    /// column, to leave a separator, and as tall as a row.
    pub fn figure_out_cell_dimensions(&mut self)
        requires
            old(self).wf(),
        ensures
            final(self).cell_dimensions.width == old(self).column_width - 1,
            final(self).cell_dimensions.height == old(self).row_height,
            final(self).first_row == old(self).first_row,
            final(self).first_column == old(self).first_column,
            final(self).last_row == old(self).last_row,
            final(self).last_column == old(self).last_column,
            final(self).visible_rows == old(self).visible_rows,
            final(self).visible_columns == old(self).visible_columns,
            final(self).column_width == old(self).column_width,
            final(self).row_height == old(self).row_height,
            final(self).screen_height == old(self).screen_height,
            final(self).screen_width == old(self).screen_width,
            final(self).csv == old(self).csv,
    {
        self.cell_dimensions = CellDimentions {
            width: self.column_width - 1,
            height: self.row_height,
        };
    }

    /// Apply one input event: arrows move the anchor one step, clamped at
    /// the data's edges and saturating at zero; the character `q` asks to
    /// quit. Returns whether the loop should continue.
    pub fn handle_key(&mut self, key: Key) -> (r: bool)
        ensures
            r == !(key matches Key::Character('q')),
            final(self).first_row as int == match key {
                Key::Down => if old(self).last_row < spec_max_rows(old(self).csv.cols()) {
                    spec_min(old(self).first_row as int + 1, usize::MAX as int)
                } else {
                    old(self).first_row as int
                },
                Key::Up => if old(self).first_row > 0 {
                    old(self).first_row - 1
                } else {
                    0
                },
                _ => old(self).first_row as int,
            },
            final(self).first_column as int == match key {
                Key::Right => if old(self).last_column < old(self).csv.cols().len() {
                    spec_min(old(self).first_column as int + 1, usize::MAX as int)
                } else {
                    old(self).first_column as int
                },
                Key::Left => if old(self).first_column > 0 {
                    old(self).first_column - 1
                } else {
                    0
                },
                _ => old(self).first_column as int,
            },
            final(self).last_row == old(self).last_row,
            final(self).last_column == old(self).last_column,
            final(self).visible_rows == old(self).visible_rows,
            final(self).visible_columns == old(self).visible_columns,
            final(self).column_width == old(self).column_width,
            final(self).row_height == old(self).row_height,
            final(self).screen_height == old(self).screen_height,
            final(self).screen_width == old(self).screen_width,
            final(self).cell_dimensions == old(self).cell_dimensions,
            final(self).csv == old(self).csv,
    {
        match key {
            Key::Down => {
                if self.last_row < self.csv.row_count() {
                    self.first_row = self.first_row.saturating_add(1);
                }
                true
            },
            Key::Up => {
                if self.first_row > 0 {
                    self.first_row = self.first_row - 1;
                }
                true
            },
            Key::Left => {
                if self.first_column > 0 {
                    self.first_column = self.first_column - 1;
                }
                true
            },
            Key::Right => {
                if self.last_column < self.csv.column_count() {
                    self.first_column = self.first_column.saturating_add(1);
                }
                true
            },
            Key::Character(c) => c != 'q',
        }
    }

    /// Where a visible column's cells start, in character cells from the
    /// screen's left edge.
    pub fn column_origin(&self, column_index: usize) -> (r: usize)
        requires
            self.first_column <= column_index,
            (column_index - self.first_column) * self.column_width <= usize::MAX,
        ensures
            r as int == (column_index - self.first_column) * self.column_width,
    {
        (column_index - self.first_column) * self.column_width
    }

    /// The text painted for a column's header: the header cut or padded to
    /// the cell width, as one string.
    pub fn header_line(&self, column: &CSVColumn, pad_with: &str) -> (r: String)
        ensures
            r@ == joined(
                formatted_line(
                    graphemes_of(column.header_view()),
                    self.cell_dimensions.width as int,
                    pad_with@,
                ),
            ),
    {
        let gs = grapheme_clusters(column.header());
        let slots = cut_or_pad_line(&gs, self.cell_dimensions.width, pad_with);
        join_slots(&slots)
    }

    /// The text painted for a column's visible cells: for each row of the
    /// visible range, the cell's lines cut or padded to the cell shape and
    /// each run together into one string; a row the column does not reach
    /// paints nothing.
    pub fn column_cell_lines(&self, column: &CSVColumn, pad_with: &str) -> (r: Vec<Vec<String>>)
        requires
            self.first_row <= self.last_row,
        ensures
            r@.len() == self.last_row - self.first_row,
            forall|k: int|
                0 <= k < r@.len() ==> {
                    if self.first_row + k < column.cells().len() {
                        (#[trigger] r@[k]).deep_view() == joined_cell_lines(
                            column.cells()[self.first_row + k]@,
                            self.cell_dimensions.width as int,
                            self.cell_dimensions.height as int,
                            pad_with@,
                        )
                    } else {
                        r@[k]@.len() == 0
                    }
                },
    {
        let mut r: Vec<Vec<String>> = Vec::new();
        let mut row = self.first_row;
        while row < self.last_row
            invariant
                self.first_row <= row <= self.last_row,
                r@.len() == row - self.first_row,
                forall|k: int|
                    0 <= k < r@.len() ==> {
                        if self.first_row + k < column.cells().len() {
                            (#[trigger] r@[k]).deep_view() == joined_cell_lines(
                                column.cells()[self.first_row + k]@,
                                self.cell_dimensions.width as int,
                                self.cell_dimensions.height as int,
                                pad_with@,
                            )
                        } else {
                            r@[k]@.len() == 0
                        }
                    },
            decreases self.last_row - row,
        {
            match column.value(row) {
                Some(cell) => {
                    let slots = cell.cut_or_pad_to(self.cell_dimensions, pad_with);
                    let lines = join_lines(&slots);
                    proof {
                        assert(lines.deep_view() =~~= joined_cell_lines(
                            column.cells()[row as int]@,
                            self.cell_dimensions.width as int,
                            self.cell_dimensions.height as int,
                            pad_with@,
                        ));
                    }
                    r.push(lines);
                },
                None => {
                    r.push(Vec::new());
                },
            }
            row = row + 1;
        }
        r
    }
}

} // verus!
