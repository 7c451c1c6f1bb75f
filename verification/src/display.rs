//! The viewport engine: the scroll state of the grid and the arithmetic that
//! maps terminal size, cell size and data extents to the visible row and
//! column ranges. Navigation clamps at the data's ends and saturates at zero,
//! so every operation is defined for every input.

use crate::cursed::CursedError;
use vstd::prelude::*;

verus! {

/// The smaller of two values.
pub open spec fn spec_min(a: int, b: int) -> int {
    if a < b {
        a
    } else {
        b
    }
}

/// How many whole data rows fit a screen: full cell-rows, less one line for
/// the headers and one for the status bar.
pub open spec fn spec_visible_rows(screen_height: int, row_height: int) -> int {
    let q = screen_height / row_height;
    if q >= 2 {
        q - 2
    } else {
        0
    }
}

/// How many whole data columns fit a screen.
pub open spec fn spec_visible_columns(screen_width: int, column_width: int) -> int {
    screen_width / column_width
}

/// One past the last visible index when `first` is anchored: `first` plus the
/// visible extent, clamped at the data's end.
pub open spec fn spec_last_from_first(first: int, visible: int, count: int) -> int {
    spec_min(first + visible, count)
}

/// The first visible index when `last` is anchored: `visible` back from
/// `last`, saturating at zero.
pub open spec fn spec_first_from_last(last: int, visible: int) -> int {
    if last > visible {
        last - visible
    } else {
        0
    }
}

/// The row jump target `first + offset`, saturating at zero.
pub open spec fn spec_shift_target(first: int, offset: int) -> int {
    if first + offset >= 0 {
        first + offset
    } else {
        0
    }
}

/// The scroll state: the authoritative anchors `first_row`/`first_column`,
/// the ranges derived from them, and the dimensions they were derived from.
#[derive(Clone, Debug)]
pub struct Viewport {
    pub first_column: usize,
    pub last_column: usize,
    pub first_row: usize,
    pub last_row: usize,
    pub visible_columns: usize,
    pub visible_rows: usize,
    pub column_width: usize,
    pub row_height: usize,
    pub screen_height: usize,
    pub screen_width: usize,
    pub row_count: usize,
    pub column_count: usize,
}

impl Viewport {
    /// The viewport invariant: positive cell dimensions, and both visible
    /// ranges ordered, inside the data, and no wider than the visible
    /// extent.
    pub open spec fn wf(&self) -> bool {
        &&& self.column_width >= 1
        &&& self.row_height >= 1
        &&& self.first_row <= self.last_row <= self.row_count
        &&& self.last_row - self.first_row <= self.visible_rows
        &&& self.first_column <= self.last_column <= self.column_count
        &&& self.last_column - self.first_column <= self.visible_columns
    }

    /// How many data rows fit the screen, leaving one line for headers and
    /// one for the status bar.
    pub fn calculate_visible_rows(screen_height: usize, row_height: usize) -> (r: usize)
        requires
            row_height >= 1,
        ensures
            r as int == spec_visible_rows(screen_height as int, row_height as int),
    {
        (screen_height / row_height).saturating_sub(2)
    }

    /// One past the last visible row when the first is anchored.
    pub fn calculate_last_visible_row_from_first(
        first_visible_row: usize,
        visible_rows: usize,
        row_count: usize,
    ) -> (r: usize)
        ensures
            r as int == spec_last_from_first(
                first_visible_row as int,
                visible_rows as int,
                row_count as int,
            ),
    {
        let reach = first_visible_row.saturating_add(visible_rows);
        if reach < row_count {
            reach
        } else {
            row_count
        }
    }

    /// The first visible row when the last is anchored.
    pub fn calculate_first_visible_row_from_last(last_visible_row: usize, visible_rows: usize) -> (r:
        usize)
        ensures
            r as int == spec_first_from_last(last_visible_row as int, visible_rows as int),
    {
        if last_visible_row > visible_rows {
            last_visible_row - visible_rows
        } else {
            0
        }
    }

    /// How many data columns fit the screen.
    pub fn calculate_visible_columns(screen_width: usize, column_width: usize) -> (r: usize)
        requires
            column_width >= 1,
        ensures
            r as int == spec_visible_columns(screen_width as int, column_width as int),
    {
        screen_width / column_width
    }

    /// One past the last visible column when the first is anchored.
    pub fn calculate_last_visible_column_from_first(
        first_visible_column: usize,
        visible_columns: usize,
        column_count: usize,
    ) -> (r: usize)
        ensures
            r as int == spec_last_from_first(
                first_visible_column as int,
                visible_columns as int,
                column_count as int,
            ),
    {
        let reach = first_visible_column.saturating_add(visible_columns);
        if reach < column_count {
            reach
        } else {
            column_count
        }
    }

    /// The first visible column when the last is anchored.
    pub fn calculate_first_visible_column_from_last(
        last_visible_column: usize,
        visible_columns: usize,
    ) -> (r: usize)
        ensures
            r as int == spec_first_from_last(last_visible_column as int, visible_columns as int),
    {
        if last_visible_column > visible_columns {
            last_visible_column - visible_columns
        } else {
            0
        }
    }

    /// The initial viewport: anchored at the top-left corner, with both
    /// ranges derived from the given terminal size, cell size and data
    /// extents.
    pub fn new(
        screen_height: usize,
        screen_width: usize,
        column_width: usize,
        row_height: usize,
        row_count: usize,
        column_count: usize,
    ) -> (r: Viewport)
        requires
            column_width >= 1,
            row_height >= 1,
        ensures
            r.wf(),
            r.first_row == 0,
            r.first_column == 0,
            r.screen_height == screen_height,
            r.screen_width == screen_width,
            r.column_width == column_width,
            r.row_height == row_height,
            r.row_count == row_count,
            r.column_count == column_count,
            r.visible_rows as int == spec_visible_rows(screen_height as int, row_height as int),
            r.visible_columns as int == spec_visible_columns(
                screen_width as int,
                column_width as int,
            ),
            r.last_row as int == spec_min(r.visible_rows as int, row_count as int),
            r.last_column as int == spec_min(r.visible_columns as int, column_count as int),
    {
        let first_visible_column: usize = 0;
        let visible_columns = Self::calculate_visible_columns(screen_width, column_width);
        let last_visible_column = Self::calculate_last_visible_column_from_first(
            first_visible_column,
            visible_columns,
            column_count,
        );
        let first_visible_row: usize = 0;
        let visible_rows = Self::calculate_visible_rows(screen_height, row_height);
        let last_visible_row = Self::calculate_last_visible_row_from_first(
            first_visible_row,
            visible_rows,
            row_count,
        );
        Viewport {
            screen_height,
            screen_width,
            column_width,
            column_count,
            first_column: first_visible_column,
            last_column: last_visible_column,
            visible_columns,
            row_height,
            row_count,
            first_row: first_visible_row,
            last_row: last_visible_row,
            visible_rows,
        }
    }

    /// Move the viewport to show `target_row` first. Both ends clamp at the
    /// data: a jump near the end still fills the viewport, so the first row
    /// may land before `target_row`.
    pub fn jump_to_row(&mut self, target_row: usize)
        requires
            old(self).wf(),
        ensures
            final(self).wf(),
            final(self).visible_rows as int == spec_visible_rows(
                old(self).screen_height as int,
                old(self).row_height as int,
            ),
            final(self).last_row as int == spec_last_from_first(
                target_row as int,
                final(self).visible_rows as int,
                old(self).row_count as int,
            ),
            final(self).first_row as int == spec_first_from_last(
                final(self).last_row as int,
                final(self).visible_rows as int,
            ),
            final(self).first_column == old(self).first_column,
            final(self).last_column == old(self).last_column,
            final(self).visible_columns == old(self).visible_columns,
            final(self).column_width == old(self).column_width,
            final(self).row_height == old(self).row_height,
            final(self).screen_height == old(self).screen_height,
            final(self).screen_width == old(self).screen_width,
            final(self).row_count == old(self).row_count,
            final(self).column_count == old(self).column_count,
    {
        self.visible_rows = Self::calculate_visible_rows(self.screen_height, self.row_height);
        self.last_row = Self::calculate_last_visible_row_from_first(
            target_row,
            self.visible_rows,
            self.row_count,
        );
        self.first_row = Self::calculate_first_visible_row_from_last(
            self.last_row,
            self.visible_rows,
        );
    }

    /// Move the viewport to show `target_column` first, clamping at the
    /// data's ends as `jump_to_row` does.
    pub fn jump_to_column(&mut self, target_column: usize)
        requires
            old(self).wf(),
        ensures
            final(self).wf(),
            final(self).visible_columns as int == spec_visible_columns(
                old(self).screen_width as int,
                old(self).column_width as int,
            ),
            final(self).last_column as int == spec_last_from_first(
                target_column as int,
                final(self).visible_columns as int,
                old(self).column_count as int,
            ),
            final(self).first_column as int == spec_first_from_last(
                final(self).last_column as int,
                final(self).visible_columns as int,
            ),
            final(self).first_row == old(self).first_row,
            final(self).last_row == old(self).last_row,
            final(self).visible_rows == old(self).visible_rows,
            final(self).column_width == old(self).column_width,
            final(self).row_height == old(self).row_height,
            final(self).screen_height == old(self).screen_height,
            final(self).screen_width == old(self).screen_width,
            final(self).row_count == old(self).row_count,
            final(self).column_count == old(self).column_count,
    {
        self.visible_columns = Self::calculate_visible_columns(
            self.screen_width,
            self.column_width,
        );
        self.last_column = Self::calculate_last_visible_column_from_first(
            target_column,
            self.visible_columns,
            self.column_count,
        );
        self.first_column = Self::calculate_first_visible_column_from_last(
            self.last_column,
            self.visible_columns,
        );
    }

    /// Move the viewport from the current first row by `row_offset` rows,
    /// saturating at zero on the way down: no underflow, no panic.
    pub fn shift_by_rows(&mut self, row_offset: isize)
        requires
            old(self).wf(),
        ensures
            final(self).wf(),
            final(self).visible_rows as int == spec_visible_rows(
                old(self).screen_height as int,
                old(self).row_height as int,
            ),
            final(self).last_row as int == spec_last_from_first(
                spec_shift_target(old(self).first_row as int, row_offset as int),
                final(self).visible_rows as int,
                old(self).row_count as int,
            ),
            final(self).first_row as int == spec_first_from_last(
                final(self).last_row as int,
                final(self).visible_rows as int,
            ),
            final(self).first_column == old(self).first_column,
            final(self).last_column == old(self).last_column,
            final(self).visible_columns == old(self).visible_columns,
            final(self).column_width == old(self).column_width,
            final(self).row_height == old(self).row_height,
            final(self).screen_height == old(self).screen_height,
            final(self).screen_width == old(self).screen_width,
            final(self).row_count == old(self).row_count,
            final(self).column_count == old(self).column_count,
    {
        let target_row = if row_offset >= 0 {
            self.first_row.saturating_add(row_offset as usize)
        } else if row_offset == isize::MIN {
            self.first_row.saturating_sub((isize::MAX as usize) + 1)
        } else {
            self.first_row.saturating_sub((-row_offset) as usize)
        };
        let ghost spec_target = spec_shift_target(self.first_row as int, row_offset as int);
        self.jump_to_row(target_row);
        proof {
            assert(spec_last_from_first(
                target_row as int,
                self.visible_rows as int,
                self.row_count as int,
            ) == spec_last_from_first(
                spec_target,
                self.visible_rows as int,
                self.row_count as int,
            ));
        }
    }

    /// Move the viewport from the current first column by `column_offset`
    /// columns, saturating at zero on the way left: no underflow, no panic.
    pub fn shift_by_columns(&mut self, column_offset: isize)
        requires
            old(self).wf(),
        ensures
            final(self).wf(),
            final(self).visible_columns as int == spec_visible_columns(
                old(self).screen_width as int,
                old(self).column_width as int,
            ),
            final(self).last_column as int == spec_last_from_first(
                spec_shift_target(old(self).first_column as int, column_offset as int),
                final(self).visible_columns as int,
                old(self).column_count as int,
            ),
            final(self).first_column as int == spec_first_from_last(
                final(self).last_column as int,
                final(self).visible_columns as int,
            ),
            final(self).first_row == old(self).first_row,
            final(self).last_row == old(self).last_row,
            final(self).visible_rows == old(self).visible_rows,
            final(self).column_width == old(self).column_width,
            final(self).row_height == old(self).row_height,
            final(self).screen_height == old(self).screen_height,
            final(self).screen_width == old(self).screen_width,
            final(self).row_count == old(self).row_count,
            final(self).column_count == old(self).column_count,
    {
        let target_column = if column_offset >= 0 {
            self.first_column.saturating_add(column_offset as usize)
        } else if column_offset == isize::MIN {
            self.first_column.saturating_sub((isize::MAX as usize) + 1)
        } else {
            self.first_column.saturating_sub((-column_offset) as usize)
        };
        let ghost spec_target = spec_shift_target(self.first_column as int, column_offset as int);
        self.jump_to_column(target_column);
        proof {
            assert(spec_last_from_first(
                target_column as int,
                self.visible_columns as int,
                self.column_count as int,
            ) == spec_last_from_first(
                spec_target,
                self.visible_columns as int,
                self.column_count as int,
            ));
        }
    }

    /// Recompute both visible ranges for a new terminal size, keeping the
    /// current top-left anchor: content does not jump on resize.
    pub fn resize(&mut self, screen_height: usize, screen_width: usize)
        requires
            old(self).wf(),
        ensures
            final(self).wf(),
            final(self).screen_height == screen_height,
            final(self).screen_width == screen_width,
            final(self).visible_rows as int == spec_visible_rows(
                screen_height as int,
                old(self).row_height as int,
            ),
            final(self).visible_columns as int == spec_visible_columns(
                screen_width as int,
                old(self).column_width as int,
            ),
            final(self).last_row as int == spec_last_from_first(
                old(self).first_row as int,
                final(self).visible_rows as int,
                old(self).row_count as int,
            ),
            final(self).first_row as int == spec_first_from_last(
                final(self).last_row as int,
                final(self).visible_rows as int,
            ),
            final(self).last_column as int == spec_last_from_first(
                old(self).first_column as int,
                final(self).visible_columns as int,
                old(self).column_count as int,
            ),
            final(self).first_column as int == spec_first_from_last(
                final(self).last_column as int,
                final(self).visible_columns as int,
            ),
            final(self).column_width == old(self).column_width,
            final(self).row_height == old(self).row_height,
            final(self).row_count == old(self).row_count,
            final(self).column_count == old(self).column_count,
    {
        self.screen_height = screen_height;
        self.screen_width = screen_width;
        let first_row = self.first_row;
        let first_column = self.first_column;
        self.jump_to_row(first_row);
        self.jump_to_column(first_column);
    }
}

/// The display state of the newer surface: the viewport the render loop
/// navigates. The terminal window itself lives with the caller.
#[derive(Debug)]
pub struct CsvDisplay {
    pub viewport: Viewport,
}

impl CsvDisplay {
    /// A display over a table of the given extents on a terminal of the
    /// given size.
    pub fn new(
        screen_height: usize,
        screen_width: usize,
        column_width: usize,
        row_height: usize,
        row_count: usize,
        column_count: usize,
    ) -> (r: CsvDisplay)
        requires
            column_width >= 1,
            row_height >= 1,
        ensures
            r.viewport.wf(),
            r.viewport.first_row == 0,
            r.viewport.first_column == 0,
            r.viewport.row_count == row_count,
            r.viewport.column_count == column_count,
    {
        CsvDisplay {
            viewport: Viewport::new(
                screen_height,
                screen_width,
                column_width,
                row_height,
                row_count,
                column_count,
            ),
        }
    }
}

/// Why the display could not be brought up.
#[derive(Debug, Clone, PartialEq, Eq, PartialOrd, Ord)]
pub enum DisplayError {
    CannotCreateWindow(CursedError),
}

} // verus!
