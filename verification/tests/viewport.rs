//! The viewport engine and the full-screen display state: visible ranges, jumps,
//! shifts, clamping, resizing, and key handling.

use hamstercsv::csv::{CSVFile, CSVItem};
use hamstercsv::display::{CsvDisplay, Viewport};
use hamstercsv::screen::{CSVDisplay, Key};

fn viewport_invariant_holds(v: &Viewport) -> bool {
    v.first_row <= v.last_row
        && v.last_row <= v.row_count
        && v.last_row - v.first_row <= v.visible_rows
        && v.first_column <= v.last_column
        && v.last_column <= v.column_count
        && v.last_column - v.first_column <= v.visible_columns
}

#[test]
fn initial_viewport_is_anchored_top_left() {
    // Terminal 80x24, cells 10 wide and 2 tall: 10 data rows fit under the
    // header and status lines, 8 columns fit across.
    let v = Viewport::new(24, 80, 10, 2, 100, 3);
    assert_eq!(v.first_row, 0);
    assert_eq!(v.visible_rows, 10);
    assert_eq!(v.last_row, 10);
    assert_eq!(v.first_column, 0);
    assert_eq!(v.visible_columns, 8);
    // The column range clamps at the data: only 3 columns exist.
    assert_eq!(v.last_column, 3);
    assert!(viewport_invariant_holds(&v));
}

#[test]
fn jump_near_the_end_fills_the_viewport() {
    // 100 rows, 10 visible: a jump to row 95 clamps to 90..100.
    let mut v = Viewport::new(24, 80, 10, 2, 100, 3);
    v.jump_to_row(95);
    assert_eq!(v.last_row, 100);
    assert_eq!(v.first_row, 90);
    assert!(viewport_invariant_holds(&v));
}

#[test]
fn jump_inside_the_data_lands_exactly() {
    let mut v = Viewport::new(24, 80, 10, 2, 100, 3);
    v.jump_to_row(42);
    assert_eq!(v.first_row, 42);
    assert_eq!(v.last_row, 52);
    assert!(viewport_invariant_holds(&v));
}

#[test]
fn shift_by_columns_saturates_at_zero() {
    // With 20 columns and 8 visible, jumping to column 2 anchors there; a
    // shift of -5 saturates at the left edge instead of underflowing.
    let mut v = Viewport::new(24, 80, 10, 2, 100, 20);
    v.jump_to_column(2);
    assert_eq!(v.first_column, 2);
    v.shift_by_columns(-5);
    assert_eq!(v.first_column, 0);
    assert_eq!(v.last_column, 8);
    assert!(viewport_invariant_holds(&v));
}

#[test]
fn shift_by_rows_saturates_at_zero_too() {
    let mut v = Viewport::new(24, 80, 10, 2, 100, 3);
    v.shift_by_rows(-7);
    assert_eq!(v.first_row, 0);
    assert_eq!(v.last_row, 10);
    assert!(viewport_invariant_holds(&v));
}

#[test]
fn invariant_survives_arbitrary_navigation() {
    let mut v = Viewport::new(24, 80, 10, 2, 100, 20);
    let moves: [isize; 8] = [3, -10, 250, -1, 0, 7, -300, 99];
    for &m in moves.iter() {
        v.shift_by_rows(m);
        assert!(viewport_invariant_holds(&v));
        v.shift_by_columns(m);
        assert!(viewport_invariant_holds(&v));
    }
    v.jump_to_row(1_000_000);
    assert_eq!(v.last_row, 100);
    assert!(viewport_invariant_holds(&v));
}

#[test]
fn resize_preserves_the_top_left_anchor() {
    let mut v = Viewport::new(24, 80, 10, 2, 100, 20);
    v.jump_to_row(30);
    v.jump_to_column(4);
    v.resize(12, 40);
    // 12/2 - 2 = 4 rows, 40/10 = 4 columns now fit; the anchor stays.
    assert_eq!(v.first_row, 30);
    assert_eq!(v.last_row, 34);
    assert_eq!(v.first_column, 4);
    assert_eq!(v.last_column, 8);
    assert!(viewport_invariant_holds(&v));
}

#[test]
fn tiny_terminal_shows_no_rows_but_never_panics() {
    let mut v = Viewport::new(3, 5, 10, 2, 100, 3);
    // 3/2 = 1 whole cell-row: the header and status lines leave nothing.
    assert_eq!(v.visible_rows, 0);
    assert_eq!(v.last_row, 0);
    v.jump_to_row(50);
    assert_eq!(v.first_row, v.last_row);
    assert!(viewport_invariant_holds(&v));
}

#[test]
fn display_wraps_a_viewport() {
    let d = CsvDisplay::new(24, 80, 10, 2, 100, 3);
    assert_eq!(d.viewport.visible_rows, 10);
    assert_eq!(d.viewport.first_row, 0);
}

fn hundred_row_file() -> CSVFile {
    let mut file = CSVFile::new();
    file.new_column("alpha".to_string());
    file.new_column("beta".to_string());
    file.new_column("gamma".to_string());
    for column in 0..3usize {
        for row in 0..100usize {
            file.get_column_mut(column).set_value(row, CSVItem::from_text("x"));
        }
    }
    file
}

#[test]
fn initial_frame_on_an_eighty_by_twenty_four_terminal() {
    // 3 columns, 100 rows, terminal 80x24, cells 10 wide and 2 tall: the
    // first frame shows columns 0..8 and rows 0..10 (one line of headers,
    // one status line).
    let mut d = CSVDisplay::from(hundred_row_file());
    assert!(d.update_screen_size(24, 80));
    d.figure_out_which_rows_to_display();
    d.figure_out_which_columns_to_display();
    assert_eq!(d.first_row, 0);
    assert_eq!(d.last_row, 10);
    assert_eq!(d.first_column, 0);
    assert_eq!(d.last_column, 8);
    d.figure_out_cell_dimensions();
    assert_eq!(d.cell_dimensions.width, 9);
    assert_eq!(d.cell_dimensions.height, 2);
}

#[test]
fn screen_size_updates_report_changes_only() {
    let mut d = CSVDisplay::from(CSVFile::new());
    assert!(d.update_screen_size(24, 80));
    assert!(!d.update_screen_size(24, 80));
    assert!(d.update_screen_size(25, 80));
}

#[test]
fn arrow_keys_move_one_step_inside_the_data() {
    let mut d = CSVDisplay::from(hundred_row_file());
    d.update_screen_size(24, 80);
    d.figure_out_which_rows_to_display();
    d.figure_out_which_columns_to_display();
    assert!(d.handle_key(Key::Down));
    assert_eq!(d.first_row, 1);
    assert!(d.handle_key(Key::Up));
    assert_eq!(d.first_row, 0);
    assert!(d.handle_key(Key::Up));
    assert_eq!(d.first_row, 0);
    assert!(d.handle_key(Key::Left));
    assert_eq!(d.first_column, 0);
}

#[test]
fn down_stops_once_the_last_row_is_shown() {
    let mut d = CSVDisplay::from(hundred_row_file());
    d.update_screen_size(24, 80);
    d.figure_out_which_rows_to_display();
    // last_row == 10 < 100: moving down is allowed ...
    assert!(d.handle_key(Key::Down));
    assert_eq!(d.first_row, 1);
    // ... but once the range reaches the end, down does nothing.
    d.first_row = 90;
    d.figure_out_which_rows_to_display();
    assert_eq!(d.last_row, 100);
    assert!(d.handle_key(Key::Down));
    assert_eq!(d.first_row, 90);
}

#[test]
fn right_stops_at_the_last_column() {
    let mut d = CSVDisplay::from(hundred_row_file());
    d.update_screen_size(24, 80);
    d.figure_out_which_columns_to_display();
    // last_column is 8, beyond the 3 data columns: right does nothing.
    assert!(d.handle_key(Key::Right));
    assert_eq!(d.first_column, 0);
}

#[test]
fn the_quit_key_ends_the_loop_and_others_do_not() {
    let mut d = CSVDisplay::from(CSVFile::new());
    assert!(!d.handle_key(Key::Character('q')));
    assert!(d.handle_key(Key::Character('x')));
}

#[test]
fn header_text_is_cut_to_the_cell_width() {
    let mut d = CSVDisplay::from(hundred_row_file());
    d.update_screen_size(24, 80);
    d.figure_out_cell_dimensions();
    let file = hundred_row_file();
    let column = file.get_column(0).unwrap();
    assert_eq!(d.header_line(column, " "), "alpha    ");
    assert_eq!(d.header_line(column, " ").chars().count(), 9);
}

#[test]
fn cell_text_is_cut_to_the_cell_shape() {
    let mut file = CSVFile::new();
    file.new_column("h".to_string());
    file.get_column_mut(0).set_value(0, CSVItem::from_text("hello\nworld"));
    let mut d = CSVDisplay::from(file);
    d.update_screen_size(24, 80);
    d.figure_out_which_rows_to_display();
    d.figure_out_cell_dimensions();
    assert_eq!(d.last_row, 1);
    let lines = {
        let column = d.csv.get_column(0).unwrap();
        d.column_cell_lines(column, " ")
    };
    assert_eq!(lines.len(), 1);
    assert_eq!(lines[0], vec!["hello    ".to_string(), "world    ".to_string()]);
}

#[test]
fn rows_the_column_lacks_paint_nothing() {
    let mut file = CSVFile::new();
    file.new_column("a".to_string());
    file.new_column("b".to_string());
    file.get_column_mut(0).set_value(0, CSVItem::from_text("x"));
    file.get_column_mut(0).set_value(1, CSVItem::from_text("y"));
    file.get_column_mut(1).set_value(0, CSVItem::from_text("z"));
    let mut d = CSVDisplay::from(file);
    d.update_screen_size(24, 80);
    d.figure_out_which_rows_to_display();
    d.figure_out_cell_dimensions();
    assert_eq!(d.last_row, 2);
    let lines = {
        let column = d.csv.get_column(1).unwrap();
        d.column_cell_lines(column, " ")
    };
    assert_eq!(lines.len(), 2);
    assert_eq!(lines[0].len(), 2);
    assert!(lines[1].is_empty());
}

#[test]
fn column_origins_step_by_the_column_width() {
    let mut d = CSVDisplay::from(CSVFile::new());
    d.update_screen_size(24, 80);
    assert_eq!(d.column_origin(0), 0);
    assert_eq!(d.column_origin(3), 30);
    d.first_column = 2;
    assert_eq!(d.column_origin(3), 10);
}
