//! The column store: appending, backfilling, and the row-count aggregate, on
//! both store surfaces.

use hamstercsv::builder::CsvBuilder;
use hamstercsv::csv::{CSVFile, CSVItem};
use hamstercsv::data::{CellDimentions, Csv, CsvColumn, CsvItem};
use hamstercsv::unicode::MaleableUnicode;

#[test]
fn column_keeps_header_and_counts_rows() {
    let mut column = CsvColumn::from_header("name".to_string());
    assert_eq!(column.header(), "name");
    assert_eq!(column.row_count(), 0);
    column.set_value(0, CsvItem::from_text("a"));
    column.set_value(1, CsvItem::from_text("b"));
    assert_eq!(column.row_count(), 2);
    assert!(column.value(0).is_some());
    assert!(column.value(2).is_none());
}

#[test]
fn set_value_backfills_missing_rows_with_empty_cells() {
    let mut column = CsvColumn::from_header("h".to_string());
    column.set_value(2, CsvItem::from_text("x"));
    assert_eq!(column.row_count(), 3);
    let filler = column.value(0).unwrap();
    assert_eq!(filler.line_count(), 1);
    let shown = filler.cut_or_pad_to(CellDimentions { width: 1, height: 1 }, "_");
    assert_eq!(shown, vec![vec!["_".to_string()]]);
    let stored = column.value(2).unwrap();
    let shown = stored.cut_or_pad_to(CellDimentions { width: 1, height: 1 }, "_");
    assert_eq!(shown, vec![vec!["x".to_string()]]);
}

#[test]
fn values_returns_all_cells_in_order() {
    let mut column = CsvColumn::from_header("h".to_string());
    column.set_value(0, CsvItem::from_text("a"));
    column.set_value(1, CsvItem::from_text("b"));
    assert_eq!(column.values().len(), 2);
}

#[test]
fn builder_grows_columns_on_demand() {
    let mut builder = CsvBuilder::new();
    assert_eq!(builder.row_count(), 0);
    builder.new_column("first".to_string());
    builder.get_column_mut(2).set_value(0, CsvItem::from_text("late"));
    // Columns 0 and 1 exist now; column 2 holds one row.
    assert_eq!(builder.row_count(), 1);
    let table = Csv::from_builder(builder);
    assert_eq!(table.column_count(), 3);
    assert_eq!(table.row_count(), 1);
    assert_eq!(table.get_column(0).unwrap().header(), "first");
    assert_eq!(table.get_column(1).unwrap().header(), "");
    assert!(table.get_column(3).is_none());
}

#[test]
fn table_row_count_is_the_maximum_over_columns() {
    let mut builder = CsvBuilder::new();
    builder.new_column("a".to_string());
    builder.new_column("b".to_string());
    builder.get_column_mut(0).set_value(0, CsvItem::from_text("x"));
    builder.get_column_mut(1).set_value(0, CsvItem::from_text("y"));
    builder.get_column_mut(1).set_value(1, CsvItem::from_text("z"));
    assert_eq!(builder.row_count(), 2);
    let table = Csv::from_builder(builder);
    assert_eq!(table.row_count(), 2);
    assert_eq!(table.get_column(0).unwrap().row_count(), 1);
}

#[test]
fn file_surface_tracks_columns_and_rows() {
    let mut file = CSVFile::new();
    assert_eq!(file.column_count(), 0);
    assert_eq!(file.row_count(), 0);
    file.new_column("h1".to_string());
    file.new_column("h2".to_string());
    assert_eq!(file.column_count(), 2);
    file.get_column_mut(0).set_value(0, CSVItem::from_text("a"));
    file.get_column_mut(1).set_value(0, CSVItem::from_text("b"));
    file.get_column_mut(1).set_value(1, CSVItem::from_text("c"));
    assert_eq!(file.row_count(), 2);
    assert_eq!(file.get_column(1).unwrap().row_count(), 2);
    assert!(file.get_column(2).is_none());
}

#[test]
fn file_get_column_mut_creates_missing_columns() {
    let mut file = CSVFile::new();
    file.get_column_mut(3).set_value(0, CSVItem::from_text("x"));
    assert_eq!(file.column_count(), 4);
    assert_eq!(file.get_column(0).unwrap().row_count(), 0);
    assert_eq!(file.get_column(0).unwrap().header(), "");
    assert_eq!(file.get_column(3).unwrap().row_count(), 1);
}

#[test]
fn builder_set_value_reaches_any_cell() {
    let mut builder = CsvBuilder::new();
    builder.set_value(1, 2, CsvItem::from_text("deep"));
    assert_eq!(builder.row_count(), 3);
    let table = Csv::from_builder(builder);
    assert_eq!(table.column_count(), 2);
    assert_eq!(table.get_column(0).unwrap().row_count(), 0);
    assert_eq!(table.get_column(1).unwrap().row_count(), 3);
}

#[test]
fn file_set_value_reaches_any_cell() {
    let mut file = CSVFile::new();
    file.new_column("h".to_string());
    file.set_value(0, 0, CSVItem::from_text("a"));
    file.set_value(2, 1, CSVItem::from_text("b"));
    assert_eq!(file.column_count(), 3);
    assert_eq!(file.row_count(), 2);
    assert_eq!(file.get_column(0).unwrap().header(), "h");
    assert_eq!(file.get_column(2).unwrap().row_count(), 2);
}

#[test]
fn file_surface_column_backfills_too() {
    let mut column = hamstercsv::csv::CSVColumn::from_header("h".to_string());
    column.set_value(1, CSVItem::from_text("x"));
    assert_eq!(column.row_count(), 2);
    assert_eq!(column.value(0).unwrap().line_count(), 1);
    assert_eq!(column.values().len(), 2);
}
