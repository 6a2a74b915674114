//! The four-level walk: worksheet, row and cell sequences, their dense-from-0
//! index discipline, and permanent exhaustion.

use xlsreader::reader::workbook::Cell;
use xlsreader::reader::workbook::CellRecord;
use xlsreader::reader::workbook::CellValue;
use xlsreader::reader::workbook::RowData;
use xlsreader::reader::workbook::SheetData;
use xlsreader::reader::workbook::Workbook;
use xlsreader::reader::workbook::RECORD_NUMBER;

fn number(value: f64) -> Option<CellRecord> {
    Some(CellRecord { id: RECORD_NUMBER, num_bits: value.to_bits(), text: None })
}

fn text(value: &str) -> Option<CellRecord> {
    Some(CellRecord { id: 0x00FD, num_bits: 0, text: Some(String::from(value)) })
}

fn blank() -> Option<CellRecord> {
    Some(CellRecord { id: 0x0201, num_bits: 0, text: None })
}

#[test]
fn scenario_one_sheet_two_rows_two_columns() {
    let wb = Workbook {
        sheets: vec![SheetData {
            rows: vec![
                Some(RowData { cells: vec![number(3.14), text("hi")] }),
                Some(RowData { cells: vec![blank(), number(0.0)] }),
            ],
        }],
    };

    let mut sheets = wb.sheets();
    let ws = sheets.next().expect("one worksheet");
    assert!(sheets.next().is_none());

    let mut rows = ws.rows();
    let row0 = rows.next().expect("row 0");
    assert_eq!(row0.index, 0);
    let row1 = rows.next().expect("row 1");
    assert_eq!(row1.index, 1);
    assert!(rows.next().is_none());

    let mut cells = row0.cells();
    let c: Cell = cells.next().expect("cell (0, 0)");
    assert_eq!((c.row_number, c.col_number), (0, 0));
    assert_eq!(
        c.value(),
        Some(CellValue::DoubleValue { bits: 3.14f64.to_bits() })
    );
    let c = cells.next().expect("cell (0, 1)");
    assert_eq!((c.row_number, c.col_number), (0, 1));
    assert_eq!(
        c.value(),
        Some(CellValue::StringValue { value: String::from("hi") })
    );
    assert!(cells.next().is_none());

    let mut cells = row1.cells();
    let c = cells.next().expect("cell (1, 0)");
    assert_eq!(c.value(), None);
    let c = cells.next().expect("cell (1, 1)");
    assert_eq!(
        c.value(),
        Some(CellValue::DoubleValue { bits: 0.0f64.to_bits() })
    );
    assert!(cells.next().is_none());
}

#[test]
fn worksheet_exhaustion_is_idempotent() {
    let wb = Workbook {
        sheets: vec![SheetData { rows: vec![] }, SheetData { rows: vec![] }],
    };
    let mut sheets = wb.sheets();
    assert!(sheets.next().is_some());
    assert!(sheets.next().is_some());
    assert!(sheets.next().is_none());
    assert!(sheets.next().is_none());
    assert!(sheets.next().is_none());
}

#[test]
fn empty_workbook_yields_no_worksheet() {
    let wb = Workbook { sheets: vec![] };
    let mut sheets = wb.sheets();
    assert!(sheets.next().is_none());
    assert!(sheets.next().is_none());
}

#[test]
fn each_sheets_call_starts_an_independent_sequence() {
    let wb = Workbook { sheets: vec![SheetData { rows: vec![] }] };
    let mut first = wb.sheets();
    assert!(first.next().is_some());
    assert!(first.next().is_none());
    let mut second = wb.sheets();
    assert!(second.next().is_some());
}

#[test]
fn row_indices_are_contiguous_from_zero() {
    let wb = Workbook {
        sheets: vec![SheetData {
            rows: vec![
                Some(RowData { cells: vec![] }),
                Some(RowData { cells: vec![] }),
                Some(RowData { cells: vec![] }),
            ],
        }],
    };
    let mut sheets = wb.sheets();
    let ws = sheets.next().unwrap();
    let mut rows = ws.rows();
    let mut seen: Vec<usize> = Vec::new();
    while let Some(row) = rows.next() {
        seen.push(row.index);
    }
    assert_eq!(seen, vec![0, 1, 2]);
    assert!(rows.next().is_none());
}

#[test]
fn a_row_gap_ends_the_walk_even_with_rows_beyond_it() {
    let wb = Workbook {
        sheets: vec![SheetData {
            rows: vec![
                Some(RowData { cells: vec![] }),
                None,
                Some(RowData { cells: vec![] }),
            ],
        }],
    };
    let mut sheets = wb.sheets();
    let ws = sheets.next().unwrap();
    let mut rows = ws.rows();
    assert_eq!(rows.next().map(|r| r.index), Some(0));
    assert!(rows.next().is_none());
    assert!(rows.next().is_none());
}

#[test]
fn column_indices_are_contiguous_from_zero() {
    let wb = Workbook {
        sheets: vec![SheetData {
            rows: vec![Some(RowData {
                cells: vec![number(1.0), number(2.0), number(4.0)],
            })],
        }],
    };
    let mut sheets = wb.sheets();
    let ws = sheets.next().unwrap();
    let mut rows = ws.rows();
    let row = rows.next().unwrap();
    let mut cells = row.cells();
    let mut seen: Vec<(usize, usize)> = Vec::new();
    while let Some(cell) = cells.next() {
        seen.push((cell.row_number, cell.col_number));
    }
    assert_eq!(seen, vec![(0, 0), (0, 1), (0, 2)]);
    assert!(cells.next().is_none());
}

#[test]
fn a_cell_gap_ends_the_walk_even_with_cells_beyond_it() {
    let wb = Workbook {
        sheets: vec![SheetData {
            rows: vec![Some(RowData { cells: vec![number(1.0), None, number(2.0)] })],
        }],
    };
    let mut sheets = wb.sheets();
    let ws = sheets.next().unwrap();
    let row = ws.rows().next().unwrap();
    let mut cells = row.cells();
    assert_eq!(cells.next().map(|c| c.col_number), Some(0));
    assert!(cells.next().is_none());
    assert!(cells.next().is_none());
}

#[test]
fn empty_row_yields_no_cell() {
    let wb = Workbook {
        sheets: vec![SheetData { rows: vec![Some(RowData { cells: vec![] })] }],
    };
    let ws = wb.sheets().next().unwrap();
    let row = ws.rows().next().unwrap();
    let mut cells = row.cells();
    assert!(cells.next().is_none());
}

#[test]
fn dropping_a_workbook_without_walking_it_is_harmless() {
    let wb = Workbook {
        sheets: vec![SheetData { rows: vec![Some(RowData { cells: vec![number(1.0)] })] }],
    };
    drop(wb);
}
