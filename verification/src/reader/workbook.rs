//! The document model and its traversal.
//!
//! A `Workbook` owns the parsed document as plain data: a sheet table, per
//! sheet a row table, per row a cell table. The row and cell tables hold
//! `Option` entries because the engine that fills them answers a lookup with
//! a handle or with nothing, and a table may be sparse. Every sequence below
//! walks its table from index 0 and treats the first empty answer as the end,
//! so a gap truncates the walk even when later entries are filled.
//!
//! The sequences are forward-only cursors: each successful step yields the
//! entry at the cursor and moves the cursor up by one; an unsuccessful step
//! leaves the cursor where it is, so an exhausted sequence stays exhausted.
//! The spec functions `worksheets_step`, `rows_step` and `cells_step` state
//! that protocol exactly, and each `next` is proved to follow it.

use vstd::prelude::*;

verus! {

/// Record-type identifier of a plain floating-point number record.
pub const RECORD_NUMBER: u16 = 0x0203;
/// Record-type identifier of an RK-packed number record.
pub const RECORD_RK: u16 = 0x027E;
/// Record-type identifier of a multi-cell RK block record.
pub const RECORD_MULRK: u16 = 0x00BD;
/// Record-type identifier of a boolean-or-error record.
pub const RECORD_BOOLERR: u16 = 0x0205;
/// Record-type identifier of a formula record carrying a cached numeric result.
pub const RECORD_FORMULA: u16 = 0x0006;

/// The raw cell record, reduced to the three fields the projection reads:
/// the record-type identifier, the numeric field, and the text buffer.
pub struct CellRecord {
    /// The 16-bit record-type identifier.
    pub id: u16,
    /// The record's 64-bit floating-point field, carried as its bit pattern;
    /// this layer never interprets the number, only hands it through.
    pub num_bits: u64,
    /// The record's text buffer, already decoded; `None` stands for the
    /// engine's null text pointer.
    pub text: Option<String>,
}

/// One row's cell table. An empty entry is a position the engine answers
/// with nothing.
pub struct RowData {
    pub cells: Vec<Option<CellRecord>>,
}

/// One worksheet's row table, in parsed form.
pub struct SheetData {
    pub rows: Vec<Option<RowData>>,
}

/// The whole parsed document: the workbook owns every sheet, row and cell
/// below it, and all of them go away together when it does.
pub struct Workbook {
    pub sheets: Vec<SheetData>,
}

/// A cell's projected value: numeric (one 64-bit floating point, carried as
/// its bit pattern) or textual. A cell may instead project to nothing, which
/// is an `Option::None` around this type, distinct from both variants.
#[derive(Debug, PartialEq)]
pub enum CellValue {
    DoubleValue { bits: u64 },
    StringValue { value: String },
}

/// Lazy forward sequence over a workbook's worksheets.
pub struct Worksheets<'a> {
    pub workbook: &'a Workbook,
    pub current_index: usize,
}

/// One worksheet: a view into the workbook's sheet table, valid no longer
/// than the workbook it was taken from.
#[derive(Clone, Copy)]
pub struct Worksheet<'a> {
    pub data: &'a SheetData,
}

/// Lazy forward sequence over a worksheet's rows.
pub struct Rows<'a> {
    pub worksheet: Worksheet<'a>,
    pub current_row: usize,
}

/// One row: its 0-based index and a view into the row's cell table.
#[derive(Clone, Copy)]
pub struct Row<'a> {
    pub index: usize,
    pub data: &'a RowData,
}

/// Lazy forward sequence over a row's cells.
pub struct Cells<'a> {
    pub row: Row<'a>,
    pub current_col: usize,
}

/// One cell: its (row, column) coordinate and a view of the raw record.
pub struct Cell<'a> {
    pub row_number: usize,
    pub col_number: usize,
    pub record: &'a CellRecord,
}

/// What the engine answers when asked for the worksheet at `index`:
/// the sheet, or nothing when the index is past the sheet table.
pub open spec fn sheet_fetch(workbook: Workbook, index: nat) -> Option<SheetData> {
    if index < workbook.sheets@.len() {
        Some(workbook.sheets@[index as int])
    } else {
        None
    }
}

/// What the engine answers when asked for the row at `index`: the row, or
/// nothing when the index is past the row table or falls on a gap in it.
pub open spec fn row_fetch(sheet: SheetData, index: nat) -> Option<RowData> {
    if index < sheet.rows@.len() {
        sheet.rows@[index as int]
    } else {
        None
    }
}

/// What the engine answers when asked for the cell at `index` within a row:
/// the raw record, or nothing past the cell table or on a gap in it.
pub open spec fn cell_fetch(row: RowData, index: nat) -> Option<CellRecord> {
    if index < row.cells@.len() {
        row.cells@[index as int]
    } else {
        None
    }
}

/// The sheet the worksheet sequence yields next, or `None` when exhausted.
pub open spec fn worksheets_yield(it: Worksheets) -> Option<SheetData> {
    sheet_fetch(*it.workbook, it.current_index as nat)
}

/// The worksheet sequence's state after one step: the cursor moves up by one
/// on a yield and stays put on exhaustion.
pub open spec fn worksheets_step<'a>(it: Worksheets<'a>) -> Worksheets<'a> {
    if worksheets_yield(it) is Some {
        Worksheets { workbook: it.workbook, current_index: (it.current_index + 1) as usize }
    } else {
        it
    }
}

/// The row the row sequence yields next, or `None` when exhausted.
pub open spec fn rows_yield(it: Rows) -> Option<RowData> {
    row_fetch(*it.worksheet.data, it.current_row as nat)
}

/// The row sequence's state after one step.
pub open spec fn rows_step<'a>(it: Rows<'a>) -> Rows<'a> {
    if rows_yield(it) is Some {
        Rows { worksheet: it.worksheet, current_row: (it.current_row + 1) as usize }
    } else {
        it
    }
}

/// The raw record the cell sequence yields next, or `None` when exhausted.
pub open spec fn cells_yield(it: Cells) -> Option<CellRecord> {
    cell_fetch(*it.row.data, it.current_col as nat)
}

/// The cell sequence's state after one step.
pub open spec fn cells_step<'a>(it: Cells<'a>) -> Cells<'a> {
    if cells_yield(it) is Some {
        Cells { row: it.row, current_col: (it.current_col + 1) as usize }
    } else {
        it
    }
}

/// Whether a record-type identifier is one of the five numeric kinds. The
/// five are different on-disk encodings of a number that the engine has
/// already collapsed into the record's one floating-point field, so the
/// projection treats them alike and never tells them apart.
pub open spec fn is_numeric_record(id: u16) -> bool {
    id == RECORD_NUMBER || id == RECORD_RK || id == RECORD_MULRK || id == RECORD_BOOLERR
        || id == RECORD_FORMULA
}

/// Projects a raw cell record to a typed value. A record of a numeric kind
/// yields the numeric variant built from its floating-point field; any other
/// record yields the textual variant when it carries text, and nothing when
/// its text buffer is absent.
pub fn project_value(record: &CellRecord) -> (r: Option<CellValue>)
    ensures
        is_numeric_record(record.id) ==> r == Some(
            CellValue::DoubleValue { bits: record.num_bits },
        ),
        !is_numeric_record(record.id) && record.text is None ==> r is None,
        !is_numeric_record(record.id) && record.text is Some ==> (r matches Some(
            CellValue::StringValue { value },
        ) && value@ == record.text->0@),
{
    let id = record.id;
    if id == RECORD_NUMBER || id == RECORD_RK || id == RECORD_MULRK || id == RECORD_BOOLERR
        || id == RECORD_FORMULA {
        Some(CellValue::DoubleValue { bits: record.num_bits })
    } else {
        match &record.text {
            Some(s) => Some(CellValue::StringValue { value: s.clone() }),
            None => None,
        }
    }
}

impl Workbook {
    /// A fresh worksheet sequence, rooted at sheet index 0. Each call gives
    /// an independent sequence; the workbook itself is only read.
    pub fn sheets(&self) -> (it: Worksheets<'_>)
        ensures
            it.workbook == self,
            it.current_index == 0,
    {
        Worksheets { workbook: self, current_index: 0 }
    }
}

impl<'a> Worksheets<'a> {
    /// Yields the worksheet at the cursor and advances, or answers `None`
    /// and stays put once the sheet table is out of entries. After the first
    /// `None`, every later call answers `None` again.
    pub fn next(&mut self) -> (r: Option<Worksheet<'a>>)
        ensures
            *final(self) == worksheets_step(*old(self)),
            match worksheets_yield(*old(self)) {
                Some(d) => r matches Some(ws) && *ws.data == d,
                None => r is None,
            },
    {
        let workbook: &'a Workbook = self.workbook;
        if self.current_index < workbook.sheets.len() {
            let ws = Worksheet { data: &workbook.sheets[self.current_index] };
            self.current_index = self.current_index + 1;
            Some(ws)
        } else {
            None
        }
    }
}

impl<'a> Worksheet<'a> {
    /// A fresh row sequence over this worksheet, rooted at row index 0.
    pub fn rows(&self) -> (it: Rows<'a>)
        ensures
            it.worksheet == *self,
            it.current_row == 0,
    {
        Rows { worksheet: *self, current_row: 0 }
    }
}

impl<'a> Rows<'a> {
    /// Yields the row at the cursor and advances, or answers `None` and
    /// stays put at the first missing row. Rows come strictly in ascending
    /// index order from 0; a gap in the row table ends the walk even when
    /// rows past the gap exist.
    pub fn next(&mut self) -> (r: Option<Row<'a>>)
        ensures
            *final(self) == rows_step(*old(self)),
            match rows_yield(*old(self)) {
                Some(d) => r matches Some(row) && row.index == old(self).current_row && *row.data
                    == d,
                None => r is None,
            },
    {
        let sheet: &'a SheetData = self.worksheet.data;
        if self.current_row < sheet.rows.len() {
            match &sheet.rows[self.current_row] {
                Some(data) => {
                    let row = Row { index: self.current_row, data };
                    self.current_row = self.current_row + 1;
                    Some(row)
                },
                None => None,
            }
        } else {
            None
        }
    }
}

impl<'a> Row<'a> {
    /// A fresh cell sequence over this row, rooted at column index 0.
    pub fn cells(&self) -> (it: Cells<'a>)
        ensures
            it.row == *self,
            it.current_col == 0,
    {
        Cells { row: *self, current_col: 0 }
    }
}

impl<'a> Cells<'a> {
    /// Yields the cell at the cursor and advances, or answers `None` and
    /// stays put at the first missing cell. A yielded cell carries its row's
    /// index and the column the cursor stood at.
    pub fn next(&mut self) -> (r: Option<Cell<'a>>)
        ensures
            *final(self) == cells_step(*old(self)),
            match cells_yield(*old(self)) {
                Some(c) => r matches Some(cell) && cell.row_number == old(self).row.index
                    && cell.col_number == old(self).current_col && *cell.record == c,
                None => r is None,
            },
    {
        let data: &'a RowData = self.row.data;
        if self.current_col < data.cells.len() {
            match &data.cells[self.current_col] {
                Some(record) => {
                    let cell = Cell {
                        row_number: self.row.index,
                        col_number: self.current_col,
                        record,
                    };
                    self.current_col = self.current_col + 1;
                    Some(cell)
                },
                None => None,
            }
        } else {
            None
        }
    }
}

impl<'a> Cell<'a> {
    /// The cell's typed value: numeric for the five numeric record kinds,
    /// textual for a record that carries text, nothing otherwise.
    pub fn value(&self) -> (r: Option<CellValue>)
        ensures
            is_numeric_record(self.record.id) ==> r == Some(
                CellValue::DoubleValue { bits: self.record.num_bits },
            ),
            !is_numeric_record(self.record.id) && self.record.text is None ==> r is None,
            !is_numeric_record(self.record.id) && self.record.text is Some ==> (r matches Some(
                CellValue::StringValue { value },
            ) && value@ == self.record.text->0@),
    {
        project_value(self.record)
    }
}

} // verus!
