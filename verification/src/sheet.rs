//! Sheet assembly.  One worksheet is built in memory: the header row at row
//! zero, then one data row per record, in input order.  The worksheet type
//! and its cell store belong to rust_xlsxwriter; the library drives them
//! through trusted wrappers whose contracts speak of the two projections
//! `sheet_title` and `sheet_cells`.

use vstd::prelude::*;

verus! {

use crate::cells::{Cell, CellV, SheetPlan, cell_num_ok, cells_view, plan_rows_view, plan_shape_ok};
use crate::error::RunError;
use crate::json::{f64_bits_finite, number_float_bits};
use crate::schema::strings_view;

#[verifier::external_type_specification]
#[verifier::external_body]
pub struct ExWorksheet(rust_xlsxwriter::Worksheet);

#[verifier::external_type_specification]
#[verifier::external_body]
pub struct ExWorkbook(rust_xlsxwriter::Workbook);

/// The cells a worksheet holds, by zero-based (row, column) coordinate.
pub uninterp spec fn sheet_cells(ws: rust_xlsxwriter::Worksheet) -> Map<(int, int), CellV>;

/// The name a worksheet carries.
pub uninterp spec fn sheet_title(ws: rust_xlsxwriter::Worksheet) -> Seq<char>;

/// The worksheets a workbook holds, in order.
pub uninterp spec fn workbook_sheets(wb: rust_xlsxwriter::Workbook) -> Seq<SheetV>;

/// The mathematical shape of one worksheet.
pub struct SheetV {
    pub title: Seq<char>,
    pub cells: Map<(int, int), CellV>,
}

/// A character the format forbids in a worksheet name.
pub open spec fn forbidden_sheet_char(c: char) -> bool {
    c == '*' || c == '?' || c == ':' || c == '[' || c == ']' || c == '\\' || c == '/'
}

/// The format's naming rules: non-blank, at most 31 characters, no
/// forbidden character, and no apostrophe at either end.
pub open spec fn valid_sheet_name(s: Seq<char>) -> bool {
    &&& 0 < s.len() <= 31
    &&& forall|i: int| 0 <= i < s.len() ==> !forbidden_sheet_char(#[trigger] s[i])
    &&& s.first() != '\''
    &&& s.last() != '\''
}

/// An empty text never becomes a cell: the store ignores it.
pub open spec fn cell_present(c: CellV) -> bool {
    !(c matches CellV::Text(s) && s.len() == 0)
}

/// Whether storing this text at (row, col) succeeds: an empty text is
/// accepted (and ignored) anywhere; any other text needs an in-range
/// coordinate and at most 32767 characters.
pub open spec fn text_write_ok(s: Seq<char>, row: int, col: int) -> bool {
    s.len() == 0 || (row < 1048576 && col < 16384 && s.len() <= 32767)
}

/// Whether storing this cell at (row, col) succeeds.
pub open spec fn cell_write_ok(c: CellV, row: int, col: int) -> bool {
    match c {
        CellV::Text(s) => text_write_ok(s, row, col),
        CellV::Num(_) => row < 1048576 && col < 16384,
        CellV::Bool(_) => row < 1048576 && col < 16384,
    }
}

/// Whether every cell write of the sheet succeeds: each non-empty header
/// text fits its column, and each present data cell fits its coordinate.
pub open spec fn writes_ok(headers: Seq<Seq<char>>, rows: Seq<Seq<Option<CellV>>>) -> bool {
    &&& forall|j: int| 0 <= j < headers.len() ==> text_write_ok(#[trigger] headers[j], 0, j)
    &&& forall|i: int, j: int|
        0 <= i < rows.len() && 0 <= j < headers.len() ==> (#[trigger] rows[i][j] matches Some(c)
            ==> cell_write_ok(c, i + 1, j))
}

/// The cell the finished sheet holds at (row, col), if any: row zero holds
/// the non-empty header texts, each following row the present cells of one
/// record.
pub open spec fn cell_at(
    headers: Seq<Seq<char>>,
    rows: Seq<Seq<Option<CellV>>>,
    r: int,
    c: int,
) -> Option<CellV> {
    if r == 0 && 0 <= c < headers.len() && headers[c].len() > 0 {
        Option::Some(CellV::Text(headers[c]))
    } else if 1 <= r <= rows.len() && 0 <= c < headers.len() {
        match rows[r - 1][c] {
            Option::Some(cv) => if cell_present(cv) {
                Option::Some(cv)
            } else {
                Option::None
            },
            Option::None => Option::None,
        }
    } else {
        Option::None
    }
}

/// The finished sheet's cells as a map.
pub open spec fn sheet_cells_model(headers: Seq<Seq<char>>, rows: Seq<Seq<Option<CellV>>>) -> Map<
    (int, int),
    CellV,
> {
    Map::new(
        |rc: (int, int)| cell_at(headers, rows, rc.0, rc.1) is Some,
        |rc: (int, int)| cell_at(headers, rows, rc.0, rc.1).unwrap(),
    )
}

/// A worksheet with nothing in it yet.
pub open spec fn no_cells() -> Map<(int, int), CellV> {
    Map::empty()
}

/// The blank title of a fresh worksheet.
pub open spec fn no_title() -> Seq<char> {
    Seq::empty()
}

/// A workbook with no worksheet yet.
pub open spec fn no_sheets() -> Seq<SheetV> {
    Seq::empty()
}

/// Relies on `rust_xlsxwriter::Worksheet::new`: a fresh worksheet holds no
/// cells and carries the empty name.
#[verifier::external_body]
fn ws_new() -> (r: rust_xlsxwriter::Worksheet)
    ensures
        sheet_cells(r) == no_cells(),
        sheet_title(r) == no_title(),
{
    rust_xlsxwriter::Worksheet::new()
}

/// Relies on `rust_xlsxwriter::Worksheet::set_name`, which validates the
/// name against the format's rules and stores it; a rejected name changes
/// nothing.
#[verifier::external_body]
fn ws_set_name(ws: &mut rust_xlsxwriter::Worksheet, name: &str) -> (r: Result<
    (),
    rust_xlsxwriter::XlsxError,
>)
    ensures
        sheet_cells(*final(ws)) == sheet_cells(*old(ws)),
        valid_sheet_name(name@) ==> r is Ok && sheet_title(*final(ws)) == name@,
        !valid_sheet_name(name@) ==> r is Err && sheet_title(*final(ws)) == sheet_title(*old(ws)),
{
    match ws.set_name(name) {
        Ok(_) => Ok(()),
        Err(e) => Err(e),
    }
}

/// Relies on `rust_xlsxwriter::Worksheet::write_string`: an empty string is
/// ignored; otherwise the write checks the coordinate and the 32767-character
/// ceiling, and on success stores the text at (row, col).
#[verifier::external_body]
fn ws_write_string(ws: &mut rust_xlsxwriter::Worksheet, row: u32, col: u16, s: &str) -> (r: Result<
    (),
    rust_xlsxwriter::XlsxError,
>)
    ensures
        sheet_title(*final(ws)) == sheet_title(*old(ws)),
        r is Ok <==> text_write_ok(s@, row as int, col as int),
        r is Ok && s@.len() > 0 ==> sheet_cells(*final(ws)) == sheet_cells(*old(ws)).insert(
            (row as int, col as int),
            CellV::Text(s@),
        ),
        r is Ok && s@.len() == 0 ==> sheet_cells(*final(ws)) == sheet_cells(*old(ws)),
        r is Err ==> sheet_cells(*final(ws)) == sheet_cells(*old(ws)),
{
    match ws.write_string(row, col, s) {
        Ok(_) => Ok(()),
        Err(e) => Err(e),
    }
}

/// Relies on `rust_xlsxwriter::Worksheet::write_number`: after the
/// coordinate check it stores the double value at (row, col).  The caller
/// must hand a number with a finite double value, which every number of
/// this serde_json build has.
#[verifier::external_body]
fn ws_write_number(
    ws: &mut rust_xlsxwriter::Worksheet,
    row: u32,
    col: u16,
    n: &serde_json::Number,
) -> (r: Result<(), rust_xlsxwriter::XlsxError>)
    requires
        number_float_bits(*n) matches Some(b) && f64_bits_finite(b),
    ensures
        sheet_title(*final(ws)) == sheet_title(*old(ws)),
        r is Ok <==> (row < 1048576 && col < 16384),
        r is Ok ==> sheet_cells(*final(ws)) == sheet_cells(*old(ws)).insert(
            (row as int, col as int),
            CellV::Num(number_float_bits(*n).unwrap()),
        ),
        r is Err ==> sheet_cells(*final(ws)) == sheet_cells(*old(ws)),
{
    match ws.write_number(row, col, n.as_f64().unwrap_or_default()) {
        Ok(_) => Ok(()),
        Err(e) => Err(e),
    }
}

/// Relies on `rust_xlsxwriter::Worksheet::write_boolean`: after the
/// coordinate check it stores the boolean at (row, col).
#[verifier::external_body]
fn ws_write_boolean(ws: &mut rust_xlsxwriter::Worksheet, row: u32, col: u16, b: bool) -> (r: Result<
    (),
    rust_xlsxwriter::XlsxError,
>)
    ensures
        sheet_title(*final(ws)) == sheet_title(*old(ws)),
        r is Ok <==> (row < 1048576 && col < 16384),
        r is Ok ==> sheet_cells(*final(ws)) == sheet_cells(*old(ws)).insert(
            (row as int, col as int),
            CellV::Bool(b),
        ),
        r is Err ==> sheet_cells(*final(ws)) == sheet_cells(*old(ws)),
{
    match ws.write_boolean(row, col, b) {
        Ok(_) => Ok(()),
        Err(e) => Err(e),
    }
}

/// Relies on `rust_xlsxwriter::Workbook::new`: a fresh workbook holds no
/// worksheets.
#[verifier::external_body]
fn wb_new() -> (r: rust_xlsxwriter::Workbook)
    ensures
        workbook_sheets(r) == no_sheets(),
{
    rust_xlsxwriter::Workbook::new()
}

/// Relies on `rust_xlsxwriter::Workbook::push_worksheet`: a worksheet that
/// already carries a non-blank name is appended as it is.
#[verifier::external_body]
fn wb_push(wb: &mut rust_xlsxwriter::Workbook, ws: rust_xlsxwriter::Worksheet)
    requires
        sheet_title(ws).len() > 0,
    ensures
        workbook_sheets(*final(wb)) == workbook_sheets(*old(wb)).push(
            SheetV { title: sheet_title(ws), cells: sheet_cells(ws) },
        ),
{
    wb.push_worksheet(ws)
}

/// Write one planned cell at (row, col).  Succeeds exactly when the cell
/// fits the coordinate; an empty text succeeds without storing anything.
fn write_cell(ws: &mut rust_xlsxwriter::Worksheet, row: u32, col_idx: usize, cell: &Cell) -> (r:
    Result<(), rust_xlsxwriter::XlsxError>)
    requires
        cell_num_ok(*cell),
        row < 1048576,
    ensures
        sheet_title(*final(ws)) == sheet_title(*old(ws)),
        r is Ok <==> cell_write_ok(cell@, row as int, col_idx as int),
        r is Ok && cell_present(cell@) ==> sheet_cells(*final(ws)) == sheet_cells(*old(ws)).insert(
            (row as int, col_idx as int),
            cell@,
        ),
        r is Ok && !cell_present(cell@) ==> sheet_cells(*final(ws)) == sheet_cells(*old(ws)),
        r is Err ==> sheet_cells(*final(ws)) == sheet_cells(*old(ws)),
{
    let col: u16 = if col_idx < 16384 {
        col_idx as u16
    } else {
        16384
    };
    match cell {
        Cell::Text(s) => ws_write_string(ws, row, col, s.as_str()),
        Cell::Num(n) => ws_write_number(ws, row, col, n),
        Cell::Bool(b) => ws_write_boolean(ws, row, col, *b),
    }
}

/// The sheet's cells after the first `k` header writes.
pub open spec fn header_partial(hs: Seq<Seq<char>>, k: int) -> Map<(int, int), CellV> {
    Map::new(
        |rc: (int, int)| rc.0 == 0 && 0 <= rc.1 < k && rc.1 < hs.len() && hs[rc.1].len() > 0,
        |rc: (int, int)| CellV::Text(hs[rc.1]),
    )
}

/// The sheet's cells after the whole header row and the data cells up to
/// row `i`, column `j`.
pub open spec fn data_partial(
    hs: Seq<Seq<char>>,
    rows: Seq<Seq<Option<CellV>>>,
    i: int,
    j: int,
) -> Map<(int, int), CellV> {
    Map::new(
        |rc: (int, int)| cell_at(hs, rows, rc.0, rc.1) is Some && (rc.0 == 0 || rc.0 - 1 < i || (
        rc.0 - 1 == i && rc.1 < j)),
        |rc: (int, int)| cell_at(hs, rows, rc.0, rc.1).unwrap(),
    )
}

/// Assemble the worksheet a plan describes: the sheet name, the header row,
/// then every data row in order.  Succeeds exactly when the name obeys the
/// format's rules and every cell write fits the format's limits.
pub(crate) fn render(plan: &SheetPlan, sheet: &str) -> (r: Result<
    rust_xlsxwriter::Worksheet,
    RunError,
>)
    requires
        plan_shape_ok(*plan),
        plan.rows@.len() <= 65536,
    ensures
        ({
            let hs = strings_view(plan.headers@);
            let rv = plan_rows_view(plan.rows@);
            match r {
                Ok(ws) => valid_sheet_name(sheet@) && writes_ok(hs, rv) && sheet_title(ws)
                    == sheet@ && sheet_cells(ws) == sheet_cells_model(hs, rv),
                Err(e) => e is Xlsx && !(valid_sheet_name(sheet@) && writes_ok(hs, rv)),
            }
        }),
{
    let ghost hs = strings_view(plan.headers@);
    let ghost rv = plan_rows_view(plan.rows@);
    let mut ws = ws_new();
    match ws_set_name(&mut ws, sheet) {
        Ok(()) => {},
        Err(e) => {
            return Err(RunError::Xlsx(e));
        },
    }
    proof {
        assert(sheet_cells(ws) =~= header_partial(hs, 0));
    }
    let mut j: usize = 0;
    while j < plan.headers.len()
        invariant
            hs == strings_view(plan.headers@),
            rv == plan_rows_view(plan.rows@),
            plan_shape_ok(*plan),
            plan.rows@.len() <= 65536,
            valid_sheet_name(sheet@),
            sheet_title(ws) == sheet@,
            0 <= j <= hs.len(),
            forall|k: int| 0 <= k < j ==> text_write_ok(#[trigger] hs[k], 0, k),
            sheet_cells(ws) == header_partial(hs, j as int),
        decreases hs.len() - j,
    {
        let cell = Cell::Text(plan.headers[j].clone());
        proof {
            assert(cell@ == CellV::Text(hs[j as int]));
        }
        match write_cell(&mut ws, 0, j, &cell) {
            Ok(()) => {
                proof {
                    assert(sheet_cells(ws) =~= header_partial(hs, j as int + 1));
                }
            },
            Err(e) => {
                proof {
                    assert(!text_write_ok(hs[j as int], 0, j as int));
                }
                return Err(RunError::Xlsx(e));
            },
        }
        j += 1;
    }
    proof {
        assert(sheet_cells(ws) =~= data_partial(hs, rv, 0, 0));
    }
    let mut i: usize = 0;
    while i < plan.rows.len()
        invariant
            hs == strings_view(plan.headers@),
            rv == plan_rows_view(plan.rows@),
            plan_shape_ok(*plan),
            plan.rows@.len() <= 65536,
            valid_sheet_name(sheet@),
            sheet_title(ws) == sheet@,
            forall|k: int| 0 <= k < hs.len() ==> text_write_ok(#[trigger] hs[k], 0, k),
            0 <= i <= plan.rows@.len(),
            forall|a: int, b: int|
                0 <= a < i && 0 <= b < hs.len() ==> (#[trigger] rv[a][b] matches Some(c)
                    ==> cell_write_ok(c, a + 1, b)),
            sheet_cells(ws) == data_partial(hs, rv, i as int, 0),
        decreases plan.rows@.len() - i,
    {
        let row_idx: u32 = (i as u32) + 1;
        let mut b: usize = 0;
        while b < plan.rows[i].len()
            invariant
                hs == strings_view(plan.headers@),
                rv == plan_rows_view(plan.rows@),
                plan_shape_ok(*plan),
                plan.rows@.len() <= 65536,
                valid_sheet_name(sheet@),
                sheet_title(ws) == sheet@,
                forall|k: int| 0 <= k < hs.len() ==> text_write_ok(#[trigger] hs[k], 0, k),
                0 <= i < plan.rows@.len(),
                row_idx == i + 1,
                plan.rows@[i as int]@.len() == hs.len(),
                0 <= b <= hs.len(),
                forall|a: int, b2: int|
                    0 <= a < i && 0 <= b2 < hs.len() ==> (#[trigger] rv[a][b2] matches Some(c)
                        ==> cell_write_ok(c, a + 1, b2)),
                forall|b2: int|
                    0 <= b2 < b ==> (#[trigger] rv[i as int][b2] matches Some(c) ==> cell_write_ok(
                        c,
                        i + 1,
                        b2,
                    )),
                sheet_cells(ws) == data_partial(hs, rv, i as int, b as int),
            decreases hs.len() - b,
        {
            proof {
                assert(rv[i as int] == cells_view(plan.rows@[i as int]@));
            }
            match &plan.rows[i][b] {
                Option::None => {
                    proof {
                        assert(rv[i as int][b as int] is None);
                        assert(data_partial(hs, rv, i as int, b as int) =~= data_partial(
                            hs,
                            rv,
                            i as int,
                            b as int + 1,
                        ));
                    }
                },
                Option::Some(cell) => {
                    proof {
                        assert(rv[i as int][b as int] == Option::Some(cell@));
                    }
                    match write_cell(&mut ws, row_idx, b, cell) {
                        Ok(()) => {
                            proof {
                                assert(sheet_cells(ws) =~= data_partial(
                                    hs,
                                    rv,
                                    i as int,
                                    b as int + 1,
                                ));
                            }
                        },
                        Err(e) => {
                            proof {
                                assert(!cell_write_ok(cell@, i + 1, b as int));
                            }
                            return Err(RunError::Xlsx(e));
                        },
                    }
                },
            }
            b += 1;
        }
        proof {
            assert(data_partial(hs, rv, i as int, hs.len() as int) =~= data_partial(
                hs,
                rv,
                i as int + 1,
                0,
            ));
        }
        i += 1;
    }
    proof {
        assert(sheet_cells(ws) =~= sheet_cells_model(hs, rv));
    }
    Ok(ws)
}

/// Put the one finished worksheet into a fresh workbook.
pub(crate) fn into_workbook(ws: rust_xlsxwriter::Worksheet) -> (r: rust_xlsxwriter::Workbook)
    requires
        sheet_title(ws).len() > 0,
    ensures
        workbook_sheets(r) == seq![SheetV { title: sheet_title(ws), cells: sheet_cells(ws) }],
{
    let mut wb = wb_new();
    wb_push(&mut wb, ws);
    proof {
        assert(workbook_sheets(wb) =~= seq![
            SheetV { title: sheet_title(ws), cells: sheet_cells(ws) },
        ]);
    }
    wb
}

} // verus!
