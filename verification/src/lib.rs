use vstd::prelude::*;

pub mod error;
pub mod json;
pub mod schema;
pub mod cells;
pub mod sheet;
pub mod laws;

verus! {

use crate::cells::{CellV, make_plan, sheet_headers_model, sheet_rows_model};
use crate::error::RunError;
use crate::json::{Record, RecordV, line_record, recs_view};
use crate::schema::strings_view;
use crate::sheet::{
    SheetV,
    sheet_cells_model,
    valid_sheet_name,
    workbook_sheets,
    writes_ok,
};

/// The target spreadsheet format supports at most this many data rows per run.
pub const MAX_ROW_LIMIT: u32 = 65536;

/// A configured row limit is acceptable exactly when it does not exceed the
/// format's native ceiling.
pub fn row_limit_ok(limit: u32) -> (r: bool)
    ensures
        r <==> limit <= MAX_ROW_LIMIT,
{
    limit <= MAX_ROW_LIMIT
}

/// How many of the input lines a run with this row limit ingests: all of
/// them, unless more than the limit are offered.
pub open spec fn take_count(len: int, limit: u32) -> int {
    if len <= limit as int {
        len
    } else {
        limit as int
    }
}

/// Parse the first `row_limit` input lines, in order, each as one JSON
/// value.  The first line that fails to parse aborts the whole run; lines
/// past the limit are never looked at.
pub fn ingest(lines: &Vec<String>, row_limit: u32) -> (r: Result<Vec<Record>, RunError>)
    ensures
        ({
            let n = take_count(lines@.len() as int, row_limit);
            &&& (r matches Ok(recs) ==> {
                &&& recs@.len() == n
                &&& forall|i: int| 0 <= i < n ==> line_record(lines@[i]@) == Some(#[trigger] recs@[i]@)
            })
            &&& (r is Ok <==> forall|i: int| 0 <= i < n ==> (#[trigger] line_record(lines@[i]@)) is Some)
            &&& (r matches Err(e) ==> e is Json)
        }),
{
    let mut recs: Vec<Record> = Vec::new();
    let n: usize = if row_limit as usize <= lines.len() {
        row_limit as usize
    } else {
        lines.len()
    };
    let mut i: usize = 0;
    while i < n
        invariant
            n == take_count(lines@.len() as int, row_limit),
            0 <= i <= n <= lines@.len(),
            recs@.len() == i,
            forall|k: int| 0 <= k < i ==> line_record(lines@[k]@) == Some(#[trigger] recs@[k]@),
        decreases n - i,
    {
        match crate::json::parse_record(lines[i].as_str()) {
            Ok(rec) => recs.push(rec),
            Err(e) => {
                proof {
                    assert(line_record(lines@[i as int]@) is None);
                }
                return Err(RunError::Json(e));
            },
        }
        i += 1;
    }
    proof {
        assert forall|k: int| 0 <= k < take_count(lines@.len() as int, row_limit) implies (
        #[trigger] line_record(lines@[k]@)) is Some by {
            assert(line_record(lines@[k]@) == Some(recs@[k]@));
        }
    }
    Ok(recs)
}

/// The lines a run looks at: the input in order, cut off at the row limit.
pub open spec fn taken_lines(lines: Seq<Seq<char>>, limit: u32) -> Seq<Seq<char>> {
    lines.take(take_count(lines.len() as int, limit))
}

/// Whether every one of these lines parses as a JSON value.
pub open spec fn all_lines_parse(ls: Seq<Seq<char>>) -> bool {
    forall|i: int| 0 <= i < ls.len() ==> (#[trigger] line_record(ls[i])) is Some
}

/// The records these lines parse to, in order.
pub open spec fn parsed_records(ls: Seq<Seq<char>>) -> Seq<RecordV> {
    Seq::new(ls.len(), |i: int| line_record(ls[i]).unwrap())
}

/// The header list of the finished sheet for this input.
pub open spec fn run_headers(ls: Seq<Seq<char>>) -> Seq<Seq<char>> {
    sheet_headers_model(parsed_records(ls))
}

/// The data rows of the finished sheet for this input.
pub open spec fn run_rows(ls: Seq<Seq<char>>) -> Seq<Seq<Option<CellV>>> {
    sheet_rows_model(parsed_records(ls))
}

/// Whether the sheet for this input can be written at all: the name obeys
/// the format's rules and every cell fits its limits.
pub open spec fn run_writable(ls: Seq<Seq<char>>, sheet: Seq<char>) -> bool {
    valid_sheet_name(sheet) && writes_ok(run_headers(ls), run_rows(ls))
}

/// The whole conversion pipeline as one pure function: from the input lines
/// and the configuration to the workbook to persist, the judgment that
/// empty input leaves nothing to write, or the error that aborts the run.
pub fn run(lines: &Vec<String>, sheet: &str, row_limit: u32) -> (r: Result<
    Option<rust_xlsxwriter::Workbook>,
    RunError,
>)
    ensures
        ({
            let ls = taken_lines(strings_view(lines@), row_limit);
            &&& (row_limit > MAX_ROW_LIMIT ==> (r matches Err(e) && e is Config))
            &&& (row_limit <= MAX_ROW_LIMIT && !all_lines_parse(ls) ==> (r matches Err(e)
                && e is Json))
            &&& (row_limit <= MAX_ROW_LIMIT && all_lines_parse(ls) && ls.len() == 0 ==> (r matches
                Ok(w) && w is None))
            &&& (row_limit <= MAX_ROW_LIMIT && all_lines_parse(ls) && ls.len() > 0
                && !run_writable(ls, sheet@) ==> (r matches Err(e) && e is Xlsx))
            &&& (row_limit <= MAX_ROW_LIMIT && all_lines_parse(ls) && ls.len() > 0 && run_writable(
                ls,
                sheet@,
            ) ==> (r matches Ok(w) && w matches Some(wb) && workbook_sheets(wb) == seq![
                SheetV { title: sheet@, cells: sheet_cells_model(run_headers(ls), run_rows(ls)) },
            ]))
        }),
{
    if row_limit > MAX_ROW_LIMIT {
        return Err(RunError::Config);
    }
    let ghost ls = taken_lines(strings_view(lines@), row_limit);
    proof {
        assert(ls.len() == take_count(lines@.len() as int, row_limit));
        assert forall|i: int| 0 <= i < ls.len() implies #[trigger] ls[i] == lines@[i]@ by {
            assert(strings_view(lines@)[i] == lines@[i]@);
        }
    }
    let recs = match ingest(lines, row_limit) {
        Ok(recs) => recs,
        Err(e) => {
            proof {
                if all_lines_parse(ls) {
                    assert forall|i: int|
                        0 <= i < take_count(lines@.len() as int, row_limit) implies (
                    #[trigger] line_record(lines@[i]@)) is Some by {
                        assert(ls[i] == lines@[i]@);
                        assert(line_record(ls[i]) is Some);
                    }
                    assert(false);
                }
            }
            return Err(e);
        },
    };
    proof {
        assert forall|i: int| 0 <= i < ls.len() implies (#[trigger] line_record(ls[i])) is Some by {
            assert(ls[i] == lines@[i]@);
            assert(line_record(lines@[i]@) == Some(recs@[i]@));
        }
        assert(all_lines_parse(ls));
        assert forall|i: int|
            0 <= i < recs@.len() implies #[trigger] recs_view(recs@)[i] == parsed_records(ls)[i] by {
            assert(ls[i] == lines@[i]@);
            assert(line_record(lines@[i]@) == Some(recs@[i]@));
        }
        assert(recs_view(recs@) =~= parsed_records(ls));
    }
    if recs.len() == 0 {
        return Ok(None);
    }
    let plan = make_plan(&recs);
    let ws = match crate::sheet::render(&plan, sheet) {
        Ok(ws) => ws,
        Err(e) => {
            return Err(e);
        },
    };
    let wb = crate::sheet::into_workbook(ws);
    Ok(Some(wb))
}

} // verus!
