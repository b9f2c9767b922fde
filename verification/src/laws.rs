//! The general guarantees of the converter, each stated over the same
//! models that the executable functions' contracts use.

use vstd::prelude::*;

verus! {

use crate::cells::{CellV, row_cells_v, pair_lookup, sheet_headers_model};
use crate::json::{FieldV, RecordV};
use crate::sheet::{SheetV, cell_at, sheet_cells_model};
use crate::schema::headers_model;
use crate::{parsed_records, run_headers, run_rows, taken_lines};

/// The shape of the finished sheet: one data row per ingested line, a
/// column per distinct key of the first record, every cell within the
/// header row or those data rows and within the header columns, and at
/// column `j` of the header row exactly the `j`-th header text whenever
/// that text is non-empty.
pub proof fn lemma_sheet_shape(ls: Seq<Seq<char>>)
    ensures
        run_rows(ls).len() == ls.len(),
        ls.len() > 0 ==> run_headers(ls) == headers_model(parsed_records(ls)[0]),
        forall|rc: (int, int)|
            #[trigger] sheet_cells_model(run_headers(ls), run_rows(ls)).dom().contains(rc) ==> (0
                <= rc.0 <= ls.len() && 0 <= rc.1 < run_headers(ls).len()),
        forall|j: int|
            0 <= j < run_headers(ls).len() && (#[trigger] run_headers(ls)[j]).len() > 0
                ==> sheet_cells_model(run_headers(ls), run_rows(ls))[(0, j)] == CellV::Text(
                run_headers(ls)[j],
            ),
{
    let hs = run_headers(ls);
    let rows = run_rows(ls);
    assert forall|rc: (int, int)|
        #[trigger] sheet_cells_model(hs, rows).dom().contains(rc) implies (0 <= rc.0 <= ls.len()
        && 0 <= rc.1 < hs.len()) by {
        assert(cell_at(hs, rows, rc.0, rc.1) is Some);
    }
}

/// The header list is decided by the first record alone: two runs whose
/// first records agree see the same columns, whatever follows.
pub proof fn lemma_first_record_schema(rv1: Seq<RecordV>, rv2: Seq<RecordV>)
    requires
        rv1.len() > 0,
        rv2.len() > 0,
        rv1[0] == rv2[0],
    ensures
        sheet_headers_model(rv1) == sheet_headers_model(rv2),
{
}

/// A row whose object has no pair under a header's key gets no cell in that
/// column; the lookup yields nothing rather than an error.
pub proof fn lemma_missing_key(
    pairs: Seq<(Seq<char>, FieldV)>,
    headers: Seq<Seq<char>>,
    j: int,
)
    requires
        0 <= j < headers.len(),
        forall|k: int| 0 <= k < pairs.len() ==> (#[trigger] pairs[k]).0 != headers[j],
    ensures
        pair_lookup(pairs, headers[j]) is None,
        row_cells_v(RecordV::Obj(pairs), headers)[j] is None,
{
    lemma_lookup_absent(pairs, headers[j]);
}

/// A lookup over pairs none of which carries the key finds nothing.
pub proof fn lemma_lookup_absent(pairs: Seq<(Seq<char>, FieldV)>, key: Seq<char>)
    requires
        forall|k: int| 0 <= k < pairs.len() ==> (#[trigger] pairs[k]).0 != key,
    ensures
        pair_lookup(pairs, key) is None,
    decreases pairs.len(),
{
    if pairs.len() > 0 {
        assert(pairs[0].0 != key);
        assert forall|k: int| 0 <= k < pairs.drop_first().len() implies (#[trigger] pairs.drop_first()[
        k]).0 != key by {
            assert(pairs.drop_first()[k] == pairs[k + 1]);
        }
        lemma_lookup_absent(pairs.drop_first(), key);
    }
}

/// Truncation: a run looks at the first `limit` lines only.  Cutting the
/// input there changes nothing, so no later line is ever reflected.
pub proof fn lemma_truncation(lines: Seq<Seq<char>>, limit: u32)
    ensures
        lines.len() >= limit ==> taken_lines(lines, limit) == lines.take(limit as int),
        taken_lines(taken_lines(lines, limit), limit) == taken_lines(lines, limit),
{
    if lines.len() >= limit {
        assert(taken_lines(lines, limit) =~= lines.take(limit as int));
    }
    assert(taken_lines(taken_lines(lines, limit), limit) =~= taken_lines(lines, limit));
}

/// Idempotence: the sheet of a run is a function of the input lines and the
/// configuration alone, so two runs over the same input and configuration
/// determine equal sheet names, headers and cells.
pub proof fn lemma_idempotent(
    m1: Seq<SheetV>,
    m2: Seq<SheetV>,
    lines: Seq<Seq<char>>,
    sheet: Seq<char>,
    limit: u32,
)
    requires
        m1 == seq![
            SheetV {
                title: sheet,
                cells: sheet_cells_model(
                    run_headers(taken_lines(lines, limit)),
                    run_rows(taken_lines(lines, limit)),
                ),
            },
        ],
        m2 == seq![
            SheetV {
                title: sheet,
                cells: sheet_cells_model(
                    run_headers(taken_lines(lines, limit)),
                    run_rows(taken_lines(lines, limit)),
                ),
            },
        ],
    ensures
        m1 == m2,
{
}

} // verus!
