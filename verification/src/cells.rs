//! Cell serialization: the type-directed mapping from one JSON value to the
//! spreadsheet cell it becomes, and the assembly of one data row per record.
//!
//! The mapping is an exhaustive match: a string is written verbatim as text;
//! a number becomes a numeric cell holding its double value, falling back to
//! its canonical decimal text when it reports no double; a boolean is written
//! verbatim; `null` becomes an explicitly empty text; a nested array or
//! object becomes its canonical JSON text.  A record that is not an object,
//! or an object without the header's key, yields no cell at all.

use vstd::prelude::*;

verus! {

use crate::json::{
    Field,
    FieldV,
    Record,
    RecordV,
    number_float_bits,
    f64_bits_finite,
    num_float_bits,
    num_canonical_text,
    pairs_view,
    recs_view,
};
use crate::schema::{strings_view, headers_model};

/// One spreadsheet cell value.
#[derive(Debug, Clone, PartialEq)]
pub enum Cell {
    /// A text cell.
    Text(String),
    /// A numeric cell: the finite double value of this JSON number.
    Num(serde_json::Number),
    /// A boolean cell.
    Bool(bool),
}

/// The mathematical shape of a `Cell`; a numeric cell is the double whose
/// IEEE-754 bits these are.
pub enum CellV {
    Text(Seq<char>),
    Num(u64),
    Bool(bool),
}

impl View for Cell {
    type V = CellV;

    open spec fn view(&self) -> CellV {
        match self {
            Cell::Text(s) => CellV::Text(s@),
            Cell::Num(n) => CellV::Num(number_float_bits(*n).unwrap()),
            Cell::Bool(b) => CellV::Bool(*b),
        }
    }
}

/// A numeric cell must actually hold a finite double.
pub open spec fn cell_num_ok(c: Cell) -> bool {
    c matches Cell::Num(n) ==> number_float_bits(n) matches Some(b) && f64_bits_finite(b)
}

/// The cell a present field value becomes.
pub open spec fn field_cell_v(f: FieldV) -> CellV {
    match f {
        FieldV::Null => CellV::Text(Seq::empty()),
        FieldV::Bool(b) => CellV::Bool(b),
        FieldV::Num { bits, text } => match bits {
            Option::Some(b) => CellV::Num(b),
            Option::None => CellV::Text(text),
        },
        FieldV::Text(s) => CellV::Text(s),
        FieldV::Composite(s) => CellV::Text(s),
    }
}

/// The first value stored under `key`, if the object has that key.
pub open spec fn pair_lookup(pairs: Seq<(Seq<char>, FieldV)>, key: Seq<char>) -> Option<FieldV>
    decreases pairs.len(),
{
    if pairs.len() == 0 {
        Option::None
    } else if pairs.first().0 == key {
        Option::Some(pairs.first().1)
    } else {
        pair_lookup(pairs.drop_first(), key)
    }
}

/// The cells of one data row: per header position, the serialized value
/// under that header's key, or nothing when the record is not an object or
/// lacks the key.
pub open spec fn row_cells_v(r: RecordV, headers: Seq<Seq<char>>) -> Seq<Option<CellV>> {
    Seq::new(
        headers.len(),
        |j: int|
            match r {
                RecordV::Obj(pairs) => match pair_lookup(pairs, headers[j]) {
                    Option::Some(f) => Option::Some(field_cell_v(f)),
                    Option::None => Option::None,
                },
                RecordV::Other => Option::None,
            },
    )
}

/// The view of one built row.
pub open spec fn cells_view(v: Seq<Option<Cell>>) -> Seq<Option<CellV>> {
    Seq::new(
        v.len(),
        |j: int|
            match v[j] {
                Option::Some(c) => Option::Some(c@),
                Option::None => Option::None,
            },
    )
}

impl Cell {
    /// The IEEE-754 bits of a numeric cell's double value, and nothing for
    /// a text or boolean cell.
    pub fn float_bits(&self) -> (r: Option<u64>)
        ensures
            cell_num_ok(*self) ==> r == (match self@ {
                CellV::Num(b) => Option::Some(b),
                _ => Option::None::<u64>,
            }),
            r matches Some(b) ==> self@ == CellV::Num(b),
    {
        match self {
            Cell::Num(n) => num_float_bits(n),
            _ => None,
        }
    }
}

/// Serialize one present field value into its cell.
pub fn field_cell(f: &Field) -> (r: Cell)
    ensures
        r@ == field_cell_v(f@),
        cell_num_ok(r),
{
    match f {
        Field::Null => Cell::Text(String::new()),
        Field::Bool(b) => Cell::Bool(*b),
        Field::Num(n) => match num_float_bits(n) {
            Option::Some(_) => Cell::Num(n.clone()),
            Option::None => Cell::Text(num_canonical_text(n)),
        },
        Field::Text(s) => Cell::Text(s.clone()),
        Field::Composite(s) => Cell::Text(s.clone()),
    }
}

/// Find the value stored under `key`, first occurrence winning.
fn lookup_field<'a>(pairs: &'a Vec<(String, Field)>, key: &String) -> (r: Option<&'a Field>)
    ensures
        match r {
            Option::Some(f) => pair_lookup(pairs_view(pairs@), key@) == Option::Some(f@),
            Option::None => pair_lookup(pairs_view(pairs@), key@) is None,
        },
{
    let ghost pv = pairs_view(pairs@);
    proof {
        assert(pv.skip(0) =~= pv);
    }
    let mut i: usize = 0;
    while i < pairs.len()
        invariant
            pv == pairs_view(pairs@),
            0 <= i <= pairs@.len(),
            pair_lookup(pv, key@) == pair_lookup(pv.skip(i as int), key@),
        decreases pairs@.len() - i,
    {
        proof {
            assert(pv.skip(i as int).first() == pv[i as int]);
            assert(pv.skip(i as int).drop_first() =~= pv.skip(i as int + 1));
        }
        if pairs[i].0 == *key {
            return Some(&pairs[i].1);
        }
        i += 1;
    }
    proof {
        assert(pv.skip(pairs@.len() as int).len() == 0);
    }
    None
}

/// Build the cells of one data row, in header order.
pub fn record_row(rec: &Record, headers: &Vec<String>) -> (r: Vec<Option<Cell>>)
    ensures
        cells_view(r@) == row_cells_v(rec@, strings_view(headers@)),
        r@.len() == headers@.len(),
        forall|j: int|
            0 <= j < r@.len() ==> (#[trigger] r@[j] matches Some(c) ==> cell_num_ok(c)),
{
    let mut row: Vec<Option<Cell>> = Vec::new();
    let mut j: usize = 0;
    while j < headers.len()
        invariant
            0 <= j <= headers@.len(),
            row@.len() == j,
            cells_view(row@) == row_cells_v(rec@, strings_view(headers@)).take(j as int),
            forall|k: int|
                0 <= k < j ==> (#[trigger] row@[k] matches Some(c) ==> cell_num_ok(c)),
        decreases headers@.len() - j,
    {
        let cell: Option<Cell> = match rec {
            Record::Other => None,
            Record::Obj(pairs) => match lookup_field(pairs, &headers[j]) {
                Option::Some(f) => Some(field_cell(f)),
                Option::None => None,
            },
        };
        row.push(cell);
        proof {
            assert(strings_view(headers@)[j as int] == headers@[j as int]@);
            assert(cells_view(row@) =~= row_cells_v(rec@, strings_view(headers@)).take(
                j as int + 1,
            ));
        }
        j += 1;
    }
    proof {
        assert(row_cells_v(rec@, strings_view(headers@)).take(headers@.len() as int)
            =~= row_cells_v(rec@, strings_view(headers@)));
    }
    row
}

/// The in-memory sheet a run plans to write: the header list and one cell
/// row per record.
#[derive(Debug, Clone, PartialEq)]
pub struct SheetPlan {
    pub headers: Vec<String>,
    pub rows: Vec<Vec<Option<Cell>>>,
}

/// The views of the planned rows.
pub open spec fn plan_rows_view(rows: Seq<Vec<Option<Cell>>>) -> Seq<Seq<Option<CellV>>> {
    Seq::new(rows.len(), |i: int| cells_view(rows[i]@))
}

/// The header list of a run: the first record decides; no record, no
/// headers.
pub open spec fn sheet_headers_model(rv: Seq<RecordV>) -> Seq<Seq<char>> {
    if rv.len() == 0 {
        Seq::empty()
    } else {
        headers_model(rv[0])
    }
}

/// The data rows of a run, one per record, in input order.
pub open spec fn sheet_rows_model(rv: Seq<RecordV>) -> Seq<Seq<Option<CellV>>> {
    Seq::new(rv.len(), |i: int| row_cells_v(rv[i], sheet_headers_model(rv)))
}

/// Every planned row spans exactly the header columns, and every planned
/// numeric cell holds a finite double.
pub open spec fn plan_shape_ok(p: SheetPlan) -> bool {
    &&& forall|i: int|
        0 <= i < p.rows@.len() ==> (#[trigger] p.rows@[i])@.len() == p.headers@.len()
    &&& forall|i: int, j: int|
        0 <= i < p.rows@.len() && 0 <= j < p.rows@[i]@.len() ==> (#[trigger] p.rows@[i]@[j] matches
            Some(c) ==> cell_num_ok(c))
}

/// Build the whole plan: infer the headers from the first record, then
/// serialize one row per record.
pub fn make_plan(recs: &Vec<Record>) -> (p: SheetPlan)
    ensures
        strings_view(p.headers@) == sheet_headers_model(recs_view(recs@)),
        plan_rows_view(p.rows@) == sheet_rows_model(recs_view(recs@)),
        p.rows@.len() == recs@.len(),
        plan_shape_ok(p),
{
    let ghost rv = recs_view(recs@);
    let headers: Vec<String> = if recs.len() == 0 {
        Vec::new()
    } else {
        crate::schema::infer_headers(&recs[0])
    };
    proof {
        if recs@.len() == 0 {
            assert(strings_view(headers@) =~= sheet_headers_model(rv));
        } else {
            assert(rv[0] == recs@[0]@);
        }
    }
    let mut rows: Vec<Vec<Option<Cell>>> = Vec::new();
    let mut i: usize = 0;
    while i < recs.len()
        invariant
            rv == recs_view(recs@),
            strings_view(headers@) == sheet_headers_model(rv),
            0 <= i <= recs@.len(),
            rows@.len() == i,
            forall|k: int|
                0 <= k < i ==> cells_view(#[trigger] rows@[k]@) == row_cells_v(
                    rv[k],
                    sheet_headers_model(rv),
                ),
            forall|k: int| 0 <= k < i ==> (#[trigger] rows@[k])@.len() == headers@.len(),
            forall|k: int, j: int|
                0 <= k < i && 0 <= j < rows@[k]@.len() ==> (#[trigger] rows@[k]@[j] matches Some(c)
                    ==> cell_num_ok(c)),
        decreases recs@.len() - i,
    {
        proof {
            assert(rv[i as int] == recs@[i as int]@);
        }
        let row = record_row(&recs[i], &headers);
        rows.push(row);
        i += 1;
    }
    let p = SheetPlan { headers, rows };
    proof {
        assert(plan_rows_view(p.rows@) =~= sheet_rows_model(rv));
    }
    p
}

} // verus!
