//! Ingestion of JSONL records.
//!
//! One input line is parsed as one JSON value.  The converter only ever looks
//! at the top level of such a value: whether it is an object, the keys of that
//! object, and, per key, the scalar content of the value (or its canonical
//! JSON text when it is a nested array or object).  `Record` and `Field` hold
//! exactly that flattened shape as plain data.

use vstd::prelude::*;

verus! {

#[verifier::external_type_specification]
#[verifier::external_body]
pub struct ExJsonError(serde_json::Error);

#[verifier::external_type_specification]
#[verifier::external_body]
pub struct ExJsonNumber(serde_json::Number);

/// What parsing one input line yields: `None` when the line is not valid
/// JSON, otherwise the flattened top-level shape of the parsed value.
pub uninterp spec fn line_record(s: Seq<char>) -> Option<RecordV>;

/// The IEEE-754 bit pattern of the double value a JSON number reports, if it
/// reports one.  The bits stand in for the double itself, which has no place
/// in specifications here.
pub uninterp spec fn number_float_bits(n: serde_json::Number) -> Option<u64>;

/// The canonical decimal text of a JSON number.
pub uninterp spec fn number_text(n: serde_json::Number) -> Seq<char>;

/// True when the bit pattern encodes a finite double (the exponent field is
/// not all ones, which would mean an infinity or a NaN).
pub open spec fn f64_bits_finite(bits: u64) -> bool {
    (bits >> 52) & 0x7ff != 0x7ff
}

/// The value found under one key of an object-shaped record.
#[derive(Debug, Clone, PartialEq)]
pub enum Field {
    /// JSON `null`.
    Null,
    /// A JSON boolean.
    Bool(bool),
    /// A JSON number, kept as parsed.
    Num(serde_json::Number),
    /// A JSON string.
    Text(String),
    /// A nested array or object, flattened to its canonical JSON text.
    Composite(String),
}

/// The mathematical shape of a `Field`.
pub enum FieldV {
    Null,
    Bool(bool),
    Num { bits: Option<u64>, text: Seq<char> },
    Text(Seq<char>),
    Composite(Seq<char>),
}

/// One parsed input line.  Only object-shaped values contribute headers and
/// cells; every other value is carried as `Other`.
#[derive(Debug, Clone, PartialEq)]
pub enum Record {
    /// An object: its key/value pairs in the order serde_json iterates them.
    Obj(Vec<(String, Field)>),
    /// Any non-object value (scalar or array at the top level).
    Other,
}

/// The mathematical shape of a `Record`.
pub enum RecordV {
    Obj(Seq<(Seq<char>, FieldV)>),
    Other,
}

impl View for Field {
    type V = FieldV;

    open spec fn view(&self) -> FieldV {
        match self {
            Field::Null => FieldV::Null,
            Field::Bool(b) => FieldV::Bool(*b),
            Field::Num(n) => FieldV::Num { bits: number_float_bits(*n), text: number_text(*n) },
            Field::Text(s) => FieldV::Text(s@),
            Field::Composite(s) => FieldV::Composite(s@),
        }
    }
}

/// The view of an object's key/value pairs.
pub open spec fn pairs_view(v: Seq<(String, Field)>) -> Seq<(Seq<char>, FieldV)> {
    Seq::new(v.len(), |i: int| (v[i].0@, v[i].1@))
}

/// The views of a sequence of records.
pub open spec fn recs_view(rs: Seq<Record>) -> Seq<RecordV> {
    Seq::new(rs.len(), |i: int| rs[i]@)
}

impl View for Record {
    type V = RecordV;

    open spec fn view(&self) -> RecordV {
        match self {
            Record::Obj(pairs) => RecordV::Obj(pairs_view(pairs@)),
            Record::Other => RecordV::Other,
        }
    }
}

/// Relies on `serde_json::from_str::<serde_json::Value>` to parse one line,
/// on `serde_json::Map` iteration for the key order of an object, and on
/// `serde_json::Value::to_string` for the canonical text of a nested array
/// or object.  All of these depend on the line's characters alone, so the
/// whole result is `line_record` of the line.
#[verifier::external_body]
pub(crate) fn parse_record(line: &str) -> (r: Result<Record, serde_json::Error>)
    ensures
        r matches Ok(rec) ==> line_record(line@) == Some(rec@),
        r is Err ==> line_record(line@) is None,
{
    let v: serde_json::Value = serde_json::from_str(line)?;
    match v {
        serde_json::Value::Object(m) => Ok(Record::Obj(m.into_iter().map(|(k, f)| (k, match f {
            serde_json::Value::Null => Field::Null,
            serde_json::Value::Bool(b) => Field::Bool(b),
            serde_json::Value::Number(n) => Field::Num(n),
            serde_json::Value::String(s) => Field::Text(s),
            f => Field::Composite(f.to_string()),
        })).collect())),
        _ => Ok(Record::Other),
    }
}

/// Relies on `serde_json::Number::as_f64` and `f64::to_bits`.  Every number
/// this serde_json build stores has a finite double value — the parser
/// rejects out-of-range literals and `Number::from_f64` rejects non-finite
/// input — so a `Some` result always carries finite bits.
#[verifier::external_body]
pub(crate) fn num_float_bits(n: &serde_json::Number) -> (r: Option<u64>)
    ensures
        r == number_float_bits(*n),
        r matches Some(b) ==> f64_bits_finite(b),
{
    match n.as_f64() {
        Some(f) => Some(f.to_bits()),
        None => None,
    }
}

/// Relies on `serde_json::Number::to_string` (via `Display`): the canonical
/// decimal text, a function of the number alone.
#[verifier::external_body]
pub(crate) fn num_canonical_text(n: &serde_json::Number) -> (r: String)
    ensures
        r@ == number_text(*n),
{
    n.to_string()
}

/// Relies on the derived `Clone` of `serde_json::Number`: the clone is equal
/// to its source, so it reports the same double bits and the same text.
pub assume_specification[ <serde_json::Number as Clone>::clone ](
    n: &serde_json::Number,
) -> (r: serde_json::Number)
    ensures
        number_float_bits(r) == number_float_bits(*n),
        number_text(r) == number_text(*n),
;

} // verus!
