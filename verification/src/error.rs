//! The error taxonomy of a conversion run.  Every failure aborts the run at
//! once; nothing is retried and no partial output is handed back.

use vstd::prelude::*;

verus! {

#[verifier::external_type_specification]
#[verifier::external_body]
pub struct ExXlsxError(rust_xlsxwriter::XlsxError);

/// Why a run failed.
#[derive(Debug)]
pub enum RunError {
    /// The caller-supplied row limit exceeds the format's ceiling.  Detected
    /// before any input line is looked at.
    Config,
    /// Some input line is not valid JSON; the underlying parse error is
    /// carried as serde_json reported it.
    Json(serde_json::Error),
    /// The worksheet could not be assembled: a bad sheet name, a cell outside
    /// the format's column range, or an over-long cell string.
    Xlsx(rust_xlsxwriter::XlsxError),
}

} // verus!
