//! Auto-fit scan bounds and failure reasons. The measurement itself runs on
//! host text metrics; this module bounds which cells it scans and names why
//! it could not produce a measurement.

use vstd::prelude::*;

use crate::address::{clamp_i32, imin, saturating_add_i32};

verus! {

/// Upper bound on cells scanned per auto-fit, so one double-click cannot
/// re-measure hundreds of thousands of cells.
pub const FIT_SCAN_CAP: i32 = 20000;

/// Bound an inclusive used-range span `[first, last]` to at most
/// [`FIT_SCAN_CAP`] entries, keeping the entries nearest `first`. An
/// inverted span is returned unchanged, so the caller's scan runs zero
/// times.
pub fn capped_range(first: i32, last: i32) -> (r: (i32, i32))
    ensures
        first > last ==> r == (first, last),
        first <= last ==> r == (first, imin(last as int, clamp_i32(first + FIT_SCAN_CAP - 1)) as i32),
{
    if first > last {
        return (first, last);
    }
    let cap_last = saturating_add_i32(first, FIT_SCAN_CAP - 1);
    (first, if last <= cap_last { last } else { cap_last })
}

/// Why an auto-fit could not produce a measurement. A failed read is not
/// an empty span: the host must not apply "no content" to a column whose
/// extents it could not read.
#[derive(Debug, Clone, Copy, PartialEq, Eq, Structural)]
pub enum AutoFitError {
    /// No model is bound, so there is nothing to measure.
    NoModel,
    /// The selected-sheet read failed.
    SelectedSheet,
    /// A column-width read failed or cannot be a slot extent.
    ColumnExtent,
    /// A formatted cell value could not be read.
    CellValue,
    /// A non-empty cell's style could not be read.
    CellStyle,
}

/// The human-readable message of `e`.
pub open spec fn autofit_message(e: AutoFitError) -> Seq<char> {
    match e {
        AutoFitError::NoModel => "no model is bound to measure"@,
        AutoFitError::SelectedSheet => "the selected-sheet read failed"@,
        AutoFitError::ColumnExtent => "a column width could not be read as a valid extent"@,
        AutoFitError::CellValue => "a formatted cell value could not be read"@,
        AutoFitError::CellStyle => "a cell style could not be read"@,
    }
}

impl AutoFitError {
    /// The human-readable message.
    pub fn message(self) -> (m: &'static str)
        ensures
            m@ == autofit_message(self),
    {
        match self {
            AutoFitError::NoModel => "no model is bound to measure",
            AutoFitError::SelectedSheet => "the selected-sheet read failed",
            AutoFitError::ColumnExtent => "a column width could not be read as a valid extent",
            AutoFitError::CellValue => "a formatted cell value could not be read",
            AutoFitError::CellStyle => "a cell style could not be read",
        }
    }
}

} // verus!
