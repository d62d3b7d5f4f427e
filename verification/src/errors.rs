//! Row-scoped decode failures.
//!
//! Every failure is attributable to exactly one row and, where meaningful,
//! one column; row and column numbers are 1-based.  The variants fall into
//! four classes: structural (missing cells, unparseable text), type (a
//! numeric cell that is not a number), range (a component outside its
//! domain), and reference (a code or key that a supplied lookup table does
//! not resolve).  Each variant carries the offending raw value or key so an
//! operator can locate and fix the source row.

use vstd::prelude::*;

use crate::datetime::DateTimeError;
use crate::models::RawAccidentIdentifier;

verus! {

/// Why decoding one row of an input file failed.
#[derive(Debug, Clone, PartialEq, Eq)]
pub enum DecodeError {
    /// Structural: the row has fewer cells than the decode requires.
    ColumnOutOfRange { row: usize },
    /// Type: the cell at `column` must be numeric and is not.
    NonNumericValue { row: usize, column: usize },
    /// Range: a date-time or time-of-day component at the column group
    /// starting at `column` is outside its domain.
    DateTimeOutOfRange { row: usize, column: usize, error: DateTimeError },
    /// Range: the combined route field is too short to split into route
    /// code and route class code.
    MalformedRoute { row: usize, value: String },
    /// Range: the packed degree-minute-second angle at `column` is
    /// malformed.
    MalformedAngle { row: usize, column: usize, value: String },
    /// Reference: the combined administrative code has no mapping in the
    /// supplied table.
    CityCodeNotFound { row: usize, code: String },
    /// Reference: the composite natural key matches no accident decoded
    /// from the primary file.
    AccidentNotFound { row: usize, identifier: RawAccidentIdentifier },
    /// Structural: the delimited text of the file itself could not be
    /// parsed into rows.
    MalformedText,
}

} // verus!
