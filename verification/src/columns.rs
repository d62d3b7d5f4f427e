//! The column decoder: one typed scalar from one cell of a parsed row.
//!
//! A row is an ordered sequence of string cells; fields are addressed purely
//! by zero-based column index.  Extraction fails structurally when the row
//! has fewer cells than required, and with a type error when a numeric cell
//! does not parse.  Errors carry the 1-based row number and, for numeric
//! cells, the 1-based column number.

use vstd::prelude::*;

use crate::digits::{parse_i32, spec_parse_i32};
use crate::errors::DecodeError;

verus! {

/// Reads the cell at `column_index` verbatim.
///
/// Succeeds exactly when the column exists; otherwise reports the row as
/// structurally short.
pub fn read_str_column(row: &Vec<String>, row_index: usize, column_index: usize) -> (r: Result<
    String,
    DecodeError,
>)
    requires
        row_index < usize::MAX,
    ensures
        r == (if column_index < row@.len() {
            Ok::<String, DecodeError>(row@[column_index as int])
        } else {
            Err(DecodeError::ColumnOutOfRange { row: (row_index + 1) as usize })
        }),
{
    if column_index < row.len() {
        Ok(row[column_index].clone())
    } else {
        Err(DecodeError::ColumnOutOfRange { row: row_index + 1 })
    }
}

/// Reads the cell at `column_index`, treating an empty cell as absent.
///
/// Succeeds exactly when the column exists: with `None` for an empty cell
/// and `Some` of the verbatim cell otherwise.
pub fn read_optional_str_column(row: &Vec<String>, row_index: usize, column_index: usize) -> (r:
    Result<Option<String>, DecodeError>)
    requires
        row_index < usize::MAX,
    ensures
        column_index < row@.len() ==> r == (if row@[column_index as int]@.len() == 0 {
            Ok::<Option<String>, DecodeError>(None)
        } else {
            Ok(Some(row@[column_index as int]))
        }),
        column_index >= row@.len() ==> r == Err::<Option<String>, DecodeError>(
            DecodeError::ColumnOutOfRange { row: (row_index + 1) as usize },
        ),
{
    if column_index < row.len() {
        if row[column_index].as_str().is_empty() {
            Ok(None)
        } else {
            Ok(Some(row[column_index].clone()))
        }
    } else {
        Err(DecodeError::ColumnOutOfRange { row: row_index + 1 })
    }
}

/// The 32-bit value of the cell at `column_index` of `rowv`, when it is an
/// optionally signed digit string in range.
pub open spec fn spec_i32_cell(rowv: Seq<Seq<char>>, column_index: int) -> Option<i32> {
    spec_parse_i32(rowv[column_index])
}

/// The outcome of reading the cell at `ci` of a row with 1-based number
/// `ri + 1` as a base-10 signed 32-bit integer: a missing column is
/// structural, an unparseable cell a type error carrying the 1-based row
/// and column numbers.
pub open spec fn spec_read_i32_column(rowv: Seq<Seq<char>>, ri: int, ci: int) -> Result<
    i32,
    DecodeError,
> {
    if ci < rowv.len() {
        match spec_i32_cell(rowv, ci) {
            Some(v) => Ok(v),
            None => Err(
                DecodeError::NonNumericValue { row: (ri + 1) as usize, column: (ci + 1) as usize },
            ),
        }
    } else {
        Err(DecodeError::ColumnOutOfRange { row: (ri + 1) as usize })
    }
}

/// Reads the cell at `column_index` as a base-10 signed 32-bit integer.
///
/// Succeeds exactly when the column exists and the cell parses.
pub fn read_i32_column(row: &Vec<String>, row_index: usize, column_index: usize) -> (r: Result<
    i32,
    DecodeError,
>)
    requires
        row_index < usize::MAX,
        column_index < usize::MAX,
    ensures
        r == spec_read_i32_column(row.deep_view(), row_index as int, column_index as int),
{
    if column_index < row.len() {
        proof {
            assert(row.deep_view()[column_index as int] == row@[column_index as int]@);
        }
        match parse_i32(row[column_index].as_str()) {
            Some(v) => Ok(v),
            None => Err(
                DecodeError::NonNumericValue { row: row_index + 1, column: column_index + 1 },
            ),
        }
    } else {
        Err(DecodeError::ColumnOutOfRange { row: row_index + 1 })
    }
}

} // verus!
