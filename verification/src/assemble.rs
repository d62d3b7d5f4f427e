//! Field assemblers: several adjacent columns combined into one value.
//!
//! Date-times take five adjacent numeric columns, times of day two, and a
//! geographic point two adjacent packed angle strings.  Each assembler is
//! parameterized by its starting column so one implementation serves every
//! occurrence in a row.  Checks run structure first (all columns present),
//! then types (numeric cells parse), then ranges; errors carry the 1-based
//! row number and the 1-based column number of the offending cell (for a
//! range error, of the first column of the group).

use vstd::prelude::*;

use crate::columns::{read_i32_column, read_str_column, spec_i32_cell};
use crate::datetime::{
    offset_datetime, spec_datetime_error, spec_time_error, time, OffsetDateTime, Time,
};
use crate::errors::DecodeError;
use crate::geo::{dms_to_latitude, dms_to_longitude, spec_dms_to_angle, GeoPoint};

verus! {

/// Index of the first of the five cells starting at `ci` that does not
/// parse as a 32-bit integer; -1 when all five parse.
pub open spec fn first_non_numeric_5(rowv: Seq<Seq<char>>, ci: int) -> int {
    if spec_i32_cell(rowv, ci) is None {
        ci
    } else if spec_i32_cell(rowv, ci + 1) is None {
        ci + 1
    } else if spec_i32_cell(rowv, ci + 2) is None {
        ci + 2
    } else if spec_i32_cell(rowv, ci + 3) is None {
        ci + 3
    } else if spec_i32_cell(rowv, ci + 4) is None {
        ci + 4
    } else {
        -1
    }
}

/// Index of the first of the two cells starting at `ci` that does not
/// parse as a 32-bit integer; -1 when both parse.
pub open spec fn first_non_numeric_2(rowv: Seq<Seq<char>>, ci: int) -> int {
    if spec_i32_cell(rowv, ci) is None {
        ci
    } else if spec_i32_cell(rowv, ci + 1) is None {
        ci + 1
    } else {
        -1
    }
}

/// The date-time assembled from the five columns starting at `ci`,
/// meaningful when they parse.
pub open spec fn spec_datetime_value(rowv: Seq<Seq<char>>, ci: int) -> OffsetDateTime {
    OffsetDateTime {
        year: spec_i32_cell(rowv, ci).unwrap(),
        month: spec_i32_cell(rowv, ci + 1).unwrap() as u8,
        day: spec_i32_cell(rowv, ci + 2).unwrap() as u8,
        hour: spec_i32_cell(rowv, ci + 3).unwrap() as u8,
        minute: spec_i32_cell(rowv, ci + 4).unwrap() as u8,
    }
}

/// The five columns starting at `ci` exist, parse, and form a valid
/// date-time.
pub open spec fn datetime_cols_ok(rowv: Seq<Seq<char>>, ci: int) -> bool {
    &&& rowv.len() >= ci + 5
    &&& first_non_numeric_5(rowv, ci) == -1
    &&& spec_datetime_error(
        spec_i32_cell(rowv, ci).unwrap(),
        spec_i32_cell(rowv, ci + 1).unwrap(),
        spec_i32_cell(rowv, ci + 2).unwrap(),
        spec_i32_cell(rowv, ci + 3).unwrap(),
        spec_i32_cell(rowv, ci + 4).unwrap(),
    ) is None
}

/// The outcome of assembling a date-time from the five columns starting at
/// `ci` of a row with 1-based number `ri + 1`.
pub open spec fn spec_read_datetime_columns(
    rowv: Seq<Seq<char>>,
    ri: int,
    ci: int,
) -> Result<OffsetDateTime, DecodeError> {
    if rowv.len() < ci + 5 {
        Err(DecodeError::ColumnOutOfRange { row: (ri + 1) as usize })
    } else if first_non_numeric_5(rowv, ci) >= 0 {
        Err(
            DecodeError::NonNumericValue {
                row: (ri + 1) as usize,
                column: (first_non_numeric_5(rowv, ci) + 1) as usize,
            },
        )
    } else {
        match spec_datetime_error(
            spec_i32_cell(rowv, ci).unwrap(),
            spec_i32_cell(rowv, ci + 1).unwrap(),
            spec_i32_cell(rowv, ci + 2).unwrap(),
            spec_i32_cell(rowv, ci + 3).unwrap(),
            spec_i32_cell(rowv, ci + 4).unwrap(),
        ) {
            Some(e) => Err(
                DecodeError::DateTimeOutOfRange {
                    row: (ri + 1) as usize,
                    column: (ci + 1) as usize,
                    error: e,
                },
            ),
            None => Ok(spec_datetime_value(rowv, ci)),
        }
    }
}

/// Assembles the occurrence date-time from the five adjacent numeric
/// columns starting at `column_index`.
pub fn read_datetime_columns(row: &Vec<String>, row_index: usize, column_index: usize) -> (r:
    Result<OffsetDateTime, DecodeError>)
    requires
        row_index < usize::MAX,
        column_index + 5 <= usize::MAX,
    ensures
        r == spec_read_datetime_columns(row.deep_view(), row_index as int, column_index as int),
        r matches Ok(dt) ==> dt.wf(),
{
    if row.len() < column_index + 5 {
        return Err(DecodeError::ColumnOutOfRange { row: row_index + 1 });
    }
    let year = read_i32_column(row, row_index, column_index)?;
    let month = read_i32_column(row, row_index, column_index + 1)?;
    let day = read_i32_column(row, row_index, column_index + 2)?;
    let hour = read_i32_column(row, row_index, column_index + 3)?;
    let minute = read_i32_column(row, row_index, column_index + 4)?;
    match offset_datetime(year, month, day, hour, minute) {
        Ok(dt) => Ok(dt),
        Err(e) => Err(
            DecodeError::DateTimeOutOfRange {
                row: row_index + 1,
                column: column_index + 1,
                error: e,
            },
        ),
    }
}

/// The time of day assembled from the two columns starting at `ci`,
/// meaningful when they parse.
pub open spec fn spec_time_value(rowv: Seq<Seq<char>>, ci: int) -> Time {
    Time {
        hour: spec_i32_cell(rowv, ci).unwrap() as u8,
        minute: spec_i32_cell(rowv, ci + 1).unwrap() as u8,
    }
}

/// The two columns starting at `ci` exist, parse, and form a valid time of
/// day.
pub open spec fn time_cols_ok(rowv: Seq<Seq<char>>, ci: int) -> bool {
    &&& rowv.len() >= ci + 2
    &&& first_non_numeric_2(rowv, ci) == -1
    &&& spec_time_error(
        spec_i32_cell(rowv, ci).unwrap(),
        spec_i32_cell(rowv, ci + 1).unwrap(),
    ) is None
}

/// The outcome of assembling a time of day from the two columns starting at
/// `ci` of a row with 1-based number `ri + 1`.
pub open spec fn spec_read_time_columns(rowv: Seq<Seq<char>>, ri: int, ci: int) -> Result<
    Time,
    DecodeError,
> {
    if rowv.len() < ci + 2 {
        Err(DecodeError::ColumnOutOfRange { row: (ri + 1) as usize })
    } else if first_non_numeric_2(rowv, ci) >= 0 {
        Err(
            DecodeError::NonNumericValue {
                row: (ri + 1) as usize,
                column: (first_non_numeric_2(rowv, ci) + 1) as usize,
            },
        )
    } else {
        match spec_time_error(
            spec_i32_cell(rowv, ci).unwrap(),
            spec_i32_cell(rowv, ci + 1).unwrap(),
        ) {
            Some(e) => Err(
                DecodeError::DateTimeOutOfRange {
                    row: (ri + 1) as usize,
                    column: (ci + 1) as usize,
                    error: e,
                },
            ),
            None => Ok(spec_time_value(rowv, ci)),
        }
    }
}

/// Assembles a time of day from the two adjacent numeric columns starting
/// at `column_index`; serves both the sunrise and the sunset field.
pub fn read_time_columns(row: &Vec<String>, row_index: usize, column_index: usize) -> (r: Result<
    Time,
    DecodeError,
>)
    requires
        row_index < usize::MAX,
        column_index + 2 <= usize::MAX,
    ensures
        r == spec_read_time_columns(row.deep_view(), row_index as int, column_index as int),
        r matches Ok(t) ==> t.wf(),
{
    if row.len() < column_index + 2 {
        return Err(DecodeError::ColumnOutOfRange { row: row_index + 1 });
    }
    let hour = read_i32_column(row, row_index, column_index)?;
    let minute = read_i32_column(row, row_index, column_index + 1)?;
    match time(hour, minute) {
        Ok(t) => Ok(t),
        Err(e) => Err(
            DecodeError::DateTimeOutOfRange {
                row: row_index + 1,
                column: column_index + 1,
                error: e,
            },
        ),
    }
}

/// Assembles a geographic point from the packed latitude at `column_index`
/// and the packed longitude at `column_index + 1`.
///
/// Succeeds exactly when both cells exist and both packed angles are
/// well formed; a malformed angle is reported with its column and its raw
/// value rather than truncated.
pub fn read_point_column(row: &Vec<String>, row_index: usize, column_index: usize) -> (r: Result<
    GeoPoint,
    DecodeError,
>)
    requires
        row_index < usize::MAX,
        column_index + 2 <= usize::MAX,
    ensures
        ({
            let rowv = row.deep_view();
            let ci = column_index as int;
            if rowv.len() < ci + 2 {
                r == Err::<GeoPoint, DecodeError>(
                    DecodeError::ColumnOutOfRange { row: (row_index + 1) as usize },
                )
            } else if spec_dms_to_angle(rowv[ci], 2) is None {
                r matches Err(DecodeError::MalformedAngle { row, column, value }) && row
                    == row_index + 1 && column == column_index + 1 && value@ == rowv[ci]
            } else if spec_dms_to_angle(rowv[ci + 1], 3) is None {
                r matches Err(DecodeError::MalformedAngle { row, column, value }) && row
                    == row_index + 1 && column == column_index + 2 && value@ == rowv[ci + 1]
            } else {
                r == Ok::<GeoPoint, DecodeError>(
                    GeoPoint {
                        longitude_mas: spec_dms_to_angle(rowv[ci + 1], 3).unwrap(),
                        latitude_mas: spec_dms_to_angle(rowv[ci], 2).unwrap(),
                    },
                )
            }
        }),
{
    if row.len() < column_index + 2 {
        return Err(DecodeError::ColumnOutOfRange { row: row_index + 1 });
    }
    let lat_cell = read_str_column(row, row_index, column_index)?;
    let latitude_mas = match dms_to_latitude(lat_cell.as_str()) {
        Some(v) => v,
        None => {
            return Err(
                DecodeError::MalformedAngle {
                    row: row_index + 1,
                    column: column_index + 1,
                    value: lat_cell,
                },
            );
        },
    };
    let lon_cell = read_str_column(row, row_index, column_index + 1)?;
    let longitude_mas = match dms_to_longitude(lon_cell.as_str()) {
        Some(v) => v,
        None => {
            return Err(
                DecodeError::MalformedAngle {
                    row: row_index + 1,
                    column: column_index + 2,
                    value: lon_cell,
                },
            );
        },
    };
    Ok(GeoPoint { longitude_mas, latitude_mas })
}

} // verus!
