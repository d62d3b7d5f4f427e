//! Geographic points from packed degree-minute-second strings.
//!
//! Latitude and longitude arrive as fixed-width digit strings without
//! separators: 2 (latitude) or 3 (longitude) degree digits, 2 minute digits,
//! and the remaining digits as seconds scaled by 1000.  An angle is held
//! exactly in milli-arcseconds (1/3,600,000 of a degree), so that
//! `degrees + minutes/60 + (seconds_field/1000)/3600` equals
//! `milli_arcseconds / 3_600_000` as a rational number.  Malformed strings
//! (too short, a non-digit, or an oversized seconds field) are rejected
//! rather than truncated.

use vstd::prelude::*;

use crate::digits::{all_digits, digits_val, digits_value_below, lemma_digits_val_upper, pow10};

verus! {

/// A (longitude, latitude) pair, both in milli-arcseconds.
#[derive(Debug, Clone, Copy, PartialEq, Eq, Structural)]
pub struct GeoPoint {
    pub longitude_mas: u64,
    pub latitude_mas: u64,
}

/// A well-formed packed angle with `degree_width` degree digits: long enough
/// to hold degrees, minutes and a non-empty seconds field, digits throughout,
/// and a seconds field below 10^9 (so the angle fits a 64-bit integer).
pub open spec fn dms_ok(s: Seq<char>, degree_width: int) -> bool {
    &&& s.len() >= degree_width + 3
    &&& all_digits(s)
    &&& digits_val(s.skip(degree_width + 2)) < 1_000_000_000
}

/// The packed angle's value in milli-arcseconds.
pub open spec fn dms_mas(s: Seq<char>, degree_width: int) -> int {
    digits_val(s.take(degree_width)) * 3_600_000 + digits_val(
        s.subrange(degree_width, degree_width + 2),
    ) * 60_000 + digits_val(s.skip(degree_width + 2))
}

/// The decoded angle: its milli-arcsecond value on a well-formed string,
/// nothing otherwise.
pub open spec fn spec_dms_to_angle(s: Seq<char>, degree_width: int) -> Option<u64> {
    if dms_ok(s, degree_width) {
        Some(dms_mas(s, degree_width) as u64)
    } else {
        None
    }
}

/// Decodes a packed angle with `degree_width` degree digits.
fn dms_to_angle(s: &str, degree_width: usize) -> (r: Option<u64>)
    requires
        degree_width == 2 || degree_width == 3,
    ensures
        r == spec_dms_to_angle(s@, degree_width as int),
{
    let n = s.unicode_len();
    if n < degree_width + 3 {
        return None;
    }
    let ghost dw = degree_width as int;
    let ghost degrees_part = s@.take(dw);
    let ghost minutes_part = s@.subrange(dw, dw + 2);
    let ghost seconds_part = s@.skip(dw + 2);
    proof {
        assert(pow10(0) == 1);
        assert(pow10(1) == 10);
        assert(pow10(2) == 100);
        assert(pow10(3) == 1000);
        assert(s@.subrange(0, dw) =~= degrees_part);
        assert(s@.subrange(dw + 2, n as int) =~= seconds_part);
    }
    let degrees = match digits_value_below(s, 0, degree_width, 1_000) {
        Some(v) => v,
        None => {
            proof {
                if all_digits(degrees_part) {
                    lemma_digits_val_upper(degrees_part);
                } else {
                    let i = choose|i: int|
                        0 <= i < degrees_part.len() && !crate::digits::is_digit_char(
                            degrees_part[i],
                        );
                    assert(!crate::digits::is_digit_char(s@[i]));
                }
            }
            return None;
        },
    };
    let minutes = match digits_value_below(s, degree_width, degree_width + 2, 100) {
        Some(v) => v,
        None => {
            proof {
                if all_digits(minutes_part) {
                    lemma_digits_val_upper(minutes_part);
                } else {
                    let i = choose|i: int|
                        0 <= i < minutes_part.len() && !crate::digits::is_digit_char(
                            minutes_part[i],
                        );
                    assert(!crate::digits::is_digit_char(s@[dw + i]));
                }
            }
            return None;
        },
    };
    let seconds = match digits_value_below(s, degree_width + 2, n, 1_000_000_000) {
        Some(v) => v,
        None => {
            proof {
                if !all_digits(seconds_part) {
                    let i = choose|i: int|
                        0 <= i < seconds_part.len() && !crate::digits::is_digit_char(
                            seconds_part[i],
                        );
                    assert(!crate::digits::is_digit_char(s@[dw + 2 + i]));
                }
            }
            return None;
        },
    };
    proof {
        crate::digits::lemma_digits_val_nonneg(degrees_part);
        crate::digits::lemma_digits_val_nonneg(minutes_part);
        crate::digits::lemma_digits_val_nonneg(seconds_part);
        assert forall|i: int| 0 <= i < s@.len() implies crate::digits::is_digit_char(s@[i]) by {
            if i < dw {
                assert(s@[i] == degrees_part[i]);
            } else if i < dw + 2 {
                assert(s@[i] == minutes_part[i - dw]);
            } else {
                assert(s@[i] == seconds_part[i - dw - 2]);
            }
        }
    }
    Some(degrees * 3_600_000 + minutes * 60_000 + seconds)
}

/// Decodes a packed latitude: 2 degree digits, 2 minute digits, and the rest
/// as seconds scaled by 1000.  The result is in milli-arcseconds; divide by
/// 3,600,000 for decimal degrees.
pub fn dms_to_latitude(s: &str) -> (r: Option<u64>)
    ensures
        r == spec_dms_to_angle(s@, 2),
{
    dms_to_angle(s, 2)
}

/// Decodes a packed longitude: 3 degree digits, 2 minute digits, and the
/// rest as seconds scaled by 1000.  The result is in milli-arcseconds;
/// divide by 3,600,000 for decimal degrees.
pub fn dms_to_longitude(s: &str) -> (r: Option<u64>)
    ensures
        r == spec_dms_to_angle(s@, 3),
{
    dms_to_angle(s, 3)
}

} // verus!
