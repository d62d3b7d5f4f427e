//! Base-10 digit strings.
//!
//! Every numeric field of the dataset is a run of ASCII decimal digits,
//! optionally signed.  This module gives digit runs a mathematical value and
//! provides the bounded, overflow-checked readers that the column decoder
//! and the geocoordinate decoder build on.

use vstd::prelude::*;

verus! {

/// Whether `c` is an ASCII decimal digit.
pub open spec fn is_digit_char(c: char) -> bool {
    48 <= c as u32 && c as u32 <= 57
}

/// Numeric value of an ASCII decimal digit.
pub open spec fn digit_val(c: char) -> int {
    c as u32 - 48
}

/// Every character of `s` is an ASCII decimal digit.
pub open spec fn all_digits(s: Seq<char>) -> bool {
    forall|i: int| 0 <= i < s.len() ==> is_digit_char(s[i])
}

/// The base-10 value of a digit string; 0 for the empty string.
pub open spec fn digits_val(s: Seq<char>) -> int
    decreases s.len(),
{
    if s.len() == 0 {
        0
    } else {
        digits_val(s.drop_last()) * 10 + digit_val(s.last())
    }
}

/// 10 to the power `n`.
pub open spec fn pow10(n: nat) -> int
    decreases n,
{
    if n == 0 {
        1
    } else {
        10 * pow10((n - 1) as nat)
    }
}

/// A digit string has a non-negative value.
pub proof fn lemma_digits_val_nonneg(s: Seq<char>)
    requires
        all_digits(s),
    ensures
        digits_val(s) >= 0,
    decreases s.len(),
{
    if s.len() > 0 {
        lemma_digits_val_nonneg(s.drop_last());
    }
}

/// A digit string of length `n` has a value below `pow10(n)`.
pub proof fn lemma_digits_val_upper(s: Seq<char>)
    requires
        all_digits(s),
    ensures
        digits_val(s) < pow10(s.len()),
    decreases s.len(),
{
    if s.len() > 0 {
        lemma_digits_val_upper(s.drop_last());
    }
}

/// Reading one more digit multiplies the prefix value by 10 and adds it.
proof fn lemma_digits_val_step(s: Seq<char>, i: int)
    requires
        0 <= i < s.len(),
    ensures
        digits_val(s.take(i + 1)) == 10 * digits_val(s.take(i)) + digit_val(s[i]),
{
    assert(s.take(i + 1).drop_last() =~= s.take(i));
    assert(s.take(i + 1).last() == s[i]);
}

/// The value of a digit string dominates the value of each of its prefixes.
proof fn lemma_digits_val_take_le(s: Seq<char>, i: int)
    requires
        all_digits(s),
        0 <= i <= s.len(),
    ensures
        digits_val(s.take(i)) <= digits_val(s),
    decreases s.len() - i,
{
    if i == s.len() {
        assert(s.take(i) =~= s);
    } else {
        lemma_digits_val_step(s, i);
        assert(all_digits(s.take(i)));
        lemma_digits_val_nonneg(s.take(i));
        lemma_digits_val_take_le(s, i + 1);
    }
}

/// Reads `s[from..to]` as an unsigned base-10 number.
///
/// Returns the value when the slice consists of digits only and its value is
/// below `limit`; returns `None` on a non-digit character or a value at or
/// above `limit`.
pub fn digits_value_below(s: &str, from: usize, to: usize, limit: u64) -> (r: Option<u64>)
    requires
        from <= to <= s@.len(),
        0 < limit <= 4_000_000_000,
    ensures
        r == if all_digits(s@.subrange(from as int, to as int)) && digits_val(
            s@.subrange(from as int, to as int),
        ) < limit {
            Some(digits_val(s@.subrange(from as int, to as int)) as u64)
        } else {
            None::<u64>
        },
{
    let ghost sub = s@.subrange(from as int, to as int);
    let mut i: usize = from;
    let mut acc: u64 = 0;
    while i < to
        invariant
            from <= i <= to <= s@.len(),
            0 < limit <= 4_000_000_000,
            sub == s@.subrange(from as int, to as int),
            all_digits(sub.take(i - from)),
            acc == digits_val(sub.take(i - from)),
            acc < limit,
        decreases to - i,
    {
        let c = s.get_char(i);
        let code = c as u32;
        proof {
            assert(sub[i - from] == s@[i as int]);
        }
        if code < 48 || code > 57 {
            proof {
                assert(!is_digit_char(sub[i - from]));
            }
            return None;
        }
        let d = (code - 48) as u64;
        proof {
            lemma_digits_val_step(sub, i - from);
        }
        let next = acc * 10 + d;
        if next >= limit {
            proof {
                if all_digits(sub) {
                    lemma_digits_val_take_le(sub, i - from + 1);
                }
            }
            return None;
        }
        acc = next;
        i = i + 1;
    }
    proof {
        assert(sub.take(i - from) =~= sub);
    }
    Some(acc)
}

/// The base-10 value of an optionally signed digit string, as carried by a
/// 32-bit column: `None` when the string is empty, contains a non-digit
/// after the optional leading `+` or `-`, or overflows the 32-bit range.
pub open spec fn spec_parse_i32(s: Seq<char>) -> Option<i32> {
    let has_sign = s.len() > 0 && (s[0] == '+' || s[0] == '-');
    let negative = s.len() > 0 && s[0] == '-';
    let ds = if has_sign {
        s.skip(1)
    } else {
        s
    };
    if ds.len() > 0 && all_digits(ds) {
        let v = if negative {
            -digits_val(ds)
        } else {
            digits_val(ds)
        };
        if i32::MIN <= v <= i32::MAX {
            Some(v as i32)
        } else {
            None
        }
    } else {
        None
    }
}

/// Parses an optionally signed base-10 integer, exactly when
/// `spec_parse_i32` gives it a value.
pub fn parse_i32(s: &str) -> (r: Option<i32>)
    ensures
        r == spec_parse_i32(s@),
{
    let n = s.unicode_len();
    let mut start: usize = 0;
    let mut negative: bool = false;
    if n > 0 {
        let c0 = s.get_char(0);
        if c0 == '-' {
            start = 1;
            negative = true;
        } else if c0 == '+' {
            start = 1;
        }
    }
    let ghost ds = if start == 1 {
        s@.skip(1)
    } else {
        s@
    };
    proof {
        if start == 0 {
            assert(s@.subrange(0, n as int) =~= s@);
        } else {
            assert(s@.subrange(1, n as int) =~= s@.skip(1));
        }
    }
    if start >= n {
        return None;
    }
    match digits_value_below(s, start, n, 2_147_483_649) {
        None => {
            proof {
                if all_digits(ds) && digits_val(ds) >= 2_147_483_649 {
                    lemma_digits_val_nonneg(ds);
                }
            }
            None
        },
        Some(mag) => {
            proof {
                lemma_digits_val_nonneg(ds);
            }
            if negative {
                Some((-(mag as i64)) as i32)
            } else {
                if mag >= 2_147_483_648 {
                    None
                } else {
                    Some(mag as i32)
                }
            }
        },
    }
}

} // verus!
