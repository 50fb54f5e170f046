//! Fixed-point arithmetic on millionths, and the constants of time.

use vstd::prelude::*;

verus! {

/// Fixed-point units per whole unit: every amount, percentage and rate of the
/// library is an `i64` count of millionths.
pub const SCALE: i64 = 1_000_000;

/// One hundredth of a whole unit, the tolerance of financial comparisons.
pub const TOLERANCE: i64 = 10_000;

/// One hundred percent, as a fixed-point percentage.
pub const PERCENT_FULL: i64 = 100_000_000;

/// Nanoseconds in one day.
pub const NANOS_PER_DAY: u64 = 86_400_000_000_000;

/// Nanoseconds in one lock-period month of thirty days.
pub const NANOS_PER_MONTH: u64 = 2_592_000_000_000_000;

/// `a * b / d`, rounded towards negative infinity.
pub open spec fn mul_div(a: int, b: int, d: int) -> int {
    (a * b) / d
}

/// Whether an integer is representable as an `i64`.
pub open spec fn fits_i64(x: int) -> bool {
    i64::MIN <= x <= i64::MAX
}

/// Computes `a * b / d` rounded down, without intermediate overflow; `None`
/// exactly when the quotient is not representable.
pub fn mul_div_floor(a: i64, b: i64, d: i64) -> (r: Option<i64>)
    requires
        d > 0,
    ensures
        fits_i64(mul_div(a as int, b as int, d as int)) ==> r == Some(
            mul_div(a as int, b as int, d as int) as i64,
        ),
        !fits_i64(mul_div(a as int, b as int, d as int)) ==> r is None,
{
    assert(-0x4000_0000_0000_0000_0000_0000_0000_0000 <= (a as int) * (b as int)
        <= 0x4000_0000_0000_0000_0000_0000_0000_0000) by (nonlinear_arith)
        requires
            -0x8000_0000_0000_0000 <= a <= 0x7fff_ffff_ffff_ffff,
            -0x8000_0000_0000_0000 <= b <= 0x7fff_ffff_ffff_ffff,
    ;
    let p: i128 = (a as i128) * (b as i128);
    let q: Option<i128> = p.checked_div_euclid(d as i128);
    match q {
        Some(v) => {
            if v < i64::MIN as i128 || v > i64::MAX as i128 {
                None
            } else {
                Some(v as i64)
            }
        },
        None => None,
    }
}

/// `a * b / d` rounded down, and raised to zero where negative.
pub open spec fn mul_div_clamped(a: int, b: int, d: int) -> int {
    if mul_div(a, b, d) > 0 {
        mul_div(a, b, d)
    } else {
        0
    }
}

/// Computes `a * b / d` rounded down and floored at zero; `None` exactly when
/// the result exceeds `i64::MAX`.
pub fn mul_div_nonnegative(a: i64, b: i64, d: i64) -> (r: Option<i64>)
    requires
        d > 0,
    ensures
        mul_div_clamped(a as int, b as int, d as int) <= i64::MAX ==> r == Some(
            mul_div_clamped(a as int, b as int, d as int) as i64,
        ),
        mul_div_clamped(a as int, b as int, d as int) > i64::MAX ==> r is None,
{
    match mul_div_floor(a, b, d) {
        Some(v) => if v > 0 {
            Some(v)
        } else {
            Some(0)
        },
        None => {
            if (a < 0) == (b < 0) {
                proof {
                    assert((a as int) * (b as int) >= 0) by (nonlinear_arith)
                        requires
                            (a < 0) == (b < 0),
                    ;
                    vstd::arithmetic::div_mod::lemma_div_pos_is_pos(
                        (a as int) * (b as int),
                        d as int,
                    );
                }
                None
            } else {
                proof {
                    assert((a as int) * (b as int) <= 0) by (nonlinear_arith)
                        requires
                            (a < 0) != (b < 0),
                    ;
                    vstd::arithmetic::div_mod::lemma_div_is_ordered(
                        (a as int) * (b as int),
                        0,
                        d as int,
                    );
                }
                Some(0)
            }
        },
    }
}

} // verus!
