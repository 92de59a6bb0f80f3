use vstd::prelude::*;

verus! {

/// Clamps a mathematical integer into the range of `i64`.
pub open spec fn clamp_i64(x: int) -> int {
    if x < i64::MIN as int {
        i64::MIN as int
    } else if x > i64::MAX as int {
        i64::MAX as int
    } else {
        x
    }
}

/// Truncating division (rounding toward zero) for a positive divisor, as the
/// machine division of signed integers behaves.
pub open spec fn tdiv(a: int, b: int) -> int
    recommends
        b > 0,
{
    if a >= 0 {
        a / b
    } else {
        -((-a) / b)
    }
}

/// Truncating division followed by a clamp into `i64`.
pub open spec fn tdiv_clamped(a: int, b: int) -> int
    recommends
        b > 0,
{
    clamp_i64(tdiv(a, b))
}

/// Clamps a wide intermediate into an `i64` result.
pub(crate) fn clamp_wide(x: i128) -> (r: i64)
    ensures
        r as int == clamp_i64(x as int),
{
    if x < i64::MIN as i128 {
        i64::MIN
    } else if x > i64::MAX as i128 {
        i64::MAX
    } else {
        x as i64
    }
}

/// Divides a wide intermediate by a positive divisor, rounding toward zero,
/// and clamps the quotient into an `i64` result.
pub(crate) fn div_clamp(a: i128, b: i128) -> (r: i64)
    requires
        0 < b,
    ensures
        r as int == tdiv_clamped(a as int, b as int),
{
    if a >= 0 {
        let q: u128 = (a as u128) / (b as u128);
        assert(q == (a as int) / (b as int));
        if q > i64::MAX as u128 {
            i64::MAX
        } else {
            q as i64
        }
    } else {
        // Negate without overflowing on the smallest value.
        let neg: u128 = ((-(a + 1)) as u128) + 1;
        assert(neg == -(a as int));
        let q: u128 = neg / (b as u128);
        assert(q == (-(a as int)) / (b as int));
        if q >= 9223372036854775808u128 {
            // The true quotient is at or below the smallest `i64`.
            assert(tdiv_clamped(a as int, b as int) == i64::MIN as int);
            i64::MIN
        } else {
            -(q as i64)
        }
    }
}

} // verus!
