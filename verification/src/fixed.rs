//! Fixed-point arithmetic for attribute quantities.
//!
//! All attribute magnitudes are `i64` values at a scale of [`FX_ONE`] per
//! unit, and every stored attribute is kept inside `[-ATTR_LIMIT, ATTR_LIMIT]`
//! so that sums over a bounded batch can never overflow `i64`.

use vstd::prelude::*;

verus! {

/// Number of fixed-point ticks in one unit.
pub const FX_ONE: i64 = 100;

/// Magnitude bound on every stored attribute and substance value.
pub const ATTR_LIMIT: i64 = 1_000_000_000_000;

/// Clamp into `[0, ATTR_LIMIT]`: the domain of non-negative attributes.
pub open spec fn clamp_nonneg(v: int) -> int {
    if v < 0 {
        0
    } else if v > ATTR_LIMIT as int {
        ATTR_LIMIT as int
    } else {
        v
    }
}

/// Clamp into `[-ATTR_LIMIT, ATTR_LIMIT]`: the domain of signed attributes.
pub open spec fn clamp_signed(v: int) -> int {
    if v < -(ATTR_LIMIT as int) {
        -(ATTR_LIMIT as int)
    } else if v > ATTR_LIMIT as int {
        ATTR_LIMIT as int
    } else {
        v
    }
}

/// Clamped addition onto a non-negative attribute.
pub fn add_clamp_nonneg(a: i64, b: i64) -> (r: i64)
    requires
        0 <= a <= ATTR_LIMIT,
        -ATTR_LIMIT * 8 <= b <= ATTR_LIMIT * 8,
    ensures
        r == clamp_nonneg(a + b),
{
    let s: i64 = a + b;
    if s < 0 {
        0
    } else if s > ATTR_LIMIT {
        ATTR_LIMIT
    } else {
        s
    }
}

/// Clamped addition onto a signed attribute.
pub fn add_clamp_signed(a: i64, b: i64) -> (r: i64)
    requires
        -ATTR_LIMIT <= a <= ATTR_LIMIT,
        -ATTR_LIMIT * 8 <= b <= ATTR_LIMIT * 8,
    ensures
        r == clamp_signed(a + b),
{
    let s: i64 = a + b;
    if s < -ATTR_LIMIT {
        -ATTR_LIMIT
    } else if s > ATTR_LIMIT {
        ATTR_LIMIT
    } else {
        s
    }
}

/// Truncating fixed-point product of two non-negative quantities.
pub open spec fn fx_mul_spec(a: int, b: int) -> int {
    (a * b) / (FX_ONE as int)
}

/// Fixed-point multiply: `a` and `b` are fixed-point values, the result is
/// their product rescaled to fixed point (truncated).
pub fn fx_mul(a: i64, b: i64) -> (r: i64)
    requires
        0 <= a,
        0 <= b,
        a * b <= ATTR_LIMIT * FX_ONE,
    ensures
        r == fx_mul_spec(a as int, b as int),
        0 <= r <= ATTR_LIMIT,
{
    proof {
        assert(0 <= a * b) by (nonlinear_arith)
            requires
                0 <= a,
                0 <= b,
        ;
        assert(0 <= (a * b) / 100 && ((a * b) <= ATTR_LIMIT * FX_ONE ==> (a * b) / 100
            <= ATTR_LIMIT)) by (nonlinear_arith)
            requires
                0 <= a * b,
        ;
    }
    (a * b) / FX_ONE
}

} // verus!
