//! Saturating fixed-point arithmetic: an `i64` holds thousandths of a unit.
//!
//! Every operation clips its result to `[-FX_MAX, FX_MAX]`, so a value that
//! satisfies [`fx_ok`] can be fed to any operation here without overflow.
//! Division is truncating (rounds toward zero), as the quotient of two
//! magnitudes with the sign applied afterwards.

use vstd::prelude::*;

verus! {

/// The fixed-point representation of 1.0.
pub const FX_ONE: i64 = 1000;

/// Largest magnitude a fixed-point value may take (one billion units).
pub const FX_MAX: i64 = 1_000_000_000_000;

/// A fixed-point value in range.
pub open spec fn fx_ok(x: i64) -> bool {
    -FX_MAX <= x <= FX_MAX
}

/// Clip an unbounded result back into the fixed-point range.
pub open spec fn fx_clip(x: int) -> int {
    if x > FX_MAX as int {
        FX_MAX as int
    } else if x < -(FX_MAX as int) {
        -(FX_MAX as int)
    } else {
        x
    }
}

/// Truncating division: quotient of magnitudes, sign applied afterwards.
pub open spec fn tdiv(n: int, d: int) -> int
    recommends
        d >= 1,
{
    if n >= 0 {
        n / d
    } else {
        -((-n) / d)
    }
}

pub open spec fn spec_fx_add(a: i64, b: i64) -> i64 {
    fx_clip(a + b) as i64
}

pub open spec fn spec_fx_sub(a: i64, b: i64) -> i64 {
    fx_clip(a - b) as i64
}

pub open spec fn spec_fx_mul(a: i64, b: i64) -> i64 {
    fx_clip(tdiv(a * b, FX_ONE as int)) as i64
}

pub open spec fn spec_fx_div(a: i64, d: i64) -> i64
    recommends
        d >= 1,
{
    fx_clip(tdiv(a * (FX_ONE as int), d as int)) as i64
}

pub open spec fn spec_fx_neg(a: i64) -> i64 {
    fx_clip(-a) as i64
}

pub open spec fn spec_fx_abs(a: i64) -> i64 {
    fx_clip(if a < 0 { -(a as int) } else { a as int }) as i64
}

pub open spec fn spec_fx_max(a: i64, b: i64) -> i64 {
    if a >= b {
        a
    } else {
        b
    }
}

pub open spec fn spec_fx_clamp(x: i64, lo: i64, hi: i64) -> i64
    recommends
        lo <= hi,
{
    if x < lo {
        lo
    } else if x > hi {
        hi
    } else {
        x
    }
}

/// Saturating fixed-point addition.
pub fn fx_add(a: i64, b: i64) -> (r: i64)
    requires
        fx_ok(a),
        fx_ok(b),
    ensures
        r == spec_fx_add(a, b),
        fx_ok(r),
{
    let s: i64 = a + b;
    if s > FX_MAX {
        FX_MAX
    } else if s < -FX_MAX {
        -FX_MAX
    } else {
        s
    }
}

/// Saturating fixed-point subtraction.
pub fn fx_sub(a: i64, b: i64) -> (r: i64)
    requires
        fx_ok(a),
        fx_ok(b),
    ensures
        r == spec_fx_sub(a, b),
        fx_ok(r),
{
    let s: i64 = a - b;
    if s > FX_MAX {
        FX_MAX
    } else if s < -FX_MAX {
        -FX_MAX
    } else {
        s
    }
}

/// Saturating fixed-point multiplication; the product is truncated toward zero.
pub fn fx_mul(a: i64, b: i64) -> (r: i64)
    requires
        fx_ok(a),
        fx_ok(b),
    ensures
        r == spec_fx_mul(a, b),
        fx_ok(r),
{
    proof {
        assert((a as int) * (b as int) <= (FX_MAX as int) * (FX_MAX as int) && -((FX_MAX as int)
            * (FX_MAX as int)) <= (a as int) * (b as int)) by (nonlinear_arith)
            requires
                -(FX_MAX as int) <= a as int <= FX_MAX as int,
                -(FX_MAX as int) <= b as int <= FX_MAX as int,
        ;
    }
    let p: i128 = (a as i128) * (b as i128);
    if p >= 0 {
        let q: u128 = (p as u128) / (FX_ONE as u128);
        if q > FX_MAX as u128 {
            FX_MAX
        } else {
            q as i64
        }
    } else {
        let m: u128 = (-p) as u128;
        let q: u128 = m / (FX_ONE as u128);
        if q > FX_MAX as u128 {
            -FX_MAX
        } else {
            -(q as i64)
        }
    }
}

/// Saturating fixed-point division by a positive divisor, truncated toward zero.
pub fn fx_div(a: i64, d: i64) -> (r: i64)
    requires
        fx_ok(a),
        1 <= d,
        fx_ok(d),
    ensures
        r == spec_fx_div(a, d),
        fx_ok(r),
{
    let n: i64 = a * FX_ONE;
    if n >= 0 {
        let q: u64 = (n as u64) / (d as u64);
        if q > FX_MAX as u64 {
            FX_MAX
        } else {
            q as i64
        }
    } else {
        let m: u64 = (-n) as u64;
        let q: u64 = m / (d as u64);
        if q > FX_MAX as u64 {
            -FX_MAX
        } else {
            -(q as i64)
        }
    }
}

/// Fixed-point negation.
pub fn fx_neg(a: i64) -> (r: i64)
    requires
        fx_ok(a),
    ensures
        r == spec_fx_neg(a),
        fx_ok(r),
{
    -a
}

/// Fixed-point absolute value.
pub fn fx_abs(a: i64) -> (r: i64)
    requires
        fx_ok(a),
    ensures
        r == spec_fx_abs(a),
        fx_ok(r),
{
    if a < 0 {
        -a
    } else {
        a
    }
}

/// The larger of two fixed-point values.
pub fn fx_max(a: i64, b: i64) -> (r: i64)
    ensures
        r == spec_fx_max(a, b),
{
    if a >= b {
        a
    } else {
        b
    }
}

/// Clamp a fixed-point value into `[lo, hi]`.
pub fn fx_clamp(x: i64, lo: i64, hi: i64) -> (r: i64)
    requires
        lo <= hi,
    ensures
        r == spec_fx_clamp(x, lo, hi),
{
    if x < lo {
        lo
    } else if x > hi {
        hi
    } else {
        x
    }
}

} // verus!
