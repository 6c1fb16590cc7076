//! The fixed-point scalar that carries every real-valued quantity of the
//! pipeline: an `i64` counting 1/65536ths of a unit.
//!
//! Each operation rounds its mathematically exact result to the nearest
//! representable value (halves toward positive infinity) and, where even that
//! does not fit in an `i64`, clamps to the nearest end of the range; clamping
//! is the non-fatal overflow policy of the renderer, as running off the
//! raster is for pixels.

use vstd::prelude::*;

verus! {

use vstd::arithmetic::div_mod::{
    lemma_fundamental_div_mod,
    lemma_fundamental_div_mod_converse,
    lemma_mod_pos_bound,
    lemma_mod_bound,
    lemma_div_is_ordered,
};

/// The fixed-point representation of 1: the number of fractional steps in one
/// unit.
pub const FX_ONE: i64 = 65536;

/// Quotient `n / d` rounded to the nearest integer for a positive divisor
/// `d`; halves round toward positive infinity.
pub open spec fn rdiv(n: int, d: int) -> int
    recommends
        d > 0,
{
    (2 * n + d) / (2 * d)
}

/// Quotient `n / d` truncated toward zero for a positive divisor `d`.
pub open spec fn tdiv(n: int, d: int) -> int
    recommends
        d > 0,
{
    if n >= 0 {
        n / d
    } else {
        -((-n) / d)
    }
}

/// The nearest `i64` to an unbounded integer.
pub open spec fn clamp64(x: int) -> int {
    if x > i64::MAX {
        i64::MAX as int
    } else if x < i64::MIN {
        i64::MIN as int
    } else {
        x
    }
}

/// The nearest `i32` to an unbounded integer.
pub open spec fn clamp32(x: int) -> int {
    if x > i32::MAX {
        i32::MAX as int
    } else if x < i32::MIN {
        i32::MIN as int
    } else {
        x
    }
}

/// Product of two fixed-point scalars: the exact product rescaled, rounded to
/// nearest, clamped into `i64`.
pub open spec fn fx_mul_spec(a: i64, b: i64) -> int {
    clamp64(rdiv(a * b, FX_ONE as int))
}

/// Quotient of two fixed-point scalars, rounded to nearest and clamped. A
/// zero divisor yields the clamped extreme of the dividend's sign (zero for a
/// zero dividend): division by zero is reported by saturation, never by a
/// failure, matching the renderer's non-fatal numeric policy.
pub open spec fn fx_div_spec(a: i64, b: i64) -> int {
    if b == 0 {
        if a > 0 {
            i64::MAX as int
        } else if a < 0 {
            i64::MIN as int
        } else {
            0
        }
    } else if b < 0 {
        clamp64(rdiv(-(a * FX_ONE), -(b as int)))
    } else {
        clamp64(rdiv(a * FX_ONE, b as int))
    }
}

/// Saturating sum of two fixed-point scalars.
pub open spec fn sat_add_spec(a: i64, b: i64) -> int {
    clamp64(a + b)
}

/// Saturating negation of a fixed-point scalar.
pub open spec fn sat_neg_spec(a: i64) -> int {
    clamp64(-a)
}

/// Saturating difference of two fixed-point scalars.
pub open spec fn sat_sub_spec(a: i64, b: i64) -> int {
    clamp64(a - b)
}

/// Fixed-point product, already narrowed to `i64` (clamping keeps it in
/// range, so the narrowing never loses a value).
pub open spec fn fxm(a: i64, b: i64) -> i64 {
    fx_mul_spec(a, b) as i64
}

/// Saturating sum, already narrowed to `i64`.
pub open spec fn fxa(a: i64, b: i64) -> i64 {
    sat_add_spec(a, b) as i64
}

/// Fixed-point quotient, already narrowed to `i64`.
pub open spec fn fxd(a: i64, b: i64) -> i64 {
    fx_div_spec(a, b) as i64
}

/// Saturating negation, already narrowed to `i64`.
pub open spec fn fxn(a: i64) -> i64 {
    sat_neg_spec(a) as i64
}

/// Saturating difference, already narrowed to `i64`.
pub open spec fn fxs(a: i64, b: i64) -> i64 {
    sat_sub_spec(a, b) as i64
}

/// Floor quotient of `n / d` for a positive divisor, on machine integers.
pub(crate) fn floor_div_i128(n: i128, d: i128) -> (q: i128)
    requires
        d > 0,
        n > i128::MIN,
    ensures
        q == n as int / d as int,
{
    if n >= 0 {
        let un: u128 = n as u128;
        let ud: u128 = d as u128;
        let uq: u128 = un / ud;
        proof {
            lemma_fundamental_div_mod(un as int, ud as int);
            assert(uq as int <= un as int) by (nonlinear_arith)
                requires
                    un as int == ud as int * (uq as int) + (un as int % ud as int),
                    ud as int >= 1,
                    uq as int >= 0,
                    un as int % ud as int >= 0,
            ;
        }
        uq as i128
    } else {
        let m: u128 = (-n) as u128;
        let ud: u128 = d as u128;
        let uq: u128 = m / ud;
        let ur: u128 = m % ud;
        proof {
            lemma_fundamental_div_mod(m as int, ud as int);
            lemma_mod_pos_bound(m as int, ud as int);
            if ur == 0 {
                assert(n as int == (-(uq as int)) * (d as int) + 0) by (nonlinear_arith)
                    requires
                        m as int == ud as int * (uq as int) + (ur as int),
                        ur as int == 0,
                        n as int == -(m as int),
                        ud as int == d as int,
                ;
                lemma_fundamental_div_mod_converse(n as int, d as int, -(uq as int), 0);
            } else {
                assert(n as int == (-(uq as int) - 1) * (d as int) + (d as int - ur as int))
                    by (nonlinear_arith)
                    requires
                        m as int == ud as int * (uq as int) + (ur as int),
                        n as int == -(m as int),
                        ud as int == d as int,
                ;
                lemma_fundamental_div_mod_converse(
                    n as int,
                    d as int,
                    -(uq as int) - 1,
                    d as int - ur as int,
                );
            }
        }
        if ur == 0 {
            -(uq as i128)
        } else {
            -(uq as i128) - 1
        }
    }
}

/// A product `x * d` divided by `d` rounds back to exactly `x`.
pub proof fn lemma_rdiv_multiple(x: int, d: int)
    requires
        d > 0,
    ensures
        rdiv(x * d, d) == x,
{
    assert(2 * (x * d) + d == x * (2 * d) + d) by (nonlinear_arith);
    lemma_fundamental_div_mod_converse(2 * (x * d) + d, 2 * d, x, d);
}

/// Rounding a quotient keeps it between any integer bounds that hold of the
/// exact quotient.
pub proof fn lemma_rdiv_between(n: int, d: int, lo: int, hi: int)
    requires
        d > 0,
        lo * d <= n,
        n <= hi * d,
    ensures
        lo <= rdiv(n, d),
        rdiv(n, d) <= hi,
{
    assert(2 * (lo * d) == lo * (2 * d)) by (nonlinear_arith);
    assert(2 * (hi * d) + 2 * d - 1 == hi * (2 * d) + (2 * d - 1)) by (nonlinear_arith);
    lemma_fundamental_div_mod_converse(lo * (2 * d), 2 * d, lo, 0);
    lemma_fundamental_div_mod_converse(hi * (2 * d) + (2 * d - 1), 2 * d, hi, 2 * d - 1);
    lemma_div_is_ordered(lo * (2 * d), 2 * n + d, 2 * d);
    lemma_div_is_ordered(2 * n + d, hi * (2 * d) + (2 * d - 1), 2 * d);
}

/// Multiplying a fixed-point scalar by the representation of 1 gives it back
/// unchanged, and by the representation of 0 gives 0.
pub proof fn lemma_fx_mul_one_zero(a: i64)
    ensures
        fx_mul_spec(FX_ONE, a) == a,
        fx_mul_spec(a, FX_ONE) == a,
        fx_mul_spec(0, a) == 0,
        fx_mul_spec(a, 0) == 0,
{
    assert(65536 * (a as int) == (a as int) * 65536) by (nonlinear_arith);
    lemma_rdiv_multiple(a as int, 65536);
    assert(rdiv(0, 65536) == 0) by {
        lemma_fundamental_div_mod_converse(65536int, 131072int, 0int, 65536int);
    }
    assert((a as int) * 0 == 0) by (nonlinear_arith);
    assert(0 * (a as int) == 0) by (nonlinear_arith);
}

/// How the truncating quotient relates to the flooring one: they agree on
/// nonnegative dividends, and truncation never falls below the floor.
pub proof fn lemma_tdiv_bounds(n: int, d: int)
    requires
        d > 0,
    ensures
        tdiv(n, d) >= n / d,
        tdiv(n, d) <= n / d + 1,
        n >= 0 ==> tdiv(n, d) == n / d,
        n < 0 ==> tdiv(n, d) <= 0,
{
    if n < 0 {
        let q = n / d;
        let r = n % d;
        lemma_fundamental_div_mod(n, d);
        lemma_mod_bound(n, d);
        if r == 0 {
            assert(-n == (-q) * d + 0) by (nonlinear_arith)
                requires
                    n == d * q + r,
                    r == 0,
            ;
            lemma_fundamental_div_mod_converse(-n, d, -q, 0);
        } else {
            assert(-n == (-q - 1) * d + (d - r)) by (nonlinear_arith)
                requires
                    n == d * q + r,
            ;
            lemma_fundamental_div_mod_converse(-n, d, -q - 1, d - r);
        }
        assert((-n) / d >= 0) by {
            lemma_div_is_ordered(0, -n, d);
            lemma_fundamental_div_mod_converse(0, d, 0, 0);
        }
    }
}

/// Truncating quotient of `n / d` (toward zero) for a positive divisor, on
/// machine integers.
pub(crate) fn tdiv_i128(n: i128, d: i128) -> (q: i128)
    requires
        d > 0,
        n > i128::MIN,
    ensures
        q == tdiv(n as int, d as int),
{
    if n >= 0 {
        floor_div_i128(n, d)
    } else {
        proof {
            lemma_div_is_ordered(0, -(n as int), d as int);
            lemma_fundamental_div_mod_converse(0, d as int, 0, 0);
        }
        -floor_div_i128(-n, d)
    }
}

/// A product is bounded by the product of the factors' magnitudes.
pub proof fn lemma_mul_bound(a: int, b: int, am: int, bm: int) by (nonlinear_arith)
    requires
        -am <= a <= am,
        -bm <= b <= bm,
        0 <= am,
        0 <= bm,
    ensures
        -(am * bm) <= a * b <= am * bm,
{
}

/// The product of two `i64` values fits comfortably inside `i128`.
proof fn lemma_i64_prod_fits(a: i64, b: i64) by (nonlinear_arith)
    ensures
        -0x4000_0000_0000_0000_0000_0000_0000_0000 <= (a as int) * (b as int),
        (a as int) * (b as int) <= 0x4000_0000_0000_0000_0000_0000_0000_0000,
{
}

/// Round-to-nearest quotient of `n / d` for a positive divisor, clamped into
/// `i64`.
pub(crate) fn rdiv64(n: i128, d: i128) -> (r: i64)
    requires
        d > 0,
        -0x2000_0000_0000_0000_0000_0000_0000_0000 <= n
            <= 0x2000_0000_0000_0000_0000_0000_0000_0000,
        d <= 0x2000_0000_0000_0000_0000_0000_0000_0000,
    ensures
        r == clamp64(rdiv(n as int, d as int)),
{
    let q: i128 = floor_div_i128(2 * n + d, 2 * d);
    if q > i64::MAX as i128 {
        i64::MAX
    } else if q < i64::MIN as i128 {
        i64::MIN
    } else {
        q as i64
    }
}

/// Fixed-point multiplication, rounded to nearest and clamped.
pub fn fx_mul(a: i64, b: i64) -> (r: i64)
    ensures
        r == fx_mul_spec(a, b),
{
    proof {
        lemma_i64_prod_fits(a, b);
    }
    let p: i128 = a as i128 * b as i128;
    let big: i128 = 0x10_0000_0000_0000_0000_0000;
    if p > big {
        proof {
            lemma_div_is_ordered(2 * big + FX_ONE as int, 2 * p + FX_ONE as int, 2 * FX_ONE as int);
        }
        i64::MAX
    } else if p < -big {
        proof {
            lemma_div_is_ordered(2 * p + FX_ONE as int, 2 * (-big) + FX_ONE as int, 2 * FX_ONE as int);
        }
        i64::MIN
    } else {
        rdiv64(p, FX_ONE as i128)
    }
}

/// Fixed-point division, rounded to nearest and clamped; a zero divisor
/// saturates to the dividend's signed extreme.
pub fn fx_div(a: i64, b: i64) -> (r: i64)
    ensures
        r == fx_div_spec(a, b),
{
    if b == 0 {
        if a > 0 {
            i64::MAX
        } else if a < 0 {
            i64::MIN
        } else {
            0
        }
    } else {
        proof {
            assert(-0x8000_0000_0000_0000_0000 <= (a as int) * 65536
                && (a as int) * 65536 <= 0x8000_0000_0000_0000_0000) by (nonlinear_arith);
        }
        let n: i128 = a as i128 * FX_ONE as i128;
        if b < 0 {
            rdiv64(-n, -(b as i128))
        } else {
            rdiv64(n, b as i128)
        }
    }
}

/// Saturating addition of two fixed-point scalars.
pub fn sat_add(a: i64, b: i64) -> (r: i64)
    ensures
        r == sat_add_spec(a, b),
{
    let s: i128 = a as i128 + b as i128;
    if s > i64::MAX as i128 {
        i64::MAX
    } else if s < i64::MIN as i128 {
        i64::MIN
    } else {
        s as i64
    }
}

/// Saturating subtraction of two fixed-point scalars.
pub fn sat_sub(a: i64, b: i64) -> (r: i64)
    ensures
        r == sat_sub_spec(a, b),
{
    let s: i128 = a as i128 - b as i128;
    if s > i64::MAX as i128 {
        i64::MAX
    } else if s < i64::MIN as i128 {
        i64::MIN
    } else {
        s as i64
    }
}

/// Saturating negation of a fixed-point scalar.
pub fn sat_neg(a: i64) -> (r: i64)
    ensures
        r == sat_neg_spec(a),
{
    if a == i64::MIN {
        i64::MAX
    } else {
        -a
    }
}

/// A fixed-point scalar plus one half, truncated toward zero to a whole
/// number of units and clamped into `i32` pixel range: how a screen
/// coordinate becomes a pixel column or row.
pub fn fx_trunc_round_i32(a: i64) -> (r: i32)
    ensures
        r == clamp32(tdiv(a as int + 32768, 65536)),
{
    let q: i128 = tdiv_i128(a as i128 + 32768, 65536);
    proof {
        lemma_tdiv_bounds(a as int + 32768, 65536);
    }
    if q > i32::MAX as i128 {
        i32::MAX
    } else if q < i32::MIN as i128 {
        i32::MIN
    } else {
        q as i32
    }
}

} // verus!
