//! Linear interpolation tables: for integer steps `i0..=i1` the dependent
//! value walks from `d0` to `d1` in increments of `(d1 - d0) / (i1 - i0)`.
//!
//! Each produced element is the exact rational interpolant rounded to a
//! machine integer, and the final element is forced to exactly `d1`, so no
//! rounding drift accumulates away from the true endpoint. A degenerate span
//! (`i0 >= i1`, for the variants that support it) yields the single midpoint
//! `(d0 + d1) / 2`, which spares triangle scan conversion a special case for
//! zero-height spans.

use vstd::prelude::*;

verus! {

use crate::fixed::{rdiv, tdiv, clamp64};
use crate::fixed::{floor_div_i128, tdiv_i128, rdiv64};
use crate::fixed::{lemma_tdiv_bounds, lemma_rdiv_between, lemma_mul_bound};
use vstd::arithmetic::div_mod::{
    lemma_fundamental_div_mod_converse,
    lemma_div_is_ordered,
};

/// Element `k` of the inclusive interpolation from `(i0, d0)` to `(i1, d1)`
/// on `i32` values, for `i0 < i1`: the exact interpolant plus one half,
/// truncated toward zero — except the last element, which is exactly `d1`.
pub open spec fn i32_lerp_at(i0: int, d0: int, i1: int, d1: int, k: int) -> int
    recommends
        i0 < i1,
        0 <= k <= i1 - i0,
{
    let n = i1 - i0;
    if k == n {
        d1
    } else {
        tdiv(2 * (d0 * n + k * (d1 - d0)) + n, 2 * n)
    }
}

/// Element `k` of the exclusive interpolation from `(i0, d0)` to `(i1, d1)`
/// on `usize` values, for `i0 < i1` and `d0 <= d1`: the exact interpolant
/// rounded down.
pub open spec fn usize_lerp_at(i0: int, d0: int, i1: int, d1: int, k: int) -> int
    recommends
        i0 < i1,
        d0 <= d1,
        0 <= k < i1 - i0,
{
    let n = i1 - i0;
    (d0 * n + k * (d1 - d0)) / n
}

/// Element `k` of the inclusive interpolation from `(i0, d0)` to `(i1, d1)`
/// on fixed-point values, for `i0 < i1`: the exact interpolant rounded to the
/// nearest representable value — except the last element, which is exactly
/// `d1`.
pub open spec fn fx_lerp_at(i0: int, d0: int, i1: int, d1: int, k: int) -> int
    recommends
        i0 < i1,
        0 <= k <= i1 - i0,
{
    let n = i1 - i0;
    if k == n {
        d1
    } else {
        rdiv(d0 * n + k * (d1 - d0), n)
    }
}

/// A weighted mean of two values with weights `n - k` and `k` stays between
/// them.
proof fn lemma_convex_num(d0: int, d1: int, n: int, k: int, lo: int, hi: int)
    requires
        0 <= k <= n,
        lo <= d0 <= hi,
        lo <= d1 <= hi,
    ensures
        lo * n <= d0 * n + k * (d1 - d0),
        d0 * n + k * (d1 - d0) <= hi * n,
{
    assert(d0 * n + k * (d1 - d0) == (n - k) * d0 + k * d1) by (nonlinear_arith);
    assert(lo * n <= (n - k) * d0 + k * d1 && (n - k) * d0 + k * d1 <= hi * n)
        by (nonlinear_arith)
        requires
            0 <= k <= n,
            lo <= d0 <= hi,
            lo <= d1 <= hi,
    ;
}

/// Every element of the `i32` interpolation fits in `i32`.
proof fn lemma_i32_elem_fits(i0: int, d0: int, i1: int, d1: int, k: int)
    requires
        i0 < i1,
        0 <= k <= i1 - i0,
        i32::MIN <= d0 <= i32::MAX,
        i32::MIN <= d1 <= i32::MAX,
    ensures
        i32::MIN <= i32_lerp_at(i0, d0, i1, d1, k) <= i32::MAX,
{
    let n = i1 - i0;
    if k < n {
        let lo = if d0 <= d1 { d0 } else { d1 };
        let hi = if d0 <= d1 { d1 } else { d0 };
        let num = 2 * (d0 * n + k * (d1 - d0)) + n;
        lemma_convex_num(d0, d1, n, k, lo, hi);
        assert(lo * (2 * n) <= num && num < (hi + 1) * (2 * n)) by (nonlinear_arith)
            requires
                n >= 1,
                num == 2 * (d0 * n + k * (d1 - d0)) + n,
                lo * n <= d0 * n + k * (d1 - d0),
                d0 * n + k * (d1 - d0) <= hi * n,
        ;
        lemma_tdiv_bounds(num, 2 * n);
        if num >= 0 {
            lemma_div_is_ordered(lo * (2 * n), num, 2 * n);
            lemma_fundamental_div_mod_converse(lo * (2 * n), 2 * n, lo, 0);
            lemma_div_is_ordered(num, (hi + 1) * (2 * n) - 1, 2 * n);
            assert((hi + 1) * (2 * n) - 1 == hi * (2 * n) + (2 * n - 1)) by (nonlinear_arith);
            lemma_fundamental_div_mod_converse(
                (hi + 1) * (2 * n) - 1,
                2 * n,
                hi,
                2 * n - 1,
            );
        } else {
            lemma_div_is_ordered(lo * (2 * n), num, 2 * n);
            lemma_fundamental_div_mod_converse(lo * (2 * n), 2 * n, lo, 0);
        }
    }
}

/// Interpolation on `usize` values over the half-open span `i0..i1`: element
/// `k` is the exact interpolant rounded down; the endpoint `i1` itself is not
/// produced. The dependent values must be nondecreasing, as machine-integer
/// subtraction of them is otherwise undefined.
pub fn usize_lerp_vec(i0: usize, d0: usize, i1: usize, d1: usize) -> (v: Vec<usize>)
    requires
        d0 <= d1,
        i1 - i0 <= 0x1_0000_0000,
    ensures
        v@.len() == if i0 < i1 { (i1 - i0) as int } else { 0 },
        forall|k: int| 0 <= k < v@.len()
            ==> v@[k] == usize_lerp_at(i0 as int, d0 as int, i1 as int, d1 as int, k),
{
    let mut v: Vec<usize> = Vec::new();
    if i0 >= i1 {
        return v;
    }
    let n: u64 = (i1 - i0) as u64;
    let dd: u64 = (d1 - d0) as u64;
    let mut k: u64 = 0;
    while k < n
        invariant
            1 <= n <= 0x1_0000_0000,
            n == i1 - i0,
            dd == d1 - d0,
            d0 <= d1,
            i0 < i1,
            0 <= k <= n,
            v@.len() == k,
            forall|j: int| 0 <= j < k
                ==> v@[j] == usize_lerp_at(i0 as int, d0 as int, i1 as int, d1 as int, j),
        decreases n - k,
    {
        proof {
            lemma_mul_bound(d0 as int, n as int, 0xffff_ffff_ffff_ffff, 0x1_0000_0000);
            lemma_mul_bound(k as int, dd as int, 0x1_0000_0000, 0xffff_ffff_ffff_ffff);
            lemma_convex_num(d0 as int, d1 as int, n as int, k as int, d0 as int, d1 as int);
        }
        let num: i128 = d0 as i128 * n as i128 + k as i128 * dd as i128;
        let e: i128 = floor_div_i128(num, n as i128);
        proof {
            lemma_div_is_ordered((d0 as int) * (n as int), num as int, n as int);
            lemma_fundamental_div_mod_converse((d0 as int) * (n as int), n as int, d0 as int, 0);
            lemma_div_is_ordered(num as int, (d1 as int) * (n as int), n as int);
            lemma_fundamental_div_mod_converse((d1 as int) * (n as int), n as int, d1 as int, 0);
        }
        v.push(e as usize);
        k = k + 1;
    }
    v
}

/// The early renderer's interpolation helper; it behaves exactly as
/// `usize_lerp_vec`.
pub fn usize_lerp(i0: usize, d0: usize, i1: usize, d1: usize) -> (v: Vec<usize>)
    requires
        d0 <= d1,
        i1 - i0 <= 0x1_0000_0000,
    ensures
        v@.len() == if i0 < i1 { (i1 - i0) as int } else { 0 },
        forall|k: int| 0 <= k < v@.len()
            ==> v@[k] == usize_lerp_at(i0 as int, d0 as int, i1 as int, d1 as int, k),
{
    usize_lerp_vec(i0, d0, i1, d1)
}

/// Interpolation on `i32` values over the inclusive span `i0..=i1`: each
/// element is the exact interpolant rounded (half up, truncated toward zero),
/// the last is exactly `d1`, and a degenerate span yields the single midpoint
/// `(d0 + d1) / 2` (truncated).
pub fn i32_lerp_vec(i0: i32, d0: i32, i1: i32, d1: i32) -> (v: Vec<i32>)
    ensures
        i0 >= i1 ==> v@.len() == 1
            && v@[0] == tdiv(d0 as int + d1 as int, 2),
        i0 < i1 ==> v@.len() == i1 - i0 + 1
            && forall|k: int| 0 <= k < v@.len()
                ==> v@[k] == i32_lerp_at(i0 as int, d0 as int, i1 as int, d1 as int, k),
        i0 < i1 ==> v@[v@.len() - 1] == d1,
{
    let mut v: Vec<i32> = Vec::new();
    if i0 >= i1 {
        let m: i128 = tdiv_i128(d0 as i128 + d1 as i128, 2);
        proof {
            lemma_tdiv_bounds(d0 as int + d1 as int, 2);
            lemma_div_is_ordered(2 * (i32::MIN as int), d0 as int + d1 as int, 2);
            lemma_div_is_ordered(d0 as int + d1 as int, 2 * (i32::MAX as int), 2);
            lemma_fundamental_div_mod_converse(2 * (i32::MIN as int), 2, i32::MIN as int, 0);
            lemma_fundamental_div_mod_converse(2 * (i32::MAX as int), 2, i32::MAX as int, 0);
        }
        v.push(m as i32);
        return v;
    }
    let n: i64 = i1 as i64 - i0 as i64;
    let dd: i64 = d1 as i64 - d0 as i64;
    let mut k: i64 = 0;
    while k < n
        invariant
            1 <= n <= 0x1_0000_0000,
            n == i1 - i0,
            dd == d1 - d0,
            i0 < i1,
            0 <= k <= n,
            v@.len() == k,
            forall|j: int| 0 <= j < k
                ==> v@[j] == i32_lerp_at(i0 as int, d0 as int, i1 as int, d1 as int, j),
        decreases n - k,
    {
        proof {
            lemma_mul_bound(d0 as int, n as int, 0x8000_0000, 0x1_0000_0000);
            lemma_mul_bound(k as int, dd as int, 0x1_0000_0000, 0x1_0000_0000);
        }
        let num: i128 = 2 * (d0 as i128 * n as i128 + k as i128 * dd as i128) + n as i128;
        let e: i128 = tdiv_i128(num, 2 * n as i128);
        proof {
            lemma_i32_elem_fits(i0 as int, d0 as int, i1 as int, d1 as int, k as int);
        }
        v.push(e as i32);
        k = k + 1;
    }
    v.push(d1);
    v
}

/// Interpolation on fixed-point values over the inclusive span `i0..=i1` of
/// whole-number steps: each element is the exact interpolant rounded to the
/// nearest representable value, the last is exactly `d1`, and a degenerate
/// span yields the single midpoint.
pub fn fx_lerp_vec(i0: i64, d0: i64, i1: i64, d1: i64) -> (v: Vec<i64>)
    requires
        i1 as int - i0 as int <= 0x1_0000_0000,
    ensures
        i0 >= i1 ==> v@.len() == 1
            && v@[0] == clamp64(rdiv(d0 as int + d1 as int, 2)),
        i0 < i1 ==> v@.len() == i1 - i0 + 1
            && forall|k: int| 0 <= k < v@.len()
                ==> v@[k] == fx_lerp_at(i0 as int, d0 as int, i1 as int, d1 as int, k),
        i0 < i1 ==> v@[v@.len() - 1] == d1,
{
    let mut v: Vec<i64> = Vec::new();
    if i0 >= i1 {
        let m: i64 = rdiv64(d0 as i128 + d1 as i128, 2);
        v.push(m);
        return v;
    }
    let n: i64 = i1 - i0;
    let mut k: i64 = 0;
    while k < n
        invariant
            1 <= n <= 0x1_0000_0000,
            n == i1 - i0,
            i0 < i1,
            0 <= k <= n,
            v@.len() == k,
            forall|j: int| 0 <= j < k
                ==> v@[j] == fx_lerp_at(i0 as int, d0 as int, i1 as int, d1 as int, j),
        decreases n - k,
    {
        proof {
            lemma_mul_bound(d0 as int, n as int, 0x8000_0000_0000_0000, 0x1_0000_0000);
            lemma_mul_bound(
                k as int,
                d1 as int - d0 as int,
                0x1_0000_0000,
                0x1_0000_0000_0000_0000,
            );
        }
        let num: i128 = d0 as i128 * n as i128 + k as i128 * (d1 as i128 - d0 as i128);
        let e: i64 = rdiv64(num, n as i128);
        proof {
            let lo = if d0 <= d1 { d0 as int } else { d1 as int };
            let hi = if d0 <= d1 { d1 as int } else { d0 as int };
            lemma_convex_num(d0 as int, d1 as int, n as int, k as int, lo, hi);
            lemma_rdiv_between(num as int, n as int, lo, hi);
        }
        v.push(e);
        k = k + 1;
    }
    v.push(d1);
    v
}

/// A value `f` of the way from `a` to `b`, as the nearest `u32` (clamped):
/// the blend `a + f * (b - a)` with `f` a fixed-point fraction.
pub fn u32_lerp(a: u32, b: u32, f: i64) -> (r: u32)
    ensures
        r as int == {
            let x = rdiv((b as int - a as int) * f + (a as int) * (crate::fixed::FX_ONE as int),
                crate::fixed::FX_ONE as int);
            if x > u32::MAX { u32::MAX as int } else if x < 0 { 0 } else { x }
        },
{
    proof {
        lemma_mul_bound(
            b as int - a as int,
            f as int,
            0x1_0000_0000,
            0x8000_0000_0000_0000,
        );
    }
    let num: i128 = (b as i128 - a as i128) * f as i128
        + a as i128 * crate::fixed::FX_ONE as i128;
    let q: i128 = floor_div_i128(2 * num + crate::fixed::FX_ONE as i128,
        2 * crate::fixed::FX_ONE as i128);
    if q > u32::MAX as i128 {
        u32::MAX
    } else if q < 0 {
        0
    } else {
        q as u32
    }
}

} // verus!
