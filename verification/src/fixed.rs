//! Signed fixed-point scalars with sixteen fractional bits.
//!
//! A scalar is an `i64` that counts units of `1 / ONE`. Every operation is
//! total: a result that leaves the range of `i64` is pinned to the nearest
//! bound, and quotients round toward zero, so that negating an operand
//! negates the result.

use vstd::prelude::*;

verus! {

/// The raw value that stands for the number one.
pub const ONE: i64 = 65536;

/// The nearest `i64` to `x`.
pub open spec fn saturate(x: int) -> i64 {
    if x < i64::MIN {
        i64::MIN
    } else if x > i64::MAX {
        i64::MAX
    } else {
        x as i64
    }
}

/// The quotient of `n` by `d`, rounded toward zero.
pub open spec fn div_toward_zero(n: int, d: int) -> int
    recommends
        d != 0,
{
    let q = vstd::math::abs(n) as int / vstd::math::abs(d) as int;
    if (n >= 0) == (d > 0) {
        q
    } else {
        -q
    }
}

/// `a + b`, saturated.
pub open spec fn spec_fx_add(a: i64, b: i64) -> i64 {
    saturate(a + b)
}

/// `a - b`, saturated.
pub open spec fn spec_fx_sub(a: i64, b: i64) -> i64 {
    saturate(a - b)
}

/// `-a`, saturated.
pub open spec fn spec_fx_neg(a: i64) -> i64 {
    saturate(-a)
}

/// `|a|`, saturated.
pub open spec fn spec_fx_abs(a: i64) -> i64 {
    saturate(vstd::math::abs(a as int) as int)
}

/// The fixed-point product: `a * b / ONE`, rounded toward zero and saturated.
pub open spec fn spec_fx_mul(a: i64, b: i64) -> i64 {
    saturate(div_toward_zero(a * b, ONE as int))
}

/// The fixed-point quotient: `a * ONE / b`, rounded toward zero and saturated.
/// A quotient by zero is pinned to the bound on the side of the dividend,
/// and zero by zero is zero.
pub open spec fn spec_fx_div(a: i64, b: i64) -> i64 {
    if b != 0 {
        saturate(div_toward_zero(a * ONE, b as int))
    } else if a > 0 {
        i64::MAX
    } else if a < 0 {
        i64::MIN
    } else {
        0
    }
}

/// Half of `a`, rounded toward zero.
pub open spec fn spec_fx_half(a: i64) -> i64 {
    div_toward_zero(a as int, 2) as i64
}

/// The scalar that stands for the whole number `n`, saturated.
pub open spec fn spec_fx_from_int(n: i64) -> i64 {
    saturate(n * ONE)
}

/// `r` is the integer square root of `n`: the largest integer whose square
/// does not exceed `n`.
pub open spec fn is_int_sqrt(n: int, r: int) -> bool {
    0 <= r && r * r <= n < (r + 1) * (r + 1)
}

/// The integer square root of `n`.
pub open spec fn spec_int_sqrt(n: int) -> int
    recommends
        n >= 0,
{
    choose|r: int| is_int_sqrt(n, r)
}

/// The fixed-point length of the vector `(x, y)`: the integer square root of
/// `x * x + y * y`, saturated.
pub open spec fn spec_fx_hypot(x: i64, y: i64) -> i64 {
    saturate(spec_int_sqrt(x * x + y * y))
}

/// At most one integer is the integer square root of `n`.
pub proof fn lemma_int_sqrt_unique(n: int, r1: int, r2: int)
    requires
        is_int_sqrt(n, r1),
        is_int_sqrt(n, r2),
    ensures
        r1 == r2,
{
    if r1 < r2 {
        assert((r1 + 1) * (r1 + 1) <= r2 * r2) by (nonlinear_arith)
            requires
                0 <= r1,
                r1 + 1 <= r2,
        ;
    } else if r2 < r1 {
        assert((r2 + 1) * (r2 + 1) <= r1 * r1) by (nonlinear_arith)
            requires
                0 <= r2,
                r2 + 1 <= r1,
        ;
    }
}

/// Any integer square root of `n` is the one that `spec_int_sqrt` names.
pub proof fn lemma_int_sqrt_is(n: int, r: int)
    requires
        is_int_sqrt(n, r),
    ensures
        spec_int_sqrt(n) == r,
{
    let c = choose|c: int| is_int_sqrt(n, c);
    lemma_int_sqrt_unique(n, r, c);
}

/// The product of two 64-bit values stays within 126 bits.
proof fn lemma_product_bound(a: i64, b: i64)
    ensures
        -0x4000_0000_0000_0000_0000_0000_0000_0000 <= a * b
            <= 0x4000_0000_0000_0000_0000_0000_0000_0000,
{
    assert(-0x4000_0000_0000_0000_0000_0000_0000_0000 <= a * b
        <= 0x4000_0000_0000_0000_0000_0000_0000_0000) by (nonlinear_arith)
        requires
            -0x8000_0000_0000_0000 <= a <= 0x7fff_ffff_ffff_ffff,
            -0x8000_0000_0000_0000 <= b <= 0x7fff_ffff_ffff_ffff,
    ;
}

fn clamp_wide(x: i128) -> (r: i64)
    ensures
        r == saturate(x as int),
{
    if x < i64::MIN as i128 {
        i64::MIN
    } else if x > i64::MAX as i128 {
        i64::MAX
    } else {
        x as i64
    }
}

fn wide_abs(x: i128) -> (r: u128)
    requires
        -0x4000_0000_0000_0000_0000_0000_0000_0000 <= x
            <= 0x4000_0000_0000_0000_0000_0000_0000_0000,
    ensures
        r == vstd::math::abs(x as int),
{
    if x >= 0 {
        x as u128
    } else {
        (-x) as u128
    }
}

fn wide_div(n: i128, d: i128) -> (q: i128)
    requires
        d != 0,
        -0x4000_0000_0000_0000_0000_0000_0000_0000 <= n
            <= 0x4000_0000_0000_0000_0000_0000_0000_0000,
        -0x4000_0000_0000_0000_0000_0000_0000_0000 <= d
            <= 0x4000_0000_0000_0000_0000_0000_0000_0000,
    ensures
        q == div_toward_zero(n as int, d as int),
{
    let un = wide_abs(n);
    let ud = wide_abs(d);
    let uq: u128 = un / ud;
    assert(uq <= un) by (nonlinear_arith)
        requires
            uq == un / ud,
            ud >= 1,
    ;
    if (n >= 0) == (d > 0) {
        uq as i128
    } else {
        -(uq as i128)
    }
}

/// Saturating sum.
pub fn fx_add(a: i64, b: i64) -> (r: i64)
    ensures
        r == spec_fx_add(a, b),
{
    clamp_wide(a as i128 + b as i128)
}

/// Saturating difference.
pub fn fx_sub(a: i64, b: i64) -> (r: i64)
    ensures
        r == spec_fx_sub(a, b),
{
    clamp_wide(a as i128 - b as i128)
}

/// Saturating negation.
pub fn fx_neg(a: i64) -> (r: i64)
    ensures
        r == spec_fx_neg(a),
{
    clamp_wide(-(a as i128))
}

/// Saturating absolute value.
pub fn fx_abs(a: i64) -> (r: i64)
    ensures
        r == spec_fx_abs(a),
{
    if a >= 0 {
        a
    } else {
        clamp_wide(-(a as i128))
    }
}

/// Fixed-point product.
pub fn fx_mul(a: i64, b: i64) -> (r: i64)
    ensures
        r == spec_fx_mul(a, b),
{
    proof {
        lemma_product_bound(a, b);
    }
    let p: i128 = a as i128 * b as i128;
    clamp_wide(wide_div(p, ONE as i128))
}

/// Fixed-point quotient.
pub fn fx_div(a: i64, b: i64) -> (r: i64)
    ensures
        r == spec_fx_div(a, b),
{
    if b != 0 {
        assert(ONE == 65536);
        let n: i128 = a as i128 * 65536;
        clamp_wide(wide_div(n, b as i128))
    } else if a > 0 {
        i64::MAX
    } else if a < 0 {
        i64::MIN
    } else {
        0
    }
}

/// Half of a scalar.
pub fn fx_half(a: i64) -> (r: i64)
    ensures
        r == spec_fx_half(a),
{
    let q = wide_div(a as i128, 2);
    q as i64
}

/// The scalar for a whole number.
pub fn fx_from_int(n: i64) -> (r: i64)
    ensures
        r == spec_fx_from_int(n),
{
    assert(ONE == 65536);
    clamp_wide(n as i128 * 65536)
}

/// Integer square root by bisection.
pub fn int_sqrt(n: u128) -> (r: u128)
    ensures
        r == spec_int_sqrt(n as int),
        is_int_sqrt(n as int, r as int),
        r < 0x1_0000_0000_0000_0000,
{
    let mut lo: u128 = 0;
    let mut hi: u128 = 0x1_0000_0000_0000_0000;
    assert(hi * hi > n) by (nonlinear_arith)
        requires
            hi == 0x1_0000_0000_0000_0000,
            n <= 0xffff_ffff_ffff_ffff_ffff_ffff_ffff_ffff,
    ;
    while hi - lo > 1
        invariant
            lo < hi <= 0x1_0000_0000_0000_0000,
            lo * lo <= n < hi * hi,
        decreases hi - lo,
    {
        let mid: u128 = lo + (hi - lo) / 2;
        assert(mid * mid <= 0xffff_ffff_ffff_ffff * 0xffff_ffff_ffff_ffff) by (nonlinear_arith)
            requires
                0 <= mid <= 0xffff_ffff_ffff_ffff,
        ;
        if mid * mid <= n {
            lo = mid;
        } else {
            hi = mid;
        }
    }
    proof {
        assert(hi == lo + 1);
        lemma_int_sqrt_is(n as int, lo as int);
    }
    lo
}

/// Fixed-point length of the vector `(x, y)`.
pub fn fx_hypot(x: i64, y: i64) -> (r: i64)
    ensures
        r == spec_fx_hypot(x, y),
{
    proof {
        lemma_product_bound(x, x);
        lemma_product_bound(y, y);
        assert(x * x >= 0) by (nonlinear_arith);
        assert(y * y >= 0) by (nonlinear_arith);
    }
    let xx: i128 = x as i128 * x as i128;
    let yy: i128 = y as i128 * y as i128;
    let s: u128 = xx as u128 + yy as u128;
    let root = int_sqrt(s);
    if root > i64::MAX as u128 {
        i64::MAX
    } else {
        root as i64
    }
}

} // verus!
