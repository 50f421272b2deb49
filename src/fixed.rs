//! Saturating fixed-point scalars: a real `v` is held as the integer `v * SCALE`,
//! and every operation clamps its result to `[-LIMIT, LIMIT]`.
use vstd::prelude::*;

verus! {

/// The raw value of 1.0.
pub const SCALE: i64 = 1_000_000;

/// The raw value of 0.5.
pub const HALF: i64 = 500_000;

/// Largest magnitude a scalar can take (2^40 raw units).
pub const LIMIT: i64 = 1_099_511_627_776;

/// Clamps a mathematical integer into the representable range.
pub open spec fn clamp(v: int) -> i64 {
    if v > LIMIT as int {
        LIMIT
    } else if v < -(LIMIT as int) {
        (-LIMIT) as i64
    } else {
        v as i64
    }
}

/// Division truncating toward zero by a positive divisor.
pub open spec fn tdiv(a: int, d: int) -> int {
    if a >= 0 {
        a / d
    } else {
        -((-a) / d)
    }
}

pub open spec fn add_spec(a: i64, b: i64) -> i64 {
    clamp(a + b)
}

pub open spec fn sub_spec(a: i64, b: i64) -> i64 {
    clamp(a - b)
}

pub open spec fn mul_spec(a: i64, b: i64) -> i64 {
    clamp(tdiv(a * b, SCALE as int))
}

/// Division of scalars; dividing by zero gives zero.
pub open spec fn div_spec(a: i64, b: i64) -> i64 {
    if b == 0 {
        0
    } else if b > 0 {
        clamp(tdiv(a * SCALE, b as int))
    } else {
        clamp(-tdiv(a * SCALE, -b))
    }
}

/// `r` is the integer square root of `n`.
pub open spec fn is_isqrt(n: int, r: int) -> bool {
    0 <= r && r * r <= n && n < (r + 1) * (r + 1)
}

pub open spec fn isqrt(n: int) -> int {
    choose|r: int| is_isqrt(n, r)
}

/// Square root of a scalar (floor); non-positive inputs give zero.
pub open spec fn sqrt_spec(a: i64) -> i64 {
    if a <= 0 {
        0
    } else {
        clamp(isqrt(a * SCALE))
    }
}

pub open spec fn neg_spec(a: i64) -> i64 {
    clamp(-a)
}

pub open spec fn min_spec(a: i64, b: i64) -> i64 {
    if a <= b {
        a
    } else {
        b
    }
}

proof fn lemma_isqrt_unique(n: int, r1: int, r2: int)
    requires
        is_isqrt(n, r1),
        is_isqrt(n, r2),
    ensures
        r1 == r2,
{
    if r1 < r2 {
        assert((r1 + 1) * (r1 + 1) <= r2 * r2) by (nonlinear_arith)
            requires
                0 <= r1 < r2,
        ;
    } else if r2 < r1 {
        assert((r2 + 1) * (r2 + 1) <= r1 * r1) by (nonlinear_arith)
            requires
                0 <= r2 < r1,
        ;
    }
}

proof fn lemma_isqrt(n: int, r: int)
    requires
        is_isqrt(n, r),
    ensures
        isqrt(n) == r,
{
    lemma_isqrt_unique(n, r, isqrt(n));
}

fn clamp_wide(v: i128) -> (r: i64)
    ensures
        r == clamp(v as int),
{
    if v > LIMIT as i128 {
        LIMIT
    } else if v < -(LIMIT as i128) {
        -LIMIT
    } else {
        v as i64
    }
}

fn tdiv_wide(a: i128, d: i128) -> (r: i128)
    requires
        d > 0,
        a > i128::MIN,
    ensures
        r as int == tdiv(a as int, d as int),
{
    if a >= 0 {
        let ua: u128 = a as u128;
        (ua / (d as u128)) as i128
    } else {
        let ua: u128 = (-a) as u128;
        -((ua / (d as u128)) as i128)
    }
}

pub fn add(a: i64, b: i64) -> (r: i64)
    ensures
        r == add_spec(a, b),
{
    clamp_wide(a as i128 + b as i128)
}

pub fn sub(a: i64, b: i64) -> (r: i64)
    ensures
        r == sub_spec(a, b),
{
    clamp_wide(a as i128 - b as i128)
}

pub fn mul(a: i64, b: i64) -> (r: i64)
    ensures
        r == mul_spec(a, b),
{
    let (x, y) = (a as i128, b as i128);
    assert(-0x4000_0000_0000_0000_0000_0000_0000_0000 <= x * y <= 0x4000_0000_0000_0000_0000_0000_0000_0000)
        by (nonlinear_arith)
        requires
            -0x8000_0000_0000_0000 <= x <= 0x7fff_ffff_ffff_ffff,
            -0x8000_0000_0000_0000 <= y <= 0x7fff_ffff_ffff_ffff,
    ;
    let q = tdiv_wide(x * y, SCALE as i128);
    clamp_wide(q)
}

pub fn div(a: i64, b: i64) -> (r: i64)
    ensures
        r == div_spec(a, b),
{
    if b == 0 {
        return 0;
    }
    let w = a as i128;
    assert(-0x100_0000_0000_0000_0000_0000 <= w * 1_000_000 <= 0x100_0000_0000_0000_0000_0000)
        by (nonlinear_arith)
        requires
            -0x8000_0000_0000_0000 <= w <= 0x7fff_ffff_ffff_ffff,
    ;
    let n: i128 = w * SCALE as i128;
    if b > 0 {
        let q = tdiv_wide(n, b as i128);
        clamp_wide(q)
    } else {
        let q = tdiv_wide(n, -(b as i128));
        clamp_wide(-q)
    }
}

/// Integer square root of `n` by bisection.
fn isqrt_u128(n: u128) -> (r: u128)
    requires
        n < 0x10_0000_0000_0000_0000_0000,
    ensures
        is_isqrt(n as int, r as int),
        r < 0x400_0000_0000,
{
    let mut lo: u128 = 0;
    let mut hi: u128 = 0x400_0000_0000;
    assert(n < hi * hi) by (nonlinear_arith)
        requires
            n < 0x10_0000_0000_0000_0000_0000,
            hi == 0x400_0000_0000,
    ;
    while hi - lo > 1
        invariant
            lo < hi <= 0x400_0000_0000,
            lo * lo <= n,
            n < hi * hi,
        decreases hi - lo,
    {
        let mid: u128 = lo + (hi - lo) / 2;
        assert(mid * mid <= 0x10_0000_0000_0000_0000_0000) by (nonlinear_arith)
            requires
                mid < 0x400_0000_0000,
        ;
        if mid * mid <= n {
            lo = mid;
        } else {
            hi = mid;
        }
    }
    assert(hi == lo + 1);
    lo
}

pub fn sqrt(a: i64) -> (r: i64)
    ensures
        r == sqrt_spec(a),
{
    if a <= 0 {
        return 0;
    }
    let w = a as u128;
    assert(w * 1_000_000 < 0x10_0000_0000_0000_0000_0000) by (nonlinear_arith)
        requires
            w <= 0x7fff_ffff_ffff_ffff,
    ;
    let n: u128 = w * SCALE as u128;
    let s = isqrt_u128(n);
    proof {
        lemma_isqrt(n as int, s as int);
    }
    clamp_wide(s as i128)
}

pub fn neg(a: i64) -> (r: i64)
    ensures
        r == neg_spec(a),
{
    clamp_wide(-(a as i128))
}

/// Division of a raw value by a positive integer count, truncating toward zero.
pub fn div_count(a: i64, n: i64) -> (r: i64)
    requires
        n > 0,
    ensures
        r as int == tdiv(a as int, n as int),
{
    tdiv_wide(a as i128, n as i128) as i64
}

pub fn min(a: i64, b: i64) -> (r: i64)
    ensures
        r == min_spec(a, b),
{
    if a <= b {
        a
    } else {
        b
    }
}

} // verus!
