//! Fixed-point arithmetic shared by the camera and the gesture code.
//!
//! Every quantity of the library is an integer. Lengths in the scene and
//! trigonometric ratios are counted in millionths, angles in microdegrees.
//! This module holds the few operations that such arithmetic needs beyond
//! `+`, `-` and `*`: division that rounds toward zero, clamping into a range,
//! and the integer square root.

use vstd::prelude::*;

verus! {

/// The number of fixed-point steps in one whole.
pub const MICRO: i64 = 1_000_000;

/// Quotient of `n` by a positive `d`, rounded toward zero.
///
/// Rounding toward zero keeps a displacement and its opposite equal in size:
/// `trunc_div(-n, d) == -trunc_div(n, d)`.
pub open spec fn trunc_div(n: int, d: int) -> int
    recommends
        d > 0,
{
    if n >= 0 {
        n / d
    } else {
        -((-n) / d)
    }
}

/// `x` moved to the nearest value of the closed range from `lo` to `hi`.
pub open spec fn clamp(x: int, lo: int, hi: int) -> int
    recommends
        lo <= hi,
{
    if x < lo {
        lo
    } else if x > hi {
        hi
    } else {
        x
    }
}

/// `x` moved to the nearest value that a 64-bit signed integer can hold.
pub open spec fn saturate(x: int) -> int {
    clamp(x, i64::MIN as int, i64::MAX as int)
}

/// Whether `r` is the integer square root of `n`: the largest integer whose
/// square does not exceed `n`.
pub open spec fn is_root(n: int, r: int) -> bool {
    0 <= r && r * r <= n < (r + 1) * (r + 1)
}

/// The integer square root of a non-negative `n`.
pub open spec fn isqrt(n: int) -> int
    recommends
        n >= 0,
{
    choose|r: int| is_root(n, r)
}

/// A number has at most one integer square root.
pub proof fn lemma_root_unique(n: int, r: int, s: int)
    requires
        is_root(n, r),
        is_root(n, s),
    ensures
        r == s,
{
    if r < s {
        assert((r + 1) * (r + 1) <= s * s) by (nonlinear_arith)
            requires
                0 <= r,
                r + 1 <= s,
        ;
    } else if s < r {
        assert((s + 1) * (s + 1) <= r * r) by (nonlinear_arith)
            requires
                0 <= s,
                s + 1 <= r,
        ;
    }
}

/// Every non-negative number has an integer square root, and `isqrt` names it.
pub proof fn lemma_isqrt(n: int)
    requires
        n >= 0,
    ensures
        is_root(n, isqrt(n)),
    decreases n,
{
    if n == 0 {
        assert(is_root(0, 0));
    } else {
        lemma_isqrt(n - 1);
        let r = isqrt(n - 1);
        if (r + 1) * (r + 1) <= n {
            assert((r + 2) * (r + 2) > n) by (nonlinear_arith)
                requires
                    0 <= r,
                    n - 1 < (r + 1) * (r + 1),
            ;
            assert(is_root(n, r + 1));
        } else {
            assert(is_root(n, r));
        }
    }
}

/// Whatever passes the test of `is_root` is the value of `isqrt`.
pub proof fn lemma_isqrt_is(n: int, r: int)
    requires
        is_root(n, r),
    ensures
        isqrt(n) == r,
{
    lemma_root_unique(n, r, isqrt(n));
}

/// The product of two bounded integers is bounded by the product of the
/// bounds.
pub proof fn lemma_product_bound(a: int, b: int, m: int, n: int)
    by (nonlinear_arith)
    requires
        -m <= a <= m,
        -n <= b <= n,
    ensures
        -(m * n) <= a * b <= m * n,
{
}

/// A quotient is no larger than the bound of its dividend allows: if `n` lies
/// within `m * d` of zero, `trunc_div(n, d)` lies within `m` of zero.
pub proof fn lemma_trunc_div_bound(n: int, d: int, m: int)
    requires
        d > 0,
        m >= 0,
        -(m * d) <= n <= m * d,
    ensures
        -m <= trunc_div(n, d) <= m,
        n >= 0 ==> trunc_div(n, d) >= 0,
        n <= 0 ==> trunc_div(n, d) <= 0,
{
    let a: int = if n >= 0 { n } else { -n };
    assert(0 <= a / d <= m) by (nonlinear_arith)
        requires
            d > 0,
            m >= 0,
            0 <= a <= m * d,
    ;
}

/// Nothing divided by anything is nothing.
pub proof fn lemma_trunc_div_zero(d: int)
    requires
        d > 0,
    ensures
        trunc_div(0, d) == 0,
{
    lemma_trunc_div_bound(0, d, 0);
}

/// Divides `n` by a positive `d` and rounds toward zero.
pub fn div_toward_zero(n: i128, d: i128) -> (q: i128)
    requires
        d > 0,
    ensures
        q == trunc_div(n as int, d as int),
{
    n / d
}

/// Moves `x` into the closed range from `lo` to `hi`.
pub fn clamp_to(x: i128, lo: i64, hi: i64) -> (r: i64)
    requires
        lo <= hi,
    ensures
        r == clamp(x as int, lo as int, hi as int),
{
    if x < lo as i128 {
        lo
    } else if x > hi as i128 {
        hi
    } else {
        x as i64
    }
}

/// Moves `x` to the nearest 64-bit signed integer.
pub fn saturate_to_i64(x: i128) -> (r: i64)
    ensures
        r == saturate(x as int),
{
    clamp_to(x, i64::MIN, i64::MAX)
}

/// Computes the integer square root by bisection.
pub fn integer_sqrt(n: u128) -> (r: u64)
    ensures
        r == isqrt(n as int),
        is_root(n as int, r as int),
{
    let mut lo: u128 = 0;
    let mut hi: u128 = 0x1_0000_0000_0000_0000;
    assert(n < hi * hi) by (nonlinear_arith)
        requires
            hi == 0x1_0000_0000_0000_0000,
            n <= u128::MAX,
    ;
    while hi - lo > 1
        invariant
            lo < hi <= 0x1_0000_0000_0000_0000,
            lo * lo <= n < hi * hi,
        decreases hi - lo,
    {
        let mid: u128 = lo + (hi - lo) / 2;
        assert(mid * mid <= u128::MAX) by (nonlinear_arith)
            requires
                0 <= mid < 0x1_0000_0000_0000_0000,
        ;
        if mid * mid <= n {
            lo = mid;
        } else {
            hi = mid;
        }
    }
    proof {
        assert(hi == lo + 1);
        lemma_isqrt_is(n as int, lo as int);
    }
    lo as u64
}

} // verus!
