//! Fixed-point scalar arithmetic.
//!
//! A quantity is stored in an `i64` counting units of `1 / SCALE`.  Every
//! executable operation has an exact contract: it returns the mathematical
//! result of the corresponding integer expression, rounded toward zero where
//! a division occurs.

use vstd::prelude::*;
use vstd::arithmetic::div_mod::{
    lemma_div_by_multiple, lemma_div_is_ordered, lemma_div_nonincreasing, lemma_div_pos_is_pos,
};

verus! {

/// Number of fixed-point units in one whole unit (sixteen fractional bits).
pub const SCALE: i64 = 65536;

/// Truncating division (rounding toward zero) for a positive divisor,
/// matching the behaviour of hardware integer division.
pub open spec fn div_tr(a: int, b: int) -> int {
    if a >= 0 {
        a / b
    } else {
        -((-a) / b)
    }
}

/// `r` is the floor of the square root of `n`.
pub open spec fn is_sqrt_floor(n: int, r: int) -> bool {
    0 <= r && r * r <= n && n < (r + 1) * (r + 1)
}

/// Floor of the square root of `n` (0 for negative arguments).
pub closed spec fn sqrt_floor(n: int) -> int
    decreases n,
{
    if n <= 0 {
        0
    } else {
        let p = sqrt_floor(n - 1);
        if (p + 1) * (p + 1) <= n {
            p + 1
        } else {
            p
        }
    }
}

/// `sqrt_floor` really is the floor of the square root.
pub proof fn lemma_sqrt_floor(n: int)
    requires
        n >= 0,
    ensures
        is_sqrt_floor(n, sqrt_floor(n)),
    decreases n,
{
    if n == 0 {
        assert(sqrt_floor(0) == 0);
    } else {
        lemma_sqrt_floor(n - 1);
        let p = sqrt_floor(n - 1);
        if (p + 1) * (p + 1) <= n {
            assert((p + 2) * (p + 2) > n) by (nonlinear_arith)
                requires
                    n - 1 < (p + 1) * (p + 1),
                    0 <= p,
            ;
        }
    }
}

/// The floor square root is unique.
pub proof fn lemma_sqrt_floor_unique(n: int, r: int)
    requires
        n >= 0,
        is_sqrt_floor(n, r),
    ensures
        r == sqrt_floor(n),
{
    lemma_sqrt_floor(n);
    let s = sqrt_floor(n);
    if r < s {
        assert((r + 1) * (r + 1) <= s * s) by (nonlinear_arith)
            requires
                0 <= r + 1 <= s,
        ;
        assert(false);
    }
    if s < r {
        assert((s + 1) * (s + 1) <= r * r) by (nonlinear_arith)
            requires
                0 <= s + 1 <= r,
        ;
        assert(false);
    }
}

/// Interval bound for a product of two bounded factors.
pub proof fn lemma_mul_bounds(a: int, b: int, ma: int, mb: int)
    by (nonlinear_arith)
    requires
        -ma <= a <= ma,
        -mb <= b <= mb,
        0 <= ma,
        0 <= mb,
    ensures
        -(ma * mb) <= a * b <= ma * mb,
{
}

/// Interval bound for a truncating division with a positive divisor.
pub proof fn lemma_div_tr_bounds(a: int, b: int, m: int)
    requires
        b >= 1,
        -m <= a <= m,
        0 <= m,
    ensures
        -(m / b) <= div_tr(a, b) <= m / b,
{
    if a >= 0 {
        lemma_div_pos_is_pos(a, b);
        lemma_div_is_ordered(a, m, b);
        lemma_div_pos_is_pos(m, b);
    } else {
        lemma_div_pos_is_pos(-a, b);
        lemma_div_is_ordered(-a, m, b);
        lemma_div_pos_is_pos(m, b);
    }
}

/// Truncating division of fixed-point (or plain) integers; the divisor must
/// be positive.
pub fn div_exact(a: i64, b: i64) -> (r: i64)
    requires
        -0x4000_0000_0000_0000 <= a <= 0x4000_0000_0000_0000,
        1 <= b,
    ensures
        r == div_tr(a as int, b as int),
        -0x4000_0000_0000_0000 <= r <= 0x4000_0000_0000_0000,
{
    proof {
        lemma_div_tr_bounds(a as int, b as int, 0x4000_0000_0000_0000);
        lemma_div_nonincreasing(0x4000_0000_0000_0000, b as int);
    }
    if a >= 0 {
        let q: u64 = (a as u64) / (b as u64);
        q as i64
    } else {
        let q: u64 = ((-a) as u64) / (b as u64);
        -(q as i64)
    }
}

/// Fixed-point product: `a * b` scaled back down by `SCALE`, rounded toward
/// zero.
pub fn mul_fp(a: i64, b: i64) -> (r: i64)
    requires
        -0x10_0000_0000 <= a <= 0x10_0000_0000,
        -0x10_0000_0000 <= b <= 0x10_0000_0000,
    ensures
        r == div_tr(a as int * b as int, SCALE as int),
        -0x100_0000_0000_0000 <= r <= 0x100_0000_0000_0000,
{
    proof {
        lemma_mul_bounds(a as int, b as int, 0x10_0000_0000, 0x10_0000_0000);
        lemma_div_tr_bounds(a as int * b as int, SCALE as int, 0x10_0000_0000int * 0x10_0000_0000int);
        assert(0x10_0000_0000int * 0x10_0000_0000int / (SCALE as int) == 0x100_0000_0000_0000int);
    }
    let p: i128 = (a as i128) * (b as i128);
    if p >= 0 {
        let q: u128 = (p as u128) / 65536;
        q as i64
    } else {
        let q: u128 = ((-p) as u128) / 65536;
        -(q as i64)
    }
}

/// Fixed-point quotient: `a / b` in fixed-point, i.e. `a * SCALE / b`,
/// rounded toward zero; the divisor must be positive.
pub fn div_fp(a: i64, b: i64) -> (r: i64)
    requires
        -0x100_0000_0000 <= a <= 0x100_0000_0000,
        1 <= b,
    ensures
        r == div_tr(a as int * SCALE as int, b as int),
        -0x100_0000_0000_0000 <= r <= 0x100_0000_0000_0000,
{
    proof {
        lemma_mul_bounds(a as int, SCALE as int, 0x100_0000_0000, SCALE as int);
        lemma_div_tr_bounds(a as int * SCALE as int, b as int, 0x100_0000_0000 * SCALE as int);
        lemma_div_nonincreasing(0x100_0000_0000 * SCALE as int, b as int);
        assert(0x100_0000_0000 * (SCALE as int) == 0x100_0000_0000_0000);
    }
    let p: i128 = (a as i128) * 65536;
    if p >= 0 {
        let q: u128 = (p as u128) / (b as u128);
        q as i64
    } else {
        let q: u128 = ((-p) as u128) / (b as u128);
        -(q as i64)
    }
}

/// Interval bound for a fixed-point product of two bounded factors.
pub proof fn lemma_mul_fp_bounds(a: int, b: int, ma: int, mb: int)
    requires
        -ma <= a <= ma,
        -mb <= b <= mb,
        0 <= ma,
        0 <= mb,
    ensures
        -((ma * mb) / (SCALE as int)) <= div_tr(a * b, SCALE as int)
            <= (ma * mb) / (SCALE as int),
{
    lemma_mul_bounds(a, b, ma, mb);
    lemma_div_tr_bounds(a * b, SCALE as int, ma * mb);
}

/// If the numerator lies within `k` times the divisor, the truncating
/// quotient lies within `k`.
pub proof fn lemma_div_tr_quotient_bound(a: int, b: int, k: int)
    requires
        b >= 1,
        0 <= k,
        -(k * b) <= a <= k * b,
    ensures
        -k <= div_tr(a, b) <= k,
{
    lemma_div_by_multiple(k, b);
    if a >= 0 {
        lemma_div_pos_is_pos(a, b);
        lemma_div_is_ordered(a, k * b, b);
    } else {
        lemma_div_pos_is_pos(-a, b);
        lemma_div_is_ordered(-a, k * b, b);
    }
}

/// Widening product of two bounded fixed-point values; the result carries
/// `SCALE * SCALE` units and fits comfortably in an `i128`.
pub fn wide_mul(a: i64, b: i64) -> (r: i128)
    requires
        -0x8_0000_0000 <= a <= 0x8_0000_0000,
        -0x8_0000_0000 <= b <= 0x8_0000_0000,
    ensures
        r == a as int * b as int,
        -0x40_0000_0000_0000_0000 <= r <= 0x40_0000_0000_0000_0000,
{
    proof {
        lemma_mul_bounds(a as int, b as int, 0x8_0000_0000, 0x8_0000_0000);
        assert(0x8_0000_0000int * 0x8_0000_0000int == 0x40_0000_0000_0000_0000int);
        assert((a as i128) as int == a as int);
        assert((b as i128) as int == b as int);
    }
    (a as i128) * (b as i128)
}

/// Widening product of a matrix entry and a vector coordinate; admits
/// larger first factors than `wide_mul`.
pub fn wide_mul_big(a: i64, b: i64) -> (r: i128)
    requires
        -0x40_0000_0000 <= a <= 0x40_0000_0000,
        -0x2_0000_0000 <= b <= 0x2_0000_0000,
    ensures
        r == a as int * b as int,
        -0x80_0000_0000_0000_0000 <= r <= 0x80_0000_0000_0000_0000,
{
    proof {
        lemma_mul_bounds(a as int, b as int, 0x40_0000_0000, 0x2_0000_0000);
        assert(0x40_0000_0000int * 0x2_0000_0000int == 0x80_0000_0000_0000_0000int);
        assert((a as i128) as int == a as int);
        assert((b as i128) as int == b as int);
    }
    (a as i128) * (b as i128)
}

/// Scales a wide intermediate product back down by `SCALE`, rounding toward
/// zero.
pub fn descale_wide(p: i128) -> (r: i64)
    requires
        -0x4000_0000_0000_0000_0000 <= p <= 0x4000_0000_0000_0000_0000,
    ensures
        r == div_tr(p as int, SCALE as int),
        -0x4000_0000_0000_0000 <= r <= 0x4000_0000_0000_0000,
{
    proof {
        lemma_div_tr_bounds(p as int, SCALE as int, 0x4000_0000_0000_0000_0000);
        assert(0x4000_0000_0000_0000_0000int / (SCALE as int) == 0x4000_0000_0000_0000int);
    }
    if p >= 0 {
        let q: u128 = (p as u128) / 65536;
        q as i64
    } else {
        let q: u128 = ((-p) as u128) / 65536;
        -(q as i64)
    }
}

/// Floor of the square root, by binary search on the answer.
pub fn isqrt(n: u128) -> (r: u64)
    ensures
        r == sqrt_floor(n as int),
{
    let mut lo: u128 = 0;
    let mut hi: u128 = 0x1_0000_0000_0000_0000;
    while hi - lo > 1
        invariant
            0 <= lo < hi <= 0x1_0000_0000_0000_0000,
            lo * lo <= n as int,
            (n as int) < hi as int * hi as int,
        decreases hi - lo,
    {
        let mid: u128 = lo + (hi - lo) / 2;
        proof {
            lemma_mul_bounds(
                mid as int,
                mid as int,
                0xffff_ffff_ffff_ffff,
                0xffff_ffff_ffff_ffff,
            );
        }
        let sq: u128 = mid * mid;
        if sq <= n {
            lo = mid;
        } else {
            hi = mid;
        }
    }
    proof {
        assert(is_sqrt_floor(n as int, lo as int));
        lemma_sqrt_floor_unique(n as int, lo as int);
    }
    lo as u64
}

} // verus!
