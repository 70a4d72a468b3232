//! Fixed-point scale, truncating division, and the small arithmetic
//! lemmas the rest of the crate leans on.

use vstd::prelude::*;
use vstd::arithmetic::div_mod::lemma_div_is_ordered;
use vstd::arithmetic::div_mod::lemma_div_by_multiple;
use vstd::arithmetic::div_mod::lemma_div_pos_is_pos;
use vstd::arithmetic::div_mod::lemma_div_nonincreasing;

verus! {

/// Number of fixed-point units per world unit: a raw coordinate `r`
/// stands for the world coordinate `r / SCALE`.
pub const SCALE: i64 = 1024;

/// Largest raw coordinate magnitude the rasterizer accepts (2^20); keeps
/// every intermediate product of the interpolation inside `i128`.
pub const COORD_LIMIT: i64 = 1048576;

/// Largest raw coordinate magnitude of a mesh at rest (2^19): a rotated
/// copy of such a mesh always stays within `COORD_LIMIT`.
pub const MESH_LIMIT: i64 = 524288;

/// Truncating division (round toward zero) of `a` by a positive `b`;
/// the rounding that fixed-point multiplication and the camera mapping use.
pub open spec fn tdiv(a: int, b: int) -> int {
    if a >= 0 {
        a / b
    } else {
        -((-a) / b)
    }
}

/// A product of values bounded in magnitude is bounded by the product of
/// the bounds.
pub proof fn lemma_mul_bound(a: int, b: int, am: int, bm: int)
    by (nonlinear_arith)
    requires
        -am <= a <= am,
        -bm <= b <= bm,
    ensures
        -(am * bm) <= a * b <= am * bm,
{
}

/// A quotient's magnitude never exceeds the magnitude bound of the
/// dividend divided by the (positive) divisor.
pub proof fn lemma_tdiv_bound(a: int, b: int, m: int)
    requires
        b > 0,
        m >= 0,
        -(m * b) <= a <= m * b,
    ensures
        -m <= tdiv(a, b) <= m,
{
    if a >= 0 {
        lemma_div_is_ordered(a, m * b, b);
        lemma_div_by_multiple(m, b);
        lemma_div_pos_is_pos(a, b);
    } else {
        lemma_div_is_ordered(-a, m * b, b);
        lemma_div_by_multiple(m, b);
        lemma_div_pos_is_pos(-a, b);
    }
}

/// Dividing an exact multiple truncates nothing.
pub proof fn lemma_tdiv_exact(a: int, b: int)
    requires
        b > 0,
    ensures
        tdiv(a * b, b) == a,
{
    if a >= 0 {
        lemma_div_by_multiple(a, b);
    } else {
        lemma_div_by_multiple(-a, b);
        assert(-(a * b) == (-a) * b) by (nonlinear_arith);
    }
}

/// Truncating division of an `i64` by a positive `i64`, computed through
/// unsigned division so that the rounding direction is pinned down.
pub fn tdiv_i64(a: i64, b: i64) -> (r: i64)
    requires
        0 < b,
        -0x4000_0000_0000_0000 <= a <= 0x4000_0000_0000_0000,
    ensures
        r == tdiv(a as int, b as int),
{
    if a >= 0 {
        proof {
            lemma_div_is_ordered(a as int, 0x4000_0000_0000_0000, b as int);
            lemma_div_nonincreasing(a as int, b as int);
            lemma_div_pos_is_pos(a as int, b as int);
        }
        ((a as u64) / (b as u64)) as i64
    } else {
        let neg: i64 = -a;
        proof {
            lemma_div_nonincreasing(neg as int, b as int);
            lemma_div_pos_is_pos(neg as int, b as int);
        }
        -(((neg as u64) / (b as u64)) as i64)
    }
}

/// Truncating division of an `i128` by a positive `i128`, computed
/// through unsigned division so the rounding direction is pinned down.
pub fn tdiv_i128(a: i128, b: i128) -> (r: i128)
    requires
        0 < b,
        -0x4000_0000_0000_0000_0000_0000_0000_0000 <= a
            <= 0x4000_0000_0000_0000_0000_0000_0000_0000,
    ensures
        r == tdiv(a as int, b as int),
{
    if a >= 0 {
        proof {
            lemma_div_nonincreasing(a as int, b as int);
            lemma_div_pos_is_pos(a as int, b as int);
        }
        ((a as u128) / (b as u128)) as i128
    } else {
        let neg: i128 = -a;
        proof {
            lemma_div_nonincreasing(neg as int, b as int);
            lemma_div_pos_is_pos(neg as int, b as int);
        }
        -(((neg as u128) / (b as u128)) as i128)
    }
}

/// Floor of the square root of a 64-bit integer, by bisection.
pub fn isqrt_u64(n: u64) -> (r: u64)
    ensures
        r * r <= n < (r + 1) * (r + 1),
{
    let mut lo: u64 = 0;
    let mut hi: u64 = 0x1_0000_0000;
    proof {
        assert((0x1_0000_0000 as int) * (0x1_0000_0000 as int) > n as int);
    }
    while lo + 1 < hi
        invariant
            lo < hi <= 0x1_0000_0000,
            lo * lo <= n,
            n < hi * hi,
        decreases hi - lo,
    {
        let mid: u64 = lo + (hi - lo) / 2;
        proof {
            lemma_mul_bound(mid as int, mid as int, 0x1_0000_0000, 0x1_0000_0000);
        }
        if (mid as u128) * (mid as u128) <= n as u128 {
            lo = mid;
        } else {
            hi = mid;
        }
    }
    lo
}

} // verus!
