//! Fixed-point scale shared by the whole pipeline, together with the two
//! numeric kernels every component leans on: rounding a micro-unit quantity
//! to the nearest whole unit, and the integer square root.

use vstd::prelude::*;

verus! {

/// Number of micro-units in one whole unit (pixel, meter, or cosine).
pub const MICRO: i64 = 1_000_000;

/// Half of `MICRO`; the rounding threshold.
pub const MICRO_HALF: i64 = 500_000;

/// Coordinates handled by the pipeline are kept within this many micro-units
/// (one million whole units), so that products of two coordinates and sums of
/// a few such products stay well inside `i128`.
pub const COORD_LIMIT: i64 = 1_000_000_000_000;

/// A micro-unit coordinate the pipeline accepts.
pub open spec fn in_coord_range(v: i64) -> bool {
    -COORD_LIMIT <= v <= COORD_LIMIT
}

/// Rounding of the quotient `n / d` to the nearest integer, halves away from
/// zero; the convention used when a micro-unit quantity becomes a pixel.
pub open spec fn round_div_half_away(n: int, d: int) -> int
    recommends
        d > 0,
{
    if n >= 0 {
        (n + d / 2) / d
    } else {
        -((-n + d / 2) / d)
    }
}

/// `r` is the integer square root of `n`: the largest integer whose square
/// does not exceed `n`.
pub open spec fn is_sqrt_floor(r: int, n: int) -> bool {
    &&& 0 <= r
    &&& r * r <= n
    &&& n < (r + 1) * (r + 1)
}

/// Rounds a micro-unit quantity to the nearest whole unit, halves away from
/// zero.
pub fn round_to_unit(m: i64) -> (r: i64)
    requires
        in_coord_range(m),
    ensures
        r == round_div_half_away(m as int, MICRO as int),
{
    if m >= 0 {
        (m + MICRO_HALF) / MICRO
    } else {
        -((-m + MICRO_HALF) / MICRO)
    }
}

/// Integer square root by bisection over the whole `u128` range.
pub fn isqrt(n: u128) -> (r: u128)
    ensures
        is_sqrt_floor(r as int, n as int),
{
    let mut lo: u128 = 0;
    let mut hi: u128 = 0x1_0000_0000_0000_0000;
    proof {
        assert((hi as int) * (hi as int) > n as int) by (nonlinear_arith)
            requires
                hi == 0x1_0000_0000_0000_0000u128,
                n <= u128::MAX,
        ;
    }
    while hi - lo > 1
        invariant
            0 <= lo < hi <= 0x1_0000_0000_0000_0000u128,
            (lo as int) * (lo as int) <= n as int,
            (n as int) < (hi as int) * (hi as int),
        decreases hi - lo,
    {
        let mid: u128 = lo + (hi - lo) / 2;
        proof {
            assert((mid as int) * (mid as int) < u128::MAX as int) by (nonlinear_arith)
                requires
                    mid < 0x1_0000_0000_0000_0000u128,
            ;
        }
        let sq: u128 = mid * mid;
        if sq <= n {
            lo = mid;
        } else {
            hi = mid;
        }
    }
    lo
}

} // verus!
