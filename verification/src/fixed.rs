//! Scales of the fixed-point quantities, and the integer arithmetic that the
//! estimator and the control law share.
use vstd::prelude::*;

verus! {

/// Ticks of the sample clock in one second.
pub const TICKS_PER_SECOND: u64 = 1_000_000;

/// The gain that stands for a factor of one.
pub const GAIN_ONE: i32 = 1_000_000;

/// The quotient of `a` by `b` with its fraction dropped, so that
/// `div_toward_zero(-a, b) == -div_toward_zero(a, b)`.
pub open spec fn div_toward_zero(a: int, b: int) -> int
    recommends
        b > 0,
{
    if a >= 0 {
        a / b
    } else {
        -((-a) / b)
    }
}

/// `x` held within `[lo, hi]`.
pub open spec fn clamp(x: int, lo: int, hi: int) -> int
    recommends
        lo <= hi,
{
    if x < lo {
        lo
    } else if x > hi {
        hi
    } else {
        x
    }
}

/// `x` held within `limit` of zero on either side.
pub open spec fn clamp_symmetric(x: int, limit: int) -> int
    recommends
        limit >= 0,
{
    clamp(x, -limit, limit)
}

/// `r` is the largest integer whose square does not exceed `n`.
pub open spec fn is_floor_sqrt(n: int, r: int) -> bool {
    0 <= r && r * r <= n < (r + 1) * (r + 1)
}

/// The integer part of the square root of `n`.
pub open spec fn floor_sqrt(n: int) -> int
    recommends
        n >= 0,
{
    choose|r: int| is_floor_sqrt(n, r)
}

/// Squares grow with their base.
pub proof fn lemma_square_monotonic(a: int, b: int)
    by (nonlinear_arith)
    requires
        0 <= a <= b,
    ensures
        a * a <= b * b,
{
}

/// At most one integer is the floor of the square root of `n`.
pub proof fn lemma_floor_sqrt_unique(n: int, a: int, b: int)
    requires
        is_floor_sqrt(n, a),
        is_floor_sqrt(n, b),
    ensures
        a == b,
{
    if a < b {
        lemma_square_monotonic(a + 1, b);
    } else if b < a {
        lemma_square_monotonic(b + 1, a);
    }
}

/// Every `n` from zero up has a floor of its square root, and `floor_sqrt`
/// is it.
pub proof fn lemma_floor_sqrt_exists(n: int)
    requires
        n >= 0,
    ensures
        is_floor_sqrt(n, floor_sqrt(n)),
    decreases n,
{
    if n == 0 {
        assert(is_floor_sqrt(0, 0));
    } else {
        lemma_floor_sqrt_exists(n - 1);
        let r = floor_sqrt(n - 1);
        if (r + 1) * (r + 1) <= n {
            assert(is_floor_sqrt(n, r + 1)) by (nonlinear_arith)
                requires
                    0 <= r,
                    (r + 1) * (r + 1) <= n,
                    n - 1 < (r + 1) * (r + 1),
            ;
        } else {
            assert(is_floor_sqrt(n, r));
        }
    }
}

/// The integer part of the square root of `n`, found by bisection.
pub fn isqrt(n: u128) -> (r: u64)
    ensures
        is_floor_sqrt(n as int, r as int),
        r == floor_sqrt(n as int),
    no_unwind
{
    let mut lo: u128 = 0;
    let mut hi: u128 = 0x1_0000_0000_0000_0000;
    while hi - lo > 1
        invariant
            lo < hi <= 0x1_0000_0000_0000_0000,
            lo * lo <= n < hi * hi,
        decreases hi - lo,
    {
        let mid: u128 = lo + (hi - lo) / 2;
        proof {
            lemma_square_monotonic(mid as int, 0xffff_ffff_ffff_ffff);
        }
        if mid * mid <= n {
            lo = mid;
        } else {
            hi = mid;
        }
    }
    proof {
        assert(hi == lo + 1);
        assert(is_floor_sqrt(n as int, lo as int));
        lemma_floor_sqrt_unique(n as int, lo as int, floor_sqrt(n as int));
    }
    lo as u64
}

/// The quotient of `num` by `den`, its fraction dropped, held within `limit`
/// of zero.
pub fn scale_and_limit(num: i128, den: i128, limit: u32) -> (r: i64)
    requires
        den > 0,
    ensures
        r == clamp_symmetric(div_toward_zero(num as int, den as int), limit as int),
    no_unwind
{
    let size: u128 = if num < 0 {
        (-(num + 1)) as u128 + 1
    } else {
        num as u128
    };
    let quotient: u128 = size / (den as u128);
    if quotient > limit as u128 {
        if num < 0 {
            -(limit as i64)
        } else {
            limit as i64
        }
    } else if num < 0 {
        -(quotient as i64)
    } else {
        quotient as i64
    }
}

} // verus!
