//! Fixed-point scalars.
//!
//! A quantity `q` is held as the `i64` nearest to `q * SCALE`, so one step is a millionth of a
//! unit: a length of `2.5` is `2_500_000`, a tick of a tenth of a second is `100_000`. Sums and
//! products stop at the ends of the `i64` range instead of wrapping, and products are rounded
//! toward zero.
use vstd::prelude::*;

verus! {

/// Number of fixed-point steps in one whole unit.
pub const SCALE: i64 = 1_000_000;

/// The `i64` nearest to `v`.
pub open spec fn saturate(v: int) -> i64 {
    if v < i64::MIN {
        i64::MIN
    } else if v > i64::MAX {
        i64::MAX
    } else {
        v as i64
    }
}

/// The quotient of `n` by a positive `d`, rounded toward zero.
pub open spec fn truncated_quotient(n: int, d: int) -> int {
    if n >= 0 {
        n / d
    } else {
        -((-n) / d)
    }
}

/// The sum of two numbers, stopping at the ends of the `i64` range.
pub open spec fn spec_sum(a: i64, b: i64) -> i64 {
    saturate(a + b)
}

/// The negation of a number; that of `i64::MIN` is `i64::MAX`.
pub open spec fn spec_negated(a: i64) -> i64 {
    saturate(-a)
}

/// The product of two fixed-point numbers, rounded toward zero and stopping at the ends of the
/// `i64` range.
pub open spec fn spec_product(a: i64, b: i64) -> i64 {
    saturate(truncated_quotient(a * b, SCALE as int))
}

/// `r` is the integer part of the square root of `n`.
pub open spec fn is_floor_sqrt(r: int, n: int) -> bool {
    0 <= r && r * r <= n < (r + 1) * (r + 1)
}

/// The integer part of the square root of a non-negative `n`.
pub open spec fn floor_sqrt(n: int) -> int {
    choose|r: int| is_floor_sqrt(r, n)
}

/// The least integer whose square is at least `n`, for a non-negative `n`.
pub open spec fn ceil_sqrt(n: int) -> int {
    let r = floor_sqrt(n);
    if r * r == n {
        r
    } else {
        r + 1
    }
}

/// Squaring is strictly monotonic on the non-negative integers.
pub proof fn lemma_square_monotonic(a: int, b: int)
    requires
        0 <= a < b,
    ensures
        a * a < b * b,
{
    assert(a * a <= a * b) by (nonlinear_arith)
        requires
            0 <= a < b,
    ;
    assert(a * b < b * b) by (nonlinear_arith)
        requires
            0 <= a < b,
    ;
}

/// Every non-negative integer has an integer square root.
pub proof fn lemma_floor_sqrt_exists(n: int)
    requires
        0 <= n,
    ensures
        is_floor_sqrt(floor_sqrt(n), n),
    decreases n,
{
    if n == 0 {
        assert(is_floor_sqrt(0, 0));
    } else {
        lemma_floor_sqrt_exists(n - 1);
        let r = floor_sqrt(n - 1);
        if (r + 1) * (r + 1) <= n {
            lemma_square_monotonic(r + 1, r + 2);
            assert(is_floor_sqrt(r + 1, n));
        } else {
            assert(is_floor_sqrt(r, n));
        }
    }
}

/// The integer square root is unique.
pub proof fn lemma_floor_sqrt_unique(r: int, n: int)
    requires
        is_floor_sqrt(r, n),
    ensures
        r == floor_sqrt(n),
{
    let s = floor_sqrt(n);
    assert(is_floor_sqrt(s, n));
    if r < s {
        if r + 1 < s {
            lemma_square_monotonic(r + 1, s);
        }
    } else if s < r {
        if s + 1 < r {
            lemma_square_monotonic(s + 1, r);
        }
    }
}

/// Adds two numbers, stopping at the ends of the `i64` range.
#[verifier::when_used_as_spec(spec_sum)]
pub fn sum(a: i64, b: i64) -> (r: i64)
    ensures
        r == spec_sum(a, b),
{
    let wide: i128 = a as i128 + b as i128;
    if wide < i64::MIN as i128 {
        i64::MIN
    } else if wide > i64::MAX as i128 {
        i64::MAX
    } else {
        wide as i64
    }
}

/// Negates a number; the negation of `i64::MIN` is `i64::MAX`.
#[verifier::when_used_as_spec(spec_negated)]
pub fn negated(a: i64) -> (r: i64)
    ensures
        r == spec_negated(a),
{
    if a == i64::MIN {
        i64::MAX
    } else {
        -a
    }
}

/// The distance of `a` from zero.
pub(crate) fn magnitude(a: i64) -> (r: u64)
    ensures
        r == vstd::math::abs(a as int),
{
    if a >= 0 {
        a as u64
    } else {
        let wide: i128 = -(a as i128);
        wide as u64
    }
}

/// `a * b / d` with the given sign, stopping at the ends of the `i64` range.
fn signed_ratio(negative: bool, a: u64, b: u64, d: u64) -> (r: i64)
    requires
        d > 0,
    ensures
        r == saturate(
            if negative {
                -((a * b) / (d as int))
            } else {
                (a * b) / (d as int)
            },
        ),
{
    assert(a * b <= 0xffff_ffff_ffff_ffff * 0xffff_ffff_ffff_ffff) by (nonlinear_arith)
        requires
            0 <= a <= 0xffff_ffff_ffff_ffff,
            0 <= b <= 0xffff_ffff_ffff_ffff,
    ;
    let wide: u128 = (a as u128) * (b as u128);
    let q: u128 = wide / (d as u128);
    if negative {
        if q > 0x8000_0000_0000_0000u128 {
            i64::MIN
        } else {
            let low: i128 = -(q as i128);
            low as i64
        }
    } else {
        if q > 0x7fff_ffff_ffff_ffffu128 {
            i64::MAX
        } else {
            q as i64
        }
    }
}

/// `a * b / d`, rounded toward zero and stopping at the ends of the `i64` range.
pub(crate) fn ratio(a: i64, b: u64, d: u64) -> (r: i64)
    requires
        d > 0,
    ensures
        r == saturate(truncated_quotient(a * b, d as int)),
{
    let ma: u64 = magnitude(a);
    proof {
        let p: int = a * b;
        assert(vstd::math::abs(p) == ma * b && (a < 0 ==> p <= 0) && (a >= 0 ==> p >= 0))
            by (nonlinear_arith)
            requires
                p == a * b,
                b >= 0,
                ma == vstd::math::abs(a as int),
        ;
        if p == 0 {
            assert(0int / (d as int) == 0);
        }
    }
    signed_ratio(a < 0, ma, b, d)
}

/// Multiplies two fixed-point numbers, rounding toward zero and stopping at the ends of the
/// `i64` range.
#[verifier::when_used_as_spec(spec_product)]
pub fn product(a: i64, b: i64) -> (r: i64)
    ensures
        r == spec_product(a, b),
{
    let ma: u64 = magnitude(a);
    let mb: u64 = magnitude(b);
    let negative: bool = (a < 0) != (b < 0);
    proof {
        let p: int = a * b;
        assert(vstd::math::abs(p) == ma * mb && (negative ==> p <= 0) && (!negative ==> p >= 0))
            by (nonlinear_arith)
            requires
                p == a * b,
                negative == ((a < 0) != (b < 0)),
                ma == vstd::math::abs(a as int),
                mb == vstd::math::abs(b as int),
        ;
        if p == 0 {
            assert(0int / (SCALE as int) == 0);
        }
    }
    signed_ratio(negative, ma, mb, 1_000_000)
}

/// The integer part of the square root of `n`.
pub fn isqrt(n: u128) -> (r: u64)
    ensures
        r == floor_sqrt(n as int),
        is_floor_sqrt(r as int, n as int),
{
    let mut lo: u128 = 0;
    let mut hi: u128 = 0x1_0000_0000_0000_0000;
    assert(0x1_0000_0000_0000_0000int * 0x1_0000_0000_0000_0000int > u128::MAX);
    while hi - lo > 1
        invariant
            lo < hi <= 0x1_0000_0000_0000_0000,
            lo * lo <= n < hi * hi,
        decreases hi - lo,
    {
        let mid: u128 = lo + (hi - lo) / 2;
        assert(mid * mid <= 0xffff_ffff_ffff_ffff * 0xffff_ffff_ffff_ffff) by (nonlinear_arith)
            requires
                0 <= mid <= 0xffff_ffff_ffff_ffff,
        ;
        if mid * mid <= n {
            lo = mid;
        } else {
            hi = mid;
        }
    }
    proof {
        lemma_floor_sqrt_unique(lo as int, n as int);
    }
    lo as u64
}

} // verus!
