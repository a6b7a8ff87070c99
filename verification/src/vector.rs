//! Three-dimensional vectors of fixed-point numbers.
use crate::fixed::{
    ceil_sqrt, floor_sqrt, isqrt, lemma_floor_sqrt_exists, magnitude, product, ratio, saturate,
    sum, truncated_quotient,
};
use vstd::prelude::*;

verus! {

/// A vector (or point) in space; each component is a fixed-point number.
#[derive(Clone, Copy, Debug, PartialEq, Eq, Structural)]
pub struct Vec3 {
    pub x: i64,
    pub y: i64,
    pub z: i64,
}

impl Vec3 {
    /// The vector with all components zero.
    pub open spec fn spec_zero() -> Vec3 {
        Vec3 { x: 0, y: 0, z: 0 }
    }

    /// The sum, each component stopping at the ends of the `i64` range.
    pub open spec fn spec_plus(self, other: Vec3) -> Vec3 {
        Vec3 { x: sum(self.x, other.x), y: sum(self.y, other.y), z: sum(self.z, other.z) }
    }

    /// Every component multiplied by the fixed-point number `k`.
    pub open spec fn spec_scaled(self, k: i64) -> Vec3 {
        Vec3 { x: product(self.x, k), y: product(self.y, k), z: product(self.z, k) }
    }

    /// The square of the length, in squared steps.
    pub open spec fn spec_length_squared(self) -> int {
        self.x * self.x + self.y * self.y + self.z * self.z
    }

    /// The length, rounded down to a whole step and stopping at the end of the `i64` range.
    pub open spec fn spec_length(self) -> i64 {
        saturate(floor_sqrt(self.spec_length_squared()))
    }

    /// The vector itself where it is no longer than `max`; otherwise the vector scaled by `max`
    /// over its length, the length rounded up to a whole step and each component rounded toward
    /// zero.
    pub open spec fn spec_clamp_length(self, max: u64) -> Vec3 {
        if self.spec_length_squared() <= max * max {
            self
        } else {
            let len = ceil_sqrt(self.spec_length_squared());
            Vec3 {
                x: saturate(truncated_quotient(self.x * max, len)),
                y: saturate(truncated_quotient(self.y * max, len)),
                z: saturate(truncated_quotient(self.z * max, len)),
            }
        }
    }

    /// The vector with the given components.
    pub fn new(x: i64, y: i64, z: i64) -> (r: Vec3)
        ensures
            r == (Vec3 { x, y, z }),
    {
        Vec3 { x, y, z }
    }

    /// The vector with all components zero.
    #[verifier::when_used_as_spec(spec_zero)]
    pub fn zero() -> (r: Vec3)
        ensures
            r == Vec3::spec_zero(),
    {
        Vec3 { x: 0, y: 0, z: 0 }
    }

    /// The sum of two vectors.
    #[verifier::when_used_as_spec(spec_plus)]
    pub fn plus(self, other: Vec3) -> (r: Vec3)
        ensures
            r == self.spec_plus(other),
    {
        Vec3 { x: sum(self.x, other.x), y: sum(self.y, other.y), z: sum(self.z, other.z) }
    }

    /// The vector multiplied by the fixed-point number `k`.
    #[verifier::when_used_as_spec(spec_scaled)]
    pub fn scaled(self, k: i64) -> (r: Vec3)
        ensures
            r == self.spec_scaled(k),
    {
        Vec3 { x: product(self.x, k), y: product(self.y, k), z: product(self.z, k) }
    }

    /// The square of the length, in squared steps.
    pub fn length_squared(self) -> (r: u128)
        ensures
            r == self.spec_length_squared(),
            r <= 0xc000_0000_0000_0000_0000_0000_0000_0000,
    {
        let x: u128 = square(self.x);
        let y: u128 = square(self.y);
        let z: u128 = square(self.z);
        x + y + z
    }

    /// Shortens the vector to the length `max` where it is longer, and leaves it alone where it
    /// is not. The result is never longer than `max`.
    #[verifier::when_used_as_spec(spec_clamp_length)]
    pub fn clamp_length(self, max: u64) -> (r: Vec3)
        ensures
            r == self.spec_clamp_length(max),
            r.spec_length_squared() <= max * max,
    {
        proof {
            lemma_clamp_length_bound(self, max);
        }
        let n: u128 = self.length_squared();
        assert(max * max <= 0xffff_ffff_ffff_ffff * 0xffff_ffff_ffff_ffff) by (nonlinear_arith)
            requires
                0 <= max <= 0xffff_ffff_ffff_ffff,
        ;
        let bound: u128 = (max as u128) * (max as u128);
        if n <= bound {
            self
        } else {
            let root: u64 = isqrt(n);
            proof {
                if root == 0xffff_ffff_ffff_ffff {
                    assert(root * root == 0xffff_ffff_ffff_ffff * 0xffff_ffff_ffff_ffff)
                        by (nonlinear_arith)
                        requires
                            root == 0xffff_ffff_ffff_ffff,
                    ;
                }
            }
            assert(root * root <= n);
            let len: u64 = if (root as u128) * (root as u128) == n {
                root
            } else {
                root + 1
            };
            Vec3 {
                x: ratio(self.x, max, len),
                y: ratio(self.y, max, len),
                z: ratio(self.z, max, len),
            }
        }
    }

    /// The length, rounded down to a whole step.
    #[verifier::when_used_as_spec(spec_length)]
    pub fn length(self) -> (r: i64)
        ensures
            r == self.spec_length(),
    {
        let root: u64 = isqrt(self.length_squared());
        if root > 0x7fff_ffff_ffff_ffff {
            i64::MAX
        } else {
            root as i64
        }
    }
}

/// A component `c` scaled by `m / l` with `m < l` moves toward zero, and its square shrinks at
/// least as the square of `m / l` does.
proof fn lemma_shortened_component(c: int, m: int, l: int)
    requires
        0 <= m < l,
    ensures
        c >= 0 ==> 0 <= truncated_quotient(c * m, l) <= c,
        c <= 0 ==> c <= truncated_quotient(c * m, l) <= 0,
        truncated_quotient(c * m, l) * truncated_quotient(c * m, l) * (l * l) <= c * c * (m * m),
{
    let q = truncated_quotient(c * m, l);
    let a = vstd::math::abs(c);
    let p = a * m;
    let k = p / l;
    assert(p >= 0 && vstd::math::abs(c * m) == p) by (nonlinear_arith)
        requires
            p == a * m,
            a == vstd::math::abs(c),
            m >= 0,
    ;
    assert((c >= 0 ==> c * m >= 0) && (c <= 0 ==> c * m <= 0)) by (nonlinear_arith)
        requires
            m >= 0,
    ;
    if p == 0 {
        assert(0int / l == 0);
    }
    assert(c >= 0 ==> q == k);
    assert(c <= 0 ==> q == -k);
    assert(q * q == k * k) by (nonlinear_arith)
        requires
            q == k || q == -k,
    ;
    assert(c * c == a * a) by (nonlinear_arith)
        requires
            a == c || a == -c,
    ;
    vstd::arithmetic::div_mod::lemma_fundamental_div_mod(p, l);
    assert(0 <= k && k * l <= p) by (nonlinear_arith)
        requires
            p == l * k + p % l,
            0 <= p % l < l,
            p >= 0,
    ;
    assert(k <= a) by (nonlinear_arith)
        requires
            k * l <= a * m,
            0 <= m < l,
            0 <= a,
            0 <= k,
    ;
    assert(q * q * (l * l) <= c * c * (m * m)) by (nonlinear_arith)
        requires
            0 <= k,
            k * l <= a * m,
            q * q == k * k,
            c * c == a * a,
            0 <= a,
            0 <= m,
            0 <= l,
    ;
}

/// A clamped vector is no longer than the bound it was clamped to.
pub proof fn lemma_clamp_length_bound(v: Vec3, max: u64)
    ensures
        v.clamp_length(max).spec_length_squared() <= max * max,
{
    let n = v.spec_length_squared();
    let m = max as int;
    if n > m * m {
        assert(n >= 0) by (nonlinear_arith)
            requires
                n == v.x * v.x + v.y * v.y + v.z * v.z,
        ;
        lemma_floor_sqrt_exists(n);
        let len = ceil_sqrt(n);
        assert(len >= 0 && n <= len * len);
        if len <= m {
            assert(len * len <= m * m) by (nonlinear_arith)
                requires
                    0 <= len <= m,
            ;
        }
        lemma_shortened_component(v.x as int, m, len);
        lemma_shortened_component(v.y as int, m, len);
        lemma_shortened_component(v.z as int, m, len);
        let r = v.clamp_length(max);
        assert(r.x == truncated_quotient(v.x * m, len));
        assert(r.y == truncated_quotient(v.y * m, len));
        assert(r.z == truncated_quotient(v.z * m, len));
        let a = r.spec_length_squared();
        assert(a >= 0) by (nonlinear_arith)
            requires
                a == r.x * r.x + r.y * r.y + r.z * r.z,
        ;
        assert(a * (len * len) <= n * (m * m)) by (nonlinear_arith)
            requires
                a == r.x * r.x + r.y * r.y + r.z * r.z,
                n == v.x * v.x + v.y * v.y + v.z * v.z,
                r.x * r.x * (len * len) <= v.x * v.x * (m * m),
                r.y * r.y * (len * len) <= v.y * v.y * (m * m),
                r.z * r.z * (len * len) <= v.z * v.z * (m * m),
        ;
        assert(a <= m * m) by (nonlinear_arith)
            requires
                a * (len * len) <= n * (m * m),
                n <= len * len,
                len > 0,
                0 <= m,
                0 <= a,
        ;
    }
}

/// The square of a component.
fn square(a: i64) -> (r: u128)
    ensures
        r == a * a,
        r <= 0x4000_0000_0000_0000_0000_0000_0000_0000,
{
    let m: u64 = magnitude(a);
    assert(m * m == a * a && m * m <= 0x8000_0000_0000_0000 * 0x8000_0000_0000_0000)
        by (nonlinear_arith)
        requires
            m == vstd::math::abs(a as int),
            0 <= m <= 0x8000_0000_0000_0000,
    ;
    (m as u128) * (m as u128)
}

} // verus!
