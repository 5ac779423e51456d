//! Fixed-point 2D vectors.
//!
//! A `Vector2` is a pair of `i64` coordinates, with one pixel equal to
//! `SCALE` units. Every operation the steering
//! core needs — addition, subtraction, squared length, clamp-to-maximum
//! length, rescale-to-exact length, a fractional (friction) scale — is
//! specified exactly over mathematical integers by the `*_pair` spec
//! functions below.

use vstd::prelude::*;

use crate::math::div_trunc;
use crate::math::is_sqrt_floor;
use crate::math::isqrt;
use crate::math::isqrt_ceil;
use crate::math::lemma_abs_mul;
use crate::math::lemma_abs_sq;
use crate::math::lemma_div_trunc_at_least_one;
use crate::math::lemma_div_trunc_bound;
use crate::math::lemma_div_trunc_lower;
use crate::math::lemma_sqrt_ceil;
use crate::math::lemma_sqrt_floor;
use crate::math::sqrt_ceil;
use crate::math::sqrt_floor;
use vstd::math::abs;

verus! {

/// Largest coordinate magnitude the library stores in a vector.
pub const COORD_LIMIT: i64 = 1_000_000_000;

/// Largest coordinate magnitude an intermediate value (a difference of two
/// stored vectors) may reach.
pub const OP_LIMIT: i64 = 2_000_000_000;

#[derive(Clone, Copy, Debug, PartialEq, Eq, Structural)]
pub struct Vector2 {
    pub x: i64,
    pub y: i64,
}

/// Squared Euclidean norm of a coordinate pair.
pub open spec fn nsq(x: int, y: int) -> int {
    x * x + y * y
}

/// Both coordinates of the pair after scaling by the ratio `m / d`,
/// rounding each toward zero.
pub open spec fn scale_div(x: int, y: int, m: int, d: int) -> (int, int) {
    (div_trunc(x * m, d), div_trunc(y * m, d))
}

/// The pair, clamped to length at most `m`: left alone when its norm is
/// already within `m`, otherwise scaled by `m` over the ceiling of its
/// length.
pub open spec fn clamp_max_pair(x: int, y: int, m: int) -> (int, int) {
    if nsq(x, y) <= m * m {
        (x, y)
    } else {
        scale_div(x, y, m, sqrt_ceil(nsq(x, y)))
    }
}

/// The pair rescaled to length (almost exactly) `m`; the zero vector stays
/// zero.
pub open spec fn scale_exact_pair(x: int, y: int, m: int) -> (int, int) {
    if x == 0 && y == 0 {
        (0, 0)
    } else {
        scale_div(x, y, m, sqrt_ceil(nsq(x, y)))
    }
}

impl Vector2 {
    /// Squared norm, over unbounded integers.
    pub open spec fn norm_sq(self) -> int {
        nsq(self.x as int, self.y as int)
    }

    /// Both coordinates within `[-b, b]`.
    pub open spec fn bounded(self, b: int) -> bool {
        &&& -b <= self.x <= b
        &&& -b <= self.y <= b
    }

    pub open spec fn is_zero(self) -> bool {
        self.x == 0 && self.y == 0
    }

    pub fn new(x: i64, y: i64) -> (v: Vector2)
        ensures
            v.x == x,
            v.y == y,
    {
        Vector2 { x, y }
    }

    /// The origin, glam's `Vec2::ZERO`.
    pub fn zero() -> (v: Vector2)
        ensures
            v.x == 0,
            v.y == 0,
    {
        Vector2 { x: 0, y: 0 }
    }

    /// Componentwise sum.
    pub fn plus(self, other: Vector2) -> (r: Vector2)
        requires
            i64::MIN <= self.x + other.x <= i64::MAX,
            i64::MIN <= self.y + other.y <= i64::MAX,
        ensures
            r.x == self.x + other.x,
            r.y == self.y + other.y,
    {
        Vector2 { x: self.x + other.x, y: self.y + other.y }
    }

    /// Componentwise difference.
    pub fn minus(self, other: Vector2) -> (r: Vector2)
        requires
            i64::MIN <= self.x - other.x <= i64::MAX,
            i64::MIN <= self.y - other.y <= i64::MAX,
        ensures
            r.x == self.x - other.x,
            r.y == self.y - other.y,
    {
        Vector2 { x: self.x - other.x, y: self.y - other.y }
    }

    /// Squared length as an `i64`.
    pub fn length_squared(self) -> (n: i64)
        requires
            self.bounded(OP_LIMIT as int),
        ensures
            n == self.norm_sq(),
            n >= 0,
    {
        proof {
            lemma_nsq_bounds(self.x as int, self.y as int, OP_LIMIT as int);
        }
        self.x * self.x + self.y * self.y
    }

    /// Length, rounded down to an integer number of units.
    pub fn length(self) -> (l: i64)
        requires
            self.bounded(OP_LIMIT as int),
        ensures
            l == sqrt_floor(self.norm_sq()),
            is_sqrt_floor(self.norm_sq(), l as int),
    {
        let n = self.length_squared();
        isqrt(n)
    }

    /// The vector clamped to length at most `max`: unchanged when already
    /// within, otherwise rescaled down.
    pub fn clamp_length_max(self, max: i64) -> (r: Vector2)
        requires
            self.bounded(OP_LIMIT as int),
            0 <= max <= COORD_LIMIT,
        ensures
            r.x == clamp_max_pair(self.x as int, self.y as int, max as int).0,
            r.y == clamp_max_pair(self.x as int, self.y as int, max as int).1,
            r.norm_sq() <= max * max,
            r.bounded(max as int),
            self.norm_sq() <= max * max ==> r == self,
    {
        proof {
            lemma_nsq_bounds(self.x as int, self.y as int, OP_LIMIT as int);
            lemma_mul_within(max as int, max as int, COORD_LIMIT as int, COORD_LIMIT as int);
            lemma_mul_within(self.x as int, max as int, OP_LIMIT as int, COORD_LIMIT as int);
            lemma_mul_within(self.y as int, max as int, OP_LIMIT as int, COORD_LIMIT as int);
        }
        let n = self.length_squared();
        if n <= max * max {
            proof {
                lemma_abs_sq(self.x as int);
                lemma_abs_sq(self.y as int);
                assert(self.bounded(max as int)) by (nonlinear_arith)
                    requires
                        nsq(self.x as int, self.y as int) <= max * max,
                        0 <= max,
                ;
            }
            self
        } else {
            let d = isqrt_ceil(n);
            proof {
                lemma_sqrt_ceil(n as int);
                lemma_scale_div_bounds(self.x as int, self.y as int, max as int, d as int);
            }
            Vector2 { x: (self.x * max) / d, y: (self.y * max) / d }
        }
    }

    /// The vector rescaled to length (within rounding) exactly `len`; the
    /// zero vector stays zero.
    pub fn clamp_length_exact(self, len: i64) -> (r: Vector2)
        requires
            self.bounded(OP_LIMIT as int),
            0 <= len <= COORD_LIMIT,
        ensures
            r.x == scale_exact_pair(self.x as int, self.y as int, len as int).0,
            r.y == scale_exact_pair(self.x as int, self.y as int, len as int).1,
            r.norm_sq() <= len * len,
            r.bounded(len as int),
    {
        proof {
            lemma_nsq_bounds(self.x as int, self.y as int, OP_LIMIT as int);
            lemma_mul_within(len as int, len as int, COORD_LIMIT as int, COORD_LIMIT as int);
            lemma_mul_within(self.x as int, len as int, OP_LIMIT as int, COORD_LIMIT as int);
            lemma_mul_within(self.y as int, len as int, OP_LIMIT as int, COORD_LIMIT as int);
        }
        if self.x == 0 && self.y == 0 {
            proof {
                assert(0 <= len * len) by (nonlinear_arith)
                    requires
                        0 <= len,
                ;
            }
            Vector2 { x: 0, y: 0 }
        } else {
            let n = self.length_squared();
            let d = isqrt_ceil(n);
            proof {
                assert(n >= 1) by (nonlinear_arith)
                    requires
                        n == nsq(self.x as int, self.y as int),
                        !(self.x == 0 && self.y == 0),
                ;
                lemma_sqrt_ceil(n as int);
                lemma_scale_div_bounds(self.x as int, self.y as int, len as int, d as int);
            }
            Vector2 { x: (self.x * len) / d, y: (self.y * len) / d }
        }
    }

    /// The vector scaled by the fraction `num / den`, each component
    /// rounded toward zero; with `num <= den` nothing grows.
    pub fn scaled_frac(self, num: i64, den: i64) -> (r: Vector2)
        requires
            self.bounded(OP_LIMIT as int),
            0 <= num <= den,
            1 <= den <= 1_000,
        ensures
            r.x == div_trunc(self.x * num, den as int),
            r.y == div_trunc(self.y * num, den as int),
            abs(r.x as int) <= abs(self.x as int),
            abs(r.y as int) <= abs(self.y as int),
            r.norm_sq() <= self.norm_sq(),
    {
        proof {
            lemma_mul_within(self.x as int, num as int, OP_LIMIT as int, 1_000);
            lemma_mul_within(self.y as int, num as int, OP_LIMIT as int, 1_000);
            lemma_div_trunc_bound(self.x as int * num as int, den as int);
            lemma_div_trunc_bound(self.y as int * num as int, den as int);
            lemma_abs_mul(self.x as int, num as int);
            lemma_abs_mul(self.y as int, num as int);
            lemma_frac_component(self.x as int, num as int, den as int);
            lemma_frac_component(self.y as int, num as int, den as int);
            lemma_abs_sq(self.x as int);
            lemma_abs_sq(self.y as int);
            lemma_abs_sq(div_trunc(self.x as int * num as int, den as int));
            lemma_abs_sq(div_trunc(self.y as int * num as int, den as int));
            assert(div_trunc(self.x as int * num as int, den as int)
                * div_trunc(self.x as int * num as int, den as int) <= self.x as int
                * self.x as int) by (nonlinear_arith)
                requires
                    abs(div_trunc(self.x as int * num as int, den as int)) <= abs(
                        self.x as int,
                    ),
                    abs(div_trunc(self.x as int * num as int, den as int)) * abs(
                        div_trunc(self.x as int * num as int, den as int),
                    ) == div_trunc(self.x as int * num as int, den as int) * div_trunc(
                        self.x as int * num as int,
                        den as int,
                    ),
                    abs(self.x as int) * abs(self.x as int) == self.x as int
                        * self.x as int,
            ;
            assert(div_trunc(self.y as int * num as int, den as int)
                * div_trunc(self.y as int * num as int, den as int) <= self.y as int
                * self.y as int) by (nonlinear_arith)
                requires
                    abs(div_trunc(self.y as int * num as int, den as int)) <= abs(
                        self.y as int,
                    ),
                    abs(div_trunc(self.y as int * num as int, den as int)) * abs(
                        div_trunc(self.y as int * num as int, den as int),
                    ) == div_trunc(self.y as int * num as int, den as int) * div_trunc(
                        self.y as int * num as int,
                        den as int,
                    ),
                    abs(self.y as int) * abs(self.y as int) == self.y as int
                        * self.y as int,
            ;
        }
        Vector2 { x: (self.x * num) / den, y: (self.y * num) / den }
    }
}

/// A product of factors within `[-ba, ba]` and `[-bb, bb]` lies within the
/// product of the bounds.
pub proof fn lemma_mul_within(a: int, b: int, ba: int, bb: int)
    requires
        -ba <= a <= ba,
        -bb <= b <= bb,
        0 <= ba,
        0 <= bb,
    ensures
        -(ba * bb) <= a * b <= ba * bb,
{
    assert(-(ba * bb) <= a * b <= ba * bb) by (nonlinear_arith)
        requires
            -ba <= a <= ba,
            -bb <= b <= bb,
            0 <= ba,
            0 <= bb,
    ;
}

/// Scaling one coordinate by `num / den` with `num <= den` cannot grow its
/// magnitude.
proof fn lemma_frac_component(a: int, num: int, den: int)
    requires
        0 <= num <= den,
        den >= 1,
    ensures
        abs(div_trunc(a * num, den)) <= abs(a),
{
    lemma_div_trunc_bound(a * num, den);
    lemma_abs_mul(a, num);
    let q = abs(div_trunc(a * num, den)) as int;
    assert(q <= abs(a)) by (nonlinear_arith)
        requires
            q * den <= abs(a) * num,
            0 <= num <= den,
            den >= 1,
            q >= 0,
    ;
}

/// Scaling a pair by the ratio `m / d`, where `d * d` covers the pair's
/// squared norm, yields a pair of squared norm at most `m * m`, each
/// component within `[-m, m]`.
pub proof fn lemma_scale_div_bounds(x: int, y: int, m: int, d: int)
    requires
        d >= 1,
        m >= 0,
        nsq(x, y) <= d * d,
    ensures
        nsq(scale_div(x, y, m, d).0, scale_div(x, y, m, d).1) <= m * m,
        -m <= scale_div(x, y, m, d).0 <= m,
        -m <= scale_div(x, y, m, d).1 <= m,
{
    let qx = div_trunc(x * m, d);
    let qy = div_trunc(y * m, d);
    lemma_div_trunc_bound(x * m, d);
    lemma_div_trunc_bound(y * m, d);
    lemma_abs_mul(x, m);
    lemma_abs_mul(y, m);
    lemma_abs_sq(x);
    lemma_abs_sq(y);
    lemma_abs_sq(qx);
    lemma_abs_sq(qy);
    let ax = abs(x) as int;
    let ay = abs(y) as int;
    let aqx = abs(qx) as int;
    let aqy = abs(qy) as int;
    assert(ax <= d && ay <= d) by (nonlinear_arith)
        requires
            ax * ax == x * x,
            ay * ay == y * y,
            x * x + y * y <= d * d,
            ax >= 0,
            ay >= 0,
            d >= 1,
    ;
    assert(aqx <= m) by (nonlinear_arith)
        requires
            aqx * d <= ax * m,
            ax <= d,
            aqx >= 0,
            m >= 0,
            d >= 1,
    ;
    assert(aqy <= m) by (nonlinear_arith)
        requires
            aqy * d <= ay * m,
            ay <= d,
            aqy >= 0,
            m >= 0,
            d >= 1,
    ;
    assert(qx * qx * (d * d) <= (x * x) * (m * m)) by (nonlinear_arith)
        requires
            aqx * d <= ax * m,
            aqx >= 0,
            ax >= 0,
            m >= 0,
            d >= 1,
            aqx * aqx == qx * qx,
            ax * ax == x * x,
    ;
    assert(qy * qy * (d * d) <= (y * y) * (m * m)) by (nonlinear_arith)
        requires
            aqy * d <= ay * m,
            aqy >= 0,
            ay >= 0,
            m >= 0,
            d >= 1,
            aqy * aqy == qy * qy,
            ay * ay == y * y,
    ;
    assert(qx * qx + qy * qy <= m * m) by (nonlinear_arith)
        requires
            qx * qx * (d * d) <= (x * x) * (m * m),
            qy * qy * (d * d) <= (y * y) * (m * m),
            x * x + y * y <= d * d,
            m >= 0,
            d >= 1,
    ;
    assert(-m <= qx <= m && -m <= qy <= m);
}

/// Rescaling a pixel-length pair (one within rounding of `SCALE`) to the
/// top speed yields a vector whose length is within half a percent of
/// `MAX_SPEED`: truncation loses less than one unit per component, and
/// the ceiling of the length overshoots it by less than one.
pub proof fn lemma_scale_exact_unit_lower(x: int, y: int)
    requires
        crate::SCALE * crate::SCALE - 2 * crate::SCALE <= nsq(x, y),
        nsq(x, y) <= crate::SCALE * crate::SCALE,
    ensures
        nsq(
            scale_exact_pair(x, y, crate::MAX_SPEED as int).0,
            scale_exact_pair(x, y, crate::MAX_SPEED as int).1,
        ) >= (crate::MAX_SPEED - 50) * (crate::MAX_SPEED - 50),
{
    let m = crate::MAX_SPEED as int;
    let n = nsq(x, y);
    assert(!(x == 0 && y == 0));
    lemma_sqrt_floor(n);
    lemma_sqrt_ceil(n);
    let f = sqrt_floor(n);
    let d = sqrt_ceil(n);
    if d == f {
        assert(f >= 1);
        assert((d - 1) * (d - 1) < n) by (nonlinear_arith)
            requires
                d == f,
                f * f == n,
                f >= 1,
        ;
    } else {
        assert(d == f + 1 && f * f != n && f * f <= n);
        assert((d - 1) * (d - 1) < n);
    }
    assert(999 <= d <= 1000) by (nonlinear_arith)
        requires
            (d - 1) * (d - 1) < n,
            d * d >= n,
            998_000 <= n <= 1_000_000,
            d >= 0,
    ;
    lemma_abs_sq(x);
    lemma_abs_sq(y);
    let ax = abs(x) as int;
    let ay = abs(y) as int;
    assert(ax <= 1000 && ay <= 1000) by (nonlinear_arith)
        requires
            ax * ax == x * x,
            ay * ay == y * y,
            x * x + y * y <= 1_000_000,
            ax >= 0,
            ay >= 0,
    ;
    let qx = div_trunc(x * m, d);
    let qy = div_trunc(y * m, d);
    lemma_div_trunc_lower(x * m, d);
    lemma_div_trunc_lower(y * m, d);
    lemma_abs_mul(x, m);
    lemma_abs_mul(y, m);
    assert(qx * qx + qy * qy >= (m - 50) * (m - 50)) by (nonlinear_arith)
        requires
            qx * qx * (d * d) >= (x * m) * (x * m) - 2 * d * (ax * m),
            qy * qy * (d * d) >= (y * m) * (y * m) - 2 * d * (ay * m),
            ax * ax == x * x,
            ay * ay == y * y,
            x * x + y * y == n,
            998_000 <= n <= 1_000_000,
            0 <= ax <= 1000,
            0 <= ay <= 1000,
            999 <= d <= 1000,
            m == 10_000,
    ;
}

/// A vector whose squared norm is within `m * m` has both components
/// within `[-m, m]`.
pub proof fn lemma_norm_component_bound(v: Vector2, m: int)
    requires
        v.norm_sq() <= m * m,
        0 <= m,
    ensures
        v.bounded(m),
{
    lemma_abs_sq(v.x as int);
    lemma_abs_sq(v.y as int);
    let ax = abs(v.x as int) as int;
    let ay = abs(v.y as int) as int;
    assert(ax <= m && ay <= m) by (nonlinear_arith)
        requires
            ax * ax + ay * ay <= m * m,
            ax >= 0,
            ay >= 0,
            m >= 0,
    ;
}

/// Scaling both coordinates by `num / den` with `num <= den` shrinks each
/// magnitude and the squared norm.
pub proof fn lemma_frac_pair(x: int, y: int, num: int, den: int)
    requires
        0 <= num <= den,
        den >= 1,
    ensures
        abs(div_trunc(x * num, den)) <= abs(x),
        abs(div_trunc(y * num, den)) <= abs(y),
        nsq(div_trunc(x * num, den), div_trunc(y * num, den)) <= nsq(x, y),
{
    let qx = div_trunc(x * num, den);
    let qy = div_trunc(y * num, den);
    lemma_frac_component(x, num, den);
    lemma_frac_component(y, num, den);
    lemma_abs_sq(x);
    lemma_abs_sq(y);
    lemma_abs_sq(qx);
    lemma_abs_sq(qy);
    assert(qx * qx <= x * x) by (nonlinear_arith)
        requires
            abs(qx) <= abs(x),
            abs(qx) * abs(qx) == qx * qx,
            abs(x) * abs(x) == x * x,
    ;
    assert(qy * qy <= y * y) by (nonlinear_arith)
        requires
            abs(qy) <= abs(y),
            abs(qy) * abs(qy) == qy * qy,
            abs(y) * abs(y) == y * y,
    ;
}

/// Rescaling a nonzero pair to a target length of at least three units
/// cannot collapse it to zero: the larger component keeps magnitude at
/// least one.
pub proof fn lemma_scale_exact_nonzero(x: int, y: int, m: int)
    requires
        !(x == 0 && y == 0),
        m >= 3,
    ensures
        !(scale_exact_pair(x, y, m).0 == 0 && scale_exact_pair(x, y, m).1 == 0),
{
    let n = nsq(x, y);
    assert(n >= 1) by (nonlinear_arith)
        requires
            n == nsq(x, y),
            !(x == 0 && y == 0),
    ;
    lemma_sqrt_floor(n);
    lemma_sqrt_ceil(n);
    let f = sqrt_floor(n);
    let d = sqrt_ceil(n);
    // n is strictly above (d - 1)^2.
    if d == f {
        assert(f >= 1);
        assert((d - 1) * (d - 1) < n) by (nonlinear_arith)
            requires
                d == f,
                f * f == n,
                f >= 1,
        ;
    } else {
        assert(d == f + 1 && f * f != n && f * f <= n);
        assert((d - 1) * (d - 1) < n);
    }
    lemma_abs_sq(x);
    lemma_abs_sq(y);
    let ax = abs(x) as int;
    let ay = abs(y) as int;
    let mx = if ax >= ay {
        ax
    } else {
        ay
    };
    assert(mx * mx >= ax * ax && mx * mx >= ay * ay) by (nonlinear_arith)
        requires
            0 <= ax <= mx,
            0 <= ay <= mx,
    ;
    assert(2 * (mx * mx) >= n);
    // From 2 mx^2 > (d-1)^2 it follows that 3 mx covers d.
    assert(3 * mx >= d && mx * m >= d) by (nonlinear_arith)
        requires
            2 * (mx * mx) >= (d - 1) * (d - 1) + 1,
            mx >= 0,
            d >= 1,
            m >= 3,
    ;
    if ax >= ay {
        if x >= 0 {
            lemma_abs_mul(x, m);
            lemma_div_trunc_at_least_one(x * m, d);
        } else {
            assert((-x) * m == -(x * m)) by (nonlinear_arith);
            lemma_div_trunc_at_least_one(-(x * m), d);
        }
    } else {
        if y >= 0 {
            lemma_abs_mul(y, m);
            lemma_div_trunc_at_least_one(y * m, d);
        } else {
            assert((-y) * m == -(y * m)) by (nonlinear_arith);
            lemma_div_trunc_at_least_one(-(y * m), d);
        }
    }
}

/// The squared norm of a pair bounded by `b` is nonnegative and at most
/// `2 * b * b`.
pub proof fn lemma_nsq_bounds(x: int, y: int, b: int)
    requires
        -b <= x <= b,
        -b <= y <= b,
    ensures
        0 <= x * x <= b * b,
        0 <= y * y <= b * b,
        0 <= nsq(x, y),
        nsq(x, y) <= 2 * b * b,
{
    assert(0 <= x * x <= b * b) by (nonlinear_arith)
        requires
            -b <= x <= b,
    ;
    assert(0 <= y * y <= b * b) by (nonlinear_arith)
        requires
            -b <= y <= b,
    ;
    assert(2 * b * b == 2 * (b * b)) by (nonlinear_arith);
}

} // verus!
