//! The random-direction source. A single trusted wrapper draws raw bits
//! from the process RNG; everything built on top of it is verified.

use vstd::prelude::*;

use crate::math::is_sqrt_floor;
use crate::math::isqrt;
use crate::vec2::Vector2;
use crate::SCALE;

verus! {

/// A vector standing in for a floating-point unit vector: its squared norm
/// is within rounding (`2 * SCALE`) of one squared pixel. Such a vector is
/// never zero.
pub open spec fn unit_like(v: Vector2) -> bool {
    SCALE * SCALE - 2 * SCALE <= v.norm_sq() <= SCALE * SCALE
}

/// Relies on rand::random::<u32>: a pseudo-random 32-bit value from the
/// thread-local generator. Nothing is promised of the result.
#[verifier::external_body]
fn random_u32() -> u32 {
    rand::random::<u32>()
}

/// A source of random direction vectors that are never zero.
pub trait RandNonZero: Sized {
    spec fn is_unit_like(&self) -> bool;

    fn rand_unitary() -> (r: Self)
        ensures
            r.is_unit_like(),
    ;
}

impl RandNonZero for Vector2 {
    open spec fn is_unit_like(&self) -> bool {
        unit_like(*self)
    }

    /// A vector of pixel length (within rounding) pointing in a random
    /// direction: a random abscissa in `[-SCALE, SCALE]`, the matching
    /// ordinate, and a random sign.
    fn rand_unitary() -> (r: Vector2) {
        let raw = random_u32();
        let sign_raw = random_u32();
        let c: i64 = (raw % 2001) as i64 - SCALE;
        assert(-SCALE <= c <= SCALE);
        assert(0 <= c * c <= SCALE * SCALE) by (nonlinear_arith)
            requires
                -SCALE <= c <= SCALE,
                SCALE == 1000,
        ;
        let m = SCALE * SCALE - c * c;
        let s = isqrt(m);
        assert(s <= SCALE) by (nonlinear_arith)
            requires
                s * s <= m,
                m <= SCALE * SCALE,
                s >= 0,
                SCALE == 1000,
        ;
        let y = if sign_raw % 2 == 0 {
            s
        } else {
            -s
        };
        proof {
            assert(m < (s + 1) * (s + 1));
            assert(s * s >= m - 2 * s) by (nonlinear_arith)
                requires
                    m < (s + 1) * (s + 1),
            ;
            assert(y * y == s * s) by (nonlinear_arith)
                requires
                    y == s || y == -s,
            ;
        }
        Vector2 { x: c, y }
    }
}

} // verus!
