//! Scalar helpers for the fixed-point geometry: truncating division (the
//! semantics of Rust's `/` on signed integers) and integer square roots.

use vstd::prelude::*;

use vstd::arithmetic::div_mod::lemma_div_by_self;
use vstd::arithmetic::div_mod::lemma_div_is_ordered;
use vstd::arithmetic::div_mod::lemma_div_nonincreasing;
use vstd::arithmetic::div_mod::lemma_div_pos_is_pos;
use vstd::arithmetic::div_mod::lemma_fundamental_div_mod;
use vstd::arithmetic::div_mod::lemma_mod_division_less_than_divisor;
use vstd::arithmetic::mul::lemma_mul_is_commutative;
use vstd::math::abs;

verus! {

/// Round-toward-zero division, the value Rust's `/` computes on `i64` for a
/// positive divisor.
pub open spec fn div_trunc(a: int, b: int) -> int {
    if a >= 0 {
        a / b
    } else {
        -((-a) / b)
    }
}

/// A truncated quotient keeps the sign of the dividend and never grows:
/// `|q| * b <= |a|` and `|q| <= |a|`.
pub proof fn lemma_div_trunc_bound(a: int, b: int)
    requires
        b >= 1,
    ensures
        abs(div_trunc(a, b)) * b <= abs(a),
        abs(div_trunc(a, b)) <= abs(a),
        a >= 0 ==> div_trunc(a, b) >= 0,
        a <= 0 ==> div_trunc(a, b) <= 0,
{
    if a >= 0 {
        let q = a / b;
        if a > 0 {
            lemma_div_pos_is_pos(a, b);
        }
        lemma_fundamental_div_mod(a, b);
        lemma_mod_division_less_than_divisor(a, b);
        lemma_mul_is_commutative(q, b);
        lemma_div_nonincreasing(a, b);
    } else {
        let q = (-a) / b;
        lemma_div_pos_is_pos(-a, b);
        lemma_fundamental_div_mod(-a, b);
        lemma_mod_division_less_than_divisor(-a, b);
        lemma_mul_is_commutative(q, b);
        lemma_div_nonincreasing(-a, b);
    }
}

/// Truncating a quotient loses less than one multiple of the divisor:
/// `(q * b)^2` is at least `a^2 - 2 * b * |a|`.
pub proof fn lemma_div_trunc_lower(a: int, b: int)
    requires
        b >= 1,
    ensures
        div_trunc(a, b) * div_trunc(a, b) * (b * b) >= a * a - 2 * b * abs(a),
{
    if a >= 0 {
        let q = a / b;
        lemma_div_pos_is_pos(a, b);
        lemma_fundamental_div_mod(a, b);
        lemma_mod_division_less_than_divisor(a, b);
        assert(b * q > a - b);
        assert(q * q * (b * b) >= a * a - 2 * b * a) by (nonlinear_arith)
            requires
                b * q >= a - b + 1,
                q >= 0,
                b >= 1,
                a >= 0,
        ;
    } else {
        let q = (-a) / b;
        lemma_div_pos_is_pos(-a, b);
        lemma_fundamental_div_mod(-a, b);
        lemma_mod_division_less_than_divisor(-a, b);
        assert(b * q > (-a) - b);
        assert(q * q * (b * b) >= a * a - 2 * b * (-a)) by (nonlinear_arith)
            requires
                b * q >= (-a) - b + 1,
                q >= 0,
                b >= 1,
                a < 0,
        ;
        assert((-q) * (-q) == q * q) by (nonlinear_arith);
    }
}

/// A quotient of `a >= b` by `b` is at least one.
pub proof fn lemma_div_trunc_at_least_one(a: int, b: int)
    requires
        1 <= b <= a,
    ensures
        div_trunc(a, b) >= 1,
{
    lemma_div_is_ordered(b, a, b);
    lemma_div_by_self(b);
}

/// The absolute value squares to the same product as the value itself.
pub proof fn lemma_abs_sq(a: int)
    ensures
        abs(a) * abs(a) == a * a,
{
    assert(abs(a) * abs(a) == a * a) by (nonlinear_arith);
}

/// For a nonnegative factor the absolute value distributes over the
/// product.
pub proof fn lemma_abs_mul(a: int, m: int)
    requires
        m >= 0,
    ensures
        abs(a * m) == abs(a) * m,
{
    assert(abs(a * m) == abs(a) * m) by (nonlinear_arith)
        requires
            m >= 0,
    ;
}

/// `r` is the floor of the square root of `n`.
pub open spec fn is_sqrt_floor(n: int, r: int) -> bool {
    &&& 0 <= r
    &&& r * r <= n
    &&& n < (r + 1) * (r + 1)
}

/// Floor of the square root of a nonnegative `n`.
pub open spec fn sqrt_floor(n: int) -> int {
    choose|r: int| is_sqrt_floor(n, r)
}

/// Ceiling of the square root: least `d >= 0` with `n <= d * d`.
pub open spec fn sqrt_ceil(n: int) -> int {
    if sqrt_floor(n) * sqrt_floor(n) == n {
        sqrt_floor(n)
    } else {
        sqrt_floor(n) + 1
    }
}

proof fn lemma_sqrt_floor_exists(n: int)
    requires
        n >= 0,
    ensures
        exists|r: int| is_sqrt_floor(n, r),
    decreases n,
{
    if n == 0 {
        assert(is_sqrt_floor(0, 0));
    } else {
        lemma_sqrt_floor_exists(n - 1);
        let r0 = choose|r: int| #[trigger] is_sqrt_floor(n - 1, r);
        if (r0 + 1) * (r0 + 1) == n {
            assert((r0 + 2) * (r0 + 2) > n) by (nonlinear_arith)
                requires
                    (r0 + 1) * (r0 + 1) == n,
                    r0 >= 0,
            ;
            assert(is_sqrt_floor(n, r0 + 1));
        } else {
            assert(is_sqrt_floor(n, r0));
        }
    }
}

proof fn lemma_sqrt_floor_unique(n: int, a: int, b: int)
    requires
        is_sqrt_floor(n, a),
        is_sqrt_floor(n, b),
    ensures
        a == b,
{
    assert(a == b) by (nonlinear_arith)
        requires
            0 <= a,
            0 <= b,
            a * a <= n,
            n < (a + 1) * (a + 1),
            b * b <= n,
            n < (b + 1) * (b + 1),
    ;
}

/// The defining property of `sqrt_floor`.
pub proof fn lemma_sqrt_floor(n: int)
    requires
        n >= 0,
    ensures
        is_sqrt_floor(n, sqrt_floor(n)),
{
    lemma_sqrt_floor_exists(n);
}

/// The defining properties of `sqrt_ceil`: it is nonnegative, its square
/// covers `n`, and it is the least such value.
pub proof fn lemma_sqrt_ceil(n: int)
    requires
        n >= 0,
    ensures
        0 <= sqrt_ceil(n),
        n <= sqrt_ceil(n) * sqrt_ceil(n),
        n > 0 ==> 1 <= sqrt_ceil(n),
        sqrt_ceil(n) <= sqrt_floor(n) + 1,
        sqrt_floor(n) <= sqrt_ceil(n),
{
    lemma_sqrt_floor(n);
    let r = sqrt_floor(n);
    if r * r != n {
        assert(n <= (r + 1) * (r + 1));
    }
    if n > 0 && sqrt_ceil(n) == 0 {
        assert(r * r == n && r == 0);
    }
}

/// Exec floor square root by binary search, for any nonnegative `i64`.
pub fn isqrt(n: i64) -> (r: i64)
    requires
        0 <= n,
    ensures
        r == sqrt_floor(n as int),
        is_sqrt_floor(n as int, r as int),
{
    proof {
        lemma_sqrt_floor_exists(n as int);
    }
    let mut lo: i64 = 0;
    let mut hi: i64 = 3_037_000_500;
    assert(n < hi * hi) by (nonlinear_arith)
        requires
            n <= i64::MAX,
            hi == 3_037_000_500,
    ;
    while lo + 1 < hi
        invariant
            0 <= lo < hi <= 3_037_000_500,
            lo * lo <= n,
            n < hi * hi,
        decreases hi - lo,
    {
        let mid: i64 = lo + (hi - lo) / 2;
        assert(lo < mid < hi);
        assert(mid * mid <= i64::MAX) by (nonlinear_arith)
            requires
                0 < mid < 3_037_000_500,
        ;
        if mid * mid <= n {
            lo = mid;
        } else {
            hi = mid;
        }
    }
    proof {
        lemma_sqrt_floor(n as int);
        lemma_sqrt_floor_unique(n as int, lo as int, sqrt_floor(n as int));
    }
    lo
}

/// Exec ceiling square root.
pub fn isqrt_ceil(n: i64) -> (r: i64)
    requires
        0 <= n,
    ensures
        r == sqrt_ceil(n as int),
{
    let s = isqrt(n);
    assert(s * s <= n);
    assert(s < 3_037_000_500) by (nonlinear_arith)
        requires
            0 <= s,
            s * s <= i64::MAX,
    ;
    if s * s == n {
        s
    } else {
        s + 1
    }
}

} // verus!
