//! Exact integer building blocks for the fixed-point arithmetic of the crate:
//! truncating division, Euclidean remainder, and floor square and fifth roots.

use vstd::prelude::*;
use crate::constants::{DEG_FULL_MICRO, TAU_NANO};
use vstd::arithmetic::div_mod::{
    lemma_div_by_multiple, lemma_div_denominator, lemma_div_is_ordered, lemma_div_pos_is_pos,
    lemma_fundamental_div_mod, lemma_fundamental_div_mod_converse, lemma_multiply_divide_lt,
};
use vstd::arithmetic::mul::{
    lemma_mul_inequality, lemma_mul_is_associative, lemma_mul_is_commutative,
    lemma_mul_nonnegative, lemma_mul_strict_inequality,
};

verus! {

/// Truncating division (the rounding of machine division): the quotient is
/// rounded towards zero.  Matches `/` on the machine integers for a positive
/// divisor.
pub open spec fn tdiv(a: int, b: int) -> int {
    if a >= 0 {
        a / b
    } else {
        -((-a) / b)
    }
}

/// Truncating division on `i128`, the exec twin of [`tdiv`].
pub fn div_trunc(a: i128, b: i128) -> (r: i128)
    requires
        b > 0,
    ensures
        r == tdiv(a as int, b as int),
{
    a / b
}

/// Euclidean remainder on `i128`: the result is always in `[0, m)`, matching
/// `%` of specification arithmetic.
pub fn mod_euclid(a: i128, m: i128) -> (r: i128)
    requires
        m > 0,
        a > i128::MIN,
    ensures
        r == (a as int) % (m as int),
        0 <= r < m,
{
    if a >= 0 {
        a % m
    } else {
        let t: i128 = (-a) % m;
        proof {
            lemma_fundamental_div_mod(-(a as int), m as int);
            let q = (-(a as int)) / (m as int);
            assert((-q) * m == -(m * q)) by (nonlinear_arith);
            assert((-q - 1) * m == -(m * q) - m) by (nonlinear_arith);
            if t == 0 {
                lemma_fundamental_div_mod_converse(a as int, m as int, -q, 0);
            } else {
                lemma_fundamental_div_mod_converse(a as int, m as int, -q - 1, m - t);
            }
        }
        if t == 0 {
            0
        } else {
            m - t
        }
    }
}

/// An angle in micro-degrees, reduced into one turn and converted to
/// nano-radians: the result lies in `[0, TAU_NANO)`.
pub open spec fn deg_to_nanorad_norm(microdeg: int) -> int {
    (microdeg % (DEG_FULL_MICRO as int)) * TAU_NANO / (DEG_FULL_MICRO as int)
}

/// Exec twin of [`deg_to_nanorad_norm`]: normalising micro-degree to
/// nano-radian conversion.
pub fn microdeg_to_nanorad(microdeg: i128) -> (r: i128)
    requires
        microdeg > i128::MIN,
    ensures
        r == deg_to_nanorad_norm(microdeg as int),
        0 <= r < TAU_NANO,
{
    let m: i128 = mod_euclid(microdeg, DEG_FULL_MICRO);
    proof {
        assert(m * TAU_NANO <= DEG_FULL_MICRO * TAU_NANO && m * TAU_NANO >= 0) by (nonlinear_arith)
            requires
                0 <= m <= DEG_FULL_MICRO,
                TAU_NANO > 0,
        ;
        assert(m * TAU_NANO < DEG_FULL_MICRO * TAU_NANO) by (nonlinear_arith)
            requires
                0 <= m < DEG_FULL_MICRO,
                TAU_NANO > 0,
        ;
        lemma_multiply_divide_lt(m * TAU_NANO, DEG_FULL_MICRO as int, TAU_NANO as int);
        lemma_div_pos_is_pos(m * TAU_NANO, DEG_FULL_MICRO as int);
    }
    m * TAU_NANO / DEG_FULL_MICRO
}

/// The floor of the real square root: the unique `r >= 0` with
/// `r² <= x < (r+1)²`.
pub open spec fn sqrt_floor(x: int) -> int {
    choose|r: int| 0 <= r && #[trigger] (r * r) <= x && x < (r + 1) * (r + 1)
}

/// Any two values that satisfy the floor-square-root property are equal, so
/// [`sqrt_floor`] names the witness produced by [`isqrt`].
pub proof fn lemma_sqrt_floor_eq(x: int, r: int)
    requires
        0 <= r,
        r * r <= x,
        x < (r + 1) * (r + 1),
    ensures
        sqrt_floor(x) == r,
{
    assert(0 <= r && r * r <= x && x < (r + 1) * (r + 1));
    let c = sqrt_floor(x);
    assert(0 <= c && c * c <= x && x < (c + 1) * (c + 1));
    if c < r {
        lemma_mul_inequality(c + 1, r, c + 1);
        lemma_mul_inequality(c + 1, r, r);
        assert((c + 1) * (c + 1) <= r * r);
    }
    if r < c {
        lemma_mul_inequality(r + 1, c, r + 1);
        lemma_mul_inequality(r + 1, c, c);
        assert((r + 1) * (r + 1) <= c * c);
    }
}

/// A floor square root exists for every nonnegative argument, so
/// [`sqrt_floor`] satisfies its defining property there.
pub proof fn lemma_sqrt_floor_props(x: int)
    requires
        x >= 0,
    ensures
        0 <= sqrt_floor(x),
        sqrt_floor(x) * sqrt_floor(x) <= x,
        x < (sqrt_floor(x) + 1) * (sqrt_floor(x) + 1),
    decreases x,
{
    if x == 0 {
        lemma_sqrt_floor_eq(x, 0);
    } else {
        lemma_sqrt_floor_props(x - 1);
        let r = sqrt_floor(x - 1);
        if x < (r + 1) * (r + 1) {
            lemma_sqrt_floor_eq(x, r);
        } else {
            assert((r + 2) * (r + 2) > (r + 1) * (r + 1)) by (nonlinear_arith)
                requires
                    r >= 0,
            ;
            lemma_sqrt_floor_eq(x, r + 1);
        }
    }
}

/// For `m >= 1, x >= 0`: `m <= x / m` exactly when `m * m <= x`.
proof fn lemma_square_divides(m: int, x: int)
    requires
        m >= 1,
        x >= 0,
    ensures
        (m <= x / m) <==> (m * m <= x),
{
    if m <= x / m {
        lemma_mul_inequality(m, x / m, m);
        lemma_fundamental_div_mod(x, m);
        assert((x / m) * m <= x) by {
            lemma_mul_is_commutative(x / m, m);
        }
    }
    if m * m <= x {
        lemma_div_is_ordered(m * m, x, m);
        lemma_div_by_multiple(m, m);
    }
}

/// Floor square root of a nonnegative `i128`, by binary search.
pub fn isqrt(x: i128) -> (r: i128)
    requires
        x >= 0,
    ensures
        0 <= r,
        r * r <= x,
        x < (r + 1) * (r + 1),
        r == sqrt_floor(x as int),
{
    if x == 0 {
        proof { lemma_sqrt_floor_eq(x as int, 0) }
        return 0;
    }
    if x < 4 {
        proof { lemma_sqrt_floor_eq(x as int, 1) }
        return 1;
    }
    let mut lo: i128 = 1;
    let mut hi: i128 = x;
    proof {
        lemma_mul_strict_inequality(1, x as int, x as int);
    }
    while lo + 1 < hi
        invariant
            1 <= lo < hi <= x,
            lo * lo <= x,
            x < hi * hi,
        decreases hi - lo,
    {
        let mid: i128 = lo + (hi - lo) / 2;
        proof {
            lemma_div_pos_is_pos((hi - lo) as int, 2);
            lemma_div_is_ordered(hi - lo, (hi - lo) * 2, 2);
            lemma_div_by_multiple(hi - lo, 2);
            lemma_square_divides(mid as int, x as int);
        }
        if mid <= x / mid {
            lo = mid;
        } else {
            hi = mid;
        }
    }
    proof { lemma_sqrt_floor_eq(x as int, lo as int) }
    lo
}

/// The floor of the real fifth root: the unique `r >= 0` with
/// `r⁵ <= x < (r+1)⁵`.
pub open spec fn root5_floor(x: int) -> int {
    choose|r: int|
        0 <= r && #[trigger] (r * r * r * r * r) <= x && x < (r + 1) * (r + 1) * (r + 1) * (r + 1)
            * (r + 1)
}

/// Fifth powers are monotone: `a < b` implies `a⁵ < b⁵` (for `0 <= a`).
pub proof fn lemma_pow5_increases(a: int, b: int)
    requires
        0 <= a < b,
    ensures
        a * a * a * a * a < b * b * b * b * b,
{
    let a5 = a * a * a * a * a;
    let b5 = b * b * b * b * b;
    assert(a5 < b5) by (nonlinear_arith)
        requires
            0 <= a < b,
            a5 == a * a * a * a * a,
            b5 == b * b * b * b * b,
    ;
}

/// Any two values that satisfy the floor-fifth-root property are equal.
pub proof fn lemma_root5_floor_eq(x: int, r: int)
    requires
        0 <= r,
        r * r * r * r * r <= x,
        x < (r + 1) * (r + 1) * (r + 1) * (r + 1) * (r + 1),
    ensures
        root5_floor(x) == r,
{
    assert(0 <= r && r * r * r * r * r <= x && x < (r + 1) * (r + 1) * (r + 1) * (r + 1) * (r
        + 1));
    let c = root5_floor(x);
    assert(0 <= c && c * c * c * c * c <= x && x < (c + 1) * (c + 1) * (c + 1) * (c + 1) * (c
        + 1));
    if c < r {
        lemma_pow5_increases(c + 1, r + 1);
        assert((c + 1) * (c + 1) * (c + 1) * (c + 1) * (c + 1) <= r * r * r * r * r) by {
            if c + 1 < r {
                lemma_pow5_increases(c + 1, r);
            }
        }
    }
    if r < c {
        assert((r + 1) * (r + 1) * (r + 1) * (r + 1) * (r + 1) <= c * c * c * c * c) by {
            if r + 1 < c {
                lemma_pow5_increases(r + 1, c);
            }
        }
    }
}

/// A floor fifth root exists for every nonnegative argument, so
/// [`root5_floor`] satisfies its defining property there.
pub proof fn lemma_root5_floor_props(x: int)
    requires
        x >= 0,
    ensures
        0 <= root5_floor(x),
        root5_floor(x) * root5_floor(x) * root5_floor(x) * root5_floor(x) * root5_floor(x) <= x,
        x < (root5_floor(x) + 1) * (root5_floor(x) + 1) * (root5_floor(x) + 1) * (root5_floor(x)
            + 1) * (root5_floor(x) + 1),
    decreases x,
{
    if x == 0 {
        lemma_root5_floor_eq(x, 0);
    } else {
        lemma_root5_floor_props(x - 1);
        let r = root5_floor(x - 1);
        if x < (r + 1) * (r + 1) * (r + 1) * (r + 1) * (r + 1) {
            lemma_root5_floor_eq(x, r);
        } else {
            lemma_pow5_increases(r + 1, r + 2);
            lemma_root5_floor_eq(x, r + 1);
        }
    }
}

/// For `m >= 1, x >= 0`: `m <= x / m / m / m / m` exactly when `m⁵ <= x`.
proof fn lemma_fifth_divides(m: int, x: int)
    requires
        m >= 1,
        x >= 0,
    ensures
        (m <= x / m / m / m / m) <==> (m * m * m * m * m <= x),
{
    let m4 = m * m * m * m;
    assert(m4 >= 1) by (nonlinear_arith)
        requires
            m >= 1,
            m4 == m * m * m * m,
    ;
    assert(x / m / m / m / m == x / m4) by {
        lemma_div_denominator(x, m, m);
        lemma_mul_nonnegative(m, m);
        lemma_div_denominator(x, m * m, m);
        lemma_mul_nonnegative(m * m, m);
        lemma_div_denominator(x, m * m * m, m);
        lemma_mul_is_associative(m, m, m);
        lemma_mul_is_associative(m * m, m, m);
    }
    if m <= x / m4 {
        lemma_mul_inequality(m, x / m4, m4);
        lemma_fundamental_div_mod(x, m4);
        assert((x / m4) * m4 <= x) by {
            lemma_mul_is_commutative(x / m4, m4);
        }
        assert(m * m4 == m * m * m * m * m) by {
            lemma_mul_is_associative(m, m * m * m, m);
            lemma_mul_is_associative(m, m * m, m);
            lemma_mul_is_associative(m * m, m, m);
        }
    }
    if m * m * m * m * m <= x {
        assert(m * m4 == m * m * m * m * m) by {
            lemma_mul_is_associative(m, m * m * m, m);
            lemma_mul_is_associative(m, m * m, m);
            lemma_mul_is_associative(m * m, m, m);
        }
        lemma_div_is_ordered(m * m4, x, m4);
        lemma_div_by_multiple(m, m4);
    }
}

/// Floor fifth root of a nonnegative `i128`, by binary search.
pub fn iroot5(x: i128) -> (r: i128)
    requires
        x >= 0,
    ensures
        0 <= r,
        r * r * r * r * r <= x,
        x < (r + 1) * (r + 1) * (r + 1) * (r + 1) * (r + 1),
        r == root5_floor(x as int),
{
    if x == 0 {
        proof { lemma_root5_floor_eq(x as int, 0) }
        return 0;
    }
    if x < 32 {
        proof { lemma_root5_floor_eq(x as int, 1) }
        return 1;
    }
    let mut lo: i128 = 1;
    let mut hi: i128 = x;
    proof {
        assert(x < x * x * x * x * x) by (nonlinear_arith)
            requires
                x >= 32,
        ;
    }
    while lo + 1 < hi
        invariant
            1 <= lo < hi <= x,
            lo * lo * lo * lo * lo <= x,
            x < hi * hi * hi * hi * hi,
        decreases hi - lo,
    {
        let mid: i128 = lo + (hi - lo) / 2;
        proof {
            lemma_div_pos_is_pos((hi - lo) as int, 2);
            lemma_div_is_ordered(hi - lo, (hi - lo) * 2, 2);
            lemma_div_by_multiple(hi - lo, 2);
            lemma_fifth_divides(mid as int, x as int);
        }
        if mid <= x / mid / mid / mid / mid {
            lo = mid;
        } else {
            hi = mid;
        }
    }
    proof { lemma_root5_floor_eq(x as int, lo as int) }
    lo
}

/// If `n < b²`, then `sqrt_floor(n) < b`.
pub proof fn lemma_sqrt_floor_eq_bound(n: int, b: int)
    requires
        0 <= n,
        0 < b,
        n < b * b,
    ensures
        sqrt_floor(n) < b,
{
    lemma_sqrt_floor_props(n);
    let r = sqrt_floor(n);
    if r >= b {
        lemma_mul_inequality(b, r, b);
        lemma_mul_inequality(b, r, r);
        assert(b * b <= r * r);
    }
}

/// Floor square roots are monotone.
pub proof fn lemma_sqrt_floor_monotone(x: int, y: int)
    requires
        0 <= x <= y,
    ensures
        sqrt_floor(x) <= sqrt_floor(y),
{
    lemma_sqrt_floor_props(x);
    lemma_sqrt_floor_props(y);
    let a = sqrt_floor(x);
    let b = sqrt_floor(y);
    if a > b {
        lemma_mul_inequality(b + 1, a, b + 1);
        lemma_mul_inequality(b + 1, a, a);
        assert((b + 1) * (b + 1) <= a * a);
    }
}

/// Floor fifth roots are monotone.
pub proof fn lemma_root5_floor_monotone(x: int, y: int)
    requires
        0 <= x <= y,
    ensures
        root5_floor(x) <= root5_floor(y),
{
    lemma_root5_floor_props(x);
    lemma_root5_floor_props(y);
    let a = root5_floor(x);
    let b = root5_floor(y);
    if a > b {
        lemma_pow5_increases(b, a);
        assert((b + 1) * (b + 1) * (b + 1) * (b + 1) * (b + 1) <= a * a * a * a * a) by {
            if b + 1 < a {
                lemma_pow5_increases(b + 1, a);
            }
        }
    }
}

} // verus!
