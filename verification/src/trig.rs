//! Fixed-point sine and cosine on nano-radian angles.
//!
//! Angles are integers in nano-radians; results are fractions at scale
//! [`SCALE`].  The angle is reduced into one turn, folded into the first
//! quarter turn, and a truncated Taylor polynomial is evaluated there with
//! exact staged integer divisions.  Every function equals its specification
//! mirror exactly; the mirror, not real analysis, is the contract, and the
//! tests check the numerical accuracy against floating point.

use vstd::prelude::*;
use crate::constants::{PI_NANO, QUARTER_NANO, SCALE, SCALE_SQ, TAU_NANO};
use crate::fixed::mod_euclid;

verus! {

/// Largest argument the quarter-turn polynomials accept (just past π/2).
pub const POLY_ARG_MAX: i128 = 1_570_796_328;

/// Sine polynomial on `[0, POLY_ARG_MAX]`:
/// `t - t³/3! + t⁵/5! - t⁷/7!` at scale `SCALE`, with truncating stages.
pub open spec fn sin_poly_spec(t: int) -> int {
    let s2 = SCALE_SQ as int;
    let w3 = t * t * t / (6 * s2);
    let w5 = (t * t * t / s2) * t * t / (120 * s2);
    let w7 = ((t * t * t / s2) * t * t / s2) * t * t / (5040 * s2);
    t - w3 + w5 - w7
}

/// Cosine polynomial on `[0, POLY_ARG_MAX]`:
/// `1 - t²/2! + t⁴/4! - t⁶/6! + t⁸/8!` at scale `SCALE`, with truncating
/// stages.
pub open spec fn cos_poly_spec(t: int) -> int {
    let s1 = SCALE as int;
    let s2 = SCALE_SQ as int;
    let u2 = t * t;
    let w2 = u2 / (2 * s1);
    let w4 = (u2 / s1) * u2 / (24 * s2);
    let w6 = ((u2 / s1) * u2 / s2) * u2 / (720 * s2);
    let w8 = (((u2 / s1) * u2 / s2) * u2 / s2) * u2 / (40320 * s2);
    s1 - w2 + w4 - w6 + w8
}

/// Clamp a value into `[-SCALE, SCALE]`, the representable range of a
/// trigonometric result.
pub open spec fn clamp_unit_spec(v: int) -> int {
    if v > SCALE {
        SCALE as int
    } else if v < -SCALE {
        -(SCALE as int)
    } else {
        v
    }
}

/// Sine of an angle in nano-radians, at scale `SCALE`.
pub open spec fn spec_sin_nano(x: int) -> int {
    let r = x % (TAU_NANO as int);
    let v = if r <= QUARTER_NANO {
        sin_poly_spec(r)
    } else if r <= PI_NANO {
        sin_poly_spec(PI_NANO - r)
    } else if r <= PI_NANO + QUARTER_NANO {
        -sin_poly_spec(r - PI_NANO)
    } else {
        -sin_poly_spec(TAU_NANO - r)
    };
    clamp_unit_spec(v)
}

/// Cosine of an angle in nano-radians, at scale `SCALE`.
pub open spec fn spec_cos_nano(x: int) -> int {
    let r = x % (TAU_NANO as int);
    let v = if r <= QUARTER_NANO {
        cos_poly_spec(r)
    } else if r <= PI_NANO {
        -cos_poly_spec(PI_NANO - r)
    } else if r <= PI_NANO + QUARTER_NANO {
        -cos_poly_spec(r - PI_NANO)
    } else {
        cos_poly_spec(TAU_NANO - r)
    };
    clamp_unit_spec(v)
}

/// Exec twin of [`sin_poly_spec`].
fn sin_poly(t: i128) -> (r: i128)
    requires
        0 <= t <= POLY_ARG_MAX,
    ensures
        r == sin_poly_spec(t as int),
        -(2 * SCALE) <= r <= 2 * SCALE,
{
    proof {
        assert(t * t <= POLY_ARG_MAX * POLY_ARG_MAX) by (nonlinear_arith)
            requires
                0 <= t <= POLY_ARG_MAX,
        ;
        assert(t * t * t <= POLY_ARG_MAX * POLY_ARG_MAX * POLY_ARG_MAX) by (nonlinear_arith)
            requires
                0 <= t <= POLY_ARG_MAX,
        ;
    }
    let u3: i128 = t * t * t;
    let w3: i128 = u3 / (6 * SCALE_SQ);
    let v3: i128 = u3 / SCALE_SQ;
    proof {
        assert(v3 * t <= 4_000_000_000 * POLY_ARG_MAX && v3 * t >= 0) by (nonlinear_arith)
            requires
                0 <= t <= POLY_ARG_MAX,
                0 <= v3 <= 4_000_000_000,
        ;
        assert(v3 * t * t <= 4_000_000_000 * POLY_ARG_MAX * POLY_ARG_MAX) by (nonlinear_arith)
            requires
                0 <= t <= POLY_ARG_MAX,
                0 <= v3 <= 4_000_000_000,
        ;
    }
    let w5: i128 = v3 * t * t / (120 * SCALE_SQ);
    let v5: i128 = v3 * t * t / SCALE_SQ;
    proof {
        assert(v5 * t <= 10_000_000_000 * POLY_ARG_MAX && v5 * t >= 0) by (nonlinear_arith)
            requires
                0 <= t <= POLY_ARG_MAX,
                0 <= v5 <= 10_000_000_000,
        ;
        assert(v5 * t * t <= 10_000_000_000 * POLY_ARG_MAX * POLY_ARG_MAX) by (nonlinear_arith)
            requires
                0 <= t <= POLY_ARG_MAX,
                0 <= v5 <= 10_000_000_000,
        ;
    }
    let w7: i128 = v5 * t * t / (5040 * SCALE_SQ);
    t - w3 + w5 - w7
}

/// Exec twin of [`cos_poly_spec`].
fn cos_poly(t: i128) -> (r: i128)
    requires
        0 <= t <= POLY_ARG_MAX,
    ensures
        r == cos_poly_spec(t as int),
        -(2 * SCALE) <= r <= 3 * SCALE,
{
    proof {
        assert(t * t <= POLY_ARG_MAX * POLY_ARG_MAX) by (nonlinear_arith)
            requires
                0 <= t <= POLY_ARG_MAX,
        ;
    }
    let u2: i128 = t * t;
    let w2: i128 = u2 / (2 * SCALE);
    let v2: i128 = u2 / SCALE;
    proof {
        assert(v2 * u2 <= 3_000_000_000 * POLY_ARG_MAX * POLY_ARG_MAX) by (nonlinear_arith)
            requires
                0 <= u2 <= POLY_ARG_MAX * POLY_ARG_MAX,
                0 <= v2 <= 3_000_000_000,
                POLY_ARG_MAX == 1_570_796_328,
        ;
    }
    let w4: i128 = v2 * u2 / (24 * SCALE_SQ);
    let v4: i128 = v2 * u2 / SCALE_SQ;
    proof {
        assert(v4 * u2 <= 8_000_000_000 * POLY_ARG_MAX * POLY_ARG_MAX) by (nonlinear_arith)
            requires
                0 <= u2 <= POLY_ARG_MAX * POLY_ARG_MAX,
                0 <= v4 <= 8_000_000_000,
                POLY_ARG_MAX == 1_570_796_328,
        ;
    }
    let w6: i128 = v4 * u2 / (720 * SCALE_SQ);
    let v6: i128 = v4 * u2 / SCALE_SQ;
    proof {
        assert(v6 * u2 <= 20_000_000_000 * POLY_ARG_MAX * POLY_ARG_MAX) by (nonlinear_arith)
            requires
                0 <= u2 <= POLY_ARG_MAX * POLY_ARG_MAX,
                0 <= v6 <= 20_000_000_000,
                POLY_ARG_MAX == 1_570_796_328,
        ;
    }
    let w8: i128 = v6 * u2 / (40320 * SCALE_SQ);
    SCALE - w2 + w4 - w6 + w8
}

/// Sine of an angle in nano-radians, clamped into `[-SCALE, SCALE]`.
pub fn sin_nano(x: i128) -> (r: i128)
    requires
        x > i128::MIN,
    ensures
        r == spec_sin_nano(x as int),
        -SCALE <= r <= SCALE,
{
    let m: i128 = mod_euclid(x, TAU_NANO);
    let v: i128 = if m <= QUARTER_NANO {
        sin_poly(m)
    } else if m <= PI_NANO {
        sin_poly(PI_NANO - m)
    } else if m <= PI_NANO + QUARTER_NANO {
        -sin_poly(m - PI_NANO)
    } else {
        -sin_poly(TAU_NANO - m)
    };
    if v > SCALE {
        SCALE
    } else if v < -SCALE {
        -SCALE
    } else {
        v
    }
}

/// Cosine of an angle in nano-radians, clamped into `[-SCALE, SCALE]`.
pub fn cos_nano(x: i128) -> (r: i128)
    requires
        x > i128::MIN,
    ensures
        r == spec_cos_nano(x as int),
        -SCALE <= r <= SCALE,
{
    let m: i128 = mod_euclid(x, TAU_NANO);
    let v: i128 = if m <= QUARTER_NANO {
        cos_poly(m)
    } else if m <= PI_NANO {
        -cos_poly(PI_NANO - m)
    } else if m <= PI_NANO + QUARTER_NANO {
        -cos_poly(m - PI_NANO)
    } else {
        cos_poly(TAU_NANO - m)
    };
    if v > SCALE {
        SCALE
    } else if v < -SCALE {
        -SCALE
    } else {
        v
    }
}

} // verus!
