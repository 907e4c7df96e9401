//! Three-component integer vectors and the fixed-point axis-angle rotation
//! used to orient orbits in space.
//!
//! Executable vectors hold `i128` components (positions in metres, directions
//! at scale [`SCALE`]).  Their ghost view [`V3i`] holds unbounded integers, so
//! contracts about sums of many vectors need no overflow side conditions.

use vstd::prelude::*;
use crate::constants::SCALE;
use crate::fixed::{
    div_trunc, isqrt, lemma_sqrt_floor_eq, lemma_sqrt_floor_eq_bound, lemma_sqrt_floor_monotone,
    sqrt_floor, tdiv,
};
use crate::trig::{cos_nano, sin_nano, spec_cos_nano, spec_sin_nano};
use vstd::arithmetic::mul::lemma_mul_inequality;

verus! {

/// A vector of three unbounded integers: the mathematical model of [`Vect3`].
pub struct V3i {
    pub x: int,
    pub y: int,
    pub z: int,
}

/// A vector of three `i128` components.
#[derive(Clone, Copy, Debug, PartialEq, Eq, Structural)]
pub struct Vect3 {
    pub x: i128,
    pub y: i128,
    pub z: i128,
}

impl View for Vect3 {
    type V = V3i;

    open spec fn view(&self) -> V3i {
        V3i { x: self.x as int, y: self.y as int, z: self.z as int }
    }
}

/// The zero vector.
pub open spec fn v3i_zero() -> V3i {
    V3i { x: 0, y: 0, z: 0 }
}

/// Componentwise sum.
pub open spec fn v3i_add(a: V3i, b: V3i) -> V3i {
    V3i { x: a.x + b.x, y: a.y + b.y, z: a.z + b.z }
}

/// Componentwise difference.
pub open spec fn v3i_sub(a: V3i, b: V3i) -> V3i {
    V3i { x: a.x - b.x, y: a.y - b.y, z: a.z - b.z }
}

/// Componentwise negation.
pub open spec fn v3i_neg(a: V3i) -> V3i {
    V3i { x: -a.x, y: -a.y, z: -a.z }
}

/// Every component lies in `[-b, b]`.
pub open spec fn v3i_bounded(a: V3i, b: int) -> bool {
    &&& -b <= a.x <= b
    &&& -b <= a.y <= b
    &&& -b <= a.z <= b
}

impl Vect3 {
    /// The zero vector.
    pub fn zero() -> (r: Vect3)
        ensures
            r@ == v3i_zero(),
    {
        Vect3 { x: 0, y: 0, z: 0 }
    }

    /// Build a vector from its components.
    pub fn new(x: i128, y: i128, z: i128) -> (r: Vect3)
        ensures
            r@ == (V3i { x: x as int, y: y as int, z: z as int }),
    {
        Vect3 { x, y, z }
    }

    /// Componentwise sum.
    pub fn add(self, o: Vect3) -> (r: Vect3)
        requires
            v3i_bounded(self@, 0x2000_0000_0000_0000_0000_0000_0000_0000),
            v3i_bounded(o@, 0x2000_0000_0000_0000_0000_0000_0000_0000),
        ensures
            r@ == v3i_add(self@, o@),
    {
        Vect3 { x: self.x + o.x, y: self.y + o.y, z: self.z + o.z }
    }

    /// Componentwise difference.
    pub fn sub(self, o: Vect3) -> (r: Vect3)
        requires
            v3i_bounded(self@, 0x2000_0000_0000_0000_0000_0000_0000_0000),
            v3i_bounded(o@, 0x2000_0000_0000_0000_0000_0000_0000_0000),
        ensures
            r@ == v3i_sub(self@, o@),
    {
        Vect3 { x: self.x - o.x, y: self.y - o.y, z: self.z - o.z }
    }

    /// Componentwise negation.
    pub fn neg(self) -> (r: Vect3)
        requires
            v3i_bounded(self@, 0x2000_0000_0000_0000_0000_0000_0000_0000),
        ensures
            r@ == v3i_neg(self@),
    {
        Vect3 { x: -self.x, y: -self.y, z: -self.z }
    }
}

/// Bound on the components of a vector that enters a rotation.
pub const ROT_VEC_MAX: i128 = 200_000_000_000;

/// Bound on the components of a rotation axis.
pub const ROT_AXIS_MAX: i128 = 20_000_000_000;

/// Bound on a rotation angle in nano-radians.
pub const ROT_ANGLE_MAX: i128 = 100_000_000_000_000;

/// Fixed-point rotation of `v` by the axis-angle vector `(k, angle)`:
/// the rotation axis is `k` normalised, the rotation angle is `angle`
/// scaled by the length of `k`, and a zero `k` yields the identity.
/// Rodrigues' formula with truncating fixed-point stages:
/// `v cos θ + (k̂ × v) sin θ + k̂ (k̂ · v)(1 - cos θ)`.
pub open spec fn spec_rotate(v: V3i, k: V3i, angle: int) -> V3i {
    let s1 = SCALE as int;
    let len = sqrt_floor(k.x * k.x + k.y * k.y + k.z * k.z);
    if len == 0 {
        v
    } else {
        let ux = tdiv(k.x * s1, len);
        let uy = tdiv(k.y * s1, len);
        let uz = tdiv(k.z * s1, len);
        let ang = tdiv(angle * len, s1);
        let c = spec_cos_nano(ang);
        let s = spec_sin_nano(ang);
        let cx = tdiv(uy * v.z - uz * v.y, s1);
        let cy = tdiv(uz * v.x - ux * v.z, s1);
        let cz = tdiv(ux * v.y - uy * v.x, s1);
        let dot = tdiv(ux * v.x + uy * v.y + uz * v.z, s1);
        let w = tdiv(dot * (s1 - c), s1);
        V3i {
            x: tdiv(v.x * c, s1) + tdiv(cx * s, s1) + tdiv(ux * w, s1),
            y: tdiv(v.y * c, s1) + tdiv(cy * s, s1) + tdiv(uy * w, s1),
            z: tdiv(v.z * c, s1) + tdiv(cz * s, s1) + tdiv(uz * w, s1),
        }
    }
}

/// The magnitude of a truncating quotient is bounded by the magnitude bound
/// of the dividend divided by the divisor.
pub proof fn lemma_tdiv_bound(a: int, b: int, c: int)
    requires
        b > 0,
        c >= 0,
        -(b * c) <= a <= b * c,
    ensures
        -c <= tdiv(a, b) <= c,
{
    if a >= 0 {
        vstd::arithmetic::div_mod::lemma_div_is_ordered(a, b * c, b);
        vstd::arithmetic::div_mod::lemma_div_by_multiple(c, b);
        assert(b * c == c * b) by (nonlinear_arith);
        vstd::arithmetic::div_mod::lemma_div_pos_is_pos(a, b);
    } else {
        vstd::arithmetic::div_mod::lemma_div_is_ordered(-a, b * c, b);
        vstd::arithmetic::div_mod::lemma_div_by_multiple(c, b);
        assert(b * c == c * b) by (nonlinear_arith);
        vstd::arithmetic::div_mod::lemma_div_pos_is_pos(-a, b);
    }
}

/// Exec twin of [`spec_rotate`], with component bounds tracked through the
/// ghost bound `vb`.
pub fn rotate(v: Vect3, k: Vect3, angle: i128, Ghost(vb): Ghost<int>) -> (r: Vect3)
    requires
        0 <= vb <= ROT_VEC_MAX,
        v3i_bounded(v@, vb),
        v3i_bounded(k@, ROT_AXIS_MAX as int),
        -ROT_ANGLE_MAX <= angle <= ROT_ANGLE_MAX,
    ensures
        r@ == spec_rotate(v@, k@, angle as int),
        v3i_bounded(r@, 9 * vb),
{
    proof {
        assert(k.x * k.x <= ROT_AXIS_MAX * ROT_AXIS_MAX && k.x * k.x >= 0) by (nonlinear_arith)
            requires
                -ROT_AXIS_MAX <= k.x <= ROT_AXIS_MAX,
        ;
        assert(k.y * k.y <= ROT_AXIS_MAX * ROT_AXIS_MAX && k.y * k.y >= 0) by (nonlinear_arith)
            requires
                -ROT_AXIS_MAX <= k.y <= ROT_AXIS_MAX,
        ;
        assert(k.z * k.z <= ROT_AXIS_MAX * ROT_AXIS_MAX && k.z * k.z >= 0) by (nonlinear_arith)
            requires
                -ROT_AXIS_MAX <= k.z <= ROT_AXIS_MAX,
        ;
    }
    let norm_sq: i128 = k.x * k.x + k.y * k.y + k.z * k.z;
    let len: i128 = isqrt(norm_sq);
    if len == 0 {
        return v;
    }
    proof {
        // each |k_i| <= len: k_i^2 <= norm_sq and len = sqrt_floor(norm_sq)
        lemma_axis_component_le_len(k.x as int, norm_sq as int);
        lemma_axis_component_le_len(k.y as int, norm_sq as int);
        lemma_axis_component_le_len(k.z as int, norm_sq as int);
        // len <= 40_000_000_000 since norm_sq <= 3 * ROT_AXIS_MAX^2 < (4e10)^2
        assert(norm_sq < 40_000_000_000 * 40_000_000_000) by (nonlinear_arith)
            requires
                norm_sq <= 3 * (ROT_AXIS_MAX * ROT_AXIS_MAX),
        ;
        lemma_sqrt_floor_eq_bound(norm_sq as int, 40_000_000_000);
        // products k_i * SCALE within range and bounded by len * SCALE
        assert(k.x * SCALE <= len * SCALE && -(len * SCALE) <= k.x * SCALE) by (nonlinear_arith)
            requires
                -len <= k.x <= len,
                SCALE > 0,
        ;
        assert(k.y * SCALE <= len * SCALE && -(len * SCALE) <= k.y * SCALE) by (nonlinear_arith)
            requires
                -len <= k.y <= len,
                SCALE > 0,
        ;
        assert(k.z * SCALE <= len * SCALE && -(len * SCALE) <= k.z * SCALE) by (nonlinear_arith)
            requires
                -len <= k.z <= len,
                SCALE > 0,
        ;
        lemma_tdiv_bound(k.x * SCALE, len as int, SCALE as int);
        lemma_tdiv_bound(k.y * SCALE, len as int, SCALE as int);
        lemma_tdiv_bound(k.z * SCALE, len as int, SCALE as int);
    }
    let ux: i128 = div_trunc(k.x * SCALE, len);
    let uy: i128 = div_trunc(k.y * SCALE, len);
    let uz: i128 = div_trunc(k.z * SCALE, len);
    proof {
        assert(angle * len <= ROT_ANGLE_MAX * 40_000_000_000 && -(ROT_ANGLE_MAX
            * 40_000_000_000) <= angle * len) by (nonlinear_arith)
            requires
                -ROT_ANGLE_MAX <= angle <= ROT_ANGLE_MAX,
                0 <= len <= 40_000_000_000,
        ;
    }
    let ang: i128 = div_trunc(angle * len, SCALE);
    let c: i128 = cos_nano(ang);
    let s: i128 = sin_nano(ang);
    proof {
        lemma_mul_unit_bound(uy as int, v.z as int, vb);
        lemma_mul_unit_bound(uz as int, v.y as int, vb);
        lemma_mul_unit_bound(uz as int, v.x as int, vb);
        lemma_mul_unit_bound(ux as int, v.z as int, vb);
        lemma_mul_unit_bound(ux as int, v.y as int, vb);
        lemma_mul_unit_bound(uy as int, v.x as int, vb);
        lemma_mul_unit_bound(ux as int, v.x as int, vb);
        lemma_mul_unit_bound(uy as int, v.y as int, vb);
        lemma_mul_unit_bound(uz as int, v.z as int, vb);
        lemma_tdiv_bound(uy * v.z - uz * v.y, SCALE as int, 2 * vb);
        lemma_tdiv_bound(uz * v.x - ux * v.z, SCALE as int, 2 * vb);
        lemma_tdiv_bound(ux * v.y - uy * v.x, SCALE as int, 2 * vb);
        lemma_tdiv_bound(ux * v.x + uy * v.y + uz * v.z, SCALE as int, 3 * vb);
    }
    let cx: i128 = div_trunc(uy * v.z - uz * v.y, SCALE);
    let cy: i128 = div_trunc(uz * v.x - ux * v.z, SCALE);
    let cz: i128 = div_trunc(ux * v.y - uy * v.x, SCALE);
    let dot: i128 = div_trunc(ux * v.x + uy * v.y + uz * v.z, SCALE);
    proof {
        assert(dot * (SCALE - c) <= (3 * vb) * (2 * SCALE) && -((3 * vb) * (2 * SCALE)) <= dot
            * (SCALE - c)) by (nonlinear_arith)
            requires
                -(3 * vb) <= dot <= 3 * vb,
                0 <= SCALE - c <= 2 * SCALE,
                vb >= 0,
        ;
        assert((3 * vb) * (2 * SCALE) == SCALE * (6 * vb)) by (nonlinear_arith);
        lemma_tdiv_bound(dot * (SCALE - c), SCALE as int, 6 * vb);
    }
    let w: i128 = div_trunc(dot * (SCALE - c), SCALE);
    proof {
        lemma_scaled_term_bound(v.x as int, c as int, vb);
        lemma_scaled_term_bound(v.y as int, c as int, vb);
        lemma_scaled_term_bound(v.z as int, c as int, vb);
        lemma_scaled_term_bound(cx as int, s as int, 2 * vb);
        lemma_scaled_term_bound(cy as int, s as int, 2 * vb);
        lemma_scaled_term_bound(cz as int, s as int, 2 * vb);
        lemma_unit_times_bound(ux as int, w as int, 6 * vb);
        lemma_unit_times_bound(uy as int, w as int, 6 * vb);
        lemma_unit_times_bound(uz as int, w as int, 6 * vb);
    }
    let rx: i128 = div_trunc(v.x * c, SCALE) + div_trunc(cx * s, SCALE) + div_trunc(
        ux * w,
        SCALE,
    );
    let ry: i128 = div_trunc(v.y * c, SCALE) + div_trunc(cy * s, SCALE) + div_trunc(
        uy * w,
        SCALE,
    );
    let rz: i128 = div_trunc(v.z * c, SCALE) + div_trunc(cz * s, SCALE) + div_trunc(
        uz * w,
        SCALE,
    );
    Vect3 { x: rx, y: ry, z: rz }
}

/// If `a² <= n`, then `a <= sqrt_floor(n)` and `-sqrt_floor(n) <= a`.
proof fn lemma_axis_component_le_len(a: int, n: int)
    requires
        a * a <= n,
    ensures
        -sqrt_floor(n) <= a <= sqrt_floor(n),
{
    let m = if a >= 0 {
        a
    } else {
        -a
    };
    assert(m * m == a * a) by (nonlinear_arith)
        requires
            m == a || m == -a,
    ;
    assert(m * m <= m * m && m * m < (m + 1) * (m + 1)) by (nonlinear_arith)
        requires
            m >= 0,
    ;
    lemma_sqrt_floor_eq(m * m, m);
    lemma_sqrt_floor_monotone(m * m, n);
}

/// `|u| <= SCALE` and `|x| <= m` bound `u * x / SCALE` by `m`.
proof fn lemma_mul_unit_bound(u: int, x: int, m: int)
    requires
        -SCALE <= u <= SCALE,
        -m <= x <= m,
        m >= 0,
    ensures
        -(SCALE * m) <= u * x <= SCALE * m,
{
    assert(-(SCALE * m) <= u * x <= SCALE * m) by (nonlinear_arith)
        requires
            -SCALE <= u <= SCALE,
            -m <= x <= m,
            m >= 0,
    ;
}

/// `|x| <= m` and `|c| <= SCALE` bound `tdiv(x * c, SCALE)` by `m`.
proof fn lemma_scaled_term_bound(x: int, c: int, m: int)
    requires
        -m <= x <= m,
        -SCALE <= c <= SCALE,
        m >= 0,
    ensures
        -m <= tdiv(x * c, SCALE as int) <= m,
{
    assert(-(SCALE * m) <= x * c <= SCALE * m) by (nonlinear_arith)
        requires
            -m <= x <= m,
            -SCALE <= c <= SCALE,
            m >= 0,
    ;
    lemma_tdiv_bound(x * c, SCALE as int, m);
}

/// `|u| <= SCALE` and `|w| <= m` bound `tdiv(u * w, SCALE)` by `m`.
proof fn lemma_unit_times_bound(u: int, w: int, m: int)
    requires
        -SCALE <= u <= SCALE,
        -m <= w <= m,
        m >= 0,
    ensures
        -m <= tdiv(u * w, SCALE as int) <= m,
{
    assert(-(SCALE * m) <= u * w <= SCALE * m) by (nonlinear_arith)
        requires
            -SCALE <= u <= SCALE,
            -m <= w <= m,
            m >= 0,
    ;
    lemma_tdiv_bound(u * w, SCALE as int, m);
}

} // verus!
