//! The general laws of the database, stated once and proved for every input:
//! roots rest at the origin, ancestor chains are well formed, a circular
//! orbit keeps its radius, relative positions vanish on the diagonal and
//! change sign with the viewpoint, a lone body weighs only itself, and the
//! sphere of influence grows with the mass inside it.

use vstd::prelude::*;
use crate::constants::{AXIS_MAX_M, AXIS_MIN_M, G_DEN, G_NUM, MASS_MAX_KG, SCALE, SCALE_SQ, TAU_NANO};
use crate::body::spec_gm;
use crate::database::{
    chain_of, entry_of, has_key, key_index, lemma_chain_last, lemma_chain_prefix,
    lemma_key_index_unique, seq_wf, spec_absolute_position, spec_combined_mass,
    spec_mass_below, spec_orbital_radius, spec_position_at_mean_anomaly, spec_position_at_time,
    spec_relative_position, spec_soi_laplace, spec_true_anomaly, DatabaseEntry,
};
use crate::fixed::{
    lemma_root5_floor_monotone, lemma_root5_floor_props, root5_floor, sqrt_floor, tdiv,
};
use crate::vect::{v3i_neg, v3i_sub, v3i_zero, V3i};
use vstd::arithmetic::div_mod::{
    lemma_div_by_multiple, lemma_div_is_ordered, lemma_div_pos_is_pos,
};

verus! {

/// A root body rests at the origin: for every entry without a parent and
/// every time, the absolute position is the zero vector.
pub proof fn lemma_root_absolute_position_zero(s: Seq<(u64, DatabaseEntry)>, h: u64, t: int)
    requires
        seq_wf(s),
        has_key(s, h),
        entry_of(s, h).parent is None,
    ensures
        spec_absolute_position(s, h, t) == v3i_zero(),
{
    reveal(spec_absolute_position);
    reveal(spec_position_at_mean_anomaly);
    assert(s[key_index(s, h)].1.wf());
    assert(entry_of(s, h).orbit is None);
}

/// The ancestor chain of a body starts at an ultimate root, ends with the
/// body itself, and for a root it is exactly the one-element list.
pub proof fn lemma_parents_root_first(s: Seq<(u64, DatabaseEntry)>, h: u64)
    requires
        seq_wf(s),
        has_key(s, h),
    ensures
        chain_of(s, h).len() >= 1,
        chain_of(s, h)[chain_of(s, h).len() - 1] == h,
        entry_of(s, chain_of(s, h)[0]).parent is None,
        entry_of(s, h).parent is None ==> chain_of(s, h) == seq![h],
{
    lemma_chain_last(s, h);
    lemma_chain_prefix(s, h, 0);
    if entry_of(s, h).parent is None {
        reveal(chain_of);
    }
}

/// On a circular orbit the equation-of-center correction vanishes: the true
/// anomaly is the mean anomaly reduced into one turn.
pub proof fn lemma_circular_true_anomaly(m: int)
    ensures
        spec_true_anomaly(0, m) == m % (TAU_NANO as int),
{
    let mr = m % (TAU_NANO as int);
    let s0 = crate::trig::spec_sin_nano(mr);
    let s1 = crate::trig::spec_sin_nano(2 * mr);
    assert(2 * 0 * s0 == 0) by (nonlinear_arith);
    assert(5 * 0 * 0 * s1 == 0) by (nonlinear_arith);
    assert(tdiv(0, SCALE as int) == 0);
    assert(tdiv(0, 4 * (SCALE_SQ as int)) == 0);
}

/// On a circular orbit the orbital radius equals the semimajor axis exactly,
/// whatever the anomaly.
pub proof fn lemma_circular_orbit_radius(a: int, nu: int)
    requires
        AXIS_MIN_M <= a <= AXIS_MAX_M,
    ensures
        spec_orbital_radius(a, 0, nu) == a,
{
    let s2 = SCALE_SQ as int;
    assert(a * (s2 - 0 * 0) == a * s2);
    assert(s2 + 0 * crate::trig::spec_cos_nano(nu) == s2);
    lemma_div_by_multiple(a, s2);
    assert(a * s2 == s2 * a) by (nonlinear_arith);
}

/// On a circular orbit the whole position collapses to the orbit direction
/// scaled by exactly the semimajor axis: the radius factor carries no
/// rounding at all, whatever the mean anomaly.
pub proof fn lemma_circular_position(s: Seq<(u64, DatabaseEntry)>, h: u64, m: int)
    requires
        seq_wf(s),
        has_key(s, h),
        entry_of(s, h).orbit matches Some(o) && o.eccentricity == 0,
    ensures
        ({
            let o = entry_of(s, h).orbit->Some_0;
            let p = entry_of(s, h).parent->Some_0;
            let dir = crate::database::spec_orbit_direction(
                entry_of(s, p).info.axial_tilt_microdeg as int,
                o.inclination as int,
                o.arg_of_periapsis as int,
                o.long_of_ascending_node as int,
                spec_true_anomaly(0, m),
            );
            spec_position_at_mean_anomaly(s, h, m) == (V3i {
                x: tdiv(dir.x * o.semimajor_axis, SCALE as int),
                y: tdiv(dir.y * o.semimajor_axis, SCALE as int),
                z: tdiv(dir.z * o.semimajor_axis, SCALE as int),
            })
        }),
{
    reveal(spec_position_at_mean_anomaly);
    assert(s[key_index(s, h)].1.wf());
    let o = entry_of(s, h).orbit->Some_0;
    lemma_circular_true_anomaly(m);
    lemma_circular_orbit_radius(o.semimajor_axis as int, spec_true_anomaly(0, m));
}

/// Seen from itself, every body is at the origin: the relative position of
/// a body with respect to itself is the zero vector, at every time.
pub proof fn lemma_relative_position_self(s: Seq<(u64, DatabaseEntry)>, h: u64, t: int)
    requires
        seq_wf(s),
        has_key(s, h),
    ensures
        spec_relative_position(s, h, h, t) == Some(v3i_zero()),
{
    let p = spec_absolute_position(s, h, t);
    assert(v3i_sub(p, p) == v3i_zero());
}

/// Swapping the two bodies negates the relative position: whenever both
/// directions are defined, one is the exact negation of the other.
pub proof fn lemma_relative_position_antisymmetric(
    s: Seq<(u64, DatabaseEntry)>,
    a: u64,
    b: u64,
    t: int,
)
    requires
        seq_wf(s),
        has_key(s, a),
        has_key(s, b),
    ensures
        spec_relative_position(s, a, b, t) is Some <==> spec_relative_position(s, b, a, t)
            is Some,
        spec_relative_position(s, a, b, t) matches Some(v) ==> spec_relative_position(
            s,
            b,
            a,
            t,
        ) == Some(v3i_neg(v)),
{
    if spec_relative_position(s, a, b, t) matches Some(v) {
        let pa = spec_absolute_position(s, a, t);
        let pb = spec_absolute_position(s, b, t);
        assert(v3i_neg(v3i_sub(pb, pa)) == v3i_sub(pa, pb));
    }
}

/// Only a body itself carries its handle on its ancestor chain when nothing
/// orbits it.
proof fn lemma_chain_only_self(s: Seq<(u64, DatabaseEntry)>, h: u64, x: u64)
    requires
        seq_wf(s),
        has_key(s, x),
        forall|k: int| 0 <= k < s.len() ==> (#[trigger] s[k]).1.parent != Some(h),
    ensures
        chain_of(s, x).contains(h) <==> x == h,
    decreases key_index(s, x),
{
    reveal(chain_of);
    let c = chain_of(s, x);
    if x == h {
        lemma_chain_last(s, x);
        assert(c[c.len() - 1] == h);
    }
    match entry_of(s, x).parent {
        Option::Some(p) => {
            let i = key_index(s, x);
            assert(s[i].1.parent matches Some(q) && has_key(s, q) && key_index(s, q) < i);
            lemma_chain_only_self(s, h, p);
            let cp = chain_of(s, p);
            assert(c == cp.push(x));
            if c.contains(h) {
                let k = choose|k: int| 0 <= k < c.len() && c[k] == h;
                if k < cp.len() {
                    assert(cp[k] == h);
                    assert(p == h);
                    assert(s[i].1.parent != Some(h));
                } else {
                    assert(c[k] == x);
                }
            }
            if x == h {
                assert(c.contains(h)) by {
                    assert(c[c.len() - 1] == h);
                }
            }
        },
        Option::None => {
            assert(c == seq![x]);
            if c.contains(h) {
                let k = choose|k: int| 0 <= k < c.len() && c[k] == h;
                assert(c[k] == x);
            }
        },
    }
}

/// Mass accumulation over a prefix of the entries, for a body that nothing
/// orbits: only the body's own entry contributes.
proof fn lemma_mass_below_leaf(s: Seq<(u64, DatabaseEntry)>, h: u64, n: int)
    requires
        seq_wf(s),
        has_key(s, h),
        forall|k: int| 0 <= k < s.len() ==> (#[trigger] s[k]).1.parent != Some(h),
        0 <= n <= s.len(),
    ensures
        spec_mass_below(s, h, n) == if key_index(s, h) < n {
            entry_of(s, h).info.mass_kg as int
        } else {
            0
        },
    decreases n,
{
    if n > 0 {
        lemma_mass_below_leaf(s, h, n - 1);
        let hk = s[n - 1].0;
        assert(has_key(s, hk));
        lemma_key_index_unique(s, hk, n - 1);
        lemma_chain_only_self(s, h, hk);
        if hk == h {
            assert(key_index(s, h) == n - 1);
        } else {
            if key_index(s, h) == n - 1 {
                assert(s[n - 1].0 == h);
            }
        }
    }
}

/// A body that nothing orbits weighs only itself: its combined mass is the
/// mass of its own entry.
pub proof fn lemma_combined_mass_leaf(s: Seq<(u64, DatabaseEntry)>, h: u64)
    requires
        seq_wf(s),
        has_key(s, h),
        forall|k: int| 0 <= k < s.len() ==> (#[trigger] s[k]).1.parent != Some(h),
    ensures
        spec_combined_mass(s, h) == entry_of(s, h).info.mass_kg,
{
    lemma_mass_below_leaf(s, h, s.len() as int);
}

/// The sphere-of-influence radius is never negative, and it is strictly
/// positive for every orbiting body that has any mass at all: the one-metre
/// floor of the formula guarantees it even where the integer quotient would
/// round to zero.
pub proof fn lemma_soi_laplace_positive(a: int, m: int, parent_mass: int)
    requires
        AXIS_MIN_M <= a <= AXIS_MAX_M,
        0 <= m,
        1 <= parent_mass,
    ensures
        spec_soi_laplace(a, m, parent_mass) >= 0,
        m >= 1 ==> spec_soi_laplace(a, m, parent_mass) >= 1,
{
    lemma_root5_floor_props(m);
    lemma_root5_floor_props(parent_mass);
    let qm = root5_floor(m);
    let qp = root5_floor(parent_mass);
    assert(qp >= 1) by {
        if qp == 0 {
            assert(parent_mass < (qp + 1) * (qp + 1) * (qp + 1) * (qp + 1) * (qp + 1));
        }
    }
    assert(qp * qp >= 1) by (nonlinear_arith)
        requires
            qp >= 1,
    ;
    assert(a * (qm * qm) >= 0) by (nonlinear_arith)
        requires
            a >= 0,
            qm >= 0,
    ;
    lemma_div_pos_is_pos(a * (qm * qm), qp * qp);
}

/// With the semimajor axis and the parent mass held fixed, the
/// sphere-of-influence radius grows with the combined mass.  On the integer
/// grid the growth is weak, not strict: masses with equal floor fifth roots
/// give equal radii.
pub proof fn lemma_soi_laplace_monotone(a: int, m1: int, m2: int, parent_mass: int)
    requires
        AXIS_MIN_M <= a <= AXIS_MAX_M,
        0 <= m1 <= m2,
        1 <= parent_mass,
    ensures
        spec_soi_laplace(a, m1, parent_mass) <= spec_soi_laplace(a, m2, parent_mass),
{
    lemma_root5_floor_monotone(m1, m2);
    lemma_root5_floor_props(m1);
    lemma_root5_floor_props(m2);
    lemma_root5_floor_props(parent_mass);
    let q1 = root5_floor(m1);
    let q2 = root5_floor(m2);
    let qp = root5_floor(parent_mass);
    assert(qp >= 1) by {
        if qp == 0 {
            assert(parent_mass < (qp + 1) * (qp + 1) * (qp + 1) * (qp + 1) * (qp + 1));
        }
    }
    assert(qp * qp >= 1) by (nonlinear_arith)
        requires
            qp >= 1,
    ;
    assert(0 <= a * (q1 * q1) <= a * (q2 * q2)) by (nonlinear_arith)
        requires
            0 <= q1 <= q2,
            0 < a,
    ;
    lemma_div_is_ordered(a * (q1 * q1), a * (q2 * q2), qp * qp);
    lemma_div_pos_is_pos(a * (q1 * q1), qp * qp);
}

/// `distance_of_gravity` inverts `gravity_at_distance`: reading the gravity
/// at a distance and asking for the distance of that gravity comes back to
/// at least the original distance, and overshoots by less than a factor of
/// the square root of two; the sharp form ties the squares together through
/// the gravity value.  The composition exists only where the gravity at `d`
/// does not round down to zero nano-(m/s²), which is why
/// `distance_of_gravity` requires a threshold of at least one.
pub proof fn lemma_distance_gravity_round_trip(mass: int, d: int)
    requires
        0 <= mass <= MASS_MAX_KG,
        1 <= d <= AXIS_MAX_M,
        spec_gm(mass) * SCALE / (d * d) >= 1,
    ensures
        ({
            let gforce = spec_gm(mass) * SCALE / (d * d);
            let dist = sqrt_floor(spec_gm(mass) * SCALE / gforce);
            &&& d <= dist
            &&& dist * dist * gforce < (gforce + 1) * (d * d)
            &&& dist * dist < 2 * (d * d)
        }),
{
    let gm_s = spec_gm(mass) * SCALE;
    assert(mass * G_NUM >= 0) by (nonlinear_arith)
        requires
            mass >= 0,
            G_NUM > 0,
    ;
    lemma_div_pos_is_pos(mass * G_NUM, G_DEN as int);
    assert(gm_s >= 0) by (nonlinear_arith)
        requires
            spec_gm(mass) >= 0,
            gm_s == spec_gm(mass) * SCALE,
            SCALE > 0,
    ;
    let dd = d * d;
    assert(dd >= 1) by (nonlinear_arith)
        requires
            d >= 1,
            dd == d * d,
    ;
    let gforce = gm_s / dd;
    let q = gm_s / gforce;
    let dist = sqrt_floor(q);
    // gforce * dd <= gm_s < (gforce + 1) * dd
    vstd::arithmetic::div_mod::lemma_fundamental_div_mod(gm_s, dd);
    assert(gforce * dd <= gm_s && gm_s < (gforce + 1) * dd) by (nonlinear_arith)
        requires
            gm_s == dd * gforce + gm_s % dd,
            0 <= gm_s % dd < dd,
    ;
    // dd <= q, so d <= dist
    lemma_div_is_ordered(dd * gforce, gm_s, gforce);
    lemma_div_by_multiple(dd, gforce);
    assert(dd * gforce == gforce * dd) by (nonlinear_arith);
    assert(dd <= q);
    crate::fixed::lemma_sqrt_floor_props(q);
    assert(d * d <= d * d && d * d < (d + 1) * (d + 1)) by (nonlinear_arith)
        requires
            d >= 0,
    ;
    crate::fixed::lemma_sqrt_floor_eq(dd, d);
    crate::fixed::lemma_sqrt_floor_monotone(dd, q);
    // dist² * gforce <= q * gforce <= gm_s < (gforce + 1) * dd
    vstd::arithmetic::div_mod::lemma_fundamental_div_mod(gm_s, gforce);
    assert(q * gforce <= gm_s) by (nonlinear_arith)
        requires
            gm_s == gforce * q + gm_s % gforce,
            0 <= gm_s % gforce,
    ;
    assert(dist * dist * gforce <= q * gforce) by (nonlinear_arith)
        requires
            dist * dist <= q,
            gforce >= 1,
    ;
    // and with gforce >= 1: (gforce + 1) * dd <= 2 * gforce * dd
    assert((gforce + 1) * dd <= 2 * (gforce * dd)) by (nonlinear_arith)
        requires
            gforce >= 1,
            dd >= 0,
    ;
    assert(dist * dist < 2 * dd) by (nonlinear_arith)
        requires
            dist * dist * gforce < 2 * (gforce * dd),
            gforce >= 1,
            dist * dist >= 0,
    ;
}

/// In a database where one given body is the only root, every ancestor
/// chain ends at it: the hierarchy is a single tree.
pub proof fn lemma_chains_end_at_root(s: Seq<(u64, DatabaseEntry)>, root: u64, h: u64)
    requires
        seq_wf(s),
        has_key(s, root),
        has_key(s, h),
        forall|x: u64|
            has_key(s, x) && x != root ==> (#[trigger] entry_of(s, x)).parent is Some,
    ensures
        chain_of(s, h)[0] == root,
{
    lemma_chain_last(s, h);
    lemma_chain_prefix(s, h, 0);
    let first = chain_of(s, h)[0];
    assert(entry_of(s, first).parent is None);
    if first != root {
        assert(entry_of(s, first).parent is Some);
    }
}

/// A root body reports mean anomaly zero and sits at the origin of its own
/// orbit frame at every mean anomaly.
pub proof fn lemma_root_position_zero(s: Seq<(u64, DatabaseEntry)>, h: u64, m: int, t: int)
    requires
        seq_wf(s),
        has_key(s, h),
        entry_of(s, h).parent is None,
    ensures
        spec_position_at_mean_anomaly(s, h, m) == v3i_zero(),
        spec_position_at_time(s, h, t) == v3i_zero(),
{
    reveal(spec_position_at_mean_anomaly);
    assert(s[key_index(s, h)].1.wf());
    assert(entry_of(s, h).orbit is None);
}

} // verus!
