//! The hierarchical orbit database: one entry per body, keyed by an integer
//! handle, with the parent/child structure expressed through parent handles.
//!
//! Entries are appended during a construction phase; a parent is always
//! inserted before its satellites, which makes the hierarchy a forest and
//! gives every recursive walk a decreasing measure.  All query methods are
//! pure functions of the database, the handle and the time.

use vstd::prelude::*;
use crate::body::{spec_gm, spec_tilt_nanorad, Body};
use crate::constants::{
    AXIS_MAX_M, AXIS_MIN_M, DEFAULT_SCALE_NANO, ECC_MAX, ENTRY_MAX, GM_MAX, MASS_MAX_KG,
    MEANANOM_MAX, POS_LIMIT_M, SCALE, SCALE_SQ, SOI_MIN_GRAVITY_NANO, TAU_NANO,
};
use vstd::arithmetic::mul::lemma_mul_inequality;
use crate::elements::OrbitalElements;
use crate::fixed::{
    deg_to_nanorad_norm, div_trunc, isqrt, iroot5, microdeg_to_nanorad, mod_euclid, root5_floor,
    sqrt_floor, tdiv,
};
use crate::trig::{cos_nano, sin_nano, spec_cos_nano, spec_sin_nano};
use crate::vect::{rotate, spec_rotate, v3i_add, v3i_bounded, v3i_sub, v3i_zero, V3i, Vect3};

verus! {

/// One hierarchy node: a body, an optional parent with the orbit around it,
/// the orbital phase at simulation time zero, and a display-scale hint.
pub struct DatabaseEntry {
    /// Handle of the body this one orbits, if any.  An entry without a
    /// parent is a root, fixed at the origin of its own reference frame.
    pub parent: Option<u64>,
    /// Display name of the body.
    pub name: String,
    /// The physical body itself.
    pub info: Body,
    /// The orbit around the parent; present exactly when `parent` is.
    pub orbit: Option<OrbitalElements>,
    /// Mean anomaly at simulation time zero, in nano-radians.
    pub mean_anomaly_at_epoch: i128,
    /// Display-only scale hint, in billionths.
    pub scale: i128,
}

impl DatabaseEntry {
    /// A parent goes together with an orbit, all numbers are in range.
    pub open spec fn wf(self) -> bool {
        &&& self.parent.is_some() <==> self.orbit.is_some()
        &&& self.info.wf()
        &&& (self.orbit matches Some(o) ==> o.wf())
        &&& 0 <= self.mean_anomaly_at_epoch < TAU_NANO
        &&& 0 <= self.scale
    }

    /// A new root entry for the given body, with no parent, zero phase and
    /// the default display scale.
    pub fn new(info: Body, name: String) -> (r: DatabaseEntry)
        requires
            info.wf(),
        ensures
            r.parent is None,
            r.orbit is None,
            r.name == name,
            r.info == info,
            r.mean_anomaly_at_epoch == 0,
            r.scale == DEFAULT_SCALE_NANO,
            r.wf(),
    {
        DatabaseEntry {
            parent: None,
            name,
            info,
            orbit: None,
            mean_anomaly_at_epoch: 0,
            scale: DEFAULT_SCALE_NANO,
        }
    }

    /// Attach this entry to a parent with the given orbit around it.
    pub fn with_parent(self, parent_handle: u64, orbital_elements: OrbitalElements) -> (r:
        DatabaseEntry)
        ensures
            r.parent == Some(parent_handle),
            r.orbit == Some(orbital_elements),
            r.name == self.name,
            r.info == self.info,
            r.mean_anomaly_at_epoch == self.mean_anomaly_at_epoch,
            r.scale == self.scale,
    {
        DatabaseEntry { parent: Some(parent_handle), orbit: Some(orbital_elements), ..self }
    }

    /// Replace the display-scale hint, in billionths.
    pub fn with_scale(self, scale_nano: i128) -> (r: DatabaseEntry)
        requires
            scale_nano >= 0,
        ensures
            r.scale == scale_nano,
            r.parent == self.parent,
            r.orbit == self.orbit,
            r.name == self.name,
            r.info == self.info,
            r.mean_anomaly_at_epoch == self.mean_anomaly_at_epoch,
    {
        DatabaseEntry { scale: scale_nano, ..self }
    }

    /// Set the orbital phase at time zero, given in micro-degrees; the angle
    /// is reduced into `[0, 2π)`.
    pub fn with_mean_anomaly_deg(self, microdeg: i128) -> (r: DatabaseEntry)
        requires
            microdeg > i128::MIN,
        ensures
            r.mean_anomaly_at_epoch == deg_to_nanorad_norm(microdeg as int),
            0 <= r.mean_anomaly_at_epoch < TAU_NANO,
            r.parent == self.parent,
            r.orbit == self.orbit,
            r.name == self.name,
            r.info == self.info,
            r.scale == self.scale,
    {
        DatabaseEntry { mean_anomaly_at_epoch: microdeg_to_nanorad(microdeg), ..self }
    }

    /// The gravitational parameter GM of this entry's body.
    pub fn gm(&self) -> (r: i128)
        requires
            self.info.wf(),
        ensures
            r == spec_gm(self.info.mass_kg as int),
            0 <= r <= GM_MAX,
    {
        self.info.gm()
    }
}

/// Holds the data for all the bodies being simulated.
///
/// The host feeds its celestial bodies in during a construction phase
/// ([`Database::add_entry`]), then queries positions and derived quantities
/// each frame, passing the simulation time explicitly.
pub struct Database {
    bodies: Vec<(u64, DatabaseEntry)>,
}

/// Some entry of `s` carries the handle `h`.
pub open spec fn has_key(s: Seq<(u64, DatabaseEntry)>, h: u64) -> bool {
    exists|i: int| 0 <= i < s.len() && (#[trigger] s[i]).0 == h
}

/// The index of the entry carrying handle `h` (unique when the keys of `s`
/// are distinct).
pub open spec fn key_index(s: Seq<(u64, DatabaseEntry)>, h: u64) -> int {
    choose|i: int| 0 <= i < s.len() && (#[trigger] s[i]).0 == h
}

/// The entry carrying handle `h`.
pub open spec fn entry_of(s: Seq<(u64, DatabaseEntry)>, h: u64) -> DatabaseEntry {
    s[key_index(s, h)].1
}

/// Well-formedness of the entry sequence: bounded length, distinct keys,
/// well-formed entries, and every parent present at a smaller index.
pub open spec fn seq_wf(s: Seq<(u64, DatabaseEntry)>) -> bool {
    &&& s.len() <= ENTRY_MAX
    &&& forall|i: int, j: int| 0 <= i < j < s.len() ==> (#[trigger] s[i]).0 != (#[trigger] s[j]).0
    &&& forall|i: int| 0 <= i < s.len() ==> (#[trigger] s[i]).1.wf()
    &&& forall|i: int|
        0 <= i < s.len() ==> ((#[trigger] s[i]).1.parent matches Some(p) ==> has_key(s, p)
            && key_index(s, p) < i)
}

/// In a well-formed sequence the index of a present key is the only index
/// carrying it.
pub proof fn lemma_key_index_unique(s: Seq<(u64, DatabaseEntry)>, h: u64, i: int)
    requires
        forall|a: int, b: int|
            0 <= a < b < s.len() ==> (#[trigger] s[a]).0 != (#[trigger] s[b]).0,
        0 <= i < s.len(),
        s[i].0 == h,
    ensures
        has_key(s, h),
        key_index(s, h) == i,
{
    assert(has_key(s, h));
    let j = key_index(s, h);
    assert(0 <= j < s.len() && s[j].0 == h);
    if i < j {
        assert(s[i].0 != s[j].0);
    }
    if j < i {
        assert(s[j].0 != s[i].0);
    }
}

/// Appending an entry adds exactly its key to the key set.
pub proof fn lemma_has_key_push(s: Seq<(u64, DatabaseEntry)>, p: (u64, DatabaseEntry), h: u64)
    ensures
        has_key(s.push(p), h) == (has_key(s, h) || p.0 == h),
{
    if has_key(s, h) {
        let i = choose|i: int| 0 <= i < s.len() && (#[trigger] s[i]).0 == h;
        assert(s.push(p)[i] == s[i]);
    }
    if p.0 == h {
        assert(s.push(p)[s.len() as int] == p);
    }
    if has_key(s.push(p), h) {
        let i = choose|i: int| 0 <= i < s.push(p).len() && (#[trigger] s.push(p)[i]).0 == h;
        if i < s.len() {
            assert(s[i].0 == h);
        } else {
            assert(s.push(p)[i] == p);
        }
    }
}

/// Appending an entry with a fresh key leaves the entry of every present
/// key unchanged.
pub proof fn lemma_entry_of_push(s: Seq<(u64, DatabaseEntry)>, p: (u64, DatabaseEntry), h: u64)
    requires
        forall|a: int, b: int|
            0 <= a < b < s.len() ==> (#[trigger] s[a]).0 != (#[trigger] s[b]).0,
        !has_key(s, p.0),
        has_key(s, h),
    ensures
        has_key(s.push(p), h),
        key_index(s.push(p), h) == key_index(s, h),
        entry_of(s.push(p), h) == entry_of(s, h),
{
    let w = choose|i: int| 0 <= i < s.len() && (#[trigger] s[i]).0 == h;
    lemma_key_index_unique(s, h, w);
    let i = key_index(s, h);
    let t = s.push(p);
    assert forall|a: int, b: int|
        0 <= a < b < t.len() implies (#[trigger] t[a]).0 != (#[trigger] t[b]).0 by {
        if b < s.len() {
            assert(t[a] == s[a] && t[b] == s[b]);
        } else {
            assert(t[b] == p);
            assert(t[a] == s[a]);
            if s[a].0 == p.0 {
                assert(has_key(s, p.0));
            }
        }
    }
    assert(t[i] == s[i]);
    lemma_key_index_unique(t, h, i);
}

/// The ancestor chain of `h`, from the ultimate root down to `h` itself.
#[verifier::opaque]
pub open spec fn chain_of(s: Seq<(u64, DatabaseEntry)>, h: u64) -> Seq<u64>
    decreases (if has_key(s, h) { key_index(s, h) } else { 0 }) when seq_wf(s)
{
    if !has_key(s, h) {
        seq![h]
    } else {
        match entry_of(s, h).parent {
            Option::Some(p) => chain_of(s, p).push(h),
            Option::None => seq![h],
        }
    }
}

impl Database {
    /// The sequence of entries, in insertion order: the mathematical model
    /// of the database.  Every public contract is stated over it.
    pub closed spec fn entries(self) -> Seq<(u64, DatabaseEntry)> {
        self.bodies@
    }

    /// The database invariant; see [`seq_wf`].
    pub open spec fn wf(self) -> bool {
        seq_wf(self.entries())
    }

    /// Number of entries.
    pub fn len(&self) -> (r: usize)
        ensures
            r == self.entries().len(),
    {
        self.bodies.len()
    }

    /// Adds a new entry to the database.  The handle must be fresh and the
    /// parent, if any, already present: population happens parents-first.
    pub fn add_entry(&mut self, handle: u64, entry: DatabaseEntry)
        requires
            old(self).wf(),
            old(self).entries().len() < ENTRY_MAX,
            !has_key(old(self).entries(), handle),
            entry.wf(),
            entry.parent matches Some(p) ==> has_key(old(self).entries(), p),
        ensures
            final(self).entries() == old(self).entries().push((handle, entry)),
            final(self).wf(),
            has_key(final(self).entries(), handle),
    {
        let ghost old_s = self.bodies@;
        self.bodies.push((handle, entry));
        proof {
            let s = self.entries();
            assert(s == old_s.push((handle, entry)));
            let n = old_s.len() as int;
            assert forall|i: int, j: int| 0 <= i < j < s.len() implies (#[trigger] s[i]).0 != (
            #[trigger] s[j]).0 by {
                if j < n {
                    assert(s[i] == old_s[i] && s[j] == old_s[j]);
                } else {
                    assert(j == n && s[j].0 == handle);
                    assert(s[i] == old_s[i]);
                    if s[i].0 == handle {
                        assert(has_key(old_s, handle));
                    }
                }
            }
            assert forall|i: int| 0 <= i < s.len() implies (#[trigger] s[i]).1.wf() by {
                if i < n {
                    assert(s[i] == old_s[i]);
                } else {
                    assert(s[i].1 == entry);
                }
            }
            assert forall|i: int|
                0 <= i < s.len() implies ((#[trigger] s[i]).1.parent matches Some(p) ==> has_key(
                s, p) && key_index(s, p) < i) by {
                if s[i].1.parent is Some {
                    let p = s[i].1.parent->Some_0;
                    if i < n {
                        assert(s[i] == old_s[i]);
                        assert(has_key(old_s, p) && key_index(old_s, p) < i);
                        let k = key_index(old_s, p);
                        assert(old_s[k].0 == p);
                        assert(s[k] == old_s[k]);
                        lemma_key_index_unique(s, p, k);
                    } else {
                        assert(s[i].1 == entry);
                        assert(has_key(old_s, p));
                        let k = key_index(old_s, p);
                        assert(old_s[k].0 == p);
                        assert(s[k] == old_s[k]);
                        lemma_key_index_unique(s, p, k);
                    }
                }
            }
            lemma_key_index_unique(s, handle, n);
        }
    }

    /// The index of the entry with the given handle.
    fn index_of(&self, handle: u64) -> (r: usize)
        requires
            self.wf(),
            has_key(self.entries(), handle),
        ensures
            r == key_index(self.entries(), handle),
            r < self.entries().len(),
            self.entries()[r as int].0 == handle,
    {
        let n = self.bodies.len();
        let mut i: usize = 0;
        while i < n
            invariant
                self.wf(),
                has_key(self.entries(), handle),
                n == self.entries().len(),
                0 <= i <= n,
                forall|j: int| 0 <= j < i ==> (#[trigger] self.entries()[j]).0 != handle,
            decreases n - i,
        {
            if self.bodies[i].0 == handle {
                proof {
                    lemma_key_index_unique(self.entries(), handle, i as int);
                }
                return i;
            }
            i += 1;
        }
        proof {
            let k = key_index(self.entries(), handle);
            assert(self.entries()[k].0 == handle);
            assert(false);
        }
        0
    }

    /// Gets the entry from the database with the given handle.  Looking up a
    /// handle that was never added is a programming error, excluded by
    /// contract.
    pub fn get_entry(&self, handle: u64) -> (r: &DatabaseEntry)
        requires
            self.wf(),
            has_key(self.entries(), handle),
        ensures
            *r == entry_of(self.entries(), handle),
    {
        let idx = self.index_of(handle);
        &self.bodies[idx].1
    }

    /// Whether the database holds an entry for the given handle.
    pub fn contains(&self, handle: u64) -> (r: bool)
        requires
            self.wf(),
        ensures
            r == has_key(self.entries(), handle),
    {
        let n = self.bodies.len();
        let mut i: usize = 0;
        while i < n
            invariant
                self.wf(),
                n == self.entries().len(),
                0 <= i <= n,
                forall|j: int| 0 <= j < i ==> (#[trigger] self.entries()[j]).0 != handle,
            decreases n - i,
        {
            if self.bodies[i].0 == handle {
                return true;
            }
            i += 1;
        }
        proof {
            if has_key(self.entries(), handle) {
                let k = key_index(self.entries(), handle);
                assert(self.entries()[k].0 == handle);
            }
        }
        false
    }

    /// The hierarchy of bodies above the given one: the returned list starts
    /// with the ultimate root and ends with `body` itself, each entry the
    /// parent of the next.
    pub fn get_parents(&self, body: u64) -> (r: Vec<u64>)
        requires
            self.wf(),
            has_key(self.entries(), body),
        ensures
            r@ == chain_of(self.entries(), body),
        decreases key_index(self.entries(), body),
    {
        proof {
            reveal(chain_of);
        }
        let entry = self.get_entry(body);
        match entry.parent {
            Some(parent_handle) => {
                proof {
                    let s = self.entries();
                    let i = key_index(s, body);
                    assert(s[i].1.parent matches Some(p) && has_key(s, p) && key_index(s, p)
                        < i);
                }
                let mut hierarchy = self.get_parents(parent_handle);
                hierarchy.push(body);
                hierarchy
            },
            None => {
                let mut hierarchy: Vec<u64> = Vec::new();
                hierarchy.push(body);
                proof {
                    assert(hierarchy@ =~= seq![body]);
                }
                hierarchy
            },
        }
    }

    /// All (handle, entry) pairs, in insertion order.  The names are cloned;
    /// every other field is copied exactly.
    pub fn iter(&self) -> (r: Vec<(u64, DatabaseEntry)>)
        ensures
            r@.len() == self.entries().len(),
            forall|i: int|
                0 <= i < r@.len() ==> (#[trigger] r@[i]).0 == self.entries()[i].0
                    && r@[i].1.parent == self.entries()[i].1.parent && r@[i].1.name@
                    == self.entries()[i].1.name@ && r@[i].1.info == self.entries()[i].1.info
                    && r@[i].1.orbit == self.entries()[i].1.orbit
                    && r@[i].1.mean_anomaly_at_epoch == self.entries()[i].1.mean_anomaly_at_epoch
                    && r@[i].1.scale == self.entries()[i].1.scale,
    {
        let n = self.bodies.len();
        let mut out: Vec<(u64, DatabaseEntry)> = Vec::new();
        let mut i: usize = 0;
        while i < n
            invariant
                n == self.entries().len(),
                0 <= i <= n,
                out@.len() == i,
                forall|j: int|
                    0 <= j < i ==> (#[trigger] out@[j]).0 == self.entries()[j].0
                        && out@[j].1.parent == self.entries()[j].1.parent && out@[j].1.name@
                        == self.entries()[j].1.name@ && out@[j].1.info == self.entries()[j].1.info
                        && out@[j].1.orbit == self.entries()[j].1.orbit
                        && out@[j].1.mean_anomaly_at_epoch
                        == self.entries()[j].1.mean_anomaly_at_epoch && out@[j].1.scale
                        == self.entries()[j].1.scale,
            decreases n - i,
        {
            let pair = &self.bodies[i];
            let entry = DatabaseEntry {
                parent: pair.1.parent,
                name: pair.1.name.clone(),
                info: pair.1.info,
                orbit: pair.1.orbit,
                mean_anomaly_at_epoch: pair.1.mean_anomaly_at_epoch,
                scale: pair.1.scale,
            };
            out.push((pair.0, entry));
            i += 1;
        }
        out
    }
}

/// Mean motion `n = sqrt(GM / a³)` in femto-radians per second, computed by
/// staged divisions so every intermediate value stays inside `i128`.
pub open spec fn spec_mean_motion_femto(gm: int, a: int) -> int {
    let s1 = gm * 1_000_000_000_000 / a;
    let s2 = s1 * 1_000_000_000 / a;
    let s3 = s2 * 1_000_000_000 / a;
    sqrt_floor(s3)
}

/// Mean anomaly at time `t`: the phase at epoch plus the mean motion times
/// the time.  A root body has no orbit and reports zero.
#[verifier::opaque]
pub open spec fn spec_mean_anomaly(s: Seq<(u64, DatabaseEntry)>, h: u64, t: int) -> int {
    let e = entry_of(s, h);
    match e.parent {
        Option::Some(p) => {
            let orbit = e.orbit->Some_0;
            let n = spec_mean_motion_femto(
                spec_gm(entry_of(s, p).info.mass_kg as int),
                orbit.semimajor_axis as int,
            );
            e.mean_anomaly_at_epoch + tdiv(n * t, 1_000_000)
        },
        Option::None => 0,
    }
}

/// True anomaly from the mean anomaly by the second-order equation of
/// center, `ν = M + 2e·sin M + 1.25e²·sin 2M`, on the anomaly reduced into
/// one turn.  This is an analytic series approximation, not an exact solve
/// of Kepler's equation.
pub open spec fn spec_true_anomaly(e: int, m_any: int) -> int {
    let m = m_any % (TAU_NANO as int);
    m + tdiv(2 * e * spec_sin_nano(m), SCALE as int) + tdiv(
        5 * e * e * spec_sin_nano(2 * m),
        4 * (SCALE_SQ as int),
    )
}

/// Orbital radius `r = a(1 - e²) / (1 + e·cos ν)` at scale 1 (metres).
pub open spec fn spec_orbital_radius(a: int, e: int, nu: int) -> int {
    a * ((SCALE_SQ as int) - e * e) / ((SCALE_SQ as int) + e * spec_cos_nano(nu))
}

/// Unit direction of the position on the orbit: the reference axis carried
/// through the composed rotations (true anomaly about the parent's tilted
/// up-axis, argument of periapsis about the orbit normal, inclination about
/// the ascending-node direction).
pub open spec fn spec_orbit_direction(
    tilt_microdeg: int,
    incl: int,
    argp: int,
    lan: int,
    nu: int,
) -> V3i {
    let s1 = SCALE as int;
    let x_axis = V3i { x: s1, y: 0, z: 0 };
    let y_axis = V3i { x: 0, y: s1, z: 0 };
    let up = spec_rotate(y_axis, x_axis, spec_tilt_nanorad(tilt_microdeg));
    let asc = spec_rotate(x_axis, up, lan);
    let normal = V3i {
        x: tdiv(x_axis.y * asc.z - x_axis.z * asc.y, s1),
        y: tdiv(x_axis.z * asc.x - x_axis.x * asc.z, s1),
        z: tdiv(x_axis.x * asc.y - x_axis.y * asc.x, s1),
    };
    let v1 = spec_rotate(x_axis, up, nu);
    let v2 = spec_rotate(v1, normal, argp);
    spec_rotate(v2, asc, incl)
}

/// Position of a body relative to its parent at the given mean anomaly:
/// the orbit direction scaled by the orbital radius.  A root body is at the
/// origin of its own frame.
#[verifier::opaque]
pub open spec fn spec_position_at_mean_anomaly(
    s: Seq<(u64, DatabaseEntry)>,
    h: u64,
    m: int,
) -> V3i {
    let e = entry_of(s, h);
    match e.orbit {
        Option::Some(orbit) => {
            let p = e.parent->Some_0;
            let pbody = entry_of(s, p).info;
            let nu = spec_true_anomaly(orbit.eccentricity as int, m);
            let radius = spec_orbital_radius(
                orbit.semimajor_axis as int,
                orbit.eccentricity as int,
                nu,
            );
            let dir = spec_orbit_direction(
                pbody.axial_tilt_microdeg as int,
                orbit.inclination as int,
                orbit.arg_of_periapsis as int,
                orbit.long_of_ascending_node as int,
                nu,
            );
            V3i {
                x: tdiv(dir.x * radius, SCALE as int),
                y: tdiv(dir.y * radius, SCALE as int),
                z: tdiv(dir.z * radius, SCALE as int),
            }
        },
        Option::None => v3i_zero(),
    }
}

/// Position of a body relative to its parent at time `t`.
pub open spec fn spec_position_at_time(s: Seq<(u64, DatabaseEntry)>, h: u64, t: int) -> V3i {
    spec_position_at_mean_anomaly(s, h, spec_mean_anomaly(s, h, t))
}

/// Absolute position of a body at time `t`: its position relative to its
/// parent plus the parent's absolute position, accumulated up to the root.
#[verifier::opaque]
pub open spec fn spec_absolute_position(s: Seq<(u64, DatabaseEntry)>, h: u64, t: int) -> V3i
    decreases (if has_key(s, h) { key_index(s, h) } else { 0 }) when seq_wf(s)
{
    if !has_key(s, h) {
        v3i_zero()
    } else {
        match entry_of(s, h).parent {
            Option::Some(p) => v3i_add(
                spec_position_at_time(s, h, t),
                spec_absolute_position(s, p, t),
            ),
            Option::None => spec_position_at_time(s, h, t),
        }
    }
}

impl Database {
    /// Instantaneous mean anomaly of the given body at the given time since
    /// epoch in seconds: `M(t) = M₀ + n·t` in nano-radians, unreduced.
    /// A root body reports zero.
    pub fn mean_anomaly_at_time(&self, handle: u64, time: i64) -> (r: i128)
        requires
            self.wf(),
            has_key(self.entries(), handle),
        ensures
            r == spec_mean_anomaly(self.entries(), handle, time as int),
            -MEANANOM_MAX <= r <= MEANANOM_MAX,
    {
        let ghost s = self.entries();
        let entry = self.get_entry(handle);
        proof {
            reveal(spec_mean_anomaly);
            assert(s[key_index(s, handle)].1.wf());
        }
        match entry.parent {
            Some(parent_handle) => {
                proof {
                    let i = key_index(s, handle);
                    assert(s[i].1.parent matches Some(p) && has_key(s, p));
                }
                let orbit = entry.orbit.unwrap();
                let parent_entry = self.get_entry(parent_handle);
                proof {
                    assert(s[key_index(s, parent_handle)].1.wf());
                }
                let gm_val: i128 = parent_entry.gm();
                let a: i128 = orbit.semimajor_axis;
                proof {
                    assert(gm_val * 1_000_000_000_000 <= GM_MAX * 1_000_000_000_000 && gm_val
                        * 1_000_000_000_000 >= 0) by (nonlinear_arith)
                        requires
                            0 <= gm_val <= GM_MAX,
                    ;
                    lemma_staged_div_bound(gm_val * 1_000_000_000_000,
                        GM_MAX * 1_000_000_000_000, a as int);
                }
                let s1: i128 = gm_val * 1_000_000_000_000 / a;
                proof {
                    assert(s1 * 1_000_000_000 <= 140_000_000_000_000_000_000_000_000
                        * 1_000_000_000 && s1 * 1_000_000_000 >= 0) by (nonlinear_arith)
                        requires
                            0 <= s1 <= 140_000_000_000_000_000_000_000_000,
                    ;
                    lemma_staged_div_bound(s1 * 1_000_000_000,
                        140_000_000_000_000_000_000_000_000int * 1_000_000_000, a as int);
                }
                let s2: i128 = s1 * 1_000_000_000 / a;
                proof {
                    assert(s2 * 1_000_000_000 <= 140_000_000_000_000_000_000_000_000_000
                        * 1_000_000_000 && s2 * 1_000_000_000 >= 0) by (nonlinear_arith)
                        requires
                            0 <= s2 <= 140_000_000_000_000_000_000_000_000_000,
                    ;
                    lemma_staged_div_bound(s2 * 1_000_000_000,
                        140_000_000_000_000_000_000_000_000_000int * 1_000_000_000, a as int);
                }
                let s3: i128 = s2 * 1_000_000_000 / a;
                let n: i128 = isqrt(s3);
                proof {
                    crate::fixed::lemma_sqrt_floor_eq_bound(s3 as int, 12_000_000_000_000_000);
                    assert(n * (time as int) <= 12_000_000_000_000_000
                        * 10_000_000_000_000_000_000 && -(12_000_000_000_000_000
                        * 10_000_000_000_000_000_000) <= n * (time as int)) by (nonlinear_arith)
                        requires
                            0 <= n <= 12_000_000_000_000_000,
                            -10_000_000_000_000_000_000 <= time as int
                                <= 10_000_000_000_000_000_000,
                    ;
                    crate::vect::lemma_tdiv_bound(n * (time as int), 1_000_000,
                        120_000_000_000_000_000_000_000_000_000);
                    assert(12_000_000_000_000_000 * 10_000_000_000_000_000_000 == 1_000_000
                        * 120_000_000_000_000_000_000_000_000_000) by (nonlinear_arith);
                }
                entry.mean_anomaly_at_epoch + div_trunc(n * (time as i128), 1_000_000)
            },
            None => 0,
        }
    }

    /// Position of the given body relative to its parent at the given mean
    /// anomaly, in metres.
    pub fn position_at_mean_anomaly(&self, handle: u64, mean_anomaly: i128) -> (r: Vect3)
        requires
            self.wf(),
            has_key(self.entries(), handle),
            -MEANANOM_MAX <= mean_anomaly <= MEANANOM_MAX,
        ensures
            r@ == spec_position_at_mean_anomaly(self.entries(), handle, mean_anomaly as int),
            v3i_bounded(r@, POS_LIMIT_M as int),
    {
        let ghost s = self.entries();
        let entry = self.get_entry(handle);
        proof {
            reveal(spec_position_at_mean_anomaly);
            assert(s[key_index(s, handle)].1.wf());
        }
        match entry.orbit {
            Some(orbit) => {
                proof {
                    let i = key_index(s, handle);
                    assert(s[i].1.parent matches Some(p) && has_key(s, p));
                }
                let parent_handle = match entry.parent {
                    Some(p) => p,
                    None => {
                        proof {
                            assert(false);  // an orbit always has a parent
                        }
                        0
                    },
                };
                let parent = self.get_entry(parent_handle);
                proof {
                    assert(s[key_index(s, parent_handle)].1.wf());
                }
                // true anomaly from the equation-of-center series
                let m: i128 = mod_euclid(mean_anomaly, TAU_NANO);
                let sin_m: i128 = sin_nano(m);
                let sin_2m: i128 = sin_nano(2 * m);
                let e: i128 = orbit.eccentricity;
                proof {
                    assert(2 * e * sin_m <= 2 * ECC_MAX * SCALE && -(2 * ECC_MAX * SCALE) <= 2
                        * e * sin_m) by (nonlinear_arith)
                        requires
                            0 <= e <= ECC_MAX,
                            -SCALE <= sin_m <= SCALE,
                    ;
                    assert(2 * ECC_MAX * SCALE <= SCALE * (2 * ECC_MAX)) by (nonlinear_arith);
                    crate::vect::lemma_tdiv_bound(2 * e * sin_m, SCALE as int, 2 * ECC_MAX);
                    assert(0 <= 5 * e * e <= 5 * (ECC_MAX * ECC_MAX)) by (nonlinear_arith)
                        requires
                            0 <= e <= ECC_MAX,
                    ;
                    assert(5 * e * e * sin_2m <= 5 * (ECC_MAX * ECC_MAX) * SCALE && -(5
                        * (ECC_MAX * ECC_MAX) * SCALE) <= 5 * e * e * sin_2m)
                        by (nonlinear_arith)
                        requires
                            0 <= e <= ECC_MAX,
                            -SCALE <= sin_2m <= SCALE,
                    ;
                    assert(5 * (ECC_MAX * ECC_MAX) * SCALE <= (4 * SCALE_SQ) * (2 * SCALE))
                        by (nonlinear_arith);
                    crate::vect::lemma_tdiv_bound(5 * e * e * sin_2m, 4 * (SCALE_SQ as int), 2
                        * SCALE);
                }
                let term1: i128 = div_trunc(2 * e * sin_m, SCALE);
                let term2: i128 = div_trunc(5 * e * e * sin_2m, 4 * SCALE_SQ);
                let nu: i128 = m + term1 + term2;
                let cos_nu: i128 = cos_nano(nu);
                // orbital radius
                let a: i128 = orbit.semimajor_axis;
                proof {
                    assert(0 <= e * e <= ECC_MAX * ECC_MAX) by (nonlinear_arith)
                        requires
                            0 <= e <= ECC_MAX,
                    ;
                    assert(a * (SCALE_SQ - e * e) <= AXIS_MAX_M * SCALE_SQ && 0 <= a * (SCALE_SQ
                        - e * e)) by (nonlinear_arith)
                        requires
                            0 <= a <= AXIS_MAX_M,
                            0 <= e * e < SCALE_SQ,
                    ;
                    assert(e * cos_nu <= ECC_MAX * SCALE && -(ECC_MAX * SCALE) <= e * cos_nu)
                        by (nonlinear_arith)
                        requires
                            0 <= e <= ECC_MAX,
                            -SCALE <= cos_nu <= SCALE,
                    ;
                    assert(ECC_MAX * SCALE < SCALE_SQ) by (nonlinear_arith);
                }
                let num: i128 = a * (SCALE_SQ - e * e);
                let den: i128 = SCALE_SQ + e * cos_nu;
                proof {
                    assert(num <= den * (2 * a)) by (nonlinear_arith)
                        requires
                            num == a * (SCALE_SQ - e * e),
                            den == SCALE_SQ + e * cos_nu,
                            0 <= e < SCALE,
                            -SCALE <= cos_nu <= SCALE,
                            0 <= a,
                            SCALE_SQ == SCALE * SCALE,
                    ;
                    vstd::arithmetic::div_mod::lemma_multiply_divide_le(num as int, den as int,
                        2 * (a as int));
                    vstd::arithmetic::div_mod::lemma_div_pos_is_pos(num as int, den as int);
                }
                let radius: i128 = num / den;
                // direction by composed rotations
                let x_axis = Vect3::new(SCALE, 0, 0);
                let y_axis = Vect3::new(0, SCALE, 0);
                let tilt: i128 = parent.info.axial_tilt_rad();
                let up = rotate(y_axis, x_axis, tilt, Ghost(SCALE as int));
                let asc = rotate(x_axis, up, orbit.long_of_ascending_node, Ghost(SCALE as int));
                proof {
                    crate::vect::lemma_tdiv_bound(x_axis.y * asc.z - x_axis.z * asc.y,
                        SCALE as int, 18 * SCALE);
                    crate::vect::lemma_tdiv_bound(x_axis.z * asc.x - x_axis.x * asc.z,
                        SCALE as int, 18 * SCALE);
                    crate::vect::lemma_tdiv_bound(x_axis.x * asc.y - x_axis.y * asc.x,
                        SCALE as int, 18 * SCALE);
                }
                let nx: i128 = div_trunc(x_axis.y * asc.z - x_axis.z * asc.y, SCALE);
                let ny: i128 = div_trunc(x_axis.z * asc.x - x_axis.x * asc.z, SCALE);
                let nz: i128 = div_trunc(x_axis.x * asc.y - x_axis.y * asc.x, SCALE);
                let normal = Vect3::new(nx, ny, nz);
                let v1 = rotate(x_axis, up, nu, Ghost(SCALE as int));
                let v2 = rotate(v1, normal, orbit.arg_of_periapsis, Ghost(9 * SCALE as int));
                let v3 = rotate(v2, asc, orbit.inclination, Ghost(81 * SCALE as int));
                proof {
                    lemma_position_component_bound(v3.x as int, radius as int, a as int);
                    lemma_position_component_bound(v3.y as int, radius as int, a as int);
                    lemma_position_component_bound(v3.z as int, radius as int, a as int);
                }
                let px: i128 = div_trunc(v3.x * radius, SCALE);
                let py: i128 = div_trunc(v3.y * radius, SCALE);
                let pz: i128 = div_trunc(v3.z * radius, SCALE);
                Vect3::new(px, py, pz)
            },
            None => Vect3::zero(),
        }
    }

    /// Position of the given body relative to its parent at the given time
    /// since epoch in seconds, in metres.
    pub fn position_at_time(&self, handle: u64, time: i64) -> (r: Vect3)
        requires
            self.wf(),
            has_key(self.entries(), handle),
        ensures
            r@ == spec_position_at_time(self.entries(), handle, time as int),
            v3i_bounded(r@, POS_LIMIT_M as int),
    {
        let m = self.mean_anomaly_at_time(handle, time);
        self.position_at_mean_anomaly(handle, m)
    }

    /// Absolute position of the given body at the given time: the sum of the
    /// relative positions along its ancestor chain.  A root is at the origin.
    pub fn absolute_position_at_time(&self, handle: u64, time: i64) -> (r: Vect3)
        requires
            self.wf(),
            has_key(self.entries(), handle),
        ensures
            r@ == spec_absolute_position(self.entries(), handle, time as int),
            v3i_bounded(r@, (key_index(self.entries(), handle) + 1) * POS_LIMIT_M),
        decreases key_index(self.entries(), handle),
    {
        let ghost s = self.entries();
        proof {
            reveal(spec_absolute_position);
        }
        let entry = self.get_entry(handle);
        let own = self.position_at_time(handle, time);
        match entry.parent {
            Some(parent_handle) => {
                proof {
                    let i = key_index(s, handle);
                    assert(s[i].1.parent matches Some(p) && has_key(s, p) && key_index(s, p)
                        < i);
                    assert(s.len() <= ENTRY_MAX);
                }
                let parent_position = self.absolute_position_at_time(parent_handle, time);
                proof {
                    let i = key_index(s, handle);
                    let ip = key_index(s, parent_handle);
                    lemma_mul_inequality(ip + 1, ENTRY_MAX as int, POS_LIMIT_M as int);
                    lemma_mul_inequality(ip + 2, i + 1, POS_LIMIT_M as int);
                    assert((ip + 2) * (POS_LIMIT_M as int) == (ip + 1) * (POS_LIMIT_M as int)
                        + POS_LIMIT_M) by (nonlinear_arith);
                }
                own.add(parent_position)
            },
            None => {
                proof {
                    let i = key_index(s, handle);
                    lemma_mul_inequality(1, i + 1, POS_LIMIT_M as int);
                }
                own
            },
        }
    }
}

/// Bound for one staged division: `0 <= x <= cap` gives `0 <= x/a <= cap/m`
/// for the minimum axis `m`.
proof fn lemma_staged_div_bound(x: int, cap: int, a: int)
    requires
        0 <= x <= cap,
        AXIS_MIN_M <= a <= AXIS_MAX_M,
    ensures
        0 <= x / a <= cap / (AXIS_MIN_M as int),
{
    vstd::arithmetic::div_mod::lemma_div_pos_is_pos(x, a);
    vstd::arithmetic::div_mod::lemma_div_is_ordered(x, cap, a);
    vstd::arithmetic::div_mod::lemma_div_is_ordered_by_denominator(cap, AXIS_MIN_M as int, a);
}

/// A direction component within the rotation slack times a radius of at most
/// twice the axis stays within the position bound after scaling down.
proof fn lemma_position_component_bound(d: int, radius: int, a: int)
    requires
        -(729 * SCALE) <= d <= 729 * SCALE,
        0 <= radius <= 2 * a,
        0 <= a <= AXIS_MAX_M,
    ensures
        -(SCALE * (POS_LIMIT_M as int)) <= d * radius <= SCALE * (POS_LIMIT_M as int),
        -POS_LIMIT_M <= tdiv(d * radius, SCALE as int) <= POS_LIMIT_M,
{
    assert(-(SCALE * (POS_LIMIT_M as int)) <= d * radius <= SCALE * (POS_LIMIT_M as int))
        by (nonlinear_arith)
        requires
            -(729 * SCALE) <= d <= 729 * SCALE,
            0 <= radius <= 2 * a,
            0 <= a <= AXIS_MAX_M,
            SCALE == 1_000_000_000,
            POS_LIMIT_M == 2_000_000_000_000_000_000,
            AXIS_MAX_M == 1_000_000_000_000_000,
    ;
    crate::vect::lemma_tdiv_bound(d * radius, SCALE as int, POS_LIMIT_M as int);
}

/// The absolute position of a body's parent: zero for a root.
pub open spec fn spec_parent_absolute(s: Seq<(u64, DatabaseEntry)>, h: u64, t: int) -> V3i {
    match entry_of(s, h).parent {
        Option::Some(p) => spec_absolute_position(s, p, t),
        Option::None => v3i_zero(),
    }
}

/// An absolute position unfolds into the body's own relative position plus
/// its parent's absolute position.
pub proof fn lemma_abs_unfold(s: Seq<(u64, DatabaseEntry)>, h: u64, t: int)
    requires
        seq_wf(s),
        has_key(s, h),
    ensures
        spec_absolute_position(s, h, t) == v3i_add(
            spec_position_at_time(s, h, t),
            spec_parent_absolute(s, h, t),
        ),
{
    reveal(spec_absolute_position);
    let own = spec_position_at_time(s, h, t);
    assert(v3i_add(own, v3i_zero()) == (V3i { x: own.x + 0, y: own.y + 0, z: own.z + 0 }));
}

/// An ancestor chain is never empty, ends at its own body, and is no longer
/// than the body's position in the entry sequence allows.
pub proof fn lemma_chain_last(s: Seq<(u64, DatabaseEntry)>, h: u64)
    requires
        seq_wf(s),
        has_key(s, h),
    ensures
        chain_of(s, h).len() >= 1,
        chain_of(s, h)[chain_of(s, h).len() - 1] == h,
        chain_of(s, h).len() <= key_index(s, h) + 1,
    decreases key_index(s, h),
{
    reveal(chain_of);
    match entry_of(s, h).parent {
        Option::Some(p) => {
            let i = key_index(s, h);
            assert(s[i].1.parent matches Some(q) && has_key(s, q) && key_index(s, q) < i);
            lemma_chain_last(s, p);
        },
        Option::None => {
        },
    }
}

/// One element of an ancestor chain: it is a present handle, its own chain
/// is the prefix of the larger chain up to it, the first element is a root,
/// and every later element names the previous one as its parent.
pub proof fn lemma_chain_prefix(s: Seq<(u64, DatabaseEntry)>, h: u64, i: int)
    requires
        seq_wf(s),
        has_key(s, h),
        0 <= i < chain_of(s, h).len(),
    ensures
        has_key(s, chain_of(s, h)[i]),
        chain_of(s, chain_of(s, h)[i]) == chain_of(s, h).subrange(0, i + 1),
        i == 0 ==> entry_of(s, chain_of(s, h)[0]).parent is None,
        i > 0 ==> entry_of(s, chain_of(s, h)[i]).parent == Some(chain_of(s, h)[i - 1]),
    decreases key_index(s, h),
{
    reveal(chain_of);
    let c = chain_of(s, h);
    lemma_chain_last(s, h);
    match entry_of(s, h).parent {
        Option::Some(p) => {
            let k = key_index(s, h);
            assert(s[k].1.parent matches Some(q) && has_key(s, q) && key_index(s, q) < k);
            lemma_chain_last(s, p);
            let cp = chain_of(s, p);
            assert(c == cp.push(h));
            if i == c.len() - 1 {
                assert(c[i] == h);
                assert(c.subrange(0, i + 1) =~= c);
                assert(c[i - 1] == cp[cp.len() - 1]);
            } else {
                assert(c[i] == cp[i]);
                lemma_chain_prefix(s, p, i);
                assert(cp.subrange(0, i + 1) =~= c.subrange(0, i + 1));
                if i > 0 {
                    assert(c[i - 1] == cp[i - 1]);
                }
            }
        },
        Option::None => {
            assert(c == seq![h]);
            assert(i == 0);
            assert(c.subrange(0, 1) =~= c);
        },
    }
}

/// Total mass, in kilograms, of the bodies among the first `n` entries whose
/// ancestor chain passes through `h` (including `h` itself).
pub open spec fn spec_mass_below(s: Seq<(u64, DatabaseEntry)>, h: u64, n: int) -> int
    decreases n,
{
    if n <= 0 {
        0
    } else {
        spec_mass_below(s, h, n - 1) + if chain_of(s, s[n - 1].0).contains(h) {
            s[n - 1].1.info.mass_kg as int
        } else {
            0
        }
    }
}

/// Combined mass of `h` and all bodies orbiting it, directly or indirectly:
/// the body's own mass plus the recursively summed mass of its satellites.
pub open spec fn spec_combined_mass(s: Seq<(u64, DatabaseEntry)>, h: u64) -> int {
    spec_mass_below(s, h, s.len() as int)
}

/// The Laplace sphere-of-influence formula `a · (m / M)^(2/5)` on the
/// integer grid: `a · root5(m)² / root5(M)²`, raised to one metre whenever
/// the combined mass is positive, so that a body with any mass at all keeps
/// a strictly positive sphere of influence even where the quotient would
/// round to zero.
pub open spec fn spec_soi_laplace(a: int, m: int, parent_mass: int) -> int {
    let qm = root5_floor(m);
    let qp = root5_floor(parent_mass);
    let r0 = a * (qm * qm) / (qp * qp);
    if m >= 1 && r0 < 1 {
        1
    } else {
        r0
    }
}

/// Laplace sphere-of-influence radius.  A body with a parent:
/// `a · (m / M)^(2/5)`, computed through floor fifth roots as
/// `a · root5(m)² / root5(M)²`.  A root body: the distance at which its own
/// gravity falls to [`SOI_MIN_GRAVITY_NANO`].
pub open spec fn spec_radius_soi(s: Seq<(u64, DatabaseEntry)>, h: u64) -> int {
    let e = entry_of(s, h);
    match e.parent {
        Option::Some(p) => spec_soi_laplace(
            e.orbit->Some_0.semimajor_axis as int,
            spec_combined_mass(s, h),
            entry_of(s, p).info.mass_kg as int,
        ),
        Option::None => sqrt_floor(
            spec_gm(e.info.mass_kg as int) * SCALE / (SOI_MIN_GRAVITY_NANO as int),
        ),
    }
}

/// If `n < b⁵`, then `root5_floor(n) < b`.
proof fn lemma_root5_floor_lt_bound(n: int, b: int)
    requires
        0 <= n,
        0 < b,
        n < b * b * b * b * b,
    ensures
        root5_floor(n) < b,
{
    crate::fixed::lemma_root5_floor_props(n);
    let r = root5_floor(n);
    if r >= b {
        if b < r {
            crate::fixed::lemma_pow5_increases(b, r);
        }
        assert(b * b * b * b * b <= r * r * r * r * r);
    }
}

impl Database {
    /// Whether `target` lies on the ancestor chain of `k` (including `k`
    /// itself).
    fn is_in_chain(&self, target: u64, k: u64) -> (r: bool)
        requires
            self.wf(),
            has_key(self.entries(), k),
        ensures
            r == chain_of(self.entries(), k).contains(target),
        decreases key_index(self.entries(), k),
    {
        let ghost s = self.entries();
        proof {
            reveal(chain_of);
        }
        if k == target {
            proof {
                let c = chain_of(s, k);
                assert(c[c.len() - 1] == k);
            }
            return true;
        }
        let entry = self.get_entry(k);
        match entry.parent {
            Some(p) => {
                proof {
                    let i = key_index(s, k);
                    assert(s[i].1.parent matches Some(q) && has_key(s, q) && key_index(s, q)
                        < i);
                }
                let r = self.is_in_chain(target, p);
                proof {
                    let c = chain_of(s, p);
                    assert(chain_of(s, k) == c.push(k));
                    if c.contains(target) {
                        let i = choose|i: int| 0 <= i < c.len() && c[i] == target;
                        assert(c.push(k)[i] == target);
                    }
                    if chain_of(s, k).contains(target) {
                        let i = choose|i: int|
                            0 <= i < c.push(k).len() && c.push(k)[i] == target;
                        if i < c.len() {
                            assert(c[i] == target);
                        } else {
                            assert(c.push(k)[i] == k);
                        }
                    }
                }
                r
            },
            None => {
                proof {
                    let c = chain_of(s, k);
                    assert(c == seq![k]);
                    if c.contains(target) {
                        let i = choose|i: int| 0 <= i < c.len() && c[i] == target;
                        assert(c[i] == k);
                    }
                }
                false
            },
        }
    }

    /// The combined mass, in kilograms, of a body and all its satellites,
    /// direct and indirect.
    pub fn get_combined_mass_kg(&self, body: u64) -> (r: i128)
        requires
            self.wf(),
            has_key(self.entries(), body),
        ensures
            r == spec_combined_mass(self.entries(), body),
            0 <= r <= 20_000_000_000_000_000_000_000_000_000_000_000_000,
    {
        let ghost s = self.entries();
        let n = self.bodies.len();
        let mut total: i128 = 0;
        let mut k: usize = 0;
        while k < n
            invariant
                self.wf(),
                s == self.entries(),
                n == s.len(),
                0 <= k <= n,
                total == spec_mass_below(s, body, k as int),
                0 <= total <= (k as int) * (MASS_MAX_KG as int),
            decreases n - k,
        {
            let handle_k = self.bodies[k].0;
            proof {
                lemma_key_index_unique(s, handle_k, k as int);
                assert(s[k as int].1.wf());
                assert((k as int) * (MASS_MAX_KG as int) + MASS_MAX_KG == (k as int + 1) * (
                MASS_MAX_KG as int)) by (nonlinear_arith);
                assert((k as int + 1) * (MASS_MAX_KG as int) <= (ENTRY_MAX as int) * (
                MASS_MAX_KG as int)) by (nonlinear_arith)
                    requires
                        k as int + 1 <= ENTRY_MAX as int,
                ;
            }
            if self.is_in_chain(body, handle_k) {
                total = total + self.bodies[k].1.info.mass_kg;
            }
            k += 1;
        }
        total
    }

    /// The radius of the sphere of influence of the body with the given
    /// handle, in metres.  For an orbiting body this is the Laplace radius
    /// `a (m/M)^(2/5)` with `m` its combined mass and `M` its parent's mass
    /// (the parent must have mass); for a root body, the distance at which
    /// its own gravity falls to a fixed small threshold.
    pub fn radius_soi(&self, handle: u64) -> (r: i128)
        requires
            self.wf(),
            has_key(self.entries(), handle),
            entry_of(self.entries(), handle).parent matches Some(p) ==> entry_of(
                self.entries(),
                p,
            ).info.mass_kg >= 1,
        ensures
            r == spec_radius_soi(self.entries(), handle),
            r >= 0,
            entry_of(self.entries(), handle).parent is Some && spec_combined_mass(
                self.entries(),
                handle,
            ) >= 1 ==> r >= 1,
    {
        let ghost s = self.entries();
        let entry = self.get_entry(handle);
        proof {
            assert(s[key_index(s, handle)].1.wf());
        }
        match entry.parent {
            Some(parent_handle) => {
                proof {
                    let i = key_index(s, handle);
                    assert(s[i].1.parent matches Some(p) && has_key(s, p));
                }
                let combined = self.get_combined_mass_kg(handle);
                let qm = iroot5(combined);
                let parent = self.get_entry(parent_handle);
                proof {
                    assert(s[key_index(s, parent_handle)].1.wf());
                }
                let qp = iroot5(parent.info.mass_kg);
                let orbit = entry.orbit.unwrap();
                let a = orbit.semimajor_axis;
                proof {
                    lemma_root5_floor_lt_bound(combined as int, 33_000_000);
                    assert(20_000_000_000_000_000_000_000_000_000_000_000_000int < 33_000_000
                        * 33_000_000 * 33_000_000 * 33_000_000 * 33_000_000);
                    assert(qp >= 1) by {
                        if qp == 0 {
                            assert(parent.info.mass_kg
                                < (qp + 1) * (qp + 1) * (qp + 1) * (qp + 1) * (qp + 1));
                        }
                    }
                    lemma_root5_floor_lt_bound(parent.info.mass_kg as int, 33_000_000);
                    assert(1 <= qp * qp < 33_000_000 * 33_000_000) by (nonlinear_arith)
                        requires
                            1 <= qp < 33_000_000,
                    ;
                    assert(0 <= qm * qm < 33_000_000 * 33_000_000) by (nonlinear_arith)
                        requires
                            0 <= qm < 33_000_000,
                    ;
                    assert(0 <= a * (qm * qm) <= AXIS_MAX_M * (33_000_000 * 33_000_000))
                        by (nonlinear_arith)
                        requires
                            0 <= a <= AXIS_MAX_M,
                            0 <= qm * qm <= 33_000_000 * 33_000_000,
                    ;
                    assert(qp * qp >= 1) by (nonlinear_arith)
                        requires
                            qp >= 1,
                    ;
                    vstd::arithmetic::div_mod::lemma_div_pos_is_pos(a * (qm * qm) as int, (qp
                        * qp) as int);
                }
                let r0 = a * (qm * qm) / (qp * qp);
                if combined >= 1 && r0 < 1 {
                    1
                } else {
                    r0
                }
            },
            None => entry.info.distance_of_gravity(SOI_MIN_GRAVITY_NANO),
        }
    }

    /// A sorted list of the handles of all direct satellites of the body
    /// with the given handle, ascending.
    pub fn get_satellites(&self, body: u64) -> (r: Vec<u64>)
        requires
            self.wf(),
        ensures
            forall|i: int, j: int| 0 <= i < j < r@.len() ==> r@[i] < r@[j],
            forall|i: int|
                0 <= i < r@.len() ==> has_key(self.entries(), #[trigger] r@[i]) && entry_of(
                    self.entries(),
                    r@[i],
                ).parent == Some(body),
            forall|k: int|
                0 <= k < self.entries().len() && (#[trigger] self.entries()[k]).1.parent
                    == Some(body) ==> r@.contains(self.entries()[k].0),
    {
        let ghost s = self.entries();
        let n = self.bodies.len();
        let mut out: Vec<u64> = Vec::new();
        let mut k: usize = 0;
        while k < n
            invariant
                self.wf(),
                s == self.entries(),
                n == s.len(),
                0 <= k <= n,
                forall|i: int, j: int| 0 <= i < j < out@.len() ==> out@[i] < out@[j],
                forall|i: int|
                    0 <= i < out@.len() ==> has_key(s, #[trigger] out@[i]) && key_index(s,
                        out@[i]) < k && entry_of(s, out@[i]).parent == Some(body),
                forall|j: int|
                    0 <= j < k && (#[trigger] s[j]).1.parent == Some(body) ==> out@.contains(
                        s[j].0),
            decreases n - k,
        {
            let pair_parent = self.bodies[k].1.parent;
            let handle_k = self.bodies[k].0;
            proof {
                lemma_key_index_unique(s, handle_k, k as int);
            }
            let is_child = match pair_parent {
                Some(p) => p == body,
                None => false,
            };
            if is_child {
                proof {
                    if out@.contains(handle_k) {
                        let i = choose|i: int| 0 <= i < out@.len() && out@[i] == handle_k;
                        assert(has_key(s, out@[i]) && key_index(s, out@[i]) < k);
                        assert(s[key_index(s, out@[i])].0 == out@[i]);
                        lemma_key_index_unique(s, handle_k, key_index(s, out@[i]));
                    }
                }
                insert_sorted(&mut out, handle_k);
            }
            proof {
                assert forall|j: int|
                    0 <= j < k + 1 && (#[trigger] s[j]).1.parent == Some(body) implies out@
                    .contains(s[j].0) by {
                    if j < k {
                        assert(out@.contains(s[j].0));
                    } else {
                        assert(s[j].0 == handle_k);
                    }
                }
            }
            k += 1;
        }
        out
    }
}

/// Position of `relative` as seen from `origin`: the difference of their
/// absolute positions when both lie under the same root, nothing when they
/// belong to different trees.
pub open spec fn spec_relative_position(
    s: Seq<(u64, DatabaseEntry)>,
    origin: u64,
    relative: u64,
    t: int,
) -> Option<V3i> {
    if chain_of(s, origin)[0] == chain_of(s, relative)[0] {
        Option::Some(
            v3i_sub(spec_absolute_position(s, relative, t), spec_absolute_position(s, origin, t)),
        )
    } else {
        Option::None
    }
}

/// First index of `x` in `v`, if any.
fn find_in_vec(v: &Vec<u64>, x: u64) -> (r: Option<usize>)
    ensures
        match r {
            Some(i) => 0 <= i < v@.len() && v@[i as int] == x,
            None => forall|i: int| 0 <= i < v@.len() ==> v@[i] != x,
        },
{
    let n = v.len();
    let mut i: usize = 0;
    while i < n
        invariant
            n == v@.len(),
            0 <= i <= n,
            forall|j: int| 0 <= j < i ==> v@[j] != x,
        decreases n - i,
    {
        if v[i] == x {
            return Some(i);
        }
        i += 1;
    }
    None
}

impl Database {
    /// The position of the body `relative` as seen from the body `origin`
    /// at the given time, in metres.
    ///
    /// Walks upward from `origin`, subtracting relative positions, until it
    /// meets the ancestor chain of `relative`, then walks down that chain
    /// adding relative positions.  Returns nothing exactly when the two
    /// bodies belong to different trees (different ultimate roots); in a
    /// single-rooted database that never happens.
    pub fn relative_position(&self, origin: u64, relative: u64, time: i64) -> (r: Option<Vect3>)
        requires
            self.wf(),
            has_key(self.entries(), origin),
            has_key(self.entries(), relative),
        ensures
            match r {
                Some(v) => spec_relative_position(
                    self.entries(),
                    origin,
                    relative,
                    time as int,
                ) matches Some(w) && v@ == w,
                None => spec_relative_position(self.entries(), origin, relative, time as int)
                    is None,
            },
    {
        let ghost s = self.entries();
        let ghost t = time as int;
        let ghost co = chain_of(s, origin);
        proof {
            lemma_chain_last(s, origin);
            lemma_chain_last(s, relative);
        }
        let chain_rel: Vec<u64> = self.get_parents(relative);
        let mut acc: Vect3 = Vect3::zero();
        let mut cur: u64 = origin;
        let ghost mut gi: int = co.len() - 1;
        let own = self.position_at_time(origin, time);
        acc = acc.sub(own);
        proof {
            lemma_abs_unfold(s, origin, t);
        }
        let mut found: Option<usize> = find_in_vec(&chain_rel, cur);
        while found.is_none()
            invariant
                self.wf(),
                s == self.entries(),
                t == time as int,
                co == chain_of(s, origin),
                chain_rel@ == chain_of(s, relative),
                has_key(s, origin),
                has_key(s, relative),
                0 <= gi < co.len(),
                co[gi] == cur,
                has_key(s, cur),
                acc@ == v3i_sub(spec_parent_absolute(s, cur, t), spec_absolute_position(
                    s,
                    origin,
                    t,
                )),
                v3i_bounded(acc@, (ENTRY_MAX + 1 - key_index(s, cur)) * (POS_LIMIT_M as int)),
                match found {
                    Some(j) => 0 <= j < chain_rel@.len() && chain_rel@[j as int] == cur,
                    None => forall|i: int| 0 <= i < chain_rel@.len() ==> chain_rel@[i] != cur,
                },
            decreases key_index(s, cur),
        {
            let entry = self.get_entry(cur);
            match entry.parent {
                Some(p) => {
                    proof {
                        let i = key_index(s, cur);
                        assert(s[i].1.parent matches Some(q) && has_key(s, q) && key_index(
                            s,
                            q,
                        ) < i);
                        // the parent is the previous chain element
                        lemma_chain_prefix(s, origin, gi);
                        assert(gi > 0);
                        assert(entry_of(s, co[gi]).parent == Some(co[gi - 1]));
                        // bound bookkeeping
                        let k = key_index(s, cur);
                        let kp = key_index(s, p);
                        lemma_mul_inequality(ENTRY_MAX + 1 - k + 1, ENTRY_MAX + 1 - kp,
                            POS_LIMIT_M as int);
                        assert((ENTRY_MAX + 1 - k + 1) * (POS_LIMIT_M as int) == (ENTRY_MAX + 1
                            - k) * (POS_LIMIT_M as int) + POS_LIMIT_M) by (nonlinear_arith);
                        lemma_mul_inequality(ENTRY_MAX + 1 - k, 2 * ENTRY_MAX + 2,
                            POS_LIMIT_M as int);
                    }
                    let pv = self.position_at_time(p, time);
                    acc = acc.sub(pv);
                    proof {
                        lemma_abs_unfold(s, p, t);
                    }
                    cur = p;
                    proof {
                        gi = gi - 1;
                    }
                    found = find_in_vec(&chain_rel, cur);
                },
                None => {
                    proof {
                        // cur is the root of origin's chain: were the two
                        // roots equal, the search would have found cur
                        lemma_chain_prefix(s, origin, gi);
                        assert(gi == 0);
                        lemma_chain_last(s, relative);
                        if co[0] == chain_of(s, relative)[0] {
                            assert(chain_rel@[0] == cur);
                        }
                    }
                    return None;
                },
            }
        }
        let j: usize = match found {
            Some(j) => j,
            None => {
                proof {
                    assert(false);
                }
                0
            },
        };
        proof {
            // the meeting point ties the two roots together
            lemma_chain_prefix(s, origin, gi);
            lemma_chain_prefix(s, relative, j as int);
            let cr = chain_of(s, relative);
            assert(chain_of(s, cur) == co.subrange(0, gi + 1));
            assert(chain_of(s, cur) == cr.subrange(0, j + 1));
            assert(co.subrange(0, gi + 1)[0] == co[0]);
            assert(cr.subrange(0, j + 1)[0] == cr[0]);
            assert(co[0] == cr[0]);
            lemma_mul_inequality(ENTRY_MAX + 1 - key_index(s, cur), 2 * ENTRY_MAX + 2,
                POS_LIMIT_M as int);
        }
        let down = self.descend_chain(&chain_rel, j, time, Ghost(relative));
        proof {
            lemma_mul_inequality(chain_rel@.len() - j, ENTRY_MAX + 1, POS_LIMIT_M as int);
        }
        Some(acc.add(down))
    }

    /// Sum of the relative positions along a tail of an ancestor chain:
    /// walking down from the chain element at `i` to the chain's end
    /// accumulates the difference between the end body's absolute position
    /// and the absolute position of the element's parent.
    fn descend_chain(&self, chain_rel: &Vec<u64>, i: usize, time: i64, Ghost(relative): Ghost<
        u64>) -> (r: Vect3)
        requires
            self.wf(),
            has_key(self.entries(), relative),
            chain_rel@ == chain_of(self.entries(), relative),
            i < chain_rel@.len(),
        ensures
            r@ == v3i_sub(
                spec_absolute_position(self.entries(), relative, time as int),
                spec_parent_absolute(self.entries(), chain_rel@[i as int], time as int),
            ),
            v3i_bounded(r@, (chain_rel@.len() - i) * (POS_LIMIT_M as int)),
        decreases chain_rel@.len() - i,
    {
        let ghost s = self.entries();
        let ghost t = time as int;
        let n = chain_rel.len();
        proof {
            lemma_chain_last(s, relative);
            lemma_chain_prefix(s, relative, i as int);
        }
        let h_i = chain_rel[i];
        let pv = self.position_at_time(h_i, time);
        proof {
            lemma_abs_unfold(s, chain_rel@[i as int], t);
        }
        if i + 1 == n {
            proof {
                assert(chain_rel@[i as int] == relative);
                lemma_mul_inequality(1, n - i, POS_LIMIT_M as int);
            }
            pv
        } else {
            let rest = self.descend_chain(chain_rel, i + 1, time, Ghost(relative));
            proof {
                lemma_chain_prefix(s, relative, i as int + 1);
                assert(entry_of(s, chain_rel@[i + 1]).parent == Some(chain_rel@[i as int]));
                lemma_mul_inequality(n - i - 1, ENTRY_MAX as int, POS_LIMIT_M as int);
                assert((n - i) * (POS_LIMIT_M as int) == (n - i - 1) * (POS_LIMIT_M as int)
                    + POS_LIMIT_M) by (nonlinear_arith);
            }
            pv.add(rest)
        }
    }
}

/// Insert a value not yet present into a strictly ascending vector, keeping
/// it strictly ascending; the contents afterwards are the old contents plus
/// the value.
fn insert_sorted(v: &mut Vec<u64>, x: u64)
    requires
        forall|i: int, j: int| 0 <= i < j < old(v)@.len() ==> old(v)@[i] < old(v)@[j],
        forall|i: int| 0 <= i < old(v)@.len() ==> old(v)@[i] != x,
    ensures
        final(v)@.len() == old(v)@.len() + 1,
        forall|i: int, j: int| 0 <= i < j < final(v)@.len() ==> final(v)@[i] < final(v)@[j],
        final(v)@.contains(x),
        forall|i: int| 0 <= i < old(v)@.len() ==> final(v)@.contains(#[trigger] old(v)@[i]),
        forall|i: int|
            0 <= i < final(v)@.len() ==> final(v)@[i] == x || old(v)@.contains(
                #[trigger] final(v)@[i]),
{
    let n = v.len();
    let mut k: usize = 0;
    while k < n && v[k] < x
        invariant
            n == v@.len(),
            v@ == old(v)@,
            0 <= k <= n,
            forall|i: int| 0 <= i < k ==> old(v)@[i] < x,
        decreases n - k,
    {
        k += 1;
    }
    proof {
        assert forall|i: int| k <= i < n implies old(v)@[i] > x by {
            if i == k {
            } else {
                assert(old(v)@[k as int] < old(v)@[i]);
            }
        }
    }
    v.insert(k, x);
    proof {
        let newv = v@;
        let oldv = old(v)@;
        assert(newv == oldv.insert(k as int, x));
        assert(newv[k as int] == x);
        assert(forall|i: int| 0 <= i < k ==> newv[i] == oldv[i]);
        assert(forall|i: int| k < i < newv.len() ==> newv[i] == oldv[i - 1]);
        assert(newv.contains(x)) by {
            assert(newv[k as int] == x);
        }
        assert forall|i: int| 0 <= i < oldv.len() implies newv.contains(#[trigger] oldv[i]) by {
            if i < k {
                assert(newv[i] == oldv[i]);
            } else {
                assert(newv[i + 1] == oldv[i]);
            }
        }
    }
}

impl Default for Database {
    /// An empty database.
    fn default() -> (r: Database)
        ensures
            r.entries() == Seq::<(u64, DatabaseEntry)>::empty(),
            r.wf(),
    {
        Database { bodies: Vec::new() }
    }
}

} // verus!
