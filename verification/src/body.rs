//! An idealized spherical mass: mass, equatorial and polar radius, axial
//! tilt, and the gravity quantities derived from them.

use vstd::prelude::*;
use crate::constants::{
    AXIS_MAX_M, DEG_FULL_MICRO, GM_MAX, G_DEN, G_NUM, MASS_EARTH_KG, MASS_EARTH_PER_MICRO,
    MASS_MAX_KG, MASS_SUN_KG, RADIUS_EARTH_EQUATOR_M, RADIUS_EARTH_POLAR_M, RADIUS_SUN_M,
    RADIUS_SUN_POLAR_M, SCALE, TAU_NANO, TILT_ABS_MAX, TILT_EARTH_MICRODEG,
};
use crate::fixed::{div_trunc, isqrt, sqrt_floor, tdiv};
use vstd::arithmetic::div_mod::{lemma_div_is_ordered, lemma_div_pos_is_pos};
use vstd::arithmetic::mul::lemma_mul_inequality;

verus! {

/// A body in space represented as an idealized sphere.
///
/// The mass is in kilograms, the radii in metres, the axial tilt in
/// micro-degrees relative to the body's orbital plane.
#[derive(Clone, Copy, Debug, PartialEq, Eq, Structural)]
pub struct Body {
    /// Mass of this body in kilograms (kg).
    pub mass_kg: i128,
    /// Equatorial radius of this body in metres (m).
    pub radius_equator_m: i128,
    /// Polar radius of this body in metres (m).
    pub radius_polar_m: i128,
    /// Axial tilt of the body relative to its orbital plane, in
    /// micro-degrees.
    pub axial_tilt_microdeg: i128,
}

/// The gravitational parameter GM of a mass, in m³/s² (rounded down).
pub open spec fn spec_gm(mass_kg: int) -> int {
    mass_kg * G_NUM / (G_DEN as int)
}

/// An axial tilt in micro-degrees converted to nano-radians, rounded
/// towards zero.
pub open spec fn spec_tilt_nanorad(microdeg: int) -> int {
    tdiv(microdeg * TAU_NANO, DEG_FULL_MICRO as int)
}

impl Body {
    /// Range within which all the derived quantities stay inside `i128`.
    pub open spec fn wf(self) -> bool {
        &&& 0 <= self.mass_kg <= MASS_MAX_KG
        &&& 0 <= self.radius_equator_m <= AXIS_MAX_M
        &&& 0 <= self.radius_polar_m <= AXIS_MAX_M
        &&& -TILT_ABS_MAX <= self.axial_tilt_microdeg <= TILT_ABS_MAX
    }

    /// Create a new body with the given mass and radius properties.
    pub fn new(mass_kg: i128, radius_equator_m: i128, radius_polar_m: i128,
        axial_tilt_microdeg: i128) -> (r: Body)
        requires
            0 <= mass_kg <= MASS_MAX_KG,
            0 <= radius_equator_m <= AXIS_MAX_M,
            0 <= radius_polar_m <= AXIS_MAX_M,
            -TILT_ABS_MAX <= axial_tilt_microdeg <= TILT_ABS_MAX,
        ensures
            r == (Body { mass_kg, radius_equator_m, radius_polar_m, axial_tilt_microdeg }),
            r.wf(),
    {
        Body { mass_kg, radius_equator_m, radius_polar_m, axial_tilt_microdeg }
    }

    /// Create a new body with the properties of the planet Earth.
    pub fn new_earth() -> (r: Body)
        ensures
            r == (Body {
                mass_kg: MASS_EARTH_KG as i128,
                radius_equator_m: RADIUS_EARTH_EQUATOR_M as i128,
                radius_polar_m: RADIUS_EARTH_POLAR_M as i128,
                axial_tilt_microdeg: TILT_EARTH_MICRODEG as i128,
            }),
            r.wf(),
    {
        Body::new(MASS_EARTH_KG, RADIUS_EARTH_EQUATOR_M, RADIUS_EARTH_POLAR_M,
            TILT_EARTH_MICRODEG)
    }

    /// Create a new body with the properties of our sun.
    pub fn new_sol() -> (r: Body)
        ensures
            r == (Body {
                mass_kg: MASS_SUN_KG as i128,
                radius_equator_m: RADIUS_SUN_M as i128,
                radius_polar_m: RADIUS_SUN_POLAR_M as i128,
                axial_tilt_microdeg: 0,
            }),
            r.wf(),
    {
        Body::new(MASS_SUN_KG, RADIUS_SUN_M, RADIUS_SUN_POLAR_M, 0)
    }

    /// Replace the mass, in kilograms.
    pub fn with_mass_kg(self, mass: i128) -> (r: Body)
        requires
            0 <= mass <= MASS_MAX_KG,
        ensures
            r == (Body { mass_kg: mass, ..self }),
    {
        Body { mass_kg: mass, ..self }
    }

    /// Replace the mass, given in millionths of an Earth mass.
    pub fn with_mass_earths(self, mass_microearths: i128) -> (r: Body)
        requires
            0 <= mass_microearths,
            mass_microearths * MASS_EARTH_PER_MICRO <= MASS_MAX_KG,
        ensures
            r == (Body { mass_kg: (mass_microearths * MASS_EARTH_PER_MICRO) as i128, ..self }),
    {
        proof {
            assert(mass_microearths * MASS_EARTH_PER_MICRO >= 0) by (nonlinear_arith)
                requires
                    mass_microearths >= 0,
                    MASS_EARTH_PER_MICRO > 0,
            ;
        }
        Body { mass_kg: mass_microearths * MASS_EARTH_PER_MICRO, ..self }
    }

    /// Set both the polar and the equatorial radius to the given value, in
    /// kilometres.
    pub fn with_radius_km(self, radius_km: i128) -> (r: Body)
        requires
            0 <= radius_km * 1000 <= AXIS_MAX_M,
        ensures
            r == (Body {
                radius_equator_m: (radius_km * 1000) as i128,
                radius_polar_m: (radius_km * 1000) as i128,
                ..self
            }),
    {
        Body { radius_equator_m: radius_km * 1000, radius_polar_m: radius_km * 1000, ..self }
    }

    /// Set both the polar and the equatorial radius to the given value, in
    /// metres.
    pub fn with_radius_m(self, radius: i128) -> (r: Body)
        requires
            0 <= radius <= AXIS_MAX_M,
        ensures
            r == (Body { radius_equator_m: radius, radius_polar_m: radius, ..self }),
    {
        Body { radius_equator_m: radius, radius_polar_m: radius, ..self }
    }

    /// Replace the equatorial and polar radii, in kilometres.
    pub fn with_radii_km(self, equatorial_km: i128, polar_km: i128) -> (r: Body)
        requires
            0 <= equatorial_km * 1000 <= AXIS_MAX_M,
            0 <= polar_km * 1000 <= AXIS_MAX_M,
        ensures
            r == (Body {
                radius_equator_m: (equatorial_km * 1000) as i128,
                radius_polar_m: (polar_km * 1000) as i128,
                ..self
            }),
    {
        Body { radius_equator_m: equatorial_km * 1000, radius_polar_m: polar_km * 1000, ..self }
    }

    /// Replace the axial tilt, in micro-degrees.
    pub fn with_axial_tilt_deg(self, axial_tilt_microdeg: i128) -> (r: Body)
        requires
            -TILT_ABS_MAX <= axial_tilt_microdeg <= TILT_ABS_MAX,
        ensures
            r == (Body { axial_tilt_microdeg, ..self }),
    {
        Body { axial_tilt_microdeg, ..self }
    }

    /// The mass of this body in kilograms, *kg*.
    pub fn mass_kg(&self) -> (r: i128)
        ensures
            r == self.mass_kg,
    {
        self.mass_kg
    }

    /// The equatorial radius of this body in whole kilometres, *km*
    /// (rounded down).
    pub fn radius_equator_km(&self) -> (r: i128)
        requires
            self.wf(),
        ensures
            r == self.radius_equator_m / 1000,
    {
        self.radius_equator_m / 1000
    }

    /// The polar radius of this body in whole kilometres, *km* (rounded
    /// down).
    pub fn radius_polar_km(&self) -> (r: i128)
        requires
            self.wf(),
        ensures
            r == self.radius_polar_m / 1000,
    {
        self.radius_polar_m / 1000
    }

    /// The average of the equatorial and polar radii, in whole kilometres
    /// (rounded down).
    pub fn radius_avg_km(&self) -> (r: i128)
        requires
            self.wf(),
        ensures
            r == (self.radius_equator_m + self.radius_polar_m) / 2000,
    {
        (self.radius_equator_m + self.radius_polar_m) / 2000
    }

    /// The average of the equatorial and polar radii, in metres (rounded
    /// down).
    pub fn radius_avg_m(&self) -> (r: i128)
        requires
            self.wf(),
        ensures
            r == (self.radius_equator_m + self.radius_polar_m) / 2,
    {
        (self.radius_equator_m + self.radius_polar_m) / 2
    }

    /// The equatorial radius of this body in metres, *m*.
    pub fn radius_equator_m(&self) -> (r: i128)
        ensures
            r == self.radius_equator_m,
    {
        self.radius_equator_m
    }

    /// The body's *GM*: its mass times the gravitational constant *G*,
    /// in m³/s² (rounded down).
    pub fn gm(&self) -> (r: i128)
        requires
            self.wf(),
        ensures
            r == spec_gm(self.mass_kg as int),
            0 <= r <= GM_MAX,
    {
        proof {
            assert(self.mass_kg * G_NUM <= MASS_MAX_KG * G_NUM && self.mass_kg * G_NUM >= 0)
                by (nonlinear_arith)
                requires
                    0 <= self.mass_kg <= MASS_MAX_KG,
                    G_NUM > 0,
            ;
            lemma_div_is_ordered(self.mass_kg * G_NUM, MASS_MAX_KG * G_NUM, G_DEN as int);
            lemma_div_pos_is_pos(self.mass_kg * G_NUM, G_DEN as int);
        }
        self.mass_kg * G_NUM / G_DEN
    }

    /// The distance, in metres, at which the pull of gravity towards this
    /// body equals the given acceleration in nano-(m/s²):
    /// the floor of `sqrt(GM / g)`.
    pub fn distance_of_gravity(&self, gravity_nano: i128) -> (r: i128)
        requires
            self.wf(),
            gravity_nano >= 1,
        ensures
            r == sqrt_floor(spec_gm(self.mass_kg as int) * SCALE / gravity_nano as int),
            r >= 0,
    {
        let gm_val: i128 = self.gm();
        proof {
            assert(gm_val * SCALE <= GM_MAX * SCALE && gm_val * SCALE >= 0) by (nonlinear_arith)
                requires
                    0 <= gm_val <= GM_MAX,
                    SCALE > 0,
            ;
            lemma_div_pos_is_pos(gm_val * SCALE, gravity_nano as int);
        }
        isqrt(gm_val * SCALE / gravity_nano)
    }

    /// The pull of gravity towards this body at the given distance in
    /// metres, as an acceleration in nano-(m/s²): `GM / d²` (rounded down).
    pub fn gravity_at_distance(&self, distance_m: i128) -> (r: i128)
        requires
            self.wf(),
            1 <= distance_m <= AXIS_MAX_M,
        ensures
            r == spec_gm(self.mass_kg as int) * SCALE / (distance_m * distance_m),
            r >= 0,
    {
        let gm_val: i128 = self.gm();
        proof {
            assert(gm_val * SCALE <= GM_MAX * SCALE && gm_val * SCALE >= 0) by (nonlinear_arith)
                requires
                    0 <= gm_val <= GM_MAX,
                    SCALE > 0,
            ;
            assert(1 <= distance_m * distance_m <= AXIS_MAX_M * AXIS_MAX_M) by (nonlinear_arith)
                requires
                    1 <= distance_m <= AXIS_MAX_M,
            ;
            lemma_div_pos_is_pos(gm_val * SCALE, (distance_m * distance_m) as int);
        }
        gm_val * SCALE / (distance_m * distance_m)
    }

    /// This body's axial tilt in nano-radians (rounded towards zero).
    pub fn axial_tilt_rad(&self) -> (r: i128)
        requires
            self.wf(),
        ensures
            r == spec_tilt_nanorad(self.axial_tilt_microdeg as int),
            -TAU_NANO * 10 <= r <= TAU_NANO * 10,
    {
        proof {
            assert(self.axial_tilt_microdeg * TAU_NANO <= TILT_ABS_MAX * TAU_NANO && -(
            TILT_ABS_MAX * TAU_NANO) <= self.axial_tilt_microdeg * TAU_NANO) by (nonlinear_arith)
                requires
                    -TILT_ABS_MAX <= self.axial_tilt_microdeg <= TILT_ABS_MAX,
                    TAU_NANO > 0,
            ;
            assert(TILT_ABS_MAX * TAU_NANO <= DEG_FULL_MICRO * (TAU_NANO * 10))
                by (nonlinear_arith);
            crate::vect::lemma_tdiv_bound(self.axial_tilt_microdeg * TAU_NANO,
                DEG_FULL_MICRO as int, TAU_NANO * 10);
        }
        div_trunc(self.axial_tilt_microdeg * TAU_NANO, DEG_FULL_MICRO)
    }
}

impl Default for Body {
    /// The zero body: no mass, no extent, no tilt.
    fn default() -> (r: Body)
        ensures
            r == (Body { mass_kg: 0, radius_equator_m: 0, radius_polar_m: 0,
                axial_tilt_microdeg: 0 }),
            r.wf(),
    {
        Body { mass_kg: 0, radius_equator_m: 0, radius_polar_m: 0, axial_tilt_microdeg: 0 }
    }
}

} // verus!
