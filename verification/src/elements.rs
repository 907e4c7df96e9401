//! Keplerian elements that define an orbit, in canonical units: metres for
//! the semimajor axis, billionths for the eccentricity, nano-radians for the
//! angles.  Builders accept convenient units (kilometres, micro-AU,
//! micro-degrees) and normalise angles into one turn.

use vstd::prelude::*;
use crate::constants::{
    AXIS_MAX_M, AXIS_MIN_M, CONVERT_AU_TO_M, ECC_MAX, TAU_NANO,
};
use crate::fixed::{deg_to_nanorad_norm, microdeg_to_nanorad};
use vstd::arithmetic::div_mod::{lemma_div_is_ordered, lemma_div_pos_is_pos};

verus! {

/// Keplerian elements that define an orbit.
#[derive(Clone, Copy, Debug, PartialEq, Eq, Structural)]
pub struct OrbitalElements {
    /// Semi-major axis, *a*, in metres (m).
    pub semimajor_axis: i128,
    /// Eccentricity, *e*, in billionths.
    pub eccentricity: i128,
    /// Inclination, *i*, in nano-radians.
    pub inclination: i128,
    /// Argument of Periapsis, *ω*, in nano-radians.
    pub arg_of_periapsis: i128,
    /// Time of Periapsis Passage, *T*, in seconds.  Kept for data-shape
    /// compatibility; no algorithm reads it.
    pub time_of_periapsis_passage: i128,
    /// Longitude of Ascending Node, *Ω*, in nano-radians.
    pub long_of_ascending_node: i128,
}

impl OrbitalElements {
    /// Range within which the positional algorithms stay inside `i128`:
    /// a bound orbit of bounded size, with angles normalised into one turn.
    pub open spec fn wf(self) -> bool {
        &&& AXIS_MIN_M <= self.semimajor_axis <= AXIS_MAX_M
        &&& 0 <= self.eccentricity <= ECC_MAX
        &&& 0 <= self.inclination < TAU_NANO
        &&& 0 <= self.arg_of_periapsis < TAU_NANO
        &&& 0 <= self.long_of_ascending_node < TAU_NANO
    }

    /// Build elements from their canonical-unit values.
    pub fn new(semimajor_axis: i128, eccentricity: i128, inclination: i128,
        arg_of_periapsis: i128, time_of_periapsis_passage: i128, long_of_ascending_node: i128)
        -> (r: OrbitalElements)
        requires
            AXIS_MIN_M <= semimajor_axis <= AXIS_MAX_M,
            0 <= eccentricity <= ECC_MAX,
            0 <= inclination < TAU_NANO,
            0 <= arg_of_periapsis < TAU_NANO,
            0 <= long_of_ascending_node < TAU_NANO,
        ensures
            r == (OrbitalElements {
                semimajor_axis,
                eccentricity,
                inclination,
                arg_of_periapsis,
                time_of_periapsis_passage,
                long_of_ascending_node,
            }),
            r.wf(),
    {
        OrbitalElements {
            semimajor_axis,
            eccentricity,
            inclination,
            arg_of_periapsis,
            time_of_periapsis_passage,
            long_of_ascending_node,
        }
    }

    /// Set the orbit's semimajor axis *a*, given in kilometres (km).
    pub fn with_semimajor_axis_km(self, a_km: i128) -> (r: OrbitalElements)
        requires
            AXIS_MIN_M <= a_km * 1000 <= AXIS_MAX_M,
        ensures
            r == (OrbitalElements { semimajor_axis: (a_km * 1000) as i128, ..self }),
    {
        OrbitalElements { semimajor_axis: a_km * 1000, ..self }
    }

    /// Set the orbit's semimajor axis *a*, given in millionths of an
    /// astronomical unit.
    pub fn with_semimajor_axis_au(self, a_microau: i128) -> (r: OrbitalElements)
        requires
            1 <= a_microau <= 6_000_000_000,
        ensures
            r == (OrbitalElements {
                semimajor_axis: (a_microau * CONVERT_AU_TO_M / 1_000_000) as i128,
                ..self
            }),
    {
        proof {
            assert(a_microau * CONVERT_AU_TO_M >= 0 && a_microau * CONVERT_AU_TO_M
                <= 6_000_000_000 * CONVERT_AU_TO_M) by (nonlinear_arith)
                requires
                    1 <= a_microau <= 6_000_000_000,
                    CONVERT_AU_TO_M > 0,
            ;
            lemma_div_pos_is_pos(a_microau * CONVERT_AU_TO_M, 1_000_000);
            lemma_div_is_ordered(a_microau * CONVERT_AU_TO_M,
                6_000_000_000 * CONVERT_AU_TO_M, 1_000_000);
        }
        OrbitalElements { semimajor_axis: a_microau * CONVERT_AU_TO_M / 1_000_000, ..self }
    }

    /// Set the orbit's semimajor axis *a*, given in metres (m).
    pub fn with_semimajor_axis_m(self, a: i128) -> (r: OrbitalElements)
        requires
            AXIS_MIN_M <= a <= AXIS_MAX_M,
        ensures
            r == (OrbitalElements { semimajor_axis: a, ..self }),
    {
        OrbitalElements { semimajor_axis: a, ..self }
    }

    /// Set the orbit's eccentricity, in billionths.
    pub fn with_eccentricity(self, e_nano: i128) -> (r: OrbitalElements)
        requires
            0 <= e_nano <= ECC_MAX,
        ensures
            r == (OrbitalElements { eccentricity: e_nano, ..self }),
    {
        OrbitalElements { eccentricity: e_nano, ..self }
    }

    /// Set the orbit's inclination *i*, given in micro-degrees; the angle is
    /// reduced into `[0, 2π)`.
    pub fn with_inclination_deg(self, microdeg: i128) -> (r: OrbitalElements)
        requires
            microdeg > i128::MIN,
        ensures
            r == (OrbitalElements {
                inclination: deg_to_nanorad_norm(microdeg as int) as i128,
                ..self
            }),
            0 <= r.inclination < TAU_NANO,
    {
        OrbitalElements { inclination: microdeg_to_nanorad(microdeg), ..self }
    }

    /// Set the orbit's argument of periapsis *ω*, given in micro-degrees;
    /// the angle is reduced into `[0, 2π)`.
    pub fn with_arg_of_periapsis_deg(self, microdeg: i128) -> (r: OrbitalElements)
        requires
            microdeg > i128::MIN,
        ensures
            r == (OrbitalElements {
                arg_of_periapsis: deg_to_nanorad_norm(microdeg as int) as i128,
                ..self
            }),
            0 <= r.arg_of_periapsis < TAU_NANO,
    {
        OrbitalElements { arg_of_periapsis: microdeg_to_nanorad(microdeg), ..self }
    }

    /// Set the orbit's longitude of ascending node *Ω*, given in
    /// micro-degrees; the angle is reduced into `[0, 2π)`.
    pub fn with_long_of_ascending_node_deg(self, microdeg: i128) -> (r: OrbitalElements)
        requires
            microdeg > i128::MIN,
        ensures
            r == (OrbitalElements {
                long_of_ascending_node: deg_to_nanorad_norm(microdeg as int) as i128,
                ..self
            }),
            0 <= r.long_of_ascending_node < TAU_NANO,
    {
        OrbitalElements { long_of_ascending_node: microdeg_to_nanorad(microdeg), ..self }
    }
}

impl Default for OrbitalElements {
    /// All-zero elements; note that the zero semimajor axis is below
    /// [`AXIS_MIN_M`], so a default value must be given an axis before it
    /// describes a usable orbit.
    fn default() -> (r: OrbitalElements)
        ensures
            r == (OrbitalElements {
                semimajor_axis: 0,
                eccentricity: 0,
                inclination: 0,
                arg_of_periapsis: 0,
                time_of_periapsis_passage: 0,
                long_of_ascending_node: 0,
            }),
    {
        OrbitalElements {
            semimajor_axis: 0,
            eccentricity: 0,
            inclination: 0,
            arg_of_periapsis: 0,
            time_of_periapsis_passage: 0,
            long_of_ascending_node: 0,
        }
    }
}

} // verus!
