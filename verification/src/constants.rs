//! Physical constants and unit conversions, as exact integers.
//!
//! Fractional constants are stored as integer numerator over a power-of-ten
//! denominator so that every computation in the crate is exact integer
//! arithmetic with a stated rounding rule.

use vstd::prelude::*;

verus! {

/// Fixed-point unit for dimensionless fractions and trigonometric values:
/// the value 1 is represented as `SCALE` (one billion).
pub const SCALE: i128 = 1_000_000_000;

/// `SCALE * SCALE`, the representation of 1 at double precision.
pub const SCALE_SQ: i128 = 1_000_000_000_000_000_000;

/// One full turn, 2π, in nano-radians (rounded down).
pub const TAU_NANO: i128 = 6_283_185_307;

/// Half a turn, π, in nano-radians (rounded down).
pub const PI_NANO: i128 = 3_141_592_653;

/// A quarter turn, π/2, in nano-radians (rounded down).
pub const QUARTER_NANO: i128 = 1_570_796_326;

/// Gravitational constant G = `G_NUM / G_DEN` = 6.6743015e-11 N m² / kg².
pub const G_NUM: i128 = 66_743_015;

/// Denominator of the gravitational constant: 10^18.
pub const G_DEN: i128 = 1_000_000_000_000_000_000;

/// Metres per kilometre.
pub const CONVERT_KM_TO_M: i128 = 1_000;

/// Metres per astronomical unit.
pub const CONVERT_AU_TO_M: i128 = 149_597_870_700;

/// One full turn in micro-degrees (the unit in which callers hand in angles).
pub const DEG_FULL_MICRO: i128 = 360_000_000;

/// Mass of the Earth in kilograms: 5.972168e24.
pub const MASS_EARTH_KG: i128 = 5_972_168_000_000_000_000_000_000;

/// Mass of the Sun in kilograms: 1.9885e30.
pub const MASS_SUN_KG: i128 = 1_988_500_000_000_000_000_000_000_000_000;

/// Kilograms per micro-Earth-mass, `MASS_EARTH_KG / 1_000_000`.
pub const MASS_EARTH_PER_MICRO: i128 = 5_972_168_000_000_000_000;

/// Equatorial radius of the Earth in metres.
pub const RADIUS_EARTH_EQUATOR_M: i128 = 6_378_137;

/// Polar radius of the Earth in metres.
pub const RADIUS_EARTH_POLAR_M: i128 = 6_356_752;

/// Mean radius of the Earth in metres.
pub const RADIUS_EARTH_MEAN_M: i128 = 6_371_000;

/// Radius of the Sun in metres.
pub const RADIUS_SUN_M: i128 = 695_700_000;

/// Polar radius of the Sun in metres: the equatorial radius flattened by
/// a factor of 0.00005.
pub const RADIUS_SUN_POLAR_M: i128 = 695_665_215;

/// Axial tilt of the Earth in micro-degrees (23.4392811°, rounded down).
pub const TILT_EARTH_MICRODEG: i128 = 23_439_281;

/// Largest body mass the database accepts, in kilograms (2e30, a heavy star).
/// Keeps `mass * G_NUM` within `i128`.
pub const MASS_MAX_KG: i128 = 2_000_000_000_000_000_000_000_000_000_000;

/// Upper bound on any gravitational parameter `mass * G`, in m³/s².
pub const GM_MAX: i128 = 140_000_000_000_000_000_000;

/// Bound on the magnitude of a stored axial tilt, in micro-degrees: ten
/// full turns.  Keeps the converted tilt within the angle range of the
/// rotation routine.
pub const TILT_ABS_MAX: i128 = 3_600_000_000;

/// Smallest accepted semimajor axis in metres (1000 km).  Keeps the staged
/// divisions of the mean-motion computation within `i128`.
pub const AXIS_MIN_M: i128 = 1_000_000;

/// Largest accepted semimajor axis in metres (about a tenth of a light year).
pub const AXIS_MAX_M: i128 = 1_000_000_000_000_000;

/// Largest eccentricity the database accepts, in billionths: just under 1.
/// Parabolic and hyperbolic orbits (e >= 1) are out of scope.
pub const ECC_MAX: i128 = 999_999_999;

/// Most entries a database will hold.  Keeps summed masses and summed
/// positions within `i128`.
pub const ENTRY_MAX: usize = 10_000_000;

/// Bound on the magnitude of a position component, in metres: twice the
/// largest semimajor axis times the direction slack of the rotation chain.
pub const POS_LIMIT_M: i128 = 2_000_000_000_000_000_000;

/// Bound on the magnitude of a mean anomaly produced by
/// `mean_anomaly_at_time`, in nano-radians.
pub const MEANANOM_MAX: i128 = 200_000_000_000_000_000_000_000_000_000;

/// Gravity threshold, in nano-(m/s²), whose matching distance serves as the
/// sphere-of-influence radius of a root body: 5e-7 m/s².
pub const SOI_MIN_GRAVITY_NANO: i128 = 500;

/// Default display-scale hint of a database entry, in billionths
/// (approximately 1 / 3,000,000).
pub const DEFAULT_SCALE_NANO: i128 = 333;

/// Display-scale hint used for the Sun, in billionths (1 / 100,000,000).
pub const SUN_SCALE_NANO: i128 = 10;

} // verus!
