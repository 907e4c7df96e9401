//! Simplified orbital mechanics for games, verified.
//!
//! Celestial bodies are arranged in a parent/child hierarchy (star, planet,
//! moon) and their positions follow basic Keplerian orbits.  The database
//! answers, for any body and any simulation time, where that body is relative
//! to its parent, to the root of its system, or to any other body.
//!
//! All quantities are exact integers in fixed units, so every formula in this
//! crate has a precise mathematical statement and is proved against it:
//! - masses in kilograms,
//! - lengths and positions in metres,
//! - angles in nano-radians (billionths of a radian),
//! - dimensionless fractions (eccentricity, trigonometric values, display
//!   scales) in billionths, written as multiples of [`constants::SCALE`],
//! - angles supplied by callers in millionths of a degree,
//! - time in seconds.

use vstd::prelude::*;

pub mod constants;
pub mod fixed;
pub mod trig;
pub mod vect;
pub mod body;
pub mod elements;
pub mod database;
pub mod handles;
pub mod seed;
pub mod laws;

pub use vect::Vect3;
pub use body::Body;
pub use elements::OrbitalElements;
pub use database::Database;
pub use database::DatabaseEntry;

verus! {

} // verus!
