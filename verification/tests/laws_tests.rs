//! Concrete scenarios for the library's general laws: roots at the origin,
//! circular-orbit invariants, relative-position identities, combined mass,
//! and the sphere of influence.

use game_orbits::handles::{
    HANDLE_EARTH, HANDLE_LUNA, HANDLE_MARS, HANDLE_PHOBOS, HANDLE_SOL,
};
use game_orbits::{Body, Database, DatabaseEntry, OrbitalElements, Vect3};

fn magnitude(v: Vect3) -> f64 {
    let x = v.x as f64;
    let y = v.y as f64;
    let z = v.z as f64;
    (x * x + y * y + z * z).sqrt()
}

fn dot(a: Vect3, b: Vect3) -> f64 {
    (a.x as f64) * (b.x as f64) + (a.y as f64) * (b.y as f64) + (a.z as f64) * (b.z as f64)
}

/// A database with one star and one body on a circular orbit of
/// 1000 km around it.
fn circular_pair() -> Database {
    let mut db = Database::default();
    let star = Body::new(5_972_168_000_000_000_000_000_000, 6_378_137, 6_356_752, 0);
    db.add_entry(0, DatabaseEntry::new(star, "Star".to_string()));
    let orbit = OrbitalElements::default().with_semimajor_axis_m(1_000_000);
    db.add_entry(
        1,
        DatabaseEntry::new(Body::default(), "Probe".to_string()).with_parent(0, orbit),
    );
    db
}

#[test]
fn root_absolute_position_is_zero() {
    let db = Database::default().with_solar_system();
    for t in [0i64, 1, 86_400, -86_400, 31_557_600] {
        assert_eq!(db.absolute_position_at_time(HANDLE_SOL, t), Vect3::zero());
    }
}

#[test]
fn circular_orbit_magnitude_is_semimajor_axis() {
    // a body on a circular orbit of radius 1000 (thousands of metres):
    // whatever the mean anomaly, the position has that magnitude
    let db = circular_pair();
    let quarter: i128 = 1_570_796_327;
    let anomalies = [0i128, quarter, 2 * quarter, 3 * quarter];
    let mut positions = Vec::new();
    for m in anomalies {
        let p = db.position_at_mean_anomaly(1, m);
        let mag = magnitude(p);
        assert!(
            (mag - 1_000_000.0).abs() <= 1_000.0,
            "magnitude {} should stay within 0.1% of the orbit radius",
            mag
        );
        positions.push(p);
    }
    // the four directions are at successive quarter turns: neighbouring
    // directions are orthogonal, opposite ones antiparallel
    let r2 = 1_000_000.0f64 * 1_000_000.0;
    for i in 0..4 {
        let j = (i + 1) % 4;
        assert!(dot(positions[i], positions[j]).abs() <= 0.01 * r2);
        let k = (i + 2) % 4;
        assert!((dot(positions[i], positions[k]) + r2).abs() <= 0.01 * r2);
    }
}

#[test]
fn earth_periapsis_radius() {
    // Earth: semimajor axis 149,598,023 km, eccentricity 0.0167086; at mean
    // anomaly 0 the orbital radius is the periapsis distance a(1-e),
    // about 147.1 million km
    let db = Database::default().with_solar_system();
    let p = db.position_at_mean_anomaly(HANDLE_EARTH, 0);
    let mag = magnitude(p);
    let a = 149_598_023_000.0f64;
    let e = 0.0167086f64;
    let expected = a * (1.0 - e);
    assert!(
        (mag - expected).abs() <= 1.0e8,
        "radius at mean anomaly 0 was {}, expected about {}",
        mag,
        expected
    );
}

#[test]
fn relative_position_to_self_is_zero() {
    let db = Database::default().with_solar_system();
    for h in [HANDLE_SOL, HANDLE_EARTH, HANDLE_LUNA, HANDLE_PHOBOS] {
        for t in [0i64, 3600, -7200] {
            assert_eq!(db.relative_position(h, h, t), Some(Vect3::zero()));
        }
    }
}

#[test]
fn relative_position_antisymmetric() {
    // in exact integer arithmetic the antisymmetry is exact, not
    // approximate
    let db = Database::default().with_solar_system();
    let pairs = [
        (HANDLE_LUNA, HANDLE_PHOBOS),
        (HANDLE_EARTH, HANDLE_MARS),
        (HANDLE_SOL, HANDLE_LUNA),
    ];
    for (a, b) in pairs {
        for t in [0i64, 86_400] {
            let ab = db.relative_position(a, b, t).expect("same tree");
            let ba = db.relative_position(b, a, t).expect("same tree");
            assert_eq!(ab, Vect3::new(-ba.x, -ba.y, -ba.z));
        }
    }
}

#[test]
fn relative_position_sums_along_chain() {
    // moon relative to the sun is the moon around the earth plus the earth
    // around the sun
    let db = Database::default().with_solar_system();
    let t = 86_400i64;
    let moon = db.position_at_time(HANDLE_LUNA, t);
    let earth = db.position_at_time(HANDLE_EARTH, t);
    let total = db.relative_position(HANDLE_SOL, HANDLE_LUNA, t).expect("same tree");
    assert_eq!(total, Vect3::new(moon.x + earth.x, moon.y + earth.y, moon.z + earth.z));
}

#[test]
fn relative_position_between_separate_roots() {
    // two disconnected star systems: no common ancestor, no relative
    // position
    let mut db = Database::default();
    db.add_entry(0, DatabaseEntry::new(Body::new_sol(), "A".to_string()));
    db.add_entry(1, DatabaseEntry::new(Body::new_sol(), "B".to_string()));
    assert_eq!(db.relative_position(0, 1, 0), None);
    assert_eq!(db.relative_position(1, 0, 0), None);
    assert_eq!(db.relative_position(0, 0, 0), Some(Vect3::zero()));
}

#[test]
fn combined_mass_of_leaf_is_its_own_mass() {
    let db = Database::default().with_solar_system();
    let leaf_mass = db.get_combined_mass_kg(HANDLE_LUNA);
    assert_eq!(leaf_mass, db.get_entry(HANDLE_LUNA).info.mass_kg());
}

#[test]
fn combined_mass_includes_satellites() {
    let db = Database::default().with_solar_system();
    let earth_system = db.get_combined_mass_kg(HANDLE_EARTH);
    let earth = db.get_entry(HANDLE_EARTH).info.mass_kg();
    let moon = db.get_entry(HANDLE_LUNA).info.mass_kg();
    assert_eq!(earth_system, earth + moon);
}

#[test]
fn radius_soi_earth() {
    // the sphere of influence of the Earth-Moon system is about 929,000 km
    let db = Database::default().with_solar_system();
    let soi = db.radius_soi(HANDLE_EARTH) as f64;
    let expected = 9.29e8;
    assert!(
        (soi - expected).abs() <= 0.01 * expected,
        "Earth SOI was {} m, expected about {} m",
        soi,
        expected
    );
}

#[test]
fn radius_soi_positive_and_monotone_in_mass() {
    // same orbit, heavier body: the sphere of influence grows
    let build = |mass: i128| -> Database {
        let mut db = Database::default();
        db.add_entry(0, DatabaseEntry::new(Body::new_sol(), "Star".to_string()));
        let orbit = OrbitalElements::default().with_semimajor_axis_km(149_598_023);
        let body = Body::default().with_mass_kg(mass);
        db.add_entry(
            1,
            DatabaseEntry::new(body, "Planet".to_string()).with_parent(0, orbit),
        );
        db
    };
    let light = build(5_972_168_000_000_000_000_000_000);
    let heavy = build(1_898_200_000_000_000_000_000_000_000);
    let soi_light = light.radius_soi(1);
    let soi_heavy = heavy.radius_soi(1);
    assert!(soi_light > 0);
    assert!(soi_light < soi_heavy);
}

#[test]
fn radius_soi_of_root_reaches_past_the_heliopause() {
    let db = Database::default().with_solar_system();
    let soi_au = db.radius_soi(HANDLE_SOL) as f64 / 149_597_870_700.0;
    assert!(soi_au > 100.0);
}

#[test]
fn position_of_root_at_any_anomaly_is_zero() {
    let db = Database::default().with_solar_system();
    assert_eq!(db.position_at_mean_anomaly(HANDLE_SOL, 0), Vect3::zero());
    assert_eq!(db.position_at_mean_anomaly(HANDLE_SOL, 123_456_789), Vect3::zero());
    assert_eq!(db.position_at_time(HANDLE_SOL, 86_400), Vect3::zero());
}

#[test]
fn absolute_position_accumulates_through_parents() {
    let db = Database::default().with_solar_system();
    let t = 12_345i64;
    let moon_abs = db.absolute_position_at_time(HANDLE_LUNA, t);
    let moon_rel = db.position_at_time(HANDLE_LUNA, t);
    let earth_abs = db.absolute_position_at_time(HANDLE_EARTH, t);
    assert_eq!(
        moon_abs,
        Vect3::new(
            moon_rel.x + earth_abs.x,
            moon_rel.y + earth_abs.y,
            moon_rel.z + earth_abs.z
        )
    );
}
