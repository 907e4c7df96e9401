use game_orbits::handles::{
    HANDLE_DEIMOS, HANDLE_EARTH, HANDLE_LUNA, HANDLE_MARS, HANDLE_PHOBOS, HANDLE_SOL,
};
use game_orbits::{Body, Database, DatabaseEntry, OrbitalElements};

#[test]
fn get_satellites() {
    let database = Database::default().with_solar_system();
    let satellites = database.get_satellites(HANDLE_EARTH);
    assert_eq!(1, satellites.len());
    assert!(satellites.contains(&HANDLE_LUNA));
    let satellites = database.get_satellites(HANDLE_MARS);
    assert_eq!(2, satellites.len());
    assert!(satellites.contains(&HANDLE_PHOBOS));
    assert!(satellites.contains(&HANDLE_DEIMOS));
}

#[test]
fn get_parents() {
    let database = Database::default().with_solar_system();
    let hierarchy = database.get_parents(HANDLE_SOL);
    assert_eq!(1, hierarchy.len());
    assert_eq!(HANDLE_SOL, hierarchy[0]);
    let hierarchy = database.get_parents(HANDLE_MARS);
    assert_eq!(2, hierarchy.len());
    assert_eq!(HANDLE_SOL, hierarchy[0]);
    assert_eq!(HANDLE_MARS, hierarchy[1]);
    let hierarchy = database.get_parents(HANDLE_DEIMOS);
    assert_eq!(3, hierarchy.len());
    assert_eq!(HANDLE_SOL, hierarchy[0]);
    assert_eq!(HANDLE_MARS, hierarchy[1]);
    assert_eq!(HANDLE_DEIMOS, hierarchy[2]);
}

#[test]
fn get_satellites_sorted_ascending() {
    let database = Database::default().with_solar_system();
    let satellites = database.get_satellites(HANDLE_SOL);
    assert!(satellites.len() >= 8);
    for w in satellites.windows(2) {
        assert!(w[0] < w[1]);
    }
}

#[test]
fn add_entry_then_get_entry() {
    let mut db = Database::default();
    let star = Body::new(2_000_000_000_000_000_000_000_000_000_000, 695_700_000, 695_700_000, 0);
    db.add_entry(7, DatabaseEntry::new(star, "Star".to_string()));
    let orbit = OrbitalElements::default()
        .with_semimajor_axis_m(1_000_000_000)
        .with_eccentricity(100_000_000)
        .with_inclination_deg(12_000_000);
    let planet = Body::new(5_000_000_000_000_000_000_000_000, 6_000_000, 6_000_000, 0);
    db.add_entry(
        9,
        DatabaseEntry::new(planet, "Planet".to_string())
            .with_parent(7, orbit)
            .with_mean_anomaly_deg(45_000_000),
    );
    let entry = db.get_entry(9);
    assert_eq!(entry.parent, Some(7));
    assert_eq!(entry.name, "Planet");
    assert_eq!(entry.info.mass_kg, 5_000_000_000_000_000_000_000_000);
    let orbit = entry.orbit.expect("an orbiting body keeps its elements");
    assert_eq!(orbit.semimajor_axis, 1_000_000_000);
    assert_eq!(orbit.eccentricity, 100_000_000);
    let root = db.get_entry(7);
    assert!(root.parent.is_none());
    assert!(root.orbit.is_none());
}

#[test]
fn angle_normalization_wraps_into_one_turn() {
    // 750 degrees reduces to 30 degrees
    let o = OrbitalElements::default().with_inclination_deg(750_000_000);
    assert_eq!(o.inclination, 30_000_000i128 * 6_283_185_307 / 360_000_000);
    // -90 degrees reduces to 270 degrees
    let o = OrbitalElements::default().with_arg_of_periapsis_deg(-90_000_000);
    assert_eq!(o.arg_of_periapsis, 270_000_000i128 * 6_283_185_307 / 360_000_000);
    let e = DatabaseEntry::new(Body::default(), "X".to_string())
        .with_mean_anomaly_deg(360_000_000 + 1_000_000);
    assert_eq!(e.mean_anomaly_at_epoch, 1_000_000i128 * 6_283_185_307 / 360_000_000);
}

#[test]
fn mean_anomaly_of_root_is_zero() {
    let database = Database::default().with_solar_system();
    assert_eq!(database.mean_anomaly_at_time(HANDLE_SOL, 0), 0);
    assert_eq!(database.mean_anomaly_at_time(HANDLE_SOL, 86_400), 0);
}

#[test]
fn mean_anomaly_advances_with_mean_motion() {
    let mut db = Database::default();
    db.add_entry(0, DatabaseEntry::new(Body::new_earth(), "Earth".to_string()));
    let orbit = OrbitalElements::default().with_semimajor_axis_m(6_578_140);
    db.add_entry(
        1,
        DatabaseEntry::new(Body::default(), "Sat".to_string()).with_parent(0, orbit),
    );
    // n = sqrt(GM / a^3) for a low orbit, in rad/s
    let gm = Body::new_earth().gm() as f64;
    let a = 6_578_140.0f64;
    let n = (gm / (a * a * a)).sqrt();
    let t: i64 = 1000;
    let m = db.mean_anomaly_at_time(1, t) as f64 / 1.0e9;
    assert!((m - n * t as f64).abs() < 1.0e-3 * n * t as f64);
}

#[test]
fn iter_exposes_all_entries() {
    let database = Database::default().with_solar_system();
    let all = database.iter();
    assert_eq!(all.len(), 52);
    assert!(all.iter().any(|(h, e)| *h == HANDLE_EARTH && e.name == "Earth"));
    assert!(all.iter().any(|(h, e)| *h == HANDLE_SOL && e.name == "Sol"));
}
