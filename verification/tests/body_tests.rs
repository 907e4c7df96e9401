use game_orbits::Body;

/// Scale used for fractional quantities (gravity in nano-(m/s²)).
const NANO: f64 = 1.0e9;

#[test]
fn body_gm() {
    let gm = Body::new_earth().gm() as f64;
    assert!((gm - 3.986005e14).abs() <= 2_000_000.0);
}

#[test]
fn body_gravity() {
    let earth = Body::new_earth();
    let surface_altitude_m: i128 = 6_371_000;
    let g = earth.gravity_at_distance(surface_altitude_m) as f64 / NANO;
    assert!((g - 9.81).abs() <= 0.05);
    let d = earth.distance_of_gravity(9_810_000_000) as f64;
    assert!((d - surface_altitude_m as f64).abs() <= 5000.0);
}

#[test]
fn sun_sphere_of_influence() {
    let sun = Body::new_sol();
    // force of gravity that results in a SOI distance larger than the
    // heliopause: 5e-7 m/s² in nano units
    let gravity_nano: i128 = 500;
    let distance_m = sun.distance_of_gravity(gravity_nano) as f64;
    let distance_au = distance_m / 149_597_870_700.0;
    let minimum_au = 100.0; // distance of heliopause
    assert!(
        minimum_au < distance_au,
        "Expected distance of gravity to be greater than {:.2} AU, but {:.2} AU was returned",
        minimum_au,
        distance_au
    );
}

#[test]
fn body_builders_replace_fields() {
    let b = Body::new(1_000, 2_000, 3_000, 4_000).with_mass_kg(5_000).with_radius_km(7);
    assert_eq!(b.mass_kg(), 5_000);
    assert_eq!(b.radius_equator_m(), 7_000);
    assert_eq!(b.radius_polar_km(), 7);
    let c = b.with_radii_km(10, 20);
    assert_eq!(c.radius_equator_km(), 10);
    assert_eq!(c.radius_avg_m(), 15_000);
    assert_eq!(c.radius_avg_km(), 15);
}

#[test]
fn gravity_distance_round_trip() {
    // reading the gravity at a distance and asking for the distance of that
    // gravity comes back to the original distance (exactly, at this scale)
    let earth = Body::new_earth();
    for d in [6_371_000i128, 7_000_000, 42_164_170, 384_399_000] {
        let g = earth.gravity_at_distance(d);
        assert!(g >= 1);
        let back = earth.distance_of_gravity(g);
        assert!(back >= d);
        assert!((back - d) <= 1 + d / 1_000_000);
    }
}

#[test]
fn body_mass_earths() {
    // one Earth mass, given in millionths of an Earth mass
    let b = Body::default().with_mass_earths(1_000_000);
    assert_eq!(b.mass_kg(), 5_972_168_000_000_000_000_000_000);
}

#[test]
fn axial_tilt_conversion() {
    // 180 degrees is pi radians
    let b = Body::default().with_axial_tilt_deg(180_000_000);
    let tilt = b.axial_tilt_rad() as f64 / NANO;
    assert!((tilt - std::f64::consts::PI).abs() < 1.0e-6);
    // negative tilts keep their sign
    let c = Body::default().with_axial_tilt_deg(-90_000_000);
    let tilt_c = c.axial_tilt_rad() as f64 / NANO;
    assert!((tilt_c + std::f64::consts::FRAC_PI_2).abs() < 1.0e-6);
}
