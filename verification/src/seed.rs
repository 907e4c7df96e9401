//! A canned solar-system data set: the sun, the eight planets, the moons
//! and two dwarf-planet systems, with literal astronomical constants in the
//! crate's integer units.  Each seeding function's contract pins the full
//! content of every entry it adds and leaves every earlier entry unchanged.
//! The larger systems are seeded in blocks so that each proof stays small.

use vstd::prelude::*;
use crate::body::Body;
use crate::constants::{
    DEFAULT_SCALE_NANO, ENTRY_MAX, MASS_EARTH_KG, MASS_SUN_KG, RADIUS_EARTH_EQUATOR_M,
    RADIUS_EARTH_POLAR_M, RADIUS_SUN_M, RADIUS_SUN_POLAR_M, SUN_SCALE_NANO, TILT_EARTH_MICRODEG,
};
use crate::database::{
    entry_of, has_key, lemma_entry_of_push, lemma_has_key_push, lemma_key_index_unique, Database,
    DatabaseEntry,
};
use crate::elements::OrbitalElements;
use crate::fixed::deg_to_nanorad_norm;
use crate::handles::{

    HANDLE_AMALTHEA, HANDLE_ANANKE, HANDLE_ARIEL, HANDLE_CALLISTO,
    HANDLE_CARME, HANDLE_DEIMOS, HANDLE_DESPINA, HANDLE_DIONE,
    HANDLE_DYSNOMIA, HANDLE_EARTH, HANDLE_ELARA, HANDLE_ENCELADUS,
    HANDLE_ERIS, HANDLE_EUROPA, HANDLE_GALATEA, HANDLE_GANYMEDE,
    HANDLE_HAUMEA, HANDLE_HIIAKA, HANDLE_HIMALIA, HANDLE_HYPERION,
    HANDLE_IAPETUS, HANDLE_IO, HANDLE_JANUS, HANDLE_JUPITER,
    HANDLE_LARISSA, HANDLE_LEDA, HANDLE_LUNA, HANDLE_LYSITHEA,
    HANDLE_MARS, HANDLE_MERCURY, HANDLE_MIMAS, HANDLE_MIRANDA,
    HANDLE_NAIAD, HANDLE_NAMAKA, HANDLE_NEPTUNE, HANDLE_NEREID,
    HANDLE_OBERON, HANDLE_PASIPHAE, HANDLE_PHOBOS, HANDLE_PHOEBE,
    HANDLE_RHEA, HANDLE_SATURN, HANDLE_SINOPE, HANDLE_SOL,
    HANDLE_TETHYS, HANDLE_THALASSA, HANDLE_TITAN, HANDLE_TITANIA,
    HANDLE_TRITON, HANDLE_UMBRIEL, HANDLE_URANUS, HANDLE_VENUS,
};

verus! {

/// The orbital elements a seeded body carries: semimajor axis in metres,
/// eccentricity in billionths, the three angles normalised from
/// micro-degrees into one turn.
#[verifier::opaque]
pub open spec fn seeded_elements(
    a_m: int,
    e_nano: int,
    incl_microdeg: int,
    argp_microdeg: int,
    lan_microdeg: int,
) -> OrbitalElements {
    OrbitalElements {
        semimajor_axis: a_m as i128,
        eccentricity: e_nano as i128,
        inclination: deg_to_nanorad_norm(incl_microdeg) as i128,
        arg_of_periapsis: deg_to_nanorad_norm(argp_microdeg) as i128,
        time_of_periapsis_passage: 0,
        long_of_ascending_node: deg_to_nanorad_norm(lan_microdeg) as i128,
    }
}

/// The shape of a seeded orbiting entry: the given parent, body and orbital
/// elements, the phase at epoch converted from micro-degrees, and the
/// default display scale.
#[verifier::opaque]
pub open spec fn seeded_entry(
    e: DatabaseEntry,
    parent: u64,
    info: Body,
    orbit: OrbitalElements,
    epoch_microdeg: int,
) -> bool {
    &&& e.parent == Some(parent)
    &&& e.info == info
    &&& e.orbit == Some(orbit)
    &&& e.mean_anomaly_at_epoch == deg_to_nanorad_norm(epoch_microdeg)
    &&& e.scale == DEFAULT_SCALE_NANO
}

/// A seeded entry names its seeded parent.
proof fn lemma_seeded_entry_parent(
    e: DatabaseEntry,
    parent: u64,
    info: Body,
    orbit: OrbitalElements,
    epoch_microdeg: int,
)
    requires
        seeded_entry(e, parent, info, orbit, epoch_microdeg),
    ensures
        e.parent == Some(parent),
{
    reveal(seeded_entry);
}

impl Database {

    /// Adds our sun to the database.
    pub fn add_sol(&mut self)
        requires
            old(self).wf(),
            old(self).entries().len() + 1 <= ENTRY_MAX,
            !has_key(old(self).entries(), HANDLE_SOL),
        ensures
            final(self).wf(),
            final(self).entries().len() == old(self).entries().len() + 1,
            forall|h: u64|
                has_key(final(self).entries(), h) == (has_key(
                    old(self).entries(),
                    h,
                ) || h == HANDLE_SOL),
            forall|h: u64|
                has_key(old(self).entries(), h) ==> #[trigger] entry_of(
                    final(self).entries(),
                    h,
                ) == entry_of(old(self).entries(), h),
            ({
                let e = entry_of(final(self).entries(), HANDLE_SOL);
                &&& e.parent is None
                &&& e.orbit is None
                &&& e.info == (Body {
                    mass_kg: MASS_SUN_KG,
                    radius_equator_m: RADIUS_SUN_M,
                    radius_polar_m: RADIUS_SUN_POLAR_M,
                    axial_tilt_microdeg: 0,
                })
                &&& e.mean_anomaly_at_epoch == 0
                &&& e.scale == SUN_SCALE_NANO
            }),
    {
        let info = Body::new_sol();
        let entry = DatabaseEntry::new(info, "Sol".to_string()).with_scale(SUN_SCALE_NANO);
        let ghost before = self.entries();
        let ghost pair = (HANDLE_SOL, entry);
        self.add_entry(HANDLE_SOL, entry);
        proof {
            assert forall|h: u64|
                has_key(self.entries(), h) == (has_key(before, h) || h == HANDLE_SOL) by {
                lemma_has_key_push(before, pair, h);
            }
            assert forall|h: u64| has_key(before, h) implies #[trigger] entry_of(
                self.entries(),
                h,
            ) == entry_of(before, h) by {
                lemma_entry_of_push(before, pair, h);
            }
            reveal(seeded_elements);
            reveal(seeded_entry);
            lemma_key_index_unique(self.entries(), HANDLE_SOL, before.len() as int);
            assert(
                ({
                    let e = entry_of(self.entries(), HANDLE_SOL);
                    &&& e.parent is None
                    &&& e.orbit is None
                    &&& e.info == (Body {
                        mass_kg: MASS_SUN_KG,
                        radius_equator_m: RADIUS_SUN_M,
                        radius_polar_m: RADIUS_SUN_POLAR_M,
                        axial_tilt_microdeg: 0,
                    })
                    &&& e.mean_anomaly_at_epoch == 0
                    &&& e.scale == SUN_SCALE_NANO
                })
            );
        }
    }

    /// Adds the planet Mercury to the database.
    pub fn add_mercury(&mut self)
        requires
            old(self).wf(),
            old(self).entries().len() + 1 <= ENTRY_MAX,
            has_key(old(self).entries(), HANDLE_SOL),
            !has_key(old(self).entries(), HANDLE_MERCURY),
        ensures
            final(self).wf(),
            final(self).entries().len() == old(self).entries().len() + 1,
            forall|h: u64|
                has_key(final(self).entries(), h) == (has_key(
                    old(self).entries(),
                    h,
                ) || h == HANDLE_MERCURY),
            forall|h: u64|
                has_key(old(self).entries(), h) ==> #[trigger] entry_of(
                    final(self).entries(),
                    h,
                ) == entry_of(old(self).entries(), h),
            seeded_entry(
                entry_of(final(self).entries(), HANDLE_MERCURY),
                HANDLE_SOL,
                Body {
                    mass_kg: 330_110_000_000_000_000_000_000,
                    radius_equator_m: 2_440_797,
                    radius_polar_m: 2_440_797,
                    axial_tilt_microdeg: 34_000,
                },
                seeded_elements(57_910_000_000, 205_630_000, 7_005_000, 29_124_000,
                    48_331_000),
                174_796_000,
            ),
    {
        let info = Body::new(330_110_000_000_000_000_000_000, 2_440_797, 2_440_797, 34_000);
        let orbit = OrbitalElements::default().with_semimajor_axis_m(
            57_910_000_000,
        ).with_eccentricity(205_630_000).with_inclination_deg(
            7_005_000,
        ).with_arg_of_periapsis_deg(29_124_000).with_long_of_ascending_node_deg(
            48_331_000,
        );
        let entry = DatabaseEntry::new(info, "Mercury".to_string()).with_parent(
            HANDLE_SOL,
            orbit,
        ).with_mean_anomaly_deg(174_796_000);
        let ghost before = self.entries();
        let ghost pair = (HANDLE_MERCURY, entry);
        self.add_entry(HANDLE_MERCURY, entry);
        proof {
            assert forall|h: u64|
                has_key(self.entries(), h) == (has_key(before, h) || h == HANDLE_MERCURY) by {
                lemma_has_key_push(before, pair, h);
            }
            assert forall|h: u64| has_key(before, h) implies #[trigger] entry_of(
                self.entries(),
                h,
            ) == entry_of(before, h) by {
                lemma_entry_of_push(before, pair, h);
            }
            reveal(seeded_elements);
            reveal(seeded_entry);
            lemma_key_index_unique(self.entries(), HANDLE_MERCURY, before.len() as int);
            assert(
                seeded_entry(
                    entry_of(self.entries(), HANDLE_MERCURY),
                    HANDLE_SOL,
                    Body {
                        mass_kg: 330_110_000_000_000_000_000_000,
                        radius_equator_m: 2_440_797,
                        radius_polar_m: 2_440_797,
                        axial_tilt_microdeg: 34_000,
                    },
                    seeded_elements(57_910_000_000, 205_630_000, 7_005_000, 29_124_000,
                        48_331_000),
                    174_796_000,
                )
            );
        }
    }

    /// Adds the planet Venus to the database.
    pub fn add_venus(&mut self)
        requires
            old(self).wf(),
            old(self).entries().len() + 1 <= ENTRY_MAX,
            has_key(old(self).entries(), HANDLE_SOL),
            !has_key(old(self).entries(), HANDLE_VENUS),
        ensures
            final(self).wf(),
            final(self).entries().len() == old(self).entries().len() + 1,
            forall|h: u64|
                has_key(final(self).entries(), h) == (has_key(
                    old(self).entries(),
                    h,
                ) || h == HANDLE_VENUS),
            forall|h: u64|
                has_key(old(self).entries(), h) ==> #[trigger] entry_of(
                    final(self).entries(),
                    h,
                ) == entry_of(old(self).entries(), h),
            seeded_entry(
                entry_of(final(self).entries(), HANDLE_VENUS),
                HANDLE_SOL,
                Body {
                    mass_kg: 4_867_500_000_000_000_000_000_000,
                    radius_equator_m: 6_051_800,
                    radius_polar_m: 6_051_800,
                    axial_tilt_microdeg: 177_360_000,
                },
                seeded_elements(108_210_000_000, 6_772_000, 3_394_580, 54_884_000,
                    76_680_000),
                50_115_000,
            ),
    {
        let info = Body::new(4_867_500_000_000_000_000_000_000, 6_051_800, 6_051_800, 177_360_000);
        let orbit = OrbitalElements::default().with_semimajor_axis_m(
            108_210_000_000,
        ).with_eccentricity(6_772_000).with_inclination_deg(
            3_394_580,
        ).with_arg_of_periapsis_deg(54_884_000).with_long_of_ascending_node_deg(
            76_680_000,
        );
        let entry = DatabaseEntry::new(info, "Venus".to_string()).with_parent(
            HANDLE_SOL,
            orbit,
        ).with_mean_anomaly_deg(50_115_000);
        let ghost before = self.entries();
        let ghost pair = (HANDLE_VENUS, entry);
        self.add_entry(HANDLE_VENUS, entry);
        proof {
            assert forall|h: u64|
                has_key(self.entries(), h) == (has_key(before, h) || h == HANDLE_VENUS) by {
                lemma_has_key_push(before, pair, h);
            }
            assert forall|h: u64| has_key(before, h) implies #[trigger] entry_of(
                self.entries(),
                h,
            ) == entry_of(before, h) by {
                lemma_entry_of_push(before, pair, h);
            }
            reveal(seeded_elements);
            reveal(seeded_entry);
            lemma_key_index_unique(self.entries(), HANDLE_VENUS, before.len() as int);
            assert(
                seeded_entry(
                    entry_of(self.entries(), HANDLE_VENUS),
                    HANDLE_SOL,
                    Body {
                        mass_kg: 4_867_500_000_000_000_000_000_000,
                        radius_equator_m: 6_051_800,
                        radius_polar_m: 6_051_800,
                        axial_tilt_microdeg: 177_360_000,
                    },
                    seeded_elements(108_210_000_000, 6_772_000, 3_394_580, 54_884_000,
                        76_680_000),
                    50_115_000,
                )
            );
        }
    }

    /// Adds the Earth and its moon to the database.
    pub fn add_earth(&mut self)
        requires
            old(self).wf(),
            old(self).entries().len() + 2 <= ENTRY_MAX,
            has_key(old(self).entries(), HANDLE_SOL),
            !has_key(old(self).entries(), HANDLE_EARTH),
            !has_key(old(self).entries(), HANDLE_LUNA),
        ensures
            final(self).wf(),
            final(self).entries().len() == old(self).entries().len() + 2,
            forall|h: u64|
                has_key(final(self).entries(), h) == (has_key(
                    old(self).entries(),
                    h,
                ) || h == HANDLE_EARTH || h == HANDLE_LUNA),
            forall|h: u64|
                has_key(old(self).entries(), h) ==> #[trigger] entry_of(
                    final(self).entries(),
                    h,
                ) == entry_of(old(self).entries(), h),
            seeded_entry(
                entry_of(final(self).entries(), HANDLE_EARTH),
                HANDLE_SOL,
                Body {
                    mass_kg: MASS_EARTH_KG,
                    radius_equator_m: RADIUS_EARTH_EQUATOR_M,
                    radius_polar_m: RADIUS_EARTH_POLAR_M,
                    axial_tilt_microdeg: TILT_EARTH_MICRODEG,
                },
                seeded_elements(149_598_023_000, 16_708_600, 50, 114_207_830,
                    -11_260_640),
                358_617_000,
            ),
            seeded_entry(
                entry_of(final(self).entries(), HANDLE_LUNA),
                HANDLE_EARTH,
                Body {
                    mass_kg: 73_460_000_000_000_000_000_000,
                    radius_equator_m: 1_737_400,
                    radius_polar_m: 1_737_400,
                    axial_tilt_microdeg: 0,
                },
                seeded_elements(384_399_000, 54_900_000, -18_294_000, 114_207_830,
                    -11_260_640),
                90_000_000,
            ),
    {
        let info = Body::new_earth();
        let orbit = OrbitalElements::default().with_semimajor_axis_m(
            149_598_023_000,
        ).with_eccentricity(16_708_600).with_inclination_deg(
            50,
        ).with_arg_of_periapsis_deg(114_207_830).with_long_of_ascending_node_deg(
            -11_260_640,
        );
        let entry = DatabaseEntry::new(info, "Earth".to_string()).with_parent(
            HANDLE_SOL,
            orbit,
        ).with_mean_anomaly_deg(358_617_000);
        let ghost before = self.entries();
        let ghost pair = (HANDLE_EARTH, entry);
        self.add_entry(HANDLE_EARTH, entry);
        proof {
            assert forall|h: u64|
                has_key(self.entries(), h) == (has_key(before, h) || h == HANDLE_EARTH) by {
                lemma_has_key_push(before, pair, h);
            }
            assert forall|h: u64| has_key(before, h) implies #[trigger] entry_of(
                self.entries(),
                h,
            ) == entry_of(before, h) by {
                lemma_entry_of_push(before, pair, h);
            }
            reveal(seeded_elements);
            reveal(seeded_entry);
            lemma_key_index_unique(self.entries(), HANDLE_EARTH, before.len() as int);
            assert(
                seeded_entry(
                    entry_of(self.entries(), HANDLE_EARTH),
                    HANDLE_SOL,
                    Body {
                        mass_kg: MASS_EARTH_KG,
                        radius_equator_m: RADIUS_EARTH_EQUATOR_M,
                        radius_polar_m: RADIUS_EARTH_POLAR_M,
                        axial_tilt_microdeg: TILT_EARTH_MICRODEG,
                    },
                    seeded_elements(149_598_023_000, 16_708_600, 50, 114_207_830,
                        -11_260_640),
                    358_617_000,
                )
            );
        }
        let info = Body::new(73_460_000_000_000_000_000_000, 1_737_400, 1_737_400, 0);
        let orbit = OrbitalElements::default().with_semimajor_axis_m(
            384_399_000,
        ).with_eccentricity(54_900_000).with_inclination_deg(
            -18_294_000,
        ).with_arg_of_periapsis_deg(114_207_830).with_long_of_ascending_node_deg(
            -11_260_640,
        );
        let entry = DatabaseEntry::new(info, "Luna".to_string()).with_parent(
            HANDLE_EARTH,
            orbit,
        ).with_mean_anomaly_deg(90_000_000);
        let ghost before = self.entries();
        let ghost pair = (HANDLE_LUNA, entry);
        self.add_entry(HANDLE_LUNA, entry);
        proof {
            assert forall|h: u64|
                has_key(self.entries(), h) == (has_key(before, h) || h == HANDLE_LUNA) by {
                lemma_has_key_push(before, pair, h);
            }
            assert forall|h: u64| has_key(before, h) implies #[trigger] entry_of(
                self.entries(),
                h,
            ) == entry_of(before, h) by {
                lemma_entry_of_push(before, pair, h);
            }
            reveal(seeded_elements);
            reveal(seeded_entry);
            lemma_key_index_unique(self.entries(), HANDLE_LUNA, before.len() as int);
            assert(
                seeded_entry(
                    entry_of(self.entries(), HANDLE_LUNA),
                    HANDLE_EARTH,
                    Body {
                        mass_kg: 73_460_000_000_000_000_000_000,
                        radius_equator_m: 1_737_400,
                        radius_polar_m: 1_737_400,
                        axial_tilt_microdeg: 0,
                    },
                    seeded_elements(384_399_000, 54_900_000, -18_294_000, 114_207_830,
                        -11_260_640),
                    90_000_000,
                )
            );
        }
    }

    /// Adds the planet Mars and its two moons to the database.
    #[verifier::rlimit(100)]
    pub fn add_mars(&mut self)
        requires
            old(self).wf(),
            old(self).entries().len() + 3 <= ENTRY_MAX,
            has_key(old(self).entries(), HANDLE_SOL),
            !has_key(old(self).entries(), HANDLE_MARS),
            !has_key(old(self).entries(), HANDLE_PHOBOS),
            !has_key(old(self).entries(), HANDLE_DEIMOS),
        ensures
            final(self).wf(),
            final(self).entries().len() == old(self).entries().len() + 3,
            forall|h: u64|
                has_key(final(self).entries(), h) == (has_key(
                    old(self).entries(),
                    h,
                ) || h == HANDLE_MARS || h == HANDLE_PHOBOS || h == HANDLE_DEIMOS),
            forall|h: u64|
                has_key(old(self).entries(), h) ==> #[trigger] entry_of(
                    final(self).entries(),
                    h,
                ) == entry_of(old(self).entries(), h),
            seeded_entry(
                entry_of(final(self).entries(), HANDLE_MARS),
                HANDLE_SOL,
                Body {
                    mass_kg: 641_710_000_000_000_000_000_000,
                    radius_equator_m: 3_396_200,
                    radius_polar_m: 3_376_200,
                    axial_tilt_microdeg: 25_190_000,
                },
                seeded_elements(227_939_366_000, 93_400_000, 1_850_000, 286_500_000,
                    49_578_540),
                174_796_000,
            ),
            seeded_entry(
                entry_of(final(self).entries(), HANDLE_PHOBOS),
                HANDLE_MARS,
                Body {
                    mass_kg: 10_600_000_000_000_000,
                    radius_equator_m: 11_080,
                    radius_polar_m: 11_080,
                    axial_tilt_microdeg: 0,
                },
                seeded_elements(9_376_000, 15_100_000, 1_093_000, 381_523_663,
                    83_143_239),
                90_000_000,
            ),
            seeded_entry(
                entry_of(final(self).entries(), HANDLE_DEIMOS),
                HANDLE_MARS,
                Body {
                    mass_kg: 10_600_000_000_000_000,
                    radius_equator_m: 11_080,
                    radius_polar_m: 11_080,
                    axial_tilt_microdeg: 0,
                },
                seeded_elements(23_463_200, 330_000, 930_000, 386_193_544,
                    80_973_571),
                270_000_000,
            ),
    {
        let info = Body::new(641_710_000_000_000_000_000_000, 3_396_200, 3_376_200, 25_190_000);
        let orbit = OrbitalElements::default().with_semimajor_axis_m(
            227_939_366_000,
        ).with_eccentricity(93_400_000).with_inclination_deg(
            1_850_000,
        ).with_arg_of_periapsis_deg(286_500_000).with_long_of_ascending_node_deg(
            49_578_540,
        );
        let entry = DatabaseEntry::new(info, "Mars".to_string()).with_parent(
            HANDLE_SOL,
            orbit,
        ).with_mean_anomaly_deg(174_796_000);
        let ghost before = self.entries();
        let ghost pair = (HANDLE_MARS, entry);
        self.add_entry(HANDLE_MARS, entry);
        proof {
            assert forall|h: u64|
                has_key(self.entries(), h) == (has_key(before, h) || h == HANDLE_MARS) by {
                lemma_has_key_push(before, pair, h);
            }
            assert forall|h: u64| has_key(before, h) implies #[trigger] entry_of(
                self.entries(),
                h,
            ) == entry_of(before, h) by {
                lemma_entry_of_push(before, pair, h);
            }
            reveal(seeded_elements);
            reveal(seeded_entry);
            lemma_key_index_unique(self.entries(), HANDLE_MARS, before.len() as int);
            assert(
                seeded_entry(
                    entry_of(self.entries(), HANDLE_MARS),
                    HANDLE_SOL,
                    Body {
                        mass_kg: 641_710_000_000_000_000_000_000,
                        radius_equator_m: 3_396_200,
                        radius_polar_m: 3_376_200,
                        axial_tilt_microdeg: 25_190_000,
                    },
                    seeded_elements(227_939_366_000, 93_400_000, 1_850_000, 286_500_000,
                        49_578_540),
                    174_796_000,
                )
            );
        }
        let info = Body::new(10_600_000_000_000_000, 11_080, 11_080, 0);
        let orbit = OrbitalElements::default().with_semimajor_axis_m(
            9_376_000,
        ).with_eccentricity(15_100_000).with_inclination_deg(
            1_093_000,
        ).with_arg_of_periapsis_deg(381_523_663).with_long_of_ascending_node_deg(
            83_143_239,
        );
        let entry = DatabaseEntry::new(info, "Phobos".to_string()).with_parent(
            HANDLE_MARS,
            orbit,
        ).with_mean_anomaly_deg(90_000_000);
        let ghost before = self.entries();
        let ghost pair = (HANDLE_PHOBOS, entry);
        self.add_entry(HANDLE_PHOBOS, entry);
        proof {
            assert forall|h: u64|
                has_key(self.entries(), h) == (has_key(before, h) || h == HANDLE_PHOBOS) by {
                lemma_has_key_push(before, pair, h);
            }
            assert forall|h: u64| has_key(before, h) implies #[trigger] entry_of(
                self.entries(),
                h,
            ) == entry_of(before, h) by {
                lemma_entry_of_push(before, pair, h);
            }
            reveal(seeded_elements);
            reveal(seeded_entry);
            lemma_key_index_unique(self.entries(), HANDLE_PHOBOS, before.len() as int);
            assert(
                seeded_entry(
                    entry_of(self.entries(), HANDLE_PHOBOS),
                    HANDLE_MARS,
                    Body {
                        mass_kg: 10_600_000_000_000_000,
                        radius_equator_m: 11_080,
                        radius_polar_m: 11_080,
                        axial_tilt_microdeg: 0,
                    },
                    seeded_elements(9_376_000, 15_100_000, 1_093_000, 381_523_663,
                        83_143_239),
                    90_000_000,
                )
            );
        }
        let info = Body::new(10_600_000_000_000_000, 11_080, 11_080, 0);
        let orbit = OrbitalElements::default().with_semimajor_axis_m(
            23_463_200,
        ).with_eccentricity(330_000).with_inclination_deg(
            930_000,
        ).with_arg_of_periapsis_deg(386_193_544).with_long_of_ascending_node_deg(
            80_973_571,
        );
        let entry = DatabaseEntry::new(info, "Deimos".to_string()).with_parent(
            HANDLE_MARS,
            orbit,
        ).with_mean_anomaly_deg(270_000_000);
        let ghost before = self.entries();
        let ghost pair = (HANDLE_DEIMOS, entry);
        self.add_entry(HANDLE_DEIMOS, entry);
        proof {
            assert forall|h: u64|
                has_key(self.entries(), h) == (has_key(before, h) || h == HANDLE_DEIMOS) by {
                lemma_has_key_push(before, pair, h);
            }
            assert forall|h: u64| has_key(before, h) implies #[trigger] entry_of(
                self.entries(),
                h,
            ) == entry_of(before, h) by {
                lemma_entry_of_push(before, pair, h);
            }
            reveal(seeded_elements);
            reveal(seeded_entry);
            lemma_key_index_unique(self.entries(), HANDLE_DEIMOS, before.len() as int);
            assert(
                seeded_entry(
                    entry_of(self.entries(), HANDLE_DEIMOS),
                    HANDLE_MARS,
                    Body {
                        mass_kg: 10_600_000_000_000_000,
                        radius_equator_m: 11_080,
                        radius_polar_m: 11_080,
                        axial_tilt_microdeg: 0,
                    },
                    seeded_elements(23_463_200, 330_000, 930_000, 386_193_544,
                        80_973_571),
                    270_000_000,
                )
            );
        }
    }

    /// First block of the Jupiter system: Jupiter, Io, Europa, Ganymede, Callisto, Amalthea.
    #[verifier::rlimit(100)]
    fn add_jupiter_first_block(&mut self)
        requires
            old(self).wf(),
            old(self).entries().len() + 6 <= ENTRY_MAX,
            has_key(old(self).entries(), HANDLE_SOL),
            !has_key(old(self).entries(), HANDLE_JUPITER),
            !has_key(old(self).entries(), HANDLE_IO),
            !has_key(old(self).entries(), HANDLE_EUROPA),
            !has_key(old(self).entries(), HANDLE_GANYMEDE),
            !has_key(old(self).entries(), HANDLE_CALLISTO),
            !has_key(old(self).entries(), HANDLE_AMALTHEA),
        ensures
            final(self).wf(),
            final(self).entries().len() == old(self).entries().len() + 6,
            forall|h: u64|
                has_key(final(self).entries(), h) == (has_key(
                    old(self).entries(),
                    h,
                ) || h == HANDLE_JUPITER || h == HANDLE_IO || h == HANDLE_EUROPA || h == HANDLE_GANYMEDE || h == HANDLE_CALLISTO || h == HANDLE_AMALTHEA),
            forall|h: u64|
                has_key(old(self).entries(), h) ==> #[trigger] entry_of(
                    final(self).entries(),
                    h,
                ) == entry_of(old(self).entries(), h),
            seeded_entry(
                entry_of(final(self).entries(), HANDLE_JUPITER),
                HANDLE_SOL,
                Body {
                    mass_kg: 1_898_200_000_000_000_000_000_000_000,
                    radius_equator_m: 71_492_000,
                    radius_polar_m: 66_854_000,
                    axial_tilt_microdeg: 3_130_000,
                },
                seeded_elements(778_477_399_548, 48_900_000, 1_303_000, 273_867_000,
                    100_464_000),
                20_020_000,
            ),
            seeded_entry(
                entry_of(final(self).entries(), HANDLE_IO),
                HANDLE_JUPITER,
                Body {
                    mass_kg: 89_300_000_000_000_000_000_000,
                    radius_equator_m: 1_821_600,
                    radius_polar_m: 1_821_600,
                    axial_tilt_microdeg: 0,
                },
                seeded_elements(422_025_278, 4_188_671, 50_000, 654_351_898,
                    737_154_208),
                90_000_000,
            ),
            seeded_entry(
                entry_of(final(self).entries(), HANDLE_EUROPA),
                HANDLE_JUPITER,
                Body {
                    mass_kg: 48_000_000_000_000_000_000_000,
                    radius_equator_m: 1_565_000,
                    radius_polar_m: 1_565_000,
                    axial_tilt_microdeg: 0,
                },
                seeded_elements(671_193_628, 9_402_884, 470_000, 468_899_300,
                    350_526_057),
                270_000_000,
            ),
            seeded_entry(
                entry_of(final(self).entries(), HANDLE_GANYMEDE),
                HANDLE_JUPITER,
                Body {
                    mass_kg: 148_000_000_000_000_000_000_000,
                    radius_equator_m: 2_634_000,
                    radius_polar_m: 2_634_000,
                    axial_tilt_microdeg: 0,
                },
                seeded_elements(1_070_615_470, 1_587_629, 200_000, 621_291_691,
                    341_695_992),
                270_000_000,
            ),
            seeded_entry(
                entry_of(final(self).entries(), HANDLE_CALLISTO),
                HANDLE_JUPITER,
                Body {
                    mass_kg: 107_593_800_000_000_000_000_000,
                    radius_equator_m: 2_410_300,
                    radius_polar_m: 2_410_300,
                    axial_tilt_microdeg: 0,
                },
                seeded_elements(1_882_700_000, 7_400_000, 192_000, 698_808_358,
                    339_482_965),
                839_975_751,
            ),
            seeded_entry(
                entry_of(final(self).entries(), HANDLE_AMALTHEA),
                HANDLE_JUPITER,
                Body {
                    mass_kg: 2_080_000_000_000_000_000,
                    radius_equator_m: 83_500,
                    radius_polar_m: 83_500,
                    axial_tilt_microdeg: 0,
                },
                seeded_elements(181_365_840, 441_428, 374_000, 414_339_943,
                    342_032_315),
                270_000_000,
            ),
    {
        let info = Body::new(1_898_200_000_000_000_000_000_000_000, 71_492_000, 66_854_000, 3_130_000);
        let orbit = OrbitalElements::default().with_semimajor_axis_m(
            778_477_399_548,
        ).with_eccentricity(48_900_000).with_inclination_deg(
            1_303_000,
        ).with_arg_of_periapsis_deg(273_867_000).with_long_of_ascending_node_deg(
            100_464_000,
        );
        let entry = DatabaseEntry::new(info, "Jupiter".to_string()).with_parent(
            HANDLE_SOL,
            orbit,
        ).with_mean_anomaly_deg(20_020_000);
        let ghost before = self.entries();
        let ghost pair = (HANDLE_JUPITER, entry);
        self.add_entry(HANDLE_JUPITER, entry);
        proof {
            assert forall|h: u64|
                has_key(self.entries(), h) == (has_key(before, h) || h == HANDLE_JUPITER) by {
                lemma_has_key_push(before, pair, h);
            }
            assert forall|h: u64| has_key(before, h) implies #[trigger] entry_of(
                self.entries(),
                h,
            ) == entry_of(before, h) by {
                lemma_entry_of_push(before, pair, h);
            }
            reveal(seeded_elements);
            reveal(seeded_entry);
            lemma_key_index_unique(self.entries(), HANDLE_JUPITER, before.len() as int);
            assert(
                seeded_entry(
                    entry_of(self.entries(), HANDLE_JUPITER),
                    HANDLE_SOL,
                    Body {
                        mass_kg: 1_898_200_000_000_000_000_000_000_000,
                        radius_equator_m: 71_492_000,
                        radius_polar_m: 66_854_000,
                        axial_tilt_microdeg: 3_130_000,
                    },
                    seeded_elements(778_477_399_548, 48_900_000, 1_303_000, 273_867_000,
                        100_464_000),
                    20_020_000,
                )
            );
        }
        let info = Body::new(89_300_000_000_000_000_000_000, 1_821_600, 1_821_600, 0);
        let orbit = OrbitalElements::default().with_semimajor_axis_m(
            422_025_278,
        ).with_eccentricity(4_188_671).with_inclination_deg(
            50_000,
        ).with_arg_of_periapsis_deg(654_351_898).with_long_of_ascending_node_deg(
            737_154_208,
        );
        let entry = DatabaseEntry::new(info, "Io".to_string()).with_parent(
            HANDLE_JUPITER,
            orbit,
        ).with_mean_anomaly_deg(90_000_000);
        let ghost before = self.entries();
        let ghost pair = (HANDLE_IO, entry);
        self.add_entry(HANDLE_IO, entry);
        proof {
            assert forall|h: u64|
                has_key(self.entries(), h) == (has_key(before, h) || h == HANDLE_IO) by {
                lemma_has_key_push(before, pair, h);
            }
            assert forall|h: u64| has_key(before, h) implies #[trigger] entry_of(
                self.entries(),
                h,
            ) == entry_of(before, h) by {
                lemma_entry_of_push(before, pair, h);
            }
            reveal(seeded_elements);
            reveal(seeded_entry);
            lemma_key_index_unique(self.entries(), HANDLE_IO, before.len() as int);
            assert(
                seeded_entry(
                    entry_of(self.entries(), HANDLE_IO),
                    HANDLE_JUPITER,
                    Body {
                        mass_kg: 89_300_000_000_000_000_000_000,
                        radius_equator_m: 1_821_600,
                        radius_polar_m: 1_821_600,
                        axial_tilt_microdeg: 0,
                    },
                    seeded_elements(422_025_278, 4_188_671, 50_000, 654_351_898,
                        737_154_208),
                    90_000_000,
                )
            );
        }
        let info = Body::new(48_000_000_000_000_000_000_000, 1_565_000, 1_565_000, 0);
        let orbit = OrbitalElements::default().with_semimajor_axis_m(
            671_193_628,
        ).with_eccentricity(9_402_884).with_inclination_deg(
            470_000,
        ).with_arg_of_periapsis_deg(468_899_300).with_long_of_ascending_node_deg(
            350_526_057,
        );
        let entry = DatabaseEntry::new(info, "Europa".to_string()).with_parent(
            HANDLE_JUPITER,
            orbit,
        ).with_mean_anomaly_deg(270_000_000);
        let ghost before = self.entries();
        let ghost pair = (HANDLE_EUROPA, entry);
        self.add_entry(HANDLE_EUROPA, entry);
        proof {
            assert forall|h: u64|
                has_key(self.entries(), h) == (has_key(before, h) || h == HANDLE_EUROPA) by {
                lemma_has_key_push(before, pair, h);
            }
            assert forall|h: u64| has_key(before, h) implies #[trigger] entry_of(
                self.entries(),
                h,
            ) == entry_of(before, h) by {
                lemma_entry_of_push(before, pair, h);
            }
            reveal(seeded_elements);
            reveal(seeded_entry);
            lemma_key_index_unique(self.entries(), HANDLE_EUROPA, before.len() as int);
            assert(
                seeded_entry(
                    entry_of(self.entries(), HANDLE_EUROPA),
                    HANDLE_JUPITER,
                    Body {
                        mass_kg: 48_000_000_000_000_000_000_000,
                        radius_equator_m: 1_565_000,
                        radius_polar_m: 1_565_000,
                        axial_tilt_microdeg: 0,
                    },
                    seeded_elements(671_193_628, 9_402_884, 470_000, 468_899_300,
                        350_526_057),
                    270_000_000,
                )
            );
        }
        let info = Body::new(148_000_000_000_000_000_000_000, 2_634_000, 2_634_000, 0);
        let orbit = OrbitalElements::default().with_semimajor_axis_m(
            1_070_615_470,
        ).with_eccentricity(1_587_629).with_inclination_deg(
            200_000,
        ).with_arg_of_periapsis_deg(621_291_691).with_long_of_ascending_node_deg(
            341_695_992,
        );
        let entry = DatabaseEntry::new(info, "Ganymede".to_string()).with_parent(
            HANDLE_JUPITER,
            orbit,
        ).with_mean_anomaly_deg(270_000_000);
        let ghost before = self.entries();
        let ghost pair = (HANDLE_GANYMEDE, entry);
        self.add_entry(HANDLE_GANYMEDE, entry);
        proof {
            assert forall|h: u64|
                has_key(self.entries(), h) == (has_key(before, h) || h == HANDLE_GANYMEDE) by {
                lemma_has_key_push(before, pair, h);
            }
            assert forall|h: u64| has_key(before, h) implies #[trigger] entry_of(
                self.entries(),
                h,
            ) == entry_of(before, h) by {
                lemma_entry_of_push(before, pair, h);
            }
            reveal(seeded_elements);
            reveal(seeded_entry);
            lemma_key_index_unique(self.entries(), HANDLE_GANYMEDE, before.len() as int);
            assert(
                seeded_entry(
                    entry_of(self.entries(), HANDLE_GANYMEDE),
                    HANDLE_JUPITER,
                    Body {
                        mass_kg: 148_000_000_000_000_000_000_000,
                        radius_equator_m: 2_634_000,
                        radius_polar_m: 2_634_000,
                        axial_tilt_microdeg: 0,
                    },
                    seeded_elements(1_070_615_470, 1_587_629, 200_000, 621_291_691,
                        341_695_992),
                    270_000_000,
                )
            );
        }
        let info = Body::new(107_593_800_000_000_000_000_000, 2_410_300, 2_410_300, 0);
        let orbit = OrbitalElements::default().with_semimajor_axis_m(
            1_882_700_000,
        ).with_eccentricity(7_400_000).with_inclination_deg(
            192_000,
        ).with_arg_of_periapsis_deg(698_808_358).with_long_of_ascending_node_deg(
            339_482_965,
        );
        let entry = DatabaseEntry::new(info, "Callisto".to_string()).with_parent(
            HANDLE_JUPITER,
            orbit,
        ).with_mean_anomaly_deg(839_975_751);
        let ghost before = self.entries();
        let ghost pair = (HANDLE_CALLISTO, entry);
        self.add_entry(HANDLE_CALLISTO, entry);
        proof {
            assert forall|h: u64|
                has_key(self.entries(), h) == (has_key(before, h) || h == HANDLE_CALLISTO) by {
                lemma_has_key_push(before, pair, h);
            }
            assert forall|h: u64| has_key(before, h) implies #[trigger] entry_of(
                self.entries(),
                h,
            ) == entry_of(before, h) by {
                lemma_entry_of_push(before, pair, h);
            }
            reveal(seeded_elements);
            reveal(seeded_entry);
            lemma_key_index_unique(self.entries(), HANDLE_CALLISTO, before.len() as int);
            assert(
                seeded_entry(
                    entry_of(self.entries(), HANDLE_CALLISTO),
                    HANDLE_JUPITER,
                    Body {
                        mass_kg: 107_593_800_000_000_000_000_000,
                        radius_equator_m: 2_410_300,
                        radius_polar_m: 2_410_300,
                        axial_tilt_microdeg: 0,
                    },
                    seeded_elements(1_882_700_000, 7_400_000, 192_000, 698_808_358,
                        339_482_965),
                    839_975_751,
                )
            );
        }
        let info = Body::new(2_080_000_000_000_000_000, 83_500, 83_500, 0);
        let orbit = OrbitalElements::default().with_semimajor_axis_m(
            181_365_840,
        ).with_eccentricity(441_428).with_inclination_deg(
            374_000,
        ).with_arg_of_periapsis_deg(414_339_943).with_long_of_ascending_node_deg(
            342_032_315,
        );
        let entry = DatabaseEntry::new(info, "Amalthea".to_string()).with_parent(
            HANDLE_JUPITER,
            orbit,
        ).with_mean_anomaly_deg(270_000_000);
        let ghost before = self.entries();
        let ghost pair = (HANDLE_AMALTHEA, entry);
        self.add_entry(HANDLE_AMALTHEA, entry);
        proof {
            assert forall|h: u64|
                has_key(self.entries(), h) == (has_key(before, h) || h == HANDLE_AMALTHEA) by {
                lemma_has_key_push(before, pair, h);
            }
            assert forall|h: u64| has_key(before, h) implies #[trigger] entry_of(
                self.entries(),
                h,
            ) == entry_of(before, h) by {
                lemma_entry_of_push(before, pair, h);
            }
            reveal(seeded_elements);
            reveal(seeded_entry);
            lemma_key_index_unique(self.entries(), HANDLE_AMALTHEA, before.len() as int);
            assert(
                seeded_entry(
                    entry_of(self.entries(), HANDLE_AMALTHEA),
                    HANDLE_JUPITER,
                    Body {
                        mass_kg: 2_080_000_000_000_000_000,
                        radius_equator_m: 83_500,
                        radius_polar_m: 83_500,
                        axial_tilt_microdeg: 0,
                    },
                    seeded_elements(181_365_840, 441_428, 374_000, 414_339_943,
                        342_032_315),
                    270_000_000,
                )
            );
        }
    }

    /// Second block of the Jupiter system: Himalia, Elara, Pasiphae, Sinope, Lysithea, Carma.
    #[verifier::rlimit(100)]
    fn add_jupiter_second_block(&mut self)
        requires
            old(self).wf(),
            old(self).entries().len() + 6 <= ENTRY_MAX,
            has_key(old(self).entries(), HANDLE_JUPITER),
            !has_key(old(self).entries(), HANDLE_HIMALIA),
            !has_key(old(self).entries(), HANDLE_ELARA),
            !has_key(old(self).entries(), HANDLE_PASIPHAE),
            !has_key(old(self).entries(), HANDLE_SINOPE),
            !has_key(old(self).entries(), HANDLE_LYSITHEA),
            !has_key(old(self).entries(), HANDLE_CARME),
        ensures
            final(self).wf(),
            final(self).entries().len() == old(self).entries().len() + 6,
            forall|h: u64|
                has_key(final(self).entries(), h) == (has_key(
                    old(self).entries(),
                    h,
                ) || h == HANDLE_HIMALIA || h == HANDLE_ELARA || h == HANDLE_PASIPHAE || h == HANDLE_SINOPE || h == HANDLE_LYSITHEA || h == HANDLE_CARME),
            forall|h: u64|
                has_key(old(self).entries(), h) ==> #[trigger] entry_of(
                    final(self).entries(),
                    h,
                ) == entry_of(old(self).entries(), h),
            seeded_entry(
                entry_of(final(self).entries(), HANDLE_HIMALIA),
                HANDLE_JUPITER,
                Body {
                    mass_kg: 9_560_000_000_000_000_000,
                    radius_equator_m: 93_150,
                    radius_polar_m: 93_150,
                    axial_tilt_microdeg: 0,
                },
                seeded_elements(11_394_679_431, 148_020_288, 28_100_000, 405_592_890,
                    57_786_525),
                270_000_000,
            ),
            seeded_entry(
                entry_of(final(self).entries(), HANDLE_ELARA),
                HANDLE_JUPITER,
                Body {
                    mass_kg: 777_000_000_000_000_000,
                    radius_equator_m: 38_500,
                    radius_polar_m: 38_500,
                    axial_tilt_microdeg: 0,
                },
                seeded_elements(11_724_775_187, 196_015_925, 27_900_000, 254_812_870,
                    104_680_792),
                270_000_000,
            ),
            seeded_entry(
                entry_of(final(self).entries(), HANDLE_PASIPHAE),
                HANDLE_JUPITER,
                Body {
                    mass_kg: 191_000_000_000_000_000,
                    radius_equator_m: 25_700,
                    radius_polar_m: 25_700,
                    axial_tilt_microdeg: 0,
                },
                seeded_elements(23_398_199_225, 369_532_583, 148_400_000, 529_781_057,
                    333_722_656),
                270_000_000,
            ),
            seeded_entry(
                entry_of(final(self).entries(), HANDLE_SINOPE),
                HANDLE_JUPITER,
                Body {
                    mass_kg: 77_700_000_000_000_000,
                    radius_equator_m: 18_100,
                    radius_polar_m: 18_100,
                    axial_tilt_microdeg: 0,
                },
                seeded_elements(23_731_586_385, 286_212_248, 157_300_000, 330_014_714,
                    326_138_400),
                578_187_135,
            ),
            seeded_entry(
                entry_of(final(self).entries(), HANDLE_LYSITHEA),
                HANDLE_JUPITER,
                Body {
                    mass_kg: 77_700_000_000_000_000,
                    radius_equator_m: 18_200,
                    radius_polar_m: 18_200,
                    axial_tilt_microdeg: 0,
                },
                seeded_elements(11_681_680_564, 133_982_901, 27_200_000, 64_872_621,
                    1_252_118),
                158_993_906,
            ),
            seeded_entry(
                entry_of(final(self).entries(), HANDLE_CARME),
                HANDLE_JUPITER,
                Body {
                    mass_kg: 95_600_000_000_000_000,
                    radius_equator_m: 39_200,
                    radius_polar_m: 39_200,
                    axial_tilt_microdeg: 0,
                },
                seeded_elements(22_846_253_568, 222_748_653, 164_300_000, 199_239_805,
                    143_056_427),
                545_059_221,
            ),
    {
        let info = Body::new(9_560_000_000_000_000_000, 93_150, 93_150, 0);
        let orbit = OrbitalElements::default().with_semimajor_axis_m(
            11_394_679_431,
        ).with_eccentricity(148_020_288).with_inclination_deg(
            28_100_000,
        ).with_arg_of_periapsis_deg(405_592_890).with_long_of_ascending_node_deg(
            57_786_525,
        );
        let entry = DatabaseEntry::new(info, "Himalia".to_string()).with_parent(
            HANDLE_JUPITER,
            orbit,
        ).with_mean_anomaly_deg(270_000_000);
        let ghost before = self.entries();
        let ghost pair = (HANDLE_HIMALIA, entry);
        self.add_entry(HANDLE_HIMALIA, entry);
        proof {
            assert forall|h: u64|
                has_key(self.entries(), h) == (has_key(before, h) || h == HANDLE_HIMALIA) by {
                lemma_has_key_push(before, pair, h);
            }
            assert forall|h: u64| has_key(before, h) implies #[trigger] entry_of(
                self.entries(),
                h,
            ) == entry_of(before, h) by {
                lemma_entry_of_push(before, pair, h);
            }
            reveal(seeded_elements);
            reveal(seeded_entry);
            lemma_key_index_unique(self.entries(), HANDLE_HIMALIA, before.len() as int);
            assert(
                seeded_entry(
                    entry_of(self.entries(), HANDLE_HIMALIA),
                    HANDLE_JUPITER,
                    Body {
                        mass_kg: 9_560_000_000_000_000_000,
                        radius_equator_m: 93_150,
                        radius_polar_m: 93_150,
                        axial_tilt_microdeg: 0,
                    },
                    seeded_elements(11_394_679_431, 148_020_288, 28_100_000, 405_592_890,
                        57_786_525),
                    270_000_000,
                )
            );
        }
        let info = Body::new(777_000_000_000_000_000, 38_500, 38_500, 0);
        let orbit = OrbitalElements::default().with_semimajor_axis_m(
            11_724_775_187,
        ).with_eccentricity(196_015_925).with_inclination_deg(
            27_900_000,
        ).with_arg_of_periapsis_deg(254_812_870).with_long_of_ascending_node_deg(
            104_680_792,
        );
        let entry = DatabaseEntry::new(info, "Elara".to_string()).with_parent(
            HANDLE_JUPITER,
            orbit,
        ).with_mean_anomaly_deg(270_000_000);
        let ghost before = self.entries();
        let ghost pair = (HANDLE_ELARA, entry);
        self.add_entry(HANDLE_ELARA, entry);
        proof {
            assert forall|h: u64|
                has_key(self.entries(), h) == (has_key(before, h) || h == HANDLE_ELARA) by {
                lemma_has_key_push(before, pair, h);
            }
            assert forall|h: u64| has_key(before, h) implies #[trigger] entry_of(
                self.entries(),
                h,
            ) == entry_of(before, h) by {
                lemma_entry_of_push(before, pair, h);
            }
            reveal(seeded_elements);
            reveal(seeded_entry);
            lemma_key_index_unique(self.entries(), HANDLE_ELARA, before.len() as int);
            assert(
                seeded_entry(
                    entry_of(self.entries(), HANDLE_ELARA),
                    HANDLE_JUPITER,
                    Body {
                        mass_kg: 777_000_000_000_000_000,
                        radius_equator_m: 38_500,
                        radius_polar_m: 38_500,
                        axial_tilt_microdeg: 0,
                    },
                    seeded_elements(11_724_775_187, 196_015_925, 27_900_000, 254_812_870,
                        104_680_792),
                    270_000_000,
                )
            );
        }
        let info = Body::new(191_000_000_000_000_000, 25_700, 25_700, 0);
        let orbit = OrbitalElements::default().with_semimajor_axis_m(
            23_398_199_225,
        ).with_eccentricity(369_532_583).with_inclination_deg(
            148_400_000,
        ).with_arg_of_periapsis_deg(529_781_057).with_long_of_ascending_node_deg(
            333_722_656,
        );
        let entry = DatabaseEntry::new(info, "Pasiphae".to_string()).with_parent(
            HANDLE_JUPITER,
            orbit,
        ).with_mean_anomaly_deg(270_000_000);
        let ghost before = self.entries();
        let ghost pair = (HANDLE_PASIPHAE, entry);
        self.add_entry(HANDLE_PASIPHAE, entry);
        proof {
            assert forall|h: u64|
                has_key(self.entries(), h) == (has_key(before, h) || h == HANDLE_PASIPHAE) by {
                lemma_has_key_push(before, pair, h);
            }
            assert forall|h: u64| has_key(before, h) implies #[trigger] entry_of(
                self.entries(),
                h,
            ) == entry_of(before, h) by {
                lemma_entry_of_push(before, pair, h);
            }
            reveal(seeded_elements);
            reveal(seeded_entry);
            lemma_key_index_unique(self.entries(), HANDLE_PASIPHAE, before.len() as int);
            assert(
                seeded_entry(
                    entry_of(self.entries(), HANDLE_PASIPHAE),
                    HANDLE_JUPITER,
                    Body {
                        mass_kg: 191_000_000_000_000_000,
                        radius_equator_m: 25_700,
                        radius_polar_m: 25_700,
                        axial_tilt_microdeg: 0,
                    },
                    seeded_elements(23_398_199_225, 369_532_583, 148_400_000, 529_781_057,
                        333_722_656),
                    270_000_000,
                )
            );
        }
        let info = Body::new(77_700_000_000_000_000, 18_100, 18_100, 0);
        let orbit = OrbitalElements::default().with_semimajor_axis_m(
            23_731_586_385,
        ).with_eccentricity(286_212_248).with_inclination_deg(
            157_300_000,
        ).with_arg_of_periapsis_deg(330_014_714).with_long_of_ascending_node_deg(
            326_138_400,
        );
        let entry = DatabaseEntry::new(info, "Sinope".to_string()).with_parent(
            HANDLE_JUPITER,
            orbit,
        ).with_mean_anomaly_deg(578_187_135);
        let ghost before = self.entries();
        let ghost pair = (HANDLE_SINOPE, entry);
        self.add_entry(HANDLE_SINOPE, entry);
        proof {
            assert forall|h: u64|
                has_key(self.entries(), h) == (has_key(before, h) || h == HANDLE_SINOPE) by {
                lemma_has_key_push(before, pair, h);
            }
            assert forall|h: u64| has_key(before, h) implies #[trigger] entry_of(
                self.entries(),
                h,
            ) == entry_of(before, h) by {
                lemma_entry_of_push(before, pair, h);
            }
            reveal(seeded_elements);
            reveal(seeded_entry);
            lemma_key_index_unique(self.entries(), HANDLE_SINOPE, before.len() as int);
            assert(
                seeded_entry(
                    entry_of(self.entries(), HANDLE_SINOPE),
                    HANDLE_JUPITER,
                    Body {
                        mass_kg: 77_700_000_000_000_000,
                        radius_equator_m: 18_100,
                        radius_polar_m: 18_100,
                        axial_tilt_microdeg: 0,
                    },
                    seeded_elements(23_731_586_385, 286_212_248, 157_300_000, 330_014_714,
                        326_138_400),
                    578_187_135,
                )
            );
        }
        let info = Body::new(77_700_000_000_000_000, 18_200, 18_200, 0);
        let orbit = OrbitalElements::default().with_semimajor_axis_m(
            11_681_680_564,
        ).with_eccentricity(133_982_901).with_inclination_deg(
            27_200_000,
        ).with_arg_of_periapsis_deg(64_872_621).with_long_of_ascending_node_deg(
            1_252_118,
        );
        let entry = DatabaseEntry::new(info, "Lysithea".to_string()).with_parent(
            HANDLE_JUPITER,
            orbit,
        ).with_mean_anomaly_deg(158_993_906);
        let ghost before = self.entries();
        let ghost pair = (HANDLE_LYSITHEA, entry);
        self.add_entry(HANDLE_LYSITHEA, entry);
        proof {
            assert forall|h: u64|
                has_key(self.entries(), h) == (has_key(before, h) || h == HANDLE_LYSITHEA) by {
                lemma_has_key_push(before, pair, h);
            }
            assert forall|h: u64| has_key(before, h) implies #[trigger] entry_of(
                self.entries(),
                h,
            ) == entry_of(before, h) by {
                lemma_entry_of_push(before, pair, h);
            }
            reveal(seeded_elements);
            reveal(seeded_entry);
            lemma_key_index_unique(self.entries(), HANDLE_LYSITHEA, before.len() as int);
            assert(
                seeded_entry(
                    entry_of(self.entries(), HANDLE_LYSITHEA),
                    HANDLE_JUPITER,
                    Body {
                        mass_kg: 77_700_000_000_000_000,
                        radius_equator_m: 18_200,
                        radius_polar_m: 18_200,
                        axial_tilt_microdeg: 0,
                    },
                    seeded_elements(11_681_680_564, 133_982_901, 27_200_000, 64_872_621,
                        1_252_118),
                    158_993_906,
                )
            );
        }
        let info = Body::new(95_600_000_000_000_000, 39_200, 39_200, 0);
        let orbit = OrbitalElements::default().with_semimajor_axis_m(
            22_846_253_568,
        ).with_eccentricity(222_748_653).with_inclination_deg(
            164_300_000,
        ).with_arg_of_periapsis_deg(199_239_805).with_long_of_ascending_node_deg(
            143_056_427,
        );
        let entry = DatabaseEntry::new(info, "Carma".to_string()).with_parent(
            HANDLE_JUPITER,
            orbit,
        ).with_mean_anomaly_deg(545_059_221);
        let ghost before = self.entries();
        let ghost pair = (HANDLE_CARME, entry);
        self.add_entry(HANDLE_CARME, entry);
        proof {
            assert forall|h: u64|
                has_key(self.entries(), h) == (has_key(before, h) || h == HANDLE_CARME) by {
                lemma_has_key_push(before, pair, h);
            }
            assert forall|h: u64| has_key(before, h) implies #[trigger] entry_of(
                self.entries(),
                h,
            ) == entry_of(before, h) by {
                lemma_entry_of_push(before, pair, h);
            }
            reveal(seeded_elements);
            reveal(seeded_entry);
            lemma_key_index_unique(self.entries(), HANDLE_CARME, before.len() as int);
            assert(
                seeded_entry(
                    entry_of(self.entries(), HANDLE_CARME),
                    HANDLE_JUPITER,
                    Body {
                        mass_kg: 95_600_000_000_000_000,
                        radius_equator_m: 39_200,
                        radius_polar_m: 39_200,
                        axial_tilt_microdeg: 0,
                    },
                    seeded_elements(22_846_253_568, 222_748_653, 164_300_000, 199_239_805,
                        143_056_427),
                    545_059_221,
                )
            );
        }
    }

    /// Third block of the Jupiter system: Ananke, Leda.
    #[verifier::rlimit(100)]
    fn add_jupiter_third_block(&mut self)
        requires
            old(self).wf(),
            old(self).entries().len() + 2 <= ENTRY_MAX,
            has_key(old(self).entries(), HANDLE_JUPITER),
            !has_key(old(self).entries(), HANDLE_ANANKE),
            !has_key(old(self).entries(), HANDLE_LEDA),
        ensures
            final(self).wf(),
            final(self).entries().len() == old(self).entries().len() + 2,
            forall|h: u64|
                has_key(final(self).entries(), h) == (has_key(
                    old(self).entries(),
                    h,
                ) || h == HANDLE_ANANKE || h == HANDLE_LEDA),
            forall|h: u64|
                has_key(old(self).entries(), h) ==> #[trigger] entry_of(
                    final(self).entries(),
                    h,
                ) == entry_of(old(self).entries(), h),
            seeded_entry(
                entry_of(final(self).entries(), HANDLE_ANANKE),
                HANDLE_JUPITER,
                Body {
                    mass_kg: 38_200_000_000_000_000,
                    radius_equator_m: 14_900,
                    radius_polar_m: 14_900,
                    axial_tilt_microdeg: 0,
                },
                seeded_elements(21_178_519_961, 360_749_649, 147_600_000, 131_881_909,
                    39_194_106),
                365_178_243,
            ),
            seeded_entry(
                entry_of(final(self).entries(), HANDLE_LEDA),
                HANDLE_JUPITER,
                Body {
                    mass_kg: 5_680_000_000_000_000,
                    radius_equator_m: 21_500,
                    radius_polar_m: 21_500,
                    axial_tilt_microdeg: 0,
                },
                seeded_elements(11_195_980_000, 360_749_649, 28_600_000, 312_929_650,
                    190_184_970),
                137_025_710,
            ),
    {
        let info = Body::new(38_200_000_000_000_000, 14_900, 14_900, 0);
        let orbit = OrbitalElements::default().with_semimajor_axis_m(
            21_178_519_961,
        ).with_eccentricity(360_749_649).with_inclination_deg(
            147_600_000,
        ).with_arg_of_periapsis_deg(131_881_909).with_long_of_ascending_node_deg(
            39_194_106,
        );
        let entry = DatabaseEntry::new(info, "Ananke".to_string()).with_parent(
            HANDLE_JUPITER,
            orbit,
        ).with_mean_anomaly_deg(365_178_243);
        let ghost before = self.entries();
        let ghost pair = (HANDLE_ANANKE, entry);
        self.add_entry(HANDLE_ANANKE, entry);
        proof {
            assert forall|h: u64|
                has_key(self.entries(), h) == (has_key(before, h) || h == HANDLE_ANANKE) by {
                lemma_has_key_push(before, pair, h);
            }
            assert forall|h: u64| has_key(before, h) implies #[trigger] entry_of(
                self.entries(),
                h,
            ) == entry_of(before, h) by {
                lemma_entry_of_push(before, pair, h);
            }
            reveal(seeded_elements);
            reveal(seeded_entry);
            lemma_key_index_unique(self.entries(), HANDLE_ANANKE, before.len() as int);
            assert(
                seeded_entry(
                    entry_of(self.entries(), HANDLE_ANANKE),
                    HANDLE_JUPITER,
                    Body {
                        mass_kg: 38_200_000_000_000_000,
                        radius_equator_m: 14_900,
                        radius_polar_m: 14_900,
                        axial_tilt_microdeg: 0,
                    },
                    seeded_elements(21_178_519_961, 360_749_649, 147_600_000, 131_881_909,
                        39_194_106),
                    365_178_243,
                )
            );
        }
        let info = Body::new(5_680_000_000_000_000, 21_500, 21_500, 0);
        let orbit = OrbitalElements::default().with_semimajor_axis_m(
            11_195_980_000,
        ).with_eccentricity(360_749_649).with_inclination_deg(
            28_600_000,
        ).with_arg_of_periapsis_deg(312_929_650).with_long_of_ascending_node_deg(
            190_184_970,
        );
        let entry = DatabaseEntry::new(info, "Leda".to_string()).with_parent(
            HANDLE_JUPITER,
            orbit,
        ).with_mean_anomaly_deg(137_025_710);
        let ghost before = self.entries();
        let ghost pair = (HANDLE_LEDA, entry);
        self.add_entry(HANDLE_LEDA, entry);
        proof {
            assert forall|h: u64|
                has_key(self.entries(), h) == (has_key(before, h) || h == HANDLE_LEDA) by {
                lemma_has_key_push(before, pair, h);
            }
            assert forall|h: u64| has_key(before, h) implies #[trigger] entry_of(
                self.entries(),
                h,
            ) == entry_of(before, h) by {
                lemma_entry_of_push(before, pair, h);
            }
            reveal(seeded_elements);
            reveal(seeded_entry);
            lemma_key_index_unique(self.entries(), HANDLE_LEDA, before.len() as int);
            assert(
                seeded_entry(
                    entry_of(self.entries(), HANDLE_LEDA),
                    HANDLE_JUPITER,
                    Body {
                        mass_kg: 5_680_000_000_000_000,
                        radius_equator_m: 21_500,
                        radius_polar_m: 21_500,
                        axial_tilt_microdeg: 0,
                    },
                    seeded_elements(11_195_980_000, 360_749_649, 28_600_000, 312_929_650,
                        190_184_970),
                    137_025_710,
                )
            );
        }
    }

    /// Adds the planet Jupiter and a selection of its moons to the database.
    #[verifier::rlimit(100)]
    pub fn add_jupiter(&mut self)
        requires
            old(self).wf(),
            old(self).entries().len() + 14 <= ENTRY_MAX,
            has_key(old(self).entries(), HANDLE_SOL),
            !has_key(old(self).entries(), HANDLE_JUPITER),
            !has_key(old(self).entries(), HANDLE_IO),
            !has_key(old(self).entries(), HANDLE_EUROPA),
            !has_key(old(self).entries(), HANDLE_GANYMEDE),
            !has_key(old(self).entries(), HANDLE_CALLISTO),
            !has_key(old(self).entries(), HANDLE_AMALTHEA),
            !has_key(old(self).entries(), HANDLE_HIMALIA),
            !has_key(old(self).entries(), HANDLE_ELARA),
            !has_key(old(self).entries(), HANDLE_PASIPHAE),
            !has_key(old(self).entries(), HANDLE_SINOPE),
            !has_key(old(self).entries(), HANDLE_LYSITHEA),
            !has_key(old(self).entries(), HANDLE_CARME),
            !has_key(old(self).entries(), HANDLE_ANANKE),
            !has_key(old(self).entries(), HANDLE_LEDA),
        ensures
            final(self).wf(),
            final(self).entries().len() == old(self).entries().len() + 14,
            forall|h: u64|
                has_key(final(self).entries(), h) == (has_key(
                    old(self).entries(),
                    h,
                ) || h == HANDLE_JUPITER || h == HANDLE_IO || h == HANDLE_EUROPA || h == HANDLE_GANYMEDE || h == HANDLE_CALLISTO || h == HANDLE_AMALTHEA || h == HANDLE_HIMALIA || h == HANDLE_ELARA || h == HANDLE_PASIPHAE || h == HANDLE_SINOPE || h == HANDLE_LYSITHEA || h == HANDLE_CARME || h == HANDLE_ANANKE || h == HANDLE_LEDA),
            forall|h: u64|
                has_key(old(self).entries(), h) ==> #[trigger] entry_of(
                    final(self).entries(),
                    h,
                ) == entry_of(old(self).entries(), h),
            seeded_entry(
                entry_of(final(self).entries(), HANDLE_JUPITER),
                HANDLE_SOL,
                Body {
                    mass_kg: 1_898_200_000_000_000_000_000_000_000,
                    radius_equator_m: 71_492_000,
                    radius_polar_m: 66_854_000,
                    axial_tilt_microdeg: 3_130_000,
                },
                seeded_elements(778_477_399_548, 48_900_000, 1_303_000, 273_867_000,
                    100_464_000),
                20_020_000,
            ),
            seeded_entry(
                entry_of(final(self).entries(), HANDLE_IO),
                HANDLE_JUPITER,
                Body {
                    mass_kg: 89_300_000_000_000_000_000_000,
                    radius_equator_m: 1_821_600,
                    radius_polar_m: 1_821_600,
                    axial_tilt_microdeg: 0,
                },
                seeded_elements(422_025_278, 4_188_671, 50_000, 654_351_898,
                    737_154_208),
                90_000_000,
            ),
            seeded_entry(
                entry_of(final(self).entries(), HANDLE_EUROPA),
                HANDLE_JUPITER,
                Body {
                    mass_kg: 48_000_000_000_000_000_000_000,
                    radius_equator_m: 1_565_000,
                    radius_polar_m: 1_565_000,
                    axial_tilt_microdeg: 0,
                },
                seeded_elements(671_193_628, 9_402_884, 470_000, 468_899_300,
                    350_526_057),
                270_000_000,
            ),
            seeded_entry(
                entry_of(final(self).entries(), HANDLE_GANYMEDE),
                HANDLE_JUPITER,
                Body {
                    mass_kg: 148_000_000_000_000_000_000_000,
                    radius_equator_m: 2_634_000,
                    radius_polar_m: 2_634_000,
                    axial_tilt_microdeg: 0,
                },
                seeded_elements(1_070_615_470, 1_587_629, 200_000, 621_291_691,
                    341_695_992),
                270_000_000,
            ),
            seeded_entry(
                entry_of(final(self).entries(), HANDLE_CALLISTO),
                HANDLE_JUPITER,
                Body {
                    mass_kg: 107_593_800_000_000_000_000_000,
                    radius_equator_m: 2_410_300,
                    radius_polar_m: 2_410_300,
                    axial_tilt_microdeg: 0,
                },
                seeded_elements(1_882_700_000, 7_400_000, 192_000, 698_808_358,
                    339_482_965),
                839_975_751,
            ),
            seeded_entry(
                entry_of(final(self).entries(), HANDLE_AMALTHEA),
                HANDLE_JUPITER,
                Body {
                    mass_kg: 2_080_000_000_000_000_000,
                    radius_equator_m: 83_500,
                    radius_polar_m: 83_500,
                    axial_tilt_microdeg: 0,
                },
                seeded_elements(181_365_840, 441_428, 374_000, 414_339_943,
                    342_032_315),
                270_000_000,
            ),
            seeded_entry(
                entry_of(final(self).entries(), HANDLE_HIMALIA),
                HANDLE_JUPITER,
                Body {
                    mass_kg: 9_560_000_000_000_000_000,
                    radius_equator_m: 93_150,
                    radius_polar_m: 93_150,
                    axial_tilt_microdeg: 0,
                },
                seeded_elements(11_394_679_431, 148_020_288, 28_100_000, 405_592_890,
                    57_786_525),
                270_000_000,
            ),
            seeded_entry(
                entry_of(final(self).entries(), HANDLE_ELARA),
                HANDLE_JUPITER,
                Body {
                    mass_kg: 777_000_000_000_000_000,
                    radius_equator_m: 38_500,
                    radius_polar_m: 38_500,
                    axial_tilt_microdeg: 0,
                },
                seeded_elements(11_724_775_187, 196_015_925, 27_900_000, 254_812_870,
                    104_680_792),
                270_000_000,
            ),
            seeded_entry(
                entry_of(final(self).entries(), HANDLE_PASIPHAE),
                HANDLE_JUPITER,
                Body {
                    mass_kg: 191_000_000_000_000_000,
                    radius_equator_m: 25_700,
                    radius_polar_m: 25_700,
                    axial_tilt_microdeg: 0,
                },
                seeded_elements(23_398_199_225, 369_532_583, 148_400_000, 529_781_057,
                    333_722_656),
                270_000_000,
            ),
            seeded_entry(
                entry_of(final(self).entries(), HANDLE_SINOPE),
                HANDLE_JUPITER,
                Body {
                    mass_kg: 77_700_000_000_000_000,
                    radius_equator_m: 18_100,
                    radius_polar_m: 18_100,
                    axial_tilt_microdeg: 0,
                },
                seeded_elements(23_731_586_385, 286_212_248, 157_300_000, 330_014_714,
                    326_138_400),
                578_187_135,
            ),
            seeded_entry(
                entry_of(final(self).entries(), HANDLE_LYSITHEA),
                HANDLE_JUPITER,
                Body {
                    mass_kg: 77_700_000_000_000_000,
                    radius_equator_m: 18_200,
                    radius_polar_m: 18_200,
                    axial_tilt_microdeg: 0,
                },
                seeded_elements(11_681_680_564, 133_982_901, 27_200_000, 64_872_621,
                    1_252_118),
                158_993_906,
            ),
            seeded_entry(
                entry_of(final(self).entries(), HANDLE_CARME),
                HANDLE_JUPITER,
                Body {
                    mass_kg: 95_600_000_000_000_000,
                    radius_equator_m: 39_200,
                    radius_polar_m: 39_200,
                    axial_tilt_microdeg: 0,
                },
                seeded_elements(22_846_253_568, 222_748_653, 164_300_000, 199_239_805,
                    143_056_427),
                545_059_221,
            ),
            seeded_entry(
                entry_of(final(self).entries(), HANDLE_ANANKE),
                HANDLE_JUPITER,
                Body {
                    mass_kg: 38_200_000_000_000_000,
                    radius_equator_m: 14_900,
                    radius_polar_m: 14_900,
                    axial_tilt_microdeg: 0,
                },
                seeded_elements(21_178_519_961, 360_749_649, 147_600_000, 131_881_909,
                    39_194_106),
                365_178_243,
            ),
            seeded_entry(
                entry_of(final(self).entries(), HANDLE_LEDA),
                HANDLE_JUPITER,
                Body {
                    mass_kg: 5_680_000_000_000_000,
                    radius_equator_m: 21_500,
                    radius_polar_m: 21_500,
                    axial_tilt_microdeg: 0,
                },
                seeded_elements(11_195_980_000, 360_749_649, 28_600_000, 312_929_650,
                    190_184_970),
                137_025_710,
            ),
    {
        self.add_jupiter_first_block();
        proof {
            assert(has_key(self.entries(), HANDLE_JUPITER));
            assert(
                seeded_entry(
                    entry_of(self.entries(), HANDLE_JUPITER),
                    HANDLE_SOL,
                    Body {
                        mass_kg: 1_898_200_000_000_000_000_000_000_000,
                        radius_equator_m: 71_492_000,
                        radius_polar_m: 66_854_000,
                        axial_tilt_microdeg: 3_130_000,
                    },
                    seeded_elements(778_477_399_548, 48_900_000, 1_303_000, 273_867_000,
                        100_464_000),
                    20_020_000,
                )
            );
            assert(has_key(self.entries(), HANDLE_IO));
            assert(
                seeded_entry(
                    entry_of(self.entries(), HANDLE_IO),
                    HANDLE_JUPITER,
                    Body {
                        mass_kg: 89_300_000_000_000_000_000_000,
                        radius_equator_m: 1_821_600,
                        radius_polar_m: 1_821_600,
                        axial_tilt_microdeg: 0,
                    },
                    seeded_elements(422_025_278, 4_188_671, 50_000, 654_351_898,
                        737_154_208),
                    90_000_000,
                )
            );
            assert(has_key(self.entries(), HANDLE_EUROPA));
            assert(
                seeded_entry(
                    entry_of(self.entries(), HANDLE_EUROPA),
                    HANDLE_JUPITER,
                    Body {
                        mass_kg: 48_000_000_000_000_000_000_000,
                        radius_equator_m: 1_565_000,
                        radius_polar_m: 1_565_000,
                        axial_tilt_microdeg: 0,
                    },
                    seeded_elements(671_193_628, 9_402_884, 470_000, 468_899_300,
                        350_526_057),
                    270_000_000,
                )
            );
            assert(has_key(self.entries(), HANDLE_GANYMEDE));
            assert(
                seeded_entry(
                    entry_of(self.entries(), HANDLE_GANYMEDE),
                    HANDLE_JUPITER,
                    Body {
                        mass_kg: 148_000_000_000_000_000_000_000,
                        radius_equator_m: 2_634_000,
                        radius_polar_m: 2_634_000,
                        axial_tilt_microdeg: 0,
                    },
                    seeded_elements(1_070_615_470, 1_587_629, 200_000, 621_291_691,
                        341_695_992),
                    270_000_000,
                )
            );
            assert(has_key(self.entries(), HANDLE_CALLISTO));
            assert(
                seeded_entry(
                    entry_of(self.entries(), HANDLE_CALLISTO),
                    HANDLE_JUPITER,
                    Body {
                        mass_kg: 107_593_800_000_000_000_000_000,
                        radius_equator_m: 2_410_300,
                        radius_polar_m: 2_410_300,
                        axial_tilt_microdeg: 0,
                    },
                    seeded_elements(1_882_700_000, 7_400_000, 192_000, 698_808_358,
                        339_482_965),
                    839_975_751,
                )
            );
            assert(has_key(self.entries(), HANDLE_AMALTHEA));
            assert(
                seeded_entry(
                    entry_of(self.entries(), HANDLE_AMALTHEA),
                    HANDLE_JUPITER,
                    Body {
                        mass_kg: 2_080_000_000_000_000_000,
                        radius_equator_m: 83_500,
                        radius_polar_m: 83_500,
                        axial_tilt_microdeg: 0,
                    },
                    seeded_elements(181_365_840, 441_428, 374_000, 414_339_943,
                        342_032_315),
                    270_000_000,
                )
            );
        }
        self.add_jupiter_second_block();
        proof {
            assert(has_key(self.entries(), HANDLE_JUPITER));
            assert(
                seeded_entry(
                    entry_of(self.entries(), HANDLE_JUPITER),
                    HANDLE_SOL,
                    Body {
                        mass_kg: 1_898_200_000_000_000_000_000_000_000,
                        radius_equator_m: 71_492_000,
                        radius_polar_m: 66_854_000,
                        axial_tilt_microdeg: 3_130_000,
                    },
                    seeded_elements(778_477_399_548, 48_900_000, 1_303_000, 273_867_000,
                        100_464_000),
                    20_020_000,
                )
            );
            assert(has_key(self.entries(), HANDLE_IO));
            assert(
                seeded_entry(
                    entry_of(self.entries(), HANDLE_IO),
                    HANDLE_JUPITER,
                    Body {
                        mass_kg: 89_300_000_000_000_000_000_000,
                        radius_equator_m: 1_821_600,
                        radius_polar_m: 1_821_600,
                        axial_tilt_microdeg: 0,
                    },
                    seeded_elements(422_025_278, 4_188_671, 50_000, 654_351_898,
                        737_154_208),
                    90_000_000,
                )
            );
            assert(has_key(self.entries(), HANDLE_EUROPA));
            assert(
                seeded_entry(
                    entry_of(self.entries(), HANDLE_EUROPA),
                    HANDLE_JUPITER,
                    Body {
                        mass_kg: 48_000_000_000_000_000_000_000,
                        radius_equator_m: 1_565_000,
                        radius_polar_m: 1_565_000,
                        axial_tilt_microdeg: 0,
                    },
                    seeded_elements(671_193_628, 9_402_884, 470_000, 468_899_300,
                        350_526_057),
                    270_000_000,
                )
            );
            assert(has_key(self.entries(), HANDLE_GANYMEDE));
            assert(
                seeded_entry(
                    entry_of(self.entries(), HANDLE_GANYMEDE),
                    HANDLE_JUPITER,
                    Body {
                        mass_kg: 148_000_000_000_000_000_000_000,
                        radius_equator_m: 2_634_000,
                        radius_polar_m: 2_634_000,
                        axial_tilt_microdeg: 0,
                    },
                    seeded_elements(1_070_615_470, 1_587_629, 200_000, 621_291_691,
                        341_695_992),
                    270_000_000,
                )
            );
            assert(has_key(self.entries(), HANDLE_CALLISTO));
            assert(
                seeded_entry(
                    entry_of(self.entries(), HANDLE_CALLISTO),
                    HANDLE_JUPITER,
                    Body {
                        mass_kg: 107_593_800_000_000_000_000_000,
                        radius_equator_m: 2_410_300,
                        radius_polar_m: 2_410_300,
                        axial_tilt_microdeg: 0,
                    },
                    seeded_elements(1_882_700_000, 7_400_000, 192_000, 698_808_358,
                        339_482_965),
                    839_975_751,
                )
            );
            assert(has_key(self.entries(), HANDLE_AMALTHEA));
            assert(
                seeded_entry(
                    entry_of(self.entries(), HANDLE_AMALTHEA),
                    HANDLE_JUPITER,
                    Body {
                        mass_kg: 2_080_000_000_000_000_000,
                        radius_equator_m: 83_500,
                        radius_polar_m: 83_500,
                        axial_tilt_microdeg: 0,
                    },
                    seeded_elements(181_365_840, 441_428, 374_000, 414_339_943,
                        342_032_315),
                    270_000_000,
                )
            );
            assert(has_key(self.entries(), HANDLE_HIMALIA));
            assert(
                seeded_entry(
                    entry_of(self.entries(), HANDLE_HIMALIA),
                    HANDLE_JUPITER,
                    Body {
                        mass_kg: 9_560_000_000_000_000_000,
                        radius_equator_m: 93_150,
                        radius_polar_m: 93_150,
                        axial_tilt_microdeg: 0,
                    },
                    seeded_elements(11_394_679_431, 148_020_288, 28_100_000, 405_592_890,
                        57_786_525),
                    270_000_000,
                )
            );
            assert(has_key(self.entries(), HANDLE_ELARA));
            assert(
                seeded_entry(
                    entry_of(self.entries(), HANDLE_ELARA),
                    HANDLE_JUPITER,
                    Body {
                        mass_kg: 777_000_000_000_000_000,
                        radius_equator_m: 38_500,
                        radius_polar_m: 38_500,
                        axial_tilt_microdeg: 0,
                    },
                    seeded_elements(11_724_775_187, 196_015_925, 27_900_000, 254_812_870,
                        104_680_792),
                    270_000_000,
                )
            );
            assert(has_key(self.entries(), HANDLE_PASIPHAE));
            assert(
                seeded_entry(
                    entry_of(self.entries(), HANDLE_PASIPHAE),
                    HANDLE_JUPITER,
                    Body {
                        mass_kg: 191_000_000_000_000_000,
                        radius_equator_m: 25_700,
                        radius_polar_m: 25_700,
                        axial_tilt_microdeg: 0,
                    },
                    seeded_elements(23_398_199_225, 369_532_583, 148_400_000, 529_781_057,
                        333_722_656),
                    270_000_000,
                )
            );
            assert(has_key(self.entries(), HANDLE_SINOPE));
            assert(
                seeded_entry(
                    entry_of(self.entries(), HANDLE_SINOPE),
                    HANDLE_JUPITER,
                    Body {
                        mass_kg: 77_700_000_000_000_000,
                        radius_equator_m: 18_100,
                        radius_polar_m: 18_100,
                        axial_tilt_microdeg: 0,
                    },
                    seeded_elements(23_731_586_385, 286_212_248, 157_300_000, 330_014_714,
                        326_138_400),
                    578_187_135,
                )
            );
            assert(has_key(self.entries(), HANDLE_LYSITHEA));
            assert(
                seeded_entry(
                    entry_of(self.entries(), HANDLE_LYSITHEA),
                    HANDLE_JUPITER,
                    Body {
                        mass_kg: 77_700_000_000_000_000,
                        radius_equator_m: 18_200,
                        radius_polar_m: 18_200,
                        axial_tilt_microdeg: 0,
                    },
                    seeded_elements(11_681_680_564, 133_982_901, 27_200_000, 64_872_621,
                        1_252_118),
                    158_993_906,
                )
            );
            assert(has_key(self.entries(), HANDLE_CARME));
            assert(
                seeded_entry(
                    entry_of(self.entries(), HANDLE_CARME),
                    HANDLE_JUPITER,
                    Body {
                        mass_kg: 95_600_000_000_000_000,
                        radius_equator_m: 39_200,
                        radius_polar_m: 39_200,
                        axial_tilt_microdeg: 0,
                    },
                    seeded_elements(22_846_253_568, 222_748_653, 164_300_000, 199_239_805,
                        143_056_427),
                    545_059_221,
                )
            );
        }
        self.add_jupiter_third_block();
        proof {
            assert(has_key(self.entries(), HANDLE_JUPITER));
            assert(
                seeded_entry(
                    entry_of(self.entries(), HANDLE_JUPITER),
                    HANDLE_SOL,
                    Body {
                        mass_kg: 1_898_200_000_000_000_000_000_000_000,
                        radius_equator_m: 71_492_000,
                        radius_polar_m: 66_854_000,
                        axial_tilt_microdeg: 3_130_000,
                    },
                    seeded_elements(778_477_399_548, 48_900_000, 1_303_000, 273_867_000,
                        100_464_000),
                    20_020_000,
                )
            );
            assert(has_key(self.entries(), HANDLE_IO));
            assert(
                seeded_entry(
                    entry_of(self.entries(), HANDLE_IO),
                    HANDLE_JUPITER,
                    Body {
                        mass_kg: 89_300_000_000_000_000_000_000,
                        radius_equator_m: 1_821_600,
                        radius_polar_m: 1_821_600,
                        axial_tilt_microdeg: 0,
                    },
                    seeded_elements(422_025_278, 4_188_671, 50_000, 654_351_898,
                        737_154_208),
                    90_000_000,
                )
            );
            assert(has_key(self.entries(), HANDLE_EUROPA));
            assert(
                seeded_entry(
                    entry_of(self.entries(), HANDLE_EUROPA),
                    HANDLE_JUPITER,
                    Body {
                        mass_kg: 48_000_000_000_000_000_000_000,
                        radius_equator_m: 1_565_000,
                        radius_polar_m: 1_565_000,
                        axial_tilt_microdeg: 0,
                    },
                    seeded_elements(671_193_628, 9_402_884, 470_000, 468_899_300,
                        350_526_057),
                    270_000_000,
                )
            );
            assert(has_key(self.entries(), HANDLE_GANYMEDE));
            assert(
                seeded_entry(
                    entry_of(self.entries(), HANDLE_GANYMEDE),
                    HANDLE_JUPITER,
                    Body {
                        mass_kg: 148_000_000_000_000_000_000_000,
                        radius_equator_m: 2_634_000,
                        radius_polar_m: 2_634_000,
                        axial_tilt_microdeg: 0,
                    },
                    seeded_elements(1_070_615_470, 1_587_629, 200_000, 621_291_691,
                        341_695_992),
                    270_000_000,
                )
            );
            assert(has_key(self.entries(), HANDLE_CALLISTO));
            assert(
                seeded_entry(
                    entry_of(self.entries(), HANDLE_CALLISTO),
                    HANDLE_JUPITER,
                    Body {
                        mass_kg: 107_593_800_000_000_000_000_000,
                        radius_equator_m: 2_410_300,
                        radius_polar_m: 2_410_300,
                        axial_tilt_microdeg: 0,
                    },
                    seeded_elements(1_882_700_000, 7_400_000, 192_000, 698_808_358,
                        339_482_965),
                    839_975_751,
                )
            );
            assert(has_key(self.entries(), HANDLE_AMALTHEA));
            assert(
                seeded_entry(
                    entry_of(self.entries(), HANDLE_AMALTHEA),
                    HANDLE_JUPITER,
                    Body {
                        mass_kg: 2_080_000_000_000_000_000,
                        radius_equator_m: 83_500,
                        radius_polar_m: 83_500,
                        axial_tilt_microdeg: 0,
                    },
                    seeded_elements(181_365_840, 441_428, 374_000, 414_339_943,
                        342_032_315),
                    270_000_000,
                )
            );
            assert(has_key(self.entries(), HANDLE_HIMALIA));
            assert(
                seeded_entry(
                    entry_of(self.entries(), HANDLE_HIMALIA),
                    HANDLE_JUPITER,
                    Body {
                        mass_kg: 9_560_000_000_000_000_000,
                        radius_equator_m: 93_150,
                        radius_polar_m: 93_150,
                        axial_tilt_microdeg: 0,
                    },
                    seeded_elements(11_394_679_431, 148_020_288, 28_100_000, 405_592_890,
                        57_786_525),
                    270_000_000,
                )
            );
            assert(has_key(self.entries(), HANDLE_ELARA));
            assert(
                seeded_entry(
                    entry_of(self.entries(), HANDLE_ELARA),
                    HANDLE_JUPITER,
                    Body {
                        mass_kg: 777_000_000_000_000_000,
                        radius_equator_m: 38_500,
                        radius_polar_m: 38_500,
                        axial_tilt_microdeg: 0,
                    },
                    seeded_elements(11_724_775_187, 196_015_925, 27_900_000, 254_812_870,
                        104_680_792),
                    270_000_000,
                )
            );
            assert(has_key(self.entries(), HANDLE_PASIPHAE));
            assert(
                seeded_entry(
                    entry_of(self.entries(), HANDLE_PASIPHAE),
                    HANDLE_JUPITER,
                    Body {
                        mass_kg: 191_000_000_000_000_000,
                        radius_equator_m: 25_700,
                        radius_polar_m: 25_700,
                        axial_tilt_microdeg: 0,
                    },
                    seeded_elements(23_398_199_225, 369_532_583, 148_400_000, 529_781_057,
                        333_722_656),
                    270_000_000,
                )
            );
            assert(has_key(self.entries(), HANDLE_SINOPE));
            assert(
                seeded_entry(
                    entry_of(self.entries(), HANDLE_SINOPE),
                    HANDLE_JUPITER,
                    Body {
                        mass_kg: 77_700_000_000_000_000,
                        radius_equator_m: 18_100,
                        radius_polar_m: 18_100,
                        axial_tilt_microdeg: 0,
                    },
                    seeded_elements(23_731_586_385, 286_212_248, 157_300_000, 330_014_714,
                        326_138_400),
                    578_187_135,
                )
            );
            assert(has_key(self.entries(), HANDLE_LYSITHEA));
            assert(
                seeded_entry(
                    entry_of(self.entries(), HANDLE_LYSITHEA),
                    HANDLE_JUPITER,
                    Body {
                        mass_kg: 77_700_000_000_000_000,
                        radius_equator_m: 18_200,
                        radius_polar_m: 18_200,
                        axial_tilt_microdeg: 0,
                    },
                    seeded_elements(11_681_680_564, 133_982_901, 27_200_000, 64_872_621,
                        1_252_118),
                    158_993_906,
                )
            );
            assert(has_key(self.entries(), HANDLE_CARME));
            assert(
                seeded_entry(
                    entry_of(self.entries(), HANDLE_CARME),
                    HANDLE_JUPITER,
                    Body {
                        mass_kg: 95_600_000_000_000_000,
                        radius_equator_m: 39_200,
                        radius_polar_m: 39_200,
                        axial_tilt_microdeg: 0,
                    },
                    seeded_elements(22_846_253_568, 222_748_653, 164_300_000, 199_239_805,
                        143_056_427),
                    545_059_221,
                )
            );
            assert(has_key(self.entries(), HANDLE_ANANKE));
            assert(
                seeded_entry(
                    entry_of(self.entries(), HANDLE_ANANKE),
                    HANDLE_JUPITER,
                    Body {
                        mass_kg: 38_200_000_000_000_000,
                        radius_equator_m: 14_900,
                        radius_polar_m: 14_900,
                        axial_tilt_microdeg: 0,
                    },
                    seeded_elements(21_178_519_961, 360_749_649, 147_600_000, 131_881_909,
                        39_194_106),
                    365_178_243,
                )
            );
            assert(has_key(self.entries(), HANDLE_LEDA));
            assert(
                seeded_entry(
                    entry_of(self.entries(), HANDLE_LEDA),
                    HANDLE_JUPITER,
                    Body {
                        mass_kg: 5_680_000_000_000_000,
                        radius_equator_m: 21_500,
                        radius_polar_m: 21_500,
                        axial_tilt_microdeg: 0,
                    },
                    seeded_elements(11_195_980_000, 360_749_649, 28_600_000, 312_929_650,
                        190_184_970),
                    137_025_710,
                )
            );
        }
    }

    /// First block of the Saturn system: Saturn, Mimas, Enceladus, Tethys, Dione, Rhea.
    #[verifier::rlimit(100)]
    fn add_saturn_first_block(&mut self)
        requires
            old(self).wf(),
            old(self).entries().len() + 6 <= ENTRY_MAX,
            has_key(old(self).entries(), HANDLE_SOL),
            !has_key(old(self).entries(), HANDLE_SATURN),
            !has_key(old(self).entries(), HANDLE_MIMAS),
            !has_key(old(self).entries(), HANDLE_ENCELADUS),
            !has_key(old(self).entries(), HANDLE_TETHYS),
            !has_key(old(self).entries(), HANDLE_DIONE),
            !has_key(old(self).entries(), HANDLE_RHEA),
        ensures
            final(self).wf(),
            final(self).entries().len() == old(self).entries().len() + 6,
            forall|h: u64|
                has_key(final(self).entries(), h) == (has_key(
                    old(self).entries(),
                    h,
                ) || h == HANDLE_SATURN || h == HANDLE_MIMAS || h == HANDLE_ENCELADUS || h == HANDLE_TETHYS || h == HANDLE_DIONE || h == HANDLE_RHEA),
            forall|h: u64|
                has_key(old(self).entries(), h) ==> #[trigger] entry_of(
                    final(self).entries(),
                    h,
                ) == entry_of(old(self).entries(), h),
            seeded_entry(
                entry_of(final(self).entries(), HANDLE_SATURN),
                HANDLE_SOL,
                Body {
                    mass_kg: 568_340_000_000_000_000_000_000_000,
                    radius_equator_m: 60_268_000,
                    radius_polar_m: 54_364_000,
                    axial_tilt_microdeg: 26_730_000,
                },
                seeded_elements(1_433_536_555_769, 56_500_000, 2_485_000, 339_392_000,
                    113_665_000),
                317_020_000,
            ),
            seeded_entry(
                entry_of(final(self).entries(), HANDLE_MIMAS),
                HANDLE_SATURN,
                Body {
                    mass_kg: 38_000_000_000_000_000_000,
                    radius_equator_m: 196_000,
                    radius_polar_m: 196_000,
                    axial_tilt_microdeg: 0,
                },
                seeded_elements(186_037_830, 21_513_348, 1_600_000, 449_370_429,
                    167_307_082),
                772_976_419,
            ),
            seeded_entry(
                entry_of(final(self).entries(), HANDLE_ENCELADUS),
                HANDLE_SATURN,
                Body {
                    mass_kg: 73_000_000_000_000_000_000,
                    radius_equator_m: 249_000,
                    radius_polar_m: 249_000,
                    axial_tilt_microdeg: 0,
                },
                seeded_elements(238_408_052, 372_459, 0, 264_678_197,
                    169_520_486),
                384_119_889,
            ),
            seeded_entry(
                entry_of(final(self).entries(), HANDLE_TETHYS),
                HANDLE_SATURN,
                Body {
                    mass_kg: 622_000_000_000_000_000_000,
                    radius_equator_m: 530_000,
                    radius_polar_m: 530_000,
                    axial_tilt_microdeg: 0,
                },
                seeded_elements(294_982_634, 1_075_326, 1_100_000, 496_824_627,
                    169_153_256),
                502_612_336,
            ),
            seeded_entry(
                entry_of(final(self).entries(), HANDLE_DIONE),
                HANDLE_SATURN,
                Body {
                    mass_kg: 1_050_000_000_000_000_000_000,
                    radius_equator_m: 560_000,
                    radius_polar_m: 560_000,
                    axial_tilt_microdeg: 0,
                },
                seeded_elements(377_653_774, 2_731_840, 0, 5_080_259_012,
                    169_572_308),
                856_824_114,
            ),
            seeded_entry(
                entry_of(final(self).entries(), HANDLE_RHEA),
                HANDLE_SATURN,
                Body {
                    mass_kg: 2_490_000_000_000_000_000_000,
                    radius_equator_m: 764_000,
                    radius_polar_m: 764_000,
                    axial_tilt_microdeg: 0,
                },
                seeded_elements(527_225_476, 909_561, 300_000, 360_969_247,
                    168_807_983),
                448_734_226,
            ),
    {
        let info = Body::new(568_340_000_000_000_000_000_000_000, 60_268_000, 54_364_000, 26_730_000);
        let orbit = OrbitalElements::default().with_semimajor_axis_m(
            1_433_536_555_769,
        ).with_eccentricity(56_500_000).with_inclination_deg(
            2_485_000,
        ).with_arg_of_periapsis_deg(339_392_000).with_long_of_ascending_node_deg(
            113_665_000,
        );
        let entry = DatabaseEntry::new(info, "Saturn".to_string()).with_parent(
            HANDLE_SOL,
            orbit,
        ).with_mean_anomaly_deg(317_020_000);
        let ghost before = self.entries();
        let ghost pair = (HANDLE_SATURN, entry);
        self.add_entry(HANDLE_SATURN, entry);
        proof {
            assert forall|h: u64|
                has_key(self.entries(), h) == (has_key(before, h) || h == HANDLE_SATURN) by {
                lemma_has_key_push(before, pair, h);
            }
            assert forall|h: u64| has_key(before, h) implies #[trigger] entry_of(
                self.entries(),
                h,
            ) == entry_of(before, h) by {
                lemma_entry_of_push(before, pair, h);
            }
            reveal(seeded_elements);
            reveal(seeded_entry);
            lemma_key_index_unique(self.entries(), HANDLE_SATURN, before.len() as int);
            assert(
                seeded_entry(
                    entry_of(self.entries(), HANDLE_SATURN),
                    HANDLE_SOL,
                    Body {
                        mass_kg: 568_340_000_000_000_000_000_000_000,
                        radius_equator_m: 60_268_000,
                        radius_polar_m: 54_364_000,
                        axial_tilt_microdeg: 26_730_000,
                    },
                    seeded_elements(1_433_536_555_769, 56_500_000, 2_485_000, 339_392_000,
                        113_665_000),
                    317_020_000,
                )
            );
        }
        let info = Body::new(38_000_000_000_000_000_000, 196_000, 196_000, 0);
        let orbit = OrbitalElements::default().with_semimajor_axis_m(
            186_037_830,
        ).with_eccentricity(21_513_348).with_inclination_deg(
            1_600_000,
        ).with_arg_of_periapsis_deg(449_370_429).with_long_of_ascending_node_deg(
            167_307_082,
        );
        let entry = DatabaseEntry::new(info, "Mimas".to_string()).with_parent(
            HANDLE_SATURN,
            orbit,
        ).with_mean_anomaly_deg(772_976_419);
        let ghost before = self.entries();
        let ghost pair = (HANDLE_MIMAS, entry);
        self.add_entry(HANDLE_MIMAS, entry);
        proof {
            assert forall|h: u64|
                has_key(self.entries(), h) == (has_key(before, h) || h == HANDLE_MIMAS) by {
                lemma_has_key_push(before, pair, h);
            }
            assert forall|h: u64| has_key(before, h) implies #[trigger] entry_of(
                self.entries(),
                h,
            ) == entry_of(before, h) by {
                lemma_entry_of_push(before, pair, h);
            }
            reveal(seeded_elements);
            reveal(seeded_entry);
            lemma_key_index_unique(self.entries(), HANDLE_MIMAS, before.len() as int);
            assert(
                seeded_entry(
                    entry_of(self.entries(), HANDLE_MIMAS),
                    HANDLE_SATURN,
                    Body {
                        mass_kg: 38_000_000_000_000_000_000,
                        radius_equator_m: 196_000,
                        radius_polar_m: 196_000,
                        axial_tilt_microdeg: 0,
                    },
                    seeded_elements(186_037_830, 21_513_348, 1_600_000, 449_370_429,
                        167_307_082),
                    772_976_419,
                )
            );
        }
        let info = Body::new(73_000_000_000_000_000_000, 249_000, 249_000, 0);
        let orbit = OrbitalElements::default().with_semimajor_axis_m(
            238_408_052,
        ).with_eccentricity(372_459).with_inclination_deg(
            0,
        ).with_arg_of_periapsis_deg(264_678_197).with_long_of_ascending_node_deg(
            169_520_486,
        );
        let entry = DatabaseEntry::new(info, "Enceladus".to_string()).with_parent(
            HANDLE_SATURN,
            orbit,
        ).with_mean_anomaly_deg(384_119_889);
        let ghost before = self.entries();
        let ghost pair = (HANDLE_ENCELADUS, entry);
        self.add_entry(HANDLE_ENCELADUS, entry);
        proof {
            assert forall|h: u64|
                has_key(self.entries(), h) == (has_key(before, h) || h == HANDLE_ENCELADUS) by {
                lemma_has_key_push(before, pair, h);
            }
            assert forall|h: u64| has_key(before, h) implies #[trigger] entry_of(
                self.entries(),
                h,
            ) == entry_of(before, h) by {
                lemma_entry_of_push(before, pair, h);
            }
            reveal(seeded_elements);
            reveal(seeded_entry);
            lemma_key_index_unique(self.entries(), HANDLE_ENCELADUS, before.len() as int);
            assert(
                seeded_entry(
                    entry_of(self.entries(), HANDLE_ENCELADUS),
                    HANDLE_SATURN,
                    Body {
                        mass_kg: 73_000_000_000_000_000_000,
                        radius_equator_m: 249_000,
                        radius_polar_m: 249_000,
                        axial_tilt_microdeg: 0,
                    },
                    seeded_elements(238_408_052, 372_459, 0, 264_678_197,
                        169_520_486),
                    384_119_889,
                )
            );
        }
        let info = Body::new(622_000_000_000_000_000_000, 530_000, 530_000, 0);
        let orbit = OrbitalElements::default().with_semimajor_axis_m(
            294_982_634,
        ).with_eccentricity(1_075_326).with_inclination_deg(
            1_100_000,
        ).with_arg_of_periapsis_deg(496_824_627).with_long_of_ascending_node_deg(
            169_153_256,
        );
        let entry = DatabaseEntry::new(info, "Tethys".to_string()).with_parent(
            HANDLE_SATURN,
            orbit,
        ).with_mean_anomaly_deg(502_612_336);
        let ghost before = self.entries();
        let ghost pair = (HANDLE_TETHYS, entry);
        self.add_entry(HANDLE_TETHYS, entry);
        proof {
            assert forall|h: u64|
                has_key(self.entries(), h) == (has_key(before, h) || h == HANDLE_TETHYS) by {
                lemma_has_key_push(before, pair, h);
            }
            assert forall|h: u64| has_key(before, h) implies #[trigger] entry_of(
                self.entries(),
                h,
            ) == entry_of(before, h) by {
                lemma_entry_of_push(before, pair, h);
            }
            reveal(seeded_elements);
            reveal(seeded_entry);
            lemma_key_index_unique(self.entries(), HANDLE_TETHYS, before.len() as int);
            assert(
                seeded_entry(
                    entry_of(self.entries(), HANDLE_TETHYS),
                    HANDLE_SATURN,
                    Body {
                        mass_kg: 622_000_000_000_000_000_000,
                        radius_equator_m: 530_000,
                        radius_polar_m: 530_000,
                        axial_tilt_microdeg: 0,
                    },
                    seeded_elements(294_982_634, 1_075_326, 1_100_000, 496_824_627,
                        169_153_256),
                    502_612_336,
                )
            );
        }
        let info = Body::new(1_050_000_000_000_000_000_000, 560_000, 560_000, 0);
        let orbit = OrbitalElements::default().with_semimajor_axis_m(
            377_653_774,
        ).with_eccentricity(2_731_840).with_inclination_deg(
            0,
        ).with_arg_of_periapsis_deg(5_080_259_012).with_long_of_ascending_node_deg(
            169_572_308,
        );
        let entry = DatabaseEntry::new(info, "Dione".to_string()).with_parent(
            HANDLE_SATURN,
            orbit,
        ).with_mean_anomaly_deg(856_824_114);
        let ghost before = self.entries();
        let ghost pair = (HANDLE_DIONE, entry);
        self.add_entry(HANDLE_DIONE, entry);
        proof {
            assert forall|h: u64|
                has_key(self.entries(), h) == (has_key(before, h) || h == HANDLE_DIONE) by {
                lemma_has_key_push(before, pair, h);
            }
            assert forall|h: u64| has_key(before, h) implies #[trigger] entry_of(
                self.entries(),
                h,
            ) == entry_of(before, h) by {
                lemma_entry_of_push(before, pair, h);
            }
            reveal(seeded_elements);
            reveal(seeded_entry);
            lemma_key_index_unique(self.entries(), HANDLE_DIONE, before.len() as int);
            assert(
                seeded_entry(
                    entry_of(self.entries(), HANDLE_DIONE),
                    HANDLE_SATURN,
                    Body {
                        mass_kg: 1_050_000_000_000_000_000_000,
                        radius_equator_m: 560_000,
                        radius_polar_m: 560_000,
                        axial_tilt_microdeg: 0,
                    },
                    seeded_elements(377_653_774, 2_731_840, 0, 5_080_259_012,
                        169_572_308),
                    856_824_114,
                )
            );
        }
        let info = Body::new(2_490_000_000_000_000_000_000, 764_000, 764_000, 0);
        let orbit = OrbitalElements::default().with_semimajor_axis_m(
            527_225_476,
        ).with_eccentricity(909_561).with_inclination_deg(
            300_000,
        ).with_arg_of_periapsis_deg(360_969_247).with_long_of_ascending_node_deg(
            168_807_983,
        );
        let entry = DatabaseEntry::new(info, "Rhea".to_string()).with_parent(
            HANDLE_SATURN,
            orbit,
        ).with_mean_anomaly_deg(448_734_226);
        let ghost before = self.entries();
        let ghost pair = (HANDLE_RHEA, entry);
        self.add_entry(HANDLE_RHEA, entry);
        proof {
            assert forall|h: u64|
                has_key(self.entries(), h) == (has_key(before, h) || h == HANDLE_RHEA) by {
                lemma_has_key_push(before, pair, h);
            }
            assert forall|h: u64| has_key(before, h) implies #[trigger] entry_of(
                self.entries(),
                h,
            ) == entry_of(before, h) by {
                lemma_entry_of_push(before, pair, h);
            }
            reveal(seeded_elements);
            reveal(seeded_entry);
            lemma_key_index_unique(self.entries(), HANDLE_RHEA, before.len() as int);
            assert(
                seeded_entry(
                    entry_of(self.entries(), HANDLE_RHEA),
                    HANDLE_SATURN,
                    Body {
                        mass_kg: 2_490_000_000_000_000_000_000,
                        radius_equator_m: 764_000,
                        radius_polar_m: 764_000,
                        axial_tilt_microdeg: 0,
                    },
                    seeded_elements(527_225_476, 909_561, 300_000, 360_969_247,
                        168_807_983),
                    448_734_226,
                )
            );
        }
    }

    /// Second block of the Saturn system: Titan, Hyperion, Iapetus, Phoebe, Janus.
    #[verifier::rlimit(100)]
    fn add_saturn_second_block(&mut self)
        requires
            old(self).wf(),
            old(self).entries().len() + 5 <= ENTRY_MAX,
            has_key(old(self).entries(), HANDLE_SATURN),
            !has_key(old(self).entries(), HANDLE_TITAN),
            !has_key(old(self).entries(), HANDLE_HYPERION),
            !has_key(old(self).entries(), HANDLE_IAPETUS),
            !has_key(old(self).entries(), HANDLE_PHOEBE),
            !has_key(old(self).entries(), HANDLE_JANUS),
        ensures
            final(self).wf(),
            final(self).entries().len() == old(self).entries().len() + 5,
            forall|h: u64|
                has_key(final(self).entries(), h) == (has_key(
                    old(self).entries(),
                    h,
                ) || h == HANDLE_TITAN || h == HANDLE_HYPERION || h == HANDLE_IAPETUS || h == HANDLE_PHOEBE || h == HANDLE_JANUS),
            forall|h: u64|
                has_key(old(self).entries(), h) ==> #[trigger] entry_of(
                    final(self).entries(),
                    h,
                ) == entry_of(old(self).entries(), h),
            seeded_entry(
                entry_of(final(self).entries(), HANDLE_TITAN),
                HANDLE_SATURN,
                Body {
                    mass_kg: 135_000_000_000_000_000_000_000,
                    radius_equator_m: 2_575_000,
                    radius_polar_m: 2_575_000,
                    axial_tilt_microdeg: 0,
                },
                seeded_elements(1_221_971_852, 28_645_563, 300_000, 336_249_138,
                    169_142_780),
                143_054_244,
            ),
            seeded_entry(
                entry_of(final(self).entries(), HANDLE_HYPERION),
                HANDLE_SATURN,
                Body {
                    mass_kg: 17_700_000_000_000_000_000,
                    radius_equator_m: 143_000,
                    radius_polar_m: 143_000,
                    axial_tilt_microdeg: 0,
                },
                seeded_elements(1_447_200_000, 75_700_000, 600_000, 182_895_000,
                    168_900_000),
                301_600_000,
            ),
            seeded_entry(
                entry_of(final(self).entries(), HANDLE_IAPETUS),
                HANDLE_SATURN,
                Body {
                    mass_kg: 16_000_000_000_000_000_000_000,
                    radius_equator_m: 730_000,
                    radius_polar_m: 730_000,
                    axial_tilt_microdeg: 0,
                },
                seeded_elements(3_563_513_670, 27_406_715, 7_600_000, 369_297_405,
                    139_318_255),
                551_098_555,
            ),
            seeded_entry(
                entry_of(final(self).entries(), HANDLE_PHOEBE),
                HANDLE_SATURN,
                Body {
                    mass_kg: 7_800_000_000_000_000,
                    radius_equator_m: 3_000,
                    radius_polar_m: 3_000,
                    axial_tilt_microdeg: 0,
                },
                seeded_elements(12_995_759_988, 15_614, 175_200_000, 104_242_486,
                    208_626_701),
                108_701_283,
            ),
            seeded_entry(
                entry_of(final(self).entries(), HANDLE_JANUS),
                HANDLE_SATURN,
                Body {
                    mass_kg: 7_000_000_000_000_000,
                    radius_equator_m: 3_000,
                    radius_polar_m: 3_000,
                    axial_tilt_microdeg: 0,
                },
                seeded_elements(151_460_988, 14, 200_000, 104_242_486,
                    208_626_701),
                108_701_283,
            ),
    {
        let info = Body::new(135_000_000_000_000_000_000_000, 2_575_000, 2_575_000, 0);
        let orbit = OrbitalElements::default().with_semimajor_axis_m(
            1_221_971_852,
        ).with_eccentricity(28_645_563).with_inclination_deg(
            300_000,
        ).with_arg_of_periapsis_deg(336_249_138).with_long_of_ascending_node_deg(
            169_142_780,
        );
        let entry = DatabaseEntry::new(info, "Titan".to_string()).with_parent(
            HANDLE_SATURN,
            orbit,
        ).with_mean_anomaly_deg(143_054_244);
        let ghost before = self.entries();
        let ghost pair = (HANDLE_TITAN, entry);
        self.add_entry(HANDLE_TITAN, entry);
        proof {
            assert forall|h: u64|
                has_key(self.entries(), h) == (has_key(before, h) || h == HANDLE_TITAN) by {
                lemma_has_key_push(before, pair, h);
            }
            assert forall|h: u64| has_key(before, h) implies #[trigger] entry_of(
                self.entries(),
                h,
            ) == entry_of(before, h) by {
                lemma_entry_of_push(before, pair, h);
            }
            reveal(seeded_elements);
            reveal(seeded_entry);
            lemma_key_index_unique(self.entries(), HANDLE_TITAN, before.len() as int);
            assert(
                seeded_entry(
                    entry_of(self.entries(), HANDLE_TITAN),
                    HANDLE_SATURN,
                    Body {
                        mass_kg: 135_000_000_000_000_000_000_000,
                        radius_equator_m: 2_575_000,
                        radius_polar_m: 2_575_000,
                        axial_tilt_microdeg: 0,
                    },
                    seeded_elements(1_221_971_852, 28_645_563, 300_000, 336_249_138,
                        169_142_780),
                    143_054_244,
                )
            );
        }
        let info = Body::new(17_700_000_000_000_000_000, 143_000, 143_000, 0);
        let orbit = OrbitalElements::default().with_semimajor_axis_m(
            1_447_200_000,
        ).with_eccentricity(75_700_000).with_inclination_deg(
            600_000,
        ).with_arg_of_periapsis_deg(182_895_000).with_long_of_ascending_node_deg(
            168_900_000,
        );
        let entry = DatabaseEntry::new(info, "Hyperion".to_string()).with_parent(
            HANDLE_SATURN,
            orbit,
        ).with_mean_anomaly_deg(301_600_000);
        let ghost before = self.entries();
        let ghost pair = (HANDLE_HYPERION, entry);
        self.add_entry(HANDLE_HYPERION, entry);
        proof {
            assert forall|h: u64|
                has_key(self.entries(), h) == (has_key(before, h) || h == HANDLE_HYPERION) by {
                lemma_has_key_push(before, pair, h);
            }
            assert forall|h: u64| has_key(before, h) implies #[trigger] entry_of(
                self.entries(),
                h,
            ) == entry_of(before, h) by {
                lemma_entry_of_push(before, pair, h);
            }
            reveal(seeded_elements);
            reveal(seeded_entry);
            lemma_key_index_unique(self.entries(), HANDLE_HYPERION, before.len() as int);
            assert(
                seeded_entry(
                    entry_of(self.entries(), HANDLE_HYPERION),
                    HANDLE_SATURN,
                    Body {
                        mass_kg: 17_700_000_000_000_000_000,
                        radius_equator_m: 143_000,
                        radius_polar_m: 143_000,
                        axial_tilt_microdeg: 0,
                    },
                    seeded_elements(1_447_200_000, 75_700_000, 600_000, 182_895_000,
                        168_900_000),
                    301_600_000,
                )
            );
        }
        let info = Body::new(16_000_000_000_000_000_000_000, 730_000, 730_000, 0);
        let orbit = OrbitalElements::default().with_semimajor_axis_m(
            3_563_513_670,
        ).with_eccentricity(27_406_715).with_inclination_deg(
            7_600_000,
        ).with_arg_of_periapsis_deg(369_297_405).with_long_of_ascending_node_deg(
            139_318_255,
        );
        let entry = DatabaseEntry::new(info, "Iapetus".to_string()).with_parent(
            HANDLE_SATURN,
            orbit,
        ).with_mean_anomaly_deg(551_098_555);
        let ghost before = self.entries();
        let ghost pair = (HANDLE_IAPETUS, entry);
        self.add_entry(HANDLE_IAPETUS, entry);
        proof {
            assert forall|h: u64|
                has_key(self.entries(), h) == (has_key(before, h) || h == HANDLE_IAPETUS) by {
                lemma_has_key_push(before, pair, h);
            }
            assert forall|h: u64| has_key(before, h) implies #[trigger] entry_of(
                self.entries(),
                h,
            ) == entry_of(before, h) by {
                lemma_entry_of_push(before, pair, h);
            }
            reveal(seeded_elements);
            reveal(seeded_entry);
            lemma_key_index_unique(self.entries(), HANDLE_IAPETUS, before.len() as int);
            assert(
                seeded_entry(
                    entry_of(self.entries(), HANDLE_IAPETUS),
                    HANDLE_SATURN,
                    Body {
                        mass_kg: 16_000_000_000_000_000_000_000,
                        radius_equator_m: 730_000,
                        radius_polar_m: 730_000,
                        axial_tilt_microdeg: 0,
                    },
                    seeded_elements(3_563_513_670, 27_406_715, 7_600_000, 369_297_405,
                        139_318_255),
                    551_098_555,
                )
            );
        }
        let info = Body::new(7_800_000_000_000_000, 3_000, 3_000, 0);
        let orbit = OrbitalElements::default().with_semimajor_axis_m(
            12_995_759_988,
        ).with_eccentricity(15_614).with_inclination_deg(
            175_200_000,
        ).with_arg_of_periapsis_deg(104_242_486).with_long_of_ascending_node_deg(
            208_626_701,
        );
        let entry = DatabaseEntry::new(info, "Phoebe".to_string()).with_parent(
            HANDLE_SATURN,
            orbit,
        ).with_mean_anomaly_deg(108_701_283);
        let ghost before = self.entries();
        let ghost pair = (HANDLE_PHOEBE, entry);
        self.add_entry(HANDLE_PHOEBE, entry);
        proof {
            assert forall|h: u64|
                has_key(self.entries(), h) == (has_key(before, h) || h == HANDLE_PHOEBE) by {
                lemma_has_key_push(before, pair, h);
            }
            assert forall|h: u64| has_key(before, h) implies #[trigger] entry_of(
                self.entries(),
                h,
            ) == entry_of(before, h) by {
                lemma_entry_of_push(before, pair, h);
            }
            reveal(seeded_elements);
            reveal(seeded_entry);
            lemma_key_index_unique(self.entries(), HANDLE_PHOEBE, before.len() as int);
            assert(
                seeded_entry(
                    entry_of(self.entries(), HANDLE_PHOEBE),
                    HANDLE_SATURN,
                    Body {
                        mass_kg: 7_800_000_000_000_000,
                        radius_equator_m: 3_000,
                        radius_polar_m: 3_000,
                        axial_tilt_microdeg: 0,
                    },
                    seeded_elements(12_995_759_988, 15_614, 175_200_000, 104_242_486,
                        208_626_701),
                    108_701_283,
                )
            );
        }
        let info = Body::new(7_000_000_000_000_000, 3_000, 3_000, 0);
        let orbit = OrbitalElements::default().with_semimajor_axis_m(
            151_460_988,
        ).with_eccentricity(14).with_inclination_deg(
            200_000,
        ).with_arg_of_periapsis_deg(104_242_486).with_long_of_ascending_node_deg(
            208_626_701,
        );
        let entry = DatabaseEntry::new(info, "Janus".to_string()).with_parent(
            HANDLE_SATURN,
            orbit,
        ).with_mean_anomaly_deg(108_701_283);
        let ghost before = self.entries();
        let ghost pair = (HANDLE_JANUS, entry);
        self.add_entry(HANDLE_JANUS, entry);
        proof {
            assert forall|h: u64|
                has_key(self.entries(), h) == (has_key(before, h) || h == HANDLE_JANUS) by {
                lemma_has_key_push(before, pair, h);
            }
            assert forall|h: u64| has_key(before, h) implies #[trigger] entry_of(
                self.entries(),
                h,
            ) == entry_of(before, h) by {
                lemma_entry_of_push(before, pair, h);
            }
            reveal(seeded_elements);
            reveal(seeded_entry);
            lemma_key_index_unique(self.entries(), HANDLE_JANUS, before.len() as int);
            assert(
                seeded_entry(
                    entry_of(self.entries(), HANDLE_JANUS),
                    HANDLE_SATURN,
                    Body {
                        mass_kg: 7_000_000_000_000_000,
                        radius_equator_m: 3_000,
                        radius_polar_m: 3_000,
                        axial_tilt_microdeg: 0,
                    },
                    seeded_elements(151_460_988, 14, 200_000, 104_242_486,
                        208_626_701),
                    108_701_283,
                )
            );
        }
    }

    /// Adds the planet Saturn and a selection of its moons to the database.
    #[verifier::rlimit(100)]
    pub fn add_saturn(&mut self)
        requires
            old(self).wf(),
            old(self).entries().len() + 11 <= ENTRY_MAX,
            has_key(old(self).entries(), HANDLE_SOL),
            !has_key(old(self).entries(), HANDLE_SATURN),
            !has_key(old(self).entries(), HANDLE_MIMAS),
            !has_key(old(self).entries(), HANDLE_ENCELADUS),
            !has_key(old(self).entries(), HANDLE_TETHYS),
            !has_key(old(self).entries(), HANDLE_DIONE),
            !has_key(old(self).entries(), HANDLE_RHEA),
            !has_key(old(self).entries(), HANDLE_TITAN),
            !has_key(old(self).entries(), HANDLE_HYPERION),
            !has_key(old(self).entries(), HANDLE_IAPETUS),
            !has_key(old(self).entries(), HANDLE_PHOEBE),
            !has_key(old(self).entries(), HANDLE_JANUS),
        ensures
            final(self).wf(),
            final(self).entries().len() == old(self).entries().len() + 11,
            forall|h: u64|
                has_key(final(self).entries(), h) == (has_key(
                    old(self).entries(),
                    h,
                ) || h == HANDLE_SATURN || h == HANDLE_MIMAS || h == HANDLE_ENCELADUS || h == HANDLE_TETHYS || h == HANDLE_DIONE || h == HANDLE_RHEA || h == HANDLE_TITAN || h == HANDLE_HYPERION || h == HANDLE_IAPETUS || h == HANDLE_PHOEBE || h == HANDLE_JANUS),
            forall|h: u64|
                has_key(old(self).entries(), h) ==> #[trigger] entry_of(
                    final(self).entries(),
                    h,
                ) == entry_of(old(self).entries(), h),
            seeded_entry(
                entry_of(final(self).entries(), HANDLE_SATURN),
                HANDLE_SOL,
                Body {
                    mass_kg: 568_340_000_000_000_000_000_000_000,
                    radius_equator_m: 60_268_000,
                    radius_polar_m: 54_364_000,
                    axial_tilt_microdeg: 26_730_000,
                },
                seeded_elements(1_433_536_555_769, 56_500_000, 2_485_000, 339_392_000,
                    113_665_000),
                317_020_000,
            ),
            seeded_entry(
                entry_of(final(self).entries(), HANDLE_MIMAS),
                HANDLE_SATURN,
                Body {
                    mass_kg: 38_000_000_000_000_000_000,
                    radius_equator_m: 196_000,
                    radius_polar_m: 196_000,
                    axial_tilt_microdeg: 0,
                },
                seeded_elements(186_037_830, 21_513_348, 1_600_000, 449_370_429,
                    167_307_082),
                772_976_419,
            ),
            seeded_entry(
                entry_of(final(self).entries(), HANDLE_ENCELADUS),
                HANDLE_SATURN,
                Body {
                    mass_kg: 73_000_000_000_000_000_000,
                    radius_equator_m: 249_000,
                    radius_polar_m: 249_000,
                    axial_tilt_microdeg: 0,
                },
                seeded_elements(238_408_052, 372_459, 0, 264_678_197,
                    169_520_486),
                384_119_889,
            ),
            seeded_entry(
                entry_of(final(self).entries(), HANDLE_TETHYS),
                HANDLE_SATURN,
                Body {
                    mass_kg: 622_000_000_000_000_000_000,
                    radius_equator_m: 530_000,
                    radius_polar_m: 530_000,
                    axial_tilt_microdeg: 0,
                },
                seeded_elements(294_982_634, 1_075_326, 1_100_000, 496_824_627,
                    169_153_256),
                502_612_336,
            ),
            seeded_entry(
                entry_of(final(self).entries(), HANDLE_DIONE),
                HANDLE_SATURN,
                Body {
                    mass_kg: 1_050_000_000_000_000_000_000,
                    radius_equator_m: 560_000,
                    radius_polar_m: 560_000,
                    axial_tilt_microdeg: 0,
                },
                seeded_elements(377_653_774, 2_731_840, 0, 5_080_259_012,
                    169_572_308),
                856_824_114,
            ),
            seeded_entry(
                entry_of(final(self).entries(), HANDLE_RHEA),
                HANDLE_SATURN,
                Body {
                    mass_kg: 2_490_000_000_000_000_000_000,
                    radius_equator_m: 764_000,
                    radius_polar_m: 764_000,
                    axial_tilt_microdeg: 0,
                },
                seeded_elements(527_225_476, 909_561, 300_000, 360_969_247,
                    168_807_983),
                448_734_226,
            ),
            seeded_entry(
                entry_of(final(self).entries(), HANDLE_TITAN),
                HANDLE_SATURN,
                Body {
                    mass_kg: 135_000_000_000_000_000_000_000,
                    radius_equator_m: 2_575_000,
                    radius_polar_m: 2_575_000,
                    axial_tilt_microdeg: 0,
                },
                seeded_elements(1_221_971_852, 28_645_563, 300_000, 336_249_138,
                    169_142_780),
                143_054_244,
            ),
            seeded_entry(
                entry_of(final(self).entries(), HANDLE_HYPERION),
                HANDLE_SATURN,
                Body {
                    mass_kg: 17_700_000_000_000_000_000,
                    radius_equator_m: 143_000,
                    radius_polar_m: 143_000,
                    axial_tilt_microdeg: 0,
                },
                seeded_elements(1_447_200_000, 75_700_000, 600_000, 182_895_000,
                    168_900_000),
                301_600_000,
            ),
            seeded_entry(
                entry_of(final(self).entries(), HANDLE_IAPETUS),
                HANDLE_SATURN,
                Body {
                    mass_kg: 16_000_000_000_000_000_000_000,
                    radius_equator_m: 730_000,
                    radius_polar_m: 730_000,
                    axial_tilt_microdeg: 0,
                },
                seeded_elements(3_563_513_670, 27_406_715, 7_600_000, 369_297_405,
                    139_318_255),
                551_098_555,
            ),
            seeded_entry(
                entry_of(final(self).entries(), HANDLE_PHOEBE),
                HANDLE_SATURN,
                Body {
                    mass_kg: 7_800_000_000_000_000,
                    radius_equator_m: 3_000,
                    radius_polar_m: 3_000,
                    axial_tilt_microdeg: 0,
                },
                seeded_elements(12_995_759_988, 15_614, 175_200_000, 104_242_486,
                    208_626_701),
                108_701_283,
            ),
            seeded_entry(
                entry_of(final(self).entries(), HANDLE_JANUS),
                HANDLE_SATURN,
                Body {
                    mass_kg: 7_000_000_000_000_000,
                    radius_equator_m: 3_000,
                    radius_polar_m: 3_000,
                    axial_tilt_microdeg: 0,
                },
                seeded_elements(151_460_988, 14, 200_000, 104_242_486,
                    208_626_701),
                108_701_283,
            ),
    {
        self.add_saturn_first_block();
        proof {
            assert(has_key(self.entries(), HANDLE_SATURN));
            assert(
                seeded_entry(
                    entry_of(self.entries(), HANDLE_SATURN),
                    HANDLE_SOL,
                    Body {
                        mass_kg: 568_340_000_000_000_000_000_000_000,
                        radius_equator_m: 60_268_000,
                        radius_polar_m: 54_364_000,
                        axial_tilt_microdeg: 26_730_000,
                    },
                    seeded_elements(1_433_536_555_769, 56_500_000, 2_485_000, 339_392_000,
                        113_665_000),
                    317_020_000,
                )
            );
            assert(has_key(self.entries(), HANDLE_MIMAS));
            assert(
                seeded_entry(
                    entry_of(self.entries(), HANDLE_MIMAS),
                    HANDLE_SATURN,
                    Body {
                        mass_kg: 38_000_000_000_000_000_000,
                        radius_equator_m: 196_000,
                        radius_polar_m: 196_000,
                        axial_tilt_microdeg: 0,
                    },
                    seeded_elements(186_037_830, 21_513_348, 1_600_000, 449_370_429,
                        167_307_082),
                    772_976_419,
                )
            );
            assert(has_key(self.entries(), HANDLE_ENCELADUS));
            assert(
                seeded_entry(
                    entry_of(self.entries(), HANDLE_ENCELADUS),
                    HANDLE_SATURN,
                    Body {
                        mass_kg: 73_000_000_000_000_000_000,
                        radius_equator_m: 249_000,
                        radius_polar_m: 249_000,
                        axial_tilt_microdeg: 0,
                    },
                    seeded_elements(238_408_052, 372_459, 0, 264_678_197,
                        169_520_486),
                    384_119_889,
                )
            );
            assert(has_key(self.entries(), HANDLE_TETHYS));
            assert(
                seeded_entry(
                    entry_of(self.entries(), HANDLE_TETHYS),
                    HANDLE_SATURN,
                    Body {
                        mass_kg: 622_000_000_000_000_000_000,
                        radius_equator_m: 530_000,
                        radius_polar_m: 530_000,
                        axial_tilt_microdeg: 0,
                    },
                    seeded_elements(294_982_634, 1_075_326, 1_100_000, 496_824_627,
                        169_153_256),
                    502_612_336,
                )
            );
            assert(has_key(self.entries(), HANDLE_DIONE));
            assert(
                seeded_entry(
                    entry_of(self.entries(), HANDLE_DIONE),
                    HANDLE_SATURN,
                    Body {
                        mass_kg: 1_050_000_000_000_000_000_000,
                        radius_equator_m: 560_000,
                        radius_polar_m: 560_000,
                        axial_tilt_microdeg: 0,
                    },
                    seeded_elements(377_653_774, 2_731_840, 0, 5_080_259_012,
                        169_572_308),
                    856_824_114,
                )
            );
            assert(has_key(self.entries(), HANDLE_RHEA));
            assert(
                seeded_entry(
                    entry_of(self.entries(), HANDLE_RHEA),
                    HANDLE_SATURN,
                    Body {
                        mass_kg: 2_490_000_000_000_000_000_000,
                        radius_equator_m: 764_000,
                        radius_polar_m: 764_000,
                        axial_tilt_microdeg: 0,
                    },
                    seeded_elements(527_225_476, 909_561, 300_000, 360_969_247,
                        168_807_983),
                    448_734_226,
                )
            );
        }
        self.add_saturn_second_block();
        proof {
            assert(has_key(self.entries(), HANDLE_SATURN));
            assert(
                seeded_entry(
                    entry_of(self.entries(), HANDLE_SATURN),
                    HANDLE_SOL,
                    Body {
                        mass_kg: 568_340_000_000_000_000_000_000_000,
                        radius_equator_m: 60_268_000,
                        radius_polar_m: 54_364_000,
                        axial_tilt_microdeg: 26_730_000,
                    },
                    seeded_elements(1_433_536_555_769, 56_500_000, 2_485_000, 339_392_000,
                        113_665_000),
                    317_020_000,
                )
            );
            assert(has_key(self.entries(), HANDLE_MIMAS));
            assert(
                seeded_entry(
                    entry_of(self.entries(), HANDLE_MIMAS),
                    HANDLE_SATURN,
                    Body {
                        mass_kg: 38_000_000_000_000_000_000,
                        radius_equator_m: 196_000,
                        radius_polar_m: 196_000,
                        axial_tilt_microdeg: 0,
                    },
                    seeded_elements(186_037_830, 21_513_348, 1_600_000, 449_370_429,
                        167_307_082),
                    772_976_419,
                )
            );
            assert(has_key(self.entries(), HANDLE_ENCELADUS));
            assert(
                seeded_entry(
                    entry_of(self.entries(), HANDLE_ENCELADUS),
                    HANDLE_SATURN,
                    Body {
                        mass_kg: 73_000_000_000_000_000_000,
                        radius_equator_m: 249_000,
                        radius_polar_m: 249_000,
                        axial_tilt_microdeg: 0,
                    },
                    seeded_elements(238_408_052, 372_459, 0, 264_678_197,
                        169_520_486),
                    384_119_889,
                )
            );
            assert(has_key(self.entries(), HANDLE_TETHYS));
            assert(
                seeded_entry(
                    entry_of(self.entries(), HANDLE_TETHYS),
                    HANDLE_SATURN,
                    Body {
                        mass_kg: 622_000_000_000_000_000_000,
                        radius_equator_m: 530_000,
                        radius_polar_m: 530_000,
                        axial_tilt_microdeg: 0,
                    },
                    seeded_elements(294_982_634, 1_075_326, 1_100_000, 496_824_627,
                        169_153_256),
                    502_612_336,
                )
            );
            assert(has_key(self.entries(), HANDLE_DIONE));
            assert(
                seeded_entry(
                    entry_of(self.entries(), HANDLE_DIONE),
                    HANDLE_SATURN,
                    Body {
                        mass_kg: 1_050_000_000_000_000_000_000,
                        radius_equator_m: 560_000,
                        radius_polar_m: 560_000,
                        axial_tilt_microdeg: 0,
                    },
                    seeded_elements(377_653_774, 2_731_840, 0, 5_080_259_012,
                        169_572_308),
                    856_824_114,
                )
            );
            assert(has_key(self.entries(), HANDLE_RHEA));
            assert(
                seeded_entry(
                    entry_of(self.entries(), HANDLE_RHEA),
                    HANDLE_SATURN,
                    Body {
                        mass_kg: 2_490_000_000_000_000_000_000,
                        radius_equator_m: 764_000,
                        radius_polar_m: 764_000,
                        axial_tilt_microdeg: 0,
                    },
                    seeded_elements(527_225_476, 909_561, 300_000, 360_969_247,
                        168_807_983),
                    448_734_226,
                )
            );
            assert(has_key(self.entries(), HANDLE_TITAN));
            assert(
                seeded_entry(
                    entry_of(self.entries(), HANDLE_TITAN),
                    HANDLE_SATURN,
                    Body {
                        mass_kg: 135_000_000_000_000_000_000_000,
                        radius_equator_m: 2_575_000,
                        radius_polar_m: 2_575_000,
                        axial_tilt_microdeg: 0,
                    },
                    seeded_elements(1_221_971_852, 28_645_563, 300_000, 336_249_138,
                        169_142_780),
                    143_054_244,
                )
            );
            assert(has_key(self.entries(), HANDLE_HYPERION));
            assert(
                seeded_entry(
                    entry_of(self.entries(), HANDLE_HYPERION),
                    HANDLE_SATURN,
                    Body {
                        mass_kg: 17_700_000_000_000_000_000,
                        radius_equator_m: 143_000,
                        radius_polar_m: 143_000,
                        axial_tilt_microdeg: 0,
                    },
                    seeded_elements(1_447_200_000, 75_700_000, 600_000, 182_895_000,
                        168_900_000),
                    301_600_000,
                )
            );
            assert(has_key(self.entries(), HANDLE_IAPETUS));
            assert(
                seeded_entry(
                    entry_of(self.entries(), HANDLE_IAPETUS),
                    HANDLE_SATURN,
                    Body {
                        mass_kg: 16_000_000_000_000_000_000_000,
                        radius_equator_m: 730_000,
                        radius_polar_m: 730_000,
                        axial_tilt_microdeg: 0,
                    },
                    seeded_elements(3_563_513_670, 27_406_715, 7_600_000, 369_297_405,
                        139_318_255),
                    551_098_555,
                )
            );
            assert(has_key(self.entries(), HANDLE_PHOEBE));
            assert(
                seeded_entry(
                    entry_of(self.entries(), HANDLE_PHOEBE),
                    HANDLE_SATURN,
                    Body {
                        mass_kg: 7_800_000_000_000_000,
                        radius_equator_m: 3_000,
                        radius_polar_m: 3_000,
                        axial_tilt_microdeg: 0,
                    },
                    seeded_elements(12_995_759_988, 15_614, 175_200_000, 104_242_486,
                        208_626_701),
                    108_701_283,
                )
            );
            assert(has_key(self.entries(), HANDLE_JANUS));
            assert(
                seeded_entry(
                    entry_of(self.entries(), HANDLE_JANUS),
                    HANDLE_SATURN,
                    Body {
                        mass_kg: 7_000_000_000_000_000,
                        radius_equator_m: 3_000,
                        radius_polar_m: 3_000,
                        axial_tilt_microdeg: 0,
                    },
                    seeded_elements(151_460_988, 14, 200_000, 104_242_486,
                        208_626_701),
                    108_701_283,
                )
            );
        }
    }

    /// Adds the planet Uranus and its five round moons to the database.
    #[verifier::rlimit(100)]
    pub fn add_uranus(&mut self)
        requires
            old(self).wf(),
            old(self).entries().len() + 6 <= ENTRY_MAX,
            has_key(old(self).entries(), HANDLE_SOL),
            !has_key(old(self).entries(), HANDLE_URANUS),
            !has_key(old(self).entries(), HANDLE_ARIEL),
            !has_key(old(self).entries(), HANDLE_UMBRIEL),
            !has_key(old(self).entries(), HANDLE_TITANIA),
            !has_key(old(self).entries(), HANDLE_OBERON),
            !has_key(old(self).entries(), HANDLE_MIRANDA),
        ensures
            final(self).wf(),
            final(self).entries().len() == old(self).entries().len() + 6,
            forall|h: u64|
                has_key(final(self).entries(), h) == (has_key(
                    old(self).entries(),
                    h,
                ) || h == HANDLE_URANUS || h == HANDLE_ARIEL || h == HANDLE_UMBRIEL || h == HANDLE_TITANIA || h == HANDLE_OBERON || h == HANDLE_MIRANDA),
            forall|h: u64|
                has_key(old(self).entries(), h) ==> #[trigger] entry_of(
                    final(self).entries(),
                    h,
                ) == entry_of(old(self).entries(), h),
            seeded_entry(
                entry_of(final(self).entries(), HANDLE_URANUS),
                HANDLE_SOL,
                Body {
                    mass_kg: 86_810_000_000_000_000_000_000_000,
                    radius_equator_m: 25_559_000,
                    radius_polar_m: 24_973_000,
                    axial_tilt_microdeg: 97_770_000,
                },
                seeded_elements(2_870_971_632_050, 47_170_000, 773_000, 96_998_857,
                    74_006_000),
                142_238_600,
            ),
            seeded_entry(
                entry_of(final(self).entries(), HANDLE_ARIEL),
                HANDLE_URANUS,
                Body {
                    mass_kg: 1_270_000_000_000_000_000_000,
                    radius_equator_m: 578_900,
                    radius_polar_m: 578_900,
                    axial_tilt_microdeg: 0,
                },
                seeded_elements(190_940_711, 1_378_503, 16_700, 236_689_280,
                    167_695_185),
                583_192_396,
            ),
            seeded_entry(
                entry_of(final(self).entries(), HANDLE_UMBRIEL),
                HANDLE_URANUS,
                Body {
                    mass_kg: 1_270_000_000_000_000_000_000,
                    radius_equator_m: 584_700,
                    radius_polar_m: 584_700,
                    axial_tilt_microdeg: 0,
                },
                seeded_elements(266_004_056, 4_364_502, 79_600, 521_550_233,
                    167_711_341),
                837_259_784,
            ),
            seeded_entry(
                entry_of(final(self).entries(), HANDLE_TITANIA),
                HANDLE_URANUS,
                Body {
                    mass_kg: 3_490_000_000_000_000_000_000,
                    radius_equator_m: 788_900,
                    radius_polar_m: 788_900,
                    axial_tilt_microdeg: 0,
                },
                seeded_elements(436_347_342, 2_757_640, 112_900, 399_564_019,
                    167_611_658),
                496_575_293,
            ),
            seeded_entry(
                entry_of(final(self).entries(), HANDLE_OBERON),
                HANDLE_URANUS,
                Body {
                    mass_kg: 3_030_000_000_000_000_000_000,
                    radius_equator_m: 761_400,
                    radius_polar_m: 761_400,
                    axial_tilt_microdeg: 0,
                },
                seeded_elements(583_560_909, 1_106_580, 147_800, 288_925_047,
                    167_742_243),
                472_670_392,
            ),
            seeded_entry(
                entry_of(final(self).entries(), HANDLE_MIRANDA),
                HANDLE_URANUS,
                Body {
                    mass_kg: 63_300_000_000_000_000_000,
                    radius_equator_m: 235_800,
                    radius_polar_m: 235_800,
                    axial_tilt_microdeg: 0,
                },
                seeded_elements(129_870_000, 1_400_000, 4_407_200, 242_280_990,
                    163_494_996),
                143_033_012,
            ),
    {
        let info = Body::new(86_810_000_000_000_000_000_000_000, 25_559_000, 24_973_000, 97_770_000);
        let orbit = OrbitalElements::default().with_semimajor_axis_m(
            2_870_971_632_050,
        ).with_eccentricity(47_170_000).with_inclination_deg(
            773_000,
        ).with_arg_of_periapsis_deg(96_998_857).with_long_of_ascending_node_deg(
            74_006_000,
        );
        let entry = DatabaseEntry::new(info, "Uranus".to_string()).with_parent(
            HANDLE_SOL,
            orbit,
        ).with_mean_anomaly_deg(142_238_600);
        let ghost before = self.entries();
        let ghost pair = (HANDLE_URANUS, entry);
        self.add_entry(HANDLE_URANUS, entry);
        proof {
            assert forall|h: u64|
                has_key(self.entries(), h) == (has_key(before, h) || h == HANDLE_URANUS) by {
                lemma_has_key_push(before, pair, h);
            }
            assert forall|h: u64| has_key(before, h) implies #[trigger] entry_of(
                self.entries(),
                h,
            ) == entry_of(before, h) by {
                lemma_entry_of_push(before, pair, h);
            }
            reveal(seeded_elements);
            reveal(seeded_entry);
            lemma_key_index_unique(self.entries(), HANDLE_URANUS, before.len() as int);
            assert(
                seeded_entry(
                    entry_of(self.entries(), HANDLE_URANUS),
                    HANDLE_SOL,
                    Body {
                        mass_kg: 86_810_000_000_000_000_000_000_000,
                        radius_equator_m: 25_559_000,
                        radius_polar_m: 24_973_000,
                        axial_tilt_microdeg: 97_770_000,
                    },
                    seeded_elements(2_870_971_632_050, 47_170_000, 773_000, 96_998_857,
                        74_006_000),
                    142_238_600,
                )
            );
        }
        let info = Body::new(1_270_000_000_000_000_000_000, 578_900, 578_900, 0);
        let orbit = OrbitalElements::default().with_semimajor_axis_m(
            190_940_711,
        ).with_eccentricity(1_378_503).with_inclination_deg(
            16_700,
        ).with_arg_of_periapsis_deg(236_689_280).with_long_of_ascending_node_deg(
            167_695_185,
        );
        let entry = DatabaseEntry::new(info, "Ariel".to_string()).with_parent(
            HANDLE_URANUS,
            orbit,
        ).with_mean_anomaly_deg(583_192_396);
        let ghost before = self.entries();
        let ghost pair = (HANDLE_ARIEL, entry);
        self.add_entry(HANDLE_ARIEL, entry);
        proof {
            assert forall|h: u64|
                has_key(self.entries(), h) == (has_key(before, h) || h == HANDLE_ARIEL) by {
                lemma_has_key_push(before, pair, h);
            }
            assert forall|h: u64| has_key(before, h) implies #[trigger] entry_of(
                self.entries(),
                h,
            ) == entry_of(before, h) by {
                lemma_entry_of_push(before, pair, h);
            }
            reveal(seeded_elements);
            reveal(seeded_entry);
            lemma_key_index_unique(self.entries(), HANDLE_ARIEL, before.len() as int);
            assert(
                seeded_entry(
                    entry_of(self.entries(), HANDLE_ARIEL),
                    HANDLE_URANUS,
                    Body {
                        mass_kg: 1_270_000_000_000_000_000_000,
                        radius_equator_m: 578_900,
                        radius_polar_m: 578_900,
                        axial_tilt_microdeg: 0,
                    },
                    seeded_elements(190_940_711, 1_378_503, 16_700, 236_689_280,
                        167_695_185),
                    583_192_396,
                )
            );
        }
        let info = Body::new(1_270_000_000_000_000_000_000, 584_700, 584_700, 0);
        let orbit = OrbitalElements::default().with_semimajor_axis_m(
            266_004_056,
        ).with_eccentricity(4_364_502).with_inclination_deg(
            79_600,
        ).with_arg_of_periapsis_deg(521_550_233).with_long_of_ascending_node_deg(
            167_711_341,
        );
        let entry = DatabaseEntry::new(info, "Umbriel".to_string()).with_parent(
            HANDLE_URANUS,
            orbit,
        ).with_mean_anomaly_deg(837_259_784);
        let ghost before = self.entries();
        let ghost pair = (HANDLE_UMBRIEL, entry);
        self.add_entry(HANDLE_UMBRIEL, entry);
        proof {
            assert forall|h: u64|
                has_key(self.entries(), h) == (has_key(before, h) || h == HANDLE_UMBRIEL) by {
                lemma_has_key_push(before, pair, h);
            }
            assert forall|h: u64| has_key(before, h) implies #[trigger] entry_of(
                self.entries(),
                h,
            ) == entry_of(before, h) by {
                lemma_entry_of_push(before, pair, h);
            }
            reveal(seeded_elements);
            reveal(seeded_entry);
            lemma_key_index_unique(self.entries(), HANDLE_UMBRIEL, before.len() as int);
            assert(
                seeded_entry(
                    entry_of(self.entries(), HANDLE_UMBRIEL),
                    HANDLE_URANUS,
                    Body {
                        mass_kg: 1_270_000_000_000_000_000_000,
                        radius_equator_m: 584_700,
                        radius_polar_m: 584_700,
                        axial_tilt_microdeg: 0,
                    },
                    seeded_elements(266_004_056, 4_364_502, 79_600, 521_550_233,
                        167_711_341),
                    837_259_784,
                )
            );
        }
        let info = Body::new(3_490_000_000_000_000_000_000, 788_900, 788_900, 0);
        let orbit = OrbitalElements::default().with_semimajor_axis_m(
            436_347_342,
        ).with_eccentricity(2_757_640).with_inclination_deg(
            112_900,
        ).with_arg_of_periapsis_deg(399_564_019).with_long_of_ascending_node_deg(
            167_611_658,
        );
        let entry = DatabaseEntry::new(info, "Titania".to_string()).with_parent(
            HANDLE_URANUS,
            orbit,
        ).with_mean_anomaly_deg(496_575_293);
        let ghost before = self.entries();
        let ghost pair = (HANDLE_TITANIA, entry);
        self.add_entry(HANDLE_TITANIA, entry);
        proof {
            assert forall|h: u64|
                has_key(self.entries(), h) == (has_key(before, h) || h == HANDLE_TITANIA) by {
                lemma_has_key_push(before, pair, h);
            }
            assert forall|h: u64| has_key(before, h) implies #[trigger] entry_of(
                self.entries(),
                h,
            ) == entry_of(before, h) by {
                lemma_entry_of_push(before, pair, h);
            }
            reveal(seeded_elements);
            reveal(seeded_entry);
            lemma_key_index_unique(self.entries(), HANDLE_TITANIA, before.len() as int);
            assert(
                seeded_entry(
                    entry_of(self.entries(), HANDLE_TITANIA),
                    HANDLE_URANUS,
                    Body {
                        mass_kg: 3_490_000_000_000_000_000_000,
                        radius_equator_m: 788_900,
                        radius_polar_m: 788_900,
                        axial_tilt_microdeg: 0,
                    },
                    seeded_elements(436_347_342, 2_757_640, 112_900, 399_564_019,
                        167_611_658),
                    496_575_293,
                )
            );
        }
        let info = Body::new(3_030_000_000_000_000_000_000, 761_400, 761_400, 0);
        let orbit = OrbitalElements::default().with_semimajor_axis_m(
            583_560_909,
        ).with_eccentricity(1_106_580).with_inclination_deg(
            147_800,
        ).with_arg_of_periapsis_deg(288_925_047).with_long_of_ascending_node_deg(
            167_742_243,
        );
        let entry = DatabaseEntry::new(info, "Oberon".to_string()).with_parent(
            HANDLE_URANUS,
            orbit,
        ).with_mean_anomaly_deg(472_670_392);
        let ghost before = self.entries();
        let ghost pair = (HANDLE_OBERON, entry);
        self.add_entry(HANDLE_OBERON, entry);
        proof {
            assert forall|h: u64|
                has_key(self.entries(), h) == (has_key(before, h) || h == HANDLE_OBERON) by {
                lemma_has_key_push(before, pair, h);
            }
            assert forall|h: u64| has_key(before, h) implies #[trigger] entry_of(
                self.entries(),
                h,
            ) == entry_of(before, h) by {
                lemma_entry_of_push(before, pair, h);
            }
            reveal(seeded_elements);
            reveal(seeded_entry);
            lemma_key_index_unique(self.entries(), HANDLE_OBERON, before.len() as int);
            assert(
                seeded_entry(
                    entry_of(self.entries(), HANDLE_OBERON),
                    HANDLE_URANUS,
                    Body {
                        mass_kg: 3_030_000_000_000_000_000_000,
                        radius_equator_m: 761_400,
                        radius_polar_m: 761_400,
                        axial_tilt_microdeg: 0,
                    },
                    seeded_elements(583_560_909, 1_106_580, 147_800, 288_925_047,
                        167_742_243),
                    472_670_392,
                )
            );
        }
        let info = Body::new(63_300_000_000_000_000_000, 235_800, 235_800, 0);
        let orbit = OrbitalElements::default().with_semimajor_axis_m(
            129_870_000,
        ).with_eccentricity(1_400_000).with_inclination_deg(
            4_407_200,
        ).with_arg_of_periapsis_deg(242_280_990).with_long_of_ascending_node_deg(
            163_494_996,
        );
        let entry = DatabaseEntry::new(info, "Miranda".to_string()).with_parent(
            HANDLE_URANUS,
            orbit,
        ).with_mean_anomaly_deg(143_033_012);
        let ghost before = self.entries();
        let ghost pair = (HANDLE_MIRANDA, entry);
        self.add_entry(HANDLE_MIRANDA, entry);
        proof {
            assert forall|h: u64|
                has_key(self.entries(), h) == (has_key(before, h) || h == HANDLE_MIRANDA) by {
                lemma_has_key_push(before, pair, h);
            }
            assert forall|h: u64| has_key(before, h) implies #[trigger] entry_of(
                self.entries(),
                h,
            ) == entry_of(before, h) by {
                lemma_entry_of_push(before, pair, h);
            }
            reveal(seeded_elements);
            reveal(seeded_entry);
            lemma_key_index_unique(self.entries(), HANDLE_MIRANDA, before.len() as int);
            assert(
                seeded_entry(
                    entry_of(self.entries(), HANDLE_MIRANDA),
                    HANDLE_URANUS,
                    Body {
                        mass_kg: 63_300_000_000_000_000_000,
                        radius_equator_m: 235_800,
                        radius_polar_m: 235_800,
                        axial_tilt_microdeg: 0,
                    },
                    seeded_elements(129_870_000, 1_400_000, 4_407_200, 242_280_990,
                        163_494_996),
                    143_033_012,
                )
            );
        }
    }

    /// First block of the Neptune system: Neptune, Triton, Nereid, Naiad, Thalassa, Despina.
    #[verifier::rlimit(100)]
    fn add_neptune_first_block(&mut self)
        requires
            old(self).wf(),
            old(self).entries().len() + 6 <= ENTRY_MAX,
            has_key(old(self).entries(), HANDLE_SOL),
            !has_key(old(self).entries(), HANDLE_NEPTUNE),
            !has_key(old(self).entries(), HANDLE_TRITON),
            !has_key(old(self).entries(), HANDLE_NEREID),
            !has_key(old(self).entries(), HANDLE_NAIAD),
            !has_key(old(self).entries(), HANDLE_THALASSA),
            !has_key(old(self).entries(), HANDLE_DESPINA),
        ensures
            final(self).wf(),
            final(self).entries().len() == old(self).entries().len() + 6,
            forall|h: u64|
                has_key(final(self).entries(), h) == (has_key(
                    old(self).entries(),
                    h,
                ) || h == HANDLE_NEPTUNE || h == HANDLE_TRITON || h == HANDLE_NEREID || h == HANDLE_NAIAD || h == HANDLE_THALASSA || h == HANDLE_DESPINA),
            forall|h: u64|
                has_key(old(self).entries(), h) ==> #[trigger] entry_of(
                    final(self).entries(),
                    h,
                ) == entry_of(old(self).entries(), h),
            seeded_entry(
                entry_of(final(self).entries(), HANDLE_NEPTUNE),
                HANDLE_SOL,
                Body {
                    mass_kg: 102_409_000_000_000_000_000_000_000,
                    radius_equator_m: 24_764_000,
                    radius_polar_m: 24_341_000,
                    axial_tilt_microdeg: 28_320_000,
                },
                seeded_elements(4_498_407_971_949, 8_678_000, 1_770_000, 273_187_000,
                    131_783_000),
                317_020_000,
            ),
            seeded_entry(
                entry_of(final(self).entries(), HANDLE_TRITON),
                HANDLE_NEPTUNE,
                Body {
                    mass_kg: 21_400_000_000_000_000_000_000,
                    radius_equator_m: 1_352_500,
                    radius_polar_m: 1_352_500,
                    axial_tilt_microdeg: 0,
                },
                seeded_elements(354_765_668, 17_750, 156_865_000, 161_679_786,
                    217_253_065),
                829_258_161,
            ),
            seeded_entry(
                entry_of(final(self).entries(), HANDLE_NEREID),
                HANDLE_NEPTUNE,
                Body {
                    mass_kg: 13_170_000_000_000_000_000,
                    radius_equator_m: 165_000,
                    radius_polar_m: 165_000,
                    axial_tilt_microdeg: 0,
                },
                seeded_elements(5_515_375_933, 747_077_257, 5_100_000, 256_561_942,
                    320_104_934),
                324_053_241,
            ),
            seeded_entry(
                entry_of(final(self).entries(), HANDLE_NAIAD),
                HANDLE_NEPTUNE,
                Body {
                    mass_kg: 5_800_000_000_000_000,
                    radius_equator_m: 2_000,
                    radius_polar_m: 2_000,
                    axial_tilt_microdeg: 0,
                },
                seeded_elements(48_227_784_200, 447, 4_691_000, 104_242_486,
                    208_626_701),
                108_701_283,
            ),
            seeded_entry(
                entry_of(final(self).entries(), HANDLE_THALASSA),
                HANDLE_NEPTUNE,
                Body {
                    mass_kg: 5_800_000_000_000_000,
                    radius_equator_m: 2_000,
                    radius_polar_m: 2_000,
                    axial_tilt_microdeg: 0,
                },
                seeded_elements(50_141_475_756, 1_370_609, 135_000, 178_660_268,
                    49_148_648),
                187_573_079,
            ),
            seeded_entry(
                entry_of(final(self).entries(), HANDLE_DESPINA),
                HANDLE_NEPTUNE,
                Body {
                    mass_kg: 22_100_000_000_000_000,
                    radius_equator_m: 12_000,
                    radius_polar_m: 12_000,
                    axial_tilt_microdeg: 0,
                },
                seeded_elements(60_227_784_200, 24, 68_000, 104_242_486,
                    208_626_701),
                108_701_283,
            ),
    {
        let info = Body::new(102_409_000_000_000_000_000_000_000, 24_764_000, 24_341_000, 28_320_000);
        let orbit = OrbitalElements::default().with_semimajor_axis_m(
            4_498_407_971_949,
        ).with_eccentricity(8_678_000).with_inclination_deg(
            1_770_000,
        ).with_arg_of_periapsis_deg(273_187_000).with_long_of_ascending_node_deg(
            131_783_000,
        );
        let entry = DatabaseEntry::new(info, "Neptune".to_string()).with_parent(
            HANDLE_SOL,
            orbit,
        ).with_mean_anomaly_deg(317_020_000);
        let ghost before = self.entries();
        let ghost pair = (HANDLE_NEPTUNE, entry);
        self.add_entry(HANDLE_NEPTUNE, entry);
        proof {
            assert forall|h: u64|
                has_key(self.entries(), h) == (has_key(before, h) || h == HANDLE_NEPTUNE) by {
                lemma_has_key_push(before, pair, h);
            }
            assert forall|h: u64| has_key(before, h) implies #[trigger] entry_of(
                self.entries(),
                h,
            ) == entry_of(before, h) by {
                lemma_entry_of_push(before, pair, h);
            }
            reveal(seeded_elements);
            reveal(seeded_entry);
            lemma_key_index_unique(self.entries(), HANDLE_NEPTUNE, before.len() as int);
            assert(
                seeded_entry(
                    entry_of(self.entries(), HANDLE_NEPTUNE),
                    HANDLE_SOL,
                    Body {
                        mass_kg: 102_409_000_000_000_000_000_000_000,
                        radius_equator_m: 24_764_000,
                        radius_polar_m: 24_341_000,
                        axial_tilt_microdeg: 28_320_000,
                    },
                    seeded_elements(4_498_407_971_949, 8_678_000, 1_770_000, 273_187_000,
                        131_783_000),
                    317_020_000,
                )
            );
        }
        let info = Body::new(21_400_000_000_000_000_000_000, 1_352_500, 1_352_500, 0);
        let orbit = OrbitalElements::default().with_semimajor_axis_m(
            354_765_668,
        ).with_eccentricity(17_750).with_inclination_deg(
            156_865_000,
        ).with_arg_of_periapsis_deg(161_679_786).with_long_of_ascending_node_deg(
            217_253_065,
        );
        let entry = DatabaseEntry::new(info, "Triton".to_string()).with_parent(
            HANDLE_NEPTUNE,
            orbit,
        ).with_mean_anomaly_deg(829_258_161);
        let ghost before = self.entries();
        let ghost pair = (HANDLE_TRITON, entry);
        self.add_entry(HANDLE_TRITON, entry);
        proof {
            assert forall|h: u64|
                has_key(self.entries(), h) == (has_key(before, h) || h == HANDLE_TRITON) by {
                lemma_has_key_push(before, pair, h);
            }
            assert forall|h: u64| has_key(before, h) implies #[trigger] entry_of(
                self.entries(),
                h,
            ) == entry_of(before, h) by {
                lemma_entry_of_push(before, pair, h);
            }
            reveal(seeded_elements);
            reveal(seeded_entry);
            lemma_key_index_unique(self.entries(), HANDLE_TRITON, before.len() as int);
            assert(
                seeded_entry(
                    entry_of(self.entries(), HANDLE_TRITON),
                    HANDLE_NEPTUNE,
                    Body {
                        mass_kg: 21_400_000_000_000_000_000_000,
                        radius_equator_m: 1_352_500,
                        radius_polar_m: 1_352_500,
                        axial_tilt_microdeg: 0,
                    },
                    seeded_elements(354_765_668, 17_750, 156_865_000, 161_679_786,
                        217_253_065),
                    829_258_161,
                )
            );
        }
        let info = Body::new(13_170_000_000_000_000_000, 165_000, 165_000, 0);
        let orbit = OrbitalElements::default().with_semimajor_axis_m(
            5_515_375_933,
        ).with_eccentricity(747_077_257).with_inclination_deg(
            5_100_000,
        ).with_arg_of_periapsis_deg(256_561_942).with_long_of_ascending_node_deg(
            320_104_934,
        );
        let entry = DatabaseEntry::new(info, "Nereid".to_string()).with_parent(
            HANDLE_NEPTUNE,
            orbit,
        ).with_mean_anomaly_deg(324_053_241);
        let ghost before = self.entries();
        let ghost pair = (HANDLE_NEREID, entry);
        self.add_entry(HANDLE_NEREID, entry);
        proof {
            assert forall|h: u64|
                has_key(self.entries(), h) == (has_key(before, h) || h == HANDLE_NEREID) by {
                lemma_has_key_push(before, pair, h);
            }
            assert forall|h: u64| has_key(before, h) implies #[trigger] entry_of(
                self.entries(),
                h,
            ) == entry_of(before, h) by {
                lemma_entry_of_push(before, pair, h);
            }
            reveal(seeded_elements);
            reveal(seeded_entry);
            lemma_key_index_unique(self.entries(), HANDLE_NEREID, before.len() as int);
            assert(
                seeded_entry(
                    entry_of(self.entries(), HANDLE_NEREID),
                    HANDLE_NEPTUNE,
                    Body {
                        mass_kg: 13_170_000_000_000_000_000,
                        radius_equator_m: 165_000,
                        radius_polar_m: 165_000,
                        axial_tilt_microdeg: 0,
                    },
                    seeded_elements(5_515_375_933, 747_077_257, 5_100_000, 256_561_942,
                        320_104_934),
                    324_053_241,
                )
            );
        }
        let info = Body::new(5_800_000_000_000_000, 2_000, 2_000, 0);
        let orbit = OrbitalElements::default().with_semimajor_axis_m(
            48_227_784_200,
        ).with_eccentricity(447).with_inclination_deg(
            4_691_000,
        ).with_arg_of_periapsis_deg(104_242_486).with_long_of_ascending_node_deg(
            208_626_701,
        );
        let entry = DatabaseEntry::new(info, "Naiad".to_string()).with_parent(
            HANDLE_NEPTUNE,
            orbit,
        ).with_mean_anomaly_deg(108_701_283);
        let ghost before = self.entries();
        let ghost pair = (HANDLE_NAIAD, entry);
        self.add_entry(HANDLE_NAIAD, entry);
        proof {
            assert forall|h: u64|
                has_key(self.entries(), h) == (has_key(before, h) || h == HANDLE_NAIAD) by {
                lemma_has_key_push(before, pair, h);
            }
            assert forall|h: u64| has_key(before, h) implies #[trigger] entry_of(
                self.entries(),
                h,
            ) == entry_of(before, h) by {
                lemma_entry_of_push(before, pair, h);
            }
            reveal(seeded_elements);
            reveal(seeded_entry);
            lemma_key_index_unique(self.entries(), HANDLE_NAIAD, before.len() as int);
            assert(
                seeded_entry(
                    entry_of(self.entries(), HANDLE_NAIAD),
                    HANDLE_NEPTUNE,
                    Body {
                        mass_kg: 5_800_000_000_000_000,
                        radius_equator_m: 2_000,
                        radius_polar_m: 2_000,
                        axial_tilt_microdeg: 0,
                    },
                    seeded_elements(48_227_784_200, 447, 4_691_000, 104_242_486,
                        208_626_701),
                    108_701_283,
                )
            );
        }
        let info = Body::new(5_800_000_000_000_000, 2_000, 2_000, 0);
        let orbit = OrbitalElements::default().with_semimajor_axis_m(
            50_141_475_756,
        ).with_eccentricity(1_370_609).with_inclination_deg(
            135_000,
        ).with_arg_of_periapsis_deg(178_660_268).with_long_of_ascending_node_deg(
            49_148_648,
        );
        let entry = DatabaseEntry::new(info, "Thalassa".to_string()).with_parent(
            HANDLE_NEPTUNE,
            orbit,
        ).with_mean_anomaly_deg(187_573_079);
        let ghost before = self.entries();
        let ghost pair = (HANDLE_THALASSA, entry);
        self.add_entry(HANDLE_THALASSA, entry);
        proof {
            assert forall|h: u64|
                has_key(self.entries(), h) == (has_key(before, h) || h == HANDLE_THALASSA) by {
                lemma_has_key_push(before, pair, h);
            }
            assert forall|h: u64| has_key(before, h) implies #[trigger] entry_of(
                self.entries(),
                h,
            ) == entry_of(before, h) by {
                lemma_entry_of_push(before, pair, h);
            }
            reveal(seeded_elements);
            reveal(seeded_entry);
            lemma_key_index_unique(self.entries(), HANDLE_THALASSA, before.len() as int);
            assert(
                seeded_entry(
                    entry_of(self.entries(), HANDLE_THALASSA),
                    HANDLE_NEPTUNE,
                    Body {
                        mass_kg: 5_800_000_000_000_000,
                        radius_equator_m: 2_000,
                        radius_polar_m: 2_000,
                        axial_tilt_microdeg: 0,
                    },
                    seeded_elements(50_141_475_756, 1_370_609, 135_000, 178_660_268,
                        49_148_648),
                    187_573_079,
                )
            );
        }
        let info = Body::new(22_100_000_000_000_000, 12_000, 12_000, 0);
        let orbit = OrbitalElements::default().with_semimajor_axis_m(
            60_227_784_200,
        ).with_eccentricity(24).with_inclination_deg(
            68_000,
        ).with_arg_of_periapsis_deg(104_242_486).with_long_of_ascending_node_deg(
            208_626_701,
        );
        let entry = DatabaseEntry::new(info, "Despina".to_string()).with_parent(
            HANDLE_NEPTUNE,
            orbit,
        ).with_mean_anomaly_deg(108_701_283);
        let ghost before = self.entries();
        let ghost pair = (HANDLE_DESPINA, entry);
        self.add_entry(HANDLE_DESPINA, entry);
        proof {
            assert forall|h: u64|
                has_key(self.entries(), h) == (has_key(before, h) || h == HANDLE_DESPINA) by {
                lemma_has_key_push(before, pair, h);
            }
            assert forall|h: u64| has_key(before, h) implies #[trigger] entry_of(
                self.entries(),
                h,
            ) == entry_of(before, h) by {
                lemma_entry_of_push(before, pair, h);
            }
            reveal(seeded_elements);
            reveal(seeded_entry);
            lemma_key_index_unique(self.entries(), HANDLE_DESPINA, before.len() as int);
            assert(
                seeded_entry(
                    entry_of(self.entries(), HANDLE_DESPINA),
                    HANDLE_NEPTUNE,
                    Body {
                        mass_kg: 22_100_000_000_000_000,
                        radius_equator_m: 12_000,
                        radius_polar_m: 12_000,
                        axial_tilt_microdeg: 0,
                    },
                    seeded_elements(60_227_784_200, 24, 68_000, 104_242_486,
                        208_626_701),
                    108_701_283,
                )
            );
        }
    }

    /// Second block of the Neptune system: Galatea, Larissa.
    #[verifier::rlimit(100)]
    fn add_neptune_second_block(&mut self)
        requires
            old(self).wf(),
            old(self).entries().len() + 2 <= ENTRY_MAX,
            has_key(old(self).entries(), HANDLE_NEPTUNE),
            !has_key(old(self).entries(), HANDLE_GALATEA),
            !has_key(old(self).entries(), HANDLE_LARISSA),
        ensures
            final(self).wf(),
            final(self).entries().len() == old(self).entries().len() + 2,
            forall|h: u64|
                has_key(final(self).entries(), h) == (has_key(
                    old(self).entries(),
                    h,
                ) || h == HANDLE_GALATEA || h == HANDLE_LARISSA),
            forall|h: u64|
                has_key(old(self).entries(), h) ==> #[trigger] entry_of(
                    final(self).entries(),
                    h,
                ) == entry_of(old(self).entries(), h),
            seeded_entry(
                entry_of(final(self).entries(), HANDLE_GALATEA),
                HANDLE_NEPTUNE,
                Body {
                    mass_kg: 59_550_000_000_000_000,
                    radius_equator_m: 79_100,
                    radius_polar_m: 79_100,
                    axial_tilt_microdeg: 0,
                },
                seeded_elements(62_097_694_895, 1_763_428, 34_000, 188_297_172,
                    48_693_836),
                216_667_607,
            ),
            seeded_entry(
                entry_of(final(self).entries(), HANDLE_LARISSA),
                HANDLE_NEPTUNE,
                Body {
                    mass_kg: 85_630_000_000_000_000,
                    radius_equator_m: 99_960,
                    radius_polar_m: 99_960,
                    axial_tilt_microdeg: 0,
                },
                seeded_elements(73_591_064_268, 1_696_576, 205_000, 378_844_329,
                    48_907_855),
                428_613_425,
            ),
    {
        let info = Body::new(59_550_000_000_000_000, 79_100, 79_100, 0);
        let orbit = OrbitalElements::default().with_semimajor_axis_m(
            62_097_694_895,
        ).with_eccentricity(1_763_428).with_inclination_deg(
            34_000,
        ).with_arg_of_periapsis_deg(188_297_172).with_long_of_ascending_node_deg(
            48_693_836,
        );
        let entry = DatabaseEntry::new(info, "Galatea".to_string()).with_parent(
            HANDLE_NEPTUNE,
            orbit,
        ).with_mean_anomaly_deg(216_667_607);
        let ghost before = self.entries();
        let ghost pair = (HANDLE_GALATEA, entry);
        self.add_entry(HANDLE_GALATEA, entry);
        proof {
            assert forall|h: u64|
                has_key(self.entries(), h) == (has_key(before, h) || h == HANDLE_GALATEA) by {
                lemma_has_key_push(before, pair, h);
            }
            assert forall|h: u64| has_key(before, h) implies #[trigger] entry_of(
                self.entries(),
                h,
            ) == entry_of(before, h) by {
                lemma_entry_of_push(before, pair, h);
            }
            reveal(seeded_elements);
            reveal(seeded_entry);
            lemma_key_index_unique(self.entries(), HANDLE_GALATEA, before.len() as int);
            assert(
                seeded_entry(
                    entry_of(self.entries(), HANDLE_GALATEA),
                    HANDLE_NEPTUNE,
                    Body {
                        mass_kg: 59_550_000_000_000_000,
                        radius_equator_m: 79_100,
                        radius_polar_m: 79_100,
                        axial_tilt_microdeg: 0,
                    },
                    seeded_elements(62_097_694_895, 1_763_428, 34_000, 188_297_172,
                        48_693_836),
                    216_667_607,
                )
            );
        }
        let info = Body::new(85_630_000_000_000_000, 99_960, 99_960, 0);
        let orbit = OrbitalElements::default().with_semimajor_axis_m(
            73_591_064_268,
        ).with_eccentricity(1_696_576).with_inclination_deg(
            205_000,
        ).with_arg_of_periapsis_deg(378_844_329).with_long_of_ascending_node_deg(
            48_907_855,
        );
        let entry = DatabaseEntry::new(info, "Larissa".to_string()).with_parent(
            HANDLE_NEPTUNE,
            orbit,
        ).with_mean_anomaly_deg(428_613_425);
        let ghost before = self.entries();
        let ghost pair = (HANDLE_LARISSA, entry);
        self.add_entry(HANDLE_LARISSA, entry);
        proof {
            assert forall|h: u64|
                has_key(self.entries(), h) == (has_key(before, h) || h == HANDLE_LARISSA) by {
                lemma_has_key_push(before, pair, h);
            }
            assert forall|h: u64| has_key(before, h) implies #[trigger] entry_of(
                self.entries(),
                h,
            ) == entry_of(before, h) by {
                lemma_entry_of_push(before, pair, h);
            }
            reveal(seeded_elements);
            reveal(seeded_entry);
            lemma_key_index_unique(self.entries(), HANDLE_LARISSA, before.len() as int);
            assert(
                seeded_entry(
                    entry_of(self.entries(), HANDLE_LARISSA),
                    HANDLE_NEPTUNE,
                    Body {
                        mass_kg: 85_630_000_000_000_000,
                        radius_equator_m: 99_960,
                        radius_polar_m: 99_960,
                        axial_tilt_microdeg: 0,
                    },
                    seeded_elements(73_591_064_268, 1_696_576, 205_000, 378_844_329,
                        48_907_855),
                    428_613_425,
                )
            );
        }
    }

    /// Adds the planet Neptune and a selection of its moons to the database.
    #[verifier::rlimit(100)]
    pub fn add_neptune(&mut self)
        requires
            old(self).wf(),
            old(self).entries().len() + 8 <= ENTRY_MAX,
            has_key(old(self).entries(), HANDLE_SOL),
            !has_key(old(self).entries(), HANDLE_NEPTUNE),
            !has_key(old(self).entries(), HANDLE_TRITON),
            !has_key(old(self).entries(), HANDLE_NEREID),
            !has_key(old(self).entries(), HANDLE_NAIAD),
            !has_key(old(self).entries(), HANDLE_THALASSA),
            !has_key(old(self).entries(), HANDLE_DESPINA),
            !has_key(old(self).entries(), HANDLE_GALATEA),
            !has_key(old(self).entries(), HANDLE_LARISSA),
        ensures
            final(self).wf(),
            final(self).entries().len() == old(self).entries().len() + 8,
            forall|h: u64|
                has_key(final(self).entries(), h) == (has_key(
                    old(self).entries(),
                    h,
                ) || h == HANDLE_NEPTUNE || h == HANDLE_TRITON || h == HANDLE_NEREID || h == HANDLE_NAIAD || h == HANDLE_THALASSA || h == HANDLE_DESPINA || h == HANDLE_GALATEA || h == HANDLE_LARISSA),
            forall|h: u64|
                has_key(old(self).entries(), h) ==> #[trigger] entry_of(
                    final(self).entries(),
                    h,
                ) == entry_of(old(self).entries(), h),
            seeded_entry(
                entry_of(final(self).entries(), HANDLE_NEPTUNE),
                HANDLE_SOL,
                Body {
                    mass_kg: 102_409_000_000_000_000_000_000_000,
                    radius_equator_m: 24_764_000,
                    radius_polar_m: 24_341_000,
                    axial_tilt_microdeg: 28_320_000,
                },
                seeded_elements(4_498_407_971_949, 8_678_000, 1_770_000, 273_187_000,
                    131_783_000),
                317_020_000,
            ),
            seeded_entry(
                entry_of(final(self).entries(), HANDLE_TRITON),
                HANDLE_NEPTUNE,
                Body {
                    mass_kg: 21_400_000_000_000_000_000_000,
                    radius_equator_m: 1_352_500,
                    radius_polar_m: 1_352_500,
                    axial_tilt_microdeg: 0,
                },
                seeded_elements(354_765_668, 17_750, 156_865_000, 161_679_786,
                    217_253_065),
                829_258_161,
            ),
            seeded_entry(
                entry_of(final(self).entries(), HANDLE_NEREID),
                HANDLE_NEPTUNE,
                Body {
                    mass_kg: 13_170_000_000_000_000_000,
                    radius_equator_m: 165_000,
                    radius_polar_m: 165_000,
                    axial_tilt_microdeg: 0,
                },
                seeded_elements(5_515_375_933, 747_077_257, 5_100_000, 256_561_942,
                    320_104_934),
                324_053_241,
            ),
            seeded_entry(
                entry_of(final(self).entries(), HANDLE_NAIAD),
                HANDLE_NEPTUNE,
                Body {
                    mass_kg: 5_800_000_000_000_000,
                    radius_equator_m: 2_000,
                    radius_polar_m: 2_000,
                    axial_tilt_microdeg: 0,
                },
                seeded_elements(48_227_784_200, 447, 4_691_000, 104_242_486,
                    208_626_701),
                108_701_283,
            ),
            seeded_entry(
                entry_of(final(self).entries(), HANDLE_THALASSA),
                HANDLE_NEPTUNE,
                Body {
                    mass_kg: 5_800_000_000_000_000,
                    radius_equator_m: 2_000,
                    radius_polar_m: 2_000,
                    axial_tilt_microdeg: 0,
                },
                seeded_elements(50_141_475_756, 1_370_609, 135_000, 178_660_268,
                    49_148_648),
                187_573_079,
            ),
            seeded_entry(
                entry_of(final(self).entries(), HANDLE_DESPINA),
                HANDLE_NEPTUNE,
                Body {
                    mass_kg: 22_100_000_000_000_000,
                    radius_equator_m: 12_000,
                    radius_polar_m: 12_000,
                    axial_tilt_microdeg: 0,
                },
                seeded_elements(60_227_784_200, 24, 68_000, 104_242_486,
                    208_626_701),
                108_701_283,
            ),
            seeded_entry(
                entry_of(final(self).entries(), HANDLE_GALATEA),
                HANDLE_NEPTUNE,
                Body {
                    mass_kg: 59_550_000_000_000_000,
                    radius_equator_m: 79_100,
                    radius_polar_m: 79_100,
                    axial_tilt_microdeg: 0,
                },
                seeded_elements(62_097_694_895, 1_763_428, 34_000, 188_297_172,
                    48_693_836),
                216_667_607,
            ),
            seeded_entry(
                entry_of(final(self).entries(), HANDLE_LARISSA),
                HANDLE_NEPTUNE,
                Body {
                    mass_kg: 85_630_000_000_000_000,
                    radius_equator_m: 99_960,
                    radius_polar_m: 99_960,
                    axial_tilt_microdeg: 0,
                },
                seeded_elements(73_591_064_268, 1_696_576, 205_000, 378_844_329,
                    48_907_855),
                428_613_425,
            ),
    {
        self.add_neptune_first_block();
        proof {
            assert(has_key(self.entries(), HANDLE_NEPTUNE));
            assert(
                seeded_entry(
                    entry_of(self.entries(), HANDLE_NEPTUNE),
                    HANDLE_SOL,
                    Body {
                        mass_kg: 102_409_000_000_000_000_000_000_000,
                        radius_equator_m: 24_764_000,
                        radius_polar_m: 24_341_000,
                        axial_tilt_microdeg: 28_320_000,
                    },
                    seeded_elements(4_498_407_971_949, 8_678_000, 1_770_000, 273_187_000,
                        131_783_000),
                    317_020_000,
                )
            );
            assert(has_key(self.entries(), HANDLE_TRITON));
            assert(
                seeded_entry(
                    entry_of(self.entries(), HANDLE_TRITON),
                    HANDLE_NEPTUNE,
                    Body {
                        mass_kg: 21_400_000_000_000_000_000_000,
                        radius_equator_m: 1_352_500,
                        radius_polar_m: 1_352_500,
                        axial_tilt_microdeg: 0,
                    },
                    seeded_elements(354_765_668, 17_750, 156_865_000, 161_679_786,
                        217_253_065),
                    829_258_161,
                )
            );
            assert(has_key(self.entries(), HANDLE_NEREID));
            assert(
                seeded_entry(
                    entry_of(self.entries(), HANDLE_NEREID),
                    HANDLE_NEPTUNE,
                    Body {
                        mass_kg: 13_170_000_000_000_000_000,
                        radius_equator_m: 165_000,
                        radius_polar_m: 165_000,
                        axial_tilt_microdeg: 0,
                    },
                    seeded_elements(5_515_375_933, 747_077_257, 5_100_000, 256_561_942,
                        320_104_934),
                    324_053_241,
                )
            );
            assert(has_key(self.entries(), HANDLE_NAIAD));
            assert(
                seeded_entry(
                    entry_of(self.entries(), HANDLE_NAIAD),
                    HANDLE_NEPTUNE,
                    Body {
                        mass_kg: 5_800_000_000_000_000,
                        radius_equator_m: 2_000,
                        radius_polar_m: 2_000,
                        axial_tilt_microdeg: 0,
                    },
                    seeded_elements(48_227_784_200, 447, 4_691_000, 104_242_486,
                        208_626_701),
                    108_701_283,
                )
            );
            assert(has_key(self.entries(), HANDLE_THALASSA));
            assert(
                seeded_entry(
                    entry_of(self.entries(), HANDLE_THALASSA),
                    HANDLE_NEPTUNE,
                    Body {
                        mass_kg: 5_800_000_000_000_000,
                        radius_equator_m: 2_000,
                        radius_polar_m: 2_000,
                        axial_tilt_microdeg: 0,
                    },
                    seeded_elements(50_141_475_756, 1_370_609, 135_000, 178_660_268,
                        49_148_648),
                    187_573_079,
                )
            );
            assert(has_key(self.entries(), HANDLE_DESPINA));
            assert(
                seeded_entry(
                    entry_of(self.entries(), HANDLE_DESPINA),
                    HANDLE_NEPTUNE,
                    Body {
                        mass_kg: 22_100_000_000_000_000,
                        radius_equator_m: 12_000,
                        radius_polar_m: 12_000,
                        axial_tilt_microdeg: 0,
                    },
                    seeded_elements(60_227_784_200, 24, 68_000, 104_242_486,
                        208_626_701),
                    108_701_283,
                )
            );
        }
        self.add_neptune_second_block();
        proof {
            assert(has_key(self.entries(), HANDLE_NEPTUNE));
            assert(
                seeded_entry(
                    entry_of(self.entries(), HANDLE_NEPTUNE),
                    HANDLE_SOL,
                    Body {
                        mass_kg: 102_409_000_000_000_000_000_000_000,
                        radius_equator_m: 24_764_000,
                        radius_polar_m: 24_341_000,
                        axial_tilt_microdeg: 28_320_000,
                    },
                    seeded_elements(4_498_407_971_949, 8_678_000, 1_770_000, 273_187_000,
                        131_783_000),
                    317_020_000,
                )
            );
            assert(has_key(self.entries(), HANDLE_TRITON));
            assert(
                seeded_entry(
                    entry_of(self.entries(), HANDLE_TRITON),
                    HANDLE_NEPTUNE,
                    Body {
                        mass_kg: 21_400_000_000_000_000_000_000,
                        radius_equator_m: 1_352_500,
                        radius_polar_m: 1_352_500,
                        axial_tilt_microdeg: 0,
                    },
                    seeded_elements(354_765_668, 17_750, 156_865_000, 161_679_786,
                        217_253_065),
                    829_258_161,
                )
            );
            assert(has_key(self.entries(), HANDLE_NEREID));
            assert(
                seeded_entry(
                    entry_of(self.entries(), HANDLE_NEREID),
                    HANDLE_NEPTUNE,
                    Body {
                        mass_kg: 13_170_000_000_000_000_000,
                        radius_equator_m: 165_000,
                        radius_polar_m: 165_000,
                        axial_tilt_microdeg: 0,
                    },
                    seeded_elements(5_515_375_933, 747_077_257, 5_100_000, 256_561_942,
                        320_104_934),
                    324_053_241,
                )
            );
            assert(has_key(self.entries(), HANDLE_NAIAD));
            assert(
                seeded_entry(
                    entry_of(self.entries(), HANDLE_NAIAD),
                    HANDLE_NEPTUNE,
                    Body {
                        mass_kg: 5_800_000_000_000_000,
                        radius_equator_m: 2_000,
                        radius_polar_m: 2_000,
                        axial_tilt_microdeg: 0,
                    },
                    seeded_elements(48_227_784_200, 447, 4_691_000, 104_242_486,
                        208_626_701),
                    108_701_283,
                )
            );
            assert(has_key(self.entries(), HANDLE_THALASSA));
            assert(
                seeded_entry(
                    entry_of(self.entries(), HANDLE_THALASSA),
                    HANDLE_NEPTUNE,
                    Body {
                        mass_kg: 5_800_000_000_000_000,
                        radius_equator_m: 2_000,
                        radius_polar_m: 2_000,
                        axial_tilt_microdeg: 0,
                    },
                    seeded_elements(50_141_475_756, 1_370_609, 135_000, 178_660_268,
                        49_148_648),
                    187_573_079,
                )
            );
            assert(has_key(self.entries(), HANDLE_DESPINA));
            assert(
                seeded_entry(
                    entry_of(self.entries(), HANDLE_DESPINA),
                    HANDLE_NEPTUNE,
                    Body {
                        mass_kg: 22_100_000_000_000_000,
                        radius_equator_m: 12_000,
                        radius_polar_m: 12_000,
                        axial_tilt_microdeg: 0,
                    },
                    seeded_elements(60_227_784_200, 24, 68_000, 104_242_486,
                        208_626_701),
                    108_701_283,
                )
            );
            assert(has_key(self.entries(), HANDLE_GALATEA));
            assert(
                seeded_entry(
                    entry_of(self.entries(), HANDLE_GALATEA),
                    HANDLE_NEPTUNE,
                    Body {
                        mass_kg: 59_550_000_000_000_000,
                        radius_equator_m: 79_100,
                        radius_polar_m: 79_100,
                        axial_tilt_microdeg: 0,
                    },
                    seeded_elements(62_097_694_895, 1_763_428, 34_000, 188_297_172,
                        48_693_836),
                    216_667_607,
                )
            );
            assert(has_key(self.entries(), HANDLE_LARISSA));
            assert(
                seeded_entry(
                    entry_of(self.entries(), HANDLE_LARISSA),
                    HANDLE_NEPTUNE,
                    Body {
                        mass_kg: 85_630_000_000_000_000,
                        radius_equator_m: 99_960,
                        radius_polar_m: 99_960,
                        axial_tilt_microdeg: 0,
                    },
                    seeded_elements(73_591_064_268, 1_696_576, 205_000, 378_844_329,
                        48_907_855),
                    428_613_425,
                )
            );
        }
    }

    /// Adds two dwarf-planet systems, Eris and Haumea with their moons, to the database.
    #[verifier::rlimit(100)]
    pub fn add_dwarf_planets(&mut self)
        requires
            old(self).wf(),
            old(self).entries().len() + 5 <= ENTRY_MAX,
            has_key(old(self).entries(), HANDLE_SOL),
            !has_key(old(self).entries(), HANDLE_ERIS),
            !has_key(old(self).entries(), HANDLE_DYSNOMIA),
            !has_key(old(self).entries(), HANDLE_HAUMEA),
            !has_key(old(self).entries(), HANDLE_HIIAKA),
            !has_key(old(self).entries(), HANDLE_NAMAKA),
        ensures
            final(self).wf(),
            final(self).entries().len() == old(self).entries().len() + 5,
            forall|h: u64|
                has_key(final(self).entries(), h) == (has_key(
                    old(self).entries(),
                    h,
                ) || h == HANDLE_ERIS || h == HANDLE_DYSNOMIA || h == HANDLE_HAUMEA || h == HANDLE_HIIAKA || h == HANDLE_NAMAKA),
            forall|h: u64|
                has_key(old(self).entries(), h) ==> #[trigger] entry_of(
                    final(self).entries(),
                    h,
                ) == entry_of(old(self).entries(), h),
            seeded_entry(
                entry_of(final(self).entries(), HANDLE_ERIS),
                HANDLE_SOL,
                Body {
                    mass_kg: 16_380_000_000_000_000_000_000,
                    radius_equator_m: 1_163_000,
                    radius_polar_m: 1_163_000,
                    axial_tilt_microdeg: 0,
                },
                seeded_elements(10_152_309_897_184, 436_070_000, 44_040_000, 151_639_000,
                    35_951_000),
                205_989_000,
            ),
            seeded_entry(
                entry_of(final(self).entries(), HANDLE_DYSNOMIA),
                HANDLE_ERIS,
                Body {
                    mass_kg: 82_000_000_000_000_000_000,
                    radius_equator_m: 307_500,
                    radius_polar_m: 307_500,
                    axial_tilt_microdeg: 0,
                },
                seeded_elements(37_237_000, 6_200_000, 0, 180_830_000,
                    126_170_000),
                205_989_000,
            ),
            seeded_entry(
                entry_of(final(self).entries(), HANDLE_HAUMEA),
                HANDLE_SOL,
                Body {
                    mass_kg: 4_006_000_000_000_000_000_000,
                    radius_equator_m: 780_000,
                    radius_polar_m: 780_000,
                    axial_tilt_microdeg: 0,
                },
                seeded_elements(6_450_061_793_101, 196_420_000, 28_213_700, 239_041_000,
                    122_167_000),
                218_205_000,
            ),
            seeded_entry(
                entry_of(final(self).entries(), HANDLE_HIIAKA),
                HANDLE_HAUMEA,
                Body {
                    mass_kg: 17_900_000_000_000_000_000,
                    radius_equator_m: 184_500,
                    radius_polar_m: 184_500,
                    axial_tilt_microdeg: 0,
                },
                seeded_elements(49_880_000, 51_300_000, 126_356_000, 154_100_000,
                    206_766_000),
                152_800_000,
            ),
            seeded_entry(
                entry_of(final(self).entries(), HANDLE_NAMAKA),
                HANDLE_HAUMEA,
                Body {
                    mass_kg: 1_790_000_000_000_000_000,
                    radius_equator_m: 85_000,
                    radius_polar_m: 85_000,
                    axial_tilt_microdeg: 0,
                },
                seeded_elements(25_657_000, 249_000_000, 113_013_000, 178_900_000,
                    205_016_000),
                178_500_000,
            ),
    {
        let info = Body::new(16_380_000_000_000_000_000_000, 1_163_000, 1_163_000, 0);
        let orbit = OrbitalElements::default().with_semimajor_axis_m(
            10_152_309_897_184,
        ).with_eccentricity(436_070_000).with_inclination_deg(
            44_040_000,
        ).with_arg_of_periapsis_deg(151_639_000).with_long_of_ascending_node_deg(
            35_951_000,
        );
        let entry = DatabaseEntry::new(info, "Eris".to_string()).with_parent(
            HANDLE_SOL,
            orbit,
        ).with_mean_anomaly_deg(205_989_000);
        let ghost before = self.entries();
        let ghost pair = (HANDLE_ERIS, entry);
        self.add_entry(HANDLE_ERIS, entry);
        proof {
            assert forall|h: u64|
                has_key(self.entries(), h) == (has_key(before, h) || h == HANDLE_ERIS) by {
                lemma_has_key_push(before, pair, h);
            }
            assert forall|h: u64| has_key(before, h) implies #[trigger] entry_of(
                self.entries(),
                h,
            ) == entry_of(before, h) by {
                lemma_entry_of_push(before, pair, h);
            }
            reveal(seeded_elements);
            reveal(seeded_entry);
            lemma_key_index_unique(self.entries(), HANDLE_ERIS, before.len() as int);
            assert(
                seeded_entry(
                    entry_of(self.entries(), HANDLE_ERIS),
                    HANDLE_SOL,
                    Body {
                        mass_kg: 16_380_000_000_000_000_000_000,
                        radius_equator_m: 1_163_000,
                        radius_polar_m: 1_163_000,
                        axial_tilt_microdeg: 0,
                    },
                    seeded_elements(10_152_309_897_184, 436_070_000, 44_040_000, 151_639_000,
                        35_951_000),
                    205_989_000,
                )
            );
        }
        let info = Body::new(82_000_000_000_000_000_000, 307_500, 307_500, 0);
        let orbit = OrbitalElements::default().with_semimajor_axis_m(
            37_237_000,
        ).with_eccentricity(6_200_000).with_inclination_deg(
            0,
        ).with_arg_of_periapsis_deg(180_830_000).with_long_of_ascending_node_deg(
            126_170_000,
        );
        let entry = DatabaseEntry::new(info, "Dysnomia".to_string()).with_parent(
            HANDLE_ERIS,
            orbit,
        ).with_mean_anomaly_deg(205_989_000);
        let ghost before = self.entries();
        let ghost pair = (HANDLE_DYSNOMIA, entry);
        self.add_entry(HANDLE_DYSNOMIA, entry);
        proof {
            assert forall|h: u64|
                has_key(self.entries(), h) == (has_key(before, h) || h == HANDLE_DYSNOMIA) by {
                lemma_has_key_push(before, pair, h);
            }
            assert forall|h: u64| has_key(before, h) implies #[trigger] entry_of(
                self.entries(),
                h,
            ) == entry_of(before, h) by {
                lemma_entry_of_push(before, pair, h);
            }
            reveal(seeded_elements);
            reveal(seeded_entry);
            lemma_key_index_unique(self.entries(), HANDLE_DYSNOMIA, before.len() as int);
            assert(
                seeded_entry(
                    entry_of(self.entries(), HANDLE_DYSNOMIA),
                    HANDLE_ERIS,
                    Body {
                        mass_kg: 82_000_000_000_000_000_000,
                        radius_equator_m: 307_500,
                        radius_polar_m: 307_500,
                        axial_tilt_microdeg: 0,
                    },
                    seeded_elements(37_237_000, 6_200_000, 0, 180_830_000,
                        126_170_000),
                    205_989_000,
                )
            );
        }
        let info = Body::new(4_006_000_000_000_000_000_000, 780_000, 780_000, 0);
        let orbit = OrbitalElements::default().with_semimajor_axis_m(
            6_450_061_793_101,
        ).with_eccentricity(196_420_000).with_inclination_deg(
            28_213_700,
        ).with_arg_of_periapsis_deg(239_041_000).with_long_of_ascending_node_deg(
            122_167_000,
        );
        let entry = DatabaseEntry::new(info, "Haumea".to_string()).with_parent(
            HANDLE_SOL,
            orbit,
        ).with_mean_anomaly_deg(218_205_000);
        let ghost before = self.entries();
        let ghost pair = (HANDLE_HAUMEA, entry);
        self.add_entry(HANDLE_HAUMEA, entry);
        proof {
            assert forall|h: u64|
                has_key(self.entries(), h) == (has_key(before, h) || h == HANDLE_HAUMEA) by {
                lemma_has_key_push(before, pair, h);
            }
            assert forall|h: u64| has_key(before, h) implies #[trigger] entry_of(
                self.entries(),
                h,
            ) == entry_of(before, h) by {
                lemma_entry_of_push(before, pair, h);
            }
            reveal(seeded_elements);
            reveal(seeded_entry);
            lemma_key_index_unique(self.entries(), HANDLE_HAUMEA, before.len() as int);
            assert(
                seeded_entry(
                    entry_of(self.entries(), HANDLE_HAUMEA),
                    HANDLE_SOL,
                    Body {
                        mass_kg: 4_006_000_000_000_000_000_000,
                        radius_equator_m: 780_000,
                        radius_polar_m: 780_000,
                        axial_tilt_microdeg: 0,
                    },
                    seeded_elements(6_450_061_793_101, 196_420_000, 28_213_700, 239_041_000,
                        122_167_000),
                    218_205_000,
                )
            );
        }
        let info = Body::new(17_900_000_000_000_000_000, 184_500, 184_500, 0);
        let orbit = OrbitalElements::default().with_semimajor_axis_m(
            49_880_000,
        ).with_eccentricity(51_300_000).with_inclination_deg(
            126_356_000,
        ).with_arg_of_periapsis_deg(154_100_000).with_long_of_ascending_node_deg(
            206_766_000,
        );
        let entry = DatabaseEntry::new(info, "Hi'iaka".to_string()).with_parent(
            HANDLE_HAUMEA,
            orbit,
        ).with_mean_anomaly_deg(152_800_000);
        let ghost before = self.entries();
        let ghost pair = (HANDLE_HIIAKA, entry);
        self.add_entry(HANDLE_HIIAKA, entry);
        proof {
            assert forall|h: u64|
                has_key(self.entries(), h) == (has_key(before, h) || h == HANDLE_HIIAKA) by {
                lemma_has_key_push(before, pair, h);
            }
            assert forall|h: u64| has_key(before, h) implies #[trigger] entry_of(
                self.entries(),
                h,
            ) == entry_of(before, h) by {
                lemma_entry_of_push(before, pair, h);
            }
            reveal(seeded_elements);
            reveal(seeded_entry);
            lemma_key_index_unique(self.entries(), HANDLE_HIIAKA, before.len() as int);
            assert(
                seeded_entry(
                    entry_of(self.entries(), HANDLE_HIIAKA),
                    HANDLE_HAUMEA,
                    Body {
                        mass_kg: 17_900_000_000_000_000_000,
                        radius_equator_m: 184_500,
                        radius_polar_m: 184_500,
                        axial_tilt_microdeg: 0,
                    },
                    seeded_elements(49_880_000, 51_300_000, 126_356_000, 154_100_000,
                        206_766_000),
                    152_800_000,
                )
            );
        }
        let info = Body::new(1_790_000_000_000_000_000, 85_000, 85_000, 0);
        let orbit = OrbitalElements::default().with_semimajor_axis_m(
            25_657_000,
        ).with_eccentricity(249_000_000).with_inclination_deg(
            113_013_000,
        ).with_arg_of_periapsis_deg(178_900_000).with_long_of_ascending_node_deg(
            205_016_000,
        );
        let entry = DatabaseEntry::new(info, "Namaka".to_string()).with_parent(
            HANDLE_HAUMEA,
            orbit,
        ).with_mean_anomaly_deg(178_500_000);
        let ghost before = self.entries();
        let ghost pair = (HANDLE_NAMAKA, entry);
        self.add_entry(HANDLE_NAMAKA, entry);
        proof {
            assert forall|h: u64|
                has_key(self.entries(), h) == (has_key(before, h) || h == HANDLE_NAMAKA) by {
                lemma_has_key_push(before, pair, h);
            }
            assert forall|h: u64| has_key(before, h) implies #[trigger] entry_of(
                self.entries(),
                h,
            ) == entry_of(before, h) by {
                lemma_entry_of_push(before, pair, h);
            }
            reveal(seeded_elements);
            reveal(seeded_entry);
            lemma_key_index_unique(self.entries(), HANDLE_NAMAKA, before.len() as int);
            assert(
                seeded_entry(
                    entry_of(self.entries(), HANDLE_NAMAKA),
                    HANDLE_HAUMEA,
                    Body {
                        mass_kg: 1_790_000_000_000_000_000,
                        radius_equator_m: 85_000,
                        radius_polar_m: 85_000,
                        axial_tilt_microdeg: 0,
                    },
                    seeded_elements(25_657_000, 249_000_000, 113_013_000, 178_900_000,
                        205_016_000),
                    178_500_000,
                )
            );
        }
    }

    /// The sun and the four rocky planets with their moons.
    #[verifier::rlimit(100)]
    fn add_sun_and_rocky_planets(&mut self)
        requires
            old(self).wf(),
            old(self).entries().len() + 8 <= ENTRY_MAX,
            !has_key(old(self).entries(), HANDLE_SOL),
            !has_key(old(self).entries(), HANDLE_MERCURY),
            !has_key(old(self).entries(), HANDLE_VENUS),
            !has_key(old(self).entries(), HANDLE_EARTH),
            !has_key(old(self).entries(), HANDLE_LUNA),
            !has_key(old(self).entries(), HANDLE_MARS),
            !has_key(old(self).entries(), HANDLE_PHOBOS),
            !has_key(old(self).entries(), HANDLE_DEIMOS),
        ensures
            final(self).wf(),
            final(self).entries().len() == old(self).entries().len() + 8,
            forall|h: u64|
                has_key(final(self).entries(), h) == (has_key(
                    old(self).entries(),
                    h,
                ) || h == HANDLE_SOL || h == HANDLE_MERCURY || h == HANDLE_VENUS || h == HANDLE_EARTH || h == HANDLE_LUNA || h == HANDLE_MARS || h == HANDLE_PHOBOS || h == HANDLE_DEIMOS),
            forall|h: u64|
                has_key(old(self).entries(), h) ==> #[trigger] entry_of(
                    final(self).entries(),
                    h,
                ) == entry_of(old(self).entries(), h),
            ({
                let e = entry_of(final(self).entries(), HANDLE_SOL);
                &&& e.parent is None
                &&& e.orbit is None
                &&& e.info == (Body {
                    mass_kg: MASS_SUN_KG,
                    radius_equator_m: RADIUS_SUN_M,
                    radius_polar_m: RADIUS_SUN_POLAR_M,
                    axial_tilt_microdeg: 0,
                })
                &&& e.mean_anomaly_at_epoch == 0
                &&& e.scale == SUN_SCALE_NANO
            }),
            seeded_entry(
                entry_of(final(self).entries(), HANDLE_MERCURY),
                HANDLE_SOL,
                Body {
                    mass_kg: 330_110_000_000_000_000_000_000,
                    radius_equator_m: 2_440_797,
                    radius_polar_m: 2_440_797,
                    axial_tilt_microdeg: 34_000,
                },
                seeded_elements(57_910_000_000, 205_630_000, 7_005_000, 29_124_000,
                    48_331_000),
                174_796_000,
            ),
            seeded_entry(
                entry_of(final(self).entries(), HANDLE_VENUS),
                HANDLE_SOL,
                Body {
                    mass_kg: 4_867_500_000_000_000_000_000_000,
                    radius_equator_m: 6_051_800,
                    radius_polar_m: 6_051_800,
                    axial_tilt_microdeg: 177_360_000,
                },
                seeded_elements(108_210_000_000, 6_772_000, 3_394_580, 54_884_000,
                    76_680_000),
                50_115_000,
            ),
            seeded_entry(
                entry_of(final(self).entries(), HANDLE_EARTH),
                HANDLE_SOL,
                Body {
                    mass_kg: MASS_EARTH_KG,
                    radius_equator_m: RADIUS_EARTH_EQUATOR_M,
                    radius_polar_m: RADIUS_EARTH_POLAR_M,
                    axial_tilt_microdeg: TILT_EARTH_MICRODEG,
                },
                seeded_elements(149_598_023_000, 16_708_600, 50, 114_207_830,
                    -11_260_640),
                358_617_000,
            ),
            seeded_entry(
                entry_of(final(self).entries(), HANDLE_LUNA),
                HANDLE_EARTH,
                Body {
                    mass_kg: 73_460_000_000_000_000_000_000,
                    radius_equator_m: 1_737_400,
                    radius_polar_m: 1_737_400,
                    axial_tilt_microdeg: 0,
                },
                seeded_elements(384_399_000, 54_900_000, -18_294_000, 114_207_830,
                    -11_260_640),
                90_000_000,
            ),
            seeded_entry(
                entry_of(final(self).entries(), HANDLE_MARS),
                HANDLE_SOL,
                Body {
                    mass_kg: 641_710_000_000_000_000_000_000,
                    radius_equator_m: 3_396_200,
                    radius_polar_m: 3_376_200,
                    axial_tilt_microdeg: 25_190_000,
                },
                seeded_elements(227_939_366_000, 93_400_000, 1_850_000, 286_500_000,
                    49_578_540),
                174_796_000,
            ),
            seeded_entry(
                entry_of(final(self).entries(), HANDLE_PHOBOS),
                HANDLE_MARS,
                Body {
                    mass_kg: 10_600_000_000_000_000,
                    radius_equator_m: 11_080,
                    radius_polar_m: 11_080,
                    axial_tilt_microdeg: 0,
                },
                seeded_elements(9_376_000, 15_100_000, 1_093_000, 381_523_663,
                    83_143_239),
                90_000_000,
            ),
            seeded_entry(
                entry_of(final(self).entries(), HANDLE_DEIMOS),
                HANDLE_MARS,
                Body {
                    mass_kg: 10_600_000_000_000_000,
                    radius_equator_m: 11_080,
                    radius_polar_m: 11_080,
                    axial_tilt_microdeg: 0,
                },
                seeded_elements(23_463_200, 330_000, 930_000, 386_193_544,
                    80_973_571),
                270_000_000,
            ),
    {
        self.add_sol();
        proof {
            assert(has_key(self.entries(), HANDLE_SOL));
            assert(
                ({
                    let e = entry_of(self.entries(), HANDLE_SOL);
                    &&& e.parent is None
                    &&& e.orbit is None
                    &&& e.info == (Body {
                        mass_kg: MASS_SUN_KG,
                        radius_equator_m: RADIUS_SUN_M,
                        radius_polar_m: RADIUS_SUN_POLAR_M,
                        axial_tilt_microdeg: 0,
                    })
                    &&& e.mean_anomaly_at_epoch == 0
                    &&& e.scale == SUN_SCALE_NANO
                })
            );
        }
        self.add_mercury();
        proof {
            assert(has_key(self.entries(), HANDLE_SOL));
            assert(
                ({
                    let e = entry_of(self.entries(), HANDLE_SOL);
                    &&& e.parent is None
                    &&& e.orbit is None
                    &&& e.info == (Body {
                        mass_kg: MASS_SUN_KG,
                        radius_equator_m: RADIUS_SUN_M,
                        radius_polar_m: RADIUS_SUN_POLAR_M,
                        axial_tilt_microdeg: 0,
                    })
                    &&& e.mean_anomaly_at_epoch == 0
                    &&& e.scale == SUN_SCALE_NANO
                })
            );
            assert(has_key(self.entries(), HANDLE_MERCURY));
            assert(
                seeded_entry(
                    entry_of(self.entries(), HANDLE_MERCURY),
                    HANDLE_SOL,
                    Body {
                        mass_kg: 330_110_000_000_000_000_000_000,
                        radius_equator_m: 2_440_797,
                        radius_polar_m: 2_440_797,
                        axial_tilt_microdeg: 34_000,
                    },
                    seeded_elements(57_910_000_000, 205_630_000, 7_005_000, 29_124_000,
                        48_331_000),
                    174_796_000,
                )
            );
        }
        self.add_venus();
        proof {
            assert(has_key(self.entries(), HANDLE_SOL));
            assert(
                ({
                    let e = entry_of(self.entries(), HANDLE_SOL);
                    &&& e.parent is None
                    &&& e.orbit is None
                    &&& e.info == (Body {
                        mass_kg: MASS_SUN_KG,
                        radius_equator_m: RADIUS_SUN_M,
                        radius_polar_m: RADIUS_SUN_POLAR_M,
                        axial_tilt_microdeg: 0,
                    })
                    &&& e.mean_anomaly_at_epoch == 0
                    &&& e.scale == SUN_SCALE_NANO
                })
            );
            assert(has_key(self.entries(), HANDLE_MERCURY));
            assert(
                seeded_entry(
                    entry_of(self.entries(), HANDLE_MERCURY),
                    HANDLE_SOL,
                    Body {
                        mass_kg: 330_110_000_000_000_000_000_000,
                        radius_equator_m: 2_440_797,
                        radius_polar_m: 2_440_797,
                        axial_tilt_microdeg: 34_000,
                    },
                    seeded_elements(57_910_000_000, 205_630_000, 7_005_000, 29_124_000,
                        48_331_000),
                    174_796_000,
                )
            );
            assert(has_key(self.entries(), HANDLE_VENUS));
            assert(
                seeded_entry(
                    entry_of(self.entries(), HANDLE_VENUS),
                    HANDLE_SOL,
                    Body {
                        mass_kg: 4_867_500_000_000_000_000_000_000,
                        radius_equator_m: 6_051_800,
                        radius_polar_m: 6_051_800,
                        axial_tilt_microdeg: 177_360_000,
                    },
                    seeded_elements(108_210_000_000, 6_772_000, 3_394_580, 54_884_000,
                        76_680_000),
                    50_115_000,
                )
            );
        }
        self.add_earth();
        proof {
            assert(has_key(self.entries(), HANDLE_SOL));
            assert(
                ({
                    let e = entry_of(self.entries(), HANDLE_SOL);
                    &&& e.parent is None
                    &&& e.orbit is None
                    &&& e.info == (Body {
                        mass_kg: MASS_SUN_KG,
                        radius_equator_m: RADIUS_SUN_M,
                        radius_polar_m: RADIUS_SUN_POLAR_M,
                        axial_tilt_microdeg: 0,
                    })
                    &&& e.mean_anomaly_at_epoch == 0
                    &&& e.scale == SUN_SCALE_NANO
                })
            );
            assert(has_key(self.entries(), HANDLE_MERCURY));
            assert(
                seeded_entry(
                    entry_of(self.entries(), HANDLE_MERCURY),
                    HANDLE_SOL,
                    Body {
                        mass_kg: 330_110_000_000_000_000_000_000,
                        radius_equator_m: 2_440_797,
                        radius_polar_m: 2_440_797,
                        axial_tilt_microdeg: 34_000,
                    },
                    seeded_elements(57_910_000_000, 205_630_000, 7_005_000, 29_124_000,
                        48_331_000),
                    174_796_000,
                )
            );
            assert(has_key(self.entries(), HANDLE_VENUS));
            assert(
                seeded_entry(
                    entry_of(self.entries(), HANDLE_VENUS),
                    HANDLE_SOL,
                    Body {
                        mass_kg: 4_867_500_000_000_000_000_000_000,
                        radius_equator_m: 6_051_800,
                        radius_polar_m: 6_051_800,
                        axial_tilt_microdeg: 177_360_000,
                    },
                    seeded_elements(108_210_000_000, 6_772_000, 3_394_580, 54_884_000,
                        76_680_000),
                    50_115_000,
                )
            );
            assert(has_key(self.entries(), HANDLE_EARTH));
            assert(
                seeded_entry(
                    entry_of(self.entries(), HANDLE_EARTH),
                    HANDLE_SOL,
                    Body {
                        mass_kg: MASS_EARTH_KG,
                        radius_equator_m: RADIUS_EARTH_EQUATOR_M,
                        radius_polar_m: RADIUS_EARTH_POLAR_M,
                        axial_tilt_microdeg: TILT_EARTH_MICRODEG,
                    },
                    seeded_elements(149_598_023_000, 16_708_600, 50, 114_207_830,
                        -11_260_640),
                    358_617_000,
                )
            );
            assert(has_key(self.entries(), HANDLE_LUNA));
            assert(
                seeded_entry(
                    entry_of(self.entries(), HANDLE_LUNA),
                    HANDLE_EARTH,
                    Body {
                        mass_kg: 73_460_000_000_000_000_000_000,
                        radius_equator_m: 1_737_400,
                        radius_polar_m: 1_737_400,
                        axial_tilt_microdeg: 0,
                    },
                    seeded_elements(384_399_000, 54_900_000, -18_294_000, 114_207_830,
                        -11_260_640),
                    90_000_000,
                )
            );
        }
        self.add_mars();
        proof {
            assert(has_key(self.entries(), HANDLE_SOL));
            assert(
                ({
                    let e = entry_of(self.entries(), HANDLE_SOL);
                    &&& e.parent is None
                    &&& e.orbit is None
                    &&& e.info == (Body {
                        mass_kg: MASS_SUN_KG,
                        radius_equator_m: RADIUS_SUN_M,
                        radius_polar_m: RADIUS_SUN_POLAR_M,
                        axial_tilt_microdeg: 0,
                    })
                    &&& e.mean_anomaly_at_epoch == 0
                    &&& e.scale == SUN_SCALE_NANO
                })
            );
            assert(has_key(self.entries(), HANDLE_MERCURY));
            assert(
                seeded_entry(
                    entry_of(self.entries(), HANDLE_MERCURY),
                    HANDLE_SOL,
                    Body {
                        mass_kg: 330_110_000_000_000_000_000_000,
                        radius_equator_m: 2_440_797,
                        radius_polar_m: 2_440_797,
                        axial_tilt_microdeg: 34_000,
                    },
                    seeded_elements(57_910_000_000, 205_630_000, 7_005_000, 29_124_000,
                        48_331_000),
                    174_796_000,
                )
            );
            assert(has_key(self.entries(), HANDLE_VENUS));
            assert(
                seeded_entry(
                    entry_of(self.entries(), HANDLE_VENUS),
                    HANDLE_SOL,
                    Body {
                        mass_kg: 4_867_500_000_000_000_000_000_000,
                        radius_equator_m: 6_051_800,
                        radius_polar_m: 6_051_800,
                        axial_tilt_microdeg: 177_360_000,
                    },
                    seeded_elements(108_210_000_000, 6_772_000, 3_394_580, 54_884_000,
                        76_680_000),
                    50_115_000,
                )
            );
            assert(has_key(self.entries(), HANDLE_EARTH));
            assert(
                seeded_entry(
                    entry_of(self.entries(), HANDLE_EARTH),
                    HANDLE_SOL,
                    Body {
                        mass_kg: MASS_EARTH_KG,
                        radius_equator_m: RADIUS_EARTH_EQUATOR_M,
                        radius_polar_m: RADIUS_EARTH_POLAR_M,
                        axial_tilt_microdeg: TILT_EARTH_MICRODEG,
                    },
                    seeded_elements(149_598_023_000, 16_708_600, 50, 114_207_830,
                        -11_260_640),
                    358_617_000,
                )
            );
            assert(has_key(self.entries(), HANDLE_LUNA));
            assert(
                seeded_entry(
                    entry_of(self.entries(), HANDLE_LUNA),
                    HANDLE_EARTH,
                    Body {
                        mass_kg: 73_460_000_000_000_000_000_000,
                        radius_equator_m: 1_737_400,
                        radius_polar_m: 1_737_400,
                        axial_tilt_microdeg: 0,
                    },
                    seeded_elements(384_399_000, 54_900_000, -18_294_000, 114_207_830,
                        -11_260_640),
                    90_000_000,
                )
            );
            assert(has_key(self.entries(), HANDLE_MARS));
            assert(
                seeded_entry(
                    entry_of(self.entries(), HANDLE_MARS),
                    HANDLE_SOL,
                    Body {
                        mass_kg: 641_710_000_000_000_000_000_000,
                        radius_equator_m: 3_396_200,
                        radius_polar_m: 3_376_200,
                        axial_tilt_microdeg: 25_190_000,
                    },
                    seeded_elements(227_939_366_000, 93_400_000, 1_850_000, 286_500_000,
                        49_578_540),
                    174_796_000,
                )
            );
            assert(has_key(self.entries(), HANDLE_PHOBOS));
            assert(
                seeded_entry(
                    entry_of(self.entries(), HANDLE_PHOBOS),
                    HANDLE_MARS,
                    Body {
                        mass_kg: 10_600_000_000_000_000,
                        radius_equator_m: 11_080,
                        radius_polar_m: 11_080,
                        axial_tilt_microdeg: 0,
                    },
                    seeded_elements(9_376_000, 15_100_000, 1_093_000, 381_523_663,
                        83_143_239),
                    90_000_000,
                )
            );
            assert(has_key(self.entries(), HANDLE_DEIMOS));
            assert(
                seeded_entry(
                    entry_of(self.entries(), HANDLE_DEIMOS),
                    HANDLE_MARS,
                    Body {
                        mass_kg: 10_600_000_000_000_000,
                        radius_equator_m: 11_080,
                        radius_polar_m: 11_080,
                        axial_tilt_microdeg: 0,
                    },
                    seeded_elements(23_463_200, 330_000, 930_000, 386_193_544,
                        80_973_571),
                    270_000_000,
                )
            );
        }
    }
    /// The two gas giants with their moons.
    #[verifier::rlimit(100)]
    fn add_giant_planets(&mut self)
        requires
            old(self).wf(),
            old(self).entries().len() + 25 <= ENTRY_MAX,
            has_key(old(self).entries(), HANDLE_SOL),
            !has_key(old(self).entries(), HANDLE_JUPITER),
            !has_key(old(self).entries(), HANDLE_IO),
            !has_key(old(self).entries(), HANDLE_EUROPA),
            !has_key(old(self).entries(), HANDLE_GANYMEDE),
            !has_key(old(self).entries(), HANDLE_CALLISTO),
            !has_key(old(self).entries(), HANDLE_AMALTHEA),
            !has_key(old(self).entries(), HANDLE_HIMALIA),
            !has_key(old(self).entries(), HANDLE_ELARA),
            !has_key(old(self).entries(), HANDLE_PASIPHAE),
            !has_key(old(self).entries(), HANDLE_SINOPE),
            !has_key(old(self).entries(), HANDLE_LYSITHEA),
            !has_key(old(self).entries(), HANDLE_CARME),
            !has_key(old(self).entries(), HANDLE_ANANKE),
            !has_key(old(self).entries(), HANDLE_LEDA),
            !has_key(old(self).entries(), HANDLE_SATURN),
            !has_key(old(self).entries(), HANDLE_MIMAS),
            !has_key(old(self).entries(), HANDLE_ENCELADUS),
            !has_key(old(self).entries(), HANDLE_TETHYS),
            !has_key(old(self).entries(), HANDLE_DIONE),
            !has_key(old(self).entries(), HANDLE_RHEA),
            !has_key(old(self).entries(), HANDLE_TITAN),
            !has_key(old(self).entries(), HANDLE_HYPERION),
            !has_key(old(self).entries(), HANDLE_IAPETUS),
            !has_key(old(self).entries(), HANDLE_PHOEBE),
            !has_key(old(self).entries(), HANDLE_JANUS),
        ensures
            final(self).wf(),
            final(self).entries().len() == old(self).entries().len() + 25,
            forall|h: u64|
                has_key(final(self).entries(), h) == (has_key(
                    old(self).entries(),
                    h,
                ) || h == HANDLE_JUPITER || h == HANDLE_IO || h == HANDLE_EUROPA || h == HANDLE_GANYMEDE || h == HANDLE_CALLISTO || h == HANDLE_AMALTHEA || h == HANDLE_HIMALIA || h == HANDLE_ELARA || h == HANDLE_PASIPHAE || h == HANDLE_SINOPE || h == HANDLE_LYSITHEA || h == HANDLE_CARME || h == HANDLE_ANANKE || h == HANDLE_LEDA || h == HANDLE_SATURN || h == HANDLE_MIMAS || h == HANDLE_ENCELADUS || h == HANDLE_TETHYS || h == HANDLE_DIONE || h == HANDLE_RHEA || h == HANDLE_TITAN || h == HANDLE_HYPERION || h == HANDLE_IAPETUS || h == HANDLE_PHOEBE || h == HANDLE_JANUS),
            forall|h: u64|
                has_key(old(self).entries(), h) ==> #[trigger] entry_of(
                    final(self).entries(),
                    h,
                ) == entry_of(old(self).entries(), h),
            seeded_entry(
                entry_of(final(self).entries(), HANDLE_JUPITER),
                HANDLE_SOL,
                Body {
                    mass_kg: 1_898_200_000_000_000_000_000_000_000,
                    radius_equator_m: 71_492_000,
                    radius_polar_m: 66_854_000,
                    axial_tilt_microdeg: 3_130_000,
                },
                seeded_elements(778_477_399_548, 48_900_000, 1_303_000, 273_867_000,
                    100_464_000),
                20_020_000,
            ),
            seeded_entry(
                entry_of(final(self).entries(), HANDLE_IO),
                HANDLE_JUPITER,
                Body {
                    mass_kg: 89_300_000_000_000_000_000_000,
                    radius_equator_m: 1_821_600,
                    radius_polar_m: 1_821_600,
                    axial_tilt_microdeg: 0,
                },
                seeded_elements(422_025_278, 4_188_671, 50_000, 654_351_898,
                    737_154_208),
                90_000_000,
            ),
            seeded_entry(
                entry_of(final(self).entries(), HANDLE_EUROPA),
                HANDLE_JUPITER,
                Body {
                    mass_kg: 48_000_000_000_000_000_000_000,
                    radius_equator_m: 1_565_000,
                    radius_polar_m: 1_565_000,
                    axial_tilt_microdeg: 0,
                },
                seeded_elements(671_193_628, 9_402_884, 470_000, 468_899_300,
                    350_526_057),
                270_000_000,
            ),
            seeded_entry(
                entry_of(final(self).entries(), HANDLE_GANYMEDE),
                HANDLE_JUPITER,
                Body {
                    mass_kg: 148_000_000_000_000_000_000_000,
                    radius_equator_m: 2_634_000,
                    radius_polar_m: 2_634_000,
                    axial_tilt_microdeg: 0,
                },
                seeded_elements(1_070_615_470, 1_587_629, 200_000, 621_291_691,
                    341_695_992),
                270_000_000,
            ),
            seeded_entry(
                entry_of(final(self).entries(), HANDLE_CALLISTO),
                HANDLE_JUPITER,
                Body {
                    mass_kg: 107_593_800_000_000_000_000_000,
                    radius_equator_m: 2_410_300,
                    radius_polar_m: 2_410_300,
                    axial_tilt_microdeg: 0,
                },
                seeded_elements(1_882_700_000, 7_400_000, 192_000, 698_808_358,
                    339_482_965),
                839_975_751,
            ),
            seeded_entry(
                entry_of(final(self).entries(), HANDLE_AMALTHEA),
                HANDLE_JUPITER,
                Body {
                    mass_kg: 2_080_000_000_000_000_000,
                    radius_equator_m: 83_500,
                    radius_polar_m: 83_500,
                    axial_tilt_microdeg: 0,
                },
                seeded_elements(181_365_840, 441_428, 374_000, 414_339_943,
                    342_032_315),
                270_000_000,
            ),
            seeded_entry(
                entry_of(final(self).entries(), HANDLE_HIMALIA),
                HANDLE_JUPITER,
                Body {
                    mass_kg: 9_560_000_000_000_000_000,
                    radius_equator_m: 93_150,
                    radius_polar_m: 93_150,
                    axial_tilt_microdeg: 0,
                },
                seeded_elements(11_394_679_431, 148_020_288, 28_100_000, 405_592_890,
                    57_786_525),
                270_000_000,
            ),
            seeded_entry(
                entry_of(final(self).entries(), HANDLE_ELARA),
                HANDLE_JUPITER,
                Body {
                    mass_kg: 777_000_000_000_000_000,
                    radius_equator_m: 38_500,
                    radius_polar_m: 38_500,
                    axial_tilt_microdeg: 0,
                },
                seeded_elements(11_724_775_187, 196_015_925, 27_900_000, 254_812_870,
                    104_680_792),
                270_000_000,
            ),
            seeded_entry(
                entry_of(final(self).entries(), HANDLE_PASIPHAE),
                HANDLE_JUPITER,
                Body {
                    mass_kg: 191_000_000_000_000_000,
                    radius_equator_m: 25_700,
                    radius_polar_m: 25_700,
                    axial_tilt_microdeg: 0,
                },
                seeded_elements(23_398_199_225, 369_532_583, 148_400_000, 529_781_057,
                    333_722_656),
                270_000_000,
            ),
            seeded_entry(
                entry_of(final(self).entries(), HANDLE_SINOPE),
                HANDLE_JUPITER,
                Body {
                    mass_kg: 77_700_000_000_000_000,
                    radius_equator_m: 18_100,
                    radius_polar_m: 18_100,
                    axial_tilt_microdeg: 0,
                },
                seeded_elements(23_731_586_385, 286_212_248, 157_300_000, 330_014_714,
                    326_138_400),
                578_187_135,
            ),
            seeded_entry(
                entry_of(final(self).entries(), HANDLE_LYSITHEA),
                HANDLE_JUPITER,
                Body {
                    mass_kg: 77_700_000_000_000_000,
                    radius_equator_m: 18_200,
                    radius_polar_m: 18_200,
                    axial_tilt_microdeg: 0,
                },
                seeded_elements(11_681_680_564, 133_982_901, 27_200_000, 64_872_621,
                    1_252_118),
                158_993_906,
            ),
            seeded_entry(
                entry_of(final(self).entries(), HANDLE_CARME),
                HANDLE_JUPITER,
                Body {
                    mass_kg: 95_600_000_000_000_000,
                    radius_equator_m: 39_200,
                    radius_polar_m: 39_200,
                    axial_tilt_microdeg: 0,
                },
                seeded_elements(22_846_253_568, 222_748_653, 164_300_000, 199_239_805,
                    143_056_427),
                545_059_221,
            ),
            seeded_entry(
                entry_of(final(self).entries(), HANDLE_ANANKE),
                HANDLE_JUPITER,
                Body {
                    mass_kg: 38_200_000_000_000_000,
                    radius_equator_m: 14_900,
                    radius_polar_m: 14_900,
                    axial_tilt_microdeg: 0,
                },
                seeded_elements(21_178_519_961, 360_749_649, 147_600_000, 131_881_909,
                    39_194_106),
                365_178_243,
            ),
            seeded_entry(
                entry_of(final(self).entries(), HANDLE_LEDA),
                HANDLE_JUPITER,
                Body {
                    mass_kg: 5_680_000_000_000_000,
                    radius_equator_m: 21_500,
                    radius_polar_m: 21_500,
                    axial_tilt_microdeg: 0,
                },
                seeded_elements(11_195_980_000, 360_749_649, 28_600_000, 312_929_650,
                    190_184_970),
                137_025_710,
            ),
            seeded_entry(
                entry_of(final(self).entries(), HANDLE_SATURN),
                HANDLE_SOL,
                Body {
                    mass_kg: 568_340_000_000_000_000_000_000_000,
                    radius_equator_m: 60_268_000,
                    radius_polar_m: 54_364_000,
                    axial_tilt_microdeg: 26_730_000,
                },
                seeded_elements(1_433_536_555_769, 56_500_000, 2_485_000, 339_392_000,
                    113_665_000),
                317_020_000,
            ),
            seeded_entry(
                entry_of(final(self).entries(), HANDLE_MIMAS),
                HANDLE_SATURN,
                Body {
                    mass_kg: 38_000_000_000_000_000_000,
                    radius_equator_m: 196_000,
                    radius_polar_m: 196_000,
                    axial_tilt_microdeg: 0,
                },
                seeded_elements(186_037_830, 21_513_348, 1_600_000, 449_370_429,
                    167_307_082),
                772_976_419,
            ),
            seeded_entry(
                entry_of(final(self).entries(), HANDLE_ENCELADUS),
                HANDLE_SATURN,
                Body {
                    mass_kg: 73_000_000_000_000_000_000,
                    radius_equator_m: 249_000,
                    radius_polar_m: 249_000,
                    axial_tilt_microdeg: 0,
                },
                seeded_elements(238_408_052, 372_459, 0, 264_678_197,
                    169_520_486),
                384_119_889,
            ),
            seeded_entry(
                entry_of(final(self).entries(), HANDLE_TETHYS),
                HANDLE_SATURN,
                Body {
                    mass_kg: 622_000_000_000_000_000_000,
                    radius_equator_m: 530_000,
                    radius_polar_m: 530_000,
                    axial_tilt_microdeg: 0,
                },
                seeded_elements(294_982_634, 1_075_326, 1_100_000, 496_824_627,
                    169_153_256),
                502_612_336,
            ),
            seeded_entry(
                entry_of(final(self).entries(), HANDLE_DIONE),
                HANDLE_SATURN,
                Body {
                    mass_kg: 1_050_000_000_000_000_000_000,
                    radius_equator_m: 560_000,
                    radius_polar_m: 560_000,
                    axial_tilt_microdeg: 0,
                },
                seeded_elements(377_653_774, 2_731_840, 0, 5_080_259_012,
                    169_572_308),
                856_824_114,
            ),
            seeded_entry(
                entry_of(final(self).entries(), HANDLE_RHEA),
                HANDLE_SATURN,
                Body {
                    mass_kg: 2_490_000_000_000_000_000_000,
                    radius_equator_m: 764_000,
                    radius_polar_m: 764_000,
                    axial_tilt_microdeg: 0,
                },
                seeded_elements(527_225_476, 909_561, 300_000, 360_969_247,
                    168_807_983),
                448_734_226,
            ),
            seeded_entry(
                entry_of(final(self).entries(), HANDLE_TITAN),
                HANDLE_SATURN,
                Body {
                    mass_kg: 135_000_000_000_000_000_000_000,
                    radius_equator_m: 2_575_000,
                    radius_polar_m: 2_575_000,
                    axial_tilt_microdeg: 0,
                },
                seeded_elements(1_221_971_852, 28_645_563, 300_000, 336_249_138,
                    169_142_780),
                143_054_244,
            ),
            seeded_entry(
                entry_of(final(self).entries(), HANDLE_HYPERION),
                HANDLE_SATURN,
                Body {
                    mass_kg: 17_700_000_000_000_000_000,
                    radius_equator_m: 143_000,
                    radius_polar_m: 143_000,
                    axial_tilt_microdeg: 0,
                },
                seeded_elements(1_447_200_000, 75_700_000, 600_000, 182_895_000,
                    168_900_000),
                301_600_000,
            ),
            seeded_entry(
                entry_of(final(self).entries(), HANDLE_IAPETUS),
                HANDLE_SATURN,
                Body {
                    mass_kg: 16_000_000_000_000_000_000_000,
                    radius_equator_m: 730_000,
                    radius_polar_m: 730_000,
                    axial_tilt_microdeg: 0,
                },
                seeded_elements(3_563_513_670, 27_406_715, 7_600_000, 369_297_405,
                    139_318_255),
                551_098_555,
            ),
            seeded_entry(
                entry_of(final(self).entries(), HANDLE_PHOEBE),
                HANDLE_SATURN,
                Body {
                    mass_kg: 7_800_000_000_000_000,
                    radius_equator_m: 3_000,
                    radius_polar_m: 3_000,
                    axial_tilt_microdeg: 0,
                },
                seeded_elements(12_995_759_988, 15_614, 175_200_000, 104_242_486,
                    208_626_701),
                108_701_283,
            ),
            seeded_entry(
                entry_of(final(self).entries(), HANDLE_JANUS),
                HANDLE_SATURN,
                Body {
                    mass_kg: 7_000_000_000_000_000,
                    radius_equator_m: 3_000,
                    radius_polar_m: 3_000,
                    axial_tilt_microdeg: 0,
                },
                seeded_elements(151_460_988, 14, 200_000, 104_242_486,
                    208_626_701),
                108_701_283,
            ),
    {
        self.add_jupiter();
        proof {
            assert(has_key(self.entries(), HANDLE_JUPITER));
            assert(
                seeded_entry(
                    entry_of(self.entries(), HANDLE_JUPITER),
                    HANDLE_SOL,
                    Body {
                        mass_kg: 1_898_200_000_000_000_000_000_000_000,
                        radius_equator_m: 71_492_000,
                        radius_polar_m: 66_854_000,
                        axial_tilt_microdeg: 3_130_000,
                    },
                    seeded_elements(778_477_399_548, 48_900_000, 1_303_000, 273_867_000,
                        100_464_000),
                    20_020_000,
                )
            );
            assert(has_key(self.entries(), HANDLE_IO));
            assert(
                seeded_entry(
                    entry_of(self.entries(), HANDLE_IO),
                    HANDLE_JUPITER,
                    Body {
                        mass_kg: 89_300_000_000_000_000_000_000,
                        radius_equator_m: 1_821_600,
                        radius_polar_m: 1_821_600,
                        axial_tilt_microdeg: 0,
                    },
                    seeded_elements(422_025_278, 4_188_671, 50_000, 654_351_898,
                        737_154_208),
                    90_000_000,
                )
            );
            assert(has_key(self.entries(), HANDLE_EUROPA));
            assert(
                seeded_entry(
                    entry_of(self.entries(), HANDLE_EUROPA),
                    HANDLE_JUPITER,
                    Body {
                        mass_kg: 48_000_000_000_000_000_000_000,
                        radius_equator_m: 1_565_000,
                        radius_polar_m: 1_565_000,
                        axial_tilt_microdeg: 0,
                    },
                    seeded_elements(671_193_628, 9_402_884, 470_000, 468_899_300,
                        350_526_057),
                    270_000_000,
                )
            );
            assert(has_key(self.entries(), HANDLE_GANYMEDE));
            assert(
                seeded_entry(
                    entry_of(self.entries(), HANDLE_GANYMEDE),
                    HANDLE_JUPITER,
                    Body {
                        mass_kg: 148_000_000_000_000_000_000_000,
                        radius_equator_m: 2_634_000,
                        radius_polar_m: 2_634_000,
                        axial_tilt_microdeg: 0,
                    },
                    seeded_elements(1_070_615_470, 1_587_629, 200_000, 621_291_691,
                        341_695_992),
                    270_000_000,
                )
            );
            assert(has_key(self.entries(), HANDLE_CALLISTO));
            assert(
                seeded_entry(
                    entry_of(self.entries(), HANDLE_CALLISTO),
                    HANDLE_JUPITER,
                    Body {
                        mass_kg: 107_593_800_000_000_000_000_000,
                        radius_equator_m: 2_410_300,
                        radius_polar_m: 2_410_300,
                        axial_tilt_microdeg: 0,
                    },
                    seeded_elements(1_882_700_000, 7_400_000, 192_000, 698_808_358,
                        339_482_965),
                    839_975_751,
                )
            );
            assert(has_key(self.entries(), HANDLE_AMALTHEA));
            assert(
                seeded_entry(
                    entry_of(self.entries(), HANDLE_AMALTHEA),
                    HANDLE_JUPITER,
                    Body {
                        mass_kg: 2_080_000_000_000_000_000,
                        radius_equator_m: 83_500,
                        radius_polar_m: 83_500,
                        axial_tilt_microdeg: 0,
                    },
                    seeded_elements(181_365_840, 441_428, 374_000, 414_339_943,
                        342_032_315),
                    270_000_000,
                )
            );
            assert(has_key(self.entries(), HANDLE_HIMALIA));
            assert(
                seeded_entry(
                    entry_of(self.entries(), HANDLE_HIMALIA),
                    HANDLE_JUPITER,
                    Body {
                        mass_kg: 9_560_000_000_000_000_000,
                        radius_equator_m: 93_150,
                        radius_polar_m: 93_150,
                        axial_tilt_microdeg: 0,
                    },
                    seeded_elements(11_394_679_431, 148_020_288, 28_100_000, 405_592_890,
                        57_786_525),
                    270_000_000,
                )
            );
            assert(has_key(self.entries(), HANDLE_ELARA));
            assert(
                seeded_entry(
                    entry_of(self.entries(), HANDLE_ELARA),
                    HANDLE_JUPITER,
                    Body {
                        mass_kg: 777_000_000_000_000_000,
                        radius_equator_m: 38_500,
                        radius_polar_m: 38_500,
                        axial_tilt_microdeg: 0,
                    },
                    seeded_elements(11_724_775_187, 196_015_925, 27_900_000, 254_812_870,
                        104_680_792),
                    270_000_000,
                )
            );
            assert(has_key(self.entries(), HANDLE_PASIPHAE));
            assert(
                seeded_entry(
                    entry_of(self.entries(), HANDLE_PASIPHAE),
                    HANDLE_JUPITER,
                    Body {
                        mass_kg: 191_000_000_000_000_000,
                        radius_equator_m: 25_700,
                        radius_polar_m: 25_700,
                        axial_tilt_microdeg: 0,
                    },
                    seeded_elements(23_398_199_225, 369_532_583, 148_400_000, 529_781_057,
                        333_722_656),
                    270_000_000,
                )
            );
            assert(has_key(self.entries(), HANDLE_SINOPE));
            assert(
                seeded_entry(
                    entry_of(self.entries(), HANDLE_SINOPE),
                    HANDLE_JUPITER,
                    Body {
                        mass_kg: 77_700_000_000_000_000,
                        radius_equator_m: 18_100,
                        radius_polar_m: 18_100,
                        axial_tilt_microdeg: 0,
                    },
                    seeded_elements(23_731_586_385, 286_212_248, 157_300_000, 330_014_714,
                        326_138_400),
                    578_187_135,
                )
            );
            assert(has_key(self.entries(), HANDLE_LYSITHEA));
            assert(
                seeded_entry(
                    entry_of(self.entries(), HANDLE_LYSITHEA),
                    HANDLE_JUPITER,
                    Body {
                        mass_kg: 77_700_000_000_000_000,
                        radius_equator_m: 18_200,
                        radius_polar_m: 18_200,
                        axial_tilt_microdeg: 0,
                    },
                    seeded_elements(11_681_680_564, 133_982_901, 27_200_000, 64_872_621,
                        1_252_118),
                    158_993_906,
                )
            );
            assert(has_key(self.entries(), HANDLE_CARME));
            assert(
                seeded_entry(
                    entry_of(self.entries(), HANDLE_CARME),
                    HANDLE_JUPITER,
                    Body {
                        mass_kg: 95_600_000_000_000_000,
                        radius_equator_m: 39_200,
                        radius_polar_m: 39_200,
                        axial_tilt_microdeg: 0,
                    },
                    seeded_elements(22_846_253_568, 222_748_653, 164_300_000, 199_239_805,
                        143_056_427),
                    545_059_221,
                )
            );
            assert(has_key(self.entries(), HANDLE_ANANKE));
            assert(
                seeded_entry(
                    entry_of(self.entries(), HANDLE_ANANKE),
                    HANDLE_JUPITER,
                    Body {
                        mass_kg: 38_200_000_000_000_000,
                        radius_equator_m: 14_900,
                        radius_polar_m: 14_900,
                        axial_tilt_microdeg: 0,
                    },
                    seeded_elements(21_178_519_961, 360_749_649, 147_600_000, 131_881_909,
                        39_194_106),
                    365_178_243,
                )
            );
            assert(has_key(self.entries(), HANDLE_LEDA));
            assert(
                seeded_entry(
                    entry_of(self.entries(), HANDLE_LEDA),
                    HANDLE_JUPITER,
                    Body {
                        mass_kg: 5_680_000_000_000_000,
                        radius_equator_m: 21_500,
                        radius_polar_m: 21_500,
                        axial_tilt_microdeg: 0,
                    },
                    seeded_elements(11_195_980_000, 360_749_649, 28_600_000, 312_929_650,
                        190_184_970),
                    137_025_710,
                )
            );
        }
        self.add_saturn();
        proof {
            assert(has_key(self.entries(), HANDLE_JUPITER));
            assert(
                seeded_entry(
                    entry_of(self.entries(), HANDLE_JUPITER),
                    HANDLE_SOL,
                    Body {
                        mass_kg: 1_898_200_000_000_000_000_000_000_000,
                        radius_equator_m: 71_492_000,
                        radius_polar_m: 66_854_000,
                        axial_tilt_microdeg: 3_130_000,
                    },
                    seeded_elements(778_477_399_548, 48_900_000, 1_303_000, 273_867_000,
                        100_464_000),
                    20_020_000,
                )
            );
            assert(has_key(self.entries(), HANDLE_IO));
            assert(
                seeded_entry(
                    entry_of(self.entries(), HANDLE_IO),
                    HANDLE_JUPITER,
                    Body {
                        mass_kg: 89_300_000_000_000_000_000_000,
                        radius_equator_m: 1_821_600,
                        radius_polar_m: 1_821_600,
                        axial_tilt_microdeg: 0,
                    },
                    seeded_elements(422_025_278, 4_188_671, 50_000, 654_351_898,
                        737_154_208),
                    90_000_000,
                )
            );
            assert(has_key(self.entries(), HANDLE_EUROPA));
            assert(
                seeded_entry(
                    entry_of(self.entries(), HANDLE_EUROPA),
                    HANDLE_JUPITER,
                    Body {
                        mass_kg: 48_000_000_000_000_000_000_000,
                        radius_equator_m: 1_565_000,
                        radius_polar_m: 1_565_000,
                        axial_tilt_microdeg: 0,
                    },
                    seeded_elements(671_193_628, 9_402_884, 470_000, 468_899_300,
                        350_526_057),
                    270_000_000,
                )
            );
            assert(has_key(self.entries(), HANDLE_GANYMEDE));
            assert(
                seeded_entry(
                    entry_of(self.entries(), HANDLE_GANYMEDE),
                    HANDLE_JUPITER,
                    Body {
                        mass_kg: 148_000_000_000_000_000_000_000,
                        radius_equator_m: 2_634_000,
                        radius_polar_m: 2_634_000,
                        axial_tilt_microdeg: 0,
                    },
                    seeded_elements(1_070_615_470, 1_587_629, 200_000, 621_291_691,
                        341_695_992),
                    270_000_000,
                )
            );
            assert(has_key(self.entries(), HANDLE_CALLISTO));
            assert(
                seeded_entry(
                    entry_of(self.entries(), HANDLE_CALLISTO),
                    HANDLE_JUPITER,
                    Body {
                        mass_kg: 107_593_800_000_000_000_000_000,
                        radius_equator_m: 2_410_300,
                        radius_polar_m: 2_410_300,
                        axial_tilt_microdeg: 0,
                    },
                    seeded_elements(1_882_700_000, 7_400_000, 192_000, 698_808_358,
                        339_482_965),
                    839_975_751,
                )
            );
            assert(has_key(self.entries(), HANDLE_AMALTHEA));
            assert(
                seeded_entry(
                    entry_of(self.entries(), HANDLE_AMALTHEA),
                    HANDLE_JUPITER,
                    Body {
                        mass_kg: 2_080_000_000_000_000_000,
                        radius_equator_m: 83_500,
                        radius_polar_m: 83_500,
                        axial_tilt_microdeg: 0,
                    },
                    seeded_elements(181_365_840, 441_428, 374_000, 414_339_943,
                        342_032_315),
                    270_000_000,
                )
            );
            assert(has_key(self.entries(), HANDLE_HIMALIA));
            assert(
                seeded_entry(
                    entry_of(self.entries(), HANDLE_HIMALIA),
                    HANDLE_JUPITER,
                    Body {
                        mass_kg: 9_560_000_000_000_000_000,
                        radius_equator_m: 93_150,
                        radius_polar_m: 93_150,
                        axial_tilt_microdeg: 0,
                    },
                    seeded_elements(11_394_679_431, 148_020_288, 28_100_000, 405_592_890,
                        57_786_525),
                    270_000_000,
                )
            );
            assert(has_key(self.entries(), HANDLE_ELARA));
            assert(
                seeded_entry(
                    entry_of(self.entries(), HANDLE_ELARA),
                    HANDLE_JUPITER,
                    Body {
                        mass_kg: 777_000_000_000_000_000,
                        radius_equator_m: 38_500,
                        radius_polar_m: 38_500,
                        axial_tilt_microdeg: 0,
                    },
                    seeded_elements(11_724_775_187, 196_015_925, 27_900_000, 254_812_870,
                        104_680_792),
                    270_000_000,
                )
            );
            assert(has_key(self.entries(), HANDLE_PASIPHAE));
            assert(
                seeded_entry(
                    entry_of(self.entries(), HANDLE_PASIPHAE),
                    HANDLE_JUPITER,
                    Body {
                        mass_kg: 191_000_000_000_000_000,
                        radius_equator_m: 25_700,
                        radius_polar_m: 25_700,
                        axial_tilt_microdeg: 0,
                    },
                    seeded_elements(23_398_199_225, 369_532_583, 148_400_000, 529_781_057,
                        333_722_656),
                    270_000_000,
                )
            );
            assert(has_key(self.entries(), HANDLE_SINOPE));
            assert(
                seeded_entry(
                    entry_of(self.entries(), HANDLE_SINOPE),
                    HANDLE_JUPITER,
                    Body {
                        mass_kg: 77_700_000_000_000_000,
                        radius_equator_m: 18_100,
                        radius_polar_m: 18_100,
                        axial_tilt_microdeg: 0,
                    },
                    seeded_elements(23_731_586_385, 286_212_248, 157_300_000, 330_014_714,
                        326_138_400),
                    578_187_135,
                )
            );
            assert(has_key(self.entries(), HANDLE_LYSITHEA));
            assert(
                seeded_entry(
                    entry_of(self.entries(), HANDLE_LYSITHEA),
                    HANDLE_JUPITER,
                    Body {
                        mass_kg: 77_700_000_000_000_000,
                        radius_equator_m: 18_200,
                        radius_polar_m: 18_200,
                        axial_tilt_microdeg: 0,
                    },
                    seeded_elements(11_681_680_564, 133_982_901, 27_200_000, 64_872_621,
                        1_252_118),
                    158_993_906,
                )
            );
            assert(has_key(self.entries(), HANDLE_CARME));
            assert(
                seeded_entry(
                    entry_of(self.entries(), HANDLE_CARME),
                    HANDLE_JUPITER,
                    Body {
                        mass_kg: 95_600_000_000_000_000,
                        radius_equator_m: 39_200,
                        radius_polar_m: 39_200,
                        axial_tilt_microdeg: 0,
                    },
                    seeded_elements(22_846_253_568, 222_748_653, 164_300_000, 199_239_805,
                        143_056_427),
                    545_059_221,
                )
            );
            assert(has_key(self.entries(), HANDLE_ANANKE));
            assert(
                seeded_entry(
                    entry_of(self.entries(), HANDLE_ANANKE),
                    HANDLE_JUPITER,
                    Body {
                        mass_kg: 38_200_000_000_000_000,
                        radius_equator_m: 14_900,
                        radius_polar_m: 14_900,
                        axial_tilt_microdeg: 0,
                    },
                    seeded_elements(21_178_519_961, 360_749_649, 147_600_000, 131_881_909,
                        39_194_106),
                    365_178_243,
                )
            );
            assert(has_key(self.entries(), HANDLE_LEDA));
            assert(
                seeded_entry(
                    entry_of(self.entries(), HANDLE_LEDA),
                    HANDLE_JUPITER,
                    Body {
                        mass_kg: 5_680_000_000_000_000,
                        radius_equator_m: 21_500,
                        radius_polar_m: 21_500,
                        axial_tilt_microdeg: 0,
                    },
                    seeded_elements(11_195_980_000, 360_749_649, 28_600_000, 312_929_650,
                        190_184_970),
                    137_025_710,
                )
            );
            assert(has_key(self.entries(), HANDLE_SATURN));
            assert(
                seeded_entry(
                    entry_of(self.entries(), HANDLE_SATURN),
                    HANDLE_SOL,
                    Body {
                        mass_kg: 568_340_000_000_000_000_000_000_000,
                        radius_equator_m: 60_268_000,
                        radius_polar_m: 54_364_000,
                        axial_tilt_microdeg: 26_730_000,
                    },
                    seeded_elements(1_433_536_555_769, 56_500_000, 2_485_000, 339_392_000,
                        113_665_000),
                    317_020_000,
                )
            );
            assert(has_key(self.entries(), HANDLE_MIMAS));
            assert(
                seeded_entry(
                    entry_of(self.entries(), HANDLE_MIMAS),
                    HANDLE_SATURN,
                    Body {
                        mass_kg: 38_000_000_000_000_000_000,
                        radius_equator_m: 196_000,
                        radius_polar_m: 196_000,
                        axial_tilt_microdeg: 0,
                    },
                    seeded_elements(186_037_830, 21_513_348, 1_600_000, 449_370_429,
                        167_307_082),
                    772_976_419,
                )
            );
            assert(has_key(self.entries(), HANDLE_ENCELADUS));
            assert(
                seeded_entry(
                    entry_of(self.entries(), HANDLE_ENCELADUS),
                    HANDLE_SATURN,
                    Body {
                        mass_kg: 73_000_000_000_000_000_000,
                        radius_equator_m: 249_000,
                        radius_polar_m: 249_000,
                        axial_tilt_microdeg: 0,
                    },
                    seeded_elements(238_408_052, 372_459, 0, 264_678_197,
                        169_520_486),
                    384_119_889,
                )
            );
            assert(has_key(self.entries(), HANDLE_TETHYS));
            assert(
                seeded_entry(
                    entry_of(self.entries(), HANDLE_TETHYS),
                    HANDLE_SATURN,
                    Body {
                        mass_kg: 622_000_000_000_000_000_000,
                        radius_equator_m: 530_000,
                        radius_polar_m: 530_000,
                        axial_tilt_microdeg: 0,
                    },
                    seeded_elements(294_982_634, 1_075_326, 1_100_000, 496_824_627,
                        169_153_256),
                    502_612_336,
                )
            );
            assert(has_key(self.entries(), HANDLE_DIONE));
            assert(
                seeded_entry(
                    entry_of(self.entries(), HANDLE_DIONE),
                    HANDLE_SATURN,
                    Body {
                        mass_kg: 1_050_000_000_000_000_000_000,
                        radius_equator_m: 560_000,
                        radius_polar_m: 560_000,
                        axial_tilt_microdeg: 0,
                    },
                    seeded_elements(377_653_774, 2_731_840, 0, 5_080_259_012,
                        169_572_308),
                    856_824_114,
                )
            );
            assert(has_key(self.entries(), HANDLE_RHEA));
            assert(
                seeded_entry(
                    entry_of(self.entries(), HANDLE_RHEA),
                    HANDLE_SATURN,
                    Body {
                        mass_kg: 2_490_000_000_000_000_000_000,
                        radius_equator_m: 764_000,
                        radius_polar_m: 764_000,
                        axial_tilt_microdeg: 0,
                    },
                    seeded_elements(527_225_476, 909_561, 300_000, 360_969_247,
                        168_807_983),
                    448_734_226,
                )
            );
            assert(has_key(self.entries(), HANDLE_TITAN));
            assert(
                seeded_entry(
                    entry_of(self.entries(), HANDLE_TITAN),
                    HANDLE_SATURN,
                    Body {
                        mass_kg: 135_000_000_000_000_000_000_000,
                        radius_equator_m: 2_575_000,
                        radius_polar_m: 2_575_000,
                        axial_tilt_microdeg: 0,
                    },
                    seeded_elements(1_221_971_852, 28_645_563, 300_000, 336_249_138,
                        169_142_780),
                    143_054_244,
                )
            );
            assert(has_key(self.entries(), HANDLE_HYPERION));
            assert(
                seeded_entry(
                    entry_of(self.entries(), HANDLE_HYPERION),
                    HANDLE_SATURN,
                    Body {
                        mass_kg: 17_700_000_000_000_000_000,
                        radius_equator_m: 143_000,
                        radius_polar_m: 143_000,
                        axial_tilt_microdeg: 0,
                    },
                    seeded_elements(1_447_200_000, 75_700_000, 600_000, 182_895_000,
                        168_900_000),
                    301_600_000,
                )
            );
            assert(has_key(self.entries(), HANDLE_IAPETUS));
            assert(
                seeded_entry(
                    entry_of(self.entries(), HANDLE_IAPETUS),
                    HANDLE_SATURN,
                    Body {
                        mass_kg: 16_000_000_000_000_000_000_000,
                        radius_equator_m: 730_000,
                        radius_polar_m: 730_000,
                        axial_tilt_microdeg: 0,
                    },
                    seeded_elements(3_563_513_670, 27_406_715, 7_600_000, 369_297_405,
                        139_318_255),
                    551_098_555,
                )
            );
            assert(has_key(self.entries(), HANDLE_PHOEBE));
            assert(
                seeded_entry(
                    entry_of(self.entries(), HANDLE_PHOEBE),
                    HANDLE_SATURN,
                    Body {
                        mass_kg: 7_800_000_000_000_000,
                        radius_equator_m: 3_000,
                        radius_polar_m: 3_000,
                        axial_tilt_microdeg: 0,
                    },
                    seeded_elements(12_995_759_988, 15_614, 175_200_000, 104_242_486,
                        208_626_701),
                    108_701_283,
                )
            );
            assert(has_key(self.entries(), HANDLE_JANUS));
            assert(
                seeded_entry(
                    entry_of(self.entries(), HANDLE_JANUS),
                    HANDLE_SATURN,
                    Body {
                        mass_kg: 7_000_000_000_000_000,
                        radius_equator_m: 3_000,
                        radius_polar_m: 3_000,
                        axial_tilt_microdeg: 0,
                    },
                    seeded_elements(151_460_988, 14, 200_000, 104_242_486,
                        208_626_701),
                    108_701_283,
                )
            );
        }
    }
    /// The two ice giants and the dwarf-planet systems.
    #[verifier::rlimit(100)]
    fn add_ice_giants_and_dwarfs(&mut self)
        requires
            old(self).wf(),
            old(self).entries().len() + 19 <= ENTRY_MAX,
            has_key(old(self).entries(), HANDLE_SOL),
            !has_key(old(self).entries(), HANDLE_URANUS),
            !has_key(old(self).entries(), HANDLE_ARIEL),
            !has_key(old(self).entries(), HANDLE_UMBRIEL),
            !has_key(old(self).entries(), HANDLE_TITANIA),
            !has_key(old(self).entries(), HANDLE_OBERON),
            !has_key(old(self).entries(), HANDLE_MIRANDA),
            !has_key(old(self).entries(), HANDLE_NEPTUNE),
            !has_key(old(self).entries(), HANDLE_TRITON),
            !has_key(old(self).entries(), HANDLE_NEREID),
            !has_key(old(self).entries(), HANDLE_NAIAD),
            !has_key(old(self).entries(), HANDLE_THALASSA),
            !has_key(old(self).entries(), HANDLE_DESPINA),
            !has_key(old(self).entries(), HANDLE_GALATEA),
            !has_key(old(self).entries(), HANDLE_LARISSA),
            !has_key(old(self).entries(), HANDLE_ERIS),
            !has_key(old(self).entries(), HANDLE_DYSNOMIA),
            !has_key(old(self).entries(), HANDLE_HAUMEA),
            !has_key(old(self).entries(), HANDLE_HIIAKA),
            !has_key(old(self).entries(), HANDLE_NAMAKA),
        ensures
            final(self).wf(),
            final(self).entries().len() == old(self).entries().len() + 19,
            forall|h: u64|
                has_key(final(self).entries(), h) == (has_key(
                    old(self).entries(),
                    h,
                ) || h == HANDLE_URANUS || h == HANDLE_ARIEL || h == HANDLE_UMBRIEL || h == HANDLE_TITANIA || h == HANDLE_OBERON || h == HANDLE_MIRANDA || h == HANDLE_NEPTUNE || h == HANDLE_TRITON || h == HANDLE_NEREID || h == HANDLE_NAIAD || h == HANDLE_THALASSA || h == HANDLE_DESPINA || h == HANDLE_GALATEA || h == HANDLE_LARISSA || h == HANDLE_ERIS || h == HANDLE_DYSNOMIA || h == HANDLE_HAUMEA || h == HANDLE_HIIAKA || h == HANDLE_NAMAKA),
            forall|h: u64|
                has_key(old(self).entries(), h) ==> #[trigger] entry_of(
                    final(self).entries(),
                    h,
                ) == entry_of(old(self).entries(), h),
            seeded_entry(
                entry_of(final(self).entries(), HANDLE_URANUS),
                HANDLE_SOL,
                Body {
                    mass_kg: 86_810_000_000_000_000_000_000_000,
                    radius_equator_m: 25_559_000,
                    radius_polar_m: 24_973_000,
                    axial_tilt_microdeg: 97_770_000,
                },
                seeded_elements(2_870_971_632_050, 47_170_000, 773_000, 96_998_857,
                    74_006_000),
                142_238_600,
            ),
            seeded_entry(
                entry_of(final(self).entries(), HANDLE_ARIEL),
                HANDLE_URANUS,
                Body {
                    mass_kg: 1_270_000_000_000_000_000_000,
                    radius_equator_m: 578_900,
                    radius_polar_m: 578_900,
                    axial_tilt_microdeg: 0,
                },
                seeded_elements(190_940_711, 1_378_503, 16_700, 236_689_280,
                    167_695_185),
                583_192_396,
            ),
            seeded_entry(
                entry_of(final(self).entries(), HANDLE_UMBRIEL),
                HANDLE_URANUS,
                Body {
                    mass_kg: 1_270_000_000_000_000_000_000,
                    radius_equator_m: 584_700,
                    radius_polar_m: 584_700,
                    axial_tilt_microdeg: 0,
                },
                seeded_elements(266_004_056, 4_364_502, 79_600, 521_550_233,
                    167_711_341),
                837_259_784,
            ),
            seeded_entry(
                entry_of(final(self).entries(), HANDLE_TITANIA),
                HANDLE_URANUS,
                Body {
                    mass_kg: 3_490_000_000_000_000_000_000,
                    radius_equator_m: 788_900,
                    radius_polar_m: 788_900,
                    axial_tilt_microdeg: 0,
                },
                seeded_elements(436_347_342, 2_757_640, 112_900, 399_564_019,
                    167_611_658),
                496_575_293,
            ),
            seeded_entry(
                entry_of(final(self).entries(), HANDLE_OBERON),
                HANDLE_URANUS,
                Body {
                    mass_kg: 3_030_000_000_000_000_000_000,
                    radius_equator_m: 761_400,
                    radius_polar_m: 761_400,
                    axial_tilt_microdeg: 0,
                },
                seeded_elements(583_560_909, 1_106_580, 147_800, 288_925_047,
                    167_742_243),
                472_670_392,
            ),
            seeded_entry(
                entry_of(final(self).entries(), HANDLE_MIRANDA),
                HANDLE_URANUS,
                Body {
                    mass_kg: 63_300_000_000_000_000_000,
                    radius_equator_m: 235_800,
                    radius_polar_m: 235_800,
                    axial_tilt_microdeg: 0,
                },
                seeded_elements(129_870_000, 1_400_000, 4_407_200, 242_280_990,
                    163_494_996),
                143_033_012,
            ),
            seeded_entry(
                entry_of(final(self).entries(), HANDLE_NEPTUNE),
                HANDLE_SOL,
                Body {
                    mass_kg: 102_409_000_000_000_000_000_000_000,
                    radius_equator_m: 24_764_000,
                    radius_polar_m: 24_341_000,
                    axial_tilt_microdeg: 28_320_000,
                },
                seeded_elements(4_498_407_971_949, 8_678_000, 1_770_000, 273_187_000,
                    131_783_000),
                317_020_000,
            ),
            seeded_entry(
                entry_of(final(self).entries(), HANDLE_TRITON),
                HANDLE_NEPTUNE,
                Body {
                    mass_kg: 21_400_000_000_000_000_000_000,
                    radius_equator_m: 1_352_500,
                    radius_polar_m: 1_352_500,
                    axial_tilt_microdeg: 0,
                },
                seeded_elements(354_765_668, 17_750, 156_865_000, 161_679_786,
                    217_253_065),
                829_258_161,
            ),
            seeded_entry(
                entry_of(final(self).entries(), HANDLE_NEREID),
                HANDLE_NEPTUNE,
                Body {
                    mass_kg: 13_170_000_000_000_000_000,
                    radius_equator_m: 165_000,
                    radius_polar_m: 165_000,
                    axial_tilt_microdeg: 0,
                },
                seeded_elements(5_515_375_933, 747_077_257, 5_100_000, 256_561_942,
                    320_104_934),
                324_053_241,
            ),
            seeded_entry(
                entry_of(final(self).entries(), HANDLE_NAIAD),
                HANDLE_NEPTUNE,
                Body {
                    mass_kg: 5_800_000_000_000_000,
                    radius_equator_m: 2_000,
                    radius_polar_m: 2_000,
                    axial_tilt_microdeg: 0,
                },
                seeded_elements(48_227_784_200, 447, 4_691_000, 104_242_486,
                    208_626_701),
                108_701_283,
            ),
            seeded_entry(
                entry_of(final(self).entries(), HANDLE_THALASSA),
                HANDLE_NEPTUNE,
                Body {
                    mass_kg: 5_800_000_000_000_000,
                    radius_equator_m: 2_000,
                    radius_polar_m: 2_000,
                    axial_tilt_microdeg: 0,
                },
                seeded_elements(50_141_475_756, 1_370_609, 135_000, 178_660_268,
                    49_148_648),
                187_573_079,
            ),
            seeded_entry(
                entry_of(final(self).entries(), HANDLE_DESPINA),
                HANDLE_NEPTUNE,
                Body {
                    mass_kg: 22_100_000_000_000_000,
                    radius_equator_m: 12_000,
                    radius_polar_m: 12_000,
                    axial_tilt_microdeg: 0,
                },
                seeded_elements(60_227_784_200, 24, 68_000, 104_242_486,
                    208_626_701),
                108_701_283,
            ),
            seeded_entry(
                entry_of(final(self).entries(), HANDLE_GALATEA),
                HANDLE_NEPTUNE,
                Body {
                    mass_kg: 59_550_000_000_000_000,
                    radius_equator_m: 79_100,
                    radius_polar_m: 79_100,
                    axial_tilt_microdeg: 0,
                },
                seeded_elements(62_097_694_895, 1_763_428, 34_000, 188_297_172,
                    48_693_836),
                216_667_607,
            ),
            seeded_entry(
                entry_of(final(self).entries(), HANDLE_LARISSA),
                HANDLE_NEPTUNE,
                Body {
                    mass_kg: 85_630_000_000_000_000,
                    radius_equator_m: 99_960,
                    radius_polar_m: 99_960,
                    axial_tilt_microdeg: 0,
                },
                seeded_elements(73_591_064_268, 1_696_576, 205_000, 378_844_329,
                    48_907_855),
                428_613_425,
            ),
            seeded_entry(
                entry_of(final(self).entries(), HANDLE_ERIS),
                HANDLE_SOL,
                Body {
                    mass_kg: 16_380_000_000_000_000_000_000,
                    radius_equator_m: 1_163_000,
                    radius_polar_m: 1_163_000,
                    axial_tilt_microdeg: 0,
                },
                seeded_elements(10_152_309_897_184, 436_070_000, 44_040_000, 151_639_000,
                    35_951_000),
                205_989_000,
            ),
            seeded_entry(
                entry_of(final(self).entries(), HANDLE_DYSNOMIA),
                HANDLE_ERIS,
                Body {
                    mass_kg: 82_000_000_000_000_000_000,
                    radius_equator_m: 307_500,
                    radius_polar_m: 307_500,
                    axial_tilt_microdeg: 0,
                },
                seeded_elements(37_237_000, 6_200_000, 0, 180_830_000,
                    126_170_000),
                205_989_000,
            ),
            seeded_entry(
                entry_of(final(self).entries(), HANDLE_HAUMEA),
                HANDLE_SOL,
                Body {
                    mass_kg: 4_006_000_000_000_000_000_000,
                    radius_equator_m: 780_000,
                    radius_polar_m: 780_000,
                    axial_tilt_microdeg: 0,
                },
                seeded_elements(6_450_061_793_101, 196_420_000, 28_213_700, 239_041_000,
                    122_167_000),
                218_205_000,
            ),
            seeded_entry(
                entry_of(final(self).entries(), HANDLE_HIIAKA),
                HANDLE_HAUMEA,
                Body {
                    mass_kg: 17_900_000_000_000_000_000,
                    radius_equator_m: 184_500,
                    radius_polar_m: 184_500,
                    axial_tilt_microdeg: 0,
                },
                seeded_elements(49_880_000, 51_300_000, 126_356_000, 154_100_000,
                    206_766_000),
                152_800_000,
            ),
            seeded_entry(
                entry_of(final(self).entries(), HANDLE_NAMAKA),
                HANDLE_HAUMEA,
                Body {
                    mass_kg: 1_790_000_000_000_000_000,
                    radius_equator_m: 85_000,
                    radius_polar_m: 85_000,
                    axial_tilt_microdeg: 0,
                },
                seeded_elements(25_657_000, 249_000_000, 113_013_000, 178_900_000,
                    205_016_000),
                178_500_000,
            ),
    {
        self.add_uranus();
        proof {
            assert(has_key(self.entries(), HANDLE_URANUS));
            assert(
                seeded_entry(
                    entry_of(self.entries(), HANDLE_URANUS),
                    HANDLE_SOL,
                    Body {
                        mass_kg: 86_810_000_000_000_000_000_000_000,
                        radius_equator_m: 25_559_000,
                        radius_polar_m: 24_973_000,
                        axial_tilt_microdeg: 97_770_000,
                    },
                    seeded_elements(2_870_971_632_050, 47_170_000, 773_000, 96_998_857,
                        74_006_000),
                    142_238_600,
                )
            );
            assert(has_key(self.entries(), HANDLE_ARIEL));
            assert(
                seeded_entry(
                    entry_of(self.entries(), HANDLE_ARIEL),
                    HANDLE_URANUS,
                    Body {
                        mass_kg: 1_270_000_000_000_000_000_000,
                        radius_equator_m: 578_900,
                        radius_polar_m: 578_900,
                        axial_tilt_microdeg: 0,
                    },
                    seeded_elements(190_940_711, 1_378_503, 16_700, 236_689_280,
                        167_695_185),
                    583_192_396,
                )
            );
            assert(has_key(self.entries(), HANDLE_UMBRIEL));
            assert(
                seeded_entry(
                    entry_of(self.entries(), HANDLE_UMBRIEL),
                    HANDLE_URANUS,
                    Body {
                        mass_kg: 1_270_000_000_000_000_000_000,
                        radius_equator_m: 584_700,
                        radius_polar_m: 584_700,
                        axial_tilt_microdeg: 0,
                    },
                    seeded_elements(266_004_056, 4_364_502, 79_600, 521_550_233,
                        167_711_341),
                    837_259_784,
                )
            );
            assert(has_key(self.entries(), HANDLE_TITANIA));
            assert(
                seeded_entry(
                    entry_of(self.entries(), HANDLE_TITANIA),
                    HANDLE_URANUS,
                    Body {
                        mass_kg: 3_490_000_000_000_000_000_000,
                        radius_equator_m: 788_900,
                        radius_polar_m: 788_900,
                        axial_tilt_microdeg: 0,
                    },
                    seeded_elements(436_347_342, 2_757_640, 112_900, 399_564_019,
                        167_611_658),
                    496_575_293,
                )
            );
            assert(has_key(self.entries(), HANDLE_OBERON));
            assert(
                seeded_entry(
                    entry_of(self.entries(), HANDLE_OBERON),
                    HANDLE_URANUS,
                    Body {
                        mass_kg: 3_030_000_000_000_000_000_000,
                        radius_equator_m: 761_400,
                        radius_polar_m: 761_400,
                        axial_tilt_microdeg: 0,
                    },
                    seeded_elements(583_560_909, 1_106_580, 147_800, 288_925_047,
                        167_742_243),
                    472_670_392,
                )
            );
            assert(has_key(self.entries(), HANDLE_MIRANDA));
            assert(
                seeded_entry(
                    entry_of(self.entries(), HANDLE_MIRANDA),
                    HANDLE_URANUS,
                    Body {
                        mass_kg: 63_300_000_000_000_000_000,
                        radius_equator_m: 235_800,
                        radius_polar_m: 235_800,
                        axial_tilt_microdeg: 0,
                    },
                    seeded_elements(129_870_000, 1_400_000, 4_407_200, 242_280_990,
                        163_494_996),
                    143_033_012,
                )
            );
        }
        self.add_neptune();
        proof {
            assert(has_key(self.entries(), HANDLE_URANUS));
            assert(
                seeded_entry(
                    entry_of(self.entries(), HANDLE_URANUS),
                    HANDLE_SOL,
                    Body {
                        mass_kg: 86_810_000_000_000_000_000_000_000,
                        radius_equator_m: 25_559_000,
                        radius_polar_m: 24_973_000,
                        axial_tilt_microdeg: 97_770_000,
                    },
                    seeded_elements(2_870_971_632_050, 47_170_000, 773_000, 96_998_857,
                        74_006_000),
                    142_238_600,
                )
            );
            assert(has_key(self.entries(), HANDLE_ARIEL));
            assert(
                seeded_entry(
                    entry_of(self.entries(), HANDLE_ARIEL),
                    HANDLE_URANUS,
                    Body {
                        mass_kg: 1_270_000_000_000_000_000_000,
                        radius_equator_m: 578_900,
                        radius_polar_m: 578_900,
                        axial_tilt_microdeg: 0,
                    },
                    seeded_elements(190_940_711, 1_378_503, 16_700, 236_689_280,
                        167_695_185),
                    583_192_396,
                )
            );
            assert(has_key(self.entries(), HANDLE_UMBRIEL));
            assert(
                seeded_entry(
                    entry_of(self.entries(), HANDLE_UMBRIEL),
                    HANDLE_URANUS,
                    Body {
                        mass_kg: 1_270_000_000_000_000_000_000,
                        radius_equator_m: 584_700,
                        radius_polar_m: 584_700,
                        axial_tilt_microdeg: 0,
                    },
                    seeded_elements(266_004_056, 4_364_502, 79_600, 521_550_233,
                        167_711_341),
                    837_259_784,
                )
            );
            assert(has_key(self.entries(), HANDLE_TITANIA));
            assert(
                seeded_entry(
                    entry_of(self.entries(), HANDLE_TITANIA),
                    HANDLE_URANUS,
                    Body {
                        mass_kg: 3_490_000_000_000_000_000_000,
                        radius_equator_m: 788_900,
                        radius_polar_m: 788_900,
                        axial_tilt_microdeg: 0,
                    },
                    seeded_elements(436_347_342, 2_757_640, 112_900, 399_564_019,
                        167_611_658),
                    496_575_293,
                )
            );
            assert(has_key(self.entries(), HANDLE_OBERON));
            assert(
                seeded_entry(
                    entry_of(self.entries(), HANDLE_OBERON),
                    HANDLE_URANUS,
                    Body {
                        mass_kg: 3_030_000_000_000_000_000_000,
                        radius_equator_m: 761_400,
                        radius_polar_m: 761_400,
                        axial_tilt_microdeg: 0,
                    },
                    seeded_elements(583_560_909, 1_106_580, 147_800, 288_925_047,
                        167_742_243),
                    472_670_392,
                )
            );
            assert(has_key(self.entries(), HANDLE_MIRANDA));
            assert(
                seeded_entry(
                    entry_of(self.entries(), HANDLE_MIRANDA),
                    HANDLE_URANUS,
                    Body {
                        mass_kg: 63_300_000_000_000_000_000,
                        radius_equator_m: 235_800,
                        radius_polar_m: 235_800,
                        axial_tilt_microdeg: 0,
                    },
                    seeded_elements(129_870_000, 1_400_000, 4_407_200, 242_280_990,
                        163_494_996),
                    143_033_012,
                )
            );
            assert(has_key(self.entries(), HANDLE_NEPTUNE));
            assert(
                seeded_entry(
                    entry_of(self.entries(), HANDLE_NEPTUNE),
                    HANDLE_SOL,
                    Body {
                        mass_kg: 102_409_000_000_000_000_000_000_000,
                        radius_equator_m: 24_764_000,
                        radius_polar_m: 24_341_000,
                        axial_tilt_microdeg: 28_320_000,
                    },
                    seeded_elements(4_498_407_971_949, 8_678_000, 1_770_000, 273_187_000,
                        131_783_000),
                    317_020_000,
                )
            );
            assert(has_key(self.entries(), HANDLE_TRITON));
            assert(
                seeded_entry(
                    entry_of(self.entries(), HANDLE_TRITON),
                    HANDLE_NEPTUNE,
                    Body {
                        mass_kg: 21_400_000_000_000_000_000_000,
                        radius_equator_m: 1_352_500,
                        radius_polar_m: 1_352_500,
                        axial_tilt_microdeg: 0,
                    },
                    seeded_elements(354_765_668, 17_750, 156_865_000, 161_679_786,
                        217_253_065),
                    829_258_161,
                )
            );
            assert(has_key(self.entries(), HANDLE_NEREID));
            assert(
                seeded_entry(
                    entry_of(self.entries(), HANDLE_NEREID),
                    HANDLE_NEPTUNE,
                    Body {
                        mass_kg: 13_170_000_000_000_000_000,
                        radius_equator_m: 165_000,
                        radius_polar_m: 165_000,
                        axial_tilt_microdeg: 0,
                    },
                    seeded_elements(5_515_375_933, 747_077_257, 5_100_000, 256_561_942,
                        320_104_934),
                    324_053_241,
                )
            );
            assert(has_key(self.entries(), HANDLE_NAIAD));
            assert(
                seeded_entry(
                    entry_of(self.entries(), HANDLE_NAIAD),
                    HANDLE_NEPTUNE,
                    Body {
                        mass_kg: 5_800_000_000_000_000,
                        radius_equator_m: 2_000,
                        radius_polar_m: 2_000,
                        axial_tilt_microdeg: 0,
                    },
                    seeded_elements(48_227_784_200, 447, 4_691_000, 104_242_486,
                        208_626_701),
                    108_701_283,
                )
            );
            assert(has_key(self.entries(), HANDLE_THALASSA));
            assert(
                seeded_entry(
                    entry_of(self.entries(), HANDLE_THALASSA),
                    HANDLE_NEPTUNE,
                    Body {
                        mass_kg: 5_800_000_000_000_000,
                        radius_equator_m: 2_000,
                        radius_polar_m: 2_000,
                        axial_tilt_microdeg: 0,
                    },
                    seeded_elements(50_141_475_756, 1_370_609, 135_000, 178_660_268,
                        49_148_648),
                    187_573_079,
                )
            );
            assert(has_key(self.entries(), HANDLE_DESPINA));
            assert(
                seeded_entry(
                    entry_of(self.entries(), HANDLE_DESPINA),
                    HANDLE_NEPTUNE,
                    Body {
                        mass_kg: 22_100_000_000_000_000,
                        radius_equator_m: 12_000,
                        radius_polar_m: 12_000,
                        axial_tilt_microdeg: 0,
                    },
                    seeded_elements(60_227_784_200, 24, 68_000, 104_242_486,
                        208_626_701),
                    108_701_283,
                )
            );
            assert(has_key(self.entries(), HANDLE_GALATEA));
            assert(
                seeded_entry(
                    entry_of(self.entries(), HANDLE_GALATEA),
                    HANDLE_NEPTUNE,
                    Body {
                        mass_kg: 59_550_000_000_000_000,
                        radius_equator_m: 79_100,
                        radius_polar_m: 79_100,
                        axial_tilt_microdeg: 0,
                    },
                    seeded_elements(62_097_694_895, 1_763_428, 34_000, 188_297_172,
                        48_693_836),
                    216_667_607,
                )
            );
            assert(has_key(self.entries(), HANDLE_LARISSA));
            assert(
                seeded_entry(
                    entry_of(self.entries(), HANDLE_LARISSA),
                    HANDLE_NEPTUNE,
                    Body {
                        mass_kg: 85_630_000_000_000_000,
                        radius_equator_m: 99_960,
                        radius_polar_m: 99_960,
                        axial_tilt_microdeg: 0,
                    },
                    seeded_elements(73_591_064_268, 1_696_576, 205_000, 378_844_329,
                        48_907_855),
                    428_613_425,
                )
            );
        }
        self.add_dwarf_planets();
        proof {
            assert(has_key(self.entries(), HANDLE_URANUS));
            assert(
                seeded_entry(
                    entry_of(self.entries(), HANDLE_URANUS),
                    HANDLE_SOL,
                    Body {
                        mass_kg: 86_810_000_000_000_000_000_000_000,
                        radius_equator_m: 25_559_000,
                        radius_polar_m: 24_973_000,
                        axial_tilt_microdeg: 97_770_000,
                    },
                    seeded_elements(2_870_971_632_050, 47_170_000, 773_000, 96_998_857,
                        74_006_000),
                    142_238_600,
                )
            );
            assert(has_key(self.entries(), HANDLE_ARIEL));
            assert(
                seeded_entry(
                    entry_of(self.entries(), HANDLE_ARIEL),
                    HANDLE_URANUS,
                    Body {
                        mass_kg: 1_270_000_000_000_000_000_000,
                        radius_equator_m: 578_900,
                        radius_polar_m: 578_900,
                        axial_tilt_microdeg: 0,
                    },
                    seeded_elements(190_940_711, 1_378_503, 16_700, 236_689_280,
                        167_695_185),
                    583_192_396,
                )
            );
            assert(has_key(self.entries(), HANDLE_UMBRIEL));
            assert(
                seeded_entry(
                    entry_of(self.entries(), HANDLE_UMBRIEL),
                    HANDLE_URANUS,
                    Body {
                        mass_kg: 1_270_000_000_000_000_000_000,
                        radius_equator_m: 584_700,
                        radius_polar_m: 584_700,
                        axial_tilt_microdeg: 0,
                    },
                    seeded_elements(266_004_056, 4_364_502, 79_600, 521_550_233,
                        167_711_341),
                    837_259_784,
                )
            );
            assert(has_key(self.entries(), HANDLE_TITANIA));
            assert(
                seeded_entry(
                    entry_of(self.entries(), HANDLE_TITANIA),
                    HANDLE_URANUS,
                    Body {
                        mass_kg: 3_490_000_000_000_000_000_000,
                        radius_equator_m: 788_900,
                        radius_polar_m: 788_900,
                        axial_tilt_microdeg: 0,
                    },
                    seeded_elements(436_347_342, 2_757_640, 112_900, 399_564_019,
                        167_611_658),
                    496_575_293,
                )
            );
            assert(has_key(self.entries(), HANDLE_OBERON));
            assert(
                seeded_entry(
                    entry_of(self.entries(), HANDLE_OBERON),
                    HANDLE_URANUS,
                    Body {
                        mass_kg: 3_030_000_000_000_000_000_000,
                        radius_equator_m: 761_400,
                        radius_polar_m: 761_400,
                        axial_tilt_microdeg: 0,
                    },
                    seeded_elements(583_560_909, 1_106_580, 147_800, 288_925_047,
                        167_742_243),
                    472_670_392,
                )
            );
            assert(has_key(self.entries(), HANDLE_MIRANDA));
            assert(
                seeded_entry(
                    entry_of(self.entries(), HANDLE_MIRANDA),
                    HANDLE_URANUS,
                    Body {
                        mass_kg: 63_300_000_000_000_000_000,
                        radius_equator_m: 235_800,
                        radius_polar_m: 235_800,
                        axial_tilt_microdeg: 0,
                    },
                    seeded_elements(129_870_000, 1_400_000, 4_407_200, 242_280_990,
                        163_494_996),
                    143_033_012,
                )
            );
            assert(has_key(self.entries(), HANDLE_NEPTUNE));
            assert(
                seeded_entry(
                    entry_of(self.entries(), HANDLE_NEPTUNE),
                    HANDLE_SOL,
                    Body {
                        mass_kg: 102_409_000_000_000_000_000_000_000,
                        radius_equator_m: 24_764_000,
                        radius_polar_m: 24_341_000,
                        axial_tilt_microdeg: 28_320_000,
                    },
                    seeded_elements(4_498_407_971_949, 8_678_000, 1_770_000, 273_187_000,
                        131_783_000),
                    317_020_000,
                )
            );
            assert(has_key(self.entries(), HANDLE_TRITON));
            assert(
                seeded_entry(
                    entry_of(self.entries(), HANDLE_TRITON),
                    HANDLE_NEPTUNE,
                    Body {
                        mass_kg: 21_400_000_000_000_000_000_000,
                        radius_equator_m: 1_352_500,
                        radius_polar_m: 1_352_500,
                        axial_tilt_microdeg: 0,
                    },
                    seeded_elements(354_765_668, 17_750, 156_865_000, 161_679_786,
                        217_253_065),
                    829_258_161,
                )
            );
            assert(has_key(self.entries(), HANDLE_NEREID));
            assert(
                seeded_entry(
                    entry_of(self.entries(), HANDLE_NEREID),
                    HANDLE_NEPTUNE,
                    Body {
                        mass_kg: 13_170_000_000_000_000_000,
                        radius_equator_m: 165_000,
                        radius_polar_m: 165_000,
                        axial_tilt_microdeg: 0,
                    },
                    seeded_elements(5_515_375_933, 747_077_257, 5_100_000, 256_561_942,
                        320_104_934),
                    324_053_241,
                )
            );
            assert(has_key(self.entries(), HANDLE_NAIAD));
            assert(
                seeded_entry(
                    entry_of(self.entries(), HANDLE_NAIAD),
                    HANDLE_NEPTUNE,
                    Body {
                        mass_kg: 5_800_000_000_000_000,
                        radius_equator_m: 2_000,
                        radius_polar_m: 2_000,
                        axial_tilt_microdeg: 0,
                    },
                    seeded_elements(48_227_784_200, 447, 4_691_000, 104_242_486,
                        208_626_701),
                    108_701_283,
                )
            );
            assert(has_key(self.entries(), HANDLE_THALASSA));
            assert(
                seeded_entry(
                    entry_of(self.entries(), HANDLE_THALASSA),
                    HANDLE_NEPTUNE,
                    Body {
                        mass_kg: 5_800_000_000_000_000,
                        radius_equator_m: 2_000,
                        radius_polar_m: 2_000,
                        axial_tilt_microdeg: 0,
                    },
                    seeded_elements(50_141_475_756, 1_370_609, 135_000, 178_660_268,
                        49_148_648),
                    187_573_079,
                )
            );
            assert(has_key(self.entries(), HANDLE_DESPINA));
            assert(
                seeded_entry(
                    entry_of(self.entries(), HANDLE_DESPINA),
                    HANDLE_NEPTUNE,
                    Body {
                        mass_kg: 22_100_000_000_000_000,
                        radius_equator_m: 12_000,
                        radius_polar_m: 12_000,
                        axial_tilt_microdeg: 0,
                    },
                    seeded_elements(60_227_784_200, 24, 68_000, 104_242_486,
                        208_626_701),
                    108_701_283,
                )
            );
            assert(has_key(self.entries(), HANDLE_GALATEA));
            assert(
                seeded_entry(
                    entry_of(self.entries(), HANDLE_GALATEA),
                    HANDLE_NEPTUNE,
                    Body {
                        mass_kg: 59_550_000_000_000_000,
                        radius_equator_m: 79_100,
                        radius_polar_m: 79_100,
                        axial_tilt_microdeg: 0,
                    },
                    seeded_elements(62_097_694_895, 1_763_428, 34_000, 188_297_172,
                        48_693_836),
                    216_667_607,
                )
            );
            assert(has_key(self.entries(), HANDLE_LARISSA));
            assert(
                seeded_entry(
                    entry_of(self.entries(), HANDLE_LARISSA),
                    HANDLE_NEPTUNE,
                    Body {
                        mass_kg: 85_630_000_000_000_000,
                        radius_equator_m: 99_960,
                        radius_polar_m: 99_960,
                        axial_tilt_microdeg: 0,
                    },
                    seeded_elements(73_591_064_268, 1_696_576, 205_000, 378_844_329,
                        48_907_855),
                    428_613_425,
                )
            );
            assert(has_key(self.entries(), HANDLE_ERIS));
            assert(
                seeded_entry(
                    entry_of(self.entries(), HANDLE_ERIS),
                    HANDLE_SOL,
                    Body {
                        mass_kg: 16_380_000_000_000_000_000_000,
                        radius_equator_m: 1_163_000,
                        radius_polar_m: 1_163_000,
                        axial_tilt_microdeg: 0,
                    },
                    seeded_elements(10_152_309_897_184, 436_070_000, 44_040_000, 151_639_000,
                        35_951_000),
                    205_989_000,
                )
            );
            assert(has_key(self.entries(), HANDLE_DYSNOMIA));
            assert(
                seeded_entry(
                    entry_of(self.entries(), HANDLE_DYSNOMIA),
                    HANDLE_ERIS,
                    Body {
                        mass_kg: 82_000_000_000_000_000_000,
                        radius_equator_m: 307_500,
                        radius_polar_m: 307_500,
                        axial_tilt_microdeg: 0,
                    },
                    seeded_elements(37_237_000, 6_200_000, 0, 180_830_000,
                        126_170_000),
                    205_989_000,
                )
            );
            assert(has_key(self.entries(), HANDLE_HAUMEA));
            assert(
                seeded_entry(
                    entry_of(self.entries(), HANDLE_HAUMEA),
                    HANDLE_SOL,
                    Body {
                        mass_kg: 4_006_000_000_000_000_000_000,
                        radius_equator_m: 780_000,
                        radius_polar_m: 780_000,
                        axial_tilt_microdeg: 0,
                    },
                    seeded_elements(6_450_061_793_101, 196_420_000, 28_213_700, 239_041_000,
                        122_167_000),
                    218_205_000,
                )
            );
            assert(has_key(self.entries(), HANDLE_HIIAKA));
            assert(
                seeded_entry(
                    entry_of(self.entries(), HANDLE_HIIAKA),
                    HANDLE_HAUMEA,
                    Body {
                        mass_kg: 17_900_000_000_000_000_000,
                        radius_equator_m: 184_500,
                        radius_polar_m: 184_500,
                        axial_tilt_microdeg: 0,
                    },
                    seeded_elements(49_880_000, 51_300_000, 126_356_000, 154_100_000,
                        206_766_000),
                    152_800_000,
                )
            );
            assert(has_key(self.entries(), HANDLE_NAMAKA));
            assert(
                seeded_entry(
                    entry_of(self.entries(), HANDLE_NAMAKA),
                    HANDLE_HAUMEA,
                    Body {
                        mass_kg: 1_790_000_000_000_000_000,
                        radius_equator_m: 85_000,
                        radius_polar_m: 85_000,
                        axial_tilt_microdeg: 0,
                    },
                    seeded_elements(25_657_000, 249_000_000, 113_013_000, 178_900_000,
                        205_016_000),
                    178_500_000,
                )
            );
        }
    }
    /// Populates the database with celestial bodies from our solar system:
    /// the sun, the eight planets, their moons and two dwarf-planet systems.
    /// Afterwards the database is a single tree rooted at the sun: the sun
    /// is the only entry without a parent.
    #[verifier::rlimit(100)]
    pub fn add_solar_system(&mut self)
        requires
            old(self).wf(),
            old(self).entries().len() == 0,
        ensures
            final(self).wf(),
            final(self).entries().len() == 52,
            forall|h: u64|
                has_key(final(self).entries(), h) == (h == HANDLE_SOL || h == HANDLE_MERCURY || h == HANDLE_VENUS || h == HANDLE_EARTH || h == HANDLE_LUNA || h == HANDLE_MARS || h == HANDLE_PHOBOS || h == HANDLE_DEIMOS || h == HANDLE_JUPITER || h == HANDLE_IO || h == HANDLE_EUROPA || h == HANDLE_GANYMEDE || h == HANDLE_CALLISTO || h == HANDLE_AMALTHEA || h == HANDLE_HIMALIA || h == HANDLE_ELARA || h == HANDLE_PASIPHAE || h == HANDLE_SINOPE || h == HANDLE_LYSITHEA || h == HANDLE_CARME || h == HANDLE_ANANKE || h == HANDLE_LEDA || h == HANDLE_SATURN || h == HANDLE_MIMAS || h == HANDLE_ENCELADUS || h == HANDLE_TETHYS || h == HANDLE_DIONE || h == HANDLE_RHEA || h == HANDLE_TITAN || h == HANDLE_HYPERION || h == HANDLE_IAPETUS || h == HANDLE_PHOEBE || h == HANDLE_JANUS || h == HANDLE_URANUS || h == HANDLE_ARIEL || h == HANDLE_UMBRIEL || h == HANDLE_TITANIA || h == HANDLE_OBERON || h == HANDLE_MIRANDA || h == HANDLE_NEPTUNE || h == HANDLE_TRITON || h == HANDLE_NEREID || h == HANDLE_NAIAD || h == HANDLE_THALASSA || h == HANDLE_DESPINA || h == HANDLE_GALATEA || h == HANDLE_LARISSA || h == HANDLE_ERIS || h == HANDLE_DYSNOMIA || h == HANDLE_HAUMEA || h == HANDLE_HIIAKA || h == HANDLE_NAMAKA),
            forall|h: u64|
                has_key(final(self).entries(), h) && h != HANDLE_SOL ==> (#[trigger] entry_of(
                    final(self).entries(),
                    h,
                )).parent is Some,
            ({
                let e = entry_of(final(self).entries(), HANDLE_SOL);
                &&& e.parent is None
                &&& e.orbit is None
                &&& e.info == (Body {
                    mass_kg: MASS_SUN_KG,
                    radius_equator_m: RADIUS_SUN_M,
                    radius_polar_m: RADIUS_SUN_POLAR_M,
                    axial_tilt_microdeg: 0,
                })
                &&& e.mean_anomaly_at_epoch == 0
                &&& e.scale == SUN_SCALE_NANO
            }),
            seeded_entry(
                entry_of(final(self).entries(), HANDLE_MERCURY),
                HANDLE_SOL,
                Body {
                    mass_kg: 330_110_000_000_000_000_000_000,
                    radius_equator_m: 2_440_797,
                    radius_polar_m: 2_440_797,
                    axial_tilt_microdeg: 34_000,
                },
                seeded_elements(57_910_000_000, 205_630_000, 7_005_000, 29_124_000,
                    48_331_000),
                174_796_000,
            ),
            seeded_entry(
                entry_of(final(self).entries(), HANDLE_VENUS),
                HANDLE_SOL,
                Body {
                    mass_kg: 4_867_500_000_000_000_000_000_000,
                    radius_equator_m: 6_051_800,
                    radius_polar_m: 6_051_800,
                    axial_tilt_microdeg: 177_360_000,
                },
                seeded_elements(108_210_000_000, 6_772_000, 3_394_580, 54_884_000,
                    76_680_000),
                50_115_000,
            ),
            seeded_entry(
                entry_of(final(self).entries(), HANDLE_EARTH),
                HANDLE_SOL,
                Body {
                    mass_kg: MASS_EARTH_KG,
                    radius_equator_m: RADIUS_EARTH_EQUATOR_M,
                    radius_polar_m: RADIUS_EARTH_POLAR_M,
                    axial_tilt_microdeg: TILT_EARTH_MICRODEG,
                },
                seeded_elements(149_598_023_000, 16_708_600, 50, 114_207_830,
                    -11_260_640),
                358_617_000,
            ),
            seeded_entry(
                entry_of(final(self).entries(), HANDLE_LUNA),
                HANDLE_EARTH,
                Body {
                    mass_kg: 73_460_000_000_000_000_000_000,
                    radius_equator_m: 1_737_400,
                    radius_polar_m: 1_737_400,
                    axial_tilt_microdeg: 0,
                },
                seeded_elements(384_399_000, 54_900_000, -18_294_000, 114_207_830,
                    -11_260_640),
                90_000_000,
            ),
            seeded_entry(
                entry_of(final(self).entries(), HANDLE_MARS),
                HANDLE_SOL,
                Body {
                    mass_kg: 641_710_000_000_000_000_000_000,
                    radius_equator_m: 3_396_200,
                    radius_polar_m: 3_376_200,
                    axial_tilt_microdeg: 25_190_000,
                },
                seeded_elements(227_939_366_000, 93_400_000, 1_850_000, 286_500_000,
                    49_578_540),
                174_796_000,
            ),
            seeded_entry(
                entry_of(final(self).entries(), HANDLE_PHOBOS),
                HANDLE_MARS,
                Body {
                    mass_kg: 10_600_000_000_000_000,
                    radius_equator_m: 11_080,
                    radius_polar_m: 11_080,
                    axial_tilt_microdeg: 0,
                },
                seeded_elements(9_376_000, 15_100_000, 1_093_000, 381_523_663,
                    83_143_239),
                90_000_000,
            ),
            seeded_entry(
                entry_of(final(self).entries(), HANDLE_DEIMOS),
                HANDLE_MARS,
                Body {
                    mass_kg: 10_600_000_000_000_000,
                    radius_equator_m: 11_080,
                    radius_polar_m: 11_080,
                    axial_tilt_microdeg: 0,
                },
                seeded_elements(23_463_200, 330_000, 930_000, 386_193_544,
                    80_973_571),
                270_000_000,
            ),
            seeded_entry(
                entry_of(final(self).entries(), HANDLE_JUPITER),
                HANDLE_SOL,
                Body {
                    mass_kg: 1_898_200_000_000_000_000_000_000_000,
                    radius_equator_m: 71_492_000,
                    radius_polar_m: 66_854_000,
                    axial_tilt_microdeg: 3_130_000,
                },
                seeded_elements(778_477_399_548, 48_900_000, 1_303_000, 273_867_000,
                    100_464_000),
                20_020_000,
            ),
            seeded_entry(
                entry_of(final(self).entries(), HANDLE_IO),
                HANDLE_JUPITER,
                Body {
                    mass_kg: 89_300_000_000_000_000_000_000,
                    radius_equator_m: 1_821_600,
                    radius_polar_m: 1_821_600,
                    axial_tilt_microdeg: 0,
                },
                seeded_elements(422_025_278, 4_188_671, 50_000, 654_351_898,
                    737_154_208),
                90_000_000,
            ),
            seeded_entry(
                entry_of(final(self).entries(), HANDLE_EUROPA),
                HANDLE_JUPITER,
                Body {
                    mass_kg: 48_000_000_000_000_000_000_000,
                    radius_equator_m: 1_565_000,
                    radius_polar_m: 1_565_000,
                    axial_tilt_microdeg: 0,
                },
                seeded_elements(671_193_628, 9_402_884, 470_000, 468_899_300,
                    350_526_057),
                270_000_000,
            ),
            seeded_entry(
                entry_of(final(self).entries(), HANDLE_GANYMEDE),
                HANDLE_JUPITER,
                Body {
                    mass_kg: 148_000_000_000_000_000_000_000,
                    radius_equator_m: 2_634_000,
                    radius_polar_m: 2_634_000,
                    axial_tilt_microdeg: 0,
                },
                seeded_elements(1_070_615_470, 1_587_629, 200_000, 621_291_691,
                    341_695_992),
                270_000_000,
            ),
            seeded_entry(
                entry_of(final(self).entries(), HANDLE_CALLISTO),
                HANDLE_JUPITER,
                Body {
                    mass_kg: 107_593_800_000_000_000_000_000,
                    radius_equator_m: 2_410_300,
                    radius_polar_m: 2_410_300,
                    axial_tilt_microdeg: 0,
                },
                seeded_elements(1_882_700_000, 7_400_000, 192_000, 698_808_358,
                    339_482_965),
                839_975_751,
            ),
            seeded_entry(
                entry_of(final(self).entries(), HANDLE_AMALTHEA),
                HANDLE_JUPITER,
                Body {
                    mass_kg: 2_080_000_000_000_000_000,
                    radius_equator_m: 83_500,
                    radius_polar_m: 83_500,
                    axial_tilt_microdeg: 0,
                },
                seeded_elements(181_365_840, 441_428, 374_000, 414_339_943,
                    342_032_315),
                270_000_000,
            ),
            seeded_entry(
                entry_of(final(self).entries(), HANDLE_HIMALIA),
                HANDLE_JUPITER,
                Body {
                    mass_kg: 9_560_000_000_000_000_000,
                    radius_equator_m: 93_150,
                    radius_polar_m: 93_150,
                    axial_tilt_microdeg: 0,
                },
                seeded_elements(11_394_679_431, 148_020_288, 28_100_000, 405_592_890,
                    57_786_525),
                270_000_000,
            ),
            seeded_entry(
                entry_of(final(self).entries(), HANDLE_ELARA),
                HANDLE_JUPITER,
                Body {
                    mass_kg: 777_000_000_000_000_000,
                    radius_equator_m: 38_500,
                    radius_polar_m: 38_500,
                    axial_tilt_microdeg: 0,
                },
                seeded_elements(11_724_775_187, 196_015_925, 27_900_000, 254_812_870,
                    104_680_792),
                270_000_000,
            ),
            seeded_entry(
                entry_of(final(self).entries(), HANDLE_PASIPHAE),
                HANDLE_JUPITER,
                Body {
                    mass_kg: 191_000_000_000_000_000,
                    radius_equator_m: 25_700,
                    radius_polar_m: 25_700,
                    axial_tilt_microdeg: 0,
                },
                seeded_elements(23_398_199_225, 369_532_583, 148_400_000, 529_781_057,
                    333_722_656),
                270_000_000,
            ),
            seeded_entry(
                entry_of(final(self).entries(), HANDLE_SINOPE),
                HANDLE_JUPITER,
                Body {
                    mass_kg: 77_700_000_000_000_000,
                    radius_equator_m: 18_100,
                    radius_polar_m: 18_100,
                    axial_tilt_microdeg: 0,
                },
                seeded_elements(23_731_586_385, 286_212_248, 157_300_000, 330_014_714,
                    326_138_400),
                578_187_135,
            ),
            seeded_entry(
                entry_of(final(self).entries(), HANDLE_LYSITHEA),
                HANDLE_JUPITER,
                Body {
                    mass_kg: 77_700_000_000_000_000,
                    radius_equator_m: 18_200,
                    radius_polar_m: 18_200,
                    axial_tilt_microdeg: 0,
                },
                seeded_elements(11_681_680_564, 133_982_901, 27_200_000, 64_872_621,
                    1_252_118),
                158_993_906,
            ),
            seeded_entry(
                entry_of(final(self).entries(), HANDLE_CARME),
                HANDLE_JUPITER,
                Body {
                    mass_kg: 95_600_000_000_000_000,
                    radius_equator_m: 39_200,
                    radius_polar_m: 39_200,
                    axial_tilt_microdeg: 0,
                },
                seeded_elements(22_846_253_568, 222_748_653, 164_300_000, 199_239_805,
                    143_056_427),
                545_059_221,
            ),
            seeded_entry(
                entry_of(final(self).entries(), HANDLE_ANANKE),
                HANDLE_JUPITER,
                Body {
                    mass_kg: 38_200_000_000_000_000,
                    radius_equator_m: 14_900,
                    radius_polar_m: 14_900,
                    axial_tilt_microdeg: 0,
                },
                seeded_elements(21_178_519_961, 360_749_649, 147_600_000, 131_881_909,
                    39_194_106),
                365_178_243,
            ),
            seeded_entry(
                entry_of(final(self).entries(), HANDLE_LEDA),
                HANDLE_JUPITER,
                Body {
                    mass_kg: 5_680_000_000_000_000,
                    radius_equator_m: 21_500,
                    radius_polar_m: 21_500,
                    axial_tilt_microdeg: 0,
                },
                seeded_elements(11_195_980_000, 360_749_649, 28_600_000, 312_929_650,
                    190_184_970),
                137_025_710,
            ),
            seeded_entry(
                entry_of(final(self).entries(), HANDLE_SATURN),
                HANDLE_SOL,
                Body {
                    mass_kg: 568_340_000_000_000_000_000_000_000,
                    radius_equator_m: 60_268_000,
                    radius_polar_m: 54_364_000,
                    axial_tilt_microdeg: 26_730_000,
                },
                seeded_elements(1_433_536_555_769, 56_500_000, 2_485_000, 339_392_000,
                    113_665_000),
                317_020_000,
            ),
            seeded_entry(
                entry_of(final(self).entries(), HANDLE_MIMAS),
                HANDLE_SATURN,
                Body {
                    mass_kg: 38_000_000_000_000_000_000,
                    radius_equator_m: 196_000,
                    radius_polar_m: 196_000,
                    axial_tilt_microdeg: 0,
                },
                seeded_elements(186_037_830, 21_513_348, 1_600_000, 449_370_429,
                    167_307_082),
                772_976_419,
            ),
            seeded_entry(
                entry_of(final(self).entries(), HANDLE_ENCELADUS),
                HANDLE_SATURN,
                Body {
                    mass_kg: 73_000_000_000_000_000_000,
                    radius_equator_m: 249_000,
                    radius_polar_m: 249_000,
                    axial_tilt_microdeg: 0,
                },
                seeded_elements(238_408_052, 372_459, 0, 264_678_197,
                    169_520_486),
                384_119_889,
            ),
            seeded_entry(
                entry_of(final(self).entries(), HANDLE_TETHYS),
                HANDLE_SATURN,
                Body {
                    mass_kg: 622_000_000_000_000_000_000,
                    radius_equator_m: 530_000,
                    radius_polar_m: 530_000,
                    axial_tilt_microdeg: 0,
                },
                seeded_elements(294_982_634, 1_075_326, 1_100_000, 496_824_627,
                    169_153_256),
                502_612_336,
            ),
            seeded_entry(
                entry_of(final(self).entries(), HANDLE_DIONE),
                HANDLE_SATURN,
                Body {
                    mass_kg: 1_050_000_000_000_000_000_000,
                    radius_equator_m: 560_000,
                    radius_polar_m: 560_000,
                    axial_tilt_microdeg: 0,
                },
                seeded_elements(377_653_774, 2_731_840, 0, 5_080_259_012,
                    169_572_308),
                856_824_114,
            ),
            seeded_entry(
                entry_of(final(self).entries(), HANDLE_RHEA),
                HANDLE_SATURN,
                Body {
                    mass_kg: 2_490_000_000_000_000_000_000,
                    radius_equator_m: 764_000,
                    radius_polar_m: 764_000,
                    axial_tilt_microdeg: 0,
                },
                seeded_elements(527_225_476, 909_561, 300_000, 360_969_247,
                    168_807_983),
                448_734_226,
            ),
            seeded_entry(
                entry_of(final(self).entries(), HANDLE_TITAN),
                HANDLE_SATURN,
                Body {
                    mass_kg: 135_000_000_000_000_000_000_000,
                    radius_equator_m: 2_575_000,
                    radius_polar_m: 2_575_000,
                    axial_tilt_microdeg: 0,
                },
                seeded_elements(1_221_971_852, 28_645_563, 300_000, 336_249_138,
                    169_142_780),
                143_054_244,
            ),
            seeded_entry(
                entry_of(final(self).entries(), HANDLE_HYPERION),
                HANDLE_SATURN,
                Body {
                    mass_kg: 17_700_000_000_000_000_000,
                    radius_equator_m: 143_000,
                    radius_polar_m: 143_000,
                    axial_tilt_microdeg: 0,
                },
                seeded_elements(1_447_200_000, 75_700_000, 600_000, 182_895_000,
                    168_900_000),
                301_600_000,
            ),
            seeded_entry(
                entry_of(final(self).entries(), HANDLE_IAPETUS),
                HANDLE_SATURN,
                Body {
                    mass_kg: 16_000_000_000_000_000_000_000,
                    radius_equator_m: 730_000,
                    radius_polar_m: 730_000,
                    axial_tilt_microdeg: 0,
                },
                seeded_elements(3_563_513_670, 27_406_715, 7_600_000, 369_297_405,
                    139_318_255),
                551_098_555,
            ),
            seeded_entry(
                entry_of(final(self).entries(), HANDLE_PHOEBE),
                HANDLE_SATURN,
                Body {
                    mass_kg: 7_800_000_000_000_000,
                    radius_equator_m: 3_000,
                    radius_polar_m: 3_000,
                    axial_tilt_microdeg: 0,
                },
                seeded_elements(12_995_759_988, 15_614, 175_200_000, 104_242_486,
                    208_626_701),
                108_701_283,
            ),
            seeded_entry(
                entry_of(final(self).entries(), HANDLE_JANUS),
                HANDLE_SATURN,
                Body {
                    mass_kg: 7_000_000_000_000_000,
                    radius_equator_m: 3_000,
                    radius_polar_m: 3_000,
                    axial_tilt_microdeg: 0,
                },
                seeded_elements(151_460_988, 14, 200_000, 104_242_486,
                    208_626_701),
                108_701_283,
            ),
            seeded_entry(
                entry_of(final(self).entries(), HANDLE_URANUS),
                HANDLE_SOL,
                Body {
                    mass_kg: 86_810_000_000_000_000_000_000_000,
                    radius_equator_m: 25_559_000,
                    radius_polar_m: 24_973_000,
                    axial_tilt_microdeg: 97_770_000,
                },
                seeded_elements(2_870_971_632_050, 47_170_000, 773_000, 96_998_857,
                    74_006_000),
                142_238_600,
            ),
            seeded_entry(
                entry_of(final(self).entries(), HANDLE_ARIEL),
                HANDLE_URANUS,
                Body {
                    mass_kg: 1_270_000_000_000_000_000_000,
                    radius_equator_m: 578_900,
                    radius_polar_m: 578_900,
                    axial_tilt_microdeg: 0,
                },
                seeded_elements(190_940_711, 1_378_503, 16_700, 236_689_280,
                    167_695_185),
                583_192_396,
            ),
            seeded_entry(
                entry_of(final(self).entries(), HANDLE_UMBRIEL),
                HANDLE_URANUS,
                Body {
                    mass_kg: 1_270_000_000_000_000_000_000,
                    radius_equator_m: 584_700,
                    radius_polar_m: 584_700,
                    axial_tilt_microdeg: 0,
                },
                seeded_elements(266_004_056, 4_364_502, 79_600, 521_550_233,
                    167_711_341),
                837_259_784,
            ),
            seeded_entry(
                entry_of(final(self).entries(), HANDLE_TITANIA),
                HANDLE_URANUS,
                Body {
                    mass_kg: 3_490_000_000_000_000_000_000,
                    radius_equator_m: 788_900,
                    radius_polar_m: 788_900,
                    axial_tilt_microdeg: 0,
                },
                seeded_elements(436_347_342, 2_757_640, 112_900, 399_564_019,
                    167_611_658),
                496_575_293,
            ),
            seeded_entry(
                entry_of(final(self).entries(), HANDLE_OBERON),
                HANDLE_URANUS,
                Body {
                    mass_kg: 3_030_000_000_000_000_000_000,
                    radius_equator_m: 761_400,
                    radius_polar_m: 761_400,
                    axial_tilt_microdeg: 0,
                },
                seeded_elements(583_560_909, 1_106_580, 147_800, 288_925_047,
                    167_742_243),
                472_670_392,
            ),
            seeded_entry(
                entry_of(final(self).entries(), HANDLE_MIRANDA),
                HANDLE_URANUS,
                Body {
                    mass_kg: 63_300_000_000_000_000_000,
                    radius_equator_m: 235_800,
                    radius_polar_m: 235_800,
                    axial_tilt_microdeg: 0,
                },
                seeded_elements(129_870_000, 1_400_000, 4_407_200, 242_280_990,
                    163_494_996),
                143_033_012,
            ),
            seeded_entry(
                entry_of(final(self).entries(), HANDLE_NEPTUNE),
                HANDLE_SOL,
                Body {
                    mass_kg: 102_409_000_000_000_000_000_000_000,
                    radius_equator_m: 24_764_000,
                    radius_polar_m: 24_341_000,
                    axial_tilt_microdeg: 28_320_000,
                },
                seeded_elements(4_498_407_971_949, 8_678_000, 1_770_000, 273_187_000,
                    131_783_000),
                317_020_000,
            ),
            seeded_entry(
                entry_of(final(self).entries(), HANDLE_TRITON),
                HANDLE_NEPTUNE,
                Body {
                    mass_kg: 21_400_000_000_000_000_000_000,
                    radius_equator_m: 1_352_500,
                    radius_polar_m: 1_352_500,
                    axial_tilt_microdeg: 0,
                },
                seeded_elements(354_765_668, 17_750, 156_865_000, 161_679_786,
                    217_253_065),
                829_258_161,
            ),
            seeded_entry(
                entry_of(final(self).entries(), HANDLE_NEREID),
                HANDLE_NEPTUNE,
                Body {
                    mass_kg: 13_170_000_000_000_000_000,
                    radius_equator_m: 165_000,
                    radius_polar_m: 165_000,
                    axial_tilt_microdeg: 0,
                },
                seeded_elements(5_515_375_933, 747_077_257, 5_100_000, 256_561_942,
                    320_104_934),
                324_053_241,
            ),
            seeded_entry(
                entry_of(final(self).entries(), HANDLE_NAIAD),
                HANDLE_NEPTUNE,
                Body {
                    mass_kg: 5_800_000_000_000_000,
                    radius_equator_m: 2_000,
                    radius_polar_m: 2_000,
                    axial_tilt_microdeg: 0,
                },
                seeded_elements(48_227_784_200, 447, 4_691_000, 104_242_486,
                    208_626_701),
                108_701_283,
            ),
            seeded_entry(
                entry_of(final(self).entries(), HANDLE_THALASSA),
                HANDLE_NEPTUNE,
                Body {
                    mass_kg: 5_800_000_000_000_000,
                    radius_equator_m: 2_000,
                    radius_polar_m: 2_000,
                    axial_tilt_microdeg: 0,
                },
                seeded_elements(50_141_475_756, 1_370_609, 135_000, 178_660_268,
                    49_148_648),
                187_573_079,
            ),
            seeded_entry(
                entry_of(final(self).entries(), HANDLE_DESPINA),
                HANDLE_NEPTUNE,
                Body {
                    mass_kg: 22_100_000_000_000_000,
                    radius_equator_m: 12_000,
                    radius_polar_m: 12_000,
                    axial_tilt_microdeg: 0,
                },
                seeded_elements(60_227_784_200, 24, 68_000, 104_242_486,
                    208_626_701),
                108_701_283,
            ),
            seeded_entry(
                entry_of(final(self).entries(), HANDLE_GALATEA),
                HANDLE_NEPTUNE,
                Body {
                    mass_kg: 59_550_000_000_000_000,
                    radius_equator_m: 79_100,
                    radius_polar_m: 79_100,
                    axial_tilt_microdeg: 0,
                },
                seeded_elements(62_097_694_895, 1_763_428, 34_000, 188_297_172,
                    48_693_836),
                216_667_607,
            ),
            seeded_entry(
                entry_of(final(self).entries(), HANDLE_LARISSA),
                HANDLE_NEPTUNE,
                Body {
                    mass_kg: 85_630_000_000_000_000,
                    radius_equator_m: 99_960,
                    radius_polar_m: 99_960,
                    axial_tilt_microdeg: 0,
                },
                seeded_elements(73_591_064_268, 1_696_576, 205_000, 378_844_329,
                    48_907_855),
                428_613_425,
            ),
            seeded_entry(
                entry_of(final(self).entries(), HANDLE_ERIS),
                HANDLE_SOL,
                Body {
                    mass_kg: 16_380_000_000_000_000_000_000,
                    radius_equator_m: 1_163_000,
                    radius_polar_m: 1_163_000,
                    axial_tilt_microdeg: 0,
                },
                seeded_elements(10_152_309_897_184, 436_070_000, 44_040_000, 151_639_000,
                    35_951_000),
                205_989_000,
            ),
            seeded_entry(
                entry_of(final(self).entries(), HANDLE_DYSNOMIA),
                HANDLE_ERIS,
                Body {
                    mass_kg: 82_000_000_000_000_000_000,
                    radius_equator_m: 307_500,
                    radius_polar_m: 307_500,
                    axial_tilt_microdeg: 0,
                },
                seeded_elements(37_237_000, 6_200_000, 0, 180_830_000,
                    126_170_000),
                205_989_000,
            ),
            seeded_entry(
                entry_of(final(self).entries(), HANDLE_HAUMEA),
                HANDLE_SOL,
                Body {
                    mass_kg: 4_006_000_000_000_000_000_000,
                    radius_equator_m: 780_000,
                    radius_polar_m: 780_000,
                    axial_tilt_microdeg: 0,
                },
                seeded_elements(6_450_061_793_101, 196_420_000, 28_213_700, 239_041_000,
                    122_167_000),
                218_205_000,
            ),
            seeded_entry(
                entry_of(final(self).entries(), HANDLE_HIIAKA),
                HANDLE_HAUMEA,
                Body {
                    mass_kg: 17_900_000_000_000_000_000,
                    radius_equator_m: 184_500,
                    radius_polar_m: 184_500,
                    axial_tilt_microdeg: 0,
                },
                seeded_elements(49_880_000, 51_300_000, 126_356_000, 154_100_000,
                    206_766_000),
                152_800_000,
            ),
            seeded_entry(
                entry_of(final(self).entries(), HANDLE_NAMAKA),
                HANDLE_HAUMEA,
                Body {
                    mass_kg: 1_790_000_000_000_000_000,
                    radius_equator_m: 85_000,
                    radius_polar_m: 85_000,
                    axial_tilt_microdeg: 0,
                },
                seeded_elements(25_657_000, 249_000_000, 113_013_000, 178_900_000,
                    205_016_000),
                178_500_000,
            ),
    {
        self.add_sun_and_rocky_planets();
        self.add_giant_planets();
        self.add_ice_giants_and_dwarfs();
        proof {
            assert forall|h: u64|
                has_key(self.entries(), h) && h != HANDLE_SOL implies (#[trigger] entry_of(
                self.entries(),
                h,
            )).parent is Some by {
                if h == HANDLE_MERCURY {
                    lemma_seeded_entry_parent(
                        entry_of(self.entries(), HANDLE_MERCURY),
                        HANDLE_SOL,
                        Body {
                            mass_kg: 330_110_000_000_000_000_000_000,
                            radius_equator_m: 2_440_797,
                            radius_polar_m: 2_440_797,
                            axial_tilt_microdeg: 34_000,
                        },
                        seeded_elements(57_910_000_000, 205_630_000, 7_005_000,
                            29_124_000, 48_331_000),
                        174_796_000,
                    );
                }
                if h == HANDLE_VENUS {
                    lemma_seeded_entry_parent(
                        entry_of(self.entries(), HANDLE_VENUS),
                        HANDLE_SOL,
                        Body {
                            mass_kg: 4_867_500_000_000_000_000_000_000,
                            radius_equator_m: 6_051_800,
                            radius_polar_m: 6_051_800,
                            axial_tilt_microdeg: 177_360_000,
                        },
                        seeded_elements(108_210_000_000, 6_772_000, 3_394_580,
                            54_884_000, 76_680_000),
                        50_115_000,
                    );
                }
                if h == HANDLE_EARTH {
                    lemma_seeded_entry_parent(
                        entry_of(self.entries(), HANDLE_EARTH),
                        HANDLE_SOL,
                        Body {
                            mass_kg: MASS_EARTH_KG,
                            radius_equator_m: RADIUS_EARTH_EQUATOR_M,
                            radius_polar_m: RADIUS_EARTH_POLAR_M,
                            axial_tilt_microdeg: TILT_EARTH_MICRODEG,
                        },
                        seeded_elements(149_598_023_000, 16_708_600, 50,
                            114_207_830, -11_260_640),
                        358_617_000,
                    );
                }
                if h == HANDLE_LUNA {
                    lemma_seeded_entry_parent(
                        entry_of(self.entries(), HANDLE_LUNA),
                        HANDLE_EARTH,
                        Body {
                            mass_kg: 73_460_000_000_000_000_000_000,
                            radius_equator_m: 1_737_400,
                            radius_polar_m: 1_737_400,
                            axial_tilt_microdeg: 0,
                        },
                        seeded_elements(384_399_000, 54_900_000, -18_294_000,
                            114_207_830, -11_260_640),
                        90_000_000,
                    );
                }
                if h == HANDLE_MARS {
                    lemma_seeded_entry_parent(
                        entry_of(self.entries(), HANDLE_MARS),
                        HANDLE_SOL,
                        Body {
                            mass_kg: 641_710_000_000_000_000_000_000,
                            radius_equator_m: 3_396_200,
                            radius_polar_m: 3_376_200,
                            axial_tilt_microdeg: 25_190_000,
                        },
                        seeded_elements(227_939_366_000, 93_400_000, 1_850_000,
                            286_500_000, 49_578_540),
                        174_796_000,
                    );
                }
                if h == HANDLE_PHOBOS {
                    lemma_seeded_entry_parent(
                        entry_of(self.entries(), HANDLE_PHOBOS),
                        HANDLE_MARS,
                        Body {
                            mass_kg: 10_600_000_000_000_000,
                            radius_equator_m: 11_080,
                            radius_polar_m: 11_080,
                            axial_tilt_microdeg: 0,
                        },
                        seeded_elements(9_376_000, 15_100_000, 1_093_000,
                            381_523_663, 83_143_239),
                        90_000_000,
                    );
                }
                if h == HANDLE_DEIMOS {
                    lemma_seeded_entry_parent(
                        entry_of(self.entries(), HANDLE_DEIMOS),
                        HANDLE_MARS,
                        Body {
                            mass_kg: 10_600_000_000_000_000,
                            radius_equator_m: 11_080,
                            radius_polar_m: 11_080,
                            axial_tilt_microdeg: 0,
                        },
                        seeded_elements(23_463_200, 330_000, 930_000,
                            386_193_544, 80_973_571),
                        270_000_000,
                    );
                }
                if h == HANDLE_JUPITER {
                    lemma_seeded_entry_parent(
                        entry_of(self.entries(), HANDLE_JUPITER),
                        HANDLE_SOL,
                        Body {
                            mass_kg: 1_898_200_000_000_000_000_000_000_000,
                            radius_equator_m: 71_492_000,
                            radius_polar_m: 66_854_000,
                            axial_tilt_microdeg: 3_130_000,
                        },
                        seeded_elements(778_477_399_548, 48_900_000, 1_303_000,
                            273_867_000, 100_464_000),
                        20_020_000,
                    );
                }
                if h == HANDLE_IO {
                    lemma_seeded_entry_parent(
                        entry_of(self.entries(), HANDLE_IO),
                        HANDLE_JUPITER,
                        Body {
                            mass_kg: 89_300_000_000_000_000_000_000,
                            radius_equator_m: 1_821_600,
                            radius_polar_m: 1_821_600,
                            axial_tilt_microdeg: 0,
                        },
                        seeded_elements(422_025_278, 4_188_671, 50_000,
                            654_351_898, 737_154_208),
                        90_000_000,
                    );
                }
                if h == HANDLE_EUROPA {
                    lemma_seeded_entry_parent(
                        entry_of(self.entries(), HANDLE_EUROPA),
                        HANDLE_JUPITER,
                        Body {
                            mass_kg: 48_000_000_000_000_000_000_000,
                            radius_equator_m: 1_565_000,
                            radius_polar_m: 1_565_000,
                            axial_tilt_microdeg: 0,
                        },
                        seeded_elements(671_193_628, 9_402_884, 470_000,
                            468_899_300, 350_526_057),
                        270_000_000,
                    );
                }
                if h == HANDLE_GANYMEDE {
                    lemma_seeded_entry_parent(
                        entry_of(self.entries(), HANDLE_GANYMEDE),
                        HANDLE_JUPITER,
                        Body {
                            mass_kg: 148_000_000_000_000_000_000_000,
                            radius_equator_m: 2_634_000,
                            radius_polar_m: 2_634_000,
                            axial_tilt_microdeg: 0,
                        },
                        seeded_elements(1_070_615_470, 1_587_629, 200_000,
                            621_291_691, 341_695_992),
                        270_000_000,
                    );
                }
                if h == HANDLE_CALLISTO {
                    lemma_seeded_entry_parent(
                        entry_of(self.entries(), HANDLE_CALLISTO),
                        HANDLE_JUPITER,
                        Body {
                            mass_kg: 107_593_800_000_000_000_000_000,
                            radius_equator_m: 2_410_300,
                            radius_polar_m: 2_410_300,
                            axial_tilt_microdeg: 0,
                        },
                        seeded_elements(1_882_700_000, 7_400_000, 192_000,
                            698_808_358, 339_482_965),
                        839_975_751,
                    );
                }
                if h == HANDLE_AMALTHEA {
                    lemma_seeded_entry_parent(
                        entry_of(self.entries(), HANDLE_AMALTHEA),
                        HANDLE_JUPITER,
                        Body {
                            mass_kg: 2_080_000_000_000_000_000,
                            radius_equator_m: 83_500,
                            radius_polar_m: 83_500,
                            axial_tilt_microdeg: 0,
                        },
                        seeded_elements(181_365_840, 441_428, 374_000,
                            414_339_943, 342_032_315),
                        270_000_000,
                    );
                }
                if h == HANDLE_HIMALIA {
                    lemma_seeded_entry_parent(
                        entry_of(self.entries(), HANDLE_HIMALIA),
                        HANDLE_JUPITER,
                        Body {
                            mass_kg: 9_560_000_000_000_000_000,
                            radius_equator_m: 93_150,
                            radius_polar_m: 93_150,
                            axial_tilt_microdeg: 0,
                        },
                        seeded_elements(11_394_679_431, 148_020_288, 28_100_000,
                            405_592_890, 57_786_525),
                        270_000_000,
                    );
                }
                if h == HANDLE_ELARA {
                    lemma_seeded_entry_parent(
                        entry_of(self.entries(), HANDLE_ELARA),
                        HANDLE_JUPITER,
                        Body {
                            mass_kg: 777_000_000_000_000_000,
                            radius_equator_m: 38_500,
                            radius_polar_m: 38_500,
                            axial_tilt_microdeg: 0,
                        },
                        seeded_elements(11_724_775_187, 196_015_925, 27_900_000,
                            254_812_870, 104_680_792),
                        270_000_000,
                    );
                }
                if h == HANDLE_PASIPHAE {
                    lemma_seeded_entry_parent(
                        entry_of(self.entries(), HANDLE_PASIPHAE),
                        HANDLE_JUPITER,
                        Body {
                            mass_kg: 191_000_000_000_000_000,
                            radius_equator_m: 25_700,
                            radius_polar_m: 25_700,
                            axial_tilt_microdeg: 0,
                        },
                        seeded_elements(23_398_199_225, 369_532_583, 148_400_000,
                            529_781_057, 333_722_656),
                        270_000_000,
                    );
                }
                if h == HANDLE_SINOPE {
                    lemma_seeded_entry_parent(
                        entry_of(self.entries(), HANDLE_SINOPE),
                        HANDLE_JUPITER,
                        Body {
                            mass_kg: 77_700_000_000_000_000,
                            radius_equator_m: 18_100,
                            radius_polar_m: 18_100,
                            axial_tilt_microdeg: 0,
                        },
                        seeded_elements(23_731_586_385, 286_212_248, 157_300_000,
                            330_014_714, 326_138_400),
                        578_187_135,
                    );
                }
                if h == HANDLE_LYSITHEA {
                    lemma_seeded_entry_parent(
                        entry_of(self.entries(), HANDLE_LYSITHEA),
                        HANDLE_JUPITER,
                        Body {
                            mass_kg: 77_700_000_000_000_000,
                            radius_equator_m: 18_200,
                            radius_polar_m: 18_200,
                            axial_tilt_microdeg: 0,
                        },
                        seeded_elements(11_681_680_564, 133_982_901, 27_200_000,
                            64_872_621, 1_252_118),
                        158_993_906,
                    );
                }
                if h == HANDLE_CARME {
                    lemma_seeded_entry_parent(
                        entry_of(self.entries(), HANDLE_CARME),
                        HANDLE_JUPITER,
                        Body {
                            mass_kg: 95_600_000_000_000_000,
                            radius_equator_m: 39_200,
                            radius_polar_m: 39_200,
                            axial_tilt_microdeg: 0,
                        },
                        seeded_elements(22_846_253_568, 222_748_653, 164_300_000,
                            199_239_805, 143_056_427),
                        545_059_221,
                    );
                }
                if h == HANDLE_ANANKE {
                    lemma_seeded_entry_parent(
                        entry_of(self.entries(), HANDLE_ANANKE),
                        HANDLE_JUPITER,
                        Body {
                            mass_kg: 38_200_000_000_000_000,
                            radius_equator_m: 14_900,
                            radius_polar_m: 14_900,
                            axial_tilt_microdeg: 0,
                        },
                        seeded_elements(21_178_519_961, 360_749_649, 147_600_000,
                            131_881_909, 39_194_106),
                        365_178_243,
                    );
                }
                if h == HANDLE_LEDA {
                    lemma_seeded_entry_parent(
                        entry_of(self.entries(), HANDLE_LEDA),
                        HANDLE_JUPITER,
                        Body {
                            mass_kg: 5_680_000_000_000_000,
                            radius_equator_m: 21_500,
                            radius_polar_m: 21_500,
                            axial_tilt_microdeg: 0,
                        },
                        seeded_elements(11_195_980_000, 360_749_649, 28_600_000,
                            312_929_650, 190_184_970),
                        137_025_710,
                    );
                }
                if h == HANDLE_SATURN {
                    lemma_seeded_entry_parent(
                        entry_of(self.entries(), HANDLE_SATURN),
                        HANDLE_SOL,
                        Body {
                            mass_kg: 568_340_000_000_000_000_000_000_000,
                            radius_equator_m: 60_268_000,
                            radius_polar_m: 54_364_000,
                            axial_tilt_microdeg: 26_730_000,
                        },
                        seeded_elements(1_433_536_555_769, 56_500_000, 2_485_000,
                            339_392_000, 113_665_000),
                        317_020_000,
                    );
                }
                if h == HANDLE_MIMAS {
                    lemma_seeded_entry_parent(
                        entry_of(self.entries(), HANDLE_MIMAS),
                        HANDLE_SATURN,
                        Body {
                            mass_kg: 38_000_000_000_000_000_000,
                            radius_equator_m: 196_000,
                            radius_polar_m: 196_000,
                            axial_tilt_microdeg: 0,
                        },
                        seeded_elements(186_037_830, 21_513_348, 1_600_000,
                            449_370_429, 167_307_082),
                        772_976_419,
                    );
                }
                if h == HANDLE_ENCELADUS {
                    lemma_seeded_entry_parent(
                        entry_of(self.entries(), HANDLE_ENCELADUS),
                        HANDLE_SATURN,
                        Body {
                            mass_kg: 73_000_000_000_000_000_000,
                            radius_equator_m: 249_000,
                            radius_polar_m: 249_000,
                            axial_tilt_microdeg: 0,
                        },
                        seeded_elements(238_408_052, 372_459, 0,
                            264_678_197, 169_520_486),
                        384_119_889,
                    );
                }
                if h == HANDLE_TETHYS {
                    lemma_seeded_entry_parent(
                        entry_of(self.entries(), HANDLE_TETHYS),
                        HANDLE_SATURN,
                        Body {
                            mass_kg: 622_000_000_000_000_000_000,
                            radius_equator_m: 530_000,
                            radius_polar_m: 530_000,
                            axial_tilt_microdeg: 0,
                        },
                        seeded_elements(294_982_634, 1_075_326, 1_100_000,
                            496_824_627, 169_153_256),
                        502_612_336,
                    );
                }
                if h == HANDLE_DIONE {
                    lemma_seeded_entry_parent(
                        entry_of(self.entries(), HANDLE_DIONE),
                        HANDLE_SATURN,
                        Body {
                            mass_kg: 1_050_000_000_000_000_000_000,
                            radius_equator_m: 560_000,
                            radius_polar_m: 560_000,
                            axial_tilt_microdeg: 0,
                        },
                        seeded_elements(377_653_774, 2_731_840, 0,
                            5_080_259_012, 169_572_308),
                        856_824_114,
                    );
                }
                if h == HANDLE_RHEA {
                    lemma_seeded_entry_parent(
                        entry_of(self.entries(), HANDLE_RHEA),
                        HANDLE_SATURN,
                        Body {
                            mass_kg: 2_490_000_000_000_000_000_000,
                            radius_equator_m: 764_000,
                            radius_polar_m: 764_000,
                            axial_tilt_microdeg: 0,
                        },
                        seeded_elements(527_225_476, 909_561, 300_000,
                            360_969_247, 168_807_983),
                        448_734_226,
                    );
                }
                if h == HANDLE_TITAN {
                    lemma_seeded_entry_parent(
                        entry_of(self.entries(), HANDLE_TITAN),
                        HANDLE_SATURN,
                        Body {
                            mass_kg: 135_000_000_000_000_000_000_000,
                            radius_equator_m: 2_575_000,
                            radius_polar_m: 2_575_000,
                            axial_tilt_microdeg: 0,
                        },
                        seeded_elements(1_221_971_852, 28_645_563, 300_000,
                            336_249_138, 169_142_780),
                        143_054_244,
                    );
                }
                if h == HANDLE_HYPERION {
                    lemma_seeded_entry_parent(
                        entry_of(self.entries(), HANDLE_HYPERION),
                        HANDLE_SATURN,
                        Body {
                            mass_kg: 17_700_000_000_000_000_000,
                            radius_equator_m: 143_000,
                            radius_polar_m: 143_000,
                            axial_tilt_microdeg: 0,
                        },
                        seeded_elements(1_447_200_000, 75_700_000, 600_000,
                            182_895_000, 168_900_000),
                        301_600_000,
                    );
                }
                if h == HANDLE_IAPETUS {
                    lemma_seeded_entry_parent(
                        entry_of(self.entries(), HANDLE_IAPETUS),
                        HANDLE_SATURN,
                        Body {
                            mass_kg: 16_000_000_000_000_000_000_000,
                            radius_equator_m: 730_000,
                            radius_polar_m: 730_000,
                            axial_tilt_microdeg: 0,
                        },
                        seeded_elements(3_563_513_670, 27_406_715, 7_600_000,
                            369_297_405, 139_318_255),
                        551_098_555,
                    );
                }
                if h == HANDLE_PHOEBE {
                    lemma_seeded_entry_parent(
                        entry_of(self.entries(), HANDLE_PHOEBE),
                        HANDLE_SATURN,
                        Body {
                            mass_kg: 7_800_000_000_000_000,
                            radius_equator_m: 3_000,
                            radius_polar_m: 3_000,
                            axial_tilt_microdeg: 0,
                        },
                        seeded_elements(12_995_759_988, 15_614, 175_200_000,
                            104_242_486, 208_626_701),
                        108_701_283,
                    );
                }
                if h == HANDLE_JANUS {
                    lemma_seeded_entry_parent(
                        entry_of(self.entries(), HANDLE_JANUS),
                        HANDLE_SATURN,
                        Body {
                            mass_kg: 7_000_000_000_000_000,
                            radius_equator_m: 3_000,
                            radius_polar_m: 3_000,
                            axial_tilt_microdeg: 0,
                        },
                        seeded_elements(151_460_988, 14, 200_000,
                            104_242_486, 208_626_701),
                        108_701_283,
                    );
                }
                if h == HANDLE_URANUS {
                    lemma_seeded_entry_parent(
                        entry_of(self.entries(), HANDLE_URANUS),
                        HANDLE_SOL,
                        Body {
                            mass_kg: 86_810_000_000_000_000_000_000_000,
                            radius_equator_m: 25_559_000,
                            radius_polar_m: 24_973_000,
                            axial_tilt_microdeg: 97_770_000,
                        },
                        seeded_elements(2_870_971_632_050, 47_170_000, 773_000,
                            96_998_857, 74_006_000),
                        142_238_600,
                    );
                }
                if h == HANDLE_ARIEL {
                    lemma_seeded_entry_parent(
                        entry_of(self.entries(), HANDLE_ARIEL),
                        HANDLE_URANUS,
                        Body {
                            mass_kg: 1_270_000_000_000_000_000_000,
                            radius_equator_m: 578_900,
                            radius_polar_m: 578_900,
                            axial_tilt_microdeg: 0,
                        },
                        seeded_elements(190_940_711, 1_378_503, 16_700,
                            236_689_280, 167_695_185),
                        583_192_396,
                    );
                }
                if h == HANDLE_UMBRIEL {
                    lemma_seeded_entry_parent(
                        entry_of(self.entries(), HANDLE_UMBRIEL),
                        HANDLE_URANUS,
                        Body {
                            mass_kg: 1_270_000_000_000_000_000_000,
                            radius_equator_m: 584_700,
                            radius_polar_m: 584_700,
                            axial_tilt_microdeg: 0,
                        },
                        seeded_elements(266_004_056, 4_364_502, 79_600,
                            521_550_233, 167_711_341),
                        837_259_784,
                    );
                }
                if h == HANDLE_TITANIA {
                    lemma_seeded_entry_parent(
                        entry_of(self.entries(), HANDLE_TITANIA),
                        HANDLE_URANUS,
                        Body {
                            mass_kg: 3_490_000_000_000_000_000_000,
                            radius_equator_m: 788_900,
                            radius_polar_m: 788_900,
                            axial_tilt_microdeg: 0,
                        },
                        seeded_elements(436_347_342, 2_757_640, 112_900,
                            399_564_019, 167_611_658),
                        496_575_293,
                    );
                }
                if h == HANDLE_OBERON {
                    lemma_seeded_entry_parent(
                        entry_of(self.entries(), HANDLE_OBERON),
                        HANDLE_URANUS,
                        Body {
                            mass_kg: 3_030_000_000_000_000_000_000,
                            radius_equator_m: 761_400,
                            radius_polar_m: 761_400,
                            axial_tilt_microdeg: 0,
                        },
                        seeded_elements(583_560_909, 1_106_580, 147_800,
                            288_925_047, 167_742_243),
                        472_670_392,
                    );
                }
                if h == HANDLE_MIRANDA {
                    lemma_seeded_entry_parent(
                        entry_of(self.entries(), HANDLE_MIRANDA),
                        HANDLE_URANUS,
                        Body {
                            mass_kg: 63_300_000_000_000_000_000,
                            radius_equator_m: 235_800,
                            radius_polar_m: 235_800,
                            axial_tilt_microdeg: 0,
                        },
                        seeded_elements(129_870_000, 1_400_000, 4_407_200,
                            242_280_990, 163_494_996),
                        143_033_012,
                    );
                }
                if h == HANDLE_NEPTUNE {
                    lemma_seeded_entry_parent(
                        entry_of(self.entries(), HANDLE_NEPTUNE),
                        HANDLE_SOL,
                        Body {
                            mass_kg: 102_409_000_000_000_000_000_000_000,
                            radius_equator_m: 24_764_000,
                            radius_polar_m: 24_341_000,
                            axial_tilt_microdeg: 28_320_000,
                        },
                        seeded_elements(4_498_407_971_949, 8_678_000, 1_770_000,
                            273_187_000, 131_783_000),
                        317_020_000,
                    );
                }
                if h == HANDLE_TRITON {
                    lemma_seeded_entry_parent(
                        entry_of(self.entries(), HANDLE_TRITON),
                        HANDLE_NEPTUNE,
                        Body {
                            mass_kg: 21_400_000_000_000_000_000_000,
                            radius_equator_m: 1_352_500,
                            radius_polar_m: 1_352_500,
                            axial_tilt_microdeg: 0,
                        },
                        seeded_elements(354_765_668, 17_750, 156_865_000,
                            161_679_786, 217_253_065),
                        829_258_161,
                    );
                }
                if h == HANDLE_NEREID {
                    lemma_seeded_entry_parent(
                        entry_of(self.entries(), HANDLE_NEREID),
                        HANDLE_NEPTUNE,
                        Body {
                            mass_kg: 13_170_000_000_000_000_000,
                            radius_equator_m: 165_000,
                            radius_polar_m: 165_000,
                            axial_tilt_microdeg: 0,
                        },
                        seeded_elements(5_515_375_933, 747_077_257, 5_100_000,
                            256_561_942, 320_104_934),
                        324_053_241,
                    );
                }
                if h == HANDLE_NAIAD {
                    lemma_seeded_entry_parent(
                        entry_of(self.entries(), HANDLE_NAIAD),
                        HANDLE_NEPTUNE,
                        Body {
                            mass_kg: 5_800_000_000_000_000,
                            radius_equator_m: 2_000,
                            radius_polar_m: 2_000,
                            axial_tilt_microdeg: 0,
                        },
                        seeded_elements(48_227_784_200, 447, 4_691_000,
                            104_242_486, 208_626_701),
                        108_701_283,
                    );
                }
                if h == HANDLE_THALASSA {
                    lemma_seeded_entry_parent(
                        entry_of(self.entries(), HANDLE_THALASSA),
                        HANDLE_NEPTUNE,
                        Body {
                            mass_kg: 5_800_000_000_000_000,
                            radius_equator_m: 2_000,
                            radius_polar_m: 2_000,
                            axial_tilt_microdeg: 0,
                        },
                        seeded_elements(50_141_475_756, 1_370_609, 135_000,
                            178_660_268, 49_148_648),
                        187_573_079,
                    );
                }
                if h == HANDLE_DESPINA {
                    lemma_seeded_entry_parent(
                        entry_of(self.entries(), HANDLE_DESPINA),
                        HANDLE_NEPTUNE,
                        Body {
                            mass_kg: 22_100_000_000_000_000,
                            radius_equator_m: 12_000,
                            radius_polar_m: 12_000,
                            axial_tilt_microdeg: 0,
                        },
                        seeded_elements(60_227_784_200, 24, 68_000,
                            104_242_486, 208_626_701),
                        108_701_283,
                    );
                }
                if h == HANDLE_GALATEA {
                    lemma_seeded_entry_parent(
                        entry_of(self.entries(), HANDLE_GALATEA),
                        HANDLE_NEPTUNE,
                        Body {
                            mass_kg: 59_550_000_000_000_000,
                            radius_equator_m: 79_100,
                            radius_polar_m: 79_100,
                            axial_tilt_microdeg: 0,
                        },
                        seeded_elements(62_097_694_895, 1_763_428, 34_000,
                            188_297_172, 48_693_836),
                        216_667_607,
                    );
                }
                if h == HANDLE_LARISSA {
                    lemma_seeded_entry_parent(
                        entry_of(self.entries(), HANDLE_LARISSA),
                        HANDLE_NEPTUNE,
                        Body {
                            mass_kg: 85_630_000_000_000_000,
                            radius_equator_m: 99_960,
                            radius_polar_m: 99_960,
                            axial_tilt_microdeg: 0,
                        },
                        seeded_elements(73_591_064_268, 1_696_576, 205_000,
                            378_844_329, 48_907_855),
                        428_613_425,
                    );
                }
                if h == HANDLE_ERIS {
                    lemma_seeded_entry_parent(
                        entry_of(self.entries(), HANDLE_ERIS),
                        HANDLE_SOL,
                        Body {
                            mass_kg: 16_380_000_000_000_000_000_000,
                            radius_equator_m: 1_163_000,
                            radius_polar_m: 1_163_000,
                            axial_tilt_microdeg: 0,
                        },
                        seeded_elements(10_152_309_897_184, 436_070_000, 44_040_000,
                            151_639_000, 35_951_000),
                        205_989_000,
                    );
                }
                if h == HANDLE_DYSNOMIA {
                    lemma_seeded_entry_parent(
                        entry_of(self.entries(), HANDLE_DYSNOMIA),
                        HANDLE_ERIS,
                        Body {
                            mass_kg: 82_000_000_000_000_000_000,
                            radius_equator_m: 307_500,
                            radius_polar_m: 307_500,
                            axial_tilt_microdeg: 0,
                        },
                        seeded_elements(37_237_000, 6_200_000, 0,
                            180_830_000, 126_170_000),
                        205_989_000,
                    );
                }
                if h == HANDLE_HAUMEA {
                    lemma_seeded_entry_parent(
                        entry_of(self.entries(), HANDLE_HAUMEA),
                        HANDLE_SOL,
                        Body {
                            mass_kg: 4_006_000_000_000_000_000_000,
                            radius_equator_m: 780_000,
                            radius_polar_m: 780_000,
                            axial_tilt_microdeg: 0,
                        },
                        seeded_elements(6_450_061_793_101, 196_420_000, 28_213_700,
                            239_041_000, 122_167_000),
                        218_205_000,
                    );
                }
                if h == HANDLE_HIIAKA {
                    lemma_seeded_entry_parent(
                        entry_of(self.entries(), HANDLE_HIIAKA),
                        HANDLE_HAUMEA,
                        Body {
                            mass_kg: 17_900_000_000_000_000_000,
                            radius_equator_m: 184_500,
                            radius_polar_m: 184_500,
                            axial_tilt_microdeg: 0,
                        },
                        seeded_elements(49_880_000, 51_300_000, 126_356_000,
                            154_100_000, 206_766_000),
                        152_800_000,
                    );
                }
                if h == HANDLE_NAMAKA {
                    lemma_seeded_entry_parent(
                        entry_of(self.entries(), HANDLE_NAMAKA),
                        HANDLE_HAUMEA,
                        Body {
                            mass_kg: 1_790_000_000_000_000_000,
                            radius_equator_m: 85_000,
                            radius_polar_m: 85_000,
                            axial_tilt_microdeg: 0,
                        },
                        seeded_elements(25_657_000, 249_000_000, 113_013_000,
                            178_900_000, 205_016_000),
                        178_500_000,
                    );
                }
            }
        }
    }
    /// Builder form of [`Database::add_solar_system`].
    #[verifier::rlimit(100)]
    pub fn with_solar_system(self) -> (r: Database)
        requires
            self.wf(),
            self.entries().len() == 0,
        ensures
            r.wf(),
            r.entries().len() == 52,
            forall|h: u64| has_key(r.entries(), h) == (h == HANDLE_SOL || h == HANDLE_MERCURY || h == HANDLE_VENUS || h == HANDLE_EARTH || h == HANDLE_LUNA || h == HANDLE_MARS || h == HANDLE_PHOBOS || h == HANDLE_DEIMOS || h == HANDLE_JUPITER || h == HANDLE_IO || h == HANDLE_EUROPA || h == HANDLE_GANYMEDE || h == HANDLE_CALLISTO || h == HANDLE_AMALTHEA || h == HANDLE_HIMALIA || h == HANDLE_ELARA || h == HANDLE_PASIPHAE || h == HANDLE_SINOPE || h == HANDLE_LYSITHEA || h == HANDLE_CARME || h == HANDLE_ANANKE || h == HANDLE_LEDA || h == HANDLE_SATURN || h == HANDLE_MIMAS || h == HANDLE_ENCELADUS || h == HANDLE_TETHYS || h == HANDLE_DIONE || h == HANDLE_RHEA || h == HANDLE_TITAN || h == HANDLE_HYPERION || h == HANDLE_IAPETUS || h == HANDLE_PHOEBE || h == HANDLE_JANUS || h == HANDLE_URANUS || h == HANDLE_ARIEL || h == HANDLE_UMBRIEL || h == HANDLE_TITANIA || h == HANDLE_OBERON || h == HANDLE_MIRANDA || h == HANDLE_NEPTUNE || h == HANDLE_TRITON || h == HANDLE_NEREID || h == HANDLE_NAIAD || h == HANDLE_THALASSA || h == HANDLE_DESPINA || h == HANDLE_GALATEA || h == HANDLE_LARISSA || h == HANDLE_ERIS || h == HANDLE_DYSNOMIA || h == HANDLE_HAUMEA || h == HANDLE_HIIAKA || h == HANDLE_NAMAKA),
            forall|h: u64|
                has_key(r.entries(), h) && h != HANDLE_SOL ==> (#[trigger] entry_of(
                    r.entries(),
                    h,
                )).parent is Some,
            ({
                let e = entry_of(r.entries(), HANDLE_SOL);
                &&& e.parent is None
                &&& e.orbit is None
                &&& e.info == (Body {
                    mass_kg: MASS_SUN_KG,
                    radius_equator_m: RADIUS_SUN_M,
                    radius_polar_m: RADIUS_SUN_POLAR_M,
                    axial_tilt_microdeg: 0,
                })
                &&& e.mean_anomaly_at_epoch == 0
                &&& e.scale == SUN_SCALE_NANO
            }),
            seeded_entry(
                entry_of(r.entries(), HANDLE_MERCURY),
                HANDLE_SOL,
                Body {
                    mass_kg: 330_110_000_000_000_000_000_000,
                    radius_equator_m: 2_440_797,
                    radius_polar_m: 2_440_797,
                    axial_tilt_microdeg: 34_000,
                },
                seeded_elements(57_910_000_000, 205_630_000, 7_005_000, 29_124_000,
                    48_331_000),
                174_796_000,
            ),
            seeded_entry(
                entry_of(r.entries(), HANDLE_VENUS),
                HANDLE_SOL,
                Body {
                    mass_kg: 4_867_500_000_000_000_000_000_000,
                    radius_equator_m: 6_051_800,
                    radius_polar_m: 6_051_800,
                    axial_tilt_microdeg: 177_360_000,
                },
                seeded_elements(108_210_000_000, 6_772_000, 3_394_580, 54_884_000,
                    76_680_000),
                50_115_000,
            ),
            seeded_entry(
                entry_of(r.entries(), HANDLE_EARTH),
                HANDLE_SOL,
                Body {
                    mass_kg: MASS_EARTH_KG,
                    radius_equator_m: RADIUS_EARTH_EQUATOR_M,
                    radius_polar_m: RADIUS_EARTH_POLAR_M,
                    axial_tilt_microdeg: TILT_EARTH_MICRODEG,
                },
                seeded_elements(149_598_023_000, 16_708_600, 50, 114_207_830,
                    -11_260_640),
                358_617_000,
            ),
            seeded_entry(
                entry_of(r.entries(), HANDLE_LUNA),
                HANDLE_EARTH,
                Body {
                    mass_kg: 73_460_000_000_000_000_000_000,
                    radius_equator_m: 1_737_400,
                    radius_polar_m: 1_737_400,
                    axial_tilt_microdeg: 0,
                },
                seeded_elements(384_399_000, 54_900_000, -18_294_000, 114_207_830,
                    -11_260_640),
                90_000_000,
            ),
            seeded_entry(
                entry_of(r.entries(), HANDLE_MARS),
                HANDLE_SOL,
                Body {
                    mass_kg: 641_710_000_000_000_000_000_000,
                    radius_equator_m: 3_396_200,
                    radius_polar_m: 3_376_200,
                    axial_tilt_microdeg: 25_190_000,
                },
                seeded_elements(227_939_366_000, 93_400_000, 1_850_000, 286_500_000,
                    49_578_540),
                174_796_000,
            ),
            seeded_entry(
                entry_of(r.entries(), HANDLE_PHOBOS),
                HANDLE_MARS,
                Body {
                    mass_kg: 10_600_000_000_000_000,
                    radius_equator_m: 11_080,
                    radius_polar_m: 11_080,
                    axial_tilt_microdeg: 0,
                },
                seeded_elements(9_376_000, 15_100_000, 1_093_000, 381_523_663,
                    83_143_239),
                90_000_000,
            ),
            seeded_entry(
                entry_of(r.entries(), HANDLE_DEIMOS),
                HANDLE_MARS,
                Body {
                    mass_kg: 10_600_000_000_000_000,
                    radius_equator_m: 11_080,
                    radius_polar_m: 11_080,
                    axial_tilt_microdeg: 0,
                },
                seeded_elements(23_463_200, 330_000, 930_000, 386_193_544,
                    80_973_571),
                270_000_000,
            ),
            seeded_entry(
                entry_of(r.entries(), HANDLE_JUPITER),
                HANDLE_SOL,
                Body {
                    mass_kg: 1_898_200_000_000_000_000_000_000_000,
                    radius_equator_m: 71_492_000,
                    radius_polar_m: 66_854_000,
                    axial_tilt_microdeg: 3_130_000,
                },
                seeded_elements(778_477_399_548, 48_900_000, 1_303_000, 273_867_000,
                    100_464_000),
                20_020_000,
            ),
            seeded_entry(
                entry_of(r.entries(), HANDLE_IO),
                HANDLE_JUPITER,
                Body {
                    mass_kg: 89_300_000_000_000_000_000_000,
                    radius_equator_m: 1_821_600,
                    radius_polar_m: 1_821_600,
                    axial_tilt_microdeg: 0,
                },
                seeded_elements(422_025_278, 4_188_671, 50_000, 654_351_898,
                    737_154_208),
                90_000_000,
            ),
            seeded_entry(
                entry_of(r.entries(), HANDLE_EUROPA),
                HANDLE_JUPITER,
                Body {
                    mass_kg: 48_000_000_000_000_000_000_000,
                    radius_equator_m: 1_565_000,
                    radius_polar_m: 1_565_000,
                    axial_tilt_microdeg: 0,
                },
                seeded_elements(671_193_628, 9_402_884, 470_000, 468_899_300,
                    350_526_057),
                270_000_000,
            ),
            seeded_entry(
                entry_of(r.entries(), HANDLE_GANYMEDE),
                HANDLE_JUPITER,
                Body {
                    mass_kg: 148_000_000_000_000_000_000_000,
                    radius_equator_m: 2_634_000,
                    radius_polar_m: 2_634_000,
                    axial_tilt_microdeg: 0,
                },
                seeded_elements(1_070_615_470, 1_587_629, 200_000, 621_291_691,
                    341_695_992),
                270_000_000,
            ),
            seeded_entry(
                entry_of(r.entries(), HANDLE_CALLISTO),
                HANDLE_JUPITER,
                Body {
                    mass_kg: 107_593_800_000_000_000_000_000,
                    radius_equator_m: 2_410_300,
                    radius_polar_m: 2_410_300,
                    axial_tilt_microdeg: 0,
                },
                seeded_elements(1_882_700_000, 7_400_000, 192_000, 698_808_358,
                    339_482_965),
                839_975_751,
            ),
            seeded_entry(
                entry_of(r.entries(), HANDLE_AMALTHEA),
                HANDLE_JUPITER,
                Body {
                    mass_kg: 2_080_000_000_000_000_000,
                    radius_equator_m: 83_500,
                    radius_polar_m: 83_500,
                    axial_tilt_microdeg: 0,
                },
                seeded_elements(181_365_840, 441_428, 374_000, 414_339_943,
                    342_032_315),
                270_000_000,
            ),
            seeded_entry(
                entry_of(r.entries(), HANDLE_HIMALIA),
                HANDLE_JUPITER,
                Body {
                    mass_kg: 9_560_000_000_000_000_000,
                    radius_equator_m: 93_150,
                    radius_polar_m: 93_150,
                    axial_tilt_microdeg: 0,
                },
                seeded_elements(11_394_679_431, 148_020_288, 28_100_000, 405_592_890,
                    57_786_525),
                270_000_000,
            ),
            seeded_entry(
                entry_of(r.entries(), HANDLE_ELARA),
                HANDLE_JUPITER,
                Body {
                    mass_kg: 777_000_000_000_000_000,
                    radius_equator_m: 38_500,
                    radius_polar_m: 38_500,
                    axial_tilt_microdeg: 0,
                },
                seeded_elements(11_724_775_187, 196_015_925, 27_900_000, 254_812_870,
                    104_680_792),
                270_000_000,
            ),
            seeded_entry(
                entry_of(r.entries(), HANDLE_PASIPHAE),
                HANDLE_JUPITER,
                Body {
                    mass_kg: 191_000_000_000_000_000,
                    radius_equator_m: 25_700,
                    radius_polar_m: 25_700,
                    axial_tilt_microdeg: 0,
                },
                seeded_elements(23_398_199_225, 369_532_583, 148_400_000, 529_781_057,
                    333_722_656),
                270_000_000,
            ),
            seeded_entry(
                entry_of(r.entries(), HANDLE_SINOPE),
                HANDLE_JUPITER,
                Body {
                    mass_kg: 77_700_000_000_000_000,
                    radius_equator_m: 18_100,
                    radius_polar_m: 18_100,
                    axial_tilt_microdeg: 0,
                },
                seeded_elements(23_731_586_385, 286_212_248, 157_300_000, 330_014_714,
                    326_138_400),
                578_187_135,
            ),
            seeded_entry(
                entry_of(r.entries(), HANDLE_LYSITHEA),
                HANDLE_JUPITER,
                Body {
                    mass_kg: 77_700_000_000_000_000,
                    radius_equator_m: 18_200,
                    radius_polar_m: 18_200,
                    axial_tilt_microdeg: 0,
                },
                seeded_elements(11_681_680_564, 133_982_901, 27_200_000, 64_872_621,
                    1_252_118),
                158_993_906,
            ),
            seeded_entry(
                entry_of(r.entries(), HANDLE_CARME),
                HANDLE_JUPITER,
                Body {
                    mass_kg: 95_600_000_000_000_000,
                    radius_equator_m: 39_200,
                    radius_polar_m: 39_200,
                    axial_tilt_microdeg: 0,
                },
                seeded_elements(22_846_253_568, 222_748_653, 164_300_000, 199_239_805,
                    143_056_427),
                545_059_221,
            ),
            seeded_entry(
                entry_of(r.entries(), HANDLE_ANANKE),
                HANDLE_JUPITER,
                Body {
                    mass_kg: 38_200_000_000_000_000,
                    radius_equator_m: 14_900,
                    radius_polar_m: 14_900,
                    axial_tilt_microdeg: 0,
                },
                seeded_elements(21_178_519_961, 360_749_649, 147_600_000, 131_881_909,
                    39_194_106),
                365_178_243,
            ),
            seeded_entry(
                entry_of(r.entries(), HANDLE_LEDA),
                HANDLE_JUPITER,
                Body {
                    mass_kg: 5_680_000_000_000_000,
                    radius_equator_m: 21_500,
                    radius_polar_m: 21_500,
                    axial_tilt_microdeg: 0,
                },
                seeded_elements(11_195_980_000, 360_749_649, 28_600_000, 312_929_650,
                    190_184_970),
                137_025_710,
            ),
            seeded_entry(
                entry_of(r.entries(), HANDLE_SATURN),
                HANDLE_SOL,
                Body {
                    mass_kg: 568_340_000_000_000_000_000_000_000,
                    radius_equator_m: 60_268_000,
                    radius_polar_m: 54_364_000,
                    axial_tilt_microdeg: 26_730_000,
                },
                seeded_elements(1_433_536_555_769, 56_500_000, 2_485_000, 339_392_000,
                    113_665_000),
                317_020_000,
            ),
            seeded_entry(
                entry_of(r.entries(), HANDLE_MIMAS),
                HANDLE_SATURN,
                Body {
                    mass_kg: 38_000_000_000_000_000_000,
                    radius_equator_m: 196_000,
                    radius_polar_m: 196_000,
                    axial_tilt_microdeg: 0,
                },
                seeded_elements(186_037_830, 21_513_348, 1_600_000, 449_370_429,
                    167_307_082),
                772_976_419,
            ),
            seeded_entry(
                entry_of(r.entries(), HANDLE_ENCELADUS),
                HANDLE_SATURN,
                Body {
                    mass_kg: 73_000_000_000_000_000_000,
                    radius_equator_m: 249_000,
                    radius_polar_m: 249_000,
                    axial_tilt_microdeg: 0,
                },
                seeded_elements(238_408_052, 372_459, 0, 264_678_197,
                    169_520_486),
                384_119_889,
            ),
            seeded_entry(
                entry_of(r.entries(), HANDLE_TETHYS),
                HANDLE_SATURN,
                Body {
                    mass_kg: 622_000_000_000_000_000_000,
                    radius_equator_m: 530_000,
                    radius_polar_m: 530_000,
                    axial_tilt_microdeg: 0,
                },
                seeded_elements(294_982_634, 1_075_326, 1_100_000, 496_824_627,
                    169_153_256),
                502_612_336,
            ),
            seeded_entry(
                entry_of(r.entries(), HANDLE_DIONE),
                HANDLE_SATURN,
                Body {
                    mass_kg: 1_050_000_000_000_000_000_000,
                    radius_equator_m: 560_000,
                    radius_polar_m: 560_000,
                    axial_tilt_microdeg: 0,
                },
                seeded_elements(377_653_774, 2_731_840, 0, 5_080_259_012,
                    169_572_308),
                856_824_114,
            ),
            seeded_entry(
                entry_of(r.entries(), HANDLE_RHEA),
                HANDLE_SATURN,
                Body {
                    mass_kg: 2_490_000_000_000_000_000_000,
                    radius_equator_m: 764_000,
                    radius_polar_m: 764_000,
                    axial_tilt_microdeg: 0,
                },
                seeded_elements(527_225_476, 909_561, 300_000, 360_969_247,
                    168_807_983),
                448_734_226,
            ),
            seeded_entry(
                entry_of(r.entries(), HANDLE_TITAN),
                HANDLE_SATURN,
                Body {
                    mass_kg: 135_000_000_000_000_000_000_000,
                    radius_equator_m: 2_575_000,
                    radius_polar_m: 2_575_000,
                    axial_tilt_microdeg: 0,
                },
                seeded_elements(1_221_971_852, 28_645_563, 300_000, 336_249_138,
                    169_142_780),
                143_054_244,
            ),
            seeded_entry(
                entry_of(r.entries(), HANDLE_HYPERION),
                HANDLE_SATURN,
                Body {
                    mass_kg: 17_700_000_000_000_000_000,
                    radius_equator_m: 143_000,
                    radius_polar_m: 143_000,
                    axial_tilt_microdeg: 0,
                },
                seeded_elements(1_447_200_000, 75_700_000, 600_000, 182_895_000,
                    168_900_000),
                301_600_000,
            ),
            seeded_entry(
                entry_of(r.entries(), HANDLE_IAPETUS),
                HANDLE_SATURN,
                Body {
                    mass_kg: 16_000_000_000_000_000_000_000,
                    radius_equator_m: 730_000,
                    radius_polar_m: 730_000,
                    axial_tilt_microdeg: 0,
                },
                seeded_elements(3_563_513_670, 27_406_715, 7_600_000, 369_297_405,
                    139_318_255),
                551_098_555,
            ),
            seeded_entry(
                entry_of(r.entries(), HANDLE_PHOEBE),
                HANDLE_SATURN,
                Body {
                    mass_kg: 7_800_000_000_000_000,
                    radius_equator_m: 3_000,
                    radius_polar_m: 3_000,
                    axial_tilt_microdeg: 0,
                },
                seeded_elements(12_995_759_988, 15_614, 175_200_000, 104_242_486,
                    208_626_701),
                108_701_283,
            ),
            seeded_entry(
                entry_of(r.entries(), HANDLE_JANUS),
                HANDLE_SATURN,
                Body {
                    mass_kg: 7_000_000_000_000_000,
                    radius_equator_m: 3_000,
                    radius_polar_m: 3_000,
                    axial_tilt_microdeg: 0,
                },
                seeded_elements(151_460_988, 14, 200_000, 104_242_486,
                    208_626_701),
                108_701_283,
            ),
            seeded_entry(
                entry_of(r.entries(), HANDLE_URANUS),
                HANDLE_SOL,
                Body {
                    mass_kg: 86_810_000_000_000_000_000_000_000,
                    radius_equator_m: 25_559_000,
                    radius_polar_m: 24_973_000,
                    axial_tilt_microdeg: 97_770_000,
                },
                seeded_elements(2_870_971_632_050, 47_170_000, 773_000, 96_998_857,
                    74_006_000),
                142_238_600,
            ),
            seeded_entry(
                entry_of(r.entries(), HANDLE_ARIEL),
                HANDLE_URANUS,
                Body {
                    mass_kg: 1_270_000_000_000_000_000_000,
                    radius_equator_m: 578_900,
                    radius_polar_m: 578_900,
                    axial_tilt_microdeg: 0,
                },
                seeded_elements(190_940_711, 1_378_503, 16_700, 236_689_280,
                    167_695_185),
                583_192_396,
            ),
            seeded_entry(
                entry_of(r.entries(), HANDLE_UMBRIEL),
                HANDLE_URANUS,
                Body {
                    mass_kg: 1_270_000_000_000_000_000_000,
                    radius_equator_m: 584_700,
                    radius_polar_m: 584_700,
                    axial_tilt_microdeg: 0,
                },
                seeded_elements(266_004_056, 4_364_502, 79_600, 521_550_233,
                    167_711_341),
                837_259_784,
            ),
            seeded_entry(
                entry_of(r.entries(), HANDLE_TITANIA),
                HANDLE_URANUS,
                Body {
                    mass_kg: 3_490_000_000_000_000_000_000,
                    radius_equator_m: 788_900,
                    radius_polar_m: 788_900,
                    axial_tilt_microdeg: 0,
                },
                seeded_elements(436_347_342, 2_757_640, 112_900, 399_564_019,
                    167_611_658),
                496_575_293,
            ),
            seeded_entry(
                entry_of(r.entries(), HANDLE_OBERON),
                HANDLE_URANUS,
                Body {
                    mass_kg: 3_030_000_000_000_000_000_000,
                    radius_equator_m: 761_400,
                    radius_polar_m: 761_400,
                    axial_tilt_microdeg: 0,
                },
                seeded_elements(583_560_909, 1_106_580, 147_800, 288_925_047,
                    167_742_243),
                472_670_392,
            ),
            seeded_entry(
                entry_of(r.entries(), HANDLE_MIRANDA),
                HANDLE_URANUS,
                Body {
                    mass_kg: 63_300_000_000_000_000_000,
                    radius_equator_m: 235_800,
                    radius_polar_m: 235_800,
                    axial_tilt_microdeg: 0,
                },
                seeded_elements(129_870_000, 1_400_000, 4_407_200, 242_280_990,
                    163_494_996),
                143_033_012,
            ),
            seeded_entry(
                entry_of(r.entries(), HANDLE_NEPTUNE),
                HANDLE_SOL,
                Body {
                    mass_kg: 102_409_000_000_000_000_000_000_000,
                    radius_equator_m: 24_764_000,
                    radius_polar_m: 24_341_000,
                    axial_tilt_microdeg: 28_320_000,
                },
                seeded_elements(4_498_407_971_949, 8_678_000, 1_770_000, 273_187_000,
                    131_783_000),
                317_020_000,
            ),
            seeded_entry(
                entry_of(r.entries(), HANDLE_TRITON),
                HANDLE_NEPTUNE,
                Body {
                    mass_kg: 21_400_000_000_000_000_000_000,
                    radius_equator_m: 1_352_500,
                    radius_polar_m: 1_352_500,
                    axial_tilt_microdeg: 0,
                },
                seeded_elements(354_765_668, 17_750, 156_865_000, 161_679_786,
                    217_253_065),
                829_258_161,
            ),
            seeded_entry(
                entry_of(r.entries(), HANDLE_NEREID),
                HANDLE_NEPTUNE,
                Body {
                    mass_kg: 13_170_000_000_000_000_000,
                    radius_equator_m: 165_000,
                    radius_polar_m: 165_000,
                    axial_tilt_microdeg: 0,
                },
                seeded_elements(5_515_375_933, 747_077_257, 5_100_000, 256_561_942,
                    320_104_934),
                324_053_241,
            ),
            seeded_entry(
                entry_of(r.entries(), HANDLE_NAIAD),
                HANDLE_NEPTUNE,
                Body {
                    mass_kg: 5_800_000_000_000_000,
                    radius_equator_m: 2_000,
                    radius_polar_m: 2_000,
                    axial_tilt_microdeg: 0,
                },
                seeded_elements(48_227_784_200, 447, 4_691_000, 104_242_486,
                    208_626_701),
                108_701_283,
            ),
            seeded_entry(
                entry_of(r.entries(), HANDLE_THALASSA),
                HANDLE_NEPTUNE,
                Body {
                    mass_kg: 5_800_000_000_000_000,
                    radius_equator_m: 2_000,
                    radius_polar_m: 2_000,
                    axial_tilt_microdeg: 0,
                },
                seeded_elements(50_141_475_756, 1_370_609, 135_000, 178_660_268,
                    49_148_648),
                187_573_079,
            ),
            seeded_entry(
                entry_of(r.entries(), HANDLE_DESPINA),
                HANDLE_NEPTUNE,
                Body {
                    mass_kg: 22_100_000_000_000_000,
                    radius_equator_m: 12_000,
                    radius_polar_m: 12_000,
                    axial_tilt_microdeg: 0,
                },
                seeded_elements(60_227_784_200, 24, 68_000, 104_242_486,
                    208_626_701),
                108_701_283,
            ),
            seeded_entry(
                entry_of(r.entries(), HANDLE_GALATEA),
                HANDLE_NEPTUNE,
                Body {
                    mass_kg: 59_550_000_000_000_000,
                    radius_equator_m: 79_100,
                    radius_polar_m: 79_100,
                    axial_tilt_microdeg: 0,
                },
                seeded_elements(62_097_694_895, 1_763_428, 34_000, 188_297_172,
                    48_693_836),
                216_667_607,
            ),
            seeded_entry(
                entry_of(r.entries(), HANDLE_LARISSA),
                HANDLE_NEPTUNE,
                Body {
                    mass_kg: 85_630_000_000_000_000,
                    radius_equator_m: 99_960,
                    radius_polar_m: 99_960,
                    axial_tilt_microdeg: 0,
                },
                seeded_elements(73_591_064_268, 1_696_576, 205_000, 378_844_329,
                    48_907_855),
                428_613_425,
            ),
            seeded_entry(
                entry_of(r.entries(), HANDLE_ERIS),
                HANDLE_SOL,
                Body {
                    mass_kg: 16_380_000_000_000_000_000_000,
                    radius_equator_m: 1_163_000,
                    radius_polar_m: 1_163_000,
                    axial_tilt_microdeg: 0,
                },
                seeded_elements(10_152_309_897_184, 436_070_000, 44_040_000, 151_639_000,
                    35_951_000),
                205_989_000,
            ),
            seeded_entry(
                entry_of(r.entries(), HANDLE_DYSNOMIA),
                HANDLE_ERIS,
                Body {
                    mass_kg: 82_000_000_000_000_000_000,
                    radius_equator_m: 307_500,
                    radius_polar_m: 307_500,
                    axial_tilt_microdeg: 0,
                },
                seeded_elements(37_237_000, 6_200_000, 0, 180_830_000,
                    126_170_000),
                205_989_000,
            ),
            seeded_entry(
                entry_of(r.entries(), HANDLE_HAUMEA),
                HANDLE_SOL,
                Body {
                    mass_kg: 4_006_000_000_000_000_000_000,
                    radius_equator_m: 780_000,
                    radius_polar_m: 780_000,
                    axial_tilt_microdeg: 0,
                },
                seeded_elements(6_450_061_793_101, 196_420_000, 28_213_700, 239_041_000,
                    122_167_000),
                218_205_000,
            ),
            seeded_entry(
                entry_of(r.entries(), HANDLE_HIIAKA),
                HANDLE_HAUMEA,
                Body {
                    mass_kg: 17_900_000_000_000_000_000,
                    radius_equator_m: 184_500,
                    radius_polar_m: 184_500,
                    axial_tilt_microdeg: 0,
                },
                seeded_elements(49_880_000, 51_300_000, 126_356_000, 154_100_000,
                    206_766_000),
                152_800_000,
            ),
            seeded_entry(
                entry_of(r.entries(), HANDLE_NAMAKA),
                HANDLE_HAUMEA,
                Body {
                    mass_kg: 1_790_000_000_000_000_000,
                    radius_equator_m: 85_000,
                    radius_polar_m: 85_000,
                    axial_tilt_microdeg: 0,
                },
                seeded_elements(25_657_000, 249_000_000, 113_013_000, 178_900_000,
                    205_016_000),
                178_500_000,
            ),
    {
        let mut db = self;
        db.add_solar_system();
        db
    }
}

} // verus!
