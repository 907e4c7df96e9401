//! Fixed handles for the bodies of the solar-system data set.

use vstd::prelude::*;

verus! {

pub const HANDLE_SOL: u64 = 0;

pub const HANDLE_MERCURY: u64 = 1;

pub const HANDLE_VENUS: u64 = 2;

pub const HANDLE_EARTH: u64 = 3;

pub const HANDLE_LUNA: u64 = HANDLE_EARTH + 1;

pub const HANDLE_MARS: u64 = HANDLE_EARTH + 2;

pub const HANDLE_PHOBOS: u64 = HANDLE_MARS + 1;

pub const HANDLE_DEIMOS: u64 = HANDLE_MARS + 2;

pub const HANDLE_JUPITER: u64 = HANDLE_MARS + 3;

pub const HANDLE_IO: u64 = HANDLE_JUPITER + 1;

pub const HANDLE_EUROPA: u64 = HANDLE_JUPITER + 2;

pub const HANDLE_GANYMEDE: u64 = HANDLE_JUPITER + 3;

pub const HANDLE_CALLISTO: u64 = HANDLE_JUPITER + 4;

pub const HANDLE_AMALTHEA: u64 = HANDLE_JUPITER + 5;

pub const HANDLE_HIMALIA: u64 = HANDLE_JUPITER + 6;

pub const HANDLE_ELARA: u64 = HANDLE_JUPITER + 7;

pub const HANDLE_PASIPHAE: u64 = HANDLE_JUPITER + 8;

pub const HANDLE_SINOPE: u64 = HANDLE_JUPITER + 9;

pub const HANDLE_LYSITHEA: u64 = HANDLE_JUPITER + 10;

pub const HANDLE_CARME: u64 = HANDLE_JUPITER + 11;

pub const HANDLE_ANANKE: u64 = HANDLE_JUPITER + 12;

pub const HANDLE_LEDA: u64 = HANDLE_JUPITER + 13;

pub const HANDLE_THEBE: u64 = HANDLE_JUPITER + 14;

pub const HANDLE_ADRASTEA: u64 = HANDLE_JUPITER + 15;

pub const HANDLE_METIS: u64 = HANDLE_JUPITER + 16;

pub const HANDLE_CALLIRHOE: u64 = HANDLE_JUPITER + 17;

pub const HANDLE_THEMISTO: u64 = HANDLE_JUPITER + 18;

pub const HANDLE_CARPO: u64 = HANDLE_JUPITER + 46;

pub const HANDLE_EIRENE: u64 = HANDLE_JUPITER + 57;

pub const HANDLE_PHILOPHROSYNE: u64 = HANDLE_JUPITER + 59;

pub const HANDLE_EUPHEME: u64 = HANDLE_JUPITER + 60;

pub const HANDLE_VALETUDO: u64 = HANDLE_JUPITER + 62;

pub const HANDLE_PANDIA: u64 = HANDLE_JUPITER + 65;

pub const HANDLE_ERSA: u64 = HANDLE_JUPITER + 71;

pub const HANDLE_S_2011_J_1: u64 = HANDLE_JUPITER + 72;

pub const HANDLE_SATURN: u64 = HANDLE_JUPITER + 97;

pub const HANDLE_MIMAS: u64 = HANDLE_SATURN + 1;

pub const HANDLE_ENCELADUS: u64 = HANDLE_SATURN + 2;

pub const HANDLE_TETHYS: u64 = HANDLE_SATURN + 3;

pub const HANDLE_DIONE: u64 = HANDLE_SATURN + 4;

pub const HANDLE_RHEA: u64 = HANDLE_SATURN + 5;

pub const HANDLE_TITAN: u64 = HANDLE_SATURN + 6;

pub const HANDLE_HYPERION: u64 = HANDLE_SATURN + 7;

pub const HANDLE_IAPETUS: u64 = HANDLE_SATURN + 8;

pub const HANDLE_PHOEBE: u64 = HANDLE_SATURN + 9;

pub const HANDLE_JANUS: u64 = HANDLE_SATURN + 10;

pub const HANDLE_GEIRROD: u64 = HANDLE_SATURN + 66;

pub const HANDLE_URANUS: u64 = HANDLE_SATURN + 148;

pub const HANDLE_ARIEL: u64 = HANDLE_URANUS + 1;

pub const HANDLE_UMBRIEL: u64 = HANDLE_URANUS + 2;

pub const HANDLE_TITANIA: u64 = HANDLE_URANUS + 3;

pub const HANDLE_OBERON: u64 = HANDLE_URANUS + 4;

pub const HANDLE_MIRANDA: u64 = HANDLE_URANUS + 5;

pub const HANDLE_CUPID: u64 = HANDLE_URANUS + 27;

pub const HANDLE_NEPTUNE: u64 = HANDLE_URANUS + 28;

pub const HANDLE_TRITON: u64 = HANDLE_NEPTUNE + 1;

pub const HANDLE_NEREID: u64 = HANDLE_NEPTUNE + 2;

pub const HANDLE_NAIAD: u64 = HANDLE_NEPTUNE + 3;

pub const HANDLE_THALASSA: u64 = HANDLE_NEPTUNE + 4;

pub const HANDLE_DESPINA: u64 = HANDLE_NEPTUNE + 5;

pub const HANDLE_GALATEA: u64 = HANDLE_NEPTUNE + 6;

pub const HANDLE_LARISSA: u64 = HANDLE_NEPTUNE + 7;

pub const HANDLE_PROTEUS: u64 = HANDLE_NEPTUNE + 8;

pub const HANDLE_HALIMEDE: u64 = HANDLE_NEPTUNE + 9;

pub const HANDLE_PSAMATHE: u64 = HANDLE_NEPTUNE + 10;

pub const HANDLE_SAO: u64 = HANDLE_NEPTUNE + 11;

pub const HANDLE_LAOMEDEIA: u64 = HANDLE_NEPTUNE + 12;

pub const HANDLE_NESO: u64 = HANDLE_NEPTUNE + 13;

pub const HANDLE_HIPPOCAMP: u64 = HANDLE_NEPTUNE + 14;

pub const HANDLE_PLUTO: u64 = HANDLE_NEPTUNE + 17;

pub const HANDLE_ERIS: u64 = HANDLE_PLUTO + 1;

pub const HANDLE_DYSNOMIA: u64 = HANDLE_ERIS + 1;

pub const HANDLE_HAUMEA: u64 = HANDLE_ERIS + 2;

pub const HANDLE_HIIAKA: u64 = HANDLE_HAUMEA + 1;

pub const HANDLE_NAMAKA: u64 = HANDLE_HAUMEA + 2;

} // verus!
