//! The static data of the bodies: what they are, how large, how tilted, how
//! long on their way around, and under which key the ephemeris holds them.

use vstd::prelude::*;

use crate::celestial_body::{CelestialBodyId, CelestialBodyType, Radius};
use crate::ephemeris::{bodies_ephem_path, EphemerisBody};
use crate::frame_transform::{near_unit, BILLION};

pub use crate::frame_transform::{ecliptic_to_equatorial, equatorial_to_ecliptic};
pub use crate::position::get_position;
pub use crate::trajectory::get_traj;

verus! {

/// The kind of each body of the built-in catalog.
pub open spec fn built_in_body_type(body: CelestialBodyId) -> CelestialBodyType {
    match body {
        CelestialBodyId::Sun => CelestialBodyType::Star,
        CelestialBodyId::Moon => CelestialBodyType::Moon,
        _ => CelestialBodyType::Planet,
    }
}

/// The parent of each body of the built-in catalog.
pub open spec fn built_in_parent(body: CelestialBodyId) -> Option<CelestialBodyId> {
    match body {
        CelestialBodyId::Sun => None,
        CelestialBodyId::Moon => Some(CelestialBodyId::Earth),
        _ => Some(CelestialBodyId::Sun),
    }
}

/// The mean radius of each body, in metres.
pub open spec fn radius_metres(body: CelestialBodyId) -> nat {
    match body {
        CelestialBodyId::Sun => 696_340_000,
        CelestialBodyId::Mercury => 2_439_700,
        CelestialBodyId::Venus => 6_051_800,
        CelestialBodyId::Earth => 6_371_000,
        CelestialBodyId::Moon => 1_737_100,
        CelestialBodyId::Mars => 3_389_500,
        CelestialBodyId::Jupiter => 69_911_000,
        CelestialBodyId::Saturn => 58_232_000,
        CelestialBodyId::Uranus => 25_362_000,
        CelestialBodyId::Neptune => 24_622_000,
    }
}

/// The axial tilt of each body, in hundredths of a degree.
pub open spec fn axial_tilt_centidegrees(body: CelestialBodyId) -> nat {
    match body {
        CelestialBodyId::Sun => 725,
        CelestialBodyId::Mercury => 3,
        CelestialBodyId::Venus => 264,
        CelestialBodyId::Earth => 2_340,
        CelestialBodyId::Moon => 670,
        CelestialBodyId::Mars => 2_520,
        CelestialBodyId::Jupiter => 310,
        CelestialBodyId::Saturn => 2_670,
        CelestialBodyId::Uranus => 8_220,
        CelestialBodyId::Neptune => 2_830,
    }
}

/// The cosine of the axial tilt of each body, in billionths.
pub open spec fn axial_tilt_cosine(body: CelestialBodyId) -> int {
    match body {
        CelestialBodyId::Sun => 992_004_950,
        CelestialBodyId::Mercury => 999_999_863,
        CelestialBodyId::Venus => 998_938_657,
        CelestialBodyId::Earth => 917_754_626,
        CelestialBodyId::Moon => 993_170_650,
        CelestialBodyId::Mars => 904_827_052,
        CelestialBodyId::Jupiter => 998_536_670,
        CelestialBodyId::Saturn => 893_371_388,
        CelestialBodyId::Uranus => 135_715_572,
        CelestialBodyId::Neptune => 880_477_354,
    }
}

/// The sine of the axial tilt of each body, in billionths.
pub open spec fn axial_tilt_sine(body: CelestialBodyId) -> int {
    match body {
        CelestialBodyId::Sun => 126_198_969,
        CelestialBodyId::Mercury => 523_599,
        CelestialBodyId::Venus => 46_060_390,
        CelestialBodyId::Earth => 397_147_891,
        CelestialBodyId::Moon => 116_670_737,
        CelestialBodyId::Mars => 425_779_292,
        CelestialBodyId::Jupiter => 54_078_813,
        CelestialBodyId::Saturn => 449_318_999,
        CelestialBodyId::Uranus => 990_747_840,
        CelestialBodyId::Neptune => 474_088_209,
    }
}

/// The sidereal orbital period of each body, in thousandths of a day. The Sun,
/// which is the origin of the system, has none.
pub open spec fn orbital_period_millidays(body: CelestialBodyId) -> nat {
    match body {
        CelestialBodyId::Sun => 0,
        CelestialBodyId::Mercury => 87_969,
        CelestialBodyId::Venus => 224_701,
        CelestialBodyId::Earth => 365_256,
        CelestialBodyId::Moon => 27_322,
        CelestialBodyId::Mars => 686_980,
        CelestialBodyId::Jupiter => 4_332_589,
        CelestialBodyId::Saturn => 10_759_220,
        CelestialBodyId::Uranus => 30_685_400,
        CelestialBodyId::Neptune => 60_189_000,
    }
}

/// Nanoseconds in a thousandth of a day.
pub const NANOS_PER_MILLIDAY: i128 = 86_400_000_000;

/// The sidereal orbital period of each body, in nanoseconds.
pub open spec fn orbital_period_nanos(body: CelestialBodyId) -> int {
    orbital_period_millidays(body) * NANOS_PER_MILLIDAY
}

/// The kind of a body of the built-in catalog.
pub fn get_body_type(body: CelestialBodyId) -> (kind: CelestialBodyType)
    ensures
        kind == built_in_body_type(body),
{
    match body {
        CelestialBodyId::Sun => CelestialBodyType::Star,
        CelestialBodyId::Moon => CelestialBodyType::Moon,
        _ => CelestialBodyType::Planet,
    }
}

/// The body that a body of the built-in catalog orbits.
pub fn get_parent(body: CelestialBodyId) -> (parent: Option<CelestialBodyId>)
    ensures
        parent == built_in_parent(body),
{
    match body {
        CelestialBodyId::Sun => None,
        CelestialBodyId::Moon => Some(CelestialBodyId::Earth),
        _ => Some(CelestialBodyId::Sun),
    }
}

/// The mean radius of a body.
pub fn get_radius(body: CelestialBodyId) -> (radius: Radius)
    ensures
        radius == Radius::of_metres(radius_metres(body)),
        radius@ == radius_metres(body),
{
    let metres: u64 = match body {
        CelestialBodyId::Sun => 696_340_000,
        CelestialBodyId::Mercury => 2_439_700,
        CelestialBodyId::Venus => 6_051_800,
        CelestialBodyId::Earth => 6_371_000,
        CelestialBodyId::Moon => 1_737_100,
        CelestialBodyId::Mars => 3_389_500,
        CelestialBodyId::Jupiter => 69_911_000,
        CelestialBodyId::Saturn => 58_232_000,
        CelestialBodyId::Uranus => 25_362_000,
        CelestialBodyId::Neptune => 24_622_000,
    };
    Radius::new(metres)
}

/// The axial tilt of a body in hundredths of a degree. Every tilt lies at or
/// above 0 and below 180 degrees.
pub fn get_axial_tilt(body: CelestialBodyId) -> (tilt: u32)
    ensures
        tilt == axial_tilt_centidegrees(body),
        tilt < 18_000,
{
    match body {
        CelestialBodyId::Sun => 725,
        CelestialBodyId::Mercury => 3,
        CelestialBodyId::Venus => 264,
        CelestialBodyId::Earth => 2_340,
        CelestialBodyId::Moon => 670,
        CelestialBodyId::Mars => 2_520,
        CelestialBodyId::Jupiter => 310,
        CelestialBodyId::Saturn => 2_670,
        CelestialBodyId::Uranus => 8_220,
        CelestialBodyId::Neptune => 2_830,
    }
}

/// The cosine of the axial tilt of a body, in billionths.
pub fn get_axial_tilt_cosine(body: CelestialBodyId) -> (cosine: i128)
    ensures
        cosine == axial_tilt_cosine(body),
        0 <= cosine <= BILLION,
{
    match body {
        CelestialBodyId::Sun => 992_004_950,
        CelestialBodyId::Mercury => 999_999_863,
        CelestialBodyId::Venus => 998_938_657,
        CelestialBodyId::Earth => 917_754_626,
        CelestialBodyId::Moon => 993_170_650,
        CelestialBodyId::Mars => 904_827_052,
        CelestialBodyId::Jupiter => 998_536_670,
        CelestialBodyId::Saturn => 893_371_388,
        CelestialBodyId::Uranus => 135_715_572,
        CelestialBodyId::Neptune => 880_477_354,
    }
}

/// The sine of the axial tilt of a body, in billionths.
pub fn get_axial_tilt_sine(body: CelestialBodyId) -> (sine: i128)
    ensures
        sine == axial_tilt_sine(body),
        0 <= sine <= BILLION,
{
    match body {
        CelestialBodyId::Sun => 126_198_969,
        CelestialBodyId::Mercury => 523_599,
        CelestialBodyId::Venus => 46_060_390,
        CelestialBodyId::Earth => 397_147_891,
        CelestialBodyId::Moon => 116_670_737,
        CelestialBodyId::Mars => 425_779_292,
        CelestialBodyId::Jupiter => 54_078_813,
        CelestialBodyId::Saturn => 449_318_999,
        CelestialBodyId::Uranus => 990_747_840,
        CelestialBodyId::Neptune => 474_088_209,
    }
}

/// The cosine and sine listed for a body are those of one angle.
pub proof fn lemma_axial_tilt_is_an_angle(body: CelestialBodyId)
    ensures
        near_unit(axial_tilt_cosine(body), axial_tilt_sine(body)),
        near_unit(axial_tilt_cosine(body), -axial_tilt_sine(body)),
{
    let c = axial_tilt_cosine(body);
    let s = axial_tilt_sine(body);
    assert((-s) * (-s) == s * s) by (nonlinear_arith);
    match body {
        CelestialBodyId::Sun => {
            assert(992_004_950int * 992_004_950 + 126_198_969int * 126_198_969
                == 1_000_000_000_601_165_461);
        },
        CelestialBodyId::Mercury => {
            assert(999_999_863int * 999_999_863 + 523_599int * 523_599
                == 1_000_000_000_155_931_570);
        },
        CelestialBodyId::Venus => {
            assert(998_938_657int * 998_938_657 + 46_060_390int * 46_060_390
                == 999_999_999_975_915_749);
        },
        CelestialBodyId::Earth => {
            assert(917_754_626int * 917_754_626 + 397_147_891int * 397_147_891
                == 1_000_000_000_870_147_757);
        },
        CelestialBodyId::Moon => {
            assert(993_170_650int * 993_170_650 + 116_670_737int * 116_670_737
                == 1_000_000_000_893_545_669);
        },
        CelestialBodyId::Mars => {
            assert(904_827_052int * 904_827_052 + 425_779_292int * 425_779_292
                == 999_999_999_527_031_968);
        },
        CelestialBodyId::Jupiter => {
            assert(998_536_670int * 998_536_670 + 54_078_813int * 54_078_813
                == 999_999_999_350_177_869);
        },
        CelestialBodyId::Saturn => {
            assert(893_371_388int * 893_371_388 + 449_318_999int * 449_318_999
                == 999_999_999_759_408_545);
        },
        CelestialBodyId::Uranus => {
            assert(135_715_572int * 135_715_572 + 990_747_840int * 990_747_840
                == 999_999_998_947_952_784);
        },
        CelestialBodyId::Neptune => {
            assert(880_477_354int * 880_477_354 + 474_088_209int * 474_088_209
                == 1_000_000_000_819_668_997);
        },
    }
}

/// The sidereal orbital period of a body in nanoseconds: zero for the Sun,
/// positive for every other body.
pub fn orbital_period(body: CelestialBodyId) -> (nanos: i128)
    ensures
        nanos == orbital_period_nanos(body),
        nanos >= 0,
        nanos == 0 <==> body == CelestialBodyId::Sun,
{
    let millidays: i128 = match body {
        CelestialBodyId::Sun => 0,
        CelestialBodyId::Mercury => 87_969,
        CelestialBodyId::Venus => 224_701,
        CelestialBodyId::Earth => 365_256,
        CelestialBodyId::Moon => 27_322,
        CelestialBodyId::Mars => 686_980,
        CelestialBodyId::Jupiter => 4_332_589,
        CelestialBodyId::Saturn => 10_759_220,
        CelestialBodyId::Uranus => 30_685_400,
        CelestialBodyId::Neptune => 60_189_000,
    };
    millidays * NANOS_PER_MILLIDAY
}

/// The lookup key under which the ephemeris holds a body: the path of the
/// ephemeris entry that stands for it.
pub fn get_ephem_path(body: CelestialBodyId) -> (path: &'static [usize])
    ensures
        path@ == EphemerisBody::of(body).path(),
{
    bodies_ephem_path(EphemerisBody::for_body(body))
}

} // verus!
