use nyx_space::cosmic::Bodies;
use nyx_space::time::Epoch as CalendarEpoch;
use solar_system::celestial_body::{CelestialBodyId, CelestialBodyType};
use solar_system::celestial_data::{
    get_axial_tilt, get_body_type, get_ephem_path, get_parent, get_position, get_radius,
    orbital_period, NANOS_PER_MILLIDAY,
};
use solar_system::position::StateQuery;
use solar_system::ephemeris::{EphemerisBody, LightTimeCorrection};
use solar_system::epoch::{Epoch, DEFAULT_EPOCH_TAI_NANOS, NANOS_PER_DAY, NANOS_PER_SECOND};

#[test]
fn identifiers_are_listed_once_in_declaration_order() {
    let all = CelestialBodyId::all();
    assert_eq!(
        all,
        vec![
            CelestialBodyId::Sun,
            CelestialBodyId::Mercury,
            CelestialBodyId::Venus,
            CelestialBodyId::Earth,
            CelestialBodyId::Moon,
            CelestialBodyId::Mars,
            CelestialBodyId::Jupiter,
            CelestialBodyId::Saturn,
            CelestialBodyId::Uranus,
            CelestialBodyId::Neptune,
        ]
    );
    assert_eq!(all.len(), CelestialBodyId::COUNT);
}

#[test]
fn index_and_from_index_are_inverse() {
    let all = CelestialBodyId::all();
    for (i, id) in all.iter().enumerate() {
        assert_eq!(id.index(), i);
        assert_eq!(CelestialBodyId::from_index(i), Some(*id));
    }
    assert_eq!(CelestialBodyId::from_index(10), None);
    assert_eq!(CelestialBodyId::from_index(usize::MAX), None);
}

#[test]
fn default_selection_is_earth() {
    assert_eq!(CelestialBodyId::default(), CelestialBodyId::Earth);
}

#[test]
fn radii_are_in_metres() {
    assert_eq!(get_radius(CelestialBodyId::Sun).metres(), 696_340_000);
    assert_eq!(get_radius(CelestialBodyId::Mercury).metres(), 2_439_700);
    assert_eq!(get_radius(CelestialBodyId::Venus).metres(), 6_051_800);
    assert_eq!(get_radius(CelestialBodyId::Earth).metres(), 6_371_000);
    assert_eq!(get_radius(CelestialBodyId::Moon).metres(), 1_737_100);
    assert_eq!(get_radius(CelestialBodyId::Mars).metres(), 3_389_500);
    assert_eq!(get_radius(CelestialBodyId::Jupiter).metres(), 69_911_000);
    assert_eq!(get_radius(CelestialBodyId::Saturn).metres(), 58_232_000);
    assert_eq!(get_radius(CelestialBodyId::Uranus).metres(), 25_362_000);
    assert_eq!(get_radius(CelestialBodyId::Neptune).metres(), 24_622_000);
}

#[test]
fn radii_in_kilometres_match_the_published_figures() {
    assert_eq!((get_radius(CelestialBodyId::Mercury).metres() as f64 / 1000.0) as f32, 2439.7_f32);
    assert_eq!((get_radius(CelestialBodyId::Moon).metres() as f64 / 1000.0) as f32, 1737.1_f32);
    assert_eq!((get_radius(CelestialBodyId::Sun).metres() as f64 / 1000.0) as f32, 696340.0_f32);
}

#[test]
fn axial_tilts_are_in_hundredths_of_a_degree() {
    assert_eq!(get_axial_tilt(CelestialBodyId::Sun), 725);
    assert_eq!(get_axial_tilt(CelestialBodyId::Mercury), 3);
    assert_eq!(get_axial_tilt(CelestialBodyId::Venus), 264);
    assert_eq!(get_axial_tilt(CelestialBodyId::Earth), 2_340);
    assert_eq!(get_axial_tilt(CelestialBodyId::Moon), 670);
    assert_eq!(get_axial_tilt(CelestialBodyId::Mars), 2_520);
    assert_eq!(get_axial_tilt(CelestialBodyId::Jupiter), 310);
    assert_eq!(get_axial_tilt(CelestialBodyId::Saturn), 2_670);
    assert_eq!(get_axial_tilt(CelestialBodyId::Uranus), 8_220);
    assert_eq!(get_axial_tilt(CelestialBodyId::Neptune), 2_830);
}

#[test]
fn axial_tilts_lie_below_half_a_turn() {
    for id in CelestialBodyId::all() {
        assert!(get_axial_tilt(id) < 18_000);
    }
    assert_eq!(get_axial_tilt(CelestialBodyId::Earth) as f32 / 100.0, 23.4_f32);
    assert_eq!(get_axial_tilt(CelestialBodyId::Mercury) as f32 / 100.0, 0.03_f32);
}

#[test]
fn orbital_periods_are_in_nanoseconds() {
    assert_eq!(NANOS_PER_MILLIDAY * 1000, NANOS_PER_DAY);
    assert_eq!(NANOS_PER_DAY, 86_400 * NANOS_PER_SECOND);
    assert_eq!(orbital_period(CelestialBodyId::Sun), 0);
    assert_eq!(orbital_period(CelestialBodyId::Mercury), 7_600_521_600_000_000);
    assert_eq!(orbital_period(CelestialBodyId::Venus), 19_414_166_400_000_000);
    assert_eq!(orbital_period(CelestialBodyId::Earth), 31_558_118_400_000_000);
    assert_eq!(orbital_period(CelestialBodyId::Moon), 2_360_620_800_000_000);
    assert_eq!(orbital_period(CelestialBodyId::Mars), 59_355_072_000_000_000);
    assert_eq!(orbital_period(CelestialBodyId::Jupiter), 374_335_689_600_000_000);
    assert_eq!(orbital_period(CelestialBodyId::Saturn), 929_596_608_000_000_000);
    assert_eq!(orbital_period(CelestialBodyId::Uranus), 2_651_218_560_000_000_000);
    assert_eq!(orbital_period(CelestialBodyId::Neptune), 5_200_329_600_000_000_000);
}

#[test]
fn only_the_sun_has_no_orbital_period() {
    for id in CelestialBodyId::all() {
        assert_eq!(orbital_period(id) == 0, id == CelestialBodyId::Sun);
        assert!(orbital_period(id) >= 0);
    }
}

#[test]
fn built_in_kinds_and_parents() {
    assert_eq!(get_body_type(CelestialBodyId::Sun), CelestialBodyType::Star);
    assert_eq!(get_parent(CelestialBodyId::Sun), None);
    assert_eq!(get_body_type(CelestialBodyId::Moon), CelestialBodyType::Moon);
    assert_eq!(get_parent(CelestialBodyId::Moon), Some(CelestialBodyId::Earth));
    for id in CelestialBodyId::all() {
        if id != CelestialBodyId::Sun && id != CelestialBodyId::Moon {
            assert_eq!(get_body_type(id), CelestialBodyType::Planet);
            assert_eq!(get_parent(id), Some(CelestialBodyId::Sun));
        }
    }
}

#[test]
fn ephemeris_paths_of_the_bodies() {
    assert_eq!(get_ephem_path(CelestialBodyId::Sun), &[0]);
    assert_eq!(get_ephem_path(CelestialBodyId::Mercury), &[1]);
    assert_eq!(get_ephem_path(CelestialBodyId::Venus), &[2]);
    assert_eq!(get_ephem_path(CelestialBodyId::Earth), &[3, 0]);
    assert_eq!(get_ephem_path(CelestialBodyId::Moon), &[3, 1]);
    assert_eq!(get_ephem_path(CelestialBodyId::Mars), &[4]);
    assert_eq!(get_ephem_path(CelestialBodyId::Jupiter), &[5]);
    assert_eq!(get_ephem_path(CelestialBodyId::Saturn), &[6]);
    assert_eq!(get_ephem_path(CelestialBodyId::Uranus), &[7]);
    assert_eq!(get_ephem_path(CelestialBodyId::Neptune), &[8]);
}

#[test]
fn ephemeris_paths_are_those_of_the_ephemeris_entries() {
    assert_eq!(get_ephem_path(CelestialBodyId::Sun), Bodies::Sun.ephem_path());
    assert_eq!(get_ephem_path(CelestialBodyId::Mercury), Bodies::Mercury.ephem_path());
    assert_eq!(get_ephem_path(CelestialBodyId::Venus), Bodies::Venus.ephem_path());
    assert_eq!(get_ephem_path(CelestialBodyId::Earth), Bodies::Earth.ephem_path());
    assert_eq!(get_ephem_path(CelestialBodyId::Moon), Bodies::Luna.ephem_path());
    assert_eq!(get_ephem_path(CelestialBodyId::Mars), Bodies::MarsBarycenter.ephem_path());
    assert_eq!(get_ephem_path(CelestialBodyId::Jupiter), Bodies::JupiterBarycenter.ephem_path());
    assert_eq!(get_ephem_path(CelestialBodyId::Saturn), Bodies::SaturnBarycenter.ephem_path());
    assert_eq!(get_ephem_path(CelestialBodyId::Uranus), Bodies::UranusBarycenter.ephem_path());
    assert_eq!(get_ephem_path(CelestialBodyId::Neptune), Bodies::NeptuneBarycenter.ephem_path());
}

#[test]
fn ephemeris_entries_of_the_bodies() {
    assert_eq!(EphemerisBody::for_body(CelestialBodyId::Sun), EphemerisBody::Sun);
    assert_eq!(EphemerisBody::for_body(CelestialBodyId::Earth), EphemerisBody::Earth);
    assert_eq!(EphemerisBody::for_body(CelestialBodyId::Moon), EphemerisBody::Luna);
    assert_eq!(EphemerisBody::for_body(CelestialBodyId::Mars), EphemerisBody::MarsBarycenter);
    assert_eq!(EphemerisBody::for_body(CelestialBodyId::Neptune), EphemerisBody::NeptuneBarycenter);
}

#[test]
fn position_query_names_target_frame_and_correction() {
    let time = Epoch::from_tai_nanos(123_456_789);
    let query = get_position(CelestialBodyId::Moon, CelestialBodyId::Earth, &time);
    assert_eq!(
        query,
        StateQuery {
            target: CelestialBodyId::Moon,
            center: CelestialBodyId::Earth,
            epoch: time,
            correction: LightTimeCorrection::Aberration,
        }
    );
    assert_eq!(query.target_path(), &[3, 1]);
    assert_eq!(query.frame_path(), &[3, 0]);
}

#[test]
fn default_epoch_is_noon_utc_on_4_july_2024() {
    let calendar = CalendarEpoch::from_gregorian_utc(2024, 7, 4, 12, 0, 0, 0);
    assert_eq!(Epoch::default().tai_nanos, calendar.as_tai_duration().total_nanoseconds());
    assert_eq!(Epoch::default().tai_nanos, DEFAULT_EPOCH_TAI_NANOS);
    assert_eq!(DEFAULT_EPOCH_TAI_NANOS, 3_929_083_237 * NANOS_PER_SECOND);
}

#[test]
fn epochs_add_durations() {
    let start = Epoch::from_tai_nanos(1_000);
    assert_eq!(start.checked_add(500), Some(Epoch::from_tai_nanos(1_500)));
    assert_eq!(start.checked_add(-2_000), Some(Epoch::from_tai_nanos(-1_000)));
    assert_eq!(Epoch::from_tai_nanos(i128::MAX).checked_add(1), None);
    assert_eq!(Epoch::from_tai_nanos(i128::MIN).checked_add(-1), None);
    assert_eq!(
        Epoch::from_tai_nanos(i128::MAX - 1).checked_add(1),
        Some(Epoch::from_tai_nanos(i128::MAX))
    );
}

#[test]
fn epochs_subtract_to_durations() {
    let start = Epoch::from_tai_nanos(1_000);
    let end = Epoch::from_tai_nanos(4_500);
    assert_eq!(end.checked_since(start), Some(3_500));
    assert_eq!(start.checked_since(end), Some(-3_500));
    assert_eq!(Epoch::from_tai_nanos(i128::MAX).checked_since(Epoch::from_tai_nanos(-1)), None);
    assert_eq!(Epoch::from_tai_nanos(i128::MIN).checked_since(Epoch::from_tai_nanos(1)), None);
}
