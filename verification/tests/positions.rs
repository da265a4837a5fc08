use solar_system::celestial_body::CelestialBodyId;
use solar_system::celestial_data::equatorial_to_ecliptic;
use solar_system::position::{
    resolve_position, to_display, to_display_from, EphemerisPosition, Position,
    SOLAR_SYSTEM_SCALE,
};
use solar_system::trajectory::{assemble_trajectory, ecliptic_positions};
use solar_system::error::EngineError;

fn metres(x: i64, y: i64, z: i64) -> EphemerisPosition {
    EphemerisPosition { x, y, z }
}

#[test]
fn display_swaps_the_second_and_third_axis_and_scales() {
    assert_eq!(SOLAR_SYSTEM_SCALE, 5);
    assert_eq!(to_display(metres(1, 2, 3)), Position { x: 5, y: 15, z: 10 });
    assert_eq!(to_display(metres(-7, 0, 11)), Position { x: -35, y: 55, z: 0 });
    assert_eq!(to_display(metres(0, 0, 0)), Position { x: 0, y: 0, z: 0 });
}

#[test]
fn a_kilometre_is_five_thousandths_of_a_display_unit() {
    let position = to_display(metres(1_000, 0, 0));
    assert_eq!(position.x, 5_000);
    assert_eq!(position.x as f64 / 1.0e6, 0.005);
}

#[test]
fn display_of_the_largest_coordinates_does_not_overflow() {
    assert_eq!(
        to_display(metres(i64::MAX, i64::MIN, i64::MAX)),
        Position {
            x: 5 * i64::MAX as i128,
            y: 5 * i64::MAX as i128,
            z: 5 * i64::MIN as i128,
        }
    );
    assert_eq!(
        to_display_from(metres(i64::MAX, i64::MAX, i64::MAX), Some(metres(i64::MIN, i64::MIN, 0))),
        Position {
            x: 5 * (i64::MAX as i128 - i64::MIN as i128),
            y: 5 * i64::MAX as i128,
            z: 5 * (i64::MAX as i128 - i64::MIN as i128),
        }
    );
}

#[test]
fn a_position_is_seen_from_the_origin() {
    assert_eq!(to_display_from(metres(1, 2, 3), None), to_display(metres(1, 2, 3)));
    assert_eq!(
        to_display_from(metres(10, 20, 30), Some(metres(1, 2, 3))),
        Position { x: 45, y: 135, z: 90 }
    );
    assert_eq!(
        to_display_from(metres(1, 2, 3), Some(metres(1, 2, 3))),
        Position { x: 0, y: 0, z: 0 }
    );
}

#[test]
fn a_trajectory_has_one_point_for_each_answer() {
    let answers = vec![Ok(metres(1, 2, 3)), Ok(metres(4, 5, 6)), Ok(metres(-1, -2, -3))];
    assert_eq!(
        assemble_trajectory(None, &answers),
        Ok(vec![
            Position { x: 5, y: 15, z: 10 },
            Position { x: 20, y: 30, z: 25 },
            Position { x: -5, y: -15, z: -10 },
        ])
    );
}

#[test]
fn a_trajectory_is_re_based_on_the_origin() {
    let answers = vec![Ok(metres(1, 2, 3)), Ok(metres(4, 5, 6))];
    assert_eq!(
        assemble_trajectory(Some(Ok(metres(1, 1, 1))), &answers),
        Ok(vec![Position { x: 0, y: 10, z: 5 }, Position { x: 15, y: 25, z: 20 }])
    );
}

#[test]
fn a_trajectory_without_answers_is_empty() {
    assert_eq!(assemble_trajectory(None, &Vec::new()), Ok(Vec::new()));
    assert_eq!(assemble_trajectory(Some(Ok(metres(1, 2, 3))), &Vec::new()), Ok(Vec::new()));
}

#[test]
fn a_failed_origin_fails_the_trajectory() {
    let answers = vec![Ok(metres(1, 2, 3)), Err(EngineError::UnknownBody)];
    assert_eq!(
        assemble_trajectory(Some(Err(EngineError::EphemerisCoverage)), &answers),
        Err(EngineError::EphemerisCoverage)
    );
    assert_eq!(
        assemble_trajectory(Some(Err(EngineError::UnknownBody)), &Vec::new()),
        Err(EngineError::UnknownBody)
    );
}

#[test]
fn the_first_failed_sample_fails_the_trajectory() {
    let answers = vec![
        Ok(metres(1, 2, 3)),
        Err(EngineError::EphemerisCoverage),
        Ok(metres(4, 5, 6)),
        Err(EngineError::UnknownBody),
    ];
    assert_eq!(assemble_trajectory(None, &answers), Err(EngineError::EphemerisCoverage));
    assert_eq!(
        assemble_trajectory(Some(Ok(metres(0, 0, 0))), &answers),
        Err(EngineError::EphemerisCoverage)
    );
    let answers = vec![Err(EngineError::UnknownBody), Err(EngineError::EphemerisCoverage)];
    assert_eq!(assemble_trajectory(None, &answers), Err(EngineError::UnknownBody));
    let answers = vec![Ok(metres(1, 2, 3)), Ok(metres(1, 2, 3)), Err(EngineError::UnknownBody)];
    assert_eq!(assemble_trajectory(None, &answers), Err(EngineError::UnknownBody));
}

#[test]
fn ecliptic_positions_are_the_equatorial_ones_turned() {
    let answers = vec![
        Ok(metres(384_400_000, -12_000_000, 150_000_000)),
        Ok(metres(-1, 2, -3)),
        Ok(metres(0, 0, 0)),
    ];
    for body in CelestialBodyId::all() {
        for origin in [None, Some(Ok(metres(1_000, 2_000, 3_000)))] {
            let equatorial = assemble_trajectory(origin, &answers).unwrap();
            let ecliptic = ecliptic_positions(origin, &answers, body).unwrap();
            assert_eq!(ecliptic.len(), 3);
            for (turned, point) in ecliptic.iter().zip(equatorial.iter()) {
                assert_eq!(Some(*turned), equatorial_to_ecliptic(*point, body));
            }
        }
    }
}

#[test]
fn ecliptic_positions_around_earth() {
    let answers = vec![Ok(metres(7, 0, 200_000_000)), Ok(metres(7, 200_000_000, 0))];
    assert_eq!(
        ecliptic_positions(None, &answers, CelestialBodyId::Earth),
        Ok(vec![
            Position { x: 35, y: 917_754_626, z: 397_147_891 },
            Position { x: 35, y: -397_147_891, z: 917_754_626 },
        ])
    );
}

#[test]
fn ecliptic_positions_fail_as_the_trajectory_does() {
    let answers = vec![
        Ok(metres(1, 2, 3)),
        Err(EngineError::EphemerisCoverage),
        Err(EngineError::UnknownBody),
    ];
    assert_eq!(
        ecliptic_positions(None, &answers, CelestialBodyId::Mars),
        Err(EngineError::EphemerisCoverage)
    );
    assert_eq!(
        ecliptic_positions(Some(Err(EngineError::UnknownBody)), &answers, CelestialBodyId::Mars),
        Err(EngineError::UnknownBody)
    );
    assert_eq!(ecliptic_positions(None, &Vec::new(), CelestialBodyId::Mars), Ok(Vec::new()));
}

#[test]
fn the_largest_answers_are_within_reach_of_the_rotation() {
    let answers = vec![Ok(metres(i64::MAX, i64::MAX, i64::MIN))];
    let origin = Some(Ok(metres(i64::MIN, i64::MIN, i64::MAX)));
    for body in CelestialBodyId::all() {
        let equatorial = assemble_trajectory(origin, &answers).unwrap();
        let ecliptic = ecliptic_positions(origin, &answers, body).unwrap();
        assert_eq!(Some(ecliptic[0]), equatorial_to_ecliptic(equatorial[0], body));
    }
}

#[test]
fn an_answer_gives_its_position_in_the_scene() {
    assert_eq!(resolve_position(Ok(metres(1, 2, 3))), Ok(Position { x: 5, y: 15, z: 10 }));
    assert_eq!(resolve_position(Ok(metres(1, 2, 3))), Ok(to_display(metres(1, 2, 3))));
}

#[test]
fn a_failed_answer_is_handed_on_and_no_position_put_in_its_place() {
    assert_eq!(
        resolve_position(Err(EngineError::EphemerisCoverage)),
        Err(EngineError::EphemerisCoverage)
    );
    assert_eq!(resolve_position(Err(EngineError::UnknownBody)), Err(EngineError::UnknownBody));
}
