use solar_system::celestial_body::{
    CelestialBody, CelestialBodyId, CelestialBodyType, Radius, SolarSystem,
};
use solar_system::celestial_data::{get_position, get_traj, orbital_period};
use solar_system::position::{EphemerisPosition, StateQuery};
use solar_system::trajectory::NextStep;
use solar_system::ephemeris::LightTimeCorrection;
use solar_system::epoch::{Epoch, NANOS_PER_DAY};
use solar_system::error::EngineError;
use solar_system::orbit_renderer::{render_trajs, TRAJ_COLOURS, TRAJ_POINTS};

fn at(tai_nanos: i128) -> Epoch {
    Epoch::from_tai_nanos(tai_nanos)
}

fn epochs(samples: &[StateQuery]) -> Vec<i128> {
    samples.iter().map(|query| query.epoch.tai_nanos).collect()
}

#[test]
fn sun_has_an_empty_trajectory() {
    let system = SolarSystem::new();
    for reference in CelestialBodyId::all() {
        for steps in [1, 2, 100, 1000] {
            let plan =
                get_traj(CelestialBodyId::Sun, reference, at(0), Some(at(1_000_000)), steps, &system)
                    .unwrap();
            assert!(plan.samples.is_empty());
            assert!(plan.origin.is_none());
        }
    }
    let plan =
        get_traj(CelestialBodyId::Sun, CelestialBodyId::Earth, at(5), None, 10, &system).unwrap();
    assert!(plan.samples.is_empty());
    assert!(plan.origin.is_none());
    let plan =
        get_traj(CelestialBodyId::Sun, CelestialBodyId::Earth, at(5), Some(at(5)), 1, &system)
            .unwrap();
    assert!(plan.samples.is_empty());
}

#[test]
fn sun_has_an_empty_trajectory_even_where_it_is_not_registered() {
    let system = SolarSystem::default();
    let plan = get_traj(CelestialBodyId::Sun, CelestialBodyId::Earth, at(0), Some(at(10)), 3, &system)
        .unwrap();
    assert!(plan.samples.is_empty());
    assert!(plan.origin.is_none());
}

#[test]
fn no_samples_is_an_invalid_sample_count() {
    let system = SolarSystem::new();
    for target in CelestialBodyId::all() {
        let result = get_traj(target, CelestialBodyId::Earth, at(0), Some(at(1_000)), 0, &system);
        assert_eq!(result.err(), Some(EngineError::InvalidSampleCount));
        let result = get_traj(target, CelestialBodyId::Earth, at(0), None, 0, &system);
        assert_eq!(result.err(), Some(EngineError::InvalidSampleCount));
    }
    let empty = SolarSystem::default();
    let result = get_traj(CelestialBodyId::Mars, CelestialBodyId::Sun, at(0), Some(at(9)), 0, &empty);
    assert_eq!(result.err(), Some(EngineError::InvalidSampleCount));
}

#[test]
fn a_range_that_runs_backwards_is_an_invalid_sample_count() {
    let system = SolarSystem::new();
    for target in [CelestialBodyId::Sun, CelestialBodyId::Earth, CelestialBodyId::Moon] {
        let result = get_traj(target, CelestialBodyId::Earth, at(1_000), Some(at(999)), 10, &system);
        assert_eq!(result.err(), Some(EngineError::InvalidSampleCount));
    }
}

#[test]
fn a_target_that_is_not_registered_is_unknown() {
    let system = SolarSystem::from_bodies(vec![CelestialBody::new(
        CelestialBodyId::Sun,
        CelestialBodyType::Star,
        Radius::new(696_340_000),
        None,
    )])
    .unwrap();
    let result = get_traj(CelestialBodyId::Mars, CelestialBodyId::Sun, at(0), Some(at(10)), 5, &system);
    assert_eq!(result.err(), Some(EngineError::UnknownBody));
    let result = get_traj(CelestialBodyId::Mars, CelestialBodyId::Sun, at(0), None, 5, &system);
    assert_eq!(result.err(), Some(EngineError::UnknownBody));
}

#[test]
fn a_range_that_cannot_be_counted_is_outside_coverage() {
    let system = SolarSystem::new();
    let result = get_traj(
        CelestialBodyId::Moon,
        CelestialBodyId::Earth,
        at(i128::MAX - 5),
        None,
        10,
        &system,
    );
    assert_eq!(result.err(), Some(EngineError::EphemerisCoverage));
    let result = get_traj(
        CelestialBodyId::Moon,
        CelestialBodyId::Earth,
        at(-2),
        Some(at(i128::MAX)),
        10,
        &system,
    );
    assert_eq!(result.err(), Some(EngineError::EphemerisCoverage));
    let result = get_traj(
        CelestialBodyId::Moon,
        CelestialBodyId::Earth,
        at(0),
        Some(at(i128::MAX)),
        10,
        &system,
    );
    assert!(result.is_ok());
}

#[test]
fn a_moon_is_followed_around_the_central_body() {
    let system = SolarSystem::new();
    let plan = get_traj(
        CelestialBodyId::Moon,
        CelestialBodyId::Earth,
        at(1_000),
        Some(at(2_000)),
        4,
        &system,
    )
    .unwrap();
    assert!(plan.origin.is_none());
    assert_eq!(epochs(&plan.samples), vec![1_000, 1_250, 1_500, 1_750]);
    for query in &plan.samples {
        assert_eq!(query.target, CelestialBodyId::Moon);
        assert_eq!(query.center, CelestialBodyId::Earth);
        assert_eq!(query.correction, LightTimeCorrection::Aberration);
    }
}

#[test]
fn a_planet_is_followed_around_the_sun_and_re_based() {
    let system = SolarSystem::new();
    let plan = get_traj(
        CelestialBodyId::Mars,
        CelestialBodyId::Earth,
        at(-600),
        Some(at(600)),
        3,
        &system,
    )
    .unwrap();
    assert_eq!(
        plan.origin,
        Some(get_position(CelestialBodyId::Earth, CelestialBodyId::Sun, &at(-600)))
    );
    assert_eq!(
        plan.samples,
        vec![
            get_position(CelestialBodyId::Mars, CelestialBodyId::Sun, &at(-600)),
            get_position(CelestialBodyId::Mars, CelestialBodyId::Sun, &at(-200)),
            get_position(CelestialBodyId::Mars, CelestialBodyId::Sun, &at(200)),
        ]
    );
}

#[test]
fn an_asteroid_is_followed_like_a_moon() {
    let system = SolarSystem::from_bodies(vec![
        CelestialBody::new(CelestialBodyId::Sun, CelestialBodyType::Star, Radius::new(7), None),
        CelestialBody::new(
            CelestialBodyId::Mars,
            CelestialBodyType::Asteroid,
            Radius::new(3),
            Some(CelestialBodyId::Sun),
        ),
    ])
    .unwrap();
    let plan =
        get_traj(CelestialBodyId::Mars, CelestialBodyId::Sun, at(0), Some(at(100)), 2, &system)
            .unwrap();
    assert!(plan.origin.is_none());
    assert_eq!(
        plan.samples,
        vec![
            get_position(CelestialBodyId::Mars, CelestialBodyId::Sun, &at(0)),
            get_position(CelestialBodyId::Mars, CelestialBodyId::Sun, &at(50)),
        ]
    );
}

#[test]
fn the_time_step_is_the_whole_quotient() {
    let system = SolarSystem::new();
    let plan = get_traj(
        CelestialBodyId::Moon,
        CelestialBodyId::Earth,
        at(0),
        Some(at(1_000)),
        3,
        &system,
    )
    .unwrap();
    assert_eq!(epochs(&plan.samples), vec![0, 333, 666]);
    let plan = get_traj(
        CelestialBodyId::Moon,
        CelestialBodyId::Earth,
        at(10),
        Some(at(12)),
        5,
        &system,
    )
    .unwrap();
    assert_eq!(epochs(&plan.samples), vec![10, 10, 10, 10, 10]);
    let plan =
        get_traj(CelestialBodyId::Moon, CelestialBodyId::Earth, at(7), Some(at(7)), 2, &system)
            .unwrap();
    assert_eq!(epochs(&plan.samples), vec![7, 7]);
}

#[test]
fn samples_are_chronological_and_end_before_the_range_does() {
    let system = SolarSystem::new();
    let start = Epoch::default();
    let end = start.checked_add(27 * NANOS_PER_DAY + 3 * NANOS_PER_DAY / 10).unwrap();
    let plan =
        get_traj(CelestialBodyId::Moon, CelestialBodyId::Earth, start, Some(end), 100, &system)
            .unwrap();
    let times = epochs(&plan.samples);
    assert_eq!(times.len(), 100);
    assert_eq!(times[0], start.tai_nanos);
    let step = (end.tai_nanos - start.tai_nanos) / 100;
    assert_eq!(step, 23_587_200_000_000);
    for i in 0..100 {
        assert_eq!(times[i], start.tai_nanos + i as i128 * step);
        assert!(times[i] < end.tai_nanos);
    }
    assert_eq!(times[99] + step, end.tai_nanos);
}

#[test]
fn without_an_end_the_range_is_one_orbital_period() {
    let system = SolarSystem::new();
    for target in CelestialBodyId::all() {
        if target == CelestialBodyId::Sun {
            continue;
        }
        let plan = get_traj(target, CelestialBodyId::Sun, at(40), None, 8, &system).unwrap();
        let explicit = get_traj(
            target,
            CelestialBodyId::Sun,
            at(40),
            Some(at(40 + orbital_period(target))),
            8,
            &system,
        )
        .unwrap();
        assert_eq!(plan.samples, explicit.samples);
        assert_eq!(plan.origin, explicit.origin);
        assert_eq!(plan.samples[4].epoch.tai_nanos, 40 + orbital_period(target) / 2);
    }
}

#[test]
fn positions_are_asked_relative_to_the_first_body() {
    let system = SolarSystem::new();
    let visible = system.get_visible_bodies(CelestialBodyId::Earth).unwrap();
    let time = Epoch::default();
    let queries = SolarSystem::set_positions(&visible, &time);
    assert_eq!(
        queries,
        vec![
            get_position(CelestialBodyId::Earth, CelestialBodyId::Earth, &time),
            get_position(CelestialBodyId::Sun, CelestialBodyId::Earth, &time),
            get_position(CelestialBodyId::Moon, CelestialBodyId::Earth, &time),
        ]
    );
    let single = SolarSystem::set_positions(&visible[2..], &time);
    assert_eq!(single, vec![get_position(CelestialBodyId::Moon, CelestialBodyId::Moon, &time)]);
}

#[test]
fn orbit_paths_of_the_bodies_shown_with_earth() {
    let system = SolarSystem::new();
    let start = Epoch::default();
    let paths = render_trajs(&system, CelestialBodyId::Earth, start).unwrap();
    assert_eq!(paths.len(), 3);
    assert_eq!(paths[0].body, CelestialBodyId::Earth);
    assert_eq!(paths[1].body, CelestialBodyId::Sun);
    assert_eq!(paths[2].body, CelestialBodyId::Moon);
    assert_eq!(paths[0].colour, 0);
    assert_eq!(paths[1].colour, 1);
    assert_eq!(paths[2].colour, 2);
    assert_eq!(paths[0].plan.samples.len(), TRAJ_POINTS);
    assert_eq!(
        paths[0].plan.origin,
        Some(get_position(CelestialBodyId::Earth, CelestialBodyId::Sun, &start))
    );
    assert!(paths[1].plan.samples.is_empty());
    assert_eq!(paths[2].plan.samples.len(), TRAJ_POINTS);
    assert!(paths[2].plan.origin.is_none());
    let step_of_moon = orbital_period(CelestialBodyId::Moon) / 1000;
    assert_eq!(step_of_moon, 2_360_620_800_000);
    for (i, query) in paths[2].plan.samples.iter().enumerate() {
        assert_eq!(
            *query,
            get_position(
                CelestialBodyId::Moon,
                CelestialBodyId::Earth,
                &at(start.tai_nanos + i as i128 * step_of_moon)
            )
        );
    }
    let step_of_earth = orbital_period(CelestialBodyId::Earth) / 1000;
    assert_eq!(step_of_earth, 31_558_118_400_000);
    for (i, query) in paths[0].plan.samples.iter().enumerate() {
        assert_eq!(
            *query,
            get_position(
                CelestialBodyId::Earth,
                CelestialBodyId::Sun,
                &at(start.tai_nanos + i as i128 * step_of_earth)
            )
        );
    }
}

#[test]
fn each_orbit_path_covers_one_orbital_period_of_its_body() {
    let system = SolarSystem::new();
    let start = at(1_000);
    for selected in CelestialBodyId::all() {
        let paths = render_trajs(&system, selected, start).unwrap();
        let shown = system.get_visible_bodies(selected).unwrap();
        assert_eq!(paths.len(), shown.len());
        for (path, body) in paths.iter().zip(shown.iter()) {
            assert_eq!(path.body, body.get_id());
            let expected =
                get_traj(path.body, selected, start, None, TRAJ_POINTS, &system).unwrap();
            assert_eq!(path.plan.samples, expected.samples);
            assert_eq!(path.plan.origin, expected.origin);
            if path.body != CelestialBodyId::Sun {
                assert_eq!(
                    path.plan.samples[1].epoch.tai_nanos,
                    1_000 + orbital_period(path.body) / 1000
                );
                assert_eq!(
                    path.plan.samples[999].epoch.tai_nanos + orbital_period(path.body) / 1000,
                    1_000 + orbital_period(path.body)
                );
            }
        }
    }
}

#[test]
fn orbit_path_colours_are_handed_out_in_turn() {
    let mut bodies = vec![
        CelestialBody::new(CelestialBodyId::Sun, CelestialBodyType::Star, Radius::new(7), None),
        CelestialBody::new(
            CelestialBodyId::Earth,
            CelestialBodyType::Planet,
            Radius::new(3),
            Some(CelestialBodyId::Sun),
        ),
    ];
    for id in CelestialBodyId::all() {
        if id != CelestialBodyId::Sun && id != CelestialBodyId::Earth {
            bodies.push(CelestialBody::new(
                id,
                CelestialBodyType::Moon,
                Radius::new(1),
                Some(CelestialBodyId::Earth),
            ));
        }
    }
    let system = SolarSystem::from_bodies(bodies).unwrap();
    let paths = render_trajs(&system, CelestialBodyId::Earth, at(0)).unwrap();
    assert_eq!(paths.len(), 10);
    for (i, path) in paths.iter().enumerate() {
        assert_eq!(path.colour, i % TRAJ_COLOURS);
    }
    assert_eq!(paths[9].body, CelestialBodyId::Neptune);
    assert_eq!(paths[9].colour, 9);
}

#[test]
fn orbit_paths_of_a_body_that_is_not_registered() {
    let system = SolarSystem::default();
    let result = render_trajs(&system, CelestialBodyId::Earth, at(0));
    assert_eq!(result.err(), Some(EngineError::UnknownBody));
    let system = SolarSystem::from_bodies(vec![CelestialBody::new(
        CelestialBodyId::Sun,
        CelestialBodyType::Star,
        Radius::new(7),
        None,
    )])
    .unwrap();
    let result = render_trajs(&system, CelestialBodyId::Moon, at(0));
    assert_eq!(result.err(), Some(EngineError::UnknownBody));
    assert_eq!(render_trajs(&system, CelestialBodyId::Sun, at(0)).unwrap().len(), 1);
}

#[test]
fn orbit_paths_that_would_end_too_late() {
    let system = SolarSystem::new();
    let year = orbital_period(CelestialBodyId::Earth);
    let month = orbital_period(CelestialBodyId::Moon);
    let result = render_trajs(&system, CelestialBodyId::Earth, at(i128::MAX - year + 1));
    assert_eq!(result.err(), Some(EngineError::EphemerisCoverage));
    let result = render_trajs(&system, CelestialBodyId::Earth, at(i128::MAX - year));
    assert!(result.is_ok());
    let result = render_trajs(&system, CelestialBodyId::Moon, at(i128::MAX - month));
    assert_eq!(result.err(), Some(EngineError::EphemerisCoverage));
    let result = render_trajs(&system, CelestialBodyId::Sun, at(i128::MAX));
    assert_eq!(result.unwrap().len(), 1);
}

#[test]
fn no_positions_are_asked_for_no_bodies() {
    let time = Epoch::default();
    assert!(SolarSystem::set_positions(&[], &time).is_empty());
    let system = SolarSystem::new();
    let visible = system.get_visible_bodies(CelestialBodyId::Earth).unwrap();
    assert_eq!(SolarSystem::set_positions(&visible[..0], &time), Vec::new());
}

#[test]
fn a_plan_is_carried_out_origin_first_and_then_sample_by_sample() {
    let system = SolarSystem::new();
    let plan =
        get_traj(CelestialBodyId::Mars, CelestialBodyId::Earth, at(0), Some(at(90)), 3, &system)
            .unwrap();
    let origin_query = get_position(CelestialBodyId::Earth, CelestialBodyId::Sun, &at(0));
    let here = EphemerisPosition { x: 1, y: 2, z: 3 };
    let mut origin = None;
    let mut samples = Vec::new();
    assert_eq!(plan.next_step(&origin, &samples), NextStep::AskOrigin(origin_query));
    origin = Some(Ok(here));
    for i in 0..3 {
        let expected = get_position(CelestialBodyId::Mars, CelestialBodyId::Sun, &at(30 * i));
        assert_eq!(plan.next_step(&origin, &samples), NextStep::AskSample(expected));
        samples.push(Ok(here));
    }
    assert_eq!(plan.next_step(&origin, &samples), NextStep::Done);
    samples.push(Ok(here));
    assert_eq!(plan.next_step(&origin, &samples), NextStep::Done);
}

#[test]
fn a_plan_without_origin_starts_with_its_first_sample() {
    let system = SolarSystem::new();
    let plan =
        get_traj(CelestialBodyId::Moon, CelestialBodyId::Earth, at(0), Some(at(90)), 2, &system)
            .unwrap();
    let first = get_position(CelestialBodyId::Moon, CelestialBodyId::Earth, &at(0));
    assert_eq!(plan.next_step(&None, &Vec::new()), NextStep::AskSample(first));
    let stray = Some(Ok(EphemerisPosition { x: 0, y: 0, z: 0 }));
    assert_eq!(plan.next_step(&stray, &Vec::new()), NextStep::AskSample(first));
    let empty = get_traj(CelestialBodyId::Sun, CelestialBodyId::Earth, at(0), None, 5, &system)
        .unwrap();
    assert_eq!(empty.next_step(&None, &Vec::new()), NextStep::Done);
}

#[test]
fn nothing_is_asked_after_a_failure() {
    let system = SolarSystem::new();
    let here = EphemerisPosition { x: 1, y: 2, z: 3 };
    let planet =
        get_traj(CelestialBodyId::Mars, CelestialBodyId::Earth, at(0), Some(at(90)), 3, &system)
            .unwrap();
    let failed = Some(Err(EngineError::EphemerisCoverage));
    assert_eq!(planet.next_step(&failed, &Vec::new()), NextStep::Done);
    assert_eq!(planet.next_step(&failed, &vec![Ok(here)]), NextStep::Done);
    let answered = Some(Ok(here));
    assert_eq!(
        planet.next_step(&answered, &vec![Ok(here), Err(EngineError::UnknownBody)]),
        NextStep::Done
    );
    assert_eq!(
        planet.next_step(&answered, &vec![Err(EngineError::UnknownBody), Ok(here)]),
        NextStep::Done
    );
    let moon =
        get_traj(CelestialBodyId::Moon, CelestialBodyId::Earth, at(0), Some(at(90)), 3, &system)
            .unwrap();
    assert_eq!(moon.next_step(&None, &vec![Err(EngineError::EphemerisCoverage)]), NextStep::Done);
    assert_eq!(moon.next_step(&failed, &Vec::new()), NextStep::Done);
}
