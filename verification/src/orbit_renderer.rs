//! The orbit paths that are drawn around a selected body.

use vstd::prelude::*;

use crate::celestial_body::{CelestialBody, CelestialBodyId, SolarSystem};
use crate::celestial_data::orbital_period_nanos;
use crate::epoch::Epoch;
use crate::error::EngineError;
use crate::hierarchy::{find, lemma_visible_bodies_are_registered, valid_catalog, visible_bodies};
use crate::trajectory::{get_traj, trajectory, TrajectoryPlan, TrajectoryPlanView};

verus! {

/// The number of points of a drawn orbit path.
pub const TRAJ_POINTS: usize = 1000;

/// The number of colours that the paths are drawn in, one after the other.
pub const TRAJ_COLOURS: usize = 10;

/// The orbit path of one body: how its points are obtained and which of the
/// colours it is drawn in.
#[derive(Debug)]
pub struct OrbitPath {
    /// The body whose path this is.
    pub body: CelestialBodyId,
    /// The queries that yield the points of the path.
    pub plan: TrajectoryPlan,
    /// The index of the colour of the path.
    pub colour: usize,
}

/// The path that is drawn for the body at position `index` among those shown
/// with `selected_body`, from `epoch` on: its trajectory around the selected
/// body over one orbital period of its own.
pub open spec fn orbit_path_of(
    catalog: Seq<CelestialBody>,
    selected_body: CelestialBodyId,
    epoch: Epoch,
    index: int,
) -> Result<TrajectoryPlanView, EngineError> {
    trajectory(
        visible_bodies(catalog, selected_body)[index].id,
        selected_body,
        epoch,
        None,
        TRAJ_POINTS,
        catalog,
    )
}

/// Whether `path` is the path drawn for the body at position `index` among
/// those shown with `selected_body`: it names that body, follows its planned
/// trajectory and has the colour whose turn it is.
pub open spec fn shows(
    path: OrbitPath,
    catalog: Seq<CelestialBody>,
    selected_body: CelestialBodyId,
    epoch: Epoch,
    index: int,
) -> bool {
    &&& path.body == visible_bodies(catalog, selected_body)[index].id
    &&& path.colour == index % (TRAJ_COLOURS as int)
    &&& orbit_path_of(catalog, selected_body, epoch, index) == Ok::<
        TrajectoryPlanView,
        EngineError,
    >(path.plan@)
}

/// Whether the body at position `index` is the first of those shown with
/// `selected_body` whose path cannot be planned.
pub open spec fn first_failed_path_at(
    catalog: Seq<CelestialBody>,
    selected_body: CelestialBodyId,
    epoch: Epoch,
    index: int,
) -> bool {
    &&& 0 <= index < visible_bodies(catalog, selected_body).len()
    &&& orbit_path_of(catalog, selected_body, epoch, index) is Err
    &&& forall|i: int|
        0 <= i < index ==> (#[trigger] orbit_path_of(catalog, selected_body, epoch, i)) is Ok
}

/// Whether every path around `selected_body` can be planned: the selected
/// body is registered, and so is the trajectory of each body shown with it.
pub open spec fn all_paths_planned(
    catalog: Seq<CelestialBody>,
    selected_body: CelestialBodyId,
    epoch: Epoch,
) -> bool {
    &&& find(catalog, selected_body) is Some
    &&& forall|i: int|
        0 <= i < visible_bodies(catalog, selected_body).len() ==> (#[trigger] orbit_path_of(
            catalog,
            selected_body,
            epoch,
            i,
        )) is Ok
}

/// Whether `failure` is what keeps the paths around `selected_body` from
/// being drawn: that the selected body is not registered, or else the failure
/// of the first body, in the order in which they are shown, whose path cannot
/// be planned.
pub open spec fn path_failure(
    catalog: Seq<CelestialBody>,
    selected_body: CelestialBodyId,
    epoch: Epoch,
    failure: EngineError,
) -> bool {
    if find(catalog, selected_body) is None {
        failure == EngineError::UnknownBody
    } else {
        exists|i: int| #[trigger]
            first_failed_path_at(catalog, selected_body, epoch, i) && orbit_path_of(
                catalog,
                selected_body,
                epoch,
                i,
            ) == Err::<TrajectoryPlanView, EngineError>(failure)
    }
}

/// The path of a body that is shown can fail to be planned for one reason
/// only: `epoch` is so late that the end of the orbital period of the body
/// cannot be counted. The path of the Sun, which is empty, never fails.
pub proof fn lemma_orbit_path_fails_only_for_want_of_time(
    catalog: Seq<CelestialBody>,
    selected_body: CelestialBodyId,
    epoch: Epoch,
    index: int,
)
    requires
        valid_catalog(catalog),
        0 <= index < visible_bodies(catalog, selected_body).len(),
    ensures
        ({
            let body = visible_bodies(catalog, selected_body)[index].id;
            let path = orbit_path_of(catalog, selected_body, epoch, index);
            &&& path is Err <==> body != CelestialBodyId::Sun && Epoch::plus(
                epoch,
                orbital_period_nanos(body),
            ) is None
            &&& path is Err ==> path == Err::<TrajectoryPlanView, EngineError>(
                EngineError::EphemerisCoverage,
            )
        }),
{
    lemma_visible_bodies_are_registered(catalog, selected_body, index);
}

/// The orbit paths to draw when `selected_body` is selected: one for each body
/// shown with it, in the order in which they are shown, each relative to the
/// selected body and covering one orbital period of the body it belongs to,
/// from `epoch` on, in [`TRAJ_POINTS`] samples. The colours are handed out in
/// turn.
///
/// The paths are all planned or none is returned: a selected body that is not
/// registered is the failure, or else what keeps the first of the paths from
/// being planned.
pub fn render_trajs(
    solar_system: &SolarSystem,
    selected_body: CelestialBodyId,
    epoch: Epoch,
) -> (result: Result<Vec<OrbitPath>, EngineError>)
    ensures
        result is Ok <==> all_paths_planned(solar_system@, selected_body, epoch),
        result matches Ok(paths) ==> paths@.len() == visible_bodies(
            solar_system@,
            selected_body,
        ).len(),
        result matches Ok(paths) ==> forall|i: int|
            0 <= i < paths@.len() ==> shows(
                #[trigger] paths@[i],
                solar_system@,
                selected_body,
                epoch,
                i,
            ),
        result matches Err(e) ==> path_failure(solar_system@, selected_body, epoch, e),
{
    let bodies = match solar_system.get_visible_bodies(selected_body) {
        Ok(bodies) => bodies,
        Err(e) => {
            return Err(e);
        },
    };
    let mut paths: Vec<OrbitPath> = Vec::new();
    let mut index: usize = 0;
    while index < bodies.len()
        invariant
            index <= bodies.len(),
            find(solar_system@, selected_body) is Some,
            bodies@ == visible_bodies(solar_system@, selected_body),
            paths@.len() == index,
            forall|i: int|
                0 <= i < index ==> shows(
                    #[trigger] paths@[i],
                    solar_system@,
                    selected_body,
                    epoch,
                    i,
                ),
        decreases bodies.len() - index,
    {
        let body = bodies[index].get_id();
        let plan = match get_traj(body, selected_body, epoch, None, TRAJ_POINTS, solar_system) {
            Ok(plan) => plan,
            Err(e) => {
                proof {
                    assert forall|i: int| 0 <= i < index implies (#[trigger] orbit_path_of(
                        solar_system@,
                        selected_body,
                        epoch,
                        i,
                    )) is Ok by {
                        assert(shows(paths@[i], solar_system@, selected_body, epoch, i));
                    }
                    assert(first_failed_path_at(
                        solar_system@,
                        selected_body,
                        epoch,
                        index as int,
                    ));
                }
                return Err(e);
            },
        };
        paths.push(OrbitPath { body, plan, colour: index % TRAJ_COLOURS });
        index += 1;
    }
    proof {
        assert forall|i: int|
            0 <= i < visible_bodies(solar_system@, selected_body).len() implies (
        #[trigger] orbit_path_of(solar_system@, selected_body, epoch, i)) is Ok by {
            assert(shows(paths@[i], solar_system@, selected_body, epoch, i));
        }
    }
    Ok(paths)
}

} // verus!
