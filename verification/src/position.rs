//! Questions to the ephemeris and the places in the scene that its answers
//! stand for.

use vstd::prelude::*;

use crate::celestial_body::CelestialBodyId;
use crate::celestial_data::get_ephem_path;
use crate::ephemeris::{EphemerisBody, LightTimeCorrection};
use crate::epoch::Epoch;
use crate::error::EngineError;
use crate::frame_transform::within_reach;

verus! {

/// One question to the ephemeris: where `target` is at `epoch`, as seen from
/// `center` in the equatorial frame of `center`, with the given correction for
/// the travel time of light.
#[derive(Debug, Clone, Copy, PartialEq, Eq, Hash, Structural)]
pub struct StateQuery {
    /// The body whose position is asked for.
    pub target: CelestialBodyId,
    /// The body at the origin of the frame of the answer.
    pub center: CelestialBodyId,
    /// The instant of the observation.
    pub epoch: Epoch,
    /// The correction applied to the apparent position.
    pub correction: LightTimeCorrection,
}

impl StateQuery {
    /// The lookup key of the target.
    pub fn target_path(&self) -> (path: &'static [usize])
        ensures
            path@ == EphemerisBody::of(self.target).path(),
    {
        get_ephem_path(self.target)
    }

    /// The lookup key of the body whose natural frame the answer is given in.
    pub fn frame_path(&self) -> (path: &'static [usize])
        ensures
            path@ == EphemerisBody::of(self.center).path(),
    {
        get_ephem_path(self.center)
    }
}

/// The query that [`get_position`] makes.
pub open spec fn position_query(
    target_body: CelestialBodyId,
    central_body: CelestialBodyId,
    time: Epoch,
) -> StateQuery {
    StateQuery {
        target: target_body,
        center: central_body,
        epoch: time,
        correction: LightTimeCorrection::Aberration,
    }
}

/// The query whose answer is the position of `target_body` relative to
/// `central_body` at `time`. Positions are always asked for with the
/// correction for light time and stellar aberration.
pub fn get_position(
    target_body: CelestialBodyId,
    central_body: CelestialBodyId,
    time: &Epoch,
) -> (query: StateQuery)
    ensures
        query == position_query(target_body, central_body, *time),
{
    StateQuery {
        target: target_body,
        center: central_body,
        epoch: *time,
        correction: LightTimeCorrection::Aberration,
    }
}

/// Millionths of a display unit in one metre: the scene shows a kilometre as
/// five thousandths of a display unit. The scale is a setting of the display
/// and no part of the physics.
pub const SOLAR_SYSTEM_SCALE: i128 = 5;

/// A position as the ephemeris gives it: whole metres along the three axes of
/// the ephemeris.
#[derive(Debug, Clone, Copy, PartialEq, Eq, Hash, Structural)]
pub struct EphemerisPosition {
    pub x: i64,
    pub y: i64,
    pub z: i64,
}

/// A position in the scene: millionths of a display unit along the three axes
/// of the display.
#[derive(Debug, Clone, Copy, PartialEq, Eq, Hash, Structural)]
pub struct Position {
    pub x: i128,
    pub y: i128,
    pub z: i128,
}

/// The place in the scene of a position of the ephemeris. The second and the
/// third axis of the ephemeris change places, which is a convention of the
/// display and no rotation, and metres become millionths of a display unit.
pub open spec fn display_position(answer: EphemerisPosition) -> Position {
    Position {
        x: (answer.x * SOLAR_SYSTEM_SCALE) as i128,
        y: (answer.z * SOLAR_SYSTEM_SCALE) as i128,
        z: (answer.y * SOLAR_SYSTEM_SCALE) as i128,
    }
}

/// The place in the scene of `answer` as seen from `origin`, or as it stands
/// where there is no origin.
pub open spec fn relative_position(
    answer: EphemerisPosition,
    origin: Option<EphemerisPosition>,
) -> Position {
    match origin {
        None => display_position(answer),
        Some(origin) => Position {
            x: (display_position(answer).x - display_position(origin).x) as i128,
            y: (display_position(answer).y - display_position(origin).y) as i128,
            z: (display_position(answer).z - display_position(origin).z) as i128,
        },
    }
}

/// The place in the scene of an answer of the ephemeris.
pub fn to_display(answer: EphemerisPosition) -> (position: Position)
    ensures
        position == display_position(answer),
        within_reach(position),
        position.x == answer.x * 5,
        position.y == answer.z * 5,
        position.z == answer.y * 5,
{
    Position {
        x: (answer.x as i128) * SOLAR_SYSTEM_SCALE,
        y: (answer.z as i128) * SOLAR_SYSTEM_SCALE,
        z: (answer.y as i128) * SOLAR_SYSTEM_SCALE,
    }
}

/// What becomes of one answer of the ephemeris: the place in the scene of
/// the position it gives, or the failure it reports, handed on as it is.
pub open spec fn resolved_position(
    answer: Result<EphemerisPosition, EngineError>,
) -> Result<Position, EngineError> {
    match answer {
        Ok(position) => Ok(display_position(position)),
        Err(failure) => Err(failure),
    }
}

/// The position that an answer of the ephemeris gives, in the scene. A
/// failure of the ephemeris is the failure of the position: no position is
/// put in its place.
pub fn resolve_position(
    answer: Result<EphemerisPosition, EngineError>,
) -> (result: Result<Position, EngineError>)
    ensures
        result == resolved_position(answer),
{
    match answer {
        Ok(position) => Ok(to_display(position)),
        Err(failure) => Err(failure),
    }
}

/// The place in the scene of `answer` as seen from `origin`.
pub fn to_display_from(
    answer: EphemerisPosition,
    origin: Option<EphemerisPosition>,
) -> (position: Position)
    ensures
        position == relative_position(answer, origin),
        within_reach(position),
        origin matches Some(from) ==> position.x == (answer.x - from.x) * 5,
        origin matches Some(from) ==> position.y == (answer.z - from.z) * 5,
        origin matches Some(from) ==> position.z == (answer.y - from.y) * 5,
{
    let place = to_display(answer);
    match origin {
        None => place,
        Some(origin) => {
            let from = to_display(origin);
            Position { x: place.x - from.x, y: place.y - from.y, z: place.z - from.z }
        },
    }
}

/// A position of the scene made of answers of the ephemeris is within reach
/// of the rotation.
pub proof fn lemma_relative_position_within_reach(
    answer: EphemerisPosition,
    origin: Option<EphemerisPosition>,
)
    ensures
        within_reach(relative_position(answer, origin)),
{
}

} // verus!
