//! The entries of the planetary ephemeris that stand for the bodies.

use nyx_space::cosmic::Bodies;
use vstd::prelude::*;

use crate::celestial_body::CelestialBodyId;

verus! {

/// An entry of the planetary ephemeris. Mars and the giant planets are known
/// to the ephemeris only by the barycenters of their systems.
#[derive(Debug, Clone, Copy, PartialEq, Eq, Hash, Structural)]
pub enum EphemerisBody {
    Sun,
    Mercury,
    Venus,
    Earth,
    Luna,
    MarsBarycenter,
    JupiterBarycenter,
    SaturnBarycenter,
    UranusBarycenter,
    NeptuneBarycenter,
}

impl EphemerisBody {
    /// The lookup key of an entry: the indices that lead to it from the root
    /// of the ephemeris, the solar system barycenter.
    pub open spec fn path(self) -> Seq<usize> {
        match self {
            EphemerisBody::Sun => seq![0usize],
            EphemerisBody::Mercury => seq![1usize],
            EphemerisBody::Venus => seq![2usize],
            EphemerisBody::Earth => seq![3usize, 0usize],
            EphemerisBody::Luna => seq![3usize, 1usize],
            EphemerisBody::MarsBarycenter => seq![4usize],
            EphemerisBody::JupiterBarycenter => seq![5usize],
            EphemerisBody::SaturnBarycenter => seq![6usize],
            EphemerisBody::UranusBarycenter => seq![7usize],
            EphemerisBody::NeptuneBarycenter => seq![8usize],
        }
    }

    /// The ephemeris entry that stands for a body.
    pub open spec fn of(id: CelestialBodyId) -> EphemerisBody {
        match id {
            CelestialBodyId::Sun => EphemerisBody::Sun,
            CelestialBodyId::Mercury => EphemerisBody::Mercury,
            CelestialBodyId::Venus => EphemerisBody::Venus,
            CelestialBodyId::Earth => EphemerisBody::Earth,
            CelestialBodyId::Moon => EphemerisBody::Luna,
            CelestialBodyId::Mars => EphemerisBody::MarsBarycenter,
            CelestialBodyId::Jupiter => EphemerisBody::JupiterBarycenter,
            CelestialBodyId::Saturn => EphemerisBody::SaturnBarycenter,
            CelestialBodyId::Uranus => EphemerisBody::UranusBarycenter,
            CelestialBodyId::Neptune => EphemerisBody::NeptuneBarycenter,
        }
    }

    /// The ephemeris entry that stands for a body.
    pub fn for_body(id: CelestialBodyId) -> (entry: EphemerisBody)
        ensures
            entry == Self::of(id),
    {
        match id {
            CelestialBodyId::Sun => EphemerisBody::Sun,
            CelestialBodyId::Mercury => EphemerisBody::Mercury,
            CelestialBodyId::Venus => EphemerisBody::Venus,
            CelestialBodyId::Earth => EphemerisBody::Earth,
            CelestialBodyId::Moon => EphemerisBody::Luna,
            CelestialBodyId::Mars => EphemerisBody::MarsBarycenter,
            CelestialBodyId::Jupiter => EphemerisBody::JupiterBarycenter,
            CelestialBodyId::Saturn => EphemerisBody::SaturnBarycenter,
            CelestialBodyId::Uranus => EphemerisBody::UranusBarycenter,
            CelestialBodyId::Neptune => EphemerisBody::NeptuneBarycenter,
        }
    }
}

/// How the travel time of light is accounted for in an apparent position.
#[derive(Debug, Clone, Copy, PartialEq, Eq, Hash, Structural)]
pub enum LightTimeCorrection {
    /// Light is taken to arrive at once: the geometric position.
    Geometric,
    /// The target is placed where it was when the light left it.
    LightTime,
    /// As `LightTime`, and the motion of the observer is accounted for too.
    Aberration,
}

/// Calls `nyx_space::cosmic::Bodies::ephem_path` on the entry of the same
/// name. Trusted: the path returned is the one that the table in
/// [`EphemerisBody::path`] gives for that entry.
#[verifier::external_body]
pub(crate) fn bodies_ephem_path(entry: EphemerisBody) -> (path: &'static [usize])
    ensures
        path@ == entry.path(),
{
    let body = match entry {
        EphemerisBody::Sun => Bodies::Sun,
        EphemerisBody::Mercury => Bodies::Mercury,
        EphemerisBody::Venus => Bodies::Venus,
        EphemerisBody::Earth => Bodies::Earth,
        EphemerisBody::Luna => Bodies::Luna,
        EphemerisBody::MarsBarycenter => Bodies::MarsBarycenter,
        EphemerisBody::JupiterBarycenter => Bodies::JupiterBarycenter,
        EphemerisBody::SaturnBarycenter => Bodies::SaturnBarycenter,
        EphemerisBody::UranusBarycenter => Bodies::UranusBarycenter,
        EphemerisBody::NeptuneBarycenter => Bodies::NeptuneBarycenter,
    };
    body.ephem_path()
}

} // verus!
