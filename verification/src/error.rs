//! The failures that the engine reports to its caller.

use vstd::prelude::*;

verus! {

/// A failure of a query or of the construction of a registry. None is ever
/// replaced by a default value.
#[derive(Debug, Clone, Copy, PartialEq, Eq, Hash, Structural)]
pub enum EngineError {
    /// A body is not known to the registry, or its lookup key is not known to
    /// the ephemeris.
    UnknownBody,
    /// An epoch lies outside the span of time that can be served.
    EphemerisCoverage,
    /// A catalog does not form a hierarchy: a parent is missing, or a body
    /// orbits one that cannot carry it.
    InvalidHierarchy,
    /// A trajectory was asked for with no samples, or over a span of time that
    /// runs backwards.
    InvalidSampleCount,
}

} // verus!
