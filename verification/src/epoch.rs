//! Instants of time, counted in whole nanoseconds.

use vstd::prelude::*;

verus! {

/// Nanoseconds in one second.
pub const NANOS_PER_SECOND: i128 = 1_000_000_000;

/// Nanoseconds in one day of 86 400 seconds.
pub const NANOS_PER_DAY: i128 = 86_400_000_000_000;

/// The epoch used when the caller supplies none: 4 July 2024, 12:00:00 UTC,
/// which is 3 929 083 237 seconds of atomic time after the reference instant.
pub const DEFAULT_EPOCH_TAI_NANOS: i128 = 3_929_083_237_000_000_000;

/// An absolute instant: the nanoseconds of international atomic time (TAI)
/// that have passed since 1 January 1900, 00:00:00 TAI. Negative counts are
/// instants before that.
#[derive(Debug, Clone, Copy, PartialEq, Eq, Hash, Structural)]
pub struct Epoch {
    pub tai_nanos: i128,
}

impl Epoch {
    /// The instant `tai_nanos` nanoseconds after the reference instant.
    pub fn from_tai_nanos(tai_nanos: i128) -> (epoch: Epoch)
        ensures
            epoch.tai_nanos == tai_nanos,
    {
        Epoch { tai_nanos }
    }

    /// The instant `nanos` nanoseconds after this one, or `None` when that
    /// count cannot be represented.
    pub fn checked_add(self, nanos: i128) -> (later: Option<Epoch>)
        ensures
            later == Self::plus(self, nanos as int),
    {
        match self.tai_nanos.checked_add(nanos) {
            Some(sum) => Some(Epoch { tai_nanos: sum }),
            None => None,
        }
    }

    /// The duration in nanoseconds from `earlier` to this instant, or `None`
    /// when that count cannot be represented.
    pub fn checked_since(self, earlier: Epoch) -> (elapsed: Option<i128>)
        ensures
            elapsed == Self::span(earlier, self),
    {
        self.tai_nanos.checked_sub(earlier.tai_nanos)
    }

    /// The instant `nanos` after `epoch`, where it can be represented.
    pub open spec fn plus(epoch: Epoch, nanos: int) -> Option<Epoch> {
        let sum = epoch.tai_nanos + nanos;
        if i128::MIN <= sum <= i128::MAX {
            Some(Epoch { tai_nanos: sum as i128 })
        } else {
            None
        }
    }

    /// The nanoseconds from `from` to `to`, where they can be represented.
    pub open spec fn span(from: Epoch, to: Epoch) -> Option<i128> {
        let elapsed = to.tai_nanos - from.tai_nanos;
        if i128::MIN <= elapsed <= i128::MAX {
            Some(elapsed as i128)
        } else {
            None
        }
    }
}

impl Default for Epoch {
    /// The epoch used when the caller supplies none.
    fn default() -> (epoch: Epoch)
        ensures
            epoch.tai_nanos == DEFAULT_EPOCH_TAI_NANOS,
    {
        Epoch { tai_nanos: DEFAULT_EPOCH_TAI_NANOS }
    }
}

} // verus!
