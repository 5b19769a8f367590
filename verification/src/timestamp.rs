//! A point in time with nanosecond resolution, as the host runtime reports it.
use vstd::prelude::*;
use crate::duration::Duration;

verus! {

/// Nanoseconds in one second.
pub const NANOS_IN_SECOND: u64 = 1_000_000_000;

/// The longest span the protocol adds to the current time on its own
/// account: one day.
pub const MAX_LOOKAHEAD: u64 = 86_400_000_000_000;

/// A point in time, counted in nanoseconds since the epoch.
#[derive(Clone, Copy, PartialEq, Eq, Structural, Debug, Default)]
pub struct Timestamp {
    pub nanos: u64,
}

impl Timestamp {
    /// The point in time `nanos` nanoseconds after the epoch.
    pub fn from_nanos(nanos: u64) -> (res: Self)
        ensures
            res.nanos == nanos,
    {
        Timestamp { nanos }
    }

    /// The point in time `seconds` whole seconds after the epoch.
    pub fn from_seconds(seconds: u64) -> (res: Self)
        requires
            seconds * NANOS_IN_SECOND <= u64::MAX,
        ensures
            res.nanos == seconds * NANOS_IN_SECOND,
    {
        Timestamp { nanos: seconds * NANOS_IN_SECOND }
    }

    /// Nanoseconds since the epoch.
    pub fn nanos(&self) -> (res: u64)
        ensures
            res == self.nanos,
    {
        self.nanos
    }

    /// Whole seconds since the epoch; the sub-second part is dropped.
    pub fn seconds(&self) -> (res: u64)
        ensures
            res == self.nanos / NANOS_IN_SECOND,
    {
        self.nanos / NANOS_IN_SECOND
    }

    /// The point in time `addition` nanoseconds later.
    pub fn plus_nanos(&self, addition: u64) -> (res: Self)
        requires
            self.nanos + addition <= u64::MAX,
        ensures
            res.nanos == self.nanos + addition,
    {
        Timestamp { nanos: self.nanos + addition }
    }

    /// The point in time `rhs` later.
    pub fn add(self, rhs: Duration) -> (res: Self)
        requires
            self.nanos + rhs.nanos <= u64::MAX,
        ensures
            res.nanos == self.nanos + rhs.nanos,
    {
        self.plus_nanos(rhs.nanos)
    }

    /// Whether the protocol can look ahead from this point in time: the
    /// point that lies the longest look-ahead later is representable.
    pub open spec fn spec_allows_lookahead(self) -> bool {
        self.nanos <= u64::MAX - MAX_LOOKAHEAD
    }

    /// Whether the protocol can look ahead from this point in time.
    pub fn allows_lookahead(&self) -> (res: bool)
        ensures
            res == self.spec_allows_lookahead(),
    {
        self.nanos <= u64::MAX - MAX_LOOKAHEAD
    }

    /// Whether `self` is not later than `other`.
    pub fn le(&self, other: &Timestamp) -> (res: bool)
        ensures
            res == (self.nanos <= other.nanos),
    {
        self.nanos <= other.nanos
    }

    /// `self` moved into the closed range from `low` to `high`.
    pub fn clamp(self, low: Timestamp, high: Timestamp) -> (res: Self)
        requires
            low.nanos <= high.nanos,
        ensures
            res == self.spec_clamp(low, high),
    {
        if self.nanos < low.nanos {
            low
        } else if self.nanos > high.nanos {
            high
        } else {
            self
        }
    }

    /// The point of the closed range from `low` to `high` nearest to `self`.
    pub open spec fn spec_clamp(self, low: Timestamp, high: Timestamp) -> Timestamp {
        if self.nanos < low.nanos {
            low
        } else if self.nanos > high.nanos {
            high
        } else {
            self
        }
    }
}

} // verus!
