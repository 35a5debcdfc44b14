//! Wall-clock time as plain integers.
//!
//! The limiter compares the moment a transaction arrived with the moment it is
//! checked. Both are counted in whole nanoseconds from the Unix epoch, so the
//! epoch is the earliest instant that can be written down and every
//! subtraction that would reach behind it stops there.

use vstd::prelude::*;

verus! {

/// How many nanoseconds make one second.
pub const NANOS_PER_SEC: u128 = 1_000_000_000;

/// A length of time in whole nanoseconds.
#[derive(Clone, Copy, Debug, PartialEq, Eq, Structural)]
pub struct TimeSpan {
    pub nanos: u128,
}

/// A point on the wall clock: the nanoseconds that have passed since the Unix
/// epoch. `Timestamp { nanos: 0 }` is the epoch, the earliest instant there is.
#[derive(Clone, Copy, Debug, PartialEq, Eq, Structural)]
pub struct Timestamp {
    pub nanos: u128,
}

impl TimeSpan {
    /// The longest span that can be written down.
    pub open spec fn spec_longest() -> TimeSpan {
        TimeSpan { nanos: u128::MAX }
    }

    /// The longest span that can be written down. No instant lies further
    /// than this from the epoch.
    pub fn longest() -> (span: TimeSpan)
        ensures
            span == Self::spec_longest(),
    {
        TimeSpan { nanos: u128::MAX }
    }

    /// A span of `secs` whole seconds.
    pub fn from_secs(secs: u64) -> (span: TimeSpan)
        ensures
            span.nanos == secs * NANOS_PER_SEC,
    {
        TimeSpan { nanos: (secs as u128) * NANOS_PER_SEC }
    }
}

impl Timestamp {
    /// The instant `secs` whole seconds after the epoch.
    pub fn from_secs(secs: u64) -> (instant: Timestamp)
        ensures
            instant.nanos == secs * NANOS_PER_SEC,
    {
        Timestamp { nanos: (secs as u128) * NANOS_PER_SEC }
    }

    /// The instant that a clock shows which has counted `elapsed` nanoseconds
    /// since the epoch. `None` stands for a clock that shows a time before the
    /// epoch: such a reading counts as the epoch.
    pub open spec fn spec_from_unix_nanos(elapsed: Option<u128>) -> Timestamp {
        match elapsed {
            Some(nanos) => Timestamp { nanos },
            None => Timestamp { nanos: 0 },
        }
    }

    /// Turns a clock's reading into an instant: `elapsed` nanoseconds after
    /// the epoch, or the epoch itself where the clock shows a time before it.
    pub fn from_unix_nanos(elapsed: Option<u128>) -> (instant: Timestamp)
        ensures
            instant == Self::spec_from_unix_nanos(elapsed),
    {
        match elapsed {
            Some(nanos) => Timestamp { nanos },
            None => Timestamp { nanos: 0 },
        }
    }

    /// The instant that lies `span` before `self`, or the epoch where that
    /// instant would lie before the epoch.
    pub open spec fn spec_earlier_by(self, span: TimeSpan) -> Timestamp {
        if self.nanos >= span.nanos {
            Timestamp { nanos: (self.nanos - span.nanos) as u128 }
        } else {
            Timestamp { nanos: 0 }
        }
    }

    /// Steps back by `span`, stopping at the epoch.
    pub fn earlier_by(self, span: TimeSpan) -> (instant: Timestamp)
        ensures
            instant == self.spec_earlier_by(span),
    {
        Timestamp { nanos: self.nanos.saturating_sub(span.nanos) }
    }

    /// Whether `self` lies strictly before `other`.
    pub fn is_before(self, other: Timestamp) -> (before: bool)
        ensures
            before == (self.nanos < other.nanos),
    {
        self.nanos < other.nanos
    }
}

} // verus!
