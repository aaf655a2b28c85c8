//! Points in time and spans of time, as the chains of this protocol write them.

use vstd::prelude::*;

verus! {

/// Nanoseconds in a second.
pub const NANOS_PER_SECOND: u32 = 1_000_000_000;

/// Seconds from the Unix epoch to the first instant of year 1.
pub const MIN_SECONDS: i64 = -62_135_596_800;

/// Seconds from the Unix epoch to the last second of year 9999.
pub const MAX_SECONDS: i64 = 253_402_300_799;

/// A point in time: whole seconds since the Unix epoch and the nanoseconds past them.
///
/// Every `Timestamp` lies in the years 1 to 9999, the range of a protobuf timestamp.
#[derive(Clone, Copy, Debug, PartialEq, Eq, Hash, Structural)]
pub struct Timestamp {
    pub(crate) seconds: i64,
    pub(crate) nanos: u32,
}

/// A span of time that is never negative: whole seconds and the nanoseconds past them.
#[derive(Clone, Copy, Debug, PartialEq, Eq, Hash, Structural)]
pub struct Duration {
    pub(crate) seconds: u64,
    pub(crate) nanos: u32,
}

/// Whether `seconds` and `nanos` name an instant that a [`Timestamp`] can hold.
pub open spec fn in_time_range(seconds: i64, nanos: u32) -> bool {
    MIN_SECONDS <= seconds <= MAX_SECONDS && nanos < NANOS_PER_SECOND
}

impl Timestamp {
    #[verifier::type_invariant]
    pub closed spec fn well_formed(self) -> bool {
        in_time_range(self.seconds, self.nanos)
    }

    /// Whole seconds since the Unix epoch, rounded down.
    pub closed spec fn spec_seconds(&self) -> i64 {
        self.seconds
    }

    /// Nanoseconds past the whole second.
    pub closed spec fn spec_nanos(&self) -> u32 {
        self.nanos
    }

    /// Nanoseconds since the Unix epoch.
    pub open spec fn unix_nanos(self) -> int {
        self.spec_seconds() * NANOS_PER_SECOND + self.spec_nanos()
    }

    /// The instant `seconds` and `nanos` name, if it lies in the years 1 to 9999.
    pub fn from_unix_timestamp(seconds: i64, nanos: u32) -> (time: Option<Timestamp>)
        ensures
            time is Some <==> in_time_range(seconds, nanos),
            time matches Some(t) ==> t.spec_seconds() == seconds && t.spec_nanos() == nanos,
    {
        if MIN_SECONDS <= seconds && seconds <= MAX_SECONDS && nanos < NANOS_PER_SECOND {
            Some(Timestamp { seconds, nanos })
        } else {
            None
        }
    }

    #[verifier::when_used_as_spec(spec_seconds)]
    pub fn seconds(&self) -> (seconds: i64)
        ensures
            seconds == self.spec_seconds(),
            in_time_range(seconds, self.spec_nanos()),
    {
        proof {
            use_type_invariant(self);
        }
        self.seconds
    }

    #[verifier::when_used_as_spec(spec_nanos)]
    pub fn nanos(&self) -> (nanos: u32)
        ensures
            nanos == self.spec_nanos(),
            in_time_range(self.spec_seconds(), nanos),
    {
        proof {
            use_type_invariant(self);
        }
        self.nanos
    }

    /// The time that has passed since `earlier`, or `None` if `earlier` is still to come.
    pub fn duration_since(&self, earlier: &Timestamp) -> (elapsed: Option<Duration>)
        ensures
            elapsed is Some <==> earlier.unix_nanos() <= self.unix_nanos(),
            elapsed matches Some(d) ==> d.total_nanos() == self.unix_nanos() - earlier.unix_nanos(),
    {
        proof {
            use_type_invariant(self);
            use_type_invariant(earlier);
        }
        let later_nanos: i128 = self.seconds as i128 * 1_000_000_000 + self.nanos as i128;
        let earlier_nanos: i128 = earlier.seconds as i128 * 1_000_000_000 + earlier.nanos as i128;
        if later_nanos < earlier_nanos {
            return None;
        }
        let span: i128 = later_nanos - earlier_nanos;
        let seconds: i128 = span / 1_000_000_000;
        let nanos: i128 = span % 1_000_000_000;
        Some(Duration { seconds: seconds as u64, nanos: nanos as u32 })
    }
}

impl Duration {
    #[verifier::type_invariant]
    pub closed spec fn well_formed(self) -> bool {
        self.nanos < NANOS_PER_SECOND
    }

    /// The whole seconds of the span.
    pub closed spec fn spec_seconds(&self) -> u64 {
        self.seconds
    }

    /// The nanoseconds past the whole seconds.
    pub closed spec fn spec_nanos(&self) -> u32 {
        self.nanos
    }

    /// The length of the span in nanoseconds.
    pub open spec fn total_nanos(self) -> int {
        self.spec_seconds() * NANOS_PER_SECOND + self.spec_nanos()
    }

    /// The span of `seconds` and `nanos`, if `nanos` is less than a second.
    pub fn new(seconds: u64, nanos: u32) -> (duration: Option<Duration>)
        ensures
            duration is Some <==> nanos < NANOS_PER_SECOND,
            duration matches Some(d) ==> d.spec_seconds() == seconds && d.spec_nanos() == nanos,
    {
        if nanos < NANOS_PER_SECOND {
            Some(Duration { seconds, nanos })
        } else {
            None
        }
    }

    /// A span of whole seconds.
    pub fn from_secs(seconds: u64) -> (duration: Duration)
        ensures
            duration.spec_seconds() == seconds,
            duration.spec_nanos() == 0,
    {
        Duration { seconds, nanos: 0 }
    }

    #[verifier::when_used_as_spec(spec_seconds)]
    pub fn seconds(&self) -> (seconds: u64)
        ensures
            seconds == self.spec_seconds(),
    {
        self.seconds
    }

    #[verifier::when_used_as_spec(spec_nanos)]
    pub fn nanos(&self) -> (nanos: u32)
        ensures
            nanos == self.spec_nanos(),
            nanos < NANOS_PER_SECOND,
    {
        proof {
            use_type_invariant(self);
        }
        self.nanos
    }

    /// `self` is strictly longer than `other`.
    pub fn exceeds(&self, other: &Duration) -> (longer: bool)
        ensures
            longer == (self.total_nanos() > other.total_nanos()),
    {
        proof {
            use_type_invariant(self);
            use_type_invariant(other);
        }
        self.seconds > other.seconds || (self.seconds == other.seconds && self.nanos
            > other.nanos)
    }
}

} // verus!
