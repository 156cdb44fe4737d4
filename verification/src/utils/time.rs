//! Points in time and lengths of time, both held as whole milliseconds.

use std::time::SystemTime;
use vstd::prelude::*;

verus! {

/// Reads the system clock through `std::time::SystemTime::now` and
/// `SystemTime::duration_since`, as whole milliseconds since the Unix epoch.
/// A clock that is set before the epoch reads as the epoch itself. Nothing
/// is claimed of the reading.
#[verifier::external_body]
fn unix_millis() -> u128 {
    SystemTime::now().duration_since(SystemTime::UNIX_EPOCH).map_or(0, |d| d.as_millis())
}

/// A point in time: whole milliseconds elapsed since the Unix epoch.
#[derive(Clone, Copy, Debug, PartialEq, Eq, Structural)]
pub struct Timestamp {
    pub millis: u128,
}

/// A length of time in whole milliseconds.
#[derive(Clone, Copy, Debug, PartialEq, Eq, Structural)]
pub struct TimeSpan {
    pub millis: u128,
}

impl Timestamp {
    /// The time that the system clock shows.
    pub fn now() -> Timestamp {
        Timestamp { millis: unix_millis() }
    }

    /// The time `millis` milliseconds after the epoch.
    pub fn from_millis(millis: u128) -> (t: Timestamp)
        ensures
            t.millis == millis,
    {
        Timestamp { millis }
    }

    /// Milliseconds since the epoch.
    pub fn as_millis(&self) -> (millis: u128)
        ensures
            millis == self.millis,
    {
        self.millis
    }

    /// Time elapsed from `earlier` to `self`; `None` when `earlier` lies
    /// after `self`.
    pub open spec fn spec_duration_since(self, earlier: Timestamp) -> Option<TimeSpan> {
        if earlier.millis <= self.millis {
            Some(TimeSpan { millis: (self.millis - earlier.millis) as u128 })
        } else {
            None
        }
    }

    /// Time elapsed from `earlier` to `self`; `None` when `earlier` lies
    /// after `self`.
    pub fn duration_since(&self, earlier: &Timestamp) -> (elapsed: Option<TimeSpan>)
        ensures
            elapsed == self.spec_duration_since(*earlier),
    {
        if earlier.millis <= self.millis {
            Some(TimeSpan { millis: self.millis - earlier.millis })
        } else {
            None
        }
    }
}

impl TimeSpan {
    /// A span of `millis` milliseconds.
    pub fn from_millis(millis: u64) -> (span: TimeSpan)
        ensures
            span.millis == millis,
    {
        TimeSpan { millis: millis as u128 }
    }

    /// A span of `secs` seconds.
    pub fn from_secs(secs: u64) -> (span: TimeSpan)
        ensures
            span.millis == secs * 1000,
    {
        TimeSpan { millis: secs as u128 * 1000 }
    }

    /// The whole span in milliseconds.
    pub fn as_millis(&self) -> (millis: u128)
        ensures
            millis == self.millis,
    {
        self.millis
    }

    /// The whole seconds of the span.
    pub fn as_secs(&self) -> (secs: u128)
        ensures
            secs == self.millis / 1000,
    {
        self.millis / 1000
    }

    /// The milliseconds beyond the whole seconds of the span.
    pub fn subsec_millis(&self) -> (millis: u32)
        ensures
            millis == self.millis % 1000,
    {
        (self.millis % 1000) as u32
    }
}

} // verus!
