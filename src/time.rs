//! Points in time, as the foreign runtime holds them: signed milliseconds
//! since the Unix epoch.

use vstd::prelude::*;

verus! {

/// A point in time.
#[derive(Clone, Copy, Debug, PartialEq, Eq, Structural)]
pub struct Time {
    millis: i64,
}

impl Time {
    /// The time a number of milliseconds after the epoch.
    pub closed spec fn spec_new(millis: i64) -> Time {
        Time { millis }
    }

    /// The milliseconds since the epoch; negative before it.
    pub closed spec fn millis(&self) -> int {
        self.millis as int
    }

    /// The time a number of milliseconds after the epoch.
    pub fn new(milliseconds_since_epoch: i64) -> (r: Self)
        ensures
            r == Time::spec_new(milliseconds_since_epoch),
            r.millis() == milliseconds_since_epoch,
    {
        Time { millis: milliseconds_since_epoch }
    }

    /// The time a duration before or after the epoch.
    pub fn from_epoch_offset(before_epoch: bool, millis: u64) -> (r: Self)
        requires
            millis <= i64::MAX,
        ensures
            r.millis() == (if before_epoch {
                -millis
            } else {
                millis as int
            }),
    {
        if before_epoch {
            Time { millis: -(millis as i64) }
        } else {
            Time { millis: millis as i64 }
        }
    }

    /// The milliseconds since the epoch; negative before it.
    pub fn to_milliseconds(&self) -> (r: i64)
        ensures
            r == self.millis(),
    {
        self.millis
    }

    /// Whether the time is before the epoch, and how far from it it is.
    pub fn epoch_offset(&self) -> (r: (bool, u64))
        ensures
            r.0 == (self.millis() < 0),
            r.1 as int == (if self.millis() < 0 {
                -self.millis()
            } else {
                self.millis()
            }),
    {
        if self.millis < 0 {
            let m: i128 = -(self.millis as i128);
            (true, m as u64)
        } else {
            (false, self.millis as u64)
        }
    }
}

} // verus!
