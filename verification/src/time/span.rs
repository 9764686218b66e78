//! Spans of time.

use crate::proto::Period;
use vstd::prelude::*;

verus! {

pub const NANOS_PER_SECOND: i64 = 1_000_000_000;

pub const NANOS_PER_MINUTE: i64 = 60_000_000_000;

pub const NANOS_PER_HOUR: i64 = 3_600_000_000_000;

pub const NANOS_PER_DAY: i64 = 86_400_000_000_000;

/// The greatest number of days that a `Duration` can span.
pub const MAX_DAYS: i64 = 106_751;

/// The greatest number of hours that a `Duration` can span.
pub const MAX_HOURS: i64 = 2_562_047;

/// The greatest number of minutes that a `Duration` can span.
pub const MAX_MINUTES: i64 = 153_722_867;

/// A signed span of time, counted in nanoseconds.
#[derive(Debug, Clone, Copy, PartialEq, Eq, Structural)]
pub struct Duration {
    pub nanos: i64,
}

impl Duration {
    pub fn zero() -> (d: Duration)
        ensures
            d.nanos == 0,
    {
        Duration { nanos: 0 }
    }

    /// The span of `days` days.
    pub open spec fn spec_days(days: int) -> Duration {
        Duration { nanos: (days * NANOS_PER_DAY) as i64 }
    }

    pub fn days(days: i64) -> (d: Duration)
        requires
            -MAX_DAYS <= days <= MAX_DAYS,
        ensures
            d == Duration::spec_days(days as int),
            d.nanos == days * NANOS_PER_DAY,
    {
        Duration { nanos: days * NANOS_PER_DAY }
    }

    pub fn hours(hours: i64) -> (d: Duration)
        requires
            -MAX_HOURS <= hours <= MAX_HOURS,
        ensures
            d.nanos == hours * NANOS_PER_HOUR,
    {
        Duration { nanos: hours * NANOS_PER_HOUR }
    }

    pub fn minutes(minutes: i64) -> (d: Duration)
        requires
            -MAX_MINUTES <= minutes <= MAX_MINUTES,
        ensures
            d.nanos == minutes * NANOS_PER_MINUTE,
    {
        Duration { nanos: minutes * NANOS_PER_MINUTE }
    }

    /// The two spans one after the other; `None` where that is longer than a
    /// `Duration` can hold.
    pub fn checked_add(self, other: Duration) -> (r: Option<Duration>)
        ensures
            r == if i64::MIN <= self.nanos + other.nanos <= i64::MAX {
                Some(Duration { nanos: (self.nanos + other.nanos) as i64 })
            } else {
                None
            },
    {
        match self.nanos.checked_add(other.nanos) {
            Some(nanos) => Some(Duration { nanos }),
            None => None,
        }
    }

    /// The whole days in the span, rounded towards zero.
    pub open spec fn spec_num_days(self) -> int {
        if self.nanos >= 0 {
            self.nanos as int / NANOS_PER_DAY as int
        } else {
            -((-(self.nanos as int)) / NANOS_PER_DAY as int)
        }
    }

    pub fn num_days(&self) -> (days: i64)
        ensures
            days == self.spec_num_days(),
            -MAX_DAYS <= days <= MAX_DAYS,
    {
        if self.nanos >= 0 {
            self.nanos / NANOS_PER_DAY
        } else if self.nanos == i64::MIN {
            -MAX_DAYS
        } else {
            -((-self.nanos) / NANOS_PER_DAY)
        }
    }
}

impl Duration {
    /// The lookback that a period stands for.
    pub open spec fn of_period(p: Period) -> Duration {
        match p {
            Period::Year => Duration::spec_days(365),
            Period::SemiAnnual => Duration::spec_days(180),
            Period::Quarter => Duration::spec_days(90),
            Period::Month => Duration::spec_days(30),
            Period::Week => Duration::spec_days(7),
            Period::Day => Duration::spec_days(1),
            Period::Hour => Duration { nanos: NANOS_PER_HOUR },
            Period::Minute => Duration { nanos: NANOS_PER_MINUTE },
        }
    }

    /// The lookback that a period stands for.
    pub fn from(p: Period) -> (d: Duration)
        ensures
            d == Duration::of_period(p),
    {
        match p {
            Period::Year => Duration::days(365),
            Period::SemiAnnual => Duration::days(180),
            Period::Quarter => Duration::days(90),
            Period::Month => Duration::days(30),
            Period::Week => Duration::days(7),
            Period::Day => Duration::days(1),
            Period::Hour => Duration::hours(1),
            Period::Minute => Duration::minutes(1),
        }
    }
}

} // verus!
