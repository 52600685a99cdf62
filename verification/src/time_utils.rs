//! Clock access and plain time arithmetic.
//!
//! The only effectful items here are the two `now` wrappers; everything
//! that computes on timestamps takes them as plain values.

use vstd::prelude::*;

verus! {

pub const SECONDS_PER_MINUTE: i64 = 60;

pub const SECONDS_PER_HOUR: i64 = 3600;

pub const SECONDS_PER_DAY: i64 = 86400;

pub const SECONDS_PER_WEEK: i64 = 604800;

pub struct TimeUtils;

impl TimeUtils {
    /// Relies on `chrono::Utc::now` and `DateTime::timestamp`: the current
    /// UTC Unix timestamp in whole seconds.  The value depends on the
    /// clock, so nothing is promised of it.
    #[verifier::external_body]
    pub fn now_timestamp() -> i64 {
        chrono::Utc::now().timestamp()
    }

    /// The absolute difference between two timestamps, in seconds.
    pub fn diff_seconds(time1: i64, time2: i64) -> (r: i64)
        requires
            i64::MIN < time1 - time2 <= i64::MAX,
        ensures
            r == if time1 >= time2 { time1 - time2 } else { time2 - time1 },
    {
        let d = time1 - time2;
        if d >= 0 { d } else { -d }
    }

    /// Whether `time` lies in the closed interval `[start, end]`.
    pub fn is_within_range(time: i64, start: i64, end: i64) -> (r: bool)
        ensures
            r == (start <= time && time <= end),
    {
        time >= start && time <= end
    }
}

/// A named aggregation window.
#[derive(Debug, Clone, Copy, PartialEq, Eq, Structural)]
pub enum TimePeriod {
    OneMinute,
    FiveMinutes,
    OneHour,
    SixHours,
    TwentyFourHours,
}

impl TimePeriod {
    pub open spec fn spec_seconds(self) -> i64 {
        match self {
            TimePeriod::OneMinute => 60,
            TimePeriod::FiveMinutes => 300,
            TimePeriod::OneHour => 3600,
            TimePeriod::SixHours => 21600,
            TimePeriod::TwentyFourHours => 86400,
        }
    }

    pub open spec fn spec_label(self) -> Seq<char> {
        match self {
            TimePeriod::OneMinute => "1m"@,
            TimePeriod::FiveMinutes => "5m"@,
            TimePeriod::OneHour => "1h"@,
            TimePeriod::SixHours => "6h"@,
            TimePeriod::TwentyFourHours => "24h"@,
        }
    }

    pub fn to_seconds(&self) -> (r: i64)
        ensures
            r == self.spec_seconds(),
    {
        match self {
            TimePeriod::OneMinute => 60,
            TimePeriod::FiveMinutes => 300,
            TimePeriod::OneHour => 3600,
            TimePeriod::SixHours => 21600,
            TimePeriod::TwentyFourHours => 86400,
        }
    }

    pub fn to_string(&self) -> (r: &'static str)
        ensures
            r@ == self.spec_label(),
    {
        match self {
            TimePeriod::OneMinute => "1m",
            TimePeriod::FiveMinutes => "5m",
            TimePeriod::OneHour => "1h",
            TimePeriod::SixHours => "6h",
            TimePeriod::TwentyFourHours => "24h",
        }
    }
}

} // verus!
