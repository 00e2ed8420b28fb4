//! Points in time: a monotonic instant and the wall clock, both as spans since 1970.
use vstd::prelude::*;
use crate::datetime::{Date, DateTime, Time, date_countable, unix_seconds};
use crate::duration::Duration;

verus! {

/// A point in time of the clock that measures intervals.
#[derive(Debug, Clone, Copy, PartialEq, Eq, Structural)]
pub struct Instant(pub Duration);

/// A point of the wall clock, as the span since 1970-01-01 00:00:00.
#[derive(Debug, Clone, Copy, PartialEq, Eq, Structural)]
pub struct SystemTime(pub Duration);

/// Whether a date and time can be read as seconds since 1970 by `DateTime::to_unix`.
pub open spec fn readable_clock(date: Date, time: Time) -> bool {
    date_countable(date) && unix_seconds(DateTime { date, time }) >= 0
}

/// The wall clock at 1970-01-01 00:00:00.
pub fn unix_epoch() -> (t: SystemTime)
    ensures
        t.0.wf(),
        t.0.total_nanos() == 0,
{
    SystemTime(Duration::from_secs(0))
}

impl Instant {
    /// The instant of the given clock reading (date and time from the kernel), in whole
    /// seconds since 1970.
    pub fn now(date: Date, time: Time) -> (i: Instant)
        requires
            readable_clock(date, time),
        ensures
            i.0.wf(),
            i.0.total_nanos() == unix_seconds(DateTime { date, time }) * 1_000_000_000,
    {
        let dt = DateTime { date, time };
        let unix = dt.to_unix();
        Instant(Duration::from_secs(unix))
    }

    /// The span from `other` to `self`, or `None` when `other` is later.
    pub fn checked_sub_instant(&self, other: &Instant) -> (r: Option<Duration>)
        requires
            self.0.wf(),
            other.0.wf(),
        ensures
            match r {
                Some(d) => d.wf() && d.total_nanos() == self.0.total_nanos() - other.0.total_nanos(),
                None => self.0.total_nanos() < other.0.total_nanos(),
            },
    {
        self.0.checked_sub(other.0)
    }

    /// The instant a span later, or `None` past the largest representable one.
    pub fn checked_add_duration(&self, other: &Duration) -> (r: Option<Instant>)
        requires
            self.0.wf(),
            other.wf(),
        ensures
            match r {
                Some(i) => i.0.wf() && i.0.total_nanos() == self.0.total_nanos() + other.total_nanos(),
                None => self.0.total_nanos() + other.total_nanos() > crate::duration::max_total_nanos(),
            },
    {
        match self.0.checked_add(*other) {
            Some(d) => Some(Instant(d)),
            None => None,
        }
    }

    /// The instant a span earlier, or `None` before the earliest representable one.
    pub fn checked_sub_duration(&self, other: &Duration) -> (r: Option<Instant>)
        requires
            self.0.wf(),
            other.wf(),
        ensures
            match r {
                Some(i) => i.0.wf() && i.0.total_nanos() == self.0.total_nanos() - other.total_nanos(),
                None => self.0.total_nanos() < other.total_nanos(),
            },
    {
        match self.0.checked_sub(*other) {
            Some(d) => Some(Instant(d)),
            None => None,
        }
    }
}

impl SystemTime {
    /// The latest representable point.
    pub fn max_value() -> (t: SystemTime)
        ensures
            t.0.wf(),
            t.0.total_nanos() == crate::duration::max_total_nanos(),
    {
        SystemTime(Duration::max_value())
    }

    /// The earliest representable point, 1970-01-01 00:00:00.
    pub fn min_value() -> (t: SystemTime)
        ensures
            t.0.wf(),
            t.0.total_nanos() == 0,
    {
        SystemTime(Duration::zero())
    }

    /// The wall clock at the given reading (date and time from the kernel), in whole seconds
    /// since 1970.
    pub fn now(date: Date, time: Time) -> (t: SystemTime)
        requires
            readable_clock(date, time),
        ensures
            t.0.wf(),
            t.0.total_nanos() == unix_seconds(DateTime { date, time }) * 1_000_000_000,
    {
        let dt = DateTime { date, time };
        let unix = dt.to_unix();
        SystemTime(Duration::from_secs(unix))
    }

    /// `Ok` with the span from `other` to `self` when `self` is not earlier, else `Err`
    /// with the span from `self` to `other`.
    pub fn sub_time(&self, other: &SystemTime) -> (r: Result<Duration, Duration>)
        requires
            self.0.wf(),
            other.0.wf(),
        ensures
            match r {
                Ok(d) => d.wf() && other.0.total_nanos() <= self.0.total_nanos()
                    && d.total_nanos() == self.0.total_nanos() - other.0.total_nanos(),
                Err(d) => d.wf() && self.0.total_nanos() < other.0.total_nanos()
                    && d.total_nanos() == other.0.total_nanos() - self.0.total_nanos(),
            },
    {
        match self.0.checked_sub(other.0) {
            Some(d) => {
                proof { d.lemma_bounds(); }
                Ok(d)
            },
            None => Err(other.0.sub(self.0)),
        }
    }

    /// The point a span later, or `None` past the latest representable one.
    pub fn checked_add_duration(&self, other: &Duration) -> (r: Option<SystemTime>)
        requires
            self.0.wf(),
            other.wf(),
        ensures
            match r {
                Some(t) => t.0.wf() && t.0.total_nanos() == self.0.total_nanos() + other.total_nanos(),
                None => self.0.total_nanos() + other.total_nanos() > crate::duration::max_total_nanos(),
            },
    {
        match self.0.checked_add(*other) {
            Some(d) => Some(SystemTime(d)),
            None => None,
        }
    }

    /// The point a span earlier, or `None` before 1970.
    pub fn checked_sub_duration(&self, other: &Duration) -> (r: Option<SystemTime>)
        requires
            self.0.wf(),
            other.wf(),
        ensures
            match r {
                Some(t) => t.0.wf() && t.0.total_nanos() == self.0.total_nanos() - other.total_nanos(),
                None => self.0.total_nanos() < other.total_nanos(),
            },
    {
        match self.0.checked_sub(*other) {
            Some(d) => Some(SystemTime(d)),
            None => None,
        }
    }
}

/// A wall-clock point moved forward by a span and compared with where it started gives
/// `Ok` with that span.
pub proof fn lemma_sub_time_after_add(t: SystemTime, d: Duration, later: SystemTime, diff: Duration)
    requires
        t.0.wf(),
        d.wf(),
        later.0.wf(),
        diff.wf(),
        later.0.total_nanos() == t.0.total_nanos() + d.total_nanos(),
        diff.total_nanos() == later.0.total_nanos() - t.0.total_nanos(),
    ensures
        diff == d,
        t.0.total_nanos() <= later.0.total_nanos(),
{
    d.lemma_bounds();
    diff.lemma_unique(d);
}

} // verus!
