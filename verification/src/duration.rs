//! A span of time in whole seconds and nanoseconds.
use vstd::prelude::*;

verus! {

pub const NANOS_PER_SEC: u32 = 1_000_000_000;

/// The largest span: `u64::MAX` seconds and 999 999 999 nanoseconds, in nanoseconds.
pub open spec fn max_total_nanos() -> int {
    u64::MAX as int * 1_000_000_000 + 999_999_999
}

/// A span of time; `nanos` is always below one second.
#[derive(Debug, Clone, Copy, PartialEq, Eq, Structural)]
pub struct Duration {
    secs: u64,
    nanos: u32,
}

impl Duration {
    pub closed spec fn wf(self) -> bool {
        self.nanos < 1_000_000_000
    }

    /// The span in nanoseconds.
    pub closed spec fn total_nanos(self) -> int {
        self.secs * 1_000_000_000 + self.nanos
    }

    pub proof fn lemma_bounds(self)
        requires
            self.wf(),
        ensures
            0 <= self.total_nanos() <= max_total_nanos(),
    {
    }

    /// Two well-formed spans with the same length are the same value.
    pub proof fn lemma_unique(self, other: Duration)
        requires
            self.wf(),
            other.wf(),
            self.total_nanos() == other.total_nanos(),
        ensures
            self == other,
    {
        if self.secs < other.secs {
            assert(self.total_nanos() < other.total_nanos());
        } else if self.secs > other.secs {
            assert(self.total_nanos() > other.total_nanos());
        }
    }

    /// The empty span.
    pub fn zero() -> (d: Duration)
        ensures
            d.wf(),
            d.total_nanos() == 0,
    {
        Duration { secs: 0, nanos: 0 }
    }

    /// The largest span.
    pub fn max_value() -> (d: Duration)
        ensures
            d.wf(),
            d.total_nanos() == max_total_nanos(),
    {
        Duration { secs: u64::MAX, nanos: 999_999_999 }
    }

    /// A span of whole seconds.
    pub fn from_secs(secs: u64) -> (d: Duration)
        ensures
            d.wf(),
            d.total_nanos() == secs * 1_000_000_000,
    {
        Duration { secs, nanos: 0 }
    }

    /// A span of whole milliseconds.
    pub fn from_millis(millis: u64) -> (d: Duration)
        ensures
            d.wf(),
            d.total_nanos() == millis * 1_000_000,
    {
        let secs = millis / 1000;
        let rest = millis % 1000;
        let nanos = (rest as u32) * 1_000_000;
        Duration { secs, nanos }
    }

    /// A span from seconds and nanoseconds, the nanoseconds below one second.
    pub fn new(secs: u64, nanos: u32) -> (d: Duration)
        requires
            nanos < 1_000_000_000,
        ensures
            d.wf(),
            d.total_nanos() == secs * 1_000_000_000 + nanos,
    {
        Duration { secs, nanos }
    }

    /// Whole seconds of the span.
    pub fn as_secs(&self) -> (s: u64)
        requires
            self.wf(),
        ensures
            s == self.total_nanos() / 1_000_000_000,
    {
        self.secs
    }

    /// Nanoseconds beyond the whole seconds.
    pub fn subsec_nanos(&self) -> (n: u32)
        requires
            self.wf(),
        ensures
            n == self.total_nanos() % 1_000_000_000,
    {
        self.nanos
    }

    /// The span in nanoseconds.
    pub fn as_nanos(&self) -> (n: u128)
        requires
            self.wf(),
        ensures
            n == self.total_nanos(),
    {
        (self.secs as u128) * 1_000_000_000 + (self.nanos as u128)
    }

    /// The span in whole milliseconds.
    pub fn as_millis(&self) -> (n: u128)
        requires
            self.wf(),
        ensures
            n == self.total_nanos() / 1_000_000,
    {
        (self.secs as u128) * 1000 + ((self.nanos / 1_000_000) as u128)
    }

    /// The sum of two spans, or `None` when it exceeds the largest span.
    pub fn checked_add(self, rhs: Duration) -> (r: Option<Duration>)
        requires
            self.wf(),
            rhs.wf(),
        ensures
            match r {
                Some(d) => d.wf() && d.total_nanos() == self.total_nanos() + rhs.total_nanos(),
                None => self.total_nanos() + rhs.total_nanos() > max_total_nanos(),
            },
    {
        match self.secs.checked_add(rhs.secs) {
            Some(secs) => {
                let nanos = self.nanos + rhs.nanos;
                if nanos >= NANOS_PER_SEC {
                    match secs.checked_add(1) {
                        Some(s) => Some(Duration { secs: s, nanos: nanos - NANOS_PER_SEC }),
                        None => None,
                    }
                } else {
                    Some(Duration { secs, nanos })
                }
            },
            None => None,
        }
    }

    /// The difference of two spans, or `None` when `rhs` is the longer one.
    pub fn checked_sub(self, rhs: Duration) -> (r: Option<Duration>)
        requires
            self.wf(),
            rhs.wf(),
        ensures
            match r {
                Some(d) => d.wf() && d.total_nanos() == self.total_nanos() - rhs.total_nanos(),
                None => self.total_nanos() < rhs.total_nanos(),
            },
    {
        if self.secs < rhs.secs {
            return None;
        }
        let secs = self.secs - rhs.secs;
        if self.nanos >= rhs.nanos {
            Some(Duration { secs, nanos: self.nanos - rhs.nanos })
        } else if secs >= 1 {
            Some(Duration { secs: secs - 1, nanos: self.nanos + NANOS_PER_SEC - rhs.nanos })
        } else {
            None
        }
    }

    /// The difference of two spans, `rhs` being no longer than `self`.
    pub fn sub(self, rhs: Duration) -> (d: Duration)
        requires
            self.wf(),
            rhs.wf(),
            rhs.total_nanos() <= self.total_nanos(),
        ensures
            d.wf(),
            d.total_nanos() == self.total_nanos() - rhs.total_nanos(),
    {
        self.checked_sub(rhs).unwrap()
    }
}

/// Adding a span and subtracting it again gives the starting span back.
pub proof fn lemma_add_then_sub(a: Duration, b: Duration, sum: Duration, diff: Duration)
    requires
        a.wf(),
        b.wf(),
        sum.wf(),
        diff.wf(),
        sum.total_nanos() == a.total_nanos() + b.total_nanos(),
        diff.total_nanos() == sum.total_nanos() - b.total_nanos(),
    ensures
        diff == a,
{
    diff.lemma_unique(a);
}

/// The order of the operands does not change a sum: both orders give the same span.
pub proof fn lemma_add_commutes(a: Duration, b: Duration, ab: Duration, ba: Duration)
    requires
        ab.wf(),
        ba.wf(),
        ab.total_nanos() == a.total_nanos() + b.total_nanos(),
        ba.total_nanos() == b.total_nanos() + a.total_nanos(),
    ensures
        ab == ba,
{
    ab.lemma_unique(ba);
}

} // verus!
