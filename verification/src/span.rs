//! Spans of time, as whole seconds and nanoseconds.

use vstd::prelude::*;

verus! {

/// A span of time.
#[derive(Debug, Clone, Copy, PartialEq, Eq, Structural)]
pub struct TimeSpan {
    pub secs: u64,
    pub nanos: u32,
}

impl TimeSpan {
    /// The span in nanoseconds.
    pub open spec fn total_nanos(&self) -> nat {
        (self.secs as nat) * 1_000_000_000 + (self.nanos as nat)
    }

    /// Whether the span is longer than `limit` whole seconds.
    pub open spec fn spec_exceeds_secs(&self, limit: u64) -> bool {
        self.total_nanos() > (limit as nat) * 1_000_000_000
    }

    /// Whether the span is shorter than `other`.
    pub open spec fn spec_less_than(&self, other: TimeSpan) -> bool {
        self.total_nanos() < other.total_nanos()
    }

    /// The span of so many whole seconds.
    pub fn from_secs(secs: u64) -> (t: Self)
        ensures
            t.total_nanos() == (secs as nat) * 1_000_000_000,
            t.nanos == 0 && t.secs == secs,
    {
        TimeSpan { secs, nanos: 0 }
    }

    /// The span of so many milliseconds.
    pub fn from_millis(millis: u64) -> (t: Self)
        ensures
            t.total_nanos() == (millis as nat) * 1_000_000,
            t.nanos < 1_000_000_000,
    {
        let rest: u64 = millis % 1000;
        let t = TimeSpan { secs: millis / 1000, nanos: (rest * 1_000_000) as u32 };
        proof {
            assert(t.total_nanos() == (millis as nat) * 1_000_000) by (nonlinear_arith)
                requires
                    t.secs == millis / 1000,
                    t.nanos == (millis % 1000) * 1_000_000,
                    t.total_nanos() == (t.secs as nat) * 1_000_000_000 + (t.nanos as nat),
            ;
        }
        t
    }

    /// The whole seconds of the span.
    pub fn as_secs(&self) -> (s: u64)
        ensures
            s == self.secs,
    {
        self.secs
    }

    /// Whether the span is longer than `limit` whole seconds.
    pub fn exceeds_secs(&self, limit: u64) -> (b: bool)
        ensures
            b == self.spec_exceeds_secs(limit),
    {
        proof {
            assert(self.spec_exceeds_secs(limit) == (self.secs > limit || (self.secs == limit
                && self.nanos > 0) || (self.secs < limit && (self.nanos as nat) > ((limit
                - self.secs) as nat) * 1_000_000_000))) by (nonlinear_arith)
                requires
                    self.spec_exceeds_secs(limit) == ((self.secs as nat) * 1_000_000_000 + (
                    self.nanos as nat) > (limit as nat) * 1_000_000_000),
            ;
        }
        if self.secs > limit {
            true
        } else if self.secs == limit {
            self.nanos > 0
        } else {
            let gap: u64 = limit - self.secs;
            // A gap of five seconds or more is beyond what the nanoseconds can bridge.
            gap < 5 && (self.nanos as u64) > gap * 1_000_000_000
        }
    }

    /// Whether the span is shorter than `other`.
    pub fn less_than(&self, other: &TimeSpan) -> (b: bool)
        ensures
            b == self.spec_less_than(*other),
    {
        let a: u128 = (self.secs as u128) * 1_000_000_000 + (self.nanos as u128);
        let b: u128 = (other.secs as u128) * 1_000_000_000 + (other.nanos as u128);
        a < b
    }

    /// The span in nanoseconds.
    pub fn as_nanos(&self) -> (n: u128)
        ensures
            n == self.total_nanos(),
    {
        (self.secs as u128) * 1_000_000_000 + (self.nanos as u128)
    }
}

} // verus!
