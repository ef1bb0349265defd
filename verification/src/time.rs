//! Spans of time and points in time, counted in whole nanoseconds.
//!
//! Both types are plain values: the clock is read elsewhere and handed in.

use vstd::prelude::*;

verus! {

/// Nanoseconds in one second.
pub const NANOS_PER_SEC: u32 = 1_000_000_000;

/// Nanoseconds in one millisecond.
pub const NANOS_PER_MILLI: u32 = 1_000_000;

/// Milliseconds in one second.
pub const MILLIS_PER_SEC: u64 = 1_000;

/// The longest span a [`Duration`] can hold, in nanoseconds.
pub open spec fn max_nanos() -> nat {
    (u64::MAX as nat) * (NANOS_PER_SEC as nat) + (NANOS_PER_SEC as nat - 1) as nat
}

/// A span of time: whole seconds and the nanoseconds of the second begun.
#[derive(Debug, Clone, Copy, PartialEq, Eq)]
pub struct Duration {
    secs: u64,
    nanos: u32,
}

impl Duration {
    /// The nanosecond part stays below one second.
    #[verifier::type_invariant]
    pub closed spec fn wf(self) -> bool {
        self.nanos < NANOS_PER_SEC
    }

    /// The whole seconds of the span.
    pub closed spec fn spec_secs(self) -> u64 {
        self.secs
    }

    /// The nanoseconds beyond the whole seconds.
    pub closed spec fn spec_subsec_nanos(self) -> u32 {
        self.nanos
    }

    /// The span in nanoseconds.
    pub open spec fn as_nanos(self) -> nat {
        (self.spec_secs() as nat) * (NANOS_PER_SEC as nat) + (self.spec_subsec_nanos() as nat)
    }

    /// A well-formed span is fixed by its length in nanoseconds.
    pub proof fn law_length_fixes_span(a: Duration, b: Duration)
        requires
            a.wf(),
            b.wf(),
            a.as_nanos() == b.as_nanos(),
        ensures
            a == b,
    {
        assert(a.secs == b.secs) by (nonlinear_arith)
            requires
                a.secs as nat * 1_000_000_000 + a.nanos as nat == b.secs as nat * 1_000_000_000
                    + b.nanos as nat,
                a.nanos < 1_000_000_000,
                b.nanos < 1_000_000_000,
        ;
    }

    /// Every well-formed span fits below the largest one.
    pub proof fn law_span_is_bounded(self)
        requires
            self.wf(),
        ensures
            self.as_nanos() <= max_nanos(),
            self.spec_subsec_nanos() < NANOS_PER_SEC,
    {
    }

    /// The span of `secs` seconds and `nanos` nanoseconds, where it fits.
    ///
    /// Nanoseconds beyond one second carry into the seconds.
    pub fn new(secs: u64, nanos: u32) -> (d: Option<Duration>)
        ensures
            match d {
                Some(d) => d.wf() && d.as_nanos() == secs as nat * 1_000_000_000 + nanos as nat,
                None => secs as nat * 1_000_000_000 + nanos as nat > max_nanos(),
            },
    {
        let carry: u64 = (nanos / NANOS_PER_SEC) as u64;
        let rest: u32 = nanos % NANOS_PER_SEC;
        if secs > u64::MAX - carry {
            None
        } else {
            Some(Duration { secs: secs + carry, nanos: rest })
        }
    }

    /// The empty span.
    pub fn zero() -> (d: Duration)
        ensures
            d.wf(),
            d.as_nanos() == 0,
    {
        Duration { secs: 0, nanos: 0 }
    }

    /// A span of `secs` whole seconds.
    pub fn from_secs(secs: u64) -> (d: Duration)
        ensures
            d.wf(),
            d.as_nanos() == secs as nat * 1_000_000_000,
    {
        Duration { secs, nanos: 0 }
    }

    /// A span of `millis` milliseconds.
    pub fn from_millis(millis: u64) -> (d: Duration)
        ensures
            d.wf(),
            d.as_nanos() == millis as nat * 1_000_000,
    {
        let secs: u64 = millis / MILLIS_PER_SEC;
        let rest: u32 = (millis % MILLIS_PER_SEC) as u32;
        Duration { secs, nanos: rest * NANOS_PER_MILLI }
    }

    /// The whole seconds of the span.
    pub fn as_secs(&self) -> (secs: u64)
        ensures
            secs == self.spec_secs(),
            secs as nat == self.as_nanos() / 1_000_000_000,
    {
        proof {
            use_type_invariant(self);
        }
        self.secs
    }

    /// The nanoseconds beyond the whole seconds.
    pub fn subsec_nanos(&self) -> (nanos: u32)
        ensures
            nanos == self.spec_subsec_nanos(),
            nanos < NANOS_PER_SEC,
            nanos as nat == self.as_nanos() % 1_000_000_000,
    {
        proof {
            use_type_invariant(self);
        }
        self.nanos
    }

    /// Whether this span is strictly shorter than `other`.
    pub fn shorter_than(&self, other: &Duration) -> (b: bool)
        ensures
            b == (self.as_nanos() < other.as_nanos()),
    {
        proof {
            use_type_invariant(self);
            use_type_invariant(other);
        }
        self.secs < other.secs || (self.secs == other.secs && self.nanos < other.nanos)
    }

    /// Whether this span is strictly longer than `other`.
    pub fn longer_than(&self, other: &Duration) -> (b: bool)
        ensures
            b == (self.as_nanos() > other.as_nanos()),
    {
        other.shorter_than(self)
    }

    /// What is left of this span after taking `other` away: nothing where
    /// `other` is the longer one.
    pub fn checked_sub(&self, other: &Duration) -> (d: Option<Duration>)
        ensures
            match d {
                Some(d) => d.wf() && self.as_nanos() >= other.as_nanos() && d.as_nanos()
                    == self.as_nanos() - other.as_nanos(),
                None => self.as_nanos() < other.as_nanos(),
            },
    {
        proof {
            use_type_invariant(self);
            use_type_invariant(other);
        }
        if self.shorter_than(other) {
            None
        } else if self.nanos >= other.nanos {
            Some(Duration { secs: self.secs - other.secs, nanos: self.nanos - other.nanos })
        } else {
            Some(
                Duration {
                    secs: self.secs - other.secs - 1,
                    nanos: self.nanos + (NANOS_PER_SEC - other.nanos),
                },
            )
        }
    }
}

/// A point in time, as the span since the Unix epoch.
#[derive(Debug, Clone, Copy, PartialEq, Eq)]
pub struct Timestamp {
    since_epoch: Duration,
}

impl Timestamp {
    /// The span from the Unix epoch to this point.
    pub closed spec fn spec_since_epoch(self) -> Duration {
        self.since_epoch
    }

    /// The point in nanoseconds since the Unix epoch.
    pub open spec fn as_nanos(self) -> nat {
        self.spec_since_epoch().as_nanos()
    }

    /// Whether the span since the epoch is a well-formed one.
    pub open spec fn wf(self) -> bool {
        self.spec_since_epoch().wf()
    }

    /// The point that lies `since_epoch` after the Unix epoch.
    pub fn from_epoch(since_epoch: Duration) -> (t: Timestamp)
        ensures
            t.spec_since_epoch() == since_epoch,
    {
        Timestamp { since_epoch }
    }

    /// The span from the Unix epoch to this point.
    pub fn since_epoch(&self) -> (d: Duration)
        ensures
            d == self.spec_since_epoch(),
            d.wf(),
    {
        proof {
            use_type_invariant(&self.since_epoch);
        }
        self.since_epoch
    }

    /// The time that passed from `earlier` to this point: none where
    /// `earlier` lies after this point.
    pub fn duration_since(&self, earlier: &Timestamp) -> (d: Option<Duration>)
        ensures
            match d {
                Some(d) => d.wf() && self.as_nanos() >= earlier.as_nanos() && d.as_nanos()
                    == self.as_nanos() - earlier.as_nanos(),
                None => self.as_nanos() < earlier.as_nanos(),
            },
    {
        self.since_epoch.checked_sub(&earlier.since_epoch)
    }
}

} // verus!
