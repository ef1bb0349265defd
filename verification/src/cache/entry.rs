//! The record kept for one key, and when it counts as stale.

use crate::text::same_text;
use crate::time::{Duration, Timestamp};
use vstd::prelude::*;

verus! {

/// What is stored for one key.
#[derive(Debug, Clone, PartialEq, Eq)]
pub struct Entry {
    /// The caller's fingerprint of the inputs that produced `data`.
    pub checksum: String,
    /// When the entry was written.
    pub modified: Timestamp,
    /// The cached payload.
    pub data: String,
}

/// How an entry stands against the current inputs and the clock.
#[derive(Debug, Clone, Copy, PartialEq, Eq)]
pub enum Freshness {
    /// Same inputs, and written no longer ago than the time to live.
    Fresh,
    /// Other inputs, or written longer ago than the time to live.
    Stale,
    /// Same inputs, but written at a time the clock has not reached yet.
    Skewed,
}

impl Entry {
    /// The entry was computed from the inputs that `checksum` stands for.
    pub open spec fn matches(self, checksum: Seq<char>) -> bool {
        self.checksum@ == checksum
    }

    /// The entry was written after `now`.
    pub open spec fn skewed(self, now: Timestamp) -> bool {
        now.as_nanos() < self.modified.as_nanos()
    }

    /// The entry was written more than `ttl` before `now`.
    pub open spec fn expired(self, now: Timestamp, ttl: Duration) -> bool {
        now.as_nanos() - self.modified.as_nanos() > ttl.as_nanos()
    }

    /// How the entry stands: a change of inputs makes it stale whatever the
    /// clock says; with the same inputs its age decides, and an age below
    /// zero is reported, not read as zero.
    pub open spec fn freshness(self, checksum: Seq<char>, now: Timestamp, ttl: Duration) -> Freshness {
        if !self.matches(checksum) {
            Freshness::Stale
        } else if self.skewed(now) {
            Freshness::Skewed
        } else if self.expired(now, ttl) {
            Freshness::Stale
        } else {
            Freshness::Fresh
        }
    }

    /// An entry of the given parts.
    pub fn new(checksum: String, modified: Timestamp, data: String) -> (entry: Entry)
        ensures
            entry.checksum == checksum,
            entry.modified == modified,
            entry.data == data,
    {
        Entry { checksum, modified, data }
    }

    /// Whether the entry was computed from the inputs that `checksum` stands for.
    pub fn checksum_matches(&self, checksum: &str) -> (same: bool)
        ensures
            same == self.matches(checksum@),
    {
        same_text(self.checksum.as_str(), checksum)
    }

    /// The time from the writing of the entry to `now`: none where the entry
    /// was written after `now`.
    pub fn age(&self, now: &Timestamp) -> (age: Option<Duration>)
        ensures
            match age {
                Some(d) => !self.skewed(*now) && d.wf() && d.as_nanos() == now.as_nanos()
                    - self.modified.as_nanos(),
                None => self.skewed(*now),
            },
    {
        now.duration_since(&self.modified)
    }

    /// How the entry stands against `checksum` at `now` under `ttl`.
    pub fn check(&self, checksum: &str, now: &Timestamp, ttl: &Duration) -> (f: Freshness)
        ensures
            f == self.freshness(checksum@, *now, *ttl),
    {
        if !self.checksum_matches(checksum) {
            Freshness::Stale
        } else {
            match self.age(now) {
                None => Freshness::Skewed,
                Some(age) => if age.longer_than(ttl) {
                    Freshness::Stale
                } else {
                    Freshness::Fresh
                },
            }
        }
    }
}

} // verus!
