//! Loading a key: answer with what is stored, have it refreshed where it is
//! stale, and wait a bounded time where nothing is stored yet.
//!
//! A [`Load`] is the state of one such call. It names the outside step that
//! is due ([`Load::action`]) and moves on when told how the step went
//! ([`Load::step`]). Whoever drives it reads the file, reads the clocks,
//! spawns the refresh and sleeps; every decision is taken here.

use crate::cache::entry::{Entry, Freshness};
use crate::cache::paths::Layout;
use crate::cache::refresh::Refresh;
use crate::time::{Duration, Timestamp};
use vstd::prelude::*;

verus! {

/// Raised when the cache is not populated within the poll duration.
#[derive(Debug, Clone, Copy, PartialEq, Eq)]
#[non_exhaustive]
pub struct TimeoutError {}

impl TimeoutError {
    /// The error of a wait that came to nothing.
    pub fn new() -> (error: TimeoutError)
        ensures
            error == (TimeoutError {  }),
    {
        TimeoutError {  }
    }

    /// The words that describe the error.
    pub fn message(&self) -> (text: String)
        ensures
            text@ == "timeout waiting for cached data"@,
    {
        "timeout waiting for cached data".to_owned()
    }
}

/// Why a load gave no payload.
#[derive(Debug, Clone, Copy, PartialEq, Eq)]
pub enum LoadError {
    /// The entry file is there but could not be read.
    Io,
    /// The entry file does not hold an entry.
    Deserialize,
    /// The entry was written at a time the clock has not reached yet.
    ClockSkew,
    /// Nothing was stored, and nothing came within the poll duration.
    Timeout(TimeoutError),
    /// The detached refresh could not be started.
    Spawn,
}

/// The times that rule a load.
#[derive(Debug, Clone, Copy, PartialEq, Eq)]
pub struct Policy {
    /// How old an entry may be before it is refreshed.
    pub ttl: Duration,
    /// How long to sleep between two looks for a missing entry.
    pub poll_interval: Duration,
    /// How long to go on looking for a missing entry.
    pub poll_duration: Duration,
}

/// What reading the entry file gave.
#[derive(Debug, Clone, PartialEq, Eq)]
pub enum ReadOutcome {
    /// The file holds this entry.
    Found(Entry),
    /// There is no such file.
    Missing,
    /// The file is there and does not hold an entry.
    Malformed,
    /// The file could not be read, for another reason than its absence.
    Failed,
}

/// How an outside step went.
#[derive(Debug, Clone, PartialEq, Eq)]
pub enum Event {
    /// The entry file was read.
    Read(ReadOutcome),
    /// The wall clock was read.
    Clock(Timestamp),
    /// The detached refresh was started, or could not be.
    Spawned(bool),
    /// The time that has passed since the refresh was started.
    Waited(Duration),
    /// The sleep is over.
    Slept,
}

/// The outside step that is due.
#[derive(Debug, Clone, PartialEq, Eq)]
pub enum Action {
    /// Read the entry file and report [`Event::Read`].
    ReadEntry,
    /// Read the wall clock and report [`Event::Clock`].
    ReadClock,
    /// Start a detached refresh and report [`Event::Spawned`].
    SpawnRefresh,
    /// Report, as [`Event::Waited`], the time since the refresh was started.
    MeasureWait,
    /// Sleep this long and report [`Event::Slept`].
    Sleep(Duration),
    /// The load is over: hand this payload to the caller.
    Return(String),
    /// The load is over: hand this error to the caller.
    Fail(LoadError),
}

/// Where a load stands.
#[derive(Debug, Clone, PartialEq, Eq)]
pub enum Phase {
    /// The first look at the entry file is due.
    Reading,
    /// An entry of the current inputs was found; its age is to be taken.
    Timing(Entry),
    /// A stale entry was found; its refresh is to be started, and then its
    /// payload returned.
    Refreshing(String),
    /// No entry was found; its computation is to be started.
    Starting,
    /// No entry yet; the time spent waiting is to be taken.
    Measuring,
    /// No entry yet, and time is left: a sleep is due.
    Sleeping,
    /// The sleep is over: another look at the entry file is due.
    Polling,
    /// Over, with this payload.
    Returned(String),
    /// Over, with this error.
    Failed(LoadError),
}

/// One call for the payload of one key.
#[derive(Debug, Clone, PartialEq, Eq)]
pub struct Load {
    /// The times that rule this load.
    pub policy: Policy,
    /// The fingerprint of the caller's current inputs.
    pub checksum: String,
    /// The paths of the key.
    pub layout: Layout,
    /// Where the load stands.
    pub phase: Phase,
}

impl Phase {
    /// The load has ended.
    pub open spec fn is_over(self) -> bool {
        self is Returned || self is Failed
    }

    /// The load is on the way that is taken where no entry was found.
    pub open spec fn is_cold(self) -> bool {
        self is Starting || self is Measuring || self is Sleeping || self is Polling
    }
}

impl Load {
    /// A load that has not looked at anything yet.
    pub open spec fn fresh(policy: Policy, checksum: String, layout: Layout) -> Load {
        Load { policy, checksum, layout, phase: Phase::Reading }
    }

    /// This load in another phase.
    pub open spec fn at(self, phase: Phase) -> Load {
        Load { phase, ..self }
    }

    /// The outside step that is due.
    pub open spec fn pending(self) -> Action {
        match self.phase {
            Phase::Reading => Action::ReadEntry,
            Phase::Timing(_) => Action::ReadClock,
            Phase::Refreshing(_) => Action::SpawnRefresh,
            Phase::Starting => Action::SpawnRefresh,
            Phase::Measuring => Action::MeasureWait,
            Phase::Sleeping => Action::Sleep(self.policy.poll_interval),
            Phase::Polling => Action::ReadEntry,
            Phase::Returned(data) => Action::Return(data),
            Phase::Failed(error) => Action::Fail(error),
        }
    }

    /// The phase that follows the first look at the entry file.
    ///
    /// An entry of other inputs is served and refreshed without a look at
    /// the clock. A missing file starts the computation. A file that cannot
    /// be read, or holds no entry, ends the load.
    pub open spec fn after_first_read(self, outcome: ReadOutcome) -> Phase {
        match outcome {
            ReadOutcome::Found(entry) => if entry.matches(self.checksum@) {
                Phase::Timing(entry)
            } else {
                Phase::Refreshing(entry.data)
            },
            ReadOutcome::Missing => Phase::Starting,
            ReadOutcome::Malformed => Phase::Failed(LoadError::Deserialize),
            ReadOutcome::Failed => Phase::Failed(LoadError::Io),
        }
    }

    /// The phase that follows the look at the clock, for an entry of the
    /// current inputs.
    pub open spec fn after_clock(self, entry: Entry, now: Timestamp) -> Phase {
        match entry.freshness(self.checksum@, now, self.policy.ttl) {
            Freshness::Fresh => Phase::Returned(entry.data),
            Freshness::Stale => Phase::Refreshing(entry.data),
            Freshness::Skewed => Phase::Failed(LoadError::ClockSkew),
        }
    }

    /// The phase that follows a look at the entry file after a sleep.
    ///
    /// Whatever entry is there is returned. A file that holds no entry ends
    /// the load; one that is missing or cannot be read is looked at again.
    pub open spec fn after_poll(self, outcome: ReadOutcome) -> Phase {
        match outcome {
            ReadOutcome::Found(entry) => Phase::Returned(entry.data),
            ReadOutcome::Malformed => Phase::Failed(LoadError::Deserialize),
            ReadOutcome::Missing => Phase::Measuring,
            ReadOutcome::Failed => Phase::Measuring,
        }
    }

    /// The phase that follows `event`. An event that does not answer the
    /// step that is due changes nothing.
    pub open spec fn next_phase(self, event: Event) -> Phase {
        match (self.phase, event) {
            (Phase::Reading, Event::Read(outcome)) => self.after_first_read(outcome),
            (Phase::Timing(entry), Event::Clock(now)) => self.after_clock(entry, now),
            (Phase::Refreshing(data), Event::Spawned(started)) => if started {
                Phase::Returned(data)
            } else {
                Phase::Failed(LoadError::Spawn)
            },
            (Phase::Starting, Event::Spawned(started)) => if started {
                Phase::Measuring
            } else {
                Phase::Failed(LoadError::Spawn)
            },
            (Phase::Measuring, Event::Waited(waited)) => if waited.as_nanos()
                < self.policy.poll_duration.as_nanos() {
                Phase::Sleeping
            } else {
                Phase::Failed(LoadError::Timeout(TimeoutError {  }))
            },
            (Phase::Sleeping, Event::Slept) => Phase::Polling,
            (Phase::Polling, Event::Read(outcome)) => self.after_poll(outcome),
            (phase, _) => phase,
        }
    }

    /// The load after `event`.
    pub open spec fn step_spec(self, event: Event) -> Load {
        self.at(self.next_phase(event))
    }

    /// The load after the `events`, taken in their order.
    pub open spec fn run(self, events: Seq<Event>) -> Load
        decreases events.len(),
    {
        if events.len() == 0 {
            self
        } else {
            self.step_spec(events[0]).run(events.drop_first())
        }
    }

    /// The steps that the load asks for while it is told the `events`: the
    /// one that is due now, then the one due after each event.
    pub open spec fn asked(self, events: Seq<Event>) -> Seq<Action>
        decreases events.len(),
    {
        if events.len() == 0 {
            seq![self.pending()]
        } else {
            seq![self.pending()] + self.step_spec(events[0]).asked(events.drop_first())
        }
    }

    /// The load after looking for a missing entry in vain, once for each of
    /// the `waits`: the time waited is measured, a sleep follows where one
    /// is asked for, and the file is still missing.
    pub open spec fn after_rounds(self, waits: Seq<Duration>) -> Load
        decreases waits.len(),
    {
        if waits.len() == 0 {
            self
        } else {
            self.after_rounds(waits.drop_last()).step_spec(Event::Waited(waits.last())).step_spec(
                Event::Slept,
            ).step_spec(Event::Read(ReadOutcome::Missing))
        }
    }

    /// A load of the key laid out in `layout`, for a caller whose inputs
    /// have the fingerprint `checksum`.
    pub fn new(policy: Policy, checksum: String, layout: Layout) -> (load: Load)
        ensures
            load == Load::fresh(policy, checksum, layout),
    {
        Load { policy, checksum, layout, phase: Phase::Reading }
    }

    /// The outside step that is due.
    pub fn action(&self) -> (action: Action)
        ensures
            action == self.pending(),
    {
        match &self.phase {
            Phase::Reading => Action::ReadEntry,
            Phase::Timing(_) => Action::ReadClock,
            Phase::Refreshing(_) => Action::SpawnRefresh,
            Phase::Starting => Action::SpawnRefresh,
            Phase::Measuring => Action::MeasureWait,
            Phase::Sleeping => Action::Sleep(self.policy.poll_interval),
            Phase::Polling => Action::ReadEntry,
            Phase::Returned(data) => Action::Return(data.clone()),
            Phase::Failed(error) => Action::Fail(*error),
        }
    }

    /// The refresh to run in the detached process where
    /// [`Action::SpawnRefresh`] is due: one of the key of this load, from
    /// the inputs of this load.
    pub fn refresh(&self) -> (refresh: Refresh)
        ensures
            refresh == Refresh::fresh(self.checksum, self.layout),
    {
        Refresh::new(
            self.checksum.clone(),
            Layout {
                directory: self.layout.directory.clone(),
                entry: self.layout.entry.clone(),
                staging: self.layout.staging.clone(),
            },
        )
    }

    /// Whether the load has ended.
    pub fn is_over(&self) -> (over: bool)
        ensures
            over == self.phase.is_over(),
    {
        match &self.phase {
            Phase::Returned(_) => true,
            Phase::Failed(_) => true,
            _ => false,
        }
    }

    /// Moves on by one event.
    pub fn step(self, event: Event) -> (next: Load)
        ensures
            next == self.step_spec(event),
    {
        let Load { policy, checksum, layout, phase } = self;
        let phase = match (phase, event) {
            (Phase::Reading, Event::Read(outcome)) => match outcome {
                ReadOutcome::Found(entry) => if entry.checksum_matches(checksum.as_str()) {
                    Phase::Timing(entry)
                } else {
                    Phase::Refreshing(entry.data)
                },
                ReadOutcome::Missing => Phase::Starting,
                ReadOutcome::Malformed => Phase::Failed(LoadError::Deserialize),
                ReadOutcome::Failed => Phase::Failed(LoadError::Io),
            },
            (Phase::Timing(entry), Event::Clock(now)) => match entry.check(
                checksum.as_str(),
                &now,
                &policy.ttl,
            ) {
                Freshness::Fresh => Phase::Returned(entry.data),
                Freshness::Stale => Phase::Refreshing(entry.data),
                Freshness::Skewed => Phase::Failed(LoadError::ClockSkew),
            },
            (Phase::Refreshing(data), Event::Spawned(started)) => if started {
                Phase::Returned(data)
            } else {
                Phase::Failed(LoadError::Spawn)
            },
            (Phase::Starting, Event::Spawned(started)) => if started {
                Phase::Measuring
            } else {
                Phase::Failed(LoadError::Spawn)
            },
            (Phase::Measuring, Event::Waited(waited)) => if waited.shorter_than(
                &policy.poll_duration,
            ) {
                Phase::Sleeping
            } else {
                Phase::Failed(LoadError::Timeout(TimeoutError {  }))
            },
            (Phase::Sleeping, Event::Slept) => Phase::Polling,
            (Phase::Polling, Event::Read(outcome)) => match outcome {
                ReadOutcome::Found(entry) => Phase::Returned(entry.data),
                ReadOutcome::Malformed => Phase::Failed(LoadError::Deserialize),
                ReadOutcome::Missing => Phase::Measuring,
                ReadOutcome::Failed => Phase::Measuring,
            },
            (phase, _) => phase,
        };
        Load { policy, checksum, layout, phase }
    }

    /// An entry of the current inputs that is no older than the time to live
    /// is returned as it is: the file and the clock are read, and nothing
    /// else is asked for, neither a refresh nor a sleep.
    pub proof fn law_fresh_entry_is_served_as_is(self, entry: Entry, now: Timestamp)
        requires
            self.phase is Reading,
            entry.freshness(self.checksum@, now, self.policy.ttl) is Fresh,
        ensures
            self.asked(seq![Event::Read(ReadOutcome::Found(entry)), Event::Clock(now)]) == seq![
                Action::ReadEntry,
                Action::ReadClock,
                Action::Return(entry.data),
            ],
    {
        let events = seq![Event::Read(ReadOutcome::Found(entry)), Event::Clock(now)];
        let second = self.step_spec(events[0]);
        let third = second.step_spec(events[1]);
        assert(events.drop_first() =~= seq![Event::Clock(now)]);
        assert(events.drop_first().drop_first() =~= Seq::<Event>::empty());
        assert(third.asked(Seq::<Event>::empty()) == seq![third.pending()]);
        assert(second.asked(events.drop_first()) == seq![second.pending()] + third.asked(
            events.drop_first().drop_first(),
        ));
        assert(self.asked(events) =~= seq![
            Action::ReadEntry,
            Action::ReadClock,
            Action::Return(entry.data),
        ]);
    }

    /// An entry of other inputs is returned at once, whatever its age and
    /// whatever the clock says, and its refresh is started first: no sleep
    /// is asked for.
    pub proof fn law_changed_inputs_serve_old_and_refresh(self, entry: Entry)
        requires
            self.phase is Reading,
            !entry.matches(self.checksum@),
        ensures
            self.asked(seq![Event::Read(ReadOutcome::Found(entry)), Event::Spawned(true)]) == seq![
                Action::ReadEntry,
                Action::SpawnRefresh,
                Action::Return(entry.data),
            ],
    {
        let events = seq![Event::Read(ReadOutcome::Found(entry)), Event::Spawned(true)];
        let second = self.step_spec(events[0]);
        let third = second.step_spec(events[1]);
        assert(events.drop_first() =~= seq![Event::Spawned(true)]);
        assert(events.drop_first().drop_first() =~= Seq::<Event>::empty());
        assert(third.asked(Seq::<Event>::empty()) == seq![third.pending()]);
        assert(second.asked(events.drop_first()) == seq![second.pending()] + third.asked(
            events.drop_first().drop_first(),
        ));
        assert(self.asked(events) =~= seq![
            Action::ReadEntry,
            Action::SpawnRefresh,
            Action::Return(entry.data),
        ]);
    }

    /// An entry of the current inputs that is older than the time to live is
    /// returned at once, and its refresh is started first: no sleep is asked
    /// for.
    pub proof fn law_expired_entry_serves_old_and_refreshes(
        self,
        entry: Entry,
        now: Timestamp,
    )
        requires
            self.phase is Reading,
            entry.matches(self.checksum@),
            entry.expired(now, self.policy.ttl),
        ensures
            self.asked(
                seq![
                    Event::Read(ReadOutcome::Found(entry)),
                    Event::Clock(now),
                    Event::Spawned(true),
                ],
            ) == seq![
                Action::ReadEntry,
                Action::ReadClock,
                Action::SpawnRefresh,
                Action::Return(entry.data),
            ],
    {
        let events = seq![
            Event::Read(ReadOutcome::Found(entry)),
            Event::Clock(now),
            Event::Spawned(true),
        ];
        let second = self.step_spec(events[0]);
        let third = second.step_spec(events[1]);
        let fourth = third.step_spec(events[2]);
        let rest1 = events.drop_first();
        let rest2 = rest1.drop_first();
        assert(rest1 =~= seq![Event::Clock(now), Event::Spawned(true)]);
        assert(rest2 =~= seq![Event::Spawned(true)]);
        assert(rest2.drop_first() =~= Seq::<Event>::empty());
        assert(fourth.asked(Seq::<Event>::empty()) == seq![fourth.pending()]);
        assert(third.asked(rest2) == seq![third.pending()] + fourth.asked(rest2.drop_first()));
        assert(second.asked(rest1) == seq![second.pending()] + third.asked(rest2));
        assert(self.asked(events) =~= seq![
            Action::ReadEntry,
            Action::ReadClock,
            Action::SpawnRefresh,
            Action::Return(entry.data),
        ]);
    }

    /// A load that has ended stays as it is, whatever it is told.
    pub proof fn law_end_is_final(self, events: Seq<Event>)
        requires
            self.phase.is_over(),
        ensures
            self.run(events) == self,
        decreases events.len(),
    {
        if events.len() > 0 {
            assert(self.step_spec(events[0]) == self);
            self.law_end_is_final(events.drop_first());
        }
    }

    /// Once an entry has been found, the load never waits: whatever it is
    /// told from there on, neither a sleep nor a look at the time waited is
    /// asked for, and the file is not read again.
    pub proof fn law_found_entry_never_waits(self, entry: Entry, events: Seq<Event>)
        requires
            self.phase is Reading,
        ensures
            ({
                let end = self.step_spec(Event::Read(ReadOutcome::Found(entry))).run(events);
                end.phase is Timing || end.phase is Refreshing || end.phase is Returned
                    || end.phase is Failed
            }),
    {
        self.step_spec(Event::Read(ReadOutcome::Found(entry))).lemma_warm_stays_warm(events);
    }

    /// The phases of a found entry lead only to each other.
    proof fn lemma_warm_stays_warm(self, events: Seq<Event>)
        requires
            self.phase is Timing || self.phase is Refreshing || self.phase is Returned
                || self.phase is Failed,
        ensures
            ({
                let end = self.run(events);
                end.phase is Timing || end.phase is Refreshing || end.phase is Returned
                    || end.phase is Failed
            }),
        decreases events.len(),
    {
        if events.len() > 0 {
            self.step_spec(events[0]).lemma_warm_stays_warm(events.drop_first());
        }
    }

    /// Where nothing is stored, a load ends in a payload or in `Timeout`,
    /// unless the refresh cannot be started or a file turns up that holds no
    /// entry. No other error comes that way, and no look at the wall clock.
    pub proof fn law_cold_load_ends_in_payload_or_timeout(self, events: Seq<Event>)
        requires
            self.phase.is_cold(),
            forall|i: int|
                0 <= i < events.len() ==> #[trigger] events[i] != Event::Spawned(false)
                    && events[i] != Event::Read(ReadOutcome::Malformed),
        ensures
            ({
                let end = self.run(events);
                ||| end.phase.is_cold()
                ||| end.phase is Returned
                ||| end.phase == Phase::Failed(LoadError::Timeout(TimeoutError {  }))
            }),
        decreases events.len(),
    {
        if events.len() > 0 {
            let next = self.step_spec(events[0]);
            let rest = events.drop_first();
            assert(events[0] != Event::Spawned(false));
            assert(events[0] != Event::Read(ReadOutcome::Malformed));
            assert forall|i: int| 0 <= i < rest.len() implies #[trigger] rest[i] != Event::Spawned(
                false,
            ) && rest[i] != Event::Read(ReadOutcome::Malformed) by {
                assert(rest[i] == events[i + 1]);
            }
            if next.phase.is_over() {
                next.law_end_is_final(rest);
            } else {
                next.law_cold_load_ends_in_payload_or_timeout(rest);
            }
        }
    }

    /// The wait for a missing entry is bounded: a sleep is asked for only
    /// while the time waited is below the poll duration, it lasts one poll
    /// interval, and from the poll duration on the load ends in `Timeout`.
    pub proof fn law_wait_is_bounded(self, waited: Duration)
        requires
            self.phase is Measuring,
        ensures
            waited.as_nanos() < self.policy.poll_duration.as_nanos() ==> self.step_spec(
                Event::Waited(waited),
            ).pending() == Action::Sleep(self.policy.poll_interval),
            waited.as_nanos() >= self.policy.poll_duration.as_nanos() ==> self.step_spec(
                Event::Waited(waited),
            ).pending() == Action::Fail(LoadError::Timeout(TimeoutError {  })),
    {
    }

    /// A sleep is never asked for out of the blue: the step before it was a
    /// look at the time waited, and that time was below the poll duration.
    pub proof fn law_sleep_follows_measure(self, event: Event)
        requires
            !(self.phase is Sleeping),
            self.step_spec(event).phase is Sleeping,
        ensures
            self.phase is Measuring,
            event is Waited,
            event->Waited_0.as_nanos() < self.policy.poll_duration.as_nanos(),
    {
    }

    /// What a refresh has written is what the next load returns: the entry
    /// that `refresh` writes at `written` with the payload `data`, read by
    /// a load of the same inputs no later than the time to live after, is
    /// returned as it is, and no further refresh is asked for.
    pub proof fn law_refreshed_entry_is_returned(
        self,
        refresh: Refresh,
        data: String,
        written: Timestamp,
        now: Timestamp,
    )
        requires
            self.phase is Reading,
            refresh.checksum@ == self.checksum@,
            written.as_nanos() <= now.as_nanos() <= written.as_nanos()
                + self.policy.ttl.as_nanos(),
        ensures
            self.asked(
                seq![
                    Event::Read(
                        ReadOutcome::Found(
                            Entry { checksum: refresh.checksum, modified: written, data },
                        ),
                    ),
                    Event::Clock(now),
                ],
            ) == seq![Action::ReadEntry, Action::ReadClock, Action::Return(data)],
    {
        let entry = Entry { checksum: refresh.checksum, modified: written, data };
        self.law_fresh_entry_is_served_as_is(entry, now);
    }

    /// Looking in vain leaves the load where it measures the wait, or has
    /// it timed out.
    proof fn lemma_rounds_measure_or_time_out(self, waits: Seq<Duration>)
        requires
            self.phase is Measuring,
        ensures
            self.after_rounds(waits).phase is Measuring || self.after_rounds(waits).phase
                == Phase::Failed(LoadError::Timeout(TimeoutError {  })),
            self.after_rounds(waits).policy == self.policy,
        decreases waits.len(),
    {
        if waits.len() > 0 {
            self.lemma_rounds_measure_or_time_out(waits.drop_last());
        }
    }

    /// The sleeps of a load add up to less than the poll duration and one
    /// poll interval: where every sleep takes at least its poll interval, so
    /// that the wait measured after some sleeps is no shorter than these,
    /// one more sleep is asked for only if the sleeps so far stay below the
    /// poll duration.
    pub proof fn law_sleeps_are_bounded(self, waits: Seq<Duration>, waited: Duration)
        requires
            self.phase is Measuring,
            waited.as_nanos() >= waits.len() * self.policy.poll_interval.as_nanos(),
            self.after_rounds(waits).step_spec(Event::Waited(waited)).phase is Sleeping,
        ensures
            waits.len() * self.policy.poll_interval.as_nanos()
                < self.policy.poll_duration.as_nanos(),
            (waits.len() + 1) * self.policy.poll_interval.as_nanos()
                < self.policy.poll_duration.as_nanos() + self.policy.poll_interval.as_nanos(),
    {
        self.lemma_rounds_measure_or_time_out(waits);
        assert((waits.len() + 1) * self.policy.poll_interval.as_nanos() == waits.len()
            * self.policy.poll_interval.as_nanos() + self.policy.poll_interval.as_nanos())
            by (nonlinear_arith);
    }

    /// A load starts at most one refresh: once the start of a refresh has
    /// been answered, whatever else the load is told, it asks for no other.
    pub proof fn law_refresh_is_started_once(self, started: bool, events: Seq<Event>)
        requires
            self.phase is Refreshing || self.phase is Starting,
        ensures
            self.step_spec(Event::Spawned(started)).run(events).pending() != Action::SpawnRefresh,
    {
        self.step_spec(Event::Spawned(started)).lemma_no_refresh_after_start(events);
    }

    /// The phases behind the start of a refresh lead only to each other.
    proof fn lemma_no_refresh_after_start(self, events: Seq<Event>)
        requires
            self.phase is Measuring || self.phase is Sleeping || self.phase is Polling
                || self.phase.is_over(),
        ensures
            ({
                let end = self.run(events);
                end.phase is Measuring || end.phase is Sleeping || end.phase is Polling
                    || end.phase.is_over()
            }),
        decreases events.len(),
    {
        if events.len() > 0 {
            self.step_spec(events[0]).lemma_no_refresh_after_start(events.drop_first());
        }
    }

    /// Every error has its one cause: a file that cannot be read at the
    /// first look; a file that holds no entry, at any look; an entry of the
    /// current inputs written after the time read from the clock; a wait
    /// that has reached the poll duration; a refresh that cannot be started.
    pub proof fn law_error_names_its_cause(self, event: Event, error: LoadError)
        requires
            !self.phase.is_over(),
            self.step_spec(event).phase == Phase::Failed(error),
        ensures
            match error {
                LoadError::Io => self.phase is Reading && event == Event::Read(ReadOutcome::Failed),
                LoadError::Deserialize => (self.phase is Reading || self.phase is Polling) && event
                    == Event::Read(ReadOutcome::Malformed),
                LoadError::ClockSkew => {
                    &&& self.phase matches Phase::Timing(entry)
                    &&& event matches Event::Clock(now)
                    &&& entry.skewed(now)
                },
                LoadError::Timeout(_) => {
                    &&& self.phase is Measuring
                    &&& event matches Event::Waited(waited)
                    &&& waited.as_nanos() >= self.policy.poll_duration.as_nanos()
                },
                LoadError::Spawn => (self.phase is Refreshing || self.phase is Starting) && event
                    == Event::Spawned(false),
            },
    {
    }
}

} // verus!
