//! Refreshing a key: compute its payload anew and put it in the place of the
//! entry, under the lock of the key's directory.
//!
//! A [`Refresh`] runs in the detached process. Like a load it names the
//! outside step that is due and moves on when told how the step went. The
//! entry file is only ever replaced by a rename of the staging file, and the
//! staging file is only written under the lock.

use crate::cache::entry::Entry;
use crate::cache::paths::Layout;
use crate::time::Timestamp;
use vstd::prelude::*;

verus! {

/// What asking for the lock gave.
#[derive(Debug, Clone, Copy, PartialEq, Eq)]
pub enum LockOutcome {
    /// The lock is held by this refresh now.
    Acquired,
    /// Another process holds the lock.
    Busy,
    /// The lock could not be asked for.
    Failed,
}

/// The step at which a refresh failed.
#[derive(Debug, Clone, Copy, PartialEq, Eq)]
pub enum RefreshError {
    /// The lock could not be asked for.
    Lock,
    /// The payload could not be computed.
    Compute,
    /// The directory of the key could not be made.
    CreateDirectory,
    /// The staging file could not be made.
    CreateStaging,
    /// The entry could not be written to the staging file.
    Write,
    /// The staging file could not take the place of the entry file.
    Rename,
}

/// How a refresh ended.
#[derive(Debug, Clone, Copy, PartialEq, Eq)]
pub enum RefreshOutcome {
    /// The payload was computed and the entry replaced.
    Updated,
    /// Another process is refreshing the key: nothing was computed or written.
    Skipped,
    /// A step failed: the entry file is as it was.
    Failed(RefreshError),
}

/// How an outside step of a refresh went.
#[derive(Debug, Clone, PartialEq, Eq)]
pub enum RefreshEvent {
    /// The lock was asked for.
    Locked(LockOutcome),
    /// The payload was computed, or could not be.
    Computed(Option<String>),
    /// The wall clock was read.
    Clock(Timestamp),
    /// A step on the file system was taken, or could not be.
    Done(bool),
}

/// The outside step of a refresh that is due.
#[derive(Debug, Clone, PartialEq, Eq)]
pub enum RefreshAction {
    /// Ask for the lock of the key's directory, without waiting for it, and
    /// report [`RefreshEvent::Locked`].
    Lock,
    /// Compute the payload and report [`RefreshEvent::Computed`].
    Compute,
    /// Make the directory of the key, with those above it, and report
    /// [`RefreshEvent::Done`].
    CreateDirectory,
    /// Make the staging file, empty, and report [`RefreshEvent::Done`].
    CreateStaging,
    /// Read the wall clock and report [`RefreshEvent::Clock`].
    ReadClock,
    /// Write this entry to the staging file and report
    /// [`RefreshEvent::Done`].
    Write(Entry),
    /// Rename the staging file to the entry file and report
    /// [`RefreshEvent::Done`].
    Rename,
    /// The refresh is over: let go of the lock, if it is held.
    Finish(RefreshOutcome),
}

/// Where a refresh stands.
#[derive(Debug, Clone, PartialEq, Eq)]
pub enum RefreshPhase {
    /// The lock is to be asked for.
    Locking,
    /// The lock is held; the payload is to be computed.
    Computing,
    /// This payload was computed; the directory is to be made.
    MakingDirectory(String),
    /// The directory is there; the staging file is to be made.
    CreatingStaging(String),
    /// The staging file is there; the time of writing is to be taken.
    Stamping(String),
    /// This entry is to be written to the staging file.
    Writing(Entry),
    /// The staging file holds the entry; it is to take the entry file's place.
    Renaming,
    /// Over.
    Finished(RefreshOutcome),
}

/// One attempt to refresh the entry of one key.
#[derive(Debug, Clone, PartialEq, Eq)]
pub struct Refresh {
    /// The fingerprint of the inputs that the payload is computed from.
    pub checksum: String,
    /// The paths of the key.
    pub layout: Layout,
    /// Where the refresh stands.
    pub phase: RefreshPhase,
}

impl RefreshPhase {
    /// How far the refresh has come: each step that went well leads to a
    /// later stage, and the end is the last.
    pub open spec fn stage(self) -> nat {
        match self {
            RefreshPhase::Locking => 0,
            RefreshPhase::Computing => 1,
            RefreshPhase::MakingDirectory(_) => 2,
            RefreshPhase::CreatingStaging(_) => 3,
            RefreshPhase::Stamping(_) => 4,
            RefreshPhase::Writing(_) => 5,
            RefreshPhase::Renaming => 6,
            RefreshPhase::Finished(_) => 7,
        }
    }
}

impl Refresh {
    /// A refresh that has not asked for anything yet.
    pub open spec fn fresh(checksum: String, layout: Layout) -> Refresh {
        Refresh { checksum, layout, phase: RefreshPhase::Locking }
    }

    /// This refresh in another phase.
    pub open spec fn at(self, phase: RefreshPhase) -> Refresh {
        Refresh { phase, ..self }
    }

    /// The outside step that is due.
    pub open spec fn pending(self) -> RefreshAction {
        match self.phase {
            RefreshPhase::Locking => RefreshAction::Lock,
            RefreshPhase::Computing => RefreshAction::Compute,
            RefreshPhase::MakingDirectory(_) => RefreshAction::CreateDirectory,
            RefreshPhase::CreatingStaging(_) => RefreshAction::CreateStaging,
            RefreshPhase::Stamping(_) => RefreshAction::ReadClock,
            RefreshPhase::Writing(entry) => RefreshAction::Write(entry),
            RefreshPhase::Renaming => RefreshAction::Rename,
            RefreshPhase::Finished(outcome) => RefreshAction::Finish(outcome),
        }
    }

    /// The phase that follows a step on the file system: the next one where
    /// it went well, else the end with the error of that step.
    pub open spec fn after_done(done: bool, next: RefreshPhase, error: RefreshError) -> RefreshPhase {
        if done {
            next
        } else {
            RefreshPhase::Finished(RefreshOutcome::Failed(error))
        }
    }

    /// The phase that follows `event`. An event that does not answer the
    /// step that is due changes nothing.
    pub open spec fn next_phase(self, event: RefreshEvent) -> RefreshPhase {
        match (self.phase, event) {
            (RefreshPhase::Locking, RefreshEvent::Locked(outcome)) => match outcome {
                LockOutcome::Acquired => RefreshPhase::Computing,
                LockOutcome::Busy => RefreshPhase::Finished(RefreshOutcome::Skipped),
                LockOutcome::Failed => RefreshPhase::Finished(
                    RefreshOutcome::Failed(RefreshError::Lock),
                ),
            },
            (RefreshPhase::Computing, RefreshEvent::Computed(computed)) => match computed {
                Some(data) => RefreshPhase::MakingDirectory(data),
                None => RefreshPhase::Finished(RefreshOutcome::Failed(RefreshError::Compute)),
            },
            (RefreshPhase::MakingDirectory(data), RefreshEvent::Done(done)) => Self::after_done(
                done,
                RefreshPhase::CreatingStaging(data),
                RefreshError::CreateDirectory,
            ),
            (RefreshPhase::CreatingStaging(data), RefreshEvent::Done(done)) => Self::after_done(
                done,
                RefreshPhase::Stamping(data),
                RefreshError::CreateStaging,
            ),
            (RefreshPhase::Stamping(data), RefreshEvent::Clock(now)) => RefreshPhase::Writing(
                Entry { checksum: self.checksum, modified: now, data },
            ),
            (RefreshPhase::Writing(_), RefreshEvent::Done(done)) => Self::after_done(
                done,
                RefreshPhase::Renaming,
                RefreshError::Write,
            ),
            (RefreshPhase::Renaming, RefreshEvent::Done(done)) => Self::after_done(
                done,
                RefreshPhase::Finished(RefreshOutcome::Updated),
                RefreshError::Rename,
            ),
            (phase, _) => phase,
        }
    }

    /// The refresh after `event`.
    pub open spec fn step_spec(self, event: RefreshEvent) -> Refresh {
        self.at(self.next_phase(event))
    }

    /// The refresh after the `events`, taken in their order.
    pub open spec fn run(self, events: Seq<RefreshEvent>) -> Refresh
        decreases events.len(),
    {
        if events.len() == 0 {
            self
        } else {
            self.step_spec(events[0]).run(events.drop_first())
        }
    }

    /// The steps that the refresh asks for while it is told the `events`:
    /// the one that is due now, then the one due after each event.
    pub open spec fn asked(self, events: Seq<RefreshEvent>) -> Seq<RefreshAction>
        decreases events.len(),
    {
        if events.len() == 0 {
            seq![self.pending()]
        } else {
            seq![self.pending()] + self.step_spec(events[0]).asked(events.drop_first())
        }
    }

    /// Whatever is about to be written carries the fingerprint of this
    /// refresh.
    pub open spec fn writes_own_checksum(self) -> bool {
        self.phase matches RefreshPhase::Writing(entry) ==> entry.checksum == self.checksum
    }

    /// A refresh of the key laid out in `layout`, from inputs that have the
    /// fingerprint `checksum`.
    pub fn new(checksum: String, layout: Layout) -> (refresh: Refresh)
        ensures
            refresh == Refresh::fresh(checksum, layout),
    {
        Refresh { checksum, layout, phase: RefreshPhase::Locking }
    }

    /// The outside step that is due.
    pub fn action(&self) -> (action: RefreshAction)
        ensures
            action == self.pending(),
    {
        match &self.phase {
            RefreshPhase::Locking => RefreshAction::Lock,
            RefreshPhase::Computing => RefreshAction::Compute,
            RefreshPhase::MakingDirectory(_) => RefreshAction::CreateDirectory,
            RefreshPhase::CreatingStaging(_) => RefreshAction::CreateStaging,
            RefreshPhase::Stamping(_) => RefreshAction::ReadClock,
            RefreshPhase::Writing(entry) => RefreshAction::Write(
                Entry {
                    checksum: entry.checksum.clone(),
                    modified: entry.modified,
                    data: entry.data.clone(),
                },
            ),
            RefreshPhase::Renaming => RefreshAction::Rename,
            RefreshPhase::Finished(outcome) => RefreshAction::Finish(*outcome),
        }
    }

    /// Moves on by one event.
    pub fn step(self, event: RefreshEvent) -> (next: Refresh)
        ensures
            next == self.step_spec(event),
    {
        let Refresh { checksum, layout, phase } = self;
        let phase = match (phase, event) {
            (RefreshPhase::Locking, RefreshEvent::Locked(outcome)) => match outcome {
                LockOutcome::Acquired => RefreshPhase::Computing,
                LockOutcome::Busy => RefreshPhase::Finished(RefreshOutcome::Skipped),
                LockOutcome::Failed => RefreshPhase::Finished(
                    RefreshOutcome::Failed(RefreshError::Lock),
                ),
            },
            (RefreshPhase::Computing, RefreshEvent::Computed(computed)) => match computed {
                Some(data) => RefreshPhase::MakingDirectory(data),
                None => RefreshPhase::Finished(RefreshOutcome::Failed(RefreshError::Compute)),
            },
            (RefreshPhase::MakingDirectory(data), RefreshEvent::Done(done)) => if done {
                RefreshPhase::CreatingStaging(data)
            } else {
                RefreshPhase::Finished(RefreshOutcome::Failed(RefreshError::CreateDirectory))
            },
            (RefreshPhase::CreatingStaging(data), RefreshEvent::Done(done)) => if done {
                RefreshPhase::Stamping(data)
            } else {
                RefreshPhase::Finished(RefreshOutcome::Failed(RefreshError::CreateStaging))
            },
            (RefreshPhase::Stamping(data), RefreshEvent::Clock(now)) => RefreshPhase::Writing(
                Entry { checksum: checksum.clone(), modified: now, data },
            ),
            (RefreshPhase::Writing(_), RefreshEvent::Done(done)) => if done {
                RefreshPhase::Renaming
            } else {
                RefreshPhase::Finished(RefreshOutcome::Failed(RefreshError::Write))
            },
            (RefreshPhase::Renaming, RefreshEvent::Done(done)) => if done {
                RefreshPhase::Finished(RefreshOutcome::Updated)
            } else {
                RefreshPhase::Finished(RefreshOutcome::Failed(RefreshError::Rename))
            },
            (phase, _) => phase,
        };
        Refresh { checksum, layout, phase }
    }

    /// Where another process holds the lock, the refresh ends at once and
    /// without error: nothing is computed, written or renamed.
    pub proof fn law_held_lock_skips(self)
        requires
            self.phase is Locking,
        ensures
            self.asked(seq![RefreshEvent::Locked(LockOutcome::Busy)]) == seq![
                RefreshAction::Lock,
                RefreshAction::Finish(RefreshOutcome::Skipped),
            ],
    {
        let events = seq![RefreshEvent::Locked(LockOutcome::Busy)];
        let second = self.step_spec(events[0]);
        assert(events.drop_first() =~= Seq::<RefreshEvent>::empty());
        assert(second.asked(Seq::<RefreshEvent>::empty()) == seq![second.pending()]);
        assert(self.asked(events) =~= seq![
            RefreshAction::Lock,
            RefreshAction::Finish(RefreshOutcome::Skipped),
        ]);
    }

    /// Where the payload cannot be computed, the refresh ends without a
    /// step on the file system: the entry stays as it was.
    pub proof fn law_failed_compute_writes_nothing(self)
        requires
            self.phase is Locking,
        ensures
            self.asked(
                seq![RefreshEvent::Locked(LockOutcome::Acquired), RefreshEvent::Computed(None)],
            ) == seq![
                RefreshAction::Lock,
                RefreshAction::Compute,
                RefreshAction::Finish(RefreshOutcome::Failed(RefreshError::Compute)),
            ],
    {
        let events = seq![
            RefreshEvent::Locked(LockOutcome::Acquired),
            RefreshEvent::Computed(None),
        ];
        let second = self.step_spec(events[0]);
        let third = second.step_spec(events[1]);
        let rest = events.drop_first();
        assert(rest =~= seq![RefreshEvent::Computed(None)]);
        assert(rest.drop_first() =~= Seq::<RefreshEvent>::empty());
        assert(third.asked(Seq::<RefreshEvent>::empty()) == seq![third.pending()]);
        assert(second.asked(rest) == seq![second.pending()] + third.asked(rest.drop_first()));
        assert(self.asked(events) =~= seq![
            RefreshAction::Lock,
            RefreshAction::Compute,
            RefreshAction::Finish(RefreshOutcome::Failed(RefreshError::Compute)),
        ]);
    }

    /// A refresh in which every step goes well computes once, writes the
    /// payload with the fingerprint of the refresh and the time read to the
    /// staging file, and renames that file to the entry file as its last
    /// step on the file system.
    pub proof fn law_refresh_writes_then_renames(self, data: String, now: Timestamp)
        requires
            self.phase is Locking,
        ensures
            self.asked(
                seq![
                    RefreshEvent::Locked(LockOutcome::Acquired),
                    RefreshEvent::Computed(Some(data)),
                    RefreshEvent::Done(true),
                    RefreshEvent::Done(true),
                    RefreshEvent::Clock(now),
                    RefreshEvent::Done(true),
                    RefreshEvent::Done(true),
                ],
            ) == seq![
                RefreshAction::Lock,
                RefreshAction::Compute,
                RefreshAction::CreateDirectory,
                RefreshAction::CreateStaging,
                RefreshAction::ReadClock,
                RefreshAction::Write(Entry { checksum: self.checksum, modified: now, data }),
                RefreshAction::Rename,
                RefreshAction::Finish(RefreshOutcome::Updated),
            ],
    {
        let e0 = seq![
            RefreshEvent::Locked(LockOutcome::Acquired),
            RefreshEvent::Computed(Some(data)),
            RefreshEvent::Done(true),
            RefreshEvent::Done(true),
            RefreshEvent::Clock(now),
            RefreshEvent::Done(true),
            RefreshEvent::Done(true),
        ];
        let e1 = e0.drop_first();
        let e2 = e1.drop_first();
        let e3 = e2.drop_first();
        let e4 = e3.drop_first();
        let e5 = e4.drop_first();
        let e6 = e5.drop_first();
        let e7 = e6.drop_first();
        let r1 = self.step_spec(e0[0]);
        let r2 = r1.step_spec(e1[0]);
        let r3 = r2.step_spec(e2[0]);
        let r4 = r3.step_spec(e3[0]);
        let r5 = r4.step_spec(e4[0]);
        let r6 = r5.step_spec(e5[0]);
        let r7 = r6.step_spec(e6[0]);
        assert(e7 =~= Seq::<RefreshEvent>::empty());
        assert(r7.asked(e7) == seq![r7.pending()]);
        assert(r6.asked(e6) == seq![r6.pending()] + r7.asked(e7));
        assert(r5.asked(e5) == seq![r5.pending()] + r6.asked(e6));
        assert(r4.asked(e4) == seq![r4.pending()] + r5.asked(e5));
        assert(r3.asked(e3) == seq![r3.pending()] + r4.asked(e4));
        assert(r2.asked(e2) == seq![r2.pending()] + r3.asked(e3));
        assert(r1.asked(e1) == seq![r1.pending()] + r2.asked(e2));
        assert(self.asked(e0) =~= seq![
            RefreshAction::Lock,
            RefreshAction::Compute,
            RefreshAction::CreateDirectory,
            RefreshAction::CreateStaging,
            RefreshAction::ReadClock,
            RefreshAction::Write(Entry { checksum: self.checksum, modified: now, data }),
            RefreshAction::Rename,
            RefreshAction::Finish(RefreshOutcome::Updated),
        ]);
    }

    /// A refresh never goes back: no event leads to an earlier stage, so
    /// no step is asked for again once it has been answered.
    pub proof fn law_never_goes_back(self, events: Seq<RefreshEvent>)
        ensures
            self.run(events).phase.stage() >= self.phase.stage(),
        decreases events.len(),
    {
        if events.len() > 0 {
            self.step_spec(events[0]).law_never_goes_back(events.drop_first());
        }
    }

    /// The payload is computed at most once: after an answer to the
    /// computation, whatever else the refresh is told, it does not ask for
    /// the computation or for the lock again.
    pub proof fn law_computes_at_most_once(
        self,
        computed: Option<String>,
        events: Seq<RefreshEvent>,
    )
        requires
            self.phase is Computing,
        ensures
            ({
                let end = self.step_spec(RefreshEvent::Computed(computed)).run(events);
                end.pending() != RefreshAction::Compute && end.pending() != RefreshAction::Lock
            }),
    {
        self.step_spec(RefreshEvent::Computed(computed)).law_never_goes_back(events);
    }

    /// The entry file is replaced only by a complete staging file: the
    /// rename is asked for only as the answer to a write that went well.
    pub proof fn law_rename_follows_write(self, event: RefreshEvent)
        requires
            !(self.phase is Renaming),
            self.step_spec(event).phase is Renaming,
        ensures
            self.phase is Writing,
            event == RefreshEvent::Done(true),
    {
    }

    /// Without the lock nothing is computed or written: the computation is
    /// asked for only as the answer to a lock that was acquired.
    pub proof fn law_compute_follows_lock(self, event: RefreshEvent)
        requires
            !(self.phase is Computing),
            self.step_spec(event).phase is Computing,
        ensures
            self.phase is Locking,
            event == RefreshEvent::Locked(LockOutcome::Acquired),
    {
    }

    /// Whatever a refresh writes carries its own fingerprint, from the
    /// start and after any events.
    pub proof fn law_writes_own_checksum(self, events: Seq<RefreshEvent>)
        requires
            self.writes_own_checksum(),
        ensures
            self.run(events).writes_own_checksum(),
            self.run(events).checksum == self.checksum,
            self.run(events).layout == self.layout,
        decreases events.len(),
    {
        if events.len() > 0 {
            self.step_spec(events[0]).law_writes_own_checksum(events.drop_first());
        }
    }
}

} // verus!
