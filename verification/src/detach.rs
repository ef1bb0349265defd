//! Running work in a process of its own, cut off from the caller.
//!
//! The process is forked. The parent returns at once. The child lets go of
//! the three standard streams, so that nobody waits on them, sets up a hook
//! that logs a panic, runs the work and exits: it never returns into the
//! caller's code, whatever happens to the work.
//!
//! A [`Spawn`] takes these decisions; the calls into the operating system
//! are made by whoever drives it.

use vstd::prelude::*;
use vstd::string::StringExecFns;

verus! {

/// What a call into the operating system returns where it failed.
pub const FAILURE: i32 = -1;

/// What `fork` returns in the child.
pub const CHILD: i32 = 0;

/// The exit status of a child whose work ran to its end.
pub const EXIT_SUCCESS: i32 = 0;

/// The exit status of a child that could not get to its work.
pub const EXIT_FAILURE: i32 = 1;

/// What a panic is said to have carried where it carried no text.
pub const OPAQUE_PAYLOAD: &'static str = "Box<Any>";

/// A call into the operating system failed; the system's last error says
/// why.
#[derive(Debug, Clone, Copy, PartialEq, Eq)]
pub struct OsFailure {}

/// The side of a fork.
#[derive(Debug, Clone, Copy, PartialEq, Eq)]
pub enum Fork {
    /// The process that called.
    Parent,
    /// The new process.
    Child,
}

/// One of the three standard streams.
#[derive(Debug, Clone, Copy, PartialEq, Eq)]
pub enum Stream {
    /// Standard input.
    Stdin,
    /// Standard output.
    Stdout,
    /// Standard error.
    Stderr,
}

impl Stream {
    /// The file descriptor of the stream.
    pub open spec fn spec_fd(self) -> i32 {
        match self {
            Stream::Stdin => 0,
            Stream::Stdout => 1,
            Stream::Stderr => 2,
        }
    }

    /// The file descriptor of the stream.
    pub fn fd(&self) -> (fd: i32)
        ensures
            fd == self.spec_fd(),
    {
        match self {
            Stream::Stdin => 0,
            Stream::Stdout => 1,
            Stream::Stderr => 2,
        }
    }
}

/// What a call into the operating system gave: its result, unless that is
/// the mark of failure.
pub open spec fn handle_err_spec(res: i32) -> Result<i32, OsFailure> {
    if res == FAILURE {
        Err(OsFailure {  })
    } else {
        Ok(res)
    }
}

/// Tells the failure of a call into the operating system from its result.
pub fn handle_err(res: i32) -> (handled: Result<i32, OsFailure>)
    ensures
        handled == handle_err_spec(res),
{
    if res == FAILURE {
        Err(OsFailure {  })
    } else {
        Ok(res)
    }
}

/// The side of the fork on which `fork` returned `res`.
pub open spec fn fork_spec(res: i32) -> Result<Fork, OsFailure> {
    if res == FAILURE {
        Err(OsFailure {  })
    } else if res == CHILD {
        Ok(Fork::Child)
    } else {
        Ok(Fork::Parent)
    }
}

/// Tells the side of a fork from what `fork` returned.
pub fn fork(res: i32) -> (side: Result<Fork, OsFailure>)
    ensures
        side == fork_spec(res),
{
    match handle_err(res) {
        Err(failure) => Err(failure),
        Ok(pid) => if pid == CHILD {
            Ok(Fork::Child)
        } else {
            Ok(Fork::Parent)
        },
    }
}

/// What the log says of a panic in the child: what the panic carried, where
/// that was text, and where it was raised.
pub open spec fn panic_message_spec(payload: Option<Seq<char>>, location: Seq<char>) -> Seq<char> {
    "child panicked at '"@ + (match payload {
        Some(text) => text,
        None => OPAQUE_PAYLOAD@,
    }) + "', "@ + location
}

/// The line to log for a panic in the child.
pub fn panic_message(payload: Option<&str>, location: &str) -> (line: String)
    ensures
        line@ == panic_message_spec(
            match payload {
                Some(text) => Some(text@),
                None => None,
            },
            location@,
        ),
{
    let mut line = "child panicked at '".to_owned();
    match payload {
        Some(text) => line.append(text),
        None => line.append(OPAQUE_PAYLOAD),
    }
    line.append("', ");
    line.append(location);
    line
}

/// How an outside step of a spawn went.
#[derive(Debug, Clone, Copy, PartialEq, Eq)]
pub enum SpawnEvent {
    /// `fork` returned this.
    Forked(i32),
    /// `close` returned this.
    Closed(i32),
    /// The panic hook is set up.
    Hooked,
    /// The work has run to its end.
    Ran,
}

/// The outside step of a spawn that is due.
#[derive(Debug, Clone, Copy, PartialEq, Eq)]
pub enum SpawnAction {
    /// Fork the process and report [`SpawnEvent::Forked`].
    Fork,
    /// Close this stream and report [`SpawnEvent::Closed`].
    Close(Stream),
    /// Set up the hook that logs a panic and report [`SpawnEvent::Hooked`].
    SetPanicHook,
    /// Run the work and report [`SpawnEvent::Ran`].
    Run,
    /// In the parent: return to the caller, the work being under way.
    Return,
    /// In the parent: return to the caller with the system's last error;
    /// there is no child.
    Fail,
    /// In the child: exit with this status, after logging the system's last
    /// error where the status is not zero.
    Exit(i32),
}

/// Where a spawn stands.
#[derive(Debug, Clone, Copy, PartialEq, Eq)]
pub enum Spawn {
    /// The process is to be forked.
    Forking,
    /// In the child: this stream is to be closed.
    Closing(Stream),
    /// In the child: the panic hook is to be set up.
    Hooking,
    /// In the child: the work is to be run.
    Running,
    /// In the child: over, with this exit status.
    Exiting(i32),
    /// In the parent: over, the child is on its way.
    Spawned,
    /// In the parent: over, no child could be made.
    Failed,
}

impl Spawn {
    /// The spawn is in the child.
    pub open spec fn in_child(self) -> bool {
        self is Closing || self is Hooking || self is Running || self is Exiting
    }

    /// The outside step that is due.
    pub open spec fn pending(self) -> SpawnAction {
        match self {
            Spawn::Forking => SpawnAction::Fork,
            Spawn::Closing(stream) => SpawnAction::Close(stream),
            Spawn::Hooking => SpawnAction::SetPanicHook,
            Spawn::Running => SpawnAction::Run,
            Spawn::Exiting(status) => SpawnAction::Exit(status),
            Spawn::Spawned => SpawnAction::Return,
            Spawn::Failed => SpawnAction::Fail,
        }
    }

    /// What follows the closing of `stream`: standard output goes first,
    /// then standard error, then standard input, then the panic hook.
    pub open spec fn after_close(stream: Stream) -> Spawn {
        match stream {
            Stream::Stdout => Spawn::Closing(Stream::Stderr),
            Stream::Stderr => Spawn::Closing(Stream::Stdin),
            Stream::Stdin => Spawn::Hooking,
        }
    }

    /// The spawn after `event`. An event that does not answer the step that
    /// is due changes nothing.
    pub open spec fn step_spec(self, event: SpawnEvent) -> Spawn {
        match (self, event) {
            (Spawn::Forking, SpawnEvent::Forked(res)) => match fork_spec(res) {
                Err(_) => Spawn::Failed,
                Ok(Fork::Parent) => Spawn::Spawned,
                Ok(Fork::Child) => Spawn::Closing(Stream::Stdout),
            },
            (Spawn::Closing(stream), SpawnEvent::Closed(res)) => match handle_err_spec(res) {
                Err(_) => Spawn::Exiting(EXIT_FAILURE),
                Ok(_) => Self::after_close(stream),
            },
            (Spawn::Hooking, SpawnEvent::Hooked) => Spawn::Running,
            (Spawn::Running, SpawnEvent::Ran) => Spawn::Exiting(EXIT_SUCCESS),
            (spawn, _) => spawn,
        }
    }

    /// The spawn after the `events`, taken in their order.
    pub open spec fn run(self, events: Seq<SpawnEvent>) -> Spawn
        decreases events.len(),
    {
        if events.len() == 0 {
            self
        } else {
            self.step_spec(events[0]).run(events.drop_first())
        }
    }

    /// The steps that the spawn asks for while it is told the `events`: the
    /// one that is due now, then the one due after each event.
    pub open spec fn asked(self, events: Seq<SpawnEvent>) -> Seq<SpawnAction>
        decreases events.len(),
    {
        if events.len() == 0 {
            seq![self.pending()]
        } else {
            seq![self.pending()] + self.step_spec(events[0]).asked(events.drop_first())
        }
    }

    /// The outside step that is due.
    pub fn action(&self) -> (action: SpawnAction)
        ensures
            action == self.pending(),
    {
        match self {
            Spawn::Forking => SpawnAction::Fork,
            Spawn::Closing(stream) => SpawnAction::Close(*stream),
            Spawn::Hooking => SpawnAction::SetPanicHook,
            Spawn::Running => SpawnAction::Run,
            Spawn::Exiting(status) => SpawnAction::Exit(*status),
            Spawn::Spawned => SpawnAction::Return,
            Spawn::Failed => SpawnAction::Fail,
        }
    }

    /// Moves on by one event.
    pub fn step(self, event: SpawnEvent) -> (next: Spawn)
        ensures
            next == self.step_spec(event),
    {
        match (self, event) {
            (Spawn::Forking, SpawnEvent::Forked(res)) => match fork(res) {
                Err(_) => Spawn::Failed,
                Ok(Fork::Parent) => Spawn::Spawned,
                Ok(Fork::Child) => Spawn::Closing(Stream::Stdout),
            },
            (Spawn::Closing(stream), SpawnEvent::Closed(res)) => match handle_err(res) {
                Err(_) => Spawn::Exiting(EXIT_FAILURE),
                Ok(_) => match stream {
                    Stream::Stdout => Spawn::Closing(Stream::Stderr),
                    Stream::Stderr => Spawn::Closing(Stream::Stdin),
                    Stream::Stdin => Spawn::Hooking,
                },
            },
            (Spawn::Hooking, SpawnEvent::Hooked) => Spawn::Running,
            (Spawn::Running, SpawnEvent::Ran) => Spawn::Exiting(EXIT_SUCCESS),
            (spawn, _) => spawn,
        }
    }

    /// In the parent the spawn is over with the fork: the caller goes on at
    /// once, and neither a stream is closed nor the work run on its side.
    pub proof fn law_parent_returns_at_once(res: i32)
        requires
            res != FAILURE,
            res != CHILD,
        ensures
            Spawn::Forking.asked(seq![SpawnEvent::Forked(res)]) == seq![
                SpawnAction::Fork,
                SpawnAction::Return,
            ],
    {
        let events = seq![SpawnEvent::Forked(res)];
        let second = Spawn::Forking.step_spec(events[0]);
        assert(events.drop_first() =~= Seq::<SpawnEvent>::empty());
        assert(second.asked(Seq::<SpawnEvent>::empty()) == seq![second.pending()]);
        assert(Spawn::Forking.asked(events) =~= seq![SpawnAction::Fork, SpawnAction::Return]);
    }

    /// Where no process can be made, the caller is told, and nothing else
    /// is done.
    pub proof fn law_failed_fork_is_reported()
        ensures
            Spawn::Forking.asked(seq![SpawnEvent::Forked(FAILURE)]) == seq![
                SpawnAction::Fork,
                SpawnAction::Fail,
            ],
    {
        let events = seq![SpawnEvent::Forked(FAILURE)];
        let second = Spawn::Forking.step_spec(events[0]);
        assert(events.drop_first() =~= Seq::<SpawnEvent>::empty());
        assert(second.asked(Seq::<SpawnEvent>::empty()) == seq![second.pending()]);
        assert(Spawn::Forking.asked(events) =~= seq![SpawnAction::Fork, SpawnAction::Fail]);
    }

    /// The child closes standard output, standard error and standard input,
    /// sets up the panic hook, and only then runs the work; it exits with
    /// status zero when the work is done.
    pub proof fn law_child_detaches_then_runs(a: i32, b: i32, c: i32)
        requires
            a != FAILURE,
            b != FAILURE,
            c != FAILURE,
        ensures
            Spawn::Forking.asked(
                seq![
                    SpawnEvent::Forked(CHILD),
                    SpawnEvent::Closed(a),
                    SpawnEvent::Closed(b),
                    SpawnEvent::Closed(c),
                    SpawnEvent::Hooked,
                    SpawnEvent::Ran,
                ],
            ) == seq![
                SpawnAction::Fork,
                SpawnAction::Close(Stream::Stdout),
                SpawnAction::Close(Stream::Stderr),
                SpawnAction::Close(Stream::Stdin),
                SpawnAction::SetPanicHook,
                SpawnAction::Run,
                SpawnAction::Exit(EXIT_SUCCESS),
            ],
    {
        let e0 = seq![
            SpawnEvent::Forked(CHILD),
            SpawnEvent::Closed(a),
            SpawnEvent::Closed(b),
            SpawnEvent::Closed(c),
            SpawnEvent::Hooked,
            SpawnEvent::Ran,
        ];
        let e1 = e0.drop_first();
        let e2 = e1.drop_first();
        let e3 = e2.drop_first();
        let e4 = e3.drop_first();
        let e5 = e4.drop_first();
        let e6 = e5.drop_first();
        let s1 = Spawn::Forking.step_spec(e0[0]);
        let s2 = s1.step_spec(e1[0]);
        let s3 = s2.step_spec(e2[0]);
        let s4 = s3.step_spec(e3[0]);
        let s5 = s4.step_spec(e4[0]);
        let s6 = s5.step_spec(e5[0]);
        assert(e6 =~= Seq::<SpawnEvent>::empty());
        assert(s6.asked(e6) == seq![s6.pending()]);
        assert(s5.asked(e5) == seq![s5.pending()] + s6.asked(e6));
        assert(s4.asked(e4) == seq![s4.pending()] + s5.asked(e5));
        assert(s3.asked(e3) == seq![s3.pending()] + s4.asked(e4));
        assert(s2.asked(e2) == seq![s2.pending()] + s3.asked(e3));
        assert(s1.asked(e1) == seq![s1.pending()] + s2.asked(e2));
        assert(Spawn::Forking.asked(e0) =~= seq![
            SpawnAction::Fork,
            SpawnAction::Close(Stream::Stdout),
            SpawnAction::Close(Stream::Stderr),
            SpawnAction::Close(Stream::Stdin),
            SpawnAction::SetPanicHook,
            SpawnAction::Run,
            SpawnAction::Exit(EXIT_SUCCESS),
        ]);
    }

    /// The child never returns into the caller's code: whatever it is told,
    /// it stays in the child, where the only end is an exit.
    pub proof fn law_child_never_returns(self, events: Seq<SpawnEvent>)
        requires
            self.in_child(),
        ensures
            self.run(events).in_child(),
            self.run(events).pending() != SpawnAction::Return,
            self.run(events).pending() != SpawnAction::Fail,
        decreases events.len(),
    {
        if events.len() > 0 {
            self.step_spec(events[0]).law_child_never_returns(events.drop_first());
        }
    }

    /// The work runs at most once: a child that is about to exit stays so,
    /// whatever it is told.
    pub proof fn law_exit_is_final(self, events: Seq<SpawnEvent>)
        requires
            self is Exiting,
        ensures
            self.run(events) == self,
        decreases events.len(),
    {
        if events.len() > 0 {
            self.law_exit_is_final(events.drop_first());
        }
    }

    /// The parent never does the child's part: once the fork has returned on
    /// its side, or failed, nothing more is asked of it.
    pub proof fn law_parent_is_done(self, events: Seq<SpawnEvent>)
        requires
            self is Spawned || self is Failed,
        ensures
            self.run(events) == self,
        decreases events.len(),
    {
        if events.len() > 0 {
            self.law_parent_is_done(events.drop_first());
        }
    }

    /// The work runs only where nothing is left of the standard streams: it
    /// is asked for only after the panic hook, which follows the closing of
    /// the last stream; and a stream that cannot be closed ends the child
    /// with a status that is not zero, before the work.
    pub proof fn law_run_follows_detach(self, event: SpawnEvent)
        ensures
            !(self is Running) && self.step_spec(event) is Running ==> self is Hooking,
            !(self is Hooking) && self.step_spec(event) is Hooking ==> self == Spawn::Closing(
                Stream::Stdin,
            ),
            self is Closing && event == SpawnEvent::Closed(FAILURE) ==> self.step_spec(event)
                == Spawn::Exiting(EXIT_FAILURE),
    {
    }
}

/// Begins to run work in a process of its own: the first step is the fork.
pub fn spawn() -> (spawn: Spawn)
    ensures
        spawn == Spawn::Forking,
{
    Spawn::Forking
}

} // verus!
