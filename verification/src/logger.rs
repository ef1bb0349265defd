//! What goes into the log file of a workflow, and how a line of it reads.

use vstd::prelude::*;
use vstd::string::StringExecFns;

verus! {

/// How the time of a log line is written.
pub const TIME_FORMAT: &'static str = "%Y-%m-%dT%H:%M:%S";

/// How much a message matters, the gravest first.
#[derive(Debug, Clone, Copy, PartialEq, Eq)]
pub enum Level {
    /// Something went wrong.
    Error,
    /// Something may go wrong.
    Warn,
    /// Something worth knowing.
    Info,
    /// Something for whoever looks for a fault.
    Debug,
    /// Everything.
    Trace,
}

/// The gravest level that is left out of a log, seen from below: messages
/// up to it are let through.
#[derive(Debug, Clone, Copy, PartialEq, Eq)]
pub enum LevelFilter {
    /// Nothing is let through.
    Off,
    /// Errors are let through.
    Error,
    /// Warnings and what is graver are let through.
    Warn,
    /// Information and what is graver is let through.
    Info,
    /// All but traces is let through.
    Debug,
    /// Everything is let through.
    Trace,
}

impl Level {
    /// The place of the level among the levels, the gravest being first.
    pub open spec fn rank(self) -> nat {
        match self {
            Level::Error => 1,
            Level::Warn => 2,
            Level::Info => 3,
            Level::Debug => 4,
            Level::Trace => 5,
        }
    }

    /// The word that stands for the level in a log line.
    pub open spec fn spec_name(self) -> Seq<char> {
        match self {
            Level::Error => "ERROR"@,
            Level::Warn => "WARN"@,
            Level::Info => "INFO"@,
            Level::Debug => "DEBUG"@,
            Level::Trace => "TRACE"@,
        }
    }

    /// The word that stands for the level in a log line.
    pub fn name(&self) -> (name: &'static str)
        ensures
            name@ == self.spec_name(),
    {
        match self {
            Level::Error => "ERROR",
            Level::Warn => "WARN",
            Level::Info => "INFO",
            Level::Debug => "DEBUG",
            Level::Trace => "TRACE",
        }
    }
}

/// Sets up a logger.
#[derive(Debug, Clone, Copy, PartialEq, Eq)]
pub struct Builder {
    /// What is let through.
    pub level_filter: LevelFilter,
}

impl Builder {
    /// A builder of a logger that lets information through, and what is
    /// graver.
    pub fn new() -> (builder: Builder)
        ensures
            builder.level_filter == LevelFilter::Info,
    {
        Builder { level_filter: LevelFilter::Info }
    }

    /// Sets what is let through.
    pub fn filter_level(&mut self, lvl: LevelFilter) -> (builder: &mut Builder)
        ensures
            builder.level_filter == lvl,
            *final(self) == *final(builder),
    {
        self.level_filter = lvl;
        self
    }
}

/// Whether a message of this level goes into the log: information does, and
/// what is graver.
pub fn enabled(level: Level) -> (enabled: bool)
    ensures
        enabled == (level.rank() <= Level::Info.rank()),
{
    match level {
        Level::Error => true,
        Level::Warn => true,
        Level::Info => true,
        Level::Debug => false,
        Level::Trace => false,
    }
}

/// How a log line reads: the time and the level, each in square brackets,
/// then the message.
pub open spec fn log_line_spec(time: Seq<char>, level: Level, message: Seq<char>) -> Seq<char> {
    "["@ + time + "] ["@ + level.spec_name() + "] "@ + message
}

/// The log line for a message, without the end of the line.
pub fn log_line(time: &str, level: Level, message: &str) -> (line: String)
    ensures
        line@ == log_line_spec(time@, level, message@),
{
    let mut line = "[".to_owned();
    line.append(time);
    line.append("] [");
    line.append(level.name());
    line.append("] ");
    line.append(message);
    line
}

} // verus!
