//! Debug logging: attached at "Info" severity in a verbose (debug) build, not
//! attached at all otherwise.

use vstd::prelude::*;

verus! {

/// Severity of a log record, most severe first.
#[derive(Clone, Copy, Debug, PartialEq, Eq, Structural)]
pub enum LogLevel {
    Error,
    Warn,
    Info,
    Debug,
    Trace,
}

impl LogLevel {
    /// Higher is more severe.
    pub open spec fn severity(self) -> nat {
        match self {
            LogLevel::Error => 5,
            LogLevel::Warn => 4,
            LogLevel::Info => 3,
            LogLevel::Debug => 2,
            LogLevel::Trace => 1,
        }
    }

    pub fn rank(&self) -> (r: u8)
        ensures
            r as nat == self.severity(),
    {
        match self {
            LogLevel::Error => 5,
            LogLevel::Warn => 4,
            LogLevel::Info => 3,
            LogLevel::Debug => 2,
            LogLevel::Trace => 1,
        }
    }
}

/// How the shell is set up at start.
#[derive(Clone, Copy, Debug, PartialEq, Eq, Structural)]
pub struct ShellConfig {
    /// True in a debug build: a logging sink is attached.
    pub verbose_logging: bool,
}

/// The minimum severity of the attached logging sink, or `None` when no sink
/// is attached.
pub open spec fn log_filter_of(config: ShellConfig) -> Option<LogLevel> {
    if config.verbose_logging {
        Some(LogLevel::Info)
    } else {
        None
    }
}

/// Whether a record of severity `level` is written under `filter`.
pub open spec fn emitted(filter: Option<LogLevel>, level: LogLevel) -> bool {
    match filter {
        Some(min) => level.severity() >= min.severity(),
        None => false,
    }
}

pub fn log_filter(config: ShellConfig) -> (r: Option<LogLevel>)
    ensures
        r == log_filter_of(config),
{
    if config.verbose_logging {
        Some(LogLevel::Info)
    } else {
        None
    }
}

pub fn is_emitted(filter: Option<LogLevel>, level: LogLevel) -> (r: bool)
    ensures
        r == emitted(filter, level),
{
    match filter {
        Some(min) => level.rank() >= min.rank(),
        None => false,
    }
}

/// Without verbose logging no record of any severity is written; with it,
/// exactly the records of severity "Info" or higher are.
pub proof fn lemma_logging_by_build(level: LogLevel)
    ensures
        !emitted(log_filter_of(ShellConfig { verbose_logging: false }), level),
        emitted(log_filter_of(ShellConfig { verbose_logging: true }), level)
            <==> level.severity() >= LogLevel::Info.severity(),
{
}

} // verus!
