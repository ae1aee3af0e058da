//! How much is logged.

use vstd::prelude::*;

verus! {

/// The most detailed kind of message that is still logged.
#[derive(Clone, Copy, Debug, PartialEq, Eq, Structural)]
pub enum LogLevel {
    Error,
    Warn,
    Info,
    Debug,
    Trace,
}

/// The level that a verbosity asks for. A verbosity is the number of times
/// that more output was asked for, less the number of times that less was.
/// Zero logs what informs; each step up or down moves one level, and beyond
/// two steps nothing changes.
pub open spec fn level_of(verbosity: int) -> LogLevel {
    if verbosity <= -2 {
        LogLevel::Error
    } else if verbosity == -1 {
        LogLevel::Warn
    } else if verbosity == 0 {
        LogLevel::Info
    } else if verbosity == 1 {
        LogLevel::Debug
    } else {
        LogLevel::Trace
    }
}

/// How much a level lets through: the number of kinds of message that it logs.
pub open spec fn detail(level: LogLevel) -> nat {
    match level {
        LogLevel::Error => 1,
        LogLevel::Warn => 2,
        LogLevel::Info => 3,
        LogLevel::Debug => 4,
        LogLevel::Trace => 5,
    }
}

/// The level to log at for the given verbosity.
pub fn log_level(verbosity: i8) -> (level: LogLevel)
    ensures
        level == level_of(verbosity as int),
{
    if verbosity <= -2 {
        LogLevel::Error
    } else if verbosity == -1 {
        LogLevel::Warn
    } else if verbosity == 0 {
        LogLevel::Info
    } else if verbosity == 1 {
        LogLevel::Debug
    } else {
        LogLevel::Trace
    }
}

/// A higher verbosity never logs less.
pub proof fn more_verbose_logs_no_less(lower: int, higher: int)
    requires
        lower <= higher,
    ensures
        detail(level_of(lower)) <= detail(level_of(higher)),
{
}

} // verus!
