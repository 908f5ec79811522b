//! Log levels and log actions.
use vstd::prelude::*;

verus! {

/// How severe a log entry is; the level decides how long the entry is kept.
#[derive(Debug, Clone, Copy, PartialEq, Eq, Structural)]
pub enum LogLevelEnum {
    Info,
    Success,
    Warning,
    Error,
    Fatal,
}

/// What a log entry is about; the action tells which payload the entry carries.
#[derive(Debug, Clone, Copy, PartialEq, Eq, Structural)]
pub enum LogActionEnum {
    /// A client connected: the entry carries a client payload.
    ClientConnected,
    /// A job was handed from one module to another.
    JobSubmitted,
    /// A job finished.
    JobCompleted,
    /// Anything else, described by the custom message.
    Custom,
}

} // verus!
