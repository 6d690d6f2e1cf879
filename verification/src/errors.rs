//! What can go wrong, and whether the watcher survives it.

use vstd::prelude::*;

verus! {

/// The failures the watcher distinguishes.
#[derive(Debug, Clone, Copy, PartialEq, Eq, Structural)]
pub enum WatchError {
    /// The glob pattern is malformed.
    InvalidPattern,
    /// The literal prefix of the pattern does not name an existing path.
    PathResolution,
    /// A resolved path could not be registered for watching.
    WatchRegistration,
    /// The notification source delivered an error instead of an event.
    NotificationStream,
    /// The shell could not be spawned.
    CommandSpawn,
}

/// The failures that end the process: those of the startup phase.
pub open spec fn fatal(e: WatchError) -> bool {
    e == WatchError::InvalidPattern || e == WatchError::PathResolution || e
        == WatchError::WatchRegistration
}

/// The name under which a failure is reported.
pub open spec fn error_name(e: WatchError) -> Seq<char> {
    match e {
        WatchError::InvalidPattern => "InvalidPatternError"@,
        WatchError::PathResolution => "PathResolutionError"@,
        WatchError::WatchRegistration => "WatchRegistrationError"@,
        WatchError::NotificationStream => "NotificationStreamError"@,
        WatchError::CommandSpawn => "CommandSpawnError"@,
    }
}

impl WatchError {
    /// The name under which the failure is reported.
    pub fn name(&self) -> (r: &'static str)
        ensures
            r@ == error_name(*self),
    {
        match self {
            WatchError::InvalidPattern => "InvalidPatternError",
            WatchError::PathResolution => "PathResolutionError",
            WatchError::WatchRegistration => "WatchRegistrationError",
            WatchError::NotificationStream => "NotificationStreamError",
            WatchError::CommandSpawn => "CommandSpawnError",
        }
    }

    /// Whether the failure ends the process. Failures met after watching has
    /// begun are reported and the loop goes on.
    pub fn is_fatal(&self) -> (r: bool)
        ensures
            r == fatal(*self),
    {
        match self {
            WatchError::InvalidPattern => true,
            WatchError::PathResolution => true,
            WatchError::WatchRegistration => true,
            WatchError::NotificationStream => false,
            WatchError::CommandSpawn => false,
        }
    }
}

} // verus!
