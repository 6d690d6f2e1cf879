//! The phases of the watcher and what each event makes it do.
//!
//! Running the command is no phase of its own here: a change only reaches the
//! debouncer, and the debouncer's driver runs the command while the watcher
//! goes on watching.

use crate::errors::WatchError;
use vstd::prelude::*;

verus! {

/// Where the watcher stands.
#[derive(Debug, Clone, Copy, PartialEq, Eq, Structural)]
pub enum Phase {
    /// Targets are being resolved and watches registered.
    Starting,
    /// Watches are in place; events are awaited.
    Watching,
    /// Startup failed; nothing is watched.
    Terminated,
}

/// What reaches the watcher.
#[derive(Debug, Clone, Copy, PartialEq, Eq, Structural)]
pub enum LoopEvent {
    /// Every target was resolved and registered.
    Ready,
    /// Startup failed with the given error.
    StartupFailed(WatchError),
    /// The notification source delivered a change.
    Change,
    /// The notification source delivered an error.
    StreamError,
}

/// What the driver has to do next.
#[derive(Debug, Clone, Copy, PartialEq, Eq, Structural)]
pub enum LoopAction {
    /// Run the command once, then announce the watch.
    RunThenAnnounce,
    /// Announce the watch.
    Announce,
    /// Tell the debouncer that a call arrived.
    Notify,
    /// Report the stream error and go on.
    Report,
    /// Report the error and leave with a failure status.
    Exit,
    /// Nothing.
    Ignore,
}

/// The phase after an event.
pub open spec fn next_phase(phase: Phase, event: LoopEvent) -> Phase {
    match (phase, event) {
        (Phase::Starting, LoopEvent::Ready) => Phase::Watching,
        (Phase::Starting, LoopEvent::StartupFailed(_)) => Phase::Terminated,
        _ => phase,
    }
}

/// The action that an event asks for.
pub open spec fn action_for(phase: Phase, event: LoopEvent, run_initially: bool) -> LoopAction {
    match (phase, event) {
        (Phase::Starting, LoopEvent::Ready) => if run_initially {
            LoopAction::RunThenAnnounce
        } else {
            LoopAction::Announce
        },
        (Phase::Starting, LoopEvent::StartupFailed(_)) => LoopAction::Exit,
        (Phase::Watching, LoopEvent::Change) => LoopAction::Notify,
        (Phase::Watching, LoopEvent::StreamError) => LoopAction::Report,
        _ => LoopAction::Ignore,
    }
}

/// The phase after a sequence of events.
pub open spec fn phase_after(phase: Phase, events: Seq<LoopEvent>) -> Phase
    decreases events.len(),
{
    if events.len() == 0 {
        phase
    } else {
        next_phase(phase_after(phase, events.drop_last()), events.last())
    }
}

/// Takes one event: returns the phase that follows and the action to perform.
pub fn step(phase: Phase, event: LoopEvent, run_initially: bool) -> (r: (Phase, LoopAction))
    ensures
        r.0 == next_phase(phase, event),
        r.1 == action_for(phase, event, run_initially),
{
    match phase {
        Phase::Starting => match event {
            LoopEvent::Ready => if run_initially {
                (Phase::Watching, LoopAction::RunThenAnnounce)
            } else {
                (Phase::Watching, LoopAction::Announce)
            },
            LoopEvent::StartupFailed(_) => (Phase::Terminated, LoopAction::Exit),
            _ => (phase, LoopAction::Ignore),
        },
        Phase::Watching => match event {
            LoopEvent::Change => (phase, LoopAction::Notify),
            LoopEvent::StreamError => (phase, LoopAction::Report),
            _ => (phase, LoopAction::Ignore),
        },
        Phase::Terminated => (phase, LoopAction::Ignore),
    }
}

/// Once watching, the watcher keeps watching whatever arrives, and once
/// terminated it stays so: no event leaves either phase.
pub proof fn watching_is_never_left(phase: Phase, events: Seq<LoopEvent>)
    requires
        phase != Phase::Starting,
    ensures
        phase_after(phase, events) == phase,
    decreases events.len(),
{
    if events.len() > 0 {
        watching_is_never_left(phase, events.drop_last());
    }
}

/// While watching, a change always reaches the debouncer and a stream error
/// is only reported; neither ends the loop.
pub proof fn stream_errors_are_not_fatal(run_initially: bool)
    ensures
        action_for(Phase::Watching, LoopEvent::Change, run_initially) == LoopAction::Notify,
        action_for(Phase::Watching, LoopEvent::StreamError, run_initially) == LoopAction::Report,
        next_phase(Phase::Watching, LoopEvent::StreamError) == Phase::Watching,
{
}

} // verus!
