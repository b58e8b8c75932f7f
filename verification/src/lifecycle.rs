//! Lifecycle of the durable-log recorder.
//!
//! The boundary layer owns the actual sink handle; this module owns the
//! decisions: the recorder opens at most once, and closing is idempotent —
//! the sink is handed back for closing exactly once, on the shutdown that
//! ends a live recording.

use vstd::prelude::*;

verus! {

/// Where the recorder stands in its life.
#[derive(Debug, Clone, Copy, PartialEq, Eq, Structural)]
pub enum RecorderPhase {
    /// No recording was ever started.
    Inactive,
    /// A recording is live: the boundary layer holds an open sink.
    Recording,
    /// Shut down; the recorder cannot be reopened.
    Stopped,
}

/// Starts a recording.  Succeeds exactly once, from the inactive phase:
/// a second start reports failure and changes nothing, since the live
/// sink must never be replaced.
pub fn init(phase: &mut RecorderPhase) -> (r: bool)
    ensures
        r == (*old(phase) == RecorderPhase::Inactive),
        r ==> *final(phase) == RecorderPhase::Recording,
        !r ==> *final(phase) == *old(phase),
{
    match phase {
        RecorderPhase::Inactive => {
            *phase = RecorderPhase::Recording;
            true
        },
        _ => false,
    }
}

/// Shuts the recorder down.  Always leaves it stopped; returns whether
/// the caller must close the sink, which is owed exactly when a recording
/// was live — so repeated shutdowns close the sink at most once.
pub fn shutdown(phase: &mut RecorderPhase) -> (close_sink: bool)
    ensures
        close_sink == (*old(phase) == RecorderPhase::Recording),
        *final(phase) == RecorderPhase::Stopped,
{
    let was_recording = match phase {
        RecorderPhase::Recording => true,
        _ => false,
    };
    *phase = RecorderPhase::Stopped;
    was_recording
}

} // verus!
