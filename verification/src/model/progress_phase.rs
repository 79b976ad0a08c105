//! Lifecycle phases of self-describing progress events.

use vstd::prelude::*;

verus! {

/// Lifecycle phase of a progress event.
#[derive(Debug, Clone, Copy, PartialEq, Eq, Hash, Structural)]
pub enum ProgressPhase {
    /// Operation has started.
    Started,
    /// Operation is still running.
    Running,
    /// Operation finished successfully.
    Finished,
    /// Operation failed.
    Failed,
    /// Operation was canceled.
    Canceled,
}

/// The stable lower-case name of a phase.
pub open spec fn progress_phase_name(p: ProgressPhase) -> Seq<char> {
    match p {
        ProgressPhase::Started => "started"@,
        ProgressPhase::Running => "running"@,
        ProgressPhase::Finished => "finished"@,
        ProgressPhase::Failed => "failed"@,
        ProgressPhase::Canceled => "canceled"@,
    }
}

impl ProgressPhase {
    /// Returns the phase as a stable lower-case string.
    pub fn as_str(self) -> (name: &'static str)
        ensures
            name@ == progress_phase_name(self),
    {
        match self {
            ProgressPhase::Started => "started",
            ProgressPhase::Running => "running",
            ProgressPhase::Finished => "finished",
            ProgressPhase::Failed => "failed",
            ProgressPhase::Canceled => "canceled",
        }
    }

    /// Returns `true` for terminal phases: finished, failed, or canceled.
    pub fn is_terminal(self) -> (r: bool)
        ensures
            r == (self is Finished || self is Failed || self is Canceled),
    {
        match self {
            ProgressPhase::Finished | ProgressPhase::Failed | ProgressPhase::Canceled => true,
            _ => false,
        }
    }
}

/// Every phase has its own name: two phases share a name only when they are
/// the same phase, and each of the five names belongs to exactly one phase
/// (a failed phase is named `failed`, never anything else).
pub proof fn lemma_progress_phase_names_distinct(p: ProgressPhase, q: ProgressPhase)
    ensures
        progress_phase_name(p) == progress_phase_name(q) <==> p == q,
        progress_phase_name(p) == "started"@ <==> p is Started,
        progress_phase_name(p) == "running"@ <==> p is Running,
        progress_phase_name(p) == "finished"@ <==> p is Finished,
        progress_phase_name(p) == "failed"@ <==> p is Failed,
        progress_phase_name(p) == "canceled"@ <==> p is Canceled,
{
    reveal_strlit("started");
    reveal_strlit("running");
    reveal_strlit("finished");
    reveal_strlit("failed");
    reveal_strlit("canceled");
    assert("started"@[0] != "running"@[0]);
    assert("finished"@[0] != "canceled"@[0]);
    assert("started"@.len() != "failed"@.len());
    assert("started"@.len() != "finished"@.len());
    assert("running"@.len() != "failed"@.len());
    assert("running"@.len() != "canceled"@.len());
    assert("finished"@.len() != "failed"@.len());
    assert("failed"@.len() != "canceled"@.len());
    assert("started"@.len() != "canceled"@.len());
    assert("running"@.len() != "finished"@.len());
}

} // verus!
