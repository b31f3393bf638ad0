//! The process supervisor's decisions: it owns at most one handle to the
//! external engine process. Spawning and killing are the surrounding
//! process's I/O; what is recorded and who gets to stop the process is
//! decided — and proved — here.

use vstd::prelude::*;

verus! {

/// Owns at most one identifier of the running engine process.
pub struct EngineSupervisor {
    handle: Option<u32>,
}

impl EngineSupervisor {
    /// The recorded process identifier, if a process is considered running.
    pub closed spec fn handle_of(self) -> Option<u32> {
        self.handle
    }

    /// A supervisor with no process.
    pub fn new() -> (r: EngineSupervisor)
        ensures
            r.handle_of() is None,
    {
        EngineSupervisor { handle: None }
    }

    /// Records the outcome of one spawn attempt: the identifier on
    /// success, nothing on failure — a failed spawn is non-fatal, leaves
    /// the handle empty, and is not retried.
    pub fn record_spawn(&mut self, spawned: Option<u32>)
        requires
            old(self).handle_of() is None,
        ensures
            final(self).handle_of() == spawned,
    {
        self.handle = spawned;
    }

    /// Takes exclusive ownership of the handle for a stop: the first
    /// caller receives the identifier to terminate, and the handle is
    /// cleared, so any concurrent or later call receives nothing and does
    /// nothing — stop is idempotent. Termination itself is fire-and-forget
    /// and confirmed by nobody.
    pub fn take_for_stop(&mut self) -> (r: Option<u32>)
        ensures
            r == old(self).handle_of(),
            final(self).handle_of() is None,
    {
        let h = self.handle;
        self.handle = None;
        h
    }
}

/// Stopping twice hands the process to the first caller alone: after any
/// stop the handle is empty, so a second stop receives nothing — calling
/// stop on an already-stopped supervisor is a no-op.
pub proof fn lemma_stop_idempotent(
    s0: EngineSupervisor,
    s1: EngineSupervisor,
    r1: Option<u32>,
    s2: EngineSupervisor,
    r2: Option<u32>,
)
    requires
        r1 == s0.handle_of(),
        s1.handle_of() is None,
        r2 == s1.handle_of(),
        s2.handle_of() is None,
    ensures
        r2 is None,
        s2.handle_of() == s1.handle_of(),
{
}

} // verus!
