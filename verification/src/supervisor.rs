//! Life cycle of the single backend process handle.
//!
//! The launcher owns at most one live child process at a time.  The
//! supervisor tracks that slot: spawning fills it exactly once, and
//! shutdown takes the handle out, decides from a liveness poll whether
//! the child already exited or must be terminated, and records the
//! exit.  Taking the handle out of an empty slot is a no-op, which
//! makes shutdown idempotent.  The caller performs the actual spawn,
//! poll, signal and wait, and reports their outcomes here.

use vstd::prelude::*;

verus! {

/// Abstract state of the supervisor: the process handle slot (a child
/// identified by its process id) and the last recorded exit status.
pub struct SupervisorState {
    pub handle: Option<u64>,
    pub last_exit: Option<i32>,
}

/// State after a successful spawn was recorded.
pub open spec fn spawn_recorded(s: SupervisorState, pid: u64) -> SupervisorState {
    SupervisorState { handle: Some(pid), ..s }
}

/// State after shutdown took the handle out of the slot.
pub open spec fn handle_taken(s: SupervisorState) -> SupervisorState {
    SupervisorState { handle: None, ..s }
}

/// State after an exit status was recorded.
pub open spec fn exit_recorded(s: SupervisorState, status: i32) -> SupervisorState {
    SupervisorState { last_exit: Some(status), ..s }
}

/// Shutdown on a never-started (or already shut down) supervisor
/// changes nothing: taking the handle out of an empty slot is a no-op.
pub proof fn lemma_shutdown_noop_when_idle(s: SupervisorState)
    requires
        s.handle is None,
    ensures
        handle_taken(s) == s,
{
}

/// Shutdown is idempotent: taking the handle twice leaves the same
/// state as taking it once.
pub proof fn lemma_shutdown_idempotent(s: SupervisorState)
    ensures
        handle_taken(handle_taken(s)) == handle_taken(s),
{
}

/// Owner of the single backend process slot.
pub struct Supervisor {
    child: Option<u64>,
    exit_status: Option<i32>,
}

impl View for Supervisor {
    type V = SupervisorState;

    closed spec fn view(&self) -> SupervisorState {
        SupervisorState { handle: self.child, last_exit: self.exit_status }
    }
}

impl Supervisor {
    /// A fresh supervisor: no child was ever started.
    pub fn new() -> (s: Self)
        ensures
            s@ == (SupervisorState { handle: None, last_exit: None }),
    {
        Supervisor { child: None, exit_status: None }
    }

    /// Record a successful spawn.  The slot must be empty: at most one
    /// live handle exists at any time.
    pub fn record_spawn(&mut self, pid: u64)
        requires
            old(self)@.handle is None,
        ensures
            final(self)@ == spawn_recorded(old(self)@, pid),
    {
        self.child = Some(pid);
    }

    /// Take the handle out of the slot, if any.  Returns the stored
    /// handle and leaves the slot empty; on an empty slot this does
    /// nothing and returns `None`.
    pub fn take_handle(&mut self) -> (h: Option<u64>)
        ensures
            h == old(self)@.handle,
            final(self)@ == handle_taken(old(self)@),
    {
        let h = self.child;
        self.child = None;
        h
    }

    /// Record the exit status of the child that was shut down.
    pub fn record_exit(&mut self, status: i32)
        ensures
            final(self)@ == exit_recorded(old(self)@, status),
    {
        self.exit_status = Some(status);
    }

    /// Whether a child handle is currently stored.
    pub fn has_backend(&self) -> (b: bool)
        ensures
            b == (self@.handle is Some),
    {
        self.child.is_some()
    }

    /// The last recorded exit status, if any child exited yet.
    pub fn last_exit_status(&self) -> (r: Option<i32>)
        ensures
            r == self@.last_exit,
    {
        self.exit_status
    }
}

/// What shutdown must do with a live handle, decided from a
/// non-blocking liveness poll of the child.
#[derive(Clone, Copy, Debug, PartialEq, Eq, Structural)]
pub enum ShutdownAction {
    /// The child already exited with this status: record it, send no
    /// signal.
    RecordExit(i32),
    /// The child still runs: send a termination request, then wait
    /// for it to exit.
    Terminate,
}

/// Decide the shutdown action from the poll result: an exit status
/// means the child is already gone, no status means it still runs and
/// must be terminated.
pub fn shutdown_decision(poll: Option<i32>) -> (a: ShutdownAction)
    ensures
        a == (match poll {
            Some(status) => ShutdownAction::RecordExit(status),
            None => ShutdownAction::Terminate,
        }),
{
    match poll {
        Some(status) => ShutdownAction::RecordExit(status),
        None => ShutdownAction::Terminate,
    }
}

} // verus!
