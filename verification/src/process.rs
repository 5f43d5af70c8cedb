//! Ownership of the spawned server process, as the supervisor sees it.
//!
//! The host shell keeps the OS child; this handle records whether a kill
//! request is still owed when the host shuts down, and makes termination
//! idempotent: asking twice, or after the process already exited, asks the
//! shell to do nothing.

use vstd::prelude::*;

verus! {

/// What the supervisor knows about the server process.
#[derive(Debug, PartialEq, Eq, Clone, Copy)]
pub enum ProcessStatus {
    /// No launch attempt has handed over a live process.
    NotSpawned,
    /// A launch attempt succeeded and the process is presumed alive.
    Running,
    /// The host observed that the process exited on its own.
    Exited,
    /// A kill request was already issued for the process.
    Terminated,
}

/// Owns at most one live process at a time.
#[derive(Debug, PartialEq, Eq, Clone, Copy)]
pub struct ProcessHandle {
    pub status: ProcessStatus,
}

/// What [`ProcessHandle::terminate`] does: a kill request is owed exactly
/// when the process is still presumed running; any other status is left
/// alone and no request is issued.
pub open spec fn spec_terminate(h: ProcessHandle) -> (ProcessHandle, bool) {
    if h.status is Running {
        (ProcessHandle { status: ProcessStatus::Terminated }, true)
    } else {
        (h, false)
    }
}

impl ProcessHandle {
    /// A handle with no process behind it.
    pub fn new() -> (h: ProcessHandle)
        ensures
            h.status is NotSpawned,
    {
        ProcessHandle { status: ProcessStatus::NotSpawned }
    }

    /// Records that the host observed the process exiting on its own.
    pub fn record_exit(&mut self)
        ensures
            old(self).status is Running ==> final(self).status is Exited,
            !(old(self).status is Running) ==> *final(self) == *old(self),
    {
        if let ProcessStatus::Running = self.status {
            self.status = ProcessStatus::Exited;
        }
    }

    /// Decides whether the host must kill the process now. Returns true
    /// exactly when a kill request is owed; calling again, or calling on a
    /// process that already exited, returns false and changes nothing.
    pub fn terminate(&mut self) -> (kill: bool)
        ensures
            (*final(self), kill) == spec_terminate(*old(self)),
    {
        if let ProcessStatus::Running = self.status {
            self.status = ProcessStatus::Terminated;
            true
        } else {
            false
        }
    }
}

/// Termination is idempotent: after one request, a second request changes
/// nothing and issues no kill.
pub proof fn lemma_terminate_idempotent(h: ProcessHandle)
    ensures
        spec_terminate(spec_terminate(h).0).0 == spec_terminate(h).0,
        !spec_terminate(spec_terminate(h).0).1,
{
}

/// Terminating a process that already exited is a no-op: the handle keeps
/// its status and no kill request is issued.
pub proof fn lemma_terminate_after_exit_noop(h: ProcessHandle)
    requires
        h.status is Exited,
    ensures
        spec_terminate(h) == (h, false),
{
}

} // verus!
