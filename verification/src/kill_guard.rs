//! The kill-and-reap guard: while armed, the child it tracks must be sent
//! `SIGKILL` and reaped before the guard is abandoned. The launcher's
//! decision functions disarm it exactly when ownership of the child has been
//! handed back to a normal wait; on every error path it stays armed, so the
//! driver that executes the decisions fires it exactly once there.

use vstd::prelude::*;

verus! {

/// Tracks one child process that must be killed and reaped unless the guard
/// is neutralized first.
pub struct KillGuard {
    pid: i32,
    armed: bool,
}

impl KillGuard {
    /// The process the guard tracks.
    pub closed spec fn spec_pid(&self) -> i32 {
        self.pid
    }

    /// Whether abandoning the guard still owes a kill and a reap.
    pub closed spec fn spec_armed(&self) -> bool {
        self.armed
    }

    /// Create a kill guard for a given pid. It starts armed.
    pub fn new(pid: i32) -> (r: Self)
        ensures
            r.spec_pid() == pid,
            r.spec_armed(),
    {
        KillGuard { pid, armed: true }
    }

    /// Neutralize the guard: the child has been reaped, or is to be kept
    /// alive, so no kill is owed any more.
    pub fn neutralize(&mut self)
        ensures
            final(self).spec_pid() == old(self).spec_pid(),
            !final(self).spec_armed(),
    {
        self.armed = false;
    }

    pub fn pid(&self) -> (r: i32)
        ensures
            r == self.spec_pid(),
    {
        self.pid
    }

    pub fn is_armed(&self) -> (r: bool)
        ensures
            r == self.spec_armed(),
    {
        self.armed
    }
}

} // verus!
