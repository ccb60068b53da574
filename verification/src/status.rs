//! Interpretation of the raw wait status `waitpid` reports, following the
//! encoding `wait(2)` documents: the low seven bits carry the terminating
//! signal (zero for a normal exit), the next eight bits the exit code.

use vstd::prelude::*;

verus! {

/// The process terminated normally (by `_exit` or by returning from `main`).
pub open spec fn spec_exited(raw: i32) -> bool {
    raw & 0x7f == 0
}

/// The exit code of a normally terminated process.
pub open spec fn spec_exit_code(raw: i32) -> i32 {
    (raw >> 8) & 0xff
}

/// The process was terminated by a signal.
pub open spec fn spec_signaled(raw: i32) -> bool {
    raw & 0x7f != 0 && raw & 0x7f != 0x7f
}

/// The signal that terminated the process.
pub open spec fn spec_term_signal(raw: i32) -> i32 {
    raw & 0x7f
}

/// Termination counts as successful exactly when the process exited normally
/// with code zero.
pub open spec fn spec_success(raw: i32) -> bool {
    spec_exited(raw) && spec_exit_code(raw) == 0
}

/// A raw wait status as `waitpid` reports it.
#[derive(Clone, Copy, PartialEq, Eq, Structural, Debug)]
pub struct ExitStatus {
    pub raw: i32,
}

impl ExitStatus {
    pub fn from_raw(raw: i32) -> (r: Self)
        ensures
            r.raw == raw,
    {
        ExitStatus { raw }
    }

    /// Whether the status is a normal exit with code zero.
    pub fn success(&self) -> (r: bool)
        ensures
            r == spec_success(self.raw),
    {
        self.raw & 0x7f == 0 && (self.raw >> 8) & 0xff == 0
    }

    /// The exit code, if the process exited normally.
    pub fn code(&self) -> (r: Option<i32>)
        ensures
            spec_exited(self.raw) ==> (r matches Some(c) && c == spec_exit_code(self.raw)),
            !spec_exited(self.raw) ==> r is None,
    {
        if self.raw & 0x7f == 0 {
            Some((self.raw >> 8) & 0xff)
        } else {
            None
        }
    }

    /// The terminating signal, if the process was killed by one.
    pub fn signal(&self) -> (r: Option<i32>)
        ensures
            spec_signaled(self.raw) ==> (r matches Some(s) && s == spec_term_signal(self.raw)),
            !spec_signaled(self.raw) ==> r is None,
    {
        let low = self.raw & 0x7f;
        if low != 0 && low != 0x7f {
            Some(low)
        } else {
            None
        }
    }
}

} // verus!
