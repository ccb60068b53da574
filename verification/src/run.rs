//! Parent-side supervision of a spawned container: the poll timeout, the
//! timeout decision, and the interpretation of the reaped wait status.

use vstd::prelude::*;
use crate::error::Error;
use crate::kill_guard::KillGuard;
use crate::status::{spec_success, ExitStatus};

verus! {

/// Error returned when running a command to completion.
pub enum RunError {
    /// The container machinery itself failed at some step.
    Container(Error),
    /// The command exceeded the timeout, in milliseconds.
    Timeout(u64),
    /// The command terminated unsuccessfully.
    Unsuccessful(ExitStatus),
}

/// The millisecond timeout handed to `poll(2)`, which takes a signed 32-bit
/// value: the requested timeout, clamped to that maximum.
pub fn poll_timeout_millis(timeout_ms: u64) -> (r: i32)
    ensures
        timeout_ms <= i32::MAX as u64 ==> r == timeout_ms,
        timeout_ms > i32::MAX as u64 ==> r == i32::MAX,
{
    if timeout_ms > 0x7fff_ffff {
        i32::MAX
    } else {
        timeout_ms as i32
    }
}

/// Decide what a `poll` on the pidfd meant. Zero ready descriptors is
/// exactly the timeout; the kill guard stays armed in that case, so the
/// caller kills and reaps the child.
pub fn run_decide_poll(npolled: usize, timeout_ms: u64) -> (r: Option<RunError>)
    ensures
        npolled == 0 <==> (r matches Some(e) && e matches RunError::Timeout(t) && t == timeout_ms),
        npolled != 0 <==> r is None,
{
    if npolled == 0 {
        Some(RunError::Timeout(timeout_ms))
    } else {
        None
    }
}

/// Decide the outcome from the reaped wait status. The child no longer
/// exists, so the guard is neutralized on both branches; the result is `Ok`
/// exactly for a normal exit with code zero, and never a `Container` error.
pub fn run_decide_status(guard: &mut KillGuard, status: ExitStatus) -> (r: Result<(), RunError>)
    requires
        old(guard).spec_armed(),
    ensures
        final(guard).spec_pid() == old(guard).spec_pid(),
        !final(guard).spec_armed(),
        spec_success(status.raw) <==> r is Ok,
        !spec_success(status.raw) ==> (r matches Err(e) && e matches RunError::Unsuccessful(s)
            && s == status),
{
    guard.neutralize();
    if status.success() {
        Ok(())
    } else {
        Err(RunError::Unsuccessful(status))
    }
}

} // verus!
