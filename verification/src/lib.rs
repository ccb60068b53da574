//! A Linux container launcher.
//!
//! The crate models the launch of a single program inside freshly created
//! kernel namespaces: a pre-serialized command descriptor, the ordered
//! pre-exec step plan the child must follow, the one-shot error packet the
//! child reports failures through, the kill-and-reap guard the parent holds,
//! and the run-action setup that composes the container's filesystem root.
//!
//! Everything that decides or computes is verified here. The system calls
//! themselves (clone, mount, chroot, execve, poll, waitpid, ...) are carried
//! out by an unverified driver that executes the plans and decisions this
//! crate produces.

pub mod actions;
pub mod container;
pub mod cstr;
pub mod decimal;
pub mod error;
pub mod kill_guard;
pub mod run;
pub mod spawn;
pub mod status;
