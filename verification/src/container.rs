//! The command descriptor a container is launched from: fully pre-serialized
//! values, so the child process needs no allocation between `clone` and
//! `execve`.

use vstd::prelude::*;
use crate::cstr::{is_c_str, CByteStr, CStringArray};

verus! {

// Mount flags, with the values `mount(2)` documents for the Linux kernel ABI.
pub const MS_RDONLY: u64 = 1;
pub const MS_NOSUID: u64 = 2;
pub const MS_NODEV: u64 = 4;
pub const MS_NOEXEC: u64 = 8;
pub const MS_REMOUNT: u64 = 32;
pub const MS_BIND: u64 = 4096;
pub const MS_REC: u64 = 16384;
pub const MS_PRIVATE: u64 = 1u64 << 18;

// Namespace flags for `clone3(2)`, with the values `clone(2)` documents.
pub const CLONE_NEWNS: u64 = 0x00020000;
pub const CLONE_PIDFD: u64 = 0x00001000;
pub const CLONE_NEWCGROUP: u64 = 0x02000000;
pub const CLONE_NEWUTS: u64 = 0x04000000;
pub const CLONE_NEWIPC: u64 = 0x08000000;
pub const CLONE_NEWUSER: u64 = 0x10000000;
pub const CLONE_NEWPID: u64 = 0x20000000;
pub const CLONE_NEWNET: u64 = 0x40000000;

/// The namespace set every container is created with: one fresh namespace of
/// each kind, plus a pidfd for the parent to wait on.
pub const SPAWN_CLONE_FLAGS: u64 = CLONE_NEWCGROUP | CLONE_NEWIPC | CLONE_NEWNET | CLONE_NEWNS
    | CLONE_NEWPID | CLONE_NEWUSER | CLONE_NEWUTS | CLONE_PIDFD;

/// Arguments to one `mount(2)` call.
pub struct Mount {
    pub source: CByteStr,
    pub target: CByteStr,
    pub filesystemtype: CByteStr,
    pub mountflags: u64,
    pub data: CByteStr,
}

impl Mount {
    pub open spec fn wf(&self) -> bool {
        &&& is_c_str(self.source@)
        &&& is_c_str(self.target@)
        &&& is_c_str(self.filesystemtype@)
        &&& is_c_str(self.data@)
    }
}

impl Clone for Mount {
    fn clone(&self) -> (r: Self)
        ensures
            r.source@ == self.source@,
            r.target@ == self.target@,
            r.filesystemtype@ == self.filesystemtype@,
            r.mountflags == self.mountflags,
            r.data@ == self.data@,
    {
        Mount {
            source: self.source.clone(),
            target: self.target.clone(),
            filesystemtype: self.filesystemtype.clone(),
            mountflags: self.mountflags,
            data: self.data.clone(),
        }
    }
}

/// How the child adjusts one of its standard file descriptors.
#[derive(Clone, Copy, PartialEq, Eq, Structural, Debug)]
pub enum Stdio {
    /// Do not adjust the file descriptor.
    Inherit,
    /// Close the file descriptor.
    Close,
    /// Duplicate `oldfd` onto the file descriptor, leaving `oldfd` open.
    Dup2 { oldfd: i32 },
}

/// Command to be run in a container.
///
/// Every field is prepared in the parent before the child exists: byte
/// buffers for the id-map files, NUL-terminated paths, and the argument and
/// environment vectors, so the pre-exec sequence is free of allocation.
pub struct Command {
    /// Contents written verbatim into `/proc/self/setgroups`,
    /// `/proc/self/uid_map` and `/proc/self/gid_map`.
    pub setgroups: Vec<u8>,
    pub uid_map: Vec<u8>,
    pub gid_map: Vec<u8>,

    /// Directory handle of the scratch root; the child enters the directory
    /// it refers to before mounting. Borrowed, never closed here.
    pub fchdir: i32,

    /// Mounts to perform, in order; later mounts may layer on earlier ones.
    pub mounts: Vec<Mount>,

    /// Root directory, relative to the scratch directory.
    pub chroot: CByteStr,

    /// Directory to change to after entering the chroot.
    pub chroot_chdir: CByteStr,

    /// Arguments to `execve(2)`.
    pub execve_pathname: CByteStr,
    pub execve_argv: CStringArray,
    pub execve_envp: CStringArray,

    /// File descriptors to adjust.
    pub stdin: Stdio,
    pub stdout: Stdio,
    pub stderr: Stdio,
}

impl Command {
    /// Every path and string the child will feed to a syscall is a
    /// well-formed C string: exactly one NUL, at the end.
    pub open spec fn wf(&self) -> bool {
        &&& is_c_str(self.chroot@)
        &&& is_c_str(self.chroot_chdir@)
        &&& is_c_str(self.execve_pathname@)
        &&& self.execve_argv.wf()
        &&& self.execve_envp.wf()
        &&& forall|i: int| 0 <= i < self.mounts@.len() ==> (#[trigger] self.mounts@[i]).wf()
    }
}

} // verus!
