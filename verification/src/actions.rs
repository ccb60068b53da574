//! The run-action driver's setup: the directory skeleton of the container
//! root, the fixed compatibility symlinks, the ordered mount list with the
//! read-only bind-mount pair, and the assembly of the command descriptor.

use vstd::prelude::*;
use vstd::string::{StrSliceExecFns, StringSliceAdditionalSpecFns};
use crate::container::{
    Command, Mount, Stdio, MS_BIND, MS_NODEV, MS_NOEXEC, MS_NOSUID, MS_PRIVATE, MS_RDONLY, MS_REC,
    MS_REMOUNT,
};
use crate::cstr::{is_c_str, lemma_str_nul_free, CByteStr, CStringArray};
use crate::decimal::{dec_digits, u64_to_decimal};
use crate::error::Error;
use crate::run::RunError;

verus! {

/// What a run action borrows from its caller: the scratch directory that
/// becomes the container root, and the log file that captures all output.
pub struct ActionContext {
    pub scratch_dir: i32,
    pub log_file: i32,
}

/// Information needed for performing a run action.
pub struct PerformRunAction {
    /// The program to run; an absolute path.
    pub program: CByteStr,
    /// Arguments to pass to the program.
    pub arguments: CStringArray,
    /// Environment entries to pass to the program.
    pub environment: CStringArray,
    /// The maximum time the program may spend, in milliseconds.
    pub timeout_ms: u64,
}

impl PerformRunAction {
    pub open spec fn wf(&self) -> bool {
        &&& is_c_str(self.program@)
        &&& self.arguments.wf()
        &&& self.environment.wf()
    }
}

/// Error that occurs during a run action.
pub enum RunActionError {
    /// Setup of the container root failed.
    Io(Error),
    /// Running the command failed.
    Run(RunError),
}

/// The content of `/proc/self/setgroups`: supplementary groups are denied.
pub open spec fn setgroups_bytes() -> Seq<u8> {
    "deny\n".spec_bytes()
}

pub fn setgroups_line() -> (r: Vec<u8>)
    ensures
        r@ == setgroups_bytes(),
{
    "deny\n".as_bytes_vec()
}

/// The content of `/proc/self/uid_map` or `/proc/self/gid_map` mapping
/// root inside the container to `id` outside: `0 <id> 1`, newline-terminated.
pub open spec fn id_map_bytes(id: nat) -> Seq<u8> {
    "0 ".spec_bytes() + dec_digits(id) + " 1\n".spec_bytes()
}

pub fn id_map_line(id: u32) -> (r: Vec<u8>)
    ensures
        r@ == id_map_bytes(id as nat),
{
    let mut r = "0 ".as_bytes_vec();
    let mut digits = u64_to_decimal(id as u64);
    r.append(&mut digits);
    let mut tail = " 1\n".as_bytes_vec();
    r.append(&mut tail);
    proof {
        assert(r@ =~= id_map_bytes(id as nat));
    }
    r
}

/// One directory to create under the scratch root, with its mode.
pub struct DirPlan {
    pub path: CByteStr,
    pub mode: u32,
}

pub open spec fn is_dir_plan(d: DirPlan, path: Seq<char>, mode: u32) -> bool {
    &&& d.path@ == vstd::utf8::encode_utf8(path).push(0)
    &&& is_c_str(d.path@)
    &&& d.mode == mode
}

/// The directory skeleton of the container root, in creation order: parents
/// before children, `proc` read-only for everyone, and the `build` working
/// directory for the command itself.
pub fn scratch_dir_plan() -> (r: Vec<DirPlan>)
    ensures
        r@.len() == 7,
        is_dir_plan(r@[0], "bin"@, 0o755),
        is_dir_plan(r@[1], "nix"@, 0o755),
        is_dir_plan(r@[2], "nix/store"@, 0o755),
        is_dir_plan(r@[3], "proc"@, 0o555),
        is_dir_plan(r@[4], "usr"@, 0o755),
        is_dir_plan(r@[5], "usr/bin"@, 0o755),
        is_dir_plan(r@[6], "build"@, 0o755),
{
    proof {
        reveal_strlit("bin");
        reveal_strlit("nix");
        reveal_strlit("nix/store");
        reveal_strlit("proc");
        reveal_strlit("usr");
        reveal_strlit("usr/bin");
        reveal_strlit("build");
    }
    let mut r: Vec<DirPlan> = Vec::new();
    r.push(DirPlan { path: CByteStr::from_nul_free_str("bin"), mode: 0o755 });
    r.push(DirPlan { path: CByteStr::from_nul_free_str("nix"), mode: 0o755 });
    r.push(DirPlan { path: CByteStr::from_nul_free_str("nix/store"), mode: 0o755 });
    r.push(DirPlan { path: CByteStr::from_nul_free_str("proc"), mode: 0o555 });
    r.push(DirPlan { path: CByteStr::from_nul_free_str("usr"), mode: 0o755 });
    r.push(DirPlan { path: CByteStr::from_nul_free_str("usr/bin"), mode: 0o755 });
    r.push(DirPlan { path: CByteStr::from_nul_free_str("build"), mode: 0o755 });
    r
}

/// One symlink to install under the scratch root.
pub struct LinkPlan {
    pub target: CByteStr,
    pub linkpath: CByteStr,
}

fn link_target(prefix: &str, suffix: &str) -> (r: CByteStr)
    requires
        forall|i: int| 0 <= i < prefix@.len() ==> prefix@[i] != '\0',
        forall|i: int| 0 <= i < suffix@.len() ==> suffix@[i] != '\0',
    ensures
        r@ == prefix.spec_bytes() + suffix.spec_bytes() + seq![0u8],
        r.wf(),
{
    proof {
        lemma_str_nul_free(prefix);
        lemma_str_nul_free(suffix);
    }
    let mut bytes = prefix.as_bytes_vec();
    bytes.extend_from_slice(suffix.as_bytes());
    bytes.push(0);
    let r = CByteStr { bytes };
    proof {
        assert(r@ =~= prefix.spec_bytes() + suffix.spec_bytes() + seq![0u8]);
        assert forall|i: int| 0 <= i < r@.len() - 1 implies r@[i] != 0 by {
            let plen = prefix.spec_bytes().len() as int;
            if i < plen {
                assert(r@[i] == prefix.spec_bytes()[i]);
                assert(!prefix.spec_bytes().contains(0));
            } else {
                assert(r@[i] == suffix.spec_bytes()[i - plen]);
                assert(!suffix.spec_bytes().contains(0));
            }
        }
    }
    r
}

/// The fixed compatibility symlinks, installed whatever the declared inputs:
/// `bin/sh` to the bash package's shell and `usr/bin/env` to the coreutils
/// package's env, so shebang lines and `system(3)` callers keep resolving.
pub fn compat_symlink_plan(bash_path: &str, coreutils_path: &str) -> (r: Vec<LinkPlan>)
    requires
        forall|i: int| 0 <= i < bash_path@.len() ==> bash_path@[i] != '\0',
        forall|i: int| 0 <= i < coreutils_path@.len() ==> coreutils_path@[i] != '\0',
    ensures
        r@.len() == 2,
        r@[0].target@ == bash_path.spec_bytes() + "/bin/bash".spec_bytes() + seq![0u8],
        r@[0].linkpath@ == "bin/sh".spec_bytes().push(0),
        r@[1].target@ == coreutils_path.spec_bytes() + "/bin/env".spec_bytes() + seq![0u8],
        r@[1].linkpath@ == "usr/bin/env".spec_bytes().push(0),
        forall|i: int| 0 <= i < r@.len()
            ==> is_c_str((#[trigger] r@[i]).target@) && is_c_str(r@[i].linkpath@),
{
    proof {
        reveal_strlit("/bin/bash");
        reveal_strlit("/bin/env");
        reveal_strlit("bin/sh");
        reveal_strlit("usr/bin/env");
    }
    let mut r: Vec<LinkPlan> = Vec::new();
    r.push(LinkPlan {
        target: link_target(bash_path, "/bin/bash"),
        linkpath: CByteStr::from_nul_free_str("bin/sh"),
    });
    r.push(LinkPlan {
        target: link_target(coreutils_path, "/bin/env"),
        linkpath: CByteStr::from_nul_free_str("usr/bin/env"),
    });
    r
}

pub open spec fn is_mount(
    m: Mount,
    source: Seq<char>,
    target: Seq<char>,
    fstype: Seq<char>,
    flags: u64,
    data: Seq<char>,
) -> bool {
    &&& m.source@ == vstd::utf8::encode_utf8(source).push(0)
    &&& m.target@ == vstd::utf8::encode_utf8(target).push(0)
    &&& m.filesystemtype@ == vstd::utf8::encode_utf8(fstype).push(0)
    &&& m.mountflags == flags
    &&& m.data@ == vstd::utf8::encode_utf8(data).push(0)
}

/// The mount list of a run action, in its significant order: first the
/// recursive private remount of `/` that isolates mount events from the
/// host, then a fresh `proc` (which needs the private remount in place),
/// then the read-only bind-mount pair for the package store.
pub open spec fn is_run_action_mounts(mounts: Seq<Mount>) -> bool {
    &&& mounts.len() == 4
    &&& is_mount(mounts[0], "none"@, "/"@, ""@, MS_PRIVATE | MS_REC, ""@)
    &&& is_mount(mounts[1], "proc"@, "proc"@, "proc"@, MS_NODEV | MS_NOEXEC | MS_NOSUID, ""@)
    &&& is_mount(mounts[2], "/nix/store"@, "nix/store"@, ""@, MS_BIND | MS_REC, ""@)
    &&& is_mount(mounts[3], "none"@, "nix/store"@, ""@, MS_BIND | MS_REC | MS_RDONLY | MS_REMOUNT, ""@)
}

/// Append a read-only recursive bind mount of `source` at `target` as the
/// two-step protocol the kernel requires: a writable recursive bind first,
/// then a read-only remount of the same target, because the kernel ignores
/// `MS_RDONLY` on the initial bind.
pub fn mount_bind_rdonly(mounts: &mut Vec<Mount>, source: CByteStr, target: CByteStr)
    requires
        source.wf(),
        target.wf(),
    ensures
        final(mounts)@.len() == old(mounts)@.len() + 2,
        final(mounts)@.subrange(0, old(mounts)@.len() as int) == old(mounts)@,
        ({
            let n = old(mounts)@.len() as int;
            &&& final(mounts)@[n].source@ == source@
            &&& final(mounts)@[n].target@ == target@
            &&& final(mounts)@[n].filesystemtype@ == seq![0u8]
            &&& final(mounts)@[n].mountflags == MS_BIND | MS_REC
            &&& final(mounts)@[n].data@ == seq![0u8]
            &&& final(mounts)@[n + 1].source@ == "none".spec_bytes().push(0)
            &&& final(mounts)@[n + 1].target@ == target@
            &&& final(mounts)@[n + 1].filesystemtype@ == seq![0u8]
            &&& final(mounts)@[n + 1].mountflags == MS_BIND | MS_REC | MS_RDONLY | MS_REMOUNT
            &&& final(mounts)@[n + 1].data@ == seq![0u8]
        }),
{
    proof {
        reveal_strlit("none");
    }
    let flags1 = MS_BIND | MS_REC;
    let flags2 = flags1 | MS_RDONLY | MS_REMOUNT;
    let target2 = target.clone();
    mounts.push(Mount {
        source,
        target,
        filesystemtype: CByteStr::empty(),
        mountflags: flags1,
        data: CByteStr::empty(),
    });
    mounts.push(Mount {
        source: CByteStr::from_nul_free_str("none"),
        target: target2,
        filesystemtype: CByteStr::empty(),
        mountflags: flags2,
        data: CByteStr::empty(),
    });
    proof {
        assert(mounts@.subrange(0, old(mounts)@.len() as int) =~= old(mounts)@);
    }
}

/// Collect the run action's mounts, in their declared order.
pub fn collect_mounts() -> (r: Vec<Mount>)
    ensures
        is_run_action_mounts(r@),
        forall|i: int| 0 <= i < r@.len() ==> (#[trigger] r@[i]).wf(),
{
    proof {
        reveal_strlit("none");
        reveal_strlit("/");
        reveal_strlit("proc");
        reveal_strlit("/nix/store");
        reveal_strlit("nix/store");
        reveal_strlit("");
    }
    let mut mounts: Vec<Mount> = Vec::new();

    // systemd mounts `/` as `MS_SHARED`, but `MS_PRIVATE` is more isolated.
    mounts.push(Mount {
        source: CByteStr::from_nul_free_str("none"),
        target: CByteStr::from_nul_free_str("/"),
        filesystemtype: CByteStr::empty(),
        mountflags: MS_PRIVATE | MS_REC,
        data: CByteStr::empty(),
    });

    // Mount `/proc`, which some programs need to function properly.
    mounts.push(Mount {
        source: CByteStr::from_nul_free_str("proc"),
        target: CByteStr::from_nul_free_str("proc"),
        filesystemtype: CByteStr::from_nul_free_str("proc"),
        mountflags: MS_NODEV | MS_NOEXEC | MS_NOSUID,
        data: CByteStr::empty(),
    });

    // Bind-mount the package store read-only into the container.
    let ghost pre = mounts@;
    mount_bind_rdonly(
        &mut mounts,
        CByteStr::from_nul_free_str("/nix/store"),
        CByteStr::from_nul_free_str("nix/store"),
    );

    proof {
        assert(mounts@.subrange(0, 2)[0] == mounts@[0]);
        assert(mounts@.subrange(0, 2)[1] == mounts@[1]);
        assert(mounts@[0] == pre[0]);
        assert(mounts@[1] == pre[1]);
        assert(vstd::utf8::encode_utf8(""@).push(0) =~= seq![0u8]);
    }
    mounts
}

/// Assemble the command a run action spawns: root in the container mapped to
/// the invoking user outside, the scratch directory as the new root, the
/// `build` directory as working directory, stdin severed, and all output
/// captured by the log file.
pub fn build_run_command(info: PerformRunAction, context: &ActionContext, uid: u32, gid: u32) -> (r:
    Command)
    requires
        info.wf(),
    ensures
        r.setgroups@ == setgroups_bytes(),
        r.uid_map@ == id_map_bytes(uid as nat),
        r.gid_map@ == id_map_bytes(gid as nat),
        r.fchdir == context.scratch_dir,
        is_run_action_mounts(r.mounts@),
        r.chroot@ == ".".spec_bytes().push(0),
        r.chroot_chdir@ == "/build".spec_bytes().push(0),
        r.execve_pathname == info.program,
        r.execve_argv == info.arguments,
        r.execve_envp == info.environment,
        r.stdin == Stdio::Close,
        r.stdout == (Stdio::Dup2 { oldfd: context.log_file }),
        r.stderr == (Stdio::Dup2 { oldfd: context.log_file }),
        r.wf(),
{
    proof {
        reveal_strlit(".");
        reveal_strlit("/build");
    }
    Command {
        setgroups: setgroups_line(),
        uid_map: id_map_line(uid),
        gid_map: id_map_line(gid),
        fchdir: context.scratch_dir,
        mounts: collect_mounts(),
        chroot: CByteStr::from_nul_free_str("."),
        chroot_chdir: CByteStr::from_nul_free_str("/build"),
        execve_pathname: info.program,
        execve_argv: info.arguments,
        execve_envp: info.environment,
        stdin: Stdio::Close,
        stdout: Stdio::Dup2 { oldfd: context.log_file },
        stderr: Stdio::Dup2 { oldfd: context.log_file },
    }
}

} // verus!
