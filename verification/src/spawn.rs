//! The spawn pipeline around the `clone3` boundary: the ordered pre-exec
//! step plan the child follows, the one-shot error packet it reports
//! failures through, and the parent-side conclusion that settles the kill
//! guard once the pipe has been read to EOF.

use vstd::prelude::*;
use vstd::bytes::{
    lemma_auto_spec_u32_to_from_le_bytes, spec_u32_from_le_bytes, spec_u32_to_le_bytes,
    u32_from_le_bytes, u32_to_le_bytes,
};
use vstd::string::{StringExecFns, StringSliceAdditionalSpecFns};
use vstd::utf8::{decode_utf8, encode_utf8, valid_utf8};
use crate::container::{Command, Mount, Stdio};
use crate::cstr::{is_c_str, lemma_str_nul_free, CByteStr, CStringArray};
use crate::decimal::{dec_digits, lemma_dec_digits_ascii, u64_to_decimal};
use crate::error::{Error, SYNTHETIC_OS_CODE};
use crate::kill_guard::KillGuard;

verus! {

/// What `String::from_utf8_lossy` decodes the given bytes to.
pub uninterp spec fn utf8_lossy(bytes: Seq<u8>) -> Seq<char>;

/// Relies on std's `String::from_utf8_lossy`: the result is a function of the
/// bytes alone, and valid UTF-8 decodes without replacement characters.
#[verifier::external_body]
fn bytes_to_string_lossy(bytes: &[u8]) -> (r: String)
    ensures
        r@ == utf8_lossy(bytes@),
        valid_utf8(bytes@) ==> r@ == decode_utf8(bytes@),
{
    String::from_utf8_lossy(bytes).into_owned()
}

/// The one-shot error packet the child writes into the pre-exec pipe: the
/// OS error code as four little-endian bytes, then the context label's bytes.
pub open spec fn spec_error_packet(code: i32, context: Seq<u8>) -> Seq<u8> {
    spec_u32_to_le_bytes(code as u32) + context
}

/// Encode a pre-exec failure for the pipe.
pub fn encode_error_packet(code: i32, context: &str) -> (r: Vec<u8>)
    ensures
        r@ == spec_error_packet(code, context.spec_bytes()),
{
    let mut r = u32_to_le_bytes(#[verifier::truncate] (code as u32));
    r.extend_from_slice(context.as_bytes());
    proof {
        assert(r@ =~= spec_error_packet(code, context.spec_bytes()));
    }
    r
}

/// The OS error code for "try again", as `errno(3)` documents it on Linux;
/// the launcher reports a short write under this code.
pub const EAGAIN: i32 = 11;

/// The write-step rule: the single write call of a `WriteFile` step must
/// cover the whole buffer; a short write maps to `EAGAIN` instead of being
/// retried, since the id-map files reject piecewise writes anyway.
pub fn check_write_len(nwritten: usize, expected: usize) -> (r: Result<(), i32>)
    ensures
        nwritten == expected <==> r is Ok,
        nwritten != expected <==> (r matches Err(c) && c == EAGAIN),
{
    if nwritten == expected {
        Ok(())
    } else {
        Err(EAGAIN)
    }
}

/// What the parent learned from reading the pre-exec pipe to EOF.
pub enum ChildReport {
    /// The pipe closed empty: `execve` succeeded and closed it.
    ExecSucceeded,
    /// The child reported which step failed, and with which OS code.
    Failed(Error),
    /// The child died partway through writing the packet.
    Truncated,
}

/// Decode the bytes the pre-exec pipe carried.
pub fn decode_child_report(bytes: &[u8]) -> (r: ChildReport)
    ensures
        bytes@.len() == 0 ==> r is ExecSucceeded,
        bytes@.len() > 4 ==> (r matches ChildReport::Failed(e)
            && e.os_code as u32 == spec_u32_from_le_bytes(bytes@.subrange(0, 4))
            && e.message is None
            && e.context@ == utf8_lossy(bytes@.skip(4))
            && (valid_utf8(bytes@.skip(4)) ==> e.context@ == decode_utf8(bytes@.skip(4)))),
        0 < bytes@.len() <= 4 ==> r is Truncated,
{
    let n = bytes.len();
    if n == 0 {
        ChildReport::ExecSucceeded
    } else if n > 4 {
        let head = vstd::slice::slice_subrange(bytes, 0, 4);
        let code_u = u32_from_le_bytes(head);
        let code = #[verifier::truncate] (code_u as i32);
        proof {
            assert(code as u32 == code_u) by (bit_vector)
                requires
                    code == code_u as i32,
            ;
        }
        let rest = vstd::slice::slice_subrange(bytes, 4, n);
        proof {
            assert(rest@ =~= bytes@.skip(4));
        }
        let context = bytes_to_string_lossy(rest);
        ChildReport::Failed(Error { os_code: code, message: None, context })
    } else {
        ChildReport::Truncated
    }
}

/// The packet decodes to what was encoded: the first four bytes carry the
/// code, the rest carry the context label, whose UTF-8 encoding decodes back
/// to the label itself. So a failure injected at any step surfaces with that
/// step's label and its original OS code.
pub proof fn lemma_error_packet_roundtrip(code: i32, context: &str)
    ensures
        ({
            let p = spec_error_packet(code, context.spec_bytes());
            &&& p.len() == 4 + context.spec_bytes().len()
            &&& spec_u32_from_le_bytes(p.subrange(0, 4)) as i32 == code
            &&& p.skip(4) == context.spec_bytes()
            &&& valid_utf8(context.spec_bytes())
            &&& decode_utf8(context.spec_bytes()) == context@
            &&& context@.len() > 0 ==> p.len() > 4
        }),
{
    lemma_auto_spec_u32_to_from_le_bytes();
    let p = spec_error_packet(code, context.spec_bytes());
    assert(p.subrange(0, 4) =~= spec_u32_to_le_bytes(code as u32));
    assert((code as u32) as i32 == code) by (bit_vector);
    assert(p.skip(4) =~= context.spec_bytes());
    vstd::utf8::encode_utf8_valid_utf8(context@);
    vstd::utf8::encode_utf8_decode_utf8(context@);
    if context@.len() > 0 {
        vstd::utf8::char_is_scalar(context@[0]);
        assert(encode_utf8(context@).len() > 0);
    }
}

/// The bytes of the magic link `/proc/self/fd/<n>`, NUL-terminated.
pub open spec fn magic_link_bytes(fd: nat) -> Seq<u8> {
    "/proc/self/fd/".spec_bytes() + dec_digits(fd) + seq![0u8]
}

/// The magic-link path for a directory handle. The scratch directory must be
/// entered through the link's dereferenced target — not through the handle,
/// and not through the link itself — or later relative `mount` and `chroot`
/// calls fail; the parent reads this link before cloning.
pub fn proc_fd_path(fd: i32) -> (r: CByteStr)
    requires
        fd >= 0,
    ensures
        r@ == magic_link_bytes(fd as nat),
        r.wf(),
{
    let prefix = "/proc/self/fd/";
    let mut bytes = prefix.as_bytes_vec();
    let mut digits = u64_to_decimal(fd as u64);
    bytes.append(&mut digits);
    bytes.push(0);
    proof {
        reveal_strlit("/proc/self/fd/");
        lemma_str_nul_free(prefix);
        lemma_dec_digits_ascii(fd as nat);
        assert(bytes@ =~= magic_link_bytes(fd as nat));
        assert forall|i: int| 0 <= i < bytes@.len() - 1 implies bytes@[i] != 0 by {
            let plen = prefix.spec_bytes().len() as int;
            if i < plen {
                assert(!prefix.spec_bytes().contains(0));
                assert(bytes@[i] == prefix.spec_bytes()[i]);
            } else {
                assert(bytes@[i] == dec_digits(fd as nat)[i - plen]);
            }
        }
    }
    CByteStr { bytes }
}

/// One step of the child's pre-exec sequence, with the context label the
/// child reports if the step fails. The plan is fully built in the parent,
/// so the child allocates nothing between `clone3` and `execve`.
pub struct ChildStep {
    pub context: String,
    pub action: ChildAction,
}

/// What one pre-exec step does.
pub enum ChildAction {
    /// Open the file write-only with truncation and write the whole buffer
    /// with a single write call; a short write counts as failure.
    WriteFile { path: CByteStr, data: Vec<u8> },
    /// Change the working directory.
    Chdir { path: CByteStr },
    /// Perform one mount.
    Mount { mount: Mount },
    /// Change the root directory.
    Chroot { path: CByteStr },
    /// Adjust one standard file descriptor.
    AdjustFd { fd: i32, stdio: Stdio },
    /// Replace the process image; returning at all is a failure.
    Execve { pathname: CByteStr, argv: CStringArray, envp: CStringArray },
}

pub open spec fn is_write_step(s: ChildStep, label: Seq<char>, path: Seq<u8>, data: Seq<u8>) -> bool {
    &&& s.context@ == label
    &&& (s.action matches ChildAction::WriteFile { path: p, data: d } && p@ == path && d@ == data)
}

pub open spec fn is_mount_step(s: ChildStep, mount: Mount) -> bool {
    &&& s.context@ == "mount"@
    &&& (s.action matches ChildAction::Mount { mount: m } && m == mount)
}

pub open spec fn is_adjust_step(s: ChildStep, label: Seq<char>, fd: i32, stdio: Stdio) -> bool {
    &&& s.context@ == label
    &&& (s.action matches ChildAction::AdjustFd { fd: f, stdio: io } && f == fd && io == stdio)
}

fn mount_steps(mounts: Vec<Mount>) -> (r: Vec<ChildStep>)
    ensures
        r@.len() == mounts@.len(),
        forall|i: int| 0 <= i < mounts@.len() ==> is_mount_step(#[trigger] r@[i], mounts@[i]),
{
    let mut r: Vec<ChildStep> = Vec::new();
    let mut rest = mounts;
    let ghost all = rest@;
    while rest.len() > 0
        invariant
            r@.len() + rest@.len() == all.len(),
            rest@ =~= all.skip(r@.len() as int),
            forall|i: int| 0 <= i < r@.len() ==> is_mount_step(#[trigger] r@[i], all[i]),
        decreases rest@.len(),
    {
        let m = rest.remove(0);
        proof {
            assert(m == all[r@.len() as int]);
        }
        r.push(ChildStep { context: "mount".to_owned(), action: ChildAction::Mount { mount: m } });
        proof {
            assert(rest@ =~= all.skip(r@.len() as int));
        }
    }
    r
}

/// The shape of a child's pre-exec plan: the exact steps, in the exact order
/// the child must follow, with the exact context label at each position.
pub open spec fn is_child_plan(plan: Seq<ChildStep>, cmd: Command, scratch_path: CByteStr) -> bool {
    let m = cmd.mounts@.len() as int;
    &&& plan.len() == m + 10
    &&& is_write_step(plan[0], "/proc/self/setgroups"@, "/proc/self/setgroups".spec_bytes().push(0), cmd.setgroups@)
    &&& is_write_step(plan[1], "/proc/self/uid_map"@, "/proc/self/uid_map".spec_bytes().push(0), cmd.uid_map@)
    &&& is_write_step(plan[2], "/proc/self/gid_map"@, "/proc/self/gid_map".spec_bytes().push(0), cmd.gid_map@)
    &&& plan[3].context@ == "fchdir"@
        && (plan[3].action matches ChildAction::Chdir { path } && path == scratch_path)
    &&& forall|i: int| 0 <= i < m ==> is_mount_step(#[trigger] plan[4 + i], cmd.mounts@[i])
    &&& plan[4 + m].context@ == "chroot"@
        && (plan[4 + m].action matches ChildAction::Chroot { path } && path == cmd.chroot)
    &&& plan[5 + m].context@ == "chroot_chdir"@
        && (plan[5 + m].action matches ChildAction::Chdir { path } && path == cmd.chroot_chdir)
    &&& is_adjust_step(plan[6 + m], "stdin"@, 0, cmd.stdin)
    &&& is_adjust_step(plan[7 + m], "stdout"@, 1, cmd.stdout)
    &&& is_adjust_step(plan[8 + m], "stderr"@, 2, cmd.stderr)
    &&& plan[9 + m].context@ == "execve"@
        && (plan[9 + m].action matches ChildAction::Execve { pathname, argv, envp }
            && pathname == cmd.execve_pathname
            && argv == cmd.execve_argv
            && envp == cmd.execve_envp)
}

/// Every string a step feeds to a syscall is a well-formed C string.
pub open spec fn step_strings_wf(s: ChildStep) -> bool {
    match s.action {
        ChildAction::WriteFile { path, .. } => is_c_str(path@),
        ChildAction::Chdir { path } => is_c_str(path@),
        ChildAction::Mount { mount } => mount.wf(),
        ChildAction::Chroot { path } => is_c_str(path@),
        ChildAction::AdjustFd { .. } => true,
        ChildAction::Execve { pathname, argv, envp } => is_c_str(pathname@) && argv.wf()
            && envp.wf(),
    }
}

/// In the plan of a well-formed command, every path and every argv and envp
/// string fed to a syscall is NUL-terminated with no interior NUL.
pub proof fn lemma_plan_strings_wf(plan: Seq<ChildStep>, cmd: Command, scratch_path: CByteStr)
    requires
        is_child_plan(plan, cmd, scratch_path),
        cmd.wf(),
        scratch_path.wf(),
    ensures
        forall|i: int| 0 <= i < plan.len() ==> step_strings_wf(#[trigger] plan[i]),
{
    reveal_strlit("/proc/self/setgroups");
    reveal_strlit("/proc/self/uid_map");
    reveal_strlit("/proc/self/gid_map");
    lemma_str_nul_free("/proc/self/setgroups");
    lemma_str_nul_free("/proc/self/uid_map");
    lemma_str_nul_free("/proc/self/gid_map");
    let m = cmd.mounts@.len() as int;
    assert forall|i: int| 0 <= i < plan.len() implies step_strings_wf(#[trigger] plan[i]) by {
        if 4 <= i < 4 + m {
            assert(is_mount_step(plan[4 + (i - 4)], cmd.mounts@[i - 4]));
            assert(cmd.mounts@[i - 4].wf());
        }
    }
}

/// The child's pre-exec plan for a command, in the exact order the child
/// must follow: the three id-map files, entering the dereferenced scratch
/// path, every mount in declared order, chroot, the post-chroot working
/// directory, the three standard descriptors, and finally `execve`.
pub fn child_pre_exec_plan(cmd: Command, scratch_path: CByteStr) -> (r: Vec<ChildStep>)
    requires
        cmd.wf(),
        scratch_path.wf(),
    ensures
        is_child_plan(r@, cmd, scratch_path),
{
    proof {
        reveal_strlit("/proc/self/setgroups");
        reveal_strlit("/proc/self/uid_map");
        reveal_strlit("/proc/self/gid_map");
    }
    let mut steps: Vec<ChildStep> = Vec::new();
    steps.push(ChildStep {
        context: "/proc/self/setgroups".to_owned(),
        action: ChildAction::WriteFile {
            path: CByteStr::from_nul_free_str("/proc/self/setgroups"),
            data: cmd.setgroups,
        },
    });
    steps.push(ChildStep {
        context: "/proc/self/uid_map".to_owned(),
        action: ChildAction::WriteFile {
            path: CByteStr::from_nul_free_str("/proc/self/uid_map"),
            data: cmd.uid_map,
        },
    });
    steps.push(ChildStep {
        context: "/proc/self/gid_map".to_owned(),
        action: ChildAction::WriteFile {
            path: CByteStr::from_nul_free_str("/proc/self/gid_map"),
            data: cmd.gid_map,
        },
    });
    steps.push(ChildStep {
        context: "fchdir".to_owned(),
        action: ChildAction::Chdir { path: scratch_path },
    });
    let mut mounts = mount_steps(cmd.mounts);
    steps.append(&mut mounts);
    steps.push(ChildStep {
        context: "chroot".to_owned(),
        action: ChildAction::Chroot { path: cmd.chroot },
    });
    steps.push(ChildStep {
        context: "chroot_chdir".to_owned(),
        action: ChildAction::Chdir { path: cmd.chroot_chdir },
    });
    steps.push(ChildStep {
        context: "stdin".to_owned(),
        action: ChildAction::AdjustFd { fd: 0, stdio: cmd.stdin },
    });
    steps.push(ChildStep {
        context: "stdout".to_owned(),
        action: ChildAction::AdjustFd { fd: 1, stdio: cmd.stdout },
    });
    steps.push(ChildStep {
        context: "stderr".to_owned(),
        action: ChildAction::AdjustFd { fd: 2, stdio: cmd.stderr },
    });
    steps.push(ChildStep {
        context: "execve".to_owned(),
        action: ChildAction::Execve {
            pathname: cmd.execve_pathname,
            argv: cmd.execve_argv,
            envp: cmd.execve_envp,
        },
    });
    steps
}

/// Settle the kill guard from what the pre-exec pipe carried. An empty pipe
/// means the child reached `execve`: the guard is neutralized — exactly here
/// and nowhere else on the spawn path — and the pair is handed to the
/// caller. On every other report the guard stays armed, so abandoning it
/// kills and reaps the child.
pub fn conclude_spawn(guard: &mut KillGuard, pid: i32, pidfd: i32, report: ChildReport) -> (r: Result<
    (i32, i32),
    Error,
>)
    requires
        old(guard).spec_armed(),
    ensures
        final(guard).spec_pid() == old(guard).spec_pid(),
        report is ExecSucceeded <==> !final(guard).spec_armed(),
        report is ExecSucceeded <==> r is Ok,
        r matches Ok(p) ==> p == (pid, pidfd),
        report matches ChildReport::Failed(e) ==> (r matches Err(e2) && e2 == e),
        report is Truncated ==> (r matches Err(e) && e.os_code == SYNTHETIC_OS_CODE
            && (e.message matches Some(m) && m@ == "Unknown error"@)
            && e.context@ == "child_pre_execve"@),
{
    match report {
        ChildReport::ExecSucceeded => {
            guard.neutralize();
            Ok((pid, pidfd))
        },
        ChildReport::Failed(e) => Err(e),
        ChildReport::Truncated => Err(Error::other("Unknown error", "child_pre_execve")),
    }
}

} // verus!
