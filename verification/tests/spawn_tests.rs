use snowflake::container::{Command, Mount, Stdio, MS_BIND, MS_NODEV, MS_PRIVATE, MS_REC};
use snowflake::cstr::{CByteStr, CStringArray};
use snowflake::error::SYNTHETIC_OS_CODE;
use snowflake::kill_guard::KillGuard;
use snowflake::spawn::{
    child_pre_exec_plan, conclude_spawn, decode_child_report, encode_error_packet, proc_fd_path,
    ChildAction, ChildReport,
};

#[test]
fn packet_layout() {
    let p = encode_error_packet(2, "execve");
    let mut expected = vec![2u8, 0, 0, 0];
    expected.extend_from_slice(b"execve");
    assert_eq!(p, expected);
}

#[test]
fn packet_roundtrip_enoent_execve() {
    // A missing program image: execve fails with ENOENT and the parent sees
    // that code under the "execve" label.
    let p = encode_error_packet(2, "execve");
    match decode_child_report(&p) {
        ChildReport::Failed(e) => {
            assert_eq!(e.os_code, 2);
            assert_eq!(e.context, "execve");
            assert!(e.message.is_none());
        },
        _ => panic!("expected a child failure report"),
    }
}

#[test]
fn packet_roundtrip_negative_code() {
    let p = encode_error_packet(-1, "mount");
    match decode_child_report(&p) {
        ChildReport::Failed(e) => {
            assert_eq!(e.os_code, -1);
            assert_eq!(e.context, "mount");
        },
        _ => panic!("expected a child failure report"),
    }
}

#[test]
fn empty_pipe_means_exec_succeeded() {
    assert!(matches!(decode_child_report(&[]), ChildReport::ExecSucceeded));
}

#[test]
fn short_packet_is_truncated() {
    assert!(matches!(decode_child_report(&[5]), ChildReport::Truncated));
    assert!(matches!(decode_child_report(&[5, 0, 0, 0]), ChildReport::Truncated));
}

#[test]
fn conclude_spawn_success_neutralizes_guard() {
    let mut guard = KillGuard::new(4242);
    let r = conclude_spawn(&mut guard, 4242, 7, ChildReport::ExecSucceeded);
    assert_eq!(r.ok(), Some((4242, 7)));
    assert!(!guard.is_armed());
}

#[test]
fn conclude_spawn_failure_keeps_guard_armed() {
    let mut guard = KillGuard::new(4242);
    let p = encode_error_packet(13, "chroot");
    let report = decode_child_report(&p);
    let r = conclude_spawn(&mut guard, 4242, 7, report);
    match r {
        Err(e) => {
            assert_eq!(e.os_code, 13);
            assert_eq!(e.context, "chroot");
        },
        Ok(_) => panic!("a reported failure must not succeed"),
    }
    assert!(guard.is_armed());
}

#[test]
fn conclude_spawn_truncated_is_unknown_error() {
    let mut guard = KillGuard::new(1);
    let r = conclude_spawn(&mut guard, 1, 2, ChildReport::Truncated);
    match r {
        Err(e) => {
            assert_eq!(e.os_code, SYNTHETIC_OS_CODE);
            assert_eq!(e.message.as_deref(), Some("Unknown error"));
            assert_eq!(e.context, "child_pre_execve");
        },
        Ok(_) => panic!("a truncated packet must not succeed"),
    }
    assert!(guard.is_armed());
}

#[test]
fn magic_link_path() {
    assert_eq!(proc_fd_path(5).bytes, b"/proc/self/fd/5\0".to_vec());
    assert_eq!(proc_fd_path(123).bytes, b"/proc/self/fd/123\0".to_vec());
}

fn sample_command() -> Command {
    let mut argv = CStringArray::new();
    argv.push(CByteStr::from_nul_free_str("sleep"));
    argv.push(CByteStr::from_nul_free_str("1"));
    Command {
        setgroups: b"deny\n".to_vec(),
        uid_map: b"0 1000 1\n".to_vec(),
        gid_map: b"0 100 1\n".to_vec(),
        fchdir: 3,
        mounts: vec![
            Mount {
                source: CByteStr::from_nul_free_str("none"),
                target: CByteStr::from_nul_free_str("/"),
                filesystemtype: CByteStr::empty(),
                mountflags: MS_PRIVATE | MS_REC,
                data: CByteStr::empty(),
            },
            Mount {
                source: CByteStr::from_nul_free_str("/nix/store"),
                target: CByteStr::from_nul_free_str("does-not-exist"),
                filesystemtype: CByteStr::empty(),
                mountflags: MS_BIND | MS_REC | MS_NODEV,
                data: CByteStr::empty(),
            },
        ],
        chroot: CByteStr::from_nul_free_str("."),
        chroot_chdir: CByteStr::from_nul_free_str("/build"),
        execve_pathname: CByteStr::from_nul_free_str("/bin/sleep"),
        execve_argv: argv,
        execve_envp: CStringArray::new(),
        stdin: Stdio::Close,
        stdout: Stdio::Dup2 { oldfd: 9 },
        stderr: Stdio::Inherit,
    }
}

#[test]
fn plan_follows_declared_order() {
    let cmd = sample_command();
    let plan = child_pre_exec_plan(cmd, CByteStr::from_nul_free_str("/tmp/scratch"));
    assert_eq!(plan.len(), 12);

    let labels: Vec<&str> = plan.iter().map(|s| s.context.as_str()).collect();
    assert_eq!(
        labels,
        vec![
            "/proc/self/setgroups",
            "/proc/self/uid_map",
            "/proc/self/gid_map",
            "fchdir",
            "mount",
            "mount",
            "chroot",
            "chroot_chdir",
            "stdin",
            "stdout",
            "stderr",
            "execve",
        ]
    );

    match &plan[0].action {
        ChildAction::WriteFile { path, data } => {
            assert_eq!(path.bytes, b"/proc/self/setgroups\0".to_vec());
            assert_eq!(data, &b"deny\n".to_vec());
        },
        _ => panic!("first step must write setgroups"),
    }
    match &plan[3].action {
        ChildAction::Chdir { path } => {
            assert_eq!(path.bytes, b"/tmp/scratch\0".to_vec());
        },
        _ => panic!("fourth step must enter the scratch path"),
    }
    match &plan[5].action {
        ChildAction::Mount { mount } => {
            assert_eq!(mount.target.bytes, b"does-not-exist\0".to_vec());
        },
        _ => panic!("sixth step must be the second mount"),
    }
    match &plan[9].action {
        ChildAction::AdjustFd { fd, stdio } => {
            assert_eq!(*fd, 1);
            assert_eq!(*stdio, Stdio::Dup2 { oldfd: 9 });
        },
        _ => panic!("tenth step must adjust stdout"),
    }
    match &plan[11].action {
        ChildAction::Execve { pathname, argv, envp } => {
            assert_eq!(pathname.bytes, b"/bin/sleep\0".to_vec());
            assert_eq!(argv.elements.len(), 2);
            assert_eq!(envp.elements.len(), 0);
        },
        _ => panic!("the last step must be execve"),
    }
}

#[test]
fn plan_paths_are_nul_terminated() {
    let cmd = sample_command();
    let plan = child_pre_exec_plan(cmd, CByteStr::from_nul_free_str("/tmp/scratch"));
    for step in &plan {
        let paths: Vec<&Vec<u8>> = match &step.action {
            ChildAction::WriteFile { path, .. } => vec![&path.bytes],
            ChildAction::Chdir { path } => vec![&path.bytes],
            ChildAction::Chroot { path } => vec![&path.bytes],
            ChildAction::Mount { mount } => vec![
                &mount.source.bytes,
                &mount.target.bytes,
                &mount.filesystemtype.bytes,
                &mount.data.bytes,
            ],
            ChildAction::AdjustFd { .. } => vec![],
            ChildAction::Execve { pathname, argv, envp } => {
                let mut v = vec![&pathname.bytes];
                v.extend(argv.elements.iter().map(|e| &e.bytes));
                v.extend(envp.elements.iter().map(|e| &e.bytes));
                v
            },
        };
        for bytes in paths {
            assert_eq!(bytes.iter().filter(|&&b| b == 0).count(), 1);
            assert_eq!(*bytes.last().unwrap(), 0);
        }
    }
}
