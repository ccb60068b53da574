use snowflake::actions::{
    build_run_command, collect_mounts, compat_symlink_plan, id_map_line, mount_bind_rdonly,
    scratch_dir_plan, setgroups_line, ActionContext, PerformRunAction,
};
use snowflake::container::{
    Stdio, MS_BIND, MS_NODEV, MS_NOEXEC, MS_NOSUID, MS_PRIVATE, MS_RDONLY, MS_REC, MS_REMOUNT,
};
use snowflake::cstr::{CByteStr, CStringArray};

#[test]
fn setgroups_denies() {
    assert_eq!(setgroups_line(), b"deny\n".to_vec());
}

#[test]
fn id_map_maps_root_to_outer_id() {
    assert_eq!(id_map_line(1000), b"0 1000 1\n".to_vec());
    assert_eq!(id_map_line(0), b"0 0 1\n".to_vec());
}

#[test]
fn directory_skeleton() {
    let dirs = scratch_dir_plan();
    let got: Vec<(&[u8], u32)> =
        dirs.iter().map(|d| (d.path.bytes.as_slice(), d.mode)).collect();
    let expected: Vec<(&[u8], u32)> = vec![
        (b"bin\0", 0o755),
        (b"nix\0", 0o755),
        (b"nix/store\0", 0o755),
        (b"proc\0", 0o555),
        (b"usr\0", 0o755),
        (b"usr/bin\0", 0o755),
        (b"build\0", 0o755),
    ];
    assert_eq!(got, expected);
}

#[test]
fn compat_symlinks_always_present() {
    // Neither /bin/sh nor /usr/bin/env is a declared input, yet both links
    // are installed, so `#!/usr/bin/env bash` scripts keep resolving.
    let links = compat_symlink_plan("/nix/store/abc-bash-5.1", "/nix/store/def-coreutils-9.0");
    assert_eq!(links.len(), 2);
    assert_eq!(links[0].target.bytes, b"/nix/store/abc-bash-5.1/bin/bash\0".to_vec());
    assert_eq!(links[0].linkpath.bytes, b"bin/sh\0".to_vec());
    assert_eq!(links[1].target.bytes, b"/nix/store/def-coreutils-9.0/bin/env\0".to_vec());
    assert_eq!(links[1].linkpath.bytes, b"usr/bin/env\0".to_vec());
}

#[test]
fn mount_list_order_and_flags() {
    let mounts = collect_mounts();
    assert_eq!(mounts.len(), 4);

    // First the recursive private remount of the root...
    assert_eq!(mounts[0].source.bytes, b"none\0".to_vec());
    assert_eq!(mounts[0].target.bytes, b"/\0".to_vec());
    assert_eq!(mounts[0].filesystemtype.bytes, b"\0".to_vec());
    assert_eq!(mounts[0].mountflags, MS_PRIVATE | MS_REC);

    // ...then a fresh proc...
    assert_eq!(mounts[1].source.bytes, b"proc\0".to_vec());
    assert_eq!(mounts[1].target.bytes, b"proc\0".to_vec());
    assert_eq!(mounts[1].filesystemtype.bytes, b"proc\0".to_vec());
    assert_eq!(mounts[1].mountflags, MS_NODEV | MS_NOEXEC | MS_NOSUID);

    // ...then the writable recursive bind of the store...
    assert_eq!(mounts[2].source.bytes, b"/nix/store\0".to_vec());
    assert_eq!(mounts[2].target.bytes, b"nix/store\0".to_vec());
    assert_eq!(mounts[2].mountflags, MS_BIND | MS_REC);
    assert_eq!(mounts[2].mountflags & MS_RDONLY, 0);

    // ...and only the follow-up remount makes it read-only.
    assert_eq!(mounts[3].source.bytes, b"none\0".to_vec());
    assert_eq!(mounts[3].target.bytes, b"nix/store\0".to_vec());
    assert_eq!(mounts[3].mountflags, MS_BIND | MS_REC | MS_RDONLY | MS_REMOUNT);
    assert_ne!(mounts[3].mountflags & MS_RDONLY, 0);
    assert_ne!(mounts[3].mountflags & MS_REMOUNT, 0);
}

#[test]
fn bind_rdonly_appends_two_step_protocol() {
    let mut mounts = Vec::new();
    mount_bind_rdonly(
        &mut mounts,
        CByteStr::from_nul_free_str("/src"),
        CByteStr::from_nul_free_str("dst"),
    );
    assert_eq!(mounts.len(), 2);
    assert_eq!(mounts[0].source.bytes, b"/src\0".to_vec());
    assert_eq!(mounts[0].target.bytes, b"dst\0".to_vec());
    assert_eq!(mounts[0].mountflags, MS_BIND | MS_REC);
    assert_eq!(mounts[1].target.bytes, b"dst\0".to_vec());
    assert_eq!(mounts[1].mountflags, MS_BIND | MS_REC | MS_RDONLY | MS_REMOUNT);
}

#[test]
fn run_command_assembly() {
    let mut argv = CStringArray::new();
    argv.push(CByteStr::from_nul_free_str("sleep"));
    argv.push(CByteStr::from_nul_free_str("1"));
    let info = PerformRunAction {
        program: CByteStr::from_nul_free_str("/nix/store/def-coreutils-9.0/bin/sleep"),
        arguments: argv,
        environment: CStringArray::new(),
        timeout_ms: 5000,
    };
    let context = ActionContext { scratch_dir: 3, log_file: 4 };
    let cmd = build_run_command(info, &context, 1000, 100);

    assert_eq!(cmd.setgroups, b"deny\n".to_vec());
    assert_eq!(cmd.uid_map, b"0 1000 1\n".to_vec());
    assert_eq!(cmd.gid_map, b"0 100 1\n".to_vec());
    assert_eq!(cmd.fchdir, 3);
    assert_eq!(cmd.mounts.len(), 4);
    assert_eq!(cmd.chroot.bytes, b".\0".to_vec());
    assert_eq!(cmd.chroot_chdir.bytes, b"/build\0".to_vec());
    assert_eq!(
        cmd.execve_pathname.bytes,
        b"/nix/store/def-coreutils-9.0/bin/sleep\0".to_vec()
    );
    assert_eq!(cmd.execve_argv.elements.len(), 2);
    assert_eq!(cmd.stdin, Stdio::Close);
    assert_eq!(cmd.stdout, Stdio::Dup2 { oldfd: 4 });
    assert_eq!(cmd.stderr, Stdio::Dup2 { oldfd: 4 });
}
