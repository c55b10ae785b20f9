use samba_mounter::command::{
    build_list_command, build_mount_command, build_unmount_command, mount_outcome, plan_mount,
    unmount_outcome, CommandResult, MountError, UnmountError,
};
use samba_mounter::platform::Platform;

fn result(exit_success: bool, stdout: &str, stderr: &str) -> CommandResult {
    CommandResult {
        exit_success,
        stdout: stdout.to_string(),
        stderr: stderr.to_string(),
    }
}

#[test]
fn linux_mount_with_both_credentials() {
    let cmd = build_mount_command(Platform::Linux, "//host/share", Some("bob"), Some("pw"), "/mnt/x");
    assert_eq!(cmd.program, "mount");
    assert_eq!(cmd.args, vec!["-t", "cifs", "//host/share", "/mnt/x", "-o", "username=bob,password=pw"]);
}

#[test]
fn linux_mount_without_credentials_has_no_option_clause() {
    let cmd = build_mount_command(Platform::Linux, "//host/share", None, None, "/mnt/x");
    assert_eq!(cmd.program, "mount");
    assert_eq!(cmd.args, vec!["-t", "cifs", "//host/share", "/mnt/x"]);
}

#[test]
fn linux_mount_with_only_a_password() {
    let cmd = build_mount_command(Platform::Linux, "//h/s", None, Some("pw"), "/mnt/x");
    assert_eq!(cmd.args, vec!["-t", "cifs", "//h/s", "/mnt/x", "-o", "password=pw"]);
}

#[test]
fn windows_mount_with_both_credentials() {
    let cmd = build_mount_command(
        Platform::Windows,
        "\\\\host\\share",
        Some("bob"),
        Some("pw"),
        "Z:",
    );
    assert_eq!(cmd.program, "net");
    assert_eq!(cmd.args, vec!["use", "Z:", "\\\\host\\share", "pw", "/user:bob", "/persistent:yes"]);
}

#[test]
fn windows_mount_without_credentials() {
    let cmd = build_mount_command(Platform::Windows, "\\\\host\\share", None, None, "Z:");
    assert_eq!(cmd.args, vec!["use", "Z:", "\\\\host\\share", "/persistent:yes"]);
}

#[test]
fn macos_mount_embeds_credentials_in_the_address() {
    let cmd = build_mount_command(Platform::MacOS, "//host/share", Some("bob"), Some("pw"), "/mnt/x");
    assert_eq!(cmd.program, "mount");
    assert_eq!(cmd.args, vec!["-t", "smbfs", "//bob:pw@host/share", "/mnt/x"]);
}

#[test]
fn macos_mount_with_username_alone() {
    let cmd = build_mount_command(Platform::MacOS, "//host/share", Some("bob"), None, "/mnt/x");
    assert_eq!(cmd.args, vec!["-t", "smbfs", "//bob@host/share", "/mnt/x"]);
}

#[test]
fn macos_mount_ignores_a_password_without_a_username() {
    let cmd = build_mount_command(Platform::MacOS, "//host/share", None, Some("pw"), "/mnt/x");
    assert_eq!(cmd.args, vec!["-t", "smbfs", "//host/share", "/mnt/x"]);
}

#[test]
fn macos_mount_with_empty_username_and_a_password_still_embeds() {
    let cmd = build_mount_command(Platform::MacOS, "//host/share", Some(""), Some("pw"), "/mnt/x");
    assert_eq!(cmd.args, vec!["-t", "smbfs", "//:pw@host/share", "/mnt/x"]);
}

#[test]
fn unmount_commands_per_platform() {
    let cmd = build_unmount_command(Platform::Windows, "Z:");
    assert_eq!(cmd.program, "net");
    assert_eq!(cmd.args, vec!["use", "Z:", "/delete"]);
    let cmd = build_unmount_command(Platform::Linux, "/mnt/x");
    assert_eq!(cmd.program, "umount");
    assert_eq!(cmd.args, vec!["/mnt/x"]);
    let cmd = build_unmount_command(Platform::MacOS, "/mnt/x");
    assert_eq!(cmd.program, "umount");
    assert_eq!(cmd.args, vec!["/mnt/x"]);
}

#[test]
fn list_commands_per_platform() {
    let cmd = build_list_command(Platform::Windows);
    assert_eq!(cmd.program, "net");
    assert_eq!(cmd.args, vec!["use"]);
    let cmd = build_list_command(Platform::Linux);
    assert_eq!(cmd.program, "mount");
    assert!(cmd.args.is_empty());
}

#[test]
fn successful_mount_names_server_and_mountpoint() {
    let r = mount_outcome("//host/share", "/mnt/x", &result(true, "", ""));
    assert_eq!(r.unwrap(), "mounted //host/share at /mnt/x");
}

#[test]
fn failed_mount_surfaces_stderr_verbatim() {
    let r = mount_outcome(
        "//host/share",
        "/mnt/x",
        &result(false, "", "mount error(13): Permission denied"),
    );
    match r {
        Err(MountError::MountCommandFailed(msg)) => {
            assert_eq!(msg, "mount error(13): Permission denied");
        }
        _ => panic!("expected MountCommandFailed"),
    }
}

#[test]
fn mount_error_messages_are_verbatim() {
    let e = MountError::MountCommandFailed("boom".to_string());
    assert_eq!(e.message(), "boom");
    let e = MountError::ProcessSpawnError("no such program".to_string());
    assert_eq!(e.message(), "no such program");
}

#[test]
fn unmount_outcomes() {
    let r = unmount_outcome("/mnt/x", &result(true, "", ""));
    assert_eq!(r.unwrap(), "unmounted /mnt/x");
    let r = unmount_outcome("/mnt/x", &result(false, "", "target is busy"));
    match r {
        Err(UnmountError::UnmountCommandFailed(msg)) => assert_eq!(msg, "target is busy"),
        _ => panic!("expected UnmountCommandFailed"),
    }
    let e = UnmountError::ProcessSpawnError("denied".to_string());
    assert_eq!(e.message(), "denied");
}

#[test]
fn linux_plan_allocates_default_and_wants_the_directory() {
    let plan = plan_mount(Platform::Linux, "//myserver/share", Some("bob"), None, None, &Vec::new())
        .unwrap();
    assert_eq!(plan.mountpoint, "/mnt/myserver_share");
    assert!(plan.ensure_directory);
    assert_eq!(plan.command.program, "mount");
    assert_eq!(
        plan.command.args,
        vec!["-t", "cifs", "//myserver/share", "/mnt/myserver_share", "-o", "username=bob"]
    );
}

#[test]
fn macos_plan_with_requested_target_still_wants_the_directory() {
    let plan = plan_mount(
        Platform::MacOS,
        "//host/share",
        None,
        None,
        Some("/Volumes/x".to_string()),
        &Vec::new(),
    )
    .unwrap();
    assert_eq!(plan.mountpoint, "/Volumes/x");
    assert!(plan.ensure_directory);
}

#[test]
fn windows_plan_uses_a_free_drive_letter() {
    let mut occupied = vec![true; 22];
    occupied[21] = false;
    let plan = plan_mount(Platform::Windows, "\\\\host\\share", None, None, None, &occupied)
        .unwrap();
    assert_eq!(plan.mountpoint, "Z:");
    assert!(!plan.ensure_directory);
    assert_eq!(
        plan.command.args,
        vec!["use", "Z:", "\\\\host\\share", "/persistent:yes"]
    );
}
