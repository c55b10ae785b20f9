use samba_mounter::allocate::{allocate, find_available_drive_letter, AllocationError};
use samba_mounter::platform::Platform;

// Occupancy over the candidate letters E..Z, lowest first.
fn occupancy(free: &[char]) -> Vec<bool> {
    let letters = [
        'E', 'F', 'G', 'H', 'I', 'J', 'K', 'L', 'M', 'N', 'O', 'P', 'Q', 'R', 'S', 'T', 'U', 'V',
        'W', 'X', 'Y', 'Z',
    ];
    letters.iter().map(|c| !free.contains(c)).collect()
}

#[test]
fn only_z_free_allocates_z() {
    let occupied = occupancy(&['Z']);
    let r = allocate(Platform::Windows, "//host/share", None, &occupied);
    assert_eq!(r.unwrap(), "Z:");
}

#[test]
fn all_occupied_yields_no_drive_letter() {
    let occupied = occupancy(&[]);
    let r = allocate(Platform::Windows, "//host/share", None, &occupied);
    assert!(matches!(r, Err(AllocationError::NoDriveLetterAvailable)));
}

#[test]
fn highest_free_letter_wins() {
    let occupied = occupancy(&['G', 'X']);
    assert_eq!(find_available_drive_letter(&occupied).unwrap(), "X:");
}

#[test]
fn no_free_letter_is_none() {
    let occupied = occupancy(&[]);
    assert!(find_available_drive_letter(&occupied).is_none());
}

#[test]
fn linux_default_is_mnt_plus_sanitized_server() {
    let r = allocate(Platform::Linux, "//myserver/share", None, &Vec::new());
    assert_eq!(r.unwrap(), "/mnt/myserver_share");
}

#[test]
fn macos_default_is_mnt_plus_sanitized_server() {
    let r = allocate(Platform::MacOS, "//myserver/share", None, &Vec::new());
    assert_eq!(r.unwrap(), "/mnt/myserver_share");
}

#[test]
fn requested_mountpoint_is_returned_unchanged() {
    let occupied = occupancy(&[]);
    let r = allocate(Platform::Windows, "//host/share", Some("X:".to_string()), &occupied);
    assert_eq!(r.unwrap(), "X:");
    let r = allocate(Platform::Linux, "//host/share", Some("/media/x".to_string()), &Vec::new());
    assert_eq!(r.unwrap(), "/media/x");
}

#[test]
fn no_drive_letter_message() {
    assert_eq!(AllocationError::NoDriveLetterAvailable.message(), "no available drive letter");
    let e = AllocationError::AllocationIoError("disk full".to_string());
    assert_eq!(e.message(), "disk full");
}
