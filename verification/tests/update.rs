use bsdev::process::Platform;
use bsdev::update::{
    check_probe_creation, check_probe_removal, install_directory, map_update_error, missing_install_directory,
    probe_path,
    permission_message, probe_file_name, require_confirmation_or_terminal, status_message,
    ProbeCreation, UpdateErrorKind, UpdateStatus,
};

#[test]
fn requires_yes_when_stdin_is_not_a_terminal() {
    assert!(require_confirmation_or_terminal(false, false).is_err());
    assert!(require_confirmation_or_terminal(true, false).is_ok());
    assert!(require_confirmation_or_terminal(false, true).is_ok());
}

#[test]
fn status_messages_distinguish_current_and_updated_versions() {
    assert_eq!(
        status_message(&UpdateStatus::UpToDate("1.2.3".into()), "1.2.3"),
        "bsdev is already up to date (v1.2.3)."
    );
    assert!(status_message(&UpdateStatus::Updated("9.8.7".into()), "1.2.3").contains("to v9.8.7"));
}

#[test]
fn permission_message_explains_how_to_elevate() {
    let message = permission_message("/protected/bsdev", Platform::Windows);
    assert!(message.contains("Administrator"));
    let message = permission_message("/protected/bsdev", Platform::Unix);
    assert!(message.contains("sudo bsdev update"));
}

#[test]
fn updated_status_names_both_versions() {
    assert_eq!(
        status_message(&UpdateStatus::Updated("9.8.7".into()), "1.2.3"),
        "Updated bsdev from v1.2.3 to v9.8.7. The next invocation will use the new version."
    );
    assert_eq!(
        require_confirmation_or_terminal(false, false).unwrap_err(),
        "Refusing to update without confirmation; re-run with --yes in a non-interactive session."
    );
}

#[test]
fn probe_outcomes() {
    assert_eq!(probe_file_name(77, 123456789012345678901234567890), ".bsdev-update-check-77-123456789012345678901234567890");
    assert!(check_probe_creation("/x/bsdev", "/x", ProbeCreation::Created, Platform::Unix).is_ok());
    let denied = check_probe_creation("/x/bsdev", "/x", ProbeCreation::PermissionDenied, Platform::Unix)
        .err()
        .unwrap();
    assert_eq!(denied.context, None);
    assert_eq!(
        denied.cause,
        "Cannot update /x/bsdev without elevated permissions. Re-run with `sudo bsdev update`."
    );
    let other = check_probe_creation("/x/bsdev", "/x", ProbeCreation::Failed("disk full".into()), Platform::Unix)
        .err()
        .unwrap();
    assert_eq!(other.context.as_deref(), Some("Failed to verify update access to /x"));
    assert_eq!(other.cause, "disk full");
    let removal = check_probe_removal("/x/.p", Err("busy".into())).err().unwrap();
    assert_eq!(removal.context.as_deref(), Some("Failed to remove update permission probe at /x/.p"));
    assert!(check_probe_removal("/x/.p", Ok(())).is_ok());
    assert_eq!(missing_install_directory().cause, "The running bsdev executable has no parent directory");
}

#[test]
fn update_errors_are_reported_by_kind() {
    let f = map_update_error(UpdateErrorKind::Network, "timeout".into(), "bsdev", Platform::Unix);
    assert_eq!(f.context.as_deref(), Some("Failed to contact GitHub or download the latest bsdev release"));
    assert_eq!(f.cause, "timeout");
    let f = map_update_error(UpdateErrorKind::Release, "no asset".into(), "bsdev", Platform::Unix);
    assert_eq!(f.context.as_deref(), Some("The latest bsdev release has no compatible asset for this platform"));
    let f = map_update_error(UpdateErrorKind::Other, "x".into(), "bsdev", Platform::Unix);
    assert_eq!(f.context.as_deref(), Some("Failed to install the latest bsdev release"));
    let f = map_update_error(UpdateErrorKind::PermissionDenied, "x".into(), "C:\\bsdev.exe", Platform::Windows);
    assert_eq!(f.context, None);
    assert!(f.cause.contains("Open a terminal as Administrator"));
}

#[test]
fn the_probe_goes_beside_the_executable() {
    let dir = install_directory("/usr/local/bin/bsdev").unwrap();
    assert_eq!(dir, "/usr/local/bin");
    assert_eq!(probe_path(&dir, 77, 5), "/usr/local/bin/.bsdev-update-check-77-5");
    assert_eq!(probe_path("/opt/", 1, 2), "/opt/.bsdev-update-check-1-2");
    assert_eq!(install_directory("bsdev").unwrap(), "");
    let refused = install_directory("/").unwrap_err();
    assert_eq!(refused.cause, "The running bsdev executable has no parent directory");
    assert!(install_directory("").is_err());
}
