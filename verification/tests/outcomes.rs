use btrfs_migrator::action::{Action, ActionKind, Outcome};
use btrfs_migrator::error::{Failure, MigrationError};
use btrfs_migrator::subvolume::{SubvolumeHelper, SUBVOLUME_ROOT_INODE};

fn failed(reason: &str) -> Outcome {
    Outcome::Failed { reason: reason.to_string() }
}

fn all_outcomes() -> Vec<Outcome> {
    vec![
        Outcome::Done,
        failed("why"),
        Outcome::Unsuccessful,
        Outcome::Flag { value: true },
        Outcome::Flag { value: false },
        Outcome::Inode { number: 256 },
        Outcome::Entries { names: vec!["a".to_string()] },
        Outcome::EntryFailed { reason: "bad entry".to_string() },
    ]
}

#[test]
fn only_a_plain_yes_affirms() {
    assert!(Outcome::Flag { value: true }.affirmed());
    for outcome in all_outcomes() {
        if outcome != (Outcome::Flag { value: true }) {
            assert!(!outcome.affirmed(), "{:?}", outcome);
        }
    }
}

#[test]
fn reason_is_what_a_failure_gave() {
    assert_eq!(failed("disk full").reason(), "disk full");
    assert_eq!(Outcome::EntryFailed { reason: "bad".to_string() }.reason(), "bad");
    assert_eq!(Outcome::Done.reason(), "");
    assert_eq!(Outcome::Unsuccessful.reason(), "");
    assert_eq!(Outcome::Flag { value: false }.reason(), "");
}

#[test]
fn done_and_failed_are_told_apart() {
    assert!(Outcome::Done.is_done());
    assert!(!Outcome::Unsuccessful.is_done());
    assert!(!failed("x").is_done());
    assert!(failed("x").is_failed());
    assert!(!Outcome::Unsuccessful.is_failed());
    assert!(!Outcome::EntryFailed { reason: "x".to_string() }.is_failed());
}

#[test]
fn operation_fails_unless_done() {
    assert_eq!(Outcome::Done.failure_unless_done("Failed to x: ", "X"), None);
    assert_eq!(
        failed("busy").failure_unless_done("Failed to x: ", "X"),
        Some(Failure::Fatal(MigrationError::new("Failed to x: busy".to_string(), "X".to_string())))
    );
    for outcome in all_outcomes() {
        let failure = outcome.failure_unless_done("Failed to x: ", "X");
        assert_eq!(failure.is_none(), outcome == Outcome::Done);
    }
    assert_eq!(
        Outcome::Unsuccessful.failure_unless_done("Failed to x: ", "X").unwrap().describe(),
        "X: Failed to x: "
    );
}

#[test]
fn command_whose_status_is_ignored_fails_only_when_it_cannot_start() {
    assert_eq!(
        failed("not found").failure_unless_started("Failed to x: ", "X").unwrap().describe(),
        "X: Failed to x: not found"
    );
    for outcome in all_outcomes() {
        let failure = outcome.failure_unless_started("Failed to x: ", "X");
        assert_eq!(failure.is_some(), matches!(outcome, Outcome::Failed { .. }));
    }
}

#[test]
fn command_whose_status_matters_fails_in_two_ways() {
    assert_eq!(Outcome::Done.failure_unless_successful("Failed to x: ", "X", "x failed", "Y"), None);
    assert_eq!(
        failed("not found")
            .failure_unless_successful("Failed to x: ", "X", "x failed", "Y")
            .unwrap()
            .describe(),
        "X: Failed to x: not found"
    );
    assert_eq!(
        Outcome::Unsuccessful
            .failure_unless_successful("Failed to x: ", "X", "x failed", "Y")
            .unwrap()
            .describe(),
        "Y: x failed"
    );
    assert_eq!(
        Outcome::Flag { value: true }
            .failure_unless_successful("Failed to x: ", "X", "x failed", "Y")
            .unwrap()
            .describe(),
        "Y: x failed"
    );
}

#[test]
fn subvolume_is_known_by_its_inode() {
    assert_eq!(SUBVOLUME_ROOT_INODE, 256);
    assert!(SubvolumeHelper::is_subvolume(&Outcome::Inode { number: 256 }));
    assert!(!SubvolumeHelper::is_subvolume(&Outcome::Inode { number: 255 }));
    assert!(!SubvolumeHelper::is_subvolume(&Outcome::Inode { number: 257 }));
    assert!(!SubvolumeHelper::is_subvolume(&Outcome::Inode { number: 2 }));
    assert!(!SubvolumeHelper::is_subvolume(&failed("No such file or directory")));
    assert!(!SubvolumeHelper::is_subvolume(&Outcome::Flag { value: true }));
    assert!(!SubvolumeHelper::is_subvolume(&Outcome::Done));
}

#[test]
fn subvolume_requests() {
    assert_eq!(
        SubvolumeHelper::create_subvolume("/mnt/@home"),
        Action::CreateSubvolume { path: "/mnt/@home".to_string() }
    );
    assert_eq!(
        SubvolumeHelper::create_snapshot("/mnt/@home", "/mnt/@system.import/home"),
        Action::CreateSnapshot {
            source: "/mnt/@home".to_string(),
            target: "/mnt/@system.import/home".to_string(),
        }
    );
    assert_eq!(
        SubvolumeHelper::delete_subvolume("/mnt/@oldhome"),
        Action::DeleteSubvolume { path: "/mnt/@oldhome".to_string() }
    );
}

#[test]
fn subvolume_failures_name_their_phase() {
    assert_eq!(SubvolumeHelper::created(&Outcome::Done), None);
    assert_eq!(SubvolumeHelper::snapshotted(&Outcome::Done), None);
    assert_eq!(SubvolumeHelper::deleted(&Outcome::Done), None);
    assert_eq!(
        SubvolumeHelper::created(&failed("File exists")).unwrap().describe(),
        "Subvolume creation: Failed to create subvolume: File exists"
    );
    assert_eq!(
        SubvolumeHelper::snapshotted(&failed("File exists")).unwrap().describe(),
        "Snapshot creation: Failed to create snapshot: File exists"
    );
    assert_eq!(
        SubvolumeHelper::deleted(&failed("Not a subvolume")).unwrap().describe(),
        "Subvolume deletion: Failed to delete subvolume: Not a subvolume"
    );
}

#[test]
fn kinds_and_observations() {
    let observations = [
        Action::PathExists { path: "p".to_string() },
        Action::InodeNumber { path: "p".to_string() },
        Action::IsDirectory { path: "p".to_string() },
        Action::ListDirectory { path: "p".to_string() },
        Action::ReadFstab { path: "p".to_string() },
    ];
    for action in &observations {
        assert!(action.is_observation(), "{:?}", action);
    }
    let changes = [
        Action::CreateSubvolume { path: "p".to_string() },
        Action::CreateSnapshot { source: "s".to_string(), target: "t".to_string() },
        Action::DeleteSubvolume { path: "p".to_string() },
        Action::MountOverlay { options: "o".to_string(), target: "t".to_string() },
        Action::Unmount { target: "t".to_string() },
        Action::CopyTree { source: "s".to_string(), target: "t".to_string() },
        Action::CopyContents { source: "s".to_string(), target: "t".to_string() },
        Action::CopyFile { source: "s".to_string(), target: "t".to_string() },
        Action::RemoveDirAll { path: "p".to_string() },
        Action::RemoveFile { path: "p".to_string() },
        Action::CreateDirAll { path: "p".to_string() },
        Action::Rename { from: "a".to_string(), to: "b".to_string() },
        Action::SetMode { path: "p".to_string(), mode: 0o755 },
        Action::SettleDevices { timeout: 8 },
        Action::ShowMessage { text: "m".to_string() },
        Action::ShowContents { path: "p".to_string() },
        Action::HideSplash,
        Action::ShowQrCode { url: "u".to_string() },
        Action::Confirm { concerning: 1, prompt: "p".to_string() },
        Action::Reboot,
    ];
    for action in &changes {
        assert!(!action.is_observation(), "{:?}", action);
    }
    assert_eq!(observations[0].kind(), ActionKind::PathExists);
    assert_eq!(observations[4].kind(), ActionKind::ReadFstab);
    assert_eq!(changes[0].kind(), ActionKind::CreateSubvolume);
    assert_eq!(changes[3].kind(), ActionKind::MountOverlay);
    assert_eq!(changes[11].kind(), ActionKind::Rename);
    assert_eq!(changes[19].kind(), ActionKind::Reboot);
    assert_eq!(changes[15].kind(), ActionKind::ShowContents);
}
