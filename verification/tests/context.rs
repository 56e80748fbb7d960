use btrfs_migrator::context::{join_path, MigrationContext};
use btrfs_migrator::error::{Failure, MigrationError};

#[test]
fn path_is_joined_below_the_root() {
    let ctx = MigrationContext::new("/mnt");
    assert_eq!(ctx.path("@system"), "/mnt/@system");
    assert_eq!(ctx.path("@home/.snapshots"), "/mnt/@home/.snapshots");
}

#[test]
fn join_adds_exactly_one_separator() {
    assert_eq!(join_path("/mnt/", "@system"), "/mnt/@system");
    assert_eq!(join_path("/mnt", "@system"), "/mnt/@system");
    assert_eq!(join_path("", "@system"), "@system");
    assert_eq!(join_path("/", "@system"), "/@system");
    assert_eq!(join_path("/mnt", "."), "/mnt/.");
    assert_eq!(join_path("/mnt", ""), "/mnt/");
}

#[test]
fn join_keeps_an_absolute_path() {
    assert_eq!(join_path("/mnt", "/etc"), "/etc");
}

#[test]
fn join_agrees_with_the_standard_library() {
    for (base, relative) in [
        ("/mnt", "@system"),
        ("/mnt/", "@system"),
        ("", "@system"),
        ("/", "a/b"),
        ("/mnt", "/abs"),
        ("/mnt", "."),
        ("/mnt", ""),
        ("rel", "var/lib/docker"),
    ] {
        let expected = std::path::Path::new(base).join(relative);
        assert_eq!(join_path(base, relative), expected.to_string_lossy());
    }
}

#[test]
fn new_context_starts_at_step_zero() {
    let ctx = MigrationContext::new("/mnt");
    assert_eq!(ctx.root_path, "/mnt");
    assert_eq!(ctx.current_step, 0);
    assert!(ctx.listing.is_empty());
    assert!(ctx.candidates.is_empty());
    assert!(ctx.postponed.is_none());
}

#[test]
fn log_step_counts_up() {
    let mut ctx = MigrationContext::new("/mnt");
    assert_eq!(ctx.log_step(), 1);
    assert_eq!(ctx.log_step(), 2);
    assert_eq!(ctx.current_step, 2);
}

#[test]
fn log_step_stops_at_the_largest_number() {
    let mut ctx = MigrationContext::new("/mnt");
    ctx.current_step = u32::MAX;
    assert_eq!(ctx.log_step(), u32::MAX);
}

#[test]
fn error_text_is_context_then_message() {
    let error = MigrationError::new("disk full".to_string(), "Subvolume creation".to_string());
    assert_eq!(error.message, "disk full");
    assert_eq!(error.context, "Subvolume creation");
    assert_eq!(error.describe(), "Subvolume creation: disk full");
}

#[test]
fn error_with_detail_appends_the_detail() {
    let error = MigrationError::with_detail("Failed to create subvolume: ", "EEXIST", "Subvolume creation");
    assert_eq!(error.describe(), "Subvolume creation: Failed to create subvolume: EEXIST");
}

#[test]
fn failure_texts() {
    assert_eq!(Failure::Declined.describe(), "Migration aborted by user");
    assert_eq!(Failure::StrayStep.describe(), "Migration step out of range");
    assert_eq!(Failure::Io("permission denied".to_string()).describe(), "permission denied");
    assert_eq!(
        Failure::fatal("Failed to reboot: ", "no such file", "User abort").describe(),
        "User abort: Failed to reboot: no such file"
    );
}
