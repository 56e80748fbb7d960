use vstd::prelude::*;
use crate::action::{
    asked_as, pending, stray, unless, Action, ActionKind, ActionView, Outcome, OutcomeView, Poll,
    PollView,
};
use crate::context::{join_path, joined, ContextView, MigrationContext};
use crate::error::{Failure, FailureView};
use crate::subvolume::SubvolumeHelper;

verus! {

/// Where the legacy home data lives, below the root.
pub open spec fn legacy_home() -> Seq<char> {
    "@system/home"@
}

/// The canonical home subvolume, below the root.
pub open spec fn home_subvolume() -> Seq<char> {
    "@home"@
}

/// Where the legacy home data is kept while it is moved, below the root.
pub open spec fn home_backup() -> Seq<char> {
    "@oldhome"@
}

/// The entry of the backup that is never transferred.
pub open spec fn snapshots_entry() -> Seq<char> {
    ".snapshots"@
}

/// Progress of copying what one directory contains into another.
#[derive(Clone, Copy, Debug, PartialEq, Eq)]
pub enum CopyStep {
    /// Asked whether the target exists.
    CheckingTarget,
    /// Asked for the target directory to be created.
    CreatingTarget,
    /// Asked for the copy itself.
    Copying,
}

impl CopyStep {
    /// The kind of action whose outcome the step waits for.
    pub open spec fn asks(self) -> ActionKind {
        match self {
            CopyStep::CheckingTarget => ActionKind::PathExists,
            CopyStep::CreatingTarget => ActionKind::CreateDirAll,
            CopyStep::Copying => ActionKind::CopyContents,
        }
    }
}

/// Progress of backing up the legacy home data.
#[derive(Clone, Copy, Debug, PartialEq, Eq)]
pub enum BackupStep {
    /// Asked whether a backup of an earlier run is in the way.
    CheckingStale,
    /// Asked for the stale backup to be deleted.
    RemovingStale,
    /// Asked for a snapshot of the legacy home subvolume.
    Snapshotting,
    /// Asked for a fresh backup subvolume.
    Creating,
    /// Copying the legacy home directory into the backup.
    Copying(CopyStep),
}

impl BackupStep {
    /// The kind of action whose outcome the step waits for.
    pub open spec fn asks(self) -> ActionKind {
        match self {
            BackupStep::CheckingStale => ActionKind::PathExists,
            BackupStep::RemovingStale => ActionKind::DeleteSubvolume,
            BackupStep::Snapshotting => ActionKind::CreateSnapshot,
            BackupStep::Creating => ActionKind::CreateSubvolume,
            BackupStep::Copying(inner) => inner.asks(),
        }
    }
}

/// Progress of emptying a directory.
#[derive(Clone, Copy, Debug, PartialEq, Eq)]
pub enum ClearStep {
    /// Asked for the directory's entries.
    Listing,
    /// Asked whether entry `index` is a directory.
    Probing { index: usize },
    /// Asked for the directory at entry `index` to be removed.
    RemovingDirectory { index: usize },
    /// Asked for the file at entry `index` to be removed.
    RemovingFile { index: usize },
}

impl ClearStep {
    /// The kind of action whose outcome the step waits for.
    pub open spec fn asks(self) -> ActionKind {
        match self {
            ClearStep::Listing => ActionKind::ListDirectory,
            ClearStep::Probing { .. } => ActionKind::IsDirectory,
            ClearStep::RemovingDirectory { .. } => ActionKind::RemoveDirAll,
            ClearStep::RemovingFile { .. } => ActionKind::RemoveFile,
        }
    }
}

/// Progress of removing the legacy home data.
#[derive(Clone, Copy, Debug, PartialEq, Eq)]
pub enum RemoveStep {
    /// Asked for the legacy home subvolume to be deleted.
    Deleting,
    /// Emptying the legacy home directory.
    Clearing(ClearStep),
}

impl RemoveStep {
    /// The kind of action whose outcome the step waits for.
    pub open spec fn asks(self) -> ActionKind {
        match self {
            RemoveStep::Deleting => ActionKind::DeleteSubvolume,
            RemoveStep::Clearing(inner) => inner.asks(),
        }
    }
}

/// Progress of making sure that the home subvolume exists.
#[derive(Clone, Copy, Debug, PartialEq, Eq)]
pub enum EnsureStep {
    Checking,
    Creating,
}

impl EnsureStep {
    /// The kind of action whose outcome the step waits for.
    pub open spec fn asks(self) -> ActionKind {
        match self {
            EnsureStep::Checking => ActionKind::PathExists,
            EnsureStep::Creating => ActionKind::CreateSubvolume,
        }
    }
}

/// Progress of moving the backup's entries into the home subvolume.
#[derive(Clone, Copy, Debug, PartialEq, Eq)]
pub enum TransferStep {
    /// Asked for the backup's entries.
    Listing,
    /// Asked whether entry `index` is a directory.
    Probing { index: usize },
    /// Copying the directory at entry `index`.
    CopyingDirectory { index: usize, inner: CopyStep },
    /// Asked for the file at entry `index` to be copied.
    CopyingFile { index: usize },
}

impl TransferStep {
    /// The kind of action whose outcome the step waits for.
    pub open spec fn asks(self) -> ActionKind {
        match self {
            TransferStep::Listing => ActionKind::ListDirectory,
            TransferStep::Probing { .. } => ActionKind::IsDirectory,
            TransferStep::CopyingDirectory { inner, .. } => inner.asks(),
            TransferStep::CopyingFile { .. } => ActionKind::CopyFile,
        }
    }
}

/// Progress of deleting the backup.
#[derive(Clone, Copy, Debug, PartialEq, Eq)]
pub enum CleanupStep {
    Deleting,
}

impl CleanupStep {
    /// The kind of action whose outcome the step waits for.
    pub open spec fn asks(self) -> ActionKind {
        match self {
            CleanupStep::Deleting => ActionKind::DeleteSubvolume,
        }
    }
}

/// Progress of relocating the home data.
#[derive(Clone, Copy, Debug, PartialEq, Eq)]
#[allow(inconsistent_fields)]
pub enum HomeStep {
    /// Asked whether legacy home data exists.
    CheckingLegacy,
    /// Asked for the inode of the legacy home.
    CheckingSubvolume,
    /// Asked for the legacy home's contents to be shown.
    ShowingContents { is_subvolume: bool },
    BackingUp { is_subvolume: bool, inner: BackupStep },
    Removing { inner: RemoveStep },
    Ensuring { inner: EnsureStep },
    Transferring { inner: TransferStep },
    CleaningUp { inner: CleanupStep },
}

impl HomeStep {
    /// The kind of action whose outcome the step waits for.
    pub open spec fn asks(self) -> ActionKind {
        match self {
            HomeStep::CheckingLegacy => ActionKind::PathExists,
            HomeStep::CheckingSubvolume => ActionKind::InodeNumber,
            HomeStep::ShowingContents { .. } => ActionKind::ShowContents,
            HomeStep::BackingUp { inner, .. } => inner.asks(),
            HomeStep::Removing { inner } => inner.asks(),
            HomeStep::Ensuring { inner } => inner.asks(),
            HomeStep::Transferring { inner } => inner.asks(),
            HomeStep::CleaningUp { inner } => inner.asks(),
        }
    }
}

/// The first entry at or after `from` that is to be transferred; the
/// length of the listing where there is none.
pub open spec fn next_to_transfer(listing: Seq<Seq<char>>, from: int) -> int
    decreases listing.len() - from,
{
    if from < 0 || from >= listing.len() {
        listing.len() as int
    } else if listing[from] == snapshots_entry() {
        next_to_transfer(listing, from + 1)
    } else {
        from
    }
}

/// No entry between `from` and the next one to transfer is transferred,
/// and the next one is no `.snapshots` entry.
pub proof fn lemma_next_to_transfer(listing: Seq<Seq<char>>, from: int)
    requires
        0 <= from <= listing.len(),
    ensures
        from <= next_to_transfer(listing, from) <= listing.len(),
        forall|j: int|
            from <= j < next_to_transfer(listing, from) ==> #[trigger] listing[j]
                == snapshots_entry(),
        next_to_transfer(listing, from) < listing.len() ==> listing[next_to_transfer(
            listing,
            from,
        )] != snapshots_entry(),
    decreases listing.len() - from,
{
    if from < listing.len() && listing[from] == snapshots_entry() {
        lemma_next_to_transfer(listing, from + 1);
    }
}

pub struct HomeDataMigrator;

impl HomeDataMigrator {
    // ---- copying the contents of a directory ----

    pub open spec fn spec_copy_action(src: Seq<char>, dst: Seq<char>) -> PollView<CopyStep, ()> {
        PollView::Pending {
            step: CopyStep::Copying,
            action: ActionView::CopyContents { source: joined(src, "."@), target: dst },
        }
    }

    pub open spec fn spec_begin_copy_directory_contents(dst: Seq<char>) -> (CopyStep, ActionView) {
        (CopyStep::CheckingTarget, ActionView::PathExists { path: dst })
    }

    #[verifier::opaque]
    /// Copying what `src` contains into `dst`: the target is created if it
    /// is missing, then the contents are copied with their metadata.
    pub open spec fn spec_copy_directory_contents(
        src: Seq<char>,
        dst: Seq<char>,
        step: CopyStep,
        outcome: OutcomeView,
    ) -> PollView<CopyStep, ()> {
        match step {
            CopyStep::CheckingTarget => if outcome.affirmed() {
                Self::spec_copy_action(src, dst)
            } else {
                PollView::Pending {
                    step: CopyStep::CreatingTarget,
                    action: ActionView::CreateDirAll { path: dst },
                }
            },
            CopyStep::CreatingTarget => unless(
                outcome.failure_unless_done("Failed to create directory: "@, "Directory copy"@),
                Self::spec_copy_action(src, dst),
            ),
            CopyStep::Copying => unless(
                outcome.failure_unless_successful(
                    "Failed to copy directory: "@,
                    "Directory copy"@,
                    "Directory copy failed"@,
                    "Directory copy"@,
                ),
                PollView::Ready { value: () },
            ),
        }
    }

    pub fn begin_copy_directory_contents(dst: &str) -> (begun: (CopyStep, Action))
        ensures
            (begun.0, begun.1@) == Self::spec_begin_copy_directory_contents(dst@),
    {
        (CopyStep::CheckingTarget, Action::PathExists { path: String::from_str(dst) })
    }

    fn copy_action(src: &str, dst: &str) -> (poll: Poll<CopyStep, ()>)
        ensures
            poll@ == Self::spec_copy_action(src@, dst@),
    {
        Poll::Pending {
            step: CopyStep::Copying,
            action: Action::CopyContents { source: join_path(src, "."), target: String::from_str(dst) },
        }
    }

    pub fn copy_directory_contents(src: &str, dst: &str, step: CopyStep, outcome: Outcome) -> (poll:
        Poll<CopyStep, ()>)
        ensures
            poll@ == Self::spec_copy_directory_contents(src@, dst@, step, outcome@),
    {
        proof {
            reveal(HomeDataMigrator::spec_copy_directory_contents);
        }
        match step {
            CopyStep::CheckingTarget => {
                if outcome.affirmed() {
                    Self::copy_action(src, dst)
                } else {
                    Poll::Pending {
                        step: CopyStep::CreatingTarget,
                        action: Action::CreateDirAll { path: String::from_str(dst) },
                    }
                }
            },
            CopyStep::CreatingTarget => {
                match outcome.failure_unless_done("Failed to create directory: ", "Directory copy") {
                    Some(failure) => Poll::Failed { failure },
                    None => Self::copy_action(src, dst),
                }
            },
            CopyStep::Copying => {
                match outcome.failure_unless_successful(
                    "Failed to copy directory: ",
                    "Directory copy",
                    "Directory copy failed",
                    "Directory copy",
                ) {
                    Some(failure) => Poll::Failed { failure },
                    None => Poll::Ready { value: () },
                }
            },
        }
    }

    // ---- backing up the legacy home ----

    pub open spec fn spec_begin_create_home_backup(backup_path: Seq<char>) -> (
        BackupStep,
        ActionView,
    ) {
        (BackupStep::CheckingStale, ActionView::PathExists { path: backup_path })
    }

    /// What creates the backup once nothing stale is in the way: a
    /// snapshot of a subvolume, a fresh subvolume for a plain directory.
    pub open spec fn spec_backup_action(
        system_home: Seq<char>,
        backup_path: Seq<char>,
        is_subvolume: bool,
    ) -> PollView<BackupStep, ()> {
        if is_subvolume {
            PollView::Pending {
                step: BackupStep::Snapshotting,
                action: ActionView::CreateSnapshot { source: system_home, target: backup_path },
            }
        } else {
            PollView::Pending {
                step: BackupStep::Creating,
                action: ActionView::CreateSubvolume { path: backup_path },
            }
        }
    }

    /// How a failure to delete the stale backup is reported.
    pub open spec fn stale_backup_failure(outcome: OutcomeView) -> Option<FailureView> {
        match SubvolumeHelper::deletion_failure(outcome) {
            Some(inner) => Some(
                FailureView::fatal(
                    "Failed to remove existing backup: "@,
                    inner.text(),
                    "Backup preparation"@,
                ),
            ),
            None => None,
        }
    }

    #[verifier::opaque]
    /// Backing up the legacy home: a stale backup is deleted first; a
    /// subvolume is snapshotted, a plain directory is copied into a fresh
    /// subvolume.
    pub open spec fn spec_create_home_backup(
        system_home: Seq<char>,
        backup_path: Seq<char>,
        is_subvolume: bool,
        step: BackupStep,
        outcome: OutcomeView,
    ) -> PollView<BackupStep, ()> {
        match step {
            BackupStep::CheckingStale => if outcome.affirmed() {
                PollView::Pending {
                    step: BackupStep::RemovingStale,
                    action: ActionView::DeleteSubvolume { path: backup_path },
                }
            } else {
                Self::spec_backup_action(system_home, backup_path, is_subvolume)
            },
            BackupStep::RemovingStale => unless(
                Self::stale_backup_failure(outcome),
                Self::spec_backup_action(system_home, backup_path, is_subvolume),
            ),
            BackupStep::Snapshotting => unless(
                SubvolumeHelper::snapshot_failure(outcome),
                PollView::Ready { value: () },
            ),
            BackupStep::Creating => unless(
                SubvolumeHelper::creation_failure(outcome),
                pending(Self::spec_begin_copy_directory_contents(backup_path)).wrap(
                    |s: CopyStep| BackupStep::Copying(s),
                ),
            ),
            BackupStep::Copying(inner) => Self::spec_copy_directory_contents(
                system_home,
                backup_path,
                inner,
                outcome,
            ).wrap(|s: CopyStep| BackupStep::Copying(s)),
        }
    }

    pub fn begin_create_home_backup(backup_path: &str) -> (begun: (BackupStep, Action))
        ensures
            (begun.0, begun.1@) == Self::spec_begin_create_home_backup(backup_path@),
    {
        (BackupStep::CheckingStale, Action::PathExists { path: String::from_str(backup_path) })
    }

    fn backup_action(system_home: &str, backup_path: &str, is_subvolume: bool) -> (poll: Poll<
        BackupStep,
        (),
    >)
        ensures
            poll@ == Self::spec_backup_action(system_home@, backup_path@, is_subvolume),
    {
        if is_subvolume {
            Poll::Pending {
                step: BackupStep::Snapshotting,
                action: SubvolumeHelper::create_snapshot(system_home, backup_path),
            }
        } else {
            Poll::Pending {
                step: BackupStep::Creating,
                action: SubvolumeHelper::create_subvolume(backup_path),
            }
        }
    }

    pub fn create_home_backup(
        system_home: &str,
        backup_path: &str,
        is_subvolume: bool,
        step: BackupStep,
        outcome: Outcome,
    ) -> (poll: Poll<BackupStep, ()>)
        ensures
            poll@ == Self::spec_create_home_backup(
                system_home@,
                backup_path@,
                is_subvolume,
                step,
                outcome@,
            ),
    {
        proof {
            reveal(HomeDataMigrator::spec_create_home_backup);
        }
        match step {
            BackupStep::CheckingStale => {
                if outcome.affirmed() {
                    Poll::Pending {
                        step: BackupStep::RemovingStale,
                        action: SubvolumeHelper::delete_subvolume(backup_path),
                    }
                } else {
                    Self::backup_action(system_home, backup_path, is_subvolume)
                }
            },
            BackupStep::RemovingStale => {
                match SubvolumeHelper::deleted(&outcome) {
                    Some(inner) => {
                        let text = inner.describe();
                        Poll::Failed {
                            failure: Failure::fatal(
                                "Failed to remove existing backup: ",
                                text.as_str(),
                                "Backup preparation",
                            ),
                        }
                    },
                    None => Self::backup_action(system_home, backup_path, is_subvolume),
                }
            },
            BackupStep::Snapshotting => {
                match SubvolumeHelper::snapshotted(&outcome) {
                    Some(failure) => Poll::Failed { failure },
                    None => Poll::Ready { value: () },
                }
            },
            BackupStep::Creating => {
                match SubvolumeHelper::created(&outcome) {
                    Some(failure) => Poll::Failed { failure },
                    None => {
                        let (inner, action) = Self::begin_copy_directory_contents(backup_path);
                        Poll::Pending { step: BackupStep::Copying(inner), action }
                    },
                }
            },
            BackupStep::Copying(inner) => {
                match Self::copy_directory_contents(system_home, backup_path, inner, outcome) {
                    Poll::Pending { step, action } => Poll::Pending {
                        step: BackupStep::Copying(step),
                        action,
                    },
                    Poll::Ready { value } => Poll::Ready { value },
                    Poll::Failed { failure } => Poll::Failed { failure },
                }
            },
        }
    }

    // ---- emptying a directory ----

    pub open spec fn spec_begin_clear_directory(path: Seq<char>) -> (ClearStep, ActionView) {
        (ClearStep::Listing, ActionView::ListDirectory { path })
    }

    /// What follows once the entries before `index` are gone: the next
    /// entry is examined, or the directory is empty.
    pub open spec fn spec_clear_from(listing: Seq<Seq<char>>, path: Seq<char>, index: int) -> PollView<
        ClearStep,
        (),
    > {
        if 0 <= index < listing.len() {
            PollView::Pending {
                step: ClearStep::Probing { index: index as usize },
                action: ActionView::IsDirectory { path: joined(path, listing[index]) },
            }
        } else {
            PollView::Ready { value: () }
        }
    }

    #[verifier::opaque]
    /// Emptying the directory `path`: every entry of its listing is
    /// removed in turn, a directory with all it holds. A step that points
    /// outside the listing is a stray step.
    pub open spec fn spec_clear_directory(
        ctx: ContextView,
        path: Seq<char>,
        step: ClearStep,
        outcome: OutcomeView,
    ) -> (ContextView, PollView<ClearStep, ()>) {
        match step {
            ClearStep::Listing => match outcome {
                OutcomeView::Entries { names } => (
                    ContextView { listing: names, ..ctx },
                    Self::spec_clear_from(names, path, 0),
                ),
                OutcomeView::EntryFailed { reason } => (
                    ctx,
                    PollView::Failed { failure: FailureView::Io(reason) },
                ),
                _ => (
                    ctx,
                    PollView::Failed {
                        failure: FailureView::fatal(
                            "Failed to read directory: "@,
                            outcome.reason(),
                            "Directory clearance"@,
                        ),
                    },
                ),
            },
            ClearStep::Probing { index } => (
                ctx,
                if index < ctx.listing.len() {
                    if outcome.affirmed() {
                        PollView::Pending {
                            step: ClearStep::RemovingDirectory { index },
                            action: ActionView::RemoveDirAll {
                                path: joined(path, ctx.listing[index as int]),
                            },
                        }
                    } else {
                        PollView::Pending {
                            step: ClearStep::RemovingFile { index },
                            action: ActionView::RemoveFile {
                                path: joined(path, ctx.listing[index as int]),
                            },
                        }
                    }
                } else {
                    stray()
                },
            ),
            ClearStep::RemovingDirectory { index } => (
                ctx,
                if index < ctx.listing.len() {
                    unless(
                        outcome.failure_unless_done(
                            "Failed to remove directory: "@,
                            "Directory clearance"@,
                        ),
                        Self::spec_clear_from(ctx.listing, path, index + 1),
                    )
                } else {
                    stray()
                },
            ),
            ClearStep::RemovingFile { index } => (
                ctx,
                if index < ctx.listing.len() {
                    unless(
                        outcome.failure_unless_done(
                            "Failed to remove file: "@,
                            "Directory clearance"@,
                        ),
                        Self::spec_clear_from(ctx.listing, path, index + 1),
                    )
                } else {
                    stray()
                },
            ),
        }
    }

    pub fn begin_clear_directory(path: &str) -> (begun: (ClearStep, Action))
        ensures
            (begun.0, begun.1@) == Self::spec_begin_clear_directory(path@),
    {
        (ClearStep::Listing, Action::ListDirectory { path: String::from_str(path) })
    }

    fn clear_from(listing: &Vec<String>, path: &str, index: usize) -> (poll: Poll<ClearStep, ()>)
        ensures
            poll@ == Self::spec_clear_from(listing.deep_view(), path@, index as int),
    {
        if index < listing.len() {
            Poll::Pending {
                step: ClearStep::Probing { index },
                action: Action::IsDirectory { path: join_path(path, listing[index].as_str()) },
            }
        } else {
            Poll::Ready { value: () }
        }
    }

    pub fn clear_directory(
        ctx: &mut MigrationContext,
        path: &str,
        step: ClearStep,
        outcome: Outcome,
    ) -> (poll: Poll<ClearStep, ()>)
        ensures
            (final(ctx)@, poll@) == Self::spec_clear_directory(old(ctx)@, path@, step, outcome@),
    {
        proof {
            reveal(HomeDataMigrator::spec_clear_directory);
        }
        match step {
            ClearStep::Listing => {
                match outcome {
                    Outcome::Entries { names } => {
                        ctx.listing = names;
                        Self::clear_from(&ctx.listing, path, 0)
                    },
                    Outcome::EntryFailed { reason } => Poll::Failed { failure: Failure::Io(reason) },
                    other => {
                        let reason = other.reason();
                        Poll::Failed {
                            failure: Failure::fatal(
                                "Failed to read directory: ",
                                reason.as_str(),
                                "Directory clearance",
                            ),
                        }
                    },
                }
            },
            ClearStep::Probing { index } => {
                if index < ctx.listing.len() {
                    let target = join_path(path, ctx.listing[index].as_str());
                    if outcome.affirmed() {
                        Poll::Pending {
                            step: ClearStep::RemovingDirectory { index },
                            action: Action::RemoveDirAll { path: target },
                        }
                    } else {
                        Poll::Pending {
                            step: ClearStep::RemovingFile { index },
                            action: Action::RemoveFile { path: target },
                        }
                    }
                } else {
                    Poll::Failed { failure: Failure::StrayStep }
                }
            },
            ClearStep::RemovingDirectory { index } => {
                if index < ctx.listing.len() {
                    match outcome.failure_unless_done(
                        "Failed to remove directory: ",
                        "Directory clearance",
                    ) {
                        Some(failure) => Poll::Failed { failure },
                        None => Self::clear_from(&ctx.listing, path, index + 1),
                    }
                } else {
                    Poll::Failed { failure: Failure::StrayStep }
                }
            },
            ClearStep::RemovingFile { index } => {
                if index < ctx.listing.len() {
                    match outcome.failure_unless_done(
                        "Failed to remove file: ",
                        "Directory clearance",
                    ) {
                        Some(failure) => Poll::Failed { failure },
                        None => Self::clear_from(&ctx.listing, path, index + 1),
                    }
                } else {
                    Poll::Failed { failure: Failure::StrayStep }
                }
            },
        }
    }

    // ---- removing the legacy home ----

    pub open spec fn spec_begin_remove_old_home_data(system_home: Seq<char>, is_subvolume: bool) -> (
        RemoveStep,
        ActionView,
    ) {
        if is_subvolume {
            (RemoveStep::Deleting, ActionView::DeleteSubvolume { path: system_home })
        } else {
            (
                RemoveStep::Clearing(Self::spec_begin_clear_directory(system_home).0),
                Self::spec_begin_clear_directory(system_home).1,
            )
        }
    }

    #[verifier::opaque]
    /// Removing the legacy home: a subvolume is deleted, a plain directory
    /// is emptied.
    pub open spec fn spec_remove_old_home_data(
        ctx: ContextView,
        system_home: Seq<char>,
        step: RemoveStep,
        outcome: OutcomeView,
    ) -> (ContextView, PollView<RemoveStep, ()>) {
        match step {
            RemoveStep::Deleting => (
                ctx,
                unless(SubvolumeHelper::deletion_failure(outcome), PollView::Ready { value: () }),
            ),
            RemoveStep::Clearing(inner) => (
                Self::spec_clear_directory(ctx, system_home, inner, outcome).0,
                Self::spec_clear_directory(ctx, system_home, inner, outcome).1.wrap(
                    |s: ClearStep| RemoveStep::Clearing(s),
                ),
            ),
        }
    }

    pub fn begin_remove_old_home_data(system_home: &str, is_subvolume: bool) -> (begun: (
        RemoveStep,
        Action,
    ))
        ensures
            (begun.0, begun.1@) == Self::spec_begin_remove_old_home_data(system_home@, is_subvolume),
    {
        if is_subvolume {
            (RemoveStep::Deleting, SubvolumeHelper::delete_subvolume(system_home))
        } else {
            let (inner, action) = Self::begin_clear_directory(system_home);
            (RemoveStep::Clearing(inner), action)
        }
    }

    pub fn remove_old_home_data(
        ctx: &mut MigrationContext,
        system_home: &str,
        step: RemoveStep,
        outcome: Outcome,
    ) -> (poll: Poll<RemoveStep, ()>)
        ensures
            (final(ctx)@, poll@) == Self::spec_remove_old_home_data(
                old(ctx)@,
                system_home@,
                step,
                outcome@,
            ),
    {
        proof {
            reveal(HomeDataMigrator::spec_remove_old_home_data);
        }
        match step {
            RemoveStep::Deleting => {
                match SubvolumeHelper::deleted(&outcome) {
                    Some(failure) => Poll::Failed { failure },
                    None => Poll::Ready { value: () },
                }
            },
            RemoveStep::Clearing(inner) => {
                match Self::clear_directory(ctx, system_home, inner, outcome) {
                    Poll::Pending { step, action } => Poll::Pending {
                        step: RemoveStep::Clearing(step),
                        action,
                    },
                    Poll::Ready { value } => Poll::Ready { value },
                    Poll::Failed { failure } => Poll::Failed { failure },
                }
            },
        }
    }

    // ---- the home subvolume ----

    pub open spec fn spec_begin_ensure_home_subvolume(home_subvol: Seq<char>) -> (
        EnsureStep,
        ActionView,
    ) {
        (EnsureStep::Checking, ActionView::PathExists { path: home_subvol })
    }

    #[verifier::opaque]
    /// Making sure that the home subvolume exists: it is created where
    /// nothing is found at its path.
    pub open spec fn spec_ensure_home_subvolume(
        home_subvol: Seq<char>,
        step: EnsureStep,
        outcome: OutcomeView,
    ) -> PollView<EnsureStep, ()> {
        match step {
            EnsureStep::Checking => if outcome.affirmed() {
                PollView::Ready { value: () }
            } else {
                PollView::Pending {
                    step: EnsureStep::Creating,
                    action: ActionView::CreateSubvolume { path: home_subvol },
                }
            },
            EnsureStep::Creating => unless(
                SubvolumeHelper::creation_failure(outcome),
                PollView::Ready { value: () },
            ),
        }
    }

    pub fn begin_ensure_home_subvolume(home_subvol: &str) -> (begun: (EnsureStep, Action))
        ensures
            (begun.0, begun.1@) == Self::spec_begin_ensure_home_subvolume(home_subvol@),
    {
        (EnsureStep::Checking, Action::PathExists { path: String::from_str(home_subvol) })
    }

    pub fn ensure_home_subvolume(home_subvol: &str, step: EnsureStep, outcome: Outcome) -> (poll:
        Poll<EnsureStep, ()>)
        ensures
            poll@ == Self::spec_ensure_home_subvolume(home_subvol@, step, outcome@),
    {
        proof {
            reveal(HomeDataMigrator::spec_ensure_home_subvolume);
        }
        match step {
            EnsureStep::Checking => {
                if outcome.affirmed() {
                    Poll::Ready { value: () }
                } else {
                    Poll::Pending {
                        step: EnsureStep::Creating,
                        action: SubvolumeHelper::create_subvolume(home_subvol),
                    }
                }
            },
            EnsureStep::Creating => {
                match SubvolumeHelper::created(&outcome) {
                    Some(failure) => Poll::Failed { failure },
                    None => Poll::Ready { value: () },
                }
            },
        }
    }

    // ---- moving the backup into the home subvolume ----

    pub open spec fn spec_begin_transfer_home_data(backup_path: Seq<char>) -> (
        TransferStep,
        ActionView,
    ) {
        (TransferStep::Listing, ActionView::ListDirectory { path: backup_path })
    }

    /// What follows once the entries before `from` are dealt with: the
    /// next entry that is no `.snapshots` is examined, or the transfer is
    /// complete.
    pub open spec fn spec_transfer_from(listing: Seq<Seq<char>>, backup_path: Seq<char>, from: int) -> PollView<
        TransferStep,
        (),
    > {
        let index = next_to_transfer(listing, from);
        if 0 <= index < listing.len() {
            PollView::Pending {
                step: TransferStep::Probing { index: index as usize },
                action: ActionView::IsDirectory { path: joined(backup_path, listing[index]) },
            }
        } else {
            PollView::Ready { value: () }
        }
    }

    #[verifier::opaque]
    /// Moving the backup into the home subvolume: every entry of the
    /// backup's listing but `.snapshots` is copied to the same name below
    /// the home subvolume, a directory with all it holds. A step that
    /// points outside the listing is a stray step.
    pub open spec fn spec_transfer_home_data(
        ctx: ContextView,
        backup_path: Seq<char>,
        home_subvol: Seq<char>,
        step: TransferStep,
        outcome: OutcomeView,
    ) -> (ContextView, PollView<TransferStep, ()>) {
        match step {
            TransferStep::Listing => match outcome {
                OutcomeView::Entries { names } => (
                    ContextView { listing: names, ..ctx },
                    Self::spec_transfer_from(names, backup_path, 0),
                ),
                OutcomeView::EntryFailed { reason } => (
                    ctx,
                    PollView::Failed { failure: FailureView::Io(reason) },
                ),
                _ => (
                    ctx,
                    PollView::Failed {
                        failure: FailureView::fatal(
                            "Failed to read backup: "@,
                            outcome.reason(),
                            "Data transfer"@,
                        ),
                    },
                ),
            },
            TransferStep::Probing { index } => (
                ctx,
                if index < ctx.listing.len() {
                    if outcome.affirmed() {
                        pending(
                            Self::spec_begin_copy_directory_contents(
                                joined(home_subvol, ctx.listing[index as int]),
                            ),
                        ).wrap(|s: CopyStep| TransferStep::CopyingDirectory { index, inner: s })
                    } else {
                        PollView::Pending {
                            step: TransferStep::CopyingFile { index },
                            action: ActionView::CopyFile {
                                source: joined(backup_path, ctx.listing[index as int]),
                                target: joined(home_subvol, ctx.listing[index as int]),
                            },
                        }
                    }
                } else {
                    stray()
                },
            ),
            TransferStep::CopyingDirectory { index, inner } => (
                ctx,
                if index < ctx.listing.len() {
                    Self::spec_copy_directory_contents(
                        joined(backup_path, ctx.listing[index as int]),
                        joined(home_subvol, ctx.listing[index as int]),
                        inner,
                        outcome,
                    ).followed_by(
                        |s: CopyStep| TransferStep::CopyingDirectory { index, inner: s },
                        Self::spec_transfer_from(ctx.listing, backup_path, index + 1),
                    )
                } else {
                    stray()
                },
            ),
            TransferStep::CopyingFile { index } => (
                ctx,
                if index < ctx.listing.len() {
                    unless(
                        outcome.failure_unless_successful(
                            "Failed to copy file: "@,
                            "Data transfer"@,
                            "File copy failed"@,
                            "Data transfer"@,
                        ),
                        Self::spec_transfer_from(ctx.listing, backup_path, index + 1),
                    )
                } else {
                    stray()
                },
            ),
        }
    }

    pub fn begin_transfer_home_data(backup_path: &str) -> (begun: (TransferStep, Action))
        ensures
            (begun.0, begun.1@) == Self::spec_begin_transfer_home_data(backup_path@),
    {
        (TransferStep::Listing, Action::ListDirectory { path: String::from_str(backup_path) })
    }

    fn transfer_from(listing: &Vec<String>, backup_path: &str, from: usize) -> (poll: Poll<
        TransferStep,
        (),
    >)
        ensures
            poll@ == Self::spec_transfer_from(listing.deep_view(), backup_path@, from as int),
    {
        let skipped = String::from_str(".snapshots");
        let mut index: usize = from;
        while index < listing.len() && listing[index] == skipped
            invariant
                from <= index,
                skipped@ == snapshots_entry(),
                next_to_transfer(listing.deep_view(), from as int) == next_to_transfer(
                    listing.deep_view(),
                    index as int,
                ),
            decreases listing.len() - index,
        {
            index = index + 1;
        }
        if index < listing.len() {
            Poll::Pending {
                step: TransferStep::Probing { index },
                action: Action::IsDirectory { path: join_path(backup_path, listing[index].as_str()) },
            }
        } else {
            Poll::Ready { value: () }
        }
    }

    pub fn transfer_home_data(
        ctx: &mut MigrationContext,
        backup_path: &str,
        home_subvol: &str,
        step: TransferStep,
        outcome: Outcome,
    ) -> (poll: Poll<TransferStep, ()>)
        ensures
            (final(ctx)@, poll@) == Self::spec_transfer_home_data(
                old(ctx)@,
                backup_path@,
                home_subvol@,
                step,
                outcome@,
            ),
    {
        proof {
            reveal(HomeDataMigrator::spec_transfer_home_data);
        }
        match step {
            TransferStep::Listing => {
                match outcome {
                    Outcome::Entries { names } => {
                        ctx.listing = names;
                        Self::transfer_from(&ctx.listing, backup_path, 0)
                    },
                    Outcome::EntryFailed { reason } => Poll::Failed { failure: Failure::Io(reason) },
                    other => {
                        let reason = other.reason();
                        Poll::Failed {
                            failure: Failure::fatal(
                                "Failed to read backup: ",
                                reason.as_str(),
                                "Data transfer",
                            ),
                        }
                    },
                }
            },
            TransferStep::Probing { index } => {
                if index < ctx.listing.len() {
                    let target = join_path(home_subvol, ctx.listing[index].as_str());
                    if outcome.affirmed() {
                        let (inner, action) = Self::begin_copy_directory_contents(target.as_str());
                        Poll::Pending {
                            step: TransferStep::CopyingDirectory { index, inner },
                            action,
                        }
                    } else {
                        let source = join_path(backup_path, ctx.listing[index].as_str());
                        Poll::Pending {
                            step: TransferStep::CopyingFile { index },
                            action: Action::CopyFile { source, target },
                        }
                    }
                } else {
                    Poll::Failed { failure: Failure::StrayStep }
                }
            },
            TransferStep::CopyingDirectory { index, inner } => {
                if index < ctx.listing.len() {
                    let source = join_path(backup_path, ctx.listing[index].as_str());
                    let target = join_path(home_subvol, ctx.listing[index].as_str());
                    match Self::copy_directory_contents(
                        source.as_str(),
                        target.as_str(),
                        inner,
                        outcome,
                    ) {
                        Poll::Pending { step, action } => Poll::Pending {
                            step: TransferStep::CopyingDirectory { index, inner: step },
                            action,
                        },
                        Poll::Ready { value } => Self::transfer_from(
                            &ctx.listing,
                            backup_path,
                            index + 1,
                        ),
                        Poll::Failed { failure } => Poll::Failed { failure },
                    }
                } else {
                    Poll::Failed { failure: Failure::StrayStep }
                }
            },
            TransferStep::CopyingFile { index } => {
                if index < ctx.listing.len() {
                    match outcome.failure_unless_successful(
                        "Failed to copy file: ",
                        "Data transfer",
                        "File copy failed",
                        "Data transfer",
                    ) {
                        Some(failure) => Poll::Failed { failure },
                        None => Self::transfer_from(&ctx.listing, backup_path, index + 1),
                    }
                } else {
                    Poll::Failed { failure: Failure::StrayStep }
                }
            },
        }
    }

    // ---- deleting the backup ----

    pub open spec fn spec_begin_cleanup_backup(backup_path: Seq<char>) -> (CleanupStep, ActionView) {
        (CleanupStep::Deleting, ActionView::DeleteSubvolume { path: backup_path })
    }

    #[verifier::opaque]
    /// Deleting the backup: the one action either succeeds or is fatal.
    pub open spec fn spec_cleanup_backup(step: CleanupStep, outcome: OutcomeView) -> PollView<
        CleanupStep,
        (),
    > {
        unless(SubvolumeHelper::deletion_failure(outcome), PollView::Ready { value: () })
    }

    pub fn begin_cleanup_backup(backup_path: &str) -> (begun: (CleanupStep, Action))
        ensures
            (begun.0, begun.1@) == Self::spec_begin_cleanup_backup(backup_path@),
    {
        (CleanupStep::Deleting, SubvolumeHelper::delete_subvolume(backup_path))
    }

    pub fn cleanup_backup(step: CleanupStep, outcome: Outcome) -> (poll: Poll<CleanupStep, ()>)
        ensures
            poll@ == Self::spec_cleanup_backup(step, outcome@),
    {
        proof {
            reveal(HomeDataMigrator::spec_cleanup_backup);
        }
        match SubvolumeHelper::deleted(&outcome) {
            Some(failure) => Poll::Failed { failure },
            None => Poll::Ready { value: () },
        }
    }

    // ---- the relocation as a whole ----

    pub open spec fn spec_begin_migrate(ctx: ContextView) -> (ContextView, (HomeStep, ActionView)) {
        (
            ctx.stepped(),
            (HomeStep::CheckingLegacy, ActionView::PathExists { path: ctx.path(legacy_home()) }),
        )
    }

    pub open spec fn spec_enter_cleanup(ctx: ContextView) -> PollView<HomeStep, ()> {
        pending(Self::spec_begin_cleanup_backup(ctx.path(home_backup()))).wrap(
            |s: CleanupStep| HomeStep::CleaningUp { inner: s },
        )
    }

    pub open spec fn spec_enter_transfer(ctx: ContextView) -> PollView<HomeStep, ()> {
        pending(Self::spec_begin_transfer_home_data(ctx.path(home_backup()))).wrap(
            |s: TransferStep| HomeStep::Transferring { inner: s },
        )
    }

    pub open spec fn spec_enter_ensure(ctx: ContextView) -> PollView<HomeStep, ()> {
        pending(Self::spec_begin_ensure_home_subvolume(ctx.path(home_subvolume()))).wrap(
            |s: EnsureStep| HomeStep::Ensuring { inner: s },
        )
    }

    pub open spec fn spec_enter_removal(ctx: ContextView, is_subvolume: bool) -> PollView<
        HomeStep,
        (),
    > {
        pending(
            Self::spec_begin_remove_old_home_data(ctx.path(legacy_home()), is_subvolume),
        ).wrap(|s: RemoveStep| HomeStep::Removing { inner: s })
    }

    #[verifier::opaque]
    /// Relocating the home data. Without legacy home data nothing is done.
    /// Otherwise the operator is shown what the legacy home holds, which
    /// may fail without harm. Then, in this order and each only after the
    /// one before it has succeeded: the backup is made, the legacy home is removed, the home
    /// subvolume is made sure of, the backup is moved into it, and the
    /// backup is deleted.
    pub open spec fn spec_migrate(ctx: ContextView, step: HomeStep, outcome: OutcomeView) -> (
        ContextView,
        PollView<HomeStep, ()>,
    ) {
        let system_home = ctx.path(legacy_home());
        let home_subvol = ctx.path(home_subvolume());
        let backup_path = ctx.path(home_backup());
        match step {
            HomeStep::CheckingLegacy => (
                ctx,
                if outcome.affirmed() {
                    PollView::Pending {
                        step: HomeStep::CheckingSubvolume,
                        action: ActionView::InodeNumber { path: system_home },
                    }
                } else {
                    PollView::Ready { value: () }
                },
            ),
            HomeStep::CheckingSubvolume => (
                ctx,
                PollView::Pending {
                    step: HomeStep::ShowingContents {
                        is_subvolume: SubvolumeHelper::spec_is_subvolume(outcome),
                    },
                    action: ActionView::ShowContents { path: system_home },
                },
            ),
            HomeStep::ShowingContents { is_subvolume } => (
                ctx,
                pending(Self::spec_begin_create_home_backup(backup_path)).wrap(
                    |s: BackupStep| HomeStep::BackingUp { is_subvolume, inner: s },
                ),
            ),
            HomeStep::BackingUp { is_subvolume, inner } => (
                ctx,
                Self::spec_create_home_backup(
                    system_home,
                    backup_path,
                    is_subvolume,
                    inner,
                    outcome,
                ).followed_by(
                    |s: BackupStep| HomeStep::BackingUp { is_subvolume, inner: s },
                    Self::spec_enter_removal(ctx, is_subvolume),
                ),
            ),
            HomeStep::Removing { inner } => {
                let (after, poll) = Self::spec_remove_old_home_data(ctx, system_home, inner, outcome);
                (
                    after,
                    poll.followed_by(
                        |s: RemoveStep| HomeStep::Removing { inner: s },
                        Self::spec_enter_ensure(after),
                    ),
                )
            },
            HomeStep::Ensuring { inner } => (
                ctx,
                Self::spec_ensure_home_subvolume(home_subvol, inner, outcome).followed_by(
                    |s: EnsureStep| HomeStep::Ensuring { inner: s },
                    Self::spec_enter_transfer(ctx),
                ),
            ),
            HomeStep::Transferring { inner } => {
                let (after, poll) = Self::spec_transfer_home_data(
                    ctx,
                    backup_path,
                    home_subvol,
                    inner,
                    outcome,
                );
                (
                    after,
                    poll.followed_by(
                        |s: TransferStep| HomeStep::Transferring { inner: s },
                        Self::spec_enter_cleanup(after),
                    ),
                )
            },
            HomeStep::CleaningUp { inner } => (
                ctx,
                Self::spec_cleanup_backup(inner, outcome).wrap(
                    |s: CleanupStep| HomeStep::CleaningUp { inner: s },
                ),
            ),
        }
    }

    pub fn begin_migrate(ctx: &mut MigrationContext) -> (begun: (HomeStep, Action))
        ensures
            (final(ctx)@, (begun.0, begun.1@)) == Self::spec_begin_migrate(old(ctx)@),
    {
        ctx.log_step();
        (HomeStep::CheckingLegacy, Action::PathExists { path: ctx.path("@system/home") })
    }

    fn enter_cleanup(ctx: &MigrationContext) -> (poll: Poll<HomeStep, ()>)
        ensures
            poll@ == Self::spec_enter_cleanup(ctx@),
    {
        let backup_path = ctx.path("@oldhome");
        let (inner, action) = Self::begin_cleanup_backup(backup_path.as_str());
        Poll::Pending { step: HomeStep::CleaningUp { inner }, action }
    }

    fn enter_transfer(ctx: &MigrationContext) -> (poll: Poll<HomeStep, ()>)
        ensures
            poll@ == Self::spec_enter_transfer(ctx@),
    {
        let backup_path = ctx.path("@oldhome");
        let (inner, action) = Self::begin_transfer_home_data(backup_path.as_str());
        Poll::Pending { step: HomeStep::Transferring { inner }, action }
    }

    fn enter_ensure(ctx: &MigrationContext) -> (poll: Poll<HomeStep, ()>)
        ensures
            poll@ == Self::spec_enter_ensure(ctx@),
    {
        let home_subvol = ctx.path("@home");
        let (inner, action) = Self::begin_ensure_home_subvolume(home_subvol.as_str());
        Poll::Pending { step: HomeStep::Ensuring { inner }, action }
    }

    fn enter_removal(ctx: &MigrationContext, is_subvolume: bool) -> (poll: Poll<HomeStep, ()>)
        ensures
            poll@ == Self::spec_enter_removal(ctx@, is_subvolume),
    {
        let system_home = ctx.path("@system/home");
        let (inner, action) = Self::begin_remove_old_home_data(system_home.as_str(), is_subvolume);
        Poll::Pending { step: HomeStep::Removing { inner }, action }
    }

    pub fn migrate(ctx: &mut MigrationContext, step: HomeStep, outcome: Outcome) -> (poll: Poll<
        HomeStep,
        (),
    >)
        ensures
            (final(ctx)@, poll@) == Self::spec_migrate(old(ctx)@, step, outcome@),
    {
        proof {
            reveal(HomeDataMigrator::spec_migrate);
        }
        let system_home = ctx.path("@system/home");
        let home_subvol = ctx.path("@home");
        let backup_path = ctx.path("@oldhome");
        match step {
            HomeStep::CheckingLegacy => {
                if outcome.affirmed() {
                    Poll::Pending {
                        step: HomeStep::CheckingSubvolume,
                        action: Action::InodeNumber { path: system_home },
                    }
                } else {
                    Poll::Ready { value: () }
                }
            },
            HomeStep::CheckingSubvolume => {
                let is_subvolume = SubvolumeHelper::is_subvolume(&outcome);
                Poll::Pending {
                    step: HomeStep::ShowingContents { is_subvolume },
                    action: Action::ShowContents { path: system_home },
                }
            },
            HomeStep::ShowingContents { is_subvolume } => {
                let (inner, action) = Self::begin_create_home_backup(backup_path.as_str());
                Poll::Pending { step: HomeStep::BackingUp { is_subvolume, inner }, action }
            },
            HomeStep::BackingUp { is_subvolume, inner } => {
                match Self::create_home_backup(
                    system_home.as_str(),
                    backup_path.as_str(),
                    is_subvolume,
                    inner,
                    outcome,
                ) {
                    Poll::Pending { step, action } => Poll::Pending {
                        step: HomeStep::BackingUp { is_subvolume, inner: step },
                        action,
                    },
                    Poll::Ready { value } => Self::enter_removal(ctx, is_subvolume),
                    Poll::Failed { failure } => Poll::Failed { failure },
                }
            },
            HomeStep::Removing { inner } => {
                match Self::remove_old_home_data(ctx, system_home.as_str(), inner, outcome) {
                    Poll::Pending { step, action } => Poll::Pending {
                        step: HomeStep::Removing { inner: step },
                        action,
                    },
                    Poll::Ready { value } => Self::enter_ensure(ctx),
                    Poll::Failed { failure } => Poll::Failed { failure },
                }
            },
            HomeStep::Ensuring { inner } => {
                match Self::ensure_home_subvolume(home_subvol.as_str(), inner, outcome) {
                    Poll::Pending { step, action } => Poll::Pending {
                        step: HomeStep::Ensuring { inner: step },
                        action,
                    },
                    Poll::Ready { value } => Self::enter_transfer(ctx),
                    Poll::Failed { failure } => Poll::Failed { failure },
                }
            },
            HomeStep::Transferring { inner } => {
                match Self::transfer_home_data(
                    ctx,
                    backup_path.as_str(),
                    home_subvol.as_str(),
                    inner,
                    outcome,
                ) {
                    Poll::Pending { step, action } => Poll::Pending {
                        step: HomeStep::Transferring { inner: step },
                        action,
                    },
                    Poll::Ready { value } => Self::enter_cleanup(ctx),
                    Poll::Failed { failure } => Poll::Failed { failure },
                }
            },
            HomeStep::CleaningUp { inner } => {
                match Self::cleanup_backup(inner, outcome) {
                    Poll::Pending { step, action } => Poll::Pending {
                        step: HomeStep::CleaningUp { inner: step },
                        action,
                    },
                    Poll::Ready { value } => Poll::Ready { value },
                    Poll::Failed { failure } => Poll::Failed { failure },
                }
            },
        }
    }
}


/// Every step of a directory copy asks for what it waits for.
pub proof fn lemma_copy_asks(src: Seq<char>, dst: Seq<char>, step: CopyStep, outcome: OutcomeView)
    ensures
        asked_as(
            HomeDataMigrator::spec_copy_directory_contents(src, dst, step, outcome),
            |s: CopyStep| s.asks(),
        ),
{
    reveal(HomeDataMigrator::spec_copy_directory_contents);
}

pub proof fn lemma_backup_asks(
    system_home: Seq<char>,
    backup_path: Seq<char>,
    is_subvolume: bool,
    step: BackupStep,
    outcome: OutcomeView,
)
    ensures
        asked_as(
            HomeDataMigrator::spec_create_home_backup(
                system_home,
                backup_path,
                is_subvolume,
                step,
                outcome,
            ),
            |s: BackupStep| s.asks(),
        ),
{
    reveal(HomeDataMigrator::spec_create_home_backup);
    if let BackupStep::Copying(inner) = step {
        lemma_copy_asks(system_home, backup_path, inner, outcome);
    }
}

pub proof fn lemma_clear_step(ctx: ContextView, path: Seq<char>, step: ClearStep, outcome: OutcomeView)
    ensures
        asked_as(
            HomeDataMigrator::spec_clear_directory(ctx, path, step, outcome).1,
            |s: ClearStep| s.asks(),
        ),
        ctx.same_but_listing(HomeDataMigrator::spec_clear_directory(ctx, path, step, outcome).0),
        HomeDataMigrator::spec_clear_directory(ctx, path, step, outcome).0.current_step
            == ctx.current_step,
{
    reveal(HomeDataMigrator::spec_clear_directory);
}

pub proof fn lemma_remove_step(
    ctx: ContextView,
    system_home: Seq<char>,
    step: RemoveStep,
    outcome: OutcomeView,
)
    ensures
        asked_as(
            HomeDataMigrator::spec_remove_old_home_data(ctx, system_home, step, outcome).1,
            |s: RemoveStep| s.asks(),
        ),
        ctx.same_but_listing(
            HomeDataMigrator::spec_remove_old_home_data(ctx, system_home, step, outcome).0,
        ),
        HomeDataMigrator::spec_remove_old_home_data(ctx, system_home, step, outcome).0.current_step
            == ctx.current_step,
{
    reveal(HomeDataMigrator::spec_remove_old_home_data);
    if let RemoveStep::Clearing(inner) = step {
        lemma_clear_step(ctx, system_home, inner, outcome);
    }
}

pub proof fn lemma_ensure_asks(home_subvol: Seq<char>, step: EnsureStep, outcome: OutcomeView)
    ensures
        asked_as(
            HomeDataMigrator::spec_ensure_home_subvolume(home_subvol, step, outcome),
            |s: EnsureStep| s.asks(),
        ),
{
    reveal(HomeDataMigrator::spec_ensure_home_subvolume);
}

pub proof fn lemma_transfer_step(
    ctx: ContextView,
    backup_path: Seq<char>,
    home_subvol: Seq<char>,
    step: TransferStep,
    outcome: OutcomeView,
)
    ensures
        asked_as(
            HomeDataMigrator::spec_transfer_home_data(
                ctx,
                backup_path,
                home_subvol,
                step,
                outcome,
            ).1,
            |s: TransferStep| s.asks(),
        ),
        ctx.same_but_listing(
            HomeDataMigrator::spec_transfer_home_data(
                ctx,
                backup_path,
                home_subvol,
                step,
                outcome,
            ).0,
        ),
        HomeDataMigrator::spec_transfer_home_data(
            ctx,
            backup_path,
            home_subvol,
            step,
            outcome,
        ).0.current_step == ctx.current_step,
{
    reveal(HomeDataMigrator::spec_transfer_home_data);
    if let TransferStep::CopyingDirectory { index, inner } = step {
        if index < ctx.listing.len() {
            lemma_copy_asks(
                joined(backup_path, ctx.listing[index as int]),
                joined(home_subvol, ctx.listing[index as int]),
                inner,
                outcome,
            );
        }
    }
}

pub proof fn lemma_cleanup_asks(step: CleanupStep, outcome: OutcomeView)
    ensures
        asked_as(HomeDataMigrator::spec_cleanup_backup(step, outcome), |s: CleanupStep| s.asks()),
{
    reveal(HomeDataMigrator::spec_cleanup_backup);
}

/// Every step of the home relocation asks for what it waits for, and
/// changes nothing of the context but the listing.
pub proof fn lemma_home_step(ctx: ContextView, step: HomeStep, outcome: OutcomeView)
    ensures
        asked_as(HomeDataMigrator::spec_migrate(ctx, step, outcome).1, |s: HomeStep| s.asks()),
        ctx.same_but_listing(HomeDataMigrator::spec_migrate(ctx, step, outcome).0),
        HomeDataMigrator::spec_migrate(ctx, step, outcome).0.current_step == ctx.current_step,
{
    reveal(HomeDataMigrator::spec_migrate);
    let system_home = ctx.path(legacy_home());
    let home_subvol = ctx.path(home_subvolume());
    let backup_path = ctx.path(home_backup());
    match step {
        HomeStep::BackingUp { is_subvolume, inner } => {
            lemma_backup_asks(system_home, backup_path, is_subvolume, inner, outcome);
        },
        HomeStep::Removing { inner } => {
            lemma_remove_step(ctx, system_home, inner, outcome);
        },
        HomeStep::Ensuring { inner } => {
            lemma_ensure_asks(home_subvol, inner, outcome);
        },
        HomeStep::Transferring { inner } => {
            lemma_transfer_step(ctx, backup_path, home_subvol, inner, outcome);
        },
        HomeStep::CleaningUp { inner } => {
            lemma_cleanup_asks(inner, outcome);
        },
        _ => {},
    }
}

} // verus!
