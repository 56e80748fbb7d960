use vstd::prelude::*;
use crate::action::{
    asked_as, pending, stray, unless, Action, ActionKind, ActionView, Outcome, OutcomeView, Poll,
    PollView,
};
use crate::context::{join_path, joined, parent_of, path_parent, ContextView, MigrationContext};
use crate::error::{Failure, FailureView, MigrationError, MigrationErrorView};
use crate::finder::{FindStep, LegacyRootFsV1Finder};
use crate::subvolume::SubvolumeHelper;

verus! {

/// The consolidated system subvolume, below the root.
pub open spec fn system_subvolume() -> Seq<char> {
    "@system"@
}

/// The scratch subvolume in which the consolidated layout is put together,
/// below the root.
pub open spec fn import_subvolume() -> Seq<char> {
    "@system.import"@
}

/// The mount table that the overlay has kept, below the root.
pub open spec fn overlay_fstab() -> Seq<char> {
    "@etc-overlay/upper/fstab"@
}

/// The filesystem type whose mount-table entries need no attention.
pub open spec fn swap_type() -> Seq<char> {
    "swap"@
}

/// How long device events may take to settle, in seconds.
pub const SETTLE_TIMEOUT: u32 = 8;

/// What the boot splash shows while the system is consolidated.
pub open spec fn v2_message() -> Seq<char> {
    "Migrating to v2 rootfs. This may take a while."@
}

/// Where the operator reads how to migrate by hand.
pub open spec fn instructions_url() -> Seq<char> {
    "https://community.kde.org/KDE_Linux/RootFSv2"@
}

/// What the operator is asked.
pub open spec fn confirmation_prompt() -> Seq<char> {
    "Do you want to continue with auto-migration?"@
}

/// The number of mount-table entries whose type is not swap.
pub open spec fn concerning_entries(types: Seq<Seq<char>>) -> nat
    decreases types.len(),
{
    if types.len() == 0 {
        0
    } else {
        concerning_entries(types.drop_last()) + if types.last() != swap_type() {
            1nat
        } else {
            0nat
        }
    }
}

/// The subvolumes that move into the consolidated system, each with the
/// place it takes there.
pub open spec fn subvolume_targets() -> Seq<(Seq<char>, Seq<char>)> {
    seq![
        ("@home"@, "home"@),
        ("@root"@, "root"@),
        ("@snap"@, "snap"@),
        ("@containers"@, "var/lib/containers"@),
        ("@docker"@, "var/lib/docker"@),
    ]
}

/// A directory of the legacy root filesystem that is merged with its
/// overlay.
#[derive(Clone, Copy, Debug, PartialEq, Eq)]
pub enum SystemDir {
    Etc,
    Var,
}

impl SystemDir {
    pub open spec fn spec_name(self) -> Seq<char> {
        match self {
            SystemDir::Etc => "etc"@,
            SystemDir::Var => "var"@,
        }
    }

    pub fn name(self) -> (name: &'static str)
        ensures
            name@ == self.spec_name(),
    {
        match self {
            SystemDir::Etc => "etc",
            SystemDir::Var => "var",
        }
    }
}

/// Progress of making the scratch subvolume.
#[derive(Clone, Copy, Debug, PartialEq, Eq)]
pub enum PrepareStep {
    CheckingStale,
    RemovingStale,
    Creating,
}

impl PrepareStep {
    /// The kind of action whose outcome the step waits for.
    pub open spec fn asks(self) -> ActionKind {
        match self {
            PrepareStep::CheckingStale => ActionKind::PathExists,
            PrepareStep::RemovingStale => ActionKind::DeleteSubvolume,
            PrepareStep::Creating => ActionKind::CreateSubvolume,
        }
    }
}

/// Progress of warning about the mount table.
#[derive(Clone, Copy, Debug, PartialEq, Eq)]
pub enum WarnStep {
    HidingSplash { concerning: usize },
    ShowingQr { concerning: usize },
    /// Asked the operator whether to go on.
    Confirming,
    /// Asked for a reboot after the operator declined.
    Rebooting,
}

impl WarnStep {
    /// The kind of action whose outcome the step waits for.
    pub open spec fn asks(self) -> ActionKind {
        match self {
            WarnStep::HidingSplash { .. } => ActionKind::HideSplash,
            WarnStep::ShowingQr { .. } => ActionKind::ShowQrCode,
            WarnStep::Confirming => ActionKind::Confirm,
            WarnStep::Rebooting => ActionKind::Reboot,
        }
    }
}

/// Progress of examining the mount table.
#[derive(Clone, Copy, Debug, PartialEq, Eq)]
pub enum FstabStep {
    Reading,
    Warning { inner: WarnStep },
}

impl FstabStep {
    /// The kind of action whose outcome the step waits for.
    pub open spec fn asks(self) -> ActionKind {
        match self {
            FstabStep::Reading => ActionKind::ReadFstab,
            FstabStep::Warning { inner } => inner.asks(),
        }
    }
}

/// Progress of merging the system directories. From `Copying` until the
/// answer to `Releasing` the overlay of `dir` is held: the step after
/// `Copying` is always `Releasing`.
#[derive(Clone, Copy, Debug, PartialEq, Eq)]
pub enum SystemDirsStep {
    /// Asked for the overlay of `dir` to be mounted.
    Mounting { dir: SystemDir },
    /// Asked for the merged view of `dir` to be copied.
    Copying { dir: SystemDir },
    /// Asked for the overlay of `dir` to be unmounted.
    Releasing { dir: SystemDir },
}

impl SystemDirsStep {
    /// The kind of action whose outcome the step waits for.
    pub open spec fn asks(self) -> ActionKind {
        match self {
            SystemDirsStep::Mounting { .. } => ActionKind::MountOverlay,
            SystemDirsStep::Copying { .. } => ActionKind::CopyTree,
            SystemDirsStep::Releasing { .. } => ActionKind::Unmount,
        }
    }
}

/// Progress of snapshotting one subvolume into the scratch tree.
#[derive(Clone, Copy, Debug, PartialEq, Eq)]
pub enum SnapshotStep {
    CheckingTarget,
    RemovingTarget,
    CheckingParent,
    CreatingParent,
    Snapshotting,
}

impl SnapshotStep {
    /// The kind of action whose outcome the step waits for.
    pub open spec fn asks(self) -> ActionKind {
        match self {
            SnapshotStep::CheckingTarget => ActionKind::PathExists,
            SnapshotStep::RemovingTarget => ActionKind::RemoveDirAll,
            SnapshotStep::CheckingParent => ActionKind::PathExists,
            SnapshotStep::CreatingParent => ActionKind::CreateDirAll,
            SnapshotStep::Snapshotting => ActionKind::CreateSnapshot,
        }
    }
}

/// Progress of snapshotting the subvolumes into the scratch tree.
#[derive(Clone, Copy, Debug, PartialEq, Eq)]
pub enum SubvolumesStep {
    /// Working on pair `index` of the subvolume targets.
    Pair { index: usize, inner: SnapshotStep },
}

impl SubvolumesStep {
    /// The kind of action whose outcome the step waits for.
    pub open spec fn asks(self) -> ActionKind {
        match self {
            SubvolumesStep::Pair { inner, .. } => inner.asks(),
        }
    }
}

/// Progress of the migration to the second epoch.
#[derive(Clone, Copy, Debug, PartialEq, Eq)]
#[allow(inconsistent_fields)]
pub enum V2Step {
    CheckingSystem,
    Settling,
    ShowingMessage,
    Preparing { inner: PrepareStep },
    Fstab { inner: FstabStep },
    Finding { inner: FindStep },
    SystemDirs { inner: SystemDirsStep },
    Subvolumes { inner: SubvolumesStep },
    Finalizing,
}

impl V2Step {
    /// The kind of action whose outcome the step waits for.
    pub open spec fn asks(self) -> ActionKind {
        match self {
            V2Step::CheckingSystem => ActionKind::PathExists,
            V2Step::Settling => ActionKind::SettleDevices,
            V2Step::ShowingMessage => ActionKind::ShowMessage,
            V2Step::Preparing { inner } => inner.asks(),
            V2Step::Fstab { inner } => inner.asks(),
            V2Step::Finding { inner } => inner.asks(),
            V2Step::SystemDirs { inner } => inner.asks(),
            V2Step::Subvolumes { inner } => inner.asks(),
            V2Step::Finalizing => ActionKind::Rename,
        }
    }
}

pub struct RootFsV2Migrator;

impl RootFsV2Migrator {
    // ---- the scratch subvolume ----

    pub open spec fn spec_begin_prepare_import_directory(import_path: Seq<char>) -> (
        PrepareStep,
        ActionView,
    ) {
        (PrepareStep::CheckingStale, ActionView::PathExists { path: import_path })
    }

    pub open spec fn spec_create_import(import_path: Seq<char>) -> PollView<PrepareStep, ()> {
        PollView::Pending {
            step: PrepareStep::Creating,
            action: ActionView::CreateSubvolume { path: import_path },
        }
    }

    /// How a failure to delete a stale scratch subvolume is reported.
    pub open spec fn stale_import_failure(outcome: OutcomeView) -> Option<FailureView> {
        match SubvolumeHelper::deletion_failure(outcome) {
            Some(inner) => Some(
                FailureView::fatal(
                    "Failed to remove existing import: "@,
                    inner.text(),
                    "V2 preparation"@,
                ),
            ),
            None => None,
        }
    }

    #[verifier::opaque]
    /// Making the scratch subvolume: what an earlier run left at its path
    /// is deleted first, then the subvolume is created.
    pub open spec fn spec_prepare_import_directory(
        import_path: Seq<char>,
        step: PrepareStep,
        outcome: OutcomeView,
    ) -> PollView<PrepareStep, ()> {
        match step {
            PrepareStep::CheckingStale => if outcome.affirmed() {
                PollView::Pending {
                    step: PrepareStep::RemovingStale,
                    action: ActionView::DeleteSubvolume { path: import_path },
                }
            } else {
                Self::spec_create_import(import_path)
            },
            PrepareStep::RemovingStale => unless(
                Self::stale_import_failure(outcome),
                Self::spec_create_import(import_path),
            ),
            PrepareStep::Creating => unless(
                SubvolumeHelper::creation_failure(outcome),
                PollView::Ready { value: () },
            ),
        }
    }

    pub fn begin_prepare_import_directory(import_path: &str) -> (begun: (PrepareStep, Action))
        ensures
            (begun.0, begun.1@) == Self::spec_begin_prepare_import_directory(import_path@),
    {
        (PrepareStep::CheckingStale, Action::PathExists { path: String::from_str(import_path) })
    }

    fn create_import(import_path: &str) -> (poll: Poll<PrepareStep, ()>)
        ensures
            poll@ == Self::spec_create_import(import_path@),
    {
        Poll::Pending {
            step: PrepareStep::Creating,
            action: SubvolumeHelper::create_subvolume(import_path),
        }
    }

    pub fn prepare_import_directory(import_path: &str, step: PrepareStep, outcome: Outcome) -> (poll:
        Poll<PrepareStep, ()>)
        ensures
            poll@ == Self::spec_prepare_import_directory(import_path@, step, outcome@),
    {
        proof {
            reveal(RootFsV2Migrator::spec_prepare_import_directory);
        }
        match step {
            PrepareStep::CheckingStale => {
                if outcome.affirmed() {
                    Poll::Pending {
                        step: PrepareStep::RemovingStale,
                        action: SubvolumeHelper::delete_subvolume(import_path),
                    }
                } else {
                    Self::create_import(import_path)
                }
            },
            PrepareStep::RemovingStale => {
                match SubvolumeHelper::deleted(&outcome) {
                    Some(inner) => {
                        let text = inner.describe();
                        Poll::Failed {
                            failure: Failure::fatal(
                                "Failed to remove existing import: ",
                                text.as_str(),
                                "V2 preparation",
                            ),
                        }
                    },
                    None => Self::create_import(import_path),
                }
            },
            PrepareStep::Creating => {
                match SubvolumeHelper::created(&outcome) {
                    Some(failure) => Poll::Failed { failure },
                    None => Poll::Ready { value: () },
                }
            },
        }
    }

    // ---- the mount table ----

    pub open spec fn spec_begin_show_fstab_warning(count: usize) -> (WarnStep, ActionView) {
        (WarnStep::HidingSplash { concerning: count }, ActionView::HideSplash)
    }

    #[verifier::opaque]
    /// Warning about the mount table: the splash is hidden, the
    /// instructions are shown, and the operator is asked. Whether hiding
    /// and showing worked does not matter. A "yes" lets the run go on.
    /// Every other answer is a "no", a prompt that gave no answer
    /// included: the run never goes on without a "yes". A "no" asks for a
    /// reboot and ends the run as declined, or as failed where the reboot
    /// could not be asked for.
    pub open spec fn spec_show_fstab_warning(step: WarnStep, outcome: OutcomeView) -> PollView<
        WarnStep,
        (),
    > {
        match step {
            WarnStep::HidingSplash { concerning } => PollView::Pending {
                step: WarnStep::ShowingQr { concerning },
                action: ActionView::ShowQrCode { url: instructions_url() },
            },
            WarnStep::ShowingQr { concerning } => PollView::Pending {
                step: WarnStep::Confirming,
                action: ActionView::Confirm { concerning, prompt: confirmation_prompt() },
            },
            WarnStep::Confirming => if outcome.affirmed() {
                PollView::Ready { value: () }
            } else {
                PollView::Pending { step: WarnStep::Rebooting, action: ActionView::Reboot }
            },
            WarnStep::Rebooting => unless(
                outcome.failure_unless_started("Failed to reboot: "@, "User abort"@),
                PollView::Failed { failure: FailureView::Declined },
            ),
        }
    }

    pub fn begin_show_fstab_warning(count: usize) -> (begun: (WarnStep, Action))
        ensures
            (begun.0, begun.1@) == Self::spec_begin_show_fstab_warning(count),
    {
        (WarnStep::HidingSplash { concerning: count }, Action::HideSplash)
    }

    pub fn show_fstab_warning(step: WarnStep, outcome: Outcome) -> (poll: Poll<WarnStep, ()>)
        ensures
            poll@ == Self::spec_show_fstab_warning(step, outcome@),
    {
        proof {
            reveal(RootFsV2Migrator::spec_show_fstab_warning);
        }
        match step {
            WarnStep::HidingSplash { concerning } => Poll::Pending {
                step: WarnStep::ShowingQr { concerning },
                action: Action::ShowQrCode {
                    url: String::from_str("https://community.kde.org/KDE_Linux/RootFSv2"),
                },
            },
            WarnStep::ShowingQr { concerning } => Poll::Pending {
                step: WarnStep::Confirming,
                action: Action::Confirm {
                    concerning,
                    prompt: String::from_str("Do you want to continue with auto-migration?"),
                },
            },
            WarnStep::Confirming => {
                if outcome.affirmed() {
                    Poll::Ready { value: () }
                } else {
                    Poll::Pending { step: WarnStep::Rebooting, action: Action::Reboot }
                }
            },
            WarnStep::Rebooting => {
                match outcome.failure_unless_started("Failed to reboot: ", "User abort") {
                    Some(failure) => Poll::Failed { failure },
                    None => Poll::Failed { failure: Failure::Declined },
                }
            },
        }
    }

    /// The filesystem types that an answer to `ReadFstab` holds; none
    /// where the mount table could not be read.
    pub open spec fn fstab_types(outcome: OutcomeView) -> Seq<Seq<char>> {
        match outcome {
            OutcomeView::Entries { names } => names,
            _ => Seq::empty(),
        }
    }

    pub open spec fn spec_begin_handle_fstab_warnings(ctx: ContextView) -> (FstabStep, ActionView) {
        (FstabStep::Reading, ActionView::ReadFstab { path: ctx.path(overlay_fstab()) })
    }

    #[verifier::opaque]
    /// Examining the mount table: the operator is warned if and only if
    /// it holds an entry whose type is not swap. A mount table that
    /// cannot be read counts as empty.
    pub open spec fn spec_handle_fstab_warnings(step: FstabStep, outcome: OutcomeView) -> PollView<
        FstabStep,
        (),
    > {
        match step {
            FstabStep::Reading => if concerning_entries(Self::fstab_types(outcome)) > 0 {
                pending(
                    Self::spec_begin_show_fstab_warning(
                        concerning_entries(Self::fstab_types(outcome)) as usize,
                    ),
                ).wrap(|s: WarnStep| FstabStep::Warning { inner: s })
            } else {
                PollView::Ready { value: () }
            },
            FstabStep::Warning { inner } => Self::spec_show_fstab_warning(inner, outcome).wrap(
                |s: WarnStep| FstabStep::Warning { inner: s },
            ),
        }
    }

    /// Counts the mount-table entries whose type is not swap.
    pub fn count_concerning(types: &Vec<String>) -> (count: usize)
        ensures
            count == concerning_entries(types.deep_view()),
    {
        let swap = String::from_str("swap");
        let ghost view = types.deep_view();
        let mut count: usize = 0;
        let mut i: usize = 0;
        while i < types.len()
            invariant
                0 <= i <= types.len(),
                view == types.deep_view(),
                swap@ == swap_type(),
                count <= i,
                count == concerning_entries(view.subrange(0, i as int)),
            decreases types.len() - i,
        {
            proof {
                assert(view.subrange(0, i + 1).drop_last() =~= view.subrange(0, i as int));
                assert(view.subrange(0, i + 1).last() == types[i as int]@);
            }
            if types[i] != swap {
                count = count + 1;
            }
            i = i + 1;
        }
        assert(view.subrange(0, i as int) =~= view);
        count
    }

    pub fn begin_handle_fstab_warnings(ctx: &MigrationContext) -> (begun: (FstabStep, Action))
        ensures
            (begun.0, begun.1@) == Self::spec_begin_handle_fstab_warnings(ctx@),
    {
        (FstabStep::Reading, Action::ReadFstab { path: ctx.path("@etc-overlay/upper/fstab") })
    }

    pub fn handle_fstab_warnings(step: FstabStep, outcome: Outcome) -> (poll: Poll<FstabStep, ()>)
        ensures
            poll@ == Self::spec_handle_fstab_warnings(step, outcome@),
    {
        proof {
            reveal(RootFsV2Migrator::spec_handle_fstab_warnings);
        }
        match step {
            FstabStep::Reading => {
                let count: usize = match outcome {
                    Outcome::Entries { names } => Self::count_concerning(&names),
                    _ => {
                        assert(concerning_entries(Seq::empty()) == 0);
                        0
                    },
                };
                if count > 0 {
                    let (inner, action) = Self::begin_show_fstab_warning(count);
                    Poll::Pending { step: FstabStep::Warning { inner }, action }
                } else {
                    Poll::Ready { value: () }
                }
            },
            FstabStep::Warning { inner } => {
                match Self::show_fstab_warning(inner, outcome) {
                    Poll::Pending { step, action } => Poll::Pending {
                        step: FstabStep::Warning { inner: step },
                        action,
                    },
                    Poll::Ready { value } => Poll::Ready { value },
                    Poll::Failed { failure } => Poll::Failed { failure },
                }
            },
        }
    }

    // ---- the system directories ----

    /// Where a layer of the persisted overlay of `dir` lives.
    pub open spec fn overlay_layer(ctx: ContextView, dir: Seq<char>, layer: Seq<char>) -> Seq<char> {
        ctx.path("@"@ + dir + "-overlay/"@ + layer)
    }

    /// The options of the overlay mount: read-only, with `compose_dir` as
    /// the lower layer and the persisted upper and work layers of `dir`.
    pub open spec fn mount_options(ctx: ContextView, compose_dir: Seq<char>, dir: Seq<char>) -> Seq<
        char,
    > {
        "ro,lowerdir="@ + compose_dir + ",upperdir="@ + Self::overlay_layer(ctx, dir, "upper"@)
            + ",workdir="@ + Self::overlay_layer(ctx, dir, "work"@) + ",index=off,metacopy=off"@
    }

    /// The request to mount the overlay of `dir` on `compose_dir` itself.
    pub open spec fn spec_mount_overlay(ctx: ContextView, compose_dir: Seq<char>, dir: Seq<char>) -> ActionView {
        ActionView::MountOverlay {
            options: Self::mount_options(ctx, compose_dir, dir),
            target: compose_dir,
        }
    }

    pub open spec fn mount_failure(outcome: OutcomeView) -> Option<FailureView> {
        outcome.failure_unless_successful(
            "Failed to mount overlay: "@,
            "Overlay mount"@,
            "Overlay mount failed"@,
            "V2 migration"@,
        )
    }

    pub open spec fn unmount_failure(outcome: OutcomeView) -> Option<FailureView> {
        outcome.failure_unless_successful(
            "Failed to unmount overlay: "@,
            "Overlay unmount"@,
            "Overlay unmount failed"@,
            "V2 migration"@,
        )
    }

    pub open spec fn spec_copy_directory_with_reflink(src: Seq<char>, dst: Seq<char>) -> ActionView {
        ActionView::CopyTree { source: src, target: dst }
    }

    pub open spec fn reflink_copy_failure(outcome: OutcomeView) -> Option<FailureView> {
        outcome.failure_unless_successful(
            "Failed to copy directory: "@,
            "Directory copy"@,
            "Directory copy failed"@,
            "V2 migration"@,
        )
    }

    fn overlay_layer_path(ctx: &MigrationContext, dir: &str, layer: &str) -> (path: String)
        ensures
            path@ == Self::overlay_layer(ctx@, dir@, layer@),
    {
        let mut relative = String::from_str("@");
        relative.append(dir);
        relative.append("-overlay/");
        relative.append(layer);
        ctx.path(relative.as_str())
    }

    pub fn mount_overlay(ctx: &MigrationContext, compose_dir: &str, dir: &str) -> (action: Action)
        ensures
            action@ == Self::spec_mount_overlay(ctx@, compose_dir@, dir@),
    {
        let upper = Self::overlay_layer_path(ctx, dir, "upper");
        let work = Self::overlay_layer_path(ctx, dir, "work");
        let mut options = String::from_str("ro,lowerdir=");
        options.append(compose_dir);
        options.append(",upperdir=");
        options.append(upper.as_str());
        options.append(",workdir=");
        options.append(work.as_str());
        options.append(",index=off,metacopy=off");
        Action::MountOverlay { options, target: String::from_str(compose_dir) }
    }

    /// Reads the answer to `MountOverlay`.
    pub fn mounted(outcome: &Outcome) -> (failure: Option<Failure>)
        ensures
            failure.is_some() == Self::mount_failure(outcome@).is_some(),
            failure matches Some(f) ==> Some(f@) == Self::mount_failure(outcome@),
    {
        outcome.failure_unless_successful(
            "Failed to mount overlay: ",
            "Overlay mount",
            "Overlay mount failed",
            "V2 migration",
        )
    }

    /// Reads the answer to `Unmount`.
    pub fn unmounted(outcome: &Outcome) -> (failure: Option<Failure>)
        ensures
            failure.is_some() == Self::unmount_failure(outcome@).is_some(),
            failure matches Some(f) ==> Some(f@) == Self::unmount_failure(outcome@),
    {
        outcome.failure_unless_successful(
            "Failed to unmount overlay: ",
            "Overlay unmount",
            "Overlay unmount failed",
            "V2 migration",
        )
    }

    pub fn copy_directory_with_reflink(src: &str, dst: &str) -> (action: Action)
        ensures
            action@ == Self::spec_copy_directory_with_reflink(src@, dst@),
    {
        Action::CopyTree { source: String::from_str(src), target: String::from_str(dst) }
    }

    /// Reads the answer to `CopyTree`.
    pub fn copied_with_reflink(outcome: &Outcome) -> (failure: Option<Failure>)
        ensures
            failure.is_some() == Self::reflink_copy_failure(outcome@).is_some(),
            failure matches Some(f) ==> Some(f@) == Self::reflink_copy_failure(outcome@),
    {
        outcome.failure_unless_successful(
            "Failed to copy directory: ",
            "Directory copy",
            "Directory copy failed",
            "V2 migration",
        )
    }

    pub open spec fn spec_mount_step(ctx: ContextView, rootfs_v1: Seq<char>, dir: SystemDir) -> (
        SystemDirsStep,
        ActionView,
    ) {
        (
            SystemDirsStep::Mounting { dir },
            Self::spec_mount_overlay(ctx, joined(rootfs_v1, dir.spec_name()), dir.spec_name()),
        )
    }

    pub open spec fn spec_begin_migrate_system_directories(ctx: ContextView, rootfs_v1: Seq<char>) -> (
        SystemDirsStep,
        ActionView,
    ) {
        Self::spec_mount_step(ctx, rootfs_v1, SystemDir::Etc)
    }

    #[verifier::opaque]
    /// Merging the system directories, `etc` and then `var`: the overlay
    /// is mounted on the legacy directory, the merged view is copied into
    /// the scratch tree, and the overlay is unmounted. Once the mount has
    /// succeeded the unmount is asked for whatever the copy's outcome was.
    /// A failed copy is reported only after the unmount, and before
    /// anything the unmount may have to report; an unmount that fails
    /// after a good copy is fatal as well.
    pub open spec fn spec_migrate_system_directories(
        ctx: ContextView,
        rootfs_v1: Seq<char>,
        import_path: Seq<char>,
        step: SystemDirsStep,
        outcome: OutcomeView,
    ) -> (ContextView, PollView<SystemDirsStep, ()>) {
        match step {
            SystemDirsStep::Mounting { dir } => (
                ctx,
                unless(
                    Self::mount_failure(outcome),
                    PollView::Pending {
                        step: SystemDirsStep::Copying { dir },
                        action: Self::spec_copy_directory_with_reflink(
                            joined(rootfs_v1, dir.spec_name()),
                            joined(import_path, dir.spec_name()),
                        ),
                    },
                ),
            ),
            SystemDirsStep::Copying { dir } => (
                ContextView { postponed: Self::reflink_copy_failure(outcome), ..ctx },
                PollView::Pending {
                    step: SystemDirsStep::Releasing { dir },
                    action: ActionView::Unmount { target: joined(rootfs_v1, dir.spec_name()) },
                },
            ),
            SystemDirsStep::Releasing { dir } => (
                ContextView { postponed: None, ..ctx },
                unless(
                    ctx.postponed,
                    unless(
                        Self::unmount_failure(outcome),
                        match dir {
                            SystemDir::Etc => pending(
                                Self::spec_mount_step(ctx, rootfs_v1, SystemDir::Var),
                            ),
                            SystemDir::Var => PollView::Ready { value: () },
                        },
                    ),
                ),
            ),
        }
    }

    fn mount_step(ctx: &MigrationContext, rootfs_v1: &str, dir: SystemDir) -> (begun: (
        SystemDirsStep,
        Action,
    ))
        ensures
            (begun.0, begun.1@) == Self::spec_mount_step(ctx@, rootfs_v1@, dir),
    {
        let compose_dir = join_path(rootfs_v1, dir.name());
        (SystemDirsStep::Mounting { dir }, Self::mount_overlay(ctx, compose_dir.as_str(), dir.name()))
    }

    pub fn begin_migrate_system_directories(ctx: &MigrationContext, rootfs_v1: &str) -> (begun: (
        SystemDirsStep,
        Action,
    ))
        ensures
            (begun.0, begun.1@) == Self::spec_begin_migrate_system_directories(ctx@, rootfs_v1@),
    {
        Self::mount_step(ctx, rootfs_v1, SystemDir::Etc)
    }

    pub fn migrate_system_directories(
        ctx: &mut MigrationContext,
        rootfs_v1: &str,
        import_path: &str,
        step: SystemDirsStep,
        outcome: Outcome,
    ) -> (poll: Poll<SystemDirsStep, ()>)
        ensures
            (final(ctx)@, poll@) == Self::spec_migrate_system_directories(
                old(ctx)@,
                rootfs_v1@,
                import_path@,
                step,
                outcome@,
            ),
    {
        proof {
            reveal(RootFsV2Migrator::spec_migrate_system_directories);
        }
        match step {
            SystemDirsStep::Mounting { dir } => {
                match Self::mounted(&outcome) {
                    Some(failure) => Poll::Failed { failure },
                    None => {
                        let compose_dir = join_path(rootfs_v1, dir.name());
                        let target = join_path(import_path, dir.name());
                        Poll::Pending {
                            step: SystemDirsStep::Copying { dir },
                            action: Self::copy_directory_with_reflink(
                                compose_dir.as_str(),
                                target.as_str(),
                            ),
                        }
                    },
                }
            },
            SystemDirsStep::Copying { dir } => {
                ctx.postponed = Self::copied_with_reflink(&outcome);
                Poll::Pending {
                    step: SystemDirsStep::Releasing { dir },
                    action: Action::Unmount { target: join_path(rootfs_v1, dir.name()) },
                }
            },
            SystemDirsStep::Releasing { dir } => {
                match ctx.postponed.take() {
                    Some(failure) => Poll::Failed { failure },
                    None => match Self::unmounted(&outcome) {
                        Some(failure) => Poll::Failed { failure },
                        None => match dir {
                            SystemDir::Etc => {
                                let (step, action) = Self::mount_step(
                                    ctx,
                                    rootfs_v1,
                                    SystemDir::Var,
                                );
                                Poll::Pending { step, action }
                            },
                            SystemDir::Var => Poll::Ready { value: () },
                        },
                    },
                }
            },
        }
    }

    // ---- the subvolumes ----

    pub open spec fn spec_begin_create_subvolume_snapshot(target: Seq<char>) -> (
        SnapshotStep,
        ActionView,
    ) {
        (SnapshotStep::CheckingTarget, ActionView::PathExists { path: target })
    }

    pub open spec fn spec_snapshot_action(ctx: ContextView, subvol: Seq<char>, target: Seq<char>) -> PollView<
        SnapshotStep,
        (),
    > {
        PollView::Pending {
            step: SnapshotStep::Snapshotting,
            action: ActionView::CreateSnapshot { source: ctx.path(subvol), target },
        }
    }

    /// What follows once nothing occupies the target: a parent that is
    /// neither absent nor empty is looked for, otherwise the snapshot is
    /// taken at once.
    pub open spec fn spec_after_target(
        ctx: ContextView,
        subvol: Seq<char>,
        target: Seq<char>,
        parent: Option<Seq<char>>,
    ) -> PollView<SnapshotStep, ()> {
        match parent {
            Some(parent) => if parent.len() > 0 {
                PollView::Pending {
                    step: SnapshotStep::CheckingParent,
                    action: ActionView::PathExists { path: parent },
                }
            } else {
                Self::spec_snapshot_action(ctx, subvol, target)
            },
            None => Self::spec_snapshot_action(ctx, subvol, target),
        }
    }

    #[verifier::opaque]
    /// Snapshotting the subvolume `subvol` at `target`, whose parent is
    /// `parent`: what occupies the target is removed, a missing parent is
    /// created with all its ancestors, and the snapshot is taken.
    pub open spec fn spec_snapshot_with_parent(
        ctx: ContextView,
        subvol: Seq<char>,
        target: Seq<char>,
        parent: Option<Seq<char>>,
        step: SnapshotStep,
        outcome: OutcomeView,
    ) -> PollView<SnapshotStep, ()> {
        match step {
            SnapshotStep::CheckingTarget => if outcome.affirmed() {
                PollView::Pending {
                    step: SnapshotStep::RemovingTarget,
                    action: ActionView::RemoveDirAll { path: target },
                }
            } else {
                Self::spec_after_target(ctx, subvol, target, parent)
            },
            SnapshotStep::RemovingTarget => unless(
                outcome.failure_unless_done("Failed to remove target: "@, "Subvolume migration"@),
                Self::spec_after_target(ctx, subvol, target, parent),
            ),
            SnapshotStep::CheckingParent => if outcome.affirmed() {
                Self::spec_snapshot_action(ctx, subvol, target)
            } else {
                PollView::Pending {
                    step: SnapshotStep::CreatingParent,
                    action: ActionView::CreateDirAll {
                        path: match parent {
                            Some(parent) => parent,
                            None => Seq::empty(),
                        },
                    },
                }
            },
            SnapshotStep::CreatingParent => unless(
                outcome.failure_unless_done(
                    "Failed to create parent directory: "@,
                    "Subvolume migration"@,
                ),
                Self::spec_snapshot_action(ctx, subvol, target),
            ),
            SnapshotStep::Snapshotting => unless(
                SubvolumeHelper::snapshot_failure(outcome),
                PollView::Ready { value: () },
            ),
        }
    }

    /// Snapshotting the subvolume `subvol` at `target`, with the parent
    /// that the path of the target has.
    pub open spec fn spec_create_subvolume_snapshot(
        ctx: ContextView,
        subvol: Seq<char>,
        target: Seq<char>,
        step: SnapshotStep,
        outcome: OutcomeView,
    ) -> PollView<SnapshotStep, ()> {
        Self::spec_snapshot_with_parent(ctx, subvol, target, path_parent(target), step, outcome)
    }

    pub fn begin_create_subvolume_snapshot(target: &str) -> (begun: (SnapshotStep, Action))
        ensures
            (begun.0, begun.1@) == Self::spec_begin_create_subvolume_snapshot(target@),
    {
        (SnapshotStep::CheckingTarget, Action::PathExists { path: String::from_str(target) })
    }

    fn snapshot_action(ctx: &MigrationContext, subvol: &str, target: &str) -> (poll: Poll<
        SnapshotStep,
        (),
    >)
        ensures
            poll@ == Self::spec_snapshot_action(ctx@, subvol@, target@),
    {
        let source = ctx.path(subvol);
        Poll::Pending {
            step: SnapshotStep::Snapshotting,
            action: SubvolumeHelper::create_snapshot(source.as_str(), target),
        }
    }

    fn after_target(ctx: &MigrationContext, subvol: &str, target: &str, parent: &Option<String>) -> (poll:
        Poll<SnapshotStep, ()>)
        ensures
            poll@ == Self::spec_after_target(
                ctx@,
                subvol@,
                target@,
                match *parent {
                    Some(p) => Some(p@),
                    None => None,
                },
            ),
    {
        match parent {
            Some(parent) => {
                if parent.as_str().unicode_len() > 0 {
                    Poll::Pending {
                        step: SnapshotStep::CheckingParent,
                        action: Action::PathExists { path: parent.clone() },
                    }
                } else {
                    Self::snapshot_action(ctx, subvol, target)
                }
            },
            None => Self::snapshot_action(ctx, subvol, target),
        }
    }

    pub fn snapshot_with_parent(
        ctx: &MigrationContext,
        subvol: &str,
        target: &str,
        parent: Option<String>,
        step: SnapshotStep,
        outcome: Outcome,
    ) -> (poll: Poll<SnapshotStep, ()>)
        ensures
            poll@ == Self::spec_snapshot_with_parent(
                ctx@,
                subvol@,
                target@,
                match parent {
                    Some(p) => Some(p@),
                    None => None,
                },
                step,
                outcome@,
            ),
    {
        proof {
            reveal(RootFsV2Migrator::spec_snapshot_with_parent);
        }
        match step {
            SnapshotStep::CheckingTarget => {
                if outcome.affirmed() {
                    Poll::Pending {
                        step: SnapshotStep::RemovingTarget,
                        action: Action::RemoveDirAll { path: String::from_str(target) },
                    }
                } else {
                    Self::after_target(ctx, subvol, target, &parent)
                }
            },
            SnapshotStep::RemovingTarget => {
                match outcome.failure_unless_done("Failed to remove target: ", "Subvolume migration") {
                    Some(failure) => Poll::Failed { failure },
                    None => Self::after_target(ctx, subvol, target, &parent),
                }
            },
            SnapshotStep::CheckingParent => {
                if outcome.affirmed() {
                    Self::snapshot_action(ctx, subvol, target)
                } else {
                    let path = match parent {
                        Some(parent) => parent,
                        None => String::new(),
                    };
                    Poll::Pending {
                        step: SnapshotStep::CreatingParent,
                        action: Action::CreateDirAll { path },
                    }
                }
            },
            SnapshotStep::CreatingParent => {
                match outcome.failure_unless_done(
                    "Failed to create parent directory: ",
                    "Subvolume migration",
                ) {
                    Some(failure) => Poll::Failed { failure },
                    None => Self::snapshot_action(ctx, subvol, target),
                }
            },
            SnapshotStep::Snapshotting => {
                match SubvolumeHelper::snapshotted(&outcome) {
                    Some(failure) => Poll::Failed { failure },
                    None => Poll::Ready { value: () },
                }
            },
        }
    }

    pub fn create_subvolume_snapshot(
        ctx: &MigrationContext,
        subvol: &str,
        target: &str,
        step: SnapshotStep,
        outcome: Outcome,
    ) -> (poll: Poll<SnapshotStep, ()>)
        ensures
            poll@ == Self::spec_create_subvolume_snapshot(ctx@, subvol@, target@, step, outcome@),
    {
        let parent = parent_of(target);
        Self::snapshot_with_parent(ctx, subvol, target, parent, step, outcome)
    }

    /// What follows once the pairs before `index` are snapshotted: the
    /// next pair is begun, or all are done.
    pub open spec fn spec_subvolumes_from(import_path: Seq<char>, index: int) -> PollView<
        SubvolumesStep,
        (),
    > {
        if 0 <= index < subvolume_targets().len() {
            pending(
                Self::spec_begin_create_subvolume_snapshot(
                    joined(import_path, subvolume_targets()[index].1),
                ),
            ).wrap(|s: SnapshotStep| SubvolumesStep::Pair { index: index as usize, inner: s })
        } else {
            PollView::Ready { value: () }
        }
    }

    pub open spec fn spec_begin_migrate_subvolumes(import_path: Seq<char>) -> (
        SubvolumesStep,
        ActionView,
    ) {
        (
            SubvolumesStep::Pair { index: 0, inner: SnapshotStep::CheckingTarget },
            ActionView::PathExists { path: joined(import_path, subvolume_targets()[0].1) },
        )
    }

    #[verifier::opaque]
    /// Snapshotting the subvolumes into the scratch tree, one pair of the
    /// subvolume targets after the other, each only after the one before
    /// it has succeeded. A step for a pair that does not exist is a stray
    /// step.
    pub open spec fn spec_migrate_subvolumes(
        ctx: ContextView,
        import_path: Seq<char>,
        step: SubvolumesStep,
        outcome: OutcomeView,
    ) -> PollView<SubvolumesStep, ()> {
        match step {
            SubvolumesStep::Pair { index, inner } => if index < subvolume_targets().len() {
                Self::spec_create_subvolume_snapshot(
                    ctx,
                    subvolume_targets()[index as int].0,
                    joined(import_path, subvolume_targets()[index as int].1),
                    inner,
                    outcome,
                ).followed_by(
                    |s: SnapshotStep| SubvolumesStep::Pair { index, inner: s },
                    Self::spec_subvolumes_from(import_path, index + 1),
                )
            } else {
                stray()
            },
        }
    }

    /// Pair `index` of the subvolume targets.
    pub fn subvolume_target(index: usize) -> (pair: (&'static str, &'static str))
        requires
            index < subvolume_targets().len(),
        ensures
            (pair.0@, pair.1@) == subvolume_targets()[index as int],
    {
        if index == 0 {
            ("@home", "home")
        } else if index == 1 {
            ("@root", "root")
        } else if index == 2 {
            ("@snap", "snap")
        } else if index == 3 {
            ("@containers", "var/lib/containers")
        } else {
            ("@docker", "var/lib/docker")
        }
    }

    fn subvolumes_from(import_path: &str, index: usize) -> (poll: Poll<SubvolumesStep, ()>)
        ensures
            poll@ == Self::spec_subvolumes_from(import_path@, index as int),
    {
        if index < 5 {
            let (subvol, relative) = Self::subvolume_target(index);
            let target = join_path(import_path, relative);
            let (inner, action) = Self::begin_create_subvolume_snapshot(target.as_str());
            Poll::Pending { step: SubvolumesStep::Pair { index, inner }, action }
        } else {
            Poll::Ready { value: () }
        }
    }

    pub fn begin_migrate_subvolumes(import_path: &str) -> (begun: (SubvolumesStep, Action))
        ensures
            (begun.0, begun.1@) == Self::spec_begin_migrate_subvolumes(import_path@),
    {
        let (subvol, relative) = Self::subvolume_target(0);
        let target = join_path(import_path, relative);
        let (inner, action) = Self::begin_create_subvolume_snapshot(target.as_str());
        (SubvolumesStep::Pair { index: 0, inner }, action)
    }

    pub fn migrate_subvolumes(
        ctx: &MigrationContext,
        import_path: &str,
        step: SubvolumesStep,
        outcome: Outcome,
    ) -> (poll: Poll<SubvolumesStep, ()>)
        ensures
            poll@ == Self::spec_migrate_subvolumes(ctx@, import_path@, step, outcome@),
    {
        proof {
            reveal(RootFsV2Migrator::spec_migrate_subvolumes);
        }
        match step {
            SubvolumesStep::Pair { index, inner } => {
                if index < 5 {
                    let (subvol, relative) = Self::subvolume_target(index);
                    let target = join_path(import_path, relative);
                    match Self::create_subvolume_snapshot(
                        ctx,
                        subvol,
                        target.as_str(),
                        inner,
                        outcome,
                    ) {
                        Poll::Pending { step, action } => Poll::Pending {
                            step: SubvolumesStep::Pair { index, inner: step },
                            action,
                        },
                        Poll::Ready { value } => Self::subvolumes_from(import_path, index + 1),
                        Poll::Failed { failure } => Poll::Failed { failure },
                    }
                } else {
                    Poll::Failed { failure: Failure::StrayStep }
                }
            },
        }
    }

    // ---- the commit ----

    pub open spec fn spec_finalize_migration(import_path: Seq<char>, system_path: Seq<char>) -> ActionView {
        ActionView::Rename { from: import_path, to: system_path }
    }

    pub open spec fn finalization_failure(outcome: OutcomeView) -> Option<FailureView> {
        outcome.failure_unless_done("Failed to rename import to system: "@, "V2 finalization"@)
    }

    /// The request that commits the scratch tree.
    pub fn finalize_migration(import_path: &str, system_path: &str) -> (action: Action)
        ensures
            action@ == Self::spec_finalize_migration(import_path@, system_path@),
    {
        Action::Rename { from: String::from_str(import_path), to: String::from_str(system_path) }
    }

    /// Reads the answer to the commit.
    pub fn finalized(outcome: &Outcome) -> (failure: Option<Failure>)
        ensures
            failure.is_some() == Self::finalization_failure(outcome@).is_some(),
            failure matches Some(f) ==> Some(f@) == Self::finalization_failure(outcome@),
    {
        outcome.failure_unless_done("Failed to rename import to system: ", "V2 finalization")
    }

    // ---- the migration as a whole ----

    pub open spec fn message_failure(outcome: OutcomeView) -> Option<FailureView> {
        outcome.failure_unless_started("Failed to show plymouth message: "@, "UI"@)
    }

    pub open spec fn spec_show_plymouth_message(message: Seq<char>) -> ActionView {
        ActionView::ShowMessage { text: message }
    }

    pub fn show_plymouth_message(message: &str) -> (action: Action)
        ensures
            action@ == Self::spec_show_plymouth_message(message@),
    {
        Action::ShowMessage { text: String::from_str(message) }
    }

    /// The failure of a run that finds no legacy root filesystem to
    /// start from.
    pub open spec fn no_rootfs_failure() -> FailureView {
        FailureView::Fatal(
            MigrationErrorView {
                message: "No legacy rootfs v1 found"@,
                context: "V2 migration"@,
            },
        )
    }

    pub open spec fn spec_begin_migrate(ctx: ContextView) -> (V2Step, ActionView) {
        (V2Step::CheckingSystem, ActionView::PathExists { path: ctx.path(system_subvolume()) })
    }

    pub open spec fn spec_enter_subvolumes(ctx: ContextView) -> PollView<V2Step, bool> {
        pending(Self::spec_begin_migrate_subvolumes(ctx.path(import_subvolume()))).wrap(
            |s: SubvolumesStep| V2Step::Subvolumes { inner: s },
        )
    }

    pub open spec fn spec_enter_system_directories(ctx: ContextView) -> PollView<V2Step, bool> {
        pending(Self::spec_begin_migrate_system_directories(ctx, ctx.rootfs_v1)).wrap(
            |s: SystemDirsStep| V2Step::SystemDirs { inner: s },
        )
    }

    pub open spec fn spec_enter_finding(ctx: ContextView) -> PollView<V2Step, bool> {
        pending(LegacyRootFsV1Finder::spec_begin_find_latest(ctx)).wrap(
            |s: FindStep| V2Step::Finding { inner: s },
        )
    }

    pub open spec fn spec_enter_fstab(ctx: ContextView) -> PollView<V2Step, bool> {
        pending(Self::spec_begin_handle_fstab_warnings(ctx)).wrap(
            |s: FstabStep| V2Step::Fstab { inner: s },
        )
    }

    pub open spec fn spec_enter_preparation(ctx: ContextView) -> PollView<V2Step, bool> {
        pending(Self::spec_begin_prepare_import_directory(ctx.path(import_subvolume()))).wrap(
            |s: PrepareStep| V2Step::Preparing { inner: s },
        )
    }

    pub open spec fn spec_commit(ctx: ContextView) -> PollView<V2Step, bool> {
        PollView::Pending {
            step: V2Step::Finalizing,
            action: Self::spec_finalize_migration(
                ctx.path(import_subvolume()),
                ctx.path(system_subvolume()),
            ),
        }
    }

    #[verifier::opaque]
    /// The migration to the second epoch. Where the system subvolume
    /// exists nothing is done and the value is `false`. Otherwise, in this
    /// order and each only after the one before it has succeeded: devices
    /// settle, the splash tells what goes on, the scratch subvolume is
    /// made, the mount table is examined, the newest legacy root
    /// filesystem is looked for, the system directories are merged, the
    /// subvolumes are snapshotted, and the scratch tree is renamed to the
    /// system subvolume; the value is then `true`.
    pub open spec fn spec_migrate(ctx: ContextView, step: V2Step, outcome: OutcomeView) -> (
        ContextView,
        PollView<V2Step, bool>,
    ) {
        let import_path = ctx.path(import_subvolume());
        match step {
            V2Step::CheckingSystem => if outcome.affirmed() {
                (ctx, PollView::Ready { value: false })
            } else {
                (
                    ctx.stepped(),
                    PollView::Pending {
                        step: V2Step::Settling,
                        action: ActionView::SettleDevices { timeout: SETTLE_TIMEOUT },
                    },
                )
            },
            V2Step::Settling => (
                ctx,
                unless(
                    outcome.failure_unless_started("Failed to settle devices: "@, "V2 migration"@),
                    PollView::Pending {
                        step: V2Step::ShowingMessage,
                        action: Self::spec_show_plymouth_message(v2_message()),
                    },
                ),
            ),
            V2Step::ShowingMessage => (
                ctx,
                unless(Self::message_failure(outcome), Self::spec_enter_preparation(ctx)),
            ),
            V2Step::Preparing { inner } => (
                ctx,
                Self::spec_prepare_import_directory(import_path, inner, outcome).followed_by(
                    |s: PrepareStep| V2Step::Preparing { inner: s },
                    Self::spec_enter_fstab(ctx),
                ),
            ),
            V2Step::Fstab { inner } => (
                ctx,
                Self::spec_handle_fstab_warnings(inner, outcome).followed_by(
                    |s: FstabStep| V2Step::Fstab { inner: s },
                    Self::spec_enter_finding(ctx),
                ),
            ),
            V2Step::Finding { inner } => {
                let (after, poll) = LegacyRootFsV1Finder::spec_find_latest(ctx, inner, outcome);
                (
                    after,
                    match poll {
                        PollView::Pending { step, action } => PollView::Pending {
                            step: V2Step::Finding { inner: step },
                            action,
                        },
                        PollView::Ready { value } => if value {
                            Self::spec_enter_system_directories(after)
                        } else {
                            PollView::Failed { failure: Self::no_rootfs_failure() }
                        },
                        PollView::Failed { failure } => PollView::Failed { failure },
                    },
                )
            },
            V2Step::SystemDirs { inner } => {
                let (after, poll) = Self::spec_migrate_system_directories(
                    ctx,
                    ctx.rootfs_v1,
                    import_path,
                    inner,
                    outcome,
                );
                (
                    after,
                    poll.followed_by(
                        |s: SystemDirsStep| V2Step::SystemDirs { inner: s },
                        Self::spec_enter_subvolumes(after),
                    ),
                )
            },
            V2Step::Subvolumes { inner } => (
                ctx,
                Self::spec_migrate_subvolumes(ctx, import_path, inner, outcome).followed_by(
                    |s: SubvolumesStep| V2Step::Subvolumes { inner: s },
                    Self::spec_commit(ctx),
                ),
            ),
            V2Step::Finalizing => (
                ctx,
                unless(Self::finalization_failure(outcome), PollView::Ready { value: true }),
            ),
        }
    }

    pub fn begin_migrate(ctx: &MigrationContext) -> (begun: (V2Step, Action))
        ensures
            (begun.0, begun.1@) == Self::spec_begin_migrate(ctx@),
    {
        (V2Step::CheckingSystem, Action::PathExists { path: ctx.path("@system") })
    }

    fn enter_subvolumes(ctx: &MigrationContext) -> (poll: Poll<V2Step, bool>)
        ensures
            poll@ == Self::spec_enter_subvolumes(ctx@),
    {
        let import_path = ctx.path("@system.import");
        let (inner, action) = Self::begin_migrate_subvolumes(import_path.as_str());
        Poll::Pending { step: V2Step::Subvolumes { inner }, action }
    }

    fn enter_system_directories(ctx: &MigrationContext) -> (poll: Poll<V2Step, bool>)
        ensures
            poll@ == Self::spec_enter_system_directories(ctx@),
    {
        let (inner, action) = Self::begin_migrate_system_directories(ctx, ctx.rootfs_v1.as_str());
        Poll::Pending { step: V2Step::SystemDirs { inner }, action }
    }

    fn enter_finding(ctx: &MigrationContext) -> (poll: Poll<V2Step, bool>)
        ensures
            poll@ == Self::spec_enter_finding(ctx@),
    {
        let (inner, action) = LegacyRootFsV1Finder::begin_find_latest(ctx);
        Poll::Pending { step: V2Step::Finding { inner }, action }
    }

    fn enter_fstab(ctx: &MigrationContext) -> (poll: Poll<V2Step, bool>)
        ensures
            poll@ == Self::spec_enter_fstab(ctx@),
    {
        let (inner, action) = Self::begin_handle_fstab_warnings(ctx);
        Poll::Pending { step: V2Step::Fstab { inner }, action }
    }

    fn enter_preparation(ctx: &MigrationContext) -> (poll: Poll<V2Step, bool>)
        ensures
            poll@ == Self::spec_enter_preparation(ctx@),
    {
        let import_path = ctx.path("@system.import");
        let (inner, action) = Self::begin_prepare_import_directory(import_path.as_str());
        Poll::Pending { step: V2Step::Preparing { inner }, action }
    }

    fn commit(ctx: &MigrationContext) -> (poll: Poll<V2Step, bool>)
        ensures
            poll@ == Self::spec_commit(ctx@),
    {
        let import_path = ctx.path("@system.import");
        let system_path = ctx.path("@system");
        Poll::Pending {
            step: V2Step::Finalizing,
            action: Self::finalize_migration(import_path.as_str(), system_path.as_str()),
        }
    }

    pub fn migrate(ctx: &mut MigrationContext, step: V2Step, outcome: Outcome) -> (poll: Poll<
        V2Step,
        bool,
    >)
        ensures
            (final(ctx)@, poll@) == Self::spec_migrate(old(ctx)@, step, outcome@),
    {
        proof {
            reveal(RootFsV2Migrator::spec_migrate);
        }
        let import_path = ctx.path("@system.import");
        match step {
            V2Step::CheckingSystem => {
                if outcome.affirmed() {
                    Poll::Ready { value: false }
                } else {
                    ctx.log_step();
                    Poll::Pending {
                        step: V2Step::Settling,
                        action: Action::SettleDevices { timeout: SETTLE_TIMEOUT },
                    }
                }
            },
            V2Step::Settling => {
                match outcome.failure_unless_started("Failed to settle devices: ", "V2 migration") {
                    Some(failure) => Poll::Failed { failure },
                    None => Poll::Pending {
                        step: V2Step::ShowingMessage,
                        action: Self::show_plymouth_message(
                            "Migrating to v2 rootfs. This may take a while.",
                        ),
                    },
                }
            },
            V2Step::ShowingMessage => {
                match outcome.failure_unless_started("Failed to show plymouth message: ", "UI") {
                    Some(failure) => Poll::Failed { failure },
                    None => Self::enter_preparation(ctx),
                }
            },
            V2Step::Preparing { inner } => {
                match Self::prepare_import_directory(import_path.as_str(), inner, outcome) {
                    Poll::Pending { step, action } => Poll::Pending {
                        step: V2Step::Preparing { inner: step },
                        action,
                    },
                    Poll::Ready { value } => Self::enter_fstab(ctx),
                    Poll::Failed { failure } => Poll::Failed { failure },
                }
            },
            V2Step::Fstab { inner } => {
                match Self::handle_fstab_warnings(inner, outcome) {
                    Poll::Pending { step, action } => Poll::Pending {
                        step: V2Step::Fstab { inner: step },
                        action,
                    },
                    Poll::Ready { value } => Self::enter_finding(ctx),
                    Poll::Failed { failure } => Poll::Failed { failure },
                }
            },
            V2Step::Finding { inner } => {
                match LegacyRootFsV1Finder::find_latest(ctx, inner, outcome) {
                    Poll::Pending { step, action } => Poll::Pending {
                        step: V2Step::Finding { inner: step },
                        action,
                    },
                    Poll::Ready { value } => {
                        if value {
                            Self::enter_system_directories(ctx)
                        } else {
                            Poll::Failed {
                                failure: Failure::Fatal(
                                    MigrationError::new(
                                        String::from_str("No legacy rootfs v1 found"),
                                        String::from_str("V2 migration"),
                                    ),
                                ),
                            }
                        }
                    },
                    Poll::Failed { failure } => Poll::Failed { failure },
                }
            },
            V2Step::SystemDirs { inner } => {
                let rootfs_v1 = ctx.rootfs_v1.clone();
                match Self::migrate_system_directories(
                    ctx,
                    rootfs_v1.as_str(),
                    import_path.as_str(),
                    inner,
                    outcome,
                ) {
                    Poll::Pending { step, action } => Poll::Pending {
                        step: V2Step::SystemDirs { inner: step },
                        action,
                    },
                    Poll::Ready { value } => Self::enter_subvolumes(ctx),
                    Poll::Failed { failure } => Poll::Failed { failure },
                }
            },
            V2Step::Subvolumes { inner } => {
                match Self::migrate_subvolumes(ctx, import_path.as_str(), inner, outcome) {
                    Poll::Pending { step, action } => Poll::Pending {
                        step: V2Step::Subvolumes { inner: step },
                        action,
                    },
                    Poll::Ready { value } => Self::commit(ctx),
                    Poll::Failed { failure } => Poll::Failed { failure },
                }
            },
            V2Step::Finalizing => {
                match Self::finalized(&outcome) {
                    Some(failure) => Poll::Failed { failure },
                    None => Poll::Ready { value: true },
                }
            },
        }
    }
}


pub proof fn lemma_prepare_asks(import_path: Seq<char>, step: PrepareStep, outcome: OutcomeView)
    ensures
        asked_as(
            RootFsV2Migrator::spec_prepare_import_directory(import_path, step, outcome),
            |s: PrepareStep| s.asks(),
        ),
{
    reveal(RootFsV2Migrator::spec_prepare_import_directory);
}

pub proof fn lemma_warn_asks(step: WarnStep, outcome: OutcomeView)
    ensures
        asked_as(RootFsV2Migrator::spec_show_fstab_warning(step, outcome), |s: WarnStep| s.asks()),
{
    reveal(RootFsV2Migrator::spec_show_fstab_warning);
}

pub proof fn lemma_fstab_asks(step: FstabStep, outcome: OutcomeView)
    ensures
        asked_as(
            RootFsV2Migrator::spec_handle_fstab_warnings(step, outcome),
            |s: FstabStep| s.asks(),
        ),
{
    reveal(RootFsV2Migrator::spec_handle_fstab_warnings);
    if let FstabStep::Warning { inner } = step {
        lemma_warn_asks(inner, outcome);
    }
}

pub proof fn lemma_system_directories_step(
    ctx: ContextView,
    rootfs_v1: Seq<char>,
    import_path: Seq<char>,
    step: SystemDirsStep,
    outcome: OutcomeView,
)
    ensures
        asked_as(
            RootFsV2Migrator::spec_migrate_system_directories(
                ctx,
                rootfs_v1,
                import_path,
                step,
                outcome,
            ).1,
            |s: SystemDirsStep| s.asks(),
        ),
        RootFsV2Migrator::spec_migrate_system_directories(
            ctx,
            rootfs_v1,
            import_path,
            step,
            outcome,
        ).0 == (ContextView {
            postponed: RootFsV2Migrator::spec_migrate_system_directories(
                ctx,
                rootfs_v1,
                import_path,
                step,
                outcome,
            ).0.postponed,
            ..ctx
        }),
{
    reveal(RootFsV2Migrator::spec_migrate_system_directories);
}

pub proof fn lemma_snapshot_asks(
    ctx: ContextView,
    subvol: Seq<char>,
    target: Seq<char>,
    parent: Option<Seq<char>>,
    step: SnapshotStep,
    outcome: OutcomeView,
)
    ensures
        asked_as(
            RootFsV2Migrator::spec_snapshot_with_parent(ctx, subvol, target, parent, step, outcome),
            |s: SnapshotStep| s.asks(),
        ),
{
    reveal(RootFsV2Migrator::spec_snapshot_with_parent);
}

pub proof fn lemma_subvolumes_asks(
    ctx: ContextView,
    import_path: Seq<char>,
    step: SubvolumesStep,
    outcome: OutcomeView,
)
    ensures
        asked_as(
            RootFsV2Migrator::spec_migrate_subvolumes(ctx, import_path, step, outcome),
            |s: SubvolumesStep| s.asks(),
        ),
{
    reveal(RootFsV2Migrator::spec_migrate_subvolumes);
    match step {
        SubvolumesStep::Pair { index, inner } => {
            if index < subvolume_targets().len() {
                let target = joined(import_path, subvolume_targets()[index as int].1);
                lemma_snapshot_asks(
                    ctx,
                    subvolume_targets()[index as int].0,
                    target,
                    path_parent(target),
                    inner,
                    outcome,
                );
            }
        },
    }
}

/// Every step of the migration to the second epoch asks for what it
/// waits for, and leaves the root untouched.
pub proof fn lemma_v2_step(ctx: ContextView, step: V2Step, outcome: OutcomeView)
    ensures
        asked_as(RootFsV2Migrator::spec_migrate(ctx, step, outcome).1, |s: V2Step| s.asks()),
        RootFsV2Migrator::spec_migrate(ctx, step, outcome).0.root_path == ctx.root_path,
{
    reveal(RootFsV2Migrator::spec_migrate);
    let import_path = ctx.path(import_subvolume());
    match step {
        V2Step::Preparing { inner } => {
            lemma_prepare_asks(import_path, inner, outcome);
        },
        V2Step::Fstab { inner } => {
            lemma_fstab_asks(inner, outcome);
        },
        V2Step::Finding { inner } => {
            crate::finder::lemma_find_step(ctx, inner, outcome);
        },
        V2Step::SystemDirs { inner } => {
            lemma_system_directories_step(ctx, ctx.rootfs_v1, import_path, inner, outcome);
        },
        V2Step::Subvolumes { inner } => {
            lemma_subvolumes_asks(ctx, import_path, inner, outcome);
        },
        _ => {},
    }
}


/// A mount table has no concerning entry exactly when every entry is of
/// type swap.
pub proof fn lemma_concerning_entries(types: Seq<Seq<char>>)
    ensures
        concerning_entries(types) == 0 <==> forall|i: int|
            0 <= i < types.len() ==> #[trigger] types[i] == swap_type(),
        concerning_entries(types) <= types.len(),
    decreases types.len(),
{
    if types.len() > 0 {
        let shorter = types.drop_last();
        lemma_concerning_entries(shorter);
        assert forall|i: int| 0 <= i < shorter.len() implies #[trigger] shorter[i] == types[i] by {}
        if concerning_entries(types) == 0 {
            assert forall|i: int| 0 <= i < types.len() implies #[trigger] types[i]
                == swap_type() by {
                if i < shorter.len() {
                    assert(shorter[i] == swap_type());
                }
            }
        }
        if forall|i: int| 0 <= i < types.len() ==> #[trigger] types[i] == swap_type() {
            assert(types.last() == types[types.len() - 1]);
            assert forall|i: int| 0 <= i < shorter.len() implies #[trigger] shorter[i]
                == swap_type() by {
                assert(types[i] == swap_type());
            }
        }
    }
}

} // verus!
