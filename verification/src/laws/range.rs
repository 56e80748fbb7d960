//! Every step of every run points inside what the run works through.

use vstd::prelude::*;
use crate::action::{OutcomeView, PollView};
use crate::context::{joined, ContextView};
use crate::finder::{FindStep, LegacyRootFsV1Finder};
use crate::home::{
    home_backup, home_subvolume, legacy_home, lemma_next_to_transfer, BackupStep, ClearStep,
    CopyStep, HomeDataMigrator, HomeStep, RemoveStep, TransferStep,
};
use crate::laws::trace::{lemma_state_step, reportable, state_at};
use crate::rootfs_v2::{
    import_subvolume, subvolume_targets, RootFsV2Migrator, SubvolumesStep, V2Step,
};
use crate::rootfs_v3::{RootFsV3Checker, RootFsV3Migrator, V3Step};
use crate::run::{spec_run_migrations, RunStep};

verus! {

/// Whether a poll is anything but the failure of a stray step.
pub open spec fn on_course<S, T>(poll: PollView<S, T>) -> bool {
    !(poll matches PollView::Failed { failure } && failure is StrayStep)
}

/// Whether what the context remembers is what a run can come to
/// remember: a listing that a caller can report, and no stray step held
/// back.
pub open spec fn sound(ctx: ContextView) -> bool {
    ctx.listing.len() <= usize::MAX && !(ctx.postponed matches Some(failure) && failure
        is StrayStep)
}

pub open spec fn clearing_in_range(listing: Seq<Seq<char>>, step: ClearStep) -> bool {
    match step {
        ClearStep::Listing => true,
        ClearStep::Probing { index } => index < listing.len(),
        ClearStep::RemovingDirectory { index } => index < listing.len(),
        ClearStep::RemovingFile { index } => index < listing.len(),
    }
}

pub open spec fn transfer_in_range(listing: Seq<Seq<char>>, step: TransferStep) -> bool {
    match step {
        TransferStep::Listing => true,
        TransferStep::Probing { index } => index < listing.len(),
        TransferStep::CopyingDirectory { index, inner } => index < listing.len(),
        TransferStep::CopyingFile { index } => index < listing.len(),
    }
}

pub open spec fn relocation_in_range(listing: Seq<Seq<char>>, step: HomeStep) -> bool {
    match step {
        HomeStep::Removing { inner: RemoveStep::Clearing(inner) } => clearing_in_range(
            listing,
            inner,
        ),
        HomeStep::Transferring { inner } => transfer_in_range(listing, inner),
        _ => true,
    }
}

pub open spec fn v2_in_range(listing: Seq<Seq<char>>, step: V2Step) -> bool {
    match step {
        V2Step::Finding { inner: FindStep::Probing { index } } => index < listing.len(),
        V2Step::Subvolumes { inner: SubvolumesStep::Pair { index, inner } } => index
            < subvolume_targets().len(),
        _ => true,
    }
}

/// Whether a step points inside what the run works through: an entry of
/// the listing at hand, a pair of the subvolume targets.
pub open spec fn in_range(listing: Seq<Seq<char>>, step: RunStep) -> bool {
    match step {
        RunStep::V2 { inner } => v2_in_range(listing, inner),
        RunStep::V3 { inner: V3Step::Relocating { inner } } => relocation_in_range(listing, inner),
        _ => true,
    }
}

proof fn lemma_copy_on_course(src: Seq<char>, dst: Seq<char>, step: CopyStep, outcome: OutcomeView)
    ensures
        on_course(HomeDataMigrator::spec_copy_directory_contents(src, dst, step, outcome)),
{
    reveal(HomeDataMigrator::spec_copy_directory_contents);
}

proof fn lemma_clear_on_course(ctx: ContextView, path: Seq<char>, step: ClearStep, outcome: OutcomeView)
    requires
        sound(ctx),
        outcome.reportable(),
        clearing_in_range(ctx.listing, step),
    ensures
        on_course(HomeDataMigrator::spec_clear_directory(ctx, path, step, outcome).1),
        sound(HomeDataMigrator::spec_clear_directory(ctx, path, step, outcome).0),
        HomeDataMigrator::spec_clear_directory(ctx, path, step, outcome).1 matches PollView::Pending {
            step: next,
            action,
        } ==> clearing_in_range(
            HomeDataMigrator::spec_clear_directory(ctx, path, step, outcome).0.listing,
            next,
        ),
{
    reveal(HomeDataMigrator::spec_clear_directory);
}

proof fn lemma_transfer_on_course(
    ctx: ContextView,
    backup_path: Seq<char>,
    home_subvol: Seq<char>,
    step: TransferStep,
    outcome: OutcomeView,
)
    requires
        sound(ctx),
        outcome.reportable(),
        transfer_in_range(ctx.listing, step),
    ensures
        on_course(
            HomeDataMigrator::spec_transfer_home_data(
                ctx,
                backup_path,
                home_subvol,
                step,
                outcome,
            ).1,
        ),
        sound(
            HomeDataMigrator::spec_transfer_home_data(
                ctx,
                backup_path,
                home_subvol,
                step,
                outcome,
            ).0,
        ),
        HomeDataMigrator::spec_transfer_home_data(
            ctx,
            backup_path,
            home_subvol,
            step,
            outcome,
        ).1 matches PollView::Pending { step: next, action } ==> transfer_in_range(
            HomeDataMigrator::spec_transfer_home_data(
                ctx,
                backup_path,
                home_subvol,
                step,
                outcome,
            ).0.listing,
            next,
        ),
{
    reveal(HomeDataMigrator::spec_transfer_home_data);
    match step {
        TransferStep::Listing => {
            if let OutcomeView::Entries { names } = outcome {
                lemma_next_to_transfer(names, 0);
            }
        },
        TransferStep::Probing { index } => {},
        TransferStep::CopyingDirectory { index, inner } => {
            lemma_next_to_transfer(ctx.listing, index + 1);
            lemma_copy_on_course(
                joined(backup_path, ctx.listing[index as int]),
                joined(home_subvol, ctx.listing[index as int]),
                inner,
                outcome,
            );
        },
        TransferStep::CopyingFile { index } => {
            lemma_next_to_transfer(ctx.listing, index + 1);
        },
    }
}

proof fn lemma_home_on_course(ctx: ContextView, step: HomeStep, outcome: OutcomeView)
    requires
        sound(ctx),
        outcome.reportable(),
        relocation_in_range(ctx.listing, step),
    ensures
        on_course(HomeDataMigrator::spec_migrate(ctx, step, outcome).1),
        sound(HomeDataMigrator::spec_migrate(ctx, step, outcome).0),
        HomeDataMigrator::spec_migrate(ctx, step, outcome).1 matches PollView::Pending {
            step: next,
            action,
        } ==> relocation_in_range(HomeDataMigrator::spec_migrate(ctx, step, outcome).0.listing, next),
{
    reveal(HomeDataMigrator::spec_migrate);
    let system_home = ctx.path(legacy_home());
    let home_subvol = ctx.path(home_subvolume());
    let backup_path = ctx.path(home_backup());
    match step {
        HomeStep::BackingUp { is_subvolume, inner } => {
            reveal(HomeDataMigrator::spec_create_home_backup);
            if let BackupStep::Copying(copy) = inner {
                lemma_copy_on_course(system_home, backup_path, copy, outcome);
            }
        },
        HomeStep::Removing { inner } => {
            reveal(HomeDataMigrator::spec_remove_old_home_data);
            if let RemoveStep::Clearing(clear) = inner {
                lemma_clear_on_course(ctx, system_home, clear, outcome);
            }
        },
        HomeStep::Ensuring { inner } => {
            reveal(HomeDataMigrator::spec_ensure_home_subvolume);
        },
        HomeStep::Transferring { inner } => {
            lemma_transfer_on_course(ctx, backup_path, home_subvol, inner, outcome);
        },
        HomeStep::CleaningUp { inner } => {
            reveal(HomeDataMigrator::spec_cleanup_backup);
        },
        _ => {},
    }
}

proof fn lemma_v3_on_course(ctx: ContextView, step: V3Step, outcome: OutcomeView)
    requires
        sound(ctx),
        outcome.reportable(),
        in_range(ctx.listing, RunStep::V3 { inner: step }),
    ensures
        on_course(RootFsV3Migrator::spec_migrate(ctx, step, outcome).1),
        sound(RootFsV3Migrator::spec_migrate(ctx, step, outcome).0),
        RootFsV3Migrator::spec_migrate(ctx, step, outcome).1 matches PollView::Pending {
            step: next,
            action,
        } ==> in_range(
            RootFsV3Migrator::spec_migrate(ctx, step, outcome).0.listing,
            RunStep::V3 { inner: next },
        ),
{
    reveal(RootFsV3Migrator::spec_migrate);
    if let V3Step::Relocating { inner } = step {
        lemma_home_on_course(ctx, inner, outcome);
    }
}

proof fn lemma_find_on_course(ctx: ContextView, step: FindStep, outcome: OutcomeView)
    requires
        sound(ctx),
        outcome.reportable(),
        step matches FindStep::Probing { index } ==> index < ctx.listing.len(),
    ensures
        on_course(LegacyRootFsV1Finder::spec_find_latest(ctx, step, outcome).1),
        sound(LegacyRootFsV1Finder::spec_find_latest(ctx, step, outcome).0),
        LegacyRootFsV1Finder::spec_find_latest(ctx, step, outcome).1 matches PollView::Pending {
            step: next,
            action,
        } ==> (next matches FindStep::Probing { index } ==> index
            < LegacyRootFsV1Finder::spec_find_latest(ctx, step, outcome).0.listing.len()),
{
    reveal(LegacyRootFsV1Finder::spec_find_latest);
}

proof fn lemma_subvolumes_on_course(
    ctx: ContextView,
    import_path: Seq<char>,
    step: SubvolumesStep,
    outcome: OutcomeView,
)
    requires
        step matches SubvolumesStep::Pair { index, inner } && index < subvolume_targets().len(),
    ensures
        on_course(RootFsV2Migrator::spec_migrate_subvolumes(ctx, import_path, step, outcome)),
        RootFsV2Migrator::spec_migrate_subvolumes(
            ctx,
            import_path,
            step,
            outcome,
        ) matches PollView::Pending { step: next, action } ==> (next matches SubvolumesStep::Pair {
            index,
            inner,
        } && index < subvolume_targets().len()),
{
    reveal(RootFsV2Migrator::spec_migrate_subvolumes);
    reveal(RootFsV2Migrator::spec_snapshot_with_parent);
    assert(subvolume_targets().len() == 5);
}

proof fn lemma_v2_on_course(ctx: ContextView, step: V2Step, outcome: OutcomeView)
    requires
        sound(ctx),
        outcome.reportable(),
        v2_in_range(ctx.listing, step),
    ensures
        on_course(RootFsV2Migrator::spec_migrate(ctx, step, outcome).1),
        sound(RootFsV2Migrator::spec_migrate(ctx, step, outcome).0),
        RootFsV2Migrator::spec_migrate(ctx, step, outcome).1 matches PollView::Pending {
            step: next,
            action,
        } ==> v2_in_range(RootFsV2Migrator::spec_migrate(ctx, step, outcome).0.listing, next),
{
    reveal(RootFsV2Migrator::spec_migrate);
    let import_path = ctx.path(import_subvolume());
    assert(subvolume_targets().len() == 5);
    match step {
        V2Step::Preparing { inner } => {
            reveal(RootFsV2Migrator::spec_prepare_import_directory);
        },
        V2Step::Fstab { inner } => {
            reveal(RootFsV2Migrator::spec_handle_fstab_warnings);
            reveal(RootFsV2Migrator::spec_show_fstab_warning);
        },
        V2Step::Finding { inner } => {
            lemma_find_on_course(ctx, inner, outcome);
        },
        V2Step::SystemDirs { inner } => {
            reveal(RootFsV2Migrator::spec_migrate_system_directories);
        },
        V2Step::Subvolumes { inner } => {
            lemma_subvolumes_on_course(ctx, import_path, inner, outcome);
        },
        _ => {},
    }
}

/// A step that points inside what the run works through is answered
/// with anything but the failure of a stray step, and the step that
/// follows points inside as well.
pub proof fn lemma_run_on_course(ctx: ContextView, step: RunStep, outcome: OutcomeView)
    requires
        sound(ctx),
        outcome.reportable(),
        in_range(ctx.listing, step),
    ensures
        on_course(spec_run_migrations(ctx, step, outcome).1),
        sound(spec_run_migrations(ctx, step, outcome).0),
        spec_run_migrations(ctx, step, outcome).1 matches PollView::Pending { step: next, action }
            ==> in_range(spec_run_migrations(ctx, step, outcome).0.listing, next),
{
    reveal(spec_run_migrations);
    match step {
        RunStep::V2 { inner } => {
            lemma_v2_on_course(ctx, inner, outcome);
        },
        RunStep::Checking { migrated, inner } => {
            reveal(RootFsV3Checker::spec_needs_migration);
        },
        RunStep::V3 { inner } => {
            lemma_v3_on_course(ctx, inner, outcome);
        },
    }
}

/// No run comes to a stray step: after any outcomes that a caller can
/// report, the step at which the run stands points inside what the run
/// works through, and the run has not failed for a stray step.
pub proof fn law_runs_stay_in_range(root: Seq<char>, outcomes: Seq<OutcomeView>, n: int)
    requires
        0 <= n <= outcomes.len(),
        reportable(outcomes),
    ensures
        on_course(state_at(root, outcomes, n).poll),
        sound(state_at(root, outcomes, n).ctx),
        state_at(root, outcomes, n).poll matches PollView::Pending { step, action } ==> in_range(
            state_at(root, outcomes, n).ctx.listing,
            step,
        ),
    decreases n,
{
    if n == 0 {
        assert(outcomes.take(0).len() == 0);
    } else {
        law_runs_stay_in_range(root, outcomes, n - 1);
        lemma_state_step(root, outcomes, n - 1);
        let state = state_at(root, outcomes, n - 1);
        if let PollView::Pending { step, action } = state.poll {
            lemma_run_on_course(state.ctx, step, outcomes[n - 1]);
        }
    }
}

} // verus!
