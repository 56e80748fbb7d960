//! The legacy home is removed only after its backup is complete.

use vstd::prelude::*;
use crate::action::{ActionView, OutcomeView, PollView};
use crate::context::{joined, ContextView};
use crate::home::{
    home_backup, home_subvolume, legacy_home, BackupStep, ClearStep, CopyStep, HomeDataMigrator,
    HomeStep, RemoveStep, TransferStep,
};
use crate::laws::trace::{
    action_at, lemma_state_step, lemma_typed, reportable, stands_at, state_at,
};
use crate::laws::transfer::{
    backup_of, cleaning_up, law_backup_outlives_the_transfer, transfer_complete, transferring,
};
use crate::rootfs_v2::RootFsV2Migrator;
use crate::rootfs_v3::{RootFsV3Migrator, V3Step};
use crate::run::{spec_run_migrations, RunStep};

verus! {

/// The legacy home below `root`.
pub open spec fn legacy_home_of(root: Seq<char>) -> Seq<char> {
    joined(root, legacy_home())
}

/// A step of the home relocation.
pub open spec fn relocating(inner: HomeStep) -> RunStep {
    RunStep::V3 { inner: V3Step::Relocating { inner } }
}

/// How far the home relocation has come at a step: 1 once the backup is
/// made and the legacy home is being removed, 2 once the legacy home is
/// removed, 0 before and outside the relocation.
pub open spec fn relocation_phase(step: RunStep) -> int {
    match step {
        RunStep::V3 { inner: V3Step::Relocating { inner } } => match inner {
            HomeStep::Removing { .. } => 1,
            HomeStep::Ensuring { .. } => 2,
            HomeStep::Transferring { .. } => 2,
            HomeStep::CleaningUp { .. } => 2,
            _ => 0,
        },
        _ => 0,
    }
}

/// Whether the step waits for the action that completes the backup.
pub open spec fn completing_backup(step: RunStep) -> bool {
    step matches RunStep::V3 {
        inner: V3Step::Relocating { inner: HomeStep::BackingUp { is_subvolume, inner } },
    } && (inner is Snapshotting || inner == BackupStep::Copying(CopyStep::Copying))
}

/// The step that waits for the legacy home subvolume to be deleted.
pub open spec fn deleting_legacy_home() -> RunStep {
    relocating(HomeStep::Removing { inner: RemoveStep::Deleting })
}

/// A step of emptying the legacy home directory.
pub open spec fn clearing(inner: ClearStep) -> RunStep {
    relocating(HomeStep::Removing { inner: RemoveStep::Clearing(inner) })
}

/// Whether a step of the emptying removes entry `index`.
pub open spec fn removes_entry(step: ClearStep, index: int) -> bool {
    match step {
        ClearStep::RemovingDirectory { index: i } => i == index,
        ClearStep::RemovingFile { index: i } => i == index,
        _ => false,
    }
}

/// The request that removes the entry `name` of the directory `path`,
/// as the directory or the file that it is.
pub open spec fn removal_of(path: Seq<char>, name: Seq<char>, step: ClearStep) -> ActionView {
    if step is RemovingDirectory {
        ActionView::RemoveDirAll { path: joined(path, name) }
    } else {
        ActionView::RemoveFile { path: joined(path, name) }
    }
}

/// How the emptying turns to entry `index`: right after the listing came
/// in for the first entry, right after the entry before it was removed
/// for every other.
spec fn cleared_turn(
    before: Seq<Seq<char>>,
    step: ClearStep,
    outcome: OutcomeView,
    listing: Seq<Seq<char>>,
    index: int,
) -> bool {
    ||| step is Listing && outcome == (OutcomeView::Entries { names: listing }) && index == 0
    ||| index >= 1 && removes_entry(step, index - 1) && outcome is Done && listing == before
}

spec fn clear_frame_order(
    path: Seq<char>,
    before: Seq<Seq<char>>,
    step: ClearStep,
    outcome: OutcomeView,
    listing: Seq<Seq<char>>,
    next: ClearStep,
    action: ActionView,
) -> bool {
    match next {
        ClearStep::Listing => false,
        ClearStep::Probing { index } => index < listing.len() && cleared_turn(
            before,
            step,
            outcome,
            listing,
            index as int,
        ),
        _ => {
            &&& listing == before
            &&& exists|index: int|
                0 <= index < listing.len() && #[trigger] removes_entry(next, index) && step
                    == (ClearStep::Probing { index: index as usize }) && action == removal_of(
                    path,
                    listing[index],
                    next,
                )
        },
    }
}

spec fn clear_finished(
    before: Seq<Seq<char>>,
    step: ClearStep,
    outcome: OutcomeView,
    listing: Seq<Seq<char>>,
) -> bool {
    cleared_turn(before, step, outcome, listing, listing.len() as int)
}

proof fn lemma_clear_frame_order(ctx: ContextView, path: Seq<char>, step: ClearStep, outcome: OutcomeView)
    requires
        outcome.reportable(),
        !(step is Listing) ==> ctx.listing.len() <= usize::MAX,
        match step {
            ClearStep::Listing => true,
            ClearStep::Probing { index } => index < ctx.listing.len(),
            ClearStep::RemovingDirectory { index } => index < ctx.listing.len(),
            ClearStep::RemovingFile { index } => index < ctx.listing.len(),
        },
    ensures
        match HomeDataMigrator::spec_clear_directory(ctx, path, step, outcome).1 {
            PollView::Pending { step: next, action } => clear_frame_order(
                path,
                ctx.listing,
                step,
                outcome,
                HomeDataMigrator::spec_clear_directory(ctx, path, step, outcome).0.listing,
                next,
                action,
            ),
            PollView::Ready { value } => clear_finished(
                ctx.listing,
                step,
                outcome,
                HomeDataMigrator::spec_clear_directory(ctx, path, step, outcome).0.listing,
            ),
            PollView::Failed { failure } => true,
        },
{
    reveal(HomeDataMigrator::spec_clear_directory);
    match step {
        ClearStep::Probing { index } => {
            let poll = HomeDataMigrator::spec_clear_directory(ctx, path, step, outcome).1;
            if let PollView::Pending { step: next, action } = poll {
                assert(removes_entry(next, index as int));
            }
        },
        ClearStep::RemovingDirectory { index } => {
            assert(removes_entry(step, index as int));
        },
        ClearStep::RemovingFile { index } => {
            assert(removes_entry(step, index as int));
        },
        _ => {},
    }
}

/// How a step of the home relocation relates to the one before.
spec fn relocation_order(
    ctx: ContextView,
    step: RunStep,
    outcome: OutcomeView,
    after: ContextView,
    next: RunStep,
    action: ActionView,
) -> bool {
    let legacy = legacy_home_of(ctx.root_path);
    let backup = backup_of(ctx.root_path);
    &&& relocation_phase(next) >= relocation_phase(step)
    &&& relocation_phase(next) <= relocation_phase(step) + 1
    &&& relocation_phase(next) > 0 ==> exists|inner: HomeStep| step == relocating(inner)
    &&& forall|is_subvolume: bool|
        next == relocating(
            HomeStep::BackingUp { is_subvolume, inner: BackupStep::Snapshotting },
        ) ==> action == (ActionView::CreateSnapshot { source: legacy, target: backup })
    &&& forall|is_subvolume: bool|
        next == relocating(
            HomeStep::BackingUp { is_subvolume, inner: BackupStep::Copying(CopyStep::Copying) },
        ) ==> action == (ActionView::CopyContents { source: joined(legacy, "."@), target: backup })
    &&& relocation_phase(next) == 1 && relocation_phase(step) == 0 ==> {
        &&& completing_backup(step)
        &&& outcome is Done
        &&& next == deleting_legacy_home() || next == clearing(ClearStep::Listing)
    }
    &&& next == deleting_legacy_home() ==> action == (ActionView::DeleteSubvolume { path: legacy })
    &&& next == clearing(ClearStep::Listing) ==> action == (ActionView::ListDirectory {
        path: legacy,
    })
    &&& forall|inner: ClearStep|
        next == clearing(inner) && !(inner is Listing) ==> exists|before: ClearStep|
            step == clearing(before) && #[trigger] clear_frame_order(
                legacy,
                ctx.listing,
                before,
                outcome,
                after.listing,
                inner,
                action,
            )
    &&& relocation_phase(next) == 2 && relocation_phase(step) == 1 ==> {
        ||| step == deleting_legacy_home() && outcome is Done
        ||| exists|before: ClearStep|
            step == clearing(before) && #[trigger] clear_finished(
                ctx.listing,
                before,
                outcome,
                after.listing,
            )
    }
}

proof fn lemma_home_relocation_order(ctx: ContextView, step: HomeStep, outcome: OutcomeView)
    requires
        outcome.reportable(),
        forall|inner: ClearStep|
            step == (HomeStep::Removing { inner: RemoveStep::Clearing(inner) }) && !(inner
                is Listing) ==> ctx.listing.len() <= usize::MAX && match inner {
                ClearStep::Listing => true,
                ClearStep::Probing { index } => index < ctx.listing.len(),
                ClearStep::RemovingDirectory { index } => index < ctx.listing.len(),
                ClearStep::RemovingFile { index } => index < ctx.listing.len(),
            },
    ensures
        HomeDataMigrator::spec_migrate(ctx, step, outcome).1 matches PollView::Pending {
            step: next,
            action,
        } ==> relocation_order(
            ctx,
            relocating(step),
            outcome,
            HomeDataMigrator::spec_migrate(ctx, step, outcome).0,
            relocating(next),
            action,
        ),
{
    reveal(HomeDataMigrator::spec_migrate);
    let after = HomeDataMigrator::spec_migrate(ctx, step, outcome).0;
    let poll = HomeDataMigrator::spec_migrate(ctx, step, outcome).1;
    let legacy = legacy_home_of(ctx.root_path);
    match step {
        HomeStep::BackingUp { is_subvolume, inner } => {
            reveal(HomeDataMigrator::spec_create_home_backup);
            reveal(HomeDataMigrator::spec_copy_directory_contents);
        },
        HomeStep::Removing { inner } => {
            reveal(HomeDataMigrator::spec_remove_old_home_data);
            crate::home::lemma_remove_step(ctx, legacy, inner, outcome);
            if let RemoveStep::Clearing(before) = inner {
                assert(step == HomeStep::Removing { inner: RemoveStep::Clearing(before) });
                crate::home::lemma_clear_step(ctx, legacy, before, outcome);
                lemma_clear_frame_order(ctx, legacy, before, outcome);
                if let PollView::Pending { step: next, action } = poll {
                    assert forall|next_inner: ClearStep|
                        relocating(next) == clearing(next_inner) && !(next_inner
                            is Listing) implies exists|b: ClearStep|
                        relocating(step) == clearing(b) && #[trigger] clear_frame_order(
                            legacy,
                            ctx.listing,
                            b,
                            outcome,
                            after.listing,
                            next_inner,
                            action,
                        ) by {
                        assert(clear_frame_order(
                            legacy,
                            ctx.listing,
                            before,
                            outcome,
                            after.listing,
                            next_inner,
                            action,
                        ));
                    }
                    if relocation_phase(relocating(next)) == 2 {
                        assert(clear_finished(ctx.listing, before, outcome, after.listing));
                    }
                }
            }
        },
        HomeStep::Ensuring { inner } => {},
        HomeStep::Transferring { inner } => {
            crate::home::lemma_transfer_step(
                ctx,
                ctx.path(home_backup()),
                ctx.path(home_subvolume()),
                inner,
                outcome,
            );
        },
        HomeStep::CleaningUp { inner } => {
            reveal(HomeDataMigrator::spec_cleanup_backup);
        },
        _ => {},
    }
    if let PollView::Pending { step: next, action } = poll {
        assert(relocating(step) == relocating(step));
    }
}

proof fn lemma_relocation_order(ctx: ContextView, step: RunStep, outcome: OutcomeView)
    requires
        outcome.reportable(),
        forall|inner: ClearStep|
            step == clearing(inner) && !(inner is Listing) ==> ctx.listing.len() <= usize::MAX
                && match inner {
                ClearStep::Listing => true,
                ClearStep::Probing { index } => index < ctx.listing.len(),
                ClearStep::RemovingDirectory { index } => index < ctx.listing.len(),
                ClearStep::RemovingFile { index } => index < ctx.listing.len(),
            },
    ensures
        spec_run_migrations(ctx, step, outcome).1 matches PollView::Pending { step: next, action }
            ==> relocation_order(
            ctx,
            step,
            outcome,
            spec_run_migrations(ctx, step, outcome).0,
            next,
            action,
        ),
{
    reveal(spec_run_migrations);
    reveal(RootFsV3Migrator::spec_migrate);
    match step {
        RunStep::V3 { inner: V3Step::Relocating { inner } } => {
            assert forall|c: ClearStep|
                inner == (HomeStep::Removing { inner: RemoveStep::Clearing(c) }) && !(c
                    is Listing) implies ctx.listing.len() <= usize::MAX && match c {
                ClearStep::Listing => true,
                ClearStep::Probing { index } => index < ctx.listing.len(),
                ClearStep::RemovingDirectory { index } => index < ctx.listing.len(),
                ClearStep::RemovingFile { index } => index < ctx.listing.len(),
            } by {
                assert(step == clearing(c));
            }
            lemma_home_relocation_order(ctx, inner, outcome);
            assert(step == relocating(inner));
        },
        RunStep::V3 { inner } => {
            reveal(HomeDataMigrator::spec_migrate);
        },
        RunStep::V2 { inner } => {
            reveal(RootFsV2Migrator::spec_migrate);
        },
        _ => {},
    }
}

/// Whether action `j` of the run completed the backup of the legacy
/// home: the snapshot of the subvolume, or the copy of the directory
/// into the fresh backup subvolume, with success.
pub open spec fn backup_made_at(root: Seq<char>, outcomes: Seq<OutcomeView>, j: int) -> bool {
    &&& 0 <= j < outcomes.len()
    &&& outcomes[j] is Done
    &&& action_at(root, outcomes, j) == Some(
        ActionView::CreateSnapshot { source: legacy_home_of(root), target: backup_of(root) },
    ) || action_at(root, outcomes, j) == Some(
        ActionView::CopyContents {
            source: joined(legacy_home_of(root), "."@),
            target: backup_of(root),
        },
    )
}

/// Whether one of the first `n` actions of the run completed the backup.
pub open spec fn backup_made_before(root: Seq<char>, outcomes: Seq<OutcomeView>, n: int) -> bool {
    exists|j: int| j < n && #[trigger] backup_made_at(root, outcomes, j)
}

/// Whether action `j` of the run removed the entry `name` of the legacy
/// home directory, with success.
pub open spec fn entry_removed_at(
    root: Seq<char>,
    outcomes: Seq<OutcomeView>,
    j: int,
    name: Seq<char>,
) -> bool {
    &&& 0 <= j < outcomes.len()
    &&& outcomes[j] is Done
    &&& action_at(root, outcomes, j) == Some(
        ActionView::RemoveDirAll { path: joined(legacy_home_of(root), name) },
    ) || action_at(root, outcomes, j) == Some(
        ActionView::RemoveFile { path: joined(legacy_home_of(root), name) },
    )
}

/// Whether one of the first `n` actions of the run removed the entry
/// `name` of the legacy home directory, with success.
pub open spec fn entry_removed_before(
    root: Seq<char>,
    outcomes: Seq<OutcomeView>,
    n: int,
    name: Seq<char>,
) -> bool {
    exists|j: int| j < n && #[trigger] entry_removed_at(root, outcomes, j, name)
}

/// Whether action `l` of the run listed the legacy home and got `names`.
pub open spec fn legacy_home_listed_at(
    root: Seq<char>,
    outcomes: Seq<OutcomeView>,
    l: int,
    names: Seq<Seq<char>>,
) -> bool {
    &&& 0 <= l < outcomes.len()
    &&& action_at(root, outcomes, l) == Some(
        ActionView::ListDirectory { path: legacy_home_of(root) },
    )
    &&& outcomes[l] == (OutcomeView::Entries { names })
}

/// Whether, among the first `n` actions of the run, the legacy home was
/// listed as `names` and the first `m` of these entries were removed.
pub open spec fn cleared_up_to(
    root: Seq<char>,
    outcomes: Seq<OutcomeView>,
    n: int,
    names: Seq<Seq<char>>,
    m: int,
) -> bool {
    &&& exists|l: int| l < n && #[trigger] legacy_home_listed_at(root, outcomes, l, names)
    &&& forall|i: int|
        0 <= i < m ==> entry_removed_before(root, outcomes, n, #[trigger] names[i])
}

/// Whether action `j` of the run deleted the legacy home subvolume.
pub open spec fn legacy_home_deleted_at(root: Seq<char>, outcomes: Seq<OutcomeView>, j: int) -> bool {
    &&& 0 <= j < outcomes.len()
    &&& outcomes[j] is Done
    &&& action_at(root, outcomes, j) == Some(
        ActionView::DeleteSubvolume { path: legacy_home_of(root) },
    )
}

/// Whether the first `n` actions of the run have removed the legacy home
/// data: the subvolume deleted, or every entry of the directory removed.
pub open spec fn legacy_home_removed_before(
    root: Seq<char>,
    outcomes: Seq<OutcomeView>,
    n: int,
) -> bool {
    ||| exists|j: int| j < n && #[trigger] legacy_home_deleted_at(root, outcomes, j)
    ||| exists|names: Seq<Seq<char>>| #[trigger]
        cleared_up_to(root, outcomes, n, names, names.len() as int)
}

spec fn relocation_inv(root: Seq<char>, outcomes: Seq<OutcomeView>, n: int) -> bool {
    let state = state_at(root, outcomes, n);
    let legacy = legacy_home_of(root);
    state.poll matches PollView::Pending { step, action } ==> {
        &&& relocation_phase(step) >= 1 ==> backup_made_before(root, outcomes, n)
        &&& relocation_phase(step) >= 2 ==> legacy_home_removed_before(root, outcomes, n)
        &&& forall|is_subvolume: bool|
            step == relocating(
                HomeStep::BackingUp { is_subvolume, inner: BackupStep::Snapshotting },
            ) ==> action == (ActionView::CreateSnapshot { source: legacy, target: backup_of(root) })
        &&& forall|is_subvolume: bool|
            step == relocating(
                HomeStep::BackingUp { is_subvolume, inner: BackupStep::Copying(CopyStep::Copying) },
            ) ==> action == (ActionView::CopyContents {
                source: joined(legacy, "."@),
                target: backup_of(root),
            })
        &&& step == deleting_legacy_home() ==> action == (ActionView::DeleteSubvolume {
            path: legacy,
        })
        &&& step == clearing(ClearStep::Listing) ==> action == (ActionView::ListDirectory {
            path: legacy,
        })
        &&& forall|inner: ClearStep|
            step == #[trigger] clearing(inner) && !(inner is Listing) ==> {
                &&& state.ctx.listing.len() <= usize::MAX
                &&& exists|index: int|
                    {
                        &&& 0 <= index < state.ctx.listing.len()
                        &&& #[trigger] cleared_up_to(root, outcomes, n, state.ctx.listing, index)
                        &&& inner == (ClearStep::Probing { index: index as usize })
                            || removes_entry(inner, index) && action == removal_of(
                            legacy,
                            state.ctx.listing[index],
                            inner,
                        )
                    }
            }
    }
}

proof fn lemma_cleared_grows(
    root: Seq<char>,
    outcomes: Seq<OutcomeView>,
    n: int,
    names: Seq<Seq<char>>,
    m: int,
)
    requires
        cleared_up_to(root, outcomes, n, names, m),
    ensures
        cleared_up_to(root, outcomes, n + 1, names, m),
{
    let l = choose|l: int| l < n && #[trigger] legacy_home_listed_at(root, outcomes, l, names);
    assert(legacy_home_listed_at(root, outcomes, l, names));
    assert forall|i: int| 0 <= i < m implies entry_removed_before(
        root,
        outcomes,
        n + 1,
        #[trigger] names[i],
    ) by {
        let j = choose|j: int| j < n && #[trigger] entry_removed_at(root, outcomes, j, names[i]);
        assert(entry_removed_at(root, outcomes, j, names[i]));
    }
}

proof fn lemma_cleared_next(
    root: Seq<char>,
    outcomes: Seq<OutcomeView>,
    n: int,
    names: Seq<Seq<char>>,
    m: int,
)
    requires
        0 <= m < names.len(),
        cleared_up_to(root, outcomes, n, names, m),
        entry_removed_at(root, outcomes, n, names[m]),
    ensures
        cleared_up_to(root, outcomes, n + 1, names, m + 1),
{
    lemma_cleared_grows(root, outcomes, n, names, m);
    assert forall|i: int| 0 <= i < m + 1 implies entry_removed_before(
        root,
        outcomes,
        n + 1,
        #[trigger] names[i],
    ) by {
        if i == m {
            assert(entry_removed_at(root, outcomes, n, names[i]));
        }
    }
}

proof fn lemma_relocation_inv(root: Seq<char>, outcomes: Seq<OutcomeView>, n: int)
    requires
        0 <= n <= outcomes.len(),
        reportable(outcomes),
    ensures
        relocation_inv(root, outcomes, n),
    decreases n,
{
    if n == 0 {
        reveal(RootFsV2Migrator::spec_migrate);
        assert(outcomes.take(0).len() == 0);
    } else {
        lemma_relocation_inv(root, outcomes, n - 1);
        lemma_typed(root, outcomes, n - 1);
        lemma_state_step(root, outcomes, n - 1);
        let state = state_at(root, outcomes, n - 1);
        let after = state_at(root, outcomes, n);
        let outcome = outcomes[n - 1];
        let legacy = legacy_home_of(root);
        if let PollView::Pending { step, action } = state.poll {
            assert(action_at(root, outcomes, n - 1) == Some(action));
            lemma_relocation_order(state.ctx, step, outcome);
            if let PollView::Pending { step: next, action: next_action } = after.poll {
                assert(relocation_order(state.ctx, step, outcome, after.ctx, next, next_action));
                if relocation_phase(next) >= 1 {
                    if relocation_phase(step) == 0 {
                        if let RunStep::V3 {
                            inner: V3Step::Relocating {
                                inner: HomeStep::BackingUp { is_subvolume, inner },
                            },
                        } = step {
                            assert(step == relocating(HomeStep::BackingUp { is_subvolume, inner }));
                        }
                        assert(backup_made_at(root, outcomes, n - 1));
                    } else {
                        let j = choose|j: int| j < n - 1 && #[trigger] backup_made_at(root, outcomes, j);
                        assert(backup_made_at(root, outcomes, j));
                    }
                }
                if relocation_phase(next) >= 2 {
                    if relocation_phase(step) == 1 {
                        if step == deleting_legacy_home() && outcome is Done {
                            assert(legacy_home_deleted_at(root, outcomes, n - 1));
                        } else {
                            let before = choose|before: ClearStep|
                                step == clearing(before) && #[trigger] clear_finished(
                                    state.ctx.listing,
                                    before,
                                    outcome,
                                    after.ctx.listing,
                                );
                            lemma_clear_reaches(
                                root,
                                outcomes,
                                n - 1,
                                before,
                                after.ctx.listing.len() as int,
                            );
                        }
                    } else {
                        lemma_removed_grows(root, outcomes, n - 1);
                    }
                }
                assert forall|inner: ClearStep|
                    next == #[trigger] clearing(inner) && !(inner is Listing) implies {
                    &&& after.ctx.listing.len() <= usize::MAX
                    &&& exists|index: int|
                        {
                            &&& 0 <= index < after.ctx.listing.len()
                            &&& #[trigger] cleared_up_to(root, outcomes, n, after.ctx.listing, index)
                            &&& inner == (ClearStep::Probing { index: index as usize })
                                || removes_entry(inner, index) && next_action == removal_of(
                                legacy,
                                after.ctx.listing[index],
                                inner,
                            )
                        }
                } by {
                    let before = choose|before: ClearStep|
                        step == clearing(before) && #[trigger] clear_frame_order(
                            legacy,
                            state.ctx.listing,
                            before,
                            outcome,
                            after.ctx.listing,
                            inner,
                            next_action,
                        );
                    match inner {
                        ClearStep::Probing { index } => {
                            lemma_clear_reaches(root, outcomes, n - 1, before, index as int);
                        },
                        _ => {
                            let index = choose|index: int|
                                0 <= index < after.ctx.listing.len() && #[trigger] removes_entry(
                                    inner,
                                    index,
                                ) && before == (ClearStep::Probing { index: index as usize })
                                    && next_action == removal_of(
                                    legacy,
                                    after.ctx.listing[index],
                                    inner,
                                );
                            let held = choose|held: int|
                                {
                                    &&& 0 <= held < state.ctx.listing.len()
                                    &&& #[trigger] cleared_up_to(
                                        root,
                                        outcomes,
                                        n - 1,
                                        state.ctx.listing,
                                        held,
                                    )
                                    &&& before == (ClearStep::Probing { index: held as usize })
                                        || removes_entry(before, held) && action == removal_of(
                                        legacy,
                                        state.ctx.listing[held],
                                        before,
                                    )
                                };
                            assert(held == index);
                            lemma_cleared_grows(root, outcomes, n - 1, state.ctx.listing, index);
                        },
                    }
                }
            }
        }
    }
}

proof fn lemma_removed_grows(root: Seq<char>, outcomes: Seq<OutcomeView>, n: int)
    requires
        legacy_home_removed_before(root, outcomes, n),
    ensures
        legacy_home_removed_before(root, outcomes, n + 1),
{
    if exists|j: int| j < n && #[trigger] legacy_home_deleted_at(root, outcomes, j) {
        let j = choose|j: int| j < n && #[trigger] legacy_home_deleted_at(root, outcomes, j);
        assert(legacy_home_deleted_at(root, outcomes, j));
    } else {
        let names = choose|names: Seq<Seq<char>>| #[trigger]
            cleared_up_to(root, outcomes, n, names, names.len() as int);
        lemma_cleared_grows(root, outcomes, n, names, names.len() as int);
    }
}

/// The step of the induction for the emptying: what was removed before
/// action `n`, and what action `n` added, covers the entries before
/// `index`.
proof fn lemma_clear_reaches(
    root: Seq<char>,
    outcomes: Seq<OutcomeView>,
    n: int,
    before: ClearStep,
    index: int,
)
    requires
        0 <= n < outcomes.len(),
        relocation_inv(root, outcomes, n),
        state_at(root, outcomes, n).ctx.root_path == root,
        stands_at(state_at(root, outcomes, n).poll, clearing(before)),
        0 <= index <= state_at(root, outcomes, n + 1).ctx.listing.len(),
        cleared_turn(
            state_at(root, outcomes, n).ctx.listing,
            before,
            outcomes[n],
            state_at(root, outcomes, n + 1).ctx.listing,
            index,
        ),
    ensures
        cleared_up_to(root, outcomes, n + 1, state_at(root, outcomes, n + 1).ctx.listing, index),
        index == state_at(root, outcomes, n + 1).ctx.listing.len() ==> legacy_home_removed_before(
            root,
            outcomes,
            n + 1,
        ),
{
    let state = state_at(root, outcomes, n);
    let listing = state_at(root, outcomes, n + 1).ctx.listing;
    let legacy = legacy_home_of(root);
    let action = state.poll->Pending_action;
    assert(action_at(root, outcomes, n) == Some(action));
    if before is Listing {
        assert(legacy_home_listed_at(root, outcomes, n, listing));
    } else {
        let held = choose|held: int|
            {
                &&& 0 <= held < state.ctx.listing.len()
                &&& #[trigger] cleared_up_to(root, outcomes, n, state.ctx.listing, held)
                &&& before == (ClearStep::Probing { index: held as usize }) || removes_entry(
                    before,
                    held,
                ) && action == removal_of(legacy, state.ctx.listing[held], before)
            };
        assert(held == index - 1);
        assert(entry_removed_at(root, outcomes, n, listing[held]));
        lemma_cleared_next(root, outcomes, n, listing, held);
    }
    assert(cleared_up_to(root, outcomes, n + 1, listing, index));
}

/// Nothing of the legacy home is removed before its backup is complete:
/// whenever the run asks for the legacy home to be deleted, listed for
/// emptying or emptied, the backup was made with success before.
pub proof fn law_removal_follows_backup(root: Seq<char>, outcomes: Seq<OutcomeView>, k: int)
    requires
        0 <= k <= outcomes.len(),
        reportable(outcomes),
        state_at(root, outcomes, k).poll matches PollView::Pending { step, action }
            && relocation_phase(step) >= 1,
    ensures
        backup_made_before(root, outcomes, k),
{
    lemma_relocation_inv(root, outcomes, k);
}

/// While the backup is moved into the home subvolume, the legacy home
/// data is removed already, and the backup is complete.
pub proof fn law_transfer_follows_removal(
    root: Seq<char>,
    outcomes: Seq<OutcomeView>,
    k: int,
    inner: TransferStep,
)
    requires
        0 <= k <= outcomes.len(),
        reportable(outcomes),
        stands_at(state_at(root, outcomes, k).poll, transferring(inner)),
    ensures
        backup_made_before(root, outcomes, k),
        legacy_home_removed_before(root, outcomes, k),
{
    lemma_relocation_inv(root, outcomes, k);
}


/// The legacy home and its backup are two places.
pub proof fn lemma_backup_is_another_place(root: Seq<char>)
    ensures
        legacy_home_of(root) != backup_of(root),
{
    reveal_strlit("@system/home");
    reveal_strlit("@oldhome");
    assert(legacy_home()[0] == '@');
    assert(home_backup()[0] == '@');
    assert(legacy_home_of(root).len() != backup_of(root).len());
}

/// Once the backup is complete, the run goes on with removing the legacy
/// home.
proof fn lemma_backup_completes(ctx: ContextView, step: RunStep, outcome: OutcomeView)
    requires
        completing_backup(step),
        outcome is Done,
    ensures
        spec_run_migrations(ctx, step, outcome).1 matches PollView::Pending { step: next, action }
            && relocation_phase(next) == 1,
{
    reveal(spec_run_migrations);
    reveal(RootFsV3Migrator::spec_migrate);
    reveal(HomeDataMigrator::spec_migrate);
    reveal(HomeDataMigrator::spec_create_home_backup);
    reveal(HomeDataMigrator::spec_copy_directory_contents);
}

/// After the backup is complete, the run is past it for good.
proof fn lemma_past_the_backup(root: Seq<char>, outcomes: Seq<OutcomeView>, b: int, k: int)
    requires
        0 <= b < k <= outcomes.len(),
        reportable(outcomes),
        state_at(root, outcomes, b).poll matches PollView::Pending { step, action }
            && completing_backup(step),
        outcomes[b] is Done,
    ensures
        state_at(root, outcomes, k).poll matches PollView::Pending { step, action }
            ==> relocation_phase(step) >= 1,
    decreases k - b,
{
    lemma_state_step(root, outcomes, k - 1);
    let state = state_at(root, outcomes, k - 1);
    if k == b + 1 {
        lemma_backup_completes(state.ctx, state.poll->Pending_step, outcomes[b]);
    } else {
        lemma_past_the_backup(root, outcomes, b, k - 1);
        lemma_relocation_inv(root, outcomes, k - 1);
        if let PollView::Pending { step, action } = state.poll {
            lemma_relocation_order(state.ctx, step, outcomes[k - 1]);
        }
    }
}

/// Once the backup is complete, the only subvolumes that the run asks to
/// delete are the legacy home, and then the backup itself, which it asks
/// for only when the transfer is complete.
pub proof fn law_backup_is_deleted_last(
    root: Seq<char>,
    outcomes: Seq<OutcomeView>,
    b: int,
    k: int,
)
    requires
        0 <= b < k <= outcomes.len(),
        reportable(outcomes),
        state_at(root, outcomes, b).poll matches PollView::Pending { step, action }
            && completing_backup(step),
        outcomes[b] is Done,
        action_at(root, outcomes, k) matches Some(action) && action is DeleteSubvolume,
    ensures
        backup_made_at(root, outcomes, b),
        action_at(root, outcomes, k) == Some(
            ActionView::DeleteSubvolume { path: legacy_home_of(root) },
        ) || (action_at(root, outcomes, k) == Some(
            ActionView::DeleteSubvolume { path: backup_of(root) },
        ) && transfer_complete(root, outcomes, k)),
        legacy_home_of(root) != backup_of(root),
{
    lemma_backup_is_another_place(root);
    lemma_past_the_backup(root, outcomes, b, k);
    lemma_typed(root, outcomes, k);
    lemma_relocation_inv(root, outcomes, k);
    lemma_relocation_inv(root, outcomes, b);
    lemma_typed(root, outcomes, b);
    let step = state_at(root, outcomes, k).poll->Pending_step;
    if step == cleaning_up() {
        law_backup_outlives_the_transfer(root, outcomes, k);
    } else {
        assert(step == deleting_legacy_home());
    }
    let made = state_at(root, outcomes, b).poll->Pending_step;
    if let RunStep::V3 {
        inner: V3Step::Relocating { inner: HomeStep::BackingUp { is_subvolume, inner } },
    } = made {
        assert(made == relocating(HomeStep::BackingUp { is_subvolume, inner }));
    }
}

} // verus!
