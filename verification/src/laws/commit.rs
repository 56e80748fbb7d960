//! The commit of the scratch tree comes last.

use vstd::prelude::*;
use crate::action::{ActionView, OutcomeView, PollView};
use crate::context::{joined, ContextView};
use crate::laws::trace::{action_at, lemma_state_step, lemma_typed, state_at};
use crate::rootfs_v2::{
    import_subvolume, subvolume_targets, system_subvolume, RootFsV2Migrator, SnapshotStep,
    SubvolumesStep, SystemDir, SystemDirsStep, V2Step,
};
use crate::run::{spec_run_migrations, RunStep};

verus! {

/// Whether `action` copies a merged system directory into the scratch
/// tree below `root`.
pub open spec fn is_merged_copy(action: ActionView, root: Seq<char>, dir: SystemDir) -> bool {
    action matches ActionView::CopyTree { source, target } && target == joined(
        joined(root, import_subvolume()),
        dir.spec_name(),
    )
}

/// The request that snapshots pair `i` of the subvolume targets into the
/// scratch tree below `root`.
pub open spec fn snapshot_request(root: Seq<char>, i: int) -> ActionView {
    ActionView::CreateSnapshot {
        source: joined(root, subvolume_targets()[i].0),
        target: joined(joined(root, import_subvolume()), subvolume_targets()[i].1),
    }
}

/// The request that commits the scratch tree below `root`.
pub open spec fn commit_request(root: Seq<char>) -> ActionView {
    ActionView::Rename {
        from: joined(root, import_subvolume()),
        to: joined(root, system_subvolume()),
    }
}

/// Whether action `j` of the run copied the merged `dir`, and succeeded.
pub open spec fn copied_at(root: Seq<char>, outcomes: Seq<OutcomeView>, j: int, dir: SystemDir) -> bool {
    &&& 0 <= j < outcomes.len()
    &&& action_at(root, outcomes, j) matches Some(action) && is_merged_copy(action, root, dir)
    &&& outcomes[j] is Done
}

/// Whether one of the first `n` actions of the run copied the merged
/// `dir`, and succeeded.
pub open spec fn copied_before(root: Seq<char>, outcomes: Seq<OutcomeView>, n: int, dir: SystemDir) -> bool {
    exists|j: int| j < n && #[trigger] copied_at(root, outcomes, j, dir)
}

/// Whether action `j` of the run snapshotted pair `i`, and succeeded.
pub open spec fn snapshotted_at(root: Seq<char>, outcomes: Seq<OutcomeView>, j: int, i: int) -> bool {
    &&& 0 <= j < outcomes.len()
    &&& action_at(root, outcomes, j) == Some(snapshot_request(root, i))
    &&& outcomes[j] is Done
}

/// Whether one of the first `n` actions of the run snapshotted pair `i`,
/// and succeeded.
pub open spec fn snapshotted_before(root: Seq<char>, outcomes: Seq<OutcomeView>, n: int, i: int) -> bool {
    exists|j: int| j < n && #[trigger] snapshotted_at(root, outcomes, j, i)
}

/// Whether the first `n` actions of the run have put the whole scratch
/// tree together: both system directories copied, all subvolumes
/// snapshotted, each with success.
pub open spec fn scratch_tree_complete(root: Seq<char>, outcomes: Seq<OutcomeView>, n: int) -> bool {
    &&& copied_before(root, outcomes, n, SystemDir::Etc)
    &&& copied_before(root, outcomes, n, SystemDir::Var)
    &&& forall|i: int|
        0 <= i < subvolume_targets().len() ==> #[trigger] snapshotted_before(root, outcomes, n, i)
}

/// What holds of a run after `n` outcomes for the commit to be safe: the
/// further the run has come, the more of the scratch tree is known to be
/// in place, and only the last step asks for the commit.
spec fn commit_inv(root: Seq<char>, outcomes: Seq<OutcomeView>, n: int) -> bool {
    let state = state_at(root, outcomes, n);
    &&& state.ctx.root_path == root
    &&& match state.poll {
        PollView::Pending { step, action } => match step {
            RunStep::V2 { inner: V2Step::SystemDirs { inner } } => match inner {
                SystemDirsStep::Mounting { dir } => {
                    dir is Var ==> copied_before(root, outcomes, n, SystemDir::Etc)
                },
                SystemDirsStep::Copying { dir } => {
                    &&& is_merged_copy(action, root, dir)
                    &&& dir is Var ==> copied_before(root, outcomes, n, SystemDir::Etc)
                },
                SystemDirsStep::Releasing { dir } => {
                    &&& dir is Var ==> copied_before(root, outcomes, n, SystemDir::Etc)
                    &&& state.ctx.postponed is None ==> copied_before(root, outcomes, n, dir)
                },
            },
            RunStep::V2 {
                inner: V2Step::Subvolumes { inner: SubvolumesStep::Pair { index, inner } },
            } => {
                &&& index < subvolume_targets().len()
                &&& copied_before(root, outcomes, n, SystemDir::Etc)
                &&& copied_before(root, outcomes, n, SystemDir::Var)
                &&& forall|i: int|
                    0 <= i < index ==> #[trigger] snapshotted_before(root, outcomes, n, i)
                &&& inner is Snapshotting ==> action == snapshot_request(root, index as int)
            },
            RunStep::V2 { inner: V2Step::Finalizing } => {
                &&& action == commit_request(root)
                &&& scratch_tree_complete(root, outcomes, n)
            },
            _ => true,
        },
        _ => true,
    }
}

/// How one step of the system directories relates to the one before.
proof fn lemma_system_directories_order(
    ctx: ContextView,
    import_path: Seq<char>,
    step: SystemDirsStep,
    outcome: OutcomeView,
)
    ensures
        match RootFsV2Migrator::spec_migrate_system_directories(
            ctx,
            ctx.rootfs_v1,
            import_path,
            step,
            outcome,
        ).1 {
            PollView::Pending { step: next, action } => match next {
                SystemDirsStep::Mounting { dir } => dir is Var && step
                    == (SystemDirsStep::Releasing { dir: SystemDir::Etc }) && ctx.postponed is None,
                SystemDirsStep::Copying { dir } => step == (SystemDirsStep::Mounting { dir })
                    && action == (ActionView::CopyTree {
                    source: joined(ctx.rootfs_v1, dir.spec_name()),
                    target: joined(import_path, dir.spec_name()),
                }),
                SystemDirsStep::Releasing { dir } => step == (SystemDirsStep::Copying { dir }) && (
                RootFsV2Migrator::spec_migrate_system_directories(
                    ctx,
                    ctx.rootfs_v1,
                    import_path,
                    step,
                    outcome,
                ).0.postponed is None ==> outcome is Done),
            },
            PollView::Ready { value } => step == (SystemDirsStep::Releasing { dir: SystemDir::Var })
                && ctx.postponed is None,
            PollView::Failed { failure } => true,
        },
{
    reveal(RootFsV2Migrator::spec_migrate_system_directories);
}

/// How one step of the subvolumes relates to the one before.
proof fn lemma_subvolumes_order(
    ctx: ContextView,
    import_path: Seq<char>,
    step: SubvolumesStep,
    outcome: OutcomeView,
)
    requires
        step matches SubvolumesStep::Pair { index, inner } && index < subvolume_targets().len(),
    ensures
        match RootFsV2Migrator::spec_migrate_subvolumes(ctx, import_path, step, outcome) {
            PollView::Pending { step: next, action } => {
                &&& step matches SubvolumesStep::Pair { index, inner }
                &&& next matches SubvolumesStep::Pair { index: next_index, inner: next_inner }
                &&& next_index < subvolume_targets().len()
                &&& next_index == index || (next_index == index + 1 && inner is Snapshotting
                    && outcome is Done)
                &&& next_inner is Snapshotting ==> action == (ActionView::CreateSnapshot {
                    source: ctx.path(subvolume_targets()[next_index as int].0),
                    target: joined(import_path, subvolume_targets()[next_index as int].1),
                })
            },
            PollView::Ready { value } => step == (SubvolumesStep::Pair {
                index: 4,
                inner: SnapshotStep::Snapshotting,
            }) && outcome is Done,
            PollView::Failed { failure } => true,
        },
{
    reveal(RootFsV2Migrator::spec_migrate_subvolumes);
    reveal(RootFsV2Migrator::spec_snapshot_with_parent);
    assert(subvolume_targets().len() == 5);
}

/// How a step that works on the scratch tree relates to the one before.
spec fn scratch_order(
    ctx: ContextView,
    step: RunStep,
    outcome: OutcomeView,
    after: ContextView,
    next: RunStep,
    action: ActionView,
) -> bool {
    match next {
        RunStep::V2 { inner: V2Step::SystemDirs { inner } } => match inner {
            SystemDirsStep::Mounting { dir } => dir is Var ==> step == (RunStep::V2 {
                inner: V2Step::SystemDirs {
                    inner: SystemDirsStep::Releasing { dir: SystemDir::Etc },
                },
            }) && ctx.postponed is None,
            SystemDirsStep::Copying { dir } => step == (RunStep::V2 {
                inner: V2Step::SystemDirs { inner: SystemDirsStep::Mounting { dir } },
            }) && is_merged_copy(action, ctx.root_path, dir),
            SystemDirsStep::Releasing { dir } => step == (RunStep::V2 {
                inner: V2Step::SystemDirs { inner: SystemDirsStep::Copying { dir } },
            }) && (after.postponed is None ==> outcome is Done),
        },
        RunStep::V2 {
            inner: V2Step::Subvolumes { inner: SubvolumesStep::Pair { index, inner } },
        } => {
            &&& index < subvolume_targets().len()
            &&& inner is Snapshotting ==> action == snapshot_request(ctx.root_path, index as int)
            &&& {
                ||| index == 0 && step == (RunStep::V2 {
                    inner: V2Step::SystemDirs {
                        inner: SystemDirsStep::Releasing { dir: SystemDir::Var },
                    },
                }) && ctx.postponed is None
                ||| step matches RunStep::V2 {
                    inner: V2Step::Subvolumes {
                        inner: SubvolumesStep::Pair { index: before, inner: before_inner },
                    },
                } && (before == index || (index == before + 1 && before_inner is Snapshotting
                    && outcome is Done))
            }
        },
        RunStep::V2 { inner: V2Step::Finalizing } => {
            &&& step == (RunStep::V2 {
                inner: V2Step::Subvolumes {
                    inner: SubvolumesStep::Pair { index: 4, inner: SnapshotStep::Snapshotting },
                },
            })
            &&& outcome is Done
            &&& action == commit_request(ctx.root_path)
        },
        _ => true,
    }
}

proof fn lemma_v2_scratch_order(ctx: ContextView, step: V2Step, outcome: OutcomeView)
    requires
        step matches V2Step::Subvolumes { inner: SubvolumesStep::Pair { index, inner } } ==> index
            < subvolume_targets().len(),
    ensures
        RootFsV2Migrator::spec_migrate(ctx, step, outcome).1 matches PollView::Pending {
            step: next,
            action,
        } ==> scratch_order(
            ctx,
            RunStep::V2 { inner: step },
            outcome,
            RootFsV2Migrator::spec_migrate(ctx, step, outcome).0,
            RunStep::V2 { inner: next },
            action,
        ),
{
    reveal(RootFsV2Migrator::spec_migrate);
    let import_path = ctx.path(import_subvolume());
    match step {
        V2Step::SystemDirs { inner } => {
            lemma_system_directories_order(ctx, import_path, inner, outcome);
        },
        V2Step::Subvolumes { inner } => {
            lemma_subvolumes_order(ctx, import_path, inner, outcome);
        },
        V2Step::Finding { inner } => {
            crate::finder::lemma_find_step(ctx, inner, outcome);
        },
        _ => {},
    }
}

proof fn lemma_scratch_order(ctx: ContextView, step: RunStep, outcome: OutcomeView)
    requires
        step matches RunStep::V2 {
            inner: V2Step::Subvolumes { inner: SubvolumesStep::Pair { index, inner } },
        } ==> index < subvolume_targets().len(),
    ensures
        spec_run_migrations(ctx, step, outcome).1 matches PollView::Pending { step: next, action }
            ==> scratch_order(
            ctx,
            step,
            outcome,
            spec_run_migrations(ctx, step, outcome).0,
            next,
            action,
        ),
{
    reveal(spec_run_migrations);
    if let RunStep::V2 { inner } = step {
        lemma_v2_scratch_order(ctx, inner, outcome);
    }
}

proof fn lemma_commit_inv_step(root: Seq<char>, outcomes: Seq<OutcomeView>, n: int)
    requires
        0 <= n < outcomes.len(),
        commit_inv(root, outcomes, n),
    ensures
        commit_inv(root, outcomes, n + 1),
{
    lemma_state_step(root, outcomes, n);
    lemma_typed(root, outcomes, n + 1);
    let state = state_at(root, outcomes, n);
    let next = state_at(root, outcomes, n + 1);
    let outcome = outcomes[n];
    assert forall|dir: SystemDir| copied_before(root, outcomes, n, dir) implies copied_before(
        root,
        outcomes,
        n + 1,
        dir,
    ) by {
        let j = choose|j: int| j < n && #[trigger] copied_at(root, outcomes, j, dir);
        assert(copied_at(root, outcomes, j, dir));
    }
    assert forall|i: int| snapshotted_before(root, outcomes, n, i) implies snapshotted_before(
        root,
        outcomes,
        n + 1,
        i,
    ) by {
        let j = choose|j: int| j < n && #[trigger] snapshotted_at(root, outcomes, j, i);
        assert(snapshotted_at(root, outcomes, j, i));
    }
    match state.poll {
        PollView::Pending { step, action } => {
            assert(action_at(root, outcomes, n) == Some(action));
            lemma_scratch_order(state.ctx, step, outcome);
            match step {
                RunStep::V2 { inner: V2Step::SystemDirs { inner } } => {
                    match inner {
                        SystemDirsStep::Copying { dir } => {
                            if outcome is Done {
                                assert(copied_at(root, outcomes, n, dir));
                            }
                        },
                        _ => {},
                    }
                },
                RunStep::V2 {
                    inner: V2Step::Subvolumes { inner: SubvolumesStep::Pair { index, inner } },
                } => {
                    assert forall|i: int| 0 <= i < index implies #[trigger] snapshotted_before(
                        root,
                        outcomes,
                        n + 1,
                        i,
                    ) by {
                        assert(snapshotted_before(root, outcomes, n, i));
                    }
                    if inner is Snapshotting && outcome is Done {
                        assert(snapshotted_at(root, outcomes, n, index as int));
                    }
                },
                _ => {},
            }
        },
        _ => {},
    }
}

proof fn lemma_commit_inv(root: Seq<char>, outcomes: Seq<OutcomeView>, n: int)
    requires
        0 <= n <= outcomes.len(),
    ensures
        commit_inv(root, outcomes, n),
    decreases n,
{
    if n == 0 {
        assert(outcomes.take(0).len() == 0);
    } else {
        lemma_commit_inv(root, outcomes, n - 1);
        lemma_commit_inv_step(root, outcomes, n - 1);
    }
}

/// The scratch tree is renamed to the system subvolume only after both
/// system directories were copied and all subvolumes were snapshotted,
/// each with success; and no rename but this one is ever asked for.
pub proof fn law_commit_follows_complete_scratch_tree(
    root: Seq<char>,
    outcomes: Seq<OutcomeView>,
    k: int,
)
    requires
        0 <= k <= outcomes.len(),
        action_at(root, outcomes, k) matches Some(action) && action is Rename,
    ensures
        action_at(root, outcomes, k) == Some(commit_request(root)),
        scratch_tree_complete(root, outcomes, k),
{
    lemma_commit_inv(root, outcomes, k);
    lemma_typed(root, outcomes, k);
}

} // verus!
