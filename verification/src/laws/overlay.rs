//! Every overlay that is mounted is released, once.

use vstd::prelude::*;
use crate::action::{ActionView, OutcomeView, PollView};
use crate::context::{joined, ContextView};
use crate::laws::trace::{action_at, lemma_state_step, lemma_typed, stands_at, state_at};
use crate::rootfs_v2::{import_subvolume, RootFsV2Migrator, SystemDir, SystemDirsStep, V2Step};
use crate::run::{spec_run_migrations, RunStep};

verus! {

/// Whether `action` mounts an overlay on `place`.
pub open spec fn mounts(action: ActionView, place: Seq<char>) -> bool {
    action matches ActionView::MountOverlay { options, target } && target == place
}

/// Whether `action` copies the tree at `place`.
pub open spec fn copies_from(action: ActionView, place: Seq<char>) -> bool {
    action matches ActionView::CopyTree { source, target } && source == place
}

/// The step that waits for the overlay of `dir` to be mounted.
pub open spec fn mounting(dir: SystemDir) -> RunStep {
    RunStep::V2 { inner: V2Step::SystemDirs { inner: SystemDirsStep::Mounting { dir } } }
}

/// The step that waits for the merged `dir` to be copied.
pub open spec fn copying(dir: SystemDir) -> RunStep {
    RunStep::V2 { inner: V2Step::SystemDirs { inner: SystemDirsStep::Copying { dir } } }
}

/// The step that waits for the overlay of `dir` to be unmounted.
pub open spec fn releasing(dir: SystemDir) -> RunStep {
    RunStep::V2 { inner: V2Step::SystemDirs { inner: SystemDirsStep::Releasing { dir } } }
}

/// Only the steps that wait for a mount ask for one, and only those that
/// wait for an unmount ask for that.
proof fn lemma_overlay_steps(step: RunStep)
    ensures
        step.asks() is MountOverlay ==> exists|dir: SystemDir| step == mounting(dir),
        step.asks() is Unmount ==> exists|dir: SystemDir| step == releasing(dir),
{
    if step.asks() is MountOverlay {
        if let RunStep::V2 {
            inner: V2Step::SystemDirs { inner: SystemDirsStep::Mounting { dir } },
        } = step {
            assert(step == mounting(dir));
        }
    }
    if step.asks() is Unmount {
        if let RunStep::V2 {
            inner: V2Step::SystemDirs { inner: SystemDirsStep::Releasing { dir } },
        } = step {
            assert(step == releasing(dir));
        }
    }
}

/// How the steps around an overlay mount follow each other, and what
/// they ask for.
spec fn overlay_order(
    ctx: ContextView,
    step: RunStep,
    outcome: OutcomeView,
    after: ContextView,
    poll: PollView<RunStep, ()>,
) -> bool {
    &&& forall|dir: SystemDir|
        step == mounting(dir) ==> if outcome is Done {
            stands_at(poll, copying(dir))
        } else {
            poll is Failed
        }
    &&& forall|dir: SystemDir|
        step == copying(dir) ==> stands_at(poll, releasing(dir))
    &&& forall|dir: SystemDir|
        step == releasing(dir) && (ctx.postponed is Some || !(outcome is Done)) ==> poll is Failed
    &&& poll matches PollView::Pending { step: next, action } ==> {
        &&& forall|dir: SystemDir|
            next == mounting(dir) ==> mounts(action, joined(after.rootfs_v1, dir.spec_name()))
        &&& forall|dir: SystemDir|
            next == copying(dir) ==> step == mounting(dir) && outcome is Done && after.rootfs_v1
                == ctx.rootfs_v1 && copies_from(
                action,
                joined(after.rootfs_v1, dir.spec_name()),
            )
        &&& forall|dir: SystemDir|
            next == releasing(dir) ==> step == copying(dir) && after.rootfs_v1 == ctx.rootfs_v1
                && action == (ActionView::Unmount {
                target: joined(after.rootfs_v1, dir.spec_name()),
            })
    }
}

proof fn lemma_v2_overlay_order(ctx: ContextView, step: V2Step, outcome: OutcomeView)
    ensures
        overlay_order(
            ctx,
            RunStep::V2 { inner: step },
            outcome,
            RootFsV2Migrator::spec_migrate(ctx, step, outcome).0,
            match RootFsV2Migrator::spec_migrate(ctx, step, outcome).1 {
                PollView::Pending { step: next, action } => PollView::Pending {
                    step: RunStep::V2 { inner: next },
                    action,
                },
                PollView::Ready { value } => PollView::Ready { value: () },
                PollView::Failed { failure } => PollView::Failed { failure },
            },
        ),
{
    reveal(RootFsV2Migrator::spec_migrate);
    reveal(RootFsV2Migrator::spec_migrate_system_directories);
    let import_path = ctx.path(import_subvolume());
    match step {
        V2Step::Finding { inner } => {
            crate::finder::lemma_find_step(ctx, inner, outcome);
        },
        _ => {},
    }
}

proof fn lemma_overlay_order(ctx: ContextView, step: RunStep, outcome: OutcomeView)
    ensures
        overlay_order(
            ctx,
            step,
            outcome,
            spec_run_migrations(ctx, step, outcome).0,
            spec_run_migrations(ctx, step, outcome).1,
        ),
{
    reveal(spec_run_migrations);
    if let RunStep::V2 { inner } = step {
        lemma_v2_overlay_order(ctx, inner, outcome);
    }
}

/// What holds of a run after `n` outcomes around an overlay mount: a
/// copy waits only right after a mount that succeeded, and an unmount of
/// that same place is asked for right after the copy.
spec fn overlay_inv(root: Seq<char>, outcomes: Seq<OutcomeView>, n: int) -> bool {
    let state = state_at(root, outcomes, n);
    state.poll matches PollView::Pending { step, action } ==> {
        &&& forall|dir: SystemDir|
            step == mounting(dir) ==> mounts(
                action,
                joined(state.ctx.rootfs_v1, dir.spec_name()),
            )
        &&& forall|dir: SystemDir|
            step == copying(dir) ==> {
                &&& n >= 1
                &&& action_at(root, outcomes, n - 1) matches Some(mount) && mounts(
                    mount,
                    joined(state.ctx.rootfs_v1, dir.spec_name()),
                )
                &&& outcomes[n - 1] is Done
                &&& copies_from(action, joined(state.ctx.rootfs_v1, dir.spec_name()))
            }
        &&& forall|dir: SystemDir|
            step == releasing(dir) ==> {
                &&& n >= 2
                &&& action_at(root, outcomes, n - 2) matches Some(mount) && mounts(
                    mount,
                    joined(state.ctx.rootfs_v1, dir.spec_name()),
                )
                &&& outcomes[n - 2] is Done
                &&& action == (ActionView::Unmount {
                    target: joined(state.ctx.rootfs_v1, dir.spec_name()),
                })
            }
    }
}

proof fn lemma_overlay_inv(root: Seq<char>, outcomes: Seq<OutcomeView>, n: int)
    requires
        0 <= n <= outcomes.len(),
    ensures
        overlay_inv(root, outcomes, n),
    decreases n,
{
    reveal(RootFsV2Migrator::spec_migrate);
    if n == 0 {
        assert(outcomes.take(0).len() == 0);
    } else {
        lemma_overlay_inv(root, outcomes, n - 1);
        lemma_state_step(root, outcomes, n - 1);
        let state = state_at(root, outcomes, n - 1);
        if let PollView::Pending { step, action } = state.poll {
            assert(action_at(root, outcomes, n - 1) == Some(action));
            lemma_overlay_order(state.ctx, step, outcomes[n - 1]);
        }
    }
}

/// An overlay mount that succeeded is followed by the copy out of the
/// mounted place and then, whatever the copy's outcome, by the unmount
/// of that place. A mount that did not succeed ends the run at once.
pub proof fn law_mounted_overlay_is_released(
    root: Seq<char>,
    outcomes: Seq<OutcomeView>,
    k: int,
    place: Seq<char>,
)
    requires
        0 <= k < outcomes.len(),
        action_at(root, outcomes, k) matches Some(action) && mounts(action, place),
    ensures
        !(outcomes[k] is Done) ==> state_at(root, outcomes, k + 1).poll is Failed,
        outcomes[k] is Done ==> (action_at(root, outcomes, k + 1) matches Some(action)
            && copies_from(action, place)),
        outcomes[k] is Done && k + 1 < outcomes.len() ==> action_at(root, outcomes, k + 2) == Some(
            ActionView::Unmount { target: place },
        ),
{
    lemma_typed(root, outcomes, k);
    lemma_overlay_inv(root, outcomes, k);
    lemma_state_step(root, outcomes, k);
    let state = state_at(root, outcomes, k);
    let step = state.poll->Pending_step;
    lemma_overlay_steps(step);
    let dir = choose|dir: SystemDir| step == mounting(dir);
    lemma_overlay_order(state.ctx, step, outcomes[k]);
    if outcomes[k] is Done {
        lemma_overlay_inv(root, outcomes, k + 1);
        if k + 1 < outcomes.len() {
            lemma_state_step(root, outcomes, k + 1);
            let then = state_at(root, outcomes, k + 1);
            lemma_overlay_order(then.ctx, copying(dir), outcomes[k + 1]);
            lemma_overlay_inv(root, outcomes, k + 2);
        }
    }
}

/// Every unmount that is asked for releases an overlay that was mounted
/// with success two actions earlier, so that no overlay is released twice
/// and none that was not mounted.
pub proof fn law_release_follows_mount(
    root: Seq<char>,
    outcomes: Seq<OutcomeView>,
    k: int,
    place: Seq<char>,
)
    requires
        0 <= k <= outcomes.len(),
        action_at(root, outcomes, k) == Some(ActionView::Unmount { target: place }),
    ensures
        k >= 2,
        outcomes[k - 2] is Done,
        action_at(root, outcomes, k - 2) matches Some(action) && mounts(action, place),
        action_at(root, outcomes, k - 1) matches Some(action) && copies_from(action, place),
{
    lemma_typed(root, outcomes, k);
    lemma_overlay_inv(root, outcomes, k);
    lemma_overlay_steps(state_at(root, outcomes, k).poll->Pending_step);
    if k >= 2 {
        lemma_overlay_inv(root, outcomes, k - 1);
        lemma_state_step(root, outcomes, k - 1);
        let before = state_at(root, outcomes, k - 1);
        if let PollView::Pending { step, action } = before.poll {
            lemma_overlay_order(before.ctx, step, outcomes[k - 1]);
        }
    }
}

/// An unmount that fails ends the run, and so does an unmount after a
/// copy that failed: nothing is asked for after either.
pub proof fn law_failed_release_ends_the_run(
    root: Seq<char>,
    outcomes: Seq<OutcomeView>,
    k: int,
    place: Seq<char>,
)
    requires
        0 <= k < outcomes.len(),
        action_at(root, outcomes, k) == Some(ActionView::Unmount { target: place }),
        !(outcomes[k] is Done) || !(outcomes[k - 1] is Done),
    ensures
        k >= 2,
        state_at(root, outcomes, k + 1).poll is Failed,
        action_at(root, outcomes, k + 1) is None,
{
    law_release_follows_mount(root, outcomes, k, place);
    lemma_typed(root, outcomes, k);
    lemma_state_step(root, outcomes, k);
    lemma_state_step(root, outcomes, k - 1);
    let state = state_at(root, outcomes, k);
    let step = state.poll->Pending_step;
    lemma_overlay_steps(step);
    let dir = choose|dir: SystemDir| step == releasing(dir);
    lemma_overlay_order(state.ctx, step, outcomes[k]);
    let before = state_at(root, outcomes, k - 1);
    lemma_overlay_inv(root, outcomes, k);
    if let PollView::Pending { step: earlier, action } = before.poll {
        lemma_overlay_order(before.ctx, earlier, outcomes[k - 1]);
        lemma_copy_is_remembered(before.ctx, dir, outcomes[k - 1]);
    }
}

/// What the copy answered is remembered until the unmount has answered.
proof fn lemma_copy_is_remembered(ctx: ContextView, dir: SystemDir, outcome: OutcomeView)
    ensures
        spec_run_migrations(ctx, copying(dir), outcome).0.postponed is Some <==> !(outcome is Done),
{
    reveal(spec_run_migrations);
    reveal(RootFsV2Migrator::spec_migrate);
    reveal(RootFsV2Migrator::spec_migrate_system_directories);
}

} // verus!
