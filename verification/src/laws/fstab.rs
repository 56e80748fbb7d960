//! The mount table is dealt with before any legacy data is copied.

use vstd::prelude::*;
use crate::action::{pending, ActionView, OutcomeView, PollView};
use crate::context::ContextView;
use crate::finder::FindStep;
use crate::laws::overlay::copying;
use crate::laws::trace::{action_at, lemma_state_step, lemma_typed, stands_at, state_at};
use crate::rootfs_v2::{
    concerning_entries, confirmation_prompt, lemma_concerning_entries, swap_type, FstabStep,
    RootFsV2Migrator, SystemDir, SystemDirsStep, V2Step, WarnStep,
};
use crate::run::{spec_run_migrations, RunStep};

verus! {

/// The step that waits for the mount table.
pub open spec fn reading_fstab() -> RunStep {
    RunStep::V2 { inner: V2Step::Fstab { inner: FstabStep::Reading } }
}

/// A step of the warning about the mount table.
pub open spec fn warning(inner: WarnStep) -> RunStep {
    RunStep::V2 { inner: V2Step::Fstab { inner: FstabStep::Warning { inner } } }
}

/// The step that waits for the listing of the root directory.
pub open spec fn listing_root() -> RunStep {
    RunStep::V2 { inner: V2Step::Finding { inner: FindStep::Listing } }
}

/// The number of concerning entries in the answer to `ReadFstab`.
pub open spec fn concerning_in(outcome: OutcomeView) -> nat {
    concerning_entries(RootFsV2Migrator::fstab_types(outcome))
}

proof fn lemma_fstab_steps(step: RunStep)
    ensures
        step.asks() is ReadFstab ==> step == reading_fstab(),
        step.asks() is Confirm ==> step == warning(WarnStep::Confirming),
        step.asks() is CopyTree ==> exists|dir: SystemDir| step == copying(dir),
{
    if step.asks() is CopyTree {
        if let RunStep::V2 { inner: V2Step::SystemDirs { inner: SystemDirsStep::Copying { dir } } } =
            step {
            assert(step == copying(dir));
        }
    }
}

/// How the steps around the mount table follow each other.
spec fn fstab_order(step: RunStep, outcome: OutcomeView, poll: PollView<RunStep, ()>) -> bool {
    &&& step == reading_fstab() ==> if concerning_in(outcome) > 0 {
        stands_at(poll, warning(WarnStep::HidingSplash { concerning: concerning_in(outcome) as usize }))
    } else {
        poll == pending::<RunStep, ()>(
            (listing_root(), ActionView::ListDirectory { path: poll->Pending_action->ListDirectory_path }),
        )
    }
    &&& forall|c: usize|
        step == warning(WarnStep::HidingSplash { concerning: c }) ==> stands_at(
            poll,
            warning(WarnStep::ShowingQr { concerning: c }),
        )
    &&& forall|c: usize|
        step == warning(WarnStep::ShowingQr { concerning: c }) ==> poll == pending::<RunStep, ()>(
            (
                warning(WarnStep::Confirming),
                ActionView::Confirm { concerning: c, prompt: confirmation_prompt() },
            ),
        )
    &&& step == warning(WarnStep::Confirming) ==> if outcome.affirmed() {
        stands_at(poll, listing_root())
    } else {
        poll == pending::<RunStep, ()>((warning(WarnStep::Rebooting), ActionView::Reboot))
    }
    &&& step == warning(WarnStep::Rebooting) ==> poll is Failed
    &&& poll matches PollView::Pending { step: next, action } ==> {
        &&& forall|c: usize|
            next == warning(WarnStep::HidingSplash { concerning: c }) ==> step == reading_fstab()
                && concerning_in(outcome) > 0 && c == concerning_in(outcome) as usize
        &&& forall|c: usize|
            next == warning(WarnStep::ShowingQr { concerning: c }) ==> step == warning(
                WarnStep::HidingSplash { concerning: c },
            )
        &&& next == warning(WarnStep::Confirming) ==> exists|c: usize|
            step == warning(WarnStep::ShowingQr { concerning: c })
        &&& next is V2 && (next->V2_inner is Finding || next->V2_inner is SystemDirs
            || next->V2_inner is Subvolumes || next->V2_inner is Finalizing) ==> {
            ||| step is V2 && (step->V2_inner is Finding || step->V2_inner is SystemDirs
                || step->V2_inner is Subvolumes)
            ||| step == reading_fstab() && concerning_in(outcome) == 0
            ||| step == warning(WarnStep::Confirming) && outcome.affirmed()
        }
    }
}

proof fn lemma_fstab_order(ctx: ContextView, step: RunStep, outcome: OutcomeView)
    ensures
        fstab_order(step, outcome, spec_run_migrations(ctx, step, outcome).1),
{
    reveal(spec_run_migrations);
    reveal(RootFsV2Migrator::spec_migrate);
    reveal(RootFsV2Migrator::spec_handle_fstab_warnings);
    reveal(RootFsV2Migrator::spec_show_fstab_warning);
    let poll = spec_run_migrations(ctx, step, outcome).1;
    if let PollView::Pending { step: next, action } = poll {
        if next == warning(WarnStep::Confirming) {
            if let RunStep::V2 {
                inner: V2Step::Fstab {
                    inner: FstabStep::Warning { inner: WarnStep::ShowingQr { concerning } },
                },
            } = step {
                assert(step == warning(WarnStep::ShowingQr { concerning }));
            }
        }
    }
}

/// Whether the first `n` actions of the run have dealt with the mount
/// table: it was read, and either held no concerning entry, or the
/// operator was asked and said yes.
pub open spec fn fstab_cleared(root: Seq<char>, outcomes: Seq<OutcomeView>, n: int) -> bool {
    exists|k: int| #[trigger] fstab_cleared_at(root, outcomes, n, k)
}

/// Whether action `k` of the run read the mount table, and what
/// followed before action `n` dealt with it.
pub open spec fn fstab_cleared_at(root: Seq<char>, outcomes: Seq<OutcomeView>, n: int, k: int) -> bool {
    &&& 0 <= k < n
    &&& k < outcomes.len()
    &&& action_at(root, outcomes, k) matches Some(action) && action is ReadFstab
    &&& concerning_in(outcomes[k]) == 0 || (k + 3 < n && k + 3 < outcomes.len() && (action_at(
        root,
        outcomes,
        k + 3,
    ) matches Some(action) && action is Confirm) && outcomes[k + 3].affirmed())
}

spec fn fstab_inv(root: Seq<char>, outcomes: Seq<OutcomeView>, n: int) -> bool {
    let state = state_at(root, outcomes, n);
    state.poll matches PollView::Pending { step, action } ==> {
        &&& forall|c: usize|
            step == warning(WarnStep::HidingSplash { concerning: c }) ==> n >= 1 && action_at(
                root,
                outcomes,
                n - 1,
            ) == Some(ActionView::ReadFstab { path: action_at(root, outcomes, n - 1)->0->ReadFstab_path })
                && concerning_in(outcomes[n - 1]) > 0
        &&& forall|c: usize|
            step == warning(WarnStep::ShowingQr { concerning: c }) ==> n >= 2 && action_at(
                root,
                outcomes,
                n - 2,
            ) == Some(ActionView::ReadFstab { path: action_at(root, outcomes, n - 2)->0->ReadFstab_path })
                && concerning_in(outcomes[n - 2]) > 0
        &&& step == warning(WarnStep::Confirming) ==> n >= 3 && action_at(root, outcomes, n - 3)
            == Some(ActionView::ReadFstab { path: action_at(root, outcomes, n - 3)->0->ReadFstab_path })
            && concerning_in(outcomes[n - 3]) > 0
        &&& step is V2 && (step->V2_inner is Finding || step->V2_inner is SystemDirs
            || step->V2_inner is Subvolumes || step->V2_inner is Finalizing) ==> fstab_cleared(
            root,
            outcomes,
            n,
        )
    }
}

proof fn lemma_fstab_inv(root: Seq<char>, outcomes: Seq<OutcomeView>, n: int)
    requires
        0 <= n <= outcomes.len(),
    ensures
        fstab_inv(root, outcomes, n),
    decreases n,
{
    if n == 0 {
        reveal(RootFsV2Migrator::spec_migrate);
        assert(outcomes.take(0).len() == 0);
    } else {
        lemma_fstab_inv(root, outcomes, n - 1);
        lemma_typed(root, outcomes, n - 1);
        lemma_state_step(root, outcomes, n - 1);
        let state = state_at(root, outcomes, n - 1);
        if let PollView::Pending { step, action } = state.poll {
            assert(action_at(root, outcomes, n - 1) == Some(action));
            lemma_fstab_order(state.ctx, step, outcomes[n - 1]);
            if fstab_cleared(root, outcomes, n - 1) {
                let k = choose|k: int| #[trigger] fstab_cleared_at(root, outcomes, n - 1, k);
                assert(fstab_cleared_at(root, outcomes, n, k));
            }
            if step == reading_fstab() && concerning_in(outcomes[n - 1]) == 0 {
                assert(fstab_cleared_at(root, outcomes, n, n - 1));
            }
            if step == warning(WarnStep::Confirming) && outcomes[n - 1].affirmed() {
                assert(fstab_cleared_at(root, outcomes, n, n - 4));
            }
        }
    }
}

/// The operator is asked only where the mount table that was read three
/// actions earlier held an entry whose type is not swap.
pub proof fn law_prompt_follows_concerning_table(
    root: Seq<char>,
    outcomes: Seq<OutcomeView>,
    k: int,
)
    requires
        0 <= k <= outcomes.len(),
        action_at(root, outcomes, k) matches Some(action) && action is Confirm,
    ensures
        k >= 3,
        action_at(root, outcomes, k - 3) matches Some(action) && action is ReadFstab,
        exists|i: int|
            0 <= i < RootFsV2Migrator::fstab_types(outcomes[k - 3]).len()
                && #[trigger] RootFsV2Migrator::fstab_types(outcomes[k - 3])[i] != swap_type(),
{
    lemma_typed(root, outcomes, k);
    lemma_fstab_inv(root, outcomes, k);
    lemma_fstab_steps(state_at(root, outcomes, k).poll->Pending_step);
    lemma_concerning_entries(RootFsV2Migrator::fstab_types(outcomes[k - 3]));
}

/// A mount table that holds an entry whose type is not swap always leads
/// to the operator being asked, three actions after it was read; one
/// that holds none leads straight on to the search for the legacy root
/// filesystem.
pub proof fn law_concerning_table_prompts(root: Seq<char>, outcomes: Seq<OutcomeView>, k: int)
    requires
        0 <= k < outcomes.len(),
        action_at(root, outcomes, k) matches Some(action) && action is ReadFstab,
    ensures
        concerning_in(outcomes[k]) > 0 <==> exists|i: int|
            0 <= i < RootFsV2Migrator::fstab_types(outcomes[k]).len()
                && #[trigger] RootFsV2Migrator::fstab_types(outcomes[k])[i] != swap_type(),
        concerning_in(outcomes[k]) == 0 ==> (action_at(root, outcomes, k + 1) matches Some(action)
            && action is ListDirectory),
        concerning_in(outcomes[k]) > 0 && k + 2 < outcomes.len() ==> action_at(
            root,
            outcomes,
            k + 3,
        ) == Some(
            ActionView::Confirm {
                concerning: concerning_in(outcomes[k]) as usize,
                prompt: confirmation_prompt(),
            },
        ),
{
    lemma_concerning_entries(RootFsV2Migrator::fstab_types(outcomes[k]));
    lemma_typed(root, outcomes, k);
    lemma_fstab_steps(state_at(root, outcomes, k).poll->Pending_step);
    lemma_state_step(root, outcomes, k);
    let state = state_at(root, outcomes, k);
    lemma_fstab_order(state.ctx, state.poll->Pending_step, outcomes[k]);
    if concerning_in(outcomes[k]) > 0 && k + 2 < outcomes.len() {
        let c = concerning_in(outcomes[k]) as usize;
        lemma_state_step(root, outcomes, k + 1);
        let first = state_at(root, outcomes, k + 1);
        lemma_fstab_order(first.ctx, first.poll->Pending_step, outcomes[k + 1]);
        lemma_state_step(root, outcomes, k + 2);
        let second = state_at(root, outcomes, k + 2);
        lemma_fstab_order(second.ctx, second.poll->Pending_step, outcomes[k + 2]);
    }
}

/// No legacy data is copied before the mount table was dealt with: where
/// it held a concerning entry, the operator has said yes by then.
pub proof fn law_copy_waits_for_the_operator(root: Seq<char>, outcomes: Seq<OutcomeView>, k: int)
    requires
        0 <= k <= outcomes.len(),
        action_at(root, outcomes, k) matches Some(action) && action is CopyTree,
    ensures
        fstab_cleared(root, outcomes, k),
{
    lemma_typed(root, outcomes, k);
    lemma_fstab_inv(root, outcomes, k);
    lemma_fstab_steps(state_at(root, outcomes, k).poll->Pending_step);
}

} // verus!
