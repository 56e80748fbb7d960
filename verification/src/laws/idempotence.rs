//! A layout that is up to date is left alone.

use vstd::prelude::*;
use crate::action::{ActionView, OutcomeView, PollView};
use crate::context::{joined, ContextView};
use crate::home::{home_subvolume, snapshots_entry};
use crate::laws::trace::{action_at, lemma_state_step, state_at};
use crate::rootfs_v2::{system_subvolume, RootFsV2Migrator};
use crate::rootfs_v3::RootFsV3Checker;
use crate::run::{spec_run_migrations, RunStep};

verus! {

/// A run on a layout that holds the system subvolume, the home subvolume
/// and the snapshots subvolume asks three questions, changes nothing, and
/// ends in success.
pub proof fn law_up_to_date_layout_is_left_alone(root: Seq<char>, outcomes: Seq<OutcomeView>)
    requires
        outcomes.len() >= 3,
        outcomes[0].affirmed(),
        outcomes[1].affirmed(),
        outcomes[2].affirmed(),
    ensures
        action_at(root, outcomes, 0) == Some(
            ActionView::PathExists { path: joined(root, system_subvolume()) },
        ),
        action_at(root, outcomes, 1) == Some(
            ActionView::PathExists { path: joined(root, home_subvolume()) },
        ),
        action_at(root, outcomes, 2) == Some(
            ActionView::PathExists {
                path: joined(joined(root, home_subvolume()), snapshots_entry()),
            },
        ),
        forall|k: int|
            3 <= k <= outcomes.len() ==> #[trigger] state_at(root, outcomes, k).poll
                == (PollView::<RunStep, ()>::Ready { value: () }),
        forall|k: int|
            0 <= k <= outcomes.len() ==> match #[trigger] action_at(root, outcomes, k) {
                Some(action) => action.is_observation(),
                None => true,
            },
        state_at(root, outcomes, outcomes.len() as int).ctx == ContextView::fresh(root),
{
    reveal(spec_run_migrations);
    reveal(RootFsV2Migrator::spec_migrate);
    reveal(RootFsV3Checker::spec_needs_migration);
    lemma_state_step(root, outcomes, 0);
    lemma_state_step(root, outcomes, 1);
    lemma_state_step(root, outcomes, 2);
    lemma_stays_ready(root, outcomes, outcomes.len() as int);
    assert forall|k: int| 3 <= k <= outcomes.len() implies #[trigger] state_at(
        root,
        outcomes,
        k,
    ).poll == (PollView::<RunStep, ()>::Ready { value: () }) by {
        lemma_stays_ready(root, outcomes, k);
    }
}

proof fn lemma_stays_ready(root: Seq<char>, outcomes: Seq<OutcomeView>, k: int)
    requires
        3 <= k <= outcomes.len(),
        state_at(root, outcomes, 3).poll == (PollView::<RunStep, ()>::Ready { value: () }),
    ensures
        state_at(root, outcomes, k) == state_at(root, outcomes, 3),
    decreases k,
{
    if k > 3 {
        lemma_stays_ready(root, outcomes, k - 1);
        lemma_state_step(root, outcomes, k - 1);
    }
}

} // verus!
