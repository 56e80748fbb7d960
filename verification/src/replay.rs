//! Replaying a run against outcomes that were recorded.

use vstd::prelude::*;
use crate::action::{Action, Outcome, OutcomeView, Poll, PollView};
use crate::context::MigrationContext;
use crate::error::Failure;
use crate::laws::trace::{action_at, lemma_state_step, state_at};
use crate::run::{begin_run_migrations, run_migrations, RunStep};

verus! {

/// The models of recorded outcomes.
pub open spec fn views(outcomes: Seq<Outcome>) -> Seq<OutcomeView> {
    Seq::new(outcomes.len(), |i: int| outcomes[i]@)
}

/// How a replay ended.
#[derive(Debug, PartialEq, Eq)]
pub enum Replay {
    /// The run came to its end after the actions that were asked for.
    Finished,
    /// The run failed after the actions that were asked for.
    Failed { failure: Failure },
    /// The last action that was asked for has no recorded outcome.
    Waiting,
}

/// Replays a run on `root` against recorded outcomes, the first for the
/// first action. Gives the actions that the run asks for, in order, and
/// how it ended. The replay waits where the outcomes run out.
pub fn replay(root: &str, outcomes: Vec<Outcome>) -> (end: (Vec<Action>, Replay))
    ensures
        forall|k: int|
            0 <= k < end.0.len() ==> Some((#[trigger] end.0[k])@) == action_at(
                root@,
                views(outcomes@),
                k,
            ),
        match end.1 {
            Replay::Finished => end.0.len() <= outcomes.len() && state_at(
                root@,
                views(outcomes@),
                end.0.len() as int,
            ).poll is Ready,
            Replay::Failed { failure } => end.0.len() <= outcomes.len() && state_at(
                root@,
                views(outcomes@),
                end.0.len() as int,
            ).poll == (PollView::<RunStep, ()>::Failed { failure: failure@ }),
            Replay::Waiting => end.0.len() == outcomes.len() + 1,
        },
{
    let ghost all = views(outcomes@);
    let mut left = outcomes;
    let mut ctx = MigrationContext::new(root);
    let (first_step, first_action) = begin_run_migrations(&ctx);
    let mut step = first_step;
    let mut action = first_action;
    let mut asked: Vec<Action> = Vec::new();
    proof {
        assert(all.take(0).len() == 0);
        assert(all.subrange(0, all.len() as int) =~= all);
    }
    loop
        invariant
            all == views(outcomes@),
            asked.len() <= all.len(),
            asked.len() + left.len() == all.len(),
            views(left@) == all.subrange(asked.len() as int, all.len() as int),
            state_at(root@, all, asked.len() as int).ctx == ctx@,
            state_at(root@, all, asked.len() as int).poll == (PollView::<RunStep, ()>::Pending {
                step,
                action: action@,
            }),
            forall|k: int|
                0 <= k < asked.len() ==> Some((#[trigger] asked[k])@) == action_at(root@, all, k),
        decreases left.len(),
    {
        let ghost at = asked.len() as int;
        assert(action_at(root@, all, at) == Some(action@));
        if left.len() == 0 {
            asked.push(action);
            return (asked, Replay::Waiting);
        }
        let ghost remaining = left@;
        let outcome = left.remove(0);
        proof {
            assert(views(remaining)[0] == all[at]);
            assert(outcome@ == all[at]);
            assert(views(left@) =~= all.subrange(at + 1, all.len() as int)) by {
                assert forall|i: int| 0 <= i < left@.len() implies views(left@)[i]
                    == all.subrange(at + 1, all.len() as int)[i] by {
                    assert(left@[i] == remaining[i + 1]);
                    assert(views(remaining)[i + 1] == all[at + 1 + i]);
                }
            }
            lemma_state_step(root@, all, at);
        }
        asked.push(action);
        match run_migrations(&mut ctx, step, outcome) {
            Poll::Pending { step: next, action: next_action } => {
                step = next;
                action = next_action;
            },
            Poll::Ready { value } => {
                return (asked, Replay::Finished);
            },
            Poll::Failed { failure } => {
                return (asked, Replay::Failed { failure });
            },
        }
    }
}

} // verus!
