//! Runs as sequences of outcomes: what a run asks for after each of them.

use vstd::prelude::*;
use crate::action::{asked_as, pending, ActionView, OutcomeView, PollView};
use crate::context::ContextView;
use crate::run::{lemma_run_step, spec_begin_run_migrations, spec_run_migrations, RunStep};

verus! {

/// A run between two actions: what it remembers, and where it stands.
pub struct RunState {
    pub ctx: ContextView,
    pub poll: PollView<RunStep, ()>,
}

/// The run on the filesystem mounted at `root` before anything was done.
pub open spec fn initial_state(root: Seq<char>) -> RunState {
    RunState {
        ctx: ContextView::fresh(root),
        poll: pending(spec_begin_run_migrations(ContextView::fresh(root))),
    }
}

/// The run after one more outcome was reported. A run that has ended
/// stays as it is.
pub open spec fn advance(state: RunState, outcome: OutcomeView) -> RunState {
    match state.poll {
        PollView::Pending { step, action } => RunState {
            ctx: spec_run_migrations(state.ctx, step, outcome).0,
            poll: spec_run_migrations(state.ctx, step, outcome).1,
        },
        _ => state,
    }
}

/// The run after the given outcomes were reported, one after the other.
pub open spec fn run_after(root: Seq<char>, outcomes: Seq<OutcomeView>) -> RunState
    decreases outcomes.len(),
{
    if outcomes.len() == 0 {
        initial_state(root)
    } else {
        advance(run_after(root, outcomes.drop_last()), outcomes.last())
    }
}

/// The run after the first `k` of the outcomes.
pub open spec fn state_at(root: Seq<char>, outcomes: Seq<OutcomeView>, k: int) -> RunState {
    run_after(root, outcomes.take(k))
}

/// The action that the run asks for after the first `k` of the outcomes,
/// if it has not ended by then. Outcome `k` is the answer to it.
pub open spec fn action_at(root: Seq<char>, outcomes: Seq<OutcomeView>, k: int) -> Option<
    ActionView,
> {
    match state_at(root, outcomes, k).poll {
        PollView::Pending { step, action } => Some(action),
        _ => None,
    }
}

/// Whether every one of the outcomes is one that a caller can report.
pub open spec fn reportable(outcomes: Seq<OutcomeView>) -> bool {
    forall|i: int| 0 <= i < outcomes.len() ==> (#[trigger] outcomes[i]).reportable()
}

/// Each outcome takes the run one step further.
pub proof fn lemma_state_step(root: Seq<char>, outcomes: Seq<OutcomeView>, k: int)
    requires
        0 <= k < outcomes.len(),
    ensures
        state_at(root, outcomes, k + 1) == advance(state_at(root, outcomes, k), outcomes[k]),
        state_at(root, outcomes, 0) == initial_state(root),
{
    assert(outcomes.take(k + 1).drop_last() =~= outcomes.take(k));
    assert(outcomes.take(k + 1).last() == outcomes[k]);
    assert(outcomes.take(0).len() == 0);
}

/// Whether the run after `n` outcomes still works on `root`, and asks for
/// the kind of action that its step waits for.
pub open spec fn typed_at(root: Seq<char>, outcomes: Seq<OutcomeView>, n: int) -> bool {
    &&& state_at(root, outcomes, n).ctx.root_path == root
    &&& asked_as(state_at(root, outcomes, n).poll, |s: RunStep| s.asks())
}

/// At every point of every run, the action asked for is of the kind that
/// the step waits for.
pub proof fn lemma_typed(root: Seq<char>, outcomes: Seq<OutcomeView>, n: int)
    requires
        0 <= n <= outcomes.len(),
    ensures
        typed_at(root, outcomes, n),
    decreases n,
{
    if n == 0 {
        assert(outcomes.take(0).len() == 0);
    } else {
        lemma_typed(root, outcomes, n - 1);
        lemma_state_step(root, outcomes, n - 1);
        let state = state_at(root, outcomes, n - 1);
        if let PollView::Pending { step, action } = state.poll {
            lemma_run_step(state.ctx, step, outcomes[n - 1]);
        }
    }
}

/// Whether `poll` asks for an action and then stands at `step`.
pub open spec fn stands_at(poll: PollView<RunStep, ()>, step: RunStep) -> bool {
    poll matches PollView::Pending { step: next, action } && next == step
}

} // verus!
