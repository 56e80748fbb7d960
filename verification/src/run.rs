use vstd::prelude::*;
use crate::action::{
    asked_as, pending, Action, ActionKind, ActionView, Outcome, OutcomeView, Poll, PollView,
};
use crate::context::{ContextView, MigrationContext};
use crate::rootfs_v2::{RootFsV2Migrator, V2Step};
use crate::rootfs_v3::{CheckStep, RootFsV3Checker, RootFsV3Migrator, V3Step};

verus! {

/// Progress of a run.
#[derive(Clone, Copy, Debug, PartialEq, Eq)]
#[allow(inconsistent_fields)]
pub enum RunStep {
    /// Migrating to the second epoch.
    V2 { inner: V2Step },
    /// Testing for the third epoch; `migrated` tells whether this run made
    /// the second.
    Checking { migrated: bool, inner: CheckStep },
    /// Migrating to the third epoch.
    V3 { inner: V3Step },
}

impl RunStep {
    /// The kind of action whose outcome the step waits for.
    pub open spec fn asks(self) -> ActionKind {
        match self {
            RunStep::V2 { inner } => inner.asks(),
            RunStep::Checking { inner, .. } => inner.asks(),
            RunStep::V3 { inner } => inner.asks(),
        }
    }
}

pub open spec fn spec_begin_run_migrations(ctx: ContextView) -> (RunStep, ActionView) {
    (
        RunStep::V2 { inner: RootFsV2Migrator::spec_begin_migrate(ctx).0 },
        RootFsV2Migrator::spec_begin_migrate(ctx).1,
    )
}

#[verifier::opaque]
/// A run: the migration to the second epoch, which does nothing where
/// that epoch is reached already; then the test for the third epoch; then,
/// where the test asks for it, the migration to the third. The first
/// failure ends the run.
pub open spec fn spec_run_migrations(ctx: ContextView, step: RunStep, outcome: OutcomeView) -> (
    ContextView,
    PollView<RunStep, ()>,
) {
    match step {
        RunStep::V2 { inner } => {
            let (after, poll) = RootFsV2Migrator::spec_migrate(ctx, inner, outcome);
            (
                after,
                match poll {
                    PollView::Pending { step, action } => PollView::Pending {
                        step: RunStep::V2 { inner: step },
                        action,
                    },
                    PollView::Ready { value } => pending(
                        RootFsV3Checker::spec_begin_needs_migration(after),
                    ).wrap(|s: CheckStep| RunStep::Checking { migrated: value, inner: s }),
                    PollView::Failed { failure } => PollView::Failed { failure },
                },
            )
        },
        RunStep::Checking { migrated, inner } => match RootFsV3Checker::spec_needs_migration(
            ctx,
            inner,
            outcome,
        ) {
            PollView::Pending { step, action } => (
                ctx,
                PollView::Pending { step: RunStep::Checking { migrated, inner: step }, action },
            ),
            PollView::Ready { value } => if value {
                (
                    RootFsV3Migrator::spec_begin_migrate(ctx).0,
                    pending(RootFsV3Migrator::spec_begin_migrate(ctx).1).wrap(
                        |s: V3Step| RunStep::V3 { inner: s },
                    ),
                )
            } else {
                (ctx, PollView::Ready { value: () })
            },
            PollView::Failed { failure } => (ctx, PollView::Failed { failure }),
        },
        RunStep::V3 { inner } => (
            RootFsV3Migrator::spec_migrate(ctx, inner, outcome).0,
            RootFsV3Migrator::spec_migrate(ctx, inner, outcome).1.wrap(
                |s: V3Step| RunStep::V3 { inner: s },
            ),
        ),
    }
}

/// Begins a run: the first action, and the step that waits for its
/// outcome.
pub fn begin_run_migrations(ctx: &MigrationContext) -> (begun: (RunStep, Action))
    ensures
        (begun.0, begun.1@) == spec_begin_run_migrations(ctx@),
{
    let (inner, action) = RootFsV2Migrator::begin_migrate(ctx);
    (RunStep::V2 { inner }, action)
}

/// Takes the run one step further: given the outcome of the action that
/// `step` waits for, says what to do next, or how the run has ended.
pub fn run_migrations(ctx: &mut MigrationContext, step: RunStep, outcome: Outcome) -> (poll: Poll<
    RunStep,
    (),
>)
    ensures
        (final(ctx)@, poll@) == spec_run_migrations(old(ctx)@, step, outcome@),
{
    proof {
        reveal(spec_run_migrations);
    }
    match step {
        RunStep::V2 { inner } => {
            match RootFsV2Migrator::migrate(ctx, inner, outcome) {
                Poll::Pending { step, action } => Poll::Pending {
                    step: RunStep::V2 { inner: step },
                    action,
                },
                Poll::Ready { value } => {
                    let (inner, action) = RootFsV3Checker::begin_needs_migration(ctx);
                    Poll::Pending { step: RunStep::Checking { migrated: value, inner }, action }
                },
                Poll::Failed { failure } => Poll::Failed { failure },
            }
        },
        RunStep::Checking { migrated, inner } => {
            match RootFsV3Checker::needs_migration(ctx, inner, outcome) {
                Poll::Pending { step, action } => Poll::Pending {
                    step: RunStep::Checking { migrated, inner: step },
                    action,
                },
                Poll::Ready { value } => {
                    if value {
                        let (inner, action) = RootFsV3Migrator::begin_migrate(ctx);
                        Poll::Pending { step: RunStep::V3 { inner }, action }
                    } else {
                        Poll::Ready { value: () }
                    }
                },
                Poll::Failed { failure } => Poll::Failed { failure },
            }
        },
        RunStep::V3 { inner } => {
            match RootFsV3Migrator::migrate(ctx, inner, outcome) {
                Poll::Pending { step, action } => Poll::Pending {
                    step: RunStep::V3 { inner: step },
                    action,
                },
                Poll::Ready { value } => Poll::Ready { value },
                Poll::Failed { failure } => Poll::Failed { failure },
            }
        },
    }
}


/// Every step of a run asks for what it waits for, and leaves the root
/// untouched.
pub proof fn lemma_run_step(ctx: ContextView, step: RunStep, outcome: OutcomeView)
    ensures
        asked_as(spec_run_migrations(ctx, step, outcome).1, |s: RunStep| s.asks()),
        spec_run_migrations(ctx, step, outcome).0.root_path == ctx.root_path,
{
    reveal(spec_run_migrations);
    match step {
        RunStep::V2 { inner } => {
            crate::rootfs_v2::lemma_v2_step(ctx, inner, outcome);
        },
        RunStep::Checking { migrated, inner } => {
            crate::rootfs_v3::lemma_check_asks(ctx, inner, outcome);
        },
        RunStep::V3 { inner } => {
            crate::rootfs_v3::lemma_v3_step(ctx, inner, outcome);
        },
    }
}

} // verus!
