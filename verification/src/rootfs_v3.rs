use vstd::prelude::*;
use crate::action::{
    asked_as, pending, unless, Action, ActionKind, ActionView, Outcome, OutcomeView, Poll,
    PollView,
};
use crate::context::{join_path, joined, ContextView, MigrationContext};
use crate::error::FailureView;
use crate::home::{home_subvolume, snapshots_entry, HomeDataMigrator, HomeStep};
use crate::subvolume::SubvolumeHelper;

verus! {

/// The permission bits of the snapshots subvolume: all for the owner,
/// read and search for everybody else.
pub const SNAPSHOTS_MODE: u32 = 0o755;

/// What the boot splash shows while the home layout is set up.
pub open spec fn v3_message() -> Seq<char> {
    "Migrating to v3 rootfs. Setting up @home structure."@
}

/// Whether the layout still lacks what the third epoch asks for: the home
/// subvolume, or the snapshots subvolume inside it.
pub open spec fn needs_v3(home_exists: bool, snapshots_exist: bool) -> bool {
    !home_exists || !snapshots_exist
}

/// Progress of testing for the third epoch.
#[derive(Clone, Copy, Debug, PartialEq, Eq)]
pub enum CheckStep {
    /// Asked whether the home subvolume exists.
    CheckingHome,
    /// Asked whether the snapshots subvolume exists.
    CheckingSnapshots,
}

impl CheckStep {
    /// The kind of action whose outcome the step waits for.
    pub open spec fn asks(self) -> ActionKind {
        match self {
            CheckStep::CheckingHome => ActionKind::PathExists,
            CheckStep::CheckingSnapshots => ActionKind::PathExists,
        }
    }
}

/// Progress of the migration to the third epoch.
#[derive(Clone, Copy, Debug, PartialEq, Eq)]
pub enum V3Step {
    ShowingMessage,
    CheckingHome,
    CreatingHome,
    CheckingSnapshots,
    CreatingSnapshots,
    SettingMode,
    Relocating { inner: HomeStep },
}

impl V3Step {
    /// The kind of action whose outcome the step waits for.
    pub open spec fn asks(self) -> ActionKind {
        match self {
            V3Step::ShowingMessage => ActionKind::ShowMessage,
            V3Step::CheckingHome => ActionKind::PathExists,
            V3Step::CreatingHome => ActionKind::CreateSubvolume,
            V3Step::CheckingSnapshots => ActionKind::PathExists,
            V3Step::CreatingSnapshots => ActionKind::CreateSubvolume,
            V3Step::SettingMode => ActionKind::SetMode,
            V3Step::Relocating { inner } => inner.asks(),
        }
    }
}

pub struct RootFsV3Checker;

impl RootFsV3Checker {
    pub open spec fn spec_begin_needs_migration(ctx: ContextView) -> (CheckStep, ActionView) {
        (CheckStep::CheckingHome, ActionView::PathExists { path: ctx.path(home_subvolume()) })
    }

    #[verifier::opaque]
    /// Testing for the third epoch: the home subvolume is looked for, and
    /// the snapshots subvolume only where the home subvolume was found.
    pub open spec fn spec_needs_migration(ctx: ContextView, step: CheckStep, outcome: OutcomeView) -> PollView<
        CheckStep,
        bool,
    > {
        match step {
            CheckStep::CheckingHome => if outcome.affirmed() {
                PollView::Pending {
                    step: CheckStep::CheckingSnapshots,
                    action: ActionView::PathExists {
                        path: joined(ctx.path(home_subvolume()), snapshots_entry()),
                    },
                }
            } else {
                PollView::Ready { value: needs_v3(false, false) }
            },
            CheckStep::CheckingSnapshots => PollView::Ready {
                value: needs_v3(true, outcome.affirmed()),
            },
        }
    }

    pub fn begin_needs_migration(ctx: &MigrationContext) -> (begun: (CheckStep, Action))
        ensures
            (begun.0, begun.1@) == Self::spec_begin_needs_migration(ctx@),
    {
        (CheckStep::CheckingHome, Action::PathExists { path: ctx.path("@home") })
    }

    pub fn needs_migration(ctx: &MigrationContext, step: CheckStep, outcome: Outcome) -> (poll:
        Poll<CheckStep, bool>)
        ensures
            poll@ == Self::spec_needs_migration(ctx@, step, outcome@),
    {
        proof {
            reveal(RootFsV3Checker::spec_needs_migration);
        }
        match step {
            CheckStep::CheckingHome => {
                if outcome.affirmed() {
                    let home_subvol = ctx.path("@home");
                    Poll::Pending {
                        step: CheckStep::CheckingSnapshots,
                        action: Action::PathExists {
                            path: join_path(home_subvol.as_str(), ".snapshots"),
                        },
                    }
                } else {
                    Poll::Ready { value: true }
                }
            },
            CheckStep::CheckingSnapshots => Poll::Ready { value: !outcome.affirmed() },
        }
    }
}

pub struct RootFsV3Migrator;

impl RootFsV3Migrator {
    pub open spec fn message_failure(outcome: OutcomeView) -> Option<FailureView> {
        outcome.failure_unless_started("Failed to show plymouth message: "@, "UI"@)
    }

    pub open spec fn spec_show_plymouth_message(message: Seq<char>) -> ActionView {
        ActionView::ShowMessage { text: message }
    }

    pub fn show_plymouth_message(message: &str) -> (action: Action)
        ensures
            action@ == Self::spec_show_plymouth_message(message@),
    {
        Action::ShowMessage { text: String::from_str(message) }
    }

    pub open spec fn spec_begin_migrate(ctx: ContextView) -> (ContextView, (V3Step, ActionView)) {
        (ctx.stepped(), (V3Step::ShowingMessage, Self::spec_show_plymouth_message(v3_message())))
    }

    pub open spec fn snapshots_path(ctx: ContextView) -> Seq<char> {
        joined(ctx.path(home_subvolume()), snapshots_entry())
    }

    pub open spec fn spec_check_snapshots(ctx: ContextView) -> (ContextView, PollView<V3Step, ()>) {
        (
            ctx,
            PollView::Pending {
                step: V3Step::CheckingSnapshots,
                action: ActionView::PathExists { path: Self::snapshots_path(ctx) },
            },
        )
    }

    pub open spec fn spec_enter_relocation(ctx: ContextView) -> (ContextView, PollView<V3Step, ()>) {
        (
            HomeDataMigrator::spec_begin_migrate(ctx).0,
            pending(HomeDataMigrator::spec_begin_migrate(ctx).1).wrap(
                |s: HomeStep| V3Step::Relocating { inner: s },
            ),
        )
    }

    #[verifier::opaque]
    /// The migration to the third epoch: the home subvolume and the
    /// snapshots subvolume inside it are created where they are missing,
    /// a fresh snapshots subvolume gets its permission bits, and then the
    /// home data is relocated.
    pub open spec fn spec_migrate(ctx: ContextView, step: V3Step, outcome: OutcomeView) -> (
        ContextView,
        PollView<V3Step, ()>,
    ) {
        match step {
            V3Step::ShowingMessage => match Self::message_failure(outcome) {
                Some(failure) => (ctx, PollView::Failed { failure }),
                None => (
                    ctx,
                    PollView::Pending {
                        step: V3Step::CheckingHome,
                        action: ActionView::PathExists { path: ctx.path(home_subvolume()) },
                    },
                ),
            },
            V3Step::CheckingHome => if outcome.affirmed() {
                Self::spec_check_snapshots(ctx)
            } else {
                (
                    ctx,
                    PollView::Pending {
                        step: V3Step::CreatingHome,
                        action: ActionView::CreateSubvolume { path: ctx.path(home_subvolume()) },
                    },
                )
            },
            V3Step::CreatingHome => match SubvolumeHelper::creation_failure(outcome) {
                Some(failure) => (ctx, PollView::Failed { failure }),
                None => Self::spec_check_snapshots(ctx),
            },
            V3Step::CheckingSnapshots => if outcome.affirmed() {
                Self::spec_enter_relocation(ctx)
            } else {
                (
                    ctx,
                    PollView::Pending {
                        step: V3Step::CreatingSnapshots,
                        action: ActionView::CreateSubvolume { path: Self::snapshots_path(ctx) },
                    },
                )
            },
            V3Step::CreatingSnapshots => (
                ctx,
                unless(
                    SubvolumeHelper::creation_failure(outcome),
                    PollView::Pending {
                        step: V3Step::SettingMode,
                        action: ActionView::SetMode {
                            path: Self::snapshots_path(ctx),
                            mode: SNAPSHOTS_MODE,
                        },
                    },
                ),
            ),
            V3Step::SettingMode => match outcome.failure_unless_started(
                "Failed to set permissions: "@,
                "Permissions setup"@,
            ) {
                Some(failure) => (ctx, PollView::Failed { failure }),
                None => Self::spec_enter_relocation(ctx),
            },
            V3Step::Relocating { inner } => (
                HomeDataMigrator::spec_migrate(ctx, inner, outcome).0,
                HomeDataMigrator::spec_migrate(ctx, inner, outcome).1.wrap(
                    |s: HomeStep| V3Step::Relocating { inner: s },
                ),
            ),
        }
    }

    pub fn begin_migrate(ctx: &mut MigrationContext) -> (begun: (V3Step, Action))
        ensures
            (final(ctx)@, (begun.0, begun.1@)) == Self::spec_begin_migrate(old(ctx)@),
    {
        ctx.log_step();
        (
            V3Step::ShowingMessage,
            Self::show_plymouth_message("Migrating to v3 rootfs. Setting up @home structure."),
        )
    }

    fn snapshots(ctx: &MigrationContext) -> (path: String)
        ensures
            path@ == Self::snapshots_path(ctx@),
    {
        let home_subvol = ctx.path("@home");
        join_path(home_subvol.as_str(), ".snapshots")
    }

    fn check_snapshots(ctx: &MigrationContext) -> (poll: Poll<V3Step, ()>)
        ensures
            (ctx@, poll@) == Self::spec_check_snapshots(ctx@),
    {
        Poll::Pending {
            step: V3Step::CheckingSnapshots,
            action: Action::PathExists { path: Self::snapshots(ctx) },
        }
    }

    fn enter_relocation(ctx: &mut MigrationContext) -> (poll: Poll<V3Step, ()>)
        ensures
            (final(ctx)@, poll@) == Self::spec_enter_relocation(old(ctx)@),
    {
        let (inner, action) = HomeDataMigrator::begin_migrate(ctx);
        Poll::Pending { step: V3Step::Relocating { inner }, action }
    }

    pub fn migrate(ctx: &mut MigrationContext, step: V3Step, outcome: Outcome) -> (poll: Poll<
        V3Step,
        (),
    >)
        ensures
            (final(ctx)@, poll@) == Self::spec_migrate(old(ctx)@, step, outcome@),
    {
        proof {
            reveal(RootFsV3Migrator::spec_migrate);
        }
        match step {
            V3Step::ShowingMessage => {
                match outcome.failure_unless_started("Failed to show plymouth message: ", "UI") {
                    Some(failure) => Poll::Failed { failure },
                    None => Poll::Pending {
                        step: V3Step::CheckingHome,
                        action: Action::PathExists { path: ctx.path("@home") },
                    },
                }
            },
            V3Step::CheckingHome => {
                if outcome.affirmed() {
                    Self::check_snapshots(ctx)
                } else {
                    let home_subvol = ctx.path("@home");
                    Poll::Pending {
                        step: V3Step::CreatingHome,
                        action: SubvolumeHelper::create_subvolume(home_subvol.as_str()),
                    }
                }
            },
            V3Step::CreatingHome => {
                match SubvolumeHelper::created(&outcome) {
                    Some(failure) => Poll::Failed { failure },
                    None => Self::check_snapshots(ctx),
                }
            },
            V3Step::CheckingSnapshots => {
                if outcome.affirmed() {
                    Self::enter_relocation(ctx)
                } else {
                    let snapshots = Self::snapshots(ctx);
                    Poll::Pending {
                        step: V3Step::CreatingSnapshots,
                        action: SubvolumeHelper::create_subvolume(snapshots.as_str()),
                    }
                }
            },
            V3Step::CreatingSnapshots => {
                match SubvolumeHelper::created(&outcome) {
                    Some(failure) => Poll::Failed { failure },
                    None => Poll::Pending {
                        step: V3Step::SettingMode,
                        action: Action::SetMode { path: Self::snapshots(ctx), mode: SNAPSHOTS_MODE },
                    },
                }
            },
            V3Step::SettingMode => {
                match outcome.failure_unless_started(
                    "Failed to set permissions: ",
                    "Permissions setup",
                ) {
                    Some(failure) => Poll::Failed { failure },
                    None => Self::enter_relocation(ctx),
                }
            },
            V3Step::Relocating { inner } => {
                match HomeDataMigrator::migrate(ctx, inner, outcome) {
                    Poll::Pending { step, action } => Poll::Pending {
                        step: V3Step::Relocating { inner: step },
                        action,
                    },
                    Poll::Ready { value } => Poll::Ready { value },
                    Poll::Failed { failure } => Poll::Failed { failure },
                }
            },
        }
    }
}


pub proof fn lemma_check_asks(ctx: ContextView, step: CheckStep, outcome: OutcomeView)
    ensures
        asked_as(
            RootFsV3Checker::spec_needs_migration(ctx, step, outcome),
            |s: CheckStep| s.asks(),
        ),
{
    reveal(RootFsV3Checker::spec_needs_migration);
}

/// Every step of the migration to the third epoch asks for what it waits
/// for, and changes nothing of the context but the listing and the number
/// of phases.
pub proof fn lemma_v3_step(ctx: ContextView, step: V3Step, outcome: OutcomeView)
    ensures
        asked_as(RootFsV3Migrator::spec_migrate(ctx, step, outcome).1, |s: V3Step| s.asks()),
        ctx.same_but_listing(RootFsV3Migrator::spec_migrate(ctx, step, outcome).0),
{
    reveal(RootFsV3Migrator::spec_migrate);
    if let V3Step::Relocating { inner } = step {
        crate::home::lemma_home_step(ctx, inner, outcome);
    }
}

} // verus!
