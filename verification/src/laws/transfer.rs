//! The backup outlives the transfer of the home data.

use vstd::prelude::*;
use crate::action::{ActionView, OutcomeView, PollView};
use crate::context::{joined, ContextView};
use crate::home::{
    home_backup, home_subvolume, lemma_next_to_transfer, snapshots_entry, CleanupStep,
    HomeDataMigrator, HomeStep, TransferStep,
};
use crate::laws::trace::{
    action_at, lemma_state_step, lemma_typed, reportable, stands_at, state_at,
};
use crate::rootfs_v2::RootFsV2Migrator;
use crate::rootfs_v3::{RootFsV3Migrator, V3Step};
use crate::run::{spec_run_migrations, RunStep};

verus! {

/// The backup of the legacy home below `root`.
pub open spec fn backup_of(root: Seq<char>) -> Seq<char> {
    joined(root, home_backup())
}

/// The request that copies the directory `name` of the backup into the
/// home subvolume.
pub open spec fn directory_transfer(root: Seq<char>, name: Seq<char>) -> ActionView {
    ActionView::CopyContents {
        source: joined(joined(backup_of(root), name), "."@),
        target: joined(joined(root, home_subvolume()), name),
    }
}

/// The request that copies the file `name` of the backup into the home
/// subvolume.
pub open spec fn file_transfer(root: Seq<char>, name: Seq<char>) -> ActionView {
    ActionView::CopyFile {
        source: joined(backup_of(root), name),
        target: joined(joined(root, home_subvolume()), name),
    }
}

/// A step of the transfer into the home subvolume.
pub open spec fn transferring(inner: TransferStep) -> RunStep {
    RunStep::V3 {
        inner: V3Step::Relocating { inner: HomeStep::Transferring { inner } },
    }
}

/// The step that waits for the backup to be deleted after the transfer.
pub open spec fn cleaning_up() -> RunStep {
    RunStep::V3 {
        inner: V3Step::Relocating {
            inner: HomeStep::CleaningUp { inner: CleanupStep::Deleting },
        },
    }
}

/// Whether every entry from `from` up to `to` is a `.snapshots` entry.
pub open spec fn skipped(listing: Seq<Seq<char>>, from: int, to: int) -> bool {
    forall|j: int| from <= j < to ==> #[trigger] listing[j] == snapshots_entry()
}

/// Whether a transfer step stands at entry `index`.
pub open spec fn transfers_entry(step: TransferStep, index: int) -> bool {
    match step {
        TransferStep::Listing => false,
        TransferStep::Probing { index: i } => i == index,
        TransferStep::CopyingDirectory { index: i, inner } => i == index,
        TransferStep::CopyingFile { index: i } => i == index,
    }
}

/// Whether the answer to a transfer step completes its entry.
pub open spec fn completes_entry(step: TransferStep, outcome: OutcomeView) -> bool {
    outcome is Done && (step is CopyingFile || (step matches TransferStep::CopyingDirectory {
        index,
        inner,
    } && inner is Copying))
}

/// How a step of the transfer relates to the one before: entry `index`
/// is turned to when the listing has come in or the entry before it is
/// complete, and everything between is skipped.
spec fn turned_to(
    before: Seq<Seq<char>>,
    step: TransferStep,
    outcome: OutcomeView,
    listing: Seq<Seq<char>>,
    index: int,
) -> bool {
    ||| step is Listing && outcome == (OutcomeView::Entries { names: listing }) && skipped(
        listing,
        0,
        index,
    )
    ||| exists|i: int|
        0 <= i < index && #[trigger] transfers_entry(step, i) && completes_entry(step, outcome)
            && listing == before && skipped(listing, i + 1, index)
}

spec fn transfer_frame_order(
    root: Seq<char>,
    before: Seq<Seq<char>>,
    step: TransferStep,
    outcome: OutcomeView,
    listing: Seq<Seq<char>>,
    poll: PollView<TransferStep, ()>,
) -> bool {
    match poll {
        PollView::Pending { step: next, action } => match next {
            TransferStep::Listing => false,
            TransferStep::Probing { index } => {
                &&& index < listing.len()
                &&& listing[index as int] != snapshots_entry()
                &&& turned_to(before, step, outcome, listing, index as int)
            },
            TransferStep::CopyingDirectory { index, inner } => {
                &&& listing == before
                &&& index < listing.len()
                &&& step is Probing || step is CopyingDirectory
                &&& transfers_entry(step, index as int)
                &&& inner is Copying ==> action == directory_transfer(root, listing[index as int])
            },
            TransferStep::CopyingFile { index } => {
                &&& listing == before
                &&& index < listing.len()
                &&& step is Probing
                &&& transfers_entry(step, index as int)
                &&& action == file_transfer(root, listing[index as int])
            },
        },
        PollView::Ready { value } => transfer_finished(before, step, outcome, listing),
        PollView::Failed { failure } => true,
    }
}

/// How the end of the transfer relates to the step before.
spec fn transfer_finished(
    before: Seq<Seq<char>>,
    step: TransferStep,
    outcome: OutcomeView,
    listing: Seq<Seq<char>>,
) -> bool {
    turned_to(before, step, outcome, listing, listing.len() as int)
}

proof fn lemma_transfer_frame_order(ctx: ContextView, step: TransferStep, outcome: OutcomeView)
    requires
        outcome.reportable(),
        !(step is Listing) ==> ctx.listing.len() <= usize::MAX,
        !(step is Listing) ==> exists|i: int|
            0 <= i < ctx.listing.len() && #[trigger] transfers_entry(step, i),
    ensures
        transfer_frame_order(
            ctx.root_path,
            ctx.listing,
            step,
            outcome,
            HomeDataMigrator::spec_transfer_home_data(
                ctx,
                ctx.path(home_backup()),
                ctx.path(home_subvolume()),
                step,
                outcome,
            ).0.listing,
            HomeDataMigrator::spec_transfer_home_data(
                ctx,
                ctx.path(home_backup()),
                ctx.path(home_subvolume()),
                step,
                outcome,
            ).1,
        ),
{
    reveal(HomeDataMigrator::spec_transfer_home_data);
    reveal(HomeDataMigrator::spec_copy_directory_contents);
    let result = HomeDataMigrator::spec_transfer_home_data(
        ctx,
        ctx.path(home_backup()),
        ctx.path(home_subvolume()),
        step,
        outcome,
    );
    let listing = result.0.listing;
    match step {
        TransferStep::Listing => {
            if let OutcomeView::Entries { names } = outcome {
                lemma_next_to_transfer(names, 0);
            }
        },
        TransferStep::Probing { index } => {},
        TransferStep::CopyingDirectory { index, inner } => {
            lemma_next_to_transfer(ctx.listing, index + 1);
            assert(transfers_entry(step, index as int));
        },
        TransferStep::CopyingFile { index } => {
            lemma_next_to_transfer(ctx.listing, index + 1);
            assert(transfers_entry(step, index as int));
        },
    }
}

/// How a step around the transfer relates to the one before.
spec fn transfer_order(
    ctx: ContextView,
    step: RunStep,
    outcome: OutcomeView,
    after: ContextView,
    poll: PollView<RunStep, ()>,
) -> bool {
    poll matches PollView::Pending { step: next, action } ==> {
        &&& next == transferring(TransferStep::Listing) ==> action == (ActionView::ListDirectory {
            path: backup_of(ctx.root_path),
        })
        &&& forall|inner: TransferStep|
            next == transferring(inner) && !(inner is Listing) ==> exists|before: TransferStep|
                step == transferring(before) && #[trigger] transfer_frame_order(
                    ctx.root_path,
                    ctx.listing,
                    before,
                    outcome,
                    after.listing,
                    PollView::Pending { step: inner, action },
                )
        &&& next == cleaning_up() ==> action == (ActionView::DeleteSubvolume {
            path: backup_of(ctx.root_path),
        }) && exists|before: TransferStep|
            step == transferring(before) && #[trigger] transfer_finished(
                ctx.listing,
                before,
                outcome,
                after.listing,
            )
    }
}

proof fn lemma_home_transfer_order(ctx: ContextView, step: HomeStep, outcome: OutcomeView)
    requires
        outcome.reportable(),
        forall|inner: TransferStep|
            step == (HomeStep::Transferring { inner }) && !(inner is Listing) ==> ctx.listing.len()
                <= usize::MAX,
        forall|inner: TransferStep|
            step == (HomeStep::Transferring { inner }) && !(inner is Listing) ==> exists|i: int|
                0 <= i < ctx.listing.len() && #[trigger] transfers_entry(inner, i),
    ensures
        HomeDataMigrator::spec_migrate(ctx, step, outcome).1 matches PollView::Pending {
            step: next,
            action,
        } ==> transfer_order(
            ctx,
            RunStep::V3 { inner: V3Step::Relocating { inner: step } },
            outcome,
            HomeDataMigrator::spec_migrate(ctx, step, outcome).0,
            PollView::Pending {
                step: RunStep::V3 { inner: V3Step::Relocating { inner: next } },
                action,
            },
        ),
{
    reveal(HomeDataMigrator::spec_migrate);
    let after = HomeDataMigrator::spec_migrate(ctx, step, outcome).0;
    let poll = HomeDataMigrator::spec_migrate(ctx, step, outcome).1;
    match step {
        HomeStep::Transferring { inner } => {
            lemma_transfer_frame_order(ctx, inner, outcome);
            crate::home::lemma_transfer_step(
                ctx,
                ctx.path(home_backup()),
                ctx.path(home_subvolume()),
                inner,
                outcome,
            );
            let frame = HomeDataMigrator::spec_transfer_home_data(
                ctx,
                ctx.path(home_backup()),
                ctx.path(home_subvolume()),
                inner,
                outcome,
            );
            assert(step == HomeStep::Transferring { inner });
            match poll {
                PollView::Pending { step: next, action } => {
                    if let HomeStep::Transferring { inner: next_inner } = next {
                        assert(frame.1 == PollView::<TransferStep, ()>::Pending {
                            step: next_inner,
                            action,
                        });
                        assert(transfer_frame_order(
                            ctx.root_path,
                            ctx.listing,
                            inner,
                            outcome,
                            after.listing,
                            PollView::Pending { step: next_inner, action },
                        ));
                    }
                    if next == (HomeStep::CleaningUp { inner: CleanupStep::Deleting }) {
                        assert(frame.1 is Ready);
                        assert(transfer_finished(ctx.listing, inner, outcome, after.listing));
                    }
                },
                _ => {},
            }
        },
        HomeStep::CleaningUp { inner } => {
            reveal(HomeDataMigrator::spec_cleanup_backup);
        },
        _ => {},
    }
}

proof fn lemma_transfer_order(ctx: ContextView, step: RunStep, outcome: OutcomeView)
    requires
        outcome.reportable(),
        forall|inner: TransferStep|
            step == #[trigger] transferring(inner) && !(inner is Listing) ==> ctx.listing.len()
                <= usize::MAX,
        forall|inner: TransferStep|
            step == transferring(inner) && !(inner is Listing) ==> exists|i: int|
                0 <= i < ctx.listing.len() && #[trigger] transfers_entry(inner, i),
    ensures
        transfer_order(
            ctx,
            step,
            outcome,
            spec_run_migrations(ctx, step, outcome).0,
            spec_run_migrations(ctx, step, outcome).1,
        ),
{
    reveal(spec_run_migrations);
    reveal(RootFsV3Migrator::spec_migrate);
    match step {
        RunStep::V3 { inner: V3Step::Relocating { inner } } => {
            if let HomeStep::Transferring { inner: ts } = inner {
                assert(step == transferring(ts));
            }
            lemma_home_transfer_order(ctx, inner, outcome);
        },
        RunStep::V2 { inner } => {
            reveal(RootFsV2Migrator::spec_migrate);
        },
        _ => {},
    }
}

/// Whether action `j` of the run moved the entry `name` of the backup
/// into the home subvolume, and succeeded.
pub open spec fn transferred_at(root: Seq<char>, outcomes: Seq<OutcomeView>, j: int, name: Seq<char>) -> bool {
    &&& 0 <= j < outcomes.len()
    &&& outcomes[j] is Done
    &&& action_at(root, outcomes, j) == Some(directory_transfer(root, name)) || action_at(
        root,
        outcomes,
        j,
    ) == Some(file_transfer(root, name))
}

/// Whether one of the first `n` actions of the run moved the entry
/// `name`, and succeeded.
pub open spec fn transferred_before(
    root: Seq<char>,
    outcomes: Seq<OutcomeView>,
    n: int,
    name: Seq<char>,
) -> bool {
    exists|j: int| j < n && #[trigger] transferred_at(root, outcomes, j, name)
}

/// Whether action `l` of the run listed the backup and got `names`.
pub open spec fn backup_listed_at(
    root: Seq<char>,
    outcomes: Seq<OutcomeView>,
    l: int,
    names: Seq<Seq<char>>,
) -> bool {
    &&& 0 <= l < outcomes.len()
    &&& action_at(root, outcomes, l) == Some(ActionView::ListDirectory { path: backup_of(root) })
    &&& outcomes[l] == (OutcomeView::Entries { names })
}

/// Whether, among the first `n` actions of the run, the backup was listed
/// as `names` and the first `m` of these entries were moved, each but
/// the `.snapshots` entries, each with success.
pub open spec fn transferred_up_to(
    root: Seq<char>,
    outcomes: Seq<OutcomeView>,
    n: int,
    names: Seq<Seq<char>>,
    m: int,
) -> bool {
    &&& exists|l: int| l < n && #[trigger] backup_listed_at(root, outcomes, l, names)
    &&& forall|i: int|
        0 <= i < m && names[i] != snapshots_entry() ==> transferred_before(
            root,
            outcomes,
            n,
            #[trigger] names[i],
        )
}

/// Whether the first `n` actions of the run have moved the whole backup
/// into the home subvolume.
pub open spec fn transfer_complete(root: Seq<char>, outcomes: Seq<OutcomeView>, n: int) -> bool {
    exists|names: Seq<Seq<char>>| #[trigger]
        transferred_up_to(root, outcomes, n, names, names.len() as int)
}

spec fn transfer_inv(root: Seq<char>, outcomes: Seq<OutcomeView>, n: int) -> bool {
    let state = state_at(root, outcomes, n);
    state.poll matches PollView::Pending { step, action } ==> {
        &&& forall|inner: TransferStep|
            step == #[trigger] transferring(inner) && !(inner is Listing)
                ==> state.ctx.listing.len() <= usize::MAX
        &&& step == transferring(TransferStep::Listing) ==> action == (ActionView::ListDirectory {
            path: backup_of(root),
        })
        &&& forall|inner: TransferStep|
            step == transferring(inner) && !(inner is Listing) ==> exists|i: int|
                {
                    &&& 0 <= i < state.ctx.listing.len()
                    &&& #[trigger] transfers_entry(inner, i)
                    &&& transferred_up_to(root, outcomes, n, state.ctx.listing, i)
                    &&& inner is CopyingFile ==> action == file_transfer(
                        root,
                        state.ctx.listing[i],
                    )
                    &&& (inner matches TransferStep::CopyingDirectory { index, inner: copy }
                        && copy is Copying) ==> action == directory_transfer(
                        root,
                        state.ctx.listing[i],
                    )
                }
        &&& step == cleaning_up() ==> action == (ActionView::DeleteSubvolume {
            path: backup_of(root),
        }) && transferred_up_to(
            root,
            outcomes,
            n,
            state.ctx.listing,
            state.ctx.listing.len() as int,
        )
    }
}

proof fn lemma_transferred_grows(
    root: Seq<char>,
    outcomes: Seq<OutcomeView>,
    n: int,
    names: Seq<Seq<char>>,
    m: int,
)
    requires
        transferred_up_to(root, outcomes, n, names, m),
    ensures
        transferred_up_to(root, outcomes, n + 1, names, m),
{
    let l = choose|l: int| l < n && #[trigger] backup_listed_at(root, outcomes, l, names);
    assert(backup_listed_at(root, outcomes, l, names));
    assert forall|i: int| 0 <= i < m && names[i] != snapshots_entry() implies transferred_before(
        root,
        outcomes,
        n + 1,
        #[trigger] names[i],
    ) by {
        let j = choose|j: int| j < n && #[trigger] transferred_at(root, outcomes, j, names[i]);
        assert(transferred_at(root, outcomes, j, names[i]));
    }
}

/// After the entry at `i` was moved by action `n`, and with everything
/// from there up to `index` skipped, the first `index` entries are moved.
proof fn lemma_transferred_next(
    root: Seq<char>,
    outcomes: Seq<OutcomeView>,
    n: int,
    names: Seq<Seq<char>>,
    i: int,
    index: int,
)
    requires
        0 <= i < index <= names.len(),
        transferred_up_to(root, outcomes, n, names, i),
        transferred_at(root, outcomes, n, names[i]),
        skipped(names, i + 1, index),
    ensures
        transferred_up_to(root, outcomes, n + 1, names, index),
{
    lemma_transferred_grows(root, outcomes, n, names, i);
    assert forall|e: int| 0 <= e < index && names[e] != snapshots_entry() implies transferred_before(
        root,
        outcomes,
        n + 1,
        #[trigger] names[e],
    ) by {
        if e == i {
            assert(transferred_at(root, outcomes, n, names[e]));
        } else if e > i {
            assert(names[e] == snapshots_entry());
        }
    }
}

proof fn lemma_transfer_inv(root: Seq<char>, outcomes: Seq<OutcomeView>, n: int)
    requires
        0 <= n <= outcomes.len(),
        reportable(outcomes),
    ensures
        transfer_inv(root, outcomes, n),
    decreases n,
{
    if n == 0 {
        reveal(RootFsV2Migrator::spec_migrate);
        assert(outcomes.take(0).len() == 0);
    } else {
        lemma_transfer_inv(root, outcomes, n - 1);
        lemma_typed(root, outcomes, n - 1);
        lemma_state_step(root, outcomes, n - 1);
        let state = state_at(root, outcomes, n - 1);
        let after = state_at(root, outcomes, n);
        let outcome = outcomes[n - 1];
        if let PollView::Pending { step, action } = state.poll {
            assert(action_at(root, outcomes, n - 1) == Some(action));
            lemma_transfer_order(state.ctx, step, outcome);
            if let PollView::Pending { step: next, action: next_action } = after.poll {
                assert forall|inner: TransferStep|
                    next == transferring(inner) && !(inner is Listing) implies exists|i: int|
                    {
                        &&& 0 <= i < after.ctx.listing.len()
                        &&& #[trigger] transfers_entry(inner, i)
                        &&& transferred_up_to(root, outcomes, n, after.ctx.listing, i)
                        &&& inner is CopyingFile ==> next_action == file_transfer(
                            root,
                            after.ctx.listing[i],
                        )
                        &&& (inner matches TransferStep::CopyingDirectory { index, inner: copy }
                            && copy is Copying) ==> next_action == directory_transfer(
                            root,
                            after.ctx.listing[i],
                        )
                    } by {
                    let before = choose|before: TransferStep|
                        step == transferring(before) && #[trigger] transfer_frame_order(
                            state.ctx.root_path,
                            state.ctx.listing,
                            before,
                            outcome,
                            after.ctx.listing,
                            PollView::Pending { step: inner, action: next_action },
                        );
                    let index = match inner {
                        TransferStep::Probing { index } => index as int,
                        TransferStep::CopyingDirectory { index, inner } => index as int,
                        TransferStep::CopyingFile { index } => index as int,
                        TransferStep::Listing => 0,
                    };
                    assert(transfers_entry(inner, index));
                    lemma_transfer_reaches(
                        root,
                        outcomes,
                        n - 1,
                        before,
                        inner is Probing,
                        index,
                    );
                }
                if next == cleaning_up() {
                    let before = choose|before: TransferStep|
                        step == transferring(before) && #[trigger] transfer_finished(
                            state.ctx.listing,
                            before,
                            outcome,
                            after.ctx.listing,
                        );
                    lemma_transfer_reaches(
                        root,
                        outcomes,
                        n - 1,
                        before,
                        true,
                        after.ctx.listing.len() as int,
                    );
                }
            }
        }
    }
}

/// The step of the induction: what was moved before action `n`, and what
/// action `n` added, covers the entries before `index`.
proof fn lemma_transfer_reaches(
    root: Seq<char>,
    outcomes: Seq<OutcomeView>,
    n: int,
    before: TransferStep,
    turned: bool,
    index: int,
)
    requires
        0 <= n < outcomes.len(),
        transfer_inv(root, outcomes, n),
        state_at(root, outcomes, n).ctx.root_path == root,
        stands_at(state_at(root, outcomes, n).poll, transferring(before)),
        0 <= index <= state_at(root, outcomes, n + 1).ctx.listing.len(),
        if turned {
            turned_to(
                state_at(root, outcomes, n).ctx.listing,
                before,
                outcomes[n],
                state_at(root, outcomes, n + 1).ctx.listing,
                index,
            )
        } else {
            &&& state_at(root, outcomes, n + 1).ctx.listing == state_at(root, outcomes, n).ctx.listing
            &&& transfers_entry(before, index)
        },
    ensures
        transferred_up_to(
            root,
            outcomes,
            n + 1,
            state_at(root, outcomes, n + 1).ctx.listing,
            index,
        ),
{
    let state = state_at(root, outcomes, n);
    let listing = state_at(root, outcomes, n + 1).ctx.listing;
    let action = state.poll->Pending_action;
    assert(action_at(root, outcomes, n) == Some(action));
    if before is Listing {
        assert(backup_listed_at(root, outcomes, n, listing));
        assert forall|e: int| 0 <= e < index && listing[e] != snapshots_entry() implies transferred_before(
            root,
            outcomes,
            n + 1,
            #[trigger] listing[e],
        ) by {
            assert(listing[e] == snapshots_entry());
        }
    } else {
        let held = choose|i: int|
            {
                &&& 0 <= i < state.ctx.listing.len()
                &&& #[trigger] transfers_entry(before, i)
                &&& transferred_up_to(root, outcomes, n, state.ctx.listing, i)
                &&& before is CopyingFile ==> action == file_transfer(
                    root,
                    state.ctx.listing[i],
                )
                &&& (before matches TransferStep::CopyingDirectory { index, inner: copy }
                    && copy is Copying) ==> action == directory_transfer(
                    root,
                    state.ctx.listing[i],
                )
            };
        if turned {
            let i = choose|i: int|
                0 <= i < index && #[trigger] transfers_entry(before, i) && completes_entry(
                    before,
                    outcomes[n],
                ) && listing == state.ctx.listing && skipped(listing, i + 1, index);
            assert(i == held);
            assert(transferred_at(root, outcomes, n, listing[i]));
            lemma_transferred_next(root, outcomes, n, listing, i, index);
        } else {
            assert(index == held);
            lemma_transferred_grows(root, outcomes, n, listing, index);
        }
    }
}

/// The backup is deleted after the transfer only when the transfer is
/// complete: the backup was listed, and every entry of that listing but
/// `.snapshots` was copied into the home subvolume with success.
pub proof fn law_backup_outlives_the_transfer(root: Seq<char>, outcomes: Seq<OutcomeView>, k: int)
    requires
        0 <= k <= outcomes.len(),
        reportable(outcomes),
        stands_at(state_at(root, outcomes, k).poll, cleaning_up()),
    ensures
        action_at(root, outcomes, k) == Some(
            ActionView::DeleteSubvolume { path: backup_of(root) },
        ),
        transfer_complete(root, outcomes, k),
{
    lemma_transfer_inv(root, outcomes, k);
    let listing = state_at(root, outcomes, k).ctx.listing;
    assert(transferred_up_to(root, outcomes, k, listing, listing.len() as int));
}

/// A transfer that fails ends the run: nothing is asked for after it, so
/// the backup is still there.
pub proof fn law_failed_transfer_ends_the_run(
    root: Seq<char>,
    outcomes: Seq<OutcomeView>,
    k: int,
    inner: TransferStep,
    later: int,
)
    requires
        0 <= k < later <= outcomes.len(),
        stands_at(state_at(root, outcomes, k).poll, transferring(inner)),
        !stands_at(state_at(root, outcomes, k + 1).poll, cleaning_up()),
        !(exists|next: TransferStep|
            stands_at(state_at(root, outcomes, k + 1).poll, #[trigger] transferring(next))),
    ensures
        state_at(root, outcomes, k + 1).poll is Failed,
        action_at(root, outcomes, later) is None,
    decreases later - k,
{
    lemma_state_step(root, outcomes, k);
    let state = state_at(root, outcomes, k);
    assert(state_at(root, outcomes, k + 1).poll is Failed) by {
        reveal(spec_run_migrations);
        reveal(RootFsV3Migrator::spec_migrate);
        reveal(HomeDataMigrator::spec_migrate);
        let poll = state_at(root, outcomes, k + 1).poll;
        if let PollView::Pending { step: next, action } = poll {
            if let RunStep::V3 {
                inner: V3Step::Relocating { inner: HomeStep::Transferring { inner: ts } },
            } = next {
                assert(stands_at(poll, transferring(ts)));
            }
        }
    }
    lemma_failed_stays(root, outcomes, k + 1, later);
}

proof fn lemma_failed_stays(root: Seq<char>, outcomes: Seq<OutcomeView>, n: int, later: int)
    requires
        0 <= n <= later <= outcomes.len(),
        !(state_at(root, outcomes, n).poll is Pending),
    ensures
        state_at(root, outcomes, later) == state_at(root, outcomes, n),
    decreases later - n,
{
    if later > n {
        lemma_failed_stays(root, outcomes, n, later - 1);
        lemma_state_step(root, outcomes, later - 1);
    }
}

} // verus!
