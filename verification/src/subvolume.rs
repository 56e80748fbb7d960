use vstd::prelude::*;
use crate::action::{Action, ActionView, Outcome, OutcomeView};
use crate::error::{Failure, FailureView};

verus! {

/// The inode number that the root of every subvolume carries.
pub const SUBVOLUME_ROOT_INODE: u64 = 256;

/// The primitive subvolume operations: what to ask for, and how to read
/// the answer.
pub struct SubvolumeHelper;

impl SubvolumeHelper {
    /// Whether the answer to an inode query says that the path is the root
    /// of a subvolume. A path whose inode could not be read is none.
    pub open spec fn spec_is_subvolume(outcome: OutcomeView) -> bool {
        outcome matches OutcomeView::Inode { number } && number == SUBVOLUME_ROOT_INODE
    }

    pub open spec fn creation_failure(outcome: OutcomeView) -> Option<FailureView> {
        outcome.failure_unless_done("Failed to create subvolume: "@, "Subvolume creation"@)
    }

    pub open spec fn snapshot_failure(outcome: OutcomeView) -> Option<FailureView> {
        outcome.failure_unless_done("Failed to create snapshot: "@, "Snapshot creation"@)
    }

    pub open spec fn deletion_failure(outcome: OutcomeView) -> Option<FailureView> {
        outcome.failure_unless_done("Failed to delete subvolume: "@, "Subvolume deletion"@)
    }

    pub fn is_subvolume(outcome: &Outcome) -> (b: bool)
        ensures
            b == Self::spec_is_subvolume(outcome@),
    {
        match outcome {
            Outcome::Inode { number } => *number == SUBVOLUME_ROOT_INODE,
            _ => false,
        }
    }

    pub fn create_subvolume(path: &str) -> (action: Action)
        ensures
            action@ == (ActionView::CreateSubvolume { path: path@ }),
    {
        Action::CreateSubvolume { path: String::from_str(path) }
    }

    pub fn create_snapshot(source: &str, target: &str) -> (action: Action)
        ensures
            action@ == (ActionView::CreateSnapshot { source: source@, target: target@ }),
    {
        Action::CreateSnapshot { source: String::from_str(source), target: String::from_str(target) }
    }

    pub fn delete_subvolume(path: &str) -> (action: Action)
        ensures
            action@ == (ActionView::DeleteSubvolume { path: path@ }),
    {
        Action::DeleteSubvolume { path: String::from_str(path) }
    }

    /// Reads the answer to `CreateSubvolume`.
    pub fn created(outcome: &Outcome) -> (failure: Option<Failure>)
        ensures
            failure.is_some() == Self::creation_failure(outcome@).is_some(),
            failure matches Some(f) ==> Some(f@) == Self::creation_failure(outcome@),
    {
        outcome.failure_unless_done("Failed to create subvolume: ", "Subvolume creation")
    }

    /// Reads the answer to `CreateSnapshot`.
    pub fn snapshotted(outcome: &Outcome) -> (failure: Option<Failure>)
        ensures
            failure.is_some() == Self::snapshot_failure(outcome@).is_some(),
            failure matches Some(f) ==> Some(f@) == Self::snapshot_failure(outcome@),
    {
        outcome.failure_unless_done("Failed to create snapshot: ", "Snapshot creation")
    }

    /// Reads the answer to `DeleteSubvolume`.
    pub fn deleted(outcome: &Outcome) -> (failure: Option<Failure>)
        ensures
            failure.is_some() == Self::deletion_failure(outcome@).is_some(),
            failure matches Some(f) ==> Some(f@) == Self::deletion_failure(outcome@),
    {
        outcome.failure_unless_done("Failed to delete subvolume: ", "Subvolume deletion")
    }
}

} // verus!
