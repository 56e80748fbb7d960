use vstd::prelude::*;
use crate::error::{Failure, FailureView, MigrationError, MigrationErrorView};

verus! {

/// One operation on the outside world that the caller is asked to perform.
///
/// Observations (`PathExists`, `InodeNumber`, `IsDirectory`, `ListDirectory`,
/// `ReadFstab`) change nothing; every other action may.
#[derive(Clone, Debug, PartialEq, Eq)]
pub enum Action {
    /// Does anything exist at `path`? Answered with a flag.
    PathExists { path: String },
    /// The inode number of `path`. Answered with an inode.
    InodeNumber { path: String },
    /// Is `path` a directory? Answered with a flag.
    IsDirectory { path: String },
    /// The names of the immediate children of `path`. Answered with entries.
    ListDirectory { path: String },
    /// The filesystem type of every entry of the mount table at `path`.
    /// Answered with entries.
    ReadFstab { path: String },
    CreateSubvolume { path: String },
    /// Recursive copy-on-write clone of the subvolume `source` at `target`.
    CreateSnapshot { source: String, target: String },
    /// Recursive removal of the subvolume at `path`.
    DeleteSubvolume { path: String },
    /// Mount an overlay filesystem with the given option string on `target`.
    MountOverlay { options: String, target: String },
    Unmount { target: String },
    /// Copy the tree `source` to `target` itself, keeping ownership,
    /// permissions, extended attributes and timestamps, sharing extents
    /// where the filesystem can.
    CopyTree { source: String, target: String },
    /// Copy what `source` contains into the directory `target`, with the
    /// same guarantees as `CopyTree`.
    CopyContents { source: String, target: String },
    /// Copy the single file `source` to `target`, keeping its metadata.
    CopyFile { source: String, target: String },
    RemoveDirAll { path: String },
    RemoveFile { path: String },
    CreateDirAll { path: String },
    Rename { from: String, to: String },
    /// Set the permission bits of `path`.
    SetMode { path: String, mode: u32 },
    /// Wait until pending device events are handled, at most `timeout`
    /// seconds.
    SettleDevices { timeout: u32 },
    /// Show `text` on the boot splash.
    ShowMessage { text: String },
    /// Show the operator the names of what the directory `path` holds.
    ShowContents { path: String },
    HideSplash,
    ShowQrCode { url: String },
    /// Tell the operator that `concerning` mount-table entries were found and
    /// ask `prompt`. Answered with a flag.
    Confirm { concerning: usize, prompt: String },
    Reboot,
}

/// What an [`Action`] asks for, without its arguments.
#[derive(Clone, Copy, Debug, PartialEq, Eq, Structural)]
pub enum ActionKind {
    PathExists,
    InodeNumber,
    IsDirectory,
    ListDirectory,
    ReadFstab,
    CreateSubvolume,
    CreateSnapshot,
    DeleteSubvolume,
    MountOverlay,
    Unmount,
    CopyTree,
    CopyContents,
    CopyFile,
    RemoveDirAll,
    RemoveFile,
    CreateDirAll,
    Rename,
    SetMode,
    SettleDevices,
    ShowMessage,
    ShowContents,
    HideSplash,
    ShowQrCode,
    Confirm,
    Reboot,
}

/// Mathematical model of an [`Action`].
pub enum ActionView {
    PathExists { path: Seq<char> },
    InodeNumber { path: Seq<char> },
    IsDirectory { path: Seq<char> },
    ListDirectory { path: Seq<char> },
    ReadFstab { path: Seq<char> },
    CreateSubvolume { path: Seq<char> },
    CreateSnapshot { source: Seq<char>, target: Seq<char> },
    DeleteSubvolume { path: Seq<char> },
    MountOverlay { options: Seq<char>, target: Seq<char> },
    Unmount { target: Seq<char> },
    CopyTree { source: Seq<char>, target: Seq<char> },
    CopyContents { source: Seq<char>, target: Seq<char> },
    CopyFile { source: Seq<char>, target: Seq<char> },
    RemoveDirAll { path: Seq<char> },
    RemoveFile { path: Seq<char> },
    CreateDirAll { path: Seq<char> },
    Rename { from: Seq<char>, to: Seq<char> },
    SetMode { path: Seq<char>, mode: u32 },
    SettleDevices { timeout: u32 },
    ShowMessage { text: Seq<char> },
    ShowContents { path: Seq<char> },
    HideSplash,
    ShowQrCode { url: Seq<char> },
    Confirm { concerning: usize, prompt: Seq<char> },
    Reboot,
}

impl View for Action {
    type V = ActionView;

    open spec fn view(&self) -> ActionView {
        match *self {
            Action::PathExists { path } => ActionView::PathExists { path: path@ },
            Action::InodeNumber { path } => ActionView::InodeNumber { path: path@ },
            Action::IsDirectory { path } => ActionView::IsDirectory { path: path@ },
            Action::ListDirectory { path } => ActionView::ListDirectory { path: path@ },
            Action::ReadFstab { path } => ActionView::ReadFstab { path: path@ },
            Action::CreateSubvolume { path } => ActionView::CreateSubvolume { path: path@ },
            Action::CreateSnapshot { source, target } => ActionView::CreateSnapshot {
                source: source@,
                target: target@,
            },
            Action::DeleteSubvolume { path } => ActionView::DeleteSubvolume { path: path@ },
            Action::MountOverlay { options, target } => ActionView::MountOverlay {
                options: options@,
                target: target@,
            },
            Action::Unmount { target } => ActionView::Unmount { target: target@ },
            Action::CopyTree { source, target } => ActionView::CopyTree {
                source: source@,
                target: target@,
            },
            Action::CopyContents { source, target } => ActionView::CopyContents {
                source: source@,
                target: target@,
            },
            Action::CopyFile { source, target } => ActionView::CopyFile {
                source: source@,
                target: target@,
            },
            Action::RemoveDirAll { path } => ActionView::RemoveDirAll { path: path@ },
            Action::RemoveFile { path } => ActionView::RemoveFile { path: path@ },
            Action::CreateDirAll { path } => ActionView::CreateDirAll { path: path@ },
            Action::Rename { from, to } => ActionView::Rename { from: from@, to: to@ },
            Action::SetMode { path, mode } => ActionView::SetMode { path: path@, mode },
            Action::SettleDevices { timeout } => ActionView::SettleDevices { timeout },
            Action::ShowMessage { text } => ActionView::ShowMessage { text: text@ },
            Action::ShowContents { path } => ActionView::ShowContents { path: path@ },
            Action::HideSplash => ActionView::HideSplash,
            Action::ShowQrCode { url } => ActionView::ShowQrCode { url: url@ },
            Action::Confirm { concerning, prompt } => ActionView::Confirm {
                concerning,
                prompt: prompt@,
            },
            Action::Reboot => ActionView::Reboot,
        }
    }
}

impl ActionView {
    pub open spec fn kind(self) -> ActionKind {
        match self {
            ActionView::PathExists { .. } => ActionKind::PathExists,
            ActionView::InodeNumber { .. } => ActionKind::InodeNumber,
            ActionView::IsDirectory { .. } => ActionKind::IsDirectory,
            ActionView::ListDirectory { .. } => ActionKind::ListDirectory,
            ActionView::ReadFstab { .. } => ActionKind::ReadFstab,
            ActionView::CreateSubvolume { .. } => ActionKind::CreateSubvolume,
            ActionView::CreateSnapshot { .. } => ActionKind::CreateSnapshot,
            ActionView::DeleteSubvolume { .. } => ActionKind::DeleteSubvolume,
            ActionView::MountOverlay { .. } => ActionKind::MountOverlay,
            ActionView::Unmount { .. } => ActionKind::Unmount,
            ActionView::CopyTree { .. } => ActionKind::CopyTree,
            ActionView::CopyContents { .. } => ActionKind::CopyContents,
            ActionView::CopyFile { .. } => ActionKind::CopyFile,
            ActionView::RemoveDirAll { .. } => ActionKind::RemoveDirAll,
            ActionView::RemoveFile { .. } => ActionKind::RemoveFile,
            ActionView::CreateDirAll { .. } => ActionKind::CreateDirAll,
            ActionView::Rename { .. } => ActionKind::Rename,
            ActionView::SetMode { .. } => ActionKind::SetMode,
            ActionView::SettleDevices { .. } => ActionKind::SettleDevices,
            ActionView::ShowMessage { .. } => ActionKind::ShowMessage,
            ActionView::ShowContents { .. } => ActionKind::ShowContents,
            ActionView::HideSplash => ActionKind::HideSplash,
            ActionView::ShowQrCode { .. } => ActionKind::ShowQrCode,
            ActionView::Confirm { .. } => ActionKind::Confirm,
            ActionView::Reboot => ActionKind::Reboot,
        }
    }

    /// Whether the action only looks at the filesystem.
    pub open spec fn is_observation(self) -> bool {
        self is PathExists || self is InodeNumber || self is IsDirectory || self is ListDirectory
            || self is ReadFstab
    }
}

impl Action {
    pub fn kind(&self) -> (kind: ActionKind)
        ensures
            kind == self@.kind(),
    {
        match self {
            Action::PathExists { .. } => ActionKind::PathExists,
            Action::InodeNumber { .. } => ActionKind::InodeNumber,
            Action::IsDirectory { .. } => ActionKind::IsDirectory,
            Action::ListDirectory { .. } => ActionKind::ListDirectory,
            Action::ReadFstab { .. } => ActionKind::ReadFstab,
            Action::CreateSubvolume { .. } => ActionKind::CreateSubvolume,
            Action::CreateSnapshot { .. } => ActionKind::CreateSnapshot,
            Action::DeleteSubvolume { .. } => ActionKind::DeleteSubvolume,
            Action::MountOverlay { .. } => ActionKind::MountOverlay,
            Action::Unmount { .. } => ActionKind::Unmount,
            Action::CopyTree { .. } => ActionKind::CopyTree,
            Action::CopyContents { .. } => ActionKind::CopyContents,
            Action::CopyFile { .. } => ActionKind::CopyFile,
            Action::RemoveDirAll { .. } => ActionKind::RemoveDirAll,
            Action::RemoveFile { .. } => ActionKind::RemoveFile,
            Action::CreateDirAll { .. } => ActionKind::CreateDirAll,
            Action::Rename { .. } => ActionKind::Rename,
            Action::SetMode { .. } => ActionKind::SetMode,
            Action::SettleDevices { .. } => ActionKind::SettleDevices,
            Action::ShowMessage { .. } => ActionKind::ShowMessage,
            Action::ShowContents { .. } => ActionKind::ShowContents,
            Action::HideSplash => ActionKind::HideSplash,
            Action::ShowQrCode { .. } => ActionKind::ShowQrCode,
            Action::Confirm { .. } => ActionKind::Confirm,
            Action::Reboot => ActionKind::Reboot,
        }
    }

    /// Whether the action only looks at the filesystem.
    pub fn is_observation(&self) -> (b: bool)
        ensures
            b == self@.is_observation(),
    {
        match self {
            Action::PathExists { .. } => true,
            Action::InodeNumber { .. } => true,
            Action::IsDirectory { .. } => true,
            Action::ListDirectory { .. } => true,
            Action::ReadFstab { .. } => true,
            _ => false,
        }
    }
}

/// What the caller reports after performing an [`Action`].
#[derive(Clone, Debug, PartialEq, Eq)]
pub enum Outcome {
    /// The action was carried out; a command ran and reported success.
    Done,
    /// The action could not be carried out at all: an operation was
    /// rejected, a command could not be started.
    Failed { reason: String },
    /// A command ran and reported failure.
    Unsuccessful,
    /// The answer to a yes/no question.
    Flag { value: bool },
    /// The answer to `InodeNumber`.
    Inode { number: u64 },
    /// The answer to `ListDirectory` or `ReadFstab`.
    Entries { names: Vec<String> },
    /// A directory could be opened, but reading one of its entries failed.
    EntryFailed { reason: String },
}

/// Mathematical model of an [`Outcome`].
pub enum OutcomeView {
    Done,
    Failed { reason: Seq<char> },
    Unsuccessful,
    Flag { value: bool },
    Inode { number: u64 },
    Entries { names: Seq<Seq<char>> },
    EntryFailed { reason: Seq<char> },
}

impl View for Outcome {
    type V = OutcomeView;

    open spec fn view(&self) -> OutcomeView {
        match *self {
            Outcome::Done => OutcomeView::Done,
            Outcome::Failed { reason } => OutcomeView::Failed { reason: reason@ },
            Outcome::Unsuccessful => OutcomeView::Unsuccessful,
            Outcome::Flag { value } => OutcomeView::Flag { value },
            Outcome::Inode { number } => OutcomeView::Inode { number },
            Outcome::Entries { names } => OutcomeView::Entries { names: names.deep_view() },
            Outcome::EntryFailed { reason } => OutcomeView::EntryFailed { reason: reason@ },
        }
    }
}

impl OutcomeView {
    /// The answer to a yes/no question. Whatever is not a plain "yes" counts
    /// as "no", as a failed existence test does.
    pub open spec fn affirmed(self) -> bool {
        self matches OutcomeView::Flag { value } && value
    }

    /// Whether the outcome is one that a caller can report: a listing has
    /// no more entries than a machine can count.
    pub open spec fn reportable(self) -> bool {
        self matches OutcomeView::Entries { names } ==> names.len() <= usize::MAX
    }

    /// The reason given for a failure; empty where none was given.
    pub open spec fn reason(self) -> Seq<char> {
        match self {
            OutcomeView::Failed { reason } => reason,
            OutcomeView::EntryFailed { reason } => reason,
            _ => Seq::empty(),
        }
    }

    /// How an operation that either is carried out or is rejected with a
    /// reason has failed, if it has: anything but `Done` is a failure,
    /// described by `prefix` and the reason.
    pub open spec fn failure_unless_done(self, prefix: Seq<char>, context: Seq<char>) -> Option<
        FailureView,
    > {
        if self is Done {
            None
        } else {
            Some(FailureView::fatal(prefix, self.reason(), context))
        }
    }

    /// How a command whose exit status does not matter has failed, if it
    /// has: only when it could not be started.
    pub open spec fn failure_unless_started(self, prefix: Seq<char>, context: Seq<char>) -> Option<
        FailureView,
    > {
        if self is Failed {
            Some(FailureView::fatal(prefix, self.reason(), context))
        } else {
            None
        }
    }

    /// How a command whose exit status matters has failed, if it has: it
    /// could not be started (`prefix` and the reason, in `context`), or it
    /// did anything but report success (`message`, in `exit_context`).
    pub open spec fn failure_unless_successful(
        self,
        prefix: Seq<char>,
        context: Seq<char>,
        message: Seq<char>,
        exit_context: Seq<char>,
    ) -> Option<FailureView> {
        if self is Done {
            None
        } else if self is Failed {
            Some(FailureView::fatal(prefix, self.reason(), context))
        } else {
            Some(FailureView::Fatal(MigrationErrorView { message, context: exit_context }))
        }
    }
}

/// Whatever a caller reports is reportable.
pub proof fn lemma_outcome_is_reportable(outcome: Outcome)
    ensures
        outcome@.reportable(),
{
    if let Outcome::Entries { names } = outcome {
        assert(names.deep_view().len() == names.len());
    }
}

impl Outcome {
    pub fn failure_unless_done(&self, prefix: &str, context: &str) -> (failure: Option<Failure>)
        ensures
            failure.is_some() == self@.failure_unless_done(prefix@, context@).is_some(),
            failure matches Some(f) ==> Some(f@) == self@.failure_unless_done(prefix@, context@),
    {
        if self.is_done() {
            None
        } else {
            let reason = self.reason();
            Some(Failure::fatal(prefix, reason.as_str(), context))
        }
    }

    pub fn failure_unless_started(&self, prefix: &str, context: &str) -> (failure: Option<Failure>)
        ensures
            failure.is_some() == self@.failure_unless_started(prefix@, context@).is_some(),
            failure matches Some(f) ==> Some(f@) == self@.failure_unless_started(
                prefix@,
                context@,
            ),
    {
        if self.is_failed() {
            let reason = self.reason();
            Some(Failure::fatal(prefix, reason.as_str(), context))
        } else {
            None
        }
    }

    pub fn failure_unless_successful(
        &self,
        prefix: &str,
        context: &str,
        message: &str,
        exit_context: &str,
    ) -> (failure: Option<Failure>)
        ensures
            failure.is_some() == self@.failure_unless_successful(
                prefix@,
                context@,
                message@,
                exit_context@,
            ).is_some(),
            failure matches Some(f) ==> Some(f@) == self@.failure_unless_successful(
                prefix@,
                context@,
                message@,
                exit_context@,
            ),
    {
        if self.is_done() {
            None
        } else if self.is_failed() {
            let reason = self.reason();
            Some(Failure::fatal(prefix, reason.as_str(), context))
        } else {
            Some(
                Failure::Fatal(
                    MigrationError::new(String::from_str(message), String::from_str(exit_context)),
                ),
            )
        }
    }

    pub fn is_done(&self) -> (b: bool)
        ensures
            b == (self@ is Done),
    {
        match self {
            Outcome::Done => true,
            _ => false,
        }
    }

    pub fn is_failed(&self) -> (b: bool)
        ensures
            b == (self@ is Failed),
    {
        match self {
            Outcome::Failed { .. } => true,
            _ => false,
        }
    }

    pub fn affirmed(&self) -> (b: bool)
        ensures
            b == self@.affirmed(),
    {
        match self {
            Outcome::Flag { value } => *value,
            _ => false,
        }
    }

    pub fn reason(&self) -> (text: String)
        ensures
            text@ == self@.reason(),
    {
        match self {
            Outcome::Failed { reason } => reason.clone(),
            Outcome::EntryFailed { reason } => reason.clone(),
            _ => String::new(),
        }
    }
}

/// Where a phase stands after it was given an outcome: it asks for the next
/// action, it has finished with a value, or it has failed.
#[derive(Clone, Debug, PartialEq, Eq)]
pub enum Poll<S, T> {
    Pending { step: S, action: Action },
    Ready { value: T },
    Failed { failure: Failure },
}

/// Mathematical model of a [`Poll`].
pub enum PollView<S, T> {
    Pending { step: S, action: ActionView },
    Ready { value: T },
    Failed { failure: FailureView },
}

impl<S, T> View for Poll<S, T> {
    type V = PollView<S, T>;

    open spec fn view(&self) -> PollView<S, T> {
        match *self {
            Poll::Pending { step, action } => PollView::Pending { step, action: action@ },
            Poll::Ready { value } => PollView::Ready { value },
            Poll::Failed { failure } => PollView::Failed { failure: failure@ },
        }
    }
}

impl<S, T> PollView<S, T> {
    /// The same poll as seen by an enclosing phase that wraps the step.
    pub open spec fn wrap<S2>(self, wrap: spec_fn(S) -> S2) -> PollView<S2, T> {
        match self {
            PollView::Pending { step, action } => PollView::Pending { step: wrap(step), action },
            PollView::Ready { value } => PollView::Ready { value },
            PollView::Failed { failure } => PollView::Failed { failure },
        }
    }

    /// The poll of an enclosing phase that goes on with `next` once the
    /// inner phase is ready.
    pub open spec fn followed_by<S2, T2>(self, wrap: spec_fn(S) -> S2, next: PollView<S2, T2>) -> PollView<
        S2,
        T2,
    > {
        match self {
            PollView::Pending { step, action } => PollView::Pending { step: wrap(step), action },
            PollView::Ready { value } => next,
            PollView::Failed { failure } => PollView::Failed { failure },
        }
    }
}

/// Whether a poll that asks for an action asks for the kind that its step
/// waits for.
pub open spec fn asked_as<S, T>(poll: PollView<S, T>, asks: spec_fn(S) -> ActionKind) -> bool {
    poll matches PollView::Pending { step, action } ==> action.kind() == asks(step)
}

/// The poll that asks for `action` and then stands at `step`.
pub open spec fn pending<S, T>(begun: (S, ActionView)) -> PollView<S, T> {
    PollView::Pending { step: begun.0, action: begun.1 }
}

/// The poll of a phase that was handed a step that does not belong to
/// the run.
pub open spec fn stray<S, T>() -> PollView<S, T> {
    PollView::Failed { failure: FailureView::StrayStep }
}

/// The poll that fails if `failure` holds one, and is `otherwise` if not.
pub open spec fn unless<S, T>(failure: Option<FailureView>, otherwise: PollView<S, T>) -> PollView<
    S,
    T,
> {
    match failure {
        Some(failure) => PollView::Failed { failure },
        None => otherwise,
    }
}

} // verus!
