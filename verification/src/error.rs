use vstd::prelude::*;

verus! {

/// A fatal error together with the phase in which it arose.
#[derive(Clone, Debug, PartialEq, Eq)]
pub struct MigrationError {
    pub message: String,
    pub context: String,
}

/// Mathematical model of a [`MigrationError`].
pub struct MigrationErrorView {
    pub message: Seq<char>,
    pub context: Seq<char>,
}

impl View for MigrationError {
    type V = MigrationErrorView;

    open spec fn view(&self) -> MigrationErrorView {
        MigrationErrorView { message: self.message@, context: self.context@ }
    }
}

impl MigrationErrorView {
    /// The text shown for the error: the context, a colon and the message.
    pub open spec fn text(self) -> Seq<char> {
        self.context + seq![':', ' '] + self.message
    }
}

impl MigrationError {
    pub fn new(message: String, context: String) -> (e: MigrationError)
        ensures
            e@.message == message@,
            e@.context == context@,
    {
        MigrationError { message, context }
    }

    /// Builds an error whose message is `prefix` followed by `detail`.
    pub fn with_detail(prefix: &str, detail: &str, context: &str) -> (e: MigrationError)
        ensures
            e@.message == prefix@ + detail@,
            e@.context == context@,
    {
        let mut message = String::from_str(prefix);
        message.append(detail);
        MigrationError { message, context: String::from_str(context) }
    }

    /// The text shown for this error.
    pub fn describe(&self) -> (s: String)
        ensures
            s@ == self@.text(),
    {
        let mut s = self.context.clone();
        proof {
            reveal_strlit(": ");
            assert(": "@ =~= seq![':', ' ']);
        }
        s.append(": ");
        s.append(self.message.as_str());
        s
    }
}

/// Why a run ended without reaching the newest layout.
#[derive(Clone, Debug, PartialEq, Eq)]
pub enum Failure {
    /// A step failed; the error names the phase.
    Fatal(MigrationError),
    /// An error of the operating system, passed on as it came.
    Io(String),
    /// The operator declined to continue.
    Declined,
    /// The step does not belong to the run: it points outside what the
    /// run is working through. No run that is taken from its beginning
    /// comes to such a step.
    StrayStep,
}

/// Mathematical model of a [`Failure`].
pub enum FailureView {
    Fatal(MigrationErrorView),
    Io(Seq<char>),
    Declined,
    StrayStep,
}

impl View for Failure {
    type V = FailureView;

    open spec fn view(&self) -> FailureView {
        match *self {
            Failure::Fatal(error) => FailureView::Fatal(error@),
            Failure::Io(reason) => FailureView::Io(reason@),
            Failure::Declined => FailureView::Declined,
            Failure::StrayStep => FailureView::StrayStep,
        }
    }
}

impl FailureView {
    /// The text shown for the failure.
    pub open spec fn text(self) -> Seq<char> {
        match self {
            FailureView::Fatal(error) => error.text(),
            FailureView::Io(reason) => reason,
            FailureView::Declined => "Migration aborted by user"@,
            FailureView::StrayStep => "Migration step out of range"@,
        }
    }

    /// The failure of a step in phase `context`, described by `prefix`
    /// followed by `detail`.
    pub open spec fn fatal(prefix: Seq<char>, detail: Seq<char>, context: Seq<char>) -> FailureView {
        FailureView::Fatal(MigrationErrorView { message: prefix + detail, context })
    }
}

impl Failure {
    /// The failure of a step in phase `context`, described by `prefix`
    /// followed by `detail`.
    pub fn fatal(prefix: &str, detail: &str, context: &str) -> (failure: Failure)
        ensures
            failure@ == FailureView::fatal(prefix@, detail@, context@),
    {
        Failure::Fatal(MigrationError::with_detail(prefix, detail, context))
    }

    /// The text shown for this failure.
    pub fn describe(&self) -> (s: String)
        ensures
            s@ == self@.text(),
    {
        match self {
            Failure::Fatal(error) => error.describe(),
            Failure::Io(reason) => reason.clone(),
            Failure::Declined => String::from_str("Migration aborted by user"),
            Failure::StrayStep => String::from_str("Migration step out of range"),
        }
    }
}

} // verus!
