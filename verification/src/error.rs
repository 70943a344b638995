//! The ways a run can end without a commit.

use vstd::prelude::*;
use vstd::string::*;

verus! {

/// What went wrong, so that callers branch on the kind and not on a text.
#[derive(Clone, Copy, Debug, PartialEq, Eq, Structural)]
pub enum ErrorKind {
    /// The version-control executable cannot be found or started.
    ToolingUnavailable,
    /// The current directory is not inside a working tree.
    NotARepository,
    /// An external command ended with a non-zero exit status.
    CommandFailed,
    /// An external command printed something that is not valid text.
    OutputNotText,
    /// Nothing is staged once lock files are left out.
    NoStagedChanges,
    /// The chat request could not be put together.
    RequestConstructionFailed,
    /// The request could not be sent, or the endpoint answered with a
    /// status outside the success range.
    TransportFailed,
    /// The answer holds no candidate that can be used.
    NoCandidates,
    /// The candidate holds no line that can serve as a message.
    PostProcessingFailed,
    /// The user gave up at the confirmation prompt.
    UserCancelled,
}

/// An error kind together with the text of what caused it; the text is
/// empty where the kind says it all.
#[derive(Debug)]
pub struct PipelineError {
    pub kind: ErrorKind,
    pub cause: String,
}

/// The mathematical view of a `PipelineError`.
pub struct ErrorView {
    pub kind: ErrorKind,
    pub cause: Seq<char>,
}

impl View for PipelineError {
    type V = ErrorView;

    open spec fn view(&self) -> ErrorView {
        ErrorView { kind: self.kind, cause: self.cause@ }
    }
}

/// The mathematical view of a text or an error.
pub open spec fn text_result(r: Result<String, PipelineError>) -> Result<Seq<char>, ErrorView> {
    match r {
        Ok(text) => Ok(text@),
        Err(e) => Err(e@),
    }
}

/// The error of `kind` with no cause to name.
pub open spec fn bare_error(kind: ErrorKind) -> ErrorView {
    ErrorView { kind, cause: Seq::empty() }
}

impl ErrorKind {
    /// A cancellation is the user's choice and no failure; every other kind is one.
    pub open spec fn is_failure(self) -> bool {
        self != ErrorKind::UserCancelled
    }

    /// The exit status of the process: zero for a cancellation, one for a failure.
    pub open spec fn exit_status(self) -> int {
        if self.is_failure() {
            1
        } else {
            0
        }
    }

    /// The one line that tells the user what a kind means.
    pub open spec fn headline_text(self) -> Seq<char> {
        match self {
            ErrorKind::ToolingUnavailable => "Git may not be installed."@,
            ErrorKind::NotARepository => "The current directory is not a Git repository."@,
            ErrorKind::CommandFailed => "The Git command failed."@,
            ErrorKind::OutputNotText => "Failed to decode the output of the Git command."@,
            ErrorKind::NoStagedChanges => "There are no staged changes to commit."@,
            ErrorKind::RequestConstructionFailed => "Failed to construct the request payload."@,
            ErrorKind::TransportFailed => "Failed to send the request to the API provider."@,
            ErrorKind::NoCandidates => "No commit messages generated."@,
            ErrorKind::PostProcessingFailed => "Failed to post-process the generated commit message."@,
            ErrorKind::UserCancelled => "Cancelled: no commit was created."@,
        }
    }

    /// The process exit code of a run that ended with this kind: zero for a
    /// cancellation, so that a script can tell it from a failure, and one
    /// for every failure.
    pub fn exit_code(self) -> (code: u8)
        ensures
            code as int == self.exit_status(),
            code == 0 <==> self == ErrorKind::UserCancelled,
    {
        match self {
            ErrorKind::UserCancelled => 0,
            _ => 1,
        }
    }

    /// The one line that tells the user what this kind means.
    pub fn headline(self) -> (line: &'static str)
        ensures
            line@ == self.headline_text(),
    {
        match self {
            ErrorKind::ToolingUnavailable => "Git may not be installed.",
            ErrorKind::NotARepository => "The current directory is not a Git repository.",
            ErrorKind::CommandFailed => "The Git command failed.",
            ErrorKind::OutputNotText => "Failed to decode the output of the Git command.",
            ErrorKind::NoStagedChanges => "There are no staged changes to commit.",
            ErrorKind::RequestConstructionFailed => "Failed to construct the request payload.",
            ErrorKind::TransportFailed => "Failed to send the request to the API provider.",
            ErrorKind::NoCandidates => "No commit messages generated.",
            ErrorKind::PostProcessingFailed => "Failed to post-process the generated commit message.",
            ErrorKind::UserCancelled => "Cancelled: no commit was created.",
        }
    }
}

impl ErrorView {
    /// What the user is shown: the words of a failed command as they are,
    /// the headline of the kind for everything else.
    pub open spec fn message(self) -> Seq<char> {
        if self.kind == ErrorKind::CommandFailed {
            self.cause
        } else {
            self.kind.headline_text()
        }
    }
}

impl PipelineError {
    /// An error of `kind` with no cause to name.
    pub fn bare(kind: ErrorKind) -> (e: PipelineError)
        ensures
            e@ == bare_error(kind),
    {
        PipelineError { kind, cause: String::new() }
    }

    /// What the user is shown: the words of a failed command as they are,
    /// the headline of the kind for everything else.
    pub fn message(&self) -> (line: String)
        ensures
            line@ == self@.message(),
    {
        match self.kind {
            ErrorKind::CommandFailed => self.cause.clone(),
            _ => String::from_str(self.kind.headline()),
        }
    }
}

} // verus!
