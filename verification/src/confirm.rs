//! The confirmation step: what the answer of the user to the draft means.

use vstd::prelude::*;
use vstd::string::*;

verus! {

/// What came back from the prompt that showed the draft.
#[derive(Debug)]
pub enum PromptOutcome {
    /// The user submitted this text.
    Submitted(String),
    /// The user gave up.
    Cancelled,
}

/// The mathematical view of a `PromptOutcome`.
pub enum PromptView {
    Submitted(Seq<char>),
    Cancelled,
}

impl View for PromptOutcome {
    type V = PromptView;

    open spec fn view(&self) -> PromptView {
        match self {
            PromptOutcome::Submitted(text) => PromptView::Submitted(text@),
            PromptOutcome::Cancelled => PromptView::Cancelled,
        }
    }
}

/// What the confirmation step decides.
#[derive(Debug)]
pub enum Confirmation {
    /// Commit with this message.
    Accepted(String),
    /// Nothing was entered: ask again.
    AskAgain,
    /// The user gave up: commit nothing.
    Cancelled,
}

/// The mathematical view of a `Confirmation`.
pub enum ConfirmationView {
    Accepted(Seq<char>),
    AskAgain,
    Cancelled,
}

impl View for Confirmation {
    type V = ConfirmationView;

    open spec fn view(&self) -> ConfirmationView {
        match self {
            Confirmation::Accepted(message) => ConfirmationView::Accepted(message@),
            Confirmation::AskAgain => ConfirmationView::AskAgain,
            Confirmation::Cancelled => ConfirmationView::Cancelled,
        }
    }
}

/// A commit message must not be empty.
pub open spec fn is_acceptable(message: Seq<char>) -> bool {
    message.len() > 0
}

/// The decision that an answer stands for: a text that is not empty is the
/// message, an empty one is asked for again, a cancellation ends the run.
pub open spec fn confirmation_of(outcome: PromptView) -> ConfirmationView {
    match outcome {
        PromptView::Submitted(text) => if is_acceptable(text) {
            ConfirmationView::Accepted(text)
        } else {
            ConfirmationView::AskAgain
        },
        PromptView::Cancelled => ConfirmationView::Cancelled,
    }
}

/// The rule that the prompt holds every entry to: a commit message must not
/// be empty.
pub fn validate_commit_message(input: &str) -> (ok: bool)
    ensures
        ok == is_acceptable(input@),
{
    !input.is_empty()
}

/// Decides what the answer of the user to the draft means. The message that
/// is accepted is the text as the user left it, and never empty.
pub fn edit_commit_message(outcome: PromptOutcome) -> (decision: Confirmation)
    ensures
        decision@ == confirmation_of(outcome@),
        decision matches Confirmation::Accepted(message) ==> message@.len() > 0,
{
    match outcome {
        PromptOutcome::Submitted(text) => {
            if validate_commit_message(text.as_str()) {
                Confirmation::Accepted(text)
            } else {
                Confirmation::AskAgain
            }
        },
        PromptOutcome::Cancelled => Confirmation::Cancelled,
    }
}

} // verus!
