//! The reply of the endpoint: which exchanges count as answered, which
//! candidate is read, and what becomes of its content.

use crate::error::{bare_error, text_result, ErrorKind, ErrorView, PipelineError};
use crate::request::Profile;
use crate::sanitize::{sanitize, sanitized};
use vstd::prelude::*;
use vstd::string::*;

verus! {

/// One completion that the model offers; its content may be missing.
#[derive(Debug)]
pub struct Candidate {
    pub content: Option<String>,
}

impl View for Candidate {
    type V = Option<Seq<char>>;

    open spec fn view(&self) -> Option<Seq<char>> {
        match self.content {
            Some(text) => Some(text@),
            None => None,
        }
    }
}

/// The candidates of a reply, in the order in which they came.
#[derive(Debug)]
pub struct ChatResponse {
    pub choices: Vec<Candidate>,
}

impl View for ChatResponse {
    type V = Seq<Option<Seq<char>>>;

    open spec fn view(&self) -> Seq<Option<Seq<char>>> {
        Seq::new(self.choices@.len(), |i: int| self.choices@[i]@)
    }
}

/// How the exchange with the endpoint went.
#[derive(Debug)]
pub enum Exchange {
    /// The request could not be put into the form in which it is sent.
    NotBuilt { cause: String },
    /// The request could not be sent, or no answer came.
    NotSent { cause: String },
    /// An answer came: its status, what the provider said of it, and its
    /// body where that could be read as a list of candidates.
    Answered { status: u16, detail: String, body: Option<ChatResponse> },
}

/// The mathematical view of a `Exchange`.
pub enum ExchangeView {
    NotBuilt { cause: Seq<char> },
    NotSent { cause: Seq<char> },
    Answered { status: u16, detail: Seq<char>, body: Option<Seq<Option<Seq<char>>>> },
}

impl View for Exchange {
    type V = ExchangeView;

    open spec fn view(&self) -> ExchangeView {
        match self {
            Exchange::NotBuilt { cause } => ExchangeView::NotBuilt { cause: cause@ },
            Exchange::NotSent { cause } => ExchangeView::NotSent { cause: cause@ },
            Exchange::Answered { status, detail, body } => ExchangeView::Answered {
                status: *status,
                detail: detail@,
                body: match body {
                    Some(response) => Some(response@),
                    None => None,
                },
            },
        }
    }
}

/// The statuses that count as success: 200 to 299.
pub open spec fn is_success(status: u16) -> bool {
    200 <= status <= 299
}

/// The content of the first candidate. No other candidate is ever read: a
/// reply without candidates, or whose first candidate has no content, is
/// `NoCandidates`.
pub open spec fn first_content(choices: Seq<Option<Seq<char>>>) -> Result<Seq<char>, ErrorView> {
    if choices.len() > 0 && choices[0] is Some {
        Ok(choices[0]->0)
    } else {
        Err(bare_error(ErrorKind::NoCandidates))
    }
}

/// What the model said, as it said it.
///
/// A request that could not be built is `RequestConstructionFailed`; one
/// that could not be sent, or was answered with a status outside the
/// success range, is `TransportFailed`; an answer whose body holds no list
/// of candidates, or no content in the first of them, is `NoCandidates`.
pub open spec fn raw_reply(exchange: ExchangeView) -> Result<Seq<char>, ErrorView> {
    match exchange {
        ExchangeView::NotBuilt { cause } => Err(
            ErrorView { kind: ErrorKind::RequestConstructionFailed, cause },
        ),
        ExchangeView::NotSent { cause } => Err(
            ErrorView { kind: ErrorKind::TransportFailed, cause },
        ),
        ExchangeView::Answered { status, detail, body } => if !is_success(status) {
            Err(ErrorView { kind: ErrorKind::TransportFailed, cause: detail })
        } else {
            match body {
                Some(choices) => first_content(choices),
                None => Err(ErrorView { kind: ErrorKind::NoCandidates, cause: detail }),
            }
        },
    }
}

/// The commit message that an exchange gives: what the model said,
/// sanitized; `PostProcessingFailed` where that leaves nothing.
pub open spec fn commit_message_of(exchange: ExchangeView) -> Result<Seq<char>, ErrorView> {
    match raw_reply(exchange) {
        Ok(raw) => match sanitized(raw) {
            Some(message) => Ok(message),
            None => Err(bare_error(ErrorKind::PostProcessingFailed)),
        },
        Err(e) => Err(e),
    }
}

/// The summary that an exchange gives: what the model said, unchanged.
pub open spec fn summary_of(exchange: ExchangeView) -> Result<Seq<char>, ErrorView> {
    raw_reply(exchange)
}

/// What an exchange gives under `profile`: a commit message is sanitized, a
/// summary is not.
pub open spec fn reply_of(profile: Profile, exchange: ExchangeView) -> Result<
    Seq<char>,
    ErrorView,
> {
    match profile {
        Profile::CommitMessage => commit_message_of(exchange),
        Profile::DocumentSummary => summary_of(exchange),
    }
}

/// Whether `status` counts as success.
pub fn status_is_success(status: u16) -> (ok: bool)
    ensures
        ok == is_success(status),
{
    200 <= status && status <= 299
}

/// What the model said in an exchange, or why there is nothing to read.
pub fn extract_reply(exchange: &Exchange) -> (r: Result<String, PipelineError>)
    ensures
        text_result(r) == raw_reply(exchange@),
{
    match exchange {
        Exchange::NotBuilt { cause } => Err(
            PipelineError { kind: ErrorKind::RequestConstructionFailed, cause: cause.clone() },
        ),
        Exchange::NotSent { cause } => Err(
            PipelineError { kind: ErrorKind::TransportFailed, cause: cause.clone() },
        ),
        Exchange::Answered { status, detail, body } => {
            if !status_is_success(*status) {
                return Err(
                    PipelineError { kind: ErrorKind::TransportFailed, cause: detail.clone() },
                );
            }
            match body {
                None => Err(PipelineError { kind: ErrorKind::NoCandidates, cause: detail.clone() }),
                Some(response) => {
                    if response.choices.len() == 0 {
                        return Err(PipelineError::bare(ErrorKind::NoCandidates));
                    }
                    assert(response@[0] == response.choices@[0]@);
                    match &response.choices[0].content {
                        Some(text) => Ok(text.clone()),
                        None => Err(PipelineError::bare(ErrorKind::NoCandidates)),
                    }
                },
            }
        },
    }
}

/// The commit message that the exchange with the endpoint gives: the
/// content of the first candidate, sanitized.
pub fn generate_commit_message(exchange: &Exchange) -> (r: Result<String, PipelineError>)
    ensures
        text_result(r) == commit_message_of(exchange@),
{
    match extract_reply(exchange) {
        Ok(raw) => sanitize(raw.as_str()),
        Err(e) => Err(e),
    }
}

/// The summary that the exchange with the endpoint gives: the content of
/// the first candidate as it is.
pub fn generate_slide_summary(exchange: &Exchange) -> (r: Result<String, PipelineError>)
    ensures
        text_result(r) == summary_of(exchange@),
{
    extract_reply(exchange)
}

/// What the exchange with the endpoint gives under `profile`.
pub fn interpret_reply(profile: Profile, exchange: &Exchange) -> (r: Result<String, PipelineError>)
    ensures
        text_result(r) == reply_of(profile, exchange@),
{
    match profile {
        Profile::CommitMessage => generate_commit_message(exchange),
        Profile::DocumentSummary => generate_slide_summary(exchange),
    }
}

/// An answer without candidates is `NoCandidates`, for a commit message as
/// for a summary: what sanitizing would make of anything plays no part.
pub proof fn lemma_no_candidates(status: u16, detail: Seq<char>)
    requires
        is_success(status),
    ensures
        commit_message_of(
            ExchangeView::Answered { status, detail, body: Some(Seq::empty()) },
        ) == Err::<Seq<char>, ErrorView>(bare_error(ErrorKind::NoCandidates)),
        summary_of(ExchangeView::Answered { status, detail, body: Some(Seq::empty()) }) == Err::<
            Seq<char>,
            ErrorView,
        >(bare_error(ErrorKind::NoCandidates)),
{
}

/// Only the first candidate counts: the candidates after it change nothing.
pub proof fn lemma_first_candidate_only(
    status: u16,
    detail: Seq<char>,
    first: Option<Seq<char>>,
    others: Seq<Option<Seq<char>>>,
)
    ensures
        commit_message_of(
            ExchangeView::Answered { status, detail, body: Some(seq![first] + others) },
        ) == commit_message_of(ExchangeView::Answered { status, detail, body: Some(seq![first]) }),
        summary_of(ExchangeView::Answered { status, detail, body: Some(seq![first] + others) })
            == summary_of(ExchangeView::Answered { status, detail, body: Some(seq![first]) }),
{
    assert((seq![first] + others)[0] == first);
    assert(seq![first][0] == first);
}

} // verus!
