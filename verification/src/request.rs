//! The chat request: what is asked of the model for a commit message, and
//! for a summary of documents, and where each request is sent.

use crate::text::{fill_template, filled};
use vstd::prelude::*;
use vstd::string::*;

verus! {

/// What the pipeline is configured with. The user template holds the
/// substitution marker `{}` where the staged changes belong.
#[derive(Debug)]
pub struct Config {
    pub api_key: String,
    pub base_url: String,
    pub model_name: String,
    pub max_tokens: u32,
    pub system_prompt: String,
    pub user_template: String,
    pub slides_prompt: String,
}

/// The mathematical view of a `Config`.
pub struct ConfigView {
    pub api_key: Seq<char>,
    pub base_url: Seq<char>,
    pub model_name: Seq<char>,
    pub max_tokens: u32,
    pub system_prompt: Seq<char>,
    pub user_template: Seq<char>,
    pub slides_prompt: Seq<char>,
}

impl View for Config {
    type V = ConfigView;

    open spec fn view(&self) -> ConfigView {
        ConfigView {
            api_key: self.api_key@,
            base_url: self.base_url@,
            model_name: self.model_name@,
            max_tokens: self.max_tokens,
            system_prompt: self.system_prompt@,
            user_template: self.user_template@,
            slides_prompt: self.slides_prompt@,
        }
    }
}

/// Who speaks in a message of a chat request.
#[derive(Clone, Copy, Debug, PartialEq, Eq, Structural)]
pub enum Role {
    System,
    User,
}

/// What a request is for: it decides where the request goes and whether the
/// reply is sanitized.
#[derive(Clone, Copy, Debug, PartialEq, Eq, Structural)]
pub enum Profile {
    CommitMessage,
    DocumentSummary,
}

/// One message of a chat request.
#[derive(Debug)]
pub struct ChatMessage {
    pub role: Role,
    pub content: String,
}

/// The mathematical view of a `ChatMessage`.
pub struct MessageView {
    pub role: Role,
    pub content: Seq<char>,
}

impl View for ChatMessage {
    type V = MessageView;

    open spec fn view(&self) -> MessageView {
        MessageView { role: self.role, content: self.content@ }
    }
}

/// A chat request: the model, the bound on what it may answer, and the
/// messages in their order.
#[derive(Debug)]
pub struct ChatRequest {
    pub model: String,
    pub max_tokens: u32,
    pub messages: Vec<ChatMessage>,
}

/// The mathematical view of a `ChatRequest`.
pub struct RequestView {
    pub model: Seq<char>,
    pub max_tokens: u32,
    pub messages: Seq<MessageView>,
}

impl View for ChatRequest {
    type V = RequestView;

    open spec fn view(&self) -> RequestView {
        RequestView {
            model: self.model@,
            max_tokens: self.max_tokens,
            messages: Seq::new(self.messages@.len(), |i: int| self.messages@[i]@),
        }
    }
}

/// The message in which the system speaks.
pub open spec fn system_message(content: Seq<char>) -> MessageView {
    MessageView { role: Role::System, content }
}

/// The message in which the user speaks.
pub open spec fn user_message(content: Seq<char>) -> MessageView {
    MessageView { role: Role::User, content }
}

/// The request for a commit message: the system prompt, then the user
/// template with the staged changes, whole, in the place of its marker.
pub open spec fn commit_request(config: ConfigView, diff: Seq<char>) -> RequestView {
    RequestView {
        model: config.model_name,
        max_tokens: config.max_tokens,
        messages: seq![
            system_message(config.system_prompt),
            user_message(filled(config.user_template, diff)),
        ],
    }
}

/// The request for a summary: the slides prompt, then one user message for
/// each document, in the order of the documents.
pub open spec fn summary_request(config: ConfigView, documents: Seq<Seq<char>>) -> RequestView {
    RequestView {
        model: config.model_name,
        max_tokens: config.max_tokens,
        messages: seq![system_message(config.slides_prompt)] + Seq::new(
            documents.len(),
            |i: int| user_message(documents[i]),
        ),
    }
}

/// Where a request goes: a commit message is asked for under
/// `/chat/completions` of the base address, a summary at the base address
/// itself.
pub open spec fn endpoint_of(config: ConfigView, profile: Profile) -> Seq<char> {
    match profile {
        Profile::CommitMessage => config.base_url + "/chat/completions"@,
        Profile::DocumentSummary => config.base_url,
    }
}

/// Builds the request for a commit message on the staged changes `diff`.
/// The changes go into the request whole: only the answer is bounded, by
/// `max_tokens`.
pub fn build_commit_request(config: &Config, diff: &str) -> (request: ChatRequest)
    ensures
        request@ == commit_request(config@, diff@),
{
    let mut messages: Vec<ChatMessage> = Vec::new();
    messages.push(ChatMessage { role: Role::System, content: config.system_prompt.clone() });
    messages.push(
        ChatMessage {
            role: Role::User,
            content: fill_template(config.user_template.as_str(), diff),
        },
    );
    let request = ChatRequest {
        model: config.model_name.clone(),
        max_tokens: config.max_tokens,
        messages,
    };
    assert(request@.messages =~= commit_request(config@, diff@).messages);
    request
}

/// Builds the request for a summary of `documents`, which keep their order.
pub fn build_summary_request(config: &Config, documents: &Vec<String>) -> (request: ChatRequest)
    ensures
        request@ == summary_request(config@, documents.deep_view()),
{
    let mut messages: Vec<ChatMessage> = Vec::new();
    messages.push(ChatMessage { role: Role::System, content: config.slides_prompt.clone() });
    let n = documents.len();
    let mut i: usize = 0;
    while i < n
        invariant
            i <= n,
            n == documents.len(),
            messages.len() == i + 1,
            messages@[0]@ == system_message(config@.slides_prompt),
            forall|k: int| 0 <= k < i ==> (#[trigger] messages@[k + 1])@ == user_message(documents@[k]@),
        decreases n - i,
    {
        messages.push(ChatMessage { role: Role::User, content: documents[i].clone() });
        i += 1;
    }
    let request = ChatRequest {
        model: config.model_name.clone(),
        max_tokens: config.max_tokens,
        messages,
    };
    proof {
        let want = summary_request(config@, documents.deep_view()).messages;
        assert(request@.messages.len() == want.len());
        assert forall|k: int| 0 <= k < want.len() implies request@.messages[k] == want[k] by {
            if k > 0 {
                assert(request.messages@[(k - 1) + 1]@ == user_message(documents@[k - 1]@));
                assert(documents.deep_view()[k - 1] == documents@[k - 1]@);
            }
        }
        assert(request@.messages =~= want);
    }
    request
}

/// The address that a request of `profile` is sent to.
pub fn endpoint(config: &Config, profile: Profile) -> (url: String)
    ensures
        url@ == endpoint_of(config@, profile),
{
    match profile {
        Profile::CommitMessage => config.base_url.clone().concat("/chat/completions"),
        Profile::DocumentSummary => config.base_url.clone(),
    }
}

/// With a template that holds its marker once, the user message of a commit
/// request is the template with the staged changes where the marker stood.
pub proof fn lemma_commit_request_content(
    config: ConfigView,
    before: Seq<char>,
    after: Seq<char>,
    diff: Seq<char>,
)
    requires
        config.user_template == before + seq!['{', '}'] + after,
        !crate::text::has_marker(before),
        !crate::text::has_marker(after),
    ensures
        commit_request(config, diff).messages.len() == 2,
        commit_request(config, diff).messages[0] == system_message(config.system_prompt),
        commit_request(config, diff).messages[1] == user_message(before + diff + after),
{
    crate::text::lemma_filled_single_marker(before, after, diff);
}

/// A summary request holds one message more than there are documents, and
/// the message after the `k`-th is the `k`-th document: the order is kept.
pub proof fn lemma_summary_request_order(config: ConfigView, documents: Seq<Seq<char>>)
    ensures
        summary_request(config, documents).messages.len() == documents.len() + 1,
        summary_request(config, documents).messages[0] == system_message(config.slides_prompt),
        forall|k: int|
            0 <= k < documents.len() ==> #[trigger] summary_request(config, documents).messages[k
                + 1] == user_message(documents[k]),
{
}

} // verus!
