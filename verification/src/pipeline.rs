//! The run as a whole: which step is due at each stage, and which stage
//! follows on what the step brought. The driver performs the step that is
//! due and reports what came of it; every decision is taken here.

use crate::confirm::{
    confirmation_of, edit_commit_message, Confirmation, ConfirmationView, PromptOutcome,
    PromptView,
};
use crate::error::{bare_error, ErrorKind, ErrorView, PipelineError};
use crate::request::{
    build_commit_request, commit_request, endpoint, endpoint_of, ChatRequest, Config, ConfigView,
    Profile, RequestView,
};
use crate::response::{commit_message_of, generate_commit_message, Exchange, ExchangeView};
use crate::sanitize::{lemma_sanitized_is_clean, sanitized};
use crate::text::is_blank;
use crate::vcs::{
    command_text, commit_args, commit_arguments, commit_summary, diff_args, diff_arguments,
    git_checks, git_commit, git_diff, lemma_blank_diff_is_no_change, on_search_path, preflight,
    probe_args, probe_arguments, staged_diff, tool_name, CommandOutcome, CommandView,
};
use vstd::prelude::*;
use vstd::string::*;

verus! {

/// How a run ended.
#[derive(Debug)]
pub enum Outcome {
    /// The commit was made; the text is what the tool reported.
    Committed(String),
    /// No commit was made, for the reason given.
    Stopped(PipelineError),
}

/// The mathematical view of a `Outcome`.
pub enum OutcomeView {
    Committed(Seq<char>),
    Stopped(ErrorView),
}

impl View for Outcome {
    type V = OutcomeView;

    open spec fn view(&self) -> OutcomeView {
        match self {
            Outcome::Committed(summary) => OutcomeView::Committed(summary@),
            Outcome::Stopped(e) => OutcomeView::Stopped(e@),
        }
    }
}

/// Where a run stands.
#[derive(Debug)]
pub enum Stage {
    /// The tool is being looked for on the search path.
    LocatingTool,
    /// The tool is being asked whether this is a working tree.
    ProbingRepository,
    /// The tool is being asked for the staged changes.
    CollectingDiff,
    /// The model is being asked for a message on these changes.
    Requesting { diff: String },
    /// The user is being shown this draft.
    Confirming { draft: String },
    /// The tool is being asked to commit with this message.
    Committing { message: String },
    /// The run is over.
    Finished(Outcome),
}

/// The mathematical view of a `Stage`.
pub enum StageView {
    LocatingTool,
    ProbingRepository,
    CollectingDiff,
    Requesting { diff: Seq<char> },
    Confirming { draft: Seq<char> },
    Committing { message: Seq<char> },
    Finished(OutcomeView),
}

impl View for Stage {
    type V = StageView;

    open spec fn view(&self) -> StageView {
        match self {
            Stage::LocatingTool => StageView::LocatingTool,
            Stage::ProbingRepository => StageView::ProbingRepository,
            Stage::CollectingDiff => StageView::CollectingDiff,
            Stage::Requesting { diff } => StageView::Requesting { diff: diff@ },
            Stage::Confirming { draft } => StageView::Confirming { draft: draft@ },
            Stage::Committing { message } => StageView::Committing { message: message@ },
            Stage::Finished(outcome) => StageView::Finished(outcome@),
        }
    }
}

/// What a step brought.
#[derive(Debug)]
pub enum Event {
    /// The search for the tool ended; the flag says whether it was found.
    ToolLocated(bool),
    /// A run of the tool ended.
    CommandFinished(CommandOutcome),
    /// The exchange with the endpoint ended.
    Replied(Exchange),
    /// The prompt came back.
    Prompted(PromptOutcome),
}

/// The mathematical view of a `Event`.
pub enum EventView {
    ToolLocated(bool),
    CommandFinished(CommandView),
    Replied(ExchangeView),
    Prompted(PromptView),
}

impl View for Event {
    type V = EventView;

    open spec fn view(&self) -> EventView {
        match self {
            Event::ToolLocated(found) => EventView::ToolLocated(*found),
            Event::CommandFinished(outcome) => EventView::CommandFinished(outcome@),
            Event::Replied(exchange) => EventView::Replied(exchange@),
            Event::Prompted(outcome) => EventView::Prompted(outcome@),
        }
    }
}

/// The step that is due.
#[derive(Debug)]
pub enum Action {
    /// Look for the tool on the search path.
    LocateTool,
    /// Run the tool with these arguments.
    RunCommand(Vec<String>),
    /// Send this request to this address, with this key as bearer token.
    SendRequest { url: String, api_key: String, request: ChatRequest },
    /// Show this draft to the user, to edit, confirm or cancel.
    Prompt { draft: String },
    /// Nothing is left to do.
    Finish,
}

/// The mathematical view of a `Action`.
pub enum ActionView {
    LocateTool,
    RunCommand(Seq<Seq<char>>),
    SendRequest { url: Seq<char>, api_key: Seq<char>, request: RequestView },
    Prompt { draft: Seq<char> },
    Finish,
}

impl View for Action {
    type V = ActionView;

    open spec fn view(&self) -> ActionView {
        match self {
            Action::LocateTool => ActionView::LocateTool,
            Action::RunCommand(args) => ActionView::RunCommand(args.deep_view()),
            Action::SendRequest { url, api_key, request } => ActionView::SendRequest {
                url: url@,
                api_key: api_key@,
                request: request@,
            },
            Action::Prompt { draft } => ActionView::Prompt { draft: draft@ },
            Action::Finish => ActionView::Finish,
        }
    }
}

/// The stage that ends a run without a commit.
pub open spec fn stopped(e: ErrorView) -> StageView {
    StageView::Finished(OutcomeView::Stopped(e))
}

/// Every run begins by looking for the tool.
pub open spec fn initial() -> StageView {
    StageView::LocatingTool
}

/// The stage that follows `stage` on `event`.
///
/// Each stage waits for what its own step brings and stays where it is on
/// anything else. A step that failed ends the run with its error; nothing
/// is tried again. An empty entry at the prompt asks again, a cancellation
/// ends the run with `UserCancelled`. A run that is over stays over.
pub open spec fn next_stage(stage: StageView, event: EventView) -> StageView {
    match (stage, event) {
        (StageView::LocatingTool, EventView::ToolLocated(found)) => if found {
            StageView::ProbingRepository
        } else {
            stopped(bare_error(ErrorKind::ToolingUnavailable))
        },
        (StageView::ProbingRepository, EventView::CommandFinished(outcome)) => match preflight(
            true,
            outcome,
        ) {
            Ok(_) => StageView::CollectingDiff,
            Err(e) => stopped(e),
        },
        (StageView::CollectingDiff, EventView::CommandFinished(outcome)) => match staged_diff(
            outcome,
        ) {
            Ok(diff) => StageView::Requesting { diff },
            Err(e) => stopped(e),
        },
        (StageView::Requesting { diff }, EventView::Replied(exchange)) => match commit_message_of(
            exchange,
        ) {
            Ok(draft) => StageView::Confirming { draft },
            Err(e) => stopped(e),
        },
        (StageView::Confirming { draft }, EventView::Prompted(outcome)) => match confirmation_of(
            outcome,
        ) {
            ConfirmationView::Accepted(message) => StageView::Committing { message },
            ConfirmationView::AskAgain => StageView::Confirming { draft },
            ConfirmationView::Cancelled => stopped(bare_error(ErrorKind::UserCancelled)),
        },
        (StageView::Committing { message }, EventView::CommandFinished(outcome)) => {
            match commit_summary(outcome) {
                Ok(summary) => StageView::Finished(OutcomeView::Committed(summary)),
                Err(e) => stopped(e),
            }
        },
        _ => stage,
    }
}

/// The step that is due at `stage`.
pub open spec fn pending_action(config: ConfigView, stage: StageView) -> ActionView {
    match stage {
        StageView::LocatingTool => ActionView::LocateTool,
        StageView::ProbingRepository => ActionView::RunCommand(probe_arguments()),
        StageView::CollectingDiff => ActionView::RunCommand(diff_arguments()),
        StageView::Requesting { diff } => ActionView::SendRequest {
            url: endpoint_of(config, Profile::CommitMessage),
            api_key: config.api_key,
            request: commit_request(config, diff),
        },
        StageView::Confirming { draft } => ActionView::Prompt { draft },
        StageView::Committing { message } => ActionView::RunCommand(commit_arguments(message)),
        StageView::Finished(_) => ActionView::Finish,
    }
}

/// The stage that a run has come to from `stage` after `events`.
pub open spec fn run(stage: StageView, events: Seq<EventView>) -> StageView
    decreases events.len(),
{
    if events.len() == 0 {
        stage
    } else {
        next_stage(run(stage, events.drop_last()), events.last())
    }
}

/// The step asks the tool to commit.
pub open spec fn is_commit_step(action: ActionView) -> bool {
    exists|message: Seq<char>|
        action == ActionView::RunCommand(#[trigger] commit_arguments(message))
}

/// The exit status that an outcome stands for: zero for a commit and for a
/// cancellation, one for a failure.
pub open spec fn exit_status_of(outcome: OutcomeView) -> int {
    match outcome {
        OutcomeView::Committed(_) => 0,
        OutcomeView::Stopped(e) => e.kind.exit_status(),
    }
}

/// What holds of every stage that a run can come to: a request is asked
/// only for staged changes that are there, and a commit is made only with
/// a message that is not empty.
pub open spec fn is_sound(stage: StageView) -> bool {
    match stage {
        StageView::Requesting { diff } => diff.len() > 0 && !is_blank(diff),
        StageView::Confirming { draft } => draft.len() > 0,
        StageView::Committing { message } => message.len() > 0,
        _ => true,
    }
}

/// The stage in which every run begins.
pub fn start() -> (stage: Stage)
    ensures
        stage@ == initial(),
        is_sound(stage@),
{
    Stage::LocatingTool
}

/// Performs the step `LocateTool`: looks for the tool on the search path
/// and reports what the search brought. Whether the tool is found depends on
/// the machine; `advance` decides what follows from either answer.
pub fn locate_tool() -> (event: Event)
    ensures
        event@ is ToolLocated,
{
    Event::ToolLocated(on_search_path(tool_name()))
}

/// The step that the driver has to perform at `stage`.
pub fn pending(config: &Config, stage: &Stage) -> (action: Action)
    ensures
        action@ == pending_action(config@, stage@),
{
    match stage {
        Stage::LocatingTool => Action::LocateTool,
        Stage::ProbingRepository => Action::RunCommand(probe_args()),
        Stage::CollectingDiff => Action::RunCommand(diff_args()),
        Stage::Requesting { diff } => Action::SendRequest {
            url: endpoint(config, Profile::CommitMessage),
            api_key: config.api_key.clone(),
            request: build_commit_request(config, diff.as_str()),
        },
        Stage::Confirming { draft } => Action::Prompt { draft: draft.clone() },
        Stage::Committing { message } => Action::RunCommand(commit_args(message.as_str())),
        Stage::Finished(_) => Action::Finish,
    }
}

/// The stage that follows `stage` once the driver reports `event`.
pub fn advance(stage: Stage, event: Event) -> (next: Stage)
    ensures
        next@ == next_stage(stage@, event@),
        is_sound(stage@) ==> is_sound(next@),
{
    proof {
        if is_sound(stage@) {
            lemma_step_is_sound(stage@, event@);
        }
    }
    match stage {
        Stage::LocatingTool => match event {
            Event::ToolLocated(found) => {
                if found {
                    Stage::ProbingRepository
                } else {
                    Stage::Finished(
                        Outcome::Stopped(PipelineError::bare(ErrorKind::ToolingUnavailable)),
                    )
                }
            },
            _ => Stage::LocatingTool,
        },
        Stage::ProbingRepository => match event {
            Event::CommandFinished(outcome) => match git_checks(true, outcome) {
                Ok(_) => Stage::CollectingDiff,
                Err(e) => Stage::Finished(Outcome::Stopped(e)),
            },
            _ => Stage::ProbingRepository,
        },
        Stage::CollectingDiff => match event {
            Event::CommandFinished(outcome) => match git_diff(outcome) {
                Ok(diff) => Stage::Requesting { diff },
                Err(e) => Stage::Finished(Outcome::Stopped(e)),
            },
            _ => Stage::CollectingDiff,
        },
        Stage::Requesting { diff } => match event {
            Event::Replied(exchange) => match generate_commit_message(&exchange) {
                Ok(draft) => Stage::Confirming { draft },
                Err(e) => Stage::Finished(Outcome::Stopped(e)),
            },
            _ => Stage::Requesting { diff },
        },
        Stage::Confirming { draft } => match event {
            Event::Prompted(outcome) => match edit_commit_message(outcome) {
                Confirmation::Accepted(message) => Stage::Committing { message },
                Confirmation::AskAgain => Stage::Confirming { draft },
                Confirmation::Cancelled => Stage::Finished(
                    Outcome::Stopped(PipelineError::bare(ErrorKind::UserCancelled)),
                ),
            },
            _ => Stage::Confirming { draft },
        },
        Stage::Committing { message } => match event {
            Event::CommandFinished(outcome) => match git_commit(outcome) {
                Ok(summary) => Stage::Finished(Outcome::Committed(summary)),
                Err(e) => Stage::Finished(Outcome::Stopped(e)),
            },
            _ => Stage::Committing { message },
        },
        Stage::Finished(outcome) => Stage::Finished(outcome),
    }
}

/// The exit code of the process for `outcome`: zero where a commit was made
/// or the user cancelled, one where the run failed.
pub fn exit_code(outcome: &Outcome) -> (code: u8)
    ensures
        code as int == exit_status_of(outcome@),
{
    match outcome {
        Outcome::Committed(_) => 0,
        Outcome::Stopped(e) => e.kind.exit_code(),
    }
}

/// A run that is over stays over, whatever is reported to it.
pub proof fn lemma_finished_is_final(outcome: OutcomeView, events: Seq<EventView>)
    ensures
        run(StageView::Finished(outcome), events) == StageView::Finished(outcome),
    decreases events.len(),
{
    if events.len() > 0 {
        lemma_finished_is_final(outcome, events.drop_last());
    }
}

/// A request is due at the stage `Requesting` and at no other, the tool is
/// asked to commit at the stage `Committing` and at no other, and nothing
/// is left to do exactly where the run is over.
pub proof fn lemma_steps_and_stages(config: ConfigView, stage: StageView)
    ensures
        pending_action(config, stage) is SendRequest <==> stage is Requesting,
        pending_action(config, stage) is Prompt <==> stage is Confirming,
        pending_action(config, stage) is Finish <==> stage is Finished,
        is_commit_step(pending_action(config, stage)) <==> stage is Committing,
{
    reveal_strlit("commit");
    reveal_strlit("rev-parse");
    reveal_strlit("--no-pager");
    if stage is Committing {
        assert(pending_action(config, stage) == ActionView::RunCommand(
            commit_arguments(stage->message),
        ));
    }
    if is_commit_step(pending_action(config, stage)) {
        let message = choose|message: Seq<char>|
            pending_action(config, stage) == ActionView::RunCommand(
                #[trigger] commit_arguments(message),
            );
        assert(commit_arguments(message).len() == 3);
        assert(commit_arguments(message)[0] == "commit"@);
        assert(probe_arguments().len() == 2);
        assert(diff_arguments().len() == 8);
    }
}

/// Every stage of every run is sound: whatever is reported, and in whatever
/// order, no request is due without staged changes and no commit without a
/// message that is not empty.
pub proof fn lemma_runs_are_sound(events: Seq<EventView>)
    ensures
        is_sound(run(initial(), events)),
    decreases events.len(),
{
    if events.len() > 0 {
        let before = run(initial(), events.drop_last());
        lemma_runs_are_sound(events.drop_last());
        lemma_step_is_sound(before, events.last());
    }
}

/// One step keeps a stage sound.
pub proof fn lemma_step_is_sound(stage: StageView, event: EventView)
    requires
        is_sound(stage),
    ensures
        is_sound(next_stage(stage, event)),
{
    match (stage, event) {
        (StageView::CollectingDiff, EventView::CommandFinished(outcome)) => {
            if command_text(outcome) is Ok {
                lemma_blank_diff_is_no_change(outcome);
            }
        },
        (StageView::Requesting { diff }, EventView::Replied(exchange)) => {
            if crate::response::raw_reply(exchange) is Ok {
                lemma_sanitized_is_clean(crate::response::raw_reply(exchange)->Ok_0);
            }
        },
        _ => {},
    }
}

/// Where nothing is staged, or white space alone, the run ends with
/// `NoStagedChanges` when the diff comes in, and whatever is reported after
/// that, no request is ever due.
pub proof fn lemma_blank_diff_never_requests(
    config: ConfigView,
    outcome: CommandView,
    later: Seq<EventView>,
)
    requires
        command_text(outcome) is Ok,
        is_blank(command_text(outcome)->Ok_0),
    ensures
        next_stage(StageView::CollectingDiff, EventView::CommandFinished(outcome)) == stopped(
            bare_error(ErrorKind::NoStagedChanges),
        ),
        run(next_stage(StageView::CollectingDiff, EventView::CommandFinished(outcome)), later)
            == stopped(bare_error(ErrorKind::NoStagedChanges)),
        !(pending_action(
            config,
            run(next_stage(StageView::CollectingDiff, EventView::CommandFinished(outcome)), later),
        ) is SendRequest),
{
    lemma_blank_diff_is_no_change(outcome);
    lemma_finished_is_final(
        OutcomeView::Stopped(bare_error(ErrorKind::NoStagedChanges)),
        later,
    );
}

/// A request becomes due in one way only: the diff came in with staged
/// changes in it.
pub proof fn lemma_request_follows_diff(stage: StageView, event: EventView)
    requires
        next_stage(stage, event) is Requesting,
        !(stage is Requesting),
    ensures
        stage is CollectingDiff,
        event matches EventView::CommandFinished(outcome) && staged_diff(outcome) == Ok::<
            Seq<char>,
            ErrorView,
        >(next_stage(stage, event)->diff),
{
}

/// However a run came to collect the staged changes, once they are in a
/// request is due, and it is made of the configuration and the changes
/// alone. Nothing of an earlier run is kept: a run that follows another
/// with the same configuration and the same changes asks again, and for
/// the same thing.
pub proof fn lemma_every_run_requests(
    config: ConfigView,
    before: Seq<EventView>,
    outcome: CommandView,
)
    requires
        run(initial(), before) is CollectingDiff,
        staged_diff(outcome) is Ok,
    ensures
        pending_action(
            config,
            run(initial(), before.push(EventView::CommandFinished(outcome))),
        ) == (ActionView::SendRequest {
            url: endpoint_of(config, Profile::CommitMessage),
            api_key: config.api_key,
            request: commit_request(config, staged_diff(outcome)->Ok_0),
        }),
{
    let events = before.push(EventView::CommandFinished(outcome));
    assert(events.drop_last() =~= before);
}

/// Two runs that have come to collect the same staged changes under the
/// same configuration have the same step due: a request, each its own.
pub proof fn lemma_second_run_requests_again(
    config: ConfigView,
    first: Seq<EventView>,
    second: Seq<EventView>,
    outcome: CommandView,
)
    requires
        run(initial(), first) is CollectingDiff,
        run(initial(), second) is CollectingDiff,
        staged_diff(outcome) is Ok,
    ensures
        pending_action(config, run(initial(), first.push(EventView::CommandFinished(outcome))))
            is SendRequest,
        pending_action(config, run(initial(), first.push(EventView::CommandFinished(outcome))))
            == pending_action(
            config,
            run(initial(), second.push(EventView::CommandFinished(outcome))),
        ),
{
    lemma_every_run_requests(config, first, outcome);
    lemma_every_run_requests(config, second, outcome);
}

/// A cancellation at the prompt ends the run with `UserCancelled`, which is
/// no failure: the exit status is zero. Whatever is reported after it, the
/// tool is never asked to commit.
pub proof fn lemma_cancel_never_commits(
    config: ConfigView,
    draft: Seq<char>,
    later: Seq<EventView>,
)
    ensures
        next_stage(StageView::Confirming { draft }, EventView::Prompted(PromptView::Cancelled))
            == stopped(bare_error(ErrorKind::UserCancelled)),
        run(stopped(bare_error(ErrorKind::UserCancelled)), later) == stopped(
            bare_error(ErrorKind::UserCancelled),
        ),
        pending_action(config, run(stopped(bare_error(ErrorKind::UserCancelled)), later))
            == ActionView::Finish,
        !is_commit_step(
            pending_action(config, run(stopped(bare_error(ErrorKind::UserCancelled)), later)),
        ),
        exit_status_of(OutcomeView::Stopped(bare_error(ErrorKind::UserCancelled))) == 0,
{
    lemma_finished_is_final(OutcomeView::Stopped(bare_error(ErrorKind::UserCancelled)), later);
}

/// The tool is asked to commit in one way only: the user submitted a
/// message that is not empty, and that message is the one committed.
pub proof fn lemma_commit_follows_confirmation(stage: StageView, event: EventView)
    requires
        next_stage(stage, event) is Committing,
        !(stage is Committing),
    ensures
        stage is Confirming,
        event == EventView::Prompted(PromptView::Submitted(next_stage(stage, event)->message)),
        next_stage(stage, event)->message.len() > 0,
{
}

/// An answer without candidates ends the run with `NoCandidates`.
pub proof fn lemma_no_candidates_ends_run(diff: Seq<char>, status: u16, detail: Seq<char>)
    requires
        crate::response::is_success(status),
    ensures
        next_stage(
            StageView::Requesting { diff },
            EventView::Replied(
                ExchangeView::Answered { status, detail, body: Some(Seq::empty()) },
            ),
        ) == stopped(bare_error(ErrorKind::NoCandidates)),
{
    crate::response::lemma_no_candidates(status, detail);
}

/// A run ends with a failure exactly where its exit status is not zero, and
/// the only outcome without a commit that is no failure is a cancellation.
pub proof fn lemma_exit_status(outcome: OutcomeView)
    ensures
        exit_status_of(outcome) == 0 || exit_status_of(outcome) == 1,
        exit_status_of(outcome) == 0 <==> (outcome is Committed || (outcome matches OutcomeView::Stopped(
            e,
        ) && e.kind == ErrorKind::UserCancelled)),
{
}

} // verus!
