//! The version-control side: which commands are run, and what their outcome
//! means for the staged changes, the preflight checks and the commit.

use crate::error::{bare_error, text_result, ErrorKind, ErrorView, PipelineError};
use crate::text::{is_blank, lemma_trimmed_empty_iff_blank, trim, trimmed};
use vstd::prelude::*;
use vstd::string::*;
use vstd::utf8::{decode_utf8, valid_utf8};

verus! {

/// How a run of the version-control tool ended.
#[derive(Debug)]
pub enum CommandOutcome {
    /// The tool could not be started.
    NotStarted { cause: String },
    /// The tool ran and ended; `success` says whether its exit status was zero.
    Exited { success: bool, stdout: Vec<u8>, stderr: Vec<u8> },
}

/// The mathematical view of a `CommandOutcome`.
pub enum CommandView {
    NotStarted { cause: Seq<char> },
    Exited { success: bool, stdout: Seq<u8>, stderr: Seq<u8> },
}

impl View for CommandOutcome {
    type V = CommandView;

    open spec fn view(&self) -> CommandView {
        match self {
            CommandOutcome::NotStarted { cause } => CommandView::NotStarted { cause: cause@ },
            CommandOutcome::Exited { success, stdout, stderr } => CommandView::Exited {
                success: *success,
                stdout: stdout@,
                stderr: stderr@,
            },
        }
    }
}

/// The text that the lossy decoding of the standard library makes of
/// `bytes`: the text they encode, with the replacement character in the
/// place of every part that is not valid UTF-8.
pub uninterp spec fn lossy_text(bytes: Seq<u8>) -> Seq<char>;

/// Calls `String::from_utf8_lossy`, which decodes bytes as UTF-8 and puts
/// the replacement character where they are not valid. Of the result only
/// its name is stated, and that valid UTF-8 is decoded as it is.
#[verifier::external_body]
fn decode_lossy(bytes: &Vec<u8>) -> (text: String)
    ensures
        text@ == lossy_text(bytes@),
        valid_utf8(bytes@) ==> text@ == decode_utf8(bytes@),
{
    String::from_utf8_lossy(bytes).into_owned()
}

/// Calls `String::from_utf8`, which turns bytes into the text they encode
/// and refuses bytes that are not valid UTF-8.
#[verifier::external_body]
fn decode_strict(bytes: Vec<u8>) -> (text: Option<String>)
    ensures
        text is Some <==> valid_utf8(bytes@),
        text matches Some(s) ==> s@ == decode_utf8(bytes@),
{
    match String::from_utf8(bytes) {
        Ok(s) => Some(s),
        Err(_) => None,
    }
}

/// What a tool wrote to standard error, as text: the text that the bytes
/// encode where they are valid UTF-8, and their lossy decoding where not.
pub open spec fn error_text(stderr: Seq<u8>) -> Seq<char> {
    if valid_utf8(stderr) {
        decode_utf8(stderr)
    } else {
        lossy_text(stderr)
    }
}

/// What a run of the tool gives: its standard output as text where it ended
/// well; where it did not, why.
///
/// A tool that could not be started is `ToolingUnavailable`. A run that
/// ended with a non-zero status is `CommandFailed` and carries what the
/// tool wrote to standard error, word for word. An output that is not
/// valid UTF-8 is `OutputNotText`.
pub open spec fn command_text(outcome: CommandView) -> Result<Seq<char>, ErrorView> {
    match outcome {
        CommandView::NotStarted { cause } => Err(
            ErrorView { kind: ErrorKind::ToolingUnavailable, cause },
        ),
        CommandView::Exited { success, stdout, stderr } => if !success {
            Err(ErrorView { kind: ErrorKind::CommandFailed, cause: error_text(stderr) })
        } else if valid_utf8(stdout) {
            Ok(decode_utf8(stdout))
        } else {
            Err(bare_error(ErrorKind::OutputNotText))
        },
    }
}

/// The verdict of the two preflight checks: the tool must be on the search
/// path, and the probe for a working tree must end well. The probe counts
/// only where the tool was found.
pub open spec fn preflight(tool_found: bool, probe: CommandView) -> Result<(), ErrorView> {
    if !tool_found {
        Err(bare_error(ErrorKind::ToolingUnavailable))
    } else {
        match command_text(probe) {
            Ok(_) => Ok(()),
            Err(e) => Err(ErrorView { kind: ErrorKind::NotARepository, cause: e.cause }),
        }
    }
}

/// The staged changes that the diff command reported: its output, trimmed;
/// `NoStagedChanges` where that is empty.
pub open spec fn staged_diff(outcome: CommandView) -> Result<Seq<char>, ErrorView> {
    match command_text(outcome) {
        Ok(text) => if is_blank(text) {
            Err(bare_error(ErrorKind::NoStagedChanges))
        } else {
            Ok(trimmed(text))
        },
        Err(e) => Err(e),
    }
}

/// What the commit command reported: its output, trimmed.
pub open spec fn commit_summary(outcome: CommandView) -> Result<Seq<char>, ErrorView> {
    match command_text(outcome) {
        Ok(text) => Ok(trimmed(text)),
        Err(e) => Err(e),
    }
}

/// The arguments of the probe for a working tree.
pub open spec fn probe_arguments() -> Seq<Seq<char>> {
    seq!["rev-parse"@, "--is-inside-work-tree"@]
}

/// The arguments of the diff command: staged changes only, minimal, without
/// pager, colour or external diff, and without lock files.
pub open spec fn diff_arguments() -> Seq<Seq<char>> {
    seq![
        "--no-pager"@,
        "diff"@,
        "--staged"@,
        "--minimal"@,
        "--no-color"@,
        "--no-ext-diff"@,
        "--"@,
        ":!*.lock"@,
    ]
}

/// The arguments of the commit command for `message`.
pub open spec fn commit_arguments(message: Seq<char>) -> Seq<Seq<char>> {
    seq!["commit"@, "-m"@, message]
}

/// The name under which the version-control tool is looked for and run.
pub open spec fn tool() -> Seq<char> {
    "git"@
}

/// The name under which the version-control tool is looked for and run.
pub fn tool_name() -> (name: &'static str)
    ensures
        name@ == tool(),
{
    "git"
}

/// Calls `which::which`, which looks for an executable of the given name in
/// the directories of the search path. Nothing is stated of the answer: it
/// depends on the machine that is asked.
#[verifier::external_body]
pub(crate) fn on_search_path(name: &str) -> (found: bool) {
    which::which(name).is_ok()
}

/// The arguments with which the tool is asked whether the current directory
/// lies inside a working tree.
pub fn probe_args() -> (args: Vec<String>)
    ensures
        args.deep_view() == probe_arguments(),
{
    let mut args: Vec<String> = Vec::new();
    args.push(String::from_str("rev-parse"));
    args.push(String::from_str("--is-inside-work-tree"));
    assert(args.deep_view() =~= probe_arguments());
    args
}

/// The arguments with which the tool is asked for the staged changes.
pub fn diff_args() -> (args: Vec<String>)
    ensures
        args.deep_view() == diff_arguments(),
{
    let mut args: Vec<String> = Vec::new();
    args.push(String::from_str("--no-pager"));
    args.push(String::from_str("diff"));
    args.push(String::from_str("--staged"));
    args.push(String::from_str("--minimal"));
    args.push(String::from_str("--no-color"));
    args.push(String::from_str("--no-ext-diff"));
    args.push(String::from_str("--"));
    args.push(String::from_str(":!*.lock"));
    assert(args.deep_view() =~= diff_arguments());
    args
}

/// The arguments with which the tool is asked to commit with `message`.
pub fn commit_args(message: &str) -> (args: Vec<String>)
    ensures
        args.deep_view() == commit_arguments(message@),
{
    let mut args: Vec<String> = Vec::new();
    args.push(String::from_str("commit"));
    args.push(String::from_str("-m"));
    args.push(String::from_str(message));
    assert(args.deep_view() =~= commit_arguments(message@));
    args
}

/// Reads the outcome of a run of the tool: its standard output as text, or
/// the error that the outcome stands for.
pub fn run_git_command(outcome: CommandOutcome) -> (r: Result<String, PipelineError>)
    ensures
        text_result(r) == command_text(outcome@),
{
    match outcome {
        CommandOutcome::NotStarted { cause } => Err(
            PipelineError { kind: ErrorKind::ToolingUnavailable, cause },
        ),
        CommandOutcome::Exited { success, stdout, stderr } => {
            if !success {
                let cause = decode_lossy(&stderr);
                Err(PipelineError { kind: ErrorKind::CommandFailed, cause })
            } else {
                match decode_strict(stdout) {
                    Some(text) => Ok(text),
                    None => Err(PipelineError::bare(ErrorKind::OutputNotText)),
                }
            }
        },
    }
}

/// The preflight checks: `tool_found` says whether the tool is on the search
/// path, `probe` how the probe for a working tree ended. A missing tool is
/// `ToolingUnavailable` whatever the probe says; a probe that did not end
/// well is `NotARepository`, with the cause of its failure.
pub fn git_checks(tool_found: bool, probe: CommandOutcome) -> (r: Result<(), PipelineError>)
    ensures
        match r {
            Ok(_) => preflight(tool_found, probe@) == Ok::<(), ErrorView>(()),
            Err(e) => preflight(tool_found, probe@) == Err::<(), ErrorView>(e@),
        },
{
    if !tool_found {
        return Err(PipelineError::bare(ErrorKind::ToolingUnavailable));
    }
    match run_git_command(probe) {
        Ok(_) => Ok(()),
        Err(e) => Err(PipelineError { kind: ErrorKind::NotARepository, cause: e.cause }),
    }
}

/// The staged changes, from the outcome of the diff command: its output
/// without the white space around it, or `NoStagedChanges` where nothing
/// else is left of it.
pub fn git_diff(outcome: CommandOutcome) -> (r: Result<String, PipelineError>)
    ensures
        text_result(r) == staged_diff(outcome@),
{
    match run_git_command(outcome) {
        Ok(text) => {
            let diff = trim(text.as_str());
            proof {
                lemma_trimmed_empty_iff_blank(text@);
            }
            if diff.is_empty() {
                Err(PipelineError::bare(ErrorKind::NoStagedChanges))
            } else {
                Ok(String::from_str(diff))
            }
        },
        Err(e) => Err(e),
    }
}

/// What the commit command reported, from its outcome: its output without
/// the white space around it.
pub fn git_commit(outcome: CommandOutcome) -> (r: Result<String, PipelineError>)
    ensures
        text_result(r) == commit_summary(outcome@),
{
    match run_git_command(outcome) {
        Ok(text) => Ok(String::from_str(trim(text.as_str()))),
        Err(e) => Err(e),
    }
}

/// Staged changes that are white space alone, or nothing at all, are no
/// staged changes: the diff is then `NoStagedChanges`, and otherwise it is
/// not.
pub proof fn lemma_blank_diff_is_no_change(outcome: CommandView)
    requires
        command_text(outcome) is Ok,
    ensures
        is_blank(command_text(outcome)->Ok_0) <==> staged_diff(outcome) == Err::<
            Seq<char>,
            ErrorView,
        >(bare_error(ErrorKind::NoStagedChanges)),
        staged_diff(outcome) matches Ok(diff) ==> diff.len() > 0 && !is_blank(diff),
{
    let text = command_text(outcome)->Ok_0;
    lemma_trimmed_empty_iff_blank(text);
    crate::text::lemma_trimmed_is_trim(text);
    if !is_blank(text) {
        let diff = trimmed(text);
        assert(!crate::text::is_space(diff[0]));
    }
}

} // verus!
