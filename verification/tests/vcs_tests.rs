use commit_assist::error::ErrorKind;
use commit_assist::vcs::{
    commit_args, diff_args, git_checks, git_commit, git_diff, probe_args, run_git_command,
    tool_name, CommandOutcome,
};

fn exited(success: bool, stdout: &[u8], stderr: &[u8]) -> CommandOutcome {
    CommandOutcome::Exited { success, stdout: stdout.to_vec(), stderr: stderr.to_vec() }
}

fn not_started(cause: &str) -> CommandOutcome {
    CommandOutcome::NotStarted { cause: cause.to_string() }
}

#[test]
fn probe_arguments_are_fixed() {
    assert_eq!(probe_args(), vec!["rev-parse", "--is-inside-work-tree"]);
}

#[test]
fn diff_arguments_are_fixed() {
    assert_eq!(
        diff_args(),
        vec![
            "--no-pager",
            "diff",
            "--staged",
            "--minimal",
            "--no-color",
            "--no-ext-diff",
            "--",
            ":!*.lock",
        ]
    );
}

#[test]
fn commit_arguments_carry_the_message() {
    assert_eq!(commit_args("fix: x"), vec!["commit", "-m", "fix: x"]);
    assert_eq!(commit_args(" two\nlines "), vec!["commit", "-m", " two\nlines "]);
}

#[test]
fn output_of_a_good_run_is_returned_as_it_is() {
    let text = run_git_command(exited(true, b"  true\n", b"warning")).unwrap();
    assert_eq!(text, "  true\n");
    let text = run_git_command(exited(true, "caf\u{e9}".as_bytes(), b"")).unwrap();
    assert_eq!(text, "caf\u{e9}");
    let text = run_git_command(exited(true, b"", b"")).unwrap();
    assert_eq!(text, "");
}

#[test]
fn a_tool_that_did_not_start_is_unavailable() {
    let e = run_git_command(not_started("No such file or directory")).unwrap_err();
    assert_eq!(e.kind, ErrorKind::ToolingUnavailable);
    assert_eq!(e.cause, "No such file or directory");
}

#[test]
fn a_failed_run_carries_standard_error() {
    let e = run_git_command(exited(false, b"ignored", b"fatal: bad revision\n")).unwrap_err();
    assert_eq!(e.kind, ErrorKind::CommandFailed);
    assert_eq!(e.cause, "fatal: bad revision\n");
    assert_eq!(e.message(), "fatal: bad revision\n");
}

#[test]
fn standard_error_is_decoded_leniently() {
    let e = run_git_command(exited(false, b"", &[b'a', 0xff, b'b'])).unwrap_err();
    assert_eq!(e.kind, ErrorKind::CommandFailed);
    assert_eq!(e.cause, "a\u{fffd}b");
}

#[test]
fn output_that_is_no_text_is_refused() {
    let e = run_git_command(exited(true, &[0xc3, 0x28], b"")).unwrap_err();
    assert_eq!(e.kind, ErrorKind::OutputNotText);
    assert_eq!(e.cause, "");
}

#[test]
fn status_is_looked_at_before_the_output() {
    let e = run_git_command(exited(false, &[0xff], b"boom")).unwrap_err();
    assert_eq!(e.kind, ErrorKind::CommandFailed);
    assert_eq!(e.cause, "boom");
}

#[test]
fn checks_pass_with_tool_and_working_tree() {
    assert!(git_checks(true, exited(true, b"true\n", b"")).is_ok());
    assert!(git_checks(true, exited(true, b"", b"")).is_ok());
}

#[test]
fn a_missing_tool_is_reported_first() {
    let e = git_checks(false, exited(true, b"true\n", b"")).unwrap_err();
    assert_eq!(e.kind, ErrorKind::ToolingUnavailable);
    assert_eq!(e.cause, "");
    let e = git_checks(false, exited(false, b"", b"fatal")).unwrap_err();
    assert_eq!(e.kind, ErrorKind::ToolingUnavailable);
}

#[test]
fn a_failed_probe_is_no_repository() {
    let e = git_checks(true, exited(false, b"", b"fatal: not a git repository\n")).unwrap_err();
    assert_eq!(e.kind, ErrorKind::NotARepository);
    assert_eq!(e.cause, "fatal: not a git repository\n");
    assert_eq!(e.message(), "The current directory is not a Git repository.");
    let e = git_checks(true, not_started("spawn failed")).unwrap_err();
    assert_eq!(e.kind, ErrorKind::NotARepository);
    assert_eq!(e.cause, "spawn failed");
    let e = git_checks(true, exited(true, &[0xff], b"")).unwrap_err();
    assert_eq!(e.kind, ErrorKind::NotARepository);
}

#[test]
fn empty_diff_is_no_staged_changes() {
    for raw in ["", " ", "\n", " \n\t \r\n"] {
        let e = git_diff(exited(true, raw.as_bytes(), b"")).unwrap_err();
        assert_eq!(e.kind, ErrorKind::NoStagedChanges, "{:?}", raw);
        assert_eq!(e.cause, "");
        assert_eq!(e.message(), "There are no staged changes to commit.");
    }
}

#[test]
fn diff_is_trimmed() {
    let diff = git_diff(exited(true, b"\n+ added logging\n- removed debug print\n\n", b"")).unwrap();
    assert_eq!(diff, "+ added logging\n- removed debug print");
    let diff = git_diff(exited(true, b"x", b"")).unwrap();
    assert_eq!(diff, "x");
}

#[test]
fn diff_passes_command_errors_on() {
    let e = git_diff(exited(false, b"+ a", b"fatal: oops")).unwrap_err();
    assert_eq!(e.kind, ErrorKind::CommandFailed);
    assert_eq!(e.cause, "fatal: oops");
    let e = git_diff(not_started("gone")).unwrap_err();
    assert_eq!(e.kind, ErrorKind::ToolingUnavailable);
    let e = git_diff(exited(true, &[0x80], b"")).unwrap_err();
    assert_eq!(e.kind, ErrorKind::OutputNotText);
}

#[test]
fn commit_summary_is_trimmed() {
    let out = git_commit(exited(true, b"[main 1a2b3c4] fix: x\n 1 file changed\n", b"")).unwrap();
    assert_eq!(out, "[main 1a2b3c4] fix: x\n 1 file changed");
    let out = git_commit(exited(true, b"", b"")).unwrap();
    assert_eq!(out, "");
}

#[test]
fn commit_passes_command_errors_on() {
    let e = git_commit(exited(false, b"", b"hook declined\n")).unwrap_err();
    assert_eq!(e.kind, ErrorKind::CommandFailed);
    assert_eq!(e.cause, "hook declined\n");
}

#[test]
fn the_tool_is_git() {
    assert_eq!(tool_name(), "git");
}
