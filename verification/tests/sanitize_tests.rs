use commit_assist::error::ErrorKind;
use commit_assist::sanitize::sanitize;
use regex::Regex;

fn clean(raw: &str) -> String {
    match sanitize(raw) {
        Ok(message) => message,
        Err(e) => panic!("no message in {:?}: {:?}", raw, e),
    }
}

#[test]
fn backtick_wrapped_line_is_unwrapped() {
    assert_eq!(clean("`fix: correct off-by-one error`\n"), "fix: correct off-by-one error");
}

#[test]
fn only_the_first_line_is_kept() {
    assert_eq!(clean("Add retry logic\n\nThis also fixes flakiness."), "Add retry logic");
}

#[test]
fn blank_content_fails() {
    for raw in ["", " ", "\n", "\n\n\n", "  \n\t\n  ", "\r\n", "\u{3000}"] {
        match sanitize(raw) {
            Ok(message) => panic!("{:?} gave {:?}", raw, message),
            Err(e) => {
                assert_eq!(e.kind, ErrorKind::PostProcessingFailed);
                assert_eq!(e.cause, "");
            }
        }
    }
}

#[test]
fn blank_lines_before_the_message_are_skipped() {
    assert_eq!(clean("\n\n   \n  feat: add parser  \nmore"), "feat: add parser");
    assert_eq!(clean("\r\n\r\nmsg\r\nrest"), "msg");
}

#[test]
fn surrounding_whitespace_is_stripped() {
    assert_eq!(clean("   plain text \t"), "plain text");
    assert_eq!(clean("  `quoted`  \n"), "quoted");
    assert_eq!(clean("`  inner space  `"), "inner space");
}

#[test]
fn only_one_pair_of_backticks_is_removed() {
    assert_eq!(clean("``double``"), "`double`");
    assert_eq!(clean("`a` `b`"), "a` `b");
}

#[test]
fn lines_that_are_not_wrapped_stay_as_they_are() {
    assert_eq!(clean("`open only"), "`open only");
    assert_eq!(clean("close only`"), "close only`");
    assert_eq!(clean("mid `code` dle"), "mid `code` dle");
    assert_eq!(clean("`"), "`");
    assert_eq!(clean("``"), "``");
    assert_eq!(clean("` `"), "` `");
    assert_eq!(clean("```rust"), "```rust");
}

#[test]
fn a_fence_line_alone_is_unwrapped_once() {
    assert_eq!(clean("```"), "`");
    assert_eq!(clean("```\nfix: x\n```"), "`");
}

#[test]
fn messages_may_hold_any_text() {
    assert_eq!(clean("fix: caf\u{e9} \u{1F600}\n"), "fix: caf\u{e9} \u{1F600}");
    assert_eq!(clean("`\u{e9}`"), "\u{e9}");
}

#[test]
fn the_message_is_one_clean_line() {
    let samples = [
        "a",
        " a ",
        "`a`",
        "\n\n`  a b  `\n\nc",
        "x\ny",
        "\t`\u{3000}z\u{3000}`\t",
        "``",
        "` `",
    ];
    for raw in samples {
        let message = clean(raw);
        assert!(!message.is_empty(), "{:?}", raw);
        assert!(!message.contains('\n'), "{:?}", raw);
        assert_eq!(message.trim(), message, "{:?}", raw);
    }
}

#[test]
fn sanitize_agrees_with_the_pattern_form() {
    let pattern = Regex::new(r"(?m)^\s*(?:`\s*(.+?)\s*`|(.+?))\s*$").unwrap();
    let samples = [
        "`fix: correct off-by-one error`\n",
        "Add retry logic\n\nThis also fixes flakiness.",
        "  leading and trailing  ",
        "\n\n  second paragraph first  \nthird",
        "`a` `b`",
        "` spaced `",
        "``",
        "```rust",
        "```",
        "feat(parser): handle `code` spans",
        "`unterminated",
        "fix: caf\u{e9}\n",
    ];
    for raw in samples {
        let captures = pattern.captures(raw).unwrap();
        let expected = captures.get(1).or(captures.get(2)).unwrap().as_str();
        assert_eq!(clean(raw), expected, "{:?}", raw);
    }
}

#[test]
fn the_rule_is_stricter_than_the_pattern_form_on_degenerate_replies() {
    let pattern = Regex::new(r"(?m)^\s*(?:`\s*(.+?)\s*`|(.+?))\s*$").unwrap();
    let matched = |raw: &str| -> Option<String> {
        let captures = pattern.captures(raw)?;
        Some(captures.get(1).or(captures.get(2))?.as_str().to_string())
    };
    assert_eq!(matched(" "), Some(" ".to_string()));
    assert!(sanitize(" ").is_err());
    assert_eq!(matched("  \n\t"), Some("\t".to_string()));
    assert!(sanitize("  \n\t").is_err());
    assert_eq!(matched("` `"), Some(" ".to_string()));
    assert_eq!(clean("` `"), "` `");
    assert_eq!(matched("`\nfoo`"), Some("foo".to_string()));
    assert_eq!(clean("`\nfoo`"), "`");
}
