use commit_assist::text::{chars_of, fill_template, is_whitespace, trim};

#[test]
fn whitespace_is_the_unicode_property() {
    let mut code: u32 = 0;
    while code <= 0x10FFFF {
        if let Some(c) = char::from_u32(code) {
            assert_eq!(is_whitespace(c), c.is_whitespace(), "U+{:04X}", code);
        }
        code += 1;
    }
}

#[test]
fn whitespace_edges() {
    assert!(is_whitespace('\t'));
    assert!(is_whitespace('\n'));
    assert!(is_whitespace('\r'));
    assert!(is_whitespace(' '));
    assert!(is_whitespace('\u{3000}'));
    assert!(is_whitespace('\u{200a}'));
    assert!(!is_whitespace('\u{200b}'));
    assert!(!is_whitespace('\u{8}'));
    assert!(!is_whitespace('\u{e}'));
    assert!(!is_whitespace('`'));
    assert!(!is_whitespace('a'));
}

#[test]
fn chars_of_keeps_every_character() {
    assert_eq!(chars_of(""), Vec::<char>::new());
    assert_eq!(chars_of("a\u{e9}\u{1F600}"), vec!['a', '\u{e9}', '\u{1F600}']);
}

#[test]
fn trim_removes_both_ends() {
    assert_eq!(trim("  a b \n"), "a b");
    assert_eq!(trim("a"), "a");
    assert_eq!(trim(""), "");
    assert_eq!(trim(" \t\r\n"), "");
    assert_eq!(trim("\u{3000}\u{e9}t\u{e9}\u{a0}"), "\u{e9}t\u{e9}");
    assert_eq!(trim("no space"), "no space");
}

#[test]
fn trim_agrees_with_std() {
    let samples = [
        "",
        " ",
        "x",
        "  x",
        "x  ",
        "\n\nline one\nline two\n\n",
        "\u{2003}wide\u{2003}",
        "\u{1F600} ",
        " \u{200b} ",
    ];
    for s in samples {
        assert_eq!(trim(s), s.trim(), "{:?}", s);
    }
}

#[test]
fn fill_template_puts_the_value_at_the_marker() {
    assert_eq!(fill_template("Diff:\n{}", "+ a\n- b"), "Diff:\n+ a\n- b");
    assert_eq!(fill_template("{}", "v"), "v");
    assert_eq!(fill_template("a{}b", ""), "ab");
    assert_eq!(fill_template("before {} after", "X"), "before X after");
}

#[test]
fn fill_template_without_marker_is_unchanged() {
    assert_eq!(fill_template("no marker", "v"), "no marker");
    assert_eq!(fill_template("", "v"), "");
    assert_eq!(fill_template("{ }", "v"), "{ }");
    assert_eq!(fill_template("}{", "v"), "}{");
}

#[test]
fn fill_template_replaces_every_marker() {
    assert_eq!(fill_template("{}{}", "ab"), "abab");
    assert_eq!(fill_template("{{}}", "x"), "{x}");
    assert_eq!(fill_template("a{}b{}c", "-"), "a-b-c");
}

#[test]
fn fill_template_does_not_read_the_value_again() {
    assert_eq!(fill_template("<{}>", "{}"), "<{}>");
    assert_eq!(fill_template("{}{}", "{}"), "{}{}");
}

#[test]
fn fill_template_agrees_with_std() {
    let templates = ["", "{}", "x{}y", "{{}}", "{}{}{}", "{", "}", "\u{e9}{}\u{1F600}", "{ }{}"];
    let values = ["", "v", "{}", "multi\nline", "\u{e9}"];
    for t in templates {
        for v in values {
            assert_eq!(fill_template(t, v), t.replace("{}", v), "{:?} {:?}", t, v);
        }
    }
}
