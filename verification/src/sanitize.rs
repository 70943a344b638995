//! From the raw reply of the model to one clean line: the first line that
//! holds anything but white space, trimmed, and taken out of its backticks
//! where it stands in a pair of them.

use crate::error::{bare_error, ErrorKind, PipelineError};
use crate::text::{
    chars_of, is_blank, is_space, lemma_trimmed_empty_iff_blank, lemma_trimmed_end_shape,
    lemma_trimmed_is_trim, lemma_trimmed_shape, lemma_trimmed_span, lemma_trimmed_start_shape,
    skip_spaces, skip_spaces_back, trimmed, trimmed_end, trimmed_start,
};
use vstd::prelude::*;
use vstd::string::*;

verus! {

/// Where the first line of `s` ends: the position of its first line feed, or
/// its length where it has none.
pub open spec fn line_end(s: Seq<char>) -> int
    decreases s.len(),
{
    if s.len() == 0 || s.first() == '\n' {
        0
    } else {
        1 + line_end(s.drop_first())
    }
}

/// No character of `s` is a line feed.
pub open spec fn is_single_line(s: Seq<char>) -> bool {
    forall|i: int| 0 <= i < s.len() ==> #[trigger] s[i] != '\n'
}

/// `line_end` is the position of the first line feed.
pub proof fn lemma_line_end(s: Seq<char>)
    ensures
        0 <= line_end(s) <= s.len(),
        is_single_line(s.subrange(0, line_end(s))),
        line_end(s) < s.len() ==> s[line_end(s)] == '\n',
    decreases s.len(),
{
    if s.len() == 0 || s.first() == '\n' {
    } else {
        let rest = s.drop_first();
        lemma_line_end(rest);
        let first = s.subrange(0, line_end(s));
        assert forall|i: int| 0 <= i < first.len() implies #[trigger] first[i] != '\n' by {
            if i > 0 {
                assert(first[i] == rest.subrange(0, line_end(rest))[i - 1]);
            }
        }
    }
}

/// The first line feed of `s` stands at `e`, or `s` has none and `e` is its length.
pub proof fn lemma_line_end_at(s: Seq<char>, e: int)
    requires
        0 <= e <= s.len(),
        forall|i: int| 0 <= i < e ==> #[trigger] s[i] != '\n',
        e < s.len() ==> s[e] == '\n',
    ensures
        line_end(s) == e,
    decreases s.len(),
{
    if e > 0 {
        let rest = s.drop_first();
        assert forall|i: int| 0 <= i < e - 1 implies #[trigger] rest[i] != '\n' by {
            assert(rest[i] == s[i + 1]);
        }
        lemma_line_end_at(rest, e - 1);
    }
}

/// The first line of `raw` that holds anything but white space, trimmed;
/// `None` where `raw` has no such line.
pub open spec fn message_line(raw: Seq<char>) -> Option<Seq<char>>
    decreases raw.len(),
{
    let end = line_end(raw);
    let line = trimmed(raw.subrange(0, end));
    if line.len() > 0 {
        Some(line)
    } else if end < raw.len() {
        proof {
            lemma_line_end(raw);
        }
        message_line(raw.subrange(end + 1, raw.len() as int))
    } else {
        None
    }
}

/// `line` stands in a pair of backticks with something but white space
/// between them.
pub open spec fn is_quoted(line: Seq<char>) -> bool {
    &&& line.len() >= 2
    &&& line.first() == '`'
    &&& line.last() == '`'
    &&& !is_blank(line.subrange(1, line.len() - 1))
}

/// `line` taken out of its pair of backticks, and trimmed again, where it
/// stands in one; `line` itself where it does not.
pub open spec fn unquoted(line: Seq<char>) -> Seq<char> {
    if is_quoted(line) {
        trimmed(line.subrange(1, line.len() - 1))
    } else {
        line
    }
}

/// The message that a raw reply stands for, if any: its first line that is
/// not blank, trimmed and unquoted.
pub open spec fn sanitized(raw: Seq<char>) -> Option<Seq<char>> {
    match message_line(raw) {
        Some(line) => Some(unquoted(line)),
        None => None,
    }
}

/// Where the message line of `raw` stands: after the white space that `raw`
/// begins with (`a`), up to the last character before the next line feed
/// (`e`) that is no white space (`b`). A reply of white space alone has none.
pub proof fn lemma_message_line_at(raw: Seq<char>, a: int, e: int, b: int)
    requires
        0 <= a <= raw.len(),
        forall|i: int| 0 <= i < a ==> is_space(#[trigger] raw[i]),
        a < raw.len() ==> {
            &&& !is_space(raw[a])
            &&& a < b <= e <= raw.len()
            &&& forall|i: int| a <= i < e ==> #[trigger] raw[i] != '\n'
            &&& e < raw.len() ==> raw[e] == '\n'
            &&& forall|i: int| b <= i < e ==> is_space(#[trigger] raw[i])
            &&& !is_space(raw[b - 1])
        },
    ensures
        a == raw.len() ==> message_line(raw) is None,
        a < raw.len() ==> message_line(raw) == Some(raw.subrange(a, b)),
    decreases raw.len(),
{
    lemma_line_end(raw);
    let end = line_end(raw);
    let first = raw.subrange(0, end);
    let n = raw.len() as int;
    assert(is_space('\n'));
    if a < end {
        assert(e == end) by {
            assert forall|i: int| 0 <= i < e implies #[trigger] raw[i] != '\n' by {
                if i < a {
                    assert(first[i] == raw[i]);
                }
            }
            lemma_line_end_at(raw, e);
        }
        lemma_trimmed_span(first, a, b);
        assert(first.subrange(a, b) =~= raw.subrange(a, b));
    } else {
        assert(is_blank(first)) by {
            assert forall|i: int| 0 <= i < first.len() implies is_space(#[trigger] first[i]) by {
                assert(first[i] == raw[i]);
            }
        }
        lemma_trimmed_empty_iff_blank(first);
        if end < n {
            assert(a > end);
            let rest = raw.subrange(end + 1, n);
            assert forall|i: int| 0 <= i < a - end - 1 implies is_space(#[trigger] rest[i]) by {
                assert(rest[i] == raw[i + end + 1]);
            }
            if a < n {
                assert forall|i: int| a - end - 1 <= i < e - end - 1 implies #[trigger] rest[i]
                    != '\n' by {
                    assert(rest[i] == raw[i + end + 1]);
                }
                assert forall|i: int| b - end - 1 <= i < e - end - 1 implies is_space(
                    #[trigger] rest[i],
                ) by {
                    assert(rest[i] == raw[i + end + 1]);
                }
            }
            lemma_message_line_at(rest, a - end - 1, e - end - 1, b - end - 1);
            if a < n {
                assert(rest.subrange(a - end - 1, b - end - 1) =~= raw.subrange(a, b));
            }
        }
    }
}

/// Every reply has its message line between two positions, or none: what
/// stands before the first is white space, the line begins and ends with
/// another character and holds no line feed.
pub proof fn lemma_message_line_span(raw: Seq<char>) -> (span: (int, int))
    ensures
        0 <= span.0 <= span.1 <= raw.len(),
        forall|i: int| 0 <= i < span.0 ==> is_space(#[trigger] raw[i]),
        span.0 == span.1 ==> span.0 == raw.len() && message_line(raw) is None,
        span.0 < span.1 ==> {
            &&& message_line(raw) == Some(raw.subrange(span.0, span.1))
            &&& !is_space(raw[span.0])
            &&& !is_space(raw[span.1 - 1])
            &&& is_single_line(raw.subrange(span.0, span.1))
        },
{
    let n = raw.len() as int;
    lemma_trimmed_start_shape(raw);
    let a = n - trimmed_start(raw).len();
    if a < n {
        let tail = raw.subrange(a, n);
        assert(tail.first() == raw[a]);
        lemma_line_end(tail);
        let e = a + line_end(tail);
        let line = raw.subrange(a, e);
        assert(line =~= tail.subrange(0, line_end(tail)));
        lemma_trimmed_end_shape(line);
        let b = a + trimmed_end(line).len();
        assert(is_space('\n'));
        assert(a < e);
        assert(a < b) by {
            if a == b {
                assert(is_space(line[0]));
            }
        }
        assert forall|i: int| a <= i < e implies #[trigger] raw[i] != '\n' by {
            assert(raw[i] == line[i - a]);
        }
        assert(e < n ==> raw[e] == '\n') by {
            if e < n {
                assert(raw[e] == tail[e - a]);
            }
        }
        assert forall|i: int| b <= i < e implies is_space(#[trigger] raw[i]) by {
            assert(raw[i] == line[i - a]);
        }
        assert(!is_space(raw[b - 1])) by {
            assert(trimmed_end(line).last() == line[b - a - 1]);
        }
        lemma_message_line_at(raw, a, e, b);
        let kept = raw.subrange(a, b);
        assert forall|i: int| 0 <= i < kept.len() implies #[trigger] kept[i] != '\n' by {
            assert(kept[i] == raw[a + i]);
        }
        (a, b)
    } else {
        lemma_message_line_at(raw, a, a, a);
        (a, a)
    }
}

/// The first line feed in `lo..hi`, or `hi`.
fn find_line_feed(v: &Vec<char>, lo: usize, hi: usize) -> (e: usize)
    requires
        lo <= hi <= v.len(),
    ensures
        lo <= e <= hi,
        forall|i: int| lo <= i < e ==> #[trigger] v@[i] != '\n',
        e < hi ==> v@[e as int] == '\n',
{
    let mut e: usize = lo;
    while e < hi && v[e] != '\n'
        invariant
            lo <= e <= hi <= v.len(),
            forall|i: int| lo <= i < e ==> #[trigger] v@[i] != '\n',
        decreases hi - e,
    {
        e += 1;
    }
    e
}

/// The one line that a raw reply of the model stands for.
///
/// The reply is read line by line. The first line that holds anything but
/// white space is taken and trimmed; where it then stands in a pair of
/// backticks with text between them, that text is taken, trimmed again.
/// What follows that line is left out. A reply of white space alone gives
/// `PostProcessingFailed`.
pub fn sanitize(raw: &str) -> (r: Result<String, PipelineError>)
    ensures
        match r {
            Ok(message) => sanitized(raw@) == Some(message@),
            Err(e) => sanitized(raw@) is None && e@ == bare_error(ErrorKind::PostProcessingFailed),
        },
        r is Err <==> is_blank(raw@),
{
    proof {
        lemma_sanitized_none_iff_blank(raw@);
    }
    let v = chars_of(raw);
    let n = v.len();
    let a = skip_spaces(&v, 0, n);
    if a == n {
        proof {
            lemma_message_line_at(raw@, a as int, a as int, a as int);
        }
        return Err(PipelineError::bare(ErrorKind::PostProcessingFailed));
    }
    let e = find_line_feed(&v, a, n);
    let b = skip_spaces_back(&v, a, e);
    proof {
        assert(is_space('\n'));
        lemma_message_line_at(raw@, a as int, e as int, b as int);
    }
    let ghost line = raw@.subrange(a as int, b as int);
    if b - a >= 2 && v[a] == '`' && v[b - 1] == '`' {
        let ghost inner = line.subrange(1, line.len() - 1);
        assert(inner =~= raw@.subrange(a + 1, b - 1));
        let ia = skip_spaces(&v, a + 1, b - 1);
        if ia < b - 1 {
            let ib = skip_spaces_back(&v, ia, b - 1);
            proof {
                assert(inner[ia - a - 1] == raw@[ia as int]);
                assert forall|i: int| 0 <= i < ia - a - 1 implies is_space(#[trigger] inner[i]) by {
                    assert(inner[i] == raw@[i + a + 1]);
                }
                assert forall|i: int| ib - a - 1 <= i < inner.len() implies is_space(
                    #[trigger] inner[i],
                ) by {
                    assert(inner[i] == raw@[i + a + 1]);
                }
                assert(inner[ib - a - 2] == raw@[ib - 1]);
                lemma_trimmed_span(inner, ia - a - 1, ib - a - 1);
                assert(inner.subrange(ia - a - 1, ib - a - 1) =~= raw@.subrange(
                    ia as int,
                    ib as int,
                ));
            }
            return Ok(String::from_str(raw.substring_char(ia, ib)));
        }
        assert(is_blank(inner)) by {
            assert forall|i: int| 0 <= i < inner.len() implies is_space(#[trigger] inner[i]) by {
                assert(inner[i] == raw@[i + a + 1]);
            }
        }
    }
    Ok(String::from_str(raw.substring_char(a, b)))
}

/// A reply has no message exactly where it is white space throughout.
pub proof fn lemma_sanitized_none_iff_blank(raw: Seq<char>)
    ensures
        sanitized(raw) is None <==> is_blank(raw),
{
    let span = lemma_message_line_span(raw);
    if span.0 < span.1 {
        assert(!is_space(raw[span.0]));
    }
}

/// The message of a reply is one line that is not empty and neither begins
/// nor ends with white space.
pub proof fn lemma_sanitized_is_clean(raw: Seq<char>)
    ensures
        sanitized(raw) matches Some(message) ==> {
            &&& message.len() > 0
            &&& is_single_line(message)
            &&& !is_space(message.first())
            &&& !is_space(message.last())
        },
{
    let (a, b) = lemma_message_line_span(raw);
    if a < b {
        let line = raw.subrange(a, b);
        assert(line.first() == raw[a] && line.last() == raw[b - 1]);
        if is_quoted(line) {
            let inner = line.subrange(1, line.len() - 1);
            let span = lemma_trimmed_shape(inner);
            lemma_trimmed_empty_iff_blank(inner);
            lemma_trimmed_is_trim(inner);
            let message = trimmed(inner);
            assert forall|i: int| 0 <= i < message.len() implies #[trigger] message[i] != '\n' by {
                assert(message[i] == line[1 + span.0 + i]);
            }
        }
    }
}

/// A reply that holds one line in backticks, with white space at most around
/// it, stands for what is between the backticks, trimmed.
pub proof fn lemma_sanitized_quoted_line(lead: Seq<char>, inner: Seq<char>, tail: Seq<char>)
    requires
        is_blank(lead),
        is_blank(tail),
        is_single_line(inner),
        !is_blank(inner),
    ensures
        sanitized(lead + seq!['`'] + inner + seq!['`'] + tail) == Some(trimmed(inner)),
{
    let raw = lead + seq!['`'] + inner + seq!['`'] + tail;
    let a = lead.len() as int;
    let b = a + inner.len() + 2;
    assert(raw[a] == '`' && raw[b - 1] == '`');
    assert forall|i: int| b <= i < raw.len() implies is_space(#[trigger] raw[i]) by {
        assert(raw[i] == tail[i - b]);
    }
    assert(is_space('\n'));
    let e = b + line_end(tail);
    lemma_line_end(tail);
    assert forall|i: int| a <= i < e implies #[trigger] raw[i] != '\n' by {
        if a < i < b - 1 {
            assert(raw[i] == inner[i - a - 1]);
        } else if i >= b {
            assert(raw[i] == tail.subrange(0, line_end(tail))[i - b]);
        }
    }
    assert(e < raw.len() ==> raw[e] == '\n') by {
        if e < raw.len() {
            assert(raw[e] == tail[e - b]);
        }
    }
    assert forall|i: int| 0 <= i < a implies is_space(#[trigger] raw[i]) by {
        assert(raw[i] == lead[i]);
    }
    lemma_message_line_at(raw, a, e, b);
    let line = raw.subrange(a, b);
    assert(line.subrange(1, line.len() - 1) =~= inner);
}

/// Only the first line that is not blank counts: what follows its line feed
/// changes nothing.
pub proof fn lemma_sanitized_first_line(head: Seq<char>, rest: Seq<char>)
    requires
        is_single_line(head),
        !is_blank(head),
    ensures
        sanitized(head + seq!['\n'] + rest) == Some(unquoted(trimmed(head))),
        sanitized(head + seq!['\n'] + rest) == sanitized(head),
{
    let raw = head + seq!['\n'] + rest;
    let span = lemma_trimmed_shape(head);
    lemma_trimmed_empty_iff_blank(head);
    let e = head.len() as int;
    assert(raw[e] == '\n');
    assert forall|i: int| 0 <= i < e implies raw[i] == head[i] by {}
    lemma_message_line_at(raw, span.0, e, span.1);
    lemma_message_line_at(head, span.0, e, span.1);
    assert(raw.subrange(span.0, span.1) =~= head.subrange(span.0, span.1));
}

} // verus!
