//! Text as sequences of characters: white space, trimming, lines, and the
//! substitution marker of a prompt template.

use vstd::prelude::*;
use vstd::string::*;

verus! {

/// White space as Unicode defines it (the derived core property `White_Space`).
pub open spec fn is_space(c: char) -> bool {
    ||| '\u{9}' <= c <= '\u{d}'
    ||| c == ' '
    ||| c == '\u{85}'
    ||| c == '\u{a0}'
    ||| c == '\u{1680}'
    ||| '\u{2000}' <= c <= '\u{200a}'
    ||| c == '\u{2028}'
    ||| c == '\u{2029}'
    ||| c == '\u{202f}'
    ||| c == '\u{205f}'
    ||| c == '\u{3000}'
}

/// Whether `c` is white space.
pub fn is_whitespace(c: char) -> (b: bool)
    ensures
        b == is_space(c),
{
    ('\u{9}' <= c && c <= '\u{d}') || c == ' ' || c == '\u{85}' || c == '\u{a0}' || c == '\u{1680}'
        || ('\u{2000}' <= c && c <= '\u{200a}') || c == '\u{2028}' || c == '\u{2029}' || c
        == '\u{202f}' || c == '\u{205f}' || c == '\u{3000}'
}

/// The characters of `s`, in order.
pub fn chars_of(s: &str) -> (v: Vec<char>)
    ensures
        v@ == s@,
{
    let mut v: Vec<char> = Vec::new();
    for c in it: s.chars()
        invariant
            it.seq() == s@,
            v@ == s@.subrange(0, it.index()),
    {
        v.push(c);
    }
    v
}

/// Every character of `s` is white space; the empty text is blank.
pub open spec fn is_blank(s: Seq<char>) -> bool {
    forall|i: int| 0 <= i < s.len() ==> is_space(#[trigger] s[i])
}

/// `s` without the white space it begins with.
pub open spec fn trimmed_start(s: Seq<char>) -> Seq<char>
    decreases s.len(),
{
    if s.len() > 0 && is_space(s.first()) {
        trimmed_start(s.drop_first())
    } else {
        s
    }
}

/// `s` without the white space it ends with.
pub open spec fn trimmed_end(s: Seq<char>) -> Seq<char>
    decreases s.len(),
{
    if s.len() > 0 && is_space(s.last()) {
        trimmed_end(s.drop_last())
    } else {
        s
    }
}

/// `s` without the white space at either end.
pub open spec fn trimmed(s: Seq<char>) -> Seq<char> {
    trimmed_end(trimmed_start(s))
}

/// `a` is where the leading white space of `s` ends.
pub proof fn lemma_trimmed_start_from(s: Seq<char>, a: int)
    requires
        0 <= a <= s.len(),
        forall|i: int| 0 <= i < a ==> is_space(#[trigger] s[i]),
        a < s.len() ==> !is_space(s[a]),
    ensures
        trimmed_start(s) == s.subrange(a, s.len() as int),
    decreases a,
{
    if a == 0 {
        assert(s.subrange(0, s.len() as int) =~= s);
    } else {
        let rest = s.drop_first();
        assert forall|i: int| 0 <= i < a - 1 implies is_space(#[trigger] rest[i]) by {
            assert(rest[i] == s[i + 1]);
        }
        lemma_trimmed_start_from(rest, a - 1);
        assert(rest.subrange(a - 1, rest.len() as int) =~= s.subrange(a, s.len() as int));
    }
}

/// `b` is where the trailing white space of `s` begins.
pub proof fn lemma_trimmed_end_to(s: Seq<char>, b: int)
    requires
        0 <= b <= s.len(),
        forall|i: int| b <= i < s.len() ==> is_space(#[trigger] s[i]),
        0 < b ==> !is_space(s[b - 1]),
    ensures
        trimmed_end(s) == s.subrange(0, b),
    decreases s.len() - b,
{
    if b == s.len() {
        assert(s.subrange(0, b) =~= s);
    } else {
        let rest = s.drop_last();
        lemma_trimmed_end_to(rest, b);
        assert(rest.subrange(0, b) =~= s.subrange(0, b));
    }
}

/// Trimming leaves the part of `s` between its first and its last character
/// that is not white space, and nothing of a blank text.
pub proof fn lemma_trimmed_span(s: Seq<char>, a: int, b: int)
    requires
        0 <= a <= b <= s.len(),
        forall|i: int| 0 <= i < a ==> is_space(#[trigger] s[i]),
        forall|i: int| b <= i < s.len() ==> is_space(#[trigger] s[i]),
        a < b ==> !is_space(s[a]) && !is_space(s[b - 1]),
    ensures
        trimmed(s) == s.subrange(a, b),
{
    let n = s.len() as int;
    if a == b {
        lemma_trimmed_start_from(s, n);
        assert(s.subrange(n, n) =~= s.subrange(a, b));
    } else {
        lemma_trimmed_start_from(s, a);
        let tail = s.subrange(a, n);
        lemma_trimmed_end_to(tail, b - a);
        assert(tail.subrange(0, b - a) =~= s.subrange(a, b));
    }
}

/// What `trimmed_start` removes is white space, and what it leaves begins
/// with another character.
pub proof fn lemma_trimmed_start_shape(s: Seq<char>)
    ensures
        trimmed_start(s).len() <= s.len(),
        trimmed_start(s) == s.subrange(s.len() - trimmed_start(s).len(), s.len() as int),
        forall|i: int| 0 <= i < s.len() - trimmed_start(s).len() ==> is_space(#[trigger] s[i]),
        trimmed_start(s).len() > 0 ==> !is_space(trimmed_start(s).first()),
    decreases s.len(),
{
    if s.len() > 0 && is_space(s.first()) {
        let rest = s.drop_first();
        lemma_trimmed_start_shape(rest);
        let a = rest.len() - trimmed_start(rest).len();
        assert(rest.subrange(a, rest.len() as int) =~= s.subrange(a + 1, s.len() as int));
        assert forall|i: int| 0 <= i < a + 1 implies is_space(#[trigger] s[i]) by {
            if i > 0 {
                assert(s[i] == rest[i - 1]);
            }
        }
    } else {
        assert(s.subrange(0, s.len() as int) =~= s);
    }
}

/// What `trimmed_end` removes is white space, and what it leaves ends with
/// another character.
pub proof fn lemma_trimmed_end_shape(s: Seq<char>)
    ensures
        trimmed_end(s).len() <= s.len(),
        trimmed_end(s) == s.subrange(0, trimmed_end(s).len() as int),
        forall|i: int| trimmed_end(s).len() <= i < s.len() ==> is_space(#[trigger] s[i]),
        trimmed_end(s).len() > 0 ==> !is_space(trimmed_end(s).last()),
    decreases s.len(),
{
    if s.len() > 0 && is_space(s.last()) {
        let rest = s.drop_last();
        lemma_trimmed_end_shape(rest);
        let b = trimmed_end(rest).len() as int;
        assert(rest.subrange(0, b) =~= s.subrange(0, b));
        assert forall|i: int| b <= i < s.len() implies is_space(#[trigger] s[i]) by {
            if i < rest.len() {
                assert(s[i] == rest[i]);
            }
        }
    } else {
        assert(s.subrange(0, s.len() as int) =~= s);
    }
}

/// The part of `s` that trimming leaves: where it begins and where it ends.
pub proof fn lemma_trimmed_shape(s: Seq<char>) -> (span: (int, int))
    ensures
        0 <= span.0 <= span.1 <= s.len(),
        trimmed(s) == s.subrange(span.0, span.1),
        forall|i: int| 0 <= i < span.0 ==> is_space(#[trigger] s[i]),
        forall|i: int| span.1 <= i < s.len() ==> is_space(#[trigger] s[i]),
        span.0 < span.1 ==> !is_space(s[span.0]) && !is_space(s[span.1 - 1]),
{
    lemma_trimmed_start_shape(s);
    let tail = trimmed_start(s);
    lemma_trimmed_end_shape(tail);
    let a = s.len() - tail.len();
    let b = a + trimmed_end(tail).len();
    assert(tail.subrange(0, b - a) =~= s.subrange(a, b));
    assert forall|i: int| b <= i < s.len() implies is_space(#[trigger] s[i]) by {
        assert(s[i] == tail[i - a]);
    }
    if a < b {
        assert(tail.first() == s[a]);
        assert(trimmed_end(tail).last() == s[b - 1]);
    }
    (a, b)
}

/// Trimming leaves nothing of a blank text, and something of every other.
pub proof fn lemma_trimmed_empty_iff_blank(s: Seq<char>)
    ensures
        trimmed(s).len() == 0 <==> is_blank(s),
{
    let span = lemma_trimmed_shape(s);
    if span.0 < span.1 {
        assert(!is_space(s[span.0]));
    }
}

/// What trimming leaves neither begins nor ends with white space, and
/// trimming it again changes nothing.
pub proof fn lemma_trimmed_is_trim(s: Seq<char>)
    ensures
        trimmed(s).len() > 0 ==> !is_space(trimmed(s).first()) && !is_space(trimmed(s).last()),
        trimmed(trimmed(s)) == trimmed(s),
{
    let span = lemma_trimmed_shape(s);
    let t = trimmed(s);
    lemma_trimmed_span(t, 0, t.len() as int);
    assert(t.subrange(0, t.len() as int) =~= t);
}

/// The first position in `lo..hi` that holds no white space, or `hi`.
pub(crate) fn skip_spaces(v: &Vec<char>, lo: usize, hi: usize) -> (a: usize)
    requires
        lo <= hi <= v.len(),
    ensures
        lo <= a <= hi,
        forall|i: int| lo <= i < a ==> is_space(#[trigger] v@[i]),
        a < hi ==> !is_space(v@[a as int]),
{
    let mut a: usize = lo;
    while a < hi && is_whitespace(v[a])
        invariant
            lo <= a <= hi <= v.len(),
            forall|i: int| lo <= i < a ==> is_space(#[trigger] v@[i]),
        decreases hi - a,
    {
        a += 1;
    }
    a
}

/// The position in `lo..=hi` after the last character of `lo..hi` that is
/// no white space, or `lo`.
pub(crate) fn skip_spaces_back(v: &Vec<char>, lo: usize, hi: usize) -> (b: usize)
    requires
        lo <= hi <= v.len(),
    ensures
        lo <= b <= hi,
        forall|i: int| b <= i < hi ==> is_space(#[trigger] v@[i]),
        lo < b ==> !is_space(v@[b - 1]),
{
    let mut b: usize = hi;
    while lo < b && is_whitespace(v[b - 1])
        invariant
            lo <= b <= hi <= v.len(),
            forall|i: int| b <= i < hi ==> is_space(#[trigger] v@[i]),
        decreases b - lo,
    {
        b -= 1;
    }
    b
}

/// `s` without the white space at either end.
pub fn trim<'a>(s: &'a str) -> (r: &'a str)
    ensures
        r@ == trimmed(s@),
{
    let v = chars_of(s);
    let a = skip_spaces(&v, 0, v.len());
    let b = skip_spaces_back(&v, a, v.len());
    proof {
        lemma_trimmed_span(s@, a as int, b as int);
    }
    s.substring_char(a, b)
}

/// The substitution marker `{}` stands at the start of `s`.
pub open spec fn marker_at_start(s: Seq<char>) -> bool {
    s.len() >= 2 && s[0] == '{' && s[1] == '}'
}

/// The substitution marker `{}` stands somewhere in `s`.
pub open spec fn has_marker(s: Seq<char>) -> bool {
    exists|i: int| 0 <= i && i + 1 < s.len() && #[trigger] s[i] == '{' && s[i + 1] == '}'
}

/// `template` with `value` in the place of every substitution marker, the
/// markers taken from left to right.
pub open spec fn filled(template: Seq<char>, value: Seq<char>) -> Seq<char>
    decreases template.len(),
{
    if template.len() == 0 {
        Seq::empty()
    } else if marker_at_start(template) {
        value + filled(template.subrange(2, template.len() as int), value)
    } else {
        seq![template[0]] + filled(template.drop_first(), value)
    }
}

/// A template without a marker stays as it is.
pub proof fn lemma_filled_without_marker(template: Seq<char>, value: Seq<char>)
    requires
        !has_marker(template),
    ensures
        filled(template, value) == template,
    decreases template.len(),
{
    if template.len() > 0 {
        if marker_at_start(template) {
            assert(template[0] == '{' && template[0int + 1] == '}');
        }
        let rest = template.drop_first();
        assert(!has_marker(rest)) by {
            if has_marker(rest) {
                let i = choose|i: int|
                    0 <= i && i + 1 < rest.len() && #[trigger] rest[i] == '{' && rest[i + 1] == '}';
                assert(template[i + 1] == '{' && template[i + 1 + 1] == '}');
            }
        }
        lemma_filled_without_marker(rest, value);
        assert(seq![template[0]] + rest =~= template);
    }
}

/// A template with one marker becomes what stands before the marker, the
/// value, and what stands after it.
pub proof fn lemma_filled_single_marker(pre: Seq<char>, post: Seq<char>, value: Seq<char>)
    requires
        !has_marker(pre),
        !has_marker(post),
    ensures
        filled(pre + seq!['{', '}'] + post, value) == pre + value + post,
    decreases pre.len(),
{
    let template = pre + seq!['{', '}'] + post;
    if pre.len() == 0 {
        assert(marker_at_start(template));
        assert(template.subrange(2, template.len() as int) =~= post);
        lemma_filled_without_marker(post, value);
        assert(value + post =~= pre + value + post);
    } else {
        assert(!marker_at_start(template)) by {
            if marker_at_start(template) {
                if pre.len() >= 2 {
                    assert(pre[0] == '{' && pre[0int + 1] == '}');
                } else {
                    assert(template[1] == '{');
                }
            }
        }
        let rest = pre.drop_first();
        assert(!has_marker(rest)) by {
            if has_marker(rest) {
                let i = choose|i: int|
                    0 <= i && i + 1 < rest.len() && #[trigger] rest[i] == '{' && rest[i + 1] == '}';
                assert(pre[i + 1] == '{' && pre[i + 1 + 1] == '}');
            }
        }
        lemma_filled_single_marker(rest, post, value);
        assert(template.drop_first() =~= rest + seq!['{', '}'] + post);
        assert(seq![template[0]] + (rest + value + post) =~= pre + value + post);
    }
}

/// `template` with `value` in the place of every substitution marker `{}`.
pub fn fill_template(template: &str, value: &str) -> (r: String)
    ensures
        r@ == filled(template@, value@),
{
    let v = chars_of(template);
    let n = v.len();
    let mut out = String::new();
    let mut seg: usize = 0;
    let mut i: usize = 0;
    assert(template@.subrange(0, n as int) =~= template@);
    assert(out@ + template@.subrange(0, 0) + filled(template@, value@) =~= filled(
        template@,
        value@,
    ));
    while i < n
        invariant
            seg <= i <= n,
            n == v.len(),
            v@ == template@,
            filled(template@, value@) == out@ + template@.subrange(seg as int, i as int) + filled(
                template@.subrange(i as int, n as int),
                value@,
            ),
        decreases n - i,
    {
        let ghost rest = template@.subrange(i as int, n as int);
        let ghost done = out@;
        if v[i] == '{' && i + 1 < n && v[i + 1] == '}' {
            let ghost literal = template@.subrange(seg as int, i as int);
            let ghost after = template@.subrange(i + 2, n as int);
            assert(marker_at_start(rest)) by {
                assert(rest[0] == template@[i as int] && rest[1] == template@[i + 1]);
            }
            assert(rest.subrange(2, rest.len() as int) =~= after);
            out.append(template.substring_char(seg, i));
            out.append(value);
            i += 2;
            seg = i;
            assert(out@ + template@.subrange(seg as int, i as int) + filled(after, value@) =~= done
                + literal + (value@ + filled(after, value@)));
        } else {
            assert(!marker_at_start(rest)) by {
                if marker_at_start(rest) {
                    assert(rest[0] == template@[i as int] && rest[1] == template@[i + 1]);
                }
            }
            assert(rest.drop_first() =~= template@.subrange(i + 1, n as int));
            assert(template@.subrange(seg as int, i + 1) =~= template@.subrange(
                seg as int,
                i as int,
            ) + seq![rest[0]]);
            assert(done + template@.subrange(seg as int, i + 1) + filled(rest.drop_first(), value@)
                =~= done + template@.subrange(seg as int, i as int) + (seq![rest[0]] + filled(
                rest.drop_first(),
                value@,
            )));
            i += 1;
        }
    }
    out.append(template.substring_char(seg, n));
    assert(filled(template@.subrange(n as int, n as int), value@) =~= Seq::<char>::empty());
    out
}

} // verus!
