//! Lexical decomposition of a regular-expression pattern into categorised spans.
//!
//! The scanner makes one pass from left to right and never fails: whatever it
//! cannot read as a construct it reads as literal text. Offsets count Unicode
//! scalar values, not bytes.

use crate::text::chars_of;
use vstd::prelude::*;

verus! {

/// The syntactic role a stretch of pattern text plays.
#[derive(Clone, Copy, Debug, PartialEq, Eq, Structural)]
pub enum Category {
    /// `\d`, `\D`, `\w`, `\W`, `\s`, `\S`.
    CharClassShorthand,
    /// `^`, `$`, and the escapes `\b`, `\B`, `\A`, `\z`, `\Z`.
    Anchor,
    /// `+`, `*`, `?`.
    Quantifier,
    /// `|`.
    Alternation,
    /// A closed `{...}` run.
    QuantifierRange,
    /// A closed `[...]` run.
    CharacterSet,
    /// `(` or `)`.
    GroupDelimiter,
    /// Everything else.
    Literal,
}

/// A categorised stretch `start..end` of a pattern, in characters.
#[derive(Clone, Copy, Debug, PartialEq, Eq, Structural)]
pub struct Span {
    pub start: usize,
    pub end: usize,
    pub category: Category,
}

/// The category of the escape `\c`.
pub open spec fn escape_category(c: char) -> Category {
    if c == 'd' || c == 'D' || c == 'w' || c == 'W' || c == 's' || c == 'S' {
        Category::CharClassShorthand
    } else if c == 'b' || c == 'B' || c == 'A' || c == 'z' || c == 'Z' {
        Category::Anchor
    } else {
        Category::Literal
    }
}

/// Where a search for an unescaped `close` that sets out at `from` stops.
///
/// The search reads a backslash together with the character after it as one
/// unit, so an escaped `close` is passed over. The result is the position of
/// the first `close` met, or `s.len()` when the text runs out first.
pub open spec fn closing(s: Seq<char>, from: int, close: char) -> int
    decreases s.len() - from,
{
    if from < 0 || from >= s.len() {
        s.len() as int
    } else if s[from] == close {
        from
    } else if s[from] == '\\' && from + 1 < s.len() {
        closing(s, from + 2, close)
    } else {
        closing(s, from + 1, close)
    }
}

/// The position at which the search for the `]` that ends the set opened at
/// `open` sets out: past the `[`, past a `^` right after it, and past a `]`
/// right after that, which stands for itself.
pub open spec fn set_body_start(s: Seq<char>, open: int) -> int {
    let after_negation = if open + 1 < s.len() && s[open + 1] == '^' {
        open + 2
    } else {
        open + 1
    };
    if after_negation < s.len() && s[after_negation] == ']' {
        after_negation + 1
    } else {
        after_negation
    }
}

/// The end (exclusive) of the token that begins at `i`, for `0 <= i < s.len()`.
pub open spec fn token_end(s: Seq<char>, i: int) -> int {
    if s[i] == '\\' {
        if i + 1 < s.len() {
            i + 2
        } else {
            i + 1
        }
    } else if s[i] == '{' {
        let close = closing(s, i + 1, '}');
        if close < s.len() {
            close + 1
        } else {
            i + 1
        }
    } else if s[i] == '[' {
        let close = closing(s, set_body_start(s, i), ']');
        if close < s.len() {
            close + 1
        } else {
            i + 1
        }
    } else {
        i + 1
    }
}

/// The category of the token that begins at `i`, for `0 <= i < s.len()`.
pub open spec fn token_category(s: Seq<char>, i: int) -> Category {
    let c = s[i];
    if c == '\\' {
        if i + 1 < s.len() {
            escape_category(s[i + 1])
        } else {
            Category::Literal
        }
    } else if c == '^' || c == '$' {
        Category::Anchor
    } else if c == '+' || c == '*' || c == '?' {
        Category::Quantifier
    } else if c == '|' {
        Category::Alternation
    } else if c == '{' {
        if closing(s, i + 1, '}') < s.len() {
            Category::QuantifierRange
        } else {
            Category::Literal
        }
    } else if c == '[' {
        if closing(s, set_body_start(s, i), ']') < s.len() {
            Category::CharacterSet
        } else {
            Category::Literal
        }
    } else if c == '(' || c == ')' {
        Category::GroupDelimiter
    } else {
        Category::Literal
    }
}

/// The token that begins at `i`.
pub open spec fn token_at(s: Seq<char>, i: int) -> Span {
    Span { start: i as usize, end: token_end(s, i) as usize, category: token_category(s, i) }
}

/// The spans of the part of `s` that begins at `i`.
pub open spec fn spans_from(s: Seq<char>, i: int) -> Seq<Span>
    decreases s.len() - i,
    via spans_from_decreases
{
    if i < 0 || i >= s.len() {
        Seq::empty()
    } else {
        seq![token_at(s, i)] + spans_from(s, token_end(s, i))
    }
}

#[via_fn]
proof fn spans_from_decreases(s: Seq<char>, i: int) {
    if 0 <= i < s.len() {
        lemma_token_end_bounds(s, i);
    }
}

/// The spans of the pattern `s`, in order.
pub open spec fn tokens(s: Seq<char>) -> Seq<Span> {
    spans_from(s, 0)
}

/// The text of `s` that `span` covers.
pub open spec fn span_text(s: Seq<char>, span: Span) -> Seq<char> {
    s.subrange(span.start as int, span.end as int)
}

/// The texts of `spans`, one after the other.
pub open spec fn joined_text(s: Seq<char>, spans: Seq<Span>) -> Seq<char> {
    spans.map_values(|span: Span| span_text(s, span)).flatten()
}

/// `spans` cut a text of `len` characters into consecutive non-empty pieces:
/// the first begins at 0, each begins where the one before it ends, and the
/// last ends at `len`.
pub open spec fn partitions(spans: Seq<Span>, len: int) -> bool {
    &&& forall|k: int| 0 <= k < spans.len() ==> (#[trigger] spans[k]).start < spans[k].end <= len
    &&& forall|j: int, k: int|
        0 <= j && j + 1 == k && k < spans.len() ==> (#[trigger] spans[j]).end == (
        #[trigger] spans[k]).start
    &&& if spans.len() == 0 {
        len == 0
    } else {
        spans[0].start == 0 && spans.last().end == len
    }
}

/// A search for a closing character stops between its starting point and the
/// end of the text, and where it stops short of the end it stands on that
/// character.
pub proof fn lemma_closing_bounds(s: Seq<char>, from: int, close: char)
    requires
        0 <= from <= s.len(),
    ensures
        from <= closing(s, from, close) <= s.len(),
        closing(s, from, close) < s.len() ==> s[closing(s, from, close)] == close,
    decreases s.len() - from,
{
    if from < s.len() && s[from] != close {
        if s[from] == '\\' && from + 1 < s.len() {
            lemma_closing_bounds(s, from + 2, close);
        } else {
            lemma_closing_bounds(s, from + 1, close);
        }
    }
}

/// Every token holds at least one character and ends within the text.
pub proof fn lemma_token_end_bounds(s: Seq<char>, i: int)
    requires
        0 <= i < s.len(),
    ensures
        i < token_end(s, i) <= s.len(),
{
    if s[i] == '{' {
        lemma_closing_bounds(s, i + 1, '}');
    } else if s[i] == '[' {
        lemma_closing_bounds(s, set_body_start(s, i), ']');
    }
}

/// The spans from `i` on cut the rest of the text from `i` into consecutive
/// non-empty pieces whose texts, joined, are that rest.
proof fn lemma_spans_from_partition(s: Seq<char>, i: int)
    requires
        0 <= i <= s.len() <= usize::MAX,
    ensures
        forall|k: int|
            0 <= k < spans_from(s, i).len() ==> i <= (#[trigger] spans_from(s, i)[k]).start
                < spans_from(s, i)[k].end <= s.len(),
        forall|j: int, k: int|
            0 <= j && j + 1 == k && k < spans_from(s, i).len() ==> (#[trigger] spans_from(
                s,
                i,
            )[j]).end == (#[trigger] spans_from(s, i)[k]).start,
        i == s.len() ==> spans_from(s, i).len() == 0,
        i < s.len() ==> spans_from(s, i).len() > 0 && spans_from(s, i)[0].start == i
            && spans_from(s, i).last().end == s.len(),
        joined_text(s, spans_from(s, i)) == s.subrange(i, s.len() as int),
    decreases s.len() - i,
{
    let spans = spans_from(s, i);
    let text_of = |span: Span| span_text(s, span);
    if i < s.len() {
        let first = token_at(s, i);
        let next = token_end(s, i);
        let rest = spans_from(s, next);
        lemma_token_end_bounds(s, i);
        lemma_spans_from_partition(s, next);
        assert(spans == seq![first] + rest);
        assert forall|k: int| 0 <= k < spans.len() implies i <= (#[trigger] spans[k]).start
            < spans[k].end <= s.len() by {
            if k > 0 {
                assert(spans[k] == rest[k - 1]);
            }
        }
        assert forall|j: int, k: int| 0 <= j && j + 1 == k && k < spans.len() implies (
        #[trigger] spans[j]).end == (#[trigger] spans[k]).start by {
            assert(spans[k] == rest[k - 1]);
            if j > 0 {
                assert(spans[j] == rest[j - 1]);
            }
        }
        if rest.len() > 0 {
            assert(spans.last() == rest.last());
        }
        let texts = spans.map_values(text_of);
        assert(texts.drop_first() == rest.map_values(text_of));
        assert(texts.first() == s.subrange(i, next));
        assert(s.subrange(i, next) + s.subrange(next, s.len() as int) == s.subrange(
            i,
            s.len() as int,
        ));
    } else {
        assert(joined_text(s, spans) == s.subrange(i, s.len() as int));
    }
}

/// The spans of a pattern cut it into consecutive non-empty pieces, and their
/// texts, joined in order, are the pattern.
pub proof fn lemma_tokens_partition(s: Seq<char>)
    requires
        s.len() <= usize::MAX,
    ensures
        partitions(tokens(s), s.len() as int),
        joined_text(s, tokens(s)) == s,
{
    lemma_spans_from_partition(s, 0);
    assert(s.subrange(0, s.len() as int) == s);
}

/// In a partition no two spans overlap: a span ends before any later one
/// begins.
pub proof fn lemma_partition_disjoint(spans: Seq<Span>, len: int, j: int, k: int)
    requires
        partitions(spans, len),
        0 <= j < k < spans.len(),
    ensures
        spans[j].end <= spans[k].start,
    decreases k - j,
{
    if j + 1 < k {
        lemma_partition_disjoint(spans, len, j, k - 1);
        assert(spans[k - 1].end == spans[k].start);
    }
}

/// A `{` or `[` whose closing character never comes is a literal of one
/// character, and the scan resumes right after it.
pub proof fn lemma_unclosed_opener_is_literal(s: Seq<char>, i: int)
    requires
        0 <= i < s.len(),
        (s[i] == '{' && closing(s, i + 1, '}') == s.len()) || (s[i] == '[' && closing(
            s,
            set_body_start(s, i),
            ']',
        ) == s.len()),
    ensures
        token_category(s, i) == Category::Literal,
        token_end(s, i) == i + 1,
{
}

/// Searches `chars` from `from` for an unescaped `close`.
fn find_closing(chars: &Vec<char>, from: usize, close: char) -> (end: usize)
    requires
        from <= chars.len(),
    ensures
        end == closing(chars@, from as int, close),
        from <= end <= chars.len(),
{
    let n = chars.len();
    let mut end = from;
    while end < n && chars[end] != close
        invariant
            n == chars.len(),
            from <= end <= n,
            closing(chars@, end as int, close) == closing(chars@, from as int, close),
        decreases n - end,
    {
        if chars[end] == '\\' && end + 1 < n {
            end += 2;
        } else {
            end += 1;
        }
    }
    end
}

/// The category of the escape `\c`.
fn classify_escape(c: char) -> (category: Category)
    ensures
        category == escape_category(c),
{
    match c {
        'd' | 'D' | 'w' | 'W' | 's' | 'S' => Category::CharClassShorthand,
        'b' | 'B' | 'A' | 'z' | 'Z' => Category::Anchor,
        _ => Category::Literal,
    }
}

/// Reads the token that begins at `i`.
fn next_token(chars: &Vec<char>, i: usize) -> (span: Span)
    requires
        i < chars.len(),
    ensures
        span == token_at(chars@, i as int),
        span.start == i,
        i < span.end <= chars.len(),
{
    let n = chars.len();
    let c = chars[i];
    proof {
        lemma_token_end_bounds(chars@, i as int);
    }
    if c == '\\' {
        if i + 1 < n {
            Span { start: i, end: i + 2, category: classify_escape(chars[i + 1]) }
        } else {
            Span { start: i, end: i + 1, category: Category::Literal }
        }
    } else if c == '^' || c == '$' {
        Span { start: i, end: i + 1, category: Category::Anchor }
    } else if c == '+' || c == '*' || c == '?' {
        Span { start: i, end: i + 1, category: Category::Quantifier }
    } else if c == '|' {
        Span { start: i, end: i + 1, category: Category::Alternation }
    } else if c == '{' {
        let close = find_closing(chars, i + 1, '}');
        if close < n {
            Span { start: i, end: close + 1, category: Category::QuantifierRange }
        } else {
            Span { start: i, end: i + 1, category: Category::Literal }
        }
    } else if c == '[' {
        let mut body = i + 1;
        if body < n && chars[body] == '^' {
            body += 1;
        }
        if body < n && chars[body] == ']' {
            body += 1;
        }
        let close = find_closing(chars, body, ']');
        if close < n {
            Span { start: i, end: close + 1, category: Category::CharacterSet }
        } else {
            Span { start: i, end: i + 1, category: Category::Literal }
        }
    } else if c == '(' || c == ')' {
        Span { start: i, end: i + 1, category: Category::GroupDelimiter }
    } else {
        Span { start: i, end: i + 1, category: Category::Literal }
    }
}

/// Cuts the characters of a pattern into its spans.
pub fn scan(chars: &Vec<char>) -> (spans: Vec<Span>)
    ensures
        spans@ == tokens(chars@),
        partitions(spans@, chars@.len() as int),
        joined_text(chars@, spans@) == chars@,
{
    let n = chars.len();
    let mut spans: Vec<Span> = Vec::new();
    let mut i: usize = 0;
    while i < n
        invariant
            n == chars.len(),
            i <= n,
            spans@ + spans_from(chars@, i as int) == tokens(chars@),
        decreases n - i,
    {
        let span = next_token(chars, i);
        proof {
            lemma_token_end_bounds(chars@, i as int);
            let rest = spans_from(chars@, span.end as int);
            assert(spans_from(chars@, i as int) == seq![span] + rest);
            assert(spans@.push(span) + rest == spans@ + (seq![span] + rest));
        }
        spans.push(span);
        i = span.end;
    }
    proof {
        assert(spans@ + Seq::<Span>::empty() == spans@);
        lemma_tokens_partition(chars@);
    }
    spans
}

/// Cuts a pattern into its spans. Any text is a pattern: what cannot be read
/// as a construct is literal.
pub fn tokenize(pattern: &str) -> (spans: Vec<Span>)
    ensures
        spans@ == tokens(pattern@),
        partitions(spans@, pattern@.len() as int),
        joined_text(pattern@, spans@) == pattern@,
{
    let chars = chars_of(pattern);
    scan(&chars)
}

} // verus!
