//! Reports for the terminal.
//!
//! A report is first laid out as a list of segments, each a text with the
//! style it is to be shown in; the layout is exact. Rendering then hands
//! each styled segment to the terminal library and joins what it returns.

use crate::commands::explain::ExplainResponse;
use crate::commands::generate::GenerateResponse;
use crate::commands::test::TestResult;
use crate::layout::explain_layout;
use crate::layout::generate_layout;
use crate::layout::layout_explain;
use crate::layout::layout_generate;
use crate::layout::layout_test;
use crate::layout::test_layout;
use crate::scanner::lemma_tokens_partition;
use crate::scanner::partitions;
use crate::scanner::scan;
use crate::scanner::span_text;
use crate::scanner::tokens;
use crate::scanner::Category;
use crate::scanner::Span;
use crate::terminal;
use crate::terminal::styled_text;
use crate::text::chars_of;
use crate::text::string_of;
use vstd::prelude::*;
use vstd::slice::slice_subrange;
use vstd::string::StringExecFns;

verus! {

/// How a segment is to be shown.
#[derive(Clone, Copy, Debug, PartialEq, Eq, Structural)]
pub enum Style {
    Plain,
    Bold,
    Cyan,
    Red,
    Yellow,
    Magenta,
    Green,
    DarkGrey,
    GreenBold,
    RedBold,
}

/// A text with the style it is to be shown in.
#[derive(Clone, Debug)]
pub struct Segment {
    pub style: Style,
    pub text: String,
}

/// What a `Segment` stands for.
pub struct SegmentView {
    pub style: Style,
    pub text: Seq<char>,
}

impl View for Segment {
    type V = SegmentView;

    open spec fn view(&self) -> SegmentView {
        SegmentView { style: self.style, text: self.text@ }
    }
}

impl DeepView for Segment {
    type V = SegmentView;

    open spec fn deep_view(&self) -> SegmentView {
        self@
    }
}

/// The style in which a span of a pattern is shown.
pub open spec fn style_for(category: Category) -> Style {
    match category {
        Category::CharClassShorthand => Style::Cyan,
        Category::Anchor => Style::Red,
        Category::Quantifier => Style::Yellow,
        Category::Alternation => Style::Yellow,
        Category::QuantifierRange => Style::Yellow,
        Category::CharacterSet => Style::Magenta,
        Category::GroupDelimiter => Style::Green,
        Category::Literal => Style::Plain,
    }
}

/// The segment that shows `span` of the pattern `s`.
pub open spec fn span_segment(s: Seq<char>, span: Span) -> SegmentView {
    SegmentView { style: style_for(span.category), text: span_text(s, span) }
}

/// A pattern laid out for display: one segment for each of its spans.
pub open spec fn highlighted(s: Seq<char>) -> Seq<SegmentView> {
    tokens(s).map_values(|span: Span| span_segment(s, span))
}

/// `out` shows `segment`: a plain segment is its text and nothing else, a
/// styled one is its text as the terminal library writes styled text.
pub open spec fn shows(out: Seq<char>, segment: SegmentView) -> bool {
    if segment.style == Style::Plain {
        out == segment.text
    } else {
        styled_text(out, segment.text)
    }
}

/// `pieces` show `segments`, one for one.
pub open spec fn show_each(pieces: Seq<Seq<char>>, segments: Seq<SegmentView>) -> bool {
    &&& pieces.len() == segments.len()
    &&& forall|i: int| 0 <= i < pieces.len() ==> shows(#[trigger] pieces[i], segments[i])
}

/// `out` renders `segments`: it is made of pieces, in order, that show them
/// one for one.
pub open spec fn renders(out: Seq<char>, segments: Seq<SegmentView>) -> bool {
    exists|pieces: Seq<Seq<char>>| #[trigger] show_each(pieces, segments) && out == pieces.flatten()
}

/// The texts of `segments`, joined.
pub open spec fn plain_text(segments: Seq<SegmentView>) -> Seq<char> {
    segments.map_values(|segment: SegmentView| segment.text).flatten()
}

/// Every span of the pattern `s` is literal text.
pub open spec fn all_literal(s: Seq<char>) -> bool {
    forall|k: int| 0 <= k < tokens(s).len() ==> (#[trigger] tokens(s)[k]).category == Category::Literal
}

/// A layout that holds plain segments only is rendered as its text, and in
/// no other way.
pub proof fn lemma_plain_layout_renders_as_text(out: Seq<char>, segments: Seq<SegmentView>)
    requires
        renders(out, segments),
        forall|i: int| 0 <= i < segments.len() ==> (#[trigger] segments[i]).style == Style::Plain,
    ensures
        out == plain_text(segments),
{
    let pieces = choose|pieces: Seq<Seq<char>>| #[trigger]
        show_each(pieces, segments) && out == pieces.flatten();
    assert forall|i: int| 0 <= i < pieces.len() implies pieces[i] == segments[i].text by {
        assert(shows(pieces[i], segments[i]));
    }
    assert(pieces == segments.map_values(|segment: SegmentView| segment.text));
}

/// The texts of a highlighted pattern, joined, are the pattern.
pub proof fn lemma_highlighted_text(s: Seq<char>)
    requires
        s.len() <= usize::MAX,
    ensures
        plain_text(highlighted(s)) == s,
{
    lemma_tokens_partition(s);
    assert(highlighted(s).map_values(|segment: SegmentView| segment.text) == tokens(
        s,
    ).map_values(|span: Span| span_text(s, span)));
}

/// The style for a category of span.
pub fn category_style(category: Category) -> (style: Style)
    ensures
        style == style_for(category),
{
    match category {
        Category::CharClassShorthand => Style::Cyan,
        Category::Anchor => Style::Red,
        Category::Quantifier | Category::Alternation | Category::QuantifierRange => Style::Yellow,
        Category::CharacterSet => Style::Magenta,
        Category::GroupDelimiter => Style::Green,
        Category::Literal => Style::Plain,
    }
}

/// Lays a pattern out for display.
pub fn highlight(pattern: &str) -> (segments: Vec<Segment>)
    ensures
        segments.deep_view() == highlighted(pattern@),
        pattern@.len() <= usize::MAX,
{
    let chars = chars_of(pattern);
    let spans = scan(&chars);
    let mut segments: Vec<Segment> = Vec::new();
    let mut i: usize = 0;
    while i < spans.len()
        invariant
            i <= spans.len(),
            chars@ == pattern@,
            spans@ == tokens(pattern@),
            partitions(spans@, chars@.len() as int),
            segments.len() == i,
            forall|k: int|
                0 <= k < i ==> (#[trigger] segments[k])@ == span_segment(pattern@, spans[k]),
        decreases spans.len() - i,
    {
        let span = spans[i];
        let text = string_of(slice_subrange(chars.as_slice(), span.start, span.end));
        segments.push(Segment { style: category_style(span.category), text });
        i += 1;
    }
    assert(segments.deep_view() == highlighted(pattern@));
    segments
}

/// Shows one segment.
pub fn paint(segment: &Segment) -> (out: String)
    ensures
        shows(out@, segment@),
{
    let text = segment.text.as_str();
    match segment.style {
        Style::Plain => String::from_str(text),
        Style::Bold => terminal::bold(text),
        Style::Cyan => terminal::cyan(text),
        Style::Red => terminal::red(text),
        Style::Yellow => terminal::yellow(text),
        Style::Magenta => terminal::magenta(text),
        Style::Green => terminal::green(text),
        Style::DarkGrey => terminal::dark_grey(text),
        Style::GreenBold => terminal::green_bold(text),
        Style::RedBold => terminal::red_bold(text),
    }
}

/// Joins pieces of text in order.
pub fn join(pieces: &Vec<String>) -> (out: String)
    ensures
        out@ == pieces.deep_view().flatten(),
{
    let mut out = String::new();
    let mut i: usize = 0;
    assert(pieces.deep_view().take(0) == Seq::<Seq<char>>::empty());
    while i < pieces.len()
        invariant
            i <= pieces.len(),
            out@ == pieces.deep_view().take(i as int).flatten(),
        decreases pieces.len() - i,
    {
        proof {
            let done = pieces.deep_view().take(i as int);
            done.lemma_flatten_push(pieces[i as int]@);
            assert(pieces.deep_view().take(i + 1) == done.push(pieces[i as int]@));
        }
        out.append(pieces[i].as_str());
        i += 1;
    }
    assert(pieces.deep_view().take(pieces.len() as int) == pieces.deep_view());
    out
}

/// Renders a layout for the terminal.
pub fn render(segments: &Vec<Segment>) -> (out: String)
    ensures
        renders(out@, segments.deep_view()),
{
    let mut pieces: Vec<String> = Vec::new();
    let mut i: usize = 0;
    while i < segments.len()
        invariant
            i <= segments.len(),
            pieces.len() == i,
            forall|k: int| 0 <= k < i ==> shows((#[trigger] pieces[k])@, segments[k]@),
        decreases segments.len() - i,
    {
        pieces.push(paint(&segments[i]));
        i += 1;
    }
    let out = join(&pieces);
    assert(show_each(pieces.deep_view(), segments.deep_view()));
    out
}

/// Shows a pattern with each kind of construct in a colour of its own.
/// Literal text comes out as it is, so a pattern that is all literal text
/// comes out unchanged.
pub fn colorize_regex(pattern: &str) -> (out: String)
    ensures
        renders(out@, highlighted(pattern@)),
        all_literal(pattern@) ==> out@ == pattern@,
{
    let segments = highlight(pattern);
    let out = render(&segments);
    proof {
        lemma_highlighted_text(pattern@);
        if all_literal(pattern@) {
            assert forall|i: int| 0 <= i < highlighted(pattern@).len() implies (
            #[trigger] highlighted(pattern@)[i]).style == Style::Plain by {
                assert(tokens(pattern@)[i].category == Category::Literal);
            }
            lemma_plain_layout_renders_as_text(out@, highlighted(pattern@));
        }
    }
    out
}

/// The report on a generated pattern, for the terminal.
pub fn format_generate(response: &GenerateResponse) -> (out: String)
    ensures
        renders(out@, generate_layout(response@)),
{
    render(&layout_generate(response))
}

/// The report on an explained pattern, for the terminal.
pub fn format_explain(response: &ExplainResponse) -> (out: String)
    ensures
        renders(out@, explain_layout(response@)),
{
    render(&layout_explain(response))
}

/// The report on a tested pattern, for the terminal.
pub fn format_test(result: &TestResult) -> (out: String)
    ensures
        renders(out@, test_layout(result@)),
{
    render(&layout_test(result))
}

} // verus!
