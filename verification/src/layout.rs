//! The layout of each report: which texts it holds, in which order and
//! style.

use crate::commands::explain::ExplainResponse;
use crate::commands::explain::ExplainResponseView;
use crate::commands::explain::Token;
use crate::commands::explain::TokenView;
use crate::commands::generate::GenerateResponse;
use crate::commands::generate::GenerateResponseView;
use crate::commands::test::GroupCapture;
use crate::commands::test::GroupCaptureView;
use crate::commands::test::MatchDetails;
use crate::commands::test::MatchDetailsView;
use crate::commands::test::TestResult;
use crate::commands::test::TestResultView;
use crate::output::highlight;
use crate::output::highlighted;
use crate::output::Segment;
use crate::output::SegmentView;
use crate::output::Style;
use crate::text::decimal;
use crate::text::decimal_text;
use vstd::prelude::*;
use vstd::string::StringExecFns;

verus! {

/// A segment shown as it is.
pub open spec fn plain(text: Seq<char>) -> SegmentView {
    SegmentView { style: Style::Plain, text }
}

/// A segment shown in `style`.
pub open spec fn styled(style: Style, text: Seq<char>) -> SegmentView {
    SegmentView { style, text }
}

/// The heading `Pattern:` and under it the pattern, highlighted.
pub open spec fn pattern_block(pattern: Seq<char>) -> Seq<SegmentView> {
    seq![styled(Style::Bold, "Pattern:"@), plain("\n  "@)] + highlighted(pattern) + seq![
        plain("\n"@),
    ]
}

/// A heading after an empty line, and under it a text.
pub open spec fn text_block(style: Style, heading: Seq<char>, text: Seq<char>) -> Seq<
    SegmentView,
> {
    seq![plain("\n"@), styled(style, heading), plain("\n  "@), plain(text), plain("\n"@)]
}

/// One example, behind its mark.
pub open spec fn example_line(style: Style, mark: Seq<char>, example: Seq<char>) -> Seq<
    SegmentView,
> {
    seq![plain("  "@), styled(style, mark), plain(" "@), plain(example), plain("\n"@)]
}

/// A heading after an empty line, and under it one line for each example.
pub open spec fn examples_block(
    heading_style: Style,
    heading: Seq<char>,
    mark_style: Style,
    mark: Seq<char>,
    examples: Seq<Seq<char>>,
) -> Seq<SegmentView> {
    seq![plain("\n"@), styled(heading_style, heading), plain("\n"@)] + examples.flat_map(
        |example: Seq<char>| example_line(mark_style, mark, example),
    )
}

/// The report on a generated pattern.
pub open spec fn generate_layout(response: GenerateResponseView) -> Seq<SegmentView> {
    pattern_block(response.pattern) + text_block(
        Style::Bold,
        "Explanation:"@,
        response.explanation,
    ) + examples_block(Style::GreenBold, "Matches:"@, Style::Green, "+"@, response.matches)
        + examples_block(Style::RedBold, "Non-matches:"@, Style::Red, "-"@, response.non_matches)
}

/// One token, highlighted, with what it means.
pub open spec fn token_line(token: TokenView) -> Seq<SegmentView> {
    seq![plain("  "@)] + highlighted(token.token) + seq![
        plain(" "@),
        styled(Style::DarkGrey, "\u{2192}"@),
        plain(" "@),
        plain(token.explanation),
        plain("\n"@),
    ]
}

/// The report on an explained pattern.
pub open spec fn explain_layout(response: ExplainResponseView) -> Seq<SegmentView> {
    seq![styled(Style::Bold, "Token Breakdown:"@), plain("\n"@)] + response.tokens.flat_map(
        |token: TokenView| token_line(token),
    ) + text_block(Style::Bold, "Purpose:"@, response.purpose)
}

/// A group's name as it is shown behind the index: in brackets, or nothing.
pub open spec fn name_note(name: Option<Seq<char>>) -> Seq<char> {
    match name {
        Some(n) => " ("@ + n + ")"@,
        None => Seq::empty(),
    }
}

/// One group: its index, its name if it has one, and what it matched.
pub open spec fn group_line(group: GroupCaptureView) -> Seq<SegmentView> {
    seq![
        plain("    "@),
        plain(decimal_text(group.index as nat)),
        styled(Style::DarkGrey, name_note(group.name)),
        plain(": \""@),
        styled(Style::Cyan, group.value),
        plain("\"\n"@),
    ]
}

/// The groups of a match under their heading; nothing where there is none.
pub open spec fn groups_block(groups: Seq<GroupCaptureView>) -> Seq<SegmentView> {
    if groups.len() > 0 {
        seq![plain("  "@), styled(Style::DarkGrey, "Groups:"@), plain("\n"@)] + groups.flat_map(
            |group: GroupCaptureView| group_line(group),
        )
    } else {
        Seq::empty()
    }
}

/// What matched and where, and then the groups.
pub open spec fn details_block(details: MatchDetailsView) -> Seq<SegmentView> {
    seq![
        plain("  "@),
        styled(Style::DarkGrey, "Matched:"@),
        plain(" \""@),
        styled(Style::Green, details.full_match),
        plain("\" ("@),
        plain(decimal_text(details.start as nat)),
        plain(".."@),
        plain(decimal_text(details.end as nat)),
        plain(")\n"@),
    ] + groups_block(details.groups)
}

/// The verdict, and for a match its details.
pub open spec fn verdict_block(result: TestResultView) -> Seq<SegmentView> {
    if result.matches {
        seq![styled(Style::GreenBold, "MATCH"@), plain("\n"@)] + match result.match_details {
            Some(details) => details_block(details),
            None => Seq::empty(),
        }
    } else {
        seq![styled(Style::RedBold, "NO MATCH"@), plain("\n"@)]
    }
}

/// The report on a tested pattern.
pub open spec fn test_layout(result: TestResultView) -> Seq<SegmentView> {
    pattern_block(result.pattern) + seq![
        plain("\n"@),
        styled(Style::Bold, "Test Input:"@),
        plain("\n  \""@),
        plain(result.test_input),
        plain("\"\n"@),
        plain("\n"@),
        styled(Style::Bold, "Result:"@),
        plain(" "@),
    ] + verdict_block(result) + text_block(
        Style::DarkGrey,
        "Explanation:"@,
        result.generated.explanation,
    )
}

/// What the lines of the first `i + 1` items add to those of the first `i`.
proof fn lemma_lines_step<A, B>(items: Seq<A>, line: spec_fn(A) -> Seq<B>, i: int)
    requires
        0 <= i < items.len(),
    ensures
        items.take(i + 1).flat_map(line) == items.take(i).flat_map(line) + line(items[i]),
{
    let done = items.take(i).map_values(line);
    done.lemma_flatten_push(line(items[i]));
    assert(items.take(i + 1).map_values(line) == done.push(line(items[i])));
}

fn put(segments: &mut Vec<Segment>, style: Style, text: &str)
    ensures
        final(segments).deep_view() == old(segments).deep_view().push(styled(style, text@)),
{
    let ghost before = segments.deep_view();
    segments.push(Segment { style, text: String::from_str(text) });
    assert(segments.deep_view() == before.push(styled(style, text@)));
}

fn put_owned(segments: &mut Vec<Segment>, style: Style, text: String)
    ensures
        final(segments).deep_view() == old(segments).deep_view().push(styled(style, text@)),
{
    let ghost before = segments.deep_view();
    segments.push(Segment { style, text });
    assert(segments.deep_view() == before.push(styled(style, text@)));
}

fn put_all(segments: &mut Vec<Segment>, more: Vec<Segment>)
    ensures
        final(segments).deep_view() == old(segments).deep_view() + more.deep_view(),
{
    let ghost before = segments.deep_view();
    let ghost added = more.deep_view();
    let mut more = more;
    segments.append(&mut more);
    assert(segments.deep_view() == before + added);
}

fn put_pattern_block(segments: &mut Vec<Segment>, pattern: &str)
    ensures
        final(segments).deep_view() == old(segments).deep_view() + pattern_block(pattern@),
{
    let ghost before = segments.deep_view();
    put(segments, Style::Bold, "Pattern:");
    put(segments, Style::Plain, "\n  ");
    put_all(segments, highlight(pattern));
    put(segments, Style::Plain, "\n");
    assert(segments.deep_view() == before + pattern_block(pattern@));
}

fn put_text_block(segments: &mut Vec<Segment>, style: Style, heading: &str, text: &str)
    ensures
        final(segments).deep_view() == old(segments).deep_view() + text_block(
            style,
            heading@,
            text@,
        ),
{
    let ghost before = segments.deep_view();
    put(segments, Style::Plain, "\n");
    put(segments, style, heading);
    put(segments, Style::Plain, "\n  ");
    put(segments, Style::Plain, text);
    put(segments, Style::Plain, "\n");
    assert(segments.deep_view() == before + text_block(style, heading@, text@));
}

fn put_examples_block(
    segments: &mut Vec<Segment>,
    heading_style: Style,
    heading: &str,
    mark_style: Style,
    mark: &str,
    examples: &Vec<String>,
)
    ensures
        final(segments).deep_view() == old(segments).deep_view() + examples_block(
            heading_style,
            heading@,
            mark_style,
            mark@,
            examples.deep_view(),
        ),
{
    let ghost before = segments.deep_view();
    let ghost head = seq![plain("\n"@), styled(heading_style, heading@), plain("\n"@)];
    let ghost line = |example: Seq<char>| example_line(mark_style, mark@, example);
    let ghost all = examples.deep_view();
    put(segments, Style::Plain, "\n");
    put(segments, heading_style, heading);
    put(segments, Style::Plain, "\n");
    assert(all.take(0).flat_map(line) == Seq::<SegmentView>::empty());
    assert(segments.deep_view() == before + head + all.take(0).flat_map(line));
    let mut i: usize = 0;
    while i < examples.len()
        invariant
            i <= examples.len(),
            all == examples.deep_view(),
            line == |example: Seq<char>| example_line(mark_style, mark@, example),
            segments.deep_view() == before + head + all.take(i as int).flat_map(line),
        decreases examples.len() - i,
    {
        let ghost so_far = segments.deep_view();
        put(segments, Style::Plain, "  ");
        put(segments, mark_style, mark);
        put(segments, Style::Plain, " ");
        put(segments, Style::Plain, examples[i].as_str());
        put(segments, Style::Plain, "\n");
        proof {
            lemma_lines_step(all, line, i as int);
            assert(segments.deep_view() == so_far + line(all[i as int]));
        }
        i += 1;
    }
    assert(all.take(examples.len() as int) == all);
}

/// Lays out the report on a generated pattern.
pub fn layout_generate(response: &GenerateResponse) -> (segments: Vec<Segment>)
    ensures
        segments.deep_view() == generate_layout(response@),
{
    let mut segments: Vec<Segment> = Vec::new();
    put_pattern_block(&mut segments, response.pattern.as_str());
    put_text_block(&mut segments, Style::Bold, "Explanation:", response.explanation.as_str());
    put_examples_block(
        &mut segments,
        Style::GreenBold,
        "Matches:",
        Style::Green,
        "+",
        &response.matches,
    );
    put_examples_block(
        &mut segments,
        Style::RedBold,
        "Non-matches:",
        Style::Red,
        "-",
        &response.non_matches,
    );
    assert(segments.deep_view() == generate_layout(response@));
    segments
}

fn put_token_line(segments: &mut Vec<Segment>, token: &Token)
    ensures
        final(segments).deep_view() == old(segments).deep_view() + token_line(token@),
{
    let ghost before = segments.deep_view();
    put(segments, Style::Plain, "  ");
    put_all(segments, highlight(token.token.as_str()));
    put(segments, Style::Plain, " ");
    put(segments, Style::DarkGrey, "\u{2192}");
    put(segments, Style::Plain, " ");
    put(segments, Style::Plain, token.explanation.as_str());
    put(segments, Style::Plain, "\n");
    assert(segments.deep_view() == before + token_line(token@));
}

/// Lays out the report on an explained pattern.
pub fn layout_explain(response: &ExplainResponse) -> (segments: Vec<Segment>)
    ensures
        segments.deep_view() == explain_layout(response@),
{
    let mut segments: Vec<Segment> = Vec::new();
    let ghost head = seq![styled(Style::Bold, "Token Breakdown:"@), plain("\n"@)];
    let ghost line = |token: TokenView| token_line(token);
    let ghost all = response.tokens.deep_view();
    put(&mut segments, Style::Bold, "Token Breakdown:");
    put(&mut segments, Style::Plain, "\n");
    assert(all.take(0).flat_map(line) == Seq::<SegmentView>::empty());
    assert(segments.deep_view() == head + all.take(0).flat_map(line));
    let mut i: usize = 0;
    while i < response.tokens.len()
        invariant
            i <= response.tokens.len(),
            all == response.tokens.deep_view(),
            line == |token: TokenView| token_line(token),
            segments.deep_view() == head + all.take(i as int).flat_map(line),
        decreases response.tokens.len() - i,
    {
        put_token_line(&mut segments, &response.tokens[i]);
        proof {
            lemma_lines_step(all, line, i as int);
        }
        i += 1;
    }
    assert(all.take(response.tokens.len() as int) == all);
    put_text_block(&mut segments, Style::Bold, "Purpose:", response.purpose.as_str());
    assert(segments.deep_view() == explain_layout(response@));
    segments
}

fn name_text(name: &Option<String>) -> (note: String)
    ensures
        note@ == name_note(name.deep_view()),
{
    match name {
        Some(n) => String::from_str(" (").concat(n.as_str()).concat(")"),
        None => String::new(),
    }
}

fn put_group_line(segments: &mut Vec<Segment>, group: &GroupCapture)
    ensures
        final(segments).deep_view() == old(segments).deep_view() + group_line(group@),
{
    let ghost before = segments.deep_view();
    put(segments, Style::Plain, "    ");
    put_owned(segments, Style::Plain, decimal(group.index));
    put_owned(segments, Style::DarkGrey, name_text(&group.name));
    put(segments, Style::Plain, ": \"");
    put(segments, Style::Cyan, group.value.as_str());
    put(segments, Style::Plain, "\"\n");
    assert(segments.deep_view() == before + group_line(group@));
}

fn put_groups_block(segments: &mut Vec<Segment>, groups: &Vec<GroupCapture>)
    ensures
        final(segments).deep_view() == old(segments).deep_view() + groups_block(
            groups.deep_view(),
        ),
{
    let ghost before = segments.deep_view();
    let ghost head = seq![plain("  "@), styled(Style::DarkGrey, "Groups:"@), plain("\n"@)];
    let ghost line = |group: GroupCaptureView| group_line(group);
    let ghost all = groups.deep_view();
    if groups.len() == 0 {
        assert(segments.deep_view() == before + groups_block(all));
        return ;
    }
    put(segments, Style::Plain, "  ");
    put(segments, Style::DarkGrey, "Groups:");
    put(segments, Style::Plain, "\n");
    assert(all.take(0).flat_map(line) == Seq::<SegmentView>::empty());
    assert(segments.deep_view() == before + head + all.take(0).flat_map(line));
    let mut i: usize = 0;
    while i < groups.len()
        invariant
            i <= groups.len(),
            all == groups.deep_view(),
            line == |group: GroupCaptureView| group_line(group),
            segments.deep_view() == before + head + all.take(i as int).flat_map(line),
        decreases groups.len() - i,
    {
        put_group_line(segments, &groups[i]);
        proof {
            lemma_lines_step(all, line, i as int);
        }
        i += 1;
    }
    assert(all.take(groups.len() as int) == all);
}

fn put_details_block(segments: &mut Vec<Segment>, details: &MatchDetails)
    ensures
        final(segments).deep_view() == old(segments).deep_view() + details_block(details@),
{
    let ghost before = segments.deep_view();
    put(segments, Style::Plain, "  ");
    put(segments, Style::DarkGrey, "Matched:");
    put(segments, Style::Plain, " \"");
    put(segments, Style::Green, details.full_match.as_str());
    put(segments, Style::Plain, "\" (");
    put_owned(segments, Style::Plain, decimal(details.start));
    put(segments, Style::Plain, "..");
    put_owned(segments, Style::Plain, decimal(details.end));
    put(segments, Style::Plain, ")\n");
    let ghost head = segments.deep_view();
    put_groups_block(segments, &details.groups);
    assert(segments.deep_view() == before + details_block(details@));
}

fn put_verdict_block(segments: &mut Vec<Segment>, result: &TestResult)
    ensures
        final(segments).deep_view() == old(segments).deep_view() + verdict_block(result@),
{
    let ghost before = segments.deep_view();
    if result.matches {
        put(segments, Style::GreenBold, "MATCH");
        put(segments, Style::Plain, "\n");
        match &result.match_details {
            Some(details) => {
                put_details_block(segments, details);
            },
            None => {},
        }
    } else {
        put(segments, Style::RedBold, "NO MATCH");
        put(segments, Style::Plain, "\n");
    }
    assert(segments.deep_view() == before + verdict_block(result@));
}

/// Lays out the report on a tested pattern.
pub fn layout_test(result: &TestResult) -> (segments: Vec<Segment>)
    ensures
        segments.deep_view() == test_layout(result@),
{
    let mut segments: Vec<Segment> = Vec::new();
    put_pattern_block(&mut segments, result.pattern.as_str());
    put(&mut segments, Style::Plain, "\n");
    put(&mut segments, Style::Bold, "Test Input:");
    put(&mut segments, Style::Plain, "\n  \"");
    put(&mut segments, Style::Plain, result.test_input.as_str());
    put(&mut segments, Style::Plain, "\"\n");
    put(&mut segments, Style::Plain, "\n");
    put(&mut segments, Style::Bold, "Result:");
    put(&mut segments, Style::Plain, " ");
    put_verdict_block(&mut segments, result);
    put_text_block(
        &mut segments,
        Style::DarkGrey,
        "Explanation:",
        result.generated.explanation.as_str(),
    );
    assert(segments.deep_view() == test_layout(result@));
    segments
}

} // verus!
