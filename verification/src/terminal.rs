//! Colour and weight for text shown on a terminal.
//!
//! Nothing here is proved: each item states what the `crossterm` crate
//! writes. Which escape sequences it writes depends on the process (colour
//! can be switched off) and on the terminal, so all that is stated is where
//! the text stands in what comes back.

use crossterm::style::Stylize;
use vstd::prelude::*;

verus! {

/// `out` is `text` with something before it and something after it.
pub open spec fn wraps(out: Seq<char>, text: Seq<char>) -> bool {
    exists|before: Seq<char>, after: Seq<char>|
        before.len() > 0 && after.len() > 0 && out == #[trigger] (before + text + after)
}

/// What a styled text comes out as.
///
/// Where the terminal takes escape sequences, the text stands between the
/// sequence that sets the style and the sequence that resets it; neither is
/// empty, colour switched off or not. A console that is driven by system
/// calls instead of escape sequences gets nothing written at all.
pub open spec fn styled_text(out: Seq<char>, text: Seq<char>) -> bool {
    out.len() == 0 || wraps(out, text)
}

/// `Stylize::bold`, written out by `StyledContent`'s `Display` through
/// `to_string`. On a terminal that takes escape sequences that is the sequence
/// that sets the attribute, the text, and the sequence that resets; on a
/// console that does not, nothing.
#[verifier::external_body]
pub(crate) fn bold(text: &str) -> (out: String)
    ensures
        styled_text(out@, text@),
{
    text.bold().to_string()
}

/// `Stylize::cyan`, written out by `StyledContent`'s `Display` through
/// `to_string`. On a terminal that takes escape sequences that is the sequence
/// that sets the foreground colour, the text, and the sequence that resets; on
/// a console that does not, nothing.
#[verifier::external_body]
pub(crate) fn cyan(text: &str) -> (out: String)
    ensures
        styled_text(out@, text@),
{
    text.cyan().to_string()
}

/// `Stylize::red`, written out by `StyledContent`'s `Display` through
/// `to_string`. On a terminal that takes escape sequences that is the sequence
/// that sets the foreground colour, the text, and the sequence that resets; on
/// a console that does not, nothing.
#[verifier::external_body]
pub(crate) fn red(text: &str) -> (out: String)
    ensures
        styled_text(out@, text@),
{
    text.red().to_string()
}

/// `Stylize::yellow`, written out by `StyledContent`'s `Display` through
/// `to_string`. On a terminal that takes escape sequences that is the sequence
/// that sets the foreground colour, the text, and the sequence that resets; on
/// a console that does not, nothing.
#[verifier::external_body]
pub(crate) fn yellow(text: &str) -> (out: String)
    ensures
        styled_text(out@, text@),
{
    text.yellow().to_string()
}

/// `Stylize::magenta`, written out by `StyledContent`'s `Display` through
/// `to_string`. On a terminal that takes escape sequences that is the sequence
/// that sets the foreground colour, the text, and the sequence that resets; on
/// a console that does not, nothing.
#[verifier::external_body]
pub(crate) fn magenta(text: &str) -> (out: String)
    ensures
        styled_text(out@, text@),
{
    text.magenta().to_string()
}

/// `Stylize::green`, written out by `StyledContent`'s `Display` through
/// `to_string`. On a terminal that takes escape sequences that is the sequence
/// that sets the foreground colour, the text, and the sequence that resets; on
/// a console that does not, nothing.
#[verifier::external_body]
pub(crate) fn green(text: &str) -> (out: String)
    ensures
        styled_text(out@, text@),
{
    text.green().to_string()
}

/// `Stylize::dark_grey`, written out by `StyledContent`'s `Display` through
/// `to_string`. On a terminal that takes escape sequences that is the sequence
/// that sets the foreground colour, the text, and the sequence that resets; on
/// a console that does not, nothing.
#[verifier::external_body]
pub(crate) fn dark_grey(text: &str) -> (out: String)
    ensures
        styled_text(out@, text@),
{
    text.dark_grey().to_string()
}

/// `Stylize::green` and then `Stylize::bold` on the same content, written out
/// by `StyledContent`'s `Display` through `to_string`. On a terminal that
/// takes escape sequences that is the sequences that set colour and attribute,
/// the text, and the sequence that resets; on a console that does not,
/// nothing.
#[verifier::external_body]
pub(crate) fn green_bold(text: &str) -> (out: String)
    ensures
        styled_text(out@, text@),
{
    text.green().bold().to_string()
}

/// `Stylize::red` and then `Stylize::bold` on the same content, written out by
/// `StyledContent`'s `Display` through `to_string`. On a terminal that takes
/// escape sequences that is the sequences that set colour and attribute, the
/// text, and the sequence that resets; on a console that does not, nothing.
#[verifier::external_body]
pub(crate) fn red_bold(text: &str) -> (out: String)
    ensures
        styled_text(out@, text@),
{
    text.red().bold().to_string()
}

} // verus!
