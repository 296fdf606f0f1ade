//! The regular-expression engine, as far as this library leans on it.
//!
//! Nothing here is proved: each item states what the `regex` crate does, and
//! the rest of the library is verified against these statements.

use regex::Captures;
use regex::Regex;
use vstd::prelude::*;

verus! {

/// `regex::Regex`, a compiled expression. What is inside it is the
/// engine's business.
#[verifier::external_type_specification]
#[verifier::external_body]
pub struct ExRegex(Regex);

/// `regex::Captures`, the groups of one match.
#[verifier::external_type_specification]
#[verifier::external_body]
pub struct ExCaptures<'h>(Captures<'h>);

/// What `Regex::new` makes of a pattern: the compiled expression, or the
/// text of the engine's complaint.
pub uninterp spec fn compile_result(pattern: Seq<char>) -> Result<Regex, Seq<char>>;

/// The names that `Regex::capture_names` yields: one entry for each capturing
/// group in order of opening parenthesis, `None` where the group has no name.
/// Entry 0 is the implicit group of the whole match.
pub uninterp spec fn capture_names_of(re: Regex) -> Seq<Option<Seq<char>>>;

/// What `Regex::captures` finds in a text: the groups of the leftmost match,
/// or `None` where the expression matches nowhere.
pub uninterp spec fn captures_of(re: Regex, haystack: Seq<char>) -> Option<Captures<'static>>;

/// What `Captures::get` gives for group `i`: the start and end of what the
/// group matched, as byte offsets into the text searched, and that text
/// itself; `None` where the group took no part in the match or `i` numbers
/// no group.
pub uninterp spec fn group_of(caps: Captures<'static>, i: int) -> Option<(int, int, Seq<char>)>;

/// What the engine reports of one group that took part in a match.
#[derive(Clone, Debug)]
pub struct GroupMatch {
    /// Byte offset in the searched text at which the group's match begins.
    pub start: usize,
    /// Byte offset in the searched text at which it ends.
    pub end: usize,
    /// The text matched.
    pub text: String,
}

/// What a `GroupMatch` stands for.
pub struct GroupMatchView {
    pub start: int,
    pub end: int,
    pub text: Seq<char>,
}

impl View for GroupMatch {
    type V = GroupMatchView;

    open spec fn view(&self) -> GroupMatchView {
        GroupMatchView { start: self.start as int, end: self.end as int, text: self.text@ }
    }
}

impl DeepView for GroupMatch {
    type V = GroupMatchView;

    open spec fn deep_view(&self) -> GroupMatchView {
        self@
    }
}

/// A group slot as the engine states it, as a view.
pub open spec fn slot_view(slot: Option<(int, int, Seq<char>)>) -> Option<GroupMatchView> {
    match slot {
        Some(m) => Some(GroupMatchView { start: m.0, end: m.1, text: m.2 }),
        None => None,
    }
}

/// The view of a group slot held in memory.
pub open spec fn found_view(found: Option<GroupMatch>) -> Option<GroupMatchView> {
    match found {
        Some(m) => Some(m@),
        None => None,
    }
}

/// `Regex::new`: compiles `pattern` with the engine's default settings. The
/// outcome is the one the engine gives this pattern every time. Where the
/// engine refuses the pattern, its error is handed back as the text that the
/// error's `Display` impl writes.
#[verifier::external_body]
pub(crate) fn compile(pattern: &str) -> (compiled: Result<Regex, String>)
    ensures
        match compiled {
            Ok(re) => compile_result(pattern@) == Ok::<Regex, Seq<char>>(re),
            Err(message) => compile_result(pattern@) == Err::<Regex, Seq<char>>(message@),
        },
{
    Regex::new(pattern).map_err(|e| e.to_string())
}

/// `Regex::capture_names`, each name copied out. An expression lists the same
/// names every time.
#[verifier::external_body]
pub(crate) fn group_names(re: &Regex) -> (names: Vec<Option<String>>)
    ensures
        names.deep_view() == capture_names_of(*re),
{
    re.capture_names().map(|name| name.map(|s| s.to_string())).collect()
}

/// `Regex::captures`: searches `haystack` from its start for the leftmost
/// match and hands back its groups. An expression finds the same in the same
/// text every time.
#[verifier::external_body]
pub(crate) fn first_captures<'h>(re: &Regex, haystack: &'h str) -> (caps: Option<Captures<'h>>)
    ensures
        caps == captures_of(*re, haystack@),
{
    re.captures(haystack)
}

/// `Captures::get`, with the `Match` it gives copied out through
/// `Match::start`, `Match::end` and `Match::as_str`. The same group of the
/// same match is the same every time. Group 0 is the whole match and is
/// always there.
#[verifier::external_body]
pub(crate) fn group_at(caps: &Captures<'_>, i: usize) -> (found: Option<GroupMatch>)
    ensures
        found_view(found) == slot_view(group_of(*caps, i as int)),
        i == 0 ==> found is Some,
{
    caps.get(i).map(|m| GroupMatch { start: m.start(), end: m.end(), text: m.as_str().to_string() })
}

} // verus!
