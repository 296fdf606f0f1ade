//! What can go wrong.

use vstd::prelude::*;
use vstd::string::StringExecFns;

verus! {

/// A failure, with the text that explains it.
#[derive(Clone, Debug)]
pub enum Error {
    /// The language-model backend reported a failure.
    Claude(String),
    /// The backend's reply could not be read.
    Parse(String),
    /// The backend could not be run.
    Io(String),
    /// The command-line flags contradict each other or lack something.
    InvalidFlags(String),
    /// The engine would not compile the pattern.
    InvalidRegex(String),
}

/// What an `Error` stands for.
pub enum ErrorView {
    Claude(Seq<char>),
    Parse(Seq<char>),
    Io(Seq<char>),
    InvalidFlags(Seq<char>),
    InvalidRegex(Seq<char>),
}

impl View for Error {
    type V = ErrorView;

    open spec fn view(&self) -> ErrorView {
        match self {
            Error::Claude(m) => ErrorView::Claude(m@),
            Error::Parse(m) => ErrorView::Parse(m@),
            Error::Io(m) => ErrorView::Io(m@),
            Error::InvalidFlags(m) => ErrorView::InvalidFlags(m@),
            Error::InvalidRegex(m) => ErrorView::InvalidRegex(m@),
        }
    }
}

impl ErrorView {
    /// The line shown to the user: what kind of failure, then its text.
    pub open spec fn line(self) -> Seq<char> {
        match self {
            ErrorView::Claude(m) => "CLI error: "@ + m,
            ErrorView::Parse(m) => "Failed to parse response: "@ + m,
            ErrorView::Io(m) => "IO error: "@ + m,
            ErrorView::InvalidFlags(m) => "Invalid flag combination: "@ + m,
            ErrorView::InvalidRegex(m) => "Invalid regex pattern: "@ + m,
        }
    }
}

impl Error {
    /// The line shown to the user.
    pub fn to_string(&self) -> (line: String)
        ensures
            line@ == self@.line(),
    {
        match self {
            Error::Claude(m) => String::from_str("CLI error: ").concat(m.as_str()),
            Error::Parse(m) => String::from_str("Failed to parse response: ").concat(m.as_str()),
            Error::Io(m) => String::from_str("IO error: ").concat(m.as_str()),
            Error::InvalidFlags(m) => String::from_str("Invalid flag combination: ").concat(
                m.as_str(),
            ),
            Error::InvalidRegex(m) => String::from_str("Invalid regex pattern: ").concat(
                m.as_str(),
            ),
        }
    }
}

} // verus!
