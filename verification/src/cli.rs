//! What the command line asks for, and what is to be done about it.

use crate::commands::explain::explain_prompt;
use crate::commands::explain::ExplainCommand;
use crate::commands::generate::generate_prompt;
use crate::commands::generate::GenerateCommand;
use crate::error::Error;
use crate::error::ErrorView;
use vstd::prelude::*;
use vstd::string::StringExecFns;

verus! {

/// The regex dialect a pattern is asked for in.
#[derive(Clone, Copy, Debug, PartialEq, Eq, Structural)]
pub enum Flavor {
    Rust,
    Js,
    Pcre,
    Posix,
}

impl Flavor {
    /// The dialect's name as the prompt gives it.
    pub open spec fn name(self) -> Seq<char> {
        match self {
            Flavor::Rust => "rust"@,
            Flavor::Js => "javascript"@,
            Flavor::Pcre => "pcre"@,
            Flavor::Posix => "posix"@,
        }
    }

    pub fn as_str(&self) -> (name: &'static str)
        ensures
            name@ == self.name(),
    {
        match self {
            Flavor::Rust => "rust",
            Flavor::Js => "javascript",
            Flavor::Pcre => "pcre",
            Flavor::Posix => "posix",
        }
    }
}

impl Default for Flavor {
    fn default() -> (flavor: Flavor)
        ensures
            flavor == Flavor::Rust,
    {
        Flavor::Rust
    }
}

/// The command line, parsed.
#[derive(Clone, Debug)]
pub struct Cli {
    /// What to find a pattern for, or the pattern to explain.
    pub input: Option<String>,
    /// Explain `input` instead of finding a pattern for it.
    pub explain: bool,
    /// A text to test the pattern found against.
    pub test: Option<String>,
    /// Print JSON instead of the coloured report.
    pub raw: bool,
    pub flavor: Flavor,
}

/// What is to be asked of the backend, and what is to be done with its
/// answer.
#[derive(Clone, Debug)]
pub enum Request {
    /// Explain a pattern.
    Explain { prompt: String },
    /// Find a pattern and test it against `test_input`.
    Test { prompt: String, test_input: String },
    /// Find a pattern.
    Generate { prompt: String },
}

/// What a `Request` stands for.
pub enum RequestView {
    Explain { prompt: Seq<char> },
    Test { prompt: Seq<char>, test_input: Seq<char> },
    Generate { prompt: Seq<char> },
}

impl View for Request {
    type V = RequestView;

    open spec fn view(&self) -> RequestView {
        match self {
            Request::Explain { prompt } => RequestView::Explain { prompt: prompt@ },
            Request::Test { prompt, test_input } => RequestView::Test {
                prompt: prompt@,
                test_input: test_input@,
            },
            Request::Generate { prompt } => RequestView::Generate { prompt: prompt@ },
        }
    }
}

/// The complaint about flags that ask for two things at once.
pub const COMBINED_FLAGS: &'static str = "Cannot combine -e (explain) and -t (test) flags";

/// The complaint about a command line that names no input.
pub const NO_INPUT: &'static str = "No input provided";

impl Cli {
    /// Whether the flags ask for two things at once.
    pub open spec fn contradictory(&self) -> bool {
        self.explain && self.test is Some
    }

    /// What the command line asks for: a complaint where its flags
    /// contradict each other or it names no input, else the request to make.
    /// Explaining goes before testing, testing before plain generating.
    pub open spec fn request(&self) -> Result<RequestView, ErrorView> {
        if self.contradictory() {
            Err(ErrorView::InvalidFlags(COMBINED_FLAGS@))
        } else {
            match self.input {
                None => Err(ErrorView::InvalidFlags(NO_INPUT@)),
                Some(input) => if self.explain {
                    Ok(RequestView::Explain { prompt: explain_prompt(input@) })
                } else {
                    match self.test {
                        Some(test_input) => Ok(
                            RequestView::Test {
                                prompt: generate_prompt(self.flavor.name(), input@),
                                test_input: test_input@,
                            },
                        ),
                        None => Ok(
                            RequestView::Generate {
                                prompt: generate_prompt(self.flavor.name(), input@),
                            },
                        ),
                    }
                },
            }
        }
    }
}

/// Refuses a command line that asks both to explain and to test.
pub fn validate_flags(cli: &Cli) -> (checked: Result<(), Error>)
    ensures
        checked is Err <==> cli.contradictory(),
        checked matches Err(e) ==> e@ == ErrorView::InvalidFlags(COMBINED_FLAGS@),
{
    if cli.explain && cli.test.is_some() {
        return Err(Error::InvalidFlags(String::from_str(COMBINED_FLAGS)));
    }
    Ok(())
}

/// Decides what to ask of the backend for a command line.
pub fn plan(cli: &Cli) -> (planned: Result<Request, Error>)
    ensures
        match planned {
            Ok(request) => cli.request() == Ok::<RequestView, ErrorView>(request@),
            Err(e) => cli.request() == Err::<RequestView, ErrorView>(e@),
        },
{
    match validate_flags(cli) {
        Err(e) => {
            return Err(e);
        },
        Ok(_) => {},
    }
    let input = match &cli.input {
        Some(input) => input,
        None => {
            return Err(Error::InvalidFlags(String::from_str(NO_INPUT)));
        },
    };
    if cli.explain {
        let command = ExplainCommand::new();
        Ok(Request::Explain { prompt: command.build_prompt(input.as_str()) })
    } else {
        let command = GenerateCommand::new(cli.flavor.as_str());
        let prompt = command.build_prompt(input.as_str());
        match &cli.test {
            Some(test_input) => Ok(Request::Test { prompt, test_input: test_input.clone() }),
            None => Ok(Request::Generate { prompt }),
        }
    }
}

} // verus!
