//! Asking for a pattern that matches a description.

use crate::text::clone_texts;
use vstd::prelude::*;
use vstd::string::StringExecFns;

verus! {

/// A pattern the backend proposed, with examples and an explanation.
#[derive(Clone, Debug)]
pub struct GenerateResponse {
    pub pattern: String,
    pub matches: Vec<String>,
    pub non_matches: Vec<String>,
    pub explanation: String,
}

/// What a `GenerateResponse` stands for.
pub struct GenerateResponseView {
    pub pattern: Seq<char>,
    pub matches: Seq<Seq<char>>,
    pub non_matches: Seq<Seq<char>>,
    pub explanation: Seq<char>,
}

impl View for GenerateResponse {
    type V = GenerateResponseView;

    open spec fn view(&self) -> GenerateResponseView {
        GenerateResponseView {
            pattern: self.pattern@,
            matches: self.matches.deep_view(),
            non_matches: self.non_matches.deep_view(),
            explanation: self.explanation@,
        }
    }
}

impl GenerateResponse {
    /// A copy that stands for the same response.
    pub fn duplicate(&self) -> (copy: GenerateResponse)
        ensures
            copy@ == self@,
    {
        GenerateResponse {
            pattern: self.pattern.clone(),
            matches: clone_texts(&self.matches),
            non_matches: clone_texts(&self.non_matches),
            explanation: self.explanation.clone(),
        }
    }
}

/// The request for a pattern in a given regex flavor.
#[derive(Clone)]
pub struct GenerateCommand {
    pub flavor: String,
}

/// What the prompt says of Rust's dialect.
pub const RUST_NOTE: &'static str =
    "Note: Rust regex does NOT support lookahead/lookbehind. Use only supported features.";

/// What the prompt says of JavaScript's dialect.
pub const JS_NOTE: &'static str =
    "JavaScript regex supports lookahead but not lookbehind in all environments.";

/// What the prompt says of PCRE.
pub const PCRE_NOTE: &'static str =
    "PCRE supports full regex features including lookahead, lookbehind, and recursion.";

/// What the prompt says of POSIX's dialect.
pub const POSIX_NOTE: &'static str =
    "POSIX regex is limited - no \\d, \\w shortcuts. Use character classes like [0-9], [a-zA-Z_].";

/// The prompt up to the description.
pub const GENERATE_OPENING: &'static str = "Generate a regex pattern that matches: \"";

/// The prompt between the description and the flavor.
pub const GENERATE_FLAVOR: &'static str = "\"\n\nTarget regex flavor: ";

/// The prompt from the shape of the answer to the second mention of the
/// flavor.
pub const GENERATE_FORMAT: &'static str = "\n\nRespond with ONLY valid JSON, no markdown:\n\
    {\"pattern\": \"the regex pattern\", \
    \"matches\": [\"example1\", \"example2\", \"example3\"], \
    \"non_matches\": [\"non-match1\", \"non-match2\"], \
    \"explanation\": \"Brief explanation of how the pattern works\"}\n\n\
    Requirements:\n\
    - The pattern should be valid for the ";

/// The rest of the prompt.
pub const GENERATE_CLOSING: &'static str = " regex flavor\n\
    - Provide 2-3 realistic example strings that WILL match\n\
    - Provide 1-2 realistic example strings that will NOT match\n\
    - Keep the explanation concise (1-2 sentences)";

/// What the prompt says of a flavor's limits; nothing for a flavor it does
/// not know.
pub open spec fn flavor_note(flavor: Seq<char>) -> Seq<char> {
    if flavor == "rust"@ {
        RUST_NOTE@
    } else if flavor == "js"@ {
        JS_NOTE@
    } else if flavor == "pcre"@ {
        PCRE_NOTE@
    } else if flavor == "posix"@ {
        POSIX_NOTE@
    } else {
        Seq::empty()
    }
}

/// The prompt that asks for a pattern matching `description` in `flavor`.
pub open spec fn generate_prompt(flavor: Seq<char>, description: Seq<char>) -> Seq<char> {
    GENERATE_OPENING@ + description + GENERATE_FLAVOR@ + flavor + "\n"@ + flavor_note(flavor)
        + GENERATE_FORMAT@ + flavor + GENERATE_CLOSING@
}

impl GenerateCommand {
    pub fn new(flavor: &str) -> (command: GenerateCommand)
        ensures
            command.flavor@ == flavor@,
    {
        GenerateCommand { flavor: String::from_str(flavor) }
    }

    /// The note on this command's flavor.
    fn note(&self) -> (note: &'static str)
        ensures
            note@ == flavor_note(self.flavor@),
    {
        if self.flavor == String::from_str("rust") {
            RUST_NOTE
        } else if self.flavor == String::from_str("js") {
            JS_NOTE
        } else if self.flavor == String::from_str("pcre") {
            PCRE_NOTE
        } else if self.flavor == String::from_str("posix") {
            POSIX_NOTE
        } else {
            proof {
                reveal_strlit("");
                assert(""@ == Seq::<char>::empty());
            }
            ""
        }
    }

    /// The prompt to send to the backend for `description`.
    pub fn build_prompt(&self, description: &str) -> (prompt: String)
        ensures
            prompt@ == generate_prompt(self.flavor@, description@),
    {
        let mut prompt = String::from_str(GENERATE_OPENING);
        prompt.append(description);
        prompt.append(GENERATE_FLAVOR);
        prompt.append(self.flavor.as_str());
        prompt.append("\n");
        prompt.append(self.note());
        prompt.append(GENERATE_FORMAT);
        prompt.append(self.flavor.as_str());
        prompt.append(GENERATE_CLOSING);
        prompt
    }
}

impl Default for GenerateCommand {
    fn default() -> (command: GenerateCommand)
        ensures
            command.flavor@ == "rust"@,
    {
        GenerateCommand::new("rust")
    }
}

} // verus!
