//! Asking for a token-by-token explanation of a pattern.

use vstd::prelude::*;
use vstd::string::StringExecFns;

verus! {

/// One piece of a pattern with what it means.
#[derive(Clone, Debug)]
pub struct Token {
    pub token: String,
    pub explanation: String,
}

/// What a `Token` stands for.
pub struct TokenView {
    pub token: Seq<char>,
    pub explanation: Seq<char>,
}

impl View for Token {
    type V = TokenView;

    open spec fn view(&self) -> TokenView {
        TokenView { token: self.token@, explanation: self.explanation@ }
    }
}

impl DeepView for Token {
    type V = TokenView;

    open spec fn deep_view(&self) -> TokenView {
        self@
    }
}

/// The backend's explanation of a pattern.
#[derive(Clone, Debug)]
pub struct ExplainResponse {
    pub tokens: Vec<Token>,
    pub purpose: String,
}

/// What an `ExplainResponse` stands for.
pub struct ExplainResponseView {
    pub tokens: Seq<TokenView>,
    pub purpose: Seq<char>,
}

impl View for ExplainResponse {
    type V = ExplainResponseView;

    open spec fn view(&self) -> ExplainResponseView {
        ExplainResponseView { tokens: self.tokens.deep_view(), purpose: self.purpose@ }
    }
}

/// The request for an explanation.
pub struct ExplainCommand;

/// The prompt up to the pattern.
pub const EXPLAIN_OPENING: &'static str = "Explain this regex pattern token by token: ";

/// The prompt after the pattern: the shape of the answer and what is asked
/// of it.
pub const EXPLAIN_CLOSING: &'static str = "\n\nRespond with ONLY valid JSON, no markdown:\n\
    {\"tokens\": [\
    {\"token\": \"\\\\d\", \"explanation\": \"Matches any digit 0-9\"}, \
    {\"token\": \"+\", \"explanation\": \"One or more of the preceding\"}], \
    \"purpose\": \"Overall description of what this pattern matches\"}\n\n\
    Requirements:\n\
    - Break down EVERY token/component in the pattern\n\
    - Group logical units \
    (e.g., keep \"[a-z]\" together, not \"[\", \"a\", \"-\", \"z\", \"]\")\n\
    - Keep individual explanations concise (one short sentence each)\n\
    - The purpose should be a clear 1-sentence summary of what the entire pattern is for";

/// The prompt that asks for an explanation of `pattern`.
pub open spec fn explain_prompt(pattern: Seq<char>) -> Seq<char> {
    EXPLAIN_OPENING@ + pattern + EXPLAIN_CLOSING@
}

impl ExplainCommand {
    pub fn new() -> ExplainCommand {
        ExplainCommand
    }

    /// The prompt to send to the backend for `pattern`.
    pub fn build_prompt(&self, pattern: &str) -> (prompt: String)
        ensures
            prompt@ == explain_prompt(pattern@),
    {
        let mut prompt = String::from_str(EXPLAIN_OPENING);
        prompt.append(pattern);
        prompt.append(EXPLAIN_CLOSING);
        prompt
    }
}

impl Default for ExplainCommand {
    fn default() -> ExplainCommand {
        ExplainCommand::new()
    }
}

} // verus!
