//! Regular-expression introspection for a command-line assistant that finds,
//! explains and tests patterns with the help of a language model.
//!
//! The core is in two modules: [`scanner`] cuts a pattern into categorised
//! spans, and [`commands::test`] reports how a pattern matched a text, group
//! by group. Around them stand the prompts sent to the model and the reading
//! of its reply, the decision what a command line asks for ([`cli`]) and the
//! reports shown on the terminal ([`layout`], [`output`]). What the library
//! takes on trust from the regex engine and the terminal library is stated
//! in [`engine`] and [`terminal`].

pub mod claude;
pub mod cli;
pub mod commands;
pub mod engine;
pub mod error;
pub mod layout;
pub mod output;
pub mod scanner;
pub mod terminal;
pub mod text;
