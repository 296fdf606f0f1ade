//! The language-model backend: how it is asked, and how its reply is read.
//!
//! Running the backend is left to the caller. Here stand the arguments it is
//! run with and the reading of what it answered.

use crate::error::Error;
use crate::error::ErrorView;
use crate::text::chars_of;
use crate::text::string_of;
use vstd::prelude::*;
use vstd::slice::slice_subrange;
use vstd::string::StringExecFns;

verus! {

/// The backend's reply, as parsed from its output.
#[derive(Clone, Debug)]
pub struct ClaudeResponse {
    /// The answer, or the complaint where `is_error` is set.
    pub result: String,
    pub session_id: String,
    pub is_error: bool,
}

/// The backend, with the model it is to use.
pub struct Claude {
    pub model: String,
}

/// Whether `c` is white space, as Unicode's `White_Space` property has it.
pub open spec fn is_whitespace(c: char) -> bool {
    let code = c as u32;
    ||| 0x09 <= code <= 0x0D
    ||| code == 0x20
    ||| code == 0x85
    ||| code == 0xA0
    ||| code == 0x1680
    ||| 0x2000 <= code <= 0x200A
    ||| code == 0x2028
    ||| code == 0x2029
    ||| code == 0x202F
    ||| code == 0x205F
    ||| code == 0x3000
}

/// `s` without the white space it begins with.
pub open spec fn trim_start(s: Seq<char>) -> Seq<char>
    decreases s.len(),
{
    if s.len() > 0 && is_whitespace(s.first()) {
        trim_start(s.drop_first())
    } else {
        s
    }
}

/// `s` without the white space it ends with.
pub open spec fn trim_end(s: Seq<char>) -> Seq<char>
    decreases s.len(),
{
    if s.len() > 0 && is_whitespace(s.last()) {
        trim_end(s.drop_last())
    } else {
        s
    }
}

/// `s` without the white space around it.
pub open spec fn trimmed(s: Seq<char>) -> Seq<char> {
    trim_end(trim_start(s))
}

/// The three backticks that open and close a code block.
pub open spec fn fence() -> Seq<char> {
    seq!['`', '`', '`']
}

/// The opening of a code block marked as JSON.
pub open spec fn json_fence() -> Seq<char> {
    seq!['`', '`', '`', 'j', 's', 'o', 'n']
}

/// What is left of a reply once the code block around it is taken away.
///
/// A reply that, trimmed, begins with a fence (marked as JSON or not) and
/// after it ends with a fence loses both and is trimmed again. Any other
/// reply stays as it is, white space included.
pub open spec fn stripped(s: Seq<char>) -> Seq<char> {
    let t = trimmed(s);
    if fence().is_prefix_of(t) {
        let rest = if json_fence().is_prefix_of(t) {
            t.skip(7)
        } else {
            t.skip(3)
        };
        if fence().is_suffix_of(rest) {
            trimmed(rest.take(rest.len() - 3))
        } else {
            s
        }
    } else {
        s
    }
}

fn white(c: char) -> (b: bool)
    ensures
        b == is_whitespace(c),
{
    let code = c as u32;
    (0x09 <= code && code <= 0x0D) || code == 0x20 || code == 0x85 || code == 0xA0 || code
        == 0x1680 || (0x2000 <= code && code <= 0x200A) || code == 0x2028 || code == 0x2029
        || code == 0x202F || code == 0x205F || code == 0x3000
}

fn trim<'a>(s: &'a [char]) -> (t: &'a [char])
    ensures
        t@ == trimmed(s@),
{
    let mut from: usize = 0;
    assert(s@.skip(0) == s@);
    while from < s.len() && white(s[from])
        invariant
            from <= s.len(),
            trim_start(s@) == trim_start(s@.skip(from as int)),
        decreases s.len() - from,
    {
        assert(s@.skip(from as int).drop_first() == s@.skip(from as int + 1));
        from += 1;
    }
    let ghost head = s@.skip(from as int);
    let mut to: usize = s.len();
    assert(head.take(to - from) == head);
    while to > from && white(s[to - 1])
        invariant
            from <= to <= s.len(),
            head == s@.skip(from as int),
            trim_end(head) == trim_end(head.take(to - from)),
        decreases to,
    {
        assert(head.take(to - from).drop_last() == head.take(to - from - 1));
        to -= 1;
    }
    assert(head.take(to - from) == s@.subrange(from as int, to as int));
    slice_subrange(s, from, to)
}

fn starts_with_fence(s: &[char]) -> (b: bool)
    ensures
        b == fence().is_prefix_of(s@),
{
    s.len() >= 3 && s[0] == '`' && s[1] == '`' && s[2] == '`'
}

fn starts_with_json_fence(s: &[char]) -> (b: bool)
    ensures
        b == json_fence().is_prefix_of(s@),
{
    s.len() >= 7 && s[0] == '`' && s[1] == '`' && s[2] == '`' && s[3] == 'j' && s[4] == 's'
        && s[5] == 'o' && s[6] == 'n'
}

fn ends_with_fence(s: &[char]) -> (b: bool)
    ensures
        b == fence().is_suffix_of(s@),
{
    let n = s.len();
    n >= 3 && s[n - 3] == '`' && s[n - 2] == '`' && s[n - 1] == '`'
}

/// Takes the code block away that the backend may have put around its
/// answer.
pub fn strip_markdown_code_block(s: &str) -> (content: String)
    ensures
        content@ == stripped(s@),
{
    let chars = chars_of(s);
    let t = trim(chars.as_slice());
    if starts_with_fence(t) {
        let rest = if starts_with_json_fence(t) {
            slice_subrange(t, 7, t.len())
        } else {
            slice_subrange(t, 3, t.len())
        };
        if ends_with_fence(rest) {
            return string_of(trim(slice_subrange(rest, 0, rest.len() - 3)));
        }
    }
    String::from_str(s)
}

/// The arguments to run the backend with for `model` and `prompt`.
pub open spec fn backend_arguments(model: Seq<char>, prompt: Seq<char>) -> Seq<Seq<char>> {
    seq!["-p"@, prompt, "--model"@, model, "--output-format"@, "json"@]
}

/// What a reply amounts to: its complaint as an error where it flags one,
/// else its answer without the code block around it.
pub open spec fn reply_outcome(result: Seq<char>, is_error: bool) -> Result<Seq<char>, ErrorView> {
    if is_error {
        Err(ErrorView::Claude(result))
    } else {
        Ok(stripped(result))
    }
}

impl Claude {
    pub fn new(model: &str) -> (backend: Claude)
        ensures
            backend.model@ == model@,
    {
        Claude { model: String::from_str(model) }
    }

    /// The arguments to run the backend with so that it answers `prompt` as
    /// JSON.
    pub fn arguments(&self, prompt: &str) -> (args: Vec<String>)
        ensures
            args.deep_view() == backend_arguments(self.model@, prompt@),
    {
        let mut args: Vec<String> = Vec::new();
        args.push(String::from_str("-p"));
        args.push(String::from_str(prompt));
        args.push(String::from_str("--model"));
        args.push(self.model.clone());
        args.push(String::from_str("--output-format"));
        args.push(String::from_str("json"));
        assert(args.deep_view() == backend_arguments(self.model@, prompt@));
        args
    }

    /// The error to report where the backend did not exit cleanly: what it
    /// wrote to its error stream.
    pub fn exit_failure(success: bool, stderr: &str) -> (failure: Option<Error>)
        ensures
            success ==> failure is None,
            !success ==> (failure matches Some(e) && e@ == ErrorView::Claude(stderr@)),
    {
        if success {
            None
        } else {
            Some(Error::Claude(String::from_str(stderr)))
        }
    }

    /// Reads the backend's reply.
    pub fn read_reply(response: ClaudeResponse) -> (answer: Result<String, Error>)
        ensures
            match answer {
                Ok(text) => reply_outcome(response.result@, response.is_error) == Ok::<
                    Seq<char>,
                    ErrorView,
                >(text@),
                Err(e) => reply_outcome(response.result@, response.is_error) == Err::<
                    Seq<char>,
                    ErrorView,
                >(e@),
            },
    {
        if response.is_error {
            Err(Error::Claude(response.result))
        } else {
            Ok(strip_markdown_code_block(response.result.as_str()))
        }
    }
}

impl Default for Claude {
    fn default() -> (backend: Claude)
        ensures
            backend.model@ == "haiku"@,
    {
        Claude::new("haiku")
    }
}

} // verus!
