//! What a run is asked for and with what it asks: the subject, the
//! credential, the form of the output, and the keys that end it.

use crate::text::same_text;
use vstd::prelude::*;
use vstd::string::StringExecFns;

verus! {

/// The form in which the report is written out.
#[derive(Clone, Copy, Debug, PartialEq, Eq, Structural)]
pub enum OutputFormat {
    Json,
    Text,
}

/// A key of the keyboard, as far as a run tells keys apart.
#[derive(Clone, Copy, Debug, PartialEq, Eq, Structural)]
pub enum Key {
    Char(char),
    Escape,
    Other,
}

/// The form that a name asks for: `json` asks for JSON, any other name for
/// text.
pub open spec fn format_named(name: Seq<char>) -> OutputFormat {
    if name == "json"@ {
        OutputFormat::Json
    } else {
        OutputFormat::Text
    }
}

/// Whether a key ends the run: `q`, `Q`, Escape, or `c` with Control held,
/// when pressed.
pub open spec fn ends_run(key: Key, control: bool, pressed: bool) -> bool {
    pressed && (key == Key::Char('q') || key == Key::Char('Q') || key == Key::Escape || (key
        == Key::Char('c') && control))
}

/// What a helper program answered: its output without the white space
/// around it, if it succeeded.
pub open spec fn answer_of(succeeded: bool, output: Seq<char>) -> Option<Seq<char>> {
    if succeeded {
        Some(trimmed(output))
    } else {
        None
    }
}

/// The credential that a helper program answered with: its answer, if
/// there is one and it is not empty.
pub open spec fn token_in(succeeded: bool, output: Seq<char>) -> Option<Seq<char>> {
    if succeeded && trimmed(output).len() > 0 {
        Some(trimmed(output))
    } else {
        None
    }
}

/// The value of the header that carries a credential.
pub open spec fn bearer_of(token: Seq<char>) -> Seq<char> {
    "Bearer "@ + token
}

/// The form of the output that a name asks for.
pub fn output_format(name: &str) -> (format: OutputFormat)
    ensures
        format == format_named(name@),
{
    if same_text(name, "json") {
        OutputFormat::Json
    } else {
        OutputFormat::Text
    }
}

/// Whether a key ends the run.
pub fn ends_session(key: Key, control: bool, pressed: bool) -> (ends: bool)
    ensures
        ends == ends_run(key, control, pressed),
{
    if !pressed {
        return false;
    }
    match key {
        Key::Char(c) => c == 'q' || c == 'Q' || (c == 'c' && control),
        Key::Escape => true,
        Key::Other => false,
    }
}

/// What was given if anything was, else what was detected. This is how the
/// subject and the credential are chosen: a helper program is asked only
/// for what the command line left out, and a run without a credential goes
/// on without one.
pub fn given_or_detected(given: Option<String>, detected: Option<String>) -> (chosen: Option<
    String,
>)
    ensures
        chosen == (if given is Some {
            given
        } else {
            detected
        }),
{
    match given {
        Some(value) => Some(value),
        None => detected,
    }
}

/// What a helper program answered: its output without the white space
/// around it, or `None` where it failed.
pub fn tool_answer(succeeded: bool, output: &str) -> (answer: Option<String>)
    ensures
        answer is Some <==> succeeded,
        answer matches Some(text) ==> answer_of(succeeded, output@) == Some(text@),
{
    if succeeded {
        Some(String::from_str(trim(output)))
    } else {
        None
    }
}

/// The credential that a helper program answered with, or `None` where it
/// failed or answered nothing.
pub fn token_from_tool(succeeded: bool, output: &str) -> (token: Option<String>)
    ensures
        token is Some <==> token_in(succeeded, output@) is Some,
        token matches Some(text) ==> token_in(succeeded, output@) == Some(text@),
{
    if !succeeded {
        return None;
    }
    let inner = trim(output);
    if inner.is_empty() {
        None
    } else {
        Some(String::from_str(inner))
    }
}

/// The value of the header that carries a credential.
pub fn bearer(token: &str) -> (value: String)
    ensures
        value@ == bearer_of(token@),
{
    let mut value = String::from_str("Bearer ");
    value.append(token);
    value
}

/// A text without the white space at its start and at its end, as the
/// standard library's `str::trim` returns it.
pub uninterp spec fn trimmed(text: Seq<char>) -> Seq<char>;

/// Calls `str::trim`. Believed, not proved: the result depends on the text
/// alone.
#[verifier::external_body]
fn trim(text: &str) -> (inner: &str)
    ensures
        inner@ == trimmed(text@),
{
    text.trim()
}

} // verus!
