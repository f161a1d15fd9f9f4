//! Script-layer errors and diagnostics.
//!
//! The textual grammar of the scene script lives with an external parser;
//! this module holds the errors that layer surfaces and the lookup that turns
//! a character position in the script's text into the line it sits on, for
//! human-readable diagnostics.

use vstd::prelude::*;
use crate::renderer::CreationError;

verus! {

/// An error raised while turning a scene script into a display: the file
/// could not be read, a name in the script is not in the closed vocabulary,
/// an object's attribute bindings failed validation, or the text did not
/// parse (reported as the offending line).
#[derive(Debug, PartialEq)]
pub enum ScriptError {
    FileError(String),
    UnrecognizedObject(String),
    UnrecognizedAudioParam(String),
    UnrecognizedRenderParam(String),
    CreationError(CreationError),
    Line(String),
}

impl From<CreationError> for ScriptError {
    fn from(value: CreationError) -> (error: ScriptError) {
        ScriptError::CreationError(value)
    }
}

impl vstd::std_specs::convert::FromSpecImpl<CreationError> for ScriptError {
    open spec fn obeys_from_spec() -> bool {
        true
    }

    open spec fn from_spec(value: CreationError) -> ScriptError {
        ScriptError::CreationError(value)
    }
}

/// Index of the first character of the line that the position `n` lies on:
/// one past the last newline among the first `n` characters of `text`.
pub open spec fn spec_line_start(text: Seq<char>, n: int) -> int
    decreases n,
{
    if n <= 0 {
        0
    } else if text[n - 1] == '\n' {
        n
    } else {
        spec_line_start(text, n - 1)
    }
}

/// Index of the newline that ends the line holding position `i` of `text`,
/// or the text's length if that line is the last.
pub open spec fn spec_line_end(text: Seq<char>, i: int) -> int
    decreases text.len() - i,
{
    if i >= text.len() {
        text.len() as int
    } else if text[i] == '\n' {
        i
    } else {
        spec_line_end(text, i + 1)
    }
}

/// The line of `text` that character position `location` lies on, newline
/// excluded; positions past the end of the text give the last line.
pub open spec fn spec_line_at(text: Seq<char>, location: int) -> Seq<char> {
    let n = if location <= text.len() {
        location
    } else {
        text.len() as int
    };
    text.subrange(spec_line_start(text, n), spec_line_end(text, location))
}

/// Given a character position in a script's text, returns the entire line
/// that the position is on, for error reporting.
pub fn get_line_for_location<'a>(file_data: &'a str, location: usize) -> (line: &'a str)
    ensures
        line@ == spec_line_at(file_data@, location as int),
{
    let len = file_data.unicode_len();
    let n = if location < len {
        location
    } else {
        len
    };
    let mut line_start: usize = 0;
    let mut i: usize = 0;
    while i < n
        invariant
            i <= n <= len,
            len == file_data@.len(),
            line_start == spec_line_start(file_data@, i as int),
            line_start <= i,
        decreases n - i,
    {
        if file_data.get_char(i) == '\n' {
            line_start = i + 1;
        }
        i = i + 1;
    }
    let mut line_end: usize = len;
    let mut j: usize = n;
    while j < len
        invariant_except_break
            n <= j <= len,
            len == file_data@.len(),
            line_end == len,
            spec_line_end(file_data@, location as int) == spec_line_end(file_data@, j as int),
        ensures
            n <= line_end <= len,
            len == file_data@.len(),
            line_end == spec_line_end(file_data@, location as int),
        decreases len - j,
    {
        if file_data.get_char(j) == '\n' {
            line_end = j;
            break;
        }
        j = j + 1;
    }
    file_data.substring_char(line_start, line_end)
}

} // verus!
