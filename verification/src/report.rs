//! What the diagnostic of a parse failure says, for a text that was parsed as
//! it was read and for one that the preprocessor produced.

use crate::diagnostic::parse_error_text;
use crate::location::{resolved_index, FailureModel, OriginModel};
use crate::text::{line_at, nth_line};
use vstd::prelude::*;
use vstd::string::StringExecFns;

verus! {

/// The text of line `line`, counted from 1, of `input`: empty where the
/// input has no such line.
pub open spec fn source_line(input: Seq<char>, line: nat) -> Seq<char> {
    match nth_line(input, (line - 1) as nat) {
        Some(text) => text,
        None => Seq::empty(),
    }
}

/// What stands before the line number in the label of a diagnostic: the file
/// and a colon, or nothing where no file is known.
pub open spec fn file_prefix(origin: Option<Seq<char>>) -> Seq<char> {
    match origin {
        Some(file) => file + ":"@,
        None => Seq::empty(),
    }
}

/// An optional file as plain values.
pub open spec fn file_model(origin: Option<String>) -> Option<Seq<char>> {
    match origin {
        Some(file) => Some(file@),
        None => None,
    }
}

/// The diagnostic for a failure in a text that was parsed as it was read.
/// The line in the label is counted from 0.
pub open spec fn raw_diagnostic(
    failure: FailureModel,
    origin: Option<Seq<char>>,
    input: Seq<char>,
    caret: Seq<char>,
) -> Seq<char> {
    parse_error_text(
        source_line(input, failure.line),
        file_prefix(origin),
        (failure.line - 1) as nat,
        failure.column,
        failure.expected,
        caret,
    )
}

/// The diagnostic for a failure in a preprocessed text. The label names the
/// line and file that the table gives for the failing line; the line that is
/// shown is the one of the preprocessed text.
pub open spec fn mapped_diagnostic(
    failure: FailureModel,
    origins: Seq<OriginModel>,
    input: Seq<char>,
    caret: Seq<char>,
) -> Seq<char> {
    let origin = origins[resolved_index(origins.len(), failure.line)];
    parse_error_text(
        source_line(input, failure.line),
        file_prefix(origin.1),
        origin.0,
        failure.column,
        failure.expected,
        caret,
    )
}

pub(crate) fn render_file_prefix(origin: &Option<String>) -> (prefix: String)
    ensures
        prefix@ == file_prefix(file_model(*origin)),
{
    match origin {
        Some(file) => {
            let mut prefix = String::from_str(file.as_str());
            prefix.append(":");
            prefix
        },
        None => String::new(),
    }
}

pub(crate) fn find_source_line<'a>(input: &'a str, line: u32) -> (text: &'a str)
    requires
        line >= 1,
    ensures
        text@ == source_line(input@, line as nat),
{
    proof {
        reveal_strlit("");
    }
    match line_at(input, (line - 1) as usize) {
        Some(text) => text,
        None => "",
    }
}

} // verus!
