//! The formatted diagnostic and the rendering of a parse failure: the
//! offending line without its indentation, a caret under the offending
//! column, and the token that was found there.

use crate::style::{caret_mark, render_caret};
use crate::text::{
    decimal, leading_whitespace, lemma_byte_len_split, lemma_leading_whitespace_bound,
    push_decimal, push_spaces, spaces, stripped_bytes, trim_start, trimmed_start,
};
use vstd::prelude::*;
use vstd::string::StringExecFns;
use vstd::string::StrSliceExecFns;

verus! {

/// A fully rendered diagnostic: nothing but its text is kept.
#[derive(Debug)]
pub struct FormattedDiagnostic {
    text: String,
}

impl View for FormattedDiagnostic {
    type V = Seq<char>;

    closed spec fn view(&self) -> Seq<char> {
        self.text@
    }
}

impl FormattedDiagnostic {
    /// A diagnostic with the given text.
    pub fn new(text: String) -> (diagnostic: FormattedDiagnostic)
        ensures
            diagnostic@ == text@,
    {
        FormattedDiagnostic { text }
    }

    /// The text of the diagnostic.
    pub fn as_str(&self) -> (text: &str)
        ensures
            text@ == self@,
    {
        self.text.as_str()
    }

    /// The text of the diagnostic, given away.
    pub fn into_string(self) -> (text: String)
        ensures
            text@ == self@,
    {
        self.text
    }
}

/// How many spaces stand before the caret: the column, counted from 0, less
/// the bytes of indentation that were stripped, and none where the column
/// lies inside the indentation.
pub open spec fn caret_offset(line: Seq<char>, column: nat) -> nat {
    if column - 1 >= stripped_bytes(line) {
        (column - 1 - stripped_bytes(line)) as nat
    } else {
        0
    }
}

/// The token at `column`, counted from 1, of the line as it was given: the
/// character there, or a backslash and the letter n where the line ends
/// before it.
pub open spec fn offending_token(line: Seq<char>, column: nat) -> Seq<char> {
    if 1 <= column <= line.len() {
        seq![line[column - 1]]
    } else {
        "\\n"@
    }
}

/// At the column just behind the last character of a line, the token is
/// shown as a backslash and the letter n.
pub proof fn law_end_of_line_token(line: Seq<char>)
    ensures
        offending_token(line, line.len() + 1) == seq!['\\', 'n'],
{
    reveal_strlit("\\n");
    assert("\\n"@ =~= seq!['\\', 'n']);
}

/// The text of the diagnostic for a failure at `column` of `line`, under the
/// label made of `file` and `line_number`, with `caret` as the mark.
pub open spec fn parse_error_text(
    line: Seq<char>,
    file: Seq<char>,
    line_number: nat,
    column: nat,
    expected: Seq<char>,
    caret: Seq<char>,
) -> Seq<char> {
    "In line "@ + file + decimal(line_number) + ":\n\n  "@ + trimmed_start(line) + "\n  "@
        + spaces(caret_offset(line, column)) + caret + "\n\nUnexpected token \""@
        + offending_token(line, column) + "\", expected: "@ + expected
}

/// Renders the diagnostic for a failure at `column_number` of `line`, with
/// the given text as the caret.
pub fn render_parse_error(
    line: &str,
    file: &str,
    line_number: usize,
    column_number: usize,
    expected: &str,
    caret: &str,
) -> (diagnostic: FormattedDiagnostic)
    requires
        column_number >= 1,
    ensures
        diagnostic@ == parse_error_text(
            line@,
            file@,
            line_number as nat,
            column_number as nat,
            expected@,
            caret@,
        ),
{
    let trimmed = trim_start(line);
    proof {
        lemma_leading_whitespace_bound(line@);
        lemma_byte_len_split(line@, leading_whitespace(line@) as int);
    }
    let stripped = line.as_bytes().len() - trimmed.as_bytes().len();
    let offset = if column_number - 1 >= stripped {
        column_number - 1 - stripped
    } else {
        0
    };
    let mut text = String::from_str("In line ");
    text.append(file);
    push_decimal(&mut text, line_number as u64);
    text.append(":\n\n  ");
    text.append(trimmed);
    text.append("\n  ");
    push_spaces(&mut text, offset);
    text.append(caret);
    text.append("\n\nUnexpected token \"");
    if column_number <= line.unicode_len() {
        text.push(line.get_char(column_number - 1));
    } else {
        text.append("\\n");
    }
    text.append("\", expected: ");
    text.append(expected);
    assert(text@ =~= parse_error_text(
        line@,
        file@,
        line_number as nat,
        column_number as nat,
        expected@,
        caret@,
    ));
    FormattedDiagnostic::new(text)
}

/// Renders the diagnostic for a failure at `column_number` of `line`. The
/// caret is emphasised where the terminal settings ask for it.
pub fn format_parse_error(
    line: &str,
    file: &str,
    line_number: usize,
    column_number: usize,
    expected: &str,
) -> (diagnostic: FormattedDiagnostic)
    requires
        column_number >= 1,
    ensures
        exists|on: bool|
            diagnostic@ == parse_error_text(
                line@,
                file@,
                line_number as nat,
                column_number as nat,
                expected@,
                caret_mark(on),
            ),
{
    let caret = render_caret();
    render_parse_error(line, file, line_number, column_number, expected, caret.as_str())
}

} // verus!
