//! Diagnostics for a text that was parsed as it was read.

use crate::diagnostic::{format_parse_error, FormattedDiagnostic};
use crate::location::ParseFailure;
use crate::report::{file_model, find_source_line, raw_diagnostic, render_file_prefix};
use crate::style::caret_mark;
use vstd::prelude::*;

verus! {

/// Formatting of the failure of a parse whose input was read as it is.
pub trait PreprocessParseErrorExt<T>: Sized {
    /// Passes a success on, and turns a failure into its diagnostic.
    fn format_error(self, origin: &Option<String>, input: &str) -> Result<T, FormattedDiagnostic>;
}

impl<T> PreprocessParseErrorExt<T> for Result<T, ParseFailure> {
    fn format_error(self, origin: &Option<String>, input: &str) -> (formatted: Result<
        T,
        FormattedDiagnostic,
    >)
        ensures
            match self {
                Ok(value) => formatted == Ok::<T, FormattedDiagnostic>(value),
                Err(failure) => formatted matches Err(diagnostic) && exists|on: bool|
                    diagnostic@ == raw_diagnostic(
                        failure@,
                        file_model(*origin),
                        input@,
                        caret_mark(on),
                    ),
            },
    {
        match self {
            Ok(value) => Ok(value),
            Err(failure) => {
                let line_number = failure.line();
                let prefix = render_file_prefix(origin);
                let line = find_source_line(input, line_number);
                Err(
                    format_parse_error(
                        line,
                        prefix.as_str(),
                        (line_number - 1) as usize,
                        failure.column() as usize,
                        failure.expected(),
                    ),
                )
            },
        }
    }
}

} // verus!
