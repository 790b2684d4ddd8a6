//! Diagnostics for a text that the preprocessor produced.

use crate::diagnostic::{format_parse_error, FormattedDiagnostic};
use crate::location::{ParseFailure, PreprocessInfo};
use crate::report::{find_source_line, mapped_diagnostic, render_file_prefix};
use crate::style::caret_mark;
use vstd::prelude::*;

verus! {

/// Formatting of the failure of a parse whose input the preprocessor made.
pub trait ConfigParseErrorExt<T>: Sized {
    /// Passes a success on, and turns a failure into its diagnostic.
    fn format_error(self, info: &PreprocessInfo, input: &str) -> Result<T, FormattedDiagnostic>
        requires
            info.line_origins@.len() > 0,
    ;
}

impl<T> ConfigParseErrorExt<T> for Result<T, ParseFailure> {
    fn format_error(self, info: &PreprocessInfo, input: &str) -> (formatted: Result<
        T,
        FormattedDiagnostic,
    >)
        ensures
            match self {
                Ok(value) => formatted == Ok::<T, FormattedDiagnostic>(value),
                Err(failure) => formatted matches Err(diagnostic) && exists|on: bool|
                    diagnostic@ == mapped_diagnostic(
                        failure@,
                        info.origins(),
                        input@,
                        caret_mark(on),
                    ),
            },
    {
        match self {
            Ok(value) => Ok(value),
            Err(failure) => {
                let line_number = failure.line();
                let origin = info.origin_of(line_number as usize);
                let prefix = render_file_prefix(&origin.1);
                let line = find_source_line(input, line_number);
                Err(
                    format_parse_error(
                        line,
                        prefix.as_str(),
                        origin.0 as usize,
                        failure.column() as usize,
                        failure.expected(),
                    ),
                )
            },
        }
    }
}

} // verus!
