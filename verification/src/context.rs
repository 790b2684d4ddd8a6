//! Context for an error on its way up, and the last stop: what is written
//! for an error, and whether the process ends there.

use crate::diagnostic::FormattedDiagnostic;
use crate::style::{error_label, render_error_label, render_warning_label, warning_label};
use crate::warnings::{label_notices, summary_lines, texts, WarningState};
use vstd::prelude::*;
use vstd::string::StringExecFns;

verus! {

/// What is to be done about an error at the end of its way: the lines to
/// write to the error stream, in order, and the status to end the process
/// with, if it is to end.
#[derive(Debug)]
pub struct ErrorReport {
    pub lines: Vec<String>,
    pub exit_status: Option<i32>,
}

/// The text of an error under the context `msg`: the context, and the text
/// so far on a line of its own below it.
pub open spec fn prepended_text(msg: Seq<char>, text: Seq<char>) -> Seq<char> {
    msg + "\n"@ + text
}

/// The line that is written for an error.
pub open spec fn error_line(label: Seq<char>, text: Seq<char>) -> Seq<char> {
    label + ": "@ + text
}

/// The lines that are written for an error: its own, and where the process
/// is to end, those of the summary of suppressed warnings behind it.
pub open spec fn report_lines(
    text: Seq<char>,
    exit: bool,
    notices: Seq<Seq<char>>,
    error_label: Seq<char>,
    warning_label: Seq<char>,
) -> Seq<Seq<char>> {
    if exit {
        seq![error_line(error_label, text)] + summary_lines(notices, warning_label)
    } else {
        seq![error_line(error_label, text)]
    }
}

/// The status that the process ends with on a fatal error.
pub open spec fn exit_status(exit: bool) -> Option<i32> {
    if exit {
        Some(1i32)
    } else {
        None
    }
}

/// What is to be done about an error with the given text, under the given
/// labels. The notices of the summary are written only where the process is
/// to end.
pub fn error_report(
    text: &str,
    exit: bool,
    notices: &Vec<String>,
    error_label: &str,
    warning_label: &str,
) -> (report: ErrorReport)
    ensures
        texts(report.lines@) == report_lines(
            text@,
            exit,
            texts(notices@),
            error_label@,
            warning_label@,
        ),
        report.exit_status == exit_status(exit),
{
    let mut line = String::from_str(error_label);
    line.append(": ");
    line.append(text);
    let mut lines: Vec<String> = Vec::new();
    lines.push(line);
    if exit {
        let mut summary = label_notices(notices, warning_label);
        let ghost first = lines@;
        let ghost rest = summary@;
        lines.append(&mut summary);
        assert(lines@ == first + rest);
        assert(texts(lines@) =~= seq![error_line(error_label@, text@)] + summary_lines(
            texts(notices@),
            warning_label@,
        ));
        ErrorReport { lines, exit_status: Some(1) }
    } else {
        assert(texts(lines@) =~= seq![error_line(error_label@, text@)]);
        ErrorReport { lines, exit_status: None }
    }
}

/// Context and the last stop for the outcome of an operation.
pub trait ErrorExt<T>: Sized {
    /// Passes a success on, and puts `msg` on a line of its own above the
    /// text of a failure.
    fn prepend_error(self, msg: &str) -> Result<T, FormattedDiagnostic>;

    /// What is to be done about the outcome: nothing for a success; for a
    /// failure its line, and where `exit` is set the summary of suppressed
    /// warnings and the end of the process with status 1.
    fn print_error(self, exit: bool, warnings: &WarningState) -> ErrorReport;
}

impl<T> ErrorExt<T> for Result<T, FormattedDiagnostic> {
    fn prepend_error(self, msg: &str) -> (chained: Result<T, FormattedDiagnostic>)
        ensures
            match self {
                Ok(value) => chained == Ok::<T, FormattedDiagnostic>(value),
                Err(error) => chained matches Err(outer) && outer@ == prepended_text(
                    msg@,
                    error@,
                ),
            },
    {
        match self {
            Ok(value) => Ok(value),
            Err(error) => {
                let mut text = String::from_str(msg);
                text.append("\n");
                text.append(error.as_str());
                Err(FormattedDiagnostic::new(text))
            },
        }
    }

    fn print_error(self, exit: bool, warnings: &WarningState) -> (report: ErrorReport)
        ensures
            match self {
                Ok(_) => report.lines@.len() == 0 && report.exit_status is None,
                Err(error) => report.exit_status == exit_status(exit) && exists|
                    on_error: bool,
                    on_warning: bool,
                |
                    texts(report.lines@) == report_lines(
                        error@,
                        exit,
                        warnings@.summary(),
                        error_label(on_error),
                        warning_label(on_warning),
                    ),
            },
    {
        match self {
            Ok(_) => ErrorReport { lines: Vec::new(), exit_status: None },
            Err(error) => {
                let label = render_error_label();
                if exit {
                    let notices = warnings.summary_notices();
                    let tag = render_warning_label();
                    error_report(error.as_str(), true, &notices, label.as_str(), tag.as_str())
                } else {
                    let report = error_report(error.as_str(), false, &Vec::new(), label.as_str(), "");
                    assert(texts(report.lines@) == report_lines(
                        error@,
                        false,
                        warnings@.summary(),
                        label@,
                        warning_label(false),
                    ));
                    report
                }
            },
        }
    }
}

} // verus!
