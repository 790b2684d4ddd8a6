//! Diagnostic reporting for a text-processing pipeline: parse failures are
//! rendered as location-annotated messages with a caret under the offending
//! token, and warnings are throttled per category.

pub mod context;
pub mod diagnostic;
pub mod location;
pub mod mapped_report;
pub mod raw_report;
pub mod report;
pub mod style;
pub mod text;
pub mod throttle;
pub mod warnings;

pub use context::{ErrorExt, ErrorReport};
pub use diagnostic::{format_parse_error, FormattedDiagnostic};
pub use location::{ParseFailure, PreprocessInfo};
pub use mapped_report::ConfigParseErrorExt;
pub use raw_report::PreprocessParseErrorExt;
pub use warnings::{
    init_warnings, print_warning_summary, warning, warning_suppressed, WarningState,
};
