//! Emphasis of the severity labels and of the caret. Whether the terminal
//! escape sequences are written is decided outside this library, so every
//! label has two renderings, and the contracts allow for both.

use colored::Colorize;
use vstd::prelude::*;

verus! {

/// `text` between the escape sequence that switches the attributes `codes` on
/// and the one that resets them.
pub open spec fn emphasized(text: Seq<char>, codes: Seq<char>) -> Seq<char> {
    "\x1B["@ + codes + "m"@ + text + "\x1B[0m"@
}

/// `text` as it is written with emphasis switched on or off.
pub open spec fn styled(text: Seq<char>, codes: Seq<char>, on: bool) -> Seq<char> {
    if on {
        emphasized(text, codes)
    } else {
        text
    }
}

/// Whether `text` is free of the escape character.
pub open spec fn escape_free(text: Seq<char>) -> bool {
    forall|i: int| 0 <= i < text.len() ==> text[i] != '\x1B'
}

/// The attributes of bold red.
pub open spec fn bold_red_codes() -> Seq<char> {
    "1;31"@
}

/// The attributes of bold yellow.
pub open spec fn bold_yellow_codes() -> Seq<char> {
    "1;33"@
}

/// The label of an error, with or without emphasis.
pub open spec fn error_label(on: bool) -> Seq<char> {
    styled("error"@, bold_red_codes(), on)
}

/// The label of a warning, with or without emphasis.
pub open spec fn warning_label(on: bool) -> Seq<char> {
    styled("warning"@, bold_yellow_codes(), on)
}

/// The caret that marks the offending column, with or without emphasis.
pub open spec fn caret_mark(on: bool) -> Seq<char> {
    styled("^"@, bold_red_codes(), on)
}

/// `Colorize::red`, `Colorize::bold` and the `Display` of the resulting
/// `ColoredString`: the text itself where colouring is switched off, and else
/// the text between `ESC[1;31m` and `ESC[0m`. A text that holds a reset
/// sequence would be rewritten inside, so the escape character is left out.
#[verifier::external_body]
pub(crate) fn bold_red(text: &str) -> (out: String)
    requires
        escape_free(text@),
    ensures
        out@ == text@ || out@ == emphasized(text@, bold_red_codes()),
{
    text.red().bold().to_string()
}

/// `Colorize::yellow`, `Colorize::bold` and the `Display` of the resulting
/// `ColoredString`: the text itself where colouring is switched off, and else
/// the text between `ESC[1;33m` and `ESC[0m`. A text that holds a reset
/// sequence would be rewritten inside, so the escape character is left out.
#[verifier::external_body]
pub(crate) fn bold_yellow(text: &str) -> (out: String)
    requires
        escape_free(text@),
    ensures
        out@ == text@ || out@ == emphasized(text@, bold_yellow_codes()),
{
    text.yellow().bold().to_string()
}

/// The label of an error as the terminal settings of the moment render it.
pub fn render_error_label() -> (label: String)
    ensures
        exists|on: bool| label@ == error_label(on),
{
    proof {
        reveal_strlit("error");
    }
    let label = bold_red("error");
    assert(label@ == error_label(label@ != "error"@));
    label
}

/// The label of a warning as the terminal settings of the moment render it.
pub fn render_warning_label() -> (label: String)
    ensures
        exists|on: bool| label@ == warning_label(on),
{
    proof {
        reveal_strlit("warning");
    }
    let label = bold_yellow("warning");
    assert(label@ == warning_label(label@ != "warning"@));
    label
}

/// The caret as the terminal settings of the moment render it.
pub fn render_caret() -> (caret: String)
    ensures
        exists|on: bool| caret@ == caret_mark(on),
{
    proof {
        reveal_strlit("^");
    }
    let caret = bold_red("^");
    assert(caret@ == caret_mark(caret@ != "^"@));
    caret
}

} // verus!
