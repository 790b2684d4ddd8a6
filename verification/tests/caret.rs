use diagnostics::diagnostic::{format_parse_error, render_parse_error, FormattedDiagnostic};
use diagnostics::text::{line_at, push_decimal, push_spaces};

fn plain() {
    colored::control::set_override(false);
}

#[test]
fn caret_points_at_the_offending_token() {
    plain();
    let d = format_parse_error("    let x = ;", "", 7, 13, "an expression");
    assert_eq!(
        d.as_str(),
        "In line 7:\n\n  let x = ;\n          ^\n\nUnexpected token \";\", expected: an expression"
    );
    assert!(d.as_str().ends_with("Unexpected token \";\", expected: an expression"));
}

#[test]
fn caret_offset_is_column_less_indentation() {
    let d = render_parse_error("    let x = ;", "", 1, 13, "an expression", "^");
    let lines: Vec<&str> = d.as_str().split('\n').collect();
    assert_eq!(lines[2], "  let x = ;");
    assert_eq!(lines[3], format!("  {}^", " ".repeat(8)));
}

#[test]
fn end_of_line_is_shown_as_escaped_newline() {
    let line = "    let x = ;";
    let d = render_parse_error(line, "", 1, line.chars().count() + 1, "\";\"", "^");
    assert!(d.as_str().ends_with("Unexpected token \"\\n\", expected: \";\""));
    let lines: Vec<&str> = d.as_str().split('\n').collect();
    assert_eq!(lines[3], format!("  {}^", " ".repeat(9)));
}

#[test]
fn column_far_past_the_end_is_end_of_line_too() {
    let d = render_parse_error("ab", "", 1, 40, "x", "^");
    assert!(d.as_str().ends_with("Unexpected token \"\\n\", expected: x"));
}

#[test]
fn empty_line_at_column_one() {
    let d = render_parse_error("", "cfg.txt:", 0, 1, "a value", "^");
    assert_eq!(
        d.as_str(),
        "In line cfg.txt:0:\n\n  \n  ^\n\nUnexpected token \"\\n\", expected: a value"
    );
}

#[test]
fn file_stands_before_the_line_number() {
    let d = render_parse_error("x", "a/b.cfg:", 12, 1, "y", "^");
    assert!(d.as_str().starts_with("In line a/b.cfg:12:\n\n  x\n  ^\n"));
}

#[test]
fn caret_inside_the_indentation_stands_at_the_start() {
    let d = render_parse_error("      foo", "", 3, 2, "bar", "^");
    let lines: Vec<&str> = d.as_str().split('\n').collect();
    assert_eq!(lines[2], "  foo");
    assert_eq!(lines[3], "  ^");
    assert!(d.as_str().ends_with("Unexpected token \" \", expected: bar"));
}

#[test]
fn tabs_count_as_indentation() {
    let d = render_parse_error("\t\tclass = 1", "", 1, 9, "\";\"", "^");
    let lines: Vec<&str> = d.as_str().split('\n').collect();
    assert_eq!(lines[2], "  class = 1");
    assert_eq!(lines[3], "        ^");
    assert!(d.as_str().ends_with("Unexpected token \"=\", expected: \";\""));
}

#[test]
fn wide_whitespace_is_stripped_by_its_bytes() {
    // U+3000 is whitespace of three bytes.
    let d = render_parse_error("\u{3000}ab", "", 1, 5, "c", "^");
    let lines: Vec<&str> = d.as_str().split('\n').collect();
    assert_eq!(lines[2], "  ab");
    assert_eq!(lines[3], "   ^");
}

#[test]
fn token_is_taken_by_characters() {
    let d = render_parse_error("é=ü", "", 1, 3, "x", "^");
    assert!(d.as_str().ends_with("Unexpected token \"ü\", expected: x"));
}

#[test]
fn the_given_caret_is_written() {
    let d = render_parse_error("a", "", 1, 1, "b", "<HERE>");
    assert_eq!(d.as_str(), "In line 1:\n\n  a\n  <HERE>\n\nUnexpected token \"a\", expected: b");
}

#[test]
fn diagnostic_keeps_its_text() {
    let d = FormattedDiagnostic::new("some text".to_string());
    assert_eq!(d.as_str(), "some text");
    assert_eq!(d.into_string(), "some text".to_string());
}

#[test]
fn decimal_numerals() {
    let mut s = String::from("n=");
    push_decimal(&mut s, 0);
    s.push(',');
    push_decimal(&mut s, 7);
    s.push(',');
    push_decimal(&mut s, 10);
    s.push(',');
    push_decimal(&mut s, 4294967295);
    s.push(',');
    push_decimal(&mut s, 18446744073709551615);
    assert_eq!(s, "n=0,7,10,4294967295,18446744073709551615");
}

#[test]
fn runs_of_spaces() {
    let mut s = String::from("[");
    push_spaces(&mut s, 0);
    s.push('|');
    push_spaces(&mut s, 3);
    s.push(']');
    assert_eq!(s, "[|   ]");
}

#[test]
fn lines_of_a_text() {
    let text = "first\nsecond\r\n\nfourth";
    assert_eq!(line_at(text, 0), Some("first"));
    assert_eq!(line_at(text, 1), Some("second"));
    assert_eq!(line_at(text, 2), Some(""));
    assert_eq!(line_at(text, 3), Some("fourth"));
    assert_eq!(line_at(text, 4), None);
}

#[test]
fn final_line_feed_opens_no_line() {
    assert_eq!(line_at("a\n", 0), Some("a"));
    assert_eq!(line_at("a\n", 1), None);
    assert_eq!(line_at("", 0), None);
    assert_eq!(line_at("\n", 0), Some(""));
    assert_eq!(line_at("\n", 1), None);
}

#[test]
fn carriage_return_belongs_to_a_line_without_line_feed() {
    assert_eq!(line_at("a\r", 0), Some("a\r"));
    assert_eq!(line_at("a\r\r\nb", 0), Some("a\r"));
    assert_eq!(line_at("a\r\nb\r", 1), Some("b\r"));
}

#[test]
fn lines_agree_with_the_standard_library() {
    let texts = ["", "\n", "a", "a\nb", "a\r\nb\r\n", "\r\n\r\n", "x\n\ny\n", "é\nü\r\n→", "a\rb\nc"];
    for text in texts {
        let expected: Vec<&str> = text.lines().collect();
        for n in 0..expected.len() + 2 {
            assert_eq!(line_at(text, n), expected.get(n).copied(), "{:?} at {}", text, n);
        }
    }
}
