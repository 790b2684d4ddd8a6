use diagnostics::warnings::{
    init_warnings, label_notices, print_warning_summary, render_suppression_notice, warning,
    warning_message, warning_suppressed, WarningState,
};

fn plain() {
    colored::control::set_override(false);
}

fn raise(state: &mut WarningState, name: &str, times: u32) -> u32 {
    let mut written = 0;
    for _ in 0..times {
        if warning(state, "something odd", Some(name), (None, None)).is_some() {
            written += 1;
        }
    }
    written
}

#[test]
fn fresh_state_has_cap_of_ten() {
    let state = WarningState::new();
    assert_eq!(state.max(), 10);
    assert_eq!(state.raised("anything"), 0);
    assert!(!state.is_muted("anything"));
    assert!(print_warning_summary(&state).is_empty());
}

#[test]
fn warnings_up_to_the_cap_are_written() {
    plain();
    let mut state = WarningState::new();
    assert_eq!(raise(&mut state, "deprecated-syntax", 10), 10);
    assert_eq!(state.raised("deprecated-syntax"), 10);
    assert!(print_warning_summary(&state).is_empty());
}

#[test]
fn warnings_beyond_the_cap_are_counted_not_written() {
    plain();
    let mut state = WarningState::new();
    assert_eq!(raise(&mut state, "deprecated-syntax", 13), 10);
    assert_eq!(state.raised("deprecated-syntax"), 13);
    assert_eq!(
        print_warning_summary(&state),
        vec!["warning: 3 warnings of type \"deprecated-syntax\" were suppressed to prevent spam. Use \"-w deprecated-syntax\" to disable these warnings entirely.".to_string()]
    );
}

#[test]
fn fewer_warnings_than_the_cap_leave_no_notice() {
    plain();
    let mut state = WarningState::new();
    assert_eq!(raise(&mut state, "rare", 4), 4);
    assert!(print_warning_summary(&state).is_empty());
    assert!(state.summary_notices().is_empty());
}

#[test]
fn one_suppressed_warning_is_singular() {
    plain();
    let mut state = WarningState::new();
    assert_eq!(raise(&mut state, "x", 11), 10);
    assert_eq!(
        state.summary_notices(),
        vec!["1 warning of type \"x\" was suppressed to prevent spam. Use \"-w x\" to disable these warnings entirely.".to_string()]
    );
}

#[test]
fn notices_by_number() {
    assert_eq!(
        render_suppression_notice("a-b", 2),
        "2 warnings of type \"a-b\" were suppressed to prevent spam. Use \"-w a-b\" to disable these warnings entirely."
    );
    assert_eq!(
        render_suppression_notice("a-b", 1),
        "1 warning of type \"a-b\" was suppressed to prevent spam. Use \"-w a-b\" to disable these warnings entirely."
    );
    assert_eq!(
        render_suppression_notice("q", 4294967285),
        "4294967285 warnings of type \"q\" were suppressed to prevent spam. Use \"-w q\" to disable these warnings entirely."
    );
}

#[test]
fn categories_are_counted_apart() {
    plain();
    let mut state = WarningState::new();
    let mut written_a = 0;
    let mut written_b = 0;
    for i in 0..30 {
        if i % 3 == 0 {
            if warning(&mut state, "m", Some("b"), (None, None)).is_some() {
                written_b += 1;
            }
        } else if warning(&mut state, "m", Some("a"), (None, None)).is_some() {
            written_a += 1;
        }
    }
    assert_eq!(written_a, 10);
    assert_eq!(written_b, 10);
    assert_eq!(state.raised("a"), 20);
    assert_eq!(state.raised("b"), 10);
    assert_eq!(
        state.summary_notices(),
        vec!["10 warnings of type \"a\" were suppressed to prevent spam. Use \"-w a\" to disable these warnings entirely.".to_string()]
    );
}

#[test]
fn summary_follows_the_order_of_first_warnings() {
    plain();
    let mut state = WarningState::new();
    raise(&mut state, "zeta", 1);
    raise(&mut state, "alpha", 12);
    raise(&mut state, "mid", 3);
    raise(&mut state, "zeta", 14);
    let notices = state.summary_notices();
    assert_eq!(notices.len(), 2);
    assert!(notices[0].starts_with("5 warnings of type \"zeta\""));
    assert!(notices[1].starts_with("2 warnings of type \"alpha\""));
}

#[test]
fn muted_category_is_never_written_nor_counted() {
    plain();
    let mut state = WarningState::new();
    init_warnings(&mut state, vec!["quiet".to_string()], false);
    assert!(state.is_muted("quiet"));
    assert_eq!(raise(&mut state, "quiet", 50), 0);
    assert_eq!(state.raised("quiet"), 0);
    assert!(print_warning_summary(&state).is_empty());
    assert_eq!(raise(&mut state, "loud", 2), 2);
}

#[test]
fn category_muted_later_leaves_the_summary() {
    plain();
    let mut state = WarningState::new();
    assert_eq!(raise(&mut state, "late", 15), 10);
    assert_eq!(state.summary_notices().len(), 1);
    init_warnings(&mut state, vec!["late".to_string()], false);
    assert!(state.summary_notices().is_empty());
    assert_eq!(state.raised("late"), 15);
}

#[test]
fn verbose_lifts_the_cap() {
    plain();
    let mut state = WarningState::new();
    init_warnings(&mut state, Vec::new(), true);
    assert_eq!(state.max(), u32::MAX);
    assert_eq!(raise(&mut state, "chatty", 5000), 5000);
    assert!(print_warning_summary(&state).is_empty());
    assert!(!warning_suppressed(&state, Some("chatty")));
}

#[test]
fn later_settings_replace_the_muted_ones_and_keep_the_cap() {
    let mut state = WarningState::new();
    init_warnings(&mut state, vec!["a".to_string(), "b".to_string()], true);
    init_warnings(&mut state, vec!["c".to_string()], false);
    assert!(!state.is_muted("a"));
    assert!(!state.is_muted("b"));
    assert!(state.is_muted("c"));
    assert_eq!(state.max(), u32::MAX);
}

#[test]
fn warning_without_category_is_never_throttled() {
    plain();
    let mut state = WarningState::new();
    for _ in 0..100 {
        assert_eq!(
            warning(&mut state, "plain", None, (None, None)),
            Some("warning: plain".to_string())
        );
    }
    assert!(print_warning_summary(&state).is_empty());
}

#[test]
fn suppressed_answers() {
    plain();
    let mut state = WarningState::new();
    init_warnings(&mut state, vec!["quiet".to_string()], false);
    assert!(!warning_suppressed(&state, None));
    assert!(warning_suppressed(&state, Some("quiet")));
    assert!(!warning_suppressed(&state, Some("new")));
    raise(&mut state, "new", 9);
    assert!(!warning_suppressed(&state, Some("new")));
    raise(&mut state, "new", 1);
    assert!(warning_suppressed(&state, Some("new")));
    raise(&mut state, "new", 5);
    assert!(warning_suppressed(&state, Some("new")));
}

#[test]
fn warning_line_with_category_and_place() {
    plain();
    let mut state = WarningState::new();
    assert_eq!(
        warning(&mut state, "old form", Some("deprecated-syntax"), (Some("a.cfg"), Some(12))),
        Some("In file a.cfg:12: warning: old form [deprecated-syntax]".to_string())
    );
    assert_eq!(
        warning(&mut state, "old form", Some("deprecated-syntax"), (Some("a.cfg"), None)),
        Some("In file a.cfg: warning: old form [deprecated-syntax]".to_string())
    );
    assert_eq!(
        warning(&mut state, "old form", Some("deprecated-syntax"), (None, Some(3))),
        Some("In line 3: warning: old form [deprecated-syntax]".to_string())
    );
    assert_eq!(
        warning(&mut state, "old form", Some("deprecated-syntax"), (None, None)),
        Some("warning: old form [deprecated-syntax]".to_string())
    );
}

#[test]
fn warning_message_under_a_given_label() {
    assert_eq!(warning_message("W", "m", None, (None, None)), "W: m");
    assert_eq!(warning_message("W", "m", Some("c"), (None, Some(0))), "In line 0: W: m [c]");
    assert_eq!(
        warning_message("W", "m", None, (Some("f"), Some(4294967295))),
        "In file f:4294967295: W: m"
    );
}

#[test]
fn notices_under_a_given_label() {
    let notices = vec!["one".to_string(), "two".to_string()];
    assert_eq!(label_notices(&notices, "L"), vec!["L: one".to_string(), "L: two".to_string()]);
    assert!(label_notices(&Vec::new(), "L").is_empty());
}
