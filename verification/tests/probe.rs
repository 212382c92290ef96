use ansi_support::console::ConsoleError;
use ansi_support::term::{is_allowed_term_name, is_specific_term};
use ansi_support::{probe_term, supports_ansi, ProbeStep};

fn set_term(value: &str) -> Option<String> {
    Some(value.to_string())
}

#[test]
fn xterm_supports_ansi_without_platform_call() {
    let term = set_term("xterm");
    assert_eq!(probe_term(&term), ProbeStep::Supported);
    assert!(supports_ansi(&term, Err(ConsoleError::NoConsole)));
}

#[test]
fn any_non_dumb_value_supports_ansi() {
    for value in ["", "xterm-256color", "definitely-not-a-terminal", "DUMB", "dumb "] {
        let term = set_term(value);
        assert!(is_specific_term(&term));
        assert_eq!(probe_term(&term), ProbeStep::Supported);
        assert!(supports_ansi(&term, Err(ConsoleError::NoConsole)));
    }
}

#[test]
fn dumb_term_fails_the_allow_list() {
    let term = set_term("dumb");
    assert!(!is_allowed_term_name(&"dumb".to_string()));
    assert!(!is_specific_term(&term));
    assert_eq!(probe_term(&term), ProbeStep::TryToggle);
}

#[test]
fn dumb_term_defers_to_the_toggle() {
    let term = set_term("dumb");
    assert!(supports_ansi(&term, Ok(())));
    assert!(!supports_ansi(&term, Err(ConsoleError::NoConsole)));
    assert!(!supports_ansi(&term, Err(ConsoleError::SetModeFailed)));
}

#[test]
fn unset_term_defers_to_the_toggle() {
    let term: Option<String> = None;
    assert!(!is_specific_term(&term));
    assert_eq!(probe_term(&term), ProbeStep::TryToggle);
    assert!(supports_ansi(&term, Ok(())));
    assert!(!supports_ansi(&term, Err(ConsoleError::NoConsole)));
}

#[test]
fn every_allow_listed_name_is_recognised() {
    let names = [
        "xterm", "rxvt", "eterm", "screen", "tmux", "vt100", "vt102", "vt220", "vt320", "ansi",
        "scoansi", "cygwin", "linux", "konsole", "bvterm",
    ];
    for name in names {
        assert!(is_allowed_term_name(&name.to_string()));
        assert!(is_specific_term(&set_term(name)));
    }
}

#[test]
fn near_misses_are_not_on_the_allow_list() {
    for value in ["dumb", "xter", "xtermm", "Xterm", "vt101", ""] {
        assert!(!is_allowed_term_name(&value.to_string()));
    }
}

#[test]
fn repeated_calls_agree() {
    let term = set_term("xterm");
    let first = supports_ansi(&term, Err(ConsoleError::NoConsole));
    let second = supports_ansi(&term, Err(ConsoleError::NoConsole));
    assert_eq!(first, second);
    assert!(first);

    let unset: Option<String> = None;
    let third = supports_ansi(&unset, Ok(()));
    let fourth = supports_ansi(&unset, Ok(()));
    assert_eq!(third, fourth);
}
