use wallpaper_setter::cli::{
    mode_from_lowercase, needs_resolution, parse_invocation, parse_mode, usage_message,
    Invocation, Mode, UsageError, ARGUMENT_COUNT, USAGE_EXIT_CODE,
};

fn args(words: &[&str]) -> Vec<String> {
    words.iter().map(|w| w.to_string()).collect()
}

#[test]
fn two_arguments_are_an_invocation() {
    assert_eq!(
        parse_invocation(&args(&["setter", "C:\\a.png", "current"])),
        Ok(Invocation { image_path: "C:\\a.png".to_string(), mode: Mode::Current })
    );
    assert_eq!(
        parse_invocation(&args(&["setter", "b.jpg", "every"])),
        Ok(Invocation { image_path: "b.jpg".to_string(), mode: Mode::Every })
    );
}

#[test]
fn one_argument_is_a_usage_error() {
    assert_eq!(parse_invocation(&args(&["setter", "a.png"])), Err(UsageError { given: 2 }));
}

#[test]
fn three_or_more_arguments_are_a_usage_error() {
    assert_eq!(
        parse_invocation(&args(&["setter", "a.png", "every", "x"])),
        Err(UsageError { given: 4 })
    );
    assert_eq!(
        parse_invocation(&args(&["setter", "a.png", "current", "x", "y"])),
        Err(UsageError { given: 5 })
    );
}

#[test]
fn no_argument_is_a_usage_error() {
    assert_eq!(parse_invocation(&args(&["setter"])), Err(UsageError { given: 1 }));
    assert_eq!(parse_invocation(&args(&[])), Err(UsageError { given: 0 }));
}

#[test]
fn usage_error_exits_with_one() {
    assert_eq!(USAGE_EXIT_CODE, 1);
    assert_eq!(ARGUMENT_COUNT, 3);
}

#[test]
fn usage_message_names_the_program() {
    assert_eq!(usage_message("setter.exe"), "Usage: setter.exe <image_path> <every|current>");
    assert_eq!(usage_message(""), "Usage:  <image_path> <every|current>");
}

#[test]
fn mode_is_read_whatever_its_case() {
    assert_eq!(parse_mode("current"), Mode::Current);
    assert_eq!(parse_mode("CURRENT"), Mode::Current);
    assert_eq!(parse_mode("CuRrEnT"), Mode::Current);
    assert_eq!(parse_mode("every"), Mode::Every);
    assert_eq!(parse_mode("EVERY"), Mode::Every);
}

#[test]
fn unknown_mode_means_every() {
    assert_eq!(parse_mode("curent"), Mode::Every);
    assert_eq!(parse_mode(""), Mode::Every);
    assert_eq!(parse_mode(" current"), Mode::Every);
    assert_eq!(parse_mode("current "), Mode::Every);
    assert_eq!(parse_mode("all"), Mode::Every);
}

#[test]
fn mode_from_lowercase_is_exact() {
    assert_eq!(mode_from_lowercase("current"), Mode::Current);
    assert_eq!(mode_from_lowercase("Current"), Mode::Every);
    assert_eq!(mode_from_lowercase("every"), Mode::Every);
}

#[test]
fn only_current_mode_needs_resolution() {
    assert!(needs_resolution(Mode::Current));
    assert!(!needs_resolution(Mode::Every));
}
