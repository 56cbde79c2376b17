//! Cleaning script output of terminal escape codes.

use orkestra_core::workflow::agent::interactions::process_script_success::strip_ansi_codes;

#[test]
fn test_strip_ansi_codes_removes_colors() {
    let input = "\x1b[31mred text\x1b[0m normal text \x1b[32mgreen\x1b[0m";
    let result = strip_ansi_codes(input);
    assert_eq!(result, "red text normal text green");
    assert!(!result.contains("\x1b["));
}

#[test]
fn test_strip_ansi_codes_preserves_plain_text() {
    let input = "plain text without any escapes\nwith newlines";
    let result = strip_ansi_codes(input);
    assert_eq!(result, input);
}

#[test]
fn test_strip_ansi_codes_handles_empty_string() {
    let result = strip_ansi_codes("");
    assert_eq!(result, "");
}

#[test]
fn test_strip_ansi_codes_handles_complex_sequences() {
    let input =
        "\x1b[1mbold\x1b[0m \x1b[4munderline\x1b[0m \x1b[38;5;196mextended color\x1b[0m";
    let result = strip_ansi_codes(input);
    assert_eq!(result, "bold underline extended color");
}
