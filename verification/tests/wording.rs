use url_opener::wording::{attempt_line, failure_line};

#[test]
fn attempt_line_has_the_exact_wording() {
    assert_eq!(attempt_line("https://www.rust-lang.org"), "Attempting to open URL: https://www.rust-lang.org");
}

#[test]
fn attempt_line_of_nothing_is_the_bare_opening() {
    assert_eq!(attempt_line(""), "Attempting to open URL: ");
    assert_eq!(attempt_line("").chars().count(), 24);
}

#[test]
fn failure_line_has_the_exact_wording() {
    assert_eq!(
        failure_line("https://www.rust-lang.org", "Launcher \"xdg-open\" failed with ExitStatus(unix_wait_status(768))"),
        "Failed to open URL https://www.rust-lang.org: Launcher \"xdg-open\" failed with ExitStatus(unix_wait_status(768))"
    );
}

#[test]
fn failure_line_of_nothing_is_opening_and_separator() {
    assert_eq!(failure_line("", ""), "Failed to open URL : ");
    assert_eq!(failure_line("", "").chars().count(), 21);
}

#[test]
fn failure_line_places_address_before_reason() {
    let line = failure_line("alpha", "omega");
    let chars: Vec<char> = line.chars().collect();
    assert_eq!(chars[19..24].iter().collect::<String>(), "alpha");
    assert_eq!(chars[26..31].iter().collect::<String>(), "omega");
    assert_eq!(chars.len(), 31);
}

#[test]
fn failure_line_keeps_the_order_of_its_arguments() {
    assert_eq!(failure_line("a", "b"), "Failed to open URL a: b");
    assert_eq!(failure_line("b", "a"), "Failed to open URL b: a");
}

#[test]
fn failure_line_does_not_escape_the_separator() {
    assert_eq!(failure_line("a: b", "c"), "Failed to open URL a: b: c");
    assert_eq!(failure_line("a", "b: c"), "Failed to open URL a: b: c");
}
