use mgit::discover::is_marker;
use mgit::numfmt::usize_to_string;
use mgit::outcome::{body_stream, classify_exit, header_color, BodyStream, HeaderColor, Outcome};
use mgit::poolsize::{parse_decimal, resolve_pool_size, FALLBACK_POOL_SIZE};
use mgit::record::{compose_output, run_result, spawn_error_result};

#[test]
fn classify_zero_is_success() {
    assert_eq!(classify_exit(Some(0)), Outcome::Success);
}

#[test]
fn classify_nonzero_is_warning() {
    assert_eq!(classify_exit(Some(1)), Outcome::NonZeroExit);
    assert_eq!(classify_exit(Some(128)), Outcome::NonZeroExit);
    assert_eq!(classify_exit(Some(-1)), Outcome::NonZeroExit);
}

#[test]
fn classify_no_code_is_error() {
    assert_eq!(classify_exit(None), Outcome::SpawnOrWaitError);
}

#[test]
fn header_colors_follow_outcome() {
    assert_eq!(header_color(Outcome::Success), HeaderColor::Green);
    assert_eq!(header_color(Outcome::NonZeroExit), HeaderColor::Yellow);
    assert_eq!(header_color(Outcome::SpawnOrWaitError), HeaderColor::Red);
}

#[test]
fn body_streams_follow_outcome() {
    assert_eq!(body_stream(Outcome::Success), BodyStream::StandardOut);
    assert_eq!(body_stream(Outcome::NonZeroExit), BodyStream::StandardError);
    assert_eq!(body_stream(Outcome::SpawnOrWaitError), BodyStream::StandardError);
}

#[test]
fn compose_both_streams() {
    assert_eq!(compose_output("out text", "err text"), "out text\nerr text\n");
}

#[test]
fn compose_skips_empty_streams() {
    assert_eq!(compose_output("", ""), "");
    assert_eq!(compose_output("only out", ""), "only out\n");
    assert_eq!(compose_output("", "only err"), "only err\n");
}

#[test]
fn run_result_carries_classification_and_output() {
    let r = run_result(String::from("/tmp/repo"), Some(0), "clean", "");
    assert_eq!(r.path, "/tmp/repo");
    assert_eq!(r.outcome, Outcome::Success);
    assert_eq!(r.output, "clean\n");
}

#[test]
fn spawn_error_result_has_nonempty_output() {
    let r = spawn_error_result(String::from("/tmp/repo"), "No such file or directory");
    assert_eq!(r.outcome, Outcome::SpawnOrWaitError);
    assert_eq!(r.output, "No such file or directory\n");
    assert!(!r.output.is_empty());
}

#[test]
fn parse_decimal_accepts_digit_strings() {
    assert_eq!(parse_decimal("2"), Some(2));
    assert_eq!(parse_decimal("0"), Some(0));
    assert_eq!(parse_decimal("007"), Some(7));
    assert_eq!(parse_decimal("1000"), Some(1000));
}

#[test]
fn parse_decimal_rejects_other_text() {
    assert_eq!(parse_decimal(""), None);
    assert_eq!(parse_decimal("abc"), None);
    assert_eq!(parse_decimal("1a"), None);
    assert_eq!(parse_decimal("-1"), None);
    assert_eq!(parse_decimal(" 2"), None);
    assert_eq!(parse_decimal("99999999999999999999999999999999"), None);
}

#[test]
fn pool_size_uses_recognized_override() {
    assert_eq!(resolve_pool_size(Some("2")), 2);
    assert_eq!(resolve_pool_size(Some("16")), 16);
}

#[test]
fn pool_size_falls_back_on_unrecognized_override() {
    assert_eq!(resolve_pool_size(Some("abc")), FALLBACK_POOL_SIZE);
    assert_eq!(resolve_pool_size(Some("")), FALLBACK_POOL_SIZE);
    assert_eq!(resolve_pool_size(Some("0")), FALLBACK_POOL_SIZE);
    assert_eq!(resolve_pool_size(Some("-3")), FALLBACK_POOL_SIZE);
}

#[test]
fn pool_size_without_override_is_positive() {
    assert!(resolve_pool_size(None) >= 1);
}

#[test]
fn decimal_rendering() {
    assert_eq!(usize_to_string(0), "0");
    assert_eq!(usize_to_string(7), "7");
    assert_eq!(usize_to_string(42), "42");
    assert_eq!(usize_to_string(1000), "1000");
    assert_eq!(usize_to_string(90210), "90210");
}

#[test]
fn marker_requires_directory_and_exact_name() {
    assert!(is_marker(true, ".git"));
    assert!(!is_marker(false, ".git"));
    assert!(!is_marker(true, "git"));
    assert!(!is_marker(true, ".gitignore"));
    assert!(!is_marker(true, "src"));
}
