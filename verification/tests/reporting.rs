use timesync::clock::interpret_clock_set;
use timesync::errors::FetchError;
use timesync::errors::OsError;
use timesync::errors::ParseError;
use timesync::logging::append_log_line;
use timesync::logging::append_log_line_now;
use timesync::logging::render_log_line;
use timesync::num::u32_dec;

#[test]
fn log_line_on_fresh_content_is_exactly_one_line() {
    let content = append_log_line("", "oops", 7);
    assert_eq!(content, "oops - [7]\n");
}

#[test]
fn render_log_line_matches_format() {
    assert_eq!(render_log_line("oops", 59), "oops - [59]\n");
    assert_eq!(render_log_line("", 0), " - [0]\n");
}

#[test]
fn logging_twice_accumulates_in_call_order() {
    let first = append_log_line("", "first failure", 10);
    let second = append_log_line(&first, "second failure", 20);
    assert_eq!(second, "first failure - [10]\nsecond failure - [20]\n");
    assert!(second.starts_with(&first));
}

#[test]
fn log_line_now_stays_in_minute_range() {
    let line = append_log_line_now("", "oops");
    let middle = line.strip_prefix("oops - [").unwrap();
    let digits = middle.strip_suffix("]\n").unwrap();
    let seconds: u32 = digits.parse().unwrap();
    assert!(seconds <= 59);
}

#[test]
fn clock_set_success_is_ok() {
    assert!(interpret_clock_set(true, 0).is_ok());
    assert!(interpret_clock_set(true, 5).is_ok());
}

#[test]
fn clock_set_failure_surfaces_code_unmodified() {
    assert_eq!(interpret_clock_set(false, 1314), Err(OsError::ClockSetFailed(1314)));
    assert_eq!(interpret_clock_set(false, 0), Err(OsError::ClockSetFailed(0)));
}

#[test]
fn os_error_message_carries_decimal_code() {
    let m = OsError::ClockSetFailed(1314).message();
    assert_eq!(m, "Error in execution: os error 1314");
}

#[test]
fn fetch_error_message_names_the_endpoint() {
    assert_eq!(FetchError::Unreachable.message(), "Error in request endpoint.");
}

#[test]
fn parse_error_messages_name_each_failure() {
    assert_eq!(ParseError::MalformedJson.message(), "Malformed JSON in response body.");
    assert_eq!(ParseError::MalformedDateTime.message(), "Malformed datetime in response body.");
    assert_eq!(ParseError::InvalidNumericField.message(), "Invalid numeric field in datetime.");
    assert_eq!(
        ParseError::UnsupportedOffsetSign.message(),
        "Unsupported UTC offset sign in datetime."
    );
}

#[test]
fn decimal_rendering_is_exact() {
    assert_eq!(u32_dec(0), "0");
    assert_eq!(u32_dec(9), "9");
    assert_eq!(u32_dec(10), "10");
    assert_eq!(u32_dec(4294967295), "4294967295");
}
