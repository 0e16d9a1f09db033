use timesync::datetime::decompose_datetime;
use timesync::errors::ParseError;
use timesync::json::parse;
use timesync::json::parse_record;
use timesync::record::TimeRecord;

fn sample_body() -> String {
    String::from(
        "{\"datetime\":\"2023-08-14T09:05:42.873421-03:00\",\
         \"day_of_week\":1,\
         \"day_of_year\":226,\
         \"timezone\":\"America/Sao_Paulo\",\
         \"unixtime\":1692007542,\
         \"utc_datetime\":\"2023-08-14T12:05:42.873421+00:00\",\
         \"utc_offset\":\"-03:00\",\
         \"week_number\":33}",
    )
}

#[test]
fn decompose_extracts_example_fields() {
    let parts = decompose_datetime("2023-08-14T09:05:42.873421-03:00").unwrap();
    assert_eq!(parts.year, 2023);
    assert_eq!(parts.month, 8);
    assert_eq!(parts.day, 14);
    assert_eq!(parts.hour, 9);
    assert_eq!(parts.minute, 5);
    assert_eq!(parts.second, 42);
    assert_eq!(parts.millisecond, 87);
}

#[test]
fn decompose_truncates_not_rounds() {
    let parts = decompose_datetime("2023-08-14T09:05:42.567890-03:00").unwrap();
    assert_eq!(parts.millisecond, 56);
}

#[test]
fn decompose_accepts_short_fraction_of_two() {
    let parts = decompose_datetime("1999-12-31T23:59:58.99-03:00").unwrap();
    assert_eq!(parts.year, 1999);
    assert_eq!(parts.second, 58);
    assert_eq!(parts.millisecond, 99);
}

#[test]
fn missing_t_separator_is_malformed_datetime() {
    let r = decompose_datetime("2023-08-14 09:05:42.873421-03:00");
    assert_eq!(r, Err(ParseError::MalformedDateTime));
}

#[test]
fn empty_string_is_malformed_datetime() {
    let r = decompose_datetime("");
    assert_eq!(r, Err(ParseError::MalformedDateTime));
}

#[test]
fn missing_fraction_is_malformed_datetime() {
    let r = decompose_datetime("2023-08-14T09:05:42-03:00");
    assert_eq!(r, Err(ParseError::MalformedDateTime));
}

#[test]
fn one_digit_fraction_is_malformed_datetime() {
    let r = decompose_datetime("2023-08-14T09:05:42.8-03:00");
    assert_eq!(r, Err(ParseError::MalformedDateTime));
}

#[test]
fn short_time_is_malformed_datetime() {
    let r = decompose_datetime("2023-08-14T09:05");
    assert_eq!(r, Err(ParseError::MalformedDateTime));
}

#[test]
fn short_date_is_malformed_datetime() {
    let r = decompose_datetime("2023-08T09:05:42.873421-03:00");
    assert_eq!(r, Err(ParseError::MalformedDateTime));
}

#[test]
fn positive_offset_is_unsupported() {
    let r = decompose_datetime("2023-08-14T09:05:42.873421+03:00");
    assert_eq!(r, Err(ParseError::UnsupportedOffsetSign));
}

#[test]
fn positive_offset_after_short_fraction_is_unsupported() {
    let r = decompose_datetime("2023-08-14T09:05:42.5+03:00");
    assert_eq!(r, Err(ParseError::UnsupportedOffsetSign));
}

#[test]
fn non_numeric_year_is_invalid_numeric_field() {
    let r = decompose_datetime("20a3-08-14T09:05:42.873421-03:00");
    assert_eq!(r, Err(ParseError::InvalidNumericField));
}

#[test]
fn year_too_large_is_invalid_numeric_field() {
    let r = decompose_datetime("70000-08-14T09:05:42.873421-03:00");
    assert_eq!(r, Err(ParseError::InvalidNumericField));
}

#[test]
fn leading_zeros_parse_to_same_value() {
    let parts = decompose_datetime("0002023-08-14T09:05:42.873421-03:00").unwrap();
    assert_eq!(parts.year, 2023);
}

#[test]
fn non_digit_in_fraction_prefix_is_invalid_numeric_field() {
    let r = decompose_datetime("2023-08-14T09:05:42.8a3421-03:00");
    assert_eq!(r, Err(ParseError::InvalidNumericField));
}

#[test]
fn parse_decodes_whole_record() {
    let rec = parse(&sample_body()).unwrap();
    assert_eq!(rec.datetime, "2023-08-14T09:05:42.873421-03:00");
    assert_eq!(rec.day_of_week, 1);
    assert_eq!(rec.day_of_year, 226);
    assert_eq!(rec.timezone, "America/Sao_Paulo");
    assert_eq!(rec.unixtime, 1692007542);
    assert_eq!(rec.utc_datetime, "2023-08-14T12:05:42.873421+00:00");
    assert_eq!(rec.utc_offset, "-03:00");
    assert_eq!(rec.week_number, 33);
}

#[test]
fn parsed_record_projects_to_clock_fields() {
    let rec = parse(&sample_body()).unwrap();
    let fields = rec.clock_fields().unwrap();
    assert_eq!(fields.year, 2023);
    assert_eq!(fields.month, 8);
    assert_eq!(fields.day, 14);
    assert_eq!(fields.day_of_week, 1);
    assert_eq!(fields.hour, 9);
    assert_eq!(fields.minute, 5);
    assert_eq!(fields.second, 42);
    assert_eq!(fields.millisecond, 87);
}

#[test]
fn clock_fields_from_handwritten_record() {
    let rec = TimeRecord {
        datetime: String::from("2024-02-29T23:59:59.019999-03:00"),
        day_of_week: 4,
        day_of_year: 60,
        timezone: String::from("America/Sao_Paulo"),
        unixtime: 1709258399,
        utc_datetime: String::from("2024-03-01T02:59:59.019999+00:00"),
        utc_offset: String::from("-03:00"),
        week_number: 9,
    };
    let fields = rec.clock_fields().unwrap();
    assert_eq!(fields.year, 2024);
    assert_eq!(fields.month, 2);
    assert_eq!(fields.day, 29);
    assert_eq!(fields.day_of_week, 4);
    assert_eq!(fields.millisecond, 1);
}

#[test]
fn parsing_is_deterministic_across_calls() {
    let body = sample_body();
    let first = parse(&body).unwrap();
    let second = parse(&body).unwrap();
    assert_eq!(first.datetime, second.datetime);
    assert_eq!(first.day_of_week, second.day_of_week);
    assert_eq!(first.day_of_year, second.day_of_year);
    assert_eq!(first.timezone, second.timezone);
    assert_eq!(first.unixtime, second.unixtime);
    assert_eq!(first.utc_datetime, second.utc_datetime);
    assert_eq!(first.utc_offset, second.utc_offset);
    assert_eq!(first.week_number, second.week_number);
}

#[test]
fn body_missing_datetime_is_malformed_json() {
    let body = "{\"day_of_week\":1,\"day_of_year\":226,\"timezone\":\"America/Sao_Paulo\",\
                \"unixtime\":1692007542,\"utc_datetime\":\"x\",\"utc_offset\":\"-03:00\",\
                \"week_number\":33}";
    assert_eq!(parse(body).err(), Some(ParseError::MalformedJson));
    assert_eq!(parse_record(body).err(), Some(ParseError::MalformedJson));
}

#[test]
fn body_that_is_not_json_is_malformed_json() {
    assert_eq!(parse("not json at all").err(), Some(ParseError::MalformedJson));
}

#[test]
fn mistyped_datetime_is_malformed_json() {
    let body = "{\"datetime\":12345,\"day_of_week\":1,\"day_of_year\":226,\
                \"timezone\":\"z\",\"unixtime\":1,\"utc_datetime\":\"x\",\
                \"utc_offset\":\"-03:00\",\"week_number\":33}";
    assert_eq!(parse(body).err(), Some(ParseError::MalformedJson));
}

#[test]
fn day_of_week_out_of_range_is_malformed_json() {
    let body = "{\"datetime\":\"2023-08-14T09:05:42.873421-03:00\",\"day_of_week\":300,\
                \"day_of_year\":226,\"timezone\":\"z\",\"unixtime\":1,\"utc_datetime\":\"x\",\
                \"utc_offset\":\"-03:00\",\"week_number\":33}";
    assert_eq!(parse(body).err(), Some(ParseError::MalformedJson));
}

#[test]
fn malformed_datetime_inside_valid_json_keeps_its_own_error() {
    let body = "{\"datetime\":\"2023-08-14 09:05:42.873421-03:00\",\"day_of_week\":1,\
                \"day_of_year\":226,\"timezone\":\"z\",\"unixtime\":1,\"utc_datetime\":\"x\",\
                \"utc_offset\":\"-03:00\",\"week_number\":33}";
    assert_eq!(parse(body).err(), Some(ParseError::MalformedDateTime));
}
