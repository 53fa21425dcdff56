use ical_events::timestamp::{
    accept_parsed, has_basic_shape, parse_ical_utc_date_time, UtcTimestamp, BASIC_FORMAT,
    BASIC_LEN, T_INDEX,
};

fn parse(text: &str) -> Option<UtcTimestamp> {
    parse_ical_utc_date_time(Some(text.to_string()))
}

fn at(year: i32, month: u32, day: u32, hour: u32, minute: u32, second: u32) -> UtcTimestamp {
    UtcTimestamp { year, month, day, hour, minute, second, nanosecond: 0 }
}

#[test]
fn absent_value_is_no_timestamp() {
    assert_eq!(parse_ical_utc_date_time(None), None);
}

#[test]
fn basic_form_is_read_field_by_field() {
    assert_eq!(parse("20240301T180000"), Some(at(2024, 3, 1, 18, 0, 0)));
    assert_eq!(parse("19700101T000000"), Some(at(1970, 1, 1, 0, 0, 0)));
    assert_eq!(parse("20231231T235959"), Some(at(2023, 12, 31, 23, 59, 59)));
    assert_eq!(parse("20240102T030405"), Some(at(2024, 1, 2, 3, 4, 5)));
}

#[test]
fn leap_day_only_in_leap_years() {
    assert_eq!(parse("20240229T120000"), Some(at(2024, 2, 29, 12, 0, 0)));
    assert_eq!(parse("20000229T120000"), Some(at(2000, 2, 29, 12, 0, 0)));
    assert_eq!(parse("20230229T120000"), None);
    assert_eq!(parse("19000229T120000"), None);
}

#[test]
fn years_of_four_digits() {
    assert_eq!(parse("00010101T000000"), Some(at(1, 1, 1, 0, 0, 0)));
    assert_eq!(parse("99991231T235959"), Some(at(9999, 12, 31, 23, 59, 59)));
}

#[test]
fn leap_second_is_kept_as_chrono_holds_it() {
    assert_eq!(
        parse("20161231T235960"),
        Some(UtcTimestamp {
            year: 2016,
            month: 12,
            day: 31,
            hour: 23,
            minute: 59,
            second: 59,
            nanosecond: 1_000_000_000
        })
    );
}

#[test]
fn impossible_dates_and_times_give_no_value() {
    assert_eq!(parse("20240001T000000"), None);
    assert_eq!(parse("20241301T000000"), None);
    assert_eq!(parse("20240100T000000"), None);
    assert_eq!(parse("20240132T000000"), None);
    assert_eq!(parse("20240431T000000"), None);
    assert_eq!(parse("20240301T240000"), None);
    assert_eq!(parse("20240301T006000"), None);
    assert_eq!(parse("20240301T000061"), None);
}

#[test]
fn other_shapes_give_no_value() {
    assert_eq!(parse(""), None);
    assert_eq!(parse("not-a-date"), None);
    assert_eq!(parse("20240301"), None);
    assert_eq!(parse("20240301T1800"), None);
    assert_eq!(parse("20240301T180000Z"), None);
    assert_eq!(parse("20240301T180000.5"), None);
    assert_eq!(parse("20240301T180000+0100"), None);
    assert_eq!(parse("2024-03-01T18:00:00"), None);
    assert_eq!(parse("20240301t180000"), None);
    assert_eq!(parse("20240301 180000"), None);
    assert_eq!(parse("T20240301180000"), None);
    assert_eq!(parse("2024O301T180000"), None);
    assert_eq!(parse("+2024031T180000"), None);
    assert_eq!(parse("-0240301T180000"), None);
    assert_eq!(parse("+20240301T180000"), None);
}

#[test]
fn texts_that_chrono_alone_would_take_give_no_value() {
    let loose = [
        " 20240301T180000",
        "2024 3 1T18 0 0",
        "2024031T180000",
        "20243 1T180000",
        "+2024 0301T180000",
        "2024 0301T180000",
        "20240301T18 000",
        "20240301T18000",
    ];
    for text in loose {
        assert!(chrono::NaiveDateTime::parse_from_str(text, BASIC_FORMAT).is_ok(), "{}", text);
        assert_eq!(parse(text), None, "{}", text);
    }
}

#[test]
fn digits_of_other_scripts_give_no_value() {
    assert_eq!(parse("２０２４０３０１T１８００００"), None);
    assert_eq!(parse("٢٠٢٤٠٣٠١T١٨٠٠٠٠"), None);
    assert_eq!(parse("2024030１T180000"), None);
}

#[test]
fn shape_is_fifteen_characters_with_t_in_the_middle() {
    assert_eq!(BASIC_LEN, 15);
    assert_eq!(T_INDEX, 8);
    assert!(has_basic_shape("20240301T180000"));
    assert!(has_basic_shape("00000000T000000"));
    assert!(has_basic_shape("99999999T999999"));
    assert!(!has_basic_shape(""));
    assert!(!has_basic_shape("20240301T18000"));
    assert!(!has_basic_shape("20240301T1800000"));
    assert!(!has_basic_shape("202403010180000"));
    assert!(!has_basic_shape("2024030TT180000"));
    assert!(!has_basic_shape("20240301T18000/"));
    assert!(!has_basic_shape("20240301T18000:"));
    assert!(!has_basic_shape("/0240301T180000"));
    assert!(!has_basic_shape(":0240301T180000"));
    assert!(!has_basic_shape("2024030１T18000"));
    assert!(!has_basic_shape("é0240301T18000"));
}

#[test]
fn a_parse_counts_only_for_a_text_of_the_basic_shape() {
    let stamp = at(2024, 3, 1, 18, 0, 0);
    assert_eq!(accept_parsed("20240301T180000", Some(stamp)), Some(stamp));
    assert_eq!(accept_parsed("20240301T180000", None), None);
    assert_eq!(accept_parsed("2024 3 1T18 0 0", Some(stamp)), None);
    assert_eq!(accept_parsed("not-a-date", Some(stamp)), None);
    assert_eq!(accept_parsed("not-a-date", None), None);
}

#[test]
fn the_pattern_is_the_basic_one() {
    assert_eq!(BASIC_FORMAT, "%Y%m%dT%H%M%S");
}
