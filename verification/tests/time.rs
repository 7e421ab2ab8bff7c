use vrc_logger::vrc::time::{date, parse_time, show_parsed_time};

#[test]
fn date_turns_year_month_day_around() {
    assert_eq!(date("2024-01-15"), "15.01.2024");
    assert_eq!(date("1999-12-31"), "31.12.1999");
}

#[test]
fn date_keeps_only_the_last_three_parts() {
    assert_eq!(date("a-b-c-d"), "d.c.b");
    assert_eq!(date("a-b"), "b.a");
    assert_eq!(date("-"), ".");
    assert_eq!(date("2024--15"), "15..2024");
}

#[test]
fn date_without_dash_is_unchanged() {
    assert_eq!(date("today"), "today");
    assert_eq!(date(""), "");
}

#[test]
fn parse_time_formats_rfc3339() {
    assert_eq!(parse_time("2024-01-15T10:05:00+02:00"), "15.01.2024 10:05");
    assert_eq!(parse_time("1996-12-19T16:39:57-08:00"), "19.12.1996 16:39");
    assert_eq!(parse_time("2023-07-04T09:03:00.123Z"), "04.07.2023 09:03");
}

#[test]
fn parse_time_keeps_other_text() {
    assert_eq!(parse_time("not a time"), "not a time");
    assert_eq!(parse_time("2024-01-15"), "2024-01-15");
    assert_eq!(parse_time(""), "");
}

#[test]
fn show_parsed_time_pads_and_signs() {
    assert_eq!(show_parsed_time("x", Some((5, 3, 7, 0, 9))), "07.03.5 00:09");
    assert_eq!(show_parsed_time("x", Some((-44, 3, 15, 12, 30))), "15.03.-44 12:30");
    assert_eq!(show_parsed_time("x", Some((i32::MIN, 12, 31, 23, 59))), "31.12.-2147483648 23:59");
    assert_eq!(show_parsed_time("keep me", None), "keep me");
}
